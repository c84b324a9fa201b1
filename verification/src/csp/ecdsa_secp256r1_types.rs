//! Byte form of ECDSA P-256 signatures.

use vstd::prelude::*;

verus! {

/// An ECDSA P-256 signature: r and s, 32 bytes each.
#[derive(Clone, Copy, PartialEq, Eq, Debug)]
pub struct SignatureBytes(pub [u8; 64]);

impl SignatureBytes {
    /// The length of an ECDSA P-256 signature.
    pub const SIZE: usize = 64;
}

} // verus!
