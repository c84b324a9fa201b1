//! Byte form of ECDSA secp256k1 signatures.

use vstd::prelude::*;

verus! {

/// An ECDSA secp256k1 signature: r and s, 32 bytes each.
#[derive(Clone, Copy, PartialEq, Eq, Debug)]
pub struct SignatureBytes(pub [u8; 64]);

impl SignatureBytes {
    /// The length of an ECDSA secp256k1 signature.
    pub const SIZE: usize = 64;
}

} // verus!
