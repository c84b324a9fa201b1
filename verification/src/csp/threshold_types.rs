//! Byte forms of threshold BLS12-381 keys and signatures.

use vstd::prelude::*;

verus! {

/// A threshold secret key share (a field element).
#[derive(Clone, Copy, PartialEq, Eq)]
pub struct SecretKeyBytes(pub [u8; 32]);

impl SecretKeyBytes {
    /// The length of a threshold secret key share.
    pub const SIZE: usize = 32;
}

/// One party's threshold signature (a G1 point).
#[derive(Clone, Copy, PartialEq, Eq, Debug)]
pub struct IndividualSignatureBytes(pub [u8; 48]);

impl IndividualSignatureBytes {
    /// The length of an individual threshold signature.
    pub const SIZE: usize = 48;
}

/// A combined threshold signature (a G1 point).
#[derive(Clone, Copy, PartialEq, Eq, Debug)]
pub struct CombinedSignatureBytes(pub [u8; 48]);

impl CombinedSignatureBytes {
    /// The length of a combined threshold signature.
    pub const SIZE: usize = 48;
}

} // verus!
