//! Byte forms of multi-signature BLS12-381 keys and signatures.

use vstd::prelude::*;

verus! {

/// A multi-signature secret key (a field element).
#[derive(Clone, Copy, PartialEq, Eq)]
pub struct SecretKeyBytes(pub [u8; 32]);

impl SecretKeyBytes {
    /// The length of a multi-signature secret key.
    pub const SIZE: usize = 32;
}

/// A multi-signature public key (a G2 point).
#[derive(Clone, Copy, PartialEq, Eq, Debug)]
pub struct PublicKeyBytes(pub [u8; 96]);

impl PublicKeyBytes {
    /// The length of a multi-signature public key.
    pub const SIZE: usize = 96;
}

/// One party's multi-signature (a G1 point).
#[derive(Clone, Copy, PartialEq, Eq, Debug)]
pub struct IndividualSignatureBytes(pub [u8; 48]);

impl IndividualSignatureBytes {
    /// The length of an individual multi-signature.
    pub const SIZE: usize = 48;
}

/// A combined multi-signature (a G1 point).
#[derive(Clone, Copy, PartialEq, Eq, Debug)]
pub struct CombinedSignatureBytes(pub [u8; 48]);

impl CombinedSignatureBytes {
    /// The length of a combined multi-signature.
    pub const SIZE: usize = 48;
}

} // verus!
