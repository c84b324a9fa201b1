//! Byte forms of ed25519 keys and signatures.

use vstd::prelude::*;
use crate::csp::secrets::SecretArray;

verus! {

/// An ed25519 secret key; the bytes sit in a secret container.
pub struct SecretKeyBytes(pub SecretArray<32>);

impl SecretKeyBytes {
    /// The length of an ed25519 secret key.
    pub const SIZE: usize = 32;
}

/// An ed25519 public key.
#[derive(Clone, Copy, PartialEq, Eq, Debug)]
pub struct PublicKeyBytes(pub [u8; 32]);

impl PublicKeyBytes {
    /// The length of an ed25519 public key.
    pub const SIZE: usize = 32;
}

/// An ed25519 signature.
#[derive(Clone, Copy, PartialEq, Eq, Debug)]
pub struct SignatureBytes(pub [u8; 64]);

impl SignatureBytes {
    /// The length of an ed25519 signature.
    pub const SIZE: usize = 64;
}

} // verus!
