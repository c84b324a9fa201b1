//! Byte forms of the ephemeral secp256k1 key sets used by distributed key
//! generation.

use vstd::prelude::*;
use crate::csp::secrets::SecretArray;

verus! {

/// An ephemeral secret key.
pub struct EphemeralSecretKeyBytes(pub SecretArray<32>);

impl EphemeralSecretKeyBytes {
    /// The length of an ephemeral secret key.
    pub const SIZE: usize = 32;
}

/// An ephemeral public key (a compressed point).
#[derive(Clone, Copy, PartialEq, Eq, Debug)]
pub struct EphemeralPublicKeyBytes(pub [u8; 33]);

impl EphemeralPublicKeyBytes {
    /// The length of an ephemeral public key.
    pub const SIZE: usize = 33;
}

/// A proof of possession of an ephemeral key.
#[derive(Clone, Copy, PartialEq, Eq, Debug)]
pub struct EphemeralPopBytes(pub [u8; 48]);

impl EphemeralPopBytes {
    /// The length of a proof of possession.
    pub const SIZE: usize = 48;
}

/// One ephemeral key set: secret key, public key and proof of possession.
pub struct EphemeralKeySetBytes {
    pub secret_key_bytes: EphemeralSecretKeyBytes,
    pub public_key_bytes: EphemeralPublicKeyBytes,
    pub pop_bytes: EphemeralPopBytes,
}

} // verus!
