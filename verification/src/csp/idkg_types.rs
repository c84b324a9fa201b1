//! Byte forms of the multi-encryption-gadget (MEGa) keys and commitment
//! openings used by interactive distributed key generation.

use vstd::prelude::*;
use crate::csp::secrets::SecretArray;

verus! {

/// A MEGa public key on the K256 curve (a compressed point).
#[derive(Clone, Copy, PartialEq, Eq, Debug)]
pub struct MEGaPublicKeyK256Bytes(pub [u8; 33]);

impl MEGaPublicKeyK256Bytes {
    /// The length of a MEGa public key.
    pub const SIZE: usize = 33;
}

/// A MEGa private key on the K256 curve (a scalar).
pub struct MEGaPrivateKeyK256Bytes(pub SecretArray<32>);

impl MEGaPrivateKeyK256Bytes {
    /// The length of a MEGa private key.
    pub const SIZE: usize = 32;
}

/// One MEGa key set: the public key and the private key.
pub struct MEGaKeySetK256Bytes {
    pub public_key: MEGaPublicKeyK256Bytes,
    pub private_key: MEGaPrivateKeyK256Bytes,
}

/// A scalar on a supported curve.
pub enum EccScalarBytes {
    K256([u8; 32]),
}

/// The opening of a polynomial commitment: plain, or with a Pedersen mask.
pub enum CommitmentOpeningBytes {
    Simple(EccScalarBytes),
    Pedersen(EccScalarBytes, EccScalarBytes),
}

} // verus!
