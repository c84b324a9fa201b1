//! Byte forms of the forward-secure encryption key sets used by
//! non-interactive distributed key generation over BLS12-381.

use vstd::prelude::*;

verus! {

/// A BLS12-381 G1 point.
#[derive(Clone, Copy, PartialEq, Eq, Debug)]
pub struct G1(pub [u8; 48]);

impl G1 {
    /// The length of a compressed G1 point.
    pub const SIZE: usize = 48;
}

/// A BLS12-381 G2 point.
#[derive(Clone, Copy, PartialEq, Eq, Debug)]
pub struct G2(pub [u8; 96]);

impl G2 {
    /// The length of a compressed G2 point.
    pub const SIZE: usize = 96;
}

/// A BLS12-381 scalar.
#[derive(Clone, Copy, PartialEq, Eq, Debug)]
pub struct Fr(pub [u8; 32]);

impl Fr {
    /// The length of a scalar.
    pub const SIZE: usize = 32;
}

/// A forward-secure encryption public key.
#[derive(Clone, Copy, PartialEq, Eq, Debug)]
pub struct FsEncryptionPublicKey(pub G1);

/// A proof of knowledge for a forward-secure encryption key.
#[derive(Clone, Copy, PartialEq, Eq, Debug)]
pub struct FsEncryptionPok {
    pub blinder: G1,
    pub response: Fr,
}

/// One node of the binary-tree-encryption secret key.
#[derive(Clone, PartialEq, Eq)]
pub struct BTENode {
    pub tau: Vec<u8>,
    pub a: G1,
    pub b: G2,
    pub d_t: Vec<G2>,
    pub d_h: Vec<G2>,
    pub e: G2,
}

/// A forward-secure encryption secret key: its tree nodes.
#[derive(Clone, PartialEq, Eq)]
pub struct FsEncryptionSecretKey {
    pub bte_nodes: Vec<BTENode>,
}

/// A full forward-secure encryption key set.
#[derive(Clone, PartialEq, Eq)]
pub struct FsEncryptionKeySet {
    pub public_key: FsEncryptionPublicKey,
    pub secret_key: FsEncryptionSecretKey,
    pub pok: FsEncryptionPok,
}

/// The key-set variants the provider stores for forward-secure encryption.
#[derive(Clone, PartialEq, Eq)]
#[allow(non_camel_case_types)]
pub enum CspFsEncryptionKeySet {
    Groth20_Bls12_381(FsEncryptionKeySet),
}

} // verus!
