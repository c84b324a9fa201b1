//! The crypto service provider's key, signature and key-set types: which
//! algorithm a value belongs to, how it converts to and from the registry and
//! user-facing forms, and how it prints without leaking secret material.

pub mod ed25519_types;
pub mod multi_types;
pub mod threshold_types;
pub mod ecdsa_secp256k1_types;
pub mod ecdsa_secp256r1_types;
pub mod secrets;
pub mod dkg_secp256k1_types;
pub mod ni_dkg_types;
pub mod idkg_types;

use vstd::prelude::*;
use crate::ids::AlgorithmId;
use crate::support::bytes_from_vec;
use crate::text::{base64_encode, hex_to_byte_vec, is_hex_string, spec_base64, spec_hex_decode};
use self::dkg_secp256k1_types::EphemeralKeySetBytes;
use self::idkg_types::{CommitmentOpeningBytes, MEGaKeySetK256Bytes};
use self::ni_dkg_types::CspFsEncryptionKeySet;

verus! {

/// A TLS ed25519 secret key in DER form.
#[derive(Clone, PartialEq, Eq)]
pub struct TlsEd25519SecretKeyDerBytes {
    pub bytes: Vec<u8>,
}

/// A secret key held by the crypto service provider, tagged by scheme.
pub enum CspSecretKey {
    Ed25519(ed25519_types::SecretKeyBytes),
    MultiBls12_381(multi_types::SecretKeyBytes),
    ThresBls12_381(threshold_types::SecretKeyBytes),
    Secp256k1WithPublicKey(EphemeralKeySetBytes),
    TlsEd25519(TlsEd25519SecretKeyDerBytes),
    FsEncryption(CspFsEncryptionKeySet),
    MEGaEncryptionK256(MEGaKeySetK256Bytes),
    IDkgCommitmentOpening(CommitmentOpeningBytes),
}

/// The variant name of a secret key.
pub open spec fn spec_sk_variant(k: CspSecretKey) -> Seq<char> {
    match k {
        CspSecretKey::Ed25519(_) => "Ed25519"@,
        CspSecretKey::MultiBls12_381(_) => "MultiBls12_381"@,
        CspSecretKey::ThresBls12_381(_) => "ThresBls12_381"@,
        CspSecretKey::Secp256k1WithPublicKey(_) => "Secp256k1WithPublicKey"@,
        CspSecretKey::TlsEd25519(_) => "TlsEd25519"@,
        CspSecretKey::FsEncryption(_) => "FsEncryption"@,
        CspSecretKey::MEGaEncryptionK256(_) => "MEGaEncryptionK256"@,
        CspSecretKey::IDkgCommitmentOpening(_) => "IDkgCommitmentOpening"@,
    }
}

/// The redacted display form of a secret key: it names the variant and never
/// the key material.
pub open spec fn spec_sk_debug_text(k: CspSecretKey) -> Seq<char> {
    match k {
        CspSecretKey::Ed25519(_) => "CspSecretKey::Ed25519 - REDACTED"@,
        CspSecretKey::MultiBls12_381(_) => "CspSecretKey::MultiBls12_381 - REDACTED"@,
        CspSecretKey::ThresBls12_381(_) => "CspSecretKey::ThresBls12_381 - REDACTED"@,
        CspSecretKey::Secp256k1WithPublicKey(_) =>
            "CspSecretKey::Secp256k1WithPublicKey - secret_key: REDACTED"@,
        CspSecretKey::TlsEd25519(_) => "CspSecretKey::TlsEd25519 - REDACTED"@,
        CspSecretKey::FsEncryption(_) => "CspSecretKey::FsEncryption - REDACTED"@,
        CspSecretKey::MEGaEncryptionK256(_) => "CspSecretKey::MEGaEncryptionK256 - REDACTED"@,
        CspSecretKey::IDkgCommitmentOpening(_) =>
            "CspSecretKey::IDkgCommitmentOpening - REDACTED"@,
    }
}

impl CspSecretKey {
    /// How many key schemes the provider knows.
    pub const COUNT: usize = 8;

    /// The name of this key's variant.
    pub fn enum_variant(&self) -> (r: &'static str)
        ensures
            r@ == spec_sk_variant(*self),
    {
        match self {
            CspSecretKey::Ed25519(_) => "Ed25519",
            CspSecretKey::MultiBls12_381(_) => "MultiBls12_381",
            CspSecretKey::ThresBls12_381(_) => "ThresBls12_381",
            CspSecretKey::Secp256k1WithPublicKey(_) => "Secp256k1WithPublicKey",
            CspSecretKey::TlsEd25519(_) => "TlsEd25519",
            CspSecretKey::FsEncryption(_) => "FsEncryption",
            CspSecretKey::MEGaEncryptionK256(_) => "MEGaEncryptionK256",
            CspSecretKey::IDkgCommitmentOpening(_) => "IDkgCommitmentOpening",
        }
    }

    /// The display form of this key: the variant, with every secret redacted.
    pub fn debug_str(&self) -> (s: String)
        ensures
            s@ == spec_sk_debug_text(*self),
    {
        match self {
            CspSecretKey::Ed25519(_) => String::from_str("CspSecretKey::Ed25519 - REDACTED"),
            CspSecretKey::MultiBls12_381(_) => String::from_str(
                "CspSecretKey::MultiBls12_381 - REDACTED",
            ),
            CspSecretKey::ThresBls12_381(_) => String::from_str(
                "CspSecretKey::ThresBls12_381 - REDACTED",
            ),
            CspSecretKey::Secp256k1WithPublicKey(_) => String::from_str(
                "CspSecretKey::Secp256k1WithPublicKey - secret_key: REDACTED",
            ),
            CspSecretKey::TlsEd25519(_) => String::from_str("CspSecretKey::TlsEd25519 - REDACTED"),
            CspSecretKey::FsEncryption(_) => String::from_str(
                "CspSecretKey::FsEncryption - REDACTED",
            ),
            CspSecretKey::MEGaEncryptionK256(_) => String::from_str(
                "CspSecretKey::MEGaEncryptionK256 - REDACTED",
            ),
            CspSecretKey::IDkgCommitmentOpening(_) => String::from_str(
                "CspSecretKey::IDkgCommitmentOpening - REDACTED",
            ),
        }
    }

    /// Reads an ed25519 secret key from its hex form.
    pub fn ed25519_from_hex(hex: &str) -> (r: Self)
        requires
            is_hex_string(hex@),
            hex@.len() == 64,
        ensures
            r matches CspSecretKey::Ed25519(b) && b.0.data@ == spec_hex_decode(hex@),
    {
        let bytes = hex_to_byte_vec(hex);
        CspSecretKey::Ed25519(
            ed25519_types::SecretKeyBytes(
                secrets::SecretArray::new_and_dont_zeroize_argument(&bytes_from_vec::<32>(&bytes)),
            ),
        )
    }
}

/// The bytes of an ed25519 secret key, if the key uses that scheme.
pub fn sk_ed25519_bytes(key: &CspSecretKey) -> (r: Option<&[u8; 32]>)
    ensures
        match key {
            CspSecretKey::Ed25519(b) => r matches Some(x) && *x == b.0.data,
            _ => r is None,
        },
{
    match key {
        CspSecretKey::Ed25519(bytes) => Some(bytes.0.expose_secret()),
        _ => None,
    }
}

/// A public key held by the crypto service provider, tagged by scheme.
#[derive(Clone, Copy, PartialEq, Eq, Debug)]
pub enum CspPublicKey {
    Ed25519(ed25519_types::PublicKeyBytes),
    MultiBls12_381(multi_types::PublicKeyBytes),
}

impl CspPublicKey {
    /// Reads an ed25519 public key from its hex form.
    pub fn ed25519_from_hex(hex: &str) -> (r: Self)
        requires
            is_hex_string(hex@),
            hex@.len() == 64,
        ensures
            r matches CspPublicKey::Ed25519(b) && b.0@ == spec_hex_decode(hex@),
    {
        let bytes = hex_to_byte_vec(hex);
        CspPublicKey::Ed25519(ed25519_types::PublicKeyBytes(bytes_from_vec::<32>(&bytes)))
    }

    /// Reads a multi-signature BLS12-381 public key from its hex form.
    pub fn multi_bls12381_from_hex(hex: &str) -> (r: Self)
        requires
            is_hex_string(hex@),
            hex@.len() == 192,
        ensures
            r matches CspPublicKey::MultiBls12_381(b) && b.0@ == spec_hex_decode(hex@),
    {
        let bytes = hex_to_byte_vec(hex);
        CspPublicKey::MultiBls12_381(multi_types::PublicKeyBytes(bytes_from_vec::<96>(&bytes)))
    }

    /// The bytes of an ed25519 public key, if the key uses that scheme.
    pub fn ed25519_bytes(&self) -> (r: Option<&[u8; 32]>)
        ensures
            match self {
                CspPublicKey::Ed25519(b) => r matches Some(x) && *x == b.0,
                _ => r is None,
            },
    {
        match self {
            CspPublicKey::Ed25519(bytes) => Some(&bytes.0),
            _ => None,
        }
    }

    /// The bytes of a multi-signature BLS12-381 public key, if the key uses
    /// that scheme.
    pub fn multi_bls12_381_bytes(&self) -> (r: Option<&[u8; 96]>)
        ensures
            match self {
                CspPublicKey::MultiBls12_381(b) => r matches Some(x) && *x == b.0,
                _ => r is None,
            },
    {
        match self {
            CspPublicKey::MultiBls12_381(bytes) => Some(&bytes.0),
            _ => None,
        }
    }
}

/// A multi-signature: one party's individual signature, or the combined one.
#[derive(Clone, Copy, PartialEq, Eq, Debug)]
#[allow(non_camel_case_types)]
pub enum MultiBls12_381_Signature {
    Individual(multi_types::IndividualSignatureBytes),
    Combined(multi_types::CombinedSignatureBytes),
}

/// A threshold signature: one party's individual signature, or the combined
/// one.
#[derive(Clone, Copy, PartialEq, Eq, Debug)]
#[allow(non_camel_case_types)]
pub enum ThresBls12_381_Signature {
    Individual(threshold_types::IndividualSignatureBytes),
    Combined(threshold_types::CombinedSignatureBytes),
}

/// A signature held by the crypto service provider, tagged by scheme.
#[derive(Clone, PartialEq, Eq, Debug)]
pub enum CspSignature {
    EcdsaP256(ecdsa_secp256r1_types::SignatureBytes),
    EcdsaSecp256k1(ecdsa_secp256k1_types::SignatureBytes),
    Ed25519(ed25519_types::SignatureBytes),
    MultiBls12_381(MultiBls12_381_Signature),
    ThresBls12_381(ThresBls12_381_Signature),
    RsaSha256(Vec<u8>),
}

/// The display form of a signature: the variant, with the bytes as base64.
pub open spec fn spec_sig_debug_text(s: CspSignature) -> Seq<char> {
    match s {
        CspSignature::EcdsaP256(b) => "CspSignature::EcdsaP256(\""@ + spec_base64(b.0@) + "\")"@,
        CspSignature::EcdsaSecp256k1(b) => "CspSignature::EcdsaSecp256k1(\""@ + spec_base64(b.0@)
            + "\")"@,
        CspSignature::Ed25519(b) => "CspSignature::Ed25519(SignatureBytes(\""@ + spec_base64(b.0@)
            + "\"))"@,
        CspSignature::MultiBls12_381(m) => match m {
            MultiBls12_381_Signature::Individual(b) => "CspSignature::MultiBls12_381(Individual(\""@
                + spec_base64(b.0@) + "\"))"@,
            MultiBls12_381_Signature::Combined(b) => "CspSignature::MultiBls12_381(Combined(\""@
                + spec_base64(b.0@) + "\"))"@,
        },
        CspSignature::ThresBls12_381(t) => match t {
            ThresBls12_381_Signature::Individual(b) => "CspSignature::ThresBls12_381(Individual(\""@
                + spec_base64(b.0@) + "\"))"@,
            ThresBls12_381_Signature::Combined(b) => "CspSignature::ThresBls12_381(Combined(\""@
                + spec_base64(b.0@) + "\"))"@,
        },
        CspSignature::RsaSha256(v) => "CspSignature::RsaSha256(\""@ + spec_base64(v@) + "\")"@,
    }
}

impl CspSignature {
    /// Reads an ed25519 signature from its hex form.
    pub fn ed25519_from_hex(hex: &str) -> (r: Self)
        requires
            is_hex_string(hex@),
            hex@.len() == 128,
        ensures
            r matches CspSignature::Ed25519(b) && b.0@ == spec_hex_decode(hex@),
    {
        let bytes = hex_to_byte_vec(hex);
        CspSignature::Ed25519(ed25519_types::SignatureBytes(bytes_from_vec::<64>(&bytes)))
    }

    /// The bytes of an ed25519 signature, if it uses that scheme.
    pub fn ed25519_bytes(&self) -> (r: Option<&[u8; 64]>)
        ensures
            match self {
                CspSignature::Ed25519(b) => r matches Some(x) && *x == b.0,
                _ => r is None,
            },
    {
        match self {
            CspSignature::Ed25519(bytes) => Some(&bytes.0),
            _ => None,
        }
    }

    /// The display form of this signature: the variant name around the
    /// signature bytes in base64.
    pub fn debug_str(&self) -> (s: String)
        ensures
            s@ == spec_sig_debug_text(*self),
    {
        match self {
            CspSignature::EcdsaP256(b) => {
                let mut s = String::from_str("CspSignature::EcdsaP256(\"");
                let bytes = crate::support::vec_from_array(&b.0);
                s.append(base64_encode(&bytes).as_str());
                s.append("\")");
                proof {
                    assert(s@ =~= spec_sig_debug_text(*self));
                }
                s
            },
            CspSignature::EcdsaSecp256k1(b) => {
                let mut s = String::from_str("CspSignature::EcdsaSecp256k1(\"");
                let bytes = crate::support::vec_from_array(&b.0);
                s.append(base64_encode(&bytes).as_str());
                s.append("\")");
                proof {
                    assert(s@ =~= spec_sig_debug_text(*self));
                }
                s
            },
            CspSignature::Ed25519(b) => {
                let mut s = String::from_str("CspSignature::Ed25519(SignatureBytes(\"");
                let bytes = crate::support::vec_from_array(&b.0);
                s.append(base64_encode(&bytes).as_str());
                s.append("\"))");
                proof {
                    assert(s@ =~= spec_sig_debug_text(*self));
                }
                s
            },
            CspSignature::MultiBls12_381(m) => match m {
                MultiBls12_381_Signature::Individual(b) => {
                    let mut s = String::from_str("CspSignature::MultiBls12_381(Individual(\"");
                    let bytes = crate::support::vec_from_array(&b.0);
                    s.append(base64_encode(&bytes).as_str());
                    s.append("\"))");
                    proof {
                        assert(s@ =~= spec_sig_debug_text(*self));
                    }
                    s
                },
                MultiBls12_381_Signature::Combined(b) => {
                    let mut s = String::from_str("CspSignature::MultiBls12_381(Combined(\"");
                    let bytes = crate::support::vec_from_array(&b.0);
                    s.append(base64_encode(&bytes).as_str());
                    s.append("\"))");
                    proof {
                        assert(s@ =~= spec_sig_debug_text(*self));
                    }
                    s
                },
            },
            CspSignature::ThresBls12_381(t) => match t {
                ThresBls12_381_Signature::Individual(b) => {
                    let mut s = String::from_str("CspSignature::ThresBls12_381(Individual(\"");
                    let bytes = crate::support::vec_from_array(&b.0);
                    s.append(base64_encode(&bytes).as_str());
                    s.append("\"))");
                    proof {
                        assert(s@ =~= spec_sig_debug_text(*self));
                    }
                    s
                },
                ThresBls12_381_Signature::Combined(b) => {
                    let mut s = String::from_str("CspSignature::ThresBls12_381(Combined(\"");
                    let bytes = crate::support::vec_from_array(&b.0);
                    s.append(base64_encode(&bytes).as_str());
                    s.append("\"))");
                    proof {
                        assert(s@ =~= spec_sig_debug_text(*self));
                    }
                    s
                },
            },
            CspSignature::RsaSha256(v) => {
                let mut s = String::from_str("CspSignature::RsaSha256(\"");
                s.append(base64_encode(v).as_str());
                s.append("\")");
                proof {
                    assert(s@ =~= spec_sig_debug_text(*self));
                }
                s
            },
        }
    }
}

/// Why a key or signature could not be converted.
#[derive(Clone, PartialEq, Eq, Debug)]
pub enum CryptoError {
    MalformedPublicKey { algorithm: AlgorithmId, key_bytes: Vec<u8> },
    MalformedSignature { algorithm: AlgorithmId, sig_bytes: Vec<u8> },
    AlgorithmNotSupported { algorithm: AlgorithmId },
}

impl CryptoError {
    /// Whether this error reports a malformed public key.
    pub fn is_malformed_public_key(&self) -> (b: bool)
        ensures
            b == (*self is MalformedPublicKey),
    {
        match self {
            CryptoError::MalformedPublicKey { .. } => true,
            _ => false,
        }
    }

    /// Whether this error reports a malformed signature.
    pub fn is_malformed_signature(&self) -> (b: bool)
        ensures
            b == (*self is MalformedSignature),
    {
        match self {
            CryptoError::MalformedSignature { .. } => true,
            _ => false,
        }
    }
}

/// A user-facing public key: raw bytes plus the algorithm they belong to.
#[derive(Clone, PartialEq, Eq, Debug)]
pub struct UserPublicKey {
    pub key: Vec<u8>,
    pub algorithm_id: AlgorithmId,
}

/// A basic signature as raw bytes.
#[derive(Clone, PartialEq, Eq, Debug)]
pub struct BasicSig(pub Vec<u8>);

/// A registry public-key record: the algorithm's wire code and the key bytes.
#[derive(Clone, PartialEq, Eq, Debug)]
pub struct PublicKeyProto {
    pub algorithm: i32,
    pub key_value: Vec<u8>,
    pub version: u32,
    pub proof_data: Option<Vec<u8>>,
}

impl UserPublicKey {
    /// Converts a provider public key into its user-facing form.
    pub fn try_from(pk: &CspPublicKey) -> (r: Result<UserPublicKey, CryptoError>)
        ensures
            match pk {
                CspPublicKey::Ed25519(b) => r matches Ok(u) && u.key@ == b.0@ && u.algorithm_id
                    == AlgorithmId::Ed25519,
                CspPublicKey::MultiBls12_381(b) => r matches Ok(u) && u.key@ == b.0@
                    && u.algorithm_id == AlgorithmId::MultiBls12_381,
            },
    {
        match pk {
            CspPublicKey::Ed25519(b) => {
                let mut key: Vec<u8> = Vec::new();
                let mut i: usize = 0;
                while i < 32
                    invariant
                        0 <= i <= 32,
                        key@ =~= b.0@.take(i as int),
                    decreases 32 - i,
                {
                    key.push(b.0[i]);
                    i = i + 1;
                }
                proof {
                    assert(key@ =~= b.0@);
                }
                Ok(UserPublicKey { key, algorithm_id: AlgorithmId::Ed25519 })
            },
            CspPublicKey::MultiBls12_381(b) => {
                let mut key: Vec<u8> = Vec::new();
                let mut i: usize = 0;
                while i < 96
                    invariant
                        0 <= i <= 96,
                        key@ =~= b.0@.take(i as int),
                    decreases 96 - i,
                {
                    key.push(b.0[i]);
                    i = i + 1;
                }
                proof {
                    assert(key@ =~= b.0@);
                }
                Ok(UserPublicKey { key, algorithm_id: AlgorithmId::MultiBls12_381 })
            },
        }
    }
}

impl CspPublicKey {
    /// Converts a user-facing public key into the provider's form; only
    /// ed25519 keys of the right length are accepted.
    pub fn try_from(pk: &UserPublicKey) -> (r: Result<CspPublicKey, CryptoError>)
        ensures
            match r {
                Ok(c) => {
                    &&& pk.algorithm_id == AlgorithmId::Ed25519
                    &&& pk.key@.len() == 32
                    &&& c matches CspPublicKey::Ed25519(b) && b.0@ == pk.key@
                },
                Err(e) => {
                    if pk.algorithm_id == AlgorithmId::Ed25519 {
                        &&& pk.key@.len() != 32
                        &&& e is MalformedPublicKey
                    } else {
                        e is AlgorithmNotSupported
                    }
                },
            },
    {
        match pk.algorithm_id {
            AlgorithmId::Ed25519 => {
                if pk.key.len() == 32 {
                    Ok(CspPublicKey::Ed25519(
                        ed25519_types::PublicKeyBytes(bytes_from_vec::<32>(&pk.key)),
                    ))
                } else {
                    Err(CryptoError::MalformedPublicKey {
                        algorithm: AlgorithmId::Ed25519,
                        key_bytes: crate::support::copy_list(&pk.key),
                    })
                }
            },
            _ => Err(CryptoError::AlgorithmNotSupported { algorithm: pk.algorithm_id }),
        }
    }

    /// Reads a provider public key from a registry record; the record's
    /// algorithm code picks the scheme and the key bytes must have that
    /// scheme's exact length.
    pub fn try_from_proto(pk: &PublicKeyProto) -> (r: Result<CspPublicKey, CryptoError>)
        ensures
            match r {
                Ok(c) => {
                    if crate::ids::spec_algorithm_from_code(pk.algorithm) == AlgorithmId::Ed25519 {
                        &&& pk.key_value@.len() == 32
                        &&& c matches CspPublicKey::Ed25519(b) && b.0@ == pk.key_value@
                    } else {
                        &&& crate::ids::spec_algorithm_from_code(pk.algorithm)
                            == AlgorithmId::MultiBls12_381
                        &&& pk.key_value@.len() == 96
                        &&& c matches CspPublicKey::MultiBls12_381(b) && b.0@ == pk.key_value@
                    }
                },
                Err(e) => {
                    match crate::ids::spec_algorithm_from_code(pk.algorithm) {
                        AlgorithmId::Ed25519 => pk.key_value@.len() != 32 && e
                            is MalformedPublicKey,
                        AlgorithmId::MultiBls12_381 => pk.key_value@.len() != 96 && e
                            is MalformedPublicKey,
                        _ => e is AlgorithmNotSupported,
                    }
                },
            },
    {
        let algorithm = AlgorithmId::from_code(pk.algorithm);
        match algorithm {
            AlgorithmId::Ed25519 => {
                if pk.key_value.len() == 32 {
                    Ok(CspPublicKey::Ed25519(
                        ed25519_types::PublicKeyBytes(bytes_from_vec::<32>(&pk.key_value)),
                    ))
                } else {
                    Err(CryptoError::MalformedPublicKey {
                        algorithm: AlgorithmId::Ed25519,
                        key_bytes: crate::support::copy_list(&pk.key_value),
                    })
                }
            },
            AlgorithmId::MultiBls12_381 => {
                if pk.key_value.len() == 96 {
                    Ok(CspPublicKey::MultiBls12_381(
                        multi_types::PublicKeyBytes(bytes_from_vec::<96>(&pk.key_value)),
                    ))
                } else {
                    Err(CryptoError::MalformedPublicKey {
                        algorithm: AlgorithmId::MultiBls12_381,
                        key_bytes: crate::support::copy_list(&pk.key_value),
                    })
                }
            },
            _ => Err(CryptoError::AlgorithmNotSupported { algorithm }),
        }
    }
}

/// Converts basic signatures into the provider form for one target algorithm.
#[derive(Clone, Copy, PartialEq, Eq, Structural, Debug)]
pub struct SigConverter {
    pub target_algorithm: AlgorithmId,
}

impl SigConverter {
    /// A converter for the given target algorithm.
    pub fn for_target(algorithm: AlgorithmId) -> (r: Self)
        ensures
            r.target_algorithm == algorithm,
    {
        SigConverter { target_algorithm: algorithm }
    }

    /// Converts a basic signature; only ed25519 signatures of the right
    /// length are accepted.
    pub fn try_from_basic(&self, sig: &BasicSig) -> (r: Result<CspSignature, CryptoError>)
        ensures
            match r {
                Ok(c) => {
                    &&& self.target_algorithm == AlgorithmId::Ed25519
                    &&& sig.0@.len() == 64
                    &&& c matches CspSignature::Ed25519(b) && b.0@ == sig.0@
                },
                Err(e) => {
                    if self.target_algorithm == AlgorithmId::Ed25519 {
                        &&& sig.0@.len() != 64
                        &&& e is MalformedSignature
                    } else {
                        e is AlgorithmNotSupported
                    }
                },
            },
    {
        match self.target_algorithm {
            AlgorithmId::Ed25519 => {
                if sig.0.len() == 64 {
                    Ok(CspSignature::Ed25519(
                        ed25519_types::SignatureBytes(bytes_from_vec::<64>(&sig.0)),
                    ))
                } else {
                    Err(CryptoError::MalformedSignature {
                        algorithm: AlgorithmId::Ed25519,
                        sig_bytes: crate::support::copy_list(&sig.0),
                    })
                }
            },
            _ => Err(CryptoError::AlgorithmNotSupported { algorithm: self.target_algorithm }),
        }
    }
}

} // verus!
