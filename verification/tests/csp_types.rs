//! Tests of the crypto service provider's key and signature types.

use ecdsa_consensus::csp::dkg_secp256k1_types::{
    EphemeralKeySetBytes, EphemeralPopBytes, EphemeralPublicKeyBytes, EphemeralSecretKeyBytes,
};
use ecdsa_consensus::csp::idkg_types::{
    CommitmentOpeningBytes, EccScalarBytes, MEGaKeySetK256Bytes, MEGaPrivateKeyK256Bytes,
    MEGaPublicKeyK256Bytes,
};
use ecdsa_consensus::csp::ni_dkg_types::{
    BTENode, CspFsEncryptionKeySet, Fr as FrBytes, FsEncryptionKeySet, FsEncryptionPok,
    FsEncryptionPublicKey, FsEncryptionSecretKey, G1 as G1Bytes, G2 as G2Bytes,
};
use ecdsa_consensus::csp::secrets::SecretArray;
use ecdsa_consensus::csp::{
    ecdsa_secp256k1_types, ecdsa_secp256r1_types, ed25519_types, multi_types, sk_ed25519_bytes,
    threshold_types, BasicSig, CspPublicKey, CspSecretKey, CspSignature, MultiBls12_381_Signature,
    PublicKeyProto, SigConverter, ThresBls12_381_Signature, TlsEd25519SecretKeyDerBytes,
    UserPublicKey,
};
use ecdsa_consensus::ids::AlgorithmId;
use ecdsa_consensus::text::hex_to_byte_vec;

const TESTVEC_RFC8032_ED25519_SHA_ABC_SK: &str =
    "833fe62409237b9d62ec77587520911e9a759cec1d19755b7da901b96dca3d42";
const TESTVEC_RFC8032_ED25519_SHA_ABC_PK: &str =
    "ec172b93ad5e563bf4932c70e1245034c35467ef2efd4d64ebf819683467e2bf";
const TESTVEC_RFC8032_ED25519_SHA_ABC_SIG: &str =
    "dc2a4459e7369633a52b1bf277839a00201009a3efbf3ecb69bea2186c26b58909351fc9ac90b3ecfdfbc7c66431e0303dca179c138ac17ad9bef1177331a704";
const TESTVEC_RFC8032_ED25519_1_SIG: &str =
    "e5564300c360ac729086e2cc806e828a84877f1eb8e5d974d873e065224901555fb8821590a33bacc61e39701cf9b46bd25bf5f0595bbe24655141438e7a100b";
const TESTVEC_RFC8032_ED25519_2_SIG: &str =
    "92a009a9f0d4cab8720e820b5f642540a2b27b5416503f8fb3762223ebdb69da085ac1e43e15996e458f3613d0f11d8c387b2eaeb4302aeeb00d291612bb0c00";
const TESTVEC_ED25519_STABILITY_1_SIG: &str =
    "dc2a4459e7369633a52b1bf277839a00201009a3efbf3ecb69bea2186c26b58909351fc9ac90b3ecfdfbc7c66431e0303dca179c138ac17ad9bef1177331a704";
const TESTVEC_MULTI_BLS12_381_1_PK: &str =
    "0123456789abcdef0123456789abcdef0123456789abcdef0123456789abcdef0123456789abcdef0123456789abcdef0123456789abcdef0123456789abcdef0123456789abcdef0123456789abcdef0123456789abcdef0123456789abcdef";

#[test]
fn should_return_correct_ed25519_secret_key_bytes_for_ed25519_secret_key() {
    let ed25519_csp_sk = CspSecretKey::ed25519_from_hex(TESTVEC_RFC8032_ED25519_SHA_ABC_SK);

    assert_eq!(
        sk_ed25519_bytes(&ed25519_csp_sk).unwrap().to_vec(),
        hex_to_byte_vec(TESTVEC_RFC8032_ED25519_SHA_ABC_SK)
    );
}

#[test]
fn should_return_no_ed25519_secret_key_bytes_for_non_ed25519_secret_key() {
    let secret_key = CspSecretKey::MultiBls12_381(multi_types::SecretKeyBytes(
        [0u8; multi_types::SecretKeyBytes::SIZE],
    ));
    assert!(sk_ed25519_bytes(&secret_key).is_none())
}

#[test]
fn should_redact_csp_secret_key_ed25519_debug() {
    let cspsk_ed25519 = CspSecretKey::Ed25519(ed25519_types::SecretKeyBytes(
        SecretArray::new_and_dont_zeroize_argument(&[1u8; ed25519_types::SecretKeyBytes::SIZE]),
    ));
    assert_eq!("CspSecretKey::Ed25519 - REDACTED", cspsk_ed25519.debug_str());
}

#[test]
fn should_redact_csp_secret_key_multi_debug() {
    let cspsk_multi = CspSecretKey::MultiBls12_381(multi_types::SecretKeyBytes(
        [1u8; multi_types::SecretKeyBytes::SIZE],
    ));
    assert_eq!("CspSecretKey::MultiBls12_381 - REDACTED", cspsk_multi.debug_str());
}

#[test]
fn should_redact_csp_secret_key_thres_debug() {
    let cspsk_thresh = CspSecretKey::ThresBls12_381(threshold_types::SecretKeyBytes(
        [1u8; threshold_types::SecretKeyBytes::SIZE],
    ));
    assert_eq!("CspSecretKey::ThresBls12_381 - REDACTED", cspsk_thresh.debug_str());
}

#[test]
fn should_redact_csp_secret_key_secp_debug() {
    let cspsk_secp = CspSecretKey::Secp256k1WithPublicKey(EphemeralKeySetBytes {
        secret_key_bytes: EphemeralSecretKeyBytes(SecretArray::new_and_dont_zeroize_argument(
            &[1u8; EphemeralSecretKeyBytes::SIZE],
        )),
        public_key_bytes: EphemeralPublicKeyBytes([1u8; EphemeralPublicKeyBytes::SIZE]),
        pop_bytes: EphemeralPopBytes([1u8; EphemeralPopBytes::SIZE]),
    });
    assert!(cspsk_secp.debug_str().contains("secret_key: REDACTED"));
}

#[test]
fn should_redact_csp_secret_key_tls_ed25519_debug() {
    let cspsk_tls = CspSecretKey::TlsEd25519(TlsEd25519SecretKeyDerBytes {
        bytes: vec![1u8; 3],
    });
    assert_eq!("CspSecretKey::TlsEd25519 - REDACTED", cspsk_tls.debug_str());
}

#[test]
fn should_redact_csp_secret_key_fs_encryption_debug() {
    let cspsk_fs = CspSecretKey::FsEncryption(CspFsEncryptionKeySet::Groth20_Bls12_381(
        FsEncryptionKeySet {
            public_key: FsEncryptionPublicKey(G1Bytes([1u8; G1Bytes::SIZE])),
            secret_key: FsEncryptionSecretKey {
                bte_nodes: vec![
                    BTENode {
                        tau: vec![1, 2, 3],
                        a: G1Bytes([1; G1Bytes::SIZE]),
                        b: G2Bytes([1; G2Bytes::SIZE]),
                        d_t: vec![G2Bytes([1; G2Bytes::SIZE])],
                        d_h: vec![G2Bytes([1; G2Bytes::SIZE])],
                        e: G2Bytes([1; G2Bytes::SIZE]),
                    };
                    1
                ],
            },
            pok: FsEncryptionPok {
                blinder: G1Bytes([1; G1Bytes::SIZE]),
                response: FrBytes([1; FrBytes::SIZE]),
            },
        },
    ));
    assert_eq!("CspSecretKey::FsEncryption - REDACTED", cspsk_fs.debug_str());
}

#[test]
fn should_return_correct_enum_variant() {
    // Ed25519
    let key = CspSecretKey::Ed25519(ed25519_types::SecretKeyBytes(
        SecretArray::new_and_dont_zeroize_argument(&[0; ed25519_types::SecretKeyBytes::SIZE]),
    ));
    assert_eq!(key.enum_variant(), "Ed25519");

    // MultiBls12_381
    let key = CspSecretKey::MultiBls12_381(multi_types::SecretKeyBytes(
        [0; multi_types::SecretKeyBytes::SIZE],
    ));
    assert_eq!(key.enum_variant(), "MultiBls12_381");

    // ThresBls12_381
    let key = CspSecretKey::ThresBls12_381(threshold_types::SecretKeyBytes(
        [0; threshold_types::SecretKeyBytes::SIZE],
    ));
    assert_eq!(key.enum_variant(), "ThresBls12_381");

    // Secp256k1WithPublicKey
    let key = CspSecretKey::Secp256k1WithPublicKey(EphemeralKeySetBytes {
        secret_key_bytes: EphemeralSecretKeyBytes(SecretArray::new_and_dont_zeroize_argument(
            &[0; EphemeralSecretKeyBytes::SIZE],
        )),
        public_key_bytes: EphemeralPublicKeyBytes([0; EphemeralPublicKeyBytes::SIZE]),
        pop_bytes: EphemeralPopBytes([0; EphemeralPopBytes::SIZE]),
    });
    assert_eq!(key.enum_variant(), "Secp256k1WithPublicKey");

    // TlsEd25519
    let key = CspSecretKey::TlsEd25519(TlsEd25519SecretKeyDerBytes { bytes: vec![] });
    assert_eq!(key.enum_variant(), "TlsEd25519");

    // FsEncryption
    let key = CspSecretKey::FsEncryption(CspFsEncryptionKeySet::Groth20_Bls12_381(
        FsEncryptionKeySet {
            public_key: FsEncryptionPublicKey(G1Bytes([0; G1Bytes::SIZE])),
            secret_key: FsEncryptionSecretKey { bte_nodes: vec![] },
            pok: FsEncryptionPok {
                blinder: G1Bytes([0; G1Bytes::SIZE]),
                response: FrBytes([0; FrBytes::SIZE]),
            },
        },
    ));
    assert_eq!(key.enum_variant(), "FsEncryption");

    let key = CspSecretKey::MEGaEncryptionK256(MEGaKeySetK256Bytes {
        public_key: MEGaPublicKeyK256Bytes([2u8; MEGaPublicKeyK256Bytes::SIZE]),
        private_key: MEGaPrivateKeyK256Bytes(SecretArray::new_and_dont_zeroize_argument(
            &[1u8; MEGaPrivateKeyK256Bytes::SIZE],
        )),
    });
    assert_eq!(key.enum_variant(), "MEGaEncryptionK256");

    let key = CspSecretKey::IDkgCommitmentOpening(CommitmentOpeningBytes::Simple(
        EccScalarBytes::K256([0u8; 32]),
    ));
    assert_eq!(key.enum_variant(), "IDkgCommitmentOpening");

    assert_eq!(CspSecretKey::COUNT, 8);
}

#[test]
fn should_return_correct_ed25519_pubkey_bytes_for_ed25519_pubkey() {
    let ed25519_csp_pk = CspPublicKey::ed25519_from_hex(TESTVEC_RFC8032_ED25519_SHA_ABC_PK);

    assert_eq!(
        ed25519_csp_pk.ed25519_bytes().unwrap().to_vec(),
        hex_to_byte_vec(TESTVEC_RFC8032_ED25519_SHA_ABC_PK)
    );
}

#[test]
fn should_return_no_ed25519_pubkey_bytes_for_non_ed25519_pubkey() {
    assert!(
        CspPublicKey::multi_bls12381_from_hex(TESTVEC_MULTI_BLS12_381_1_PK)
            .ed25519_bytes()
            .is_none()
    )
}

#[test]
fn should_return_correct_ed25519_signature_bytes_for_ed25519_signature() {
    let ed25519_csp_sig = CspSignature::ed25519_from_hex(TESTVEC_RFC8032_ED25519_SHA_ABC_SIG);

    assert_eq!(
        ed25519_csp_sig.ed25519_bytes().unwrap().to_vec(),
        hex_to_byte_vec(TESTVEC_RFC8032_ED25519_SHA_ABC_SIG)
    );
}

#[test]
fn should_return_no_ed25519_signature_bytes_for_non_ed25519_signature() {
    let signature = CspSignature::MultiBls12_381(MultiBls12_381_Signature::Individual(
        multi_types::IndividualSignatureBytes([0u8; multi_types::IndividualSignatureBytes::SIZE]),
    ));
    assert!(signature.ed25519_bytes().is_none())
}

#[test]
fn should_correctly_convert_basic_signature_to_ed25519_csp_signature() {
    let sig = BasicSig(hex_to_byte_vec(TESTVEC_ED25519_STABILITY_1_SIG));

    let ed25519_csp_sig = SigConverter::for_target(AlgorithmId::Ed25519)
        .try_from_basic(&sig)
        .unwrap();

    assert_eq!(
        ed25519_csp_sig.ed25519_bytes().unwrap().to_vec(),
        hex_to_byte_vec(TESTVEC_ED25519_STABILITY_1_SIG)
    );
}

#[test]
fn should_correctly_convert_ed25519_csp_pubkey_to_user_public_key() {
    let ed25519_csp_pk = CspPublicKey::ed25519_from_hex(TESTVEC_RFC8032_ED25519_SHA_ABC_PK);

    let user_pk = UserPublicKey::try_from(&ed25519_csp_pk).unwrap();

    assert_eq!(
        user_pk.key,
        hex_to_byte_vec(TESTVEC_RFC8032_ED25519_SHA_ABC_PK)
    );
}

#[test]
fn should_correctly_convert_ed25519_user_public_key_to_csp_public_key() {
    let user_pk = UserPublicKey {
        key: hex_to_byte_vec(TESTVEC_RFC8032_ED25519_SHA_ABC_PK),
        algorithm_id: AlgorithmId::Ed25519,
    };

    let ed25519_csp_pk = CspPublicKey::try_from(&user_pk).unwrap();

    assert_eq!(
        ed25519_csp_pk.ed25519_bytes().unwrap().to_vec(),
        hex_to_byte_vec(TESTVEC_RFC8032_ED25519_SHA_ABC_PK)
    );
}

#[test]
fn should_fail_to_convert_ed25519_user_pubkey_with_invalid_length_to_csp_pubkey() {
    let user_pk = UserPublicKey {
        key: vec![],
        algorithm_id: AlgorithmId::Ed25519,
    };

    let err = CspPublicKey::try_from(&user_pk).unwrap_err();

    assert!(err.is_malformed_public_key());
}

#[test]
fn should_correctly_compare_csp_signatures() {
    let ed25519_s1 = CspSignature::ed25519_from_hex(TESTVEC_RFC8032_ED25519_1_SIG);
    let ed25519_s1_2 = CspSignature::ed25519_from_hex(TESTVEC_RFC8032_ED25519_1_SIG);
    let ed25519_s2 = CspSignature::ed25519_from_hex(TESTVEC_RFC8032_ED25519_2_SIG);

    assert_eq!(ed25519_s1, ed25519_s1_2);
    assert_ne!(ed25519_s1, ed25519_s2);
}

#[test]
fn should_correctly_convert_ed25519_pk_proto_to_csp_public_key() {
    let pk_proto = PublicKeyProto {
        algorithm: AlgorithmId::Ed25519.code(),
        key_value: hex_to_byte_vec(TESTVEC_RFC8032_ED25519_SHA_ABC_PK),
        version: 0,
        proof_data: None,
    };
    let ed25519_csp_pk = CspPublicKey::try_from_proto(&pk_proto).unwrap();

    assert_eq!(
        ed25519_csp_pk.ed25519_bytes().unwrap().to_vec(),
        hex_to_byte_vec(TESTVEC_RFC8032_ED25519_SHA_ABC_PK)
    );
}

#[test]
fn should_correctly_convert_multi_bls12_381_pk_proto_to_csp_public_key() {
    let pk_proto = PublicKeyProto {
        algorithm: AlgorithmId::MultiBls12_381.code(),
        key_value: hex_to_byte_vec(TESTVEC_MULTI_BLS12_381_1_PK),
        version: 0,
        proof_data: None,
    };
    let multi_bls_csp_pk = CspPublicKey::try_from_proto(&pk_proto).unwrap();

    assert_eq!(
        multi_bls_csp_pk.multi_bls12_381_bytes().unwrap().to_vec(),
        hex_to_byte_vec(TESTVEC_MULTI_BLS12_381_1_PK)
    );
}

#[test]
fn should_fail_conversion_to_csp_public_key_if_ed25519_pk_proto_is_too_short() {
    let pk_proto = PublicKeyProto {
        algorithm: AlgorithmId::Ed25519.code(),
        key_value: vec![0; ed25519_types::PublicKeyBytes::SIZE - 1],
        version: 0,
        proof_data: None,
    };
    let ed25519_csp_pk_result = CspPublicKey::try_from_proto(&pk_proto);
    assert!(ed25519_csp_pk_result.is_err());
    assert!(ed25519_csp_pk_result.unwrap_err().is_malformed_public_key());
}

#[test]
fn should_fail_conversion_to_csp_public_key_if_ed25519_pk_proto_is_too_long() {
    let pk_proto = PublicKeyProto {
        algorithm: AlgorithmId::Ed25519.code(),
        key_value: vec![0; ed25519_types::PublicKeyBytes::SIZE + 1],
        version: 0,
        proof_data: None,
    };
    let ed25519_csp_pk_result = CspPublicKey::try_from_proto(&pk_proto);
    assert!(ed25519_csp_pk_result.is_err());
    assert!(ed25519_csp_pk_result.unwrap_err().is_malformed_public_key());
}

#[test]
fn should_fail_conversion_to_csp_public_key_if_multi_bls12_381_pk_proto_is_too_short() {
    let pk_proto = PublicKeyProto {
        algorithm: AlgorithmId::MultiBls12_381.code(),
        key_value: vec![0; multi_types::PublicKeyBytes::SIZE - 1],
        version: 0,
        proof_data: None,
    };
    let multi_csp_pk_result = CspPublicKey::try_from_proto(&pk_proto);
    assert!(multi_csp_pk_result.is_err());
    assert!(multi_csp_pk_result.unwrap_err().is_malformed_public_key());
}

#[test]
fn should_fail_conversion_to_csp_public_key_if_multi_bls12_381_pk_proto_is_too_long() {
    let pk_proto = PublicKeyProto {
        algorithm: AlgorithmId::MultiBls12_381.code(),
        key_value: vec![0; multi_types::PublicKeyBytes::SIZE + 1],
        version: 0,
        proof_data: None,
    };
    let multi_csp_pk_result = CspPublicKey::try_from_proto(&pk_proto);
    assert!(multi_csp_pk_result.is_err());
    assert!(multi_csp_pk_result.unwrap_err().is_malformed_public_key());
}

#[test]
fn csp_signatures_should_have_a_nice_debug_representation() {
    let test_vectors = vec![
        (CspSignature::EcdsaP256(ecdsa_secp256r1_types::SignatureBytes([0u8; ecdsa_secp256r1_types::SignatureBytes::SIZE])), "CspSignature::EcdsaP256(\"AAAAAAAAAAAAAAAAAAAAAAAAAAAAAAAAAAAAAAAAAAAAAAAAAAAAAAAAAAAAAAAAAAAAAAAAAAAAAAAAAAAAAA==\")"),
        (CspSignature::EcdsaSecp256k1(ecdsa_secp256k1_types::SignatureBytes([0u8; ecdsa_secp256k1_types::SignatureBytes::SIZE])), "CspSignature::EcdsaSecp256k1(\"AAAAAAAAAAAAAAAAAAAAAAAAAAAAAAAAAAAAAAAAAAAAAAAAAAAAAAAAAAAAAAAAAAAAAAAAAAAAAAAAAAAAAA==\")"),
        (CspSignature::Ed25519(ed25519_types::SignatureBytes([0u8; ed25519_types::SignatureBytes::SIZE])), "CspSignature::Ed25519(SignatureBytes(\"AAAAAAAAAAAAAAAAAAAAAAAAAAAAAAAAAAAAAAAAAAAAAAAAAAAAAAAAAAAAAAAAAAAAAAAAAAAAAAAAAAAAAA==\"))"),
        (CspSignature::MultiBls12_381(MultiBls12_381_Signature::Individual(multi_types::IndividualSignatureBytes([0u8; multi_types::IndividualSignatureBytes::SIZE]))), "CspSignature::MultiBls12_381(Individual(\"AAAAAAAAAAAAAAAAAAAAAAAAAAAAAAAAAAAAAAAAAAAAAAAAAAAAAAAAAAAAAAAA\"))"),
        (CspSignature::MultiBls12_381(MultiBls12_381_Signature::Combined(multi_types::CombinedSignatureBytes([0u8; multi_types::CombinedSignatureBytes::SIZE]))), "CspSignature::MultiBls12_381(Combined(\"AAAAAAAAAAAAAAAAAAAAAAAAAAAAAAAAAAAAAAAAAAAAAAAAAAAAAAAAAAAAAAAA\"))"),
        (CspSignature::ThresBls12_381(ThresBls12_381_Signature::Individual(threshold_types::IndividualSignatureBytes([0u8; threshold_types::IndividualSignatureBytes::SIZE]))), "CspSignature::ThresBls12_381(Individual(\"AAAAAAAAAAAAAAAAAAAAAAAAAAAAAAAAAAAAAAAAAAAAAAAAAAAAAAAAAAAAAAAA\"))"),
        (CspSignature::ThresBls12_381(ThresBls12_381_Signature::Combined(threshold_types::CombinedSignatureBytes([0u8; threshold_types::CombinedSignatureBytes::SIZE]))), "CspSignature::ThresBls12_381(Combined(\"AAAAAAAAAAAAAAAAAAAAAAAAAAAAAAAAAAAAAAAAAAAAAAAAAAAAAAAAAAAAAAAA\"))"),
        (CspSignature::RsaSha256(vec![1, 2, 3, 4]), "CspSignature::RsaSha256(\"AQIDBA==\")")
    ];
    for (value, formatted) in test_vectors {
        assert_eq!(value.debug_str(), *formatted);
    }
}
