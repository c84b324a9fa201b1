//! Parsing of the genesis-style bootstrap configuration: at most one
//! key-initialization record, whose key id and initial dealings must each
//! decode independently.
//!
//! Zero records is a valid configuration (no preset key); more than one is a
//! hard configuration error; a decode failure names the field that failed.

use vstd::prelude::*;
use crate::ids::{spec_algorithm_from_code, AlgorithmId, IDkgTranscriptId, NodeId, RegistryVersion, TranscriptRef};
use crate::messages::{BasicSignature, IDkgDealing, SignedIDkgDealing};
use crate::payload::{EcdsaCurve, EcdsaKeyId};
use crate::support::copy_list;
use crate::transcript::{
    IDkgTranscriptOperationRef, IDkgTranscriptParamsRef, InitialIDkgDealings, UnmaskedTranscript,
};

verus! {

/// Wire form of a key id: a curve code and a name.
#[derive(Clone, PartialEq, Eq, Debug)]
pub struct EcdsaKeyIdProto {
    pub curve: i32,
    pub name: String,
}

/// Wire form of one dealing's content; the fields a sender may omit are
/// optional.
#[derive(Clone, PartialEq, Eq, Debug)]
pub struct DealingProto {
    pub transcript_id: Option<IDkgTranscriptId>,
    pub internal_dealing_raw: Vec<u8>,
}

/// Wire form of one signed dealing.
#[derive(Clone, PartialEq, Eq, Debug)]
pub struct SignedDealingProto {
    pub dealing: Option<DealingProto>,
    pub signer: Option<NodeId>,
    pub signature: Vec<u8>,
}

/// Wire form of the parameters the initial dealings were created under.
#[derive(Clone, PartialEq, Eq, Debug)]
pub struct TranscriptParamsProto {
    pub transcript_id: Option<IDkgTranscriptId>,
    pub dealers: Vec<NodeId>,
    pub receivers: Vec<NodeId>,
    pub registry_version: RegistryVersion,
    pub algorithm_id: i32,
    pub source_unmasked: Option<TranscriptRef>,
}

/// Wire form of the initial dealings bundle.
#[derive(Clone, PartialEq, Eq, Debug)]
pub struct InitialIDkgDealingsProto {
    pub params: Option<TranscriptParamsProto>,
    pub dealings: Vec<SignedDealingProto>,
}

/// One key-initialization record of the bootstrap configuration.
#[derive(Clone, PartialEq, Eq, Debug)]
pub struct EcdsaInitialization {
    pub key_id: Option<EcdsaKeyIdProto>,
    pub dealings: Option<InitialIDkgDealingsProto>,
}

/// The field of the initial-dealings bundle that failed to decode.
#[derive(Clone, Copy, PartialEq, Eq, Structural, Debug)]
pub enum DealingsFault {
    MissingParams,
    MissingParamsTranscriptId,
    MissingSourceTranscript,
    MissingDealingBody,
    MissingDealingTranscriptId,
    MissingDealingSigner,
}

/// Why the bootstrap configuration was rejected.
#[derive(Clone, Copy, PartialEq, Eq, Structural, Debug)]
pub enum BootstrapError {
    MultipleRecords,
    KeyIdDecodeError(i32),
    DealingsDecodeError(DealingsFault),
}

impl BootstrapError {
    /// A short human-readable account of the error.
    pub fn text(&self) -> (s: String)
        ensures
            *self is MultipleRecords ==> s@ == "more than one key-initialization record"@,
            *self is KeyIdDecodeError ==> s@ == "cannot read the key id: unsupported curve"@,
            *self is DealingsDecodeError ==> s@ == "cannot read the initial dealings"@,
    {
        match self {
            BootstrapError::MultipleRecords => String::from_str(
                "more than one key-initialization record",
            ),
            BootstrapError::KeyIdDecodeError(_) => String::from_str(
                "cannot read the key id: unsupported curve",
            ),
            BootstrapError::DealingsDecodeError(_) => String::from_str(
                "cannot read the initial dealings",
            ),
        }
    }
}

/// Whether a wire key id decodes: its curve code must name a supported curve.
pub open spec fn spec_key_id_ok(p: EcdsaKeyIdProto) -> bool {
    p.curve == 1
}

/// Decodes a wire key id; the only supported curve code is 1 (secp256k1).
pub fn decode_key_id(p: &EcdsaKeyIdProto) -> (r: Result<EcdsaKeyId, BootstrapError>)
    ensures
        match r {
            Ok(k) => {
                &&& spec_key_id_ok(*p)
                &&& k.curve == EcdsaCurve::Secp256k1
                &&& k.name == p.name
            },
            Err(e) => {
                &&& !spec_key_id_ok(*p)
                &&& e == BootstrapError::KeyIdDecodeError(p.curve)
            },
        },
{
    if p.curve == 1 {
        Ok(EcdsaKeyId { curve: EcdsaCurve::Secp256k1, name: p.name.clone() })
    } else {
        Err(BootstrapError::KeyIdDecodeError(p.curve))
    }
}

/// The first thing wrong with one wire dealing, if anything.
pub open spec fn spec_dealing_fault(d: SignedDealingProto) -> Option<DealingsFault> {
    if d.dealing is None {
        Some(DealingsFault::MissingDealingBody)
    } else if (d.dealing->Some_0).transcript_id is None {
        Some(DealingsFault::MissingDealingTranscriptId)
    } else if d.signer is None {
        Some(DealingsFault::MissingDealingSigner)
    } else {
        None
    }
}

/// The first thing wrong with a list of wire dealings, if anything.
pub open spec fn spec_first_dealing_fault(s: Seq<SignedDealingProto>) -> Option<DealingsFault>
    decreases s.len(),
{
    if s.len() == 0 {
        None
    } else if spec_dealing_fault(s[0]) is Some {
        spec_dealing_fault(s[0])
    } else {
        spec_first_dealing_fault(s.skip(1))
    }
}

/// The first thing wrong with a whole initial-dealings bundle, if anything.
pub open spec fn spec_dealings_fault(p: InitialIDkgDealingsProto) -> Option<DealingsFault> {
    if p.params is None {
        Some(DealingsFault::MissingParams)
    } else if (p.params->Some_0).transcript_id is None {
        Some(DealingsFault::MissingParamsTranscriptId)
    } else if (p.params->Some_0).source_unmasked is None {
        Some(DealingsFault::MissingSourceTranscript)
    } else {
        spec_first_dealing_fault(p.dealings@)
    }
}

/// The decoded signed dealing a well-formed wire dealing stands for.
pub open spec fn spec_decoded_dealing(d: SignedDealingProto) -> crate::messages::SignedIDkgDealingView {
    crate::messages::SignedIDkgDealingView {
        content: crate::messages::IDkgDealingView {
            transcript_id: (d.dealing->Some_0).transcript_id->Some_0,
            internal_dealing_raw: (d.dealing->Some_0).internal_dealing_raw@,
        },
        signature: crate::messages::BasicSignatureView {
            signer: d.signer->Some_0,
            signature_bytes: d.signature@,
        },
    }
}

/// Decodes an initial-dealings bundle, or names the first field that failed.
pub fn decode_initial_dealings(p: &InitialIDkgDealingsProto) -> (r: Result<
    InitialIDkgDealings,
    BootstrapError,
>)
    ensures
        match r {
            Ok(d) => {
                let params = p.params->Some_0;
                &&& spec_dealings_fault(*p) is None
                &&& d.params.transcript_id == params.transcript_id->Some_0
                &&& d.params.dealers@ == params.dealers@
                &&& d.params.receivers@ == params.receivers@
                &&& d.params.registry_version == params.registry_version
                &&& d.params.algorithm_id == spec_algorithm_from_code(params.algorithm_id)
                &&& d.params.operation_type_ref == IDkgTranscriptOperationRef::ReshareOfUnmasked(
                    UnmaskedTranscript(params.source_unmasked->Some_0),
                )
                &&& d.dealings@.len() == p.dealings@.len()
                &&& forall|i: int|
                    0 <= i < d.dealings@.len() ==> (#[trigger] d.dealings@[i])@
                        == spec_decoded_dealing(p.dealings@[i])
            },
            Err(e) => {
                &&& spec_dealings_fault(*p) is Some
                &&& e == BootstrapError::DealingsDecodeError(spec_dealings_fault(*p)->Some_0)
            },
        },
{
    let params_proto = match &p.params {
        Some(pp) => pp,
        None => {
            return Err(BootstrapError::DealingsDecodeError(DealingsFault::MissingParams));
        },
    };
    let transcript_id = match &params_proto.transcript_id {
        Some(tid) => *tid,
        None => {
            return Err(
                BootstrapError::DealingsDecodeError(DealingsFault::MissingParamsTranscriptId),
            );
        },
    };
    let source_unmasked = match &params_proto.source_unmasked {
        Some(src) => *src,
        None => {
            return Err(BootstrapError::DealingsDecodeError(DealingsFault::MissingSourceTranscript));
        },
    };

    let mut dealings: Vec<SignedIDkgDealing> = Vec::new();
    let mut i: usize = 0;
    proof {
        assert(p.dealings@.skip(0) =~= p.dealings@);
    }
    while i < p.dealings.len()
        invariant
            0 <= i <= p.dealings@.len(),
            p.params is Some,
            (p.params->Some_0).transcript_id is Some,
            (p.params->Some_0).source_unmasked is Some,
            spec_first_dealing_fault(p.dealings@) == spec_first_dealing_fault(
                p.dealings@.skip(i as int),
            ),
            dealings@.len() == i,
            forall|j: int|
                0 <= j < i ==> (#[trigger] dealings@[j])@ == spec_decoded_dealing(p.dealings@[j]),
        decreases p.dealings@.len() - i,
    {
        let dp = &p.dealings[i];
        proof {
            assert(p.dealings@.skip(i as int)[0] == p.dealings@[i as int]);
        }
        let body = match &dp.dealing {
            Some(b) => b,
            None => {
                return Err(BootstrapError::DealingsDecodeError(DealingsFault::MissingDealingBody));
            },
        };
        let dealing_tid = match &body.transcript_id {
            Some(tid) => *tid,
            None => {
                return Err(
                    BootstrapError::DealingsDecodeError(DealingsFault::MissingDealingTranscriptId),
                );
            },
        };
        let signer = match &dp.signer {
            Some(s) => *s,
            None => {
                return Err(
                    BootstrapError::DealingsDecodeError(DealingsFault::MissingDealingSigner),
                );
            },
        };
        dealings.push(
            SignedIDkgDealing {
                content: IDkgDealing {
                    transcript_id: dealing_tid,
                    internal_dealing_raw: copy_list(&body.internal_dealing_raw),
                },
                signature: BasicSignature { signer, signature_bytes: copy_list(&dp.signature) },
            },
        );
        proof {
            assert(p.dealings@.skip(i as int).skip(1) =~= p.dealings@.skip(i as int + 1));
        }
        i = i + 1;
    }
    proof {
        assert(p.dealings@.skip(p.dealings@.len() as int) =~= Seq::<SignedDealingProto>::empty());
    }

    let params = IDkgTranscriptParamsRef {
        transcript_id,
        dealers: copy_list(&params_proto.dealers),
        receivers: copy_list(&params_proto.receivers),
        registry_version: params_proto.registry_version,
        algorithm_id: AlgorithmId::from_code(params_proto.algorithm_id),
        operation_type_ref: IDkgTranscriptOperationRef::ReshareOfUnmasked(
            UnmaskedTranscript(source_unmasked),
        ),
    };
    Ok(InitialIDkgDealings { params, dealings })
}

/// Inspects the bootstrap configuration's key-initialization records.
///
/// No record means no preset key.  Exactly one record yields its decoded key
/// id and initial dealings, or the decode error of whichever field failed,
/// the key id checked first.  More than one record is a configuration error.
pub fn inspect_bootstrap_record(records: &Vec<EcdsaInitialization>) -> (r: Result<
    Option<(EcdsaKeyId, InitialIDkgDealings)>,
    BootstrapError,
>)
    requires
        records@.len() == 1 ==> records@[0].key_id is Some && records@[0].dealings is Some,
    ensures
        records@.len() == 0 ==> r == Ok::<Option<(EcdsaKeyId, InitialIDkgDealings)>, BootstrapError>(
            None,
        ),
        records@.len() > 1 ==> r == Err::<Option<(EcdsaKeyId, InitialIDkgDealings)>, _>(
            BootstrapError::MultipleRecords,
        ),
        records@.len() == 1 ==> {
            let key_proto = records@[0].key_id->Some_0;
            let dealings_proto = records@[0].dealings->Some_0;
            if !spec_key_id_ok(key_proto) {
                r == Err::<Option<(EcdsaKeyId, InitialIDkgDealings)>, _>(
                    BootstrapError::KeyIdDecodeError(key_proto.curve),
                )
            } else if spec_dealings_fault(dealings_proto) is Some {
                r == Err::<Option<(EcdsaKeyId, InitialIDkgDealings)>, _>(
                    BootstrapError::DealingsDecodeError(
                        spec_dealings_fault(dealings_proto)->Some_0,
                    ),
                )
            } else {
                r matches Ok(Some((k, d))) && {
                    let params = dealings_proto.params->Some_0;
                    &&& k.curve == EcdsaCurve::Secp256k1
                    &&& k.name == key_proto.name
                    &&& d.params.transcript_id == params.transcript_id->Some_0
                    &&& d.params.dealers@ == params.dealers@
                    &&& d.params.receivers@ == params.receivers@
                    &&& d.params.registry_version == params.registry_version
                    &&& d.params.algorithm_id == spec_algorithm_from_code(params.algorithm_id)
                    &&& d.params.operation_type_ref
                        == IDkgTranscriptOperationRef::ReshareOfUnmasked(
                        UnmaskedTranscript(params.source_unmasked->Some_0),
                    )
                    &&& d.dealings@.len() == dealings_proto.dealings@.len()
                    &&& forall|i: int|
                        0 <= i < d.dealings@.len() ==> (#[trigger] d.dealings@[i])@
                            == spec_decoded_dealing(dealings_proto.dealings@[i])
                }
            }
        },
{
    if records.len() == 0 {
        return Ok(None);
    }
    if records.len() > 1 {
        return Err(BootstrapError::MultipleRecords);
    }
    let record = &records[0];
    let key_proto = match &record.key_id {
        Some(k) => k,
        None => {
            return Err(BootstrapError::KeyIdDecodeError(0));
        },
    };
    let dealings_proto = match &record.dealings {
        Some(d) => d,
        None => {
            return Err(BootstrapError::DealingsDecodeError(DealingsFault::MissingParams));
        },
    };
    let key_id = match decode_key_id(key_proto) {
        Ok(k) => k,
        Err(e) => {
            return Err(e);
        },
    };
    let dealings = match decode_initial_dealings(dealings_proto) {
        Ok(d) => d,
        Err(e) => {
            return Err(e);
        },
    };
    Ok(Some((key_id, dealings)))
}

} // verus!
