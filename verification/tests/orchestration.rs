//! Tests of the protocol orchestration: chain view, transcript assembly,
//! dealing/share validation, complaint handling and bootstrap parsing.

use ecdsa_consensus::block_reader::{
    deserialize_transcript_ref, serialize_transcript_ref, ConsensusBlockChain,
    EcdsaBlockReaderImpl, TranscriptLookupError,
};
use ecdsa_consensus::bootstrap::{
    inspect_bootstrap_record, BootstrapError, DealingProto, DealingsFault, EcdsaInitialization,
    EcdsaKeyIdProto, InitialIDkgDealingsProto, SignedDealingProto, TranscriptParamsProto,
};
use ecdsa_consensus::complaints::{
    load_transcripts, ComplaintState, StaticLoadOutcome, StaticTranscriptLoader,
};
use ecdsa_consensus::ids::{
    AlgorithmId, EcdsaUIDGenerator, IDkgTranscriptId, NodeId, RequestId, TranscriptRef,
};
use ecdsa_consensus::messages::{
    BasicSignature, EcdsaChangeAction, EcdsaMessage, EcdsaMessageId, EcdsaSigShare, IDkgDealing,
    IDkgDealingSupport, InvalidReason, SignedIDkgDealing, ThresholdEcdsaCombinedSignature,
    ThresholdEcdsaSigShare,
};
use ecdsa_consensus::payload::{
    CompletedSignature, EcdsaCurve, EcdsaKeyId, EcdsaPayload, KeyTranscriptCreation,
};
use ecdsa_consensus::pool::{apply_change_set, EcdsaPool};
use ecdsa_consensus::pre_signer::{
    create_dealing_action, should_deal, validate_dealing_supports, validate_dealings,
};
use ecdsa_consensus::quadruple::{update_quadruple_in_creation, QuadrupleInCreation};
use ecdsa_consensus::sig_inputs::{ExtendedDerivationPath, ThresholdEcdsaSigInputsRef};
use ecdsa_consensus::signer::{
    complete_signature, create_share_action, has_enough_shares, should_create_share,
    validate_sig_shares,
};
use ecdsa_consensus::csp::{BasicSig, SigConverter};
use ecdsa_consensus::text::{base64_encode, hex_to_byte_vec};
use ecdsa_consensus::transcript::{
    transcript_op_summary, IDkgMaskedTranscriptOrigin, IDkgTranscript, IDkgTranscriptOperation,
    IDkgTranscriptOperationRef, IDkgTranscriptParamsRef, IDkgTranscriptType,
    IDkgUnmaskedTranscriptOrigin, MaskedTranscript, UnmaskedTranscript,
};
use ecdsa_consensus::transcript_builder::{build_transcript, EcdsaTranscriptBuilder};

const SUBNET: u64 = 314159;

fn tid(id: u64) -> IDkgTranscriptId {
    IDkgTranscriptId::new(SUBNET, id, 0)
}

fn make_transcript(id: IDkgTranscriptId, receivers: Vec<NodeId>, masked: bool) -> IDkgTranscript {
    IDkgTranscript {
        transcript_id: id,
        receivers,
        registry_version: 1,
        verified_dealings: vec![],
        transcript_type: if masked {
            IDkgTranscriptType::Masked(IDkgMaskedTranscriptOrigin::Random)
        } else {
            IDkgTranscriptType::Unmasked(IDkgUnmaskedTranscriptOrigin::ReshareMasked(tid(999)))
        },
        algorithm_id: AlgorithmId::ThresholdEcdsaSecp256k1,
        internal_transcript_raw: vec![],
    }
}

fn random_params(id: IDkgTranscriptId, dealers: Vec<NodeId>, receivers: Vec<NodeId>) -> IDkgTranscriptParamsRef {
    IDkgTranscriptParamsRef {
        transcript_id: id,
        dealers,
        receivers,
        registry_version: 1,
        algorithm_id: AlgorithmId::ThresholdEcdsaSecp256k1,
        operation_type_ref: IDkgTranscriptOperationRef::Random,
    }
}

fn make_dealing(transcript_id: IDkgTranscriptId, dealer: NodeId) -> SignedIDkgDealing {
    SignedIDkgDealing {
        content: IDkgDealing { transcript_id, internal_dealing_raw: vec![1] },
        signature: BasicSignature { signer: dealer, signature_bytes: vec![2] },
    }
}

fn make_share(rid: RequestId, signer: NodeId) -> EcdsaSigShare {
    EcdsaSigShare {
        signer_id: signer,
        request_id: rid,
        share: ThresholdEcdsaSigShare { sig_share_raw: vec![0] },
    }
}

fn request_id(q: u64) -> RequestId {
    RequestId { quadruple_id: q, pseudo_random_id: q + 100, height: 1 }
}

#[test]
fn inspect_bootstrap_record_accepts_empty_config() {
    let records: Vec<EcdsaInitialization> = vec![];
    assert_eq!(inspect_bootstrap_record(&records), Ok(None));
}

fn valid_record() -> EcdsaInitialization {
    EcdsaInitialization {
        key_id: Some(EcdsaKeyIdProto { curve: 1, name: "some_key".to_string() }),
        dealings: Some(InitialIDkgDealingsProto {
            params: Some(TranscriptParamsProto {
                transcript_id: Some(tid(4)),
                dealers: vec![1, 2, 3, 4],
                receivers: vec![1, 2, 3, 4],
                registry_version: 2,
                algorithm_id: 15,
                source_unmasked: Some(TranscriptRef::new(7, tid(3))),
            }),
            dealings: vec![
                SignedDealingProto {
                    dealing: Some(DealingProto {
                        transcript_id: Some(tid(4)),
                        internal_dealing_raw: vec![9, 9],
                    }),
                    signer: Some(1),
                    signature: vec![5],
                },
            ],
        }),
    }
}

#[test]
fn inspect_bootstrap_record_decodes_single_record() {
    let records = vec![valid_record()];
    let (key_id, dealings) = inspect_bootstrap_record(&records).unwrap().unwrap();
    assert_eq!(key_id.curve, EcdsaCurve::Secp256k1);
    assert_eq!(key_id.name, "some_key");
    assert_eq!(dealings.params.transcript_id, tid(4));
    assert_eq!(dealings.params.registry_version, 2);
    assert_eq!(dealings.params.algorithm_id, AlgorithmId::ThresholdEcdsaSecp256k1);
    assert_eq!(dealings.dealings.len(), 1);
    assert_eq!(dealings.dealings[0].content.transcript_id, tid(4));
    assert_eq!(dealings.dealings[0].signature.signer, 1);
}

#[test]
fn inspect_bootstrap_record_rejects_two_records() {
    let records = vec![valid_record(), valid_record()];
    let err = inspect_bootstrap_record(&records).unwrap_err();
    assert_eq!(err, BootstrapError::MultipleRecords);
    assert!(err.text().contains("more than one"));
}

#[test]
fn inspect_bootstrap_record_reports_bad_curve() {
    let mut record = valid_record();
    record.key_id = Some(EcdsaKeyIdProto { curve: 9, name: "some_key".to_string() });
    let records = vec![record];
    assert_eq!(
        inspect_bootstrap_record(&records).unwrap_err(),
        BootstrapError::KeyIdDecodeError(9)
    );
}

#[test]
fn inspect_bootstrap_record_reports_missing_params() {
    let mut record = valid_record();
    record.dealings = Some(InitialIDkgDealingsProto { params: None, dealings: vec![] });
    let records = vec![record];
    assert_eq!(
        inspect_bootstrap_record(&records).unwrap_err(),
        BootstrapError::DealingsDecodeError(DealingsFault::MissingParams)
    );
}

fn loader(outcome: StaticLoadOutcome) -> StaticTranscriptLoader {
    StaticTranscriptLoader {
        outcome,
        complainer_id: 1,
        dealer_id: 1,
        complaint_raw: vec![0],
        signature_raw: vec![0],
    }
}

#[test]
fn load_transcripts_aborts_batch_on_failure() {
    let pool = EcdsaPool::new();
    let transcripts = vec![
        make_transcript(tid(1), vec![2], true),
        make_transcript(tid(2), vec![2], true),
    ];
    let change_set = load_transcripts(&pool, &loader(StaticLoadOutcome::Failure), &transcripts);
    assert_eq!(change_set, Some(vec![]));
}

#[test]
fn load_transcripts_collects_complaint_per_transcript() {
    let pool = EcdsaPool::new();
    let transcripts = vec![
        make_transcript(tid(1), vec![2], true),
        make_transcript(tid(2), vec![2], true),
    ];
    let change_set = load_transcripts(&pool, &loader(StaticLoadOutcome::Complain), &transcripts)
        .unwrap();
    assert_eq!(change_set.len(), 2);
    for (i, action) in change_set.iter().enumerate() {
        match action {
            EcdsaChangeAction::AddToValidated(EcdsaMessage::EcdsaComplaint(c)) => {
                assert_eq!(c.content.idkg_complaint.transcript_id, tid(i as u64 + 1));
                assert_eq!(c.signature.signer, 1);
            }
            other => panic!("expected a complaint to be added, got {:?}", other),
        }
    }
}

#[test]
fn load_transcripts_quiet_on_clean_batch() {
    let pool = EcdsaPool::new();
    let transcripts = vec![
        make_transcript(tid(1), vec![2], true),
        make_transcript(tid(2), vec![2], true),
    ];
    assert_eq!(
        load_transcripts(&pool, &loader(StaticLoadOutcome::Success), &transcripts),
        None
    );
}

#[test]
fn transcript_op_summary_names_operation_and_sources() {
    let t1 = make_transcript(IDkgTranscriptId::new(5, 7, 3), vec![1], true);
    let t2 = make_transcript(IDkgTranscriptId::new(5, 8, 3), vec![1], false);
    assert_eq!(transcript_op_summary(&IDkgTranscriptOperation::Random), "Random");
    assert_eq!(
        transcript_op_summary(&IDkgTranscriptOperation::ReshareOfMasked(t1.clone())),
        "ReshareOfMasked(Id(5, 7, 3))"
    );
    assert_eq!(
        transcript_op_summary(&IDkgTranscriptOperation::ReshareOfUnmasked(t2.clone())),
        "ReshareOfUnmasked(Id(5, 8, 3))"
    );
    assert_eq!(
        transcript_op_summary(&IDkgTranscriptOperation::UnmaskedTimesMasked(t2, t1)),
        "UnmaskedTimesMasked(Id(5, 8, 3), Id(5, 7, 3))"
    );
}

#[test]
fn transcript_ref_serialization_round_trips() {
    let r = TranscriptRef::new(42, IDkgTranscriptId::new(7, 123456789, 41));
    let bytes = serialize_transcript_ref(&r);
    assert_eq!(bytes.len(), 32);
    assert_eq!(deserialize_transcript_ref(&bytes), Some(r));
    assert_eq!(deserialize_transcript_ref(&vec![0u8; 31]), None);
}

#[test]
fn block_reader_resolves_inserted_transcript() {
    let key_id = EcdsaKeyId { curve: EcdsaCurve::Secp256k1, name: "some_key".to_string() };
    let transcript = make_transcript(tid(5), vec![1, 2], true);
    let mut payload = EcdsaPayload::empty(SUBNET, key_id);
    payload.idkg_transcripts.push(transcript.clone());
    let chain = ConsensusBlockChain::new(3, vec![Some(payload)]);
    let reader = EcdsaBlockReaderImpl::new(chain);
    assert_eq!(reader.tip_height(), 3);

    // round trip: serialize the reference, read it back, resolve it
    let transcript_ref = TranscriptRef::new(3, tid(5));
    let recovered = deserialize_transcript_ref(&serialize_transcript_ref(&transcript_ref)).unwrap();
    assert_eq!(reader.transcript(&recovered), Ok(&transcript));
}

#[test]
fn block_reader_reports_unreachable_block_and_missing_transcript() {
    let key_id = EcdsaKeyId { curve: EcdsaCurve::Secp256k1, name: "some_key".to_string() };
    let payload = EcdsaPayload::empty(SUBNET, key_id);
    let chain = ConsensusBlockChain::new(3, vec![Some(payload)]);
    let reader = EcdsaBlockReaderImpl::new(chain);

    let unreachable = TranscriptRef::new(9, tid(5));
    assert_eq!(
        reader.transcript(&unreachable),
        Err(TranscriptLookupError::ChainLookupFailed(unreachable))
    );
    let missing = TranscriptRef::new(3, tid(5));
    assert_eq!(
        reader.transcript(&missing),
        Err(TranscriptLookupError::TranscriptMissing(missing))
    );
}

#[test]
fn block_reader_is_empty_without_tip_payload() {
    let chain = ConsensusBlockChain::new(0, vec![None]);
    let reader = EcdsaBlockReaderImpl::new(chain);
    assert_eq!(reader.tip_height(), 0);
    assert!(reader.requested_transcripts().is_empty());
    assert!(reader.requested_signatures().is_empty());
    assert!(reader.active_transcripts().is_empty());
    assert!(reader.source_subnet_xnet_transcripts().is_empty());
    assert!(reader.target_subnet_xnet_transcripts().is_empty());
}

fn sig_inputs(height: u64) -> ThresholdEcdsaSigInputsRef {
    ThresholdEcdsaSigInputsRef::new(
        ExtendedDerivationPath { caller: 1, derivation_path: vec![] },
        vec![0u8; 32],
        vec![0u8; 32],
        ecdsa_consensus::quadruple::PreSignatureQuadrupleRef::new(
            UnmaskedTranscript(TranscriptRef::new(height, tid(20))),
            MaskedTranscript(TranscriptRef::new(height, tid(30))),
            MaskedTranscript(TranscriptRef::new(height, tid(60))),
            MaskedTranscript(TranscriptRef::new(height, tid(70))),
        ),
        UnmaskedTranscript(TranscriptRef::new(height, tid(50))),
    )
}

#[test]
fn block_reader_lists_requested_work() {
    let key_id = EcdsaKeyId { curve: EcdsaCurve::Secp256k1, name: "some_key".to_string() };
    let mut payload = EcdsaPayload::empty(SUBNET, key_id);
    let quadruple = QuadrupleInCreation::new(
        random_params(tid(1), vec![1, 2, 3, 4], vec![1, 2, 3, 4]),
        random_params(tid(2), vec![1, 2, 3, 4], vec![1, 2, 3, 4]),
    );
    payload.quadruples_in_creation.push((0, quadruple));
    payload.ongoing_signatures.push((request_id(0), sig_inputs(1)));
    let chain = ConsensusBlockChain::new(1, vec![Some(payload)]);
    let reader = EcdsaBlockReaderImpl::new(chain);

    let requested = reader.requested_transcripts();
    assert_eq!(requested.len(), 2);
    assert_eq!(requested[0].transcript_id, tid(1));
    assert_eq!(requested[1].transcript_id, tid(2));

    let signatures = reader.requested_signatures();
    assert_eq!(signatures.len(), 1);
    assert_eq!(signatures[0].0, request_id(0));

    // the ongoing signature retains its quadruple and key transcript
    let active = reader.active_transcripts();
    assert_eq!(active.len(), 5);
    assert!(active.contains(&TranscriptRef::new(1, tid(20))));
    assert!(active.contains(&TranscriptRef::new(1, tid(50))));
}

#[test]
fn quadruple_assembly_is_staged() {
    let mut quadruple = QuadrupleInCreation::new(
        random_params(tid(1), vec![1, 2, 3, 4], vec![1, 2, 3, 4]),
        random_params(tid(2), vec![1, 2, 3, 4], vec![1, 2, 3, 4]),
    );
    let mut uid_gen = EcdsaUIDGenerator::new(SUBNET, 10);
    let key = Some(UnmaskedTranscript(TranscriptRef::new(0, tid(50))));

    // nothing is completed yet: no follow-up request may appear
    let fresh = update_quadruple_in_creation(&mut quadruple, key, &vec![], &mut uid_gen, 11);
    assert!(fresh.is_empty());
    assert!(quadruple.kappa_masked.is_none());
    assert!(quadruple.kappa_times_lambda_config.is_none());

    // kappa and lambda complete: unmasking and key-times-lambda are requested,
    // but the kappa product still waits for kappa unmasked
    let completed = vec![
        make_transcript(tid(1), vec![1, 2, 3, 4], true),
        make_transcript(tid(2), vec![1, 2, 3, 4], true),
    ];
    let newly = update_quadruple_in_creation(&mut quadruple, key, &completed, &mut uid_gen, 11);
    assert_eq!(newly.len(), 2);
    assert!(quadruple.kappa_masked.is_some());
    assert!(quadruple.lambda_masked.is_some());
    let unmask_config = quadruple.unmask_kappa_config.clone().unwrap();
    assert!(quadruple.key_times_lambda_config.is_some());
    assert!(quadruple.kappa_times_lambda_config.is_none());

    // kappa unmasked completes: only now is the kappa product requested,
    // naming exactly the two completed factors
    let completed = vec![make_transcript(unmask_config.transcript_id, vec![1, 2, 3, 4], false)];
    let newly = update_quadruple_in_creation(&mut quadruple, key, &completed, &mut uid_gen, 12);
    assert_eq!(newly.len(), 1);
    let product_config = quadruple.kappa_times_lambda_config.clone().unwrap();
    assert_eq!(
        product_config.operation_type_ref,
        IDkgTranscriptOperationRef::UnmaskedTimesMasked(
            quadruple.kappa_unmasked.unwrap(),
            quadruple.lambda_masked.unwrap(),
        )
    );
}

#[test]
fn dealing_validation_is_idempotent_per_dealer() {
    let requested = vec![random_params(tid(1), vec![1, 2, 3, 4], vec![1, 2, 3, 4])];
    let validated = vec![make_dealing(tid(1), 2)];
    let unvalidated = vec![
        make_dealing(tid(1), 3),
        make_dealing(tid(1), 3),
        make_dealing(tid(1), 2),
        make_dealing(tid(1), 9),
        make_dealing(tid(7), 1),
    ];
    let change_set = validate_dealings(&requested, &validated, &unvalidated);
    assert_eq!(
        change_set,
        vec![
            // a fresh dealer moves to validated
            EcdsaChangeAction::MoveToValidated(EcdsaMessageId::Dealing {
                transcript_id: tid(1),
                dealer_id: 3,
            }),
            // a second copy in the same batch is invalid, not ignored
            EcdsaChangeAction::HandleInvalid(
                EcdsaMessageId::Dealing { transcript_id: tid(1), dealer_id: 3 },
                InvalidReason::DuplicateDealing,
            ),
            // a dealer with a validated dealing cannot get a second one
            EcdsaChangeAction::HandleInvalid(
                EcdsaMessageId::Dealing { transcript_id: tid(1), dealer_id: 2 },
                InvalidReason::DuplicateDealing,
            ),
            // a dealer outside the dealer set is invalid
            EcdsaChangeAction::HandleInvalid(
                EcdsaMessageId::Dealing { transcript_id: tid(1), dealer_id: 9 },
                InvalidReason::DealerNotInDealerSet,
            ),
            // a dealing for an unrequested transcript is deferred: no action
        ]
    );
}

#[test]
fn local_replica_deals_once() {
    let params = random_params(tid(1), vec![1, 2, 3, 4], vec![1, 2, 3, 4]);
    assert!(should_deal(1, &params, &vec![]));
    assert!(!should_deal(1, &params, &vec![make_dealing(tid(1), 1)]));
    assert!(!should_deal(9, &params, &vec![]));
}

#[test]
fn share_validation_rejects_stale_and_duplicate_shares() {
    let requested = vec![(request_id(0), sig_inputs(1)), (request_id(1), sig_inputs(1))];
    let agreed = vec![request_id(2)];
    let validated = vec![make_share(request_id(0), 2)];
    let unvalidated = vec![
        make_share(request_id(0), 3),
        make_share(request_id(0), 2),
        make_share(request_id(2), 4),
        make_share(request_id(9), 4),
    ];
    let change_set = validate_sig_shares(&requested, &agreed, &validated, &unvalidated);
    assert_eq!(
        change_set,
        vec![
            EcdsaChangeAction::MoveToValidated(EcdsaMessageId::SigShare {
                request_id: request_id(0),
                signer: 3,
            }),
            EcdsaChangeAction::HandleInvalid(
                EcdsaMessageId::SigShare { request_id: request_id(0), signer: 2 },
                InvalidReason::DuplicateShare,
            ),
            // after agreement, further shares for the request are stale
            EcdsaChangeAction::HandleInvalid(
                EcdsaMessageId::SigShare { request_id: request_id(2), signer: 4 },
                InvalidReason::StaleShare,
            ),
            // an unrequested, unagreed share is deferred: no action
        ]
    );
}

#[test]
fn local_replica_signs_once_per_request() {
    let requested = vec![(request_id(0), sig_inputs(1))];
    let agreed = vec![request_id(1)];
    assert!(should_create_share(1, request_id(0), &requested, &agreed, &vec![]));
    assert!(!should_create_share(
        1,
        request_id(0),
        &requested,
        &agreed,
        &vec![make_share(request_id(0), 1)]
    ));
    assert!(!should_create_share(1, request_id(1), &requested, &agreed, &vec![]));
}

#[test]
fn validated_shares_grow_until_agreement() {
    let mut pool = EcdsaPool::new();
    pool.validated.push(EcdsaMessage::EcdsaSigShare(make_share(request_id(0), 2)));
    pool.unvalidated.push(EcdsaMessage::EcdsaSigShare(make_share(request_id(0), 3)));
    let before = pool.validated.clone();

    let requested = vec![(request_id(0), sig_inputs(1))];
    let change_set = validate_sig_shares(
        &requested,
        &vec![],
        &vec![make_share(request_id(0), 2)],
        &vec![make_share(request_id(0), 3)],
    );
    apply_change_set(&mut pool, change_set);

    // every share validated before is still there, and the new one arrived
    assert_eq!(&pool.validated[..before.len()], &before[..]);
    assert_eq!(pool.validated.len(), 2);
    assert!(pool.unvalidated.is_empty());
}

#[test]
fn apply_change_set_follows_the_five_verbs() {
    let mut pool = EcdsaPool::new();
    let dealing = make_dealing(tid(1), 3);
    let dealing_id = EcdsaMessageId::Dealing { transcript_id: tid(1), dealer_id: 3 };
    pool.unvalidated.push(EcdsaMessage::EcdsaSignedDealing(dealing.clone()));

    apply_change_set(&mut pool, vec![EcdsaChangeAction::MoveToValidated(dealing_id)]);
    assert!(pool.unvalidated.is_empty());
    assert_eq!(pool.validated, vec![EcdsaMessage::EcdsaSignedDealing(dealing.clone())]);

    apply_change_set(&mut pool, vec![EcdsaChangeAction::RemoveValidated(dealing_id)]);
    assert!(pool.validated.is_empty());

    pool.unvalidated.push(EcdsaMessage::EcdsaSignedDealing(dealing.clone()));
    apply_change_set(
        &mut pool,
        vec![EcdsaChangeAction::HandleInvalid(dealing_id, InvalidReason::DuplicateDealing)],
    );
    assert!(pool.unvalidated.is_empty());
}

#[test]
fn transcript_ids_are_never_reused() {
    let mut uid_gen = EcdsaUIDGenerator::new(SUBNET, 5);
    let a = uid_gen.next_transcript_id();
    let b = uid_gen.next_transcript_id();
    let q1 = uid_gen.next_quadruple_id();
    let q2 = uid_gen.next_quadruple_id();
    assert_ne!(a, b);
    assert_eq!(a.source_subnet, SUBNET);
    assert_eq!(a.source_height, 5);
    assert_ne!(q1, q2);
}

#[test]
fn transcript_is_never_fabricated_from_insufficient_dealings() {
    // four dealers tolerate one fault, so a quorum is three dealings
    let params = random_params(tid(1), vec![1, 2, 3, 4], vec![1, 2, 3, 4]);
    let two = vec![make_dealing(tid(1), 1), make_dealing(tid(1), 2)];
    assert!(build_transcript(&params, &two, &vec![]).is_none());

    let three = vec![
        make_dealing(tid(1), 1),
        make_dealing(tid(1), 2),
        make_dealing(tid(1), 1),
        make_dealing(tid(1), 3),
    ];
    let transcript = build_transcript(&params, &three, &vec![]).unwrap();
    assert_eq!(transcript.transcript_id, tid(1));
    assert_eq!(transcript.verified_dealings.len(), 3);
    assert_eq!(
        transcript.transcript_type,
        IDkgTranscriptType::Masked(IDkgMaskedTranscriptOrigin::Random)
    );
}

#[test]
fn product_transcript_completes_only_after_both_factors() {
    let kappa_unmasked = UnmaskedTranscript(TranscriptRef::new(1, tid(20)));
    let lambda_masked = MaskedTranscript(TranscriptRef::new(1, tid(30)));
    let params = IDkgTranscriptParamsRef {
        transcript_id: tid(60),
        dealers: vec![1, 2, 3, 4],
        receivers: vec![1, 2, 3, 4],
        registry_version: 1,
        algorithm_id: AlgorithmId::ThresholdEcdsaSecp256k1,
        operation_type_ref: IDkgTranscriptOperationRef::UnmaskedTimesMasked(
            kappa_unmasked,
            lambda_masked,
        ),
    };
    let dealings = vec![
        make_dealing(tid(60), 1),
        make_dealing(tid(60), 2),
        make_dealing(tid(60), 3),
    ];

    // only one factor complete: the product cannot be built
    let one_factor = vec![make_transcript(tid(20), vec![1, 2, 3, 4], false)];
    assert!(build_transcript(&params, &dealings, &one_factor).is_none());

    // both factors complete: the product builds
    let both_factors = vec![
        make_transcript(tid(20), vec![1, 2, 3, 4], false),
        make_transcript(tid(30), vec![1, 2, 3, 4], true),
    ];
    let product = build_transcript(&params, &dealings, &both_factors).unwrap();
    assert_eq!(
        product.transcript_type,
        IDkgTranscriptType::Masked(IDkgMaskedTranscriptOrigin::UnmaskedTimesMasked(
            tid(20),
            tid(30)
        ))
    );
}

#[test]
fn xnet_transcript_lists_split_by_role() {
    let key_id = EcdsaKeyId { curve: EcdsaCurve::Secp256k1, name: "some_key".to_string() };
    let mut payload = EcdsaPayload::empty(SUBNET, key_id.clone());
    payload.ongoing_xnet_reshares.push((
        ecdsa_consensus::payload::EcdsaReshareRequest {
            key_id,
            receiving_node_ids: vec![7, 8],
            registry_version: 3,
        },
        random_params(tid(11), vec![1, 2], vec![7, 8]),
    ));
    payload.key_transcript.next_in_creation = KeyTranscriptCreation::XnetReshareOfUnmaskedParams(
        random_params(tid(12), vec![5, 6], vec![1, 2]),
    );
    let chain = ConsensusBlockChain::new(0, vec![Some(payload)]);
    let reader = EcdsaBlockReaderImpl::new(chain);

    let source = reader.source_subnet_xnet_transcripts();
    assert_eq!(source.len(), 1);
    assert_eq!(source[0].transcript_id, tid(11));

    let target = reader.target_subnet_xnet_transcripts();
    assert_eq!(target.len(), 1);
    assert_eq!(target[0].transcript_id, tid(12));
}

#[test]
fn base64_encoding_pads_the_tail() {
    assert_eq!(base64_encode(&vec![1, 2, 3]), "AQID");
    assert_eq!(base64_encode(&vec![1, 2, 3, 4]), "AQIDBA==");
    assert_eq!(base64_encode(&vec![]), "");
}

#[test]
fn sig_converter_reports_malformed_and_unsupported_signatures() {
    let short = BasicSig(vec![1, 2, 3]);
    let err = SigConverter::for_target(AlgorithmId::Ed25519)
        .try_from_basic(&short)
        .unwrap_err();
    assert!(err.is_malformed_signature());

    let err = SigConverter::for_target(AlgorithmId::RsaSha256)
        .try_from_basic(&BasicSig(vec![0u8; 64]))
        .unwrap_err();
    assert!(!err.is_malformed_signature());
    assert!(!err.is_malformed_public_key());
}

#[test]
fn support_validation_requires_validated_dealing_and_receiver() {
    let requested = vec![random_params(tid(1), vec![1, 2, 3, 4], vec![1, 2, 3, 4])];
    let validated_dealings = vec![make_dealing(tid(1), 2)];
    let make_support = |dealer: NodeId, signer: NodeId| IDkgDealingSupport {
        transcript_id: tid(1),
        dealer_id: dealer,
        dealing_hash: vec![7],
        sig_share: BasicSignature { signer, signature_bytes: vec![8] },
    };
    let validated_supports = vec![make_support(2, 4)];
    let unvalidated = vec![
        make_support(2, 3),
        make_support(2, 3),
        make_support(2, 4),
        make_support(2, 9),
        make_support(5, 3),
    ];
    let change_set = validate_dealing_supports(
        &requested,
        &validated_dealings,
        &validated_supports,
        &unvalidated,
    );
    assert_eq!(
        change_set,
        vec![
            // a fresh support from a receiver moves to validated
            EcdsaChangeAction::MoveToValidated(EcdsaMessageId::Support {
                transcript_id: tid(1),
                dealer_id: 2,
                signer: 3,
            }),
            // a second support from the same signer for the same dealing is invalid
            EcdsaChangeAction::HandleInvalid(
                EcdsaMessageId::Support { transcript_id: tid(1), dealer_id: 2, signer: 3 },
                InvalidReason::DuplicateSupport,
            ),
            // one already validated cannot be supported again by the same signer
            EcdsaChangeAction::HandleInvalid(
                EcdsaMessageId::Support { transcript_id: tid(1), dealer_id: 2, signer: 4 },
                InvalidReason::DuplicateSupport,
            ),
            // a signer outside the receiver set is invalid
            EcdsaChangeAction::HandleInvalid(
                EcdsaMessageId::Support { transcript_id: tid(1), dealer_id: 2, signer: 9 },
                InvalidReason::SignerNotInReceiverSet,
            ),
            // a support for a dealing not validated locally is deferred: no action
        ]
    );
}

#[test]
fn recorded_agreement_removes_the_request_from_ongoing() {
    let mut ongoing = vec![(request_id(0), sig_inputs(1)), (request_id(1), sig_inputs(1))];
    let mut agreements: Vec<(RequestId, CompletedSignature)> = vec![];
    complete_signature(
        &mut ongoing,
        &mut agreements,
        request_id(0),
        ThresholdEcdsaCombinedSignature { signature: vec![1, 2] },
    );
    assert_eq!(ongoing.len(), 1);
    assert_eq!(ongoing[0].0, request_id(1));
    assert_eq!(
        agreements,
        vec![(
            request_id(0),
            CompletedSignature::Unreported(ThresholdEcdsaCombinedSignature {
                signature: vec![1, 2]
            })
        )]
    );
}

#[test]
fn enough_shares_follow_the_quorum() {
    let receivers = vec![1, 2, 3, 4];
    let shares = vec![
        make_share(request_id(0), 1),
        make_share(request_id(0), 2),
        make_share(request_id(0), 2),
        make_share(request_id(1), 3),
    ];
    assert!(has_enough_shares(&receivers, &shares, request_id(0), 2));
    assert!(!has_enough_shares(&receivers, &shares, request_id(0), 3));
    assert!(!has_enough_shares(&receivers, &shares, request_id(1), 2));
}

#[test]
fn complaint_recovery_moves_forward_only() {
    let clean = ComplaintState::Clean;
    // an opening without a pending complaint changes nothing
    assert_eq!(clean.on_opening(2), ComplaintState::Clean);

    let complained = clean.on_complaint();
    assert_eq!(complained, ComplaintState::Complained { openings: 0 });
    // a second complaint for the same pair does not reset the count
    let complained = complained.on_opening(2).on_complaint();
    assert_eq!(complained, ComplaintState::Complained { openings: 1 });

    let opened = complained.on_opening(2);
    assert_eq!(opened, ComplaintState::Opened);

    let resolved = opened.on_resolution();
    assert_eq!(resolved, ComplaintState::Resolved);
    // resolution is terminal for the pair
    assert_eq!(resolved.on_complaint(), ComplaintState::Resolved);
    assert_eq!(resolved.on_opening(2), ComplaintState::Resolved);
    assert_eq!(resolved.on_resolution(), ComplaintState::Resolved);
}

#[test]
fn hex_decoding_handles_both_digit_cases() {
    assert_eq!(hex_to_byte_vec("AB"), vec![0xab]);
    assert_eq!(hex_to_byte_vec("ff00"), vec![255, 0]);
    assert_eq!(hex_to_byte_vec(""), Vec::<u8>::new());
}

#[test]
fn typed_transcript_references_check_the_secret_kind() {
    let masked = make_transcript(tid(1), vec![1], true);
    let unmasked = make_transcript(tid(2), vec![1], false);
    assert_eq!(
        MaskedTranscript::try_from(4, &masked),
        Some(MaskedTranscript(TranscriptRef::new(4, tid(1))))
    );
    assert_eq!(MaskedTranscript::try_from(4, &unmasked), None);
    assert_eq!(
        UnmaskedTranscript::try_from(4, &unmasked),
        Some(UnmaskedTranscript(TranscriptRef::new(4, tid(2))))
    );
    assert_eq!(UnmaskedTranscript::try_from(4, &masked), None);
}

#[test]
fn builder_reports_progress_per_transcript() {
    let mut builder = EcdsaTranscriptBuilder::new();
    assert!(builder.get_completed_transcript(tid(1)).is_none());
    assert!(builder.get_validated_dealings(tid(1)).is_empty());

    builder.validated_dealings.push(make_dealing(tid(1), 2));
    builder.validated_dealings.push(make_dealing(tid(1), 2));
    builder.validated_dealings.push(make_dealing(tid(2), 3));
    let dealings = builder.get_validated_dealings(tid(1));
    assert_eq!(dealings.len(), 1);
    assert_eq!(dealings[0].signature.signer, 2);

    let transcript = make_transcript(tid(1), vec![1], true);
    builder.completed.push(transcript.clone());
    assert_eq!(builder.get_completed_transcript(tid(1)), Some(&transcript));
}

#[test]
fn local_contributions_wrap_into_add_actions() {
    let action = create_dealing_action(1, tid(4), vec![7], vec![8]);
    match action {
        EcdsaChangeAction::AddToValidated(EcdsaMessage::EcdsaSignedDealing(d)) => {
            assert_eq!(d.content.transcript_id, tid(4));
            assert_eq!(d.signature.signer, 1);
        }
        other => panic!("expected a dealing to be added, got {:?}", other),
    }
    let action = create_share_action(1, request_id(0), vec![9]);
    match action {
        EcdsaChangeAction::AddToValidated(EcdsaMessage::EcdsaSigShare(sh)) => {
            assert_eq!(sh.request_id, request_id(0));
            assert_eq!(sh.signer_id, 1);
        }
        other => panic!("expected a share to be added, got {:?}", other),
    }
}

#[test]
fn chain_grows_and_old_heights_stay_resolvable() {
    let key_id = EcdsaKeyId { curve: EcdsaCurve::Secp256k1, name: "some_key".to_string() };
    let transcript = make_transcript(tid(5), vec![1], true);
    let mut payload = EcdsaPayload::empty(SUBNET, key_id.clone());
    payload.idkg_transcripts.push(transcript.clone());
    let mut chain = ConsensusBlockChain::new(3, vec![Some(payload)]);
    chain.push_block(Some(EcdsaPayload::empty(SUBNET, key_id)));
    let reader = EcdsaBlockReaderImpl::new(chain);
    assert_eq!(reader.tip_height(), 4);
    // the reference still resolves at the height it was created
    let transcript_ref = TranscriptRef::new(3, tid(5));
    assert_eq!(reader.transcript(&transcript_ref), Ok(&transcript));
}
