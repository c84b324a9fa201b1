//! Presignature quadruples: the four transcripts that let the subnet sign one
//! message, and the step-by-step assembly of a quadruple from completed
//! transcripts.
//!
//! Assembly is strictly staged: the product transcripts (kappa-times-lambda
//! and key-times-lambda) are only ever requested after the factors they
//! multiply are complete, and only ever complete after their own request was
//! made.  `QuadrupleInCreation::well_formed` captures this ordering and
//! `update_quadruple_in_creation` preserves it.

use vstd::prelude::*;
use crate::ids::{EcdsaUIDGenerator, Height, TranscriptRef};
use crate::transcript::{
    spec_has_completed_masked, spec_has_completed_unmasked, spec_unique_transcript_ids,
    find_transcript, IDkgTranscript, IDkgTranscriptOperationRef, IDkgTranscriptParamsRef,
    IDkgTranscriptParamsRefView, IDkgTranscriptType, MaskedTranscript, UnmaskedTranscript,
};

verus! {

/// The four completed transcripts a signing request consumes: kappa unmasked,
/// lambda masked, kappa-times-lambda, and key-times-lambda.
#[derive(Clone, Copy, PartialEq, Eq, Structural, Debug)]
pub struct PreSignatureQuadrupleRef {
    pub kappa_unmasked_ref: UnmaskedTranscript,
    pub lambda_masked_ref: MaskedTranscript,
    pub kappa_times_lambda_ref: MaskedTranscript,
    pub key_times_lambda_ref: MaskedTranscript,
}

impl PreSignatureQuadrupleRef {
    /// Assembles a quadruple reference from its four parts.
    pub fn new(
        kappa_unmasked_ref: UnmaskedTranscript,
        lambda_masked_ref: MaskedTranscript,
        kappa_times_lambda_ref: MaskedTranscript,
        key_times_lambda_ref: MaskedTranscript,
    ) -> (r: Self)
        ensures
            r == (PreSignatureQuadrupleRef {
                kappa_unmasked_ref,
                lambda_masked_ref,
                kappa_times_lambda_ref,
                key_times_lambda_ref,
            }),
    {
        PreSignatureQuadrupleRef {
            kappa_unmasked_ref,
            lambda_masked_ref,
            kappa_times_lambda_ref,
            key_times_lambda_ref,
        }
    }

    /// The transcript references this quadruple retains.
    pub open spec fn spec_get_refs(self) -> Seq<TranscriptRef> {
        seq![
            self.kappa_unmasked_ref.0,
            self.lambda_masked_ref.0,
            self.kappa_times_lambda_ref.0,
            self.key_times_lambda_ref.0,
        ]
    }

    /// Lists the transcript references this quadruple retains.
    pub fn get_refs(&self) -> (r: Vec<TranscriptRef>)
        ensures
            r@ == self.spec_get_refs(),
    {
        let mut r: Vec<TranscriptRef> = Vec::new();
        r.push(self.kappa_unmasked_ref.0);
        r.push(self.lambda_masked_ref.0);
        r.push(self.kappa_times_lambda_ref.0);
        r.push(self.key_times_lambda_ref.0);
        proof {
            assert(r@ =~= self.spec_get_refs());
        }
        r
    }
}

/// The reference a masked transcript result contributes, if any.
pub open spec fn spec_masked_ref_seq(o: Option<MaskedTranscript>) -> Seq<TranscriptRef> {
    match o {
        Some(m) => seq![m.0],
        None => Seq::empty(),
    }
}

/// The reference an unmasked transcript result contributes, if any.
pub open spec fn spec_unmasked_ref_seq(o: Option<UnmaskedTranscript>) -> Seq<TranscriptRef> {
    match o {
        Some(u) => seq![u.0],
        None => Seq::empty(),
    }
}

/// A quadruple while its four transcripts are still being constructed.
///
/// Each stage holds a construction request (`*_config`) and, once the
/// requested transcript completes, its typed reference.  The two random
/// transcripts are requested up front; the reshare of kappa and the two
/// products are requested only when their inputs are ready.
#[derive(Clone, PartialEq, Eq, Debug)]
pub struct QuadrupleInCreation {
    pub kappa_config: IDkgTranscriptParamsRef,
    pub kappa_masked: Option<MaskedTranscript>,
    pub lambda_config: IDkgTranscriptParamsRef,
    pub lambda_masked: Option<MaskedTranscript>,
    pub unmask_kappa_config: Option<IDkgTranscriptParamsRef>,
    pub kappa_unmasked: Option<UnmaskedTranscript>,
    pub key_times_lambda_config: Option<IDkgTranscriptParamsRef>,
    pub key_times_lambda: Option<MaskedTranscript>,
    pub kappa_times_lambda_config: Option<IDkgTranscriptParamsRef>,
    pub kappa_times_lambda: Option<MaskedTranscript>,
}

impl QuadrupleInCreation {
    /// Staging order of quadruple assembly.
    ///
    /// A request exists only if its inputs are complete, and a result exists
    /// only if its request was made; product requests name exactly the factor
    /// references that were complete when the request was created.
    pub open spec fn well_formed(self) -> bool {
        &&& self.kappa_config.operation_type_ref is Random
        &&& self.lambda_config.operation_type_ref is Random
        &&& (self.unmask_kappa_config is Some ==> {
            &&& self.kappa_masked is Some
            &&& (self.unmask_kappa_config->Some_0).operation_type_ref
                == IDkgTranscriptOperationRef::ReshareOfMasked(self.kappa_masked->Some_0)
        })
        &&& (self.kappa_unmasked is Some ==> self.unmask_kappa_config is Some)
        &&& (self.kappa_times_lambda_config is Some ==> {
            &&& self.kappa_unmasked is Some
            &&& self.lambda_masked is Some
            &&& (self.kappa_times_lambda_config->Some_0).operation_type_ref
                == IDkgTranscriptOperationRef::UnmaskedTimesMasked(
                self.kappa_unmasked->Some_0,
                self.lambda_masked->Some_0,
            )
        })
        &&& (self.kappa_times_lambda is Some ==> self.kappa_times_lambda_config is Some)
        &&& (self.key_times_lambda_config is Some ==> {
            &&& self.lambda_masked is Some
            &&& (self.key_times_lambda_config->Some_0).operation_type_ref matches
                IDkgTranscriptOperationRef::UnmaskedTimesMasked(_, m)
                && m == self.lambda_masked->Some_0
        })
        &&& (self.key_times_lambda is Some ==> self.key_times_lambda_config is Some)
    }

    /// Starts a fresh quadruple from its two random transcript requests.
    pub fn new(kappa_config: IDkgTranscriptParamsRef, lambda_config: IDkgTranscriptParamsRef) -> (r:
        Self)
        requires
            kappa_config.operation_type_ref is Random,
            lambda_config.operation_type_ref is Random,
        ensures
            r.well_formed(),
            r.kappa_config == kappa_config,
            r.lambda_config == lambda_config,
            r.kappa_masked is None,
            r.lambda_masked is None,
            r.unmask_kappa_config is None,
            r.kappa_unmasked is None,
            r.key_times_lambda_config is None,
            r.key_times_lambda is None,
            r.kappa_times_lambda_config is None,
            r.kappa_times_lambda is None,
    {
        QuadrupleInCreation {
            kappa_config,
            kappa_masked: None,
            lambda_config,
            lambda_masked: None,
            unmask_kappa_config: None,
            kappa_unmasked: None,
            key_times_lambda_config: None,
            key_times_lambda: None,
            kappa_times_lambda_config: None,
            kappa_times_lambda: None,
        }
    }

    /// The transcript references of the results produced so far.
    pub open spec fn spec_get_refs(self) -> Seq<TranscriptRef> {
        spec_masked_ref_seq(self.kappa_masked) + spec_masked_ref_seq(self.lambda_masked)
            + spec_unmasked_ref_seq(self.kappa_unmasked) + spec_masked_ref_seq(self.key_times_lambda)
            + spec_masked_ref_seq(self.kappa_times_lambda)
    }

    /// Lists the transcript references of the results produced so far.
    pub fn get_refs(&self) -> (r: Vec<TranscriptRef>)
        ensures
            r@ == self.spec_get_refs(),
    {
        let mut r: Vec<TranscriptRef> = Vec::new();
        if let Some(m) = &self.kappa_masked {
            r.push(m.0);
        }
        if let Some(m) = &self.lambda_masked {
            r.push(m.0);
        }
        if let Some(u) = &self.kappa_unmasked {
            r.push(u.0);
        }
        if let Some(m) = &self.key_times_lambda {
            r.push(m.0);
        }
        if let Some(m) = &self.kappa_times_lambda {
            r.push(m.0);
        }
        proof {
            assert(r@ =~= self.spec_get_refs());
        }
        r
    }

    /// The construction requests whose transcripts are still outstanding.
    pub open spec fn spec_configs_in_creation(self) -> Seq<IDkgTranscriptParamsRefView> {
        (if self.kappa_masked is None {
            seq![self.kappa_config@]
        } else {
            Seq::empty()
        }) + (if self.lambda_masked is None {
            seq![self.lambda_config@]
        } else {
            Seq::empty()
        }) + (if self.unmask_kappa_config is Some && self.kappa_unmasked is None {
            seq![(self.unmask_kappa_config->Some_0)@]
        } else {
            Seq::empty()
        }) + (if self.kappa_times_lambda_config is Some && self.kappa_times_lambda is None {
            seq![(self.kappa_times_lambda_config->Some_0)@]
        } else {
            Seq::empty()
        }) + (if self.key_times_lambda_config is Some && self.key_times_lambda is None {
            seq![(self.key_times_lambda_config->Some_0)@]
        } else {
            Seq::empty()
        })
    }

    /// Lists the construction requests whose transcripts are still
    /// outstanding.
    pub fn configs_in_creation(&self) -> (r: Vec<IDkgTranscriptParamsRef>)
        ensures
            r@.len() == self.spec_configs_in_creation().len(),
            forall|j: int|
                0 <= j < r@.len() ==> (#[trigger] r@[j])@ == self.spec_configs_in_creation()[j],
    {
        let mut r: Vec<IDkgTranscriptParamsRef> = Vec::new();
        if self.kappa_masked.is_none() {
            r.push(self.kappa_config.duplicate());
        }
        if self.lambda_masked.is_none() {
            r.push(self.lambda_config.duplicate());
        }
        if let Some(c) = &self.unmask_kappa_config {
            if self.kappa_unmasked.is_none() {
                r.push(c.duplicate());
            }
        }
        if let Some(c) = &self.kappa_times_lambda_config {
            if self.kappa_times_lambda.is_none() {
                r.push(c.duplicate());
            }
        }
        if let Some(c) = &self.key_times_lambda_config {
            if self.key_times_lambda.is_none() {
                r.push(c.duplicate());
            }
        }
        proof {
            assert(r@.map_values(|p: IDkgTranscriptParamsRef| p@) =~= self.spec_configs_in_creation());
        }
        r
    }
}


/// The masked reference a completed transcript with this id would get.
pub open spec fn spec_masked_at(height: Height, id: crate::ids::IDkgTranscriptId) -> Option<
    MaskedTranscript,
> {
    Some(MaskedTranscript(TranscriptRef { height, transcript_id: id }))
}

/// The unmasked reference a completed transcript with this id would get.
pub open spec fn spec_unmasked_at(height: Height, id: crate::ids::IDkgTranscriptId) -> Option<
    UnmaskedTranscript,
> {
    Some(UnmaskedTranscript(TranscriptRef { height, transcript_id: id }))
}

/// Advances one quadruple: records every requested transcript that has
/// completed, then creates the follow-up requests whose inputs are now ready.
///
/// The product requests are created only when their factors are complete, so
/// `well_formed` is preserved; every result already recorded is kept
/// unchanged.
pub fn update_quadruple_in_creation(
    q: &mut QuadrupleInCreation,
    key_transcript: Option<UnmaskedTranscript>,
    completed: &Vec<IDkgTranscript>,
    uid_gen: &mut EcdsaUIDGenerator,
    height: Height,
) -> (newly_requested: Vec<IDkgTranscriptParamsRef>)
    requires
        old(q).well_formed(),
        spec_unique_transcript_ids(completed@),
        old(uid_gen).next_unused_transcript_id <= u64::MAX - 3,
    ensures
        final(q).well_formed(),
        final(q).kappa_config == old(q).kappa_config,
        final(q).lambda_config == old(q).lambda_config,
        // completions: a requested transcript is recorded exactly when it is done
        final(q).kappa_masked == (if old(q).kappa_masked is Some {
            old(q).kappa_masked
        } else if spec_has_completed_masked(completed@, old(q).kappa_config.transcript_id) {
            spec_masked_at(height, old(q).kappa_config.transcript_id)
        } else {
            None
        }),
        final(q).lambda_masked == (if old(q).lambda_masked is Some {
            old(q).lambda_masked
        } else if spec_has_completed_masked(completed@, old(q).lambda_config.transcript_id) {
            spec_masked_at(height, old(q).lambda_config.transcript_id)
        } else {
            None
        }),
        final(q).kappa_unmasked == (if old(q).kappa_unmasked is Some {
            old(q).kappa_unmasked
        } else if old(q).unmask_kappa_config is Some && spec_has_completed_unmasked(
            completed@,
            (old(q).unmask_kappa_config->Some_0).transcript_id,
        ) {
            spec_unmasked_at(height, (old(q).unmask_kappa_config->Some_0).transcript_id)
        } else {
            None
        }),
        final(q).kappa_times_lambda == (if old(q).kappa_times_lambda is Some {
            old(q).kappa_times_lambda
        } else if old(q).kappa_times_lambda_config is Some && spec_has_completed_masked(
            completed@,
            (old(q).kappa_times_lambda_config->Some_0).transcript_id,
        ) {
            spec_masked_at(height, (old(q).kappa_times_lambda_config->Some_0).transcript_id)
        } else {
            None
        }),
        final(q).key_times_lambda == (if old(q).key_times_lambda is Some {
            old(q).key_times_lambda
        } else if old(q).key_times_lambda_config is Some && spec_has_completed_masked(
            completed@,
            (old(q).key_times_lambda_config->Some_0).transcript_id,
        ) {
            spec_masked_at(height, (old(q).key_times_lambda_config->Some_0).transcript_id)
        } else {
            None
        }),
        // follow-up requests: created exactly when their inputs became ready
        old(q).unmask_kappa_config is Some ==> final(q).unmask_kappa_config == old(q).unmask_kappa_config,
        old(q).unmask_kappa_config is None ==> {
            &&& (final(q).unmask_kappa_config is Some <==> final(q).kappa_masked is Some)
            &&& final(q).unmask_kappa_config is Some ==> {
                let c = final(q).unmask_kappa_config->Some_0;
                &&& c.operation_type_ref == IDkgTranscriptOperationRef::ReshareOfMasked(
                    final(q).kappa_masked->Some_0,
                )
                &&& c@.dealers == old(q).kappa_config@.receivers
                &&& c@.receivers == old(q).kappa_config@.receivers
                &&& c.registry_version == old(q).kappa_config.registry_version
                &&& c.algorithm_id == old(q).kappa_config.algorithm_id
                &&& c.transcript_id.source_subnet == old(uid_gen).subnet_id
                &&& c.transcript_id.source_height == old(uid_gen).height
                &&& c.transcript_id.id >= old(uid_gen).next_unused_transcript_id
            }
        },
        old(q).kappa_times_lambda_config is Some ==> final(q).kappa_times_lambda_config == old(q).kappa_times_lambda_config,
        old(q).kappa_times_lambda_config is None ==> {
            &&& (final(q).kappa_times_lambda_config is Some <==> final(q).kappa_unmasked is Some
                && final(q).lambda_masked is Some)
            &&& final(q).kappa_times_lambda_config is Some ==> {
                let c = final(q).kappa_times_lambda_config->Some_0;
                &&& c.operation_type_ref == IDkgTranscriptOperationRef::UnmaskedTimesMasked(
                    final(q).kappa_unmasked->Some_0,
                    final(q).lambda_masked->Some_0,
                )
                &&& c@.dealers == old(q).kappa_config@.receivers
                &&& c@.receivers == old(q).kappa_config@.receivers
                &&& c.registry_version == old(q).kappa_config.registry_version
                &&& c.algorithm_id == old(q).kappa_config.algorithm_id
                &&& c.transcript_id.source_subnet == old(uid_gen).subnet_id
                &&& c.transcript_id.source_height == old(uid_gen).height
                &&& c.transcript_id.id >= old(uid_gen).next_unused_transcript_id
            }
        },
        old(q).key_times_lambda_config is Some ==> final(q).key_times_lambda_config == old(q).key_times_lambda_config,
        old(q).key_times_lambda_config is None ==> {
            &&& (final(q).key_times_lambda_config is Some <==> key_transcript is Some && final(q).lambda_masked is Some)
            &&& final(q).key_times_lambda_config is Some ==> {
                let c = final(q).key_times_lambda_config->Some_0;
                &&& c.operation_type_ref == IDkgTranscriptOperationRef::UnmaskedTimesMasked(
                    key_transcript->Some_0,
                    final(q).lambda_masked->Some_0,
                )
                &&& c@.dealers == old(q).kappa_config@.receivers
                &&& c@.receivers == old(q).kappa_config@.receivers
                &&& c.registry_version == old(q).kappa_config.registry_version
                &&& c.algorithm_id == old(q).kappa_config.algorithm_id
                &&& c.transcript_id.source_subnet == old(uid_gen).subnet_id
                &&& c.transcript_id.source_height == old(uid_gen).height
                &&& c.transcript_id.id >= old(uid_gen).next_unused_transcript_id
            }
        },
        // the generator only moves forward, within this call's budget
        final(uid_gen).subnet_id == old(uid_gen).subnet_id,
        final(uid_gen).height == old(uid_gen).height,
        final(uid_gen).next_unused_quadruple_id == old(uid_gen).next_unused_quadruple_id,
        old(uid_gen).next_unused_transcript_id <= final(uid_gen).next_unused_transcript_id,
        final(uid_gen).next_unused_transcript_id <= old(uid_gen).next_unused_transcript_id + 3,
        // the requests handed back are exactly the configs created now, in
        // creation order
        ({
            let created = (if old(q).unmask_kappa_config is None && final(q).unmask_kappa_config
                is Some {
                seq![(final(q).unmask_kappa_config->Some_0)@]
            } else {
                Seq::empty()
            }) + (if old(q).kappa_times_lambda_config is None && final(q).kappa_times_lambda_config
                is Some {
                seq![(final(q).kappa_times_lambda_config->Some_0)@]
            } else {
                Seq::empty()
            }) + (if old(q).key_times_lambda_config is None && final(q).key_times_lambda_config
                is Some {
                seq![(final(q).key_times_lambda_config->Some_0)@]
            } else {
                Seq::empty()
            });
            &&& newly_requested@.len() == created.len()
            &&& forall|j: int|
                0 <= j < created.len() ==> (#[trigger] newly_requested@[j])@ == created[j]
        }),
{
    let ghost oq = *q;
    let mut newly_requested: Vec<IDkgTranscriptParamsRef> = Vec::new();

    // record completed transcripts against the outstanding requests
    if q.kappa_masked.is_none() {
        if let Some(t) = find_transcript(completed, q.kappa_config.transcript_id) {
            q.kappa_masked = MaskedTranscript::try_from(height, t);
            proof {
                lemma_unique_completed_masked(completed@, oq.kappa_config.transcript_id, *t);
            }
        }
    }
    if q.lambda_masked.is_none() {
        if let Some(t) = find_transcript(completed, q.lambda_config.transcript_id) {
            q.lambda_masked = MaskedTranscript::try_from(height, t);
            proof {
                lemma_unique_completed_masked(completed@, oq.lambda_config.transcript_id, *t);
            }
        }
    }
    if q.kappa_unmasked.is_none() {
        if let Some(c) = &q.unmask_kappa_config {
            if let Some(t) = find_transcript(completed, c.transcript_id) {
                proof {
                    lemma_unique_completed_unmasked(
                        completed@,
                        (oq.unmask_kappa_config->Some_0).transcript_id,
                        *t,
                    );
                }
                q.kappa_unmasked = UnmaskedTranscript::try_from(height, t);
            }
        }
    }
    if q.kappa_times_lambda.is_none() {
        if let Some(c) = &q.kappa_times_lambda_config {
            if let Some(t) = find_transcript(completed, c.transcript_id) {
                proof {
                    lemma_unique_completed_masked(
                        completed@,
                        (oq.kappa_times_lambda_config->Some_0).transcript_id,
                        *t,
                    );
                }
                q.kappa_times_lambda = MaskedTranscript::try_from(height, t);
            }
        }
    }
    if q.key_times_lambda.is_none() {
        if let Some(c) = &q.key_times_lambda_config {
            if let Some(t) = find_transcript(completed, c.transcript_id) {
                proof {
                    lemma_unique_completed_masked(
                        completed@,
                        (oq.key_times_lambda_config->Some_0).transcript_id,
                        *t,
                    );
                }
                q.key_times_lambda = MaskedTranscript::try_from(height, t);
            }
        }
    }

    // create the follow-up requests whose inputs are now complete
    if q.unmask_kappa_config.is_none() {
        if let Some(m) = q.kappa_masked {
            let c = IDkgTranscriptParamsRef {
                transcript_id: uid_gen.next_transcript_id(),
                dealers: crate::support::copy_list(&q.kappa_config.receivers),
                receivers: crate::support::copy_list(&q.kappa_config.receivers),
                registry_version: q.kappa_config.registry_version,
                algorithm_id: q.kappa_config.algorithm_id,
                operation_type_ref: IDkgTranscriptOperationRef::ReshareOfMasked(m),
            };
            newly_requested.push(c.duplicate());
            q.unmask_kappa_config = Some(c);
        }
    }
    if q.kappa_times_lambda_config.is_none() {
        if q.kappa_unmasked.is_some() && q.lambda_masked.is_some() {
            let u = q.kappa_unmasked.unwrap();
            let m = q.lambda_masked.unwrap();
            let c = IDkgTranscriptParamsRef {
                transcript_id: uid_gen.next_transcript_id(),
                dealers: crate::support::copy_list(&q.kappa_config.receivers),
                receivers: crate::support::copy_list(&q.kappa_config.receivers),
                registry_version: q.kappa_config.registry_version,
                algorithm_id: q.kappa_config.algorithm_id,
                operation_type_ref: IDkgTranscriptOperationRef::UnmaskedTimesMasked(u, m),
            };
            newly_requested.push(c.duplicate());
            q.kappa_times_lambda_config = Some(c);
        }
    }
    if q.key_times_lambda_config.is_none() {
        if key_transcript.is_some() && q.lambda_masked.is_some() {
            let k = key_transcript.unwrap();
            let m = q.lambda_masked.unwrap();
            let c = IDkgTranscriptParamsRef {
                transcript_id: uid_gen.next_transcript_id(),
                dealers: crate::support::copy_list(&q.kappa_config.receivers),
                receivers: crate::support::copy_list(&q.kappa_config.receivers),
                registry_version: q.kappa_config.registry_version,
                algorithm_id: q.kappa_config.algorithm_id,
                operation_type_ref: IDkgTranscriptOperationRef::UnmaskedTimesMasked(k, m),
            };
            newly_requested.push(c.duplicate());
            q.key_times_lambda_config = Some(c);
        }
    }

    newly_requested
}

/// With unique ids, the one transcript found under an id settles whether a
/// completed masked transcript with that id exists at all.
proof fn lemma_unique_completed_masked(s: Seq<IDkgTranscript>, id: crate::ids::IDkgTranscriptId, t: IDkgTranscript)
    requires
        spec_unique_transcript_ids(s),
        exists|i: int| 0 <= i < s.len() && t == s[i],
        t.transcript_id == id,
    ensures
        spec_has_completed_masked(s, id) <==> t.transcript_type is Masked,
{
    let i = choose|i: int| 0 <= i < s.len() && t == s[i];
    if spec_has_completed_masked(s, id) {
        let j = choose|j: int|
            0 <= j < s.len() && (#[trigger] s[j]).transcript_id == id && s[j].transcript_type is Masked;
        assert(i == j);
    }
}

/// With unique ids, the one transcript found under an id settles whether a
/// completed unmasked transcript with that id exists at all.
proof fn lemma_unique_completed_unmasked(s: Seq<IDkgTranscript>, id: crate::ids::IDkgTranscriptId, t: IDkgTranscript)
    requires
        spec_unique_transcript_ids(s),
        exists|i: int| 0 <= i < s.len() && t == s[i],
        t.transcript_id == id,
    ensures
        spec_has_completed_unmasked(s, id) <==> t.transcript_type is Unmasked,
{
    let i = choose|i: int| 0 <= i < s.len() && t == s[i];
    if spec_has_completed_unmasked(s, id) {
        let j = choose|j: int|
            0 <= j < s.len() && (#[trigger] s[j]).transcript_id == id && s[j].transcript_type is Unmasked;
        assert(i == j);
    }
}

/// A product transcript of a quadruple exists only after both of its factors:
/// once kappa-times-lambda is complete, kappa unmasked and lambda masked are
/// complete, and the product's request named exactly those two factors.
pub proof fn lemma_product_completes_after_factors(q: QuadrupleInCreation)
    requires
        q.well_formed(),
        q.kappa_times_lambda is Some,
    ensures
        q.kappa_unmasked is Some,
        q.lambda_masked is Some,
        q.kappa_times_lambda_config is Some,
        (q.kappa_times_lambda_config->Some_0).operation_type_ref
            == IDkgTranscriptOperationRef::UnmaskedTimesMasked(
            q.kappa_unmasked->Some_0,
            q.lambda_masked->Some_0,
        ),
{
}

/// The key-times-lambda product of a quadruple exists only after the lambda
/// factor is complete and its request named that factor.
pub proof fn lemma_key_product_completes_after_lambda(q: QuadrupleInCreation)
    requires
        q.well_formed(),
        q.key_times_lambda is Some,
    ensures
        q.lambda_masked is Some,
        q.key_times_lambda_config is Some,
        (q.key_times_lambda_config->Some_0).operation_type_ref matches
            IDkgTranscriptOperationRef::UnmaskedTimesMasked(_, m) && m == q.lambda_masked->Some_0,
{
}

} // verus!
