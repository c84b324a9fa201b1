//! The fault-recovery path around transcript loading: loading a batch of
//! transcripts and turning the defects the loader reports into signed
//! complaints for the pool.
//!
//! A fatal load failure aborts the whole batch with an empty change set;
//! recoverable defects contribute their complaints and the batch goes on.

use vstd::prelude::*;
use crate::messages::{
    BasicSignature, EcdsaChangeAction, EcdsaChangeSet, EcdsaComplaint, EcdsaComplaintContent,
    EcdsaComplaintView, EcdsaMessage, IDkgComplaint,
};
use crate::ids::NodeId;
use crate::pool::{EcdsaPool, EcdsaPoolView};
use crate::support::copy_list;
use crate::transcript::IDkgTranscript;

verus! {

/// What loading one transcript reported: a clean load, a fatal failure, or
/// recoverable defects with the complaints that prove them.
#[derive(Clone, PartialEq, Eq, Debug)]
pub enum TranscriptLoadStatus {
    Success,
    Failure,
    Complaints(Vec<EcdsaComplaint>),
}

/// Mathematical view of a load status.
pub ghost enum TranscriptLoadStatusView {
    Success,
    Failure,
    Complaints(Seq<EcdsaComplaintView>),
}

impl View for TranscriptLoadStatus {
    type V = TranscriptLoadStatusView;

    open spec fn view(&self) -> TranscriptLoadStatusView {
        match self {
            TranscriptLoadStatus::Success => TranscriptLoadStatusView::Success,
            TranscriptLoadStatus::Failure => TranscriptLoadStatusView::Failure,
            TranscriptLoadStatus::Complaints(cs) => TranscriptLoadStatusView::Complaints(
                cs@.map_values(|c: EcdsaComplaint| c@),
            ),
        }
    }
}

/// Loads transcripts into the local crypto state and reports defects.
///
/// The outcome is a function of the pool contents and the transcript, so
/// every honest replica reaches the same verdict from the same inputs.
pub trait EcdsaTranscriptLoader {
    /// The verdict this loader reaches on one transcript.
    spec fn spec_load(&self, pool: EcdsaPoolView, transcript: IDkgTranscript)
        -> TranscriptLoadStatusView;

    /// Loads one transcript, reading openings from the pool as needed.
    fn load_transcript(&self, ecdsa_pool: &EcdsaPool, transcript: &IDkgTranscript) -> (r:
        TranscriptLoadStatus)
        ensures
            r@ == self.spec_load(ecdsa_pool@, *transcript),
    ;
}

/// Fixed verdict a `StaticTranscriptLoader` hands out.
#[derive(Clone, Copy, PartialEq, Eq, Structural, Debug)]
pub enum StaticLoadOutcome {
    Success,
    Failure,
    Complain,
}

/// A loader with one fixed verdict for every transcript.
///
/// When the verdict is `Complain`, it emits one complaint per transcript,
/// signed by `complainer_id` against `dealer_id`, carrying the stored raw
/// material.
#[derive(Clone, PartialEq, Eq, Debug)]
pub struct StaticTranscriptLoader {
    pub outcome: StaticLoadOutcome,
    pub complainer_id: NodeId,
    pub dealer_id: NodeId,
    pub complaint_raw: Vec<u8>,
    pub signature_raw: Vec<u8>,
}

impl StaticTranscriptLoader {
    /// The complaint this loader raises against one transcript.
    pub open spec fn spec_complaint(&self, transcript: IDkgTranscript) -> EcdsaComplaintView {
        EcdsaComplaintView {
            idkg_complaint: crate::messages::IDkgComplaintView {
                transcript_id: transcript.transcript_id,
                dealer_id: self.dealer_id,
                internal_complaint_raw: self.complaint_raw@,
            },
            signature: crate::messages::BasicSignatureView {
                signer: self.complainer_id,
                signature_bytes: self.signature_raw@,
            },
        }
    }
}

impl EcdsaTranscriptLoader for StaticTranscriptLoader {
    open spec fn spec_load(&self, pool: EcdsaPoolView, transcript: IDkgTranscript)
        -> TranscriptLoadStatusView {
        match self.outcome {
            StaticLoadOutcome::Success => TranscriptLoadStatusView::Success,
            StaticLoadOutcome::Failure => TranscriptLoadStatusView::Failure,
            StaticLoadOutcome::Complain => TranscriptLoadStatusView::Complaints(
                seq![self.spec_complaint(transcript)],
            ),
        }
    }

    fn load_transcript(&self, ecdsa_pool: &EcdsaPool, transcript: &IDkgTranscript) -> (r:
        TranscriptLoadStatus)
    {
        match self.outcome {
            StaticLoadOutcome::Success => TranscriptLoadStatus::Success,
            StaticLoadOutcome::Failure => TranscriptLoadStatus::Failure,
            StaticLoadOutcome::Complain => {
                let complaint = EcdsaComplaint {
                    content: EcdsaComplaintContent {
                        idkg_complaint: IDkgComplaint {
                            transcript_id: transcript.transcript_id,
                            dealer_id: self.dealer_id,
                            internal_complaint_raw: copy_list(&self.complaint_raw),
                        },
                    },
                    signature: BasicSignature {
                        signer: self.complainer_id,
                        signature_bytes: copy_list(&self.signature_raw),
                    },
                };
                let r = TranscriptLoadStatus::Complaints(vec![complaint]);
                proof {
                    assert(r@->Complaints_0 =~= seq![self.spec_complaint(*transcript)]);
                }
                r
            },
        }
    }
}

/// The verdicts a loader would reach on each transcript of a batch.
pub open spec fn spec_statuses<L: EcdsaTranscriptLoader>(
    loader: L,
    pool: EcdsaPoolView,
    transcripts: Seq<IDkgTranscript>,
) -> Seq<TranscriptLoadStatusView> {
    Seq::new(transcripts.len(), |i: int| loader.spec_load(pool, transcripts[i]))
}

/// The complaints one verdict contributes.
pub open spec fn spec_status_complaints(s: TranscriptLoadStatusView) -> Seq<EcdsaComplaintView> {
    match s {
        TranscriptLoadStatusView::Complaints(cs) => cs,
        _ => Seq::empty(),
    }
}

/// All complaints a batch of verdicts contributes, in order.
pub open spec fn spec_all_complaints(statuses: Seq<TranscriptLoadStatusView>) -> Seq<
    EcdsaComplaintView,
>
    decreases statuses.len(),
{
    if statuses.len() == 0 {
        Seq::empty()
    } else {
        spec_all_complaints(statuses.drop_last()) + spec_status_complaints(statuses.last())
    }
}

/// Whether any verdict of the batch is a fatal failure.
pub open spec fn spec_any_failure(statuses: Seq<TranscriptLoadStatusView>) -> bool {
    exists|i: int| 0 <= i < statuses.len() && statuses[i] is Failure
}

/// The fault-recovery state of one (transcript, dealer) pair.
///
/// A pair is clean until a complaint is filed against the dealing; openings
/// then accumulate until each required receiver has supplied one; once the
/// openings let the transcript be checked or rebuilt without the faulty
/// share, the pair is resolved for good.
#[derive(Clone, Copy, PartialEq, Eq, Structural, Debug)]
pub enum ComplaintState {
    Clean,
    Complained { openings: u64 },
    Opened,
    Resolved,
}

/// How far along the recovery of a pair is; recovery only ever moves forward.
pub open spec fn spec_complaint_rank(s: ComplaintState) -> int {
    match s {
        ComplaintState::Clean => 0,
        ComplaintState::Complained { openings } => 1,
        ComplaintState::Opened => 2,
        ComplaintState::Resolved => 3,
    }
}

impl ComplaintState {
    /// Files a complaint against the pair: a clean pair starts collecting
    /// openings; every other state is unchanged (at most one complaint
    /// counts per pair).
    pub fn on_complaint(self) -> (r: Self)
        ensures
            self is Clean ==> r == (ComplaintState::Complained { openings: 0u64 }),
            !(self is Clean) ==> r == self,
            spec_complaint_rank(r) >= spec_complaint_rank(self),
    {
        match self {
            ComplaintState::Clean => ComplaintState::Complained { openings: 0 },
            other => other,
        }
    }

    /// Records one validated opening: the count grows until each of the
    /// `required` receivers has supplied one, and then the pair is opened.
    /// States without a pending complaint are unchanged.
    pub fn on_opening(self, required: u64) -> (r: Self)
        requires
            required > 0,
        ensures
            self matches ComplaintState::Complained { openings } ==> if openings + 1 < required {
                r == (ComplaintState::Complained { openings: (openings + 1) as u64 })
            } else {
                r == ComplaintState::Opened
            },
            !(self is Complained) ==> r == self,
            spec_complaint_rank(r) >= spec_complaint_rank(self),
    {
        match self {
            ComplaintState::Complained { openings } => {
                if openings >= required - 1 {
                    ComplaintState::Opened
                } else {
                    ComplaintState::Complained { openings: openings + 1 }
                }
            },
            other => other,
        }
    }

    /// Marks the pair resolved once its openings let the transcript be
    /// verified or rebuilt without the faulty dealer; terminal.
    pub fn on_resolution(self) -> (r: Self)
        ensures
            self is Opened ==> r == ComplaintState::Resolved,
            !(self is Opened) ==> r == self,
            spec_complaint_rank(r) >= spec_complaint_rank(self),
            self is Resolved ==> r is Resolved,
    {
        match self {
            ComplaintState::Opened => ComplaintState::Resolved,
            other => other,
        }
    }
}

/// Loads the given transcripts through the loader.
///
/// Returns `None` when every transcript loads cleanly and nothing complains.
/// Any fatal failure aborts the whole batch with an empty change set — even
/// complaints already collected from earlier transcripts are discarded.
/// Otherwise the change set adds one validated complaint per defect, in batch
/// order.
pub fn load_transcripts<L: EcdsaTranscriptLoader>(
    ecdsa_pool: &EcdsaPool,
    transcript_loader: &L,
    transcripts: &Vec<IDkgTranscript>,
) -> (r: Option<EcdsaChangeSet>)
    ensures
        ({
            let statuses = spec_statuses(*transcript_loader, ecdsa_pool@, transcripts@);
            let cs = spec_all_complaints(statuses);
            if spec_any_failure(statuses) {
                r matches Some(v) && v@.len() == 0
            } else if cs.len() == 0 {
                r is None
            } else {
                r matches Some(v) && v@.len() == cs.len() && (forall|j: int|
                    0 <= j < cs.len() ==> ((#[trigger] v@[j]) matches
                        EcdsaChangeAction::AddToValidated(EcdsaMessage::EcdsaComplaint(c))
                        && c@ == cs[j]))
            }
        }),
{
    let ghost statuses = spec_statuses(*transcript_loader, ecdsa_pool@, transcripts@);
    let mut new_complaints: Vec<EcdsaChangeAction> = Vec::new();
    let mut i: usize = 0;
    while i < transcripts.len()
        invariant
            statuses == spec_statuses(*transcript_loader, ecdsa_pool@, transcripts@),
            statuses.len() == transcripts@.len(),
            0 <= i <= transcripts@.len(),
            forall|j: int| 0 <= j < i ==> !((#[trigger] statuses[j]) is Failure),
            new_complaints@.len() == spec_all_complaints(statuses.take(i as int)).len(),
            forall|j: int|
                0 <= j < new_complaints@.len() ==> ((#[trigger] new_complaints@[j]) matches
                    EcdsaChangeAction::AddToValidated(EcdsaMessage::EcdsaComplaint(c))
                    && c@ == spec_all_complaints(statuses.take(i as int))[j]),
        decreases transcripts@.len() - i,
    {
        let status = transcript_loader.load_transcript(ecdsa_pool, &transcripts[i]);
        proof {
            assert(status@ == statuses[i as int]);
        }
        match status {
            TranscriptLoadStatus::Success => {},
            TranscriptLoadStatus::Failure => {
                proof {
                    assert(statuses[i as int] is Failure);
                }
                return Some(Vec::new());
            },
            TranscriptLoadStatus::Complaints(cs) => {
                let ghost base = spec_all_complaints(statuses.take(i as int));
                let ghost cs0 = cs@;
                let ghost mut kdone: int = 0;
                let mut cs = cs;
                while cs.len() > 0
                    invariant
                        0 <= kdone <= cs0.len(),
                        cs@ =~= cs0.skip(kdone),
                        new_complaints@.len() == base.len() + kdone,
                        forall|j: int|
                            0 <= j < base.len() ==> ((#[trigger] new_complaints@[j]) matches
                                EcdsaChangeAction::AddToValidated(EcdsaMessage::EcdsaComplaint(c))
                                && c@ == base[j]),
                        forall|j: int|
                            base.len() <= j < new_complaints@.len()
                                ==> ((#[trigger] new_complaints@[j]) matches
                                EcdsaChangeAction::AddToValidated(EcdsaMessage::EcdsaComplaint(c))
                                && c@ == cs0[j - base.len()]@),
                    decreases cs@.len(),
                {
                    let c = cs.remove(0);
                    proof {
                        assert(c == cs0[kdone]);
                    }
                    new_complaints.push(
                        EcdsaChangeAction::AddToValidated(EcdsaMessage::EcdsaComplaint(c)),
                    );
                    proof {
                        kdone = kdone + 1;
                        assert(cs@ =~= cs0.skip(kdone));
                    }
                }
                proof {
                    assert(kdone == cs0.len());
                    assert(spec_status_complaints(statuses[i as int]) =~= cs0.map_values(
                        |c: EcdsaComplaint| c@,
                    ));
                }
            },
        }
        proof {
            let taken = statuses.take(i as int + 1);
            assert(taken.drop_last() =~= statuses.take(i as int));
            assert(taken.last() == statuses[i as int]);
        }
        i = i + 1;
    }
    proof {
        assert(statuses.take(transcripts@.len() as int) =~= statuses);
    }
    if new_complaints.is_empty() {
        None
    } else {
        Some(new_complaints)
    }
}

} // verus!
