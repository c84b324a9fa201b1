//! Completing one transcript from validated dealings: the quorum rule, and
//! the check that a transcript's source transcripts are complete before it
//! can be built.
//!
//! A transcript is never fabricated from insufficient dealings — absence is
//! the correct answer until a quorum of distinct dealers has contributed and
//! every source the operation draws on is complete.

use vstd::prelude::*;
use crate::ids::{IDkgTranscriptId, NodeId};
use crate::messages::SignedIDkgDealing;
use crate::pre_signer::spec_has_dealing;
use crate::transcript::{
    find_transcript, spec_has_transcript, IDkgMaskedTranscriptOrigin, IDkgTranscript,
    IDkgTranscriptOperationRef, IDkgTranscriptParamsRef, IDkgTranscriptType,
    IDkgUnmaskedTranscriptOrigin,
};

verus! {

/// The quorum of contributors a transcript needs: with n parties and up to
/// f = (n-1)/3 faulty ones, 2f+1 dealings are required.
pub open spec fn spec_quorum(n: nat) -> int {
    if n == 0 {
        1
    } else {
        2 * ((n - 1) / 3) + 1
    }
}

/// Computes the quorum for a party-set size.
pub fn quorum(n: usize) -> (q: usize)
    requires
        n <= usize::MAX / 2,
    ensures
        q == spec_quorum(n as nat),
{
    if n == 0 {
        1
    } else {
        2 * ((n - 1) / 3) + 1
    }
}

/// The number of distinct dealers with a validated dealing for a transcript.
pub open spec fn spec_distinct_dealer_count(s: Seq<SignedIDkgDealing>, tid: IDkgTranscriptId) -> nat
    decreases s.len(),
{
    if s.len() == 0 {
        0
    } else {
        spec_distinct_dealer_count(s.drop_last(), tid) + (if s.last().content.transcript_id == tid
            && !spec_has_dealing(s.drop_last(), tid, s.last().signature.signer) {
            1nat
        } else {
            0nat
        })
    }
}

/// Whether every source transcript the operation draws on is complete.
pub open spec fn spec_sources_complete(
    op: IDkgTranscriptOperationRef,
    completed: Seq<IDkgTranscript>,
) -> bool {
    forall|k: int|
        0 <= k < op.spec_source_refs().len() ==> spec_has_transcript(
            completed,
            (#[trigger] op.spec_source_refs()[k]).transcript_id,
        )
}

/// The type of the transcript an operation produces: random and product
/// secrets stay masked, reshared secrets come out unmasked.
pub open spec fn spec_result_type(op: IDkgTranscriptOperationRef) -> IDkgTranscriptType {
    match op {
        IDkgTranscriptOperationRef::Random => IDkgTranscriptType::Masked(
            IDkgMaskedTranscriptOrigin::Random,
        ),
        IDkgTranscriptOperationRef::ReshareOfMasked(m) => IDkgTranscriptType::Unmasked(
            IDkgUnmaskedTranscriptOrigin::ReshareMasked(m.0.transcript_id),
        ),
        IDkgTranscriptOperationRef::ReshareOfUnmasked(u) => IDkgTranscriptType::Unmasked(
            IDkgUnmaskedTranscriptOrigin::ReshareUnmasked(u.0.transcript_id),
        ),
        IDkgTranscriptOperationRef::UnmaskedTimesMasked(u, m) => IDkgTranscriptType::Masked(
            IDkgMaskedTranscriptOrigin::UnmaskedTimesMasked(u.0.transcript_id, m.0.transcript_id),
        ),
    }
}

/// Whether a list of dealings holds one signed by the given dealer.
fn has_dealer(s: &Vec<SignedIDkgDealing>, dealer: NodeId) -> (b: bool)
    ensures
        b == exists|j: int| 0 <= j < s@.len() && (#[trigger] s@[j]).signature.signer == dealer,
{
    let mut i: usize = 0;
    while i < s.len()
        invariant
            0 <= i <= s@.len(),
            forall|j: int| 0 <= j < i ==> (#[trigger] s@[j]).signature.signer != dealer,
        decreases s@.len() - i,
    {
        if s[i].dealer_id() == dealer {
            return true;
        }
        i = i + 1;
    }
    false
}

/// Collects one validated dealing per dealer for the given transcript, in
/// order of first contribution.
fn collect_dealings(s: &Vec<SignedIDkgDealing>, tid: IDkgTranscriptId) -> (r: Vec<
    SignedIDkgDealing,
>)
    ensures
        r@.len() == spec_distinct_dealer_count(s@, tid),
        forall|i: int|
            0 <= i < r@.len() ==> (#[trigger] r@[i]).content.transcript_id == tid,
        forall|i: int, j: int|
            0 <= i < j < r@.len() ==> (#[trigger] r@[i]).signature.signer
                != (#[trigger] r@[j]).signature.signer,
        forall|i: int|
            0 <= i < r@.len() ==> exists|k: int|
                0 <= k < s@.len() && (#[trigger] r@[i])@ == (#[trigger] s@[k])@,
{
    let mut r: Vec<SignedIDkgDealing> = Vec::new();
    let mut k: usize = 0;
    while k < s.len()
        invariant
            0 <= k <= s@.len(),
            r@.len() == spec_distinct_dealer_count(s@.take(k as int), tid),
            forall|i: int|
                0 <= i < r@.len() ==> (#[trigger] r@[i]).content.transcript_id == tid,
            forall|i: int, j: int|
                0 <= i < j < r@.len() ==> (#[trigger] r@[i]).signature.signer
                    != (#[trigger] r@[j]).signature.signer,
            forall|i: int|
                0 <= i < r@.len() ==> exists|m: int|
                    0 <= m < s@.len() && (#[trigger] r@[i])@ == (#[trigger] s@[m])@,
            forall|dealer: NodeId|
                spec_has_dealing(s@.take(k as int), tid, dealer) <==> exists|i: int|
                    0 <= i < r@.len() && (#[trigger] r@[i]).signature.signer == dealer,
        decreases s@.len() - k,
    {
        let d = &s[k];
        let ghost old_r = r@;
        let is_tid = d.content.transcript_id == tid;
        if is_tid {
            if !has_dealer(&r, d.dealer_id()) {
                r.push(d.duplicate());
                proof {
                    assert(r@.last()@ == s@[k as int]@);
                }
            }
        }
        proof {
            let taken = s@.take(k as int + 1);
            assert(taken.drop_last() =~= s@.take(k as int));
            assert(taken.last() == s@[k as int]);
            assert forall|dealer: NodeId|
                spec_has_dealing(taken, tid, dealer) implies exists|i: int|
                0 <= i < r@.len() && (#[trigger] r@[i]).signature.signer == dealer by {
                let j = choose|j: int|
                    0 <= j < taken.len() && (#[trigger] taken[j]).content.transcript_id == tid
                        && taken[j].signature.signer == dealer;
                if j < k as int {
                    assert(s@.take(k as int)[j] == taken[j]);
                    assert(spec_has_dealing(s@.take(k as int), tid, dealer));
                    let i = choose|i: int|
                        0 <= i < old_r.len() && (#[trigger] old_r[i]).signature.signer == dealer;
                    assert(r@[i].signature.signer == dealer);
                } else {
                    assert(taken[j] == s@[k as int]);
                    if spec_has_dealing(s@.take(k as int), tid, dealer) {
                        let i = choose|i: int|
                            0 <= i < old_r.len() && (#[trigger] old_r[i]).signature.signer
                                == dealer;
                        assert(r@[i].signature.signer == dealer);
                    } else {
                        assert(r@.last().signature.signer == dealer);
                    }
                }
            }
            assert forall|dealer: NodeId|
                (exists|i: int| 0 <= i < r@.len() && (#[trigger] r@[i]).signature.signer == dealer)
                    implies spec_has_dealing(taken, tid, dealer) by {
                let i = choose|i: int|
                    0 <= i < r@.len() && (#[trigger] r@[i]).signature.signer == dealer;
                if i < old_r.len() {
                    assert(old_r[i].signature.signer == dealer);
                    assert(spec_has_dealing(s@.take(k as int), tid, dealer));
                    let j = choose|j: int|
                        0 <= j < k && (#[trigger] s@.take(k as int)[j]).content.transcript_id
                            == tid && s@.take(k as int)[j].signature.signer == dealer;
                    assert(taken[j].content.transcript_id == tid);
                } else {
                    assert(r@[i] == r@.last());
                    assert(r@[i].content.transcript_id == tid);
                    assert(taken[k as int].content.transcript_id == tid);
                    assert(taken[k as int].signature.signer == dealer);
                }
            }
        }
        k = k + 1;
    }
    proof {
        assert(s@.take(s@.len() as int) =~= s@);
    }
    r
}

/// Whether every source the operation draws on is complete.
fn sources_complete(
    params: &IDkgTranscriptParamsRef,
    completed: &Vec<IDkgTranscript>,
) -> (b: bool)
    ensures
        b == spec_sources_complete(params.operation_type_ref, completed@),
{
    let refs = params.operation_type_ref.source_refs();
    let mut k: usize = 0;
    while k < refs.len()
        invariant
            0 <= k <= refs@.len(),
            refs@ == params.operation_type_ref.spec_source_refs(),
            forall|j: int|
                0 <= j < k ==> spec_has_transcript(
                    completed@,
                    (#[trigger] refs@[j]).transcript_id,
                ),
        decreases refs@.len() - k,
    {
        if find_transcript(completed, refs[k].transcript_id).is_none() {
            return false;
        }
        k = k + 1;
    }
    true
}

/// Builds the transcript for one request from the validated dealings, once a
/// quorum of distinct dealers has contributed and every source transcript is
/// complete; absence is the correct answer before that.
///
/// The internal raw material of the result is the crypto engine's to fill;
/// the orchestration layer leaves it empty.
pub fn build_transcript(
    params: &IDkgTranscriptParamsRef,
    validated_dealings: &Vec<SignedIDkgDealing>,
    completed: &Vec<IDkgTranscript>,
) -> (r: Option<IDkgTranscript>)
    requires
        params.dealers@.len() <= usize::MAX / 2,
        params.receivers@.len() > 0,
        params.receivers@.no_duplicates(),
    ensures
        r is Some <==> (spec_sources_complete(params.operation_type_ref, completed@)
            && spec_distinct_dealer_count(validated_dealings@, params.transcript_id)
            >= spec_quorum(params.dealers@.len())),
        r matches Some(t) ==> {
            &&& t.transcript_id == params.transcript_id
            &&& t.receivers@ == params.receivers@
            &&& t.registry_version == params.registry_version
            &&& t.algorithm_id == params.algorithm_id
            &&& t.transcript_type == spec_result_type(params.operation_type_ref)
            &&& t.verified_dealings@.len() == spec_distinct_dealer_count(
                validated_dealings@,
                params.transcript_id,
            )
            &&& forall|i: int|
                0 <= i < t.verified_dealings@.len() ==> exists|k: int|
                    0 <= k < validated_dealings@.len() && (#[trigger] t.verified_dealings@[i])@
                        == (#[trigger] validated_dealings@[k])@
            &&& t.well_formed()
        },
{
    if !sources_complete(params, completed) {
        return None;
    }
    let dealings = collect_dealings(validated_dealings, params.transcript_id);
    if dealings.len() < quorum(params.dealers.len()) {
        return None;
    }
    let transcript_type = match &params.operation_type_ref {
        IDkgTranscriptOperationRef::Random => IDkgTranscriptType::Masked(
            IDkgMaskedTranscriptOrigin::Random,
        ),
        IDkgTranscriptOperationRef::ReshareOfMasked(m) => IDkgTranscriptType::Unmasked(
            IDkgUnmaskedTranscriptOrigin::ReshareMasked(m.0.transcript_id),
        ),
        IDkgTranscriptOperationRef::ReshareOfUnmasked(u) => IDkgTranscriptType::Unmasked(
            IDkgUnmaskedTranscriptOrigin::ReshareUnmasked(u.0.transcript_id),
        ),
        IDkgTranscriptOperationRef::UnmaskedTimesMasked(u, m) => IDkgTranscriptType::Masked(
            IDkgMaskedTranscriptOrigin::UnmaskedTimesMasked(u.0.transcript_id, m.0.transcript_id),
        ),
    };
    Some(
        IDkgTranscript {
            transcript_id: params.transcript_id,
            receivers: crate::support::copy_list(&params.receivers),
            registry_version: params.registry_version,
            verified_dealings: dealings,
            transcript_type,
            algorithm_id: params.algorithm_id,
            internal_transcript_raw: Vec::new(),
        },
    )
}

/// A product transcript can be built only after both of its factors are
/// complete: if the operation multiplies an unmasked and a masked transcript
/// and its sources are complete, each factor is among the completed
/// transcripts.
pub proof fn lemma_product_needs_both_factors(
    op: IDkgTranscriptOperationRef,
    completed: Seq<IDkgTranscript>,
)
    requires
        op is UnmaskedTimesMasked,
        spec_sources_complete(op, completed),
    ensures
        spec_has_transcript(completed, (op->UnmaskedTimesMasked_0).0.transcript_id),
        spec_has_transcript(completed, (op->UnmaskedTimesMasked_1).0.transcript_id),
{
    assert(op.spec_source_refs()[0] == (op->UnmaskedTimesMasked_0).0);
    assert(op.spec_source_refs()[1] == (op->UnmaskedTimesMasked_1).0);
}

/// Access to what the builder has produced so far: the completed transcripts
/// and the validated dealings they grew from.
pub struct EcdsaTranscriptBuilder {
    pub completed: Vec<IDkgTranscript>,
    pub validated_dealings: Vec<SignedIDkgDealing>,
}

impl EcdsaTranscriptBuilder {
    /// A builder with nothing completed and no dealings yet.
    pub fn new() -> (r: Self)
        ensures
            r.completed@.len() == 0,
            r.validated_dealings@.len() == 0,
    {
        EcdsaTranscriptBuilder { completed: Vec::new(), validated_dealings: Vec::new() }
    }

    /// The completed transcript for an id, once enough validated dealings
    /// exist; absence is the correct answer, never a fabricated transcript.
    pub fn get_completed_transcript(&self, transcript_id: IDkgTranscriptId) -> (r: Option<
        &IDkgTranscript,
    >)
        ensures
            match r {
                Some(t) => {
                    &&& spec_has_transcript(self.completed@, transcript_id)
                    &&& t.transcript_id == transcript_id
                    &&& exists|i: int| 0 <= i < self.completed@.len() && *t == self.completed@[i]
                },
                None => !spec_has_transcript(self.completed@, transcript_id),
            },
    {
        find_transcript(&self.completed, transcript_id)
    }

    /// The validated dealings collected so far for an id, one per dealer, in
    /// order of first contribution.
    pub fn get_validated_dealings(&self, transcript_id: IDkgTranscriptId) -> (r: Vec<
        SignedIDkgDealing,
    >)
        ensures
            r@.len() == spec_distinct_dealer_count(self.validated_dealings@, transcript_id),
            forall|i: int|
                0 <= i < r@.len() ==> (#[trigger] r@[i]).content.transcript_id == transcript_id,
            forall|i: int, j: int|
                0 <= i < j < r@.len() ==> (#[trigger] r@[i]).signature.signer
                    != (#[trigger] r@[j]).signature.signer,
    {
        collect_dealings(&self.validated_dealings, transcript_id)
    }
}

} // verus!
