//! Per-round dealing work: deciding whether the local replica must deal, and
//! validating the dealings peers placed in the unvalidated pool.
//!
//! Validation is idempotent per (transcript, dealer): a dealer can never end
//! up with two validated dealings for one transcript — a duplicate of an
//! already validated dealing, or a second copy inside one batch, is handled
//! as invalid rather than ignored, to bound pool growth.

use vstd::prelude::*;
use crate::ids::{IDkgTranscriptId, NodeId};
use crate::messages::{
    BasicSignature, EcdsaChangeAction, EcdsaChangeSet, EcdsaMessage, EcdsaMessageId, IDkgDealing,
    IDkgDealingSupport, InvalidReason, SignedIDkgDealing,
};
use crate::transcript::IDkgTranscriptParamsRef;

verus! {

/// Whether a list of dealings holds one for the given transcript by the
/// given dealer.
pub open spec fn spec_has_dealing(
    s: Seq<SignedIDkgDealing>,
    tid: IDkgTranscriptId,
    dealer: NodeId,
) -> bool {
    exists|k: int|
        0 <= k < s.len() && (#[trigger] s[k]).content.transcript_id == tid && s[k].signature.signer
            == dealer
}

/// Whether one of the requested transcripts has the given id.
pub open spec fn spec_requested_id(s: Seq<IDkgTranscriptParamsRef>, tid: IDkgTranscriptId) -> bool {
    exists|k: int| 0 <= k < s.len() && (#[trigger] s[k]).transcript_id == tid
}

/// Whether the requested transcript with the given id names this dealer.
pub open spec fn spec_dealer_allowed(
    s: Seq<IDkgTranscriptParamsRef>,
    tid: IDkgTranscriptId,
    dealer: NodeId,
) -> bool {
    exists|k: int|
        0 <= k < s.len() && (#[trigger] s[k]).transcript_id == tid && s[k].dealers@.contains(dealer)
}

/// No two requested transcripts share an id.
pub open spec fn spec_unique_request_ids(s: Seq<IDkgTranscriptParamsRef>) -> bool {
    forall|i: int, j: int|
        0 <= i < j < s.len() ==> (#[trigger] s[i]).transcript_id != (#[trigger] s[j]).transcript_id
}

/// The actions one unvalidated dealing earns.
///
/// A dealing for a transcript nobody requested is deferred (no action); one
/// from a dealer outside the transcript's dealer set, or one whose
/// (transcript, dealer) key is already validated or already seen earlier in
/// the batch, is invalid; the rest move to validated.
pub open spec fn spec_dealing_actions(
    requested: Seq<IDkgTranscriptParamsRef>,
    validated: Seq<SignedIDkgDealing>,
    earlier: Seq<SignedIDkgDealing>,
    d: SignedIDkgDealing,
) -> Seq<EcdsaChangeAction> {
    let tid = d.content.transcript_id;
    let dealer = d.signature.signer;
    let key = EcdsaMessageId::Dealing { transcript_id: tid, dealer_id: dealer };
    if !spec_requested_id(requested, tid) {
        Seq::empty()
    } else if !spec_dealer_allowed(requested, tid, dealer) {
        seq![EcdsaChangeAction::HandleInvalid(key, InvalidReason::DealerNotInDealerSet)]
    } else if spec_has_dealing(validated, tid, dealer) || spec_has_dealing(earlier, tid, dealer) {
        seq![EcdsaChangeAction::HandleInvalid(key, InvalidReason::DuplicateDealing)]
    } else {
        seq![EcdsaChangeAction::MoveToValidated(key)]
    }
}

/// The change set a whole batch of unvalidated dealings earns, in order.
pub open spec fn spec_dealing_batch_actions(
    requested: Seq<IDkgTranscriptParamsRef>,
    validated: Seq<SignedIDkgDealing>,
    batch: Seq<SignedIDkgDealing>,
) -> Seq<EcdsaChangeAction>
    decreases batch.len(),
{
    if batch.len() == 0 {
        Seq::empty()
    } else {
        spec_dealing_batch_actions(requested, validated, batch.drop_last())
            + spec_dealing_actions(requested, validated, batch.drop_last(), batch.last())
    }
}

/// Whether a list of dealings holds one for this transcript and dealer.
fn has_dealing_upto(s: &Vec<SignedIDkgDealing>, upto: usize, tid: IDkgTranscriptId, dealer: NodeId) -> (b:
    bool)
    requires
        upto <= s@.len(),
    ensures
        b == spec_has_dealing(s@.take(upto as int), tid, dealer),
{
    let mut k: usize = 0;
    while k < upto
        invariant
            0 <= k <= upto <= s@.len(),
            forall|j: int|
                0 <= j < k ==> !((#[trigger] s@[j]).content.transcript_id == tid
                    && s@[j].signature.signer == dealer),
        decreases upto - k,
    {
        let hit = s[k].content.transcript_id == tid && s[k].signature.signer == dealer;
        if hit {
            proof {
                assert(s@.take(upto as int)[k as int] == s@[k as int]);
            }
            return true;
        }
        k = k + 1;
    }
    proof {
        if spec_has_dealing(s@.take(upto as int), tid, dealer) {
            let j = choose|j: int|
                0 <= j < upto && (#[trigger] s@.take(upto as int)[j]).content.transcript_id == tid
                    && s@.take(upto as int)[j].signature.signer == dealer;
            assert(s@[j] == s@.take(upto as int)[j]);
        }
    }
    false
}

/// Finds the requested transcript with the given id.
fn find_request(s: &Vec<IDkgTranscriptParamsRef>, tid: IDkgTranscriptId) -> (r: Option<
    &IDkgTranscriptParamsRef,
>)
    ensures
        match r {
            Some(p) => {
                &&& spec_requested_id(s@, tid)
                &&& p.transcript_id == tid
                &&& exists|k: int| 0 <= k < s@.len() && *p == s@[k]
            },
            None => !spec_requested_id(s@, tid),
        },
{
    let mut k: usize = 0;
    while k < s.len()
        invariant
            0 <= k <= s@.len(),
            forall|j: int| 0 <= j < k ==> (#[trigger] s@[j]).transcript_id != tid,
        decreases s@.len() - k,
    {
        if s[k].transcript_id == tid {
            return Some(&s[k]);
        }
        k = k + 1;
    }
    None
}

/// Whether a list of nodes holds the given one.
pub fn contains_node(s: &Vec<NodeId>, node: NodeId) -> (b: bool)
    ensures
        b == s@.contains(node),
{
    let mut k: usize = 0;
    while k < s.len()
        invariant
            0 <= k <= s@.len(),
            forall|j: int| 0 <= j < k ==> s@[j] != node,
        decreases s@.len() - k,
    {
        if s[k] == node {
            return true;
        }
        k = k + 1;
    }
    false
}

/// Validates a batch of unvalidated dealings against the requested
/// transcripts and the already validated dealings, in batch order.
pub fn validate_dealings(
    requested: &Vec<IDkgTranscriptParamsRef>,
    validated: &Vec<SignedIDkgDealing>,
    unvalidated: &Vec<SignedIDkgDealing>,
) -> (cs: EcdsaChangeSet)
    requires
        spec_unique_request_ids(requested@),
    ensures
        cs@ == spec_dealing_batch_actions(requested@, validated@, unvalidated@),
{
    let mut cs: EcdsaChangeSet = Vec::new();
    let mut i: usize = 0;
    while i < unvalidated.len()
        invariant
            spec_unique_request_ids(requested@),
            0 <= i <= unvalidated@.len(),
            cs@ =~= spec_dealing_batch_actions(requested@, validated@, unvalidated@.take(i as int)),
        decreases unvalidated@.len() - i,
    {
        let d = &unvalidated[i];
        let tid = d.content.transcript_id;
        let dealer = d.dealer_id();
        let id = EcdsaMessageId::Dealing { transcript_id: tid, dealer_id: dealer };
        match find_request(requested, tid) {
            None => {},
            Some(params) => {
                proof {
                    let k = choose|k: int| 0 <= k < requested@.len() && *params == requested@[k];
                    if spec_dealer_allowed(requested@, tid, dealer) {
                        let k2 = choose|k2: int|
                            0 <= k2 < requested@.len() && (#[trigger] requested@[k2]).transcript_id
                                == tid && requested@[k2].dealers@.contains(dealer);
                        assert(k == k2);
                    }
                }
                if !contains_node(&params.dealers, dealer) {
                    cs.push(EcdsaChangeAction::HandleInvalid(id, InvalidReason::DealerNotInDealerSet));
                } else if has_dealing_upto(validated, validated.len(), tid, dealer) || has_dealing_upto(
                    unvalidated,
                    i,
                    tid,
                    dealer,
                ) {
                    proof {
                        assert(validated@.take(validated@.len() as int) =~= validated@);
                    }
                    cs.push(EcdsaChangeAction::HandleInvalid(id, InvalidReason::DuplicateDealing));
                } else {
                    proof {
                        assert(validated@.take(validated@.len() as int) =~= validated@);
                    }
                    cs.push(EcdsaChangeAction::MoveToValidated(id));
                }
            },
        }
        proof {
            let taken = unvalidated@.take(i as int + 1);
            assert(taken.drop_last() =~= unvalidated@.take(i as int));
            assert(taken.last() == unvalidated@[i as int]);
        }
        i = i + 1;
    }
    proof {
        assert(unvalidated@.take(unvalidated@.len() as int) =~= unvalidated@);
    }
    cs
}

/// Whether a list of supports holds one for this dealing from this signer.
pub open spec fn spec_has_support(
    s: Seq<IDkgDealingSupport>,
    tid: IDkgTranscriptId,
    dealer: NodeId,
    signer: NodeId,
) -> bool {
    exists|k: int|
        0 <= k < s.len() && (#[trigger] s[k]).transcript_id == tid && s[k].dealer_id == dealer
            && s[k].sig_share.signer == signer
}

/// Whether the requested transcript with the given id names this receiver.
pub open spec fn spec_receiver_allowed(
    s: Seq<IDkgTranscriptParamsRef>,
    tid: IDkgTranscriptId,
    receiver: NodeId,
) -> bool {
    exists|k: int|
        0 <= k < s.len() && (#[trigger] s[k]).transcript_id == tid && s[k].receivers@.contains(
            receiver,
        )
}

/// The actions one unvalidated support earns.
///
/// A support for an unrequested transcript, or for a dealing not yet
/// validated locally, is deferred; one signed by a node outside the
/// transcript's receiver set, or a second support from the same signer for
/// the same dealing, is invalid; the rest move to validated.
pub open spec fn spec_support_actions(
    requested: Seq<IDkgTranscriptParamsRef>,
    validated_dealings: Seq<SignedIDkgDealing>,
    validated_supports: Seq<IDkgDealingSupport>,
    earlier: Seq<IDkgDealingSupport>,
    sup: IDkgDealingSupport,
) -> Seq<EcdsaChangeAction> {
    let key = EcdsaMessageId::Support {
        transcript_id: sup.transcript_id,
        dealer_id: sup.dealer_id,
        signer: sup.sig_share.signer,
    };
    if !spec_requested_id(requested, sup.transcript_id) || !spec_has_dealing(
        validated_dealings,
        sup.transcript_id,
        sup.dealer_id,
    ) {
        Seq::empty()
    } else if !spec_receiver_allowed(requested, sup.transcript_id, sup.sig_share.signer) {
        seq![EcdsaChangeAction::HandleInvalid(key, InvalidReason::SignerNotInReceiverSet)]
    } else if spec_has_support(
        validated_supports,
        sup.transcript_id,
        sup.dealer_id,
        sup.sig_share.signer,
    ) || spec_has_support(earlier, sup.transcript_id, sup.dealer_id, sup.sig_share.signer) {
        seq![EcdsaChangeAction::HandleInvalid(key, InvalidReason::DuplicateSupport)]
    } else {
        seq![EcdsaChangeAction::MoveToValidated(key)]
    }
}

/// The change set a whole batch of unvalidated supports earns, in order.
pub open spec fn spec_support_batch_actions(
    requested: Seq<IDkgTranscriptParamsRef>,
    validated_dealings: Seq<SignedIDkgDealing>,
    validated_supports: Seq<IDkgDealingSupport>,
    batch: Seq<IDkgDealingSupport>,
) -> Seq<EcdsaChangeAction>
    decreases batch.len(),
{
    if batch.len() == 0 {
        Seq::empty()
    } else {
        spec_support_batch_actions(requested, validated_dealings, validated_supports, batch.drop_last())
            + spec_support_actions(
            requested,
            validated_dealings,
            validated_supports,
            batch.drop_last(),
            batch.last(),
        )
    }
}

/// Whether the prefix of a support list holds one for this dealing from this
/// signer.
fn has_support_upto(
    s: &Vec<IDkgDealingSupport>,
    upto: usize,
    tid: IDkgTranscriptId,
    dealer: NodeId,
    signer: NodeId,
) -> (b: bool)
    requires
        upto <= s@.len(),
    ensures
        b == spec_has_support(s@.take(upto as int), tid, dealer, signer),
{
    let mut k: usize = 0;
    while k < upto
        invariant
            0 <= k <= upto <= s@.len(),
            forall|j: int|
                0 <= j < k ==> !((#[trigger] s@[j]).transcript_id == tid && s@[j].dealer_id
                    == dealer && s@[j].sig_share.signer == signer),
        decreases upto - k,
    {
        let hit = s[k].transcript_id == tid && s[k].dealer_id == dealer && s[k].sig_share.signer
            == signer;
        if hit {
            proof {
                assert(s@.take(upto as int)[k as int] == s@[k as int]);
            }
            return true;
        }
        k = k + 1;
    }
    proof {
        if spec_has_support(s@.take(upto as int), tid, dealer, signer) {
            let j = choose|j: int|
                0 <= j < upto && (#[trigger] s@.take(upto as int)[j]).transcript_id == tid
                    && s@.take(upto as int)[j].dealer_id == dealer && s@.take(upto as int)[
                j].sig_share.signer == signer;
            assert(s@[j] == s@.take(upto as int)[j]);
        }
    }
    false
}

/// Validates a batch of unvalidated supports against the requested
/// transcripts, the validated dealings they must reference, and the already
/// validated supports, in batch order.
pub fn validate_dealing_supports(
    requested: &Vec<IDkgTranscriptParamsRef>,
    validated_dealings: &Vec<SignedIDkgDealing>,
    validated_supports: &Vec<IDkgDealingSupport>,
    unvalidated: &Vec<IDkgDealingSupport>,
) -> (cs: EcdsaChangeSet)
    requires
        spec_unique_request_ids(requested@),
    ensures
        cs@ == spec_support_batch_actions(
            requested@,
            validated_dealings@,
            validated_supports@,
            unvalidated@,
        ),
{
    let mut cs: EcdsaChangeSet = Vec::new();
    let mut i: usize = 0;
    while i < unvalidated.len()
        invariant
            spec_unique_request_ids(requested@),
            0 <= i <= unvalidated@.len(),
            cs@ =~= spec_support_batch_actions(
                requested@,
                validated_dealings@,
                validated_supports@,
                unvalidated@.take(i as int),
            ),
        decreases unvalidated@.len() - i,
    {
        let sup = &unvalidated[i];
        let tid = sup.transcript_id;
        let dealer = sup.dealer_id;
        let signer = sup.sig_share.signer;
        let key = EcdsaMessageId::Support { transcript_id: tid, dealer_id: dealer, signer };
        let dealing_known = has_dealing_upto(validated_dealings, validated_dealings.len(), tid, dealer);
        proof {
            assert(validated_dealings@.take(validated_dealings@.len() as int)
                =~= validated_dealings@);
        }
        match find_request(requested, tid) {
            None => {},
            Some(params) => {
                if dealing_known {
                    proof {
                        let k = choose|k: int|
                            0 <= k < requested@.len() && *params == requested@[k];
                        if spec_receiver_allowed(requested@, tid, signer) {
                            let k2 = choose|k2: int|
                                0 <= k2 < requested@.len() && (#[trigger] requested@[
                                k2]).transcript_id == tid && requested@[k2].receivers@.contains(
                                    signer,
                                );
                            assert(k == k2);
                        }
                    }
                    if !contains_node(&params.receivers, signer) {
                        cs.push(
                            EcdsaChangeAction::HandleInvalid(
                                key,
                                InvalidReason::SignerNotInReceiverSet,
                            ),
                        );
                    } else if has_support_upto(
                        validated_supports,
                        validated_supports.len(),
                        tid,
                        dealer,
                        signer,
                    ) || has_support_upto(unvalidated, i, tid, dealer, signer) {
                        proof {
                            assert(validated_supports@.take(validated_supports@.len() as int)
                                =~= validated_supports@);
                        }
                        cs.push(
                            EcdsaChangeAction::HandleInvalid(key, InvalidReason::DuplicateSupport),
                        );
                    } else {
                        proof {
                            assert(validated_supports@.take(validated_supports@.len() as int)
                                =~= validated_supports@);
                        }
                        cs.push(EcdsaChangeAction::MoveToValidated(key));
                    }
                }
            },
        }
        proof {
            let taken = unvalidated@.take(i as int + 1);
            assert(taken.drop_last() =~= unvalidated@.take(i as int));
            assert(taken.last() == unvalidated@[i as int]);
        }
        i = i + 1;
    }
    proof {
        assert(unvalidated@.take(unvalidated@.len() as int) =~= unvalidated@);
    }
    cs
}

/// Whether the local replica should deal for a requested transcript: it is a
/// designated dealer and has not dealt yet.
pub fn should_deal(
    node_id: NodeId,
    params: &IDkgTranscriptParamsRef,
    validated: &Vec<SignedIDkgDealing>,
) -> (b: bool)
    ensures
        b == (params.dealers@.contains(node_id) && !spec_has_dealing(
            validated@,
            params.transcript_id,
            node_id,
        )),
{
    let dealt = has_dealing_upto(validated, validated.len(), params.transcript_id, node_id);
    proof {
        assert(validated@.take(validated@.len() as int) =~= validated@);
    }
    contains_node(&params.dealers, node_id) && !dealt
}

/// Wraps the dealing the crypto engine produced for this replica into the
/// change action that adds it to the validated pool.
pub fn create_dealing_action(
    node_id: NodeId,
    transcript_id: IDkgTranscriptId,
    internal_dealing_raw: Vec<u8>,
    signature_bytes: Vec<u8>,
) -> (a: EcdsaChangeAction)
    ensures
        a matches EcdsaChangeAction::AddToValidated(EcdsaMessage::EcdsaSignedDealing(d)) && {
            &&& d.content.transcript_id == transcript_id
            &&& d.content.internal_dealing_raw == internal_dealing_raw
            &&& d.signature.signer == node_id
            &&& d.signature.signature_bytes == signature_bytes
        },
{
    EcdsaChangeAction::AddToValidated(
        EcdsaMessage::EcdsaSignedDealing(
            SignedIDkgDealing {
                content: IDkgDealing { transcript_id, internal_dealing_raw },
                signature: BasicSignature { signer: node_id, signature_bytes },
            },
        ),
    )
}

/// Dealing validation is idempotent per (transcript, dealer): the batch never
/// moves two dealings with the same key to validated, and never moves one
/// whose key is already validated.
pub proof fn lemma_dealing_validation_idempotent(
    requested: Seq<IDkgTranscriptParamsRef>,
    validated: Seq<SignedIDkgDealing>,
    batch: Seq<SignedIDkgDealing>,
)
    ensures
        ({
            let cs = spec_dealing_batch_actions(requested, validated, batch);
            forall|i: int, j: int|
                0 <= i < j < cs.len() && (#[trigger] cs[i]) is MoveToValidated && (#[trigger] cs[j])
                    is MoveToValidated ==> cs[i]->MoveToValidated_0 != cs[j]->MoveToValidated_0
        }),
    decreases batch.len(),
{
    if batch.len() > 0 {
        lemma_dealing_validation_idempotent(requested, validated, batch.drop_last());
        let pre = spec_dealing_batch_actions(requested, validated, batch.drop_last());
        let cs = spec_dealing_batch_actions(requested, validated, batch);
        let d = batch.last();
        let tid = d.content.transcript_id;
        let dealer = d.signature.signer;
        lemma_moves_are_fresh(requested, validated, batch.drop_last());
        assert forall|i: int, j: int|
            0 <= i < j < cs.len() && (#[trigger] cs[i]) is MoveToValidated && (#[trigger] cs[j])
                is MoveToValidated implies cs[i]->MoveToValidated_0 != cs[j]->MoveToValidated_0 by {
            if j < pre.len() {
                assert(cs[i] == pre[i] && cs[j] == pre[j]);
            } else {
                let acts = spec_dealing_actions(requested, validated, batch.drop_last(), d);
                assert(cs[i] == pre[i]);
                assert(cs[j] == acts[j - pre.len()]);
                // cs[j] moves d, so d's key was not seen earlier in the batch
                assert(!spec_has_dealing(batch.drop_last(), tid, dealer));
                // while every earlier move carries a key seen earlier in the batch
                let (tid2, dealer2) = choose|tid2: IDkgTranscriptId, dealer2: NodeId|
                    {
                        &&& pre[i]->MoveToValidated_0 == (EcdsaMessageId::Dealing {
                            transcript_id: tid2,
                            dealer_id: dealer2,
                        })
                        &&& !spec_has_dealing(validated, tid2, dealer2)
                        &&& #[trigger] spec_has_dealing(batch.drop_last(), tid2, dealer2)
                    };
                assert(cs[i]->MoveToValidated_0 != cs[j]->MoveToValidated_0);
            }
        }
    }
}

/// Dealing validation only ever moves artifacts or rejects them.
proof fn lemma_dealing_actions_kinds(
    requested: Seq<IDkgTranscriptParamsRef>,
    validated: Seq<SignedIDkgDealing>,
    batch: Seq<SignedIDkgDealing>,
)
    ensures
        ({
            let cs = spec_dealing_batch_actions(requested, validated, batch);
            forall|i: int|
                0 <= i < cs.len() ==> (#[trigger] cs[i]) is MoveToValidated || cs[i]
                    is HandleInvalid
        }),
    decreases batch.len(),
{
    if batch.len() > 0 {
        lemma_dealing_actions_kinds(requested, validated, batch.drop_last());
    }
}

/// A dealer cannot end up with two distinct validated dealings for the same
/// transcript: if the pool's validated dealings are keyed uniquely, and the
/// given dealings list covers them, then after the driver applies the change
/// set that dealing validation earns, the validated dealings are still keyed
/// uniquely.
pub proof fn lemma_dealer_never_gets_two_validated_dealings(
    p: crate::pool::EcdsaPoolView,
    requested: Seq<IDkgTranscriptParamsRef>,
    validated_dealings: Seq<SignedIDkgDealing>,
    batch: Seq<SignedIDkgDealing>,
)
    requires
        crate::pool::spec_unique_dealing_ids(p.validated),
        forall|tid: IDkgTranscriptId, dealer: NodeId| #[trigger]
            crate::pool::spec_has_dealing_id(
                p.validated,
                EcdsaMessageId::Dealing { transcript_id: tid, dealer_id: dealer },
            ) ==> spec_has_dealing(validated_dealings, tid, dealer),
    ensures
        crate::pool::spec_unique_dealing_ids(
            crate::pool::spec_apply_all(
                p,
                spec_dealing_batch_actions(requested, validated_dealings, batch),
            ).validated,
        ),
{
    let actions = spec_dealing_batch_actions(requested, validated_dealings, batch);
    lemma_dealing_validation_idempotent(requested, validated_dealings, batch);
    lemma_moves_are_fresh(requested, validated_dealings, batch);
    lemma_dealing_actions_kinds(requested, validated_dealings, batch);
    assert forall|i: int| 0 <= i < actions.len() implies match #[trigger] actions[i] {
        EcdsaChangeAction::MoveToValidated(id) => id is Dealing
            ==> !crate::pool::spec_has_dealing_id(p.validated, id),
        _ => true,
    } by {
        if actions[i] is MoveToValidated {
            let (tid, dealer) = choose|tid: IDkgTranscriptId, dealer: NodeId|
                {
                    &&& actions[i]->MoveToValidated_0 == (EcdsaMessageId::Dealing {
                        transcript_id: tid,
                        dealer_id: dealer,
                    })
                    &&& !spec_has_dealing(validated_dealings, tid, dealer)
                    &&& #[trigger] spec_has_dealing(batch, tid, dealer)
                };
        }
    }
    crate::pool::lemma_unique_dealings_preserved(p, actions);
}

/// Every move the batch proposes carries a key that is neither validated yet
/// nor seen earlier in the batch.
proof fn lemma_moves_are_fresh(
    requested: Seq<IDkgTranscriptParamsRef>,
    validated: Seq<SignedIDkgDealing>,
    batch: Seq<SignedIDkgDealing>,
)
    ensures
        ({
            let cs = spec_dealing_batch_actions(requested, validated, batch);
            forall|i: int|
                0 <= i < cs.len() && (#[trigger] cs[i]) is MoveToValidated
                    ==> exists|tid: IDkgTranscriptId, dealer: NodeId|
                    {
                        &&& cs[i]->MoveToValidated_0 == (EcdsaMessageId::Dealing {
                            transcript_id: tid,
                            dealer_id: dealer,
                        })
                        &&& !spec_has_dealing(validated, tid, dealer)
                        &&& #[trigger] spec_has_dealing(batch, tid, dealer)
                    }
        }),
    decreases batch.len(),
{
    if batch.len() > 0 {
        lemma_moves_are_fresh(requested, validated, batch.drop_last());
        let pre = spec_dealing_batch_actions(requested, validated, batch.drop_last());
        let cs = spec_dealing_batch_actions(requested, validated, batch);
        let d = batch.last();
        assert forall|i: int|
            0 <= i < cs.len() && (#[trigger] cs[i]) is MoveToValidated implies
            exists|tid: IDkgTranscriptId, dealer: NodeId|
                {
                    &&& cs[i]->MoveToValidated_0 == (EcdsaMessageId::Dealing {
                        transcript_id: tid,
                        dealer_id: dealer,
                    })
                    &&& !spec_has_dealing(validated, tid, dealer)
                    &&& #[trigger] spec_has_dealing(batch, tid, dealer)
                } by {
            if i < pre.len() {
                assert(cs[i] == pre[i]);
                let (tid, dealer) = choose|tid: IDkgTranscriptId, dealer: NodeId|
                    {
                        &&& pre[i]->MoveToValidated_0 == (EcdsaMessageId::Dealing {
                            transcript_id: tid,
                            dealer_id: dealer,
                        })
                        &&& !spec_has_dealing(validated, tid, dealer)
                        &&& #[trigger] spec_has_dealing(batch.drop_last(), tid, dealer)
                    };
                let earlier = batch.drop_last();
                let k = choose|k: int|
                    0 <= k < earlier.len() && (#[trigger] earlier[k]).content.transcript_id == tid
                        && earlier[k].signature.signer == dealer;
                assert(batch[k] == earlier[k]);
                assert(spec_has_dealing(batch, tid, dealer));
            } else {
                let tid = d.content.transcript_id;
                let dealer = d.signature.signer;
                assert(cs[i] == spec_dealing_actions(requested, validated, batch.drop_last(), d)[i
                    - pre.len()]);
                assert(batch[batch.len() - 1] == d);
                assert(spec_has_dealing(batch, tid, dealer));
            }
        }
    }
}

} // verus!
