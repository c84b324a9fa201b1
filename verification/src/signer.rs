//! Per-round signature work: creating the local replica's share for each
//! requested signature, validating peers' shares, and deciding when enough
//! shares exist.
//!
//! A request's validated shares only ever grow until its agreement is
//! recorded; once agreed, every further share for that request is rejected as
//! stale, never accepted.

use vstd::prelude::*;
use crate::ids::{NodeId, RequestId};
use crate::messages::{
    EcdsaChangeAction, EcdsaChangeSet, EcdsaMessage, EcdsaMessageId, EcdsaSigShare, InvalidReason,
    ThresholdEcdsaCombinedSignature, ThresholdEcdsaSigShare,
};
use crate::payload::CompletedSignature;
use crate::sig_inputs::ThresholdEcdsaSigInputsRef;

verus! {

/// Whether a list of shares holds one from this signer for this request.
pub open spec fn spec_has_share(s: Seq<EcdsaSigShare>, rid: RequestId, signer: NodeId) -> bool {
    exists|k: int|
        0 <= k < s.len() && (#[trigger] s[k]).request_id == rid && s[k].signer_id == signer
}

/// Whether a signature is requested for this request id.
pub open spec fn spec_requested_sig(
    s: Seq<(RequestId, ThresholdEcdsaSigInputsRef)>,
    rid: RequestId,
) -> bool {
    exists|k: int| 0 <= k < s.len() && (#[trigger] s[k]).0 == rid
}

/// The actions one unvalidated share earns.
///
/// A share for a request whose agreement is already recorded is stale and
/// invalid; one for a request nobody asked for is deferred; a second share
/// from the same signer for the same request is invalid; the rest move to
/// validated.
pub open spec fn spec_share_actions(
    requested: Seq<(RequestId, ThresholdEcdsaSigInputsRef)>,
    agreed: Seq<RequestId>,
    validated: Seq<EcdsaSigShare>,
    earlier: Seq<EcdsaSigShare>,
    sh: EcdsaSigShare,
) -> Seq<EcdsaChangeAction> {
    let key = EcdsaMessageId::SigShare { request_id: sh.request_id, signer: sh.signer_id };
    if agreed.contains(sh.request_id) {
        seq![EcdsaChangeAction::HandleInvalid(key, InvalidReason::StaleShare)]
    } else if !spec_requested_sig(requested, sh.request_id) {
        Seq::empty()
    } else if spec_has_share(validated, sh.request_id, sh.signer_id) || spec_has_share(
        earlier,
        sh.request_id,
        sh.signer_id,
    ) {
        seq![EcdsaChangeAction::HandleInvalid(key, InvalidReason::DuplicateShare)]
    } else {
        seq![EcdsaChangeAction::MoveToValidated(key)]
    }
}

/// The change set a whole batch of unvalidated shares earns, in order.
pub open spec fn spec_share_batch_actions(
    requested: Seq<(RequestId, ThresholdEcdsaSigInputsRef)>,
    agreed: Seq<RequestId>,
    validated: Seq<EcdsaSigShare>,
    batch: Seq<EcdsaSigShare>,
) -> Seq<EcdsaChangeAction>
    decreases batch.len(),
{
    if batch.len() == 0 {
        Seq::empty()
    } else {
        spec_share_batch_actions(requested, agreed, validated, batch.drop_last())
            + spec_share_actions(requested, agreed, validated, batch.drop_last(), batch.last())
    }
}

/// Whether the prefix of a share list holds one from this signer for this
/// request.
fn has_share_upto(s: &Vec<EcdsaSigShare>, upto: usize, rid: RequestId, signer: NodeId) -> (b: bool)
    requires
        upto <= s@.len(),
    ensures
        b == spec_has_share(s@.take(upto as int), rid, signer),
{
    let mut k: usize = 0;
    while k < upto
        invariant
            0 <= k <= upto <= s@.len(),
            forall|j: int|
                0 <= j < k ==> !((#[trigger] s@[j]).request_id == rid && s@[j].signer_id == signer),
        decreases upto - k,
    {
        let hit = s[k].request_id == rid && s[k].signer_id == signer;
        if hit {
            proof {
                assert(s@.take(upto as int)[k as int] == s@[k as int]);
            }
            return true;
        }
        k = k + 1;
    }
    proof {
        if spec_has_share(s@.take(upto as int), rid, signer) {
            let j = choose|j: int|
                0 <= j < upto && (#[trigger] s@.take(upto as int)[j]).request_id == rid && s@.take(
                    upto as int,
                )[j].signer_id == signer;
            assert(s@[j] == s@.take(upto as int)[j]);
        }
    }
    false
}

/// Whether a signature is requested under this request id.
fn is_requested(s: &Vec<(RequestId, ThresholdEcdsaSigInputsRef)>, rid: RequestId) -> (b: bool)
    ensures
        b == spec_requested_sig(s@, rid),
{
    let mut k: usize = 0;
    while k < s.len()
        invariant
            0 <= k <= s@.len(),
            forall|j: int| 0 <= j < k ==> (#[trigger] s@[j]).0 != rid,
        decreases s@.len() - k,
    {
        if s[k].0 == rid {
            return true;
        }
        k = k + 1;
    }
    false
}

/// Whether a list of request ids holds the given one.
fn contains_request(s: &Vec<RequestId>, rid: RequestId) -> (b: bool)
    ensures
        b == s@.contains(rid),
{
    let mut k: usize = 0;
    while k < s.len()
        invariant
            0 <= k <= s@.len(),
            forall|j: int| 0 <= j < k ==> s@[j] != rid,
        decreases s@.len() - k,
    {
        if s[k] == rid {
            return true;
        }
        k = k + 1;
    }
    false
}

/// Validates a batch of unvalidated shares against the requested signatures,
/// the recorded agreements, and the already validated shares, in batch order.
pub fn validate_sig_shares(
    requested: &Vec<(RequestId, ThresholdEcdsaSigInputsRef)>,
    agreed: &Vec<RequestId>,
    validated: &Vec<EcdsaSigShare>,
    unvalidated: &Vec<EcdsaSigShare>,
) -> (cs: EcdsaChangeSet)
    ensures
        cs@ == spec_share_batch_actions(requested@, agreed@, validated@, unvalidated@),
{
    let mut cs: EcdsaChangeSet = Vec::new();
    let mut i: usize = 0;
    while i < unvalidated.len()
        invariant
            0 <= i <= unvalidated@.len(),
            cs@ =~= spec_share_batch_actions(
                requested@,
                agreed@,
                validated@,
                unvalidated@.take(i as int),
            ),
        decreases unvalidated@.len() - i,
    {
        let sh = &unvalidated[i];
        let rid = sh.request_id;
        let signer = sh.signer_id;
        let key = EcdsaMessageId::SigShare { request_id: rid, signer };
        if contains_request(agreed, rid) {
            cs.push(EcdsaChangeAction::HandleInvalid(key, InvalidReason::StaleShare));
        } else if !is_requested(requested, rid) {
        } else if has_share_upto(validated, validated.len(), rid, signer) || has_share_upto(
            unvalidated,
            i,
            rid,
            signer,
        ) {
            proof {
                assert(validated@.take(validated@.len() as int) =~= validated@);
            }
            cs.push(EcdsaChangeAction::HandleInvalid(key, InvalidReason::DuplicateShare));
        } else {
            proof {
                assert(validated@.take(validated@.len() as int) =~= validated@);
            }
            cs.push(EcdsaChangeAction::MoveToValidated(key));
        }
        proof {
            let taken = unvalidated@.take(i as int + 1);
            assert(taken.drop_last() =~= unvalidated@.take(i as int));
            assert(taken.last() == unvalidated@[i as int]);
        }
        i = i + 1;
    }
    proof {
        assert(unvalidated@.take(unvalidated@.len() as int) =~= unvalidated@);
    }
    cs
}

/// Whether the local replica should create its own share for a request: the
/// signature is requested, not yet agreed, and its own share is not yet
/// validated.
pub fn should_create_share(
    node_id: NodeId,
    rid: RequestId,
    requested: &Vec<(RequestId, ThresholdEcdsaSigInputsRef)>,
    agreed: &Vec<RequestId>,
    validated: &Vec<EcdsaSigShare>,
) -> (b: bool)
    ensures
        b == (spec_requested_sig(requested@, rid) && !agreed@.contains(rid) && !spec_has_share(
            validated@,
            rid,
            node_id,
        )),
{
    let own = has_share_upto(validated, validated.len(), rid, node_id);
    proof {
        assert(validated@.take(validated@.len() as int) =~= validated@);
    }
    is_requested(requested, rid) && !contains_request(agreed, rid) && !own
}

/// Wraps the share the crypto engine produced for this replica into the
/// change action that adds it to the validated pool.
pub fn create_share_action(node_id: NodeId, rid: RequestId, sig_share_raw: Vec<u8>) -> (a:
    EcdsaChangeAction)
    ensures
        a matches EcdsaChangeAction::AddToValidated(EcdsaMessage::EcdsaSigShare(sh)) && {
            &&& sh.signer_id == node_id
            &&& sh.request_id == rid
            &&& sh.share.sig_share_raw == sig_share_raw
        },
{
    EcdsaChangeAction::AddToValidated(
        EcdsaMessage::EcdsaSigShare(
            EcdsaSigShare {
                signer_id: node_id,
                request_id: rid,
                share: ThresholdEcdsaSigShare { sig_share_raw },
            },
        ),
    )
}

/// The number of listed receivers that have a validated share for a request.
pub open spec fn spec_share_count(
    receivers: Seq<NodeId>,
    shares: Seq<EcdsaSigShare>,
    rid: RequestId,
) -> nat
    decreases receivers.len(),
{
    if receivers.len() == 0 {
        0
    } else {
        spec_share_count(receivers.drop_last(), shares, rid) + (if spec_has_share(
            shares,
            rid,
            receivers.last(),
        ) {
            1nat
        } else {
            0nat
        })
    }
}

/// Counts the listed receivers that have a validated share for a request.
pub fn share_count(receivers: &Vec<NodeId>, shares: &Vec<EcdsaSigShare>, rid: RequestId) -> (n:
    usize)
    ensures
        n == spec_share_count(receivers@, shares@, rid),
{
    let mut n: usize = 0;
    let mut k: usize = 0;
    while k < receivers.len()
        invariant
            0 <= k <= receivers@.len(),
            n == spec_share_count(receivers@.take(k as int), shares@, rid),
            n <= k,
        decreases receivers@.len() - k,
    {
        if has_share_upto(shares, shares.len(), rid, receivers[k]) {
            proof {
                assert(shares@.take(shares@.len() as int) =~= shares@);
            }
            n = n + 1;
        } else {
            proof {
                assert(shares@.take(shares@.len() as int) =~= shares@);
            }
        }
        proof {
            let taken = receivers@.take(k as int + 1);
            assert(taken.drop_last() =~= receivers@.take(k as int));
            assert(taken.last() == receivers@[k as int]);
        }
        k = k + 1;
    }
    proof {
        assert(receivers@.take(receivers@.len() as int) =~= receivers@);
    }
    n
}

/// Whether enough distinct receivers have validated shares to combine the
/// final signature.
pub fn has_enough_shares(
    receivers: &Vec<NodeId>,
    shares: &Vec<EcdsaSigShare>,
    rid: RequestId,
    threshold: usize,
) -> (b: bool)
    ensures
        b == (spec_share_count(receivers@, shares@, rid) >= threshold),
{
    share_count(receivers, shares, rid) >= threshold
}

/// Whether an action is compatible with recorded agreements: any move of a
/// share it proposes concerns a request whose agreement is not recorded.
pub open spec fn spec_move_is_unagreed(a: EcdsaChangeAction, agreed: Seq<RequestId>) -> bool {
    match a {
        EcdsaChangeAction::MoveToValidated(id) => match id {
            EcdsaMessageId::SigShare { request_id, signer } => !agreed.contains(request_id),
            _ => true,
        },
        _ => true,
    }
}

/// Share validation never accepts a share for a request whose agreement is
/// recorded: every move the batch proposes is for an unagreed request.
pub proof fn lemma_no_share_accepted_after_agreement(
    requested: Seq<(RequestId, ThresholdEcdsaSigInputsRef)>,
    agreed: Seq<RequestId>,
    validated: Seq<EcdsaSigShare>,
    batch: Seq<EcdsaSigShare>,
)
    ensures
        ({
            let cs = spec_share_batch_actions(requested, agreed, validated, batch);
            forall|i: int| 0 <= i < cs.len() ==> spec_move_is_unagreed(#[trigger] cs[i], agreed)
        }),
    decreases batch.len(),
{
    if batch.len() > 0 {
        lemma_no_share_accepted_after_agreement(requested, agreed, validated, batch.drop_last());
        let pre = spec_share_batch_actions(requested, agreed, validated, batch.drop_last());
        let cs = spec_share_batch_actions(requested, agreed, validated, batch);
        assert forall|i: int| 0 <= i < cs.len() implies spec_move_is_unagreed(
            #[trigger] cs[i],
            agreed,
        ) by {
            if i < pre.len() {
                assert(cs[i] == pre[i]);
            } else {
                let sh = batch.last();
                assert(cs[i] == spec_share_actions(
                    requested,
                    agreed,
                    validated,
                    batch.drop_last(),
                    sh,
                )[i - pre.len()]);
            }
        }
    }
}

/// The request ids of a list of agreements or ongoing requests.
pub open spec fn spec_rids<T>(s: Seq<(RequestId, T)>) -> Seq<RequestId> {
    s.map_values(|p: (RequestId, T)| p.0)
}

/// Records the agreement for one request: the combined signature is appended
/// to the agreements and the request leaves the ongoing set, so the
/// quadruple's consumption is final.
pub fn complete_signature(
    ongoing: &mut Vec<(RequestId, ThresholdEcdsaSigInputsRef)>,
    agreements: &mut Vec<(RequestId, CompletedSignature)>,
    rid: RequestId,
    signature: ThresholdEcdsaCombinedSignature,
)
    ensures
        final(agreements)@ == old(agreements)@.push(
            (rid, CompletedSignature::Unreported(signature)),
        ),
        match spec_rids(old(ongoing)@).index_of_first(rid) {
            Some(k) => final(ongoing)@ == old(ongoing)@.remove(k),
            None => final(ongoing)@ == old(ongoing)@,
        },
{
    proof {
        spec_rids(ongoing@).index_of_first_ensures(rid);
    }
    let ghost s0 = ongoing@;
    let mut i: usize = 0;
    let mut removed = false;
    while i < ongoing.len() && !removed
        invariant
            s0 == old(ongoing)@,
            0 <= i <= ongoing@.len(),
            if removed {
                spec_rids(s0).index_of_first(rid) == Some(i as int) && ongoing@ == s0.remove(i as int)
            } else {
                ongoing@ == s0 && forall|j: int| 0 <= j < i ==> (#[trigger] s0[j]).0 != rid
            },
        decreases ongoing@.len() - i,
    {
        let hit = ongoing[i].0 == rid;
        if hit {
            proof {
                spec_rids(s0).index_of_first_ensures(rid);
                assert(spec_rids(s0)[i as int] == rid);
                assert(spec_rids(s0).contains(rid));
                let k = spec_rids(s0).index_of_first(rid)->Some_0;
                assert(spec_rids(s0)[k] == rid);
                assert(k == i as int) by {
                    if k < i as int {
                        assert(s0[k].0 != rid);
                    }
                }
            }
            let _ = ongoing.remove(i);
            removed = true;
        } else {
            i = i + 1;
        }
    }
    proof {
        if !removed {
            spec_rids(s0).index_of_first_ensures(rid);
            if spec_rids(s0).index_of_first(rid) is Some {
                let k = spec_rids(s0).index_of_first(rid)->Some_0;
                assert(spec_rids(s0)[k] == rid);
                assert(s0[k].0 != rid);
            }
        }
    }
    agreements.push((rid, CompletedSignature::Unreported(signature)));
}

/// A request's validated shares are monotonically non-decreasing under share
/// validation: applying the change set the batch earns keeps every share that
/// was validated before, in place.
pub proof fn lemma_validated_shares_monotone(
    p: crate::pool::EcdsaPoolView,
    requested: Seq<(RequestId, ThresholdEcdsaSigInputsRef)>,
    agreed: Seq<RequestId>,
    validated: Seq<EcdsaSigShare>,
    batch: Seq<EcdsaSigShare>,
)
    ensures
        p.validated.is_prefix_of(
            crate::pool::spec_apply_all(
                p,
                spec_share_batch_actions(requested, agreed, validated, batch),
            ).validated,
        ),
{
    lemma_share_validation_removes_nothing(requested, agreed, validated, batch);
    crate::pool::lemma_validated_monotone(
        p,
        spec_share_batch_actions(requested, agreed, validated, batch),
    );
}

/// Share validation never removes a validated artifact: the batch proposes no
/// `RemoveValidated` action, so applying it keeps every validated share.
pub proof fn lemma_share_validation_removes_nothing(
    requested: Seq<(RequestId, ThresholdEcdsaSigInputsRef)>,
    agreed: Seq<RequestId>,
    validated: Seq<EcdsaSigShare>,
    batch: Seq<EcdsaSigShare>,
)
    ensures
        ({
            let cs = spec_share_batch_actions(requested, agreed, validated, batch);
            forall|i: int| 0 <= i < cs.len() ==> !((#[trigger] cs[i]) is RemoveValidated)
        }),
    decreases batch.len(),
{
    if batch.len() > 0 {
        lemma_share_validation_removes_nothing(requested, agreed, validated, batch.drop_last());
    }
}

} // verus!
