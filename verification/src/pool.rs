//! The artifact pool's two partitions, and the one place where change sets
//! are applied.
//!
//! Components only read the pool; each round the driver applies their change
//! sets as a single ordered batch.  The five change verbs are the whole
//! mutation vocabulary: nothing is ever overwritten in place.

use vstd::prelude::*;
use crate::messages::{spec_message_id, EcdsaChangeAction, EcdsaChangeSet, EcdsaMessage, EcdsaMessageId};

verus! {

/// The pool: validated artifacts this replica vouches for, and unvalidated
/// artifacts received from peers.
#[derive(Clone, PartialEq, Eq, Debug)]
pub struct EcdsaPool {
    pub validated: Vec<EcdsaMessage>,
    pub unvalidated: Vec<EcdsaMessage>,
}

/// Mathematical view of the pool.
pub ghost struct EcdsaPoolView {
    pub validated: Seq<EcdsaMessage>,
    pub unvalidated: Seq<EcdsaMessage>,
}

impl View for EcdsaPool {
    type V = EcdsaPoolView;

    open spec fn view(&self) -> EcdsaPoolView {
        EcdsaPoolView { validated: self.validated@, unvalidated: self.unvalidated@ }
    }
}

impl EcdsaPool {
    /// A pool with both partitions empty.
    pub fn new() -> (r: Self)
        ensures
            r@.validated.len() == 0,
            r@.unvalidated.len() == 0,
    {
        EcdsaPool { validated: Vec::new(), unvalidated: Vec::new() }
    }
}

/// The pool keys of a list of artifacts, in order.
pub open spec fn spec_ids(s: Seq<EcdsaMessage>) -> Seq<EcdsaMessageId> {
    s.map_values(|m: EcdsaMessage| spec_message_id(m))
}

/// What one change action does to the pool.
///
/// A removal or move whose key is absent leaves the pool unchanged; a move or
/// removal acts on the first artifact stored under the key.
pub open spec fn spec_apply_action(p: EcdsaPoolView, a: EcdsaChangeAction) -> EcdsaPoolView {
    match a {
        EcdsaChangeAction::AddToValidated(m) => EcdsaPoolView {
            validated: p.validated.push(m),
            unvalidated: p.unvalidated,
        },
        EcdsaChangeAction::MoveToValidated(id) => match spec_ids(p.unvalidated).index_of_first(id) {
            Some(k) => EcdsaPoolView {
                validated: p.validated.push(p.unvalidated[k]),
                unvalidated: p.unvalidated.remove(k),
            },
            None => p,
        },
        EcdsaChangeAction::RemoveValidated(id) => match spec_ids(p.validated).index_of_first(id) {
            Some(k) => EcdsaPoolView { validated: p.validated.remove(k), unvalidated: p.unvalidated },
            None => p,
        },
        EcdsaChangeAction::RemoveUnvalidated(id) => match spec_ids(p.unvalidated).index_of_first(
            id,
        ) {
            Some(k) => EcdsaPoolView { validated: p.validated, unvalidated: p.unvalidated.remove(k) },
            None => p,
        },
        EcdsaChangeAction::HandleInvalid(id, _) => match spec_ids(p.unvalidated).index_of_first(
            id,
        ) {
            Some(k) => EcdsaPoolView { validated: p.validated, unvalidated: p.unvalidated.remove(k) },
            None => p,
        },
    }
}

/// What a whole change set does to the pool, applied in order.
pub open spec fn spec_apply_all(p: EcdsaPoolView, actions: Seq<EcdsaChangeAction>) -> EcdsaPoolView
    decreases actions.len(),
{
    if actions.len() == 0 {
        p
    } else {
        spec_apply_action(spec_apply_all(p, actions.drop_last()), actions.last())
    }
}

/// Removes the first artifact stored under the given key, if one is there.
fn remove_first(part: &mut Vec<EcdsaMessage>, id: EcdsaMessageId) -> (r: Option<EcdsaMessage>)
    ensures
        match spec_ids(old(part)@).index_of_first(id) {
            Some(k) => {
                &&& r == Some(old(part)@[k])
                &&& final(part)@ == old(part)@.remove(k)
            },
            None => {
                &&& r is None
                &&& final(part)@ == old(part)@
            },
        },
{
    let ghost s0 = part@;
    let mut i: usize = 0;
    while i < part.len()
        invariant
            s0 == old(part)@,
            part@ == s0,
            0 <= i <= part@.len(),
            forall|j: int| 0 <= j < i ==> spec_message_id(#[trigger] part@[j]) != id,
        decreases part@.len() - i,
    {
        let found = part[i].message_id() == id;
        if found {
            proof {
                spec_ids(s0).index_of_first_ensures(id);
                assert(spec_ids(s0)[i as int] == id);
                assert(spec_ids(s0).contains(id));
                let k = spec_ids(s0).index_of_first(id)->Some_0;
                assert(spec_ids(s0)[k] == id);
                assert(k == i as int) by {
                    if k < i as int {
                        assert(spec_message_id(s0[k]) != id);
                    }
                }
            }
            let m = part.remove(i);
            return Some(m);
        }
        i = i + 1;
    }
    proof {
        spec_ids(s0).index_of_first_ensures(id);
        if spec_ids(s0).index_of_first(id) is Some {
            let k = spec_ids(s0).index_of_first(id)->Some_0;
            assert(spec_ids(s0)[k] == id);
            assert(spec_message_id(s0[k]) != id);
        }
    }
    None
}

/// Applies one change set to the pool, in order, as the round's single
/// mutation step.
pub fn apply_change_set(pool: &mut EcdsaPool, changes: EcdsaChangeSet)
    ensures
        final(pool)@ == spec_apply_all(old(pool)@, changes@),
{
    let ghost all = changes@;
    let ghost init = old(pool)@;
    let ghost mut done: int = 0;
    let mut changes = changes;
    while changes.len() > 0
        invariant
            0 <= done <= all.len(),
            done + changes@.len() == all.len(),
            changes@ =~= all.skip(done),
            pool@ == spec_apply_all(init, all.take(done)),
        decreases changes@.len(),
    {
        let a = changes.remove(0);
        proof {
            assert(a == all[done]);
        }
        match a {
            EcdsaChangeAction::AddToValidated(m) => {
                pool.validated.push(m);
            },
            EcdsaChangeAction::MoveToValidated(id) => {
                if let Some(m) = remove_first(&mut pool.unvalidated, id) {
                    pool.validated.push(m);
                }
            },
            EcdsaChangeAction::RemoveValidated(id) => {
                let _ = remove_first(&mut pool.validated, id);
            },
            EcdsaChangeAction::RemoveUnvalidated(id) => {
                let _ = remove_first(&mut pool.unvalidated, id);
            },
            EcdsaChangeAction::HandleInvalid(id, _) => {
                let _ = remove_first(&mut pool.unvalidated, id);
            },
        }
        proof {
            done = done + 1;
            assert(all.take(done).drop_last() =~= all.take(done - 1));
            assert(all.take(done).last() == all[done - 1]);
            assert(changes@ =~= all.skip(done));
        }
    }
    proof {
        assert(all.take(done) =~= all);
    }
}

/// No two validated dealings share a (transcript, dealer) key.
pub open spec fn spec_unique_dealing_ids(s: Seq<EcdsaMessage>) -> bool {
    forall|i: int, j: int|
        0 <= i < j < s.len() && (#[trigger] s[i]) is EcdsaSignedDealing && (#[trigger] s[j])
            is EcdsaSignedDealing ==> spec_message_id(s[i]) != spec_message_id(s[j])
}

/// Whether the partition holds a dealing stored under the given key.
pub open spec fn spec_has_dealing_id(s: Seq<EcdsaMessage>, id: EcdsaMessageId) -> bool {
    exists|i: int|
        0 <= i < s.len() && (#[trigger] s[i]) is EcdsaSignedDealing && spec_message_id(s[i]) == id
}

/// Whether the actions move an artifact with the given key to validated.
pub open spec fn spec_moves_id(actions: Seq<EcdsaChangeAction>, id: EcdsaMessageId) -> bool {
    exists|i: int|
        0 <= i < actions.len() && (#[trigger] actions[i]) is MoveToValidated
            && actions[i]->MoveToValidated_0 == id
}

/// Uniqueness of validated dealings is preserved by any change set that adds
/// no dealing directly, moves no dealing key twice, and moves no dealing key
/// that is already validated.
///
/// Also: every dealing key validated after the batch was either validated
/// before it or moved by it.
pub proof fn lemma_unique_dealings_preserved(p: EcdsaPoolView, actions: Seq<EcdsaChangeAction>)
    requires
        spec_unique_dealing_ids(p.validated),
        forall|i: int|
            0 <= i < actions.len() ==> match #[trigger] actions[i] {
                EcdsaChangeAction::AddToValidated(m) => !(m is EcdsaSignedDealing),
                _ => true,
            },
        forall|i: int|
            0 <= i < actions.len() ==> match #[trigger] actions[i] {
                EcdsaChangeAction::MoveToValidated(id) => id is Dealing ==> !spec_has_dealing_id(
                    p.validated,
                    id,
                ),
                _ => true,
            },
        forall|i: int, j: int|
            0 <= i < j < actions.len() && (#[trigger] actions[i]) is MoveToValidated
                && (#[trigger] actions[j]) is MoveToValidated ==> (actions[i]->MoveToValidated_0
                is Dealing && actions[j]->MoveToValidated_0 is Dealing
                ==> actions[i]->MoveToValidated_0 != actions[j]->MoveToValidated_0),
    ensures
        spec_unique_dealing_ids(spec_apply_all(p, actions).validated),
        forall|id: EcdsaMessageId| #[trigger]
            spec_has_dealing_id(spec_apply_all(p, actions).validated, id) ==> spec_has_dealing_id(
                p.validated,
                id,
            ) || spec_moves_id(actions, id),
    decreases actions.len(),
{
    if actions.len() == 0 {
    } else {
        let pre = actions.drop_last();
        assert forall|i: int| 0 <= i < pre.len() implies pre[i] == actions[i] by {}
        lemma_unique_dealings_preserved(p, pre);
        let mid = spec_apply_all(p, pre);
        let fin = spec_apply_action(mid, actions.last());
        assert(spec_apply_all(p, actions) == fin);
        assert(actions[actions.len() - 1] == actions.last());
        match actions.last() {
            EcdsaChangeAction::AddToValidated(m) => {
                assert(!(m is EcdsaSignedDealing));
                assert(fin.validated == mid.validated.push(m));
                lemma_push_keeps_dealings_unique(mid.validated, m, p, pre, actions);
            },
            EcdsaChangeAction::MoveToValidated(id) => {
                match spec_ids(mid.unvalidated).index_of_first(id) {
                    Some(k) => {
                        spec_ids(mid.unvalidated).index_of_first_ensures(id);
                        let m = mid.unvalidated[k];
                        assert(spec_ids(mid.unvalidated)[k] == id);
                        assert(spec_message_id(m) == id);
                        assert(fin.validated == mid.validated.push(m));
                        if m is EcdsaSignedDealing {
                            assert(id is Dealing);
                            assert(!spec_moves_id(pre, id)) by {
                                if spec_moves_id(pre, id) {
                                    let i = choose|i: int|
                                        0 <= i < pre.len() && (#[trigger] pre[i]) is MoveToValidated
                                            && pre[i]->MoveToValidated_0 == id;
                                    assert(actions[i] == pre[i]);
                                    assert(actions[actions.len() - 1] is MoveToValidated);
                                    assert(actions[i]->MoveToValidated_0 != actions[actions.len()
                                        - 1]->MoveToValidated_0);
                                }
                            }
                        }
                        lemma_push_keeps_dealings_unique(mid.validated, m, p, pre, actions);
                        assert(spec_moves_id(actions, id)) by {
                            assert((#[trigger] actions[actions.len() - 1]) is MoveToValidated
                                && actions[actions.len() - 1]->MoveToValidated_0 == id);
                        }
                    },
                    None => {
                        assert(fin == mid);
                    },
                }
            },
            EcdsaChangeAction::RemoveValidated(id) => {
                match spec_ids(mid.validated).index_of_first(id) {
                    Some(k) => {
                        spec_ids(mid.validated).index_of_first_ensures(id);
                        assert(fin.validated == mid.validated.remove(k));
                        lemma_remove_keeps_dealings_unique(mid.validated, k);
                        assert forall|id2: EcdsaMessageId| #[trigger]
                            spec_has_dealing_id(fin.validated, id2) implies spec_has_dealing_id(
                            mid.validated,
                            id2,
                        ) by {
                            let i = choose|i: int|
                                0 <= i < fin.validated.len() && (#[trigger] fin.validated[i])
                                    is EcdsaSignedDealing && spec_message_id(fin.validated[i])
                                    == id2;
                            if i < k {
                                assert(fin.validated[i] == mid.validated[i]);
                            } else {
                                assert(fin.validated[i] == mid.validated[i + 1]);
                            }
                        }
                    },
                    None => {
                        assert(fin == mid);
                    },
                }
            },
            EcdsaChangeAction::RemoveUnvalidated(_) => {
                assert(fin.validated == mid.validated);
            },
            EcdsaChangeAction::HandleInvalid(_, _) => {
                assert(fin.validated == mid.validated);
            },
        }
        assert forall|id: EcdsaMessageId| #[trigger]
            spec_has_dealing_id(fin.validated, id) && !spec_has_dealing_id(p.validated, id)
                implies spec_moves_id(actions, id) by {
            if spec_moves_id(pre, id) {
                let i = choose|i: int|
                    0 <= i < pre.len() && (#[trigger] pre[i]) is MoveToValidated && pre[
                    i]->MoveToValidated_0 == id;
                assert(actions[i] is MoveToValidated && actions[i]->MoveToValidated_0 == id);
            }
        }
    }
}

/// Pushing a non-dealing, or a dealing whose key is new to both the original
/// pool and the earlier moves, keeps validated dealings unique.
proof fn lemma_push_keeps_dealings_unique(
    validated: Seq<EcdsaMessage>,
    m: EcdsaMessage,
    p: EcdsaPoolView,
    pre: Seq<EcdsaChangeAction>,
    actions: Seq<EcdsaChangeAction>,
)
    requires
        actions.len() > 0,
        pre == actions.drop_last(),
        spec_unique_dealing_ids(validated),
        forall|id2: EcdsaMessageId| #[trigger]
            spec_has_dealing_id(validated, id2) ==> spec_has_dealing_id(p.validated, id2)
                || spec_moves_id(pre, id2),
        m is EcdsaSignedDealing ==> {
            &&& actions.last() == EcdsaChangeAction::MoveToValidated(spec_message_id(m))
            &&& !spec_has_dealing_id(p.validated, spec_message_id(m))
            &&& !spec_moves_id(pre, spec_message_id(m))
        },
    ensures
        spec_unique_dealing_ids(validated.push(m)),
        forall|id2: EcdsaMessageId| #[trigger]
            spec_has_dealing_id(validated.push(m), id2) ==> spec_has_dealing_id(validated, id2)
                || (m is EcdsaSignedDealing && id2 == spec_message_id(m)),
{
    let s = validated.push(m);
    assert forall|i: int, j: int|
        0 <= i < j < s.len() && (#[trigger] s[i]) is EcdsaSignedDealing && (#[trigger] s[j])
            is EcdsaSignedDealing implies spec_message_id(s[i]) != spec_message_id(s[j]) by {
        if j == s.len() - 1 {
            assert(s[j] == m);
            assert(s[i] == validated[i]);
            if spec_message_id(validated[i]) == spec_message_id(m) {
                assert(spec_has_dealing_id(validated, spec_message_id(m)));
            }
        } else {
            assert(s[i] == validated[i] && s[j] == validated[j]);
        }
    }
    assert forall|id2: EcdsaMessageId| #[trigger] spec_has_dealing_id(s, id2) implies
        spec_has_dealing_id(validated, id2) || (m is EcdsaSignedDealing && id2 == spec_message_id(
        m,
    )) by {
        let i = choose|i: int|
            0 <= i < s.len() && (#[trigger] s[i]) is EcdsaSignedDealing && spec_message_id(s[i])
                == id2;
        if i < s.len() - 1 {
            assert(s[i] == validated[i]);
        } else {
            assert(s[i] == m);
        }
    }
}

/// Removing one artifact keeps validated dealings unique.
proof fn lemma_remove_keeps_dealings_unique(s: Seq<EcdsaMessage>, k: int)
    requires
        0 <= k < s.len(),
        spec_unique_dealing_ids(s),
    ensures
        spec_unique_dealing_ids(s.remove(k)),
{
    let r = s.remove(k);
    assert forall|i: int, j: int|
        0 <= i < j < r.len() && (#[trigger] r[i]) is EcdsaSignedDealing && (#[trigger] r[j])
            is EcdsaSignedDealing implies spec_message_id(r[i]) != spec_message_id(r[j]) by {
        let i0: int = if i < k { i } else { i + 1 };
        let j0: int = if j < k { j } else { j + 1 };
        assert(r[i] == s[i0]);
        assert(r[j] == s[j0]);
    }
}

/// The validated partition only ever grows under a change set that removes
/// nothing from it: every artifact validated before the batch is still there,
/// in place, after it.
pub proof fn lemma_validated_monotone(p: EcdsaPoolView, actions: Seq<EcdsaChangeAction>)
    requires
        forall|i: int| 0 <= i < actions.len() ==> !((#[trigger] actions[i]) is RemoveValidated),
    ensures
        p.validated.is_prefix_of(spec_apply_all(p, actions).validated),
    decreases actions.len(),
{
    if actions.len() == 0 {
        assert(p.validated =~= spec_apply_all(p, actions).validated);
    } else {
        lemma_validated_monotone(p, actions.drop_last());
        let mid = spec_apply_all(p, actions.drop_last());
        let fin = spec_apply_action(mid, actions.last());
        assert(actions[actions.len() - 1] == actions.last());
        assert(mid.validated.is_prefix_of(fin.validated)) by {
            if fin.validated != mid.validated {
                assert(mid.validated =~= fin.validated.take(mid.validated.len() as int));
            } else {
                assert(mid.validated =~= fin.validated.take(mid.validated.len() as int));
            }
        }
        assert(p.validated =~= fin.validated.take(p.validated.len() as int));
    }
}

} // verus!
