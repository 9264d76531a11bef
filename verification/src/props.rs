//! Laws of the state machine that relate several transitions, proved once
//! over the spec transition functions that every handler's contract pins.

use vstd::prelude::*;

use crate::contract::{
    add_guardian_step, approve_step, cancel_recovery_step, confirm_guardian_step,
    execute_recovery_step, remove_family_step, remove_guardian_step,
};
use crate::state::{
    count_id, disjoint_lists, lemma_contains_push, lemma_count_contains, lemma_count_push,
    lemma_remove_all_props, remove_all, StateModel,
};
use crate::msg::ContractError;

verus! {

/// Requesting a guardian and then confirming the same candidate moves it
/// pending -> confirmed exactly once: afterwards the candidate stands once
/// among the guardians, the pending list is as before the request, and the
/// two lists are still disjoint.
pub proof fn lemma_request_then_confirm(s: StateModel, sender: Seq<char>, guardian: Seq<char>)
    requires
        s.wf(),
        add_guardian_step(s, sender, guardian) is Ok,
    ensures
        ({
            let s1 = add_guardian_step(s, sender, guardian)->Ok_0;
            let c = confirm_guardian_step(s1, guardian);
            &&& c is Ok
            &&& (c->Ok_0).guardians == s.guardians.push(guardian)
            &&& (c->Ok_0).guardians_pending == s.guardians_pending
            &&& count_id((c->Ok_0).guardians, guardian) == 1
            &&& disjoint_lists((c->Ok_0).guardians, (c->Ok_0).guardians_pending)
            &&& (c->Ok_0).wf()
        }),
{
    let s1 = add_guardian_step(s, sender, guardian)->Ok_0;
    assert(s1.guardians_pending.contains(guardian)) by {
        lemma_contains_push(s.guardians_pending, guardian, guardian);
    }
    let c = confirm_guardian_step(s1, guardian);
    assert(remove_all(s.guardians_pending.push(guardian), guardian) == remove_all(
        s.guardians_pending,
        guardian,
    )) by {
        assert(s.guardians_pending.push(guardian).drop_last() =~= s.guardians_pending);
    }
    lemma_remove_all_props(s.guardians_pending, guardian);
    assert((c->Ok_0).guardians_pending == s.guardians_pending);
    assert(count_id((c->Ok_0).guardians, guardian) == 1) by {
        lemma_count_contains(s.guardians, guardian);
        lemma_count_push(s.guardians, guardian, guardian);
    }
    crate::contract::lemma_add_guardian_step_wf(s, sender, guardian);
    crate::contract::lemma_confirm_step_wf(s1, guardian);
}

/// With a single guardian, initiating a recovery transfers the ownership
/// at once: no vote opens and no signatures are held.
pub proof fn lemma_single_guardian_fast_path(s: StateModel, new_owner: Seq<char>, g: Seq<char>)
    requires
        s.wf(),
        !s.is_recovering,
        s.guardians.len() == 1,
        s.guardians.contains(g),
    ensures
        ({
            let e = execute_recovery_step(s, new_owner, g);
            &&& e is Ok
            &&& (e->Ok_0).owner == new_owner
            &&& !(e->Ok_0).is_recovering
            &&& (e->Ok_0).recovery_signatures.len() == 0
        }),
{
}

/// With two or three guardians the strict majority threshold is one, so
/// the initiating signature plus one approval finalizes the transfer: the
/// vote opens holding only the initiator's signature, and the second
/// guardian's single approval makes the candidate the owner, closes the
/// vote and clears the signatures.
pub proof fn lemma_small_quorum_two_approvals(
    s: StateModel,
    new_owner: Seq<char>,
    g1: Seq<char>,
    g2: Seq<char>,
)
    requires
        s.wf(),
        !s.is_recovering,
        2 <= s.guardians.len() <= 3,
        s.guardians.contains(g1),
        s.guardians.contains(g2),
    ensures
        ({
            let e = execute_recovery_step(s, new_owner, g1);
            &&& e is Ok
            &&& (e->Ok_0).is_recovering
            &&& (e->Ok_0).recovery_signatures == seq![g1]
            &&& (e->Ok_0).recovery_address == new_owner
            &&& (e->Ok_0).owner == s.owner
            &&& ({
                let a = approve_step(e->Ok_0, g2);
                &&& a is Ok
                &&& (a->Ok_0).owner == new_owner
                &&& !(a->Ok_0).is_recovering
                &&& (a->Ok_0).recovery_signatures.len() == 0
            })
        }),
{
    let s1 = execute_recovery_step(s, new_owner, g1)->Ok_0;
    assert(s1.recovery_signatures.push(g2).len() == 2);
    assert(s1.guardians.len() / 2 == 1);
}

/// Whenever a cancellation is accepted it closes the vote and clears the
/// signatures, whatever the state was before.
pub proof fn lemma_cancel_recovery_clears(s: StateModel, sender: Seq<char>, guardian: Seq<char>)
    requires
        cancel_recovery_step(s, sender, guardian) is Ok,
    ensures
        !(cancel_recovery_step(s, sender, guardian)->Ok_0).is_recovering,
        (cancel_recovery_step(s, sender, guardian)->Ok_0).recovery_signatures.len() == 0,
{
}

/// Removing an absent guardian or family member is accepted and leaves the
/// record exactly as it was. An identifier that is no guardian has, by
/// well-formedness, no recovery signature either, so that list too stays.
pub proof fn lemma_remove_absent_is_noop(s: StateModel, sender: Seq<char>, id: Seq<char>)
    requires
        s.wf(),
        sender == s.owner,
        !s.guardians.contains(id),
        !s.family_members.contains(id),
    ensures
        remove_guardian_step(s, sender, id) == Ok::<StateModel, ContractError>(s),
        remove_family_step(s, sender, id) == Ok::<StateModel, ContractError>(s),
{
    lemma_remove_all_props(s.guardians, id);
    lemma_remove_all_props(s.family_members, id);
    assert(!s.recovery_signatures.contains(id)) by {
        if s.recovery_signatures.contains(id) {
            assert(s.guardians.contains(id));
        }
    }
    lemma_remove_all_props(s.recovery_signatures, id);
    assert(remove_guardian_step(s, sender, id)->Ok_0 =~= s);
    assert(remove_family_step(s, sender, id)->Ok_0 =~= s);
}

} // verus!
