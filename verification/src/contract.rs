//! The recovery state machine: one spec transition function per command,
//! the handlers that implement them, and the query projections.

use vstd::prelude::*;

use crate::msg::{
    Coin, ContractError, Env, FamilyResponse, GuardianResponse, HandleMsg, HandleResponse, InitMsg,
    LogEntry, OwnerResponse, QueryAnswer, QueryMsg, RecoveryResponse, SignerResponse, TransferMsg,
};
use crate::state::{
    clone_ids, contains_id, ids, lemma_contains_push, lemma_remove_all_props, no_dup, remove_all,
    remove_id, State, StateModel,
};

verus! {

// ---------------------------------------------------------------------------
// Spec transition functions, one per command.
// ---------------------------------------------------------------------------

/// The record a fresh account starts from: the initializing identity owns
/// it and every list is empty.
pub open spec fn init_state(sender: Seq<char>) -> StateModel {
    StateModel {
        owner: sender,
        guardians_pending: Seq::empty(),
        guardians: Seq::empty(),
        is_recovering: false,
        recovery_address: sender,
        recovery_signatures: Seq::empty(),
        family_members: Seq::empty(),
    }
}

/// Owner asks to add a guardian: the candidate joins the pending list.
pub open spec fn add_guardian_step(
    s: StateModel,
    sender: Seq<char>,
    guardian: Seq<char>,
) -> Result<StateModel, ContractError> {
    if sender != s.owner {
        Err(ContractError::Unauthorized)
    } else if s.guardians.contains(guardian) {
        Err(ContractError::AlreadyGuardian)
    } else if s.guardians_pending.contains(guardian) {
        Err(ContractError::AlreadyPending)
    } else {
        Ok(StateModel { guardians_pending: s.guardians_pending.push(guardian), ..s })
    }
}

/// A pending candidate is confirmed: it moves pending -> confirmed.
pub open spec fn confirm_guardian_step(
    s: StateModel,
    guardian: Seq<char>,
) -> Result<StateModel, ContractError> {
    if !s.guardians_pending.contains(guardian) {
        Err(ContractError::NotPending)
    } else {
        Ok(
            StateModel {
                guardians: s.guardians.push(guardian),
                guardians_pending: remove_all(s.guardians_pending, guardian),
                ..s
            },
        )
    }
}

/// Owner withdraws a pending candidate.
pub open spec fn cancel_pending_step(
    s: StateModel,
    sender: Seq<char>,
    guardian: Seq<char>,
) -> Result<StateModel, ContractError> {
    if sender != s.owner {
        Err(ContractError::Unauthorized)
    } else if !s.guardians_pending.contains(guardian) {
        Err(ContractError::NotPending)
    } else {
        Ok(StateModel { guardians_pending: remove_all(s.guardians_pending, guardian), ..s })
    }
}

/// Owner removes a confirmed guardian; removing an absent one is a no-op.
/// A signature the removed guardian cast on an in-flight recovery leaves
/// with the guardian, so signatures always belong to current guardians.
pub open spec fn remove_guardian_step(
    s: StateModel,
    sender: Seq<char>,
    guardian: Seq<char>,
) -> Result<StateModel, ContractError> {
    if sender != s.owner {
        Err(ContractError::Unauthorized)
    } else {
        Ok(
            StateModel {
                guardians: remove_all(s.guardians, guardian),
                recovery_signatures: remove_all(s.recovery_signatures, guardian),
                ..s
            },
        )
    }
}

/// A guardian initiates a recovery towards `new_owner`, valid only while
/// the account is idle. With a single guardian the ownership transfers at
/// once; otherwise the vote opens with the initiating guardian's signature
/// as the first approval.
pub open spec fn execute_recovery_step(
    s: StateModel,
    new_owner: Seq<char>,
    guardian: Seq<char>,
) -> Result<StateModel, ContractError> {
    if !s.guardians.contains(guardian) {
        Err(ContractError::Unauthorized)
    } else if s.is_recovering {
        Err(ContractError::InvalidState)
    } else if s.guardians.len() == 1 {
        Ok(StateModel { owner: new_owner, ..s })
    } else {
        Ok(
            StateModel {
                is_recovering: true,
                recovery_address: new_owner,
                recovery_signatures: seq![guardian],
                ..s
            },
        )
    }
}

/// A guardian approves the in-flight recovery. Once the signatures pass
/// the strict majority threshold, the candidate becomes the owner and the
/// vote closes.
pub open spec fn approve_step(
    s: StateModel,
    guardian: Seq<char>,
) -> Result<StateModel, ContractError> {
    if !s.is_recovering {
        Err(ContractError::NotRecovering)
    } else if !s.guardians.contains(guardian) {
        Err(ContractError::Unauthorized)
    } else {
        let sigs = s.recovery_signatures.push(guardian);
        if sigs.len() > s.guardians.len() / 2 {
            Ok(
                StateModel {
                    owner: s.recovery_address,
                    is_recovering: false,
                    recovery_signatures: Seq::empty(),
                    ..s
                },
            )
        } else {
            Ok(StateModel { recovery_signatures: sigs, ..s })
        }
    }
}

/// The owner, or anyone citing a confirmed guardian, cancels the recovery;
/// cancelling with no vote in flight is a no-op.
pub open spec fn cancel_recovery_step(
    s: StateModel,
    sender: Seq<char>,
    guardian: Seq<char>,
) -> Result<StateModel, ContractError> {
    if sender != s.owner && !s.guardians.contains(guardian) {
        Err(ContractError::Unauthorized)
    } else {
        Ok(StateModel { is_recovering: false, recovery_signatures: Seq::empty(), ..s })
    }
}

/// Owner records a family member.
pub open spec fn add_family_step(
    s: StateModel,
    sender: Seq<char>,
    member: Seq<char>,
) -> Result<StateModel, ContractError> {
    if sender != s.owner {
        Err(ContractError::Unauthorized)
    } else if s.family_members.contains(member) {
        Err(ContractError::AlreadyExists)
    } else {
        Ok(StateModel { family_members: s.family_members.push(member), ..s })
    }
}

/// Owner removes a family member; removing an absent one is a no-op.
pub open spec fn remove_family_step(
    s: StateModel,
    sender: Seq<char>,
    member: Seq<char>,
) -> Result<StateModel, ContractError> {
    if sender != s.owner {
        Err(ContractError::Unauthorized)
    } else {
        Ok(StateModel { family_members: remove_all(s.family_members, member), ..s })
    }
}

// ---------------------------------------------------------------------------
// Every successful transition preserves well-formedness.
// ---------------------------------------------------------------------------

/// Pushing an identifier absent from a duplicate-free list keeps it
/// duplicate-free.
proof fn lemma_push_no_dup(s: Seq<Seq<char>>, x: Seq<char>)
    requires
        no_dup(s),
        !s.contains(x),
    ensures
        no_dup(s.push(x)),
{
    let p = s.push(x);
    assert forall|i: int, j: int| 0 <= i < j < p.len() implies p[i] != p[j] by {
        if j < p.len() - 1 {
            assert(p[i] == s[i] && p[j] == s[j]);
        } else {
            assert(p[i] == s[i] && p[j] == x);
            assert(s.contains(s[i]));
        }
    }
}

pub proof fn lemma_add_guardian_step_wf(s: StateModel, sender: Seq<char>, guardian: Seq<char>)
    requires
        s.wf(),
        add_guardian_step(s, sender, guardian) is Ok,
    ensures
        (add_guardian_step(s, sender, guardian)->Ok_0).wf(),
{
    lemma_push_no_dup(s.guardians_pending, guardian);
    assert forall|x: Seq<char>| s.guardians.contains(x) implies !s.guardians_pending.push(
        guardian,
    ).contains(x) by {
        lemma_contains_push(s.guardians_pending, guardian, x);
    }
}

pub proof fn lemma_confirm_step_wf(s: StateModel, guardian: Seq<char>)
    requires
        s.wf(),
        confirm_guardian_step(s, guardian) is Ok,
    ensures
        (confirm_guardian_step(s, guardian)->Ok_0).wf(),
{
    assert(!s.guardians.contains(guardian));
    lemma_push_no_dup(s.guardians, guardian);
    lemma_remove_all_props(s.guardians_pending, guardian);
    let pend = remove_all(s.guardians_pending, guardian);
    assert forall|x: Seq<char>| s.guardians.push(guardian).contains(x) implies !pend.contains(
        x,
    ) by {
        lemma_contains_push(s.guardians, guardian, x);
    }
    assert forall|x: Seq<char>| s.recovery_signatures.contains(x) implies s.guardians.push(
        guardian,
    ).contains(x) by {
        lemma_contains_push(s.guardians, guardian, x);
    }
}

pub proof fn lemma_cancel_pending_step_wf(s: StateModel, sender: Seq<char>, guardian: Seq<char>)
    requires
        s.wf(),
        cancel_pending_step(s, sender, guardian) is Ok,
    ensures
        (cancel_pending_step(s, sender, guardian)->Ok_0).wf(),
{
    lemma_remove_all_props(s.guardians_pending, guardian);
}

pub proof fn lemma_remove_guardian_step_wf(s: StateModel, sender: Seq<char>, guardian: Seq<char>)
    requires
        s.wf(),
        remove_guardian_step(s, sender, guardian) is Ok,
    ensures
        (remove_guardian_step(s, sender, guardian)->Ok_0).wf(),
{
    lemma_remove_all_props(s.guardians, guardian);
    lemma_remove_all_props(s.recovery_signatures, guardian);
    let sigs = remove_all(s.recovery_signatures, guardian);
    assert forall|x: Seq<char>| sigs.contains(x) implies remove_all(s.guardians, guardian).contains(
        x,
    ) by {
        assert(s.recovery_signatures.contains(x) && x != guardian);
        assert(s.guardians.contains(x));
    }
}

pub proof fn lemma_execute_recovery_step_wf(s: StateModel, new_owner: Seq<char>, guardian: Seq<char>)
    requires
        s.wf(),
        execute_recovery_step(s, new_owner, guardian) is Ok,
    ensures
        (execute_recovery_step(s, new_owner, guardian)->Ok_0).wf(),
{
    if s.guardians.len() != 1 {
        assert forall|y: Seq<char>| seq![guardian].contains(y) implies s.guardians.contains(y) by {
            let i = choose|i: int| 0 <= i < seq![guardian].len() && seq![guardian][i] == y;
            assert(y == guardian);
        }
    }
}

pub proof fn lemma_approve_step_wf(s: StateModel, guardian: Seq<char>)
    requires
        s.wf(),
        approve_step(s, guardian) is Ok,
    ensures
        (approve_step(s, guardian)->Ok_0).wf(),
{
    assert forall|y: Seq<char>| s.recovery_signatures.push(guardian).contains(
        y,
    ) implies s.guardians.contains(y) by {
        lemma_contains_push(s.recovery_signatures, guardian, y);
    }
}

pub proof fn lemma_cancel_recovery_step_wf(s: StateModel, sender: Seq<char>, guardian: Seq<char>)
    requires
        s.wf(),
        cancel_recovery_step(s, sender, guardian) is Ok,
    ensures
        (cancel_recovery_step(s, sender, guardian)->Ok_0).wf(),
{
}

pub proof fn lemma_add_family_step_wf(s: StateModel, sender: Seq<char>, member: Seq<char>)
    requires
        s.wf(),
        add_family_step(s, sender, member) is Ok,
    ensures
        (add_family_step(s, sender, member)->Ok_0).wf(),
{
    lemma_push_no_dup(s.family_members, member);
}

pub proof fn lemma_remove_family_step_wf(s: StateModel, sender: Seq<char>, member: Seq<char>)
    requires
        s.wf(),
        remove_family_step(s, sender, member) is Ok,
    ensures
        (remove_family_step(s, sender, member)->Ok_0).wf(),
{
    lemma_remove_all_props(s.family_members, member);
}

// ---------------------------------------------------------------------------
// What a command returns: the log entries of each operation.
// ---------------------------------------------------------------------------

/// The log is exactly the two given (key, value) entries.
pub open spec fn log_is2(
    l: Seq<LogEntry>,
    k1: Seq<char>,
    v1: Seq<char>,
    k2: Seq<char>,
    v2: Seq<char>,
) -> bool {
    &&& l.len() == 2
    &&& l[0].key@ == k1
    &&& l[0].value@ == v1
    &&& l[1].key@ == k2
    &&& l[1].value@ == v2
}

/// The log is exactly the three given (key, value) entries.
pub open spec fn log_is3(
    l: Seq<LogEntry>,
    k1: Seq<char>,
    v1: Seq<char>,
    k2: Seq<char>,
    v2: Seq<char>,
    k3: Seq<char>,
    v3: Seq<char>,
) -> bool {
    &&& l.len() == 3
    &&& l[0].key@ == k1
    &&& l[0].value@ == v1
    &&& l[1].key@ == k2
    &&& l[1].value@ == v2
    &&& l[2].key@ == k3
    &&& l[2].value@ == v3
}

/// A success that moves no funds: no transfer instruction, and exactly the
/// log entries of the operation.
pub open spec fn plain_ok(
    r: Result<HandleResponse, ContractError>,
    action: Seq<char>,
    k2: Seq<char>,
    v2: Seq<char>,
) -> bool {
    &&& r is Ok
    &&& (r->Ok_0).messages@.len() == 0
    &&& log_is2((r->Ok_0).log@, "action"@, action, k2, v2)
}

// ---------------------------------------------------------------------------
// Full contracts of the handlers, shared with the dispatcher.
// ---------------------------------------------------------------------------

pub open spec fn add_guardian_post(
    s0: StateModel,
    sender: Seq<char>,
    guardian: Seq<char>,
    r: Result<HandleResponse, ContractError>,
    s1: StateModel,
) -> bool {
    match add_guardian_step(s0, sender, guardian) {
        Ok(s2) => s1 == s2 && plain_ok(r, "add_guardian_request"@, "guardian"@, guardian),
        Err(e) => s1 == s0 && r == Err::<HandleResponse, ContractError>(e),
    }
}

pub open spec fn confirm_guardian_post(
    s0: StateModel,
    sender: Seq<char>,
    guardian: Seq<char>,
    r: Result<HandleResponse, ContractError>,
    s1: StateModel,
) -> bool {
    match confirm_guardian_step(s0, guardian) {
        Ok(s2) => s1 == s2 && plain_ok(r, "add_guardian_confirm"@, "guardian"@, sender),
        Err(e) => s1 == s0 && r == Err::<HandleResponse, ContractError>(e),
    }
}

pub open spec fn cancel_pending_post(
    s0: StateModel,
    sender: Seq<char>,
    guardian: Seq<char>,
    r: Result<HandleResponse, ContractError>,
    s1: StateModel,
) -> bool {
    match cancel_pending_step(s0, sender, guardian) {
        Ok(s2) => s1 == s2 && plain_ok(r, "cancel_guardian_request"@, "guardian"@, sender),
        Err(e) => s1 == s0 && r == Err::<HandleResponse, ContractError>(e),
    }
}

pub open spec fn remove_guardian_post(
    s0: StateModel,
    sender: Seq<char>,
    guardian: Seq<char>,
    r: Result<HandleResponse, ContractError>,
    s1: StateModel,
) -> bool {
    match remove_guardian_step(s0, sender, guardian) {
        Ok(s2) => s1 == s2 && plain_ok(r, "remove_guardian"@, "guardian"@, guardian),
        Err(e) => s1 == s0 && r == Err::<HandleResponse, ContractError>(e),
    }
}

pub open spec fn execute_recovery_post(
    s0: StateModel,
    sender: Seq<char>,
    new_owner: Seq<char>,
    guardian: Seq<char>,
    r: Result<HandleResponse, ContractError>,
    s1: StateModel,
) -> bool {
    match execute_recovery_step(s0, new_owner, guardian) {
        Ok(s2) => s1 == s2 && plain_ok(r, "execute_recovery"@, "sender"@, sender),
        Err(e) => s1 == s0 && r == Err::<HandleResponse, ContractError>(e),
    }
}

pub open spec fn approve_post(
    s0: StateModel,
    sender: Seq<char>,
    guardian: Seq<char>,
    r: Result<HandleResponse, ContractError>,
    s1: StateModel,
) -> bool {
    match approve_step(s0, guardian) {
        Ok(s2) => s1 == s2 && plain_ok(r, "approve_request"@, "guardian"@, sender),
        Err(e) => s1 == s0 && r == Err::<HandleResponse, ContractError>(e),
    }
}

pub open spec fn cancel_recovery_post(
    s0: StateModel,
    sender: Seq<char>,
    guardian: Seq<char>,
    r: Result<HandleResponse, ContractError>,
    s1: StateModel,
) -> bool {
    match cancel_recovery_step(s0, sender, guardian) {
        Ok(s2) => s1 == s2 && plain_ok(r, "cancel_recovery"@, "sender"@, sender),
        Err(e) => s1 == s0 && r == Err::<HandleResponse, ContractError>(e),
    }
}

pub open spec fn add_family_post(
    s0: StateModel,
    sender: Seq<char>,
    member: Seq<char>,
    r: Result<HandleResponse, ContractError>,
    s1: StateModel,
) -> bool {
    match add_family_step(s0, sender, member) {
        Ok(s2) => s1 == s2 && plain_ok(r, "add_family_member"@, "guard_for"@, member),
        Err(e) => s1 == s0 && r == Err::<HandleResponse, ContractError>(e),
    }
}

pub open spec fn remove_family_post(
    s0: StateModel,
    sender: Seq<char>,
    member: Seq<char>,
    r: Result<HandleResponse, ContractError>,
    s1: StateModel,
) -> bool {
    match remove_family_step(s0, sender, member) {
        Ok(s2) => s1 == s2 && plain_ok(r, "remove_family_member"@, "family_member"@, member),
        Err(e) => s1 == s0 && r == Err::<HandleResponse, ContractError>(e),
    }
}

/// A send either fails `Unauthorized` for a non-owner, or produces exactly
/// one transfer instruction matching the request; it never touches state.
pub open spec fn send_post(
    s0: StateModel,
    env: Env,
    to_address: Seq<char>,
    amount: Seq<Coin>,
    r: Result<HandleResponse, ContractError>,
) -> bool {
    if env.sender@ != s0.owner {
        r == Err::<HandleResponse, ContractError>(ContractError::Unauthorized)
    } else {
        &&& r is Ok
        &&& (r->Ok_0).messages@.len() == 1
        &&& (r->Ok_0).messages@[0].from_address@ == env.contract_address@
        &&& (r->Ok_0).messages@[0].to_address@ == to_address
        &&& (r->Ok_0).messages@[0].amount@ == amount
        &&& log_is3(
            (r->Ok_0).log@,
            "action"@,
            "send_tokens"@,
            "sender"@,
            env.contract_address@,
            "receiver"@,
            to_address,
        )
    }
}

// ---------------------------------------------------------------------------
// Small composable pieces.
// ---------------------------------------------------------------------------

/// Whether `addr` is the owner of the account.
pub fn is_owner(state: &State, addr: &String) -> (r: bool)
    ensures
        r == (addr@ == state@.owner),
{
    *addr == state.owner
}

/// Whether `addr` is a confirmed guardian.
pub fn is_guardian(state: &State, addr: &String) -> (r: bool)
    ensures
        r == state@.guardians.contains(addr@),
{
    contains_id(&state.guardians, addr)
}

/// The vote bookkeeping: appends the vote and says whether the signatures
/// now pass the strict majority threshold of `guardian_count`.
pub fn record_vote(signatures: &mut Vec<String>, guardian_count: usize, vote: String) -> (finalize:
    bool)
    ensures
        ids(final(signatures)@) == ids(old(signatures)@).push(vote@),
        finalize == (ids(old(signatures)@).len() + 1 > guardian_count as int / 2),
{
    signatures.push(vote);
    proof {
        assert(ids(signatures@) =~= ids(old(signatures)@).push(vote@));
    }
    signatures.len() > guardian_count / 2
}

/// A response that moves no funds: the two log entries of an operation.
fn response2(k1: &str, v1: &str, k2: &str, v2: String) -> (r: HandleResponse)
    ensures
        r.messages@.len() == 0,
        log_is2(r.log@, k1@, v1@, k2@, v2@),
{
    let mut log: Vec<LogEntry> = Vec::new();
    log.push(LogEntry { key: k1.to_owned(), value: v1.to_owned() });
    log.push(LogEntry { key: k2.to_owned(), value: v2 });
    HandleResponse { messages: Vec::new(), log }
}

// ---------------------------------------------------------------------------
// The handlers.
// ---------------------------------------------------------------------------

/// Creates the account record: the initializing identity becomes the
/// owner, every list starts empty.
pub fn init(env: &Env, _msg: InitMsg) -> (st: State)
    ensures
        st@ == init_state(env.sender@),
        st.wf(),
{
    let st = State {
        owner: env.sender.clone(),
        guardians_pending: Vec::new(),
        guardians: Vec::new(),
        is_recovering: false,
        recovery_address: env.sender.clone(),
        recovery_signatures: Vec::new(),
        family_members: Vec::new(),
    };
    proof {
        assert(st@ =~= init_state(env.sender@));
    }
    st
}

/// Owner-only request to put `guardian` on the pending list.
pub fn try_add_guardian(state: &mut State, env: &Env, guardian: String) -> (r: Result<
    HandleResponse,
    ContractError,
>)
    requires
        old(state).wf(),
    ensures
        final(state).wf(),
        add_guardian_post(old(state)@, env.sender@, guardian@, r, final(state)@),
{
    if !is_owner(state, &env.sender) {
        return Err(ContractError::Unauthorized);
    }
    if contains_id(&state.guardians, &guardian) {
        return Err(ContractError::AlreadyGuardian);
    }
    if contains_id(&state.guardians_pending, &guardian) {
        return Err(ContractError::AlreadyPending);
    }
    proof {
        lemma_add_guardian_step_wf(old(state)@, env.sender@, guardian@);
    }
    let logged = guardian.clone();
    state.guardians_pending.push(guardian);
    proof {
        assert(state@ =~= (StateModel {
            guardians_pending: old(state)@.guardians_pending.push(guardian@),
            ..old(state)@
        }));
    }
    Ok(response2("action", "add_guardian_request", "guardian", logged))
}

/// Confirms a pending candidate, moving it pending -> confirmed. By design
/// no check ties the caller to the candidate.
pub fn try_add_guardian_confirm(state: &mut State, env: &Env, guardian: String) -> (r: Result<
    HandleResponse,
    ContractError,
>)
    requires
        old(state).wf(),
    ensures
        final(state).wf(),
        confirm_guardian_post(old(state)@, env.sender@, guardian@, r, final(state)@),
{
    if !contains_id(&state.guardians_pending, &guardian) {
        return Err(ContractError::NotPending);
    }
    proof {
        lemma_confirm_step_wf(old(state)@, guardian@);
    }
    remove_id(&mut state.guardians_pending, &guardian);
    state.guardians.push(guardian);
    proof {
        assert(state@ =~= (StateModel {
            guardians: old(state)@.guardians.push(guardian@),
            guardians_pending: remove_all(old(state)@.guardians_pending, guardian@),
            ..old(state)@
        }));
    }
    Ok(response2("action", "add_guardian_confirm", "guardian", env.sender.clone()))
}

/// Owner-only withdrawal of a pending candidate.
pub fn try_add_guardian_confirm_cancel(state: &mut State, env: &Env, guardian: String) -> (r:
    Result<HandleResponse, ContractError>)
    requires
        old(state).wf(),
    ensures
        final(state).wf(),
        cancel_pending_post(old(state)@, env.sender@, guardian@, r, final(state)@),
{
    if !is_owner(state, &env.sender) {
        return Err(ContractError::Unauthorized);
    }
    if !contains_id(&state.guardians_pending, &guardian) {
        return Err(ContractError::NotPending);
    }
    proof {
        lemma_cancel_pending_step_wf(old(state)@, env.sender@, guardian@);
    }
    remove_id(&mut state.guardians_pending, &guardian);
    proof {
        assert(state@ =~= (StateModel {
            guardians_pending: remove_all(old(state)@.guardians_pending, guardian@),
            ..old(state)@
        }));
    }
    Ok(response2("action", "cancel_guardian_request", "guardian", env.sender.clone()))
}

/// Owner-only removal of a confirmed guardian; removing an absent one
/// succeeds with no effect, and a signature the removed guardian cast on
/// an in-flight recovery leaves with the guardian.
pub fn try_remove_guardian(state: &mut State, env: &Env, guardian: String) -> (r: Result<
    HandleResponse,
    ContractError,
>)
    requires
        old(state).wf(),
    ensures
        final(state).wf(),
        remove_guardian_post(old(state)@, env.sender@, guardian@, r, final(state)@),
{
    if !is_owner(state, &env.sender) {
        return Err(ContractError::Unauthorized);
    }
    proof {
        lemma_remove_guardian_step_wf(old(state)@, env.sender@, guardian@);
    }
    remove_id(&mut state.guardians, &guardian);
    remove_id(&mut state.recovery_signatures, &guardian);
    proof {
        assert(state@ =~= (StateModel {
            guardians: remove_all(old(state)@.guardians, guardian@),
            recovery_signatures: remove_all(old(state)@.recovery_signatures, guardian@),
            ..old(state)@
        }));
    }
    Ok(response2("action", "remove_guardian", "guardian", guardian))
}

/// Owner-only transfer: produces the single outbound transfer instruction
/// and leaves the account record untouched.
pub fn try_send(state: &State, env: &Env, to_address: String, amount: Vec<Coin>) -> (r: Result<
    HandleResponse,
    ContractError,
>)
    ensures
        send_post(state@, *env, to_address@, amount@, r),
{
    if !is_owner(state, &env.sender) {
        return Err(ContractError::Unauthorized);
    }
    let mut messages: Vec<TransferMsg> = Vec::new();
    messages.push(
        TransferMsg {
            from_address: env.contract_address.clone(),
            to_address: to_address.clone(),
            amount,
        },
    );
    let mut log: Vec<LogEntry> = Vec::new();
    log.push(LogEntry { key: "action".to_owned(), value: "send_tokens".to_owned() });
    log.push(LogEntry { key: "sender".to_owned(), value: env.contract_address.clone() });
    log.push(LogEntry { key: "receiver".to_owned(), value: to_address });
    Ok(HandleResponse { messages, log })
}

/// A guardian starts a recovery towards `new_owner`, valid only while the
/// account is idle; with a single guardian the ownership transfers at
/// once.
pub fn try_execute_recovery(state: &mut State, env: &Env, new_owner: String, guardian: String) -> (r:
    Result<HandleResponse, ContractError>)
    requires
        old(state).wf(),
    ensures
        final(state).wf(),
        execute_recovery_post(old(state)@, env.sender@, new_owner@, guardian@, r, final(state)@),
{
    if !is_guardian(state, &guardian) {
        return Err(ContractError::Unauthorized);
    }
    if state.is_recovering {
        return Err(ContractError::InvalidState);
    }
    proof {
        lemma_execute_recovery_step_wf(old(state)@, new_owner@, guardian@);
    }
    if state.guardians.len() == 1 {
        state.owner = new_owner;
        proof {
            assert(state@ =~= (StateModel { owner: new_owner@, ..old(state)@ }));
        }
    } else {
        let mut signed: Vec<String> = Vec::new();
        signed.push(guardian);
        state.is_recovering = true;
        state.recovery_address = new_owner;
        state.recovery_signatures = signed;
        proof {
            assert(state@ =~= (StateModel {
                is_recovering: true,
                recovery_address: new_owner@,
                recovery_signatures: seq![guardian@],
                ..old(state)@
            }));
        }
    }
    Ok(response2("action", "execute_recovery", "sender", env.sender.clone()))
}

/// The owner, or anyone citing a confirmed guardian, cancels the recovery;
/// the vote closes and the signatures are cleared, even when no vote was
/// in flight.
pub fn try_cancel_recovery(state: &mut State, env: &Env, guardian: String) -> (r: Result<
    HandleResponse,
    ContractError,
>)
    requires
        old(state).wf(),
    ensures
        final(state).wf(),
        cancel_recovery_post(old(state)@, env.sender@, guardian@, r, final(state)@),
{
    if !is_owner(state, &env.sender) {
        if !is_guardian(state, &guardian) {
            return Err(ContractError::Unauthorized);
        }
    }
    state.is_recovering = false;
    state.recovery_signatures = Vec::new();
    proof {
        assert(state@ =~= (StateModel {
            is_recovering: false,
            recovery_signatures: Seq::empty(),
            ..old(state)@
        }));
    }
    Ok(response2("action", "cancel_recovery", "sender", env.sender.clone()))
}

/// A guardian approves the in-flight recovery; passing the strict majority
/// threshold finalizes the ownership transfer.
pub fn try_guardian_approve_request(state: &mut State, env: &Env, guardian: String) -> (r: Result<
    HandleResponse,
    ContractError,
>)
    requires
        old(state).wf(),
    ensures
        final(state).wf(),
        approve_post(old(state)@, env.sender@, guardian@, r, final(state)@),
{
    if !state.is_recovering {
        return Err(ContractError::NotRecovering);
    }
    if !is_guardian(state, &guardian) {
        return Err(ContractError::Unauthorized);
    }
    proof {
        lemma_approve_step_wf(old(state)@, guardian@);
    }
    let guardian_count = state.guardians.len();
    let finalize = record_vote(&mut state.recovery_signatures, guardian_count, guardian);
    if finalize {
        let new_owner = state.recovery_address.clone();
        state.owner = new_owner;
        state.is_recovering = false;
        state.recovery_signatures = Vec::new();
        proof {
            assert(state@ =~= (StateModel {
                owner: old(state)@.recovery_address,
                is_recovering: false,
                recovery_signatures: Seq::empty(),
                ..old(state)@
            }));
        }
    } else {
        proof {
            assert(state@ =~= (StateModel {
                recovery_signatures: old(state)@.recovery_signatures.push(guardian@),
                ..old(state)@
            }));
        }
    }
    Ok(response2("action", "approve_request", "guardian", env.sender.clone()))
}

/// Owner-only recording of a family member.
pub fn try_add_family_member(state: &mut State, env: &Env, family_member: String) -> (r: Result<
    HandleResponse,
    ContractError,
>)
    requires
        old(state).wf(),
    ensures
        final(state).wf(),
        add_family_post(old(state)@, env.sender@, family_member@, r, final(state)@),
{
    if !is_owner(state, &env.sender) {
        return Err(ContractError::Unauthorized);
    }
    if contains_id(&state.family_members, &family_member) {
        return Err(ContractError::AlreadyExists);
    }
    proof {
        lemma_add_family_step_wf(old(state)@, env.sender@, family_member@);
    }
    let logged = family_member.clone();
    state.family_members.push(family_member);
    proof {
        assert(state@ =~= (StateModel {
            family_members: old(state)@.family_members.push(family_member@),
            ..old(state)@
        }));
    }
    Ok(response2("action", "add_family_member", "guard_for", logged))
}

/// Owner-only removal of a family member; removing an absent one succeeds
/// with no effect.
pub fn try_remove_family_member(state: &mut State, env: &Env, family_member: String) -> (r: Result<
    HandleResponse,
    ContractError,
>)
    requires
        old(state).wf(),
    ensures
        final(state).wf(),
        remove_family_post(old(state)@, env.sender@, family_member@, r, final(state)@),
{
    if !is_owner(state, &env.sender) {
        return Err(ContractError::Unauthorized);
    }
    proof {
        lemma_remove_family_step_wf(old(state)@, env.sender@, family_member@);
    }
    remove_id(&mut state.family_members, &family_member);
    proof {
        assert(state@ =~= (StateModel {
            family_members: remove_all(old(state)@.family_members, family_member@),
            ..old(state)@
        }));
    }
    Ok(response2("action", "remove_family_member", "family_member", family_member))
}

/// Dispatches a command to its handler.
pub fn handle(state: &mut State, env: &Env, msg: HandleMsg) -> (r: Result<
    HandleResponse,
    ContractError,
>)
    requires
        old(state).wf(),
    ensures
        final(state).wf(),
        (match msg {
            HandleMsg::AddGuardian { guardian } => add_guardian_post(
                old(state)@,
                env.sender@,
                guardian@,
                r,
                final(state)@,
            ),
            HandleMsg::RemoveGuardian { guardian } => remove_guardian_post(
                old(state)@,
                env.sender@,
                guardian@,
                r,
                final(state)@,
            ),
            HandleMsg::AddGuardianConfirm { guardian } => confirm_guardian_post(
                old(state)@,
                env.sender@,
                guardian@,
                r,
                final(state)@,
            ),
            HandleMsg::AddGuardianConfirmCancel { guardian } => cancel_pending_post(
                old(state)@,
                env.sender@,
                guardian@,
                r,
                final(state)@,
            ),
            HandleMsg::ExecuteRecovery { new_owner, guardian } => execute_recovery_post(
                old(state)@,
                env.sender@,
                new_owner@,
                guardian@,
                r,
                final(state)@,
            ),
            HandleMsg::CancelRecovery { guardian } => cancel_recovery_post(
                old(state)@,
                env.sender@,
                guardian@,
                r,
                final(state)@,
            ),
            HandleMsg::GuardianApproveRequest { guardian } => approve_post(
                old(state)@,
                env.sender@,
                guardian@,
                r,
                final(state)@,
            ),
            HandleMsg::SendTokens { to_address, amount } => final(state)@ == old(state)@
                && send_post(old(state)@, *env, to_address@, amount@, r),
            HandleMsg::AddFamilyMember { family_member } => add_family_post(
                old(state)@,
                env.sender@,
                family_member@,
                r,
                final(state)@,
            ),
            HandleMsg::RemoveFamilyMember { family_member } => remove_family_post(
                old(state)@,
                env.sender@,
                family_member@,
                r,
                final(state)@,
            ),
        }),
{
    match msg {
        HandleMsg::AddGuardian { guardian } => try_add_guardian(state, env, guardian),
        HandleMsg::RemoveGuardian { guardian } => try_remove_guardian(state, env, guardian),
        HandleMsg::AddGuardianConfirm { guardian } => try_add_guardian_confirm(
            state,
            env,
            guardian,
        ),
        HandleMsg::AddGuardianConfirmCancel { guardian } => try_add_guardian_confirm_cancel(
            state,
            env,
            guardian,
        ),
        HandleMsg::ExecuteRecovery { new_owner, guardian } => try_execute_recovery(
            state,
            env,
            new_owner,
            guardian,
        ),
        HandleMsg::CancelRecovery { guardian } => try_cancel_recovery(state, env, guardian),
        HandleMsg::GuardianApproveRequest { guardian } => try_guardian_approve_request(
            state,
            env,
            guardian,
        ),
        HandleMsg::SendTokens { to_address, amount } => try_send(state, env, to_address, amount),
        HandleMsg::AddFamilyMember { family_member } => try_add_family_member(
            state,
            env,
            family_member,
        ),
        HandleMsg::RemoveFamilyMember { family_member } => try_remove_family_member(
            state,
            env,
            family_member,
        ),
    }
}

// ---------------------------------------------------------------------------
// Query projections: pure, unauthenticated reads.
// ---------------------------------------------------------------------------

/// The current owner.
pub fn query_owner(state: &State) -> (r: OwnerResponse)
    ensures
        r.owner@ == state@.owner,
{
    OwnerResponse { owner: state.owner.clone() }
}

/// Whether a recovery vote is in flight.
pub fn query_recovery_status(state: &State) -> (r: RecoveryResponse)
    ensures
        r.is_recovering == state@.is_recovering,
{
    RecoveryResponse { is_recovering: state.is_recovering }
}

/// The confirmed guardians, in insertion order.
pub fn query_guardians(state: &State) -> (r: GuardianResponse)
    ensures
        ids(r.guardians@) == state@.guardians,
{
    GuardianResponse { guardians: clone_ids(&state.guardians) }
}

/// The pending guardians, in insertion order.
pub fn query_pending_guardians(state: &State) -> (r: GuardianResponse)
    ensures
        ids(r.guardians@) == state@.guardians_pending,
{
    GuardianResponse { guardians: clone_ids(&state.guardians_pending) }
}

/// The guardians that approved the current recovery, in voting order.
pub fn query_recovery_signatures(state: &State) -> (r: SignerResponse)
    ensures
        ids(r.signers@) == state@.recovery_signatures,
{
    SignerResponse { signers: clone_ids(&state.recovery_signatures) }
}

/// The recorded family members, in insertion order.
pub fn query_family_member(state: &State) -> (r: FamilyResponse)
    ensures
        ids(r.family_members@) == state@.family_members,
{
    FamilyResponse { family_members: clone_ids(&state.family_members) }
}

/// Dispatches a query to its projection.
pub fn query(state: &State, msg: QueryMsg) -> (r: QueryAnswer)
    ensures
        (match msg {
            QueryMsg::GetOwner {} => r matches QueryAnswer::Owner(a) && a.owner@ == state@.owner,
            QueryMsg::GetRecoveryStatus {} => r matches QueryAnswer::RecoveryStatus(a)
                && a.is_recovering == state@.is_recovering,
            QueryMsg::GetGuardians {} => r matches QueryAnswer::Guardians(a) && ids(a.guardians@)
                == state@.guardians,
            QueryMsg::GetSigners {} => r matches QueryAnswer::Signers(a) && ids(a.signers@)
                == state@.recovery_signatures,
            QueryMsg::GetPendingGuardians {} => r matches QueryAnswer::PendingGuardians(a) && ids(
                a.guardians@,
            ) == state@.guardians_pending,
            QueryMsg::GetFamilyMembers {} => r matches QueryAnswer::FamilyMembers(a) && ids(
                a.family_members@,
            ) == state@.family_members,
        }),
{
    match msg {
        QueryMsg::GetOwner {} => QueryAnswer::Owner(query_owner(state)),
        QueryMsg::GetRecoveryStatus {} => QueryAnswer::RecoveryStatus(query_recovery_status(state)),
        QueryMsg::GetGuardians {} => QueryAnswer::Guardians(query_guardians(state)),
        QueryMsg::GetSigners {} => QueryAnswer::Signers(query_recovery_signatures(state)),
        QueryMsg::GetPendingGuardians {} => QueryAnswer::PendingGuardians(
            query_pending_guardians(state),
        ),
        QueryMsg::GetFamilyMembers {} => QueryAnswer::FamilyMembers(query_family_member(state)),
    }
}

} // verus!
