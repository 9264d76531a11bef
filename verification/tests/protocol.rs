//! Error paths, thresholds, idempotence and the funds-transfer response,
//! checked on concrete values.

use recovery_wallet::contract::{handle, init, query, try_send};
use recovery_wallet::msg::{
    Coin, ContractError, Env, HandleMsg, InitMsg, QueryAnswer, QueryMsg,
};
use recovery_wallet::state::State;

fn mock_env(sender: &str) -> Env {
    Env { sender: sender.to_string(), contract_address: "cosmos2contract".to_string() }
}

fn owner_of(state: &State) -> String {
    match query(state, QueryMsg::GetOwner {}) {
        QueryAnswer::Owner(value) => value.owner,
        _ => panic!("unexpected answer"),
    }
}

fn guardians_of(state: &State) -> Vec<String> {
    match query(state, QueryMsg::GetGuardians {}) {
        QueryAnswer::Guardians(value) => value.guardians,
        _ => panic!("unexpected answer"),
    }
}

fn pending_of(state: &State) -> Vec<String> {
    match query(state, QueryMsg::GetPendingGuardians {}) {
        QueryAnswer::PendingGuardians(value) => value.guardians,
        _ => panic!("unexpected answer"),
    }
}

fn signers_of(state: &State) -> Vec<String> {
    match query(state, QueryMsg::GetSigners {}) {
        QueryAnswer::Signers(value) => value.signers,
        _ => panic!("unexpected answer"),
    }
}

fn family_of(state: &State) -> Vec<String> {
    match query(state, QueryMsg::GetFamilyMembers {}) {
        QueryAnswer::FamilyMembers(value) => value.family_members,
        _ => panic!("unexpected answer"),
    }
}

fn is_recovering(state: &State) -> bool {
    match query(state, QueryMsg::GetRecoveryStatus {}) {
        QueryAnswer::RecoveryStatus(value) => value.is_recovering,
        _ => panic!("unexpected answer"),
    }
}

/// Onboards each named guardian through request plus confirmation.
fn with_guardians(state: &mut State, names: &[&str]) {
    for name in names {
        let env = mock_env("creator");
        let msg = HandleMsg::AddGuardian { guardian: name.to_string() };
        handle(state, &env, msg).unwrap();
        let env = mock_env(name);
        let msg = HandleMsg::AddGuardianConfirm { guardian: name.to_string() };
        handle(state, &env, msg).unwrap();
    }
}

#[test]
fn fresh_wallet_is_empty() {
    let state = init(&mock_env("creator"), InitMsg {});
    assert_eq!("creator", owner_of(&state));
    assert_eq!(0, guardians_of(&state).len());
    assert_eq!(0, pending_of(&state).len());
    assert_eq!(0, family_of(&state).len());
    assert_eq!(0, signers_of(&state).len());
    assert_eq!(false, is_recovering(&state));
}

#[test]
fn add_guardian_by_non_owner_fails() {
    let mut state = init(&mock_env("creator"), InitMsg {});
    let res = handle(
        &mut state,
        &mock_env("mallory"),
        HandleMsg::AddGuardian { guardian: "guardian1".to_string() },
    );
    assert_eq!(res, Err(ContractError::Unauthorized));
    assert_eq!("creator", owner_of(&state));
    assert_eq!(0, pending_of(&state).len());
}

#[test]
fn add_guardian_request_logs() {
    let mut state = init(&mock_env("creator"), InitMsg {});
    let res = handle(
        &mut state,
        &mock_env("creator"),
        HandleMsg::AddGuardian { guardian: "guardian1".to_string() },
    )
    .unwrap();
    assert_eq!(0, res.messages.len());
    assert_eq!(2, res.log.len());
    assert_eq!("action", res.log[0].key);
    assert_eq!("add_guardian_request", res.log[0].value);
    assert_eq!("guardian", res.log[1].key);
    assert_eq!("guardian1", res.log[1].value);
}

#[test]
fn add_guardian_twice_fails() {
    let mut state = init(&mock_env("creator"), InitMsg {});
    let env = mock_env("creator");
    handle(&mut state, &env, HandleMsg::AddGuardian { guardian: "guardian1".to_string() })
        .unwrap();
    let res = handle(
        &mut state,
        &env,
        HandleMsg::AddGuardian { guardian: "guardian1".to_string() },
    );
    assert_eq!(res, Err(ContractError::AlreadyPending));
    with_guardians(&mut state, &["guardian2"]);
    let res = handle(
        &mut state,
        &env,
        HandleMsg::AddGuardian { guardian: "guardian2".to_string() },
    );
    assert_eq!(res, Err(ContractError::AlreadyGuardian));
}

#[test]
fn confirm_without_request_fails() {
    let mut state = init(&mock_env("creator"), InitMsg {});
    let res = handle(
        &mut state,
        &mock_env("guardian1"),
        HandleMsg::AddGuardianConfirm { guardian: "guardian1".to_string() },
    );
    assert_eq!(res, Err(ContractError::NotPending));
    assert_eq!(0, guardians_of(&state).len());
    assert_eq!(0, pending_of(&state).len());
}

#[test]
fn cancel_pending_of_absent_candidate_fails() {
    let mut state = init(&mock_env("creator"), InitMsg {});
    let res = handle(
        &mut state,
        &mock_env("creator"),
        HandleMsg::AddGuardianConfirmCancel { guardian: "guardian1".to_string() },
    );
    assert_eq!(res, Err(ContractError::NotPending));
}

#[test]
fn single_guardian_fast_path() {
    let mut state = init(&mock_env("creator"), InitMsg {});
    with_guardians(&mut state, &["guardian1"]);
    let res = handle(
        &mut state,
        &mock_env("guardian1"),
        HandleMsg::ExecuteRecovery {
            new_owner: "owner2".to_string(),
            guardian: "guardian1".to_string(),
        },
    );
    assert!(res.is_ok());
    assert_eq!("owner2", owner_of(&state));
    assert_eq!(false, is_recovering(&state));
    assert_eq!(0, signers_of(&state).len());
}

#[test]
fn two_guardian_threshold() {
    let mut state = init(&mock_env("creator"), InitMsg {});
    with_guardians(&mut state, &["guardian1", "guardian2"]);
    handle(
        &mut state,
        &mock_env("guardian1"),
        HandleMsg::ExecuteRecovery {
            new_owner: "owner2".to_string(),
            guardian: "guardian1".to_string(),
        },
    )
    .unwrap();
    assert_eq!(true, is_recovering(&state));
    assert_eq!(vec!["guardian1"], signers_of(&state));
    assert_eq!("creator", owner_of(&state));

    // one more approval passes the threshold: 2 > 2 / 2
    handle(
        &mut state,
        &mock_env("guardian2"),
        HandleMsg::GuardianApproveRequest { guardian: "guardian2".to_string() },
    )
    .unwrap();
    assert_eq!("owner2", owner_of(&state));
    assert_eq!(false, is_recovering(&state));
    assert_eq!(0, signers_of(&state).len());
}

#[test]
fn three_guardian_threshold() {
    let mut state = init(&mock_env("creator"), InitMsg {});
    with_guardians(&mut state, &["guardian1", "guardian2", "guardian3"]);
    handle(
        &mut state,
        &mock_env("guardian1"),
        HandleMsg::ExecuteRecovery {
            new_owner: "owner2".to_string(),
            guardian: "guardian1".to_string(),
        },
    )
    .unwrap();
    assert_eq!(true, is_recovering(&state));
    assert_eq!(vec!["guardian1"], signers_of(&state));

    // the second signature passes the threshold: 2 > 3 / 2
    handle(
        &mut state,
        &mock_env("guardian2"),
        HandleMsg::GuardianApproveRequest { guardian: "guardian2".to_string() },
    )
    .unwrap();
    assert_eq!("owner2", owner_of(&state));
    assert_eq!(false, is_recovering(&state));
    assert_eq!(0, signers_of(&state).len());
}

#[test]
fn five_guardian_vote_accumulates() {
    let mut state = init(&mock_env("creator"), InitMsg {});
    with_guardians(&mut state, &["g1", "g2", "g3", "g4", "g5"]);
    handle(
        &mut state,
        &mock_env("g1"),
        HandleMsg::ExecuteRecovery { new_owner: "owner2".to_string(), guardian: "g1".to_string() },
    )
    .unwrap();
    // threshold is 5 / 2 = 2: two signatures do not finalize yet
    handle(
        &mut state,
        &mock_env("g2"),
        HandleMsg::GuardianApproveRequest { guardian: "g2".to_string() },
    )
    .unwrap();
    assert_eq!(true, is_recovering(&state));
    assert_eq!(vec!["g1", "g2"], signers_of(&state));
    assert_eq!("creator", owner_of(&state));
    // the third signature passes it; duplicate votes are not rejected,
    // so the same guardian's repeated approval counts
    handle(
        &mut state,
        &mock_env("g2"),
        HandleMsg::GuardianApproveRequest { guardian: "g2".to_string() },
    )
    .unwrap();
    assert_eq!("owner2", owner_of(&state));
    assert_eq!(false, is_recovering(&state));
}

#[test]
fn initiate_recovery_while_recovering_fails() {
    let mut state = init(&mock_env("creator"), InitMsg {});
    with_guardians(&mut state, &["guardian1", "guardian2", "guardian3"]);
    handle(
        &mut state,
        &mock_env("guardian1"),
        HandleMsg::ExecuteRecovery {
            new_owner: "owner2".to_string(),
            guardian: "guardian1".to_string(),
        },
    )
    .unwrap();
    assert_eq!(true, is_recovering(&state));
    // a second initiation must not restart the vote
    let res = handle(
        &mut state,
        &mock_env("guardian2"),
        HandleMsg::ExecuteRecovery {
            new_owner: "owner3".to_string(),
            guardian: "guardian2".to_string(),
        },
    );
    assert_eq!(res, Err(ContractError::InvalidState));
    assert_eq!(true, is_recovering(&state));
    assert_eq!(vec!["guardian1"], signers_of(&state));
    assert_eq!("creator", owner_of(&state));
}

#[test]
fn remove_guardian_mid_recovery_drops_signature() {
    let mut state = init(&mock_env("creator"), InitMsg {});
    with_guardians(&mut state, &["guardian1", "guardian2", "guardian3"]);
    handle(
        &mut state,
        &mock_env("guardian1"),
        HandleMsg::ExecuteRecovery {
            new_owner: "owner2".to_string(),
            guardian: "guardian1".to_string(),
        },
    )
    .unwrap();
    assert_eq!(vec!["guardian1"], signers_of(&state));

    // the initiator is removed: the signature leaves with the guardian
    handle(
        &mut state,
        &mock_env("creator"),
        HandleMsg::RemoveGuardian { guardian: "guardian1".to_string() },
    )
    .unwrap();
    assert_eq!(vec!["guardian2", "guardian3"], guardians_of(&state));
    assert_eq!(0, signers_of(&state).len());
    assert_eq!(true, is_recovering(&state));

    // with two guardians the threshold is 1: the first fresh signature
    // does not pass it, the second does
    handle(
        &mut state,
        &mock_env("guardian2"),
        HandleMsg::GuardianApproveRequest { guardian: "guardian2".to_string() },
    )
    .unwrap();
    assert_eq!(true, is_recovering(&state));
    assert_eq!(vec!["guardian2"], signers_of(&state));
    handle(
        &mut state,
        &mock_env("guardian3"),
        HandleMsg::GuardianApproveRequest { guardian: "guardian3".to_string() },
    )
    .unwrap();
    assert_eq!("owner2", owner_of(&state));
    assert_eq!(false, is_recovering(&state));
    assert_eq!(0, signers_of(&state).len());
}

#[test]
fn approve_while_idle_fails() {
    let mut state = init(&mock_env("creator"), InitMsg {});
    with_guardians(&mut state, &["guardian1", "guardian2"]);
    let res = handle(
        &mut state,
        &mock_env("guardian1"),
        HandleMsg::GuardianApproveRequest { guardian: "guardian1".to_string() },
    );
    assert_eq!(res, Err(ContractError::NotRecovering));
}

#[test]
fn initiate_recovery_by_non_guardian_fails() {
    let mut state = init(&mock_env("creator"), InitMsg {});
    with_guardians(&mut state, &["guardian1"]);
    let res = handle(
        &mut state,
        &mock_env("mallory"),
        HandleMsg::ExecuteRecovery {
            new_owner: "owner2".to_string(),
            guardian: "mallory".to_string(),
        },
    );
    assert_eq!(res, Err(ContractError::Unauthorized));
    assert_eq!("creator", owner_of(&state));
}

#[test]
fn cancel_recovery_while_idle_is_noop() {
    let mut state = init(&mock_env("creator"), InitMsg {});
    with_guardians(&mut state, &["guardian1", "guardian2"]);
    let res = handle(
        &mut state,
        &mock_env("creator"),
        HandleMsg::CancelRecovery { guardian: "guardian1".to_string() },
    );
    assert!(res.is_ok());
    assert_eq!(false, is_recovering(&state));
    assert_eq!(0, signers_of(&state).len());
}

#[test]
fn cancel_recovery_by_stranger_fails() {
    let mut state = init(&mock_env("creator"), InitMsg {});
    with_guardians(&mut state, &["guardian1", "guardian2"]);
    let res = handle(
        &mut state,
        &mock_env("mallory"),
        HandleMsg::CancelRecovery { guardian: "mallory".to_string() },
    );
    assert_eq!(res, Err(ContractError::Unauthorized));
}

#[test]
fn remove_absent_entries_is_noop() {
    let mut state = init(&mock_env("creator"), InitMsg {});
    with_guardians(&mut state, &["guardian1"]);
    let env = mock_env("creator");
    handle(&mut state, &env, HandleMsg::AddFamilyMember { family_member: "fam1".to_string() })
        .unwrap();

    let res = handle(
        &mut state,
        &env,
        HandleMsg::RemoveGuardian { guardian: "nobody".to_string() },
    );
    assert!(res.is_ok());
    assert_eq!(vec!["guardian1"], guardians_of(&state));

    let res = handle(
        &mut state,
        &env,
        HandleMsg::RemoveFamilyMember { family_member: "nobody".to_string() },
    );
    assert!(res.is_ok());
    assert_eq!(vec!["fam1"], family_of(&state));
}

#[test]
fn add_family_member_twice_fails() {
    let mut state = init(&mock_env("creator"), InitMsg {});
    let env = mock_env("creator");
    handle(&mut state, &env, HandleMsg::AddFamilyMember { family_member: "fam1".to_string() })
        .unwrap();
    let res = handle(
        &mut state,
        &env,
        HandleMsg::AddFamilyMember { family_member: "fam1".to_string() },
    );
    assert_eq!(res, Err(ContractError::AlreadyExists));
    assert_eq!(vec!["fam1"], family_of(&state));
}

#[test]
fn send_tokens_by_owner_produces_one_transfer() {
    let mut state = init(&mock_env("creator"), InitMsg {});
    let env = mock_env("creator");
    let amount = vec![Coin { denom: "earth".to_string(), amount: 1000 }];
    let res = handle(
        &mut state,
        &env,
        HandleMsg::SendTokens { to_address: "friend".to_string(), amount: amount.clone() },
    )
    .unwrap();
    assert_eq!(1, res.messages.len());
    assert_eq!("cosmos2contract", res.messages[0].from_address);
    assert_eq!("friend", res.messages[0].to_address);
    assert_eq!(amount, res.messages[0].amount);
    assert_eq!(3, res.log.len());
    assert_eq!("action", res.log[0].key);
    assert_eq!("send_tokens", res.log[0].value);
    assert_eq!("sender", res.log[1].key);
    assert_eq!("cosmos2contract", res.log[1].value);
    assert_eq!("receiver", res.log[2].key);
    assert_eq!("friend", res.log[2].value);
    assert_eq!("creator", owner_of(&state));
}

#[test]
fn send_tokens_by_non_owner_fails() {
    let state = init(&mock_env("creator"), InitMsg {});
    let env = mock_env("mallory");
    let amount = vec![Coin { denom: "earth".to_string(), amount: 1000 }];
    let res = try_send(&state, &env, "friend".to_string(), amount);
    assert_eq!(res, Err(ContractError::Unauthorized));
}

#[test]
fn guardian_lifecycle() {
    let mut state = init(&mock_env("creator"), InitMsg {});
    handle(
        &mut state,
        &mock_env("creator"),
        HandleMsg::AddGuardian { guardian: "guardian1".to_string() },
    )
    .unwrap();
    assert_eq!(vec!["guardian1"], pending_of(&state));
    handle(
        &mut state,
        &mock_env("guardian1"),
        HandleMsg::AddGuardianConfirm { guardian: "guardian1".to_string() },
    )
    .unwrap();
    assert_eq!(vec!["guardian1"], guardians_of(&state));
    assert_eq!(0, pending_of(&state).len());
    handle(
        &mut state,
        &mock_env("creator"),
        HandleMsg::RemoveGuardian { guardian: "guardian1".to_string() },
    )
    .unwrap();
    assert_eq!(0, guardians_of(&state).len());
}
