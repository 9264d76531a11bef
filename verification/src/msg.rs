//! The request and response types of the wallet: the command and query
//! unions the dispatcher delivers, the answers the queries project, and
//! what a successful command hands back (log entries and at most one
//! outbound transfer instruction).

use vstd::prelude::*;

verus! {

/// Initialization carries no fields; the initial owner is the identity
/// that invoked it.
pub struct InitMsg {}

/// One denomination and its quantity, as carried by a transfer instruction.
#[derive(Clone, Debug, PartialEq)]
pub struct Coin {
    pub denom: String,
    pub amount: u128,
}

/// What the dispatcher supplies with every call: the identity that sent
/// the message, and the address of the account itself.
#[derive(Debug)]
pub struct Env {
    pub sender: String,
    pub contract_address: String,
}

/// The state-mutating requests, one variant per operation.
#[derive(Debug, PartialEq)]
pub enum HandleMsg {
    AddGuardian { guardian: String },
    RemoveGuardian { guardian: String },
    AddGuardianConfirm { guardian: String },
    AddGuardianConfirmCancel { guardian: String },
    ExecuteRecovery { new_owner: String, guardian: String },
    CancelRecovery { guardian: String },
    GuardianApproveRequest { guardian: String },
    SendTokens { to_address: String, amount: Vec<Coin> },
    AddFamilyMember { family_member: String },
    RemoveFamilyMember { family_member: String },
}

/// The read-only requests.
#[derive(Debug, PartialEq)]
pub enum QueryMsg {
    GetOwner {},
    GetRecoveryStatus {},
    GetGuardians {},
    GetSigners {},
    GetPendingGuardians {},
    GetFamilyMembers {},
}

/// One (key, value) log entry of a successful command.
#[derive(Debug, PartialEq)]
pub struct LogEntry {
    pub key: String,
    pub value: String,
}

/// An outbound transfer instruction: the wallet never moves funds itself,
/// it only asks the host to.
#[derive(Debug, PartialEq)]
pub struct TransferMsg {
    pub from_address: String,
    pub to_address: String,
    pub amount: Vec<Coin>,
}

/// What a successful command returns: zero or one transfer instructions
/// and the log entries of the operation.
#[derive(Debug, PartialEq)]
pub struct HandleResponse {
    pub messages: Vec<TransferMsg>,
    pub log: Vec<LogEntry>,
}

/// Why a command was rejected. A failing command leaves the state
/// untouched and emits neither logs nor a transfer instruction.
#[derive(Clone, Copy, Debug, PartialEq, Eq, Structural)]
pub enum ContractError {
    /// The caller lacks the role the operation demands.
    Unauthorized,
    /// The candidate is already a confirmed guardian.
    AlreadyGuardian,
    /// The candidate already awaits confirmation.
    AlreadyPending,
    /// The family member is already recorded.
    AlreadyExists,
    /// The candidate is not in the pending list.
    NotPending,
    /// No recovery vote is in flight.
    NotRecovering,
    /// The operation demands the other recovery phase: here, a vote is
    /// already in flight where an idle account was required.
    InvalidState,
}

pub struct OwnerResponse {
    pub owner: String,
}

pub struct RecoveryResponse {
    pub is_recovering: bool,
}

pub struct GuardianResponse {
    pub guardians: Vec<String>,
}

pub struct SignerResponse {
    pub signers: Vec<String>,
}

pub struct FamilyResponse {
    pub family_members: Vec<String>,
}

/// The answer to a query, one variant per query.
pub enum QueryAnswer {
    Owner(OwnerResponse),
    RecoveryStatus(RecoveryResponse),
    Guardians(GuardianResponse),
    Signers(SignerResponse),
    PendingGuardians(GuardianResponse),
    FamilyMembers(FamilyResponse),
}

} // verus!
