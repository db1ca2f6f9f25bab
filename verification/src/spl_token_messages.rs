//! Carrier messages of the token event stream: per-block and
//! per-transaction wrappers around the typed token events.

use vstd::prelude::*;

verus! {

#[derive(Clone, PartialEq, Debug)]
pub struct Events {
    pub events: Vec<TransactionEvent>,
}

#[derive(Clone, PartialEq, Debug)]
pub struct Transaction {
    pub signature: String,
    pub signers: Vec<String>,
    pub slot: u64,
}

#[derive(Clone, PartialEq, Debug)]
pub struct TransactionEvent {
    pub transaction: Option<Transaction>,
    pub event: Option<crate::spl_token_events::Event>,
}

#[derive(Clone, PartialEq, Debug)]
pub struct TransferEvent {
    pub source: Option<TokenAccount>,
    pub destination: Option<TokenAccount>,
    pub amount: u64,
}

#[derive(Clone, PartialEq, Debug)]
pub struct InitializeMintEvent {
    pub mint: String,
    pub mint_authority: String,
    pub freeze_authority: Option<String>,
}

#[derive(Clone, PartialEq, Debug)]
pub struct InitializeMultiSigEvent {
    pub address: String,
    pub m: u32,
}

#[derive(Clone, PartialEq, Debug)]
pub struct InitializeImmutableOwnerEvent {
    pub account: Option<TokenAccount>,
}

#[derive(Clone, PartialEq, Debug)]
pub struct ApproveEvent {
}

#[derive(Clone, PartialEq, Debug)]
pub struct RevokeEvent {
}

#[derive(Clone, PartialEq, Debug)]
pub struct SetAuthorityEvent {
    pub authority_type: i32,
    pub new_authority: Option<String>,
    pub authority: String,
    pub account: String,
}

#[derive(Clone, PartialEq, Debug)]
pub struct MintToEvent {
    pub destination: Option<TokenAccount>,
    pub amount: u64,
}

#[derive(Clone, PartialEq, Debug)]
pub struct BurnEvent {
}

#[derive(Clone, PartialEq, Debug)]
pub struct CloseAccountEvent {
}

#[derive(Clone, PartialEq, Debug)]
pub struct FreezeAcccountEvent {
}

#[derive(Clone, PartialEq, Debug)]
pub struct ThawAccountEvent {
}

#[derive(Clone, PartialEq, Debug)]
pub struct SyncNativeEvent {
}

#[derive(Clone, PartialEq, Debug)]
pub struct InitializeAccountEvent {
    pub account: Option<TokenAccount>,
}

#[derive(Clone, PartialEq, Debug)]
pub struct TokenAccount {
    pub address: String,
    pub owner: String,
    pub mint: String,
}

#[derive(Clone, PartialEq, Debug)]
pub struct SplTokenBlockEvents {
    pub transactions: Vec<SplTokenTransactionEvents>,
}

#[derive(Clone, PartialEq, Debug)]
pub struct SplTokenTransactionEvents {
    pub signature: String,
    pub events: Vec<SplTokenEvent>,
}

#[derive(Clone, PartialEq, Debug)]
pub struct SplTokenEvent {
    pub event: Option<SplTokenEventKind>,
}

#[derive(Clone, PartialEq, Debug)]
pub enum SplTokenEventKind {
    Transfer(TransferEvent),
    InitializeMint(InitializeMintEvent),
    InitializeImmutableOwner(InitializeImmutableOwnerEvent),
    InitializeAccount(InitializeAccountEvent),
    InitializeMultisig(InitializeMultisigEvent),
    Approve(ApproveEvent),
    MintTo(MintToEvent),
    Revoke(RevokeEvent),
    SetAuthority(SetAuthorityEvent),
    Burn(BurnEvent),
    CloseAccount(CloseAccountEvent),
    FreezeAccount(FreezeAccountEvent),
    ThawAccount(ThawAccountEvent),
    SyncNative(SyncNativeEvent),
}

#[derive(Clone, PartialEq, Debug)]
pub struct InitializeMultisigEvent {
    pub multisig: String,
    pub signers: Vec<String>,
    pub m: u32,
}

#[derive(Clone, PartialEq, Debug)]
pub struct FreezeAccountEvent {
    pub source: Option<TokenAccount>,
    pub freeze_authority: String,
}

#[derive(Clone, PartialEq, Debug)]
pub struct TransactionsWithEvents {
    pub transactions: Vec<TransactionWithEvents>,
}

#[derive(Clone, PartialEq, Debug)]
pub struct TransactionWithEvents {
    pub signers: Vec<String>,
    pub slot: u64,
    pub signature: String,
    pub events: Vec<TableEvent>,
}

#[derive(Clone, PartialEq, Debug)]
pub struct TableEvent {
    pub type_code: i32,
    pub data: Option<Data>,
}

#[derive(Clone, PartialEq, Debug)]
pub enum Data {
    Transfer(TransferData),
}

#[derive(Clone, PartialEq, Debug)]
pub struct TransferData {
    pub source: Option<TableTokenAccount>,
    pub destination: Option<TableTokenAccount>,
    pub amount: u64,
}

#[derive(Clone, PartialEq, Debug)]
pub struct TableTokenAccount {
    pub address: String,
    pub owner: String,
}

#[derive(Clone, Copy, Debug, PartialEq, Eq, Hash)]
pub enum EventType {
    Transfer,
}

impl EventType {
    /// The stream's name for this event kind.
    pub fn as_str_name(&self) -> (r: &'static str)
        ensures
            r@ == "TRANSFER"@,
    {
        match self {
            EventType::Transfer => "TRANSFER",
        }
    }

    /// The event kind a stream field name denotes: some exactly on the one
    /// stable name, so the round trip through `as_str_name` returns the
    /// kind it started from.
    pub fn from_str_name(value: &str) -> (r: Option<Self>)
        ensures
            r is Some <==> value@ == "TRANSFER"@,
            value@ == "TRANSFER"@ ==> r == Some(EventType::Transfer),
    {
        if crate::log::str_eq(value, "TRANSFER") {
            Some(EventType::Transfer)
        } else {
            None
        }
    }
}

} // verus!
