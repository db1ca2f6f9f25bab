//! Typed events of the token program: the decoder that turns one
//! reconstructed instruction node, together with the replayed
//! account-state context, into a typed token event.
//!
//! The decoder reads the node's payload through `TokenInstruction`,
//! resolves account texts through the base58 encoding, and looks balances
//! up in the context; a payload that does not match the token program's
//! layout, or operands that do not resolve, surface as an error for this
//! one instruction, never a failure of the whole transaction.

use vstd::prelude::*;

use crate::builder::StructuredInstruction;
use crate::pubkey::PubkeyRef;
use crate::pubkey::base58_of;
use crate::spl_token::TokenInstruction;
use crate::spl_token::is_token_program;
use crate::spl_token::le_u64_at;
use crate::spl_token::spec_token_program_id;
use crate::spl_token::token_instruction_valid;
use crate::transaction::TransactionContext;
use crate::transaction::find_token_account;

verus! {

/// A token account as the event stream carries it: base58 texts.
#[derive(Clone, PartialEq, Debug)]
pub struct TokenAccount {
    pub address: String,
    pub owner: String,
    pub mint: String,
}

#[derive(Clone, PartialEq, Debug)]
pub struct TransferEvent {
    pub source: Option<TokenAccount>,
    pub destination: Option<TokenAccount>,
    pub amount: u64,
    pub authority: String,
}

#[derive(Clone, PartialEq, Debug)]
pub struct InitializeMintEvent {
    pub mint: String,
    pub decimals: u32,
    pub mint_authority: String,
    pub freeze_authority: Option<String>,
}

#[derive(Clone, PartialEq, Debug)]
pub struct InitializeAccountEvent {
    pub account: Option<TokenAccount>,
}

#[derive(Clone, PartialEq, Debug)]
pub struct InitializeMultisigEvent {
    pub multisig: String,
    pub signers: Vec<String>,
    pub m: u32,
}

#[derive(Clone, PartialEq, Debug)]
pub struct ApproveEvent {
    pub source: Option<TokenAccount>,
    pub delegate: String,
    pub amount: u64,
}

#[derive(Clone, PartialEq, Debug)]
pub struct RevokeEvent {
    pub source: Option<TokenAccount>,
}

/// Which entity's authority a `SetAuthority` event names, as a stream
/// code; `Null` is the stream's unspecified value.
#[derive(Clone, Copy, PartialEq, Eq, Structural, Debug)]
pub enum AuthorityType {
    Null,
    MintTokens,
    FreezeAccount,
    AccountOwner,
    CloseAccount,
}

impl AuthorityType {
    /// The stream's numeric code for this authority kind.
    pub fn to_i32(self) -> (r: i32)
        ensures
            r == match self {
                AuthorityType::Null => 0i32,
                AuthorityType::MintTokens => 1i32,
                AuthorityType::FreezeAccount => 2i32,
                AuthorityType::AccountOwner => 3i32,
                AuthorityType::CloseAccount => 4i32,
            },
    {
        match self {
            AuthorityType::Null => 0,
            AuthorityType::MintTokens => 1,
            AuthorityType::FreezeAccount => 2,
            AuthorityType::AccountOwner => 3,
            AuthorityType::CloseAccount => 4,
        }
    }

    /// The stream's stable field name for this authority kind.
    pub fn as_str_name(&self) -> (r: &'static str)
        ensures
            r@ == match *self {
                AuthorityType::Null => "Null"@,
                AuthorityType::MintTokens => "MintTokens"@,
                AuthorityType::FreezeAccount => "FreezeAccount"@,
                AuthorityType::AccountOwner => "AccountOwner"@,
                AuthorityType::CloseAccount => "CloseAccount"@,
            },
    {
        match self {
            AuthorityType::Null => "Null",
            AuthorityType::MintTokens => "MintTokens",
            AuthorityType::FreezeAccount => "FreezeAccount",
            AuthorityType::AccountOwner => "AccountOwner",
            AuthorityType::CloseAccount => "CloseAccount",
        }
    }

    /// The authority kind a stream field name denotes: some exactly on the
    /// five stable names, so the round trip through `as_str_name` returns
    /// the kind it started from.
    pub fn from_str_name(value: &str) -> (r: Option<Self>)
        ensures
            r is Some <==> (value@ == "Null"@ || value@ == "MintTokens"@ || value@
                == "FreezeAccount"@ || value@ == "AccountOwner"@ || value@ == "CloseAccount"@),
            value@ == "Null"@ ==> r == Some(AuthorityType::Null),
            value@ == "MintTokens"@ ==> r == Some(AuthorityType::MintTokens),
            value@ == "FreezeAccount"@ ==> r == Some(AuthorityType::FreezeAccount),
            value@ == "AccountOwner"@ ==> r == Some(AuthorityType::AccountOwner),
            value@ == "CloseAccount"@ ==> r == Some(AuthorityType::CloseAccount),
    {
        proof {
            reveal_strlit("Null");
            reveal_strlit("MintTokens");
            reveal_strlit("FreezeAccount");
            reveal_strlit("AccountOwner");
            reveal_strlit("CloseAccount");
            assert("Null"@.len() == 4);
            assert("MintTokens"@.len() == 10);
            assert("FreezeAccount"@.len() == 13);
            assert("AccountOwner"@.len() == 12);
            assert("CloseAccount"@.len() == 12);
            assert("AccountOwner"@[0] != "CloseAccount"@[0]);
        }
        if crate::log::str_eq(value, "Null") {
            Some(AuthorityType::Null)
        } else if crate::log::str_eq(value, "MintTokens") {
            Some(AuthorityType::MintTokens)
        } else if crate::log::str_eq(value, "FreezeAccount") {
            Some(AuthorityType::FreezeAccount)
        } else if crate::log::str_eq(value, "AccountOwner") {
            Some(AuthorityType::AccountOwner)
        } else if crate::log::str_eq(value, "CloseAccount") {
            Some(AuthorityType::CloseAccount)
        } else {
            None
        }
    }
}

#[derive(Clone, PartialEq, Debug)]
pub struct SetAuthorityEvent {
    pub mint: String,
    pub authority: String,
    pub authority_type: i32,
    pub new_authority: Option<String>,
}

#[derive(Clone, PartialEq, Debug)]
pub struct MintToEvent {
    pub mint: String,
    pub destination: Option<TokenAccount>,
    pub mint_authority: String,
    pub amount: u64,
}

#[derive(Clone, PartialEq, Debug)]
pub struct BurnEvent {
    pub source: Option<TokenAccount>,
    pub authority: String,
    pub amount: u64,
}

#[derive(Clone, PartialEq, Debug)]
pub struct CloseAccountEvent {
    pub source: Option<TokenAccount>,
    pub destination: String,
}

#[derive(Clone, PartialEq, Debug)]
pub struct FreezeAccountEvent {
    pub source: Option<TokenAccount>,
    pub freeze_authority: String,
}

#[derive(Clone, PartialEq, Debug)]
pub struct ThawAccountEvent {
    pub source: Option<TokenAccount>,
    pub freeze_authority: String,
}

#[derive(Clone, PartialEq, Debug)]
pub struct InitializeImmutableOwnerEvent {
    pub account: Option<TokenAccount>,
}

#[derive(Clone, PartialEq, Debug)]
pub struct SyncNativeEvent {
    pub account: Option<TokenAccount>,
}

/// One typed token event.
#[derive(Clone, PartialEq, Debug)]
pub enum Event {
    Transfer(TransferEvent),
    InitializeMint(InitializeMintEvent),
    InitializeAccount(InitializeAccountEvent),
    InitializeMultisig(InitializeMultisigEvent),
    InitializeImmutableOwner(InitializeImmutableOwnerEvent),
    Approve(ApproveEvent),
    Revoke(RevokeEvent),
    SetAuthority(SetAuthorityEvent),
    MintTo(MintToEvent),
    Burn(BurnEvent),
    CloseAccount(CloseAccountEvent),
    FreezeAccount(FreezeAccountEvent),
    ThawAccount(ThawAccountEvent),
    SyncNative(SyncNativeEvent),
}

/// The tag byte family a decoded event answers to, connecting each event
/// variant back to the instruction payload it was decoded from.
pub open spec fn event_matches_tag(ev: Event, d: Seq<u8>) -> bool {
    match ev {
        Event::Transfer(_) => d[0] == 3 || d[0] == 12,
        Event::InitializeMint(_) => d[0] == 0 || d[0] == 20,
        Event::InitializeAccount(_) => d[0] == 1 || d[0] == 16 || d[0] == 18,
        Event::InitializeMultisig(_) => d[0] == 2 || d[0] == 19,
        Event::InitializeImmutableOwner(_) => d[0] == 22,
        Event::Approve(_) => d[0] == 4 || d[0] == 13,
        Event::Revoke(_) => d[0] == 5,
        Event::SetAuthority(_) => d[0] == 6,
        Event::MintTo(_) => d[0] == 7 || d[0] == 14,
        Event::Burn(_) => d[0] == 8 || d[0] == 15,
        Event::CloseAccount(_) => d[0] == 9,
        Event::FreezeAccount(_) => d[0] == 10,
        Event::ThawAccount(_) => d[0] == 11,
        Event::SyncNative(_) => d[0] == 17,
    }
}

/// A replayed record, rendered as the event stream's account value.
fn to_event_account(a: &crate::spl_token::TokenAccount) -> (r: TokenAccount)
    ensures
        r.address@ == base58_of(a@.address),
        r.owner@ == base58_of(a@.owner),
        r.mint@ == base58_of(a@.mint),
{
    TokenAccount {
        address: crate::pubkey::bs58_encode(a.address.as_slice()),
        owner: a.owner.to_string(),
        mint: a.mint.to_string(),
    }
}

/// The base58 text of the instruction's `k`-th resolved account.
pub(crate) fn account_text(instruction: &StructuredInstruction, k: usize) -> (r: Result<String, &'static str>)
    ensures
        r is Ok <==> k < instruction.accounts@.len(),
        r matches Ok(t) ==> t@ == base58_of(instruction@.accounts[k as int]),
{
    if k < instruction.accounts.len() {
        Ok(crate::pubkey::bs58_encode(instruction.accounts[k].as_slice()))
    } else {
        Err("Missing account operand.")
    }
}

/// The replayed record of the instruction's `k`-th account, rendered for
/// the stream.
fn looked_up_account(
    instruction: &StructuredInstruction,
    context: &TransactionContext,
    k: usize,
) -> (r: Result<TokenAccount, &'static str>)
    ensures
        r is Ok <==> (k < instruction.accounts@.len() && find_token_account(
            context@.token_accounts,
            instruction@.accounts[k as int],
        ) >= 0),
        r matches Ok(t) ==> {
            let rec = context@.token_accounts[find_token_account(
                context@.token_accounts,
                instruction@.accounts[k as int],
            )];
            &&& t.address@ == base58_of(rec.address)
            &&& t.owner@ == base58_of(rec.owner)
            &&& t.mint@ == base58_of(rec.mint)
        },
{
    if k >= instruction.accounts.len() {
        return Err("Missing account operand.");
    }
    match context.get_token_account(&PubkeyRef(&instruction.accounts[k])) {
        Some(a) => Ok(to_event_account(a)),
        None => Err("Unknown token account."),
    }
}

/// The instruction's `k`-th account both resolves and has a replayed
/// record in the context.
pub open spec fn lookup_ok(tas: Seq<crate::spl_token::TokenAccountV>, accs: Seq<Seq<u8>>, k: int) -> bool {
    k < accs.len() && find_token_account(tas, accs[k]) >= 0
}

/// Every operand the decoder reads for this payload's variant resolves:
/// the account texts it renders exist, and the accounts it looks up have a
/// replayed record.  Exactly under this condition (together with the
/// program owning the node and the payload being well formed) does the
/// decode succeed.
pub open spec fn decodes_ok(node: crate::builder::NodeV, ctx: crate::transaction::ContextV) -> bool {
    let d = node.data;
    let accs = node.accounts;
    let tas = ctx.token_accounts;
    let tag = d[0];
    if tag == 0 || tag == 20 {
        accs.len() >= 1
    } else if tag == 1 || tag == 16 || tag == 18 {
        lookup_ok(tas, accs, 0)
    } else if tag == 2 || tag == 19 {
        accs.len() >= 1
    } else if tag == 3 {
        lookup_ok(tas, accs, 0) && lookup_ok(tas, accs, 1) && accs.len() >= 3
    } else if tag == 12 {
        lookup_ok(tas, accs, 0) && lookup_ok(tas, accs, 2) && accs.len() >= 4
    } else if tag == 4 {
        lookup_ok(tas, accs, 0) && accs.len() >= 2
    } else if tag == 13 {
        lookup_ok(tas, accs, 0) && accs.len() >= 3
    } else if tag == 5 {
        lookup_ok(tas, accs, 0)
    } else if tag == 6 {
        accs.len() >= 2
    } else if tag == 7 || tag == 14 {
        lookup_ok(tas, accs, 1) && accs.len() >= 3
    } else if tag == 8 || tag == 15 {
        lookup_ok(tas, accs, 0) && accs.len() >= 3
    } else if tag == 9 || tag == 10 || tag == 11 {
        lookup_ok(tas, accs, 0) && accs.len() >= 2
    } else if tag == 17 || tag == 22 {
        lookup_ok(tas, accs, 0)
    } else {
        true
    }
}

/// The node decodes to a typed token event: the token program owns it, the
/// payload is well formed, and every operand the variant reads resolves.
pub open spec fn node_decodes(node: crate::builder::NodeV, ctx: crate::transaction::ContextV) -> bool {
    &&& node.program_id == spec_token_program_id()
    &&& token_instruction_valid(node.data)
    &&& decodes_ok(node, ctx)
}

/// Decodes one instruction node of the token program into its typed
/// event: `Ok(None)` for the informational variants that carry no event.
/// The decode succeeds exactly when the token program owns the node, the
/// payload matches the program's layout, and every operand the variant
/// reads resolves; anything else is an error for this one instruction.  A
/// transfer, mint or burn event carries exactly the decoded amount, the
/// looked-up accounts and the base58 authority text.
pub fn parse_instruction(
    instruction: &StructuredInstruction,
    context: &TransactionContext,
) -> (r: Result<Option<Event>, &'static str>)
    ensures
        r is Ok <==> node_decodes(instruction@, context@),
        r matches Ok(Some(ev)) ==> (token_instruction_valid(instruction@.data)
            && event_matches_tag(ev, instruction@.data)),
        r matches Ok(None) <==> (node_decodes(instruction@, context@) && (instruction@.data[0]
            == 21 || instruction@.data[0] == 23 || instruction@.data[0] == 24)),
        ({
            let d = instruction@.data;
            let accs = instruction@.accounts;
            (instruction@.program_id == spec_token_program_id() && token_instruction_valid(d) && (
            d[0] == 3 || d[0] == 12)) ==> {
                let delta: int = if d[0] == 3 {
                    0
                } else {
                    1
                };
                let src = find_token_account(context@.token_accounts, accs[0]);
                let dst_ok = 1 + delta < accs.len() && find_token_account(
                    context@.token_accounts,
                    accs[1 + delta],
                ) >= 0;
                (src >= 0 && dst_ok && 2 + delta < accs.len()) ==> (r matches Ok(Some(
                    Event::Transfer(ev),
                )) && ev.amount == le_u64_at(d, 1) && ev.authority@ == base58_of(
                    accs[2 + delta],
                ) && (ev.source matches Some(s) && s.address@ == base58_of(
                    context@.token_accounts[src].address,
                )))
            }
        }),
{
    if !is_token_program(&instruction.program_id) {
        return Err("Not a Token program instruction.");
    }
    let unpacked = match TokenInstruction::unpack(instruction.data.as_slice()) {
        Ok(t) => t,
        Err(_) => {
            return Err("Failed to parse Token program instruction.");
        },
    };
    match unpacked {
        TokenInstruction::InitializeMint { decimals, mint_authority, freeze_authority }
        | TokenInstruction::InitializeMint2 { decimals, mint_authority, freeze_authority } => {
            let mint = match account_text(instruction, 0) {
                Ok(t) => t,
                Err(e) => {
                    return Err(e);
                },
            };
            let freeze = match freeze_authority {
                Some(k) => Some(k.to_string()),
                None => None,
            };
            Ok(Some(Event::InitializeMint(InitializeMintEvent {
                mint,
                decimals: decimals as u32,
                mint_authority: mint_authority.to_string(),
                freeze_authority: freeze,
            })))
        },
        TokenInstruction::InitializeAccount
        | TokenInstruction::InitializeAccount2 { owner: _ }
        | TokenInstruction::InitializeAccount3 { owner: _ } => {
            let account = match looked_up_account(instruction, context, 0) {
                Ok(a) => a,
                Err(e) => {
                    return Err(e);
                },
            };
            Ok(Some(Event::InitializeAccount(InitializeAccountEvent { account: Some(account) })))
        },
        TokenInstruction::InitializeMultisig { m } | TokenInstruction::InitializeMultisig2 {
            m,
        } => {
            let rent_sysvar = matches!(unpacked, TokenInstruction::InitializeMultisig { .. });
            let multisig = match account_text(instruction, 0) {
                Ok(t) => t,
                Err(e) => {
                    return Err(e);
                },
            };
            let delta: usize = if rent_sysvar {
                2
            } else {
                1
            };
            let mut signers: Vec<String> = Vec::new();
            let mut k = delta;
            while k < instruction.accounts.len()
                invariant
                    delta <= k,
                decreases instruction.accounts@.len() - k,
            {
                signers.push(crate::pubkey::bs58_encode(instruction.accounts[k].as_slice()));
                k += 1;
            }
            Ok(Some(Event::InitializeMultisig(InitializeMultisigEvent {
                multisig,
                signers,
                m: m as u32,
            })))
        },
        TokenInstruction::Transfer { amount } | TokenInstruction::TransferChecked {
            amount,
            decimals: _,
        } => {
            let delta: usize = if matches!(unpacked, TokenInstruction::Transfer { .. }) {
                0
            } else {
                1
            };
            let source = match looked_up_account(instruction, context, 0) {
                Ok(a) => a,
                Err(e) => {
                    return Err(e);
                },
            };
            let destination = match looked_up_account(instruction, context, 1 + delta) {
                Ok(a) => a,
                Err(e) => {
                    return Err(e);
                },
            };
            let authority = match account_text(instruction, 2 + delta) {
                Ok(t) => t,
                Err(e) => {
                    return Err(e);
                },
            };
            Ok(Some(Event::Transfer(TransferEvent {
                source: Some(source),
                destination: Some(destination),
                amount,
                authority,
            })))
        },
        TokenInstruction::Approve { amount } | TokenInstruction::ApproveChecked {
            amount,
            decimals: _,
        } => {
            let delta: usize = if matches!(unpacked, TokenInstruction::Approve { .. }) {
                0
            } else {
                1
            };
            let source = match looked_up_account(instruction, context, 0) {
                Ok(a) => a,
                Err(e) => {
                    return Err(e);
                },
            };
            let delegate = match account_text(instruction, 1 + delta) {
                Ok(t) => t,
                Err(e) => {
                    return Err(e);
                },
            };
            Ok(Some(Event::Approve(ApproveEvent { source: Some(source), delegate, amount })))
        },
        TokenInstruction::Revoke => {
            let source = match looked_up_account(instruction, context, 0) {
                Ok(a) => a,
                Err(e) => {
                    return Err(e);
                },
            };
            Ok(Some(Event::Revoke(RevokeEvent { source: Some(source) })))
        },
        TokenInstruction::SetAuthority { authority_type, new_authority } => {
            let mint = match account_text(instruction, 0) {
                Ok(t) => t,
                Err(e) => {
                    return Err(e);
                },
            };
            let authority = match account_text(instruction, 1) {
                Ok(t) => t,
                Err(e) => {
                    return Err(e);
                },
            };
            let code = match authority_type {
                crate::spl_token::AuthorityType::MintTokens => AuthorityType::MintTokens,
                crate::spl_token::AuthorityType::FreezeAccount => AuthorityType::FreezeAccount,
                crate::spl_token::AuthorityType::AccountOwner => AuthorityType::AccountOwner,
                crate::spl_token::AuthorityType::CloseAccount => AuthorityType::CloseAccount,
            };
            let new_auth = match new_authority {
                Some(k) => Some(k.to_string()),
                None => None,
            };
            Ok(Some(Event::SetAuthority(SetAuthorityEvent {
                mint,
                authority,
                authority_type: code.to_i32(),
                new_authority: new_auth,
            })))
        },
        TokenInstruction::MintTo { amount } | TokenInstruction::MintToChecked {
            amount,
            decimals: _,
        } => {
            let mint = match account_text(instruction, 0) {
                Ok(t) => t,
                Err(e) => {
                    return Err(e);
                },
            };
            let destination = match looked_up_account(instruction, context, 1) {
                Ok(a) => a,
                Err(e) => {
                    return Err(e);
                },
            };
            let mint_authority = match account_text(instruction, 2) {
                Ok(t) => t,
                Err(e) => {
                    return Err(e);
                },
            };
            Ok(Some(Event::MintTo(MintToEvent {
                mint,
                destination: Some(destination),
                mint_authority,
                amount,
            })))
        },
        TokenInstruction::Burn { amount } | TokenInstruction::BurnChecked {
            amount,
            decimals: _,
        } => {
            let source = match looked_up_account(instruction, context, 0) {
                Ok(a) => a,
                Err(e) => {
                    return Err(e);
                },
            };
            let authority = match account_text(instruction, 2) {
                Ok(t) => t,
                Err(e) => {
                    return Err(e);
                },
            };
            Ok(Some(Event::Burn(BurnEvent { source: Some(source), authority, amount })))
        },
        TokenInstruction::CloseAccount => {
            let source = match looked_up_account(instruction, context, 0) {
                Ok(a) => a,
                Err(e) => {
                    return Err(e);
                },
            };
            let destination = match account_text(instruction, 1) {
                Ok(t) => t,
                Err(e) => {
                    return Err(e);
                },
            };
            Ok(Some(Event::CloseAccount(CloseAccountEvent { source: Some(source), destination })))
        },
        TokenInstruction::FreezeAccount => {
            let source = match looked_up_account(instruction, context, 0) {
                Ok(a) => a,
                Err(e) => {
                    return Err(e);
                },
            };
            let freeze_authority = match account_text(instruction, 1) {
                Ok(t) => t,
                Err(e) => {
                    return Err(e);
                },
            };
            Ok(Some(Event::FreezeAccount(FreezeAccountEvent { source: Some(source), freeze_authority })))
        },
        TokenInstruction::ThawAccount => {
            let source = match looked_up_account(instruction, context, 0) {
                Ok(a) => a,
                Err(e) => {
                    return Err(e);
                },
            };
            let freeze_authority = match account_text(instruction, 1) {
                Ok(t) => t,
                Err(e) => {
                    return Err(e);
                },
            };
            Ok(Some(Event::ThawAccount(ThawAccountEvent { source: Some(source), freeze_authority })))
        },
        TokenInstruction::InitializeImmutableOwner => {
            let account = match looked_up_account(instruction, context, 0) {
                Ok(a) => a,
                Err(e) => {
                    return Err(e);
                },
            };
            Ok(Some(Event::InitializeImmutableOwner(InitializeImmutableOwnerEvent {
                account: Some(account),
            })))
        },
        TokenInstruction::SyncNative => {
            let account = match looked_up_account(instruction, context, 0) {
                Ok(a) => a,
                Err(e) => {
                    return Err(e);
                },
            };
            Ok(Some(Event::SyncNative(SyncNativeEvent { account: Some(account) })))
        },
        TokenInstruction::AmountToUiAmount { amount: _ } => Ok(None),
        TokenInstruction::GetAccountDataSize => Ok(None),
        TokenInstruction::UiAmountToAmount { ui_amount: _ } => Ok(None),
    }
}

/// The node emits a typed event: it decodes and its variant is not one of
/// the informational ones that carry no event.
pub open spec fn emits_event(node: crate::builder::NodeV, ctx: crate::transaction::ContextV) -> bool {
    node_decodes(node, ctx) && !(node.data[0] == 21 || node.data[0] == 23 || node.data[0] == 24)
}

/// How many events the first `k` positions of a traversal emit.
pub open spec fn emitted_count(
    nodes: Seq<crate::builder::NodeV>,
    order: Seq<int>,
    ctx: crate::transaction::ContextV,
    k: int,
) -> int
    decreases k,
{
    if k <= 0 {
        0
    } else {
        emitted_count(nodes, order, ctx, k - 1) + if 0 <= order[k - 1] < nodes.len()
            && emits_event(nodes[order[k - 1]], ctx) {
            1int
        } else {
            0int
        }
    }
}

/// The replayed context a transaction's decoding sees.
pub open spec fn spec_context(tx: crate::transaction::TransactionV) -> crate::transaction::ContextV {
    crate::transaction::ContextV {
        accounts: tx.accounts,
        token_accounts: crate::transaction::replayed(tx),
        signature: crate::transaction::spec_signature(tx),
    }
}

/// Decodes every token-program instruction of one transaction, in
/// pre-order.  A failed transaction yields no events.  Otherwise the
/// decode succeeds exactly when the transaction can be structured and
/// every token-program node decodes, and then yields one event per
/// token-program node whose variant carries one, in traversal order; one
/// undecodable token instruction fails the whole transaction's decode
/// with an error, never a panic.
pub fn parse_transaction(transaction: &crate::transaction::ConfirmedTransaction) -> (r: Result<
    Vec<Event>,
    &'static str,
>)
    ensures
        transaction@.failed ==> (r matches Ok(v) && v@.len() == 0),
        !transaction@.failed ==> {
            let tx = transaction@;
            let fl = crate::instruction::flatten_spec(tx.instructions, tx.inner_instructions);
            let st = crate::builder::build_forest(fl, tx.accounts, tx.log_messages);
            let order = crate::builder::preorder_forest(st.nodes, st.roots);
            let ctx = spec_context(tx);
            &&& (r is Ok <==> ((forall|k: int|
                0 <= k < fl.len() ==> crate::builder::instr_in_range(#[trigger] fl[k], tx.accounts))
                && (forall|k: int|
                0 <= k < order.len() ==> ((0 <= #[trigger] order[k] < st.nodes.len()
                    && st.nodes[order[k]].program_id == spec_token_program_id()) ==> node_decodes(
                    st.nodes[order[k]],
                    ctx,
                )))))
            &&& (r matches Ok(evs) ==> evs@.len() == emitted_count(st.nodes, order, ctx, order.len() as int))
        },
{
    let ghost tx = transaction@;
    let ghost fl = crate::instruction::flatten_spec(tx.instructions, tx.inner_instructions);
    let ghost st = crate::builder::build_forest(fl, tx.accounts, tx.log_messages);
    let ghost ordv = crate::builder::preorder_forest(st.nodes, st.roots);
    let ghost ctxv = spec_context(tx);
    if transaction.failed {
        return Ok(Vec::new());
    }
    let context = match crate::transaction::get_context(transaction) {
        Ok(c) => c,
        Err(_) => {
            return Err("Cannot get context of failed transaction.");
        },
    };
    proof {
        assert(context@ =~= ctxv);
    }
    let forest = match crate::transaction::get_structured_instructions(transaction) {
        Ok(f) => f,
        Err(_) => {
            return Err("Cannot structure instructions of the transaction.");
        },
    };
    let order = forest.flattened();
    let mut events: Vec<Event> = Vec::new();
    let mut k: usize = 0;
    while k < order.len()
        invariant
            !transaction@.failed,
            tx == transaction@,
            fl == crate::instruction::flatten_spec(tx.instructions, tx.inner_instructions),
            st == crate::builder::build_forest(fl, tx.accounts, tx.log_messages),
            ordv == crate::builder::preorder_forest(st.nodes, st.roots),
            ctxv == spec_context(tx),
            context@ == ctxv,
            forest@.nodes == st.nodes,
            crate::builder::usize_views(order@) == ordv,
            ordv.len() == order@.len(),
            k <= order@.len(),
            events@.len() == emitted_count(st.nodes, ordv, ctxv, k as int),
            forall|j: int|
                0 <= j < k ==> ((0 <= #[trigger] ordv[j] < st.nodes.len() && st.nodes[ordv[j]].program_id
                    == spec_token_program_id()) ==> node_decodes(st.nodes[ordv[j]], ctxv)),
        decreases order@.len() - k,
    {
        let idx = order[k];
        proof {
            assert(ordv[k as int] == idx as int);
        }
        if idx < forest.nodes.len() {
            let node = &forest.nodes[idx];
            proof {
                assert(node@ == st.nodes[idx as int]);
            }
            if is_token_program(&node.program_id) {
                match parse_instruction(node, &context) {
                    Ok(Some(event)) => {
                        events.push(event);
                        proof {
                            assert(emits_event(st.nodes[idx as int], ctxv));
                        }
                    },
                    Ok(None) => {
                        proof {
                            assert(!emits_event(st.nodes[idx as int], ctxv));
                        }
                    },
                    Err(e) => {
                        proof {
                            assert(!node_decodes(st.nodes[idx as int], ctxv));
                        }
                        return Err(e);
                    },
                }
            } else {
                proof {
                    assert(st.nodes[idx as int].program_id != spec_token_program_id());
                    assert(!emits_event(st.nodes[idx as int], ctxv));
                }
            }
        } else {
            proof {
                assert(!(0 <= ordv[k as int] < st.nodes.len()));
            }
        }
        k += 1;
    }
    Ok(events)
}

/// Decodes one node as a transfer event, and nothing else.
pub fn parse_transfer_instruction(
    instruction: &StructuredInstruction,
    context: &TransactionContext,
) -> (r: Result<TransferEvent, &'static str>)
    ensures
        r matches Ok(ev) ==> (token_instruction_valid(instruction@.data) && event_matches_tag(
            Event::Transfer(ev),
            instruction@.data,
        )),
{
    match parse_instruction(instruction, context) {
        Ok(Some(Event::Transfer(transfer))) => Ok(transfer),
        _ => Err("Failed to parse transfer instruction."),
    }
}

/// Decodes one node as a mint initialization, and nothing else.
pub fn parse_initialize_mint_instruction(
    instruction: &StructuredInstruction,
    context: &TransactionContext,
) -> (r: Result<InitializeMintEvent, &'static str>)
    ensures
        r matches Ok(ev) ==> (token_instruction_valid(instruction@.data) && event_matches_tag(
            Event::InitializeMint(ev),
            instruction@.data,
        )),
{
    match parse_instruction(instruction, context) {
        Ok(Some(Event::InitializeMint(initialize_mint))) => Ok(initialize_mint),
        _ => Err("Failed to parse initialize mint instruction."),
    }
}

/// Decodes one node as an account initialization, and nothing else.
pub fn parse_initialize_account_instruction(
    instruction: &StructuredInstruction,
    context: &TransactionContext,
) -> (r: Result<InitializeAccountEvent, &'static str>)
    ensures
        r matches Ok(ev) ==> (token_instruction_valid(instruction@.data) && event_matches_tag(
            Event::InitializeAccount(ev),
            instruction@.data,
        )),
{
    match parse_instruction(instruction, context) {
        Ok(Some(Event::InitializeAccount(initialize_account))) => Ok(initialize_account),
        _ => Err("Failed to parse initialize account instruction."),
    }
}

/// Decodes one node as a multisig initialization, and nothing else.
pub fn parse_initialize_multisig_instruction(
    instruction: &StructuredInstruction,
    context: &TransactionContext,
) -> (r: Result<InitializeMultisigEvent, &'static str>)
    ensures
        r matches Ok(ev) ==> (token_instruction_valid(instruction@.data) && event_matches_tag(
            Event::InitializeMultisig(ev),
            instruction@.data,
        )),
{
    match parse_instruction(instruction, context) {
        Ok(Some(Event::InitializeMultisig(initialize_multisig))) => Ok(initialize_multisig),
        _ => Err("Failed to parse initialize multisig instruction."),
    }
}

/// Decodes one node as an approval, and nothing else.
pub fn parse_approve_instruction(
    instruction: &StructuredInstruction,
    context: &TransactionContext,
) -> (r: Result<ApproveEvent, &'static str>)
    ensures
        r matches Ok(ev) ==> (token_instruction_valid(instruction@.data) && event_matches_tag(
            Event::Approve(ev),
            instruction@.data,
        )),
{
    match parse_instruction(instruction, context) {
        Ok(Some(Event::Approve(approve))) => Ok(approve),
        _ => Err("Failed to parse approve instruction."),
    }
}

/// Decodes one node as a revocation, and nothing else.
pub fn parse_revoke_instruction(
    instruction: &StructuredInstruction,
    context: &TransactionContext,
) -> (r: Result<RevokeEvent, &'static str>)
    ensures
        r matches Ok(ev) ==> (token_instruction_valid(instruction@.data) && event_matches_tag(
            Event::Revoke(ev),
            instruction@.data,
        )),
{
    match parse_instruction(instruction, context) {
        Ok(Some(Event::Revoke(revoke))) => Ok(revoke),
        _ => Err("Failed to parse revoke instruction."),
    }
}

/// Decodes one node as an authority change, and nothing else.
pub fn parse_set_authority_instruction(
    instruction: &StructuredInstruction,
    context: &TransactionContext,
) -> (r: Result<SetAuthorityEvent, &'static str>)
    ensures
        r matches Ok(ev) ==> (token_instruction_valid(instruction@.data) && event_matches_tag(
            Event::SetAuthority(ev),
            instruction@.data,
        )),
{
    match parse_instruction(instruction, context) {
        Ok(Some(Event::SetAuthority(set_authority))) => Ok(set_authority),
        _ => Err("Failed to parse set authority instruction."),
    }
}

/// Decodes one node as a mint, and nothing else.
pub fn parse_mint_to_instruction(
    instruction: &StructuredInstruction,
    context: &TransactionContext,
) -> (r: Result<MintToEvent, &'static str>)
    ensures
        r matches Ok(ev) ==> (token_instruction_valid(instruction@.data) && event_matches_tag(
            Event::MintTo(ev),
            instruction@.data,
        )),
{
    match parse_instruction(instruction, context) {
        Ok(Some(Event::MintTo(mint_to))) => Ok(mint_to),
        _ => Err("Failed to parse mint to instruction."),
    }
}

/// Decodes one node as a burn, and nothing else.
pub fn parse_burn_instruction(
    instruction: &StructuredInstruction,
    context: &TransactionContext,
) -> (r: Result<BurnEvent, &'static str>)
    ensures
        r matches Ok(ev) ==> (token_instruction_valid(instruction@.data) && event_matches_tag(
            Event::Burn(ev),
            instruction@.data,
        )),
{
    match parse_instruction(instruction, context) {
        Ok(Some(Event::Burn(burn))) => Ok(burn),
        _ => Err("Failed to parse burn instruction."),
    }
}

/// Decodes one node as an account close, and nothing else.
pub fn parse_close_account_instruction(
    instruction: &StructuredInstruction,
    context: &TransactionContext,
) -> (r: Result<CloseAccountEvent, &'static str>)
    ensures
        r matches Ok(ev) ==> (token_instruction_valid(instruction@.data) && event_matches_tag(
            Event::CloseAccount(ev),
            instruction@.data,
        )),
{
    match parse_instruction(instruction, context) {
        Ok(Some(Event::CloseAccount(close_account))) => Ok(close_account),
        _ => Err("Failed to parse close account instruction."),
    }
}

/// Decodes one node as an account freeze, and nothing else.
pub fn parse_freeze_account_instruction(
    instruction: &StructuredInstruction,
    context: &TransactionContext,
) -> (r: Result<FreezeAccountEvent, &'static str>)
    ensures
        r matches Ok(ev) ==> (token_instruction_valid(instruction@.data) && event_matches_tag(
            Event::FreezeAccount(ev),
            instruction@.data,
        )),
{
    match parse_instruction(instruction, context) {
        Ok(Some(Event::FreezeAccount(freeze_account))) => Ok(freeze_account),
        _ => Err("Failed to parse freeze account instruction."),
    }
}

/// Decodes one node as an account thaw, and nothing else.
pub fn parse_thaw_account_instruction(
    instruction: &StructuredInstruction,
    context: &TransactionContext,
) -> (r: Result<ThawAccountEvent, &'static str>)
    ensures
        r matches Ok(ev) ==> (token_instruction_valid(instruction@.data) && event_matches_tag(
            Event::ThawAccount(ev),
            instruction@.data,
        )),
{
    match parse_instruction(instruction, context) {
        Ok(Some(Event::ThawAccount(thaw_account))) => Ok(thaw_account),
        _ => Err("Failed to parse thaw account instruction."),
    }
}

/// Decodes one node as an immutable-owner initialization, and nothing
/// else.
pub fn parse_initialize_immutable_owner_instruction(
    instruction: &StructuredInstruction,
    context: &TransactionContext,
) -> (r: Result<InitializeImmutableOwnerEvent, &'static str>)
    ensures
        r matches Ok(ev) ==> (token_instruction_valid(instruction@.data) && event_matches_tag(
            Event::InitializeImmutableOwner(ev),
            instruction@.data,
        )),
{
    match parse_instruction(instruction, context) {
        Ok(Some(Event::InitializeImmutableOwner(ev))) => Ok(ev),
        _ => Err("Failed to parse initialize immutable owner instruction."),
    }
}

} // verus!
