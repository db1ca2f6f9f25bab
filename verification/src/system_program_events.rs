//! Typed events of the system program: the output schema, and the decoder
//! that turns one reconstructed instruction node of the system program
//! into its typed event.

use vstd::prelude::*;

use crate::builder::StructuredInstruction;
use crate::spl_token_events::account_text;
use crate::system_program::SystemInstruction;
use crate::system_program::system_instruction_valid;
use crate::system_program::word_at;

verus! {

/// The system program's account identifier: 32 zero bytes,
/// `11111111111111111111111111111111` in base58.
pub open spec fn spec_system_program_id() -> Seq<u8> {
    Seq::new(32, |i: int| 0u8)
}

/// Whether a resolved account byte string is the system program.
pub fn is_system_program(b: &Vec<u8>) -> (r: bool)
    ensures
        r == (b@ == spec_system_program_id()),
{
    if b.len() != 32 {
        return false;
    }
    let mut i: usize = 0;
    while i < 32
        invariant
            i <= 32,
            b@.len() == 32,
            forall|j: int| 0 <= j < i ==> b@[j] == 0u8,
        decreases 32 - i,
    {
        if b[i] != 0 {
            assert(b@[i as int] != spec_system_program_id()[i as int]);
            return false;
        }
        i += 1;
    }
    assert(b@ =~= spec_system_program_id());
    true
}

#[derive(Clone, PartialEq, Debug)]
pub struct SystemProgramBlockEvents {
    pub slot: u64,
    pub transactions: Vec<SystemProgramTransactionEvents>,
}

#[derive(Clone, PartialEq, Debug)]
pub struct SystemProgramTransactionEvents {
    pub signature: String,
    pub transaction_index: u32,
    pub events: Vec<SystemProgramEvent>,
}

#[derive(Clone, PartialEq, Debug)]
pub struct SystemProgramEvent {
    pub instruction_index: u32,
    pub event: Option<SystemProgramEventKind>,
}

#[derive(Clone, PartialEq, Debug)]
pub enum SystemProgramEventKind {
    CreateAccount(CreateAccountEvent),
    Assign(AssignEvent),
    Transfer(TransferEvent),
    CreateAccountWithSeed(CreateAccountWithSeedEvent),
    AdvanceNonceAccount(AdvanceNonceAccountEvent),
    WithdrawNonceAccount(WithdrawNonceAccountEvent),
    InitializeNonceAccount(InitializeNonceAccountEvent),
    AuthorizeNonceAccount(AuthorizeNonceAccountEvent),
    Allocate(AllocateEvent),
    AllocateWithSeed(AllocateWithSeedEvent),
    AssignWithSeed(AssignWithSeedEvent),
    TransferWithSeed(TransferWithSeedEvent),
    UpgradeNonceAccount(UpgradeNonceAccountEvent),
}

#[derive(Clone, PartialEq, Debug)]
pub struct CreateAccountEvent {
    pub funding_account: String,
    pub new_account: String,
    pub lamports: u64,
    pub space: u64,
    pub owner: String,
}

#[derive(Clone, PartialEq, Debug)]
pub struct AssignEvent {
    pub assigned_account: String,
    pub owner: String,
}

#[derive(Clone, PartialEq, Debug)]
pub struct TransferEvent {
    pub funding_account: String,
    pub recipient_account: String,
    pub lamports: u64,
}

#[derive(Clone, PartialEq, Debug)]
pub struct CreateAccountWithSeedEvent {
    pub funding_account: String,
    pub created_account: String,
    pub base_account: String,
    pub seed: String,
    pub lamports: u64,
    pub space: u64,
    pub owner: String,
}

#[derive(Clone, PartialEq, Debug)]
pub struct AdvanceNonceAccountEvent {
    pub nonce_account: String,
    pub nonce_authority: String,
}

#[derive(Clone, PartialEq, Debug)]
pub struct WithdrawNonceAccountEvent {
    pub nonce_account: String,
    pub recipient_account: String,
    pub nonce_authority: String,
    pub lamports: u64,
}

#[derive(Clone, PartialEq, Debug)]
pub struct InitializeNonceAccountEvent {
    pub nonce_account: String,
    pub nonce_authority: String,
}

#[derive(Clone, PartialEq, Debug)]
pub struct AuthorizeNonceAccountEvent {
    pub nonce_account: String,
    pub nonce_authority: String,
    pub new_nonce_authority: String,
}

#[derive(Clone, PartialEq, Debug)]
pub struct AllocateEvent {
    pub account: String,
    pub space: u64,
}

#[derive(Clone, PartialEq, Debug)]
pub struct AllocateWithSeedEvent {
    pub allocated_account: String,
    pub base_account: String,
    pub seed: String,
    pub space: u64,
    pub owner: String,
}

#[derive(Clone, PartialEq, Debug)]
pub struct AssignWithSeedEvent {
    pub assigned_account: String,
    pub base_account: String,
    pub seed: String,
    pub owner: String,
}

#[derive(Clone, PartialEq, Debug)]
pub struct TransferWithSeedEvent {
    pub funding_account: String,
    pub base_account: String,
    pub recipient_account: String,
    pub lamports: u64,
    pub from_seed: String,
    pub from_owner: String,
}

#[derive(Clone, PartialEq, Debug)]
pub struct UpgradeNonceAccountEvent {
    pub nonce_account: String,
}

/// The tag byte a decoded system event answers to, connecting each event
/// variant back to the instruction payload it was decoded from.
pub open spec fn system_event_matches_tag(ev: SystemProgramEventKind, d: Seq<u8>) -> bool {
    match ev {
        SystemProgramEventKind::CreateAccount(_) => d[0] == 0,
        SystemProgramEventKind::Assign(_) => d[0] == 1,
        SystemProgramEventKind::Transfer(_) => d[0] == 2,
        SystemProgramEventKind::CreateAccountWithSeed(_) => d[0] == 3,
        SystemProgramEventKind::AdvanceNonceAccount(_) => d[0] == 4,
        SystemProgramEventKind::WithdrawNonceAccount(_) => d[0] == 5,
        SystemProgramEventKind::InitializeNonceAccount(_) => d[0] == 6,
        SystemProgramEventKind::AuthorizeNonceAccount(_) => d[0] == 7,
        SystemProgramEventKind::Allocate(_) => d[0] == 8,
        SystemProgramEventKind::AllocateWithSeed(_) => d[0] == 9,
        SystemProgramEventKind::AssignWithSeed(_) => d[0] == 10,
        SystemProgramEventKind::TransferWithSeed(_) => d[0] == 11,
        SystemProgramEventKind::UpgradeNonceAccount(_) => d[0] == 12,
    }
}

/// Decodes one instruction node of the system program into its typed
/// event: an error for a node of another program, a payload of no
/// recognized layout, or account operands that do not resolve.  A
/// transfer event carries exactly the decoded lamports and the base58
/// texts of its two accounts.
pub fn parse_instruction(instruction: &StructuredInstruction) -> (r: Result<
    Option<SystemProgramEventKind>,
    &'static str,
>)
    ensures
        instruction@.program_id != spec_system_program_id() ==> r is Err,
        r matches Ok(Some(ev)) ==> (instruction@.data.len() >= 4 && system_event_matches_tag(
            ev,
            instruction@.data,
        )),
        ({
            let d = instruction@.data;
            let accs = instruction@.accounts;
            (instruction@.program_id == spec_system_program_id() && d.len() == 12 && d[0] == 2
                && accs.len() >= 2) ==> (r matches Ok(Some(SystemProgramEventKind::Transfer(ev)))
                && ev.lamports == word_at(d, 4) && ev.funding_account@ == crate::pubkey::base58_of(
                accs[0],
            ) && ev.recipient_account@ == crate::pubkey::base58_of(accs[1]))
        }),
{
    proof {
        let d = instruction@.data;
        if d.len() == 12 && d[0] == 2 {
            assert(d.skip(4).len() == 8);
            assert(system_instruction_valid(d));
            assert(d.skip(4).subrange(0, 8) =~= d.subrange(4, 12));
        }
    }
    if !is_system_program(&instruction.program_id) {
        return Err("Not a System Program instruction.");
    }
    let unpacked = match SystemInstruction::unpack(instruction.data.as_slice()) {
        Ok(v) => v,
        Err(e) => {
            return Err(e);
        },
    };
    match unpacked {
        SystemInstruction::CreateAccount(v) => {
            let funding_account = account_text(instruction, 0)?;
            let new_account = account_text(instruction, 1)?;
            Ok(Some(SystemProgramEventKind::CreateAccount(CreateAccountEvent {
                funding_account,
                new_account,
                lamports: v.lamports,
                space: v.space,
                owner: v.owner.to_string(),
            })))
        },
        SystemInstruction::Assign(v) => {
            let assigned_account = account_text(instruction, 0)?;
            Ok(Some(SystemProgramEventKind::Assign(AssignEvent {
                assigned_account,
                owner: v.owner.to_string(),
            })))
        },
        SystemInstruction::Transfer(v) => {
            let funding_account = account_text(instruction, 0)?;
            let recipient_account = account_text(instruction, 1)?;
            Ok(Some(SystemProgramEventKind::Transfer(TransferEvent {
                funding_account,
                recipient_account,
                lamports: v.lamports,
            })))
        },
        SystemInstruction::CreateAccountWithSeed(v) => {
            let funding_account = account_text(instruction, 0)?;
            let created_account = account_text(instruction, 1)?;
            Ok(Some(SystemProgramEventKind::CreateAccountWithSeed(CreateAccountWithSeedEvent {
                funding_account,
                created_account,
                base_account: v.base.to_string(),
                seed: v.seed.0,
                lamports: v.lamports,
                space: v.space,
                owner: v.owner.to_string(),
            })))
        },
        SystemInstruction::AdvanceNonceAccount => {
            let nonce_account = account_text(instruction, 0)?;
            let nonce_authority = account_text(instruction, 2)?;
            Ok(Some(SystemProgramEventKind::AdvanceNonceAccount(AdvanceNonceAccountEvent {
                nonce_account,
                nonce_authority,
            })))
        },
        SystemInstruction::WithdrawNonceAccount(lamports) => {
            let nonce_account = account_text(instruction, 0)?;
            let recipient_account = account_text(instruction, 1)?;
            let nonce_authority = account_text(instruction, 4)?;
            Ok(Some(SystemProgramEventKind::WithdrawNonceAccount(WithdrawNonceAccountEvent {
                nonce_account,
                recipient_account,
                nonce_authority,
                lamports,
            })))
        },
        SystemInstruction::InitializeNonceAccount(authority) => {
            let nonce_account = account_text(instruction, 0)?;
            Ok(Some(SystemProgramEventKind::InitializeNonceAccount(InitializeNonceAccountEvent {
                nonce_account,
                nonce_authority: authority.to_string(),
            })))
        },
        SystemInstruction::AuthorizeNonceAccount(new_authority) => {
            let nonce_account = account_text(instruction, 0)?;
            let nonce_authority = account_text(instruction, 1)?;
            Ok(Some(SystemProgramEventKind::AuthorizeNonceAccount(AuthorizeNonceAccountEvent {
                nonce_account,
                nonce_authority,
                new_nonce_authority: new_authority.to_string(),
            })))
        },
        SystemInstruction::Allocate(v) => {
            let account = account_text(instruction, 0)?;
            Ok(Some(SystemProgramEventKind::Allocate(AllocateEvent { account, space: v.space })))
        },
        SystemInstruction::AllocateWithSeed(v) => {
            let allocated_account = account_text(instruction, 0)?;
            Ok(Some(SystemProgramEventKind::AllocateWithSeed(AllocateWithSeedEvent {
                allocated_account,
                base_account: v.base.to_string(),
                seed: v.seed.0,
                space: v.space,
                owner: v.owner.to_string(),
            })))
        },
        SystemInstruction::AssignWithSeed(v) => {
            let assigned_account = account_text(instruction, 0)?;
            Ok(Some(SystemProgramEventKind::AssignWithSeed(AssignWithSeedEvent {
                assigned_account,
                base_account: v.base.to_string(),
                seed: v.seed.0,
                owner: v.owner.to_string(),
            })))
        },
        SystemInstruction::TransferWithSeed(v) => {
            let funding_account = account_text(instruction, 0)?;
            let base_account = account_text(instruction, 1)?;
            let recipient_account = account_text(instruction, 2)?;
            Ok(Some(SystemProgramEventKind::TransferWithSeed(TransferWithSeedEvent {
                funding_account,
                base_account,
                recipient_account,
                lamports: v.lamports,
                from_seed: v.from_seed.0,
                from_owner: v.from_owner.to_string(),
            })))
        },
        SystemInstruction::UpgradeNonceAccount => {
            let nonce_account = account_text(instruction, 0)?;
            Ok(Some(SystemProgramEventKind::UpgradeNonceAccount(UpgradeNonceAccountEvent {
                nonce_account,
            })))
        },
    }
}

} // verus!
