//! A minimal decoder for the token program's instructions, covering every
//! variant the account-state replay and the token event decoder read.
//!
//! The payload layout is the token program's: a one-byte tag, then the
//! variant's fields in order; amounts are little-endian eight-byte values,
//! account identifiers are 32 raw bytes, and an optional identifier is a
//! one-byte presence flag followed by the identifier when present.
//! Trailing bytes after a variant's fields are ignored, as the on-chain
//! program ignores them.

use vstd::prelude::*;

use crate::pubkey::Pubkey;
use crate::log::Log;

verus! {

/// The token program's account identifier,
/// `TokenkegQfeZyiNwAJbNbGKPFXCWuBvf9Ss623VQ5DA`.
pub open spec fn spec_token_program_id() -> Seq<u8> {
    seq![
        6u8, 221u8, 246u8, 225u8, 215u8, 101u8, 161u8, 147u8, 217u8, 203u8, 225u8, 70u8, 206u8,
        235u8, 121u8, 172u8, 28u8, 180u8, 133u8, 237u8, 95u8, 91u8, 55u8, 145u8, 58u8, 140u8,
        245u8, 133u8, 126u8, 255u8, 0u8, 169u8,
    ]
}

/// The token program's account identifier, as a value.
pub fn token_program_id() -> (r: Pubkey)
    ensures
        r@ == spec_token_program_id(),
{
    let r = Pubkey(
        [
            6u8, 221, 246, 225, 215, 101, 161, 147, 217, 203, 225, 70, 206, 235, 121, 172, 28, 180,
            133, 237, 95, 91, 55, 145, 58, 140, 245, 133, 126, 255, 0, 169,
        ],
    );
    proof {
        assert(r@ =~= spec_token_program_id());
    }
    r
}

/// Whether a resolved account byte string is the token program.
pub fn is_token_program(b: &Vec<u8>) -> (r: bool)
    ensures
        r == (b@ == spec_token_program_id()),
{
    let id = token_program_id();
    if b.len() != 32 {
        return false;
    }
    let mut i: usize = 0;
    while i < 32
        invariant
            i <= 32,
            b@.len() == 32,
            id@ == spec_token_program_id(),
            forall|j: int| 0 <= j < i ==> b@[j] == id@[j],
        decreases 32 - i,
    {
        if b[i] != id.0[i] {
            assert(b@[i as int] != spec_token_program_id()[i as int]);
            return false;
        }
        i += 1;
    }
    assert(b@ =~= spec_token_program_id());
    true
}

/// One token account's replayed state: its address, its mint and owner,
/// and its balance, absent once it has become unknowable.
#[derive(Debug, Clone)]
pub struct TokenAccount {
    pub address: Vec<u8>,
    pub mint: Pubkey,
    pub owner: Pubkey,
    pub amount: Option<u64>,
}

/// What one token account's state looks like to a specification.
#[verifier::ext_equal]
pub struct TokenAccountV {
    pub address: Seq<u8>,
    pub mint: Seq<u8>,
    pub owner: Seq<u8>,
    pub amount: Option<u64>,
}

impl View for TokenAccount {
    type V = TokenAccountV;

    open spec fn view(&self) -> TokenAccountV {
        TokenAccountV {
            address: self.address@,
            mint: self.mint@,
            owner: self.owner@,
            amount: self.amount,
        }
    }
}

/// Which entity's authority a `SetAuthority` instruction replaces.
#[derive(Clone, Copy, PartialEq, Eq, Structural, Debug)]
pub enum AuthorityType {
    MintTokens,
    FreezeAccount,
    AccountOwner,
    CloseAccount,
}

/// The authority kind a payload byte encodes.
pub open spec fn spec_authority_type(b: u8) -> AuthorityType {
    if b == 0 {
        AuthorityType::MintTokens
    } else if b == 1 {
        AuthorityType::FreezeAccount
    } else if b == 2 {
        AuthorityType::AccountOwner
    } else {
        AuthorityType::CloseAccount
    }
}

/// A decoded token program instruction.
#[derive(Debug)]
pub enum TokenInstruction {
    InitializeMint { decimals: u8, mint_authority: Pubkey, freeze_authority: Option<Pubkey> },
    InitializeAccount,
    InitializeMultisig { m: u8 },
    Transfer { amount: u64 },
    Approve { amount: u64 },
    Revoke,
    SetAuthority { authority_type: AuthorityType, new_authority: Option<Pubkey> },
    MintTo { amount: u64 },
    Burn { amount: u64 },
    CloseAccount,
    FreezeAccount,
    ThawAccount,
    TransferChecked { amount: u64, decimals: u8 },
    ApproveChecked { amount: u64, decimals: u8 },
    MintToChecked { amount: u64, decimals: u8 },
    BurnChecked { amount: u64, decimals: u8 },
    InitializeAccount2 { owner: Pubkey },
    SyncNative,
    InitializeAccount3 { owner: Pubkey },
    InitializeMultisig2 { m: u8 },
    InitializeMint2 { decimals: u8, mint_authority: Pubkey, freeze_authority: Option<Pubkey> },
    GetAccountDataSize,
    InitializeImmutableOwner,
    AmountToUiAmount { amount: u64 },
    UiAmountToAmount { ui_amount: Vec<u8> },
}

/// The little-endian eight-byte value at offset `off`.
pub open spec fn le_u64_at(d: Seq<u8>, off: int) -> u64 {
    vstd::bytes::spec_u64_from_le_bytes(d.subrange(off, off + 8))
}

/// An optional account identifier begins at `off`: a presence byte of zero
/// or one, followed by 32 bytes when present.
pub open spec fn copt_key_valid(d: Seq<u8>, off: int) -> bool {
    off < d.len() && (d[off] == 0 || (d[off] == 1 && off + 33 <= d.len()))
}

/// Whether the optional identifier at `off` is present.
pub open spec fn copt_key_present(d: Seq<u8>, off: int) -> bool {
    d[off] == 1
}

/// The tag byte of each variant with a payload the replay or the decoders
/// read further.
pub open spec fn token_instruction_valid(d: Seq<u8>) -> bool {
    d.len() >= 1 && {
        let tag = d[0];
        |||(tag == 0 || tag == 20) && d.len() >= 35 && copt_key_valid(d, 34)
        ||| tag == 1
        |||(tag == 2 || tag == 19) && d.len() >= 2
        |||(tag == 3 || tag == 4 || tag == 7 || tag == 8 || tag == 23) && d.len() >= 9
        ||| tag == 5
        ||| tag == 6 && d.len() >= 2 && d[1] <= 3 && copt_key_valid(d, 2)
        ||| tag == 9 || tag == 10 || tag == 11 || tag == 17 || tag == 21 || tag == 22
        |||(tag == 12 || tag == 13 || tag == 14 || tag == 15) && d.len() >= 10
        |||(tag == 16 || tag == 18) && d.len() >= 33
        ||| tag == 24
    }
}

/// The decoded value is the one the payload encodes.
pub open spec fn token_instruction_matches(t: TokenInstruction, d: Seq<u8>) -> bool {
    match t {
        TokenInstruction::InitializeMint { decimals, mint_authority, freeze_authority } => {
            &&& d[0] == 0
            &&& decimals == d[1]
            &&& mint_authority@ == d.subrange(2, 34)
            &&& (freeze_authority is Some <==> copt_key_present(d, 34))
            &&& (freeze_authority matches Some(k) ==> k@ == d.subrange(35, 67))
        },
        TokenInstruction::InitializeAccount => d[0] == 1,
        TokenInstruction::InitializeMultisig { m } => d[0] == 2 && m == d[1],
        TokenInstruction::Transfer { amount } => d[0] == 3 && amount == le_u64_at(d, 1),
        TokenInstruction::Approve { amount } => d[0] == 4 && amount == le_u64_at(d, 1),
        TokenInstruction::Revoke => d[0] == 5,
        TokenInstruction::SetAuthority { authority_type, new_authority } => {
            &&& d[0] == 6
            &&& authority_type == spec_authority_type(d[1])
            &&& (new_authority is Some <==> copt_key_present(d, 2))
            &&& (new_authority matches Some(k) ==> k@ == d.subrange(3, 35))
        },
        TokenInstruction::MintTo { amount } => d[0] == 7 && amount == le_u64_at(d, 1),
        TokenInstruction::Burn { amount } => d[0] == 8 && amount == le_u64_at(d, 1),
        TokenInstruction::CloseAccount => d[0] == 9,
        TokenInstruction::FreezeAccount => d[0] == 10,
        TokenInstruction::ThawAccount => d[0] == 11,
        TokenInstruction::TransferChecked { amount, decimals } => d[0] == 12 && amount == le_u64_at(
            d,
            1,
        ) && decimals == d[9],
        TokenInstruction::ApproveChecked { amount, decimals } => d[0] == 13 && amount == le_u64_at(
            d,
            1,
        ) && decimals == d[9],
        TokenInstruction::MintToChecked { amount, decimals } => d[0] == 14 && amount == le_u64_at(
            d,
            1,
        ) && decimals == d[9],
        TokenInstruction::BurnChecked { amount, decimals } => d[0] == 15 && amount == le_u64_at(
            d,
            1,
        ) && decimals == d[9],
        TokenInstruction::InitializeAccount2 { owner } => d[0] == 16 && owner@ == d.subrange(
            1,
            33,
        ),
        TokenInstruction::SyncNative => d[0] == 17,
        TokenInstruction::InitializeAccount3 { owner } => d[0] == 18 && owner@ == d.subrange(
            1,
            33,
        ),
        TokenInstruction::InitializeMultisig2 { m } => d[0] == 19 && m == d[1],
        TokenInstruction::InitializeMint2 { decimals, mint_authority, freeze_authority } => {
            &&& d[0] == 20
            &&& decimals == d[1]
            &&& mint_authority@ == d.subrange(2, 34)
            &&& (freeze_authority is Some <==> copt_key_present(d, 34))
            &&& (freeze_authority matches Some(k) ==> k@ == d.subrange(35, 67))
        },
        TokenInstruction::GetAccountDataSize => d[0] == 21,
        TokenInstruction::InitializeImmutableOwner => d[0] == 22,
        TokenInstruction::AmountToUiAmount { amount } => d[0] == 23 && amount == le_u64_at(d, 1),
        TokenInstruction::UiAmountToAmount { ui_amount } => d[0] == 24 && ui_amount@ == d.subrange(
            1,
            d.len() as int,
        ),
    }
}

/// Reads the 32-byte identifier at `off`.
fn read_key(data: &[u8], off: usize) -> (r: Pubkey)
    requires
        off + 32 <= data@.len(),
    ensures
        r@ == data@.subrange(off as int, off as int + 32),
{
    let n = data.len();
    assert(off + 32 <= n);
    let sub = vstd::slice::slice_subrange(data, off, off + 32);
    match Pubkey::try_from(sub) {
        Ok(k) => k,
        Err(_) => unreached(),
    }
}

/// Reads the optional identifier at `off`; fails when the presence byte is
/// neither zero nor one, or the identifier is cut short.
fn read_copt_key(data: &[u8], off: usize) -> (r: Result<Option<Pubkey>, &'static str>)
    requires
        off < data@.len(),
    ensures
        r is Ok <==> copt_key_valid(data@, off as int),
        r matches Ok(o) ==> {
            &&& (o is Some <==> copt_key_present(data@, off as int))
            &&& (o matches Some(k) ==> k@ == data@.subrange(off as int + 1, off as int + 33))
        },
{
    if data[off] == 0 {
        Ok(None)
    } else if data[off] == 1 {
        if data.len() >= 33 && off <= data.len() - 33 {
            Ok(Some(read_key(data, off + 1)))
        } else {
            Err("Failed to unpack Token Program instruction.")
        }
    } else {
        Err("Failed to unpack Token Program instruction.")
    }
}

/// Reads the little-endian eight-byte amount at `off`.
fn read_amount(data: &[u8], off: usize) -> (r: u64)
    requires
        off + 8 <= data@.len(),
    ensures
        r == le_u64_at(data@, off as int),
{
    let n = data.len();
    assert(off + 8 <= n);
    let sub = vstd::slice::slice_subrange(data, off, off + 8);
    vstd::bytes::u64_from_le_bytes(sub)
}

impl TokenInstruction {
    /// Decodes one token program instruction payload; fails exactly on a
    /// payload no variant of the program's layout accepts.
    pub fn unpack(data: &[u8]) -> (r: Result<TokenInstruction, &'static str>)
        ensures
            r is Ok <==> token_instruction_valid(data@),
            r matches Ok(t) ==> token_instruction_matches(t, data@),
    {
        if data.len() < 1 {
            return Err("Failed to unpack Token Program instruction.");
        }
        let tag = data[0];
        match tag {
            0 | 20 => {
                if data.len() < 35 {
                    return Err("Failed to unpack Token Program instruction.");
                }
                let decimals = data[1];
                let mint_authority = read_key(data, 2);
                let freeze_authority = match read_copt_key(data, 34) {
                    Ok(o) => o,
                    Err(e) => {
                        return Err(e);
                    },
                };
                if tag == 0 {
                    Ok(TokenInstruction::InitializeMint { decimals, mint_authority, freeze_authority })
                } else {
                    Ok(TokenInstruction::InitializeMint2 { decimals, mint_authority, freeze_authority })
                }
            },
            1 => Ok(TokenInstruction::InitializeAccount),
            2 | 19 => {
                if data.len() < 2 {
                    return Err("Failed to unpack Token Program instruction.");
                }
                if tag == 2 {
                    Ok(TokenInstruction::InitializeMultisig { m: data[1] })
                } else {
                    Ok(TokenInstruction::InitializeMultisig2 { m: data[1] })
                }
            },
            3 | 4 | 7 | 8 | 23 => {
                if data.len() < 9 {
                    return Err("Failed to unpack Token Program instruction.");
                }
                let amount = read_amount(data, 1);
                match tag {
                    3 => Ok(TokenInstruction::Transfer { amount }),
                    4 => Ok(TokenInstruction::Approve { amount }),
                    7 => Ok(TokenInstruction::MintTo { amount }),
                    8 => Ok(TokenInstruction::Burn { amount }),
                    _ => Ok(TokenInstruction::AmountToUiAmount { amount }),
                }
            },
            5 => Ok(TokenInstruction::Revoke),
            6 => {
                if data.len() < 2 {
                    return Err("Failed to unpack Token Program instruction.");
                }
                let b = data[1];
                if b > 3 {
                    return Err("Failed to unpack Token Program instruction.");
                }
                let authority_type = if b == 0 {
                    AuthorityType::MintTokens
                } else if b == 1 {
                    AuthorityType::FreezeAccount
                } else if b == 2 {
                    AuthorityType::AccountOwner
                } else {
                    AuthorityType::CloseAccount
                };
                if data.len() < 3 {
                    return Err("Failed to unpack Token Program instruction.");
                }
                let new_authority = match read_copt_key(data, 2) {
                    Ok(o) => o,
                    Err(e) => {
                        return Err(e);
                    },
                };
                Ok(TokenInstruction::SetAuthority { authority_type, new_authority })
            },
            9 => Ok(TokenInstruction::CloseAccount),
            10 => Ok(TokenInstruction::FreezeAccount),
            11 => Ok(TokenInstruction::ThawAccount),
            12 | 13 | 14 | 15 => {
                if data.len() < 10 {
                    return Err("Failed to unpack Token Program instruction.");
                }
                let amount = read_amount(data, 1);
                let decimals = data[9];
                match tag {
                    12 => Ok(TokenInstruction::TransferChecked { amount, decimals }),
                    13 => Ok(TokenInstruction::ApproveChecked { amount, decimals }),
                    14 => Ok(TokenInstruction::MintToChecked { amount, decimals }),
                    _ => Ok(TokenInstruction::BurnChecked { amount, decimals }),
                }
            },
            16 | 18 => {
                if data.len() < 33 {
                    return Err("Failed to unpack Token Program instruction.");
                }
                let owner = read_key(data, 1);
                if tag == 16 {
                    Ok(TokenInstruction::InitializeAccount2 { owner })
                } else {
                    Ok(TokenInstruction::InitializeAccount3 { owner })
                }
            },
            17 => Ok(TokenInstruction::SyncNative),
            21 => Ok(TokenInstruction::GetAccountDataSize),
            22 => Ok(TokenInstruction::InitializeImmutableOwner),
            24 => {
                let rest = vstd::slice::slice_subrange(data, 1, data.len());
                let mut ui_amount: Vec<u8> = Vec::new();
                let mut i: usize = 0;
                while i < rest.len()
                    invariant
                        i <= rest@.len(),
                        ui_amount@ == rest@.subrange(0, i as int),
                    decreases rest@.len() - i,
                {
                    ui_amount.push(rest[i]);
                    assert(ui_amount@ =~= rest@.subrange(0, i + 1));
                    i += 1;
                }
                assert(ui_amount@ =~= rest@);
                Ok(TokenInstruction::UiAmountToAmount { ui_amount })
            },
            _ => Err("Failed to unpack Token Program instruction."),
        }
    }
}

} // verus!
