//! A decoder for the system program's instructions.
//!
//! The payload is a four-byte little-endian tag followed by the variant's
//! fields in declaration order: eight-byte little-endian words, 32-byte
//! account identifiers, and length-prefixed UTF-8 seed strings (an
//! eight-byte little-endian length, then that many bytes).  A variant's
//! fields must fill its payload exactly; trailing bytes fail the
//! decode, never abort it.

use vstd::prelude::*;

use vstd::bytes::spec_u64_from_le_bytes;
use vstd::bytes::u64_from_le_bytes;
use vstd::slice::slice_subrange;
use vstd::slice::slice_to_vec;

use crate::decimal::bytes_to_utf8;
use crate::decimal::utf8_decoded;
use crate::pubkey::Pubkey;

verus! {

/// A seed string used to derive an account address.
#[derive(Debug, Clone)]
pub struct Seed(pub String);

/// The eight-byte word at `off`.
pub open spec fn word_at(d: Seq<u8>, off: int) -> u64 {
    spec_u64_from_le_bytes(d.subrange(off, off + 8))
}

/// A length-prefixed seed string begins at `off`: an eight-byte length,
/// that many bytes of well-formed UTF-8.
pub open spec fn seed_at_valid(d: Seq<u8>, off: int) -> bool {
    &&& off + 8 <= d.len()
    &&& off + 8 + word_at(d, off) <= d.len()
    &&& utf8_decoded(d.subrange(off + 8, off + 8 + word_at(d, off))) is Some
}

/// The text of the seed string at `off`.
pub open spec fn seed_at(d: Seq<u8>, off: int) -> Seq<char> {
    utf8_decoded(d.subrange(off + 8, off + 8 + word_at(d, off)))->0
}

/// The position right after the seed string at `off`.
pub open spec fn seed_end(d: Seq<u8>, off: int) -> int {
    off + 8 + word_at(d, off)
}

/// Reads the eight-byte word at `off`.
fn read_word(data: &[u8], off: usize) -> (r: u64)
    requires
        off + 8 <= data@.len(),
    ensures
        r == word_at(data@, off as int),
{
    let n = data.len();
    assert(off + 8 <= n);
    u64_from_le_bytes(slice_subrange(data, off, off + 8))
}

/// Reads the 32-byte identifier at `off`.
fn read_key_at(data: &[u8], off: usize) -> (r: Pubkey)
    requires
        off + 32 <= data@.len(),
    ensures
        r@ == data@.subrange(off as int, off as int + 32),
{
    let n = data.len();
    assert(off + 32 <= n);
    match Pubkey::try_from(slice_subrange(data, off, off + 32)) {
        Ok(k) => k,
        Err(_) => unreached(),
    }
}

/// Reads the seed string at `off`, and where it ends.
fn read_seed(data: &[u8], off: usize) -> (r: Result<(Seed, usize), &'static str>)
    requires
        off <= data@.len(),
    ensures
        r is Ok <==> seed_at_valid(data@, off as int),
        r matches Ok(s) ==> {
            &&& s.0.0@ == seed_at(data@, off as int)
            &&& s.1 as int == seed_end(data@, off as int)
            &&& off < s.1 <= data@.len()
        },
{
    let n = data.len();
    if off > n || n - off < 8 {
        return Err("Failed to unpack System Program instruction.");
    }
    let len64 = read_word(data, off);
    if len64 > (n - off - 8) as u64 {
        return Err("Failed to unpack System Program instruction.");
    }
    let len = len64 as usize;
    let bytes = slice_to_vec(slice_subrange(data, off + 8, off + 8 + len));
    match bytes_to_utf8(bytes) {
        Some(text) => Ok((Seed(text), off + 8 + len)),
        None => Err("Failed to unpack System Program instruction."),
    }
}

/// A request to create a new account.
#[derive(Debug)]
pub struct CreateAccount {
    /// Lamports to move into the new account.
    pub lamports: u64,
    /// Bytes of memory to allocate.
    pub space: u64,
    /// The program that will own the new account.
    pub owner: Pubkey,
}

impl CreateAccount {
    /// Decodes the variant's fields: two words and an owner, exactly.
    pub fn unpack(data: &[u8]) -> (r: Result<Self, &'static str>)
        ensures
            r is Ok <==> data@.len() == 48,
            r matches Ok(v) ==> {
                &&& v.lamports == word_at(data@, 0)
                &&& v.space == word_at(data@, 8)
                &&& v.owner@ == data@.subrange(16, 48)
            },
    {
        if data.len() != 48 {
            return Err("Failed to unpack System Program instruction.");
        }
        Ok(
            CreateAccount {
                lamports: read_word(data, 0),
                space: read_word(data, 8),
                owner: read_key_at(data, 16),
            },
        )
    }
}

/// A request to assign an account to a program.
#[derive(Debug)]
pub struct Assign {
    /// The program that will own the account.
    pub owner: Pubkey,
}

impl Assign {
    /// Decodes the variant's fields: the owner, exactly.
    pub fn unpack(data: &[u8]) -> (r: Result<Self, &'static str>)
        ensures
            r is Ok <==> data@.len() == 32,
            r matches Ok(v) ==> v.owner@ == data@.subrange(0, 32),
    {
        if data.len() != 32 {
            return Err("Failed to unpack System Program instruction.");
        }
        Ok(Assign { owner: read_key_at(data, 0) })
    }
}

/// A lamport transfer.
#[derive(Debug)]
pub struct Transfer {
    pub lamports: u64,
}

impl Transfer {
    /// Decodes the variant's fields: one word, exactly.
    pub fn unpack(data: &[u8]) -> (r: Result<Self, &'static str>)
        ensures
            r is Ok <==> data@.len() == 8,
            r matches Ok(v) ==> v.lamports == word_at(data@, 0),
    {
        if data.len() != 8 {
            return Err("Failed to unpack System Program instruction.");
        }
        Ok(Transfer { lamports: read_word(data, 0) })
    }
}

/// A lamport transfer from a derived address.
#[derive(Debug)]
pub struct TransferWithSeed {
    /// Amount to transfer.
    pub lamports: u64,
    /// Seed that derives the funding account address.
    pub from_seed: Seed,
    /// Owner that derives the funding account address.
    pub from_owner: Pubkey,
}

impl TransferWithSeed {
    /// Decodes the variant's fields: a word, a seed and an owner, exactly.
    pub fn unpack(data: &[u8]) -> (r: Result<Self, &'static str>)
        ensures
            r is Ok <==> (data@.len() >= 8 && seed_at_valid(data@, 8) && data@.len() == seed_end(
                data@,
                8,
            ) + 32),
            r matches Ok(v) ==> {
                &&& v.lamports == word_at(data@, 0)
                &&& v.from_seed.0@ == seed_at(data@, 8)
                &&& v.from_owner@ == data@.subrange(seed_end(data@, 8), seed_end(data@, 8) + 32)
            },
    {
        if data.len() < 8 {
            return Err("Failed to unpack System Program instruction.");
        }
        let lamports = read_word(data, 0);
        let (from_seed, end) = match read_seed(data, 8) {
            Ok(s) => s,
            Err(e) => {
                return Err(e);
            },
        };
        if data.len() < 32 || end != data.len() - 32 {
            return Err("Failed to unpack System Program instruction.");
        }
        Ok(TransferWithSeed { lamports, from_seed, from_owner: read_key_at(data, end) })
    }
}

/// A request to create an account at an address derived from a base key
/// and a seed.
#[derive(Debug)]
pub struct CreateAccountWithSeed {
    /// Base public key.
    pub base: Pubkey,
    /// ASCII seed string.
    pub seed: Seed,
    /// Lamports to move into the new account.
    pub lamports: u64,
    /// Bytes of memory to allocate.
    pub space: u64,
    /// The program that will own the new account.
    pub owner: Pubkey,
}

impl CreateAccountWithSeed {
    /// Decodes the variant's fields: a base, a seed, two words and an
    /// owner, exactly.
    pub fn unpack(data: &[u8]) -> (r: Result<Self, &'static str>)
        ensures
            r is Ok <==> (data@.len() >= 32 && seed_at_valid(data@, 32) && data@.len() == seed_end(
                data@,
                32,
            ) + 48),
            r matches Ok(v) ==> {
                let e = seed_end(data@, 32);
                &&& v.base@ == data@.subrange(0, 32)
                &&& v.seed.0@ == seed_at(data@, 32)
                &&& v.lamports == word_at(data@, e)
                &&& v.space == word_at(data@, e + 8)
                &&& v.owner@ == data@.subrange(e + 16, e + 48)
            },
    {
        if data.len() < 32 {
            return Err("Failed to unpack System Program instruction.");
        }
        let base = read_key_at(data, 0);
        let (seed, end) = match read_seed(data, 32) {
            Ok(s) => s,
            Err(e) => {
                return Err(e);
            },
        };
        if data.len() < 48 || end != data.len() - 48 {
            return Err("Failed to unpack System Program instruction.");
        }
        Ok(
            CreateAccountWithSeed {
                base,
                seed,
                lamports: read_word(data, end),
                space: read_word(data, end + 8),
                owner: read_key_at(data, end + 16),
            },
        )
    }
}

/// A request to allocate space in an account.
#[derive(Debug)]
pub struct Allocate {
    /// Bytes of memory to allocate.
    pub space: u64,
}

impl Allocate {
    /// Decodes the variant's fields: one word, exactly.
    pub fn unpack(data: &[u8]) -> (r: Result<Self, &'static str>)
        ensures
            r is Ok <==> data@.len() == 8,
            r matches Ok(v) ==> v.space == word_at(data@, 0),
    {
        if data.len() != 8 {
            return Err("Failed to unpack System Program instruction.");
        }
        Ok(Allocate { space: read_word(data, 0) })
    }
}

/// A request to allocate and assign an account at a derived address.
#[derive(Debug)]
pub struct AllocateWithSeed {
    /// Base public key.
    pub base: Pubkey,
    /// ASCII seed string.
    pub seed: Seed,
    /// Bytes of memory to allocate.
    pub space: u64,
    /// The program that will own the account.
    pub owner: Pubkey,
}

impl AllocateWithSeed {
    /// Decodes the variant's fields: a base, a seed, a word and an owner,
    /// exactly.
    pub fn unpack(data: &[u8]) -> (r: Result<Self, &'static str>)
        ensures
            r is Ok <==> (data@.len() >= 32 && seed_at_valid(data@, 32) && data@.len() == seed_end(
                data@,
                32,
            ) + 40),
            r matches Ok(v) ==> {
                let e = seed_end(data@, 32);
                &&& v.base@ == data@.subrange(0, 32)
                &&& v.seed.0@ == seed_at(data@, 32)
                &&& v.space == word_at(data@, e)
                &&& v.owner@ == data@.subrange(e + 8, e + 40)
            },
    {
        if data.len() < 32 {
            return Err("Failed to unpack System Program instruction.");
        }
        let base = read_key_at(data, 0);
        let (seed, end) = match read_seed(data, 32) {
            Ok(s) => s,
            Err(e) => {
                return Err(e);
            },
        };
        if data.len() < 40 || end != data.len() - 40 {
            return Err("Failed to unpack System Program instruction.");
        }
        Ok(
            AllocateWithSeed {
                base,
                seed,
                space: read_word(data, end),
                owner: read_key_at(data, end + 8),
            },
        )
    }
}

/// A request to assign an account at a derived address to a program.
#[derive(Debug)]
pub struct AssignWithSeed {
    /// Base public key.
    pub base: Pubkey,
    /// ASCII seed string.
    pub seed: Seed,
    /// The program that will own the account.
    pub owner: Pubkey,
}

impl AssignWithSeed {
    /// Decodes the variant's fields: a base, a seed and an owner, exactly.
    pub fn unpack(data: &[u8]) -> (r: Result<Self, &'static str>)
        ensures
            r is Ok <==> (data@.len() >= 32 && seed_at_valid(data@, 32) && data@.len() == seed_end(
                data@,
                32,
            ) + 32),
            r matches Ok(v) ==> {
                let e = seed_end(data@, 32);
                &&& v.base@ == data@.subrange(0, 32)
                &&& v.seed.0@ == seed_at(data@, 32)
                &&& v.owner@ == data@.subrange(e, e + 32)
            },
    {
        if data.len() < 32 {
            return Err("Failed to unpack System Program instruction.");
        }
        let base = read_key_at(data, 0);
        let (seed, end) = match read_seed(data, 32) {
            Ok(s) => s,
            Err(e) => {
                return Err(e);
            },
        };
        if data.len() < 32 || end != data.len() - 32 {
            return Err("Failed to unpack System Program instruction.");
        }
        Ok(AssignWithSeed { base, seed, owner: read_key_at(data, end) })
    }
}

/// The payload after the four-byte tag is well formed for the tag's
/// variant and fills it exactly.
pub open spec fn system_instruction_valid(d: Seq<u8>) -> bool {
    d.len() >= 4 && {
        let rest = d.skip(4);
        let tag = d[0];
        |||(tag == 0 && rest.len() == 48)
        |||(tag == 1 && rest.len() == 32)
        |||(tag == 2 && rest.len() == 8)
        |||(tag == 3 && rest.len() >= 32 && seed_at_valid(rest, 32) && rest.len() == seed_end(
            rest,
            32,
        ) + 48)
        ||| tag == 4
        |||(tag == 5 && rest.len() == 8)
        |||(tag == 6 && rest.len() == 32)
        |||(tag == 7 && rest.len() == 32)
        |||(tag == 8 && rest.len() == 8)
        |||(tag == 9 && rest.len() >= 32 && seed_at_valid(rest, 32) && rest.len() == seed_end(
            rest,
            32,
        ) + 40)
        |||(tag == 10 && rest.len() >= 32 && seed_at_valid(rest, 32) && rest.len() == seed_end(
            rest,
            32,
        ) + 32)
        |||(tag == 11 && rest.len() >= 8 && seed_at_valid(rest, 8) && rest.len() == seed_end(
            rest,
            8,
        ) + 32)
        ||| tag == 12
    }
}

/// The decoded value is the one the payload after the tag encodes.
pub open spec fn system_instruction_matches(v: SystemInstruction, d: Seq<u8>) -> bool {
    let rest = d.skip(4);
    match v {
        SystemInstruction::CreateAccount(c) => {
            &&& d[0] == 0
            &&& c.lamports == word_at(rest, 0)
            &&& c.space == word_at(rest, 8)
            &&& c.owner@ == rest.subrange(16, 48)
        },
        SystemInstruction::Assign(a) => d[0] == 1 && a.owner@ == rest.subrange(0, 32),
        SystemInstruction::Transfer(t) => d[0] == 2 && t.lamports == word_at(rest, 0),
        SystemInstruction::CreateAccountWithSeed(c) => {
            let e = seed_end(rest, 32);
            &&& d[0] == 3
            &&& c.base@ == rest.subrange(0, 32)
            &&& c.seed.0@ == seed_at(rest, 32)
            &&& c.lamports == word_at(rest, e)
            &&& c.space == word_at(rest, e + 8)
            &&& c.owner@ == rest.subrange(e + 16, e + 48)
        },
        SystemInstruction::AdvanceNonceAccount => d[0] == 4,
        SystemInstruction::WithdrawNonceAccount(x) => d[0] == 5 && x == word_at(rest, 0),
        SystemInstruction::InitializeNonceAccount(k) => d[0] == 6 && k@ == rest.subrange(0, 32),
        SystemInstruction::AuthorizeNonceAccount(k) => d[0] == 7 && k@ == rest.subrange(0, 32),
        SystemInstruction::Allocate(a) => d[0] == 8 && a.space == word_at(rest, 0),
        SystemInstruction::AllocateWithSeed(a) => {
            let e = seed_end(rest, 32);
            &&& d[0] == 9
            &&& a.base@ == rest.subrange(0, 32)
            &&& a.seed.0@ == seed_at(rest, 32)
            &&& a.space == word_at(rest, e)
            &&& a.owner@ == rest.subrange(e + 8, e + 40)
        },
        SystemInstruction::AssignWithSeed(a) => {
            let e = seed_end(rest, 32);
            &&& d[0] == 10
            &&& a.base@ == rest.subrange(0, 32)
            &&& a.seed.0@ == seed_at(rest, 32)
            &&& a.owner@ == rest.subrange(e, e + 32)
        },
        SystemInstruction::TransferWithSeed(t) => {
            let e = seed_end(rest, 8);
            &&& d[0] == 11
            &&& t.lamports == word_at(rest, 0)
            &&& t.from_seed.0@ == seed_at(rest, 8)
            &&& t.from_owner@ == rest.subrange(e, e + 32)
        },
        SystemInstruction::UpgradeNonceAccount => d[0] == 12,
    }
}

/// A decoded system program instruction.
#[derive(Debug)]
pub enum SystemInstruction {
    /// Creates a new account.
    CreateAccount(CreateAccount),
    /// Assigns an account to a program.
    Assign(Assign),
    /// Transfers lamports.
    Transfer(Transfer),
    /// Creates an account at an address derived from a base key and a
    /// seed.
    CreateAccountWithSeed(CreateAccountWithSeed),
    /// Consumes a stored nonce, replacing it with a successor.
    AdvanceNonceAccount,
    /// Withdraws funds from a nonce account.
    WithdrawNonceAccount(u64),
    /// Drives an uninitialized nonce account to its initialized state.
    InitializeNonceAccount(Pubkey),
    /// Changes the entity authorized to drive a nonce account.
    AuthorizeNonceAccount(Pubkey),
    /// Allocates space in an account.
    Allocate(Allocate),
    /// Allocates and assigns an account at a derived address.
    AllocateWithSeed(AllocateWithSeed),
    /// Assigns an account at a derived address.
    AssignWithSeed(AssignWithSeed),
    /// Transfers lamports from a derived address.
    TransferWithSeed(TransferWithSeed),
    /// Upgrades a legacy nonce account.
    UpgradeNonceAccount,
}

impl SystemInstruction {
    /// Decodes one system program instruction payload: the four-byte tag
    /// picks the variant and the rest must match that variant's layout
    /// exactly; the decode succeeds exactly on such payloads, with every
    /// field pinned to the payload's bytes.
    pub fn unpack(data: &[u8]) -> (r: Result<Self, &'static str>)
        ensures
            r is Ok <==> system_instruction_valid(data@),
            r matches Ok(v) ==> system_instruction_matches(v, data@),
    {
        if data.len() < 4 {
            return Err("Failed to unpack System Program instruction.");
        }
        let n = data.len();
        let tag = data[0];
        let rest = slice_subrange(data, 4, n);
        proof {
            assert(rest@ == data@.subrange(4, n as int));
            assert(rest@ =~= data@.skip(4));
        }
        match tag {
            0 => match CreateAccount::unpack(rest) {
                Ok(v) => Ok(SystemInstruction::CreateAccount(v)),
                Err(e) => Err(e),
            },
            1 => match Assign::unpack(rest) {
                Ok(v) => Ok(SystemInstruction::Assign(v)),
                Err(e) => Err(e),
            },
            2 => match Transfer::unpack(rest) {
                Ok(v) => {
                    proof {
                        assert(rest@.subrange(0, 8) =~= data@.subrange(4, 12));
                    }
                    Ok(SystemInstruction::Transfer(v))
                },
                Err(e) => Err(e),
            },
            3 => match CreateAccountWithSeed::unpack(rest) {
                Ok(v) => Ok(SystemInstruction::CreateAccountWithSeed(v)),
                Err(e) => Err(e),
            },
            4 => Ok(SystemInstruction::AdvanceNonceAccount),
            5 => {
                if data.len() != 12 {
                    return Err("Failed to unpack System Program instruction.");
                }
                proof {
                    assert(rest@.subrange(0, 8) =~= data@.subrange(4, 12));
                }
                Ok(SystemInstruction::WithdrawNonceAccount(read_word(rest, 0)))
            },
            6 => {
                if data.len() != 36 {
                    return Err("Failed to unpack System Program instruction.");
                }
                proof {
                    assert(rest@.subrange(0, 32) =~= data@.subrange(4, 36));
                }
                Ok(SystemInstruction::InitializeNonceAccount(read_key_at(rest, 0)))
            },
            7 => {
                if data.len() != 36 {
                    return Err("Failed to unpack System Program instruction.");
                }
                proof {
                    assert(rest@.subrange(0, 32) =~= data@.subrange(4, 36));
                }
                Ok(SystemInstruction::AuthorizeNonceAccount(read_key_at(rest, 0)))
            },
            8 => match Allocate::unpack(rest) {
                Ok(v) => {
                    proof {
                        assert(rest@.subrange(0, 8) =~= data@.subrange(4, 12));
                    }
                    Ok(SystemInstruction::Allocate(v))
                },
                Err(e) => Err(e),
            },
            9 => match AllocateWithSeed::unpack(rest) {
                Ok(v) => Ok(SystemInstruction::AllocateWithSeed(v)),
                Err(e) => Err(e),
            },
            10 => match AssignWithSeed::unpack(rest) {
                Ok(v) => Ok(SystemInstruction::AssignWithSeed(v)),
                Err(e) => Err(e),
            },
            11 => match TransferWithSeed::unpack(rest) {
                Ok(v) => Ok(SystemInstruction::TransferWithSeed(v)),
                Err(e) => Err(e),
            },
            12 => Ok(SystemInstruction::UpgradeNonceAccount),
            _ => Err("Failed to unpack System Program instruction."),
        }
    }
}

} // verus!
