//! A decoder for the bonding-curve program's instructions and its emitted
//! binary logs.
//!
//! Both start with an eight-byte discriminator; the fields that follow
//! are little-endian words, 32-byte account identifiers, single-byte
//! booleans, and strings carried as a four-byte little-endian length
//! followed by that many bytes of UTF-8.  A variant's fields must fill
//! the payload exactly.

use vstd::prelude::*;

use vstd::bytes::spec_u32_from_le_bytes;
use vstd::bytes::spec_u64_from_le_bytes;
use vstd::bytes::u32_from_le_bytes;
use vstd::bytes::u64_from_le_bytes;
use vstd::slice::slice_subrange;
use vstd::slice::slice_to_vec;

use crate::decimal::bytes_to_utf8;
use crate::decimal::utf8_decoded;
use crate::pubkey::Pubkey;

verus! {

/// The eight-byte word at `off`.
pub open spec fn word64_at(d: Seq<u8>, off: int) -> u64 {
    spec_u64_from_le_bytes(d.subrange(off, off + 8))
}

/// The eight-byte word at `off`, read as a signed value.
pub open spec fn signed64_at(d: Seq<u8>, off: int) -> i64 {
    word64_at(d, off) as i64
}

/// A length-prefixed string begins at `off`: a four-byte length, that
/// many bytes of well-formed UTF-8.
pub open spec fn text_at_valid(d: Seq<u8>, off: int) -> bool {
    &&& off + 4 <= d.len()
    &&& off + 4 + spec_u32_from_le_bytes(d.subrange(off, off + 4)) <= d.len()
    &&& utf8_decoded(
        d.subrange(off + 4, off + 4 + spec_u32_from_le_bytes(d.subrange(off, off + 4))),
    ) is Some
}

/// The text of the string at `off`.
pub open spec fn text_at(d: Seq<u8>, off: int) -> Seq<char> {
    utf8_decoded(
        d.subrange(off + 4, off + 4 + spec_u32_from_le_bytes(d.subrange(off, off + 4))),
    )->0
}

/// The position right after the string at `off`.
pub open spec fn text_end(d: Seq<u8>, off: int) -> int {
    off + 4 + spec_u32_from_le_bytes(d.subrange(off, off + 4))
}

/// Reads the eight-byte word at `off`.
fn read_word64(data: &[u8], off: usize) -> (r: u64)
    requires
        off + 8 <= data@.len(),
    ensures
        r == word64_at(data@, off as int),
{
    let n = data.len();
    assert(off + 8 <= n);
    u64_from_le_bytes(slice_subrange(data, off, off + 8))
}

/// Reads the 32-byte identifier at `off`.
fn read_key32(data: &[u8], off: usize) -> (r: Pubkey)
    requires
        off + 32 <= data@.len(),
    ensures
        r@ == data@.subrange(off as int, off as int + 32),
{
    let n = data.len();
    assert(off + 32 <= n);
    match Pubkey::try_from(slice_subrange(data, off, off + 32)) {
        Ok(k) => k,
        Err(_) => unreached(),
    }
}

/// Reads the length-prefixed string at `off`, and where it ends.
fn read_text(data: &[u8], off: usize) -> (r: Result<(String, usize), &'static str>)
    requires
        off <= data@.len(),
    ensures
        r is Ok <==> text_at_valid(data@, off as int),
        r matches Ok(s) ==> {
            &&& s.0@ == text_at(data@, off as int)
            &&& s.1 as int == text_end(data@, off as int)
            &&& off < s.1 <= data@.len()
        },
{
    let n = data.len();
    if off > n || n - off < 4 {
        return Err("Malformed string field.");
    }
    let len32 = u32_from_le_bytes(slice_subrange(data, off, off + 4));
    if len32 as u64 > (n - off - 4) as u64 {
        return Err("Malformed string field.");
    }
    let len = len32 as usize;
    let bytes = slice_to_vec(slice_subrange(data, off + 4, off + 4 + len));
    match bytes_to_utf8(bytes) {
        Some(text) => Ok((text, off + 4 + len)),
        None => Err("Malformed string field."),
    }
}

/// The eight-byte discriminator at the front of `data` equals `tag`.
fn tag_is(data: &[u8], tag: &[u8; 8]) -> (r: bool)
    requires
        data@.len() >= 8,
    ensures
        r == (data@.subrange(0, 8) == tag@),
{
    let mut i: usize = 0;
    while i < 8
        invariant
            i <= 8,
            data@.len() >= 8,
            forall|j: int| 0 <= j < i ==> data@[j] == tag@[j],
        decreases 8 - i,
    {
        if data[i] != tag[i] {
            assert(data@.subrange(0, 8)[i as int] != tag@[i as int]);
            return false;
        }
        i += 1;
    }
    assert(data@.subrange(0, 8) =~= tag@);
    true
}

/// Parameters set for the bonding curve.
#[derive(Debug)]
pub struct SetParamsInstruction {
    pub fee_recipient: Pubkey,
    pub initial_virtual_token_reserves: u64,
    pub initial_virtual_sol_reserves: u64,
    pub initial_real_token_reserves: u64,
    pub token_total_supply: u64,
    pub fee_basis_points: u64,
}

impl SetParamsInstruction {
    /// Decodes the variant's fields: a recipient and five words, exactly.
    pub fn unpack(data: &[u8]) -> (r: Result<Self, &'static str>)
        ensures
            r is Ok <==> data@.len() == 72,
            r matches Ok(v) ==> {
                &&& v.fee_recipient@ == data@.subrange(0, 32)
                &&& v.initial_virtual_token_reserves == word64_at(data@, 32)
                &&& v.initial_virtual_sol_reserves == word64_at(data@, 40)
                &&& v.initial_real_token_reserves == word64_at(data@, 48)
                &&& v.token_total_supply == word64_at(data@, 56)
                &&& v.fee_basis_points == word64_at(data@, 64)
            },
    {
        if data.len() != 72 {
            return Err("Failed to deserialize SetParamsInstruction.");
        }
        Ok(
            SetParamsInstruction {
                fee_recipient: read_key32(data, 0),
                initial_virtual_token_reserves: read_word64(data, 32),
                initial_virtual_sol_reserves: read_word64(data, 40),
                initial_real_token_reserves: read_word64(data, 48),
                token_total_supply: read_word64(data, 56),
                fee_basis_points: read_word64(data, 64),
            },
        )
    }
}

/// A token created on the curve.
#[derive(Debug)]
pub struct CreateInstruction {
    pub name: String,
    pub symbol: String,
    pub uri: String,
}

impl CreateInstruction {
    /// Decodes the variant's fields: three strings, exactly.
    pub fn unpack(data: &[u8]) -> (r: Result<Self, &'static str>)
        ensures
            r is Ok <==> (text_at_valid(data@, 0) && text_at_valid(data@, text_end(data@, 0))
                && text_at_valid(data@, text_end(data@, text_end(data@, 0))) && data@.len()
                == text_end(data@, text_end(data@, text_end(data@, 0)))),
            r matches Ok(v) ==> {
                &&& v.name@ == text_at(data@, 0)
                &&& v.symbol@ == text_at(data@, text_end(data@, 0))
                &&& v.uri@ == text_at(data@, text_end(data@, text_end(data@, 0)))
            },
    {
        let (name, e1) = match read_text(data, 0) {
            Ok(s) => s,
            Err(_) => {
                return Err("Failed to deserialize CreateInstruction.");
            },
        };
        let (symbol, e2) = match read_text(data, e1) {
            Ok(s) => s,
            Err(_) => {
                return Err("Failed to deserialize CreateInstruction.");
            },
        };
        let (uri, e3) = match read_text(data, e2) {
            Ok(s) => s,
            Err(_) => {
                return Err("Failed to deserialize CreateInstruction.");
            },
        };
        if e3 != data.len() {
            return Err("Failed to deserialize CreateInstruction.");
        }
        Ok(CreateInstruction { name, symbol, uri })
    }
}

/// A buy of curve tokens.
#[derive(Debug)]
pub struct BuyInstruction {
    pub amount: u64,
    pub max_sol_cost: u64,
}

impl BuyInstruction {
    /// Decodes the variant's fields: two words, exactly.
    pub fn unpack(data: &[u8]) -> (r: Result<Self, &'static str>)
        ensures
            r is Ok <==> data@.len() == 16,
            r matches Ok(v) ==> v.amount == word64_at(data@, 0) && v.max_sol_cost == word64_at(
                data@,
                8,
            ),
    {
        if data.len() != 16 {
            return Err("Failed to deserialize BuyInstruction.");
        }
        Ok(BuyInstruction { amount: read_word64(data, 0), max_sol_cost: read_word64(data, 8) })
    }
}

/// A sale of curve tokens.
#[derive(Debug)]
pub struct SellInstruction {
    pub amount: u64,
    pub min_sol_output: u64,
}

impl SellInstruction {
    /// Decodes the variant's fields: two words, exactly.
    pub fn unpack(data: &[u8]) -> (r: Result<Self, &'static str>)
        ensures
            r is Ok <==> data@.len() == 16,
            r matches Ok(v) ==> v.amount == word64_at(data@, 0) && v.min_sol_output == word64_at(
                data@,
                8,
            ),
    {
        if data.len() != 16 {
            return Err("Failed to deserialize SellInstruction.");
        }
        Ok(SellInstruction { amount: read_word64(data, 0), min_sol_output: read_word64(data, 8) })
    }
}

/// The eight-byte discriminator at the front of a payload.
pub open spec fn tag8(d: Seq<u8>) -> Seq<u8> {
    d.subrange(0, 8)
}

/// The discriminator of an initialization instruction.
pub open spec fn initialize_tag() -> Seq<u8> {
    seq![175u8, 175u8, 109u8, 31u8, 13u8, 152u8, 155u8, 237u8]
}

/// The discriminator of a parameter-setting instruction.
pub open spec fn set_params_tag() -> Seq<u8> {
    seq![165u8, 31u8, 134u8, 53u8, 189u8, 180u8, 130u8, 255u8]
}

/// The discriminator of a token-creation instruction.
pub open spec fn create_tag() -> Seq<u8> {
    seq![24u8, 30u8, 200u8, 40u8, 5u8, 28u8, 7u8, 119u8]
}

/// The discriminator of a buy instruction.
pub open spec fn buy_tag() -> Seq<u8> {
    seq![102u8, 6u8, 61u8, 18u8, 1u8, 218u8, 235u8, 234u8]
}

/// The discriminator of a sell instruction.
pub open spec fn sell_tag() -> Seq<u8> {
    seq![51u8, 230u8, 133u8, 164u8, 1u8, 127u8, 131u8, 173u8]
}

/// The discriminator of a withdrawal instruction.
pub open spec fn withdraw_tag() -> Seq<u8> {
    seq![183u8, 18u8, 70u8, 156u8, 148u8, 109u8, 161u8, 34u8]
}

/// The payload opens with one of the program's six instruction
/// discriminators.
pub open spec fn known_instruction_tag(d: Seq<u8>) -> bool {
    ||| tag8(d) == initialize_tag()
    ||| tag8(d) == set_params_tag()
    ||| tag8(d) == create_tag()
    ||| tag8(d) == buy_tag()
    ||| tag8(d) == sell_tag()
    ||| tag8(d) == withdraw_tag()
}

/// Three length-prefixed strings fill `rest` exactly.
pub open spec fn three_texts_valid(rest: Seq<u8>) -> bool {
    &&& text_at_valid(rest, 0)
    &&& text_at_valid(rest, text_end(rest, 0))
    &&& text_at_valid(rest, text_end(rest, text_end(rest, 0)))
    &&& rest.len() == text_end(rest, text_end(rest, text_end(rest, 0)))
}

/// The payload after a recognized instruction discriminator matches that
/// discriminator's layout; a payload whose discriminator no instruction
/// claims is always acceptable — it decodes to the pass-through variant.
pub open spec fn pumpfun_instruction_valid(d: Seq<u8>) -> bool {
    d.len() >= 8 && {
        let rest = d.skip(8);
        |||(tag8(d) == initialize_tag())
        |||(tag8(d) == set_params_tag() && rest.len() == 72)
        |||(tag8(d) == create_tag() && three_texts_valid(rest))
        |||(tag8(d) == buy_tag() && rest.len() == 16)
        |||(tag8(d) == sell_tag() && rest.len() == 16)
        |||(tag8(d) == withdraw_tag())
        ||| !known_instruction_tag(d)
    }
}

/// The decoded value is the one the discriminator selects, with every
/// field pinned to the payload after it.
pub open spec fn pumpfun_instruction_matches(v: PumpfunInstruction, d: Seq<u8>) -> bool {
    let rest = d.skip(8);
    match v {
        PumpfunInstruction::Initialize => tag8(d) == initialize_tag(),
        PumpfunInstruction::SetParams(p) => {
            &&& tag8(d) == set_params_tag()
            &&& p.fee_recipient@ == rest.subrange(0, 32)
            &&& p.initial_virtual_token_reserves == word64_at(rest, 32)
            &&& p.initial_virtual_sol_reserves == word64_at(rest, 40)
            &&& p.initial_real_token_reserves == word64_at(rest, 48)
            &&& p.token_total_supply == word64_at(rest, 56)
            &&& p.fee_basis_points == word64_at(rest, 64)
        },
        PumpfunInstruction::Create(c) => {
            &&& tag8(d) == create_tag()
            &&& c.name@ == text_at(rest, 0)
            &&& c.symbol@ == text_at(rest, text_end(rest, 0))
            &&& c.uri@ == text_at(rest, text_end(rest, text_end(rest, 0)))
        },
        PumpfunInstruction::Buy(b) => tag8(d) == buy_tag() && b.amount == word64_at(rest, 0)
            && b.max_sol_cost == word64_at(rest, 8),
        PumpfunInstruction::Sell(x) => tag8(d) == sell_tag() && x.amount == word64_at(rest, 0)
            && x.min_sol_output == word64_at(rest, 8),
        PumpfunInstruction::Withdraw => tag8(d) == withdraw_tag(),
        PumpfunInstruction::Unknown => !known_instruction_tag(d),
    }
}

/// A decoded bonding-curve instruction; an unknown discriminator is
/// passed through, not an error.
#[derive(Debug)]
pub enum PumpfunInstruction {
    Initialize,
    SetParams(SetParamsInstruction),
    Create(CreateInstruction),
    Buy(BuyInstruction),
    Sell(SellInstruction),
    Withdraw,
    Unknown,
}

impl PumpfunInstruction {
    /// Decodes one instruction payload: the eight-byte discriminator
    /// selects the variant and the rest must match its layout exactly;
    /// an unknown discriminator passes through as `Unknown`, so the
    /// decode fails exactly on a payload too short for a discriminator or
    /// a recognized discriminator over a malformed payload.
    pub fn unpack(data: &[u8]) -> (r: Result<Self, &'static str>)
        ensures
            r is Ok <==> pumpfun_instruction_valid(data@),
            r matches Ok(v) ==> pumpfun_instruction_matches(v, data@),
    {
        if data.len() < 8 {
            return Err("Instruction too short.");
        }
        let n = data.len();
        let rest = slice_subrange(data, 8, n);
        proof {
            assert(rest@ =~= data@.skip(8));
        }
        let t_init: [u8; 8] = [175, 175, 109, 31, 13, 152, 155, 237];
        let t_params: [u8; 8] = [165, 31, 134, 53, 189, 180, 130, 255];
        let t_create: [u8; 8] = [24, 30, 200, 40, 5, 28, 7, 119];
        let t_buy: [u8; 8] = [102, 6, 61, 18, 1, 218, 235, 234];
        let t_sell: [u8; 8] = [51, 230, 133, 164, 1, 127, 131, 173];
        let t_withdraw: [u8; 8] = [183, 18, 70, 156, 148, 109, 161, 34];
        proof {
            assert(t_init@ =~= initialize_tag());
            assert(t_params@ =~= set_params_tag());
            assert(t_create@ =~= create_tag());
            assert(t_buy@ =~= buy_tag());
            assert(t_sell@ =~= sell_tag());
            assert(t_withdraw@ =~= withdraw_tag());
        }
        if tag_is(data, &t_init) {
            Ok(PumpfunInstruction::Initialize)
        } else if tag_is(data, &t_params) {
            match SetParamsInstruction::unpack(rest) {
                Ok(v) => Ok(PumpfunInstruction::SetParams(v)),
                Err(e) => Err(e),
            }
        } else if tag_is(data, &t_create) {
            match CreateInstruction::unpack(rest) {
                Ok(v) => Ok(PumpfunInstruction::Create(v)),
                Err(e) => Err(e),
            }
        } else if tag_is(data, &t_buy) {
            match BuyInstruction::unpack(rest) {
                Ok(v) => Ok(PumpfunInstruction::Buy(v)),
                Err(e) => Err(e),
            }
        } else if tag_is(data, &t_sell) {
            match SellInstruction::unpack(rest) {
                Ok(v) => Ok(PumpfunInstruction::Sell(v)),
                Err(e) => Err(e),
            }
        } else if tag_is(data, &t_withdraw) {
            Ok(PumpfunInstruction::Withdraw)
        } else {
            Ok(PumpfunInstruction::Unknown)
        }
    }
}

/// A token creation reported in the program's binary log.
#[derive(Debug)]
pub struct CreateLog {
    pub name: String,
    pub symbol: String,
    pub uri: String,
    pub mint: Pubkey,
    pub bonding_curve: Pubkey,
    pub user: Pubkey,
}

/// A trade reported in the program's binary log.
#[derive(Debug)]
pub struct TradeLog {
    pub mint: Pubkey,
    pub sol_amount: u64,
    pub token_amount: u64,
    pub is_buy: bool,
    pub user: Pubkey,
    pub timestamp: i64,
    pub virtual_sol_reserves: u64,
    pub virtual_token_reserves: u64,
    pub real_sol_reserves: u64,
    pub real_token_reserves: u64,
}

/// A curve completion reported in the program's binary log.
#[derive(Debug)]
pub struct CompleteLog {
    pub user: Pubkey,
    pub mint: Pubkey,
    pub bonding_curve: Pubkey,
    pub timestamp: i64,
}

/// A parameter change reported in the program's binary log.
#[derive(Debug)]
pub struct SetParamsLog {
    pub fee_recipient: Pubkey,
    pub initial_virtual_token_reserves: u64,
    pub initial_virtual_sol_reserves: u64,
    pub initial_real_token_reserves: u64,
    pub token_total_supply: u64,
    pub fee_basis_points: u64,
}

/// A decoded binary log of the bonding-curve program.
#[derive(Debug)]
pub enum PumpfunLog {
    Create(CreateLog),
    Trade(TradeLog),
    Complete(CompleteLog),
    SetParams(SetParamsLog),
}

/// The discriminator of a creation log.
pub open spec fn create_log_tag() -> Seq<u8> {
    seq![27u8, 114u8, 169u8, 77u8, 222u8, 235u8, 99u8, 118u8]
}

/// The discriminator of a trade log.
pub open spec fn trade_log_tag() -> Seq<u8> {
    seq![189u8, 219u8, 127u8, 211u8, 78u8, 230u8, 97u8, 238u8]
}

/// The discriminator of a completion log.
pub open spec fn complete_log_tag() -> Seq<u8> {
    seq![95u8, 114u8, 97u8, 156u8, 212u8, 46u8, 152u8, 8u8]
}

/// The discriminator of a parameter-change log.
pub open spec fn set_params_log_tag() -> Seq<u8> {
    seq![223u8, 195u8, 159u8, 246u8, 62u8, 48u8, 143u8, 131u8]
}

/// A creation log's payload: three length-prefixed strings from offset
/// eight, then exactly three 32-byte identifiers.
pub open spec fn create_log_valid(d: Seq<u8>) -> bool {
    &&& text_at_valid(d, 8)
    &&& text_at_valid(d, text_end(d, 8))
    &&& text_at_valid(d, text_end(d, text_end(d, 8)))
    &&& d.len() == text_end(d, text_end(d, text_end(d, 8))) + 96
}

/// The payload opens with one of the four log discriminators and matches
/// that discriminator's layout exactly.
pub open spec fn pumpfun_log_valid(d: Seq<u8>) -> bool {
    d.len() >= 8 && {
        |||(tag8(d) == create_log_tag() && create_log_valid(d))
        |||(tag8(d) == trade_log_tag() && d.len() == 129 && d[56] <= 1)
        |||(tag8(d) == complete_log_tag() && d.len() == 112)
        |||(tag8(d) == set_params_log_tag() && d.len() == 80)
    }
}

/// The decoded log is the one the discriminator selects, with every field
/// pinned to the payload's bytes.
pub open spec fn pumpfun_log_matches(v: PumpfunLog, d: Seq<u8>) -> bool {
    match v {
        PumpfunLog::Create(c) => {
            let e3 = text_end(d, text_end(d, text_end(d, 8)));
            &&& tag8(d) == create_log_tag()
            &&& c.name@ == text_at(d, 8)
            &&& c.symbol@ == text_at(d, text_end(d, 8))
            &&& c.uri@ == text_at(d, text_end(d, text_end(d, 8)))
            &&& c.mint@ == d.subrange(e3, e3 + 32)
            &&& c.bonding_curve@ == d.subrange(e3 + 32, e3 + 64)
            &&& c.user@ == d.subrange(e3 + 64, e3 + 96)
        },
        PumpfunLog::Trade(t) => {
            &&& tag8(d) == trade_log_tag()
            &&& t.mint@ == d.subrange(8, 40)
            &&& t.sol_amount == word64_at(d, 40)
            &&& t.token_amount == word64_at(d, 48)
            &&& (t.is_buy <==> d[56] == 1)
            &&& t.user@ == d.subrange(57, 89)
            &&& t.timestamp == signed64_at(d, 89)
            &&& t.virtual_sol_reserves == word64_at(d, 97)
            &&& t.virtual_token_reserves == word64_at(d, 105)
            &&& t.real_sol_reserves == word64_at(d, 113)
            &&& t.real_token_reserves == word64_at(d, 121)
        },
        PumpfunLog::Complete(c) => {
            &&& tag8(d) == complete_log_tag()
            &&& c.user@ == d.subrange(8, 40)
            &&& c.mint@ == d.subrange(40, 72)
            &&& c.bonding_curve@ == d.subrange(72, 104)
            &&& c.timestamp == signed64_at(d, 104)
        },
        PumpfunLog::SetParams(p) => {
            &&& tag8(d) == set_params_log_tag()
            &&& p.fee_recipient@ == d.subrange(8, 40)
            &&& p.initial_virtual_token_reserves == word64_at(d, 40)
            &&& p.initial_virtual_sol_reserves == word64_at(d, 48)
            &&& p.initial_real_token_reserves == word64_at(d, 56)
            &&& p.token_total_supply == word64_at(d, 64)
            &&& p.fee_basis_points == word64_at(d, 72)
        },
    }
}

impl PumpfunLog {
    /// Decodes one binary log payload: the eight-byte discriminator
    /// selects the log kind and the rest must match its layout exactly;
    /// the decode fails exactly on a payload too short for a
    /// discriminator, a discriminator no log kind claims, or a recognized
    /// discriminator over a malformed payload.  Every field is pinned to
    /// the payload's bytes.
    pub fn unpack(data: &[u8]) -> (r: Result<Self, &'static str>)
        ensures
            r is Ok <==> pumpfun_log_valid(data@),
            r matches Ok(v) ==> pumpfun_log_matches(v, data@),
    {
        if data.len() < 8 {
            return Err("Unknown Pumpfun event.");
        }
        let t_create: [u8; 8] = [27, 114, 169, 77, 222, 235, 99, 118];
        let t_trade: [u8; 8] = [189, 219, 127, 211, 78, 230, 97, 238];
        let t_complete: [u8; 8] = [95, 114, 97, 156, 212, 46, 152, 8];
        let t_params: [u8; 8] = [223, 195, 159, 246, 62, 48, 143, 131];
        proof {
            assert(t_create@ =~= create_log_tag());
            assert(t_trade@ =~= trade_log_tag());
            assert(t_complete@ =~= complete_log_tag());
            assert(t_params@ =~= set_params_log_tag());
        }
        if tag_is(data, &t_create) {
            let (name, e1) = match read_text(data, 8) {
                Ok(s) => s,
                Err(_) => {
                    return Err("Failed to unpack CreateEvent.");
                },
            };
            let (symbol, e2) = match read_text(data, e1) {
                Ok(s) => s,
                Err(_) => {
                    return Err("Failed to unpack CreateEvent.");
                },
            };
            let (uri, e3) = match read_text(data, e2) {
                Ok(s) => s,
                Err(_) => {
                    return Err("Failed to unpack CreateEvent.");
                },
            };
            if data.len() < 96 || e3 != data.len() - 96 {
                return Err("Failed to unpack CreateEvent.");
            }
            Ok(
                PumpfunLog::Create(
                    CreateLog {
                        name,
                        symbol,
                        uri,
                        mint: read_key32(data, e3),
                        bonding_curve: read_key32(data, e3 + 32),
                        user: read_key32(data, e3 + 64),
                    },
                ),
            )
        } else if tag_is(data, &t_trade) {
            if data.len() != 129 {
                return Err("Failed to unpack TradeEvent.");
            }
            let flag = data[56];
            if flag > 1 {
                return Err("Failed to unpack TradeEvent.");
            }
            let ts_bits = read_word64(data, 89);
            Ok(
                PumpfunLog::Trade(
                    TradeLog {
                        mint: read_key32(data, 8),
                        sol_amount: read_word64(data, 40),
                        token_amount: read_word64(data, 48),
                        is_buy: flag == 1,
                        user: read_key32(data, 57),
                        timestamp: #[verifier::truncate] (ts_bits as i64),
                        virtual_sol_reserves: read_word64(data, 97),
                        virtual_token_reserves: read_word64(data, 105),
                        real_sol_reserves: read_word64(data, 113),
                        real_token_reserves: read_word64(data, 121),
                    },
                ),
            )
        } else if tag_is(data, &t_complete) {
            if data.len() != 112 {
                return Err("Failed to unpack CompleteEvent.");
            }
            let ts_bits = read_word64(data, 104);
            Ok(
                PumpfunLog::Complete(
                    CompleteLog {
                        user: read_key32(data, 8),
                        mint: read_key32(data, 40),
                        bonding_curve: read_key32(data, 72),
                        timestamp: #[verifier::truncate] (ts_bits as i64),
                    },
                ),
            )
        } else if tag_is(data, &t_params) {
            if data.len() != 80 {
                return Err("Failed to unpack SetParamsEvent.");
            }
            Ok(
                PumpfunLog::SetParams(
                    SetParamsLog {
                        fee_recipient: read_key32(data, 8),
                        initial_virtual_token_reserves: read_word64(data, 40),
                        initial_virtual_sol_reserves: read_word64(data, 48),
                        initial_real_token_reserves: read_word64(data, 56),
                        token_total_supply: read_word64(data, 64),
                        fee_basis_points: read_word64(data, 72),
                    },
                ),
            )
        } else {
            Err("Unknown Pumpfun event.")
        }
    }
}

} // verus!
