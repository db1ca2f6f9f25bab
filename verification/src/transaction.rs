//! One transaction's input data, and the account-state context built by
//! replaying its token-moving instructions.
//!
//! The context seeds one token-account record per entry of the
//! pre-transaction balance snapshot, then replays, in flattened
//! instruction order, every instruction owned by the token program:
//! initializations insert a zero-balance record, transfers move an amount
//! from source to destination, mints and burns add and remove, closing an
//! account forces its balance to zero, and a native sync makes the balance
//! unknowable.  A record that is absent stays absent: replay never invents
//! state for an account it has not seen; a transfer one of whose accounts
//! has no record is a recorded miss and changes nothing at all, and an
//! instruction whose operands do not resolve leaves the context unchanged.
//! Balance arithmetic saturates rather than wrap: the source data is
//! trusted, and corrupt data must not bring the replay down.

use vstd::prelude::*;

use crate::builder::StructureError;
use crate::builder::StructuredInstructions;
use crate::builder::account_views;
use crate::builder::build_forest;
use crate::builder::instr_in_range;
use crate::builder::structure_flattened_instructions_with_logs;
use crate::decimal::digits_value;
use crate::decimal::is_digits;
use crate::decimal::parse_u64;
use crate::instruction::CompiledInstruction;
use crate::instruction::GroupV;
use crate::instruction::InnerInstructions;
use crate::instruction::InstrV;
use crate::instruction::WrappedInstruction;
use crate::instruction::clone_bytes;
use crate::instruction::compiled_views;
use crate::instruction::flatten_spec;
use crate::instruction::get_flattened_instructions;
use crate::instruction::group_views;
use crate::instruction::instr_views;
use crate::log::Log;
use crate::log::log_views;
use crate::log::logs_wf;
use crate::pubkey::Pubkey;
use crate::pubkey::PubkeyRef;
use crate::pubkey::base58_decoded;
use crate::pubkey::base58_of;
use crate::spl_token::TokenAccount;
use crate::spl_token::TokenAccountV;
use crate::spl_token::TokenInstruction;
use crate::spl_token::is_token_program;
use crate::spl_token::le_u64_at;
use crate::spl_token::spec_token_program_id;
use crate::spl_token::token_instruction_valid;

verus! {

/// One entry of the pre-transaction token-balance snapshot, as the source
/// data carries it: texts for the mint, the owner and the amount.
#[derive(Debug)]
pub struct TokenBalance {
    pub account_index: u32,
    pub mint: String,
    pub owner: String,
    pub amount: String,
}

/// The view of one balance-snapshot entry.
#[verifier::ext_equal]
pub struct TokenBalanceV {
    pub account_index: u32,
    pub mint: Seq<char>,
    pub owner: Seq<char>,
    pub amount: Seq<char>,
}

impl View for TokenBalance {
    type V = TokenBalanceV;

    open spec fn view(&self) -> TokenBalanceV {
        TokenBalanceV {
            account_index: self.account_index,
            mint: self.mint@,
            owner: self.owner@,
            amount: self.amount@,
        }
    }
}

/// One transaction, reduced to the plain values this crate reads: the
/// signatures, the resolved account list, the top-level instructions, the
/// inner-instruction groups, the raw log lines, the pre-transaction
/// token-balance snapshot, and whether the source flagged the transaction
/// as failed.
pub struct ConfirmedTransaction {
    pub signatures: Vec<Vec<u8>>,
    pub accounts: Vec<Vec<u8>>,
    pub instructions: Vec<CompiledInstruction>,
    pub inner_instructions: Vec<InnerInstructions>,
    pub log_messages: Vec<String>,
    pub pre_token_balances: Vec<TokenBalance>,
    pub failed: bool,
}

/// The view of one transaction.
#[verifier::ext_equal]
pub struct TransactionV {
    pub signatures: Seq<Seq<u8>>,
    pub accounts: Seq<Seq<u8>>,
    pub instructions: Seq<InstrV>,
    pub inner_instructions: Seq<GroupV>,
    pub log_messages: Seq<Seq<char>>,
    pub pre_token_balances: Seq<TokenBalanceV>,
    pub failed: bool,
}

impl View for ConfirmedTransaction {
    type V = TransactionV;

    open spec fn view(&self) -> TransactionV {
        TransactionV {
            signatures: Seq::new(self.signatures@.len(), |k: int| self.signatures@[k]@),
            accounts: account_views(self.accounts@),
            instructions: compiled_views(self.instructions@),
            inner_instructions: group_views(self.inner_instructions@),
            log_messages: Seq::new(self.log_messages@.len(), |k: int| self.log_messages@[k]@),
            pre_token_balances: Seq::new(
                self.pre_token_balances@.len(),
                |k: int| self.pre_token_balances@[k]@,
            ),
            failed: self.failed,
        }
    }
}

/// The views of a list of token-account records.
pub open spec fn token_views(s: Seq<TokenAccount>) -> Seq<TokenAccountV> {
    Seq::new(s.len(), |k: int| s[k]@)
}

/// The first record with the given address, from `i` on; negative when
/// there is none.
pub open spec fn find_token_account_from(tas: Seq<TokenAccountV>, addr: Seq<u8>, i: int) -> int
    decreases tas.len() - i,
        when 0 <= i
{
    if i >= tas.len() {
        -1
    } else if tas[i].address == addr {
        i
    } else {
        find_token_account_from(tas, addr, i + 1)
    }
}

/// The first record with the given address; negative when there is none.
pub open spec fn find_token_account(tas: Seq<TokenAccountV>, addr: Seq<u8>) -> int {
    find_token_account_from(tas, addr, 0)
}

/// Replaces the first record of the account's address, or appends a new
/// record when the address has none.
pub open spec fn upsert(tas: Seq<TokenAccountV>, account: TokenAccountV) -> Seq<TokenAccountV> {
    let j = find_token_account(tas, account.address);
    if j >= 0 {
        tas.update(j, account)
    } else {
        tas.push(account)
    }
}

/// A balance grown by an amount, stopping at the largest representable
/// value; an unknowable balance stays unknowable.
pub open spec fn amount_credit(amount: Option<u64>, x: u64) -> Option<u64> {
    match amount {
        None => None,
        Some(v) => Some(
            if v + x > u64::MAX {
                u64::MAX
            } else {
                (v + x) as u64
            },
        ),
    }
}

/// A balance shrunk by an amount, stopping at zero; an unknowable balance
/// stays unknowable.
pub open spec fn amount_debit(amount: Option<u64>, x: u64) -> Option<u64> {
    match amount {
        None => None,
        Some(v) => Some(
            if v < x {
                0u64
            } else {
                (v - x) as u64
            },
        ),
    }
}

/// Credits the record of the given address, where one exists.
pub open spec fn credit(tas: Seq<TokenAccountV>, addr: Seq<u8>, x: u64) -> Seq<TokenAccountV> {
    let j = find_token_account(tas, addr);
    if j >= 0 {
        tas.update(j, TokenAccountV { amount: amount_credit(tas[j].amount, x), ..tas[j] })
    } else {
        tas
    }
}

/// Debits the record of the given address, where one exists.
pub open spec fn debit(tas: Seq<TokenAccountV>, addr: Seq<u8>, x: u64) -> Seq<TokenAccountV> {
    let j = find_token_account(tas, addr);
    if j >= 0 {
        tas.update(j, TokenAccountV { amount: amount_debit(tas[j].amount, x), ..tas[j] })
    } else {
        tas
    }
}

/// Forces the record of the given address to the given balance, where one
/// exists.
pub open spec fn set_amount(tas: Seq<TokenAccountV>, addr: Seq<u8>, amount: Option<u64>) -> Seq<
    TokenAccountV,
> {
    let j = find_token_account(tas, addr);
    if j >= 0 {
        tas.update(j, TokenAccountV { amount, ..tas[j] })
    } else {
        tas
    }
}

/// How one instruction changes the replayed token-account state.  An
/// instruction not owned by the token program, of no recognized layout, or
/// whose operands do not resolve, changes nothing; a transfer applies only
/// when both its source and its destination have a record, and otherwise
/// changes nothing — the missing account is a recorded miss, never an
/// invented record.
pub open spec fn apply_token_instruction(
    tas: Seq<TokenAccountV>,
    accounts: Seq<Seq<u8>>,
    instr: InstrV,
) -> Seq<TokenAccountV> {
    if instr.program_id_index as int >= accounts.len() {
        tas
    } else if accounts[instr.program_id_index as int] != spec_token_program_id() {
        tas
    } else if !token_instruction_valid(instr.data) {
        tas
    } else {
        let d = instr.data;
        let acc = instr.accounts;
        let tag = d[0];
        if tag == 1 {
            if acc.len() >= 3 && acc[0] < accounts.len() && acc[1] < accounts.len() && acc[2]
                < accounts.len() && accounts[acc[1] as int].len() == 32
                && accounts[acc[2] as int].len() == 32 {
                upsert(
                    tas,
                    TokenAccountV {
                        address: accounts[acc[0] as int],
                        mint: accounts[acc[1] as int],
                        owner: accounts[acc[2] as int],
                        amount: Some(0u64),
                    },
                )
            } else {
                tas
            }
        } else if tag == 16 || tag == 18 {
            if acc.len() >= 2 && acc[0] < accounts.len() && acc[1] < accounts.len()
                && accounts[acc[1] as int].len() == 32 {
                upsert(
                    tas,
                    TokenAccountV {
                        address: accounts[acc[0] as int],
                        mint: accounts[acc[1] as int],
                        owner: d.subrange(1, 33),
                        amount: Some(0u64),
                    },
                )
            } else {
                tas
            }
        } else if tag == 3 {
            if acc.len() >= 2 && acc[0] < accounts.len() && acc[1] < accounts.len()
                && find_token_account(tas, accounts[acc[0] as int]) >= 0 && find_token_account(
                tas,
                accounts[acc[1] as int],
            ) >= 0 {
                credit(
                    debit(tas, accounts[acc[0] as int], le_u64_at(d, 1)),
                    accounts[acc[1] as int],
                    le_u64_at(d, 1),
                )
            } else {
                tas
            }
        } else if tag == 12 {
            if acc.len() >= 3 && acc[0] < accounts.len() && acc[2] < accounts.len()
                && find_token_account(tas, accounts[acc[0] as int]) >= 0 && find_token_account(
                tas,
                accounts[acc[2] as int],
            ) >= 0 {
                credit(
                    debit(tas, accounts[acc[0] as int], le_u64_at(d, 1)),
                    accounts[acc[2] as int],
                    le_u64_at(d, 1),
                )
            } else {
                tas
            }
        } else if tag == 7 || tag == 14 {
            if acc.len() >= 2 && acc[1] < accounts.len() {
                credit(tas, accounts[acc[1] as int], le_u64_at(d, 1))
            } else {
                tas
            }
        } else if tag == 8 || tag == 15 {
            if acc.len() >= 1 && acc[0] < accounts.len() {
                debit(tas, accounts[acc[0] as int], le_u64_at(d, 1))
            } else {
                tas
            }
        } else if tag == 17 {
            if acc.len() >= 1 && acc[0] < accounts.len() {
                set_amount(tas, accounts[acc[0] as int], None)
            } else {
                tas
            }
        } else if tag == 9 {
            if acc.len() >= 1 && acc[0] < accounts.len() {
                set_amount(tas, accounts[acc[0] as int], Some(0u64))
            } else {
                tas
            }
        } else {
            tas
        }
    }
}

/// How one balance-snapshot entry seeds the state: a record with the
/// resolved address, the decoded mint and owner, and the parsed amount.
/// An entry whose index, texts or amount do not resolve seeds nothing.
pub open spec fn apply_balance(
    tas: Seq<TokenAccountV>,
    accounts: Seq<Seq<u8>>,
    b: TokenBalanceV,
) -> Seq<TokenAccountV> {
    if (b.account_index as int) < accounts.len() && (base58_decoded(b.mint) matches Some(m)
        && m.len() == 32) && (base58_decoded(b.owner) matches Some(o) && o.len() == 32)
        && is_digits(b.amount) && digits_value(b.amount) <= u64::MAX {
        upsert(
            tas,
            TokenAccountV {
                address: accounts[b.account_index as int],
                mint: base58_decoded(b.mint)->0,
                owner: base58_decoded(b.owner)->0,
                amount: Some(digits_value(b.amount) as u64),
            },
        )
    } else {
        tas
    }
}

/// The state seeded from the first `i` snapshot entries.
pub open spec fn seeded_from(
    accounts: Seq<Seq<u8>>,
    balances: Seq<TokenBalanceV>,
    i: int,
) -> Seq<TokenAccountV>
    decreases i,
{
    if i <= 0 {
        seq![]
    } else {
        apply_balance(seeded_from(accounts, balances, i - 1), accounts, balances[i - 1])
    }
}

/// The state after replaying the first `i` instructions of the flattened
/// sequence over `tas`.
pub open spec fn replayed_from(
    tas: Seq<TokenAccountV>,
    accounts: Seq<Seq<u8>>,
    instrs: Seq<InstrV>,
    i: int,
) -> Seq<TokenAccountV>
    decreases i,
{
    if i <= 0 {
        tas
    } else {
        apply_token_instruction(
            replayed_from(tas, accounts, instrs, i - 1),
            accounts,
            instrs[i - 1],
        )
    }
}

/// The fully replayed state of one transaction: the snapshot seeds it, and
/// every instruction of the flattened sequence is applied in order.
pub open spec fn replayed(tx: TransactionV) -> Seq<TokenAccountV> {
    let instrs = flatten_spec(tx.instructions, tx.inner_instructions);
    replayed_from(
        seeded_from(tx.accounts, tx.pre_token_balances, tx.pre_token_balances.len() as int),
        tx.accounts,
        instrs,
        instrs.len() as int,
    )
}

/// The signature text of a transaction: the first signature, base58
/// encoded; empty when the source carries no signature.
pub open spec fn spec_signature(tx: TransactionV) -> Seq<char> {
    if tx.signatures.len() > 0 {
        base58_of(tx.signatures[0])
    } else {
        Seq::empty()
    }
}

/// Context that provides enough resolved state to decode any instruction
/// of one transaction: the resolved account list, the replayed
/// token-account records, and the transaction's signature text.
pub struct TransactionContext {
    pub accounts: Vec<Vec<u8>>,
    pub token_accounts: Vec<TokenAccount>,
    pub signature: String,
}

/// The view of a context.
#[verifier::ext_equal]
pub struct ContextV {
    pub accounts: Seq<Seq<u8>>,
    pub token_accounts: Seq<TokenAccountV>,
    pub signature: Seq<char>,
}

impl View for TransactionContext {
    type V = ContextV;

    open spec fn view(&self) -> ContextV {
        ContextV {
            accounts: account_views(self.accounts@),
            token_accounts: token_views(self.token_accounts@),
            signature: self.signature@,
        }
    }
}

/// Finds the first record with the given address.
fn find_account(tas: &Vec<TokenAccount>, addr: &Vec<u8>) -> (r: Option<usize>)
    ensures
        r is Some <==> find_token_account(token_views(tas@), addr@) >= 0,
        r matches Some(j) ==> j as int == find_token_account(token_views(tas@), addr@)
            && j < tas@.len(),
{
    let ghost tav = token_views(tas@);
    let mut i: usize = 0;
    while i < tas.len()
        invariant
            i <= tas@.len(),
            tav == token_views(tas@),
            find_token_account(tav, addr@) == find_token_account_from(tav, addr@, i as int),
        decreases tas@.len() - i,
    {
        if bytes_eq(&tas[i].address, addr) {
            assert(tav[i as int].address == addr@);
            return Some(i);
        }
        assert(tav[i as int].address != addr@);
        i += 1;
    }
    None
}

/// Two byte strings are equal, byte for byte.
pub fn bytes_eq(a: &Vec<u8>, b: &Vec<u8>) -> (r: bool)
    ensures
        r == (a@ == b@),
{
    if a.len() != b.len() {
        return false;
    }
    let mut i: usize = 0;
    while i < a.len()
        invariant
            i <= a@.len(),
            a@.len() == b@.len(),
            forall|j: int| 0 <= j < i ==> a@[j] == b@[j],
        decreases a@.len() - i,
    {
        if a[i] != b[i] {
            return false;
        }
        i += 1;
    }
    assert(a@ =~= b@);
    true
}

/// Replaces the first record of the account's address, or appends one.
fn upsert_exec(tas: &mut Vec<TokenAccount>, account: TokenAccount)
    ensures
        token_views(final(tas)@) == upsert(token_views(old(tas)@), account@),
{
    let ghost tav0 = token_views(old(tas)@);
    let ghost av = account@;
    match find_account(tas, &account.address) {
        Some(j) => {
            tas[j] = account;
            assert(token_views(tas@) =~= tav0.update(j as int, av));
        },
        None => {
            tas.push(account);
            assert(token_views(tas@) =~= tav0.push(av));
        },
    }
}

/// Applies a balance change to the first record of the given address,
/// where one exists: the new balance is `f` of the old.
fn set_amount_exec(tas: &mut Vec<TokenAccount>, addr: &Vec<u8>, amount: Option<u64>)
    ensures
        token_views(final(tas)@) == set_amount(token_views(old(tas)@), addr@, amount),
{
    let ghost tav0 = token_views(old(tas)@);
    match find_account(tas, addr) {
        Some(j) => {
            let cur = &tas[j];
            let newacc = TokenAccount {
                address: clone_bytes(&cur.address),
                mint: cur.mint,
                owner: cur.owner,
                amount,
            };
            tas[j] = newacc;
            assert(token_views(tas@) =~= set_amount(tav0, addr@, amount));
        },
        None => {
        },
    }
}

/// Credits the first record of the given address, where one exists.
fn credit_exec(tas: &mut Vec<TokenAccount>, addr: &Vec<u8>, x: u64)
    ensures
        token_views(final(tas)@) == credit(token_views(old(tas)@), addr@, x),
{
    let ghost tav0 = token_views(old(tas)@);
    match find_account(tas, addr) {
        Some(j) => {
            let cur = &tas[j];
            let new_amount = match cur.amount {
                None => None,
                Some(v) => Some(
                    if v > u64::MAX - x {
                        u64::MAX
                    } else {
                        v + x
                    },
                ),
            };
            let newacc = TokenAccount {
                address: clone_bytes(&cur.address),
                mint: cur.mint,
                owner: cur.owner,
                amount: new_amount,
            };
            tas[j] = newacc;
            assert(token_views(tas@) =~= credit(tav0, addr@, x));
        },
        None => {
        },
    }
}

/// Debits the first record of the given address, where one exists.
fn debit_exec(tas: &mut Vec<TokenAccount>, addr: &Vec<u8>, x: u64)
    ensures
        token_views(final(tas)@) == debit(token_views(old(tas)@), addr@, x),
{
    let ghost tav0 = token_views(old(tas)@);
    match find_account(tas, addr) {
        Some(j) => {
            let cur = &tas[j];
            let new_amount = match cur.amount {
                None => None,
                Some(v) => Some(
                    if v < x {
                        0u64
                    } else {
                        v - x
                    },
                ),
            };
            let newacc = TokenAccount {
                address: clone_bytes(&cur.address),
                mint: cur.mint,
                owner: cur.owner,
                amount: new_amount,
            };
            tas[j] = newacc;
            assert(token_views(tas@) =~= debit(tav0, addr@, x));
        },
        None => {
        },
    }
}

/// Lookup goes by address alone: states whose records carry the same
/// addresses, record for record, resolve every address to the same index.
proof fn lemma_find_same_addresses(
    a: Seq<TokenAccountV>,
    b: Seq<TokenAccountV>,
    addr: Seq<u8>,
    i: int,
)
    requires
        0 <= i,
        a.len() == b.len(),
        forall|j: int| 0 <= j < a.len() ==> (#[trigger] a[j]).address == b[j].address,
    ensures
        find_token_account_from(a, addr, i) == find_token_account_from(b, addr, i),
    decreases a.len() - i,
{
    if i < a.len() {
        lemma_find_same_addresses(a, b, addr, i + 1)
    }
}

/// A record appended for an address no record holds is found at the end.
proof fn lemma_find_push(tas: Seq<TokenAccountV>, acc: TokenAccountV, i: int)
    requires
        0 <= i <= tas.len(),
        find_token_account_from(tas, acc.address, i) < 0,
    ensures
        find_token_account_from(tas.push(acc), acc.address, i) == tas.len(),
    decreases tas.len() - i,
{
    if i < tas.len() {
        assert(tas.push(acc)[i] == tas[i]);
        lemma_find_push(tas, acc, i + 1);
    } else {
        assert(tas.push(acc)[tas.len() as int] == acc);
    }
}

/// Crediting, debiting or forcing a balance never changes any record's
/// address.
proof fn lemma_balance_ops_keep_addresses(tas: Seq<TokenAccountV>, addr: Seq<u8>, x: u64)
    ensures
        credit(tas, addr, x).len() == tas.len(),
        debit(tas, addr, x).len() == tas.len(),
        forall|j: int|
            0 <= j < tas.len() ==> (#[trigger] credit(tas, addr, x)[j]).address == tas[j].address,
        forall|j: int|
            0 <= j < tas.len() ==> (#[trigger] debit(tas, addr, x)[j]).address == tas[j].address,
{
    let jc = find_token_account(tas, addr);
    if jc >= 0 {
        lemma_find_token_account_hit(tas, addr, 0);
    }
}

/// Looking a record up from any position is unchanged by appending: an
/// index already found stays found.
proof fn lemma_find_push_found(tas: Seq<TokenAccountV>, acc: TokenAccountV, addr: Seq<u8>, i: int)
    requires
        0 <= i,
        find_token_account_from(tas, addr, i) >= 0,
    ensures
        find_token_account_from(tas.push(acc), addr, i) == find_token_account_from(tas, addr, i),
    decreases tas.len() - i,
{
    if i < tas.len() {
        assert(tas.push(acc)[i] == tas[i]);
        if tas[i].address != addr {
            lemma_find_push_found(tas, acc, addr, i + 1);
        }
    }
}

/// A token transfer whose source and destination both have a record moves
/// exactly the decoded amount: the source is debited, the destination is
/// credited — both saturating, an unknowable balance staying unknowable —
/// and no other record changes in any way.
pub proof fn lemma_transfer_moves_exact(
    tas: Seq<TokenAccountV>,
    accounts: Seq<Seq<u8>>,
    transfer: InstrV,
)
    requires
        transfer.program_id_index < accounts.len(),
        accounts[transfer.program_id_index as int] == spec_token_program_id(),
        token_instruction_valid(transfer.data),
        transfer.data[0] == 3,
        transfer.accounts.len() >= 2,
        transfer.accounts[0] < accounts.len(),
        transfer.accounts[1] < accounts.len(),
        accounts[transfer.accounts[0] as int] != accounts[transfer.accounts[1] as int],
        find_token_account(tas, accounts[transfer.accounts[0] as int]) >= 0,
        find_token_account(tas, accounts[transfer.accounts[1] as int]) >= 0,
    ensures
        ({
            let x = le_u64_at(transfer.data, 1);
            let after = apply_token_instruction(tas, accounts, transfer);
            let jsrc = find_token_account(tas, accounts[transfer.accounts[0] as int]);
            let jdst = find_token_account(tas, accounts[transfer.accounts[1] as int]);
            &&& after.len() == tas.len()
            &&& after[jsrc] == TokenAccountV { amount: amount_debit(tas[jsrc].amount, x), ..tas[jsrc] }
            &&& after[jdst] == TokenAccountV { amount: amount_credit(tas[jdst].amount, x), ..tas[jdst] }
            &&& forall|k: int| 0 <= k < tas.len() && k != jsrc && k != jdst ==> #[trigger] after[k] == tas[k]
        }),
{
    let x = le_u64_at(transfer.data, 1);
    let src = accounts[transfer.accounts[0] as int];
    let dst = accounts[transfer.accounts[1] as int];
    let jsrc = find_token_account(tas, src);
    let jdst = find_token_account(tas, dst);
    lemma_find_token_account_hit(tas, src, 0);
    lemma_find_token_account_hit(tas, dst, 0);
    assert(tas[jsrc].address == src);
    assert(tas[jdst].address == dst);
    assert(jsrc != jdst);
    let after = apply_token_instruction(tas, accounts, transfer);
    let debited = debit(tas, src, x);
    assert(debited == tas.update(jsrc, TokenAccountV { amount: amount_debit(tas[jsrc].amount, x), ..tas[jsrc] }));
    lemma_balance_ops_keep_addresses(tas, src, x);
    lemma_find_same_addresses(tas, debited, dst, 0);
    assert(find_token_account(debited, dst) == jdst);
    assert(debited[jdst] == tas[jdst]);
    assert(after == debited.update(jdst, TokenAccountV { amount: amount_credit(tas[jdst].amount, x), ..tas[jdst] }));
    assert(after[jsrc] == debited[jsrc]);
}

/// Account-state replay is order-sensitive.  Replaying a transfer before
/// the instruction that initializes its destination leaves the
/// destination state absent, and nothing at all moves — the transfer is a
/// documented miss, so the later initialization records a zero balance —
/// while replaying the initialization first yields exactly the
/// transferred amount.
pub proof fn lemma_replay_order_sensitive(
    tas: Seq<TokenAccountV>,
    accounts: Seq<Seq<u8>>,
    init: InstrV,
    transfer: InstrV,
    dest: Seq<u8>,
)
    requires
        find_token_account(tas, dest) < 0,
        init.program_id_index < accounts.len(),
        accounts[init.program_id_index as int] == spec_token_program_id(),
        token_instruction_valid(init.data),
        init.data[0] == 16,
        init.accounts.len() >= 2,
        init.accounts[0] < accounts.len(),
        init.accounts[1] < accounts.len(),
        accounts[init.accounts[0] as int] == dest,
        accounts[init.accounts[1] as int].len() == 32,
        transfer.program_id_index < accounts.len(),
        accounts[transfer.program_id_index as int] == spec_token_program_id(),
        token_instruction_valid(transfer.data),
        transfer.data[0] == 3,
        transfer.accounts.len() >= 2,
        transfer.accounts[0] < accounts.len(),
        transfer.accounts[1] < accounts.len(),
        accounts[transfer.accounts[1] as int] == dest,
        accounts[transfer.accounts[0] as int] != dest,
        find_token_account(tas, accounts[transfer.accounts[0] as int]) >= 0,
    ensures
        apply_token_instruction(tas, accounts, transfer) == tas,
        find_token_account(apply_token_instruction(tas, accounts, transfer), dest) < 0,
        ({
            let wrong = apply_token_instruction(
                apply_token_instruction(tas, accounts, transfer),
                accounts,
                init,
            );
            let j = find_token_account(wrong, dest);
            j >= 0 && wrong[j].amount == Some(0u64)
        }),
        ({
            let right = apply_token_instruction(
                apply_token_instruction(tas, accounts, init),
                accounts,
                transfer,
            );
            let j = find_token_account(right, dest);
            j >= 0 && right[j].amount == Some(le_u64_at(transfer.data, 1))
        }),
{
    let x = le_u64_at(transfer.data, 1);
    let src = accounts[transfer.accounts[0] as int];
    // wrong order: the destination has no record, so the transfer is a
    // miss and moves nothing at all
    let t1 = apply_token_instruction(tas, accounts, transfer);
    assert(t1 == tas);
    // ... and the later initialization appends a fresh zero-balance record
    let zero = TokenAccountV {
        address: dest,
        mint: accounts[init.accounts[1] as int],
        owner: init.data.subrange(1, 33),
        amount: Some(0u64),
    };
    let wrong = apply_token_instruction(t1, accounts, init);
    assert(wrong == tas.push(zero));
    lemma_find_push(tas, zero, 0);
    assert(find_token_account(wrong, dest) == tas.len());
    // right order: the initialization appends the record first
    let r1 = apply_token_instruction(tas, accounts, init);
    assert(r1 == tas.push(zero));
    let n = tas.len() as int;
    assert(find_token_account(r1, dest) == n);
    lemma_find_push_found(tas, zero, src, 0);
    assert(find_token_account(r1, src) == find_token_account(tas, src));
    let right = apply_token_instruction(r1, accounts, transfer);
    assert(right == credit(debit(r1, src, x), dest, x));
    let rd = debit(r1, src, x);
    lemma_balance_ops_keep_addresses(r1, src, x);
    lemma_find_same_addresses(r1, rd, dest, 0);
    assert(find_token_account(rd, dest) == n);
    let jsrc = find_token_account(r1, src);
    lemma_find_token_account_hit(r1, src, 0);
    assert(jsrc != n);
    assert(rd[n] == r1[n]);
    assert(rd[n].amount == Some(0u64));
    assert(right == rd.update(n, TokenAccountV { amount: amount_credit(Some(0u64), x), ..rd[n] }));
    assert(amount_credit(Some(0u64), x) == Some(x));
    assert(right[n].amount == Some(x));
    lemma_balance_ops_keep_addresses(rd, dest, x);
    lemma_find_same_addresses(rd, right, dest, 0);
    assert(find_token_account(right, dest) == n);
}

/// A found index holds a record with the sought address.
proof fn lemma_find_token_account_hit(tas: Seq<TokenAccountV>, addr: Seq<u8>, i: int)
    requires
        0 <= i,
        find_token_account_from(tas, addr, i) >= 0,
    ensures
        i <= find_token_account_from(tas, addr, i) < tas.len(),
        tas[find_token_account_from(tas, addr, i)].address == addr,
    decreases tas.len() - i,
{
    if i < tas.len() && tas[i].address != addr {
        lemma_find_token_account_hit(tas, addr, i + 1);
    }
}

impl TransactionContext {
    /// The replayed record of a token account, where the replay has seen
    /// one; absence means no token account is known at this point of the
    /// transaction, a recoverable miss.
    pub fn get_token_account(&self, address: &PubkeyRef) -> (r: Option<&TokenAccount>)
        ensures
            r is Some <==> find_token_account(self@.token_accounts, address@) >= 0,
            r matches Some(a) ==> a@ == self@.token_accounts[find_token_account(
                self@.token_accounts,
                address@,
            )],
    {
        match find_account(&self.token_accounts, address.0) {
            Some(j) => Some(&self.token_accounts[j]),
            None => None,
        }
    }

    /// Replays one instruction over the context, as
    /// `apply_token_instruction` describes; an instruction not owned by
    /// the token program, of no recognized layout, or whose operands do
    /// not resolve, changes nothing.
    pub fn update(&mut self, instruction: &WrappedInstruction)
        ensures
            final(self)@.accounts == old(self)@.accounts,
            final(self)@.signature == old(self)@.signature,
            final(self)@.token_accounts == apply_token_instruction(
                old(self)@.token_accounts,
                old(self)@.accounts,
                instruction@,
            ),
    {
        let ghost av = account_views(self.accounts@);
        let ghost tav0 = token_views(self.token_accounts@);
        let ghost d = instruction@.data;
        let pid_idx = instruction.program_id_index() as usize;
        if pid_idx >= self.accounts.len() {
            return ;
        }
        if !is_token_program(&self.accounts[pid_idx]) {
            return ;
        }
        let unpacked = TokenInstruction::unpack(instruction.data().as_slice());
        match unpacked {
            Err(_) => {},
            Ok(t) => {
                let accs = instruction.accounts();
                match t {
                    TokenInstruction::InitializeAccount => {
                        if accs.len() < 3 {
                            return ;
                        }
                        let a0 = accs[0] as usize;
                        let a1 = accs[1] as usize;
                        let a2 = accs[2] as usize;
                        if a0 >= self.accounts.len() || a1 >= self.accounts.len() || a2
                            >= self.accounts.len() {
                            return ;
                        }
                        let mint = match Pubkey::try_from(self.accounts[a1].as_slice()) {
                            Ok(k) => k,
                            Err(_) => {
                                return ;
                            },
                        };
                        let owner = match Pubkey::try_from(self.accounts[a2].as_slice()) {
                            Ok(k) => k,
                            Err(_) => {
                                return ;
                            },
                        };
                        let address = clone_bytes(&self.accounts[a0]);
                        upsert_exec(
                            &mut self.token_accounts,
                            TokenAccount { address, mint, owner, amount: Some(0) },
                        );
                    },
                    TokenInstruction::InitializeAccount2 { owner }
                    | TokenInstruction::InitializeAccount3 { owner } => {
                        if accs.len() < 2 {
                            return ;
                        }
                        let a0 = accs[0] as usize;
                        let a1 = accs[1] as usize;
                        if a0 >= self.accounts.len() || a1 >= self.accounts.len() {
                            return ;
                        }
                        let mint = match Pubkey::try_from(self.accounts[a1].as_slice()) {
                            Ok(k) => k,
                            Err(_) => {
                                return ;
                            },
                        };
                        let address = clone_bytes(&self.accounts[a0]);
                        upsert_exec(
                            &mut self.token_accounts,
                            TokenAccount { address, mint, owner, amount: Some(0) },
                        );
                    },
                    TokenInstruction::Transfer { amount } => {
                        if accs.len() < 2 {
                            return ;
                        }
                        let a0 = accs[0] as usize;
                        let a1 = accs[1] as usize;
                        if a0 >= self.accounts.len() || a1 >= self.accounts.len() {
                            return ;
                        }
                        let src = clone_bytes(&self.accounts[a0]);
                        let dst = clone_bytes(&self.accounts[a1]);
                        // a transfer with an unknown leg is a recorded miss: nothing moves
                        if find_account(&self.token_accounts, &src).is_none() || find_account(
                            &self.token_accounts,
                            &dst,
                        ).is_none() {
                            return ;
                        }
                        debit_exec(&mut self.token_accounts, &src, amount);
                        credit_exec(&mut self.token_accounts, &dst, amount);
                    },
                    TokenInstruction::TransferChecked { amount, decimals: _ } => {
                        if accs.len() < 3 {
                            return ;
                        }
                        let a0 = accs[0] as usize;
                        let a2 = accs[2] as usize;
                        if a0 >= self.accounts.len() || a2 >= self.accounts.len() {
                            return ;
                        }
                        let src = clone_bytes(&self.accounts[a0]);
                        let dst = clone_bytes(&self.accounts[a2]);
                        // a transfer with an unknown leg is a recorded miss: nothing moves
                        if find_account(&self.token_accounts, &src).is_none() || find_account(
                            &self.token_accounts,
                            &dst,
                        ).is_none() {
                            return ;
                        }
                        debit_exec(&mut self.token_accounts, &src, amount);
                        credit_exec(&mut self.token_accounts, &dst, amount);
                    },
                    TokenInstruction::MintTo { amount } | TokenInstruction::MintToChecked {
                        amount,
                        decimals: _,
                    } => {
                        if accs.len() < 2 {
                            return ;
                        }
                        let a1 = accs[1] as usize;
                        if a1 >= self.accounts.len() {
                            return ;
                        }
                        let dst = clone_bytes(&self.accounts[a1]);
                        credit_exec(&mut self.token_accounts, &dst, amount);
                    },
                    TokenInstruction::Burn { amount } | TokenInstruction::BurnChecked {
                        amount,
                        decimals: _,
                    } => {
                        if accs.len() < 1 {
                            return ;
                        }
                        let a0 = accs[0] as usize;
                        if a0 >= self.accounts.len() {
                            return ;
                        }
                        let src = clone_bytes(&self.accounts[a0]);
                        debit_exec(&mut self.token_accounts, &src, amount);
                    },
                    TokenInstruction::SyncNative => {
                        if accs.len() < 1 {
                            return ;
                        }
                        let a0 = accs[0] as usize;
                        if a0 >= self.accounts.len() {
                            return ;
                        }
                        let addr = clone_bytes(&self.accounts[a0]);
                        set_amount_exec(&mut self.token_accounts, &addr, None);
                    },
                    TokenInstruction::CloseAccount => {
                        if accs.len() < 1 {
                            return ;
                        }
                        let a0 = accs[0] as usize;
                        if a0 >= self.accounts.len() {
                            return ;
                        }
                        let addr = clone_bytes(&self.accounts[a0]);
                        set_amount_exec(&mut self.token_accounts, &addr, Some(0));
                    },
                    _ => {},
                }
            },
        }
    }

    /// The bare context of one transaction: its resolved accounts and its
    /// signature text, with no token account yet.
    fn new_context(transaction: &ConfirmedTransaction) -> (r: TransactionContext)
        ensures
            r@.accounts == transaction@.accounts,
            r@.signature == spec_signature(transaction@),
            r@.token_accounts == Seq::<TokenAccountV>::empty(),
    {
        let mut accounts: Vec<Vec<u8>> = Vec::new();
        let mut i: usize = 0;
        while i < transaction.accounts.len()
            invariant
                i <= transaction.accounts@.len(),
                account_views(accounts@) == account_views(transaction.accounts@).subrange(
                    0,
                    i as int,
                ),
            decreases transaction.accounts@.len() - i,
        {
            let ghost accs0 = accounts@;
            accounts.push(clone_bytes(&transaction.accounts[i]));
            proof {
                assert(account_views(accs0).len() == i as nat);
                assert(accs0.len() == i);
                let target = account_views(transaction.accounts@).subrange(0, i + 1);
                assert forall|t: int| 0 <= t < target.len() implies account_views(accounts@)[t]
                    == target[t] by {
                    if t < i {
                        assert(accounts@[t] == accs0[t]);
                        assert(account_views(accs0)[t] == account_views(
                            transaction.accounts@,
                        ).subrange(0, i as int)[t]);
                    }
                }
                assert(account_views(accounts@) =~= target);
            }
            i += 1;
        }
        assert(account_views(accounts@) =~= account_views(transaction.accounts@));
        let signature = if transaction.signatures.len() > 0 {
            crate::pubkey::bs58_encode(transaction.signatures[0].as_slice())
        } else {
            String::new()
        };
        let r = TransactionContext { accounts, token_accounts: Vec::new(), signature };
        proof {
            assert(token_views(r.token_accounts@) =~= Seq::<TokenAccountV>::empty());
        }
        r
    }

    /// The context seeded from the pre-transaction balance snapshot alone,
    /// before any instruction is replayed.
    pub fn build_partial(transaction: &ConfirmedTransaction) -> (r: Result<
        TransactionContext,
        &'static str,
    >)
        ensures
            r is Ok,
            r matches Ok(c) ==> {
                &&& c@.accounts == transaction@.accounts
                &&& c@.signature == spec_signature(transaction@)
                &&& c@.token_accounts == seeded_from(
                    transaction@.accounts,
                    transaction@.pre_token_balances,
                    transaction@.pre_token_balances.len() as int,
                )
            },
    {
        let ghost txv = transaction@;
        let mut context = TransactionContext::new_context(transaction);
        let mut i: usize = 0;
        while i < transaction.pre_token_balances.len()
            invariant
                i <= transaction.pre_token_balances@.len(),
                txv == transaction@,
                context@.accounts == txv.accounts,
                context@.signature == spec_signature(txv),
                context@.token_accounts == seeded_from(
                    txv.accounts,
                    txv.pre_token_balances,
                    i as int,
                ),
            decreases transaction.pre_token_balances@.len() - i,
        {
            let b = &transaction.pre_token_balances[i];
            assert(b@ == txv.pre_token_balances[i as int]);
            let idx = b.account_index as usize;
            if idx < context.accounts.len() {
                let mint_ok = Pubkey::try_from_string(b.mint.as_str());
                let owner_ok = Pubkey::try_from_string(b.owner.as_str());
                let amount_ok = parse_u64(b.amount.as_str());
                match (mint_ok, owner_ok, amount_ok) {
                    (Ok(mint), Ok(owner), Some(amount)) => {
                        let address = clone_bytes(&context.accounts[idx]);
                        upsert_exec(
                            &mut context.token_accounts,
                            TokenAccount { address, mint, owner, amount: Some(amount) },
                        );
                    },
                    _ => {},
                }
            }
            i += 1;
        }
        Ok(context)
    }

    /// The fully replayed context of one transaction: the snapshot seeds
    /// it, and every instruction of the flattened sequence is applied in
    /// order.
    pub fn build(transaction: &ConfirmedTransaction) -> (r: Result<
        TransactionContext,
        &'static str,
    >)
        ensures
            r is Ok,
            r matches Ok(c) ==> {
                &&& c@.accounts == transaction@.accounts
                &&& c@.signature == spec_signature(transaction@)
                &&& c@.token_accounts == replayed(transaction@)
            },
    {
        let ghost txv = transaction@;
        let mut context = match TransactionContext::build_partial(transaction) {
            Ok(c) => c,
            Err(_) => unreached(),
        };
        let instructions = get_flattened_instructions(
            &transaction.instructions,
            &transaction.inner_instructions,
        );
        let ghost fl = flatten_spec(txv.instructions, txv.inner_instructions);
        let ghost seeded = seeded_from(
            txv.accounts,
            txv.pre_token_balances,
            txv.pre_token_balances.len() as int,
        );
        let mut i: usize = 0;
        while i < instructions.len()
            invariant
                i <= instructions@.len(),
                txv == transaction@,
                fl == instr_views(instructions@),
                context@.accounts == txv.accounts,
                context@.signature == spec_signature(txv),
                context@.token_accounts == replayed_from(seeded, txv.accounts, fl, i as int),
            decreases instructions@.len() - i,
        {
            let instr = &instructions[i];
            assert(instr@ == fl[i as int]);
            context.update(instr);
            i += 1;
        }
        Ok(context)
    }
}

/// Access to a transaction's signature bytes, as the source data's
/// navigation offers it.
pub trait ConfirmedTransactionExt {
    /// The carrier holds at least one signature.
    spec fn has_signature(&self) -> bool;

    /// The transaction's first signature; a carrier without one is
    /// excluded: this crate's verified functions do not panic.
    fn signature(&self) -> &Vec<u8>
        requires
            self.has_signature(),
    ;
}

impl ConfirmedTransactionExt for ConfirmedTransaction {
    open spec fn has_signature(&self) -> bool {
        self@.signatures.len() > 0
    }

    fn signature(&self) -> (r: &Vec<u8>)
        ensures
            r@ == self@.signatures[0],
    {
        &self.signatures[0]
    }
}

/// The fully replayed context of a transaction; a transaction the source
/// flagged as failed gets none.
pub fn get_context(transaction: &ConfirmedTransaction) -> (r: Result<
    TransactionContext,
    StructureError,
>)
    ensures
        r is Ok <==> !transaction@.failed,
        r matches Ok(c) ==> {
            &&& c@.accounts == transaction@.accounts
            &&& c@.signature == spec_signature(transaction@)
            &&& c@.token_accounts == replayed(transaction@)
        },
        r matches Err(e) ==> e == StructureError::FailedTransaction,
{
    if transaction.failed {
        return Err(StructureError::FailedTransaction);
    }
    match TransactionContext::build(transaction) {
        Ok(c) => Ok(c),
        Err(_) => unreached(),
    }
}

/// The signature text of a transaction: its first signature, base58
/// encoded; empty when the source carries none.
pub fn get_signature(transaction: &ConfirmedTransaction) -> (r: String)
    ensures
        r@ == spec_signature(transaction@),
{
    if transaction.signatures.len() > 0 {
        crate::pubkey::bs58_encode(transaction.signatures[0].as_slice())
    } else {
        String::new()
    }
}

/// Structures a transaction's instructions into the forest that
/// `build_forest` describes; a transaction the source flagged as failed
/// gets none, and an instruction naming an account index outside the
/// resolved account list abandons the whole transaction.
pub fn get_structured_instructions(transaction: &ConfirmedTransaction) -> (r: Result<
    StructuredInstructions,
    StructureError,
>)
    ensures
        transaction@.failed <==> (r matches Err(e) && e == StructureError::FailedTransaction),
        !transaction@.failed ==> {
            let fl = flatten_spec(transaction@.instructions, transaction@.inner_instructions);
            r is Ok <==> (forall|k: int|
                0 <= k < fl.len() ==> instr_in_range(#[trigger] fl[k], transaction@.accounts))
        },
        r matches Ok(f) ==> {
            let st = build_forest(
                flatten_spec(transaction@.instructions, transaction@.inner_instructions),
                transaction@.accounts,
                transaction@.log_messages,
            );
            &&& f@.nodes == st.nodes
            &&& f@.roots == st.roots
            &&& crate::builder::forest_logs_wf(f)
            &&& f.wf()
        },
{
    let ghost txv = transaction@;
    if transaction.failed {
        return Err(StructureError::FailedTransaction);
    }
    let flattened = get_flattened_instructions(
        &transaction.instructions,
        &transaction.inner_instructions,
    );
    let mut logs: Vec<Log> = Vec::new();
    let mut i: usize = 0;
    while i < transaction.log_messages.len()
        invariant
            i <= transaction.log_messages@.len(),
            txv == transaction@,
            log_views(logs@) == txv.log_messages.subrange(0, i as int),
            logs_wf(logs@),
        decreases transaction.log_messages@.len() - i,
    {
        let ghost logs0 = logs@;
        logs.push(Log::new(&transaction.log_messages[i]));
        proof {
            assert(log_views(logs@) =~= log_views(logs0).push(txv.log_messages[i as int]));
            assert(log_views(logs@) =~= txv.log_messages.subrange(0, i + 1));
            assert forall|k: int| 0 <= k < logs@.len() implies (#[trigger] logs@[k]).wf() by {
                if k < logs0.len() {
                    assert(logs@[k] == logs0[k]);
                }
            }
        }
        i += 1;
    }
    proof {
        assert(log_views(logs@) =~= txv.log_messages);
    }
    proof {
        assert(instr_views(flattened@) == flatten_spec(txv.instructions, txv.inner_instructions));
        assert(account_views(transaction.accounts@) == txv.accounts);
    }
    proof {
        crate::laws::lemma_forest_ordered(
            instr_views(flattened@),
            account_views(transaction.accounts@),
            log_views(logs@),
        );
    }
    match structure_flattened_instructions_with_logs(flattened, &logs, &transaction.accounts) {
        Ok(f) => Ok(f),
        Err(e) => Err(e),
    }
}

} // verus!
