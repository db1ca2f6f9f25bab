//! The instruction tree builder.
//!
//! The builder consumes a transaction's flattened instruction sequence
//! together with its classified log lines, read through a single forward
//! cursor, and produces a forest of instruction nodes: every node carries
//! its resolved program and accounts, its payload, the exact log lines
//! attributed to its own execution, its children in order, and its parent.
//!
//! The algorithm keeps an explicit stack of open nodes, each tagged with
//! its invocation depth.  Before a new node is pushed, every open node of
//! depth at least the new node's is closed: it drains its closing log
//! segment, and is attached to the still-open node below it, or becomes a
//! completed root.  The behaviour of the whole pass is pinned down by the
//! specification-level interpreter `build_forest`, of which the executable
//! builder is proved a faithful implementation.

use vstd::prelude::*;

use crate::instruction::InstrV;
use crate::instruction::WrappedInstruction;
use crate::instruction::clone_bytes;
use crate::instruction::instr_views;
use crate::log::Log;
use crate::log::log_kind;
use crate::log::log_views;
use crate::log::logs_wf;

verus! {

/// The line classifies as `Program <id> invoke [<depth>]`.
pub open spec fn is_invoke_line(l: Seq<char>) -> bool {
    log_kind(l) is Invoke
}

/// The line classifies as `Program <id> success`.
pub open spec fn is_success_line(l: Seq<char>) -> bool {
    log_kind(l) is Success
}

/// Where a node's own-log drain, begun at `pos`, stops.  One line is taken
/// at a time; the drain stops before a later invoke line, before a success
/// line when the first line taken was an invoke (that success closes a
/// nested invocation recorded by an inner node), and right after a taken
/// success line; a cursor that runs dry simply ends the drain.
pub open spec fn drain_end_from(
    logs: Seq<Seq<char>>,
    pos: int,
    first_invoke: bool,
    started: bool,
) -> int
    decreases logs.len() - pos,
        when 0 <= pos
{
    if pos >= logs.len() {
        pos
    } else if started && is_invoke_line(logs[pos]) {
        pos
    } else if first_invoke && is_success_line(logs[pos]) {
        pos
    } else if is_success_line(logs[pos]) {
        pos + 1
    } else {
        drain_end_from(logs, pos + 1, first_invoke, true)
    }
}

/// Where the own-log drain of a node, begun at `pos`, stops.
pub open spec fn drain_end(logs: Seq<Seq<char>>, pos: int) -> int {
    drain_end_from(logs, pos, 0 <= pos < logs.len() && is_invoke_line(logs[pos]), false)
}

/// Where the drain of the plain lines a parent emits between two of its
/// children stops: at the next invoke or success line, or the end.
pub open spec fn skip_plain_end(logs: Seq<Seq<char>>, pos: int) -> int
    decreases logs.len() - pos,
        when 0 <= pos
{
    if pos >= logs.len() || is_invoke_line(logs[pos]) || is_success_line(logs[pos]) {
        pos
    } else {
        skip_plain_end(logs, pos + 1)
    }
}

pub proof fn lemma_drain_end_from_bounds(
    logs: Seq<Seq<char>>,
    pos: int,
    first_invoke: bool,
    started: bool,
)
    requires
        0 <= pos <= logs.len(),
    ensures
        pos <= drain_end_from(logs, pos, first_invoke, started) <= logs.len(),
    decreases logs.len() - pos,
{
    if pos < logs.len() && !(started && is_invoke_line(logs[pos])) && !(first_invoke
        && is_success_line(logs[pos])) && !is_success_line(logs[pos]) {
        lemma_drain_end_from_bounds(logs, pos + 1, first_invoke, true);
    }
}

pub proof fn lemma_drain_end_bounds(logs: Seq<Seq<char>>, pos: int)
    requires
        0 <= pos <= logs.len(),
    ensures
        pos <= drain_end(logs, pos) <= logs.len(),
{
    lemma_drain_end_from_bounds(
        logs,
        pos,
        0 <= pos < logs.len() && is_invoke_line(logs[pos]),
        false,
    );
}

pub proof fn lemma_skip_plain_end_bounds(logs: Seq<Seq<char>>, pos: int)
    requires
        0 <= pos <= logs.len(),
    ensures
        pos <= skip_plain_end(logs, pos) <= logs.len(),
    decreases logs.len() - pos,
{
    if !(pos >= logs.len() || is_invoke_line(logs[pos]) || is_success_line(logs[pos])) {
        lemma_skip_plain_end_bounds(logs, pos + 1);
    }
}

/// How the later of two recorded invocation depths is decided: a missing
/// depth counts as lower than any recorded one, as the source data's
/// ordering of optional values has it.
pub open spec fn depth_ge(a: Option<u32>, b: Option<u32>) -> bool {
    match (a, b) {
        (None, None) => true,
        (None, Some(_)) => false,
        (Some(_), None) => true,
        (Some(x), Some(y)) => x >= y,
    }
}

/// What one reconstructed instruction node looks like to a specification.
/// `log_open` and `log_close` delimit the whole slice of the transaction's
/// log that was consumed while the node was open; `logs` holds only the
/// lines attributed to the node's own execution.
#[verifier::ext_equal]
pub struct NodeV {
    pub program_id: Seq<u8>,
    pub accounts: Seq<Seq<u8>>,
    pub data: Seq<u8>,
    pub program_id_index: u32,
    pub stack_height: Option<u32>,
    pub logs: Seq<Seq<char>>,
    pub children: Seq<int>,
    pub parent: Option<int>,
    pub log_open: int,
    pub log_close: int,
}

/// The state of one pass of the builder: the arena of nodes in creation
/// order, the stack of open nodes (bottom first, as arena indices), the
/// completed roots, and the log cursor.
#[verifier::ext_equal]
pub struct BuildStateV {
    pub nodes: Seq<NodeV>,
    pub stack: Seq<int>,
    pub roots: Seq<int>,
    pub pos: int,
}

/// Every account index the instruction names resolves in the transaction's
/// account list.
pub open spec fn instr_in_range(i: InstrV, accounts: Seq<Seq<u8>>) -> bool {
    i.program_id_index < accounts.len() && (forall|k: int|
        0 <= k < i.accounts.len() ==> (#[trigger] i.accounts[k]) < accounts.len())
}

/// A freshly created node for `instr`, with accounts resolved and no log
/// lines drained yet.
pub open spec fn new_node(instr: InstrV, accounts: Seq<Seq<u8>>, pos: int) -> NodeV {
    NodeV {
        program_id: accounts[instr.program_id_index as int],
        accounts: Seq::new(instr.accounts.len(), |k: int| accounts[instr.accounts[k] as int]),
        data: instr.data,
        program_id_index: instr.program_id_index,
        stack_height: instr.stack_height,
        logs: seq![],
        children: seq![],
        parent: None,
        log_open: pos,
        log_close: pos,
    }
}

/// Closes the top of the stack: the node drains its closing log segment
/// and records where its slice of the log ends; if an open parent remains,
/// the node is attached as that parent's last child and the parent drains
/// the plain lines that follow; otherwise the node becomes a root.
pub open spec fn close_top(s: BuildStateV, logs: Seq<Seq<char>>) -> BuildStateV
    recommends
        s.stack.len() > 0,
        0 <= s.stack.last() < s.nodes.len(),
{
    let idx = s.stack.last();
    let e = drain_end(logs, s.pos);
    let closed = NodeV {
        logs: s.nodes[idx].logs + logs.subrange(s.pos, e),
        log_close: e,
        parent: if s.stack.len() > 1 {
            Some(s.stack[s.stack.len() - 2])
        } else {
            None
        },
        ..s.nodes[idx]
    };
    if s.stack.len() > 1 {
        let p = s.stack[s.stack.len() - 2];
        let e2 = skip_plain_end(logs, e);
        let parent = NodeV {
            children: s.nodes[p].children.push(idx),
            logs: s.nodes[p].logs + logs.subrange(e, e2),
            ..s.nodes[p]
        };
        BuildStateV {
            nodes: s.nodes.update(idx, closed).update(p, parent),
            stack: s.stack.drop_last(),
            roots: s.roots,
            pos: e2,
        }
    } else {
        BuildStateV {
            nodes: s.nodes.update(idx, closed),
            stack: s.stack.drop_last(),
            roots: s.roots.push(idx),
            pos: e,
        }
    }
}

/// Closes every open node whose depth is at least `depth`, innermost
/// first.
pub open spec fn pop_ge(s: BuildStateV, depth: Option<u32>, logs: Seq<Seq<char>>) -> BuildStateV
    decreases s.stack.len(),
{
    if s.stack.len() > 0 && depth_ge(s.nodes[s.stack.last()].stack_height, depth) {
        pop_ge(close_top(s, logs), depth, logs)
    } else {
        s
    }
}

/// Processes one instruction of the flattened sequence: closes what must
/// close, then opens a node for the instruction, which drains its opening
/// log segment.
pub open spec fn push_step(
    s: BuildStateV,
    instr: InstrV,
    accounts: Seq<Seq<u8>>,
    logs: Seq<Seq<char>>,
) -> BuildStateV {
    let s1 = pop_ge(s, instr.stack_height, logs);
    let e = drain_end(logs, s1.pos);
    let node = NodeV {
        logs: logs.subrange(s1.pos, e),
        ..new_node(instr, accounts, s1.pos)
    };
    BuildStateV {
        nodes: s1.nodes.push(node),
        stack: s1.stack.push(s1.nodes.len() as int),
        roots: s1.roots,
        pos: e,
    }
}

/// The builder's state before any instruction is processed.
pub open spec fn initial_state() -> BuildStateV {
    BuildStateV { nodes: seq![], stack: seq![], roots: seq![], pos: 0 }
}

/// The builder's state after the first `k` instructions of the flattened
/// sequence.
pub open spec fn state_after(
    instrs: Seq<InstrV>,
    k: int,
    accounts: Seq<Seq<u8>>,
    logs: Seq<Seq<char>>,
) -> BuildStateV
    decreases k,
{
    if k <= 0 {
        initial_state()
    } else {
        push_step(state_after(instrs, k - 1, accounts, logs), instrs[k - 1], accounts, logs)
    }
}

/// Closes all nodes still open once the instruction sequence is exhausted,
/// innermost first.
pub open spec fn close_all(s: BuildStateV, logs: Seq<Seq<char>>) -> BuildStateV
    decreases s.stack.len(),
{
    if s.stack.len() > 0 {
        close_all(close_top(s, logs), logs)
    } else {
        s
    }
}

/// The complete pass of the builder over one transaction: what the
/// executable builder computes, node for node and line for line.
pub open spec fn build_forest(
    instrs: Seq<InstrV>,
    accounts: Seq<Seq<u8>>,
    logs: Seq<Seq<char>>,
) -> BuildStateV {
    close_all(state_after(instrs, instrs.len() as int, accounts, logs), logs)
}

proof fn lemma_subrange_push(lv: Seq<Seq<char>>, start: int, c: int)
    requires
        0 <= start <= c < lv.len(),
    ensures
        lv.subrange(start, c + 1) == lv.subrange(start, c).push(lv[c]),
{
    assert(lv.subrange(start, c + 1) =~= lv.subrange(start, c).push(lv[c]));
}

/// Drains log lines from the cursor for a node that is being opened or
/// closed: one line at a time, stopping before a later invoke line, before
/// a success line when the first line drained was an invoke, and right
/// after a drained success line.
pub fn take_until_success_or_invoke_log(logs: &Vec<Log>, cursor: &mut usize) -> (taken: Vec<Log>)
    requires
        *old(cursor) <= logs@.len(),
        logs_wf(logs@),
    ensures
        *final(cursor) == drain_end(log_views(logs@), *old(cursor) as int),
        *old(cursor) <= *final(cursor) <= logs@.len(),
        log_views(taken@) == log_views(logs@).subrange(
            *old(cursor) as int,
            *final(cursor) as int,
        ),
        logs_wf(taken@),
{
    let ghost lv = log_views(logs@);
    let ghost start = *cursor as int;
    let mut taken: Vec<Log> = Vec::new();
    proof {
        assert(log_views(taken@) =~= lv.subrange(start, start));
    }
    let first_invoke = *cursor < logs.len() && logs[*cursor].is_invoke();
    let mut started = false;
    loop
        invariant_except_break
            logs_wf(logs@),
            lv == log_views(logs@),
            0 <= start <= *cursor as int <= logs@.len(),
            first_invoke == (start < lv.len() && is_invoke_line(lv[start])),
            drain_end(lv, start) == drain_end_from(lv, *cursor as int, first_invoke, started),
            log_views(taken@) == lv.subrange(start, *cursor as int),
            logs_wf(taken@),
        ensures
            *cursor as int == drain_end(lv, start),
            0 <= start <= *cursor as int <= logs@.len(),
            log_views(taken@) == lv.subrange(start, *cursor as int),
            logs_wf(taken@),
        decreases logs@.len() - *cursor,
    {
        if *cursor >= logs.len() {
            break;
        }
        let l = &logs[*cursor];
        let is_inv = l.is_invoke();
        let is_suc = l.is_success();
        if started && is_inv {
            break;
        }
        if first_invoke && is_suc {
            break;
        }
        let ghost taken0 = taken@;
        taken.push(l.duplicate());
        proof {
            assert(log_views(taken@) =~= log_views(taken0).push(lv[*cursor as int]));
            lemma_subrange_push(lv, start, *cursor as int);
        }
        *cursor += 1;
        if is_suc {
            break;
        }
        started = true;
    }
    taken
}

/// Drains the plain lines a parent emits between two of its children:
/// everything up to the next invoke or success line.
pub fn take_expect_invoke_or_success(logs: &Vec<Log>, cursor: &mut usize) -> (taken: Vec<Log>)
    requires
        *old(cursor) <= logs@.len(),
        logs_wf(logs@),
    ensures
        *final(cursor) == skip_plain_end(log_views(logs@), *old(cursor) as int),
        *old(cursor) <= *final(cursor) <= logs@.len(),
        log_views(taken@) == log_views(logs@).subrange(
            *old(cursor) as int,
            *final(cursor) as int,
        ),
        logs_wf(taken@),
{
    let ghost lv = log_views(logs@);
    let ghost start = *cursor as int;
    let mut taken: Vec<Log> = Vec::new();
    proof {
        assert(log_views(taken@) =~= lv.subrange(start, start));
    }
    loop
        invariant_except_break
            logs_wf(logs@),
            lv == log_views(logs@),
            0 <= start <= *cursor as int <= logs@.len(),
            skip_plain_end(lv, start) == skip_plain_end(lv, *cursor as int),
            log_views(taken@) == lv.subrange(start, *cursor as int),
            logs_wf(taken@),
        ensures
            *cursor as int == skip_plain_end(lv, start),
            0 <= start <= *cursor as int <= logs@.len(),
            log_views(taken@) == lv.subrange(start, *cursor as int),
            logs_wf(taken@),
        decreases logs@.len() - *cursor,
    {
        if *cursor >= logs.len() {
            break;
        }
        let l = &logs[*cursor];
        if l.is_invoke() || l.is_success() {
            break;
        }
        let ghost taken0 = taken@;
        taken.push(l.duplicate());
        proof {
            assert(log_views(taken@) =~= log_views(taken0).push(lv[*cursor as int]));
            lemma_subrange_push(lv, start, *cursor as int);
        }
        *cursor += 1;
    }
    taken
}

/// A node of the reconstructed instruction forest: the owning program and
/// the instruction's accounts, resolved; the raw payload; the log lines of
/// the node's own execution; the node's children in order and its parent,
/// as indices into the forest's node arena.
pub struct StructuredInstruction {
    pub program_id: Vec<u8>,
    pub accounts: Vec<Vec<u8>>,
    pub data: Vec<u8>,
    pub program_id_index: u32,
    pub stack_height: Option<u32>,
    pub logs: Vec<Log>,
    pub inner_instructions: Vec<usize>,
    pub parent_instruction: Option<usize>,
    pub log_open: Ghost<int>,
    pub log_close: Ghost<int>,
}

/// The views of a list of resolved account byte strings.
pub open spec fn account_views(s: Seq<Vec<u8>>) -> Seq<Seq<u8>> {
    Seq::new(s.len(), |k: int| s[k]@)
}

/// The views of a list of arena indices.
pub open spec fn usize_views(s: Seq<usize>) -> Seq<int> {
    Seq::new(s.len(), |k: int| s[k] as int)
}

impl View for StructuredInstruction {
    type V = NodeV;

    open spec fn view(&self) -> NodeV {
        NodeV {
            program_id: self.program_id@,
            accounts: account_views(self.accounts@),
            data: self.data@,
            program_id_index: self.program_id_index,
            stack_height: self.stack_height,
            logs: log_views(self.logs@),
            children: usize_views(self.inner_instructions@),
            parent: match self.parent_instruction {
                Some(p) => Some(p as int),
                None => None,
            },
            log_open: self.log_open@,
            log_close: self.log_close@,
        }
    }
}

/// The views of the nodes of a forest.
pub open spec fn node_views(s: Seq<StructuredInstruction>) -> Seq<NodeV> {
    Seq::new(s.len(), |k: int| s[k]@)
}

/// What a finished forest looks like to a specification.
#[verifier::ext_equal]
pub struct ForestV {
    pub nodes: Seq<NodeV>,
    pub roots: Seq<int>,
}

/// The forest of instruction nodes reconstructed for one transaction:
/// the arena of all nodes in creation order, and the indices of the
/// top-level roots in order.
pub struct StructuredInstructions {
    pub nodes: Vec<StructuredInstruction>,
    pub roots: Vec<usize>,
}

impl View for StructuredInstructions {
    type V = ForestV;

    open spec fn view(&self) -> ForestV {
        ForestV { nodes: node_views(self.nodes@), roots: usize_views(self.roots@) }
    }
}

/// Every log value stored in the forest is classified as its line demands.
pub open spec fn forest_logs_wf(f: StructuredInstructions) -> bool {
    forall|i: int| 0 <= i < f.nodes@.len() ==> logs_wf((#[trigger] f.nodes@[i]).logs@)
}

/// An error of the structuring pass itself.
#[derive(Clone, Copy, PartialEq, Eq, Structural, Debug)]
pub enum StructureError {
    /// An instruction names an account index outside the transaction's
    /// resolved account list.
    AccountIndexOutOfRange,
    /// The source data flagged the transaction as failed; its instructions
    /// are not structured.
    FailedTransaction,
}

/// Decides `depth_ge` on two recorded depths.
fn depth_ge_exec(a: Option<u32>, b: Option<u32>) -> (r: bool)
    ensures
        r == depth_ge(a, b),
{
    match (a, b) {
        (None, None) => true,
        (None, Some(_)) => false,
        (Some(_), None) => true,
        (Some(x), Some(y)) => x >= y,
    }
}

/// How the builder's working state stands for a model state: closed nodes
/// live in the arena, open nodes live on the stack with their arena index
/// reserved, and the model sees them all as one sequence.
pub open spec fn abs_rel(
    arena: Seq<Option<StructuredInstruction>>,
    stack: Seq<(usize, StructuredInstruction)>,
    roots: Seq<usize>,
    cursor: int,
    m: BuildStateV,
) -> bool {
    &&& m.nodes.len() == arena.len()
    &&& m.stack.len() == stack.len()
    &&& forall|k: int|
        0 <= k < stack.len() ==> {
            &&& #[trigger] m.stack[k] == stack[k].0 as int
            &&& stack[k].0 < arena.len()
            &&& arena[stack[k].0 as int] is None
            &&& stack[k].1@ == m.nodes[stack[k].0 as int]
            &&& logs_wf(stack[k].1.logs@)
        }
    &&& forall|k1: int, k2: int|
        0 <= k1 < k2 < stack.len() ==> (#[trigger] stack[k1]).0 != (#[trigger] stack[k2]).0
    &&& forall|j: int|
        0 <= j < arena.len() ==> ((#[trigger] arena[j]) matches Some(n) ==> (n@ == m.nodes[j]
            && logs_wf(n.logs@)))
    &&& forall|j: int|
        0 <= j < arena.len() ==> ((#[trigger] arena[j]) is None ==> exists|k: int|
            0 <= k < stack.len() && (#[trigger] stack[k]).0 as int == j)
    &&& m.roots == usize_views(roots)
    &&& m.pos == cursor
}

/// Builds the node for one instruction: accounts and program resolved
/// against the transaction's account list, no log lines drained yet.
fn make_node(
    instr: &WrappedInstruction,
    accounts: &Vec<Vec<u8>>,
    Ghost(pos): Ghost<int>,
) -> (n: StructuredInstruction)
    requires
        instr_in_range(instr@, account_views(accounts@)),
    ensures
        n@ == new_node(instr@, account_views(accounts@), pos),
{
    let ghost av = account_views(accounts@);
    let pid_idx = instr.program_id_index();
    let program_id = clone_bytes(&accounts[pid_idx as usize]);
    let idxs = instr.accounts();
    let mut accs: Vec<Vec<u8>> = Vec::new();
    let mut k: usize = 0;
    while k < idxs.len()
        invariant
            k <= idxs@.len(),
            idxs@ == instr@.accounts,
            av == account_views(accounts@),
            instr_in_range(instr@, av),
            account_views(accs@) =~= Seq::new(k as nat, |t: int| av[instr@.accounts[t] as int]),
        decreases idxs@.len() - k,
    {
        let ghost accs0 = accs@;
        proof {
            assert(account_views(accs0).len() == k as nat);
            assert(accs0.len() == k);
        }
        accs.push(clone_bytes(&accounts[idxs[k] as usize]));
        proof {
            assert(accs@.len() == accs0.len() + 1);
            assert(accs0.len() == k);
            let target = Seq::new((k + 1) as nat, |t: int| av[instr@.accounts[t] as int]);
            assert forall|t: int| 0 <= t < target.len() implies account_views(accs@)[t]
                == target[t] by {
                if t < k {
                    assert(accs@[t] == accs0[t]);
                    assert(account_views(accs0)[t] == av[instr@.accounts[t] as int]);
                }
            }
            assert(account_views(accs@) =~= target);
        }
        k += 1;
    }
    let data = clone_bytes(instr.data());
    let n = StructuredInstruction {
        program_id,
        accounts: accs,
        data,
        program_id_index: pid_idx,
        stack_height: instr.stack_height(),
        logs: Vec::new(),
        inner_instructions: Vec::new(),
        parent_instruction: None,
        log_open: Ghost(pos),
        log_close: Ghost(pos),
    };
    proof {
        assert(log_views(n.logs@) =~= Seq::<Seq<char>>::empty());
        assert(usize_views(n.inner_instructions@) =~= Seq::<int>::empty());
        assert(n@.accounts =~= new_node(instr@, av, pos).accounts);
        assert(n@ =~= new_node(instr@, av, pos));
    }
    n
}

/// Closes the node on top of the stack, as `close_top` describes: it
/// drains its closing log segment and is attached to the open node below
/// it, or recorded as a root.
fn close_top_exec(
    logs: &Vec<Log>,
    arena: &mut Vec<Option<StructuredInstruction>>,
    stack: &mut Vec<(usize, StructuredInstruction)>,
    roots: &mut Vec<usize>,
    cursor: &mut usize,
    Ghost(m): Ghost<BuildStateV>,
)
    requires
        logs_wf(logs@),
        abs_rel(old(arena)@, old(stack)@, old(roots)@, *old(cursor) as int, m),
        old(stack)@.len() > 0,
        *old(cursor) <= logs@.len(),
    ensures
        abs_rel(
            final(arena)@,
            final(stack)@,
            final(roots)@,
            *final(cursor) as int,
            close_top(m, log_views(logs@)),
        ),
        *final(cursor) <= logs@.len(),
        final(stack)@.len() == old(stack)@.len() - 1,
{
    let ghost lv = log_views(logs@);
    let ghost stack0 = stack@;
    let ghost arena0 = arena@;
    let (idx, mut node) = match stack.pop() {
        Some(x) => x,
        None => unreached(),
    };
    proof {
        assert(m.stack[stack0.len() - 1] == stack0[stack0.len() - 1].0 as int);
    }
    let ghost node0 = node;
    let ghost pos0 = *cursor as int;
    let mut seg = take_until_success_or_invoke_log(logs, cursor);
    let ghost seg0 = seg@;
    let ghost e = *cursor as int;
    node.logs.append(&mut seg);
    node.log_close = Ghost(e);
    proof {
        assert(log_views(node.logs@) =~= log_views(node0.logs@) + lv.subrange(pos0, e));
        assert forall|t: int| 0 <= t < node.logs@.len() implies (#[trigger] node.logs@[t]).wf() by {
            if t < node0.logs@.len() {
                assert(node.logs@[t] == node0.logs@[t]);
            } else {
                assert(node.logs@[t] == seg0[t - node0.logs@.len()]);
            }
        }
    }
    if stack.len() > 0 {
        node.parent_instruction = Some(stack[stack.len() - 1].0);
        let (pidx, mut parent) = match stack.pop() {
            Some(x) => x,
            None => unreached(),
        };
        let ghost parent0 = parent;
        parent.inner_instructions.push(idx);
        let mut seg2 = take_expect_invoke_or_success(logs, cursor);
        let ghost seg20 = seg2@;
        let ghost e2 = *cursor as int;
        parent.logs.append(&mut seg2);
        stack.push((pidx, parent));
        arena[idx] = Some(node);
        proof {
            let mc = close_top(m, lv);
            assert(idx == stack0[stack0.len() - 1].0);
            assert(pidx == stack0[stack0.len() - 2].0);
            assert(m.stack[stack0.len() - 2] == stack0[stack0.len() - 2].0 as int);
            assert(log_views(parent.logs@) =~= log_views(parent0.logs@) + lv.subrange(e, e2));
            assert forall|t: int| 0 <= t < parent.logs@.len() implies
                (#[trigger] parent.logs@[t]).wf() by {
                if t < parent0.logs@.len() {
                    assert(parent.logs@[t] == parent0.logs@[t]);
                } else {
                    assert(parent.logs@[t] == seg20[t - parent0.logs@.len()]);
                }
            }
            assert(usize_views(parent.inner_instructions@) =~= usize_views(
                parent0.inner_instructions@,
            ).push(idx as int));
            assert(node@ =~= mc.nodes[idx as int]);
            assert(parent@ =~= mc.nodes[pidx as int]);
            assert(stack@ =~= stack0.drop_last().update(stack0.len() - 2, (pidx, parent)));
            assert(arena@ == arena0.update(idx as int, Some(node)));
            assert forall|k: int| 0 <= k < stack@.len() implies {
                &&& mc.stack[k] == stack@[k].0 as int
                &&& stack@[k].0 < arena@.len()
                &&& arena@[stack@[k].0 as int] is None
                &&& stack@[k].1@ == mc.nodes[stack@[k].0 as int]
                &&& logs_wf(stack@[k].1.logs@)
            } by {
                assert(m.stack[k] == stack0[k].0 as int);
                assert(mc.stack[k] == m.stack[k]);
                if k < stack@.len() - 1 {
                    assert(stack@[k] == stack0[k]);
                    assert(stack0[k].0 != stack0[stack0.len() - 1].0);
                    assert(stack0[k].0 != stack0[stack0.len() - 2].0);
                } else {
                    assert(stack@[k] == (pidx, parent));
                }
            }
            assert forall|k1: int, k2: int| 0 <= k1 < k2 < stack@.len() implies
                (#[trigger] stack@[k1]).0 != (#[trigger] stack@[k2]).0 by {
                assert(stack@[k1].0 == stack0[k1].0);
                assert(stack@[k2].0 == stack0[k2].0);
                assert(stack0[k1].0 != stack0[k2].0);
            }
            assert forall|j: int| 0 <= j < arena@.len() implies ((#[trigger] arena@[j])
                matches Some(n) ==> (n@ == mc.nodes[j] && logs_wf(n.logs@))) by {
                if j != idx as int && arena@[j] is Some {
                    assert(arena@[j] == arena0[j]);
                    assert(j != pidx as int);
                }
            }
            assert forall|j: int| 0 <= j < arena@.len() && (#[trigger] arena@[j]) is None
                implies exists|k: int| 0 <= k < stack@.len() && (#[trigger] stack@[k]).0 as int
                == j by {
                assert(arena0[j] is None);
                let wk = choose|kk: int| 0 <= kk < stack0.len() && (#[trigger] stack0[kk]).0 as int
                    == j;
                assert(stack0[wk].0 != stack0[stack0.len() - 1].0 || wk == stack0.len() - 1);
                assert(wk < stack0.len() - 1);
                assert(stack@[wk].0 == stack0[wk].0);
                assert(stack@[wk].0 as int == j);
            }
            assert(abs_rel(arena@, stack@, roots@, *cursor as int, mc));
        }
    } else {
        node.parent_instruction = None;
        roots.push(idx);
        arena[idx] = Some(node);
        proof {
            let mc = close_top(m, lv);
            assert(idx == stack0[stack0.len() - 1].0);
            assert(stack0.len() == 1);
            assert(node@ =~= mc.nodes[idx as int]);
            assert(arena@ == arena0.update(idx as int, Some(node)));
            assert(usize_views(roots@) =~= usize_views(old(roots)@).push(idx as int));
            assert(mc.roots == usize_views(roots@));
            assert forall|j: int| 0 <= j < arena@.len() implies ((#[trigger] arena@[j])
                matches Some(n) ==> (n@ == mc.nodes[j] && logs_wf(n.logs@))) by {
                if j != idx as int && arena@[j] is Some {
                    assert(arena@[j] == arena0[j]);
                }
            }
            assert forall|j: int| 0 <= j < arena@.len() implies !((#[trigger] arena@[j])
                is None) by {
                if arena@[j] is None {
                    assert(arena0[j] is None);
                    let wk = choose|kk: int| 0 <= kk < stack0.len() && (#[trigger] stack0[kk]).0 as int == j;
                    assert(wk == 0);
                    assert(j == idx as int);
                }
            }
            assert(abs_rel(arena@, stack@, roots@, *cursor as int, mc));
        }
    }
}

/// The arena discipline a finished forest satisfies: every child has a
/// larger arena index than its parent, and every parent reference points
/// backwards.  The builder always produces ordered forests, and
/// traversals lean on the ordering to terminate.
pub open spec fn forest_ordered(nodes: Seq<NodeV>) -> bool {
    &&& forall|j: int, ci: int|
        0 <= j < nodes.len() && 0 <= ci < nodes[j].children.len() ==> j < (
        #[trigger] nodes[j].children[ci]) < nodes.len()
    &&& forall|j: int|
        0 <= j < nodes.len() ==> ((#[trigger] nodes[j].parent) matches Some(p) ==> 0 <= p < j)
}

/// The pre-order traversal of the subtree rooted at `i`: the node, then
/// each child's subtree in child order.
pub open spec fn preorder_node(nodes: Seq<NodeV>, i: int) -> Seq<int>
    decreases nodes.len() - i, 1int, 0int,
        when 0 <= i < nodes.len() && forest_ordered(nodes)
{
    seq![i] + preorder_kids(nodes, nodes[i].children, i)
}

/// The pre-order traversal of a list of children of the node at `parent`.
pub open spec fn preorder_kids(nodes: Seq<NodeV>, kids: Seq<int>, parent: int) -> Seq<int>
    decreases nodes.len() - parent, 0int, kids.len(),
        when 0 <= parent && forest_ordered(nodes) && (forall|t: int|
            0 <= t < kids.len() ==> parent < #[trigger] kids[t] < nodes.len())
{
    if kids.len() == 0 {
        seq![]
    } else {
        preorder_node(nodes, kids.first()) + preorder_kids(nodes, kids.drop_first(), parent)
    }
}

/// The pre-order traversal of the whole forest, root by root: the
/// execution order of the transaction's instructions.
pub open spec fn preorder_forest(nodes: Seq<NodeV>, roots: Seq<int>) -> Seq<int>
    decreases roots.len(),
{
    if roots.len() == 0 {
        seq![]
    } else {
        preorder_node(nodes, roots.first()) + preorder_forest(nodes, roots.drop_first())
    }
}

/// The topmost ancestor of node `i`: `i` itself for a root.
pub open spec fn spec_top_of(nodes: Seq<NodeV>, i: int) -> int
    decreases i,
        when 0 <= i < nodes.len() && forest_ordered(nodes)
{
    match nodes[i].parent {
        None => i,
        Some(p) => spec_top_of(nodes, p),
    }
}

impl StructuredInstruction {
    /// The owning program's resolved account bytes.
    pub fn program_id(&self) -> (r: &Vec<u8>)
        ensures
            r@ == self@.program_id,
    {
        &self.program_id
    }

    /// The index of the owning program in the transaction's account list.
    pub fn program_id_index(&self) -> (r: u32)
        ensures
            r == self@.program_id_index,
    {
        self.program_id_index
    }

    /// The instruction's resolved accounts, in order, repeats kept.
    pub fn accounts(&self) -> (r: &Vec<Vec<u8>>)
        ensures
            account_views(r@) == self@.accounts,
    {
        &self.accounts
    }

    /// The raw instruction payload.
    pub fn data(&self) -> (r: &Vec<u8>)
        ensures
            r@ == self@.data,
    {
        &self.data
    }

    /// The node's recorded invocation depth.
    pub fn stack_height(&self) -> (r: Option<u32>)
        ensures
            r == self@.stack_height,
    {
        self.stack_height
    }

    /// The log lines of the node's own execution, children's lines
    /// excluded.
    pub fn logs(&self) -> (r: &Vec<Log>)
        ensures
            log_views(r@) == self@.logs,
    {
        &self.logs
    }

    /// The node's children, in order, as arena indices.
    pub fn inner_instructions(&self) -> (r: &Vec<usize>)
        ensures
            usize_views(r@) == self@.children,
    {
        &self.inner_instructions
    }

    /// The node's parent, as an arena index; none for a root.
    pub fn parent_instruction(&self) -> (r: Option<usize>)
        ensures
            r is Some <==> self@.parent is Some,
            r matches Some(p) ==> self@.parent == Some(p as int),
    {
        self.parent_instruction
    }
}

impl StructuredInstructions {
    /// The forest satisfies the arena discipline, and its roots are arena
    /// indices.
    pub open spec fn wf(self) -> bool {
        &&& forest_ordered(self@.nodes)
        &&& forall|r: int| 0 <= r < self@.roots.len() ==> 0 <= #[trigger] self@.roots[r] < self@.nodes.len()
    }

    /// Appends the pre-order traversal of the subtree rooted at `i`.
    fn collect_preorder(&self, i: usize, out: &mut Vec<usize>)
        requires
            self.wf(),
            i < self.nodes@.len(),
        ensures
            usize_views(final(out)@) == usize_views(old(out)@) + preorder_node(
                self@.nodes,
                i as int,
            ),
        decreases self.nodes@.len() - i, 1int, 0int,
    {
        let ghost nv = self@.nodes;
        out.push(i);
        proof {
            assert(usize_views(out@) =~= usize_views(old(out)@) + seq![i as int]);
        }
        let node = &self.nodes[i];
        let ghost kids = nv[i as int].children;
        proof {
            assert(kids.skip(0) =~= kids);
            assert(usize_views(out@) + preorder_kids(nv, kids, i as int) =~= usize_views(
                old(out)@,
            ) + preorder_node(nv, i as int));
        }
        let mut ci: usize = 0;
        while ci < node.inner_instructions.len()
            invariant
                self.wf(),
                i < self.nodes@.len(),
                nv == self@.nodes,
                node == &self.nodes[i as int],
                kids == nv[i as int].children,
                ci <= node.inner_instructions@.len(),
                kids.len() == node.inner_instructions@.len(),
                usize_views(out@) + preorder_kids(nv, kids.skip(ci as int), i as int)
                    == usize_views(old(out)@) + preorder_node(nv, i as int),
            decreases self.nodes@.len() - i, 0int, node.inner_instructions@.len() - ci,
        {
            let c = node.inner_instructions[ci];
            proof {
                assert(kids[ci as int] == c as int);
                assert(i < c as int && (c as int) < nv.len());
                assert(kids.skip(ci as int).first() == c as int);
                assert(kids.skip(ci as int).drop_first() =~= kids.skip(ci as int + 1));
                assert forall|t: int|
                    0 <= t < kids.skip(ci as int).len() implies i < #[trigger] kids.skip(
                    ci as int,
                )[t] < nv.len() by {
                    assert(kids.skip(ci as int)[t] == kids[ci + t]);
                }
            }
            let ghost prev = out@;
            self.collect_preorder(c, out);
            proof {
                assert(usize_views(out@) =~= usize_views(prev) + preorder_node(nv, c as int));
                assert(usize_views(out@) + preorder_kids(nv, kids.skip(ci as int + 1), i as int)
                    =~= usize_views(prev) + preorder_kids(nv, kids.skip(ci as int), i as int));
            }
            ci += 1;
        }
        proof {
            assert(kids.skip(kids.len() as int) =~= Seq::<int>::empty());
            assert(usize_views(out@) =~= usize_views(out@) + Seq::<int>::empty());
        }
    }

    /// Linearizes the forest into execution order: the pre-order
    /// traversal, each node before its children, for decoders that scan
    /// all instructions without manual recursion.  The result holds arena
    /// indices into `nodes`.
    pub fn flattened(&self) -> (r: Vec<usize>)
        requires
            self.wf(),
        ensures
            usize_views(r@) == preorder_forest(self@.nodes, self@.roots),
    {
        let ghost nv = self@.nodes;
        let ghost rv = self@.roots;
        let mut out: Vec<usize> = Vec::new();
        proof {
            assert(usize_views(out@) =~= Seq::<int>::empty());
            assert(rv.skip(0) =~= rv);
            assert(usize_views(out@) + preorder_forest(nv, rv) =~= preorder_forest(nv, rv));
        }
        let mut t: usize = 0;
        while t < self.roots.len()
            invariant
                self.wf(),
                nv == self@.nodes,
                rv == self@.roots,
                t <= self.roots@.len(),
                rv.len() == self.roots@.len(),
                usize_views(out@) + preorder_forest(nv, rv.skip(t as int)) == preorder_forest(
                    nv,
                    rv,
                ),
            decreases self.roots@.len() - t,
        {
            let root = self.roots[t];
            proof {
                assert(rv[t as int] == root as int);
                assert(rv.skip(t as int).first() == root as int);
                assert(rv.skip(t as int).drop_first() =~= rv.skip(t as int + 1));
            }
            let ghost prev = out@;
            self.collect_preorder(root, &mut out);
            proof {
                assert(usize_views(out@) =~= usize_views(prev) + preorder_node(nv, root as int));
                assert(usize_views(out@) + preorder_forest(nv, rv.skip(t as int + 1))
                    =~= usize_views(prev) + preorder_forest(nv, rv.skip(t as int)));
            }
            t += 1;
        }
        proof {
            assert(rv.skip(rv.len() as int) =~= Seq::<int>::empty());
            assert(usize_views(out@) =~= usize_views(out@) + Seq::<int>::empty());
        }
        out
    }

    /// The topmost ancestor of the node at `i`, walking parent references;
    /// none for a root, as the source data's navigation has it.
    pub fn top_instruction(&self, i: usize) -> (r: Option<usize>)
        requires
            self.wf(),
            i < self.nodes@.len(),
        ensures
            self@.nodes[i as int].parent is None ==> r is None,
            self@.nodes[i as int].parent is Some ==> r == Some(
                spec_top_of(self@.nodes, i as int) as usize,
            ),
    {
        match self.nodes[i].parent_instruction {
            None => None,
            Some(first) => {
                let mut cur = first;
                proof {
                    assert(spec_top_of(self@.nodes, i as int) == spec_top_of(
                        self@.nodes,
                        first as int,
                    ));
                }
                loop
                    invariant_except_break
                        self.wf(),
                        cur < self.nodes@.len(),
                        spec_top_of(self@.nodes, cur as int) == spec_top_of(self@.nodes, i as int),
                    ensures
                        cur as int == spec_top_of(self@.nodes, i as int),
                    decreases cur,
                {
                    match self.nodes[cur].parent_instruction {
                        None => {
                            break ;
                        },
                        Some(p) => {
                            cur = p;
                        },
                    }
                }
                Some(cur)
            },
        }
    }
}

/// Consumes the flattened instruction sequence and the classified log
/// lines and reconstructs the transaction's forest of instruction nodes,
/// with every node's own log slice attributed as `build_forest` describes.
///
/// Fails exactly when some instruction names an account index outside the
/// transaction's resolved account list; the log cursor running dry is not
/// an error.
pub fn structure_flattened_instructions_with_logs(
    flattened: Vec<WrappedInstruction>,
    logs: &Vec<Log>,
    accounts: &Vec<Vec<u8>>,
) -> (r: Result<StructuredInstructions, StructureError>)
    requires
        logs_wf(logs@),
    ensures
        r is Ok <==> (forall|k: int|
            0 <= k < flattened@.len() ==> instr_in_range(
                #[trigger] instr_views(flattened@)[k],
                account_views(accounts@),
            )),
        r matches Ok(f) ==> {
            let st = build_forest(
                instr_views(flattened@),
                account_views(accounts@),
                log_views(logs@),
            );
            &&& f@.nodes == st.nodes
            &&& f@.roots == st.roots
            &&& forest_logs_wf(f)
        },
        r matches Err(e) ==> e == StructureError::AccountIndexOutOfRange,
{
    let ghost iv = instr_views(flattened@);
    let ghost av = account_views(accounts@);
    let ghost lv = log_views(logs@);

    let mut c: usize = 0;
    while c < flattened.len()
        invariant
            c <= flattened@.len(),
            iv == instr_views(flattened@),
            av == account_views(accounts@),
            forall|k: int| 0 <= k < c ==> instr_in_range(#[trigger] iv[k], av),
        decreases flattened@.len() - c,
    {
        let instr = &flattened[c];
        assert(instr@ == iv[c as int]);
        if instr.program_id_index() as usize >= accounts.len() {
            assert(!instr_in_range(iv[c as int], av));
            return Err(StructureError::AccountIndexOutOfRange);
        }
        let idxs = instr.accounts();
        let mut t: usize = 0;
        while t < idxs.len()
            invariant
                t <= idxs@.len(),
                0 <= c < flattened@.len(),
                iv == instr_views(flattened@),
                av == account_views(accounts@),
                accounts@.len() == av.len(),
                idxs@ == iv[c as int].accounts,
                forall|u: int| 0 <= u < t ==> (#[trigger] iv[c as int].accounts[u]) < av.len(),
            decreases idxs@.len() - t,
        {
            if idxs[t] as usize >= accounts.len() {
                assert(iv[c as int].accounts[t as int] >= av.len());
                assert(!instr_in_range(iv[c as int], av));
                return Err(StructureError::AccountIndexOutOfRange);
            }
            t += 1;
        }
        assert(iv[c as int].program_id_index < av.len());
        assert(instr_in_range(iv[c as int], av));
        c += 1;
    }

    let mut arena: Vec<Option<StructuredInstruction>> = Vec::new();
    let mut stack: Vec<(usize, StructuredInstruction)> = Vec::new();
    let mut roots: Vec<usize> = Vec::new();
    let mut cursor: usize = 0;
    proof {
        assert(usize_views(roots@) =~= Seq::<int>::empty());
        assert(abs_rel(arena@, stack@, roots@, 0, initial_state()));
    }
    let mut i: usize = 0;
    while i < flattened.len()
        invariant
            logs_wf(logs@),
            iv == instr_views(flattened@),
            av == account_views(accounts@),
            lv == log_views(logs@),
            i <= flattened@.len(),
            cursor <= logs@.len(),
            forall|k: int| 0 <= k < flattened@.len() ==> instr_in_range(#[trigger] iv[k], av),
            abs_rel(arena@, stack@, roots@, cursor as int, state_after(iv, i as int, av, lv)),
        decreases flattened@.len() - i,
    {
        let ghost m0 = state_after(iv, i as int, av, lv);
        let instr = &flattened[i];
        assert(instr@ == iv[i as int]);
        let depth = instr.stack_height();
        let ghost mut mc = m0;

        while stack.len() > 0 && depth_ge_exec(stack[stack.len() - 1].1.stack_height, depth)
            invariant
                logs_wf(logs@),
                lv == log_views(logs@),
                cursor <= logs@.len(),
                depth == iv[i as int].stack_height,
                abs_rel(arena@, stack@, roots@, cursor as int, mc),
                pop_ge(mc, depth, lv) == pop_ge(m0, depth, lv),
            decreases stack@.len(),
        {
            let ghost stack_pre = stack@;
            let ghost mc_pre = mc;
            proof {
                assert(mc.stack[stack_pre.len() - 1] == stack_pre[stack_pre.len() - 1].0 as int);
                assert(stack_pre[stack_pre.len() - 1].1@ == mc.nodes[stack_pre[stack_pre.len()
                    - 1].0 as int]);
            }
            close_top_exec(logs, &mut arena, &mut stack, &mut roots, &mut cursor, Ghost(mc));
            proof {
                mc = close_top(mc_pre, lv);
                assert(pop_ge(mc_pre, depth, lv) == pop_ge(mc, depth, lv));
            }
        }
        proof {
            if mc.stack.len() > 0 {
                assert(mc.stack[stack@.len() - 1] == stack@[stack@.len() - 1].0 as int);
                assert(stack@[stack@.len() - 1].1@ == mc.nodes[stack@[stack@.len() - 1].0 as int]);
            }
            assert(pop_ge(mc, depth, lv) == mc);
            assert(mc == pop_ge(m0, iv[i as int].stack_height, lv));
        }
        let mut node = make_node(instr, accounts, Ghost(cursor as int));
        let ghost pos1 = cursor as int;
        let idx = arena.len();
        let mut seg = take_until_success_or_invoke_log(logs, &mut cursor);
        let ghost seg0 = seg@;
        node.logs.append(&mut seg);
        let ghost stack_mid = stack@;
        let ghost arena_mid = arena@;
        arena.push(None);
        stack.push((idx, node));
        proof {
            let target = push_step(m0, iv[i as int], av, lv);
            let nodev = NodeV { logs: lv.subrange(pos1, cursor as int), ..new_node(
                iv[i as int],
                av,
                pos1,
            ) };
            assert(log_views(stack@[stack@.len() - 1].1.logs@) =~= lv.subrange(
                pos1,
                cursor as int,
            ));
            assert(stack@[stack@.len() - 1].1@ =~= nodev);
            assert(target.nodes == mc.nodes.push(nodev));
            assert(target.stack == mc.stack.push(mc.nodes.len() as int));
            assert(arena@ == arena_mid.push(None));
            assert(stack@ == stack_mid.push((idx, stack@[stack@.len() - 1].1)));
            assert forall|t: int| 0 <= t < stack@.len() - 1 implies stack@[t] == stack_mid[t] by {}
            assert forall|k: int| 0 <= k < stack@.len() implies {
                &&& target.stack[k] == stack@[k].0 as int
                &&& stack@[k].0 < arena@.len()
                &&& arena@[stack@[k].0 as int] is None
                &&& stack@[k].1@ == target.nodes[stack@[k].0 as int]
                &&& logs_wf(stack@[k].1.logs@)
            } by {
                if k < stack@.len() - 1 {
                    assert(stack@[k] == stack_mid[k]);
                    assert(mc.stack[k] == stack_mid[k].0 as int);
                    assert(target.stack[k] == mc.stack[k]);
                    assert(arena@[stack@[k].0 as int] == arena_mid[stack@[k].0 as int]);
                } else {
                    assert(stack@[k].0 == idx);
                }
            }
            assert forall|k1: int, k2: int| 0 <= k1 < k2 < stack@.len() implies
                (#[trigger] stack@[k1]).0 != (#[trigger] stack@[k2]).0 by {
                if k2 < stack@.len() - 1 {
                    assert(stack@[k1] == stack_mid[k1]);
                    assert(stack@[k2] == stack_mid[k2]);
                } else {
                    assert(stack@[k1] == stack_mid[k1]);
                    assert(mc.stack[k1] == stack_mid[k1].0 as int);
                    assert(stack_mid[k1].0 < arena_mid.len());
                }
            }
            assert forall|j: int| 0 <= j < arena@.len() implies ((#[trigger] arena@[j])
                matches Some(n) ==> (n@ == target.nodes[j] && logs_wf(n.logs@))) by {
                if j < arena_mid.len() {
                    assert(arena@[j] == arena_mid[j]);
                }
            }
            assert forall|j: int| 0 <= j < arena@.len() && (#[trigger] arena@[j]) is None
                implies exists|k: int| 0 <= k < stack@.len() && (#[trigger] stack@[k]).0 as int
                == j by {
                if j < arena_mid.len() {
                    assert(arena_mid[j] is None);
                    let wk = choose|kk: int|
                        0 <= kk < stack_mid.len() && (#[trigger] stack_mid[kk]).0 as int == j;
                    assert(stack@[wk].0 as int == j);
                } else {
                    assert(j == idx as int);
                    assert(stack@[stack@.len() - 1].0 as int == j);
                }
            }
            assert(abs_rel(arena@, stack@, roots@, cursor as int, target));
            assert(target == state_after(iv, i as int + 1, av, lv));
        }
        i += 1;
    }

    let ghost m_all = state_after(iv, flattened@.len() as int, av, lv);
    let ghost mut mc = m_all;
    while stack.len() > 0
        invariant
            logs_wf(logs@),
            lv == log_views(logs@),
            cursor <= logs@.len(),
            abs_rel(arena@, stack@, roots@, cursor as int, mc),
            close_all(mc, lv) == close_all(m_all, lv),
        decreases stack@.len(),
    {
        let ghost mc_pre = mc;
        close_top_exec(logs, &mut arena, &mut stack, &mut roots, &mut cursor, Ghost(mc));
        proof {
            mc = close_top(mc_pre, lv);
            assert(close_all(mc_pre, lv) == close_all(mc, lv));
        }
    }
    let ghost st = build_forest(iv, av, lv);
    proof {
        assert(close_all(mc, lv) == mc);
        assert(mc == st);
    }

    let mut nodes: Vec<StructuredInstruction> = Vec::new();
    while arena.len() > 0
        invariant
            node_views(nodes@) == st.nodes.subrange(0, nodes@.len() as int),
            nodes@.len() + arena@.len() == st.nodes.len(),
            forall|i2: int| 0 <= i2 < nodes@.len() ==> logs_wf((#[trigger] nodes@[i2]).logs@),
            forall|j: int|
                0 <= j < arena@.len() ==> ((#[trigger] arena@[j]) matches Some(n) && n@
                    == st.nodes[nodes@.len() + j] && logs_wf(n.logs@)),
        decreases arena@.len(),
    {
        let ghost nodes0 = nodes@;
        let first = arena.remove(0);
        match first {
            Some(n) => {
                nodes.push(n);
                proof {
                    assert(node_views(nodes@) =~= node_views(nodes0).push(
                        st.nodes[nodes0.len() as int],
                    ));
                    assert(node_views(nodes@) =~= st.nodes.subrange(0, nodes@.len() as int));
                }
            },
            None => {
                proof {
                    assert(false);
                }
            },
        }
    }
    let f = StructuredInstructions { nodes, roots };
    proof {
        assert(f@.nodes =~= st.nodes);
        assert(f@.roots == st.roots);
    }
    Ok(f)
}

} // verus!
