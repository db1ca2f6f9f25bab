//! The laws of the instruction tree builder: what the reconstructed
//! forest preserves of its inputs, proved once over the builder's
//! specification-level interpreter and thereby of every run of the
//! executable builder, whose result equals that interpreter's.

use vstd::prelude::*;
use vstd::multiset::Multiset;

use crate::builder::BuildStateV;
use crate::builder::NodeV;
use crate::builder::build_forest;
use crate::builder::close_all;
use crate::builder::close_top;
use crate::builder::depth_ge;
use crate::builder::initial_state;
use crate::builder::new_node;
use crate::builder::pop_ge;
use crate::builder::push_step;
use crate::builder::state_after;
use crate::instruction::InstrV;

verus! {

/// Two nodes carry the same instruction content: the fields a node takes
/// from its instruction, leaving aside logs, children, parent and the log
/// cursor marks.
pub open spec fn content_eq(a: NodeV, b: NodeV) -> bool {
    &&& a.program_id == b.program_id
    &&& a.accounts == b.accounts
    &&& a.data == b.data
    &&& a.program_id_index == b.program_id_index
    &&& a.stack_height == b.stack_height
}

/// The node carries exactly the resolved content of `instr`.
pub open spec fn node_matches_instr(n: NodeV, instr: InstrV, accounts: Seq<Seq<u8>>) -> bool {
    content_eq(n, new_node(instr, accounts, 0))
}

/// Source data whose recorded depths are consistent: a top-level
/// instruction sits at depth one, an inner one at a recorded depth of at
/// least two, and the sequence opens with a top-level instruction.
pub open spec fn wf_instrs(instrs: Seq<InstrV>) -> bool {
    &&& forall|j: int|
        0 <= j < instrs.len() ==> ((#[trigger] instrs[j]).compiled ==> instrs[j].stack_height
            == Some(1u32))
    &&& forall|j: int|
        0 <= j < instrs.len() ==> (!(#[trigger] instrs[j]).compiled ==> (
        instrs[j].stack_height matches Some(d) && d >= 2))
    &&& instrs.len() > 0 ==> instrs[0].compiled
}

/// The positions of the top-level instructions, in order.
pub open spec fn compiled_positions(instrs: Seq<InstrV>) -> Seq<int>
    decreases instrs.len(),
{
    if instrs.len() == 0 {
        seq![]
    } else if instrs.last().compiled {
        compiled_positions(instrs.drop_last()).push(instrs.len() - 1)
    } else {
        compiled_positions(instrs.drop_last())
    }
}

pub proof fn lemma_compiled_positions_bounds(instrs: Seq<InstrV>)
    ensures
        forall|r: int|
            0 <= r < compiled_positions(instrs).len() ==> {
                &&& 0 <= #[trigger] compiled_positions(instrs)[r] < instrs.len()
                &&& instrs[compiled_positions(instrs)[r]].compiled
            },
    decreases instrs.len(),
{
    if instrs.len() > 0 {
        lemma_compiled_positions_bounds(instrs.drop_last());
        assert forall|r: int| 0 <= r < compiled_positions(instrs).len() implies {
            &&& 0 <= #[trigger] compiled_positions(instrs)[r] < instrs.len()
            &&& instrs[compiled_positions(instrs)[r]].compiled
        } by {
            let cp0 = compiled_positions(instrs.drop_last());
            if r < cp0.len() {
                assert(instrs.drop_last()[cp0[r]] == instrs[cp0[r]]);
            }
        }
    }
}

/// What holds of the builder's state after `k` instructions, toward the
/// law that the roots reproduce the top-level instruction order: the
/// completed roots carry, in order, the content of the top-level
/// instructions seen so far, but for the one still open at the bottom of
/// the stack; every open node above the bottom is an inner one.
pub open spec fn p1_inv(s: BuildStateV, instrs: Seq<InstrV>, k: int, accounts: Seq<Seq<u8>>) -> bool {
    let cp = compiled_positions(instrs.take(k));
    &&& forall|t: int| 0 <= t < s.stack.len() ==> 0 <= #[trigger] s.stack[t] < s.nodes.len()
    &&& s.roots.len() + (if s.stack.len() > 0 {
        1int
    } else {
        0int
    }) == cp.len()
    &&& forall|r: int| 0 <= r < s.roots.len() ==> 0 <= #[trigger] s.roots[r] < s.nodes.len()
    &&& forall|r: int|
        0 <= r < s.roots.len() ==> node_matches_instr(
            s.nodes[#[trigger] s.roots[r]],
            instrs[cp[r]],
            accounts,
        )
    &&& s.stack.len() > 0 ==> node_matches_instr(s.nodes[s.stack[0]], instrs[cp.last()], accounts)
    &&& s.stack.len() > 0 ==> s.nodes[s.stack[0]].stack_height == Some(1u32)
    &&& forall|t: int|
        1 <= t < s.stack.len() ==> ((#[trigger] s.nodes[s.stack[t]].stack_height) matches Some(d)
            && d >= 2)
}

/// Closing the top node keeps every node's content, shortens the stack by
/// one, and appends the bottom to the roots exactly when it was the last
/// node open.
pub proof fn lemma_close_top_shape(s: BuildStateV, logs: Seq<Seq<char>>)
    requires
        s.stack.len() > 0,
        forall|t: int| 0 <= t < s.stack.len() ==> 0 <= #[trigger] s.stack[t] < s.nodes.len(),
    ensures
        ({
            let r = close_top(s, logs);
            &&& r.nodes.len() == s.nodes.len()
            &&& r.stack == s.stack.drop_last()
            &&& (s.stack.len() > 1 ==> r.roots == s.roots)
            &&& (s.stack.len() == 1 ==> r.roots == s.roots.push(s.stack[0]))
            &&& forall|i: int|
                0 <= i < s.nodes.len() ==> content_eq(#[trigger] r.nodes[i], s.nodes[i])
        }),
{
}

/// Closing nodes for a new top-level instruction empties the stack and
/// promotes the bottom node to a root.
pub proof fn lemma_pop_ge_compiled(
    s: BuildStateV,
    logs: Seq<Seq<char>>,
    instrs: Seq<InstrV>,
    k: int,
    accounts: Seq<Seq<u8>>,
)
    requires
        p1_inv(s, instrs, k, accounts),
    ensures
        ({
            let r = pop_ge(s, Some(1u32), logs);
            &&& r.stack.len() == 0
            &&& r.nodes.len() == s.nodes.len()
            &&& forall|i: int|
                0 <= i < s.nodes.len() ==> content_eq(#[trigger] r.nodes[i], s.nodes[i])
            &&& r.roots == (if s.stack.len() > 0 {
                s.roots.push(s.stack[0])
            } else {
                s.roots
            })
        }),
    decreases s.stack.len(),
{
    if s.stack.len() > 0 {
        let top = s.stack[s.stack.len() - 1];
        if s.stack.len() == 1 {
            assert(s.nodes[top].stack_height == Some(1u32));
        } else {
            assert(s.nodes[s.stack[s.stack.len() - 1]].stack_height matches Some(d) && d >= 2);
        }
        assert(depth_ge(s.nodes[top].stack_height, Some(1u32)));
        lemma_close_top_shape(s, logs);
        let s1 = close_top(s, logs);
        assert forall|t: int| 0 <= t < s1.stack.len() implies 0 <= #[trigger] s1.stack[t]
            < s1.nodes.len() by {
            assert(s1.stack[t] == s.stack[t]);
        }
        if s.stack.len() == 1 {
            assert(p1_inv(s1, instrs, k, accounts)) by {
                let cp = compiled_positions(instrs.take(k));
                assert forall|r: int| 0 <= r < s1.roots.len() implies node_matches_instr(
                    s1.nodes[#[trigger] s1.roots[r]],
                    instrs[cp[r]],
                    accounts,
                ) && 0 <= s1.roots[r] < s1.nodes.len() by {
                    if r < s.roots.len() {
                        assert(s1.roots[r] == s.roots[r]);
                        assert(content_eq(s1.nodes[s.roots[r]], s.nodes[s.roots[r]]));
                    } else {
                        assert(s1.roots[r] == s.stack[0]);
                    }
                }
                assert(s1.stack.len() == 0);
            }
            lemma_pop_ge_compiled(s1, logs, instrs, k, accounts);
        } else {
            assert(p1_inv(s1, instrs, k, accounts)) by {
                let cp = compiled_positions(instrs.take(k));
                assert(s1.stack[0] == s.stack[0]);
                assert(content_eq(s1.nodes[s.stack[0]], s.nodes[s.stack[0]]));
                assert forall|r: int| 0 <= r < s1.roots.len() implies node_matches_instr(
                    s1.nodes[#[trigger] s1.roots[r]],
                    instrs[cp[r]],
                    accounts,
                ) by {
                    assert(s1.roots[r] == s.roots[r]);
                    assert(content_eq(s1.nodes[s.roots[r]], s.nodes[s.roots[r]]));
                }
                assert forall|t: int| 1 <= t < s1.stack.len() implies ((
                #[trigger] s1.nodes[s1.stack[t]].stack_height) matches Some(d) && d >= 2) by {
                    assert(s1.stack[t] == s.stack[t]);
                    assert(content_eq(s1.nodes[s.stack[t]], s.nodes[s.stack[t]]));
                    assert(s.nodes[s.stack[t]].stack_height matches Some(d) && d >= 2);
                }
            }
            lemma_pop_ge_compiled(s1, logs, instrs, k, accounts);
            assert(pop_ge(s1, Some(1u32), logs).roots == s1.roots.push(s1.stack[0]));
            assert(s1.roots == s.roots && s1.stack[0] == s.stack[0]);
        }
    }
}

/// Closing nodes for a new inner instruction never closes the bottom
/// node: the stack shrinks to a nonempty prefix and no root is added.
pub proof fn lemma_pop_ge_inner(
    s: BuildStateV,
    logs: Seq<Seq<char>>,
    d: u32,
    instrs: Seq<InstrV>,
    k: int,
    accounts: Seq<Seq<u8>>,
)
    requires
        p1_inv(s, instrs, k, accounts),
        s.stack.len() > 0,
        d >= 2,
    ensures
        ({
            let r = pop_ge(s, Some(d), logs);
            &&& 1 <= r.stack.len() <= s.stack.len()
            &&& r.stack == s.stack.take(r.stack.len() as int)
            &&& r.nodes.len() == s.nodes.len()
            &&& forall|i: int|
                0 <= i < s.nodes.len() ==> content_eq(#[trigger] r.nodes[i], s.nodes[i])
            &&& r.roots == s.roots
        }),
    decreases s.stack.len(),
{
    let top = s.stack[s.stack.len() - 1];
    if s.stack.len() == 1 {
        assert(s.nodes[top].stack_height == Some(1u32));
        assert(!depth_ge(s.nodes[top].stack_height, Some(d)));
        assert(pop_ge(s, Some(d), logs) == s);
        assert(s.stack.take(s.stack.len() as int) =~= s.stack);
    } else {
        if depth_ge(s.nodes[top].stack_height, Some(d)) {
            lemma_close_top_shape(s, logs);
            let s1 = close_top(s, logs);
            assert forall|t: int| 0 <= t < s1.stack.len() implies 0 <= #[trigger] s1.stack[t]
                < s1.nodes.len() by {
                assert(s1.stack[t] == s.stack[t]);
            }
            assert(p1_inv(s1, instrs, k, accounts)) by {
                let cp = compiled_positions(instrs.take(k));
                assert(s1.stack[0] == s.stack[0]);
                assert(content_eq(s1.nodes[s.stack[0]], s.nodes[s.stack[0]]));
                assert forall|r: int| 0 <= r < s1.roots.len() implies node_matches_instr(
                    s1.nodes[#[trigger] s1.roots[r]],
                    instrs[cp[r]],
                    accounts,
                ) by {
                    assert(s1.roots[r] == s.roots[r]);
                    assert(content_eq(s1.nodes[s.roots[r]], s.nodes[s.roots[r]]));
                }
                assert forall|t: int| 1 <= t < s1.stack.len() implies ((
                #[trigger] s1.nodes[s1.stack[t]].stack_height) matches Some(dd) && dd >= 2) by {
                    assert(s1.stack[t] == s.stack[t]);
                    assert(content_eq(s1.nodes[s.stack[t]], s.nodes[s.stack[t]]));
                    assert(s.nodes[s.stack[t]].stack_height matches Some(dd) && dd >= 2);
                }
            }
            lemma_pop_ge_inner(s1, logs, d, instrs, k, accounts);
            let r = pop_ge(s1, Some(d), logs);
            assert(r.stack == s1.stack.take(r.stack.len() as int));
            assert(s1.stack == s.stack.drop_last());
            assert(s.stack.drop_last().take(r.stack.len() as int) =~= s.stack.take(
                r.stack.len() as int,
            ));
            assert forall|i: int| 0 <= i < s.nodes.len() implies content_eq(
                #[trigger] r.nodes[i],
                s.nodes[i],
            ) by {
                assert(content_eq(r.nodes[i], s1.nodes[i]));
                assert(content_eq(s1.nodes[i], s.nodes[i]));
            }
        } else {
            assert(pop_ge(s, Some(d), logs) == s);
            assert(s.stack.take(s.stack.len() as int) =~= s.stack);
        }
    }
}

/// Closing everything at the end of the pass empties the stack and
/// promotes the bottom node to the last root.
pub proof fn lemma_close_all_shape(
    s: BuildStateV,
    logs: Seq<Seq<char>>,
    instrs: Seq<InstrV>,
    k: int,
    accounts: Seq<Seq<u8>>,
)
    requires
        p1_inv(s, instrs, k, accounts),
    ensures
        ({
            let r = close_all(s, logs);
            &&& r.stack.len() == 0
            &&& r.nodes.len() == s.nodes.len()
            &&& forall|i: int|
                0 <= i < s.nodes.len() ==> content_eq(#[trigger] r.nodes[i], s.nodes[i])
            &&& r.roots == (if s.stack.len() > 0 {
                s.roots.push(s.stack[0])
            } else {
                s.roots
            })
        }),
    decreases s.stack.len(),
{
    if s.stack.len() > 0 {
        lemma_close_top_shape(s, logs);
        let s1 = close_top(s, logs);
        assert forall|t: int| 0 <= t < s1.stack.len() implies 0 <= #[trigger] s1.stack[t]
            < s1.nodes.len() by {
            assert(s1.stack[t] == s.stack[t]);
        }
        assert(p1_inv(s1, instrs, k, accounts)) by {
            let cp = compiled_positions(instrs.take(k));
            if s.stack.len() > 1 {
                assert(s1.stack[0] == s.stack[0]);
                assert(content_eq(s1.nodes[s.stack[0]], s.nodes[s.stack[0]]));
                assert forall|t: int| 1 <= t < s1.stack.len() implies ((
                #[trigger] s1.nodes[s1.stack[t]].stack_height) matches Some(dd) && dd >= 2) by {
                    assert(s1.stack[t] == s.stack[t]);
                    assert(content_eq(s1.nodes[s.stack[t]], s.nodes[s.stack[t]]));
                    assert(s.nodes[s.stack[t]].stack_height matches Some(dd) && dd >= 2);
                }
            }
            assert forall|r: int| 0 <= r < s1.roots.len() implies node_matches_instr(
                s1.nodes[#[trigger] s1.roots[r]],
                instrs[cp[r]],
                accounts,
            ) && 0 <= s1.roots[r] < s1.nodes.len() by {
                if r < s.roots.len() {
                    assert(s1.roots[r] == s.roots[r]);
                    assert(content_eq(s1.nodes[s.roots[r]], s.nodes[s.roots[r]]));
                } else {
                    assert(s1.roots[r] == s.stack[0]);
                    assert(content_eq(s1.nodes[s.stack[0]], s.nodes[s.stack[0]]));
                }
            }
        }
        lemma_close_all_shape(s1, logs, instrs, k, accounts);
        assert forall|i: int| 0 <= i < s.nodes.len() implies content_eq(
            #[trigger] close_all(s, logs).nodes[i],
            s.nodes[i],
        ) by {
            assert(content_eq(close_all(s1, logs).nodes[i], s1.nodes[i]));
            assert(content_eq(s1.nodes[i], s.nodes[i]));
        }
    }
}

/// The invariant `p1_inv` holds of the state after any prefix of a
/// well-formed instruction sequence.
pub proof fn lemma_p1_steps(instrs: Seq<InstrV>, k: int, accounts: Seq<Seq<u8>>, logs: Seq<
    Seq<char>,
>)
    requires
        wf_instrs(instrs),
        0 <= k <= instrs.len(),
    ensures
        p1_inv(state_after(instrs, k, accounts, logs), instrs, k, accounts),
    decreases k,
{
    if k == 0 {
        assert(instrs.take(0) =~= Seq::<InstrV>::empty());
        assert(compiled_positions(instrs.take(0)) =~= Seq::<int>::empty());
    } else {
        lemma_p1_steps(instrs, k - 1, accounts, logs);
        let s = state_after(instrs, k - 1, accounts, logs);
        let instr = instrs[k - 1];
        let cp0 = compiled_positions(instrs.take(k - 1));
        let cp = compiled_positions(instrs.take(k));
        assert(instrs.take(k).drop_last() =~= instrs.take(k - 1));
        assert(instrs.take(k).last() == instr);
        lemma_compiled_positions_bounds(instrs.take(k - 1));
        if instr.compiled {
            assert(cp == cp0.push(k - 1));
            assert(instr.stack_height == Some(1u32));
            lemma_pop_ge_compiled(s, logs, instrs, k - 1, accounts);
            let s1 = pop_ge(s, instr.stack_height, logs);
            let s2 = push_step(s, instr, accounts, logs);
            assert(s2.nodes == s1.nodes.push(
                NodeV {
                    logs: logs.subrange(
                        s1.pos,
                        crate::builder::drain_end(logs, s1.pos),
                    ),
                    ..new_node(instr, accounts, s1.pos)
                },
            ));
            assert(s2.stack == s1.stack.push(s1.nodes.len() as int));
            assert(p1_inv(s2, instrs, k, accounts)) by {
                assert(s2.stack.len() == 1);
                assert(s2.stack[0] == s1.nodes.len() as int);
                assert(node_matches_instr(s2.nodes[s2.stack[0]], instr, accounts));
                assert(cp.last() == k - 1);
                assert(instrs.take(k)[k - 1] == instr);
                assert(s2.roots == s1.roots);
                assert(s2.roots.len() == cp0.len());
                assert forall|r: int| 0 <= r < s2.roots.len() implies node_matches_instr(
                    s2.nodes[#[trigger] s2.roots[r]],
                    instrs[cp[r]],
                    accounts,
                ) && 0 <= s2.roots[r] < s2.nodes.len() by {
                    assert(cp[r] == cp0[r]);
                    if r < s.roots.len() {
                        assert(s1.roots[r] == s.roots[r]);
                        assert(content_eq(s1.nodes[s.roots[r]], s.nodes[s.roots[r]]));
                        assert(s2.nodes[s.roots[r]] == s1.nodes[s.roots[r]]);
                    } else {
                        assert(s.stack.len() > 0);
                        assert(s1.roots[r] == s.stack[0]);
                        assert(content_eq(s1.nodes[s.stack[0]], s.nodes[s.stack[0]]));
                        assert(s2.nodes[s.stack[0]] == s1.nodes[s.stack[0]]);
                        assert(cp0.last() == cp0[r]);
                    }
                }
            }
        } else {
            assert(cp =~= cp0);
            assert(instr.stack_height matches Some(d) && d >= 2);
            assert(k - 1 >= 1) by {
                assert(instrs[0].compiled);
            }
            assert(s == push_step(
                state_after(instrs, k - 2, accounts, logs),
                instrs[k - 2],
                accounts,
                logs,
            ));
            assert(s.stack.len() >= 1);
            let d = instr.stack_height->0;
            lemma_pop_ge_inner(s, logs, d, instrs, k - 1, accounts);
            let s1 = pop_ge(s, instr.stack_height, logs);
            let s2 = push_step(s, instr, accounts, logs);
            assert(s2.stack == s1.stack.push(s1.nodes.len() as int));
            assert(p1_inv(s2, instrs, k, accounts)) by {
                assert(s1.stack == s.stack.take(s1.stack.len() as int));
                assert(s2.stack[0] == s1.stack[0]);
                assert(s1.stack[0] == s.stack[0]);
                assert(content_eq(s1.nodes[s.stack[0]], s.nodes[s.stack[0]]));
                assert(s2.nodes[s.stack[0]] == s1.nodes[s.stack[0]]);
                assert(node_matches_instr(s2.nodes[s2.stack[0]], instrs[cp.last()], accounts));
                assert(s2.roots == s.roots);
                assert forall|r: int| 0 <= r < s2.roots.len() implies node_matches_instr(
                    s2.nodes[#[trigger] s2.roots[r]],
                    instrs[cp[r]],
                    accounts,
                ) && 0 <= s2.roots[r] < s2.nodes.len() by {
                    assert(content_eq(s1.nodes[s.roots[r]], s.nodes[s.roots[r]]));
                    assert(s2.nodes[s.roots[r]] == s1.nodes[s.roots[r]]);
                }
                assert forall|t: int| 1 <= t < s2.stack.len() implies ((
                #[trigger] s2.nodes[s2.stack[t]].stack_height) matches Some(dd) && dd >= 2) by {
                    if t < s2.stack.len() - 1 {
                        assert(s2.stack[t] == s1.stack[t]);
                        assert(s1.stack[t] == s.stack[t]);
                        assert(content_eq(s1.nodes[s.stack[t]], s.nodes[s.stack[t]]));
                        assert(s2.nodes[s.stack[t]] == s1.nodes[s.stack[t]]);
                        assert(s.nodes[s.stack[t]].stack_height matches Some(dd) && dd >= 2);
                    } else {
                        assert(s2.stack[t] == s1.nodes.len() as int);
                        assert(node_matches_instr(s2.nodes[s2.stack[t]], instr, accounts));
                    }
                }
            }
        }
    }
}

/// The forest's roots reproduce the original top-level instruction order,
/// in count and in content.
///
/// For every transaction whose recorded inner-instruction depths are
/// consistent — every inner instruction carries a depth of at least two
/// and the flattened sequence opens with a top-level instruction — the
/// roots of `build_forest`, taken in order, carry exactly the resolved
/// content of the top-level instructions, one root per top-level
/// instruction.
pub proof fn lemma_roots_are_top_level(
    instrs: Seq<InstrV>,
    accounts: Seq<Seq<u8>>,
    logs: Seq<Seq<char>>,
)
    requires
        wf_instrs(instrs),
    ensures
        ({
            let st = build_forest(instrs, accounts, logs);
            let cp = compiled_positions(instrs);
            &&& st.roots.len() == cp.len()
            &&& forall|r: int|
                0 <= r < cp.len() ==> {
                    &&& 0 <= #[trigger] st.roots[r] < st.nodes.len()
                    &&& node_matches_instr(st.nodes[st.roots[r]], instrs[cp[r]], accounts)
                }
        }),
{
    let n = instrs.len() as int;
    lemma_p1_steps(instrs, n, accounts, logs);
    let s = state_after(instrs, n, accounts, logs);
    assert(instrs.take(n) =~= instrs);
    lemma_close_all_shape(s, logs, instrs, n, accounts);
    let st = build_forest(instrs, accounts, logs);
    let cp = compiled_positions(instrs);
    lemma_compiled_positions_bounds(instrs);
    assert forall|r: int| 0 <= r < cp.len() implies {
        &&& 0 <= #[trigger] st.roots[r] < st.nodes.len()
        &&& node_matches_instr(st.nodes[st.roots[r]], instrs[cp[r]], accounts)
    } by {
        if r < s.roots.len() {
            assert(st.roots[r] == s.roots[r]);
            assert(content_eq(st.nodes[s.roots[r]], s.nodes[s.roots[r]]));
        } else {
            assert(s.stack.len() > 0);
            assert(st.roots[r] == s.stack[0]);
            assert(content_eq(st.nodes[s.stack[0]], s.nodes[s.stack[0]]));
            assert(cp.last() == cp[r]);
        }
    }
}

/// The log lines of one node's own slice, as a multiset: the whole slice
/// of the transaction log consumed between the node's opening and its
/// closing.
pub open spec fn range_ms(nodes: Seq<NodeV>, c: int, logs: Seq<Seq<char>>) -> Multiset<Seq<char>> {
    logs.subrange(nodes[c].log_open, nodes[c].log_close).to_multiset()
}

/// The union of the full log slices of a node's children, in child order.
pub open spec fn kids_ms(nodes: Seq<NodeV>, kids: Seq<int>, logs: Seq<Seq<char>>) -> Multiset<
    Seq<char>,
>
    decreases kids.len(),
{
    if kids.len() == 0 {
        Multiset::empty()
    } else {
        kids_ms(nodes, kids.drop_last(), logs).add(range_ms(nodes, kids.last(), logs))
    }
}

/// The lines attributed to a node: its own log lines, together with the
/// full slice of each of its children.
pub open spec fn attributed(nodes: Seq<NodeV>, i: int, logs: Seq<Seq<char>>) -> Multiset<
    Seq<char>,
> {
    nodes[i].logs.to_multiset().add(kids_ms(nodes, nodes[i].children, logs))
}

/// A child's attribution reads only its recorded slice marks, so nodes
/// that agree on those agree on the union.
proof fn lemma_kids_ms_frame(
    nodes1: Seq<NodeV>,
    nodes2: Seq<NodeV>,
    kids: Seq<int>,
    logs: Seq<Seq<char>>,
)
    requires
        forall|t: int|
            0 <= t < kids.len() ==> {
                &&& 0 <= #[trigger] kids[t] < nodes1.len()
                &&& kids[t] < nodes2.len()
                &&& nodes1[kids[t]].log_open == nodes2[kids[t]].log_open
                &&& nodes1[kids[t]].log_close == nodes2[kids[t]].log_close
            },
    ensures
        kids_ms(nodes1, kids, logs) == kids_ms(nodes2, kids, logs),
    decreases kids.len(),
{
    if kids.len() > 0 {
        lemma_kids_ms_frame(nodes1, nodes2, kids.drop_last(), logs);
        assert(range_ms(nodes1, kids.last(), logs) == range_ms(nodes2, kids.last(), logs));
    }
}

/// Appending a child adds exactly that child's slice to the union.
proof fn lemma_kids_ms_push(nodes: Seq<NodeV>, kids: Seq<int>, c: int, logs: Seq<Seq<char>>)
    ensures
        kids_ms(nodes, kids.push(c), logs) == kids_ms(nodes, kids, logs).add(
            range_ms(nodes, c, logs),
        ),
{
    assert(kids.push(c).drop_last() =~= kids);
    assert(kids.push(c).last() == c);
}

/// A slice splits at any interior point into two slices whose multisets
/// add up.
proof fn lemma_subrange_ms_split(logs: Seq<Seq<char>>, a: int, b: int, c: int)
    requires
        0 <= a <= b <= c <= logs.len(),
    ensures
        logs.subrange(a, c).to_multiset() == logs.subrange(a, b).to_multiset().add(
            logs.subrange(b, c).to_multiset(),
        ),
{
    assert(logs.subrange(a, c) =~= logs.subrange(a, b) + logs.subrange(b, c));
    vstd::seq_lib::lemma_multiset_commutative(logs.subrange(a, b), logs.subrange(b, c));
}

/// One child reference of a node is a closed node of the arena.
pub open spec fn child_ok(s: BuildStateV, j: int, ci: int) -> bool {
    &&& 0 <= s.nodes[j].children[ci] < s.nodes.len()
    &&& !s.stack.contains(s.nodes[j].children[ci])
}

/// A closed node accounts for exactly its recorded slice: its own lines
/// and its children's full slices, taken together, are the lines consumed
/// between its opening and its closing.
pub open spec fn closed_ok(s: BuildStateV, j: int, logs: Seq<Seq<char>>) -> bool {
    &&& 0 <= s.nodes[j].log_open <= s.nodes[j].log_close <= logs.len()
    &&& attributed(s.nodes, j, logs) == logs.subrange(
        s.nodes[j].log_open,
        s.nodes[j].log_close,
    ).to_multiset()
}

/// An open node accounts for everything consumed since it opened, up to
/// where the node above it opened, or up to the cursor for the top.
pub open spec fn open_ok(s: BuildStateV, t: int, logs: Seq<Seq<char>>) -> bool {
    let i = s.stack[t];
    let bound = if t == s.stack.len() - 1 {
        s.pos
    } else {
        s.nodes[s.stack[t + 1]].log_open
    };
    &&& 0 <= s.nodes[i].log_open <= bound <= logs.len()
    &&& attributed(s.nodes, i, logs) == logs.subrange(s.nodes[i].log_open, bound).to_multiset()
}

/// What holds of the builder's state throughout one pass, toward the law
/// that no log line is duplicated or dropped: every closed node accounts
/// for exactly its recorded slice; every open node accounts for
/// everything consumed since it opened; children are closed nodes.
pub open spec fn p2_inv(s: BuildStateV, logs: Seq<Seq<char>>) -> bool {
    &&& 0 <= s.pos <= logs.len()
    &&& forall|t: int| 0 <= t < s.stack.len() ==> 0 <= #[trigger] s.stack[t] < s.nodes.len()
    &&& forall|t1: int, t2: int|
        0 <= t1 < t2 < s.stack.len() ==> #[trigger] s.stack[t1] != #[trigger] s.stack[t2]
    &&& forall|j: int, ci: int|
        0 <= j < s.nodes.len() && 0 <= ci < s.nodes[j].children.len() ==> #[trigger] child_ok(
            s,
            j,
            ci,
        )
    &&& forall|j: int|
        0 <= j < s.nodes.len() && !s.stack.contains(j) ==> #[trigger] closed_ok(s, j, logs)
    &&& forall|t: int| 0 <= t < s.stack.len() ==> #[trigger] open_ok(s, t, logs)
}

/// A node whose own lines, children and children's slice marks are
/// untouched keeps its attribution.
proof fn lemma_attributed_untouched(
    nodes1: Seq<NodeV>,
    nodes2: Seq<NodeV>,
    j: int,
    logs: Seq<Seq<char>>,
)
    requires
        0 <= j < nodes1.len(),
        j < nodes2.len(),
        nodes2[j].logs == nodes1[j].logs,
        nodes2[j].children == nodes1[j].children,
        forall|t: int|
            0 <= t < nodes1[j].children.len() ==> {
                &&& 0 <= #[trigger] nodes1[j].children[t] < nodes1.len()
                &&& nodes1[j].children[t] < nodes2.len()
                &&& nodes2[nodes1[j].children[t]].log_open == nodes1[nodes1[j].children[t]].log_open
                &&& nodes2[nodes1[j].children[t]].log_close == nodes1[nodes1[j].children[t]].log_close
            },
    ensures
        attributed(nodes2, j, logs) == attributed(nodes1, j, logs),
{
    lemma_kids_ms_frame(nodes1, nodes2, nodes1[j].children, logs);
}

/// Closing the top node touches only the top and its parent, so any other
/// closed node keeps its accounting.
proof fn lemma_close_top_keeps_closed(s: BuildStateV, logs: Seq<Seq<char>>, j: int)
    requires
        p2_inv(s, logs),
        s.stack.len() > 0,
        0 <= j < s.nodes.len(),
        !s.stack.contains(j),
        j != s.stack.last(),
        s.stack.len() > 1 ==> j != s.stack[s.stack.len() - 2],
    ensures
        closed_ok(close_top(s, logs), j, logs),
        attributed(close_top(s, logs).nodes, j, logs) == attributed(s.nodes, j, logs),
{
    let s1 = close_top(s, logs);
    let idx = s.stack.last();
    assert(closed_ok(s, j, logs));
    assert(s1.nodes[j] == s.nodes[j]);
    assert forall|t: int| 0 <= t < s.nodes[j].children.len() implies {
        &&& 0 <= #[trigger] s.nodes[j].children[t] < s.nodes.len()
        &&& s.nodes[j].children[t] < s1.nodes.len()
        &&& s1.nodes[s.nodes[j].children[t]].log_open == s.nodes[s.nodes[j].children[t]].log_open
        &&& s1.nodes[s.nodes[j].children[t]].log_close == s.nodes[s.nodes[j].children[t]].log_close
    } by {
        assert(child_ok(s, j, t));
        let c = s.nodes[j].children[t];
        assert(!s.stack.contains(c));
        assert(s.stack[s.stack.len() - 1] == idx);
        if s.stack.len() > 1 {
            assert(s.stack[s.stack.len() - 2] == s.stack[s.stack.len() - 2]);
        }
    }
    lemma_attributed_untouched(s.nodes, s1.nodes, j, logs);
}

/// The node closed by `close_top` accounts for exactly its recorded
/// slice.
proof fn lemma_close_top_closes(s: BuildStateV, logs: Seq<Seq<char>>)
    requires
        p2_inv(s, logs),
        s.stack.len() > 0,
    ensures
        ({
            let s1 = close_top(s, logs);
            let idx = s.stack.last();
            let e = crate::builder::drain_end(logs, s.pos);
            &&& s.pos <= e <= logs.len()
            &&& s1.nodes[idx].log_open == s.nodes[idx].log_open
            &&& s1.nodes[idx].log_close == e
            &&& closed_ok(s1, idx, logs)
        }),
{
    let idx = s.stack.last();
    let e = crate::builder::drain_end(logs, s.pos);
    crate::builder::lemma_drain_end_bounds(logs, s.pos);
    let s1 = close_top(s, logs);
    let closed = s1.nodes[idx];
    assert(s.stack[s.stack.len() - 1] == idx);
    assert(open_ok(s, s.stack.len() - 1, logs));
    assert(closed.logs == s.nodes[idx].logs + logs.subrange(s.pos, e));
    vstd::seq_lib::lemma_multiset_commutative(s.nodes[idx].logs, logs.subrange(s.pos, e));
    assert(kids_ms(s1.nodes, closed.children, logs) == kids_ms(s.nodes, closed.children, logs))
        by {
        assert(closed.children == s.nodes[idx].children);
        assert forall|t: int| 0 <= t < closed.children.len() implies {
            &&& 0 <= #[trigger] closed.children[t] < s.nodes.len()
            &&& closed.children[t] < s1.nodes.len()
            &&& s.nodes[closed.children[t]].log_open == s1.nodes[closed.children[t]].log_open
            &&& s.nodes[closed.children[t]].log_close == s1.nodes[closed.children[t]].log_close
        } by {
            assert(child_ok(s, idx, t));
            let c = s.nodes[idx].children[t];
            assert(!s.stack.contains(c));
            assert(s.stack[s.stack.len() - 1] == idx);
            if s.stack.len() > 1 {
                assert(s.stack[s.stack.len() - 2] == s.stack[s.stack.len() - 2]);
            }
        }
        lemma_kids_ms_frame(s.nodes, s1.nodes, closed.children, logs);
    }
    lemma_subrange_ms_split(logs, s.nodes[idx].log_open, s.pos, e);
    assert(attributed(s1.nodes, idx, logs) =~= attributed(s.nodes, idx, logs).add(
        logs.subrange(s.pos, e).to_multiset(),
    )) by {
        broadcast use vstd::multiset::group_multiset_axioms;

    }
    assert(closed_ok(s1, idx, logs));
}

/// Closing the top node preserves the accounting invariant.
#[verifier::rlimit(60)]
#[verifier::spinoff_prover]
proof fn lemma_close_top_p2(s: BuildStateV, logs: Seq<Seq<char>>)
    requires
        p2_inv(s, logs),
        s.stack.len() > 0,
    ensures
        p2_inv(close_top(s, logs), logs),
{
    let idx = s.stack.last();
    let e = crate::builder::drain_end(logs, s.pos);
    crate::builder::lemma_drain_end_bounds(logs, s.pos);
    let s1 = close_top(s, logs);
    lemma_close_top_closes(s, logs);
    if s.stack.len() > 1 {
        let p = s.stack[s.stack.len() - 2];
        let e2 = crate::builder::skip_plain_end(logs, e);
        crate::builder::lemma_skip_plain_end_bounds(logs, e);
        let parent1 = s1.nodes[p];
        assert(idx != p);
        assert(s1.stack == s.stack.drop_last());
        assert(s1.pos == e2);
        // the parent absorbs the child's slice and the plain lines after it
        assert(attributed(s1.nodes, p, logs) == logs.subrange(
            s.nodes[p].log_open,
            e2,
        ).to_multiset()) by {
            assert(parent1.children == s.nodes[p].children.push(idx));
            assert(parent1.logs == s.nodes[p].logs + logs.subrange(e, e2));
            vstd::seq_lib::lemma_multiset_commutative(s.nodes[p].logs, logs.subrange(e, e2));
            assert(kids_ms(s1.nodes, s.nodes[p].children, logs) == kids_ms(
                s.nodes,
                s.nodes[p].children,
                logs,
            )) by {
                assert forall|t: int| 0 <= t < s.nodes[p].children.len() implies {
                    &&& 0 <= #[trigger] s.nodes[p].children[t] < s.nodes.len()
                    &&& s.nodes[p].children[t] < s1.nodes.len()
                    &&& s.nodes[s.nodes[p].children[t]].log_open == s1.nodes[s.nodes[p].children[t]].log_open
                    &&& s.nodes[s.nodes[p].children[t]].log_close == s1.nodes[s.nodes[p].children[t]].log_close
                } by {
                    assert(child_ok(s, p, t));
                    let c = s.nodes[p].children[t];
                    assert(!s.stack.contains(c));
                    assert(s.stack[s.stack.len() - 1] == idx);
                    assert(s.stack[s.stack.len() - 2] == p);
                }
                lemma_kids_ms_frame(s.nodes, s1.nodes, s.nodes[p].children, logs);
            }
            lemma_kids_ms_push(s1.nodes, s.nodes[p].children, idx, logs);
            assert(range_ms(s1.nodes, idx, logs) == logs.subrange(
                s.nodes[idx].log_open,
                e,
            ).to_multiset());
            assert(open_ok(s, s.stack.len() - 2, logs));
            assert(attributed(s.nodes, p, logs) == logs.subrange(
                s.nodes[p].log_open,
                s.nodes[idx].log_open,
            ).to_multiset());
            assert(open_ok(s, s.stack.len() - 1, logs));
            lemma_subrange_ms_split(logs, s.nodes[p].log_open, s.nodes[idx].log_open, e);
            lemma_subrange_ms_split(logs, s.nodes[p].log_open, e, e2);
        }
        // children of every node remain closed nodes
        assert forall|j: int, ci: int|
            0 <= j < s1.nodes.len() && 0 <= ci < s1.nodes[j].children.len() implies #[trigger]
            child_ok(s1, j, ci) by {
            if j == p && ci == s1.nodes[j].children.len() - 1 {
                assert(s1.nodes[j].children[ci] == idx);
                assert forall|t: int| 0 <= t < s1.stack.len() implies s1.stack[t] != idx by {
                    assert(s1.stack[t] == s.stack[t]);
                }
            } else {
                assert(s1.nodes[j].children[ci] == s.nodes[j].children[ci]);
                assert(child_ok(s, j, ci));
                let c = s.nodes[j].children[ci];
                assert(!s.stack.contains(c));
                assert forall|t: int| 0 <= t < s1.stack.len() implies s1.stack[t] != c by {
                    assert(s1.stack[t] == s.stack[t]);
                }
            }
        }
        // closed nodes keep their accounting; the just-closed node joins them
        assert forall|j: int| 0 <= j < s1.nodes.len() && !s1.stack.contains(j) implies #[trigger]
            closed_ok(s1, j, logs) by {
            if j == idx {
            } else if j == p {
                assert(s1.stack[s1.stack.len() - 1] == p);
                assert(s1.stack.contains(p));
            } else if s.stack.contains(j) {
                let t = choose|t: int| 0 <= t < s.stack.len() && s.stack[t] == j;
                assert(t < s.stack.len() - 1);
                assert(s1.stack[t] == j);
                assert(s1.stack.contains(j));
            } else {
                lemma_close_top_keeps_closed(s, logs, j);
            }
        }
        // open nodes below the parent keep their accounting
        assert forall|t: int| 0 <= t < s1.stack.len() implies #[trigger] open_ok(s1, t, logs) by {
            assert(s1.stack[t] == s.stack[t]);
            let i = s.stack[t];
            assert(open_ok(s, t, logs));
            if t == s1.stack.len() - 1 {
                assert(i == p);
                assert(s1.nodes[p].log_open == s.nodes[p].log_open);
            } else {
                assert(s1.stack[t + 1] == s.stack[t + 1]);
                let i2 = s.stack[t + 1];
                assert(i != idx && i != p && i2 != idx) by {
                    assert(s.stack[s.stack.len() - 1] == idx);
                    assert(s.stack[s.stack.len() - 2] == p);
                }
                assert(s1.nodes[i] == s.nodes[i]);
                assert(s1.nodes[i2].log_open == s.nodes[i2].log_open);
                assert forall|u: int| 0 <= u < s.nodes[i].children.len() implies {
                    &&& 0 <= #[trigger] s.nodes[i].children[u] < s.nodes.len()
                    &&& s.nodes[i].children[u] < s1.nodes.len()
                    &&& s1.nodes[s.nodes[i].children[u]].log_open == s.nodes[s.nodes[i].children[u]].log_open
                    &&& s1.nodes[s.nodes[i].children[u]].log_close == s.nodes[s.nodes[i].children[u]].log_close
                } by {
                    assert(child_ok(s, i, u));
                    let c = s.nodes[i].children[u];
                    assert(!s.stack.contains(c));
                    assert(s.stack[s.stack.len() - 1] == idx);
                    assert(s.stack[s.stack.len() - 2] == p);
                }
                lemma_attributed_untouched(s.nodes, s1.nodes, i, logs);
            }
        }
    } else {
        assert(s1.stack.len() == 0);
        assert(s1.pos == e);
        assert forall|j: int, ci: int|
            0 <= j < s1.nodes.len() && 0 <= ci < s1.nodes[j].children.len() implies #[trigger]
            child_ok(s1, j, ci) by {
            assert(s1.nodes[j].children[ci] == s.nodes[j].children[ci]);
            assert(child_ok(s, j, ci));
        }
        assert forall|j: int| 0 <= j < s1.nodes.len() && !s1.stack.contains(j) implies #[trigger]
            closed_ok(s1, j, logs) by {
            if j == idx {
            } else if s.stack.contains(j) {
                let t = choose|t: int| 0 <= t < s.stack.len() && s.stack[t] == j;
                assert(s.stack[t] == idx);
            } else {
                lemma_close_top_keeps_closed(s, logs, j);
            }
        }
    }
}


/// Every close of the pop phase preserves the accounting invariant.
proof fn lemma_pop_ge_p2(s: BuildStateV, depth: Option<u32>, logs: Seq<Seq<char>>)
    requires
        p2_inv(s, logs),
    ensures
        p2_inv(pop_ge(s, depth, logs), logs),
    decreases s.stack.len(),
{
    if s.stack.len() > 0 && depth_ge(s.nodes[s.stack.last()].stack_height, depth) {
        lemma_close_top_p2(s, logs);
        lemma_pop_ge_p2(close_top(s, logs), depth, logs);
    }
}

/// Opening a node for the next instruction preserves the accounting
/// invariant: the fresh node accounts for its opening segment, and no
/// other node is touched.
#[verifier::rlimit(60)]
#[verifier::spinoff_prover]
proof fn lemma_push_step_p2(
    s: BuildStateV,
    instr: InstrV,
    accounts: Seq<Seq<u8>>,
    logs: Seq<Seq<char>>,
)
    requires
        p2_inv(s, logs),
    ensures
        p2_inv(push_step(s, instr, accounts, logs), logs),
{
    lemma_pop_ge_p2(s, instr.stack_height, logs);
    let s1 = pop_ge(s, instr.stack_height, logs);
    let e = crate::builder::drain_end(logs, s1.pos);
    crate::builder::lemma_drain_end_bounds(logs, s1.pos);
    let s2 = push_step(s, instr, accounts, logs);
    let idx = s1.nodes.len() as int;
    assert(s2.nodes == s1.nodes.push(
        NodeV { logs: logs.subrange(s1.pos, e), ..new_node(instr, accounts, s1.pos) },
    ));
    assert(s2.stack == s1.stack.push(idx));
    assert(s2.pos == e);
    broadcast use vstd::multiset::group_multiset_axioms;

    assert forall|t: int| 0 <= t < s2.stack.len() implies 0 <= #[trigger] s2.stack[t]
        < s2.nodes.len() by {
        if t < s2.stack.len() - 1 {
            assert(s2.stack[t] == s1.stack[t]);
        }
    }
    assert forall|t1: int, t2: int| 0 <= t1 < t2 < s2.stack.len() implies #[trigger] s2.stack[t1]
        != #[trigger] s2.stack[t2] by {
        if t2 < s2.stack.len() - 1 {
            assert(s2.stack[t1] == s1.stack[t1]);
            assert(s2.stack[t2] == s1.stack[t2]);
        } else {
            assert(s2.stack[t1] == s1.stack[t1]);
            assert(s1.stack[t1] < s1.nodes.len());
        }
    }
    assert forall|j: int, ci: int|
        0 <= j < s2.nodes.len() && 0 <= ci < s2.nodes[j].children.len() implies #[trigger] child_ok(
        s2,
        j,
        ci,
    ) by {
        if j < idx {
            assert(s2.nodes[j] == s1.nodes[j]);
            assert(child_ok(s1, j, ci));
            let c = s1.nodes[j].children[ci];
            assert(!s1.stack.contains(c));
            assert(c < s1.nodes.len());
            assert forall|t: int| 0 <= t < s2.stack.len() implies s2.stack[t] != c by {
                if t < s2.stack.len() - 1 {
                    assert(s2.stack[t] == s1.stack[t]);
                }
            }
        } else {
            assert(s2.nodes[j].children.len() == 0);
        }
    }
    assert forall|j: int| 0 <= j < s2.nodes.len() && !s2.stack.contains(j) implies #[trigger]
        closed_ok(s2, j, logs) by {
        assert(s2.stack[s2.stack.len() - 1] == idx);
        assert(j != idx);
        assert(s2.nodes[j] == s1.nodes[j]);
        if s1.stack.contains(j) {
            let t = choose|t: int| 0 <= t < s1.stack.len() && s1.stack[t] == j;
            assert(s2.stack[t] == j);
        }
        assert(!s1.stack.contains(j));
        assert(closed_ok(s1, j, logs));
        assert forall|t: int| 0 <= t < s1.nodes[j].children.len() implies {
            &&& 0 <= #[trigger] s1.nodes[j].children[t] < s1.nodes.len()
            &&& s1.nodes[j].children[t] < s2.nodes.len()
            &&& s2.nodes[s1.nodes[j].children[t]].log_open == s1.nodes[s1.nodes[j].children[t]].log_open
            &&& s2.nodes[s1.nodes[j].children[t]].log_close == s1.nodes[s1.nodes[j].children[t]].log_close
        } by {
            assert(child_ok(s1, j, t));
            let c = s1.nodes[j].children[t];
            assert(s2.nodes[c] == s1.nodes[c]);
        }
        lemma_attributed_untouched(s1.nodes, s2.nodes, j, logs);
    }
    assert forall|t: int| 0 <= t < s2.stack.len() implies #[trigger] open_ok(s2, t, logs) by {
        if t == s2.stack.len() - 1 {
            assert(s2.stack[t] == idx);
            assert(s2.nodes[idx].children.len() == 0);
            assert(kids_ms(s2.nodes, s2.nodes[idx].children, logs) == Multiset::<
                Seq<char>,
            >::empty());
            assert(attributed(s2.nodes, idx, logs) =~= logs.subrange(s1.pos, e).to_multiset());
            assert(s2.nodes[idx].log_open == s1.pos);
        } else {
            assert(s2.stack[t] == s1.stack[t]);
            let i = s1.stack[t];
            assert(open_ok(s1, t, logs));
            assert(i < s1.nodes.len());
            assert(s2.nodes[i] == s1.nodes[i]);
            if t < s2.stack.len() - 2 {
                assert(s2.stack[t + 1] == s1.stack[t + 1]);
                assert(s1.stack[t + 1] < s1.nodes.len());
                assert(s2.nodes[s1.stack[t + 1]] == s1.nodes[s1.stack[t + 1]]);
            } else {
                assert(s2.stack[t + 1] == idx);
                assert(s2.nodes[idx].log_open == s1.pos);
            }
            assert forall|u: int| 0 <= u < s1.nodes[i].children.len() implies {
                &&& 0 <= #[trigger] s1.nodes[i].children[u] < s1.nodes.len()
                &&& s1.nodes[i].children[u] < s2.nodes.len()
                &&& s2.nodes[s1.nodes[i].children[u]].log_open == s1.nodes[s1.nodes[i].children[u]].log_open
                &&& s2.nodes[s1.nodes[i].children[u]].log_close == s1.nodes[s1.nodes[i].children[u]].log_close
            } by {
                assert(child_ok(s1, i, u));
                let c = s1.nodes[i].children[u];
                assert(s2.nodes[c] == s1.nodes[c]);
            }
            lemma_attributed_untouched(s1.nodes, s2.nodes, i, logs);
        }
    }
}

/// Closing everything at the end preserves the accounting invariant.
proof fn lemma_close_all_p2(s: BuildStateV, logs: Seq<Seq<char>>)
    requires
        p2_inv(s, logs),
    ensures
        p2_inv(close_all(s, logs), logs),
    decreases s.stack.len(),
{
    if s.stack.len() > 0 {
        lemma_close_top_p2(s, logs);
        lemma_close_all_p2(close_top(s, logs), logs);
    }
}

/// No log line is duplicated or dropped: in the finished forest, every
/// node's own log lines together with its children's full log slices are,
/// as a multiset, exactly the slice of the transaction log consumed
/// between that node's opening and its closing.
pub proof fn lemma_log_attribution(instrs: Seq<InstrV>, accounts: Seq<Seq<u8>>, logs: Seq<
    Seq<char>,
>)
    ensures
        ({
            let st = build_forest(instrs, accounts, logs);
            &&& forall|j: int| 0 <= j < st.nodes.len() ==> #[trigger] closed_ok(st, j, logs)
            &&& forall|j: int, ci: int|
                0 <= j < st.nodes.len() && 0 <= ci < st.nodes[j].children.len()
                    ==> #[trigger] child_ok(st, j, ci)
        }),
{
    lemma_p2_steps_all(instrs, instrs.len() as int, accounts, logs);
    let s = state_after(instrs, instrs.len() as int, accounts, logs);
    lemma_close_all_p2(s, logs);
    let st = build_forest(instrs, accounts, logs);
    assert(st.stack.len() == 0) by {
        lemma_close_all_empties(s, logs);
    }
    assert forall|j: int| 0 <= j < st.nodes.len() implies #[trigger] closed_ok(st, j, logs) by {
        assert(!st.stack.contains(j));
    }
}

/// Closing everything leaves nothing open.
proof fn lemma_close_all_empties(s: BuildStateV, logs: Seq<Seq<char>>)
    ensures
        close_all(s, logs).stack.len() == 0,
    decreases s.stack.len(),
{
    if s.stack.len() > 0 {
        assert(close_top(s, logs).stack == s.stack.drop_last());
        lemma_close_all_empties(close_top(s, logs), logs);
    }
}

/// The accounting invariant holds after any prefix of the instruction
/// sequence.
proof fn lemma_p2_steps_all(instrs: Seq<InstrV>, k: int, accounts: Seq<Seq<u8>>, logs: Seq<
    Seq<char>,
>)
    requires
        0 <= k <= instrs.len(),
    ensures
        p2_inv(state_after(instrs, k, accounts, logs), logs),
    decreases k,
{
    if k == 0 {
        let s0 = initial_state();
        assert(p2_inv(s0, logs));
    } else {
        lemma_p2_steps_all(instrs, k - 1, accounts, logs);
        lemma_push_step_p2(state_after(instrs, k - 1, accounts, logs), instrs[k - 1], accounts, logs);
    }
}

/// The arena discipline of one pass: open nodes sit on the stack in
/// creation order, a child always has a larger arena index than its
/// parent, and parent references point backwards.
pub open spec fn order_inv(s: BuildStateV) -> bool {
    &&& forall|r: int| 0 <= r < s.roots.len() ==> 0 <= #[trigger] s.roots[r] < s.nodes.len()
    &&& forall|t: int| 0 <= t < s.stack.len() ==> 0 <= #[trigger] s.stack[t] < s.nodes.len()
    &&& forall|t: int| 0 <= t < s.stack.len() - 1 ==> #[trigger] s.stack[t] < s.stack[t + 1]
    &&& forall|j: int, ci: int|
        0 <= j < s.nodes.len() && 0 <= ci < s.nodes[j].children.len() ==> j < (
        #[trigger] s.nodes[j].children[ci]) < s.nodes.len()
    &&& forall|j: int|
        0 <= j < s.nodes.len() ==> ((#[trigger] s.nodes[j].parent) matches Some(p) ==> 0 <= p < j)
}

proof fn lemma_close_top_order(s: BuildStateV, logs: Seq<Seq<char>>)
    requires
        order_inv(s),
        s.stack.len() > 0,
    ensures
        order_inv(close_top(s, logs)),
{
    let s1 = close_top(s, logs);
    let idx = s.stack.last();
    assert(s.stack[s.stack.len() - 1] == idx);
    assert forall|r: int| 0 <= r < s1.roots.len() implies 0 <= #[trigger] s1.roots[r]
        < s1.nodes.len() by {
        if s.stack.len() == 1 && r == s1.roots.len() - 1 {
            assert(s1.roots[r] == s.stack[0]);
        } else {
            assert(s1.roots[r] == s.roots[r]);
        }
    }
    assert forall|t: int| 0 <= t < s1.stack.len() - 1 implies #[trigger] s1.stack[t] < s1.stack[t
        + 1] by {
        assert(s1.stack[t] == s.stack[t]);
        assert(s1.stack[t + 1] == s.stack[t + 1]);
    }
    assert forall|j: int, ci: int|
        0 <= j < s1.nodes.len() && 0 <= ci < s1.nodes[j].children.len() implies j < (
    #[trigger] s1.nodes[j].children[ci]) < s1.nodes.len() by {
        if s.stack.len() > 1 && j == s.stack[s.stack.len() - 2] && ci == s1.nodes[j].children.len()
            - 1 {
            assert(s1.nodes[j].children[ci] == idx);
            assert(s.stack[s.stack.len() - 2] < s.stack[s.stack.len() - 1]);
        } else {
            assert(s1.nodes[j].children[ci] == s.nodes[j].children[ci]);
        }
    }
    assert forall|j: int| 0 <= j < s1.nodes.len() implies ((#[trigger] s1.nodes[j].parent)
        matches Some(p) ==> 0 <= p < j) by {
        if j == idx && s.stack.len() > 1 {
            assert(s1.nodes[idx].parent == Some(s.stack[s.stack.len() - 2]));
            assert(s.stack[s.stack.len() - 2] < s.stack[s.stack.len() - 1]);
        } else if j != idx {
            assert(s1.nodes[j].parent == s.nodes[j].parent);
        }
    }
}

proof fn lemma_pop_ge_order(s: BuildStateV, depth: Option<u32>, logs: Seq<Seq<char>>)
    requires
        order_inv(s),
    ensures
        order_inv(pop_ge(s, depth, logs)),
    decreases s.stack.len(),
{
    if s.stack.len() > 0 && depth_ge(s.nodes[s.stack.last()].stack_height, depth) {
        lemma_close_top_order(s, logs);
        lemma_pop_ge_order(close_top(s, logs), depth, logs);
    }
}

proof fn lemma_push_step_order(
    s: BuildStateV,
    instr: InstrV,
    accounts: Seq<Seq<u8>>,
    logs: Seq<Seq<char>>,
)
    requires
        order_inv(s),
    ensures
        order_inv(push_step(s, instr, accounts, logs)),
{
    lemma_pop_ge_order(s, instr.stack_height, logs);
    let s1 = pop_ge(s, instr.stack_height, logs);
    let s2 = push_step(s, instr, accounts, logs);
    let idx = s1.nodes.len() as int;
    assert forall|t: int| 0 <= t < s2.stack.len() - 1 implies #[trigger] s2.stack[t] < s2.stack[t
        + 1] by {
        assert(s2.stack[t] == s1.stack[t]);
        if t < s2.stack.len() - 2 {
            assert(s2.stack[t + 1] == s1.stack[t + 1]);
        } else {
            assert(s2.stack[t + 1] == idx);
        }
    }
    assert forall|j: int, ci: int|
        0 <= j < s2.nodes.len() && 0 <= ci < s2.nodes[j].children.len() implies j < (
    #[trigger] s2.nodes[j].children[ci]) < s2.nodes.len() by {
        if j < idx {
            assert(s2.nodes[j] == s1.nodes[j]);
        } else {
            assert(s2.nodes[j].children.len() == 0);
        }
    }
    assert forall|j: int| 0 <= j < s2.nodes.len() implies ((#[trigger] s2.nodes[j].parent)
        matches Some(p) ==> 0 <= p < j) by {
        if j < idx {
            assert(s2.nodes[j] == s1.nodes[j]);
        } else {
            assert(s2.nodes[j].parent is None);
        }
    }
}

proof fn lemma_close_all_order(s: BuildStateV, logs: Seq<Seq<char>>)
    requires
        order_inv(s),
    ensures
        order_inv(close_all(s, logs)),
    decreases s.stack.len(),
{
    if s.stack.len() > 0 {
        lemma_close_top_order(s, logs);
        lemma_close_all_order(close_top(s, logs), logs);
    }
}

proof fn lemma_order_steps(instrs: Seq<InstrV>, k: int, accounts: Seq<Seq<u8>>, logs: Seq<
    Seq<char>,
>)
    requires
        0 <= k <= instrs.len(),
    ensures
        order_inv(state_after(instrs, k, accounts, logs)),
    decreases k,
{
    if k > 0 {
        lemma_order_steps(instrs, k - 1, accounts, logs);
        lemma_push_step_order(state_after(instrs, k - 1, accounts, logs), instrs[k - 1], accounts, logs);
    }
}

/// In the finished forest, every child has a larger arena index than its
/// parent, every parent reference points backwards, and the roots are
/// arena indices: what a traversal needs to terminate.
pub proof fn lemma_forest_ordered(instrs: Seq<InstrV>, accounts: Seq<Seq<u8>>, logs: Seq<
    Seq<char>,
>)
    ensures
        crate::builder::forest_ordered(build_forest(instrs, accounts, logs).nodes),
        forall|r: int|
            0 <= r < build_forest(instrs, accounts, logs).roots.len() ==> 0 <= (
            #[trigger] build_forest(instrs, accounts, logs).roots[r]) < build_forest(
                instrs,
                accounts,
                logs,
            ).nodes.len(),
{
    lemma_order_steps(instrs, instrs.len() as int, accounts, logs);
    let s = state_after(instrs, instrs.len() as int, accounts, logs);
    lemma_close_all_order(s, logs);
}

/// Re-running the builder on identical inputs yields a structurally
/// identical forest: the pass is a function of its inputs, so two results
/// that both equal `build_forest` of the same inputs are equal, node for
/// node, root for root and log line for log line.
pub proof fn lemma_builder_deterministic(
    a: BuildStateV,
    b: BuildStateV,
    instrs: Seq<InstrV>,
    accounts: Seq<Seq<u8>>,
    logs: Seq<Seq<char>>,
)
    requires
        a == build_forest(instrs, accounts, logs),
        b == build_forest(instrs, accounts, logs),
    ensures
        a.nodes == b.nodes,
        a.roots == b.roots,
{
}

} // verus!
