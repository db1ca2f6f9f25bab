//! The instruction data of one transaction, and its flattening.
//!
//! A transaction carries an array of top-level instructions and, recorded
//! separately, groups of inner instructions, each group tagged with the
//! index of the top-level instruction that produced it.  Flattening merges
//! the two into the one ordered sequence in which the instructions were
//! dispatched on chain: each top-level instruction immediately followed by
//! its group, in ascending top-level index order.

use vstd::prelude::*;

verus! {

/// A top-level instruction as read from the block: an index into the
/// transaction's account list for the program, indices for the accounts,
/// and the opaque payload.
#[derive(Debug)]
pub struct CompiledInstruction {
    pub program_id_index: u32,
    pub accounts: Vec<u8>,
    pub data: Vec<u8>,
}

/// An inner instruction: same shape as a top-level one, plus the invocation
/// depth recorded by the source data, where present.
#[derive(Debug)]
pub struct InnerInstruction {
    pub program_id_index: u32,
    pub accounts: Vec<u8>,
    pub data: Vec<u8>,
    pub stack_height: Option<u32>,
}

/// The group of inner instructions produced by the top-level instruction at
/// `index`, already in execution order.
#[derive(Debug)]
pub struct InnerInstructions {
    pub index: u32,
    pub instructions: Vec<InnerInstruction>,
}

/// What one instruction looks like to a specification, top-level or inner.
/// A top-level instruction has depth one.
pub struct InstrV {
    pub compiled: bool,
    pub program_id_index: u32,
    pub accounts: Seq<u8>,
    pub data: Seq<u8>,
    pub stack_height: Option<u32>,
}

impl View for CompiledInstruction {
    type V = InstrV;

    open spec fn view(&self) -> InstrV {
        InstrV {
            compiled: true,
            program_id_index: self.program_id_index,
            accounts: self.accounts@,
            data: self.data@,
            stack_height: Some(1u32),
        }
    }
}

impl View for InnerInstruction {
    type V = InstrV;

    open spec fn view(&self) -> InstrV {
        InstrV {
            compiled: false,
            program_id_index: self.program_id_index,
            accounts: self.accounts@,
            data: self.data@,
            stack_height: self.stack_height,
        }
    }
}

/// The view of an inner-instruction group.
pub struct GroupV {
    pub index: u32,
    pub instructions: Seq<InstrV>,
}

impl View for InnerInstructions {
    type V = GroupV;

    open spec fn view(&self) -> GroupV {
        GroupV {
            index: self.index,
            instructions: Seq::new(self.instructions@.len(), |k: int| self.instructions@[k]@),
        }
    }
}

/// One instruction of the flattened sequence, top-level or inner.
#[derive(Debug)]
pub enum WrappedInstruction {
    Compiled(CompiledInstruction),
    Inner(InnerInstruction),
}

impl View for WrappedInstruction {
    type V = InstrV;

    open spec fn view(&self) -> InstrV {
        match self {
            WrappedInstruction::Compiled(c) => c@,
            WrappedInstruction::Inner(x) => x@,
        }
    }
}

impl WrappedInstruction {
    /// The index of the owning program in the transaction's account list.
    pub fn program_id_index(&self) -> (r: u32)
        ensures
            r == self@.program_id_index,
    {
        match self {
            WrappedInstruction::Compiled(c) => c.program_id_index,
            WrappedInstruction::Inner(x) => x.program_id_index,
        }
    }

    /// The indices of the instruction's accounts in the transaction's
    /// account list.
    pub fn accounts(&self) -> (r: &Vec<u8>)
        ensures
            r@ == self@.accounts,
    {
        match self {
            WrappedInstruction::Compiled(c) => &c.accounts,
            WrappedInstruction::Inner(x) => &x.accounts,
        }
    }

    /// The opaque instruction payload.
    pub fn data(&self) -> (r: &Vec<u8>)
        ensures
            r@ == self@.data,
    {
        match self {
            WrappedInstruction::Compiled(c) => &c.data,
            WrappedInstruction::Inner(x) => &x.data,
        }
    }

    /// The invocation depth: one for a top-level instruction, the recorded
    /// depth (where present) for an inner one.
    pub fn stack_height(&self) -> (r: Option<u32>)
        ensures
            r == self@.stack_height,
    {
        match self {
            WrappedInstruction::Compiled(_) => Some(1),
            WrappedInstruction::Inner(x) => x.stack_height,
        }
    }
}

/// The views of a sequence of top-level instructions.
pub open spec fn compiled_views(cs: Seq<CompiledInstruction>) -> Seq<InstrV> {
    Seq::new(cs.len(), |k: int| cs[k]@)
}

/// The views of a sequence of inner-instruction groups.
pub open spec fn group_views(gs: Seq<InnerInstructions>) -> Seq<GroupV> {
    Seq::new(gs.len(), |k: int| gs[k]@)
}

/// The views of a flattened instruction sequence.
pub open spec fn instr_views(ws: Seq<WrappedInstruction>) -> Seq<InstrV> {
    Seq::new(ws.len(), |k: int| ws[k]@)
}

/// The flattened sequence from top-level index `i` on, with `j` groups
/// already consumed.  A group is taken exactly when it is the next unused
/// one and is tagged with the current top-level index; the groups are
/// expected in ascending index order, as the source data records them.
pub open spec fn flatten_from(cs: Seq<InstrV>, gs: Seq<GroupV>, i: int, j: int) -> Seq<InstrV>
    decreases cs.len() - i,
        when 0 <= i
{
    if i >= cs.len() {
        seq![]
    } else if j < gs.len() && 0 <= j && gs[j].index as int == i {
        seq![cs[i]] + gs[j].instructions + flatten_from(cs, gs, i + 1, j + 1)
    } else {
        seq![cs[i]] + flatten_from(cs, gs, i + 1, j)
    }
}

/// The whole flattened sequence of a transaction's instructions.
pub open spec fn flatten_spec(cs: Seq<InstrV>, gs: Seq<GroupV>) -> Seq<InstrV> {
    flatten_from(cs, gs, 0, 0)
}

/// A copy of a byte vector, equal to it byte for byte.
pub(crate) fn clone_bytes(v: &Vec<u8>) -> (r: Vec<u8>)
    ensures
        r@ == v@,
{
    let mut r: Vec<u8> = Vec::new();
    let mut i: usize = 0;
    while i < v.len()
        invariant
            i <= v@.len(),
            r@ == v@.subrange(0, i as int),
        decreases v@.len() - i,
    {
        r.push(v[i]);
        assert(r@ =~= v@.subrange(0, i + 1 as int));
        i += 1;
    }
    assert(r@ =~= v@);
    r
}

fn clone_compiled(c: &CompiledInstruction) -> (r: CompiledInstruction)
    ensures
        r@ == c@,
{
    CompiledInstruction {
        program_id_index: c.program_id_index,
        accounts: clone_bytes(&c.accounts),
        data: clone_bytes(&c.data),
    }
}

fn clone_inner(x: &InnerInstruction) -> (r: InnerInstruction)
    ensures
        r@ == x@,
{
    InnerInstruction {
        program_id_index: x.program_id_index,
        accounts: clone_bytes(&x.accounts),
        data: clone_bytes(&x.data),
        stack_height: x.stack_height,
    }
}

/// Merges the top-level instruction array with the inner-instruction
/// groups into the one sequence that matches on-chain execution order.
pub fn get_flattened_instructions(
    instructions: &Vec<CompiledInstruction>,
    inner_instructions: &Vec<InnerInstructions>,
) -> (r: Vec<WrappedInstruction>)
    ensures
        instr_views(r@) == flatten_spec(compiled_views(instructions@), group_views(
            inner_instructions@,
        )),
{
    let ghost cs = compiled_views(instructions@);
    let ghost gs = group_views(inner_instructions@);
    let mut r: Vec<WrappedInstruction> = Vec::new();
    let mut j: usize = 0;
    let mut i: usize = 0;
    while i < instructions.len()
        invariant
            i <= instructions@.len(),
            j <= inner_instructions@.len(),
            cs == compiled_views(instructions@),
            gs == group_views(inner_instructions@),
            flatten_spec(cs, gs) == instr_views(r@) + flatten_from(cs, gs, i as int, j as int),
        decreases instructions@.len() - i,
    {
        let ghost r0 = r@;
        r.push(WrappedInstruction::Compiled(clone_compiled(&instructions[i])));
        assert(instr_views(r@) =~= instr_views(r0) + seq![cs[i as int]]);
        let take_group = j < inner_instructions.len() && {
            let idx = inner_instructions[j].index;
            idx as usize == i
        };
        if take_group {
            let group = &inner_instructions[j];
            let mut k: usize = 0;
            while k < group.instructions.len()
                invariant
                    k <= group.instructions@.len(),
                    0 <= j < inner_instructions@.len(),
                    group == &inner_instructions@[j as int],
                    gs == group_views(inner_instructions@),
                    instr_views(r@) == instr_views(r0) + seq![cs[i as int]]
                        + gs[j as int].instructions.subrange(0, k as int),
                decreases group.instructions@.len() - k,
            {
                let ghost r1 = r@;
                r.push(WrappedInstruction::Inner(clone_inner(&group.instructions[k])));
                assert(instr_views(r@) =~= instr_views(r1) + seq![
                    gs[j as int].instructions[k as int],
                ]);
                assert(instr_views(r1) + seq![gs[j as int].instructions[k as int]]
                    =~= instr_views(r0) + seq![cs[i as int]] + gs[j as int].instructions.subrange(
                    0,
                    k + 1 as int,
                ));
                k += 1;
            }
            assert(gs[j as int].instructions.subrange(0, group.instructions@.len() as int)
                =~= gs[j as int].instructions);
            j += 1;
        }
        i += 1;
    }
    assert(flatten_from(cs, gs, instructions@.len() as int, j as int) =~= Seq::<InstrV>::empty());
    assert(instr_views(r@) =~= instr_views(r@) + Seq::<InstrV>::empty());
    r
}

} // verus!
