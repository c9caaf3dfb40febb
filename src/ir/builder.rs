use crate::ir::op::Op;
use crate::ir::storage::{imm32, imm64, temp, KHVal, Storage, ValueType};
use vstd::prelude::*;

verus! {

/// Bound on the numbers given to temporaries and labels of one block.
pub const ID_LIMIT: u64 = 0x4000_0000_0000_0000;

/// Builds the IR of one translation block: allocates temporaries and labels,
/// keeps the ordered op list and the chain points of the block's exits.
pub struct IrBuilder {
    /// Ops of the block under construction, in order.
    pub ops: Vec<Op>,
    /// Number for the next temporary or label.
    pub next_id: u64,
    /// Index of the trap ending the taken edge.
    pub direct_chain_idx: Option<usize>,
    /// Index of the trap ending the fall-through edge.
    pub aux_chain_idx: Option<usize>,
}

/// A chain point, if set, is the index of a trap that looks up the next block.
pub open spec fn chain_ok(ops: Seq<Op>, idx: Option<usize>) -> bool {
    idx matches Some(i) ==> i < ops.len() && ops[i as int].is_lookup_trap()
}

/// Every op of the sequence is well typed.
pub open spec fn all_well_typed(ops: Seq<Op>) -> bool {
    forall|i: int| 0 <= i < ops.len() ==> (#[trigger] ops[i]).well_typed()
}

impl IrBuilder {
    /// The builder's invariant: every op is well typed and the chain points
    /// are lookup traps.
    pub open spec fn wf(&self) -> bool {
        &&& all_well_typed(self.ops@)
        &&& chain_ok(self.ops@, self.direct_chain_idx)
        &&& chain_ok(self.ops@, self.aux_chain_idx)
    }

    /// `v` is not a temporary or label that this builder has yet to hand out.
    pub open spec fn owns(&self, v: KHVal) -> bool {
        match v.storage {
            Storage::Temp(i) => i < self.next_id,
            Storage::Label(i) => i < self.next_id,
            _ => true,
        }
    }

    /// `self` is `old` with the ops of `s` appended and nothing else changed.
    pub open spec fn appended(self, old: IrBuilder, s: Seq<Op>) -> bool {
        &&& self.ops@ == old.ops@ + s
        &&& self.next_id == old.next_id
        &&& self.direct_chain_idx == old.direct_chain_idx
        &&& self.aux_chain_idx == old.aux_chain_idx
    }

    /// An empty builder.
    pub fn new() -> (r: IrBuilder)
        ensures
            r.wf(),
            r.ops@ == Seq::<Op>::empty(),
            r.next_id == 0,
            r.direct_chain_idx is None,
            r.aux_chain_idx is None,
    {
        IrBuilder { ops: Vec::new(), next_id: 0, direct_chain_idx: None, aux_chain_idx: None }
    }

    /// Allocate a new unassigned temporary.
    pub fn alloc_val(&mut self, ty: ValueType) -> (r: KHVal)
        requires
            old(self).next_id < u64::MAX,
        ensures
            r == temp(ty, old(self).next_id),
            final(self).next_id == old(self).next_id + 1,
            final(self).ops == old(self).ops,
            final(self).direct_chain_idx == old(self).direct_chain_idx,
            final(self).aux_chain_idx == old(self).aux_chain_idx,
    {
        let id = self.next_id;
        self.next_id = id + 1;
        KHVal { ty, storage: Storage::Temp(id) }
    }

    /// Allocate a new label.
    pub fn alloc_label(&mut self) -> (r: KHVal)
        requires
            old(self).next_id < u64::MAX,
        ensures
            r == (KHVal { ty: ValueType::Label, storage: Storage::Label(old(self).next_id) }),
            final(self).next_id == old(self).next_id + 1,
            final(self).ops == old(self).ops,
            final(self).direct_chain_idx == old(self).direct_chain_idx,
            final(self).aux_chain_idx == old(self).aux_chain_idx,
    {
        let id = self.next_id;
        self.next_id = id + 1;
        KHVal { ty: ValueType::Label, storage: Storage::Label(id) }
    }

    /// The `U32` constant `v`; one value per distinct constant.
    pub fn alloc_u32(&self, v: u32) -> (r: KHVal)
        ensures
            r == imm32(v),
    {
        KHVal::u32(v)
    }

    /// The `U64` constant `v`; one value per distinct constant.
    pub fn alloc_u64(&self, v: u64) -> (r: KHVal)
        ensures
            r == imm64(v),
    {
        KHVal::u64(v)
    }

    /// Append an op to the block.
    pub fn push_op(&mut self, op: Op)
        requires
            old(self).wf(),
            op.well_typed(),
        ensures
            final(self).wf(),
            final(self).appended(*old(self), seq![op]),
    {
        self.ops.push(op);
        proof {
            assert(self.ops@ =~= old(self).ops@ + seq![op]);
            assert(seq![op][0] == op);
            lemma_append_wf(*old(self), *self, seq![op]);
        }
    }

    /// Record the last op, a lookup trap, as the end of the taken edge.
    pub fn set_direct_chain(&mut self)
        requires
            old(self).wf(),
            old(self).direct_chain_idx is None,
            old(self).ops@.len() > 0,
            old(self).ops@.last().is_lookup_trap(),
        ensures
            final(self).wf(),
            final(self).direct_chain_idx == Some((old(self).ops@.len() - 1) as usize),
            final(self).ops == old(self).ops,
            final(self).next_id == old(self).next_id,
            final(self).aux_chain_idx == old(self).aux_chain_idx,
    {
        self.direct_chain_idx = Some(self.ops.len() - 1);
    }

    /// Record the last op, a lookup trap, as the end of the fall-through edge.
    pub fn set_aux_chain(&mut self)
        requires
            old(self).wf(),
            old(self).aux_chain_idx is None,
            old(self).ops@.len() > 0,
            old(self).ops@.last().is_lookup_trap(),
        ensures
            final(self).wf(),
            final(self).aux_chain_idx == Some((old(self).ops@.len() - 1) as usize),
            final(self).ops == old(self).ops,
            final(self).next_id == old(self).next_id,
            final(self).direct_chain_idx == old(self).direct_chain_idx,
    {
        self.aux_chain_idx = Some(self.ops.len() - 1);
    }

    /// Hand out the block's ops and chain points and start a new block.
    pub fn take_block(&mut self) -> (r: (Vec<Op>, Option<usize>, Option<usize>))
        requires
            old(self).wf(),
        ensures
            r.0@ == old(self).ops@,
            r.1 == old(self).direct_chain_idx,
            r.2 == old(self).aux_chain_idx,
            final(self).wf(),
            final(self).ops@ == Seq::<Op>::empty(),
            final(self).next_id == 0,
            final(self).direct_chain_idx is None,
            final(self).aux_chain_idx is None,
    {
        let mut ops: Vec<Op> = Vec::new();
        core::mem::swap(&mut ops, &mut self.ops);
        let d = self.direct_chain_idx;
        let a = self.aux_chain_idx;
        self.next_id = 0;
        self.direct_chain_idx = None;
        self.aux_chain_idx = None;
        (ops, d, a)
    }
}

/// Appending well-typed ops keeps a builder well formed.
pub proof fn lemma_append_wf(old: IrBuilder, new: IrBuilder, s: Seq<Op>)
    requires
        old.wf(),
        all_well_typed(s),
        new.ops@ == old.ops@ + s,
        new.direct_chain_idx == old.direct_chain_idx,
        new.aux_chain_idx == old.aux_chain_idx,
    ensures
        new.wf(),
{
    assert forall|i: int| 0 <= i < new.ops@.len() implies (#[trigger] new.ops@[i]).well_typed() by {
        if i < old.ops@.len() {
            assert(new.ops@[i] == old.ops@[i]);
        } else {
            assert(new.ops@[i] == s[i - old.ops@.len()]);
        }
    }
    if let Some(i) = new.direct_chain_idx {
        assert(new.ops@[i as int] == old.ops@[i as int]);
    }
    if let Some(i) = new.aux_chain_idx {
        assert(new.ops@[i as int] == old.ops@[i as int]);
    }
}

} // verus!
