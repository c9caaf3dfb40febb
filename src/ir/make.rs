use crate::ir::builder::IrBuilder;
use crate::ir::op::{is_int, BinaryOpc, CondOp, ConvertOpc, Op, TrapOp, UnaryOpc};
use crate::ir::storage::{const_u64, imm64, is_zero_sink, temp, KHVal, MemOp, ValueType};
use vstd::prelude::*;

verus! {

/// The move operator of a value type.
pub open spec fn mov_opc(ty: ValueType) -> UnaryOpc {
    match ty {
        ValueType::U32 => UnaryOpc::Movl,
        ValueType::F64 => UnaryOpc::Movd,
        _ => UnaryOpc::Mov,
    }
}

/// Ops of `rd = rs`: none when both share their storage or `rd` is the zero sink.
pub open spec fn mov_ops(rd: KHVal, rs: KHVal) -> Seq<Op> {
    if rd.storage == rs.storage || is_zero_sink(rd) {
        seq![]
    } else {
        seq![Op::Unary { opc: mov_opc(rd.ty), rd, rs1: rs }]
    }
}

/// Ops of `rd = rs1 + rs2`: an addition of a constant zero becomes a move.
pub open spec fn add_ops(rd: KHVal, rs1: KHVal, rs2: KHVal) -> Seq<Op> {
    if is_zero_sink(rd) {
        seq![]
    } else if const_u64(rs1) == Some(0u64) {
        mov_ops(rd, rs2)
    } else if const_u64(rs2) == Some(0u64) {
        mov_ops(rd, rs1)
    } else {
        seq![Op::Binary { opc: BinaryOpc::Add, rd, rs1, rs2 }]
    }
}

/// Ops of `rd = rs1 - rs2`: a subtraction of a constant zero becomes a move.
pub open spec fn sub_ops(rd: KHVal, rs1: KHVal, rs2: KHVal) -> Seq<Op> {
    if is_zero_sink(rd) {
        seq![]
    } else if const_u64(rs2) == Some(0u64) {
        mov_ops(rd, rs1)
    } else {
        seq![Op::Binary { opc: BinaryOpc::Sub, rd, rs1, rs2 }]
    }
}

/// Ops of a zero extension of the low 32 bits; none into the zero sink.
pub open spec fn extulq_ops(rd: KHVal, rs: KHVal) -> Seq<Op> {
    if is_zero_sink(rd) {
        seq![]
    } else {
        seq![Op::Convert { opc: ConvertOpc::ExtUlq, rd, rs }]
    }
}

/// Ops of a trap: a copy of `val` into the fresh temporary `id`, then the trap on it.
pub open spec fn trap_ops(cause: TrapOp, val: KHVal, id: u64) -> Seq<Op> {
    seq![
        Op::Unary { opc: UnaryOpc::Mov, rd: temp(ValueType::U64, id), rs1: val },
        Op::Trap { cause: imm64(cause.spec_bits()), val: temp(ValueType::U64, id) },
    ]
}

/// A value type that registers can be moved in.
pub open spec fn is_movable(ty: ValueType) -> bool {
    ty != ValueType::Label
}

impl Op {
    /// Append `opc rd, rs1` for a unary operator.
    pub fn push_unary(b: &mut IrBuilder, opc: UnaryOpc, rd: KHVal, rs1: KHVal)
        requires
            old(b).wf(),
            rd.ty == opc.group(),
            rs1.ty == opc.group(),
        ensures
            final(b).wf(),
            final(b).appended(*old(b), seq![Op::Unary { opc, rd, rs1 }]),
    {
        b.push_op(Op::Unary { opc, rd, rs1 });
    }

    /// Append `opc rd, rs` for a conversion.
    pub fn push_convert(b: &mut IrBuilder, opc: ConvertOpc, rd: KHVal, rs: KHVal)
        requires
            old(b).wf(),
            rd.ty == opc.group(),
        ensures
            final(b).wf(),
            final(b).appended(*old(b), seq![Op::Convert { opc, rd, rs }]),
    {
        b.push_op(Op::Convert { opc, rd, rs });
    }

    /// Append `opc rd, rs1, rs2` for a binary operator.
    pub fn push_binary(b: &mut IrBuilder, opc: BinaryOpc, rd: KHVal, rs1: KHVal, rs2: KHVal)
        requires
            old(b).wf(),
            rd.ty == opc.group(),
            rs1.ty == opc.group(),
            rs2.ty == opc.group(),
        ensures
            final(b).wf(),
            final(b).appended(*old(b), seq![Op::Binary { opc, rd, rs1, rs2 }]),
    {
        b.push_op(Op::Binary { opc, rd, rs1, rs2 });
    }

    /// Append `rd = rs`, or nothing when both share their storage or `rd` is
    /// the zero sink.
    pub fn push_mov(b: &mut IrBuilder, rd: KHVal, rs: KHVal)
        requires
            old(b).wf(),
            rd.ty == rs.ty,
            is_movable(rd.ty),
        ensures
            final(b).wf(),
            final(b).appended(*old(b), mov_ops(rd, rs)),
    {
        if rd.storage == rs.storage || rd.is_zero() {
            proof {
                assert(b.ops@ == old(b).ops@ + Seq::<Op>::empty());
            }
            return;
        }
        let opc = match rd.ty {
            ValueType::U32 => UnaryOpc::Movl,
            ValueType::F64 => UnaryOpc::Movd,
            _ => UnaryOpc::Mov,
        };
        b.push_op(Op::Unary { opc, rd, rs1: rs });
    }

    /// Append `rd = rs1 + rs2`, folding an addition of a constant zero into a move.
    pub fn push_add(b: &mut IrBuilder, rd: KHVal, rs1: KHVal, rs2: KHVal)
        requires
            old(b).wf(),
            rd.ty == ValueType::U64,
            rs1.ty == ValueType::U64,
            rs2.ty == ValueType::U64,
        ensures
            final(b).wf(),
            final(b).appended(*old(b), add_ops(rd, rs1, rs2)),
    {
        if rd.is_zero() {
            proof {
                assert(b.ops@ == old(b).ops@ + Seq::<Op>::empty());
            }
            return;
        }
        if rs1.try_as_u64() == Some(0u64) {
            Op::push_mov(b, rd, rs2);
            return;
        }
        if rs2.try_as_u64() == Some(0u64) {
            Op::push_mov(b, rd, rs1);
            return;
        }
        b.push_op(Op::Binary { opc: BinaryOpc::Add, rd, rs1, rs2 });
    }

    /// Append `rd = rs1 - rs2`, folding a subtraction of a constant zero into a move.
    pub fn push_sub(b: &mut IrBuilder, rd: KHVal, rs1: KHVal, rs2: KHVal)
        requires
            old(b).wf(),
            rd.ty == ValueType::U64,
            rs1.ty == ValueType::U64,
            rs2.ty == ValueType::U64,
        ensures
            final(b).wf(),
            final(b).appended(*old(b), sub_ops(rd, rs1, rs2)),
    {
        if rd.is_zero() {
            proof {
                assert(b.ops@ == old(b).ops@ + Seq::<Op>::empty());
            }
            return;
        }
        if rs2.try_as_u64() == Some(0u64) {
            Op::push_mov(b, rd, rs1);
            return;
        }
        b.push_op(Op::Binary { opc: BinaryOpc::Sub, rd, rs1, rs2 });
    }

    /// Append a zero extension of the low 32 bits of `rs` into `rd`, or nothing
    /// into the zero sink.
    pub fn push_extulq(b: &mut IrBuilder, rd: KHVal, rs: KHVal)
        requires
            old(b).wf(),
            rd.ty == ValueType::U64,
        ensures
            final(b).wf(),
            final(b).appended(*old(b), extulq_ops(rd, rs)),
    {
        if rd.is_zero() {
            proof {
                assert(b.ops@ == old(b).ops@ + Seq::<Op>::empty());
            }
            return;
        }
        b.push_op(Op::Convert { opc: ConvertOpc::ExtUlq, rd, rs });
    }

    /// Append a load of `rd` from `addr` with the memory operation `mem_op`.
    pub fn push_load(b: &mut IrBuilder, rd: KHVal, addr: KHVal, mem_op: MemOp)
        requires
            old(b).wf(),
            rd.ty == ValueType::U64,
            addr.ty == ValueType::U64,
        ensures
            final(b).wf(),
            final(b).appended(
                *old(b),
                seq![Op::Binary { opc: BinaryOpc::Load, rd, rs1: addr, rs2: imm64(mem_op.bits) }],
            ),
    {
        let m = KHVal::u64(mem_op.bits);
        b.push_op(Op::Binary { opc: BinaryOpc::Load, rd, rs1: addr, rs2: m });
    }

    /// Append a store of `rd` to `addr` with the memory operation `mem_op`.
    pub fn push_store(b: &mut IrBuilder, rd: KHVal, addr: KHVal, mem_op: MemOp)
        requires
            old(b).wf(),
            rd.ty == ValueType::U64,
            addr.ty == ValueType::U64,
        ensures
            final(b).wf(),
            final(b).appended(
                *old(b),
                seq![Op::Binary { opc: BinaryOpc::Store, rd, rs1: addr, rs2: imm64(mem_op.bits) }],
            ),
    {
        let m = KHVal::u64(mem_op.bits);
        b.push_op(Op::Binary { opc: BinaryOpc::Store, rd, rs1: addr, rs2: m });
    }

    /// Append `rd = (c1 cc c2) ? 1 : 0`.
    pub fn push_setc(b: &mut IrBuilder, rd: KHVal, c1: KHVal, c2: KHVal, cc: CondOp)
        requires
            old(b).wf(),
            is_int(rd.ty),
            c1.ty == c2.ty,
        ensures
            final(b).wf(),
            final(b).appended(*old(b), seq![Op::Setc { rd, c1, c2, cc: imm64(cc.bits) }]),
    {
        let cc = KHVal::u64(cc.bits);
        b.push_op(Op::Setc { rd, c1, c2, cc });
    }

    /// Append `rd = (c1 cc c2) ? rs1 : rs2`.
    pub fn push_movc(
        b: &mut IrBuilder,
        rd: KHVal,
        rs1: KHVal,
        rs2: KHVal,
        c1: KHVal,
        c2: KHVal,
        cc: CondOp,
    )
        requires
            old(b).wf(),
            is_int(rd.ty),
            rs1.ty == rd.ty,
            rs2.ty == rd.ty,
            c1.ty == c2.ty,
        ensures
            final(b).wf(),
            final(b).appended(
                *old(b),
                seq![Op::Movc { rd, rs1, rs2, c1, c2, cc: imm64(cc.bits) }],
            ),
    {
        let cc = KHVal::u64(cc.bits);
        b.push_op(Op::Movc { rd, rs1, rs2, c1, c2, cc });
    }

    /// Append a branch to `dest` taken when `c1 cc c2`.
    pub fn push_brc(b: &mut IrBuilder, dest: KHVal, c1: KHVal, c2: KHVal, cc: CondOp)
        requires
            old(b).wf(),
            dest.ty == ValueType::Label,
            c1.ty == c2.ty,
        ensures
            final(b).wf(),
            final(b).appended(*old(b), seq![Op::Brc { dest, c1, c2, cc: imm64(cc.bits) }]),
    {
        let cc = KHVal::u64(cc.bits);
        b.push_op(Op::Brc { dest, c1, c2, cc });
    }

    /// Append the placement of `label`.
    pub fn push_setlbl(b: &mut IrBuilder, label: KHVal)
        requires
            old(b).wf(),
            label.ty == ValueType::Label,
        ensures
            final(b).wf(),
            final(b).appended(*old(b), seq![Op::Setlbl { label }]),
    {
        b.push_op(Op::Setlbl { label });
    }

    /// Append the split of `arg` into its low half `lo` and high half `hi`.
    pub fn push_extr(b: &mut IrBuilder, lo: KHVal, hi: KHVal, arg: KHVal)
        requires
            old(b).wf(),
            lo.ty == ValueType::U32,
            hi.ty == ValueType::U32,
        ensures
            final(b).wf(),
            final(b).appended(
                *old(b),
                seq![
                    Op::Convert { opc: ConvertOpc::Extrl, rd: lo, rs: arg },
                    Op::Convert { opc: ConvertOpc::Extrh, rd: hi, rs: arg },
                ],
            ),
    {
        b.push_op(Op::Convert { opc: ConvertOpc::Extrl, rd: lo, rs: arg });
        b.push_op(Op::Convert { opc: ConvertOpc::Extrh, rd: hi, rs: arg });
        proof {
            assert(b.ops@ == old(b).ops@ + seq![
                Op::Convert { opc: ConvertOpc::Extrl, rd: lo, rs: arg },
                Op::Convert { opc: ConvertOpc::Extrh, rd: hi, rs: arg },
            ]);
        }
    }

    /// Append an unsigned extraction of `len` bits at `ofs` of `rs`.
    pub fn push_extru(b: &mut IrBuilder, rd: KHVal, rs: KHVal, ofs: u64, len: u64)
        requires
            old(b).wf(),
            rd.ty == ValueType::U64,
            rs.ty == ValueType::U64,
        ensures
            final(b).wf(),
            final(b).appended(
                *old(b),
                seq![Op::ExtrU { rd, rs, ofs: imm64(ofs), len: imm64(len) }],
            ),
    {
        let o = KHVal::u64(ofs);
        let l = KHVal::u64(len);
        b.push_op(Op::ExtrU { rd, rs, ofs: o, len: l });
    }

    /// Append a signed extraction of `len` bits at `ofs` of `rs`.
    pub fn push_extrs(b: &mut IrBuilder, rd: KHVal, rs: KHVal, ofs: u64, len: u64)
        requires
            old(b).wf(),
            rd.ty == ValueType::U64,
            rs.ty == ValueType::U64,
        ensures
            final(b).wf(),
            final(b).appended(
                *old(b),
                seq![Op::ExtrS { rd, rs, ofs: imm64(ofs), len: imm64(len) }],
            ),
    {
        let o = KHVal::u64(ofs);
        let l = KHVal::u64(len);
        b.push_op(Op::ExtrS { rd, rs, ofs: o, len: l });
    }

    /// Append `rd = rs1` with the `len` bits at `ofs` replaced by those of `rs2`.
    pub fn push_depos(b: &mut IrBuilder, rd: KHVal, rs1: KHVal, rs2: KHVal, ofs: u64, len: u64)
        requires
            old(b).wf(),
            rd.ty == ValueType::U64,
            rs1.ty == ValueType::U64,
            rs2.ty == ValueType::U64,
        ensures
            final(b).wf(),
            final(b).appended(
                *old(b),
                seq![Op::Depos { rd, rs1, rs2, ofs: imm64(ofs), len: imm64(len) }],
            ),
    {
        let o = KHVal::u64(ofs);
        let l = KHVal::u64(len);
        b.push_op(Op::Depos { rd, rs1, rs2, ofs: o, len: l });
    }

    /// Append the double-word addition `[rh:rl] = [ah:al] + [bh:bl]` on `U64` halves.
    pub fn push_add2(
        b: &mut IrBuilder,
        rl: KHVal,
        rh: KHVal,
        al: KHVal,
        ah: KHVal,
        bl: KHVal,
        bh: KHVal,
    )
        requires
            old(b).wf(),
            rl.ty == ValueType::U64,
            rh.ty == ValueType::U64,
            al.ty == ValueType::U64,
            ah.ty == ValueType::U64,
            bl.ty == ValueType::U64,
            bh.ty == ValueType::U64,
        ensures
            final(b).wf(),
            final(b).appended(*old(b), seq![Op::Add2 { rl, rh, al, ah, bl, bh }]),
    {
        b.push_op(Op::Add2 { rl, rh, al, ah, bl, bh });
    }

    /// Append the double-word addition `[rh:rl] = [ah:al] + [bh:bl]` on `U32` halves.
    pub fn push_add2l(
        b: &mut IrBuilder,
        rl: KHVal,
        rh: KHVal,
        al: KHVal,
        ah: KHVal,
        bl: KHVal,
        bh: KHVal,
    )
        requires
            old(b).wf(),
            rl.ty == ValueType::U32,
            rh.ty == ValueType::U32,
            al.ty == ValueType::U32,
            ah.ty == ValueType::U32,
            bl.ty == ValueType::U32,
            bh.ty == ValueType::U32,
        ensures
            final(b).wf(),
            final(b).appended(*old(b), seq![Op::Add2l { rl, rh, al, ah, bl, bh }]),
    {
        b.push_op(Op::Add2l { rl, rh, al, ah, bl, bh });
    }

    /// Append a trap with `cause` on a fresh copy of `val`, so that later writes
    /// to `val` do not change what the trap reports.
    pub fn push_trap(b: &mut IrBuilder, cause: TrapOp, val: KHVal)
        requires
            old(b).wf(),
            val.ty == ValueType::U64,
            old(b).owns(val),
            old(b).next_id < u64::MAX,
        ensures
            final(b).wf(),
            final(b).ops@ == old(b).ops@ + trap_ops(cause, val, old(b).next_id),
            final(b).next_id == old(b).next_id + 1,
            final(b).direct_chain_idx == old(b).direct_chain_idx,
            final(b).aux_chain_idx == old(b).aux_chain_idx,
    {
        let c = KHVal::u64(cause.bits());
        let new_val = b.alloc_val(ValueType::U64);
        Op::push_mov(b, new_val, val);
        b.push_op(Op::Trap { cause: c, val: new_val });
        proof {
            assert(b.ops@ == old(b).ops@ + trap_ops(cause, val, old(b).next_id));
        }
    }
}

} // verus!

verus! {

/// Folding: adding a constant zero to a register, on either side, is one move
/// of that register, or nothing when the destination is the register itself;
/// moving a register to itself is nothing.
pub proof fn lemma_add_zero_folds(rd: KHVal, r: KHVal)
    requires
        rd.ty == ValueType::U64,
        r.ty == ValueType::U64,
        !is_zero_sink(rd),
    ensures
        add_ops(rd, r, imm64(0)) == add_ops(rd, imm64(0), r),
        rd.storage == r.storage ==> add_ops(rd, r, imm64(0)).len() == 0,
        rd.storage != r.storage ==> add_ops(rd, r, imm64(0)) == seq![
            Op::Unary { opc: UnaryOpc::Mov, rd, rs1: r },
        ],
        mov_ops(r, r).len() == 0,
{
}

} // verus!
