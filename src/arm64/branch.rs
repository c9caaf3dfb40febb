use crate::arm64::facility::{
    cc_ids, do_end_tb_to_addr, do_test_jump_cc, end_tb_ops, jump_cc_ops, read_cpu_reg, read_ops,
};
use crate::arm64::{
    lemma_lowered, not_implemented, reg_or_zero, unallocated, undef_done, undef_ops, unimpl, xreg,
    Arm64GuestContext,
};
use crate::bits::{extract, field, lemma_small_pow2, sextract, sfield};
use crate::guest::{DisasException, GUEST_SIZE};
use crate::ir::make::mov_ops;
use crate::ir::op::{CondOp, Op, UnaryOpc, COND_EQ, COND_NE};
use crate::ir::storage::{imm64, temp, KHVal, Storage, ValueType};
use vstd::prelude::*;

verus! {

/// The target of a PC-relative branch of `off` instructions from `pc`.
pub open spec fn branch_target(pc: usize, off: int) -> usize {
    (pc as int + 4 * off) as usize
}

/// `pc` moved by `off` instructions.
pub fn pc_plus(pc: usize, off: i64) -> (r: usize)
    requires
        pc <= GUEST_SIZE,
        -0x1000_0000 <= off < 0x1000_0000,
    ensures
        r == branch_target(pc, off as int),
{
    (pc as i64 + 4 * off) as usize
}

/// The label numbered `id`.
pub open spec fn label(id: u64) -> KHVal {
    KHVal { ty: ValueType::Label, storage: Storage::Label(id) }
}

/// Ops of an unconditional immediate branch to `addr`, linking `next` into
/// `x30` when `link`.
pub open spec fn uncond_b_ops(link: bool, next: usize, addr: usize, id: u64) -> Seq<Op> {
    (if link {
        seq![Op::Unary { opc: UnaryOpc::Mov, rd: xreg(30), rs1: imm64(next as u64) }]
    } else {
        seq![]
    }) + end_tb_ops(imm64(addr as u64), id)
}

/// What lowering B or BL does: the block ends towards the target.
pub open spec fn uncond_b_done(
    new: Arm64GuestContext,
    old: Arm64GuestContext,
    r: Result<(), DisasException>,
    insn: u32,
) -> bool {
    let addr = branch_target(old.spec_curr_pc(), sfield(insn, 0, 26));
    &&& new.lowered(old, r)
    &&& r == Err::<(), DisasException>(DisasException::Branch(Some(addr), None))
    &&& new.emitted(
        old,
        uncond_b_ops(field(insn, 31, 1) == 1, old.spec_next_pc(), addr, old.ir.next_id),
        1,
    )
}

/// B and BL: branch to `pc + 4 * imm26`; BL writes the return address to `x30`.
pub fn disas_uncond_b_imm(ctx: &mut Arm64GuestContext, insn: u32) -> (r: Result<(), DisasException>)
    requires
        old(ctx).lowerable(),
    ensures
        uncond_b_done(*final(ctx), *old(ctx), r, insn),
{
    proof {
        lemma_small_pow2();
    }
    let off = sextract(insn, 0, 26);
    let addr = pc_plus(ctx.curr_pc(), off);
    let addr_val = KHVal::u64(addr as u64);
    if extract(insn, 31, 1) == 1 {
        let next_pc = KHVal::u64(ctx.next_pc() as u64);
        let x30 = ctx.reg(30);
        Op::push_mov(&mut ctx.ir, x30, next_pc);
    }
    do_end_tb_to_addr(ctx, addr_val, false);
    let r = Err(DisasException::Branch(Some(addr), None));
    proof {
        let s = uncond_b_ops(field(insn, 31, 1) == 1, old(ctx).spec_next_pc(), addr, old(ctx).ir.next_id);
        assert(ctx.ir.ops@ =~= old(ctx).ir.ops@ + s);
        lemma_lowered(*old(ctx), *ctx, s, 1, r);
    }
    r
}

/// Ops of a conditional branch on `cond` to `addr`, falling through to `next`.
pub open spec fn cond_b_ops(cond: u32, next: usize, addr: usize, id: u64) -> Seq<Op> {
    if cond < 14 {
        jump_cc_ops(cond, label(id), (id + 1) as u64) + end_tb_ops(
            imm64(next as u64),
            (id + 1 + cc_ids(cond)) as u64,
        ) + seq![Op::Setlbl { label: label(id) }] + end_tb_ops(
            imm64(addr as u64),
            (id + 2 + cc_ids(cond)) as u64,
        )
    } else {
        end_tb_ops(imm64(addr as u64), id)
    }
}

/// What lowering B.cond does: with bit 4 or 24 set it is unallocated;
/// otherwise the block ends towards the target when the condition holds and
/// towards the next instruction when not.
pub open spec fn cond_b_done(
    new: Arm64GuestContext,
    old: Arm64GuestContext,
    r: Result<(), DisasException>,
    insn: u32,
) -> bool {
    if field(insn, 4, 1) == 1 || field(insn, 24, 1) == 1 {
        undef_done(new, old, r)
    } else {
        let addr = branch_target(old.spec_curr_pc(), sfield(insn, 5, 19));
        let next = old.spec_next_pc();
        let cond = field(insn, 0, 4) as u32;
        &&& new.lowered(old, r)
        &&& r == Err::<(), DisasException>(
            DisasException::Branch(
                Some(addr),
                if cond < 14 {
                    Some(next)
                } else {
                    None
                },
            ),
        )
        &&& new.emitted(
            old,
            cond_b_ops(cond, next, addr, old.ir.next_id),
            if cond < 14 {
                (3 + cc_ids(cond)) as u64
            } else {
                1
            },
        )
    }
}

/// B.cond: branch to `pc + 4 * imm19` when the condition holds; conditions 14
/// and 15 always branch.
pub fn disas_cond_b_imm(ctx: &mut Arm64GuestContext, insn: u32) -> (r: Result<(), DisasException>)
    requires
        old(ctx).lowerable(),
    ensures
        cond_b_done(*final(ctx), *old(ctx), r, insn),
{
    proof {
        lemma_small_pow2();
    }
    if extract(insn, 4, 1) == 1 || extract(insn, 24, 1) == 1 {
        return unallocated(ctx, insn);
    }
    let off = sextract(insn, 5, 19);
    let addr = pc_plus(ctx.curr_pc(), off);
    let cond = extract(insn, 0, 4);
    let addr_val = KHVal::u64(addr as u64);
    if cond < 14 {
        let lbl = ctx.ir.alloc_label();
        do_test_jump_cc(ctx, cond, lbl);
        let next_pc = KHVal::u64(ctx.next_pc() as u64);
        do_end_tb_to_addr(ctx, next_pc, true);
        Op::push_setlbl(&mut ctx.ir, lbl);
        do_end_tb_to_addr(ctx, addr_val, false);
        let r = Err(DisasException::Branch(Some(addr), Some(ctx.next_pc())));
        proof {
            let s = cond_b_ops(cond, old(ctx).spec_next_pc(), addr, old(ctx).ir.next_id);
            assert(ctx.ir.ops@ =~= old(ctx).ir.ops@ + s);
            lemma_lowered(*old(ctx), *ctx, s, (3 + cc_ids(cond)) as u64, r);
        }
        r
    } else {
        do_end_tb_to_addr(ctx, addr_val, false);
        let r = Err(DisasException::Branch(Some(addr), None));
        proof {
            let s = cond_b_ops(cond, old(ctx).spec_next_pc(), addr, old(ctx).ir.next_id);
            assert(ctx.ir.ops@ =~= old(ctx).ir.ops@ + s);
            lemma_lowered(*old(ctx), *ctx, s, 1, r);
        }
        r
    }
}

/// Ops of a compare-and-branch of register `rt` against zero.
pub open spec fn comp_b_ops(sf: bool, nonzero: bool, rt: nat, next: usize, addr: usize, id: u64) -> Seq<Op> {
    read_ops(reg_or_zero(rt), sf, id) + seq![
        Op::Brc {
            dest: label((id + 1) as u64),
            c1: temp(ValueType::U64, id),
            c2: imm64(0),
            cc: imm64(
                if nonzero {
                    COND_NE
                } else {
                    COND_EQ
                },
            ),
        },
    ] + end_tb_ops(imm64(next as u64), (id + 2) as u64) + seq![
        Op::Setlbl { label: label((id + 1) as u64) },
    ] + end_tb_ops(imm64(addr as u64), (id + 3) as u64)
}

/// What lowering CBZ or CBNZ does: the block ends towards the target when
/// the register compares and towards the next instruction when not.
pub open spec fn comp_b_done(
    new: Arm64GuestContext,
    old: Arm64GuestContext,
    r: Result<(), DisasException>,
    insn: u32,
) -> bool {
    let addr = branch_target(old.spec_curr_pc(), sfield(insn, 5, 19));
    let next = old.spec_next_pc();
    &&& new.lowered(old, r)
    &&& r == Err::<(), DisasException>(DisasException::Branch(Some(addr), Some(next)))
    &&& new.emitted(
        old,
        comp_b_ops(
            field(insn, 31, 1) == 1,
            field(insn, 24, 1) == 1,
            field(insn, 0, 5),
            next,
            addr,
            old.ir.next_id,
        ),
        4,
    )
}

/// CBZ and CBNZ: branch to `pc + 4 * imm19` when register `rt` is zero
/// (non-zero for CBNZ).
pub fn disas_comp_b_imm(ctx: &mut Arm64GuestContext, insn: u32) -> (r: Result<(), DisasException>)
    requires
        old(ctx).lowerable(),
    ensures
        comp_b_done(*final(ctx), *old(ctx), r, insn),
{
    proof {
        lemma_small_pow2();
    }
    let sf = extract(insn, 31, 1) == 1;
    let op = extract(insn, 24, 1) == 1;
    let rt = extract(insn, 0, 5);
    let off = sextract(insn, 5, 19);
    let addr = pc_plus(ctx.curr_pc(), off);
    let next_pc = KHVal::u64(ctx.next_pc() as u64);
    let addr_val = KHVal::u64(addr as u64);
    let cmp = read_cpu_reg(ctx, rt as usize, sf);
    let label_match = ctx.ir.alloc_label();
    let zero = KHVal::u64(0);
    let cc = if op {
        CondOp::new(COND_NE)
    } else {
        CondOp::new(COND_EQ)
    };
    Op::push_brc(&mut ctx.ir, label_match, cmp, zero, cc);
    do_end_tb_to_addr(ctx, next_pc, true);
    Op::push_setlbl(&mut ctx.ir, label_match);
    do_end_tb_to_addr(ctx, addr_val, false);
    let r = Err(DisasException::Branch(Some(addr), Some(ctx.next_pc())));
    proof {
        let s = comp_b_ops(sf, op, rt as nat, old(ctx).spec_next_pc(), addr, old(ctx).ir.next_id);
        assert(ctx.ir.ops@ =~= old(ctx).ir.ops@ + s);
        lemma_lowered(*old(ctx), *ctx, s, 4, r);
    }
    r
}

/// Ops of a branch to register `rn`, linking `next` into `x30` when `link`.
pub open spec fn b_reg_ops(link: bool, rn: nat, next: usize, id: u64) -> Seq<Op> {
    if link {
        mov_ops(temp(ValueType::U64, id), reg_or_zero(rn)) + seq![
            Op::Unary { opc: UnaryOpc::Mov, rd: xreg(30), rs1: imm64(next as u64) },
        ] + end_tb_ops(temp(ValueType::U64, id), (id + 1) as u64)
    } else {
        end_tb_ops(reg_or_zero(rn), id)
    }
}

/// Whether an unconditional branch to register is BR, BLR or RET.
pub open spec fn is_b_reg(insn: u32) -> bool {
    &&& field(insn, 16, 5) == 0x1f
    &&& field(insn, 21, 4) <= 2
    &&& field(insn, 10, 6) == 0
    &&& field(insn, 0, 5) == 0
}

/// What lowering an unconditional branch to register does: BR, BLR and RET
/// end the block towards the register's value; other encodings are
/// unallocated.
pub open spec fn b_reg_done(
    new: Arm64GuestContext,
    old: Arm64GuestContext,
    r: Result<(), DisasException>,
    insn: u32,
) -> bool {
    if !is_b_reg(insn) {
        undef_done(new, old, r)
    } else {
        let link = field(insn, 21, 4) == 1;
        &&& new.lowered(old, r)
        &&& r == Err::<(), DisasException>(DisasException::Branch(None, None))
        &&& new.emitted(
            old,
            b_reg_ops(link, field(insn, 5, 5), old.spec_next_pc(), old.ir.next_id),
            if link {
                2
            } else {
                1
            },
        )
    }
}

/// BR, BLR and RET: branch to the address in register `rn`; BLR writes the
/// return address to `x30`.  Other encodings of the group are unallocated.
pub fn disas_uncond_b_reg(ctx: &mut Arm64GuestContext, insn: u32) -> (r: Result<(), DisasException>)
    requires
        old(ctx).lowerable(),
    ensures
        b_reg_done(*final(ctx), *old(ctx), r, insn),
{
    proof {
        lemma_small_pow2();
    }
    let opc = extract(insn, 21, 4);
    let op2 = extract(insn, 16, 5);
    let op3 = extract(insn, 10, 6);
    let rn = extract(insn, 5, 5) as usize;
    let op4 = extract(insn, 0, 5);
    if op2 != 0x1f || opc > 2 || op3 != 0 || op4 != 0 {
        return unallocated(ctx, insn);
    }
    let ghost s: Seq<Op>;
    let ghost n: u64;
    if opc == 1 {
        let dst = ctx.ir.alloc_val(ValueType::U64);
        let src = ctx.reg(rn);
        Op::push_mov(&mut ctx.ir, dst, src);
        let ret_addr = KHVal::u64(ctx.next_pc() as u64);
        let x30 = ctx.reg(30);
        Op::push_mov(&mut ctx.ir, x30, ret_addr);
        do_end_tb_to_addr(ctx, dst, false);
        proof {
            s = b_reg_ops(true, rn as nat, old(ctx).spec_next_pc(), old(ctx).ir.next_id);
            n = 2;
        }
    } else {
        let dst = ctx.reg(rn);
        do_end_tb_to_addr(ctx, dst, false);
        proof {
            s = b_reg_ops(false, rn as nat, old(ctx).spec_next_pc(), old(ctx).ir.next_id);
            n = 1;
        }
    }
    let r = Err(DisasException::Branch(None, None));
    proof {
        assert(ctx.ir.ops@ =~= old(ctx).ir.ops@ + s);
        lemma_lowered(*old(ctx), *ctx, s, n, r);
    }
    r
}

/// TBZ and TBNZ are not lowered yet.
pub fn disas_test_b_imm(ctx: &mut Arm64GuestContext, insn: u32) -> (r: Result<(), DisasException>)
    ensures
        r matches Err(DisasException::Unexpected(_)),
        *final(ctx) == *old(ctx),
{
    not_implemented(ctx, insn, "test_b_imm")
}

/// Exception generation is not lowered yet.
pub fn disas_exc(ctx: &mut Arm64GuestContext, insn: u32) -> (r: Result<(), DisasException>)
    ensures
        r matches Err(DisasException::Unexpected(_)),
        *final(ctx) == *old(ctx),
{
    not_implemented(ctx, insn, "exc")
}

/// What lowering an exception or system instruction does: system
/// instructions need bits 23:22 clear; exception generation is not lowered yet.
pub open spec fn exc_sys_done(
    new: Arm64GuestContext,
    old: Arm64GuestContext,
    r: Result<(), DisasException>,
    insn: u32,
) -> bool {
    &&& new.lowered(old, r)
    &&& if field(insn, 24, 1) == 0 {
        unimpl(new, old, r)
    } else if field(insn, 22, 2) == 0 {
        crate::arm64::system::system_done(new, old, r, insn)
    } else {
        undef_done(new, old, r)
    }
}

/// Exceptions and system instructions: bit 24 selects system instructions,
/// which need bits 23:22 clear.
pub fn disas_exc_sys(ctx: &mut Arm64GuestContext, insn: u32) -> (r: Result<(), DisasException>)
    requires
        old(ctx).lowerable(),
    ensures
        exc_sys_done(*final(ctx), *old(ctx), r, insn),
{
    proof {
        lemma_small_pow2();
    }
    if extract(insn, 24, 1) == 1 {
        if extract(insn, 22, 2) == 0 {
            crate::arm64::system::disas_system(ctx, insn)
        } else {
            unallocated(ctx, insn)
        }
    } else {
        let r = disas_exc(ctx, insn);
        proof {
            crate::arm64::system::lemma_unchanged_lowered(*ctx, r);
        }
        r
    }
}

} // verus!
