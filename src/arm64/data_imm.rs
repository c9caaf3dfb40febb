use crate::arm64::facility::{
    add_cc_ops, bit, do_add_cc, do_logic_cc, do_sub_cc, lemma_bit_ones, lemma_bit_or_and,
    logic_cc_ops, logic_imm_decode_wmask, step, sub_cc_ops, wmask_bit, wmask_esize, wmask_valid,
};
use crate::arm64::{
    lemma_lowered, not_implemented, reg_or_zero, unallocated, undef_done, undef_ops, unimpl, xreg,
    Arm64GuestContext,
};
use crate::bits::{extract, field, lemma_small_pow2, sextract, sfield};
use crate::guest::DisasException;
use crate::ir::make::{add_ops, extulq_ops, mov_ops, sub_ops};
use crate::ir::op::{BinaryOpc, Op};
use crate::ir::storage::{imm64, temp, KHVal, ValueType};
use vstd::prelude::*;

verus! {

/// The immediate of an add/subtract (immediate) instruction, shifted by 12
/// when `sh` is set.
pub open spec fn add_sub_imm_value(insn: u32) -> u64 {
    if field(insn, 22, 2) == 1 {
        (field(insn, 10, 12) * 4096) as u64
    } else {
        field(insn, 10, 12) as u64
    }
}

/// Ops of an add/subtract (immediate) instruction.
pub open spec fn add_sub_imm_ops(insn: u32, id: u64) -> Seq<Op> {
    let rd = field(insn, 0, 5);
    let rn_v = xreg(field(insn, 5, 5));
    let setflags = field(insn, 29, 1) == 1;
    let sub = field(insn, 30, 1) == 1;
    let sf = field(insn, 31, 1) == 1;
    let imm = imm64(add_sub_imm_value(insn));
    let result = temp(ValueType::U64, id);
    if !setflags && sf {
        if sub {
            sub_ops(xreg(rd), rn_v, imm)
        } else {
            add_ops(xreg(rd), rn_v, imm)
        }
    } else {
        let rd_v = if setflags {
            reg_or_zero(rd)
        } else {
            xreg(rd)
        };
        (if !setflags {
            if sub {
                sub_ops(result, rn_v, imm)
            } else {
                add_ops(result, rn_v, imm)
            }
        } else if sub {
            sub_cc_ops(sf, result, rn_v, imm, (id + 1) as u64)
        } else {
            add_cc_ops(sf, result, rn_v, imm, (id + 1) as u64)
        }) + if sf {
            mov_ops(rd_v, result)
        } else {
            extulq_ops(rd_v, result)
        }
    }
}

/// Ids that an add/subtract (immediate) instruction allocates.
pub open spec fn add_sub_imm_ids(insn: u32) -> u64 {
    let setflags = field(insn, 29, 1) == 1;
    let sf = field(insn, 31, 1) == 1;
    if !setflags && sf {
        0
    } else if !setflags {
        1
    } else if sf {
        5
    } else {
        4
    }
}

/// What lowering an add/subtract (immediate) instruction does: a shift
/// field above 1 is unallocated.
pub open spec fn add_sub_imm_done(
    new: Arm64GuestContext,
    old: Arm64GuestContext,
    r: Result<(), DisasException>,
    insn: u32,
) -> bool {
    &&& r is Ok
    &&& new.lowered(old, r)
    &&& if field(insn, 22, 2) > 1 {
        new.emitted(old, undef_ops(old), 1)
    } else {
        new.emitted(old, add_sub_imm_ops(insn, old.ir.next_id), add_sub_imm_ids(insn))
    }
}

/// ADD, ADDS, SUB and SUBS with a 12-bit immediate, optionally shifted by 12;
/// the forms without flags may use SP, and 32-bit results are zero-extended.
pub fn disas_add_sub_imm(ctx: &mut Arm64GuestContext, insn: u32) -> (r: Result<(), DisasException>)
    requires
        old(ctx).lowerable(),
    ensures
        add_sub_imm_done(*final(ctx), *old(ctx), r, insn),
{
    proof {
        lemma_small_pow2();
    }
    let rd = extract(insn, 0, 5) as usize;
    let rn = extract(insn, 5, 5) as usize;
    let shift = extract(insn, 22, 2);
    let setflags = extract(insn, 29, 1) == 1;
    let sub_op = extract(insn, 30, 1) == 1;
    let is_64bit = extract(insn, 31, 1) == 1;
    let mut imm = extract(insn, 10, 12) as u64;
    if shift == 1 {
        imm = imm * 4096;
    } else if shift != 0 {
        return unallocated(ctx, insn);
    }
    let ghost id = old(ctx).ir.next_id;
    let rn_v = ctx.reg_sp(rn);
    let imm_v = KHVal::u64(imm);
    if !setflags && is_64bit {
        let rd_v = ctx.reg_sp(rd);
        if sub_op {
            Op::push_sub(&mut ctx.ir, rd_v, rn_v, imm_v);
        } else {
            Op::push_add(&mut ctx.ir, rd_v, rn_v, imm_v);
        }
        proof {
            assert(ctx.ir.ops@ =~= old(ctx).ir.ops@ + add_sub_imm_ops(insn, id));
            lemma_lowered(*old(ctx), *ctx, add_sub_imm_ops(insn, id), 0, Ok(()));
        }
        return Ok(());
    }
    let rd_v = if setflags {
        ctx.reg(rd)
    } else {
        ctx.reg_sp(rd)
    };
    let result = ctx.ir.alloc_val(ValueType::U64);
    let ghost mid = *ctx;
    if !setflags {
        if sub_op {
            Op::push_sub(&mut ctx.ir, result, rn_v, imm_v);
        } else {
            Op::push_add(&mut ctx.ir, result, rn_v, imm_v);
        }
    } else if sub_op {
        do_sub_cc(ctx, is_64bit, result, rn_v, imm_v);
    } else {
        do_add_cc(ctx, is_64bit, result, rn_v, imm_v);
    }
    let ghost mid2 = *ctx;
    if is_64bit {
        Op::push_mov(&mut ctx.ir, rd_v, result);
    } else {
        Op::push_extulq(&mut ctx.ir, rd_v, result);
    }
    proof {
        let part = if !setflags {
            if sub_op {
                sub_ops(result, rn_v, imm_v)
            } else {
                add_ops(result, rn_v, imm_v)
            }
        } else if sub_op {
            sub_cc_ops(is_64bit, result, rn_v, imm_v, (id + 1) as u64)
        } else {
            add_cc_ops(is_64bit, result, rn_v, imm_v, (id + 1) as u64)
        };
        assert(mid2.ir.ops@ == mid.ir.ops@ + part);
        assert(ctx.ir.ops@ =~= old(ctx).ir.ops@ + add_sub_imm_ops(insn, id));
        lemma_lowered(*old(ctx), *ctx, add_sub_imm_ops(insn, id), add_sub_imm_ids(insn), Ok(()));
    }
    Ok(())
}

/// The constant that MOVN (`opc` 0) or MOVZ writes: the 16-bit immediate at
/// bit `pos`, inverted for MOVN, cut to 32 bits for a 32-bit register.
pub open spec fn movw_value(imm: u64, pos: u64, opc: nat, sf: bool) -> u64 {
    let v = imm << pos;
    let v = if opc == 0 {
        !v
    } else {
        v
    };
    if sf {
        v
    } else {
        v & 0xffff_ffff
    }
}

/// Ops of a move-wide instruction.
pub open spec fn movw_ops(insn: u32) -> Seq<Op> {
    let rd = reg_or_zero(field(insn, 0, 5));
    let sf = field(insn, 31, 1) == 1;
    let opc = field(insn, 29, 2);
    let pos = (field(insn, 21, 2) * 16) as u64;
    let imm = field(insn, 5, 16) as u64;
    if opc == 3 {
        seq![Op::Depos { rd, rs1: rd, rs2: imm64(imm), ofs: imm64(pos), len: imm64(16) }] + if sf {
            seq![]
        } else {
            extulq_ops(rd, rd)
        }
    } else {
        mov_ops(rd, imm64(movw_value(imm, pos, opc, sf)))
    }
}

/// What lowering a move-wide instruction does: `opc` 1 and 32-bit forms at
/// bit 32 or above are unallocated.
pub open spec fn movw_done(
    new: Arm64GuestContext,
    old: Arm64GuestContext,
    r: Result<(), DisasException>,
    insn: u32,
) -> bool {
    &&& r is Ok
    &&& new.lowered(old, r)
    &&& if (field(insn, 31, 1) == 0 && field(insn, 21, 2) >= 2) || field(insn, 29, 2) == 1 {
        new.emitted(old, undef_ops(old), 1)
    } else {
        new.emitted(old, movw_ops(insn), 0)
    }
}

/// MOVN, MOVZ and MOVK: write a 16-bit immediate at a multiple of 16 bits,
/// inverted (MOVN), alone (MOVZ) or into the register's other bits (MOVK).
pub fn disas_movw_imm(ctx: &mut Arm64GuestContext, insn: u32) -> (r: Result<(), DisasException>)
    requires
        old(ctx).lowerable(),
    ensures
        movw_done(*final(ctx), *old(ctx), r, insn),
{
    proof {
        lemma_small_pow2();
    }
    let rd = extract(insn, 0, 5) as usize;
    let sf = extract(insn, 31, 1) == 1;
    let opc = extract(insn, 29, 2);
    let pos = extract(insn, 21, 2) as u64 * 16;
    let imm = extract(insn, 5, 16) as u64;
    if !sf && pos >= 32 {
        return unallocated(ctx, insn);
    }
    if opc == 1 {
        return unallocated(ctx, insn);
    }
    let rd_v = ctx.reg(rd);
    if opc == 3 {
        let imm_v = KHVal::u64(imm);
        Op::push_depos(&mut ctx.ir, rd_v, rd_v, imm_v, pos, 16);
        if !sf {
            Op::push_extulq(&mut ctx.ir, rd_v, rd_v);
        }
    } else {
        let mut v = imm << pos;
        if opc == 0 {
            v = !v;
        }
        if !sf {
            v = v & 0xffff_ffff;
        }
        let imm_v = KHVal::u64(v);
        Op::push_mov(&mut ctx.ir, rd_v, imm_v);
    }
    proof {
        assert(ctx.ir.ops@ =~= old(ctx).ir.ops@ + movw_ops(insn));
        lemma_lowered(*old(ctx), *ctx, movw_ops(insn), 0, Ok(()));
    }
    Ok(())
}

/// The address ADR (`page` clear) or ADRP computes at `pc`: `pc` plus the
/// 21-bit offset, or the 4 KiB page of `pc` plus the offset in pages.
pub open spec fn adr_value(pc: usize, insn: u32) -> u64 {
    let off = sfield(insn, 5, 19) * 4 + field(insn, 29, 2);
    if field(insn, 31, 1) == 1 {
        ((pc - pc % 4096) + off * 4096) as u64
    } else {
        (pc + off) as u64
    }
}

/// What lowering ADR or ADRP does: the address is moved into the register.
pub open spec fn pc_rel_done(
    new: Arm64GuestContext,
    old: Arm64GuestContext,
    r: Result<(), DisasException>,
    insn: u32,
) -> bool {
    &&& r is Ok
    &&& new.lowered(old, r)
    &&& new.emitted(
        old,
        mov_ops(reg_or_zero(field(insn, 0, 5)), imm64(adr_value(old.spec_curr_pc(), insn))),
        0,
    )
}

/// ADR and ADRP: write a PC-relative address.
pub fn disas_pc_rel_addr(ctx: &mut Arm64GuestContext, insn: u32) -> (r: Result<(), DisasException>)
    requires
        old(ctx).lowerable(),
    ensures
        pc_rel_done(*final(ctx), *old(ctx), r, insn),
{
    proof {
        lemma_small_pow2();
    }
    let page = extract(insn, 31, 1);
    let rd = extract(insn, 0, 5) as usize;
    let rd_v = ctx.reg(rd);
    let immhi = sextract(insn, 5, 19);
    let immlo = extract(insn, 29, 2) as i64;
    let mut offset: i64 = immhi * 4 + immlo;
    let mut base = ctx.curr_pc();
    if page == 1 {
        base = base - base % 4096;
        offset = offset * 4096;
    }
    let val = KHVal::u64((base as i64 + offset) as u64);
    Op::push_mov(&mut ctx.ir, rd_v, val);
    proof {
        let s = mov_ops(reg_or_zero(rd as nat), imm64(adr_value(old(ctx).spec_curr_pc(), insn)));
        assert(ctx.ir.ops@ =~= old(ctx).ir.ops@ + s);
        lemma_lowered(*old(ctx), *ctx, s, 0, Ok(()));
    }
    Ok(())
}

/// The mask `w` is the logical immediate of the instruction, cut to 32 bits
/// for a 32-bit register.
pub open spec fn logic_imm_mask(insn: u32, w: u64) -> bool {
    let sf = field(insn, 31, 1) == 1;
    let immn = field(insn, 22, 1) as u32;
    let imms = field(insn, 10, 6) as u32;
    let immr = field(insn, 16, 6) as u32;
    let e = wmask_esize(immn, imms);
    forall|i: u64|
        i < 64 ==> bit(w, i) == ((sf || i < 32) && wmask_bit(
            e,
            (imms as u64) % e,
            (immr as u64) % e,
            i,
        ))
}

/// The logical operator of a logical (immediate) instruction.
pub open spec fn logic_imm_opc(opc: nat) -> BinaryOpc {
    if opc == 1 {
        BinaryOpc::Or
    } else if opc == 2 {
        BinaryOpc::Xor
    } else {
        BinaryOpc::And
    }
}

/// Ops of a logical (immediate) instruction with mask `w`.
pub open spec fn logic_imm_ops(insn: u32, w: u64) -> Seq<Op> {
    let sf = field(insn, 31, 1) == 1;
    let opc = field(insn, 29, 2);
    let rd = if opc == 3 {
        reg_or_zero(field(insn, 0, 5))
    } else {
        xreg(field(insn, 0, 5))
    };
    let rn = reg_or_zero(field(insn, 5, 5));
    seq![Op::Binary { opc: logic_imm_opc(opc), rd, rs1: rn, rs2: imm64(w) }] + (if !sf && (opc == 1
        || opc == 2) {
        extulq_ops(rd, rd)
    } else {
        seq![]
    }) + if opc == 3 {
        logic_cc_ops(sf, rd)
    } else {
        seq![]
    }
}

/// What lowering a logical (immediate) instruction does: a 32-bit form with
/// `N` set and a reserved bitmask are unallocated.
pub open spec fn logic_imm_done(
    new: Arm64GuestContext,
    old: Arm64GuestContext,
    r: Result<(), DisasException>,
    insn: u32,
) -> bool {
    &&& r is Ok
    &&& new.lowered(old, r)
    &&& if (field(insn, 31, 1) == 0 && field(insn, 22, 1) == 1) || !wmask_valid(
        field(insn, 22, 1) as u32,
        field(insn, 10, 6) as u32,
    ) {
        new.emitted(old, undef_ops(old), 1)
    } else {
        exists|w: u64| logic_imm_mask(insn, w) && new.emitted(old, logic_imm_ops(insn, w), 0)
    }
}

/// AND, ORR, EOR and ANDS with a bitmask immediate; the forms without flags
/// may write SP.
pub fn disas_logic_imm(ctx: &mut Arm64GuestContext, insn: u32) -> (r: Result<(), DisasException>)
    requires
        old(ctx).lowerable(),
    ensures
        logic_imm_done(*final(ctx), *old(ctx), r, insn),
{
    proof {
        lemma_small_pow2();
    }
    let sf = extract(insn, 31, 1) == 1;
    let opc = extract(insn, 29, 2);
    let is_n = extract(insn, 22, 1);
    let immr = extract(insn, 16, 6);
    let imms = extract(insn, 10, 6);
    let rn = extract(insn, 5, 5) as usize;
    let rd = extract(insn, 0, 5) as usize;
    if !sf && is_n == 1 {
        return unallocated(ctx, insn);
    }
    let rd_v = if opc == 3 {
        ctx.reg(rd)
    } else {
        ctx.reg_sp(rd)
    };
    let rn_v = ctx.reg(rn);
    let decoded = logic_imm_decode_wmask(is_n, imms, immr);
    let mut w = match decoded {
        None => {
            return unallocated(ctx, insn);
        },
        Some(w) => w,
    };
    if !sf {
        let ghost w0 = w;
        w = w & 0xffff_ffff;
        proof {
            assert forall|i: u64| i < 64 implies bit(w, i) == (i < 32 && bit(w0, i)) by {
                lemma_bit_or_and(w0, 0xffff_ffff, i);
                lemma_bit_ones(32, i);
                assert(((1u64 << 32u64) - 1) as u64 == 0xffff_ffffu64) by (bit_vector);
            }
        }
    }
    proof {
        assert(logic_imm_mask(insn, w));
    }
    let op = if opc == 1 {
        BinaryOpc::Or
    } else if opc == 2 {
        BinaryOpc::Xor
    } else {
        BinaryOpc::And
    };
    let wmask = KHVal::u64(w);
    Op::push_binary(&mut ctx.ir, op, rd_v, rn_v, wmask);
    if !sf && (opc == 1 || opc == 2) {
        Op::push_extulq(&mut ctx.ir, rd_v, rd_v);
    }
    if opc == 3 {
        do_logic_cc(ctx, sf, rd_v);
    }
    proof {
        assert(ctx.ir.ops@ =~= old(ctx).ir.ops@ + logic_imm_ops(insn, w));
        lemma_lowered(*old(ctx), *ctx, logic_imm_ops(insn, w), 0, Ok(()));
    }
    Ok(())
}

/// Bit-field moves are not lowered yet.
pub fn disas_bitfield(ctx: &mut Arm64GuestContext, insn: u32) -> (r: Result<(), DisasException>)
    ensures
        r matches Err(DisasException::Unexpected(_)),
        *final(ctx) == *old(ctx),
{
    not_implemented(ctx, insn, "bitfield")
}

/// Extracts from a register pair are not lowered yet.
pub fn disas_extract(ctx: &mut Arm64GuestContext, insn: u32) -> (r: Result<(), DisasException>)
    ensures
        r matches Err(DisasException::Unexpected(_)),
        *final(ctx) == *old(ctx),
{
    not_implemented(ctx, insn, "extract")
}

} // verus!
