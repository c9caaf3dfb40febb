use crate::arm64::facility::{
    add_cc_ops, cc_cond, cc_ids, cc_ops, cc_value, do_add_cc, do_ext_and_shift_reg, do_logic_cc,
    do_shift, do_sub_cc, ext_shift_ops, logic_cc_ops, read_cpu_reg, read_cpu_reg_sp, read_ops,
    shift_ids, shift_ops, step, sub_cc_ops, test_cc, Arm64CC,
};
use crate::arm64::{
    lemma_lowered, not_implemented, reg_or_zero, unallocated, undef_done, undef_ops, unimpl, xreg,
    Arm64GuestContext,
};
use crate::bits::{extract, field, lemma_small_pow2};
use crate::guest::DisasException;
use crate::ir::make::{add_ops, extulq_ops, mov_ops, sub_ops};
use crate::ir::op::{BinaryOpc, CondOp, ConvertOpc, Op, UnaryOpc};
use crate::ir::storage::{imm64, temp, KHVal, ValueType};
use vstd::prelude::*;

verus! {

/// The operator of a logical (shifted register) instruction from `opc` and `N`.
pub open spec fn logic_opc(opc: nat, invert: nat) -> BinaryOpc {
    let k = opc + 4 * invert;
    if k == 0 || k == 3 {
        BinaryOpc::And
    } else if k == 1 {
        BinaryOpc::Or
    } else if k == 2 {
        BinaryOpc::Xor
    } else if k == 4 || k == 7 {
        BinaryOpc::Andc
    } else if k == 5 {
        BinaryOpc::Orc
    } else {
        BinaryOpc::Eqv
    }
}

/// The logical instruction is the register move alias: unshifted ORR or ORN
/// with the zero register.
pub open spec fn is_mov_alias(insn: u32) -> bool {
    field(insn, 29, 2) == 1 && field(insn, 10, 6) == 0 && field(insn, 22, 2) == 0 && field(insn, 5, 5)
        == 31
}

/// Ops of a logical (shifted register) instruction, with temporaries from `id` on.
pub open spec fn logic_reg_ops(insn: u32, id: u64) -> Seq<Op> {
    let sf = field(insn, 31, 1) == 1;
    let opc = field(insn, 29, 2);
    let st = field(insn, 22, 2) as u32;
    let invert = field(insn, 21, 1);
    let rm = reg_or_zero(field(insn, 16, 5));
    let shift = field(insn, 10, 6) as u32;
    let rn = reg_or_zero(field(insn, 5, 5));
    let rd = reg_or_zero(field(insn, 0, 5));
    let zext = if sf {
        seq![]
    } else {
        extulq_ops(rd, rd)
    };
    if is_mov_alias(insn) {
        if invert == 1 {
            seq![Op::Unary { opc: UnaryOpc::Not, rd, rs1: rm }] + zext
        } else if sf {
            mov_ops(rd, rm)
        } else {
            extulq_ops(rd, rm)
        }
    } else {
        let t = temp(ValueType::U64, id);
        let operand = if shift == 0 {
            t
        } else {
            temp(ValueType::U64, (id + 1) as u64)
        };
        read_ops(rm, sf, id) + (if shift == 0 {
            seq![]
        } else {
            shift_ops(operand, t, sf, st, imm64(shift as u64), (id + 2) as u64)
        }) + seq![Op::Binary { opc: logic_opc(opc, invert), rd, rs1: rn, rs2: operand }] + zext
            + if opc == 3 {
            logic_cc_ops(sf, rd)
        } else {
            seq![]
        }
    }
}

/// Ids that a logical (shifted register) instruction allocates.
pub open spec fn logic_reg_ids(insn: u32) -> u64 {
    if is_mov_alias(insn) {
        0
    } else if field(insn, 10, 6) == 0 {
        1
    } else {
        (2 + shift_ids(field(insn, 31, 1) == 1, field(insn, 22, 2) as u32)) as u64
    }
}

/// What lowering a logical (shifted register) instruction does: a 32-bit form
/// with a shift of 32 or more is unallocated.
pub open spec fn logic_reg_done(
    new: Arm64GuestContext,
    old: Arm64GuestContext,
    r: Result<(), DisasException>,
    insn: u32,
) -> bool {
    &&& r is Ok
    &&& new.lowered(old, r)
    &&& if field(insn, 31, 1) == 0 && field(insn, 10, 6) >= 32 {
        new.emitted(old, undef_ops(old), 1)
    } else {
        new.emitted(old, logic_reg_ops(insn, old.ir.next_id), logic_reg_ids(insn))
    }
}

/// AND, ORR, EOR, BIC, ORN, EON, ANDS and BICS on a shifted register; ORR
/// and ORN with the zero register are register moves.
pub fn disas_logic_reg(ctx: &mut Arm64GuestContext, insn: u32) -> (r: Result<(), DisasException>)
    requires
        old(ctx).lowerable(),
    ensures
        logic_reg_done(*final(ctx), *old(ctx), r, insn),
{
    proof {
        lemma_small_pow2();
    }
    let sf = extract(insn, 31, 1) == 1;
    let opc = extract(insn, 29, 2);
    let shift_type = extract(insn, 22, 2);
    let invert = extract(insn, 21, 1);
    let rm = extract(insn, 16, 5) as usize;
    let shift_amount = extract(insn, 10, 6);
    let rn = extract(insn, 5, 5) as usize;
    let rd = extract(insn, 0, 5) as usize;
    if !sf && shift_amount >= 32 {
        return unallocated(ctx, insn);
    }
    let ghost id = old(ctx).ir.next_id;
    let rd_v = ctx.reg(rd);
    if opc == 1 && shift_amount == 0 && shift_type == 0 && rn == 31 {
        let rm_v = ctx.reg(rm);
        if invert == 1 {
            Op::push_unary(&mut ctx.ir, UnaryOpc::Not, rd_v, rm_v);
            if !sf {
                Op::push_extulq(&mut ctx.ir, rd_v, rd_v);
            }
        } else if sf {
            Op::push_mov(&mut ctx.ir, rd_v, rm_v);
        } else {
            Op::push_extulq(&mut ctx.ir, rd_v, rm_v);
        }
        proof {
            assert(ctx.ir.ops@ =~= old(ctx).ir.ops@ + logic_reg_ops(insn, id));
            lemma_lowered(*old(ctx), *ctx, logic_reg_ops(insn, id), 0, Ok(()));
        }
        return Ok(());
    }
    let rm_t = read_cpu_reg(ctx, rm, sf);
    let operand = if shift_amount != 0 {
        let sh = ctx.ir.alloc_val(ValueType::U64);
        let amt = KHVal::u64(shift_amount as u64);
        do_shift(ctx, sh, rm_t, sf, shift_type, amt);
        sh
    } else {
        rm_t
    };
    let ghost acc = read_ops(reg_or_zero(rm as nat), sf, id) + (if shift_amount == 0 {
        seq![]
    } else {
        shift_ops(operand, rm_t, sf, shift_type, imm64(shift_amount as u64), (id + 2) as u64)
    });
    proof {
        assert(ctx.ir.ops@ =~= old(ctx).ir.ops@ + acc);
    }
    let rn_v = ctx.reg(rn);
    let k = opc + 4 * invert;
    let op = if k == 0 || k == 3 {
        BinaryOpc::And
    } else if k == 1 {
        BinaryOpc::Or
    } else if k == 2 {
        BinaryOpc::Xor
    } else if k == 4 || k == 7 {
        BinaryOpc::Andc
    } else if k == 5 {
        BinaryOpc::Orc
    } else {
        BinaryOpc::Eqv
    };
    proof {
        assert(op == logic_opc(opc as nat, invert as nat));
    }
    Op::push_binary(&mut ctx.ir, op, rd_v, rn_v, operand);
    proof {
        acc = acc + seq![Op::Binary { opc: op, rd: rd_v, rs1: rn_v, rs2: operand }];
        assert(ctx.ir.ops@ =~= old(ctx).ir.ops@ + acc);
    }
    if !sf {
        Op::push_extulq(&mut ctx.ir, rd_v, rd_v);
    }
    proof {
        acc = acc + if sf {
            seq![]
        } else {
            extulq_ops(rd_v, rd_v)
        };
        assert(ctx.ir.ops@ =~= old(ctx).ir.ops@ + acc);
    }
    if opc == 3 {
        do_logic_cc(ctx, sf, rd_v);
    }
    proof {
        acc = acc + if opc == 3 {
            logic_cc_ops(sf, rd_v)
        } else {
            seq![]
        };
        assert(ctx.ir.ops@ =~= old(ctx).ir.ops@ + acc);
        assert(acc =~= logic_reg_ops(insn, id));
        lemma_lowered(*old(ctx), *ctx, logic_reg_ops(insn, id), logic_reg_ids(insn), Ok(()));
    }
    Ok(())
}

/// Ops of an add/subtract (extended register) instruction.
pub open spec fn add_sub_ext_ops(insn: u32, id: u64) -> Seq<Op> {
    let rd = field(insn, 0, 5);
    let imm3 = field(insn, 10, 3) as u32;
    let option = field(insn, 13, 3) as u32;
    let setflags = field(insn, 29, 1) == 1;
    let sub = field(insn, 30, 1) == 1;
    let sf = field(insn, 31, 1) == 1;
    let rd_v = if setflags {
        reg_or_zero(rd)
    } else {
        xreg(rd)
    };
    let rn_t = temp(ValueType::U64, id);
    let rm_t = temp(ValueType::U64, (id + 1) as u64);
    let ext = temp(ValueType::U64, (id + 2) as u64);
    let e_ids: u64 = if imm3 != 0 {
        1
    } else {
        0
    };
    let result = temp(ValueType::U64, (id + 3 + e_ids) as u64);
    read_ops(xreg(field(insn, 5, 5)), sf, id) + read_ops(
        reg_or_zero(field(insn, 16, 5)),
        sf,
        (id + 1) as u64,
    ) + ext_shift_ops(ext, rm_t, option, imm3, (id + 3) as u64) + (if !setflags {
        if sub {
            sub_ops(result, rn_t, ext)
        } else {
            add_ops(result, rn_t, ext)
        }
    } else if sub {
        sub_cc_ops(sf, result, rn_t, ext, (id + 4 + e_ids) as u64)
    } else {
        add_cc_ops(sf, result, rn_t, ext, (id + 4 + e_ids) as u64)
    }) + if sf {
        mov_ops(rd_v, result)
    } else {
        extulq_ops(rd_v, result)
    }
}

/// Ids that an add/subtract (extended register) instruction allocates.
pub open spec fn add_sub_ext_ids(insn: u32) -> u64 {
    let e_ids: u64 = if field(insn, 10, 3) != 0 {
        1
    } else {
        0
    };
    if field(insn, 29, 1) == 0 {
        (4 + e_ids) as u64
    } else if field(insn, 31, 1) == 1 {
        (8 + e_ids) as u64
    } else {
        (7 + e_ids) as u64
    }
}

/// What lowering an add/subtract (extended register) instruction does: a
/// shift above 4 or a non-zero `opt` is unallocated.
pub open spec fn add_sub_ext_done(
    new: Arm64GuestContext,
    old: Arm64GuestContext,
    r: Result<(), DisasException>,
    insn: u32,
) -> bool {
    &&& r is Ok
    &&& new.lowered(old, r)
    &&& if field(insn, 10, 3) > 4 || field(insn, 22, 2) != 0 {
        new.emitted(old, undef_ops(old), 1)
    } else {
        new.emitted(old, add_sub_ext_ops(insn, old.ir.next_id), add_sub_ext_ids(insn))
    }
}

/// ADD, ADDS, SUB and SUBS with an extended, shifted second register; the
/// forms without flags may use SP.
pub fn disas_add_sub_ext_reg(ctx: &mut Arm64GuestContext, insn: u32) -> (r: Result<
    (),
    DisasException,
>)
    requires
        old(ctx).lowerable(),
    ensures
        add_sub_ext_done(*final(ctx), *old(ctx), r, insn),
{
    proof {
        lemma_small_pow2();
    }
    let rd = extract(insn, 0, 5) as usize;
    let rn = extract(insn, 5, 5) as usize;
    let imm3 = extract(insn, 10, 3);
    let option = extract(insn, 13, 3);
    let rm = extract(insn, 16, 5) as usize;
    let opt = extract(insn, 22, 2);
    let setflags = extract(insn, 29, 1) == 1;
    let sub_op = extract(insn, 30, 1) == 1;
    let sf = extract(insn, 31, 1) == 1;
    if imm3 > 4 || opt != 0 {
        return unallocated(ctx, insn);
    }
    let ghost id = old(ctx).ir.next_id;
    let rd_v = if setflags {
        ctx.reg(rd)
    } else {
        ctx.reg_sp(rd)
    };
    let rn_t = read_cpu_reg_sp(ctx, rn, sf);
    let rm_t = read_cpu_reg(ctx, rm, sf);
    let ext = ctx.ir.alloc_val(ValueType::U64);
    do_ext_and_shift_reg(ctx, ext, rm_t, option, imm3);
    let ghost acc = read_ops(xreg(rn as nat), sf, id) + read_ops(
        reg_or_zero(rm as nat),
        sf,
        (id + 1) as u64,
    ) + ext_shift_ops(ext, rm_t, option, imm3, (id + 3) as u64);
    proof {
        assert(ctx.ir.ops@ =~= old(ctx).ir.ops@ + acc);
    }
    let result = ctx.ir.alloc_val(ValueType::U64);
    let ghost mid = *ctx;
    if !setflags {
        if sub_op {
            Op::push_sub(&mut ctx.ir, result, rn_t, ext);
        } else {
            Op::push_add(&mut ctx.ir, result, rn_t, ext);
        }
    } else if sub_op {
        do_sub_cc(ctx, sf, result, rn_t, ext);
    } else {
        do_add_cc(ctx, sf, result, rn_t, ext);
    }
    proof {
        let part = if !setflags {
            if sub_op {
                sub_ops(result, rn_t, ext)
            } else {
                add_ops(result, rn_t, ext)
            }
        } else if sub_op {
            sub_cc_ops(sf, result, rn_t, ext, mid.ir.next_id)
        } else {
            add_cc_ops(sf, result, rn_t, ext, mid.ir.next_id)
        };
        assert(ctx.ir.ops@ == mid.ir.ops@ + part);
        acc = acc + part;
        assert(ctx.ir.ops@ =~= old(ctx).ir.ops@ + acc);
    }
    if sf {
        Op::push_mov(&mut ctx.ir, rd_v, result);
    } else {
        Op::push_extulq(&mut ctx.ir, rd_v, result);
    }
    proof {
        acc = acc + if sf {
            mov_ops(rd_v, result)
        } else {
            extulq_ops(rd_v, result)
        };
        assert(ctx.ir.ops@ =~= old(ctx).ir.ops@ + acc);
        assert(acc =~= add_sub_ext_ops(insn, id));
        lemma_lowered(*old(ctx), *ctx, add_sub_ext_ops(insn, id), add_sub_ext_ids(insn), Ok(()));
    }
    Ok(())
}

/// Ops of a conditional select instruction.
pub open spec fn cond_select_ops(insn: u32, id: u64) -> Seq<Op> {
    let sf = field(insn, 31, 1) == 1;
    let else_inv = field(insn, 30, 1) == 1;
    let rm = field(insn, 16, 5);
    let cond = field(insn, 12, 4) as u32;
    let else_inc = field(insn, 10, 1) == 1;
    let rn = field(insn, 5, 5);
    let rd = reg_or_zero(field(insn, 0, 5));
    let value = temp(ValueType::U64, (id + cc_ids(cond)) as u64);
    let t_false = temp(ValueType::U64, (id + cc_ids(cond) + 1) as u64);
    let t_else = if else_inv || else_inc {
        temp(ValueType::U64, (id + cc_ids(cond) + 2) as u64)
    } else {
        t_false
    };
    cc_ops(cond, id) + seq![
        Op::Convert { opc: ConvertOpc::ExtSlq, rd: value, rs: cc_value(cond, id) },
    ] + (if rn == 31 && rm == 31 && else_inc != else_inv {
        seq![
            Op::Setc { rd, c1: value, c2: imm64(0), cc: imm64(CondOp::inverted(cc_cond(cond))) },
        ] + if else_inv {
            seq![Op::Unary { opc: UnaryOpc::Neg, rd, rs1: rd }]
        } else {
            seq![]
        }
    } else {
        read_ops(reg_or_zero(rm), true, (id + cc_ids(cond) + 1) as u64) + (if else_inv && else_inc {
            seq![Op::Unary { opc: UnaryOpc::Neg, rd: t_else, rs1: t_false }]
        } else if else_inv {
            seq![Op::Unary { opc: UnaryOpc::Not, rd: t_else, rs1: t_false }]
        } else if else_inc {
            add_ops(t_else, t_false, imm64(1))
        } else {
            seq![]
        }) + seq![
            Op::Movc {
                rd,
                rs1: reg_or_zero(rn),
                rs2: t_else,
                c1: value,
                c2: imm64(0),
                cc: imm64(cc_cond(cond)),
            },
        ]
    }) + if sf {
        seq![]
    } else {
        extulq_ops(rd, rd)
    }
}

/// Ids that a conditional select allocates.
pub open spec fn cond_select_ids(insn: u32) -> u64 {
    let base = 1 + cc_ids(field(insn, 12, 4) as u32);
    if field(insn, 5, 5) == 31 && field(insn, 16, 5) == 31 && field(insn, 10, 1) != field(insn, 30, 1) {
        base as u64
    } else if field(insn, 10, 1) == 1 || field(insn, 30, 1) == 1 {
        (base + 2) as u64
    } else {
        (base + 1) as u64
    }
}

/// What lowering a conditional select does: `S` or `op2<1>` set is unallocated.
pub open spec fn cond_select_done(
    new: Arm64GuestContext,
    old: Arm64GuestContext,
    r: Result<(), DisasException>,
    insn: u32,
) -> bool {
    &&& r is Ok
    &&& new.lowered(old, r)
    &&& if field(insn, 29, 1) == 1 || field(insn, 11, 1) == 1 {
        new.emitted(old, undef_ops(old), 1)
    } else {
        new.emitted(old, cond_select_ops(insn, old.ir.next_id), cond_select_ids(insn))
    }
}

#[verifier::rlimit(40)]
/// CSEL, CSINC, CSINV and CSNEG: `rd = cond ? rn : f(rm)`, where `f` is the
/// identity, increment, bitwise not or negation; CSET and CSETM are the forms
/// on the zero register.
pub fn disas_cond_select(ctx: &mut Arm64GuestContext, insn: u32) -> (r: Result<(), DisasException>)
    requires
        old(ctx).lowerable(),
    ensures
        cond_select_done(*final(ctx), *old(ctx), r, insn),
{
    proof {
        lemma_small_pow2();
    }
    if extract(insn, 29, 1) == 1 || extract(insn, 11, 1) == 1 {
        return unallocated(ctx, insn);
    }
    let sf = extract(insn, 31, 1) == 1;
    let else_inv = extract(insn, 30, 1) == 1;
    let rm = extract(insn, 16, 5) as usize;
    let cond_code = extract(insn, 12, 4);
    let else_inc = extract(insn, 10, 1) == 1;
    let rn = extract(insn, 5, 5) as usize;
    let rd = extract(insn, 0, 5) as usize;
    let ghost id = old(ctx).ir.next_id;
    let rd_v = ctx.reg(rd);
    let Arm64CC { cond, value: val32 } = test_cc(ctx, cond_code);
    let mut cond = cond;
    let value = ctx.ir.alloc_val(ValueType::U64);
    Op::push_convert(&mut ctx.ir, ConvertOpc::ExtSlq, value, val32);
    let ghost acc = cc_ops(cond_code, id) + seq![
        Op::Convert { opc: ConvertOpc::ExtSlq, rd: value, rs: val32 },
    ];
    proof {
        assert(ctx.ir.ops@ =~= old(ctx).ir.ops@ + acc);
    }
    let one = KHVal::u64(1);
    let zero = KHVal::u64(0);
    let ghost mid = *ctx;
    if rn == 31 && rm == 31 && else_inc != else_inv {
        cond.invert();
        Op::push_setc(&mut ctx.ir, rd_v, value, zero, cond);
        if else_inv {
            Op::push_unary(&mut ctx.ir, UnaryOpc::Neg, rd_v, rd_v);
        }
        proof {
            let part = seq![
                Op::Setc { rd: rd_v, c1: value, c2: imm64(0), cc: imm64(CondOp::inverted(cc_cond(cond_code))) },
            ] + if else_inv {
                seq![Op::Unary { opc: UnaryOpc::Neg, rd: rd_v, rs1: rd_v }]
            } else {
                seq![]
            };
            assert(ctx.ir.ops@ =~= mid.ir.ops@ + part);
            acc = acc + part;
        }
    } else {
        let t_true = ctx.reg(rn);
        let t_false = read_cpu_reg(ctx, rm, true);
        let ghost mid2 = *ctx;
        let t_else = if else_inv || else_inc {
            let m = ctx.ir.alloc_val(ValueType::U64);
            if else_inv && else_inc {
                Op::push_unary(&mut ctx.ir, UnaryOpc::Neg, m, t_false);
            } else if else_inv {
                Op::push_unary(&mut ctx.ir, UnaryOpc::Not, m, t_false);
            } else {
                Op::push_add(&mut ctx.ir, m, t_false, one);
            }
            m
        } else {
            t_false
        };
        let ghost mid3 = *ctx;
        Op::push_movc(&mut ctx.ir, rd_v, t_true, t_else, value, zero, cond);
        proof {
            let mods = if else_inv && else_inc {
                seq![Op::Unary { opc: UnaryOpc::Neg, rd: t_else, rs1: t_false }]
            } else if else_inv {
                seq![Op::Unary { opc: UnaryOpc::Not, rd: t_else, rs1: t_false }]
            } else if else_inc {
                add_ops(t_else, t_false, imm64(1))
            } else {
                seq![]
            };
            assert(mid3.ir.ops@ =~= mid2.ir.ops@ + mods);
            let part = read_ops(reg_or_zero(rm as nat), true, mid.ir.next_id) + mods + seq![
                Op::Movc {
                    rd: rd_v,
                    rs1: t_true,
                    rs2: t_else,
                    c1: value,
                    c2: imm64(0),
                    cc: imm64(cc_cond(cond_code)),
                },
            ];
            assert(ctx.ir.ops@ =~= mid.ir.ops@ + part);
            acc = acc + part;
        }
    }
    proof {
        assert(ctx.ir.ops@ =~= old(ctx).ir.ops@ + acc);
    }
    if !sf {
        Op::push_extulq(&mut ctx.ir, rd_v, rd_v);
    }
    proof {
        acc = acc + if sf {
            seq![]
        } else {
            extulq_ops(rd_v, rd_v)
        };
        assert(ctx.ir.ops@ =~= old(ctx).ir.ops@ + acc);
        assert(acc =~= cond_select_ops(insn, id));
        lemma_lowered(*old(ctx), *ctx, cond_select_ops(insn, id), cond_select_ids(insn), Ok(()));
    }
    Ok(())
}

/// Add/subtract on a shifted register is not lowered yet.
pub fn disas_add_sub_reg(ctx: &mut Arm64GuestContext, insn: u32) -> (r: Result<(), DisasException>)
    ensures
        r matches Err(DisasException::Unexpected(_)),
        *final(ctx) == *old(ctx),
{
    not_implemented(ctx, insn, "add_sub_reg")
}

/// Add/subtract with carry is not lowered yet.
pub fn disas_adc_sbc(ctx: &mut Arm64GuestContext, insn: u32) -> (r: Result<(), DisasException>)
    ensures
        r matches Err(DisasException::Unexpected(_)),
        *final(ctx) == *old(ctx),
{
    not_implemented(ctx, insn, "adc_sbc")
}

/// Rotate right into flags is not lowered yet.
pub fn disas_rotate_right_into_flags(ctx: &mut Arm64GuestContext, insn: u32) -> (r: Result<(), DisasException>)
    ensures
        r matches Err(DisasException::Unexpected(_)),
        *final(ctx) == *old(ctx),
{
    not_implemented(ctx, insn, "rotate_right_into_flags")
}

/// Evaluate into flags is not lowered yet.
pub fn disas_evaluate_into_flags(ctx: &mut Arm64GuestContext, insn: u32) -> (r: Result<(), DisasException>)
    ensures
        r matches Err(DisasException::Unexpected(_)),
        *final(ctx) == *old(ctx),
{
    not_implemented(ctx, insn, "evaluate_into_flags")
}

/// Conditional compare is not lowered yet.
pub fn disas_cc(ctx: &mut Arm64GuestContext, insn: u32) -> (r: Result<(), DisasException>)
    ensures
        r matches Err(DisasException::Unexpected(_)),
        *final(ctx) == *old(ctx),
{
    not_implemented(ctx, insn, "cc")
}

/// Data processing with one source is not lowered yet.
pub fn disas_data_proc_1src(ctx: &mut Arm64GuestContext, insn: u32) -> (r: Result<(), DisasException>)
    ensures
        r matches Err(DisasException::Unexpected(_)),
        *final(ctx) == *old(ctx),
{
    not_implemented(ctx, insn, "data_proc_1src")
}

/// Data processing with two sources is not lowered yet.
pub fn disas_data_proc_2src(ctx: &mut Arm64GuestContext, insn: u32) -> (r: Result<(), DisasException>)
    ensures
        r matches Err(DisasException::Unexpected(_)),
        *final(ctx) == *old(ctx),
{
    not_implemented(ctx, insn, "data_proc_2src")
}

/// Data processing with three sources is not lowered yet.
pub fn disas_data_proc_3src(ctx: &mut Arm64GuestContext, insn: u32) -> (r: Result<(), DisasException>)
    ensures
        r matches Err(DisasException::Unexpected(_)),
        *final(ctx) == *old(ctx),
{
    not_implemented(ctx, insn, "data_proc_3src")
}

/// What lowering a data-processing (register) instruction does, by `op1`,
/// `op2` and `op3`.
pub open spec fn data_proc_reg_done(
    new: Arm64GuestContext,
    old: Arm64GuestContext,
    r: Result<(), DisasException>,
    insn: u32,
) -> bool {
    let op1 = field(insn, 28, 1);
    let op2 = field(insn, 21, 4);
    let op3 = field(insn, 10, 6);
    &&& new.lowered(old, r)
    &&& if op1 == 0 {
        if op2 < 8 {
            logic_reg_done(new, old, r, insn)
        } else if op2 % 2 == 1 {
            add_sub_ext_done(new, old, r, insn)
        } else {
            unimpl(new, old, r)
        }
    } else if op2 == 0 {
        if op3 == 0 || op3 == 0x1 || op3 == 0x21 || op3 == 0x2 || op3 == 0x12 || op3 == 0x22 || op3
            == 0x32 {
            unimpl(new, old, r)
        } else {
            undef_done(new, old, r)
        }
    } else if op2 == 4 {
        cond_select_done(new, old, r, insn)
    } else if op2 == 2 || op2 == 6 || op2 >= 8 {
        unimpl(new, old, r)
    } else {
        undef_done(new, old, r)
    }
}

/// Data processing on registers: route on `op0`, `op1`, `op2` and `op3`.
pub fn disas_data_proc_reg(ctx: &mut Arm64GuestContext, insn: u32) -> (r: Result<(), DisasException>)
    requires
        old(ctx).lowerable(),
    ensures
        data_proc_reg_done(*final(ctx), *old(ctx), r, insn),
{
    proof {
        lemma_small_pow2();
    }
    let op0 = extract(insn, 30, 1);
    let op1 = extract(insn, 28, 1);
    let op2 = extract(insn, 21, 4);
    let op3 = extract(insn, 10, 6);
    let r;
    if op1 == 0 {
        if op2 >= 8 {
            if op2 % 2 == 1 {
                return disas_add_sub_ext_reg(ctx, insn);
            } else {
                r = disas_add_sub_reg(ctx, insn);
            }
        } else {
            return disas_logic_reg(ctx, insn);
        }
    } else if op2 == 0 {
        if op3 == 0 {
            r = disas_adc_sbc(ctx, insn);
        } else if op3 == 0x1 || op3 == 0x21 {
            r = disas_rotate_right_into_flags(ctx, insn);
        } else if op3 == 0x2 || op3 == 0x12 || op3 == 0x22 || op3 == 0x32 {
            r = disas_evaluate_into_flags(ctx, insn);
        } else {
            return unallocated(ctx, insn);
        }
    } else if op2 == 2 {
        r = disas_cc(ctx, insn);
    } else if op2 == 4 {
        return disas_cond_select(ctx, insn);
    } else if op2 == 6 {
        if op0 != 0 {
            r = disas_data_proc_1src(ctx, insn);
        } else {
            r = disas_data_proc_2src(ctx, insn);
        }
    } else if op2 >= 8 {
        r = disas_data_proc_3src(ctx, insn);
    } else {
        return unallocated(ctx, insn);
    }
    proof {
        crate::arm64::system::lemma_unchanged_lowered(*ctx, r);
    }
    r
}

} // verus!
