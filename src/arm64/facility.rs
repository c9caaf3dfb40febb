use crate::arm64::{
    flag, lemma_prefix, pc_reg, reg_or_zero, xreg, Arm64GuestContext, SLOT_CF, SLOT_NF, SLOT_VF,
    SLOT_ZF,
};
use crate::guest::DisasException;
use crate::ir::builder::IrBuilder;
use crate::ir::make::{extulq_ops, mov_ops, sub_ops, trap_ops};
use crate::ir::op::{
    BinaryOpc, CondOp, ConvertOpc, Op, TrapOp, UnaryOpc, COND_ALWAYS, COND_EQ, COND_GE, COND_GEU,
    COND_LT, COND_NE,
};
use crate::ir::storage::{
    imm32, imm64, is_access_size, ldst_memop_bits, size_log2, temp, KHVal, MemOp, ValueType, MEMOP_GUEST_LE,
};
use vstd::prelude::*;

verus! {

/// `new` follows `old` by appending `s` and allocating `n` ids; the block's
/// exits and everything else stay.
pub open spec fn step(new: Arm64GuestContext, old: Arm64GuestContext, s: Seq<Op>, n: u64) -> bool {
    &&& new.wf()
    &&& new.emitted(old, s, n)
    &&& new.mem == old.mem
    &&& new.disas_pos == old.disas_pos
    &&& new.start_pc == old.start_pc
    &&& new.targets == old.targets
    &&& new.ir.direct_chain_idx == old.ir.direct_chain_idx
    &&& new.ir.aux_chain_idx == old.ir.aux_chain_idx
}

/// Room for `n` more ids.
pub open spec fn room(ctx: Arm64GuestContext, n: u64) -> bool {
    ctx.ir.next_id + n <= u64::MAX
}

/// Ops reading a register into the fresh temporary `id`: the whole register
/// when `sf`, else its low 32 bits zero-extended.
pub open spec fn read_ops(src: KHVal, sf: bool, id: u64) -> Seq<Op> {
    if sf {
        seq![Op::Unary { opc: UnaryOpc::Mov, rd: temp(ValueType::U64, id), rs1: src }]
    } else {
        seq![Op::Convert { opc: ConvertOpc::ExtUlq, rd: temp(ValueType::U64, id), rs: src }]
    }
}

/// Read register `reg` into a fresh temporary; encoding 31 reads as zero.
pub fn read_cpu_reg(ctx: &mut Arm64GuestContext, reg: usize, sf: bool) -> (v: KHVal)
    requires
        old(ctx).wf(),
        room(*old(ctx), 1),
        reg < 32,
    ensures
        v == temp(ValueType::U64, old(ctx).ir.next_id),
        step(*final(ctx), *old(ctx), read_ops(reg_or_zero(reg as nat), sf, old(ctx).ir.next_id), 1),
{
    let v = ctx.ir.alloc_val(ValueType::U64);
    let src = ctx.reg(reg);
    if sf {
        Op::push_mov(&mut ctx.ir, v, src);
    } else {
        Op::push_extulq(&mut ctx.ir, v, src);
    }
    v
}

/// Read register `reg` into a fresh temporary; encoding 31 is the stack pointer.
pub fn read_cpu_reg_sp(ctx: &mut Arm64GuestContext, reg: usize, sf: bool) -> (v: KHVal)
    requires
        old(ctx).wf(),
        room(*old(ctx), 1),
        reg < 32,
    ensures
        v == temp(ValueType::U64, old(ctx).ir.next_id),
        step(*final(ctx), *old(ctx), read_ops(xreg(reg as nat), sf, old(ctx).ir.next_id), 1),
{
    let v = ctx.ir.alloc_val(ValueType::U64);
    let src = ctx.reg_sp(reg);
    if sf {
        Op::push_mov(&mut ctx.ir, v, src);
    } else {
        Op::push_extulq(&mut ctx.ir, v, src);
    }
    v
}

/// Ops of the tag-byte-ignore cleaning of `src` into `dst`.
pub open spec fn tbi_ops(dst: KHVal, src: KHVal, tbi: u32) -> Seq<Op> {
    if tbi == 0 {
        mov_ops(dst, src)
    } else {
        seq![Op::ExtrS { rd: dst, rs: src, ofs: imm64(0), len: imm64(56) }]
    }
}

/// Clear the tag byte of an address when `tbi` is set, by a signed
/// extraction of its low 56 bits; copy it otherwise.
pub fn top_byte_ignore(ctx: &mut Arm64GuestContext, dst: KHVal, src: KHVal, tbi: u32)
    requires
        old(ctx).wf(),
        dst.ty == ValueType::U64,
        src.ty == ValueType::U64,
    ensures
        step(*final(ctx), *old(ctx), tbi_ops(dst, src, tbi), 0),
{
    if tbi == 0 {
        Op::push_mov(&mut ctx.ir, dst, src);
    } else {
        Op::push_extrs(&mut ctx.ir, dst, src, 0, 56);
    }
}

/// Clean an EL0 data address of its tag byte into a fresh temporary.
pub fn clean_data_tbi(ctx: &mut Arm64GuestContext, addr: KHVal) -> (r: KHVal)
    requires
        old(ctx).wf(),
        room(*old(ctx), 1),
        addr.ty == ValueType::U64,
    ensures
        r == temp(ValueType::U64, old(ctx).ir.next_id),
        step(*final(ctx), *old(ctx), tbi_ops(r, addr, 1), 1),
{
    let ret = ctx.ir.alloc_val(ValueType::U64);
    top_byte_ignore(ctx, ret, addr, 1);
    ret
}

/// Ops of a load or store of `size` bytes between `reg` and `addr`.
pub open spec fn ldst_ops(
    is_load: bool,
    sign: bool,
    extend: bool,
    size: u64,
    reg: KHVal,
    addr: KHVal,
) -> Seq<Op> {
    seq![
        Op::Binary {
            opc: if is_load {
                BinaryOpc::Load
            } else {
                BinaryOpc::Store
            },
            rd: reg,
            rs1: addr,
            rs2: imm64(ldst_memop_bits(sign, size)),
        },
    ] + if is_load && extend && sign {
        extulq_ops(reg, reg)
    } else {
        seq![]
    }
}

/// A load or store of `size` bytes of a little-endian guest; a signed load
/// into a 32-bit register is zero-extended from bit 32 after.
pub fn do_ldst(
    ctx: &mut Arm64GuestContext,
    is_load: bool,
    sign: bool,
    extend: bool,
    size: u64,
    reg: KHVal,
    addr: KHVal,
)
    requires
        old(ctx).wf(),
        is_access_size(size),
        is_load && extend && sign ==> size < 8,
        reg.ty == ValueType::U64,
        addr.ty == ValueType::U64,
    ensures
        step(*final(ctx), *old(ctx), ldst_ops(is_load, sign, extend, size, reg, addr), 0),
{
    let m = MemOp::from_sign(sign).union(MemOp::from_size(size)).union(
        MemOp { bits: MEMOP_GUEST_LE },
    );
    proof {
        let a: u64 = if sign {
            4
        } else {
            0
        };
        let l = size_log2(size);
        assert((a | l) | 0 == a | l) by (bit_vector);
        assert(m.bits == ldst_memop_bits(sign, size));
    }
    if is_load {
        Op::push_load(&mut ctx.ir, reg, addr, m);
    } else {
        Op::push_store(&mut ctx.ir, reg, addr, m);
    }
    if is_load && extend && sign {
        Op::push_extulq(&mut ctx.ir, reg, reg);
        proof {
            assert(ctx.ir.ops@ =~= old(ctx).ir.ops@ + ldst_ops(is_load, sign, extend, size, reg, addr));
        }
    } else {
        proof {
            assert(ctx.ir.ops@ =~= old(ctx).ir.ops@ + ldst_ops(is_load, sign, extend, size, reg, addr));
        }
    }
}

/// Ops setting the zero and negative flags from a 64-bit value: `zf` and
/// `nf` take its halves and `zf` their union.
pub open spec fn nz64_ops(v: KHVal) -> Seq<Op> {
    seq![
        Op::Convert { opc: ConvertOpc::Extrl, rd: flag(SLOT_ZF), rs: v },
        Op::Convert { opc: ConvertOpc::Extrh, rd: flag(SLOT_NF), rs: v },
        Op::Binary { opc: BinaryOpc::Orl, rd: flag(SLOT_ZF), rs1: flag(SLOT_ZF), rs2: flag(SLOT_NF) },
    ]
}

/// Set the zero and negative flags from a 64-bit value.
pub fn set_nz64(ctx: &mut Arm64GuestContext, v: KHVal)
    requires
        old(ctx).wf(),
        v.ty == ValueType::U64,
    ensures
        step(*final(ctx), *old(ctx), nz64_ops(v), 0),
{
    let nf = ctx.flag(SLOT_NF);
    let zf = ctx.flag(SLOT_ZF);
    Op::push_extr(&mut ctx.ir, zf, nf, v);
    Op::push_binary(&mut ctx.ir, BinaryOpc::Orl, zf, zf, nf);
    proof {
        assert(ctx.ir.ops@ =~= old(ctx).ir.ops@ + nz64_ops(v));
    }
}

/// Ops of `dest = t0 + t1` setting NZCV, with temporaries from `id` on.
pub open spec fn add_cc_ops(sf: bool, dest: KHVal, t0: KHVal, t1: KHVal, id: u64) -> Seq<Op> {
    if sf {
        let carry = temp(ValueType::U64, id);
        let x = temp(ValueType::U64, (id + 1) as u64);
        let y = temp(ValueType::U64, (id + 2) as u64);
        let v = temp(ValueType::U64, (id + 3) as u64);
        seq![
            Op::Add2 { rl: dest, rh: carry, al: t0, ah: imm64(0), bl: t1, bh: imm64(0) },
            Op::Convert { opc: ConvertOpc::Extrl, rd: flag(SLOT_CF), rs: carry },
        ] + nz64_ops(dest) + seq![
            Op::Binary { opc: BinaryOpc::Xor, rd: x, rs1: dest, rs2: t0 },
            Op::Binary { opc: BinaryOpc::Xor, rd: y, rs1: t0, rs2: t1 },
            Op::Binary { opc: BinaryOpc::Andc, rd: v, rs1: x, rs2: y },
            Op::Convert { opc: ConvertOpc::Extrh, rd: flag(SLOT_VF), rs: v },
        ]
    } else {
        let a = temp(ValueType::U32, id);
        let b = temp(ValueType::U32, (id + 1) as u64);
        let tmp = temp(ValueType::U32, (id + 2) as u64);
        seq![
            Op::Convert { opc: ConvertOpc::Extrl, rd: a, rs: t0 },
            Op::Convert { opc: ConvertOpc::Extrl, rd: b, rs: t1 },
            Op::Add2l { rl: flag(SLOT_NF), rh: flag(SLOT_CF), al: a, ah: imm32(0), bl: b, bh: imm32(0) },
            Op::Unary { opc: UnaryOpc::Movl, rd: flag(SLOT_ZF), rs1: flag(SLOT_NF) },
            Op::Binary { opc: BinaryOpc::Xorl, rd: flag(SLOT_VF), rs1: flag(SLOT_NF), rs2: a },
            Op::Binary { opc: BinaryOpc::Xorl, rd: tmp, rs1: a, rs2: b },
            Op::Binary { opc: BinaryOpc::Andcl, rd: flag(SLOT_VF), rs1: flag(SLOT_VF), rs2: tmp },
        ] + extulq_ops(dest, flag(SLOT_NF))
    }
}

/// `dest = t0 + t1` on 64 bits (`sf`) or 32 bits, setting NZCV: carry from the
/// widened addition, overflow from the signs of operands and result.
pub fn do_add_cc(ctx: &mut Arm64GuestContext, sf: bool, dest: KHVal, t0: KHVal, t1: KHVal)
    requires
        old(ctx).wf(),
        room(*old(ctx), 4),
        dest.ty == ValueType::U64,
        t0.ty == ValueType::U64,
        t1.ty == ValueType::U64,
    ensures
        step(
            *final(ctx),
            *old(ctx),
            add_cc_ops(sf, dest, t0, t1, old(ctx).ir.next_id),
            if sf {
                4
            } else {
                3
            },
        ),
{
    let nf = ctx.flag(SLOT_NF);
    let zf = ctx.flag(SLOT_ZF);
    let cf = ctx.flag(SLOT_CF);
    let vf = ctx.flag(SLOT_VF);
    if sf {
        let carry = ctx.ir.alloc_val(ValueType::U64);
        let x = ctx.ir.alloc_val(ValueType::U64);
        let y = ctx.ir.alloc_val(ValueType::U64);
        let v = ctx.ir.alloc_val(ValueType::U64);
        let zero = KHVal::u64(0);
        Op::push_add2(&mut ctx.ir, dest, carry, t0, zero, t1, zero);
        Op::push_convert(&mut ctx.ir, ConvertOpc::Extrl, cf, carry);
        set_nz64(ctx, dest);
        Op::push_binary(&mut ctx.ir, BinaryOpc::Xor, x, dest, t0);
        Op::push_binary(&mut ctx.ir, BinaryOpc::Xor, y, t0, t1);
        Op::push_binary(&mut ctx.ir, BinaryOpc::Andc, v, x, y);
        Op::push_convert(&mut ctx.ir, ConvertOpc::Extrh, vf, v);
        proof {
            assert(ctx.ir.ops@ =~= old(ctx).ir.ops@ + add_cc_ops(sf, dest, t0, t1, old(ctx).ir.next_id));
        }
    } else {
        let a = ctx.ir.alloc_val(ValueType::U32);
        let b = ctx.ir.alloc_val(ValueType::U32);
        let tmp = ctx.ir.alloc_val(ValueType::U32);
        let zero = KHVal::u32(0);
        Op::push_convert(&mut ctx.ir, ConvertOpc::Extrl, a, t0);
        Op::push_convert(&mut ctx.ir, ConvertOpc::Extrl, b, t1);
        Op::push_add2l(&mut ctx.ir, nf, cf, a, zero, b, zero);
        Op::push_mov(&mut ctx.ir, zf, nf);
        Op::push_binary(&mut ctx.ir, BinaryOpc::Xorl, vf, nf, a);
        Op::push_binary(&mut ctx.ir, BinaryOpc::Xorl, tmp, a, b);
        Op::push_binary(&mut ctx.ir, BinaryOpc::Andcl, vf, vf, tmp);
        Op::push_extulq(&mut ctx.ir, dest, nf);
        proof {
            assert(ctx.ir.ops@ =~= old(ctx).ir.ops@ + add_cc_ops(sf, dest, t0, t1, old(ctx).ir.next_id));
        }
    }
}

/// Ops of `dest = t0 - t1` setting NZCV, with temporaries from `id` on.
pub open spec fn sub_cc_ops(sf: bool, dest: KHVal, t0: KHVal, t1: KHVal, id: u64) -> Seq<Op> {
    if sf {
        let carry = temp(ValueType::U64, id);
        let x = temp(ValueType::U64, (id + 1) as u64);
        let y = temp(ValueType::U64, (id + 2) as u64);
        let v = temp(ValueType::U64, (id + 3) as u64);
        sub_ops(dest, t0, t1) + nz64_ops(dest) + seq![
            Op::Setc { rd: carry, c1: t0, c2: t1, cc: imm64(COND_GEU) },
            Op::Convert { opc: ConvertOpc::Extrl, rd: flag(SLOT_CF), rs: carry },
            Op::Binary { opc: BinaryOpc::Xor, rd: x, rs1: dest, rs2: t0 },
            Op::Binary { opc: BinaryOpc::Xor, rd: y, rs1: t0, rs2: t1 },
            Op::Binary { opc: BinaryOpc::And, rd: v, rs1: x, rs2: y },
            Op::Convert { opc: ConvertOpc::Extrh, rd: flag(SLOT_VF), rs: v },
        ]
    } else {
        let a = temp(ValueType::U32, id);
        let b = temp(ValueType::U32, (id + 1) as u64);
        let tmp = temp(ValueType::U32, (id + 2) as u64);
        seq![
            Op::Convert { opc: ConvertOpc::Extrl, rd: a, rs: t0 },
            Op::Convert { opc: ConvertOpc::Extrl, rd: b, rs: t1 },
            Op::Binary { opc: BinaryOpc::Subl, rd: flag(SLOT_NF), rs1: a, rs2: b },
            Op::Unary { opc: UnaryOpc::Movl, rd: flag(SLOT_ZF), rs1: flag(SLOT_NF) },
            Op::Setc { rd: flag(SLOT_CF), c1: a, c2: b, cc: imm64(COND_GEU) },
            Op::Binary { opc: BinaryOpc::Xorl, rd: flag(SLOT_VF), rs1: flag(SLOT_NF), rs2: a },
            Op::Binary { opc: BinaryOpc::Xorl, rd: tmp, rs1: a, rs2: b },
            Op::Binary { opc: BinaryOpc::Andl, rd: flag(SLOT_VF), rs1: flag(SLOT_VF), rs2: tmp },
        ] + extulq_ops(dest, flag(SLOT_NF))
    }
}

/// `dest = t0 - t1` on 64 bits (`sf`) or 32 bits, setting NZCV: carry when no
/// borrow, overflow when the operands' signs differ and the result's sign
/// differs from the first operand's.
pub fn do_sub_cc(ctx: &mut Arm64GuestContext, sf: bool, dest: KHVal, t0: KHVal, t1: KHVal)
    requires
        old(ctx).wf(),
        room(*old(ctx), 4),
        dest.ty == ValueType::U64,
        t0.ty == ValueType::U64,
        t1.ty == ValueType::U64,
    ensures
        step(
            *final(ctx),
            *old(ctx),
            sub_cc_ops(sf, dest, t0, t1, old(ctx).ir.next_id),
            if sf {
                4
            } else {
                3
            },
        ),
{
    let nf = ctx.flag(SLOT_NF);
    let zf = ctx.flag(SLOT_ZF);
    let cf = ctx.flag(SLOT_CF);
    let vf = ctx.flag(SLOT_VF);
    if sf {
        let carry = ctx.ir.alloc_val(ValueType::U64);
        let x = ctx.ir.alloc_val(ValueType::U64);
        let y = ctx.ir.alloc_val(ValueType::U64);
        let v = ctx.ir.alloc_val(ValueType::U64);
        Op::push_sub(&mut ctx.ir, dest, t0, t1);
        set_nz64(ctx, dest);
        Op::push_setc(&mut ctx.ir, carry, t0, t1, CondOp::new(COND_GEU));
        Op::push_convert(&mut ctx.ir, ConvertOpc::Extrl, cf, carry);
        Op::push_binary(&mut ctx.ir, BinaryOpc::Xor, x, dest, t0);
        Op::push_binary(&mut ctx.ir, BinaryOpc::Xor, y, t0, t1);
        Op::push_binary(&mut ctx.ir, BinaryOpc::And, v, x, y);
        Op::push_convert(&mut ctx.ir, ConvertOpc::Extrh, vf, v);
        proof {
            assert(ctx.ir.ops@ =~= old(ctx).ir.ops@ + sub_cc_ops(sf, dest, t0, t1, old(ctx).ir.next_id));
        }
    } else {
        let a = ctx.ir.alloc_val(ValueType::U32);
        let b = ctx.ir.alloc_val(ValueType::U32);
        let tmp = ctx.ir.alloc_val(ValueType::U32);
        Op::push_convert(&mut ctx.ir, ConvertOpc::Extrl, a, t0);
        Op::push_convert(&mut ctx.ir, ConvertOpc::Extrl, b, t1);
        Op::push_binary(&mut ctx.ir, BinaryOpc::Subl, nf, a, b);
        Op::push_mov(&mut ctx.ir, zf, nf);
        Op::push_setc(&mut ctx.ir, cf, a, b, CondOp::new(COND_GEU));
        Op::push_binary(&mut ctx.ir, BinaryOpc::Xorl, vf, nf, a);
        Op::push_binary(&mut ctx.ir, BinaryOpc::Xorl, tmp, a, b);
        Op::push_binary(&mut ctx.ir, BinaryOpc::Andl, vf, vf, tmp);
        Op::push_extulq(&mut ctx.ir, dest, nf);
        proof {
            assert(ctx.ir.ops@ =~= old(ctx).ir.ops@ + sub_cc_ops(sf, dest, t0, t1, old(ctx).ir.next_id));
        }
    }
}

/// A condition as a comparison of `value` against zero.
pub struct Arm64CC {
    /// The comparison.
    pub cond: CondOp,
    /// The value compared against zero.
    pub value: KHVal,
}

/// The comparison of the even condition `cc & !1` against zero.
pub open spec fn cc_base(cc: u32) -> u64 {
    let k = cc / 2;
    if k == 0 {
        COND_EQ
    } else if k == 1 || k == 4 || k == 6 {
        COND_NE
    } else if k == 2 || k == 3 {
        COND_LT
    } else if k == 5 {
        COND_GE
    } else {
        COND_ALWAYS
    }
}

/// The comparison of condition `cc` against zero: odd conditions below 14
/// invert the even ones.
pub open spec fn cc_cond(cc: u32) -> u64 {
    if cc % 2 == 1 && cc < 14 {
        CondOp::inverted(cc_base(cc))
    } else {
        cc_base(cc)
    }
}

/// Ids that computing condition `cc` allocates.
pub open spec fn cc_ids(cc: u32) -> u64 {
    let k = cc / 2;
    if k == 4 {
        2
    } else if k == 5 {
        1
    } else if k == 6 {
        3
    } else {
        0
    }
}

/// The value that condition `cc` compares against zero; `id` numbers the
/// first temporary computing it.
pub open spec fn cc_value(cc: u32, id: u64) -> KHVal {
    let k = cc / 2;
    if k == 0 || k == 7 {
        flag(SLOT_ZF)
    } else if k == 1 {
        flag(SLOT_CF)
    } else if k == 2 {
        flag(SLOT_NF)
    } else if k == 3 {
        flag(SLOT_VF)
    } else {
        temp(ValueType::U32, (id + cc_ids(cc) - 1) as u64)
    }
}

/// Ops computing the value of condition `cc` from NZCV.
pub open spec fn cc_ops(cc: u32, id: u64) -> Seq<Op> {
    let k = cc / 2;
    let a = temp(ValueType::U32, id);
    let b = temp(ValueType::U32, (id + 1) as u64);
    let c = temp(ValueType::U32, (id + 2) as u64);
    if k == 4 {
        seq![
            Op::Unary { opc: UnaryOpc::Negl, rd: a, rs1: flag(SLOT_CF) },
            Op::Binary { opc: BinaryOpc::Andl, rd: b, rs1: a, rs2: flag(SLOT_ZF) },
        ]
    } else if k == 5 {
        seq![Op::Binary { opc: BinaryOpc::Xorl, rd: a, rs1: flag(SLOT_VF), rs2: flag(SLOT_NF) }]
    } else if k == 6 {
        seq![
            Op::Binary { opc: BinaryOpc::Xorl, rd: a, rs1: flag(SLOT_VF), rs2: flag(SLOT_NF) },
            Op::Binary { opc: BinaryOpc::Sarl, rd: b, rs1: a, rs2: imm32(31) },
            Op::Binary { opc: BinaryOpc::Andcl, rd: c, rs1: flag(SLOT_ZF), rs2: b },
        ]
    } else {
        seq![]
    }
}

/// Evaluate the AArch64 condition `cc` from NZCV: branching on
/// `value cond 0` gives the condition.
pub fn test_cc(ctx: &mut Arm64GuestContext, cc: u32) -> (r: Arm64CC)
    requires
        old(ctx).wf(),
        room(*old(ctx), 3),
        cc < 16,
    ensures
        r.cond.bits == cc_cond(cc),
        r.value == cc_value(cc, old(ctx).ir.next_id),
        r.value.ty == ValueType::U32,
        step(*final(ctx), *old(ctx), cc_ops(cc, old(ctx).ir.next_id), cc_ids(cc)),
{
    let nf = ctx.flag(SLOT_NF);
    let zf = ctx.flag(SLOT_ZF);
    let cf = ctx.flag(SLOT_CF);
    let vf = ctx.flag(SLOT_VF);
    let mut cond: CondOp;
    let value: KHVal;
    let k = cc / 2;
    if k == 0 {
        cond = CondOp::new(COND_EQ);
        value = zf;
    } else if k == 1 {
        cond = CondOp::new(COND_NE);
        value = cf;
    } else if k == 2 {
        cond = CondOp::new(COND_LT);
        value = nf;
    } else if k == 3 {
        cond = CondOp::new(COND_LT);
        value = vf;
    } else if k == 4 {
        cond = CondOp::new(COND_NE);
        let neg = ctx.ir.alloc_val(ValueType::U32);
        value = ctx.ir.alloc_val(ValueType::U32);
        Op::push_unary(&mut ctx.ir, UnaryOpc::Negl, neg, cf);
        Op::push_binary(&mut ctx.ir, BinaryOpc::Andl, value, neg, zf);
    } else if k == 5 {
        cond = CondOp::new(COND_GE);
        value = ctx.ir.alloc_val(ValueType::U32);
        Op::push_binary(&mut ctx.ir, BinaryOpc::Xorl, value, vf, nf);
    } else if k == 6 {
        cond = CondOp::new(COND_NE);
        let x = ctx.ir.alloc_val(ValueType::U32);
        let sign = ctx.ir.alloc_val(ValueType::U32);
        value = ctx.ir.alloc_val(ValueType::U32);
        let shift = KHVal::u32(31);
        Op::push_binary(&mut ctx.ir, BinaryOpc::Xorl, x, vf, nf);
        Op::push_binary(&mut ctx.ir, BinaryOpc::Sarl, sign, x, shift);
        Op::push_binary(&mut ctx.ir, BinaryOpc::Andcl, value, zf, sign);
    } else {
        cond = CondOp::new(COND_ALWAYS);
        value = zf;
    }
    if cc % 2 == 1 && cc < 14 {
        cond.invert();
    }
    proof {
        assert(ctx.ir.ops@ =~= old(ctx).ir.ops@ + cc_ops(cc, old(ctx).ir.next_id));
    }
    Arm64CC { cond, value }
}

/// Ops branching to `label` when condition `cc` holds.
pub open spec fn jump_cc_ops(cc: u32, label: KHVal, id: u64) -> Seq<Op> {
    cc_ops(cc, id) + seq![
        Op::Brc { dest: label, c1: cc_value(cc, id), c2: imm32(0), cc: imm64(cc_cond(cc)) },
    ]
}

/// Branch to `label` when the AArch64 condition `cc` holds.
pub fn do_test_jump_cc(ctx: &mut Arm64GuestContext, cc: u32, label: KHVal)
    requires
        old(ctx).wf(),
        room(*old(ctx), 3),
        cc < 16,
        label.ty == ValueType::Label,
    ensures
        step(*final(ctx), *old(ctx), jump_cc_ops(cc, label, old(ctx).ir.next_id), cc_ids(cc)),
{
    let Arm64CC { cond, value } = test_cc(ctx, cc);
    let zero = KHVal::u32(0);
    Op::push_brc(&mut ctx.ir, label, value, zero, cond);
    proof {
        assert(ctx.ir.ops@ =~= old(ctx).ir.ops@ + jump_cc_ops(cc, label, old(ctx).ir.next_id));
    }
}

/// Ops ending the block towards `dest`: the PC is set and the runtime looks
/// the next block up.
pub open spec fn end_tb_ops(dest: KHVal, id: u64) -> Seq<Op> {
    mov_ops(pc_reg(), dest) + trap_ops(TrapOp::LookupTb, dest, id)
}

/// End the block towards `dest`, recording the trap as the exit taken
/// (`is_aux` false) or the fall-through exit.
pub fn do_end_tb_to_addr(ctx: &mut Arm64GuestContext, dest: KHVal, is_aux: bool)
    requires
        old(ctx).wf(),
        room(*old(ctx), 1),
        dest.ty == ValueType::U64,
        old(ctx).ir.owns(dest),
        is_aux ==> old(ctx).ir.aux_chain_idx is None,
        !is_aux ==> old(ctx).ir.direct_chain_idx is None,
    ensures
        final(ctx).wf(),
        final(ctx).emitted(*old(ctx), end_tb_ops(dest, old(ctx).ir.next_id), 1),
        final(ctx).mem == old(ctx).mem,
        final(ctx).disas_pos == old(ctx).disas_pos,
        final(ctx).start_pc == old(ctx).start_pc,
        final(ctx).targets == old(ctx).targets,
        is_aux ==> final(ctx).ir.aux_chain_idx == Some((final(ctx).ir.ops@.len() - 1) as usize)
            && final(ctx).ir.direct_chain_idx == old(ctx).ir.direct_chain_idx,
        !is_aux ==> final(ctx).ir.direct_chain_idx == Some((final(ctx).ir.ops@.len() - 1) as usize)
            && final(ctx).ir.aux_chain_idx == old(ctx).ir.aux_chain_idx,
{
    let pc = ctx.pc();
    Op::push_mov(&mut ctx.ir, pc, dest);
    Op::push_trap(&mut ctx.ir, TrapOp::LookupTb, dest);
    proof {
        assert(ctx.ir.ops@ =~= old(ctx).ir.ops@ + end_tb_ops(dest, old(ctx).ir.next_id));
        assert(ctx.ir.ops@.last() == Op::Trap {
            cause: imm64(0),
            val: temp(ValueType::U64, old(ctx).ir.next_id),
        });
    }
    if is_aux {
        ctx.ir.set_aux_chain();
    } else {
        ctx.ir.set_direct_chain();
    }
}

/// Shift types of AArch64 shifted-register operands.
pub const SHIFT_LSL: u32 = 0;
/// Logical shift right.
pub const SHIFT_LSR: u32 = 1;
/// Arithmetic shift right.
pub const SHIFT_ASR: u32 = 2;
/// Rotate right.
pub const SHIFT_ROR: u32 = 3;

/// Ops shifting `src` by `amt` into `dest` with AArch64 shift type `st`; a
/// 32-bit shift works in temporaries from `id` on and zero-extends its
/// result into `dest`.
pub open spec fn shift_ops(dest: KHVal, src: KHVal, sf: bool, st: u32, amt: KHVal, id: u64) -> Seq<
    Op,
> {
    let opc = if st == SHIFT_LSL {
        BinaryOpc::Shl
    } else if st == SHIFT_LSR {
        BinaryOpc::Shr
    } else if st == SHIFT_ASR {
        BinaryOpc::Sar
    } else {
        BinaryOpc::Rotr
    };
    let t0 = temp(ValueType::U64, id);
    let t1 = temp(ValueType::U64, (id + 1) as u64);
    if sf {
        seq![Op::Binary { opc, rd: dest, rs1: src, rs2: amt }]
    } else if st == SHIFT_LSL || st == SHIFT_LSR {
        seq![Op::Binary { opc, rd: t0, rs1: src, rs2: amt }] + extulq_ops(dest, t0)
    } else if st == SHIFT_ASR {
        seq![
            Op::Convert { opc: ConvertOpc::ExtSlq, rd: t0, rs: src },
            Op::Binary { opc: BinaryOpc::Sar, rd: t1, rs1: t0, rs2: amt },
        ] + extulq_ops(dest, t1)
    } else {
        let a = temp(ValueType::U32, id);
        let b = temp(ValueType::U32, (id + 1) as u64);
        let c = temp(ValueType::U32, (id + 2) as u64);
        seq![
            Op::Convert { opc: ConvertOpc::Extrl, rd: a, rs: src },
            Op::Convert { opc: ConvertOpc::Extrl, rd: b, rs: amt },
            Op::Binary { opc: BinaryOpc::Rotrl, rd: c, rs1: a, rs2: b },
        ] + extulq_ops(dest, c)
    }
}

/// Ids that a shift allocates.
pub open spec fn shift_ids(sf: bool, st: u32) -> u64 {
    if sf {
        0
    } else if st == SHIFT_LSL || st == SHIFT_LSR {
        1
    } else if st == SHIFT_ASR {
        2
    } else {
        3
    }
}

/// Shift `src` by the register `amt` into `dest` as AArch64 shift type `st`;
/// 32-bit results (`!sf`) are zero-extended.
pub fn do_shift(ctx: &mut Arm64GuestContext, dest: KHVal, src: KHVal, sf: bool, st: u32, amt: KHVal)
    requires
        old(ctx).wf(),
        room(*old(ctx), 3),
        st < 4,
        dest.ty == ValueType::U64,
        src.ty == ValueType::U64,
        amt.ty == ValueType::U64,
    ensures
        step(*final(ctx), *old(ctx), shift_ops(dest, src, sf, st, amt, old(ctx).ir.next_id), shift_ids(sf, st)),
{
    let opc = if st == SHIFT_LSL {
        BinaryOpc::Shl
    } else if st == SHIFT_LSR {
        BinaryOpc::Shr
    } else if st == SHIFT_ASR {
        BinaryOpc::Sar
    } else {
        BinaryOpc::Rotr
    };
    if sf {
        Op::push_binary(&mut ctx.ir, opc, dest, src, amt);
    } else if st == SHIFT_LSL || st == SHIFT_LSR {
        let t0 = ctx.ir.alloc_val(ValueType::U64);
        Op::push_binary(&mut ctx.ir, opc, t0, src, amt);
        Op::push_extulq(&mut ctx.ir, dest, t0);
    } else if st == SHIFT_ASR {
        let t0 = ctx.ir.alloc_val(ValueType::U64);
        let t1 = ctx.ir.alloc_val(ValueType::U64);
        Op::push_convert(&mut ctx.ir, ConvertOpc::ExtSlq, t0, src);
        Op::push_binary(&mut ctx.ir, BinaryOpc::Sar, t1, t0, amt);
        Op::push_extulq(&mut ctx.ir, dest, t1);
    } else {
        let a = ctx.ir.alloc_val(ValueType::U32);
        let b = ctx.ir.alloc_val(ValueType::U32);
        let c = ctx.ir.alloc_val(ValueType::U32);
        Op::push_convert(&mut ctx.ir, ConvertOpc::Extrl, a, src);
        Op::push_convert(&mut ctx.ir, ConvertOpc::Extrl, b, amt);
        Op::push_binary(&mut ctx.ir, BinaryOpc::Rotrl, c, a, b);
        Op::push_extulq(&mut ctx.ir, dest, c);
    }
    proof {
        assert(ctx.ir.ops@ =~= old(ctx).ir.ops@ + shift_ops(dest, src, sf, st, amt, old(ctx).ir.next_id));
    }
}

/// Ops of a shift by the immediate `shift_i`.
pub open spec fn shift_imm_ops(dest: KHVal, src: KHVal, sf: bool, st: u32, shift_i: u32, id: u64) -> Seq<Op> {
    if shift_i == 0 {
        mov_ops(dest, src)
    } else {
        shift_ops(dest, src, sf, st, imm64(shift_i as u64), id)
    }
}

/// Shift `src` by the immediate `shift_i` into `dest`.
pub fn do_shift_imm(
    ctx: &mut Arm64GuestContext,
    dest: KHVal,
    src: KHVal,
    sf: bool,
    st: u32,
    shift_i: u32,
)
    requires
        old(ctx).wf(),
        room(*old(ctx), 3),
        st < 4,
        shift_i < (if sf {
            64u32
        } else {
            32u32
        }),
        dest.ty == ValueType::U64,
        src.ty == ValueType::U64,
    ensures
        step(
            *final(ctx),
            *old(ctx),
            shift_imm_ops(dest, src, sf, st, shift_i, old(ctx).ir.next_id),
            if shift_i == 0 {
                0
            } else {
                shift_ids(sf, st)
            },
        ),
{
    if shift_i == 0 {
        Op::push_mov(&mut ctx.ir, dest, src);
    } else {
        let amt = KHVal::u64(shift_i as u64);
        do_shift(ctx, dest, src, sf, st, amt);
    }
}

/// Ops extending the low byte, halfword or word of `src` per `option`
/// (bit 2: signed), or copying it whole.
pub open spec fn ext_ops(dest: KHVal, src: KHVal, option: u32) -> Seq<Op> {
    let size = option % 4;
    let signed = option / 4 % 2 == 1;
    if size == 3 {
        mov_ops(dest, src)
    } else if signed {
        seq![
            Op::Convert {
                opc: if size == 0 {
                    ConvertOpc::ExtSbq
                } else if size == 1 {
                    ConvertOpc::ExtSwq
                } else {
                    ConvertOpc::ExtSlq
                },
                rd: dest,
                rs: src,
            },
        ]
    } else if size == 2 {
        extulq_ops(dest, src)
    } else {
        seq![
            Op::Convert {
                opc: if size == 0 {
                    ConvertOpc::ExtUbq
                } else {
                    ConvertOpc::ExtUwq
                },
                rd: dest,
                rs: src,
            },
        ]
    }
}

/// Ops of an extended register operand, shifted left by `shift` from a
/// temporary numbered `id`.
pub open spec fn ext_shift_ops(dest: KHVal, src: KHVal, option: u32, shift: u32, id: u64) -> Seq<Op> {
    if shift != 0 {
        let e = temp(ValueType::U64, id);
        ext_ops(e, src, option) + seq![
            Op::Binary { opc: BinaryOpc::Shl, rd: dest, rs1: e, rs2: imm64(shift as u64) },
        ]
    } else {
        ext_ops(dest, src, option)
    }
}

/// Extend `src` as the extended-register `option` says, shift it left by
/// `shift`, into `dest`.
pub fn do_ext_and_shift_reg(ctx: &mut Arm64GuestContext, dest: KHVal, src: KHVal, option: u32, shift: u32)
    requires
        old(ctx).wf(),
        room(*old(ctx), 1),
        option < 8,
        dest.ty == ValueType::U64,
        src.ty == ValueType::U64,
    ensures
        step(
            *final(ctx),
            *old(ctx),
            ext_shift_ops(dest, src, option, shift, old(ctx).ir.next_id),
            if shift != 0 {
                1
            } else {
                0
            },
        ),
{
    let e = if shift != 0 {
        ctx.ir.alloc_val(ValueType::U64)
    } else {
        dest
    };
    let size = option % 4;
    let signed = option / 4 % 2 == 1;
    if size == 3 {
        Op::push_mov(&mut ctx.ir, e, src);
    } else if signed {
        let opc = if size == 0 {
            ConvertOpc::ExtSbq
        } else if size == 1 {
            ConvertOpc::ExtSwq
        } else {
            ConvertOpc::ExtSlq
        };
        Op::push_convert(&mut ctx.ir, opc, e, src);
    } else if size == 2 {
        Op::push_extulq(&mut ctx.ir, e, src);
    } else {
        let opc = if size == 0 {
            ConvertOpc::ExtUbq
        } else {
            ConvertOpc::ExtUwq
        };
        Op::push_convert(&mut ctx.ir, opc, e, src);
    }
    if shift != 0 {
        let amt = KHVal::u64(shift as u64);
        Op::push_binary(&mut ctx.ir, BinaryOpc::Shl, dest, e, amt);
    }
    proof {
        assert(ctx.ir.ops@ =~= old(ctx).ir.ops@ + ext_shift_ops(dest, src, option, shift, old(ctx).ir.next_id));
    }
}

/// Ops setting NZCV after a logical operation: N and Z from the result, C and
/// V cleared.
pub open spec fn logic_cc_ops(sf: bool, result: KHVal) -> Seq<Op> {
    (if sf {
        nz64_ops(result)
    } else {
        seq![
            Op::Convert { opc: ConvertOpc::Extrl, rd: flag(SLOT_ZF), rs: result },
            Op::Unary { opc: UnaryOpc::Movl, rd: flag(SLOT_NF), rs1: flag(SLOT_ZF) },
        ]
    }) + seq![
        Op::Unary { opc: UnaryOpc::Movl, rd: flag(SLOT_CF), rs1: imm32(0) },
        Op::Unary { opc: UnaryOpc::Movl, rd: flag(SLOT_VF), rs1: imm32(0) },
    ]
}

/// Set NZCV after a logical operation on 64 bits (`sf`) or 32 bits.
pub fn do_logic_cc(ctx: &mut Arm64GuestContext, sf: bool, result: KHVal)
    requires
        old(ctx).wf(),
        result.ty == ValueType::U64,
    ensures
        step(*final(ctx), *old(ctx), logic_cc_ops(sf, result), 0),
{
    let nf = ctx.flag(SLOT_NF);
    let zf = ctx.flag(SLOT_ZF);
    let cf = ctx.flag(SLOT_CF);
    let vf = ctx.flag(SLOT_VF);
    if sf {
        set_nz64(ctx, result);
    } else {
        Op::push_convert(&mut ctx.ir, ConvertOpc::Extrl, zf, result);
        Op::push_mov(&mut ctx.ir, nf, zf);
    }
    let zero = KHVal::u32(0);
    Op::push_mov(&mut ctx.ir, cf, zero);
    Op::push_mov(&mut ctx.ir, vf, zero);
    proof {
        assert(ctx.ir.ops@ =~= old(ctx).ir.ops@ + logic_cc_ops(sf, result));
    }
}

/// Check that FP and Neon are enabled.  They are not yet: the instruction
/// traps as undefined and the caller emits nothing for it.
pub fn fp_access_check(ctx: &mut Arm64GuestContext) -> (r: bool)
    requires
        old(ctx).wf(),
        old(ctx).fetched(),
        room(*old(ctx), 1),
    ensures
        !r,
        step(*final(ctx), *old(ctx), crate::arm64::undef_ops(*old(ctx)), 1),
{
    let pc = KHVal::u64(ctx.curr_pc() as u64);
    Op::push_trap(&mut ctx.ir, TrapOp::UndefOpcode, pc);
    false
}

/// Bit `i` of `x`.
pub open spec fn bit(x: u64, i: u64) -> bool {
    (x >> i) & 1 == 1
}

/// Element size of a logical immediate: 64 when `N` is set, else the
/// highest power of two at most `NOT(imms)`; 0 marks a reserved encoding.
pub open spec fn wmask_esize(immn: u32, imms: u32) -> u64 {
    let x = 63 - imms;
    if immn == 1 {
        64
    } else if x >= 32 {
        32
    } else if x >= 16 {
        16
    } else if x >= 8 {
        8
    } else if x >= 4 {
        4
    } else if x >= 2 {
        2
    } else {
        0
    }
}

/// The logical immediate `(N, imms)` is defined: an element size is encoded
/// and the run is not all ones.
pub open spec fn wmask_valid(immn: u32, imms: u32) -> bool {
    let e = wmask_esize(immn, imms);
    e >= 2 && (imms as u64) % e != e - 1
}

/// Bit `i` of the logical immediate with element size `e` holding a run of
/// `s + 1` ones rotated right by `r`, repeated across the word.
pub open spec fn wmask_bit(e: u64, s: u64, r: u64, i: u64) -> bool {
    let j = i % e + r;
    (if j < e {
        j
    } else {
        j - e
    }) <= s
}

proof fn lemma_bit_shr(x: u64, a: u64, i: u64)
    by (bit_vector)
    requires
        a < 64,
        i < 64,
    ensures
        bit(x >> a, i) <==> (i + a < 64 && bit(x, (i + a) as u64)),
{
}

proof fn lemma_bit_shl(x: u64, a: u64, i: u64)
    by (bit_vector)
    requires
        a < 64,
        i < 64,
    ensures
        bit(x << a, i) <==> (i >= a && bit(x, (i - a) as u64)),
{
}

pub(crate) proof fn lemma_bit_or_and(x: u64, y: u64, i: u64)
    by (bit_vector)
    requires
        i < 64,
    ensures
        bit(x | y, i) <==> (bit(x, i) || bit(y, i)),
        bit(x & y, i) <==> (bit(x, i) && bit(y, i)),
{
}

pub(crate) proof fn lemma_bit_ones(n: u64, i: u64)
    by (bit_vector)
    requires
        1 <= n < 64,
        i < 64,
    ensures
        1u64 << n >= 1,
        bit(((1u64 << n) - 1) as u64, i) <==> i < n,
        bit(0xffff_ffff_ffff_ffffu64, i),
{
}

/// A word is determined by its bits.
pub proof fn lemma_bits_determine(a: u64, b: u64)
    requires
        forall|i: u64| i < 64 ==> bit(a, i) == bit(b, i),
    ensures
        a == b,
{
    assert(bit(a, 0) == bit(b, 0));
    assert(bit(a, 1) == bit(b, 1));
    assert(bit(a, 2) == bit(b, 2));
    assert(bit(a, 3) == bit(b, 3));
    assert(bit(a, 4) == bit(b, 4));
    assert(bit(a, 5) == bit(b, 5));
    assert(bit(a, 6) == bit(b, 6));
    assert(bit(a, 7) == bit(b, 7));
    assert(bit(a, 8) == bit(b, 8));
    assert(bit(a, 9) == bit(b, 9));
    assert(bit(a, 10) == bit(b, 10));
    assert(bit(a, 11) == bit(b, 11));
    assert(bit(a, 12) == bit(b, 12));
    assert(bit(a, 13) == bit(b, 13));
    assert(bit(a, 14) == bit(b, 14));
    assert(bit(a, 15) == bit(b, 15));
    assert(bit(a, 16) == bit(b, 16));
    assert(bit(a, 17) == bit(b, 17));
    assert(bit(a, 18) == bit(b, 18));
    assert(bit(a, 19) == bit(b, 19));
    assert(bit(a, 20) == bit(b, 20));
    assert(bit(a, 21) == bit(b, 21));
    assert(bit(a, 22) == bit(b, 22));
    assert(bit(a, 23) == bit(b, 23));
    assert(bit(a, 24) == bit(b, 24));
    assert(bit(a, 25) == bit(b, 25));
    assert(bit(a, 26) == bit(b, 26));
    assert(bit(a, 27) == bit(b, 27));
    assert(bit(a, 28) == bit(b, 28));
    assert(bit(a, 29) == bit(b, 29));
    assert(bit(a, 30) == bit(b, 30));
    assert(bit(a, 31) == bit(b, 31));
    assert(bit(a, 32) == bit(b, 32));
    assert(bit(a, 33) == bit(b, 33));
    assert(bit(a, 34) == bit(b, 34));
    assert(bit(a, 35) == bit(b, 35));
    assert(bit(a, 36) == bit(b, 36));
    assert(bit(a, 37) == bit(b, 37));
    assert(bit(a, 38) == bit(b, 38));
    assert(bit(a, 39) == bit(b, 39));
    assert(bit(a, 40) == bit(b, 40));
    assert(bit(a, 41) == bit(b, 41));
    assert(bit(a, 42) == bit(b, 42));
    assert(bit(a, 43) == bit(b, 43));
    assert(bit(a, 44) == bit(b, 44));
    assert(bit(a, 45) == bit(b, 45));
    assert(bit(a, 46) == bit(b, 46));
    assert(bit(a, 47) == bit(b, 47));
    assert(bit(a, 48) == bit(b, 48));
    assert(bit(a, 49) == bit(b, 49));
    assert(bit(a, 50) == bit(b, 50));
    assert(bit(a, 51) == bit(b, 51));
    assert(bit(a, 52) == bit(b, 52));
    assert(bit(a, 53) == bit(b, 53));
    assert(bit(a, 54) == bit(b, 54));
    assert(bit(a, 55) == bit(b, 55));
    assert(bit(a, 56) == bit(b, 56));
    assert(bit(a, 57) == bit(b, 57));
    assert(bit(a, 58) == bit(b, 58));
    assert(bit(a, 59) == bit(b, 59));
    assert(bit(a, 60) == bit(b, 60));
    assert(bit(a, 61) == bit(b, 61));
    assert(bit(a, 62) == bit(b, 62));
    assert(bit(a, 63) == bit(b, 63));
    assert(a == b) by (bit_vector)
        requires
            bit(a, 0) == bit(b, 0),
            bit(a, 1) == bit(b, 1),
            bit(a, 2) == bit(b, 2),
            bit(a, 3) == bit(b, 3),
            bit(a, 4) == bit(b, 4),
            bit(a, 5) == bit(b, 5),
            bit(a, 6) == bit(b, 6),
            bit(a, 7) == bit(b, 7),
            bit(a, 8) == bit(b, 8),
            bit(a, 9) == bit(b, 9),
            bit(a, 10) == bit(b, 10),
            bit(a, 11) == bit(b, 11),
            bit(a, 12) == bit(b, 12),
            bit(a, 13) == bit(b, 13),
            bit(a, 14) == bit(b, 14),
            bit(a, 15) == bit(b, 15),
            bit(a, 16) == bit(b, 16),
            bit(a, 17) == bit(b, 17),
            bit(a, 18) == bit(b, 18),
            bit(a, 19) == bit(b, 19),
            bit(a, 20) == bit(b, 20),
            bit(a, 21) == bit(b, 21),
            bit(a, 22) == bit(b, 22),
            bit(a, 23) == bit(b, 23),
            bit(a, 24) == bit(b, 24),
            bit(a, 25) == bit(b, 25),
            bit(a, 26) == bit(b, 26),
            bit(a, 27) == bit(b, 27),
            bit(a, 28) == bit(b, 28),
            bit(a, 29) == bit(b, 29),
            bit(a, 30) == bit(b, 30),
            bit(a, 31) == bit(b, 31),
            bit(a, 32) == bit(b, 32),
            bit(a, 33) == bit(b, 33),
            bit(a, 34) == bit(b, 34),
            bit(a, 35) == bit(b, 35),
            bit(a, 36) == bit(b, 36),
            bit(a, 37) == bit(b, 37),
            bit(a, 38) == bit(b, 38),
            bit(a, 39) == bit(b, 39),
            bit(a, 40) == bit(b, 40),
            bit(a, 41) == bit(b, 41),
            bit(a, 42) == bit(b, 42),
            bit(a, 43) == bit(b, 43),
            bit(a, 44) == bit(b, 44),
            bit(a, 45) == bit(b, 45),
            bit(a, 46) == bit(b, 46),
            bit(a, 47) == bit(b, 47),
            bit(a, 48) == bit(b, 48),
            bit(a, 49) == bit(b, 49),
            bit(a, 50) == bit(b, 50),
            bit(a, 51) == bit(b, 51),
            bit(a, 52) == bit(b, 52),
            bit(a, 53) == bit(b, 53),
            bit(a, 54) == bit(b, 54),
            bit(a, 55) == bit(b, 55),
            bit(a, 56) == bit(b, 56),
            bit(a, 57) == bit(b, 57),
            bit(a, 58) == bit(b, 58),
            bit(a, 59) == bit(b, 59),
            bit(a, 60) == bit(b, 60),
            bit(a, 61) == bit(b, 61),
            bit(a, 62) == bit(b, 62),
            bit(a, 63) == bit(b, 63),
    ;
}

/// Repeat the low `e` bits of `mask` across the word.
pub fn bitfield_replicate(mask: u64, e: u32) -> (r: u64)
    requires
        1 <= e <= 64,
        forall|i: u64| e <= i < 64 ==> !bit(mask, i),
    ensures
        forall|i: u64| i < 64 ==> bit(r, i) == bit(mask, i % (e as u64)),
{
    let mut m = mask;
    let mut cur: u32 = e;
    let ghost q: int = 1;
    assert forall|i: u64| i < 64 implies bit(m, i) == (i < cur && bit(mask, i % (e as u64))) by {
        if i < e {
            vstd::arithmetic::div_mod::lemma_small_mod(i as nat, e as nat);
        }
    }
    while cur < 64
        invariant
            1 <= e <= 64,
            e <= cur <= 128,
            cur == e * q,
            q >= 1,
            forall|i: u64| e <= i < 64 ==> !bit(mask, i),
            forall|i: u64| i < 64 ==> bit(m, i) == (i < cur && bit(mask, i % (e as u64))),
        decreases 128 - cur,
    {
        let ghost old_m = m;
        let c = cur;
        let c64 = c as u64;
        m = m | (m << c64);
        assert forall|i: u64| i < 64 implies bit(m, i) == (i < 2 * c && bit(mask, i % (e as u64))) by {
            lemma_bit_or_and(old_m, old_m << c64, i);
            lemma_bit_shl(old_m, c64, i);
            assert(bit(old_m, i) == (i < c && bit(mask, i % (e as u64))));
            if i >= c {
                let k = (i - c) as u64;
                assert(bit(old_m, k) == (k < c && bit(mask, k % (e as u64))));
                assert(k % (e as u64) == i % (e as u64)) by {
                    vstd::arithmetic::div_mod::lemma_mod_multiples_vanish(q, k as int, e as int);
                    assert(i as int == e * q + k);
                }
            }
        }
        cur = cur * 2;
        proof {
            q = 2 * q;
            assert(cur == e * q) by (nonlinear_arith)
                requires
                    cur == 2 * c,
                    c == e * (q / 2),
                    q % 2 == 0,
            ;
        }
    }
    m
}

/// Decode the bitmask of a logical immediate `(N, imms, immr)`: elements of
/// 2 to 64 bits each holding a run of `s + 1` ones rotated right by `r`.
/// Reserved encodings give `None`.
pub fn logic_imm_decode_wmask(immn: u32, imms: u32, immr: u32) -> (r: Option<u64>)
    requires
        immn < 2,
        imms < 64,
        immr < 64,
    ensures
        r is Some <==> wmask_valid(immn, imms),
        r matches Some(m) ==> ({
            let e = wmask_esize(immn, imms);
            forall|i: u64|
                i < 64 ==> bit(m, i) == wmask_bit(e, (imms as u64) % e, (immr as u64) % e, i)
        }),
{
    let x = 63 - imms;
    let e: u64 = if immn == 1 {
        64
    } else if x >= 32 {
        32
    } else if x >= 16 {
        16
    } else if x >= 8 {
        8
    } else if x >= 4 {
        4
    } else if x >= 2 {
        2
    } else {
        0
    };
    if e < 2 {
        return None;
    }
    let s = imms as u64 % e;
    let r = immr as u64 % e;
    if s == e - 1 {
        return None;
    }
    proof {
        lemma_bit_ones((s + 1) as u64, 0);
        if e < 64 {
            lemma_bit_ones(e, 0);
        }
    }
    let run: u64 = (1u64 << (s + 1)) - 1;
    let oe: u64 = if e == 64 {
        0xffff_ffff_ffff_ffffu64
    } else {
        (1u64 << e) - 1
    };
    let rot: u64 = if r == 0 {
        run
    } else {
        ((run >> r) | (run << (e - r))) & oe
    };
    assert forall|j: u64| j < 64 implies bit(run, j) == (j <= s) by {
        lemma_bit_ones((s + 1) as u64, j);
    }
    assert forall|i: u64| i < 64 implies bit(oe, i) == (i < e) by {
        if e < 64 {
            lemma_bit_ones(e, i);
        } else {
            lemma_bit_ones(1, i);
        }
    }
    assert forall|i: u64| i < 64 implies (i < e ==> bit(rot, i) == ((if i + r < e {
        i + r
    } else {
        i + r - e
    }) <= s)) && (i >= e ==> !bit(rot, i)) by {
        if r != 0 {
            let a = run >> r;
            let b = run << ((e - r) as u64);
            lemma_bit_or_and(a, b, i);
            lemma_bit_or_and(a | b, oe, i);
            lemma_bit_shr(run, r, i);
            lemma_bit_shl(run, (e - r) as u64, i);
            assert(bit(oe, i) == (i < e));
            if i + r < 64 {
                assert(bit(run, (i + r) as u64) == (i + r <= s));
            }
            if i >= e - r {
                assert(bit(run, (i - (e - r)) as u64) == (i - (e - r) <= s));
            }
        } else {
            assert(bit(run, i) == (i <= s));
        }
    }
    let m = bitfield_replicate(rot, e as u32);
    assert forall|i: u64| i < 64 implies bit(m, i) == wmask_bit(e, s, r, i) by {
        let j = i % e;
        assert(j < e);
    }
    Some(m)
}

} // verus!
