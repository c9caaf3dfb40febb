use crate::arm64::facility::{
    clean_data_tbi, do_ldst, fp_access_check, ldst_ops, read_cpu_reg_sp, read_ops, room, step,
    tbi_ops,
};
use crate::arm64::{
    lemma_lowered, not_implemented, reg_or_zero, trap_undef, unallocated, undef_done, undef_ops,
    unimpl, xreg, Arm64GuestContext,
};
use crate::bits::{extract, field, lemma_small_pow2, sextract, sfield};
use crate::guest::DisasException;
use crate::ir::make::{add_ops, mov_ops, sub_ops, trap_ops};
use crate::ir::op::{Op, TrapOp};
use crate::ir::storage::{imm64, temp, KHVal, ValueType};
use vstd::prelude::*;

verus! {

/// Ops of the address `src` moved by `off` bytes into `dst`.
pub open spec fn adjust_ops(dst: KHVal, src: KHVal, off: int) -> Seq<Op> {
    if off >= 0 {
        add_ops(dst, src, imm64(off as u64))
    } else {
        sub_ops(dst, src, imm64((-off) as u64))
    }
}

/// The address `src` moved by `off` bytes into `dst`.
fn adjust_addr(ctx: &mut Arm64GuestContext, dst: KHVal, src: KHVal, off: i64)
    requires
        old(ctx).wf(),
        dst.ty == ValueType::U64,
        src.ty == ValueType::U64,
        -0x1_0000_0000 < off < 0x1_0000_0000,
    ensures
        step(*final(ctx), *old(ctx), adjust_ops(dst, src, off as int), 0),
{
    if off >= 0 {
        let v = KHVal::u64(off as u64);
        Op::push_add(&mut ctx.ir, dst, src, v);
    } else {
        let v = KHVal::u64((-off) as u64);
        Op::push_sub(&mut ctx.ir, dst, src, v);
    }
}

/// Bytes moved by one register of a pair of size class `size`.
pub open spec fn scale(size: nat) -> int {
    if size == 2 {
        4
    } else if size == 3 {
        8
    } else {
        16
    }
}

/// Fields of a load/store pair.
pub open spec fn pair_opc(insn: u32) -> nat {
    field(insn, 30, 2)
}

/// The pair is of vector registers.
pub open spec fn pair_vector(insn: u32) -> bool {
    field(insn, 26, 1) == 1
}

/// The pair is loaded.
pub open spec fn pair_load(insn: u32) -> bool {
    field(insn, 22, 1) == 1
}

/// The pair sign-extends words (LDPSW).
pub open spec fn pair_signed(insn: u32) -> bool {
    !pair_vector(insn) && pair_opc(insn) % 2 == 1
}

/// log2 of the bytes of one register of the pair.
pub open spec fn pair_size(insn: u32) -> nat {
    if pair_vector(insn) {
        2 + pair_opc(insn)
    } else {
        2 + pair_opc(insn) / 2
    }
}

/// Byte offset of the pair's address.
pub open spec fn pair_offset(insn: u32) -> int {
    sfield(insn, 15, 7) * scale(pair_size(insn))
}

/// The encoding of a pair is unallocated: opc 3, a signed store, or a
/// non-temporal LDPSW.
pub open spec fn pair_unallocated(insn: u32) -> bool {
    ||| pair_opc(insn) == 3
    ||| (pair_signed(insn) && !pair_load(insn))
    ||| (pair_signed(insn) && field(insn, 23, 2) == 0)
}

/// Ops of the two accesses of a pair at `clean` and at `clean + bytes`,
/// computed into `second`; a load writes the first register only after the
/// second access.
pub open spec fn pair_access_ops(insn: u32, bytes: u64, clean: KHVal, tmp: KHVal, second: KHVal) -> Seq<Op> {
    let load = pair_load(insn);
    let signed = pair_signed(insn);
    let rt = reg_or_zero(field(insn, 0, 5));
    let rt2 = reg_or_zero(field(insn, 10, 5));
    if load {
        ldst_ops(true, signed, false, bytes, tmp, clean) + add_ops(second, clean, imm64(bytes))
            + ldst_ops(true, signed, false, bytes, rt2, second) + mov_ops(rt, tmp)
    } else {
        ldst_ops(false, signed, false, bytes, rt, clean) + add_ops(second, clean, imm64(bytes))
            + ldst_ops(false, signed, false, bytes, rt2, second)
    }
}

/// The two accesses of a pair at `clean` and `clean + bytes`.
fn pair_access(
    ctx: &mut Arm64GuestContext,
    insn: u32,
    is_load: bool,
    is_signed: bool,
    bytes: u64,
    rt: usize,
    rt2: usize,
    clean: KHVal,
)
    requires
        old(ctx).wf(),
        room(*old(ctx), 2),
        is_load == pair_load(insn),
        is_signed == pair_signed(insn),
        bytes == 4 || bytes == 8,
        rt == field(insn, 0, 5),
        rt2 == field(insn, 10, 5),
        clean.ty == ValueType::U64,
    ensures
        ({
            let id = old(ctx).ir.next_id;
            if is_load {
                step(
                    *final(ctx),
                    *old(ctx),
                    pair_access_ops(
                        insn,
                        bytes,
                        clean,
                        temp(ValueType::U64, id),
                        temp(ValueType::U64, (id + 1) as u64),
                    ),
                    2,
                )
            } else {
                step(
                    *final(ctx),
                    *old(ctx),
                    pair_access_ops(insn, bytes, clean, temp(ValueType::U64, id), temp(ValueType::U64, id)),
                    1,
                )
            }
        }),
{
    proof {
        lemma_small_pow2();
    }
    let size_val = KHVal::u64(bytes);
    let rt_v = ctx.reg(rt);
    let rt2_v = ctx.reg(rt2);
    if is_load {
        let tmp = ctx.ir.alloc_val(ValueType::U64);
        let second = ctx.ir.alloc_val(ValueType::U64);
        do_ldst(ctx, true, is_signed, false, bytes, tmp, clean);
        Op::push_add(&mut ctx.ir, second, clean, size_val);
        do_ldst(ctx, true, is_signed, false, bytes, rt2_v, second);
        Op::push_mov(&mut ctx.ir, rt_v, tmp);
        proof {
            assert(ctx.ir.ops@ =~= old(ctx).ir.ops@ + pair_access_ops(insn, bytes, clean, tmp, second));
        }
    } else {
        let second = ctx.ir.alloc_val(ValueType::U64);
        do_ldst(ctx, false, is_signed, false, bytes, rt_v, clean);
        Op::push_add(&mut ctx.ir, second, clean, size_val);
        do_ldst(ctx, false, is_signed, false, bytes, rt2_v, second);
        proof {
            assert(ctx.ir.ops@ =~= old(ctx).ir.ops@ + pair_access_ops(insn, bytes, clean, second, second));
        }
    }
}

/// Write the base register back: the accessed address, or after a
/// post-indexed access the base moved by `off` into a temporary.
fn write_back(
    ctx: &mut Arm64GuestContext,
    wback: bool,
    post: bool,
    rn: usize,
    base: KHVal,
    addr: KHVal,
    off: i64,
)
    requires
        old(ctx).wf(),
        room(*old(ctx), 1),
        rn < 32,
        base.ty == ValueType::U64,
        addr.ty == ValueType::U64,
        -0x1_0000_0000 < off < 0x1_0000_0000,
    ensures
        step(
            *final(ctx),
            *old(ctx),
            wback_ops(wback, post, rn as nat, base, addr, off as int, old(ctx).ir.next_id),
            if wback && post {
                1
            } else {
                0
            },
        ),
{
    if wback {
        let base_reg = ctx.reg_sp(rn);
        if post {
            let w = ctx.ir.alloc_val(ValueType::U64);
            adjust_addr(ctx, w, base, off);
            Op::push_mov(&mut ctx.ir, base_reg, w);
        } else {
            Op::push_mov(&mut ctx.ir, base_reg, addr);
        }
    }
    proof {
        assert(ctx.ir.ops@ =~= old(ctx).ir.ops@ + wback_ops(
            wback,
            post,
            rn as nat,
            base,
            addr,
            off as int,
            old(ctx).ir.next_id,
        ));
    }
}

/// Ops of the write-back of the base register: the accessed address, or
/// after a post-indexed access the base moved by `off` into temporary `id`.
pub open spec fn wback_ops(wback: bool, post: bool, rn: nat, base: KHVal, addr: KHVal, off: int, id: u64) -> Seq<Op> {
    if wback {
        if post {
            adjust_ops(temp(ValueType::U64, id), base, off) + mov_ops(xreg(rn), temp(ValueType::U64, id))
        } else {
            mov_ops(xreg(rn), addr)
        }
    } else {
        seq![]
    }
}

/// Ops of the address of a load or store: the base register read into
/// temporary `id` and, unless post-indexed, moved by `off` into the next.
pub open spec fn addr_ops(rn: nat, post: bool, off: int, id: u64) -> Seq<Op> {
    read_ops(xreg(rn), true, id) + if post {
        seq![]
    } else {
        adjust_ops(temp(ValueType::U64, (id + 1) as u64), temp(ValueType::U64, id), off)
    }
}

/// The accessed address: the base, or the moved base unless post-indexed.
pub open spec fn addr_of(post: bool, id: u64) -> KHVal {
    if post {
        temp(ValueType::U64, id)
    } else {
        temp(ValueType::U64, (id + 1) as u64)
    }
}

/// Ops of an allocated load/store pair at PC `pc`, with temporaries from `id` on.
pub open spec fn pair_ops(insn: u32, pc: usize, id: u64) -> Seq<Op> {
    let index = field(insn, 23, 2);
    let post = index == 1;
    let wback = index == 1 || index == 3;
    let rn = field(insn, 5, 5);
    let base = temp(ValueType::U64, id);
    let addr = addr_of(post, id);
    let k: u64 = if post {
        (id + 1) as u64
    } else {
        (id + 2) as u64
    };
    let clean = temp(ValueType::U64, k);
    let off = pair_offset(insn);
    addr_ops(rn, post, off, id) + tbi_ops(clean, addr, 1) + if pair_vector(insn) {
        trap_ops(TrapOp::UndefOpcode, imm64(pc as u64), (k + 1) as u64)
    } else if pair_load(insn) {
        pair_access_ops(
            insn,
            scale(pair_size(insn)) as u64,
            clean,
            temp(ValueType::U64, (k + 1) as u64),
            temp(ValueType::U64, (k + 2) as u64),
        ) + wback_ops(wback, post, rn, base, addr, off, (k + 3) as u64)
    } else {
        pair_access_ops(
            insn,
            scale(pair_size(insn)) as u64,
            clean,
            temp(ValueType::U64, (k + 1) as u64),
            temp(ValueType::U64, (k + 1) as u64),
        ) + wback_ops(wback, post, rn, base, addr, off, (k + 2) as u64)
    }
}

/// Ids that an allocated pair allocates.
pub open spec fn pair_ids(insn: u32) -> u64 {
    let index = field(insn, 23, 2);
    let post = index == 1;
    let head: u64 = if post {
        2
    } else {
        3
    };
    if pair_vector(insn) {
        (head + 1) as u64
    } else {
        (head + (if pair_load(insn) {
            2u64
        } else {
            1u64
        }) + (if post {
            1u64
        } else {
            0u64
        })) as u64
    }
}

/// What lowering a load/store pair does.
pub open spec fn pair_done(
    new: Arm64GuestContext,
    old: Arm64GuestContext,
    r: Result<(), DisasException>,
    insn: u32,
) -> bool {
    if pair_unallocated(insn) {
        undef_done(new, old, r)
    } else {
        &&& r is Ok
        &&& new.lowered(old, r)
        &&& new.emitted(old, pair_ops(insn, old.spec_curr_pc(), old.ir.next_id), pair_ids(insn))
    }
}

#[verifier::rlimit(40)]
/// LDP, STP and LDPSW with signed offset, pre-index or post-index: two
/// accesses at the address and the address plus the register size; vector
/// pairs trap as undefined until FP is enabled.
pub fn disas_ldst_pair(ctx: &mut Arm64GuestContext, insn: u32) -> (r: Result<(), DisasException>)
    requires
        old(ctx).lowerable(),
    ensures
        pair_done(*final(ctx), *old(ctx), r, insn),
{
    proof {
        lemma_small_pow2();
    }
    let rt = extract(insn, 0, 5) as usize;
    let rn = extract(insn, 5, 5) as usize;
    let rt2 = extract(insn, 10, 5) as usize;
    let index = extract(insn, 23, 2);
    let is_vector = extract(insn, 26, 1) == 1;
    let is_load = extract(insn, 22, 1) == 1;
    let opc = extract(insn, 30, 2);
    if opc == 3 {
        return unallocated(ctx, insn);
    }
    let size: u32;
    let mut is_signed = false;
    if is_vector {
        size = 2 + opc;
    } else {
        size = 2 + opc / 2;
        is_signed = opc % 2 == 1;
        if !is_load && is_signed {
            return unallocated(ctx, insn);
        }
    }
    if index == 0 && is_signed {
        return unallocated(ctx, insn);
    }
    let scale_bytes: i64 = if size == 2 {
        4
    } else if size == 3 {
        8
    } else {
        16
    };
    let off7 = sextract(insn, 15, 7);
    let offset = off7 * scale_bytes;
    proof {
        assert(is_vector == pair_vector(insn));
        assert(is_load == pair_load(insn));
        assert(is_signed == pair_signed(insn));
        assert(size as nat == pair_size(insn));
        assert(scale_bytes as int == scale(pair_size(insn)));
        assert(offset as int == pair_offset(insn));
        assert(!pair_unallocated(insn));
    }
    let postindex = index == 1;
    let wback = index == 1 || index == 3;
    let ghost pc = old(ctx).spec_curr_pc();
    let ghost id = old(ctx).ir.next_id;
    let base = read_cpu_reg_sp(ctx, rn, true);
    let addr = if !postindex {
        let a = ctx.ir.alloc_val(ValueType::U64);
        adjust_addr(ctx, a, base, offset);
        a
    } else {
        base
    };
    let clean_addr = clean_data_tbi(ctx, addr);
    let ghost head = addr_ops(rn as nat, postindex, offset as int, id) + tbi_ops(clean_addr, addr, 1);
    proof {
        assert(addr == addr_of(postindex, id));
        assert(ctx.ir.ops@ =~= old(ctx).ir.ops@ + head);
    }
    if is_vector {
        trap_undef(ctx);
        proof {
            assert(ctx.ir.ops@ =~= old(ctx).ir.ops@ + pair_ops(insn, pc, id));
            lemma_lowered(*old(ctx), *ctx, pair_ops(insn, pc, id), pair_ids(insn), Ok(()));
        }
        return Ok(());
    }
    let bytes: u64 = if size == 2 {
        4
    } else {
        8
    };
    let ghost k = ctx.ir.next_id;
    pair_access(ctx, insn, is_load, is_signed, bytes, rt, rt2, clean_addr);
    let ghost acc = if is_load {
        pair_access_ops(
            insn,
            bytes,
            clean_addr,
            temp(ValueType::U64, k),
            temp(ValueType::U64, (k + 1) as u64),
        )
    } else {
        pair_access_ops(insn, bytes, clean_addr, temp(ValueType::U64, k), temp(ValueType::U64, k))
    };
    let ghost k2 = ctx.ir.next_id;
    write_back(ctx, wback, postindex, rn, base, addr, offset);
    proof {
        let wb = wback_ops(wback, postindex, rn as nat, base, addr, offset as int, k2);
        assert(ctx.ir.ops@ =~= old(ctx).ir.ops@ + (head + (acc + wb)));
        assert(pair_ops(insn, pc, id) =~= head + (acc + wb));
        lemma_lowered(*old(ctx), *ctx, pair_ops(insn, pc, id), pair_ids(insn), Ok(()));
    }
    Ok(())
}

/// Bytes of an access of size class `size`.
pub open spec fn access_bytes(size: nat) -> u64 {
    if size == 0 {
        1
    } else if size == 1 {
        2
    } else if size == 2 {
        4
    } else {
        8
    }
}

/// Bytes of an access of size class `size`.
fn access_bytes_of(size: u32) -> (r: u64)
    requires
        size < 4,
    ensures
        r == access_bytes(size as nat),
{
    if size == 0 {
        1
    } else if size == 1 {
        2
    } else if size == 2 {
        4
    } else {
        8
    }
}

/// Ops of a single-register access of `rt` at `clean`, per `opc`: 0 stores,
/// otherwise loads; bit 1 sign-extends, and bit 0 with it targets a 32-bit
/// register.
pub open spec fn reg_access_ops(opc: u32, size: u32, rt: nat, clean: KHVal) -> Seq<Op> {
    ldst_ops(
        opc != 0,
        opc / 2 % 2 == 1,
        size < 3 && opc % 2 == 1,
        access_bytes(size as nat),
        reg_or_zero(rt),
        clean,
    )
}

/// Ops of a single-register access with a 9-bit signed offset.
pub open spec fn imm9_ops(insn: u32, opc: u32, size: u32, rt: nat, id: u64) -> Seq<Op> {
    let idx = field(insn, 10, 2);
    let post = idx == 1;
    let wback = idx == 1 || idx == 3;
    let rn = field(insn, 5, 5);
    let base = temp(ValueType::U64, id);
    let addr = addr_of(post, id);
    let k: u64 = if post {
        (id + 1) as u64
    } else {
        (id + 2) as u64
    };
    let clean = temp(ValueType::U64, k);
    let off = sfield(insn, 12, 9);
    addr_ops(rn, post, off, id) + tbi_ops(clean, addr, 1) + reg_access_ops(opc, size, rt, clean)
        + wback_ops(wback, post, rn, base, addr, off, (k + 1) as u64)
}

/// Ids that a single-register access with a 9-bit offset allocates: the
/// base, the cleaned address, and the moved base either before the access
/// or, post-indexed, for the write-back.
pub open spec fn imm9_ids(insn: u32) -> u64 {
    3
}

/// What lowering a single-register access with a 9-bit offset does: vector
/// forms trap as undefined until FP is enabled; a prefetch emits nothing
/// (unallocated unless unscaled); `opc` 3 beyond halfwords is unallocated.
pub open spec fn imm9_done(
    new: Arm64GuestContext,
    old: Arm64GuestContext,
    r: Result<(), DisasException>,
    insn: u32,
    opc: u32,
    size: u32,
    rt: nat,
    is_vector: bool,
) -> bool {
    &&& r is Ok
    &&& new.lowered(old, r)
    &&& if is_vector || (size == 3 && opc == 2 && field(insn, 10, 2) != 0) || (!(size == 3
        && opc == 2) && opc == 3 && size > 1) {
        new.emitted(old, undef_ops(old), 1)
    } else if size == 3 && opc == 2 {
        new.emitted(old, seq![], 0)
    } else {
        new.emitted(old, imm9_ops(insn, opc, size, rt, old.ir.next_id), imm9_ids(insn))
    }
}

#[verifier::rlimit(40)]
/// LDR, STR and their sign-extending forms with a 9-bit signed offset:
/// unscaled, post-index, unprivileged or pre-index.
pub fn disas_ldst_reg_imm9(
    ctx: &mut Arm64GuestContext,
    insn: u32,
    opc: u32,
    size: u32,
    rt: usize,
    is_vector: bool,
) -> (r: Result<(), DisasException>)
    requires
        old(ctx).lowerable(),
        opc < 4,
        size < 4,
        rt < 32,
    ensures
        imm9_done(*final(ctx), *old(ctx), r, insn, opc, size, rt as nat, is_vector),
{
    proof {
        lemma_small_pow2();
    }
    let rn = extract(insn, 5, 5) as usize;
    let idx = extract(insn, 10, 2);
    let imm9 = sextract(insn, 12, 9);
    if is_vector {
        return unallocated(ctx, insn);
    }
    if size == 3 && opc == 2 {
        if idx != 0 {
            return unallocated(ctx, insn);
        }
        proof {
            assert(ctx.ir.ops@ =~= old(ctx).ir.ops@ + Seq::<Op>::empty());
            lemma_lowered(*old(ctx), *ctx, seq![], 0, Ok(()));
        }
        return Ok(());
    }
    if opc == 3 && size > 1 {
        return unallocated(ctx, insn);
    }
    let is_store = opc == 0;
    let is_signed = opc / 2 % 2 == 1;
    let is_extended = size < 3 && opc % 2 == 1;
    let post_index = idx == 1;
    let writeback = idx == 1 || idx == 3;
    let ghost id = old(ctx).ir.next_id;
    let base = read_cpu_reg_sp(ctx, rn, true);
    let addr = if !post_index {
        let a = ctx.ir.alloc_val(ValueType::U64);
        adjust_addr(ctx, a, base, imm9);
        a
    } else {
        base
    };
    let clean_addr = clean_data_tbi(ctx, addr);
    let ghost head = addr_ops(rn as nat, post_index, imm9 as int, id) + tbi_ops(clean_addr, addr, 1);
    proof {
        assert(addr == addr_of(post_index, id));
        assert(ctx.ir.ops@ =~= old(ctx).ir.ops@ + head);
    }
    let bytes = access_bytes_of(size);
    let rt_v = ctx.reg(rt);
    do_ldst(ctx, !is_store, is_signed, is_extended, bytes, rt_v, clean_addr);
    let ghost acc = reg_access_ops(opc, size, rt as nat, clean_addr);
    proof {
        assert(ctx.ir.ops@ =~= old(ctx).ir.ops@ + (head + acc));
    }
    let ghost k2 = ctx.ir.next_id;
    write_back(ctx, writeback, post_index, rn, base, addr, imm9);
    proof {
        let wb = wback_ops(writeback, post_index, rn as nat, base, addr, imm9 as int, k2);
        assert(ctx.ir.ops@ =~= old(ctx).ir.ops@ + ((head + acc) + wb));
        assert(imm9_ops(insn, opc, size, rt as nat, id) =~= (head + acc) + wb);
        lemma_lowered(*old(ctx), *ctx, imm9_ops(insn, opc, size, rt as nat, id), imm9_ids(insn), Ok(()));
    }
    Ok(())
}

/// Ops of a single-register access with a scaled 12-bit unsigned offset.
pub open spec fn uimm_ops(insn: u32, opc: u32, size: u32, rt: nat, id: u64) -> Seq<Op> {
    let rn = field(insn, 5, 5);
    let base = temp(ValueType::U64, id);
    let addr = temp(ValueType::U64, (id + 1) as u64);
    let clean = temp(ValueType::U64, (id + 2) as u64);
    read_ops(xreg(rn), true, id) + add_ops(
        addr,
        base,
        imm64((field(insn, 10, 12) * access_bytes(size as nat)) as u64),
    ) + tbi_ops(clean, addr, 1) + reg_access_ops(opc, size, rt, clean)
}

/// What lowering a single-register access with an unsigned offset does:
/// vector forms trap as undefined until FP is enabled; a prefetch emits
/// nothing; `opc` 3 beyond halfwords is unallocated.
pub open spec fn uimm_done(
    new: Arm64GuestContext,
    old: Arm64GuestContext,
    r: Result<(), DisasException>,
    insn: u32,
    opc: u32,
    size: u32,
    rt: nat,
    is_vector: bool,
) -> bool {
    &&& r is Ok
    &&& new.lowered(old, r)
    &&& if is_vector || (!(size == 3 && opc == 2) && opc == 3 && size > 1) {
        new.emitted(old, undef_ops(old), 1)
    } else if size == 3 && opc == 2 {
        new.emitted(old, seq![], 0)
    } else {
        new.emitted(old, uimm_ops(insn, opc, size, rt, old.ir.next_id), 3)
    }
}

/// LDR, STR and their sign-extending forms with a scaled 12-bit unsigned offset.
pub fn disas_ldst_reg_unsigned_imm(
    ctx: &mut Arm64GuestContext,
    insn: u32,
    opc: u32,
    size: u32,
    rt: usize,
    is_vector: bool,
) -> (r: Result<(), DisasException>)
    requires
        old(ctx).lowerable(),
        opc < 4,
        size < 4,
        rt < 32,
    ensures
        uimm_done(*final(ctx), *old(ctx), r, insn, opc, size, rt as nat, is_vector),
{
    proof {
        lemma_small_pow2();
    }
    let rn = extract(insn, 5, 5) as usize;
    let imm12 = extract(insn, 10, 12);
    if is_vector {
        return unallocated(ctx, insn);
    }
    if size == 3 && opc == 2 {
        proof {
            assert(ctx.ir.ops@ =~= old(ctx).ir.ops@ + Seq::<Op>::empty());
            lemma_lowered(*old(ctx), *ctx, seq![], 0, Ok(()));
        }
        return Ok(());
    }
    if opc == 3 && size > 1 {
        return unallocated(ctx, insn);
    }
    let is_store = opc == 0;
    let is_signed = opc / 2 % 2 == 1;
    let is_extended = size < 3 && opc % 2 == 1;
    let ghost id = old(ctx).ir.next_id;
    let bytes = access_bytes_of(size);
    let base = read_cpu_reg_sp(ctx, rn, true);
    assert(imm12 as u64 * bytes <= 4096 * 8) by (nonlinear_arith)
        requires
            imm12 < 4096,
            bytes <= 8,
    ;
    let offset = KHVal::u64(imm12 as u64 * bytes);
    let addr = ctx.ir.alloc_val(ValueType::U64);
    Op::push_add(&mut ctx.ir, addr, base, offset);
    let clean_addr = clean_data_tbi(ctx, addr);
    let rt_v = ctx.reg(rt);
    do_ldst(ctx, !is_store, is_signed, is_extended, bytes, rt_v, clean_addr);
    proof {
        assert(ctx.ir.ops@ =~= old(ctx).ir.ops@ + uimm_ops(insn, opc, size, rt as nat, id));
        lemma_lowered(*old(ctx), *ctx, uimm_ops(insn, opc, size, rt as nat, id), 3, Ok(()));
    }
    Ok(())
}

/// Atomic memory operations are not lowered yet.
pub fn disas_ldst_atomic(
    ctx: &mut Arm64GuestContext,
    insn: u32,
    size: u32,
    rt: usize,
    is_vector: bool,
) -> (r: Result<(), DisasException>)
    ensures
        r matches Err(DisasException::Unexpected(_)),
        *final(ctx) == *old(ctx),
{
    not_implemented(ctx, insn, "ldst_atomic")
}

/// Accesses with a register offset are not lowered yet.
pub fn disas_ldst_reg_offset(
    ctx: &mut Arm64GuestContext,
    insn: u32,
    opc: u32,
    size: u32,
    rt: usize,
    is_vector: bool,
) -> (r: Result<(), DisasException>)
    ensures
        r matches Err(DisasException::Unexpected(_)),
        *final(ctx) == *old(ctx),
{
    not_implemented(ctx, insn, "ldst_reg_offset")
}

/// Accesses with pointer authentication are not lowered yet.
pub fn disas_ldst_pac(
    ctx: &mut Arm64GuestContext,
    insn: u32,
    size: u32,
    rt: usize,
    is_vector: bool,
) -> (r: Result<(), DisasException>)
    ensures
        r matches Err(DisasException::Unexpected(_)),
        *final(ctx) == *old(ctx),
{
    not_implemented(ctx, insn, "ldst_pac")
}

/// What lowering a single-register load or store does, by bits 25:24 and 21:
/// a 9-bit offset, an unsigned offset, the forms not lowered yet, or an
/// unallocated encoding.
pub open spec fn ldst_reg_done(
    new: Arm64GuestContext,
    old: Arm64GuestContext,
    r: Result<(), DisasException>,
    insn: u32,
) -> bool {
    let opc = field(insn, 22, 2) as u32;
    let size = field(insn, 30, 2) as u32;
    let rt = field(insn, 0, 5);
    let v = field(insn, 26, 1) == 1;
    let op = field(insn, 24, 2);
    &&& new.lowered(old, r)
    &&& if op == 0 && field(insn, 21, 1) == 0 {
        imm9_done(new, old, r, insn, opc, size, rt, v)
    } else if op == 0 {
        unimpl(new, old, r)
    } else if op == 1 {
        uimm_done(new, old, r, insn, opc, size, rt, v)
    } else {
        undef_done(new, old, r)
    }
}

/// Single-register loads and stores: route on bits 25:24, 21 and 11:10.
pub fn disas_ldst_reg(ctx: &mut Arm64GuestContext, insn: u32) -> (r: Result<(), DisasException>)
    requires
        old(ctx).lowerable(),
    ensures
        ldst_reg_done(*final(ctx), *old(ctx), r, insn),
{
    proof {
        lemma_small_pow2();
    }
    let rt = extract(insn, 0, 5) as usize;
    let opc = extract(insn, 22, 2);
    let is_vector = extract(insn, 26, 1) == 1;
    let size = extract(insn, 30, 2);
    let op = extract(insn, 24, 2);
    if op == 0 {
        if extract(insn, 21, 1) == 0 {
            disas_ldst_reg_imm9(ctx, insn, opc, size, rt, is_vector)
        } else {
            let k = extract(insn, 10, 2);
            let r = if k == 0 {
                disas_ldst_atomic(ctx, insn, size, rt, is_vector)
            } else if k == 2 {
                disas_ldst_reg_offset(ctx, insn, opc, size, rt, is_vector)
            } else {
                disas_ldst_pac(ctx, insn, size, rt, is_vector)
            };
            proof {
                crate::arm64::system::lemma_unchanged_lowered(*ctx, r);
            }
            r
        }
    } else if op == 1 {
        disas_ldst_reg_unsigned_imm(ctx, insn, opc, size, rt, is_vector)
    } else {
        unallocated(ctx, insn)
    }
}

} // verus!
