use crate::bits::extract;
use crate::guest::{le_u32, DisasException, GuestMemory, TranslationBlock, GUEST_SIZE};
use crate::ir::builder::{IrBuilder, ID_LIMIT};
use crate::ir::make::trap_ops;
use crate::ir::op::{Op, TrapOp};
use crate::ir::storage::{imm64, KHVal, Storage, ValueType};
use crate::arm64::branch::{
    b_reg_done, comp_b_done, cond_b_done, disas_comp_b_imm, disas_cond_b_imm, disas_exc_sys,
    disas_test_b_imm, disas_uncond_b_imm, disas_uncond_b_reg, exc_sys_done, uncond_b_done,
};
use crate::arm64::data_imm::{
    add_sub_imm_done, disas_add_sub_imm, disas_bitfield, disas_extract, disas_logic_imm,
    disas_movw_imm, disas_pc_rel_addr, logic_imm_done, movw_done, pc_rel_done,
};
use crate::arm64::data_reg::{data_proc_reg_done, disas_data_proc_reg};
use crate::arm64::ldst::{disas_ldst_pair, disas_ldst_reg, ldst_reg_done, pair_done};
use crate::arm64::system::lemma_unchanged_lowered;
use crate::bits::{field, lemma_small_pow2};
use vstd::prelude::*;

/// Branches, exceptions and system instructions.
pub mod branch;
/// Shared lowering helpers: register reads, flags, conditions, shifts, masks.
pub mod facility;
/// Data processing with immediates.
pub mod data_imm;
/// Data processing on registers.
pub mod data_reg;
/// Loads and stores.
pub mod ldst;
/// System instructions: hints, barriers, system registers.
pub mod system;

verus! {

/// Register slot of the stack pointer.
pub const SLOT_SP: u32 = 31;
/// Register slot of the negative flag.
pub const SLOT_NF: u32 = 32;
/// Register slot of the zero flag.
pub const SLOT_ZF: u32 = 33;
/// Register slot of the carry flag.
pub const SLOT_CF: u32 = 34;
/// Register slot of the overflow flag.
pub const SLOT_VF: u32 = 35;
/// Register slot of the emulated program counter.
pub const SLOT_PC: u32 = 36;

/// Most ops that lowering one instruction appends.
pub const MAX_INSN_OPS: usize = 32;
/// Most temporaries and labels that lowering one instruction allocates.
pub const MAX_INSN_IDS: u64 = 16;
/// Bound on the next id below which an instruction can be lowered.
pub const LOWER_ID_LIMIT: u64 = 0x4000_0000_8000_0000;

/// The 64-bit register of slot `r` (`x0`..`x30`, or `sp` for 31).
pub open spec fn xreg(r: nat) -> KHVal {
    KHVal { ty: ValueType::U64, storage: Storage::Named(r as u32) }
}

/// Register `r` where encoding 31 reads as zero.
pub open spec fn reg_or_zero(r: nat) -> KHVal {
    if r == 31 {
        imm64(0)
    } else {
        xreg(r)
    }
}

/// The 32-bit flag register of the given slot.
pub open spec fn flag(slot: u32) -> KHVal {
    KHVal { ty: ValueType::U32, storage: Storage::Named(slot) }
}

/// The emulated program counter.
pub open spec fn pc_reg() -> KHVal {
    KHVal { ty: ValueType::U64, storage: Storage::Named(SLOT_PC) }
}

/// Disassembler context for the AArch64 frontend.
pub struct Arm64GuestContext {
    /// The guest address space.
    pub mem: GuestMemory,
    /// Address of the next instruction to disassemble.
    pub disas_pos: Option<usize>,
    /// The block under construction.
    pub ir: IrBuilder,
    /// Start address of the block under construction.
    pub start_pc: Option<usize>,
    /// Jump targets discovered statically.
    pub targets: Vec<usize>,
}

impl Arm64GuestContext {
    /// The context's invariant.
    pub open spec fn wf(&self) -> bool {
        self.ir.wf() && self.mem.wf()
    }

    /// An instruction has been fetched.
    pub open spec fn fetched(&self) -> bool {
        self.disas_pos matches Some(p) && 4 <= p <= self.mem@.len()
    }

    /// PC of the last fetched instruction.
    pub open spec fn spec_curr_pc(&self) -> usize {
        (self.disas_pos->0 - 4) as usize
    }

    /// PC of the upcoming instruction.
    pub open spec fn spec_next_pc(&self) -> usize {
        self.disas_pos->0
    }

    /// Ready to lower the fetched instruction: no exit of the block recorded
    /// yet and room for its temporaries.
    pub open spec fn lowerable(&self) -> bool {
        &&& self.wf()
        &&& self.fetched()
        &&& self.ir.next_id <= LOWER_ID_LIMIT
        &&& self.ir.direct_chain_idx is None
        &&& self.ir.aux_chain_idx is None
    }

    /// How lowering with outcome `r` leaves the block's exits: a branch records
    /// the taken exit, and the fall-through exit exactly when it is known;
    /// other outcomes record none.
    pub open spec fn chain_outcome(self, old: Self, r: Result<(), DisasException>) -> bool {
        match r {
            Err(DisasException::Branch(_, not_taken)) => {
                &&& self.ir.direct_chain_idx is Some
                &&& (self.ir.aux_chain_idx is Some <==> not_taken is Some)
            },
            _ => {
                &&& self.ir.direct_chain_idx == old.ir.direct_chain_idx
                &&& self.ir.aux_chain_idx == old.ir.aux_chain_idx
            },
        }
    }

    /// `self` follows `old` by lowering one instruction with outcome `r`: ops
    /// are only appended, a branch records its exits, nothing else changes.
    pub open spec fn lowered(self, old: Self, r: Result<(), DisasException>) -> bool {
        &&& self.wf()
        &&& self.mem == old.mem
        &&& self.disas_pos == old.disas_pos
        &&& self.start_pc == old.start_pc
        &&& self.targets == old.targets
        &&& old.ir.ops@.len() <= self.ir.ops@.len() <= old.ir.ops@.len() + MAX_INSN_OPS
        &&& self.ir.ops@.subrange(0, old.ir.ops@.len() as int) == old.ir.ops@
        &&& old.ir.next_id <= self.ir.next_id <= old.ir.next_id + MAX_INSN_IDS
        &&& self.chain_outcome(old, r)
        &&& !(r matches Err(DisasException::Continue(_)))
    }

    /// `self` follows `old` by appending exactly `s` with `n` new ids.
    pub open spec fn emitted(self, old: Self, s: Seq<Op>, n: u64) -> bool {
        &&& self.ir.ops@ == old.ir.ops@ + s
        &&& self.ir.next_id == old.ir.next_id + n
    }

    /// A new context over the guest address space.
    pub fn new(mem: GuestMemory) -> (r: Arm64GuestContext)
        requires
            mem.wf(),
        ensures
            r.wf(),
            r.mem == mem,
            r.disas_pos is None,
            r.start_pc is None,
            r.targets@ == Seq::<usize>::empty(),
            r.ir.ops@ == Seq::<Op>::empty(),
            r.ir.next_id == 0,
            r.ir.direct_chain_idx is None,
            r.ir.aux_chain_idx is None,
    {
        Arm64GuestContext {
            mem,
            disas_pos: None,
            ir: IrBuilder::new(),
            start_pc: None,
            targets: Vec::new(),
        }
    }

    /// Fetch the next instruction, a little-endian word, and advance.
    pub fn next_insn(&mut self) -> (r: u32)
        requires
            old(self).disas_pos matches Some(p) && p + 4 <= old(self).mem@.len(),
        ensures
            ({
                let p = old(self).disas_pos->0;
                &&& r == le_u32(
                    old(self).mem@[p as int],
                    old(self).mem@[p + 1],
                    old(self).mem@[p + 2],
                    old(self).mem@[p + 3],
                )
                &&& final(self).disas_pos == Some((p + 4) as usize)
            }),
            final(self).mem == old(self).mem,
            final(self).ir == old(self).ir,
            final(self).start_pc == old(self).start_pc,
            final(self).targets == old(self).targets,
    {
        let addr = self.disas_pos.unwrap();
        let _n = self.mem.len();
        let insn = self.mem.read_u32(addr);
        self.disas_pos = Some(addr + 4);
        insn
    }

    /// Register `r`, where encoding 31 is the zero register.
    pub fn reg(&self, r: usize) -> (v: KHVal)
        requires
            r < 32,
        ensures
            v == reg_or_zero(r as nat),
    {
        if r == 31 {
            KHVal::u64(0)
        } else {
            KHVal::named(r as u32, ValueType::U64)
        }
    }

    /// Register `r`, where encoding 31 is the stack pointer.
    pub fn reg_sp(&self, r: usize) -> (v: KHVal)
        requires
            r < 32,
        ensures
            v == xreg(r as nat),
    {
        KHVal::named(r as u32, ValueType::U64)
    }

    /// The flag register of `slot`.
    pub fn flag(&self, slot: u32) -> (v: KHVal)
        ensures
            v == flag(slot),
    {
        KHVal::named(slot, ValueType::U32)
    }

    /// The emulated program counter.
    pub fn pc(&self) -> (v: KHVal)
        ensures
            v == pc_reg(),
    {
        KHVal::named(SLOT_PC, ValueType::U64)
    }

    /// PC of the last fetched instruction.
    pub fn curr_pc(&self) -> (r: usize)
        requires
            self.fetched(),
        ensures
            r == self.spec_curr_pc(),
    {
        self.disas_pos.unwrap() - 4
    }

    /// PC of the upcoming instruction.
    pub fn next_pc(&self) -> (r: usize)
        requires
            self.disas_pos is Some,
        ensures
            r == self.spec_next_pc(),
    {
        self.disas_pos.unwrap()
    }
}

/// Whether `v` holds `x`.
pub fn contains(v: &Vec<usize>, x: usize) -> (r: bool)
    ensures
        r == v@.contains(x),
{
    let mut i: usize = 0;
    while i < v.len()
        invariant
            i <= v@.len(),
            forall|j: int| 0 <= j < i ==> v@[j] != x,
        decreases v@.len() - i,
    {
        if v[i] == x {
            return true;
        }
        i = i + 1;
    }
    false
}

/// Ops of an undefined instruction: a trap with its PC.
pub open spec fn undef_ops(ctx: Arm64GuestContext) -> Seq<Op> {
    trap_ops(TrapOp::UndefOpcode, imm64(ctx.spec_curr_pc() as u64), ctx.ir.next_id)
}

/// An encoding whose lowering is not written yet: the block ends with an
/// error and nothing else changes.
pub open spec fn unimpl(new: Arm64GuestContext, old: Arm64GuestContext, r: Result<(), DisasException>) -> bool {
    (r matches Err(DisasException::Unexpected(_))) && new == old
}

/// An unallocated encoding: a trap reporting the instruction's PC, and the
/// block goes on.
pub open spec fn undef_done(new: Arm64GuestContext, old: Arm64GuestContext, r: Result<(), DisasException>) -> bool {
    r is Ok && new.lowered(old, r) && new.emitted(old, undef_ops(old), 1)
}

/// Lower an unallocated encoding: a trap reporting the instruction's PC; the
/// block goes on.
pub fn unallocated(ctx: &mut Arm64GuestContext, insn: u32) -> (r: Result<(), DisasException>)
    requires
        old(ctx).lowerable(),
    ensures
        r is Ok,
        final(ctx).lowered(*old(ctx), r),
        final(ctx).emitted(*old(ctx), undef_ops(*old(ctx)), 1),
{
    trap_undef(ctx);
    proof {
        lemma_prefix(old(ctx).ir.ops@, undef_ops(*old(ctx)));
    }
    Ok(())
}

/// Trap as undefined with the instruction's PC.
pub fn trap_undef(ctx: &mut Arm64GuestContext)
    requires
        old(ctx).wf(),
        old(ctx).fetched(),
        old(ctx).ir.next_id < u64::MAX,
    ensures
        final(ctx).wf(),
        final(ctx).emitted(*old(ctx), undef_ops(*old(ctx)), 1),
        final(ctx).mem == old(ctx).mem,
        final(ctx).disas_pos == old(ctx).disas_pos,
        final(ctx).start_pc == old(ctx).start_pc,
        final(ctx).targets == old(ctx).targets,
        final(ctx).ir.direct_chain_idx == old(ctx).ir.direct_chain_idx,
        final(ctx).ir.aux_chain_idx == old(ctx).ir.aux_chain_idx,
{
    let pc = KHVal::u64(ctx.curr_pc() as u64);
    Op::push_trap(&mut ctx.ir, TrapOp::UndefOpcode, pc);
}

/// Appending at most `MAX_INSN_OPS` ops and `MAX_INSN_IDS` ids, with the
/// exits that the outcome asks for, is lowering one instruction.
pub proof fn lemma_lowered(
    old: Arm64GuestContext,
    new: Arm64GuestContext,
    s: Seq<Op>,
    n: u64,
    r: Result<(), DisasException>,
)
    requires
        new.wf(),
        new.emitted(old, s, n),
        s.len() <= MAX_INSN_OPS,
        n <= MAX_INSN_IDS,
        new.mem == old.mem,
        new.disas_pos == old.disas_pos,
        new.start_pc == old.start_pc,
        new.targets == old.targets,
        new.chain_outcome(old, r),
        !(r matches Err(DisasException::Continue(_))),
    ensures
        new.lowered(old, r),
{
    lemma_prefix(old.ir.ops@, s);
}

/// Appending ops keeps the ops appended to as a prefix.
pub proof fn lemma_prefix(a: Seq<Op>, s: Seq<Op>)
    ensures
        (a + s).subrange(0, a.len() as int) == a,
{
    assert((a + s).subrange(0, a.len() as int) =~= a);
}

/// Relies on std's `format!`: the message of an encoding whose lowering is
/// not written yet.
#[verifier::external_body]
fn not_implemented_msg(insn: u32, what: &str) -> String {
    format!("insn {:#x}: {} not implemented", insn, what)
}

/// An encoding whose lowering is not written yet: the block ends with an error.
pub fn not_implemented(ctx: &Arm64GuestContext, insn: u32, what: &str) -> (r: Result<
    (),
    DisasException,
>)
    ensures
        r matches Err(DisasException::Unexpected(_)),
{
    Err(DisasException::Unexpected(not_implemented_msg(insn, what)))
}

/// SVE instructions are not lowered yet.
pub fn disas_sve(ctx: &mut Arm64GuestContext, insn: u32) -> (r: Result<(), DisasException>)
    ensures
        r matches Err(DisasException::Unexpected(_)),
        *final(ctx) == *old(ctx),
{
    not_implemented(ctx, insn, "sve")
}

/// Exclusive loads and stores are not lowered yet.
pub fn disas_ldst_excl(ctx: &mut Arm64GuestContext, insn: u32) -> (r: Result<(), DisasException>)
    ensures
        r matches Err(DisasException::Unexpected(_)),
        *final(ctx) == *old(ctx),
{
    not_implemented(ctx, insn, "ldst_excl")
}

/// PC-relative literal loads are not lowered yet.
pub fn disas_ld_lit(ctx: &mut Arm64GuestContext, insn: u32) -> (r: Result<(), DisasException>)
    ensures
        r matches Err(DisasException::Unexpected(_)),
        *final(ctx) == *old(ctx),
{
    not_implemented(ctx, insn, "ld_lit")
}

/// Vector multiple-structure loads and stores are not lowered yet.
pub fn disas_ldst_multiple_struct(ctx: &mut Arm64GuestContext, insn: u32) -> (r: Result<(), DisasException>)
    ensures
        r matches Err(DisasException::Unexpected(_)),
        *final(ctx) == *old(ctx),
{
    not_implemented(ctx, insn, "ldst_multiple_struct")
}

/// Vector single-structure loads and stores are not lowered yet.
pub fn disas_ldst_single_struct(ctx: &mut Arm64GuestContext, insn: u32) -> (r: Result<(), DisasException>)
    ensures
        r matches Err(DisasException::Unexpected(_)),
        *final(ctx) == *old(ctx),
{
    not_implemented(ctx, insn, "ldst_single_struct")
}

/// Load-acquire and store-release with unscaled offset are not lowered yet.
pub fn disas_ldst_ldapr_stlr(ctx: &mut Arm64GuestContext, insn: u32) -> (r: Result<(), DisasException>)
    ensures
        r matches Err(DisasException::Unexpected(_)),
        *final(ctx) == *old(ctx),
{
    not_implemented(ctx, insn, "ldst_ldapr_stlr")
}

/// Scalar floating point are not lowered yet.
pub fn disas_data_proc_fp(ctx: &mut Arm64GuestContext, insn: u32) -> (r: Result<(), DisasException>)
    ensures
        r matches Err(DisasException::Unexpected(_)),
        *final(ctx) == *old(ctx),
{
    not_implemented(ctx, insn, "data_proc_fp")
}

/// Advanced SIMD are not lowered yet.
pub fn disas_data_proc_simd(ctx: &mut Arm64GuestContext, insn: u32) -> (r: Result<(), DisasException>)
    ensures
        r matches Err(DisasException::Unexpected(_)),
        *final(ctx) == *old(ctx),
{
    not_implemented(ctx, insn, "data_proc_simd")
}

/// Scalar floating point and Advanced SIMD: none is lowered yet.
pub fn disas_data_proc_simd_fp(ctx: &mut Arm64GuestContext, insn: u32) -> (r: Result<
    (),
    DisasException,
>)
    ensures
        r matches Err(DisasException::Unexpected(_)),
        *final(ctx) == *old(ctx),
{
    proof {
        lemma_small_pow2();
    }
    if extract(insn, 28, 1) == 1 && extract(insn, 30, 1) == 0 {
        disas_data_proc_fp(ctx, insn)
    } else {
        disas_data_proc_simd(ctx, insn)
    }
}

/// What lowering a data-processing (immediate) instruction does, by bits 28:23.
pub open spec fn data_proc_imm_done(
    new: Arm64GuestContext,
    old: Arm64GuestContext,
    r: Result<(), DisasException>,
    insn: u32,
) -> bool {
    let op = field(insn, 23, 6);
    &&& new.lowered(old, r)
    &&& if op == 0x20 || op == 0x21 {
        pc_rel_done(new, old, r, insn)
    } else if op == 0x22 || op == 0x23 {
        add_sub_imm_done(new, old, r, insn)
    } else if op == 0x24 {
        logic_imm_done(new, old, r, insn)
    } else if op == 0x25 {
        movw_done(new, old, r, insn)
    } else if op == 0x26 || op == 0x27 {
        unimpl(new, old, r)
    } else {
        undef_done(new, old, r)
    }
}

/// Data processing with immediates: route on bits 28:23.
pub fn disas_data_proc_imm(ctx: &mut Arm64GuestContext, insn: u32) -> (r: Result<(), DisasException>)
    requires
        old(ctx).lowerable(),
    ensures
        data_proc_imm_done(*final(ctx), *old(ctx), r, insn),
{
    proof {
        lemma_small_pow2();
    }
    let op = extract(insn, 23, 6);
    if op == 0x20 || op == 0x21 {
        disas_pc_rel_addr(ctx, insn)
    } else if op == 0x22 || op == 0x23 {
        disas_add_sub_imm(ctx, insn)
    } else if op == 0x24 {
        disas_logic_imm(ctx, insn)
    } else if op == 0x25 {
        disas_movw_imm(ctx, insn)
    } else if op == 0x26 || op == 0x27 {
        let r = if op == 0x26 {
            disas_bitfield(ctx, insn)
        } else {
            disas_extract(ctx, insn)
        };
        proof {
            lemma_unchanged_lowered(*ctx, r);
        }
        r
    } else {
        unallocated(ctx, insn)
    }
}

/// What lowering a load or store does, by bits 29:24.
pub open spec fn ldst_done(
    new: Arm64GuestContext,
    old: Arm64GuestContext,
    r: Result<(), DisasException>,
    insn: u32,
) -> bool {
    let op = field(insn, 24, 6);
    &&& new.lowered(old, r)
    &&& if op == 0x28 || op == 0x29 || op == 0x2c || op == 0x2d {
        pair_done(new, old, r, insn)
    } else if op == 0x38 || op == 0x39 || op == 0x3c || op == 0x3d {
        ldst_reg_done(new, old, r, insn)
    } else if op == 0x08 || op == 0x18 || op == 0x0c || op == 0x0d || op == 0x19 {
        unimpl(new, old, r)
    } else {
        undef_done(new, old, r)
    }
}

/// Loads and stores: route on bits 29:24.
pub fn disas_ldst(ctx: &mut Arm64GuestContext, insn: u32) -> (r: Result<(), DisasException>)
    requires
        old(ctx).lowerable(),
    ensures
        ldst_done(*final(ctx), *old(ctx), r, insn),
{
    proof {
        lemma_small_pow2();
    }
    let op = extract(insn, 24, 6);
    if op == 0x28 || op == 0x29 || op == 0x2c || op == 0x2d {
        disas_ldst_pair(ctx, insn)
    } else if op == 0x38 || op == 0x39 || op == 0x3c || op == 0x3d {
        disas_ldst_reg(ctx, insn)
    } else if op == 0x08 || op == 0x18 || op == 0x0c || op == 0x0d || op == 0x19 {
        let r = if op == 0x08 {
            disas_ldst_excl(ctx, insn)
        } else if op == 0x18 {
            disas_ld_lit(ctx, insn)
        } else if op == 0x0c {
            disas_ldst_multiple_struct(ctx, insn)
        } else if op == 0x0d {
            disas_ldst_single_struct(ctx, insn)
        } else {
            disas_ldst_ldapr_stlr(ctx, insn)
        };
        proof {
            lemma_unchanged_lowered(*ctx, r);
        }
        r
    } else {
        unallocated(ctx, insn)
    }
}

/// What lowering a branch, exception or system instruction does, by bits 31:25.
pub open spec fn b_exc_sys_done(
    new: Arm64GuestContext,
    old: Arm64GuestContext,
    r: Result<(), DisasException>,
    insn: u32,
) -> bool {
    let op = field(insn, 25, 7);
    &&& new.lowered(old, r)
    &&& if op == 0x0a || op == 0x0b || op == 0x4a || op == 0x4b {
        uncond_b_done(new, old, r, insn)
    } else if op == 0x1a || op == 0x5a {
        comp_b_done(new, old, r, insn)
    } else if op == 0x1b || op == 0x5b {
        unimpl(new, old, r)
    } else if op == 0x2a {
        cond_b_done(new, old, r, insn)
    } else if op == 0x6a {
        exc_sys_done(new, old, r, insn)
    } else if op == 0x6b {
        b_reg_done(new, old, r, insn)
    } else {
        undef_done(new, old, r)
    }
}

/// Branches, exceptions and system instructions: route on bits 31:25.
pub fn disas_b_exc_sys(ctx: &mut Arm64GuestContext, insn: u32) -> (r: Result<(), DisasException>)
    requires
        old(ctx).lowerable(),
    ensures
        b_exc_sys_done(*final(ctx), *old(ctx), r, insn),
{
    proof {
        lemma_small_pow2();
    }
    let op = extract(insn, 25, 7);
    if op == 0x0a || op == 0x0b || op == 0x4a || op == 0x4b {
        disas_uncond_b_imm(ctx, insn)
    } else if op == 0x1a || op == 0x5a {
        disas_comp_b_imm(ctx, insn)
    } else if op == 0x1b || op == 0x5b {
        let r = disas_test_b_imm(ctx, insn);
        proof {
            lemma_unchanged_lowered(*ctx, r);
        }
        r
    } else if op == 0x2a {
        disas_cond_b_imm(ctx, insn)
    } else if op == 0x6a {
        disas_exc_sys(ctx, insn)
    } else if op == 0x6b {
        disas_uncond_b_reg(ctx, insn)
    } else {
        unallocated(ctx, insn)
    }
}

/// What lowering one instruction does, by bits 28:25: the group's lowering,
/// an error for groups not lowered yet, or an undefined-instruction trap.
pub open spec fn single_done(
    new: Arm64GuestContext,
    old: Arm64GuestContext,
    r: Result<(), DisasException>,
    insn: u32,
) -> bool {
    let op0 = field(insn, 25, 4);
    &&& new.lowered(old, r)
    &&& if op0 == 0x8 || op0 == 0x9 {
        data_proc_imm_done(new, old, r, insn)
    } else if op0 == 0x5 || op0 == 0xd {
        data_proc_reg_done(new, old, r, insn)
    } else if op0 == 0xa || op0 == 0xb {
        b_exc_sys_done(new, old, r, insn)
    } else if op0 == 0x4 || op0 == 0x6 || op0 == 0xc || op0 == 0xe {
        ldst_done(new, old, r, insn)
    } else if op0 == 0x2 || op0 == 0x7 || op0 == 0xf {
        unimpl(new, old, r)
    } else {
        undef_done(new, old, r)
    }
}

/// Decode and lower one instruction: route on bits 28:25.  Unallocated
/// encodings trap as undefined and the block goes on.
pub fn disas_single(ctx: &mut Arm64GuestContext, insn: u32) -> (r: Result<(), DisasException>)
    requires
        old(ctx).lowerable(),
    ensures
        single_done(*final(ctx), *old(ctx), r, insn),
{
    proof {
        lemma_small_pow2();
    }
    let op0 = extract(insn, 25, 4);
    if op0 == 0x8 || op0 == 0x9 {
        disas_data_proc_imm(ctx, insn)
    } else if op0 == 0x5 || op0 == 0xd {
        disas_data_proc_reg(ctx, insn)
    } else if op0 == 0xa || op0 == 0xb {
        disas_b_exc_sys(ctx, insn)
    } else if op0 == 0x4 || op0 == 0x6 || op0 == 0xc || op0 == 0xe {
        disas_ldst(ctx, insn)
    } else if op0 == 0x2 || op0 == 0x7 || op0 == 0xf {
        let r = if op0 == 0x2 {
            disas_sve(ctx, insn)
        } else {
            disas_data_proc_simd_fp(ctx, insn)
        };
        proof {
            lemma_unchanged_lowered(*ctx, r);
        }
        r
    } else {
        unallocated(ctx, insn)
    }
}

/// Relies on std's `format!`: the message of a fetch outside guest memory.
#[verifier::external_body]
fn fetch_fault_msg(pc: usize) -> String {
    format!("instruction fetch outside guest memory at {:#x}", pc)
}

/// The targets that a branch outcome records.
pub open spec fn branch_targets(direct: Option<usize>, aux: Option<usize>) -> Seq<usize> {
    (match direct {
        Some(d) => seq![d],
        None => seq![],
    }) + match aux {
        Some(a) => seq![a],
        None => seq![],
    }
}

/// The larger of two numbers.
pub open spec fn max(a: int, b: int) -> int {
    if a >= b {
        a
    } else {
        b
    }
}

/// The context after fetching the instruction at its PC.
pub open spec fn fetched_at(c: Arm64GuestContext, pc: usize) -> Arm64GuestContext {
    Arm64GuestContext {
        mem: c.mem,
        disas_pos: Some((pc + 4) as usize),
        ir: c.ir,
        start_pc: c.start_pc,
        targets: c.targets,
    }
}

/// The context at the start of disassembling the block at `start`.
pub open spec fn started(c: Arm64GuestContext, start: usize) -> Arm64GuestContext {
    Arm64GuestContext {
        mem: c.mem,
        disas_pos: Some(start),
        ir: c.ir,
        start_pc: Some(start),
        targets: c.targets,
    }
}

/// The block loop from context `c` ends after lowering `k` more
/// instructions with the block `fin` and the exit `r`: at the size limit or
/// a known jump target it looks the next PC up, a fetch outside memory is an
/// error, and otherwise the instruction at the PC is lowered, the loop going
/// on when that succeeds.
pub open spec fn run(
    c: Arm64GuestContext,
    start: usize,
    size: usize,
    k: nat,
    fin: IrBuilder,
    r: DisasException,
) -> bool
    decreases k,
{
    let pc = c.disas_pos->0;
    if c.ir.ops@.len() >= size || (pc != start && c.targets@.contains(pc)) {
        &&& k == 0
        &&& fin.ops@ == c.ir.ops@ + trap_ops(TrapOp::LookupTb, imm64(pc as u64), c.ir.next_id)
        &&& fin.next_id == c.ir.next_id + 1
        &&& r == DisasException::Continue(pc)
    } else if pc > c.mem@.len() || c.mem@.len() - pc < 4 {
        &&& k == 0
        &&& fin == c.ir
        &&& r is Unexpected
    } else {
        let insn = le_u32(c.mem@[pc as int], c.mem@[pc + 1], c.mem@[pc + 2], c.mem@[pc + 3]);
        exists|mid: Arm64GuestContext, r1: Result<(), DisasException>|
            #[trigger] single_done(mid, fetched_at(c, pc), r1, insn) && match r1 {
                Ok(()) => k > 0 && run(mid, start, size, (k - 1) as nat, fin, r),
                Err(e) => k == 0 && fin == mid.ir && r == e,
            }
    }
}

/// Disassembly is repeatable: from contexts that agree on the guest memory,
/// the known jump targets and the block under construction, disassembling
/// the same start with the same size limit gives the same ops and the same
/// exit (up to the text of an error).
pub proof fn lemma_run_deterministic(
    a: Arm64GuestContext,
    b: Arm64GuestContext,
    start: usize,
    size: usize,
    k1: nat,
    k2: nat,
    f1: IrBuilder,
    f2: IrBuilder,
    r1: DisasException,
    r2: DisasException,
)
    requires
        same_state(a, b),
        run(a, start, size, k1, f1, r1),
        run(b, start, size, k2, f2, r2),
    ensures
        f1.ops@ == f2.ops@,
        f1.next_id == f2.next_id,
        r1 == r2 || (r1 is Unexpected && r2 is Unexpected),
    decreases k1,
{
    let pc = a.disas_pos->0;
    if a.ir.ops@.len() >= size || (pc != start && a.targets@.contains(pc)) {
    } else if pc > a.mem@.len() || a.mem@.len() - pc < 4 {
    } else {
        let insn = le_u32(a.mem@[pc as int], a.mem@[pc + 1], a.mem@[pc + 2], a.mem@[pc + 3]);
        let (m1, q1) = choose|mid: Arm64GuestContext, r: Result<(), DisasException>|
            #[trigger] single_done(mid, fetched_at(a, pc), r, insn) && match r {
                Ok(()) => k1 > 0 && run(mid, start, size, (k1 - 1) as nat, f1, r1),
                Err(e) => k1 == 0 && f1 == mid.ir && r1 == e,
            };
        let (m2, q2) = choose|mid: Arm64GuestContext, r: Result<(), DisasException>|
            #[trigger] single_done(mid, fetched_at(b, pc), r, insn) && match r {
                Ok(()) => k2 > 0 && run(mid, start, size, (k2 - 1) as nat, f2, r2),
                Err(e) => k2 == 0 && f2 == mid.ir && r2 == e,
            };
        lemma_single_deterministic(fetched_at(a, pc), m1, q1, fetched_at(b, pc), m2, q2, insn);
        if q1 is Ok {
            lemma_run_deterministic(m1, m2, start, size, (k1 - 1) as nat, (k2 - 1) as nat, f1, f2, r1, r2);
        }
    }
}

impl Arm64GuestContext {
    /// Disassemble the block at `start_pos` up to a branch, a known jump
    /// target, or at least `tb_size` ops: a jump target or the size limit ends the block
    /// with a lookup trap towards the next instruction.  Branch targets are
    /// recorded as jump targets.
    pub fn disas_block(&mut self, start_pos: usize, tb_size: usize) -> (r: DisasException)
        requires
            old(self).wf(),
            old(self).ir.next_id <= ID_LIMIT,
            old(self).ir.direct_chain_idx is None,
            old(self).ir.aux_chain_idx is None,
        ensures
            final(self).wf(),
            final(self).mem == old(self).mem,
            final(self).start_pc == Some(start_pos),
            final(self).ir.ops@.subrange(0, old(self).ir.ops@.len() as int) == old(self).ir.ops@,
            old(self).ir.ops@.len() <= final(self).ir.ops@.len() <= max(
                old(self).ir.ops@.len() as int,
                tb_size as int,
            ) + MAX_INSN_OPS + 2,
            r matches DisasException::Continue(p) ==> final(self).ir.ops@.len() >= tb_size || (p
                != start_pos && old(self).targets@.contains(p)),
            r matches DisasException::Continue(p) ==> final(self).ir.ops@.last() == (Op::Trap {
                cause: imm64(0),
                val: crate::ir::storage::temp(ValueType::U64, (final(self).ir.next_id - 1) as u64),
            }),
            r matches DisasException::Branch(_, aux) ==> final(self).ir.direct_chain_idx is Some && (
            final(self).ir.aux_chain_idx is Some <==> aux is Some),
            !(r is Branch) ==> final(self).ir.direct_chain_idx is None
                && final(self).ir.aux_chain_idx is None,
            r matches DisasException::Branch(d, a) ==> final(self).targets@ == old(self).targets@
                + branch_targets(d, a),
            !(r is Branch) ==> final(self).targets@ == old(self).targets@,
            exists|k: nat| run(started(*old(self), start_pos), start_pos, tb_size, k, final(self).ir, r),
    {
        let ghost init = started(*old(self), start_pos);
        self.start_pc = Some(start_pos);
        self.disas_pos = Some(start_pos);
        let ghost old_len = old(self).ir.ops@.len();
        let ghost mut steps: int = 0;
        assert(*self == init);
        loop
            invariant
                self.wf(),
                self.mem == old(self).mem,
                self.start_pc == Some(start_pos),
                self.targets == old(self).targets,
                self.disas_pos matches Some(pos) && start_pos <= pos && (pos == start_pos || pos
                    <= self.mem@.len()) && self.ir.next_id <= ID_LIMIT + 4 * (pos - start_pos),
                self.ir.direct_chain_idx is None,
                self.ir.aux_chain_idx is None,
                self.ir.ops@.subrange(0, old_len as int) == old(self).ir.ops@,
                old_len <= self.ir.ops@.len() <= max(old_len as int, tb_size as int) + MAX_INSN_OPS,
                init == started(*old(self), start_pos),
                steps >= 0,
                forall|k: nat, fin: IrBuilder, e: DisasException|
                    #[trigger] run(*self, start_pos, tb_size, k, fin, e) ==> run(
                        init,
                        start_pos,
                        tb_size,
                        k + steps as nat,
                        fin,
                        e,
                    ),
            decreases
                    (if self.disas_pos->0 <= self.mem@.len() {
                        self.mem@.len() - self.disas_pos->0 + 1
                    } else {
                        self.mem@.len() + 1int
                    }),
        {
            let pc = self.next_pc();
            let n = self.ir.ops.len();
            if n >= tb_size || (pc != start_pos && contains(&self.targets, pc)) {
                let next = KHVal::u64(pc as u64);
                let ghost before = self.ir;
                let ghost cur = *self;
                Op::push_trap(&mut self.ir, TrapOp::LookupTb, next);
                proof {
                    assert(run(cur, start_pos, tb_size, 0, self.ir, DisasException::Continue(pc)));
                    assert(self.ir.ops@.subrange(0, old_len as int) =~= old(self).ir.ops@) by {
                        assert(self.ir.ops@.subrange(0, before.ops@.len() as int) =~= before.ops@);
                    }
                }
                return DisasException::Continue(pc);
            }
            let len = self.mem.len();
            if pc > len || len - pc < 4 {
                let e = DisasException::Unexpected(fetch_fault_msg(pc));
                proof {
                    assert(run(*self, start_pos, tb_size, 0, self.ir, e));
                }
                return e;
            }
            let ghost cur = *self;
            let insn = self.next_insn();
            let ghost before = *self;
            proof {
                assert(before == fetched_at(cur, pc));
            }
            let res = disas_single(self, insn);
            proof {
                assert(self.ir.ops@.subrange(0, old_len as int) =~= old(self).ir.ops@) by {
                    assert(self.ir.ops@.subrange(0, before.ir.ops@.len() as int) == before.ir.ops@);
                    assert(before.ir.ops@.subrange(0, old_len as int) == old(self).ir.ops@);
                    assert forall|i: int| 0 <= i < old_len implies self.ir.ops@[i] == old(
                        self,
                    ).ir.ops@[i] by {
                        assert(self.ir.ops@.subrange(0, before.ir.ops@.len() as int)[i]
                            == before.ir.ops@[i]);
                        assert(before.ir.ops@.subrange(0, old_len as int)[i] == old(
                            self,
                        ).ir.ops@[i]);
                    }
                }
            }
            match res {
                Ok(()) => {
                    proof {
                        assert forall|k: nat, fin: IrBuilder, e: DisasException|
                            #[trigger] run(*self, start_pos, tb_size, k, fin, e) implies run(
                            init,
                            start_pos,
                            tb_size,
                            k + (steps + 1) as nat,
                            fin,
                            e,
                        ) by {
                            assert(single_done(*self, fetched_at(cur, pc), Ok(()), insn));
                            assert(run(cur, start_pos, tb_size, k + 1, fin, e));
                        }
                        steps = steps + 1;
                    }
                },
                Err(e) => {
                    proof {
                        assert(single_done(*self, fetched_at(cur, pc), Err(e), insn));
                        assert(run(cur, start_pos, tb_size, 0, self.ir, e));
                    }
                    if let DisasException::Branch(d, a) = &e {
                        if let Some(t) = d {
                            self.targets.push(*t);
                        }
                        if let Some(t) = a {
                            self.targets.push(*t);
                        }
                        proof {
                            assert(self.targets@ =~= old(self).targets@ + branch_targets(*d, *a));
                        }
                    }
                    return e;
                },
            }
        }
    }

    /// Hand out the translated block and make the context ready for the next.
    pub fn get_tb(&mut self) -> (tb: TranslationBlock)
        requires
            old(self).wf(),
            old(self).start_pc is Some,
        ensures
            tb.start_pc == old(self).start_pc->0,
            tb.ops@ == old(self).ir.ops@,
            tb.direct_chain_idx == old(self).ir.direct_chain_idx,
            tb.aux_chain_idx == old(self).ir.aux_chain_idx,
            final(self).wf(),
            final(self).mem == old(self).mem,
            final(self).targets == old(self).targets,
            final(self).start_pc is None,
            final(self).disas_pos is None,
            final(self).ir.ops@ == Seq::<Op>::empty(),
            final(self).ir.next_id == 0,
            final(self).ir.direct_chain_idx is None,
            final(self).ir.aux_chain_idx is None,
    {
        let start_pc = self.start_pc.unwrap();
        let (ops, direct_chain_idx, aux_chain_idx) = self.ir.take_block();
        self.disas_pos = None;
        self.start_pc = None;
        TranslationBlock { start_pc, ops, direct_chain_idx, aux_chain_idx }
    }
}

} // verus!

verus! {

/// Two contexts agree on everything that lowering reads and writes.
pub open spec fn same_state(a: Arm64GuestContext, b: Arm64GuestContext) -> bool {
    &&& a.mem == b.mem
    &&& a.disas_pos == b.disas_pos
    &&& a.start_pc == b.start_pc
    &&& a.targets == b.targets
    &&& a.ir.ops@ == b.ir.ops@
    &&& a.ir.next_id == b.ir.next_id
    &&& a.ir.direct_chain_idx == b.ir.direct_chain_idx
    &&& a.ir.aux_chain_idx == b.ir.aux_chain_idx
}

/// Lowering one instruction is a function of the context and the word: two
/// lowerings of the same word from agreeing contexts append the same ops,
/// allocate the same ids and end alike (up to the text of an error).
pub proof fn lemma_single_deterministic(
    old1: Arm64GuestContext,
    n1: Arm64GuestContext,
    r1: Result<(), DisasException>,
    old2: Arm64GuestContext,
    n2: Arm64GuestContext,
    r2: Result<(), DisasException>,
    insn: u32,
)
    requires
        same_state(old1, old2),
        single_done(n1, old1, r1, insn),
        single_done(n2, old2, r2, insn),
    ensures
        n1.ir.ops@ == n2.ir.ops@,
        n1.ir.next_id == n2.ir.next_id,
        r1 is Ok <==> r2 is Ok,
        r1 is Ok ==> same_state(n1, n2),
        r1 is Err ==> r1 == r2 || (r1 matches Err(DisasException::Unexpected(_)) && r2 matches Err(
            DisasException::Unexpected(_),
        )),
{
    let op0 = field(insn, 25, 4);
    if (op0 == 0x8 || op0 == 0x9) && field(insn, 23, 6) == 0x24 && !((field(insn, 31, 1) == 0
        && field(insn, 22, 1) == 1) || !crate::arm64::facility::wmask_valid(
        field(insn, 22, 1) as u32,
        field(insn, 10, 6) as u32,
    )) {
        let w1 = choose|w: u64|
            crate::arm64::data_imm::logic_imm_mask(insn, w) && n1.emitted(
                old1,
                crate::arm64::data_imm::logic_imm_ops(insn, w),
                0,
            );
        let w2 = choose|w: u64|
            crate::arm64::data_imm::logic_imm_mask(insn, w) && n2.emitted(
                old2,
                crate::arm64::data_imm::logic_imm_ops(insn, w),
                0,
            );
        crate::arm64::facility::lemma_bits_determine(w1, w2);
    }
}

} // verus!
