use crate::arm64::{lemma_lowered, not_implemented, unallocated, undef_ops, Arm64GuestContext};
use crate::bits::{extract, field, lemma_small_pow2};
use crate::guest::DisasException;
use crate::ir::op::Op;
use vstd::prelude::*;

verus! {

/// What lowering a system instruction does: hints emit nothing, barriers,
/// PSTATE writes and system-register accesses are not lowered yet, and other
/// encodings are unallocated.
pub open spec fn system_done(
    new: Arm64GuestContext,
    old: Arm64GuestContext,
    r: Result<(), DisasException>,
    insn: u32,
) -> bool {
    let l = field(insn, 21, 1) == 1;
    let op0 = field(insn, 19, 2);
    let op1 = field(insn, 16, 3);
    let crn = field(insn, 12, 4);
    let rt = field(insn, 0, 5);
    &&& new.lowered(old, r)
    &&& if op0 != 0 || (!l && rt == 31 && (crn == 3 || crn == 4)) {
        (r matches Err(DisasException::Unexpected(_))) && new == old
    } else if !l && rt == 31 && crn == 2 && op1 == 3 {
        r is Ok && new.emitted(old, seq![], 0)
    } else {
        r is Ok && new.emitted(old, undef_ops(old), 1)
    }
}

/// A stub's outcome leaves the context as it was, which is a lowering.
pub proof fn lemma_unchanged_lowered(ctx: Arm64GuestContext, r: Result<(), DisasException>)
    requires
        ctx.wf(),
        r matches Err(DisasException::Unexpected(_)),
    ensures
        ctx.lowered(ctx, r),
{
    assert(ctx.ir.ops@.subrange(0, ctx.ir.ops@.len() as int) =~= ctx.ir.ops@);
}

/// System instructions: hints, barriers, PSTATE writes and system registers.
pub fn disas_system(ctx: &mut Arm64GuestContext, insn: u32) -> (r: Result<(), DisasException>)
    requires
        old(ctx).lowerable(),
    ensures
        system_done(*final(ctx), *old(ctx), r, insn),
{
    proof {
        lemma_small_pow2();
    }
    let l = extract(insn, 21, 1) == 1;
    let op0 = extract(insn, 19, 2);
    let op1 = extract(insn, 16, 3);
    let crn = extract(insn, 12, 4);
    let crm = extract(insn, 8, 4);
    let op2 = extract(insn, 5, 3);
    let rt = extract(insn, 0, 5) as usize;
    if op0 == 0 {
        if l || rt != 31 {
            return unallocated(ctx, insn);
        }
        if crn == 2 {
            handle_hint(ctx, insn, op1, op2, crm)
        } else if crn == 3 {
            let r = handle_sync(ctx, insn, op1, op2, crm);
            proof {
                lemma_unchanged_lowered(*ctx, r);
            }
            r
        } else if crn == 4 {
            let r = handle_msr_i(ctx, insn, op1, op2, crm);
            proof {
                lemma_unchanged_lowered(*ctx, r);
            }
            r
        } else {
            unallocated(ctx, insn)
        }
    } else {
        let r = handle_sys(ctx, insn, l, op0, op1, op2, crn, crm, rt);
        proof {
            lemma_unchanged_lowered(*ctx, r);
        }
        r
    }
}

/// Hints (NOP, YIELD, WFE, WFI, SEV, SEVL and the rest): nothing to do at EL0.
pub fn handle_hint(ctx: &mut Arm64GuestContext, insn: u32, op1: u32, op2: u32, crm: u32) -> (r:
    Result<(), DisasException>)
    requires
        old(ctx).lowerable(),
    ensures
        r is Ok,
        final(ctx).lowered(*old(ctx), r),
        op1 != 3 ==> final(ctx).emitted(*old(ctx), undef_ops(*old(ctx)), 1),
        op1 == 3 ==> final(ctx).emitted(*old(ctx), seq![], 0),
{
    if op1 != 3 {
        return unallocated(ctx, insn);
    }
    proof {
        assert(ctx.ir.ops@ =~= old(ctx).ir.ops@ + Seq::<Op>::empty());
        lemma_lowered(*old(ctx), *ctx, seq![], 0, Ok(()));
    }
    Ok(())
}

/// Barriers are not lowered yet.
pub fn handle_sync(ctx: &mut Arm64GuestContext, insn: u32, op1: u32, op2: u32, crm: u32) -> (r:
    Result<(), DisasException>)
    ensures
        r matches Err(DisasException::Unexpected(_)),
        *final(ctx) == *old(ctx),
{
    not_implemented(ctx, insn, "handle_sync")
}

/// PSTATE writes are not lowered yet.
pub fn handle_msr_i(ctx: &mut Arm64GuestContext, insn: u32, op1: u32, op2: u32, crm: u32) -> (r:
    Result<(), DisasException>)
    ensures
        r matches Err(DisasException::Unexpected(_)),
        *final(ctx) == *old(ctx),
{
    not_implemented(ctx, insn, "handle_msr_i")
}

/// System-register accesses are not lowered yet.
pub fn handle_sys(
    ctx: &mut Arm64GuestContext,
    insn: u32,
    isread: bool,
    op0: u32,
    op1: u32,
    op2: u32,
    crn: u32,
    crm: u32,
    rt: usize,
) -> (r: Result<(), DisasException>)
    ensures
        r matches Err(DisasException::Unexpected(_)),
        *final(ctx) == *old(ctx),
{
    not_implemented(ctx, insn, "handle_sys")
}

} // verus!
