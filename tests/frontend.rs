use khemu::arm64::Arm64GuestContext;
use khemu::guest::{DisasException, GuestMemory, TranslationBlock};
use khemu::ir::op::{BinaryOpc, ConvertOpc, Op, UnaryOpc, COND_EQ};
use khemu::ir::storage::{KHVal, Storage, ValueType};

const PC: u32 = 36;
const SP: u32 = 31;

fn x(n: u32) -> KHVal {
    KHVal::named(n, ValueType::U64)
}

fn t(id: u64) -> KHVal {
    KHVal { ty: ValueType::U64, storage: Storage::Temp(id) }
}

fn imm(v: u64) -> KHVal {
    KHVal::u64(v)
}

fn lookup(v: u64, id: u64) -> Vec<Op> {
    vec![
        Op::Unary { opc: UnaryOpc::Mov, rd: x(PC), rs1: imm(v) },
        Op::Unary { opc: UnaryOpc::Mov, rd: t(id), rs1: imm(v) },
        Op::Trap { cause: imm(0), val: t(id) },
    ]
}

/// A context over `size` bytes holding `words` from address `at`.
fn context(size: usize, at: usize, words: &[u32]) -> Arm64GuestContext {
    let mut mem = GuestMemory::new(size);
    let mut bytes = Vec::new();
    for w in words {
        bytes.extend_from_slice(&w.to_le_bytes());
    }
    mem.write_bytes(at, &bytes);
    Arm64GuestContext::new(mem)
}

fn translate(ctx: &mut Arm64GuestContext, start: usize, size: usize) -> (DisasException, TranslationBlock) {
    let e = ctx.disas_block(start, size);
    (e, ctx.get_tb())
}

#[test]
fn add_immediate_adds_into_x0() {
    let mut ctx = context(64, 0, &[0x91000400]);
    let (e, tb) = translate(&mut ctx, 0, 1);
    assert_eq!(tb.ops[0], Op::Binary { opc: BinaryOpc::Add, rd: x(0), rs1: x(0), rs2: imm(1) });
    assert_eq!(e, DisasException::Continue(4));
    assert_eq!(tb.ops.len(), 3);
}

#[test]
fn movz_with_shift_moves_the_shifted_constant() {
    let mut ctx = context(64, 0, &[0xD2BBD5A0]);
    let (_, tb) = translate(&mut ctx, 0, 1);
    assert_eq!(tb.ops[0], Op::Unary { opc: UnaryOpc::Mov, rd: x(0), rs1: imm(0xdead0000) });
    assert_eq!(tb.ops.len(), 3);
}

#[test]
fn cbz_ends_the_block_on_both_edges() {
    let mut ctx = context(64, 0, &[0xB4000041]);
    let (e, tb) = translate(&mut ctx, 0, 100);
    let label = KHVal { ty: ValueType::Label, storage: Storage::Label(1) };
    let mut expected = vec![
        Op::Unary { opc: UnaryOpc::Mov, rd: t(0), rs1: x(1) },
        Op::Brc { dest: label, c1: t(0), c2: imm(0), cc: imm(COND_EQ) },
    ];
    expected.extend(lookup(4, 2));
    expected.push(Op::Setlbl { label });
    expected.extend(lookup(8, 3));
    assert_eq!(tb.ops, expected);
    assert_eq!(e, DisasException::Branch(Some(8), Some(4)));
    assert_eq!(tb.aux_chain_idx, Some(4));
    assert_eq!(tb.direct_chain_idx, Some(8));
}

#[test]
fn b_ends_the_block_towards_its_target() {
    let mut ctx = context(64, 0x10, &[0x14000004]);
    let (e, tb) = translate(&mut ctx, 0x10, 100);
    assert_eq!(tb.ops, lookup(0x20, 0));
    assert_eq!(e, DisasException::Branch(Some(0x20), None));
    assert_eq!(tb.direct_chain_idx, Some(2));
    assert_eq!(tb.aux_chain_idx, None);
    assert_eq!(tb.start_pc, 0x10);
}

#[test]
fn unknown_opcode_traps_and_the_block_goes_on() {
    let mut ctx = context(64, 0, &[0, 0, 0]);
    let (e, tb) = translate(&mut ctx, 0, 5);
    assert_eq!(
        &tb.ops[0..2],
        &[
            Op::Unary { opc: UnaryOpc::Mov, rd: t(0), rs1: imm(0) },
            Op::Trap { cause: imm(1), val: t(0) },
        ]
    );
    assert_eq!(tb.ops[3], Op::Trap { cause: imm(1), val: t(1) });
    assert_eq!(tb.ops[2], Op::Unary { opc: UnaryOpc::Mov, rd: t(1), rs1: imm(4) });
    // three traps of two ops exceed five ops; then the block looks up the next PC.
    assert_eq!(e, DisasException::Continue(12));
    assert_eq!(tb.ops.len(), 8);
    assert_eq!(tb.direct_chain_idx, None);
}

#[test]
fn ldp_loads_both_registers_before_writing_the_first() {
    let mut ctx = context(64, 0, &[0xA94107E0]);
    let (e, tb) = translate(&mut ctx, 0, 7);
    assert_eq!(
        &tb.ops[0..7],
        &[
            Op::Unary { opc: UnaryOpc::Mov, rd: t(0), rs1: x(SP) },
            Op::Binary { opc: BinaryOpc::Add, rd: t(1), rs1: t(0), rs2: imm(16) },
            Op::ExtrS { rd: t(2), rs: t(1), ofs: imm(0), len: imm(56) },
            Op::Binary { opc: BinaryOpc::Load, rd: t(3), rs1: t(2), rs2: imm(3) },
            Op::Binary { opc: BinaryOpc::Add, rd: t(4), rs1: t(2), rs2: imm(8) },
            Op::Binary { opc: BinaryOpc::Load, rd: x(1), rs1: t(4), rs2: imm(3) },
            Op::Unary { opc: UnaryOpc::Mov, rd: x(0), rs1: t(3) },
        ]
    );
    assert_eq!(e, DisasException::Continue(4));
}

#[test]
fn bl_links_the_return_address() {
    let mut ctx = context(64, 0, &[0x94000002]);
    let (e, tb) = translate(&mut ctx, 0, 100);
    assert_eq!(tb.ops[0], Op::Unary { opc: UnaryOpc::Mov, rd: x(30), rs1: imm(4) });
    assert_eq!(e, DisasException::Branch(Some(8), None));
}

#[test]
fn backward_branch_targets_wrap_nothing_in_range() {
    let mut ctx = context(64, 0x20, &[0x17fffffc]);
    let (e, _) = translate(&mut ctx, 0x20, 100);
    assert_eq!(e, DisasException::Branch(Some(0x10), None));
}

#[test]
fn conditional_branch_sets_both_chain_points() {
    // b.ne +12
    let mut ctx = context(64, 0, &[0x54000061]);
    let (e, tb) = translate(&mut ctx, 0, 100);
    assert_eq!(e, DisasException::Branch(Some(12), Some(4)));
    let d = tb.direct_chain_idx.unwrap();
    let a = tb.aux_chain_idx.unwrap();
    assert!(matches!(tb.ops[d], Op::Trap { .. }));
    assert!(matches!(tb.ops[a], Op::Trap { .. }));
    assert_eq!(d, tb.ops.len() - 1);
}

#[test]
fn ret_has_no_static_target() {
    let mut ctx = context(64, 0, &[0xd65f03c0]);
    let (e, tb) = translate(&mut ctx, 0, 100);
    assert_eq!(e, DisasException::Branch(None, None));
    assert_eq!(tb.ops, lookup_reg(x(30), 0));
    assert_eq!(tb.direct_chain_idx, Some(2));
    assert_eq!(tb.aux_chain_idx, None);
}

fn lookup_reg(v: KHVal, id: u64) -> Vec<Op> {
    vec![
        Op::Unary { opc: UnaryOpc::Mov, rd: x(PC), rs1: v },
        Op::Unary { opc: UnaryOpc::Mov, rd: t(id), rs1: v },
        Op::Trap { cause: imm(0), val: t(id) },
    ]
}

#[test]
fn size_cap_bounds_the_block() {
    // a run of `add x0, x0, #1`, one op each
    let mut ctx = context(256, 0, &[0x91000400; 64]);
    let (e, tb) = translate(&mut ctx, 0, 10);
    assert_eq!(e, DisasException::Continue(40));
    assert!(tb.ops.len() >= 10 && tb.ops.len() <= 10 + 34);
    assert_eq!(tb.ops.len(), 12);
}

#[test]
fn known_targets_end_blocks() {
    // b +8 at 0, then two adds at 4 and 8
    let mut ctx = context(64, 0, &[0x14000002, 0x91000400, 0x91000400]);
    let (e, _) = translate(&mut ctx, 0, 100);
    assert_eq!(e, DisasException::Branch(Some(8), None));
    let (e2, tb2) = translate(&mut ctx, 4, 100);
    assert_eq!(e2, DisasException::Continue(8));
    assert_eq!(tb2.ops[0], Op::Binary { opc: BinaryOpc::Add, rd: x(0), rs1: x(0), rs2: imm(1) });
    assert_eq!(tb2.ops.len(), 3);
}

#[test]
fn translating_twice_gives_the_same_block() {
    let words = [0x91000400, 0xD2BBD5A0, 0xA94107E0, 0x0, 0xB4000041];
    let mut ctx = context(64, 0, &words);
    let (e1, tb1) = translate(&mut ctx, 0, 100);
    let (e2, tb2) = translate(&mut ctx, 0, 100);
    assert_eq!(e1, e2);
    assert_eq!(tb1.ops, tb2.ops);
    assert_eq!(tb1.direct_chain_idx, tb2.direct_chain_idx);
    assert_eq!(tb1.aux_chain_idx, tb2.aux_chain_idx);
}

#[test]
fn fetch_outside_memory_is_an_error() {
    let mut ctx = context(8, 0, &[0x91000400, 0x91000400]);
    let (e, _) = translate(&mut ctx, 0, 100);
    assert!(matches!(e, DisasException::Unexpected(_)));
}

#[test]
fn unimplemented_groups_are_errors() {
    // tbz x0, #0, +8
    let mut ctx = context(64, 0, &[0x36000040]);
    let (e, tb) = translate(&mut ctx, 0, 100);
    assert!(matches!(e, DisasException::Unexpected(_)));
    assert!(tb.ops.is_empty());
}

#[test]
fn cmp_immediate_sets_flags() {
    // subs xzr, x1, #2 (cmp x1, #2)
    let mut ctx = context(64, 0, &[0xF100083F]);
    let (_, tb) = translate(&mut ctx, 0, 1);
    let nf = KHVal::named(32, ValueType::U32);
    let zf = KHVal::named(33, ValueType::U32);
    assert_eq!(tb.ops[0], Op::Binary { opc: BinaryOpc::Sub, rd: t(0), rs1: x(1), rs2: imm(2) });
    assert_eq!(tb.ops[1], Op::Convert { opc: ConvertOpc::Extrl, rd: zf, rs: t(0) });
    assert_eq!(tb.ops[2], Op::Convert { opc: ConvertOpc::Extrh, rd: nf, rs: t(0) });
}

#[test]
fn csel_selects_between_registers() {
    // csel x0, x1, x2, eq
    let mut ctx = context(64, 0, &[0x9A820020]);
    let (_, tb) = translate(&mut ctx, 0, 1);
    let zf = KHVal::named(33, ValueType::U32);
    assert_eq!(tb.ops[0], Op::Convert { opc: ConvertOpc::ExtSlq, rd: t(0), rs: zf });
    assert_eq!(tb.ops[1], Op::Unary { opc: UnaryOpc::Mov, rd: t(1), rs1: x(2) });
    assert_eq!(
        tb.ops[2],
        Op::Movc { rd: x(0), rs1: x(1), rs2: t(1), c1: t(0), c2: imm(0), cc: imm(COND_EQ) }
    );
}

#[test]
fn and_immediate_is_an_and() {
    // and x0, x1, #0xff
    let mut ctx = context(64, 0, &[0x92401C20]);
    let (_, tb) = translate(&mut ctx, 0, 1);
    assert_eq!(tb.ops[0], Op::Binary { opc: BinaryOpc::And, rd: x(0), rs1: x(1), rs2: imm(0xff) });
}

#[test]
fn str_with_pre_index_writes_back() {
    // str x0, [sp, #-16]!
    let mut ctx = context(64, 0, &[0xF81F0FE0]);
    let (_, tb) = translate(&mut ctx, 0, 1);
    assert_eq!(
        &tb.ops[0..5],
        &[
            Op::Unary { opc: UnaryOpc::Mov, rd: t(0), rs1: x(SP) },
            Op::Binary { opc: BinaryOpc::Sub, rd: t(1), rs1: t(0), rs2: imm(16) },
            Op::ExtrS { rd: t(2), rs: t(1), ofs: imm(0), len: imm(56) },
            Op::Binary { opc: BinaryOpc::Store, rd: x(0), rs1: t(2), rs2: imm(3) },
            Op::Unary { opc: UnaryOpc::Mov, rd: x(SP), rs1: t(1) },
        ]
    );
}

#[test]
fn ldr_post_index_moves_the_base_after_the_access() {
    // ldr x2, [x3], #8
    let mut ctx = context(64, 0, &[0xF8408462]);
    let (_, tb) = translate(&mut ctx, 0, 1);
    assert_eq!(
        &tb.ops[0..6],
        &[
            Op::Unary { opc: UnaryOpc::Mov, rd: t(0), rs1: x(3) },
            Op::ExtrS { rd: t(1), rs: t(0), ofs: imm(0), len: imm(56) },
            Op::Binary { opc: BinaryOpc::Load, rd: x(2), rs1: t(1), rs2: imm(3) },
            Op::Binary { opc: BinaryOpc::Add, rd: t(2), rs1: t(0), rs2: imm(8) },
            Op::Unary { opc: UnaryOpc::Mov, rd: x(3), rs1: t(2) },
            Op::Unary { opc: UnaryOpc::Mov, rd: t(3), rs1: imm(4) },
        ]
    );
}

#[test]
fn temporaries_are_written_once() {
    // add, movz, ldp, an undefined word, cmp w1, #2, csinc, orr with shift, cbz
    let words = [
        0x91000400, 0xD2BBD5A0, 0xA94107E0, 0x0, 0x7100083F, 0x9A820420, 0xAA020C20, 0xB4000041,
    ];
    let mut ctx = context(64, 0, &words);
    let (_, tb) = translate(&mut ctx, 0, 1000);
    let mut written = std::collections::HashSet::new();
    for op in &tb.ops {
        let dests: Vec<KHVal> = match *op {
            Op::Unary { rd, .. } | Op::Convert { rd, .. } | Op::Binary { rd, .. } => vec![rd],
            Op::Setc { rd, .. } | Op::Movc { rd, .. } => vec![rd],
            Op::ExtrU { rd, .. } | Op::ExtrS { rd, .. } | Op::Depos { rd, .. } => vec![rd],
            Op::Add2 { rl, rh, .. } | Op::Add2l { rl, rh, .. } => vec![rl, rh],
            _ => vec![],
        };
        for d in dests {
            if let Storage::Temp(id) = d.storage {
                assert!(written.insert(id), "temporary {} written twice", id);
            }
        }
    }
}

#[test]
fn adrp_addresses_the_page() {
    // adrp x0, #0x1000 at 0x1234
    let mut ctx = context(0x2000, 0x1234, &[0x90000000 | (1 << 29)]);
    let (_, tb) = translate(&mut ctx, 0x1234, 1);
    assert_eq!(tb.ops[0], Op::Unary { opc: UnaryOpc::Mov, rd: x(0), rs1: imm(0x2000) });
}

#[test]
fn nop_emits_nothing() {
    let mut ctx = context(64, 0, &[0xd503201f, 0x91000400]);
    let (_, tb) = translate(&mut ctx, 0, 1);
    assert_eq!(tb.ops[0], Op::Binary { opc: BinaryOpc::Add, rd: x(0), rs1: x(0), rs2: imm(1) });
}

#[test]
fn a_branch_back_into_the_block_splits_it_next_time() {
    // add; add; b.ne -4 (to 4): the taken target lies inside the block
    let mut ctx = context(64, 0, &[0x91000400, 0x91000400, 0x54ffffe1]);
    let (e1, tb1) = translate(&mut ctx, 0, 100);
    assert_eq!(e1, DisasException::Branch(Some(4), Some(12)));
    let (e2, tb2) = translate(&mut ctx, 0, 100);
    assert_eq!(e2, DisasException::Continue(4));
    assert!(tb2.ops.len() < tb1.ops.len());
}
