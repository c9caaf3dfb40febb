use khemu::arm64::Arm64GuestContext;
use khemu::guest::{GuestMemory, TranslationBlock};
use khemu::host::{push_op_text, push_val_text, DumpIRHostContext};
use khemu::ir::op::{BinaryOpc, Op, UnaryOpc, COND_EQ};
use khemu::ir::storage::{KHVal, Storage, ValueType};

fn text_of(v: &KHVal) -> String {
    let mut out = Vec::new();
    push_val_text(&mut out, v);
    out.into_iter().collect()
}

fn op_line(op: &Op) -> String {
    let mut out = Vec::new();
    push_op_text(&mut out, op);
    out.into_iter().collect()
}

#[test]
fn values_render_by_kind() {
    assert_eq!(text_of(&KHVal::u64(0x1)), "#0x1");
    assert_eq!(text_of(&KHVal::u64(0xdead0000)), "#0xdead0000");
    assert_eq!(text_of(&KHVal::u32(0)), "#0x0");
    assert_eq!(text_of(&KHVal::named(0, ValueType::U64)), "$x00");
    assert_eq!(text_of(&KHVal::named(30, ValueType::U64)), "$x30");
    assert_eq!(text_of(&KHVal::named(31, ValueType::U64)), "$sp");
    assert_eq!(text_of(&KHVal::named(33, ValueType::U32)), "$zf");
    assert_eq!(text_of(&KHVal::named(36, ValueType::U64)), "$pc");
    assert_eq!(text_of(&KHVal { ty: ValueType::U64, storage: Storage::Temp(0x1a) }), "%0001a");
    assert_eq!(text_of(&KHVal { ty: ValueType::Label, storage: Storage::Label(12) }), "L12");
}

#[test]
fn ops_render_mnemonic_and_operands() {
    let x0 = KHVal::named(0, ValueType::U64);
    let add = Op::Binary { opc: BinaryOpc::Add, rd: x0, rs1: x0, rs2: KHVal::u64(1) };
    assert_eq!(op_line(&add), "add\t$x00, $x00, #0x1");
    let l = KHVal { ty: ValueType::Label, storage: Storage::Label(1) };
    let brc = Op::Brc { dest: l, c1: x0, c2: KHVal::u64(0), cc: KHVal::u64(COND_EQ) };
    assert_eq!(op_line(&brc), "brc\tL1, $x00, #0x0, #0x8");
    let mov = Op::Unary { opc: UnaryOpc::Movl, rd: KHVal::named(32, ValueType::U32), rs1: KHVal::u32(0) };
    assert_eq!(op_line(&mov), "movl\t$nf, #0x0");
}

#[test]
fn emitted_block_is_one_line_per_op() {
    let mut mem = GuestMemory::new(16);
    mem.write_bytes(0, &0x14000004u32.to_le_bytes());
    let mut ctx = Arm64GuestContext::new(mem);
    ctx.disas_block(0, 100);
    let tb: TranslationBlock = ctx.get_tb();
    let text: String = DumpIRHostContext::new().emit_block(tb).into_iter().collect();
    assert_eq!(text, "mov\t$pc, #0x10\nmov\t%00000, #0x10\ntrap\t#0x0, %00000\n");
}

#[test]
fn labels_are_numbered_in_order() {
    let mut b = DumpIRHostContext::new();
    assert_eq!(b.make_label(), Storage::Label(0));
    assert_eq!(b.make_label(), Storage::Label(1));
    assert_eq!(b.make_u64(5), Storage::ImmU64(5));
    assert_eq!(b.make_named(31, ValueType::U64), Storage::Named(31));
}
