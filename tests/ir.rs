use khemu::ir::builder::IrBuilder;
use khemu::ir::op::{
    BinaryOpc, CondOp, ConvertOpc, Op, TrapOp, UnaryOpc, COND_ALWAYS, COND_EQ, COND_GE, COND_GEU,
    COND_GT, COND_LE, COND_LEU, COND_LT, COND_LTU, COND_NE, COND_NEVER, COND_GTU,
};
use khemu::ir::storage::{KHVal, MemOp, Storage, ValueType, MEMOP_GUEST_LE};

fn x(n: u32) -> KHVal {
    KHVal::named(n, ValueType::U64)
}

#[test]
fn add_of_zero_on_the_right_is_one_mov() {
    let mut b = IrBuilder::new();
    let rd = b.alloc_val(ValueType::U64);
    Op::push_add(&mut b, rd, x(3), KHVal::u64(0));
    assert_eq!(b.ops, vec![Op::Unary { opc: UnaryOpc::Mov, rd, rs1: x(3) }]);
}

#[test]
fn add_of_zero_on_the_left_is_one_mov() {
    let mut b = IrBuilder::new();
    let rd = b.alloc_val(ValueType::U64);
    Op::push_add(&mut b, rd, KHVal::u64(0), x(3));
    assert_eq!(b.ops, vec![Op::Unary { opc: UnaryOpc::Mov, rd, rs1: x(3) }]);
}

#[test]
fn add_of_zero_into_itself_is_nothing() {
    let mut b = IrBuilder::new();
    Op::push_add(&mut b, x(5), x(5), KHVal::u64(0));
    Op::push_add(&mut b, x(5), KHVal::u64(0), x(5));
    assert!(b.ops.is_empty());
}

#[test]
fn mov_to_itself_is_nothing() {
    let mut b = IrBuilder::new();
    Op::push_mov(&mut b, x(7), x(7));
    let t = b.alloc_val(ValueType::U32);
    Op::push_mov(&mut b, t, t);
    assert!(b.ops.is_empty());
}

#[test]
fn mov_between_distinct_temporaries_is_kept() {
    let mut b = IrBuilder::new();
    let t0 = b.alloc_val(ValueType::U64);
    let t1 = b.alloc_val(ValueType::U64);
    assert_ne!(t0, t1);
    Op::push_mov(&mut b, t1, t0);
    assert_eq!(b.ops.len(), 1);
}

#[test]
fn mov_picks_the_operator_of_the_type() {
    let mut b = IrBuilder::new();
    let a = KHVal::named(32, ValueType::U32);
    let c = KHVal::named(33, ValueType::U32);
    Op::push_mov(&mut b, a, c);
    assert_eq!(b.ops, vec![Op::Unary { opc: UnaryOpc::Movl, rd: a, rs1: c }]);
}

#[test]
fn add_without_zero_is_an_add() {
    let mut b = IrBuilder::new();
    Op::push_add(&mut b, x(0), x(0), KHVal::u64(1));
    assert_eq!(
        b.ops,
        vec![Op::Binary { opc: BinaryOpc::Add, rd: x(0), rs1: x(0), rs2: KHVal::u64(1) }]
    );
}

#[test]
fn writes_to_the_zero_sink_are_dropped() {
    let mut b = IrBuilder::new();
    let zero = KHVal::u64(0);
    Op::push_add(&mut b, zero, x(1), x(2));
    Op::push_sub(&mut b, zero, x(1), x(2));
    Op::push_extulq(&mut b, zero, x(1));
    Op::push_mov(&mut b, zero, x(1));
    assert!(b.ops.is_empty());
}

#[test]
fn sub_of_zero_is_a_mov_and_zero_minus_is_not() {
    let mut b = IrBuilder::new();
    Op::push_sub(&mut b, x(1), x(2), KHVal::u64(0));
    assert_eq!(b.ops, vec![Op::Unary { opc: UnaryOpc::Mov, rd: x(1), rs1: x(2) }]);
    Op::push_sub(&mut b, x(1), KHVal::u64(0), x(2));
    assert_eq!(
        b.ops[1],
        Op::Binary { opc: BinaryOpc::Sub, rd: x(1), rs1: KHVal::u64(0), rs2: x(2) }
    );
}

#[test]
fn trap_copies_its_value() {
    let mut b = IrBuilder::new();
    let pc = KHVal::named(36, ValueType::U64);
    Op::push_trap(&mut b, TrapOp::UndefOpcode, pc);
    let t = KHVal { ty: ValueType::U64, storage: Storage::Temp(0) };
    assert_eq!(
        b.ops,
        vec![
            Op::Unary { opc: UnaryOpc::Mov, rd: t, rs1: pc },
            Op::Trap { cause: KHVal::u64(1), val: t },
        ]
    );
    assert_eq!(b.next_id, 1);
}

#[test]
fn load_carries_its_memop_as_a_constant() {
    let mut b = IrBuilder::new();
    let m = MemOp::from_sign(true).union(MemOp::from_size(4)).union(MemOp { bits: MEMOP_GUEST_LE });
    Op::push_load(&mut b, x(0), x(1), m);
    assert_eq!(
        b.ops,
        vec![Op::Binary { opc: BinaryOpc::Load, rd: x(0), rs1: x(1), rs2: KHVal::u64(0b110) }]
    );
}

#[test]
fn extr_splits_into_low_and_high() {
    let mut b = IrBuilder::new();
    let lo = KHVal::named(33, ValueType::U32);
    let hi = KHVal::named(32, ValueType::U32);
    Op::push_extr(&mut b, lo, hi, x(4));
    assert_eq!(
        b.ops,
        vec![
            Op::Convert { opc: ConvertOpc::Extrl, rd: lo, rs: x(4) },
            Op::Convert { opc: ConvertOpc::Extrh, rd: hi, rs: x(4) },
        ]
    );
}

#[test]
fn constructors_wrap_immediates() {
    let mut b = IrBuilder::new();
    Op::push_extrs(&mut b, x(1), x(2), 0, 56);
    Op::push_depos(&mut b, x(1), x(1), KHVal::u64(0xbeef), 16, 16);
    Op::push_setc(&mut b, x(1), x(2), x(3), CondOp::new(COND_LTU));
    assert_eq!(
        b.ops,
        vec![
            Op::ExtrS { rd: x(1), rs: x(2), ofs: KHVal::u64(0), len: KHVal::u64(56) },
            Op::Depos {
                rd: x(1),
                rs1: x(1),
                rs2: KHVal::u64(0xbeef),
                ofs: KHVal::u64(16),
                len: KHVal::u64(16),
            },
            Op::Setc { rd: x(1), c1: x(2), c2: x(3), cc: KHVal::u64(COND_LTU) },
        ]
    );
}

#[test]
fn labels_and_temporaries_are_unique() {
    let mut b = IrBuilder::new();
    let l0 = b.alloc_label();
    let t1 = b.alloc_val(ValueType::U64);
    let l2 = b.alloc_label();
    assert_eq!(l0.storage, Storage::Label(0));
    assert_eq!(t1.storage, Storage::Temp(1));
    assert_eq!(l2.storage, Storage::Label(2));
    assert_eq!(b.alloc_u64(9), b.alloc_u64(9));
}

#[test]
fn invert_flips_bit_zero_and_is_an_involution() {
    for bits in [
        COND_NEVER, COND_ALWAYS, COND_EQ, COND_NE, COND_LT, COND_GE, COND_LE, COND_GT, COND_LTU,
        COND_GEU, COND_LEU, COND_GTU,
    ] {
        let mut c = CondOp::new(bits);
        c.invert();
        assert_eq!(c.bits, bits ^ 1);
        assert!(CondOp::from_bits(c.bits).is_some());
        c.invert();
        assert_eq!(c.bits, bits);
    }
    let mut eq = CondOp::new(COND_EQ);
    eq.invert();
    assert_eq!(eq.bits, COND_NE);
    let mut ge = CondOp::new(COND_GE);
    ge.invert();
    assert_eq!(ge.bits, COND_LT);
}

#[test]
fn cond_from_bits_rejects_unused_codes() {
    assert!(CondOp::from_bits(6).is_none());
    assert!(CondOp::from_bits(16).is_none());
    assert_eq!(CondOp::from_bits(COND_GTU), Some(CondOp { bits: COND_GTU }));
}

#[test]
fn memop_round_trips() {
    for n in [1u64, 2, 4, 8] {
        assert_eq!(MemOp::from_size(n).get_size(), n);
    }
    assert_eq!(MemOp::from_size(1).bits, 0);
    assert_eq!(MemOp::from_size(8).bits, 3);
    assert!(MemOp::from_sign(true).get_sign());
    assert!(!MemOp::from_sign(false).get_sign());
    let m = MemOp::from_sign(true).union(MemOp::from_size(2));
    assert_eq!(m.get_size(), 2);
    assert!(m.get_sign());
}

#[test]
fn trap_causes_encode() {
    assert_eq!(TrapOp::LookupTb.bits(), 0);
    assert_eq!(TrapOp::Dynamic.bits(), 4);
    assert_eq!(TrapOp::from_bits(2), Some(TrapOp::AccessFault));
    assert_eq!(TrapOp::from_bits(5), None);
}

#[test]
fn constants_read_back() {
    assert_eq!(KHVal::u64(7).try_as_u64(), Some(7));
    assert_eq!(KHVal::u32(7).try_as_u64(), None);
    assert_eq!(KHVal::u32(7).try_as_u32(), Some(7));
    assert!(KHVal::u64(0).is_zero());
    assert!(!KHVal::u32(0).is_zero());
}
