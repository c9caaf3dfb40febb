use crate::ir::storage::{imm64, KHVal, Storage, ValueType};
use vstd::prelude::*;

verus! {

/// Unary operators `op rd, rs1`: both operands of the operator's type.
#[derive(Debug, PartialEq, Eq, Structural, Clone, Copy)]
pub enum UnaryOpc {
    /// Negate (`U64`).
    Neg,
    /// Bitwise not (`U64`).
    Not,
    /// Duplicate a register (`U64`).
    Mov,
    /// Byte swap (`U64`).
    Bswap,
    /// Negate (`U32`).
    Negl,
    /// Duplicate a register (`U32`).
    Movl,
    /// Duplicate a register (`F64`).
    Movd,
}

/// Conversions `op rd, rs`: only `rd` has the operator's type.
#[derive(Debug, PartialEq, Eq, Structural, Clone, Copy)]
pub enum ConvertOpc {
    /// Zero-extend the low 32 bits to 64 bits.
    ExtUlq,
    /// Sign-extend the low 32 bits to 64 bits.
    ExtSlq,
    /// Zero-extend the low 16 bits to 64 bits.
    ExtUwq,
    /// Sign-extend the low 16 bits to 64 bits.
    ExtSwq,
    /// Zero-extend the low 8 bits to 64 bits.
    ExtUbq,
    /// Sign-extend the low 8 bits to 64 bits.
    ExtSbq,
    /// The low 32 bits of a 64-bit value.
    Extrl,
    /// The high 32 bits of a 64-bit value.
    Extrh,
}

/// Binary operators `op rd, rs1, rs2`: all operands of the operator's type.
///
/// `Load` and `Store` take the access address in `rs1` and the `MemOp` as a
/// `U64` constant in `rs2`.
#[derive(Debug, PartialEq, Eq, Structural, Clone, Copy)]
pub enum BinaryOpc {
    Add,
    Sub,
    Mul,
    Div,
    /// Signed remainder.
    Rem,
    /// Unsigned remainder.
    Remu,
    And,
    Or,
    Xor,
    /// `a & !b`.
    Andc,
    /// `!(a ^ b)`.
    Eqv,
    Nand,
    Nor,
    /// `a | !b`.
    Orc,
    Clz,
    Ctz,
    Shl,
    /// Logical right shift.
    Shr,
    /// Arithmetic right shift.
    Sar,
    Rotl,
    Rotr,
    Load,
    Store,
    Subl,
    Andl,
    Orl,
    Xorl,
    Andcl,
    Sarl,
    Rotrl,
    Addd,
    Subd,
    Muld,
    Divd,
}

impl UnaryOpc {
    /// The value type of the operator's group.
    pub open spec fn group(self) -> ValueType {
        match self {
            UnaryOpc::Negl | UnaryOpc::Movl => ValueType::U32,
            UnaryOpc::Movd => ValueType::F64,
            _ => ValueType::U64,
        }
    }
}

impl ConvertOpc {
    /// The value type of the destination.
    pub open spec fn group(self) -> ValueType {
        match self {
            ConvertOpc::Extrl | ConvertOpc::Extrh => ValueType::U32,
            _ => ValueType::U64,
        }
    }
}

impl BinaryOpc {
    /// The value type of the operator's group.
    pub open spec fn group(self) -> ValueType {
        match self {
            BinaryOpc::Subl | BinaryOpc::Andl | BinaryOpc::Orl | BinaryOpc::Xorl
            | BinaryOpc::Andcl | BinaryOpc::Sarl | BinaryOpc::Rotrl => ValueType::U32,
            BinaryOpc::Addd | BinaryOpc::Subd | BinaryOpc::Muld | BinaryOpc::Divd => ValueType::F64,
            _ => ValueType::U64,
        }
    }
}

/// Condition codes: never.
pub const COND_NEVER: u64 = 0b0000;
/// Condition codes: always.
pub const COND_ALWAYS: u64 = 0b0001;
/// Condition codes: equal.
pub const COND_EQ: u64 = 0b1000;
/// Condition codes: not equal.
pub const COND_NE: u64 = 0b1001;
/// Condition codes: signed less than.
pub const COND_LT: u64 = 0b0010;
/// Condition codes: signed greater or equal.
pub const COND_GE: u64 = 0b0011;
/// Condition codes: signed less or equal.
pub const COND_LE: u64 = 0b1010;
/// Condition codes: signed greater than.
pub const COND_GT: u64 = 0b1011;
/// Condition codes: unsigned less than.
pub const COND_LTU: u64 = 0b0100;
/// Condition codes: unsigned greater or equal.
pub const COND_GEU: u64 = 0b0101;
/// Condition codes: unsigned less or equal.
pub const COND_LEU: u64 = 0b1100;
/// Condition codes: unsigned greater than.
pub const COND_GTU: u64 = 0b1101;

/// The twelve encodings of a condition.
pub open spec fn is_cond_code(bits: u64) -> bool {
    bits == COND_NEVER || bits == COND_ALWAYS || bits == COND_EQ || bits == COND_NE
        || bits == COND_LT || bits == COND_GE || bits == COND_LE || bits == COND_GT
        || bits == COND_LTU || bits == COND_GEU || bits == COND_LEU || bits == COND_GTU
}

/// Condition code of a conditional operator.  The encoding is such that
/// toggling bit 0 inverts the condition.
#[derive(Debug, PartialEq, Eq, Structural, Clone, Copy)]
pub struct CondOp {
    /// The encoding, one of the `COND_*` constants.
    pub bits: u64,
}

impl CondOp {
    /// The condition with the given encoding.
    pub fn new(bits: u64) -> (r: CondOp)
        requires
            is_cond_code(bits),
        ensures
            r.bits == bits,
    {
        CondOp { bits }
    }

    /// The condition with the given encoding, if it is one.
    pub fn from_bits(bits: u64) -> (r: Option<CondOp>)
        ensures
            r == (if is_cond_code(bits) {
                Some(CondOp { bits })
            } else {
                None
            }),
    {
        if bits == COND_NEVER || bits == COND_ALWAYS || bits == COND_EQ || bits == COND_NE
            || bits == COND_LT || bits == COND_GE || bits == COND_LE || bits == COND_GT
            || bits == COND_LTU || bits == COND_GEU || bits == COND_LEU || bits == COND_GTU {
            Some(CondOp { bits })
        } else {
            None
        }
    }

    /// The encoding of the opposite condition.
    pub open spec fn inverted(bits: u64) -> u64 {
        bits ^ 1
    }

    /// Invert the condition in place.
    pub fn invert(&mut self)
        ensures
            final(self).bits == CondOp::inverted(old(self).bits),
    {
        self.bits = self.bits ^ 1;
    }
}

/// Inverting a condition twice gives it back, and the inverted encoding
/// differs from the encoding in bit 0 alone.
pub proof fn lemma_invert_involution(bits: u64)
    ensures
        CondOp::inverted(CondOp::inverted(bits)) == bits,
        CondOp::inverted(bits) & 1 != bits & 1,
        CondOp::inverted(bits) & !1u64 == bits & !1u64,
{
    assert((bits ^ 1) ^ 1 == bits) by (bit_vector);
    assert((bits ^ 1) & 1 != bits & 1) by (bit_vector);
    assert((bits ^ 1) & !1u64 == bits & !1u64) by (bit_vector);
}

/// Inverting a valid condition gives a valid condition.
pub proof fn lemma_invert_valid(bits: u64)
    requires
        is_cond_code(bits),
    ensures
        is_cond_code(CondOp::inverted(bits)),
{
    assert(0u64 ^ 1 == 1 && 1u64 ^ 1 == 0 && 8u64 ^ 1 == 9 && 9u64 ^ 1 == 8 && 2u64 ^ 1 == 3
        && 3u64 ^ 1 == 2 && 10u64 ^ 1 == 11 && 11u64 ^ 1 == 10 && 4u64 ^ 1 == 5 && 5u64 ^ 1 == 4
        && 12u64 ^ 1 == 13 && 13u64 ^ 1 == 12) by (bit_vector);
}

/// Causes of a trap to the runtime.
#[derive(Debug, PartialEq, Eq, Structural, Clone, Copy)]
pub enum TrapOp {
    /// The next block is not known; the value is its start address.
    LookupTb,
    /// Undefined instruction; the value is its guest PC.
    UndefOpcode,
    /// Impossible memory access; the value is the guest address.
    AccessFault,
    /// System call; the value points at the syscall data block.
    Syscall,
    /// Dynamically-linked call; the value is the call site.
    Dynamic,
}

impl TrapOp {
    /// The encoding of the cause.
    pub open spec fn spec_bits(self) -> u64 {
        match self {
            TrapOp::LookupTb => 0,
            TrapOp::UndefOpcode => 1,
            TrapOp::AccessFault => 2,
            TrapOp::Syscall => 3,
            TrapOp::Dynamic => 4,
        }
    }

    /// The encoding of the cause.
    pub fn bits(&self) -> (r: u64)
        ensures
            r == self.spec_bits(),
    {
        match self {
            TrapOp::LookupTb => 0,
            TrapOp::UndefOpcode => 1,
            TrapOp::AccessFault => 2,
            TrapOp::Syscall => 3,
            TrapOp::Dynamic => 4,
        }
    }

    /// The cause of an encoding, if it is one.
    pub fn from_bits(bits: u64) -> (r: Option<TrapOp>)
        ensures
            r matches Some(t) ==> t.spec_bits() == bits,
            r is None <==> bits > 4,
    {
        if bits == 0 {
            Some(TrapOp::LookupTb)
        } else if bits == 1 {
            Some(TrapOp::UndefOpcode)
        } else if bits == 2 {
            Some(TrapOp::AccessFault)
        } else if bits == 3 {
            Some(TrapOp::Syscall)
        } else if bits == 4 {
            Some(TrapOp::Dynamic)
        } else {
            None
        }
    }
}

/// An IR operation.  Each operand is held by value.
#[allow(inconsistent_fields)]
#[derive(Debug, PartialEq, Eq, Structural, Clone, Copy)]
pub enum Op {
    /// `opc rd, rs1`.
    Unary { opc: UnaryOpc, rd: KHVal, rs1: KHVal },
    /// `opc rd, rs`, where `rs` may have another type than `rd`.
    Convert { opc: ConvertOpc, rd: KHVal, rs: KHVal },
    /// `opc rd, rs1, rs2`.
    Binary { opc: BinaryOpc, rd: KHVal, rs1: KHVal, rs2: KHVal },
    /// Place `label` at the current point of the block.
    Setlbl { label: KHVal },
    /// Branch to `dest` if `c1 cc c2`.
    Brc { dest: KHVal, c1: KHVal, c2: KHVal, cc: KHVal },
    /// `rd = (c1 cc c2) ? 1 : 0`.
    Setc { rd: KHVal, c1: KHVal, c2: KHVal, cc: KHVal },
    /// `rd = (c1 cc c2) ? rs1 : rs2`.
    Movc { rd: KHVal, rs1: KHVal, rs2: KHVal, c1: KHVal, c2: KHVal, cc: KHVal },
    /// Unsigned bit-field extraction of `len` bits at `ofs`.
    ExtrU { rd: KHVal, rs: KHVal, ofs: KHVal, len: KHVal },
    /// Signed bit-field extraction of `len` bits at `ofs`.
    ExtrS { rd: KHVal, rs: KHVal, ofs: KHVal, len: KHVal },
    /// `rd` is `rs1` with the `len` bits at `ofs` taken from `rs2`.
    Depos { rd: KHVal, rs1: KHVal, rs2: KHVal, ofs: KHVal, len: KHVal },
    /// `[rh:rl] = [ah:al] + [bh:bl]` on `U64` halves.
    Add2 { rl: KHVal, rh: KHVal, al: KHVal, ah: KHVal, bl: KHVal, bh: KHVal },
    /// `[rh:rl] = [ah:al] + [bh:bl]` on `U32` halves.
    Add2l { rl: KHVal, rh: KHVal, al: KHVal, ah: KHVal, bl: KHVal, bh: KHVal },
    /// Trap to the runtime with a cause and a value.
    Trap { cause: KHVal, val: KHVal },
}

/// Whether `ty` is an integer type.
pub open spec fn is_int(ty: ValueType) -> bool {
    ty == ValueType::U32 || ty == ValueType::U64
}

impl Op {
    /// Every operand has the type its operator declares: the group type for
    /// unary and binary operators, the destination's type for conversions,
    /// and the explicit typing of the custom shapes.
    pub open spec fn well_typed(self) -> bool {
        match self {
            Op::Unary { opc, rd, rs1 } => rd.ty == opc.group() && rs1.ty == opc.group(),
            Op::Convert { opc, rd, rs } => rd.ty == opc.group(),
            Op::Binary { opc, rd, rs1, rs2 } => rd.ty == opc.group() && rs1.ty == opc.group()
                && rs2.ty == opc.group(),
            Op::Setlbl { label } => label.ty == ValueType::Label,
            Op::Brc { dest, c1, c2, cc } => dest.ty == ValueType::Label && c1.ty == c2.ty
                && cc.ty == ValueType::U64,
            Op::Setc { rd, c1, c2, cc } => is_int(rd.ty) && c1.ty == c2.ty && cc.ty
                == ValueType::U64,
            Op::Movc { rd, rs1, rs2, c1, c2, cc } => is_int(rd.ty) && rs1.ty == rd.ty && rs2.ty
                == rd.ty && c1.ty == c2.ty && cc.ty == ValueType::U64,
            Op::ExtrU { rd, rs, ofs, len } | Op::ExtrS { rd, rs, ofs, len } => rd.ty
                == ValueType::U64 && rs.ty == ValueType::U64 && ofs.ty == ValueType::U64 && len.ty
                == ValueType::U64,
            Op::Depos { rd, rs1, rs2, ofs, len } => rd.ty == ValueType::U64 && rs1.ty
                == ValueType::U64 && rs2.ty == ValueType::U64 && ofs.ty == ValueType::U64 && len.ty
                == ValueType::U64,
            Op::Add2 { rl, rh, al, ah, bl, bh } => rl.ty == ValueType::U64 && rh.ty
                == ValueType::U64 && al.ty == ValueType::U64 && ah.ty == ValueType::U64 && bl.ty
                == ValueType::U64 && bh.ty == ValueType::U64,
            Op::Add2l { rl, rh, al, ah, bl, bh } => rl.ty == ValueType::U32 && rh.ty
                == ValueType::U32 && al.ty == ValueType::U32 && ah.ty == ValueType::U32 && bl.ty
                == ValueType::U32 && bh.ty == ValueType::U32,
            Op::Trap { cause, val } => cause.ty == ValueType::U64 && val.ty == ValueType::U64,
        }
    }

    /// The op is a trap that hands the runtime a block to look up.
    pub open spec fn is_lookup_trap(self) -> bool {
        self matches Op::Trap { cause, .. } && cause == imm64(0)
    }
}

} // verus!
