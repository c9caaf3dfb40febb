use crate::guest::TranslationBlock;
use crate::ir::op::{BinaryOpc, ConvertOpc, Op, UnaryOpc};
use crate::ir::storage::{KHVal, Storage, ValueType};
use vstd::prelude::*;

verus! {

/// An emitted block that can be executed on the host.
pub trait HostBlock {
    /// Run from the start of the block.
    fn execute(&self);
}

/// The hexadecimal digit of `d`.
pub open spec fn hex_digit(d: nat) -> char {
    seq!['0', '1', '2', '3', '4', '5', '6', '7', '8', '9', 'a', 'b', 'c', 'd', 'e', 'f'][d as int]
}

/// Lower-case hexadecimal digits of `v`, without leading zeros.
pub open spec fn hex_text(v: nat) -> Seq<char>
    decreases v,
{
    if v < 16 {
        seq![hex_digit(v)]
    } else {
        hex_text(v / 16).push(hex_digit(v % 16))
    }
}

/// Decimal digits of `v`, without leading zeros.
pub open spec fn dec_text(v: nat) -> Seq<char>
    decreases v,
{
    if v < 10 {
        seq![hex_digit(v)]
    } else {
        dec_text(v / 10).push(hex_digit(v % 10))
    }
}

/// Five hexadecimal digits of `v`, with leading zeros.
pub open spec fn hex5(v: nat) -> Seq<char> {
    seq![
        hex_digit(v / 65536 % 16),
        hex_digit(v / 4096 % 16),
        hex_digit(v / 256 % 16),
        hex_digit(v / 16 % 16),
        hex_digit(v % 16),
    ]
}

/// Name of the fixed register of `slot`: `x00` to `x30`, `sp`, the flags
/// and `pc`.
pub open spec fn reg_name(slot: u32) -> Seq<char> {
    if slot < 31 {
        seq!['x', hex_digit((slot / 10) as nat), hex_digit((slot % 10) as nat)]
    } else if slot == 31 {
        seq!['s', 'p']
    } else if slot == 32 {
        seq!['n', 'f']
    } else if slot == 33 {
        seq!['z', 'f']
    } else if slot == 34 {
        seq!['c', 'f']
    } else if slot == 35 {
        seq!['v', 'f']
    } else if slot == 36 {
        seq!['p', 'c']
    } else {
        seq!['r'] + dec_text(slot as nat)
    }
}

/// Text of a value: `%` and five hex digits of a temporary's number, `L` and
/// a label's number, `#0x` and a constant in hex, `$` and a register's name.
pub open spec fn val_text(v: KHVal) -> Seq<char> {
    match v.storage {
        Storage::Temp(id) => seq!['%'] + hex5((id % 0x100000) as nat),
        Storage::Label(n) => seq!['L'] + dec_text(n as nat),
        Storage::ImmU32(c) => seq!['#', '0', 'x'] + hex_text(c as nat),
        Storage::ImmU64(c) => seq!['#', '0', 'x'] + hex_text(c as nat),
        Storage::Named(slot) => seq!['$'] + reg_name(slot),
    }
}

/// Mnemonic of a unary operator.
pub open spec fn unary_name(opc: UnaryOpc) -> Seq<char> {
    match opc {
        UnaryOpc::Neg => seq!['n', 'e', 'g'],
        UnaryOpc::Not => seq!['n', 'o', 't'],
        UnaryOpc::Mov => seq!['m', 'o', 'v'],
        UnaryOpc::Bswap => seq!['b', 's', 'w', 'a', 'p'],
        UnaryOpc::Negl => seq!['n', 'e', 'g', 'l'],
        UnaryOpc::Movl => seq!['m', 'o', 'v', 'l'],
        UnaryOpc::Movd => seq!['m', 'o', 'v', 'd'],
    }
}

/// Mnemonic of a conversion.
pub open spec fn convert_name(opc: ConvertOpc) -> Seq<char> {
    match opc {
        ConvertOpc::ExtUlq => seq!['e', 'x', 't', 'u', 'l', 'q'],
        ConvertOpc::ExtSlq => seq!['e', 'x', 't', 's', 'l', 'q'],
        ConvertOpc::ExtUwq => seq!['e', 'x', 't', 'u', 'w', 'q'],
        ConvertOpc::ExtSwq => seq!['e', 'x', 't', 's', 'w', 'q'],
        ConvertOpc::ExtUbq => seq!['e', 'x', 't', 'u', 'b', 'q'],
        ConvertOpc::ExtSbq => seq!['e', 'x', 't', 's', 'b', 'q'],
        ConvertOpc::Extrl => seq!['e', 'x', 't', 'r', 'l'],
        ConvertOpc::Extrh => seq!['e', 'x', 't', 'r', 'h'],
    }
}

/// Mnemonic of a binary operator.
pub open spec fn binary_name(opc: BinaryOpc) -> Seq<char> {
    match opc {
        BinaryOpc::Add => seq!['a', 'd', 'd'],
        BinaryOpc::Sub => seq!['s', 'u', 'b'],
        BinaryOpc::Mul => seq!['m', 'u', 'l'],
        BinaryOpc::Div => seq!['d', 'i', 'v'],
        BinaryOpc::Rem => seq!['r', 'e', 'm'],
        BinaryOpc::Remu => seq!['r', 'e', 'm', 'u'],
        BinaryOpc::And => seq!['a', 'n', 'd'],
        BinaryOpc::Or => seq!['o', 'r'],
        BinaryOpc::Xor => seq!['x', 'o', 'r'],
        BinaryOpc::Andc => seq!['a', 'n', 'd', 'c'],
        BinaryOpc::Eqv => seq!['e', 'q', 'v'],
        BinaryOpc::Nand => seq!['n', 'a', 'n', 'd'],
        BinaryOpc::Nor => seq!['n', 'o', 'r'],
        BinaryOpc::Orc => seq!['o', 'r', 'c'],
        BinaryOpc::Clz => seq!['c', 'l', 'z'],
        BinaryOpc::Ctz => seq!['c', 't', 'z'],
        BinaryOpc::Shl => seq!['s', 'h', 'l'],
        BinaryOpc::Shr => seq!['s', 'h', 'r'],
        BinaryOpc::Sar => seq!['s', 'a', 'r'],
        BinaryOpc::Rotl => seq!['r', 'o', 't', 'l'],
        BinaryOpc::Rotr => seq!['r', 'o', 't', 'r'],
        BinaryOpc::Load => seq!['l', 'o', 'a', 'd'],
        BinaryOpc::Store => seq!['s', 't', 'o', 'r', 'e'],
        BinaryOpc::Subl => seq!['s', 'u', 'b', 'l'],
        BinaryOpc::Andl => seq!['a', 'n', 'd', 'l'],
        BinaryOpc::Orl => seq!['o', 'r', 'l'],
        BinaryOpc::Xorl => seq!['x', 'o', 'r', 'l'],
        BinaryOpc::Andcl => seq!['a', 'n', 'd', 'c', 'l'],
        BinaryOpc::Sarl => seq!['s', 'a', 'r', 'l'],
        BinaryOpc::Rotrl => seq!['r', 'o', 't', 'r', 'l'],
        BinaryOpc::Addd => seq!['a', 'd', 'd', 'd'],
        BinaryOpc::Subd => seq!['s', 'u', 'b', 'd'],
        BinaryOpc::Muld => seq!['m', 'u', 'l', 'd'],
        BinaryOpc::Divd => seq!['d', 'i', 'v', 'd'],
    }
}

/// Mnemonic of an op.
pub open spec fn mnemonic(op: Op) -> Seq<char> {
    match op {
        Op::Unary { opc, .. } => unary_name(opc),
        Op::Convert { opc, .. } => convert_name(opc),
        Op::Binary { opc, .. } => binary_name(opc),
        Op::Setlbl { .. } => seq!['s', 'e', 't', 'l', 'b', 'l'],
        Op::Brc { .. } => seq!['b', 'r', 'c'],
        Op::Setc { .. } => seq!['s', 'e', 't', 'c'],
        Op::Movc { .. } => seq!['m', 'o', 'v', 'c'],
        Op::ExtrU { .. } => seq!['e', 'x', 't', 'r', 'u'],
        Op::ExtrS { .. } => seq!['e', 'x', 't', 'r', 's'],
        Op::Depos { .. } => seq!['d', 'e', 'p', 'o', 's'],
        Op::Add2 { .. } => seq!['a', 'd', 'd', '2'],
        Op::Add2l { .. } => seq!['a', 'd', 'd', '2', 'l'],
        Op::Trap { .. } => seq!['t', 'r', 'a', 'p'],
    }
}

/// Operands of an op, in order.
pub open spec fn operands(op: Op) -> Seq<KHVal> {
    match op {
        Op::Unary { rd, rs1, .. } => seq![rd, rs1],
        Op::Convert { rd, rs, .. } => seq![rd, rs],
        Op::Binary { rd, rs1, rs2, .. } => seq![rd, rs1, rs2],
        Op::Setlbl { label } => seq![label],
        Op::Brc { dest, c1, c2, cc } => seq![dest, c1, c2, cc],
        Op::Setc { rd, c1, c2, cc } => seq![rd, c1, c2, cc],
        Op::Movc { rd, rs1, rs2, c1, c2, cc } => seq![rd, rs1, rs2, c1, c2, cc],
        Op::ExtrU { rd, rs, ofs, len } => seq![rd, rs, ofs, len],
        Op::ExtrS { rd, rs, ofs, len } => seq![rd, rs, ofs, len],
        Op::Depos { rd, rs1, rs2, ofs, len } => seq![rd, rs1, rs2, ofs, len],
        Op::Add2 { rl, rh, al, ah, bl, bh } => seq![rl, rh, al, ah, bl, bh],
        Op::Add2l { rl, rh, al, ah, bl, bh } => seq![rl, rh, al, ah, bl, bh],
        Op::Trap { cause, val } => seq![cause, val],
    }
}

/// The texts of `vs`, separated by commas.
pub open spec fn join(vs: Seq<KHVal>) -> Seq<char>
    decreases vs.len(),
{
    if vs.len() == 0 {
        seq![]
    } else if vs.len() == 1 {
        val_text(vs[0])
    } else {
        join(vs.drop_last()) + seq![',', ' '] + val_text(vs.last())
    }
}

/// Text of an op: its mnemonic, a tab and its operands.
pub open spec fn op_text(op: Op) -> Seq<char> {
    mnemonic(op) + seq!['\t'] + join(operands(op))
}

/// Text of a block: one line per op.
pub open spec fn block_text(ops: Seq<Op>) -> Seq<char>
    decreases ops.len(),
{
    if ops.len() == 0 {
        seq![]
    } else {
        block_text(ops.drop_last()) + op_text(ops.last()) + seq!['\n']
    }
}

fn hex_digit_of(d: u64) -> (c: char)
    requires
        d < 16,
    ensures
        c == hex_digit(d as nat),
{
    let t = vec!['0', '1', '2', '3', '4', '5', '6', '7', '8', '9', 'a', 'b', 'c', 'd', 'e', 'f'];
    t[d as usize]
}

fn push_hex(out: &mut Vec<char>, v: u64)
    ensures
        final(out)@ == old(out)@ + hex_text(v as nat),
    decreases v,
{
    if v >= 16 {
        push_hex(out, v / 16);
    }
    out.push(hex_digit_of(v % 16));
    proof {
        if v >= 16 {
            assert(final(out)@ =~= old(out)@ + hex_text(v as nat));
        } else {
            assert(final(out)@ =~= old(out)@ + hex_text(v as nat));
        }
    }
}

fn push_dec(out: &mut Vec<char>, v: u64)
    ensures
        final(out)@ == old(out)@ + dec_text(v as nat),
    decreases v,
{
    if v >= 10 {
        push_dec(out, v / 10);
    }
    out.push(hex_digit_of(v % 10));
    proof {
        assert(final(out)@ =~= old(out)@ + dec_text(v as nat));
    }
}

fn push_all(out: &mut Vec<char>, s: Vec<char>)
    ensures
        final(out)@ == old(out)@ + s@,
{
    let mut i: usize = 0;
    while i < s.len()
        invariant
            i <= s@.len(),
            out@ == old(out)@ + s@.subrange(0, i as int),
        decreases s@.len() - i,
    {
        out.push(s[i]);
        i = i + 1;
        proof {
            assert(out@ =~= old(out)@ + s@.subrange(0, i as int));
        }
    }
    assert(s@.subrange(0, i as int) =~= s@);
}

/// Name of the fixed register of `slot`.
fn reg_name_of(slot: u32) -> (r: Vec<char>)
    ensures
        r@ == reg_name(slot),
{
    if slot < 31 {
        let r = vec!['x', hex_digit_of((slot / 10) as u64), hex_digit_of((slot % 10) as u64)];
        r
    } else if slot == 31 {
        vec!['s', 'p']
    } else if slot == 32 {
        vec!['n', 'f']
    } else if slot == 33 {
        vec!['z', 'f']
    } else if slot == 34 {
        vec!['c', 'f']
    } else if slot == 35 {
        vec!['v', 'f']
    } else if slot == 36 {
        vec!['p', 'c']
    } else {
        let mut r = vec!['r'];
        push_dec(&mut r, slot as u64);
        r
    }
}

/// Append the text of a value.
pub fn push_val_text(out: &mut Vec<char>, v: &KHVal)
    ensures
        final(out)@ == old(out)@ + val_text(*v),
{
    let ghost o = out@;
    match v.storage {
        Storage::Temp(id) => {
            let x = id % 0x100000;
            out.push('%');
            out.push(hex_digit_of(x / 65536 % 16));
            out.push(hex_digit_of(x / 4096 % 16));
            out.push(hex_digit_of(x / 256 % 16));
            out.push(hex_digit_of(x / 16 % 16));
            out.push(hex_digit_of(x % 16));
            proof {
                assert(out@ =~= o + (seq!['%'] + hex5(x as nat)));
            }
        },
        Storage::Label(n) => {
            out.push('L');
            push_dec(out, n);
            proof {
                assert(out@ =~= o + (seq!['L'] + dec_text(n as nat)));
            }
        },
        Storage::ImmU32(c) => {
            push_all(out, vec!['#', '0', 'x']);
            push_hex(out, c as u64);
            proof {
                assert(out@ =~= o + (seq!['#', '0', 'x'] + hex_text(c as nat)));
            }
        },
        Storage::ImmU64(c) => {
            push_all(out, vec!['#', '0', 'x']);
            push_hex(out, c);
            proof {
                assert(out@ =~= o + (seq!['#', '0', 'x'] + hex_text(c as nat)));
            }
        },
        Storage::Named(slot) => {
            out.push('$');
            push_all(out, reg_name_of(slot));
            proof {
                assert(out@ =~= o + (seq!['$'] + reg_name(slot)));
            }
        },
    }
    proof {
        assert(out@ =~= o + val_text(*v));
    }
}

/// Mnemonic of a unary operator.
fn unary_name_of(opc: UnaryOpc) -> (r: Vec<char>)
    ensures
        r@ == unary_name(opc),
{
    match opc {
        UnaryOpc::Neg => vec!['n', 'e', 'g'],
        UnaryOpc::Not => vec!['n', 'o', 't'],
        UnaryOpc::Mov => vec!['m', 'o', 'v'],
        UnaryOpc::Bswap => vec!['b', 's', 'w', 'a', 'p'],
        UnaryOpc::Negl => vec!['n', 'e', 'g', 'l'],
        UnaryOpc::Movl => vec!['m', 'o', 'v', 'l'],
        UnaryOpc::Movd => vec!['m', 'o', 'v', 'd'],
    }
}

/// Mnemonic of a conversion.
fn convert_name_of(opc: ConvertOpc) -> (r: Vec<char>)
    ensures
        r@ == convert_name(opc),
{
    match opc {
        ConvertOpc::ExtUlq => vec!['e', 'x', 't', 'u', 'l', 'q'],
        ConvertOpc::ExtSlq => vec!['e', 'x', 't', 's', 'l', 'q'],
        ConvertOpc::ExtUwq => vec!['e', 'x', 't', 'u', 'w', 'q'],
        ConvertOpc::ExtSwq => vec!['e', 'x', 't', 's', 'w', 'q'],
        ConvertOpc::ExtUbq => vec!['e', 'x', 't', 'u', 'b', 'q'],
        ConvertOpc::ExtSbq => vec!['e', 'x', 't', 's', 'b', 'q'],
        ConvertOpc::Extrl => vec!['e', 'x', 't', 'r', 'l'],
        ConvertOpc::Extrh => vec!['e', 'x', 't', 'r', 'h'],
    }
}

/// Mnemonic of a binary operator.
fn binary_name_of(opc: BinaryOpc) -> (r: Vec<char>)
    ensures
        r@ == binary_name(opc),
{
    match opc {
        BinaryOpc::Add => vec!['a', 'd', 'd'],
        BinaryOpc::Sub => vec!['s', 'u', 'b'],
        BinaryOpc::Mul => vec!['m', 'u', 'l'],
        BinaryOpc::Div => vec!['d', 'i', 'v'],
        BinaryOpc::Rem => vec!['r', 'e', 'm'],
        BinaryOpc::Remu => vec!['r', 'e', 'm', 'u'],
        BinaryOpc::And => vec!['a', 'n', 'd'],
        BinaryOpc::Or => vec!['o', 'r'],
        BinaryOpc::Xor => vec!['x', 'o', 'r'],
        BinaryOpc::Andc => vec!['a', 'n', 'd', 'c'],
        BinaryOpc::Eqv => vec!['e', 'q', 'v'],
        BinaryOpc::Nand => vec!['n', 'a', 'n', 'd'],
        BinaryOpc::Nor => vec!['n', 'o', 'r'],
        BinaryOpc::Orc => vec!['o', 'r', 'c'],
        BinaryOpc::Clz => vec!['c', 'l', 'z'],
        BinaryOpc::Ctz => vec!['c', 't', 'z'],
        BinaryOpc::Shl => vec!['s', 'h', 'l'],
        BinaryOpc::Shr => vec!['s', 'h', 'r'],
        BinaryOpc::Sar => vec!['s', 'a', 'r'],
        BinaryOpc::Rotl => vec!['r', 'o', 't', 'l'],
        BinaryOpc::Rotr => vec!['r', 'o', 't', 'r'],
        BinaryOpc::Load => vec!['l', 'o', 'a', 'd'],
        BinaryOpc::Store => vec!['s', 't', 'o', 'r', 'e'],
        BinaryOpc::Subl => vec!['s', 'u', 'b', 'l'],
        BinaryOpc::Andl => vec!['a', 'n', 'd', 'l'],
        BinaryOpc::Orl => vec!['o', 'r', 'l'],
        BinaryOpc::Xorl => vec!['x', 'o', 'r', 'l'],
        BinaryOpc::Andcl => vec!['a', 'n', 'd', 'c', 'l'],
        BinaryOpc::Sarl => vec!['s', 'a', 'r', 'l'],
        BinaryOpc::Rotrl => vec!['r', 'o', 't', 'r', 'l'],
        BinaryOpc::Addd => vec!['a', 'd', 'd', 'd'],
        BinaryOpc::Subd => vec!['s', 'u', 'b', 'd'],
        BinaryOpc::Muld => vec!['m', 'u', 'l', 'd'],
        BinaryOpc::Divd => vec!['d', 'i', 'v', 'd'],
    }
}

/// Mnemonic of an op.
fn mnemonic_of(op: &Op) -> (r: Vec<char>)
    ensures
        r@ == mnemonic(*op),
{
    match op {
        Op::Unary { opc, .. } => unary_name_of(*opc),
        Op::Convert { opc, .. } => convert_name_of(*opc),
        Op::Binary { opc, .. } => binary_name_of(*opc),
        Op::Setlbl { .. } => vec!['s', 'e', 't', 'l', 'b', 'l'],
        Op::Brc { .. } => vec!['b', 'r', 'c'],
        Op::Setc { .. } => vec!['s', 'e', 't', 'c'],
        Op::Movc { .. } => vec!['m', 'o', 'v', 'c'],
        Op::ExtrU { .. } => vec!['e', 'x', 't', 'r', 'u'],
        Op::ExtrS { .. } => vec!['e', 'x', 't', 'r', 's'],
        Op::Depos { .. } => vec!['d', 'e', 'p', 'o', 's'],
        Op::Add2 { .. } => vec!['a', 'd', 'd', '2'],
        Op::Add2l { .. } => vec!['a', 'd', 'd', '2', 'l'],
        Op::Trap { .. } => vec!['t', 'r', 'a', 'p'],
    }
}

/// Operands of an op, in order.
pub fn operands_of(op: &Op) -> (r: Vec<KHVal>)
    ensures
        r@ == operands(*op),
{
    match *op {
        Op::Unary { rd, rs1, .. } => vec![rd, rs1],
        Op::Convert { rd, rs, .. } => vec![rd, rs],
        Op::Binary { rd, rs1, rs2, .. } => vec![rd, rs1, rs2],
        Op::Setlbl { label } => vec![label],
        Op::Brc { dest, c1, c2, cc } => vec![dest, c1, c2, cc],
        Op::Setc { rd, c1, c2, cc } => vec![rd, c1, c2, cc],
        Op::Movc { rd, rs1, rs2, c1, c2, cc } => vec![rd, rs1, rs2, c1, c2, cc],
        Op::ExtrU { rd, rs, ofs, len } => vec![rd, rs, ofs, len],
        Op::ExtrS { rd, rs, ofs, len } => vec![rd, rs, ofs, len],
        Op::Depos { rd, rs1, rs2, ofs, len } => vec![rd, rs1, rs2, ofs, len],
        Op::Add2 { rl, rh, al, ah, bl, bh } => vec![rl, rh, al, ah, bl, bh],
        Op::Add2l { rl, rh, al, ah, bl, bh } => vec![rl, rh, al, ah, bl, bh],
        Op::Trap { cause, val } => vec![cause, val],
    }
}

/// Append the text of an op.
pub fn push_op_text(out: &mut Vec<char>, op: &Op)
    ensures
        final(out)@ == old(out)@ + op_text(*op),
{
    let ghost o = out@;
    push_all(out, mnemonic_of(op));
    out.push('\t');
    let vs = operands_of(op);
    let ghost head = o + mnemonic(*op) + seq!['\t'];
    proof {
        assert(out@ =~= head + join(vs@.subrange(0, 0)));
    }
    let mut i: usize = 0;
    while i < vs.len()
        invariant
            i <= vs@.len(),
            out@ == head + join(vs@.subrange(0, i as int)),
        decreases vs@.len() - i,
    {
        if i > 0 {
            out.push(',');
            out.push(' ');
        }
        push_val_text(out, &vs[i]);
        proof {
            let p = vs@.subrange(0, i + 1);
            assert(p.drop_last() =~= vs@.subrange(0, i as int));
            assert(p.last() == vs@[i as int]);
            if i == 0 {
                assert(join(p) == val_text(vs@[0]));
            }
            assert(out@ =~= head + join(p));
        }
        i = i + 1;
    }
    proof {
        assert(vs@.subrange(0, i as int) =~= vs@);
        assert(out@ =~= o + op_text(*op));
    }
}

/// Context of the textual IR backend: constants are shown literally, labels
/// by number, fixed registers by name and temporaries by their number.
pub struct DumpIRHostContext {
    label_counter: u64,
}

impl DumpIRHostContext {
    /// Labels handed out so far.
    pub closed spec fn labels(&self) -> u64 {
        self.label_counter
    }

    /// A context that has handed out no label.
    pub fn new() -> (r: DumpIRHostContext)
        ensures
            r.labels() == 0,
    {
        DumpIRHostContext { label_counter: 0 }
    }

    /// A fresh label: labels are numbered in the order they are made.
    pub fn make_label(&mut self) -> (r: Storage)
        requires
            old(self).labels() < u64::MAX,
        ensures
            r == Storage::Label(old(self).labels()),
            final(self).labels() == old(self).labels() + 1,
    {
        let n = self.label_counter;
        self.label_counter = n + 1;
        Storage::Label(n)
    }

    /// A `U32` constant.
    pub fn make_u32(&self, v: u32) -> (r: Storage)
        ensures
            r == Storage::ImmU32(v),
    {
        Storage::ImmU32(v)
    }

    /// A `U64` constant.
    pub fn make_u64(&self, v: u64) -> (r: Storage)
        ensures
            r == Storage::ImmU64(v),
    {
        Storage::ImmU64(v)
    }

    /// A fixed register of the given slot.
    pub fn make_named(&self, slot: u32, ty: ValueType) -> (r: Storage)
        ensures
            r == Storage::Named(slot),
    {
        Storage::Named(slot)
    }

    /// The emitted block: the text of the block's ops, one line each.
    pub fn emit_block(&self, tb: TranslationBlock) -> (r: Vec<char>)
        ensures
            r@ == block_text(tb.ops@),
    {
        let mut out: Vec<char> = Vec::new();
        let mut i: usize = 0;
        while i < tb.ops.len()
            invariant
                i <= tb.ops@.len(),
                out@ == block_text(tb.ops@.subrange(0, i as int)),
            decreases tb.ops@.len() - i,
        {
            push_op_text(&mut out, &tb.ops[i]);
            out.push('\n');
            proof {
                let p = tb.ops@.subrange(0, i + 1);
                assert(p.drop_last() =~= tb.ops@.subrange(0, i as int));
                assert(out@ =~= block_text(p));
            }
            i = i + 1;
        }
        assert(tb.ops@.subrange(0, i as int) =~= tb.ops@);
        out
    }
}

} // verus!
