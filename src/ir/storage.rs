use vstd::prelude::*;

verus! {

/// Valid value types for an IR register.
#[derive(Debug, PartialEq, Eq, Structural, Clone, Copy)]
pub enum ValueType {
    /// Jump target inside a translation block.
    Label,
    /// 32-bit word (`l` suffix in operators).
    U32,
    /// 64-bit word (no suffix in operators).
    U64,
    /// Double word (`d` suffix in operators).
    F64,
}

/// How an IR value is realised, as far as the frontend knows it.
///
/// Constants are values: two constants of equal value are the same value.
/// A temporary carries a number that identifies it within its block.
#[derive(Debug, PartialEq, Eq, Structural, Clone, Copy)]
pub enum Storage {
    /// A temporary, not yet assigned by the backend.
    Temp(u64),
    /// A jump target.
    Label(u64),
    /// A `U32` constant.
    ImmU32(u32),
    /// A `U64` constant.
    ImmU64(u64),
    /// A fixed guest register, by slot number.
    Named(u32),
}

/// IR register in SSA form: a value type and its storage.
#[derive(Debug, PartialEq, Eq, Structural, Clone, Copy)]
pub struct KHVal {
    /// Data type of the register.
    pub ty: ValueType,
    /// Storage of the register.
    pub storage: Storage,
}

impl KHVal {
    /// A fixed register of the given slot and type.
    pub fn named(slot: u32, ty: ValueType) -> (r: KHVal)
        ensures
            r == (KHVal { ty, storage: Storage::Named(slot) }),
    {
        KHVal { ty, storage: Storage::Named(slot) }
    }

    /// A `U32` constant.
    pub fn u32(v: u32) -> (r: KHVal)
        ensures
            r == imm32(v),
    {
        KHVal { ty: ValueType::U32, storage: Storage::ImmU32(v) }
    }

    /// A `U64` constant.
    pub fn u64(v: u64) -> (r: KHVal)
        ensures
            r == imm64(v),
    {
        KHVal { ty: ValueType::U64, storage: Storage::ImmU64(v) }
    }

    /// The value as a `U64` constant, if it is one.
    pub fn try_as_u64(&self) -> (r: Option<u64>)
        ensures
            r == const_u64(*self),
    {
        match self.storage {
            Storage::ImmU64(v) => Some(v),
            _ => None,
        }
    }

    /// The value as a `U32` constant, if it is one.
    pub fn try_as_u32(&self) -> (r: Option<u32>)
        ensures
            r == (match self.storage {
                Storage::ImmU32(v) => Some(v),
                _ => None,
            }),
    {
        match self.storage {
            Storage::ImmU32(v) => Some(v),
            _ => None,
        }
    }

    /// Whether the value is the constant zero, a sink that writes to are dropped.
    pub fn is_zero(&self) -> (r: bool)
        ensures
            r == is_zero_sink(*self),
    {
        match self.storage {
            Storage::ImmU64(v) => v == 0,
            _ => false,
        }
    }
}

/// The `U32` constant `v`.
pub open spec fn imm32(v: u32) -> KHVal {
    KHVal { ty: ValueType::U32, storage: Storage::ImmU32(v) }
}

/// The `U64` constant `v`.
pub open spec fn imm64(v: u64) -> KHVal {
    KHVal { ty: ValueType::U64, storage: Storage::ImmU64(v) }
}

/// The temporary numbered `id` of type `ty`.
pub open spec fn temp(ty: ValueType, id: u64) -> KHVal {
    KHVal { ty, storage: Storage::Temp(id) }
}

/// The value as a `U64` constant, if it is one.
pub open spec fn const_u64(v: KHVal) -> Option<u64> {
    match v.storage {
        Storage::ImmU64(c) => Some(c),
        _ => None,
    }
}

/// The constant zero, to which writes are dropped.
pub open spec fn is_zero_sink(v: KHVal) -> bool {
    v.storage == Storage::ImmU64(0)
}

/// Bits of a `MemOp`: the access size as log2 of its bytes.
pub const MEMOP_SIZE_MASK: u64 = 0b11;
/// Bits of a `MemOp`: sign-extend the loaded value.
pub const MEMOP_SIGN_EXTEND: u64 = 0b100;
/// Bits of a `MemOp`: swap the bytes of the accessed value.
pub const MEMOP_BYTE_SWAP: u64 = 0b1000;
/// Bits of a `MemOp`: the alignment hint, log2 of bytes.
pub const MEMOP_ALIGN_MASK: u64 = 0b111_0000;
/// Guest little-endian on a little-endian host: no byte swap.
pub const MEMOP_GUEST_LE: u64 = 0;
/// Guest big-endian on a little-endian host: byte swap.
pub const MEMOP_GUEST_BE: u64 = MEMOP_BYTE_SWAP;

/// Memory operation of a `Load` or `Store`: size, sign extension, byte
/// swap and alignment, encoded in the bits of a word.
#[derive(Debug, PartialEq, Eq, Structural, Clone, Copy)]
pub struct MemOp {
    /// The encoding.
    pub bits: u64,
}

/// log2 of an access size of 1, 2, 4 or 8 bytes.
pub open spec fn size_log2(bytes: u64) -> u64 {
    if bytes == 1 {
        0
    } else if bytes == 2 {
        1
    } else if bytes == 4 {
        2
    } else {
        3
    }
}

/// The access sizes a `MemOp` can encode.
pub open spec fn is_access_size(bytes: u64) -> bool {
    bytes == 1 || bytes == 2 || bytes == 4 || bytes == 8
}

impl MemOp {
    /// Access size in bytes.
    pub open spec fn size(self) -> u64 {
        let l = self.bits & MEMOP_SIZE_MASK;
        if l == 0 {
            1
        } else if l == 1 {
            2
        } else if l == 2 {
            4
        } else {
            8
        }
    }

    /// Whether the access sign-extends.
    pub open spec fn sign(self) -> bool {
        self.bits & MEMOP_SIGN_EXTEND != 0
    }

    /// Construct `MemOp` from memory size; sizes of 1, 2, 4 and 8 bytes are supported.
    pub fn from_size(bytes: u64) -> (r: MemOp)
        requires
            is_access_size(bytes),
        ensures
            r.bits == size_log2(bytes),
    {
        if bytes == 1 {
            MemOp { bits: 0 }
        } else if bytes == 2 {
            MemOp { bits: 1 }
        } else if bytes == 4 {
            MemOp { bits: 2 }
        } else {
            MemOp { bits: 3 }
        }
    }

    /// Construct `MemOp` from signedness.
    pub fn from_sign(sign: bool) -> (r: MemOp)
        ensures
            r.bits == (if sign {
                MEMOP_SIGN_EXTEND
            } else {
                0
            }),
    {
        if sign {
            MemOp { bits: MEMOP_SIGN_EXTEND }
        } else {
            MemOp { bits: 0 }
        }
    }

    /// The union of two memory operations' bits.
    pub fn union(self, other: MemOp) -> (r: MemOp)
        ensures
            r.bits == self.bits | other.bits,
    {
        MemOp { bits: self.bits | other.bits }
    }

    /// Retrieve the access size from `MemOp`.
    pub fn get_size(&self) -> (r: u64)
        ensures
            r == self.size(),
    {
        let l = self.bits & MEMOP_SIZE_MASK;
        if l == 0 {
            1
        } else if l == 1 {
            2
        } else if l == 2 {
            4
        } else {
            8
        }
    }

    /// Retrieve the signedness from `MemOp`.
    pub fn get_sign(&self) -> (r: bool)
        ensures
            r == self.sign(),
    {
        self.bits & MEMOP_SIGN_EXTEND != 0
    }
}

/// The `MemOp` of an access of `bytes` bytes, sign-extending or not, of a
/// little-endian guest.
pub open spec fn ldst_memop_bits(sign: bool, bytes: u64) -> u64 {
    (if sign {
        MEMOP_SIGN_EXTEND
    } else {
        0
    }) | size_log2(bytes)
}

/// Reading back the size of a `MemOp` built from a size gives that size.
pub proof fn lemma_size_round_trip(bytes: u64)
    requires
        is_access_size(bytes),
    ensures
        (MemOp { bits: size_log2(bytes) }).size() == bytes,
{
    assert(0u64 & 3 == 0 && 1u64 & 3 == 1 && 2u64 & 3 == 2 && 3u64 & 3 == 3) by (bit_vector);
}

/// Reading back the sign of a `MemOp` built from a sign gives that sign.
pub proof fn lemma_sign_round_trip(sign: bool)
    ensures
        (MemOp {
            bits: if sign {
                MEMOP_SIGN_EXTEND
            } else {
                0
            },
        }).sign() == sign,
{
    assert(4u64 & 4 != 0 && 0u64 & 4 == 0) by (bit_vector);
}

/// A load/store `MemOp` carries the size and the sign it was built from.
pub proof fn lemma_ldst_memop(sign: bool, bytes: u64)
    requires
        is_access_size(bytes),
    ensures
        (MemOp { bits: ldst_memop_bits(sign, bytes) }).size() == bytes,
        (MemOp { bits: ldst_memop_bits(sign, bytes) }).sign() == sign,
{
    let l = size_log2(bytes);
    assert(l <= 3);
    assert(forall|l: u64| l <= 3 ==> ((4u64 | l) & 3 == l && (0u64 | l) & 3 == l
        && (4u64 | l) & 4 != 0 && (0u64 | l) & 4 == 0)) by (bit_vector);
}

} // verus!
