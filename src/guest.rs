use crate::ir::op::Op;
use vstd::prelude::*;

verus! {

/// Guest address space size: 512 MiB.
pub const GUEST_SIZE: usize = 0x2000_0000;

/// Reason that the current translation block terminated.
#[derive(Debug, PartialEq, Eq)]
pub enum DisasException {
    /// Direct continue to the next instruction, the given PC: a known jump
    /// target starts there, or the block reached its size limit.
    Continue(usize),
    /// Branch, conditional or not: the PC if taken and the PC if not taken,
    /// `None` where unknown at translation time.
    Branch(Option<usize>, Option<usize>),
    /// Unexpected error, such as an unimplemented instruction.
    Unexpected(String),
}

/// A disassembled, not yet emitted, block of IR.
#[derive(Debug)]
pub struct TranslationBlock {
    /// Start address in the guest's view.
    pub start_pc: usize,
    /// Generated IR operations.
    pub ops: Vec<Op>,
    /// Index of the trap ending the taken edge.
    pub direct_chain_idx: Option<usize>,
    /// Index of the trap ending the fall-through edge.
    pub aux_chain_idx: Option<usize>,
}

/// The guest's address space: a contiguous range of bytes from address zero.
pub struct GuestMemory {
    bytes: Vec<u8>,
}

impl View for GuestMemory {
    type V = Seq<u8>;

    closed spec fn view(&self) -> Seq<u8> {
        self.bytes@
    }
}

/// The little-endian word of four bytes.
pub open spec fn le_u32(b0: u8, b1: u8, b2: u8, b3: u8) -> u32 {
    (b0 as int + 256 * b1 as int + 65536 * b2 as int + 16777216 * b3 as int) as u32
}

impl GuestMemory {
    /// The memory is no larger than the guest address space.
    pub open spec fn wf(&self) -> bool {
        self@.len() <= GUEST_SIZE
    }

    /// A zero-filled address space of `size` bytes.
    pub fn new(size: usize) -> (r: GuestMemory)
        requires
            size <= GUEST_SIZE,
        ensures
            r.wf(),
            r@ == Seq::new(size as nat, |_i: int| 0u8),
    {
        let bytes = vec![0u8; size];
        let r = GuestMemory { bytes };
        assert(r@ =~= Seq::new(size as nat, |_i: int| 0u8));
        r
    }

    /// Size of the address space in bytes.
    pub fn len(&self) -> (r: usize)
        ensures
            r == self@.len(),
    {
        self.bytes.len()
    }

    /// The byte at `addr`.
    pub fn read_u8(&self, addr: usize) -> (r: u8)
        requires
            addr < self@.len(),
        ensures
            r == self@[addr as int],
    {
        self.bytes[addr]
    }

    /// The little-endian word at `addr`.
    pub fn read_u32(&self, addr: usize) -> (r: u32)
        requires
            addr + 4 <= self@.len(),
        ensures
            r == le_u32(
                self@[addr as int],
                self@[addr + 1],
                self@[addr + 2],
                self@[addr + 3],
            ),
    {
        let _n = self.bytes.len();
        let b0 = self.bytes[addr] as u32;
        let b1 = self.bytes[addr + 1] as u32;
        let b2 = self.bytes[addr + 2] as u32;
        let b3 = self.bytes[addr + 3] as u32;
        b0 + 256 * b1 + 65536 * b2 + 16777216 * b3
    }

    /// Store `data` at `addr`.
    pub fn write_bytes(&mut self, addr: usize, data: &[u8])
        requires
            addr + data@.len() <= old(self)@.len(),
        ensures
            final(self)@ == old(self)@.subrange(0, addr as int) + data@ + old(self)@.subrange(
                addr + data@.len(),
                old(self)@.len() as int,
            ),
    {
        let _n = self.bytes.len();
        let mut i: usize = 0;
        while i < data.len()
            invariant
                i <= data@.len(),
                addr + data@.len() <= old(self)@.len(),
                self@.len() == old(self)@.len(),
                old(self)@.len() <= usize::MAX,
                forall|j: int| 0 <= j < addr ==> self@[j] == old(self)@[j],
                forall|j: int| 0 <= j < i ==> self@[addr + j] == data@[j],
                forall|j: int| addr + i <= j < self@.len() ==> self@[j] == old(self)@[j],
            decreases data@.len() - i,
        {
            self.bytes.set(addr + i, data[i]);
            i = i + 1;
        }
        assert(self@ =~= old(self)@.subrange(0, addr as int) + data@ + old(self)@.subrange(
            addr + data@.len(),
            old(self)@.len() as int,
        ));
    }
}

impl GuestMemory {
    /// Store the `len` bytes of `src` from `start` at `addr`.
    pub fn copy_in(&mut self, addr: usize, src: &Vec<u8>, start: usize, len: usize)
        requires
            addr + len <= old(self)@.len(),
            start + len <= src@.len(),
        ensures
            final(self)@ == old(self)@.subrange(0, addr as int) + src@.subrange(
                start as int,
                start + len,
            ) + old(self)@.subrange(addr + len, old(self)@.len() as int),
    {
        let _n = self.bytes.len();
        let _m = src.len();
        let mut i: usize = 0;
        while i < len
            invariant
                i <= len,
                addr + len <= old(self)@.len(),
                start + len <= src@.len(),
                src@.len() <= usize::MAX,
                self@.len() == old(self)@.len(),
                old(self)@.len() <= usize::MAX,
                forall|j: int| 0 <= j < addr ==> self@[j] == old(self)@[j],
                forall|j: int| addr <= j < addr + i ==> #[trigger] self@[j] == src@[start + (j - addr)],
                forall|j: int| addr + i <= j < self@.len() ==> self@[j] == old(self)@[j],
            decreases len - i,
        {
            self.bytes.set(addr + i, src[start + i]);
            i = i + 1;
        }
        assert(self@ =~= old(self)@.subrange(0, addr as int) + src@.subrange(
            start as int,
            start + len,
        ) + old(self)@.subrange(addr + len, old(self)@.len() as int));
    }

    /// Zero the `len` bytes at `addr`.
    pub fn fill_zero(&mut self, addr: usize, len: usize)
        requires
            addr + len <= old(self)@.len(),
        ensures
            final(self)@ == old(self)@.subrange(0, addr as int) + Seq::new(len as nat, |_i: int| 0u8)
                + old(self)@.subrange(addr + len, old(self)@.len() as int),
    {
        let _n = self.bytes.len();
        let mut i: usize = 0;
        while i < len
            invariant
                i <= len,
                addr + len <= old(self)@.len(),
                self@.len() == old(self)@.len(),
                old(self)@.len() <= usize::MAX,
                forall|j: int| 0 <= j < addr ==> self@[j] == old(self)@[j],
                forall|j: int| addr <= j < addr + i ==> #[trigger] self@[j] == 0u8,
                forall|j: int| addr + i <= j < self@.len() ==> self@[j] == old(self)@[j],
            decreases len - i,
        {
            self.bytes.set(addr + i, 0u8);
            i = i + 1;
        }
        assert(self@ =~= old(self)@.subrange(0, addr as int) + Seq::new(len as nat, |_i: int| 0u8)
            + old(self)@.subrange(addr + len, old(self)@.len() as int));
    }
}

} // verus!
