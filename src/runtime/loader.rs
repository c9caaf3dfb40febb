use crate::guest::GuestMemory;
use vstd::prelude::*;

verus! {

/// ELF machine tag of AArch64.
pub const EM_AARCH64: u16 = 183;
/// ELF type of an executable.
pub const ET_EXEC: u16 = 2;
/// ELF type of a shared object (position-independent executable).
pub const ET_DYN: u16 = 3;
/// Program header type of a loadable segment.
pub const PT_LOAD: u32 = 1;

/// A program header: type, file offset, size in the file, size in memory
/// and virtual address.
pub type SegmentView = (u32, u64, u64, u64, u64);

/// What the loader reads of an ELF file: machine, type, whether it is
/// dynamically linked, entry point and program headers.
pub type ElfView = (u16, u16, bool, u64, Seq<SegmentView>);

/// What goblin's ELF parser reads from the bytes `b`, or `None` where it
/// rejects them.
pub uninterp spec fn elf_summary(b: Seq<u8>) -> Option<ElfView>;

/// A program header.
pub struct Segment {
    /// Segment type.
    pub p_type: u32,
    /// Offset of the segment in the file.
    pub offset: u64,
    /// Bytes of the segment in the file.
    pub filesz: u64,
    /// Bytes of the segment in memory.
    pub memsz: u64,
    /// Virtual address of the segment.
    pub vaddr: u64,
}

/// The parts of an ELF file that loading reads.
pub struct ElfImage {
    /// Machine tag.
    pub machine: u16,
    /// File type.
    pub e_type: u16,
    /// Whether the file has a dynamic section.
    pub is_dynamic: bool,
    /// Entry point.
    pub entry: u64,
    /// Program headers.
    pub segments: Vec<Segment>,
}

impl Segment {
    /// The header as plain values.
    pub open spec fn view(self) -> SegmentView {
        (self.p_type, self.offset, self.filesz, self.memsz, self.vaddr)
    }
}

impl ElfImage {
    /// The image as plain values.
    pub open spec fn summary(&self) -> ElfView {
        (
            self.machine,
            self.e_type,
            self.is_dynamic,
            self.entry,
            Seq::new(self.segments@.len(), |i: int| self.segments@[i].view()),
        )
    }
}

/// Why a program cannot be loaded.
#[derive(Debug, PartialEq, Eq)]
pub enum LoadError {
    /// The ELF parser rejected the file, with its message.
    Parse(String),
    /// The machine tag is not AArch64.
    UnsupportedMachine(u16),
    /// The file is neither an executable nor a position-independent one.
    UnsupportedType(u16),
    /// The file is dynamically linked.
    Dynamic,
    /// The loadable segment of this index lies outside the file or the
    /// guest address space.
    BadSegment(usize),
}

/// A loadable segment lies within the file and the address space.
pub open spec fn seg_fits(s: SegmentView, file_len: nat, mem_len: nat) -> bool {
    s.0 != PT_LOAD || (s.1 + s.2 <= file_len && s.2 <= s.3 && s.4 + s.3 <= mem_len)
}

/// Memory `m` with segment `s` of file `b` placed: its file bytes at its
/// address, zeros up to its size in memory.
pub open spec fn place(m: Seq<u8>, s: SegmentView, b: Seq<u8>) -> Seq<u8> {
    if s.0 == PT_LOAD {
        m.subrange(0, s.4 as int) + b.subrange(s.1 as int, s.1 + s.2) + Seq::new(
            (s.3 - s.2) as nat,
            |_i: int| 0u8,
        ) + m.subrange(s.4 + s.3, m.len() as int)
    } else {
        m
    }
}

/// Memory `m` with the segments `segs` of file `b` placed in order.
pub open spec fn loaded(m: Seq<u8>, segs: Seq<SegmentView>, b: Seq<u8>) -> Seq<u8>
    decreases segs.len(),
{
    if segs.len() == 0 {
        m
    } else {
        place(loaded(m, segs.drop_last(), b), segs.last(), b)
    }
}

/// The outcome of loading the image `v` of file `b` into memory of `mem_len`
/// bytes, apart from the memory: the entry point, or the first reason it
/// cannot be loaded.
pub open spec fn load_accepts(v: ElfView, file_len: nat, mem_len: nat) -> bool {
    &&& v.0 == EM_AARCH64
    &&& (v.1 == ET_EXEC || v.1 == ET_DYN)
    &&& !v.2
    &&& forall|i: int| 0 <= i < v.4.len() ==> seg_fits(#[trigger] v.4[i], file_len, mem_len)
}

/// Load a parsed image: check that it is a statically linked AArch64
/// executable and place its loadable segments into guest memory.
pub fn load_image(img: &ElfImage, buffer: &Vec<u8>, mem: &mut GuestMemory) -> (r: Result<
    u64,
    LoadError,
>)
    ensures
        ({
            let v = img.summary();
            &&& v.0 != EM_AARCH64 ==> r == Err::<u64, LoadError>(LoadError::UnsupportedMachine(v.0))
            &&& v.0 == EM_AARCH64 && v.1 != ET_EXEC && v.1 != ET_DYN ==> r == Err::<u64, LoadError>(
                LoadError::UnsupportedType(v.1),
            )
            &&& v.0 == EM_AARCH64 && (v.1 == ET_EXEC || v.1 == ET_DYN) && v.2 ==> r == Err::<
                u64,
                LoadError,
            >(LoadError::Dynamic)
            &&& r is Ok <==> load_accepts(v, buffer@.len(), old(mem)@.len())
            &&& r matches Err(LoadError::BadSegment(i)) ==> i < v.4.len() && !seg_fits(
                v.4[i as int],
                buffer@.len(),
                old(mem)@.len(),
            ) && forall|j: int| 0 <= j < i ==> seg_fits(v.4[j], buffer@.len(), old(mem)@.len())
            &&& r matches Ok(e) ==> e == v.3 && final(mem)@ == loaded(old(mem)@, v.4, buffer@)
        }),
        final(mem)@.len() == old(mem)@.len(),
        !(r matches Err(LoadError::Parse(_))),
{
    let ghost v = img.summary();
    if img.machine != EM_AARCH64 {
        return Err(LoadError::UnsupportedMachine(img.machine));
    }
    if img.e_type != ET_EXEC && img.e_type != ET_DYN {
        return Err(LoadError::UnsupportedType(img.e_type));
    }
    if img.is_dynamic {
        return Err(LoadError::Dynamic);
    }
    let file_len = buffer.len() as u64;
    let mem_len = mem.len() as u64;
    let mut i: usize = 0;
    while i < img.segments.len()
        invariant
            i <= img.segments@.len(),
            v == img.summary(),
            img.machine == EM_AARCH64,
            img.e_type == ET_EXEC || img.e_type == ET_DYN,
            !img.is_dynamic,
            file_len == buffer@.len(),
            mem_len == old(mem)@.len(),
            mem@.len() == old(mem)@.len(),
            old(mem)@.len() <= usize::MAX,
            buffer@.len() <= usize::MAX,
            forall|j: int| 0 <= j < i ==> seg_fits(v.4[j], buffer@.len(), old(mem)@.len()),
            mem@ == loaded(old(mem)@, v.4.subrange(0, i as int), buffer@),
        decreases img.segments@.len() - i,
    {
        let s = &img.segments[i];
        proof {
            assert(v.4[i as int] == s.view());
        }
        if s.p_type == PT_LOAD {
            if s.offset > file_len || s.filesz > file_len - s.offset || s.filesz > s.memsz
                || s.vaddr > mem_len || s.memsz > mem_len - s.vaddr {
                proof {
                    assert(!seg_fits(v.4[i as int], buffer@.len(), old(mem)@.len()));
                    assert(!load_accepts(v, buffer@.len(), old(mem)@.len()));
                }
                return Err(LoadError::BadSegment(i));
            }
            let ghost before = mem@;
            mem.copy_in(s.vaddr as usize, buffer, s.offset as usize, s.filesz as usize);
            let ghost mid = mem@;
            mem.fill_zero((s.vaddr + s.filesz) as usize, (s.memsz - s.filesz) as usize);
            proof {
                let a = s.vaddr as int;
                let f = s.filesz as int;
                let m = s.memsz as int;
                assert(mid.subrange(0, a + f) =~= before.subrange(0, a) + buffer@.subrange(
                    s.offset as int,
                    s.offset + f,
                ));
                assert(mid.subrange(a + m, mid.len() as int) =~= before.subrange(
                    a + m,
                    before.len() as int,
                ));
                assert(mem@ =~= place(before, s.view(), buffer@));
            }
        }
        proof {
            assert(v.4.subrange(0, i + 1).drop_last() =~= v.4.subrange(0, i as int));
            assert(v.4.subrange(0, i + 1).last() == v.4[i as int]);
        }
        i = i + 1;
    }
    proof {
        assert(v.4.subrange(0, i as int) =~= v.4);
    }
    Ok(img.entry)
}

/// Relies on goblin's `Elf::parse`: the machine tag, file type, entry point,
/// dynamic section and program headers it reads from the bytes alone.
#[verifier::external_body]
fn parse_elf(buf: &Vec<u8>) -> (r: Result<ElfImage, String>)
    ensures
        r is Ok <==> elf_summary(buf@) is Some,
        r matches Ok(img) ==> elf_summary(buf@) == Some(img.summary()),
{
    match goblin::elf::Elf::parse(buf.as_slice()) {
        Ok(elf) => Ok(ElfImage {
            machine: elf.header.e_machine,
            e_type: elf.header.e_type,
            is_dynamic: elf.dynamic.is_some(),
            entry: elf.entry,
            segments: elf.program_headers.iter().map(|p| Segment {
                p_type: p.p_type, offset: p.p_offset, filesz: p.p_filesz, memsz: p.p_memsz,
                vaddr: p.p_vaddr }).collect(),
        }),
        Err(e) => Err(e.to_string()),
    }
}

/// Parse an ELF file and load it into guest memory: the entry point, or why
/// it cannot be loaded.
pub fn load_program(buffer: &Vec<u8>, mem: &mut GuestMemory) -> (r: Result<u64, LoadError>)
    ensures
        elf_summary(buffer@) is None <==> r matches Err(LoadError::Parse(_)),
        elf_summary(buffer@) matches Some(v) ==> {
            &&& r is Ok <==> load_accepts(v, buffer@.len(), old(mem)@.len())
            &&& r matches Ok(e) ==> e == v.3 && final(mem)@ == loaded(old(mem)@, v.4, buffer@)
        },
        final(mem)@.len() == old(mem)@.len(),
{
    match parse_elf(buffer) {
        Ok(img) => load_image(&img, buffer, mem),
        Err(msg) => Err(LoadError::Parse(msg)),
    }
}

} // verus!
