use khemu::guest::{DisasException, GuestMemory, GUEST_SIZE};
use khemu::ir::op::TrapOp;
use khemu::runtime::loader::{load_image, load_program, ElfImage, LoadError, Segment};
use khemu::runtime::{translation_error, PendingQueue, TrapOutcome};

fn queue(pcs: &[usize]) -> PendingQueue {
    let mut q = PendingQueue::new(pcs[0]);
    for &pc in &pcs[1..] {
        q.schedule(&DisasException::Branch(Some(pc), None));
    }
    q
}

fn drain(mut q: PendingQueue) -> Vec<usize> {
    let mut v = Vec::new();
    while let Some(pc) = q.pop_front() {
        v.push(pc);
    }
    v
}

#[test]
fn continue_runs_right_after_the_block() {
    let mut q = queue(&[0x10, 0x40]);
    q.schedule(&DisasException::Continue(0x14));
    assert_eq!(drain(q), vec![0x10, 0x14, 0x40]);
}

#[test]
fn known_branch_targets_wait_at_the_back() {
    let mut q = queue(&[0x10, 0x40]);
    q.schedule(&DisasException::Branch(Some(0x80), Some(0x14)));
    assert_eq!(drain(q), vec![0x10, 0x40, 0x80, 0x14]);
    let mut q = queue(&[0x10]);
    q.schedule(&DisasException::Branch(None, Some(0x14)));
    assert_eq!(drain(q), vec![0x10, 0x14]);
    let mut q = queue(&[0x10]);
    q.schedule(&DisasException::Branch(None, None));
    assert_eq!(drain(q), vec![0x10]);
}

#[test]
fn lookup_trap_splices_after_the_front() {
    let mut q = queue(&[0x10, 0x40]);
    assert_eq!(q.handle_trap(0, 0x24), TrapOutcome::Resume);
    assert_eq!(q.front(), Some(0x10));
    assert_eq!(drain(q), vec![0x10, 0x24, 0x40]);
}

#[test]
fn other_traps_end_the_run() {
    let mut q = queue(&[0x10]);
    assert_eq!(q.handle_trap(1, 0x10), TrapOutcome::Fatal(TrapOp::UndefOpcode));
    assert_eq!(q.handle_trap(9, 0), TrapOutcome::BadCause(9));
    assert_eq!(q.len(), 1);
}

#[test]
fn unexpected_exits_carry_their_message() {
    assert_eq!(translation_error(&DisasException::Unexpected("x".to_string())), Some("x".to_string()));
    assert_eq!(translation_error(&DisasException::Continue(4)), None);
}

fn image(machine: u16, e_type: u16, dynamic: bool, segments: Vec<Segment>) -> ElfImage {
    ElfImage { machine, e_type, is_dynamic: dynamic, entry: 0x400, segments }
}

fn seg(p_type: u32, offset: u64, filesz: u64, memsz: u64, vaddr: u64) -> Segment {
    Segment { p_type, offset, filesz, memsz, vaddr }
}

#[test]
fn load_places_segments_and_zero_fills() {
    let file: Vec<u8> = (0u8..32).collect();
    let mut mem = GuestMemory::new(64);
    mem.write_bytes(0, &[0xff; 64]);
    let img = image(183, 2, false, vec![seg(1, 4, 4, 8, 16), seg(6, 0, 32, 32, 0)]);
    assert_eq!(load_image(&img, &file, &mut mem), Ok(0x400));
    let got: Vec<u8> = (0..64).map(|i| mem.read_u8(i)).collect();
    assert_eq!(&got[16..24], &[4, 5, 6, 7, 0, 0, 0, 0]);
    assert_eq!(got[15], 0xff);
    assert_eq!(got[24], 0xff);
}

#[test]
fn load_rejects_other_machines_types_and_dynamic_files() {
    let file = vec![0u8; 8];
    let mut mem = GuestMemory::new(16);
    assert_eq!(load_image(&image(62, 2, false, vec![]), &file, &mut mem), Err(LoadError::UnsupportedMachine(62)));
    assert_eq!(load_image(&image(183, 1, false, vec![]), &file, &mut mem), Err(LoadError::UnsupportedType(1)));
    assert_eq!(load_image(&image(183, 3, true, vec![]), &file, &mut mem), Err(LoadError::Dynamic));
    assert_eq!(load_image(&image(183, 3, false, vec![]), &file, &mut mem), Ok(0x400));
}

#[test]
fn load_rejects_segments_out_of_range() {
    let file = vec![0u8; 8];
    let mut mem = GuestMemory::new(16);
    let img = image(183, 2, false, vec![seg(1, 0, 4, 4, 0), seg(1, 4, 8, 8, 0)]);
    assert_eq!(load_image(&img, &file, &mut mem), Err(LoadError::BadSegment(1)));
    let img = image(183, 2, false, vec![seg(1, 0, 4, 4, 14)]);
    assert_eq!(load_image(&img, &file, &mut mem), Err(LoadError::BadSegment(0)));
}

#[test]
fn load_program_rejects_what_is_not_elf() {
    let mut mem = GuestMemory::new(16);
    assert!(matches!(load_program(&vec![1, 2, 3], &mut mem), Err(LoadError::Parse(_))));
}

fn elf64(e_type: u16, machine: u16) -> Vec<u8> {
    // a minimal little-endian ELF64 header with one PT_LOAD program header
    let mut b = vec![0u8; 64 + 56 + 8];
    b[0..4].copy_from_slice(&[0x7f, b'E', b'L', b'F']);
    b[4] = 2;
    b[5] = 1;
    b[6] = 1;
    b[16..18].copy_from_slice(&e_type.to_le_bytes());
    b[18..20].copy_from_slice(&machine.to_le_bytes());
    b[20..24].copy_from_slice(&1u32.to_le_bytes());
    b[24..32].copy_from_slice(&0x20u64.to_le_bytes());
    b[32..40].copy_from_slice(&64u64.to_le_bytes());
    b[52..54].copy_from_slice(&64u16.to_le_bytes());
    b[54..56].copy_from_slice(&56u16.to_le_bytes());
    b[56..58].copy_from_slice(&1u16.to_le_bytes());
    let ph = 64;
    b[ph..ph + 4].copy_from_slice(&1u32.to_le_bytes());
    b[ph + 8..ph + 16].copy_from_slice(&120u64.to_le_bytes());
    b[ph + 16..ph + 24].copy_from_slice(&0x20u64.to_le_bytes());
    b[ph + 32..ph + 40].copy_from_slice(&8u64.to_le_bytes());
    b[ph + 40..ph + 48].copy_from_slice(&12u64.to_le_bytes());
    b[120..128].copy_from_slice(&[0x00, 0x04, 0x00, 0x91, 0xaa, 0xbb, 0xcc, 0xdd]);
    b
}

#[test]
fn load_program_places_an_aarch64_executable() {
    let mut mem = GuestMemory::new(64);
    assert_eq!(load_program(&elf64(2, 183), &mut mem), Ok(0x20));
    assert_eq!(mem.read_u32(0x20), 0x91000400);
    assert_eq!(mem.read_u8(0x27), 0xdd);
    assert_eq!(mem.read_u8(0x2b), 0);
}

#[test]
fn load_program_rejects_other_machines() {
    let mut mem = GuestMemory::new(64);
    assert_eq!(load_program(&elf64(2, 62), &mut mem), Err(LoadError::UnsupportedMachine(62)));
}

#[test]
fn guest_memory_spans_the_whole_address_space() {
    let mut mem = GuestMemory::new(GUEST_SIZE);
    assert_eq!(mem.len(), 0x2000_0000);
    mem.write_bytes(GUEST_SIZE - 4, &0xd503201fu32.to_le_bytes());
    assert_eq!(mem.read_u32(GUEST_SIZE - 4), 0xd503201f);
    assert_eq!(mem.read_u8(0), 0);
}

#[test]
fn default_block_size_is_4096_ops() {
    assert_eq!(khemu::runtime::DEFAULT_TB_SIZE, 4096);
}
