use pups2::emotion_engine::bus::{Bus, PhysicalAddress, BOOT_MEMORY_SIZE};
use pups2::emotion_engine::cpu::instruction_gen::Instruction;
use pups2::emotion_engine::cpu::register::Register;
use pups2::emotion_engine::cpu::{Core, Mode};
use pups2::emotion_engine::program::{
    disassemble_word, load_boot_memory, load_program, program_segments, segment_words, LoadError,
};

/// A segment of a test file: physical address, virtual address, bytes.
type Segment = (u32, u32, Vec<u8>);

fn push16(out: &mut Vec<u8>, value: u16) {
    out.extend_from_slice(&value.to_le_bytes());
}

fn push32(out: &mut Vec<u8>, value: u32) {
    out.extend_from_slice(&value.to_le_bytes());
}

/// A little-endian 32-bit MIPS ELF executable with the given entry point and loadable segments.
fn elf_file(entry: u32, segments: &[Segment]) -> Vec<u8> {
    let mut file = vec![0x7F, b'E', b'L', b'F', 1, 1, 1, 0, 0, 0, 0, 0, 0, 0, 0, 0];
    push16(&mut file, 2);
    push16(&mut file, 8);
    push32(&mut file, 1);
    push32(&mut file, entry);
    push32(&mut file, 52);
    push32(&mut file, 0);
    push32(&mut file, 0);
    push16(&mut file, 52);
    push16(&mut file, 32);
    push16(&mut file, segments.len() as u16);
    push16(&mut file, 0);
    push16(&mut file, 0);
    push16(&mut file, 0);
    let mut offset = 52 + 32 * segments.len() as u32;
    for (physical, virtual_address, bytes) in segments {
        push32(&mut file, 1);
        push32(&mut file, offset);
        push32(&mut file, *virtual_address);
        push32(&mut file, *physical);
        push32(&mut file, bytes.len() as u32);
        push32(&mut file, bytes.len() as u32);
        push32(&mut file, 5);
        push32(&mut file, 4);
        offset += bytes.len() as u32;
    }
    for (_, _, bytes) in segments {
        file.extend_from_slice(bytes);
    }
    file
}

fn code() -> Vec<u8> {
    let mut bytes = Vec::new();
    push32(&mut bytes, 0x2442_0001);
    push32(&mut bytes, 0);
    bytes
}

#[test]
fn program_segments_reads_entry_and_segments() {
    let file = elf_file(0x0010_0008, &[(0x0010_0000, 0x8010_0000, code())]);
    let (entry, segments) = program_segments(&file).unwrap();
    assert_eq!(entry, 0x0010_0008);
    assert_eq!(segments, vec![(0x0010_0000, 0x8010_0000, code())]);
}

#[test]
fn load_program_stores_segments_and_sets_the_entry() {
    let file = elf_file(0x0010_0004, &[(0x0010_0000, 0x0010_0000, code())]);
    let mut core = Core::new();
    let mut bus = Bus::new();
    assert_eq!(load_program(&mut core, &mut bus, &file), Ok(0x0010_0004));
    assert_eq!(core.state.program_counter, 0x0010_0004);
    assert_eq!(&bus.main_memory[0x0010_0000..0x0010_0008], &code()[..]);
    assert_eq!(bus.main_memory[0x000F_FFFF], 0);
    assert_eq!(bus.main_memory[0x0010_0008], 0);
    assert!(core.mmu.is_mapped(0x1FFF_F000, Mode::User));
    assert!(!core.mmu.is_mapped(0x2000_0000, Mode::User));
    assert_eq!(core.mmu.virtual_to_physical(0x0010_0004, Mode::User), PhysicalAddress(0x0010_0004));
}

#[test]
fn later_segments_overwrite_earlier_ones() {
    let file = elf_file(0x1000, &[(0x1000, 0x1000, vec![1, 2, 3, 4]), (0x1002, 0x1002, vec![9, 9])]);
    let mut core = Core::new();
    let mut bus = Bus::new();
    assert_eq!(load_program(&mut core, &mut bus, &file), Ok(0x1000));
    assert_eq!(&bus.main_memory[0x1000..0x1004], &[1, 2, 9, 9]);
}

#[test]
fn load_program_errors_leave_the_machine_unchanged() {
    let mut core = Core::new();
    let mut bus = Bus::new();
    assert_eq!(load_program(&mut core, &mut bus, b"not an elf file, not at all, no"), Err(LoadError::InvalidElf));
    let unaligned = elf_file(0x1002, &[(0x1000, 0x1000, code())]);
    assert_eq!(load_program(&mut core, &mut bus, &unaligned), Err(LoadError::UnalignedEntry));
    let too_far = elf_file(0x1000, &[(0x1000, 0x1000, code()), (0x01FF_FFFC, 0x1000, code())]);
    assert_eq!(load_program(&mut core, &mut bus, &too_far), Err(LoadError::SegmentOutsideMemory));
    assert_eq!(core.state.program_counter, 0xBFC0_0000);
    assert_eq!(bus.main_memory[0x1000], 0);
    assert!(!core.mmu.is_mapped(0x1000, Mode::User));
}

#[test]
fn segments_outside_the_file_cannot_be_read() {
    let mut file = elf_file(0x1000, &[(0x1000, 0x1000, code())]);
    file.truncate(file.len() - 4);
    assert_eq!(program_segments(&file), Err(LoadError::UnreadableSegments));
    let mut no_table = elf_file(0x1000, &[]);
    no_table[28..32].copy_from_slice(&0u32.to_le_bytes());
    assert_eq!(program_segments(&no_table), Err(LoadError::UnreadableSegments));
}

#[test]
fn boot_memory_takes_the_image() {
    let mut bus = Bus::new();
    assert_eq!(load_boot_memory(&mut bus, &[1, 2, 3]), Ok(()));
    assert_eq!(&bus.boot_memory[0..4], &[1, 2, 3, 0]);
    let too_large = vec![7u8; BOOT_MEMORY_SIZE + 1];
    assert_eq!(load_boot_memory(&mut bus, &too_large), Err(LoadError::BootImageTooLarge));
    assert_eq!(bus.boot_memory[3], 0);
}

#[test]
fn segment_words_split_whole_words() {
    let bytes = [1, 0, 0, 0, 0x01, 0x00, 0x42, 0x24, 0xFF, 0xFF];
    assert_eq!(segment_words(0x1000, &bytes), vec![(0x1000, 1), (0x1004, 0x2442_0001)]);
    assert_eq!(segment_words(0x1000, &bytes[..3]), vec![]);
}

#[test]
fn disassemble_word_decodes_with_nop_and_target() {
    let add = disassemble_word(0x1000, 0x2442_0001).unwrap();
    assert_eq!(add.instruction, Instruction::Addiu(Register::V0, Register::V0, 1));
    assert_eq!((add.address, add.word, add.nop, add.branch_target), (0x1000, 0x2442_0001, false, None));
    assert!(disassemble_word(0x1004, 0).unwrap().nop);
    let branch = disassemble_word(0x1_0000_1000, 0x1000_0002).unwrap();
    assert_eq!(branch.branch_target, Some(0x100C));
    assert_eq!(disassemble_word(0x1000, 0x0020_0000), None);
}
