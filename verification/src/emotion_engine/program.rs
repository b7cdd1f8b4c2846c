use vstd::prelude::*;

use elf::endian::LittleEndian;
use elf::ElfBytes;

use super::bus::{Bus, BOOT_MEMORY_SIZE, MAIN_MEMORY_SIZE};
use super::cpu::instruction_gen::{spec_decode, Instruction};
use super::cpu::mmu::{filled, lemma_aligned, pages_end, remapped};
use super::cpu::{Core, Mode, State};
use crate::bytes::Bytes;

verus! {

/// The entry point that the `elf` crate reads from the header of the little-endian ELF file
/// `data`; `None` where the file cannot be parsed.
pub uninterp spec fn elf_entry(data: Seq<u8>) -> Option<u64>;

/// The segments of the little-endian ELF file `data` as the `elf` crate reads them, in the
/// order of the program header table: physical address, virtual address and the bytes the
/// file holds for the segment. `None` where the file cannot be parsed, has no program header
/// table, or a segment's bytes lie outside the file.
pub uninterp spec fn elf_segments(data: Seq<u8>) -> Option<Seq<(u64, u64, Seq<u8>)>>;

/// `ElfBytes::<LittleEndian>::minimal_parse` and the header's `e_entry`: the result is the
/// name `elf_entry` of the file's bytes.
#[verifier::external_body]
fn parse_elf_entry(data: &[u8]) -> (r: Option<u64>)
    ensures
        r == elf_entry(data@),
{
    ElfBytes::<LittleEndian>::minimal_parse(data).ok().map(|elf| elf.ehdr.e_entry)
}

/// `ElfBytes::<LittleEndian>::minimal_parse`, then `segments` and `segment_data` of each
/// program header in turn, each header taken as its `p_paddr`, its `p_vaddr` and a copy of
/// its data: the result is the name `elf_segments` of the file's bytes.
#[verifier::external_body]
fn parse_elf_segments(data: &[u8]) -> (r: Option<Vec<(u64, u64, Vec<u8>)>>)
    ensures
        r is Some <==> elf_segments(data@) is Some,
        r matches Some(segments) ==> segments_view(segments@) == elf_segments(data@).unwrap(),
{
    let elf = ElfBytes::<LittleEndian>::minimal_parse(data).ok()?;
    let mut segments = Vec::new();
    for header in elf.segments()? {
        let bytes = elf.segment_data(&header).ok()?;
        segments.push((header.p_paddr, header.p_vaddr, bytes.to_vec()));
    }
    Some(segments)
}

/// The segments with their bytes taken by value.
pub open spec fn segments_view(segments: Seq<(u64, u64, Vec<u8>)>) -> Seq<(u64, u64, Seq<u8>)> {
    segments.map_values(|segment: (u64, u64, Vec<u8>)| (segment.0, segment.1, segment.2@))
}

/// Why a program or a boot image cannot be loaded.
#[derive(Debug, PartialEq, Eq, Structural, Clone, Copy)]
pub enum LoadError {
    /// The file is not a little-endian ELF file that can be parsed.
    InvalidElf,
    /// The file has no program header table, or a segment's bytes lie outside the file.
    UnreadableSegments,
    /// The entry point is not word-aligned.
    UnalignedEntry,
    /// A segment does not fit in main memory at its physical address.
    SegmentOutsideMemory,
    /// The boot image is larger than the boot memory.
    BootImageTooLarge,
}

/// The entry point, cut to 32 bits, and the segments of the ELF file `data`.
pub open spec fn program_of(data: Seq<u8>) -> Result<(u32, Seq<(u64, u64, Seq<u8>)>), LoadError> {
    match elf_entry(data) {
        None => Err(LoadError::InvalidElf),
        Some(entry) => match elf_segments(data) {
            None => Err(LoadError::UnreadableSegments),
            Some(segments) => Ok((entry as u32, segments)),
        },
    }
}

/// Whether `segment` fits in main memory at its physical address.
pub open spec fn segment_fits(segment: (u64, u64, Seq<u8>)) -> bool {
    segment.0 + segment.2.len() <= MAIN_MEMORY_SIZE
}

/// Whether every segment fits in main memory at its physical address.
pub open spec fn segments_fit(segments: Seq<(u64, u64, Seq<u8>)>) -> bool {
    forall|i: int| 0 <= i < segments.len() ==> segment_fits(#[trigger] segments[i])
}

/// What loading the ELF file `data` gives: its entry point, or why it cannot be loaded.
pub open spec fn load_outcome(data: Seq<u8>) -> Result<u32, LoadError> {
    match program_of(data) {
        Err(e) => Err(e),
        Ok((entry, segments)) => if entry % 4 != 0 {
            Err(LoadError::UnalignedEntry)
        } else if !segments_fit(segments) {
            Err(LoadError::SegmentOutsideMemory)
        } else {
            Ok(entry)
        },
    }
}

/// `memory` with `bytes` stored from index `start` on.
pub open spec fn stored(memory: Seq<u8>, start: int, bytes: Seq<u8>) -> Seq<u8> {
    Seq::new(
        memory.len(),
        |i: int|
            if start <= i < start + bytes.len() {
                bytes[i - start]
            } else {
                memory[i]
            },
    )
}

/// `memory` with the bytes of each segment stored at its physical address, one segment after
/// another, so that a later segment overwrites an earlier one where they overlap.
pub open spec fn segments_stored(memory: Seq<u8>, segments: Seq<(u64, u64, Seq<u8>)>) -> Seq<u8>
    decreases segments.len(),
{
    if segments.len() == 0 {
        memory
    } else {
        let last = segments.last();
        stored(segments_stored(memory, segments.drop_last()), last.0 as int, last.2)
    }
}

/// Storing a segment's bytes one more byte at a time.
proof fn lemma_stored_next(memory: Seq<u8>, start: int, bytes: Seq<u8>, j: int)
    requires
        0 <= j < bytes.len(),
        0 <= start,
        start + bytes.len() <= memory.len(),
    ensures
        stored(memory, start, bytes.take(j + 1)) == stored(memory, start, bytes.take(j)).update(
            start + j,
            bytes[j],
        ),
{
    assert(stored(memory, start, bytes.take(j + 1)) =~= stored(memory, start, bytes.take(j)).update(
        start + j,
        bytes[j],
    ));
}

/// Reads the entry point, cut to 32 bits as the core's program counter takes it, and the
/// segments of the ELF file `data`.
pub fn program_segments(data: &[u8]) -> (r: Result<(u32, Vec<(u64, u64, Vec<u8>)>), LoadError>)
    ensures
        match (r, program_of(data@)) {
            (Ok((entry, segments)), Ok((spec_entry, spec_segments))) => entry == spec_entry
                && segments_view(segments@) == spec_segments,
            (Err(e), Err(spec_e)) => e == spec_e,
            _ => false,
        },
{
    let entry = match parse_elf_entry(data) {
        Some(entry) => entry,
        None => return Err(LoadError::InvalidElf),
    };
    let segments = match parse_elf_segments(data) {
        Some(segments) => segments,
        None => return Err(LoadError::UnreadableSegments),
    };
    Ok((entry as u32, segments))
}

/// Loads the ELF file `data` to run: each segment's bytes go to main memory at its physical
/// address, in file order; the program counter takes the entry point; the first 512 MiB of
/// virtual addresses map to the same physical addresses in every mode. On an error nothing
/// changes.
pub fn load_program(core: &mut Core, bus: &mut Bus, data: &[u8]) -> (r: Result<u32, LoadError>)
    requires
        old(core).wf(),
        old(bus).wf(),
    ensures
        r == load_outcome(data@),
        r is Err ==> *final(core) == *old(core) && *final(bus) == *old(bus),
        r matches Ok(entry) ==> {
            let segments = elf_segments(data@).unwrap();
            &&& final(core).wf()
            &&& final(bus).wf()
            &&& final(core).state == (State { program_counter: entry, ..old(core).state })
            &&& final(core).mode == old(core).mode
            &&& final(core).main_thread_stack_pointer == old(core).main_thread_stack_pointer
            &&& final(core).mmu.tlb() == old(core).mmu.tlb()
            &&& forall|m: Mode|
                #[trigger] final(core).mmu.page_table(m) == remapped(
                    old(core).mmu.page_table(m),
                    0,
                    pages_end(0, 0x2000_0000),
                    0,
                )
            &&& forall|m: Mode|
                #[trigger] final(core).mmu.mapped_pages(m) == filled(
                    old(core).mmu.mapped_pages(m),
                    0,
                    pages_end(0, 0x2000_0000),
                    true,
                )
            &&& *final(bus) == (Bus { main_memory: final(bus).main_memory, ..*old(bus) })
            &&& final(bus).main_memory@ == segments_stored(old(bus).main_memory@, segments)
        },
{
    let (entry, segments) = match program_segments(data) {
        Ok(program) => program,
        Err(e) => return Err(e),
    };
    let ghost views = segments_view(segments@);
    if entry % 4 != 0 {
        return Err(LoadError::UnalignedEntry);
    }
    let mut i: usize = 0;
    while i < segments.len()
        invariant
            i <= segments@.len(),
            views == segments_view(segments@),
            program_of(data@) == Ok::<(u32, Seq<(u64, u64, Seq<u8>)>), LoadError>((entry, views)),
            entry % 4 == 0,
            forall|k: int| 0 <= k < i ==> segment_fits(#[trigger] views[k]),
        decreases segments@.len() - i,
    {
        let segment = &segments[i];
        assert(views[i as int] == (segment.0, segment.1, segment.2@));
        if segment.0 > MAIN_MEMORY_SIZE as u64 || segment.2.len() as u64 > MAIN_MEMORY_SIZE as u64
            - segment.0 {
            proof {
                assert(!segment_fits(views[i as int]));
            }
            return Err(LoadError::SegmentOutsideMemory);
        }
        i += 1;
    }
    let ghost old_bus = *bus;
    let mut i: usize = 0;
    while i < segments.len()
        invariant
            i <= segments@.len(),
            views == segments_view(segments@),
            program_of(data@) == Ok::<(u32, Seq<(u64, u64, Seq<u8>)>), LoadError>((entry, views)),
            entry % 4 == 0,
            forall|k: int| 0 <= k < views.len() ==> segment_fits(#[trigger] views[k]),
            *bus == (Bus { main_memory: bus.main_memory, ..old_bus }),
            bus.main_memory@ == segments_stored(old_bus.main_memory@, views.take(i as int)),
            old_bus.main_memory@.len() == MAIN_MEMORY_SIZE,
        decreases segments@.len() - i,
    {
        let segment = &segments[i];
        assert(views[i as int] == (segment.0, segment.1, segment.2@));
        let start = segment.0 as usize;
        let ghost before = bus.main_memory@;
        proof {
            assert(segments_stored(old_bus.main_memory@, views.take(i as int)).len() == MAIN_MEMORY_SIZE)
                by {
                lemma_segments_stored_len(old_bus.main_memory@, views.take(i as int));
            }
        }
        let mut j: usize = 0;
        while j < segment.2.len()
            invariant
                j <= segment.2@.len(),
                start + segment.2@.len() <= MAIN_MEMORY_SIZE,
                before.len() == MAIN_MEMORY_SIZE,
                *bus == (Bus { main_memory: bus.main_memory, ..old_bus }),
                bus.main_memory@ == stored(before, start as int, segment.2@.take(j as int)),
            decreases segment.2@.len() - j,
        {
            proof {
                lemma_stored_next(before, start as int, segment.2@, j as int);
            }
            bus.main_memory.set(start + j, segment.2[j]);
            j += 1;
        }
        proof {
            assert(segment.2@.take(segment.2@.len() as int) =~= segment.2@);
            assert(views.take(i + 1).drop_last() =~= views.take(i as int));
            assert(views.take(i + 1).last() == views[i as int]);
        }
        i += 1;
    }
    proof {
        assert(views.take(views.len() as int) =~= views);
    }
    core.state.program_counter = entry;
    proof {
        lemma_aligned(0);
    }
    core.mmu.mmap(0, 0x2000_0000, 0);
    proof {
        lemma_segments_stored_len(old_bus.main_memory@, views);
    }
    Ok(entry)
}

/// Storing segments keeps the memory's length.
proof fn lemma_segments_stored_len(memory: Seq<u8>, segments: Seq<(u64, u64, Seq<u8>)>)
    ensures
        segments_stored(memory, segments).len() == memory.len(),
    decreases segments.len(),
{
    if segments.len() > 0 {
        lemma_segments_stored_len(memory, segments.drop_last());
    }
}

/// Loads the boot image `data` at the start of the boot memory; the rest of the boot memory
/// and everything else is left as it was.
pub fn load_boot_memory(bus: &mut Bus, data: &[u8]) -> (r: Result<(), LoadError>)
    requires
        old(bus).wf(),
    ensures
        r is Err <==> data@.len() > BOOT_MEMORY_SIZE,
        r is Err ==> *final(bus) == *old(bus),
        r is Err ==> r == Err::<(), LoadError>(LoadError::BootImageTooLarge),
        r is Ok ==> final(bus).wf() && *final(bus) == (Bus {
            boot_memory: final(bus).boot_memory,
            ..*old(bus)
        }) && final(bus).boot_memory@ == stored(old(bus).boot_memory@, 0, data@),
{
    if data.len() > BOOT_MEMORY_SIZE {
        return Err(LoadError::BootImageTooLarge);
    }
    let ghost before = bus.boot_memory@;
    let mut j: usize = 0;
    while j < data.len()
        invariant
            j <= data@.len() <= BOOT_MEMORY_SIZE,
            before.len() == BOOT_MEMORY_SIZE,
            *bus == (Bus { boot_memory: bus.boot_memory, ..*old(bus) }),
            before == old(bus).boot_memory@,
            bus.boot_memory@ == stored(before, 0, data@.take(j as int)),
        decreases data@.len() - j,
    {
        proof {
            lemma_stored_next(before, 0, data@, j as int);
        }
        bus.boot_memory.set(j, data[j]);
        j += 1;
    }
    proof {
        assert(data@.take(data@.len() as int) =~= data@);
    }
    Ok(())
}

/// One word of a disassembly: its address, the word, the instruction it decodes to, whether
/// that does nothing, and the target if it is a branch.
#[derive(Debug, PartialEq, Eq, Structural, Clone, Copy)]
pub struct DisassembledWord {
    pub address: u64,
    pub word: u32,
    pub instruction: Instruction,
    pub nop: bool,
    pub branch_target: Option<u32>,
}

/// Decodes the word `word` that stands at `address`: `None` for a word the decoder does not
/// handle; else the instruction, whether it is a no-op, and its branch target, reckoned from
/// the low 32 bits of the address.
pub fn disassemble_word(address: u64, word: u32) -> (r: Option<DisassembledWord>)
    ensures
        r is None <==> spec_decode(word) is None,
        r matches Some(line) ==> line == (DisassembledWord {
            address,
            word,
            instruction: spec_decode(word).unwrap(),
            nop: spec_decode(word).unwrap().spec_is_nop(),
            branch_target: spec_decode(word).unwrap().spec_branch_target(address as u32),
        }),
{
    match Instruction::try_decode(word) {
        None => None,
        Some(instruction) => {
            let nop = instruction.is_nop();
            let branch_target = instruction.branch_target(address as u32);
            Some(DisassembledWord { address, word, instruction, nop, branch_target })
        },
    }
}

/// The whole little-endian words of a segment's bytes that start at `virtual_address`, each
/// with its address; bytes after the last whole word are left out.
pub fn segment_words(virtual_address: u64, bytes: &[u8]) -> (r: Vec<(u64, u32)>)
    requires
        bytes@.len() / 4 == 0 || virtual_address + 4 * (bytes@.len() / 4 - 1) <= u64::MAX,
    ensures
        r@.len() == bytes@.len() / 4,
        forall|i: int|
            0 <= i < r@.len() ==> #[trigger] r@[i] == (
                (virtual_address + 4 * i) as u64,
                u32::decode_bytes(bytes@.subrange(4 * i, 4 * i + 4)),
            ),
{
    let count = bytes.len() / 4;
    let mut words: Vec<(u64, u32)> = Vec::new();
    let mut i: usize = 0;
    while i < count
        invariant
            i <= count,
            count == bytes@.len() / 4,
            count == 0 || virtual_address + 4 * (count - 1) <= u64::MAX,
            4 * count <= bytes@.len(),
            bytes@.len() <= usize::MAX,
            words@.len() == i,
            forall|k: int|
                0 <= k < i ==> #[trigger] words@[k] == (
                    (virtual_address + 4 * k) as u64,
                    u32::decode_bytes(bytes@.subrange(4 * k, 4 * k + 4)),
                ),
        decreases count - i,
    {
        assert(4 * i + 4 <= 4 * count) by (nonlinear_arith)
            requires
                i < count,
        ;
        let word = u32::from_bytes(vstd::slice::slice_subrange(bytes, 4 * i, 4 * i + 4));
        let address = virtual_address + 4 * (i as u64);
        words.push((address, word));
        i += 1;
    }
    words
}

} // verus!
