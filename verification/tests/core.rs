use pups2::emotion_engine::bus::{Bus, PhysicalAddress};
use pups2::emotion_engine::cpu::control::{Cop0Register, Register as ControlRegister};
use pups2::emotion_engine::cpu::instruction::Occurrence;
use pups2::emotion_engine::cpu::instruction_gen::Instruction;
use pups2::emotion_engine::cpu::jit::{CacheIndex, CacheIndexView};
use pups2::emotion_engine::cpu::mmu::{Mmu, TlbEntry};
use pups2::emotion_engine::cpu::register::Register;
use pups2::emotion_engine::cpu::{Core, Mode};

fn identity_mapped() -> (Core, Bus) {
    let mut core = Core::new();
    core.mmu.mmap(0, 0x2000_0000, 0);
    core.state.program_counter = 0x1000;
    (core, Bus::new())
}

#[test]
fn decode_reads_the_fields() {
    // addiu v0, v0, 1
    assert_eq!(Instruction::decode(0x2442_0001), Instruction::Addiu(Register::V0, Register::V0, 1));
    // lui t0, 0x1234
    assert_eq!(Instruction::decode(0x3C08_1234), Instruction::Lui(Register::T0, 0x1234));
    // addu v0, a0, a1
    assert_eq!(Instruction::decode(0x0085_1021), Instruction::Addu(Register::V0, Register::A0, Register::A1));
    // sw ra, 0x10(sp)
    assert_eq!(Instruction::decode(0xAFBF_0010), Instruction::Sw(Register::Ra, 0x10, Register::Sp));
    // j 0x100
    assert_eq!(Instruction::decode(0x0800_0100), Instruction::J(0x100));
    assert_eq!(Instruction::decode(0), Instruction::Sll(Register::Zero, Register::Zero, 0));
}

#[test]
fn try_decode_rejects_unhandled_words() {
    // A shift with a nonzero rs field is not an instruction.
    assert_eq!(Instruction::try_decode(0x0020_0000), None);
    assert_eq!(Instruction::try_decode(0x2442_0001), Some(Instruction::Addiu(Register::V0, Register::V0, 1)));
}

#[test]
fn nops_and_branch_targets() {
    assert!(Instruction::decode(0).is_nop());
    assert!(Instruction::Addiu(Register::T0, Register::T0, 0).is_nop());
    assert!(!Instruction::Addiu(Register::T0, Register::T1, 0).is_nop());
    assert_eq!(Instruction::Beq(Register::Zero, Register::Zero, 2).branch_target(0x1000), Some(0x100C));
    assert_eq!(Instruction::Beq(Register::Zero, Register::Zero, 0xFFFF).branch_target(0x1000), Some(0x1000));
    assert_eq!(Instruction::J(0x100).branch_target(0x8000_1000), Some(0x8000_0400));
    assert_eq!(Instruction::Sync.branch_target(0x1000), None);
}

#[test]
fn definitions_and_uses_skip_the_zero_register() {
    let add = Instruction::Addu(Register::V0, Register::A0, Register::Zero);
    assert_eq!(add.definitions(), vec![Occurrence::Core(Register::V0)]);
    assert_eq!(add.uses(), vec![Occurrence::Core(Register::A0)]);
}

#[test]
fn registers_keep_their_upper_half() {
    let mut core = Core::new();
    core.set_register(Register::T0, 0xFFFF_FFFF_FFFF_FFFFu128 << 64 | 5);
    core.set_register(Register::T0, 7u64);
    let low: u64 = core.get_register(Register::T0);
    let upper: u64 = core.get_upper(Register::T0);
    assert_eq!(low, 7);
    assert_eq!(upper, 0xFFFF_FFFF_FFFF_FFFF);
    core.set_register(Register::Zero, 9u64);
    let zero: u64 = core.get_register(Register::Zero);
    assert_eq!(zero, 0);
    core.state.write_register64(Register::T1, 0x1122_3344_5566_7788);
    assert_eq!(core.state.read_register32(Register::T1), 0x5566_7788);
    assert_eq!(core.state.read_register64(Register::T1), 0x1122_3344_5566_7788);
    core.state.write_register128(Register::T1, 1 << 100);
    assert_eq!(core.state.read_register128(Register::T1), 1 << 100);
    core.state.write_register128(Register::Zero, 3);
    assert_eq!(core.state.read_register128(Register::Zero), 0);
}

#[test]
fn immediates_build_a_constant() {
    let (mut core, mut bus) = identity_mapped();
    core.interpret_instruction(Instruction::Lui(Register::T0, 0x8234), &mut bus);
    let t0: u64 = core.get_register(Register::T0);
    assert_eq!(t0, 0xFFFF_FFFF_8234_0000);
    core.interpret_instruction(Instruction::Ori(Register::T0, Register::T0, 0x5678), &mut bus);
    let t0: u64 = core.get_register(Register::T0);
    assert_eq!(t0, 0xFFFF_FFFF_8234_5678);
    core.interpret_instruction(Instruction::Addiu(Register::T1, Register::T0, 0xFFFF), &mut bus);
    let t1: u64 = core.get_register(Register::T1);
    assert_eq!(t1, 0xFFFF_FFFF_8234_5677);
    assert_eq!(core.state.program_counter, 0x100C);
}

#[test]
fn zero_register_stays_zero() {
    let (mut core, mut bus) = identity_mapped();
    core.interpret_instruction(Instruction::Lui(Register::Zero, 0x8234), &mut bus);
    core.interpret_instruction(Instruction::Addiu(Register::Zero, Register::Zero, 7), &mut bus);
    core.interpret_instruction(Instruction::Lbu(Register::Zero, 0x10, Register::Zero), &mut bus);
    assert_eq!(core.state.read_register128(Register::Zero), 0);
    assert_eq!(core.state.program_counter, 0x100C);
}

#[test]
fn branch_runs_its_delay_slot_first() {
    let (mut core, mut bus) = identity_mapped();
    core.interpret_instruction(Instruction::Beq(Register::Zero, Register::Zero, 2), &mut bus);
    assert_eq!(core.state.program_counter, 0x1004);
    assert_eq!(core.state.delayed_branch_target, Some(0x100C));
    core.interpret_instruction(Instruction::Addiu(Register::V0, Register::Zero, 1), &mut bus);
    assert_eq!(core.state.program_counter, 0x100C);
    assert_eq!(core.state.delayed_branch_target, None);
    let v0: u64 = core.get_register(Register::V0);
    assert_eq!(v0, 1);
}

#[test]
fn jump_and_link_saves_the_return_address() {
    let (mut core, mut bus) = identity_mapped();
    core.interpret_instruction(Instruction::Jal(0x800), &mut bus);
    let ra: u64 = core.get_register(Register::Ra);
    assert_eq!(ra, 0x1008);
    assert_eq!(core.state.delayed_branch_target, Some(0x2000));
}

#[test]
fn store_then_load_gives_the_word_back() {
    let (mut core, mut bus) = identity_mapped();
    core.set_register(Register::T0, 0x8765_4321u64);
    core.interpret_instruction(Instruction::Sw(Register::T0, 0x10, Register::Zero), &mut bus);
    assert_eq!(bus.read::<u32>(0x10), 0x8765_4321);
    core.interpret_instruction(Instruction::Lw(Register::T2, 0x10, Register::Zero), &mut bus);
    let t2: u64 = core.get_register(Register::T2);
    assert_eq!(t2, 0xFFFF_FFFF_8765_4321);
    core.interpret_instruction(Instruction::Lbu(Register::T3, 0x13, Register::Zero), &mut bus);
    let t3: u64 = core.get_register(Register::T3);
    assert_eq!(t3, 0x87);
}

#[test]
fn interpret_next_fetches_from_memory() {
    let (mut core, mut bus) = identity_mapped();
    bus.write::<u32>(0x1000, 0x2442_0001);
    core.interpret_next(&mut bus);
    let v0: u64 = core.get_register(Register::V0);
    assert_eq!(v0, 1);
    assert_eq!(core.state.program_counter, 0x1004);
}

#[test]
fn multiply_and_divide_fill_lo_and_hi() {
    let (mut core, mut bus) = identity_mapped();
    core.set_register(Register::A0, 7u64);
    core.set_register(Register::A1, 0xFFFF_FFFF_FFFF_FFFDu64);
    core.interpret_instruction(Instruction::Div(Register::A0, Register::A1), &mut bus);
    let lo: u64 = core.get_register(Register::Lo);
    let hi: u64 = core.get_register(Register::Hi);
    assert_eq!(lo, 0xFFFF_FFFF_FFFF_FFFE);
    assert_eq!(hi, 1);
    core.interpret_instruction(Instruction::Multu(Register::V0, Register::A0, Register::A0), &mut bus);
    let lo: u64 = core.get_register(Register::Lo);
    let v0: u64 = core.get_register(Register::V0);
    assert_eq!(lo, 49);
    assert_eq!(v0, 49);
}

#[test]
fn mmap_maps_pages_consecutively() {
    let mut mmu = Mmu::new();
    mmu.mmap(0x1000_0000, 0x3000, 0x0020_0000);
    assert_eq!(mmu.virtual_to_physical(0x1000_0004, Mode::User), PhysicalAddress(0x0020_0004));
    assert_eq!(mmu.virtual_to_physical(0x1000_2FFC, Mode::Kernel), PhysicalAddress(0x0020_2FFC));
    assert!(mmu.physically_consecutive(0x1000_0000..0x1000_3000, Mode::Kernel));
}

#[test]
fn mmap_of_no_bytes_maps_nothing() {
    let mut mmu = Mmu::new();
    mmu.mmap(0x1000_0000, 0, 0x0020_0000);
    assert!(!mmu.is_mapped(0x1000_0000, Mode::User));
    assert!(!mmu.is_mapped(0x0FFF_F000, Mode::User));
    mmu.mmap(0x1000_0000, 1, 0x0020_0000);
    assert!(mmu.is_mapped(0x1000_0FFF, Mode::User));
    assert!(!mmu.is_mapped(0x1000_1000, Mode::User));
}

#[test]
fn kernel_segments_map_directly() {
    let mmu = Mmu::new();
    assert_eq!(mmu.virtual_to_physical(0x8000_1234, Mode::Kernel), PhysicalAddress(0x1234));
    assert_eq!(mmu.virtual_to_physical(0xBFC0_0000, Mode::Kernel), PhysicalAddress(0x1FC0_0000));
}

#[test]
fn tlb_entry_fields() {
    let raw: u128 = (0x3u128 << 109) | (0x1_2345u128 << 77) | (1u128 << 76) | (0x42u128 << 64)
        | (1u128 << 63) | (0xA_BCDEu128 << 38) | (2u128 << 35) | (1u128 << 34) | (1u128 << 33)
        | (0x1_1111u128 << 6) | (3u128 << 3) | (1u128 << 1);
    let entry = TlbEntry::new(raw);
    assert_eq!(entry.mask(), 3);
    assert_eq!(entry.virtual_page_number_div_2(), 0x1_2345);
    assert!(entry.global());
    assert_eq!(entry.address_space_id(), 0x42);
    assert!(entry.scratchpad());
    assert_eq!(entry.page_frame_number_even(), 0xA_BCDE);
    assert_eq!(entry.cache_mode_even(), 2);
    assert!(entry.dirty_even());
    assert!(entry.valid_even());
    assert_eq!(entry.page_frame_number_odd(), 0x1_1111);
    assert_eq!(entry.cache_mode_odd(), 3);
    assert!(!entry.dirty_odd());
    assert!(entry.valid_odd());
}

#[test]
fn control_registers_by_number() {
    assert_eq!(ControlRegister::from(12u32), ControlRegister::Status);
    assert_eq!(ControlRegister::from(32 + 9u32), ControlRegister::Count);
    assert_eq!(Cop0Register::from(7u32), Cop0Register::Undefined);
    assert_eq!(Cop0Register::from(23u32), Cop0Register::BadPAddr);
    assert_eq!(Cop0Register::from(31u32), Cop0Register::Undefined);
    assert_eq!(Register::from(29u32), Register::Sp);
    assert_eq!(Register::Zero.non_zero(), None);
    assert_eq!(Register::Ra.non_zero(), Some(Register::Ra));
}

#[test]
fn cache_index_packs_entry_numbers() {
    assert_eq!(CacheIndex::not_cached().view(), CacheIndexView::NotCached);
    assert_eq!(CacheIndex::cached(0).view(), CacheIndexView::Cached(0));
    assert_eq!(CacheIndex::cached(0xFFFD).view(), CacheIndexView::Cached(0xFFFD));
}

#[test]
fn supports_checks_what_interpretation_needs() {
    let (mut core, bus) = identity_mapped();
    core.set_register(Register::T0, 0x1001u64);
    assert!(!core.supports(&bus, Instruction::Jr(Register::T0)));
    core.set_register(Register::T0, 0x1000u64);
    assert!(core.supports(&bus, Instruction::Jr(Register::T0)));
    assert!(core.supports(&bus, Instruction::Lw(Register::T1, 0x10, Register::Zero)));
    assert!(!core.supports(&bus, Instruction::Lw(Register::T1, 0x11, Register::Zero)));
    assert!(core.supports(&bus, Instruction::Sw(Register::T1, 0x20, Register::Zero)));
    assert!(core.supports(&bus, Instruction::Lbu(Register::T1, 0x11, Register::Zero)));
    assert!(!core.supports(&bus, Instruction::Lb(Register::T1, 0x11, Register::Zero)));
    // Single-precision arithmetic is left to the caller.
    let f = pups2::emotion_engine::cpu::fpu::Register::from(1u32);
    assert!(!core.supports(&bus, Instruction::Muls(f, f, f)));
    core.set_register(Register::V1, 0x3cu64);
    core.set_register(Register::A1, 0xFFFF_FFFFu64);
    core.set_register(Register::A2, 0x0300_0000u64);
    assert!(!core.supports(&bus, Instruction::Syscall));
    core.set_register(Register::A2, 0x1000u64);
    assert!(core.supports(&bus, Instruction::Syscall));
}

#[test]
fn unmapped_addresses_cannot_be_read() {
    let core = Core::new();
    let bus = Bus::new();
    assert!(!core.can_read_virtual::<u32>(&bus, 0x10));
    assert!(core.can_read_virtual::<u32>(&bus, 0x8000_0010));
    assert!(!core.can_read_virtual::<u32>(&bus, 0x8000_0011));
    assert!(!core.supports(&bus, Instruction::Lw(Register::T1, 0x10, Register::Zero)));
    assert!(core.mmu.is_mapped(0xBFC0_0000, Mode::Kernel));
    assert!(!core.mmu.is_mapped(0xBFC0_0000, Mode::User));
}

#[test]
fn syscall_sets_the_main_thread_stack() {
    let (mut core, mut bus) = identity_mapped();
    core.set_register(Register::V1, 0x3cu64);
    core.set_register(Register::A1, 0xFFFF_FFFFu64);
    core.set_register(Register::A2, 0x1000u64);
    core.interpret_instruction(Instruction::Syscall, &mut bus);
    let v0: u64 = core.get_register(Register::V0);
    assert_eq!(v0, 0x0200_0000);
    assert_eq!(core.main_thread_stack_pointer, 0x0200_0000);
}

#[test]
fn float_results_are_written_back() {
    let (mut core, _bus) = identity_mapped();
    let f2 = pups2::emotion_engine::cpu::fpu::Register::from(2u32);
    core.finish_float_instruction(f2, 1.5f32.to_bits());
    assert_eq!(core.state.fpu.get_register(f2), 1.5f32.to_bits());
    assert_eq!(core.state.program_counter, 0x1004);
}

#[test]
fn instruction_text_names_the_operands() {
    assert_eq!(Instruction::decode(0x0085_1021).text(), "v0 = addu a0, a1");
    assert_eq!(Instruction::decode(0x2442_0001).text(), "v0 = addiu v0, 1");
    assert_eq!(Instruction::decode(0xAFBF_0010).text(), "sw ra, 0x10(sp)");
    assert_eq!(Instruction::J(0).text(), "j 0x0");
    assert_eq!(Instruction::Sll(Register::Zero, Register::Zero, 0).text(), "zero = sll zero, 0");
    let f = |n: u32| pups2::emotion_engine::cpu::fpu::Register::from(n);
    assert_eq!(Instruction::Muls(f(1), f(2), f(31)).text(), "f1 = mul.s f2, f31");
    assert_eq!(Instruction::Mfc0(Register::T0, ControlRegister::Status).text(), "t0 = mfc0 Status");
    assert_eq!(Instruction::Unknown.text(), "unknown");
    assert_eq!(Instruction::Sll(Register::T0, Register::T1, 31).text(), "t0 = sll t1, 31");
    assert_eq!(Instruction::Addiu(Register::T0, Register::T1, 65535).text(), "t0 = addiu t1, 65535");
    assert_eq!(Instruction::J(0x3FF_FFFF).text(), "j 0x3ffffff");
    assert_eq!(Instruction::Lui(Register::T0, 0xAB0).text(), "t0 = lui 0xab0");
}
