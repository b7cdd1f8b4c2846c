use pups2::emotion_engine::bus::{Bus, PhysicalAddress, PhysicalAddressView};
use pups2::emotion_engine::dmac::{Channel, Dmac, StatusRegister};
use pups2::emotion_engine::gif::{Gif, Register as GifRegister, Tag};
use pups2::emotion_engine::gs::registers::{Register as GsRegister, Uv};
use pups2::emotion_engine::gs::rendering::{Rect, Rgba};
use pups2::emotion_engine::gs::kick::Drawing;
use pups2::emotion_engine::gs::Gs;
use pups2::emotion_engine::memory::Memory;
use pups2::emotion_engine::rdram::Rdram;
use pups2::emotion_engine::scheduler::{
    Event, Scheduler, CYCLES_PER_FRAME, GS_VBLANK_DELAY, VBLANK_START_CYCLE,
};
use pups2::emotion_engine::timer::Timer;

#[test]
fn bus_write_then_read_gives_the_value_back() {
    let mut bus = Bus::new();
    bus.write::<u64>(0x100, 0x0123_4567_89AB_CDEF);
    assert_eq!(bus.read::<u64>(0x100), 0x0123_4567_89AB_CDEF);
    assert_eq!(bus.read::<u32>(0x104), 0x0123_4567);
    assert_eq!(bus.read::<u8>(0x100), 0xEF);
    // Main memory repeats every 32 MiB.
    assert_eq!(bus.read::<u32>(0x200_0100), 0x89AB_CDEF);
}

#[test]
fn scratchpad_is_separate_from_memory() {
    let mut bus = Bus::new();
    bus.write_scratchpad::<u32>(0x10, 0xDEAD_BEEF);
    assert_eq!(bus.read_scratchpad::<u32>(0x10), 0xDEAD_BEEF);
    assert_eq!(bus.read::<u32>(0x10), 0);
    let address = PhysicalAddress::scratchpad(0x10);
    assert_eq!(address.view(), PhysicalAddressView::Scratchpad(0x10));
    assert_eq!(bus.read_memory_or_scratchpad::<u32>(address), 0xDEAD_BEEF);
    bus.write_memory_or_scratchpad::<u32>(PhysicalAddress::memory(0x20), 7);
    assert_eq!(bus.read::<u32>(0x20), 7);
}

#[test]
fn physical_address_view_roundtrip() {
    let address = PhysicalAddress::memory(0x1234);
    assert_eq!(address.view(), PhysicalAddressView::Memory(0x1234));
    assert_eq!(PhysicalAddress::from(address.view()), address);
    let scratch = PhysicalAddress(0x8000_0040);
    assert_eq!(PhysicalAddress::from(scratch.view()), scratch);
}

#[test]
fn memory_reads_words_through_its_windows() {
    let mut memory = Memory::new();
    memory.main[0x10] = 0x78;
    memory.main[0x11] = 0x56;
    memory.main[0x12] = 0x34;
    memory.main[0x13] = 0x12;
    assert_eq!(memory.read32(0x10), Some(0x1234_5678));
    // Main memory reads repeat every 2 MiB.
    assert_eq!(memory.read32(0x20_0010), Some(0x1234_5678));
    memory.boot[0] = 0xAA;
    assert_eq!(memory.read32(0x1FC0_0000), Some(0xAA));
    assert_eq!(memory.read32(0x1FC4_0000), Some(0xAA));
    assert_eq!(memory.read32(0x1000_0000), None);
    assert_eq!(memory.read32(0x2000_0000), None);
}

#[test]
fn timer_mode_write_clears_the_flags() {
    let mut timer = Timer::new();
    timer.write16(0x1000_0810, 0xFFFF);
    assert_eq!(timer.read16(0x1000_0810), 0xF3FF);
    assert_eq!(timer.read16(0x1000_0010), 0);
    timer.step();
    timer.step();
    assert_eq!(timer.read16(0x1000_0000), 2);
    assert_eq!(timer.read::<u32>(0x1000_0800), 2);
}

#[test]
fn scheduler_runs_until_the_next_event() {
    let mut scheduler = Scheduler::new();
    assert_eq!(scheduler.next_event(), Event::Run(32));
    scheduler.tick(VBLANK_START_CYCLE - 5);
    assert_eq!(scheduler.next_event(), Event::Run(5));
    scheduler.tick(5);
    assert_eq!(scheduler.next_event(), Event::VBlankStart);
    assert_eq!(scheduler.next_event(), Event::Run(32));
    scheduler.tick(GS_VBLANK_DELAY);
    assert_eq!(scheduler.next_event(), Event::GsVBlank);
    scheduler.tick(CYCLES_PER_FRAME - VBLANK_START_CYCLE - GS_VBLANK_DELAY);
    assert_eq!(scheduler.next_event(), Event::VBlankEnd);
    // The start of blanking comes back one frame later.
    scheduler.tick(VBLANK_START_CYCLE);
    assert_eq!(scheduler.next_event(), Event::VBlankStart);
}

#[test]
fn scheduler_keeps_the_three_blanking_events() {
    let mut scheduler = Scheduler::new();
    assert_eq!(scheduler.pending.len(), 3);
    scheduler.tick(CYCLES_PER_FRAME);
    assert_eq!(scheduler.next_event(), Event::VBlankStart);
    assert_eq!(scheduler.next_event(), Event::GsVBlank);
    assert_eq!(scheduler.next_event(), Event::VBlankEnd);
    assert_eq!(scheduler.pending.len(), 3);
    for event in &scheduler.pending {
        assert_eq!(event.period, Some(CYCLES_PER_FRAME));
        assert!(event.cycle > scheduler.cycle);
        assert!(event.cycle <= scheduler.cycle + CYCLES_PER_FRAME);
    }
    assert_eq!(scheduler.next_event(), Event::Run(32));
}

#[test]
fn rdram_counts_devices() {
    let mut rdram = Rdram::new();
    rdram.write32(0x1000_F430, 0x21 << 16);
    assert_eq!(rdram.read32(0x1000_F440), 0x1F);
    assert_eq!(rdram.read32(0x1000_F440), 0x1F);
    assert_eq!(rdram.read32(0x1000_F440), 0);
    // A broadcast with SBC 1 restarts the numbering.
    rdram.write32(0x1000_F430, (0x21 << 16) | (1 << 6));
    rdram.write32(0x1000_F430, 0x21 << 16);
    assert_eq!(rdram.read32(0x1000_F440), 0x1F);
    rdram.write32(0x1000_F430, 0x23 << 16);
    assert_eq!(rdram.read32(0x1000_F440), 0x0D0D);
    rdram.write32(0x1000_F430, (0x40 << 16) | 0x15);
    assert_eq!(rdram.read32(0x1000_F440), 0x15);
    assert_eq!(rdram.read32(0x1000_F430), 0);
}

#[test]
fn dmac_status_write_clears_and_toggles() {
    let mut status = StatusRegister { raw: 0x0000_0005 };
    status.write(StatusRegister { raw: 0x0001_0001 });
    assert_eq!(status.raw, 0x0001_0004);
    assert!(status.interrupt_status(Channel::Gif));
    assert!(!status.interrupt_status(Channel::Vif0));
    assert!(!status.interrupt_status(Channel::Vif1));
    assert!(status.interrupt_mask(Channel::Vif0));
}

#[test]
fn dmac_registers_read_back() {
    let mut dmac = Dmac::new();
    dmac.write32(0x1000_A010, 0x0010_0000);
    assert_eq!(dmac.read32(0x1000_A010), 0x0010_0000);
    dmac.write32(0x1000_E010, 0x0004_0000);
    assert_eq!(dmac.read32(0x1000_E010), 0x0004_0000);
    dmac.write32(0x1000_E010, 0x0004_0000);
    assert_eq!(dmac.read32(0x1000_E010), 0);
}

#[test]
fn gif_tag_fields() {
    let raw: u128 = 3 | (1 << 15) | (1u128 << 60) | (0xEu128 << 64);
    let tag = Tag { raw };
    assert_eq!(tag.repeat_count(), 3);
    assert!(tag.end_of_packet());
    assert_eq!(tag.register_count(), 1);
    assert_eq!(tag.register(0), GifRegister::AddressData);
    assert_eq!(tag.registers(), vec![GifRegister::AddressData]);
}

#[test]
fn gif_unpacks_address_data_into_gs_writes() {
    let mut bus = Bus::new();
    let tag: u128 = 2 | (1 << 15) | (1u128 << 60) | (0xEu128 << 64);
    bus.gif.push_quadword(tag);
    bus.gif.push_quadword(0x1_0006);
    bus.gif.push_quadword((0x18u128 << 64) | 0x0000_0100_0000_0080);
    Gif::step(&mut bus);
    let commands: Vec<(GsRegister, u64)> = bus.gs.command_queue.iter().copied().collect();
    assert_eq!(
        commands,
        vec![(GsRegister::Primitive, 0x1_0006), (GsRegister::XyOffset1, 0x0000_0100_0000_0080)]
    );
    assert_eq!(bus.gs.next_command(), Some(false));
    assert_eq!(bus.gs.next_command(), Some(false));
    assert_eq!(bus.gs.next_command(), None);
    assert_eq!(bus.gs.registers.contextual[0].xy_offset.x.0, 0x80);
    assert_eq!(bus.gs.registers.contextual[0].xy_offset.y.0, 0x100);
}

#[test]
fn gs_pixel_offsets_follow_the_block_layout() {
    assert_eq!(Gs::psmct32_offset(0, 0, 640), 0);
    assert_eq!(Gs::psmct32_offset(1, 0, 640), 4);
    assert_eq!(Gs::psmct32_offset(2, 0, 640), 16);
    assert_eq!(Gs::psmct32_offset(0, 1, 640), 8);
    assert_eq!(Gs::psmct32_offset(7, 7, 640), 252);
    assert_eq!(Gs::psmct32_offset(8, 0, 640), 256);
    assert_eq!(Gs::psmct32_offset(0, 8, 640), 512);
    assert_eq!(Gs::psmct32_offset(64, 0, 640), 8192);
    assert_eq!(Gs::psmct32_offset(0, 32, 640), 81920);
}

#[test]
fn gs_pixel_write_then_read() {
    let mut gs = Gs::new();
    gs.write_psmct32(0x2000, 5, 9, 640, 0xCAFE_F00D);
    assert_eq!(gs.read_psmct32(0x2000, 5, 9, 640), 0xCAFE_F00D);
    assert_eq!(gs.read_psmct32(0x2000, 4, 9, 640), 0);
}

#[test]
fn gs_draws_an_opaque_pixel() {
    let mut gs = Gs::new();
    let color = Rgba { r: 0x11, g: 0x22, b: 0x33, a: 0x44 };
    gs.render_pixel(1, 0, 7, color, Uv::from_raw(0));
    assert_eq!(gs.read_psmct32(0, 1, 0, 0), 0x4433_2211);
}

#[test]
fn gs_privileged_registers_and_vblank() {
    let mut gs = Gs::new();
    gs.vblank();
    assert_eq!(gs.read_privileged64(0x1200_1000) & 8, 8);
    // Writing 1 to VSINT clears it.
    gs.write_privileged64(0x1200_1000, 8);
    assert_eq!(gs.read_privileged64(0x1200_1000) & 8, 0);
}

#[test]
fn rect_union_and_contains() {
    let a = Rect { x_start: 0u16, y_start: 0, x_end: 10, y_end: 10 };
    let b = Rect { x_start: 5u16, y_start: 20, x_end: 15, y_end: 30 };
    let u = a.union(&b);
    assert_eq!(u, Rect { x_start: 0, y_start: 0, x_end: 15, y_end: 30 });
    assert!(u.contains(9, 25));
    assert!(!a.contains(10, 0));
    assert_eq!(u.width(), 15);
    assert_eq!(u.height(), 30);
    assert_eq!(a.area(), 100);
    assert!(Rect { x_start: 3u16, y_start: 0, x_end: 3, y_end: 5 }.is_empty());
}

#[test]
fn rgba_from_word() {
    assert_eq!(Rgba::from(0x4433_2211u32), Rgba { r: 0x11, g: 0x22, b: 0x33, a: 0x44 });
}

#[test]
fn gs_frame_buffer_blends_the_first_circuit_with_the_background() {
    let mut gs = Gs::new();
    assert!(gs.frame_buffer().is_none());
    // PMODE: the first circuit on, alpha from the circuit.
    gs.write_privileged64(0x1200_0000, 1);
    // DISPFB1: base 0, 64 pixels wide, 32-bit pixels.
    gs.write_privileged64(0x1200_0070, 1 << 9);
    // DISPLAY1: two pixels wide, one high.
    gs.write_privileged64(0x1200_0080, 1 << 32);
    // BGCOLOR: red.
    gs.write_privileged64(0x1200_00E0, 0xFF);
    gs.write_psmct32(0, 0, 0, 64, 0xFF11_2233);
    let (width, bytes) = gs.frame_buffer().unwrap();
    assert_eq!(width, 2);
    assert_eq!(bytes, vec![16, 33, 50, 0, 0, 0, 254, 0]);
}

#[test]
fn gs_vertex_kicks_build_triangles() {
    let mut gs = Gs::new();
    assert!(!gs.write_register(GsRegister::Primitive, 3));
    for (i, x) in [0x10u64, 0x20, 0x30].iter().enumerate() {
        assert!(gs.write_register(GsRegister::Xyz2, *x));
        let drawing = gs.vertex_kick(true);
        if i < 2 {
            assert!(drawing.is_none());
        } else {
            match drawing {
                Some(Drawing::Triangle(a, b, c)) => {
                    assert_eq!(a.position.x.0, 0x10);
                    assert_eq!(b.position.x.0, 0x20);
                    assert_eq!(c.position.x.0, 0x30);
                }
                _ => panic!("expected a triangle"),
            }
        }
    }
    // A new primitive starts with no waiting vertices.
    assert!(!gs.write_register(GsRegister::Primitive, 6));
    assert!(gs.write_register(GsRegister::Xyz2, 0x40));
    assert!(gs.vertex_kick(true).is_none());
    assert!(gs.write_register(GsRegister::Xyz2, 0x50));
    assert!(matches!(gs.vertex_kick(true), Some(Drawing::Sprite(..))));
}

#[test]
fn bus_checks_device_accesses() {
    let bus = Bus::new();
    assert!(bus.can_read::<u32>(0x1000_0010));
    assert!(!bus.can_read::<u16>(0x1000_0010));
    assert!(!bus.can_read::<u32>(0x1000_0030 + 0x1000));
    assert!(bus.can_write::<u32>(0x1000_3000, 0));
    assert!(!bus.can_write::<u32>(0x1000_3020, 0));
    assert!(bus.can_read::<u64>(0x1200_1000));
    assert!(!bus.can_read::<u64>(0x1200_0000));
    assert!(bus.can_read::<u8>(0x1FC0_0001));
    assert!(!bus.can_read::<u32>(0x1FC0_0001));
    assert!(!bus.can_read::<u32>(0x3000_0000));
}

#[test]
fn gif_checks_its_packets() {
    let mut gif = Gif::new();
    assert!(gif.can_unpack());
    // A register-list tag is not handled.
    gif.push_quadword(1 | (1 << 58) | (1u128 << 60));
    gif.push_quadword(0);
    assert!(!gif.can_unpack());
    let mut gif = Gif::new();
    gif.push_quadword(1 | (1u128 << 60) | (0xEu128 << 64));
    gif.push_quadword(0x18u128 << 64);
    assert!(gif.can_unpack());
    assert_eq!(gif.room(), 14);
    // An address that names no GS register.
    let mut gif = Gif::new();
    gif.push_quadword(1 | (1u128 << 60) | (0xEu128 << 64));
    gif.push_quadword(0x7Fu128 << 64);
    assert!(!gif.can_unpack());
}

#[test]
fn dmac_step_is_supported_when_idle() {
    let bus = Bus::new();
    assert!(Dmac::step_supported(&bus));
    let mut bus = Bus::new();
    // Start the VIF0 channel, which is not handled.
    bus.dmac.write32(0x1000_8000, 1 << 8);
    assert!(!Dmac::step_supported(&bus));
}

#[test]
fn gs_checks_register_writes_and_pixels() {
    let gs = Gs::new();
    assert!(gs.supports_register_write(GsRegister::FrameBuffer1, 0));
    assert!(!gs.supports_register_write(GsRegister::FrameBuffer1, 0x3F << 24));
    assert!(!gs.supports_register_write(GsRegister::TransmissionData, 0));
    assert!(gs.supports_register_write(GsRegister::XyOffset1, 0));
    assert!(gs.supports_pixel(0, 0, Uv::from_raw(0)));
    assert!(!gs.supports_pixel(0xFFFF, 0, Uv::from_raw(0)));
    assert!(gs.supports_frame_buffer());
}

#[test]
fn dmac_scratchpad_address_keeps_fourteen_bits() {
    let mut dmac = Dmac::new();
    dmac.write32(0x1000_A080, 0xFFFF_FFFF);
    assert_eq!(dmac.read32(0x1000_A080), 0x3FFF);
    dmac.write32(0x1000_A020, 0x1234);
    assert_eq!(dmac.read32(0x1000_A020), 0x1234);
    dmac.write32(0x1000_E020, 7);
    assert_eq!(dmac.read32(0x1000_E020), 7);
}
