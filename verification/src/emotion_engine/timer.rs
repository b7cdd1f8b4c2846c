use vstd::prelude::*;

use crate::bits::{bit_u16, bits_u16, set_bit_u16, Bits};
use crate::bytes::Bytes;

verus! {

/// The mode register (Tn_MODE) of a timer.
#[derive(Debug, PartialEq, Eq, Structural, Clone, Copy)]
pub struct Mode(pub u16);

/// The clock that a timer counts (CLKS).
#[derive(Debug, PartialEq, Eq, Structural, Clone, Copy)]
pub enum ClockSelection {
    BusClock,
    BusClockDiv16,
    BusClockDiv256,
    HBlank,
}

/// The signal that gates a timer (GATS).
#[derive(Debug, PartialEq, Eq, Structural, Clone, Copy)]
pub enum GateSelection {
    HBlank,
    VBlank,
}

/// How the gating signal controls a timer (GATM).
#[derive(Debug, PartialEq, Eq, Structural, Clone, Copy)]
pub enum GateMode {
    SignalLow,
    ResetOnRisingEdge,
    ResetOnFallingEdge,
    ResetOnBothEdges,
}

impl ClockSelection {
    /// The clock selected by the two-bit field value `bits`.
    pub open spec fn from_field(bits: u16) -> ClockSelection {
        if bits == 0 {
            ClockSelection::BusClock
        } else if bits == 1 {
            ClockSelection::BusClockDiv16
        } else if bits == 2 {
            ClockSelection::BusClockDiv256
        } else {
            ClockSelection::HBlank
        }
    }
}

impl GateMode {
    /// The gating mode selected by the two-bit field value `bits`.
    pub open spec fn from_field(bits: u16) -> GateMode {
        if bits == 0 {
            GateMode::SignalLow
        } else if bits == 1 {
            GateMode::ResetOnRisingEdge
        } else if bits == 2 {
            GateMode::ResetOnFallingEdge
        } else {
            GateMode::ResetOnBothEdges
        }
    }
}

/// Two-bit and one-bit fields are below 4 and 2.
proof fn lemma_mode_fields(x: u16)
    by (bit_vector)
    ensures
        bits_u16(x, 0, 2) < 4,
        bits_u16(x, 3, 4) < 2,
        bits_u16(x, 4, 6) < 4,
{
}

impl Mode {
    /// CLKS (bits 0..2): the counted clock.
    pub fn selection(self) -> (r: ClockSelection)
        ensures
            r == ClockSelection::from_field(bits_u16(self.0, 0, 2)),
    {
        proof {
            lemma_mode_fields(self.0);
        }
        match self.0.bits(0, 2) {
            0 => ClockSelection::BusClock,
            1 => ClockSelection::BusClockDiv16,
            2 => ClockSelection::BusClockDiv256,
            _ => ClockSelection::HBlank,
        }
    }

    /// GATE (bit 2): gating is enabled.
    pub fn gate(self) -> (r: bool)
        ensures
            r == bit_u16(self.0, 2),
    {
        self.0.bit(2)
    }

    /// GATS (bit 3): the gating signal.
    pub fn gate_selection(self) -> (r: GateSelection)
        ensures
            r == (if bits_u16(self.0, 3, 4) == 0 {
                GateSelection::HBlank
            } else {
                GateSelection::VBlank
            }),
    {
        if self.0.bits(3, 4) == 0 {
            GateSelection::HBlank
        } else {
            GateSelection::VBlank
        }
    }

    /// GATM (bits 4..6): the gating mode.
    pub fn gate_mode(self) -> (r: GateMode)
        ensures
            r == GateMode::from_field(bits_u16(self.0, 4, 6)),
    {
        proof {
            lemma_mode_fields(self.0);
        }
        match self.0.bits(4, 6) {
            0 => GateMode::SignalLow,
            1 => GateMode::ResetOnRisingEdge,
            2 => GateMode::ResetOnFallingEdge,
            _ => GateMode::ResetOnBothEdges,
        }
    }

    /// ZRET (bit 6): the counter is cleared when it reaches the compare value.
    pub fn zero_return(self) -> (r: bool)
        ensures
            r == bit_u16(self.0, 6),
    {
        self.0.bit(6)
    }

    /// CUE (bit 7): the counter counts.
    pub fn count_up_enable(self) -> (r: bool)
        ensures
            r == bit_u16(self.0, 7),
    {
        self.0.bit(7)
    }

    /// CMPE (bit 8): an interrupt is raised when the counter reaches the compare value.
    pub fn compare_interrupt_enable(self) -> (r: bool)
        ensures
            r == bit_u16(self.0, 8),
    {
        self.0.bit(8)
    }

    /// OVFE (bit 9): an interrupt is raised when the counter overflows.
    pub fn overflow_interrupt_enable(self) -> (r: bool)
        ensures
            r == bit_u16(self.0, 9),
    {
        self.0.bit(9)
    }

    /// EQUF (bit 10): the counter has reached the compare value.
    pub fn equal_flag(self) -> (r: bool)
        ensures
            r == bit_u16(self.0, 10),
    {
        self.0.bit(10)
    }

    pub fn set_equal_flag(&mut self, value: bool)
        ensures
            final(self).0 == set_bit_u16(old(self).0, 10, value),
    {
        self.0.set_bit(10, value);
    }

    /// OVFF (bit 11): the counter has overflowed.
    pub fn overflow_flag(self) -> (r: bool)
        ensures
            r == bit_u16(self.0, 11),
    {
        self.0.bit(11)
    }

    pub fn set_overflow_flag(&mut self, value: bool)
        ensures
            final(self).0 == set_bit_u16(old(self).0, 11, value),
    {
        self.0.set_bit(11, value);
    }
}

/// The registers of one timer, and the bus cycle at which its count started.
#[derive(Debug, Clone, Copy)]
pub struct TimerRegisters {
    pub mode: Mode,
    pub compare: u16,
    pub hold: u16,
    pub start: u64,
}

impl TimerRegisters {
    pub fn new() -> (r: TimerRegisters)
        ensures
            r == (TimerRegisters { mode: Mode(0), compare: 0, hold: 0, start: 0 }),
    {
        TimerRegisters { mode: Mode(0), compare: 0, hold: 0, start: 0 }
    }
}

/// The four timers of the Emotion Engine and the bus clock they count.
pub struct Timer {
    timers: [TimerRegisters; 4],
    bus_clock: u64,
}

/// The timer that `address` belongs to, for an address of the timer block.
pub open spec fn timer_of(address: u32) -> int {
    (address as int - 0x1000_0000) / 0x800
}

/// Whether `address` lies in the timer block.
pub open spec fn is_timer_address(address: u32) -> bool {
    0x1000_0000 <= address < 0x1000_2000
}

/// Whether a 16-bit read of `address` selects a register: the count, mode or compare value of
/// any timer, or the hold value of timers 0 and 1.
pub open spec fn is_readable_timer_register(address: u32) -> bool {
    &&& is_timer_address(address)
    &&& {
        let offset = address % 0x100;
        offset == 0x00 || offset == 0x10 || offset == 0x20 || (offset == 0x30 && timer_of(address)
            < 2)
    }
}

/// Whether a 16-bit write of `address` selects a register that can be written: the mode of
/// any timer.
pub open spec fn is_writable_timer_register(address: u32) -> bool {
    is_timer_address(address) && address % 0x100 == 0x10
}

/// The mode register as written: the two flags are cleared.
pub open spec fn written_mode(value: u16) -> u16 {
    set_bit_u16(set_bit_u16(value, 10, false), 11, false)
}

impl Timer {
    /// `new` is `old` after a 16-bit write of `value` to the mode register at `address`.
    pub open spec fn written(old: Timer, new: Timer, address: u32, value: u16) -> bool {
        &&& new.clock() == old.clock()
        &&& old.wf() ==> new.wf()
        &&& forall|i: int|
            0 <= i < 4 ==> #[trigger] new.registers(i) == if i == timer_of(address) {
                TimerRegisters { mode: Mode(written_mode(value)), ..old.registers(i) }
            } else {
                old.registers(i)
            }
    }

    /// The registers of timer `i`.
    pub closed spec fn registers(self, i: int) -> TimerRegisters {
        self.timers[i]
    }

    /// The number of bus cycles since reset.
    pub closed spec fn clock(self) -> u64 {
        self.bus_clock
    }

    /// No timer started after the current bus cycle.
    pub closed spec fn wf(self) -> bool {
        forall|i: int| 0 <= i < 4 ==> #[trigger] self.timers[i].start <= self.bus_clock
    }

    /// The value that a 16-bit read of `address` gives.
    pub open spec fn spec_read16(self, address: u32) -> u16 {
        let registers = self.registers(timer_of(address));
        let offset = address % 0x100;
        if offset == 0x00 {
            (self.clock() - registers.start) as u16
        } else if offset == 0x10 {
            registers.mode.0
        } else if offset == 0x20 {
            registers.compare
        } else {
            registers.hold
        }
    }

    /// All registers zero, at bus cycle 0.
    pub fn new() -> (r: Timer)
        ensures
            r.wf(),
            r.clock() == 0,
            forall|i: int|
                0 <= i < 4 ==> #[trigger] r.registers(i) == (TimerRegisters {
                    mode: Mode(0),
                    compare: 0,
                    hold: 0,
                    start: 0,
                }),
    {
        Timer {
            timers: [
                TimerRegisters::new(),
                TimerRegisters::new(),
                TimerRegisters::new(),
                TimerRegisters::new(),
            ],
            bus_clock: 0,
        }
    }

    fn timer_index(address: u32) -> (r: usize)
        requires
            is_timer_address(address),
        ensures
            r == timer_of(address),
            r < 4,
    {
        if address < 0x1000_0800 {
            0
        } else if address < 0x1000_1000 {
            1
        } else if address < 0x1000_1800 {
            2
        } else {
            3
        }
    }

    /// Writes the mode register of the timer that `address` selects, with its two flags
    /// cleared.
    pub fn write16(&mut self, address: u32, value: u16)
        requires
            is_writable_timer_register(address),
        ensures
            Timer::written(*old(self), *final(self), address, value),
    {
        proof {
            value.lemma_bytes_roundtrip(Seq::empty());
        }
        let decoded = u16::from_bytes(value.to_bytes().as_slice());
        let timer = Self::timer_index(address);
        let mut mode = Mode(decoded);
        mode.set_equal_flag(false);
        mode.set_overflow_flag(false);
        let mut registers = self.timers[timer];
        registers.mode = mode;
        self.timers[timer] = registers;
        assert forall|i: int| 0 <= i < 4 implies #[trigger] self.timers[i].start == old(
            self,
        ).timers[i].start by {}
    }

    /// Reads the count, mode, compare or hold register that `address` selects.
    pub fn read16(&self, address: u32) -> (r: u16)
        requires
            self.wf(),
            is_readable_timer_register(address),
        ensures
            r == self.spec_read16(address),
    {
        let timer = Self::timer_index(address);
        let offset = address & 0xFF;
        assert(offset == address % 0x100) by (bit_vector)
            requires
                offset == address & 0xFF,
        ;
        if offset == 0x00 {
            (self.bus_clock - self.timers[timer].start) as u16
        } else if offset == 0x10 {
            self.timers[timer].mode.0
        } else if offset == 0x20 {
            self.timers[timer].compare
        } else {
            self.timers[timer].hold
        }
    }

    /// A word write: the low half of the word goes to the register, which must be a mode
    /// register.
    pub fn write<T: Bytes>(&mut self, address: u32, value: T)
        requires
            T::byte_count() == 4,
            is_writable_timer_register(address),
        ensures
            Timer::written(
                *old(self),
                *final(self),
                address,
                u32::decode_bytes(value.encode_bytes()) as u16,
            ),
    {
        let bytes = value.to_bytes();
        let word = u32::from_bytes(bytes.as_slice());
        self.write16(address, word as u16);
    }

    /// A word read: the register, zero-extended.
    pub fn read<T: Bytes>(&self, address: u32) -> (r: T)
        requires
            T::byte_count() == 4,
            self.wf(),
            is_readable_timer_register(address),
        ensures
            r == T::decode_bytes((self.spec_read16(address) as u32).encode_bytes()),
    {
        let value = self.read16(address) as u32;
        let bytes = value.to_bytes();
        proof {
            value.lemma_bytes_roundtrip(Seq::empty());
        }
        T::from_bytes(bytes.as_slice())
    }

    /// Advances the bus clock by one cycle.
    pub fn step(&mut self)
        requires
            old(self).clock() < u64::MAX,
        ensures
            final(self).clock() == old(self).clock() + 1,
            old(self).wf() ==> final(self).wf(),
            forall|i: int| 0 <= i < 4 ==> #[trigger] final(self).registers(i) == old(self).registers(i),
    {
        self.bus_clock += 1;
    }
}

/// Whether a 16-bit read of `address` selects a timer register.
pub fn readable_timer_register(address: u32) -> (r: bool)
    ensures
        r == is_readable_timer_register(address),
{
    if address < 0x1000_0000 || address >= 0x1000_2000 {
        return false;
    }
    let offset = address % 0x100;
    offset == 0x00 || offset == 0x10 || offset == 0x20 || (offset == 0x30 && address < 0x1000_1000)
}

/// Whether a 16-bit write of `address` selects a timer register that can be written.
pub fn writable_timer_register(address: u32) -> (r: bool)
    ensures
        r == is_writable_timer_register(address),
{
    0x1000_0000 <= address && address < 0x1000_2000 && address % 0x100 == 0x10
}

/// Reading a mode register back after writing it gives the value written with its two flags
/// cleared.
pub proof fn law_mode_read_after_write(old: Timer, new: Timer, address: u32, value: u16)
    requires
        is_writable_timer_register(address),
        Timer::written(old, new, address, value),
    ensures
        new.spec_read16(address) == written_mode(value),
{
    assert(0 <= timer_of(address) < 4);
    assert(new.registers(timer_of(address)).mode.0 == written_mode(value));
}

} // verus!
