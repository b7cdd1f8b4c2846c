use vstd::prelude::*;

use crate::bits::{bits_u32, set_bit_u32, set_bits_u32, Bits};

verus! {

/// A register of coprocessor 0, the system control coprocessor.
#[derive(Debug, PartialEq, Eq, Structural, Copy, Clone)]
pub enum Register {
    Index,
    Random,
    EntryLo0,
    EntryLo1,
    Context,
    PageMask,
    Wired,
    Undefined7,
    BadVAddr,
    Count,
    EntryHi,
    Compare,
    Status,
    Cause,
    Epc,
    PrId,
    Config,
    Undefined17,
    Undefined18,
    Undefined19,
    Undefined20,
    Undefined21,
    Undefined22,
    BadPAddr,
    Undefined24,
    Undefined25,
    Undefined26,
    Undefined27,
    TagLo,
    TagHi,
    ErrorEpc,
    Undefined31,
}

impl Register {
    /// The register's number in `MFC0`/`MTC0` encodings.
    pub open spec fn index(self) -> u32 {
        match self {
            Register::Index => 0,
            Register::Random => 1,
            Register::EntryLo0 => 2,
            Register::EntryLo1 => 3,
            Register::Context => 4,
            Register::PageMask => 5,
            Register::Wired => 6,
            Register::Undefined7 => 7,
            Register::BadVAddr => 8,
            Register::Count => 9,
            Register::EntryHi => 10,
            Register::Compare => 11,
            Register::Status => 12,
            Register::Cause => 13,
            Register::Epc => 14,
            Register::PrId => 15,
            Register::Config => 16,
            Register::Undefined17 => 17,
            Register::Undefined18 => 18,
            Register::Undefined19 => 19,
            Register::Undefined20 => 20,
            Register::Undefined21 => 21,
            Register::Undefined22 => 22,
            Register::BadPAddr => 23,
            Register::Undefined24 => 24,
            Register::Undefined25 => 25,
            Register::Undefined26 => 26,
            Register::Undefined27 => 27,
            Register::TagLo => 28,
            Register::TagHi => 29,
            Register::ErrorEpc => 30,
            Register::Undefined31 => 31,
        }
    }

    /// The register with number `n`, for `n` below 32.
    pub open spec fn from_number(n: u32) -> Register {
        if n == 0 {
            Register::Index
        } else if n == 1 {
            Register::Random
        } else if n == 2 {
            Register::EntryLo0
        } else if n == 3 {
            Register::EntryLo1
        } else if n == 4 {
            Register::Context
        } else if n == 5 {
            Register::PageMask
        } else if n == 6 {
            Register::Wired
        } else if n == 7 {
            Register::Undefined7
        } else if n == 8 {
            Register::BadVAddr
        } else if n == 9 {
            Register::Count
        } else if n == 10 {
            Register::EntryHi
        } else if n == 11 {
            Register::Compare
        } else if n == 12 {
            Register::Status
        } else if n == 13 {
            Register::Cause
        } else if n == 14 {
            Register::Epc
        } else if n == 15 {
            Register::PrId
        } else if n == 16 {
            Register::Config
        } else if n == 17 {
            Register::Undefined17
        } else if n == 18 {
            Register::Undefined18
        } else if n == 19 {
            Register::Undefined19
        } else if n == 20 {
            Register::Undefined20
        } else if n == 21 {
            Register::Undefined21
        } else if n == 22 {
            Register::Undefined22
        } else if n == 23 {
            Register::BadPAddr
        } else if n == 24 {
            Register::Undefined24
        } else if n == 25 {
            Register::Undefined25
        } else if n == 26 {
            Register::Undefined26
        } else if n == 27 {
            Register::Undefined27
        } else if n == 28 {
            Register::TagLo
        } else if n == 29 {
            Register::TagHi
        } else if n == 30 {
            Register::ErrorEpc
        } else {
            Register::Undefined31
        }
    }

    /// The register's number.
    pub fn to_index(self) -> (r: usize)
        ensures
            r == self.index(),
    {
        match self {
            Register::Index => 0,
            Register::Random => 1,
            Register::EntryLo0 => 2,
            Register::EntryLo1 => 3,
            Register::Context => 4,
            Register::PageMask => 5,
            Register::Wired => 6,
            Register::Undefined7 => 7,
            Register::BadVAddr => 8,
            Register::Count => 9,
            Register::EntryHi => 10,
            Register::Compare => 11,
            Register::Status => 12,
            Register::Cause => 13,
            Register::Epc => 14,
            Register::PrId => 15,
            Register::Config => 16,
            Register::Undefined17 => 17,
            Register::Undefined18 => 18,
            Register::Undefined19 => 19,
            Register::Undefined20 => 20,
            Register::Undefined21 => 21,
            Register::Undefined22 => 22,
            Register::BadPAddr => 23,
            Register::Undefined24 => 24,
            Register::Undefined25 => 25,
            Register::Undefined26 => 26,
            Register::Undefined27 => 27,
            Register::TagLo => 28,
            Register::TagHi => 29,
            Register::ErrorEpc => 30,
            Register::Undefined31 => 31,
        }
    }

    /// The register's name.
    pub open spec fn spec_name(self) -> Seq<char> {
        match self {
            Register::Index => "Index"@,
            Register::Random => "Random"@,
            Register::EntryLo0 => "EntryLo0"@,
            Register::EntryLo1 => "EntryLo1"@,
            Register::Context => "Context"@,
            Register::PageMask => "PageMask"@,
            Register::Wired => "Wired"@,
            Register::Undefined7 => "Undefined7"@,
            Register::BadVAddr => "BadVAddr"@,
            Register::Count => "Count"@,
            Register::EntryHi => "EntryHi"@,
            Register::Compare => "Compare"@,
            Register::Status => "Status"@,
            Register::Cause => "Cause"@,
            Register::Epc => "Epc"@,
            Register::PrId => "PrId"@,
            Register::Config => "Config"@,
            Register::Undefined17 => "Undefined17"@,
            Register::Undefined18 => "Undefined18"@,
            Register::Undefined19 => "Undefined19"@,
            Register::Undefined20 => "Undefined20"@,
            Register::Undefined21 => "Undefined21"@,
            Register::Undefined22 => "Undefined22"@,
            Register::BadPAddr => "BadPAddr"@,
            Register::Undefined24 => "Undefined24"@,
            Register::Undefined25 => "Undefined25"@,
            Register::Undefined26 => "Undefined26"@,
            Register::Undefined27 => "Undefined27"@,
            Register::TagLo => "TagLo"@,
            Register::TagHi => "TagHi"@,
            Register::ErrorEpc => "ErrorEpc"@,
            Register::Undefined31 => "Undefined31"@,
        }
    }

    /// The register's name.
    pub fn name(self) -> (r: &'static str)
        ensures
            r@ == self.spec_name(),
    {
        match self {
            Register::Index => "Index",
            Register::Random => "Random",
            Register::EntryLo0 => "EntryLo0",
            Register::EntryLo1 => "EntryLo1",
            Register::Context => "Context",
            Register::PageMask => "PageMask",
            Register::Wired => "Wired",
            Register::Undefined7 => "Undefined7",
            Register::BadVAddr => "BadVAddr",
            Register::Count => "Count",
            Register::EntryHi => "EntryHi",
            Register::Compare => "Compare",
            Register::Status => "Status",
            Register::Cause => "Cause",
            Register::Epc => "Epc",
            Register::PrId => "PrId",
            Register::Config => "Config",
            Register::Undefined17 => "Undefined17",
            Register::Undefined18 => "Undefined18",
            Register::Undefined19 => "Undefined19",
            Register::Undefined20 => "Undefined20",
            Register::Undefined21 => "Undefined21",
            Register::Undefined22 => "Undefined22",
            Register::BadPAddr => "BadPAddr",
            Register::Undefined24 => "Undefined24",
            Register::Undefined25 => "Undefined25",
            Register::Undefined26 => "Undefined26",
            Register::Undefined27 => "Undefined27",
            Register::TagLo => "TagLo",
            Register::TagHi => "TagHi",
            Register::ErrorEpc => "ErrorEpc",
            Register::Undefined31 => "Undefined31",
        }
    }
}

impl From<u32> for Register {
    /// The register named by the low five bits of `value`.
    fn from(value: u32) -> (r: Register) {
        match value & 0b11111 {
            0 => Register::Index,
            1 => Register::Random,
            2 => Register::EntryLo0,
            3 => Register::EntryLo1,
            4 => Register::Context,
            5 => Register::PageMask,
            6 => Register::Wired,
            7 => Register::Undefined7,
            8 => Register::BadVAddr,
            9 => Register::Count,
            10 => Register::EntryHi,
            11 => Register::Compare,
            12 => Register::Status,
            13 => Register::Cause,
            14 => Register::Epc,
            15 => Register::PrId,
            16 => Register::Config,
            17 => Register::Undefined17,
            18 => Register::Undefined18,
            19 => Register::Undefined19,
            20 => Register::Undefined20,
            21 => Register::Undefined21,
            22 => Register::Undefined22,
            23 => Register::BadPAddr,
            24 => Register::Undefined24,
            25 => Register::Undefined25,
            26 => Register::Undefined26,
            27 => Register::Undefined27,
            28 => Register::TagLo,
            29 => Register::TagHi,
            30 => Register::ErrorEpc,
            _ => Register::Undefined31,
        }
    }
}

impl vstd::std_specs::convert::FromSpecImpl<u32> for Register {
    open spec fn obeys_from_spec() -> bool {
        true
    }

    open spec fn from_spec(v: u32) -> Register {
        Register::from_number(v & 0b11111)
    }
}

/// A coprocessor 0 register by its architectural name; the numbers with no named register
/// (7, 17 to 22, 24 to 27 and 31) all read as `Undefined`.
#[derive(Debug, PartialEq, Eq, Structural, Copy, Clone)]
pub enum Cop0Register {
    Index,
    Random,
    EntryLo0,
    EntryLo1,
    Context,
    PageMask,
    Wired,
    BadVAddr,
    Count,
    EntryHi,
    Compare,
    Status,
    Cause,
    Epc,
    PrId,
    Config,
    BadPAddr,
    TagLo,
    TagHi,
    ErrorEpc,
    Undefined,
}

impl Cop0Register {
    /// The register named by `n` (below 32).
    pub open spec fn from_number(n: u32) -> Cop0Register {
        if n == 0 {
            Cop0Register::Index
        } else if n == 1 {
            Cop0Register::Random
        } else if n == 2 {
            Cop0Register::EntryLo0
        } else if n == 3 {
            Cop0Register::EntryLo1
        } else if n == 4 {
            Cop0Register::Context
        } else if n == 5 {
            Cop0Register::PageMask
        } else if n == 6 {
            Cop0Register::Wired
        } else if n == 8 {
            Cop0Register::BadVAddr
        } else if n == 9 {
            Cop0Register::Count
        } else if n == 10 {
            Cop0Register::EntryHi
        } else if n == 11 {
            Cop0Register::Compare
        } else if n == 12 {
            Cop0Register::Status
        } else if n == 13 {
            Cop0Register::Cause
        } else if n == 14 {
            Cop0Register::Epc
        } else if n == 15 {
            Cop0Register::PrId
        } else if n == 16 {
            Cop0Register::Config
        } else if n == 23 {
            Cop0Register::BadPAddr
        } else if n == 28 {
            Cop0Register::TagLo
        } else if n == 29 {
            Cop0Register::TagHi
        } else if n == 30 {
            Cop0Register::ErrorEpc
        } else {
            Cop0Register::Undefined
        }
    }
}

impl From<u32> for Cop0Register {
    /// The register named by the low five bits of `value`.
    fn from(value: u32) -> (r: Cop0Register) {
        match value & 0b11111 {
            0 => Cop0Register::Index,
            1 => Cop0Register::Random,
            2 => Cop0Register::EntryLo0,
            3 => Cop0Register::EntryLo1,
            4 => Cop0Register::Context,
            5 => Cop0Register::PageMask,
            6 => Cop0Register::Wired,
            8 => Cop0Register::BadVAddr,
            9 => Cop0Register::Count,
            10 => Cop0Register::EntryHi,
            11 => Cop0Register::Compare,
            12 => Cop0Register::Status,
            13 => Cop0Register::Cause,
            14 => Cop0Register::Epc,
            15 => Cop0Register::PrId,
            16 => Cop0Register::Config,
            23 => Cop0Register::BadPAddr,
            28 => Cop0Register::TagLo,
            29 => Cop0Register::TagHi,
            30 => Cop0Register::ErrorEpc,
            _ => Cop0Register::Undefined,
        }
    }
}

impl vstd::std_specs::convert::FromSpecImpl<u32> for Cop0Register {
    open spec fn obeys_from_spec() -> bool {
        true
    }

    open spec fn from_spec(v: u32) -> Cop0Register {
        Cop0Register::from_number(v & 0b11111)
    }
}

/// Every number below 32 names the register with that number.
pub proof fn lemma_from_number_index(n: u32)
    requires
        n < 32,
    ensures
        Register::from_number(n).index() == n,
{
}

/// Coprocessor 0: the system control registers.
#[derive(Debug)]
pub struct Control {
    registers: [u32; 32],
}

/// Registers whose value `Control::get_register` can read.
pub open spec fn readable(register: Register) -> bool {
    match register {
        Register::Index | Register::EntryLo0 | Register::EntryLo1 | Register::PageMask
        | Register::Count | Register::EntryHi | Register::PrId => true,
        _ => false,
    }
}

/// Registers that `Control::set_register` can write.
pub open spec fn writable(register: Register) -> bool {
    match register {
        Register::Index | Register::EntryLo0 | Register::EntryLo1 | Register::PageMask
        | Register::Wired | Register::Count | Register::EntryHi | Register::Compare
        | Register::Status | Register::Config => true,
        _ => false,
    }
}

/// The value a register holds after `value` is written to it when it held `current`: bits that
/// are fixed at zero in hardware stay zero, and read-only fields keep their value.
pub open spec fn written_value(register: Register, current: u32, value: u32) -> u32 {
    match register {
        Register::Index => set_bits_u32(value, 6, 31, 0),
        Register::EntryLo0 => set_bits_u32(value, 26, 31, 0),
        Register::EntryLo1 => set_bits_u32(value, 26, 32, 0),
        Register::PageMask => set_bits_u32(current, 13, 25, bits_u32(value, 13, 25)),
        Register::Wired => set_bits_u32(current, 0, 6, bits_u32(value, 0, 6)),
        Register::EntryHi => set_bits_u32(value, 8, 13, 0),
        Register::Status => set_bits_u32(
            set_bits_u32(set_bits_u32(value, 5, 10, 0), 19, 22, 0),
            24,
            28,
            0,
        ),
        Register::Config => set_bit_u32(
            set_bits_u32(set_bits_u32(set_bits_u32(value, 3, 6, 0), 14, 16, 0), 19, 28, 0),
            31,
            false,
        ),
        _ => value,
    }
}

impl View for Control {
    type V = Seq<u32>;

    /// The register values, by register number.
    closed spec fn view(&self) -> Seq<u32> {
        self.registers@
    }
}

impl Control {
    pub fn new() -> (r: Control)
        ensures
            r@.len() == 32,
            forall|i: int|
                0 <= i < 32 ==> #[trigger] r@[i] == if i == Register::PrId.index() {
                    0x2E20u32
                } else if i == Register::Config.index() {
                    0x440
                } else {
                    0
                },
    {
        let mut registers = [0u32; 32];
        registers[15] = 0x2E20;
        registers[16] = 0x440;
        Control { registers }
    }

    /// Advances the `Count` register by `cycles`, wrapping around at 2^32.
    pub fn step(&mut self, cycles: u64)
        ensures
            final(self)@ == old(self)@.update(
                Register::Count.index() as int,
                ((old(self)@[Register::Count.index() as int] as int + cycles as int)
                    % 0x1_0000_0000) as u32,
            ),
    {
        let count = self.registers[9];
        let low = cycles as u32;
        assert(low == cycles % 0x1_0000_0000) by (bit_vector)
            requires
                low == cycles as u32,
        ;
        let sum = count.wrapping_add(low);
        assert(sum == (count as int + cycles as int) % 0x1_0000_0000) by (nonlinear_arith)
            requires
                low == cycles % 0x1_0000_0000,
                sum == if count + low > u32::MAX {
                    count + low - 0x1_0000_0000
                } else {
                    count + low
                },
        ;
        self.registers[9] = sum;
    }

    pub fn get_register(&self, register: Register) -> (r: u32)
        requires
            readable(register),
        ensures
            r == self@[register.index() as int],
    {
        self.registers[register.to_index()]
    }

    pub fn set_register(&mut self, register: Register, value: u32)
        requires
            writable(register),
        ensures
            final(self)@ == old(self)@.update(
                register.index() as int,
                written_value(register, old(self)@[register.index() as int], value),
            ),
    {
        let index = register.to_index();
        let mut register_value = self.registers[index];
        match register {
            Register::Index => {
                register_value = value;
                register_value.set_bits(6, 31, 0u32);
            },
            Register::EntryLo0 => {
                register_value = value;
                register_value.set_bits(26, 31, 0u32);
            },
            Register::EntryLo1 => {
                register_value = value;
                register_value.set_bits(26, 32, 0u32);
            },
            Register::PageMask => register_value.set_bits(13, 25, value.bits(13, 25)),
            Register::Wired => register_value.set_bits(0, 6, value.bits(0, 6)),
            Register::Count => register_value = value,
            Register::EntryHi => {
                register_value = value;
                register_value.set_bits(8, 13, 0u32);
            },
            Register::Compare => register_value = value,
            Register::Status => {
                register_value = value;
                register_value.set_bits(5, 10, 0u32);
                register_value.set_bits(19, 22, 0u32);
                register_value.set_bits(24, 28, 0u32);
            },
            _ => {
                register_value = value;
                register_value.set_bits(3, 6, 0u32);
                register_value.set_bits(14, 16, 0u32);
                register_value.set_bits(19, 28, 0u32);
                register_value.set_bit(31, false);
            },
        }
        self.registers[index] = register_value;
    }
}

/// The register named by a register's own number is that register.
pub broadcast proof fn lemma_number_roundtrip(r: Register)
    ensures
        #[trigger] Register::from_number(r.index()) == r,
{
}

/// Whether `Control::get_register` can read `register`.
pub fn can_read(register: Register) -> (r: bool)
    ensures
        r == readable(register),
{
    match register {
        Register::Index | Register::EntryLo0 | Register::EntryLo1 | Register::PageMask
        | Register::Count | Register::EntryHi | Register::PrId => true,
        _ => false,
    }
}

/// Whether `Control::set_register` can write `register`.
pub fn can_write(register: Register) -> (r: bool)
    ensures
        r == writable(register),
{
    match register {
        Register::Index | Register::EntryLo0 | Register::EntryLo1 | Register::PageMask
        | Register::Wired | Register::Count | Register::EntryHi | Register::Compare
        | Register::Status | Register::Config => true,
        _ => false,
    }
}

} // verus!
