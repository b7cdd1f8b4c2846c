use vstd::prelude::*;

verus! {

/// A floating-point register of coprocessor 1 (`$f0`..`$f31`).
#[derive(Debug, PartialEq, Eq, Structural, Copy, Clone)]
pub struct Register {
    pub index: u8,
}

impl Register {
    /// The register's number.
    pub open spec fn number(self) -> u8 {
        self.index
    }

    /// The register with number `n`, for `n` below 32.
    pub open spec fn from_number(n: u8) -> Register {
        Register { index: n }
    }

    /// The register's number.
    pub fn index(self) -> (r: u8)
        ensures
            r == self.number(),
    {
        self.index
    }
}

impl From<u32> for Register {
    /// The register named by the low five bits of `value`.
    fn from(value: u32) -> (r: Register) {
        Register { index: value as u8 & 0b11111 }
    }
}

impl vstd::std_specs::convert::FromSpecImpl<u32> for Register {
    open spec fn obeys_from_spec() -> bool {
        true
    }

    open spec fn from_spec(v: u32) -> Register {
        Register { index: v as u8 & 0b11111 }
    }
}

/// Coprocessor 1, the floating-point unit. Each register holds the IEEE 754 single-precision
/// bit pattern of its value.
#[derive(Debug)]
pub struct Fpu {
    registers: [u32; 32],
}

impl View for Fpu {
    type V = Seq<u32>;

    /// The bit patterns held by the registers, by register number.
    closed spec fn view(&self) -> Seq<u32> {
        self.registers@
    }
}

impl Fpu {
    /// All registers hold `0.0` (the all-zero bit pattern).
    pub fn new() -> (r: Fpu)
        ensures
            r@.len() == 32,
            forall|i: int| 0 <= i < 32 ==> #[trigger] r@[i] == 0,
    {
        Fpu { registers: [0u32; 32] }
    }

    /// The bit pattern held by `register`.
    pub fn get_register(&self, register: Register) -> (r: u32)
        requires
            register.number() < 32,
        ensures
            r == self@[register.number() as int],
    {
        self.registers[register.index as usize]
    }

    /// Stores the bit pattern `value` in `register`.
    pub fn set_register(&mut self, register: Register, value: u32)
        requires
            register.number() < 32,
        ensures
            final(self)@ == old(self)@.update(register.number() as int, value),
    {
        self.registers[register.index as usize] = value;
    }
}

} // verus!
