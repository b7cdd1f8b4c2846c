use vstd::prelude::*;

use crate::bits::{bits_u128, mask_u128, Bits};

verus! {

/// A general-purpose register of the Emotion Engine core, plus the `LO` and `HI`
/// multiply/divide result registers.
#[derive(Debug, PartialEq, Eq, Structural, Copy, Clone)]
pub enum Register {
    Zero,
    At,
    V0,
    V1,
    A0,
    A1,
    A2,
    A3,
    T0,
    T1,
    T2,
    T3,
    T4,
    T5,
    T6,
    T7,
    S0,
    S1,
    S2,
    S3,
    S4,
    S5,
    S6,
    S7,
    T8,
    T9,
    K0,
    K1,
    Gp,
    Sp,
    Fp,
    Ra,
    Lo,
    Hi,
}

/// The number of registers in `Register`.
pub const REGISTER_COUNT: usize = 34;

impl Register {
    /// Position of the register in declaration order (its number in instruction encodings,
    /// 32 for `Lo` and 33 for `Hi`).
    pub open spec fn index(self) -> u32 {
        match self {
            Register::Zero => 0,
            Register::At => 1,
            Register::V0 => 2,
            Register::V1 => 3,
            Register::A0 => 4,
            Register::A1 => 5,
            Register::A2 => 6,
            Register::A3 => 7,
            Register::T0 => 8,
            Register::T1 => 9,
            Register::T2 => 10,
            Register::T3 => 11,
            Register::T4 => 12,
            Register::T5 => 13,
            Register::T6 => 14,
            Register::T7 => 15,
            Register::S0 => 16,
            Register::S1 => 17,
            Register::S2 => 18,
            Register::S3 => 19,
            Register::S4 => 20,
            Register::S5 => 21,
            Register::S6 => 22,
            Register::S7 => 23,
            Register::T8 => 24,
            Register::T9 => 25,
            Register::K0 => 26,
            Register::K1 => 27,
            Register::Gp => 28,
            Register::Sp => 29,
            Register::Fp => 30,
            Register::Ra => 31,
            Register::Lo => 32,
            Register::Hi => 33,
        }
    }

    /// The register with encoding number `n`, for `n` below 32.
    pub open spec fn from_number(n: u32) -> Register {
        if n == 0 {
            Register::Zero
        } else if n == 1 {
            Register::At
        } else if n == 2 {
            Register::V0
        } else if n == 3 {
            Register::V1
        } else if n == 4 {
            Register::A0
        } else if n == 5 {
            Register::A1
        } else if n == 6 {
            Register::A2
        } else if n == 7 {
            Register::A3
        } else if n == 8 {
            Register::T0
        } else if n == 9 {
            Register::T1
        } else if n == 10 {
            Register::T2
        } else if n == 11 {
            Register::T3
        } else if n == 12 {
            Register::T4
        } else if n == 13 {
            Register::T5
        } else if n == 14 {
            Register::T6
        } else if n == 15 {
            Register::T7
        } else if n == 16 {
            Register::S0
        } else if n == 17 {
            Register::S1
        } else if n == 18 {
            Register::S2
        } else if n == 19 {
            Register::S3
        } else if n == 20 {
            Register::S4
        } else if n == 21 {
            Register::S5
        } else if n == 22 {
            Register::S6
        } else if n == 23 {
            Register::S7
        } else if n == 24 {
            Register::T8
        } else if n == 25 {
            Register::T9
        } else if n == 26 {
            Register::K0
        } else if n == 27 {
            Register::K1
        } else if n == 28 {
            Register::Gp
        } else if n == 29 {
            Register::Sp
        } else if n == 30 {
            Register::Fp
        } else if n == 31 {
            Register::Ra
        } else {
            Register::Ra
        }
    }

    /// The register at position `index` in declaration order, for `index` below 34.
    pub fn from_index(index: usize) -> (r: Register)
        requires
            index < REGISTER_COUNT,
        ensures
            r.index() == index,
    {
        match index {
            0 => Register::Zero,
            1 => Register::At,
            2 => Register::V0,
            3 => Register::V1,
            4 => Register::A0,
            5 => Register::A1,
            6 => Register::A2,
            7 => Register::A3,
            8 => Register::T0,
            9 => Register::T1,
            10 => Register::T2,
            11 => Register::T3,
            12 => Register::T4,
            13 => Register::T5,
            14 => Register::T6,
            15 => Register::T7,
            16 => Register::S0,
            17 => Register::S1,
            18 => Register::S2,
            19 => Register::S3,
            20 => Register::S4,
            21 => Register::S5,
            22 => Register::S6,
            23 => Register::S7,
            24 => Register::T8,
            25 => Register::T9,
            26 => Register::K0,
            27 => Register::K1,
            28 => Register::Gp,
            29 => Register::Sp,
            30 => Register::Fp,
            31 => Register::Ra,
            32 => Register::Lo,
            _ => Register::Hi,
        }
    }

    /// Position of the register in declaration order.
    pub fn to_index(self) -> (r: usize)
        ensures
            r == self.index(),
    {
        match self {
            Register::Zero => 0,
            Register::At => 1,
            Register::V0 => 2,
            Register::V1 => 3,
            Register::A0 => 4,
            Register::A1 => 5,
            Register::A2 => 6,
            Register::A3 => 7,
            Register::T0 => 8,
            Register::T1 => 9,
            Register::T2 => 10,
            Register::T3 => 11,
            Register::T4 => 12,
            Register::T5 => 13,
            Register::T6 => 14,
            Register::T7 => 15,
            Register::S0 => 16,
            Register::S1 => 17,
            Register::S2 => 18,
            Register::S3 => 19,
            Register::S4 => 20,
            Register::S5 => 21,
            Register::S6 => 22,
            Register::S7 => 23,
            Register::T8 => 24,
            Register::T9 => 25,
            Register::K0 => 26,
            Register::K1 => 27,
            Register::Gp => 28,
            Register::Sp => 29,
            Register::Fp => 30,
            Register::Ra => 31,
            Register::Lo => 32,
            Register::Hi => 33,
        }
    }

    /// `None` for the hard-wired zero register, the register itself otherwise.
    pub fn non_zero(self) -> (r: Option<Self>)
        ensures
            r == (if self == Register::Zero {
                None
            } else {
                Some(self)
            }),
    {
        match self {
            Register::Zero => None,
            _ => Some(self),
        }
    }

    /// Every register, in declaration order.
    pub fn all() -> (r: Vec<Register>)
        ensures
            r@.len() == REGISTER_COUNT,
            forall|i: int| 0 <= i < REGISTER_COUNT ==> (#[trigger] r@[i]).index() == i,
    {
        let mut r: Vec<Register> = Vec::new();
        let mut i: usize = 0;
        while i < REGISTER_COUNT
            invariant
                i <= REGISTER_COUNT,
                r@.len() == i,
                forall|j: int| 0 <= j < i ==> (#[trigger] r@[j]).index() == j,
            decreases REGISTER_COUNT - i,
        {
            r.push(Register::from_index(i));
            i += 1;
        }
        r
    }

    /// The register's assembler name.
    pub open spec fn spec_name(self) -> Seq<char> {
        match self {
            Register::Zero => "zero"@,
            Register::At => "at"@,
            Register::V0 => "v0"@,
            Register::V1 => "v1"@,
            Register::A0 => "a0"@,
            Register::A1 => "a1"@,
            Register::A2 => "a2"@,
            Register::A3 => "a3"@,
            Register::T0 => "t0"@,
            Register::T1 => "t1"@,
            Register::T2 => "t2"@,
            Register::T3 => "t3"@,
            Register::T4 => "t4"@,
            Register::T5 => "t5"@,
            Register::T6 => "t6"@,
            Register::T7 => "t7"@,
            Register::S0 => "s0"@,
            Register::S1 => "s1"@,
            Register::S2 => "s2"@,
            Register::S3 => "s3"@,
            Register::S4 => "s4"@,
            Register::S5 => "s5"@,
            Register::S6 => "s6"@,
            Register::S7 => "s7"@,
            Register::T8 => "t8"@,
            Register::T9 => "t9"@,
            Register::K0 => "k0"@,
            Register::K1 => "k1"@,
            Register::Gp => "gp"@,
            Register::Sp => "sp"@,
            Register::Fp => "fp"@,
            Register::Ra => "ra"@,
            Register::Lo => "lo"@,
            Register::Hi => "hi"@,
        }
    }

    /// The register's assembler name.
    pub fn name(self) -> (r: &'static str)
        ensures
            r@ == self.spec_name(),
    {
        match self {
            Register::Zero => "zero",
            Register::At => "at",
            Register::V0 => "v0",
            Register::V1 => "v1",
            Register::A0 => "a0",
            Register::A1 => "a1",
            Register::A2 => "a2",
            Register::A3 => "a3",
            Register::T0 => "t0",
            Register::T1 => "t1",
            Register::T2 => "t2",
            Register::T3 => "t3",
            Register::T4 => "t4",
            Register::T5 => "t5",
            Register::T6 => "t6",
            Register::T7 => "t7",
            Register::S0 => "s0",
            Register::S1 => "s1",
            Register::S2 => "s2",
            Register::S3 => "s3",
            Register::S4 => "s4",
            Register::S5 => "s5",
            Register::S6 => "s6",
            Register::S7 => "s7",
            Register::T8 => "t8",
            Register::T9 => "t9",
            Register::K0 => "k0",
            Register::K1 => "k1",
            Register::Gp => "gp",
            Register::Sp => "sp",
            Register::Fp => "fp",
            Register::Ra => "ra",
            Register::Lo => "lo",
            Register::Hi => "hi",
        }
    }
}

/// The numbered registers are exactly the ones with indices below 32.
pub proof fn lemma_from_number_index(n: u32)
    requires
        n < 32,
    ensures
        Register::from_number(n).index() == n,
{
}

impl From<u32> for Register {
    /// The register named by the low five bits of `value`.
    fn from(value: u32) -> (r: Register) {
        let n = value & 0b11111;
        assert(n < 32) by (bit_vector)
            requires
                n == value & 0b11111,
        ;
        Register::from_index(n as usize)
    }
}

impl vstd::std_specs::convert::FromSpecImpl<u32> for Register {
    open spec fn obeys_from_spec() -> bool {
        true
    }

    open spec fn from_spec(v: u32) -> Register {
        Register::from_number(v & 0b11111)
    }
}

/// Writing a value of type `T` into a 128-bit register.
pub trait SetRegister<T>: Sized {
    spec fn spec_set_register(self, value: T) -> Self;

    fn set_register(&mut self, value: T)
        ensures
            *final(self) == old(self).spec_set_register(value),
    ;
}

/// Writing a value of type `T` into the upper half of a 128-bit register.
pub trait SetUpper<T>: Sized {
    spec fn spec_set_upper(self, value: T) -> Self;

    fn set_upper(&mut self, value: T)
        ensures
            *final(self) == old(self).spec_set_upper(value),
    ;
}

/// Reading the low bits of a 128-bit register as a value of type `T`.
pub trait GetRegister<T> {
    spec fn spec_get_register(self) -> T;

    fn get_register(&self) -> (r: T)
        ensures
            r == self.spec_get_register(),
    ;
}

/// Reading the upper half of a 128-bit register as a value of type `T`.
pub trait GetUpper<T> {
    spec fn spec_get_upper(self) -> T;

    fn get_upper(&self) -> (r: T)
        ensures
            r == self.spec_get_upper(),
    ;
}

/// The upper 64 bits of a 128-bit register set, the lower 64 clear.
pub const UPPER_MASK: u128 = 0xFFFF_FFFF_FFFF_FFFF_0000_0000_0000_0000;

impl SetRegister<u64> for u128 {
    /// The low 64 bits are replaced by `value`, the upper 64 bits are kept.
    open spec fn spec_set_register(self, value: u64) -> u128 {
        value as u128 | (self & UPPER_MASK)
    }

    fn set_register(&mut self, value: u64) {
        proof {
            lemma_register_halves(*self, value);
        }
        *self = value as u128 | (*self & u128::mask(64, 128));
    }
}

impl SetRegister<u128> for u128 {
    open spec fn spec_set_register(self, value: u128) -> u128 {
        value
    }

    fn set_register(&mut self, value: u128) {
        *self = value;
    }
}

impl GetRegister<u8> for u128 {
    open spec fn spec_get_register(self) -> u8 {
        self as u8
    }

    fn get_register(&self) -> (r: u8) {
        *self as u8
    }
}

impl GetRegister<u16> for u128 {
    open spec fn spec_get_register(self) -> u16 {
        self as u16
    }

    fn get_register(&self) -> (r: u16) {
        *self as u16
    }
}

impl GetRegister<u32> for u128 {
    open spec fn spec_get_register(self) -> u32 {
        self as u32
    }

    fn get_register(&self) -> (r: u32) {
        *self as u32
    }
}

impl GetRegister<u64> for u128 {
    open spec fn spec_get_register(self) -> u64 {
        self as u64
    }

    fn get_register(&self) -> (r: u64) {
        *self as u64
    }
}

impl GetRegister<u128> for u128 {
    open spec fn spec_get_register(self) -> u128 {
        self
    }

    fn get_register(&self) -> (r: u128) {
        *self
    }
}

impl SetUpper<u64> for u128 {
    /// The upper 64 bits are replaced by `value`, the lower 64 bits are kept.
    open spec fn spec_set_upper(self, value: u64) -> u128 {
        bits_u128(self, 0, 64) | (value as u128) << 64
    }

    fn set_upper(&mut self, value: u64) {
        *self = self.bits(0, 64) | ((value as u128) << 64);
    }
}

impl GetUpper<u64> for u128 {
    open spec fn spec_get_upper(self) -> u64 {
        bits_u128(self, 64, 128) as u64
    }

    fn get_upper(&self) -> (r: u64) {
        self.bits(64, 128) as u64
    }
}

/// The bit-level facts behind the register-half operations.
proof fn lemma_register_halves(x: u128, value: u64)
    by (bit_vector)
    ensures
        mask_u128(64, 128) == UPPER_MASK,
        (value as u128 | (x & UPPER_MASK)) as u64 == value,
        bits_u128(value as u128 | (x & UPPER_MASK), 64, 128) as u64 == bits_u128(x, 64, 128)
            as u64,
        bits_u128(bits_u128(x, 0, 64) | (value as u128) << 64, 64, 128) as u64 == value,
        (bits_u128(x, 0, 64) | (value as u128) << 64) as u64 == x as u64,
{
}

/// Writing the lower half of a register and reading it back gives the value written, and
/// the upper half is unchanged; likewise writing the upper half leaves the lower half.
pub proof fn law_register_halves(x: u128, value: u64)
    ensures
        <u128 as GetRegister<u64>>::spec_get_register(
            <u128 as SetRegister<u64>>::spec_set_register(x, value),
        ) == value,
        <u128 as GetUpper<u64>>::spec_get_upper(
            <u128 as SetRegister<u64>>::spec_set_register(x, value),
        ) == <u128 as GetUpper<u64>>::spec_get_upper(x),
        <u128 as GetUpper<u64>>::spec_get_upper(<u128 as SetUpper<u64>>::spec_set_upper(x, value))
            == value,
        <u128 as GetRegister<u64>>::spec_get_register(
            <u128 as SetUpper<u64>>::spec_set_upper(x, value),
        ) == <u128 as GetRegister<u64>>::spec_get_register(x),
{
    lemma_register_halves(x, value);
}

/// The register named by a register's own number is that register.
pub broadcast proof fn lemma_number_roundtrip(r: Register)
    requires
        r.index() < 32,
    ensures
        #[trigger] Register::from_number(r.index()) == r,
{
}

} // verus!
