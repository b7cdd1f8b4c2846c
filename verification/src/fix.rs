use vstd::prelude::*;

verus! {

/// A fixed-point number: the integer `raw` stands for `raw / 2^F`.
#[derive(Clone, Copy)]
pub struct Fix<T, const F: usize>(pub T);

/// The 16-bit format with 4 fraction bits, in which coordinates are given.
impl Fix<u16, 4> {
    /// The integer `value` as a fixed-point number; the top 4 bits of `value` are lost.
    pub fn from_integer(value: u16) -> (r: Self)
        ensures
            r.0 == (value * 16) % 0x1_0000,
    {
        proof {
            lemma_fix_shifts(value);
        }
        Fix(value << 4u16)
    }

    pub fn from_raw(raw: u16) -> (r: Self)
        ensures
            r.0 == raw,
    {
        Fix(raw)
    }

    pub fn raw(self) -> (r: u16)
        ensures
            r == self.0,
    {
        self.0
    }

    /// The integer part, rounding down.
    pub fn floor(self) -> (r: u16)
        ensures
            r == self.0 / 16,
    {
        let raw = self.0;
        proof {
            lemma_fix_shifts(raw);
        }
        raw >> 4u16
    }

    /// The nearest integer, halves rounding up.
    pub fn round(self) -> (r: u16)
        requires
            self.0 + 8 <= u16::MAX,
        ensures
            r == (self.0 + 8) / 16,
    {
        let sum = self.0 + 8;
        proof {
            lemma_fix_shifts(sum);
        }
        sum >> 4u16
    }

    /// The integer part, rounding up.
    pub fn ceil(self) -> (r: u16)
        requires
            self.0 + 16 <= u16::MAX,
        ensures
            r == (self.0 + 15) / 16,
    {
        let sum = self.0 + 16 - 1;
        proof {
            lemma_fix_shifts(sum);
        }
        sum >> 4u16
    }
}

/// Shifting by the four fraction bits multiplies or divides by 16.
proof fn lemma_fix_shifts(x: u16)
    by (bit_vector)
    ensures
        x << 4u16 == ((x * 16) % 0x1_0000) as u16,
        x >> 4u16 == x / 16u16,
{
}

/// Rounding lies between rounding down and rounding up, and all three agree on integers.
pub proof fn law_fix_rounding(x: Fix<u16, 4>)
    requires
        x.0 + 16 <= u16::MAX,
    ensures
        x.0 / 16 <= (x.0 + 8) / 16 <= (x.0 + 15) / 16,
        (x.0 + 15) / 16 <= x.0 / 16 + 1,
        x.0 % 16 == 0 ==> x.0 / 16 == (x.0 + 8) / 16 && (x.0 + 8) / 16 == (x.0 + 15) / 16,
{
}

impl core::ops::Add for Fix<u16, 4> {
    type Output = Fix<u16, 4>;

    /// The sum of two fixed-point values, which must fit.
    fn add(self, rhs: Self) -> (r: Self) {
        Fix(self.0 + rhs.0)
    }
}

impl vstd::std_specs::ops::AddSpecImpl for Fix<u16, 4> {
    open spec fn obeys_add_spec() -> bool {
        true
    }

    open spec fn add_req(self, rhs: Self) -> bool {
        self.0 + rhs.0 <= u16::MAX
    }

    open spec fn add_spec(self, rhs: Self) -> Self {
        Fix((self.0 + rhs.0) as u16)
    }
}

impl core::ops::Sub for Fix<u16, 4> {
    type Output = Fix<u16, 4>;

    /// The difference of two fixed-point values, which must not be negative.
    fn sub(self, rhs: Self) -> (r: Self) {
        Fix(self.0 - rhs.0)
    }
}

impl vstd::std_specs::ops::SubSpecImpl for Fix<u16, 4> {
    open spec fn obeys_sub_spec() -> bool {
        true
    }

    open spec fn sub_req(self, rhs: Self) -> bool {
        self.0 >= rhs.0
    }

    open spec fn sub_spec(self, rhs: Self) -> Self {
        Fix((self.0 - rhs.0) as u16)
    }
}

impl core::ops::Mul for Fix<u16, 4> {
    type Output = Fix<u16, 4>;

    /// The product of two fixed-point values: the product of the raw values, which must fit,
    /// shifted back by the four fractional bits.
    fn mul(self, rhs: Self) -> (r: Self) {
        let product = self.0 * rhs.0;
        proof {
            lemma_fix_shifts(product);
        }
        Fix(product >> 4u16)
    }
}

impl vstd::std_specs::ops::MulSpecImpl for Fix<u16, 4> {
    open spec fn obeys_mul_spec() -> bool {
        true
    }

    open spec fn mul_req(self, rhs: Self) -> bool {
        self.0 * rhs.0 <= u16::MAX
    }

    open spec fn mul_spec(self, rhs: Self) -> Self {
        Fix(((self.0 * rhs.0) / 16) as u16)
    }
}

impl core::ops::Div for Fix<u16, 4> {
    type Output = Fix<u16, 4>;

    /// The quotient of two fixed-point values: the dividend's raw value shifted up by the four
    /// fractional bits (losing its top four bits), divided by the divisor's, which must not be
    /// zero.
    fn div(self, rhs: Self) -> (r: Self) {
        let shifted = self.0 << 4u16;
        proof {
            lemma_fix_shifts(self.0);
        }
        Fix(shifted / rhs.0)
    }
}

impl vstd::std_specs::ops::DivSpecImpl for Fix<u16, 4> {
    open spec fn obeys_div_spec() -> bool {
        true
    }

    open spec fn div_req(self, rhs: Self) -> bool {
        rhs.0 != 0
    }

    open spec fn div_spec(self, rhs: Self) -> Self {
        Fix((((self.0 * 16) % 0x1_0000) / (rhs.0 as int)) as u16)
    }
}

impl core::ops::Shl<usize> for Fix<u16, 4> {
    type Output = Fix<u16, 4>;

    /// The raw value shifted up by `rhs` bits (below 16); bits shifted out are lost.
    fn shl(self, rhs: usize) -> (r: Self) {
        Fix(self.0 << rhs)
    }
}

impl vstd::std_specs::ops::ShlSpecImpl<usize> for Fix<u16, 4> {
    open spec fn obeys_shl_spec() -> bool {
        true
    }

    open spec fn shl_req(self, rhs: usize) -> bool {
        rhs < 16
    }

    open spec fn shl_spec(self, rhs: usize) -> Self {
        Fix(self.0 << rhs)
    }
}

impl core::ops::Shr<usize> for Fix<u16, 4> {
    type Output = Fix<u16, 4>;

    /// The raw value shifted down by `rhs` bits (below 16).
    fn shr(self, rhs: usize) -> (r: Self) {
        Fix(self.0 >> rhs)
    }
}

impl vstd::std_specs::ops::ShrSpecImpl<usize> for Fix<u16, 4> {
    open spec fn obeys_shr_spec() -> bool {
        true
    }

    open spec fn shr_req(self, rhs: usize) -> bool {
        rhs < 16
    }

    open spec fn shr_spec(self, rhs: usize) -> Self {
        Fix(self.0 >> rhs)
    }
}

} // verus!
