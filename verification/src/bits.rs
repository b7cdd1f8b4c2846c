use vstd::prelude::*;

verus! {

/// Field access on the bits of an unsigned integer, by half-open bit ranges `start..end`
/// (bit 0 is the least significant).
pub trait Bits: Sized + Copy {
    /// Number of bits in the type.
    spec fn width() -> u32;

    /// The value with exactly the bits `start..end` set.
    spec fn spec_mask(start: u32, end: u32) -> Self;

    /// Bits `start..end` of `self`, moved down to bit 0.
    spec fn spec_bits(self, start: u32, end: u32) -> Self;

    /// Whether bit `index` of `self` is set.
    spec fn spec_bit(self, index: u32) -> bool;

    /// `self` with bits `start..end` replaced by the low bits of `value`.
    spec fn spec_set_bits(self, start: u32, end: u32, value: Self) -> Self;

    /// `self` with bit `index` set to `value`.
    spec fn spec_set_bit(self, index: u32, value: bool) -> Self;

    /// Writing bits `start..end` and reading them back gives the low `end - start` bits of
    /// the value written; every bit outside the field keeps its value.
    proof fn lemma_set_bits(self, start: u32, end: u32, value: Self, other: u32)
        requires
            start < end <= Self::width(),
            end - start < Self::width(),
            other < Self::width(),
        ensures
            self.spec_set_bits(start, end, value).spec_bits(start, end) == value.spec_bits(
                0,
                (end - start) as u32,
            ),
            other < start || end <= other ==> self.spec_set_bits(start, end, value).spec_bit(other)
                == self.spec_bit(other),
    ;

    fn mask(start: u32, end: u32) -> (r: Self)
        requires
            start < end <= Self::width(),
            end - start < Self::width(),
        ensures
            r == Self::spec_mask(start, end),
    ;

    fn bits(self, start: u32, end: u32) -> (r: Self)
        requires
            start < end <= Self::width(),
            end - start < Self::width(),
        ensures
            r == self.spec_bits(start, end),
    ;

    fn bit(self, index: u32) -> (r: bool)
        requires
            index < Self::width(),
        ensures
            r == self.spec_bit(index),
    ;

    fn set_bits(&mut self, start: u32, end: u32, value: Self)
        requires
            start < end <= Self::width(),
            end - start < Self::width(),
        ensures
            *final(self) == old(self).spec_set_bits(start, end, value),
    ;

    fn set_bit(&mut self, index: u32, value: bool)
        requires
            index < Self::width(),
        ensures
            *final(self) == old(self).spec_set_bit(index, value),
    ;
}

/// The low `n` bits set, as a 16-bit value (`n` below 16).
pub open spec fn low_mask_u16(n: u32) -> u16 {
    !(u16::MAX << n)
}

/// Bits `start..end` set, as a 16-bit value.
pub open spec fn mask_u16(start: u32, end: u32) -> u16 {
    low_mask_u16((end - start) as u32) << start
}

/// Bits `start..end` of `x`, moved down to bit 0.
pub open spec fn bits_u16(x: u16, start: u32, end: u32) -> u16 {
    (x >> start) & low_mask_u16((end - start) as u32)
}

/// Whether bit `index` of `x` is set.
pub open spec fn bit_u16(x: u16, index: u32) -> bool {
    x & (1u16 << index) != 0
}

/// `x` with bits `start..end` replaced by the low bits of `value`.
pub open spec fn set_bits_u16(x: u16, start: u32, end: u32, value: u16) -> u16 {
    x & !mask_u16(start, end) | (value << start) & mask_u16(start, end)
}

/// `x` with bit `index` set to `value`.
pub open spec fn set_bit_u16(x: u16, index: u32, value: bool) -> u16 {
    x & !(1u16 << index) | (if value {
        1u16 << index
    } else {
        0
    })
}

impl Bits for u16 {
    open spec fn width() -> u32 {
        16
    }

    open spec fn spec_mask(start: u32, end: u32) -> u16 {
        mask_u16(start, end)
    }

    open spec fn spec_bits(self, start: u32, end: u32) -> u16 {
        bits_u16(self, start, end)
    }

    open spec fn spec_bit(self, index: u32) -> bool {
        bit_u16(self, index)
    }

    open spec fn spec_set_bits(self, start: u32, end: u32, value: u16) -> u16 {
        set_bits_u16(self, start, end, value)
    }

    open spec fn spec_set_bit(self, index: u32, value: bool) -> u16 {
        set_bit_u16(self, index, value)
    }

    proof fn lemma_set_bits(self, start: u32, end: u32, value: u16, other: u32) {
        law_set_bits_u16(self, start, end, value, other);
    }

    fn mask(start: u32, end: u32) -> (r: u16) {
        !(u16::MAX << (end - start)) << start
    }

    fn bits(self, start: u32, end: u32) -> (r: u16) {
        (self >> start) & !(u16::MAX << (end - start))
    }

    fn bit(self, index: u32) -> (r: bool) {
        self & (1u16 << index) != 0
    }

    fn set_bits(&mut self, start: u32, end: u32, value: u16) {
        let mask = u16::mask(start, end);
        *self = *self & !mask | (value << start) & mask;
    }

    fn set_bit(&mut self, index: u32, value: bool) {
        let mask = 1u16 << index;
        *self = *self & !mask | (if value {
            mask
        } else {
            0
        });
    }
}

/// Writing a bit of a u16 and reading it back gives the value written; every other bit
/// keeps its value.
pub proof fn law_set_bit_u16(x: u16, index: u32, other: u32, value: bool)
    by (bit_vector)
    requires
        index < 16,
        other < 16,
    ensures
        bit_u16(set_bit_u16(x, index, value), index) == value,
        other != index ==> bit_u16(set_bit_u16(x, index, value), other) == bit_u16(x, other),
{
}

/// Writing a bit field of a u16 and reading the same field back gives the low bits of the
/// value written; every bit outside the field keeps its value.
#[verifier::rlimit(100)]
pub proof fn law_set_bits_u16(x: u16, start: u32, end: u32, value: u16, other: u32)
    by (bit_vector)
    requires
        start < end,
        end <= 16,
        end - start < 16,
        other < 16,
    ensures
        bits_u16(set_bits_u16(x, start, end, value), start, end) == bits_u16(
            value,
            0,
            (end - start) as u32,
        ),
        other < start || end <= other ==> bit_u16(set_bits_u16(x, start, end, value), other)
            == bit_u16(x, other),
{
}

/// The low `n` bits set, as a 32-bit value (`n` below 32).
pub open spec fn low_mask_u32(n: u32) -> u32 {
    !(u32::MAX << n)
}

/// Bits `start..end` set, as a 32-bit value.
pub open spec fn mask_u32(start: u32, end: u32) -> u32 {
    low_mask_u32((end - start) as u32) << start
}

/// Bits `start..end` of `x`, moved down to bit 0.
pub open spec fn bits_u32(x: u32, start: u32, end: u32) -> u32 {
    (x >> start) & low_mask_u32((end - start) as u32)
}

/// Whether bit `index` of `x` is set.
pub open spec fn bit_u32(x: u32, index: u32) -> bool {
    x & (1u32 << index) != 0
}

/// `x` with bits `start..end` replaced by the low bits of `value`.
pub open spec fn set_bits_u32(x: u32, start: u32, end: u32, value: u32) -> u32 {
    x & !mask_u32(start, end) | (value << start) & mask_u32(start, end)
}

/// `x` with bit `index` set to `value`.
pub open spec fn set_bit_u32(x: u32, index: u32, value: bool) -> u32 {
    x & !(1u32 << index) | (if value {
        1u32 << index
    } else {
        0
    })
}

impl Bits for u32 {
    open spec fn width() -> u32 {
        32
    }

    open spec fn spec_mask(start: u32, end: u32) -> u32 {
        mask_u32(start, end)
    }

    open spec fn spec_bits(self, start: u32, end: u32) -> u32 {
        bits_u32(self, start, end)
    }

    open spec fn spec_bit(self, index: u32) -> bool {
        bit_u32(self, index)
    }

    open spec fn spec_set_bits(self, start: u32, end: u32, value: u32) -> u32 {
        set_bits_u32(self, start, end, value)
    }

    open spec fn spec_set_bit(self, index: u32, value: bool) -> u32 {
        set_bit_u32(self, index, value)
    }

    proof fn lemma_set_bits(self, start: u32, end: u32, value: u32, other: u32) {
        law_set_bits_u32(self, start, end, value, other);
    }

    fn mask(start: u32, end: u32) -> (r: u32) {
        !(u32::MAX << (end - start)) << start
    }

    fn bits(self, start: u32, end: u32) -> (r: u32) {
        (self >> start) & !(u32::MAX << (end - start))
    }

    fn bit(self, index: u32) -> (r: bool) {
        self & (1u32 << index) != 0
    }

    fn set_bits(&mut self, start: u32, end: u32, value: u32) {
        let mask = u32::mask(start, end);
        *self = *self & !mask | (value << start) & mask;
    }

    fn set_bit(&mut self, index: u32, value: bool) {
        let mask = 1u32 << index;
        *self = *self & !mask | (if value {
            mask
        } else {
            0
        });
    }
}

/// Writing a bit of a u32 and reading it back gives the value written; every other bit
/// keeps its value.
pub proof fn law_set_bit_u32(x: u32, index: u32, other: u32, value: bool)
    by (bit_vector)
    requires
        index < 32,
        other < 32,
    ensures
        bit_u32(set_bit_u32(x, index, value), index) == value,
        other != index ==> bit_u32(set_bit_u32(x, index, value), other) == bit_u32(x, other),
{
}

/// Writing a bit field of a u32 and reading the same field back gives the low bits of the
/// value written; every bit outside the field keeps its value.
#[verifier::rlimit(100)]
pub proof fn law_set_bits_u32(x: u32, start: u32, end: u32, value: u32, other: u32)
    by (bit_vector)
    requires
        start < end,
        end <= 32,
        end - start < 32,
        other < 32,
    ensures
        bits_u32(set_bits_u32(x, start, end, value), start, end) == bits_u32(
            value,
            0,
            (end - start) as u32,
        ),
        other < start || end <= other ==> bit_u32(set_bits_u32(x, start, end, value), other)
            == bit_u32(x, other),
{
}

/// The low `n` bits set, as a 64-bit value (`n` below 64).
pub open spec fn low_mask_u64(n: u32) -> u64 {
    !(u64::MAX << n)
}

/// Bits `start..end` set, as a 64-bit value.
pub open spec fn mask_u64(start: u32, end: u32) -> u64 {
    low_mask_u64((end - start) as u32) << start
}

/// Bits `start..end` of `x`, moved down to bit 0.
pub open spec fn bits_u64(x: u64, start: u32, end: u32) -> u64 {
    (x >> start) & low_mask_u64((end - start) as u32)
}

/// Whether bit `index` of `x` is set.
pub open spec fn bit_u64(x: u64, index: u32) -> bool {
    x & (1u64 << index) != 0
}

/// `x` with bits `start..end` replaced by the low bits of `value`.
pub open spec fn set_bits_u64(x: u64, start: u32, end: u32, value: u64) -> u64 {
    x & !mask_u64(start, end) | (value << start) & mask_u64(start, end)
}

/// `x` with bit `index` set to `value`.
pub open spec fn set_bit_u64(x: u64, index: u32, value: bool) -> u64 {
    x & !(1u64 << index) | (if value {
        1u64 << index
    } else {
        0
    })
}

impl Bits for u64 {
    open spec fn width() -> u32 {
        64
    }

    open spec fn spec_mask(start: u32, end: u32) -> u64 {
        mask_u64(start, end)
    }

    open spec fn spec_bits(self, start: u32, end: u32) -> u64 {
        bits_u64(self, start, end)
    }

    open spec fn spec_bit(self, index: u32) -> bool {
        bit_u64(self, index)
    }

    open spec fn spec_set_bits(self, start: u32, end: u32, value: u64) -> u64 {
        set_bits_u64(self, start, end, value)
    }

    open spec fn spec_set_bit(self, index: u32, value: bool) -> u64 {
        set_bit_u64(self, index, value)
    }

    proof fn lemma_set_bits(self, start: u32, end: u32, value: u64, other: u32) {
        law_set_bits_u64(self, start, end, value, other);
    }

    fn mask(start: u32, end: u32) -> (r: u64) {
        !(u64::MAX << (end - start)) << start
    }

    fn bits(self, start: u32, end: u32) -> (r: u64) {
        (self >> start) & !(u64::MAX << (end - start))
    }

    fn bit(self, index: u32) -> (r: bool) {
        self & (1u64 << index) != 0
    }

    fn set_bits(&mut self, start: u32, end: u32, value: u64) {
        let mask = u64::mask(start, end);
        *self = *self & !mask | (value << start) & mask;
    }

    fn set_bit(&mut self, index: u32, value: bool) {
        let mask = 1u64 << index;
        *self = *self & !mask | (if value {
            mask
        } else {
            0
        });
    }
}

/// Writing a bit of a u64 and reading it back gives the value written; every other bit
/// keeps its value.
pub proof fn law_set_bit_u64(x: u64, index: u32, other: u32, value: bool)
    by (bit_vector)
    requires
        index < 64,
        other < 64,
    ensures
        bit_u64(set_bit_u64(x, index, value), index) == value,
        other != index ==> bit_u64(set_bit_u64(x, index, value), other) == bit_u64(x, other),
{
}

/// Writing a bit field of a u64 and reading the same field back gives the low bits of the
/// value written; every bit outside the field keeps its value.
#[verifier::rlimit(100)]
pub proof fn law_set_bits_u64(x: u64, start: u32, end: u32, value: u64, other: u32)
    by (bit_vector)
    requires
        start < end,
        end <= 64,
        end - start < 64,
        other < 64,
    ensures
        bits_u64(set_bits_u64(x, start, end, value), start, end) == bits_u64(
            value,
            0,
            (end - start) as u32,
        ),
        other < start || end <= other ==> bit_u64(set_bits_u64(x, start, end, value), other)
            == bit_u64(x, other),
{
}

/// The low `n` bits set, as a 128-bit value (`n` below 128).
pub open spec fn low_mask_u128(n: u32) -> u128 {
    !(u128::MAX << n)
}

/// Bits `start..end` set, as a 128-bit value.
pub open spec fn mask_u128(start: u32, end: u32) -> u128 {
    low_mask_u128((end - start) as u32) << start
}

/// Bits `start..end` of `x`, moved down to bit 0.
pub open spec fn bits_u128(x: u128, start: u32, end: u32) -> u128 {
    (x >> start) & low_mask_u128((end - start) as u32)
}

/// Whether bit `index` of `x` is set.
pub open spec fn bit_u128(x: u128, index: u32) -> bool {
    x & (1u128 << index) != 0
}

/// `x` with bits `start..end` replaced by the low bits of `value`.
pub open spec fn set_bits_u128(x: u128, start: u32, end: u32, value: u128) -> u128 {
    x & !mask_u128(start, end) | (value << start) & mask_u128(start, end)
}

/// `x` with bit `index` set to `value`.
pub open spec fn set_bit_u128(x: u128, index: u32, value: bool) -> u128 {
    x & !(1u128 << index) | (if value {
        1u128 << index
    } else {
        0
    })
}

impl Bits for u128 {
    open spec fn width() -> u32 {
        128
    }

    open spec fn spec_mask(start: u32, end: u32) -> u128 {
        mask_u128(start, end)
    }

    open spec fn spec_bits(self, start: u32, end: u32) -> u128 {
        bits_u128(self, start, end)
    }

    open spec fn spec_bit(self, index: u32) -> bool {
        bit_u128(self, index)
    }

    open spec fn spec_set_bits(self, start: u32, end: u32, value: u128) -> u128 {
        set_bits_u128(self, start, end, value)
    }

    open spec fn spec_set_bit(self, index: u32, value: bool) -> u128 {
        set_bit_u128(self, index, value)
    }

    proof fn lemma_set_bits(self, start: u32, end: u32, value: u128, other: u32) {
        law_set_bits_u128(self, start, end, value, other);
    }

    fn mask(start: u32, end: u32) -> (r: u128) {
        !(u128::MAX << (end - start)) << start
    }

    fn bits(self, start: u32, end: u32) -> (r: u128) {
        (self >> start) & !(u128::MAX << (end - start))
    }

    fn bit(self, index: u32) -> (r: bool) {
        self & (1u128 << index) != 0
    }

    fn set_bits(&mut self, start: u32, end: u32, value: u128) {
        let mask = u128::mask(start, end);
        *self = *self & !mask | (value << start) & mask;
    }

    fn set_bit(&mut self, index: u32, value: bool) {
        let mask = 1u128 << index;
        *self = *self & !mask | (if value {
            mask
        } else {
            0
        });
    }
}

/// Writing a bit of a u128 and reading it back gives the value written; every other bit
/// keeps its value.
pub proof fn law_set_bit_u128(x: u128, index: u32, other: u32, value: bool)
    by (bit_vector)
    requires
        index < 128,
        other < 128,
    ensures
        bit_u128(set_bit_u128(x, index, value), index) == value,
        other != index ==> bit_u128(set_bit_u128(x, index, value), other) == bit_u128(x, other),
{
}

/// Writing a bit field of a u128 and reading the same field back gives the low bits of the
/// value written; every bit outside the field keeps its value.
#[verifier::rlimit(100)]
pub proof fn law_set_bits_u128(x: u128, start: u32, end: u32, value: u128, other: u32)
    by (bit_vector)
    requires
        start < end,
        end <= 128,
        end - start < 128,
        other < 128,
    ensures
        bits_u128(set_bits_u128(x, start, end, value), start, end) == bits_u128(
            value,
            0,
            (end - start) as u32,
        ),
        other < start || end <= other ==> bit_u128(set_bits_u128(x, start, end, value), other)
            == bit_u128(x, other),
{
}

/// Widening of a two's-complement value to a wider unsigned type, copying the sign bit into
/// the new upper bits.
pub trait SignExtend<T> {
    spec fn spec_sign_extend(self) -> T;

    fn sign_extend(self) -> (r: T)
        ensures
            r == self.spec_sign_extend(),
    ;
}

/// Casting through the signed type of the same width copies the sign bit upwards.
proof fn lemma_signed_casts(a: i8, b: u16, c: u32)
    by (bit_vector)
    ensures
        a as i32 as u64 == if (a as u8) < 0x80 {
            a as u8 as u64
        } else {
            a as u8 as u64 | 0xFFFF_FFFF_FFFF_FF00
        },
        b as i16 as i32 as u32 == if b < 0x8000 {
            b as u32
        } else {
            b as u32 | 0xFFFF_0000
        },
        b as i16 as i64 as u64 == if b < 0x8000 {
            b as u64
        } else {
            b as u64 | 0xFFFF_FFFF_FFFF_0000
        },
        c as i32 as i64 as u64 == if c < 0x8000_0000 {
            c as u64
        } else {
            c as u64 | 0xFFFF_FFFF_0000_0000
        },
{
}

impl SignExtend<u32> for u16 {
    open spec fn spec_sign_extend(self) -> u32 {
        if self < 0x8000 {
            self as u32
        } else {
            self as u32 | 0xFFFF_0000
        }
    }

    fn sign_extend(self) -> (r: u32) {
        proof {
            lemma_signed_casts(0, self, 0);
        }
        self as i16 as i32 as u32
    }
}

impl SignExtend<u64> for u16 {
    open spec fn spec_sign_extend(self) -> u64 {
        if self < 0x8000 {
            self as u64
        } else {
            self as u64 | 0xFFFF_FFFF_FFFF_0000
        }
    }

    fn sign_extend(self) -> (r: u64) {
        proof {
            lemma_signed_casts(0, self, 0);
        }
        self as i16 as i64 as u64
    }
}

impl SignExtend<u64> for u32 {
    open spec fn spec_sign_extend(self) -> u64 {
        if self < 0x8000_0000 {
            self as u64
        } else {
            self as u64 | 0xFFFF_FFFF_0000_0000
        }
    }

    fn sign_extend(self) -> (r: u64) {
        proof {
            lemma_signed_casts(0, 0, self);
        }
        self as i32 as i64 as u64
    }
}

impl SignExtend<u64> for i32 {
    open spec fn spec_sign_extend(self) -> u64 {
        (self as u32).spec_sign_extend()
    }

    fn sign_extend(self) -> (r: u64) {
        (self as u32).sign_extend()
    }
}

impl SignExtend<u64> for i8 {
    open spec fn spec_sign_extend(self) -> u64 {
        if (self as u8) < 0x80 {
            self as u8 as u64
        } else {
            self as u8 as u64 | 0xFFFF_FFFF_FFFF_FF00
        }
    }

    fn sign_extend(self) -> (r: u64) {
        proof {
            lemma_signed_casts(self, 0, 0);
        }
        self as i32 as u64
    }
}

impl SignExtend<u32> for i16 {
    open spec fn spec_sign_extend(self) -> u32 {
        (self as u16).spec_sign_extend()
    }

    fn sign_extend(self) -> (r: u32) {
        (self as u16).sign_extend()
    }
}

impl SignExtend<u64> for i16 {
    open spec fn spec_sign_extend(self) -> u64 {
        (self as u16).spec_sign_extend()
    }

    fn sign_extend(self) -> (r: u64) {
        (self as u16).sign_extend()
    }
}

/// Writing a bit field of any of the unsigned integer types and reading the same field back
/// gives the low bits of the value written; every bit outside the field keeps its value.
pub proof fn law_set_bits<T: Bits>(x: T, start: u32, end: u32, value: T, other: u32)
    requires
        start < end <= T::width(),
        end - start < T::width(),
        other < T::width(),
    ensures
        x.spec_set_bits(start, end, value).spec_bits(start, end) == value.spec_bits(
            0,
            (end - start) as u32,
        ),
        other < start || end <= other ==> x.spec_set_bits(start, end, value).spec_bit(other)
            == x.spec_bit(other),
{
    x.lemma_set_bits(start, end, value, other);
}

} // verus!
