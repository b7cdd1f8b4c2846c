use vstd::prelude::*;

use crate::bits::{bit_u64, law_set_bit_u64, Bits};
use crate::emotion_engine::cpu::register::{Register, REGISTER_COUNT};

verus! {

/// Values that an `EnumSet` can hold: each has its own position below `spec_capacity`, which
/// is at most 64, and every position below it belongs to a value.
pub trait SetElement: Sized + Copy {
    spec fn spec_position(self) -> nat;

    spec fn spec_capacity() -> nat;

    fn capacity() -> (r: u32)
        ensures
            r == Self::spec_capacity(),
            r <= 64,
    ;

    fn position(self) -> (r: u32)
        ensures
            r == self.spec_position(),
            r < Self::spec_capacity(),
    ;

    fn from_position(position: u32) -> (r: Self)
        requires
            position < Self::spec_capacity(),
        ensures
            r.spec_position() == position,
    ;

    /// Positions lie below the capacity, and a position names one value.
    proof fn lemma_positions(a: Self, b: Self)
        ensures
            a.spec_position() < Self::spec_capacity() <= 64,
            a.spec_position() == b.spec_position() ==> a == b,
    ;
}

impl SetElement for Register {
    open spec fn spec_position(self) -> nat {
        self.index() as nat
    }

    open spec fn spec_capacity() -> nat {
        REGISTER_COUNT as nat
    }

    fn capacity() -> (r: u32) {
        34
    }

    fn position(self) -> (r: u32) {
        self.to_index() as u32
    }

    fn from_position(position: u32) -> (r: Register) {
        Register::from_index(position as usize)
    }

    proof fn lemma_positions(a: Self, b: Self) {
    }
}

/// A set of values of an enumeration, one bit per position.
pub struct EnumSet<T> {
    bits: u64,
    marker: core::marker::PhantomData<T>,
}

/// No bit of zero is set.
proof fn lemma_no_bits(index: u32)
    by (bit_vector)
    requires
        index < 64,
    ensures
        !bit_u64(0, index),
{
}

/// The number of set bits of `x` below bit `n`.
pub open spec fn count_bits(x: u64, n: nat) -> nat
    decreases n,
{
    if n == 0 {
        0
    } else {
        count_bits(x, (n - 1) as nat) + if bit_u64(x, (n - 1) as u32) {
            1nat
        } else {
            0nat
        }
    }
}

impl<T: SetElement> EnumSet<T> {
    /// The bits of the set.
    pub closed spec fn bits(self) -> u64 {
        self.bits
    }

    /// Whether `value` is in the set.
    pub open spec fn has(self, value: T) -> bool {
        bit_u64(self.bits(), value.spec_position() as u32)
    }

    /// Only the bits of positions below the capacity are set.
    pub open spec fn wf(self) -> bool {
        forall|i: u32| T::spec_capacity() <= i < 64 ==> !#[trigger] bit_u64(self.bits(), i)
    }

    /// The empty set.
    pub fn new() -> (r: Self)
        ensures
            r.wf(),
            forall|v: T| !#[trigger] r.has(v),
            r.bits() == 0,
    {
        let r = EnumSet { bits: 0, marker: core::marker::PhantomData };
        assert forall|v: T| !#[trigger] r.has(v) by {
            T::lemma_positions(v, v);
            lemma_no_bits(v.spec_position() as u32);
        }
        assert forall|i: u32| T::spec_capacity() <= i < 64 implies !#[trigger] bit_u64(r.bits(), i) by {
            lemma_no_bits(i);
        }
        r
    }

    /// Whether the set holds no value.
    pub fn is_empty(&self) -> (r: bool)
        requires
            self.wf(),
        ensures
            r == (forall|v: T| !#[trigger] self.has(v)),
    {
        let capacity = T::capacity();
        let mut p: u32 = 0;
        while p < capacity
            invariant
                p <= capacity,
                capacity == T::spec_capacity(),
                capacity <= 64,
                forall|v: T| #[trigger] v.spec_position() < p ==> !self.has(v),
            decreases capacity - p,
        {
            if self.bits.bit(p) {
                let v = T::from_position(p);
                assert(self.has(v));
                return false;
            }
            assert forall|v: T| #[trigger] v.spec_position() < p + 1 implies !self.has(v) by {
                if v.spec_position() == p {
                } else {
                }
            }
            p = p + 1;
        }
        assert forall|v: T| !#[trigger] self.has(v) by {
            T::lemma_positions(v, v);
        }
        true
    }

    /// The number of values in the set.
    pub fn len(&self) -> (r: usize)
        requires
            self.wf(),
        ensures
            r == count_bits(self.bits(), 64),
    {
        let mut count: usize = 0;
        let mut p: u32 = 0;
        while p < 64
            invariant
                p <= 64,
                count == count_bits(self.bits(), p as nat),
                count <= p,
            decreases 64 - p,
        {
            if self.bits.bit(p) {
                count = count + 1;
            }
            p = p + 1;
        }
        count
    }

    /// Whether `value` is in the set.
    pub fn contains(&self, value: T) -> (r: bool)
        ensures
            r == self.has(value),
    {
        proof {
            T::lemma_positions(value, value);
        }
        self.bits.bit(value.position())
    }

    /// Adds `value` to the set.
    pub fn insert(&mut self, value: T)
        requires
            old(self).wf(),
        ensures
            final(self).wf(),
            forall|v: T| #[trigger] final(self).has(v) == (v == value || old(self).has(v)),
    {
        let position = value.position();
        proof {
            T::lemma_positions(value, value);
        }
        self.bits.set_bit(position, true);
        proof {
            assert forall|v: T| #[trigger] self.has(v) == (v == value || old(self).has(v)) by {
                T::lemma_positions(v, value);
                T::lemma_positions(value, v);
                law_set_bit_u64(old(self).bits, position, v.spec_position() as u32, true);
            }
            assert forall|i: u32| T::spec_capacity() <= i < 64 implies !#[trigger] bit_u64(
                self.bits(),
                i,
            ) by {
                assert(!bit_u64(old(self).bits(), i));
                law_set_bit_u64(old(self).bits, position, i, true);
            }
        }
    }

    /// Removes `value` from the set.
    pub fn remove(&mut self, value: T)
        requires
            old(self).wf(),
        ensures
            final(self).wf(),
            forall|v: T| #[trigger] final(self).has(v) == (v != value && old(self).has(v)),
    {
        let position = value.position();
        proof {
            T::lemma_positions(value, value);
        }
        self.bits.set_bit(position, false);
        proof {
            assert forall|v: T| #[trigger] self.has(v) == (v != value && old(self).has(v)) by {
                T::lemma_positions(v, value);
                T::lemma_positions(value, v);
                law_set_bit_u64(old(self).bits, position, v.spec_position() as u32, false);
            }
            assert forall|i: u32| T::spec_capacity() <= i < 64 implies !#[trigger] bit_u64(
                self.bits(),
                i,
            ) by {
                assert(!bit_u64(old(self).bits(), i));
                law_set_bit_u64(old(self).bits, position, i, false);
            }
        }
    }

    /// The values of the set, by increasing position.
    pub fn iter(&self) -> (r: Vec<T>)
        requires
            self.wf(),
        ensures
            forall|v: T| #[trigger] self.has(v) <==> r@.contains(v),
            forall|i: int, j: int|
                0 <= i < j < r@.len() ==> r@[i].spec_position() < r@[j].spec_position(),
    {
        let capacity = T::capacity();
        let mut result: Vec<T> = Vec::new();
        let mut p: u32 = 0;
        while p < capacity
            invariant
                p <= capacity,
                capacity == T::spec_capacity(),
                capacity <= 64,
                forall|k: int| 0 <= k < result@.len() ==> #[trigger] result@[k].spec_position() < p,
                forall|k: int| 0 <= k < result@.len() ==> self.has(#[trigger] result@[k]),
                forall|v: T| #[trigger] v.spec_position() < p && self.has(v) ==> result@.contains(v),
                forall|i: int, j: int|
                    0 <= i < j < result@.len() ==> result@[i].spec_position()
                        < result@[j].spec_position(),
            decreases capacity - p,
        {
            if self.bits.bit(p) {
                let v = T::from_position(p);
                let ghost before = result@;
                result.push(v);
                assert forall|w: T| #[trigger] w.spec_position() < p + 1 && self.has(w)
                    implies result@.contains(w) by {
                    T::lemma_positions(w, v);
                    if w.spec_position() == p {
                        assert(result@[result@.len() - 1] == w);
                    } else {
                        let k = choose|k: int| 0 <= k < before.len() && before[k] == w;
                        assert(result@[k] == w);
                    }
                }
            } else {
                assert forall|w: T| #[trigger] w.spec_position() < p + 1 && self.has(w)
                    implies result@.contains(w) by {
                }
            }
            p = p + 1;
        }
        assert forall|v: T| #[trigger] self.has(v) <==> result@.contains(v) by {
            T::lemma_positions(v, v);
            if result@.contains(v) {
                let k = choose|k: int| 0 <= k < result@.len() && result@[k] == v;
                assert(self.has(result@[k]));
            }
        }
        result
    }
}

} // verus!
