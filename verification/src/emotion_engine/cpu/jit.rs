use vstd::prelude::*;

use super::instruction_gen::Instruction;
use crate::emotion_engine::bus::PhysicalAddress;

verus! {

/// Largest number of entries the code cache holds.
pub const CODE_CACHE_MAX_SIZE: u16 = 0xFFFE;

/// A slot of the table from instruction addresses to code cache entries, packed in 16 bits:
/// 0 for no entry, `i + 1` for entry `i`.
#[derive(Clone, Copy)]
pub struct CacheIndex(u16);

/// What a `CacheIndex` says.
#[derive(Debug, PartialEq, Eq, Structural, Clone, Copy)]
pub enum CacheIndexView {
    NotCached,
    Cached(u16),
}

impl CacheIndex {
    /// The entry the slot names, if any.
    pub closed spec fn entry(self) -> CacheIndexView {
        if self.0 == 0 {
            CacheIndexView::NotCached
        } else {
            CacheIndexView::Cached((self.0 - 1) as u16)
        }
    }

    /// The slot of an address with no cached code.
    pub fn not_cached() -> (r: Self)
        ensures
            r.entry() == CacheIndexView::NotCached,
    {
        CacheIndex(0)
    }

    /// The slot of an address whose code is cache entry `index`.
    pub fn cached(index: u16) -> (r: Self)
        requires
            index < u16::MAX,
        ensures
            r.entry() == CacheIndexView::Cached(index),
    {
        CacheIndex(index + 1)
    }

    /// The entry the slot names, if any.
    pub fn view(self) -> (r: CacheIndexView)
        ensures
            r == self.entry(),
    {
        if self.0 == 0 {
            CacheIndexView::NotCached
        } else {
            CacheIndexView::Cached(self.0 - 1)
        }
    }
}

/// How the code at a cached address range runs: compiled machine code, given by the address
/// of its entry point, or one decoded instruction for the interpreter.
#[derive(Clone, Copy)]
pub enum Code {
    Jitted(usize),
    Interpreted(Instruction),
}

/// A code cache entry: the physical address range it was made from, and its code.
pub struct CacheEntry {
    pub address_range: std::ops::Range<PhysicalAddress>,
    pub code: Code,
}

} // verus!
