use vstd::prelude::*;

use super::control;
use super::fpu;
use super::instruction_gen::Instruction;
use super::register::Register;
use crate::bits::SignExtend;

verus! {

/// A register that an instruction reads or writes, in any of the register files.
#[derive(Debug, PartialEq, Eq, Structural, Copy, Clone)]
pub enum Occurrence {
    Core(Register),
    Control(control::Register),
    Fpu(fpu::Register),
}

impl Occurrence {
    /// `None` for the hard-wired zero register, the occurrence itself otherwise.
    pub open spec fn spec_non_zero(self) -> Option<Self> {
        match self {
            Occurrence::Core(Register::Zero) => None,
            _ => Some(self),
        }
    }

    pub fn non_zero(self) -> (r: Option<Self>)
        ensures
            r == self.spec_non_zero(),
    {
        match self {
            Occurrence::Core(register) => match register.non_zero() {
                Some(register) => Some(Occurrence::Core(register)),
                None => None,
            },
            Occurrence::Control(register) => Some(Occurrence::Control(register)),
            Occurrence::Fpu(register) => Some(Occurrence::Fpu(register)),
        }
    }
}

/// The occurrences listed before the first empty slot of `raw`, without the zero register.
pub open spec fn listed_occurrences(raw: Seq<Option<Occurrence>>) -> Seq<Occurrence>
    decreases raw.len(),
{
    if raw.len() == 0 {
        Seq::empty()
    } else {
        match raw[0] {
            None => Seq::empty(),
            Some(occurrence) => match occurrence.spec_non_zero() {
                Some(kept) => seq![kept].add(listed_occurrences(raw.drop_first())),
                None => listed_occurrences(raw.drop_first()),
            },
        }
    }
}

/// What slot `slot` contributes to `listed_occurrences` when no empty slot comes before it.
pub open spec fn slot_occurrences(slot: Option<Occurrence>) -> Seq<Occurrence> {
    match slot {
        Some(occurrence) => match occurrence.spec_non_zero() {
            Some(kept) => seq![kept],
            None => Seq::empty(),
        },
        None => Seq::empty(),
    }
}

/// Extending a prefix without empty slots by one slot appends that slot's contribution.
proof fn lemma_listed_push(raw: Seq<Option<Occurrence>>, n: int)
    requires
        0 <= n < raw.len(),
        forall|i: int| 0 <= i < n ==> (#[trigger] raw[i]) is Some,
    ensures
        listed_occurrences(raw.subrange(0, n + 1)) == listed_occurrences(raw.subrange(0, n)).add(
            slot_occurrences(raw[n]),
        ),
    decreases n,
{
    let longer = raw.subrange(0, n + 1);
    let shorter = raw.subrange(0, n);
    if n == 0 {
        assert(longer.drop_first() =~= Seq::empty());
        assert(shorter =~= Seq::empty());
    } else {
        let rest = raw.drop_first();
        assert forall|i: int| 0 <= i < n - 1 implies (#[trigger] rest[i]) is Some by {
            assert(raw[i + 1] is Some);
        }
        lemma_listed_push(rest, n - 1);
        assert(longer.drop_first() =~= rest.subrange(0, n));
        assert(shorter.drop_first() =~= rest.subrange(0, n - 1));
        assert(raw[0] is Some);
        assert(longer[0] == raw[0]);
        assert(shorter[0] == raw[0]);
        assert(rest[n - 1] == raw[n]);
        match raw[0] {
            Some(occurrence) => match occurrence.spec_non_zero() {
                Some(kept) => {
                    assert(seq![kept].add(listed_occurrences(rest.subrange(0, n - 1))).add(
                        slot_occurrences(raw[n]),
                    ) =~= seq![kept].add(
                        listed_occurrences(rest.subrange(0, n - 1)).add(slot_occurrences(raw[n])),
                    ));
                },
                None => {},
            },
            None => {},
        }
    }
}

/// The slots after the first empty one do not contribute to `listed_occurrences`.
proof fn lemma_listed_stop(raw: Seq<Option<Occurrence>>, n: int)
    requires
        0 <= n < raw.len(),
        forall|i: int| 0 <= i < n ==> (#[trigger] raw[i]) is Some,
        raw[n] is None,
    ensures
        listed_occurrences(raw) == listed_occurrences(raw.subrange(0, n)),
    decreases n,
{
    let shorter = raw.subrange(0, n);
    if n == 0 {
        assert(shorter =~= Seq::empty());
    } else {
        let rest = raw.drop_first();
        assert forall|i: int| 0 <= i < n - 1 implies (#[trigger] rest[i]) is Some by {
            assert(raw[i + 1] is Some);
        }
        assert(rest[n - 1] == raw[n]);
        lemma_listed_stop(rest, n - 1);
        assert(shorter.drop_first() =~= rest.subrange(0, n - 1));
        assert(raw[0] is Some);
        assert(shorter[0] == raw[0]);
    }
}

/// The instruction word offset `offset`, counted in words from the delay slot, as a signed
/// 32-bit byte displacement.
pub open spec fn branch_displacement(offset: u16) -> u32 {
    <u16 as SignExtend<u32>>::spec_sign_extend(offset) << 2u32
}

impl Instruction {
    /// An instruction that has no effect: an unknown one, or a shift, add or or of a register
    /// into itself by zero.
    pub open spec fn spec_is_nop(self) -> bool {
        match self {
            Instruction::Unknown => true,
            Instruction::Sll(reg1, reg2, imm) => imm == 0 && reg1 == reg2,
            Instruction::Addiu(reg1, reg2, imm) => imm == 0 && reg1 == reg2,
            Instruction::Ori(reg1, reg2, imm) => imm == 0 && reg1 == reg2,
            _ => false,
        }
    }

    pub fn is_nop(&self) -> (r: bool)
        ensures
            r == self.spec_is_nop(),
    {
        match self {
            Instruction::Unknown => true,
            Instruction::Sll(reg1, reg2, imm) => *imm == 0 && reg1 == reg2,
            Instruction::Addiu(reg1, reg2, imm) => *imm == 0 && reg1 == reg2,
            Instruction::Ori(reg1, reg2, imm) => *imm == 0 && reg1 == reg2,
            _ => false,
        }
    }

    /// Where a branch or jump at `address` goes when taken: a branch adds its word offset to the
    /// address of its delay slot; a jump replaces the low 28 bits of the delay slot's address
    /// with its word target. `None` for every other instruction.
    pub open spec fn spec_branch_target(self, address: u32) -> Option<u32> {
        match self {
            Instruction::Bltz(_, offset)
            | Instruction::Bgez(_, offset)
            | Instruction::Beq(_, _, offset)
            | Instruction::Bne(_, _, offset)
            | Instruction::Blez(_, offset)
            | Instruction::Beql(_, _, offset)
            | Instruction::Bnel(_, _, offset) => Some(
                vstd::wrapping::u32_specs::wrapping_add(
                    vstd::wrapping::u32_specs::wrapping_add(address, 4),
                    branch_displacement(offset),
                ),
            ),
            Instruction::J(target) | Instruction::Jal(target) => Some(
                vstd::wrapping::u32_specs::wrapping_add(
                    vstd::wrapping::u32_specs::wrapping_add(address, 4) & 0xF000_0000,
                    (target << 2u32) as u32,
                ),
            ),
            _ => None,
        }
    }

    pub fn branch_target(&self, address: u32) -> (r: Option<u32>)
        ensures
            r == self.spec_branch_target(address),
    {
        match self {
            Instruction::Bltz(_, offset)
            | Instruction::Bgez(_, offset)
            | Instruction::Beq(_, _, offset)
            | Instruction::Bne(_, _, offset)
            | Instruction::Blez(_, offset)
            | Instruction::Beql(_, _, offset)
            | Instruction::Bnel(_, _, offset) => {
                let offset: u32 = (*offset).sign_extend();
                Some(address.wrapping_add(4).wrapping_add(offset << 2))
            },
            Instruction::J(target) | Instruction::Jal(target) => {
                Some((address.wrapping_add(4) & 0xF000_0000).wrapping_add(*target << 2))
            },
            _ => None,
        }
    }

    /// The registers the instruction writes, without the zero register.
    pub open spec fn spec_definitions(self) -> Seq<Occurrence> {
        listed_occurrences(self.spec_raw_definitions())
    }

    /// The registers the instruction reads, without the zero register.
    pub open spec fn spec_uses(self) -> Seq<Occurrence> {
        listed_occurrences(self.spec_raw_uses())
    }

    pub fn definitions(&self) -> (r: Vec<Occurrence>)
        ensures
            r@ == self.spec_definitions(),
    {
        let raw = self.raw_definitions();
        collect_occurrences(&raw)
    }

    pub fn uses(&self) -> (r: Vec<Occurrence>)
        ensures
            r@ == self.spec_uses(),
    {
        let raw = self.raw_uses();
        collect_occurrences(&raw)
    }
}

/// The non-zero occurrences before the first empty slot of `raw`.
fn collect_occurrences(raw: &[Option<Occurrence>]) -> (r: Vec<Occurrence>)
    ensures
        r@ == listed_occurrences(raw@),
{
    let mut result: Vec<Occurrence> = Vec::new();
    let mut i: usize = 0;
    while i < raw.len()
        invariant
            i <= raw@.len(),
            forall|j: int| 0 <= j < i ==> (#[trigger] raw@[j]) is Some,
            result@ == listed_occurrences(raw@.subrange(0, i as int)),
        decreases raw.len() - i,
    {
        match raw[i] {
            None => {
                proof {
                    lemma_listed_stop(raw@, i as int);
                }
                return result;
            },
            Some(occurrence) => {
                proof {
                    lemma_listed_push(raw@, i as int);
                }
                match occurrence.non_zero() {
                    Some(kept) => result.push(kept),
                    None => {},
                }
            },
        }
        i += 1;
    }
    assert(raw@.subrange(0, raw@.len() as int) == raw@);
    result
}

/// An operation of the `CACHE` instruction.
#[derive(Debug, PartialEq, Eq, Structural, Clone, Copy)]
pub enum CacheOperation {
    IXLTG,
    IXLDT,
    BXLBT,
    IXSTG,
    IXSDT,
    BXSBT,
    IXIN,
    BHINBT,
    IHIN,
    BFH,
    IFL,
    DXLTG,
    DXLDT,
    DXSTG,
    DXSDT,
    DXWBIN,
    DXIN,
    DHWBIN,
    DHIN,
    DHWOIN,
}

/// Whether `code` is the five-bit code of a cache operation.
pub open spec fn is_cache_operation_code(code: u32) -> bool {
code == 0b00000 || code == 0b00001 || code == 0b00010 || code == 0b00100 || code == 0b00101 || code == 0b00110 || code == 0b00111 || code == 0b01010 || code == 0b01011 || code == 0b01100 || code == 0b01110 || code == 0b10000 || code == 0b10001 || code == 0b10010 || code == 0b10011 || code == 0b10100 || code == 0b10110 || code == 0b11000 || code == 0b11010 || code == 0b11100
}

impl CacheOperation {
    /// The operation's five-bit code.
    pub open spec fn code(self) -> u32 {
        match self {
            CacheOperation::IXLTG => 0b00000,
            CacheOperation::IXLDT => 0b00001,
            CacheOperation::BXLBT => 0b00010,
            CacheOperation::IXSTG => 0b00100,
            CacheOperation::IXSDT => 0b00101,
            CacheOperation::BXSBT => 0b00110,
            CacheOperation::IXIN => 0b00111,
            CacheOperation::BHINBT => 0b01010,
            CacheOperation::IHIN => 0b01011,
            CacheOperation::BFH => 0b01100,
            CacheOperation::IFL => 0b01110,
            CacheOperation::DXLTG => 0b10000,
            CacheOperation::DXLDT => 0b10001,
            CacheOperation::DXSTG => 0b10010,
            CacheOperation::DXSDT => 0b10011,
            CacheOperation::DXWBIN => 0b10100,
            CacheOperation::DXIN => 0b10110,
            CacheOperation::DHWBIN => 0b11000,
            CacheOperation::DHIN => 0b11010,
            CacheOperation::DHWOIN => 0b11100,
        }
    }

    /// The operation whose code is the low five bits of `value`.
    pub fn from_u32(value: u32) -> (r: CacheOperation)
        requires
            is_cache_operation_code(value & 0b11111),
        ensures
            r.code() == value & 0b11111,
    {
        match value & 0b11111 {
            0b00000 => CacheOperation::IXLTG,
            0b00001 => CacheOperation::IXLDT,
            0b00010 => CacheOperation::BXLBT,
            0b00100 => CacheOperation::IXSTG,
            0b00101 => CacheOperation::IXSDT,
            0b00110 => CacheOperation::BXSBT,
            0b00111 => CacheOperation::IXIN,
            0b01010 => CacheOperation::BHINBT,
            0b01011 => CacheOperation::IHIN,
            0b01100 => CacheOperation::BFH,
            0b01110 => CacheOperation::IFL,
            0b10000 => CacheOperation::DXLTG,
            0b10001 => CacheOperation::DXLDT,
            0b10010 => CacheOperation::DXSTG,
            0b10011 => CacheOperation::DXSDT,
            0b10100 => CacheOperation::DXWBIN,
            0b10110 => CacheOperation::DXIN,
            0b11000 => CacheOperation::DHWBIN,
            0b11010 => CacheOperation::DHIN,
            _ => CacheOperation::DHWOIN,
        }
    }

    /// The operation's mnemonic.
    pub open spec fn spec_name(self) -> Seq<char> {
        match self {
            CacheOperation::IXLTG => "IXLTG"@,
            CacheOperation::IXLDT => "IXLDT"@,
            CacheOperation::BXLBT => "BXLBT"@,
            CacheOperation::IXSTG => "IXSTG"@,
            CacheOperation::IXSDT => "IXSDT"@,
            CacheOperation::BXSBT => "BXSBT"@,
            CacheOperation::IXIN => "IXIN"@,
            CacheOperation::BHINBT => "BHINBT"@,
            CacheOperation::IHIN => "IHIN"@,
            CacheOperation::BFH => "BFH"@,
            CacheOperation::IFL => "IFL"@,
            CacheOperation::DXLTG => "DXLTG"@,
            CacheOperation::DXLDT => "DXLDT"@,
            CacheOperation::DXSTG => "DXSTG"@,
            CacheOperation::DXSDT => "DXSDT"@,
            CacheOperation::DXWBIN => "DXWBIN"@,
            CacheOperation::DXIN => "DXIN"@,
            CacheOperation::DHWBIN => "DHWBIN"@,
            CacheOperation::DHIN => "DHIN"@,
            CacheOperation::DHWOIN => "DHWOIN"@,
        }
    }

    /// The operation's mnemonic.
    pub fn name(self) -> (r: &'static str)
        ensures
            r@ == self.spec_name(),
    {
        match self {
            CacheOperation::IXLTG => "IXLTG",
            CacheOperation::IXLDT => "IXLDT",
            CacheOperation::BXLBT => "BXLBT",
            CacheOperation::IXSTG => "IXSTG",
            CacheOperation::IXSDT => "IXSDT",
            CacheOperation::BXSBT => "BXSBT",
            CacheOperation::IXIN => "IXIN",
            CacheOperation::BHINBT => "BHINBT",
            CacheOperation::IHIN => "IHIN",
            CacheOperation::BFH => "BFH",
            CacheOperation::IFL => "IFL",
            CacheOperation::DXLTG => "DXLTG",
            CacheOperation::DXLDT => "DXLDT",
            CacheOperation::DXSTG => "DXSTG",
            CacheOperation::DXSDT => "DXSDT",
            CacheOperation::DXWBIN => "DXWBIN",
            CacheOperation::DXIN => "DXIN",
            CacheOperation::DHWBIN => "DHWBIN",
            CacheOperation::DHIN => "DHIN",
            CacheOperation::DHWOIN => "DHWOIN",
        }
    }
}

} // verus!
