use vstd::prelude::*;

use crate::bits::{
    bit_u32, bits_u128, bits_u32, mask_u64, set_bit_u128, set_bits_u128, Bits, SignExtend,
};
use vstd::wrapping::{u32_specs, u64_specs};
use crate::emotion_engine::cpu::instruction_gen::{spec_decode, Instruction};
use crate::emotion_engine::cpu::register::{Register, UPPER_MASK};
use crate::bytes::Bytes;
use crate::emotion_engine::bus::{Bus, PhysicalAddress};
use crate::emotion_engine::cpu::mmu::{
    mapped_entry, unmapped_entry, TlbEntry, OFFSET_MASK, PAGE_SIZE, TLB_ENTRIES,
};
use crate::emotion_engine::cpu::{control, fpu, Mode};
use crate::emotion_engine::cpu::{Core, State};

verus! {

/// Division rounding toward zero.
pub open spec fn truncating_div(a: int, b: int) -> int {
    let magnitude = magnitude(a) / magnitude(b);
    if (a >= 0) == (b > 0) {
        magnitude
    } else {
        -magnitude
    }
}

/// The absolute value.
pub open spec fn magnitude(a: int) -> int {
    if a < 0 {
        -a
    } else {
        a
    }
}

/// The quotient and remainder of the signed division of `a` by `b`, rounding toward zero.
fn divide(a: i32, b: i32) -> (r: (i32, i32))
    requires
        b != 0,
        !(a == i32::MIN && b == -1),
    ensures
        r.0 == truncating_div(a as int, b as int),
        r.1 == a - b * truncating_div(a as int, b as int),
{
    let ua: u32 = if a < 0 {
        (0 - (a as i64)) as u32
    } else {
        a as u32
    };
    let ub: u32 = if b < 0 {
        (0 - (b as i64)) as u32
    } else {
        b as u32
    };
    let q = ua / ub;
    let m = ua % ub;
    assert(ua == ub * q + m) by (nonlinear_arith)
        requires
            ub > 0,
            q == ua / ub,
            m == ua % ub,
    ;
    assert(q <= ua) by (nonlinear_arith)
        requires
            ub > 0,
            q == ua / ub,
    ;
    assert(q < 0x8000_0000 || (a == i32::MIN && (b == 1 || b == -1))) by (nonlinear_arith)
        requires
            ub > 0,
            q == ua / ub,
            ua <= 0x8000_0000,
            ua == magnitude(a as int),
            ub == magnitude(b as int),
    ;
    let quotient: i32 = if (a >= 0) == (b > 0) {
        q as i32
    } else {
        (0 - (q as i64)) as i32
    };
    let remainder: i32 = if a >= 0 {
        m as i32
    } else {
        (0 - (m as i64)) as i32
    };
    assert(remainder == a - b * quotient) by (nonlinear_arith)
        requires
            ua == magnitude(a as int),
            ub == magnitude(b as int),
            ua == ub * q + m,
            quotient == (if (a >= 0) == (b > 0) { q as int } else { -q }),
            remainder == (if a >= 0 { m as int } else { -m }),
    ;
    (quotient, remainder)
}


/// `value` widened from 16 to 32 bits, copying the sign bit.
pub open spec fn sext16_32(value: u16) -> u32 {
    if value < 0x8000 {
        value as u32
    } else {
        value as u32 | 0xFFFF_0000
    }
}

/// `value` widened from 16 to 64 bits, copying the sign bit.
pub open spec fn sext16(value: u16) -> u64 {
    if value < 0x8000 {
        value as u64
    } else {
        value as u64 | 0xFFFF_FFFF_FFFF_0000
    }
}

/// `value` widened from 32 to 64 bits, copying the sign bit.
pub open spec fn sext32(value: u32) -> u64 {
    if value < 0x8000_0000 {
        value as u64
    } else {
        value as u64 | 0xFFFF_FFFF_0000_0000
    }
}

/// The registers after the low 64 bits of `register` take `value`; the zero register keeps 0.
pub open spec fn assign(registers: Seq<u128>, register: Register, value: u64) -> Seq<u128> {
    if register == Register::Zero {
        registers
    } else {
        registers.update(
            register.index() as int,
            value as u128 | (registers[register.index() as int] & UPPER_MASK),
        )
    }
}

/// The registers after the upper 64 bits of `register` take `value`.
pub open spec fn assign_upper(registers: Seq<u128>, register: Register, value: u64) -> Seq<u128> {
    if register == Register::Zero {
        registers
    } else {
        registers.update(
            register.index() as int,
            bits_u128(registers[register.index() as int], 0, 64) | (value as u128) << 64,
        )
    }
}

/// The low 32 bits of a register.
pub open spec fn word(s: State, register: Register) -> u32 {
    s.gpr(register) as u32
}

/// The low 64 bits of a register.
pub open spec fn doubleword(s: State, register: Register) -> u64 {
    s.gpr(register) as u64
}

/// The address of the instruction after the current one: the branch target when the current
/// one is in a delay slot, else the next word.
pub open spec fn next_pc(s: State) -> u32 {
    match s.delayed_branch_target {
        Some(target) => target,
        None => (s.program_counter + 4) as u32,
    }
}

/// The target of a branch with 16-bit word offset `offset` from `next`.
pub open spec fn offset_target(next: u32, offset: u16) -> u32 {
    (next + ((sext16_32(offset) << 2u32) as u32)) as u32
}

/// The target of a jump to the 26-bit word index `target` in the 256 MiB region of `next`.
pub open spec fn region_target(next: u32, target: u32) -> u32 {
    ((next & 0xF000_0000u32) + ((target << 2u32) as u32)) as u32
}

/// The quotient and remainder of a signed word division as the core computes them: division
/// by zero gives the largest quotient and the dividend back; the one overflowing division
/// gives the dividend and no remainder.
pub open spec fn signed_division(dividend: i32, divisor: i32) -> (i32, i32) {
    if divisor == 0 {
        (i32::MAX, dividend)
    } else if dividend == i32::MIN && divisor == -1 {
        (i32::MIN, 0)
    } else {
        let q = truncating_div(dividend as int, divisor as int);
        (q as i32, (dividend - divisor * q) as i32)
    }
}

/// The quotient and remainder of an unsigned word division: division by zero gives all ones
/// and the dividend back.
pub open spec fn unsigned_division(dividend: u32, divisor: u32) -> (u32, u32) {
    if divisor == 0 {
        (0xFFFF_FFFFu32, dividend)
    } else {
        ((dividend / divisor) as u32, (dividend % divisor) as u32)
    }
}

/// The instructions that only compute on registers.
pub open spec fn is_computation(instruction: Instruction) -> bool {
    match instruction {
        Instruction::Sll(..) | Instruction::Srl(..) | Instruction::Sra(..) | Instruction::Sllv(..)
        | Instruction::Srlv(..) | Instruction::Srav(..) | Instruction::Movz(..)
        | Instruction::Movn(..) | Instruction::Mfhi(..) | Instruction::Mthi(..)
        | Instruction::Mflo(..) | Instruction::Mtlo(..) | Instruction::Mult(..)
        | Instruction::Multu(..) | Instruction::Div(..) | Instruction::Divu(..)
        | Instruction::Add(..) | Instruction::Addu(..) | Instruction::Sub(..)
        | Instruction::Subu(..) | Instruction::And(..) | Instruction::Or(..)
        | Instruction::Slt(..) | Instruction::Sltu(..) | Instruction::Daddu(..)
        | Instruction::Dsll(..) | Instruction::Dsrl(..) | Instruction::Dsll32(..)
        | Instruction::Dsrl32(..) | Instruction::Dsra32(..) | Instruction::Addi(..)
        | Instruction::Addiu(..) | Instruction::Slti(..) | Instruction::Sltiu(..)
        | Instruction::Andi(..) | Instruction::Ori(..) | Instruction::Xori(..)
        | Instruction::Lui(..) | Instruction::Div1(..) | Instruction::Divu1(..) => true,
        _ => false,
    }
}

/// The registers after a computation instruction.
pub open spec fn computed(s: State, instruction: Instruction) -> Seq<u128> {
    let r = s.registers@;
    match instruction {
        Instruction::Sll(rd, rt, sa) => assign(r, rd, sext32(word(s, rt) << (sa as u32))),
        Instruction::Srl(rd, rt, sa) => assign(r, rd, sext32(word(s, rt) >> (sa as u32))),
        Instruction::Sra(rd, rt, sa) => assign(
            r,
            rd,
            sext32(((word(s, rt) as i32) >> (sa as u32)) as u32),
        ),
        Instruction::Sllv(rd, rt, rs) => assign(
            r,
            rd,
            sext32(word(s, rt) << bits_u32(word(s, rs), 0, 5)),
        ),
        Instruction::Srlv(rd, rt, rs) => assign(
            r,
            rd,
            sext32(word(s, rt) >> bits_u32(word(s, rs), 0, 5)),
        ),
        Instruction::Srav(rd, rt, rs) => assign(
            r,
            rd,
            sext32(((word(s, rt) as i32) >> bits_u32(word(s, rs), 0, 5)) as u32),
        ),
        Instruction::Movz(rd, rs, rt) => if doubleword(s, rt) == 0 {
            assign(r, rd, doubleword(s, rs))
        } else {
            r
        },
        Instruction::Movn(rd, rs, rt) => if doubleword(s, rt) != 0 {
            assign(r, rd, doubleword(s, rs))
        } else {
            r
        },
        Instruction::Mfhi(rd) => assign(r, rd, doubleword(s, Register::Hi)),
        Instruction::Mthi(rs) => assign(r, Register::Hi, doubleword(s, rs)),
        Instruction::Mflo(rd) => assign(r, rd, doubleword(s, Register::Lo)),
        Instruction::Mtlo(rs) => assign(r, Register::Lo, doubleword(s, rs)),
        Instruction::Mult(rd, rs, rt) => {
            let product = u64_specs::wrapping_mul(sext32(word(s, rs)), sext32(word(s, rt)));
            let lo = sext32(product as u32);
            let hi = sext32((product >> 32u64) as u32);
            assign(assign(assign(r, rd, lo), Register::Lo, lo), Register::Hi, hi)
        },
        Instruction::Multu(rd, rs, rt) => {
            let product = u64_specs::wrapping_mul(word(s, rs) as u64, word(s, rt) as u64);
            let lo = sext32(product as u32);
            let hi = sext32((product >> 32u64) as u32);
            assign(assign(assign(r, rd, lo), Register::Lo, lo), Register::Hi, hi)
        },
        Instruction::Div(rs, rt) => {
            let (q, m) = signed_division(word(s, rs) as i32, word(s, rt) as i32);
            assign(assign(r, Register::Lo, sext32(q as u32)), Register::Hi, sext32(m as u32))
        },
        Instruction::Divu(rs, rt) => {
            let (q, m) = unsigned_division(word(s, rs), word(s, rt));
            assign(assign(r, Register::Lo, sext32(q)), Register::Hi, sext32(m))
        },
        Instruction::Div1(rs, rt) => {
            let (q, m) = signed_division(word(s, rs) as i32, word(s, rt) as i32);
            assign_upper(
                assign_upper(r, Register::Lo, sext32(q as u32)),
                Register::Hi,
                sext32(m as u32),
            )
        },
        Instruction::Divu1(rs, rt) => {
            let (q, m) = unsigned_division(word(s, rs), word(s, rt));
            assign_upper(assign_upper(r, Register::Lo, sext32(q)), Register::Hi, sext32(m))
        },
        Instruction::Add(rd, rs, rt) | Instruction::Addu(rd, rs, rt) => assign(
            r,
            rd,
            sext32(u32_specs::wrapping_add(word(s, rs), word(s, rt))),
        ),
        Instruction::Sub(rd, rs, rt) | Instruction::Subu(rd, rs, rt) => assign(
            r,
            rd,
            sext32(u32_specs::wrapping_sub(word(s, rs), word(s, rt))),
        ),
        Instruction::And(rd, rs, rt) => assign(r, rd, doubleword(s, rs) & doubleword(s, rt)),
        Instruction::Or(rd, rs, rt) => assign(r, rd, doubleword(s, rs) | doubleword(s, rt)),
        Instruction::Slt(rd, rs, rt) => assign(
            r,
            rd,
            if (doubleword(s, rs) as i64) < (doubleword(s, rt) as i64) {
                1
            } else {
                0
            },
        ),
        Instruction::Sltu(rd, rs, rt) => assign(
            r,
            rd,
            if doubleword(s, rs) < doubleword(s, rt) {
                1
            } else {
                0
            },
        ),
        Instruction::Daddu(rd, rs, rt) => assign(
            r,
            rd,
            u64_specs::wrapping_add(doubleword(s, rs), doubleword(s, rt)),
        ),
        Instruction::Dsll(rd, rt, sa) => assign(r, rd, doubleword(s, rt) << (sa as u64)),
        Instruction::Dsrl(rd, rt, sa) => assign(r, rd, doubleword(s, rt) >> (sa as u64)),
        Instruction::Dsll32(rd, rt, sa) => assign(r, rd, doubleword(s, rt) << (sa + 32) as u64),
        Instruction::Dsrl32(rd, rt, sa) => assign(r, rd, doubleword(s, rt) >> (sa + 32) as u64),
        Instruction::Dsra32(rd, rt, sa) => assign(
            r,
            rd,
            ((doubleword(s, rt) as i64) >> (sa + 32) as u64) as u64,
        ),
        Instruction::Addi(rt, rs, imm) | Instruction::Addiu(rt, rs, imm) => assign(
            r,
            rt,
            sext32(u64_specs::wrapping_add(doubleword(s, rs), sext16(imm)) as u32),
        ),
        Instruction::Slti(rt, rs, imm) => assign(
            r,
            rt,
            if (doubleword(s, rs) as i64) < (sext16(imm) as i64) {
                1
            } else {
                0
            },
        ),
        Instruction::Sltiu(rt, rs, imm) => assign(
            r,
            rt,
            if doubleword(s, rs) < sext16(imm) {
                1
            } else {
                0
            },
        ),
        Instruction::Andi(rt, rs, imm) => assign(r, rt, doubleword(s, rs) & (imm as u64)),
        Instruction::Ori(rt, rs, imm) => assign(r, rt, doubleword(s, rs) | (imm as u64)),
        Instruction::Xori(rt, rs, imm) => assign(r, rt, doubleword(s, rs) ^ (imm as u64)),
        Instruction::Lui(rt, imm) => assign(r, rt, sext32((imm as u32) << 16u32)),
        _ => r,
    }
}

/// Whether a computation instruction can be carried out: its shift amounts are in range.
pub open spec fn computation_supported(instruction: Instruction) -> bool {
    match instruction {
        Instruction::Sll(_, _, sa) | Instruction::Srl(_, _, sa) | Instruction::Sra(_, _, sa)
        | Instruction::Dsll32(_, _, sa) | Instruction::Dsrl32(_, _, sa)
        | Instruction::Dsra32(_, _, sa) => sa < 32,
        Instruction::Dsll(_, _, sa) | Instruction::Dsrl(_, _, sa) => sa < 64,
        _ => true,
    }
}

impl Core {
    /// Carries out a computation instruction on the registers.
    fn compute(&mut self, instruction: Instruction)
        requires
            is_computation(instruction),
            computation_supported(instruction),
        ensures
            final(self).state.registers@ == computed(old(self).state, instruction),
            final(self).state.program_counter == old(self).state.program_counter,
            final(self).state.control == old(self).state.control,
            final(self).state.fpu == old(self).state.fpu,
            final(self).state.delayed_branch_target == old(self).state.delayed_branch_target,
            final(self).mode == old(self).mode,
            final(self).mmu == old(self).mmu,
            final(self).main_thread_stack_pointer == old(self).main_thread_stack_pointer,
    {
        match instruction {
            Instruction::Sll(..) | Instruction::Srl(..) | Instruction::Sra(..) | Instruction::Sllv(..) | Instruction::Srlv(..) | Instruction::Srav(..) | Instruction::Dsll(..) | Instruction::Dsrl(..) | Instruction::Dsll32(..) | Instruction::Dsrl32(..) | Instruction::Dsra32(..) => self.compute_shift(instruction),
            Instruction::Movz(..) | Instruction::Movn(..) | Instruction::Mfhi(..) | Instruction::Mthi(..) | Instruction::Mflo(..) | Instruction::Mtlo(..) => self.compute_move(instruction),
            Instruction::Mult(..) | Instruction::Multu(..) | Instruction::Div(..) | Instruction::Divu(..) | Instruction::Div1(..) | Instruction::Divu1(..) => self.compute_multiply_divide(instruction),
            Instruction::Add(..) | Instruction::Addu(..) | Instruction::Sub(..) | Instruction::Subu(..) | Instruction::And(..) | Instruction::Or(..) | Instruction::Slt(..) | Instruction::Sltu(..) | Instruction::Daddu(..) => self.compute_arithmetic(instruction),
            Instruction::Addi(..) | Instruction::Addiu(..) | Instruction::Slti(..) | Instruction::Sltiu(..) | Instruction::Andi(..) | Instruction::Ori(..) | Instruction::Xori(..) | Instruction::Lui(..) => self.compute_immediate(instruction),
            _ => {},
        }
    }

    /// Carries out a shift.
    #[verifier::rlimit(100)]
    fn compute_shift(&mut self, instruction: Instruction)
        requires
            instruction is Sll || instruction is Srl || instruction is Sra || instruction is Sllv || instruction is Srlv || instruction is Srav || instruction is Dsll || instruction is Dsrl || instruction is Dsll32 || instruction is Dsrl32 || instruction is Dsra32,
            computation_supported(instruction),
        ensures
            final(self).state.registers@ == computed(old(self).state, instruction),
            final(self).state.program_counter == old(self).state.program_counter,
            final(self).state.control == old(self).state.control,
            final(self).state.fpu == old(self).state.fpu,
            final(self).state.delayed_branch_target == old(self).state.delayed_branch_target,
            final(self).mode == old(self).mode,
            final(self).mmu == old(self).mmu,
            final(self).main_thread_stack_pointer == old(self).main_thread_stack_pointer,
    {
        match instruction {
            Instruction::Sll(rd, rt, shamt) => {
                let value = self.get_register::<u32>(rt) << (shamt as u32);
                self.set_register::<u64>(rd, value.sign_extend());
            },
            Instruction::Srl(rd, rt, shamt) => {
                let value = self.get_register::<u32>(rt) >> (shamt as u32);
                self.set_register::<u64>(rd, value.sign_extend());
            },
            Instruction::Sra(rd, rt, shamt) => {
                let value = (self.get_register::<u32>(rt) as i32) >> (shamt as u32);
                self.set_register::<u64>(rd, value.sign_extend());
            },
            Instruction::Sllv(rd, rt, rs) => {
                let amount = self.get_register::<u32>(rs).bits(0, 5);
                proof {
                    lemma_field_bounds(word(self.state, rs));
                }
                let value = self.get_register::<u32>(rt) << amount;
                self.set_register::<u64>(rd, value.sign_extend());
            },
            Instruction::Srlv(rd, rt, rs) => {
                let amount = self.get_register::<u32>(rs).bits(0, 5);
                proof {
                    lemma_field_bounds(word(self.state, rs));
                }
                let value = self.get_register::<u32>(rt) >> amount;
                self.set_register::<u64>(rd, value.sign_extend());
            },
            Instruction::Srav(rd, rt, rs) => {
                let amount = self.get_register::<u32>(rs).bits(0, 5);
                proof {
                    lemma_field_bounds(word(self.state, rs));
                }
                let value = (self.get_register::<u32>(rt) as i32) >> amount;
                self.set_register::<u64>(rd, value.sign_extend());
            },
            Instruction::Dsll(rd, rt, shamt) => {
                let value = self.get_register::<u64>(rt) << (shamt as u64);
                self.set_register(rd, value);
            },
            Instruction::Dsrl(rd, rt, shamt) => {
                let value = self.get_register::<u64>(rt) >> (shamt as u64);
                self.set_register(rd, value);
            },
            Instruction::Dsll32(rd, rt, shamt) => {
                let value = self.get_register::<u64>(rt) << ((shamt + 32) as u64);
                self.set_register(rd, value);
            },
            Instruction::Dsrl32(rd, rt, shamt) => {
                let value = self.get_register::<u64>(rt) >> ((shamt + 32) as u64);
                self.set_register(rd, value);
            },
            Instruction::Dsra32(rd, rt, shamt) => {
                let value = ((self.get_register::<u64>(rt) as i64) >> ((shamt + 32) as u64)) as u64;
                self.set_register(rd, value);
            },
            _ => {},
        }
    }

    /// Carries out a conditional move or a move to or from LO and HI.
    #[verifier::rlimit(100)]
    fn compute_move(&mut self, instruction: Instruction)
        requires
            instruction is Movz || instruction is Movn || instruction is Mfhi || instruction is Mthi || instruction is Mflo || instruction is Mtlo,
            computation_supported(instruction),
        ensures
            final(self).state.registers@ == computed(old(self).state, instruction),
            final(self).state.program_counter == old(self).state.program_counter,
            final(self).state.control == old(self).state.control,
            final(self).state.fpu == old(self).state.fpu,
            final(self).state.delayed_branch_target == old(self).state.delayed_branch_target,
            final(self).mode == old(self).mode,
            final(self).mmu == old(self).mmu,
            final(self).main_thread_stack_pointer == old(self).main_thread_stack_pointer,
    {
        match instruction {
            Instruction::Movz(rd, rs, rt) => {
                if self.get_register::<u64>(rt) == 0 {
                    let value = self.get_register::<u64>(rs);
                    self.set_register(rd, value);
                }
            },
            Instruction::Movn(rd, rs, rt) => {
                if self.get_register::<u64>(rt) != 0 {
                    let value = self.get_register::<u64>(rs);
                    self.set_register(rd, value);
                }
            },
            Instruction::Mfhi(rd) => {
                let value = self.get_register::<u64>(Register::Hi);
                self.set_register(rd, value);
            },
            Instruction::Mthi(rs) => {
                let value = self.get_register::<u64>(rs);
                self.set_register(Register::Hi, value);
            },
            Instruction::Mflo(rd) => {
                let value = self.get_register::<u64>(Register::Lo);
                self.set_register(rd, value);
            },
            Instruction::Mtlo(rs) => {
                let value = self.get_register::<u64>(rs);
                self.set_register(Register::Lo, value);
            },
            _ => {},
        }
    }

    /// Carries out a multiplication or division.
    #[verifier::rlimit(100)]
    fn compute_multiply_divide(&mut self, instruction: Instruction)
        requires
            instruction is Mult || instruction is Multu || instruction is Div || instruction is Divu || instruction is Div1 || instruction is Divu1,
            computation_supported(instruction),
        ensures
            final(self).state.registers@ == computed(old(self).state, instruction),
            final(self).state.program_counter == old(self).state.program_counter,
            final(self).state.control == old(self).state.control,
            final(self).state.fpu == old(self).state.fpu,
            final(self).state.delayed_branch_target == old(self).state.delayed_branch_target,
            final(self).mode == old(self).mode,
            final(self).mmu == old(self).mmu,
            final(self).main_thread_stack_pointer == old(self).main_thread_stack_pointer,
    {
        match instruction {
            Instruction::Mult(rd, rs, rt) => {
                let a: u64 = self.get_register::<u32>(rs).sign_extend();
                let b: u64 = self.get_register::<u32>(rt).sign_extend();
                let product = a.wrapping_mul(b);
                let lo: u64 = (product as u32).sign_extend();
                let hi: u64 = ((product >> 32u64) as u32).sign_extend();
                self.set_register(rd, lo);
                self.set_register(Register::Lo, lo);
                self.set_register(Register::Hi, hi);
            },
            Instruction::Multu(rd, rs, rt) => {
                let a = self.get_register::<u32>(rs) as u64;
                let b = self.get_register::<u32>(rt) as u64;
                let product = a.wrapping_mul(b);
                let lo: u64 = (product as u32).sign_extend();
                let hi: u64 = ((product >> 32u64) as u32).sign_extend();
                self.set_register(rd, lo);
                self.set_register(Register::Lo, lo);
                self.set_register(Register::Hi, hi);
            },
            Instruction::Div(rs, rt) => {
                let (quotient, remainder) = signed_divide(
                    self.get_register::<u32>(rs) as i32,
                    self.get_register::<u32>(rt) as i32,
                );
                self.set_register::<u64>(Register::Lo, quotient.sign_extend());
                self.set_register::<u64>(Register::Hi, remainder.sign_extend());
            },
            Instruction::Divu(rs, rt) => {
                let (quotient, remainder) = unsigned_divide(
                    self.get_register::<u32>(rs),
                    self.get_register::<u32>(rt),
                );
                self.set_register::<u64>(Register::Lo, quotient.sign_extend());
                self.set_register::<u64>(Register::Hi, remainder.sign_extend());
            },
            Instruction::Div1(rs, rt) => {
                let (quotient, remainder) = signed_divide(
                    self.get_register::<u32>(rs) as i32,
                    self.get_register::<u32>(rt) as i32,
                );
                self.set_upper::<u64>(Register::Lo, quotient.sign_extend());
                self.set_upper::<u64>(Register::Hi, remainder.sign_extend());
            },
            Instruction::Divu1(rs, rt) => {
                let (quotient, remainder) = unsigned_divide(
                    self.get_register::<u32>(rs),
                    self.get_register::<u32>(rt),
                );
                self.set_upper::<u64>(Register::Lo, quotient.sign_extend());
                self.set_upper::<u64>(Register::Hi, remainder.sign_extend());
            },
            _ => {},
        }
    }

    /// Carries out arithmetic, logic or a comparison on two registers.
    #[verifier::rlimit(100)]
    fn compute_arithmetic(&mut self, instruction: Instruction)
        requires
            instruction is Add || instruction is Addu || instruction is Sub || instruction is Subu || instruction is And || instruction is Or || instruction is Slt || instruction is Sltu || instruction is Daddu,
            computation_supported(instruction),
        ensures
            final(self).state.registers@ == computed(old(self).state, instruction),
            final(self).state.program_counter == old(self).state.program_counter,
            final(self).state.control == old(self).state.control,
            final(self).state.fpu == old(self).state.fpu,
            final(self).state.delayed_branch_target == old(self).state.delayed_branch_target,
            final(self).mode == old(self).mode,
            final(self).mmu == old(self).mmu,
            final(self).main_thread_stack_pointer == old(self).main_thread_stack_pointer,
    {
        match instruction {
            Instruction::Add(rd, rs, rt) | Instruction::Addu(rd, rs, rt) => {
                let value = self.get_register::<u32>(rs).wrapping_add(
                    self.get_register::<u32>(rt),
                );
                self.set_register::<u64>(rd, value.sign_extend());
            },
            Instruction::Sub(rd, rs, rt) | Instruction::Subu(rd, rs, rt) => {
                let value = self.get_register::<u32>(rs).wrapping_sub(
                    self.get_register::<u32>(rt),
                );
                self.set_register::<u64>(rd, value.sign_extend());
            },
            Instruction::And(rd, rs, rt) => {
                let value = self.get_register::<u64>(rs) & self.get_register::<u64>(rt);
                self.set_register(rd, value);
            },
            Instruction::Or(rd, rs, rt) => {
                let value = self.get_register::<u64>(rs) | self.get_register::<u64>(rt);
                self.set_register(rd, value);
            },
            Instruction::Slt(rd, rs, rt) => {
                let value: u64 = if (self.get_register::<u64>(rs) as i64) < (self.get_register::<
                    u64,
                >(rt) as i64) {
                    1
                } else {
                    0
                };
                self.set_register::<u64>(rd, value);
            },
            Instruction::Sltu(rd, rs, rt) => {
                let value: u64 = if self.get_register::<u64>(rs) < self.get_register::<u64>(rt) {
                    1
                } else {
                    0
                };
                self.set_register::<u64>(rd, value);
            },
            Instruction::Daddu(rd, rs, rt) => {
                let value = self.get_register::<u64>(rs).wrapping_add(
                    self.get_register::<u64>(rt),
                );
                self.set_register(rd, value);
            },
            _ => {},
        }
    }

    /// Carries out arithmetic, logic or a comparison with an immediate value.
    #[verifier::rlimit(100)]
    fn compute_immediate(&mut self, instruction: Instruction)
        requires
            instruction is Addi || instruction is Addiu || instruction is Slti || instruction is Sltiu || instruction is Andi || instruction is Ori || instruction is Xori || instruction is Lui,
            computation_supported(instruction),
        ensures
            final(self).state.registers@ == computed(old(self).state, instruction),
            final(self).state.program_counter == old(self).state.program_counter,
            final(self).state.control == old(self).state.control,
            final(self).state.fpu == old(self).state.fpu,
            final(self).state.delayed_branch_target == old(self).state.delayed_branch_target,
            final(self).mode == old(self).mode,
            final(self).mmu == old(self).mmu,
            final(self).main_thread_stack_pointer == old(self).main_thread_stack_pointer,
    {
        match instruction {
            Instruction::Addi(rt, rs, imm) | Instruction::Addiu(rt, rs, imm) => {
                let offset: u64 = imm.sign_extend();
                let temp = self.get_register::<u64>(rs).wrapping_add(offset);
                self.set_register::<u64>(rt, (temp as u32).sign_extend());
            },
            Instruction::Slti(rt, rs, imm) => {
                let imm: u64 = imm.sign_extend();
                let value: u64 = if (self.get_register::<u64>(rs) as i64) < imm as i64 {
                    1
                } else {
                    0
                };
                self.set_register::<u64>(rt, value);
            },
            Instruction::Sltiu(rt, rs, imm) => {
                let imm: u64 = imm.sign_extend();
                let value: u64 = if self.get_register::<u64>(rs) < imm {
                    1
                } else {
                    0
                };
                self.set_register::<u64>(rt, value);
            },
            Instruction::Andi(rt, rs, imm) => {
                let value = self.get_register::<u64>(rs) & (imm as u64);
                self.set_register::<u64>(rt, value);
            },
            Instruction::Ori(rt, rs, imm) => {
                let value = self.get_register::<u64>(rs) | (imm as u64);
                self.set_register::<u64>(rt, value);
            },
            Instruction::Xori(rt, rs, imm) => {
                let value = self.get_register::<u64>(rs) ^ (imm as u64);
                self.set_register::<u64>(rt, value);
            },
            Instruction::Lui(rt, imm) => {
                let value = (imm as u32) << 16u32;
                self.set_register::<u64>(rt, value.sign_extend());
            },
            _ => {},
        }
    }
}

/// A shift amount taken from the low five bits of a register is below 32, a TLB index taken
/// from the low six bits below 64.
proof fn lemma_field_bounds(x: u32)
    by (bit_vector)
    ensures
        bits_u32(x, 0, 5) < 32,
        bits_u32(x, 0, 6) < 64,
{
}

/// A 64-bit pattern read as a signed number is negative exactly when its top bit is set, and
/// two patterns compare as signed numbers as they compare unsigned with their top bits flipped.
proof fn lemma_signed_order(x: u64, y: u64)
    by (bit_vector)
    ensures
        (x as i64) < 0 <==> x >= 0x8000_0000_0000_0000u64,
        (x as i64) <= 0 <==> (x == 0 || x >= 0x8000_0000_0000_0000u64),
        (x as i64) >= 0 <==> x < 0x8000_0000_0000_0000u64,
        (x as i64) < (y as i64) <==> (x ^ 0x8000_0000_0000_0000u64) < (y
            ^ 0x8000_0000_0000_0000u64),
{
}

/// Signed word division as the core computes it.
fn signed_divide(dividend: i32, divisor: i32) -> (r: (i32, i32))
    ensures
        r == signed_division(dividend, divisor),
{
    if divisor == 0 {
        (i32::MAX, dividend)
    } else if dividend == i32::MIN && divisor == -1 {
        (i32::MIN, 0)
    } else {
        divide(dividend, divisor)
    }
}

/// Unsigned word division as the core computes it.
fn unsigned_divide(dividend: u32, divisor: u32) -> (r: (u32, u32))
    ensures
        r == unsigned_division(dividend, divisor),
{
    if divisor == 0 {
        (0xFFFF_FFFFu32, dividend)
    } else {
        (dividend / divisor, dividend % divisor)
    }
}


/// The core state after an instruction that sets the registers to `registers`, the delayed
/// branch target to `delayed` and the program counter to `next`, and changes nothing else.
pub open spec fn advanced(
    old: Core,
    new: Core,
    registers: Seq<u128>,
    delayed: Option<u32>,
    next: u32,
) -> bool {
    &&& new.state.registers@ == registers
    &&& new.state.program_counter == next
    &&& new.state.delayed_branch_target == delayed
    &&& new.state.control == old.state.control
    &&& new.state.fpu == old.state.fpu
    &&& new.mode == old.mode
    &&& new.mmu == old.mmu
    &&& new.main_thread_stack_pointer == old.main_thread_stack_pointer
}

/// The jumps and branches.
pub open spec fn is_branch(instruction: Instruction) -> bool {
    match instruction {
        Instruction::Jr(..) | Instruction::Jalr(..) | Instruction::Bltz(..) | Instruction::Bgez(..)
        | Instruction::J(..) | Instruction::Jal(..) | Instruction::Beq(..) | Instruction::Bne(..)
        | Instruction::Blez(..) | Instruction::Beql(..) | Instruction::Bnel(..) => true,
        _ => false,
    }
}

/// Whether a jump or branch is taken.
pub open spec fn branch_taken(s: State, instruction: Instruction) -> bool {
    match instruction {
        Instruction::Bltz(rs, _) => (doubleword(s, rs) as i64) < 0,
        Instruction::Bgez(rs, _) => (doubleword(s, rs) as i64) >= 0,
        Instruction::Blez(rs, _) => (doubleword(s, rs) as i64) <= 0,
        Instruction::Beq(rs, rt, _) | Instruction::Beql(rs, rt, _) => doubleword(s, rs)
            == doubleword(s, rt),
        Instruction::Bne(rs, rt, _) | Instruction::Bnel(rs, rt, _) => doubleword(s, rs)
            != doubleword(s, rt),
        _ => true,
    }
}

/// Where a jump or branch goes when taken.
pub open spec fn branch_destination(s: State, instruction: Instruction, next: u32) -> u32 {
    match instruction {
        Instruction::Jr(rs) | Instruction::Jalr(_, rs) => word(s, rs),
        Instruction::J(target) | Instruction::Jal(target) => region_target(next, target),
        Instruction::Bltz(_, offset) | Instruction::Bgez(_, offset) | Instruction::Blez(_, offset)
        | Instruction::Beq(_, _, offset) | Instruction::Bne(_, _, offset)
        | Instruction::Beql(_, _, offset) | Instruction::Bnel(_, _, offset) => offset_target(
            next,
            offset,
        ),
        _ => next,
    }
}

/// The registers after a jump or branch: the linking jumps store the return address.
pub open spec fn branch_registers(s: State, instruction: Instruction, next: u32) -> Seq<u128> {
    match instruction {
        Instruction::Jalr(rd, _) => assign(s.registers@, rd, (next + 4) as u64),
        Instruction::Jal(_) => assign(s.registers@, Register::Ra, (next + 4) as u64),
        _ => s.registers@,
    }
}

/// Whether a jump or branch can be carried out: a register target is word aligned, and the
/// return address or the skipped delay slot lies within the address space.
pub open spec fn branch_supported(s: State, instruction: Instruction, next: u32) -> bool {
    match instruction {
        Instruction::Jr(rs) => word(s, rs) % 4 == 0,
        Instruction::Jalr(_, rs) => word(s, rs) % 4 == 0 && next + 4 <= u32::MAX,
        Instruction::Jal(_) => next + 4 <= u32::MAX,
        Instruction::Beql(..) | Instruction::Bnel(..) => !branch_taken(s, instruction) ==> next
            + 4 <= u32::MAX,
        _ => true,
    }
}

/// Every branch target computed from an aligned address is aligned.
proof fn lemma_branch_alignment(next: u32, offset: u16, target: u32, x: u32)
    by (bit_vector)
    requires
        next % 4 == 0,
    ensures
        ((next + ((sext16_32(offset) << 2u32) as u32)) as u32) % 4 == 0,
        (((next & 0xF000_0000u32) + ((target << 2u32) as u32)) as u32) % 4 == 0,
        x & 3u32 == x % 4,
        x & !3u32 == x - x % 4,
        x & !15u32 == x - x % 16,
        x & 1u32 == x % 2,
        x & 7u32 == x % 8,
{
}

/// Wrapping addition is addition truncated to 32 bits.
proof fn lemma_wrapping_add(a: u32, b: u32)
    ensures
        u32_specs::wrapping_add(a, b) == (a + b) as u32,
{
    assert(a + b > u32::MAX ==> ((a + b - 0x1_0000_0000) as u32) == ((a + b) as u32)) by (
    bit_vector);
}

/// The address `offset` bytes from register `base`, wrapping.
pub open spec fn effective_address(s: State, base: Register, offset: u16) -> u32 {
    u32_specs::wrapping_add(word(s, base), sext16_32(offset))
}

/// The physical address of `address` in the core's present mode.
pub open spec fn translated(core: Core, address: u32) -> PhysicalAddress {
    PhysicalAddress(
        core.mmu.page_table(core.mode)[address as int / PAGE_SIZE as int].0 | (address
            & OFFSET_MASK),
    )
}

/// Whether the page of `address` is mapped in the core's present mode.
pub open spec fn mapped(core: Core, address: u32) -> bool {
    core.mmu.mapped_pages(core.mode)[address as int / PAGE_SIZE as int]
}

impl Core {
    /// Reads a `T` at the virtual address `address`.
    pub fn read_virtual<T: Bytes>(&self, bus: &Bus, address: u32) -> (r: T)
        requires
            self.wf(),
            bus.wf(),
            mapped(*self, address),
            bus.readable_physical::<T>(translated(*self, address)),
        ensures
            r == bus.spec_read_physical::<T>(translated(*self, address)),
    {
        let physical_address = self.mmu.virtual_to_physical(address, self.mode);
        bus.read_memory_or_scratchpad(physical_address)
    }

    /// Writes a `T` at the virtual address `address`.
    pub fn write_virtual<T: Bytes>(&self, bus: &mut Bus, address: u32, value: T)
        requires
            self.wf(),
            old(bus).wf(),
            mapped(*self, address),
            old(bus).writable_physical(translated(*self, address), value),
        ensures
            final(bus).wf(),
            Bus::written_physical(*old(bus), *final(bus), translated(*self, address), value),
    {
        let physical_address = self.mmu.virtual_to_physical(address, self.mode);
        bus.write_memory_or_scratchpad(physical_address, value);
    }

    /// Carries out a jump or branch with `next` as the address of the following instruction;
    /// `next` ends as the address after the delay slot's successor when a likely branch is
    /// not taken.
    fn branch(&mut self, instruction: Instruction, next: &mut u32)
        requires
            is_branch(instruction),
            branch_supported(old(self).state, instruction, *old(next)),
            *old(next) % 4 == 0,
            old(self).state.delayed_branch_target is None,
        ensures
            final(self).state.registers@ == branch_registers(old(self).state, instruction, *old(next)),
            final(self).state.delayed_branch_target == if branch_taken(old(self).state, instruction) {
                Some(branch_destination(old(self).state, instruction, *old(next)))
            } else {
                None
            },
            *final(next) == if !branch_taken(old(self).state, instruction) && (
            instruction is Beql || instruction is Bnel) {
                (*old(next) + 4) as u32
            } else {
                *old(next)
            },
            final(self).state.program_counter == old(self).state.program_counter,
            final(self).state.control == old(self).state.control,
            final(self).state.fpu == old(self).state.fpu,
            final(self).mode == old(self).mode,
            final(self).mmu == old(self).mmu,
            final(self).main_thread_stack_pointer == old(self).main_thread_stack_pointer,
            final(self).state.delayed_branch_target matches Some(t) ==> t % 4 == 0,
            *final(next) % 4 == 0,
    {
        let next_program_counter = *next;
        proof {
            lemma_branch_alignment(next_program_counter, 0, 0, 0);
        }
        match instruction {
            Instruction::Jr(rs) => {
                let target = self.get_register::<u32>(rs);
                self.state.set_delayed_branch_target(target);
            },
            Instruction::Jalr(rd, rs) => {
                let branch_target = self.get_register::<u32>(rs);
                self.set_register(rd, (next_program_counter + 4) as u64);
                self.state.set_delayed_branch_target(branch_target);
            },
            Instruction::Bltz(rs, offset) => {
                if (self.get_register::<u64>(rs) as i64) < 0 {
                    self.branch_by(next_program_counter, offset);
                }
            },
            Instruction::Bgez(rs, offset) => {
                if self.get_register::<u64>(rs) as i64 >= 0 {
                    self.branch_by(next_program_counter, offset);
                }
            },
            Instruction::J(target) => {
                proof {
                    lemma_branch_alignment(next_program_counter, 0, target, 0);
                    lemma_wrapping_add(next_program_counter & 0xF000_0000, target << 2u32);
                }
                self.state.set_delayed_branch_target(
                    (next_program_counter & 0xF000_0000).wrapping_add(target << 2u32),
                );
            },
            Instruction::Jal(target) => {
                proof {
                    lemma_branch_alignment(next_program_counter, 0, target, 0);
                    lemma_wrapping_add(next_program_counter & 0xF000_0000, target << 2u32);
                }
                self.set_register(Register::Ra, (next_program_counter + 4) as u64);
                self.state.set_delayed_branch_target(
                    (next_program_counter & 0xF000_0000).wrapping_add(target << 2u32),
                );
            },
            Instruction::Beq(rs, rt, offset) => {
                if self.get_register::<u64>(rs) == self.get_register::<u64>(rt) {
                    self.branch_by(next_program_counter, offset);
                }
            },
            Instruction::Bne(rs, rt, offset) => {
                if self.get_register::<u64>(rs) != self.get_register::<u64>(rt) {
                    self.branch_by(next_program_counter, offset);
                }
            },
            Instruction::Blez(rs, offset) => {
                if (self.get_register::<u64>(rs) as i64) <= 0 {
                    self.branch_by(next_program_counter, offset);
                }
            },
            Instruction::Beql(rs, rt, offset) => {
                if self.get_register::<u64>(rs) == self.get_register::<u64>(rt) {
                    self.branch_by(next_program_counter, offset);
                } else {
                    *next = next_program_counter + 4;
                }
            },
            Instruction::Bnel(rs, rt, offset) => {
                if self.get_register::<u64>(rs) != self.get_register::<u64>(rt) {
                    self.branch_by(next_program_counter, offset);
                } else {
                    *next = next_program_counter + 4;
                }
            },
            _ => {},
        }
    }

    /// Makes the branch to `offset` words from `next` the delayed branch.
    fn branch_by(&mut self, next: u32, offset: u16)
        requires
            next % 4 == 0,
        ensures
            final(self).state == (State {
                delayed_branch_target: Some(offset_target(next, offset)),
                ..old(self).state
            }),
            offset_target(next, offset) % 4 == 0,
            final(self).mode == old(self).mode,
            final(self).mmu == old(self).mmu,
            final(self).main_thread_stack_pointer == old(self).main_thread_stack_pointer,
    {
        proof {
            lemma_branch_alignment(next, offset, 0, 0);
        }
        let offset: u32 = offset.sign_extend();
        proof {
            lemma_wrapping_add(next, offset << 2u32);
        }
        self.state.set_delayed_branch_target(next.wrapping_add(offset << 2u32));
    }
}


/// The loads.
pub open spec fn is_load(instruction: Instruction) -> bool {
    match instruction {
        Instruction::Lb(..) | Instruction::Lh(..) | Instruction::Lw(..) | Instruction::Lbu(..)
        | Instruction::Lhu(..) | Instruction::Lwr(..) | Instruction::Lwc1(..)
        | Instruction::Ld(..) => true,
        _ => false,
    }
}

/// The stores.
pub open spec fn is_store(instruction: Instruction) -> bool {
    match instruction {
        Instruction::Sq(..) | Instruction::Sb(..) | Instruction::Sh(..) | Instruction::Sw(..)
        | Instruction::Swc1(..) | Instruction::Sd(..) => true,
        _ => false,
    }
}

/// The virtual address that a load or store accesses: a quadword store clears the low four
/// bits, the unaligned word load reads the aligned word that holds the address.
pub open spec fn access_address(s: State, instruction: Instruction) -> u32 {
    match instruction {
        Instruction::Lb(_, offset, base) | Instruction::Lh(_, offset, base)
        | Instruction::Lw(_, offset, base) | Instruction::Lbu(_, offset, base)
        | Instruction::Lhu(_, offset, base) | Instruction::Lwc1(_, offset, base)
        | Instruction::Ld(_, offset, base) | Instruction::Sb(_, offset, base)
        | Instruction::Sh(_, offset, base) | Instruction::Sw(_, offset, base)
        | Instruction::Swc1(_, offset, base) | Instruction::Sd(_, offset, base) => effective_address(
            s,
            base,
            offset,
        ),
        Instruction::Sq(_, offset, base) => {
            let address = effective_address(s, base, offset);
            (address - address % 16) as u32
        },
        Instruction::Lwr(_, offset, base) => {
            let address = effective_address(s, base, offset);
            (address - address % 4) as u32
        },
        _ => 0,
    }
}

/// The register value that `Lwr` leaves: the whole word when the address is aligned, else the
/// bytes of the memory word from the address on in the low bytes of the register.
pub open spec fn merged_right(existing: u64, memory_word: u32, byte: u32) -> u64 {
    if byte == 0 {
        sext32(memory_word)
    } else {
        (existing & mask_u64((byte * 8) as u32, 64)) | ((memory_word >> ((byte * 8) as u32)) as u64)
    }
}

/// Whether a load can be carried out: the address is aligned as the instruction demands, its
/// page is mapped and the bus accepts the read. The signed byte load `Lb` is never carried out:
/// no sign extension of a byte to a doubleword is offered.
pub open spec fn load_supported(core: Core, bus: Bus, instruction: Instruction) -> bool {
    let s = core.state;
    let address = access_address(s, instruction);
    let physical = translated(core, address);
    &&& mapped(core, address)
    &&& match instruction {
        Instruction::Lbu(..) => bus.readable_physical::<u8>(physical),
        Instruction::Lh(..) | Instruction::Lhu(..) => address % 2 == 0
            && bus.readable_physical::<u16>(physical),
        Instruction::Lw(..) | Instruction::Lwr(..) => address % 4 == 0
            && bus.readable_physical::<u32>(physical),
        Instruction::Lwc1(ft, ..) => ft.number() < 32 && address % 4 == 0
            && bus.readable_physical::<u32>(physical),
        Instruction::Ld(..) => address % 8 == 0 && bus.readable_physical::<u64>(physical),
        _ => false,
    }
}

/// The registers after a load that read from `bus`.
pub open spec fn load_registers(core: Core, bus: Bus, instruction: Instruction) -> Seq<u128> {
    let s = core.state;
    let physical = translated(core, access_address(s, instruction));
    let r = s.registers@;
    match instruction {
        Instruction::Lh(rt, ..) => assign(r, rt, sext16(bus.spec_read_physical::<u16>(physical))),
        Instruction::Lw(rt, ..) => assign(r, rt, sext32(bus.spec_read_physical::<u32>(physical))),
        Instruction::Lbu(rt, ..) => assign(r, rt, bus.spec_read_physical::<u8>(physical) as u64),
        Instruction::Lhu(rt, ..) => assign(r, rt, bus.spec_read_physical::<u16>(physical) as u64),
        Instruction::Lwr(rt, offset, base) => assign(
            r,
            rt,
            merged_right(
                doubleword(s, rt),
                bus.spec_read_physical::<u32>(physical),
                effective_address(s, base, offset) % 4,
            ),
        ),
        Instruction::Ld(rt, ..) => assign(r, rt, bus.spec_read_physical::<u64>(physical)),
        _ => r,
    }
}

/// The floating-point registers after a load that read from `bus`.
pub open spec fn load_fpu(core: Core, bus: Bus, instruction: Instruction) -> Seq<u32> {
    let s = core.state;
    match instruction {
        Instruction::Lwc1(ft, ..) => s.fpu@.update(
            ft.number() as int,
            bus.spec_read_physical::<u32>(translated(core, access_address(s, instruction))),
        ),
        _ => s.fpu@,
    }
}

/// Whether a store can be carried out: as for loads, with the value to be written.
pub open spec fn store_supported(core: Core, bus: Bus, instruction: Instruction) -> bool {
    let s = core.state;
    let address = access_address(s, instruction);
    let physical = translated(core, address);
    &&& mapped(core, address)
    &&& match instruction {
        Instruction::Sq(rt, ..) => bus.writable_physical(physical, s.gpr(rt)),
        Instruction::Sb(rt, ..) => bus.writable_physical(physical, s.gpr(rt) as u8),
        Instruction::Sh(rt, ..) => address % 2 == 0 && bus.writable_physical(
            physical,
            s.gpr(rt) as u16,
        ),
        Instruction::Sw(rt, ..) => address % 4 == 0 && bus.writable_physical(physical, word(s, rt)),
        Instruction::Swc1(ft, ..) => ft.number() < 32 && address % 4 == 0
            && bus.writable_physical(physical, s.fpu@[ft.number() as int]),
        Instruction::Sd(rt, ..) => address % 8 == 0 && bus.writable_physical(
            physical,
            doubleword(s, rt),
        ),
        _ => false,
    }
}

/// The bus after a store.
pub open spec fn stored_by(core: Core, old: Bus, new: Bus, instruction: Instruction) -> bool {
    let s = core.state;
    let physical = translated(core, access_address(s, instruction));
    match instruction {
        Instruction::Sq(rt, ..) => Bus::written_physical(old, new, physical, s.gpr(rt)),
        Instruction::Sb(rt, ..) => Bus::written_physical(old, new, physical, s.gpr(rt) as u8),
        Instruction::Sh(rt, ..) => Bus::written_physical(old, new, physical, s.gpr(rt) as u16),
        Instruction::Sw(rt, ..) => Bus::written_physical(old, new, physical, word(s, rt)),
        Instruction::Swc1(ft, ..) => Bus::written_physical(
            old,
            new,
            physical,
            s.fpu@[ft.number() as int],
        ),
        Instruction::Sd(rt, ..) => Bus::written_physical(old, new, physical, doubleword(s, rt)),
        _ => false,
    }
}


impl Core {
    /// Carries out a load.
    #[verifier::rlimit(100)]
    fn load(&mut self, instruction: Instruction, bus: &Bus)
        requires
            old(self).wf(),
            bus.wf(),
            is_load(instruction),
            load_supported(*old(self), *bus, instruction),
        ensures
            final(self).state.registers@ == load_registers(*old(self), *bus, instruction),
            final(self).state.fpu@ == load_fpu(*old(self), *bus, instruction),
            final(self).state.program_counter == old(self).state.program_counter,
            final(self).state.delayed_branch_target == old(self).state.delayed_branch_target,
            final(self).state.control == old(self).state.control,
            final(self).mode == old(self).mode,
            final(self).mmu == old(self).mmu,
            final(self).main_thread_stack_pointer == old(self).main_thread_stack_pointer,
            final(self).wf(),
    {
        match instruction {
            Instruction::Lh(rt, offset, base) => {
                let address = self.address(base, offset);
                let value = self.read_virtual::<u16>(bus, address);
                let value: u64 = value.sign_extend();
                self.set_register::<u64>(rt, value);
            },
            Instruction::Lw(rt, offset, base) => {
                let address = self.address(base, offset);
                let value = self.read_virtual::<u32>(bus, address);
                self.set_register::<u64>(rt, value.sign_extend());
            },
            Instruction::Lbu(rt, offset, base) => {
                let address = self.address(base, offset);
                let value = self.read_virtual::<u8>(bus, address);
                self.set_register(rt, value as u64);
            },
            Instruction::Lhu(rt, offset, base) => {
                let address = self.address(base, offset);
                let value = self.read_virtual::<u16>(bus, address);
                self.set_register(rt, value as u64);
            },
            Instruction::Lwr(rt, offset, base) => {
                let address = self.address(base, offset);
                proof {
                    lemma_branch_alignment(0, 0, 0, address);
                }
                let byte = address & 0b11;
                let memory_word = self.read_virtual::<u32>(bus, address & !0b11);
                let value = if byte == 0 {
                    memory_word.sign_extend()
                } else {
                    let existing = self.get_register::<u64>(rt);
                    existing & u64::mask(byte * 8, 64) | (memory_word >> (byte * 8)) as u64
                };
                self.set_register(rt, value);
            },
            Instruction::Lwc1(ft, offset, base) => {
                let address = self.address(base, offset);
                let value = self.read_virtual::<u32>(bus, address);
                self.state.fpu.set_register(ft, value);
            },
            Instruction::Ld(rt, offset, base) => {
                let address = self.address(base, offset);
                let value = self.read_virtual::<u64>(bus, address);
                self.set_register::<u64>(rt, value);
            },
            _ => {},
        }
    }

    /// Carries out a store.
    #[verifier::rlimit(100)]
    fn store(&self, instruction: Instruction, bus: &mut Bus)
        requires
            self.wf(),
            old(bus).wf(),
            is_store(instruction),
            store_supported(*self, *old(bus), instruction),
        ensures
            final(bus).wf(),
            stored_by(*self, *old(bus), *final(bus), instruction),
    {
        match instruction {
            Instruction::Sq(rt, offset, base) => {
                let mut address = self.address(base, offset);
                proof {
                    lemma_branch_alignment(0, 0, 0, address);
                }
                address &= !0b1111u32;
                let value = self.get_register::<u128>(rt);
                self.write_virtual(bus, address, value);
            },
            Instruction::Sb(rt, offset, base) => {
                let address = self.address(base, offset);
                let value = self.get_register::<u8>(rt);
                self.write_virtual(bus, address, value);
            },
            Instruction::Sh(rt, offset, base) => {
                let address = self.address(base, offset);
                let value = self.get_register::<u16>(rt);
                self.write_virtual(bus, address, value);
            },
            Instruction::Sw(rt, offset, base) => {
                let address = self.address(base, offset);
                let value = self.get_register::<u32>(rt);
                self.write_virtual(bus, address, value);
            },
            Instruction::Swc1(ft, offset, base) => {
                let address = self.address(base, offset);
                let value = self.state.fpu.get_register(ft);
                self.write_virtual(bus, address, value);
            },
            Instruction::Sd(rt, offset, base) => {
                let address = self.address(base, offset);
                let value = self.get_register::<u64>(rt);
                self.write_virtual(bus, address, value);
            },
            _ => {},
        }
    }

    /// The address `offset` bytes from register `base`.
    fn address(&self, base: Register, offset: u16) -> (r: u32)
        ensures
            r == effective_address(self.state, base, offset),
    {
        let offset: u32 = offset.sign_extend();
        self.get_register::<u32>(base).wrapping_add(offset)
    }
}


/// The instructions that reach the coprocessors, the TLB or the system.
pub open spec fn is_system(instruction: Instruction) -> bool {
    match instruction {
        Instruction::Unknown | Instruction::Syscall | Instruction::Sync | Instruction::Ei
        | Instruction::Mfc0(..) | Instruction::Mtc0(..) | Instruction::Mfc1(..)
        | Instruction::Mtc1(..) | Instruction::Movs(..) | Instruction::Tlbwi => true,
        _ => false,
    }
}

/// The TLB entry that `TLBWI` writes, from PageMask, EntryHi, EntryLo0 and EntryLo1: the page
/// mask, the even virtual page number without the masked bits, the global bit of both pages,
/// the address space identifier, and both page frame fields.
pub open spec fn written_entry(control: Seq<u32>) -> u128 {
    let page_mask = control[control::Register::PageMask.index() as int];
    let entry_hi = control[control::Register::EntryHi.index() as int];
    let entry_lo0 = control[control::Register::EntryLo0.index() as int];
    let entry_lo1 = control[control::Register::EntryLo1.index() as int];
    let e1 = set_bits_u128(0, 109, 121, bits_u32(page_mask, 13, 25) as u128);
    let e2 = set_bits_u128(
        e1,
        77,
        96,
        (bits_u32(entry_hi, 13, 32) & !bits_u32(page_mask, 13, 25)) as u128,
    );
    let e3 = set_bit_u128(e2, 76, bit_u32(entry_lo0, 0) && bit_u32(entry_lo1, 0));
    let e4 = set_bits_u128(e3, 64, 72, bits_u32(entry_hi, 0, 12) as u128);
    let e5 = set_bits_u128(e4, 33, 64, bits_u32(entry_lo0, 1, 32) as u128);
    set_bits_u128(e5, 1, 32, bits_u32(entry_lo1, 1, 32) as u128)
}

/// The TLB slot that `TLBWI` writes: the low six bits of Index.
pub open spec fn written_index(control: Seq<u32>) -> u32 {
    bits_u32(control[control::Register::Index.index() as int], 0, 6)
}

/// The stack pointer that the main-thread syscall (0x3c) sets: the top of the stack from base
/// A1 and size A2, where an all-ones base puts the stack at the end of 32 MiB.
pub open spec fn main_thread_stack(s: State) -> int {
    let base = word(s, Register::A1);
    let size = word(s, Register::A2);
    (if base == 0xFFFF_FFFF {
        0x0200_0000 - size
    } else {
        base as int
    }) + size
}

/// The end of the heap that the heap syscall (0x3d) sets: base A0 plus size A1, where an
/// all-ones base starts the heap at the main thread's stack pointer.
pub open spec fn heap_end(core: Core) -> int {
    let s = core.state;
    let base = word(s, Register::A0);
    let size = word(s, Register::A1);
    (if base == 0xFFFF_FFFF {
        core.main_thread_stack_pointer
    } else {
        base
    }) + size
}

/// Whether a system instruction can be carried out.
pub open spec fn system_supported(core: Core, instruction: Instruction) -> bool {
    let s = core.state;
    match instruction {
        Instruction::Syscall => {
            let number = word(s, Register::V1);
            ||| number == 0x02 || number == 0x64 || number == 0x71
            ||| number == 0x3c && (word(s, Register::A1) == 0xFFFF_FFFF ==> word(s, Register::A2)
                <= 0x0200_0000) && main_thread_stack(s) <= u32::MAX
            ||| number == 0x3d && heap_end(core) <= u32::MAX
        },
        Instruction::Mfc0(_, rd) => control::readable(rd),
        Instruction::Mtc0(rd, _) => control::writable(rd),
        Instruction::Mfc1(_, fs) => fs.number() < 32,
        Instruction::Mtc1(fs, _) => fs.number() < 32,
        Instruction::Movs(fd, fs) => fd.number() < 32 && fs.number() < 32,
        Instruction::Tlbwi => {
            let entry = TlbEntry { raw: written_entry(s.control@) };
            &&& written_index(s.control@) < TLB_ENTRIES
            &&& bits_u128(entry.raw, 64, 72) == 0
            &&& entry.is_well_formed()
        },
        _ => true,
    }
}

/// The core after a system instruction, apart from the program counter and the delayed
/// branch.
pub open spec fn system_done(old: Core, new: Core, instruction: Instruction) -> bool {
    let s = old.state;
    let r = s.registers@;
    let unchanged = new.state.control == s.control && new.state.fpu == s.fpu && new.mmu
        == old.mmu && new.main_thread_stack_pointer == old.main_thread_stack_pointer;
    &&& new.mode == old.mode
    &&& match instruction {
        Instruction::Syscall => {
            let number = word(s, Register::V1);
            if number == 0x3c {
                &&& new.state.registers@ == assign(
                    r,
                    Register::V0,
                    sext32(main_thread_stack(s) as u32),
                )
                &&& new.main_thread_stack_pointer == main_thread_stack(s)
                &&& new.state.control == s.control && new.state.fpu == s.fpu
                &&& new.mmu == old.mmu
            } else if number == 0x3d {
                &&& new.state.registers@ == assign(r, Register::V0, sext32(heap_end(old) as u32))
                &&& unchanged
            } else {
                new.state.registers@ == r && unchanged
            }
        },
        Instruction::Mfc0(rt, rd) => {
            &&& new.state.registers@ == assign(r, rt, sext32(s.control@[rd.index() as int]))
            &&& unchanged
        },
        Instruction::Mtc0(rd, rt) => {
            &&& new.state.registers@ == r
            &&& new.state.control@ == s.control@.update(
                rd.index() as int,
                control::written_value(rd, s.control@[rd.index() as int], word(s, rt)),
            )
            &&& new.state.fpu == s.fpu && new.mmu == old.mmu
            &&& new.main_thread_stack_pointer == old.main_thread_stack_pointer
        },
        Instruction::Mfc1(rt, fs) => {
            &&& new.state.registers@ == assign(r, rt, sext32(s.fpu@[fs.number() as int]))
            &&& unchanged
        },
        Instruction::Mtc1(fs, rt) => {
            &&& new.state.registers@ == r
            &&& new.state.fpu@ == s.fpu@.update(fs.number() as int, word(s, rt))
            &&& new.state.control == s.control && new.mmu == old.mmu
            &&& new.main_thread_stack_pointer == old.main_thread_stack_pointer
        },
        Instruction::Movs(fd, fs) => {
            &&& new.state.registers@ == r
            &&& new.state.fpu@ == s.fpu@.update(fd.number() as int, s.fpu@[fs.number() as int])
            &&& new.state.control == s.control && new.mmu == old.mmu
            &&& new.main_thread_stack_pointer == old.main_thread_stack_pointer
        },
        Instruction::Tlbwi => {
            let index = written_index(s.control@) as int;
            let entry = TlbEntry { raw: written_entry(s.control@) };
            let previous = old.mmu.tlb()[index];
            &&& new.state.registers@ == r
            &&& new.state.control == s.control && new.state.fpu == s.fpu
            &&& new.main_thread_stack_pointer == old.main_thread_stack_pointer
            &&& new.mmu.wf()
            &&& new.mmu.tlb() == old.mmu.tlb().update(index, entry)
            &&& forall|m: Mode|
                #[trigger] new.mmu.table(m) == mapped_entry(
                    unmapped_entry(
                        old.mmu.table(m),
                        previous,
                        previous.spec_mappings().len() as int,
                    ),
                    m,
                    entry,
                    entry.spec_mappings().len() as int,
                )
        },
        _ => new.state.registers@ == r && unchanged,
    }
}

/// Whether the core can carry out `instruction`: it is one that the interpreter handles, in
/// a state where it neither overflows nor faults.
pub open spec fn supported(core: Core, bus: Bus, instruction: Instruction) -> bool {
    let s = core.state;
    &&& s.delayed_branch_target is None ==> s.program_counter + 4 <= u32::MAX
    &&& if is_computation(instruction) {
        computation_supported(instruction)
    } else if is_branch(instruction) {
        branch_supported(s, instruction, next_pc(s))
    } else if is_load(instruction) {
        load_supported(core, bus, instruction)
    } else if is_store(instruction) {
        store_supported(core, bus, instruction)
    } else {
        is_system(instruction) && system_supported(core, instruction)
    }
}

/// The core and bus after `instruction`: its effect, then the program counter moves to the
/// next instruction, which is the pending branch target if there is one.
pub open spec fn interpreted(
    old: Core,
    new: Core,
    old_bus: Bus,
    new_bus: Bus,
    instruction: Instruction,
) -> bool {
    let s = old.state;
    let next = next_pc(s);
    if is_computation(instruction) {
        advanced(old, new, computed(s, instruction), None, next) && new_bus == old_bus
    } else if is_branch(instruction) {
        let taken = branch_taken(s, instruction);
        &&& advanced(
            old,
            new,
            branch_registers(s, instruction, next),
            if taken {
                Some(branch_destination(s, instruction, next))
            } else {
                None
            },
            if !taken && (instruction is Beql || instruction is Bnel) {
                (next + 4) as u32
            } else {
                next
            },
        )
        &&& new_bus == old_bus
    } else if is_load(instruction) {
        &&& new.state.registers@ == load_registers(old, old_bus, instruction)
        &&& new.state.fpu@ == load_fpu(old, old_bus, instruction)
        &&& new.state.program_counter == next
        &&& new.state.delayed_branch_target is None
        &&& new.state.control == s.control
        &&& new.mode == old.mode && new.mmu == old.mmu
        &&& new.main_thread_stack_pointer == old.main_thread_stack_pointer
        &&& new_bus == old_bus
    } else if is_store(instruction) {
        advanced(old, new, s.registers@, None, next) && stored_by(old, old_bus, new_bus, instruction)
    } else {
        &&& system_done(old, new, instruction)
        &&& new.state.program_counter == next
        &&& new.state.delayed_branch_target is None
        &&& new_bus == old_bus
    }
}

impl Core {
    /// Carries out a system instruction.
    #[verifier::rlimit(100)]
    fn system(&mut self, instruction: Instruction)
        requires
            old(self).wf(),
            is_system(instruction),
            system_supported(*old(self), instruction),
        ensures
            system_done(*old(self), *final(self), instruction),
            final(self).state.program_counter == old(self).state.program_counter,
            final(self).state.delayed_branch_target == old(self).state.delayed_branch_target,
            final(self).wf(),
    {
        match instruction {
            Instruction::Syscall => {
                let syscall_number = self.get_register::<u32>(Register::V1);
                if syscall_number == 0x3c {
                    let base = self.get_register::<u32>(Register::A1);
                    let size = self.get_register::<u32>(Register::A2);
                    let base = if base == 0xFFFF_FFFF {
                        0x0200_0000 - size
                    } else {
                        base
                    };
                    let stack_pointer = base + size;
                    self.main_thread_stack_pointer = stack_pointer;
                    self.set_register::<u64>(Register::V0, stack_pointer.sign_extend());
                } else if syscall_number == 0x3d {
                    let base = self.get_register::<u32>(Register::A0);
                    let size = self.get_register::<u32>(Register::A1);
                    let base = if base == 0xFFFF_FFFF {
                        self.main_thread_stack_pointer
                    } else {
                        base
                    };
                    let end = base + size;
                    self.set_register::<u64>(Register::V0, end.sign_extend());
                }
            },
            Instruction::Mfc0(rt, rd) => {
                let value = self.state.control.get_register(rd);
                self.set_register::<u64>(rt, value.sign_extend());
            },
            Instruction::Mtc0(rd, rt) => {
                let value = self.get_register::<u32>(rt);
                self.state.control.set_register(rd, value);
            },
            Instruction::Mfc1(rt, fs) => {
                let value = self.state.fpu.get_register(fs);
                self.set_register::<u64>(rt, value.sign_extend());
            },
            Instruction::Mtc1(fs, rt) => {
                let value = self.get_register::<u32>(rt);
                self.state.fpu.set_register(fs, value);
            },
            Instruction::Movs(fd, fs) => {
                let value = self.state.fpu.get_register(fs);
                self.state.fpu.set_register(fd, value);
            },
            Instruction::Tlbwi => {
                let mut entry: u128 = 0;
                let index = self.state.control.get_register(control::Register::Index);
                let page_mask = self.state.control.get_register(control::Register::PageMask);
                let entry_hi = self.state.control.get_register(control::Register::EntryHi);
                let entry_lo0 = self.state.control.get_register(control::Register::EntryLo0);
                let entry_lo1 = self.state.control.get_register(control::Register::EntryLo1);
                entry.set_bits(109, 121, page_mask.bits(13, 25) as u128);
                entry.set_bits(
                    77,
                    96,
                    (entry_hi.bits(13, 32) & !page_mask.bits(13, 25)) as u128,
                );
                entry.set_bit(76, entry_lo0.bit(0) && entry_lo1.bit(0));
                entry.set_bits(64, 72, entry_hi.bits(0, 12) as u128);
                entry.set_bits(33, 64, entry_lo0.bits(1, 32) as u128);
                entry.set_bits(1, 32, entry_lo1.bits(1, 32) as u128);
                proof {
                    lemma_field_bounds(index);
                }
                self.mmu.write_index(index.bits(0, 6) as u8, TlbEntry::new(entry));
            },
            _ => {},
        }
    }

    /// Carries out `instruction`, then moves to the next instruction: the target of a pending
    /// branch, else the next word.
    pub fn interpret_instruction(&mut self, instruction: Instruction, bus: &mut Bus)
        requires
            old(self).wf(),
            old(bus).wf(),
            supported(*old(self), *old(bus), instruction),
        ensures
            final(self).wf(),
            final(bus).wf(),
            interpreted(*old(self), *final(self), *old(bus), *final(bus), instruction),
    {
        let mut next_program_counter = match self.state.delayed_branch_target {
            Some(target) => target,
            None => self.state.program_counter + 4,
        };
        match instruction {
            Instruction::Jr(..) | Instruction::Jalr(..) | Instruction::Bltz(..)
            | Instruction::Bgez(..) | Instruction::J(..) | Instruction::Jal(..)
            | Instruction::Beq(..) | Instruction::Bne(..) | Instruction::Blez(..)
            | Instruction::Beql(..) | Instruction::Bnel(..) => {
                self.state.delayed_branch_target = None;
                self.branch(instruction, &mut next_program_counter);
            },
            Instruction::Lb(..) | Instruction::Lh(..) | Instruction::Lw(..) | Instruction::Lbu(..)
            | Instruction::Lhu(..) | Instruction::Lwr(..) | Instruction::Lwc1(..)
            | Instruction::Ld(..) => {
                self.load(instruction, bus);
                self.state.delayed_branch_target = None;
            },
            Instruction::Sq(..) | Instruction::Sb(..) | Instruction::Sh(..) | Instruction::Sw(..)
            | Instruction::Swc1(..) | Instruction::Sd(..) => {
                self.store(instruction, bus);
                self.state.delayed_branch_target = None;
            },
            Instruction::Unknown | Instruction::Syscall | Instruction::Sync | Instruction::Ei
            | Instruction::Mfc0(..) | Instruction::Mtc0(..) | Instruction::Mfc1(..)
            | Instruction::Mtc1(..) | Instruction::Movs(..) | Instruction::Tlbwi => {
                self.system(instruction);
                self.state.delayed_branch_target = None;
            },
            _ => {
                self.compute(instruction);
                self.state.delayed_branch_target = None;
            },
        }
        self.state.program_counter = next_program_counter;
    }

    /// Completes a floating-point instruction whose result `bits` is computed outside the
    /// core: `destination` takes the bits and the program counter moves on as for any
    /// instruction.
    pub fn finish_float_instruction(&mut self, destination: fpu::Register, bits: u32)
        requires
            old(self).wf(),
            destination.number() < 32,
            old(self).state.delayed_branch_target is None ==> old(self).state.program_counter + 4
                <= u32::MAX,
        ensures
            final(self).wf(),
            final(self).state.fpu@ == old(self).state.fpu@.update(destination.number() as int, bits),
            final(self).state.registers@ == old(self).state.registers@,
            final(self).state.program_counter == next_pc(old(self).state),
            final(self).state.delayed_branch_target is None,
            final(self).state.control == old(self).state.control,
            final(self).mode == old(self).mode,
            final(self).mmu == old(self).mmu,
            final(self).main_thread_stack_pointer == old(self).main_thread_stack_pointer,
    {
        let next_program_counter = match self.state.delayed_branch_target {
            Some(target) => target,
            None => self.state.program_counter + 4,
        };
        self.state.delayed_branch_target = None;
        self.state.fpu.set_register(destination, bits);
        self.state.program_counter = next_program_counter;
    }
}



impl Core {
    /// Fetches the word at the program counter, decodes it and carries it out.
    pub fn interpret_next(&mut self, bus: &mut Bus)
        requires
            old(self).wf(),
            old(bus).wf(),
            mapped(*old(self), old(self).state.program_counter),
            old(bus).readable_physical::<u32>(
                translated(*old(self), old(self).state.program_counter),
            ),
            spec_decode(
                old(bus).spec_read_physical::<u32>(
                    translated(*old(self), old(self).state.program_counter),
                ),
            ) is Some,
            supported(
                *old(self),
                *old(bus),
                spec_decode(
                    old(bus).spec_read_physical::<u32>(
                        translated(*old(self), old(self).state.program_counter),
                    ),
                ).unwrap(),
            ),
        ensures
            final(self).wf(),
            final(bus).wf(),
            interpreted(
                *old(self),
                *final(self),
                *old(bus),
                *final(bus),
                spec_decode(
                    old(bus).spec_read_physical::<u32>(
                        translated(*old(self), old(self).state.program_counter),
                    ),
                ).unwrap(),
            ),
    {
        let word = self.read_virtual::<u32>(bus, self.state.program_counter);
        let instruction = Instruction::decode(word);
        self.interpret_instruction(instruction, bus);
    }
}

/// Whether `instruction` only computes on registers.
fn computation_instruction(instruction: Instruction) -> (r: bool)
    ensures
        r == is_computation(instruction),
{
    match instruction {
        Instruction::Sll(..) | Instruction::Srl(..) | Instruction::Sra(..) | Instruction::Sllv(..)
        | Instruction::Srlv(..) | Instruction::Srav(..) | Instruction::Movz(..)
        | Instruction::Movn(..) | Instruction::Mfhi(..) | Instruction::Mthi(..)
        | Instruction::Mflo(..) | Instruction::Mtlo(..) | Instruction::Mult(..)
        | Instruction::Multu(..) | Instruction::Div(..) | Instruction::Divu(..)
        | Instruction::Add(..) | Instruction::Addu(..) | Instruction::Sub(..)
        | Instruction::Subu(..) | Instruction::And(..) | Instruction::Or(..)
        | Instruction::Slt(..) | Instruction::Sltu(..) | Instruction::Daddu(..)
        | Instruction::Dsll(..) | Instruction::Dsrl(..) | Instruction::Dsll32(..)
        | Instruction::Dsrl32(..) | Instruction::Dsra32(..) | Instruction::Addi(..)
        | Instruction::Addiu(..) | Instruction::Slti(..) | Instruction::Sltiu(..)
        | Instruction::Andi(..) | Instruction::Ori(..) | Instruction::Xori(..)
        | Instruction::Lui(..) | Instruction::Div1(..) | Instruction::Divu1(..) => true,
        _ => false,
    }
}

/// Whether `instruction` is a jump or branch.
fn branch_instruction(instruction: Instruction) -> (r: bool)
    ensures
        r == is_branch(instruction),
{
    match instruction {
        Instruction::Jr(..) | Instruction::Jalr(..) | Instruction::Bltz(..) | Instruction::Bgez(..)
        | Instruction::J(..) | Instruction::Jal(..) | Instruction::Beq(..) | Instruction::Bne(..)
        | Instruction::Blez(..) | Instruction::Beql(..) | Instruction::Bnel(..) => true,
        _ => false,
    }
}

/// Whether `instruction` is a load.
fn load_instruction(instruction: Instruction) -> (r: bool)
    ensures
        r == is_load(instruction),
{
    match instruction {
        Instruction::Lb(..) | Instruction::Lh(..) | Instruction::Lw(..) | Instruction::Lbu(..)
        | Instruction::Lhu(..) | Instruction::Lwr(..) | Instruction::Lwc1(..)
        | Instruction::Ld(..) => true,
        _ => false,
    }
}

/// Whether `instruction` is a store.
fn store_instruction(instruction: Instruction) -> (r: bool)
    ensures
        r == is_store(instruction),
{
    match instruction {
        Instruction::Sq(..) | Instruction::Sb(..) | Instruction::Sh(..) | Instruction::Sw(..)
        | Instruction::Swc1(..) | Instruction::Sd(..) => true,
        _ => false,
    }
}

/// Whether `instruction` reaches the coprocessors, the TLB or the system.
fn system_instruction(instruction: Instruction) -> (r: bool)
    ensures
        r == is_system(instruction),
{
    match instruction {
        Instruction::Unknown | Instruction::Syscall | Instruction::Sync | Instruction::Ei
        | Instruction::Mfc0(..) | Instruction::Mtc0(..) | Instruction::Mfc1(..)
        | Instruction::Mtc1(..) | Instruction::Movs(..) | Instruction::Tlbwi => true,
        _ => false,
    }
}

impl Core {
    /// Whether a read of a `T` at the virtual address `address` can be made: its page is
    /// mapped and the bus accepts the read.
    pub fn can_read_virtual<T: Bytes>(&self, bus: &Bus, address: u32) -> (r: bool)
        requires
            self.wf(),
        ensures
            r == (mapped(*self, address) && bus.readable_physical::<T>(translated(*self, address))),
    {
        if !self.mmu.is_mapped(address, self.mode) {
            return false;
        }
        let physical = self.mmu.virtual_to_physical(address, self.mode);
        bus.can_read_physical::<T>(physical)
    }

    /// Whether a write of `value` at the virtual address `address` can be made.
    pub fn can_write_virtual<T: Bytes>(&self, bus: &Bus, address: u32, value: T) -> (r: bool)
        requires
            self.wf(),
        ensures
            r == (mapped(*self, address) && bus.writable_physical(translated(*self, address), value)),
    {
        if !self.mmu.is_mapped(address, self.mode) {
            return false;
        }
        let physical = self.mmu.virtual_to_physical(address, self.mode);
        bus.can_write_physical(physical, value)
    }

    /// The TLB entry that `TLBWI` writes, from the control registers.
    fn written_tlb_entry(&self) -> (r: u128)
        ensures
            r == written_entry(self.state.control@),
    {
        let mut entry: u128 = 0;
        let page_mask = self.state.control.get_register(control::Register::PageMask);
        let entry_hi = self.state.control.get_register(control::Register::EntryHi);
        let entry_lo0 = self.state.control.get_register(control::Register::EntryLo0);
        let entry_lo1 = self.state.control.get_register(control::Register::EntryLo1);
        entry.set_bits(109, 121, page_mask.bits(13, 25) as u128);
        entry.set_bits(77, 96, (entry_hi.bits(13, 32) & !page_mask.bits(13, 25)) as u128);
        entry.set_bit(76, entry_lo0.bit(0) && entry_lo1.bit(0));
        entry.set_bits(64, 72, entry_hi.bits(0, 12) as u128);
        entry.set_bits(33, 64, entry_lo0.bits(1, 32) as u128);
        entry.set_bits(1, 32, entry_lo1.bits(1, 32) as u128);
        entry
    }

    /// Whether `interpret_instruction` can carry out `instruction` on this core and bus.
    pub fn supports(&self, bus: &Bus, instruction: Instruction) -> (r: bool)
        requires
            self.wf(),
        ensures
            r == supported(*self, *bus, instruction),
    {
        let next = match self.state.delayed_branch_target {
            Some(target) => target,
            None => {
                if self.state.program_counter > u32::MAX - 4 {
                    return false;
                }
                self.state.program_counter + 4
            },
        };
        if computation_instruction(instruction) {
            match instruction {
                Instruction::Sll(_, _, sa) | Instruction::Srl(_, _, sa) | Instruction::Sra(_, _, sa)
                | Instruction::Dsll32(_, _, sa) | Instruction::Dsrl32(_, _, sa)
                | Instruction::Dsra32(_, _, sa) => sa < 32,
                Instruction::Dsll(_, _, sa) | Instruction::Dsrl(_, _, sa) => sa < 64,
                _ => true,
            }
        } else if branch_instruction(instruction) {
            self.supports_branch(instruction, next)
        } else if load_instruction(instruction) {
            self.supports_load(bus, instruction)
        } else if store_instruction(instruction) {
            self.supports_store(bus, instruction)
        } else {
            system_instruction(instruction) && self.supports_system(instruction)
        }
    }

    fn supports_branch(&self, instruction: Instruction, next: u32) -> (r: bool)
        ensures
            r == branch_supported(self.state, instruction, next),
    {
        match instruction {
            Instruction::Jr(rs) => self.get_register::<u32>(rs) % 4 == 0,
            Instruction::Jalr(_, rs) => self.get_register::<u32>(rs) % 4 == 0 && next <= u32::MAX
                - 4,
            Instruction::Jal(_) => next <= u32::MAX - 4,
            Instruction::Beql(rs, rt, _) => {
                let taken = self.get_register::<u64>(rs) == self.get_register::<u64>(rt);
                taken || next <= u32::MAX - 4
            },
            Instruction::Bnel(rs, rt, _) => {
                let taken = self.get_register::<u64>(rs) != self.get_register::<u64>(rt);
                taken || next <= u32::MAX - 4
            },
            _ => true,
        }
    }

    fn supports_load(&self, bus: &Bus, instruction: Instruction) -> (r: bool)
        requires
            self.wf(),
        ensures
            r == load_supported(*self, *bus, instruction),
    {
        match instruction {
            Instruction::Lbu(_, offset, base) => {
                let address = self.address(base, offset);
                self.can_read_virtual::<u8>(bus, address)
            },
            Instruction::Lh(_, offset, base) | Instruction::Lhu(_, offset, base) => {
                let address = self.address(base, offset);
                address % 2 == 0 && self.can_read_virtual::<u16>(bus, address)
            },
            Instruction::Lw(_, offset, base) => {
                let address = self.address(base, offset);
                address % 4 == 0 && self.can_read_virtual::<u32>(bus, address)
            },
            Instruction::Lwr(_, offset, base) => {
                let unaligned = self.address(base, offset);
                let address = unaligned & !3u32;
                proof {
                    lemma_branch_alignment(0, 0, 0, unaligned);
                }
                address % 4 == 0 && self.can_read_virtual::<u32>(bus, address)
            },
            Instruction::Lwc1(ft, offset, base) => {
                let address = self.address(base, offset);
                ft.index() < 32 && address % 4 == 0 && self.can_read_virtual::<u32>(bus, address)
            },
            Instruction::Ld(_, offset, base) => {
                let address = self.address(base, offset);
                address % 8 == 0 && self.can_read_virtual::<u64>(bus, address)
            },
            _ => false,
        }
    }

    fn supports_store(&self, bus: &Bus, instruction: Instruction) -> (r: bool)
        requires
            self.wf(),
        ensures
            r == store_supported(*self, *bus, instruction),
    {
        match instruction {
            Instruction::Sq(rt, offset, base) => {
                let unaligned = self.address(base, offset);
                let address = unaligned & !15u32;
                proof {
                    lemma_branch_alignment(0, 0, 0, unaligned);
                }
                let value = self.get_register::<u128>(rt);
                self.can_write_virtual(bus, address, value)
            },
            Instruction::Sb(rt, offset, base) => {
                let address = self.address(base, offset);
                let value = self.get_register::<u8>(rt);
                self.can_write_virtual(bus, address, value)
            },
            Instruction::Sh(rt, offset, base) => {
                let address = self.address(base, offset);
                let value = self.get_register::<u16>(rt);
                address % 2 == 0 && self.can_write_virtual(bus, address, value)
            },
            Instruction::Sw(rt, offset, base) => {
                let address = self.address(base, offset);
                let value = self.get_register::<u32>(rt);
                address % 4 == 0 && self.can_write_virtual(bus, address, value)
            },
            Instruction::Swc1(ft, offset, base) => {
                let address = self.address(base, offset);
                if ft.index() >= 32 || address % 4 != 0 {
                    return false;
                }
                let value = self.state.fpu.get_register(ft);
                self.can_write_virtual(bus, address, value)
            },
            Instruction::Sd(rt, offset, base) => {
                let address = self.address(base, offset);
                let value = self.get_register::<u64>(rt);
                address % 8 == 0 && self.can_write_virtual(bus, address, value)
            },
            _ => false,
        }
    }

    fn supports_system(&self, instruction: Instruction) -> (r: bool)
        requires
            self.wf(),
        ensures
            r == system_supported(*self, instruction),
    {
        match instruction {
            Instruction::Syscall => {
                let number = self.get_register::<u32>(Register::V1);
                if number == 0x02 || number == 0x64 || number == 0x71 {
                    true
                } else if number == 0x3c {
                    let base = self.get_register::<u32>(Register::A1);
                    let size = self.get_register::<u32>(Register::A2);
                    if base == 0xFFFF_FFFF {
                        size <= 0x0200_0000
                    } else {
                        (base as u64) + (size as u64) <= u32::MAX as u64
                    }
                } else if number == 0x3d {
                    let base = self.get_register::<u32>(Register::A0);
                    let size = self.get_register::<u32>(Register::A1);
                    let base = if base == 0xFFFF_FFFF {
                        self.main_thread_stack_pointer
                    } else {
                        base
                    };
                    (base as u64) + (size as u64) <= u32::MAX as u64
                } else {
                    false
                }
            },
            Instruction::Mfc0(_, rd) => control::can_read(rd),
            Instruction::Mtc0(rd, _) => control::can_write(rd),
            Instruction::Mfc1(_, fs) => fs.index() < 32,
            Instruction::Mtc1(fs, _) => fs.index() < 32,
            Instruction::Movs(fd, fs) => fd.index() < 32 && fs.index() < 32,
            Instruction::Tlbwi => {
                let raw = self.written_tlb_entry();
                let index = self.state.control.get_register(control::Register::Index);
                proof {
                    lemma_field_bounds(index);
                }
                index.bits(0, 6) < TLB_ENTRIES as u32 && raw.bits(64, 72) == 0
                    && TlbEntry::new(raw).check_well_formed()
            },
            _ => true,
        }
    }
}

/// Writing a register, low or high half, never reaches the zero register.
proof fn lemma_assign_keeps_zero()
    ensures
        forall|r: Seq<u128>, register: Register, value: u64|
            r.len() == 34 ==> (#[trigger] assign(r, register, value)).len() == 34
                && assign(r, register, value)[0] == r[0],
        forall|r: Seq<u128>, register: Register, value: u64|
            r.len() == 34 ==> (#[trigger] assign_upper(r, register, value)).len() == 34
                && assign_upper(r, register, value)[0] == r[0],
{
    assert forall|register: Register| register != Register::Zero implies #[trigger] register.index()
        != 0 by {
        match register {
            _ => {},
        }
    }
}

/// The zero register stays zero: whatever instruction the core carries out, a zero register
/// that held 0 before holds 0 after.
pub proof fn law_zero_register_stays_zero(
    old: Core,
    new: Core,
    old_bus: Bus,
    new_bus: Bus,
    instruction: Instruction,
)
    requires
        old.wf(),
        old.state.registers@[0] == 0,
        supported(old, old_bus, instruction),
        interpreted(old, new, old_bus, new_bus, instruction),
    ensures
        new.state.registers@[0] == 0,
{
    lemma_assign_keeps_zero();
}

/// The low 64 bits of a register, as written by `assign`, read back; the other registers keep
/// their values.
proof fn lemma_assign_reads_back()
    ensures
        forall|r: Seq<u128>, register: Register, value: u64|
            r.len() == 34 && register != Register::Zero ==> (#[trigger] assign(
                r,
                register,
                value,
            ))[register.index() as int] as u64 == value,
        forall|r: Seq<u128>, register: Register, value: u64, other: Register|
            r.len() == 34 && other != register ==> (#[trigger] assign(r, register, value))[
            #[trigger] other.index() as int] == r[other.index() as int],
{
    assert forall|register: Register, other: Register| other != register implies #[trigger] other.index()
        != #[trigger] register.index() by {
        match register {
            _ => {},
        }
    }
    assert forall|r: Seq<u128>, register: Register, value: u64|
        r.len() == 34 && register != Register::Zero implies (#[trigger] assign(
        r,
        register,
        value,
    ))[register.index() as int] as u64 == value by {
        crate::emotion_engine::cpu::register::law_register_halves(
            r[register.index() as int],
            value,
        );
    }
}

/// The low 32 bits of `register` in `s`.
pub open spec fn low32(s: State, register: Register) -> u32 {
    s.registers@[register.index() as int] as u32
}

/// The low 64 bits of `register` in `s`.
pub open spec fn low64(s: State, register: Register) -> u64 {
    s.registers@[register.index() as int] as u64
}

/// The register arithmetic of the core, as numbers: after the instruction, the low 64 bits
/// of the destination (when it is not the zero register) hold
/// - for `Sltu`, 1 exactly when the first source is below the second as unsigned numbers,
///   else 0;
/// - for `Addu` and `Add`, the sum of the low 32 bits of the sources modulo 2^32, sign
///   extended; for `Subu` and `Sub`, their difference modulo 2^32, sign extended;
/// - for `Daddu`, the sum of the sources modulo 2^64;
/// - for `And` and `Or`, the bitwise and and or of the sources.
#[verifier::rlimit(100)]
pub proof fn law_register_arithmetic(
    old: Core,
    new: Core,
    old_bus: Bus,
    new_bus: Bus,
    instruction: Instruction,
)
    requires
        old.wf(),
        supported(old, old_bus, instruction),
        interpreted(old, new, old_bus, new_bus, instruction),
    ensures
        match instruction {
            Instruction::Sltu(rd, rs, rt) => rd != Register::Zero ==> low64(new.state, rd) == if (
            low64(old.state, rs) as int) < (low64(old.state, rt) as int) {
                1u64
            } else {
                0u64
            },
            Instruction::Addu(rd, rs, rt) | Instruction::Add(rd, rs, rt) => rd != Register::Zero
                ==> low64(new.state, rd) == sext32(
                ((low32(old.state, rs) + low32(old.state, rt)) % 0x1_0000_0000) as u32,
            ),
            Instruction::Subu(rd, rs, rt) | Instruction::Sub(rd, rs, rt) => rd != Register::Zero
                ==> low64(new.state, rd) == sext32(
                ((low32(old.state, rs) - low32(old.state, rt)) % 0x1_0000_0000) as u32,
            ),
            Instruction::Daddu(rd, rs, rt) => rd != Register::Zero ==> low64(new.state, rd) == ((
            low64(old.state, rs) + low64(old.state, rt)) % 0x1_0000_0000_0000_0000) as u64,
            Instruction::And(rd, rs, rt) => rd != Register::Zero ==> low64(new.state, rd) == low64(
                old.state,
                rs,
            ) & low64(old.state, rt),
            Instruction::Or(rd, rs, rt) => rd != Register::Zero ==> low64(new.state, rd) == low64(
                old.state,
                rs,
            ) | low64(old.state, rt),
            _ => true,
        },
{
    lemma_assign_reads_back();
    if is_computation(instruction) {
        assert(new.state.registers@ == computed(old.state, instruction));
    }
}

/// The immediate arithmetic of the core: after the instruction, the low 64 bits of the
/// destination (when it is not the zero register) hold
/// - for `Addiu` and `Addi`, the source plus the sign-extended immediate, cut to 32 bits and
///   sign extended;
/// - for `Sltiu`, 1 exactly when the source is below the sign-extended immediate as unsigned
///   numbers, else 0;
/// - for `Andi`, `Ori` and `Xori`, the source combined with the zero-extended immediate;
/// - for `Lui`, the immediate in the upper half of the low word, sign extended.
#[verifier::rlimit(100)]
pub proof fn law_immediate_arithmetic(
    old: Core,
    new: Core,
    old_bus: Bus,
    new_bus: Bus,
    instruction: Instruction,
)
    requires
        old.wf(),
        supported(old, old_bus, instruction),
        interpreted(old, new, old_bus, new_bus, instruction),
    ensures
        match instruction {
            Instruction::Addiu(rt, rs, imm) | Instruction::Addi(rt, rs, imm) => rt != Register::Zero
                ==> low64(new.state, rt) == sext32(
                ((low64(old.state, rs) + sext16(imm)) % 0x1_0000_0000_0000_0000) as u32,
            ),
            Instruction::Sltiu(rt, rs, imm) => rt != Register::Zero ==> low64(new.state, rt) == if (
            low64(old.state, rs) as int) < (sext16(imm) as int) {
                1u64
            } else {
                0u64
            },
            Instruction::Andi(rt, rs, imm) => rt != Register::Zero ==> low64(new.state, rt)
                == low64(old.state, rs) & (imm as u64),
            Instruction::Ori(rt, rs, imm) => rt != Register::Zero ==> low64(new.state, rt)
                == low64(old.state, rs) | (imm as u64),
            Instruction::Xori(rt, rs, imm) => rt != Register::Zero ==> low64(new.state, rt)
                == low64(old.state, rs) ^ (imm as u64),
            Instruction::Lui(rt, imm) => rt != Register::Zero ==> low64(new.state, rt) == sext32(
                (imm as u32) << 16u32,
            ),
            _ => true,
        },
{
    lemma_assign_reads_back();
    if is_computation(instruction) {
        assert(new.state.registers@ == computed(old.state, instruction));
    }
}

/// The shifts and moves of the core: after the instruction, the low 64 bits of the
/// destination (when it is not the zero register) hold
/// - for `Sll` and `Srl`, the low word of the source shifted left or right (filling with
///   zeros) by the amount, sign extended;
/// - for `Movz` (`Movn`), the first source when the second is zero (not zero); otherwise no
///   register changes;
/// - for `Mfhi` and `Mflo`, the `HI` and `LO` registers.
#[verifier::rlimit(100)]
pub proof fn law_shifts_and_moves(
    old: Core,
    new: Core,
    old_bus: Bus,
    new_bus: Bus,
    instruction: Instruction,
)
    requires
        old.wf(),
        supported(old, old_bus, instruction),
        interpreted(old, new, old_bus, new_bus, instruction),
    ensures
        match instruction {
            Instruction::Sll(rd, rt, sa) => rd != Register::Zero ==> low64(new.state, rd) == sext32(
                low32(old.state, rt) << (sa as u32),
            ),
            Instruction::Srl(rd, rt, sa) => rd != Register::Zero ==> low64(new.state, rd) == sext32(
                low32(old.state, rt) >> (sa as u32),
            ),
            Instruction::Movz(rd, rs, rt) => rd != Register::Zero ==> if low64(old.state, rt) == 0 {
                low64(new.state, rd) == low64(old.state, rs)
            } else {
                new.state.registers@ == old.state.registers@
            },
            Instruction::Movn(rd, rs, rt) => rd != Register::Zero ==> if low64(old.state, rt) != 0 {
                low64(new.state, rd) == low64(old.state, rs)
            } else {
                new.state.registers@ == old.state.registers@
            },
            Instruction::Mfhi(rd) => rd != Register::Zero ==> low64(new.state, rd) == low64(
                old.state,
                Register::Hi,
            ),
            Instruction::Mflo(rd) => rd != Register::Zero ==> low64(new.state, rd) == low64(
                old.state,
                Register::Lo,
            ),
            _ => true,
        },
{
    lemma_assign_reads_back();
    if is_computation(instruction) {
        assert(new.state.registers@ == computed(old.state, instruction));
    }
}

/// The top bit of a doubleword, the sign of its two's complement value.
pub const SIGN_BIT: u64 = 0x8000_0000_0000_0000;

/// The signed comparisons of the core: after `Slt` (`Slti`) the destination, when it is not the
/// zero register, holds 1 exactly when the first source is below the second (the sign-extended
/// immediate) as two's complement numbers, that is as unsigned numbers with their sign bits
/// flipped, else 0; `Bltz` is taken exactly when the sign bit of its register is set, `Bgez`
/// exactly when it is clear, `Blez` when it is set or the register is zero; `Beq` and `Beql`
/// exactly when the two registers are equal, `Bne` and `Bnel` when they differ.
#[verifier::rlimit(100)]
pub proof fn law_signed_comparisons(
    old: Core,
    new: Core,
    old_bus: Bus,
    new_bus: Bus,
    instruction: Instruction,
)
    requires
        old.wf(),
        supported(old, old_bus, instruction),
        interpreted(old, new, old_bus, new_bus, instruction),
    ensures
        match instruction {
            Instruction::Slt(rd, rs, rt) => rd != Register::Zero ==> low64(new.state, rd) == if (
            low64(old.state, rs) ^ SIGN_BIT) < (low64(old.state, rt) ^ SIGN_BIT) {
                1u64
            } else {
                0u64
            },
            Instruction::Slti(rt, rs, imm) => rt != Register::Zero ==> low64(new.state, rt) == if (
            low64(old.state, rs) ^ SIGN_BIT) < (sext16(imm) ^ SIGN_BIT) {
                1u64
            } else {
                0u64
            },
            Instruction::Bltz(rs, _) => new.state.delayed_branch_target is Some <==> low64(
                old.state,
                rs,
            ) >= SIGN_BIT,
            Instruction::Bgez(rs, _) => new.state.delayed_branch_target is Some <==> low64(
                old.state,
                rs,
            ) < SIGN_BIT,
            Instruction::Blez(rs, _) => new.state.delayed_branch_target is Some <==> (low64(
                old.state,
                rs,
            ) == 0 || low64(old.state, rs) >= SIGN_BIT),
            Instruction::Beq(rs, rt, _) | Instruction::Beql(rs, rt, _) => new.state.delayed_branch_target is Some
                <==> low64(old.state, rs) == low64(old.state, rt),
            Instruction::Bne(rs, rt, _) | Instruction::Bnel(rs, rt, _) => new.state.delayed_branch_target is Some
                <==> low64(old.state, rs) != low64(old.state, rt),
            _ => true,
        },
{
    lemma_assign_reads_back();
    match instruction {
        Instruction::Slt(_, rs, rt) => {
            lemma_signed_order(low64(old.state, rs), low64(old.state, rt));
        },
        Instruction::Slti(_, rs, imm) => {
            lemma_signed_order(low64(old.state, rs), sext16(imm));
        },
        Instruction::Bltz(rs, _) | Instruction::Bgez(rs, _) | Instruction::Blez(rs, _) => {
            lemma_signed_order(low64(old.state, rs), 0);
        },
        _ => {},
    }
}

/// The loads: the destination, when it is not the zero register, takes the value read at the
/// translated address `base + offset` (the offset sign extended): `Lbu` and `Lhu` zero-extend
/// the byte or halfword, `Lh` and `Lw` sign-extend the halfword or word, `Ld` takes the
/// doubleword.
#[verifier::rlimit(100)]
pub proof fn law_loads(old: Core, new: Core, old_bus: Bus, new_bus: Bus, instruction: Instruction)
    requires
        old.wf(),
        supported(old, old_bus, instruction),
        interpreted(old, new, old_bus, new_bus, instruction),
    ensures
        ({
            let at = |base: Register, offset: u16|
                translated(
                    old,
                    u32_specs::wrapping_add(low32(old.state, base), sext16_32(offset)),
                );
            match instruction {
                Instruction::Lbu(rt, offset, base) => rt != Register::Zero ==> low64(new.state, rt)
                    == old_bus.spec_read_physical::<u8>(at(base, offset)) as u64,
                Instruction::Lhu(rt, offset, base) => rt != Register::Zero ==> low64(new.state, rt)
                    == old_bus.spec_read_physical::<u16>(at(base, offset)) as u64,
                Instruction::Lh(rt, offset, base) => rt != Register::Zero ==> low64(new.state, rt)
                    == sext16(old_bus.spec_read_physical::<u16>(at(base, offset))),
                Instruction::Lw(rt, offset, base) => rt != Register::Zero ==> low64(new.state, rt)
                    == sext32(old_bus.spec_read_physical::<u32>(at(base, offset))),
                Instruction::Ld(rt, offset, base) => rt != Register::Zero ==> low64(new.state, rt)
                    == old_bus.spec_read_physical::<u64>(at(base, offset)),
                _ => true,
            }
        }),
{
    lemma_assign_reads_back();
    if is_load(instruction) {
        assert(new.state.registers@ == load_registers(old, old_bus, instruction));
    }
}

/// Unsigned division: `Divu` leaves in `LO` the quotient and in `HI` the remainder of the low
/// words of its registers, each sign extended; a zero divisor gives all ones in `LO` and the
/// dividend in `HI`.
#[verifier::rlimit(100)]
pub proof fn law_unsigned_division(
    old: Core,
    new: Core,
    old_bus: Bus,
    new_bus: Bus,
    rs: Register,
    rt: Register,
)
    requires
        old.wf(),
        supported(old, old_bus, Instruction::Divu(rs, rt)),
        interpreted(old, new, old_bus, new_bus, Instruction::Divu(rs, rt)),
    ensures
        low64(new.state, Register::Lo) == sext32(
            if low32(old.state, rt) == 0 {
                0xFFFF_FFFFu32
            } else {
                (low32(old.state, rs) / low32(old.state, rt)) as u32
            },
        ),
        low64(new.state, Register::Hi) == sext32(
            if low32(old.state, rt) == 0 {
                low32(old.state, rs)
            } else {
                (low32(old.state, rs) % low32(old.state, rt)) as u32
            },
        ),
{
    lemma_assign_reads_back();
    assert(new.state.registers@ == computed(old.state, Instruction::Divu(rs, rt)));
}

} // verus!
