use vstd::prelude::*;

use super::control;
use super::instruction::Occurrence;
use super::fpu;
use super::register::{lemma_number_roundtrip, Register};
use crate::bits::{bits_u32, Bits};

verus! {

/// A decoded Emotion Engine core instruction with its operands.
#[derive(Debug, PartialEq, Eq, Structural, Copy, Clone)]
pub enum Instruction {
    Sll(Register, Register, u8),
    Unknown,
    Srl(Register, Register, u8),
    Sra(Register, Register, u8),
    Sllv(Register, Register, Register),
    Srlv(Register, Register, Register),
    Srav(Register, Register, Register),
    Jr(Register),
    Jalr(Register, Register),
    Movz(Register, Register, Register),
    Movn(Register, Register, Register),
    Syscall,
    Break,
    Sync,
    Mfhi(Register),
    Mthi(Register),
    Mflo(Register),
    Mtlo(Register),
    Dsllv(Register, Register, Register),
    Dsrlv(Register, Register, Register),
    Dsrav(Register, Register, Register),
    Mult(Register, Register, Register),
    Multu(Register, Register, Register),
    Div(Register, Register),
    Divu(Register, Register),
    Add(Register, Register, Register),
    Addu(Register, Register, Register),
    Sub(Register, Register, Register),
    Subu(Register, Register, Register),
    And(Register, Register, Register),
    Or(Register, Register, Register),
    Xor(Register, Register, Register),
    Nor(Register, Register, Register),
    Mfsa(Register),
    Mtsa(Register),
    Slt(Register, Register, Register),
    Sltu(Register, Register, Register),
    Dadd(Register, Register, Register),
    Daddu(Register, Register, Register),
    Dsub(Register, Register, Register),
    Dsubu(Register, Register, Register),
    Tge(Register, Register),
    Tgeu(Register, Register),
    Tlt(Register, Register),
    Tltu(Register, Register),
    Teq(Register, Register),
    Tne(Register, Register),
    Dsll(Register, Register, u8),
    Dsrl(Register, Register, u8),
    Dsra(Register, Register, u8),
    Dsll32(Register, Register, u8),
    Dsrl32(Register, Register, u8),
    Dsra32(Register, Register, u8),
    Bltz(Register, u16),
    Bgez(Register, u16),
    J(u32),
    Jal(u32),
    Beq(Register, Register, u16),
    Bne(Register, Register, u16),
    Blez(Register, u16),
    Addi(Register, Register, u16),
    Addiu(Register, Register, u16),
    Slti(Register, Register, u16),
    Sltiu(Register, Register, u16),
    Andi(Register, Register, u16),
    Ori(Register, Register, u16),
    Xori(Register, Register, u16),
    Lui(Register, u16),
    Mfc0(Register, control::Register),
    Mtc0(control::Register, Register),
    Tlbr,
    Tlbwi,
    Tlbwr,
    Tlbp,
    Ei,
    Mfc1(Register, fpu::Register),
    Mtc1(fpu::Register, Register),
    Muls(fpu::Register, fpu::Register, fpu::Register),
    Divs(fpu::Register, fpu::Register, fpu::Register),
    Movs(fpu::Register, fpu::Register),
    Cvtws(fpu::Register, fpu::Register),
    Cvtsw(fpu::Register, fpu::Register),
    Beql(Register, Register, u16),
    Bnel(Register, Register, u16),
    Mfhi1(Register),
    Mthi1(Register),
    Mflo1(Register),
    Mtlo1(Register),
    Div1(Register, Register),
    Divu1(Register, Register),
    Sq(Register, u16, Register),
    Lb(Register, u16, Register),
    Lh(Register, u16, Register),
    Lw(Register, u16, Register),
    Lbu(Register, u16, Register),
    Lhu(Register, u16, Register),
    Lwr(Register, u16, Register),
    Sb(Register, u16, Register),
    Sh(Register, u16, Register),
    Sw(Register, u16, Register),
    Lwc1(fpu::Register, u16, Register),
    Ld(Register, u16, Register),
    Swc1(fpu::Register, u16, Register),
    Sd(Register, u16, Register),
}

/// Field `rs` (bits 21..26) as a register.
pub open spec fn rs_field(data: u32) -> Register {
    Register::from_number(bits_u32(data, 21, 26))
}

/// Field `rt` (bits 16..21) as a register.
pub open spec fn rt_field(data: u32) -> Register {
    Register::from_number(bits_u32(data, 16, 21))
}

/// Field `rd` (bits 11..16) as a register.
pub open spec fn rd_field(data: u32) -> Register {
    Register::from_number(bits_u32(data, 11, 16))
}

/// Field `ft` (bits 16..21) as a floating-point register.
pub open spec fn ft_field(data: u32) -> fpu::Register {
    fpu::Register::from_number(bits_u32(data, 16, 21) as u8)
}

/// Field `fs` (bits 11..16) as a floating-point register.
pub open spec fn fs_field(data: u32) -> fpu::Register {
    fpu::Register::from_number(bits_u32(data, 11, 16) as u8)
}

/// Field `fd` (bits 6..11) as a floating-point register.
pub open spec fn fd_field(data: u32) -> fpu::Register {
    fpu::Register::from_number(bits_u32(data, 6, 11) as u8)
}

/// Field `rd` (bits 11..16) as a coprocessor 0 register.
pub open spec fn cd_field(data: u32) -> control::Register {
    control::Register::from_number(bits_u32(data, 11, 16))
}

/// Field `sa` (bits 6..11), the shift amount.
pub open spec fn sa_field(data: u32) -> u8 {
    bits_u32(data, 6, 11) as u8
}

/// The 16-bit immediate (bits 0..16).
pub open spec fn imm16_field(data: u32) -> u16 {
    bits_u32(data, 0, 16) as u16
}

/// The 26-bit jump target (bits 0..26).
pub open spec fn imm26_field(data: u32) -> u32 {
    bits_u32(data, 0, 26)
}

/// Every five-bit operand field is below 32, so masking it to five bits changes nothing.
proof fn lemma_field_widths(data: u32)
    by (bit_vector)
    ensures
        bits_u32(data, 21, 26) & 0b11111 == bits_u32(data, 21, 26),
        bits_u32(data, 16, 21) & 0b11111 == bits_u32(data, 16, 21),
        bits_u32(data, 11, 16) & 0b11111 == bits_u32(data, 11, 16),
        bits_u32(data, 16, 21) as u8 & 0b11111 == bits_u32(data, 16, 21) as u8,
        bits_u32(data, 11, 16) as u8 & 0b11111 == bits_u32(data, 11, 16) as u8,
        bits_u32(data, 6, 11) as u8 & 0b11111 == bits_u32(data, 6, 11) as u8,
{
}

fn decode_rs(data: u32) -> (r: Register)
    ensures
        r == rs_field(data),
{
    let n = data.bits(21, 26);
    proof {
        lemma_field_widths(data);
    }
    Register::from(n)
}

fn decode_rt(data: u32) -> (r: Register)
    ensures
        r == rt_field(data),
{
    let n = data.bits(16, 21);
    proof {
        lemma_field_widths(data);
    }
    Register::from(n)
}

fn decode_rd(data: u32) -> (r: Register)
    ensures
        r == rd_field(data),
{
    let n = data.bits(11, 16);
    proof {
        lemma_field_widths(data);
    }
    Register::from(n)
}

fn decode_ft(data: u32) -> (r: fpu::Register)
    ensures
        r == ft_field(data),
{
    let n = data.bits(16, 21);
    proof {
        lemma_field_widths(data);
    }
    fpu::Register::from(n)
}

fn decode_fs(data: u32) -> (r: fpu::Register)
    ensures
        r == fs_field(data),
{
    let n = data.bits(11, 16);
    proof {
        lemma_field_widths(data);
    }
    fpu::Register::from(n)
}

fn decode_fd(data: u32) -> (r: fpu::Register)
    ensures
        r == fd_field(data),
{
    let n = data.bits(6, 11);
    proof {
        lemma_field_widths(data);
    }
    fpu::Register::from(n)
}

fn decode_cd(data: u32) -> (r: control::Register)
    ensures
        r == cd_field(data),
{
    let n = data.bits(11, 16);
    proof {
        lemma_field_widths(data);
    }
    control::Register::from(n)
}

fn decode_sa(data: u32) -> (r: u8)
    ensures
        r == sa_field(data),
{
    data.bits(6, 11) as u8
}

fn decode_imm16(data: u32) -> (r: u16)
    ensures
        r == imm16_field(data),
{
    data.bits(0, 16) as u16
}

fn decode_imm26(data: u32) -> (r: u32)
    ensures
        r == imm26_field(data),
{
    data.bits(0, 26)
}

/// The instruction that the word `data` encodes, or `None` where the word is not an
/// instruction that this decoder handles.
pub open spec fn spec_decode(data: u32) -> Option<Instruction> {
    match bits_u32(data, 26, 32) {
        0b000000 => match bits_u32(data, 0, 6) {
            0b000000 => match bits_u32(data, 21, 26) {
                0b00000 => Some(Instruction::Sll(rd_field(data), rt_field(data), sa_field(data))),
                _ => None,
            }
            0b000001 => Some(Instruction::Unknown),
            0b000010 => match bits_u32(data, 21, 26) {
                0b00000 => Some(Instruction::Srl(rd_field(data), rt_field(data), sa_field(data))),
                _ => None,
            }
            0b000011 => match bits_u32(data, 21, 26) {
                0b00000 => Some(Instruction::Sra(rd_field(data), rt_field(data), sa_field(data))),
                _ => None,
            }
            0b000100 => match bits_u32(data, 6, 11) {
                0b00000 => Some(Instruction::Sllv(rd_field(data), rt_field(data), rs_field(data))),
                _ => None,
            }
            0b000101 => Some(Instruction::Unknown),
            0b000110 => match bits_u32(data, 6, 11) {
                0b00000 => Some(Instruction::Srlv(rd_field(data), rt_field(data), rs_field(data))),
                _ => None,
            }
            0b000111 => match bits_u32(data, 6, 11) {
                0b00000 => Some(Instruction::Srav(rd_field(data), rt_field(data), rs_field(data))),
                _ => None,
            }
            0b001000 => match bits_u32(data, 6, 21) {
                0b000000000000000 => Some(Instruction::Jr(rs_field(data))),
                _ => None,
            }
            0b001001 => match bits_u32(data, 6, 11) {
                0b00000 => match bits_u32(data, 16, 21) {
                    0b00000 => Some(Instruction::Jalr(rd_field(data), rs_field(data))),
                    _ => None,
                }
                _ => None,
            }
            0b001010 => match bits_u32(data, 6, 11) {
                0b00000 => Some(Instruction::Movz(rd_field(data), rs_field(data), rt_field(data))),
                _ => None,
            }
            0b001011 => match bits_u32(data, 6, 11) {
                0b00000 => Some(Instruction::Movn(rd_field(data), rs_field(data), rt_field(data))),
                _ => None,
            }
            0b001100 => Some(Instruction::Syscall),
            0b001101 => Some(Instruction::Break),
            0b001110 => Some(Instruction::Unknown),
            0b001111 => match bits_u32(data, 11, 26) {
                0b000000000000000 => Some(Instruction::Sync),
                _ => None,
            }
            0b010000 => match bits_u32(data, 6, 11) {
                0b00000 => match bits_u32(data, 16, 26) {
                    0b0000000000 => Some(Instruction::Mfhi(rd_field(data))),
                    _ => None,
                }
                _ => None,
            }
            0b010001 => match bits_u32(data, 6, 21) {
                0b000000000000000 => Some(Instruction::Mthi(rs_field(data))),
                _ => None,
            }
            0b010010 => match bits_u32(data, 6, 11) {
                0b00000 => match bits_u32(data, 16, 26) {
                    0b0000000000 => Some(Instruction::Mflo(rd_field(data))),
                    _ => None,
                }
                _ => None,
            }
            0b010011 => match bits_u32(data, 6, 21) {
                0b000000000000000 => Some(Instruction::Mtlo(rs_field(data))),
                _ => None,
            }
            0b010100 => match bits_u32(data, 6, 11) {
                0b00000 => Some(Instruction::Dsllv(rd_field(data), rt_field(data), rs_field(data))),
                _ => None,
            }
            0b010101 => Some(Instruction::Unknown),
            0b010110 => match bits_u32(data, 6, 11) {
                0b00000 => Some(Instruction::Dsrlv(rd_field(data), rt_field(data), rs_field(data))),
                _ => None,
            }
            0b010111 => match bits_u32(data, 6, 11) {
                0b00000 => Some(Instruction::Dsrav(rd_field(data), rt_field(data), rs_field(data))),
                _ => None,
            }
            0b011000 => match bits_u32(data, 6, 11) {
                0b00000 => Some(Instruction::Mult(rd_field(data), rs_field(data), rt_field(data))),
                _ => None,
            }
            0b011001 => match bits_u32(data, 6, 11) {
                0b00000 => Some(Instruction::Multu(rd_field(data), rs_field(data), rt_field(data))),
                _ => None,
            }
            0b011010 => match bits_u32(data, 6, 16) {
                0b0000000000 => Some(Instruction::Div(rs_field(data), rt_field(data))),
                _ => None,
            }
            0b011011 => match bits_u32(data, 6, 16) {
                0b0000000000 => Some(Instruction::Divu(rs_field(data), rt_field(data))),
                _ => None,
            }
            0b011100 => Some(Instruction::Unknown),
            0b011101 => Some(Instruction::Unknown),
            0b011110 => Some(Instruction::Unknown),
            0b011111 => Some(Instruction::Unknown),
            0b100000 => match bits_u32(data, 6, 11) {
                0b00000 => Some(Instruction::Add(rd_field(data), rs_field(data), rt_field(data))),
                _ => None,
            }
            0b100001 => match bits_u32(data, 6, 11) {
                0b00000 => Some(Instruction::Addu(rd_field(data), rs_field(data), rt_field(data))),
                _ => None,
            }
            0b100010 => match bits_u32(data, 6, 11) {
                0b00000 => Some(Instruction::Sub(rd_field(data), rs_field(data), rt_field(data))),
                _ => None,
            }
            0b100011 => match bits_u32(data, 6, 11) {
                0b00000 => Some(Instruction::Subu(rd_field(data), rs_field(data), rt_field(data))),
                _ => None,
            }
            0b100100 => match bits_u32(data, 6, 11) {
                0b00000 => Some(Instruction::And(rd_field(data), rs_field(data), rt_field(data))),
                _ => None,
            }
            0b100101 => match bits_u32(data, 6, 11) {
                0b00000 => Some(Instruction::Or(rd_field(data), rs_field(data), rt_field(data))),
                _ => None,
            }
            0b100110 => match bits_u32(data, 6, 11) {
                0b00000 => Some(Instruction::Xor(rd_field(data), rs_field(data), rt_field(data))),
                _ => None,
            }
            0b100111 => match bits_u32(data, 6, 11) {
                0b00000 => Some(Instruction::Nor(rd_field(data), rs_field(data), rt_field(data))),
                _ => None,
            }
            0b101000 => match bits_u32(data, 6, 11) {
                0b00000 => match bits_u32(data, 16, 26) {
                    0b0000000000 => Some(Instruction::Mfsa(rd_field(data))),
                    _ => None,
                }
                _ => None,
            }
            0b101001 => match bits_u32(data, 6, 21) {
                0b000000000000000 => Some(Instruction::Mtsa(rs_field(data))),
                _ => None,
            }
            0b101010 => match bits_u32(data, 6, 11) {
                0b00000 => Some(Instruction::Slt(rd_field(data), rs_field(data), rt_field(data))),
                _ => None,
            }
            0b101011 => match bits_u32(data, 6, 11) {
                0b00000 => Some(Instruction::Sltu(rd_field(data), rs_field(data), rt_field(data))),
                _ => None,
            }
            0b101100 => match bits_u32(data, 6, 11) {
                0b00000 => Some(Instruction::Dadd(rd_field(data), rs_field(data), rt_field(data))),
                _ => None,
            }
            0b101101 => match bits_u32(data, 6, 11) {
                0b00000 => Some(Instruction::Daddu(rd_field(data), rs_field(data), rt_field(data))),
                _ => None,
            }
            0b101110 => match bits_u32(data, 6, 11) {
                0b00000 => Some(Instruction::Dsub(rd_field(data), rs_field(data), rt_field(data))),
                _ => None,
            }
            0b101111 => match bits_u32(data, 6, 11) {
                0b00000 => Some(Instruction::Dsubu(rd_field(data), rs_field(data), rt_field(data))),
                _ => None,
            }
            0b110000 => Some(Instruction::Tge(rs_field(data), rt_field(data))),
            0b110001 => Some(Instruction::Tgeu(rs_field(data), rt_field(data))),
            0b110010 => Some(Instruction::Tlt(rs_field(data), rt_field(data))),
            0b110011 => Some(Instruction::Tltu(rs_field(data), rt_field(data))),
            0b110100 => Some(Instruction::Teq(rs_field(data), rt_field(data))),
            0b110101 => Some(Instruction::Unknown),
            0b110110 => Some(Instruction::Tne(rs_field(data), rt_field(data))),
            0b110111 => Some(Instruction::Unknown),
            0b111000 => match bits_u32(data, 21, 26) {
                0b00000 => Some(Instruction::Dsll(rd_field(data), rt_field(data), sa_field(data))),
                _ => None,
            }
            0b111001 => Some(Instruction::Unknown),
            0b111010 => match bits_u32(data, 21, 26) {
                0b00000 => Some(Instruction::Dsrl(rd_field(data), rt_field(data), sa_field(data))),
                _ => None,
            }
            0b111011 => match bits_u32(data, 21, 26) {
                0b00000 => Some(Instruction::Dsra(rd_field(data), rt_field(data), sa_field(data))),
                _ => None,
            }
            0b111100 => match bits_u32(data, 21, 26) {
                0b00000 => Some(Instruction::Dsll32(rd_field(data), rt_field(data), sa_field(data))),
                _ => None,
            }
            0b111101 => Some(Instruction::Unknown),
            0b111110 => match bits_u32(data, 21, 26) {
                0b00000 => Some(Instruction::Dsrl32(rd_field(data), rt_field(data), sa_field(data))),
                _ => None,
            }
            0b111111 => match bits_u32(data, 21, 26) {
                0b00000 => Some(Instruction::Dsra32(rd_field(data), rt_field(data), sa_field(data))),
                _ => None,
            }
            _ => None,
        }
        0b000001 => match bits_u32(data, 16, 21) {
            0b00000 => Some(Instruction::Bltz(rs_field(data), imm16_field(data))),
            0b00001 => Some(Instruction::Bgez(rs_field(data), imm16_field(data))),
            _ => None,
        }
        0b000010 => Some(Instruction::J(imm26_field(data))),
        0b000011 => Some(Instruction::Jal(imm26_field(data))),
        0b000100 => Some(Instruction::Beq(rs_field(data), rt_field(data), imm16_field(data))),
        0b000101 => Some(Instruction::Bne(rs_field(data), rt_field(data), imm16_field(data))),
        0b000110 => match bits_u32(data, 16, 21) {
            0b00000 => Some(Instruction::Blez(rs_field(data), imm16_field(data))),
            _ => None,
        }
        0b001000 => Some(Instruction::Addi(rt_field(data), rs_field(data), imm16_field(data))),
        0b001001 => Some(Instruction::Addiu(rt_field(data), rs_field(data), imm16_field(data))),
        0b001010 => Some(Instruction::Slti(rt_field(data), rs_field(data), imm16_field(data))),
        0b001011 => Some(Instruction::Sltiu(rt_field(data), rs_field(data), imm16_field(data))),
        0b001100 => Some(Instruction::Andi(rt_field(data), rs_field(data), imm16_field(data))),
        0b001101 => Some(Instruction::Ori(rt_field(data), rs_field(data), imm16_field(data))),
        0b001110 => Some(Instruction::Xori(rt_field(data), rs_field(data), imm16_field(data))),
        0b001111 => match bits_u32(data, 21, 26) {
            0b00000 => Some(Instruction::Lui(rt_field(data), imm16_field(data))),
            _ => None,
        }
        0b010000 => match bits_u32(data, 0, 11) {
            0b00000000000 => match bits_u32(data, 21, 26) {
                0b00000 => Some(Instruction::Mfc0(rt_field(data), cd_field(data))),
                0b00100 => Some(Instruction::Mtc0(cd_field(data), rt_field(data))),
                _ => None,
            }
            0b00000000001 => match bits_u32(data, 11, 26) {
                0b100000000000000 => Some(Instruction::Tlbr),
                _ => None,
            }
            0b00000000010 => match bits_u32(data, 11, 26) {
                0b100000000000000 => Some(Instruction::Tlbwi),
                _ => None,
            }
            0b00000000110 => match bits_u32(data, 11, 26) {
                0b100000000000000 => Some(Instruction::Tlbwr),
                _ => None,
            }
            0b00000001000 => match bits_u32(data, 11, 26) {
                0b100000000000000 => Some(Instruction::Tlbp),
                _ => None,
            }
            0b00000111000 => match bits_u32(data, 11, 26) {
                0b100000000000000 => Some(Instruction::Ei),
                _ => None,
            }
            _ => None,
        }
        0b010001 => match bits_u32(data, 0, 6) {
            0b000000 => match bits_u32(data, 6, 11) {
                0b00000 => match bits_u32(data, 21, 26) {
                    0b00000 => Some(Instruction::Mfc1(rt_field(data), fs_field(data))),
                    0b00100 => Some(Instruction::Mtc1(fs_field(data), rt_field(data))),
                    _ => None,
                }
                _ => None,
            }
            0b000010 => match bits_u32(data, 21, 26) {
                0b10000 => Some(Instruction::Muls(fd_field(data), fs_field(data), ft_field(data))),
                _ => None,
            }
            0b000011 => match bits_u32(data, 21, 26) {
                0b10000 => Some(Instruction::Divs(fd_field(data), fs_field(data), ft_field(data))),
                _ => None,
            }
            0b000110 => match bits_u32(data, 16, 26) {
                0b1000000000 => Some(Instruction::Movs(fd_field(data), fs_field(data))),
                _ => None,
            }
            0b100000 => match bits_u32(data, 16, 26) {
                0b1010000000 => Some(Instruction::Cvtsw(fd_field(data), fs_field(data))),
                _ => None,
            }
            0b100100 => match bits_u32(data, 16, 26) {
                0b1000000000 => Some(Instruction::Cvtws(fd_field(data), fs_field(data))),
                _ => None,
            }
            _ => None,
        }
        0b010100 => Some(Instruction::Beql(rs_field(data), rt_field(data), imm16_field(data))),
        0b010101 => Some(Instruction::Bnel(rs_field(data), rt_field(data), imm16_field(data))),
        0b011100 => match bits_u32(data, 0, 11) {
            0b00000010000 => match bits_u32(data, 16, 26) {
                0b0000000000 => Some(Instruction::Mfhi1(rd_field(data))),
                _ => None,
            }
            0b00000010001 => match bits_u32(data, 11, 21) {
                0b0000000000 => Some(Instruction::Mthi1(rs_field(data))),
                _ => None,
            }
            0b00000010010 => match bits_u32(data, 16, 26) {
                0b0000000000 => Some(Instruction::Mflo1(rd_field(data))),
                _ => None,
            }
            0b00000010011 => match bits_u32(data, 11, 21) {
                0b0000000000 => Some(Instruction::Mtlo1(rs_field(data))),
                _ => None,
            }
            0b00000011010 => match bits_u32(data, 11, 16) {
                0b00000 => Some(Instruction::Div1(rs_field(data), rt_field(data))),
                _ => None,
            }
            0b00000011011 => match bits_u32(data, 11, 16) {
                0b00000 => Some(Instruction::Divu1(rs_field(data), rt_field(data))),
                _ => None,
            }
            _ => None,
        }
        0b011111 => Some(Instruction::Sq(rt_field(data), imm16_field(data), rs_field(data))),
        0b100000 => Some(Instruction::Lb(rt_field(data), imm16_field(data), rs_field(data))),
        0b100001 => Some(Instruction::Lh(rt_field(data), imm16_field(data), rs_field(data))),
        0b100011 => Some(Instruction::Lw(rt_field(data), imm16_field(data), rs_field(data))),
        0b100100 => Some(Instruction::Lbu(rt_field(data), imm16_field(data), rs_field(data))),
        0b100101 => Some(Instruction::Lhu(rt_field(data), imm16_field(data), rs_field(data))),
        0b100110 => Some(Instruction::Lwr(rt_field(data), imm16_field(data), rs_field(data))),
        0b101000 => Some(Instruction::Sb(rt_field(data), imm16_field(data), rs_field(data))),
        0b101001 => Some(Instruction::Sh(rt_field(data), imm16_field(data), rs_field(data))),
        0b101011 => Some(Instruction::Sw(rt_field(data), imm16_field(data), rs_field(data))),
        0b110001 => Some(Instruction::Lwc1(ft_field(data), imm16_field(data), rs_field(data))),
        0b110111 => Some(Instruction::Ld(rt_field(data), imm16_field(data), rs_field(data))),
        0b111001 => Some(Instruction::Swc1(ft_field(data), imm16_field(data), rs_field(data))),
        0b111111 => Some(Instruction::Sd(rt_field(data), imm16_field(data), rs_field(data))),
        _ => None,
    }
}

impl Instruction {
    /// Decodes `data`, or returns `None` where the word is not an instruction that this
    /// decoder handles.
    pub fn try_decode(data: u32) -> (r: Option<Self>)
        ensures
            r == spec_decode(data),
    {
        match data.bits(26, 32) {
            0b000000 => match data.bits(0, 6) {
                0b000000 => match data.bits(21, 26) {
                    0b00000 => Some(Instruction::Sll(decode_rd(data), decode_rt(data), decode_sa(data))),
                    _ => None,
                }
                0b000001 => Some(Instruction::Unknown),
                0b000010 => match data.bits(21, 26) {
                    0b00000 => Some(Instruction::Srl(decode_rd(data), decode_rt(data), decode_sa(data))),
                    _ => None,
                }
                0b000011 => match data.bits(21, 26) {
                    0b00000 => Some(Instruction::Sra(decode_rd(data), decode_rt(data), decode_sa(data))),
                    _ => None,
                }
                0b000100 => match data.bits(6, 11) {
                    0b00000 => Some(Instruction::Sllv(decode_rd(data), decode_rt(data), decode_rs(data))),
                    _ => None,
                }
                0b000101 => Some(Instruction::Unknown),
                0b000110 => match data.bits(6, 11) {
                    0b00000 => Some(Instruction::Srlv(decode_rd(data), decode_rt(data), decode_rs(data))),
                    _ => None,
                }
                0b000111 => match data.bits(6, 11) {
                    0b00000 => Some(Instruction::Srav(decode_rd(data), decode_rt(data), decode_rs(data))),
                    _ => None,
                }
                0b001000 => match data.bits(6, 21) {
                    0b000000000000000 => Some(Instruction::Jr(decode_rs(data))),
                    _ => None,
                }
                0b001001 => match data.bits(6, 11) {
                    0b00000 => match data.bits(16, 21) {
                        0b00000 => Some(Instruction::Jalr(decode_rd(data), decode_rs(data))),
                        _ => None,
                    }
                    _ => None,
                }
                0b001010 => match data.bits(6, 11) {
                    0b00000 => Some(Instruction::Movz(decode_rd(data), decode_rs(data), decode_rt(data))),
                    _ => None,
                }
                0b001011 => match data.bits(6, 11) {
                    0b00000 => Some(Instruction::Movn(decode_rd(data), decode_rs(data), decode_rt(data))),
                    _ => None,
                }
                0b001100 => Some(Instruction::Syscall),
                0b001101 => Some(Instruction::Break),
                0b001110 => Some(Instruction::Unknown),
                0b001111 => match data.bits(11, 26) {
                    0b000000000000000 => Some(Instruction::Sync),
                    _ => None,
                }
                0b010000 => match data.bits(6, 11) {
                    0b00000 => match data.bits(16, 26) {
                        0b0000000000 => Some(Instruction::Mfhi(decode_rd(data))),
                        _ => None,
                    }
                    _ => None,
                }
                0b010001 => match data.bits(6, 21) {
                    0b000000000000000 => Some(Instruction::Mthi(decode_rs(data))),
                    _ => None,
                }
                0b010010 => match data.bits(6, 11) {
                    0b00000 => match data.bits(16, 26) {
                        0b0000000000 => Some(Instruction::Mflo(decode_rd(data))),
                        _ => None,
                    }
                    _ => None,
                }
                0b010011 => match data.bits(6, 21) {
                    0b000000000000000 => Some(Instruction::Mtlo(decode_rs(data))),
                    _ => None,
                }
                0b010100 => match data.bits(6, 11) {
                    0b00000 => Some(Instruction::Dsllv(decode_rd(data), decode_rt(data), decode_rs(data))),
                    _ => None,
                }
                0b010101 => Some(Instruction::Unknown),
                0b010110 => match data.bits(6, 11) {
                    0b00000 => Some(Instruction::Dsrlv(decode_rd(data), decode_rt(data), decode_rs(data))),
                    _ => None,
                }
                0b010111 => match data.bits(6, 11) {
                    0b00000 => Some(Instruction::Dsrav(decode_rd(data), decode_rt(data), decode_rs(data))),
                    _ => None,
                }
                0b011000 => match data.bits(6, 11) {
                    0b00000 => Some(Instruction::Mult(decode_rd(data), decode_rs(data), decode_rt(data))),
                    _ => None,
                }
                0b011001 => match data.bits(6, 11) {
                    0b00000 => Some(Instruction::Multu(decode_rd(data), decode_rs(data), decode_rt(data))),
                    _ => None,
                }
                0b011010 => match data.bits(6, 16) {
                    0b0000000000 => Some(Instruction::Div(decode_rs(data), decode_rt(data))),
                    _ => None,
                }
                0b011011 => match data.bits(6, 16) {
                    0b0000000000 => Some(Instruction::Divu(decode_rs(data), decode_rt(data))),
                    _ => None,
                }
                0b011100 => Some(Instruction::Unknown),
                0b011101 => Some(Instruction::Unknown),
                0b011110 => Some(Instruction::Unknown),
                0b011111 => Some(Instruction::Unknown),
                0b100000 => match data.bits(6, 11) {
                    0b00000 => Some(Instruction::Add(decode_rd(data), decode_rs(data), decode_rt(data))),
                    _ => None,
                }
                0b100001 => match data.bits(6, 11) {
                    0b00000 => Some(Instruction::Addu(decode_rd(data), decode_rs(data), decode_rt(data))),
                    _ => None,
                }
                0b100010 => match data.bits(6, 11) {
                    0b00000 => Some(Instruction::Sub(decode_rd(data), decode_rs(data), decode_rt(data))),
                    _ => None,
                }
                0b100011 => match data.bits(6, 11) {
                    0b00000 => Some(Instruction::Subu(decode_rd(data), decode_rs(data), decode_rt(data))),
                    _ => None,
                }
                0b100100 => match data.bits(6, 11) {
                    0b00000 => Some(Instruction::And(decode_rd(data), decode_rs(data), decode_rt(data))),
                    _ => None,
                }
                0b100101 => match data.bits(6, 11) {
                    0b00000 => Some(Instruction::Or(decode_rd(data), decode_rs(data), decode_rt(data))),
                    _ => None,
                }
                0b100110 => match data.bits(6, 11) {
                    0b00000 => Some(Instruction::Xor(decode_rd(data), decode_rs(data), decode_rt(data))),
                    _ => None,
                }
                0b100111 => match data.bits(6, 11) {
                    0b00000 => Some(Instruction::Nor(decode_rd(data), decode_rs(data), decode_rt(data))),
                    _ => None,
                }
                0b101000 => match data.bits(6, 11) {
                    0b00000 => match data.bits(16, 26) {
                        0b0000000000 => Some(Instruction::Mfsa(decode_rd(data))),
                        _ => None,
                    }
                    _ => None,
                }
                0b101001 => match data.bits(6, 21) {
                    0b000000000000000 => Some(Instruction::Mtsa(decode_rs(data))),
                    _ => None,
                }
                0b101010 => match data.bits(6, 11) {
                    0b00000 => Some(Instruction::Slt(decode_rd(data), decode_rs(data), decode_rt(data))),
                    _ => None,
                }
                0b101011 => match data.bits(6, 11) {
                    0b00000 => Some(Instruction::Sltu(decode_rd(data), decode_rs(data), decode_rt(data))),
                    _ => None,
                }
                0b101100 => match data.bits(6, 11) {
                    0b00000 => Some(Instruction::Dadd(decode_rd(data), decode_rs(data), decode_rt(data))),
                    _ => None,
                }
                0b101101 => match data.bits(6, 11) {
                    0b00000 => Some(Instruction::Daddu(decode_rd(data), decode_rs(data), decode_rt(data))),
                    _ => None,
                }
                0b101110 => match data.bits(6, 11) {
                    0b00000 => Some(Instruction::Dsub(decode_rd(data), decode_rs(data), decode_rt(data))),
                    _ => None,
                }
                0b101111 => match data.bits(6, 11) {
                    0b00000 => Some(Instruction::Dsubu(decode_rd(data), decode_rs(data), decode_rt(data))),
                    _ => None,
                }
                0b110000 => Some(Instruction::Tge(decode_rs(data), decode_rt(data))),
                0b110001 => Some(Instruction::Tgeu(decode_rs(data), decode_rt(data))),
                0b110010 => Some(Instruction::Tlt(decode_rs(data), decode_rt(data))),
                0b110011 => Some(Instruction::Tltu(decode_rs(data), decode_rt(data))),
                0b110100 => Some(Instruction::Teq(decode_rs(data), decode_rt(data))),
                0b110101 => Some(Instruction::Unknown),
                0b110110 => Some(Instruction::Tne(decode_rs(data), decode_rt(data))),
                0b110111 => Some(Instruction::Unknown),
                0b111000 => match data.bits(21, 26) {
                    0b00000 => Some(Instruction::Dsll(decode_rd(data), decode_rt(data), decode_sa(data))),
                    _ => None,
                }
                0b111001 => Some(Instruction::Unknown),
                0b111010 => match data.bits(21, 26) {
                    0b00000 => Some(Instruction::Dsrl(decode_rd(data), decode_rt(data), decode_sa(data))),
                    _ => None,
                }
                0b111011 => match data.bits(21, 26) {
                    0b00000 => Some(Instruction::Dsra(decode_rd(data), decode_rt(data), decode_sa(data))),
                    _ => None,
                }
                0b111100 => match data.bits(21, 26) {
                    0b00000 => Some(Instruction::Dsll32(decode_rd(data), decode_rt(data), decode_sa(data))),
                    _ => None,
                }
                0b111101 => Some(Instruction::Unknown),
                0b111110 => match data.bits(21, 26) {
                    0b00000 => Some(Instruction::Dsrl32(decode_rd(data), decode_rt(data), decode_sa(data))),
                    _ => None,
                }
                0b111111 => match data.bits(21, 26) {
                    0b00000 => Some(Instruction::Dsra32(decode_rd(data), decode_rt(data), decode_sa(data))),
                    _ => None,
                }
                _ => None,
            }
            0b000001 => match data.bits(16, 21) {
                0b00000 => Some(Instruction::Bltz(decode_rs(data), decode_imm16(data))),
                0b00001 => Some(Instruction::Bgez(decode_rs(data), decode_imm16(data))),
                _ => None,
            }
            0b000010 => Some(Instruction::J(decode_imm26(data))),
            0b000011 => Some(Instruction::Jal(decode_imm26(data))),
            0b000100 => Some(Instruction::Beq(decode_rs(data), decode_rt(data), decode_imm16(data))),
            0b000101 => Some(Instruction::Bne(decode_rs(data), decode_rt(data), decode_imm16(data))),
            0b000110 => match data.bits(16, 21) {
                0b00000 => Some(Instruction::Blez(decode_rs(data), decode_imm16(data))),
                _ => None,
            }
            0b001000 => Some(Instruction::Addi(decode_rt(data), decode_rs(data), decode_imm16(data))),
            0b001001 => Some(Instruction::Addiu(decode_rt(data), decode_rs(data), decode_imm16(data))),
            0b001010 => Some(Instruction::Slti(decode_rt(data), decode_rs(data), decode_imm16(data))),
            0b001011 => Some(Instruction::Sltiu(decode_rt(data), decode_rs(data), decode_imm16(data))),
            0b001100 => Some(Instruction::Andi(decode_rt(data), decode_rs(data), decode_imm16(data))),
            0b001101 => Some(Instruction::Ori(decode_rt(data), decode_rs(data), decode_imm16(data))),
            0b001110 => Some(Instruction::Xori(decode_rt(data), decode_rs(data), decode_imm16(data))),
            0b001111 => match data.bits(21, 26) {
                0b00000 => Some(Instruction::Lui(decode_rt(data), decode_imm16(data))),
                _ => None,
            }
            0b010000 => match data.bits(0, 11) {
                0b00000000000 => match data.bits(21, 26) {
                    0b00000 => Some(Instruction::Mfc0(decode_rt(data), decode_cd(data))),
                    0b00100 => Some(Instruction::Mtc0(decode_cd(data), decode_rt(data))),
                    _ => None,
                }
                0b00000000001 => match data.bits(11, 26) {
                    0b100000000000000 => Some(Instruction::Tlbr),
                    _ => None,
                }
                0b00000000010 => match data.bits(11, 26) {
                    0b100000000000000 => Some(Instruction::Tlbwi),
                    _ => None,
                }
                0b00000000110 => match data.bits(11, 26) {
                    0b100000000000000 => Some(Instruction::Tlbwr),
                    _ => None,
                }
                0b00000001000 => match data.bits(11, 26) {
                    0b100000000000000 => Some(Instruction::Tlbp),
                    _ => None,
                }
                0b00000111000 => match data.bits(11, 26) {
                    0b100000000000000 => Some(Instruction::Ei),
                    _ => None,
                }
                _ => None,
            }
            0b010001 => match data.bits(0, 6) {
                0b000000 => match data.bits(6, 11) {
                    0b00000 => match data.bits(21, 26) {
                        0b00000 => Some(Instruction::Mfc1(decode_rt(data), decode_fs(data))),
                        0b00100 => Some(Instruction::Mtc1(decode_fs(data), decode_rt(data))),
                        _ => None,
                    }
                    _ => None,
                }
                0b000010 => match data.bits(21, 26) {
                    0b10000 => Some(Instruction::Muls(decode_fd(data), decode_fs(data), decode_ft(data))),
                    _ => None,
                }
                0b000011 => match data.bits(21, 26) {
                    0b10000 => Some(Instruction::Divs(decode_fd(data), decode_fs(data), decode_ft(data))),
                    _ => None,
                }
                0b000110 => match data.bits(16, 26) {
                    0b1000000000 => Some(Instruction::Movs(decode_fd(data), decode_fs(data))),
                    _ => None,
                }
                0b100000 => match data.bits(16, 26) {
                    0b1010000000 => Some(Instruction::Cvtsw(decode_fd(data), decode_fs(data))),
                    _ => None,
                }
                0b100100 => match data.bits(16, 26) {
                    0b1000000000 => Some(Instruction::Cvtws(decode_fd(data), decode_fs(data))),
                    _ => None,
                }
                _ => None,
            }
            0b010100 => Some(Instruction::Beql(decode_rs(data), decode_rt(data), decode_imm16(data))),
            0b010101 => Some(Instruction::Bnel(decode_rs(data), decode_rt(data), decode_imm16(data))),
            0b011100 => match data.bits(0, 11) {
                0b00000010000 => match data.bits(16, 26) {
                    0b0000000000 => Some(Instruction::Mfhi1(decode_rd(data))),
                    _ => None,
                }
                0b00000010001 => match data.bits(11, 21) {
                    0b0000000000 => Some(Instruction::Mthi1(decode_rs(data))),
                    _ => None,
                }
                0b00000010010 => match data.bits(16, 26) {
                    0b0000000000 => Some(Instruction::Mflo1(decode_rd(data))),
                    _ => None,
                }
                0b00000010011 => match data.bits(11, 21) {
                    0b0000000000 => Some(Instruction::Mtlo1(decode_rs(data))),
                    _ => None,
                }
                0b00000011010 => match data.bits(11, 16) {
                    0b00000 => Some(Instruction::Div1(decode_rs(data), decode_rt(data))),
                    _ => None,
                }
                0b00000011011 => match data.bits(11, 16) {
                    0b00000 => Some(Instruction::Divu1(decode_rs(data), decode_rt(data))),
                    _ => None,
                }
                _ => None,
            }
            0b011111 => Some(Instruction::Sq(decode_rt(data), decode_imm16(data), decode_rs(data))),
            0b100000 => Some(Instruction::Lb(decode_rt(data), decode_imm16(data), decode_rs(data))),
            0b100001 => Some(Instruction::Lh(decode_rt(data), decode_imm16(data), decode_rs(data))),
            0b100011 => Some(Instruction::Lw(decode_rt(data), decode_imm16(data), decode_rs(data))),
            0b100100 => Some(Instruction::Lbu(decode_rt(data), decode_imm16(data), decode_rs(data))),
            0b100101 => Some(Instruction::Lhu(decode_rt(data), decode_imm16(data), decode_rs(data))),
            0b100110 => Some(Instruction::Lwr(decode_rt(data), decode_imm16(data), decode_rs(data))),
            0b101000 => Some(Instruction::Sb(decode_rt(data), decode_imm16(data), decode_rs(data))),
            0b101001 => Some(Instruction::Sh(decode_rt(data), decode_imm16(data), decode_rs(data))),
            0b101011 => Some(Instruction::Sw(decode_rt(data), decode_imm16(data), decode_rs(data))),
            0b110001 => Some(Instruction::Lwc1(decode_ft(data), decode_imm16(data), decode_rs(data))),
            0b110111 => Some(Instruction::Ld(decode_rt(data), decode_imm16(data), decode_rs(data))),
            0b111001 => Some(Instruction::Swc1(decode_ft(data), decode_imm16(data), decode_rs(data))),
            0b111111 => Some(Instruction::Sd(decode_rt(data), decode_imm16(data), decode_rs(data))),
            _ => None,
        }
    }

    /// Decodes an instruction word that this decoder handles.
    pub fn decode(data: u32) -> (r: Self)
        requires
            spec_decode(data) is Some,
        ensures
            spec_decode(data) == Some(r),
    {
        match Self::try_decode(data) {
            Some(instruction) => instruction,
            None => {
                assert(false);
                Instruction::Unknown
            },
        }
    }
}

/// The canonical word that encodes `instruction`: the fixed bits that select it, its operands
/// in their fields, and every bit that the decoder ignores clear. `Unknown` is encoded by one
/// of the reserved `SPECIAL` function codes.
pub open spec fn encode(instruction: Instruction) -> u32 {
    match instruction {
        Instruction::Sll(x0, x1, x2) => (0x0 + x0.index() * 0x800 + x1.index() * 0x10000 + x2 as u32 * 0x40) as u32,
        Instruction::Unknown => 1,
        Instruction::Srl(x0, x1, x2) => (0x2 + x0.index() * 0x800 + x1.index() * 0x10000 + x2 as u32 * 0x40) as u32,
        Instruction::Sra(x0, x1, x2) => (0x3 + x0.index() * 0x800 + x1.index() * 0x10000 + x2 as u32 * 0x40) as u32,
        Instruction::Sllv(x0, x1, x2) => (0x4 + x0.index() * 0x800 + x1.index() * 0x10000 + x2.index() * 0x200000) as u32,
        Instruction::Srlv(x0, x1, x2) => (0x6 + x0.index() * 0x800 + x1.index() * 0x10000 + x2.index() * 0x200000) as u32,
        Instruction::Srav(x0, x1, x2) => (0x7 + x0.index() * 0x800 + x1.index() * 0x10000 + x2.index() * 0x200000) as u32,
        Instruction::Jr(x0) => (0x8 + x0.index() * 0x200000) as u32,
        Instruction::Jalr(x0, x1) => (0x9 + x0.index() * 0x800 + x1.index() * 0x200000) as u32,
        Instruction::Movz(x0, x1, x2) => (0xa + x0.index() * 0x800 + x1.index() * 0x200000 + x2.index() * 0x10000) as u32,
        Instruction::Movn(x0, x1, x2) => (0xb + x0.index() * 0x800 + x1.index() * 0x200000 + x2.index() * 0x10000) as u32,
        Instruction::Syscall => (0xc) as u32,
        Instruction::Break => (0xd) as u32,
        Instruction::Sync => (0xf) as u32,
        Instruction::Mfhi(x0) => (0x10 + x0.index() * 0x800) as u32,
        Instruction::Mthi(x0) => (0x11 + x0.index() * 0x200000) as u32,
        Instruction::Mflo(x0) => (0x12 + x0.index() * 0x800) as u32,
        Instruction::Mtlo(x0) => (0x13 + x0.index() * 0x200000) as u32,
        Instruction::Dsllv(x0, x1, x2) => (0x14 + x0.index() * 0x800 + x1.index() * 0x10000 + x2.index() * 0x200000) as u32,
        Instruction::Dsrlv(x0, x1, x2) => (0x16 + x0.index() * 0x800 + x1.index() * 0x10000 + x2.index() * 0x200000) as u32,
        Instruction::Dsrav(x0, x1, x2) => (0x17 + x0.index() * 0x800 + x1.index() * 0x10000 + x2.index() * 0x200000) as u32,
        Instruction::Mult(x0, x1, x2) => (0x18 + x0.index() * 0x800 + x1.index() * 0x200000 + x2.index() * 0x10000) as u32,
        Instruction::Multu(x0, x1, x2) => (0x19 + x0.index() * 0x800 + x1.index() * 0x200000 + x2.index() * 0x10000) as u32,
        Instruction::Div(x0, x1) => (0x1a + x0.index() * 0x200000 + x1.index() * 0x10000) as u32,
        Instruction::Divu(x0, x1) => (0x1b + x0.index() * 0x200000 + x1.index() * 0x10000) as u32,
        Instruction::Add(x0, x1, x2) => (0x20 + x0.index() * 0x800 + x1.index() * 0x200000 + x2.index() * 0x10000) as u32,
        Instruction::Addu(x0, x1, x2) => (0x21 + x0.index() * 0x800 + x1.index() * 0x200000 + x2.index() * 0x10000) as u32,
        Instruction::Sub(x0, x1, x2) => (0x22 + x0.index() * 0x800 + x1.index() * 0x200000 + x2.index() * 0x10000) as u32,
        Instruction::Subu(x0, x1, x2) => (0x23 + x0.index() * 0x800 + x1.index() * 0x200000 + x2.index() * 0x10000) as u32,
        Instruction::And(x0, x1, x2) => (0x24 + x0.index() * 0x800 + x1.index() * 0x200000 + x2.index() * 0x10000) as u32,
        Instruction::Or(x0, x1, x2) => (0x25 + x0.index() * 0x800 + x1.index() * 0x200000 + x2.index() * 0x10000) as u32,
        Instruction::Xor(x0, x1, x2) => (0x26 + x0.index() * 0x800 + x1.index() * 0x200000 + x2.index() * 0x10000) as u32,
        Instruction::Nor(x0, x1, x2) => (0x27 + x0.index() * 0x800 + x1.index() * 0x200000 + x2.index() * 0x10000) as u32,
        Instruction::Mfsa(x0) => (0x28 + x0.index() * 0x800) as u32,
        Instruction::Mtsa(x0) => (0x29 + x0.index() * 0x200000) as u32,
        Instruction::Slt(x0, x1, x2) => (0x2a + x0.index() * 0x800 + x1.index() * 0x200000 + x2.index() * 0x10000) as u32,
        Instruction::Sltu(x0, x1, x2) => (0x2b + x0.index() * 0x800 + x1.index() * 0x200000 + x2.index() * 0x10000) as u32,
        Instruction::Dadd(x0, x1, x2) => (0x2c + x0.index() * 0x800 + x1.index() * 0x200000 + x2.index() * 0x10000) as u32,
        Instruction::Daddu(x0, x1, x2) => (0x2d + x0.index() * 0x800 + x1.index() * 0x200000 + x2.index() * 0x10000) as u32,
        Instruction::Dsub(x0, x1, x2) => (0x2e + x0.index() * 0x800 + x1.index() * 0x200000 + x2.index() * 0x10000) as u32,
        Instruction::Dsubu(x0, x1, x2) => (0x2f + x0.index() * 0x800 + x1.index() * 0x200000 + x2.index() * 0x10000) as u32,
        Instruction::Tge(x0, x1) => (0x30 + x0.index() * 0x200000 + x1.index() * 0x10000) as u32,
        Instruction::Tgeu(x0, x1) => (0x31 + x0.index() * 0x200000 + x1.index() * 0x10000) as u32,
        Instruction::Tlt(x0, x1) => (0x32 + x0.index() * 0x200000 + x1.index() * 0x10000) as u32,
        Instruction::Tltu(x0, x1) => (0x33 + x0.index() * 0x200000 + x1.index() * 0x10000) as u32,
        Instruction::Teq(x0, x1) => (0x34 + x0.index() * 0x200000 + x1.index() * 0x10000) as u32,
        Instruction::Tne(x0, x1) => (0x36 + x0.index() * 0x200000 + x1.index() * 0x10000) as u32,
        Instruction::Dsll(x0, x1, x2) => (0x38 + x0.index() * 0x800 + x1.index() * 0x10000 + x2 as u32 * 0x40) as u32,
        Instruction::Dsrl(x0, x1, x2) => (0x3a + x0.index() * 0x800 + x1.index() * 0x10000 + x2 as u32 * 0x40) as u32,
        Instruction::Dsra(x0, x1, x2) => (0x3b + x0.index() * 0x800 + x1.index() * 0x10000 + x2 as u32 * 0x40) as u32,
        Instruction::Dsll32(x0, x1, x2) => (0x3c + x0.index() * 0x800 + x1.index() * 0x10000 + x2 as u32 * 0x40) as u32,
        Instruction::Dsrl32(x0, x1, x2) => (0x3e + x0.index() * 0x800 + x1.index() * 0x10000 + x2 as u32 * 0x40) as u32,
        Instruction::Dsra32(x0, x1, x2) => (0x3f + x0.index() * 0x800 + x1.index() * 0x10000 + x2 as u32 * 0x40) as u32,
        Instruction::Bltz(x0, x1) => (0x4000000 + x0.index() * 0x200000 + x1 as u32) as u32,
        Instruction::Bgez(x0, x1) => (0x4010000 + x0.index() * 0x200000 + x1 as u32) as u32,
        Instruction::J(x0) => (0x8000000 + x0) as u32,
        Instruction::Jal(x0) => (0xc000000 + x0) as u32,
        Instruction::Beq(x0, x1, x2) => (0x10000000 + x0.index() * 0x200000 + x1.index() * 0x10000 + x2 as u32) as u32,
        Instruction::Bne(x0, x1, x2) => (0x14000000 + x0.index() * 0x200000 + x1.index() * 0x10000 + x2 as u32) as u32,
        Instruction::Blez(x0, x1) => (0x18000000 + x0.index() * 0x200000 + x1 as u32) as u32,
        Instruction::Addi(x0, x1, x2) => (0x20000000 + x0.index() * 0x10000 + x1.index() * 0x200000 + x2 as u32) as u32,
        Instruction::Addiu(x0, x1, x2) => (0x24000000 + x0.index() * 0x10000 + x1.index() * 0x200000 + x2 as u32) as u32,
        Instruction::Slti(x0, x1, x2) => (0x28000000 + x0.index() * 0x10000 + x1.index() * 0x200000 + x2 as u32) as u32,
        Instruction::Sltiu(x0, x1, x2) => (0x2c000000 + x0.index() * 0x10000 + x1.index() * 0x200000 + x2 as u32) as u32,
        Instruction::Andi(x0, x1, x2) => (0x30000000 + x0.index() * 0x10000 + x1.index() * 0x200000 + x2 as u32) as u32,
        Instruction::Ori(x0, x1, x2) => (0x34000000 + x0.index() * 0x10000 + x1.index() * 0x200000 + x2 as u32) as u32,
        Instruction::Xori(x0, x1, x2) => (0x38000000 + x0.index() * 0x10000 + x1.index() * 0x200000 + x2 as u32) as u32,
        Instruction::Lui(x0, x1) => (0x3c000000 + x0.index() * 0x10000 + x1 as u32) as u32,
        Instruction::Mfc0(x0, x1) => (0x40000000 + x0.index() * 0x10000 + x1.index() * 0x800) as u32,
        Instruction::Mtc0(x0, x1) => (0x40800000 + x0.index() * 0x800 + x1.index() * 0x10000) as u32,
        Instruction::Tlbr => (0x42000001) as u32,
        Instruction::Tlbwi => (0x42000002) as u32,
        Instruction::Tlbwr => (0x42000006) as u32,
        Instruction::Tlbp => (0x42000008) as u32,
        Instruction::Ei => (0x42000038) as u32,
        Instruction::Mfc1(x0, x1) => (0x44000000 + x0.index() * 0x10000 + x1.number() as u32 * 0x800) as u32,
        Instruction::Mtc1(x0, x1) => (0x44800000 + x0.number() as u32 * 0x800 + x1.index() * 0x10000) as u32,
        Instruction::Muls(x0, x1, x2) => (0x46000002 + x0.number() as u32 * 0x40 + x1.number() as u32 * 0x800 + x2.number() as u32 * 0x10000) as u32,
        Instruction::Divs(x0, x1, x2) => (0x46000003 + x0.number() as u32 * 0x40 + x1.number() as u32 * 0x800 + x2.number() as u32 * 0x10000) as u32,
        Instruction::Movs(x0, x1) => (0x46000006 + x0.number() as u32 * 0x40 + x1.number() as u32 * 0x800) as u32,
        Instruction::Cvtws(x0, x1) => (0x46000024 + x0.number() as u32 * 0x40 + x1.number() as u32 * 0x800) as u32,
        Instruction::Cvtsw(x0, x1) => (0x46800020 + x0.number() as u32 * 0x40 + x1.number() as u32 * 0x800) as u32,
        Instruction::Beql(x0, x1, x2) => (0x50000000 + x0.index() * 0x200000 + x1.index() * 0x10000 + x2 as u32) as u32,
        Instruction::Bnel(x0, x1, x2) => (0x54000000 + x0.index() * 0x200000 + x1.index() * 0x10000 + x2 as u32) as u32,
        Instruction::Mfhi1(x0) => (0x70000010 + x0.index() * 0x800) as u32,
        Instruction::Mthi1(x0) => (0x70000011 + x0.index() * 0x200000) as u32,
        Instruction::Mflo1(x0) => (0x70000012 + x0.index() * 0x800) as u32,
        Instruction::Mtlo1(x0) => (0x70000013 + x0.index() * 0x200000) as u32,
        Instruction::Div1(x0, x1) => (0x7000001a + x0.index() * 0x200000 + x1.index() * 0x10000) as u32,
        Instruction::Divu1(x0, x1) => (0x7000001b + x0.index() * 0x200000 + x1.index() * 0x10000) as u32,
        Instruction::Sq(x0, x1, x2) => (0x7c000000 + x0.index() * 0x10000 + x1 as u32 + x2.index() * 0x200000) as u32,
        Instruction::Lb(x0, x1, x2) => (0x80000000 + x0.index() * 0x10000 + x1 as u32 + x2.index() * 0x200000) as u32,
        Instruction::Lh(x0, x1, x2) => (0x84000000 + x0.index() * 0x10000 + x1 as u32 + x2.index() * 0x200000) as u32,
        Instruction::Lw(x0, x1, x2) => (0x8c000000 + x0.index() * 0x10000 + x1 as u32 + x2.index() * 0x200000) as u32,
        Instruction::Lbu(x0, x1, x2) => (0x90000000 + x0.index() * 0x10000 + x1 as u32 + x2.index() * 0x200000) as u32,
        Instruction::Lhu(x0, x1, x2) => (0x94000000 + x0.index() * 0x10000 + x1 as u32 + x2.index() * 0x200000) as u32,
        Instruction::Lwr(x0, x1, x2) => (0x98000000 + x0.index() * 0x10000 + x1 as u32 + x2.index() * 0x200000) as u32,
        Instruction::Sb(x0, x1, x2) => (0xa0000000 + x0.index() * 0x10000 + x1 as u32 + x2.index() * 0x200000) as u32,
        Instruction::Sh(x0, x1, x2) => (0xa4000000 + x0.index() * 0x10000 + x1 as u32 + x2.index() * 0x200000) as u32,
        Instruction::Sw(x0, x1, x2) => (0xac000000 + x0.index() * 0x10000 + x1 as u32 + x2.index() * 0x200000) as u32,
        Instruction::Lwc1(x0, x1, x2) => (0xc4000000 + x0.number() as u32 * 0x10000 + x1 as u32 + x2.index() * 0x200000) as u32,
        Instruction::Ld(x0, x1, x2) => (0xdc000000 + x0.index() * 0x10000 + x1 as u32 + x2.index() * 0x200000) as u32,
        Instruction::Swc1(x0, x1, x2) => (0xe4000000 + x0.number() as u32 * 0x10000 + x1 as u32 + x2.index() * 0x200000) as u32,
        Instruction::Sd(x0, x1, x2) => (0xfc000000 + x0.index() * 0x10000 + x1 as u32 + x2.index() * 0x200000) as u32,
    }
}

/// Whether every operand of `instruction` fits its field: registers numbered below 32, shift
/// amounts below 32 and jump targets below 2^26.
pub open spec fn encodable(instruction: Instruction) -> bool {
    match instruction {
        Instruction::Sll(x0, x1, x2) => x0.index() < 32 && x1.index() < 32 && x2 < 32,
        Instruction::Unknown => true,
        Instruction::Srl(x0, x1, x2) => x0.index() < 32 && x1.index() < 32 && x2 < 32,
        Instruction::Sra(x0, x1, x2) => x0.index() < 32 && x1.index() < 32 && x2 < 32,
        Instruction::Sllv(x0, x1, x2) => x0.index() < 32 && x1.index() < 32 && x2.index() < 32,
        Instruction::Srlv(x0, x1, x2) => x0.index() < 32 && x1.index() < 32 && x2.index() < 32,
        Instruction::Srav(x0, x1, x2) => x0.index() < 32 && x1.index() < 32 && x2.index() < 32,
        Instruction::Jr(x0) => x0.index() < 32,
        Instruction::Jalr(x0, x1) => x0.index() < 32 && x1.index() < 32,
        Instruction::Movz(x0, x1, x2) => x0.index() < 32 && x1.index() < 32 && x2.index() < 32,
        Instruction::Movn(x0, x1, x2) => x0.index() < 32 && x1.index() < 32 && x2.index() < 32,
        Instruction::Syscall => true,
        Instruction::Break => true,
        Instruction::Sync => true,
        Instruction::Mfhi(x0) => x0.index() < 32,
        Instruction::Mthi(x0) => x0.index() < 32,
        Instruction::Mflo(x0) => x0.index() < 32,
        Instruction::Mtlo(x0) => x0.index() < 32,
        Instruction::Dsllv(x0, x1, x2) => x0.index() < 32 && x1.index() < 32 && x2.index() < 32,
        Instruction::Dsrlv(x0, x1, x2) => x0.index() < 32 && x1.index() < 32 && x2.index() < 32,
        Instruction::Dsrav(x0, x1, x2) => x0.index() < 32 && x1.index() < 32 && x2.index() < 32,
        Instruction::Mult(x0, x1, x2) => x0.index() < 32 && x1.index() < 32 && x2.index() < 32,
        Instruction::Multu(x0, x1, x2) => x0.index() < 32 && x1.index() < 32 && x2.index() < 32,
        Instruction::Div(x0, x1) => x0.index() < 32 && x1.index() < 32,
        Instruction::Divu(x0, x1) => x0.index() < 32 && x1.index() < 32,
        Instruction::Add(x0, x1, x2) => x0.index() < 32 && x1.index() < 32 && x2.index() < 32,
        Instruction::Addu(x0, x1, x2) => x0.index() < 32 && x1.index() < 32 && x2.index() < 32,
        Instruction::Sub(x0, x1, x2) => x0.index() < 32 && x1.index() < 32 && x2.index() < 32,
        Instruction::Subu(x0, x1, x2) => x0.index() < 32 && x1.index() < 32 && x2.index() < 32,
        Instruction::And(x0, x1, x2) => x0.index() < 32 && x1.index() < 32 && x2.index() < 32,
        Instruction::Or(x0, x1, x2) => x0.index() < 32 && x1.index() < 32 && x2.index() < 32,
        Instruction::Xor(x0, x1, x2) => x0.index() < 32 && x1.index() < 32 && x2.index() < 32,
        Instruction::Nor(x0, x1, x2) => x0.index() < 32 && x1.index() < 32 && x2.index() < 32,
        Instruction::Mfsa(x0) => x0.index() < 32,
        Instruction::Mtsa(x0) => x0.index() < 32,
        Instruction::Slt(x0, x1, x2) => x0.index() < 32 && x1.index() < 32 && x2.index() < 32,
        Instruction::Sltu(x0, x1, x2) => x0.index() < 32 && x1.index() < 32 && x2.index() < 32,
        Instruction::Dadd(x0, x1, x2) => x0.index() < 32 && x1.index() < 32 && x2.index() < 32,
        Instruction::Daddu(x0, x1, x2) => x0.index() < 32 && x1.index() < 32 && x2.index() < 32,
        Instruction::Dsub(x0, x1, x2) => x0.index() < 32 && x1.index() < 32 && x2.index() < 32,
        Instruction::Dsubu(x0, x1, x2) => x0.index() < 32 && x1.index() < 32 && x2.index() < 32,
        Instruction::Tge(x0, x1) => x0.index() < 32 && x1.index() < 32,
        Instruction::Tgeu(x0, x1) => x0.index() < 32 && x1.index() < 32,
        Instruction::Tlt(x0, x1) => x0.index() < 32 && x1.index() < 32,
        Instruction::Tltu(x0, x1) => x0.index() < 32 && x1.index() < 32,
        Instruction::Teq(x0, x1) => x0.index() < 32 && x1.index() < 32,
        Instruction::Tne(x0, x1) => x0.index() < 32 && x1.index() < 32,
        Instruction::Dsll(x0, x1, x2) => x0.index() < 32 && x1.index() < 32 && x2 < 32,
        Instruction::Dsrl(x0, x1, x2) => x0.index() < 32 && x1.index() < 32 && x2 < 32,
        Instruction::Dsra(x0, x1, x2) => x0.index() < 32 && x1.index() < 32 && x2 < 32,
        Instruction::Dsll32(x0, x1, x2) => x0.index() < 32 && x1.index() < 32 && x2 < 32,
        Instruction::Dsrl32(x0, x1, x2) => x0.index() < 32 && x1.index() < 32 && x2 < 32,
        Instruction::Dsra32(x0, x1, x2) => x0.index() < 32 && x1.index() < 32 && x2 < 32,
        Instruction::Bltz(x0, x1) => x0.index() < 32,
        Instruction::Bgez(x0, x1) => x0.index() < 32,
        Instruction::J(x0) => x0 < 0x400_0000,
        Instruction::Jal(x0) => x0 < 0x400_0000,
        Instruction::Beq(x0, x1, x2) => x0.index() < 32 && x1.index() < 32,
        Instruction::Bne(x0, x1, x2) => x0.index() < 32 && x1.index() < 32,
        Instruction::Blez(x0, x1) => x0.index() < 32,
        Instruction::Addi(x0, x1, x2) => x0.index() < 32 && x1.index() < 32,
        Instruction::Addiu(x0, x1, x2) => x0.index() < 32 && x1.index() < 32,
        Instruction::Slti(x0, x1, x2) => x0.index() < 32 && x1.index() < 32,
        Instruction::Sltiu(x0, x1, x2) => x0.index() < 32 && x1.index() < 32,
        Instruction::Andi(x0, x1, x2) => x0.index() < 32 && x1.index() < 32,
        Instruction::Ori(x0, x1, x2) => x0.index() < 32 && x1.index() < 32,
        Instruction::Xori(x0, x1, x2) => x0.index() < 32 && x1.index() < 32,
        Instruction::Lui(x0, x1) => x0.index() < 32,
        Instruction::Mfc0(x0, x1) => x0.index() < 32,
        Instruction::Mtc0(x0, x1) => x1.index() < 32,
        Instruction::Tlbr => true,
        Instruction::Tlbwi => true,
        Instruction::Tlbwr => true,
        Instruction::Tlbp => true,
        Instruction::Ei => true,
        Instruction::Mfc1(x0, x1) => x0.index() < 32 && x1.number() < 32,
        Instruction::Mtc1(x0, x1) => x0.number() < 32 && x1.index() < 32,
        Instruction::Muls(x0, x1, x2) => x0.number() < 32 && x1.number() < 32 && x2.number() < 32,
        Instruction::Divs(x0, x1, x2) => x0.number() < 32 && x1.number() < 32 && x2.number() < 32,
        Instruction::Movs(x0, x1) => x0.number() < 32 && x1.number() < 32,
        Instruction::Cvtws(x0, x1) => x0.number() < 32 && x1.number() < 32,
        Instruction::Cvtsw(x0, x1) => x0.number() < 32 && x1.number() < 32,
        Instruction::Beql(x0, x1, x2) => x0.index() < 32 && x1.index() < 32,
        Instruction::Bnel(x0, x1, x2) => x0.index() < 32 && x1.index() < 32,
        Instruction::Mfhi1(x0) => x0.index() < 32,
        Instruction::Mthi1(x0) => x0.index() < 32,
        Instruction::Mflo1(x0) => x0.index() < 32,
        Instruction::Mtlo1(x0) => x0.index() < 32,
        Instruction::Div1(x0, x1) => x0.index() < 32 && x1.index() < 32,
        Instruction::Divu1(x0, x1) => x0.index() < 32 && x1.index() < 32,
        Instruction::Sq(x0, x1, x2) => x0.index() < 32 && x2.index() < 32,
        Instruction::Lb(x0, x1, x2) => x0.index() < 32 && x2.index() < 32,
        Instruction::Lh(x0, x1, x2) => x0.index() < 32 && x2.index() < 32,
        Instruction::Lw(x0, x1, x2) => x0.index() < 32 && x2.index() < 32,
        Instruction::Lbu(x0, x1, x2) => x0.index() < 32 && x2.index() < 32,
        Instruction::Lhu(x0, x1, x2) => x0.index() < 32 && x2.index() < 32,
        Instruction::Lwr(x0, x1, x2) => x0.index() < 32 && x2.index() < 32,
        Instruction::Sb(x0, x1, x2) => x0.index() < 32 && x2.index() < 32,
        Instruction::Sh(x0, x1, x2) => x0.index() < 32 && x2.index() < 32,
        Instruction::Sw(x0, x1, x2) => x0.index() < 32 && x2.index() < 32,
        Instruction::Lwc1(x0, x1, x2) => x0.number() < 32 && x2.index() < 32,
        Instruction::Ld(x0, x1, x2) => x0.index() < 32 && x2.index() < 32,
        Instruction::Swc1(x0, x1, x2) => x0.number() < 32 && x2.index() < 32,
        Instruction::Sd(x0, x1, x2) => x0.index() < 32 && x2.index() < 32,
    }
}

/// The fields of a word assembled from the six-field layout `op|s|t|d|a|f`, and the wider
/// fields made of adjacent ones.
proof fn lemma_word_fields(e: u32, op: u32, s: u32, t: u32, d: u32, a: u32, f: u32)
    by (bit_vector)
    requires
        op < 64,
        s < 32,
        t < 32,
        d < 32,
        a < 32,
        f < 64,
        e == op * 0x400_0000 + s * 0x20_0000 + t * 0x1_0000 + d * 0x800 + a * 0x40 + f,
    ensures
        bits_u32(e, 26, 32) == op,
        bits_u32(e, 21, 26) == s,
        bits_u32(e, 16, 21) == t,
        bits_u32(e, 11, 16) == d,
        bits_u32(e, 6, 11) == a,
        bits_u32(e, 0, 6) == f,
        bits_u32(e, 0, 16) == d * 0x800 + a * 0x40 + f,
        bits_u32(e, 0, 26) == s * 0x20_0000 + t * 0x1_0000 + d * 0x800 + a * 0x40 + f,
        bits_u32(e, 6, 21) == t * 0x400 + d * 0x20 + a,
        bits_u32(e, 11, 26) == s * 0x400 + t * 0x20 + d,
        bits_u32(e, 16, 26) == s * 0x20 + t,
        bits_u32(e, 6, 16) == d * 0x20 + a,
        bits_u32(e, 0, 11) == a * 0x40 + f,
        bits_u32(e, 11, 21) == t * 0x20 + d,
{
}

/// The fields of a word assembled from the immediate layout `op|s|t|imm`.
proof fn lemma_immediate_word_fields(e: u32, op: u32, s: u32, t: u32, imm: u32)
    by (bit_vector)
    requires
        op < 64,
        s < 32,
        t < 32,
        imm < 0x1_0000,
        e == op * 0x400_0000 + s * 0x20_0000 + t * 0x1_0000 + imm,
    ensures
        bits_u32(e, 26, 32) == op,
        bits_u32(e, 21, 26) == s,
        bits_u32(e, 16, 21) == t,
        bits_u32(e, 16, 26) == s * 0x20 + t,
        bits_u32(e, 0, 16) == imm,
{
}

/// The fields of a word assembled from the jump layout `op|target`.
proof fn lemma_jump_word_fields(e: u32, op: u32, target: u32)
    by (bit_vector)
    requires
        op < 64,
        target < 0x400_0000,
        e == op * 0x400_0000 + target,
    ensures
        bits_u32(e, 26, 32) == op,
        bits_u32(e, 0, 26) == target,
{
}


/// Decoding the canonical encoding of an instruction gives the instruction back, for every
/// instruction whose operands fit their fields.
pub proof fn law_decode_encode(instruction: Instruction)
    requires
        encodable(instruction),
    ensures
        spec_decode(encode(instruction)) == Some(instruction),
{
    if instruction is Sll || instruction is Unknown || instruction is Srl || instruction is Sra || instruction is Sllv || instruction is Srlv || instruction is Srav || instruction is Jr {
        lemma_decode_encode_0(instruction);
    } else if instruction is Jalr || instruction is Movz || instruction is Movn || instruction is Syscall || instruction is Break || instruction is Sync || instruction is Mfhi || instruction is Mthi {
        lemma_decode_encode_1(instruction);
    } else if instruction is Mflo || instruction is Mtlo || instruction is Dsllv || instruction is Dsrlv || instruction is Dsrav || instruction is Mult || instruction is Multu || instruction is Div {
        lemma_decode_encode_2(instruction);
    } else if instruction is Divu || instruction is Add || instruction is Addu || instruction is Sub || instruction is Subu || instruction is And || instruction is Or || instruction is Xor {
        lemma_decode_encode_3(instruction);
    } else if instruction is Nor || instruction is Mfsa || instruction is Mtsa || instruction is Slt || instruction is Sltu || instruction is Dadd || instruction is Daddu || instruction is Dsub {
        lemma_decode_encode_4(instruction);
    } else if instruction is Dsubu || instruction is Tge || instruction is Tgeu || instruction is Tlt || instruction is Tltu || instruction is Teq || instruction is Tne || instruction is Dsll {
        lemma_decode_encode_5(instruction);
    } else if instruction is Dsrl || instruction is Dsra || instruction is Dsll32 || instruction is Dsrl32 || instruction is Dsra32 || instruction is Bltz || instruction is Bgez || instruction is J {
        lemma_decode_encode_6(instruction);
    } else if instruction is Jal || instruction is Beq || instruction is Bne || instruction is Blez || instruction is Addi || instruction is Addiu || instruction is Slti || instruction is Sltiu {
        lemma_decode_encode_7(instruction);
    } else if instruction is Andi || instruction is Ori || instruction is Xori || instruction is Lui || instruction is Mfc0 || instruction is Mtc0 || instruction is Tlbr || instruction is Tlbwi {
        lemma_decode_encode_8(instruction);
    } else if instruction is Tlbwr || instruction is Tlbp || instruction is Ei || instruction is Mfc1 || instruction is Mtc1 || instruction is Muls || instruction is Divs || instruction is Movs {
        lemma_decode_encode_9(instruction);
    } else if instruction is Cvtws || instruction is Cvtsw || instruction is Beql || instruction is Bnel || instruction is Mfhi1 || instruction is Mthi1 || instruction is Mflo1 || instruction is Mtlo1 {
        lemma_decode_encode_10(instruction);
    } else if instruction is Div1 || instruction is Divu1 || instruction is Sq || instruction is Lb || instruction is Lh || instruction is Lw || instruction is Lbu || instruction is Lhu {
        lemma_decode_encode_11(instruction);
    } else if instruction is Lwr || instruction is Sb || instruction is Sh || instruction is Sw || instruction is Lwc1 || instruction is Ld || instruction is Swc1 || instruction is Sd {
        lemma_decode_encode_12(instruction);
    }
}

/// `law_decode_encode` for the instructions listed in the precondition.
proof fn lemma_decode_encode_0(instruction: Instruction)
    requires
        encodable(instruction),
        instruction is Sll || instruction is Unknown || instruction is Srl || instruction is Sra || instruction is Sllv || instruction is Srlv || instruction is Srav || instruction is Jr,
    ensures
        spec_decode(encode(instruction)) == Some(instruction),
{
    broadcast use lemma_number_roundtrip, control::lemma_number_roundtrip;

    match instruction {
        Instruction::Sll(x0, x1, x2) => {
            lemma_word_fields(encode(instruction), 0, 0, x1.index(), x0.index(), x2 as u32, 0);
        },
        Instruction::Unknown => {
            lemma_word_fields(encode(instruction), 0, 0, 0, 0, 0, 1);
        },
        Instruction::Srl(x0, x1, x2) => {
            lemma_word_fields(encode(instruction), 0, 0, x1.index(), x0.index(), x2 as u32, 2);
        },
        Instruction::Sra(x0, x1, x2) => {
            lemma_word_fields(encode(instruction), 0, 0, x1.index(), x0.index(), x2 as u32, 3);
        },
        Instruction::Sllv(x0, x1, x2) => {
            lemma_word_fields(encode(instruction), 0, x2.index(), x1.index(), x0.index(), 0, 4);
        },
        Instruction::Srlv(x0, x1, x2) => {
            lemma_word_fields(encode(instruction), 0, x2.index(), x1.index(), x0.index(), 0, 6);
        },
        Instruction::Srav(x0, x1, x2) => {
            lemma_word_fields(encode(instruction), 0, x2.index(), x1.index(), x0.index(), 0, 7);
        },
        Instruction::Jr(x0) => {
            lemma_word_fields(encode(instruction), 0, x0.index(), 0, 0, 0, 8);
        },
        _ => {},
    }
}

/// `law_decode_encode` for the instructions listed in the precondition.
proof fn lemma_decode_encode_1(instruction: Instruction)
    requires
        encodable(instruction),
        instruction is Jalr || instruction is Movz || instruction is Movn || instruction is Syscall || instruction is Break || instruction is Sync || instruction is Mfhi || instruction is Mthi,
    ensures
        spec_decode(encode(instruction)) == Some(instruction),
{
    broadcast use lemma_number_roundtrip, control::lemma_number_roundtrip;

    match instruction {
        Instruction::Jalr(x0, x1) => {
            lemma_word_fields(encode(instruction), 0, x1.index(), 0, x0.index(), 0, 9);
        },
        Instruction::Movz(x0, x1, x2) => {
            lemma_word_fields(encode(instruction), 0, x1.index(), x2.index(), x0.index(), 0, 10);
        },
        Instruction::Movn(x0, x1, x2) => {
            lemma_word_fields(encode(instruction), 0, x1.index(), x2.index(), x0.index(), 0, 11);
        },
        Instruction::Syscall => {
            lemma_word_fields(encode(instruction), 0, 0, 0, 0, 0, 12);
        },
        Instruction::Break => {
            lemma_word_fields(encode(instruction), 0, 0, 0, 0, 0, 13);
        },
        Instruction::Sync => {
            lemma_word_fields(encode(instruction), 0, 0, 0, 0, 0, 15);
        },
        Instruction::Mfhi(x0) => {
            lemma_word_fields(encode(instruction), 0, 0, 0, x0.index(), 0, 16);
        },
        Instruction::Mthi(x0) => {
            lemma_word_fields(encode(instruction), 0, x0.index(), 0, 0, 0, 17);
        },
        _ => {},
    }
}

/// `law_decode_encode` for the instructions listed in the precondition.
proof fn lemma_decode_encode_2(instruction: Instruction)
    requires
        encodable(instruction),
        instruction is Mflo || instruction is Mtlo || instruction is Dsllv || instruction is Dsrlv || instruction is Dsrav || instruction is Mult || instruction is Multu || instruction is Div,
    ensures
        spec_decode(encode(instruction)) == Some(instruction),
{
    broadcast use lemma_number_roundtrip, control::lemma_number_roundtrip;

    match instruction {
        Instruction::Mflo(x0) => {
            lemma_word_fields(encode(instruction), 0, 0, 0, x0.index(), 0, 18);
        },
        Instruction::Mtlo(x0) => {
            lemma_word_fields(encode(instruction), 0, x0.index(), 0, 0, 0, 19);
        },
        Instruction::Dsllv(x0, x1, x2) => {
            lemma_word_fields(encode(instruction), 0, x2.index(), x1.index(), x0.index(), 0, 20);
        },
        Instruction::Dsrlv(x0, x1, x2) => {
            lemma_word_fields(encode(instruction), 0, x2.index(), x1.index(), x0.index(), 0, 22);
        },
        Instruction::Dsrav(x0, x1, x2) => {
            lemma_word_fields(encode(instruction), 0, x2.index(), x1.index(), x0.index(), 0, 23);
        },
        Instruction::Mult(x0, x1, x2) => {
            lemma_word_fields(encode(instruction), 0, x1.index(), x2.index(), x0.index(), 0, 24);
        },
        Instruction::Multu(x0, x1, x2) => {
            lemma_word_fields(encode(instruction), 0, x1.index(), x2.index(), x0.index(), 0, 25);
        },
        Instruction::Div(x0, x1) => {
            lemma_word_fields(encode(instruction), 0, x0.index(), x1.index(), 0, 0, 26);
        },
        _ => {},
    }
}

/// `law_decode_encode` for the instructions listed in the precondition.
proof fn lemma_decode_encode_3(instruction: Instruction)
    requires
        encodable(instruction),
        instruction is Divu || instruction is Add || instruction is Addu || instruction is Sub || instruction is Subu || instruction is And || instruction is Or || instruction is Xor,
    ensures
        spec_decode(encode(instruction)) == Some(instruction),
{
    broadcast use lemma_number_roundtrip, control::lemma_number_roundtrip;

    match instruction {
        Instruction::Divu(x0, x1) => {
            lemma_word_fields(encode(instruction), 0, x0.index(), x1.index(), 0, 0, 27);
        },
        Instruction::Add(x0, x1, x2) => {
            lemma_word_fields(encode(instruction), 0, x1.index(), x2.index(), x0.index(), 0, 32);
        },
        Instruction::Addu(x0, x1, x2) => {
            lemma_word_fields(encode(instruction), 0, x1.index(), x2.index(), x0.index(), 0, 33);
        },
        Instruction::Sub(x0, x1, x2) => {
            lemma_word_fields(encode(instruction), 0, x1.index(), x2.index(), x0.index(), 0, 34);
        },
        Instruction::Subu(x0, x1, x2) => {
            lemma_word_fields(encode(instruction), 0, x1.index(), x2.index(), x0.index(), 0, 35);
        },
        Instruction::And(x0, x1, x2) => {
            lemma_word_fields(encode(instruction), 0, x1.index(), x2.index(), x0.index(), 0, 36);
        },
        Instruction::Or(x0, x1, x2) => {
            lemma_word_fields(encode(instruction), 0, x1.index(), x2.index(), x0.index(), 0, 37);
        },
        Instruction::Xor(x0, x1, x2) => {
            lemma_word_fields(encode(instruction), 0, x1.index(), x2.index(), x0.index(), 0, 38);
        },
        _ => {},
    }
}

/// `law_decode_encode` for the instructions listed in the precondition.
proof fn lemma_decode_encode_4(instruction: Instruction)
    requires
        encodable(instruction),
        instruction is Nor || instruction is Mfsa || instruction is Mtsa || instruction is Slt || instruction is Sltu || instruction is Dadd || instruction is Daddu || instruction is Dsub,
    ensures
        spec_decode(encode(instruction)) == Some(instruction),
{
    broadcast use lemma_number_roundtrip, control::lemma_number_roundtrip;

    match instruction {
        Instruction::Nor(x0, x1, x2) => {
            lemma_word_fields(encode(instruction), 0, x1.index(), x2.index(), x0.index(), 0, 39);
        },
        Instruction::Mfsa(x0) => {
            lemma_word_fields(encode(instruction), 0, 0, 0, x0.index(), 0, 40);
        },
        Instruction::Mtsa(x0) => {
            lemma_word_fields(encode(instruction), 0, x0.index(), 0, 0, 0, 41);
        },
        Instruction::Slt(x0, x1, x2) => {
            lemma_word_fields(encode(instruction), 0, x1.index(), x2.index(), x0.index(), 0, 42);
        },
        Instruction::Sltu(x0, x1, x2) => {
            lemma_word_fields(encode(instruction), 0, x1.index(), x2.index(), x0.index(), 0, 43);
        },
        Instruction::Dadd(x0, x1, x2) => {
            lemma_word_fields(encode(instruction), 0, x1.index(), x2.index(), x0.index(), 0, 44);
        },
        Instruction::Daddu(x0, x1, x2) => {
            lemma_word_fields(encode(instruction), 0, x1.index(), x2.index(), x0.index(), 0, 45);
        },
        Instruction::Dsub(x0, x1, x2) => {
            lemma_word_fields(encode(instruction), 0, x1.index(), x2.index(), x0.index(), 0, 46);
        },
        _ => {},
    }
}

/// `law_decode_encode` for the instructions listed in the precondition.
proof fn lemma_decode_encode_5(instruction: Instruction)
    requires
        encodable(instruction),
        instruction is Dsubu || instruction is Tge || instruction is Tgeu || instruction is Tlt || instruction is Tltu || instruction is Teq || instruction is Tne || instruction is Dsll,
    ensures
        spec_decode(encode(instruction)) == Some(instruction),
{
    broadcast use lemma_number_roundtrip, control::lemma_number_roundtrip;

    match instruction {
        Instruction::Dsubu(x0, x1, x2) => {
            lemma_word_fields(encode(instruction), 0, x1.index(), x2.index(), x0.index(), 0, 47);
        },
        Instruction::Tge(x0, x1) => {
            lemma_word_fields(encode(instruction), 0, x0.index(), x1.index(), 0, 0, 48);
        },
        Instruction::Tgeu(x0, x1) => {
            lemma_word_fields(encode(instruction), 0, x0.index(), x1.index(), 0, 0, 49);
        },
        Instruction::Tlt(x0, x1) => {
            lemma_word_fields(encode(instruction), 0, x0.index(), x1.index(), 0, 0, 50);
        },
        Instruction::Tltu(x0, x1) => {
            lemma_word_fields(encode(instruction), 0, x0.index(), x1.index(), 0, 0, 51);
        },
        Instruction::Teq(x0, x1) => {
            lemma_word_fields(encode(instruction), 0, x0.index(), x1.index(), 0, 0, 52);
        },
        Instruction::Tne(x0, x1) => {
            lemma_word_fields(encode(instruction), 0, x0.index(), x1.index(), 0, 0, 54);
        },
        Instruction::Dsll(x0, x1, x2) => {
            lemma_word_fields(encode(instruction), 0, 0, x1.index(), x0.index(), x2 as u32, 56);
        },
        _ => {},
    }
}

/// `law_decode_encode` for the instructions listed in the precondition.
proof fn lemma_decode_encode_6(instruction: Instruction)
    requires
        encodable(instruction),
        instruction is Dsrl || instruction is Dsra || instruction is Dsll32 || instruction is Dsrl32 || instruction is Dsra32 || instruction is Bltz || instruction is Bgez || instruction is J,
    ensures
        spec_decode(encode(instruction)) == Some(instruction),
{
    broadcast use lemma_number_roundtrip, control::lemma_number_roundtrip;

    match instruction {
        Instruction::Dsrl(x0, x1, x2) => {
            lemma_word_fields(encode(instruction), 0, 0, x1.index(), x0.index(), x2 as u32, 58);
        },
        Instruction::Dsra(x0, x1, x2) => {
            lemma_word_fields(encode(instruction), 0, 0, x1.index(), x0.index(), x2 as u32, 59);
        },
        Instruction::Dsll32(x0, x1, x2) => {
            lemma_word_fields(encode(instruction), 0, 0, x1.index(), x0.index(), x2 as u32, 60);
        },
        Instruction::Dsrl32(x0, x1, x2) => {
            lemma_word_fields(encode(instruction), 0, 0, x1.index(), x0.index(), x2 as u32, 62);
        },
        Instruction::Dsra32(x0, x1, x2) => {
            lemma_word_fields(encode(instruction), 0, 0, x1.index(), x0.index(), x2 as u32, 63);
        },
        Instruction::Bltz(x0, x1) => {
            lemma_immediate_word_fields(encode(instruction), 1, x0.index(), 0, x1 as u32);
        },
        Instruction::Bgez(x0, x1) => {
            lemma_immediate_word_fields(encode(instruction), 1, x0.index(), 1, x1 as u32);
        },
        Instruction::J(x0) => {
            lemma_jump_word_fields(encode(instruction), 2, x0);
        },
        _ => {},
    }
}

/// `law_decode_encode` for the instructions listed in the precondition.
proof fn lemma_decode_encode_7(instruction: Instruction)
    requires
        encodable(instruction),
        instruction is Jal || instruction is Beq || instruction is Bne || instruction is Blez || instruction is Addi || instruction is Addiu || instruction is Slti || instruction is Sltiu,
    ensures
        spec_decode(encode(instruction)) == Some(instruction),
{
    broadcast use lemma_number_roundtrip, control::lemma_number_roundtrip;

    match instruction {
        Instruction::Jal(x0) => {
            lemma_jump_word_fields(encode(instruction), 3, x0);
        },
        Instruction::Beq(x0, x1, x2) => {
            lemma_immediate_word_fields(encode(instruction), 4, x0.index(), x1.index(), x2 as u32);
        },
        Instruction::Bne(x0, x1, x2) => {
            lemma_immediate_word_fields(encode(instruction), 5, x0.index(), x1.index(), x2 as u32);
        },
        Instruction::Blez(x0, x1) => {
            lemma_immediate_word_fields(encode(instruction), 6, x0.index(), 0, x1 as u32);
        },
        Instruction::Addi(x0, x1, x2) => {
            lemma_immediate_word_fields(encode(instruction), 8, x1.index(), x0.index(), x2 as u32);
        },
        Instruction::Addiu(x0, x1, x2) => {
            lemma_immediate_word_fields(encode(instruction), 9, x1.index(), x0.index(), x2 as u32);
        },
        Instruction::Slti(x0, x1, x2) => {
            lemma_immediate_word_fields(encode(instruction), 10, x1.index(), x0.index(), x2 as u32);
        },
        Instruction::Sltiu(x0, x1, x2) => {
            lemma_immediate_word_fields(encode(instruction), 11, x1.index(), x0.index(), x2 as u32);
        },
        _ => {},
    }
}

/// `law_decode_encode` for the instructions listed in the precondition.
proof fn lemma_decode_encode_8(instruction: Instruction)
    requires
        encodable(instruction),
        instruction is Andi || instruction is Ori || instruction is Xori || instruction is Lui || instruction is Mfc0 || instruction is Mtc0 || instruction is Tlbr || instruction is Tlbwi,
    ensures
        spec_decode(encode(instruction)) == Some(instruction),
{
    broadcast use lemma_number_roundtrip, control::lemma_number_roundtrip;

    match instruction {
        Instruction::Andi(x0, x1, x2) => {
            lemma_immediate_word_fields(encode(instruction), 12, x1.index(), x0.index(), x2 as u32);
        },
        Instruction::Ori(x0, x1, x2) => {
            lemma_immediate_word_fields(encode(instruction), 13, x1.index(), x0.index(), x2 as u32);
        },
        Instruction::Xori(x0, x1, x2) => {
            lemma_immediate_word_fields(encode(instruction), 14, x1.index(), x0.index(), x2 as u32);
        },
        Instruction::Lui(x0, x1) => {
            lemma_immediate_word_fields(encode(instruction), 15, 0, x0.index(), x1 as u32);
        },
        Instruction::Mfc0(x0, x1) => {
            lemma_word_fields(encode(instruction), 16, 0, x0.index(), x1.index(), 0, 0);
        },
        Instruction::Mtc0(x0, x1) => {
            lemma_word_fields(encode(instruction), 16, 4, x1.index(), x0.index(), 0, 0);
        },
        Instruction::Tlbr => {
            lemma_word_fields(encode(instruction), 16, 16, 0, 0, 0, 1);
        },
        Instruction::Tlbwi => {
            lemma_word_fields(encode(instruction), 16, 16, 0, 0, 0, 2);
        },
        _ => {},
    }
}

/// `law_decode_encode` for the instructions listed in the precondition.
proof fn lemma_decode_encode_9(instruction: Instruction)
    requires
        encodable(instruction),
        instruction is Tlbwr || instruction is Tlbp || instruction is Ei || instruction is Mfc1 || instruction is Mtc1 || instruction is Muls || instruction is Divs || instruction is Movs,
    ensures
        spec_decode(encode(instruction)) == Some(instruction),
{
    broadcast use lemma_number_roundtrip, control::lemma_number_roundtrip;

    match instruction {
        Instruction::Tlbwr => {
            lemma_word_fields(encode(instruction), 16, 16, 0, 0, 0, 6);
        },
        Instruction::Tlbp => {
            lemma_word_fields(encode(instruction), 16, 16, 0, 0, 0, 8);
        },
        Instruction::Ei => {
            lemma_word_fields(encode(instruction), 16, 16, 0, 0, 0, 56);
        },
        Instruction::Mfc1(x0, x1) => {
            lemma_word_fields(encode(instruction), 17, 0, x0.index(), x1.number() as u32, 0, 0);
        },
        Instruction::Mtc1(x0, x1) => {
            lemma_word_fields(encode(instruction), 17, 4, x1.index(), x0.number() as u32, 0, 0);
        },
        Instruction::Muls(x0, x1, x2) => {
            lemma_word_fields(encode(instruction), 17, 16, x2.number() as u32, x1.number() as u32, x0.number() as u32, 2);
        },
        Instruction::Divs(x0, x1, x2) => {
            lemma_word_fields(encode(instruction), 17, 16, x2.number() as u32, x1.number() as u32, x0.number() as u32, 3);
        },
        Instruction::Movs(x0, x1) => {
            lemma_word_fields(encode(instruction), 17, 16, 0, x1.number() as u32, x0.number() as u32, 6);
        },
        _ => {},
    }
}

/// `law_decode_encode` for the instructions listed in the precondition.
proof fn lemma_decode_encode_10(instruction: Instruction)
    requires
        encodable(instruction),
        instruction is Cvtws || instruction is Cvtsw || instruction is Beql || instruction is Bnel || instruction is Mfhi1 || instruction is Mthi1 || instruction is Mflo1 || instruction is Mtlo1,
    ensures
        spec_decode(encode(instruction)) == Some(instruction),
{
    broadcast use lemma_number_roundtrip, control::lemma_number_roundtrip;

    match instruction {
        Instruction::Cvtws(x0, x1) => {
            lemma_word_fields(encode(instruction), 17, 16, 0, x1.number() as u32, x0.number() as u32, 36);
        },
        Instruction::Cvtsw(x0, x1) => {
            lemma_word_fields(encode(instruction), 17, 20, 0, x1.number() as u32, x0.number() as u32, 32);
        },
        Instruction::Beql(x0, x1, x2) => {
            lemma_immediate_word_fields(encode(instruction), 20, x0.index(), x1.index(), x2 as u32);
        },
        Instruction::Bnel(x0, x1, x2) => {
            lemma_immediate_word_fields(encode(instruction), 21, x0.index(), x1.index(), x2 as u32);
        },
        Instruction::Mfhi1(x0) => {
            lemma_word_fields(encode(instruction), 28, 0, 0, x0.index(), 0, 16);
        },
        Instruction::Mthi1(x0) => {
            lemma_word_fields(encode(instruction), 28, x0.index(), 0, 0, 0, 17);
        },
        Instruction::Mflo1(x0) => {
            lemma_word_fields(encode(instruction), 28, 0, 0, x0.index(), 0, 18);
        },
        Instruction::Mtlo1(x0) => {
            lemma_word_fields(encode(instruction), 28, x0.index(), 0, 0, 0, 19);
        },
        _ => {},
    }
}

/// `law_decode_encode` for the instructions listed in the precondition.
proof fn lemma_decode_encode_11(instruction: Instruction)
    requires
        encodable(instruction),
        instruction is Div1 || instruction is Divu1 || instruction is Sq || instruction is Lb || instruction is Lh || instruction is Lw || instruction is Lbu || instruction is Lhu,
    ensures
        spec_decode(encode(instruction)) == Some(instruction),
{
    broadcast use lemma_number_roundtrip, control::lemma_number_roundtrip;

    match instruction {
        Instruction::Div1(x0, x1) => {
            lemma_word_fields(encode(instruction), 28, x0.index(), x1.index(), 0, 0, 26);
        },
        Instruction::Divu1(x0, x1) => {
            lemma_word_fields(encode(instruction), 28, x0.index(), x1.index(), 0, 0, 27);
        },
        Instruction::Sq(x0, x1, x2) => {
            lemma_immediate_word_fields(encode(instruction), 31, x2.index(), x0.index(), x1 as u32);
        },
        Instruction::Lb(x0, x1, x2) => {
            lemma_immediate_word_fields(encode(instruction), 32, x2.index(), x0.index(), x1 as u32);
        },
        Instruction::Lh(x0, x1, x2) => {
            lemma_immediate_word_fields(encode(instruction), 33, x2.index(), x0.index(), x1 as u32);
        },
        Instruction::Lw(x0, x1, x2) => {
            lemma_immediate_word_fields(encode(instruction), 35, x2.index(), x0.index(), x1 as u32);
        },
        Instruction::Lbu(x0, x1, x2) => {
            lemma_immediate_word_fields(encode(instruction), 36, x2.index(), x0.index(), x1 as u32);
        },
        Instruction::Lhu(x0, x1, x2) => {
            lemma_immediate_word_fields(encode(instruction), 37, x2.index(), x0.index(), x1 as u32);
        },
        _ => {},
    }
}

/// `law_decode_encode` for the instructions listed in the precondition.
proof fn lemma_decode_encode_12(instruction: Instruction)
    requires
        encodable(instruction),
        instruction is Lwr || instruction is Sb || instruction is Sh || instruction is Sw || instruction is Lwc1 || instruction is Ld || instruction is Swc1 || instruction is Sd,
    ensures
        spec_decode(encode(instruction)) == Some(instruction),
{
    broadcast use lemma_number_roundtrip, control::lemma_number_roundtrip;

    match instruction {
        Instruction::Lwr(x0, x1, x2) => {
            lemma_immediate_word_fields(encode(instruction), 38, x2.index(), x0.index(), x1 as u32);
        },
        Instruction::Sb(x0, x1, x2) => {
            lemma_immediate_word_fields(encode(instruction), 40, x2.index(), x0.index(), x1 as u32);
        },
        Instruction::Sh(x0, x1, x2) => {
            lemma_immediate_word_fields(encode(instruction), 41, x2.index(), x0.index(), x1 as u32);
        },
        Instruction::Sw(x0, x1, x2) => {
            lemma_immediate_word_fields(encode(instruction), 43, x2.index(), x0.index(), x1 as u32);
        },
        Instruction::Lwc1(x0, x1, x2) => {
            lemma_immediate_word_fields(encode(instruction), 49, x2.index(), x0.number() as u32, x1 as u32);
        },
        Instruction::Ld(x0, x1, x2) => {
            lemma_immediate_word_fields(encode(instruction), 55, x2.index(), x0.index(), x1 as u32);
        },
        Instruction::Swc1(x0, x1, x2) => {
            lemma_immediate_word_fields(encode(instruction), 57, x2.index(), x0.number() as u32, x1 as u32);
        },
        Instruction::Sd(x0, x1, x2) => {
            lemma_immediate_word_fields(encode(instruction), 63, x2.index(), x0.index(), x1 as u32);
        },
        _ => {},
    }
}

impl Instruction {
    /// Whether the instruction is a jump or branch, which has a delay slot.
    pub open spec fn spec_is_branch(self) -> bool {
        match self {
            Instruction::Jr(..) | Instruction::Jalr(..) | Instruction::Bltz(..) | Instruction::Bgez(..) | Instruction::J(..) | Instruction::Jal(..) | Instruction::Beq(..) | Instruction::Bne(..) | Instruction::Blez(..) | Instruction::Beql(..) | Instruction::Bnel(..) => true,
            _ => false,
        }
    }

    /// Whether the instruction is a branch-likely, which skips its delay slot when not taken.
    pub open spec fn spec_is_branch_likely(self) -> bool {
        match self {
            Instruction::Beql(..) | Instruction::Bnel(..) => true,
            _ => false,
        }
    }

    pub fn is_branch(self) -> (r: bool)
        ensures
            r == self.spec_is_branch(),
    {
        match self {
            Instruction::Jr(..) | Instruction::Jalr(..) | Instruction::Bltz(..) | Instruction::Bgez(..) | Instruction::J(..) | Instruction::Jal(..) | Instruction::Beq(..) | Instruction::Bne(..) | Instruction::Blez(..) | Instruction::Beql(..) | Instruction::Bnel(..) => true,
            _ => false,
        }
    }

    pub fn is_branch_likely(self) -> (r: bool)
        ensures
            r == self.spec_is_branch_likely(),
    {
        match self {
            Instruction::Beql(..) | Instruction::Bnel(..) => true,
            _ => false,
        }
    }

    /// The registers that the instruction writes, in a fixed-size list whose unused slots at the end are
    /// `None`; the zero register may appear.
    pub open spec fn spec_raw_definitions(self) -> Seq<Option<Occurrence>> {
        match self {
            Instruction::Sll(rd, _, _) => seq![Some(Occurrence::Core(rd)), None, None],
            Instruction::Unknown => seq![None, None, None],
            Instruction::Srl(rd, _, _) => seq![Some(Occurrence::Core(rd)), None, None],
            Instruction::Sra(rd, _, _) => seq![Some(Occurrence::Core(rd)), None, None],
            Instruction::Sllv(rd, _, _) => seq![Some(Occurrence::Core(rd)), None, None],
            Instruction::Srlv(rd, _, _) => seq![Some(Occurrence::Core(rd)), None, None],
            Instruction::Srav(rd, _, _) => seq![Some(Occurrence::Core(rd)), None, None],
            Instruction::Jr(_) => seq![None, None, None],
            Instruction::Jalr(_, _) => seq![None, None, None],
            Instruction::Movz(rd, _, _) => seq![Some(Occurrence::Core(rd)), None, None],
            Instruction::Movn(rd, _, _) => seq![Some(Occurrence::Core(rd)), None, None],
            Instruction::Syscall => seq![None, None, None],
            Instruction::Break => seq![None, None, None],
            Instruction::Sync => seq![None, None, None],
            Instruction::Mfhi(rd) => seq![Some(Occurrence::Core(rd)), None, None],
            Instruction::Mthi(_) => seq![Some(Occurrence::Core(Register::Hi)), None, None],
            Instruction::Mflo(rd) => seq![Some(Occurrence::Core(rd)), None, None],
            Instruction::Mtlo(_) => seq![Some(Occurrence::Core(Register::Lo)), None, None],
            Instruction::Dsllv(rd, _, _) => seq![Some(Occurrence::Core(rd)), None, None],
            Instruction::Dsrlv(rd, _, _) => seq![Some(Occurrence::Core(rd)), None, None],
            Instruction::Dsrav(rd, _, _) => seq![Some(Occurrence::Core(rd)), None, None],
            Instruction::Mult(rd, _, _) => seq![Some(Occurrence::Core(rd)), Some(Occurrence::Core(Register::Lo)), Some(Occurrence::Core(Register::Hi))],
            Instruction::Multu(rd, _, _) => seq![Some(Occurrence::Core(rd)), Some(Occurrence::Core(Register::Lo)), Some(Occurrence::Core(Register::Hi))],
            Instruction::Div(_, _) => seq![Some(Occurrence::Core(Register::Lo)), Some(Occurrence::Core(Register::Hi)), None],
            Instruction::Divu(_, _) => seq![Some(Occurrence::Core(Register::Lo)), Some(Occurrence::Core(Register::Hi)), None],
            Instruction::Add(rd, _, _) => seq![Some(Occurrence::Core(rd)), None, None],
            Instruction::Addu(rd, _, _) => seq![Some(Occurrence::Core(rd)), None, None],
            Instruction::Sub(rd, _, _) => seq![Some(Occurrence::Core(rd)), None, None],
            Instruction::Subu(rd, _, _) => seq![Some(Occurrence::Core(rd)), None, None],
            Instruction::And(rd, _, _) => seq![Some(Occurrence::Core(rd)), None, None],
            Instruction::Or(rd, _, _) => seq![Some(Occurrence::Core(rd)), None, None],
            Instruction::Xor(rd, _, _) => seq![Some(Occurrence::Core(rd)), None, None],
            Instruction::Nor(rd, _, _) => seq![Some(Occurrence::Core(rd)), None, None],
            Instruction::Mfsa(rd) => seq![Some(Occurrence::Core(rd)), None, None],
            Instruction::Mtsa(_) => seq![None, None, None],
            Instruction::Slt(rd, _, _) => seq![Some(Occurrence::Core(rd)), None, None],
            Instruction::Sltu(rd, _, _) => seq![Some(Occurrence::Core(rd)), None, None],
            Instruction::Dadd(rd, _, _) => seq![Some(Occurrence::Core(rd)), None, None],
            Instruction::Daddu(rd, _, _) => seq![Some(Occurrence::Core(rd)), None, None],
            Instruction::Dsub(rd, _, _) => seq![Some(Occurrence::Core(rd)), None, None],
            Instruction::Dsubu(rd, _, _) => seq![Some(Occurrence::Core(rd)), None, None],
            Instruction::Tge(_, _) => seq![None, None, None],
            Instruction::Tgeu(_, _) => seq![None, None, None],
            Instruction::Tlt(_, _) => seq![None, None, None],
            Instruction::Tltu(_, _) => seq![None, None, None],
            Instruction::Teq(_, _) => seq![None, None, None],
            Instruction::Tne(_, _) => seq![None, None, None],
            Instruction::Dsll(rd, _, _) => seq![Some(Occurrence::Core(rd)), None, None],
            Instruction::Dsrl(rd, _, _) => seq![Some(Occurrence::Core(rd)), None, None],
            Instruction::Dsra(rd, _, _) => seq![Some(Occurrence::Core(rd)), None, None],
            Instruction::Dsll32(rd, _, _) => seq![Some(Occurrence::Core(rd)), None, None],
            Instruction::Dsrl32(rd, _, _) => seq![Some(Occurrence::Core(rd)), None, None],
            Instruction::Dsra32(rd, _, _) => seq![Some(Occurrence::Core(rd)), None, None],
            Instruction::Bltz(_, _) => seq![None, None, None],
            Instruction::Bgez(_, _) => seq![None, None, None],
            Instruction::J(_) => seq![None, None, None],
            Instruction::Jal(_) => seq![None, None, None],
            Instruction::Beq(_, _, _) => seq![None, None, None],
            Instruction::Bne(_, _, _) => seq![None, None, None],
            Instruction::Blez(_, _) => seq![None, None, None],
            Instruction::Addi(rt, _, _) => seq![Some(Occurrence::Core(rt)), None, None],
            Instruction::Addiu(rt, _, _) => seq![Some(Occurrence::Core(rt)), None, None],
            Instruction::Slti(rt, _, _) => seq![Some(Occurrence::Core(rt)), None, None],
            Instruction::Sltiu(rt, _, _) => seq![Some(Occurrence::Core(rt)), None, None],
            Instruction::Andi(rt, _, _) => seq![Some(Occurrence::Core(rt)), None, None],
            Instruction::Ori(rt, _, _) => seq![Some(Occurrence::Core(rt)), None, None],
            Instruction::Xori(rt, _, _) => seq![Some(Occurrence::Core(rt)), None, None],
            Instruction::Lui(rt, _) => seq![Some(Occurrence::Core(rt)), None, None],
            Instruction::Mfc0(rt, _) => seq![Some(Occurrence::Core(rt)), None, None],
            Instruction::Mtc0(cd, _) => seq![Some(Occurrence::Control(cd)), None, None],
            Instruction::Tlbr => seq![None, None, None],
            Instruction::Tlbwi => seq![None, None, None],
            Instruction::Tlbwr => seq![None, None, None],
            Instruction::Tlbp => seq![None, None, None],
            Instruction::Ei => seq![None, None, None],
            Instruction::Mfc1(rt, _) => seq![Some(Occurrence::Core(rt)), None, None],
            Instruction::Mtc1(fs, _) => seq![Some(Occurrence::Fpu(fs)), None, None],
            Instruction::Muls(fd, _, _) => seq![Some(Occurrence::Fpu(fd)), None, None],
            Instruction::Divs(fd, _, _) => seq![Some(Occurrence::Fpu(fd)), None, None],
            Instruction::Movs(fd, _) => seq![Some(Occurrence::Fpu(fd)), None, None],
            Instruction::Cvtws(fd, _) => seq![Some(Occurrence::Fpu(fd)), None, None],
            Instruction::Cvtsw(fd, _) => seq![Some(Occurrence::Fpu(fd)), None, None],
            Instruction::Beql(_, _, _) => seq![None, None, None],
            Instruction::Bnel(_, _, _) => seq![None, None, None],
            Instruction::Mfhi1(rd) => seq![Some(Occurrence::Core(rd)), None, None],
            Instruction::Mthi1(_) => seq![Some(Occurrence::Core(Register::Hi)), None, None],
            Instruction::Mflo1(rd) => seq![Some(Occurrence::Core(rd)), None, None],
            Instruction::Mtlo1(_) => seq![Some(Occurrence::Core(Register::Lo)), None, None],
            Instruction::Div1(_, _) => seq![Some(Occurrence::Core(Register::Lo)), Some(Occurrence::Core(Register::Hi)), None],
            Instruction::Divu1(_, _) => seq![Some(Occurrence::Core(Register::Lo)), Some(Occurrence::Core(Register::Hi)), None],
            Instruction::Sq(_, _, _) => seq![None, None, None],
            Instruction::Lb(rt, _, _) => seq![Some(Occurrence::Core(rt)), None, None],
            Instruction::Lh(rt, _, _) => seq![Some(Occurrence::Core(rt)), None, None],
            Instruction::Lw(rt, _, _) => seq![Some(Occurrence::Core(rt)), None, None],
            Instruction::Lbu(rt, _, _) => seq![Some(Occurrence::Core(rt)), None, None],
            Instruction::Lhu(rt, _, _) => seq![Some(Occurrence::Core(rt)), None, None],
            Instruction::Lwr(rt, _, _) => seq![Some(Occurrence::Core(rt)), None, None],
            Instruction::Sb(_, _, _) => seq![None, None, None],
            Instruction::Sh(_, _, _) => seq![None, None, None],
            Instruction::Sw(_, _, _) => seq![None, None, None],
            Instruction::Lwc1(ft, _, _) => seq![Some(Occurrence::Fpu(ft)), None, None],
            Instruction::Ld(rt, _, _) => seq![Some(Occurrence::Core(rt)), None, None],
            Instruction::Swc1(_, _, _) => seq![None, None, None],
            Instruction::Sd(_, _, _) => seq![None, None, None],
        }
    }

    pub fn raw_definitions(self) -> (r: [Option<Occurrence>; 3])
        ensures
            r@ == self.spec_raw_definitions(),
    {
        match self {
            Instruction::Sll(rd, _, _) => [Some(Occurrence::Core(rd)), None, None],
            Instruction::Unknown => [None, None, None],
            Instruction::Srl(rd, _, _) => [Some(Occurrence::Core(rd)), None, None],
            Instruction::Sra(rd, _, _) => [Some(Occurrence::Core(rd)), None, None],
            Instruction::Sllv(rd, _, _) => [Some(Occurrence::Core(rd)), None, None],
            Instruction::Srlv(rd, _, _) => [Some(Occurrence::Core(rd)), None, None],
            Instruction::Srav(rd, _, _) => [Some(Occurrence::Core(rd)), None, None],
            Instruction::Jr(_) => [None, None, None],
            Instruction::Jalr(_, _) => [None, None, None],
            Instruction::Movz(rd, _, _) => [Some(Occurrence::Core(rd)), None, None],
            Instruction::Movn(rd, _, _) => [Some(Occurrence::Core(rd)), None, None],
            Instruction::Syscall => [None, None, None],
            Instruction::Break => [None, None, None],
            Instruction::Sync => [None, None, None],
            Instruction::Mfhi(rd) => [Some(Occurrence::Core(rd)), None, None],
            Instruction::Mthi(_) => [Some(Occurrence::Core(Register::Hi)), None, None],
            Instruction::Mflo(rd) => [Some(Occurrence::Core(rd)), None, None],
            Instruction::Mtlo(_) => [Some(Occurrence::Core(Register::Lo)), None, None],
            Instruction::Dsllv(rd, _, _) => [Some(Occurrence::Core(rd)), None, None],
            Instruction::Dsrlv(rd, _, _) => [Some(Occurrence::Core(rd)), None, None],
            Instruction::Dsrav(rd, _, _) => [Some(Occurrence::Core(rd)), None, None],
            Instruction::Mult(rd, _, _) => [Some(Occurrence::Core(rd)), Some(Occurrence::Core(Register::Lo)), Some(Occurrence::Core(Register::Hi))],
            Instruction::Multu(rd, _, _) => [Some(Occurrence::Core(rd)), Some(Occurrence::Core(Register::Lo)), Some(Occurrence::Core(Register::Hi))],
            Instruction::Div(_, _) => [Some(Occurrence::Core(Register::Lo)), Some(Occurrence::Core(Register::Hi)), None],
            Instruction::Divu(_, _) => [Some(Occurrence::Core(Register::Lo)), Some(Occurrence::Core(Register::Hi)), None],
            Instruction::Add(rd, _, _) => [Some(Occurrence::Core(rd)), None, None],
            Instruction::Addu(rd, _, _) => [Some(Occurrence::Core(rd)), None, None],
            Instruction::Sub(rd, _, _) => [Some(Occurrence::Core(rd)), None, None],
            Instruction::Subu(rd, _, _) => [Some(Occurrence::Core(rd)), None, None],
            Instruction::And(rd, _, _) => [Some(Occurrence::Core(rd)), None, None],
            Instruction::Or(rd, _, _) => [Some(Occurrence::Core(rd)), None, None],
            Instruction::Xor(rd, _, _) => [Some(Occurrence::Core(rd)), None, None],
            Instruction::Nor(rd, _, _) => [Some(Occurrence::Core(rd)), None, None],
            Instruction::Mfsa(rd) => [Some(Occurrence::Core(rd)), None, None],
            Instruction::Mtsa(_) => [None, None, None],
            Instruction::Slt(rd, _, _) => [Some(Occurrence::Core(rd)), None, None],
            Instruction::Sltu(rd, _, _) => [Some(Occurrence::Core(rd)), None, None],
            Instruction::Dadd(rd, _, _) => [Some(Occurrence::Core(rd)), None, None],
            Instruction::Daddu(rd, _, _) => [Some(Occurrence::Core(rd)), None, None],
            Instruction::Dsub(rd, _, _) => [Some(Occurrence::Core(rd)), None, None],
            Instruction::Dsubu(rd, _, _) => [Some(Occurrence::Core(rd)), None, None],
            Instruction::Tge(_, _) => [None, None, None],
            Instruction::Tgeu(_, _) => [None, None, None],
            Instruction::Tlt(_, _) => [None, None, None],
            Instruction::Tltu(_, _) => [None, None, None],
            Instruction::Teq(_, _) => [None, None, None],
            Instruction::Tne(_, _) => [None, None, None],
            Instruction::Dsll(rd, _, _) => [Some(Occurrence::Core(rd)), None, None],
            Instruction::Dsrl(rd, _, _) => [Some(Occurrence::Core(rd)), None, None],
            Instruction::Dsra(rd, _, _) => [Some(Occurrence::Core(rd)), None, None],
            Instruction::Dsll32(rd, _, _) => [Some(Occurrence::Core(rd)), None, None],
            Instruction::Dsrl32(rd, _, _) => [Some(Occurrence::Core(rd)), None, None],
            Instruction::Dsra32(rd, _, _) => [Some(Occurrence::Core(rd)), None, None],
            Instruction::Bltz(_, _) => [None, None, None],
            Instruction::Bgez(_, _) => [None, None, None],
            Instruction::J(_) => [None, None, None],
            Instruction::Jal(_) => [None, None, None],
            Instruction::Beq(_, _, _) => [None, None, None],
            Instruction::Bne(_, _, _) => [None, None, None],
            Instruction::Blez(_, _) => [None, None, None],
            Instruction::Addi(rt, _, _) => [Some(Occurrence::Core(rt)), None, None],
            Instruction::Addiu(rt, _, _) => [Some(Occurrence::Core(rt)), None, None],
            Instruction::Slti(rt, _, _) => [Some(Occurrence::Core(rt)), None, None],
            Instruction::Sltiu(rt, _, _) => [Some(Occurrence::Core(rt)), None, None],
            Instruction::Andi(rt, _, _) => [Some(Occurrence::Core(rt)), None, None],
            Instruction::Ori(rt, _, _) => [Some(Occurrence::Core(rt)), None, None],
            Instruction::Xori(rt, _, _) => [Some(Occurrence::Core(rt)), None, None],
            Instruction::Lui(rt, _) => [Some(Occurrence::Core(rt)), None, None],
            Instruction::Mfc0(rt, _) => [Some(Occurrence::Core(rt)), None, None],
            Instruction::Mtc0(cd, _) => [Some(Occurrence::Control(cd)), None, None],
            Instruction::Tlbr => [None, None, None],
            Instruction::Tlbwi => [None, None, None],
            Instruction::Tlbwr => [None, None, None],
            Instruction::Tlbp => [None, None, None],
            Instruction::Ei => [None, None, None],
            Instruction::Mfc1(rt, _) => [Some(Occurrence::Core(rt)), None, None],
            Instruction::Mtc1(fs, _) => [Some(Occurrence::Fpu(fs)), None, None],
            Instruction::Muls(fd, _, _) => [Some(Occurrence::Fpu(fd)), None, None],
            Instruction::Divs(fd, _, _) => [Some(Occurrence::Fpu(fd)), None, None],
            Instruction::Movs(fd, _) => [Some(Occurrence::Fpu(fd)), None, None],
            Instruction::Cvtws(fd, _) => [Some(Occurrence::Fpu(fd)), None, None],
            Instruction::Cvtsw(fd, _) => [Some(Occurrence::Fpu(fd)), None, None],
            Instruction::Beql(_, _, _) => [None, None, None],
            Instruction::Bnel(_, _, _) => [None, None, None],
            Instruction::Mfhi1(rd) => [Some(Occurrence::Core(rd)), None, None],
            Instruction::Mthi1(_) => [Some(Occurrence::Core(Register::Hi)), None, None],
            Instruction::Mflo1(rd) => [Some(Occurrence::Core(rd)), None, None],
            Instruction::Mtlo1(_) => [Some(Occurrence::Core(Register::Lo)), None, None],
            Instruction::Div1(_, _) => [Some(Occurrence::Core(Register::Lo)), Some(Occurrence::Core(Register::Hi)), None],
            Instruction::Divu1(_, _) => [Some(Occurrence::Core(Register::Lo)), Some(Occurrence::Core(Register::Hi)), None],
            Instruction::Sq(_, _, _) => [None, None, None],
            Instruction::Lb(rt, _, _) => [Some(Occurrence::Core(rt)), None, None],
            Instruction::Lh(rt, _, _) => [Some(Occurrence::Core(rt)), None, None],
            Instruction::Lw(rt, _, _) => [Some(Occurrence::Core(rt)), None, None],
            Instruction::Lbu(rt, _, _) => [Some(Occurrence::Core(rt)), None, None],
            Instruction::Lhu(rt, _, _) => [Some(Occurrence::Core(rt)), None, None],
            Instruction::Lwr(rt, _, _) => [Some(Occurrence::Core(rt)), None, None],
            Instruction::Sb(_, _, _) => [None, None, None],
            Instruction::Sh(_, _, _) => [None, None, None],
            Instruction::Sw(_, _, _) => [None, None, None],
            Instruction::Lwc1(ft, _, _) => [Some(Occurrence::Fpu(ft)), None, None],
            Instruction::Ld(rt, _, _) => [Some(Occurrence::Core(rt)), None, None],
            Instruction::Swc1(_, _, _) => [None, None, None],
            Instruction::Sd(_, _, _) => [None, None, None],
        }
    }

    /// The registers that the instruction reads, in a fixed-size list whose unused slots at the end are
    /// `None`; the zero register may appear.
    pub open spec fn spec_raw_uses(self) -> Seq<Option<Occurrence>> {
        match self {
            Instruction::Sll(_, rt, _) => seq![Some(Occurrence::Core(rt)), None],
            Instruction::Unknown => seq![None, None],
            Instruction::Srl(_, rt, _) => seq![Some(Occurrence::Core(rt)), None],
            Instruction::Sra(_, rt, _) => seq![Some(Occurrence::Core(rt)), None],
            Instruction::Sllv(_, rt, rs) => seq![Some(Occurrence::Core(rt)), Some(Occurrence::Core(rs))],
            Instruction::Srlv(_, rt, rs) => seq![Some(Occurrence::Core(rt)), Some(Occurrence::Core(rs))],
            Instruction::Srav(_, rt, rs) => seq![Some(Occurrence::Core(rt)), Some(Occurrence::Core(rs))],
            Instruction::Jr(rs) => seq![Some(Occurrence::Core(rs)), None],
            Instruction::Jalr(rd, rs) => seq![Some(Occurrence::Core(rd)), Some(Occurrence::Core(rs))],
            Instruction::Movz(_, rs, rt) => seq![Some(Occurrence::Core(rs)), Some(Occurrence::Core(rt))],
            Instruction::Movn(_, rs, rt) => seq![Some(Occurrence::Core(rs)), Some(Occurrence::Core(rt))],
            Instruction::Syscall => seq![None, None],
            Instruction::Break => seq![None, None],
            Instruction::Sync => seq![None, None],
            Instruction::Mfhi(_) => seq![Some(Occurrence::Core(Register::Hi)), None],
            Instruction::Mthi(rs) => seq![Some(Occurrence::Core(rs)), None],
            Instruction::Mflo(_) => seq![Some(Occurrence::Core(Register::Lo)), None],
            Instruction::Mtlo(rs) => seq![Some(Occurrence::Core(rs)), None],
            Instruction::Dsllv(_, rt, rs) => seq![Some(Occurrence::Core(rt)), Some(Occurrence::Core(rs))],
            Instruction::Dsrlv(_, rt, rs) => seq![Some(Occurrence::Core(rt)), Some(Occurrence::Core(rs))],
            Instruction::Dsrav(_, rt, rs) => seq![Some(Occurrence::Core(rt)), Some(Occurrence::Core(rs))],
            Instruction::Mult(_, rs, rt) => seq![Some(Occurrence::Core(rs)), Some(Occurrence::Core(rt))],
            Instruction::Multu(_, rs, rt) => seq![Some(Occurrence::Core(rs)), Some(Occurrence::Core(rt))],
            Instruction::Div(rs, rt) => seq![Some(Occurrence::Core(rs)), Some(Occurrence::Core(rt))],
            Instruction::Divu(rs, rt) => seq![Some(Occurrence::Core(rs)), Some(Occurrence::Core(rt))],
            Instruction::Add(_, rs, rt) => seq![Some(Occurrence::Core(rs)), Some(Occurrence::Core(rt))],
            Instruction::Addu(_, rs, rt) => seq![Some(Occurrence::Core(rs)), Some(Occurrence::Core(rt))],
            Instruction::Sub(_, rs, rt) => seq![Some(Occurrence::Core(rs)), Some(Occurrence::Core(rt))],
            Instruction::Subu(_, rs, rt) => seq![Some(Occurrence::Core(rs)), Some(Occurrence::Core(rt))],
            Instruction::And(_, rs, rt) => seq![Some(Occurrence::Core(rs)), Some(Occurrence::Core(rt))],
            Instruction::Or(_, rs, rt) => seq![Some(Occurrence::Core(rs)), Some(Occurrence::Core(rt))],
            Instruction::Xor(_, rs, rt) => seq![Some(Occurrence::Core(rs)), Some(Occurrence::Core(rt))],
            Instruction::Nor(_, rs, rt) => seq![Some(Occurrence::Core(rs)), Some(Occurrence::Core(rt))],
            Instruction::Mfsa(_) => seq![None, None],
            Instruction::Mtsa(rs) => seq![Some(Occurrence::Core(rs)), None],
            Instruction::Slt(_, rs, rt) => seq![Some(Occurrence::Core(rs)), Some(Occurrence::Core(rt))],
            Instruction::Sltu(_, rs, rt) => seq![Some(Occurrence::Core(rs)), Some(Occurrence::Core(rt))],
            Instruction::Dadd(_, rs, rt) => seq![Some(Occurrence::Core(rs)), Some(Occurrence::Core(rt))],
            Instruction::Daddu(_, rs, rt) => seq![Some(Occurrence::Core(rs)), Some(Occurrence::Core(rt))],
            Instruction::Dsub(_, rs, rt) => seq![Some(Occurrence::Core(rs)), Some(Occurrence::Core(rt))],
            Instruction::Dsubu(_, rs, rt) => seq![Some(Occurrence::Core(rs)), Some(Occurrence::Core(rt))],
            Instruction::Tge(rs, rt) => seq![Some(Occurrence::Core(rs)), Some(Occurrence::Core(rt))],
            Instruction::Tgeu(rs, rt) => seq![Some(Occurrence::Core(rs)), Some(Occurrence::Core(rt))],
            Instruction::Tlt(rs, rt) => seq![Some(Occurrence::Core(rs)), Some(Occurrence::Core(rt))],
            Instruction::Tltu(rs, rt) => seq![Some(Occurrence::Core(rs)), Some(Occurrence::Core(rt))],
            Instruction::Teq(rs, rt) => seq![Some(Occurrence::Core(rs)), Some(Occurrence::Core(rt))],
            Instruction::Tne(rs, rt) => seq![Some(Occurrence::Core(rs)), Some(Occurrence::Core(rt))],
            Instruction::Dsll(_, rt, _) => seq![Some(Occurrence::Core(rt)), None],
            Instruction::Dsrl(_, rt, _) => seq![Some(Occurrence::Core(rt)), None],
            Instruction::Dsra(_, rt, _) => seq![Some(Occurrence::Core(rt)), None],
            Instruction::Dsll32(_, rt, _) => seq![Some(Occurrence::Core(rt)), None],
            Instruction::Dsrl32(_, rt, _) => seq![Some(Occurrence::Core(rt)), None],
            Instruction::Dsra32(_, rt, _) => seq![Some(Occurrence::Core(rt)), None],
            Instruction::Bltz(rs, _) => seq![Some(Occurrence::Core(rs)), None],
            Instruction::Bgez(rs, _) => seq![Some(Occurrence::Core(rs)), None],
            Instruction::J(_) => seq![None, None],
            Instruction::Jal(_) => seq![None, None],
            Instruction::Beq(rs, rt, _) => seq![Some(Occurrence::Core(rs)), Some(Occurrence::Core(rt))],
            Instruction::Bne(rs, rt, _) => seq![Some(Occurrence::Core(rs)), Some(Occurrence::Core(rt))],
            Instruction::Blez(rs, _) => seq![Some(Occurrence::Core(rs)), None],
            Instruction::Addi(_, rs, _) => seq![Some(Occurrence::Core(rs)), None],
            Instruction::Addiu(_, rs, _) => seq![Some(Occurrence::Core(rs)), None],
            Instruction::Slti(_, rs, _) => seq![Some(Occurrence::Core(rs)), None],
            Instruction::Sltiu(_, rs, _) => seq![Some(Occurrence::Core(rs)), None],
            Instruction::Andi(_, rs, _) => seq![Some(Occurrence::Core(rs)), None],
            Instruction::Ori(_, rs, _) => seq![Some(Occurrence::Core(rs)), None],
            Instruction::Xori(_, rs, _) => seq![Some(Occurrence::Core(rs)), None],
            Instruction::Lui(_, _) => seq![None, None],
            Instruction::Mfc0(_, cd) => seq![Some(Occurrence::Control(cd)), None],
            Instruction::Mtc0(_, rt) => seq![Some(Occurrence::Core(rt)), None],
            Instruction::Tlbr => seq![None, None],
            Instruction::Tlbwi => seq![None, None],
            Instruction::Tlbwr => seq![None, None],
            Instruction::Tlbp => seq![None, None],
            Instruction::Ei => seq![None, None],
            Instruction::Mfc1(_, fs) => seq![Some(Occurrence::Fpu(fs)), None],
            Instruction::Mtc1(_, rt) => seq![Some(Occurrence::Core(rt)), None],
            Instruction::Muls(_, fs, ft) => seq![Some(Occurrence::Fpu(fs)), Some(Occurrence::Fpu(ft))],
            Instruction::Divs(_, fs, ft) => seq![Some(Occurrence::Fpu(fs)), Some(Occurrence::Fpu(ft))],
            Instruction::Movs(_, fs) => seq![Some(Occurrence::Fpu(fs)), None],
            Instruction::Cvtws(_, fs) => seq![Some(Occurrence::Fpu(fs)), None],
            Instruction::Cvtsw(_, fs) => seq![Some(Occurrence::Fpu(fs)), None],
            Instruction::Beql(rs, rt, _) => seq![Some(Occurrence::Core(rs)), Some(Occurrence::Core(rt))],
            Instruction::Bnel(rs, rt, _) => seq![Some(Occurrence::Core(rs)), Some(Occurrence::Core(rt))],
            Instruction::Mfhi1(_) => seq![Some(Occurrence::Core(Register::Hi)), None],
            Instruction::Mthi1(rs) => seq![Some(Occurrence::Core(rs)), None],
            Instruction::Mflo1(_) => seq![Some(Occurrence::Core(Register::Lo)), None],
            Instruction::Mtlo1(rs) => seq![Some(Occurrence::Core(rs)), None],
            Instruction::Div1(rs, rt) => seq![Some(Occurrence::Core(rs)), Some(Occurrence::Core(rt))],
            Instruction::Divu1(rs, rt) => seq![Some(Occurrence::Core(rs)), Some(Occurrence::Core(rt))],
            Instruction::Sq(rt, _, rs) => seq![Some(Occurrence::Core(rt)), Some(Occurrence::Core(rs))],
            Instruction::Lb(_, _, rs) => seq![Some(Occurrence::Core(rs)), None],
            Instruction::Lh(_, _, rs) => seq![Some(Occurrence::Core(rs)), None],
            Instruction::Lw(_, _, rs) => seq![Some(Occurrence::Core(rs)), None],
            Instruction::Lbu(_, _, rs) => seq![Some(Occurrence::Core(rs)), None],
            Instruction::Lhu(_, _, rs) => seq![Some(Occurrence::Core(rs)), None],
            Instruction::Lwr(rt, _, rs) => seq![Some(Occurrence::Core(rs)), Some(Occurrence::Core(rt))],
            Instruction::Sb(rt, _, rs) => seq![Some(Occurrence::Core(rt)), Some(Occurrence::Core(rs))],
            Instruction::Sh(rt, _, rs) => seq![Some(Occurrence::Core(rt)), Some(Occurrence::Core(rs))],
            Instruction::Sw(rt, _, rs) => seq![Some(Occurrence::Core(rt)), Some(Occurrence::Core(rs))],
            Instruction::Lwc1(_, _, rs) => seq![Some(Occurrence::Core(rs)), None],
            Instruction::Ld(_, _, rs) => seq![Some(Occurrence::Core(rs)), None],
            Instruction::Swc1(ft, _, rs) => seq![Some(Occurrence::Fpu(ft)), Some(Occurrence::Core(rs))],
            Instruction::Sd(rt, _, rs) => seq![Some(Occurrence::Core(rt)), Some(Occurrence::Core(rs))],
        }
    }

    pub fn raw_uses(self) -> (r: [Option<Occurrence>; 2])
        ensures
            r@ == self.spec_raw_uses(),
    {
        match self {
            Instruction::Sll(_, rt, _) => [Some(Occurrence::Core(rt)), None],
            Instruction::Unknown => [None, None],
            Instruction::Srl(_, rt, _) => [Some(Occurrence::Core(rt)), None],
            Instruction::Sra(_, rt, _) => [Some(Occurrence::Core(rt)), None],
            Instruction::Sllv(_, rt, rs) => [Some(Occurrence::Core(rt)), Some(Occurrence::Core(rs))],
            Instruction::Srlv(_, rt, rs) => [Some(Occurrence::Core(rt)), Some(Occurrence::Core(rs))],
            Instruction::Srav(_, rt, rs) => [Some(Occurrence::Core(rt)), Some(Occurrence::Core(rs))],
            Instruction::Jr(rs) => [Some(Occurrence::Core(rs)), None],
            Instruction::Jalr(rd, rs) => [Some(Occurrence::Core(rd)), Some(Occurrence::Core(rs))],
            Instruction::Movz(_, rs, rt) => [Some(Occurrence::Core(rs)), Some(Occurrence::Core(rt))],
            Instruction::Movn(_, rs, rt) => [Some(Occurrence::Core(rs)), Some(Occurrence::Core(rt))],
            Instruction::Syscall => [None, None],
            Instruction::Break => [None, None],
            Instruction::Sync => [None, None],
            Instruction::Mfhi(_) => [Some(Occurrence::Core(Register::Hi)), None],
            Instruction::Mthi(rs) => [Some(Occurrence::Core(rs)), None],
            Instruction::Mflo(_) => [Some(Occurrence::Core(Register::Lo)), None],
            Instruction::Mtlo(rs) => [Some(Occurrence::Core(rs)), None],
            Instruction::Dsllv(_, rt, rs) => [Some(Occurrence::Core(rt)), Some(Occurrence::Core(rs))],
            Instruction::Dsrlv(_, rt, rs) => [Some(Occurrence::Core(rt)), Some(Occurrence::Core(rs))],
            Instruction::Dsrav(_, rt, rs) => [Some(Occurrence::Core(rt)), Some(Occurrence::Core(rs))],
            Instruction::Mult(_, rs, rt) => [Some(Occurrence::Core(rs)), Some(Occurrence::Core(rt))],
            Instruction::Multu(_, rs, rt) => [Some(Occurrence::Core(rs)), Some(Occurrence::Core(rt))],
            Instruction::Div(rs, rt) => [Some(Occurrence::Core(rs)), Some(Occurrence::Core(rt))],
            Instruction::Divu(rs, rt) => [Some(Occurrence::Core(rs)), Some(Occurrence::Core(rt))],
            Instruction::Add(_, rs, rt) => [Some(Occurrence::Core(rs)), Some(Occurrence::Core(rt))],
            Instruction::Addu(_, rs, rt) => [Some(Occurrence::Core(rs)), Some(Occurrence::Core(rt))],
            Instruction::Sub(_, rs, rt) => [Some(Occurrence::Core(rs)), Some(Occurrence::Core(rt))],
            Instruction::Subu(_, rs, rt) => [Some(Occurrence::Core(rs)), Some(Occurrence::Core(rt))],
            Instruction::And(_, rs, rt) => [Some(Occurrence::Core(rs)), Some(Occurrence::Core(rt))],
            Instruction::Or(_, rs, rt) => [Some(Occurrence::Core(rs)), Some(Occurrence::Core(rt))],
            Instruction::Xor(_, rs, rt) => [Some(Occurrence::Core(rs)), Some(Occurrence::Core(rt))],
            Instruction::Nor(_, rs, rt) => [Some(Occurrence::Core(rs)), Some(Occurrence::Core(rt))],
            Instruction::Mfsa(_) => [None, None],
            Instruction::Mtsa(rs) => [Some(Occurrence::Core(rs)), None],
            Instruction::Slt(_, rs, rt) => [Some(Occurrence::Core(rs)), Some(Occurrence::Core(rt))],
            Instruction::Sltu(_, rs, rt) => [Some(Occurrence::Core(rs)), Some(Occurrence::Core(rt))],
            Instruction::Dadd(_, rs, rt) => [Some(Occurrence::Core(rs)), Some(Occurrence::Core(rt))],
            Instruction::Daddu(_, rs, rt) => [Some(Occurrence::Core(rs)), Some(Occurrence::Core(rt))],
            Instruction::Dsub(_, rs, rt) => [Some(Occurrence::Core(rs)), Some(Occurrence::Core(rt))],
            Instruction::Dsubu(_, rs, rt) => [Some(Occurrence::Core(rs)), Some(Occurrence::Core(rt))],
            Instruction::Tge(rs, rt) => [Some(Occurrence::Core(rs)), Some(Occurrence::Core(rt))],
            Instruction::Tgeu(rs, rt) => [Some(Occurrence::Core(rs)), Some(Occurrence::Core(rt))],
            Instruction::Tlt(rs, rt) => [Some(Occurrence::Core(rs)), Some(Occurrence::Core(rt))],
            Instruction::Tltu(rs, rt) => [Some(Occurrence::Core(rs)), Some(Occurrence::Core(rt))],
            Instruction::Teq(rs, rt) => [Some(Occurrence::Core(rs)), Some(Occurrence::Core(rt))],
            Instruction::Tne(rs, rt) => [Some(Occurrence::Core(rs)), Some(Occurrence::Core(rt))],
            Instruction::Dsll(_, rt, _) => [Some(Occurrence::Core(rt)), None],
            Instruction::Dsrl(_, rt, _) => [Some(Occurrence::Core(rt)), None],
            Instruction::Dsra(_, rt, _) => [Some(Occurrence::Core(rt)), None],
            Instruction::Dsll32(_, rt, _) => [Some(Occurrence::Core(rt)), None],
            Instruction::Dsrl32(_, rt, _) => [Some(Occurrence::Core(rt)), None],
            Instruction::Dsra32(_, rt, _) => [Some(Occurrence::Core(rt)), None],
            Instruction::Bltz(rs, _) => [Some(Occurrence::Core(rs)), None],
            Instruction::Bgez(rs, _) => [Some(Occurrence::Core(rs)), None],
            Instruction::J(_) => [None, None],
            Instruction::Jal(_) => [None, None],
            Instruction::Beq(rs, rt, _) => [Some(Occurrence::Core(rs)), Some(Occurrence::Core(rt))],
            Instruction::Bne(rs, rt, _) => [Some(Occurrence::Core(rs)), Some(Occurrence::Core(rt))],
            Instruction::Blez(rs, _) => [Some(Occurrence::Core(rs)), None],
            Instruction::Addi(_, rs, _) => [Some(Occurrence::Core(rs)), None],
            Instruction::Addiu(_, rs, _) => [Some(Occurrence::Core(rs)), None],
            Instruction::Slti(_, rs, _) => [Some(Occurrence::Core(rs)), None],
            Instruction::Sltiu(_, rs, _) => [Some(Occurrence::Core(rs)), None],
            Instruction::Andi(_, rs, _) => [Some(Occurrence::Core(rs)), None],
            Instruction::Ori(_, rs, _) => [Some(Occurrence::Core(rs)), None],
            Instruction::Xori(_, rs, _) => [Some(Occurrence::Core(rs)), None],
            Instruction::Lui(_, _) => [None, None],
            Instruction::Mfc0(_, cd) => [Some(Occurrence::Control(cd)), None],
            Instruction::Mtc0(_, rt) => [Some(Occurrence::Core(rt)), None],
            Instruction::Tlbr => [None, None],
            Instruction::Tlbwi => [None, None],
            Instruction::Tlbwr => [None, None],
            Instruction::Tlbp => [None, None],
            Instruction::Ei => [None, None],
            Instruction::Mfc1(_, fs) => [Some(Occurrence::Fpu(fs)), None],
            Instruction::Mtc1(_, rt) => [Some(Occurrence::Core(rt)), None],
            Instruction::Muls(_, fs, ft) => [Some(Occurrence::Fpu(fs)), Some(Occurrence::Fpu(ft))],
            Instruction::Divs(_, fs, ft) => [Some(Occurrence::Fpu(fs)), Some(Occurrence::Fpu(ft))],
            Instruction::Movs(_, fs) => [Some(Occurrence::Fpu(fs)), None],
            Instruction::Cvtws(_, fs) => [Some(Occurrence::Fpu(fs)), None],
            Instruction::Cvtsw(_, fs) => [Some(Occurrence::Fpu(fs)), None],
            Instruction::Beql(rs, rt, _) => [Some(Occurrence::Core(rs)), Some(Occurrence::Core(rt))],
            Instruction::Bnel(rs, rt, _) => [Some(Occurrence::Core(rs)), Some(Occurrence::Core(rt))],
            Instruction::Mfhi1(_) => [Some(Occurrence::Core(Register::Hi)), None],
            Instruction::Mthi1(rs) => [Some(Occurrence::Core(rs)), None],
            Instruction::Mflo1(_) => [Some(Occurrence::Core(Register::Lo)), None],
            Instruction::Mtlo1(rs) => [Some(Occurrence::Core(rs)), None],
            Instruction::Div1(rs, rt) => [Some(Occurrence::Core(rs)), Some(Occurrence::Core(rt))],
            Instruction::Divu1(rs, rt) => [Some(Occurrence::Core(rs)), Some(Occurrence::Core(rt))],
            Instruction::Sq(rt, _, rs) => [Some(Occurrence::Core(rt)), Some(Occurrence::Core(rs))],
            Instruction::Lb(_, _, rs) => [Some(Occurrence::Core(rs)), None],
            Instruction::Lh(_, _, rs) => [Some(Occurrence::Core(rs)), None],
            Instruction::Lw(_, _, rs) => [Some(Occurrence::Core(rs)), None],
            Instruction::Lbu(_, _, rs) => [Some(Occurrence::Core(rs)), None],
            Instruction::Lhu(_, _, rs) => [Some(Occurrence::Core(rs)), None],
            Instruction::Lwr(rt, _, rs) => [Some(Occurrence::Core(rs)), Some(Occurrence::Core(rt))],
            Instruction::Sb(rt, _, rs) => [Some(Occurrence::Core(rt)), Some(Occurrence::Core(rs))],
            Instruction::Sh(rt, _, rs) => [Some(Occurrence::Core(rt)), Some(Occurrence::Core(rs))],
            Instruction::Sw(rt, _, rs) => [Some(Occurrence::Core(rt)), Some(Occurrence::Core(rs))],
            Instruction::Lwc1(_, _, rs) => [Some(Occurrence::Core(rs)), None],
            Instruction::Ld(_, _, rs) => [Some(Occurrence::Core(rs)), None],
            Instruction::Swc1(ft, _, rs) => [Some(Occurrence::Fpu(ft)), Some(Occurrence::Core(rs))],
            Instruction::Sd(rt, _, rs) => [Some(Occurrence::Core(rt)), Some(Occurrence::Core(rs))],
        }
    }
}

} // verus!
