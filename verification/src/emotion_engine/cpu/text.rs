use vstd::prelude::*;
use vstd::string::StringExecFns;

use super::instruction_gen::Instruction;
use super::register::Register;
use crate::instruction_format::push_char;

verus! {

/// The character of digit `d` (below 16): `0` to `9`, then `a` to `f`.
pub open spec fn digit_char(d: nat) -> char {
    if d < 10 {
        (('0' as u32) + d) as char
    } else {
        (('a' as u32) + d - 10) as char
    }
}

/// `n` in decimal, without leading zeros.
pub open spec fn decimal_text(n: nat) -> Seq<char>
    decreases n,
{
    if n < 10 {
        seq![digit_char(n)]
    } else {
        decimal_text(n / 10).push(digit_char(n % 10))
    }
}

/// `n` in lower-case hexadecimal, without leading zeros.
pub open spec fn hex_text(n: nat) -> Seq<char>
    decreases n,
{
    if n < 16 {
        seq![digit_char(n)]
    } else {
        hex_text(n / 16).push(digit_char(n % 16))
    }
}

/// The character of digit `d`.
fn digit(d: u32) -> (r: char)
    requires
        d < 16,
    ensures
        r == digit_char(d as nat),
{
    match d {
        0 => '0',
        1 => '1',
        2 => '2',
        3 => '3',
        4 => '4',
        5 => '5',
        6 => '6',
        7 => '7',
        8 => '8',
        9 => '9',
        10 => 'a',
        11 => 'b',
        12 => 'c',
        13 => 'd',
        14 => 'e',
        _ => 'f',
    }
}

/// Appends the digits of `n` in base `base` (10 or 16), without leading zeros.
fn push_digits(s: &mut String, n: u32, base: u32)
    requires
        base == 10 || base == 16,
    ensures
        final(s)@ == old(s)@ + if base == 10 {
            decimal_text(n as nat)
        } else {
            hex_text(n as nat)
        },
    decreases n,
{
    if n >= base {
        push_digits(s, n / base, base);
    }
    push_char(s, digit(n % base));
    proof {
        let text = if base == 10 {
            decimal_text(n as nat)
        } else {
            hex_text(n as nat)
        };
        if n >= base {
            assert(text == (if base == 10 {
                decimal_text((n / base) as nat)
            } else {
                hex_text((n / base) as nat)
            }).push(digit_char((n % base) as nat)));
        } else {
            assert(text == seq![digit_char(n as nat)]);
        }
        assert(final(s)@ =~= old(s)@ + text);
    }
}

/// The decimal digits of `value`, as `format!("{}", value)` writes them.
fn decimal(value: u32) -> (r: String)
    ensures
        r@ == decimal_text(value as nat),
{
    let mut s = String::new();
    push_digits(&mut s, value, 10);
    proof {
        assert(s@ =~= decimal_text(value as nat));
    }
    s
}

/// `0x` and the lower-case hexadecimal digits of `value`, as `format!("{:#x}", value)` writes
/// them.
fn hex(value: u32) -> (r: String)
    ensures
        r@ == "0x"@ + hex_text(value as nat),
{
    let mut s = String::new();
    push_char(&mut s, '0');
    push_char(&mut s, 'x');
    push_digits(&mut s, value, 16);
    proof {
        reveal_strlit("0x");
        assert(s@ =~= "0x"@ + hex_text(value as nat));
    }
    s
}

impl Instruction {
    /// The assembly text of the instruction, destination first, as in `v0 = addu a0, a1`:
    /// registers by name, shift amounts and arithmetic immediates in decimal, offsets and
    /// targets in hexadecimal.
    pub open spec fn spec_text(self) -> Seq<char> {
        match self {
            Instruction::Sll(rd, rt, sa) => rd.spec_name() + " = sll "@ + rt.spec_name() + ", "@ + decimal_text(sa as nat),
            Instruction::Unknown => "unknown"@,
            Instruction::Srl(rd, rt, sa) => rd.spec_name() + " = srl "@ + rt.spec_name() + ", "@ + decimal_text(sa as nat),
            Instruction::Sra(rd, rt, sa) => rd.spec_name() + " = sra "@ + rt.spec_name() + ", "@ + decimal_text(sa as nat),
            Instruction::Sllv(rd, rt, rs) => rd.spec_name() + " = sllv "@ + rt.spec_name() + ", "@ + rs.spec_name(),
            Instruction::Srlv(rd, rt, rs) => rd.spec_name() + " = srlv "@ + rt.spec_name() + ", "@ + rs.spec_name(),
            Instruction::Srav(rd, rt, rs) => rd.spec_name() + " = srav "@ + rt.spec_name() + ", "@ + rs.spec_name(),
            Instruction::Jr(rs) => "jr "@ + rs.spec_name(),
            Instruction::Jalr(rd, rs) => "jalr "@ + rd.spec_name() + ", "@ + rs.spec_name(),
            Instruction::Movz(rd, rs, rt) => rd.spec_name() + " = movz "@ + rs.spec_name() + ", "@ + rt.spec_name(),
            Instruction::Movn(rd, rs, rt) => rd.spec_name() + " = movn "@ + rs.spec_name() + ", "@ + rt.spec_name(),
            Instruction::Syscall => "syscall"@,
            Instruction::Break => "break"@,
            Instruction::Sync => "sync"@,
            Instruction::Mfhi(rd) => rd.spec_name() + " = mfhi"@,
            Instruction::Mthi(rs) => "mthi "@ + rs.spec_name(),
            Instruction::Mflo(rd) => rd.spec_name() + " = mflo"@,
            Instruction::Mtlo(rs) => "mtlo "@ + rs.spec_name(),
            Instruction::Dsllv(rd, rt, rs) => rd.spec_name() + " = dsllv "@ + rt.spec_name() + ", "@ + rs.spec_name(),
            Instruction::Dsrlv(rd, rt, rs) => rd.spec_name() + " = dsrlv "@ + rt.spec_name() + ", "@ + rs.spec_name(),
            Instruction::Dsrav(rd, rt, rs) => rd.spec_name() + " = dsrav "@ + rt.spec_name() + ", "@ + rs.spec_name(),
            Instruction::Mult(rd, rs, rt) => rd.spec_name() + " = mult "@ + rs.spec_name() + ", "@ + rt.spec_name(),
            Instruction::Multu(rd, rs, rt) => rd.spec_name() + " = multu "@ + rs.spec_name() + ", "@ + rt.spec_name(),
            Instruction::Div(rs, rt) => "div "@ + rs.spec_name() + ", "@ + rt.spec_name(),
            Instruction::Divu(rs, rt) => "divu "@ + rs.spec_name() + ", "@ + rt.spec_name(),
            Instruction::Add(rd, rs, rt) => rd.spec_name() + " = add "@ + rs.spec_name() + ", "@ + rt.spec_name(),
            Instruction::Addu(rd, rs, rt) => rd.spec_name() + " = addu "@ + rs.spec_name() + ", "@ + rt.spec_name(),
            Instruction::Sub(rd, rs, rt) => rd.spec_name() + " = sub "@ + rs.spec_name() + ", "@ + rt.spec_name(),
            Instruction::Subu(rd, rs, rt) => rd.spec_name() + " = subu "@ + rs.spec_name() + ", "@ + rt.spec_name(),
            Instruction::And(rd, rs, rt) => rd.spec_name() + " = and "@ + rs.spec_name() + ", "@ + rt.spec_name(),
            Instruction::Or(rd, rs, rt) => rd.spec_name() + " = or "@ + rs.spec_name() + ", "@ + rt.spec_name(),
            Instruction::Xor(rd, rs, rt) => rd.spec_name() + " = xor "@ + rs.spec_name() + ", "@ + rt.spec_name(),
            Instruction::Nor(rd, rs, rt) => rd.spec_name() + " = nor "@ + rs.spec_name() + ", "@ + rt.spec_name(),
            Instruction::Mfsa(rd) => rd.spec_name() + " = mfsa"@,
            Instruction::Mtsa(rs) => "mtsa "@ + rs.spec_name(),
            Instruction::Slt(rd, rs, rt) => rd.spec_name() + " = slt "@ + rs.spec_name() + ", "@ + rt.spec_name(),
            Instruction::Sltu(rd, rs, rt) => rd.spec_name() + " = sltu "@ + rs.spec_name() + ", "@ + rt.spec_name(),
            Instruction::Dadd(rd, rs, rt) => rd.spec_name() + " = dadd "@ + rs.spec_name() + ", "@ + rt.spec_name(),
            Instruction::Daddu(rd, rs, rt) => rd.spec_name() + " = daddu "@ + rs.spec_name() + ", "@ + rt.spec_name(),
            Instruction::Dsub(rd, rs, rt) => rd.spec_name() + " = dsub "@ + rs.spec_name() + ", "@ + rt.spec_name(),
            Instruction::Dsubu(rd, rs, rt) => rd.spec_name() + " = dsubu "@ + rs.spec_name() + ", "@ + rt.spec_name(),
            Instruction::Tge(rs, rt) => "tge "@ + rs.spec_name() + ", "@ + rt.spec_name(),
            Instruction::Tgeu(rs, rt) => "tgeu "@ + rs.spec_name() + ", "@ + rt.spec_name(),
            Instruction::Tlt(rs, rt) => "tlt "@ + rs.spec_name() + ", "@ + rt.spec_name(),
            Instruction::Tltu(rs, rt) => "tltu "@ + rs.spec_name() + ", "@ + rt.spec_name(),
            Instruction::Teq(rs, rt) => "teq "@ + rs.spec_name() + ", "@ + rt.spec_name(),
            Instruction::Tne(rs, rt) => "tne "@ + rs.spec_name() + ", "@ + rt.spec_name(),
            Instruction::Dsll(rd, rt, sa) => rd.spec_name() + " = dsll "@ + rt.spec_name() + ", "@ + decimal_text(sa as nat),
            Instruction::Dsrl(rd, rt, sa) => rd.spec_name() + " = dsrl "@ + rt.spec_name() + ", "@ + decimal_text(sa as nat),
            Instruction::Dsra(rd, rt, sa) => rd.spec_name() + " = dsra "@ + rt.spec_name() + ", "@ + decimal_text(sa as nat),
            Instruction::Dsll32(rd, rt, sa) => rd.spec_name() + " = dsll32 "@ + rt.spec_name() + ", "@ + decimal_text(sa as nat),
            Instruction::Dsrl32(rd, rt, sa) => rd.spec_name() + " = dsrl32 "@ + rt.spec_name() + ", "@ + decimal_text(sa as nat),
            Instruction::Dsra32(rd, rt, sa) => rd.spec_name() + " = dsra32 "@ + rt.spec_name() + ", "@ + decimal_text(sa as nat),
            Instruction::Bltz(rs, imm16) => "bltz "@ + rs.spec_name() + ", "@ + "0x"@ + hex_text(imm16 as nat),
            Instruction::Bgez(rs, imm16) => "bgez "@ + rs.spec_name() + ", "@ + "0x"@ + hex_text(imm16 as nat),
            Instruction::J(imm26) => "j "@ + "0x"@ + hex_text(imm26 as nat),
            Instruction::Jal(imm26) => "jal "@ + "0x"@ + hex_text(imm26 as nat),
            Instruction::Beq(rs, rt, imm16) => "beq "@ + rs.spec_name() + ", "@ + rt.spec_name() + ", "@ + "0x"@ + hex_text(imm16 as nat),
            Instruction::Bne(rs, rt, imm16) => "bne "@ + rs.spec_name() + ", "@ + rt.spec_name() + ", "@ + "0x"@ + hex_text(imm16 as nat),
            Instruction::Blez(rs, imm16) => "blez "@ + rs.spec_name() + ", "@ + "0x"@ + hex_text(imm16 as nat),
            Instruction::Addi(rt, rs, imm16) => rt.spec_name() + " = addi "@ + rs.spec_name() + ", "@ + decimal_text(imm16 as nat),
            Instruction::Addiu(rt, rs, imm16) => rt.spec_name() + " = addiu "@ + rs.spec_name() + ", "@ + decimal_text(imm16 as nat),
            Instruction::Slti(rt, rs, imm16) => rt.spec_name() + " = slti "@ + rs.spec_name() + ", "@ + decimal_text(imm16 as nat),
            Instruction::Sltiu(rt, rs, imm16) => rt.spec_name() + " = sltiu "@ + rs.spec_name() + ", "@ + decimal_text(imm16 as nat),
            Instruction::Andi(rt, rs, imm16) => rt.spec_name() + " = andi "@ + rs.spec_name() + ", "@ + decimal_text(imm16 as nat),
            Instruction::Ori(rt, rs, imm16) => rt.spec_name() + " = ori "@ + rs.spec_name() + ", "@ + decimal_text(imm16 as nat),
            Instruction::Xori(rt, rs, imm16) => rt.spec_name() + " = xori "@ + rs.spec_name() + ", "@ + decimal_text(imm16 as nat),
            Instruction::Lui(rt, imm16) => rt.spec_name() + " = lui "@ + "0x"@ + hex_text(imm16 as nat),
            Instruction::Mfc0(rt, cd) => rt.spec_name() + " = mfc0 "@ + cd.spec_name(),
            Instruction::Mtc0(cd, rt) => cd.spec_name() + " = mtc0 "@ + rt.spec_name(),
            Instruction::Tlbr => "tlbr"@,
            Instruction::Tlbwi => "tlbwi"@,
            Instruction::Tlbwr => "tlbwr"@,
            Instruction::Tlbp => "tlbp"@,
            Instruction::Ei => "ei"@,
            Instruction::Mfc1(rt, fs) => rt.spec_name() + " = mfc1 "@ + "f"@ + decimal_text(fs.number() as nat),
            Instruction::Mtc1(fs, rt) => "f"@ + decimal_text(fs.number() as nat) + " = mtc1 "@ + rt.spec_name(),
            Instruction::Muls(fd, fs, ft) => "f"@ + decimal_text(fd.number() as nat) + " = mul.s "@ + "f"@ + decimal_text(fs.number() as nat) + ", "@ + "f"@ + decimal_text(ft.number() as nat),
            Instruction::Divs(fd, fs, ft) => "f"@ + decimal_text(fd.number() as nat) + " = div.s "@ + "f"@ + decimal_text(fs.number() as nat) + ", "@ + "f"@ + decimal_text(ft.number() as nat),
            Instruction::Movs(fd, fs) => "f"@ + decimal_text(fd.number() as nat) + " = mov.s "@ + "f"@ + decimal_text(fs.number() as nat),
            Instruction::Cvtws(fd, fs) => "f"@ + decimal_text(fd.number() as nat) + " = cvt.w.s "@ + "f"@ + decimal_text(fs.number() as nat),
            Instruction::Cvtsw(fd, fs) => "f"@ + decimal_text(fd.number() as nat) + " = cvt.s.w "@ + "f"@ + decimal_text(fs.number() as nat),
            Instruction::Beql(rs, rt, imm16) => "beql "@ + rs.spec_name() + ", "@ + rt.spec_name() + ", "@ + "0x"@ + hex_text(imm16 as nat),
            Instruction::Bnel(rs, rt, imm16) => "bnel "@ + rs.spec_name() + ", "@ + rt.spec_name() + ", "@ + "0x"@ + hex_text(imm16 as nat),
            Instruction::Mfhi1(rd) => rd.spec_name() + " = mfhi1"@,
            Instruction::Mthi1(rs) => "mthi1 "@ + rs.spec_name(),
            Instruction::Mflo1(rd) => rd.spec_name() + " = mflo1"@,
            Instruction::Mtlo1(rs) => "mtlo1 "@ + rs.spec_name(),
            Instruction::Div1(rs, rt) => "div1 "@ + rs.spec_name() + ", "@ + rt.spec_name(),
            Instruction::Divu1(rs, rt) => "divu1 "@ + rs.spec_name() + ", "@ + rt.spec_name(),
            Instruction::Sq(rt, imm16, rs) => "sq "@ + rt.spec_name() + ", "@ + "0x"@ + hex_text(imm16 as nat) + "("@ + rs.spec_name() + ")"@,
            Instruction::Lb(rt, imm16, rs) => rt.spec_name() + " = lb "@ + "0x"@ + hex_text(imm16 as nat) + "("@ + rs.spec_name() + ")"@,
            Instruction::Lh(rt, imm16, rs) => rt.spec_name() + " = lh "@ + "0x"@ + hex_text(imm16 as nat) + "("@ + rs.spec_name() + ")"@,
            Instruction::Lw(rt, imm16, rs) => rt.spec_name() + " = lw "@ + "0x"@ + hex_text(imm16 as nat) + "("@ + rs.spec_name() + ")"@,
            Instruction::Lbu(rt, imm16, rs) => rt.spec_name() + " = lbu "@ + "0x"@ + hex_text(imm16 as nat) + "("@ + rs.spec_name() + ")"@,
            Instruction::Lhu(rt, imm16, rs) => rt.spec_name() + " = lhu "@ + "0x"@ + hex_text(imm16 as nat) + "("@ + rs.spec_name() + ")"@,
            Instruction::Lwr(rt, imm16, rs) => rt.spec_name() + " = lwr "@ + "0x"@ + hex_text(imm16 as nat) + "("@ + rs.spec_name() + ")"@,
            Instruction::Sb(rt, imm16, rs) => "sb "@ + rt.spec_name() + ", "@ + "0x"@ + hex_text(imm16 as nat) + "("@ + rs.spec_name() + ")"@,
            Instruction::Sh(rt, imm16, rs) => "sh "@ + rt.spec_name() + ", "@ + "0x"@ + hex_text(imm16 as nat) + "("@ + rs.spec_name() + ")"@,
            Instruction::Sw(rt, imm16, rs) => "sw "@ + rt.spec_name() + ", "@ + "0x"@ + hex_text(imm16 as nat) + "("@ + rs.spec_name() + ")"@,
            Instruction::Lwc1(ft, imm16, rs) => "f"@ + decimal_text(ft.number() as nat) + " = lwc1 "@ + "0x"@ + hex_text(imm16 as nat) + "("@ + rs.spec_name() + ")"@,
            Instruction::Ld(rt, imm16, rs) => rt.spec_name() + " = ld "@ + "0x"@ + hex_text(imm16 as nat) + "("@ + rs.spec_name() + ")"@,
            Instruction::Swc1(ft, imm16, rs) => "swc1 "@ + "f"@ + decimal_text(ft.number() as nat) + ", "@ + "0x"@ + hex_text(imm16 as nat) + "("@ + rs.spec_name() + ")"@,
            Instruction::Sd(rt, imm16, rs) => "sd "@ + rt.spec_name() + ", "@ + "0x"@ + hex_text(imm16 as nat) + "("@ + rs.spec_name() + ")"@,
        }
    }

    /// The assembly text of the instruction.
    #[verifier::rlimit(50)]
    pub fn text(self) -> (r: String)
        ensures
            r@ == self.spec_text(),
    {
        let mut s = String::new();
        match self {
            Instruction::Sll(rd, rt, sa) => {
                s.append(rd.name());
                s.append(" = sll ");
                s.append(rt.name());
                s.append(", ");
                let t = decimal(sa as u32);
                s.append(t.as_str());
            },
            Instruction::Unknown => {
                s.append("unknown");
            },
            Instruction::Srl(rd, rt, sa) => {
                s.append(rd.name());
                s.append(" = srl ");
                s.append(rt.name());
                s.append(", ");
                let t = decimal(sa as u32);
                s.append(t.as_str());
            },
            Instruction::Sra(rd, rt, sa) => {
                s.append(rd.name());
                s.append(" = sra ");
                s.append(rt.name());
                s.append(", ");
                let t = decimal(sa as u32);
                s.append(t.as_str());
            },
            Instruction::Sllv(rd, rt, rs) => {
                s.append(rd.name());
                s.append(" = sllv ");
                s.append(rt.name());
                s.append(", ");
                s.append(rs.name());
            },
            Instruction::Srlv(rd, rt, rs) => {
                s.append(rd.name());
                s.append(" = srlv ");
                s.append(rt.name());
                s.append(", ");
                s.append(rs.name());
            },
            Instruction::Srav(rd, rt, rs) => {
                s.append(rd.name());
                s.append(" = srav ");
                s.append(rt.name());
                s.append(", ");
                s.append(rs.name());
            },
            Instruction::Jr(rs) => {
                s.append("jr ");
                s.append(rs.name());
            },
            Instruction::Jalr(rd, rs) => {
                s.append("jalr ");
                s.append(rd.name());
                s.append(", ");
                s.append(rs.name());
            },
            Instruction::Movz(rd, rs, rt) => {
                s.append(rd.name());
                s.append(" = movz ");
                s.append(rs.name());
                s.append(", ");
                s.append(rt.name());
            },
            Instruction::Movn(rd, rs, rt) => {
                s.append(rd.name());
                s.append(" = movn ");
                s.append(rs.name());
                s.append(", ");
                s.append(rt.name());
            },
            Instruction::Syscall => {
                s.append("syscall");
            },
            Instruction::Break => {
                s.append("break");
            },
            Instruction::Sync => {
                s.append("sync");
            },
            Instruction::Mfhi(rd) => {
                s.append(rd.name());
                s.append(" = mfhi");
            },
            Instruction::Mthi(rs) => {
                s.append("mthi ");
                s.append(rs.name());
            },
            Instruction::Mflo(rd) => {
                s.append(rd.name());
                s.append(" = mflo");
            },
            Instruction::Mtlo(rs) => {
                s.append("mtlo ");
                s.append(rs.name());
            },
            Instruction::Dsllv(rd, rt, rs) => {
                s.append(rd.name());
                s.append(" = dsllv ");
                s.append(rt.name());
                s.append(", ");
                s.append(rs.name());
            },
            Instruction::Dsrlv(rd, rt, rs) => {
                s.append(rd.name());
                s.append(" = dsrlv ");
                s.append(rt.name());
                s.append(", ");
                s.append(rs.name());
            },
            Instruction::Dsrav(rd, rt, rs) => {
                s.append(rd.name());
                s.append(" = dsrav ");
                s.append(rt.name());
                s.append(", ");
                s.append(rs.name());
            },
            Instruction::Mult(rd, rs, rt) => {
                s.append(rd.name());
                s.append(" = mult ");
                s.append(rs.name());
                s.append(", ");
                s.append(rt.name());
            },
            Instruction::Multu(rd, rs, rt) => {
                s.append(rd.name());
                s.append(" = multu ");
                s.append(rs.name());
                s.append(", ");
                s.append(rt.name());
            },
            Instruction::Div(rs, rt) => {
                s.append("div ");
                s.append(rs.name());
                s.append(", ");
                s.append(rt.name());
            },
            Instruction::Divu(rs, rt) => {
                s.append("divu ");
                s.append(rs.name());
                s.append(", ");
                s.append(rt.name());
            },
            Instruction::Add(rd, rs, rt) => {
                s.append(rd.name());
                s.append(" = add ");
                s.append(rs.name());
                s.append(", ");
                s.append(rt.name());
            },
            Instruction::Addu(rd, rs, rt) => {
                s.append(rd.name());
                s.append(" = addu ");
                s.append(rs.name());
                s.append(", ");
                s.append(rt.name());
            },
            Instruction::Sub(rd, rs, rt) => {
                s.append(rd.name());
                s.append(" = sub ");
                s.append(rs.name());
                s.append(", ");
                s.append(rt.name());
            },
            Instruction::Subu(rd, rs, rt) => {
                s.append(rd.name());
                s.append(" = subu ");
                s.append(rs.name());
                s.append(", ");
                s.append(rt.name());
            },
            Instruction::And(rd, rs, rt) => {
                s.append(rd.name());
                s.append(" = and ");
                s.append(rs.name());
                s.append(", ");
                s.append(rt.name());
            },
            Instruction::Or(rd, rs, rt) => {
                s.append(rd.name());
                s.append(" = or ");
                s.append(rs.name());
                s.append(", ");
                s.append(rt.name());
            },
            Instruction::Xor(rd, rs, rt) => {
                s.append(rd.name());
                s.append(" = xor ");
                s.append(rs.name());
                s.append(", ");
                s.append(rt.name());
            },
            Instruction::Nor(rd, rs, rt) => {
                s.append(rd.name());
                s.append(" = nor ");
                s.append(rs.name());
                s.append(", ");
                s.append(rt.name());
            },
            Instruction::Mfsa(rd) => {
                s.append(rd.name());
                s.append(" = mfsa");
            },
            Instruction::Mtsa(rs) => {
                s.append("mtsa ");
                s.append(rs.name());
            },
            Instruction::Slt(rd, rs, rt) => {
                s.append(rd.name());
                s.append(" = slt ");
                s.append(rs.name());
                s.append(", ");
                s.append(rt.name());
            },
            Instruction::Sltu(rd, rs, rt) => {
                s.append(rd.name());
                s.append(" = sltu ");
                s.append(rs.name());
                s.append(", ");
                s.append(rt.name());
            },
            Instruction::Dadd(rd, rs, rt) => {
                s.append(rd.name());
                s.append(" = dadd ");
                s.append(rs.name());
                s.append(", ");
                s.append(rt.name());
            },
            Instruction::Daddu(rd, rs, rt) => {
                s.append(rd.name());
                s.append(" = daddu ");
                s.append(rs.name());
                s.append(", ");
                s.append(rt.name());
            },
            Instruction::Dsub(rd, rs, rt) => {
                s.append(rd.name());
                s.append(" = dsub ");
                s.append(rs.name());
                s.append(", ");
                s.append(rt.name());
            },
            Instruction::Dsubu(rd, rs, rt) => {
                s.append(rd.name());
                s.append(" = dsubu ");
                s.append(rs.name());
                s.append(", ");
                s.append(rt.name());
            },
            Instruction::Tge(rs, rt) => {
                s.append("tge ");
                s.append(rs.name());
                s.append(", ");
                s.append(rt.name());
            },
            Instruction::Tgeu(rs, rt) => {
                s.append("tgeu ");
                s.append(rs.name());
                s.append(", ");
                s.append(rt.name());
            },
            Instruction::Tlt(rs, rt) => {
                s.append("tlt ");
                s.append(rs.name());
                s.append(", ");
                s.append(rt.name());
            },
            Instruction::Tltu(rs, rt) => {
                s.append("tltu ");
                s.append(rs.name());
                s.append(", ");
                s.append(rt.name());
            },
            Instruction::Teq(rs, rt) => {
                s.append("teq ");
                s.append(rs.name());
                s.append(", ");
                s.append(rt.name());
            },
            Instruction::Tne(rs, rt) => {
                s.append("tne ");
                s.append(rs.name());
                s.append(", ");
                s.append(rt.name());
            },
            Instruction::Dsll(rd, rt, sa) => {
                s.append(rd.name());
                s.append(" = dsll ");
                s.append(rt.name());
                s.append(", ");
                let t = decimal(sa as u32);
                s.append(t.as_str());
            },
            Instruction::Dsrl(rd, rt, sa) => {
                s.append(rd.name());
                s.append(" = dsrl ");
                s.append(rt.name());
                s.append(", ");
                let t = decimal(sa as u32);
                s.append(t.as_str());
            },
            Instruction::Dsra(rd, rt, sa) => {
                s.append(rd.name());
                s.append(" = dsra ");
                s.append(rt.name());
                s.append(", ");
                let t = decimal(sa as u32);
                s.append(t.as_str());
            },
            Instruction::Dsll32(rd, rt, sa) => {
                s.append(rd.name());
                s.append(" = dsll32 ");
                s.append(rt.name());
                s.append(", ");
                let t = decimal(sa as u32);
                s.append(t.as_str());
            },
            Instruction::Dsrl32(rd, rt, sa) => {
                s.append(rd.name());
                s.append(" = dsrl32 ");
                s.append(rt.name());
                s.append(", ");
                let t = decimal(sa as u32);
                s.append(t.as_str());
            },
            Instruction::Dsra32(rd, rt, sa) => {
                s.append(rd.name());
                s.append(" = dsra32 ");
                s.append(rt.name());
                s.append(", ");
                let t = decimal(sa as u32);
                s.append(t.as_str());
            },
            Instruction::Bltz(rs, imm16) => {
                s.append("bltz ");
                s.append(rs.name());
                s.append(", ");
                let t = hex(imm16 as u32);
                s.append(t.as_str());
            },
            Instruction::Bgez(rs, imm16) => {
                s.append("bgez ");
                s.append(rs.name());
                s.append(", ");
                let t = hex(imm16 as u32);
                s.append(t.as_str());
            },
            Instruction::J(imm26) => {
                s.append("j ");
                let t = hex(imm26 as u32);
                s.append(t.as_str());
            },
            Instruction::Jal(imm26) => {
                s.append("jal ");
                let t = hex(imm26 as u32);
                s.append(t.as_str());
            },
            Instruction::Beq(rs, rt, imm16) => {
                s.append("beq ");
                s.append(rs.name());
                s.append(", ");
                s.append(rt.name());
                s.append(", ");
                let t = hex(imm16 as u32);
                s.append(t.as_str());
            },
            Instruction::Bne(rs, rt, imm16) => {
                s.append("bne ");
                s.append(rs.name());
                s.append(", ");
                s.append(rt.name());
                s.append(", ");
                let t = hex(imm16 as u32);
                s.append(t.as_str());
            },
            Instruction::Blez(rs, imm16) => {
                s.append("blez ");
                s.append(rs.name());
                s.append(", ");
                let t = hex(imm16 as u32);
                s.append(t.as_str());
            },
            Instruction::Addi(rt, rs, imm16) => {
                s.append(rt.name());
                s.append(" = addi ");
                s.append(rs.name());
                s.append(", ");
                let t = decimal(imm16 as u32);
                s.append(t.as_str());
            },
            Instruction::Addiu(rt, rs, imm16) => {
                s.append(rt.name());
                s.append(" = addiu ");
                s.append(rs.name());
                s.append(", ");
                let t = decimal(imm16 as u32);
                s.append(t.as_str());
            },
            Instruction::Slti(rt, rs, imm16) => {
                s.append(rt.name());
                s.append(" = slti ");
                s.append(rs.name());
                s.append(", ");
                let t = decimal(imm16 as u32);
                s.append(t.as_str());
            },
            Instruction::Sltiu(rt, rs, imm16) => {
                s.append(rt.name());
                s.append(" = sltiu ");
                s.append(rs.name());
                s.append(", ");
                let t = decimal(imm16 as u32);
                s.append(t.as_str());
            },
            Instruction::Andi(rt, rs, imm16) => {
                s.append(rt.name());
                s.append(" = andi ");
                s.append(rs.name());
                s.append(", ");
                let t = decimal(imm16 as u32);
                s.append(t.as_str());
            },
            Instruction::Ori(rt, rs, imm16) => {
                s.append(rt.name());
                s.append(" = ori ");
                s.append(rs.name());
                s.append(", ");
                let t = decimal(imm16 as u32);
                s.append(t.as_str());
            },
            Instruction::Xori(rt, rs, imm16) => {
                s.append(rt.name());
                s.append(" = xori ");
                s.append(rs.name());
                s.append(", ");
                let t = decimal(imm16 as u32);
                s.append(t.as_str());
            },
            Instruction::Lui(rt, imm16) => {
                s.append(rt.name());
                s.append(" = lui ");
                let t = hex(imm16 as u32);
                s.append(t.as_str());
            },
            Instruction::Mfc0(rt, cd) => {
                s.append(rt.name());
                s.append(" = mfc0 ");
                s.append(cd.name());
            },
            Instruction::Mtc0(cd, rt) => {
                s.append(cd.name());
                s.append(" = mtc0 ");
                s.append(rt.name());
            },
            Instruction::Tlbr => {
                s.append("tlbr");
            },
            Instruction::Tlbwi => {
                s.append("tlbwi");
            },
            Instruction::Tlbwr => {
                s.append("tlbwr");
            },
            Instruction::Tlbp => {
                s.append("tlbp");
            },
            Instruction::Ei => {
                s.append("ei");
            },
            Instruction::Mfc1(rt, fs) => {
                s.append(rt.name());
                s.append(" = mfc1 ");
                s.append("f");
                let t = decimal(fs.index() as u32);
                s.append(t.as_str());
            },
            Instruction::Mtc1(fs, rt) => {
                s.append("f");
                let t = decimal(fs.index() as u32);
                s.append(t.as_str());
                s.append(" = mtc1 ");
                s.append(rt.name());
            },
            Instruction::Muls(fd, fs, ft) => {
                s.append("f");
                let t = decimal(fd.index() as u32);
                s.append(t.as_str());
                s.append(" = mul.s ");
                s.append("f");
                let t = decimal(fs.index() as u32);
                s.append(t.as_str());
                s.append(", ");
                s.append("f");
                let t = decimal(ft.index() as u32);
                s.append(t.as_str());
            },
            Instruction::Divs(fd, fs, ft) => {
                s.append("f");
                let t = decimal(fd.index() as u32);
                s.append(t.as_str());
                s.append(" = div.s ");
                s.append("f");
                let t = decimal(fs.index() as u32);
                s.append(t.as_str());
                s.append(", ");
                s.append("f");
                let t = decimal(ft.index() as u32);
                s.append(t.as_str());
            },
            Instruction::Movs(fd, fs) => {
                s.append("f");
                let t = decimal(fd.index() as u32);
                s.append(t.as_str());
                s.append(" = mov.s ");
                s.append("f");
                let t = decimal(fs.index() as u32);
                s.append(t.as_str());
            },
            Instruction::Cvtws(fd, fs) => {
                s.append("f");
                let t = decimal(fd.index() as u32);
                s.append(t.as_str());
                s.append(" = cvt.w.s ");
                s.append("f");
                let t = decimal(fs.index() as u32);
                s.append(t.as_str());
            },
            Instruction::Cvtsw(fd, fs) => {
                s.append("f");
                let t = decimal(fd.index() as u32);
                s.append(t.as_str());
                s.append(" = cvt.s.w ");
                s.append("f");
                let t = decimal(fs.index() as u32);
                s.append(t.as_str());
            },
            Instruction::Beql(rs, rt, imm16) => {
                s.append("beql ");
                s.append(rs.name());
                s.append(", ");
                s.append(rt.name());
                s.append(", ");
                let t = hex(imm16 as u32);
                s.append(t.as_str());
            },
            Instruction::Bnel(rs, rt, imm16) => {
                s.append("bnel ");
                s.append(rs.name());
                s.append(", ");
                s.append(rt.name());
                s.append(", ");
                let t = hex(imm16 as u32);
                s.append(t.as_str());
            },
            Instruction::Mfhi1(rd) => {
                s.append(rd.name());
                s.append(" = mfhi1");
            },
            Instruction::Mthi1(rs) => {
                s.append("mthi1 ");
                s.append(rs.name());
            },
            Instruction::Mflo1(rd) => {
                s.append(rd.name());
                s.append(" = mflo1");
            },
            Instruction::Mtlo1(rs) => {
                s.append("mtlo1 ");
                s.append(rs.name());
            },
            Instruction::Div1(rs, rt) => {
                s.append("div1 ");
                s.append(rs.name());
                s.append(", ");
                s.append(rt.name());
            },
            Instruction::Divu1(rs, rt) => {
                s.append("divu1 ");
                s.append(rs.name());
                s.append(", ");
                s.append(rt.name());
            },
            Instruction::Sq(rt, imm16, rs) => {
                s.append("sq ");
                s.append(rt.name());
                s.append(", ");
                let t = hex(imm16 as u32);
                s.append(t.as_str());
                s.append("(");
                s.append(rs.name());
                s.append(")");
            },
            Instruction::Lb(rt, imm16, rs) => {
                s.append(rt.name());
                s.append(" = lb ");
                let t = hex(imm16 as u32);
                s.append(t.as_str());
                s.append("(");
                s.append(rs.name());
                s.append(")");
            },
            Instruction::Lh(rt, imm16, rs) => {
                s.append(rt.name());
                s.append(" = lh ");
                let t = hex(imm16 as u32);
                s.append(t.as_str());
                s.append("(");
                s.append(rs.name());
                s.append(")");
            },
            Instruction::Lw(rt, imm16, rs) => {
                s.append(rt.name());
                s.append(" = lw ");
                let t = hex(imm16 as u32);
                s.append(t.as_str());
                s.append("(");
                s.append(rs.name());
                s.append(")");
            },
            Instruction::Lbu(rt, imm16, rs) => {
                s.append(rt.name());
                s.append(" = lbu ");
                let t = hex(imm16 as u32);
                s.append(t.as_str());
                s.append("(");
                s.append(rs.name());
                s.append(")");
            },
            Instruction::Lhu(rt, imm16, rs) => {
                s.append(rt.name());
                s.append(" = lhu ");
                let t = hex(imm16 as u32);
                s.append(t.as_str());
                s.append("(");
                s.append(rs.name());
                s.append(")");
            },
            Instruction::Lwr(rt, imm16, rs) => {
                s.append(rt.name());
                s.append(" = lwr ");
                let t = hex(imm16 as u32);
                s.append(t.as_str());
                s.append("(");
                s.append(rs.name());
                s.append(")");
            },
            Instruction::Sb(rt, imm16, rs) => {
                s.append("sb ");
                s.append(rt.name());
                s.append(", ");
                let t = hex(imm16 as u32);
                s.append(t.as_str());
                s.append("(");
                s.append(rs.name());
                s.append(")");
            },
            Instruction::Sh(rt, imm16, rs) => {
                s.append("sh ");
                s.append(rt.name());
                s.append(", ");
                let t = hex(imm16 as u32);
                s.append(t.as_str());
                s.append("(");
                s.append(rs.name());
                s.append(")");
            },
            Instruction::Sw(rt, imm16, rs) => {
                s.append("sw ");
                s.append(rt.name());
                s.append(", ");
                let t = hex(imm16 as u32);
                s.append(t.as_str());
                s.append("(");
                s.append(rs.name());
                s.append(")");
            },
            Instruction::Lwc1(ft, imm16, rs) => {
                s.append("f");
                let t = decimal(ft.index() as u32);
                s.append(t.as_str());
                s.append(" = lwc1 ");
                let t = hex(imm16 as u32);
                s.append(t.as_str());
                s.append("(");
                s.append(rs.name());
                s.append(")");
            },
            Instruction::Ld(rt, imm16, rs) => {
                s.append(rt.name());
                s.append(" = ld ");
                let t = hex(imm16 as u32);
                s.append(t.as_str());
                s.append("(");
                s.append(rs.name());
                s.append(")");
            },
            Instruction::Swc1(ft, imm16, rs) => {
                s.append("swc1 ");
                s.append("f");
                let t = decimal(ft.index() as u32);
                s.append(t.as_str());
                s.append(", ");
                let t = hex(imm16 as u32);
                s.append(t.as_str());
                s.append("(");
                s.append(rs.name());
                s.append(")");
            },
            Instruction::Sd(rt, imm16, rs) => {
                s.append("sd ");
                s.append(rt.name());
                s.append(", ");
                let t = hex(imm16 as u32);
                s.append(t.as_str());
                s.append("(");
                s.append(rs.name());
                s.append(")");
            },
        }
        s
    }
}

/// The text of an instruction with a result and two operands: `destination = operation first,
/// second`, the operands in the order the instruction takes them.
pub open spec fn operation_text(
    destination: Seq<char>,
    operation: Seq<char>,
    first: Seq<char>,
    second: Seq<char>,
) -> Seq<char> {
    destination + operation + first + ", "@ + second
}

/// The text of a conditional branch on two registers: `operation first, second, 0xoffset`.
pub open spec fn branch_text(operation: Seq<char>, first: Seq<char>, second: Seq<char>, offset: u16) -> Seq<char> {
    operation + first + ", "@ + second + ", "@ + "0x"@ + hex_text(offset as nat)
}

/// The text of a load: `destination = operation 0xoffset(base)`.
pub open spec fn load_text(destination: Seq<char>, operation: Seq<char>, offset: u16, base: Seq<char>) -> Seq<char> {
    destination + operation + "0x"@ + hex_text(offset as nat) + "("@ + base + ")"@
}

/// The text of a store: `operation source, 0xoffset(base)`.
pub open spec fn store_text(operation: Seq<char>, source: Seq<char>, offset: u16, base: Seq<char>) -> Seq<char> {
    operation + source + ", "@ + "0x"@ + hex_text(offset as nat) + "("@ + base + ")"@
}

/// The operand order of the assembly text: an instruction with a result names it first, then
/// its mnemonic, then its operands as the instruction takes them: `rd = op rs, rt` for the
/// register arithmetic, `rd = op rt, rs` for the shifts by a register, `rd = op rt, sa` for the
/// shifts by an amount, `rt = op rs, imm` for the immediate arithmetic; a branch names its two
/// registers before its offset, a load or store its register before `offset(base)`.
#[verifier::rlimit(100)]
pub proof fn law_operand_order(rd: Register, rs: Register, rt: Register, sa: u8, imm: u16)
    ensures
        Instruction::Movz(rd, rs, rt).spec_text() == operation_text(rd.spec_name(), " = movz "@, rs.spec_name(), rt.spec_name()),
        Instruction::Movn(rd, rs, rt).spec_text() == operation_text(rd.spec_name(), " = movn "@, rs.spec_name(), rt.spec_name()),
        Instruction::Mult(rd, rs, rt).spec_text() == operation_text(rd.spec_name(), " = mult "@, rs.spec_name(), rt.spec_name()),
        Instruction::Multu(rd, rs, rt).spec_text() == operation_text(rd.spec_name(), " = multu "@, rs.spec_name(), rt.spec_name()),
        Instruction::Add(rd, rs, rt).spec_text() == operation_text(rd.spec_name(), " = add "@, rs.spec_name(), rt.spec_name()),
        Instruction::Addu(rd, rs, rt).spec_text() == operation_text(rd.spec_name(), " = addu "@, rs.spec_name(), rt.spec_name()),
        Instruction::Sub(rd, rs, rt).spec_text() == operation_text(rd.spec_name(), " = sub "@, rs.spec_name(), rt.spec_name()),
        Instruction::Subu(rd, rs, rt).spec_text() == operation_text(rd.spec_name(), " = subu "@, rs.spec_name(), rt.spec_name()),
        Instruction::And(rd, rs, rt).spec_text() == operation_text(rd.spec_name(), " = and "@, rs.spec_name(), rt.spec_name()),
        Instruction::Or(rd, rs, rt).spec_text() == operation_text(rd.spec_name(), " = or "@, rs.spec_name(), rt.spec_name()),
        Instruction::Xor(rd, rs, rt).spec_text() == operation_text(rd.spec_name(), " = xor "@, rs.spec_name(), rt.spec_name()),
        Instruction::Nor(rd, rs, rt).spec_text() == operation_text(rd.spec_name(), " = nor "@, rs.spec_name(), rt.spec_name()),
        Instruction::Slt(rd, rs, rt).spec_text() == operation_text(rd.spec_name(), " = slt "@, rs.spec_name(), rt.spec_name()),
        Instruction::Sltu(rd, rs, rt).spec_text() == operation_text(rd.spec_name(), " = sltu "@, rs.spec_name(), rt.spec_name()),
        Instruction::Dadd(rd, rs, rt).spec_text() == operation_text(rd.spec_name(), " = dadd "@, rs.spec_name(), rt.spec_name()),
        Instruction::Daddu(rd, rs, rt).spec_text() == operation_text(rd.spec_name(), " = daddu "@, rs.spec_name(), rt.spec_name()),
        Instruction::Dsub(rd, rs, rt).spec_text() == operation_text(rd.spec_name(), " = dsub "@, rs.spec_name(), rt.spec_name()),
        Instruction::Dsubu(rd, rs, rt).spec_text() == operation_text(rd.spec_name(), " = dsubu "@, rs.spec_name(), rt.spec_name()),
        Instruction::Sllv(rd, rt, rs).spec_text() == operation_text(rd.spec_name(), " = sllv "@, rt.spec_name(), rs.spec_name()),
        Instruction::Srlv(rd, rt, rs).spec_text() == operation_text(rd.spec_name(), " = srlv "@, rt.spec_name(), rs.spec_name()),
        Instruction::Srav(rd, rt, rs).spec_text() == operation_text(rd.spec_name(), " = srav "@, rt.spec_name(), rs.spec_name()),
        Instruction::Dsllv(rd, rt, rs).spec_text() == operation_text(rd.spec_name(), " = dsllv "@, rt.spec_name(), rs.spec_name()),
        Instruction::Dsrlv(rd, rt, rs).spec_text() == operation_text(rd.spec_name(), " = dsrlv "@, rt.spec_name(), rs.spec_name()),
        Instruction::Dsrav(rd, rt, rs).spec_text() == operation_text(rd.spec_name(), " = dsrav "@, rt.spec_name(), rs.spec_name()),
        Instruction::Sll(rd, rt, sa).spec_text() == operation_text(rd.spec_name(), " = sll "@, rt.spec_name(), decimal_text(sa as nat)),
        Instruction::Srl(rd, rt, sa).spec_text() == operation_text(rd.spec_name(), " = srl "@, rt.spec_name(), decimal_text(sa as nat)),
        Instruction::Sra(rd, rt, sa).spec_text() == operation_text(rd.spec_name(), " = sra "@, rt.spec_name(), decimal_text(sa as nat)),
        Instruction::Dsll(rd, rt, sa).spec_text() == operation_text(rd.spec_name(), " = dsll "@, rt.spec_name(), decimal_text(sa as nat)),
        Instruction::Dsrl(rd, rt, sa).spec_text() == operation_text(rd.spec_name(), " = dsrl "@, rt.spec_name(), decimal_text(sa as nat)),
        Instruction::Dsra(rd, rt, sa).spec_text() == operation_text(rd.spec_name(), " = dsra "@, rt.spec_name(), decimal_text(sa as nat)),
        Instruction::Dsll32(rd, rt, sa).spec_text() == operation_text(rd.spec_name(), " = dsll32 "@, rt.spec_name(), decimal_text(sa as nat)),
        Instruction::Dsrl32(rd, rt, sa).spec_text() == operation_text(rd.spec_name(), " = dsrl32 "@, rt.spec_name(), decimal_text(sa as nat)),
        Instruction::Dsra32(rd, rt, sa).spec_text() == operation_text(rd.spec_name(), " = dsra32 "@, rt.spec_name(), decimal_text(sa as nat)),
        Instruction::Addi(rt, rs, imm).spec_text() == operation_text(rt.spec_name(), " = addi "@, rs.spec_name(), decimal_text(imm as nat)),
        Instruction::Addiu(rt, rs, imm).spec_text() == operation_text(rt.spec_name(), " = addiu "@, rs.spec_name(), decimal_text(imm as nat)),
        Instruction::Slti(rt, rs, imm).spec_text() == operation_text(rt.spec_name(), " = slti "@, rs.spec_name(), decimal_text(imm as nat)),
        Instruction::Sltiu(rt, rs, imm).spec_text() == operation_text(rt.spec_name(), " = sltiu "@, rs.spec_name(), decimal_text(imm as nat)),
        Instruction::Andi(rt, rs, imm).spec_text() == operation_text(rt.spec_name(), " = andi "@, rs.spec_name(), decimal_text(imm as nat)),
        Instruction::Ori(rt, rs, imm).spec_text() == operation_text(rt.spec_name(), " = ori "@, rs.spec_name(), decimal_text(imm as nat)),
        Instruction::Xori(rt, rs, imm).spec_text() == operation_text(rt.spec_name(), " = xori "@, rs.spec_name(), decimal_text(imm as nat)),
        Instruction::Beq(rs, rt, imm).spec_text() == branch_text("beq "@, rs.spec_name(), rt.spec_name(), imm),
        Instruction::Bne(rs, rt, imm).spec_text() == branch_text("bne "@, rs.spec_name(), rt.spec_name(), imm),
        Instruction::Beql(rs, rt, imm).spec_text() == branch_text("beql "@, rs.spec_name(), rt.spec_name(), imm),
        Instruction::Bnel(rs, rt, imm).spec_text() == branch_text("bnel "@, rs.spec_name(), rt.spec_name(), imm),
        Instruction::Lb(rt, imm, rs).spec_text() == load_text(rt.spec_name(), " = lb "@, imm, rs.spec_name()),
        Instruction::Lh(rt, imm, rs).spec_text() == load_text(rt.spec_name(), " = lh "@, imm, rs.spec_name()),
        Instruction::Lw(rt, imm, rs).spec_text() == load_text(rt.spec_name(), " = lw "@, imm, rs.spec_name()),
        Instruction::Lbu(rt, imm, rs).spec_text() == load_text(rt.spec_name(), " = lbu "@, imm, rs.spec_name()),
        Instruction::Lhu(rt, imm, rs).spec_text() == load_text(rt.spec_name(), " = lhu "@, imm, rs.spec_name()),
        Instruction::Lwr(rt, imm, rs).spec_text() == load_text(rt.spec_name(), " = lwr "@, imm, rs.spec_name()),
        Instruction::Ld(rt, imm, rs).spec_text() == load_text(rt.spec_name(), " = ld "@, imm, rs.spec_name()),
        Instruction::Sq(rt, imm, rs).spec_text() == store_text("sq "@, rt.spec_name(), imm, rs.spec_name()),
        Instruction::Sb(rt, imm, rs).spec_text() == store_text("sb "@, rt.spec_name(), imm, rs.spec_name()),
        Instruction::Sh(rt, imm, rs).spec_text() == store_text("sh "@, rt.spec_name(), imm, rs.spec_name()),
        Instruction::Sw(rt, imm, rs).spec_text() == store_text("sw "@, rt.spec_name(), imm, rs.spec_name()),
        Instruction::Sd(rt, imm, rs).spec_text() == store_text("sd "@, rt.spec_name(), imm, rs.spec_name()),
{
}

} // verus!
