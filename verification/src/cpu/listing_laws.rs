//! The listing names the instruction that the decoder runs: the same
//! condition, the same registers, the same operation.
use vstd::prelude::*;

use super::instr::{decoded, Instr};
use super::listing::{listing_pattern, Operand};
use super::state::{Cond, Reg16, Reg8, Src8};

verus! {

/// The name of a condition.
pub open spec fn cond_name(c: Cond) -> Seq<char> {
    match c {
        Cond::NZ => "NZ"@,
        Cond::Z => "Z"@,
        Cond::NC => "NC"@,
        Cond::C => "C"@,
    }
}

/// The name of an 8-bit register.
pub open spec fn reg_name(r: Reg8) -> Seq<char> {
    match r {
        Reg8::A => "A"@,
        Reg8::B => "B"@,
        Reg8::C => "C"@,
        Reg8::D => "D"@,
        Reg8::E => "E"@,
        Reg8::H => "H"@,
        Reg8::L => "L"@,
    }
}

/// The name of a register pair.
pub open spec fn pair_name(r: Reg16) -> Seq<char> {
    match r {
        Reg16::AF => "AF"@,
        Reg16::BC => "BC"@,
        Reg16::DE => "DE"@,
        Reg16::HL => "HL"@,
        Reg16::SP => "SP"@,
    }
}

/// The listing of an arithmetic or logic instruction on A: its mnemonic,
/// then `A,` and the operand's name (`HL` for the byte at (HL)), or the
/// byte that follows.
pub open spec fn alu_line(mnemonic: Seq<char>, src: Src8) -> (Seq<char>, Operand, Seq<char>) {
    match src {
        Src8::Reg(r) => (mnemonic + "\tA,"@ + reg_name(r), Operand::Absent, ""@),
        Src8::AtHl => (mnemonic + "\tA,HL"@, Operand::Absent, ""@),
        Src8::Imm => (mnemonic + "\tA,"@, Operand::Imm8, ""@),
    }
}

/// The listing line that an instruction's own parts give: its mnemonic, and
/// the names of the condition, registers or pair it uses. Loads from B into
/// another register than A and B, and stores of B, end in an extra comma.
/// `None` for the instructions this does not cover, and for `ADC A,(HL)`,
/// which has no line.
pub open spec fn expected_line(i: Instr) -> Option<(Seq<char>, Operand, Seq<char>)> {
    match i {
        Instr::JpCc(c) => Some(("JP\t"@ + cond_name(c) + ","@, Operand::Addr16, ""@)),
        Instr::CallCc(c) => Some(("CALL\t"@ + cond_name(c) + ","@, Operand::Addr16, ""@)),
        Instr::JrCc(c) => Some(("JR\t"@ + cond_name(c) + ","@, Operand::Rel8, ""@)),
        Instr::RetCc(c) => Some(("RET "@ + cond_name(c), Operand::Absent, ""@)),
        Instr::LdR8R8(d, s) => Some(
            (
                "LD\t"@ + reg_name(d) + ","@ + reg_name(s) + (if s == Reg8::B && d != Reg8::A && d
                    != Reg8::B {
                    ","@
                } else {
                    ""@
                }),
                Operand::Absent,
                ""@,
            ),
        ),
        Instr::LdR8R16(d, p) => Some(
            ("LD\t"@ + reg_name(d) + ",("@ + pair_name(p) + ")"@, Operand::Absent, ""@),
        ),
        Instr::LdAddrR8(p, s) => Some(
            (
                "LD\t("@ + pair_name(p) + "),"@ + reg_name(s) + (if s == Reg8::B {
                    ","@
                } else {
                    ""@
                }),
                Operand::Absent,
                ""@,
            ),
        ),
        Instr::IncR8(r) => Some(("INC\t"@ + reg_name(r), Operand::Absent, ""@)),
        Instr::DecR8(r) => Some(("DEC\t"@ + reg_name(r), Operand::Absent, ""@)),
        Instr::IncR16(p) => Some(("INC\t"@ + pair_name(p), Operand::Absent, ""@)),
        Instr::DecR16(p) => Some(("DEC\t"@ + pair_name(p), Operand::Absent, ""@)),
        Instr::IncAddr(p) => Some(("INC\t("@ + pair_name(p) + ")"@, Operand::Absent, ""@)),
        Instr::DecAddr(p) => Some(("DEC\t("@ + pair_name(p) + ")"@, Operand::Absent, ""@)),
        Instr::Push(p) => Some(("PUSH\t"@ + pair_name(p), Operand::Absent, ""@)),
        Instr::Pop(p) => Some(("POP\t"@ + pair_name(p), Operand::Absent, ""@)),
        Instr::AddA(src) => Some(alu_line("ADD"@, src)),
        Instr::AdcA(src) => if src == Src8::AtHl {
            None
        } else {
            Some(alu_line("ADC"@, src))
        },
        Instr::SubA(src) => Some(alu_line("SUB"@, src)),
        Instr::AndA(src) => Some(alu_line("AND"@, src)),
        Instr::XorA(src) => Some(alu_line("XOR"@, src)),
        Instr::OrA(src) => Some(alu_line("OR"@, src)),
        Instr::CpA(src) => Some(alu_line("CP"@, src)),
        _ => None,
    }
}

/// Each line of the listing names what the decoder runs for the same
/// opcode: a conditional jump, call or return names its condition (NZ, Z,
/// NC, C); a load, increment, decrement, push or pop names its registers;
/// an arithmetic or logic instruction names its operation and operand.
pub proof fn lemma_listing_names_instruction(op: u8)
    ensures
        decoded(op) is Some && expected_line(decoded(op).unwrap()) is Some ==> listing_pattern(op)
            == expected_line(decoded(op).unwrap()),
{
    if op < 0x10 {
        lemma_listing_lines_00(op);
    } else if op < 0x20 {
        lemma_listing_lines_10(op);
    } else if op < 0x30 {
        lemma_listing_lines_20(op);
    } else if op < 0x40 {
        lemma_listing_lines_30(op);
    } else if op < 0x50 {
        lemma_listing_lines_40(op);
    } else if op < 0x60 {
        lemma_listing_lines_50(op);
    } else if op < 0x70 {
        lemma_listing_lines_60(op);
    } else if op < 0x80 {
        lemma_listing_lines_70(op);
    } else if op < 0x90 {
        lemma_listing_lines_80(op);
    } else if op < 0xa0 {
        lemma_listing_lines_90(op);
    } else if op < 0xb0 {
        lemma_listing_lines_a0(op);
    } else if op < 0xc0 {
        lemma_listing_lines_b0(op);
    } else if op < 0xd0 {
        lemma_listing_lines_c0(op);
    } else if op < 0xe0 {
        lemma_listing_lines_d0(op);
    } else if op < 0xf0 {
        lemma_listing_lines_e0(op);
    } else {
        lemma_listing_lines_f0(op);
    }
}

/// The listing lines of opcodes 0x00 to 0x0f.
proof fn lemma_listing_lines_00(op: u8)
    requires
        0x00 <= op < 0x10,
    ensures
        decoded(op) is Some && expected_line(decoded(op).unwrap()) is Some ==> listing_pattern(op)
            == expected_line(decoded(op).unwrap()),
{
    if op == 0x02 {
        reveal_strlit("");
        reveal_strlit("),");
        reveal_strlit("A");
        reveal_strlit("BC");
        reveal_strlit("LD\t(");
        reveal_strlit("LD\t(BC),A");
        assert("LD\t(BC),A"@ =~= "LD\t("@ + "BC"@ + "),"@ + "A"@ + ""@);
    }
    if op == 0x0a {
        reveal_strlit("");
        reveal_strlit(")");
        reveal_strlit(",(");
        reveal_strlit("A");
        reveal_strlit("BC");
        reveal_strlit("LD\t");
        reveal_strlit("LD\tA,(BC)");
        assert("LD\tA,(BC)"@ =~= "LD\t"@ + "A"@ + ",("@ + "BC"@ + ")"@);
    }
    if op == 0x04 {
        reveal_strlit("");
        reveal_strlit("B");
        reveal_strlit("INC\t");
        reveal_strlit("INC\tB");
        assert("INC\tB"@ =~= "INC\t"@ + "B"@);
    }
    if op == 0x0c {
        reveal_strlit("");
        reveal_strlit("C");
        reveal_strlit("INC\t");
        reveal_strlit("INC\tC");
        assert("INC\tC"@ =~= "INC\t"@ + "C"@);
    }
    if op == 0x03 {
        reveal_strlit("");
        reveal_strlit("BC");
        reveal_strlit("INC\t");
        reveal_strlit("INC\tBC");
        assert("INC\tBC"@ =~= "INC\t"@ + "BC"@);
    }
    if op == 0x05 {
        reveal_strlit("");
        reveal_strlit("B");
        reveal_strlit("DEC\t");
        reveal_strlit("DEC\tB");
        assert("DEC\tB"@ =~= "DEC\t"@ + "B"@);
    }
    if op == 0x0d {
        reveal_strlit("");
        reveal_strlit("C");
        reveal_strlit("DEC\t");
        reveal_strlit("DEC\tC");
        assert("DEC\tC"@ =~= "DEC\t"@ + "C"@);
    }
    if op == 0x0b {
        reveal_strlit("");
        reveal_strlit("BC");
        reveal_strlit("DEC\t");
        reveal_strlit("DEC\tBC");
        assert("DEC\tBC"@ =~= "DEC\t"@ + "BC"@);
    }
}

/// The listing lines of opcodes 0x10 to 0x1f.
proof fn lemma_listing_lines_10(op: u8)
    requires
        0x10 <= op < 0x20,
    ensures
        decoded(op) is Some && expected_line(decoded(op).unwrap()) is Some ==> listing_pattern(op)
            == expected_line(decoded(op).unwrap()),
{
    if op == 0x12 {
        reveal_strlit("");
        reveal_strlit("),");
        reveal_strlit("A");
        reveal_strlit("DE");
        reveal_strlit("LD\t(");
        reveal_strlit("LD\t(DE),A");
        assert("LD\t(DE),A"@ =~= "LD\t("@ + "DE"@ + "),"@ + "A"@ + ""@);
    }
    if op == 0x1a {
        reveal_strlit("");
        reveal_strlit(")");
        reveal_strlit(",(");
        reveal_strlit("A");
        reveal_strlit("DE");
        reveal_strlit("LD\t");
        reveal_strlit("LD\tA,(DE)");
        assert("LD\tA,(DE)"@ =~= "LD\t"@ + "A"@ + ",("@ + "DE"@ + ")"@);
    }
    if op == 0x14 {
        reveal_strlit("");
        reveal_strlit("D");
        reveal_strlit("INC\t");
        reveal_strlit("INC\tD");
        assert("INC\tD"@ =~= "INC\t"@ + "D"@);
    }
    if op == 0x1c {
        reveal_strlit("");
        reveal_strlit("E");
        reveal_strlit("INC\t");
        reveal_strlit("INC\tE");
        assert("INC\tE"@ =~= "INC\t"@ + "E"@);
    }
    if op == 0x13 {
        reveal_strlit("");
        reveal_strlit("DE");
        reveal_strlit("INC\t");
        reveal_strlit("INC\tDE");
        assert("INC\tDE"@ =~= "INC\t"@ + "DE"@);
    }
    if op == 0x15 {
        reveal_strlit("");
        reveal_strlit("D");
        reveal_strlit("DEC\t");
        reveal_strlit("DEC\tD");
        assert("DEC\tD"@ =~= "DEC\t"@ + "D"@);
    }
    if op == 0x1d {
        reveal_strlit("");
        reveal_strlit("DEC\t");
        reveal_strlit("DEC\tE");
        reveal_strlit("E");
        assert("DEC\tE"@ =~= "DEC\t"@ + "E"@);
    }
    if op == 0x1b {
        reveal_strlit("");
        reveal_strlit("DE");
        reveal_strlit("DEC\t");
        reveal_strlit("DEC\tDE");
        assert("DEC\tDE"@ =~= "DEC\t"@ + "DE"@);
    }
}

/// The listing lines of opcodes 0x20 to 0x2f.
proof fn lemma_listing_lines_20(op: u8)
    requires
        0x20 <= op < 0x30,
    ensures
        decoded(op) is Some && expected_line(decoded(op).unwrap()) is Some ==> listing_pattern(op)
            == expected_line(decoded(op).unwrap()),
{
    if op == 0x20 {
        reveal_strlit("");
        reveal_strlit(",");
        reveal_strlit("JR\t");
        reveal_strlit("JR\tNZ,");
        reveal_strlit("NZ");
        assert("JR\tNZ,"@ =~= "JR\t"@ + "NZ"@ + ","@);
    }
    if op == 0x28 {
        reveal_strlit("");
        reveal_strlit(",");
        reveal_strlit("JR\t");
        reveal_strlit("JR\tZ,");
        reveal_strlit("Z");
        assert("JR\tZ,"@ =~= "JR\t"@ + "Z"@ + ","@);
    }
    if op == 0x24 {
        reveal_strlit("");
        reveal_strlit("H");
        reveal_strlit("INC\t");
        reveal_strlit("INC\tH");
        assert("INC\tH"@ =~= "INC\t"@ + "H"@);
    }
    if op == 0x2c {
        reveal_strlit("");
        reveal_strlit("INC\t");
        reveal_strlit("INC\tL");
        reveal_strlit("L");
        assert("INC\tL"@ =~= "INC\t"@ + "L"@);
    }
    if op == 0x23 {
        reveal_strlit("");
        reveal_strlit("HL");
        reveal_strlit("INC\t");
        reveal_strlit("INC\tHL");
        assert("INC\tHL"@ =~= "INC\t"@ + "HL"@);
    }
    if op == 0x25 {
        reveal_strlit("");
        reveal_strlit("DEC\t");
        reveal_strlit("DEC\tH");
        reveal_strlit("H");
        assert("DEC\tH"@ =~= "DEC\t"@ + "H"@);
    }
    if op == 0x2d {
        reveal_strlit("");
        reveal_strlit("DEC\t");
        reveal_strlit("DEC\tL");
        reveal_strlit("L");
        assert("DEC\tL"@ =~= "DEC\t"@ + "L"@);
    }
    if op == 0x2b {
        reveal_strlit("");
        reveal_strlit("DEC\t");
        reveal_strlit("DEC\tHL");
        reveal_strlit("HL");
        assert("DEC\tHL"@ =~= "DEC\t"@ + "HL"@);
    }
}

/// The listing lines of opcodes 0x30 to 0x3f.
proof fn lemma_listing_lines_30(op: u8)
    requires
        0x30 <= op < 0x40,
    ensures
        decoded(op) is Some && expected_line(decoded(op).unwrap()) is Some ==> listing_pattern(op)
            == expected_line(decoded(op).unwrap()),
{
    if op == 0x30 {
        reveal_strlit("");
        reveal_strlit(",");
        reveal_strlit("JR\t");
        reveal_strlit("JR\tNC,");
        reveal_strlit("NC");
        assert("JR\tNC,"@ =~= "JR\t"@ + "NC"@ + ","@);
    }
    if op == 0x38 {
        reveal_strlit("");
        reveal_strlit(",");
        reveal_strlit("C");
        reveal_strlit("JR\t");
        reveal_strlit("JR\tC,");
        assert("JR\tC,"@ =~= "JR\t"@ + "C"@ + ","@);
    }
    if op == 0x3c {
        reveal_strlit("");
        reveal_strlit("A");
        reveal_strlit("INC\t");
        reveal_strlit("INC\tA");
        assert("INC\tA"@ =~= "INC\t"@ + "A"@);
    }
    if op == 0x34 {
        reveal_strlit("");
        reveal_strlit(")");
        reveal_strlit("HL");
        reveal_strlit("INC\t(");
        reveal_strlit("INC\t(HL)");
        assert("INC\t(HL)"@ =~= "INC\t("@ + "HL"@ + ")"@);
    }
    if op == 0x33 {
        reveal_strlit("");
        reveal_strlit("INC\t");
        reveal_strlit("INC\tSP");
        reveal_strlit("SP");
        assert("INC\tSP"@ =~= "INC\t"@ + "SP"@);
    }
    if op == 0x3d {
        reveal_strlit("");
        reveal_strlit("A");
        reveal_strlit("DEC\t");
        reveal_strlit("DEC\tA");
        assert("DEC\tA"@ =~= "DEC\t"@ + "A"@);
    }
    if op == 0x35 {
        reveal_strlit("");
        reveal_strlit(")");
        reveal_strlit("DEC\t(");
        reveal_strlit("DEC\t(HL)");
        reveal_strlit("HL");
        assert("DEC\t(HL)"@ =~= "DEC\t("@ + "HL"@ + ")"@);
    }
    if op == 0x3b {
        reveal_strlit("");
        reveal_strlit("DEC\t");
        reveal_strlit("DEC\tSP");
        reveal_strlit("SP");
        assert("DEC\tSP"@ =~= "DEC\t"@ + "SP"@);
    }
}

/// The listing lines of opcodes 0x40 to 0x4f.
proof fn lemma_listing_lines_40(op: u8)
    requires
        0x40 <= op < 0x50,
    ensures
        decoded(op) is Some && expected_line(decoded(op).unwrap()) is Some ==> listing_pattern(op)
            == expected_line(decoded(op).unwrap()),
{
    if op == 0x47 {
        reveal_strlit("");
        reveal_strlit(",");
        reveal_strlit("A");
        reveal_strlit("B");
        reveal_strlit("LD\t");
        reveal_strlit("LD\tB,A");
        assert("LD\tB,A"@ =~= "LD\t"@ + "B"@ + ","@ + "A"@ + ""@);
    }
    if op == 0x40 {
        reveal_strlit("");
        reveal_strlit(",");
        reveal_strlit("B");
        reveal_strlit("LD\t");
        reveal_strlit("LD\tB,B");
        assert("LD\tB,B"@ =~= "LD\t"@ + "B"@ + ","@ + "B"@ + ""@);
    }
    if op == 0x41 {
        reveal_strlit("");
        reveal_strlit(",");
        reveal_strlit("B");
        reveal_strlit("C");
        reveal_strlit("LD\t");
        reveal_strlit("LD\tB,C");
        assert("LD\tB,C"@ =~= "LD\t"@ + "B"@ + ","@ + "C"@ + ""@);
    }
    if op == 0x42 {
        reveal_strlit("");
        reveal_strlit(",");
        reveal_strlit("B");
        reveal_strlit("D");
        reveal_strlit("LD\t");
        reveal_strlit("LD\tB,D");
        assert("LD\tB,D"@ =~= "LD\t"@ + "B"@ + ","@ + "D"@ + ""@);
    }
    if op == 0x43 {
        reveal_strlit("");
        reveal_strlit(",");
        reveal_strlit("B");
        reveal_strlit("E");
        reveal_strlit("LD\t");
        reveal_strlit("LD\tB,E");
        assert("LD\tB,E"@ =~= "LD\t"@ + "B"@ + ","@ + "E"@ + ""@);
    }
    if op == 0x44 {
        reveal_strlit("");
        reveal_strlit(",");
        reveal_strlit("B");
        reveal_strlit("H");
        reveal_strlit("LD\t");
        reveal_strlit("LD\tB,H");
        assert("LD\tB,H"@ =~= "LD\t"@ + "B"@ + ","@ + "H"@ + ""@);
    }
    if op == 0x45 {
        reveal_strlit("");
        reveal_strlit(",");
        reveal_strlit("B");
        reveal_strlit("L");
        reveal_strlit("LD\t");
        reveal_strlit("LD\tB,L");
        assert("LD\tB,L"@ =~= "LD\t"@ + "B"@ + ","@ + "L"@ + ""@);
    }
    if op == 0x46 {
        reveal_strlit("");
        reveal_strlit(")");
        reveal_strlit(",(");
        reveal_strlit("B");
        reveal_strlit("HL");
        reveal_strlit("LD\t");
        reveal_strlit("LD\tB,(HL)");
        assert("LD\tB,(HL)"@ =~= "LD\t"@ + "B"@ + ",("@ + "HL"@ + ")"@);
    }
    if op == 0x48 {
        reveal_strlit("");
        reveal_strlit(",");
        reveal_strlit("B");
        reveal_strlit("C");
        reveal_strlit("LD\t");
        reveal_strlit("LD\tC,B,");
        assert("LD\tC,B,"@ =~= "LD\t"@ + "C"@ + ","@ + "B"@ + ","@);
    }
    if op == 0x49 {
        reveal_strlit("");
        reveal_strlit(",");
        reveal_strlit("C");
        reveal_strlit("LD\t");
        reveal_strlit("LD\tC,C");
        assert("LD\tC,C"@ =~= "LD\t"@ + "C"@ + ","@ + "C"@ + ""@);
    }
    if op == 0x4a {
        reveal_strlit("");
        reveal_strlit(",");
        reveal_strlit("C");
        reveal_strlit("D");
        reveal_strlit("LD\t");
        reveal_strlit("LD\tC,D");
        assert("LD\tC,D"@ =~= "LD\t"@ + "C"@ + ","@ + "D"@ + ""@);
    }
    if op == 0x4b {
        reveal_strlit("");
        reveal_strlit(",");
        reveal_strlit("C");
        reveal_strlit("E");
        reveal_strlit("LD\t");
        reveal_strlit("LD\tC,E");
        assert("LD\tC,E"@ =~= "LD\t"@ + "C"@ + ","@ + "E"@ + ""@);
    }
    if op == 0x4c {
        reveal_strlit("");
        reveal_strlit(",");
        reveal_strlit("C");
        reveal_strlit("H");
        reveal_strlit("LD\t");
        reveal_strlit("LD\tC,H");
        assert("LD\tC,H"@ =~= "LD\t"@ + "C"@ + ","@ + "H"@ + ""@);
    }
    if op == 0x4d {
        reveal_strlit("");
        reveal_strlit(",");
        reveal_strlit("C");
        reveal_strlit("L");
        reveal_strlit("LD\t");
        reveal_strlit("LD\tC,L");
        assert("LD\tC,L"@ =~= "LD\t"@ + "C"@ + ","@ + "L"@ + ""@);
    }
    if op == 0x4e {
        reveal_strlit("");
        reveal_strlit(")");
        reveal_strlit(",(");
        reveal_strlit("C");
        reveal_strlit("HL");
        reveal_strlit("LD\t");
        reveal_strlit("LD\tC,(HL)");
        assert("LD\tC,(HL)"@ =~= "LD\t"@ + "C"@ + ",("@ + "HL"@ + ")"@);
    }
}

/// The listing lines of opcodes 0x50 to 0x5f.
proof fn lemma_listing_lines_50(op: u8)
    requires
        0x50 <= op < 0x60,
    ensures
        decoded(op) is Some && expected_line(decoded(op).unwrap()) is Some ==> listing_pattern(op)
            == expected_line(decoded(op).unwrap()),
{
    if op == 0x50 {
        reveal_strlit("");
        reveal_strlit(",");
        reveal_strlit("B");
        reveal_strlit("D");
        reveal_strlit("LD\t");
        reveal_strlit("LD\tD,B,");
        assert("LD\tD,B,"@ =~= "LD\t"@ + "D"@ + ","@ + "B"@ + ","@);
    }
    if op == 0x51 {
        reveal_strlit("");
        reveal_strlit(",");
        reveal_strlit("C");
        reveal_strlit("D");
        reveal_strlit("LD\t");
        reveal_strlit("LD\tD,C");
        assert("LD\tD,C"@ =~= "LD\t"@ + "D"@ + ","@ + "C"@ + ""@);
    }
    if op == 0x52 {
        reveal_strlit("");
        reveal_strlit(",");
        reveal_strlit("D");
        reveal_strlit("LD\t");
        reveal_strlit("LD\tD,D");
        assert("LD\tD,D"@ =~= "LD\t"@ + "D"@ + ","@ + "D"@ + ""@);
    }
    if op == 0x53 {
        reveal_strlit("");
        reveal_strlit(",");
        reveal_strlit("D");
        reveal_strlit("E");
        reveal_strlit("LD\t");
        reveal_strlit("LD\tD,E");
        assert("LD\tD,E"@ =~= "LD\t"@ + "D"@ + ","@ + "E"@ + ""@);
    }
    if op == 0x54 {
        reveal_strlit("");
        reveal_strlit(",");
        reveal_strlit("D");
        reveal_strlit("H");
        reveal_strlit("LD\t");
        reveal_strlit("LD\tD,H");
        assert("LD\tD,H"@ =~= "LD\t"@ + "D"@ + ","@ + "H"@ + ""@);
    }
    if op == 0x55 {
        reveal_strlit("");
        reveal_strlit(",");
        reveal_strlit("D");
        reveal_strlit("L");
        reveal_strlit("LD\t");
        reveal_strlit("LD\tD,L");
        assert("LD\tD,L"@ =~= "LD\t"@ + "D"@ + ","@ + "L"@ + ""@);
    }
    if op == 0x56 {
        reveal_strlit("");
        reveal_strlit(")");
        reveal_strlit(",(");
        reveal_strlit("D");
        reveal_strlit("HL");
        reveal_strlit("LD\t");
        reveal_strlit("LD\tD,(HL)");
        assert("LD\tD,(HL)"@ =~= "LD\t"@ + "D"@ + ",("@ + "HL"@ + ")"@);
    }
    if op == 0x58 {
        reveal_strlit("");
        reveal_strlit(",");
        reveal_strlit("B");
        reveal_strlit("E");
        reveal_strlit("LD\t");
        reveal_strlit("LD\tE,B,");
        assert("LD\tE,B,"@ =~= "LD\t"@ + "E"@ + ","@ + "B"@ + ","@);
    }
    if op == 0x59 {
        reveal_strlit("");
        reveal_strlit(",");
        reveal_strlit("C");
        reveal_strlit("E");
        reveal_strlit("LD\t");
        reveal_strlit("LD\tE,C");
        assert("LD\tE,C"@ =~= "LD\t"@ + "E"@ + ","@ + "C"@ + ""@);
    }
    if op == 0x5a {
        reveal_strlit("");
        reveal_strlit(",");
        reveal_strlit("D");
        reveal_strlit("E");
        reveal_strlit("LD\t");
        reveal_strlit("LD\tE,D");
        assert("LD\tE,D"@ =~= "LD\t"@ + "E"@ + ","@ + "D"@ + ""@);
    }
    if op == 0x5b {
        reveal_strlit("");
        reveal_strlit(",");
        reveal_strlit("E");
        reveal_strlit("LD\t");
        reveal_strlit("LD\tE,E");
        assert("LD\tE,E"@ =~= "LD\t"@ + "E"@ + ","@ + "E"@ + ""@);
    }
    if op == 0x5c {
        reveal_strlit("");
        reveal_strlit(",");
        reveal_strlit("E");
        reveal_strlit("H");
        reveal_strlit("LD\t");
        reveal_strlit("LD\tE,H");
        assert("LD\tE,H"@ =~= "LD\t"@ + "E"@ + ","@ + "H"@ + ""@);
    }
    if op == 0x5d {
        reveal_strlit("");
        reveal_strlit(",");
        reveal_strlit("E");
        reveal_strlit("L");
        reveal_strlit("LD\t");
        reveal_strlit("LD\tE,L");
        assert("LD\tE,L"@ =~= "LD\t"@ + "E"@ + ","@ + "L"@ + ""@);
    }
    if op == 0x5e {
        reveal_strlit("");
        reveal_strlit(")");
        reveal_strlit(",(");
        reveal_strlit("E");
        reveal_strlit("HL");
        reveal_strlit("LD\t");
        reveal_strlit("LD\tE,(HL)");
        assert("LD\tE,(HL)"@ =~= "LD\t"@ + "E"@ + ",("@ + "HL"@ + ")"@);
    }
}

/// The listing lines of opcodes 0x60 to 0x6f.
proof fn lemma_listing_lines_60(op: u8)
    requires
        0x60 <= op < 0x70,
    ensures
        decoded(op) is Some && expected_line(decoded(op).unwrap()) is Some ==> listing_pattern(op)
            == expected_line(decoded(op).unwrap()),
{
    if op == 0x60 {
        reveal_strlit("");
        reveal_strlit(",");
        reveal_strlit("B");
        reveal_strlit("H");
        reveal_strlit("LD\t");
        reveal_strlit("LD\tH,B,");
        assert("LD\tH,B,"@ =~= "LD\t"@ + "H"@ + ","@ + "B"@ + ","@);
    }
    if op == 0x61 {
        reveal_strlit("");
        reveal_strlit(",");
        reveal_strlit("C");
        reveal_strlit("H");
        reveal_strlit("LD\t");
        reveal_strlit("LD\tH,C");
        assert("LD\tH,C"@ =~= "LD\t"@ + "H"@ + ","@ + "C"@ + ""@);
    }
    if op == 0x62 {
        reveal_strlit("");
        reveal_strlit(",");
        reveal_strlit("D");
        reveal_strlit("H");
        reveal_strlit("LD\t");
        reveal_strlit("LD\tH,D");
        assert("LD\tH,D"@ =~= "LD\t"@ + "H"@ + ","@ + "D"@ + ""@);
    }
    if op == 0x63 {
        reveal_strlit("");
        reveal_strlit(",");
        reveal_strlit("E");
        reveal_strlit("H");
        reveal_strlit("LD\t");
        reveal_strlit("LD\tH,E");
        assert("LD\tH,E"@ =~= "LD\t"@ + "H"@ + ","@ + "E"@ + ""@);
    }
    if op == 0x64 {
        reveal_strlit("");
        reveal_strlit(",");
        reveal_strlit("H");
        reveal_strlit("LD\t");
        reveal_strlit("LD\tH,H");
        assert("LD\tH,H"@ =~= "LD\t"@ + "H"@ + ","@ + "H"@ + ""@);
    }
    if op == 0x65 {
        reveal_strlit("");
        reveal_strlit(",");
        reveal_strlit("H");
        reveal_strlit("L");
        reveal_strlit("LD\t");
        reveal_strlit("LD\tH,L");
        assert("LD\tH,L"@ =~= "LD\t"@ + "H"@ + ","@ + "L"@ + ""@);
    }
    if op == 0x67 {
        reveal_strlit("");
        reveal_strlit(",");
        reveal_strlit("A");
        reveal_strlit("H");
        reveal_strlit("LD\t");
        reveal_strlit("LD\tH,A");
        assert("LD\tH,A"@ =~= "LD\t"@ + "H"@ + ","@ + "A"@ + ""@);
    }
    if op == 0x66 {
        reveal_strlit("");
        reveal_strlit(")");
        reveal_strlit(",(");
        reveal_strlit("H");
        reveal_strlit("HL");
        reveal_strlit("LD\t");
        reveal_strlit("LD\tH,(HL)");
        assert("LD\tH,(HL)"@ =~= "LD\t"@ + "H"@ + ",("@ + "HL"@ + ")"@);
    }
    if op == 0x68 {
        reveal_strlit("");
        reveal_strlit(",");
        reveal_strlit("B");
        reveal_strlit("L");
        reveal_strlit("LD\t");
        reveal_strlit("LD\tL,B,");
        assert("LD\tL,B,"@ =~= "LD\t"@ + "L"@ + ","@ + "B"@ + ","@);
    }
    if op == 0x69 {
        reveal_strlit("");
        reveal_strlit(",");
        reveal_strlit("C");
        reveal_strlit("L");
        reveal_strlit("LD\t");
        reveal_strlit("LD\tL,C");
        assert("LD\tL,C"@ =~= "LD\t"@ + "L"@ + ","@ + "C"@ + ""@);
    }
    if op == 0x6a {
        reveal_strlit("");
        reveal_strlit(",");
        reveal_strlit("D");
        reveal_strlit("L");
        reveal_strlit("LD\t");
        reveal_strlit("LD\tL,D");
        assert("LD\tL,D"@ =~= "LD\t"@ + "L"@ + ","@ + "D"@ + ""@);
    }
    if op == 0x6b {
        reveal_strlit("");
        reveal_strlit(",");
        reveal_strlit("E");
        reveal_strlit("L");
        reveal_strlit("LD\t");
        reveal_strlit("LD\tL,E");
        assert("LD\tL,E"@ =~= "LD\t"@ + "L"@ + ","@ + "E"@ + ""@);
    }
    if op == 0x6c {
        reveal_strlit("");
        reveal_strlit(",");
        reveal_strlit("H");
        reveal_strlit("L");
        reveal_strlit("LD\t");
        reveal_strlit("LD\tL,H");
        assert("LD\tL,H"@ =~= "LD\t"@ + "L"@ + ","@ + "H"@ + ""@);
    }
    if op == 0x6d {
        reveal_strlit("");
        reveal_strlit(",");
        reveal_strlit("L");
        reveal_strlit("LD\t");
        reveal_strlit("LD\tL,L");
        assert("LD\tL,L"@ =~= "LD\t"@ + "L"@ + ","@ + "L"@ + ""@);
    }
    if op == 0x6f {
        reveal_strlit("");
        reveal_strlit(",");
        reveal_strlit("A");
        reveal_strlit("L");
        reveal_strlit("LD\t");
        reveal_strlit("LD\tL,A");
        assert("LD\tL,A"@ =~= "LD\t"@ + "L"@ + ","@ + "A"@ + ""@);
    }
    if op == 0x6e {
        reveal_strlit("");
        reveal_strlit(")");
        reveal_strlit(",(");
        reveal_strlit("HL");
        reveal_strlit("L");
        reveal_strlit("LD\t");
        reveal_strlit("LD\tL,(HL)");
        assert("LD\tL,(HL)"@ =~= "LD\t"@ + "L"@ + ",("@ + "HL"@ + ")"@);
    }
}

/// The listing lines of opcodes 0x70 to 0x7f.
proof fn lemma_listing_lines_70(op: u8)
    requires
        0x70 <= op < 0x80,
    ensures
        decoded(op) is Some && expected_line(decoded(op).unwrap()) is Some ==> listing_pattern(op)
            == expected_line(decoded(op).unwrap()),
{
    if op == 0x77 {
        reveal_strlit("");
        reveal_strlit("),");
        reveal_strlit("A");
        reveal_strlit("HL");
        reveal_strlit("LD\t(");
        reveal_strlit("LD\t(HL),A");
        assert("LD\t(HL),A"@ =~= "LD\t("@ + "HL"@ + "),"@ + "A"@ + ""@);
    }
    if op == 0x7f {
        reveal_strlit("");
        reveal_strlit(",");
        reveal_strlit("A");
        reveal_strlit("LD\t");
        reveal_strlit("LD\tA,A");
        assert("LD\tA,A"@ =~= "LD\t"@ + "A"@ + ","@ + "A"@ + ""@);
    }
    if op == 0x78 {
        reveal_strlit("");
        reveal_strlit(",");
        reveal_strlit("A");
        reveal_strlit("B");
        reveal_strlit("LD\t");
        reveal_strlit("LD\tA,B");
        assert("LD\tA,B"@ =~= "LD\t"@ + "A"@ + ","@ + "B"@ + ""@);
    }
    if op == 0x79 {
        reveal_strlit("");
        reveal_strlit(",");
        reveal_strlit("A");
        reveal_strlit("C");
        reveal_strlit("LD\t");
        reveal_strlit("LD\tA,C");
        assert("LD\tA,C"@ =~= "LD\t"@ + "A"@ + ","@ + "C"@ + ""@);
    }
    if op == 0x7a {
        reveal_strlit("");
        reveal_strlit(",");
        reveal_strlit("A");
        reveal_strlit("D");
        reveal_strlit("LD\t");
        reveal_strlit("LD\tA,D");
        assert("LD\tA,D"@ =~= "LD\t"@ + "A"@ + ","@ + "D"@ + ""@);
    }
    if op == 0x7b {
        reveal_strlit("");
        reveal_strlit(",");
        reveal_strlit("A");
        reveal_strlit("E");
        reveal_strlit("LD\t");
        reveal_strlit("LD\tA,E");
        assert("LD\tA,E"@ =~= "LD\t"@ + "A"@ + ","@ + "E"@ + ""@);
    }
    if op == 0x7c {
        reveal_strlit("");
        reveal_strlit(",");
        reveal_strlit("A");
        reveal_strlit("H");
        reveal_strlit("LD\t");
        reveal_strlit("LD\tA,H");
        assert("LD\tA,H"@ =~= "LD\t"@ + "A"@ + ","@ + "H"@ + ""@);
    }
    if op == 0x7d {
        reveal_strlit("");
        reveal_strlit(",");
        reveal_strlit("A");
        reveal_strlit("L");
        reveal_strlit("LD\t");
        reveal_strlit("LD\tA,L");
        assert("LD\tA,L"@ =~= "LD\t"@ + "A"@ + ","@ + "L"@ + ""@);
    }
    if op == 0x7e {
        reveal_strlit("");
        reveal_strlit(")");
        reveal_strlit(",(");
        reveal_strlit("A");
        reveal_strlit("HL");
        reveal_strlit("LD\t");
        reveal_strlit("LD\tA,(HL)");
        assert("LD\tA,(HL)"@ =~= "LD\t"@ + "A"@ + ",("@ + "HL"@ + ")"@);
    }
    if op == 0x70 {
        reveal_strlit("");
        reveal_strlit("),");
        reveal_strlit(",");
        reveal_strlit("B");
        reveal_strlit("HL");
        reveal_strlit("LD\t(");
        reveal_strlit("LD\t(HL),B,");
        assert("LD\t(HL),B,"@ =~= "LD\t("@ + "HL"@ + "),"@ + "B"@ + ","@);
    }
    if op == 0x71 {
        reveal_strlit("");
        reveal_strlit("),");
        reveal_strlit("C");
        reveal_strlit("HL");
        reveal_strlit("LD\t(");
        reveal_strlit("LD\t(HL),C");
        assert("LD\t(HL),C"@ =~= "LD\t("@ + "HL"@ + "),"@ + "C"@ + ""@);
    }
    if op == 0x72 {
        reveal_strlit("");
        reveal_strlit("),");
        reveal_strlit("D");
        reveal_strlit("HL");
        reveal_strlit("LD\t(");
        reveal_strlit("LD\t(HL),D");
        assert("LD\t(HL),D"@ =~= "LD\t("@ + "HL"@ + "),"@ + "D"@ + ""@);
    }
    if op == 0x73 {
        reveal_strlit("");
        reveal_strlit("),");
        reveal_strlit("E");
        reveal_strlit("HL");
        reveal_strlit("LD\t(");
        reveal_strlit("LD\t(HL),E");
        assert("LD\t(HL),E"@ =~= "LD\t("@ + "HL"@ + "),"@ + "E"@ + ""@);
    }
    if op == 0x74 {
        reveal_strlit("");
        reveal_strlit("),");
        reveal_strlit("H");
        reveal_strlit("HL");
        reveal_strlit("LD\t(");
        reveal_strlit("LD\t(HL),H");
        assert("LD\t(HL),H"@ =~= "LD\t("@ + "HL"@ + "),"@ + "H"@ + ""@);
    }
    if op == 0x75 {
        reveal_strlit("");
        reveal_strlit("),");
        reveal_strlit("HL");
        reveal_strlit("L");
        reveal_strlit("LD\t(");
        reveal_strlit("LD\t(HL),L");
        assert("LD\t(HL),L"@ =~= "LD\t("@ + "HL"@ + "),"@ + "L"@ + ""@);
    }
}

/// The listing lines of opcodes 0x80 to 0x8f.
proof fn lemma_listing_lines_80(op: u8)
    requires
        0x80 <= op < 0x90,
    ensures
        decoded(op) is Some && expected_line(decoded(op).unwrap()) is Some ==> listing_pattern(op)
            == expected_line(decoded(op).unwrap()),
{
    if op == 0x87 {
        reveal_strlit("");
        reveal_strlit("\tA,");
        reveal_strlit("A");
        reveal_strlit("ADD");
        reveal_strlit("ADD\tA,A");
        assert("ADD\tA,A"@ =~= "ADD"@ + "\tA,"@ + "A"@);
    }
    if op == 0x80 {
        reveal_strlit("");
        reveal_strlit("\tA,");
        reveal_strlit("ADD");
        reveal_strlit("ADD\tA,B");
        reveal_strlit("B");
        assert("ADD\tA,B"@ =~= "ADD"@ + "\tA,"@ + "B"@);
    }
    if op == 0x81 {
        reveal_strlit("");
        reveal_strlit("\tA,");
        reveal_strlit("ADD");
        reveal_strlit("ADD\tA,C");
        reveal_strlit("C");
        assert("ADD\tA,C"@ =~= "ADD"@ + "\tA,"@ + "C"@);
    }
    if op == 0x82 {
        reveal_strlit("");
        reveal_strlit("\tA,");
        reveal_strlit("ADD");
        reveal_strlit("ADD\tA,D");
        reveal_strlit("D");
        assert("ADD\tA,D"@ =~= "ADD"@ + "\tA,"@ + "D"@);
    }
    if op == 0x83 {
        reveal_strlit("");
        reveal_strlit("\tA,");
        reveal_strlit("ADD");
        reveal_strlit("ADD\tA,E");
        reveal_strlit("E");
        assert("ADD\tA,E"@ =~= "ADD"@ + "\tA,"@ + "E"@);
    }
    if op == 0x84 {
        reveal_strlit("");
        reveal_strlit("\tA,");
        reveal_strlit("ADD");
        reveal_strlit("ADD\tA,H");
        reveal_strlit("H");
        assert("ADD\tA,H"@ =~= "ADD"@ + "\tA,"@ + "H"@);
    }
    if op == 0x85 {
        reveal_strlit("");
        reveal_strlit("\tA,");
        reveal_strlit("ADD");
        reveal_strlit("ADD\tA,L");
        reveal_strlit("L");
        assert("ADD\tA,L"@ =~= "ADD"@ + "\tA,"@ + "L"@);
    }
    if op == 0x86 {
        reveal_strlit("");
        reveal_strlit("\tA,HL");
        reveal_strlit("ADD");
        reveal_strlit("ADD\tA,HL");
        assert("ADD\tA,HL"@ =~= "ADD"@ + "\tA,HL"@);
    }
    if op == 0x8f {
        reveal_strlit("");
        reveal_strlit("\tA,");
        reveal_strlit("A");
        reveal_strlit("ADC");
        reveal_strlit("ADC\tA,A");
        assert("ADC\tA,A"@ =~= "ADC"@ + "\tA,"@ + "A"@);
    }
    if op == 0x88 {
        reveal_strlit("");
        reveal_strlit("\tA,");
        reveal_strlit("ADC");
        reveal_strlit("ADC\tA,B");
        reveal_strlit("B");
        assert("ADC\tA,B"@ =~= "ADC"@ + "\tA,"@ + "B"@);
    }
    if op == 0x89 {
        reveal_strlit("");
        reveal_strlit("\tA,");
        reveal_strlit("ADC");
        reveal_strlit("ADC\tA,C");
        reveal_strlit("C");
        assert("ADC\tA,C"@ =~= "ADC"@ + "\tA,"@ + "C"@);
    }
    if op == 0x8a {
        reveal_strlit("");
        reveal_strlit("\tA,");
        reveal_strlit("ADC");
        reveal_strlit("ADC\tA,D");
        reveal_strlit("D");
        assert("ADC\tA,D"@ =~= "ADC"@ + "\tA,"@ + "D"@);
    }
    if op == 0x8b {
        reveal_strlit("");
        reveal_strlit("\tA,");
        reveal_strlit("ADC");
        reveal_strlit("ADC\tA,E");
        reveal_strlit("E");
        assert("ADC\tA,E"@ =~= "ADC"@ + "\tA,"@ + "E"@);
    }
    if op == 0x8c {
        reveal_strlit("");
        reveal_strlit("\tA,");
        reveal_strlit("ADC");
        reveal_strlit("ADC\tA,H");
        reveal_strlit("H");
        assert("ADC\tA,H"@ =~= "ADC"@ + "\tA,"@ + "H"@);
    }
    if op == 0x8d {
        reveal_strlit("");
        reveal_strlit("\tA,");
        reveal_strlit("ADC");
        reveal_strlit("ADC\tA,L");
        reveal_strlit("L");
        assert("ADC\tA,L"@ =~= "ADC"@ + "\tA,"@ + "L"@);
    }
}

/// The listing lines of opcodes 0x90 to 0x9f.
proof fn lemma_listing_lines_90(op: u8)
    requires
        0x90 <= op < 0xa0,
    ensures
        decoded(op) is Some && expected_line(decoded(op).unwrap()) is Some ==> listing_pattern(op)
            == expected_line(decoded(op).unwrap()),
{
    if op == 0x97 {
        reveal_strlit("");
        reveal_strlit("\tA,");
        reveal_strlit("A");
        reveal_strlit("SUB");
        reveal_strlit("SUB\tA,A");
        assert("SUB\tA,A"@ =~= "SUB"@ + "\tA,"@ + "A"@);
    }
    if op == 0x90 {
        reveal_strlit("");
        reveal_strlit("\tA,");
        reveal_strlit("B");
        reveal_strlit("SUB");
        reveal_strlit("SUB\tA,B");
        assert("SUB\tA,B"@ =~= "SUB"@ + "\tA,"@ + "B"@);
    }
    if op == 0x91 {
        reveal_strlit("");
        reveal_strlit("\tA,");
        reveal_strlit("C");
        reveal_strlit("SUB");
        reveal_strlit("SUB\tA,C");
        assert("SUB\tA,C"@ =~= "SUB"@ + "\tA,"@ + "C"@);
    }
    if op == 0x92 {
        reveal_strlit("");
        reveal_strlit("\tA,");
        reveal_strlit("D");
        reveal_strlit("SUB");
        reveal_strlit("SUB\tA,D");
        assert("SUB\tA,D"@ =~= "SUB"@ + "\tA,"@ + "D"@);
    }
    if op == 0x93 {
        reveal_strlit("");
        reveal_strlit("\tA,");
        reveal_strlit("E");
        reveal_strlit("SUB");
        reveal_strlit("SUB\tA,E");
        assert("SUB\tA,E"@ =~= "SUB"@ + "\tA,"@ + "E"@);
    }
    if op == 0x94 {
        reveal_strlit("");
        reveal_strlit("\tA,");
        reveal_strlit("H");
        reveal_strlit("SUB");
        reveal_strlit("SUB\tA,H");
        assert("SUB\tA,H"@ =~= "SUB"@ + "\tA,"@ + "H"@);
    }
    if op == 0x95 {
        reveal_strlit("");
        reveal_strlit("\tA,");
        reveal_strlit("L");
        reveal_strlit("SUB");
        reveal_strlit("SUB\tA,L");
        assert("SUB\tA,L"@ =~= "SUB"@ + "\tA,"@ + "L"@);
    }
    if op == 0x96 {
        reveal_strlit("");
        reveal_strlit("\tA,HL");
        reveal_strlit("SUB");
        reveal_strlit("SUB\tA,HL");
        assert("SUB\tA,HL"@ =~= "SUB"@ + "\tA,HL"@);
    }
}

/// The listing lines of opcodes 0xa0 to 0xaf.
proof fn lemma_listing_lines_a0(op: u8)
    requires
        0xa0 <= op < 0xb0,
    ensures
        decoded(op) is Some && expected_line(decoded(op).unwrap()) is Some ==> listing_pattern(op)
            == expected_line(decoded(op).unwrap()),
{
    if op == 0xa7 {
        reveal_strlit("");
        reveal_strlit("\tA,");
        reveal_strlit("A");
        reveal_strlit("AND");
        reveal_strlit("AND\tA,A");
        assert("AND\tA,A"@ =~= "AND"@ + "\tA,"@ + "A"@);
    }
    if op == 0xa0 {
        reveal_strlit("");
        reveal_strlit("\tA,");
        reveal_strlit("AND");
        reveal_strlit("AND\tA,B");
        reveal_strlit("B");
        assert("AND\tA,B"@ =~= "AND"@ + "\tA,"@ + "B"@);
    }
    if op == 0xa1 {
        reveal_strlit("");
        reveal_strlit("\tA,");
        reveal_strlit("AND");
        reveal_strlit("AND\tA,C");
        reveal_strlit("C");
        assert("AND\tA,C"@ =~= "AND"@ + "\tA,"@ + "C"@);
    }
    if op == 0xa2 {
        reveal_strlit("");
        reveal_strlit("\tA,");
        reveal_strlit("AND");
        reveal_strlit("AND\tA,D");
        reveal_strlit("D");
        assert("AND\tA,D"@ =~= "AND"@ + "\tA,"@ + "D"@);
    }
    if op == 0xa3 {
        reveal_strlit("");
        reveal_strlit("\tA,");
        reveal_strlit("AND");
        reveal_strlit("AND\tA,E");
        reveal_strlit("E");
        assert("AND\tA,E"@ =~= "AND"@ + "\tA,"@ + "E"@);
    }
    if op == 0xa4 {
        reveal_strlit("");
        reveal_strlit("\tA,");
        reveal_strlit("AND");
        reveal_strlit("AND\tA,H");
        reveal_strlit("H");
        assert("AND\tA,H"@ =~= "AND"@ + "\tA,"@ + "H"@);
    }
    if op == 0xa5 {
        reveal_strlit("");
        reveal_strlit("\tA,");
        reveal_strlit("AND");
        reveal_strlit("AND\tA,L");
        reveal_strlit("L");
        assert("AND\tA,L"@ =~= "AND"@ + "\tA,"@ + "L"@);
    }
    if op == 0xa6 {
        reveal_strlit("");
        reveal_strlit("\tA,HL");
        reveal_strlit("AND");
        reveal_strlit("AND\tA,HL");
        assert("AND\tA,HL"@ =~= "AND"@ + "\tA,HL"@);
    }
    if op == 0xaf {
        reveal_strlit("");
        reveal_strlit("\tA,");
        reveal_strlit("A");
        reveal_strlit("XOR");
        reveal_strlit("XOR\tA,A");
        assert("XOR\tA,A"@ =~= "XOR"@ + "\tA,"@ + "A"@);
    }
    if op == 0xa8 {
        reveal_strlit("");
        reveal_strlit("\tA,");
        reveal_strlit("B");
        reveal_strlit("XOR");
        reveal_strlit("XOR\tA,B");
        assert("XOR\tA,B"@ =~= "XOR"@ + "\tA,"@ + "B"@);
    }
    if op == 0xa9 {
        reveal_strlit("");
        reveal_strlit("\tA,");
        reveal_strlit("C");
        reveal_strlit("XOR");
        reveal_strlit("XOR\tA,C");
        assert("XOR\tA,C"@ =~= "XOR"@ + "\tA,"@ + "C"@);
    }
    if op == 0xaa {
        reveal_strlit("");
        reveal_strlit("\tA,");
        reveal_strlit("D");
        reveal_strlit("XOR");
        reveal_strlit("XOR\tA,D");
        assert("XOR\tA,D"@ =~= "XOR"@ + "\tA,"@ + "D"@);
    }
    if op == 0xab {
        reveal_strlit("");
        reveal_strlit("\tA,");
        reveal_strlit("E");
        reveal_strlit("XOR");
        reveal_strlit("XOR\tA,E");
        assert("XOR\tA,E"@ =~= "XOR"@ + "\tA,"@ + "E"@);
    }
    if op == 0xac {
        reveal_strlit("");
        reveal_strlit("\tA,");
        reveal_strlit("H");
        reveal_strlit("XOR");
        reveal_strlit("XOR\tA,H");
        assert("XOR\tA,H"@ =~= "XOR"@ + "\tA,"@ + "H"@);
    }
    if op == 0xad {
        reveal_strlit("");
        reveal_strlit("\tA,");
        reveal_strlit("L");
        reveal_strlit("XOR");
        reveal_strlit("XOR\tA,L");
        assert("XOR\tA,L"@ =~= "XOR"@ + "\tA,"@ + "L"@);
    }
    if op == 0xae {
        reveal_strlit("");
        reveal_strlit("\tA,HL");
        reveal_strlit("XOR");
        reveal_strlit("XOR\tA,HL");
        assert("XOR\tA,HL"@ =~= "XOR"@ + "\tA,HL"@);
    }
}

/// The listing lines of opcodes 0xb0 to 0xbf.
proof fn lemma_listing_lines_b0(op: u8)
    requires
        0xb0 <= op < 0xc0,
    ensures
        decoded(op) is Some && expected_line(decoded(op).unwrap()) is Some ==> listing_pattern(op)
            == expected_line(decoded(op).unwrap()),
{
    if op == 0xb7 {
        reveal_strlit("");
        reveal_strlit("\tA,");
        reveal_strlit("A");
        reveal_strlit("OR");
        reveal_strlit("OR\tA,A");
        assert("OR\tA,A"@ =~= "OR"@ + "\tA,"@ + "A"@);
    }
    if op == 0xb0 {
        reveal_strlit("");
        reveal_strlit("\tA,");
        reveal_strlit("B");
        reveal_strlit("OR");
        reveal_strlit("OR\tA,B");
        assert("OR\tA,B"@ =~= "OR"@ + "\tA,"@ + "B"@);
    }
    if op == 0xb1 {
        reveal_strlit("");
        reveal_strlit("\tA,");
        reveal_strlit("C");
        reveal_strlit("OR");
        reveal_strlit("OR\tA,C");
        assert("OR\tA,C"@ =~= "OR"@ + "\tA,"@ + "C"@);
    }
    if op == 0xb2 {
        reveal_strlit("");
        reveal_strlit("\tA,");
        reveal_strlit("D");
        reveal_strlit("OR");
        reveal_strlit("OR\tA,D");
        assert("OR\tA,D"@ =~= "OR"@ + "\tA,"@ + "D"@);
    }
    if op == 0xb3 {
        reveal_strlit("");
        reveal_strlit("\tA,");
        reveal_strlit("E");
        reveal_strlit("OR");
        reveal_strlit("OR\tA,E");
        assert("OR\tA,E"@ =~= "OR"@ + "\tA,"@ + "E"@);
    }
    if op == 0xb4 {
        reveal_strlit("");
        reveal_strlit("\tA,");
        reveal_strlit("H");
        reveal_strlit("OR");
        reveal_strlit("OR\tA,H");
        assert("OR\tA,H"@ =~= "OR"@ + "\tA,"@ + "H"@);
    }
    if op == 0xb5 {
        reveal_strlit("");
        reveal_strlit("\tA,");
        reveal_strlit("L");
        reveal_strlit("OR");
        reveal_strlit("OR\tA,L");
        assert("OR\tA,L"@ =~= "OR"@ + "\tA,"@ + "L"@);
    }
    if op == 0xb6 {
        reveal_strlit("");
        reveal_strlit("\tA,HL");
        reveal_strlit("OR");
        reveal_strlit("OR\tA,HL");
        assert("OR\tA,HL"@ =~= "OR"@ + "\tA,HL"@);
    }
    if op == 0xbf {
        reveal_strlit("");
        reveal_strlit("\tA,");
        reveal_strlit("A");
        reveal_strlit("CP");
        reveal_strlit("CP\tA,A");
        assert("CP\tA,A"@ =~= "CP"@ + "\tA,"@ + "A"@);
    }
    if op == 0xb8 {
        reveal_strlit("");
        reveal_strlit("\tA,");
        reveal_strlit("B");
        reveal_strlit("CP");
        reveal_strlit("CP\tA,B");
        assert("CP\tA,B"@ =~= "CP"@ + "\tA,"@ + "B"@);
    }
    if op == 0xb9 {
        reveal_strlit("");
        reveal_strlit("\tA,");
        reveal_strlit("C");
        reveal_strlit("CP");
        reveal_strlit("CP\tA,C");
        assert("CP\tA,C"@ =~= "CP"@ + "\tA,"@ + "C"@);
    }
    if op == 0xba {
        reveal_strlit("");
        reveal_strlit("\tA,");
        reveal_strlit("CP");
        reveal_strlit("CP\tA,D");
        reveal_strlit("D");
        assert("CP\tA,D"@ =~= "CP"@ + "\tA,"@ + "D"@);
    }
    if op == 0xbb {
        reveal_strlit("");
        reveal_strlit("\tA,");
        reveal_strlit("CP");
        reveal_strlit("CP\tA,E");
        reveal_strlit("E");
        assert("CP\tA,E"@ =~= "CP"@ + "\tA,"@ + "E"@);
    }
    if op == 0xbc {
        reveal_strlit("");
        reveal_strlit("\tA,");
        reveal_strlit("CP");
        reveal_strlit("CP\tA,H");
        reveal_strlit("H");
        assert("CP\tA,H"@ =~= "CP"@ + "\tA,"@ + "H"@);
    }
    if op == 0xbd {
        reveal_strlit("");
        reveal_strlit("\tA,");
        reveal_strlit("CP");
        reveal_strlit("CP\tA,L");
        reveal_strlit("L");
        assert("CP\tA,L"@ =~= "CP"@ + "\tA,"@ + "L"@);
    }
}

/// The listing lines of opcodes 0xc0 to 0xcf.
proof fn lemma_listing_lines_c0(op: u8)
    requires
        0xc0 <= op < 0xd0,
    ensures
        decoded(op) is Some && expected_line(decoded(op).unwrap()) is Some ==> listing_pattern(op)
            == expected_line(decoded(op).unwrap()),
{
    if op == 0xc4 {
        reveal_strlit("");
        reveal_strlit(",");
        reveal_strlit("CALL\t");
        reveal_strlit("CALL\tNZ,");
        reveal_strlit("NZ");
        assert("CALL\tNZ,"@ =~= "CALL\t"@ + "NZ"@ + ","@);
    }
    if op == 0xcc {
        reveal_strlit("");
        reveal_strlit(",");
        reveal_strlit("CALL\t");
        reveal_strlit("CALL\tZ,");
        reveal_strlit("Z");
        assert("CALL\tZ,"@ =~= "CALL\t"@ + "Z"@ + ","@);
    }
    if op == 0xca {
        reveal_strlit("");
        reveal_strlit(",");
        reveal_strlit("JP\t");
        reveal_strlit("JP\tZ,");
        reveal_strlit("Z");
        assert("JP\tZ,"@ =~= "JP\t"@ + "Z"@ + ","@);
    }
    if op == 0xc2 {
        reveal_strlit("");
        reveal_strlit(",");
        reveal_strlit("JP\t");
        reveal_strlit("JP\tNZ,");
        reveal_strlit("NZ");
        assert("JP\tNZ,"@ =~= "JP\t"@ + "NZ"@ + ","@);
    }
    if op == 0xc0 {
        reveal_strlit("");
        reveal_strlit("NZ");
        reveal_strlit("RET ");
        reveal_strlit("RET NZ");
        assert("RET NZ"@ =~= "RET "@ + "NZ"@);
    }
    if op == 0xc8 {
        reveal_strlit("");
        reveal_strlit("RET ");
        reveal_strlit("RET Z");
        reveal_strlit("Z");
        assert("RET Z"@ =~= "RET "@ + "Z"@);
    }
    if op == 0xc5 {
        reveal_strlit("");
        reveal_strlit("BC");
        reveal_strlit("PUSH\t");
        reveal_strlit("PUSH\tBC");
        assert("PUSH\tBC"@ =~= "PUSH\t"@ + "BC"@);
    }
    if op == 0xc1 {
        reveal_strlit("");
        reveal_strlit("BC");
        reveal_strlit("POP\t");
        reveal_strlit("POP\tBC");
        assert("POP\tBC"@ =~= "POP\t"@ + "BC"@);
    }
    if op == 0xc6 {
        reveal_strlit("");
        reveal_strlit("\tA,");
        reveal_strlit("ADD");
        reveal_strlit("ADD\tA,");
        assert("ADD\tA,"@ =~= "ADD"@ + "\tA,"@);
    }
    if op == 0xce {
        reveal_strlit("");
        reveal_strlit("\tA,");
        reveal_strlit("ADC");
        reveal_strlit("ADC\tA,");
        assert("ADC\tA,"@ =~= "ADC"@ + "\tA,"@);
    }
}

/// The listing lines of opcodes 0xd0 to 0xdf.
proof fn lemma_listing_lines_d0(op: u8)
    requires
        0xd0 <= op < 0xe0,
    ensures
        decoded(op) is Some && expected_line(decoded(op).unwrap()) is Some ==> listing_pattern(op)
            == expected_line(decoded(op).unwrap()),
{
    if op == 0xd4 {
        reveal_strlit("");
        reveal_strlit(",");
        reveal_strlit("CALL\t");
        reveal_strlit("CALL\tNC,");
        reveal_strlit("NC");
        assert("CALL\tNC,"@ =~= "CALL\t"@ + "NC"@ + ","@);
    }
    if op == 0xdc {
        reveal_strlit("");
        reveal_strlit(",");
        reveal_strlit("C");
        reveal_strlit("CALL\t");
        reveal_strlit("CALL\tC,");
        assert("CALL\tC,"@ =~= "CALL\t"@ + "C"@ + ","@);
    }
    if op == 0xda {
        reveal_strlit("");
        reveal_strlit(",");
        reveal_strlit("C");
        reveal_strlit("JP\t");
        reveal_strlit("JP\tC,");
        assert("JP\tC,"@ =~= "JP\t"@ + "C"@ + ","@);
    }
    if op == 0xd2 {
        reveal_strlit("");
        reveal_strlit(",");
        reveal_strlit("JP\t");
        reveal_strlit("JP\tNC,");
        reveal_strlit("NC");
        assert("JP\tNC,"@ =~= "JP\t"@ + "NC"@ + ","@);
    }
    if op == 0xd0 {
        reveal_strlit("");
        reveal_strlit("NC");
        reveal_strlit("RET ");
        reveal_strlit("RET NC");
        assert("RET NC"@ =~= "RET "@ + "NC"@);
    }
    if op == 0xd8 {
        reveal_strlit("");
        reveal_strlit("C");
        reveal_strlit("RET ");
        reveal_strlit("RET C");
        assert("RET C"@ =~= "RET "@ + "C"@);
    }
    if op == 0xd5 {
        reveal_strlit("");
        reveal_strlit("DE");
        reveal_strlit("PUSH\t");
        reveal_strlit("PUSH\tDE");
        assert("PUSH\tDE"@ =~= "PUSH\t"@ + "DE"@);
    }
    if op == 0xd1 {
        reveal_strlit("");
        reveal_strlit("DE");
        reveal_strlit("POP\t");
        reveal_strlit("POP\tDE");
        assert("POP\tDE"@ =~= "POP\t"@ + "DE"@);
    }
    if op == 0xd6 {
        reveal_strlit("");
        reveal_strlit("\tA,");
        reveal_strlit("SUB");
        reveal_strlit("SUB\tA,");
        assert("SUB\tA,"@ =~= "SUB"@ + "\tA,"@);
    }
}

/// The listing lines of opcodes 0xe0 to 0xef.
proof fn lemma_listing_lines_e0(op: u8)
    requires
        0xe0 <= op < 0xf0,
    ensures
        decoded(op) is Some && expected_line(decoded(op).unwrap()) is Some ==> listing_pattern(op)
            == expected_line(decoded(op).unwrap()),
{
    if op == 0xe5 {
        reveal_strlit("");
        reveal_strlit("HL");
        reveal_strlit("PUSH\t");
        reveal_strlit("PUSH\tHL");
        assert("PUSH\tHL"@ =~= "PUSH\t"@ + "HL"@);
    }
    if op == 0xe1 {
        reveal_strlit("");
        reveal_strlit("HL");
        reveal_strlit("POP\t");
        reveal_strlit("POP\tHL");
        assert("POP\tHL"@ =~= "POP\t"@ + "HL"@);
    }
    if op == 0xe6 {
        reveal_strlit("");
        reveal_strlit("\tA,");
        reveal_strlit("AND");
        reveal_strlit("AND\tA,");
        assert("AND\tA,"@ =~= "AND"@ + "\tA,"@);
    }
    if op == 0xee {
        reveal_strlit("");
        reveal_strlit("\tA,");
        reveal_strlit("XOR");
        reveal_strlit("XOR\tA,");
        assert("XOR\tA,"@ =~= "XOR"@ + "\tA,"@);
    }
}

/// The listing lines of opcodes 0xf0 to 0xff.
proof fn lemma_listing_lines_f0(op: u8)
    requires
        0xf0 <= op < 0x100,
    ensures
        decoded(op) is Some && expected_line(decoded(op).unwrap()) is Some ==> listing_pattern(op)
            == expected_line(decoded(op).unwrap()),
{
    if op == 0xf5 {
        reveal_strlit("");
        reveal_strlit("AF");
        reveal_strlit("PUSH\t");
        reveal_strlit("PUSH\tAF");
        assert("PUSH\tAF"@ =~= "PUSH\t"@ + "AF"@);
    }
    if op == 0xf1 {
        reveal_strlit("");
        reveal_strlit("AF");
        reveal_strlit("POP\t");
        reveal_strlit("POP\tAF");
        assert("POP\tAF"@ =~= "POP\t"@ + "AF"@);
    }
    if op == 0xf6 {
        reveal_strlit("");
        reveal_strlit("\tA,");
        reveal_strlit("OR");
        reveal_strlit("OR\tA,");
        assert("OR\tA,"@ =~= "OR"@ + "\tA,"@);
    }
    if op == 0xfe {
        reveal_strlit("");
        reveal_strlit("\tA,");
        reveal_strlit("CP");
        reveal_strlit("CP\tA,");
        assert("CP\tA,"@ =~= "CP"@ + "\tA,"@);
    }
}

} // verus!
