//! The listing of instructions: one line of text per instruction, with its
//! opcode, its mnemonic and its operand in hexadecimal.
use vstd::prelude::*;
use vstd::string::StringExecFns;

use crate::bytes::word;
use crate::hex::{hex2, hex4, push_hex2, push_hex4};
use super::opcodes;
use super::state::CpuState;
use super::Cpu;

verus! {

/// The operand that a line of the listing shows, read from the bytes that
/// follow the opcode.
#[derive(Clone, Copy, Debug, PartialEq, Eq, Structural)]
pub enum Operand {
    /// No operand.
    Absent,
    /// The next byte, as two hex digits.
    Byte,
    /// The next byte as a relative jump: `r_` and two hex digits.
    Rel8,
    /// The next byte as an immediate: `d_` and two hex digits.
    Imm8,
    /// The next byte as a signed offset: `s_` and two hex digits.
    Signed8,
    /// The next two bytes, least significant first, as an immediate: `d_` and four hex digits.
    Imm16,
    /// The next two bytes, least significant first, as an address: `a_` and four hex digits.
    Addr16,
    /// The opcode itself, as two hex digits.
    Opcode,
}

/// How many bytes after the opcode an operand reads.
pub open spec fn operand_len(o: Operand) -> int {
    match o {
        Operand::Absent | Operand::Opcode => 0,
        Operand::Byte | Operand::Rel8 | Operand::Imm8 | Operand::Signed8 => 1,
        Operand::Imm16 | Operand::Addr16 => 2,
    }
}

/// The text of an operand of the instruction at `addr`.
pub open spec fn operand_text(mem: Seq<u8>, addr: int, o: Operand) -> Seq<char> {
    let b = mem[addr + 1];
    let w = word(mem[addr + 2], mem[addr + 1]);
    match o {
        Operand::Absent => Seq::empty(),
        Operand::Byte => hex2(b),
        Operand::Rel8 => "r_"@ + hex2(b),
        Operand::Imm8 => "d_"@ + hex2(b),
        Operand::Signed8 => "s_"@ + hex2(b),
        Operand::Imm16 => "d_"@ + hex4(w),
        Operand::Addr16 => "a_"@ + hex4(w),
        Operand::Opcode => hex2(mem[addr]),
    }
}

impl CpuState {
    /// The line of the listing for the instruction at `addr`: the opcode in
    /// parentheses, then the instruction; `None` for an opcode that has no
    /// listing.
    pub open spec fn listing(self, addr: u16) -> Option<Seq<char>> {
        let op = self.mem[addr as int];
        match listing_pattern(op) {
            Some((p, o, q)) => Some(
                "("@ + hex2(op) + ") "@ + p + operand_text(self.mem, addr as int, o) + q,
            ),
            None => None,
        }
    }

    /// Whether the operand bytes of the instruction at `addr` lie in memory.
    pub open spec fn listing_fits(self, addr: u16) -> bool {
        match listing_pattern(self.mem[addr as int]) {
            Some((_, o, _)) => addr + operand_len(o) <= 0xffff,
            None => true,
        }
    }
}

/// How the listing of an opcode reads: the text before its operand, the
/// operand, and the text after it; `None` for an opcode that has no listing.
pub open spec fn listing_pattern(op: u8) -> Option<(Seq<char>, Operand, Seq<char>)> {
    match op {
        opcodes::CALL_A16 => Some(("CALL\t"@, Operand::Addr16, ""@)),
        opcodes::CALL_NZ_A16 => Some(("CALL\tNZ,"@, Operand::Addr16, ""@)),
        opcodes::CALL_Z_A16 => Some(("CALL\tZ,"@, Operand::Addr16, ""@)),
        opcodes::CALL_NC_A16 => Some(("CALL\tNC,"@, Operand::Addr16, ""@)),
        opcodes::CALL_C_A16 => Some(("CALL\tC,"@, Operand::Addr16, ""@)),
        opcodes::INC_A => Some(("INC\tA"@, Operand::Absent, ""@)),
        opcodes::INC_B => Some(("INC\tB"@, Operand::Absent, ""@)),
        opcodes::INC_C => Some(("INC\tC"@, Operand::Absent, ""@)),
        opcodes::INC_D => Some(("INC\tD"@, Operand::Absent, ""@)),
        opcodes::INC_E => Some(("INC\tE"@, Operand::Absent, ""@)),
        opcodes::INC_H => Some(("INC\tH"@, Operand::Absent, ""@)),
        opcodes::INC_L => Some(("INC\tL"@, Operand::Absent, ""@)),
        opcodes::INC_AHL => Some(("INC\t(HL)"@, Operand::Absent, ""@)),
        opcodes::INC_BC => Some(("INC\tBC"@, Operand::Absent, ""@)),
        opcodes::INC_DE => Some(("INC\tDE"@, Operand::Absent, ""@)),
        opcodes::INC_HL => Some(("INC\tHL"@, Operand::Absent, ""@)),
        opcodes::INC_SP => Some(("INC\tSP"@, Operand::Absent, ""@)),
        opcodes::DEC_A => Some(("DEC\tA"@, Operand::Absent, ""@)),
        opcodes::DEC_B => Some(("DEC\tB"@, Operand::Absent, ""@)),
        opcodes::DEC_C => Some(("DEC\tC"@, Operand::Absent, ""@)),
        opcodes::DEC_D => Some(("DEC\tD"@, Operand::Absent, ""@)),
        opcodes::DEC_E => Some(("DEC\tE"@, Operand::Absent, ""@)),
        opcodes::DEC_H => Some(("DEC\tH"@, Operand::Absent, ""@)),
        opcodes::DEC_L => Some(("DEC\tL"@, Operand::Absent, ""@)),
        opcodes::DEC_AHL => Some(("DEC\t(HL)"@, Operand::Absent, ""@)),
        opcodes::DEC_BC => Some(("DEC\tBC"@, Operand::Absent, ""@)),
        opcodes::DEC_DE => Some(("DEC\tDE"@, Operand::Absent, ""@)),
        opcodes::DEC_HL => Some(("DEC\tHL"@, Operand::Absent, ""@)),
        opcodes::DEC_SP => Some(("DEC\tSP"@, Operand::Absent, ""@)),
        opcodes::LD_BC_A => Some(("LD\t(BC),A"@, Operand::Absent, ""@)),
        opcodes::LD_DE_A => Some(("LD\t(DE),A"@, Operand::Absent, ""@)),
        opcodes::LD_HL_A => Some(("LD\t(HL),A"@, Operand::Absent, ""@)),
        opcodes::LD_A16_A => Some(("LD\t"@, Operand::Addr16, ",A"@)),
        opcodes::LD_A_A => Some(("LD\tA,A"@, Operand::Absent, ""@)),
        opcodes::LD_A_B => Some(("LD\tA,B"@, Operand::Absent, ""@)),
        opcodes::LD_A_C => Some(("LD\tA,C"@, Operand::Absent, ""@)),
        opcodes::LD_A_D => Some(("LD\tA,D"@, Operand::Absent, ""@)),
        opcodes::LD_A_E => Some(("LD\tA,E"@, Operand::Absent, ""@)),
        opcodes::LD_A_H => Some(("LD\tA,H"@, Operand::Absent, ""@)),
        opcodes::LD_A_L => Some(("LD\tA,L"@, Operand::Absent, ""@)),
        opcodes::LD_A_HL => Some(("LD\tA,(HL)"@, Operand::Absent, ""@)),
        opcodes::LD_A_BC => Some(("LD\tA,(BC)"@, Operand::Absent, ""@)),
        opcodes::LD_A_DE => Some(("LD\tA,(DE)"@, Operand::Absent, ""@)),
        opcodes::LD_A_A16 => Some(("LD\tA,"@, Operand::Addr16, ""@)),
        opcodes::LD_B_A => Some(("LD\tB,A"@, Operand::Absent, ""@)),
        opcodes::LD_B_B => Some(("LD\tB,B"@, Operand::Absent, ""@)),
        opcodes::LD_B_C => Some(("LD\tB,C"@, Operand::Absent, ""@)),
        opcodes::LD_B_D => Some(("LD\tB,D"@, Operand::Absent, ""@)),
        opcodes::LD_B_E => Some(("LD\tB,E"@, Operand::Absent, ""@)),
        opcodes::LD_B_H => Some(("LD\tB,H"@, Operand::Absent, ""@)),
        opcodes::LD_B_L => Some(("LD\tB,L"@, Operand::Absent, ""@)),
        opcodes::LD_B_HL => Some(("LD\tB,(HL)"@, Operand::Absent, ""@)),
        opcodes::LD_C_B => Some(("LD\tC,B,"@, Operand::Absent, ""@)),
        opcodes::LD_C_C => Some(("LD\tC,C"@, Operand::Absent, ""@)),
        opcodes::LD_C_D => Some(("LD\tC,D"@, Operand::Absent, ""@)),
        opcodes::LD_C_E => Some(("LD\tC,E"@, Operand::Absent, ""@)),
        opcodes::LD_C_H => Some(("LD\tC,H"@, Operand::Absent, ""@)),
        opcodes::LD_C_L => Some(("LD\tC,L"@, Operand::Absent, ""@)),
        opcodes::LD_C_HL => Some(("LD\tC,(HL)"@, Operand::Absent, ""@)),
        opcodes::LD_D_B => Some(("LD\tD,B,"@, Operand::Absent, ""@)),
        opcodes::LD_D_C => Some(("LD\tD,C"@, Operand::Absent, ""@)),
        opcodes::LD_D_D => Some(("LD\tD,D"@, Operand::Absent, ""@)),
        opcodes::LD_D_E => Some(("LD\tD,E"@, Operand::Absent, ""@)),
        opcodes::LD_D_H => Some(("LD\tD,H"@, Operand::Absent, ""@)),
        opcodes::LD_D_L => Some(("LD\tD,L"@, Operand::Absent, ""@)),
        opcodes::LD_D_HL => Some(("LD\tD,(HL)"@, Operand::Absent, ""@)),
        opcodes::LD_E_B => Some(("LD\tE,B,"@, Operand::Absent, ""@)),
        opcodes::LD_E_C => Some(("LD\tE,C"@, Operand::Absent, ""@)),
        opcodes::LD_E_D => Some(("LD\tE,D"@, Operand::Absent, ""@)),
        opcodes::LD_E_E => Some(("LD\tE,E"@, Operand::Absent, ""@)),
        opcodes::LD_E_H => Some(("LD\tE,H"@, Operand::Absent, ""@)),
        opcodes::LD_E_L => Some(("LD\tE,L"@, Operand::Absent, ""@)),
        opcodes::LD_E_HL => Some(("LD\tE,(HL)"@, Operand::Absent, ""@)),
        opcodes::LD_H_B => Some(("LD\tH,B,"@, Operand::Absent, ""@)),
        opcodes::LD_H_C => Some(("LD\tH,C"@, Operand::Absent, ""@)),
        opcodes::LD_H_D => Some(("LD\tH,D"@, Operand::Absent, ""@)),
        opcodes::LD_H_E => Some(("LD\tH,E"@, Operand::Absent, ""@)),
        opcodes::LD_H_H => Some(("LD\tH,H"@, Operand::Absent, ""@)),
        opcodes::LD_H_L => Some(("LD\tH,L"@, Operand::Absent, ""@)),
        opcodes::LD_H_HL => Some(("LD\tH,(HL)"@, Operand::Absent, ""@)),
        opcodes::LD_H_A => Some(("LD\tH,A"@, Operand::Absent, ""@)),
        opcodes::LD_L_B => Some(("LD\tL,B,"@, Operand::Absent, ""@)),
        opcodes::LD_L_C => Some(("LD\tL,C"@, Operand::Absent, ""@)),
        opcodes::LD_L_D => Some(("LD\tL,D"@, Operand::Absent, ""@)),
        opcodes::LD_L_E => Some(("LD\tL,E"@, Operand::Absent, ""@)),
        opcodes::LD_L_H => Some(("LD\tL,H"@, Operand::Absent, ""@)),
        opcodes::LD_L_L => Some(("LD\tL,L"@, Operand::Absent, ""@)),
        opcodes::LD_L_HL => Some(("LD\tL,(HL)"@, Operand::Absent, ""@)),
        opcodes::LD_L_A => Some(("LD\tL,A"@, Operand::Absent, ""@)),
        opcodes::LD_HL_B => Some(("LD\t(HL),B,"@, Operand::Absent, ""@)),
        opcodes::LD_HL_C => Some(("LD\t(HL),C"@, Operand::Absent, ""@)),
        opcodes::LD_HL_D => Some(("LD\t(HL),D"@, Operand::Absent, ""@)),
        opcodes::LD_HL_E => Some(("LD\t(HL),E"@, Operand::Absent, ""@)),
        opcodes::LD_HL_H => Some(("LD\t(HL),H"@, Operand::Absent, ""@)),
        opcodes::LD_HL_L => Some(("LD\t(HL),L"@, Operand::Absent, ""@)),
        opcodes::LD_A_D8 => Some(("LD\tA,"@, Operand::Imm8, ""@)),
        opcodes::LD_BC_D16 => Some(("LD\tBC,"@, Operand::Imm16, ""@)),
        opcodes::LD_HL_D16 => Some(("LD\tHL,"@, Operand::Imm16, ""@)),
        opcodes::LD_DE_D16 => Some(("LD\tDE,"@, Operand::Imm16, ""@)),
        opcodes::LD_SP_D16 => Some(("LD\tSP,"@, Operand::Imm16, ""@)),
        opcodes::LD_SP_HL => Some(("LD\tSP,HL"@, Operand::Absent, ""@)),
        opcodes::LDH_A8_A => Some(("LDH\ta_"@, Operand::Byte, ",A"@)),
        opcodes::LDH_A_A8 => Some(("LDH\tA,a_"@, Operand::Byte, ""@)),
        opcodes::LDI_A_HL => Some(("LDI\tA,(HL)"@, Operand::Absent, ""@)),
        opcodes::LDI_HL_A => Some(("LDI\t(HL),A"@, Operand::Absent, ""@)),
        opcodes::LDD_HL_A => Some(("LDD\t(HL),A"@, Operand::Absent, ""@)),
        opcodes::JP_A16 => Some(("JP\t"@, Operand::Addr16, ""@)),
        opcodes::JP_HL => Some(("JP\tHL"@, Operand::Absent, ""@)),
        opcodes::JP_NZ_A16 => Some(("JP\tNZ,"@, Operand::Addr16, ""@)),
        opcodes::JP_Z_A16 => Some(("JP\tZ,"@, Operand::Addr16, ""@)),
        opcodes::JP_NC_A16 => Some(("JP\tNC,"@, Operand::Addr16, ""@)),
        opcodes::JP_C_A16 => Some(("JP\tC,"@, Operand::Addr16, ""@)),
        opcodes::JR_R8 => Some(("JR\t"@, Operand::Rel8, ""@)),
        opcodes::JR_NZ_R8 => Some(("JR\tNZ,"@, Operand::Rel8, ""@)),
        opcodes::JR_Z_R8 => Some(("JR\tZ,"@, Operand::Rel8, ""@)),
        opcodes::JR_NC_R8 => Some(("JR\tNC,"@, Operand::Rel8, ""@)),
        opcodes::JR_C_R8 => Some(("JR\tC,"@, Operand::Rel8, ""@)),
        opcodes::PUSH_A16_AF => Some(("PUSH\tAF"@, Operand::Absent, ""@)),
        opcodes::PUSH_A16_BC => Some(("PUSH\tBC"@, Operand::Absent, ""@)),
        opcodes::PUSH_A16_DE => Some(("PUSH\tDE"@, Operand::Absent, ""@)),
        opcodes::PUSH_A16_HL => Some(("PUSH\tHL"@, Operand::Absent, ""@)),
        opcodes::POP_A16_AF => Some(("POP\tAF"@, Operand::Absent, ""@)),
        opcodes::POP_A16_BC => Some(("POP\tBC"@, Operand::Absent, ""@)),
        opcodes::POP_A16_DE => Some(("POP\tDE"@, Operand::Absent, ""@)),
        opcodes::POP_A16_HL => Some(("POP\tHL"@, Operand::Absent, ""@)),
        opcodes::LD_B_D8 => Some(("LD\tB,"@, Operand::Imm8, ""@)),
        opcodes::LD_C_D8 => Some(("LD\tC,"@, Operand::Imm8, ""@)),
        opcodes::LD_D_D8 => Some(("LD\tD,"@, Operand::Imm8, ""@)),
        opcodes::LD_E_D8 => Some(("LD\tE,"@, Operand::Imm8, ""@)),
        opcodes::LD_H_D8 => Some(("LD\tH,"@, Operand::Imm8, ""@)),
        opcodes::LD_L_D8 => Some(("LD\tL,"@, Operand::Imm8, ""@)),
        opcodes::RET => Some(("RET"@, Operand::Absent, ""@)),
        opcodes::RET_NZ => Some(("RET NZ"@, Operand::Absent, ""@)),
        opcodes::RET_Z => Some(("RET Z"@, Operand::Absent, ""@)),
        opcodes::RET_NC => Some(("RET NC"@, Operand::Absent, ""@)),
        opcodes::RET_C => Some(("RET C"@, Operand::Absent, ""@)),
        opcodes::DI => Some(("DI"@, Operand::Absent, ""@)),
        opcodes::NOP => Some(("NOP"@, Operand::Absent, ""@)),
        opcodes::ADD_A_A => Some(("ADD\tA,A"@, Operand::Absent, ""@)),
        opcodes::ADD_A_B => Some(("ADD\tA,B"@, Operand::Absent, ""@)),
        opcodes::ADD_A_C => Some(("ADD\tA,C"@, Operand::Absent, ""@)),
        opcodes::ADD_A_D => Some(("ADD\tA,D"@, Operand::Absent, ""@)),
        opcodes::ADD_A_E => Some(("ADD\tA,E"@, Operand::Absent, ""@)),
        opcodes::ADD_A_H => Some(("ADD\tA,H"@, Operand::Absent, ""@)),
        opcodes::ADD_A_L => Some(("ADD\tA,L"@, Operand::Absent, ""@)),
        opcodes::ADD_A_HL => Some(("ADD\tA,HL"@, Operand::Absent, ""@)),
        opcodes::ADD_A_D8 => Some(("ADD\tA,"@, Operand::Imm8, ""@)),
        opcodes::ADD_HL_BC => Some(("ADD\tHL,BC"@, Operand::Absent, ""@)),
        opcodes::ADD_HL_DE => Some(("ADD\tHL,DE"@, Operand::Absent, ""@)),
        opcodes::ADD_HL_HL => Some(("ADD\tHL,HL"@, Operand::Absent, ""@)),
        opcodes::ADD_HL_SP => Some(("ADD\tHL,SP"@, Operand::Absent, ""@)),
        opcodes::ADD_SP_R8 => Some(("ADD\tSP,"@, Operand::Signed8, ""@)),
        opcodes::SUB_A_A => Some(("SUB\tA,A"@, Operand::Absent, ""@)),
        opcodes::SUB_A_B => Some(("SUB\tA,B"@, Operand::Absent, ""@)),
        opcodes::SUB_A_C => Some(("SUB\tA,C"@, Operand::Absent, ""@)),
        opcodes::SUB_A_D => Some(("SUB\tA,D"@, Operand::Absent, ""@)),
        opcodes::SUB_A_E => Some(("SUB\tA,E"@, Operand::Absent, ""@)),
        opcodes::SUB_A_H => Some(("SUB\tA,H"@, Operand::Absent, ""@)),
        opcodes::SUB_A_L => Some(("SUB\tA,L"@, Operand::Absent, ""@)),
        opcodes::SUB_A_HL => Some(("SUB\tA,HL"@, Operand::Absent, ""@)),
        opcodes::SUB_A_D8 => Some(("SUB\tA,"@, Operand::Imm8, ""@)),
        opcodes::AND_A_A => Some(("AND\tA,A"@, Operand::Absent, ""@)),
        opcodes::AND_A_B => Some(("AND\tA,B"@, Operand::Absent, ""@)),
        opcodes::AND_A_C => Some(("AND\tA,C"@, Operand::Absent, ""@)),
        opcodes::AND_A_D => Some(("AND\tA,D"@, Operand::Absent, ""@)),
        opcodes::AND_A_E => Some(("AND\tA,E"@, Operand::Absent, ""@)),
        opcodes::AND_A_H => Some(("AND\tA,H"@, Operand::Absent, ""@)),
        opcodes::AND_A_L => Some(("AND\tA,L"@, Operand::Absent, ""@)),
        opcodes::AND_A_HL => Some(("AND\tA,HL"@, Operand::Absent, ""@)),
        opcodes::AND_A_D8 => Some(("AND\tA,"@, Operand::Imm8, ""@)),
        opcodes::XOR_A_A => Some(("XOR\tA,A"@, Operand::Absent, ""@)),
        opcodes::XOR_A_B => Some(("XOR\tA,B"@, Operand::Absent, ""@)),
        opcodes::XOR_A_C => Some(("XOR\tA,C"@, Operand::Absent, ""@)),
        opcodes::XOR_A_D => Some(("XOR\tA,D"@, Operand::Absent, ""@)),
        opcodes::XOR_A_E => Some(("XOR\tA,E"@, Operand::Absent, ""@)),
        opcodes::XOR_A_H => Some(("XOR\tA,H"@, Operand::Absent, ""@)),
        opcodes::XOR_A_L => Some(("XOR\tA,L"@, Operand::Absent, ""@)),
        opcodes::XOR_A_HL => Some(("XOR\tA,HL"@, Operand::Absent, ""@)),
        opcodes::XOR_A_D8 => Some(("XOR\tA,"@, Operand::Imm8, ""@)),
        opcodes::OR_A_A => Some(("OR\tA,A"@, Operand::Absent, ""@)),
        opcodes::OR_A_B => Some(("OR\tA,B"@, Operand::Absent, ""@)),
        opcodes::OR_A_C => Some(("OR\tA,C"@, Operand::Absent, ""@)),
        opcodes::OR_A_D => Some(("OR\tA,D"@, Operand::Absent, ""@)),
        opcodes::OR_A_E => Some(("OR\tA,E"@, Operand::Absent, ""@)),
        opcodes::OR_A_H => Some(("OR\tA,H"@, Operand::Absent, ""@)),
        opcodes::OR_A_L => Some(("OR\tA,L"@, Operand::Absent, ""@)),
        opcodes::OR_A_HL => Some(("OR\tA,HL"@, Operand::Absent, ""@)),
        opcodes::OR_A_D8 => Some(("OR\tA,"@, Operand::Imm8, ""@)),
        opcodes::CP_A => Some(("CP\tA,A"@, Operand::Absent, ""@)),
        opcodes::CP_B => Some(("CP\tA,B"@, Operand::Absent, ""@)),
        opcodes::CP_C => Some(("CP\tA,C"@, Operand::Absent, ""@)),
        opcodes::CP_D => Some(("CP\tA,D"@, Operand::Absent, ""@)),
        opcodes::CP_E => Some(("CP\tA,E"@, Operand::Absent, ""@)),
        opcodes::CP_H => Some(("CP\tA,H"@, Operand::Absent, ""@)),
        opcodes::CP_L => Some(("CP\tA,L"@, Operand::Absent, ""@)),
        opcodes::CP_HL => Some(("CP\tA,"@, Operand::Addr16, ""@)),
        opcodes::CP_D8 => Some(("CP\tA,"@, Operand::Imm8, ""@)),
        opcodes::ADC_A_A => Some(("ADC\tA,A"@, Operand::Absent, ""@)),
        opcodes::ADC_A_B => Some(("ADC\tA,B"@, Operand::Absent, ""@)),
        opcodes::ADC_A_C => Some(("ADC\tA,C"@, Operand::Absent, ""@)),
        opcodes::ADC_A_D => Some(("ADC\tA,D"@, Operand::Absent, ""@)),
        opcodes::ADC_A_E => Some(("ADC\tA,E"@, Operand::Absent, ""@)),
        opcodes::ADC_A_H => Some(("ADC\tA,H"@, Operand::Absent, ""@)),
        opcodes::ADC_A_L => Some(("ADC\tA,L"@, Operand::Absent, ""@)),
        opcodes::ADC_A_D8 => Some(("ADC\tA,"@, Operand::Imm8, ""@)),
        opcodes::RLCA => Some(("RLCA"@, Operand::Absent, ""@)),
        opcodes::RRCA => Some(("RRCA"@, Operand::Absent, ""@)),
        opcodes::LDHL_SP_R8 => Some(("LDHL\tSP,"@, Operand::Signed8, ""@)),
        opcodes::LD_A16_SP => Some(("LD\t"@, Operand::Addr16, ",SP"@)),
        opcodes::RST_00 => Some(("RST\t0x00"@, Operand::Absent, ""@)),
        opcodes::RST_08 => Some(("RST\t0x08"@, Operand::Absent, ""@)),
        opcodes::RST_10 => Some(("RST\t0x10"@, Operand::Absent, ""@)),
        opcodes::RST_18 => Some(("RST\t0x18"@, Operand::Absent, ""@)),
        opcodes::RST_20 => Some(("RST\t0x20"@, Operand::Absent, ""@)),
        opcodes::RST_28 => Some(("RST\t0x28"@, Operand::Absent, ""@)),
        opcodes::RST_30 => Some(("RST\t0x30"@, Operand::Absent, ""@)),
        opcodes::RST_38 => Some(("RST\t0x38"@, Operand::Absent, ""@)),
        opcodes::EI => Some(("EI"@, Operand::Absent, ""@)),
        0xd3 | 0xdb | 0xdd | 0xe3 | 0xe4 | 0xeb | 0xec | 0xed | 0xf4 | 0xfc | 0xfd => Some(("Undefined instruction "@, Operand::Opcode, ""@)),
        _ => None,
    }
}

/// How the listing of an opcode reads.
fn pattern(op: u8) -> (r: Option<(&'static str, Operand, &'static str)>)
    ensures
        match r {
            Some((p, o, q)) => listing_pattern(op) == Some((p@, o, q@)),
            None => listing_pattern(op) is None,
        },
{
    match op {
            opcodes::CALL_A16 => Some(("CALL\t", Operand::Addr16, "")),
            opcodes::CALL_NZ_A16 => Some(("CALL\tNZ,", Operand::Addr16, "")),
            opcodes::CALL_Z_A16 => Some(("CALL\tZ,", Operand::Addr16, "")),
            opcodes::CALL_NC_A16 => Some(("CALL\tNC,", Operand::Addr16, "")),
            opcodes::CALL_C_A16 => Some(("CALL\tC,", Operand::Addr16, "")),
            opcodes::INC_A => Some(("INC\tA", Operand::Absent, "")),
            opcodes::INC_B => Some(("INC\tB", Operand::Absent, "")),
            opcodes::INC_C => Some(("INC\tC", Operand::Absent, "")),
            opcodes::INC_D => Some(("INC\tD", Operand::Absent, "")),
            opcodes::INC_E => Some(("INC\tE", Operand::Absent, "")),
            opcodes::INC_H => Some(("INC\tH", Operand::Absent, "")),
            opcodes::INC_L => Some(("INC\tL", Operand::Absent, "")),
            opcodes::INC_AHL => Some(("INC\t(HL)", Operand::Absent, "")),
            opcodes::INC_BC => Some(("INC\tBC", Operand::Absent, "")),
            opcodes::INC_DE => Some(("INC\tDE", Operand::Absent, "")),
            opcodes::INC_HL => Some(("INC\tHL", Operand::Absent, "")),
            opcodes::INC_SP => Some(("INC\tSP", Operand::Absent, "")),
            opcodes::DEC_A => Some(("DEC\tA", Operand::Absent, "")),
            opcodes::DEC_B => Some(("DEC\tB", Operand::Absent, "")),
            opcodes::DEC_C => Some(("DEC\tC", Operand::Absent, "")),
            opcodes::DEC_D => Some(("DEC\tD", Operand::Absent, "")),
            opcodes::DEC_E => Some(("DEC\tE", Operand::Absent, "")),
            opcodes::DEC_H => Some(("DEC\tH", Operand::Absent, "")),
            opcodes::DEC_L => Some(("DEC\tL", Operand::Absent, "")),
            opcodes::DEC_AHL => Some(("DEC\t(HL)", Operand::Absent, "")),
            opcodes::DEC_BC => Some(("DEC\tBC", Operand::Absent, "")),
            opcodes::DEC_DE => Some(("DEC\tDE", Operand::Absent, "")),
            opcodes::DEC_HL => Some(("DEC\tHL", Operand::Absent, "")),
            opcodes::DEC_SP => Some(("DEC\tSP", Operand::Absent, "")),
            opcodes::LD_BC_A => Some(("LD\t(BC),A", Operand::Absent, "")),
            opcodes::LD_DE_A => Some(("LD\t(DE),A", Operand::Absent, "")),
            opcodes::LD_HL_A => Some(("LD\t(HL),A", Operand::Absent, "")),
            opcodes::LD_A16_A => Some(("LD\t", Operand::Addr16, ",A")),
            opcodes::LD_A_A => Some(("LD\tA,A", Operand::Absent, "")),
            opcodes::LD_A_B => Some(("LD\tA,B", Operand::Absent, "")),
            opcodes::LD_A_C => Some(("LD\tA,C", Operand::Absent, "")),
            opcodes::LD_A_D => Some(("LD\tA,D", Operand::Absent, "")),
            opcodes::LD_A_E => Some(("LD\tA,E", Operand::Absent, "")),
            opcodes::LD_A_H => Some(("LD\tA,H", Operand::Absent, "")),
            opcodes::LD_A_L => Some(("LD\tA,L", Operand::Absent, "")),
            opcodes::LD_A_HL => Some(("LD\tA,(HL)", Operand::Absent, "")),
            opcodes::LD_A_BC => Some(("LD\tA,(BC)", Operand::Absent, "")),
            opcodes::LD_A_DE => Some(("LD\tA,(DE)", Operand::Absent, "")),
            opcodes::LD_A_A16 => Some(("LD\tA,", Operand::Addr16, "")),
            opcodes::LD_B_A => Some(("LD\tB,A", Operand::Absent, "")),
            opcodes::LD_B_B => Some(("LD\tB,B", Operand::Absent, "")),
            opcodes::LD_B_C => Some(("LD\tB,C", Operand::Absent, "")),
            opcodes::LD_B_D => Some(("LD\tB,D", Operand::Absent, "")),
            opcodes::LD_B_E => Some(("LD\tB,E", Operand::Absent, "")),
            opcodes::LD_B_H => Some(("LD\tB,H", Operand::Absent, "")),
            opcodes::LD_B_L => Some(("LD\tB,L", Operand::Absent, "")),
            opcodes::LD_B_HL => Some(("LD\tB,(HL)", Operand::Absent, "")),
            opcodes::LD_C_B => Some(("LD\tC,B,", Operand::Absent, "")),
            opcodes::LD_C_C => Some(("LD\tC,C", Operand::Absent, "")),
            opcodes::LD_C_D => Some(("LD\tC,D", Operand::Absent, "")),
            opcodes::LD_C_E => Some(("LD\tC,E", Operand::Absent, "")),
            opcodes::LD_C_H => Some(("LD\tC,H", Operand::Absent, "")),
            opcodes::LD_C_L => Some(("LD\tC,L", Operand::Absent, "")),
            opcodes::LD_C_HL => Some(("LD\tC,(HL)", Operand::Absent, "")),
            opcodes::LD_D_B => Some(("LD\tD,B,", Operand::Absent, "")),
            opcodes::LD_D_C => Some(("LD\tD,C", Operand::Absent, "")),
            opcodes::LD_D_D => Some(("LD\tD,D", Operand::Absent, "")),
            opcodes::LD_D_E => Some(("LD\tD,E", Operand::Absent, "")),
            opcodes::LD_D_H => Some(("LD\tD,H", Operand::Absent, "")),
            opcodes::LD_D_L => Some(("LD\tD,L", Operand::Absent, "")),
            opcodes::LD_D_HL => Some(("LD\tD,(HL)", Operand::Absent, "")),
            opcodes::LD_E_B => Some(("LD\tE,B,", Operand::Absent, "")),
            opcodes::LD_E_C => Some(("LD\tE,C", Operand::Absent, "")),
            opcodes::LD_E_D => Some(("LD\tE,D", Operand::Absent, "")),
            opcodes::LD_E_E => Some(("LD\tE,E", Operand::Absent, "")),
            opcodes::LD_E_H => Some(("LD\tE,H", Operand::Absent, "")),
            opcodes::LD_E_L => Some(("LD\tE,L", Operand::Absent, "")),
            opcodes::LD_E_HL => Some(("LD\tE,(HL)", Operand::Absent, "")),
            opcodes::LD_H_B => Some(("LD\tH,B,", Operand::Absent, "")),
            opcodes::LD_H_C => Some(("LD\tH,C", Operand::Absent, "")),
            opcodes::LD_H_D => Some(("LD\tH,D", Operand::Absent, "")),
            opcodes::LD_H_E => Some(("LD\tH,E", Operand::Absent, "")),
            opcodes::LD_H_H => Some(("LD\tH,H", Operand::Absent, "")),
            opcodes::LD_H_L => Some(("LD\tH,L", Operand::Absent, "")),
            opcodes::LD_H_HL => Some(("LD\tH,(HL)", Operand::Absent, "")),
            opcodes::LD_H_A => Some(("LD\tH,A", Operand::Absent, "")),
            opcodes::LD_L_B => Some(("LD\tL,B,", Operand::Absent, "")),
            opcodes::LD_L_C => Some(("LD\tL,C", Operand::Absent, "")),
            opcodes::LD_L_D => Some(("LD\tL,D", Operand::Absent, "")),
            opcodes::LD_L_E => Some(("LD\tL,E", Operand::Absent, "")),
            opcodes::LD_L_H => Some(("LD\tL,H", Operand::Absent, "")),
            opcodes::LD_L_L => Some(("LD\tL,L", Operand::Absent, "")),
            opcodes::LD_L_HL => Some(("LD\tL,(HL)", Operand::Absent, "")),
            opcodes::LD_L_A => Some(("LD\tL,A", Operand::Absent, "")),
            opcodes::LD_HL_B => Some(("LD\t(HL),B,", Operand::Absent, "")),
            opcodes::LD_HL_C => Some(("LD\t(HL),C", Operand::Absent, "")),
            opcodes::LD_HL_D => Some(("LD\t(HL),D", Operand::Absent, "")),
            opcodes::LD_HL_E => Some(("LD\t(HL),E", Operand::Absent, "")),
            opcodes::LD_HL_H => Some(("LD\t(HL),H", Operand::Absent, "")),
            opcodes::LD_HL_L => Some(("LD\t(HL),L", Operand::Absent, "")),
            opcodes::LD_A_D8 => Some(("LD\tA,", Operand::Imm8, "")),
            opcodes::LD_BC_D16 => Some(("LD\tBC,", Operand::Imm16, "")),
            opcodes::LD_HL_D16 => Some(("LD\tHL,", Operand::Imm16, "")),
            opcodes::LD_DE_D16 => Some(("LD\tDE,", Operand::Imm16, "")),
            opcodes::LD_SP_D16 => Some(("LD\tSP,", Operand::Imm16, "")),
            opcodes::LD_SP_HL => Some(("LD\tSP,HL", Operand::Absent, "")),
            opcodes::LDH_A8_A => Some(("LDH\ta_", Operand::Byte, ",A")),
            opcodes::LDH_A_A8 => Some(("LDH\tA,a_", Operand::Byte, "")),
            opcodes::LDI_A_HL => Some(("LDI\tA,(HL)", Operand::Absent, "")),
            opcodes::LDI_HL_A => Some(("LDI\t(HL),A", Operand::Absent, "")),
            opcodes::LDD_HL_A => Some(("LDD\t(HL),A", Operand::Absent, "")),
            opcodes::JP_A16 => Some(("JP\t", Operand::Addr16, "")),
            opcodes::JP_HL => Some(("JP\tHL", Operand::Absent, "")),
            opcodes::JP_NZ_A16 => Some(("JP\tNZ,", Operand::Addr16, "")),
            opcodes::JP_Z_A16 => Some(("JP\tZ,", Operand::Addr16, "")),
            opcodes::JP_NC_A16 => Some(("JP\tNC,", Operand::Addr16, "")),
            opcodes::JP_C_A16 => Some(("JP\tC,", Operand::Addr16, "")),
            opcodes::JR_R8 => Some(("JR\t", Operand::Rel8, "")),
            opcodes::JR_NZ_R8 => Some(("JR\tNZ,", Operand::Rel8, "")),
            opcodes::JR_Z_R8 => Some(("JR\tZ,", Operand::Rel8, "")),
            opcodes::JR_NC_R8 => Some(("JR\tNC,", Operand::Rel8, "")),
            opcodes::JR_C_R8 => Some(("JR\tC,", Operand::Rel8, "")),
            opcodes::PUSH_A16_AF => Some(("PUSH\tAF", Operand::Absent, "")),
            opcodes::PUSH_A16_BC => Some(("PUSH\tBC", Operand::Absent, "")),
            opcodes::PUSH_A16_DE => Some(("PUSH\tDE", Operand::Absent, "")),
            opcodes::PUSH_A16_HL => Some(("PUSH\tHL", Operand::Absent, "")),
            opcodes::POP_A16_AF => Some(("POP\tAF", Operand::Absent, "")),
            opcodes::POP_A16_BC => Some(("POP\tBC", Operand::Absent, "")),
            opcodes::POP_A16_DE => Some(("POP\tDE", Operand::Absent, "")),
            opcodes::POP_A16_HL => Some(("POP\tHL", Operand::Absent, "")),
            opcodes::LD_B_D8 => Some(("LD\tB,", Operand::Imm8, "")),
            opcodes::LD_C_D8 => Some(("LD\tC,", Operand::Imm8, "")),
            opcodes::LD_D_D8 => Some(("LD\tD,", Operand::Imm8, "")),
            opcodes::LD_E_D8 => Some(("LD\tE,", Operand::Imm8, "")),
            opcodes::LD_H_D8 => Some(("LD\tH,", Operand::Imm8, "")),
            opcodes::LD_L_D8 => Some(("LD\tL,", Operand::Imm8, "")),
            opcodes::RET => Some(("RET", Operand::Absent, "")),
            opcodes::RET_NZ => Some(("RET NZ", Operand::Absent, "")),
            opcodes::RET_Z => Some(("RET Z", Operand::Absent, "")),
            opcodes::RET_NC => Some(("RET NC", Operand::Absent, "")),
            opcodes::RET_C => Some(("RET C", Operand::Absent, "")),
            opcodes::DI => Some(("DI", Operand::Absent, "")),
            opcodes::NOP => Some(("NOP", Operand::Absent, "")),
            opcodes::ADD_A_A => Some(("ADD\tA,A", Operand::Absent, "")),
            opcodes::ADD_A_B => Some(("ADD\tA,B", Operand::Absent, "")),
            opcodes::ADD_A_C => Some(("ADD\tA,C", Operand::Absent, "")),
            opcodes::ADD_A_D => Some(("ADD\tA,D", Operand::Absent, "")),
            opcodes::ADD_A_E => Some(("ADD\tA,E", Operand::Absent, "")),
            opcodes::ADD_A_H => Some(("ADD\tA,H", Operand::Absent, "")),
            opcodes::ADD_A_L => Some(("ADD\tA,L", Operand::Absent, "")),
            opcodes::ADD_A_HL => Some(("ADD\tA,HL", Operand::Absent, "")),
            opcodes::ADD_A_D8 => Some(("ADD\tA,", Operand::Imm8, "")),
            opcodes::ADD_HL_BC => Some(("ADD\tHL,BC", Operand::Absent, "")),
            opcodes::ADD_HL_DE => Some(("ADD\tHL,DE", Operand::Absent, "")),
            opcodes::ADD_HL_HL => Some(("ADD\tHL,HL", Operand::Absent, "")),
            opcodes::ADD_HL_SP => Some(("ADD\tHL,SP", Operand::Absent, "")),
            opcodes::ADD_SP_R8 => Some(("ADD\tSP,", Operand::Signed8, "")),
            opcodes::SUB_A_A => Some(("SUB\tA,A", Operand::Absent, "")),
            opcodes::SUB_A_B => Some(("SUB\tA,B", Operand::Absent, "")),
            opcodes::SUB_A_C => Some(("SUB\tA,C", Operand::Absent, "")),
            opcodes::SUB_A_D => Some(("SUB\tA,D", Operand::Absent, "")),
            opcodes::SUB_A_E => Some(("SUB\tA,E", Operand::Absent, "")),
            opcodes::SUB_A_H => Some(("SUB\tA,H", Operand::Absent, "")),
            opcodes::SUB_A_L => Some(("SUB\tA,L", Operand::Absent, "")),
            opcodes::SUB_A_HL => Some(("SUB\tA,HL", Operand::Absent, "")),
            opcodes::SUB_A_D8 => Some(("SUB\tA,", Operand::Imm8, "")),
            opcodes::AND_A_A => Some(("AND\tA,A", Operand::Absent, "")),
            opcodes::AND_A_B => Some(("AND\tA,B", Operand::Absent, "")),
            opcodes::AND_A_C => Some(("AND\tA,C", Operand::Absent, "")),
            opcodes::AND_A_D => Some(("AND\tA,D", Operand::Absent, "")),
            opcodes::AND_A_E => Some(("AND\tA,E", Operand::Absent, "")),
            opcodes::AND_A_H => Some(("AND\tA,H", Operand::Absent, "")),
            opcodes::AND_A_L => Some(("AND\tA,L", Operand::Absent, "")),
            opcodes::AND_A_HL => Some(("AND\tA,HL", Operand::Absent, "")),
            opcodes::AND_A_D8 => Some(("AND\tA,", Operand::Imm8, "")),
            opcodes::XOR_A_A => Some(("XOR\tA,A", Operand::Absent, "")),
            opcodes::XOR_A_B => Some(("XOR\tA,B", Operand::Absent, "")),
            opcodes::XOR_A_C => Some(("XOR\tA,C", Operand::Absent, "")),
            opcodes::XOR_A_D => Some(("XOR\tA,D", Operand::Absent, "")),
            opcodes::XOR_A_E => Some(("XOR\tA,E", Operand::Absent, "")),
            opcodes::XOR_A_H => Some(("XOR\tA,H", Operand::Absent, "")),
            opcodes::XOR_A_L => Some(("XOR\tA,L", Operand::Absent, "")),
            opcodes::XOR_A_HL => Some(("XOR\tA,HL", Operand::Absent, "")),
            opcodes::XOR_A_D8 => Some(("XOR\tA,", Operand::Imm8, "")),
            opcodes::OR_A_A => Some(("OR\tA,A", Operand::Absent, "")),
            opcodes::OR_A_B => Some(("OR\tA,B", Operand::Absent, "")),
            opcodes::OR_A_C => Some(("OR\tA,C", Operand::Absent, "")),
            opcodes::OR_A_D => Some(("OR\tA,D", Operand::Absent, "")),
            opcodes::OR_A_E => Some(("OR\tA,E", Operand::Absent, "")),
            opcodes::OR_A_H => Some(("OR\tA,H", Operand::Absent, "")),
            opcodes::OR_A_L => Some(("OR\tA,L", Operand::Absent, "")),
            opcodes::OR_A_HL => Some(("OR\tA,HL", Operand::Absent, "")),
            opcodes::OR_A_D8 => Some(("OR\tA,", Operand::Imm8, "")),
            opcodes::CP_A => Some(("CP\tA,A", Operand::Absent, "")),
            opcodes::CP_B => Some(("CP\tA,B", Operand::Absent, "")),
            opcodes::CP_C => Some(("CP\tA,C", Operand::Absent, "")),
            opcodes::CP_D => Some(("CP\tA,D", Operand::Absent, "")),
            opcodes::CP_E => Some(("CP\tA,E", Operand::Absent, "")),
            opcodes::CP_H => Some(("CP\tA,H", Operand::Absent, "")),
            opcodes::CP_L => Some(("CP\tA,L", Operand::Absent, "")),
            opcodes::CP_HL => Some(("CP\tA,", Operand::Addr16, "")),
            opcodes::CP_D8 => Some(("CP\tA,", Operand::Imm8, "")),
            opcodes::ADC_A_A => Some(("ADC\tA,A", Operand::Absent, "")),
            opcodes::ADC_A_B => Some(("ADC\tA,B", Operand::Absent, "")),
            opcodes::ADC_A_C => Some(("ADC\tA,C", Operand::Absent, "")),
            opcodes::ADC_A_D => Some(("ADC\tA,D", Operand::Absent, "")),
            opcodes::ADC_A_E => Some(("ADC\tA,E", Operand::Absent, "")),
            opcodes::ADC_A_H => Some(("ADC\tA,H", Operand::Absent, "")),
            opcodes::ADC_A_L => Some(("ADC\tA,L", Operand::Absent, "")),
            opcodes::ADC_A_D8 => Some(("ADC\tA,", Operand::Imm8, "")),
            opcodes::RLCA => Some(("RLCA", Operand::Absent, "")),
            opcodes::RRCA => Some(("RRCA", Operand::Absent, "")),
            opcodes::LDHL_SP_R8 => Some(("LDHL\tSP,", Operand::Signed8, "")),
            opcodes::LD_A16_SP => Some(("LD\t", Operand::Addr16, ",SP")),
            opcodes::RST_00 => Some(("RST\t0x00", Operand::Absent, "")),
            opcodes::RST_08 => Some(("RST\t0x08", Operand::Absent, "")),
            opcodes::RST_10 => Some(("RST\t0x10", Operand::Absent, "")),
            opcodes::RST_18 => Some(("RST\t0x18", Operand::Absent, "")),
            opcodes::RST_20 => Some(("RST\t0x20", Operand::Absent, "")),
            opcodes::RST_28 => Some(("RST\t0x28", Operand::Absent, "")),
            opcodes::RST_30 => Some(("RST\t0x30", Operand::Absent, "")),
            opcodes::RST_38 => Some(("RST\t0x38", Operand::Absent, "")),
            opcodes::EI => Some(("EI", Operand::Absent, "")),
        0xd3 | 0xdb | 0xdd | 0xe3 | 0xe4 | 0xeb | 0xec | 0xed | 0xf4 | 0xfc | 0xfd => Some(("Undefined instruction ", Operand::Opcode, "")),
        _ => None,
    }
}

impl Cpu {
    /// Appends the text of an operand of the instruction at `addr`.
    fn push_operand(&self, s: &mut String, addr: u16, o: Operand)
        requires
            addr + operand_len(o) <= 0xffff,
        ensures
            final(s)@ == old(s)@ + operand_text(self@.mem, addr as int, o),
    {
        let ghost mem = self@.mem;
        proof {
            self.lemma_mem_len();
        }
        match o {
            Operand::Absent => {},
            Operand::Byte => push_hex2(s, self.mem(addr + 1)),
            Operand::Rel8 => {
                s.append("r_");
                push_hex2(s, self.mem(addr + 1));
            },
            Operand::Imm8 => {
                s.append("d_");
                push_hex2(s, self.mem(addr + 1));
            },
            Operand::Signed8 => {
                s.append("s_");
                push_hex2(s, self.mem(addr + 1));
            },
            Operand::Imm16 => {
                s.append("d_");
                push_hex4(s, self.mem(addr + 2) as u16 * 256 + self.mem(addr + 1) as u16);
            },
            Operand::Addr16 => {
                s.append("a_");
                push_hex4(s, self.mem(addr + 2) as u16 * 256 + self.mem(addr + 1) as u16);
            },
            Operand::Opcode => push_hex2(s, self.mem(addr)),
        }
        assert(final(s)@ =~= old(s)@ + operand_text(mem, addr as int, o));
    }

    /// Whether the operand bytes of the instruction at `addr` lie in memory.
    pub fn listing_fits(&self, addr: u16) -> (b: bool)
        ensures
            b == self@.listing_fits(addr),
    {
        match pattern(self.mem(addr)) {
            Some((_, o, _)) => {
                let len: u16 = match o {
                    Operand::Absent | Operand::Opcode => 0,
                    Operand::Byte | Operand::Rel8 | Operand::Imm8 | Operand::Signed8 => 1,
                    Operand::Imm16 | Operand::Addr16 => 2,
                };
                addr <= 0xffff - len
            },
            None => true,
        }
    }

    /// The line of the listing for the instruction at `addr`: the opcode in
    /// parentheses, then the mnemonic and its operand, as in
    /// `(c3) JP\ta_0150`; `None` for an opcode that has no listing.
    pub fn listing(&self, addr: u16) -> (r: Option<String>)
        requires
            self@.listing_fits(addr),
        ensures
            match r {
                Some(s) => self@.listing(addr) == Some(s@),
                None => self@.listing(addr) is None,
            },
    {
        let op = self.mem(addr);
        match pattern(op) {
            Some((p, o, q)) => {
                let mut s = String::from_str("(");
                push_hex2(&mut s, op);
                s.append(") ");
                s.append(p);
                self.push_operand(&mut s, addr, o);
                s.append(q);
                assert(s@ =~= "("@ + hex2(op) + ") "@ + p@ + operand_text(self@.mem, addr as int, o) + q@);
                Some(s)
            },
            None => None,
        }
    }

    /// The line of the listing for the instruction at the program counter.
    pub fn curr_listing(&self) -> (r: Option<String>)
        requires
            self@.listing_fits(self@.pc),
        ensures
            match r {
                Some(s) => self@.listing(self@.pc) == Some(s@),
                None => self@.listing(self@.pc) is None,
            },
    {
        self.listing(self.pc)
    }
}

} // verus!
