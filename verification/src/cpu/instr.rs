//! The instruction set: what each opcode means and what each instruction
//! does to the state of the CPU.
use vstd::prelude::*;

use crate::bytes::{high_byte, low_byte};
use super::opcodes;
use super::state::{
    flag_bits, sign_extend, signed_value, Cond, CpuState, Reg16, Reg8, Src8, MEM_HW_IO_REG_OFFSET,
};
use super::Flag;

verus! {

/// An instruction of the CPU, with the registers and operand sources it
/// names. Immediate operands follow the opcode in memory and are read when
/// the instruction runs.
#[derive(Clone, Copy, Debug, PartialEq, Eq, Structural)]
pub enum Instr {
    Nop,
    /// Disable interrupts.
    Di,
    /// Enable interrupts.
    Ei,
    /// An opcode that the CPU does not define; it does nothing.
    Undefined,
    /// Push the address of the next instruction and jump to a16.
    CallA16,
    /// `CallA16` if the condition holds.
    CallCc(Cond),
    /// Jump to a16.
    JpA16,
    /// Jump to the address in HL.
    JpHl,
    /// Jump to a16 if the condition holds.
    JpCc(Cond),
    /// Jump by a signed 8-bit offset.
    JrR8,
    /// Jump by a signed 8-bit offset if the condition holds.
    JrCc(Cond),
    /// Pop the return address.
    Ret,
    /// `Ret` if the condition holds.
    RetCc(Cond),
    /// Push the program counter and jump to the fixed address given.
    Rst(u8),
    /// Push a register pair.
    Push(Reg16),
    /// Pop a register pair.
    Pop(Reg16),
    /// Copy the second register into the first.
    LdR8R8(Reg8, Reg8),
    /// Load a register with the byte that follows the opcode.
    LdR8D8(Reg8),
    /// Load A from an operand.
    LdA(Src8),
    /// Load a register with the byte at the address in a register pair.
    LdR8R16(Reg8, Reg16),
    /// Load a register with the byte at address a16.
    LdR8A16(Reg8),
    /// Store a register at the address in a register pair.
    LdAddrR8(Reg16, Reg8),
    /// Store A at address a16.
    LdA16A,
    /// Load a register pair with d16.
    LdR16D16(Reg16),
    /// Copy HL into SP.
    LdSpHl,
    /// Store A at 0xff00 + a8.
    LdhA8A,
    /// Load A from 0xff00 + a8.
    LdhAA8,
    /// Load A from (HL), then increment HL.
    LdiAHl,
    /// Store A at (HL), then increment HL.
    LdiHlA,
    /// Store A at (HL), then decrement HL.
    LddHlA,
    /// Put SP plus a signed 8-bit offset into HL.
    LdhlSpR8,
    /// Store SP at address a16.
    LdA16Sp,
    IncR8(Reg8),
    /// Increment the byte at the address in a register pair.
    IncAddr(Reg16),
    IncR16(Reg16),
    DecR8(Reg8),
    /// Decrement the byte at the address in a register pair.
    DecAddr(Reg16),
    DecR16(Reg16),
    AddA(Src8),
    /// Add an operand and the carry flag to A.
    AdcA(Src8),
    SubA(Src8),
    AndA(Src8),
    XorA(Src8),
    OrA(Src8),
    /// Compare A with an operand.
    CpA(Src8),
    /// Compare A with the byte at (HL).
    CpHl,
    /// Add a register pair to HL.
    AddHl(Reg16),
    /// Add a signed 8-bit offset to SP.
    AddSpImm,
    /// Rotate A left.
    Rlca,
    /// Rotate A right.
    Rrca,
}

/// The instruction an opcode stands for: `Undefined` for the opcodes that
/// have none on this CPU, `None` for those this core does not run.
pub open spec fn decoded(op: u8) -> Option<Instr> {
    match op {
        opcodes::CALL_A16 => Some(Instr::CallA16),
        opcodes::CALL_NZ_A16 => Some(Instr::CallCc(Cond::NZ)),
        opcodes::CALL_Z_A16 => Some(Instr::CallCc(Cond::Z)),
        opcodes::CALL_NC_A16 => Some(Instr::CallCc(Cond::NC)),
        opcodes::CALL_C_A16 => Some(Instr::CallCc(Cond::C)),
        opcodes::DI => Some(Instr::Di),
        opcodes::JP_A16 => Some(Instr::JpA16),
        opcodes::JP_HL => Some(Instr::JpHl),
        opcodes::JR_R8 => Some(Instr::JrR8),
        opcodes::JP_C_A16 => Some(Instr::JpCc(Cond::C)),
        opcodes::JP_NC_A16 => Some(Instr::JpCc(Cond::NC)),
        opcodes::JP_Z_A16 => Some(Instr::JpCc(Cond::Z)),
        opcodes::JP_NZ_A16 => Some(Instr::JpCc(Cond::NZ)),
        opcodes::JR_NZ_R8 => Some(Instr::JrCc(Cond::NZ)),
        opcodes::JR_Z_R8 => Some(Instr::JrCc(Cond::Z)),
        opcodes::JR_NC_R8 => Some(Instr::JrCc(Cond::NC)),
        opcodes::JR_C_R8 => Some(Instr::JrCc(Cond::C)),
        opcodes::LD_BC_A => Some(Instr::LdAddrR8(Reg16::BC, Reg8::A)),
        opcodes::LD_HL_A => Some(Instr::LdAddrR8(Reg16::HL, Reg8::A)),
        opcodes::LD_DE_A => Some(Instr::LdAddrR8(Reg16::DE, Reg8::A)),
        opcodes::LD_A16_A => Some(Instr::LdA16A),
        opcodes::LD_A_D8 => Some(Instr::LdA(Src8::Imm)),
        opcodes::LD_A_A => Some(Instr::LdR8R8(Reg8::A, Reg8::A)),
        opcodes::LD_A_B => Some(Instr::LdR8R8(Reg8::A, Reg8::B)),
        opcodes::LD_A_C => Some(Instr::LdR8R8(Reg8::A, Reg8::C)),
        opcodes::LD_A_D => Some(Instr::LdR8R8(Reg8::A, Reg8::D)),
        opcodes::LD_A_E => Some(Instr::LdR8R8(Reg8::A, Reg8::E)),
        opcodes::LD_A_H => Some(Instr::LdR8R8(Reg8::A, Reg8::H)),
        opcodes::LD_A_L => Some(Instr::LdR8R8(Reg8::A, Reg8::L)),
        opcodes::LD_A_BC => Some(Instr::LdR8R16(Reg8::A, Reg16::BC)),
        opcodes::LD_A_DE => Some(Instr::LdR8R16(Reg8::A, Reg16::DE)),
        opcodes::LD_A_HL => Some(Instr::LdR8R16(Reg8::A, Reg16::HL)),
        opcodes::LD_A_A16 => Some(Instr::LdR8A16(Reg8::A)),
        opcodes::LD_B_A => Some(Instr::LdR8R8(Reg8::B, Reg8::A)),
        opcodes::LD_B_B => Some(Instr::LdR8R8(Reg8::B, Reg8::B)),
        opcodes::LD_B_C => Some(Instr::LdR8R8(Reg8::B, Reg8::C)),
        opcodes::LD_B_D => Some(Instr::LdR8R8(Reg8::B, Reg8::D)),
        opcodes::LD_B_E => Some(Instr::LdR8R8(Reg8::B, Reg8::E)),
        opcodes::LD_B_H => Some(Instr::LdR8R8(Reg8::B, Reg8::H)),
        opcodes::LD_B_L => Some(Instr::LdR8R8(Reg8::B, Reg8::L)),
        opcodes::LD_B_HL => Some(Instr::LdR8R16(Reg8::B, Reg16::HL)),
        opcodes::LD_C_B => Some(Instr::LdR8R8(Reg8::C, Reg8::B)),
        opcodes::LD_C_C => Some(Instr::LdR8R8(Reg8::C, Reg8::C)),
        opcodes::LD_C_D => Some(Instr::LdR8R8(Reg8::C, Reg8::D)),
        opcodes::LD_C_E => Some(Instr::LdR8R8(Reg8::C, Reg8::E)),
        opcodes::LD_C_H => Some(Instr::LdR8R8(Reg8::C, Reg8::H)),
        opcodes::LD_C_L => Some(Instr::LdR8R8(Reg8::C, Reg8::L)),
        opcodes::LD_C_HL => Some(Instr::LdR8R16(Reg8::C, Reg16::HL)),
        opcodes::LD_D_B => Some(Instr::LdR8R8(Reg8::D, Reg8::B)),
        opcodes::LD_D_C => Some(Instr::LdR8R8(Reg8::D, Reg8::C)),
        opcodes::LD_D_D => Some(Instr::LdR8R8(Reg8::D, Reg8::D)),
        opcodes::LD_D_E => Some(Instr::LdR8R8(Reg8::D, Reg8::E)),
        opcodes::LD_D_H => Some(Instr::LdR8R8(Reg8::D, Reg8::H)),
        opcodes::LD_D_L => Some(Instr::LdR8R8(Reg8::D, Reg8::L)),
        opcodes::LD_D_HL => Some(Instr::LdR8R16(Reg8::D, Reg16::HL)),
        opcodes::LD_E_B => Some(Instr::LdR8R8(Reg8::E, Reg8::B)),
        opcodes::LD_E_C => Some(Instr::LdR8R8(Reg8::E, Reg8::C)),
        opcodes::LD_E_D => Some(Instr::LdR8R8(Reg8::E, Reg8::D)),
        opcodes::LD_E_E => Some(Instr::LdR8R8(Reg8::E, Reg8::E)),
        opcodes::LD_E_H => Some(Instr::LdR8R8(Reg8::E, Reg8::H)),
        opcodes::LD_E_L => Some(Instr::LdR8R8(Reg8::E, Reg8::L)),
        opcodes::LD_E_HL => Some(Instr::LdR8R16(Reg8::E, Reg16::HL)),
        opcodes::LD_H_B => Some(Instr::LdR8R8(Reg8::H, Reg8::B)),
        opcodes::LD_H_C => Some(Instr::LdR8R8(Reg8::H, Reg8::C)),
        opcodes::LD_H_D => Some(Instr::LdR8R8(Reg8::H, Reg8::D)),
        opcodes::LD_H_E => Some(Instr::LdR8R8(Reg8::H, Reg8::E)),
        opcodes::LD_H_H => Some(Instr::LdR8R8(Reg8::H, Reg8::H)),
        opcodes::LD_H_L => Some(Instr::LdR8R8(Reg8::H, Reg8::L)),
        opcodes::LD_H_A => Some(Instr::LdR8R8(Reg8::H, Reg8::A)),
        opcodes::LD_H_HL => Some(Instr::LdR8R16(Reg8::H, Reg16::HL)),
        opcodes::LD_L_B => Some(Instr::LdR8R8(Reg8::L, Reg8::B)),
        opcodes::LD_L_C => Some(Instr::LdR8R8(Reg8::L, Reg8::C)),
        opcodes::LD_L_D => Some(Instr::LdR8R8(Reg8::L, Reg8::D)),
        opcodes::LD_L_E => Some(Instr::LdR8R8(Reg8::L, Reg8::E)),
        opcodes::LD_L_H => Some(Instr::LdR8R8(Reg8::L, Reg8::H)),
        opcodes::LD_L_L => Some(Instr::LdR8R8(Reg8::L, Reg8::L)),
        opcodes::LD_L_A => Some(Instr::LdR8R8(Reg8::L, Reg8::A)),
        opcodes::LD_L_HL => Some(Instr::LdR8R16(Reg8::L, Reg16::HL)),
        opcodes::LD_HL_B => Some(Instr::LdAddrR8(Reg16::HL, Reg8::B)),
        opcodes::LD_HL_C => Some(Instr::LdAddrR8(Reg16::HL, Reg8::C)),
        opcodes::LD_HL_D => Some(Instr::LdAddrR8(Reg16::HL, Reg8::D)),
        opcodes::LD_HL_E => Some(Instr::LdAddrR8(Reg16::HL, Reg8::E)),
        opcodes::LD_HL_H => Some(Instr::LdAddrR8(Reg16::HL, Reg8::H)),
        opcodes::LD_HL_L => Some(Instr::LdAddrR8(Reg16::HL, Reg8::L)),
        opcodes::LD_HL_D16 => Some(Instr::LdR16D16(Reg16::HL)),
        opcodes::LD_SP_HL => Some(Instr::LdSpHl),
        opcodes::LD_DE_D16 => Some(Instr::LdR16D16(Reg16::DE)),
        opcodes::LD_BC_D16 => Some(Instr::LdR16D16(Reg16::BC)),
        opcodes::LD_SP_D16 => Some(Instr::LdR16D16(Reg16::SP)),
        opcodes::LDH_A8_A => Some(Instr::LdhA8A),
        opcodes::LDH_A_A8 => Some(Instr::LdhAA8),
        opcodes::LDI_A_HL => Some(Instr::LdiAHl),
        opcodes::LDI_HL_A => Some(Instr::LdiHlA),
        opcodes::LDD_HL_A => Some(Instr::LddHlA),
        opcodes::RET => Some(Instr::Ret),
        opcodes::RET_NZ => Some(Instr::RetCc(Cond::NZ)),
        opcodes::RET_Z => Some(Instr::RetCc(Cond::Z)),
        opcodes::RET_NC => Some(Instr::RetCc(Cond::NC)),
        opcodes::RET_C => Some(Instr::RetCc(Cond::C)),
        opcodes::PUSH_A16_AF => Some(Instr::Push(Reg16::AF)),
        opcodes::PUSH_A16_BC => Some(Instr::Push(Reg16::BC)),
        opcodes::PUSH_A16_DE => Some(Instr::Push(Reg16::DE)),
        opcodes::PUSH_A16_HL => Some(Instr::Push(Reg16::HL)),
        opcodes::POP_A16_AF => Some(Instr::Pop(Reg16::AF)),
        opcodes::POP_A16_BC => Some(Instr::Pop(Reg16::BC)),
        opcodes::POP_A16_DE => Some(Instr::Pop(Reg16::DE)),
        opcodes::POP_A16_HL => Some(Instr::Pop(Reg16::HL)),
        opcodes::INC_A => Some(Instr::IncR8(Reg8::A)),
        opcodes::INC_B => Some(Instr::IncR8(Reg8::B)),
        opcodes::INC_C => Some(Instr::IncR8(Reg8::C)),
        opcodes::INC_D => Some(Instr::IncR8(Reg8::D)),
        opcodes::INC_E => Some(Instr::IncR8(Reg8::E)),
        opcodes::INC_H => Some(Instr::IncR8(Reg8::H)),
        opcodes::INC_L => Some(Instr::IncR8(Reg8::L)),
        opcodes::INC_AHL => Some(Instr::IncAddr(Reg16::HL)),
        opcodes::INC_BC => Some(Instr::IncR16(Reg16::BC)),
        opcodes::INC_DE => Some(Instr::IncR16(Reg16::DE)),
        opcodes::INC_HL => Some(Instr::IncR16(Reg16::HL)),
        opcodes::INC_SP => Some(Instr::IncR16(Reg16::SP)),
        opcodes::DEC_A => Some(Instr::DecR8(Reg8::A)),
        opcodes::DEC_B => Some(Instr::DecR8(Reg8::B)),
        opcodes::DEC_C => Some(Instr::DecR8(Reg8::C)),
        opcodes::DEC_D => Some(Instr::DecR8(Reg8::D)),
        opcodes::DEC_E => Some(Instr::DecR8(Reg8::E)),
        opcodes::DEC_H => Some(Instr::DecR8(Reg8::H)),
        opcodes::DEC_L => Some(Instr::DecR8(Reg8::L)),
        opcodes::DEC_AHL => Some(Instr::DecAddr(Reg16::HL)),
        opcodes::DEC_BC => Some(Instr::DecR16(Reg16::BC)),
        opcodes::DEC_DE => Some(Instr::DecR16(Reg16::DE)),
        opcodes::DEC_HL => Some(Instr::DecR16(Reg16::HL)),
        opcodes::DEC_SP => Some(Instr::DecR16(Reg16::SP)),
        opcodes::ADD_A_A => Some(Instr::AddA(Src8::Reg(Reg8::A))),
        opcodes::ADD_A_B => Some(Instr::AddA(Src8::Reg(Reg8::B))),
        opcodes::ADD_A_C => Some(Instr::AddA(Src8::Reg(Reg8::C))),
        opcodes::ADD_A_D => Some(Instr::AddA(Src8::Reg(Reg8::D))),
        opcodes::ADD_A_E => Some(Instr::AddA(Src8::Reg(Reg8::E))),
        opcodes::ADD_A_H => Some(Instr::AddA(Src8::Reg(Reg8::H))),
        opcodes::ADD_A_L => Some(Instr::AddA(Src8::Reg(Reg8::L))),
        opcodes::ADD_A_HL => Some(Instr::AddA(Src8::AtHl)),
        opcodes::ADD_A_D8 => Some(Instr::AddA(Src8::Imm)),
        opcodes::ADD_HL_BC => Some(Instr::AddHl(Reg16::BC)),
        opcodes::ADD_HL_DE => Some(Instr::AddHl(Reg16::DE)),
        opcodes::ADD_HL_HL => Some(Instr::AddHl(Reg16::HL)),
        opcodes::ADD_HL_SP => Some(Instr::AddHl(Reg16::SP)),
        opcodes::ADD_SP_R8 => Some(Instr::AddSpImm),
        opcodes::SUB_A_A => Some(Instr::SubA(Src8::Reg(Reg8::A))),
        opcodes::SUB_A_B => Some(Instr::SubA(Src8::Reg(Reg8::B))),
        opcodes::SUB_A_C => Some(Instr::SubA(Src8::Reg(Reg8::C))),
        opcodes::SUB_A_D => Some(Instr::SubA(Src8::Reg(Reg8::D))),
        opcodes::SUB_A_E => Some(Instr::SubA(Src8::Reg(Reg8::E))),
        opcodes::SUB_A_H => Some(Instr::SubA(Src8::Reg(Reg8::H))),
        opcodes::SUB_A_L => Some(Instr::SubA(Src8::Reg(Reg8::L))),
        opcodes::SUB_A_HL => Some(Instr::SubA(Src8::AtHl)),
        opcodes::SUB_A_D8 => Some(Instr::SubA(Src8::Imm)),
        opcodes::AND_A_A => Some(Instr::AndA(Src8::Reg(Reg8::A))),
        opcodes::AND_A_B => Some(Instr::AndA(Src8::Reg(Reg8::B))),
        opcodes::AND_A_C => Some(Instr::AndA(Src8::Reg(Reg8::C))),
        opcodes::AND_A_D => Some(Instr::AndA(Src8::Reg(Reg8::D))),
        opcodes::AND_A_E => Some(Instr::AndA(Src8::Reg(Reg8::E))),
        opcodes::AND_A_H => Some(Instr::AndA(Src8::Reg(Reg8::H))),
        opcodes::AND_A_L => Some(Instr::AndA(Src8::Reg(Reg8::L))),
        opcodes::AND_A_HL => Some(Instr::AndA(Src8::AtHl)),
        opcodes::AND_A_D8 => Some(Instr::AndA(Src8::Imm)),
        opcodes::XOR_A_A => Some(Instr::XorA(Src8::Reg(Reg8::A))),
        opcodes::XOR_A_B => Some(Instr::XorA(Src8::Reg(Reg8::B))),
        opcodes::XOR_A_C => Some(Instr::XorA(Src8::Reg(Reg8::C))),
        opcodes::XOR_A_D => Some(Instr::XorA(Src8::Reg(Reg8::D))),
        opcodes::XOR_A_E => Some(Instr::XorA(Src8::Reg(Reg8::E))),
        opcodes::XOR_A_H => Some(Instr::XorA(Src8::Reg(Reg8::H))),
        opcodes::XOR_A_L => Some(Instr::XorA(Src8::Reg(Reg8::L))),
        opcodes::XOR_A_HL => Some(Instr::XorA(Src8::AtHl)),
        opcodes::XOR_A_D8 => Some(Instr::XorA(Src8::Imm)),
        opcodes::OR_A_A => Some(Instr::OrA(Src8::Reg(Reg8::A))),
        opcodes::OR_A_B => Some(Instr::OrA(Src8::Reg(Reg8::B))),
        opcodes::OR_A_C => Some(Instr::OrA(Src8::Reg(Reg8::C))),
        opcodes::OR_A_D => Some(Instr::OrA(Src8::Reg(Reg8::D))),
        opcodes::OR_A_E => Some(Instr::OrA(Src8::Reg(Reg8::E))),
        opcodes::OR_A_H => Some(Instr::OrA(Src8::Reg(Reg8::H))),
        opcodes::OR_A_L => Some(Instr::OrA(Src8::Reg(Reg8::L))),
        opcodes::OR_A_HL => Some(Instr::OrA(Src8::AtHl)),
        opcodes::OR_A_D8 => Some(Instr::OrA(Src8::Imm)),
        opcodes::LD_B_D8 => Some(Instr::LdR8D8(Reg8::B)),
        opcodes::LD_C_D8 => Some(Instr::LdR8D8(Reg8::C)),
        opcodes::LD_D_D8 => Some(Instr::LdR8D8(Reg8::D)),
        opcodes::LD_E_D8 => Some(Instr::LdR8D8(Reg8::E)),
        opcodes::LD_H_D8 => Some(Instr::LdR8D8(Reg8::H)),
        opcodes::LD_L_D8 => Some(Instr::LdR8D8(Reg8::L)),
        opcodes::CP_A => Some(Instr::CpA(Src8::Reg(Reg8::A))),
        opcodes::CP_B => Some(Instr::CpA(Src8::Reg(Reg8::B))),
        opcodes::CP_C => Some(Instr::CpA(Src8::Reg(Reg8::C))),
        opcodes::CP_D => Some(Instr::CpA(Src8::Reg(Reg8::D))),
        opcodes::CP_E => Some(Instr::CpA(Src8::Reg(Reg8::E))),
        opcodes::CP_H => Some(Instr::CpA(Src8::Reg(Reg8::H))),
        opcodes::CP_L => Some(Instr::CpA(Src8::Reg(Reg8::L))),
        opcodes::CP_HL => Some(Instr::CpHl),
        opcodes::CP_D8 => Some(Instr::CpA(Src8::Imm)),
        opcodes::ADC_A_A => Some(Instr::AdcA(Src8::Reg(Reg8::A))),
        opcodes::ADC_A_B => Some(Instr::AdcA(Src8::Reg(Reg8::B))),
        opcodes::ADC_A_C => Some(Instr::AdcA(Src8::Reg(Reg8::C))),
        opcodes::ADC_A_D => Some(Instr::AdcA(Src8::Reg(Reg8::D))),
        opcodes::ADC_A_E => Some(Instr::AdcA(Src8::Reg(Reg8::E))),
        opcodes::ADC_A_H => Some(Instr::AdcA(Src8::Reg(Reg8::H))),
        opcodes::ADC_A_L => Some(Instr::AdcA(Src8::Reg(Reg8::L))),
        opcodes::ADC_A_HL => Some(Instr::AdcA(Src8::AtHl)),
        opcodes::ADC_A_D8 => Some(Instr::AdcA(Src8::Imm)),
        opcodes::RLCA => Some(Instr::Rlca),
        opcodes::RRCA => Some(Instr::Rrca),
        opcodes::LDHL_SP_R8 => Some(Instr::LdhlSpR8),
        opcodes::LD_A16_SP => Some(Instr::LdA16Sp),
        opcodes::RST_00 => Some(Instr::Rst(0x00)),
        opcodes::RST_08 => Some(Instr::Rst(0x08)),
        opcodes::RST_10 => Some(Instr::Rst(0x10)),
        opcodes::RST_18 => Some(Instr::Rst(0x18)),
        opcodes::RST_20 => Some(Instr::Rst(0x20)),
        opcodes::RST_28 => Some(Instr::Rst(0x28)),
        opcodes::RST_30 => Some(Instr::Rst(0x30)),
        opcodes::RST_38 => Some(Instr::Rst(0x38)),
        opcodes::EI => Some(Instr::Ei),
        opcodes::NOP => Some(Instr::Nop),
        0xd3 | 0xdb | 0xdd | 0xe3 | 0xe4 | 0xeb | 0xec | 0xed | 0xf4 | 0xfc | 0xfd => Some(Instr::Undefined),
        _ => None,
    }
}

impl Instr {
    /// Decodes an opcode.
    pub fn decode(op: u8) -> (r: Option<Instr>)
        ensures
            r == decoded(op),
    {
        match op {
            opcodes::CALL_A16 => Some(Instr::CallA16),
            opcodes::CALL_NZ_A16 => Some(Instr::CallCc(Cond::NZ)),
            opcodes::CALL_Z_A16 => Some(Instr::CallCc(Cond::Z)),
            opcodes::CALL_NC_A16 => Some(Instr::CallCc(Cond::NC)),
            opcodes::CALL_C_A16 => Some(Instr::CallCc(Cond::C)),
            opcodes::DI => Some(Instr::Di),
            opcodes::JP_A16 => Some(Instr::JpA16),
            opcodes::JP_HL => Some(Instr::JpHl),
            opcodes::JR_R8 => Some(Instr::JrR8),
            opcodes::JP_C_A16 => Some(Instr::JpCc(Cond::C)),
            opcodes::JP_NC_A16 => Some(Instr::JpCc(Cond::NC)),
            opcodes::JP_Z_A16 => Some(Instr::JpCc(Cond::Z)),
            opcodes::JP_NZ_A16 => Some(Instr::JpCc(Cond::NZ)),
            opcodes::JR_NZ_R8 => Some(Instr::JrCc(Cond::NZ)),
            opcodes::JR_Z_R8 => Some(Instr::JrCc(Cond::Z)),
            opcodes::JR_NC_R8 => Some(Instr::JrCc(Cond::NC)),
            opcodes::JR_C_R8 => Some(Instr::JrCc(Cond::C)),
            opcodes::LD_BC_A => Some(Instr::LdAddrR8(Reg16::BC, Reg8::A)),
            opcodes::LD_HL_A => Some(Instr::LdAddrR8(Reg16::HL, Reg8::A)),
            opcodes::LD_DE_A => Some(Instr::LdAddrR8(Reg16::DE, Reg8::A)),
            opcodes::LD_A16_A => Some(Instr::LdA16A),
            opcodes::LD_A_D8 => Some(Instr::LdA(Src8::Imm)),
            opcodes::LD_A_A => Some(Instr::LdR8R8(Reg8::A, Reg8::A)),
            opcodes::LD_A_B => Some(Instr::LdR8R8(Reg8::A, Reg8::B)),
            opcodes::LD_A_C => Some(Instr::LdR8R8(Reg8::A, Reg8::C)),
            opcodes::LD_A_D => Some(Instr::LdR8R8(Reg8::A, Reg8::D)),
            opcodes::LD_A_E => Some(Instr::LdR8R8(Reg8::A, Reg8::E)),
            opcodes::LD_A_H => Some(Instr::LdR8R8(Reg8::A, Reg8::H)),
            opcodes::LD_A_L => Some(Instr::LdR8R8(Reg8::A, Reg8::L)),
            opcodes::LD_A_BC => Some(Instr::LdR8R16(Reg8::A, Reg16::BC)),
            opcodes::LD_A_DE => Some(Instr::LdR8R16(Reg8::A, Reg16::DE)),
            opcodes::LD_A_HL => Some(Instr::LdR8R16(Reg8::A, Reg16::HL)),
            opcodes::LD_A_A16 => Some(Instr::LdR8A16(Reg8::A)),
            opcodes::LD_B_A => Some(Instr::LdR8R8(Reg8::B, Reg8::A)),
            opcodes::LD_B_B => Some(Instr::LdR8R8(Reg8::B, Reg8::B)),
            opcodes::LD_B_C => Some(Instr::LdR8R8(Reg8::B, Reg8::C)),
            opcodes::LD_B_D => Some(Instr::LdR8R8(Reg8::B, Reg8::D)),
            opcodes::LD_B_E => Some(Instr::LdR8R8(Reg8::B, Reg8::E)),
            opcodes::LD_B_H => Some(Instr::LdR8R8(Reg8::B, Reg8::H)),
            opcodes::LD_B_L => Some(Instr::LdR8R8(Reg8::B, Reg8::L)),
            opcodes::LD_B_HL => Some(Instr::LdR8R16(Reg8::B, Reg16::HL)),
            opcodes::LD_C_B => Some(Instr::LdR8R8(Reg8::C, Reg8::B)),
            opcodes::LD_C_C => Some(Instr::LdR8R8(Reg8::C, Reg8::C)),
            opcodes::LD_C_D => Some(Instr::LdR8R8(Reg8::C, Reg8::D)),
            opcodes::LD_C_E => Some(Instr::LdR8R8(Reg8::C, Reg8::E)),
            opcodes::LD_C_H => Some(Instr::LdR8R8(Reg8::C, Reg8::H)),
            opcodes::LD_C_L => Some(Instr::LdR8R8(Reg8::C, Reg8::L)),
            opcodes::LD_C_HL => Some(Instr::LdR8R16(Reg8::C, Reg16::HL)),
            opcodes::LD_D_B => Some(Instr::LdR8R8(Reg8::D, Reg8::B)),
            opcodes::LD_D_C => Some(Instr::LdR8R8(Reg8::D, Reg8::C)),
            opcodes::LD_D_D => Some(Instr::LdR8R8(Reg8::D, Reg8::D)),
            opcodes::LD_D_E => Some(Instr::LdR8R8(Reg8::D, Reg8::E)),
            opcodes::LD_D_H => Some(Instr::LdR8R8(Reg8::D, Reg8::H)),
            opcodes::LD_D_L => Some(Instr::LdR8R8(Reg8::D, Reg8::L)),
            opcodes::LD_D_HL => Some(Instr::LdR8R16(Reg8::D, Reg16::HL)),
            opcodes::LD_E_B => Some(Instr::LdR8R8(Reg8::E, Reg8::B)),
            opcodes::LD_E_C => Some(Instr::LdR8R8(Reg8::E, Reg8::C)),
            opcodes::LD_E_D => Some(Instr::LdR8R8(Reg8::E, Reg8::D)),
            opcodes::LD_E_E => Some(Instr::LdR8R8(Reg8::E, Reg8::E)),
            opcodes::LD_E_H => Some(Instr::LdR8R8(Reg8::E, Reg8::H)),
            opcodes::LD_E_L => Some(Instr::LdR8R8(Reg8::E, Reg8::L)),
            opcodes::LD_E_HL => Some(Instr::LdR8R16(Reg8::E, Reg16::HL)),
            opcodes::LD_H_B => Some(Instr::LdR8R8(Reg8::H, Reg8::B)),
            opcodes::LD_H_C => Some(Instr::LdR8R8(Reg8::H, Reg8::C)),
            opcodes::LD_H_D => Some(Instr::LdR8R8(Reg8::H, Reg8::D)),
            opcodes::LD_H_E => Some(Instr::LdR8R8(Reg8::H, Reg8::E)),
            opcodes::LD_H_H => Some(Instr::LdR8R8(Reg8::H, Reg8::H)),
            opcodes::LD_H_L => Some(Instr::LdR8R8(Reg8::H, Reg8::L)),
            opcodes::LD_H_A => Some(Instr::LdR8R8(Reg8::H, Reg8::A)),
            opcodes::LD_H_HL => Some(Instr::LdR8R16(Reg8::H, Reg16::HL)),
            opcodes::LD_L_B => Some(Instr::LdR8R8(Reg8::L, Reg8::B)),
            opcodes::LD_L_C => Some(Instr::LdR8R8(Reg8::L, Reg8::C)),
            opcodes::LD_L_D => Some(Instr::LdR8R8(Reg8::L, Reg8::D)),
            opcodes::LD_L_E => Some(Instr::LdR8R8(Reg8::L, Reg8::E)),
            opcodes::LD_L_H => Some(Instr::LdR8R8(Reg8::L, Reg8::H)),
            opcodes::LD_L_L => Some(Instr::LdR8R8(Reg8::L, Reg8::L)),
            opcodes::LD_L_A => Some(Instr::LdR8R8(Reg8::L, Reg8::A)),
            opcodes::LD_L_HL => Some(Instr::LdR8R16(Reg8::L, Reg16::HL)),
            opcodes::LD_HL_B => Some(Instr::LdAddrR8(Reg16::HL, Reg8::B)),
            opcodes::LD_HL_C => Some(Instr::LdAddrR8(Reg16::HL, Reg8::C)),
            opcodes::LD_HL_D => Some(Instr::LdAddrR8(Reg16::HL, Reg8::D)),
            opcodes::LD_HL_E => Some(Instr::LdAddrR8(Reg16::HL, Reg8::E)),
            opcodes::LD_HL_H => Some(Instr::LdAddrR8(Reg16::HL, Reg8::H)),
            opcodes::LD_HL_L => Some(Instr::LdAddrR8(Reg16::HL, Reg8::L)),
            opcodes::LD_HL_D16 => Some(Instr::LdR16D16(Reg16::HL)),
            opcodes::LD_SP_HL => Some(Instr::LdSpHl),
            opcodes::LD_DE_D16 => Some(Instr::LdR16D16(Reg16::DE)),
            opcodes::LD_BC_D16 => Some(Instr::LdR16D16(Reg16::BC)),
            opcodes::LD_SP_D16 => Some(Instr::LdR16D16(Reg16::SP)),
            opcodes::LDH_A8_A => Some(Instr::LdhA8A),
            opcodes::LDH_A_A8 => Some(Instr::LdhAA8),
            opcodes::LDI_A_HL => Some(Instr::LdiAHl),
            opcodes::LDI_HL_A => Some(Instr::LdiHlA),
            opcodes::LDD_HL_A => Some(Instr::LddHlA),
            opcodes::RET => Some(Instr::Ret),
            opcodes::RET_NZ => Some(Instr::RetCc(Cond::NZ)),
            opcodes::RET_Z => Some(Instr::RetCc(Cond::Z)),
            opcodes::RET_NC => Some(Instr::RetCc(Cond::NC)),
            opcodes::RET_C => Some(Instr::RetCc(Cond::C)),
            opcodes::PUSH_A16_AF => Some(Instr::Push(Reg16::AF)),
            opcodes::PUSH_A16_BC => Some(Instr::Push(Reg16::BC)),
            opcodes::PUSH_A16_DE => Some(Instr::Push(Reg16::DE)),
            opcodes::PUSH_A16_HL => Some(Instr::Push(Reg16::HL)),
            opcodes::POP_A16_AF => Some(Instr::Pop(Reg16::AF)),
            opcodes::POP_A16_BC => Some(Instr::Pop(Reg16::BC)),
            opcodes::POP_A16_DE => Some(Instr::Pop(Reg16::DE)),
            opcodes::POP_A16_HL => Some(Instr::Pop(Reg16::HL)),
            opcodes::INC_A => Some(Instr::IncR8(Reg8::A)),
            opcodes::INC_B => Some(Instr::IncR8(Reg8::B)),
            opcodes::INC_C => Some(Instr::IncR8(Reg8::C)),
            opcodes::INC_D => Some(Instr::IncR8(Reg8::D)),
            opcodes::INC_E => Some(Instr::IncR8(Reg8::E)),
            opcodes::INC_H => Some(Instr::IncR8(Reg8::H)),
            opcodes::INC_L => Some(Instr::IncR8(Reg8::L)),
            opcodes::INC_AHL => Some(Instr::IncAddr(Reg16::HL)),
            opcodes::INC_BC => Some(Instr::IncR16(Reg16::BC)),
            opcodes::INC_DE => Some(Instr::IncR16(Reg16::DE)),
            opcodes::INC_HL => Some(Instr::IncR16(Reg16::HL)),
            opcodes::INC_SP => Some(Instr::IncR16(Reg16::SP)),
            opcodes::DEC_A => Some(Instr::DecR8(Reg8::A)),
            opcodes::DEC_B => Some(Instr::DecR8(Reg8::B)),
            opcodes::DEC_C => Some(Instr::DecR8(Reg8::C)),
            opcodes::DEC_D => Some(Instr::DecR8(Reg8::D)),
            opcodes::DEC_E => Some(Instr::DecR8(Reg8::E)),
            opcodes::DEC_H => Some(Instr::DecR8(Reg8::H)),
            opcodes::DEC_L => Some(Instr::DecR8(Reg8::L)),
            opcodes::DEC_AHL => Some(Instr::DecAddr(Reg16::HL)),
            opcodes::DEC_BC => Some(Instr::DecR16(Reg16::BC)),
            opcodes::DEC_DE => Some(Instr::DecR16(Reg16::DE)),
            opcodes::DEC_HL => Some(Instr::DecR16(Reg16::HL)),
            opcodes::DEC_SP => Some(Instr::DecR16(Reg16::SP)),
            opcodes::ADD_A_A => Some(Instr::AddA(Src8::Reg(Reg8::A))),
            opcodes::ADD_A_B => Some(Instr::AddA(Src8::Reg(Reg8::B))),
            opcodes::ADD_A_C => Some(Instr::AddA(Src8::Reg(Reg8::C))),
            opcodes::ADD_A_D => Some(Instr::AddA(Src8::Reg(Reg8::D))),
            opcodes::ADD_A_E => Some(Instr::AddA(Src8::Reg(Reg8::E))),
            opcodes::ADD_A_H => Some(Instr::AddA(Src8::Reg(Reg8::H))),
            opcodes::ADD_A_L => Some(Instr::AddA(Src8::Reg(Reg8::L))),
            opcodes::ADD_A_HL => Some(Instr::AddA(Src8::AtHl)),
            opcodes::ADD_A_D8 => Some(Instr::AddA(Src8::Imm)),
            opcodes::ADD_HL_BC => Some(Instr::AddHl(Reg16::BC)),
            opcodes::ADD_HL_DE => Some(Instr::AddHl(Reg16::DE)),
            opcodes::ADD_HL_HL => Some(Instr::AddHl(Reg16::HL)),
            opcodes::ADD_HL_SP => Some(Instr::AddHl(Reg16::SP)),
            opcodes::ADD_SP_R8 => Some(Instr::AddSpImm),
            opcodes::SUB_A_A => Some(Instr::SubA(Src8::Reg(Reg8::A))),
            opcodes::SUB_A_B => Some(Instr::SubA(Src8::Reg(Reg8::B))),
            opcodes::SUB_A_C => Some(Instr::SubA(Src8::Reg(Reg8::C))),
            opcodes::SUB_A_D => Some(Instr::SubA(Src8::Reg(Reg8::D))),
            opcodes::SUB_A_E => Some(Instr::SubA(Src8::Reg(Reg8::E))),
            opcodes::SUB_A_H => Some(Instr::SubA(Src8::Reg(Reg8::H))),
            opcodes::SUB_A_L => Some(Instr::SubA(Src8::Reg(Reg8::L))),
            opcodes::SUB_A_HL => Some(Instr::SubA(Src8::AtHl)),
            opcodes::SUB_A_D8 => Some(Instr::SubA(Src8::Imm)),
            opcodes::AND_A_A => Some(Instr::AndA(Src8::Reg(Reg8::A))),
            opcodes::AND_A_B => Some(Instr::AndA(Src8::Reg(Reg8::B))),
            opcodes::AND_A_C => Some(Instr::AndA(Src8::Reg(Reg8::C))),
            opcodes::AND_A_D => Some(Instr::AndA(Src8::Reg(Reg8::D))),
            opcodes::AND_A_E => Some(Instr::AndA(Src8::Reg(Reg8::E))),
            opcodes::AND_A_H => Some(Instr::AndA(Src8::Reg(Reg8::H))),
            opcodes::AND_A_L => Some(Instr::AndA(Src8::Reg(Reg8::L))),
            opcodes::AND_A_HL => Some(Instr::AndA(Src8::AtHl)),
            opcodes::AND_A_D8 => Some(Instr::AndA(Src8::Imm)),
            opcodes::XOR_A_A => Some(Instr::XorA(Src8::Reg(Reg8::A))),
            opcodes::XOR_A_B => Some(Instr::XorA(Src8::Reg(Reg8::B))),
            opcodes::XOR_A_C => Some(Instr::XorA(Src8::Reg(Reg8::C))),
            opcodes::XOR_A_D => Some(Instr::XorA(Src8::Reg(Reg8::D))),
            opcodes::XOR_A_E => Some(Instr::XorA(Src8::Reg(Reg8::E))),
            opcodes::XOR_A_H => Some(Instr::XorA(Src8::Reg(Reg8::H))),
            opcodes::XOR_A_L => Some(Instr::XorA(Src8::Reg(Reg8::L))),
            opcodes::XOR_A_HL => Some(Instr::XorA(Src8::AtHl)),
            opcodes::XOR_A_D8 => Some(Instr::XorA(Src8::Imm)),
            opcodes::OR_A_A => Some(Instr::OrA(Src8::Reg(Reg8::A))),
            opcodes::OR_A_B => Some(Instr::OrA(Src8::Reg(Reg8::B))),
            opcodes::OR_A_C => Some(Instr::OrA(Src8::Reg(Reg8::C))),
            opcodes::OR_A_D => Some(Instr::OrA(Src8::Reg(Reg8::D))),
            opcodes::OR_A_E => Some(Instr::OrA(Src8::Reg(Reg8::E))),
            opcodes::OR_A_H => Some(Instr::OrA(Src8::Reg(Reg8::H))),
            opcodes::OR_A_L => Some(Instr::OrA(Src8::Reg(Reg8::L))),
            opcodes::OR_A_HL => Some(Instr::OrA(Src8::AtHl)),
            opcodes::OR_A_D8 => Some(Instr::OrA(Src8::Imm)),
            opcodes::LD_B_D8 => Some(Instr::LdR8D8(Reg8::B)),
            opcodes::LD_C_D8 => Some(Instr::LdR8D8(Reg8::C)),
            opcodes::LD_D_D8 => Some(Instr::LdR8D8(Reg8::D)),
            opcodes::LD_E_D8 => Some(Instr::LdR8D8(Reg8::E)),
            opcodes::LD_H_D8 => Some(Instr::LdR8D8(Reg8::H)),
            opcodes::LD_L_D8 => Some(Instr::LdR8D8(Reg8::L)),
            opcodes::CP_A => Some(Instr::CpA(Src8::Reg(Reg8::A))),
            opcodes::CP_B => Some(Instr::CpA(Src8::Reg(Reg8::B))),
            opcodes::CP_C => Some(Instr::CpA(Src8::Reg(Reg8::C))),
            opcodes::CP_D => Some(Instr::CpA(Src8::Reg(Reg8::D))),
            opcodes::CP_E => Some(Instr::CpA(Src8::Reg(Reg8::E))),
            opcodes::CP_H => Some(Instr::CpA(Src8::Reg(Reg8::H))),
            opcodes::CP_L => Some(Instr::CpA(Src8::Reg(Reg8::L))),
            opcodes::CP_HL => Some(Instr::CpHl),
            opcodes::CP_D8 => Some(Instr::CpA(Src8::Imm)),
            opcodes::ADC_A_A => Some(Instr::AdcA(Src8::Reg(Reg8::A))),
            opcodes::ADC_A_B => Some(Instr::AdcA(Src8::Reg(Reg8::B))),
            opcodes::ADC_A_C => Some(Instr::AdcA(Src8::Reg(Reg8::C))),
            opcodes::ADC_A_D => Some(Instr::AdcA(Src8::Reg(Reg8::D))),
            opcodes::ADC_A_E => Some(Instr::AdcA(Src8::Reg(Reg8::E))),
            opcodes::ADC_A_H => Some(Instr::AdcA(Src8::Reg(Reg8::H))),
            opcodes::ADC_A_L => Some(Instr::AdcA(Src8::Reg(Reg8::L))),
            opcodes::ADC_A_HL => Some(Instr::AdcA(Src8::AtHl)),
            opcodes::ADC_A_D8 => Some(Instr::AdcA(Src8::Imm)),
            opcodes::RLCA => Some(Instr::Rlca),
            opcodes::RRCA => Some(Instr::Rrca),
            opcodes::LDHL_SP_R8 => Some(Instr::LdhlSpR8),
            opcodes::LD_A16_SP => Some(Instr::LdA16Sp),
            opcodes::RST_00 => Some(Instr::Rst(0x00)),
            opcodes::RST_08 => Some(Instr::Rst(0x08)),
            opcodes::RST_10 => Some(Instr::Rst(0x10)),
            opcodes::RST_18 => Some(Instr::Rst(0x18)),
            opcodes::RST_20 => Some(Instr::Rst(0x20)),
            opcodes::RST_28 => Some(Instr::Rst(0x28)),
            opcodes::RST_30 => Some(Instr::Rst(0x30)),
            opcodes::RST_38 => Some(Instr::Rst(0x38)),
            opcodes::EI => Some(Instr::Ei),
            opcodes::NOP => Some(Instr::Nop),
            0xd3 | 0xdb | 0xdd | 0xe3 | 0xe4 | 0xeb | 0xec | 0xed | 0xf4 | 0xfc | 0xfd => Some(Instr::Undefined),
            _ => None,
        }
    }
}

/// `x` reduced to a byte.
pub open spec fn wrap8(x: int) -> u8 {
    (x % 0x100) as u8
}

/// `x` reduced to a 16-bit word.
pub open spec fn wrap16(x: int) -> u16 {
    (x % 0x10000) as u16
}

/// Where a relative jump from `pc` by the signed offset `b` lands.
pub open spec fn rel_target(pc: u16, b: u8) -> u16 {
    wrap16(pc + signed_value(b))
}

/// SP plus the signed offset `b`.
pub open spec fn sp_offset(sp: u16, b: u8) -> u16 {
    wrap16(sp + signed_value(b))
}

/// The half-carry flag after adding the signed offset `b` to SP: set on a
/// carry from bit 11, and always set when the offset is negative.
pub open spec fn sp_offset_half_carry(sp: u16, b: u8) -> bool {
    b >= 0x80 || sp % 0x1000 + sign_extend(b) % 0x1000 > 0xfff
}

/// The carry flag after adding the signed offset `b` to SP: set on a
/// carry from bit 15, and always set when the offset is negative.
pub open spec fn sp_offset_carry(sp: u16, b: u8) -> bool {
    b >= 0x80 || sp + sign_extend(b) > 0xffff
}

impl CpuState {
    /// The state after an instruction has run, from the state just after
    /// its opcode was read (the program counter at its first operand byte).
    pub open spec fn execute(self, i: Instr) -> CpuState {
        let s = self;
        let hl = s.reg16(Reg16::HL);
        let a = s.a;
        match i {
            Instr::Nop | Instr::Di | Instr::Ei | Instr::Undefined => s,
            Instr::CallA16 => s.skip(2).push16((s.pc + 2) as u16).with_pc(s.imm16()),
            Instr::CallCc(c) => if s.cond(c) {
                s.skip(2).push16((s.pc + 2) as u16).with_pc(s.imm16())
            } else {
                s
            },
            Instr::JpA16 => s.with_pc(s.imm16()),
            Instr::JpHl => s.with_pc(hl),
            Instr::JpCc(c) => if s.cond(c) {
                s.with_pc(s.imm16())
            } else {
                s.skip(2)
            },
            Instr::JrR8 => s.with_pc(rel_target((s.pc + 1) as u16, s.imm8())),
            Instr::JrCc(c) => if s.cond(c) {
                s.with_pc(rel_target((s.pc + 1) as u16, s.imm8()))
            } else {
                s.skip(1)
            },
            Instr::Ret => s.pop16().with_pc(s.top16()),
            Instr::RetCc(c) => if s.cond(c) {
                s.pop16().with_pc(s.top16())
            } else {
                s
            },
            Instr::Rst(n) => s.push16(s.pc).with_pc(n as u16),
            Instr::Push(r) => s.push16(s.reg16(r)),
            Instr::Pop(r) => s.pop16().with_reg16(r, s.top16()),
            Instr::LdR8R8(d, r) => s.with_reg8(d, s.reg8(r)),
            Instr::LdR8D8(d) => s.skip(1).with_reg8(d, s.imm8()),
            Instr::LdA(src) => s.after_src8(src).with_reg8(Reg8::A, s.src8(src)),
            Instr::LdR8R16(d, r) => s.with_reg8(d, s.mem[s.reg16(r) as int]),
            Instr::LdR8A16(d) => s.skip(2).with_reg8(d, s.mem[s.imm16() as int]),
            Instr::LdAddrR8(r, src) => s.write(s.reg16(r) as int, s.reg8(src)),
            Instr::LdA16A => s.skip(2).write(s.imm16() as int, a),
            Instr::LdR16D16(r) => s.skip(2).with_reg16(r, s.imm16()),
            Instr::LdSpHl => s.with_sp(hl),
            Instr::LdhA8A => s.skip(1).write(MEM_HW_IO_REG_OFFSET + s.imm8(), a),
            Instr::LdhAA8 => s.skip(1).with_reg8(Reg8::A, s.mem[MEM_HW_IO_REG_OFFSET + s.imm8()]),
            Instr::LdiAHl => s.with_reg8(Reg8::A, s.mem[hl as int]).with_reg16(
                Reg16::HL,
                wrap16(hl + 1),
            ),
            Instr::LdiHlA => s.write(hl as int, a).with_reg16(Reg16::HL, wrap16(hl + 1)),
            Instr::LddHlA => s.write(hl as int, a).with_reg16(Reg16::HL, wrap16(hl - 1)),
            Instr::LdhlSpR8 => s.skip(1).with_reg16(Reg16::HL, sp_offset(s.sp, s.imm8())).with_status(
                flag_bits(
                    s.status,
                    false,
                    false,
                    sp_offset_half_carry(s.sp, s.imm8()),
                    sp_offset_carry(s.sp, s.imm8()),
                ),
            ),
            Instr::LdA16Sp => s.skip(2).write(s.imm16() as int, low_byte(s.sp)).write(
                wrap16(s.imm16() + 1) as int,
                high_byte(s.sp),
            ),
            Instr::IncR8(r) => {
                let v = s.reg8(r);
                let n = wrap8(v + 1);
                s.with_reg8(r, n).with_status(
                    flag_bits(s.status, n == 0, false, v % 16 == 15, s.flag(Flag::Carry)),
                )
            },
            Instr::IncAddr(r) => {
                let addr = s.reg16(r) as int;
                let v = s.mem[addr];
                let n = wrap8(v + 1);
                s.write(addr, n).with_status(
                    flag_bits(s.status, n == 0, false, v % 16 == 15, s.flag(Flag::Carry)),
                )
            },
            Instr::IncR16(r) => s.with_reg16(r, wrap16(s.reg16(r) + 1)),
            Instr::DecR8(r) => {
                let v = s.reg8(r);
                let n = wrap8(v - 1);
                s.with_reg8(r, n).with_status(
                    flag_bits(s.status, n == 0, true, v % 16 == 0, s.flag(Flag::Carry)),
                )
            },
            Instr::DecAddr(r) => {
                let addr = s.reg16(r) as int;
                let v = s.mem[addr];
                let n = wrap8(v - 1);
                s.write(addr, n).with_status(
                    flag_bits(s.status, n == 0, true, v % 16 == 0, s.flag(Flag::Carry)),
                )
            },
            Instr::DecR16(r) => s.with_reg16(r, wrap16(s.reg16(r) - 1)),
            Instr::AddA(src) => {
                let n = s.src8(src);
                let r = wrap8(a + n);
                s.after_src8(src).with_reg8(Reg8::A, r).with_status(
                    flag_bits(s.status, r == 0, false, a % 16 + n % 16 > 15, a + n > 0xff),
                )
            },
            Instr::AdcA(src) => {
                let n = s.src8(src);
                let cy: int = if s.flag(Flag::Carry) {
                    1
                } else {
                    0
                };
                let r = wrap8(a + n + cy);
                s.after_src8(src).with_reg8(Reg8::A, r).with_status(
                    flag_bits(s.status, r == 0, false, a % 16 + n % 16 + cy > 15, a + n + cy > 0xff),
                )
            },
            Instr::SubA(src) => {
                let n = s.src8(src);
                let r = wrap8(a - n);
                s.after_src8(src).with_reg8(Reg8::A, r).with_status(
                    flag_bits(s.status, r == 0, true, a % 16 < n % 16, a < n),
                )
            },
            Instr::AndA(src) => {
                let r = a & s.src8(src);
                s.after_src8(src).with_reg8(Reg8::A, r).with_status(
                    flag_bits(s.status, r == 0, false, true, false),
                )
            },
            Instr::XorA(src) => {
                let r = a ^ s.src8(src);
                s.after_src8(src).with_reg8(Reg8::A, r).with_status(
                    flag_bits(s.status, r == 0, false, false, false),
                )
            },
            Instr::OrA(src) => {
                let r = a | s.src8(src);
                s.after_src8(src).with_reg8(Reg8::A, r).with_status(
                    flag_bits(s.status, r == 0, false, false, false),
                )
            },
            Instr::CpA(src) => {
                let n = s.src8(src);
                s.after_src8(src).with_status(
                    flag_bits(s.status, a == n, true, a % 16 >= n % 16, a < n),
                )
            },
            Instr::CpHl => {
                let n = s.mem[hl as int];
                s.with_status(flag_bits(s.status, a == n, true, a % 16 >= n % 16, a < n))
            },
            Instr::AddHl(r) => {
                let n = s.reg16(r);
                s.with_reg16(Reg16::HL, wrap16(hl + n)).with_status(
                    flag_bits(
                        s.status,
                        s.flag(Flag::Zero),
                        false,
                        hl % 0x1000 + n % 0x1000 > 0xfff,
                        hl + n > 0xffff,
                    ),
                )
            },
            Instr::AddSpImm => s.skip(1).with_sp(sp_offset(s.sp, s.imm8())).with_status(
                flag_bits(
                    s.status,
                    false,
                    false,
                    sp_offset_half_carry(s.sp, s.imm8()),
                    sp_offset_carry(s.sp, s.imm8()),
                ),
            ),
            Instr::Rlca => s.with_reg8(Reg8::A, ((a % 0x80) * 2 + a / 0x80) as u8).with_status(
                flag_bits(s.status, false, false, false, a >= 0x80),
            ),
            Instr::Rrca => s.with_reg8(Reg8::A, (a / 2 + (a % 2) * 0x80) as u8).with_status(
                flag_bits(s.status, false, false, false, a % 2 == 1),
            ),
        }
    }

    /// Whether an instruction can run from this state: its operand bytes
    /// lie below 0xffff and the stack has room for what it pushes or pops.
    pub open spec fn can_execute(self, i: Instr) -> bool {
        match i {
            Instr::CallA16 => self.can_fetch(2) && self.can_push16(),
            Instr::CallCc(c) => self.cond(c) ==> self.can_fetch(2) && self.can_push16(),
            Instr::JpA16 | Instr::JpCc(_) | Instr::LdR8A16(_) | Instr::LdA16A | Instr::LdR16D16(_)
            | Instr::LdA16Sp => self.can_fetch(2),
            Instr::JrR8 | Instr::JrCc(_) | Instr::LdR8D8(_) | Instr::LdhA8A | Instr::LdhAA8
            | Instr::LdhlSpR8 | Instr::AddSpImm => self.can_fetch(1),
            Instr::Ret | Instr::Pop(_) => self.can_pop16(),
            Instr::RetCc(c) => self.cond(c) ==> self.can_pop16(),
            Instr::Rst(_) | Instr::Push(_) => self.can_push16(),
            Instr::LdA(src) | Instr::AddA(src) | Instr::AdcA(src) | Instr::SubA(src)
            | Instr::AndA(src) | Instr::XorA(src) | Instr::OrA(src) | Instr::CpA(src) => self.can_read_src8(src),
            _ => true,
        }
    }
}

} // verus!
