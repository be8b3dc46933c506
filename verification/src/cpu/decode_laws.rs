//! The decoder follows the bit fields of the opcode: which register, pair,
//! condition or operation an opcode names is read off fixed groups of its
//! bits.
use vstd::prelude::*;

use super::instr::{decoded, Instr};
use super::state::{Cond, Reg16, Reg8, Src8};

verus! {

/// The 8-bit register that a three-bit field names (6 names (HL), and is
/// not a register).
pub open spec fn reg_field(k: u8) -> Reg8 {
    match k {
        0 => Reg8::B,
        1 => Reg8::C,
        2 => Reg8::D,
        3 => Reg8::E,
        4 => Reg8::H,
        5 => Reg8::L,
        _ => Reg8::A,
    }
}

/// The operand that a three-bit field names: a register, or (HL) for 6.
pub open spec fn src_field(k: u8) -> Src8 {
    if k == 6 {
        Src8::AtHl
    } else {
        Src8::Reg(reg_field(k))
    }
}

/// The condition that a two-bit field names.
pub open spec fn cond_field(k: u8) -> Cond {
    match k {
        0 => Cond::NZ,
        1 => Cond::Z,
        2 => Cond::NC,
        _ => Cond::C,
    }
}

/// The register pair that a two-bit field names in loads and arithmetic.
pub open spec fn pair_field(k: u8) -> Reg16 {
    match k {
        0 => Reg16::BC,
        1 => Reg16::DE,
        2 => Reg16::HL,
        _ => Reg16::SP,
    }
}

/// The register pair that a two-bit field names in `PUSH` and `POP`.
pub open spec fn stack_pair_field(k: u8) -> Reg16 {
    match k {
        0 => Reg16::BC,
        1 => Reg16::DE,
        2 => Reg16::HL,
        _ => Reg16::AF,
    }
}

/// The 8-bit arithmetic or logic instruction that a three-bit field names,
/// on the operand given (3, subtract with carry, is not run by this core).
pub open spec fn alu_field(k: u8, src: Src8) -> Instr {
    match k {
        0 => Instr::AddA(src),
        1 => Instr::AdcA(src),
        2 => Instr::SubA(src),
        4 => Instr::AndA(src),
        5 => Instr::XorA(src),
        6 => Instr::OrA(src),
        _ => Instr::CpA(src),
    }
}

/// Opcodes 0x40 to 0x7f load the register named by bits 3-5 with the one
/// named by bits 0-2, with (HL) for the field 6; of them, `LD C,A`,
/// `LD D,A`, `LD E,A` and 0x76 are not run by this core.
pub proof fn lemma_decode_loads(op: u8)
    requires
        0x40 <= op < 0x80,
    ensures
        decoded(op) is None <==> (op == 0x4f || op == 0x57 || op == 0x5f || op == 0x76),
        decoded(op) is Some ==> decoded(op) == Some(
            if op / 8 % 8 == 6 {
                Instr::LdAddrR8(Reg16::HL, reg_field(op % 8))
            } else if op % 8 == 6 {
                Instr::LdR8R16(reg_field(op / 8 % 8), Reg16::HL)
            } else {
                Instr::LdR8R8(reg_field(op / 8 % 8), reg_field(op % 8))
            },
        ),
{
}

/// Opcodes 0x80 to 0xbf run on A the operation named by bits 3-5 with the
/// operand named by bits 0-2; subtract with carry (bits 3-5 = 3) is not run
/// by this core, and `CP (HL)` is an instruction of its own.
pub proof fn lemma_decode_alu(op: u8)
    requires
        0x80 <= op < 0xc0,
    ensures
        decoded(op) is None <==> op / 8 % 8 == 3,
        op / 8 % 8 != 3 && op != 0xbe ==> decoded(op) == Some(
            alu_field(op / 8 % 8, src_field(op % 8)),
        ),
        op == 0xbe ==> decoded(op) == Some(Instr::CpHl),
{
}

/// Opcodes 0xc6, 0xce, ..., 0xfe run on A the operation named by bits 3-5
/// with the byte that follows; subtract with carry is not run by this core.
pub proof fn lemma_decode_alu_immediate(op: u8)
    requires
        0xc0 <= op,
        op % 8 == 6,
    ensures
        op == 0xde ==> decoded(op) is None,
        op != 0xde ==> decoded(op) == Some(alu_field(op / 8 % 8, Src8::Imm)),
{
}

/// In opcodes below 0x40, bits 0-2 equal to 4 increment and equal to 5
/// decrement the register named by bits 3-5, or the byte at (HL) for the
/// field 6; equal to 6 they load that register with the byte that follows
/// (`LD (HL),d8` is not run by this core).
pub proof fn lemma_decode_inc_dec_ld8(op: u8)
    requires
        op < 0x40,
        4 <= op % 8 <= 6,
    ensures
        op % 8 == 4 ==> decoded(op) == Some(
            if op / 8 == 6 {
                Instr::IncAddr(Reg16::HL)
            } else {
                Instr::IncR8(reg_field(op / 8))
            },
        ),
        op % 8 == 5 ==> decoded(op) == Some(
            if op / 8 == 6 {
                Instr::DecAddr(Reg16::HL)
            } else {
                Instr::DecR8(reg_field(op / 8))
            },
        ),
        op % 8 == 6 && op / 8 == 6 ==> decoded(op) is None,
        op % 8 == 6 && op / 8 == 7 ==> decoded(op) == Some(Instr::LdA(Src8::Imm)),
        op % 8 == 6 && op / 8 < 6 ==> decoded(op) == Some(Instr::LdR8D8(reg_field(op / 8))),
{
}

/// In opcodes below 0x40, bits 4-5 name the register pair that the low
/// nibble 1 loads with d16, 3 increments, 9 adds to HL and 0xb decrements.
pub proof fn lemma_decode_pairs(op: u8)
    requires
        op < 0x40,
    ensures
        op % 16 == 1 ==> decoded(op) == Some(Instr::LdR16D16(pair_field(op / 16))),
        op % 16 == 3 ==> decoded(op) == Some(Instr::IncR16(pair_field(op / 16))),
        op % 16 == 9 ==> decoded(op) == Some(Instr::AddHl(pair_field(op / 16))),
        op % 16 == 0xb ==> decoded(op) == Some(Instr::DecR16(pair_field(op / 16))),
{
}

/// In opcodes below 0x40 with bits 0-2 equal to 2, bit 3 tells a load
/// into A from a store of A, and bits 4-5 name the address: (BC), (DE),
/// (HL) then incremented, (HL) then decremented (the load through (HL)
/// then decremented is not run by this core).
pub proof fn lemma_decode_indirect_a(op: u8)
    requires
        op < 0x40,
        op % 8 == 2,
    ensures
        ({
            let load = op / 8 % 2 == 1;
            &&& op / 16 == 0 ==> decoded(op) == Some(
                if load {
                    Instr::LdR8R16(Reg8::A, Reg16::BC)
                } else {
                    Instr::LdAddrR8(Reg16::BC, Reg8::A)
                },
            )
            &&& op / 16 == 1 ==> decoded(op) == Some(
                if load {
                    Instr::LdR8R16(Reg8::A, Reg16::DE)
                } else {
                    Instr::LdAddrR8(Reg16::DE, Reg8::A)
                },
            )
            &&& op / 16 == 2 ==> decoded(op) == Some(
                if load {
                    Instr::LdiAHl
                } else {
                    Instr::LdiHlA
                },
            )
            &&& op / 16 == 3 ==> (if load {
                decoded(op) is None
            } else {
                decoded(op) == Some(Instr::LddHlA)
            })
        }),
{
}

/// Conditional returns, jumps and calls are 0xc0, 0xc2 and 0xc4 plus eight
/// times the condition's field, and conditional relative jumps are 0x20 plus
/// eight times it: NZ, Z, NC, C in that order.
pub proof fn lemma_decode_conditions(k: u8)
    requires
        k < 4,
    ensures
        decoded((0xc0 + 8 * k) as u8) == Some(Instr::RetCc(cond_field(k))),
        decoded((0xc2 + 8 * k) as u8) == Some(Instr::JpCc(cond_field(k))),
        decoded((0xc4 + 8 * k) as u8) == Some(Instr::CallCc(cond_field(k))),
        decoded((0x20 + 8 * k) as u8) == Some(Instr::JrCc(cond_field(k))),
{
}

/// `POP` and `PUSH` are 0xc1 and 0xc5 plus sixteen times the pair's field,
/// and `RST n` is 0xc7 plus n, for n a multiple of 8.
pub proof fn lemma_decode_stack(k: u8)
    requires
        k < 8,
    ensures
        k < 4 ==> decoded((0xc1 + 16 * k) as u8) == Some(Instr::Pop(stack_pair_field(k))),
        k < 4 ==> decoded((0xc5 + 16 * k) as u8) == Some(Instr::Push(stack_pair_field(k))),
        decoded((0xc7 + 8 * k) as u8) == Some(Instr::Rst((8 * k) as u8)),
{
}

} // verus!
