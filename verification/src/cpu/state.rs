//! The mathematical model of the CPU: its state, its flags, and the
//! operands that instructions name.
use vstd::prelude::*;

use crate::bytes::{high_byte, low_byte, word};
use super::Flag;

verus! {

/// The size of the address space in bytes.
pub const MEM_SIZE: usize = 64 * 1024;

/// Base address of the hardware I/O registers that `LDH` reaches.
pub const MEM_HW_IO_REG_OFFSET: usize = 0xff00;

/// An 8-bit register that instructions name.
#[derive(Clone, Copy, Debug, PartialEq, Eq, Structural)]
pub enum Reg8 {
    A,
    B,
    C,
    D,
    E,
    H,
    L,
}

/// A 16-bit register or register pair that instructions name.
#[derive(Clone, Copy, Debug, PartialEq, Eq, Structural)]
pub enum Reg16 {
    AF,
    BC,
    DE,
    HL,
    SP,
}

/// The condition of a conditional jump, call or return.
#[derive(Clone, Copy, Debug, PartialEq, Eq, Structural)]
pub enum Cond {
    /// The zero flag is reset.
    NZ,
    /// The zero flag is set.
    Z,
    /// The carry flag is reset.
    NC,
    /// The carry flag is set.
    C,
}

/// Where an 8-bit arithmetic or logic instruction takes its operand from.
#[derive(Clone, Copy, Debug, PartialEq, Eq, Structural)]
pub enum Src8 {
    /// An 8-bit register.
    Reg(Reg8),
    /// The byte at the address held in HL.
    AtHl,
    /// The byte that follows the opcode.
    Imm,
}

/// The bit of the status register that holds a flag.
pub open spec fn flag_mask(f: Flag) -> u8 {
    match f {
        Flag::Zero => 0x80u8,
        Flag::Sub => 0x40u8,
        Flag::HalfCarry => 0x20u8,
        Flag::Carry => 0x10u8,
    }
}

/// Whether a flag is set in a status byte.
pub open spec fn flag_is_set(status: u8, f: Flag) -> bool {
    status & flag_mask(f) != 0
}

/// A status byte with one flag set (`v`) or reset (`!v`) and every other bit kept.
pub open spec fn with_flag(status: u8, f: Flag, v: bool) -> u8 {
    if v {
        status | flag_mask(f)
    } else {
        status & !flag_mask(f)
    }
}

/// The status byte with the low nibble of `low` and the four flags
/// zero, subtract, half carry and carry given.
pub open spec fn flag_bits(low: u8, z: bool, n: bool, h: bool, c: bool) -> u8 {
    (low & 0x0fu8) | (if z { 0x80u8 } else { 0u8 }) | (if n { 0x40u8 } else { 0u8 }) | (if h {
        0x20u8
    } else {
        0u8
    }) | (if c { 0x10u8 } else { 0u8 })
}

/// Every status byte is its low nibble together with its four flags.
pub proof fn lemma_flag_bits_of(s: u8)
    ensures
        s == flag_bits(
            s,
            flag_is_set(s, Flag::Zero),
            flag_is_set(s, Flag::Sub),
            flag_is_set(s, Flag::HalfCarry),
            flag_is_set(s, Flag::Carry),
        ),
{
    assert(s == flag_bits(s, s & 0x80u8 != 0, s & 0x40u8 != 0, s & 0x20u8 != 0, s & 0x10u8 != 0))
        by (bit_vector);
}

/// Setting or resetting one flag of a status byte changes that flag only.
pub broadcast proof fn lemma_with_flag_bits(
    low: u8,
    z: bool,
    n: bool,
    h: bool,
    c: bool,
    f: Flag,
    v: bool,
)
    ensures
        #[trigger] with_flag(flag_bits(low, z, n, h, c), f, v) == (match f {
            Flag::Zero => flag_bits(low, v, n, h, c),
            Flag::Sub => flag_bits(low, z, v, h, c),
            Flag::HalfCarry => flag_bits(low, z, n, v, c),
            Flag::Carry => flag_bits(low, z, n, h, v),
        }),
{
    let s = flag_bits(low, z, n, h, c);
    match f {
        Flag::Zero => {
            assert((if v { s | 0x80u8 } else { s & !0x80u8 }) == flag_bits(low, v, n, h, c))
                by (bit_vector)
                requires
                    s == flag_bits(low, z, n, h, c),
            ;
        },
        Flag::Sub => {
            assert((if v { s | 0x40u8 } else { s & !0x40u8 }) == flag_bits(low, z, v, h, c))
                by (bit_vector)
                requires
                    s == flag_bits(low, z, n, h, c),
            ;
        },
        Flag::HalfCarry => {
            assert((if v { s | 0x20u8 } else { s & !0x20u8 }) == flag_bits(low, z, n, v, c))
                by (bit_vector)
                requires
                    s == flag_bits(low, z, n, h, c),
            ;
        },
        Flag::Carry => {
            assert((if v { s | 0x10u8 } else { s & !0x10u8 }) == flag_bits(low, z, n, h, v))
                by (bit_vector)
                requires
                    s == flag_bits(low, z, n, h, c),
            ;
        },
    }
}

/// The flags of a status byte built by `flag_bits` are the ones given,
/// and its low nibble is that of `low`.
pub broadcast proof fn lemma_flags_of_flag_bits(low: u8, z: bool, n: bool, h: bool, c: bool)
    ensures
        flag_is_set(#[trigger] flag_bits(low, z, n, h, c), Flag::Zero) == z,
        flag_is_set(flag_bits(low, z, n, h, c), Flag::Sub) == n,
        flag_is_set(flag_bits(low, z, n, h, c), Flag::HalfCarry) == h,
        flag_is_set(flag_bits(low, z, n, h, c), Flag::Carry) == c,
        flag_bits(low, z, n, h, c) & 0x0fu8 == low & 0x0fu8,
{
    let s = flag_bits(low, z, n, h, c);
    assert(s & 0x80u8 != 0 <==> z) by (bit_vector)
        requires
            s == flag_bits(low, z, n, h, c),
    ;
    assert(s & 0x40u8 != 0 <==> n) by (bit_vector)
        requires
            s == flag_bits(low, z, n, h, c),
    ;
    assert(s & 0x20u8 != 0 <==> h) by (bit_vector)
        requires
            s == flag_bits(low, z, n, h, c),
    ;
    assert(s & 0x10u8 != 0 <==> c) by (bit_vector)
        requires
            s == flag_bits(low, z, n, h, c),
    ;
    assert(s & 0x0fu8 == low & 0x0fu8) by (bit_vector)
        requires
            s == flag_bits(low, z, n, h, c),
    ;
}

/// Replaces the bytes of `mem` from `start` on by `data`.
pub open spec fn splice(mem: Seq<u8>, start: int, data: Seq<u8>) -> Seq<u8> {
    Seq::new(
        mem.len(),
        |i: int|
            if start <= i < start + data.len() {
                data[i - start]
            } else {
                mem[i]
            },
    )
}

/// A byte read as a signed offset, sign-extended to 16 bits.
pub open spec fn sign_extend(b: u8) -> u16 {
    if b < 0x80 {
        b as u16
    } else {
        (b as int + 0xff00) as u16
    }
}

/// A byte read as a two's-complement signed number.
pub open spec fn signed_value(b: u8) -> int {
    if b < 0x80 {
        b as int
    } else {
        b as int - 0x100
    }
}

/// The state of the CPU: its registers, its status byte and its memory.
#[verifier::ext_equal]
pub ghost struct CpuState {
    pub a: u8,
    pub b: u8,
    pub c: u8,
    pub d: u8,
    pub e: u8,
    pub h: u8,
    pub l: u8,
    pub sp: u16,
    pub pc: u16,
    pub status: u8,
    pub mem: Seq<u8>,
}

impl CpuState {
    /// The value of an 8-bit register.
    pub open spec fn reg8(self, r: Reg8) -> u8 {
        match r {
            Reg8::A => self.a,
            Reg8::B => self.b,
            Reg8::C => self.c,
            Reg8::D => self.d,
            Reg8::E => self.e,
            Reg8::H => self.h,
            Reg8::L => self.l,
        }
    }

    /// This state with an 8-bit register set to `v`.
    pub open spec fn with_reg8(self, r: Reg8, v: u8) -> CpuState {
        match r {
            Reg8::A => CpuState { a: v, ..self },
            Reg8::B => CpuState { b: v, ..self },
            Reg8::C => CpuState { c: v, ..self },
            Reg8::D => CpuState { d: v, ..self },
            Reg8::E => CpuState { e: v, ..self },
            Reg8::H => CpuState { h: v, ..self },
            Reg8::L => CpuState { l: v, ..self },
        }
    }

    /// The value of a 16-bit register; a pair holds its first register
    /// in the high byte (AF holds A and the status byte).
    pub open spec fn reg16(self, r: Reg16) -> u16 {
        match r {
            Reg16::AF => word(self.a, self.status),
            Reg16::BC => word(self.b, self.c),
            Reg16::DE => word(self.d, self.e),
            Reg16::HL => word(self.h, self.l),
            Reg16::SP => self.sp,
        }
    }

    /// This state with a 16-bit register set to `v`.
    pub open spec fn with_reg16(self, r: Reg16, v: u16) -> CpuState {
        match r {
            Reg16::AF => CpuState { a: high_byte(v), status: low_byte(v), ..self },
            Reg16::BC => CpuState { b: high_byte(v), c: low_byte(v), ..self },
            Reg16::DE => CpuState { d: high_byte(v), e: low_byte(v), ..self },
            Reg16::HL => CpuState { h: high_byte(v), l: low_byte(v), ..self },
            Reg16::SP => CpuState { sp: v, ..self },
        }
    }

    /// Whether a flag is set.
    pub open spec fn flag(self, f: Flag) -> bool {
        flag_is_set(self.status, f)
    }

    /// Whether a condition holds.
    pub open spec fn cond(self, c: Cond) -> bool {
        match c {
            Cond::NZ => !self.flag(Flag::Zero),
            Cond::Z => self.flag(Flag::Zero),
            Cond::NC => !self.flag(Flag::Carry),
            Cond::C => self.flag(Flag::Carry),
        }
    }

    pub open spec fn with_status(self, status: u8) -> CpuState {
        CpuState { status, ..self }
    }

    pub open spec fn with_pc(self, pc: u16) -> CpuState {
        CpuState { pc, ..self }
    }

    pub open spec fn with_sp(self, sp: u16) -> CpuState {
        CpuState { sp, ..self }
    }

    /// This state with the byte at `addr` replaced by `v`.
    pub open spec fn write(self, addr: int, v: u8) -> CpuState {
        CpuState { mem: self.mem.update(addr, v), ..self }
    }

    /// The byte at the program counter.
    pub open spec fn imm8(self) -> u8 {
        self.mem[self.pc as int]
    }

    /// The two bytes at the program counter, least significant first.
    pub open spec fn imm16(self) -> u16 {
        word(self.mem[self.pc + 1], self.mem[self.pc as int])
    }

    /// Whether `n` more bytes can be read at the program counter without
    /// the counter running past 0xffff.
    pub open spec fn can_fetch(self, n: int) -> bool {
        self.pc + n <= 0xffff
    }

    /// This state with the program counter moved `n` bytes on.
    pub open spec fn skip(self, n: int) -> CpuState {
        self.with_pc((self.pc + n) as u16)
    }

    /// This state with `data` pushed: it lands just below and at the old
    /// stack pointer, which moves down by its length.
    pub open spec fn push_bytes(self, data: Seq<u8>) -> CpuState {
        CpuState {
            mem: splice(self.mem, self.sp - data.len() + 1, data),
            sp: (self.sp - data.len()) as u16,
            ..self
        }
    }

    /// This state with a 16-bit word pushed, high byte first.
    pub open spec fn push16(self, v: u16) -> CpuState {
        CpuState {
            mem: self.mem.update(self.sp - 1, high_byte(v)).update(self.sp as int, low_byte(v)),
            sp: (self.sp - 2) as u16,
            ..self
        }
    }

    /// The 16-bit word on top of the stack.
    pub open spec fn top16(self) -> u16 {
        word(self.mem[self.sp + 1], self.mem[self.sp + 2])
    }

    /// This state with the top word popped off the stack.
    pub open spec fn pop16(self) -> CpuState {
        self.with_sp((self.sp + 2) as u16)
    }

    /// Whether a 16-bit word can be pushed.
    pub open spec fn can_push16(self) -> bool {
        self.sp >= 2
    }

    /// Whether a 16-bit word can be popped.
    pub open spec fn can_pop16(self) -> bool {
        self.sp + 2 <= 0xffff
    }

    /// The value of an 8-bit operand.
    pub open spec fn src8(self, s: Src8) -> u8 {
        match s {
            Src8::Reg(r) => self.reg8(r),
            Src8::AtHl => self.mem[self.reg16(Reg16::HL) as int],
            Src8::Imm => self.imm8(),
        }
    }

    /// This state after an 8-bit operand has been read.
    pub open spec fn after_src8(self, s: Src8) -> CpuState {
        match s {
            Src8::Imm => self.skip(1),
            _ => self,
        }
    }

    /// Whether an 8-bit operand can be read.
    pub open spec fn can_read_src8(self, s: Src8) -> bool {
        match s {
            Src8::Imm => self.can_fetch(1),
            _ => true,
        }
    }
}

} // verus!
