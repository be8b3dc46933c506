//! What each kind of instruction computes, stated over the flags and the
//! operands it reads: branch conditions, logic, and arithmetic with its
//! carries.
use vstd::prelude::*;

use super::instr::Instr;
use crate::bytes::{high_byte, low_byte};
use super::state::{
    flag_is_set, lemma_flags_of_flag_bits, sign_extend, signed_value, Cond, CpuState, Reg16, Reg8,
    Src8,
};
use super::Flag;

verus! {

broadcast use lemma_flags_of_flag_bits;

/// `JP cc,a16` jumps to a16 exactly when its condition holds: NZ when the
/// zero flag is reset, Z when it is set, NC when the carry flag is reset,
/// C when it is set; otherwise it only moves past its address.
pub proof fn lemma_jp_conditions(s: CpuState)
    ensures
        !flag_is_set(s.status, Flag::Zero) ==> s.execute(Instr::JpCc(Cond::NZ)) == s.with_pc(
            s.imm16(),
        ),
        flag_is_set(s.status, Flag::Zero) ==> s.execute(Instr::JpCc(Cond::NZ)) == s.skip(2),
        flag_is_set(s.status, Flag::Zero) ==> s.execute(Instr::JpCc(Cond::Z)) == s.with_pc(
            s.imm16(),
        ),
        !flag_is_set(s.status, Flag::Zero) ==> s.execute(Instr::JpCc(Cond::Z)) == s.skip(2),
        !flag_is_set(s.status, Flag::Carry) ==> s.execute(Instr::JpCc(Cond::NC)) == s.with_pc(
            s.imm16(),
        ),
        flag_is_set(s.status, Flag::Carry) ==> s.execute(Instr::JpCc(Cond::NC)) == s.skip(2),
        flag_is_set(s.status, Flag::Carry) ==> s.execute(Instr::JpCc(Cond::C)) == s.with_pc(
            s.imm16(),
        ),
        !flag_is_set(s.status, Flag::Carry) ==> s.execute(Instr::JpCc(Cond::C)) == s.skip(2),
{
}

/// Where a relative jump from the byte after its offset lands.
pub open spec fn jr_landing(s: CpuState) -> u16 {
    ((s.pc + 1 + signed_value(s.imm8())) % 0x10000) as u16
}

/// `JR cc,r8` moves the program counter by the signed offset, counted from
/// the next instruction, exactly when its condition holds (NZ: zero flag
/// reset, Z: set, NC: carry flag reset, C: set); otherwise it only moves
/// past the offset.
pub proof fn lemma_jr_conditions(s: CpuState)
    requires
        s.can_fetch(1),
    ensures
        !flag_is_set(s.status, Flag::Zero) ==> s.execute(Instr::JrCc(Cond::NZ)) == s.with_pc(
            jr_landing(s),
        ),
        flag_is_set(s.status, Flag::Zero) ==> s.execute(Instr::JrCc(Cond::NZ)) == s.skip(1),
        flag_is_set(s.status, Flag::Zero) ==> s.execute(Instr::JrCc(Cond::Z)) == s.with_pc(
            jr_landing(s),
        ),
        !flag_is_set(s.status, Flag::Zero) ==> s.execute(Instr::JrCc(Cond::Z)) == s.skip(1),
        !flag_is_set(s.status, Flag::Carry) ==> s.execute(Instr::JrCc(Cond::NC)) == s.with_pc(
            jr_landing(s),
        ),
        flag_is_set(s.status, Flag::Carry) ==> s.execute(Instr::JrCc(Cond::NC)) == s.skip(1),
        flag_is_set(s.status, Flag::Carry) ==> s.execute(Instr::JrCc(Cond::C)) == s.with_pc(
            jr_landing(s),
        ),
        !flag_is_set(s.status, Flag::Carry) ==> s.execute(Instr::JrCc(Cond::C)) == s.skip(1),
        s.execute(Instr::JrR8) == s.with_pc(jr_landing(s)),
{
}

/// The state after a call was taken: the return address (past the two
/// address bytes) is on top of the stack and the program counter is at the
/// called address.
pub open spec fn called(s: CpuState, t: CpuState) -> bool {
    &&& t.pc == s.imm16()
    &&& t.sp == s.sp - 2
    &&& t.top16() == s.pc + 2
}

/// `CALL cc,a16` calls a16 exactly when its condition holds (NZ: zero flag
/// reset, Z: set, NC: carry flag reset, C: set); otherwise it changes
/// nothing.
pub proof fn lemma_call_conditions(s: CpuState)
    requires
        s.mem.len() == 0x10000,
        2 <= s.sp,
        s.pc + 2 <= 0xffff,
    ensures
        !flag_is_set(s.status, Flag::Zero) ==> called(s, s.execute(Instr::CallCc(Cond::NZ))),
        flag_is_set(s.status, Flag::Zero) ==> s.execute(Instr::CallCc(Cond::NZ)) == s,
        flag_is_set(s.status, Flag::Zero) ==> called(s, s.execute(Instr::CallCc(Cond::Z))),
        !flag_is_set(s.status, Flag::Zero) ==> s.execute(Instr::CallCc(Cond::Z)) == s,
        !flag_is_set(s.status, Flag::Carry) ==> called(s, s.execute(Instr::CallCc(Cond::NC))),
        flag_is_set(s.status, Flag::Carry) ==> s.execute(Instr::CallCc(Cond::NC)) == s,
        flag_is_set(s.status, Flag::Carry) ==> called(s, s.execute(Instr::CallCc(Cond::C))),
        !flag_is_set(s.status, Flag::Carry) ==> s.execute(Instr::CallCc(Cond::C)) == s,
        called(s, s.execute(Instr::CallA16)),
{
    crate::bytes::lemma_word_of_bytes((s.pc + 2) as u16);
}

/// `RET cc` returns to the address on top of the stack exactly when its
/// condition holds (NZ: zero flag reset, Z: set, NC: carry flag reset, C:
/// set); otherwise it changes nothing.
pub proof fn lemma_ret_conditions(s: CpuState)
    ensures
        !flag_is_set(s.status, Flag::Zero) ==> s.execute(Instr::RetCc(Cond::NZ)) == s.with_pc(
            s.top16(),
        ).with_sp((s.sp + 2) as u16),
        flag_is_set(s.status, Flag::Zero) ==> s.execute(Instr::RetCc(Cond::NZ)) == s,
        flag_is_set(s.status, Flag::Zero) ==> s.execute(Instr::RetCc(Cond::Z)) == s.with_pc(
            s.top16(),
        ).with_sp((s.sp + 2) as u16),
        !flag_is_set(s.status, Flag::Zero) ==> s.execute(Instr::RetCc(Cond::Z)) == s,
        !flag_is_set(s.status, Flag::Carry) ==> s.execute(Instr::RetCc(Cond::NC)) == s.with_pc(
            s.top16(),
        ).with_sp((s.sp + 2) as u16),
        flag_is_set(s.status, Flag::Carry) ==> s.execute(Instr::RetCc(Cond::NC)) == s,
        flag_is_set(s.status, Flag::Carry) ==> s.execute(Instr::RetCc(Cond::C)) == s.with_pc(
            s.top16(),
        ).with_sp((s.sp + 2) as u16),
        !flag_is_set(s.status, Flag::Carry) ==> s.execute(Instr::RetCc(Cond::C)) == s,
{
}

/// Whether the flags of a status byte are those given.
pub open spec fn flags_are(status: u8, z: bool, n: bool, h: bool, c: bool) -> bool {
    &&& flag_is_set(status, Flag::Zero) == z
    &&& flag_is_set(status, Flag::Sub) == n
    &&& flag_is_set(status, Flag::HalfCarry) == h
    &&& flag_is_set(status, Flag::Carry) == c
}

/// `OR n` sets in A every bit that is set in A or in n, and no other; the
/// zero flag tells whether the result is zero, the other flags are reset.
pub proof fn lemma_or(s: CpuState, src: Src8)
    ensures
        ({
            let t = s.execute(Instr::OrA(src));
            let n = s.src8(src);
            &&& t.a & s.a == s.a
            &&& t.a & n == n
            &&& t.a & !s.a & !n == 0
            &&& flags_are(t.status, t.a == 0, false, false, false)
        }),
{
    let t = s.execute(Instr::OrA(src));
    let n = s.src8(src);
    let a = s.a;
    let r = t.a;
    assert(r == a | n);
    assert(r & a == a && r & n == n && r & !a & !n == 0) by (bit_vector)
        requires
            r == a | n,
    ;
}

/// `AND n` keeps in A exactly the bits set both in A and in n; the zero
/// flag tells whether the result is zero, the half-carry flag is set, the
/// other flags are reset.
pub proof fn lemma_and(s: CpuState, src: Src8)
    ensures
        ({
            let t = s.execute(Instr::AndA(src));
            let n = s.src8(src);
            &&& t.a & !s.a == 0
            &&& t.a & !n == 0
            &&& s.a & n & !t.a == 0
            &&& flags_are(t.status, t.a == 0, false, true, false)
        }),
{
    let t = s.execute(Instr::AndA(src));
    let n = s.src8(src);
    let a = s.a;
    let r = t.a;
    assert(r == a & n);
    assert(r & !a == 0 && r & !n == 0 && a & n & !r == 0) by (bit_vector)
        requires
            r == a & n,
    ;
}

/// `XOR n` leaves in A the bits set in exactly one of A and n, so that
/// xoring the result with n gives the old A back; the zero flag tells
/// whether the result is zero, the other flags are reset.
pub proof fn lemma_xor(s: CpuState, src: Src8)
    ensures
        ({
            let t = s.execute(Instr::XorA(src));
            let n = s.src8(src);
            &&& t.a ^ n == s.a
            &&& t.a ^ s.a == n
            &&& flags_are(t.status, t.a == 0, false, false, false)
        }),
{
    let t = s.execute(Instr::XorA(src));
    let n = s.src8(src);
    let a = s.a;
    let r = t.a;
    assert(r == a ^ n);
    assert(r ^ n == a && r ^ a == n) by (bit_vector)
        requires
            r == a ^ n,
    ;
}

/// 1 for a set flag, 0 for a reset one.
pub open spec fn bit(b: bool) -> int {
    if b {
        1
    } else {
        0
    }
}

/// `ADD A,n` is an 8-bit addition: the result and the carry flag (worth
/// 256) add up to A + n, the low nibble of the result and the half-carry
/// flag (worth 16) add up to the sum of the low nibbles; the zero flag tells
/// whether the result is zero and the subtract flag is reset.
pub proof fn lemma_add(s: CpuState, src: Src8)
    ensures
        ({
            let t = s.execute(Instr::AddA(src));
            let n = s.src8(src);
            &&& t.a + 256 * bit(flag_is_set(t.status, Flag::Carry)) == s.a + n
            &&& t.a % 16 + 16 * bit(flag_is_set(t.status, Flag::HalfCarry)) == s.a % 16 + n % 16
            &&& flag_is_set(t.status, Flag::Zero) == (t.a == 0)
            &&& !flag_is_set(t.status, Flag::Sub)
        }),
{
}

/// `ADC A,n` adds the carry flag too: the result and the new carry (worth
/// 256) add up to A + n + the old carry, and likewise for the low nibbles
/// and the half-carry flag; the zero flag tells whether the result is zero
/// and the subtract flag is reset.
pub proof fn lemma_adc(s: CpuState, src: Src8)
    ensures
        ({
            let t = s.execute(Instr::AdcA(src));
            let n = s.src8(src);
            let cy = bit(flag_is_set(s.status, Flag::Carry));
            &&& t.a + 256 * bit(flag_is_set(t.status, Flag::Carry)) == s.a + n + cy
            &&& t.a % 16 + 16 * bit(flag_is_set(t.status, Flag::HalfCarry)) == s.a % 16 + n % 16
                + cy
            &&& flag_is_set(t.status, Flag::Zero) == (t.a == 0)
            &&& !flag_is_set(t.status, Flag::Sub)
        }),
{
}

/// `SUB n` is an 8-bit subtraction: the result less the carry flag (a
/// borrow, worth 256) is A - n, the low nibble of the result less the
/// half-carry flag (worth 16) is the difference of the low nibbles; the
/// zero flag tells whether the result is zero and the subtract flag is set.
pub proof fn lemma_sub(s: CpuState, src: Src8)
    ensures
        ({
            let t = s.execute(Instr::SubA(src));
            let n = s.src8(src);
            &&& t.a - 256 * bit(flag_is_set(t.status, Flag::Carry)) == s.a - n
            &&& t.a % 16 - 16 * bit(flag_is_set(t.status, Flag::HalfCarry)) == s.a % 16 - n % 16
            &&& flag_is_set(t.status, Flag::Zero) == (t.a == 0)
            &&& flag_is_set(t.status, Flag::Sub)
        }),
{
}

/// `INC r` adds one to r, wrapping from 255 to 0; the zero flag tells
/// whether the new value is zero, the subtract flag is reset, the
/// half-carry flag tells whether the low nibble overflowed, and the carry
/// flag is kept.
pub proof fn lemma_inc_r8(s: CpuState, r: Reg8)
    ensures
        ({
            let t = s.execute(Instr::IncR8(r));
            let old = s.reg8(r);
            let new = t.reg8(r);
            &&& new + 256 * bit(old == 255) == old + 1
            &&& flag_is_set(t.status, Flag::Zero) == (new == 0)
            &&& !flag_is_set(t.status, Flag::Sub)
            &&& flag_is_set(t.status, Flag::HalfCarry) == (new % 16 == 0)
            &&& flag_is_set(t.status, Flag::Carry) == flag_is_set(s.status, Flag::Carry)
        }),
{
    match r {
        Reg8::A => {},
        Reg8::B => {},
        Reg8::C => {},
        Reg8::D => {},
        Reg8::E => {},
        Reg8::H => {},
        Reg8::L => {},
    }
}

/// `DEC r` takes one from r, wrapping from 0 to 255; the zero flag tells
/// whether the new value is zero, the subtract flag is set, the half-carry
/// flag tells whether the low nibble borrowed, and the carry flag is kept.
pub proof fn lemma_dec_r8(s: CpuState, r: Reg8)
    ensures
        ({
            let t = s.execute(Instr::DecR8(r));
            let old = s.reg8(r);
            let new = t.reg8(r);
            &&& new - 256 * bit(old == 0) == old - 1
            &&& flag_is_set(t.status, Flag::Zero) == (new == 0)
            &&& flag_is_set(t.status, Flag::Sub)
            &&& flag_is_set(t.status, Flag::HalfCarry) == (new % 16 == 15)
            &&& flag_is_set(t.status, Flag::Carry) == flag_is_set(s.status, Flag::Carry)
        }),
{
    match r {
        Reg8::A => {},
        Reg8::B => {},
        Reg8::C => {},
        Reg8::D => {},
        Reg8::E => {},
        Reg8::H => {},
        Reg8::L => {},
    }
}

/// `RLCA` shifts A left by one and moves its top bit round to bit 0 and
/// into the carry flag; `RRCA` shifts it right and moves bit 0 round to the
/// top and into the carry flag. Both reset the other flags.
pub proof fn lemma_rotations(s: CpuState)
    ensures
        ({
            let l = s.execute(Instr::Rlca);
            &&& l.a % 2 == s.a / 128
            &&& l.a / 2 == s.a % 128
            &&& flags_are(l.status, false, false, false, s.a / 128 == 1)
        }),
        ({
            let r = s.execute(Instr::Rrca);
            &&& r.a / 128 == s.a % 2
            &&& r.a % 128 == s.a / 2
            &&& flags_are(r.status, false, false, false, s.a % 2 == 1)
        }),
{
}

/// Loading a register puts the value into that register and leaves every
/// other 8-bit register, the flags, the stack pointer and memory as they
/// were.
pub proof fn lemma_load_register(s: CpuState, d: Reg8, r: Reg8)
    ensures
        ({
            let t = s.execute(Instr::LdR8R8(d, r));
            &&& t.reg8(d) == s.reg8(r)
            &&& forall|o: Reg8| o != d ==> #[trigger] t.reg8(o) == s.reg8(o)
            &&& t.status == s.status && t.sp == s.sp && t.pc == s.pc && t.mem == s.mem
        }),
{
    match d {
        Reg8::A => {},
        Reg8::B => {},
        Reg8::C => {},
        Reg8::D => {},
        Reg8::E => {},
        Reg8::H => {},
        Reg8::L => {},
    }
}

/// The loads through memory read or write the byte at the address they
/// name: a register pair, the 16-bit address that follows, or 0xff00 plus
/// the byte that follows; the other loads put the operand that follows
/// into the register they name.
pub proof fn lemma_memory_loads(s: CpuState, d: Reg8, p: Reg16)
    requires
        s.mem.len() == 0x10000,
        s.pc + 2 <= 0xffff,
    ensures
        s.execute(Instr::LdR8R16(d, p)).reg8(d) == s.mem[s.reg16(p) as int],
        s.execute(Instr::LdAddrR8(p, d)).mem == s.mem.update(s.reg16(p) as int, s.reg8(d)),
        s.execute(Instr::LdR8A16(d)).reg8(d) == s.mem[s.imm16() as int],
        s.execute(Instr::LdR8A16(d)).pc == s.pc + 2,
        s.execute(Instr::LdA16A).mem == s.mem.update(s.imm16() as int, s.a),
        s.execute(Instr::LdR8D8(d)).reg8(d) == s.mem[s.pc as int],
        s.execute(Instr::LdR8D8(d)).pc == s.pc + 1,
        s.execute(Instr::LdA(Src8::Imm)).a == s.mem[s.pc as int],
        s.execute(Instr::LdhA8A).mem == s.mem.update(0xff00 + s.mem[s.pc as int], s.a),
        s.execute(Instr::LdhAA8).a == s.mem[0xff00 + s.mem[s.pc as int]],
        s.execute(Instr::LdR16D16(p)).reg16(p) == s.imm16(),
        s.execute(Instr::LdSpHl).sp == s.reg16(Reg16::HL),
        s.execute(Instr::LdA16Sp).mem[s.imm16() as int] == low_byte(s.sp),
        s.execute(Instr::LdA16Sp).mem[(s.imm16() + 1) % 0x10000] == high_byte(s.sp),
        s.execute(Instr::LdA16Sp).sp == s.sp,
{
    match d {
        Reg8::A => {},
        Reg8::B => {},
        Reg8::C => {},
        Reg8::D => {},
        Reg8::E => {},
        Reg8::H => {},
        Reg8::L => {},
    }
    crate::bytes::lemma_word_of_bytes(s.imm16());
    crate::bytes::lemma_bytes_of_word(s.b, s.c);
    crate::bytes::lemma_bytes_of_word(s.d, s.e);
    crate::bytes::lemma_bytes_of_word(s.h, s.l);
    crate::bytes::lemma_bytes_of_word(s.a, s.status);
}

/// `LDI A,(HL)`, `LDI (HL),A` and `LDD (HL),A` move a byte between A and
/// the address in HL, then step HL up or down by one.
pub proof fn lemma_hl_step_loads(s: CpuState)
    ensures
        ({
            let hl = s.reg16(Reg16::HL);
            let i = s.execute(Instr::LdiAHl);
            let j = s.execute(Instr::LdiHlA);
            let k = s.execute(Instr::LddHlA);
            &&& i.a == s.mem[hl as int]
            &&& i.reg16(Reg16::HL) == (hl + 1) % 0x10000
            &&& j.mem == s.mem.update(hl as int, s.a)
            &&& j.reg16(Reg16::HL) == (hl + 1) % 0x10000
            &&& k.mem == s.mem.update(hl as int, s.a)
            &&& k.reg16(Reg16::HL) == (hl + 0xffff) % 0x10000
        }),
{
    let hl = s.reg16(Reg16::HL);
    crate::bytes::lemma_word_of_bytes(((hl + 1) % 0x10000) as u16);
    crate::bytes::lemma_word_of_bytes(((hl + 0xffff) % 0x10000) as u16);
}

/// `INC rr` and `DEC rr` step a register pair up or down by one, wrapping,
/// and leave the flags as they were.
pub proof fn lemma_inc_dec_r16(s: CpuState, p: Reg16)
    requires
        p != Reg16::AF,
    ensures
        ({
            let old = s.reg16(p);
            let up = s.execute(Instr::IncR16(p));
            let down = s.execute(Instr::DecR16(p));
            &&& up.reg16(p) + 0x10000 * bit(old == 0xffff) == old + 1
            &&& down.reg16(p) - 0x10000 * bit(old == 0) == old - 1
            &&& up.status == s.status && down.status == s.status
        }),
{
    let old = s.reg16(p);
    crate::bytes::lemma_word_of_bytes(((old + 1) % 0x10000) as u16);
    crate::bytes::lemma_word_of_bytes(((old - 1) % 0x10000) as u16);
}

/// `ADD HL,rr` is a 16-bit addition: the new HL and the carry flag (worth
/// 0x10000) add up to HL + rr, the low twelve bits and the half-carry flag
/// (worth 0x1000) to the sum of the low twelve bits; the zero flag is kept
/// and the subtract flag reset.
pub proof fn lemma_add_hl(s: CpuState, p: Reg16)
    ensures
        ({
            let hl = s.reg16(Reg16::HL);
            let n = s.reg16(p);
            let t = s.execute(Instr::AddHl(p));
            &&& t.reg16(Reg16::HL) + 0x10000 * bit(flag_is_set(t.status, Flag::Carry)) == hl + n
            &&& t.reg16(Reg16::HL) % 0x1000 + 0x1000 * bit(flag_is_set(t.status, Flag::HalfCarry))
                == hl % 0x1000 + n % 0x1000
            &&& flag_is_set(t.status, Flag::Zero) == flag_is_set(s.status, Flag::Zero)
            &&& !flag_is_set(t.status, Flag::Sub)
        }),
{
    let hl = s.reg16(Reg16::HL);
    let n = s.reg16(p);
    let v = ((hl + n) % 0x10000) as u16;
    lemma_add_hl_state(s, p);
    crate::bytes::lemma_word_of_bytes(v);
    lemma_low_12_bits_of_sum(hl as int, n as int);
}

/// The state after `ADD HL,rr`, spelled out.
proof fn lemma_add_hl_state(s: CpuState, p: Reg16)
    ensures
        ({
            let hl = s.reg16(Reg16::HL);
            let n = s.reg16(p);
            s.execute(Instr::AddHl(p)) == s.with_reg16(Reg16::HL, ((hl + n) % 0x10000) as u16)
                .with_status(
                super::state::flag_bits(
                    s.status,
                    flag_is_set(s.status, Flag::Zero),
                    false,
                    hl % 0x1000 + n % 0x1000 > 0xfff,
                    hl + n > 0xffff,
                ),
            )
        }),
{
}

/// The low twelve bits of a 16-bit sum, with the carry out of them.
proof fn lemma_low_12_bits_of_sum(x: int, y: int)
    requires
        0 <= x < 0x10000,
        0 <= y < 0x10000,
    ensures
        ((x + y) % 0x10000) % 0x1000 + 0x1000 * bit(x % 0x1000 + y % 0x1000 > 0xfff) == x % 0x1000
            + y % 0x1000,
        (x + y) % 0x10000 + 0x10000 * bit(x + y > 0xffff) == x + y,
{
    let q = x / 0x1000 + y / 0x1000;
    assert(x == 0x1000 * (x / 0x1000) + x % 0x1000);
    assert(y == 0x1000 * (y / 0x1000) + y % 0x1000);
    let lo = x % 0x1000 + y % 0x1000;
    assert(x + y == 0x1000 * q + lo);
    let z = (x + y) % 0x10000;
    assert(z % 0x1000 == (x + y) % 0x1000) by (nonlinear_arith)
        requires
            z == (x + y) % 0x10000,
            0 <= x + y,
    ;
    assert((x + y) % 0x1000 == lo % 0x1000) by (nonlinear_arith)
        requires
            x + y == 0x1000 * q + lo,
            0 <= lo,
    ;
}

/// `ADD SP,r8` adds the signed offset to SP, wrapping, and `LDHL SP,r8`
/// puts that sum into HL and keeps SP; both reset the zero and subtract
/// flags, and set the half-carry and carry flags on a carry out of bit 11
/// and bit 15, and always when the offset is negative.
pub proof fn lemma_sp_offset(s: CpuState)
    requires
        s.pc + 1 <= 0xffff,
    ensures
        ({
            let b = s.imm8();
            let sum = (s.sp + signed_value(b)) % 0x10000;
            let t = s.execute(Instr::AddSpImm);
            let u = s.execute(Instr::LdhlSpR8);
            &&& t.sp == sum
            &&& u.reg16(Reg16::HL) == sum
            &&& u.sp == s.sp
            &&& t.status == u.status
            &&& flags_are(
                t.status,
                false,
                false,
                b >= 0x80 || s.sp % 0x1000 + sign_extend(b) % 0x1000 >= 0x1000,
                b >= 0x80 || s.sp + sign_extend(b) >= 0x10000,
            )
        }),
{
    let b = s.imm8();
    crate::bytes::lemma_word_of_bytes(((s.sp + signed_value(b)) % 0x10000) as u16);
}

/// `RST n` pushes the address of the next instruction and jumps to n.
pub proof fn lemma_rst(s: CpuState, n: u8)
    requires
        s.mem.len() == 0x10000,
        2 <= s.sp,
    ensures
        s.execute(Instr::Rst(n)).pc == n,
        s.execute(Instr::Rst(n)).sp == s.sp - 2,
        s.execute(Instr::Rst(n)).top16() == s.pc,
{
    crate::bytes::lemma_word_of_bytes(s.pc);
}

/// Byte order: a 16-bit operand is stored least significant byte first; a
/// register pair holds its first register as the high byte; a word pushed
/// on the stack has its high byte just below its low byte, which lands at
/// the old stack pointer.
pub proof fn lemma_byte_order(s: CpuState, v: u16)
    requires
        s.mem.len() == 0x10000,
        s.pc + 2 <= 0xffff,
        2 <= s.sp,
    ensures
        s.imm16() == s.mem[s.pc as int] + 256 * s.mem[s.pc + 1],
        s.reg16(Reg16::AF) == 256 * s.a + s.status,
        s.reg16(Reg16::BC) == 256 * s.b + s.c,
        s.reg16(Reg16::DE) == 256 * s.d + s.e,
        s.reg16(Reg16::HL) == 256 * s.h + s.l,
        s.push16(v).mem[s.sp - 1] == v / 256,
        s.push16(v).mem[s.sp as int] == v % 256,
        s.push16(v).sp == s.sp - 2,
{
}

} // verus!
