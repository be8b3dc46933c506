//! Properties of the CPU model that span several operations.
use vstd::prelude::*;

use crate::bytes::{lemma_bytes_of_word, lemma_word_of_bytes};
use super::instr::{decoded, wrap16, wrap8, Instr};
use super::listing::listing_pattern;
use super::opcodes;
use super::state::{
    flag_is_set, lemma_flags_of_flag_bits, splice, with_flag, Cond, CpuState, Reg16,
    Reg8, Src8,
};
use super::Flag;

verus! {

/// Setting or resetting a flag makes it read back as that value and leaves
/// the other flags as they were.
pub proof fn lemma_with_flag_reads_back(s: u8, f: Flag, g: Flag, v: bool)
    ensures
        flag_is_set(with_flag(s, f, v), g) == if f == g {
            v
        } else {
            flag_is_set(s, g)
        },
{
    match (f, g) {
        (Flag::Zero, Flag::Zero) => {
            assert((v ==> (s | 0x80u8) & 0x80u8 != 0) && (!v ==> (s & !0x80u8) & 0x80u8 == 0))
                by (bit_vector);
        },
        (Flag::Sub, Flag::Sub) => {
            assert((v ==> (s | 0x40u8) & 0x40u8 != 0) && (!v ==> (s & !0x40u8) & 0x40u8 == 0))
                by (bit_vector);
        },
        (Flag::HalfCarry, Flag::HalfCarry) => {
            assert((v ==> (s | 0x20u8) & 0x20u8 != 0) && (!v ==> (s & !0x20u8) & 0x20u8 == 0))
                by (bit_vector);
        },
        (Flag::Carry, Flag::Carry) => {
            assert((v ==> (s | 0x10u8) & 0x10u8 != 0) && (!v ==> (s & !0x10u8) & 0x10u8 == 0))
                by (bit_vector);
        },
        _ => {
            let m = super::state::flag_mask(f);
            let n = super::state::flag_mask(g);
            assert(m != n);
            assert(m == 0x80u8 || m == 0x40u8 || m == 0x20u8 || m == 0x10u8);
            assert(n == 0x80u8 || n == 0x40u8 || n == 0x20u8 || n == 0x10u8);
            assert(((s | m) & n != 0) == (s & n != 0) && ((s & !m) & n != 0) == (s & n != 0))
                by (bit_vector)
                requires
                    m != n,
                    m == 0x80u8 || m == 0x40u8 || m == 0x20u8 || m == 0x10u8,
                    n == 0x80u8 || n == 0x40u8 || n == 0x20u8 || n == 0x10u8,
            ;
        },
    }
}

/// Bytes written over a range of memory read back from that range.
pub proof fn lemma_splice_reads_back(mem: Seq<u8>, start: int, data: Seq<u8>)
    requires
        0 <= start,
        start + data.len() <= mem.len(),
    ensures
        splice(mem, start, data).subrange(start, start + data.len()) == data,
        forall|i: int|
            0 <= i < mem.len() && !(start <= i < start + data.len()) ==> #[trigger] splice(
                mem,
                start,
                data,
            )[i] == mem[i],
{
    assert(splice(mem, start, data).subrange(start, start + data.len()) =~= data);
}

/// Bytes pushed on the stack are the bytes a pop of the same length gives
/// back, and the pop brings the stack pointer back where it was.
pub proof fn lemma_push_bytes_then_pop(s: CpuState, data: Seq<u8>)
    requires
        s.mem.len() == 0x10000,
        data.len() <= s.sp,
    ensures
        ({
            let t = s.push_bytes(data);
            &&& t.sp + data.len() == s.sp
            &&& t.mem.subrange(t.sp + 1, t.sp + data.len() + 1) == data
        }),
{
    let t = s.push_bytes(data);
    assert(t.mem.subrange(t.sp + 1, t.sp + data.len() + 1) =~= data);
}

/// A 16-bit word pushed on the stack is the word on top of it, and popping
/// it brings the stack pointer back where it was.
pub proof fn lemma_push16_then_pop16(s: CpuState, v: u16)
    requires
        s.mem.len() == 0x10000,
        s.can_push16(),
    ensures
        s.push16(v).can_pop16(),
        s.push16(v).top16() == v,
        s.push16(v).pop16().sp == s.sp,
{
    lemma_word_of_bytes(v);
}

/// `PUSH rr` followed by `POP qq` copies the value of rr into qq; the
/// stack pointer ends where it started.
pub proof fn lemma_push_then_pop(s: CpuState, rr: Reg16, qq: Reg16)
    requires
        s.mem.len() == 0x10000,
        s.can_execute(Instr::Push(rr)),
    ensures
        s.execute(Instr::Push(rr)).can_execute(Instr::Pop(qq)),
        s.execute(Instr::Push(rr)).execute(Instr::Pop(qq)).reg16(qq) == s.reg16(rr),
        qq != Reg16::SP ==> s.execute(Instr::Push(rr)).execute(Instr::Pop(qq)).sp == s.sp,
{
    let v = s.reg16(rr);
    lemma_push16_then_pop16(s, v);
    lemma_word_of_bytes(v);
}

/// `CALL a16` followed, at the callee, by `RET` comes back to the
/// instruction after the call, with the stack pointer where it was.
pub proof fn lemma_call_then_ret(s: CpuState)
    requires
        s.mem.len() == 0x10000,
        s.can_execute(Instr::CallA16),
    ensures
        s.execute(Instr::CallA16).can_execute(Instr::Ret),
        s.execute(Instr::CallA16).execute(Instr::Ret).pc == s.pc + 2,
        s.execute(Instr::CallA16).execute(Instr::Ret).sp == s.sp,
{
    lemma_push16_then_pop16(s.skip(2), (s.pc + 2) as u16);
}

/// `RST n` followed, at the target, by `RET` comes back to the instruction
/// after the `RST`, with the stack pointer where it was.
pub proof fn lemma_rst_then_ret(s: CpuState, n: u8)
    requires
        s.mem.len() == 0x10000,
        s.can_execute(Instr::Rst(n)),
    ensures
        s.execute(Instr::Rst(n)).can_execute(Instr::Ret),
        s.execute(Instr::Rst(n)).execute(Instr::Ret).pc == s.pc,
        s.execute(Instr::Rst(n)).execute(Instr::Ret).sp == s.sp,
{
    lemma_push16_then_pop16(s, s.pc);
}

/// `RLCA` followed by `RRCA` gives A back, and so does `RRCA` followed by
/// `RLCA`; each leaves in the carry flag the bit it rotated out.
pub proof fn lemma_rotations_undo(s: CpuState)
    ensures
        s.execute(Instr::Rlca).execute(Instr::Rrca).a == s.a,
        s.execute(Instr::Rrca).execute(Instr::Rlca).a == s.a,
        s.execute(Instr::Rlca).flag(Flag::Carry) == (s.a >= 0x80),
        s.execute(Instr::Rrca).flag(Flag::Carry) == (s.a % 2 == 1),
{
    let st = s.status;
    lemma_flags_of_flag_bits(st, false, false, false, s.a >= 0x80);
    lemma_flags_of_flag_bits(st, false, false, false, s.a % 2 == 1);
}

/// `INC r` followed by `DEC r` gives the register back, and so does
/// `DEC r` followed by `INC r`.
pub proof fn lemma_inc_dec_r8(s: CpuState, r: Reg8)
    ensures
        s.execute(Instr::IncR8(r)).execute(Instr::DecR8(r)).reg8(r) == s.reg8(r),
        s.execute(Instr::DecR8(r)).execute(Instr::IncR8(r)).reg8(r) == s.reg8(r),
{
    let v = s.reg8(r);
    let up = s.execute(Instr::IncR8(r));
    let down = s.execute(Instr::DecR8(r));
    lemma_reg8_written(s, r);
    lemma_reg8_written(up, r);
    lemma_reg8_written(down, r);
    lemma_wrap8_steps(v);
}

/// Adding one to a byte and taking one away, in either order, gives it back.
proof fn lemma_wrap8_steps(v: u8)
    ensures
        wrap8(wrap8(v + 1) - 1) == v,
        wrap8(wrap8(v - 1) + 1) == v,
{
}

/// `INC r` and `DEC r` leave in r its value plus or minus one, wrapped.
proof fn lemma_reg8_written(s: CpuState, r: Reg8)
    ensures
        s.execute(Instr::IncR8(r)).reg8(r) == wrap8(s.reg8(r) + 1),
        s.execute(Instr::DecR8(r)).reg8(r) == wrap8(s.reg8(r) - 1),
{
    match r {
        Reg8::A => {},
        Reg8::B => {},
        Reg8::C => {},
        Reg8::D => {},
        Reg8::E => {},
        Reg8::H => {},
        Reg8::L => {},
    }
}

/// `INC rr` followed by `DEC rr` gives back the state it started from, and
/// so does `DEC rr` followed by `INC rr`.
pub proof fn lemma_inc_dec_r16(s: CpuState, r: Reg16)
    ensures
        s.execute(Instr::IncR16(r)).execute(Instr::DecR16(r)) == s,
        s.execute(Instr::DecR16(r)).execute(Instr::IncR16(r)) == s,
{
    let v = s.reg16(r);
    let up = s.execute(Instr::IncR16(r));
    let down = s.execute(Instr::DecR16(r));
    lemma_word_of_bytes(wrap16(v + 1));
    lemma_word_of_bytes(wrap16(v - 1));
    assert(up == s.with_reg16(r, wrap16(v + 1)));
    assert(down == s.with_reg16(r, wrap16(v - 1)));
    assert(up.reg16(r) == wrap16(v + 1)) by {
        match r {
            Reg16::SP => {},
            _ => {},
        }
    }
    assert(down.reg16(r) == wrap16(v - 1));
    assert(wrap16(wrap16(v + 1) - 1) == v);
    assert(wrap16(wrap16(v - 1) + 1) == v);
    lemma_with_reg16_of_reg16(s, r);
    assert(up.execute(Instr::DecR16(r)) == up.with_reg16(r, v));
    assert(down.execute(Instr::IncR16(r)) == down.with_reg16(r, v));
}

/// Setting a register to a value twice keeps the last value; setting it to
/// the value it holds changes nothing.
proof fn lemma_with_reg16_of_reg16(s: CpuState, r: Reg16)
    ensures
        forall|v: u16, w: u16| #[trigger] s.with_reg16(r, v).with_reg16(r, w) == s.with_reg16(r, w),
        s.with_reg16(r, s.reg16(r)) == s,
{
    lemma_bytes_of_word(s.a, s.status);
    lemma_bytes_of_word(s.b, s.c);
    lemma_bytes_of_word(s.d, s.e);
    lemma_bytes_of_word(s.h, s.l);
}

/// `ADD A,r` followed by `SUB A,r` gives A back, for every register r
/// other than A.
pub proof fn lemma_add_then_sub(s: CpuState, r: Reg8)
    requires
        r != Reg8::A,
    ensures
        s.execute(Instr::AddA(Src8::Reg(r))).execute(Instr::SubA(Src8::Reg(r))).a == s.a,
{
    let n = s.reg8(r);
    let t = s.execute(Instr::AddA(Src8::Reg(r)));
    lemma_add_sub_result(s, Src8::Reg(r));
    lemma_add_keeps_reg(s, r);
    lemma_add_sub_result(t, Src8::Reg(r));
    lemma_wrap8_add_sub(s.a, n);
}

/// What `ADD A,n` and `SUB A,n` leave in A.
proof fn lemma_add_sub_result(s: CpuState, src: Src8)
    ensures
        s.execute(Instr::AddA(src)).a == wrap8(s.a + s.src8(src)),
        s.execute(Instr::SubA(src)).a == wrap8(s.a - s.src8(src)),
{
}

/// `ADD A,r` leaves every register but A as it was.
proof fn lemma_add_keeps_reg(s: CpuState, r: Reg8)
    requires
        r != Reg8::A,
    ensures
        s.execute(Instr::AddA(Src8::Reg(r))).reg8(r) == s.reg8(r),
{
    match r {
        Reg8::A => {},
        Reg8::B => {},
        Reg8::C => {},
        Reg8::D => {},
        Reg8::E => {},
        Reg8::H => {},
        Reg8::L => {},
    }
}

/// Adding a byte and taking it away again gives the first byte back.
proof fn lemma_wrap8_add_sub(a: u8, n: u8)
    ensures
        wrap8(wrap8(a + n) - n) == a,
{
}

/// `XOR A` clears A and sets the zero flag.
pub proof fn lemma_xor_a_clears(s: CpuState)
    ensures
        s.execute(Instr::XorA(Src8::Reg(Reg8::A))).a == 0,
        s.execute(Instr::XorA(Src8::Reg(Reg8::A))).flag(Flag::Zero),
{
    assert(s.a ^ s.a == 0) by (bit_vector);
    lemma_flags_of_flag_bits(s.status, true, false, false, false);
}

/// A compare leaves A as it was and sets the zero flag exactly when A
/// equals the operand, the carry flag exactly when A is below it, and the
/// half-carry flag exactly when no borrow comes from bit 4.
pub proof fn lemma_compare(s: CpuState, src: Src8)
    ensures
        s.execute(Instr::CpA(src)).a == s.a,
        s.execute(Instr::CpA(src)).flag(Flag::Zero) == (s.a == s.src8(src)),
        s.execute(Instr::CpA(src)).flag(Flag::Carry) == (s.a < s.src8(src)),
        s.execute(Instr::CpA(src)).flag(Flag::Sub),
        s.execute(Instr::CpA(src)).flag(Flag::HalfCarry) == (s.a % 16 >= s.src8(src) % 16),
{
    let n = s.src8(src);
    lemma_flags_of_flag_bits(s.status, s.a == n, true, s.a % 16 >= n % 16, s.a < n);
}

/// A conditional jump or relative jump whose condition fails only moves the
/// program counter past its operand; a conditional return or call whose
/// condition fails changes nothing, so the call's two address bytes are
/// then run as the next instructions.
pub proof fn lemma_branch_not_taken(s: CpuState, c: Cond)
    requires
        !s.cond(c),
    ensures
        s.execute(Instr::JpCc(c)) == s.skip(2),
        s.execute(Instr::JrCc(c)) == s.skip(1),
        s.execute(Instr::RetCc(c)) == s,
        s.execute(Instr::CallCc(c)) == s,
{
}

/// A compare is a subtraction whose result is thrown away: it leaves A as
/// it was and sets the zero, subtract and carry flags as `SUB` does, and
/// the rest of the state as `SUB` leaves it.
pub proof fn lemma_compare_is_sub_without_result(s: CpuState, src: Src8)
    ensures
        ({
            let c = s.execute(Instr::CpA(src));
            let d = s.execute(Instr::SubA(src));
            &&& c.a == s.a
            &&& c.flag(Flag::Zero) == d.flag(Flag::Zero)
            &&& c.flag(Flag::Sub) == d.flag(Flag::Sub)
            &&& c.flag(Flag::Carry) == d.flag(Flag::Carry)
            &&& c.status & 0x0fu8 == d.status & 0x0fu8
            &&& c.with_reg8(Reg8::A, d.a).with_status(d.status) == d
        }),
{
    broadcast use lemma_flags_of_flag_bits;

    let n = s.src8(src);
    let r = wrap8(s.a - n);
    assert((r == 0) == (s.a == n));
}

/// With the carry flag reset, `ADC A,n` does exactly what `ADD A,n` does.
pub proof fn lemma_adc_without_carry_is_add(s: CpuState, src: Src8)
    requires
        !s.flag(Flag::Carry),
    ensures
        s.execute(Instr::AdcA(src)) == s.execute(Instr::AddA(src)),
{
}

/// Every instruction of the set, but `POP AF`, keeps the low nibble of the
/// status byte: the flags live in its high nibble.
pub proof fn lemma_low_nibble_kept(s: CpuState, op: u8)
    requires
        decoded(op) is Some,
        decoded(op) != Some(Instr::Pop(Reg16::AF)),
    ensures
        s.execute(decoded(op).unwrap()).status & 0x0fu8 == s.status & 0x0fu8,
{
    broadcast use lemma_flags_of_flag_bits;

}

/// Every opcode that the CPU runs has a line in the listing, and every
/// opcode with a line is one the CPU runs, but for `ADC A,(HL)`, which the
/// listing lacks.
pub proof fn lemma_listing_covers_decoder(op: u8)
    ensures
        op != opcodes::ADC_A_HL ==> (decoded(op) is Some <==> listing_pattern(op) is Some),
        op == opcodes::ADC_A_HL ==> decoded(op) is Some && listing_pattern(op) is None,
{
}

} // verus!
