//! The instructions of the CPU, one method each.
use vstd::prelude::*;

use crate::bytes::u16_to_u8;
use super::instr::{wrap16, wrap8, Instr};
use super::state::{
    lemma_flag_bits_of, sign_extend, Cond, Reg16, Reg8, Src8, MEM_HW_IO_REG_OFFSET,
};
use super::{Cpu, Flag};

verus! {

broadcast use super::state::lemma_with_flag_bits, vstd::array::group_array_axioms;

/// The low nibble of a byte is the byte modulo 16.
proof fn lemma_low_nibble(x: u8)
    ensures
        x & 0x0fu8 == x % 16,
{
    assert(x & 0x0fu8 == x % 16) by (bit_vector);
}

/// The low 12 bits of a word are the word modulo 4096.
proof fn lemma_low_12_bits(x: u16)
    ensures
        x & 0x0fffu16 == x % 0x1000,
{
    assert(x & 0x0fffu16 == x % 0x1000) by (bit_vector);
}

/// A byte read as a signed offset, sign-extended to 16 bits.
fn sign_extend_byte(b: u8) -> (n: u16)
    ensures
        n == sign_extend(b),
{
    if b < 0x80 {
        b as u16
    } else {
        b as u16 + 0xff00
    }
}

impl Cpu {
    /// Whether a condition holds.
    pub(crate) fn test_cond(&self, c: Cond) -> (b: bool)
        ensures
            b == self@.cond(c),
    {
        match c {
            Cond::NZ => !self.flag(&Flag::Zero),
            Cond::Z => self.flag(&Flag::Zero),
            Cond::NC => !self.flag(&Flag::Carry),
            Cond::C => self.flag(&Flag::Carry),
        }
    }

    /// Reads an 8-bit operand.
    fn read_src8(&mut self, src: Src8) -> (n: u8)
        requires
            old(self)@.can_read_src8(src),
        ensures
            n == old(self)@.src8(src),
            final(self)@ == old(self)@.after_src8(src),
    {
        match src {
            Src8::Reg(r) => self.reg8(r),
            Src8::AtHl => {
                let addr = self.get_hl() as usize;
                self.mem[addr]
            },
            Src8::Imm => self.consume_byte(),
        }
    }

    /// **Description**
    ///
    /// Push address of next instruction onto stack and then jump to address a16.
    ///
    /// **Use with**:
    ///
    /// a16 = two byte immediate value. (LS byte first)
    pub(crate) fn call_a16(&mut self)
        requires
            old(self)@.can_execute(Instr::CallA16),
        ensures
            final(self)@ == old(self)@.execute(Instr::CallA16),
    {
        let addr = self.consume_16_addr();

        // copy pc because self needs to be borrowed mutably
        // when pushing to the stack
        let pc = self.pc;
        self.push_stack_u16(pc);

        self.pc = addr;
    }

    ///**Description:**
    ///  Call address n if following condition is true:
    ///
    ///  cc = NZ, Call if Z flag is reset.
    ///  cc = Z, Call if Z flag is set.
    ///  cc = NC, Call if C flag is reset.
    ///  cc = C, Call if C flag is set.
    ///
    ///**Use with:**
    ///  nn = two byte immediate value. (LS byte first.)
    pub(crate) fn call_cc_a16(&mut self, condition: Cond)
        requires
            old(self)@.can_execute(Instr::CallCc(condition)),
        ensures
            final(self)@ == old(self)@.execute(Instr::CallCc(condition)),
    {
        if self.test_cond(condition) {
            self.call_a16();
        }
    }

    /// **Description**
    ///
    /// Put value A into memory address nn.
    pub(crate) fn ld_addr_a(&mut self, addr: u16)
        ensures
            final(self)@ == old(self)@.write(addr as int, old(self)@.a),
    {
        let addr = addr as usize;
        self.mem[addr] = self.a;
    }

    /// **Description**
    ///
    /// Put a value into A.
    pub(crate) fn ld_a(&mut self, src: Src8)
        requires
            old(self)@.can_execute(Instr::LdA(src)),
        ensures
            final(self)@ == old(self)@.execute(Instr::LdA(src)),
    {
        self.a = self.read_src8(src);
    }

    /// **Description**
    ///
    /// Put value r2 into r1.
    ///
    ///**Use with:**
    /// r1,r2 = A,B,C,D,E,H,L,
    pub(crate) fn ld_r8_r8(&mut self, r1: Reg8, r2: Reg8)
        ensures
            final(self)@ == old(self)@.execute(Instr::LdR8R8(r1, r2)),
    {
        let value = self.reg8(r2);
        self.set_reg8(r1, value);
    }

    /// **Description**
    ///
    /// Put value at (HL) into r1.
    ///
    ///**Use with:**
    /// r1 = A,B,C,D,E,H,L
    /// r2 = (HL)
    pub(crate) fn ld_r8_r16(&mut self, r1: Reg8, r2: Reg16)
        ensures
            final(self)@ == old(self)@.execute(Instr::LdR8R16(r1, r2)),
    {
        let value = self.mem[self.reg16(r2) as usize];
        self.set_reg8(r1, value);
    }

    /// **Description**
    ///
    /// Put value at (nn) address into r1.
    ///
    ///**Use with:**
    /// r1 = A,B,C,D,E,H,L
    /// r2 = (nn)
    pub(crate) fn ld_r8_a16(&mut self, r1: Reg8)
        requires
            old(self)@.can_execute(Instr::LdR8A16(r1)),
        ensures
            final(self)@ == old(self)@.execute(Instr::LdR8A16(r1)),
    {
        let addr = self.consume_16_addr();
        let value = self.mem[addr as usize];
        self.set_reg8(r1, value);
    }

    /// **Description**
    ///
    /// Put d16 into register r16.
    pub(crate) fn ld_r16_d16(&mut self, r: Reg16)
        requires
            old(self)@.can_execute(Instr::LdR16D16(r)),
        ensures
            final(self)@ == old(self)@.execute(Instr::LdR16D16(r)),
    {
        let value = self.consume_16_imm();
        self.set_reg16(r, value);
    }

    /// **Description:**
    /// Jump to address nn.
    ///
    /// **Use with:**
    /// nn = two byte immediate value. (LS byte first.)
    ///
    pub(crate) fn jp_a16(&mut self)
        requires
            old(self)@.can_execute(Instr::JpA16),
        ensures
            final(self)@ == old(self)@.execute(Instr::JpA16),
    {
        let addr = self.consume_16_addr();
        self.pc = addr;
    }

    /// **Description:**
    /// Jump to address contained in HL.
    ///
    pub(crate) fn jp_hl(&mut self)
        ensures
            final(self)@ == old(self)@.execute(Instr::JpHl),
    {
        let addr = self.get_hl();
        self.pc = addr;
    }

    /// **Description:**
    ///
    ///  Add n to current address and jump to it.
    ///
    /// **Use with:**
    ///
    ///  n = one byte signed immediate value
    pub(crate) fn jr_r8(&mut self)
        requires
            old(self)@.can_execute(Instr::JrR8),
        ensures
            final(self)@ == old(self)@.execute(Instr::JrR8),
    {
        let n = sign_extend_byte(self.consume_byte());
        self.pc = self.pc.wrapping_add(n);
    }

    /// **Description:**
    ///
    /// Put HL into Stack Pointer (SP).
    pub(crate) fn ld_sp_hl(&mut self)
        ensures
            final(self)@ == old(self)@.execute(Instr::LdSpHl),
    {
        self.sp = self.get_hl();
    }

    /// **Description**
    ///
    /// This instruction disables interrupts but not
    /// immediately. Interrupts are disabled after
    /// instruction after DI is executed.
    ///
    /// **Flags affected**
    ///
    /// None
    ///
    /// This core models no interrupts, so there is nothing to disable.
    pub(crate) fn di(&self) {
    }

    /// Enables interrupts; this core models no interrupts.
    pub(crate) fn ei(&self) {
    }

    pub(crate) fn nop(&self) {
    }

    ///**Description:**
    /// Jump to address n if following condition is true:
    /// cc = NZ, Jump if Z flag is reset
    /// cc = Z, Jump if Z flag is set
    /// cc = NC, Jump if C flag is reset
    /// cc = C, Jump if C flag is set
    ///
    ///**Use with:**
    /// nn = two byte immediate value. (LS byte first.)
    pub(crate) fn jp_cc_a16(&mut self, condition: Cond)
        requires
            old(self)@.can_execute(Instr::JpCc(condition)),
        ensures
            final(self)@ == old(self)@.execute(Instr::JpCc(condition)),
    {
        if self.test_cond(condition) {
            self.jp_a16();
        } else {
            // Ensure that the address is consumed even if we don't jump
            self.consume_16_addr();
        }
    }

    ///**Description:**
    /// Put A into memory address $FF00+n.
    ///
    ///**Use with:**
    /// n = one byte immediate value.
    pub(crate) fn ldh_a8_a(&mut self)
        requires
            old(self)@.can_execute(Instr::LdhA8A),
        ensures
            final(self)@ == old(self)@.execute(Instr::LdhA8A),
    {
        let n = self.consume_byte() as usize;
        self.mem[MEM_HW_IO_REG_OFFSET + n] = self.a;
    }

    ///**Description:**
    /// Put memory address $FF00+n into A
    ///
    ///**Use with:**
    /// n = one byte immediate value.
    pub(crate) fn ldh_a_a8(&mut self)
        requires
            old(self)@.can_execute(Instr::LdhAA8),
        ensures
            final(self)@ == old(self)@.execute(Instr::LdhAA8),
    {
        let n = self.consume_byte() as usize;
        self.a = self.mem[MEM_HW_IO_REG_OFFSET + n];
    }

    ///**Description:**
    ///
    /// Put value at address HL into A. Increment HL.
    /// Same as: LD A,(HL) - INC HL
    ///
    ///**Notes:**
    ///
    /// Implements LD A,(HLI) and LD,A(HLI+)
    pub(crate) fn ldi_a_hl(&mut self)
        ensures
            final(self)@ == old(self)@.execute(Instr::LdiAHl),
    {
        self.ld_r8_r16(Reg8::A, Reg16::HL);
        self.inc_r16(Reg16::HL);
    }

    ///**Description:**
    ///
    /// Put A into memory address HL. Increment HL.
    /// Same as: LD (HL),A - INC HL
    pub(crate) fn ldi_hl_a(&mut self)
        ensures
            final(self)@ == old(self)@.execute(Instr::LdiHlA),
    {
        let addr = self.get_hl();
        self.ld_addr_a(addr);
        self.inc_r16(Reg16::HL);
    }

    ///**Description:**
    ///
    /// Put A into memory address HL. Decrement HL.
    /// Same as: LD (HL),A - DEC HL
    pub(crate) fn ldd_hl_a(&mut self)
        ensures
            final(self)@ == old(self)@.execute(Instr::LddHlA),
    {
        let addr = self.get_hl();
        self.ld_addr_a(addr);
        self.dec_r16(Reg16::HL);
    }

    ///**Description:**
    /// Pop two bytes from stack & jump to that address.
    pub(crate) fn ret(&mut self)
        requires
            old(self)@.can_execute(Instr::Ret),
        ensures
            final(self)@ == old(self)@.execute(Instr::Ret),
    {
        self.pc = self.pop_stack_u16();
    }

    ///**Description:**
    ///  Return if following condition is true:
    ///
    ///**Use with:**
    ///  cc = NZ, Return if Z flag is reset.
    ///  cc = Z, Return if Z flag is set.
    ///  cc = NC, Return if C flag is reset
    ///  cc = C, Return if C flag is set
    pub(crate) fn ret_cc(&mut self, condition: Cond)
        requires
            old(self)@.can_execute(Instr::RetCc(condition)),
        ensures
            final(self)@ == old(self)@.execute(Instr::RetCc(condition)),
    {
        if self.test_cond(condition) {
            self.ret();
        }
    }

    ///
    /// Push register pair nn onto stack.
    /// Decrement Stack Pointer (SP) twice.
    ///
    ///**Use with:**
    /// nn = AF,BC,DE,HL
    pub(crate) fn push_a16(&mut self, r: Reg16)
        requires
            old(self)@.can_execute(Instr::Push(r)),
        ensures
            final(self)@ == old(self)@.execute(Instr::Push(r)),
    {
        let reg_value = self.reg16(r);
        self.push_stack_u16(reg_value);
    }

    ///**Description:
    /// Pop two bytes off stack into register pair nn.
    /// Increment Stack Pointer (SP) twice.
    ///
    ///**Use with:**
    /// nn = AF,BC,DE,HL
    pub(crate) fn pop_r16(&mut self, r: Reg16)
        requires
            old(self)@.can_execute(Instr::Pop(r)),
        ensures
            final(self)@ == old(self)@.execute(Instr::Pop(r)),
    {
        let value = self.pop_stack_u16();
        self.set_reg16(r, value);
    }

    ///**Description:**
    /// Increment register n.
    ///
    ///**Use with:**
    /// n = A,B,C,D,E,H,L
    pub(crate) fn inc_r8(&mut self, r: Reg8)
        ensures
            final(self)@ == old(self)@.execute(Instr::IncR8(r)),
    {
        let old_value = self.reg8(r);
        let new_value = old_value.wrapping_add(1);
        proof {
            lemma_flag_bits_of(self.status);
            lemma_low_nibble(old_value);
        }

        self.set_flag_to(&Flag::Zero, new_value == 0);
        self.set_flag_to(&Flag::HalfCarry, old_value & 0xf == 0xf);
        self.reset_flag(&Flag::Sub);

        self.set_reg8(r, new_value);
    }

    ///**Description:**
    /// Increment byte at address (HL).
    ///
    ///**Use with:**
    /// n = A,B,C,D,E,H,L
    pub(crate) fn inc_addr(&mut self, r: Reg16)
        ensures
            final(self)@ == old(self)@.execute(Instr::IncAddr(r)),
    {
        let addr = self.reg16(r) as usize;
        let old_value = self.mem[addr];
        let new_value = old_value.wrapping_add(1);
        proof {
            lemma_flag_bits_of(self.status);
            lemma_low_nibble(old_value);
        }

        self.set_flag_to(&Flag::Zero, new_value == 0);
        self.set_flag_to(&Flag::HalfCarry, old_value & 0xf == 0xf);
        self.reset_flag(&Flag::Sub);

        self.mem[addr] = new_value;
    }

    ///**Description:**
    /// Increment register nn.
    ///
    ///**Use with:**
    /// nn = BC,DE,HL,SP
    pub(crate) fn inc_r16(&mut self, r: Reg16)
        ensures
            final(self)@ == old(self)@.execute(Instr::IncR16(r)),
    {
        let curr_value = self.reg16(r);
        self.set_reg16(r, curr_value.wrapping_add(1));
    }

    ///**Description:**
    /// Decrement register n.
    ///
    ///**Use with:**
    /// n = A,B,C,D,E,H,L
    pub(crate) fn dec_r8(&mut self, r: Reg8)
        ensures
            final(self)@ == old(self)@.execute(Instr::DecR8(r)),
    {
        let old_value = self.reg8(r);
        let new_value = old_value.wrapping_sub(1);
        proof {
            lemma_flag_bits_of(self.status);
            lemma_low_nibble(old_value);
        }

        self.set_flag_to(&Flag::Zero, new_value == 0);
        self.set_flag_to(&Flag::HalfCarry, old_value & 0xf == 0);
        self.set_flag(&Flag::Sub);

        self.set_reg8(r, new_value);
    }

    ///**Description:**
    /// Decrement byte at address (HL).
    ///
    ///**Use with:**
    /// n = A,B,C,D,E,H,L
    pub(crate) fn dec_addr(&mut self, r: Reg16)
        ensures
            final(self)@ == old(self)@.execute(Instr::DecAddr(r)),
    {
        let addr = self.reg16(r) as usize;
        let old_value = self.mem[addr];
        let new_value = old_value.wrapping_sub(1);
        proof {
            lemma_flag_bits_of(self.status);
            lemma_low_nibble(old_value);
        }

        self.set_flag_to(&Flag::Zero, new_value == 0);
        self.set_flag_to(&Flag::HalfCarry, old_value & 0xf == 0);
        self.set_flag(&Flag::Sub);

        self.mem[addr] = new_value;
    }

    ///**Description:**
    /// Decrement register nn.
    ///
    ///**Use with:**
    /// nn = BC,DE,HL,SP
    pub(crate) fn dec_r16(&mut self, r: Reg16)
        ensures
            final(self)@ == old(self)@.execute(Instr::DecR16(r)),
    {
        let curr_value = self.reg16(r);
        let new_value = curr_value.wrapping_sub(1);
        assert(new_value == wrap16(curr_value - 1)) by {
            if curr_value == 0 {
                assert((curr_value - 1) % 0x10000 == 0xffff);
            }
        }
        self.set_reg16(r, new_value);
    }

    ///**Description:**
    ///  Add n to register A.
    ///
    ///**Use with:**
    ///  n = A,B,C,D,E,H,L,(HL),#
    ///
    ///**Flags affected:**
    ///  Z - Set if result is zero.
    ///  N - Reset.
    ///  H - Set if carry from bit 3.
    ///  C - Set if carry from bit 7.
    pub(crate) fn add_a(&mut self, src: Src8)
        requires
            old(self)@.can_execute(Instr::AddA(src)),
        ensures
            final(self)@ == old(self)@.execute(Instr::AddA(src)),
    {
        let old_value = self.a;
        let n = self.read_src8(src);
        let result = old_value.wrapping_add(n);
        proof {
            lemma_flag_bits_of(self.status);
            lemma_low_nibble(old_value);
            lemma_low_nibble(n);
        }

        self.set_flag_to(&Flag::Zero, result == 0);
        self.reset_flag(&Flag::Sub);
        self.set_flag_to(&Flag::HalfCarry, (old_value & 0x0f) + (n & 0x0f) > 0x0f);
        self.set_flag_to(&Flag::Carry, old_value as u16 + n as u16 > 0xff);

        self.a = result;
    }

    ///**Description:**
    ///  Add n to HL.
    ///
    ///**Use with:**
    ///  n = BC,DE,HL,SP
    ///
    ///**Flags affected:**
    ///  Z - Not affected.
    ///  N - Reset.
    ///  H - Set if carry from bit 11.
    ///  C - Set if carry from bit 15.
    pub(crate) fn add_hl(&mut self, r: Reg16)
        ensures
            final(self)@ == old(self)@.execute(Instr::AddHl(r)),
    {
        let old_value = self.get_hl();
        let n = self.reg16(r);
        let result = old_value.wrapping_add(n);
        assert(result == wrap16(old_value + n));
        proof {
            lemma_flag_bits_of(self.status);
            lemma_low_12_bits(old_value);
            lemma_low_12_bits(n);
        }

        self.reset_flag(&Flag::Sub);
        self.set_flag_to(&Flag::HalfCarry, (old_value & 0x0fff) + (n & 0x0fff) > 0x0fff);
        self.set_flag_to(&Flag::Carry, old_value as u32 + n as u32 > 0xffff);

        self.set_hl(result);
    }

    ///**Description:**
    ///  Add n to SP.
    ///
    ///**Use with:**
    ///  n = one byte signed immediate value
    ///
    ///**Flags affected:**
    ///  Z - Reset.
    ///  N - Reset.
    ///  H - Set if carry from bit 11 (always set on subtraction).
    ///  C - Set if carry from bit 15 (always set on subtraction).
    pub(crate) fn add_sp_imm(&mut self)
        requires
            old(self)@.can_execute(Instr::AddSpImm),
        ensures
            final(self)@ == old(self)@.execute(Instr::AddSpImm),
    {
        let old_value = self.sp;
        let b = self.consume_byte();
        let negative = b >= 0x80;
        let n = sign_extend_byte(b);
        let result = old_value.wrapping_add(n);
        proof {
            lemma_flag_bits_of(self.status);
            lemma_low_12_bits(old_value);
            lemma_low_12_bits(n);
        }

        self.reset_flag(&Flag::Zero);
        self.reset_flag(&Flag::Sub);
        self.set_flag_to(
            &Flag::HalfCarry,
            negative || (old_value & 0x0fff) + (n & 0x0fff) > 0x0fff,
        );
        self.set_flag_to(&Flag::Carry, negative || old_value as u32 + n as u32 > 0xffff);

        self.sp = result;
    }

    ///**Description:**
    ///  Sub n to register A.
    ///
    ///**Use with:**
    ///  n = A,B,C,D,E,H,L,(HL),#
    ///
    ///**Flags affected:**
    ///  Z - Set if result is zero.
    ///  N - Set.
    ///  H - Set if carry from bit 3.
    ///  C - Set if carry from bit 7.
    pub(crate) fn sub_a(&mut self, src: Src8)
        requires
            old(self)@.can_execute(Instr::SubA(src)),
        ensures
            final(self)@ == old(self)@.execute(Instr::SubA(src)),
    {
        let old_value = self.a;
        let n = self.read_src8(src);
        let result = old_value.wrapping_sub(n);
        proof {
            lemma_flag_bits_of(self.status);
            lemma_low_nibble(old_value);
            lemma_low_nibble(n);
        }

        self.set_flag_to(&Flag::Zero, result == 0);
        self.set_flag(&Flag::Sub);
        self.set_flag_to(&Flag::HalfCarry, (old_value & 0x0f) < (n & 0x0f));
        self.set_flag_to(&Flag::Carry, (old_value as u16) < (n as u16));

        self.a = result;
    }

    ///**Description:**
    ///  Logical AND n with register A, result in A.
    ///
    ///**Use with:**
    ///  n = A,B,C,D,E,H,L,(HL),#
    ///
    ///**Flags affected:**
    ///  Z - Set if result is zero.
    ///  N - Reset.
    ///  H - Set.
    ///  C - Reset.
    pub(crate) fn and_a(&mut self, src: Src8)
        requires
            old(self)@.can_execute(Instr::AndA(src)),
        ensures
            final(self)@ == old(self)@.execute(Instr::AndA(src)),
    {
        let a = self.a;
        let result = a & self.read_src8(src);
        self.a = result;
        proof {
            lemma_flag_bits_of(self.status);
        }

        self.set_flag_to(&Flag::Zero, result == 0);
        self.reset_flag(&Flag::Carry);
        self.set_flag(&Flag::HalfCarry);
        self.reset_flag(&Flag::Sub);
    }

    ///**Description:**
    ///  Logical XOR n with register A, result in A.
    ///
    ///**Use with:**
    ///  n = A,B,C,D,E,H,L,(HL),#
    ///
    ///**Flags affected:**
    ///  Z - Set if result is zero.
    ///  N - Reset.
    ///  H - Reset.
    ///  C - Reset.
    pub(crate) fn xor_a(&mut self, src: Src8)
        requires
            old(self)@.can_execute(Instr::XorA(src)),
        ensures
            final(self)@ == old(self)@.execute(Instr::XorA(src)),
    {
        let a = self.a;
        let result = a ^ self.read_src8(src);
        self.a = result;
        proof {
            lemma_flag_bits_of(self.status);
        }

        self.set_flag_to(&Flag::Zero, result == 0);
        self.reset_flag(&Flag::Carry);
        self.reset_flag(&Flag::HalfCarry);
        self.reset_flag(&Flag::Sub);
    }

    ///**Description:**
    ///  Logical OR n with register A, result in A.
    ///
    ///**Use with:**
    ///  n = A,B,C,D,E,H,L,(HL),#
    ///
    ///**Flags affected:**
    ///  Z - Set if result is zero.
    ///  N - Reset.
    ///  H - Reset.
    ///  C - Reset.
    pub(crate) fn or_a(&mut self, src: Src8)
        requires
            old(self)@.can_execute(Instr::OrA(src)),
        ensures
            final(self)@ == old(self)@.execute(Instr::OrA(src)),
    {
        let a = self.a;
        let result = a | self.read_src8(src);
        self.a = result;
        proof {
            lemma_flag_bits_of(self.status);
        }

        self.set_flag_to(&Flag::Zero, result == 0);
        self.reset_flag(&Flag::Carry);
        self.reset_flag(&Flag::HalfCarry);
        self.reset_flag(&Flag::Sub);
    }

    ///**Description:**
    /// If following condition is true then add n to current
    /// address and jump to it:
    ///
    ///**Use with:**
    /// n = one byte signed immediate value
    /// cc = NZ, Jump if Z flag is reset
    /// cc = Z, Jump if Z flag is set
    /// cc = NC, Jump if C flag is reset
    /// cc = C, Jump if C flag is set
    pub(crate) fn jr_cc_r8(&mut self, condition: Cond)
        requires
            old(self)@.can_execute(Instr::JrCc(condition)),
        ensures
            final(self)@ == old(self)@.execute(Instr::JrCc(condition)),
    {
        if self.test_cond(condition) {
            self.jr_r8();
        } else {
            // Ensure that the address is consumed even if we don't jump
            self.consume_byte();
        }
    }

    ///**Description:**
    ///  Put value n into nn.
    ///
    /// **Use with:**
    ///  nn = B,C,D,E,H,L,BC,DE,HL,SP
    ///  n = 8 bit immediate value
    pub(crate) fn ld_r8_d8(&mut self, r: Reg8)
        requires
            old(self)@.can_execute(Instr::LdR8D8(r)),
        ensures
            final(self)@ == old(self)@.execute(Instr::LdR8D8(r)),
    {
        let value = self.consume_byte();
        self.set_reg8(r, value);
    }

    ///**Description:**
    ///  Compare A with n. This is basically an A - n
    ///  subtraction instruction but the results are thrown
    ///  away.
    ///
    ///**Use with:**
    ///  n = A,B,C,D,E,H,L,#
    ///
    ///**Flags affected:**
    ///  Z - Set if result is zero. (Set if A = n.)
    ///  N - Set.
    ///  H - Set if no borrow from bit 4.
    ///  C - Set for no borrow. (Set if A < n.)
    pub(crate) fn cp_a(&mut self, src: Src8)
        requires
            old(self)@.can_execute(Instr::CpA(src)),
        ensures
            final(self)@ == old(self)@.execute(Instr::CpA(src)),
    {
        let n = self.read_src8(src);
        let a = self.a;
        proof {
            lemma_flag_bits_of(self.status);
            lemma_low_nibble(a);
            lemma_low_nibble(n);
        }

        self.set_flag_to(&Flag::Zero, a == n);
        self.set_flag_to(&Flag::Carry, a < n);
        self.set_flag_to(&Flag::HalfCarry, (a & 0xF) >= (n & 0xF));
        self.set_flag(&Flag::Sub);
    }

    ///**Description:**
    ///  Compare A with the byte at address (HL), n. This is basically an A - n
    ///  subtraction instruction but the results are thrown
    ///  away.
    ///
    ///**Use with:**
    ///  n = (HL)
    ///
    ///**Flags affected:**
    ///  Z - Set if result is zero. (Set if A = n.)
    ///  N - Set.
    ///  H - Set if no borrow from bit 4.
    ///  C - Set for no borrow. (Set if A < n.)
    pub(crate) fn cp_hl(&mut self)
        ensures
            final(self)@ == old(self)@.execute(Instr::CpHl),
    {
        let n = self.mem[self.get_hl() as usize];
        let a = self.a;
        proof {
            lemma_flag_bits_of(self.status);
            lemma_low_nibble(a);
            lemma_low_nibble(n);
        }

        self.set_flag_to(&Flag::Zero, a == n);
        self.set_flag_to(&Flag::Carry, a < n);
        self.set_flag_to(&Flag::HalfCarry, (a & 0xF) >= (n & 0xF));
        self.set_flag(&Flag::Sub);
    }

    /// **Description**
    ///
    /// Put value at register r2 into memory address stored in r1.
    pub(crate) fn ld_addr_r8(&mut self, r1: Reg16, r2: Reg8)
        ensures
            final(self)@ == old(self)@.execute(Instr::LdAddrR8(r1, r2)),
    {
        let addr = self.reg16(r1) as usize;
        self.mem[addr] = self.reg8(r2);
    }

    ///**Description:**
    ///  Add n + Carry flag to A.
    ///
    ///**Use with:**
    ///  n = A,B,C,D,E,H,L,(HL),#
    ///
    ///**Flags affected:**
    ///  Z - Set if result is zero.
    ///  N - Reset.
    ///  H - Set if carry from bit 3.
    ///  C - Set if carry from bit 7.
    pub(crate) fn adc_a(&mut self, src: Src8)
        requires
            old(self)@.can_execute(Instr::AdcA(src)),
        ensures
            final(self)@ == old(self)@.execute(Instr::AdcA(src)),
    {
        let a = self.a;
        let carry: u8 = if self.flag(&Flag::Carry) {
            1
        } else {
            0
        };
        let n = self.read_src8(src);
        let res = a.wrapping_add(n).wrapping_add(carry);
        assert(res == wrap8(a + n + carry));
        proof {
            lemma_flag_bits_of(self.status);
            lemma_low_nibble(a);
            lemma_low_nibble(n);
        }

        self.set_flag_to(&Flag::Zero, res == 0);
        self.reset_flag(&Flag::Sub);
        self.set_flag_to(&Flag::HalfCarry, (a & 0x0f) + (n & 0x0f) + carry > 0x0f);
        self.set_flag_to(&Flag::Carry, a as u16 + n as u16 + carry as u16 > 0xff);

        self.a = res;
    }

    ///**Description:**
    ///  Rotate A left. Old bit 7 to Carry flag.
    ///
    ///**Flags affected:**
    ///  Z - Reset.
    ///  N - Reset.
    ///  H - Reset.
    ///  C - Contains old bit 7 data.
    pub(crate) fn rlc_a(&mut self)
        ensures
            final(self)@ == old(self)@.execute(Instr::Rlca),
    {
        proof {
            lemma_flag_bits_of(self.status);
        }
        self.reset_flag(&Flag::Sub);
        self.reset_flag(&Flag::HalfCarry);

        let a = self.a;
        let carry = a >> 7;
        let res = ((a & 0x7f) << 1) | carry;  // a & 0b01111111
        assert(carry == a / 0x80 && res == (a % 0x80) * 2 + a / 0x80) by (bit_vector)
            requires
                carry == a >> 7,
                res == ((a & 0x7f) << 1) | carry,
        ;

        self.reset_flag(&Flag::Zero);
        self.reset_flag(&Flag::Sub);
        self.reset_flag(&Flag::HalfCarry);
        self.set_flag_to(&Flag::Carry, carry == 1);
        self.a = res;
    }

    ///**Description:**
    ///  Rotate A right. Old bit 0 to Carry flag.
    ///
    ///**Flags affected:**
    ///  Z - Reset.
    ///  N - Reset.
    ///  H - Reset.
    ///  C - Contains old bit 0 data.
    pub(crate) fn rrca(&mut self)
        ensures
            final(self)@ == old(self)@.execute(Instr::Rrca),
    {
        let lsb = self.a & 1;
        let old_a = self.a;
        let a = (lsb << 7) | (old_a >> 1);
        assert(lsb == old_a % 2 && a == old_a / 2 + (old_a % 2) * 0x80) by (bit_vector)
            requires
                lsb == old_a & 1,
                a == (lsb << 7) | (old_a >> 1),
        ;
        proof {
            lemma_flag_bits_of(self.status);
        }

        self.reset_flag(&Flag::Zero);
        self.reset_flag(&Flag::Sub);
        self.reset_flag(&Flag::HalfCarry);
        self.set_flag_to(&Flag::Carry, lsb == 1);

        self.a = a;
    }

    ///**Description:**
    ///  Put SP + n effective address into HL.
    ///
    ///**Use with:**
    ///  n = one byte signed immediate value.
    ///
    ///**Flags affected:**
    ///  Z - Reset.
    ///  N - Reset.
    ///  H - Set or reset according to operation.
    ///  C - Set or reset according to operation.
    pub(crate) fn ldhl_sp_r8(&mut self)
        requires
            old(self)@.can_execute(Instr::LdhlSpR8),
        ensures
            final(self)@ == old(self)@.execute(Instr::LdhlSpR8),
    {
        let old_value = self.sp;

        self.add_sp_imm();
        let new_value = self.sp;

        self.set_hl(new_value);
        self.sp = old_value;
    }

    ///**Description:**
    ///  Put Stack Pointer (SP) at address n: its low byte at n, its high
    ///  byte at n + 1.
    ///
    ///**Use with:**
    ///  nn = two byte immediate address.
    pub(crate) fn ld_a16_sp(&mut self)
        requires
            old(self)@.can_execute(Instr::LdA16Sp),
        ensures
            final(self)@ == old(self)@.execute(Instr::LdA16Sp),
    {
        let addr = self.consume_16_addr();
        let (hi, lo) = u16_to_u8(self.sp);
        self.mem[addr as usize] = lo;
        self.mem[addr.wrapping_add(1) as usize] = hi;
    }

    ///**Description:**
    ///  Push present address onto stack.
    ///  Jump to address $0000 + n.
    ///
    ///**Use with:**
    ///  n = $00,$08,$10,$18,$20,$28,$30,$38
    pub(crate) fn rst_a8(&mut self, n: u8)
        requires
            old(self)@.can_execute(Instr::Rst(n)),
        ensures
            final(self)@ == old(self)@.execute(Instr::Rst(n)),
    {
        let curr_pc = self.pc;
        self.push_stack_u16(curr_pc);

        self.pc = n as u16;
    }
}

} // verus!
