//! Fetching, decoding and running instructions.
use vstd::prelude::*;
use vstd::string::StringExecFns;

use crate::errors::{Error, ErrorKind};
use crate::hex::{hex2, hex4, push_hex2, push_hex4};
use super::instr::{decoded, Instr};
use super::state::{CpuState, Src8};
use super::Cpu;

verus! {

/// The message of the error for an opcode this core does not run, found
/// at `addr`.
pub open spec fn unknown_opcode_message(opcode: u8, addr: u16) -> Seq<char> {
    "Unimplemented opcode "@ + hex2(opcode) + "@"@ + hex4(addr)
}

/// Builds the error for an opcode this core does not run, found at `addr`.
fn unknown_opcode_error(opcode: u8, addr: u16) -> (e: Error)
    ensures
        e.kind() == ErrorKind::UnknownInstruction,
        e.message_view() == unknown_opcode_message(opcode, addr),
{
    let mut message = String::from_str("Unimplemented opcode ");
    push_hex2(&mut message, opcode);
    message.append("@");
    push_hex4(&mut message, addr);
    Error::new(ErrorKind::UnknownInstruction, message)
}

impl CpuState {
    /// Whether `tick` can run from this state: the opcode lies below
    /// 0xffff and the instruction it stands for can run.
    pub open spec fn can_tick(self) -> bool {
        &&& self.can_fetch(1)
        &&& match decoded(self.imm8()) {
            Some(i) => self.skip(1).can_execute(i),
            None => true,
        }
    }

    /// The state after `tick`: the opcode is read, then the instruction it
    /// stands for runs; an opcode this core does not run is only read.
    pub open spec fn ticked(self) -> CpuState {
        match decoded(self.imm8()) {
            Some(i) => self.skip(1).execute(i),
            None => self.skip(1),
        }
    }
}

impl Cpu {
    /// Runs an instruction whose opcode has just been read.
    #[verifier::rlimit(60)]
    fn execute(&mut self, instr: Instr)
        requires
            old(self)@.can_execute(instr),
        ensures
            final(self)@ == old(self)@.execute(instr),
    {
        match instr {
            Instr::Nop => self.nop(),
            Instr::Di => self.di(),
            Instr::Ei => self.ei(),
            Instr::Undefined => {},
            Instr::CallA16 => self.call_a16(),
            Instr::CallCc(c) => self.call_cc_a16(c),
            Instr::JpA16 => self.jp_a16(),
            Instr::JpHl => self.jp_hl(),
            Instr::JpCc(c) => self.jp_cc_a16(c),
            Instr::JrR8 => self.jr_r8(),
            Instr::JrCc(c) => self.jr_cc_r8(c),
            Instr::Ret => self.ret(),
            Instr::RetCc(c) => self.ret_cc(c),
            Instr::Rst(n) => self.rst_a8(n),
            Instr::Push(r) => self.push_a16(r),
            Instr::Pop(r) => self.pop_r16(r),
            Instr::LdR8R8(r1, r2) => self.ld_r8_r8(r1, r2),
            Instr::LdR8D8(r) => self.ld_r8_d8(r),
            Instr::LdA(src) => self.ld_a(src),
            Instr::LdR8R16(r1, r2) => self.ld_r8_r16(r1, r2),
            Instr::LdR8A16(r) => self.ld_r8_a16(r),
            Instr::LdAddrR8(r1, r2) => self.ld_addr_r8(r1, r2),
            Instr::LdA16A => {
                let addr = self.consume_16_addr();
                self.ld_addr_a(addr);
            }
            Instr::LdR16D16(r) => self.ld_r16_d16(r),
            Instr::LdSpHl => self.ld_sp_hl(),
            Instr::LdhA8A => self.ldh_a8_a(),
            Instr::LdhAA8 => self.ldh_a_a8(),
            Instr::LdiAHl => self.ldi_a_hl(),
            Instr::LdiHlA => self.ldi_hl_a(),
            Instr::LddHlA => self.ldd_hl_a(),
            Instr::LdhlSpR8 => self.ldhl_sp_r8(),
            Instr::LdA16Sp => self.ld_a16_sp(),
            Instr::IncR8(r) => self.inc_r8(r),
            Instr::IncAddr(r) => self.inc_addr(r),
            Instr::IncR16(r) => self.inc_r16(r),
            Instr::DecR8(r) => self.dec_r8(r),
            Instr::DecAddr(r) => self.dec_addr(r),
            Instr::DecR16(r) => self.dec_r16(r),
            Instr::AddA(src) => self.add_a(src),
            Instr::AdcA(src) => self.adc_a(src),
            Instr::SubA(src) => self.sub_a(src),
            Instr::AndA(src) => self.and_a(src),
            Instr::XorA(src) => self.xor_a(src),
            Instr::OrA(src) => self.or_a(src),
            Instr::CpA(src) => self.cp_a(src),
            Instr::CpHl => self.cp_hl(),
            Instr::AddHl(r) => self.add_hl(r),
            Instr::AddSpImm => self.add_sp_imm(),
            Instr::Rlca => self.rlc_a(),
            Instr::Rrca => self.rrca(),
        }
    }

    /// Whether `tick` can run now (see `CpuState::can_tick`).
    pub fn can_tick(&self) -> (b: bool)
        ensures
            b == self@.can_tick(),
    {
        if self.pc == 0xffff {
            return false;
        }
        let opcode = self.mem(self.pc);
        match Instr::decode(opcode) {
            Some(instr) => self.can_execute_after_opcode(instr),
            None => true,
        }
    }

    /// Whether an instruction can run once the opcode at the program
    /// counter has been read.
    fn can_execute_after_opcode(&self, instr: Instr) -> (b: bool)
        requires
            self@.can_fetch(1),
        ensures
            b == self@.skip(1).can_execute(instr),
    {
        let operands = 0xfffeu16 - self.pc;
        let can_push = self.sp >= 2;
        let can_pop = self.sp <= 0xfffd;
        match instr {
            Instr::CallA16 => operands >= 2 && can_push,
            Instr::CallCc(c) => !self.test_cond(c) || (operands >= 2 && can_push),
            Instr::JpA16 | Instr::JpCc(_) | Instr::LdR8A16(_) | Instr::LdA16A | Instr::LdR16D16(_)
            | Instr::LdA16Sp => operands >= 2,
            Instr::JrR8 | Instr::JrCc(_) | Instr::LdR8D8(_) | Instr::LdhA8A | Instr::LdhAA8
            | Instr::LdhlSpR8 | Instr::AddSpImm => operands >= 1,
            Instr::Ret | Instr::Pop(_) => can_pop,
            Instr::RetCc(c) => !self.test_cond(c) || can_pop,
            Instr::Rst(_) | Instr::Push(_) => can_push,
            Instr::LdA(src) | Instr::AddA(src) | Instr::AdcA(src) | Instr::SubA(src)
            | Instr::AndA(src) | Instr::XorA(src) | Instr::OrA(src) | Instr::CpA(src) => match src {
                Src8::Imm => operands >= 1,
                _ => true,
            },
            _ => true,
        }
    }

    /// Reads the opcode at the program counter and moves the counter past it.
    pub fn fetch_opcode(&mut self) -> (opcode: u8)
        requires
            old(self)@.can_fetch(1),
        ensures
            opcode == old(self)@.imm8(),
            final(self)@ == old(self)@.skip(1),
    {
        self.consume_byte()
    }

    /// Runs the instruction an opcode stands for, the opcode having just
    /// been read (the program counter is past it). An opcode that this core
    /// does not run is an `UnknownInstruction` error that names it and its
    /// address, and changes nothing.
    pub fn run_opcode(&mut self, opcode: u8) -> (r: Result<(), Error>)
        requires
            old(self)@.pc >= 1,
            decoded(opcode) matches Some(i) ==> old(self)@.can_execute(i),
        ensures
            r is Ok <==> decoded(opcode) is Some,
            final(self)@ == match decoded(opcode) {
                Some(i) => old(self)@.execute(i),
                None => old(self)@,
            },
            r matches Err(e) ==> e.kind() == ErrorKind::UnknownInstruction && e.message_view()
                == unknown_opcode_message(opcode, (old(self)@.pc - 1) as u16),
    {
        match Instr::decode(opcode) {
            Some(instr) => {
                self.execute(instr);
                Ok(())
            },
            None => Err(unknown_opcode_error(opcode, self.pc - 1)),
        }
    }

    /// Runs one instruction: reads the opcode at the program counter and
    /// runs the instruction it stands for. An opcode that this core does not
    /// run is an `UnknownInstruction` error, with the program counter past it.
    pub fn tick(&mut self) -> (r: Result<(), Error>)
        requires
            old(self)@.can_tick(),
        ensures
            final(self)@ == old(self)@.ticked(),
            r is Ok <==> decoded(old(self)@.imm8()) is Some,
            r matches Err(e) ==> e.kind() == ErrorKind::UnknownInstruction
                && e.message_view() == unknown_opcode_message(old(self)@.imm8(), old(self)@.pc),
    {
        let opcode = self.fetch_opcode();
        self.run_opcode(opcode)
    }
}

} // verus!
