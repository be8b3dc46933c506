//! The CPU: registers, status flags, memory and the stack.
use vstd::prelude::*;
use vstd::slice::slice_subrange;
use vstd::string::StringExecFns;

use crate::bytes::{u16_to_u8, u8_to_u16};
use crate::hex::{bin8, hex2, hex4, push_bin8, push_hex2, push_hex4};

pub mod exec;
pub mod decode_laws;
pub mod instr;
pub mod isa_laws;
pub mod laws;
pub mod listing;
pub mod listing_laws;
pub mod opcodes;
mod ops;
pub mod state;

pub use state::{
    flag_bits, flag_is_set, flag_mask, splice, with_flag, Cond, CpuState, Reg16, Reg8, Src8,
    MEM_HW_IO_REG_OFFSET, MEM_SIZE,
};

verus! {

broadcast use vstd::array::group_array_axioms;

///
///  16bit Hi   Lo   Name/Function
///  AF    A    -    Accumulator & Flags
///  BC    B    C    BC
///  DE    D    E    DE
///  HL    H    L    HL
///  SP    -    -    Stack Pointer
///  PC    -    -    Program Counter/Pointer
///
pub struct Cpu {
    a: u8,
    b: u8,
    c: u8,
    d: u8,
    e: u8,
    h: u8,
    l: u8,
    sp: u16,
    pc: u16,
    status: u8,  // status flag: zero, subtract, half carry, carry
    mem: [u8; MEM_SIZE],
}

/// A flag of the status register.
#[derive(Clone, Copy, Debug, PartialEq, Eq, Structural)]
pub enum Flag {
    Zero,
    Sub,
    HalfCarry,
    Carry,
}

impl Flag {
    /// The bit of the status register that holds this flag.
    fn mask(&self) -> (m: u8)
        ensures
            m == flag_mask(*self),
    {
        match *self {
            Flag::Zero => 0b1000_0000,
            Flag::Sub => 0b0100_0000,
            Flag::HalfCarry => 0b0010_0000,
            Flag::Carry => 0b0001_0000,
        }
    }
}

impl View for Cpu {
    type V = CpuState;

    closed spec fn view(&self) -> CpuState {
        CpuState {
            a: self.a,
            b: self.b,
            c: self.c,
            d: self.d,
            e: self.e,
            h: self.h,
            l: self.l,
            sp: self.sp,
            pc: self.pc,
            status: self.status,
            mem: self.mem@,
        }
    }
}

impl Clone for Cpu {
    fn clone(&self) -> (clone: Cpu)
        ensures
            clone@ == self@,
    {
        let mut clone = Cpu::new();
        clone.a = self.a;
        clone.b = self.b;
        clone.c = self.c;
        clone.d = self.d;
        clone.e = self.e;
        clone.h = self.h;
        clone.l = self.l;
        clone.sp = self.sp;
        clone.pc = self.pc;
        clone.status = self.status;
        clone.mem = self.mem;

        clone
    }
}

/// The one-line text of a CPU state: its registers in hexadecimal, its
/// status byte in binary.
pub open spec fn cpu_text(s: CpuState) -> Seq<char> {
    "[a: "@ + hex2(s.a) + ", b: "@ + hex2(s.b) + ", c: "@ + hex2(s.c) + ", d: "@ + hex2(s.d)
        + ", e: "@ + hex2(s.e) + ", h: "@ + hex2(s.h) + ", l: "@ + hex2(s.l) + ", status: "@
        + bin8(s.status) + ", sp: "@ + hex4(s.sp) + ", pc: "@ + hex4(s.pc) + "]"@
}

/// The state `init` puts the registers in: that of a Game Boy after its boot ROM.
pub open spec fn boot_state(s: CpuState) -> CpuState {
    CpuState {
        a: 0x01,
        status: 0xb0,
        b: 0x00,
        c: 0x13,
        d: 0x00,
        e: 0xd8,
        h: 0x01,
        l: 0x4d,
        pc: 0x100,
        sp: 0xfffe,
        ..s
    }
}

impl Cpu {
    /// Memory always spans the whole 64 KiB address space.
    pub proof fn lemma_mem_len(&self)
        ensures
            self@.mem.len() == MEM_SIZE,
    {
    }

    /// A CPU whose registers, status and memory are all zero.
    pub fn new() -> (cpu: Cpu)
        ensures
            cpu@.a == 0 && cpu@.b == 0 && cpu@.c == 0 && cpu@.d == 0,
            cpu@.e == 0 && cpu@.h == 0 && cpu@.l == 0,
            cpu@.sp == 0 && cpu@.pc == 0 && cpu@.status == 0,
            cpu@.mem == Seq::new(MEM_SIZE as nat, |i: int| 0u8),
    {
        let cpu = Cpu {
            a: 0,
            b: 0,
            c: 0,
            d: 0,
            e: 0,
            h: 0,
            l: 0,
            sp: 0,
            pc: 0,
            status: 0,
            mem: [0u8; MEM_SIZE],
        };
        assert(cpu@.mem =~= Seq::new(MEM_SIZE as nat, |i: int| 0u8));
        cpu
    }

    /// Puts the registers in the state a Game Boy leaves them in after its
    /// boot ROM: AF = 0x01b0, BC = 0x0013, DE = 0x00d8, HL = 0x014d,
    /// PC = 0x100, SP = 0xfffe. Memory is left as it is.
    pub fn init(&mut self)
        ensures
            final(self)@ == boot_state(old(self)@),
    {
        // When more models than the Game Boy are supported, A must change
        // with them: A=$01-GB/SGB, $FF-GBP, $11-GBC
        self.set_af(0x01b0);
        self.set_bc(0x0013);
        self.set_de(0x00d8);
        self.set_hl(0x014d);

        self.pc = 0x100;
        self.sp = 0xfffe;
    }

    /// Set this CPU's state to the given cpu
    pub fn load_from(&mut self, cpu: &Cpu)
        ensures
            final(self)@ == cpu@,
    {
        self.a = cpu.a;
        self.b = cpu.b;
        self.c = cpu.c;
        self.d = cpu.d;
        self.e = cpu.e;
        self.h = cpu.h;
        self.l = cpu.l;
        self.sp = cpu.sp;
        self.pc = cpu.pc;
        self.status = cpu.status;
        self.mem = cpu.mem;
    }

    /// The one-line text of this CPU's registers, as in
    /// `[a: 01, b: 00, c: 13, d: 00, e: d8, h: 01, l: 4d, status: 10110000, sp: fffe, pc: 0100]`.
    pub fn to_string(&self) -> (s: String)
        ensures
            s@ == cpu_text(self@),
    {
        let mut s = String::from_str("[a: ");
        push_hex2(&mut s, self.a);
        s.append(", b: ");
        push_hex2(&mut s, self.b);
        s.append(", c: ");
        push_hex2(&mut s, self.c);
        s.append(", d: ");
        push_hex2(&mut s, self.d);
        s.append(", e: ");
        push_hex2(&mut s, self.e);
        s.append(", h: ");
        push_hex2(&mut s, self.h);
        s.append(", l: ");
        push_hex2(&mut s, self.l);
        s.append(", status: ");
        push_bin8(&mut s, self.status);
        s.append(", sp: ");
        push_hex4(&mut s, self.sp);
        s.append(", pc: ");
        push_hex4(&mut s, self.pc);
        s.append("]");
        assert(s@ =~= cpu_text(self@));
        s
    }

    //
    // Manage memory
    //

    /// Writes one byte of memory.
    pub fn set_mem(&mut self, i: usize, value: u8)
        requires
            i < MEM_SIZE,
        ensures
            final(self)@ == old(self)@.write(i as int, value),
    {
        self.mem[i] = value
    }

    /// The bytes of memory from `i` to `j`, both included (none when `i == j + 1`).
    pub fn get_mem_range(&self, i: usize, j: usize) -> (r: &[u8])
        requires
            i <= j + 1 <= MEM_SIZE,
        ensures
            r@ == self@.mem.subrange(i as int, j + 1),
    {
        slice_subrange(self.mem.as_slice(), i, j + 1)
    }

    /// Writes `data` to memory from `i` to `j`, both included; `data` must
    /// be exactly that long.
    pub fn set_mem_range(&mut self, i: usize, j: usize, data: &[u8])
        requires
            i <= j + 1 <= MEM_SIZE,
            data@.len() == j + 1 - i,
        ensures
            final(self)@ == (CpuState { mem: splice(old(self)@.mem, i as int, data@), ..old(self)@ }),
    {
        let len = data.len();
        let mut k: usize = 0;
        while k < len
            invariant
                k <= len,
                len == data@.len(),
                i + len <= MEM_SIZE,
                self@ == (CpuState {
                    mem: splice(old(self)@.mem, i as int, data@.take(k as int)),
                    ..old(self)@
                }),
            decreases len - k,
        {
            self.mem[i + k] = data[k];
            k = k + 1;
            assert(self@.mem =~= splice(old(self)@.mem, i as int, data@.take(k as int)));
        }
        assert(data@.take(len as int) =~= data@);
    }

    /// Pushes `data` on the stack: it is written just below and at the
    /// stack pointer, which moves down by its length.
    pub fn push_stack(&mut self, data: &[u8])
        requires
            data@.len() <= old(self)@.sp,
        ensures
            final(self)@ == old(self)@.push_bytes(data@),
    {
        let top = self.sp as usize;
        let bottom = top - data.len();

        self.set_mem_range(bottom + 1, top, data);

        self.sp = bottom as u16;
    }

    /// Pushes a 16-bit word on the stack, high byte first.
    pub fn push_stack_u16(&mut self, n: u16)
        requires
            old(self)@.can_push16(),
        ensures
            final(self)@ == old(self)@.push16(n),
    {
        let (b1, b2) = u16_to_u8(n);
        let bytes = [b1, b2];
        self.push_stack(bytes.as_slice());
        assert(final(self)@.mem =~= old(self)@.push16(n).mem);
    }

    /// Pops `n` bytes off the stack: the ones just above the stack pointer,
    /// which moves up by `n`.
    pub fn pop_stack(&mut self, n: usize) -> (r: &[u8])
        requires
            old(self)@.sp + n <= 0xffff,
        ensures
            r@ == old(self)@.mem.subrange(old(self)@.sp + 1, old(self)@.sp + n + 1),
            final(self)@ == old(self)@.with_sp((old(self)@.sp + n) as u16),
    {
        let bottom = (self.sp as usize) + 1;
        let top = bottom + n - 1;

        self.sp = top as u16;

        self.get_mem_range(bottom, top)
    }

    /// Pops a 16-bit word off the stack.
    pub fn pop_stack_u16(&mut self) -> (n: u16)
        requires
            old(self)@.can_pop16(),
        ensures
            n == old(self)@.top16(),
            final(self)@ == old(self)@.pop16(),
    {
        let bytes = self.pop_stack(2);
        u8_to_u16(bytes[0], bytes[1])
    }

    //
    // Manage registers
    //

    fn get_af(&self) -> (n: u16)
        ensures
            n == self@.reg16(Reg16::AF),
    {
        u8_to_u16(self.a, self.status)
    }

    fn set_af(&mut self, n: u16)
        ensures
            final(self)@ == old(self)@.with_reg16(Reg16::AF, n),
    {
        let (a, f) = u16_to_u8(n);
        self.a = a;
        self.status = f;
    }

    fn get_bc(&self) -> (n: u16)
        ensures
            n == self@.reg16(Reg16::BC),
    {
        u8_to_u16(self.b, self.c)
    }

    fn set_bc(&mut self, n: u16)
        ensures
            final(self)@ == old(self)@.with_reg16(Reg16::BC, n),
    {
        let (b, c) = u16_to_u8(n);
        self.b = b;
        self.c = c;
    }

    fn get_de(&self) -> (n: u16)
        ensures
            n == self@.reg16(Reg16::DE),
    {
        u8_to_u16(self.d, self.e)
    }

    fn set_de(&mut self, n: u16)
        ensures
            final(self)@ == old(self)@.with_reg16(Reg16::DE, n),
    {
        let (d, e) = u16_to_u8(n);
        self.d = d;
        self.e = e;
    }

    fn get_hl(&self) -> (n: u16)
        ensures
            n == self@.reg16(Reg16::HL),
    {
        u8_to_u16(self.h, self.l)
    }

    fn set_hl(&mut self, n: u16)
        ensures
            final(self)@ == old(self)@.with_reg16(Reg16::HL, n),
    {
        let (h, l) = u16_to_u8(n);
        self.h = h;
        self.l = l;
    }

    /// The value of an 8-bit register.
    pub fn reg8(&self, r: Reg8) -> (v: u8)
        ensures
            v == self@.reg8(r),
    {
        match r {
            Reg8::A => self.a,
            Reg8::B => self.b,
            Reg8::C => self.c,
            Reg8::D => self.d,
            Reg8::E => self.e,
            Reg8::H => self.h,
            Reg8::L => self.l,
        }
    }

    fn set_reg8(&mut self, r: Reg8, v: u8)
        ensures
            final(self)@ == old(self)@.with_reg8(r, v),
    {
        match r {
            Reg8::A => self.a = v,
            Reg8::B => self.b = v,
            Reg8::C => self.c = v,
            Reg8::D => self.d = v,
            Reg8::E => self.e = v,
            Reg8::H => self.h = v,
            Reg8::L => self.l = v,
        }
    }

    /// The value of a 16-bit register or register pair.
    pub fn reg16(&self, r: Reg16) -> (v: u16)
        ensures
            v == self@.reg16(r),
    {
        match r {
            Reg16::AF => self.get_af(),
            Reg16::BC => self.get_bc(),
            Reg16::DE => self.get_de(),
            Reg16::HL => self.get_hl(),
            Reg16::SP => self.sp,
        }
    }

    fn set_reg16(&mut self, r: Reg16, v: u16)
        ensures
            final(self)@ == old(self)@.with_reg16(r, v),
    {
        match r {
            Reg16::AF => self.set_af(v),
            Reg16::BC => self.set_bc(v),
            Reg16::DE => self.set_de(v),
            Reg16::HL => self.set_hl(v),
            Reg16::SP => self.sp = v,
        }
    }

    /// The program counter.
    pub fn pc(&self) -> (pc: u16)
        ensures
            pc == self@.pc,
    {
        self.pc
    }

    /// The status byte: the four flags in its high nibble.
    pub fn status(&self) -> (s: u8)
        ensures
            s == self@.status,
    {
        self.status
    }

    /// One byte of memory.
    pub fn mem(&self, i: u16) -> (v: u8)
        ensures
            v == self@.mem[i as int],
    {
        self.mem[i as usize]
    }

    //
    // Flags
    //

    /// Check if a certain flag is set
    pub fn flag(&self, flag: &Flag) -> (b: bool)
        ensures
            b == self@.flag(*flag),
    {
        (self.status & flag.mask()) > 0
    }

    /// Either set or reset a flag based on `value`
    pub fn set_flag_to(&mut self, flag: &Flag, value: bool)
        ensures
            final(self)@ == old(self)@.with_status(with_flag(old(self)@.status, *flag, value)),
            forall|g: Flag|
                #[trigger] final(self)@.flag(g) == if g == *flag {
                    value
                } else {
                    old(self)@.flag(g)
                },
    {
        proof {
            assert forall|g: Flag| #[trigger]
                flag_is_set(with_flag(old(self)@.status, *flag, value), g) == if g == *flag {
                    value
                } else {
                    flag_is_set(old(self)@.status, g)
                } by {
                laws::lemma_with_flag_reads_back(old(self)@.status, *flag, g, value);
            }
        }
        if value {
            self.set_flag(flag);
        } else {
            self.reset_flag(flag);
        }
    }

    /// Set the defined status flag
    pub fn set_flag(&mut self, flag: &Flag)
        ensures
            final(self)@ == old(self)@.with_status(with_flag(old(self)@.status, *flag, true)),
    {
        self.status |= flag.mask()
    }

    /// Reset the defined status flag
    pub fn reset_flag(&mut self, flag: &Flag)
        ensures
            final(self)@ == old(self)@.with_status(with_flag(old(self)@.status, *flag, false)),
    {
        self.status &= !flag.mask()
    }

    /// Reset all status flags
    pub fn reset_status(&mut self)
        ensures
            final(self)@ == old(self)@.with_status(0),
    {
        self.status = 0;
    }

    //
    // Fetch
    //

    fn consume_byte(&mut self) -> (r: u8)
        requires
            old(self)@.can_fetch(1),
        ensures
            r == old(self)@.imm8(),
            final(self)@ == old(self)@.skip(1),
    {
        let result = self.mem[self.pc as usize];

        self.pc += 1;

        result
    }

    fn consume_16_imm(&mut self) -> (r: u16)
        requires
            old(self)@.can_fetch(2),
        ensures
            r == old(self)@.imm16(),
            final(self)@ == old(self)@.skip(2),
    {
        let snd_byte = self.consume_byte();
        let fst_byte = self.consume_byte();

        u8_to_u16(fst_byte, snd_byte)
    }

    fn consume_16_addr(&mut self) -> (r: u16)
        requires
            old(self)@.can_fetch(2),
        ensures
            r == old(self)@.imm16(),
            final(self)@ == old(self)@.skip(2),
    {
        let snd_byte = self.consume_byte();
        let fst_byte = self.consume_byte();

        u8_to_u16(fst_byte, snd_byte)
    }
}

} // verus!
