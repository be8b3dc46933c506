use lib::cpu::{Cpu, Flag, Reg16, Reg8};
use lib::errors::ErrorKind;

/// A CPU in its post-boot state with `program` at 0x100.
fn boot_with(program: &[u8]) -> Cpu {
    let mut cpu = Cpu::new();
    cpu.init();
    cpu.set_mem_range(0x100, 0x100 + program.len() - 1, program);
    cpu
}

fn run(cpu: &mut Cpu, steps: usize) {
    for _ in 0..steps {
        assert!(cpu.can_tick());
        cpu.tick().expect("instruction runs");
    }
}

#[test]
fn new_cpu_is_all_zero() {
    let cpu = Cpu::new();
    for r in [Reg8::A, Reg8::B, Reg8::C, Reg8::D, Reg8::E, Reg8::H, Reg8::L] {
        assert_eq!(cpu.reg8(r), 0);
    }
    assert_eq!(cpu.reg16(Reg16::SP), 0);
    assert_eq!(cpu.pc(), 0);
    assert_eq!(cpu.status(), 0);
    assert_eq!(cpu.mem(0x1234), 0);
    assert_eq!(cpu.mem(0xffff), 0);
    assert_eq!(
        cpu.to_string(),
        "[a: 00, b: 00, c: 00, d: 00, e: 00, h: 00, l: 00, status: 00000000, sp: 0000, pc: 0000]"
    );
}

#[test]
fn init_sets_boot_registers() {
    let mut cpu = Cpu::new();
    cpu.set_mem(0x4000, 7);
    cpu.init();
    assert_eq!(cpu.reg16(Reg16::AF), 0x01b0);
    assert_eq!(cpu.reg16(Reg16::BC), 0x0013);
    assert_eq!(cpu.reg16(Reg16::DE), 0x00d8);
    assert_eq!(cpu.reg16(Reg16::HL), 0x014d);
    assert_eq!(cpu.reg16(Reg16::SP), 0xfffe);
    assert_eq!(cpu.pc(), 0x100);
    assert_eq!(cpu.mem(0x4000), 7);
    assert_eq!(
        cpu.to_string(),
        "[a: 01, b: 00, c: 13, d: 00, e: d8, h: 01, l: 4d, status: 10110000, sp: fffe, pc: 0100]"
    );
    assert!(cpu.flag(&Flag::Zero));
    assert!(!cpu.flag(&Flag::Sub));
    assert!(cpu.flag(&Flag::HalfCarry));
    assert!(cpu.flag(&Flag::Carry));
}

#[test]
fn set_mem_reads_back() {
    let mut cpu = Cpu::new();
    cpu.set_mem(10, 0xab);
    assert_eq!(cpu.get_mem_range(9, 11), &[0, 0xab, 0]);
    assert_eq!(cpu.get_mem_range(10, 10), &[0xab]);
    assert_eq!(cpu.get_mem_range(5, 4), &[] as &[u8]);
    assert_eq!(cpu.get_mem_range(0xffff, 0xffff), &[0]);
}

#[test]
fn set_mem_range_reads_back() {
    let mut cpu = Cpu::new();
    cpu.set_mem_range(0x200, 0x203, &[1, 2, 3, 4]);
    assert_eq!(cpu.get_mem_range(0x200, 0x203), &[1, 2, 3, 4]);
    assert_eq!(cpu.mem(0x1ff), 0);
    assert_eq!(cpu.mem(0x204), 0);
    cpu.set_mem_range(0xfffe, 0xffff, &[9, 8]);
    assert_eq!(cpu.get_mem_range(0xfffd, 0xffff), &[0, 9, 8]);
}

#[test]
fn push_stack_then_pop_stack() {
    let mut cpu = Cpu::new();
    cpu.init();
    cpu.push_stack(&[1, 2, 3]);
    assert_eq!(cpu.reg16(Reg16::SP), 0xfffb);
    assert_eq!(cpu.get_mem_range(0xfffc, 0xfffe), &[1, 2, 3]);
    assert_eq!(cpu.pop_stack(3), &[1, 2, 3]);
    assert_eq!(cpu.reg16(Reg16::SP), 0xfffe);
}

#[test]
fn push_u16_then_pop_u16() {
    let mut cpu = Cpu::new();
    cpu.init();
    cpu.push_stack_u16(0xbeef);
    assert_eq!(cpu.reg16(Reg16::SP), 0xfffc);
    assert_eq!(cpu.mem(0xfffd), 0xbe);
    assert_eq!(cpu.mem(0xfffe), 0xef);
    assert_eq!(cpu.pop_stack_u16(), 0xbeef);
    assert_eq!(cpu.reg16(Reg16::SP), 0xfffe);
}

#[test]
fn load_from_copies_everything() {
    let mut source = boot_with(&[0x06, 0x42]);
    run(&mut source, 1);
    source.set_mem(0x9000, 0x5a);
    let mut target = Cpu::new();
    target.load_from(&source);
    assert_eq!(target.to_string(), source.to_string());
    assert_eq!(target.reg8(Reg8::B), 0x42);
    assert_eq!(target.mem(0x9000), 0x5a);
    assert_eq!(target.get_mem_range(0x100, 0x101), &[0x06, 0x42]);
}

#[test]
fn clone_copies_everything() {
    let mut source = boot_with(&[0x3e, 0x77]);
    run(&mut source, 1);
    let copy = source.clone();
    assert_eq!(copy.to_string(), source.to_string());
    assert_eq!(copy.reg8(Reg8::A), 0x77);
    assert_eq!(copy.get_mem_range(0x100, 0x101), &[0x3e, 0x77]);
}

#[test]
fn loads_of_registers() {
    // LD B,12; LD C,34; LD A,56; LD A,B; LD H,A; LD L,C
    let mut cpu = boot_with(&[0x06, 0x12, 0x0e, 0x34, 0x3e, 0x56, 0x78, 0x67, 0x69]);
    run(&mut cpu, 3);
    assert_eq!(cpu.reg8(Reg8::A), 0x56);
    run(&mut cpu, 3);
    assert_eq!(cpu.reg8(Reg8::A), 0x12);
    assert_eq!(cpu.reg16(Reg16::BC), 0x1234);
    assert_eq!(cpu.reg16(Reg16::HL), 0x1234);
    assert_eq!(cpu.pc(), 0x109);
}

#[test]
fn add_sets_half_carry_and_carry() {
    // LD A,0f; LD B,01; ADD A,B; ADD A,f0
    let mut cpu = boot_with(&[0x3e, 0x0f, 0x06, 0x01, 0x80, 0xc6, 0xf0]);
    run(&mut cpu, 3);
    assert_eq!(cpu.reg8(Reg8::A), 0x10);
    assert_eq!(cpu.status(), 0x20);
    run(&mut cpu, 1);
    assert_eq!(cpu.reg8(Reg8::A), 0x00);
    assert_eq!(cpu.status(), 0x90);
}

#[test]
fn sub_and_compare() {
    // LD A,10; SUB 01; CP 0f; CP 20
    let mut cpu = boot_with(&[0x3e, 0x10, 0xd6, 0x01, 0xfe, 0x0f, 0xfe, 0x20]);
    run(&mut cpu, 2);
    assert_eq!(cpu.reg8(Reg8::A), 0x0f);
    assert_eq!(cpu.status(), 0x60);
    run(&mut cpu, 1);
    assert_eq!(cpu.reg8(Reg8::A), 0x0f);
    assert_eq!(cpu.status(), 0xe0);
    run(&mut cpu, 1);
    assert_eq!(cpu.reg8(Reg8::A), 0x0f);
    assert_eq!(cpu.status(), 0x70);
}

#[test]
fn compare_half_carry_set_without_borrow_from_bit_4() {
    // LD A,1f; CP 0e (no borrow from bit 4); LD A,10; LD HL,c000;
    // CP (HL) with (HL) = 0f (a borrow from bit 4)
    let mut cpu = boot_with(&[0x3e, 0x1f, 0xfe, 0x0e, 0x3e, 0x10, 0x21, 0x00, 0xc0, 0xbe]);
    cpu.set_mem(0xc000, 0x0f);
    run(&mut cpu, 2);
    assert_eq!(cpu.status(), 0x60);
    run(&mut cpu, 3);
    assert_eq!(cpu.reg8(Reg8::A), 0x10);
    assert_eq!(cpu.status(), 0x40);
}

#[test]
fn compare_agrees_with_sub_but_keeps_a() {
    // LD A,35; LD B,47; CP B, then the same with SUB B
    let mut cmp = boot_with(&[0x3e, 0x35, 0x06, 0x47, 0xb8]);
    let mut sub = boot_with(&[0x3e, 0x35, 0x06, 0x47, 0x90]);
    run(&mut cmp, 3);
    run(&mut sub, 3);
    assert_eq!(cmp.reg8(Reg8::A), 0x35);
    assert_eq!(sub.reg8(Reg8::A), 0xee);
    for f in [Flag::Zero, Flag::Sub, Flag::Carry] {
        assert_eq!(cmp.flag(&f), sub.flag(&f));
    }
}

#[test]
fn adc_without_carry_is_add() {
    // XOR A clears the carry; LD A,7c; ADC A,9a, then the same with ADD
    let mut adc = boot_with(&[0xaf, 0x3e, 0x7c, 0xce, 0x9a]);
    let mut add = boot_with(&[0xaf, 0x3e, 0x7c, 0xc6, 0x9a]);
    run(&mut adc, 3);
    run(&mut add, 3);
    assert_eq!(adc.to_string(), add.to_string());
    assert_eq!(adc.reg8(Reg8::A), 0x16);
}

#[test]
fn flags_read_back_what_was_written() {
    let mut cpu = Cpu::new();
    cpu.set_flag_to(&Flag::HalfCarry, true);
    assert!(cpu.flag(&Flag::HalfCarry));
    assert!(!cpu.flag(&Flag::Zero));
    assert_eq!(cpu.status(), 0x20);
    cpu.set_flag(&Flag::Carry);
    cpu.set_flag_to(&Flag::HalfCarry, false);
    assert!(!cpu.flag(&Flag::HalfCarry));
    assert!(cpu.flag(&Flag::Carry));
    assert_eq!(cpu.status(), 0x10);
    cpu.reset_flag(&Flag::Carry);
    assert_eq!(cpu.status(), 0x00);
    cpu.set_flag(&Flag::Zero);
    cpu.reset_status();
    assert_eq!(cpu.status(), 0x00);
}

#[test]
fn sub_wraps_below_zero() {
    // XOR A; SUB 01
    let mut cpu = boot_with(&[0xaf, 0xd6, 0x01]);
    run(&mut cpu, 2);
    assert_eq!(cpu.reg8(Reg8::A), 0xff);
    assert_eq!(cpu.status(), 0x70);
}

#[test]
fn inc_and_dec_of_registers() {
    // XOR A; LD B,0f; INC B; DEC B; DEC B
    let mut cpu = boot_with(&[0xaf, 0x06, 0x0f, 0x04, 0x05, 0x05]);
    run(&mut cpu, 1);
    assert_eq!(cpu.status(), 0x80);
    run(&mut cpu, 2);
    assert_eq!(cpu.reg8(Reg8::B), 0x10);
    assert_eq!(cpu.status(), 0x20);
    run(&mut cpu, 1);
    assert_eq!(cpu.reg8(Reg8::B), 0x0f);
    assert_eq!(cpu.status(), 0x60);
    run(&mut cpu, 1);
    assert_eq!(cpu.reg8(Reg8::B), 0x0e);
    assert_eq!(cpu.status(), 0x40);
}

#[test]
fn inc_wraps_to_zero_and_keeps_carry() {
    // LD C,ff; INC C (status after boot has the carry set)
    let mut cpu = boot_with(&[0x0e, 0xff, 0x0c]);
    run(&mut cpu, 2);
    assert_eq!(cpu.reg8(Reg8::C), 0);
    assert_eq!(cpu.status(), 0xb0);
}

#[test]
fn inc_and_dec_of_pairs_and_memory() {
    // LD HL,c000; INC (HL); INC (HL); DEC (HL); INC HL; DEC DE; INC SP
    let mut cpu = boot_with(&[0x21, 0x00, 0xc0, 0x34, 0x34, 0x35, 0x23, 0x1b, 0x33]);
    run(&mut cpu, 4);
    assert_eq!(cpu.mem(0xc000), 1);
    run(&mut cpu, 4);
    assert_eq!(cpu.reg16(Reg16::HL), 0xc001);
    assert_eq!(cpu.reg16(Reg16::DE), 0x00d7);
    assert_eq!(cpu.reg16(Reg16::SP), 0xffff);
}

#[test]
fn dec_pair_wraps() {
    // LD BC,0000; DEC BC
    let mut cpu = boot_with(&[0x01, 0x00, 0x00, 0x0b]);
    run(&mut cpu, 2);
    assert_eq!(cpu.reg16(Reg16::BC), 0xffff);
}

#[test]
fn logic_operations() {
    // LD A,f0; AND 3c; OR 0f; XOR 3f
    let mut cpu = boot_with(&[0x3e, 0xf0, 0xe6, 0x3c, 0xf6, 0x0f, 0xee, 0x3f]);
    run(&mut cpu, 2);
    assert_eq!(cpu.reg8(Reg8::A), 0x30);
    assert_eq!(cpu.status(), 0x20);
    run(&mut cpu, 1);
    assert_eq!(cpu.reg8(Reg8::A), 0x3f);
    assert_eq!(cpu.status(), 0x00);
    run(&mut cpu, 1);
    assert_eq!(cpu.reg8(Reg8::A), 0x00);
    assert_eq!(cpu.status(), 0x80);
}

#[test]
fn add_with_carry() {
    // LD A,ff; ADD A,01; ADC A,01
    let mut cpu = boot_with(&[0x3e, 0xff, 0xc6, 0x01, 0xce, 0x01]);
    run(&mut cpu, 2);
    assert_eq!(cpu.reg8(Reg8::A), 0x00);
    assert_eq!(cpu.status(), 0xb0);
    run(&mut cpu, 1);
    assert_eq!(cpu.reg8(Reg8::A), 0x02);
    assert_eq!(cpu.status(), 0x00);
}

#[test]
fn adc_with_memory_operand() {
    // LD HL,c000; LD A,0e; ADC A,(HL) with (HL) = 01 and the carry set
    let mut cpu = boot_with(&[0x21, 0x00, 0xc0, 0x3e, 0x0e, 0x8e]);
    cpu.set_mem(0xc000, 0x01);
    run(&mut cpu, 3);
    assert_eq!(cpu.reg8(Reg8::A), 0x10);
    assert_eq!(cpu.status(), 0x20);
}

#[test]
fn jumps() {
    // JP 0150; at 0150: JR -2
    let mut cpu = boot_with(&[0xc3, 0x50, 0x01]);
    cpu.set_mem_range(0x150, 0x151, &[0x18, 0xfe]);
    run(&mut cpu, 1);
    assert_eq!(cpu.pc(), 0x150);
    run(&mut cpu, 1);
    assert_eq!(cpu.pc(), 0x150);
}

#[test]
fn jump_to_hl() {
    // LD HL,1234; JP (HL)
    let mut cpu = boot_with(&[0x21, 0x34, 0x12, 0xe9]);
    run(&mut cpu, 2);
    assert_eq!(cpu.pc(), 0x1234);
}

#[test]
fn call_then_ret() {
    let mut cpu = boot_with(&[0xcd, 0x00, 0x02]);
    cpu.set_mem(0x200, 0xc9);
    run(&mut cpu, 1);
    assert_eq!(cpu.pc(), 0x200);
    assert_eq!(cpu.reg16(Reg16::SP), 0xfffc);
    assert_eq!(cpu.get_mem_range(0xfffd, 0xfffe), &[0x01, 0x03]);
    run(&mut cpu, 1);
    assert_eq!(cpu.pc(), 0x103);
    assert_eq!(cpu.reg16(Reg16::SP), 0xfffe);
}

#[test]
fn rst_pushes_return_address() {
    let mut cpu = boot_with(&[0xff]);
    run(&mut cpu, 1);
    assert_eq!(cpu.pc(), 0x38);
    assert_eq!(cpu.reg16(Reg16::SP), 0xfffc);
    assert_eq!(cpu.get_mem_range(0xfffd, 0xfffe), &[0x01, 0x01]);
}

#[test]
fn push_then_pop_copies_pairs() {
    // PUSH BC; POP DE; PUSH AF; POP HL
    let mut cpu = boot_with(&[0xc5, 0xd1, 0xf5, 0xe1]);
    run(&mut cpu, 2);
    assert_eq!(cpu.reg16(Reg16::DE), 0x0013);
    assert_eq!(cpu.reg16(Reg16::SP), 0xfffe);
    run(&mut cpu, 2);
    assert_eq!(cpu.reg16(Reg16::HL), 0x01b0);
}

#[test]
fn pop_af_sets_status() {
    // LD BC,12f7; PUSH BC; POP AF
    let mut cpu = boot_with(&[0x01, 0xf7, 0x12, 0xc5, 0xf1]);
    run(&mut cpu, 3);
    assert_eq!(cpu.reg8(Reg8::A), 0x12);
    assert_eq!(cpu.status(), 0xf7);
}

#[test]
fn rotations() {
    // LD A,81; RLCA; RRCA; RRCA
    let mut cpu = boot_with(&[0x3e, 0x81, 0x07, 0x0f, 0x0f]);
    run(&mut cpu, 2);
    assert_eq!(cpu.reg8(Reg8::A), 0x03);
    assert_eq!(cpu.status(), 0x10);
    run(&mut cpu, 1);
    assert_eq!(cpu.reg8(Reg8::A), 0x81);
    assert_eq!(cpu.status(), 0x10);
    run(&mut cpu, 1);
    assert_eq!(cpu.reg8(Reg8::A), 0xc0);
    assert_eq!(cpu.status(), 0x10);
}

#[test]
fn rotate_without_carry_out() {
    // LD A,40; RLCA
    let mut cpu = boot_with(&[0x3e, 0x40, 0x07]);
    run(&mut cpu, 2);
    assert_eq!(cpu.reg8(Reg8::A), 0x80);
    assert_eq!(cpu.status(), 0x00);
}

#[test]
fn high_memory_loads() {
    // LD A,42; LDH (80),A; LD A,00; LDH A,(80)
    let mut cpu = boot_with(&[0x3e, 0x42, 0xe0, 0x80, 0x3e, 0x00, 0xf0, 0x80]);
    run(&mut cpu, 2);
    assert_eq!(cpu.mem(0xff80), 0x42);
    run(&mut cpu, 1);
    assert_eq!(cpu.reg8(Reg8::A), 0x00);
    run(&mut cpu, 1);
    assert_eq!(cpu.reg8(Reg8::A), 0x42);
}

#[test]
fn loads_through_hl_with_increment_and_decrement() {
    // LD HL,c000; LD A,99; LDI (HL),A; LDD (HL),A; LD A,00; LDI A,(HL)
    let mut cpu = boot_with(&[0x21, 0x00, 0xc0, 0x3e, 0x99, 0x22, 0x32, 0x3e, 0x00, 0x2a]);
    run(&mut cpu, 3);
    assert_eq!(cpu.mem(0xc000), 0x99);
    assert_eq!(cpu.reg16(Reg16::HL), 0xc001);
    run(&mut cpu, 1);
    assert_eq!(cpu.mem(0xc001), 0x99);
    assert_eq!(cpu.reg16(Reg16::HL), 0xc000);
    run(&mut cpu, 2);
    assert_eq!(cpu.reg8(Reg8::A), 0x99);
    assert_eq!(cpu.reg16(Reg16::HL), 0xc001);
}

#[test]
fn loads_through_pairs_and_addresses() {
    // LD DE,c010; LD A,5a; LD (DE),A; LD (c020),A; LD B,(HL)... via LD A,(DE) and LD A,(a16)
    let mut cpu = boot_with(&[
        0x11, 0x10, 0xc0, 0x3e, 0x5a, 0x12, 0xea, 0x20, 0xc0, 0x3e, 0x00, 0x1a, 0x3e, 0x00, 0xfa,
        0x20, 0xc0,
    ]);
    run(&mut cpu, 4);
    assert_eq!(cpu.mem(0xc010), 0x5a);
    assert_eq!(cpu.mem(0xc020), 0x5a);
    run(&mut cpu, 2);
    assert_eq!(cpu.reg8(Reg8::A), 0x5a);
    run(&mut cpu, 2);
    assert_eq!(cpu.reg8(Reg8::A), 0x5a);
}

#[test]
fn store_register_at_hl() {
    // LD HL,c000; LD (HL),C; LD E,(HL)
    let mut cpu = boot_with(&[0x21, 0x00, 0xc0, 0x71, 0x5e]);
    run(&mut cpu, 3);
    assert_eq!(cpu.mem(0xc000), 0x13);
    assert_eq!(cpu.reg8(Reg8::E), 0x13);
}

#[test]
fn add_to_hl() {
    // LD HL,0fff; LD BC,0001; ADD HL,BC; ADD HL,HL
    let mut cpu = boot_with(&[0x21, 0xff, 0x0f, 0x01, 0x01, 0x00, 0x09, 0x29]);
    run(&mut cpu, 3);
    assert_eq!(cpu.reg16(Reg16::HL), 0x1000);
    assert_eq!(cpu.status(), 0xa0);
    run(&mut cpu, 1);
    assert_eq!(cpu.reg16(Reg16::HL), 0x2000);
    assert_eq!(cpu.status(), 0x80);
}

#[test]
fn add_hl_carries_out_of_bit_15() {
    // LD HL,8000; ADD HL,HL
    let mut cpu = boot_with(&[0x21, 0x00, 0x80, 0x29]);
    run(&mut cpu, 2);
    assert_eq!(cpu.reg16(Reg16::HL), 0x0000);
    assert_eq!(cpu.status(), 0x90);
}

#[test]
fn add_signed_offset_to_sp() {
    // ADD SP,-2; LD SP,0fff; ADD SP,1
    let mut cpu = boot_with(&[0xe8, 0xfe, 0x31, 0xff, 0x0f, 0xe8, 0x01]);
    run(&mut cpu, 1);
    assert_eq!(cpu.reg16(Reg16::SP), 0xfffc);
    assert_eq!(cpu.status(), 0x30);
    run(&mut cpu, 2);
    assert_eq!(cpu.reg16(Reg16::SP), 0x1000);
    assert_eq!(cpu.status(), 0x20);
}

#[test]
fn negative_offset_to_sp_sets_carries() {
    // LD SP,0000; ADD SP,-1
    let mut cpu = boot_with(&[0x31, 0x00, 0x00, 0xe8, 0xff]);
    run(&mut cpu, 2);
    assert_eq!(cpu.reg16(Reg16::SP), 0xffff);
    assert_eq!(cpu.status(), 0x30);
}

#[test]
fn sp_plus_offset_into_hl() {
    // LDHL SP,2
    let mut cpu = boot_with(&[0xf8, 0x02]);
    run(&mut cpu, 1);
    assert_eq!(cpu.reg16(Reg16::HL), 0x0000);
    assert_eq!(cpu.reg16(Reg16::SP), 0xfffe);
    assert_eq!(cpu.status(), 0x30);
}

#[test]
fn store_sp_at_address() {
    // LD (c000),SP
    let mut cpu = boot_with(&[0x08, 0x00, 0xc0]);
    run(&mut cpu, 1);
    assert_eq!(cpu.get_mem_range(0xc000, 0xc001), &[0xfe, 0xff]);
    assert_eq!(cpu.reg16(Reg16::SP), 0xfffe);
    assert_eq!(cpu.pc(), 0x103);
}

#[test]
fn sp_from_hl() {
    // LD SP,HL
    let mut cpu = boot_with(&[0xf9]);
    run(&mut cpu, 1);
    assert_eq!(cpu.reg16(Reg16::SP), 0x014d);
}

#[test]
fn branches_not_taken() {
    // XOR A; JP NZ,0200; JR NZ,05; RET NZ; CALL NZ,0300
    let mut cpu = boot_with(&[0xaf, 0xc2, 0x00, 0x02, 0x20, 0x05, 0xc0, 0xc4, 0x00, 0x03]);
    run(&mut cpu, 2);
    assert_eq!(cpu.pc(), 0x104);
    run(&mut cpu, 1);
    assert_eq!(cpu.pc(), 0x106);
    run(&mut cpu, 1);
    assert_eq!(cpu.pc(), 0x107);
    run(&mut cpu, 1);
    // a call that is not taken does not skip its address
    assert_eq!(cpu.pc(), 0x108);
    assert_eq!(cpu.reg16(Reg16::SP), 0xfffe);
}

#[test]
fn branches_taken() {
    // XOR A; JR Z,02; (skipped: 00 00); JP Z,0200
    let mut cpu = boot_with(&[0xaf, 0x28, 0x02, 0x00, 0x00, 0xca, 0x00, 0x02]);
    run(&mut cpu, 2);
    assert_eq!(cpu.pc(), 0x105);
    run(&mut cpu, 1);
    assert_eq!(cpu.pc(), 0x200);
}

#[test]
fn conditional_call_and_return_taken() {
    // SCF is not available, so set the carry with ADD: LD A,ff; ADD A,01; CALL C,0200
    let mut cpu = boot_with(&[0x3e, 0xff, 0xc6, 0x01, 0xdc, 0x00, 0x02]);
    cpu.set_mem(0x200, 0xd8);
    run(&mut cpu, 3);
    assert_eq!(cpu.pc(), 0x200);
    run(&mut cpu, 1);
    assert_eq!(cpu.pc(), 0x107);
}

#[test]
fn undefined_opcode_does_nothing() {
    let mut cpu = boot_with(&[0xd3]);
    let before = cpu.to_string();
    run(&mut cpu, 1);
    assert_eq!(cpu.pc(), 0x101);
    assert_eq!(
        cpu.to_string(),
        before.replace("pc: 0100", "pc: 0101")
    );
}

#[test]
fn unknown_opcode_is_an_error() {
    let mut cpu = boot_with(&[0xcb, 0x37]);
    assert!(cpu.can_tick());
    let err = cpu.tick().unwrap_err();
    assert_eq!(err.error_kind(), ErrorKind::UnknownInstruction);
    assert_eq!(err.message(), "Unimplemented opcode cb@0100");
    assert_eq!(cpu.pc(), 0x101);
}

#[test]
fn fetch_then_run_is_a_tick() {
    let mut cpu = boot_with(&[0x06, 0x99, 0x76]);
    let op = cpu.fetch_opcode();
    assert_eq!(op, 0x06);
    assert_eq!(cpu.pc(), 0x101);
    cpu.run_opcode(op).unwrap();
    assert_eq!(cpu.reg8(Reg8::B), 0x99);
    let op = cpu.fetch_opcode();
    let err = cpu.run_opcode(op).unwrap_err();
    assert_eq!(err.message(), "Unimplemented opcode 76@0102");
}

#[test]
fn tick_that_would_overflow_is_refused() {
    // JP ffff: the program counter then cannot move on
    let mut cpu = boot_with(&[0xc3, 0xff, 0xff]);
    run(&mut cpu, 1);
    assert_eq!(cpu.pc(), 0xffff);
    assert!(!cpu.can_tick());
    // RET with the stack pointer at fffe would read past memory
    let cpu = boot_with(&[0xc9]);
    assert!(!cpu.can_tick());
    // CALL with the stack pointer at 0001 has no room to push
    let mut cpu = boot_with(&[0x31, 0x01, 0x00, 0xcd, 0x00, 0x02]);
    run(&mut cpu, 1);
    assert!(!cpu.can_tick());
}

#[test]
fn listing_lines() {
    let mut cpu = Cpu::new();
    cpu.set_mem_range(0, 2, &[0xc3, 0x50, 0x01]);
    assert_eq!(cpu.listing(0).unwrap(), "(c3) JP\ta_0150");
    cpu.set_mem_range(0, 1, &[0x3e, 0x42]);
    assert_eq!(cpu.listing(0).unwrap(), "(3e) LD\tA,d_42");
    cpu.set_mem_range(0, 1, &[0x18, 0xfe]);
    assert_eq!(cpu.listing(0).unwrap(), "(18) JR\tr_fe");
    cpu.set_mem_range(0, 1, &[0xe8, 0xff]);
    assert_eq!(cpu.listing(0).unwrap(), "(e8) ADD\tSP,s_ff");
    cpu.set_mem_range(0, 2, &[0x21, 0x34, 0x12]);
    assert_eq!(cpu.listing(0).unwrap(), "(21) LD\tHL,d_1234");
    cpu.set_mem_range(0, 1, &[0xe0, 0x80]);
    assert_eq!(cpu.listing(0).unwrap(), "(e0) LDH\ta_80,A");
    cpu.set_mem(0, 0xc0);
    assert_eq!(cpu.listing(0).unwrap(), "(c0) RET NZ");
    cpu.set_mem(0, 0x48);
    assert_eq!(cpu.listing(0).unwrap(), "(48) LD\tC,B,");
    cpu.set_mem(0, 0xd3);
    assert_eq!(cpu.listing(0).unwrap(), "(d3) Undefined instruction d3");
    cpu.set_mem(0, 0x8e);
    assert!(cpu.listing(0).is_none());
    cpu.set_mem(0, 0xcb);
    assert!(cpu.listing(0).is_none());
}

#[test]
fn listing_of_current_instruction() {
    let cpu = boot_with(&[0xcd, 0x00, 0x02]);
    assert_eq!(cpu.curr_listing().unwrap(), "(cd) CALL\ta_0200");
}

#[test]
fn listing_past_end_of_memory_is_refused() {
    let mut cpu = Cpu::new();
    cpu.set_mem(0xffff, 0xc3);
    assert!(!cpu.listing_fits(0xffff));
    cpu.set_mem(0xffff, 0x00);
    assert!(cpu.listing_fits(0xffff));
    assert_eq!(cpu.listing(0xffff).unwrap(), "(00) NOP");
    cpu.set_mem(0xfffe, 0x3e);
    assert!(cpu.listing_fits(0xfffe));
    assert_eq!(cpu.listing(0xfffe).unwrap(), "(3e) LD\tA,d_00");
}
