use gbmu::cpu::Cpu;
use gbmu::instructions::{Instruction, RegPairs, Regs};
use gbmu::memory_bus::MemoryBus;
use gbmu::registers::FlagsRegister;

fn test_adds(cpu: &mut Cpu, memory_bus: &mut MemoryBus, init_a_value: u8, expected_res: u8, expected_flag_reg: FlagsRegister) {
    cpu.current_op = Some(Instruction::ADDAs(1, 4, Regs::RegA));
    cpu.registers.a = init_a_value;
    cpu.exec_current_op(memory_bus);
    assert_eq!(cpu.registers.a, expected_res);
    assert_eq!(cpu.registers.f, expected_flag_reg);
}

fn test_sub(cpu: &mut Cpu, memory_bus: &mut MemoryBus, init_a_value: u8, operand: u8, expected_res: u8, expected_flag_reg: FlagsRegister) {
    cpu.current_op = Some(Instruction::SUBs(1, 4, Regs::RegB));
    cpu.registers.a = init_a_value;
    cpu.registers.b = operand;
    cpu.exec_current_op(memory_bus);
    assert_eq!(cpu.registers.a, expected_res);
    assert_eq!(cpu.registers.f, expected_flag_reg);
}

fn test_cps(cpu: &mut Cpu, memory_bus: &mut MemoryBus, init_a_value: u8, operand: u8, expected_flag_reg: FlagsRegister) {
    cpu.current_op = Some(Instruction::CPs(1, 4, Regs::RegB));
    cpu.registers.a = init_a_value;
    cpu.registers.b = operand;
    cpu.exec_current_op(memory_bus);
    assert_eq!(cpu.registers.f, expected_flag_reg);
}

fn test_addhlss(cpu: &mut Cpu, memory_bus: &mut MemoryBus, init_hl_value: u16, expected_res: u16, expected_flag_reg: FlagsRegister) {
    cpu.current_op = Some(Instruction::ADDHLss(1, 8, RegPairs::RegsHL));
    cpu.registers.set_hl_big_endian(init_hl_value);
    cpu.exec_current_op(memory_bus);
    assert_eq!(cpu.registers.get_hl_big_endian(), expected_res);
    assert_eq!(cpu.registers.f, expected_flag_reg);
}

fn test_addspe(cpu: &mut Cpu, memory_bus: &mut MemoryBus, init_sp_value: u16, operand: i8, expected_res: u16, expected_flag_reg: FlagsRegister) {
    cpu.current_op = Some(Instruction::ADDSPe(2, 16));
    cpu.registers.stack_pointer = init_sp_value;
    memory_bus.write_byte(cpu.registers.program_counter, operand as u8);
    cpu.exec_current_op(memory_bus);
    assert_eq!(cpu.registers.stack_pointer, expected_res);
    assert_eq!(cpu.registers.f, expected_flag_reg);
}

fn test_daa(cpu: &mut Cpu, memory_bus: &mut MemoryBus, expected_res: u8, expected_flag_reg: FlagsRegister) {
    cpu.current_op = Some(Instruction::DAA(1, 4));
    cpu.exec_current_op(memory_bus);
    assert_eq!(cpu.registers.a, expected_res);
    assert_eq!(cpu.registers.f, expected_flag_reg);
}

fn flags(zero: bool, substract: bool, half_carry: bool, carry: bool) -> FlagsRegister {
    FlagsRegister { zero, substract, half_carry, carry }
}

#[test]
fn test_arith() {
    let mut memory_bus = MemoryBus::new(None, false);
    let mut my_cpu = Cpu::new();
    my_cpu.registers.program_counter = 0xC000;
    test_adds(&mut my_cpu, &mut memory_bus, 0x12, 0x24, 0x00.into());
    test_adds(&mut my_cpu, &mut memory_bus, 0x80, 0x00, FlagsRegister { zero: true, substract: false, half_carry: false, carry: true });
    test_adds(&mut my_cpu, &mut memory_bus, 0xF1, 0xE2, FlagsRegister { zero: false, substract: false, half_carry: false, carry: true });
    test_adds(&mut my_cpu, &mut memory_bus, 0xFF, 0xFE, FlagsRegister { zero: false, substract: false, half_carry: true, carry: true });
    test_sub(&mut my_cpu, &mut memory_bus, 0xFF, 0x10, 0xEF, FlagsRegister { zero: false, substract: true, half_carry: false, carry: false });
    test_sub(&mut my_cpu, &mut memory_bus, 0xFF, 0xFF, 0x00, FlagsRegister { zero: true, substract: true, half_carry: false, carry: false });
    test_sub(&mut my_cpu, &mut memory_bus, 0xF1, 0x0F, 0xE2, FlagsRegister { zero: false, substract: true, half_carry: true, carry: false });
    test_sub(&mut my_cpu, &mut memory_bus, 0x10, 0x20, 0xF0, FlagsRegister { zero: false, substract: true, half_carry: false, carry: true });
    test_sub(&mut my_cpu, &mut memory_bus, 0x10, 0x21, 0xEF, FlagsRegister { zero: false, substract: true, half_carry: true, carry: true });
    test_cps(&mut my_cpu, &mut memory_bus, 0xFF, 0x10, FlagsRegister { zero: false, substract: true, half_carry: false, carry: false });
    test_cps(&mut my_cpu, &mut memory_bus, 0xFF, 0xFF, FlagsRegister { zero: true, substract: true, half_carry: false, carry: false });
    test_cps(&mut my_cpu, &mut memory_bus, 0xF1, 0x0F, FlagsRegister { zero: false, substract: true, half_carry: true, carry: false });
    test_cps(&mut my_cpu, &mut memory_bus, 0x10, 0x20, FlagsRegister { zero: false, substract: true, half_carry: false, carry: true });
    test_cps(&mut my_cpu, &mut memory_bus, 0x10, 0x21, FlagsRegister { zero: false, substract: true, half_carry: true, carry: true });

    test_addhlss(&mut my_cpu, &mut memory_bus, 0x8A23, 0x1446, FlagsRegister { zero: false, substract: false, half_carry: true, carry: true });
    test_addhlss(&mut my_cpu, &mut memory_bus, 0x0000, 0x0000, FlagsRegister { zero: false, substract: false, half_carry: false, carry: false });
    test_addspe(&mut my_cpu, &mut memory_bus, 0xFFF8, 0x02, 0xFFFA, FlagsRegister { zero: false, substract: false, half_carry: false, carry: false });
    test_addspe(&mut my_cpu, &mut memory_bus, 0xFF88, 0x0F, 0xFF97, FlagsRegister { zero: false, substract: false, half_carry: true, carry: false });
    test_addspe(&mut my_cpu, &mut memory_bus, 0xF8D8, 0x2F, 0xF907, FlagsRegister { zero: false, substract: false, half_carry: true, carry: true });
    test_addspe(&mut my_cpu, &mut memory_bus, 0xF8D8, -0x24, 0xF8B4, FlagsRegister { zero: false, substract: false, half_carry: true, carry: true });

    test_adds(&mut my_cpu, &mut memory_bus, 0x45, 0x8A, FlagsRegister { zero: false, substract: false, half_carry: false, carry: false });
    test_daa(&mut my_cpu, &mut memory_bus, 0x90, FlagsRegister { zero: false, substract: false, half_carry: false, carry: false });
    test_adds(&mut my_cpu, &mut memory_bus, 0x91, 0x22, FlagsRegister { zero: false, substract: false, half_carry: false, carry: true });
    test_daa(&mut my_cpu, &mut memory_bus, 0x82, FlagsRegister { zero: false, substract: false, half_carry: false, carry: true });
    test_sub(&mut my_cpu, &mut memory_bus, 0x83, 0x38, 0x4B, FlagsRegister { zero: false, substract: true, half_carry: true, carry: false });
    test_daa(&mut my_cpu, &mut memory_bus, 0x45, FlagsRegister { zero: false, substract: true, half_carry: false, carry: false });
}

#[test]
fn add_a_b_sets_all_flags() {
    let mut bus = MemoryBus::new(None, false);
    let mut cpu = Cpu::new();
    cpu.registers.a = 0xF1;
    cpu.registers.b = 0x0F;
    cpu.current_op = Some(Instruction::ADDAs(1, 4, Regs::RegB));
    cpu.exec_current_op(&mut bus);
    assert_eq!(cpu.registers.a, 0x00);
    assert_eq!(cpu.registers.f, flags(true, false, true, true));
}

#[test]
fn daa_after_add() {
    let mut bus = MemoryBus::new(None, false);
    let mut cpu = Cpu::new();
    cpu.registers.a = 0x45;
    cpu.registers.b = 0x38;
    cpu.current_op = Some(Instruction::ADDAs(1, 4, Regs::RegB));
    cpu.exec_current_op(&mut bus);
    assert_eq!(cpu.registers.a, 0x7D);
    assert!(!cpu.registers.f.half_carry);
    cpu.current_op = Some(Instruction::DAA(1, 4));
    cpu.exec_current_op(&mut bus);
    assert_eq!(cpu.registers.a, 0x83);
    assert_eq!(cpu.registers.f, flags(false, false, false, false));
}

#[test]
fn add_sub_cp_restores_a() {
    let mut bus = MemoryBus::new(None, false);
    for &(a, s) in &[(0x12u8, 0x34u8), (0xF0, 0x20), (0x00, 0xFF), (0x80, 0x80)] {
        let mut cpu = Cpu::new();
        cpu.registers.a = a;
        cpu.registers.b = s;
        cpu.current_op = Some(Instruction::CPs(1, 4, Regs::RegB));
        cpu.exec_current_op(&mut bus);
        let cp_flags = cpu.registers.f;
        cpu.current_op = Some(Instruction::ADDAs(1, 4, Regs::RegB));
        cpu.exec_current_op(&mut bus);
        cpu.current_op = Some(Instruction::SUBs(1, 4, Regs::RegB));
        cpu.exec_current_op(&mut bus);
        assert_eq!(cpu.registers.a, a);
        cpu.current_op = Some(Instruction::CPs(1, 4, Regs::RegB));
        cpu.exec_current_op(&mut bus);
        assert_eq!(cpu.registers.a, a);
        assert_eq!(cpu.registers.f, cp_flags);
    }
}

#[test]
fn push_pop_is_identity() {
    let mut bus = MemoryBus::new(None, false);
    let mut cpu = Cpu::new();
    cpu.registers.stack_pointer = 0xFFFE;
    cpu.registers.set_bc_big_endian(0xBEEF);
    cpu.current_op = Some(Instruction::PUSH(1, 16, RegPairs::RegsBC));
    cpu.exec_current_op(&mut bus);
    assert_eq!(cpu.registers.stack_pointer, 0xFFFC);
    cpu.registers.set_bc_big_endian(0x0000);
    cpu.current_op = Some(Instruction::POP(1, 12, RegPairs::RegsBC));
    cpu.exec_current_op(&mut bus);
    assert_eq!(cpu.registers.get_bc_big_endian(), 0xBEEF);
    assert_eq!(cpu.registers.stack_pointer, 0xFFFE);
}

#[test]
fn interrupt_dispatch() {
    let mut bus = MemoryBus::new(None, false);
    let mut cpu = Cpu::new();
    bus.write_byte(0xFFFF, 0x01);
    bus.write_byte(0xFF0F, 0x01);
    cpu.ime_set = true;
    cpu.registers.program_counter = 0x1000;
    cpu.registers.stack_pointer = 0xFFFE;
    cpu.next_op = Some(Instruction::NOP(1, 4));
    assert_eq!(cpu.tick(&mut bus), Ok(4));
    assert_eq!(cpu.next_op, Some(Instruction::ISR(0, 20)));
    assert_eq!(cpu.tick(&mut bus), Ok(20));
    assert_eq!(bus.read_byte(0xFFFD), 0x10);
    assert_eq!(bus.read_byte(0xFFFC), 0x00);
    assert_eq!(cpu.registers.stack_pointer, 0xFFFC);
    assert!(!cpu.ime_set);
    assert_eq!(bus.read_byte(0xFF0F) & 0x01, 0);
    // the handler's first opcode has been fetched from 0x0040
    assert_eq!(cpu.registers.program_counter, 0x0041);
}

#[test]
fn conditional_jump_cycles() {
    let mut bus = MemoryBus::new(None, false);
    let mut cpu = Cpu::new();
    cpu.registers.program_counter = 0xC000;
    bus.write_byte(0xC000, 0x05);
    cpu.registers.f.zero = true;
    cpu.next_op = Some(Instruction::JRf(2, 8, gbmu::instructions::JumpCondition::Zero));
    assert_eq!(cpu.tick(&mut bus), Ok(12));
    let mut cpu = Cpu::new();
    cpu.registers.program_counter = 0xC000;
    cpu.registers.f.zero = false;
    cpu.next_op = Some(Instruction::JRf(2, 8, gbmu::instructions::JumpCondition::Zero));
    assert_eq!(cpu.tick(&mut bus), Ok(8));
}

#[test]
fn unknown_opcode_traps() {
    let mut bus = MemoryBus::new(None, false);
    let mut cpu = Cpu::new();
    cpu.next_op = None;
    assert!(cpu.tick(&mut bus).is_err());
    assert_eq!(Instruction::decode_primary(0xD3), None);
    assert_eq!(Instruction::decode_primary(0x00), Some(Instruction::NOP(1, 4)));
    assert_eq!(Instruction::from_cb_opcode(0x46), Some(Instruction::BIT(2, 12, 0, Regs::HLPointee)));
    assert_eq!(Instruction::from_cb_opcode(0xFF), Some(Instruction::SET(2, 8, 7, Regs::RegA)));
}

#[test]
fn call_then_return() {
    let mut bus = MemoryBus::new(None, false);
    let mut cpu = Cpu::new();
    cpu.registers.program_counter = 0xC000;
    cpu.registers.stack_pointer = 0xFFFE;
    bus.write_byte(0xC000, 0x34);
    bus.write_byte(0xC001, 0x12);
    cpu.execute_op(&mut bus, Instruction::CALL(3, 24));
    assert_eq!(cpu.registers.program_counter, 0x1234);
    assert_eq!(cpu.registers.stack_pointer, 0xFFFC);
    assert_eq!(bus.read_byte(0xFFFD), 0xC0);
    assert_eq!(bus.read_byte(0xFFFC), 0x02);
    cpu.execute_op(&mut bus, Instruction::RET(1, 16));
    assert_eq!(cpu.registers.program_counter, 0xC002);
    assert_eq!(cpu.registers.stack_pointer, 0xFFFE);
}

#[test]
fn restart_pushes_pc() {
    let mut bus = MemoryBus::new(None, false);
    let mut cpu = Cpu::new();
    cpu.registers.program_counter = 0xC123;
    cpu.registers.stack_pointer = 0xD000;
    cpu.execute_op(&mut bus, Instruction::RST(1, 16, gbmu::instructions::ResetLocation::Hex38));
    assert_eq!(cpu.registers.program_counter, 0x0038);
    assert_eq!(cpu.registers.stack_pointer, 0xCFFE);
    assert_eq!(bus.read_byte(0xCFFF), 0xC1);
    assert_eq!(bus.read_byte(0xCFFE), 0x23);
}

#[test]
fn loads_through_registers_and_memory() {
    let mut bus = MemoryBus::new(None, false);
    let mut cpu = Cpu::new();
    cpu.registers.program_counter = 0xC000;
    bus.write_byte(0xC000, 0x42);
    cpu.execute_op(&mut bus, Instruction::LD(2, 8, Regs::RegB, Regs::ByteFromPC));
    assert_eq!(cpu.registers.b, 0x42);
    assert_eq!(cpu.registers.program_counter, 0xC001);
    cpu.registers.set_hl_big_endian(0xC800);
    cpu.registers.a = 0x99;
    cpu.execute_op(&mut bus, Instruction::LDI(1, 8, Regs::HLPointee, Regs::RegA));
    assert_eq!(bus.read_byte(0xC800), 0x99);
    assert_eq!(cpu.registers.get_hl_big_endian(), 0xC801);
    cpu.execute_op(&mut bus, Instruction::LDD(1, 8, Regs::RegA, Regs::HLPointee));
    assert_eq!(cpu.registers.a, 0x00);
    assert_eq!(cpu.registers.get_hl_big_endian(), 0xC800);
    assert_eq!(cpu.registers.get_hl_pointee(&bus), 0x99);
}

#[test]
fn cb_page_on_register_and_memory() {
    let mut bus = MemoryBus::new(None, false);
    let mut cpu = Cpu::new();
    cpu.registers.c = 0xF0;
    cpu.execute_op(&mut bus, Instruction::SWAP(2, 8, Regs::RegC));
    assert_eq!(cpu.registers.c, 0x0F);
    assert!(!cpu.registers.f.zero);
    cpu.execute_op(&mut bus, Instruction::BIT(2, 8, 7, Regs::RegC));
    assert!(cpu.registers.f.zero);
    assert!(cpu.registers.f.half_carry);
    cpu.registers.set_hl_big_endian(0xC010);
    cpu.execute_op(&mut bus, Instruction::SET(2, 16, 3, Regs::HLPointee));
    assert_eq!(bus.read_byte(0xC010), 0x08);
    cpu.execute_op(&mut bus, Instruction::RLC(2, 16, Regs::HLPointee));
    assert_eq!(bus.read_byte(0xC010), 0x10);
    cpu.execute_op(&mut bus, Instruction::RES(2, 16, 4, Regs::HLPointee));
    assert_eq!(bus.read_byte(0xC010), 0x00);
}

#[test]
fn halt_waits_for_interrupt() {
    let mut bus = MemoryBus::new(None, false);
    let mut cpu = Cpu::new();
    cpu.registers.program_counter = 0xC000;
    cpu.next_op = Some(Instruction::HALT(1, 4));
    assert_eq!(cpu.tick(&mut bus), Ok(4));
    let pc = cpu.registers.program_counter;
    assert_eq!(cpu.tick(&mut bus), Ok(4));
    assert_eq!(cpu.registers.program_counter, pc);
    bus.write_byte(0xFFFF, 0x04);
    bus.write_byte(0xFF0F, 0x04);
    cpu.tick(&mut bus).unwrap();
    assert_ne!(cpu.registers.program_counter, pc);
}
