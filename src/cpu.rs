use vstd::prelude::*;
use crate::alu;
use crate::alu::{add_spec, sub_spec, and_spec, or_spec, xor_spec};
use crate::instructions::{Instruction, Regs, RegPairs, JumpCondition, ResetLocation, primary_decode, cb_decode};
use crate::memory_bus::MemoryBus;
use crate::registers::{FlagsRegister, Registers, pair};

verus! {

#[derive(Debug, Clone, Copy, PartialEq, Eq, Structural)]
pub enum CpuState {
    Running,
    Halted,
    Stopped,
}

/// The fatal trap: an unmapped opcode, and the address it was fetched from.
#[derive(Debug, Clone, Copy, PartialEq, Eq, Structural)]
pub enum CpuError {
    UnknownOpcode(u8, u16),
}

/// The SM83 core. It overlaps fetch and execute: each tick executes the
/// instruction fetched by the previous tick, then fetches the next one.
pub struct Cpu {
    pub registers: Registers,
    pub current_op: Option<Instruction>,
    pub next_op: Option<Instruction>,
    pub ime_scheduled: bool,
    pub ime_set: bool,
    pub state: CpuState,
}

pub open spec fn wrap16(v: int) -> u16 {
    (((v % 65536) + 65536) % 65536) as u16
}

/// Little-endian word at `addr` as the bus reads it.
pub open spec fn read16(bus: MemoryBus, addr: u16) -> u16 {
    pair(bus.read_spec(wrap16(addr + 1)), bus.read_spec(addr))
}

/// Bytes of immediate data that an operand takes from the instruction stream.
pub open spec fn operand_len(r: Regs) -> int {
    match r {
        Regs::BytesFromPCPointee => 2,
        Regs::UpperRamOffsetFromPC => 1,
        Regs::ByteFromPC => 1,
        _ => 0,
    }
}

/// Address of a memory operand.
pub open spec fn operand_address(regs: Registers, bus: MemoryBus, r: Regs) -> u16 {
    match r {
        Regs::HLPointee => regs.hl(),
        Regs::BCPointee => regs.bc(),
        Regs::DEPointee => regs.de(),
        Regs::BytesFromPCPointee => read16(bus, regs.program_counter),
        Regs::UpperRamOffsetFromPC => (0xFF00 + bus.read_spec(regs.program_counter) as int) as u16,
        Regs::UpperRamOffsetFromRegC => (0xFF00 + regs.c as int) as u16,
        _ => regs.program_counter,
    }
}

pub open spec fn is_register(r: Regs) -> bool {
    match r {
        Regs::RegA | Regs::RegB | Regs::RegC | Regs::RegD | Regs::RegE | Regs::RegH | Regs::RegL => true,
        _ => false,
    }
}

/// Value of an 8-bit operand.
pub open spec fn operand_spec(regs: Registers, bus: MemoryBus, r: Regs) -> u8 {
    match r {
        Regs::RegA => regs.a,
        Regs::RegB => regs.b,
        Regs::RegC => regs.c,
        Regs::RegD => regs.d,
        Regs::RegE => regs.e,
        Regs::RegH => regs.h,
        Regs::RegL => regs.l,
        Regs::ByteFromPC => bus.read_spec(regs.program_counter),
        _ => bus.read_spec(operand_address(regs, bus, r)),
    }
}

/// Registers with an 8-bit register operand set.
pub open spec fn with_register(regs: Registers, r: Regs, v: u8) -> Registers {
    match r {
        Regs::RegA => Registers { a: v, ..regs },
        Regs::RegB => Registers { b: v, ..regs },
        Regs::RegC => Registers { c: v, ..regs },
        Regs::RegD => Registers { d: v, ..regs },
        Regs::RegE => Registers { e: v, ..regs },
        Regs::RegH => Registers { h: v, ..regs },
        Regs::RegL => Registers { l: v, ..regs },
        _ => regs,
    }
}

pub open spec fn advance(regs: Registers, n: int) -> Registers {
    Registers { program_counter: wrap16(regs.program_counter + n), ..regs }
}

pub open spec fn cond_holds(f: FlagsRegister, c: JumpCondition) -> bool {
    match c {
        JumpCondition::NotZero => !f.zero,
        JumpCondition::Zero => f.zero,
        JumpCondition::NotCarry => !f.carry,
        JumpCondition::Carry => f.carry,
    }
}

/// The cycle count that an instruction carries.
pub open spec fn instr_cycles(i: Instruction) -> u8 {
    match i {
        Instruction::LD(_, c, _, _) | Instruction::LDI(_, c, _, _) | Instruction::LDD(_, c, _, _) => c,
        Instruction::LD16(_, c, _, _) => c,
        Instruction::PUSH(_, c, _) | Instruction::POP(_, c, _) => c,
        Instruction::ADDAs(_, c, _) | Instruction::ADCAs(_, c, _) | Instruction::SUBs(_, c, _)
        | Instruction::SBCAs(_, c, _) | Instruction::ANDs(_, c, _) | Instruction::XORs(_, c, _)
        | Instruction::ORs(_, c, _) | Instruction::CPs(_, c, _) | Instruction::INCs(_, c, _)
        | Instruction::DECs(_, c, _) => c,
        Instruction::DAA(_, c) | Instruction::CPL(_, c) => c,
        Instruction::ADDHLss(_, c, _) | Instruction::INCss(_, c, _) | Instruction::DECss(_, c, _) => c,
        Instruction::ADDSPe(_, c) | Instruction::LDHLSPe(_, c) => c,
        Instruction::RLCA(_, c) | Instruction::RLA(_, c) | Instruction::RRCA(_, c) | Instruction::RRA(_, c) => c,
        Instruction::RLC(_, c, _) | Instruction::RL(_, c, _) | Instruction::RRC(_, c, _) | Instruction::RR(_, c, _)
        | Instruction::SLA(_, c, _) | Instruction::SWAP(_, c, _) | Instruction::SRA(_, c, _)
        | Instruction::SRL(_, c, _) => c,
        Instruction::BIT(_, c, _, _) | Instruction::SET(_, c, _, _) | Instruction::RES(_, c, _, _) => c,
        Instruction::CCF(_, c) | Instruction::SCF(_, c) | Instruction::NOP(_, c) | Instruction::HALT(_, c)
        | Instruction::STOP(_, c) | Instruction::DI(_, c) | Instruction::EI(_, c) => c,
        Instruction::JPnn(_, c) | Instruction::JPHL(_, c) | Instruction::JR(_, c) | Instruction::CALL(_, c)
        | Instruction::ISR(_, c) | Instruction::RET(_, c) | Instruction::RETI(_, c) => c,
        Instruction::JPfnn(_, c, _) | Instruction::JRf(_, c, _) | Instruction::CALLf(_, c, _)
        | Instruction::RETf(_, c, _) => c,
        Instruction::RST(_, c, _) => c,
    }
}

/// Whether a conditional branch is taken under flags `f`.
pub open spec fn branch_taken(i: Instruction, f: FlagsRegister) -> bool {
    match i {
        Instruction::JPfnn(_, _, c) | Instruction::JRf(_, _, c) | Instruction::CALLf(_, _, c)
        | Instruction::RETf(_, _, c) => cond_holds(f, c),
        _ => false,
    }
}

/// A conditional branch with its taken cycle count: JP 16, JR 12, CALL 24, RET 20.
pub open spec fn taken_form(i: Instruction) -> Instruction {
    match i {
        Instruction::JPfnn(l, _, c) => Instruction::JPfnn(l, 16, c),
        Instruction::JRf(l, _, c) => Instruction::JRf(l, 12, c),
        Instruction::CALLf(l, _, c) => Instruction::CALLf(l, 24, c),
        Instruction::RETf(l, _, c) => Instruction::RETf(l, 20, c),
        _ => i,
    }
}

/// The T-cycles that executing `i` under flags `f` takes.
pub open spec fn executed_cycles(i: Instruction, f: FlagsRegister) -> u8 {
    if branch_taken(i, f) { instr_cycles(taken_form(i)) } else { instr_cycles(i) }
}

/// The instructions that combine A with an 8-bit operand.
pub open spec fn alu_a_operand(i: Instruction) -> Option<Regs> {
    match i {
        Instruction::ADDAs(_, _, s) | Instruction::ADCAs(_, _, s) | Instruction::SUBs(_, _, s)
        | Instruction::SBCAs(_, _, s) | Instruction::ANDs(_, _, s) | Instruction::XORs(_, _, s)
        | Instruction::ORs(_, _, s) | Instruction::CPs(_, _, s) => Some(s),
        _ => None,
    }
}

/// A and the flags after an A-operand ALU instruction with operand value v.
pub open spec fn alu_a_spec(i: Instruction, a: u8, v: u8, f: FlagsRegister) -> (u8, FlagsRegister) {
    match i {
        Instruction::ADDAs(_, _, _) => add_spec(a, v, false),
        Instruction::ADCAs(_, _, _) => add_spec(a, v, f.carry),
        Instruction::SUBs(_, _, _) => sub_spec(a, v, false),
        Instruction::SBCAs(_, _, _) => sub_spec(a, v, f.carry),
        Instruction::ANDs(_, _, _) => and_spec(a, v),
        Instruction::XORs(_, _, _) => xor_spec(a, v),
        Instruction::ORs(_, _, _) => or_spec(a, v),
        _ => (a, sub_spec(a, v, false).1),
    }
}

/// A register pair's value.
pub open spec fn pair_value(regs: Registers, p: RegPairs) -> u16 {
    match p {
        RegPairs::RegsAF => regs.af(),
        RegPairs::RegsBC => regs.bc(),
        RegPairs::RegsDE => regs.de(),
        RegPairs::RegsHL => regs.hl(),
        _ => regs.stack_pointer,
    }
}

/// Registers with pair p (BC, DE, HL or SP) set to v, big-endian.
pub open spec fn with_pair(r: Registers, p: RegPairs, v: u16) -> Registers {
    match p {
        RegPairs::RegsBC => Registers { b: (v / 256) as u8, c: (v % 256) as u8, ..r },
        RegPairs::RegsDE => Registers { d: (v / 256) as u8, e: (v % 256) as u8, ..r },
        RegPairs::RegsHL => Registers { h: (v / 256) as u8, l: (v % 256) as u8, ..r },
        RegPairs::RegSP => Registers { stack_pointer: v, ..r },
        _ => r,
    }
}

pub open spec fn is_stack_pair(p: RegPairs) -> bool {
    match p {
        RegPairs::RegsAF | RegPairs::RegsBC | RegPairs::RegsDE | RegPairs::RegsHL => true,
        _ => false,
    }
}

/// The single-bit mask of BIT/SET/RES index n.
pub open spec fn bit_mask(n: u8) -> u8 {
    if n < 8 { 1u8 << n } else { 0 }
}

/// The operand of INC, DEC and the CB-page instructions.
pub open spec fn unary_target(i: Instruction) -> Option<Regs> {
    match i {
        Instruction::INCs(_, _, t) | Instruction::DECs(_, _, t) | Instruction::RLC(_, _, t) | Instruction::RL(_, _, t)
        | Instruction::RRC(_, _, t) | Instruction::RR(_, _, t) | Instruction::SLA(_, _, t) | Instruction::SWAP(_, _, t)
        | Instruction::SRA(_, _, t) | Instruction::SRL(_, _, t) | Instruction::BIT(_, _, _, t)
        | Instruction::SET(_, _, _, t) | Instruction::RES(_, _, _, t) => Some(t),
        _ => None,
    }
}

pub open spec fn shifted(r: (u8, bool)) -> (u8, FlagsRegister) {
    (r.0, crate::alu::flags(r.0 == 0, false, false, r.1))
}

/// The value written back and the flags after INC, DEC or a CB-page
/// instruction on operand value v (BIT writes nothing back).
pub open spec fn unary_spec(i: Instruction, v: u8, f: FlagsRegister) -> (u8, FlagsRegister) {
    match i {
        Instruction::INCs(_, _, _) => crate::alu::inc_spec(v, f),
        Instruction::DECs(_, _, _) => crate::alu::dec_spec(v, f),
        Instruction::RLC(_, _, _) => shifted(crate::alu::rlc_spec(v)),
        Instruction::RL(_, _, _) => shifted(crate::alu::rl_spec(v, f.carry)),
        Instruction::RRC(_, _, _) => shifted(crate::alu::rrc_spec(v)),
        Instruction::RR(_, _, _) => shifted(crate::alu::rr_spec(v, f.carry)),
        Instruction::SLA(_, _, _) => shifted(crate::alu::sla_spec(v)),
        Instruction::SRA(_, _, _) => shifted(crate::alu::sra_spec(v)),
        Instruction::SRL(_, _, _) => shifted(crate::alu::srl_spec(v)),
        Instruction::SWAP(_, _, _) => {
            let r = crate::alu::swap_spec(v);
            (r, crate::alu::flags(r == 0, false, false, false))
        },
        Instruction::BIT(_, _, n, _) => (v, crate::alu::flags(v & bit_mask(n) == 0, false, true, f.carry)),
        Instruction::SET(_, _, n, _) => (v | bit_mask(n), f),
        _ => match i {
            Instruction::RES(_, _, n, _) => (v & !bit_mask(n), f),
            _ => (v, f),
        },
    }
}

/// The effect of INC, DEC and the CB page on a register or on (HL).
pub open spec fn unary_post(i: Instruction, o: Cpu, n: Cpu, ob: MemoryBus, nb: MemoryBus) -> bool {
    match unary_target(i) {
        Some(t) => {
            let out = unary_spec(i, operand_spec(o.registers, ob, t), o.registers.f);
            &&& is_register(t) ==> nb == ob && n == (Cpu {
                registers: with_register(Registers { f: out.1, ..o.registers }, t, out.0),
                ..o
            })
            &&& t == Regs::HLPointee ==> n == (Cpu { registers: Registers { f: out.1, ..o.registers }, ..o }) && (if i is BIT {
                nb == ob
            } else {
                MemoryBus::write_spec(ob, nb, o.registers.hl(), out.0)
            })
        },
        None => true,
    }
}

/// Jump targets of RST.
pub open spec fn reset_address(l: ResetLocation) -> u16 {
    match l {
        ResetLocation::Hex00 => 0x00,
        ResetLocation::Hex08 => 0x08,
        ResetLocation::Hex10 => 0x10,
        ResetLocation::Hex18 => 0x18,
        ResetLocation::Hex20 => 0x20,
        ResetLocation::Hex28 => 0x28,
        ResetLocation::Hex30 => 0x30,
        ResetLocation::Hex38 => 0x38,
    }
}

/// The registers with a new PC and SP.
pub open spec fn moved(r: Registers, pc: u16, sp: u16) -> Registers {
    Registers { program_counter: pc, stack_pointer: sp, ..r }
}

/// The bus after pushing `v`: high byte at SP-1, then low byte at SP-2.
pub open spec fn pushed(ob: MemoryBus, nb: MemoryBus, sp: u16, v: u16) -> bool {
    exists|mid: MemoryBus|
        #[trigger] MemoryBus::write_spec(ob, mid, wrap16(sp - 1), (v / 256) as u8) && MemoryBus::write_spec(
            mid,
            nb,
            wrap16(sp - 2),
            (v % 256) as u8,
        )
}

/// JP and JR: PC moves to the target when the condition holds (always for
/// the unconditional forms), else past the operand.
pub open spec fn jump_post(i: Instruction, o: Cpu, n: Cpu, ob: MemoryBus, nb: MemoryBus) -> bool {
    let pc = o.registers.program_counter;
    let sp = o.registers.stack_pointer;
    let f = o.registers.f;
    let jr_target = relative_spec(wrap16(pc + 1), ob.read_spec(pc));
    match i {
        Instruction::JPnn(_, _) => nb == ob && n.registers == moved(o.registers, read16(ob, pc), sp),
        Instruction::JPHL(_, _) => nb == ob && n.registers == moved(o.registers, o.registers.hl(), sp),
        Instruction::JPfnn(_, _, c) => nb == ob && n.registers == moved(
            o.registers,
            if cond_holds(f, c) { read16(ob, pc) } else { wrap16(pc + 2) },
            sp,
        ),
        Instruction::JR(_, _) => nb == ob && n.registers == moved(o.registers, jr_target, sp),
        Instruction::JRf(_, _, c) => nb == ob && n.registers == moved(
            o.registers,
            if cond_holds(f, c) { jr_target } else { wrap16(pc + 1) },
            sp,
        ),
        _ => true,
    }
}

/// CALL, RST and the interrupt dispatch push PC (after the operand) and jump;
/// the dispatch goes to 0x40 + 8 * the lowest requested enabled interrupt and
/// clears IME.
pub open spec fn call_post(i: Instruction, o: Cpu, n: Cpu, ob: MemoryBus, nb: MemoryBus) -> bool {
    let pc = o.registers.program_counter;
    let sp = o.registers.stack_pointer;
    let f = o.registers.f;
    match i {
        Instruction::CALL(_, _) => pushed(ob, nb, sp, wrap16(pc + 2)) && n.registers == moved(
            o.registers,
            read16(ob, pc),
            wrap16(sp - 2),
        ),
        Instruction::CALLf(_, _, c) => if cond_holds(f, c) {
            pushed(ob, nb, sp, wrap16(pc + 2)) && n.registers == moved(o.registers, read16(ob, pc), wrap16(sp - 2))
        } else {
            nb == ob && n.registers == moved(o.registers, wrap16(pc + 2), sp)
        },
        Instruction::RST(_, _, l) => pushed(ob, nb, sp, pc) && n.registers == moved(
            o.registers,
            reset_address(l),
            wrap16(sp - 2),
        ),
        Instruction::ISR(_, _) => {
            let b = lowest_set_bit_spec(ob.interrupt_enable & ob.interrupt_flag());
            &&& !n.ime_set
            &&& n.registers == moved(o.registers, (0x40 + 8 * b as int) as u16, wrap16(sp - 2))
            &&& exists|m: MemoryBus|
                #[trigger] MemoryBus::write_spec(ob, m, 0xFF0F, ob.interrupt_flag() & !bit_mask(b)) && pushed(
                    m,
                    nb,
                    sp,
                    pc,
                )
        },
        _ => true,
    }
}

/// RET and RETI pop PC (RETI also sets IME); RET cc does when its condition holds.
pub open spec fn return_post(i: Instruction, o: Cpu, n: Cpu, ob: MemoryBus, nb: MemoryBus) -> bool {
    let sp = o.registers.stack_pointer;
    let popped = moved(o.registers, read16(ob, sp), wrap16(sp + 2));
    match i {
        Instruction::RET(_, _) => nb == ob && n.registers == popped,
        Instruction::RETI(_, _) => nb == ob && n.registers == popped && n.ime_set,
        Instruction::RETf(_, _, c) => nb == ob && n.registers == (if cond_holds(o.registers.f, c) {
            popped
        } else {
            o.registers
        }),
        _ => true,
    }
}

/// Registers and bus after `LD target, src`: the source is read first (an
/// immediate source steps PC), then the target is written.
pub open spec fn ld_post(o: Registers, n: Registers, ob: MemoryBus, nb: MemoryBus, target: Regs, src: Regs) -> bool {
    let v = operand_spec(o, ob, src);
    let r1 = advance(o, operand_len(src));
    if is_register(target) {
        nb == ob && n == with_register(r1, target, v)
    } else if target == Regs::ByteFromPC {
        nb == ob && n == r1
    } else {
        MemoryBus::write_spec(ob, nb, operand_address(r1, ob, target), v) && n == advance(r1, operand_len(target))
    }
}

/// The loads: LD; LDI and LDD, which then step HL up or down; LD HL,SP+e.
pub open spec fn load_post(i: Instruction, o: Cpu, n: Cpu, ob: MemoryBus, nb: MemoryBus) -> bool {
    match i {
        Instruction::LD(_, _, t, s) => ld_post(o.registers, n.registers, ob, nb, t, s),
        Instruction::LDI(_, _, t, s) => exists|mid: Registers|
            #[trigger] ld_post(o.registers, mid, ob, nb, t, s) && n.registers == (Registers {
                h: n.registers.h,
                l: n.registers.l,
                ..mid
            }) && n.registers.hl() == wrap16(mid.hl() + 1),
        Instruction::LDD(_, _, t, s) => exists|mid: Registers|
            #[trigger] ld_post(o.registers, mid, ob, nb, t, s) && n.registers == (Registers {
                h: n.registers.h,
                l: n.registers.l,
                ..mid
            }) && n.registers.hl() == wrap16(mid.hl() - 1),
        Instruction::LD16(_, _, t, RegPairs::BytesFromPC) => (is_stack_pair(t) && t != RegPairs::RegsAF) || t
            == RegPairs::RegSP ==> nb == ob && n.registers == with_pair(
            advance(o.registers, 2),
            t,
            read16(ob, o.registers.program_counter),
        ),
        Instruction::LD16(_, _, RegPairs::BytesFromPCPointee, RegPairs::RegSP) => {
            let at = read16(ob, o.registers.program_counter);
            &&& n.registers == advance(o.registers, 2)
            &&& exists|mid: MemoryBus|
                #[trigger] MemoryBus::write_spec(ob, mid, at, (o.registers.stack_pointer % 256) as u8) && MemoryBus::write_spec(
                    mid,
                    nb,
                    wrap16(at + 1),
                    (o.registers.stack_pointer / 256) as u8,
                )
        },
        Instruction::LD16(_, _, RegPairs::RegSP, RegPairs::RegsHL) => nb == ob && n.registers == (Registers {
            stack_pointer: o.registers.hl(),
            ..o.registers
        }),
        Instruction::LDHLSPe(_, _) => {
            let out = crate::alu::add_sp_spec(o.registers.stack_pointer, ob.read_spec(o.registers.program_counter));
            nb == ob && n.registers.hl() == out.0 && n.registers.f == out.1 && n.registers.program_counter == wrap16(
                o.registers.program_counter + 1,
            ) && n.registers.stack_pointer == o.registers.stack_pointer
        },
        _ => true,
    }
}

/// A and the flags after CPL, CCF, SCF and the A rotations (which clear Z);
/// HL after ADD HL,rr; SP after ADD SP,e.
pub open spec fn arith_post(i: Instruction, o: Cpu, n: Cpu, ob: MemoryBus, nb: MemoryBus) -> bool {
    let a = o.registers.a;
    let f = o.registers.f;
    let with_af = |na: u8, nf: FlagsRegister| nb == ob && n.registers == (Registers { a: na, f: nf, ..o.registers });
    match i {
        Instruction::CPL(_, _) => with_af(!a, crate::alu::flags(f.zero, true, true, f.carry)),
        Instruction::CCF(_, _) => with_af(a, crate::alu::flags(f.zero, false, false, !f.carry)),
        Instruction::SCF(_, _) => with_af(a, crate::alu::flags(f.zero, false, false, true)),
        Instruction::RLCA(_, _) => with_af(crate::alu::rlc_spec(a).0, crate::alu::flags(false, false, false, crate::alu::rlc_spec(a).1)),
        Instruction::RLA(_, _) => with_af(crate::alu::rl_spec(a, f.carry).0, crate::alu::flags(false, false, false, crate::alu::rl_spec(a, f.carry).1)),
        Instruction::RRCA(_, _) => with_af(crate::alu::rrc_spec(a).0, crate::alu::flags(false, false, false, crate::alu::rrc_spec(a).1)),
        Instruction::RRA(_, _) => with_af(crate::alu::rr_spec(a, f.carry).0, crate::alu::flags(false, false, false, crate::alu::rr_spec(a, f.carry).1)),
        Instruction::ADDHLss(_, _, p) => (is_stack_pair(p) || p == RegPairs::RegSP) ==> {
            let out = crate::alu::add16_spec(o.registers.hl(), pair_value(o.registers, p), f);
            nb == ob && n.registers.hl() == out.0 && n.registers.f == out.1 && n.registers.stack_pointer
                == o.registers.stack_pointer && n.registers.program_counter == o.registers.program_counter
        },
        Instruction::INCss(_, _, p) => (is_stack_pair(p) && p != RegPairs::RegsAF) || p == RegPairs::RegSP ==> nb
            == ob && n.registers == with_pair(o.registers, p, wrap16(pair_value(o.registers, p) + 1)),
        Instruction::DECss(_, _, p) => (is_stack_pair(p) && p != RegPairs::RegsAF) || p == RegPairs::RegSP ==> nb
            == ob && n.registers == with_pair(o.registers, p, wrap16(pair_value(o.registers, p) - 1)),
        Instruction::ADDSPe(_, _) => {
            let out = crate::alu::add_sp_spec(o.registers.stack_pointer, ob.read_spec(o.registers.program_counter));
            nb == ob && n.registers == (Registers {
                stack_pointer: out.0,
                f: out.1,
                program_counter: wrap16(o.registers.program_counter + 1),
                ..o.registers
            })
        },
        _ => true,
    }
}

/// NOP does nothing; HALT parks the CPU; DI clears IME at once; EI sets it
/// after the next instruction; STOP also consumes the byte after it.
pub open spec fn control_post(i: Instruction, o: Cpu, n: Cpu, ob: MemoryBus, nb: MemoryBus) -> bool {
    match i {
        Instruction::NOP(_, _) => n == o && nb == ob,
        Instruction::HALT(_, _) => n == (Cpu { state: CpuState::Halted, ..o }) && nb == ob,
        Instruction::DI(_, _) => n == (Cpu { ime_set: false, ..o }) && nb == ob,
        Instruction::EI(_, _) => n == (Cpu { ime_scheduled: true, ..o }) && nb == ob,
        Instruction::STOP(_, _) => n == (Cpu { registers: advance(o.registers, 1), ..o }) && nb == (if ob.is_cgb
            && ob.speed_chg_scheduled {
            MemoryBus { is_double_speed: !ob.is_double_speed, speed_chg_scheduled: false, ..ob }
        } else {
            ob
        }),
        _ => true,
    }
}

/// The effect of executing one instruction: everything `execute_op` promises.
#[verifier::opaque]
pub open spec fn exec_post(instruction: Instruction, o: Cpu, n: Cpu, ob: MemoryBus, nb: MemoryBus) -> bool {
    &&& (n.current_op == (if branch_taken(instruction, o.registers.f) {
        Some(taken_form(instruction))
    } else {
        o.current_op
    }))
    &&& (n.next_op == o.next_op)
    &&& (alu_a_operand(instruction).is_some() ==> ({
        let s = alu_a_operand(instruction).unwrap();
        let v = operand_spec(o.registers, ob, s);
        let out = alu_a_spec(instruction, o.registers.a, v, o.registers.f);
        &&& nb == ob
        &&& n == (Cpu {
            registers: Registers { a: out.0, f: out.1, ..advance(o.registers, operand_len(s)) },
            ..o
        })
    }))
    &&& (match instruction {
        Instruction::DAA(_, _) => n.registers.a == crate::alu::daa_spec(
            o.registers.a,
            o.registers.f,
        ).0 && n.registers.f == crate::alu::daa_spec(o.registers.a, o.registers.f).1,
        Instruction::PUSH(_, _, p) => is_stack_pair(p) ==> {
            &&& exists|mid: MemoryBus|
                #[trigger] MemoryBus::write_spec(
                    ob,
                    mid,
                    wrap16(o.registers.stack_pointer - 1),
                    (pair_value(o.registers, p) / 256) as u8,
                ) && MemoryBus::write_spec(
                    mid,
                    nb,
                    wrap16(o.registers.stack_pointer - 2),
                    (pair_value(o.registers, p) % 256) as u8,
                )
            &&& n.registers == (Registers {
                stack_pointer: wrap16(o.registers.stack_pointer - 2),
                ..o.registers
            })
        },
        Instruction::POP(_, _, p) => is_stack_pair(p) ==> {
            let v = read16(ob, o.registers.stack_pointer);
            &&& nb == ob
            &&& n.registers.stack_pointer == wrap16(o.registers.stack_pointer + 2)
            &&& pair_value(n.registers, p) == (if p == RegPairs::RegsAF { (v - v % 16) as u16 } else { v })
        },
        _ => true,
    })
    &&& (unary_post(instruction, o, n, ob, nb))
    &&& (load_post(instruction, o, n, ob, nb))
    &&& (arith_post(instruction, o, n, ob, nb))
    &&& (jump_post(instruction, o, n, ob, nb))
    &&& (call_post(instruction, o, n, ob, nb))
    &&& (return_post(instruction, o, n, ob, nb))
    &&& (control_post(instruction, o, n, ob, nb))
    &&& n.state == (if instruction is HALT { CpuState::Halted } else { o.state })
    &&& n.ime_scheduled == (if instruction is EI { true } else { o.ime_scheduled })
    &&& n.ime_set == (if (instruction is DI) || (instruction is ISR) { false } else if instruction is RETI { true } else { o.ime_set })
}

/// The prefetch after an instruction: the interrupt dispatch when IME is set
/// and IE & IF & 0x1F is not zero (PC unchanged), else the instruction decoded
/// at PC (a 0xCB prefix takes the next byte from the CB page), PC stepped past
/// the opcode bytes. Nothing else changes.
pub open spec fn prefetch_post(o: Cpu, n: Cpu, bus: MemoryBus) -> bool {
    let pc = o.registers.program_counter;
    let op = bus.read_spec(pc);
    &&& n == (Cpu { registers: n.registers, next_op: n.next_op, ..o })
    &&& if o.ime_set && Cpu::pending(bus) {
        n.next_op == Some(Instruction::ISR(0, 20)) && n.registers == o.registers
    } else if op != 0xCB {
        n.next_op == primary_decode(op) && n.registers == advance(o.registers, 1)
    } else {
        n.next_op == Some(cb_decode(bus.read_spec(wrap16(pc + 1)))) && n.registers == advance(o.registers, 2)
    }
}

/// The CPU as it starts executing its prefetched instruction `i`: a scheduled
/// EI takes effect, and a halted CPU woken by an interrupt runs again.
pub open spec fn exec_start(o: Cpu, i: Instruction) -> Cpu {
    Cpu {
        current_op: Some(i),
        ime_set: o.ime_set || o.ime_scheduled,
        ime_scheduled: false,
        state: if o.state == CpuState::Halted { CpuState::Running } else { o.state },
        ..o
    }
}

/// The effect of one `Cpu::tick` returning `r`.
pub open spec fn tick_post(o: Cpu, n: Cpu, ob: MemoryBus, nb: MemoryBus, r: Result<u8, CpuError>) -> bool {
    &&& o.state == CpuState::Halted && !Cpu::pending(ob) ==> r == Ok::<u8, CpuError>(4) && n == o && nb == ob
    &&& (o.state != CpuState::Halted || Cpu::pending(ob)) && o.next_op.is_none() ==> {
        let at = wrap16(o.registers.program_counter - 1);
        &&& r == Err::<u8, CpuError>(CpuError::UnknownOpcode(ob.read_spec(at), at))
        &&& n == o
        &&& nb == ob
    }
    &&& (o.state != CpuState::Halted || Cpu::pending(ob)) && o.next_op.is_some() ==> {
        let i = o.next_op.unwrap();
        &&& r == Ok::<u8, CpuError>(executed_cycles(i, o.registers.f))
        &&& exists|c: Cpu| #[trigger] exec_post(i, exec_start(o, i), c, ob, nb) && prefetch_post(c, n, nb)
    }
}

impl Cpu {
    pub fn new() -> (r: Cpu)
        ensures
            r.next_op == Some(Instruction::NOP(1, 1)),
            r.current_op.is_none(),
            !r.ime_set && !r.ime_scheduled,
            r.state == CpuState::Running,
            r.registers.program_counter == 0 && r.registers.stack_pointer == 0,
            r.registers.a == 0 && r.registers.b == 0 && r.registers.c == 0 && r.registers.d == 0,
            r.registers.e == 0 && r.registers.h == 0 && r.registers.l == 0,
            !r.registers.f.zero && !r.registers.f.substract && !r.registers.f.half_carry && !r.registers.f.carry,
    {
        Cpu {
            registers: Registers::new(),
            current_op: None,
            next_op: Some(Instruction::NOP(1, 1)),
            ime_scheduled: false,
            ime_set: false,
            state: CpuState::Running,
        }
    }

    /// Reads the byte at PC and steps PC.
    pub fn fetch_pc(&mut self, memory_bus: &MemoryBus) -> (r: u8)
        requires
            memory_bus.wf(),
        ensures
            r == memory_bus.read_spec(old(self).registers.program_counter),
            *final(self) == (Cpu { registers: advance(old(self).registers, 1), ..*old(self) }),
    {
        let data = memory_bus.read_byte(self.registers.program_counter);
        self.registers.program_counter = if self.registers.program_counter == 0xFFFF {
            0
        } else {
            self.registers.program_counter + 1
        };
        data
    }

    /// Reads a little-endian word at PC and steps PC past it.
    fn fetch_word(&mut self, memory_bus: &MemoryBus) -> (r: u16)
        requires
            memory_bus.wf(),
        ensures
            r == read16(*memory_bus, old(self).registers.program_counter),
            *final(self) == (Cpu { registers: advance(old(self).registers, 2), ..*old(self) }),
    {
        let lo = self.fetch_pc(memory_bus);
        let hi = self.fetch_pc(memory_bus);
        hi as u16 * 256 + lo as u16
    }

    /// Reads an 8-bit operand; immediate operands step PC past their bytes.
    #[verifier::rlimit(60)]
    pub fn get_reg_value(&mut self, memory_bus: &MemoryBus, reg: Regs) -> (r: u8)
        requires
            memory_bus.wf(),
        ensures
            r == operand_spec(old(self).registers, *memory_bus, reg),
            *final(self) == (Cpu { registers: advance(old(self).registers, operand_len(reg)), ..*old(self) }),
    {
        match reg {
            Regs::RegA => self.registers.a,
            Regs::RegB => self.registers.b,
            Regs::RegC => self.registers.c,
            Regs::RegD => self.registers.d,
            Regs::RegE => self.registers.e,
            Regs::RegH => self.registers.h,
            Regs::RegL => self.registers.l,
            Regs::HLPointee => self.registers.get_hl_pointee(memory_bus),
            Regs::BCPointee => self.registers.get_bc_pointee(memory_bus),
            Regs::DEPointee => self.registers.get_de_pointee(memory_bus),
            Regs::BytesFromPCPointee => {
                let address = self.fetch_word(memory_bus);
                memory_bus.read_byte(address)
            },
            Regs::UpperRamOffsetFromPC => {
                let offset = self.fetch_pc(memory_bus);
                memory_bus.read_byte(0xFF00 + offset as u16)
            },
            Regs::UpperRamOffsetFromRegC => memory_bus.read_byte(0xFF00 + self.registers.c as u16),
            Regs::ByteFromPC => self.fetch_pc(memory_bus),
        }
    }

    /// Writes an 8-bit operand: a register, or memory through the bus. An
    /// immediate byte is no destination; writing one does nothing.
    #[verifier::rlimit(60)]
    pub fn set_reg_value(&mut self, memory_bus: &mut MemoryBus, reg: Regs, data: u8)
        requires
            old(memory_bus).wf(),
        ensures
            final(memory_bus).wf(),
            is_register(reg) ==> *final(memory_bus) == *old(memory_bus) && *final(self) == (Cpu {
                registers: with_register(old(self).registers, reg, data),
                ..*old(self)
            }),
            reg == Regs::ByteFromPC ==> *final(memory_bus) == *old(memory_bus) && *final(self) == *old(self),
            !is_register(reg) && reg != Regs::ByteFromPC ==> {
                &&& MemoryBus::write_spec(
                    *old(memory_bus),
                    *final(memory_bus),
                    operand_address(old(self).registers, *old(memory_bus), reg),
                    data,
                )
                &&& *final(self) == (Cpu { registers: advance(old(self).registers, operand_len(reg)), ..*old(self) })
            },
    {
        match reg {
            Regs::RegA => { self.registers.a = data },
            Regs::RegB => { self.registers.b = data },
            Regs::RegC => { self.registers.c = data },
            Regs::RegD => { self.registers.d = data },
            Regs::RegE => { self.registers.e = data },
            Regs::RegH => { self.registers.h = data },
            Regs::RegL => { self.registers.l = data },
            Regs::HLPointee => { self.registers.set_hl_pointee(memory_bus, data) },
            Regs::BCPointee => { self.registers.set_bc_pointee(memory_bus, data) },
            Regs::DEPointee => { self.registers.set_de_pointee(memory_bus, data) },
            Regs::BytesFromPCPointee => {
                let address = self.fetch_word(memory_bus);
                memory_bus.write_byte(address, data)
            },
            Regs::UpperRamOffsetFromPC => {
                let offset = self.fetch_pc(memory_bus);
                memory_bus.write_byte(0xFF00 + offset as u16, data)
            },
            Regs::UpperRamOffsetFromRegC => { memory_bus.write_byte(0xFF00 + self.registers.c as u16, data) },
            Regs::ByteFromPC => {},
        }
    }

    /// Reads a 16-bit operand: a register pair, an immediate word, or the word
    /// at an immediate address.
    pub fn get_reg_pair_big_endian_value(&mut self, memory_bus: &MemoryBus, reg_pair: RegPairs) -> (r: u16)
        requires
            memory_bus.wf(),
        ensures
            reg_pair == RegPairs::BytesFromPC ==> r == read16(*memory_bus, old(self).registers.program_counter)
                && *final(self) == (Cpu { registers: advance(old(self).registers, 2), ..*old(self) }),
            reg_pair == RegPairs::BytesFromPCPointee ==> r == read16(
                *memory_bus,
                read16(*memory_bus, old(self).registers.program_counter),
            ) && *final(self) == (Cpu { registers: advance(old(self).registers, 2), ..*old(self) }),
            reg_pair != RegPairs::BytesFromPC && reg_pair != RegPairs::BytesFromPCPointee ==> r == pair_value(
                old(self).registers,
                reg_pair,
            ) && *final(self) == *old(self),
    {
        match reg_pair {
            RegPairs::RegsAF => self.registers.get_af_big_endian(),
            RegPairs::RegsBC => self.registers.get_bc_big_endian(),
            RegPairs::RegsDE => self.registers.get_de_big_endian(),
            RegPairs::RegsHL => self.registers.get_hl_big_endian(),
            RegPairs::RegSP => self.registers.stack_pointer,
            RegPairs::BytesFromPC => self.fetch_word(memory_bus),
            RegPairs::BytesFromPCPointee => {
                let address = self.fetch_word(memory_bus);
                read_word(memory_bus, address)
            },
        }
    }

    /// Writes a 16-bit operand: a register pair (AF keeps only F's upper
    /// nibble), or the word at an immediate address, low byte first.
    pub fn set_reg_pair_big_endian_value(&mut self, memory_bus: &mut MemoryBus, reg_pair: RegPairs, big_endian_value: u16)
        requires
            old(memory_bus).wf(),
        ensures
            final(memory_bus).wf(),
            is_stack_pair(reg_pair) || reg_pair == RegPairs::RegSP ==> *final(memory_bus) == *old(memory_bus),
            reg_pair == RegPairs::RegSP ==> *final(self) == (Cpu {
                registers: Registers { stack_pointer: big_endian_value, ..old(self).registers },
                ..*old(self)
            }),
            is_stack_pair(reg_pair) && reg_pair != RegPairs::RegsAF ==> pair_value(final(self).registers, reg_pair)
                == big_endian_value,
            reg_pair == RegPairs::RegsAF ==> final(self).registers.af() == big_endian_value - big_endian_value % 16,
            is_stack_pair(reg_pair) ==> final(self).registers.stack_pointer == old(self).registers.stack_pointer
                && final(self).registers.program_counter == old(self).registers.program_counter,
            reg_pair == RegPairs::BytesFromPC ==> *final(memory_bus) == *old(memory_bus) && *final(self) == *old(self),
            *final(self) == (Cpu { registers: final(self).registers, ..*old(self) }),
            (is_stack_pair(reg_pair) && reg_pair != RegPairs::RegsAF) || reg_pair == RegPairs::RegSP ==> final(self).registers
                == with_pair(old(self).registers, reg_pair, big_endian_value),
            reg_pair == RegPairs::BytesFromPCPointee ==> {
                let at = read16(*old(memory_bus), old(self).registers.program_counter);
                &&& final(self).registers == advance(old(self).registers, 2)
                &&& exists|mid: MemoryBus|
                    #[trigger] MemoryBus::write_spec(*old(memory_bus), mid, at, (big_endian_value % 256) as u8)
                        && MemoryBus::write_spec(mid, *final(memory_bus), wrap16(at + 1), (big_endian_value / 256) as u8)
            },
    {
        match reg_pair {
            RegPairs::RegsAF => { self.registers.set_af_big_endian(big_endian_value) },
            RegPairs::RegsBC => { self.registers.set_bc_big_endian(big_endian_value) },
            RegPairs::RegsDE => { self.registers.set_de_big_endian(big_endian_value) },
            RegPairs::RegsHL => { self.registers.set_hl_big_endian(big_endian_value) },
            RegPairs::RegSP => { self.registers.stack_pointer = big_endian_value },
            RegPairs::BytesFromPCPointee => {
                let address = self.fetch_word(memory_bus);
                memory_bus.write_byte(address, (big_endian_value % 256) as u8);
                let ghost mid = *memory_bus;
                memory_bus.write_byte(if address == 0xFFFF { 0 } else { address + 1 }, (big_endian_value / 256) as u8);
                assert(MemoryBus::write_spec(mid, *memory_bus, wrap16(address + 1), (big_endian_value / 256) as u8));
            },
            RegPairs::BytesFromPC => {},
        }
    }

    /// Pushes a word: high byte at SP-1, low byte at SP-2; SP goes down by 2.
    /// The bus after the first write is returned.
    fn push_word(&mut self, memory_bus: &mut MemoryBus, value: u16) -> (mid: Ghost<MemoryBus>)
        requires
            old(memory_bus).wf(),
        ensures
            final(memory_bus).wf(),
            MemoryBus::write_spec(*old(memory_bus), mid@, wrap16(old(self).registers.stack_pointer - 1), (value / 256) as u8),
            MemoryBus::write_spec(mid@, *final(memory_bus), wrap16(old(self).registers.stack_pointer - 2), (value % 256) as u8),
            *final(self) == (Cpu {
                registers: Registers { stack_pointer: wrap16(old(self).registers.stack_pointer - 2), ..old(self).registers },
                ..*old(self)
            }),
    {
        let sp = self.registers.stack_pointer;
        let sp1: u16 = if sp == 0 { 0xFFFF } else { sp - 1 };
        let sp2: u16 = if sp1 == 0 { 0xFFFF } else { sp1 - 1 };
        memory_bus.write_byte(sp1, (value / 256) as u8);
        let ghost mid = *memory_bus;
        memory_bus.write_byte(sp2, (value % 256) as u8);
        self.registers.stack_pointer = sp2;
        Ghost(mid)
    }

    /// Pops a word: low byte at SP, high byte at SP+1; SP goes up by 2.
    fn pop_word(&mut self, memory_bus: &MemoryBus) -> (r: u16)
        requires
            memory_bus.wf(),
        ensures
            r == read16(*memory_bus, old(self).registers.stack_pointer),
            *final(self) == (Cpu {
                registers: Registers { stack_pointer: wrap16(old(self).registers.stack_pointer + 2), ..old(self).registers },
                ..*old(self)
            }),
    {
        let sp = self.registers.stack_pointer;
        let r = read_word(memory_bus, sp);
        self.registers.stack_pointer = if sp >= 0xFFFE { sp - 0xFFFE } else { sp + 2 };
        r
    }

    fn condition(&self, condition: JumpCondition) -> (r: bool)
        ensures
            r == cond_holds(self.registers.f, condition),
    {
        match condition {
            JumpCondition::NotZero => !self.registers.f.zero,
            JumpCondition::Zero => self.registers.f.zero,
            JumpCondition::NotCarry => !self.registers.f.carry,
            JumpCondition::Carry => self.registers.f.carry,
        }
    }

    /// ADD, ADC, SUB, SBC, AND, XOR, OR, CP: A combined with an operand.
    #[verifier::rlimit(60)]
    fn exec_alu_a(&mut self, memory_bus: &MemoryBus, instruction: Instruction)
        requires
            memory_bus.wf(),
            alu_a_operand(instruction).is_some(),
        ensures
            ({
                let s = alu_a_operand(instruction).unwrap();
                let v = operand_spec(old(self).registers, *memory_bus, s);
                let out = alu_a_spec(instruction, old(self).registers.a, v, old(self).registers.f);
                *final(self) == (Cpu {
                    registers: Registers { a: out.0, f: out.1, ..advance(old(self).registers, operand_len(s)) },
                    ..*old(self)
                })
            }),
    {
        let (s, kind): (Regs, u8) = match instruction {
            Instruction::ADDAs(_, _, s) => (s, 0),
            Instruction::ADCAs(_, _, s) => (s, 1),
            Instruction::SUBs(_, _, s) => (s, 2),
            Instruction::SBCAs(_, _, s) => (s, 3),
            Instruction::ANDs(_, _, s) => (s, 4),
            Instruction::XORs(_, _, s) => (s, 5),
            Instruction::ORs(_, _, s) => (s, 6),
            Instruction::CPs(_, _, s) => (s, 7),
            _ => (Regs::RegA, 7),
        };
        let a = self.registers.a;
        let carry = self.registers.f.carry;
        let v = self.get_reg_value(memory_bus, s);
        let out = if kind == 0 {
            alu::add(a, v, false)
        } else if kind == 1 {
            alu::add(a, v, carry)
        } else if kind == 2 {
            alu::sub(a, v, false)
        } else if kind == 3 {
            alu::sub(a, v, carry)
        } else if kind == 4 {
            alu::and(a, v)
        } else if kind == 5 {
            alu::xor(a, v)
        } else if kind == 6 {
            alu::or(a, v)
        } else {
            let r = alu::sub(a, v, false);
            alu::AluResult { value: a, flags: r.flags }
        };
        self.registers.a = out.value;
        self.registers.f = out.flags;
    }

    fn exec_ld_plain(&mut self, memory_bus: &mut MemoryBus, target: Regs, src: Regs)
        requires
            old(memory_bus).wf(),
        ensures
            final(memory_bus).wf(),
            *final(self) == (Cpu { registers: final(self).registers, ..*old(self) }),
            ld_post(old(self).registers, final(self).registers, *old(memory_bus), *final(memory_bus), target, src),
    {
        let data = self.get_reg_value(memory_bus, src);
        self.set_reg_value(memory_bus, target, data);
    }

    /// LD, LDI and LDD.
    #[verifier::rlimit(60)]
    fn exec_ld(&mut self, memory_bus: &mut MemoryBus, instruction: Instruction)
        requires
            old(memory_bus).wf(),
            (instruction is LD) || (instruction is LDI) || (instruction is LDD),
        ensures
            final(memory_bus).wf(),
            *final(self) == (Cpu { registers: final(self).registers, ..*old(self) }),
            load_post(instruction, *old(self), *final(self), *old(memory_bus), *final(memory_bus)),
    {
        match instruction {
            Instruction::LD(_, _, target, src) => self.exec_ld_plain(memory_bus, target, src),
            Instruction::LDI(_, _, target, src) => {
                self.exec_ld_plain(memory_bus, target, src);
                let ghost mid = self.registers;
                let hl = self.registers.get_hl_big_endian();
                self.registers.set_hl_big_endian(if hl == 0xFFFF { 0 } else { hl + 1 });
                assert(ld_post(old(self).registers, mid, *old(memory_bus), *memory_bus, target, src));
                assert(self.registers.hl() == wrap16(mid.hl() + 1));
                assert(self.registers == (Registers { h: self.registers.h, l: self.registers.l, ..mid }));
            },
            Instruction::LDD(_, _, target, src) => {
                self.exec_ld_plain(memory_bus, target, src);
                let ghost mid = self.registers;
                let hl = self.registers.get_hl_big_endian();
                self.registers.set_hl_big_endian(if hl == 0 { 0xFFFF } else { hl - 1 });
                assert(ld_post(old(self).registers, mid, *old(memory_bus), *memory_bus, target, src));
                assert(self.registers.hl() == wrap16(mid.hl() - 1));
                assert(self.registers == (Registers { h: self.registers.h, l: self.registers.l, ..mid }));
            },
            _ => {},
        }
    }

    /// LD, LDI, LDD, LD16, LD HL,SP+e, PUSH and POP.
    #[verifier::rlimit(60)]
    fn exec_load(&mut self, memory_bus: &mut MemoryBus, instruction: Instruction)
        requires
            old(memory_bus).wf(),
        ensures
            final(memory_bus).wf(),
            final(self).current_op == old(self).current_op,
            final(self).next_op == old(self).next_op,
            final(self).ime_set == old(self).ime_set,
            final(self).ime_scheduled == old(self).ime_scheduled,
            final(self).state == old(self).state,
            match instruction {
                Instruction::PUSH(_, _, p) => is_stack_pair(p) ==> {
                    &&& exists|mid: MemoryBus|
                        #[trigger] MemoryBus::write_spec(
                            *old(memory_bus),
                            mid,
                            wrap16(old(self).registers.stack_pointer - 1),
                            (pair_value(old(self).registers, p) / 256) as u8,
                        ) && MemoryBus::write_spec(
                            mid,
                            *final(memory_bus),
                            wrap16(old(self).registers.stack_pointer - 2),
                            (pair_value(old(self).registers, p) % 256) as u8,
                        )
                    &&& final(self).registers == (Registers {
                        stack_pointer: wrap16(old(self).registers.stack_pointer - 2),
                        ..old(self).registers
                    })
                },
                Instruction::POP(_, _, p) => is_stack_pair(p) ==> {
                    let v = read16(*old(memory_bus), old(self).registers.stack_pointer);
                    &&& *final(memory_bus) == *old(memory_bus)
                    &&& final(self).registers.stack_pointer == wrap16(old(self).registers.stack_pointer + 2)
                    &&& pair_value(final(self).registers, p) == (if p == RegPairs::RegsAF { (v - v % 16) as u16 } else { v })
                },
                _ => true,
            },
            load_post(instruction, *old(self), *final(self), *old(memory_bus), *final(memory_bus)),
    {
        match instruction {
            Instruction::LD(_, _, _, _) | Instruction::LDI(_, _, _, _) | Instruction::LDD(_, _, _, _) => {
                self.exec_ld(memory_bus, instruction);
            },
            Instruction::LD16(_, _, target, src) => {
                let data = self.get_reg_pair_big_endian_value(memory_bus, src);
                self.set_reg_pair_big_endian_value(memory_bus, target, data);
            },
            Instruction::LDHLSPe(_, _) => {
                let e = self.fetch_pc(memory_bus);
                let (res, flags) = alu::add_sp(self.registers.stack_pointer, e);
                self.registers.f = flags;
                self.registers.set_hl_big_endian(res);
            },
            Instruction::PUSH(_, _, target) => {
                let value = self.get_reg_pair_big_endian_value(memory_bus, target);
                let mid = self.push_word(memory_bus, value);
            },
            Instruction::POP(_, _, target) => {
                let value = self.pop_word(memory_bus);
                self.set_reg_pair_big_endian_value(memory_bus, target, value);
            },
            _ => {},
        }
    }

    /// INC, DEC and the CB page: read an operand, transform it, write it back.
    #[verifier::rlimit(60)]
    fn exec_unary(&mut self, memory_bus: &mut MemoryBus, instruction: Instruction)
        requires
            old(memory_bus).wf(),
        ensures
            final(memory_bus).wf(),
            *final(self) == (Cpu { registers: final(self).registers, ..*old(self) }),
            unary_post(instruction, *old(self), *final(self), *old(memory_bus), *final(memory_bus)),
    {
        let target = match instruction {
            Instruction::INCs(_, _, t) | Instruction::DECs(_, _, t) | Instruction::RLC(_, _, t) | Instruction::RL(_, _, t)
            | Instruction::RRC(_, _, t) | Instruction::RR(_, _, t) | Instruction::SLA(_, _, t)
            | Instruction::SWAP(_, _, t) | Instruction::SRA(_, _, t) | Instruction::SRL(_, _, t)
            | Instruction::BIT(_, _, _, t) | Instruction::SET(_, _, _, t) | Instruction::RES(_, _, _, t) => t,
            _ => { return; },
        };
        let is_bit = match instruction {
            Instruction::BIT(_, _, _, _) => true,
            _ => false,
        };
        if target != Regs::HLPointee && !is_register_exec(target) {
            return;
        }
        let v = self.get_reg_value(memory_bus, target);
        let (value, flags) = unary_exec(instruction, v, self.registers.f);
        self.registers.f = flags;
        if target == Regs::HLPointee {
            if !is_bit {
                memory_bus.write_byte(self.registers.get_hl_big_endian(), value);
            }
        } else {
            self.set_reg_value(memory_bus, target, value);
        }
    }

    /// INC rr and DEC rr.
    #[verifier::rlimit(100)]
    fn exec_step16(&mut self, memory_bus: &mut MemoryBus, instruction: Instruction)
        requires
            old(memory_bus).wf(),
            (instruction is INCss) || (instruction is DECss),
        ensures
            final(memory_bus).wf(),
            *final(self) == (Cpu { registers: final(self).registers, ..*old(self) }),
            arith_post(instruction, *old(self), *final(self), *old(memory_bus), *final(memory_bus)),
    {
        match instruction {
            Instruction::INCss(_, _, target) => {
                let v = self.get_reg_pair_big_endian_value(memory_bus, target);
                let w = if v == 0xFFFF { 0 } else { v + 1 };
                assert((is_stack_pair(target) && target != RegPairs::RegsAF) || target == RegPairs::RegSP ==> w == wrap16(pair_value(old(self).registers, target) + 1));
                self.set_reg_pair_big_endian_value(memory_bus, target, w);
            },
            Instruction::DECss(_, _, target) => {
                let v = self.get_reg_pair_big_endian_value(memory_bus, target);
                let w = if v == 0 { 0xFFFF } else { v - 1 };
                assert((is_stack_pair(target) && target != RegPairs::RegsAF) || target == RegPairs::RegSP ==> w == wrap16(pair_value(old(self).registers, target) - 1));
                self.set_reg_pair_big_endian_value(memory_bus, target, w);
            },
            _ => {},
        }
    }

    /// ADD HL,rr, INC rr, DEC rr and ADD SP,e.
    #[verifier::rlimit(60)]
    fn exec_arith16(&mut self, memory_bus: &mut MemoryBus, instruction: Instruction)
        requires
            old(memory_bus).wf(),
            (instruction is ADDHLss) || (instruction is INCss) || (instruction is DECss) || (instruction is ADDSPe),
        ensures
            final(memory_bus).wf(),
            *final(self) == (Cpu { registers: final(self).registers, ..*old(self) }),
            arith_post(instruction, *old(self), *final(self), *old(memory_bus), *final(memory_bus)),
    {
        match instruction {
            Instruction::ADDHLss(_, _, operand) => {
                let hl = self.registers.get_hl_big_endian();
                let v = self.get_reg_pair_big_endian_value(memory_bus, operand);
                let (r, flags) = alu::add16(hl, v, self.registers.f);
                self.registers.f = flags;
                self.registers.set_hl_big_endian(r);
            },
            Instruction::ADDSPe(_, _) => {
                let e = self.fetch_pc(memory_bus);
                let (r, flags) = alu::add_sp(self.registers.stack_pointer, e);
                self.registers.f = flags;
                self.registers.stack_pointer = r;
            },
            _ => self.exec_step16(memory_bus, instruction),
        }
    }

    /// DAA, CPL, CCF, SCF, the A rotations, and the 16-bit arithmetic.
    #[verifier::rlimit(60)]
    fn exec_arith(&mut self, memory_bus: &mut MemoryBus, instruction: Instruction)
        requires
            old(memory_bus).wf(),
        ensures
            final(memory_bus).wf(),
            *final(self) == (Cpu { registers: final(self).registers, ..*old(self) }),
            match instruction {
                Instruction::DAA(_, _) => final(self).registers == (Registers {
                    a: crate::alu::daa_spec(old(self).registers.a, old(self).registers.f).0,
                    f: crate::alu::daa_spec(old(self).registers.a, old(self).registers.f).1,
                    ..old(self).registers
                }),
                _ => true,
            },
            arith_post(instruction, *old(self), *final(self), *old(memory_bus), *final(memory_bus)),
    {
        let f = self.registers.f;
        let a = self.registers.a;
        match instruction {
            Instruction::DAA(_, _) => {
                let r = alu::daa(a, f);
                self.registers.a = r.value;
                self.registers.f = r.flags;
            },
            Instruction::CPL(_, _) => {
                self.registers.a = !a;
                self.registers.f = FlagsRegister { zero: f.zero, substract: true, half_carry: true, carry: f.carry };
            },
            Instruction::CCF(_, _) => {
                self.registers.f = FlagsRegister { zero: f.zero, substract: false, half_carry: false, carry: !f.carry };
            },
            Instruction::SCF(_, _) => {
                self.registers.f = FlagsRegister { zero: f.zero, substract: false, half_carry: false, carry: true };
            },
            Instruction::RLCA(_, _) | Instruction::RLA(_, _) | Instruction::RRCA(_, _) | Instruction::RRA(_, _) => {
                let (r, c) = match instruction {
                    Instruction::RLCA(_, _) => alu::rlc(a),
                    Instruction::RLA(_, _) => alu::rl(a, f.carry),
                    Instruction::RRCA(_, _) => alu::rrc(a),
                    _ => alu::rr(a, f.carry),
                };
                self.registers.a = r;
                self.registers.f = FlagsRegister { zero: false, substract: false, half_carry: false, carry: c };
            },
            Instruction::ADDHLss(_, _, _) | Instruction::INCss(_, _, _) | Instruction::DECss(_, _, _)
            | Instruction::ADDSPe(_, _) => self.exec_arith16(memory_bus, instruction),
            _ => {},
        }
    }

    #[verifier::rlimit(60)]
    fn exec_jump(&mut self, memory_bus: &mut MemoryBus, instruction: Instruction)
        requires
            old(memory_bus).wf(),
        ensures
            final(memory_bus).wf(),
            final(self).current_op == old(self).current_op,
            *final(self) == (Cpu { registers: final(self).registers, ..*old(self) }),
            jump_post(instruction, *old(self), *final(self), *old(memory_bus), *final(memory_bus)),
    {
        match instruction {
            Instruction::JPnn(_, _) => {
                self.registers.program_counter = self.fetch_word(memory_bus);
            },
            Instruction::JPHL(_, _) => {
                self.registers.program_counter = self.registers.get_hl_big_endian();
            },
            Instruction::JPfnn(_, _, condition) => {
                let destination = self.fetch_word(memory_bus);
                if self.condition(condition) {
                    self.registers.program_counter = destination;
                }
            },
            Instruction::JR(_, _) => {
                let e = self.fetch_pc(memory_bus);
                self.registers.program_counter = relative(self.registers.program_counter, e);
            },
            Instruction::JRf(_, _, condition) => {
                let e = self.fetch_pc(memory_bus);
                if self.condition(condition) {
                    self.registers.program_counter = relative(self.registers.program_counter, e);
                }
            },
            _ => {},
        }
    }

    #[verifier::rlimit(60)]
    fn exec_call(&mut self, memory_bus: &mut MemoryBus, instruction: Instruction)
        requires
            old(memory_bus).wf(),
        ensures
            final(memory_bus).wf(),
            final(self).current_op == old(self).current_op,
            final(self).next_op == old(self).next_op,
            final(self).state == old(self).state,
            final(self).ime_scheduled == old(self).ime_scheduled,
            call_post(instruction, *old(self), *final(self), *old(memory_bus), *final(memory_bus)),
            !(instruction is ISR) ==> final(self).ime_set == old(self).ime_set,
    {
        match instruction {
            Instruction::CALL(_, _) => {
                let address = self.fetch_word(memory_bus);
                let pc = self.registers.program_counter;
                self.push_word(memory_bus, pc);
                self.registers.program_counter = address;
            },
            Instruction::CALLf(_, _, condition) => {
                let address = self.fetch_word(memory_bus);
                if self.condition(condition) {
                    let pc = self.registers.program_counter;
                    self.push_word(memory_bus, pc);
                    self.registers.program_counter = address;
                }
            },
            Instruction::ISR(_, _) => {
                let interrupt_enable = memory_bus.read_byte(0xFFFF);
                let interrupt_flag = memory_bus.read_byte(0xFF0F);
                let pending = interrupt_enable & interrupt_flag;
                let bit: u8 = lowest_set_bit(pending);
                let mask: u8 = 1u8 << bit;
                assert(interrupt_flag == old(memory_bus).interrupt_flag());
                assert(interrupt_enable == old(memory_bus).interrupt_enable);
                assert(mask == bit_mask(bit));
                memory_bus.write_byte(0xFF0F, interrupt_flag & !mask);
                let ghost cleared = *memory_bus;
                let pc = self.registers.program_counter;
                let mid = self.push_word(memory_bus, pc);
                assert(pushed(cleared, *memory_bus, old(self).registers.stack_pointer, pc));
                assert(MemoryBus::write_spec(*old(memory_bus), cleared, 0xFF0F, old(memory_bus).interrupt_flag() & !bit_mask(lowest_set_bit_spec(old(memory_bus).interrupt_enable & old(memory_bus).interrupt_flag()))));
                self.registers.program_counter = 0x40 + 8 * bit as u16;
                self.ime_set = false;
            },
            Instruction::RST(_, _, location) => {
                let target: u16 = match location {
                    ResetLocation::Hex00 => 0x00,
                    ResetLocation::Hex08 => 0x08,
                    ResetLocation::Hex10 => 0x10,
                    ResetLocation::Hex18 => 0x18,
                    ResetLocation::Hex20 => 0x20,
                    ResetLocation::Hex28 => 0x28,
                    ResetLocation::Hex30 => 0x30,
                    ResetLocation::Hex38 => 0x38,
                };
                let pc = self.registers.program_counter;
                self.push_word(memory_bus, pc);
                self.registers.program_counter = target;
            },
            _ => {},
        }
    }

    #[verifier::rlimit(60)]
    fn exec_return(&mut self, memory_bus: &mut MemoryBus, instruction: Instruction)
        requires
            old(memory_bus).wf(),
        ensures
            final(memory_bus).wf(),
            final(self).current_op == old(self).current_op,
            final(self).next_op == old(self).next_op,
            final(self).state == old(self).state,
            final(self).ime_scheduled == old(self).ime_scheduled,
            return_post(instruction, *old(self), *final(self), *old(memory_bus), *final(memory_bus)),
            !(instruction is RETI) ==> final(self).ime_set == old(self).ime_set,
    {
        match instruction {
            Instruction::RET(_, _) => {
                self.registers.program_counter = self.pop_word(memory_bus);
            },
            Instruction::RETf(_, _, condition) => {
                if self.condition(condition) {
                    self.registers.program_counter = self.pop_word(memory_bus);
                }
            },
            Instruction::RETI(_, _) => {
                self.registers.program_counter = self.pop_word(memory_bus);
                self.ime_set = true;
            },
            _ => {},
        }
    }

    /// Jumps, calls, returns, restarts and the interrupt dispatch. A conditional
    /// branch that is taken records its taken cycle count in `current_op`.
    #[verifier::rlimit(60)]
    fn exec_flow(&mut self, memory_bus: &mut MemoryBus, instruction: Instruction)
        requires
            old(memory_bus).wf(),
        ensures
            final(memory_bus).wf(),
            final(self).current_op == (if branch_taken(instruction, old(self).registers.f) {
                Some(taken_form(instruction))
            } else {
                old(self).current_op
            }),
            final(self).next_op == old(self).next_op,
            final(self).state == old(self).state,
            final(self).ime_scheduled == old(self).ime_scheduled,
            jump_post(instruction, *old(self), *final(self), *old(memory_bus), *final(memory_bus)),
            call_post(instruction, *old(self), *final(self), *old(memory_bus), *final(memory_bus)),
            return_post(instruction, *old(self), *final(self), *old(memory_bus), *final(memory_bus)),
            final(self).ime_set == (if instruction is ISR { false } else if instruction is RETI { true } else { old(self).ime_set }),
    {
        let taken = match instruction {
            Instruction::JPfnn(_, _, c) | Instruction::JRf(_, _, c) | Instruction::CALLf(_, _, c)
            | Instruction::RETf(_, _, c) => self.condition(c),
            _ => false,
        };
        match instruction {
            Instruction::JPnn(_, _) | Instruction::JPHL(_, _) | Instruction::JPfnn(_, _, _) | Instruction::JR(_, _)
            | Instruction::JRf(_, _, _) => self.exec_jump(memory_bus, instruction),
            Instruction::CALL(_, _) | Instruction::CALLf(_, _, _) | Instruction::ISR(_, _)
            | Instruction::RST(_, _, _) => self.exec_call(memory_bus, instruction),
            Instruction::RET(_, _) | Instruction::RETf(_, _, _) | Instruction::RETI(_, _) => self.exec_return(
                memory_bus,
                instruction,
            ),
            _ => {},
        }
        if taken {
            self.current_op = Some(taken_form_exec(instruction));
        }
    }

    /// NOP, HALT, STOP, DI and EI.
    fn exec_control(&mut self, memory_bus: &mut MemoryBus, instruction: Instruction)
        requires
            old(memory_bus).wf(),
        ensures
            final(memory_bus).wf(),
            final(self).current_op == old(self).current_op,
            final(self).next_op == old(self).next_op,
            control_post(instruction, *old(self), *final(self), *old(memory_bus), *final(memory_bus)),
    {
        match instruction {
            Instruction::HALT(_, _) => { self.state = CpuState::Halted },
            Instruction::STOP(_, _) => {
                if memory_bus.is_cgb && memory_bus.speed_chg_scheduled {
                    memory_bus.is_double_speed = !memory_bus.is_double_speed;
                    memory_bus.speed_chg_scheduled = false;
                }
                self.fetch_pc(memory_bus);
            },
            Instruction::DI(_, _) => { self.ime_set = false },
            Instruction::EI(_, _) => { self.ime_scheduled = true },
            _ => {},
        }
    }

    /// Executes one instruction.
    #[verifier::rlimit(60)]
    pub fn execute_op(&mut self, memory_bus: &mut MemoryBus, instruction: Instruction)
        requires
            old(memory_bus).wf(),
        ensures
            final(memory_bus).wf(),
            exec_post(instruction, *old(self), *final(self), *old(memory_bus), *final(memory_bus)),
    {
        match instruction {
            Instruction::ADDAs(_, _, _) | Instruction::ADCAs(_, _, _) | Instruction::SUBs(_, _, _)
            | Instruction::SBCAs(_, _, _) | Instruction::ANDs(_, _, _) | Instruction::XORs(_, _, _)
            | Instruction::ORs(_, _, _) | Instruction::CPs(_, _, _) => self.exec_alu_a(memory_bus, instruction),
            Instruction::LD(_, _, _, _) | Instruction::LDI(_, _, _, _) | Instruction::LDD(_, _, _, _)
            | Instruction::LD16(_, _, _, _) | Instruction::LDHLSPe(_, _) | Instruction::PUSH(_, _, _)
            | Instruction::POP(_, _, _) => self.exec_load(memory_bus, instruction),
            Instruction::INCs(_, _, _) | Instruction::DECs(_, _, _) | Instruction::RLC(_, _, _)
            | Instruction::RL(_, _, _) | Instruction::RRC(_, _, _) | Instruction::RR(_, _, _)
            | Instruction::SLA(_, _, _) | Instruction::SWAP(_, _, _) | Instruction::SRA(_, _, _)
            | Instruction::SRL(_, _, _) | Instruction::BIT(_, _, _, _) | Instruction::SET(_, _, _, _)
            | Instruction::RES(_, _, _, _) => self.exec_unary(memory_bus, instruction),
            Instruction::DAA(_, _) | Instruction::CPL(_, _) | Instruction::CCF(_, _) | Instruction::SCF(_, _)
            | Instruction::RLCA(_, _) | Instruction::RLA(_, _) | Instruction::RRCA(_, _) | Instruction::RRA(_, _)
            | Instruction::ADDHLss(_, _, _) | Instruction::INCss(_, _, _) | Instruction::DECss(_, _, _)
            | Instruction::ADDSPe(_, _) => self.exec_arith(memory_bus, instruction),
            Instruction::NOP(_, _) | Instruction::HALT(_, _) | Instruction::STOP(_, _) | Instruction::DI(_, _)
            | Instruction::EI(_, _) => self.exec_control(memory_bus, instruction),
            _ => self.exec_flow(memory_bus, instruction),
        }
        proof {
            reveal(exec_post);
        }
    }

    /// Executes the instruction in `current_op`.
    pub fn exec_current_op(&mut self, memory_bus: &mut MemoryBus)
        requires
            old(memory_bus).wf(),
            old(self).current_op.is_some(),
        ensures
            final(memory_bus).wf(),
            final(self).current_op.is_some(),
            instr_cycles(final(self).current_op.unwrap()) == executed_cycles(
                old(self).current_op.unwrap(),
                old(self).registers.f,
            ),
            final(self).next_op == old(self).next_op,
            exec_post(old(self).current_op.unwrap(), *old(self), *final(self), *old(memory_bus), *final(memory_bus)),
    {
        proof {
            reveal(exec_post);
        }
        let instruction = self.current_op.unwrap();
        self.execute_op(memory_bus, instruction);
    }

    /// Whether an enabled interrupt is requested: IE & IF & 0x1F is not zero.
    pub open spec fn pending(bus: MemoryBus) -> bool {
        bus.interrupt_enable & bus.interrupt_flag() & 0x1F != 0
    }

    /// Prefetches the next instruction: the interrupt dispatch when IME is set
    /// and an enabled interrupt is requested, else the instruction at PC.
    fn fetch_next_opcode(&mut self, memory_bus: &MemoryBus)
        requires
            memory_bus.wf(),
        ensures
            prefetch_post(*old(self), *final(self), *memory_bus),
    {
        let ie = memory_bus.read_byte(0xFFFF);
        let iflag = memory_bus.read_byte(0xFF0F);
        if self.ime_set && ie & iflag & 0x1F != 0 {
            self.next_op = Some(Instruction::ISR(0, 20));
        } else {
            let opcode = self.fetch_pc(memory_bus);
            self.next_op = Instruction::from_opcode(opcode, self, memory_bus);
        }
    }

    /// The cycle count that the current instruction carries.
    pub fn get_nb_clock_current_op(&self) -> (r: u8)
        requires
            self.current_op.is_some(),
        ensures
            r == instr_cycles(self.current_op.unwrap()),
    {
        match self.current_op.unwrap() {
            Instruction::LD(_, nb_cycles, _, _) => nb_cycles,
            Instruction::LDI(_, nb_cycles, _, _) => nb_cycles,
            Instruction::LDD(_, nb_cycles, _, _) => nb_cycles,
            Instruction::LD16(_, nb_cycles, _, _) => nb_cycles,
            Instruction::PUSH(_, nb_cycles, _) => nb_cycles,
            Instruction::POP(_, nb_cycles, _) => nb_cycles,
            Instruction::ADDAs(_, nb_cycles, _) => nb_cycles,
            Instruction::ADCAs(_, nb_cycles, _) => nb_cycles,
            Instruction::SUBs(_, nb_cycles, _) => nb_cycles,
            Instruction::SBCAs(_, nb_cycles, _) => nb_cycles,
            Instruction::ANDs(_, nb_cycles, _) => nb_cycles,
            Instruction::XORs(_, nb_cycles, _) => nb_cycles,
            Instruction::ORs(_, nb_cycles, _) => nb_cycles,
            Instruction::CPs(_, nb_cycles, _) => nb_cycles,
            Instruction::INCs(_, nb_cycles, _) => nb_cycles,
            Instruction::DECs(_, nb_cycles, _) => nb_cycles,
            Instruction::DAA(_, nb_cycles) => nb_cycles,
            Instruction::CPL(_, nb_cycles) => nb_cycles,
            Instruction::ADDHLss(_, nb_cycles, _) => nb_cycles,
            Instruction::INCss(_, nb_cycles, _) => nb_cycles,
            Instruction::DECss(_, nb_cycles, _) => nb_cycles,
            Instruction::ADDSPe(_, nb_cycles) => nb_cycles,
            Instruction::LDHLSPe(_, nb_cycles) => nb_cycles,
            Instruction::RLCA(_, nb_cycles) => nb_cycles,
            Instruction::RLA(_, nb_cycles) => nb_cycles,
            Instruction::RRCA(_, nb_cycles) => nb_cycles,
            Instruction::RRA(_, nb_cycles) => nb_cycles,
            Instruction::RLC(_, nb_cycles, _) => nb_cycles,
            Instruction::RL(_, nb_cycles, _) => nb_cycles,
            Instruction::RRC(_, nb_cycles, _) => nb_cycles,
            Instruction::RR(_, nb_cycles, _) => nb_cycles,
            Instruction::SLA(_, nb_cycles, _) => nb_cycles,
            Instruction::SWAP(_, nb_cycles, _) => nb_cycles,
            Instruction::SRA(_, nb_cycles, _) => nb_cycles,
            Instruction::SRL(_, nb_cycles, _) => nb_cycles,
            Instruction::BIT(_, nb_cycles, _, _) => nb_cycles,
            Instruction::SET(_, nb_cycles, _, _) => nb_cycles,
            Instruction::RES(_, nb_cycles, _, _) => nb_cycles,
            Instruction::CCF(_, nb_cycles) => nb_cycles,
            Instruction::SCF(_, nb_cycles) => nb_cycles,
            Instruction::NOP(_, nb_cycles) => nb_cycles,
            Instruction::HALT(_, nb_cycles) => nb_cycles,
            Instruction::STOP(_, nb_cycles) => nb_cycles,
            Instruction::DI(_, nb_cycles) => nb_cycles,
            Instruction::EI(_, nb_cycles) => nb_cycles,
            Instruction::JPnn(_, nb_cycles) => nb_cycles,
            Instruction::JPHL(_, nb_cycles) => nb_cycles,
            Instruction::JPfnn(_, nb_cycles, _) => nb_cycles,
            Instruction::JR(_, nb_cycles) => nb_cycles,
            Instruction::JRf(_, nb_cycles, _) => nb_cycles,
            Instruction::CALL(_, nb_cycles) => nb_cycles,
            Instruction::CALLf(_, nb_cycles, _) => nb_cycles,
            Instruction::ISR(_, nb_cycles) => nb_cycles,
            Instruction::RET(_, nb_cycles) => nb_cycles,
            Instruction::RETf(_, nb_cycles, _) => nb_cycles,
            Instruction::RETI(_, nb_cycles) => nb_cycles,
            Instruction::RST(_, nb_cycles, _) => nb_cycles
        }
    }

    /// One step: executes the prefetched instruction and prefetches the next,
    /// returning the T-cycles taken. A halted CPU idles for 4 cycles until an
    /// enabled interrupt is requested. An unmapped opcode traps.
    #[verifier::rlimit(60)]
    pub fn tick(&mut self, memory_bus: &mut MemoryBus) -> (r: Result<u8, CpuError>)
        requires
            old(memory_bus).wf(),
        ensures
            final(memory_bus).wf(),
            old(self).state == CpuState::Halted && !Cpu::pending(*old(memory_bus)) ==> r == Ok::<u8, CpuError>(4)
                && *final(self) == *old(self) && *final(memory_bus) == *old(memory_bus),
            (old(self).state != CpuState::Halted || Cpu::pending(*old(memory_bus))) && old(self).next_op.is_none() ==> {
                let at = wrap16(old(self).registers.program_counter - 1);
                &&& r == Err::<u8, CpuError>(CpuError::UnknownOpcode(old(memory_bus).read_spec(at), at))
                &&& *final(self) == *old(self)
                &&& *final(memory_bus) == *old(memory_bus)
            },
            (old(self).state != CpuState::Halted || Cpu::pending(*old(memory_bus))) && old(self).next_op.is_some() ==> {
                let i = old(self).next_op.unwrap();
                &&& r == Ok::<u8, CpuError>(executed_cycles(i, old(self).registers.f))
                &&& exists|c: Cpu|
                    #[trigger] exec_post(i, exec_start(*old(self), i), c, *old(memory_bus), *final(memory_bus))
                        && prefetch_post(c, *final(self), *final(memory_bus))
            },
            tick_post(*old(self), *final(self), *old(memory_bus), *final(memory_bus), r),
    {
        if self.state == CpuState::Halted {
            let ie = memory_bus.read_byte(0xFFFF);
            let iflag = memory_bus.read_byte(0xFF0F);
            if ie & iflag & 0x1F == 0 {
                return Ok(4);
            }
        }
        match self.next_op {
            None => {
                let pc = if self.registers.program_counter == 0 { 0xFFFF } else { self.registers.program_counter - 1 };
                Err(CpuError::UnknownOpcode(memory_bus.read_byte(pc), pc))
            },
            Some(i) => {
                if self.state == CpuState::Halted {
                    self.state = CpuState::Running;
                }
                self.current_op = self.next_op;
                if self.ime_scheduled {
                    self.ime_set = true;
                    self.ime_scheduled = false;
                }
                assert(*self == exec_start(*old(self), i));
                self.exec_current_op(memory_bus);
                let ghost c = *self;
                self.fetch_next_opcode(memory_bus);
                assert(exec_post(i, exec_start(*old(self), i), c, *old(memory_bus), *memory_bus));
                Ok(self.get_nb_clock_current_op())
            },
        }
    }
}

impl Instruction {
    /// Decodes an opcode; the 0xCB prefix fetches the next byte at PC and
    /// decodes it from the CB page.
    pub fn from_opcode(opcode: u8, cpu: &mut Cpu, memory_bus: &MemoryBus) -> (r: Option<Instruction>)
        requires
            memory_bus.wf(),
        ensures
            opcode != 0xCB ==> r == primary_decode(opcode) && *final(cpu) == *old(cpu),
            opcode == 0xCB ==> r == Some(cb_decode(memory_bus.read_spec(old(cpu).registers.program_counter)))
                && *final(cpu) == (Cpu { registers: advance(old(cpu).registers, 1), ..*old(cpu) }),
    {
        if opcode == 0xCB {
            let next = cpu.fetch_pc(memory_bus);
            Instruction::from_cb_opcode(next)
        } else {
            Instruction::decode_primary(opcode)
        }
    }
}

fn is_register_exec(r: Regs) -> (b: bool)
    ensures
        b == is_register(r),
{
    match r {
        Regs::RegA | Regs::RegB | Regs::RegC | Regs::RegD | Regs::RegE | Regs::RegH | Regs::RegL => true,
        _ => false,
    }
}

fn shifted_exec(r: (u8, bool)) -> (o: (u8, FlagsRegister))
    ensures
        o == shifted(r),
{
    (r.0, FlagsRegister { zero: r.0 == 0, substract: false, half_carry: false, carry: r.1 })
}

/// The value and flags that INC, DEC or a CB-page instruction makes of v.
fn unary_exec(i: Instruction, v: u8, f: FlagsRegister) -> (r: (u8, FlagsRegister))
    ensures
        r == unary_spec(i, v, f),
{
    match i {
        Instruction::INCs(_, _, _) => {
            let r = alu::inc(v, f);
            (r.value, r.flags)
        },
        Instruction::DECs(_, _, _) => {
            let r = alu::dec(v, f);
            (r.value, r.flags)
        },
        Instruction::RLC(_, _, _) => shifted_exec(alu::rlc(v)),
        Instruction::RL(_, _, _) => shifted_exec(alu::rl(v, f.carry)),
        Instruction::RRC(_, _, _) => shifted_exec(alu::rrc(v)),
        Instruction::RR(_, _, _) => shifted_exec(alu::rr(v, f.carry)),
        Instruction::SLA(_, _, _) => shifted_exec(alu::sla(v)),
        Instruction::SRA(_, _, _) => shifted_exec(alu::sra(v)),
        Instruction::SRL(_, _, _) => shifted_exec(alu::srl(v)),
        Instruction::SWAP(_, _, _) => {
            let r = alu::swap(v);
            (r, FlagsRegister { zero: r == 0, substract: false, half_carry: false, carry: false })
        },
        Instruction::BIT(_, _, n, _) => {
            let mask: u8 = if n < 8 { 1u8 << n } else { 0 };
            (v, FlagsRegister { zero: v & mask == 0, substract: false, half_carry: true, carry: f.carry })
        },
        Instruction::SET(_, _, n, _) => {
            let mask: u8 = if n < 8 { 1u8 << n } else { 0 };
            (v | mask, f)
        },
        Instruction::RES(_, _, n, _) => {
            let mask: u8 = if n < 8 { 1u8 << n } else { 0 };
            (v & !mask, f)
        },
        _ => (v, f),
    }
}

fn taken_form_exec(i: Instruction) -> (r: Instruction)
    ensures
        r == taken_form(i),
{
    match i {
        Instruction::JPfnn(l, _, c) => Instruction::JPfnn(l, 16, c),
        Instruction::JRf(l, _, c) => Instruction::JRf(l, 12, c),
        Instruction::CALLf(l, _, c) => Instruction::CALLf(l, 24, c),
        Instruction::RETf(l, _, c) => Instruction::RETf(l, 20, c),
        _ => i,
    }
}

/// PUSH then POP of a register pair gives back its value and the stack pointer,
/// for a stack in work RAM or high RAM: the two bus writes of PUSH (high byte
/// at SP-1, then low byte at SP-2) are read back by POP at the new SP, and SP
/// returns to where it was.
pub proof fn lemma_push_pop_identity(o: MemoryBus, m: MemoryBus, n: MemoryBus, sp: u16, v: u16)
    requires
        o.wf(),
        m.wf(),
        (0xC002 <= sp <= 0xE000) || (0xFF82 <= sp <= 0xFFFF),
        MemoryBus::write_spec(o, m, wrap16(sp - 1), (v / 256) as u8),
        MemoryBus::write_spec(m, n, wrap16(sp - 2), (v % 256) as u8),
    ensures
        read16(n, wrap16(sp - 2)) == v,
        wrap16(wrap16(sp - 2) + 2) == sp,
{
    crate::memory_bus::lemma_ram_round_trip(o, m, wrap16(sp - 1), (v / 256) as u8);
    crate::memory_bus::lemma_ram_round_trip(m, n, wrap16(sp - 2), (v % 256) as u8);
    assert(wrap16(wrap16(sp - 2) + 1) == wrap16(sp - 1));
    crate::memory_bus::lemma_ram_frame(m, n, wrap16(sp - 2), wrap16(sp - 1), (v % 256) as u8);
}

/// PC after a relative jump by the signed byte e.
pub open spec fn relative_spec(pc: u16, e: u8) -> u16 {
    wrap16(pc + (if e < 128 { e as int } else { e as int - 256 }))
}

fn relative(pc: u16, e: u8) -> (r: u16)
    ensures
        r == relative_spec(pc, e),
{
    let t: u32 = if e < 128 { pc as u32 + e as u32 } else { pc as u32 + 65536 + e as u32 - 256 };
    (t % 65536) as u16
}

/// Index of the lowest set bit among bits 0..=3, else 4.
pub open spec fn lowest_set_bit_spec(v: u8) -> u8 {
    if v % 2 == 1 {
        0
    } else if (v / 2) % 2 == 1 {
        1
    } else if (v / 4) % 2 == 1 {
        2
    } else if (v / 8) % 2 == 1 {
        3
    } else {
        4
    }
}

fn lowest_set_bit(v: u8) -> (r: u8)
    ensures
        r == lowest_set_bit_spec(v),
        r < 5,
{
    if v % 2 == 1 {
        0
    } else if (v / 2) % 2 == 1 {
        1
    } else if (v / 4) % 2 == 1 {
        2
    } else if (v / 8) % 2 == 1 {
        3
    } else {
        4
    }
}

fn read_word(memory_bus: &MemoryBus, address: u16) -> (r: u16)
    requires
        memory_bus.wf(),
    ensures
        r == read16(*memory_bus, address),
{
    let lo = memory_bus.read_byte(address);
    let hi = memory_bus.read_byte(if address == 0xFFFF { 0 } else { address + 1 });
    hi as u16 * 256 + lo as u16
}

} // verus!
