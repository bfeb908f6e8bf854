use vstd::prelude::*;

verus! {

/// An 8-bit operand: a register, or memory through a register pair or the
/// instruction's immediate bytes.
#[derive(Debug, Clone, Copy, PartialEq, Eq, Structural)]
pub enum Regs {
    RegA,
    RegB,
    RegC,
    RegD,
    RegE,
    RegH,
    RegL,
    HLPointee,
    BCPointee,
    DEPointee,
    BytesFromPCPointee,
    UpperRamOffsetFromPC,
    UpperRamOffsetFromRegC,
    ByteFromPC,
}

/// A 16-bit operand.
#[derive(Debug, Clone, Copy, PartialEq, Eq, Structural)]
pub enum RegPairs {
    RegsAF,
    RegsBC,
    RegsDE,
    RegsHL,
    RegSP,
    BytesFromPCPointee,
    BytesFromPC,
}

#[derive(Debug, Clone, Copy, PartialEq, Eq, Structural)]
pub enum JumpCondition {
    NotZero,
    Zero,
    NotCarry,
    Carry,
}

#[derive(Debug, Clone, Copy, PartialEq, Eq, Structural)]
pub enum ResetLocation {
    Hex00,
    Hex08,
    Hex10,
    Hex18,
    Hex20,
    Hex28,
    Hex30,
    Hex38,
}

/// A decoded instruction. The first field is its length in bytes, the second
/// its T-cycle count (for a conditional branch: when not taken).
#[derive(Debug, Clone, Copy, PartialEq, Eq, Structural)]
pub enum Instruction {
    LD(u8, u8, Regs, Regs),
    LDI(u8, u8, Regs, Regs),
    LDD(u8, u8, Regs, Regs),
    LD16(u8, u8, RegPairs, RegPairs),
    PUSH(u8, u8, RegPairs),
    POP(u8, u8, RegPairs),
    ADDAs(u8, u8, Regs),
    ADCAs(u8, u8, Regs),
    SUBs(u8, u8, Regs),
    SBCAs(u8, u8, Regs),
    ANDs(u8, u8, Regs),
    XORs(u8, u8, Regs),
    ORs(u8, u8, Regs),
    CPs(u8, u8, Regs),
    INCs(u8, u8, Regs),
    DECs(u8, u8, Regs),
    DAA(u8, u8),
    CPL(u8, u8),
    ADDHLss(u8, u8, RegPairs),
    INCss(u8, u8, RegPairs),
    DECss(u8, u8, RegPairs),
    ADDSPe(u8, u8),
    LDHLSPe(u8, u8),
    RLCA(u8, u8),
    RLA(u8, u8),
    RRCA(u8, u8),
    RRA(u8, u8),
    RLC(u8, u8, Regs),
    RL(u8, u8, Regs),
    RRC(u8, u8, Regs),
    RR(u8, u8, Regs),
    SLA(u8, u8, Regs),
    SWAP(u8, u8, Regs),
    SRA(u8, u8, Regs),
    SRL(u8, u8, Regs),
    BIT(u8, u8, u8, Regs),
    SET(u8, u8, u8, Regs),
    RES(u8, u8, u8, Regs),
    CCF(u8, u8),
    SCF(u8, u8),
    NOP(u8, u8),
    HALT(u8, u8),
    STOP(u8, u8),
    DI(u8, u8),
    EI(u8, u8),
    JPnn(u8, u8),
    JPHL(u8, u8),
    JPfnn(u8, u8, JumpCondition),
    JR(u8, u8),
    JRf(u8, u8, JumpCondition),
    CALL(u8, u8),
    CALLf(u8, u8, JumpCondition),
    ISR(u8, u8),
    RET(u8, u8),
    RETf(u8, u8, JumpCondition),
    RETI(u8, u8),
    RST(u8, u8, ResetLocation),
}

/// The primary opcode map (0xCB, the prefix, is decoded by `cb_decode`). The
/// eleven unmapped opcodes give `None`.
pub open spec fn primary_decode(opcode: u8) -> Option<Instruction> {
    match opcode {
        0x00 => Some(Instruction::NOP(1, 4)),
        0x01 => Some(Instruction::LD16(3, 12, RegPairs::RegsBC, RegPairs::BytesFromPC)),
        0x02 => Some(Instruction::LD(1, 8, Regs::BCPointee, Regs::RegA)),
        0x03 => Some(Instruction::INCss(1, 8, RegPairs::RegsBC)),
        0x04 => Some(Instruction::INCs(1, 4, Regs::RegB)),
        0x05 => Some(Instruction::DECs(1, 4, Regs::RegB)),
        0x06 => Some(Instruction::LD(2, 8, Regs::RegB, Regs::ByteFromPC)),
        0x07 => Some(Instruction::RLCA(1, 4)),
        0x08 => Some(Instruction::LD16(3, 20, RegPairs::BytesFromPCPointee, RegPairs::RegSP)),
        0x09 => Some(Instruction::ADDHLss(1, 8, RegPairs::RegsBC)),
        0x0A => Some(Instruction::LD(1, 8, Regs::RegA, Regs::BCPointee)),
        0x0B => Some(Instruction::DECss(1, 8, RegPairs::RegsBC)),
        0x0C => Some(Instruction::INCs(1, 4, Regs::RegC)),
        0x0D => Some(Instruction::DECs(1, 4, Regs::RegC)),
        0x0E => Some(Instruction::LD(2, 8, Regs::RegC, Regs::ByteFromPC)),
        0x0F => Some(Instruction::RRCA(1, 4)),
        0x10 => Some(Instruction::STOP(2, 4)),
        0x11 => Some(Instruction::LD16(3, 12, RegPairs::RegsDE, RegPairs::BytesFromPC)),
        0x12 => Some(Instruction::LD(1, 8, Regs::DEPointee, Regs::RegA)),
        0x13 => Some(Instruction::INCss(1, 8, RegPairs::RegsDE)),
        0x14 => Some(Instruction::INCs(1, 4, Regs::RegD)),
        0x15 => Some(Instruction::DECs(1, 4, Regs::RegD)),
        0x16 => Some(Instruction::LD(2, 8, Regs::RegD, Regs::ByteFromPC)),
        0x17 => Some(Instruction::RLA(1, 4)),
        0x18 => Some(Instruction::JR(2, 12)),
        0x19 => Some(Instruction::ADDHLss(1, 8, RegPairs::RegsDE)),
        0x1A => Some(Instruction::LD(1, 8, Regs::RegA, Regs::DEPointee)),
        0x1B => Some(Instruction::DECss(1, 8, RegPairs::RegsDE)),
        0x1C => Some(Instruction::INCs(1, 4, Regs::RegE)),
        0x1D => Some(Instruction::DECs(1, 4, Regs::RegE)),
        0x1E => Some(Instruction::LD(2, 8, Regs::RegE, Regs::ByteFromPC)),
        0x1F => Some(Instruction::RRA(1, 4)),
        0x20 => Some(Instruction::JRf(2, 8, JumpCondition::NotZero)),
        0x21 => Some(Instruction::LD16(3, 12, RegPairs::RegsHL, RegPairs::BytesFromPC)),
        0x22 => Some(Instruction::LDI(1, 8, Regs::HLPointee, Regs::RegA)),
        0x23 => Some(Instruction::INCss(1, 8, RegPairs::RegsHL)),
        0x24 => Some(Instruction::INCs(1, 4, Regs::RegH)),
        0x25 => Some(Instruction::DECs(1, 4, Regs::RegH)),
        0x26 => Some(Instruction::LD(2, 8, Regs::RegH, Regs::ByteFromPC)),
        0x27 => Some(Instruction::DAA(1, 4)),
        0x28 => Some(Instruction::JRf(2, 8, JumpCondition::Zero)),
        0x29 => Some(Instruction::ADDHLss(1, 8, RegPairs::RegsHL)),
        0x2A => Some(Instruction::LDI(1, 8, Regs::RegA, Regs::HLPointee)),
        0x2B => Some(Instruction::DECss(1, 8, RegPairs::RegsHL)),
        0x2C => Some(Instruction::INCs(1, 4, Regs::RegL)),
        0x2D => Some(Instruction::DECs(1, 4, Regs::RegL)),
        0x2E => Some(Instruction::LD(2, 8, Regs::RegL, Regs::ByteFromPC)),
        0x2F => Some(Instruction::CPL(1, 4)),
        0x30 => Some(Instruction::JRf(2, 8, JumpCondition::NotCarry)),
        0x31 => Some(Instruction::LD16(3, 12, RegPairs::RegSP, RegPairs::BytesFromPC)),
        0x32 => Some(Instruction::LDD(1, 8, Regs::HLPointee, Regs::RegA)),
        0x33 => Some(Instruction::INCss(1, 8, RegPairs::RegSP)),
        0x34 => Some(Instruction::INCs(1, 12, Regs::HLPointee)),
        0x35 => Some(Instruction::DECs(1, 12, Regs::HLPointee)),
        0x36 => Some(Instruction::LD(2, 12, Regs::HLPointee, Regs::ByteFromPC)),
        0x37 => Some(Instruction::SCF(1, 4)),
        0x38 => Some(Instruction::JRf(2, 8, JumpCondition::Carry)),
        0x39 => Some(Instruction::ADDHLss(1, 8, RegPairs::RegSP)),
        0x3A => Some(Instruction::LDD(1, 8, Regs::RegA, Regs::HLPointee)),
        0x3B => Some(Instruction::DECss(1, 8, RegPairs::RegSP)),
        0x3C => Some(Instruction::INCs(1, 4, Regs::RegA)),
        0x3D => Some(Instruction::DECs(1, 4, Regs::RegA)),
        0x3E => Some(Instruction::LD(2, 8, Regs::RegA, Regs::ByteFromPC)),
        0x3F => Some(Instruction::CCF(1, 4)),
        0x40 => Some(Instruction::LD(1, 4, Regs::RegB, Regs::RegB)),
        0x41 => Some(Instruction::LD(1, 4, Regs::RegB, Regs::RegC)),
        0x42 => Some(Instruction::LD(1, 4, Regs::RegB, Regs::RegD)),
        0x43 => Some(Instruction::LD(1, 4, Regs::RegB, Regs::RegE)),
        0x44 => Some(Instruction::LD(1, 4, Regs::RegB, Regs::RegH)),
        0x45 => Some(Instruction::LD(1, 4, Regs::RegB, Regs::RegL)),
        0x46 => Some(Instruction::LD(1, 8, Regs::RegB, Regs::HLPointee)),
        0x47 => Some(Instruction::LD(1, 4, Regs::RegB, Regs::RegA)),
        0x48 => Some(Instruction::LD(1, 4, Regs::RegC, Regs::RegB)),
        0x49 => Some(Instruction::LD(1, 4, Regs::RegC, Regs::RegC)),
        0x4A => Some(Instruction::LD(1, 4, Regs::RegC, Regs::RegD)),
        0x4B => Some(Instruction::LD(1, 4, Regs::RegC, Regs::RegE)),
        0x4C => Some(Instruction::LD(1, 4, Regs::RegC, Regs::RegH)),
        0x4D => Some(Instruction::LD(1, 4, Regs::RegC, Regs::RegL)),
        0x4E => Some(Instruction::LD(1, 8, Regs::RegC, Regs::HLPointee)),
        0x4F => Some(Instruction::LD(1, 4, Regs::RegC, Regs::RegA)),
        0x50 => Some(Instruction::LD(1, 4, Regs::RegD, Regs::RegB)),
        0x51 => Some(Instruction::LD(1, 4, Regs::RegD, Regs::RegC)),
        0x52 => Some(Instruction::LD(1, 4, Regs::RegD, Regs::RegD)),
        0x53 => Some(Instruction::LD(1, 4, Regs::RegD, Regs::RegE)),
        0x54 => Some(Instruction::LD(1, 4, Regs::RegD, Regs::RegH)),
        0x55 => Some(Instruction::LD(1, 4, Regs::RegD, Regs::RegL)),
        0x56 => Some(Instruction::LD(1, 8, Regs::RegD, Regs::HLPointee)),
        0x57 => Some(Instruction::LD(1, 4, Regs::RegD, Regs::RegA)),
        0x58 => Some(Instruction::LD(1, 4, Regs::RegE, Regs::RegB)),
        0x59 => Some(Instruction::LD(1, 4, Regs::RegE, Regs::RegC)),
        0x5A => Some(Instruction::LD(1, 4, Regs::RegE, Regs::RegD)),
        0x5B => Some(Instruction::LD(1, 4, Regs::RegE, Regs::RegE)),
        0x5C => Some(Instruction::LD(1, 4, Regs::RegE, Regs::RegH)),
        0x5D => Some(Instruction::LD(1, 4, Regs::RegE, Regs::RegL)),
        0x5E => Some(Instruction::LD(1, 8, Regs::RegE, Regs::HLPointee)),
        0x5F => Some(Instruction::LD(1, 4, Regs::RegE, Regs::RegA)),
        0x60 => Some(Instruction::LD(1, 4, Regs::RegH, Regs::RegB)),
        0x61 => Some(Instruction::LD(1, 4, Regs::RegH, Regs::RegC)),
        0x62 => Some(Instruction::LD(1, 4, Regs::RegH, Regs::RegD)),
        0x63 => Some(Instruction::LD(1, 4, Regs::RegH, Regs::RegE)),
        0x64 => Some(Instruction::LD(1, 4, Regs::RegH, Regs::RegH)),
        0x65 => Some(Instruction::LD(1, 4, Regs::RegH, Regs::RegL)),
        0x66 => Some(Instruction::LD(1, 8, Regs::RegH, Regs::HLPointee)),
        0x67 => Some(Instruction::LD(1, 4, Regs::RegH, Regs::RegA)),
        0x68 => Some(Instruction::LD(1, 4, Regs::RegL, Regs::RegB)),
        0x69 => Some(Instruction::LD(1, 4, Regs::RegL, Regs::RegC)),
        0x6A => Some(Instruction::LD(1, 4, Regs::RegL, Regs::RegD)),
        0x6B => Some(Instruction::LD(1, 4, Regs::RegL, Regs::RegE)),
        0x6C => Some(Instruction::LD(1, 4, Regs::RegL, Regs::RegH)),
        0x6D => Some(Instruction::LD(1, 4, Regs::RegL, Regs::RegL)),
        0x6E => Some(Instruction::LD(1, 8, Regs::RegL, Regs::HLPointee)),
        0x6F => Some(Instruction::LD(1, 4, Regs::RegL, Regs::RegA)),
        0x70 => Some(Instruction::LD(1, 8, Regs::HLPointee, Regs::RegB)),
        0x71 => Some(Instruction::LD(1, 8, Regs::HLPointee, Regs::RegC)),
        0x72 => Some(Instruction::LD(1, 8, Regs::HLPointee, Regs::RegD)),
        0x73 => Some(Instruction::LD(1, 8, Regs::HLPointee, Regs::RegE)),
        0x74 => Some(Instruction::LD(1, 8, Regs::HLPointee, Regs::RegH)),
        0x75 => Some(Instruction::LD(1, 8, Regs::HLPointee, Regs::RegL)),
        0x76 => Some(Instruction::HALT(1, 4)),
        0x77 => Some(Instruction::LD(1, 8, Regs::HLPointee, Regs::RegA)),
        0x78 => Some(Instruction::LD(1, 4, Regs::RegA, Regs::RegB)),
        0x79 => Some(Instruction::LD(1, 4, Regs::RegA, Regs::RegC)),
        0x7A => Some(Instruction::LD(1, 4, Regs::RegA, Regs::RegD)),
        0x7B => Some(Instruction::LD(1, 4, Regs::RegA, Regs::RegE)),
        0x7C => Some(Instruction::LD(1, 4, Regs::RegA, Regs::RegH)),
        0x7D => Some(Instruction::LD(1, 4, Regs::RegA, Regs::RegL)),
        0x7E => Some(Instruction::LD(1, 8, Regs::RegA, Regs::HLPointee)),
        0x7F => Some(Instruction::LD(1, 4, Regs::RegA, Regs::RegA)),
        0x80 => Some(Instruction::ADDAs(1, 4, Regs::RegB)),
        0x81 => Some(Instruction::ADDAs(1, 4, Regs::RegC)),
        0x82 => Some(Instruction::ADDAs(1, 4, Regs::RegD)),
        0x83 => Some(Instruction::ADDAs(1, 4, Regs::RegE)),
        0x84 => Some(Instruction::ADDAs(1, 4, Regs::RegH)),
        0x85 => Some(Instruction::ADDAs(1, 4, Regs::RegL)),
        0x86 => Some(Instruction::ADDAs(1, 8, Regs::HLPointee)),
        0x87 => Some(Instruction::ADDAs(1, 4, Regs::RegA)),
        0x88 => Some(Instruction::ADCAs(1, 4, Regs::RegB)),
        0x89 => Some(Instruction::ADCAs(1, 4, Regs::RegC)),
        0x8A => Some(Instruction::ADCAs(1, 4, Regs::RegD)),
        0x8B => Some(Instruction::ADCAs(1, 4, Regs::RegE)),
        0x8C => Some(Instruction::ADCAs(1, 4, Regs::RegH)),
        0x8D => Some(Instruction::ADCAs(1, 4, Regs::RegL)),
        0x8E => Some(Instruction::ADCAs(1, 8, Regs::HLPointee)),
        0x8F => Some(Instruction::ADCAs(1, 4, Regs::RegA)),
        0x90 => Some(Instruction::SUBs(1, 4, Regs::RegB)),
        0x91 => Some(Instruction::SUBs(1, 4, Regs::RegC)),
        0x92 => Some(Instruction::SUBs(1, 4, Regs::RegD)),
        0x93 => Some(Instruction::SUBs(1, 4, Regs::RegE)),
        0x94 => Some(Instruction::SUBs(1, 4, Regs::RegH)),
        0x95 => Some(Instruction::SUBs(1, 4, Regs::RegL)),
        0x96 => Some(Instruction::SUBs(1, 8, Regs::HLPointee)),
        0x97 => Some(Instruction::SUBs(1, 4, Regs::RegA)),
        0x98 => Some(Instruction::SBCAs(1, 4, Regs::RegB)),
        0x99 => Some(Instruction::SBCAs(1, 4, Regs::RegC)),
        0x9A => Some(Instruction::SBCAs(1, 4, Regs::RegD)),
        0x9B => Some(Instruction::SBCAs(1, 4, Regs::RegE)),
        0x9C => Some(Instruction::SBCAs(1, 4, Regs::RegH)),
        0x9D => Some(Instruction::SBCAs(1, 4, Regs::RegL)),
        0x9E => Some(Instruction::SBCAs(1, 8, Regs::HLPointee)),
        0x9F => Some(Instruction::SBCAs(1, 4, Regs::RegA)),
        0xA0 => Some(Instruction::ANDs(1, 4, Regs::RegB)),
        0xA1 => Some(Instruction::ANDs(1, 4, Regs::RegC)),
        0xA2 => Some(Instruction::ANDs(1, 4, Regs::RegD)),
        0xA3 => Some(Instruction::ANDs(1, 4, Regs::RegE)),
        0xA4 => Some(Instruction::ANDs(1, 4, Regs::RegH)),
        0xA5 => Some(Instruction::ANDs(1, 4, Regs::RegL)),
        0xA6 => Some(Instruction::ANDs(1, 8, Regs::HLPointee)),
        0xA7 => Some(Instruction::ANDs(1, 4, Regs::RegA)),
        0xA8 => Some(Instruction::XORs(1, 4, Regs::RegB)),
        0xA9 => Some(Instruction::XORs(1, 4, Regs::RegC)),
        0xAA => Some(Instruction::XORs(1, 4, Regs::RegD)),
        0xAB => Some(Instruction::XORs(1, 4, Regs::RegE)),
        0xAC => Some(Instruction::XORs(1, 4, Regs::RegH)),
        0xAD => Some(Instruction::XORs(1, 4, Regs::RegL)),
        0xAE => Some(Instruction::XORs(1, 8, Regs::HLPointee)),
        0xAF => Some(Instruction::XORs(1, 4, Regs::RegA)),
        0xB0 => Some(Instruction::ORs(1, 4, Regs::RegB)),
        0xB1 => Some(Instruction::ORs(1, 4, Regs::RegC)),
        0xB2 => Some(Instruction::ORs(1, 4, Regs::RegD)),
        0xB3 => Some(Instruction::ORs(1, 4, Regs::RegE)),
        0xB4 => Some(Instruction::ORs(1, 4, Regs::RegH)),
        0xB5 => Some(Instruction::ORs(1, 4, Regs::RegL)),
        0xB6 => Some(Instruction::ORs(1, 8, Regs::HLPointee)),
        0xB7 => Some(Instruction::ORs(1, 4, Regs::RegA)),
        0xB8 => Some(Instruction::CPs(1, 4, Regs::RegB)),
        0xB9 => Some(Instruction::CPs(1, 4, Regs::RegC)),
        0xBA => Some(Instruction::CPs(1, 4, Regs::RegD)),
        0xBB => Some(Instruction::CPs(1, 4, Regs::RegE)),
        0xBC => Some(Instruction::CPs(1, 4, Regs::RegH)),
        0xBD => Some(Instruction::CPs(1, 4, Regs::RegL)),
        0xBE => Some(Instruction::CPs(1, 8, Regs::HLPointee)),
        0xBF => Some(Instruction::CPs(1, 4, Regs::RegA)),
        0xC0 => Some(Instruction::RETf(1, 8, JumpCondition::NotZero)),
        0xC1 => Some(Instruction::POP(1, 12, RegPairs::RegsBC)),
        0xC2 => Some(Instruction::JPfnn(3, 12, JumpCondition::NotZero)),
        0xC3 => Some(Instruction::JPnn(3, 16)),
        0xC4 => Some(Instruction::CALLf(3, 12, JumpCondition::NotZero)),
        0xC5 => Some(Instruction::PUSH(1, 16, RegPairs::RegsBC)),
        0xC6 => Some(Instruction::ADDAs(2, 8, Regs::ByteFromPC)),
        0xC7 => Some(Instruction::RST(1, 16, ResetLocation::Hex00)),
        0xC8 => Some(Instruction::RETf(1, 8, JumpCondition::Zero)),
        0xC9 => Some(Instruction::RET(1, 16)),
        0xCA => Some(Instruction::JPfnn(3, 12, JumpCondition::Zero)),
        0xCC => Some(Instruction::CALLf(3, 12, JumpCondition::Zero)),
        0xCD => Some(Instruction::CALL(3, 24)),
        0xCE => Some(Instruction::ADCAs(2, 8, Regs::ByteFromPC)),
        0xCF => Some(Instruction::RST(1, 16, ResetLocation::Hex08)),
        0xD0 => Some(Instruction::RETf(1, 8, JumpCondition::NotCarry)),
        0xD1 => Some(Instruction::POP(1, 12, RegPairs::RegsDE)),
        0xD2 => Some(Instruction::JPfnn(3, 12, JumpCondition::NotCarry)),
        0xD4 => Some(Instruction::CALLf(3, 12, JumpCondition::NotCarry)),
        0xD5 => Some(Instruction::PUSH(1, 16, RegPairs::RegsDE)),
        0xD6 => Some(Instruction::SUBs(2, 8, Regs::ByteFromPC)),
        0xD7 => Some(Instruction::RST(1, 16, ResetLocation::Hex10)),
        0xD8 => Some(Instruction::RETf(1, 8, JumpCondition::Carry)),
        0xD9 => Some(Instruction::RETI(1, 16)),
        0xDA => Some(Instruction::JPfnn(3, 12, JumpCondition::Carry)),
        0xDC => Some(Instruction::CALLf(3, 12, JumpCondition::Carry)),
        0xDE => Some(Instruction::SBCAs(2, 8, Regs::ByteFromPC)),
        0xDF => Some(Instruction::RST(1, 16, ResetLocation::Hex18)),
        0xE0 => Some(Instruction::LD(2, 12, Regs::UpperRamOffsetFromPC, Regs::RegA)),
        0xE1 => Some(Instruction::POP(1, 12, RegPairs::RegsHL)),
        0xE2 => Some(Instruction::LD(1, 8, Regs::UpperRamOffsetFromRegC, Regs::RegA)),
        0xE5 => Some(Instruction::PUSH(1, 16, RegPairs::RegsHL)),
        0xE6 => Some(Instruction::ANDs(2, 8, Regs::ByteFromPC)),
        0xE7 => Some(Instruction::RST(1, 16, ResetLocation::Hex20)),
        0xE8 => Some(Instruction::ADDSPe(2, 16)),
        0xE9 => Some(Instruction::JPHL(1, 4)),
        0xEA => Some(Instruction::LD(3, 16, Regs::BytesFromPCPointee, Regs::RegA)),
        0xEE => Some(Instruction::XORs(2, 8, Regs::ByteFromPC)),
        0xEF => Some(Instruction::RST(1, 16, ResetLocation::Hex28)),
        0xF0 => Some(Instruction::LD(2, 12, Regs::RegA, Regs::UpperRamOffsetFromPC)),
        0xF1 => Some(Instruction::POP(1, 12, RegPairs::RegsAF)),
        0xF2 => Some(Instruction::LD(1, 8, Regs::RegA, Regs::UpperRamOffsetFromRegC)),
        0xF3 => Some(Instruction::DI(1, 4)),
        0xF5 => Some(Instruction::PUSH(1, 16, RegPairs::RegsAF)),
        0xF6 => Some(Instruction::ORs(2, 8, Regs::ByteFromPC)),
        0xF7 => Some(Instruction::RST(1, 16, ResetLocation::Hex30)),
        0xF8 => Some(Instruction::LDHLSPe(2, 12)),
        0xF9 => Some(Instruction::LD16(1, 8, RegPairs::RegSP, RegPairs::RegsHL)),
        0xFA => Some(Instruction::LD(3, 16, Regs::RegA, Regs::BytesFromPCPointee)),
        0xFB => Some(Instruction::EI(1, 4)),
        0xFE => Some(Instruction::CPs(2, 8, Regs::ByteFromPC)),
        0xFF => Some(Instruction::RST(1, 16, ResetLocation::Hex38)),
        _ => None,
    }
}

/// The operand named by bits 2..0 of a CB opcode: B, C, D, E, H, L, (HL), A.
pub open spec fn cb_operand(k: int) -> Regs {
    if k == 0 {
        Regs::RegB
    } else if k == 1 {
        Regs::RegC
    } else if k == 2 {
        Regs::RegD
    } else if k == 3 {
        Regs::RegE
    } else if k == 4 {
        Regs::RegH
    } else if k == 5 {
        Regs::RegL
    } else if k == 6 {
        Regs::HLPointee
    } else {
        Regs::RegA
    }
}

/// The CB-prefixed page: 0x00..=0x3F rotations and shifts (family in bits 5..3),
/// then BIT, RES and SET with the bit index in bits 5..3; the operand is in bits
/// 2..0. Each is 2 bytes; 8 cycles, 16 through (HL), 12 for BIT through (HL).
pub open spec fn cb_decode(opcode: u8) -> Instruction {
    let r = cb_operand(opcode as int % 8);
    let mem = opcode % 8 == 6;
    let c: u8 = if mem { 16 } else { 8 };
    let n = ((opcode as int / 8) % 8) as u8;
    if opcode < 0x40 {
        if n == 0 {
            Instruction::RLC(2, c, r)
        } else if n == 1 {
            Instruction::RRC(2, c, r)
        } else if n == 2 {
            Instruction::RL(2, c, r)
        } else if n == 3 {
            Instruction::RR(2, c, r)
        } else if n == 4 {
            Instruction::SLA(2, c, r)
        } else if n == 5 {
            Instruction::SRA(2, c, r)
        } else if n == 6 {
            Instruction::SWAP(2, c, r)
        } else {
            Instruction::SRL(2, c, r)
        }
    } else if opcode < 0x80 {
        Instruction::BIT(2, if mem { 12 } else { 8 }, n, r)
    } else if opcode < 0xC0 {
        Instruction::RES(2, c, n, r)
    } else {
        Instruction::SET(2, c, n, r)
    }
}

fn cb_operand_exec(k: u8) -> (r: Regs)
    ensures
        r == cb_operand(k as int),
{
    if k == 0 {
        Regs::RegB
    } else if k == 1 {
        Regs::RegC
    } else if k == 2 {
        Regs::RegD
    } else if k == 3 {
        Regs::RegE
    } else if k == 4 {
        Regs::RegH
    } else if k == 5 {
        Regs::RegL
    } else if k == 6 {
        Regs::HLPointee
    } else {
        Regs::RegA
    }
}

impl Instruction {
    /// Decodes a primary opcode other than the 0xCB prefix.
    pub fn decode_primary(opcode: u8) -> (r: Option<Instruction>)
        ensures
            r == primary_decode(opcode),
    {
        match opcode {
            0x00 => Some(Instruction::NOP(1, 4)),
            0x01 => Some(Instruction::LD16(3, 12, RegPairs::RegsBC, RegPairs::BytesFromPC)),
            0x02 => Some(Instruction::LD(1, 8, Regs::BCPointee, Regs::RegA)),
            0x03 => Some(Instruction::INCss(1, 8, RegPairs::RegsBC)),
            0x04 => Some(Instruction::INCs(1, 4, Regs::RegB)),
            0x05 => Some(Instruction::DECs(1, 4, Regs::RegB)),
            0x06 => Some(Instruction::LD(2, 8, Regs::RegB, Regs::ByteFromPC)),
            0x07 => Some(Instruction::RLCA(1, 4)),
            0x08 => Some(Instruction::LD16(3, 20, RegPairs::BytesFromPCPointee, RegPairs::RegSP)),
            0x09 => Some(Instruction::ADDHLss(1, 8, RegPairs::RegsBC)),
            0x0A => Some(Instruction::LD(1, 8, Regs::RegA, Regs::BCPointee)),
            0x0B => Some(Instruction::DECss(1, 8, RegPairs::RegsBC)),
            0x0C => Some(Instruction::INCs(1, 4, Regs::RegC)),
            0x0D => Some(Instruction::DECs(1, 4, Regs::RegC)),
            0x0E => Some(Instruction::LD(2, 8, Regs::RegC, Regs::ByteFromPC)),
            0x0F => Some(Instruction::RRCA(1, 4)),
            0x10 => Some(Instruction::STOP(2, 4)),
            0x11 => Some(Instruction::LD16(3, 12, RegPairs::RegsDE, RegPairs::BytesFromPC)),
            0x12 => Some(Instruction::LD(1, 8, Regs::DEPointee, Regs::RegA)),
            0x13 => Some(Instruction::INCss(1, 8, RegPairs::RegsDE)),
            0x14 => Some(Instruction::INCs(1, 4, Regs::RegD)),
            0x15 => Some(Instruction::DECs(1, 4, Regs::RegD)),
            0x16 => Some(Instruction::LD(2, 8, Regs::RegD, Regs::ByteFromPC)),
            0x17 => Some(Instruction::RLA(1, 4)),
            0x18 => Some(Instruction::JR(2, 12)),
            0x19 => Some(Instruction::ADDHLss(1, 8, RegPairs::RegsDE)),
            0x1A => Some(Instruction::LD(1, 8, Regs::RegA, Regs::DEPointee)),
            0x1B => Some(Instruction::DECss(1, 8, RegPairs::RegsDE)),
            0x1C => Some(Instruction::INCs(1, 4, Regs::RegE)),
            0x1D => Some(Instruction::DECs(1, 4, Regs::RegE)),
            0x1E => Some(Instruction::LD(2, 8, Regs::RegE, Regs::ByteFromPC)),
            0x1F => Some(Instruction::RRA(1, 4)),
            0x20 => Some(Instruction::JRf(2, 8, JumpCondition::NotZero)),
            0x21 => Some(Instruction::LD16(3, 12, RegPairs::RegsHL, RegPairs::BytesFromPC)),
            0x22 => Some(Instruction::LDI(1, 8, Regs::HLPointee, Regs::RegA)),
            0x23 => Some(Instruction::INCss(1, 8, RegPairs::RegsHL)),
            0x24 => Some(Instruction::INCs(1, 4, Regs::RegH)),
            0x25 => Some(Instruction::DECs(1, 4, Regs::RegH)),
            0x26 => Some(Instruction::LD(2, 8, Regs::RegH, Regs::ByteFromPC)),
            0x27 => Some(Instruction::DAA(1, 4)),
            0x28 => Some(Instruction::JRf(2, 8, JumpCondition::Zero)),
            0x29 => Some(Instruction::ADDHLss(1, 8, RegPairs::RegsHL)),
            0x2A => Some(Instruction::LDI(1, 8, Regs::RegA, Regs::HLPointee)),
            0x2B => Some(Instruction::DECss(1, 8, RegPairs::RegsHL)),
            0x2C => Some(Instruction::INCs(1, 4, Regs::RegL)),
            0x2D => Some(Instruction::DECs(1, 4, Regs::RegL)),
            0x2E => Some(Instruction::LD(2, 8, Regs::RegL, Regs::ByteFromPC)),
            0x2F => Some(Instruction::CPL(1, 4)),
            0x30 => Some(Instruction::JRf(2, 8, JumpCondition::NotCarry)),
            0x31 => Some(Instruction::LD16(3, 12, RegPairs::RegSP, RegPairs::BytesFromPC)),
            0x32 => Some(Instruction::LDD(1, 8, Regs::HLPointee, Regs::RegA)),
            0x33 => Some(Instruction::INCss(1, 8, RegPairs::RegSP)),
            0x34 => Some(Instruction::INCs(1, 12, Regs::HLPointee)),
            0x35 => Some(Instruction::DECs(1, 12, Regs::HLPointee)),
            0x36 => Some(Instruction::LD(2, 12, Regs::HLPointee, Regs::ByteFromPC)),
            0x37 => Some(Instruction::SCF(1, 4)),
            0x38 => Some(Instruction::JRf(2, 8, JumpCondition::Carry)),
            0x39 => Some(Instruction::ADDHLss(1, 8, RegPairs::RegSP)),
            0x3A => Some(Instruction::LDD(1, 8, Regs::RegA, Regs::HLPointee)),
            0x3B => Some(Instruction::DECss(1, 8, RegPairs::RegSP)),
            0x3C => Some(Instruction::INCs(1, 4, Regs::RegA)),
            0x3D => Some(Instruction::DECs(1, 4, Regs::RegA)),
            0x3E => Some(Instruction::LD(2, 8, Regs::RegA, Regs::ByteFromPC)),
            0x3F => Some(Instruction::CCF(1, 4)),
            0x40 => Some(Instruction::LD(1, 4, Regs::RegB, Regs::RegB)),
            0x41 => Some(Instruction::LD(1, 4, Regs::RegB, Regs::RegC)),
            0x42 => Some(Instruction::LD(1, 4, Regs::RegB, Regs::RegD)),
            0x43 => Some(Instruction::LD(1, 4, Regs::RegB, Regs::RegE)),
            0x44 => Some(Instruction::LD(1, 4, Regs::RegB, Regs::RegH)),
            0x45 => Some(Instruction::LD(1, 4, Regs::RegB, Regs::RegL)),
            0x46 => Some(Instruction::LD(1, 8, Regs::RegB, Regs::HLPointee)),
            0x47 => Some(Instruction::LD(1, 4, Regs::RegB, Regs::RegA)),
            0x48 => Some(Instruction::LD(1, 4, Regs::RegC, Regs::RegB)),
            0x49 => Some(Instruction::LD(1, 4, Regs::RegC, Regs::RegC)),
            0x4A => Some(Instruction::LD(1, 4, Regs::RegC, Regs::RegD)),
            0x4B => Some(Instruction::LD(1, 4, Regs::RegC, Regs::RegE)),
            0x4C => Some(Instruction::LD(1, 4, Regs::RegC, Regs::RegH)),
            0x4D => Some(Instruction::LD(1, 4, Regs::RegC, Regs::RegL)),
            0x4E => Some(Instruction::LD(1, 8, Regs::RegC, Regs::HLPointee)),
            0x4F => Some(Instruction::LD(1, 4, Regs::RegC, Regs::RegA)),
            0x50 => Some(Instruction::LD(1, 4, Regs::RegD, Regs::RegB)),
            0x51 => Some(Instruction::LD(1, 4, Regs::RegD, Regs::RegC)),
            0x52 => Some(Instruction::LD(1, 4, Regs::RegD, Regs::RegD)),
            0x53 => Some(Instruction::LD(1, 4, Regs::RegD, Regs::RegE)),
            0x54 => Some(Instruction::LD(1, 4, Regs::RegD, Regs::RegH)),
            0x55 => Some(Instruction::LD(1, 4, Regs::RegD, Regs::RegL)),
            0x56 => Some(Instruction::LD(1, 8, Regs::RegD, Regs::HLPointee)),
            0x57 => Some(Instruction::LD(1, 4, Regs::RegD, Regs::RegA)),
            0x58 => Some(Instruction::LD(1, 4, Regs::RegE, Regs::RegB)),
            0x59 => Some(Instruction::LD(1, 4, Regs::RegE, Regs::RegC)),
            0x5A => Some(Instruction::LD(1, 4, Regs::RegE, Regs::RegD)),
            0x5B => Some(Instruction::LD(1, 4, Regs::RegE, Regs::RegE)),
            0x5C => Some(Instruction::LD(1, 4, Regs::RegE, Regs::RegH)),
            0x5D => Some(Instruction::LD(1, 4, Regs::RegE, Regs::RegL)),
            0x5E => Some(Instruction::LD(1, 8, Regs::RegE, Regs::HLPointee)),
            0x5F => Some(Instruction::LD(1, 4, Regs::RegE, Regs::RegA)),
            0x60 => Some(Instruction::LD(1, 4, Regs::RegH, Regs::RegB)),
            0x61 => Some(Instruction::LD(1, 4, Regs::RegH, Regs::RegC)),
            0x62 => Some(Instruction::LD(1, 4, Regs::RegH, Regs::RegD)),
            0x63 => Some(Instruction::LD(1, 4, Regs::RegH, Regs::RegE)),
            0x64 => Some(Instruction::LD(1, 4, Regs::RegH, Regs::RegH)),
            0x65 => Some(Instruction::LD(1, 4, Regs::RegH, Regs::RegL)),
            0x66 => Some(Instruction::LD(1, 8, Regs::RegH, Regs::HLPointee)),
            0x67 => Some(Instruction::LD(1, 4, Regs::RegH, Regs::RegA)),
            0x68 => Some(Instruction::LD(1, 4, Regs::RegL, Regs::RegB)),
            0x69 => Some(Instruction::LD(1, 4, Regs::RegL, Regs::RegC)),
            0x6A => Some(Instruction::LD(1, 4, Regs::RegL, Regs::RegD)),
            0x6B => Some(Instruction::LD(1, 4, Regs::RegL, Regs::RegE)),
            0x6C => Some(Instruction::LD(1, 4, Regs::RegL, Regs::RegH)),
            0x6D => Some(Instruction::LD(1, 4, Regs::RegL, Regs::RegL)),
            0x6E => Some(Instruction::LD(1, 8, Regs::RegL, Regs::HLPointee)),
            0x6F => Some(Instruction::LD(1, 4, Regs::RegL, Regs::RegA)),
            0x70 => Some(Instruction::LD(1, 8, Regs::HLPointee, Regs::RegB)),
            0x71 => Some(Instruction::LD(1, 8, Regs::HLPointee, Regs::RegC)),
            0x72 => Some(Instruction::LD(1, 8, Regs::HLPointee, Regs::RegD)),
            0x73 => Some(Instruction::LD(1, 8, Regs::HLPointee, Regs::RegE)),
            0x74 => Some(Instruction::LD(1, 8, Regs::HLPointee, Regs::RegH)),
            0x75 => Some(Instruction::LD(1, 8, Regs::HLPointee, Regs::RegL)),
            0x76 => Some(Instruction::HALT(1, 4)),
            0x77 => Some(Instruction::LD(1, 8, Regs::HLPointee, Regs::RegA)),
            0x78 => Some(Instruction::LD(1, 4, Regs::RegA, Regs::RegB)),
            0x79 => Some(Instruction::LD(1, 4, Regs::RegA, Regs::RegC)),
            0x7A => Some(Instruction::LD(1, 4, Regs::RegA, Regs::RegD)),
            0x7B => Some(Instruction::LD(1, 4, Regs::RegA, Regs::RegE)),
            0x7C => Some(Instruction::LD(1, 4, Regs::RegA, Regs::RegH)),
            0x7D => Some(Instruction::LD(1, 4, Regs::RegA, Regs::RegL)),
            0x7E => Some(Instruction::LD(1, 8, Regs::RegA, Regs::HLPointee)),
            0x7F => Some(Instruction::LD(1, 4, Regs::RegA, Regs::RegA)),
            0x80 => Some(Instruction::ADDAs(1, 4, Regs::RegB)),
            0x81 => Some(Instruction::ADDAs(1, 4, Regs::RegC)),
            0x82 => Some(Instruction::ADDAs(1, 4, Regs::RegD)),
            0x83 => Some(Instruction::ADDAs(1, 4, Regs::RegE)),
            0x84 => Some(Instruction::ADDAs(1, 4, Regs::RegH)),
            0x85 => Some(Instruction::ADDAs(1, 4, Regs::RegL)),
            0x86 => Some(Instruction::ADDAs(1, 8, Regs::HLPointee)),
            0x87 => Some(Instruction::ADDAs(1, 4, Regs::RegA)),
            0x88 => Some(Instruction::ADCAs(1, 4, Regs::RegB)),
            0x89 => Some(Instruction::ADCAs(1, 4, Regs::RegC)),
            0x8A => Some(Instruction::ADCAs(1, 4, Regs::RegD)),
            0x8B => Some(Instruction::ADCAs(1, 4, Regs::RegE)),
            0x8C => Some(Instruction::ADCAs(1, 4, Regs::RegH)),
            0x8D => Some(Instruction::ADCAs(1, 4, Regs::RegL)),
            0x8E => Some(Instruction::ADCAs(1, 8, Regs::HLPointee)),
            0x8F => Some(Instruction::ADCAs(1, 4, Regs::RegA)),
            0x90 => Some(Instruction::SUBs(1, 4, Regs::RegB)),
            0x91 => Some(Instruction::SUBs(1, 4, Regs::RegC)),
            0x92 => Some(Instruction::SUBs(1, 4, Regs::RegD)),
            0x93 => Some(Instruction::SUBs(1, 4, Regs::RegE)),
            0x94 => Some(Instruction::SUBs(1, 4, Regs::RegH)),
            0x95 => Some(Instruction::SUBs(1, 4, Regs::RegL)),
            0x96 => Some(Instruction::SUBs(1, 8, Regs::HLPointee)),
            0x97 => Some(Instruction::SUBs(1, 4, Regs::RegA)),
            0x98 => Some(Instruction::SBCAs(1, 4, Regs::RegB)),
            0x99 => Some(Instruction::SBCAs(1, 4, Regs::RegC)),
            0x9A => Some(Instruction::SBCAs(1, 4, Regs::RegD)),
            0x9B => Some(Instruction::SBCAs(1, 4, Regs::RegE)),
            0x9C => Some(Instruction::SBCAs(1, 4, Regs::RegH)),
            0x9D => Some(Instruction::SBCAs(1, 4, Regs::RegL)),
            0x9E => Some(Instruction::SBCAs(1, 8, Regs::HLPointee)),
            0x9F => Some(Instruction::SBCAs(1, 4, Regs::RegA)),
            0xA0 => Some(Instruction::ANDs(1, 4, Regs::RegB)),
            0xA1 => Some(Instruction::ANDs(1, 4, Regs::RegC)),
            0xA2 => Some(Instruction::ANDs(1, 4, Regs::RegD)),
            0xA3 => Some(Instruction::ANDs(1, 4, Regs::RegE)),
            0xA4 => Some(Instruction::ANDs(1, 4, Regs::RegH)),
            0xA5 => Some(Instruction::ANDs(1, 4, Regs::RegL)),
            0xA6 => Some(Instruction::ANDs(1, 8, Regs::HLPointee)),
            0xA7 => Some(Instruction::ANDs(1, 4, Regs::RegA)),
            0xA8 => Some(Instruction::XORs(1, 4, Regs::RegB)),
            0xA9 => Some(Instruction::XORs(1, 4, Regs::RegC)),
            0xAA => Some(Instruction::XORs(1, 4, Regs::RegD)),
            0xAB => Some(Instruction::XORs(1, 4, Regs::RegE)),
            0xAC => Some(Instruction::XORs(1, 4, Regs::RegH)),
            0xAD => Some(Instruction::XORs(1, 4, Regs::RegL)),
            0xAE => Some(Instruction::XORs(1, 8, Regs::HLPointee)),
            0xAF => Some(Instruction::XORs(1, 4, Regs::RegA)),
            0xB0 => Some(Instruction::ORs(1, 4, Regs::RegB)),
            0xB1 => Some(Instruction::ORs(1, 4, Regs::RegC)),
            0xB2 => Some(Instruction::ORs(1, 4, Regs::RegD)),
            0xB3 => Some(Instruction::ORs(1, 4, Regs::RegE)),
            0xB4 => Some(Instruction::ORs(1, 4, Regs::RegH)),
            0xB5 => Some(Instruction::ORs(1, 4, Regs::RegL)),
            0xB6 => Some(Instruction::ORs(1, 8, Regs::HLPointee)),
            0xB7 => Some(Instruction::ORs(1, 4, Regs::RegA)),
            0xB8 => Some(Instruction::CPs(1, 4, Regs::RegB)),
            0xB9 => Some(Instruction::CPs(1, 4, Regs::RegC)),
            0xBA => Some(Instruction::CPs(1, 4, Regs::RegD)),
            0xBB => Some(Instruction::CPs(1, 4, Regs::RegE)),
            0xBC => Some(Instruction::CPs(1, 4, Regs::RegH)),
            0xBD => Some(Instruction::CPs(1, 4, Regs::RegL)),
            0xBE => Some(Instruction::CPs(1, 8, Regs::HLPointee)),
            0xBF => Some(Instruction::CPs(1, 4, Regs::RegA)),
            0xC0 => Some(Instruction::RETf(1, 8, JumpCondition::NotZero)),
            0xC1 => Some(Instruction::POP(1, 12, RegPairs::RegsBC)),
            0xC2 => Some(Instruction::JPfnn(3, 12, JumpCondition::NotZero)),
            0xC3 => Some(Instruction::JPnn(3, 16)),
            0xC4 => Some(Instruction::CALLf(3, 12, JumpCondition::NotZero)),
            0xC5 => Some(Instruction::PUSH(1, 16, RegPairs::RegsBC)),
            0xC6 => Some(Instruction::ADDAs(2, 8, Regs::ByteFromPC)),
            0xC7 => Some(Instruction::RST(1, 16, ResetLocation::Hex00)),
            0xC8 => Some(Instruction::RETf(1, 8, JumpCondition::Zero)),
            0xC9 => Some(Instruction::RET(1, 16)),
            0xCA => Some(Instruction::JPfnn(3, 12, JumpCondition::Zero)),
            0xCC => Some(Instruction::CALLf(3, 12, JumpCondition::Zero)),
            0xCD => Some(Instruction::CALL(3, 24)),
            0xCE => Some(Instruction::ADCAs(2, 8, Regs::ByteFromPC)),
            0xCF => Some(Instruction::RST(1, 16, ResetLocation::Hex08)),
            0xD0 => Some(Instruction::RETf(1, 8, JumpCondition::NotCarry)),
            0xD1 => Some(Instruction::POP(1, 12, RegPairs::RegsDE)),
            0xD2 => Some(Instruction::JPfnn(3, 12, JumpCondition::NotCarry)),
            0xD4 => Some(Instruction::CALLf(3, 12, JumpCondition::NotCarry)),
            0xD5 => Some(Instruction::PUSH(1, 16, RegPairs::RegsDE)),
            0xD6 => Some(Instruction::SUBs(2, 8, Regs::ByteFromPC)),
            0xD7 => Some(Instruction::RST(1, 16, ResetLocation::Hex10)),
            0xD8 => Some(Instruction::RETf(1, 8, JumpCondition::Carry)),
            0xD9 => Some(Instruction::RETI(1, 16)),
            0xDA => Some(Instruction::JPfnn(3, 12, JumpCondition::Carry)),
            0xDC => Some(Instruction::CALLf(3, 12, JumpCondition::Carry)),
            0xDE => Some(Instruction::SBCAs(2, 8, Regs::ByteFromPC)),
            0xDF => Some(Instruction::RST(1, 16, ResetLocation::Hex18)),
            0xE0 => Some(Instruction::LD(2, 12, Regs::UpperRamOffsetFromPC, Regs::RegA)),
            0xE1 => Some(Instruction::POP(1, 12, RegPairs::RegsHL)),
            0xE2 => Some(Instruction::LD(1, 8, Regs::UpperRamOffsetFromRegC, Regs::RegA)),
            0xE5 => Some(Instruction::PUSH(1, 16, RegPairs::RegsHL)),
            0xE6 => Some(Instruction::ANDs(2, 8, Regs::ByteFromPC)),
            0xE7 => Some(Instruction::RST(1, 16, ResetLocation::Hex20)),
            0xE8 => Some(Instruction::ADDSPe(2, 16)),
            0xE9 => Some(Instruction::JPHL(1, 4)),
            0xEA => Some(Instruction::LD(3, 16, Regs::BytesFromPCPointee, Regs::RegA)),
            0xEE => Some(Instruction::XORs(2, 8, Regs::ByteFromPC)),
            0xEF => Some(Instruction::RST(1, 16, ResetLocation::Hex28)),
            0xF0 => Some(Instruction::LD(2, 12, Regs::RegA, Regs::UpperRamOffsetFromPC)),
            0xF1 => Some(Instruction::POP(1, 12, RegPairs::RegsAF)),
            0xF2 => Some(Instruction::LD(1, 8, Regs::RegA, Regs::UpperRamOffsetFromRegC)),
            0xF3 => Some(Instruction::DI(1, 4)),
            0xF5 => Some(Instruction::PUSH(1, 16, RegPairs::RegsAF)),
            0xF6 => Some(Instruction::ORs(2, 8, Regs::ByteFromPC)),
            0xF7 => Some(Instruction::RST(1, 16, ResetLocation::Hex30)),
            0xF8 => Some(Instruction::LDHLSPe(2, 12)),
            0xF9 => Some(Instruction::LD16(1, 8, RegPairs::RegSP, RegPairs::RegsHL)),
            0xFA => Some(Instruction::LD(3, 16, Regs::RegA, Regs::BytesFromPCPointee)),
            0xFB => Some(Instruction::EI(1, 4)),
            0xFE => Some(Instruction::CPs(2, 8, Regs::ByteFromPC)),
            0xFF => Some(Instruction::RST(1, 16, ResetLocation::Hex38)),
            _ => None,
        }
    }

    /// Decodes the byte that follows a 0xCB prefix.
    pub fn from_cb_opcode(opcode: u8) -> (r: Option<Instruction>)
        ensures
            r == Some(cb_decode(opcode)),
    {
        let r = cb_operand_exec(opcode % 8);
        let mem = opcode % 8 == 6;
        let c: u8 = if mem { 16 } else { 8 };
        let n = (opcode / 8) % 8;
        let i = if opcode < 0x40 {
            if n == 0 {
                Instruction::RLC(2, c, r)
            } else if n == 1 {
                Instruction::RRC(2, c, r)
            } else if n == 2 {
                Instruction::RL(2, c, r)
            } else if n == 3 {
                Instruction::RR(2, c, r)
            } else if n == 4 {
                Instruction::SLA(2, c, r)
            } else if n == 5 {
                Instruction::SRA(2, c, r)
            } else if n == 6 {
                Instruction::SWAP(2, c, r)
            } else {
                Instruction::SRL(2, c, r)
            }
        } else if opcode < 0x80 {
            Instruction::BIT(2, if mem { 12 } else { 8 }, n, r)
        } else if opcode < 0xC0 {
            Instruction::RES(2, c, n, r)
        } else {
            Instruction::SET(2, c, n, r)
        };
        Some(i)
    }
}

} // verus!
