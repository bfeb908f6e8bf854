use vstd::prelude::*;
use crate::memory_bus::MemoryBus;

verus! {

/// The four condition flags held in the upper nibble of F.
#[derive(Clone, Copy, Debug, PartialEq, Eq, Structural)]
pub struct FlagsRegister {
    pub zero: bool,
    pub substract: bool,
    pub half_carry: bool,
    pub carry: bool,
}

/// Value of a flag bit: 1 when set.
pub open spec fn bit_of(b: bool) -> int {
    if b { 1 } else { 0 }
}

/// The byte image of F: Z in bit 7, N in bit 6, H in bit 5, C in bit 4, low nibble zero.
pub open spec fn flags_byte(f: FlagsRegister) -> int {
    128 * bit_of(f.zero) + 64 * bit_of(f.substract) + 32 * bit_of(f.half_carry) + 16 * bit_of(f.carry)
}

/// The flags read from a byte's upper nibble.
pub open spec fn flags_of_byte(byte: u8) -> FlagsRegister {
    FlagsRegister {
        zero: (byte / 128) % 2 == 1,
        substract: (byte / 64) % 2 == 1,
        half_carry: (byte / 32) % 2 == 1,
        carry: (byte / 16) % 2 == 1,
    }
}

impl FlagsRegister {
    pub fn to_byte(&self) -> (r: u8)
        ensures
            r as int == flags_byte(*self),
            r % 16 == 0,
    {
        let z: u8 = if self.zero { 128 } else { 0 };
        let n: u8 = if self.substract { 64 } else { 0 };
        let h: u8 = if self.half_carry { 32 } else { 0 };
        let c: u8 = if self.carry { 16 } else { 0 };
        z + n + h + c
    }

    pub fn from_byte(byte: u8) -> (r: FlagsRegister)
        ensures
            r == flags_of_byte(byte),
    {
        FlagsRegister {
            zero: (byte / 128) % 2 == 1,
            substract: (byte / 64) % 2 == 1,
            half_carry: (byte / 32) % 2 == 1,
            carry: (byte / 16) % 2 == 1,
        }
    }
}

impl From<u8> for FlagsRegister {
    fn from(byte: u8) -> FlagsRegister {
        FlagsRegister::from_byte(byte)
    }
}

impl vstd::std_specs::convert::FromSpecImpl<u8> for FlagsRegister {
    open spec fn obeys_from_spec() -> bool {
        true
    }

    open spec fn from_spec(v: u8) -> FlagsRegister {
        flags_of_byte(v)
    }
}

impl From<FlagsRegister> for u8 {
    fn from(flag: FlagsRegister) -> u8 {
        flag.to_byte()
    }
}

impl vstd::std_specs::convert::FromSpecImpl<FlagsRegister> for u8 {
    open spec fn obeys_from_spec() -> bool {
        true
    }

    open spec fn from_spec(v: FlagsRegister) -> u8 {
        flags_byte(v) as u8
    }
}

/// Reading back the byte of a flags value gives the same flags.
pub proof fn lemma_flags_byte_round_trip(f: FlagsRegister)
    ensures
        flags_of_byte(flags_byte(f) as u8) == f,
        0 <= flags_byte(f) < 256,
{
}

/// Eight 8-bit registers, F as flags, and the 16-bit stack pointer and program counter.
pub struct Registers {
    pub a: u8,
    pub f: FlagsRegister,
    pub b: u8,
    pub c: u8,
    pub d: u8,
    pub e: u8,
    pub h: u8,
    pub l: u8,
    pub program_counter: u16,
    pub stack_pointer: u16,
}

/// A register pair read big-endian: the first register is the high byte.
pub open spec fn pair(hi: u8, lo: u8) -> u16 {
    (hi as int * 256 + lo as int) as u16
}

impl Registers {
    pub open spec fn af(&self) -> u16 {
        pair(self.a, flags_byte(self.f) as u8)
    }

    pub open spec fn bc(&self) -> u16 {
        pair(self.b, self.c)
    }

    pub open spec fn de(&self) -> u16 {
        pair(self.d, self.e)
    }

    pub open spec fn hl(&self) -> u16 {
        pair(self.h, self.l)
    }

    pub fn new() -> (r: Registers)
        ensures
            r.a == 0 && r.b == 0 && r.c == 0 && r.d == 0 && r.e == 0 && r.h == 0 && r.l == 0,
            r.f == flags_of_byte(0),
            r.program_counter == 0 && r.stack_pointer == 0,
    {
        Registers {
            a: 0,
            b: 0,
            c: 0,
            d: 0,
            e: 0,
            f: FlagsRegister::from_byte(0),
            h: 0,
            l: 0,
            program_counter: 0x0000,
            stack_pointer: 0x0000,
        }
    }

    pub fn get_af_big_endian(&self) -> (r: u16)
        ensures
            r == self.af(),
    {
        (self.a as u16) * 256 + self.f.to_byte() as u16
    }

    pub fn get_bc_big_endian(&self) -> (r: u16)
        ensures
            r == self.bc(),
    {
        (self.b as u16) * 256 + self.c as u16
    }

    pub fn get_de_big_endian(&self) -> (r: u16)
        ensures
            r == self.de(),
    {
        (self.d as u16) * 256 + self.e as u16
    }

    pub fn get_hl_big_endian(&self) -> (r: u16)
        ensures
            r == self.hl(),
    {
        (self.h as u16) * 256 + self.l as u16
    }

    /// Sets A and F; the low nibble of the value is dropped, as F cannot hold it.
    pub fn set_af_big_endian(&mut self, big_endian_value: u16)
        ensures
            final(self).af() == big_endian_value - big_endian_value % 16,
            final(self).a == big_endian_value / 256,
            final(self).f == flags_of_byte((big_endian_value % 256) as u8),
            final(self).b == old(self).b && final(self).c == old(self).c,
            final(self).d == old(self).d && final(self).e == old(self).e,
            final(self).h == old(self).h && final(self).l == old(self).l,
            final(self).program_counter == old(self).program_counter,
            final(self).stack_pointer == old(self).stack_pointer,
    {
        self.a = (big_endian_value / 256) as u8;
        self.f = FlagsRegister::from_byte((big_endian_value % 256) as u8);
    }

    pub fn set_bc_big_endian(&mut self, big_endian_value: u16)
        ensures
            final(self).bc() == big_endian_value,
            final(self).b == big_endian_value / 256,
            final(self).c == big_endian_value % 256,
            final(self).a == old(self).a && final(self).f == old(self).f,
            final(self).d == old(self).d && final(self).e == old(self).e,
            final(self).h == old(self).h && final(self).l == old(self).l,
            final(self).program_counter == old(self).program_counter,
            final(self).stack_pointer == old(self).stack_pointer,
    {
        self.b = (big_endian_value / 256) as u8;
        self.c = (big_endian_value % 256) as u8;
    }

    pub fn set_de_big_endian(&mut self, big_endian_value: u16)
        ensures
            final(self).de() == big_endian_value,
            final(self).d == big_endian_value / 256,
            final(self).e == big_endian_value % 256,
            final(self).a == old(self).a && final(self).f == old(self).f,
            final(self).b == old(self).b && final(self).c == old(self).c,
            final(self).h == old(self).h && final(self).l == old(self).l,
            final(self).program_counter == old(self).program_counter,
            final(self).stack_pointer == old(self).stack_pointer,
    {
        self.d = (big_endian_value / 256) as u8;
        self.e = (big_endian_value % 256) as u8;
    }

    pub fn set_hl_big_endian(&mut self, big_endian_value: u16)
        ensures
            final(self).hl() == big_endian_value,
            final(self).h == big_endian_value / 256,
            final(self).l == big_endian_value % 256,
            final(self).a == old(self).a && final(self).f == old(self).f,
            final(self).b == old(self).b && final(self).c == old(self).c,
            final(self).d == old(self).d && final(self).e == old(self).e,
            final(self).program_counter == old(self).program_counter,
            final(self).stack_pointer == old(self).stack_pointer,
    {
        self.h = (big_endian_value / 256) as u8;
        self.l = (big_endian_value % 256) as u8;
    }

    /// The byte at address BC.
    pub fn get_bc_pointee(&self, memory_bus: &MemoryBus) -> (r: u8)
        requires
            memory_bus.wf(),
        ensures
            r == memory_bus.read_spec(self.bc()),
    {
        memory_bus.read_byte(self.get_bc_big_endian())
    }

    /// The byte at address DE.
    pub fn get_de_pointee(&self, memory_bus: &MemoryBus) -> (r: u8)
        requires
            memory_bus.wf(),
        ensures
            r == memory_bus.read_spec(self.de()),
    {
        memory_bus.read_byte(self.get_de_big_endian())
    }

    /// The byte at address HL.
    pub fn get_hl_pointee(&self, memory_bus: &MemoryBus) -> (r: u8)
        requires
            memory_bus.wf(),
        ensures
            r == memory_bus.read_spec(self.hl()),
    {
        memory_bus.read_byte(self.get_hl_big_endian())
    }

    /// Writes the byte at address BC.
    pub fn set_bc_pointee(&self, memory_bus: &mut MemoryBus, data: u8)
        requires
            old(memory_bus).wf(),
        ensures
            final(memory_bus).wf(),
            MemoryBus::write_spec(*old(memory_bus), *final(memory_bus), self.bc(), data),
    {
        memory_bus.write_byte(self.get_bc_big_endian(), data)
    }

    /// Writes the byte at address DE.
    pub fn set_de_pointee(&self, memory_bus: &mut MemoryBus, data: u8)
        requires
            old(memory_bus).wf(),
        ensures
            final(memory_bus).wf(),
            MemoryBus::write_spec(*old(memory_bus), *final(memory_bus), self.de(), data),
    {
        memory_bus.write_byte(self.get_de_big_endian(), data)
    }

    /// Writes the byte at address HL.
    pub fn set_hl_pointee(&self, memory_bus: &mut MemoryBus, data: u8)
        requires
            old(memory_bus).wf(),
        ensures
            final(memory_bus).wf(),
            MemoryBus::write_spec(*old(memory_bus), *final(memory_bus), self.hl(), data),
    {
        memory_bus.write_byte(self.get_hl_big_endian(), data)
    }
}

} // verus!
