use vstd::prelude::*;
use crate::registers::{FlagsRegister, bit_of};

verus! {

/// Result of an 8-bit ALU operation: the new value and the new flags.
pub struct AluResult {
    pub value: u8,
    pub flags: FlagsRegister,
}

pub open spec fn flags(z: bool, n: bool, h: bool, c: bool) -> FlagsRegister {
    FlagsRegister { zero: z, substract: n, half_carry: h, carry: c }
}

/// `ADD A,s` / `ADC A,s`: r = a + s + c.
pub open spec fn add_spec(a: u8, s: u8, c: bool) -> (u8, FlagsRegister) {
    let r = a as int + s as int + bit_of(c);
    (
        (r % 256) as u8,
        flags(r % 256 == 0, false, a as int % 16 + s as int % 16 + bit_of(c) >= 16, r > 255),
    )
}

/// `SUB s` / `SBC A,s`: r = a - s - c, borrows reported in H and C.
pub open spec fn sub_spec(a: u8, s: u8, c: bool) -> (u8, FlagsRegister) {
    let r = a as int - s as int - bit_of(c);
    let wrapped = if r < 0 { r + 256 } else { r };
    (
        wrapped as u8,
        flags(wrapped == 0, true, (a as int % 16) < (s as int % 16) + bit_of(c), r < 0),
    )
}

pub open spec fn and_spec(a: u8, s: u8) -> (u8, FlagsRegister) {
    ((a & s), flags((a & s) == 0, false, true, false))
}

pub open spec fn or_spec(a: u8, s: u8) -> (u8, FlagsRegister) {
    ((a | s), flags((a | s) == 0, false, false, false))
}

pub open spec fn xor_spec(a: u8, s: u8) -> (u8, FlagsRegister) {
    ((a ^ s), flags((a ^ s) == 0, false, false, false))
}

/// `INC s`: carry is kept.
pub open spec fn inc_spec(v: u8, f: FlagsRegister) -> (u8, FlagsRegister) {
    let r = (v as int + 1) % 256;
    (r as u8, flags(r == 0, false, v as int % 16 == 15, f.carry))
}

/// `DEC s`: carry is kept.
pub open spec fn dec_spec(v: u8, f: FlagsRegister) -> (u8, FlagsRegister) {
    let r = if v == 0 { 255 } else { v as int - 1 };
    (r as u8, flags(r == 0, true, v as int % 16 == 0, f.carry))
}

/// `ADD HL,ss`: zero is kept, H from bit 11, C from bit 15.
pub open spec fn add16_spec(hl: u16, ss: u16, f: FlagsRegister) -> (u16, FlagsRegister) {
    let r = hl as int + ss as int;
    (
        (r % 65536) as u16,
        flags(f.zero, false, hl as int % 4096 + ss as int % 4096 >= 4096, r > 65535),
    )
}

/// The signed byte e as a 16-bit two's complement offset.
pub open spec fn sign_extend(e: u8) -> u16 {
    if e < 128 { e as u16 } else { (e as int + 0xFF00) as u16 }
}

/// `ADD SP,e` / `LD HL,SP+e`: Z = N = 0, H and C from the unsigned low-byte addition.
pub open spec fn add_sp_spec(sp: u16, e: u8) -> (u16, FlagsRegister) {
    let r = (sp as int + sign_extend(e) as int) % 65536;
    (
        r as u16,
        flags(false, false, sp as int % 16 + e as int % 16 >= 16, sp as int % 256 + e as int >= 256),
    )
}

/// `DAA`: adjust A into binary-coded decimal after an addition or subtraction.
pub open spec fn daa_spec(a: u8, f: FlagsRegister) -> (u8, FlagsRegister) {
    let carry = if f.substract { f.carry } else { f.carry || a > 0x99 };
    let term: int = if f.substract {
        -(if f.half_carry { 6int } else { 0int }) - (if f.carry { 0x60int } else { 0int })
    } else {
        (if carry { 0x60int } else { 0int }) + (if f.half_carry || a as int % 16 > 9 { 6int } else { 0int })
    };
    let r = ((a as int + term) % 256 + 256) % 256;
    (r as u8, flags(r == 0, f.substract, false, carry))
}

/// Rotations and shifts of the CB page: (value, carry out).
pub open spec fn rlc_spec(v: u8) -> (u8, bool) {
    (((v as int * 2) % 256 + v as int / 128) as u8, v >= 128)
}

pub open spec fn rrc_spec(v: u8) -> (u8, bool) {
    ((v as int / 2 + (v as int % 2) * 128) as u8, v % 2 == 1)
}

pub open spec fn rl_spec(v: u8, c: bool) -> (u8, bool) {
    (((v as int * 2) % 256 + bit_of(c)) as u8, v >= 128)
}

pub open spec fn rr_spec(v: u8, c: bool) -> (u8, bool) {
    ((v as int / 2 + bit_of(c) * 128) as u8, v % 2 == 1)
}

pub open spec fn sla_spec(v: u8) -> (u8, bool) {
    (((v as int * 2) % 256) as u8, v >= 128)
}

pub open spec fn sra_spec(v: u8) -> (u8, bool) {
    ((v as int / 2 + (v as int / 128) * 128) as u8, v % 2 == 1)
}

pub open spec fn srl_spec(v: u8) -> (u8, bool) {
    ((v as int / 2) as u8, v % 2 == 1)
}

pub open spec fn swap_spec(v: u8) -> u8 {
    ((v as int % 16) * 16 + v as int / 16) as u8
}

pub fn add(a: u8, s: u8, c: bool) -> (r: AluResult)
    ensures
        (r.value, r.flags) == add_spec(a, s, c),
{
    let cv: u16 = if c { 1 } else { 0 };
    let r: u16 = a as u16 + s as u16 + cv;
    let value = (r % 256) as u8;
    AluResult {
        value,
        flags: FlagsRegister {
            zero: value == 0,
            substract: false,
            half_carry: (a % 16) as u16 + (s % 16) as u16 + cv >= 16,
            carry: r > 255,
        },
    }
}

pub fn sub(a: u8, s: u8, c: bool) -> (r: AluResult)
    ensures
        (r.value, r.flags) == sub_spec(a, s, c),
{
    let cv: u16 = if c { 1 } else { 0 };
    let borrow = (a as u16) < s as u16 + cv;
    let value: u16 = if borrow { a as u16 + 256 - s as u16 - cv } else { a as u16 - s as u16 - cv };
    AluResult {
        value: value as u8,
        flags: FlagsRegister {
            zero: value == 0,
            substract: true,
            half_carry: ((a % 16) as u16) < (s % 16) as u16 + cv,
            carry: borrow,
        },
    }
}

pub fn and(a: u8, s: u8) -> (r: AluResult)
    ensures
        (r.value, r.flags) == and_spec(a, s),
{
    let value = a & s;
    AluResult { value, flags: FlagsRegister { zero: value == 0, substract: false, half_carry: true, carry: false } }
}

pub fn or(a: u8, s: u8) -> (r: AluResult)
    ensures
        (r.value, r.flags) == or_spec(a, s),
{
    let value = a | s;
    AluResult { value, flags: FlagsRegister { zero: value == 0, substract: false, half_carry: false, carry: false } }
}

pub fn xor(a: u8, s: u8) -> (r: AluResult)
    ensures
        (r.value, r.flags) == xor_spec(a, s),
{
    let value = a ^ s;
    AluResult { value, flags: FlagsRegister { zero: value == 0, substract: false, half_carry: false, carry: false } }
}

pub fn inc(v: u8, f: FlagsRegister) -> (r: AluResult)
    ensures
        (r.value, r.flags) == inc_spec(v, f),
{
    let value: u8 = if v == 255 { 0 } else { v + 1 };
    AluResult {
        value,
        flags: FlagsRegister { zero: value == 0, substract: false, half_carry: v % 16 == 15, carry: f.carry },
    }
}

pub fn dec(v: u8, f: FlagsRegister) -> (r: AluResult)
    ensures
        (r.value, r.flags) == dec_spec(v, f),
{
    let value: u8 = if v == 0 { 255 } else { v - 1 };
    AluResult {
        value,
        flags: FlagsRegister { zero: value == 0, substract: true, half_carry: v % 16 == 0, carry: f.carry },
    }
}

pub fn add16(hl: u16, ss: u16, f: FlagsRegister) -> (r: (u16, FlagsRegister))
    ensures
        r == add16_spec(hl, ss, f),
{
    let sum: u32 = hl as u32 + ss as u32;
    (
        (sum % 65536) as u16,
        FlagsRegister {
            zero: f.zero,
            substract: false,
            half_carry: (hl % 4096) as u32 + (ss % 4096) as u32 >= 4096,
            carry: sum > 65535,
        },
    )
}

pub fn add_sp(sp: u16, e: u8) -> (r: (u16, FlagsRegister))
    ensures
        r == add_sp_spec(sp, e),
{
    let offset: u32 = if e < 128 { e as u32 } else { e as u32 + 0xFF00 };
    let sum: u32 = (sp as u32 + offset) % 65536;
    (
        sum as u16,
        FlagsRegister {
            zero: false,
            substract: false,
            half_carry: (sp % 16) as u16 + (e % 16) as u16 >= 16,
            carry: (sp % 256) as u16 + e as u16 >= 256,
        },
    )
}

pub fn daa(a: u8, f: FlagsRegister) -> (r: AluResult)
    ensures
        (r.value, r.flags) == daa_spec(a, f),
{
    let mut carry = f.carry;
    let mut term: i16 = 0;
    if f.substract {
        if f.half_carry {
            term = term - 6;
        }
        if f.carry {
            term = term - 0x60;
        }
    } else {
        if f.carry || a > 0x99 {
            carry = true;
            term = term + 0x60;
        }
        if f.half_carry || a % 16 > 9 {
            term = term + 6;
        }
    }
    let r: i16 = ((a as i16 + term) % 256 + 256) % 256;
    let value = r as u8;
    AluResult { value, flags: FlagsRegister { zero: value == 0, substract: f.substract, half_carry: false, carry } }
}

pub fn rlc(v: u8) -> (r: (u8, bool))
    ensures
        r == rlc_spec(v),
{
    (((v as u16 * 2) % 256 + v as u16 / 128) as u8, v >= 128)
}

pub fn rrc(v: u8) -> (r: (u8, bool))
    ensures
        r == rrc_spec(v),
{
    ((v / 2 + (v % 2) * 128), v % 2 == 1)
}

pub fn rl(v: u8, c: bool) -> (r: (u8, bool))
    ensures
        r == rl_spec(v, c),
{
    let cv: u16 = if c { 1 } else { 0 };
    (((v as u16 * 2) % 256 + cv) as u8, v >= 128)
}

pub fn rr(v: u8, c: bool) -> (r: (u8, bool))
    ensures
        r == rr_spec(v, c),
{
    let cv: u8 = if c { 128 } else { 0 };
    (v / 2 + cv, v % 2 == 1)
}

pub fn sla(v: u8) -> (r: (u8, bool))
    ensures
        r == sla_spec(v),
{
    (((v as u16 * 2) % 256) as u8, v >= 128)
}

pub fn sra(v: u8) -> (r: (u8, bool))
    ensures
        r == sra_spec(v),
{
    (v / 2 + (v / 128) * 128, v % 2 == 1)
}

pub fn srl(v: u8) -> (r: (u8, bool))
    ensures
        r == srl_spec(v),
{
    (v / 2, v % 2 == 1)
}

pub fn swap(v: u8) -> (r: u8)
    ensures
        r == swap_spec(v),
{
    (v % 16) * 16 + v / 16
}

/// Adding s to A, subtracting it again, then comparing with it: A is restored
/// and the flags are those of comparing s with the starting A.
pub proof fn lemma_add_sub_cp_restores(a: u8, s: u8)
    ensures
        sub_spec(add_spec(a, s, false).0, s, false).0 == a,
        sub_spec(sub_spec(add_spec(a, s, false).0, s, false).0, s, false).1 == sub_spec(a, s, false).1,
{
}

} // verus!
