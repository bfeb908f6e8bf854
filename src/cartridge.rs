use vstd::prelude::*;

verus! {

#[derive(Debug, Clone, Copy, PartialEq, Eq, Structural)]
pub enum MapperType {
    RomOnly,
    MBC1,
    MBC2,
    MBC3,
    MBC5,
}

#[derive(Debug, Clone, Copy, PartialEq, Eq, Structural)]
pub enum ROMType {
    X2_32KiB,
    X4_64KiB,
    X8_128KiB,
    X16_256KiB,
    X32_512KiB,
    X64_1MiB,
    X128_2MiB,
    X256_4MiB,
    X512_8MiB,
}

#[derive(Debug, Clone, Copy, PartialEq, Eq, Structural)]
pub enum RAMType {
    Absent,
    X1_8KiB,
    X4_32KiB,
    X8_64KiB,
    X16_128KiB,
}

pub const ROM_BANK_SIZE: usize = 0x4000;
pub const RAM_BANK_SIZE: usize = 0x2000;
/// Seconds in 256 days: one step of the RTC's ninth day bit.
pub const RTC_DAY_PERIOD: u64 = 22118400;

pub open spec fn rom_bank_count(t: ROMType) -> nat {
    match t {
        ROMType::X2_32KiB => 2,
        ROMType::X4_64KiB => 4,
        ROMType::X8_128KiB => 8,
        ROMType::X16_256KiB => 16,
        ROMType::X32_512KiB => 32,
        ROMType::X64_1MiB => 64,
        ROMType::X128_2MiB => 128,
        ROMType::X256_4MiB => 256,
        ROMType::X512_8MiB => 512,
    }
}

pub open spec fn ram_bank_count(t: RAMType) -> nat {
    match t {
        RAMType::Absent => 0,
        RAMType::X1_8KiB => 1,
        RAMType::X4_32KiB => 4,
        RAMType::X8_64KiB => 8,
        RAMType::X16_128KiB => 16,
    }
}

/// Mapper named by the cartridge-type byte (header 0x147).
pub open spec fn mapper_of(code: u8) -> MapperType {
    if 0x01 <= code <= 0x03 {
        MapperType::MBC1
    } else if code == 0x05 || code == 0x06 {
        MapperType::MBC2
    } else if 0x0F <= code <= 0x13 {
        MapperType::MBC3
    } else if 0x19 <= code <= 0x1E {
        MapperType::MBC5
    } else {
        MapperType::RomOnly
    }
}

pub open spec fn battery_of(code: u8) -> bool {
    code == 0x03 || code == 0x06 || code == 0x09 || code == 0x0D || code == 0x0F || code == 0x10 || code
        == 0x13 || code == 0x1B || code == 0x1E
}

/// ROM size named by header byte 0x148.
pub open spec fn rom_type_of(code: u8) -> ROMType {
    if code == 1 {
        ROMType::X4_64KiB
    } else if code == 2 {
        ROMType::X8_128KiB
    } else if code == 3 {
        ROMType::X16_256KiB
    } else if code == 4 {
        ROMType::X32_512KiB
    } else if code == 5 {
        ROMType::X64_1MiB
    } else if code == 6 {
        ROMType::X128_2MiB
    } else if code == 7 {
        ROMType::X256_4MiB
    } else if code == 8 {
        ROMType::X512_8MiB
    } else {
        ROMType::X2_32KiB
    }
}

/// RAM size named by header byte 0x149; MBC2 always has its built-in RAM.
pub open spec fn ram_type_of(code: u8, mapper: MapperType) -> RAMType {
    if mapper == MapperType::MBC2 {
        RAMType::X1_8KiB
    } else if code == 2 {
        RAMType::X1_8KiB
    } else if code == 3 {
        RAMType::X4_32KiB
    } else if code == 4 {
        RAMType::X16_128KiB
    } else if code == 5 {
        RAMType::X8_64KiB
    } else {
        RAMType::Absent
    }
}

fn rom_banks_of(t: ROMType) -> (r: usize)
    ensures
        r == rom_bank_count(t),
{
    match t {
        ROMType::X2_32KiB => 2,
        ROMType::X4_64KiB => 4,
        ROMType::X8_128KiB => 8,
        ROMType::X16_256KiB => 16,
        ROMType::X32_512KiB => 32,
        ROMType::X64_1MiB => 64,
        ROMType::X128_2MiB => 128,
        ROMType::X256_4MiB => 256,
        ROMType::X512_8MiB => 512,
    }
}

fn ram_banks_of(t: RAMType) -> (r: usize)
    ensures
        r == ram_bank_count(t),
{
    match t {
        RAMType::Absent => 0,
        RAMType::X1_8KiB => 1,
        RAMType::X4_32KiB => 4,
        RAMType::X8_64KiB => 8,
        RAMType::X16_128KiB => 16,
    }
}

/// A cartridge: its ROM and RAM banks and the state of its mapper.
pub struct Cartridge {
    pub mapper_type: MapperType,
    pub rom_type: ROMType,
    pub ram_type: RAMType,
    pub rom: Vec<u8>,
    pub ram: Vec<u8>,
    pub is_cgb: bool,
    pub has_battery: bool,
    pub ram_enable: bool,
    /// Low ROM bank number (5 bits on MBC1, 4 on MBC2, 7 on MBC3, 8 on MBC5).
    pub current_2d_rom_bank: usize,
    /// RAM bank number, or on MBC3 an RTC register number 0x08..=0x0C.
    pub current_ram_bank: usize,
    pub mbc1_banking_mode: bool,
    /// MBC1's 2-bit upper bank register.
    pub mbc1_current_rom_banks_upper_bytes: usize,
    pub mbc5_9th_rom_bank_bit: usize,
    pub mbc3_has_rtc: bool,
    /// Live RTC counter in seconds, as it stood at `mbc3_rtc_last_update_timestamp`.
    pub mbc3_rtc_live: u64,
    /// Latched RTC counter in seconds.
    pub mbc3_rtc_latched: u64,
    /// Unix time in seconds at which the live counter was last brought up to date.
    pub mbc3_rtc_last_update_timestamp: u64,
    /// Unix time in seconds now, as last given by the host.
    pub now: u64,
    pub mbc3_rtc_latch_prev_value: u8,
    pub mbc3_rtc_is_latched: bool,
    pub mbc3_rtc_is_halted: bool,
}

/// Seconds from `from` to `to`, zero when the clock went backwards.
pub open spec fn elapsed(from: u64, to: u64) -> u64 {
    if to >= from { (to - from) as u64 } else { 0 }
}

pub open spec fn sat_add(a: u64, b: u64) -> u64 {
    if a as int + b as int > u64::MAX as int { u64::MAX } else { (a + b) as u64 }
}

/// One RTC register (0x08 seconds, 0x09 minutes, 0x0A hours, 0x0B day low, 0x0C flags)
/// of a counter of seconds.
pub open spec fn rtc_register(secs: u64, reg: usize, halted: bool) -> u8 {
    if reg == 0x08 {
        (secs % 60) as u8
    } else if reg == 0x09 {
        ((secs / 60) % 60) as u8
    } else if reg == 0x0A {
        ((secs / 3600) % 24) as u8
    } else if reg == 0x0B {
        ((secs / 86400) % 256) as u8
    } else {
        let periods = secs / RTC_DAY_PERIOD;
        ((if periods >= 2 { 128int } else { 0int }) + (if halted { 64int } else { 0int }) + (periods % 2) as int) as u8
    }
}

fn rtc_register_exec(secs: u64, reg: usize, halted: bool) -> (r: u8)
    ensures
        r == rtc_register(secs, reg, halted),
{
    if reg == 0x08 {
        (secs % 60) as u8
    } else if reg == 0x09 {
        ((secs / 60) % 60) as u8
    } else if reg == 0x0A {
        ((secs / 3600) % 24) as u8
    } else if reg == 0x0B {
        ((secs / 86400) % 256) as u8
    } else {
        let periods = secs / RTC_DAY_PERIOD;
        let carry: u8 = if periods >= 2 { 128 } else { 0 };
        let halt: u8 = if halted { 64 } else { 0 };
        carry + halt + (periods % 2) as u8
    }
}

fn sat_add_exec(a: u64, b: u64) -> (r: u64)
    ensures
        r == sat_add(a, b),
{
    if a > u64::MAX - b { u64::MAX } else { a + b }
}

impl Cartridge {
    pub open spec fn rom_banks(&self) -> nat {
        rom_bank_count(self.rom_type)
    }

    pub open spec fn ram_banks(&self) -> nat {
        ram_bank_count(self.ram_type)
    }

    pub open spec fn wf(&self) -> bool {
        &&& self.rom@.len() == self.rom_banks() * 0x4000
        &&& self.ram@.len() == self.ram_banks() * 0x2000
        &&& self.current_2d_rom_bank < 0x100
        &&& self.mbc1_current_rom_banks_upper_bytes < 4
        &&& self.mbc5_9th_rom_bank_bit < 2
        &&& (self.mapper_type != MapperType::MBC5 ==> self.mbc5_9th_rom_bank_bit == 0)
        &&& (self.current_ram_bank < self.ram_banks() || self.current_ram_bank == 0 || (self.mbc3_has_rtc
            && 0x08 <= self.current_ram_bank <= 0x0C))
        &&& (self.mapper_type == MapperType::MBC2 ==> self.ram_banks() == 1)
        &&& (self.mbc3_has_rtc ==> self.mapper_type == MapperType::MBC3)
    }

    /// Bank mapped at 0x0000..=0x3FFF.
    pub open spec fn low_bank(&self) -> nat {
        if self.mapper_type == MapperType::MBC1 && self.mbc1_banking_mode {
            ((self.mbc1_current_rom_banks_upper_bytes * 32) as nat) % self.rom_banks()
        } else {
            0
        }
    }

    /// Bank mapped at 0x4000..=0x7FFF.
    pub open spec fn high_bank(&self) -> nat {
        ((self.mbc5_9th_rom_bank_bit * 512 + self.mbc1_current_rom_banks_upper_bytes * 32
            + self.current_2d_rom_bank) as nat) % self.rom_banks()
    }

    /// RAM bank mapped at 0xA000..=0xBFFF.
    pub open spec fn ram_bank(&self) -> nat {
        if self.mapper_type == MapperType::MBC1 {
            if self.mbc1_banking_mode && self.ram_banks() > 0 {
                (self.mbc1_current_rom_banks_upper_bytes as nat) % self.ram_banks()
            } else {
                0
            }
        } else {
            self.current_ram_bank as nat
        }
    }

    pub open spec fn rtc_selected(&self) -> bool {
        self.mbc3_has_rtc && self.current_ram_bank >= 0x08
    }

    /// The live RTC counter now.
    pub open spec fn rtc_now(&self) -> u64 {
        if self.mbc3_rtc_is_halted || self.mbc3_rtc_is_latched {
            self.mbc3_rtc_latched
        } else {
            sat_add(self.mbc3_rtc_latched, elapsed(self.mbc3_rtc_last_update_timestamp, self.now))
        }
    }

    /// Offset in `ram` of a cartridge-RAM address.
    pub open spec fn ram_offset(&self, address: usize) -> int {
        let window = if self.mapper_type == MapperType::MBC2 { 0x200int } else { 0x2000int };
        self.ram_bank() * 0x2000 + (address - 0xA000) % window
    }

    pub open spec fn read_spec(&self, address: usize) -> u8 {
        if address <= 0x3FFF {
            self.rom@[self.low_bank() * 0x4000 + address]
        } else if address <= 0x7FFF {
            self.rom@[self.high_bank() * 0x4000 + address - 0x4000]
        } else if 0xA000 <= address <= 0xBFFF {
            if !self.ram_enable || (self.ram_type == RAMType::Absent && !self.rtc_selected()) {
                0xFF
            } else if self.rtc_selected() {
                rtc_register(self.rtc_now(), self.current_ram_bank, self.mbc3_rtc_is_halted)
            } else if self.mapper_type == MapperType::MBC2 {
                (0xF0 + self.ram@[self.ram_offset(address)] % 16) as u8
            } else {
                self.ram@[self.ram_offset(address)]
            }
        } else {
            0
        }
    }

    fn from_header(
        mapper_type: MapperType,
        rom_type: ROMType,
        ram_type: RAMType,
        has_battery: bool,
        mbc3_has_rtc: bool,
        is_cgb: bool,
    ) -> (r: Cartridge)
        requires
            mapper_type == MapperType::MBC2 ==> ram_bank_count(ram_type) == 1,
            mbc3_has_rtc ==> mapper_type == MapperType::MBC3,
        ensures
            r.wf(),
            r.mapper_type == mapper_type && r.rom_type == rom_type && r.ram_type == ram_type,
            r.has_battery == has_battery && r.mbc3_has_rtc == mbc3_has_rtc && r.is_cgb == is_cgb,
            forall|i: int| 0 <= i < r.rom@.len() ==> r.rom@[i] == 0xFF,
            forall|i: int| 0 <= i < r.ram@.len() ==> r.ram@[i] == 0,
            !r.ram_enable && !r.mbc1_banking_mode,
            r.current_2d_rom_bank == 1 && r.current_ram_bank == 0,
            r.mbc1_current_rom_banks_upper_bytes == 0 && r.mbc5_9th_rom_bank_bit == 0,
            r.mbc3_rtc_live == 0 && r.mbc3_rtc_latched == 0 && r.mbc3_rtc_last_update_timestamp == 0,
            r.now == 0 && r.mbc3_rtc_latch_prev_value == 0xFF,
            !r.mbc3_rtc_is_latched && !r.mbc3_rtc_is_halted,
    {
        let rom_len = rom_banks_of(rom_type) * ROM_BANK_SIZE;
        let ram_len = ram_banks_of(ram_type) * RAM_BANK_SIZE;
        let mut rom: Vec<u8> = Vec::new();
        while rom.len() < rom_len
            invariant
                rom.len() <= rom_len,
                forall|i: int| 0 <= i < rom@.len() ==> rom@[i] == 0xFF,
            decreases rom_len - rom.len(),
        {
            rom.push(0xFF);
        }
        let mut ram: Vec<u8> = Vec::new();
        while ram.len() < ram_len
            invariant
                ram.len() <= ram_len,
                forall|i: int| 0 <= i < ram@.len() ==> ram@[i] == 0,
            decreases ram_len - ram.len(),
        {
            ram.push(0);
        }
        Cartridge {
            mapper_type,
            rom_type,
            ram_type,
            rom,
            ram,
            is_cgb,
            has_battery,
            ram_enable: false,
            current_2d_rom_bank: 0x01,
            current_ram_bank: 0x00,
            mbc1_banking_mode: false,
            mbc1_current_rom_banks_upper_bytes: 0x00,
            mbc5_9th_rom_bank_bit: 0x00,
            mbc3_has_rtc,
            mbc3_rtc_live: 0,
            mbc3_rtc_latched: 0,
            mbc3_rtc_last_update_timestamp: 0,
            now: 0,
            mbc3_rtc_latch_prev_value: 0xFF,
            mbc3_rtc_is_latched: false,
            mbc3_rtc_is_halted: false,
        }
    }

    /// The live counter brought up to now (unchanged while halted).
    pub open spec fn caught_up(&self) -> u64 {
        if self.mbc3_rtc_is_halted {
            self.mbc3_rtc_live
        } else {
            sat_add(self.mbc3_rtc_live, elapsed(self.mbc3_rtc_last_update_timestamp, self.now))
        }
    }

    /// A write to the latch register: after 0x00 then 0x01 the live counter,
    /// brought up to now, is copied to the latched one and the latch toggles.
    pub open spec fn latch_spec(o: Cartridge, n: Cartridge, data: u8) -> bool {
        if !o.mbc3_has_rtc {
            n == o
        } else if o.mbc3_rtc_latch_prev_value == 0 && data == 1 {
            n == (Cartridge {
                mbc3_rtc_latch_prev_value: data,
                mbc3_rtc_live: o.caught_up(),
                mbc3_rtc_latched: o.caught_up(),
                mbc3_rtc_last_update_timestamp: o.now,
                mbc3_rtc_is_latched: !o.mbc3_rtc_is_latched,
                ..o
            })
        } else {
            n == (Cartridge { mbc3_rtc_latch_prev_value: data, ..o })
        }
    }

    /// The live counter after writing `data` to the selected RTC register of
    /// a counter `l`: that field of the counter is replaced.
    pub open spec fn rtc_field_written(l: u64, reg: usize, data: u8) -> u64 {
        if reg == 0x08 {
            sat_add((l - l % 60) as u64, data as u64)
        } else if reg == 0x09 {
            sat_add((l - ((l / 60) % 60) * 60) as u64, (data * 60) as u64)
        } else if reg == 0x0A {
            sat_add((l - ((l / 3600) % 24) * 3600) as u64, (data * 3600) as u64)
        } else if reg == 0x0B {
            sat_add((l - ((l / 86400) % 256) * 86400) as u64, (data * 86400) as u64)
        } else {
            let p = RTC_DAY_PERIOD as int;
            let kept = l as int % (2 * p);
            ((kept - ((kept / p) % 2) * p + (data as int % 2) * p) + (if (data / 128) % 2 == 1 { 2 * p } else { 0 })) as u64
        }
    }

    /// A write to the selected RTC register: the live counter is brought up to
    /// now and the field replaced (0x0C also sets the halt flag from bit 6); the
    /// latched copy follows unless latched.
    pub open spec fn rtc_write_spec(o: Cartridge, n: Cartridge, data: u8) -> bool {
        let live = Cartridge::rtc_field_written(o.caught_up(), o.current_ram_bank, data);
        n == (Cartridge {
            mbc3_rtc_live: live,
            mbc3_rtc_latched: if o.mbc3_rtc_is_latched { o.mbc3_rtc_latched } else { live },
            mbc3_rtc_last_update_timestamp: o.now,
            mbc3_rtc_is_halted: if o.current_ram_bank >= 0x0C { (data / 64) % 2 == 1 } else { o.mbc3_rtc_is_halted },
            ..o
        })
    }

    /// Everything but the RTC state is unchanged.
    pub open spec fn same_but_rtc(o: Cartridge, n: Cartridge) -> bool {
        n == (Cartridge {
            mbc3_rtc_live: n.mbc3_rtc_live,
            mbc3_rtc_latched: n.mbc3_rtc_latched,
            mbc3_rtc_last_update_timestamp: n.mbc3_rtc_last_update_timestamp,
            mbc3_rtc_latch_prev_value: n.mbc3_rtc_latch_prev_value,
            mbc3_rtc_is_latched: n.mbc3_rtc_is_latched,
            mbc3_rtc_is_halted: n.mbc3_rtc_is_halted,
            ..o
        })
    }

    /// The effect of writing `data` at `address`: mapper registers below 0x8000,
    /// cartridge RAM or the RTC at 0xA000..=0xBFFF. ROM contents never change.
    pub open spec fn write_spec(o: Cartridge, n: Cartridge, address: usize, data: u8) -> bool {
        let enable = data % 16 == 0x0A;
        if address <= 0x7FFF {
            match o.mapper_type {
                MapperType::RomOnly => n == o,
                MapperType::MBC1 => if address <= 0x1FFF {
                    n == (Cartridge { ram_enable: enable, ..o })
                } else if address <= 0x3FFF {
                    n == (Cartridge {
                        current_2d_rom_bank: if data % 32 == 0 { 1 } else { (data % 32) as usize },
                        ..o
                    })
                } else if address <= 0x5FFF {
                    n == (Cartridge { mbc1_current_rom_banks_upper_bytes: (data % 4) as usize, ..o })
                } else {
                    n == (Cartridge { mbc1_banking_mode: data % 2 == 1, ..o })
                },
                MapperType::MBC2 => if address <= 0x3FFF {
                    if (address / 256) % 2 == 0 {
                        n == (Cartridge { ram_enable: enable, ..o })
                    } else {
                        n == (Cartridge {
                            current_2d_rom_bank: if data % 16 == 0 { 1 } else { (data % 16) as usize },
                            ..o
                        })
                    }
                } else {
                    n == o
                },
                MapperType::MBC3 => if address <= 0x1FFF {
                    n == (Cartridge { ram_enable: enable, ..o })
                } else if address <= 0x3FFF {
                    n == (Cartridge {
                        current_2d_rom_bank: if data % 128 == 0 { 1 } else { (data % 128) as usize },
                        ..o
                    })
                } else if address <= 0x5FFF {
                    if data <= 3 {
                        n == (Cartridge {
                            current_ram_bank: if o.ram_banks() == 0 { 0 } else { (data as nat % o.ram_banks()) as usize },
                            ..o
                        })
                    } else if 0x08 <= data <= 0x0C && o.mbc3_has_rtc {
                        n == (Cartridge { current_ram_bank: data as usize, ..o })
                    } else {
                        n == o
                    }
                } else {
                    Cartridge::latch_spec(o, n, data)
                },
                MapperType::MBC5 => if address <= 0x1FFF {
                    n == (Cartridge { ram_enable: enable, ..o })
                } else if address <= 0x2FFF {
                    n == (Cartridge { current_2d_rom_bank: data as usize, ..o })
                } else if address <= 0x3FFF {
                    n == (Cartridge {
                        mbc5_9th_rom_bank_bit: if data % 2 == 1 && o.rom_type == ROMType::X512_8MiB { 1 } else { 0 },
                        ..o
                    })
                } else if address <= 0x5FFF {
                    if data <= 0x0F {
                        n == (Cartridge {
                            current_ram_bank: if o.ram_banks() == 0 { 0 } else { (data as nat % o.ram_banks()) as usize },
                            ..o
                        })
                    } else {
                        n == o
                    }
                } else {
                    n == o
                },
            }
        } else if 0xA000 <= address <= 0xBFFF {
            if !o.ram_enable {
                n == o
            } else if o.rtc_selected() {
                Cartridge::rtc_write_spec(o, n, data)
            } else if o.ram_type == RAMType::Absent {
                n == o
            } else {
                &&& n == (Cartridge { ram: n.ram, ..o })
                &&& n.ram@ == o.ram@.update(
                    o.ram_offset(address),
                    if o.mapper_type == MapperType::MBC2 { data % 16 } else { data },
                )
            }
        } else {
            n == o
        }
    }

    /// Header byte `i` of a ROM image; a truncated image has a zero header.
    pub open spec fn header_byte(rom: Seq<u8>, i: int) -> u8 {
        if rom.len() >= 0x150 { rom[i] } else { 0 }
    }

    /// Loads a cartridge from its ROM image, or makes a blank one. The header
    /// names the mapper, the ROM and RAM sizes, the battery and the CGB flag;
    /// the image fills the ROM banks from the start, and what it leaves is 0xFF.
    #[verifier::rlimit(60)]
    pub fn new(rom_contents: Option<Vec<u8>>) -> (r: Cartridge)
        ensures
            r.wf(),
            r.now == 0,
            rom_contents.is_none() ==> r.mapper_type == MapperType::RomOnly && r.rom_type == ROMType::X2_32KiB
                && r.ram_type == RAMType::Absent && !r.is_cgb && !r.has_battery,
            rom_contents.is_none() ==> forall|i: int| 0 <= i < r.rom@.len() ==> r.rom@[i] == 0xFF,
            rom_contents.is_some() ==> ({
                let img = rom_contents.unwrap()@;
                let code = Cartridge::header_byte(img, 0x147);
                &&& r.mapper_type == mapper_of(code)
                &&& r.has_battery == battery_of(code)
                &&& r.mbc3_has_rtc == (code == 0x0F || code == 0x10)
                &&& r.rom_type == rom_type_of(Cartridge::header_byte(img, 0x148))
                &&& r.ram_type == ram_type_of(Cartridge::header_byte(img, 0x149), mapper_of(code))
                &&& r.is_cgb == (Cartridge::header_byte(img, 0x143) == 0x80 || Cartridge::header_byte(img, 0x143)
                    == 0xC0)
                &&& forall|i: int|
                    0 <= i < r.rom@.len() ==> r.rom@[i] == (if i < img.len() { img[i] } else { 0xFF })
            }),
            !r.ram_enable && !r.mbc1_banking_mode,
            r.current_2d_rom_bank == 1 && r.current_ram_bank == 0,
            r.mbc1_current_rom_banks_upper_bytes == 0 && r.mbc5_9th_rom_bank_bit == 0,
    {
        match rom_contents {
            None => Cartridge::from_header(MapperType::RomOnly, ROMType::X2_32KiB, RAMType::Absent, false, false, false),
            Some(img) => {
                let long = img.len() >= 0x150;
                let code: u8 = if long { img[0x147] } else { 0 };
                let size_code: u8 = if long { img[0x148] } else { 0 };
                let ram_code: u8 = if long { img[0x149] } else { 0 };
                let cgb_code: u8 = if long { img[0x143] } else { 0 };
                let mapper_type = if 0x01 <= code && code <= 0x03 {
                    MapperType::MBC1
                } else if code == 0x05 || code == 0x06 {
                    MapperType::MBC2
                } else if 0x0F <= code && code <= 0x13 {
                    MapperType::MBC3
                } else if 0x19 <= code && code <= 0x1E {
                    MapperType::MBC5
                } else {
                    MapperType::RomOnly
                };
                let has_battery = code == 0x03 || code == 0x06 || code == 0x09 || code == 0x0D || code == 0x0F
                    || code == 0x10 || code == 0x13 || code == 0x1B || code == 0x1E;
                let rom_type = if size_code == 1 {
                    ROMType::X4_64KiB
                } else if size_code == 2 {
                    ROMType::X8_128KiB
                } else if size_code == 3 {
                    ROMType::X16_256KiB
                } else if size_code == 4 {
                    ROMType::X32_512KiB
                } else if size_code == 5 {
                    ROMType::X64_1MiB
                } else if size_code == 6 {
                    ROMType::X128_2MiB
                } else if size_code == 7 {
                    ROMType::X256_4MiB
                } else if size_code == 8 {
                    ROMType::X512_8MiB
                } else {
                    ROMType::X2_32KiB
                };
                let ram_type = if mapper_type == MapperType::MBC2 {
                    RAMType::X1_8KiB
                } else if ram_code == 2 {
                    RAMType::X1_8KiB
                } else if ram_code == 3 {
                    RAMType::X4_32KiB
                } else if ram_code == 4 {
                    RAMType::X16_128KiB
                } else if ram_code == 5 {
                    RAMType::X8_64KiB
                } else {
                    RAMType::Absent
                };
                let mut cart = Cartridge::from_header(
                    mapper_type,
                    rom_type,
                    ram_type,
                    has_battery,
                    code == 0x0F || code == 0x10,
                    cgb_code == 0x80 || cgb_code == 0xC0,
                );
                let n = if img.len() < cart.rom.len() { img.len() } else { cart.rom.len() };
                let ghost c0 = cart;
                let mut i: usize = 0;
                while i < n
                    invariant
                        cart == (Cartridge { rom: cart.rom, ..c0 }),
                        n <= img.len(),
                        n <= cart.rom.len(),
                        i <= n,
                        cart.rom@.len() == rom_bank_count(rom_type) * 0x4000,
                        forall|j: int|
                            0 <= j < cart.rom@.len() ==> cart.rom@[j] == (if j < i { img@[j] } else { 0xFF }),
                    decreases n - i,
                {
                    cart.rom.set(i, img[i]);
                    i = i + 1;
                }
                cart
            },
        }
    }

    fn rtc_now_exec(&self) -> (r: u64)
        ensures
            r == self.rtc_now(),
    {
        if self.mbc3_rtc_is_halted || self.mbc3_rtc_is_latched {
            self.mbc3_rtc_latched
        } else {
            let passed: u64 = if self.now >= self.mbc3_rtc_last_update_timestamp {
                self.now - self.mbc3_rtc_last_update_timestamp
            } else {
                0
            };
            sat_add_exec(self.mbc3_rtc_latched, passed)
        }
    }

    fn ram_offset_exec(&self, address: usize) -> (r: usize)
        requires
            self.wf(),
            0xA000 <= address <= 0xBFFF,
            self.ram_type != RAMType::Absent,
            !self.rtc_selected(),
        ensures
            r == self.ram_offset(address),
            r < self.ram@.len(),
    {
        let window: usize = if self.mapper_type == MapperType::MBC2 { 0x200 } else { 0x2000 };
        let bank: usize = if self.mapper_type == MapperType::MBC1 {
            if self.mbc1_banking_mode && ram_banks_of(self.ram_type) > 0 {
                self.mbc1_current_rom_banks_upper_bytes % ram_banks_of(self.ram_type)
            } else {
                0
            }
        } else {
            self.current_ram_bank
        };
        bank * 0x2000 + (address - 0xA000) % window
    }

    /// Reads ROM (through the mapper's banks), cartridge RAM or the RTC.
    #[verifier::rlimit(60)]
    pub fn read(&self, address: usize) -> (r: u8)
        requires
            self.wf(),
        ensures
            r == self.read_spec(address),
    {
        let nbanks = rom_banks_of(self.rom_type);
        if address <= 0x3FFF {
            let bank: usize = if self.mapper_type == MapperType::MBC1 && self.mbc1_banking_mode {
                (self.mbc1_current_rom_banks_upper_bytes * 32) % nbanks
            } else {
                0
            };
            self.rom[bank * 0x4000 + address]
        } else if address <= 0x7FFF {
            let bank = (self.mbc5_9th_rom_bank_bit * 512 + self.mbc1_current_rom_banks_upper_bytes * 32
                + self.current_2d_rom_bank) % nbanks;
            self.rom[bank * 0x4000 + address - 0x4000]
        } else if 0xA000 <= address && address <= 0xBFFF {
            let rtc_selected = self.mbc3_has_rtc && self.current_ram_bank >= 0x08;
            if !self.ram_enable || (self.ram_type == RAMType::Absent && !rtc_selected) {
                0xFF
            } else if rtc_selected {
                rtc_register_exec(self.rtc_now_exec(), self.current_ram_bank, self.mbc3_rtc_is_halted)
            } else if self.mapper_type == MapperType::MBC2 {
                0xF0 + self.ram[self.ram_offset_exec(address)] % 16
            } else {
                self.ram[self.ram_offset_exec(address)]
            }
        } else {
            0
        }
    }

    /// Gives the cartridge the wall-clock time, in Unix seconds, that its RTC runs on.
    pub fn set_time(&mut self, now: u64)
        ensures
            *final(self) == (Cartridge { now, ..*old(self) }),
    {
        self.now = now;
    }

    /// Brings the live RTC counter up to now.
    fn rtc_catch_up(&mut self)
        requires
            old(self).wf(),
        ensures
            final(self).wf(),
            *final(self) == (Cartridge {
                mbc3_rtc_live: old(self).caught_up(),
                mbc3_rtc_last_update_timestamp: old(self).now,
                ..*old(self)
            }),
    {
        if !self.mbc3_rtc_is_halted {
            let passed: u64 = if self.now >= self.mbc3_rtc_last_update_timestamp {
                self.now - self.mbc3_rtc_last_update_timestamp
            } else {
                0
            };
            self.mbc3_rtc_live = sat_add_exec(self.mbc3_rtc_live, passed);
        }
        self.mbc3_rtc_last_update_timestamp = self.now;
    }

    /// Writes an RTC register of the live counter.
    fn rtc_write(&mut self, data: u8)
        requires
            old(self).wf(),
            old(self).rtc_selected(),
        ensures
            final(self).wf(),
            Cartridge::rtc_write_spec(*old(self), *final(self), data),
    {
        self.rtc_catch_up();
        let live = self.mbc3_rtc_live;
        let reg = self.current_ram_bank;
        if reg == 0x08 {
            self.mbc3_rtc_live = sat_add_exec(live - live % 60, data as u64);
        } else if reg == 0x09 {
            self.mbc3_rtc_live = sat_add_exec(live - ((live / 60) % 60) * 60, data as u64 * 60);
        } else if reg == 0x0A {
            self.mbc3_rtc_live = sat_add_exec(live - ((live / 3600) % 24) * 3600, data as u64 * 3600);
        } else if reg == 0x0B {
            self.mbc3_rtc_live = sat_add_exec(live - ((live / 86400) % 256) * 86400, data as u64 * 86400);
        } else {
            let is_carry = (data / 128) % 2 == 1;
            let is_halt = (data / 64) % 2 == 1;
            let day_bit: u64 = (data % 2) as u64;
            let kept = live % (2 * RTC_DAY_PERIOD);
            let kept = kept - ((kept / RTC_DAY_PERIOD) % 2) * RTC_DAY_PERIOD + day_bit * RTC_DAY_PERIOD;
            let carry: u64 = if is_carry { 2 * RTC_DAY_PERIOD } else { 0 };
            self.mbc3_rtc_live = kept + carry;
            self.mbc3_rtc_is_halted = is_halt;
        }
        if !self.mbc3_rtc_is_latched {
            self.mbc3_rtc_latched = self.mbc3_rtc_live;
        }
    }

    /// Writes the latch register: a 0x00 then 0x01 sequence copies the live RTC
    /// into the latched one and toggles the latch.
    fn rtc_latch(&mut self, data: u8)
        requires
            old(self).wf(),
        ensures
            final(self).wf(),
            Cartridge::latch_spec(*old(self), *final(self), data),
    {
        if self.mbc3_has_rtc {
            let is_latch_started = self.mbc3_rtc_latch_prev_value == 0x00;
            self.mbc3_rtc_latch_prev_value = data;
            if is_latch_started && data == 0x01 {
                self.rtc_catch_up();
                self.mbc3_rtc_latched = self.mbc3_rtc_live;
                self.mbc3_rtc_is_latched = !self.mbc3_rtc_is_latched;
            }
        }
    }

    /// Drives the mapper (below 0x8000) or writes cartridge RAM or the RTC.
    #[verifier::rlimit(60)]
    pub fn write(&mut self, address: usize, data: u8)
        requires
            old(self).wf(),
        ensures
            final(self).wf(),
            Cartridge::write_spec(*old(self), *final(self), address, data),
    {
        let enable = data % 16 == 0x0A;
        let nram = ram_banks_of(self.ram_type);
        if address <= 0x7FFF {
            match self.mapper_type {
                MapperType::RomOnly => {},
                MapperType::MBC1 => {
                    if address <= 0x1FFF {
                        self.ram_enable = enable;
                    } else if address <= 0x3FFF {
                        self.current_2d_rom_bank = if data % 32 == 0 { 1 } else { (data % 32) as usize };
                    } else if address <= 0x5FFF {
                        self.mbc1_current_rom_banks_upper_bytes = (data % 4) as usize;
                    } else {
                        self.mbc1_banking_mode = data % 2 == 1;
                    }
                },
                MapperType::MBC2 => {
                    if address <= 0x3FFF {
                        if (address / 256) % 2 == 0 {
                            self.ram_enable = enable;
                        } else {
                            self.current_2d_rom_bank = if data % 16 == 0 { 1 } else { (data % 16) as usize };
                        }
                    }
                },
                MapperType::MBC3 => {
                    if address <= 0x1FFF {
                        self.ram_enable = enable;
                    } else if address <= 0x3FFF {
                        self.current_2d_rom_bank = if data % 128 == 0 { 1 } else { (data % 128) as usize };
                    } else if address <= 0x5FFF {
                        if data <= 3 {
                            self.current_ram_bank = if nram == 0 { 0 } else { data as usize % nram };
                        } else if 0x08 <= data && data <= 0x0C && self.mbc3_has_rtc {
                            self.current_ram_bank = data as usize;
                        }
                    } else {
                        self.rtc_latch(data);
                    }
                },
                MapperType::MBC5 => {
                    if address <= 0x1FFF {
                        self.ram_enable = enable;
                    } else if address <= 0x2FFF {
                        self.current_2d_rom_bank = data as usize;
                    } else if address <= 0x3FFF {
                        self.mbc5_9th_rom_bank_bit = if data % 2 == 1 && self.rom_type == ROMType::X512_8MiB {
                            1
                        } else {
                            0
                        };
                    } else if address <= 0x5FFF {
                        if data <= 0x0F {
                            self.current_ram_bank = if nram == 0 { 0 } else { data as usize % nram };
                        }
                    }
                },
            }
        } else if 0xA000 <= address && address <= 0xBFFF {
            if !self.ram_enable {
            } else if self.mbc3_has_rtc && self.current_ram_bank >= 0x08 {
                self.rtc_write(data);
            } else if self.ram_type == RAMType::Absent {
            } else {
                let offset = self.ram_offset_exec(address);
                let value = if self.mapper_type == MapperType::MBC2 { data % 16 } else { data };
                self.ram.set(offset, value);
            }
        }
    }

    /// Number of RAM bytes that a save file holds: 512 on MBC2, all of RAM otherwise.
    pub open spec fn saved_ram_len(&self) -> nat {
        if self.ram_type == RAMType::Absent {
            0
        } else if self.mapper_type == MapperType::MBC2 {
            0x200
        } else {
            self.ram@.len()
        }
    }

    /// The five RTC bytes of a counter: seconds, minutes, hours, day low, flags.
    pub open spec fn rtc_bytes(secs: u64, halted: bool) -> Seq<u8> {
        seq![
            rtc_register(secs, 0x08, halted),
            rtc_register(secs, 0x09, halted),
            rtc_register(secs, 0x0A, halted),
            rtc_register(secs, 0x0B, halted),
            rtc_register(secs, 0x0C, halted),
        ]
    }

    /// A 64-bit value as eight little-endian bytes.
    pub open spec fn le_bytes(v: u64) -> Seq<u8> {
        Seq::new(8, |i: int| ((v as int / pow256(i)) % 256) as u8)
    }

    /// The battery save: RAM banks in order (the low nibbles of the first 512
    /// bytes on MBC2), then with an RTC its live and latched registers and the
    /// Unix time of the last update, little-endian. Empty without a battery.
    pub open spec fn save_spec(&self) -> Seq<u8> {
        if !self.has_battery {
            Seq::empty()
        } else {
            let ram = self.ram@.subrange(0, self.saved_ram_len() as int);
            if self.mbc3_has_rtc {
                ram + Cartridge::rtc_bytes(self.mbc3_rtc_live, self.mbc3_rtc_is_halted) + Cartridge::rtc_bytes(
                    self.mbc3_rtc_latched,
                    self.mbc3_rtc_is_halted,
                ) + Cartridge::le_bytes(self.mbc3_rtc_last_update_timestamp)
            } else {
                ram
            }
        }
    }

    #[verifier::rlimit(60)]
    pub fn save_blob(&self) -> (r: Vec<u8>)
        requires
            self.wf(),
        ensures
            r@ == self.save_spec(),
    {
        let mut out: Vec<u8> = Vec::new();
        if !self.has_battery {
            return out;
        }
        let n: usize = if self.ram_type == RAMType::Absent {
            0
        } else if self.mapper_type == MapperType::MBC2 {
            0x200
        } else {
            self.ram.len()
        };
        let mut i: usize = 0;
        while i < n
            invariant
                n == self.saved_ram_len(),
                n <= self.ram@.len(),
                i <= n,
                out@ == self.ram@.subrange(0, i as int),
            decreases n - i,
        {
            out.push(self.ram[i]);
            proof {
                assert(out@ =~= self.ram@.subrange(0, i + 1));
            }
            i = i + 1;
        }
        if self.mbc3_has_rtc {
            let ghost ram_part = out@;
            push_rtc_bytes(&mut out, self.mbc3_rtc_live, self.mbc3_rtc_is_halted);
            push_rtc_bytes(&mut out, self.mbc3_rtc_latched, self.mbc3_rtc_is_halted);
            push_le_bytes(&mut out, self.mbc3_rtc_last_update_timestamp);
            proof {
                assert(out@ =~= ram_part + Cartridge::rtc_bytes(self.mbc3_rtc_live, self.mbc3_rtc_is_halted)
                    + Cartridge::rtc_bytes(self.mbc3_rtc_latched, self.mbc3_rtc_is_halted) + Cartridge::le_bytes(
                    self.mbc3_rtc_last_update_timestamp,
                ));
            }
        }
        out
    }

    /// Restores a battery save: its leading bytes fill RAM from the start (the RTC
    /// tail excepted); with an RTC and at least 18 bytes, the tail sets the RTC.
    #[verifier::rlimit(60)]
    pub fn load_save(&mut self, save: &Vec<u8>)
        requires
            old(self).wf(),
        ensures
            final(self).wf(),
            !old(self).has_battery ==> *final(self) == *old(self),
            old(self).has_battery ==> final(self).ram@.len() == old(self).ram@.len(),
            old(self).has_battery ==> forall|i: int|
                0 <= i < final(self).ram@.len() ==> final(self).ram@[i] == loaded_byte(old(self).ram@, save@, i, old(self).mbc3_has_rtc),
            !old(self).mbc3_has_rtc ==> *final(self) == (Cartridge { ram: final(self).ram, ..*old(self) }),
            old(self).has_battery && old(self).mbc3_has_rtc && save@.len() >= 0x12 ==> {
                let base = save@.len() - 0x12;
                &&& final(self).mbc3_rtc_live == rtc_counter(save@, base)
                &&& final(self).mbc3_rtc_latched == rtc_counter(save@, base + 5)
                &&& final(self).mbc3_rtc_is_halted == rtc_halt(save@, base)
                &&& final(self).mbc3_rtc_is_latched == (final(self).mbc3_rtc_live != final(self).mbc3_rtc_latched)
                &&& final(self).mbc3_rtc_last_update_timestamp as int == le_from(save@, base + 10, 8)
            },
    {
        if !self.has_battery {
            return;
        }
        let tail: usize = if self.mbc3_has_rtc { 0x12 } else { 0 };
        let avail: usize = if save.len() >= tail { save.len() - tail } else { 0 };
        let n: usize = if avail < self.ram.len() { avail } else { self.ram.len() };
        let ghost c0 = *self;
        let mut i: usize = 0;
        while i < n
            invariant
                *self == (Cartridge { ram: self.ram, ..c0 }),
                c0.wf(),
                n <= save@.len(),
                n <= c0.ram@.len(),
                n == (if save_ram_part(save@.len(), c0.mbc3_has_rtc) < c0.ram@.len() {
                    save_ram_part(save@.len(), c0.mbc3_has_rtc)
                } else {
                    c0.ram@.len() as int
                }),
                i <= n,
                self.ram@.len() == c0.ram@.len(),
                forall|j: int| 0 <= j < self.ram@.len() ==> self.ram@[j] == prefix_byte(c0.ram@, save@, i as int, j),
            decreases n - i,
        {
            self.ram.set(i, save[i]);
            i = i + 1;
        }
        if self.mbc3_has_rtc && save.len() >= 0x12 {
            let base = save.len() - 0x12;
            let (live, halted) = rtc_from_bytes(save, base);
            let (latched, _h) = rtc_from_bytes(save, base + 5);
            self.mbc3_rtc_live = live;
            self.mbc3_rtc_latched = latched;
            self.mbc3_rtc_is_halted = halted;
            self.mbc3_rtc_is_latched = live != latched;
            let mut stamp: u64 = 0;
            let mut k: usize = 8;
            while k > 0
                invariant
                    k <= 8,
                    base + 18 == save@.len(),
                    save@.len() <= usize::MAX,
                    stamp as int == le_from(save@, base + 10 + k, 8 - k),
                decreases k,
            {
                proof {
                    lemma_le_from_bound(save@, base + 10 + k, 8 - k);
                    assert(pow256(8 - k) <= pow256(7)) by {
                        lemma_pow256_mono(8 - k, 7);
                    }
                    reveal_with_fuel(pow256, 8);
                    assert(pow256(7) == 0x0100_0000_0000_0000);
                }
                k = k - 1;
                stamp = (stamp % 0x0100_0000_0000_0000) * 256 + save[base + 10 + k] as u64;
            }
            self.mbc3_rtc_last_update_timestamp = stamp;
        }
    }
}

/// MBC1 banking: after any write to an MBC1 cartridge, 0x4000..=0x7FFF reads bank
/// `(upper << 5 | lower) mod banks`, where `lower` is what the last write to
/// 0x2000..=0x3FFF left (its low five bits, 0 taken as 1) and `upper` the low two
/// bits of the last write to 0x4000..=0x5FFF; ROM contents never change.
pub proof fn lemma_mbc1_bank_after_write(o: Cartridge, n: Cartridge, address: usize, data: u8, k: int)
    requires
        o.wf(),
        o.mapper_type == MapperType::MBC1,
        Cartridge::write_spec(o, n, address, data),
        0 <= k < 0x4000,
    ensures
        n.mapper_type == MapperType::MBC1,
        n.mbc5_9th_rom_bank_bit == 0,
        n.rom == o.rom,
        n.read_spec((0x4000 + k) as usize) == n.rom@[(((n.mbc1_current_rom_banks_upper_bytes * 32
            + n.current_2d_rom_bank) as nat) % n.rom_banks()) * 0x4000 + k],
        0x2000 <= address <= 0x3FFF ==> n.current_2d_rom_bank == (if data % 32 == 0 { 1 } else { data % 32 }),
        !(0x2000 <= address <= 0x3FFF) ==> n.current_2d_rom_bank == o.current_2d_rom_bank,
        0x4000 <= address <= 0x5FFF ==> n.mbc1_current_rom_banks_upper_bytes == data % 4,
        !(0x4000 <= address <= 0x5FFF) ==> n.mbc1_current_rom_banks_upper_bytes
            == o.mbc1_current_rom_banks_upper_bytes,
{
}

/// Cartridge RAM round trip: with RAM enabled, a byte written to 0xA000..=0xBFFF
/// reads back (as its low nibble under 0xF0 on MBC2's 4-bit RAM); with RAM
/// disabled every read there gives 0xFF.
pub proof fn lemma_cart_ram_round_trip(o: Cartridge, n: Cartridge, address: usize, data: u8)
    requires
        o.wf(),
        0xA000 <= address <= 0xBFFF,
        Cartridge::write_spec(o, n, address, data),
    ensures
        o.ram_enable && o.ram_type != RAMType::Absent && !o.rtc_selected() && o.mapper_type != MapperType::MBC2
            ==> n.read_spec(address) == data,
        o.ram_enable && !o.rtc_selected() && o.mapper_type == MapperType::MBC2 ==> n.read_spec(address) == 0xF0
            + data % 16,
        !o.ram_enable ==> n.read_spec(address) == 0xFF && o.read_spec(address) == 0xFF,
{
    if o.ram_enable && o.ram_type != RAMType::Absent && !o.rtc_selected() {
        let off = o.ram_offset(address);
        assert(n.ram_offset(address) == off);
        assert(n.ram@[off] == (if o.mapper_type == MapperType::MBC2 { data % 16 } else { data }));
    }
}

/// Save round trip: loading the battery save of a cartridge without a clock
/// into a cartridge of the same RAM size gives back every RAM byte.
pub proof fn lemma_save_round_trip(c: Cartridge, fresh_ram: Seq<u8>, i: int)
    requires
        c.wf(),
        c.has_battery,
        !c.mbc3_has_rtc,
        c.mapper_type != MapperType::MBC2,
        fresh_ram.len() == c.ram@.len(),
        0 <= i < c.ram@.len(),
    ensures
        loaded_byte(fresh_ram, c.save_spec(), i, false) == c.ram@[i],
{
}

proof fn lemma_pow256_mono(a: int, b: int)
    requires
        0 <= a <= b,
    ensures
        0 < pow256(a) <= pow256(b),
    decreases b,
{
    lemma_pow256_step(0, b);
    if a < b {
        lemma_pow256_mono(a, b - 1);
        lemma_pow256_step(0, b - 1);
    }
}

pub open spec fn pow256(i: int) -> int
    decreases i,
{
    if i <= 0 { 1 } else { 256 * pow256(i - 1) }
}

/// Byte `j` of RAM once the first `i` bytes of a save are copied over it.
pub open spec fn prefix_byte(ram: Seq<u8>, save: Seq<u8>, i: int, j: int) -> u8 {
    if j < i { save[j] } else { ram[j] }
}

/// Byte `i` of RAM after loading a save over `ram`.
pub open spec fn loaded_byte(ram: Seq<u8>, save: Seq<u8>, i: int, has_rtc: bool) -> u8 {
    if i < save_ram_part(save.len(), has_rtc) { save[i] } else { ram[i] }
}

/// How many leading bytes of a save of `len` bytes are RAM.
pub open spec fn save_ram_part(len: nat, has_rtc: bool) -> int {
    if has_rtc { if len >= 0x12 { len - 0x12 } else { 0 } } else { len as int }
}

fn push_rtc_bytes(out: &mut Vec<u8>, secs: u64, halted: bool)
    ensures
        final(out)@ == old(out)@ + Cartridge::rtc_bytes(secs, halted),
{
    out.push(rtc_register_exec(secs, 0x08, halted));
    out.push(rtc_register_exec(secs, 0x09, halted));
    out.push(rtc_register_exec(secs, 0x0A, halted));
    out.push(rtc_register_exec(secs, 0x0B, halted));
    out.push(rtc_register_exec(secs, 0x0C, halted));
    proof {
        assert(final(out)@ =~= old(out)@ + Cartridge::rtc_bytes(secs, halted));
    }
}

fn push_le_bytes(out: &mut Vec<u8>, v: u64)
    ensures
        final(out)@ == old(out)@ + Cartridge::le_bytes(v),
{
    let ghost start = out@;
    let mut rest: u64 = v;
    let mut i: usize = 0;
    while i < 8
        invariant
            i <= 8,
            rest as int == v as int / pow256(i as int),
            out@.len() == start.len() + i,
            out@.subrange(0, start.len() as int) == start,
            forall|j: int| 0 <= j < i ==> out@[start.len() + j] == ((v as int / pow256(j)) % 256) as u8,
        decreases 8 - i,
    {
        proof {
            lemma_pow256_step(v as int, i as int);
        }
        out.push((rest % 256) as u8);
        rest = rest / 256;
        i = i + 1;
    }
    proof {
        assert(out@ =~= start + Cartridge::le_bytes(v));
    }
}

proof fn lemma_pow256_step(v: int, i: int)
    requires
        v >= 0,
        i >= 0,
    ensures
        pow256(i) > 0,
        pow256(i + 1) == 256 * pow256(i),
        v / pow256(i) / 256 == v / pow256(i + 1),
    decreases i,
{
    if i > 0 {
        lemma_pow256_step(v, i - 1);
    }
    assert(pow256(i + 1) == 256 * pow256(i));
    vstd::arithmetic::div_mod::lemma_div_denominator(v, pow256(i), 256);
}

/// A counter of seconds and the halt flag from five RTC bytes at `at`.
/// The RTC counter in seconds stored as five bytes at `at`: seconds, minutes,
/// hours, day low, then flags (bit 0 day bit 8, bit 7 day carry).
pub open spec fn rtc_counter(save: Seq<u8>, at: int) -> u64 {
    let f = save[at + 4];
    (save[at] as int + save[at + 1] as int * 60 + save[at + 2] as int * 3600 + save[at + 3] as int * 86400 + ((f
        % 2) as int + ((f / 128) % 2) as int * 2) * RTC_DAY_PERIOD as int) as u64
}

/// The halt flag (bit 6 of the flags byte) of five RTC bytes at `at`.
pub open spec fn rtc_halt(save: Seq<u8>, at: int) -> bool {
    (save[at + 4] / 64) % 2 == 1
}

/// The little-endian number in the n bytes at `at`.
pub open spec fn le_from(s: Seq<u8>, at: int, n: int) -> int
    decreases n,
{
    if n <= 0 { 0 } else { s[at] as int + 256 * le_from(s, at + 1, n - 1) }
}

proof fn lemma_le_from_bound(s: Seq<u8>, at: int, n: int)
    requires
        n >= 0,
    ensures
        0 <= le_from(s, at, n) < pow256(n),
    decreases n,
{
    if n > 0 {
        lemma_le_from_bound(s, at + 1, n - 1);
        let v = le_from(s, at + 1, n - 1);
        let b = s[at] as int;
        assert(b + 256 * v < 256 * pow256(n - 1)) by (nonlinear_arith)
            requires
                0 <= b < 256,
                0 <= v < pow256(n - 1),
        ;
    }
}

fn rtc_from_bytes(save: &Vec<u8>, at: usize) -> (r: (u64, bool))
    requires
        at + 5 <= save@.len(),
        save@.len() <= usize::MAX,
    ensures
        r == (rtc_counter(save@, at as int), rtc_halt(save@, at as int)),
{
    let secs = save[at] as u64;
    let mins = save[at + 1] as u64;
    let hours = save[at + 2] as u64;
    let days = save[at + 3] as u64;
    let flags = save[at + 4];
    let high = (flags % 2) as u64 + ((flags / 128) % 2) as u64 * 2;
    (secs + mins * 60 + hours * 3600 + days * 86400 + high * RTC_DAY_PERIOD, (flags / 64) % 2 == 1)
}

} // verus!
