use vstd::prelude::*;
use crate::boot_rom::{dmg_boot_rom, cgb_boot_rom_low, cgb_boot_rom_high, dmg_boot_bytes, cgb_boot_low_bytes, cgb_boot_high_bytes};
use crate::cartridge::Cartridge;
use crate::input_memory::{InputMemory, InputState};
use crate::ppu_memory::PPUMemory;
use crate::timer_memory::TimerMemory;

verus! {

pub const IF_ADDRESS: u16 = 0xFF0F;
pub const IE_ADDRESS: u16 = 0xFFFF;

/// Write then read of work RAM or high RAM gives the byte written.
pub proof fn lemma_ram_round_trip(o: MemoryBus, n: MemoryBus, address: u16, data: u8)
    requires
        o.wf(),
        (0xC000 <= address <= 0xFDFF) || (0xFF80 <= address <= 0xFFFE),
        MemoryBus::write_spec(o, n, address, data),
    ensures
        n.read_spec(address) == data,
{
    reveal(MemoryBus::write_spec);
}

/// A write to work RAM or high RAM leaves every other byte of the same region
/// as it was.
pub proof fn lemma_ram_frame(o: MemoryBus, n: MemoryBus, address: u16, other: u16, data: u8)
    requires
        o.wf(),
        address != other,
        (0xC000 <= address <= 0xDFFF && 0xC000 <= other <= 0xDFFF) || (0xFF80 <= address <= 0xFFFE && 0xFF80
            <= other <= 0xFFFE),
        MemoryBus::write_spec(o, n, address, data),
    ensures
        n.read_spec(other) == o.read_spec(other),
{
    reveal(MemoryBus::write_spec);
}

/// The address space: routes each address to the component that holds it,
/// and holds work RAM, high RAM, the boot ROMs and the CGB control registers.
pub struct MemoryBus {
    pub bootrom_1: Vec<u8>,
    pub bootrom_2: Vec<u8>,
    pub cartridge: Cartridge,
    pub ppu_memory: PPUMemory,
    /// WRAM bank 0 (0xC000..=0xCFFF).
    pub intern_ram: Vec<u8>,
    /// WRAM banks 1..=7 one after the other (0xD000..=0xDFFF, by SVBK).
    pub intern_ram2: Vec<u8>,
    pub input_memory: InputMemory,
    pub timer_memory: TimerMemory,
    pub is_double_speed: bool,
    pub speed_chg_scheduled: bool,
    pub vbk_reg: bool,
    /// 0 while the boot ROM is mapped.
    pub bootrom_reg: u8,
    /// WRAM bank at 0xD000, 1..=7.
    pub svbk_reg: u8,
    /// 0xFF01..=0xFF7F not held elsewhere; IF (0xFF0F) is among them.
    pub io_regis: Vec<u8>,
    pub high_intern_ram: Vec<u8>,
    pub interrupt_enable: u8,
    pub is_cgb: bool,
}

impl MemoryBus {
    pub open spec fn wf(&self) -> bool {
        &&& self.bootrom_1@.len() == 0x100
        &&& self.bootrom_2@.len() == 0x700
        &&& self.cartridge.wf()
        &&& self.ppu_memory.wf()
        &&& self.timer_memory.wf()
        &&& self.intern_ram@.len() == 0x1000
        &&& self.intern_ram2@.len() == 0x7000
        &&& self.io_regis@.len() == 0x7F
        &&& self.high_intern_ram@.len() == 0x7F
        &&& 1 <= self.svbk_reg <= 7
    }

    pub open spec fn boot_mapped(&self) -> bool {
        self.bootrom_reg == 0
    }

    /// Offset in `intern_ram2` of an address of the switchable WRAM bank window.
    pub open spec fn banked_offset(&self, offset: int) -> int {
        (self.svbk_reg as int - 1) * 0x1000 + offset
    }

    pub open spec fn interrupt_flag(&self) -> u8 {
        self.io_regis@[0x0E]
    }

    pub open spec fn read_spec(&self, address: u16) -> u8 {
        let a = address as usize;
        if address <= 0x00FF {
            if self.boot_mapped() { self.bootrom_1@[address as int] } else { self.cartridge.read_spec(a) }
        } else if address <= 0x01FF {
            self.cartridge.read_spec(a)
        } else if address <= 0x08FF {
            if self.boot_mapped() && self.is_cgb {
                self.bootrom_2@[address - 0x0200]
            } else {
                self.cartridge.read_spec(a)
            }
        } else if address <= 0x7FFF {
            self.cartridge.read_spec(a)
        } else if address <= 0x9FFF {
            self.ppu_memory.read_spec(a, self.is_cgb && self.vbk_reg)
        } else if address <= 0xBFFF {
            self.cartridge.read_spec(a)
        } else if address <= 0xCFFF {
            self.intern_ram@[address - 0xC000]
        } else if address <= 0xDFFF {
            self.intern_ram2@[self.banked_offset(address - 0xD000)]
        } else if address <= 0xEFFF {
            self.intern_ram@[address - 0xE000]
        } else if address <= 0xFDFF {
            self.intern_ram2@[self.banked_offset(address - 0xF000)]
        } else if address <= 0xFE9F {
            self.ppu_memory.read_spec(a, false)
        } else if address <= 0xFEFF {
            0
        } else if address == 0xFF00 {
            self.input_memory.read_spec()
        } else if 0xFF04 <= address <= 0xFF07 {
            self.timer_memory.read_spec(a)
        } else if address == 0xFF26 {
            0
        } else if address == 0xFF40 || address == 0xFF41 || address == 0xFF44 || address == 0xFF47
            || address == 0xFF48 || address == 0xFF49 || (0xFF68 <= address <= 0xFF6B) {
            self.ppu_memory.read_spec(a, false)
        } else if address == 0xFF42 {
            self.ppu_memory.scy_ram
        } else if address == 0xFF43 {
            self.ppu_memory.scx_ram
        } else if address == 0xFF45 {
            self.ppu_memory.lyc_ram
        } else if address == 0xFF46 {
            self.ppu_memory.oam_dma_reg
        } else if address == 0xFF4A {
            self.ppu_memory.wy_ram
        } else if address == 0xFF4B {
            self.ppu_memory.wx_ram
        } else if address == 0xFF4D {
            ((if self.is_double_speed { 128int } else { 0 }) + (if self.speed_chg_scheduled { 1int } else { 0 })) as u8
        } else if address == 0xFF4F {
            (0xFE + (if self.vbk_reg { 1int } else { 0 })) as u8
        } else if address == 0xFF50 {
            self.bootrom_reg
        } else if address == 0xFF51 {
            (self.ppu_memory.vram_dma_src_regs / 256) as u8
        } else if address == 0xFF52 {
            ((self.ppu_memory.vram_dma_src_regs % 256) / 16 * 16) as u8
        } else if address == 0xFF53 {
            ((self.ppu_memory.vram_dma_dst_regs / 256) % 32) as u8
        } else if address == 0xFF54 {
            ((self.ppu_memory.vram_dma_dst_regs % 256) / 16 * 16) as u8
        } else if address == 0xFF55 {
            ((if self.ppu_memory.vram_dma_is_active { 0int } else { 128int }) + self.ppu_memory.vram_dma_stat as int
                % 128) as u8
        } else if address == 0xFF70 {
            self.svbk_reg
        } else if address <= 0xFF7F {
            self.io_regis@[address - 0xFF01]
        } else if address <= 0xFFFE {
            self.high_intern_ram@[address - 0xFF80]
        } else {
            self.interrupt_enable
        }
    }

    /// Whether a write at this address reaches the cartridge.
    pub open spec fn to_cartridge(&self, address: u16) -> bool {
        if address <= 0x00FF {
            !self.boot_mapped()
        } else if address <= 0x01FF {
            true
        } else if address <= 0x08FF {
            !(self.boot_mapped() && self.is_cgb)
        } else {
            address <= 0x7FFF || (0xA000 <= address <= 0xBFFF)
        }
    }

    /// Whether a write at this address reaches the PPU's own write logic.
    pub open spec fn to_ppu(address: u16) -> bool {
        (0x8000 <= address <= 0x9FFF) || (0xFE00 <= address <= 0xFE9F) || address == 0xFF40 || address == 0xFF41
            || address == 0xFF47 || address == 0xFF48 || address == 0xFF49 || (0xFF68 <= address <= 0xFF6B)
    }

    #[verifier::opaque]
    /// The effect of a bus write: the component that the address names changes as
    /// its own write says; WRAM, high RAM, IE and the I/O bytes hold the byte;
    /// nothing else changes.
    pub open spec fn write_spec(o: MemoryBus, n: MemoryBus, address: u16, data: u8) -> bool {
        let a = address as usize;
        if address <= 0x08FF && !o.to_cartridge(address) {
            n == o
        } else if o.to_cartridge(address) {
            n == (MemoryBus { cartridge: n.cartridge, ..o }) && Cartridge::write_spec(
                o.cartridge,
                n.cartridge,
                a,
                data,
            )
        } else if MemoryBus::to_ppu(address) {
            n == (MemoryBus { ppu_memory: n.ppu_memory, ..o }) && PPUMemory::write_spec(
                o.ppu_memory,
                n.ppu_memory,
                a,
                data,
                address <= 0x9FFF && o.is_cgb && o.vbk_reg,
            )
        } else if 0xC000 <= address <= 0xCFFF {
            n == (MemoryBus { intern_ram: n.intern_ram, ..o }) && n.intern_ram@ == o.intern_ram@.update(
                address - 0xC000,
                data,
            )
        } else if 0xE000 <= address <= 0xEFFF {
            n == (MemoryBus { intern_ram: n.intern_ram, ..o }) && n.intern_ram@ == o.intern_ram@.update(
                address - 0xE000,
                data,
            )
        } else if 0xD000 <= address <= 0xDFFF {
            n == (MemoryBus { intern_ram2: n.intern_ram2, ..o }) && n.intern_ram2@ == o.intern_ram2@.update(
                o.banked_offset(address - 0xD000),
                data,
            )
        } else if 0xF000 <= address <= 0xFDFF {
            n == (MemoryBus { intern_ram2: n.intern_ram2, ..o }) && n.intern_ram2@ == o.intern_ram2@.update(
                o.banked_offset(address - 0xF000),
                data,
            )
        } else if 0xFF80 <= address <= 0xFFFE {
            n == (MemoryBus { high_intern_ram: n.high_intern_ram, ..o }) && n.high_intern_ram@
                == o.high_intern_ram@.update(address - 0xFF80, data)
        } else if address == 0xFFFF {
            n == (MemoryBus { interrupt_enable: data, ..o })
        } else {
            MemoryBus::io_write_spec(o, n, address, data)
        }
    }

    /// The effect of a write to 0xFEA0..=0xFF7F outside the PPU's own registers.
    pub open spec fn io_write_spec(o: MemoryBus, n: MemoryBus, address: u16, data: u8) -> bool {
        if address <= 0xFF07 {
            MemoryBus::port_write_spec(o, n, address, data)
        } else if 0xFF42 <= address <= 0xFF55 {
            MemoryBus::video_write_spec(o, n, address, data)
        } else {
            MemoryBus::misc_write_spec(o, n, address, data)
        }
    }

    /// Writes to the joypad and timer registers, and to the unusable range.
    #[verifier::opaque]
    pub open spec fn port_write_spec(o: MemoryBus, n: MemoryBus, address: u16, data: u8) -> bool {
        if address <= 0xFEFF {
            n == o
        } else if address == 0xFF00 {
            &&& n == (MemoryBus { input_memory: n.input_memory, ..o })
            &&& n.input_memory == (InputMemory {
                is_reading_action_buttons: (data / 32) % 2 == 0,
                is_reading_direction_buttons: (data / 16) % 2 == 0,
                ..o.input_memory
            })
        } else if 0xFF04 <= address <= 0xFF07 {
            &&& n == (MemoryBus { timer_memory: n.timer_memory, ..o })
            &&& n.timer_memory.wf()
            &&& (address == 0xFF04 ==> n.timer_memory == (TimerMemory { div_reg: 0, ..o.timer_memory }))
            &&& (address == 0xFF05 ==> n.timer_memory == (TimerMemory { tima_reg: data, ..o.timer_memory }))
            &&& (address == 0xFF06 ==> n.timer_memory == (TimerMemory { tim_reg: data, ..o.timer_memory }))
            &&& (address == 0xFF07 ==> n.timer_memory.tac_reg == data && n.timer_memory.div_reg
                == o.timer_memory.div_reg && n.timer_memory.tima_reg == o.timer_memory.tima_reg
                && n.timer_memory.tim_reg == o.timer_memory.tim_reg)
        } else {
            n == (MemoryBus { io_regis: n.io_regis, ..o }) && n.io_regis@ == o.io_regis@.update(address - 0xFF01, data)
        }
    }

    /// Writes to the scroll, window, DMA, speed, VRAM-bank and boot registers.
    #[verifier::opaque]
    pub open spec fn video_write_spec(o: MemoryBus, n: MemoryBus, address: u16, data: u8) -> bool {
        if address == 0xFF44 {
            n == o
        } else if PPUMemory::is_plain_register(address as usize) {
            n == (MemoryBus { ppu_memory: n.ppu_memory, ..o }) && PPUMemory::register_write_spec(
                o.ppu_memory,
                n.ppu_memory,
                address as usize,
                data,
            )
        } else if address == 0xFF4D {
            n == (MemoryBus { speed_chg_scheduled: data % 2 == 1, ..o })
        } else if address == 0xFF4F {
            n == (MemoryBus { vbk_reg: data % 2 == 1, ..o })
        } else if address == 0xFF50 {
            n == (MemoryBus { bootrom_reg: if o.bootrom_reg == 0 { data } else { o.bootrom_reg }, ..o })
        } else {
            n == (MemoryBus { io_regis: n.io_regis, ..o }) && n.io_regis@ == o.io_regis@.update(address - 0xFF01, data)
        }
    }

    /// Writes to SVBK and the remaining I/O bytes.
    #[verifier::opaque]
    pub open spec fn misc_write_spec(o: MemoryBus, n: MemoryBus, address: u16, data: u8) -> bool {
        if address == 0xFF70 {
            if o.is_cgb {
                n == (MemoryBus { svbk_reg: if data % 8 == 0 { 1 } else { data % 8 }, ..o })
            } else {
                n == o
            }
        } else {
            n == (MemoryBus { io_regis: n.io_regis, ..o }) && n.io_regis@ == o.io_regis@.update(address - 0xFF01, data)
        }
    }

    /// A bus around a cartridge loaded from a ROM image (or a blank one), in CGB
    /// mode when the cartridge supports it and DMG mode is not forced, with that
    /// model's boot ROM mapped.
    #[verifier::rlimit(60)]
    pub fn new(rom_contents: Option<Vec<u8>>, force_dmg: bool) -> (r: MemoryBus)
        ensures
            r.wf(),
            r.is_cgb == (!force_dmg && r.cartridge.is_cgb),
            r.boot_mapped(),
            r.svbk_reg == 1,
            r.interrupt_enable == 0,
            r.interrupt_flag() == 0,
            !r.is_double_speed && !r.speed_chg_scheduled,
            !r.ppu_memory.oam_dma_is_active && !r.ppu_memory.vram_dma_is_active,
            r.ppu_memory.lcdc_ram == 0 && !r.ppu_memory.is_vram_locked && !r.ppu_memory.is_oam_locked,
            r.timer_memory.div_reg == 0 && r.timer_memory.tima_reg == 0 && !r.timer_memory.timer_enabled,
            forall|i: int| 0 <= i < 0x1000 ==> r.intern_ram@[i] == 0,
            forall|i: int| 0 <= i < 0x7000 ==> r.intern_ram2@[i] == 0,
            r.is_cgb ==> r.bootrom_1@ == cgb_boot_low_bytes() && r.bootrom_2@ == cgb_boot_high_bytes(),
            !r.is_cgb ==> r.bootrom_1@ == dmg_boot_bytes(),
            forall|i: int| 0 <= i < 0x7F ==> r.high_intern_ram@[i] == 0,
            rom_contents.is_none() ==> r.cartridge.rom@.len() == 0x8000 && forall|i: int|
                0 <= i < 0x8000 ==> r.cartridge.rom@[i] == 0xFF,
            !r.cartridge.ram_enable && r.cartridge.now == 0,
    {
        let cartridge = Cartridge::new(rom_contents);
        let is_cgb = !force_dmg && cartridge.is_cgb;
        let bootrom_1 = if is_cgb { cgb_boot_rom_low() } else { dmg_boot_rom() };
        let bootrom_2 = if is_cgb { cgb_boot_rom_high() } else { crate::ppu_memory::filled(0x700, 0) };
        MemoryBus {
            bootrom_1,
            bootrom_2,
            cartridge,
            ppu_memory: PPUMemory::new(),
            intern_ram: crate::ppu_memory::filled(0x1000, 0),
            intern_ram2: crate::ppu_memory::filled(0x7000, 0),
            input_memory: InputMemory::new(),
            timer_memory: TimerMemory::new(),
            is_double_speed: false,
            speed_chg_scheduled: false,
            vbk_reg: false,
            bootrom_reg: 0x00,
            svbk_reg: 0x01,
            io_regis: crate::ppu_memory::filled(0x7F, 0),
            high_intern_ram: crate::ppu_memory::filled(0x7F, 0),
            interrupt_enable: 0,
            is_cgb,
        }
    }

    fn flag(b: bool, w: u8) -> (r: u8)
        ensures
            r == (if b { w } else { 0 }),
    {
        if b { w } else { 0 }
    }

    #[verifier::rlimit(60)]
    fn read_io(&self, address: u16) -> (r: u8)
        requires
            self.wf(),
            0xFF00 <= address <= 0xFF7F,
        ensures
            r == self.read_spec(address),
    {
        let a = address as usize;
        if address == 0xFF00 {
            self.input_memory.read()
        } else if 0xFF04 <= address && address <= 0xFF07 {
            self.timer_memory.read(a)
        } else if address == 0xFF26 {
            0
        } else if address == 0xFF40 || address == 0xFF41 || address == 0xFF44 || address == 0xFF47 || address
            == 0xFF48 || address == 0xFF49 || (0xFF68 <= address && address <= 0xFF6B) {
            self.ppu_memory.read(a, false)
        } else if address == 0xFF42 {
            self.ppu_memory.scy_ram
        } else if address == 0xFF43 {
            self.ppu_memory.scx_ram
        } else if address == 0xFF45 {
            self.ppu_memory.lyc_ram
        } else if address == 0xFF46 {
            self.ppu_memory.oam_dma_reg
        } else if address == 0xFF4A {
            self.ppu_memory.wy_ram
        } else if address == 0xFF4B {
            self.ppu_memory.wx_ram
        } else if address == 0xFF4D {
            MemoryBus::flag(self.is_double_speed, 128) + MemoryBus::flag(self.speed_chg_scheduled, 1)
        } else if address == 0xFF4F {
            0xFE + MemoryBus::flag(self.vbk_reg, 1)
        } else if address == 0xFF50 {
            self.bootrom_reg
        } else if address == 0xFF51 {
            (self.ppu_memory.vram_dma_src_regs / 256) as u8
        } else if address == 0xFF52 {
            ((self.ppu_memory.vram_dma_src_regs % 256) / 16 * 16) as u8
        } else if address == 0xFF53 {
            ((self.ppu_memory.vram_dma_dst_regs / 256) % 32) as u8
        } else if address == 0xFF54 {
            ((self.ppu_memory.vram_dma_dst_regs % 256) / 16 * 16) as u8
        } else if address == 0xFF55 {
            (if self.ppu_memory.vram_dma_is_active { 0 } else { 128 }) + self.ppu_memory.vram_dma_stat % 128
        } else if address == 0xFF70 {
            self.svbk_reg
        } else {
            self.io_regis[(address - 0xFF01) as usize]
        }
    }

    /// Reads one byte as the CPU sees it.
    #[verifier::rlimit(60)]
    pub fn read_byte(&self, address: u16) -> (r: u8)
        requires
            self.wf(),
        ensures
            r == self.read_spec(address),
    {
        let a = address as usize;
        if address <= 0x00FF {
            if self.bootrom_reg == 0 { self.bootrom_1[a] } else { self.cartridge.read(a) }
        } else if address <= 0x01FF {
            self.cartridge.read(a)
        } else if address <= 0x08FF {
            if self.bootrom_reg == 0 && self.is_cgb {
                self.bootrom_2[a - 0x0200]
            } else {
                self.cartridge.read(a)
            }
        } else if address <= 0x7FFF {
            self.cartridge.read(a)
        } else if address <= 0x9FFF {
            self.ppu_memory.read(a, self.is_cgb && self.vbk_reg)
        } else if address <= 0xBFFF {
            self.cartridge.read(a)
        } else if address <= 0xCFFF {
            self.intern_ram[a - 0xC000]
        } else if address <= 0xDFFF {
            self.intern_ram2[(self.svbk_reg as usize - 1) * 0x1000 + a - 0xD000]
        } else if address <= 0xEFFF {
            self.intern_ram[a - 0xE000]
        } else if address <= 0xFDFF {
            self.intern_ram2[(self.svbk_reg as usize - 1) * 0x1000 + a - 0xF000]
        } else if address <= 0xFE9F {
            self.ppu_memory.read(a, false)
        } else if address <= 0xFEFF {
            0
        } else if address <= 0xFF7F {
            self.read_io(address)
        } else if address <= 0xFFFE {
            self.high_intern_ram[a - 0xFF80]
        } else {
            self.interrupt_enable
        }
    }

    fn write_port(&mut self, address: u16, data: u8)
        requires
            old(self).wf(),
            0xFEA0 <= address <= 0xFF07,
        ensures
            final(self).wf(),
            MemoryBus::port_write_spec(*old(self), *final(self), address, data),
    {
        reveal(MemoryBus::port_write_spec);
        if address <= 0xFEFF {
        } else if address == 0xFF00 {
            self.input_memory.write(data);
        } else if 0xFF04 <= address {
            self.timer_memory.write(address as usize, data);
        } else {
            self.io_regis.set((address - 0xFF01) as usize, data);
        }
    }

    #[verifier::rlimit(60)]
    fn write_video_register(&mut self, address: u16, data: u8)
        requires
            old(self).wf(),
            0xFF42 <= address <= 0xFF55,
            !MemoryBus::to_ppu(address),
        ensures
            final(self).wf(),
            MemoryBus::video_write_spec(*old(self), *final(self), address, data),
    {
        reveal(MemoryBus::video_write_spec);
        let a = address as usize;
        if address == 0xFF44 {
        } else if a == 0xFF42 || a == 0xFF43 || a == 0xFF45 || a == 0xFF46 || a == 0xFF4A || a == 0xFF4B || (0xFF51
            <= a && a <= 0xFF55) {
            self.ppu_memory.write_register(a, data);
        } else if address == 0xFF4D {
            self.speed_chg_scheduled = data % 2 == 1;
        } else if address == 0xFF4F {
            self.vbk_reg = data % 2 == 1;
        } else if address == 0xFF50 {
            if self.bootrom_reg == 0 {
                self.bootrom_reg = data;
            }
        } else {
            self.io_regis.set((address - 0xFF01) as usize, data);
        }
    }

    fn write_misc(&mut self, address: u16, data: u8)
        requires
            old(self).wf(),
            0xFF56 <= address <= 0xFF7F,
            !MemoryBus::to_ppu(address),
        ensures
            final(self).wf(),
            MemoryBus::misc_write_spec(*old(self), *final(self), address, data),
    {
        reveal(MemoryBus::misc_write_spec);
        if address == 0xFF70 {
            if self.is_cgb {
                self.svbk_reg = if data % 8 == 0 { 1 } else { data % 8 };
            }
        } else {
            self.io_regis.set((address - 0xFF01) as usize, data);
        }
    }

    fn write_io(&mut self, address: u16, data: u8)
        requires
            old(self).wf(),
            0xFEA0 <= address <= 0xFF7F,
            !MemoryBus::to_ppu(address),
        ensures
            final(self).wf(),
            MemoryBus::io_write_spec(*old(self), *final(self), address, data),
    {
        if address <= 0xFF07 {
            self.write_port(address, data);
        } else if 0xFF42 <= address && address <= 0xFF55 {
            self.write_video_register(address, data);
        } else if address >= 0xFF56 {
            self.write_misc(address, data);
        } else {
            proof {
                reveal(MemoryBus::misc_write_spec);
            }
            self.io_regis.set((address - 0xFF01) as usize, data);
        }
    }

    /// Writes one byte as the CPU does.
    #[verifier::rlimit(60)]
    pub fn write_byte(&mut self, address: u16, data: u8)
        requires
            old(self).wf(),
        ensures
            final(self).wf(),
            MemoryBus::write_spec(*old(self), *final(self), address, data),
    {
        reveal(MemoryBus::write_spec);
        let a = address as usize;
        let to_cartridge = if address <= 0x00FF {
            self.bootrom_reg != 0
        } else if address <= 0x01FF {
            true
        } else if address <= 0x08FF {
            !(self.bootrom_reg == 0 && self.is_cgb)
        } else {
            address <= 0x7FFF || (0xA000 <= address && address <= 0xBFFF)
        };
        if address <= 0x08FF && !to_cartridge {
        } else if to_cartridge {
            self.cartridge.write(a, data);
        } else if (0x8000 <= address && address <= 0x9FFF) || (0xFE00 <= address && address <= 0xFE9F) || address
            == 0xFF40 || address == 0xFF41 || address == 0xFF47 || address == 0xFF48 || address == 0xFF49 || (0xFF68
            <= address && address <= 0xFF6B) {
            let bank1 = address <= 0x9FFF && self.is_cgb && self.vbk_reg;
            self.ppu_memory.write(a, data, bank1);
        } else if 0xC000 <= address && address <= 0xCFFF {
            self.intern_ram.set(a - 0xC000, data);
        } else if 0xE000 <= address && address <= 0xEFFF {
            self.intern_ram.set(a - 0xE000, data);
        } else if 0xD000 <= address && address <= 0xDFFF {
            let off = (self.svbk_reg as usize - 1) * 0x1000 + a - 0xD000;
            self.intern_ram2.set(off, data);
        } else if 0xF000 <= address && address <= 0xFDFF {
            let off = (self.svbk_reg as usize - 1) * 0x1000 + a - 0xF000;
            self.intern_ram2.set(off, data);
        } else if 0xFF80 <= address && address <= 0xFFFE {
            self.high_intern_ram.set(a - 0xFF80, data);
        } else if address == 0xFFFF {
            self.interrupt_enable = data;
        } else {
            self.write_io(address, data);
        }
    }

    /// Sets bit `bit` of IF, requesting that interrupt.
    pub fn request_interrupt(&mut self, bit: u8)
        requires
            old(self).wf(),
            bit < 5,
        ensures
            final(self).wf(),
            final(self).interrupt_flag() == (old(self).interrupt_flag() | (1u8 << bit)),
            *final(self) == (MemoryBus { io_regis: final(self).io_regis, ..*old(self) }),
            final(self).io_regis@ == old(self).io_regis@.update(0x0E, final(self).interrupt_flag()),
    {
        let f = self.io_regis[0x0E];
        self.io_regis.set(0x0E, f | (1u8 << bit));
    }

    /// Takes the host's button snapshot; a newly pressed button of a selected
    /// group requests the joypad interrupt.
    pub fn update_input(&mut self, input_state: &InputState)
        requires
            old(self).wf(),
        ensures
            final(self).wf(),
            final(self).input_memory.joypad_state == *input_state,
    {
        let edge = self.input_memory.update(input_state);
        if edge {
            self.request_interrupt(4);
        }
    }
}

} // verus!
