use vstd::prelude::*;

verus! {

/// A 2-bit tile pixel value.
#[derive(Debug, Copy, Clone, PartialEq, Eq, Structural)]
pub enum TilePixel {
    Zero,
    One,
    Two,
    Three,
}

pub type TileRow = [TilePixel; 8];

pub type Tile = [TileRow; 8];

#[derive(Debug, Copy, Clone, PartialEq, Eq, Structural)]
pub enum PixelColour {
    White,
    LightGray,
    DarkGray,
    Black,
    RGBColour(u8, u8, u8),
}

/// CGB background map attributes of one tile.
#[derive(Debug, Copy, Clone, PartialEq, Eq, Structural)]
pub struct CGBTileAttr {
    pub bg_oam_priority: bool,
    pub vertical_flip: bool,
    pub horizontal_flip: bool,
    pub is_from_bank1: bool,
    pub bg_palette_index: u8,
}

/// One OAM entry, decoded.
#[derive(Debug, Copy, Clone, PartialEq, Eq, Structural)]
pub struct OAMObject {
    pub tile_id: u8,
    pub pos_x: u8,
    pub pos_y: u8,
    pub palette_number: u8,
    pub is_from_bank1: bool,
    pub is_using_obp1: bool,
    pub is_x_flipped: bool,
    pub is_y_flipped: bool,
    pub is_under_bg_win: bool,
}

pub open spec fn pixel_of_value(v: int) -> TilePixel {
    if v == 0 {
        TilePixel::Zero
    } else if v == 1 {
        TilePixel::One
    } else if v == 2 {
        TilePixel::Two
    } else {
        TilePixel::Three
    }
}

pub open spec fn pixel_value(p: TilePixel) -> int {
    match p {
        TilePixel::Zero => 0,
        TilePixel::One => 1,
        TilePixel::Two => 2,
        TilePixel::Three => 3,
    }
}

/// Weight of bit `7 - x`: pixel x of a row comes from that bit of both planes.
pub open spec fn pixel_weight(x: int) -> int {
    if x == 0 {
        128
    } else if x == 1 {
        64
    } else if x == 2 {
        32
    } else if x == 3 {
        16
    } else if x == 4 {
        8
    } else if x == 5 {
        4
    } else if x == 6 {
        2
    } else {
        1
    }
}

/// Pixel x of a tile row stored as the bit planes `lo` and `hi`.
pub open spec fn row_pixel(lo: u8, hi: u8, x: int) -> TilePixel {
    pixel_of_value(((hi as int / pixel_weight(x)) % 2) * 2 + (lo as int / pixel_weight(x)) % 2)
}

/// The DMG shade of a 2-bit colour number.
pub open spec fn dmg_colour(code: int) -> PixelColour {
    if code == 0 {
        PixelColour::White
    } else if code == 1 {
        PixelColour::LightGray
    } else if code == 2 {
        PixelColour::DarkGray
    } else {
        PixelColour::Black
    }
}

/// Entry i of a DMG palette register: bits 2i+1..2i.
pub open spec fn palette_entry(reg: u8, i: int) -> PixelColour {
    dmg_colour((reg as int / (if i == 0 { 1int } else if i == 1 { 4int } else if i == 2 { 16int } else { 64int })) % 4)
}

/// A CGB colour from its two little-endian bytes of 5-bit RGB, scaled by 8.
pub open spec fn cgb_colour(lo: u8, hi: u8) -> PixelColour {
    PixelColour::RGBColour(
        ((lo as int % 32) * 8) as u8,
        ((lo as int / 32 + (hi as int % 4) * 8) * 8) as u8,
        (((hi as int / 4) % 32) * 8) as u8,
    )
}

pub open spec fn attr_of(b: u8) -> CGBTileAttr {
    CGBTileAttr {
        bg_oam_priority: (b / 128) % 2 == 1,
        vertical_flip: (b / 64) % 2 == 1,
        horizontal_flip: (b / 32) % 2 == 1,
        is_from_bank1: (b / 8) % 2 == 1,
        bg_palette_index: b % 8,
    }
}

pub open spec fn object_of(y: u8, x: u8, tile: u8, attr: u8) -> OAMObject {
    OAMObject {
        tile_id: tile,
        pos_x: x,
        pos_y: y,
        palette_number: attr % 8,
        is_from_bank1: (attr / 8) % 2 == 1,
        is_using_obp1: (attr / 16) % 2 == 1,
        is_x_flipped: (attr / 32) % 2 == 1,
        is_y_flipped: (attr / 64) % 2 == 1,
        is_under_bg_win: (attr / 128) % 2 == 1,
    }
}

pub open spec fn bit(v: u8, w: int) -> bool {
    (v as int / w) % 2 == 1
}

fn pixel_of(v: u8) -> (r: TilePixel)
    ensures
        r == pixel_of_value(v as int),
{
    if v == 0 {
        TilePixel::Zero
    } else if v == 1 {
        TilePixel::One
    } else if v == 2 {
        TilePixel::Two
    } else {
        TilePixel::Three
    }
}

pub fn colour_of_code(code: u8) -> (r: PixelColour)
    ensures
        r == dmg_colour(code as int),
{
    if code == 0 {
        PixelColour::White
    } else if code == 1 {
        PixelColour::LightGray
    } else if code == 2 {
        PixelColour::DarkGray
    } else {
        PixelColour::Black
    }
}

fn row_pixel_exec(lo: u8, hi: u8, x: usize) -> (r: TilePixel)
    requires
        x < 8,
    ensures
        r == row_pixel(lo, hi, x as int),
{
    let w: u8 = if x == 0 {
        128
    } else if x == 1 {
        64
    } else if x == 2 {
        32
    } else if x == 3 {
        16
    } else if x == 4 {
        8
    } else if x == 5 {
        4
    } else if x == 6 {
        2
    } else {
        1
    };
    pixel_of(((hi / w) % 2) * 2 + (lo / w) % 2)
}

/// A tile row decoded from its two bit-plane bytes.
pub fn decode_row(lo: u8, hi: u8) -> (r: TileRow)
    ensures
        forall|x: int| 0 <= x < 8 ==> r@[x] == row_pixel(lo, hi, x),
{
    [
        row_pixel_exec(lo, hi, 0),
        row_pixel_exec(lo, hi, 1),
        row_pixel_exec(lo, hi, 2),
        row_pixel_exec(lo, hi, 3),
        row_pixel_exec(lo, hi, 4),
        row_pixel_exec(lo, hi, 5),
        row_pixel_exec(lo, hi, 6),
        row_pixel_exec(lo, hi, 7),
    ]
}

/// A row mirrored left to right.
pub fn reverse_row(row: TileRow) -> (r: TileRow)
    ensures
        forall|x: int| 0 <= x < 8 ==> r@[x] == row@[7 - x],
{
    [row[7], row[6], row[5], row[4], row[3], row[2], row[1], row[0]]
}

/// Video memory and registers: VRAM (two banks on CGB), OAM, the LCD registers,
/// DMG and CGB palettes and the DMA registers.
pub struct PPUMemory {
    pub is_vram_locked: bool,
    pub is_oam_locked: bool,
    pub video_ram: Vec<u8>,
    pub video_ram2: Vec<u8>,
    pub oam: Vec<u8>,
    pub lcdc_ram: u8,
    pub scy_ram: u8,
    pub scx_ram: u8,
    pub ly_ram: u8,
    pub lyc_ram: u8,
    pub oam_dma_reg: u8,
    pub oam_dma_is_active: bool,
    pub bgp_ram: u8,
    pub obp0_ram: u8,
    pub obp1_ram: u8,
    pub wy_ram: u8,
    pub wx_ram: u8,
    pub lyc_interrupt_enable: bool,
    pub ppu_mode_2_interrupt_enable: bool,
    pub ppu_mode_1_interrupt_enable: bool,
    pub ppu_mode_0_interrupt_enable: bool,
    pub lyc_match_flag: bool,
    pub ppu_mode_id: u8,
    /// 8 palettes of 4 colours of 2 bytes.
    pub cgb_bg_palette_ram: Vec<u8>,
    pub cgb_bg_palette_autoincr: bool,
    pub cgb_bg_palette_addr: u8,
    /// 8 palettes of 4 colours of 2 bytes; colour 0 of each is transparent and unused.
    pub cgb_obj_palette_ram: Vec<u8>,
    pub cgb_obj_palette_autoincr: bool,
    pub cgb_obj_palette_addr: u8,
    pub vram_dma_src_regs: u16,
    pub vram_dma_dst_regs: u16,
    pub vram_dma_stat: u8,
    pub vram_dma_is_active: bool,
    pub vram_dma_is_hblank_mode: bool,
}

fn flag_bit(b: bool, w: u8) -> (r: u8)
    ensures
        r == (if b { w } else { 0 }),
{
    if b { w } else { 0 }
}

impl PPUMemory {
    pub open spec fn wf(&self) -> bool {
        &&& self.video_ram@.len() == 0x2000
        &&& self.video_ram2@.len() == 0x2000
        &&& self.oam@.len() == 0xA0
        &&& self.cgb_bg_palette_ram@.len() == 64
        &&& self.cgb_obj_palette_ram@.len() == 64
        &&& self.cgb_bg_palette_addr < 64
        &&& self.cgb_obj_palette_addr < 64
        &&& self.ppu_mode_id < 4
    }

    /// LCDC bit 7: the LCD and PPU run.
    pub open spec fn lcd_on(&self) -> bool {
        bit(self.lcdc_ram, 128)
    }

    pub fn lcd_enable(&self) -> (r: bool)
        ensures
            r == self.lcd_on(),
    {
        (self.lcdc_ram / 128) % 2 == 1
    }

    /// LCDC bit 6: the window uses the map at 0x9C00.
    pub fn win_using_secondary_tilemap(&self) -> (r: bool)
        ensures
            r == bit(self.lcdc_ram, 64),
    {
        (self.lcdc_ram / 64) % 2 == 1
    }

    /// LCDC bit 5: the window is shown.
    pub fn win_enable(&self) -> (r: bool)
        ensures
            r == bit(self.lcdc_ram, 32),
    {
        (self.lcdc_ram / 32) % 2 == 1
    }

    /// LCDC bit 4: background tiles are addressed from 0x8000, unsigned.
    pub fn using_fully_common_bg_tileset(&self) -> (r: bool)
        ensures
            r == bit(self.lcdc_ram, 16),
    {
        (self.lcdc_ram / 16) % 2 == 1
    }

    /// LCDC bit 3: the background uses the map at 0x9C00.
    pub fn bg_using_secondary_tilemap(&self) -> (r: bool)
        ensures
            r == bit(self.lcdc_ram, 8),
    {
        (self.lcdc_ram / 8) % 2 == 1
    }

    /// LCDC bit 2: objects are 8x16.
    pub fn double_heigth_obj(&self) -> (r: bool)
        ensures
            r == bit(self.lcdc_ram, 4),
    {
        (self.lcdc_ram / 4) % 2 == 1
    }

    /// LCDC bit 1: objects are shown.
    pub fn obj_enable(&self) -> (r: bool)
        ensures
            r == bit(self.lcdc_ram, 2),
    {
        (self.lcdc_ram / 2) % 2 == 1
    }

    /// LCDC bit 0: background and window are shown (on CGB: keep their priority).
    pub fn bg_win_enable(&self) -> (r: bool)
        ensures
            r == bit(self.lcdc_ram, 1),
    {
        self.lcdc_ram % 2 == 1
    }

    /// STAT as read: the four interrupt enables, the LY=LYC flag and the mode.
    pub open spec fn stat_spec(&self) -> u8 {
        ((if self.lyc_interrupt_enable { 64int } else { 0 }) + (if self.ppu_mode_2_interrupt_enable { 32int } else { 0 })
            + (if self.ppu_mode_1_interrupt_enable { 16int } else { 0 }) + (if self.ppu_mode_0_interrupt_enable {
            8int
        } else {
            0
        }) + (if self.lyc_match_flag { 4int } else { 0 }) + self.ppu_mode_id as int) as u8
    }

    pub open spec fn read_spec(&self, address: usize, is_from_bank1: bool) -> u8 {
        if address < 0xA000 {
            if self.is_vram_locked {
                0xFF
            } else if is_from_bank1 {
                self.video_ram2@[address - 0x8000]
            } else {
                self.video_ram@[address - 0x8000]
            }
        } else if address < 0xFEA0 {
            if self.is_oam_locked { 0xFF } else { self.oam@[address - 0xFE00] }
        } else if address == 0xFF40 {
            self.lcdc_ram
        } else if address == 0xFF41 {
            self.stat_spec()
        } else if address == 0xFF44 {
            self.ly_ram
        } else if address == 0xFF47 {
            self.bgp_ram
        } else if address == 0xFF48 {
            self.obp0_ram
        } else if address == 0xFF49 {
            self.obp1_ram
        } else if address == 0xFF68 {
            ((if self.cgb_bg_palette_autoincr { 128int } else { 0 }) + self.cgb_bg_palette_addr as int) as u8
        } else if address == 0xFF69 {
            if self.is_vram_locked {
                0xFF
            } else if self.cgb_bg_palette_addr % 2 == 0 {
                self.cgb_bg_palette_ram@[self.cgb_bg_palette_addr as int]
            } else {
                self.cgb_bg_palette_ram@[self.cgb_bg_palette_addr as int] % 128
            }
        } else if address == 0xFF6A {
            ((if self.cgb_obj_palette_autoincr { 128int } else { 0 }) + self.cgb_obj_palette_addr as int) as u8
        } else {
            if self.is_vram_locked || (self.cgb_obj_palette_addr % 8) / 2 == 0 {
                0xFF
            } else if self.cgb_obj_palette_addr % 2 == 0 {
                self.cgb_obj_palette_ram@[self.cgb_obj_palette_addr as int]
            } else {
                self.cgb_obj_palette_ram@[self.cgb_obj_palette_addr as int] % 128
            }
        }
    }

    /// A write to VRAM or OAM; dropped while the PPU locks them.
    #[verifier::opaque]
    pub open spec fn display_write_spec(o: PPUMemory, n: PPUMemory, address: usize, data: u8, is_to_bank1: bool) -> bool {
        if address < 0xA000 {
            if o.is_vram_locked {
                n == o
            } else if is_to_bank1 {
                n == (PPUMemory { video_ram2: n.video_ram2, ..o }) && n.video_ram2@ == o.video_ram2@.update(
                    address - 0x8000,
                    data,
                )
            } else {
                n == (PPUMemory { video_ram: n.video_ram, ..o }) && n.video_ram@ == o.video_ram@.update(
                    address - 0x8000,
                    data,
                )
            }
        } else if 0xFE00 <= address {
            if o.is_oam_locked {
                n == o
            } else {
                n == (PPUMemory { oam: n.oam, ..o }) && n.oam@ == o.oam@.update(address - 0xFE00, data)
            }
        } else {
            n == o
        }
    }

    /// A write to a CGB palette register: FF68/FF6A select a byte and auto-increment,
    /// FF69/FF6B write it (not while VRAM is locked, nor colour 0 of an object palette).
    #[verifier::opaque]
    pub open spec fn palette_write_spec(o: PPUMemory, n: PPUMemory, address: usize, data: u8) -> bool {
        if address == 0xFF68 {
            n == (PPUMemory { cgb_bg_palette_autoincr: bit(data, 128), cgb_bg_palette_addr: data % 64, ..o })
        } else if address == 0xFF69 {
            &&& n == (PPUMemory {
                cgb_bg_palette_ram: n.cgb_bg_palette_ram,
                cgb_bg_palette_addr: if o.cgb_bg_palette_autoincr {
                    ((o.cgb_bg_palette_addr + 1) % 64) as u8
                } else {
                    o.cgb_bg_palette_addr
                },
                ..o
            })
            &&& n.cgb_bg_palette_ram@ == (if o.is_vram_locked {
                o.cgb_bg_palette_ram@
            } else {
                o.cgb_bg_palette_ram@.update(o.cgb_bg_palette_addr as int, data)
            })
        } else if address == 0xFF6A {
            n == (PPUMemory { cgb_obj_palette_autoincr: bit(data, 128), cgb_obj_palette_addr: data % 64, ..o })
        } else {
            &&& n == (PPUMemory {
                cgb_obj_palette_ram: n.cgb_obj_palette_ram,
                cgb_obj_palette_addr: if o.cgb_obj_palette_autoincr {
                    ((o.cgb_obj_palette_addr + 1) % 64) as u8
                } else {
                    o.cgb_obj_palette_addr
                },
                ..o
            })
            &&& n.cgb_obj_palette_ram@ == (if o.is_vram_locked || (o.cgb_obj_palette_addr % 8) / 2 == 0 {
                o.cgb_obj_palette_ram@
            } else {
                o.cgb_obj_palette_ram@.update(o.cgb_obj_palette_addr as int, data)
            })
        }
    }

    /// The effect of a write from the bus. Turning the LCD off unlocks VRAM and
    /// OAM and sets LY and the mode to 0.
    pub open spec fn write_spec(o: PPUMemory, n: PPUMemory, address: usize, data: u8, is_to_bank1: bool) -> bool {
        if address < 0xFEA0 {
            PPUMemory::display_write_spec(o, n, address, data, is_to_bank1)
        } else if 0xFF68 <= address <= 0xFF6B {
            PPUMemory::palette_write_spec(o, n, address, data)
        } else if address == 0xFF40 {
            if o.lcd_on() && !bit(data, 128) {
                n == (PPUMemory { is_oam_locked: false, is_vram_locked: false, ppu_mode_id: 0, ly_ram: 0, lcdc_ram: data, ..o })
            } else {
                n == (PPUMemory { lcdc_ram: data, ..o })
            }
        } else if address == 0xFF41 {
            n == (PPUMemory {
                lyc_interrupt_enable: bit(data, 64),
                ppu_mode_2_interrupt_enable: bit(data, 32),
                ppu_mode_1_interrupt_enable: bit(data, 16),
                ppu_mode_0_interrupt_enable: bit(data, 8),
                ..o
            })
        } else if address == 0xFF44 {
            if o.lcd_on() { n == (PPUMemory { ly_ram: data, ..o }) } else { n == o }
        } else if address == 0xFF47 {
            n == (PPUMemory { bgp_ram: data, ..o })
        } else if address == 0xFF48 {
            n == (PPUMemory { obp0_ram: data, ..o })
        } else if address == 0xFF49 {
            n == (PPUMemory { obp1_ram: data, ..o })
        } else {
            n == o
        }
    }

    /// Registers that the bus writes as plain bytes: SCY, SCX, LYC, DMA, WY, WX
    /// and the HDMA registers.
    pub open spec fn is_plain_register(a: usize) -> bool {
        a == 0xFF42 || a == 0xFF43 || a == 0xFF45 || a == 0xFF46 || a == 0xFF4A || a == 0xFF4B || (0xFF51 <= a
            <= 0xFF55)
    }

    /// The effect of a write to one of the plain registers. FF46 starts an OAM
    /// DMA; FF55 with bit 7 clear cancels an active HDMA, otherwise it starts a
    /// transfer of (bits 6..0 + 1) blocks, in HBlank mode when bit 7 is set.
    pub open spec fn register_write_spec(o: PPUMemory, n: PPUMemory, a: usize, data: u8) -> bool {
        if a <= 0xFF4B {
            PPUMemory::view_register_write_spec(o, n, a, data)
        } else {
            PPUMemory::hdma_register_write_spec(o, n, a, data)
        }
    }

    #[verifier::opaque]
    pub open spec fn view_register_write_spec(o: PPUMemory, n: PPUMemory, a: usize, data: u8) -> bool {
        if a == 0xFF42 {
            n == (PPUMemory { scy_ram: data, ..o })
        } else if a == 0xFF43 {
            n == (PPUMemory { scx_ram: data, ..o })
        } else if a == 0xFF45 {
            n == (PPUMemory { lyc_ram: data, ..o })
        } else if a == 0xFF46 {
            n == (PPUMemory { oam_dma_reg: data, oam_dma_is_active: true, ..o })
        } else if a == 0xFF4A {
            n == (PPUMemory { wy_ram: data, ..o })
        } else {
            n == (PPUMemory { wx_ram: data, ..o })
        }
    }

    #[verifier::opaque]
    pub open spec fn hdma_register_write_spec(o: PPUMemory, n: PPUMemory, a: usize, data: u8) -> bool {
        if a == 0xFF51 {
            n == (PPUMemory { vram_dma_src_regs: (data as int * 256 + o.vram_dma_src_regs as int % 256) as u16, ..o })
        } else if a == 0xFF52 {
            n == (PPUMemory {
                vram_dma_src_regs: (o.vram_dma_src_regs as int / 256 * 256 + data as int / 16 * 16) as u16,
                ..o
            })
        } else if a == 0xFF53 {
            n == (PPUMemory {
                vram_dma_dst_regs: ((data as int % 32) * 256 + o.vram_dma_dst_regs as int % 256) as u16,
                ..o
            })
        } else if a == 0xFF54 {
            n == (PPUMemory {
                vram_dma_dst_regs: (o.vram_dma_dst_regs as int / 256 * 256 + data as int / 16 * 16) as u16,
                ..o
            })
        } else if o.vram_dma_is_active && data < 128 {
            n == (PPUMemory { vram_dma_is_active: false, ..o })
        } else {
            n == (PPUMemory {
                vram_dma_is_hblank_mode: data >= 128,
                vram_dma_stat: data % 128,
                vram_dma_is_active: true,
                ..o
            })
        }
    }

    #[verifier::rlimit(60)]
    fn write_view_register(&mut self, a: usize, data: u8)
        requires
            old(self).wf(),
            PPUMemory::is_plain_register(a),
            a <= 0xFF4B,
        ensures
            final(self).wf(),
            PPUMemory::view_register_write_spec(*old(self), *final(self), a, data),
    {
        reveal(PPUMemory::view_register_write_spec);
        if a == 0xFF42 {
            self.scy_ram = data;
        } else if a == 0xFF43 {
            self.scx_ram = data;
        } else if a == 0xFF45 {
            self.lyc_ram = data;
        } else if a == 0xFF46 {
            self.oam_dma_reg = data;
            self.oam_dma_is_active = true;
        } else if a == 0xFF4A {
            self.wy_ram = data;
        } else {
            self.wx_ram = data;
        }
    }

    #[verifier::rlimit(60)]
    fn write_hdma_register(&mut self, a: usize, data: u8)
        requires
            old(self).wf(),
            0xFF51 <= a <= 0xFF55,
        ensures
            final(self).wf(),
            PPUMemory::hdma_register_write_spec(*old(self), *final(self), a, data),
    {
        reveal(PPUMemory::hdma_register_write_spec);
        if a == 0xFF51 {
            self.vram_dma_src_regs = data as u16 * 256 + self.vram_dma_src_regs % 256;
        } else if a == 0xFF52 {
            self.vram_dma_src_regs = self.vram_dma_src_regs / 256 * 256 + (data / 16 * 16) as u16;
        } else if a == 0xFF53 {
            self.vram_dma_dst_regs = (data % 32) as u16 * 256 + self.vram_dma_dst_regs % 256;
        } else if a == 0xFF54 {
            self.vram_dma_dst_regs = self.vram_dma_dst_regs / 256 * 256 + (data / 16 * 16) as u16;
        } else if self.vram_dma_is_active && data < 128 {
            self.vram_dma_is_active = false;
        } else {
            self.vram_dma_is_hblank_mode = data >= 128;
            self.vram_dma_stat = data % 128;
            self.vram_dma_is_active = true;
        }
    }

    pub fn write_register(&mut self, a: usize, data: u8)
        requires
            old(self).wf(),
            PPUMemory::is_plain_register(a),
        ensures
            final(self).wf(),
            PPUMemory::register_write_spec(*old(self), *final(self), a, data),
    {
        if a <= 0xFF4B {
            self.write_view_register(a, data);
        } else {
            self.write_hdma_register(a, data);
        }
    }

    pub fn new() -> (r: PPUMemory)
        ensures
            r.wf(),
            !r.is_vram_locked && !r.is_oam_locked,
            r.lcdc_ram == 0 && r.ly_ram == 0 && r.bgp_ram == 0,
            !r.oam_dma_is_active && !r.vram_dma_is_active,
            forall|i: int| 0 <= i < 0xA0 ==> r.oam@[i] == 0xFF,
            forall|i: int| 0 <= i < 0x2000 ==> r.video_ram@[i] == 0 && r.video_ram2@[i] == 0,
    {
        PPUMemory {
            is_vram_locked: false,
            is_oam_locked: false,
            video_ram: filled(0x2000, 0),
            video_ram2: filled(0x2000, 0),
            oam: filled(0xA0, 0xFF),
            lcdc_ram: 0,
            scy_ram: 0,
            scx_ram: 0,
            ly_ram: 0,
            lyc_ram: 0,
            oam_dma_reg: 0,
            oam_dma_is_active: false,
            bgp_ram: 0,
            obp0_ram: 0,
            obp1_ram: 0,
            wy_ram: 0,
            wx_ram: 0,
            lyc_interrupt_enable: false,
            ppu_mode_2_interrupt_enable: false,
            ppu_mode_1_interrupt_enable: false,
            ppu_mode_0_interrupt_enable: false,
            lyc_match_flag: false,
            ppu_mode_id: 0,
            cgb_bg_palette_ram: filled(64, 0),
            cgb_bg_palette_autoincr: false,
            cgb_bg_palette_addr: 0,
            cgb_obj_palette_ram: filled(64, 0),
            cgb_obj_palette_autoincr: false,
            cgb_obj_palette_addr: 0,
            vram_dma_src_regs: 0,
            vram_dma_dst_regs: 0,
            vram_dma_stat: 0,
            vram_dma_is_active: false,
            vram_dma_is_hblank_mode: false,
        }
    }

    #[verifier::rlimit(60)]
    fn write_display_memory(&mut self, address: usize, data: u8, is_to_bank1: bool)
        requires
            old(self).wf(),
            0x8000 <= address < 0xFEA0,
        ensures
            final(self).wf(),
            PPUMemory::display_write_spec(*old(self), *final(self), address, data, is_to_bank1),
    {
        reveal(PPUMemory::display_write_spec);
        if address < 0xA000 {
            if self.is_vram_locked {
                return;
            }
            if is_to_bank1 {
                self.video_ram2.set(address - 0x8000, data);
            } else {
                self.video_ram.set(address - 0x8000, data);
            }
        } else {
            if address < 0xFE00 || self.is_oam_locked {
                return;
            }
            self.oam.set(address - 0xFE00, data);
        }
    }

    fn write_lcdc(&mut self, data: u8)
        requires
            old(self).wf(),
        ensures
            final(self).wf(),
            PPUMemory::write_spec(*old(self), *final(self), 0xFF40, data, false),
    {
        if self.lcd_enable() && (data / 128) % 2 == 0 {
            self.is_oam_locked = false;
            self.is_vram_locked = false;
            self.ppu_mode_id = 0;
            self.ly_ram = 0;
        }
        self.lcdc_ram = data;
    }

    #[verifier::rlimit(60)]
    fn write_cgb_bg_palette_data(&mut self, data: u8)
        requires
            old(self).wf(),
        ensures
            final(self).wf(),
            PPUMemory::palette_write_spec(*old(self), *final(self), 0xFF69, data),
    {
        reveal(PPUMemory::palette_write_spec);
        let addr = self.cgb_bg_palette_addr;
        if !self.is_vram_locked {
            self.cgb_bg_palette_ram.set(addr as usize, data);
        }
        if self.cgb_bg_palette_autoincr {
            self.cgb_bg_palette_addr = (addr + 1) % 64;
        }
    }

    #[verifier::rlimit(60)]
    fn write_cgb_obj_palette_data(&mut self, data: u8)
        requires
            old(self).wf(),
        ensures
            final(self).wf(),
            PPUMemory::palette_write_spec(*old(self), *final(self), 0xFF6B, data),
    {
        reveal(PPUMemory::palette_write_spec);
        let addr = self.cgb_obj_palette_addr;
        if !self.is_vram_locked && (addr % 8) / 2 != 0 {
            self.cgb_obj_palette_ram.set(addr as usize, data);
        }
        if self.cgb_obj_palette_autoincr {
            self.cgb_obj_palette_addr = (addr + 1) % 64;
        }
    }

    fn write_cgb_palette(&mut self, address: usize, data: u8)
        requires
            old(self).wf(),
            0xFF68 <= address <= 0xFF6B,
        ensures
            final(self).wf(),
            PPUMemory::palette_write_spec(*old(self), *final(self), address, data),
    {
        if address == 0xFF68 {
            proof {
                reveal(PPUMemory::palette_write_spec);
            }
            self.cgb_bg_palette_autoincr = (data / 128) % 2 == 1;
            self.cgb_bg_palette_addr = data % 64;
        } else if address == 0xFF69 {
            self.write_cgb_bg_palette_data(data);
        } else if address == 0xFF6A {
            proof {
                reveal(PPUMemory::palette_write_spec);
            }
            self.cgb_obj_palette_autoincr = (data / 128) % 2 == 1;
            self.cgb_obj_palette_addr = data % 64;
        } else {
            self.write_cgb_obj_palette_data(data);
        }
    }

    #[verifier::rlimit(60)]
    pub fn write(&mut self, address: usize, data: u8, is_to_bank1: bool)
        requires
            old(self).wf(),
            0x8000 <= address <= 0xFFFF,
        ensures
            final(self).wf(),
            PPUMemory::write_spec(*old(self), *final(self), address, data, is_to_bank1),
    {
        if address < 0xFEA0 {
            self.write_display_memory(address, data, is_to_bank1);
        } else if address == 0xFF40 {
            self.write_lcdc(data);
        } else if address == 0xFF41 {
            self.lyc_interrupt_enable = (data / 64) % 2 == 1;
            self.ppu_mode_2_interrupt_enable = (data / 32) % 2 == 1;
            self.ppu_mode_1_interrupt_enable = (data / 16) % 2 == 1;
            self.ppu_mode_0_interrupt_enable = (data / 8) % 2 == 1;
        } else if address == 0xFF44 {
            if self.lcd_enable() {
                self.ly_ram = data;
            }
        } else if address == 0xFF47 {
            self.bgp_ram = data;
        } else if address == 0xFF48 {
            self.obp0_ram = data;
        } else if address == 0xFF49 {
            self.obp1_ram = data;
        } else if 0xFF68 <= address && address <= 0xFF6B {
            self.write_cgb_palette(address, data);
        }
    }

    #[verifier::rlimit(60)]
    pub fn read(&self, address: usize, is_from_bank1: bool) -> (r: u8)
        requires
            self.wf(),
            0x8000 <= address <= 0x9FFF || 0xFE00 <= address <= 0xFE9F || 0xFF40 <= address <= 0xFFFF,
        ensures
            r == self.read_spec(address, is_from_bank1),
    {
        if address < 0xA000 {
            if self.is_vram_locked {
                0xFF
            } else if is_from_bank1 {
                self.video_ram2[address - 0x8000]
            } else {
                self.video_ram[address - 0x8000]
            }
        } else if address < 0xFEA0 {
            if self.is_oam_locked { 0xFF } else { self.oam[address - 0xFE00] }
        } else if address == 0xFF40 {
            self.lcdc_ram
        } else if address == 0xFF41 {
            flag_bit(self.lyc_interrupt_enable, 64) + flag_bit(self.ppu_mode_2_interrupt_enable, 32) + flag_bit(
                self.ppu_mode_1_interrupt_enable,
                16,
            ) + flag_bit(self.ppu_mode_0_interrupt_enable, 8) + flag_bit(self.lyc_match_flag, 4) + self.ppu_mode_id
        } else if address == 0xFF44 {
            self.ly_ram
        } else if address == 0xFF47 {
            self.bgp_ram
        } else if address == 0xFF48 {
            self.obp0_ram
        } else if address == 0xFF49 {
            self.obp1_ram
        } else if address == 0xFF68 {
            flag_bit(self.cgb_bg_palette_autoincr, 128) + self.cgb_bg_palette_addr
        } else if address == 0xFF69 {
            if self.is_vram_locked {
                0xFF
            } else if self.cgb_bg_palette_addr % 2 == 0 {
                self.cgb_bg_palette_ram[self.cgb_bg_palette_addr as usize]
            } else {
                self.cgb_bg_palette_ram[self.cgb_bg_palette_addr as usize] % 128
            }
        } else if address == 0xFF6A {
            flag_bit(self.cgb_obj_palette_autoincr, 128) + self.cgb_obj_palette_addr
        } else {
            if self.is_vram_locked || (self.cgb_obj_palette_addr % 8) / 2 == 0 {
                0xFF
            } else if self.cgb_obj_palette_addr % 2 == 0 {
                self.cgb_obj_palette_ram[self.cgb_obj_palette_addr as usize]
            } else {
                self.cgb_obj_palette_ram[self.cgb_obj_palette_addr as usize] % 128
            }
        }
    }

    pub open spec fn bank(&self, is_from_bank1: bool) -> Seq<u8> {
        if is_from_bank1 { self.video_ram2@ } else { self.video_ram@ }
    }

    /// Offset in VRAM of a background/window tile: 0x8000-based for indices of
    /// 128 and up or with LCDC bit 4 set, else 0x9000-based.
    pub open spec fn bg_tile_addr(&self, tile_index: u8) -> int {
        if tile_index >= 128 || bit(self.lcdc_ram, 16) {
            tile_index as int * 16
        } else {
            0x1000 + tile_index as int * 16
        }
    }

    pub open spec fn map_entry_offset(secondary: bool, x: u8, y: u8) -> int {
        (if secondary { 0x1C00int } else { 0x1800int }) + y as int * 32 + x as int
    }

    pub open spec fn row_spec(&self, is_from_bank1: bool, addr: int, x: int) -> TilePixel {
        row_pixel(self.bank(is_from_bank1)[addr], self.bank(is_from_bank1)[addr + 1], x)
    }

    /// Tile index at (x, y) of the background map.
    pub fn get_bg_tile_index(&self, x: u8, y: u8) -> (r: u8)
        requires
            self.wf(),
            x < 32 && y < 32,
        ensures
            r == self.video_ram@[PPUMemory::map_entry_offset(bit(self.lcdc_ram, 8), x, y)],
    {
        let base: usize = if self.bg_using_secondary_tilemap() { 0x1C00 } else { 0x1800 };
        self.video_ram[base + y as usize * 32 + x as usize]
    }

    /// CGB attributes at (x, y) of the background map (VRAM bank 1).
    pub fn get_bg_tile_cgb_attr(&self, x: u8, y: u8) -> (r: CGBTileAttr)
        requires
            self.wf(),
            x < 32 && y < 32,
        ensures
            r == attr_of(self.video_ram2@[PPUMemory::map_entry_offset(bit(self.lcdc_ram, 8), x, y)]),
    {
        let base: usize = if self.bg_using_secondary_tilemap() { 0x1C00 } else { 0x1800 };
        decode_attr(self.video_ram2[base + y as usize * 32 + x as usize])
    }

    /// Tile index at (x, y) of the window map.
    pub fn get_win_tile_index(&self, x: u8, y: u8) -> (r: u8)
        requires
            self.wf(),
            x < 32 && y < 32,
        ensures
            r == self.video_ram@[PPUMemory::map_entry_offset(bit(self.lcdc_ram, 64), x, y)],
    {
        let base: usize = if self.win_using_secondary_tilemap() { 0x1C00 } else { 0x1800 };
        self.video_ram[base + y as usize * 32 + x as usize]
    }

    /// CGB attributes at (x, y) of the window map.
    pub fn get_win_tile_cgb_attr(&self, x: u8, y: u8) -> (r: CGBTileAttr)
        requires
            self.wf(),
            x < 32 && y < 32,
        ensures
            r == attr_of(self.video_ram2@[PPUMemory::map_entry_offset(bit(self.lcdc_ram, 64), x, y)]),
    {
        let base: usize = if self.win_using_secondary_tilemap() { 0x1C00 } else { 0x1800 };
        decode_attr(self.video_ram2[base + y as usize * 32 + x as usize])
    }

    fn bg_tile_addr_exec(&self, tile_index: u8) -> (r: usize)
        ensures
            r == self.bg_tile_addr(tile_index),
            r + 16 <= 0x1800,
    {
        if tile_index >= 128 || self.using_fully_common_bg_tileset() {
            tile_index as usize * 16
        } else {
            0x1000 + tile_index as usize * 16
        }
    }

    fn row_at(&self, is_from_bank1: bool, addr: usize) -> (r: TileRow)
        requires
            self.wf(),
            addr + 1 < 0x2000,
        ensures
            forall|x: int| 0 <= x < 8 ==> r@[x] == self.row_spec(is_from_bank1, addr as int, x),
    {
        if is_from_bank1 {
            decode_row(self.video_ram2[addr], self.video_ram2[addr + 1])
        } else {
            decode_row(self.video_ram[addr], self.video_ram[addr + 1])
        }
    }

    /// Row `row` of a background/window tile.
    pub fn get_bg_win_tile_row(&self, tile_index: u8, is_from_bank1: bool, row: usize) -> (r: TileRow)
        requires
            self.wf(),
            row < 8,
        ensures
            forall|x: int|
                0 <= x < 8 ==> r@[x] == self.row_spec(is_from_bank1, self.bg_tile_addr(tile_index) + 2 * row, x),
    {
        self.row_at(is_from_bank1, self.bg_tile_addr_exec(tile_index) + 2 * row)
    }

    /// A whole background/window tile, rows from the top.
    pub fn get_bg_win_tile(&self, tile_index: u8, is_from_bank1: bool) -> (r: Tile)
        requires
            self.wf(),
        ensures
            forall|y: int, x: int|
                0 <= y < 8 && 0 <= x < 8 ==> r@[y]@[x] == self.row_spec(
                    is_from_bank1,
                    self.bg_tile_addr(tile_index) + 2 * y,
                    x,
                ),
    {
        let t = [
            self.get_bg_win_tile_row(tile_index, is_from_bank1, 0),
            self.get_bg_win_tile_row(tile_index, is_from_bank1, 1),
            self.get_bg_win_tile_row(tile_index, is_from_bank1, 2),
            self.get_bg_win_tile_row(tile_index, is_from_bank1, 3),
            self.get_bg_win_tile_row(tile_index, is_from_bank1, 4),
            self.get_bg_win_tile_row(tile_index, is_from_bank1, 5),
            self.get_bg_win_tile_row(tile_index, is_from_bank1, 6),
            self.get_bg_win_tile_row(tile_index, is_from_bank1, 7),
        ];
        assert forall|y: int, x: int| 0 <= y < 8 && 0 <= x < 8 implies t@[y]@[x] == self.row_spec(
            is_from_bank1,
            self.bg_tile_addr(tile_index) + 2 * y,
            x,
        ) by {
            if y == 0 {} else if y == 1 {} else if y == 2 {} else if y == 3 {} else if y == 4 {} else if y == 5 {} else if y == 6 {} else {}
        }
        t
    }

    /// Offset in VRAM of row `line` of an object's tile (objects use 0x8000-based
    /// indices; for 8x16 objects the index's low bit is ignored and the lower half
    /// comes from the next tile).
    pub open spec fn obj_row_addr(&self, tile_index: u8, line_index: u8) -> int {
        if bit(self.lcdc_ram, 4) {
            (tile_index as int - tile_index as int % 2) * 16 + line_index as int * 2
        } else {
            tile_index as int * 16 + line_index as int * 2
        }
    }

    /// Row `line_index` (from the object's top) of an object's tile.
    pub fn get_obj_row(&self, tile_index: u8, line_index: u8, is_from_bank1: bool) -> (r: TileRow)
        requires
            self.wf(),
            line_index < (if bit(self.lcdc_ram, 4) { 16u8 } else { 8u8 }),
        ensures
            forall|x: int|
                0 <= x < 8 ==> r@[x] == self.row_spec(is_from_bank1, self.obj_row_addr(tile_index, line_index), x),
    {
        let addr: usize = if self.double_heigth_obj() {
            (tile_index - tile_index % 2) as usize * 16 + line_index as usize * 2
        } else {
            tile_index as usize * 16 + line_index as usize * 2
        };
        self.row_at(is_from_bank1, addr)
    }

    /// OAM entry `i`, decoded.
    pub fn object(&self, i: usize) -> (r: OAMObject)
        requires
            self.wf(),
            i < 40,
        ensures
            r == object_of(self.oam@[4 * i as int], self.oam@[4 * i + 1], self.oam@[4 * i + 2], self.oam@[4 * i + 3]),
    {
        let attr = self.oam[4 * i + 3];
        OAMObject {
            tile_id: self.oam[4 * i + 2],
            pos_x: self.oam[4 * i + 1],
            pos_y: self.oam[4 * i],
            palette_number: attr % 8,
            is_from_bank1: (attr / 8) % 2 == 1,
            is_using_obp1: (attr / 16) % 2 == 1,
            is_x_flipped: (attr / 32) % 2 == 1,
            is_y_flipped: (attr / 64) % 2 == 1,
            is_under_bg_win: (attr / 128) % 2 == 1,
        }
    }

    /// Entry i (0..=3) of the DMG background palette BGP.
    pub fn bg_palette_colour(&self, i: u8) -> (r: PixelColour)
        requires
            i < 4,
        ensures
            r == palette_entry(self.bgp_ram, i as int),
    {
        dmg_palette_colour(self.bgp_ram, i)
    }

    /// Entry i (1..=3) of the DMG object palette OBP0 or OBP1.
    pub fn obj_palette_colour(&self, is_using_obp1: bool, i: u8) -> (r: PixelColour)
        requires
            i < 4,
        ensures
            r == palette_entry(if is_using_obp1 { self.obp1_ram } else { self.obp0_ram }, i as int),
    {
        dmg_palette_colour(if is_using_obp1 { self.obp1_ram } else { self.obp0_ram }, i)
    }

    /// Colour i of CGB background palette p.
    pub fn cgb_bg_colour(&self, p: u8, i: u8) -> (r: PixelColour)
        requires
            self.wf(),
            p < 8 && i < 4,
        ensures
            r == cgb_colour(
                self.cgb_bg_palette_ram@[p as int * 8 + i as int * 2],
                self.cgb_bg_palette_ram@[p as int * 8 + i as int * 2 + 1],
            ),
    {
        let at = p as usize * 8 + i as usize * 2;
        cgb_colour_exec(self.cgb_bg_palette_ram[at], self.cgb_bg_palette_ram[at + 1])
    }

    /// Colour i of CGB object palette p.
    pub fn cgb_obj_colour(&self, p: u8, i: u8) -> (r: PixelColour)
        requires
            self.wf(),
            p < 8 && i < 4,
        ensures
            r == cgb_colour(
                self.cgb_obj_palette_ram@[p as int * 8 + i as int * 2],
                self.cgb_obj_palette_ram@[p as int * 8 + i as int * 2 + 1],
            ),
    {
        let at = p as usize * 8 + i as usize * 2;
        cgb_colour_exec(self.cgb_obj_palette_ram[at], self.cgb_obj_palette_ram[at + 1])
    }
}

fn decode_attr(b: u8) -> (r: CGBTileAttr)
    ensures
        r == attr_of(b),
{
    CGBTileAttr {
        bg_oam_priority: (b / 128) % 2 == 1,
        vertical_flip: (b / 64) % 2 == 1,
        horizontal_flip: (b / 32) % 2 == 1,
        is_from_bank1: (b / 8) % 2 == 1,
        bg_palette_index: b % 8,
    }
}

fn dmg_palette_colour(reg: u8, i: u8) -> (r: PixelColour)
    requires
        i < 4,
    ensures
        r == palette_entry(reg, i as int),
{
    let d: u8 = if i == 0 {
        1
    } else if i == 1 {
        4
    } else if i == 2 {
        16
    } else {
        64
    };
    colour_of_code((reg / d) % 4)
}

fn cgb_colour_exec(lo: u8, hi: u8) -> (r: PixelColour)
    ensures
        r == cgb_colour(lo, hi),
{
    PixelColour::RGBColour((lo % 32) * 8, (lo / 32 + (hi % 4) * 8) * 8, ((hi / 4) % 32) * 8)
}

/// BGP round trip: the byte written to BGP reads back, and palette entry i is
/// the shade named by bits 2i+1..2i of it.
pub proof fn lemma_bgp_round_trip(o: PPUMemory, n: PPUMemory, data: u8)
    requires
        PPUMemory::write_spec(o, n, 0xFF47, data, false),
    ensures
        n.read_spec(0xFF47, false) == data,
        forall|i: int| 0 <= i < 4 ==> #[trigger] palette_entry(n.bgp_ram, i) == dmg_colour((data as int / (if i == 0 { 1int } else if i == 1 { 4int } else if i == 2 { 16int } else { 64int })) % 4),
{
}

/// A vector of `n` copies of `v`.
pub fn filled(n: usize, v: u8) -> (r: Vec<u8>)
    ensures
        r@.len() == n,
        forall|i: int| 0 <= i < n ==> r@[i] == v,
{
    let mut out: Vec<u8> = Vec::new();
    while out.len() < n
        invariant
            out@.len() <= n,
            forall|i: int| 0 <= i < out@.len() ==> out@[i] == v,
        decreases n - out.len(),
    {
        out.push(v);
    }
    out
}

} // verus!
