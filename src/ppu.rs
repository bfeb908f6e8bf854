use vstd::prelude::*;
use crate::memory_bus::MemoryBus;
use crate::ppu_memory::{PPUMemory, PixelColour, TilePixel, TileRow, CGBTileAttr, reverse_row, pixel_value, bit, attr_of, palette_entry, cgb_colour, object_of, OAMObject};

verus! {

pub const TILESET_VIEWER_PX_WIDTH: usize = 256;
pub const TILESET_VIEWER_PX_HEIGHT: usize = 192;
pub const TILEMAP_PX_WIDTH: usize = 256;
pub const TILEMAP_PX_HEIGHT: usize = 256;
pub const VIEWPORT_PX_WIDTH: usize = 160;
pub const VIEWPORT_PX_HEIGHT: usize = 144;
/// Bytes of the RGBA framebuffer: 160 x 144 pixels of 4 bytes.
pub const FRAMEBUFFER_LEN: usize = 92160;

/// The pipeline position: mode, line and dot within the mode (VBlank counts
/// its dots over all ten lines).
#[derive(Debug, Clone, Copy, PartialEq, Eq, Structural)]
pub enum PPUModes {
    OAMSearch(u8, usize),
    LineDraw(u8, usize),
    HBlank(u8, usize),
    VBlank(u8, usize),
}

/// An object row selected for the current line.
#[derive(Debug, Clone, Copy)]
pub struct ObjRow {
    /// Screen x plus 8, as in OAM.
    pub x: usize,
    /// The 8 pixels, already mirrored when the object is.
    pub row: TileRow,
    pub is_using_obp1: bool,
    pub is_under_bg_win: bool,
    pub cgb_palette: u8,
}

pub struct Ppu {
    pub ppu_mode: PPUModes,
    pub current_line_obj_rows: Vec<ObjRow>,
    pub oam_dma_count: usize,
    pub vram_dma_count: u16,
}

/// The state after one dot.
pub open spec fn next_mode(m: PPUModes) -> PPUModes {
    match m {
        PPUModes::OAMSearch(l, c) => if c >= 79 { PPUModes::LineDraw(l, 0) } else { PPUModes::OAMSearch(l, (c + 1) as usize) },
        PPUModes::LineDraw(l, c) => if c >= 167 { PPUModes::HBlank(l, 168) } else { PPUModes::LineDraw(l, (c + 1) as usize) },
        PPUModes::HBlank(l, c) => if c >= 375 {
            if l >= 143 { PPUModes::VBlank(144, 0) } else { PPUModes::OAMSearch((l + 1) as u8, 0) }
        } else {
            PPUModes::HBlank(l, (c + 1) as usize)
        },
        PPUModes::VBlank(_, c) => if c >= 4559 {
            PPUModes::OAMSearch(0, 0)
        } else {
            PPUModes::VBlank((144 + (c + 1) / 456) as u8, (c + 1) as usize)
        },
    }
}

/// The STAT mode number of a state.
pub open spec fn mode_id(m: PPUModes) -> u8 {
    match m {
        PPUModes::OAMSearch(_, _) => 2,
        PPUModes::LineDraw(_, _) => 3,
        PPUModes::HBlank(_, _) => 0,
        PPUModes::VBlank(_, _) => 1,
    }
}

/// Whether the dot after `m` is the first of a mode, and so raises that mode's
/// STAT source if enabled: HBlank (mode 0), VBlank (1), OAM search (2).
pub open spec fn mode_stat_request(m: PPUModes, mem: PPUMemory) -> bool {
    let n = next_mode(m);
    mode_id(n) != mode_id(m) && match n {
        PPUModes::HBlank(_, _) => mem.ppu_mode_0_interrupt_enable,
        PPUModes::VBlank(_, _) => mem.ppu_mode_1_interrupt_enable,
        PPUModes::OAMSearch(_, _) => mem.ppu_mode_2_interrupt_enable,
        _ => false,
    }
}

/// Whether the dot after `m` enters VBlank, which requests the VBlank interrupt.
pub open spec fn vblank_request(m: PPUModes) -> bool {
    mode_id(m) != 1 && mode_id(next_mode(m)) == 1
}

/// The line that a state shows.
pub open spec fn line_of(m: PPUModes) -> u8 {
    match m {
        PPUModes::OAMSearch(l, _) | PPUModes::LineDraw(l, _) | PPUModes::HBlank(l, _) | PPUModes::VBlank(l, _) => l,
    }
}

/// Whether `m` is the first dot of a line, where LY is published and compared
/// with LYC.
pub open spec fn line_start(m: PPUModes) -> bool {
    match m {
        PPUModes::OAMSearch(_, c) => c == 0,
        PPUModes::VBlank(_, c) => c % 456 == 0,
        _ => false,
    }
}

/// The LY=LYC STAT source is raised at the first dot of each line where LY
/// equals LYC, when enabled.
pub open spec fn lyc_stat_request(m: PPUModes, mem: PPUMemory) -> bool {
    line_start(m) && line_of(m) == mem.lyc_ram && mem.lyc_interrupt_enable
}

/// RGBA bytes of a colour.
pub open spec fn rgba_of(c: PixelColour) -> Seq<u8> {
    match c {
        PixelColour::White => seq![0xFFu8, 0xFF, 0xFF, 0xFF],
        PixelColour::LightGray => seq![0xAAu8, 0xAA, 0xAA, 0xFF],
        PixelColour::DarkGray => seq![0x55u8, 0x55, 0x55, 0xFF],
        PixelColour::Black => seq![0x00u8, 0x00, 0x00, 0xFF],
        PixelColour::RGBColour(r, g, b) => seq![r, g, b, 0xFFu8],
    }
}

pub fn palette_translation(pixel_colour: &PixelColour) -> (r: [u8; 4])
    ensures
        r@ == rgba_of(*pixel_colour),
{
    let r = match pixel_colour {
        PixelColour::White => [0xFF, 0xFF, 0xFF, 0xFF],
        PixelColour::LightGray => [0xAA, 0xAA, 0xAA, 0xFF],
        PixelColour::DarkGray => [0x55, 0x55, 0x55, 0xFF],
        PixelColour::Black => [0x00, 0x00, 0x00, 0xFF],
        PixelColour::RGBColour(r, g, b) => [*r, *g, *b, 0xFF],
    };
    assert(r@ =~= rgba_of(*pixel_colour));
    r
}

/// Writes the four bytes of pixel `pos` of an RGBA buffer.
fn put_pixel(framebuffer: &mut Vec<u8>, pos: usize, colour: &PixelColour)
    requires
        pos < 0x100000,
        4 * pos + 4 <= old(framebuffer)@.len(),
    ensures
        final(framebuffer)@.len() == old(framebuffer)@.len(),
        final(framebuffer)@.subrange(4 * pos as int, 4 * pos + 4) == rgba_of(*colour),
        forall|i: int| 0 <= i < old(framebuffer)@.len() && !(4 * pos <= i < 4 * pos + 4) ==> final(framebuffer)@[i] == old(framebuffer)@[i],
{
    let px = palette_translation(colour);
    framebuffer.set(4 * pos, px[0]);
    framebuffer.set(4 * pos + 1, px[1]);
    framebuffer.set(4 * pos + 2, px[2]);
    framebuffer.set(4 * pos + 3, px[3]);
    assert(framebuffer@.subrange(4 * pos as int, 4 * pos + 4) =~= rgba_of(*colour));
}

fn pixel_code(p: TilePixel) -> (r: u8)
    ensures
        r as int == pixel_value(p),
        r < 4,
{
    match p {
        TilePixel::Zero => 0,
        TilePixel::One => 1,
        TilePixel::Two => 2,
        TilePixel::Three => 3,
    }
}

/// Colour number of an object row at screen x (0 where the row does not cover x).
pub open spec fn obj_code(r: ObjRow, x: int) -> int {
    if x < r.x && x + 8 >= r.x { pixel_value(r.row@[8 - (r.x - x)]) } else { 0 }
}

/// Index of the first held row from `k` on with a non-zero pixel at x, or -1.
pub open spec fn first_obj(rows: Seq<ObjRow>, x: int, k: int) -> int
    decreases rows.len() - k,
{
    if k < 0 || k >= rows.len() {
        -1
    } else if obj_code(rows[k], x) != 0 {
        k
    } else {
        first_obj(rows, x, k + 1)
    }
}

/// Whether the background/window layer is drawn: LCDC bit 0 on DMG, always on CGB.
pub open spec fn bg_shown(bus: MemoryBus) -> bool {
    bit(bus.ppu_memory.lcdc_ram, 1) || bus.is_cgb
}

/// The background/window colour at (x, line): white on DMG with LCDC bit 0
/// clear, else the colour number through BGP (DMG) or the tile's CGB palette.
pub open spec fn bg_colour(bus: MemoryBus, line: u8, x: int) -> PixelColour {
    let mem = bus.ppu_memory;
    let code = bg_code(bus, line, x) as int;
    if !bg_shown(bus) {
        PixelColour::White
    } else if bus.is_cgb {
        let at = bg_attr(bus, line, x).bg_palette_index as int * 8 + code * 2;
        cgb_colour(mem.cgb_bg_palette_ram@[at], mem.cgb_bg_palette_ram@[at + 1])
    } else {
        palette_entry(mem.bgp_ram, code)
    }
}

/// The colour composed at (x, line) from the background/window and the held
/// object rows: with objects on (LCDC bit 1), the first row with a non-zero
/// pixel wins over the background unless LCDC bit 0 is set and the background
/// pixel is non-zero and either the row is under BG or (CGB) the tile has priority.
pub open spec fn composed(bus: MemoryBus, rows: Seq<ObjRow>, line: u8, x: int) -> PixelColour {
    let mem = bus.ppu_memory;
    let code = if bg_shown(bus) { bg_code(bus, line, x) as int } else { 0 };
    let prio = bus.is_cgb && bg_attr(bus, line, x).bg_oam_priority;
    let k = if bit(mem.lcdc_ram, 2) { first_obj(rows, x, 0) } else { -1 };
    if k >= 0 && (!bit(mem.lcdc_ram, 1) || (!rows[k].is_under_bg_win && !prio) || code == 0) {
        let oc = obj_code(rows[k], x);
        if bus.is_cgb {
            let at = (rows[k].cgb_palette % 8) as int * 8 + oc * 2;
            cgb_colour(mem.cgb_obj_palette_ram@[at], mem.cgb_obj_palette_ram@[at + 1])
        } else {
            palette_entry(if rows[k].is_using_obp1 { mem.obp1_ram } else { mem.obp0_ram }, oc)
        }
    } else {
        bg_colour(bus, line, x)
    }
}

/// OAM entry i.
pub open spec fn oam_entry(mem: PPUMemory, i: int) -> OAMObject {
    object_of(mem.oam@[4 * i], mem.oam@[4 * i + 1], mem.oam@[4 * i + 2], mem.oam@[4 * i + 3])
}

/// Object height: 16 with LCDC bit 2, else 8.
pub open spec fn obj_height(mem: PPUMemory) -> int {
    if bit(mem.lcdc_ram, 4) { 16 } else { 8 }
}

/// Whether OAM entry i covers `line` (its Y is the line plus 16 at its top).
pub open spec fn covers(mem: PPUMemory, i: int, line: u8) -> bool {
    let y = oam_entry(mem, i).pos_y as int;
    line + 16 >= y && line + 16 < y + obj_height(mem)
}

/// The row that OAM entry i shows on `line`: flipped vertically and
/// horizontally as its attributes say, from VRAM bank 1 on CGB when it says so.
pub open spec fn obj_row_of(bus: MemoryBus, i: int, line: u8, r: ObjRow) -> bool {
    let mem = bus.ppu_memory;
    let o = oam_entry(mem, i);
    let from_top = line + 16 - o.pos_y;
    let ri = if o.is_y_flipped { obj_height(mem) - 1 - from_top } else { from_top };
    &&& r.x == o.pos_x as usize
    &&& r.is_using_obp1 == o.is_using_obp1
    &&& r.is_under_bg_win == o.is_under_bg_win
    &&& r.cgb_palette == o.palette_number
    &&& forall|px: int|
        0 <= px < 8 ==> r.row@[px] == mem.row_spec(
            bus.is_cgb && o.is_from_bank1,
            mem.obj_row_addr(o.tile_id, ri as u8),
            if o.is_x_flipped { 7 - px } else { px },
        )
}

/// Whether pixel (x, line) lies in the window.
pub open spec fn in_window(mem: PPUMemory, line: u8, x: int) -> bool {
    bit(mem.lcdc_ram, 32) && line >= mem.wy_ram && x + 7 >= mem.wx_ram
}

/// Coordinates of pixel (x, line) in the window or background map.
pub open spec fn map_xy(mem: PPUMemory, line: u8, x: int) -> (int, int) {
    if in_window(mem, line, x) {
        (x + 7 - mem.wx_ram, line - mem.wy_ram)
    } else {
        ((mem.scx_ram + x) % 256, (mem.scy_ram + line) % 256)
    }
}

pub open spec fn no_attr() -> CGBTileAttr {
    CGBTileAttr { bg_oam_priority: false, vertical_flip: false, horizontal_flip: false, is_from_bank1: false, bg_palette_index: 0 }
}

/// The map entry offset in VRAM of the tile under pixel (x, line).
pub open spec fn map_offset(mem: PPUMemory, line: u8, x: int) -> int {
    let (mx, my) = map_xy(mem, line, x);
    PPUMemory::map_entry_offset(
        if in_window(mem, line, x) { bit(mem.lcdc_ram, 64) } else { bit(mem.lcdc_ram, 8) },
        (mx / 8) as u8,
        (my / 8) as u8,
    )
}

/// The CGB attributes of the tile under pixel (x, line); none on DMG.
pub open spec fn bg_attr(bus: MemoryBus, line: u8, x: int) -> CGBTileAttr {
    if bus.is_cgb { attr_of(bus.ppu_memory.video_ram2@[map_offset(bus.ppu_memory, line, x)]) } else { no_attr() }
}

/// The colour number of the background or window at pixel (x, line): the
/// tile from the map, its row (flipped per the attributes), its pixel.
pub open spec fn bg_code(bus: MemoryBus, line: u8, x: int) -> u8 {
    let mem = bus.ppu_memory;
    let (mx, my) = map_xy(mem, line, x);
    let attr = bg_attr(bus, line, x);
    let tile = mem.video_ram@[map_offset(mem, line, x)];
    let row = if attr.vertical_flip { 7 - my % 8 } else { my % 8 };
    let px = if attr.horizontal_flip { 7 - mx % 8 } else { mx % 8 };
    pixel_value(mem.row_spec(attr.is_from_bank1, mem.bg_tile_addr(tile) + 2 * row, px)) as u8
}

/// What a DMA step leaves alone: interrupts, LCD control and status, and
/// the bus's own registers.
pub open spec fn dma_frame(ob: MemoryBus, nb: MemoryBus) -> bool {
    &&& nb.io_regis == ob.io_regis
    &&& nb.interrupt_enable == ob.interrupt_enable
    &&& nb.is_cgb == ob.is_cgb
    &&& nb.is_double_speed == ob.is_double_speed
    &&& nb.vbk_reg == ob.vbk_reg
    &&& nb.ppu_memory.lcdc_ram == ob.ppu_memory.lcdc_ram
    &&& nb.ppu_memory.lyc_ram == ob.ppu_memory.lyc_ram
    &&& nb.ppu_memory.ppu_mode_id == ob.ppu_memory.ppu_mode_id
    &&& nb.ppu_memory.lyc_interrupt_enable == ob.ppu_memory.lyc_interrupt_enable
    &&& nb.ppu_memory.ppu_mode_0_interrupt_enable == ob.ppu_memory.ppu_mode_0_interrupt_enable
    &&& nb.ppu_memory.ppu_mode_1_interrupt_enable == ob.ppu_memory.ppu_mode_1_interrupt_enable
    &&& nb.ppu_memory.ppu_mode_2_interrupt_enable == ob.ppu_memory.ppu_mode_2_interrupt_enable
}

/// `f` with the bits of `mask` set when `cond` holds.
pub open spec fn raise(f: u8, cond: bool, mask: u8) -> u8 {
    if cond { f | mask } else { f }
}

/// The states the pipeline can be in.
pub open spec fn mode_ok(m: PPUModes) -> bool {
    match m {
        PPUModes::OAMSearch(l, c) => l <= 143 && c <= 79,
        PPUModes::LineDraw(l, c) => l <= 143 && c <= 167,
        PPUModes::HBlank(l, c) => l <= 143 && 168 <= c <= 375,
        PPUModes::VBlank(l, c) => c <= 4559 && l == 144 + c / 456,
    }
}

/// The first dot of a mode stretch.
pub open spec fn mode_start(m: PPUModes) -> bool {
    match m {
        PPUModes::OAMSearch(_, c) => c == 0,
        PPUModes::LineDraw(_, c) => c == 0,
        PPUModes::HBlank(_, c) => c == 168,
        PPUModes::VBlank(_, c) => c == 0,
    }
}

pub open spec fn source_enabled(m: PPUModes, mem: PPUMemory) -> bool {
    match m {
        PPUModes::HBlank(_, _) => mem.ppu_mode_0_interrupt_enable,
        PPUModes::VBlank(_, _) => mem.ppu_mode_1_interrupt_enable,
        PPUModes::OAMSearch(_, _) => mem.ppu_mode_2_interrupt_enable,
        _ => false,
    }
}

/// Dot within the current line.
pub open spec fn dot_in_line(m: PPUModes) -> int {
    match m {
        PPUModes::OAMSearch(_, c) => c as int,
        PPUModes::LineDraw(_, c) => 80 + c,
        PPUModes::HBlank(_, c) => 80 + c,
        PPUModes::VBlank(_, c) => c as int % 456,
    }
}

/// STAT requests: a mode source is raised exactly at the step into the first
/// dot of its mode, when enabled, and never within a mode; the LY=LYC source
/// only at dot 0 of a line. The pipeline steps stay among its states.
pub proof fn lemma_stat_sources_once(m: PPUModes, mem: PPUMemory)
    requires
        mode_ok(m),
    ensures
        mode_ok(next_mode(m)),
        mode_stat_request(m, mem) <==> (mode_start(next_mode(m)) && source_enabled(next_mode(m), mem) && mode_id(next_mode(m)) != 3),
        mode_id(next_mode(m)) == mode_id(m) ==> !mode_stat_request(m, mem),
        lyc_stat_request(m, mem) ==> dot_in_line(m) == 0 && line_of(m) == mem.lyc_ram,
        mode_ok(m) && dot_in_line(m) == 0 && line_of(m) == mem.lyc_ram && mem.lyc_interrupt_enable ==> lyc_stat_request(m, mem),
{
    match m {
        PPUModes::VBlank(l, c) => {
            assert(c <= 4559);
            if c < 4559 {
                assert((c + 1) / 456 <= 9);
            }
        },
        _ => {},
    }
}

impl Ppu {
    pub open spec fn wf(&self) -> bool {
        &&& mode_ok(self.ppu_mode)
        &&& self.current_line_obj_rows@.len() <= 10
        &&& self.oam_dma_count <= 643
        &&& self.vram_dma_count < 16
    }

    pub fn new() -> (r: Ppu)
        ensures
            r.wf(),
            r.ppu_mode == PPUModes::VBlank(153, 4559),
    {
        Ppu { ppu_mode: PPUModes::VBlank(153, 4559), current_line_obj_rows: Vec::new(), oam_dma_count: 0, vram_dma_count: 0 }
    }

    /// One dot of the mode state machine: the next state, the VBlank and STAT
    /// mode interrupts, and the STAT mode number.
    pub open spec fn mode_step(o: Ppu, n: Ppu, ob: MemoryBus, nb: MemoryBus) -> bool {
        &&& n.wf()
        &&& nb.wf()
        &&& n.ppu_mode == next_mode(o.ppu_mode)
        &&& n.current_line_obj_rows == o.current_line_obj_rows
        &&& n.oam_dma_count == o.oam_dma_count
        &&& n.vram_dma_count == o.vram_dma_count
        &&& nb.interrupt_flag() == raise(
            raise(ob.interrupt_flag(), vblank_request(o.ppu_mode), 1),
            mode_stat_request(o.ppu_mode, ob.ppu_memory),
            2,
        )
        &&& nb.ppu_memory.ppu_mode_id == (if mode_id(next_mode(o.ppu_mode)) != mode_id(o.ppu_mode) {
            mode_id(next_mode(o.ppu_mode))
        } else {
            ob.ppu_memory.ppu_mode_id
        })
    }

    fn step_oam_search(&mut self, memory_bus: &mut MemoryBus)
        requires
            old(self).wf(),
            old(memory_bus).wf(),
            old(self).ppu_mode is OAMSearch,
        ensures
            Ppu::mode_step(*old(self), *final(self), *old(memory_bus), *final(memory_bus)),
    {
        if let PPUModes::OAMSearch(line, count) = self.ppu_mode {
            if count >= 79 {
                memory_bus.ppu_memory.is_vram_locked = true;
                memory_bus.ppu_memory.ppu_mode_id = 3;
                self.ppu_mode = PPUModes::LineDraw(line, 0);
            } else {
                self.ppu_mode = PPUModes::OAMSearch(line, count + 1);
            }
        }
    }

    fn step_line_draw(&mut self, memory_bus: &mut MemoryBus)
        requires
            old(self).wf(),
            old(memory_bus).wf(),
            old(self).ppu_mode is LineDraw,
        ensures
            Ppu::mode_step(*old(self), *final(self), *old(memory_bus), *final(memory_bus)),
    {
        assert(1u8 << 1u8 == 2) by (bit_vector);
        if let PPUModes::LineDraw(line, count) = self.ppu_mode {
            if count >= 167 {
                memory_bus.ppu_memory.is_vram_locked = false;
                memory_bus.ppu_memory.is_oam_locked = false;
                memory_bus.ppu_memory.ppu_mode_id = 0;
                if memory_bus.ppu_memory.ppu_mode_0_interrupt_enable {
                    memory_bus.request_interrupt(1);
                }
                self.ppu_mode = PPUModes::HBlank(line, 168);
            } else {
                self.ppu_mode = PPUModes::LineDraw(line, count + 1);
            }
        }
    }

    fn step_hblank(&mut self, memory_bus: &mut MemoryBus)
        requires
            old(self).wf(),
            old(memory_bus).wf(),
            old(self).ppu_mode is HBlank,
        ensures
            Ppu::mode_step(*old(self), *final(self), *old(memory_bus), *final(memory_bus)),
    {
        assert(1u8 << 0u8 == 1 && 1u8 << 1u8 == 2) by (bit_vector);
        if let PPUModes::HBlank(line, count) = self.ppu_mode {
            if count >= 375 {
                if line >= 143 {
                    memory_bus.request_interrupt(0);
                    memory_bus.ppu_memory.ppu_mode_id = 1;
                    if memory_bus.ppu_memory.ppu_mode_1_interrupt_enable {
                        memory_bus.request_interrupt(1);
                    }
                    self.ppu_mode = PPUModes::VBlank(144, 0);
                } else {
                    memory_bus.ppu_memory.is_oam_locked = true;
                    memory_bus.ppu_memory.ppu_mode_id = 2;
                    if memory_bus.ppu_memory.ppu_mode_2_interrupt_enable {
                        memory_bus.request_interrupt(1);
                    }
                    self.ppu_mode = PPUModes::OAMSearch(line + 1, 0);
                }
            } else {
                self.ppu_mode = PPUModes::HBlank(line, count + 1);
            }
        }
    }

    fn step_vblank(&mut self, memory_bus: &mut MemoryBus)
        requires
            old(self).wf(),
            old(memory_bus).wf(),
            old(self).ppu_mode is VBlank,
        ensures
            Ppu::mode_step(*old(self), *final(self), *old(memory_bus), *final(memory_bus)),
    {
        assert(1u8 << 1u8 == 2) by (bit_vector);
        if let PPUModes::VBlank(_, count) = self.ppu_mode {
            if count >= 4559 {
                memory_bus.ppu_memory.is_oam_locked = true;
                memory_bus.ppu_memory.ppu_mode_id = 2;
                if memory_bus.ppu_memory.ppu_mode_2_interrupt_enable {
                    memory_bus.request_interrupt(1);
                }
                self.ppu_mode = PPUModes::OAMSearch(0, 0);
            } else {
                self.ppu_mode = PPUModes::VBlank((144 + (count + 1) / 456) as u8, count + 1);
            }
        }
    }

    fn tick_ppu_mode(&mut self, memory_bus: &mut MemoryBus)
        requires
            old(self).wf(),
            old(memory_bus).wf(),
        ensures
            Ppu::mode_step(*old(self), *final(self), *old(memory_bus), *final(memory_bus)),
    {
        proof {
            lemma_stat_sources_once(self.ppu_mode, memory_bus.ppu_memory);
        }
        match self.ppu_mode {
            PPUModes::OAMSearch(_, _) => self.step_oam_search(memory_bus),
            PPUModes::LineDraw(_, _) => self.step_line_draw(memory_bus),
            PPUModes::HBlank(_, _) => self.step_hblank(memory_bus),
            PPUModes::VBlank(_, _) => self.step_vblank(memory_bus),
        }
    }

    /// Publishes LY for `line`, compares it with LYC and raises the LY=LYC
    /// STAT source when they match and it is enabled.
    fn start_line(memory_bus: &mut MemoryBus, line: u8)
        requires
            old(memory_bus).wf(),
        ensures
            final(memory_bus).wf(),
            final(memory_bus).ppu_memory.ly_ram == line,
            final(memory_bus).ppu_memory.lyc_match_flag == (line == old(memory_bus).ppu_memory.lyc_ram),
            final(memory_bus).interrupt_flag() == raise(
                old(memory_bus).interrupt_flag(),
                line == old(memory_bus).ppu_memory.lyc_ram && old(memory_bus).ppu_memory.lyc_interrupt_enable,
                2,
            ),
            final(memory_bus).ppu_memory.ppu_mode_id == old(memory_bus).ppu_memory.ppu_mode_id,
            final(memory_bus).ppu_memory.lyc_ram == old(memory_bus).ppu_memory.lyc_ram,
            final(memory_bus).ppu_memory.ppu_mode_0_interrupt_enable == old(memory_bus).ppu_memory.ppu_mode_0_interrupt_enable,
            final(memory_bus).ppu_memory.ppu_mode_1_interrupt_enable == old(memory_bus).ppu_memory.ppu_mode_1_interrupt_enable,
            final(memory_bus).ppu_memory.ppu_mode_2_interrupt_enable == old(memory_bus).ppu_memory.ppu_mode_2_interrupt_enable,
    {
        assert(1u8 << 1u8 == 2) by (bit_vector);
        memory_bus.ppu_memory.ly_ram = line;
        let is_match = line == memory_bus.ppu_memory.lyc_ram;
        memory_bus.ppu_memory.lyc_match_flag = is_match;
        if is_match && memory_bus.ppu_memory.lyc_interrupt_enable {
            memory_bus.request_interrupt(1);
        }
    }

    /// One OAM-search dot: on even dots, OAM entry dot/2 is examined and, if it
    /// covers the line and fewer than 10 rows are held, its row is kept.
    #[verifier::rlimit(60)]
    fn oam_search_dot(&mut self, memory_bus: &MemoryBus, line: u8, count: usize)
        requires
            old(self).wf(),
            memory_bus.wf(),
            line <= 143,
            count <= 79,
        ensures
            final(self).wf(),
            final(self).ppu_mode == old(self).ppu_mode,
            final(self).oam_dma_count == old(self).oam_dma_count,
            final(self).vram_dma_count == old(self).vram_dma_count,
            ({
                let rows = old(self).current_line_obj_rows@;
                let n = final(self).current_line_obj_rows@;
                if count % 2 == 0 && rows.len() < 10 && covers(memory_bus.ppu_memory, (count / 2) as int, line) {
                    n.len() == rows.len() + 1 && n.subrange(0, rows.len() as int) == rows && obj_row_of(
                        *memory_bus,
                        (count / 2) as int,
                        line,
                        n[rows.len() as int],
                    )
                } else {
                    n == rows
                }
            }),
    {
        if count % 2 == 0 && self.current_line_obj_rows.len() < 10 {
            let obj = memory_bus.ppu_memory.object(count / 2);
            let y = obj.pos_y as usize;
            let l = line as usize;
            let tall = memory_bus.ppu_memory.double_heigth_obj();
            let height: usize = if tall { 16 } else { 8 };
            if l + 16 >= y && l + 16 < y + height {
                let from_top = l + 16 - y;
                let row_index = if obj.is_y_flipped { height - 1 - from_top } else { from_top };
                let bank1 = memory_bus.is_cgb && obj.is_from_bank1;
                let row = memory_bus.ppu_memory.get_obj_row(obj.tile_id, row_index as u8, bank1);
                let row = if obj.is_x_flipped { reverse_row(row) } else { row };
                let ghost before = self.current_line_obj_rows@;
                self.current_line_obj_rows.push(
                    ObjRow {
                        x: obj.pos_x as usize,
                        row,
                        is_using_obp1: obj.is_using_obp1,
                        is_under_bg_win: obj.is_under_bg_win,
                        cgb_palette: obj.palette_number,
                    },
                );
                assert(self.current_line_obj_rows@.subrange(0, before.len() as int) =~= before);
            }
        }
    }

    /// Orders the line's object rows by x, keeping OAM order among equal x
    /// (an insertion sort that only swaps rows out of order).
    #[verifier::rlimit(60)]
    fn sort_rows_by_x(&mut self)
        requires
            old(self).wf(),
        ensures
            final(self).wf(),
            final(self).ppu_mode == old(self).ppu_mode,
            final(self).oam_dma_count == old(self).oam_dma_count,
            final(self).vram_dma_count == old(self).vram_dma_count,
            final(self).current_line_obj_rows@.len() == old(self).current_line_obj_rows@.len(),
            final(self).current_line_obj_rows@.to_multiset() == old(self).current_line_obj_rows@.to_multiset(),
            forall|a: int, b: int|
                0 <= a < b < final(self).current_line_obj_rows@.len() ==> final(self).current_line_obj_rows@[a].x
                    <= final(self).current_line_obj_rows@[b].x,
    {
        let n = self.current_line_obj_rows.len();
        if n == 0 {
            return;
        }
        let mut i: usize = 1;
        while i < n
            invariant
                n == self.current_line_obj_rows@.len(),
                n <= 10,
                1 <= i <= n,
                self.ppu_mode == old(self).ppu_mode,
                self.oam_dma_count == old(self).oam_dma_count,
                self.vram_dma_count == old(self).vram_dma_count,
                mode_ok(self.ppu_mode),
                self.current_line_obj_rows@.to_multiset() == old(self).current_line_obj_rows@.to_multiset(),
                forall|a: int, b: int| 0 <= a < b < i ==> self.current_line_obj_rows@[a].x <= self.current_line_obj_rows@[b].x,
            decreases n - i,
        {
            let mut j: usize = i;
            while j > 0 && self.current_line_obj_rows[j - 1].x > self.current_line_obj_rows[j].x
                invariant
                    n == self.current_line_obj_rows@.len(),
                    n <= 10,
                    1 <= i < n,
                    j <= i,
                    self.ppu_mode == old(self).ppu_mode,
                    self.oam_dma_count == old(self).oam_dma_count,
                    self.vram_dma_count == old(self).vram_dma_count,
                    mode_ok(self.ppu_mode),
                    self.current_line_obj_rows@.to_multiset() == old(self).current_line_obj_rows@.to_multiset(),
                    forall|a: int, b: int| 0 <= a < b < j ==> self.current_line_obj_rows@[a].x <= self.current_line_obj_rows@[b].x,
                    forall|a: int, b: int| j < a < b <= i ==> self.current_line_obj_rows@[a].x <= self.current_line_obj_rows@[b].x,
                    forall|b: int| j < b <= i ==> self.current_line_obj_rows@[j as int].x <= self.current_line_obj_rows@[b].x,
                    forall|a: int, b: int| 0 <= a < j && j < b <= i ==> self.current_line_obj_rows@[a].x <= self.current_line_obj_rows@[b].x,
                decreases j,
            {
                let prev = self.current_line_obj_rows[j - 1];
                let cur = self.current_line_obj_rows[j];
                let ghost s0 = self.current_line_obj_rows@;
                self.current_line_obj_rows.set(j - 1, cur);
                let ghost s1 = self.current_line_obj_rows@;
                self.current_line_obj_rows.set(j, prev);
                proof {
                    broadcast use vstd::multiset::group_multiset_axioms, vstd::seq_lib::group_to_multiset_ensures;
                    assert(s0[j - 1] == prev);
                    assert(s0.contains(prev));
                    assert(s0.to_multiset().count(prev) > 0);
                    vstd::seq_lib::to_multiset_update(s0, j - 1, cur);
                    vstd::seq_lib::to_multiset_update(s1, j as int, prev);
                    assert(s1[j as int] == cur);
                    assert(self.current_line_obj_rows@.to_multiset() =~= s0.to_multiset());
                }
                j = j - 1;
            }
            i = i + 1;
        }
    }

    /// The background or window pixel at (x, line): its colour number and, on
    /// CGB, the map attributes of its tile.
    #[verifier::rlimit(80)]
    fn bg_win_pixel(memory_bus: &MemoryBus, line: u8, x: usize) -> (r: (u8, CGBTileAttr))
        requires
            memory_bus.wf(),
            line < 144,
            x < 160,
        ensures
            r.0 < 4,
            r.1.bg_palette_index < 8,
            r.0 == bg_code(*memory_bus, line, x as int),
            r.1 == bg_attr(*memory_bus, line, x as int),
    {
        let mem = &memory_bus.ppu_memory;
        let cgb = memory_bus.is_cgb;
        let wx = mem.wx_ram as usize;
        let wy = mem.wy_ram;
        let in_window = mem.win_enable() && line >= wy && x + 7 >= wx;
        let (map_x, map_y): (usize, usize) = if in_window {
            (x + 7 - wx, (line - wy) as usize)
        } else {
            ((mem.scx_ram as usize + x) % 256, (mem.scy_ram as usize + line as usize) % 256)
        };
        let tx = (map_x / 8) as u8;
        let ty = (map_y / 8) as u8;
        let tile_index = if in_window { mem.get_win_tile_index(tx, ty) } else { mem.get_bg_tile_index(tx, ty) };
        let attrs = if !cgb {
            CGBTileAttr { bg_oam_priority: false, vertical_flip: false, horizontal_flip: false, is_from_bank1: false, bg_palette_index: 0 }
        } else if in_window {
            mem.get_win_tile_cgb_attr(tx, ty)
        } else {
            mem.get_bg_tile_cgb_attr(tx, ty)
        };
        let row_index = if attrs.vertical_flip { 7 - map_y % 8 } else { map_y % 8 };
        let row = mem.get_bg_win_tile_row(tile_index, attrs.is_from_bank1, row_index);
        let row = if attrs.horizontal_flip { reverse_row(row) } else { row };
        (pixel_code(row[map_x % 8]), attrs)
    }

    /// Composes the pixel at (x, line) into the framebuffer: background or
    /// window through its palette (white on DMG with LCDC bit 0 clear), then the
    /// first held object row with a non-zero pixel there, unless a non-zero
    /// background pixel has priority over it.
    #[verifier::rlimit(60)]
    fn draw_pixel(&self, memory_bus: &MemoryBus, framebuffer: &mut Vec<u8>, line: u8, x: usize)
        requires
            self.wf(),
            memory_bus.wf(),
            old(framebuffer)@.len() == FRAMEBUFFER_LEN,
            line < 144,
            x < 160,
        ensures
            final(framebuffer)@.len() == FRAMEBUFFER_LEN,
            final(framebuffer)@.subrange(4 * (line * 160 + x), 4 * (line * 160 + x) + 4) == rgba_of(
                composed(*memory_bus, self.current_line_obj_rows@, line, x as int),
            ),
            forall|i: int|
                #![trigger final(framebuffer)@[i]]
                0 <= i < FRAMEBUFFER_LEN && !(4 * (line * 160 + x) <= i < 4 * (line * 160 + x) + 4) ==> final(framebuffer)@[i] == old(framebuffer)@[i],
    {
        let mem = &memory_bus.ppu_memory;
        let cgb = memory_bus.is_cgb;
        let pos = line as usize * VIEWPORT_PX_WIDTH + x;
        let mut bg_is_zero = true;
        let mut bg_priority = false;
        if mem.bg_win_enable() || cgb {
            let (code, attrs) = Ppu::bg_win_pixel(memory_bus, line, x);
            bg_is_zero = code == 0;
            bg_priority = cgb && attrs.bg_oam_priority;
            let colour = if cgb { mem.cgb_bg_colour(attrs.bg_palette_index, code) } else { mem.bg_palette_colour(code) };
            put_pixel(framebuffer, pos, &colour);
        } else {
            put_pixel(framebuffer, pos, &PixelColour::White);
        }
        if mem.obj_enable() {
            let n = self.current_line_obj_rows.len();
            let mut k: usize = 0;
            let mut found = false;
            let mut code: u8 = 0;
            let mut chosen = ObjRow {
                x: 0,
                row: [TilePixel::Zero; 8],
                is_using_obp1: false,
                is_under_bg_win: false,
                cgb_palette: 0,
            };
            while k < n && !found
                invariant
                    n == self.current_line_obj_rows@.len(),
                    k <= n,
                    code < 4,
                    x < 160,
                    !found ==> first_obj(self.current_line_obj_rows@, x as int, 0) == first_obj(
                        self.current_line_obj_rows@,
                        x as int,
                        k as int,
                    ),
                    found ==> k >= 1 && first_obj(self.current_line_obj_rows@, x as int, 0) == k - 1 && chosen
                        == self.current_line_obj_rows@[k - 1] && code as int == obj_code(chosen, x as int) && code != 0,
                decreases n - k,
            {
                let r = self.current_line_obj_rows[k];
                if x < r.x && x + 8 >= r.x {
                    let c = pixel_code(r.row[8 - (r.x - x)]);
                    if c != 0 {
                        found = true;
                        code = c;
                        chosen = r;
                    }
                }
                k = k + 1;
            }
            if found && code != 0 && (!mem.bg_win_enable() || (!chosen.is_under_bg_win && !bg_priority) || bg_is_zero) {
                let colour = if cgb {
                    mem.cgb_obj_colour(chosen.cgb_palette % 8, code)
                } else {
                    mem.obj_palette_colour(chosen.is_using_obp1, code)
                };
                put_pixel(framebuffer, pos, &colour);
            }
        }
    }

    /// The work of the current dot: LY and LY=LYC at line starts, the object
    /// search, sorting and pixel composition.
    #[verifier::rlimit(60)]
    fn tick_viewport(&mut self, memory_bus: &mut MemoryBus, framebuffer: &mut Vec<u8>)
        requires
            old(self).wf(),
            old(memory_bus).wf(),
            old(framebuffer)@.len() == FRAMEBUFFER_LEN,
        ensures
            final(self).wf(),
            final(memory_bus).wf(),
            final(framebuffer)@.len() == FRAMEBUFFER_LEN,
            final(self).ppu_mode == old(self).ppu_mode,
            final(self).oam_dma_count == old(self).oam_dma_count,
            final(self).vram_dma_count == old(self).vram_dma_count,
            final(memory_bus).interrupt_flag() == raise(
                old(memory_bus).interrupt_flag(),
                lyc_stat_request(old(self).ppu_mode, old(memory_bus).ppu_memory),
                2,
            ),
            final(memory_bus).ppu_memory.ppu_mode_id == old(memory_bus).ppu_memory.ppu_mode_id,
            final(memory_bus).ppu_memory.lyc_ram == old(memory_bus).ppu_memory.lyc_ram,
            final(memory_bus).ppu_memory.ppu_mode_0_interrupt_enable == old(memory_bus).ppu_memory.ppu_mode_0_interrupt_enable,
            final(memory_bus).ppu_memory.ppu_mode_1_interrupt_enable == old(memory_bus).ppu_memory.ppu_mode_1_interrupt_enable,
            final(memory_bus).ppu_memory.ppu_mode_2_interrupt_enable == old(memory_bus).ppu_memory.ppu_mode_2_interrupt_enable,
            line_start(old(self).ppu_mode) || (old(self).ppu_mode is VBlank) ==> final(memory_bus).ppu_memory.ly_ram
                == line_of(old(self).ppu_mode),
            match old(self).ppu_mode {
                PPUModes::LineDraw(line, c) => {
                    &&& *final(memory_bus) == *old(memory_bus)
                    &&& (c == 0 && !old(memory_bus).is_cgb) ==> final(self).current_line_obj_rows@.len()
                        == old(self).current_line_obj_rows@.len() && final(self).current_line_obj_rows@.to_multiset()
                        == old(self).current_line_obj_rows@.to_multiset() && forall|a: int, b: int|
                        0 <= a < b < final(self).current_line_obj_rows@.len() ==> final(self).current_line_obj_rows@[a].x
                            <= final(self).current_line_obj_rows@[b].x
                    &&& !(c == 0 && !old(memory_bus).is_cgb) ==> final(self).current_line_obj_rows
                        == old(self).current_line_obj_rows
                    &&& c < 160 ==> final(framebuffer)@.subrange(4 * (line * 160 + c), 4 * (line * 160 + c) + 4)
                        == rgba_of(composed(*old(memory_bus), final(self).current_line_obj_rows@, line, c as int))
                    &&& forall|i: int|
                        #![trigger final(framebuffer)@[i]]
                        0 <= i < FRAMEBUFFER_LEN && !(c < 160 && 4 * (line * 160 + c) <= i < 4 * (line * 160 + c) + 4)
                            ==> final(framebuffer)@[i] == old(framebuffer)@[i]
                },
                PPUModes::OAMSearch(line, c) => {
                    let rows = if c == 0 { Seq::empty() } else { old(self).current_line_obj_rows@ };
                    let n = final(self).current_line_obj_rows@;
                    &&& final(framebuffer)@ == old(framebuffer)@
                    &&& if c % 2 == 0 && rows.len() < 10 && covers(old(memory_bus).ppu_memory, (c / 2) as int, line) {
                        n.len() == rows.len() + 1 && n.subrange(0, rows.len() as int) == rows && obj_row_of(
                            *old(memory_bus),
                            (c / 2) as int,
                            line,
                            n[rows.len() as int],
                        )
                    } else {
                        n == rows
                    }
                },
                _ => final(framebuffer)@ == old(framebuffer)@ && final(self).current_line_obj_rows
                    == old(self).current_line_obj_rows,
            },
    {
        match self.ppu_mode {
            PPUModes::OAMSearch(line, count) => {
                if count == 0 {
                    self.current_line_obj_rows.clear();
                }
                self.oam_search_dot(memory_bus, line, count);
                if count == 0 {
                    Ppu::start_line(memory_bus, line);
                }
            },
            PPUModes::LineDraw(line, count) => {
                if count == 0 && !memory_bus.is_cgb {
                    self.sort_rows_by_x();
                }
                if count < VIEWPORT_PX_WIDTH {
                    self.draw_pixel(memory_bus, framebuffer, line, count);
                }
            },
            PPUModes::HBlank(_, _) => {},
            PPUModes::VBlank(line, count) => {
                if count % 456 == 0 {
                    Ppu::start_line(memory_bus, line);
                } else {
                    memory_bus.ppu_memory.ly_ram = line;
                }
            },
        }
    }

    /// One step of the OAM DMA. The engine counts dots from 0 to 643: at dot
    /// 4(i+1)+3 it copies byte i (i < 160) of page `FF46 << 8` into OAM (the
    /// first 7 dots are its setup), and after dot 643 it stops.
    #[verifier::rlimit(100)]
    fn tick_oam_dma(&mut self, memory_bus: &mut MemoryBus)
        requires
            old(self).wf(),
            old(memory_bus).wf(),
        ensures
            final(self).wf(),
            final(memory_bus).wf(),
            *final(self) == (Ppu { oam_dma_count: final(self).oam_dma_count, ..*old(self) }),
            dma_frame(*old(memory_bus), *final(memory_bus)),
            final(memory_bus).ppu_memory.oam_dma_reg == old(memory_bus).ppu_memory.oam_dma_reg,
            final(memory_bus).ppu_memory.vram_dma_is_active == old(memory_bus).ppu_memory.vram_dma_is_active,
            final(memory_bus).ppu_memory.vram_dma_is_hblank_mode == old(memory_bus).ppu_memory.vram_dma_is_hblank_mode,
            ({
                let c = old(self).oam_dma_count;
                let i = c / 4 - 1;
                &&& final(memory_bus).ppu_memory.oam@ == (if c % 4 == 3 && c != 3 {
                    old(memory_bus).ppu_memory.oam@.update(
                        i as int,
                        old(memory_bus).read_spec((old(memory_bus).ppu_memory.oam_dma_reg as int * 256 + i) as u16),
                    )
                } else {
                    old(memory_bus).ppu_memory.oam@
                })
                &&& final(self).oam_dma_count == (if c >= 643 { 0 } else { c + 1 })
                &&& final(memory_bus).ppu_memory.oam_dma_is_active == (c < 643 && old(memory_bus).ppu_memory.oam_dma_is_active)
            }),
    {
        let count = self.oam_dma_count;
        if count % 4 == 3 && count != 3 {
            let index = count / 4 - 1;
            let source = memory_bus.ppu_memory.oam_dma_reg as u16 * 256 + index as u16;
            let byte = memory_bus.read_byte(source);
            memory_bus.ppu_memory.oam.set(index, byte);
        }
        if count >= 643 {
            memory_bus.ppu_memory.oam_dma_is_active = false;
            self.oam_dma_count = 0;
        } else {
            self.oam_dma_count = count + 1;
        }
    }

    /// One byte of an HDMA/GDMA transfer: byte `count` of the current 16-byte
    /// block is copied from the source (FF51/52) to VRAM at the destination
    /// (FF53/54) in the bank that VBK selects. After each block the length
    /// (FF55's low bits) counts down and the addresses move on 16 bytes; when
    /// the length wraps past 0 it reads 0x7F and the transfer ends, so FF55
    /// reads 0xFF.
    #[verifier::rlimit(100)]
    fn tick_vram_dma(&mut self, memory_bus: &mut MemoryBus)
        requires
            old(self).wf(),
            old(memory_bus).wf(),
        ensures
            final(self).wf(),
            final(memory_bus).wf(),
            *final(self) == (Ppu { vram_dma_count: final(self).vram_dma_count, ..*old(self) }),
            dma_frame(*old(memory_bus), *final(memory_bus)),
            final(memory_bus).ppu_memory.oam_dma_is_active == old(memory_bus).ppu_memory.oam_dma_is_active,
            final(memory_bus).ppu_memory.vram_dma_is_hblank_mode == old(memory_bus).ppu_memory.vram_dma_is_hblank_mode,
            ({
                let o = old(memory_bus).ppu_memory;
                let n = final(memory_bus).ppu_memory;
                let c = old(self).vram_dma_count;
                let src = (o.vram_dma_src_regs as int / 16 * 16 + c) as u16;
                let dst = (o.vram_dma_dst_regs as int % 0x2000) / 16 * 16 + c;
                let byte = old(memory_bus).read_spec(src);
                let bank1 = old(memory_bus).is_cgb && old(memory_bus).vbk_reg;
                &&& n.video_ram2@ == (if bank1 { o.video_ram2@.update(dst, byte) } else { o.video_ram2@ })
                &&& n.video_ram@ == (if bank1 { o.video_ram@ } else { o.video_ram@.update(dst, byte) })
                &&& final(self).vram_dma_count == (if c >= 15 { 0 } else { c + 1 })
                &&& c < 15 ==> n.vram_dma_stat == o.vram_dma_stat && n.vram_dma_is_active == o.vram_dma_is_active
                &&& c >= 15 ==> n.vram_dma_stat == (if o.vram_dma_stat == 0 { 0xFF } else { o.vram_dma_stat - 1 })
                    && n.vram_dma_is_active == (o.vram_dma_is_active && o.vram_dma_stat != 0)
            }),
    {
        let count = self.vram_dma_count;
        Ppu::copy_vram_dma_byte(memory_bus, count);
        if count >= 0x0F {
            self.vram_dma_count = 0;
            Ppu::end_vram_dma_block(memory_bus);
        } else {
            self.vram_dma_count = count + 1;
        }
    }

    fn copy_vram_dma_byte(memory_bus: &mut MemoryBus, count: u16)
        requires
            old(memory_bus).wf(),
            count < 16,
        ensures
            final(memory_bus).wf(),
            dma_frame(*old(memory_bus), *final(memory_bus)),
            final(memory_bus).ppu_memory.oam_dma_is_active == old(memory_bus).ppu_memory.oam_dma_is_active,
            final(memory_bus).ppu_memory.vram_dma_is_hblank_mode == old(memory_bus).ppu_memory.vram_dma_is_hblank_mode,
            final(memory_bus).ppu_memory.vram_dma_stat == old(memory_bus).ppu_memory.vram_dma_stat,
            final(memory_bus).ppu_memory.vram_dma_is_active == old(memory_bus).ppu_memory.vram_dma_is_active,
            ({
                let o = old(memory_bus).ppu_memory;
                let n = final(memory_bus).ppu_memory;
                let src = (o.vram_dma_src_regs as int / 16 * 16 + count) as u16;
                let dst = (o.vram_dma_dst_regs as int % 0x2000) / 16 * 16 + count;
                let byte = old(memory_bus).read_spec(src);
                let bank1 = old(memory_bus).is_cgb && old(memory_bus).vbk_reg;
                &&& n.video_ram2@ == (if bank1 { o.video_ram2@.update(dst, byte) } else { o.video_ram2@ })
                &&& n.video_ram@ == (if bank1 { o.video_ram@ } else { o.video_ram@.update(dst, byte) })
            }),
    {
        let src = memory_bus.ppu_memory.vram_dma_src_regs / 16 * 16 + count;
        let dst = (memory_bus.ppu_memory.vram_dma_dst_regs % 0x2000) / 16 * 16 + count;
        let byte = memory_bus.read_byte(src);
        if memory_bus.is_cgb && memory_bus.vbk_reg {
            memory_bus.ppu_memory.video_ram2.set(dst as usize, byte);
        } else {
            memory_bus.ppu_memory.video_ram.set(dst as usize, byte);
        }
    }

    fn end_vram_dma_block(memory_bus: &mut MemoryBus)
        requires
            old(memory_bus).wf(),
        ensures
            final(memory_bus).wf(),
            dma_frame(*old(memory_bus), *final(memory_bus)),
            final(memory_bus).ppu_memory.oam_dma_is_active == old(memory_bus).ppu_memory.oam_dma_is_active,
            final(memory_bus).ppu_memory.vram_dma_is_hblank_mode == old(memory_bus).ppu_memory.vram_dma_is_hblank_mode,
            final(memory_bus).ppu_memory.video_ram == old(memory_bus).ppu_memory.video_ram,
            final(memory_bus).ppu_memory.video_ram2 == old(memory_bus).ppu_memory.video_ram2,
            final(memory_bus).ppu_memory.vram_dma_stat == (if old(memory_bus).ppu_memory.vram_dma_stat == 0 {
                0xFF
            } else {
                (old(memory_bus).ppu_memory.vram_dma_stat - 1) as u8
            }),
            final(memory_bus).ppu_memory.vram_dma_is_active == (old(memory_bus).ppu_memory.vram_dma_is_active
                && old(memory_bus).ppu_memory.vram_dma_stat != 0),
    {
        let stat = memory_bus.ppu_memory.vram_dma_stat;
        memory_bus.ppu_memory.vram_dma_stat = if stat == 0 { 0xFF } else { stat - 1 };
        let d = memory_bus.ppu_memory.vram_dma_dst_regs % 0x2000 / 16 * 16;
        memory_bus.ppu_memory.vram_dma_dst_regs = (d + 16) % 0x2000;
        let sreg = memory_bus.ppu_memory.vram_dma_src_regs;
        memory_bus.ppu_memory.vram_dma_src_regs = if sreg >= 0xFFF0 { sreg - 0xFFF0 } else { sreg + 16 };
        if stat == 0 {
            memory_bus.ppu_memory.vram_dma_is_active = false;
        }
    }


    /// The effect of one `Ppu::tick` returning `r`, with framebuffer `of` before and `nf` after.
    pub open spec fn tick_post(o: Ppu, n: Ppu, ob: MemoryBus, nb: MemoryBus, of: Seq<u8>, nf: Seq<u8>, r: (bool, bool)) -> bool {
        &&& (n.wf())
        &&& (nb.wf())
        &&& (nf.len() == FRAMEBUFFER_LEN)
        &&& (r.0 == (ob.ppu_memory.lcd_on() && o.ppu_mode == PPUModes::VBlank(153, 4559)))
        &&& (r.1 == (ob.is_cgb && ob.ppu_memory.vram_dma_is_active && (
        !ob.ppu_memory.vram_dma_is_hblank_mode || match o.ppu_mode {
            PPUModes::HBlank(_, c) => c >= 360,
            _ => false,
        })))
        &&& (!ob.ppu_memory.lcd_on() ==> n.ppu_mode == PPUModes::OAMSearch(0, 0)
            && nb.interrupt_flag() == ob.interrupt_flag())
        &&& (ob.ppu_memory.lcd_on() ==> n.ppu_mode == next_mode(o.ppu_mode))
        &&& (ob.ppu_memory.lcd_on() ==> nb.ppu_memory.ppu_mode_id == (if mode_id(
            next_mode(o.ppu_mode),
        ) != mode_id(o.ppu_mode) {
            mode_id(next_mode(o.ppu_mode))
        } else {
            ob.ppu_memory.ppu_mode_id
        }))
        &&& (ob.ppu_memory.lcd_on() && !ob.ppu_memory.oam_dma_is_active && !(ob.is_cgb
            && ob.ppu_memory.vram_dma_is_active) ==> match o.ppu_mode {
            PPUModes::LineDraw(line, c) => c < 160 ==> nf.subrange(
                4 * (line * 160 + c),
                4 * (line * 160 + c) + 4,
            ) == rgba_of(composed(ob, n.current_line_obj_rows@, line, c as int)),
            _ => nf == of,
        })
        &&& (ob.ppu_memory.lcd_on() ==> nb.interrupt_flag() == raise(
            raise(
                raise(
                    ob.interrupt_flag(),
                    lyc_stat_request(o.ppu_mode, ob.ppu_memory),
                    2,
                ),
                vblank_request(o.ppu_mode),
                1,
            ),
            mode_stat_request(o.ppu_mode, ob.ppu_memory),
            2,
        ))
    }

    /// One dot: runs the DMA engines, then (with the LCD on) the current dot's
    /// work and the mode step. Returns whether this dot completed a frame (the
    /// last dot of line 153) and whether a general-purpose DMA holds the CPU.
    #[verifier::rlimit(100)]
    pub fn tick(&mut self, memory_bus: &mut MemoryBus, framebuffer: &mut Vec<u8>) -> (r: (bool, bool))
        requires
            old(self).wf(),
            old(memory_bus).wf(),
            old(framebuffer)@.len() == FRAMEBUFFER_LEN,
        ensures
            final(self).wf(),
            final(memory_bus).wf(),
            final(framebuffer)@.len() == FRAMEBUFFER_LEN,
            r.0 == (old(memory_bus).ppu_memory.lcd_on() && old(self).ppu_mode == PPUModes::VBlank(153, 4559)),
            r.1 == (old(memory_bus).is_cgb && old(memory_bus).ppu_memory.vram_dma_is_active && (
            !old(memory_bus).ppu_memory.vram_dma_is_hblank_mode || match old(self).ppu_mode {
                PPUModes::HBlank(_, c) => c >= 360,
                _ => false,
            })),
            !old(memory_bus).ppu_memory.lcd_on() ==> final(self).ppu_mode == PPUModes::OAMSearch(0, 0)
                && final(memory_bus).interrupt_flag() == old(memory_bus).interrupt_flag(),
            old(memory_bus).ppu_memory.lcd_on() ==> final(self).ppu_mode == next_mode(old(self).ppu_mode),
            old(memory_bus).ppu_memory.lcd_on() ==> final(memory_bus).ppu_memory.ppu_mode_id == (if mode_id(
                next_mode(old(self).ppu_mode),
            ) != mode_id(old(self).ppu_mode) {
                mode_id(next_mode(old(self).ppu_mode))
            } else {
                old(memory_bus).ppu_memory.ppu_mode_id
            }),
            old(memory_bus).ppu_memory.lcd_on() && !old(memory_bus).ppu_memory.oam_dma_is_active && !(old(memory_bus).is_cgb
                && old(memory_bus).ppu_memory.vram_dma_is_active) ==> match old(self).ppu_mode {
                PPUModes::LineDraw(line, c) => c < 160 ==> final(framebuffer)@.subrange(
                    4 * (line * 160 + c),
                    4 * (line * 160 + c) + 4,
                ) == rgba_of(composed(*old(memory_bus), final(self).current_line_obj_rows@, line, c as int)),
                _ => final(framebuffer)@ == old(framebuffer)@,
            },
            old(memory_bus).ppu_memory.lcd_on() ==> final(memory_bus).interrupt_flag() == raise(
                raise(
                    raise(
                        old(memory_bus).interrupt_flag(),
                        lyc_stat_request(old(self).ppu_mode, old(memory_bus).ppu_memory),
                        2,
                    ),
                    vblank_request(old(self).ppu_mode),
                    1,
                ),
                mode_stat_request(old(self).ppu_mode, old(memory_bus).ppu_memory),
                2,
            ),
    {
        let lcd_on = memory_bus.ppu_memory.lcd_enable();
        let mut halts_cpu = false;
        if memory_bus.ppu_memory.oam_dma_is_active {
            self.tick_oam_dma(memory_bus);
            if memory_bus.is_double_speed {
                self.tick_oam_dma(memory_bus);
            }
        }
        if memory_bus.is_cgb && memory_bus.ppu_memory.vram_dma_is_active {
            if !memory_bus.ppu_memory.vram_dma_is_hblank_mode {
                self.tick_vram_dma(memory_bus);
                halts_cpu = true;
            } else if let PPUModes::HBlank(_, count) = self.ppu_mode {
                if count >= 360 {
                    self.tick_vram_dma(memory_bus);
                    halts_cpu = true;
                }
            }
        } else {
            self.vram_dma_count = 0;
        }
        let mut frame_completed = false;
        if lcd_on {
            self.tick_viewport(memory_bus, framebuffer);
            frame_completed = self.ppu_mode == PPUModes::VBlank(153, 4559);
            self.tick_ppu_mode(memory_bus);
        } else {
            self.ppu_mode = PPUModes::OAMSearch(0, 0);
        }
        (frame_completed, halts_cpu)
    }

    /// Fills a 256 x 192 RGBA viewer with the three tile blocks of VRAM, bank 0
    /// on the left and bank 1 on the right, 16 tiles a row; each tile's top row
    /// and left column are drawn as a border (blue for bank 0, green for bank 1).
    pub fn update_tileset_win(&mut self, memory_bus: &mut MemoryBus, tileset_framebuffer: &mut Vec<u8>)
        requires
            old(memory_bus).wf(),
            old(tileset_framebuffer)@.len() == TILESET_VIEWER_PX_WIDTH * TILESET_VIEWER_PX_HEIGHT * 4,
        ensures
            final(tileset_framebuffer)@.len() == old(tileset_framebuffer)@.len(),
            *final(memory_bus) == *old(memory_bus),
            forall|j: int|
                0 <= j < TILESET_VIEWER_PX_WIDTH * TILESET_VIEWER_PX_HEIGHT * 4 ==> #[trigger] final(tileset_framebuffer)@[j]
                    == rgba_of(tileset_colour(old(memory_bus).ppu_memory, j / 4))[j % 4],
    {
        let total: usize = TILESET_VIEWER_PX_WIDTH * TILESET_VIEWER_PX_HEIGHT;
        let mut p: usize = 0;
        while p < total
            invariant
                memory_bus.wf(),
                *memory_bus == *old(memory_bus),
                total == TILESET_VIEWER_PX_WIDTH * TILESET_VIEWER_PX_HEIGHT,
                tileset_framebuffer@.len() == total * 4,
                p <= total,
                forall|j: int|
                    0 <= j < 4 * p ==> #[trigger] tileset_framebuffer@[j] == rgba_of(
                        tileset_colour(memory_bus.ppu_memory, j / 4),
                    )[j % 4],
            decreases total - p,
        {
            let colour = tileset_colour_exec(&memory_bus.ppu_memory, p);
            let ghost before = tileset_framebuffer@;
            put_pixel(tileset_framebuffer, p, &colour);
            proof {
                assert forall|j: int| 0 <= j < 4 * (p + 1) implies #[trigger] tileset_framebuffer@[j] == rgba_of(
                    tileset_colour(memory_bus.ppu_memory, j / 4),
                )[j % 4] by {
                    if j >= 4 * p {
                        assert(tileset_framebuffer@[j] == tileset_framebuffer@.subrange(4 * p as int, 4 * p + 4)[j - 4 * p]);
                    } else {
                        assert(tileset_framebuffer@[j] == before[j]);
                    }
                }
            }
            p = p + 1;
        }
    }

    /// Fills a 256 x 256 RGBA viewer with the background map through its
    /// palettes (and CGB attributes), and outlines the visible 160 x 144 window
    /// at SCX, SCY in red.
    pub fn update_tilemap_win(&mut self, memory_bus: &mut MemoryBus, tilemap_framebuffer: &mut Vec<u8>)
        requires
            old(memory_bus).wf(),
            old(tilemap_framebuffer)@.len() == TILEMAP_PX_WIDTH * TILEMAP_PX_HEIGHT * 4,
        ensures
            final(tilemap_framebuffer)@.len() == old(tilemap_framebuffer)@.len(),
            *final(memory_bus) == *old(memory_bus),
            forall|j: int|
                0 <= j < TILEMAP_PX_WIDTH * TILEMAP_PX_HEIGHT * 4 ==> #[trigger] final(tilemap_framebuffer)@[j] == rgba_of(
                    tilemap_colour(*old(memory_bus), j / 4),
                )[j % 4],
    {
        let total: usize = TILEMAP_PX_WIDTH * TILEMAP_PX_HEIGHT;
        let mut p: usize = 0;
        while p < total
            invariant
                memory_bus.wf(),
                *memory_bus == *old(memory_bus),
                total == TILEMAP_PX_WIDTH * TILEMAP_PX_HEIGHT,
                tilemap_framebuffer@.len() == total * 4,
                p <= total,
                forall|j: int|
                    0 <= j < 4 * p ==> #[trigger] tilemap_framebuffer@[j] == rgba_of(tilemap_colour(*memory_bus, j / 4))[j
                        % 4],
            decreases total - p,
        {
            let colour = tilemap_colour_exec(memory_bus, p);
            let ghost before = tilemap_framebuffer@;
            put_pixel(tilemap_framebuffer, p, &colour);
            proof {
                assert forall|j: int| 0 <= j < 4 * (p + 1) implies #[trigger] tilemap_framebuffer@[j] == rgba_of(
                    tilemap_colour(*memory_bus, j / 4),
                )[j % 4] by {
                    if j >= 4 * p {
                        assert(tilemap_framebuffer@[j] == tilemap_framebuffer@.subrange(4 * p as int, 4 * p + 4)[j - 4 * p]);
                    } else {
                        assert(tilemap_framebuffer@[j] == before[j]);
                    }
                }
            }
            p = p + 1;
        }
    }
}

/// Colour of pixel p of the tileset viewer (256 wide): blocks of 128 tiles
/// stacked, 16 tiles a row, bank 1 in the right half; border on each tile's
/// top row and left column.
pub open spec fn tileset_colour(mem: PPUMemory, p: int) -> PixelColour {
    let row = p / 256;
    let col = p % 256;
    let bank1 = col >= 128;
    let tcol = col % 128;
    let block = row / 64;
    let tile = ((row % 64) / 8) * 16 + tcol / 8;
    let ri = row % 8;
    let px = tcol % 8;
    if ri == 0 || px == 0 {
        if bank1 { PixelColour::RGBColour(0x00, 0xFF, 0x00) } else { PixelColour::RGBColour(0x00, 0x00, 0xFF) }
    } else {
        let addr = block * 0x800 + tile * 16 + ri * 2;
        let v = pixel_value(mem.row_spec(bank1, addr, px));
        if v == 0 {
            PixelColour::RGBColour(0xFF, 0xFF, 0xFF)
        } else if v == 1 {
            PixelColour::RGBColour(0xA9, 0xA9, 0xA9)
        } else if v == 2 {
            PixelColour::RGBColour(0x54, 0x54, 0x54)
        } else {
            PixelColour::RGBColour(0x00, 0x00, 0x00)
        }
    }
}

fn tileset_colour_exec(mem: &PPUMemory, p: usize) -> (r: PixelColour)
    requires
        mem.wf(),
        p < 256 * 192,
    ensures
        r == tileset_colour(*mem, p as int),
{
    let row = p / 256;
    let col = p % 256;
    let bank1 = col >= 128;
    let tcol = col % 128;
    let block = row / 64;
    let tile = ((row % 64) / 8) * 16 + tcol / 8;
    let ri = row % 8;
    let px = tcol % 8;
    if ri == 0 || px == 0 {
        if bank1 { PixelColour::RGBColour(0x00, 0xFF, 0x00) } else { PixelColour::RGBColour(0x00, 0x00, 0xFF) }
    } else {
        let addr = block * 0x800 + tile * 16 + ri * 2;
        let (lo, hi) = if bank1 { (mem.video_ram2[addr], mem.video_ram2[addr + 1]) } else { (mem.video_ram[addr], mem.video_ram[addr + 1]) };
        let row_px = crate::ppu_memory::decode_row(lo, hi);
        let v = pixel_code(row_px[px]);
        if v == 0 {
            PixelColour::RGBColour(0xFF, 0xFF, 0xFF)
        } else if v == 1 {
            PixelColour::RGBColour(0xA9, 0xA9, 0xA9)
        } else if v == 2 {
            PixelColour::RGBColour(0x54, 0x54, 0x54)
        } else {
            PixelColour::RGBColour(0x00, 0x00, 0x00)
        }
    }
}

/// Whether pixel (row, col) of the tilemap viewer lies on the outline of the
/// 160 x 144 screen window at (SCX, SCY), wrapping at 256.
pub open spec fn on_outline(mem: PPUMemory, row: int, col: int) -> bool {
    let dr = (row - mem.scy_ram + 256) % 256;
    let dc = (col - mem.scx_ram + 256) % 256;
    ((dr == 0 || dr == 143) && dc < 160) || ((dc == 0 || dc == 159) && dr < 144)
}

/// Colour of pixel p of the tilemap viewer (256 x 256): the background map's
/// tile pixel through BGP (or its CGB palette and attributes), red on the
/// outline of the visible window.
pub open spec fn tilemap_colour(bus: MemoryBus, p: int) -> PixelColour {
    let mem = bus.ppu_memory;
    let row = p / 256;
    let col = p % 256;
    if on_outline(mem, row, col) {
        PixelColour::RGBColour(0xFF, 0x00, 0x00)
    } else {
        let off = PPUMemory::map_entry_offset(bit(mem.lcdc_ram, 8), (col / 8) as u8, (row / 8) as u8);
        let attr = if bus.is_cgb { attr_of(mem.video_ram2@[off]) } else { no_attr() };
        let ri = if attr.vertical_flip { 7 - row % 8 } else { row % 8 };
        let px = if attr.horizontal_flip { 7 - col % 8 } else { col % 8 };
        let code = pixel_value(mem.row_spec(attr.is_from_bank1, mem.bg_tile_addr(mem.video_ram@[off]) + 2 * ri, px));
        if bus.is_cgb {
            let at = attr.bg_palette_index as int * 8 + code * 2;
            cgb_colour(mem.cgb_bg_palette_ram@[at], mem.cgb_bg_palette_ram@[at + 1])
        } else {
            palette_entry(mem.bgp_ram, code)
        }
    }
}

fn tilemap_colour_exec(bus: &MemoryBus, p: usize) -> (r: PixelColour)
    requires
        bus.wf(),
        p < 256 * 256,
    ensures
        r == tilemap_colour(*bus, p as int),
{
    let mem = &bus.ppu_memory;
    let row = p / 256;
    let col = p % 256;
    let dr = (row + 256 - mem.scy_ram as usize) % 256;
    let dc = (col + 256 - mem.scx_ram as usize) % 256;
    if ((dr == 0 || dr == 143) && dc < 160) || ((dc == 0 || dc == 159) && dr < 144) {
        PixelColour::RGBColour(0xFF, 0x00, 0x00)
    } else {
        let tx = (col / 8) as u8;
        let ty = (row / 8) as u8;
        let tile_index = mem.get_bg_tile_index(tx, ty);
        let attr = if bus.is_cgb {
            mem.get_bg_tile_cgb_attr(tx, ty)
        } else {
            CGBTileAttr { bg_oam_priority: false, vertical_flip: false, horizontal_flip: false, is_from_bank1: false, bg_palette_index: 0 }
        };
        let ri = if attr.vertical_flip { 7 - row % 8 } else { row % 8 };
        let r = mem.get_bg_win_tile_row(tile_index, attr.is_from_bank1, ri);
        let px = if attr.horizontal_flip { 7 - col % 8 } else { col % 8 };
        let code = pixel_code(r[px]);
        if bus.is_cgb { mem.cgb_bg_colour(attr.bg_palette_index, code) } else { mem.bg_palette_colour(code) }
    }
}

} // verus!
