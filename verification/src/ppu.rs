pub mod timing;

use vstd::prelude::*;
use vstd::arithmetic::power2::pow2;
use crate::interrupts;

verus! {

pub const SCREEN_WIDTH: usize = 160;
pub const SCREEN_HEIGHT: usize = 144;

pub const SCANLINES: u8 = 154;
pub const VISIBLE_SCANLINES: u8 = 144;
pub const OAM_SCAN_DOTS: u32 = 80;
pub const DRAWING_DOTS: u32 = 172;
pub const HBLANK_DOTS: u32 = 204;
pub const SCANLINE_DOTS: u32 = 456;
pub const FRAME_DOTS: u32 = 70224;

pub const LCDC_ENABLED: u8 = 0x80;
pub const LCDC_WINDOW_MAP_HIGH: u8 = 0x40;
pub const LCDC_WINDOW_ENABLED: u8 = 0x20;
pub const LCDC_TILE_DATA_UNSIGNED: u8 = 0x10;
pub const LCDC_BG_MAP_HIGH: u8 = 0x08;
pub const LCDC_OBJ_TALL: u8 = 0x04;
pub const LCDC_OBJ_ENABLED: u8 = 0x02;
pub const LCDC_BG_ENABLED: u8 = 0x01;

pub const TILE_BYTES: u16 = 16;
pub const TILES_PER_MAP_ROW: u16 = 32;
pub const LOW_MAP: u16 = 0x1800;
pub const HIGH_MAP: u16 = 0x1C00;

pub const OBJ_BEHIND_BACKGROUND: u8 = 0x80;
pub const OBJ_FLIP_Y: u8 = 0x40;
pub const OBJ_FLIP_X: u8 = 0x20;
pub const OBJ_PALETTE_1: u8 = 0x10;
pub const OBJ_BANK: u8 = 0x08;
pub const OBJ_CGB_PALETTE: u8 = 0x07;

pub const BG_PRIORITY: u8 = 0x80;
pub const BG_FLIP_Y: u8 = 0x40;
pub const BG_FLIP_X: u8 = 0x20;
pub const BG_BANK: u8 = 0x08;
pub const BG_CGB_PALETTE: u8 = 0x07;

pub const VRAM_BANK_BYTES: usize = 0x2000;
pub const PALETTE_RAM_BYTES: usize = 64;
pub const OAM_BYTES: usize = 0xA0;
pub const OBJECTS_PER_LINE: usize = 10;

pub const LCDC: u16 = 0xFF40;
pub const STAT: u16 = 0xFF41;
pub const SCY: u16 = 0xFF42;
pub const SCX: u16 = 0xFF43;
pub const LY: u16 = 0xFF44;
pub const LYC: u16 = 0xFF45;
pub const DMA: u16 = 0xFF46;
pub const BGP: u16 = 0xFF47;
pub const OBP0: u16 = 0xFF48;
pub const OBP1: u16 = 0xFF49;
pub const WY: u16 = 0xFF4A;
pub const WX: u16 = 0xFF4B;
pub const VBK: u16 = 0xFF4F;
pub const BCPS: u16 = 0xFF68;
pub const BCPD: u16 = 0xFF69;
pub const OCPS: u16 = 0xFF6A;
pub const OCPD: u16 = 0xFF6B;

pub const STAT_LYC_EQUALS_LY: u8 = 0x40;
pub const STAT_OAM_SCAN: u8 = 0x20;
pub const STAT_VBLANK: u8 = 0x10;
pub const STAT_HBLANK: u8 = 0x08;
pub const STAT_COINCIDENCE: u8 = 0x04;
pub const STAT_WRITABLE: u8 = 0x78;

#[derive(Clone, Copy, PartialEq, Eq, Debug, Structural)]
pub enum Mode {
    HBlank,
    VBlank,
    OamScan,
    Drawing,
}

impl Mode {
    /// The mode number STAT reports in its low two bits.
    pub open spec fn bits_spec(self) -> u8 {
        match self {
            Mode::HBlank => 0,
            Mode::VBlank => 1,
            Mode::OamScan => 2,
            Mode::Drawing => 3,
        }
    }

    pub fn bits(&self) -> (r: u8)
        ensures
            r == self.bits_spec(),
    {
        match self {
            Mode::HBlank => 0,
            Mode::VBlank => 1,
            Mode::OamScan => 2,
            Mode::Drawing => 3,
        }
    }
}

/// A background or window pixel before the palette: its 2-bit color and, on
/// the CGB, the attributes of its tile.
#[derive(Clone, Copy, PartialEq, Eq, Debug, Structural)]
pub struct BgPixel {
    pub color: u8,
    pub attributes: u8,
}

/// An OAM entry on the current line.
#[derive(Clone, Copy, PartialEq, Eq, Debug, Structural)]
pub struct Object {
    pub index: u8,
    pub x: u8,
    pub tile: u8,
    pub attributes: u8,
    pub top: i16,
}

/// The picture processing unit: VRAM, OAM, the LCD registers, the scanline
/// state machine and the framebuffer it renders into.
pub struct Ppu {
    pub cgb: bool,
    pub vram: Vec<u8>,
    pub oam: Vec<u8>,
    pub mode: Mode,
    pub dots: u32,
    pub window_line: u8,
    pub frame_ready: bool,
    pub hblank_started: bool,
    pub framebuffer: Vec<u16>,
    pub lcdc: u8,
    pub stat: u8,
    pub scy: u8,
    pub scx: u8,
    pub ly: u8,
    pub lyc: u8,
    pub bgp: u8,
    pub obp0: u8,
    pub obp1: u8,
    pub wy: u8,
    pub wx: u8,
    pub vbk: u8,
    pub bcps: u8,
    pub ocps: u8,
    pub bg_palette: Vec<u8>,
    pub ob_palette: Vec<u8>,
}

/// The PPU as values.
pub struct PpuModel {
    pub cgb: bool,
    pub vram: Seq<u8>,
    pub oam: Seq<u8>,
    pub mode: Mode,
    pub dots: u32,
    pub window_line: u8,
    pub frame_ready: bool,
    pub hblank_started: bool,
    pub framebuffer: Seq<u16>,
    pub lcdc: u8,
    pub stat: u8,
    pub scy: u8,
    pub scx: u8,
    pub ly: u8,
    pub lyc: u8,
    pub bgp: u8,
    pub obp0: u8,
    pub obp1: u8,
    pub wy: u8,
    pub wx: u8,
    pub vbk: u8,
    pub bcps: u8,
    pub ocps: u8,
    pub bg_palette: Seq<u8>,
    pub ob_palette: Seq<u8>,
}

impl View for Ppu {
    type V = PpuModel;

    open spec fn view(&self) -> PpuModel {
        PpuModel {
            cgb: self.cgb,
            vram: self.vram@,
            oam: self.oam@,
            mode: self.mode,
            dots: self.dots,
            window_line: self.window_line,
            frame_ready: self.frame_ready,
            hblank_started: self.hblank_started,
            framebuffer: self.framebuffer@,
            lcdc: self.lcdc,
            stat: self.stat,
            scy: self.scy,
            scx: self.scx,
            ly: self.ly,
            lyc: self.lyc,
            bgp: self.bgp,
            obp0: self.obp0,
            obp1: self.obp1,
            wy: self.wy,
            wx: self.wx,
            vbk: self.vbk,
            bcps: self.bcps,
            ocps: self.ocps,
            bg_palette: self.bg_palette@,
            ob_palette: self.ob_palette@,
        }
    }
}

/// Where a tile's 16 bytes start in a VRAM bank: tile * 16 in the unsigned
/// mode, else the tile number taken as signed, around 0x1000.
pub open spec fn tile_address_spec(lcdc: u8, tile: u8) -> u16 {
    if lcdc & LCDC_TILE_DATA_UNSIGNED != 0 {
        (tile * 16) as u16
    } else if tile < 128 {
        (0x1000 + tile * 16) as u16
    } else {
        (0x1000 + (tile - 256) * 16) as u16
    }
}

/// The DMG shade (0..=3) a palette register gives a 2-bit color.
pub open spec fn shade_spec(palette: u8, color: u8) -> u8 {
    (palette >> (color * 2) as u8) & 0x03
}

/// The RGB555 value of a color in a CGB palette: two little-endian bytes per
/// color, four colors per palette.
pub open spec fn color_555_spec(ram: Seq<u8>, palette: u8, color: u8) -> u16 {
    let index = palette * 8 + color * 2;
    ((ram[index + 1] * 256 + ram[index]) % 0x8000) as u16
}

/// One more than the largest framebuffer entry: 4 shades on the DMG, 15-bit colors on the CGB.
pub open spec fn screen_limit(cgb: bool) -> u16 {
    if cgb {
        0x8000
    } else {
        4
    }
}

/// A bit of a byte, 0 or 1.
pub open spec fn bit_of(byte: u8, bit: u8) -> u8 {
    (byte >> bit) & 1
}

/// The 2-bit color of a pixel in a tile row: the bit from the high plane above
/// the bit from the low plane.
pub open spec fn plane_color(low: u8, high: u8, bit: u8) -> u8 {
    (bit_of(high, bit) * 2 + bit_of(low, bit)) as u8
}

impl PpuModel {
    /// The PPU as the boot ROM leaves it: LCD and background on.
    pub open spec fn initial(cgb: bool) -> PpuModel {
        PpuModel {
            cgb,
            vram: Seq::new(0x4000, |i: int| 0u8),
            oam: Seq::new(0xA0, |i: int| 0u8),
            mode: Mode::OamScan,
            dots: 0,
            window_line: 0,
            frame_ready: false,
            hblank_started: false,
            framebuffer: Seq::new(23040, |i: int| 0u16),
            lcdc: 0x91,
            stat: 0,
            scy: 0,
            scx: 0,
            ly: 0,
            lyc: 0,
            bgp: 0xFC,
            obp0: 0xFF,
            obp1: 0xFF,
            wy: 0,
            wx: 0,
            vbk: 0,
            bcps: 0,
            ocps: 0,
            bg_palette: Seq::new(64, |i: int| 0xFFu8),
            ob_palette: Seq::new(64, |i: int| 0xFFu8),
        }
    }

    pub open spec fn wf(self) -> bool {
        &&& self.vram.len() == 2 * VRAM_BANK_BYTES
        &&& self.oam.len() == OAM_BYTES
        &&& self.framebuffer.len() == SCREEN_WIDTH * SCREEN_HEIGHT
        &&& self.bg_palette.len() == PALETTE_RAM_BYTES
        &&& self.ob_palette.len() == PALETTE_RAM_BYTES
        &&& self.ly < SCANLINES
        &&& self.vbk <= 1
        &&& self.bcps & 0x40 == 0
        &&& self.ocps & 0x40 == 0
        &&& self.stat & 0x83 == 0
        &&& self.dots <= FRAME_DOTS + 80
        &&& self.mode != Mode::VBlank ==> self.ly < VISIBLE_SCANLINES
        &&& self.screen_valid()
    }

    /// Every framebuffer entry is a DMG shade (0..=3), or on the CGB an RGB555 color.
    pub open spec fn screen_valid(self) -> bool {
        forall|i: int| 0 <= i < self.framebuffer.len() ==> #[trigger] self.framebuffer[i] < screen_limit(self.cgb)
    }

    pub open spec fn lcd_on(self) -> bool {
        self.lcdc & LCDC_ENABLED != 0
    }

    pub open spec fn stat_interrupt(self, source: u8) -> u8 {
        if self.stat & source != 0 {
            interrupts::STAT
        } else {
            0
        }
    }

    pub open spec fn check_coincidence_spec(self) -> (PpuModel, u8) {
        if self.ly == self.lyc {
            let s = PpuModel { stat: self.stat | STAT_COINCIDENCE, ..self };
            (s, s.stat_interrupt(STAT_LYC_EQUALS_LY))
        } else {
            (PpuModel { stat: self.stat & !STAT_COINCIDENCE, ..self }, 0)
        }
    }

    /// The move to the next scanline at the end of HBlank or of a VBlank line.
    pub open spec fn next_line_spec(self) -> (PpuModel, u8) {
        let ly = (self.ly + 1) as u8;
        let (s, raised): (PpuModel, u8) = if ly == VISIBLE_SCANLINES {
            let s = PpuModel { ly, window_line: 0, mode: Mode::VBlank, frame_ready: true, ..self };
            (s, interrupts::VBLANK | s.stat_interrupt(STAT_VBLANK))
        } else if ly >= SCANLINES {
            let s = PpuModel { ly: 0, mode: Mode::OamScan, ..self };
            (s, s.stat_interrupt(STAT_OAM_SCAN))
        } else if self.mode == Mode::HBlank {
            let s = PpuModel { ly, mode: Mode::OamScan, ..self };
            (s, s.stat_interrupt(STAT_OAM_SCAN))
        } else {
            (PpuModel { ly, ..self }, 0)
        };
        let (c, more) = s.check_coincidence_spec();
        (c, raised | more)
    }

    /// Advances the dot clock by `t_cycles`, taking at most one mode step.
    pub open spec fn tick_spec(self, t_cycles: u8) -> (PpuModel, u8) {
        let dots = (self.dots + t_cycles) as u32;
        if !self.lcd_on() {
            if dots >= FRAME_DOTS {
                (PpuModel { dots: (dots - FRAME_DOTS) as u32, frame_ready: true, ..self }, 0)
            } else {
                (PpuModel { dots, ..self }, 0)
            }
        } else if self.mode == Mode::OamScan && dots >= OAM_SCAN_DOTS {
            (PpuModel { dots: (dots - OAM_SCAN_DOTS) as u32, mode: Mode::Drawing, ..self }, 0)
        } else if self.mode == Mode::Drawing && dots >= DRAWING_DOTS {
            let s = PpuModel {
                dots: (dots - DRAWING_DOTS) as u32,
                mode: Mode::HBlank,
                hblank_started: true,
                ..self
            }.render_scanline_spec();
            (s, s.stat_interrupt(STAT_HBLANK))
        } else if self.mode == Mode::HBlank && dots >= HBLANK_DOTS {
            PpuModel { dots: (dots - HBLANK_DOTS) as u32, ..self }.next_line_spec()
        } else if self.mode == Mode::VBlank && dots >= SCANLINE_DOTS {
            PpuModel { dots: (dots - SCANLINE_DOTS) as u32, ..self }.next_line_spec()
        } else {
            (PpuModel { dots, ..self }, 0)
        }
    }

    // ---- registers ----------------------------------------------------------
    pub open spec fn read_vram_spec(self, offset: u16) -> u8 {
        self.vram[self.vbk * VRAM_BANK_BYTES + offset]
    }

    pub open spec fn write_vram_spec(self, offset: u16, value: u8) -> PpuModel {
        PpuModel { vram: self.vram.update(self.vbk * VRAM_BANK_BYTES + offset, value), ..self }
    }

    pub open spec fn write_oam_spec(self, offset: u16, value: u8) -> PpuModel {
        PpuModel { oam: self.oam.update(offset as int, value), ..self }
    }

    pub open spec fn read_reg_spec(self, address: u16) -> u8 {
        if address == LCDC {
            self.lcdc
        } else if address == STAT {
            self.stat | 0x80 | self.mode.bits_spec()
        } else if address == SCY {
            self.scy
        } else if address == SCX {
            self.scx
        } else if address == LY {
            self.ly
        } else if address == LYC {
            self.lyc
        } else if address == BGP {
            self.bgp
        } else if address == OBP0 {
            self.obp0
        } else if address == OBP1 {
            self.obp1
        } else if address == WY {
            self.wy
        } else if address == WX {
            self.wx
        } else if address == VBK {
            0xFE | self.vbk
        } else if address == BCPS {
            self.bcps | 0x40
        } else if address == BCPD {
            self.bg_palette[(self.bcps & 0x3F) as int]
        } else if address == OCPS {
            self.ocps | 0x40
        } else if address == OCPD {
            self.ob_palette[(self.ocps & 0x3F) as int]
        } else {
            0xFF
        }
    }

    /// The next palette index after a data write: bit 7 of the index register
    /// asks for an increment, wrapping within the 64 bytes.
    pub open spec fn next_palette_index(index: u8) -> u8 {
        if index & 0x80 != 0 {
            0x80 | ((index + 1) as u8 & 0x3F)
        } else {
            index
        }
    }

    pub open spec fn write_reg_spec(self, address: u16, value: u8) -> PpuModel {
        if address == LCDC {
            let toggled = self.lcd_on() != (value & LCDC_ENABLED != 0);
            if toggled {
                PpuModel { lcdc: value, ly: 0, dots: 0, mode: Mode::HBlank, ..self }
            } else {
                PpuModel { lcdc: value, ..self }
            }
        } else if address == STAT {
            PpuModel { stat: (self.stat & !STAT_WRITABLE) | (value & STAT_WRITABLE), ..self }
        } else if address == SCY {
            PpuModel { scy: value, ..self }
        } else if address == SCX {
            PpuModel { scx: value, ..self }
        } else if address == LYC {
            PpuModel { lyc: value, ..self }
        } else if address == BGP {
            PpuModel { bgp: value, ..self }
        } else if address == OBP0 {
            PpuModel { obp0: value, ..self }
        } else if address == OBP1 {
            PpuModel { obp1: value, ..self }
        } else if address == WY {
            PpuModel { wy: value, ..self }
        } else if address == WX {
            PpuModel { wx: value, ..self }
        } else if address == VBK {
            PpuModel { vbk: value & 1, ..self }
        } else if address == BCPS {
            PpuModel { bcps: value & 0xBF, ..self }
        } else if address == BCPD {
            PpuModel {
                bg_palette: self.bg_palette.update((self.bcps & 0x3F) as int, value),
                bcps: Self::next_palette_index(self.bcps),
                ..self
            }
        } else if address == OCPS {
            PpuModel { ocps: value & 0xBF, ..self }
        } else if address == OCPD {
            PpuModel {
                ob_palette: self.ob_palette.update((self.ocps & 0x3F) as int, value),
                ocps: Self::next_palette_index(self.ocps),
                ..self
            }
        } else {
            self
        }
    }

    // ---- rendering ----------------------------------------------------------
    /// A pixel of a tile map: `x` and `y` are positions in the 256x256 map.
    pub open spec fn tile_pixel_spec(self, map: u16, x: u8, y: u8) -> BgPixel {
        let entry = (y / 8) * 32 + x / 8 + map;
        let tile = self.vram[entry];
        let attributes: u8 = if self.cgb { self.vram[entry + VRAM_BANK_BYTES] } else { 0 };
        let row: u8 = if attributes & BG_FLIP_Y != 0 { (7 - y % 8) as u8 } else { y % 8 };
        let bit: u8 = if attributes & BG_FLIP_X != 0 { x % 8 } else { (7 - x % 8) as u8 };
        let bank: int = if attributes & BG_BANK != 0 { VRAM_BANK_BYTES as int } else { 0 };
        let base = tile_address_spec(self.lcdc, tile) + row * 2 + bank;
        BgPixel { color: plane_color(self.vram[base], self.vram[base + 1], bit), attributes }
    }

    /// The CGB always draws the background; the DMG blanks it with LCDC bit 0 clear.
    pub open spec fn background_on(self) -> bool {
        self.cgb || self.lcdc & LCDC_BG_ENABLED != 0
    }

    pub open spec fn window_start(self) -> int {
        if self.wx >= 7 {
            self.wx - 7
        } else {
            0
        }
    }

    /// Whether this scanline draws the window (and so moves its line counter).
    pub open spec fn window_drawn(self) -> bool {
        &&& self.background_on()
        &&& self.lcdc & LCDC_WINDOW_ENABLED != 0
        &&& self.ly >= self.wy
        &&& self.window_start() < SCREEN_WIDTH
    }

    /// The background or window pixel at screen column `x` of the current line.
    pub open spec fn bg_pixel_at(self, x: int) -> BgPixel {
        if !self.background_on() {
            BgPixel { color: 0, attributes: 0 }
        } else if self.window_drawn() && x >= self.window_start() {
            let map = if self.lcdc & LCDC_WINDOW_MAP_HIGH == 0 { LOW_MAP } else { HIGH_MAP };
            self.tile_pixel_spec(map, (x - self.window_start()) as u8, self.window_line)
        } else {
            let map = if self.lcdc & LCDC_BG_MAP_HIGH == 0 { LOW_MAP } else { HIGH_MAP };
            self.tile_pixel_spec(map, ((x + self.scx) % 256) as u8, ((self.ly + self.scy) % 256) as u8)
        }
    }

    /// What a background pixel shows: its RGB555 color on the CGB, its shade on the DMG.
    pub open spec fn bg_output(self, p: BgPixel) -> u16 {
        if self.cgb {
            color_555_spec(self.bg_palette, p.attributes & BG_CGB_PALETTE, p.color)
        } else {
            shade_spec(self.bgp, p.color) as u16
        }
    }

    pub open spec fn object_height(self) -> u8 {
        if self.lcdc & LCDC_OBJ_TALL != 0 {
            16
        } else {
            8
        }
    }

    pub open spec fn object_at(self, index: int) -> Object {
        Object {
            index: index as u8,
            x: self.oam[index * 4 + 1],
            tile: self.oam[index * 4 + 2],
            attributes: self.oam[index * 4 + 3],
            top: (self.oam[index * 4] - 16) as i16,
        }
    }

    /// Whether the object at OAM index `index` covers the current line.
    pub open spec fn on_line(self, index: int, height: u8) -> bool {
        let top = self.oam[index * 4] - 16;
        top <= self.ly < top + height
    }

    /// The objects on the current line, scanning OAM from `i` with `found` so far:
    /// in OAM order, at most ten.
    pub open spec fn objects_from(self, height: u8, i: int, found: Seq<Object>) -> Seq<Object>
        decreases 40 - i,
    {
        if i >= 40 || found.len() >= OBJECTS_PER_LINE {
            found
        } else if self.on_line(i, height) {
            self.objects_from(height, i + 1, found.push(self.object_at(i)))
        } else {
            self.objects_from(height, i + 1, found)
        }
    }

    pub open spec fn objects_on_line_spec(self, height: u8) -> Seq<Object> {
        self.objects_from(height, 0, Seq::empty())
    }

    /// The 2-bit color of column `offset` (0..8, left to right) of an object on this line.
    pub open spec fn object_color_spec(self, object: Object, offset: u8, height: u8) -> u8 {
        let line = (self.ly - object.top) as u8;
        let row: u8 = if object.attributes & OBJ_FLIP_Y != 0 { (height - 1 - line) as u8 } else { line };
        let tile: u8 = if height == 16 { object.tile & 0xFE } else { object.tile };
        let bank: int = if self.cgb && object.attributes & OBJ_BANK != 0 { VRAM_BANK_BYTES as int } else { 0 };
        let base = tile * 16 + row * 2 + bank;
        let bit: u8 = if object.attributes & OBJ_FLIP_X != 0 { offset } else { (7 - offset) as u8 };
        plane_color(self.vram[base], self.vram[base + 1], bit)
    }

    /// Whether a nonzero background color hides an object pixel.
    pub open spec fn background_wins_spec(self, object: Object, background: BgPixel) -> bool {
        if background.color == 0 {
            false
        } else if self.cgb {
            self.lcdc & LCDC_BG_ENABLED != 0 && (background.attributes & BG_PRIORITY != 0
                || object.attributes & OBJ_BEHIND_BACKGROUND != 0)
        } else {
            object.attributes & OBJ_BEHIND_BACKGROUND != 0
        }
    }

    /// Whether `object` puts a pixel at screen column `x`: it spans the column,
    /// its pixel there is not transparent, and the background does not win.
    pub open spec fn paints(self, object: Object, x: int, height: u8) -> bool {
        let offset = x + 8 - object.x;
        &&& 0 <= offset < 8
        &&& self.object_color_spec(object, offset as u8, height) != 0
        &&& !self.background_wins_spec(object, self.bg_pixel_at(x))
    }

    /// Object priority: the CGB ranks by OAM index alone, the DMG by X first
    /// and then by OAM index. The lower rank is drawn on top.
    pub open spec fn outranks(self, a: Object, b: Object) -> bool {
        if self.cgb {
            a.index < b.index
        } else {
            a.x < b.x || (a.x == b.x && a.index < b.index)
        }
    }

    /// Among the first `k` objects, the position of the top-ranked one that paints `x`.
    pub open spec fn winner(self, objects: Seq<Object>, x: int, height: u8, k: int) -> Option<int>
        decreases k,
    {
        if k <= 0 {
            None
        } else {
            let earlier = self.winner(objects, x, height, k - 1);
            let candidate = objects[k - 1];
            if self.paints(candidate, x, height) && (earlier is None || self.outranks(
                candidate,
                objects[earlier->0],
            )) {
                Some(k - 1)
            } else {
                earlier
            }
        }
    }

    /// What an object pixel shows.
    pub open spec fn object_output(self, object: Object, color: u8) -> u16 {
        if self.cgb {
            color_555_spec(self.ob_palette, object.attributes & OBJ_CGB_PALETTE, color)
        } else {
            let palette = if object.attributes & OBJ_PALETTE_1 == 0 { self.obp0 } else { self.obp1 };
            shade_spec(palette, color) as u16
        }
    }

    /// The final pixel at column `x` of the current line.
    pub open spec fn pixel_at(self, x: int) -> u16 {
        let height = self.object_height();
        let objects = self.objects_on_line_spec(height);
        let winner = self.winner(objects, x, height, objects.len() as int);
        if self.lcdc & LCDC_OBJ_ENABLED != 0 && winner is Some {
            let object = objects[winner->0];
            self.object_output(object, self.object_color_spec(object, (x + 8 - object.x) as u8, height))
        } else {
            self.bg_output(self.bg_pixel_at(x))
        }
    }

    /// Renders the current line into the framebuffer; every other line stays.
    pub open spec fn render_scanline_spec(self) -> PpuModel {
        let start = self.ly * SCREEN_WIDTH;
        PpuModel {
            framebuffer: Seq::new(
                self.framebuffer.len(),
                |i: int| if start <= i < start + SCREEN_WIDTH { self.pixel_at(i - start) } else { self.framebuffer[i] },
            ),
            window_line: if self.window_drawn() { ((self.window_line + 1) % 256) as u8 } else { self.window_line },
            ..self
        }
    }
}


/// A rendered pixel is a DMG shade, or on the CGB an RGB555 color.
pub proof fn law_pixels_are_shades_or_colors(p: PpuModel, x: int)
    ensures
        p.pixel_at(x) < screen_limit(p.cgb),
{
    let height = p.object_height();
    let objects = p.objects_on_line_spec(height);
    let winner = p.winner(objects, x, height, objects.len() as int);
    if p.lcdc & LCDC_OBJ_ENABLED != 0 && winner is Some {
        let object = objects[winner->0];
        let palette = if object.attributes & OBJ_PALETTE_1 == 0 { p.obp0 } else { p.obp1 };
        let color = p.object_color_spec(object, (x + 8 - object.x) as u8, height);
        crate::bits::lemma_u8_bits(palette >> (color * 2) as u8);
    } else {
        let bg = p.bg_pixel_at(x);
        crate::bits::lemma_u8_bits(p.bgp >> (bg.color * 2) as u8);
    }
}

/// Rendering a line keeps the screen valid.
proof fn lemma_render_keeps_screen_valid(p: PpuModel)
    requires
        p.screen_valid(),
    ensures
        p.render_scanline_spec().screen_valid(),
{
    let q = p.render_scanline_spec();
    assert forall|i: int| 0 <= i < q.framebuffer.len() implies #[trigger] q.framebuffer[i] < screen_limit(q.cgb) by {
        let start = p.ly * SCREEN_WIDTH;
        if start <= i < start + SCREEN_WIDTH {
            law_pixels_are_shades_or_colors(p, i - start);
        }
    }
}

pub fn tile_address(lcdc: u8, tile: u8) -> (r: u16)
    ensures
        r == tile_address_spec(lcdc, tile),
{
    if lcdc & LCDC_TILE_DATA_UNSIGNED != 0 {
        tile as u16 * TILE_BYTES
    } else if tile < 128 {
        0x1000 + tile as u16 * TILE_BYTES
    } else {
        0x1000 - (256 - tile as u16) * TILE_BYTES
    }
}

pub fn shade(palette: u8, color: u8) -> (r: u8)
    requires
        color <= 3,
    ensures
        r == shade_spec(palette, color),
{
    (palette >> (color * 2)) & 0x03
}

pub fn color_555(ram: &Vec<u8>, palette: u8, color: u8) -> (r: u16)
    requires
        ram@.len() == PALETTE_RAM_BYTES,
        palette <= 7,
        color <= 3,
    ensures
        r == color_555_spec(ram@, palette, color),
{
    let index = palette as usize * 8 + color as usize * 2;
    let low = ram[index];
    let high = ram[index + 1];
    proof {
        assert(((high as u16) << 8 | low as u16) & 0x7FFF == (high as u16 * 256 + low as u16) % 0x8000) by (bit_vector);
    }
    ((high as u16) << 8 | low as u16) & 0x7FFF
}

fn plane_color_exec(low: u8, high: u8, bit: u8) -> (r: u8)
    requires
        bit < 8,
    ensures
        r == plane_color(low, high, bit),
        r <= 3,
{
    proof {
        assert((high >> bit & 1) << 1 | (low >> bit & 1) == ((high >> bit) & 1) * 2 + ((low >> bit) & 1)
            && (high >> bit) & 1 <= 1 && (low >> bit) & 1 <= 1) by (bit_vector);
    }
    (high >> bit & 1) << 1 | (low >> bit & 1)
}

proof fn lemma_objects_from(m: PpuModel, height: u8, i: int, found: Seq<Object>)
    requires
        m.wf(),
        0 <= i,
        forall|j: int| 0 <= j < found.len() ==> #[trigger] m.on_line(found[j].index as int, height)
            && found[j].index < 40 && found[j] == m.object_at(found[j].index as int),
        found.len() <= OBJECTS_PER_LINE,
    ensures
        forall|j: int| 0 <= j < m.objects_from(height, i, found).len() ==> #[trigger] m.on_line(
            m.objects_from(height, i, found)[j].index as int,
            height,
        ) && m.objects_from(height, i, found)[j].index < 40 && m.objects_from(height, i, found)[j]
            == m.object_at(m.objects_from(height, i, found)[j].index as int),
        m.objects_from(height, i, found).len() <= OBJECTS_PER_LINE,
    decreases 40 - i,
{
    if i >= 40 || found.len() >= OBJECTS_PER_LINE {
    } else if m.on_line(i, height) {
        let f2 = found.push(m.object_at(i));
        assert(m.object_at(i).index == i);
        assert forall|j: int| 0 <= j < f2.len() implies #[trigger] m.on_line(f2[j].index as int, height)
            && f2[j].index < 40 && f2[j] == m.object_at(f2[j].index as int) by {
            if j < found.len() {
                assert(f2[j] == found[j]);
            }
        }
        lemma_objects_from(m, height, i + 1, f2);
    } else {
        lemma_objects_from(m, height, i + 1, found);
    }
}

impl Ppu {
    pub open spec fn wf(&self) -> bool {
        self@.wf()
    }

    pub fn new(cgb: bool) -> (p: Self)
        ensures
            p.wf(),
            p@ == PpuModel::initial(cgb),
    {
        let p = Ppu {
            cgb,
            vram: vec![0u8; 2 * VRAM_BANK_BYTES],
            oam: vec![0u8; OAM_BYTES],
            mode: Mode::OamScan,
            dots: 0,
            window_line: 0,
            frame_ready: false,
            hblank_started: false,
            framebuffer: vec![0u16; SCREEN_WIDTH * SCREEN_HEIGHT],
            // what the boot ROM leaves behind: LCD on, background on
            lcdc: 0x91,
            stat: 0,
            scy: 0,
            scx: 0,
            ly: 0,
            lyc: 0,
            bgp: 0xFC,
            obp0: 0xFF,
            obp1: 0xFF,
            wy: 0,
            wx: 0,
            vbk: 0,
            bcps: 0,
            ocps: 0,
            bg_palette: vec![0xFFu8; PALETTE_RAM_BYTES],
            ob_palette: vec![0xFFu8; PALETTE_RAM_BYTES],
        };
        proof {
            assert(p@.vram =~= Seq::new(0x4000, |i: int| 0u8));
            assert(p@.oam =~= Seq::new(0xA0, |i: int| 0u8));
            assert(p@.framebuffer =~= Seq::new(23040, |i: int| 0u16));
            assert(p@.bg_palette =~= Seq::new(64, |i: int| 0xFFu8));
            assert(p@.ob_palette =~= Seq::new(64, |i: int| 0xFFu8));
            assert(0u8 & 0x40 == 0 && 0u8 & 0x83 == 0) by (bit_vector);
        }
        p
    }

    fn stat_interrupt(&self, source: u8) -> (r: u8)
        ensures
            r == self@.stat_interrupt(source),
    {
        if self.stat & source != 0 {
            interrupts::STAT
        } else {
            0
        }
    }

    fn check_coincidence(&mut self) -> (r: u8)
        requires
            old(self).wf(),
        ensures
            (final(self)@, r) == old(self)@.check_coincidence_spec(),
            final(self).wf(),
    {
        let stat = self.stat;
        proof {
            assert(stat & 0x83 == 0 ==> (stat | 4) & 0x83 == 0 && (stat & !4u8) & 0x83 == 0) by (bit_vector);
        }
        if self.ly == self.lyc {
            self.stat = self.stat | STAT_COINCIDENCE;
            self.stat_interrupt(STAT_LYC_EQUALS_LY)
        } else {
            self.stat = self.stat & !STAT_COINCIDENCE;
            0
        }
    }

    fn next_line(&mut self) -> (r: u8)
        requires
            old(self).wf(),
            old(self).mode == Mode::HBlank || old(self).mode == Mode::VBlank,
        ensures
            (final(self)@, r) == old(self)@.next_line_spec(),
            final(self).wf(),
    {
        self.ly = self.ly + 1;
        let mut raised: u8 = 0;
        if self.ly == VISIBLE_SCANLINES {
            self.window_line = 0;
            self.mode = Mode::VBlank;
            self.frame_ready = true;
            raised = interrupts::VBLANK | self.stat_interrupt(STAT_VBLANK);
        } else if self.ly >= SCANLINES {
            self.ly = 0;
            self.mode = Mode::OamScan;
            raised = self.stat_interrupt(STAT_OAM_SCAN);
        } else if self.mode == Mode::HBlank {
            self.mode = Mode::OamScan;
            raised = self.stat_interrupt(STAT_OAM_SCAN);
        }
        let more = self.check_coincidence();
        raised | more
    }

    /// Advances the dot clock by `t_cycles` T-cycles and returns the interrupts
    /// raised. A call takes at most one mode step, so the counter stays within
    /// a frame (`dots <= FRAME_DOTS + 80`) only while each call is at most as
    /// long as the shortest mode, 80 dots; longer calls could run the dot
    /// counter up without bound. No instruction takes more than 24.
    pub fn tick(&mut self, t_cycles: u8) -> (r: u8)
        requires
            old(self).wf(),
            t_cycles <= 80,
        ensures
            (final(self)@, r) == old(self)@.tick_spec(t_cycles),
            final(self).wf(),
    {
        self.dots = self.dots + t_cycles as u32;
        // No VBlank while the LCD is off, but the frontend still needs a frame
        // boundary to present on.
        if self.lcdc & LCDC_ENABLED == 0 {
            if self.dots >= FRAME_DOTS {
                self.dots = self.dots - FRAME_DOTS;
                self.frame_ready = true;
            }
            return 0;
        }
        if self.mode == Mode::OamScan && self.dots >= OAM_SCAN_DOTS {
            self.dots = self.dots - OAM_SCAN_DOTS;
            self.mode = Mode::Drawing;
            0
        } else if self.mode == Mode::Drawing && self.dots >= DRAWING_DOTS {
            self.dots = self.dots - DRAWING_DOTS;
            self.mode = Mode::HBlank;
            self.hblank_started = true;
            self.render_scanline();
            self.stat_interrupt(STAT_HBLANK)
        } else if self.mode == Mode::HBlank && self.dots >= HBLANK_DOTS {
            self.dots = self.dots - HBLANK_DOTS;
            self.next_line()
        } else if self.mode == Mode::VBlank && self.dots >= SCANLINE_DOTS {
            self.dots = self.dots - SCANLINE_DOTS;
            self.next_line()
        } else {
            0
        }
    }

    /// Whether a frame has completed since the last call; clears the flag.
    pub fn take_frame_ready(&mut self) -> (r: bool)
        ensures
            r == old(self).frame_ready,
            final(self)@ == (PpuModel { frame_ready: false, ..old(self)@ }),
    {
        let r = self.frame_ready;
        self.frame_ready = false;
        r
    }

    /// Whether HBlank has begun since the last call; clears the flag.
    pub fn take_hblank_start(&mut self) -> (r: bool)
        ensures
            r == old(self).hblank_started,
            final(self)@ == (PpuModel { hblank_started: false, ..old(self)@ }),
    {
        let r = self.hblank_started;
        self.hblank_started = false;
        r
    }

    /// The screen, row by row: DMG shades 0..=3, or CGB RGB555 colors.
    pub fn framebuffer(&self) -> (r: &[u16])
        ensures
            r@ == self@.framebuffer,
    {
        self.framebuffer.as_slice()
    }

    pub fn read_vram(&self, offset: u16) -> (r: u8)
        requires
            self.wf(),
            offset < 0x2000,
        ensures
            r == self@.read_vram_spec(offset),
    {
        self.vram[self.vbk as usize * VRAM_BANK_BYTES + offset as usize]
    }

    pub fn write_vram(&mut self, offset: u16, value: u8)
        requires
            old(self).wf(),
            offset < 0x2000,
        ensures
            final(self)@ == old(self)@.write_vram_spec(offset, value),
            final(self).wf(),
    {
        let i = self.vbk as usize * VRAM_BANK_BYTES + offset as usize;
        self.vram.set(i, value);
    }

    pub fn read_oam(&self, offset: u16) -> (r: u8)
        requires
            self.wf(),
            offset < 0xA0,
        ensures
            r == self@.oam[offset as int],
    {
        self.oam[offset as usize]
    }

    pub fn write_oam(&mut self, offset: u16, value: u8)
        requires
            old(self).wf(),
            offset < 0xA0,
        ensures
            final(self)@ == old(self)@.write_oam_spec(offset, value),
            final(self).wf(),
    {
        self.oam.set(offset as usize, value);
    }

    pub fn read_reg(&self, address: u16) -> (r: u8)
        requires
            self.wf(),
        ensures
            r == self@.read_reg_spec(address),
    {
        let bi = self.bcps;
        let oi = self.ocps;
        proof {
            assert(bi & 0x3F < 64 && oi & 0x3F < 64) by (bit_vector);
        }
        if address == LCDC {
            self.lcdc
        } else if address == STAT {
            self.stat | 0x80 | self.mode.bits()
        } else if address == SCY {
            self.scy
        } else if address == SCX {
            self.scx
        } else if address == LY {
            self.ly
        } else if address == LYC {
            self.lyc
        } else if address == BGP {
            self.bgp
        } else if address == OBP0 {
            self.obp0
        } else if address == OBP1 {
            self.obp1
        } else if address == WY {
            self.wy
        } else if address == WX {
            self.wx
        } else if address == VBK {
            0xFE | self.vbk
        } else if address == BCPS {
            self.bcps | 0x40
        } else if address == BCPD {
            self.bg_palette[(self.bcps & 0x3F) as usize]
        } else if address == OCPS {
            self.ocps | 0x40
        } else if address == OCPD {
            self.ob_palette[(self.ocps & 0x3F) as usize]
        } else {
            0xFF
        }
    }

    fn next_index(index: u8) -> (r: u8)
        requires
            index & 0x40 == 0,
        ensures
            r == PpuModel::next_palette_index(index),
            r & 0x40 == 0,
    {
        proof {
            assert((index & 0x40 == 0 ==> index < 0xFF)
                && (index & 0x40 == 0 && index & 0x80 != 0 ==> (0x80 | ((index + 1) as u8 & 0x3F)) & 0x40 == 0)) by (bit_vector);
        }
        if index & 0x80 != 0 {
            0x80 | ((index + 1) & 0x3F)
        } else {
            index
        }
    }

    pub fn write_reg(&mut self, address: u16, value: u8)
        requires
            old(self).wf(),
        ensures
            final(self)@ == old(self)@.write_reg_spec(address, value),
            final(self).wf(),
    {
        let stat = self.stat;
        let bi = self.bcps;
        let oi = self.ocps;
        proof {
            assert((stat & 0x83 == 0 ==> ((stat & !0x78u8) | (value & 0x78)) & 0x83 == 0)
                && (value & 0xBF) & 0x40 == 0 && bi & 0x3F < 64 && oi & 0x3F < 64 && value & 1 <= 1) by (bit_vector);
        }
        if address == LCDC {
            let was_on = self.lcdc & LCDC_ENABLED != 0;
            let is_on = value & LCDC_ENABLED != 0;
            self.lcdc = value;
            if was_on != is_on {
                self.ly = 0;
                self.dots = 0;
                self.mode = Mode::HBlank;
            }
        } else if address == STAT {
            self.stat = (self.stat & !STAT_WRITABLE) | (value & STAT_WRITABLE);
        } else if address == SCY {
            self.scy = value;
        } else if address == SCX {
            self.scx = value;
        } else if address == LYC {
            self.lyc = value;
        } else if address == BGP {
            self.bgp = value;
        } else if address == OBP0 {
            self.obp0 = value;
        } else if address == OBP1 {
            self.obp1 = value;
        } else if address == WY {
            self.wy = value;
        } else if address == WX {
            self.wx = value;
        } else if address == VBK {
            self.vbk = value & 1;
        } else if address == BCPS {
            self.bcps = value & 0xBF;
        } else if address == BCPD {
            self.bg_palette.set((self.bcps & 0x3F) as usize, value);
            self.bcps = Self::next_index(self.bcps);
        } else if address == OCPS {
            self.ocps = value & 0xBF;
        } else if address == OCPD {
            self.ob_palette.set((self.ocps & 0x3F) as usize, value);
            self.ocps = Self::next_index(self.ocps);
        }
    }

    fn tile_pixel(&self, map: u16, x: u8, y: u8) -> (r: BgPixel)
        requires
            self.wf(),
            map == LOW_MAP || map == HIGH_MAP,
        ensures
            r == self@.tile_pixel_spec(map, x, y),
            r.color <= 3,
    {
        let entry = ((y / 8) as u16 * TILES_PER_MAP_ROW + (x / 8) as u16 + map) as usize;
        let tile = self.vram[entry];
        // The attribute plane shadows the tile map from VRAM bank 1.
        let attributes: u8 = if self.cgb { self.vram[entry + VRAM_BANK_BYTES] } else { 0 };
        let row: u8 = if attributes & BG_FLIP_Y != 0 { 7 - y % 8 } else { y % 8 };
        let bit: u8 = if attributes & BG_FLIP_X != 0 { x % 8 } else { 7 - x % 8 };
        let bank: usize = if attributes & BG_BANK != 0 { VRAM_BANK_BYTES } else { 0 };
        let base = tile_address(self.lcdc, tile) as usize + row as usize * 2 + bank;
        let low = self.vram[base];
        let high = self.vram[base + 1];
        BgPixel { color: plane_color_exec(low, high, bit), attributes }
    }

    fn window_drawn(&self) -> (r: bool)
        ensures
            r == self@.window_drawn(),
    {
        let background = self.cgb || self.lcdc & LCDC_BG_ENABLED != 0;
        let start: u8 = if self.wx >= 7 { self.wx - 7 } else { 0 };
        background && self.lcdc & LCDC_WINDOW_ENABLED != 0 && self.ly >= self.wy && (start as usize) < SCREEN_WIDTH
    }

    fn bg_pixel(&self, x: usize) -> (r: BgPixel)
        requires
            self.wf(),
            x < SCREEN_WIDTH,
        ensures
            r == self@.bg_pixel_at(x as int),
            r.color <= 3,
    {
        if !(self.cgb || self.lcdc & LCDC_BG_ENABLED != 0) {
            return BgPixel { color: 0, attributes: 0 };
        }
        let start: u8 = if self.wx >= 7 { self.wx - 7 } else { 0 };
        if self.window_drawn() && x >= start as usize {
            let map = if self.lcdc & LCDC_WINDOW_MAP_HIGH == 0 { LOW_MAP } else { HIGH_MAP };
            self.tile_pixel(map, (x - start as usize) as u8, self.window_line)
        } else {
            let map = if self.lcdc & LCDC_BG_MAP_HIGH == 0 { LOW_MAP } else { HIGH_MAP };
            let sx = ((x + self.scx as usize) % 256) as u8;
            let sy = ((self.ly as usize + self.scy as usize) % 256) as u8;
            self.tile_pixel(map, sx, sy)
        }
    }

    fn bg_output(&self, p: BgPixel) -> (r: u16)
        requires
            self.wf(),
            p.color <= 3,
        ensures
            r == self@.bg_output(p),
    {
        if self.cgb {
            let palette = p.attributes & BG_CGB_PALETTE;
            proof {
                let a = p.attributes;
                crate::bits::lemma_u8_bits(a);
            }
            color_555(&self.bg_palette, palette, p.color)
        } else {
            shade(self.bgp, p.color) as u16
        }
    }

    fn objects_on_line(&self, height: u8) -> (r: Vec<Object>)
        requires
            self.wf(),
        ensures
            r@ == self@.objects_on_line_spec(height),
    {
        let mut found: Vec<Object> = Vec::new();
        let mut index: u8 = 0;
        while index < 40
            invariant
                self.wf(),
                index <= 40,
                found@.len() <= OBJECTS_PER_LINE,
                self@.objects_from(height, index as int, found@) == self@.objects_on_line_spec(height),
            ensures
                self@.objects_from(height, index as int, found@) == self@.objects_on_line_spec(height),
                index >= 40 || found@.len() >= OBJECTS_PER_LINE,
            decreases 40 - index,
        {
            if found.len() >= OBJECTS_PER_LINE {
                break;
            }
            let entry = index as usize * 4;
            let top = self.oam[entry] as i16 - 16;
            if (self.ly as i16) < top || (self.ly as i16) >= top + height as i16 {
                index = index + 1;
                continue;
            }
            found.push(
                Object {
                    index,
                    x: self.oam[entry + 1],
                    tile: self.oam[entry + 2],
                    attributes: self.oam[entry + 3],
                    top,
                },
            );
            index = index + 1;
        }
        found
    }

    fn object_color(&self, object: &Object, offset: u8, height: u8) -> (r: u8)
        requires
            self.wf(),
            height == 8 || height == 16,
            offset < 8,
            object.top <= self.ly < object.top + height,
            object.top >= -16,
        ensures
            r == self@.object_color_spec(*object, offset, height),
            r <= 3,
    {
        let line = (self.ly as i16 - object.top) as u8;
        let row: u8 = if object.attributes & OBJ_FLIP_Y != 0 { height - 1 - line } else { line };
        let tile: u8 = if height == 16 { object.tile & 0xFE } else { object.tile };
        let bank: usize = if self.cgb && object.attributes & OBJ_BANK != 0 { VRAM_BANK_BYTES } else { 0 };
        let base = tile as usize * 16 + row as usize * 2 + bank;
        let bit: u8 = if object.attributes & OBJ_FLIP_X != 0 { offset } else { 7 - offset };
        plane_color_exec(self.vram[base], self.vram[base + 1], bit)
    }

    fn background_wins(&self, object: &Object, background: BgPixel) -> (r: bool)
        ensures
            r == self@.background_wins_spec(*object, background),
    {
        if background.color == 0 {
            return false;
        }
        if self.cgb {
            // LCDC bit 0 is the master switch: cleared, sprites always win.
            self.lcdc & LCDC_BG_ENABLED != 0 && (background.attributes & BG_PRIORITY != 0
                || object.attributes & OBJ_BEHIND_BACKGROUND != 0)
        } else {
            object.attributes & OBJ_BEHIND_BACKGROUND != 0
        }
    }

    fn outranks(&self, a: &Object, b: &Object) -> (r: bool)
        ensures
            r == self@.outranks(*a, *b),
    {
        if self.cgb {
            a.index < b.index
        } else {
            a.x < b.x || (a.x == b.x && a.index < b.index)
        }
    }

    fn object_output(&self, object: &Object, color: u8) -> (r: u16)
        requires
            self.wf(),
            color <= 3,
        ensures
            r == self@.object_output(*object, color),
    {
        if self.cgb {
            let a = object.attributes;
            proof {
                crate::bits::lemma_u8_bits(a);
            }
            color_555(&self.ob_palette, object.attributes & OBJ_CGB_PALETTE, color)
        } else {
            let palette = if object.attributes & OBJ_PALETTE_1 == 0 { self.obp0 } else { self.obp1 };
            shade(palette, color) as u16
        }
    }

    /// The final pixel at column `x`, given the line's objects.
    fn pixel(&self, objects: &Vec<Object>, x: usize) -> (r: u16)
        requires
            self.wf(),
            x < SCREEN_WIDTH,
            objects@ == self@.objects_on_line_spec(self@.object_height()),
        ensures
            r == self@.pixel_at(x as int),
    {
        let height: u8 = if self.lcdc & LCDC_OBJ_TALL != 0 { 16 } else { 8 };
        let background = self.bg_pixel(x);
        proof {
            lemma_objects_from(self@, height, 0, Seq::empty());
        }
        let mut best: Option<usize> = None;
        let mut best_color: u8 = 0;
        let mut k: usize = 0;
        while k < objects.len()
            invariant
                self.wf(),
                height == self@.object_height(),
                objects@ == self@.objects_on_line_spec(height),
                x < SCREEN_WIDTH,
                background == self@.bg_pixel_at(x as int),
                k <= objects@.len(),
                forall|j: int| 0 <= j < objects@.len() ==> #[trigger] self@.on_line(objects@[j].index as int, height)
                    && objects@[j].index < 40 && objects@[j] == self@.object_at(objects@[j].index as int),
                (best is None) == (self@.winner(objects@, x as int, height, k as int) is None),
                best is Some ==> best->0 as int == self@.winner(objects@, x as int, height, k as int)->0,
                best is Some ==> best->0 < k && best_color == self@.object_color_spec(objects@[best->0 as int], (x + 8 - objects@[best->0 as int].x) as u8, height),
                best is Some ==> best_color <= 3,
            decreases objects.len() - k,
        {
            let object = &objects[k];
            proof {
                assert(self@.on_line(objects@[k as int].index as int, height));
            }
            if x + 8 >= object.x as usize && x + 8 - (object.x as usize) < 8 {
                let offset = (x + 8 - object.x as usize) as u8;
                let color = self.object_color(object, offset, height);
                if color != 0 && !self.background_wins(object, background) {
                    let better = match best {
                        None => true,
                        Some(b) => self.outranks(object, &objects[b]),
                    };
                    if better {
                        best = Some(k);
                        best_color = color;
                    }
                }
            }
            k = k + 1;
        }
        if self.lcdc & LCDC_OBJ_ENABLED != 0 {
            match best {
                Some(b) => {
                    return self.object_output(&objects[b], best_color);
                },
                None => {},
            }
        }
        self.bg_output(background)
    }

    /// Renders the current line into the framebuffer.
    pub fn render_scanline(&mut self)
        requires
            old(self).wf(),
            old(self).ly < VISIBLE_SCANLINES,
        ensures
            final(self)@ == old(self)@.render_scanline_spec(),
            final(self).wf(),
    {
        let height: u8 = if self.lcdc & LCDC_OBJ_TALL != 0 { 16 } else { 8 };
        let objects = self.objects_on_line(height);
        let mut row: Vec<u16> = Vec::new();
        let mut x: usize = 0;
        while x < SCREEN_WIDTH
            invariant
                self.wf(),
                self.ly < VISIBLE_SCANLINES,
                objects@ == self@.objects_on_line_spec(self@.object_height()),
                x <= SCREEN_WIDTH,
                row@.len() == x,
                forall|j: int| 0 <= j < x ==> row@[j] == self@.pixel_at(j),
            decreases SCREEN_WIDTH - x,
        {
            let p = self.pixel(&objects, x);
            row.push(p);
            x = x + 1;
        }
        let drawn = self.window_drawn();
        let start = self.ly as usize * SCREEN_WIDTH;
        let ghost before = self@;
        let mut i: usize = 0;
        while i < SCREEN_WIDTH
            invariant
                before == old(self)@,
                self@ == (PpuModel { framebuffer: self@.framebuffer, ..before }),
                start == before.ly * SCREEN_WIDTH,
                before.ly < VISIBLE_SCANLINES,
                before.wf(),
                self@.framebuffer.len() == before.framebuffer.len(),
                row@.len() == SCREEN_WIDTH,
                forall|j: int| 0 <= j < SCREEN_WIDTH ==> row@[j] == before.pixel_at(j),
                i <= SCREEN_WIDTH,
                forall|j: int| 0 <= j < self@.framebuffer.len() ==> #[trigger] self@.framebuffer[j] == if start <= j < start + i {
                    before.pixel_at(j - start)
                } else {
                    before.framebuffer[j]
                },
            decreases SCREEN_WIDTH - i,
        {
            self.framebuffer.set(start + i, row[i]);
            i = i + 1;
        }
        if drawn {
            self.window_line = self.window_line.wrapping_add(1);
        }
        assert(self@.framebuffer =~= old(self)@.render_scanline_spec().framebuffer);
        proof {
            lemma_render_keeps_screen_valid(old(self)@);
        }
    }
}

/// The signed tile addressing reaches the 2 KiB below 0x9000 with tiles
/// 0x80..=0xFF, and the unsigned one starts at 0x8000.
pub proof fn law_tile_addressing(lcdc: u8, tile: u8)
    ensures
        lcdc & LCDC_TILE_DATA_UNSIGNED != 0 ==> tile_address_spec(lcdc, tile) == tile * 16,
        lcdc & LCDC_TILE_DATA_UNSIGNED == 0 ==> tile_address_spec(lcdc, tile)
            == 0x1000 + (if tile >= 128 { tile - 256 } else { tile as int }) * 16,
        lcdc & LCDC_TILE_DATA_UNSIGNED == 0 && tile >= 128 ==> 0x0800 <= tile_address_spec(lcdc, tile) < 0x1000,
        lcdc & LCDC_TILE_DATA_UNSIGNED == 0 && tile < 128 ==> 0x1000 <= tile_address_spec(lcdc, tile) < 0x1800,
{
}

/// On the DMG an object pixel of color `c` shows the shade that OBP0 holds
/// for it, or OBP1 when attribute bit 4 is set: bits 2c and 2c + 1.
pub proof fn law_object_palettes(p: PpuModel, object: Object, color: u8)
    requires
        !p.cgb,
        color < 4,
    ensures
        ({
            let palette = if object.attributes & 0x10 == 0 { p.obp0 } else { p.obp1 };
            p.object_output(object, color) as int == (palette as int / (pow2((2 * color) as nat) as int)) % 4
        }),
{
    let palette = if object.attributes & OBJ_PALETTE_1 == 0 { p.obp0 } else { p.obp1 };
    law_palette_shades(palette, color);
}

/// On the DMG, with the background on and the window drawn on this line,
/// the pixel at screen column x >= WX - 7 is the pixel at (x - (WX - 7),
/// window line) of the map that LCDC bit 6 picks, read as the background is.
pub proof fn law_window_pixel(p: PpuModel, x: int)
    requires
        p.wf(),
        !p.cgb,
        p.lcdc & LCDC_BG_ENABLED != 0,
        p.window_drawn(),
        p.window_start() <= x < 160,
    ensures
        ({
            let mx = x - (if p.wx >= 7 { p.wx - 7 } else { 0 });
            let my = p.window_line as int;
            let map: int = if p.lcdc & 0x40 == 0 { 0x1800 } else { 0x1C00 };
            let tile = p.vram[map + (my / 8) * 32 + mx / 8];
            let base = tile_address_spec(p.lcdc, tile) + (my % 8) * 2;
            let scale = pow2((7 - mx % 8) as nat) as int;
            let low = p.vram[base] as int;
            let high = p.vram[base + 1] as int;
            &&& p.bg_pixel_at(x).color == 2 * ((high / scale) % 2) + (low / scale) % 2
            &&& p.bg_pixel_at(x).attributes == 0
        }),
{
    let mx = (x - p.window_start()) as u8;
    let my = p.window_line;
    let map = if p.lcdc & LCDC_WINDOW_MAP_HIGH == 0 { LOW_MAP } else { HIGH_MAP };
    let tile = p.vram[map + (my / 8) * 32 + mx / 8];
    let base = tile_address_spec(p.lcdc, tile) + (my % 8) * 2;
    let bit = (7 - mx % 8) as u8;
    let low = p.vram[base];
    let high = p.vram[base + 1];
    vstd::bits::lemma_u8_shr_is_div(low, bit);
    vstd::bits::lemma_u8_shr_is_div(high, bit);
    crate::bits::lemma_u8_bits(low >> bit);
    crate::bits::lemma_u8_bits(high >> bit);
    crate::bits::lemma_u8_bits(BG_FLIP_Y);
    crate::bits::lemma_u8_bits(BG_FLIP_X);
    crate::bits::lemma_u8_bits(BG_BANK);
    let attributes: u8 = 0;
    assert(attributes & BG_FLIP_Y == 0);
    assert(attributes & BG_FLIP_X == 0);
    assert(attributes & BG_BANK == 0);
    let px = p.tile_pixel_spec(map, mx, my);
    assert(p.bg_pixel_at(x) == px);
    assert(p.vram[(my / 8) * 32 + mx / 8 + map] == tile);
    assert(px.color == plane_color(low, high, bit));
}

/// A DMG palette register holds four 2-bit shades, the one for color 0 in
/// its low bits: color `c` shows bits 2c and 2c + 1.
pub proof fn law_palette_shades(palette: u8, color: u8)
    requires
        color < 4,
    ensures
        shade_spec(palette, color) as int == (palette as int / (pow2((2 * color) as nat) as int)) % 4,
{
    let shift = (color * 2) as u8;
    vstd::bits::lemma_u8_shr_is_div(palette, shift);
    crate::bits::lemma_u8_bits(palette >> shift);
}

/// On the DMG, where the window does not cover it, the background pixel at
/// screen column x of line LY is the pixel at ((x + SCX) mod 256,
/// (LY + SCY) mod 256) of the 256x256 map that LCDC bit 3 picks: the map
/// entry there names the tile, and bit 7 - (column mod 8) of the row's two
/// bytes gives the color, the high plane's bit above the low plane's.
pub proof fn law_scrolled_background(p: PpuModel, x: int)
    requires
        p.wf(),
        !p.cgb,
        p.lcdc & LCDC_BG_ENABLED != 0,
        0 <= x < 160,
        !p.window_drawn() || x < p.window_start(),
    ensures
        ({
            let mx = (x + p.scx) % 256;
            let my = (p.ly + p.scy) % 256;
            let map: int = if p.lcdc & LCDC_BG_MAP_HIGH == 0 { 0x1800 } else { 0x1C00 };
            let tile = p.vram[map + (my / 8) * 32 + mx / 8];
            let base = tile_address_spec(p.lcdc, tile) + (my % 8) * 2;
            let scale = pow2((7 - mx % 8) as nat) as int;
            let low = p.vram[base] as int;
            let high = p.vram[base + 1] as int;
            &&& p.bg_pixel_at(x).color == 2 * ((high / scale) % 2) + (low / scale) % 2
            &&& p.bg_pixel_at(x).attributes == 0
        }),
{
    let mx = ((x + p.scx) % 256) as u8;
    let my = ((p.ly + p.scy) % 256) as u8;
    let map: int = if p.lcdc & LCDC_BG_MAP_HIGH == 0 { 0x1800 } else { 0x1C00 };
    let tile = p.vram[map + (my / 8) * 32 + mx / 8];
    let base = tile_address_spec(p.lcdc, tile) + (my % 8) * 2;
    let bit = (7 - mx % 8) as u8;
    let low = p.vram[base];
    let high = p.vram[base + 1];
    vstd::bits::lemma_u8_shr_is_div(low, bit);
    vstd::bits::lemma_u8_shr_is_div(high, bit);
    crate::bits::lemma_u8_bits(low >> bit);
    crate::bits::lemma_u8_bits(high >> bit);
    let px = p.tile_pixel_spec(if p.lcdc & LCDC_BG_MAP_HIGH == 0 { LOW_MAP } else { HIGH_MAP }, mx, my);
    assert(p.bg_pixel_at(x) == px);
    assert(px.attributes == 0);
    crate::bits::lemma_u8_bits(BG_FLIP_Y);
    crate::bits::lemma_u8_bits(BG_FLIP_X);
    crate::bits::lemma_u8_bits(BG_BANK);
    let attributes: u8 = 0;
    assert(attributes & BG_FLIP_Y == 0);
    assert(attributes & BG_FLIP_X == 0);
    assert(attributes & BG_BANK == 0);
    let entry = (my / 8) * 32 + mx / 8 + (if p.lcdc & LCDC_BG_MAP_HIGH == 0 { LOW_MAP } else { HIGH_MAP });
    assert(p.vram[entry] == tile);
    assert(px.color == plane_color(low, high, bit));
}

/// The game can neither write the STAT mode bits nor LY: STAT reads back the
/// PPU's own mode, and a write to LY changes nothing.
pub proof fn law_stat_mode_and_ly_are_read_only(p: PpuModel, value: u8)
    requires
        p.wf(),
    ensures
        p.write_reg_spec(STAT, value).read_reg_spec(STAT) & 0x03 == p.mode.bits_spec(),
        p.write_reg_spec(STAT, value).read_reg_spec(STAT) & 0x80 != 0,
        p.write_reg_spec(LY, value) == p,
{
    let s = p.stat;
    let m = p.mode.bits_spec();
    assert(s & 0x83 == 0 && m <= 3 ==> (((s & !0x78u8) | (value & 0x78)) | 0x80 | m) & 0x03 == m
        && (((s & !0x78u8) | (value & 0x78)) | 0x80 | m) & 0x80 != 0) by (bit_vector);
}

/// With the LCD off the PPU stands still: LY, the mode and the screen stay as
/// they are and nothing interrupts. The dot clock still runs, and a frame is
/// still reported each time it passes 70224 dots.
pub proof fn law_lcd_off_freezes_but_frames_come(p: PpuModel, t_cycles: u8)
    requires
        p.wf(),
        !p.lcd_on(),
    ensures
        ({
            let (q, raised) = p.tick_spec(t_cycles);
            &&& q.ly == p.ly
            &&& q.mode == p.mode
            &&& q.framebuffer == p.framebuffer
            &&& raised == 0
            &&& (p.dots + t_cycles >= FRAME_DOTS ==> q.frame_ready)
        }),
{
}

/// On the DMG, clearing LCDC bit 0 blanks the background and window: every
/// background pixel is color 0.
pub proof fn law_dmg_background_switch(p: PpuModel, x: int)
    requires
        !p.cgb,
        p.lcdc & LCDC_BG_ENABLED == 0,
    ensures
        p.bg_pixel_at(x) == (BgPixel { color: 0, attributes: 0 }),
{
}

/// On the CGB, LCDC bit 0 never blanks the background; cleared, it only takes
/// the background's priority away, so objects always show over it.
pub proof fn law_cgb_background_switch(p: PpuModel, object: Object, background: BgPixel)
    requires
        p.cgb,
        p.lcdc & LCDC_BG_ENABLED == 0,
    ensures
        p.background_on(),
        !p.background_wins_spec(object, background),
{
}

/// Without flips, an object's columns run left to right from the most
/// significant bit of its tile row: column `offset` shows bit `7 - offset` of
/// the low plane under the same bit of the high plane.
pub proof fn law_object_columns_run_left_to_right(p: PpuModel, object: Object, offset: u8)
    requires
        !p.cgb,
        offset < 8,
        object.attributes & OBJ_FLIP_X == 0,
        object.attributes & OBJ_FLIP_Y == 0,
        object.top <= p.ly < object.top + 8,
    ensures
        ({
            let base: int = object.tile * 16 + (p.ly - object.top) * 2;
            let scale: nat = pow2((7 - offset) as nat);
            let low: nat = p.vram[base] as nat;
            let high: nat = p.vram[base + 1] as nat;
            p.object_color_spec(object, offset, 8) == 2 * ((high / scale) % 2) + (low / scale) % 2
        }),
{
    let base: int = object.tile * 16 + (p.ly - object.top) * 2;
    let bit: u8 = (7 - offset) as u8;
    let low: u8 = p.vram[base];
    let high: u8 = p.vram[base + 1];
    vstd::bits::lemma_u8_shr_is_div(low, bit);
    vstd::bits::lemma_u8_shr_is_div(high, bit);
    crate::bits::lemma_u8_bits(low >> bit);
    crate::bits::lemma_u8_bits(high >> bit);
}

/// Attribute bit 5 mirrors an object: with it set, column `offset` shows what
/// the same object without it shows at column `7 - offset`.
pub proof fn law_object_x_flip_mirrors(p: PpuModel, plain: Object, flipped: Object, offset: u8, height: u8)
    requires
        offset < 8,
        plain.attributes & OBJ_FLIP_X == 0,
        flipped.attributes & OBJ_FLIP_X != 0,
        flipped.attributes & OBJ_FLIP_Y == plain.attributes & OBJ_FLIP_Y,
        flipped.attributes & OBJ_BANK == plain.attributes & OBJ_BANK,
        flipped == (Object { attributes: flipped.attributes, ..plain }),
    ensures
        p.object_color_spec(flipped, offset, height) == p.object_color_spec(plain, (7 - offset) as u8, height),
{
}

/// Attribute bit 6 flips an object upside down: with it set, an object shows
/// on line `top + r` what the same object without it shows on line
/// `top + height - 1 - r`.
pub proof fn law_object_y_flip_mirrors(p: PpuModel, mirrored_ly: u8, plain: Object, flipped: Object, offset: u8, height: u8)
    requires
        offset < 8,
        height == 8 || height == 16,
        plain.top <= p.ly < plain.top + height,
        mirrored_ly == plain.top + plain.top + height - 1 - p.ly,
        plain.attributes & OBJ_FLIP_Y == 0,
        flipped.attributes & OBJ_FLIP_Y != 0,
        flipped.attributes & OBJ_FLIP_X == plain.attributes & OBJ_FLIP_X,
        flipped.attributes & OBJ_BANK == plain.attributes & OBJ_BANK,
        flipped == (Object { attributes: flipped.attributes, ..plain }),
    ensures
        p.object_color_spec(flipped, offset, height)
            == (PpuModel { ly: mirrored_ly, ..p }).object_color_spec(plain, offset, height),
{
}

/// Color 0 of the background never hides an object, on either model.
pub proof fn law_background_color_0_is_transparent(p: PpuModel, object: Object, background: BgPixel)
    requires
        background.color == 0,
    ensures
        !p.background_wins_spec(object, background),
{
}

/// Whether OAM index `index` is among the objects `objects`.
pub open spec fn picked(objects: Seq<Object>, index: int) -> bool {
    exists|j: int| 0 <= j < objects.len() && objects[j].index == index
}

proof fn lemma_object_scan(m: PpuModel, height: u8, i: int, found: Seq<Object>)
    requires
        0 <= i <= 40,
        found.len() <= OBJECTS_PER_LINE,
        forall|j: int, k: int| 0 <= j < k < found.len() ==> found[j].index < found[k].index,
        forall|j: int| 0 <= j < found.len() ==> found[j].index < i,
    ensures
        ({
            let r = m.objects_from(height, i, found);
            &&& found.is_prefix_of(r)
            &&& forall|j: int, k: int| 0 <= j < k < r.len() ==> r[j].index < r[k].index
            &&& forall|idx: int|
                i <= idx < 40 && #[trigger] m.on_line(idx, height) && (r.len() < OBJECTS_PER_LINE
                    || idx < r[r.len() - 1].index) ==> picked(r, idx)
        }),
    decreases 40 - i,
{
    let r = m.objects_from(height, i, found);
    if i >= 40 || found.len() >= OBJECTS_PER_LINE {
        assert forall|idx: int|
            i <= idx < 40 && #[trigger] m.on_line(idx, height) && (r.len() < OBJECTS_PER_LINE
                || idx < r[r.len() - 1].index) implies picked(r, idx) by {
            assert(r[r.len() - 1].index < i);
        }
    } else if m.on_line(i, height) {
        let f2 = found.push(m.object_at(i));
        lemma_object_scan(m, height, i + 1, f2);
        assert(found.is_prefix_of(r)) by {
            assert(f2.is_prefix_of(r));
        }
        assert forall|idx: int|
            i <= idx < 40 && #[trigger] m.on_line(idx, height) && (r.len() < OBJECTS_PER_LINE
                || idx < r[r.len() - 1].index) implies picked(r, idx) by {
            if idx == i {
                assert(r[found.len() as int] == f2[found.len() as int]);
                assert(r[found.len() as int].index == i);
            }
        }
    } else {
        lemma_object_scan(m, height, i + 1, found);
    }
}

/// The objects a line shows are found by scanning OAM from index 0: at most
/// ten, in increasing OAM index, each on the line; and no object on the line
/// is passed over, unless ten were found before it.
pub proof fn law_object_scan(m: PpuModel, height: u8)
    requires
        m.wf(),
    ensures
        ({
            let r = m.objects_on_line_spec(height);
            &&& r.len() <= OBJECTS_PER_LINE
            &&& forall|j: int| 0 <= j < r.len() ==> #[trigger] m.on_line(r[j].index as int, height)
                && r[j] == m.object_at(r[j].index as int)
            &&& forall|j: int, k: int| 0 <= j < k < r.len() ==> r[j].index < r[k].index
            &&& forall|idx: int|
                0 <= idx < 40 && #[trigger] m.on_line(idx, height) && (r.len() < OBJECTS_PER_LINE
                    || idx < r[r.len() - 1].index) ==> picked(r, idx)
        }),
{
    lemma_objects_from(m, height, 0, Seq::empty());
    lemma_object_scan(m, height, 0, Seq::empty());
}

/// Rendering a line writes exactly its own row of 160 pixels, each the pixel
/// the line shows in that column; every other row of the screen stays. So
/// rendering lines 0 to 143 in turn fills each row with its own line.
pub proof fn law_render_writes_only_its_row(p: PpuModel, i: int)
    requires
        p.wf(),
        0 <= i < p.framebuffer.len(),
    ensures
        p.ly * 160 <= i < p.ly * 160 + 160 ==> p.render_scanline_spec().framebuffer[i] == p.pixel_at(i - p.ly * 160),
        !(p.ly * 160 <= i < p.ly * 160 + 160) ==> p.render_scanline_spec().framebuffer[i] == p.framebuffer[i],
        p.render_scanline_spec().framebuffer.len() == p.framebuffer.len(),
        p.render_scanline_spec().ly == p.ly,
{
}

/// Lines 0 to `n - 1` rendered in turn, each with LY set to it.
pub open spec fn render_lines(p: PpuModel, n: nat) -> PpuModel
    decreases n, 0nat,
{
    if n == 0 {
        p
    } else {
        line_state(p, (n - 1) as nat).render_scanline_spec()
    }
}

/// The PPU as line `k` is rendered: after lines 0 to `k - 1`, LY at `k`.
pub open spec fn line_state(p: PpuModel, k: nat) -> PpuModel
    decreases k, 1nat,
{
    PpuModel { ly: k as u8, ..render_lines(p, k) }
}

/// Rendering lines 0 to 143 in turn fills each row with its own line: after
/// `n` lines, pixel `x` of row `r < n` is what line `r` showed in column `x`,
/// and the rows below are as they were.
pub proof fn law_rendering_a_frame_fills_each_row(p: PpuModel, n: nat, r: int, x: int)
    requires
        p.framebuffer.len() == SCREEN_WIDTH * SCREEN_HEIGHT,
        n <= 144,
        0 <= x < 160,
    ensures
        render_lines(p, n).framebuffer.len() == p.framebuffer.len(),
        0 <= r < n ==> render_lines(p, n).framebuffer[r * 160 + x] == line_state(p, r as nat).pixel_at(x),
        n <= r < 144 ==> render_lines(p, n).framebuffer[r * 160 + x] == p.framebuffer[r * 160 + x],
    decreases n,
{
    if n > 0 {
        law_rendering_a_frame_fills_each_row(p, (n - 1) as nat, r, x);
        let q = line_state(p, (n - 1) as nat);
        assert(q.ly == n - 1);
        assert(render_lines(p, n) == q.render_scanline_spec());
        if 0 <= r < n - 1 || n <= r < 144 {
            assert(r * 160 + x < (n - 1) * 160 || r * 160 + x >= n * 160) by (nonlinear_arith)
                requires
                    0 <= r < n - 1 || n <= r < 144,
                    0 <= x < 160,
                    n >= 1;
        } else if r == n - 1 {
            assert((n - 1) * 160 <= r * 160 + x < (n - 1) * 160 + 160);
        }
        assert(r * 160 + x < 23040 || !(0 <= r < 144)) by (nonlinear_arith)
            requires
                0 <= x < 160;
    }
}

/// Switching the LCD off or on restarts the frame at the top: LY 0, HBlank, dot 0.
pub proof fn law_lcd_switch_restarts_the_frame(p: PpuModel, value: u8)
    requires
        p.lcd_on() != (value & LCDC_ENABLED != 0),
    ensures
        p.write_reg_spec(LCDC, value).ly == 0,
        p.write_reg_spec(LCDC, value).mode == Mode::HBlank,
        p.write_reg_spec(LCDC, value).dots == 0,
        p.write_reg_spec(LCDC, value).lcd_on() == (value & LCDC_ENABLED != 0),
{
}

/// The pixel an object puts on a line comes from the top-ranked object that
/// paints it: no object that paints the column outranks the winner.
pub proof fn law_winner_outranks_every_painter(p: PpuModel, objects: Seq<Object>, x: int, height: u8, k: int)
    requires
        0 <= k <= objects.len(),
        forall|i: int, j: int| 0 <= i < objects.len() && 0 <= j < objects.len() && i != j ==> objects[i].index != objects[j].index,
    ensures
        p.winner(objects, x, height, k) matches Some(w) ==> {
            &&& 0 <= w < k
            &&& p.paints(objects[w], x, height)
            &&& forall|j: int| 0 <= j < k && j != w && p.paints(objects[j], x, height) ==> !p.outranks(objects[j], objects[w])
        },
        p.winner(objects, x, height, k) is None ==> forall|j: int| 0 <= j < k ==> !p.paints(objects[j], x, height),
    decreases k,
{
    if k > 0 {
        law_winner_outranks_every_painter(p, objects, x, height, k - 1);
    }
}

} // verus!
