use vstd::prelude::*;
use crate::mimesys::common::timed::Timed;
use crate::mimesys::gameboy::gb_common::GbVariant;
use crate::mimesys::gameboy::gb_palette::DmgPaletteSet;

verus! {

/// Bytes in one RGBA frame: 160 x 144 pixels of four bytes.
pub const FRAME_BYTES: usize = 92160;

/// The Game Boy picture processor: LCD registers, VRAM and OAM, the
/// mode state machine that walks the dots of a frame, and the renderer that
/// draws each line into the back buffer. When a frame is done the back and
/// front buffers swap and `frame_published` is raised.
pub struct GbPPU {
    pub hardware: GbVariant,
    pub cgb_mode: bool,
    pub last_master: u64,
    pub ticks: u64,
    pub dot: u64,
    pub div: u64,
    pub pending_irqs: u8,
    pub current_mode: u8,
    pub window_line_counter: u8,
    pub lcdc: u8,
    pub scy: u8,
    pub scx: u8,
    pub bgp: u8,
    pub wx: u8,
    pub wy: u8,
    pub obp0: u8,
    pub obp1: u8,
    pub stat: u8,
    pub lyc: u8,
    pub ly: u8,
    pub vram: Vec<u8>,
    pub oam: [u8; 160],
    pub scanline_bg_indices: [u8; 160],
    pub scanline_bg_priority: [bool; 160],
    /// The frame being drawn.
    pub back_buffer: Vec<u8>,
    /// The last completed frame.
    pub front_buffer: Vec<u8>,
    pub frame_published: bool,
    pub slice_complete: bool,
    pub active_palette: DmgPaletteSet,
    pub hdma_pending: bool,
    pub vbk: u8,
    pub bgpi: u8,
    pub obpi: u8,
    pub bgpd: [u8; 64],
    pub obpd: [u8; 64],
}

/// The byte offset of pixel (`x`, `y`) in a frame.
pub open spec fn px(y: int, x: int) -> int {
    (y * 160 + x) * 4
}

/// `buf` holds the RGBA bytes `r`, `g`, `b`, 0xFF at pixel (`x`, `y`).
pub open spec fn pixel_is(buf: Seq<u8>, y: int, x: int, r: u8, g: u8, b: u8) -> bool {
    &&& buf[px(y, x)] == r
    &&& buf[px(y, x) + 1] == g
    &&& buf[px(y, x) + 2] == b
    &&& buf[px(y, x) + 3] == 0xFF
}

/// Pixel (`x`, `y`) is the same in `a` and `b`.
pub open spec fn pixel_same(a: Seq<u8>, b: Seq<u8>, y: int, x: int) -> bool {
    &&& a[px(y, x)] == b[px(y, x)]
    &&& a[px(y, x) + 1] == b[px(y, x) + 1]
    &&& a[px(y, x) + 2] == b[px(y, x) + 2]
    &&& a[px(y, x) + 3] == b[px(y, x) + 3]
}

/// `a` and `b` agree outside line `y`.
pub open spec fn same_off_line(a: Seq<u8>, b: Seq<u8>, y: int) -> bool {
    &&& a.len() == b.len()
    &&& forall|i: int| 0 <= i < a.len() && !(px(y, 0) <= i < px(y, 160)) ==> #[trigger] a[i] == b[i]
}

/// The 24-bit color `c` split into its red, green and blue bytes.
pub open spec fn rgb_of(c: u32) -> (u8, u8, u8) {
    (((c >> 16u32) & 0xFF) as u8, ((c >> 8u32) & 0xFF) as u8, (c & 0xFF) as u8)
}

/// A 5-bit channel widened to 8 bits.
pub open spec fn widen5(c: u8) -> u8 {
    (c << 3u8) | (c >> 2u8)
}

/// The color a CGB palette RAM holds for palette `pal`, entry `idx`.
pub open spec fn cgb_color(data: Seq<u8>, pal: u8, idx: u8) -> (u8, u8, u8) {
    let base = pal * 8 + idx * 2;
    let rgb555 = data[base] as u16 | ((data[base + 1] as u16) << 8u16);
    (
        widen5((rgb555 & 0x1F) as u8),
        widen5(((rgb555 >> 5u16) & 0x1F) as u8),
        widen5(((rgb555 >> 10u16) & 0x1F) as u8),
    )
}

/// The DMG color of shade index `idx` through palette register `reg`.
pub open spec fn dmg_color(colors: Seq<u32>, reg: u8, idx: u8) -> u32 {
    colors[((reg >> (idx * 2) as u8) & 0x03) as int]
}

/// Where tile `id`'s data starts in VRAM: 16 bytes a tile, from $8000 for
/// unsigned indexing (LCDC bit 4) or around $9000 for signed indexing.
pub open spec fn tile_data_spec(lcdc: u8, id: u8) -> u16 {
    if lcdc & 0x10 != 0 {
        (id as int * 16) as u16
    } else {
        (0x1000 + (id as i8) as int * 16) as u16
    }
}

/// The color index (0-3) of a pixel from the two bit planes of a tile line.
pub open spec fn plane_color(byte1: u8, byte2: u8, bit: u8) -> u8 {
    (((byte2 >> bit) & 0x01) << 1u8) | ((byte1 >> bit) & 0x01)
}

/// The sprites on line `ly` among OAM entries `0..n`: at most ten, in OAM
/// order.
pub open spec fn visible_upto(oam: Seq<u8>, ly: u8, height: int, n: int) -> Seq<usize>
    decreases n,
{
    if n <= 0 {
        seq![]
    } else {
        let prev = visible_upto(oam, ly, height, n - 1);
        let y = oam[(n - 1) * 4] as int;
        if prev.len() < 10 && ly + 16 >= y && ly + 16 < y + height {
            prev.push((n - 1) as usize)
        } else {
            prev
        }
    }
}

/// The sprites among the first `k` of `sel` whose X coordinate is `x`, in
/// `sel` order.
pub open spec fn with_x(sel: Seq<usize>, oam: Seq<u8>, x: int, k: int) -> Seq<usize>
    decreases k,
{
    if k <= 0 {
        seq![]
    } else {
        let prev = with_x(sel, oam, x, k - 1);
        if oam[sel[k - 1] * 4 + 1] == x {
            prev.push(sel[k - 1])
        } else {
            prev
        }
    }
}

/// `sel` ordered by X coordinate below `x`, ties kept in `sel` order.
pub open spec fn by_x(sel: Seq<usize>, oam: Seq<u8>, x: int) -> Seq<usize>
    decreases x,
{
    if x <= 0 {
        seq![]
    } else {
        by_x(sel, oam, x - 1) + with_x(sel, oam, x - 1, sel.len() as int)
    }
}

impl GbPPU {
    pub open spec fn wf(self) -> bool {
        &&& self.vram.len() == (if self.cgb_mode { 16384int } else { 8192int })
        &&& self.back_buffer.len() == FRAME_BYTES
        &&& self.front_buffer.len() == FRAME_BYTES
        &&& self.div > 0
        &&& self.current_mode <= 3
        &&& (self.current_mode != 1 ==> self.ly < 144)
        &&& (self.current_mode == 1 ==> 144 <= self.ly <= 153)
    }

    /// The PPU after entering mode `m`: STAT's mode bits, an HBlank HDMA
    /// request when a visible line's drawing ends, and the STAT interrupt
    /// when the new mode's source is enabled.
    pub open spec fn with_mode(self, m: u8) -> Self {
        let stat = (self.stat & 0xFC) | (m & 0x03);
        let hdma = if m == 0 && self.current_mode != 0 && self.ly < 144 { true } else { self.hdma_pending };
        let trigger = (m == 0 && stat & 0x08 != 0) || (m == 1 && stat & 0x10 != 0) || (m == 2 && stat & 0x20 != 0);
        GbPPU {
            current_mode: m,
            stat,
            hdma_pending: hdma,
            pending_irqs: if trigger { self.pending_irqs | 0x02 } else { self.pending_irqs },
            ..self
        }
    }

    /// The PPU after the LY = LYC comparison: STAT bit 2, and the STAT
    /// interrupt on a match when its source is enabled.
    pub open spec fn with_coincidence(self) -> Self {
        if self.ly == self.lyc {
            let stat = self.stat | 0x04;
            GbPPU {
                stat,
                pending_irqs: if stat & 0x40 != 0 { self.pending_irqs | 0x02 } else { self.pending_irqs },
                ..self
            }
        } else {
            GbPPU { stat: self.stat & !0x04u8, ..self }
        }
    }

    /// What a CPU read of register `addr` returns.
    pub open spec fn register_value(self, addr: u16) -> u8 {
        if addr == 0xFF40 {
            self.lcdc
        } else if addr == 0xFF41 {
            self.stat | 0x80
        } else if addr == 0xFF42 {
            self.scy
        } else if addr == 0xFF43 {
            self.scx
        } else if addr == 0xFF44 {
            self.ly
        } else if addr == 0xFF45 {
            self.lyc
        } else if addr == 0xFF47 {
            self.bgp
        } else if addr == 0xFF48 {
            self.obp0
        } else if addr == 0xFF49 {
            self.obp1
        } else if addr == 0xFF4A {
            self.wy
        } else if addr == 0xFF4B {
            self.wx
        } else if addr == 0xFF4F {
            if self.hardware == GbVariant::Cgb { self.vbk | 0xFE } else { 0xFF }
        } else if addr == 0xFF68 {
            if self.cgb_mode { self.bgpi | 0x40 } else { 0xFF }
        } else if addr == 0xFF69 {
            if self.cgb_mode { self.bgpd@[(self.bgpi & 0x3F) as int] } else { 0xFF }
        } else if addr == 0xFF6A {
            if self.cgb_mode { self.obpi | 0x40 } else { 0xFF }
        } else if addr == 0xFF6B {
            if self.cgb_mode { self.obpd@[(self.obpi & 0x3F) as int] } else { 0xFF }
        } else {
            0xFF
        }
    }

    /// The PPU `t` after a CPU write of `v` to register `addr`.
    pub open spec fn after_write(self, t: Self, addr: u16, v: u8) -> bool {
        if addr == 0xFF40 {
            let was_on = self.lcdc & 0x80 != 0;
            let on = v & 0x80 != 0;
            let s1 = GbPPU { lcdc: v, ..self };
            if !was_on && on {
                t == (GbPPU { dot: 2, ..(GbPPU { ly: 0, window_line_counter: 0, ..s1 }).with_mode(2).with_coincidence() })
            } else if was_on && !on {
                t == (GbPPU { dot: 0, ly: 0, current_mode: 0, stat: s1.stat & 0xFC, ..s1 })
            } else {
                t == s1
            }
        } else if addr == 0xFF41 {
            t == (GbPPU { stat: (self.stat & 0x07) | (v & 0x78), ..self })
        } else if addr == 0xFF42 {
            t == (GbPPU { scy: v, ..self })
        } else if addr == 0xFF43 {
            t == (GbPPU { scx: v, ..self })
        } else if addr == 0xFF45 {
            t == (GbPPU { lyc: v, ..self }).with_coincidence()
        } else if addr == 0xFF47 {
            t == (GbPPU { bgp: v, ..self })
        } else if addr == 0xFF48 {
            t == (GbPPU { obp0: v, ..self })
        } else if addr == 0xFF49 {
            t == (GbPPU { obp1: v, ..self })
        } else if addr == 0xFF4A {
            t == (GbPPU { wy: v, ..self })
        } else if addr == 0xFF4B {
            t == (GbPPU { wx: v, ..self })
        } else if addr == 0xFF68 {
            t == (GbPPU { bgpi: v, ..self })
        } else if addr == 0xFF69 {
            let idx = self.bgpi & 0x3F;
            &&& t.bgpd@ == self.bgpd@.update(idx as int, v)
            &&& t == (GbPPU {
                bgpd: t.bgpd,
                bgpi: if self.bgpi & 0x80 != 0 { 0x80u8 | ((idx + 1) % 64) as u8 } else { self.bgpi },
                ..self
            })
        } else if addr == 0xFF6A {
            t == (GbPPU { obpi: v, ..self })
        } else if addr == 0xFF6B {
            let idx = self.obpi & 0x3F;
            &&& t.obpd@ == self.obpd@.update(idx as int, v)
            &&& t == (GbPPU {
                obpd: t.obpd,
                obpi: if self.obpi & 0x80 != 0 { 0x80u8 | ((idx + 1) % 64) as u8 } else { self.obpi },
                ..self
            })
        } else if addr == 0xFF4F {
            t == (GbPPU { vbk: v & 0x01, ..self })
        } else {
            t == self
        }
    }

    /// The PPU `t` after one dot from `self` (the dot counter already
    /// advanced): the mode state machine of the LCD, drawing a line at the
    /// end of mode 3 and publishing the frame when line 144 begins.
    pub open spec fn dot_stepped(self, t: Self) -> bool {
        if self.lcdc & 0x80 == 0 {
            self.lcd_off_step(t)
        } else if self.current_mode == 0 {
            self.hblank_step(t)
        } else if self.current_mode == 1 {
            self.vblank_step(t)
        } else if self.current_mode == 2 {
            if self.dot >= 80 {
                t == (GbPPU { dot: (self.dot - 80) as u64, ..self }).with_mode(3)
            } else {
                t == self
            }
        } else if self.current_mode == 3 {
            self.drawing_step(t)
        } else {
            t == self
        }
    }

    /// A dot with the LCD off: mode 0 on line 0, a slice every 70224 dots.
    pub open spec fn lcd_off_step(self, t: Self) -> bool {
        let wrap = self.dot >= 70224;
        t == (GbPPU {
            current_mode: 0,
            ly: 0,
            stat: self.stat & 0xFC,
            dot: if wrap { (self.dot - 70224) as u64 } else { self.dot },
            slice_complete: self.slice_complete || wrap,
            ..self
        })
    }

    /// A dot in HBlank: after 204 the next line starts, and line 144 starts
    /// VBlank, raises its interrupt and publishes the frame.
    pub open spec fn hblank_step(self, t: Self) -> bool {
        if self.dot >= 204 {
            let s1 = (GbPPU { dot: (self.dot - 204) as u64, ly: self.ly.wrapping_add(1), ..self }).with_coincidence();
            let s2 = if s1.lcdc & 0x20 != 0 && s1.ly >= s1.wy && s1.wx <= 166 {
                GbPPU { window_line_counter: s1.window_line_counter.wrapping_add(1), ..s1 }
            } else {
                s1
            };
            if s2.ly == 144 {
                let s3 = s2.with_mode(1);
                t == (GbPPU {
                    pending_irqs: s3.pending_irqs | 0x01,
                    back_buffer: s3.front_buffer,
                    front_buffer: s3.back_buffer,
                    frame_published: true,
                    ..s3
                })
            } else {
                t == s2.with_mode(2)
            }
        } else {
            t == self
        }
    }

    /// A dot in VBlank: after 456 the next line, and after line 153 a new
    /// frame in mode 2 and the end of the slice.
    pub open spec fn vblank_step(self, t: Self) -> bool {
        if self.dot >= 456 {
            let s1 = (GbPPU { dot: (self.dot - 456) as u64, ly: self.ly.wrapping_add(1), ..self }).with_coincidence();
            let s2 = GbPPU { window_line_counter: 0, ..s1 };
            if s2.ly > 153 {
                t == (GbPPU { ly: 0, slice_complete: true, ..s2 }).with_mode(2)
            } else {
                t == s2
            }
        } else {
            t == self
        }
    }

    /// A dot in mode 3: after 172 the line is drawn and HBlank begins.
    pub open spec fn drawing_step(self, t: Self) -> bool {
        if self.dot >= 172 {
            exists|u: GbPPU, w: GbPPU|
                #![trigger (GbPPU { dot: (self.dot - 172) as u64, ..self }).bg_drawn(u), u.sprites_drawn(w)]
                (GbPPU { dot: (self.dot - 172) as u64, ..self }).bg_drawn(u) && u.sprites_drawn(w) && t == w.with_mode(0)
        } else {
            t == self
        }
    }

    /// The PPU with its clocks advanced by one dot.
    pub open spec fn dot_advanced(self) -> Self {
        GbPPU { ticks: (self.ticks + 1) as u64, dot: self.dot.wrapping_add(1), ..self }
    }

    /// The first column of the window on screen (WX - 7, at least 0).
    pub open spec fn win_x(self) -> u8 {
        if self.wx >= 7 { (self.wx - 7) as u8 } else { 0 }
    }

    /// Whether pixel `x` of the current line comes from the window.
    pub open spec fn is_win_pixel(self, x: u8) -> bool {
        self.lcdc & 0x20 != 0 && self.ly >= self.wy && x >= self.win_x()
    }

    /// Whether pixel `x` is blank white: DMG with both layers off there.
    pub open spec fn bg_blank(self, x: u8) -> bool {
        !self.cgb_mode && !self.is_win_pixel(x) && self.lcdc & 0x01 == 0
    }

    /// The VRAM offset of the tile-map entry behind pixel `x`.
    pub open spec fn tile_id_addr(self, x: u8) -> int {
        let win = self.is_win_pixel(x);
        let bit: u8 = if win { 0x40 } else { 0x08 };
        let base: int = if self.lcdc & bit != 0 { 0x1C00 } else { 0x1800 };
        let fetch_x: u8 = if win { (x - self.win_x()) as u8 } else { x.wrapping_add(self.scx) };
        let fetch_y: u8 = if win { self.window_line_counter } else { self.ly.wrapping_add(self.scy) };
        base + (fetch_y / 8) as int * 32 + (fetch_x / 8) as int
    }

    /// The background or window pixel `x` of the current line: its color
    /// index, its BG-priority bit, and its RGB color.
    pub open spec fn bg_pixel(self, x: u8) -> (u8, bool, (u8, u8, u8)) {
        let win = self.is_win_pixel(x);
        let fetch_x: u8 = if win { (x - self.win_x()) as u8 } else { x.wrapping_add(self.scx) };
        let fetch_y: u8 = if win { self.window_line_counter } else { self.ly.wrapping_add(self.scy) };
        let id_addr = self.tile_id_addr(x);
        let tile_id = self.vram@[id_addr];
        let attr: u8 = if self.cgb_mode { self.vram@[0x2000 + id_addr] } else { 0 };
        let bank: int = if attr & 0x08 != 0 { 0x2000 } else { 0 };
        let line: u8 = if attr & 0x40 != 0 { (7 - fetch_y % 8) as u8 } else { fetch_y % 8 };
        let data = bank + tile_data_spec(self.lcdc, tile_id) as int + line as int * 2;
        let bit: u8 = if attr & 0x20 != 0 { fetch_x % 8 } else { (7 - fetch_x % 8) as u8 };
        let idx = plane_color(self.vram@[data], self.vram@[data + 1], bit);
        let rgb = if self.cgb_mode {
            cgb_color(self.bgpd@, attr & 0x07, idx)
        } else {
            rgb_of(dmg_color(self.active_palette.bg@, self.bgp, idx))
        };
        (idx, attr & 0x80 != 0, rgb)
    }

    /// The line's background is drawn into `t`: each pixel as `bg_pixel`
    /// says (white when blank), the color indices and priorities recorded.
    pub open spec fn bg_drawn(self, t: Self) -> bool {
        &&& t == (GbPPU {
            back_buffer: t.back_buffer,
            scanline_bg_indices: t.scanline_bg_indices,
            scanline_bg_priority: t.scanline_bg_priority,
            ..self
        })
        &&& same_off_line(self.back_buffer@, t.back_buffer@, self.ly as int)
        &&& forall|x: u8| x < 160 ==> #[trigger] self.bg_px_done(t, x)
    }

    /// Pixel `x` of the current line in `t` is what the background pass
    /// leaves there.
    pub open spec fn bg_px_done(self, t: Self, x: u8) -> bool {
        let (idx, prio, rgb) = self.bg_pixel(x);
        if self.bg_blank(x) {
            &&& pixel_is(t.back_buffer@, self.ly as int, x as int, 0xFF, 0xFF, 0xFF)
            &&& t.scanline_bg_indices@[x as int] == self.scanline_bg_indices@[x as int]
            &&& t.scanline_bg_priority@[x as int] == self.scanline_bg_priority@[x as int]
        } else {
            &&& pixel_is(t.back_buffer@, self.ly as int, x as int, rgb.0, rgb.1, rgb.2)
            &&& t.scanline_bg_indices@[x as int] == idx
            &&& t.scanline_bg_priority@[x as int] == prio
        }
    }

    /// Pixel `x` of the current line is as in `self`.
    pub open spec fn bg_px_kept(self, t: Self, x: u8) -> bool {
        &&& pixel_same(t.back_buffer@, self.back_buffer@, self.ly as int, x as int)
        &&& t.scanline_bg_indices@[x as int] == self.scanline_bg_indices@[x as int]
        &&& t.scanline_bg_priority@[x as int] == self.scanline_bg_priority@[x as int]
    }

    /// Sprite height: 16 with LCDC bit 2, else 8.
    pub open spec fn sprite_height(self) -> int {
        if self.lcdc & 0x04 != 0 { 16 } else { 8 }
    }

    /// The sprites drawn on the current line, in drawing priority: the
    /// first ten in OAM order that cover it, ordered by X (ties by OAM
    /// index) on DMG, in OAM order on CGB.
    pub open spec fn line_sprites(self) -> Seq<usize> {
        let sel = visible_upto(self.oam@, self.ly, self.sprite_height(), 40);
        if self.cgb_mode { sel } else { by_x(sel, self.oam@, 256) }
    }

    /// The VRAM offset of the tile line that OAM entry `i` shows on the
    /// current line.
    pub open spec fn sprite_data_addr(self, i: usize) -> int {
        let base = i * 4;
        let y = self.oam@[base as int] as int;
        let tile_id = self.oam@[base + 2];
        let attr = self.oam@[base + 3];
        let raw = self.ly + 16 - y;
        let y_flip = attr & 0x40 != 0;
        let addr = if self.sprite_height() == 16 {
            let t = tile_id & 0xFE;
            let (num, line): (int, int) = if !y_flip {
                if raw < 8 { (t as int, raw) } else { (t + 1, raw - 8) }
            } else {
                if raw < 8 { (t + 1, 7 - raw) } else { (t as int, 7 - (raw - 8)) }
            };
            num * 16 + line * 2
        } else {
            let line = if y_flip { 7 - raw } else { raw };
            tile_id * 16 + line * 2
        };
        addr + (if self.cgb_mode && attr & 0x08 != 0 { 0x2000int } else { 0 })
    }

    /// The color index of OAM entry `i` at screen column `sx` (0 where it
    /// does not cover `sx`, and for its transparent color).
    pub open spec fn sprite_pixel(self, i: usize, sx: int) -> u8 {
        let base = i * 4;
        let dx = sx - (self.oam@[base + 1] - 8);
        let attr = self.oam@[base + 3];
        let y = self.oam@[base as int] as int;
        if self.ly + 16 >= y && self.ly + 16 < y + self.sprite_height() && 0 <= dx < 8 {
            let bit: u8 = if attr & 0x20 != 0 { dx as u8 } else { (7 - dx) as u8 };
            let a = self.sprite_data_addr(i);
            plane_color(self.vram@[a], self.vram@[a + 1], bit)
        } else {
            0
        }
    }

    /// Whether sprite pixel `sx` of OAM entry `i` hides behind the
    /// background.
    pub open spec fn sprite_hidden(self, i: usize, sx: int) -> bool {
        let attr = self.oam@[i * 4 + 3];
        let bg_idx = self.scanline_bg_indices@[sx];
        if self.cgb_mode {
            self.lcdc & 0x01 != 0 && bg_idx != 0 && (self.scanline_bg_priority@[sx] || attr & 0x80 != 0)
        } else {
            attr & 0x80 != 0 && bg_idx != 0
        }
    }

    /// The RGB color of sprite pixel `sx` of OAM entry `i`.
    pub open spec fn sprite_rgb(self, i: usize, sx: int) -> (u8, u8, u8) {
        let attr = self.oam@[i * 4 + 3];
        let idx = self.sprite_pixel(i, sx);
        if self.cgb_mode {
            cgb_color(self.obpd@, attr & 0x07, idx)
        } else if attr & 0x10 != 0 {
            rgb_of(dmg_color(self.active_palette.obp1@, self.obp1, idx))
        } else {
            rgb_of(dmg_color(self.active_palette.obp0@, self.obp0, idx))
        }
    }

    /// The first of `sprites[0..k]` with an opaque pixel at `sx`.
    pub open spec fn first_opaque(self, sprites: Seq<usize>, sx: int, k: int) -> Option<int>
        decreases k,
    {
        if k <= 0 {
            None
        } else {
            match self.first_opaque(sprites, sx, k - 1) {
                Some(j) => Some(j),
                None => if self.sprite_pixel(sprites[k - 1], sx) != 0 { Some(k - 1) } else { None },
            }
        }
    }

    /// Column `sx` after the first `k` sprites of `sprites` were drawn into
    /// `t`, with `claimed` marking the columns a sprite already owns.
    pub open spec fn spr_px_ok(self, t: Self, claimed: Seq<bool>, sprites: Seq<usize>, sx: int, k: int) -> bool {
        &&& claimed[sx] == (self.first_opaque(sprites, sx, k) is Some)
        &&& match self.first_opaque(sprites, sx, k) {
            Some(j) => if self.sprite_hidden(sprites[j], sx) {
                pixel_same(t.back_buffer@, self.back_buffer@, self.ly as int, sx)
            } else {
                let rgb = self.sprite_rgb(sprites[j], sx);
                pixel_is(t.back_buffer@, self.ly as int, sx, rgb.0, rgb.1, rgb.2)
            },
            None => pixel_same(t.back_buffer@, self.back_buffer@, self.ly as int, sx),
        }
    }

    /// The line's sprites are drawn into `t`: at each column the first
    /// sprite in priority order with an opaque pixel there owns it, and is
    /// drawn unless the background hides it. With sprites off nothing changes.
    pub open spec fn sprites_drawn(self, t: Self) -> bool {
        &&& t == (GbPPU { back_buffer: t.back_buffer, ..self })
        &&& same_off_line(self.back_buffer@, t.back_buffer@, self.ly as int)
        &&& forall|sx: int| 0 <= sx < 160 ==> #[trigger] self.spr_col_ok(t, sx)
    }

    /// Column `sx` of the current line in `t` is what the sprite pass
    /// leaves there.
    pub open spec fn spr_col_ok(self, t: Self, sx: int) -> bool {
        match self.first_opaque(self.line_sprites(), sx, self.line_sprites().len() as int) {
            Some(j) => if self.lcdc & 0x02 == 0 || self.sprite_hidden(self.line_sprites()[j], sx) {
                pixel_same(t.back_buffer@, self.back_buffer@, self.ly as int, sx)
            } else {
                let rgb = self.sprite_rgb(self.line_sprites()[j], sx);
                pixel_is(t.back_buffer@, self.ly as int, sx, rgb.0, rgb.1, rgb.2)
            },
            None => pixel_same(t.back_buffer@, self.back_buffer@, self.ly as int, sx),
        }
    }
}


/// Step `i` of a run of dots: `tr[i + 1]` is one dot after `tr[i]`.
pub open spec fn dot_step_at(tr: Seq<GbPPU>, i: int) -> bool {
    tr[i].dot_advanced().dot_stepped(tr[i + 1])
}

/// `tr` is a run of `n` dots from `s` to `t`.
pub open spec fn dot_trace(tr: Seq<GbPPU>, s: GbPPU, t: GbPPU, n: nat) -> bool {
    &&& tr.len() == n + 1
    &&& tr[0] == s
    &&& tr[n as int] == t
    &&& forall|i: int| 0 <= i < n ==> #[trigger] dot_step_at(tr, i)
}

/// `t` is `s` after `n` dots.
pub open spec fn dots_run(s: GbPPU, t: GbPPU, n: nat) -> bool {
    exists|tr: Seq<GbPPU>| #[trigger] dot_trace(tr, s, t, n)
}

/// Runs compose: `n` dots from `s` to `t` and then `m` dots from `t` to
/// `u` are `n + m` dots from `s` to `u`.
pub proof fn lemma_dots_run_concat(s: GbPPU, t: GbPPU, u: GbPPU, n: nat, m: nat)
    requires
        dots_run(s, t, n),
        dots_run(t, u, m),
    ensures
        dots_run(s, u, n + m),
{
    let tr1 = choose|tr: Seq<GbPPU>| #[trigger] dot_trace(tr, s, t, n);
    let tr2 = choose|tr: Seq<GbPPU>| #[trigger] dot_trace(tr, t, u, m);
    let tr = tr1 + tr2.subrange(1, (m + 1) as int);
    assert forall|i: int| 0 <= i < n + m implies #[trigger] dot_step_at(tr, i) by {
        if i < n {
            assert(dot_step_at(tr1, i));
            assert(tr[i] == tr1[i] && tr[i + 1] == tr1[i + 1]);
        } else {
            let j = i - n;
            assert(dot_step_at(tr2, j));
            assert(tr[i] == tr2[j] && tr[i + 1] == tr2[j + 1]);
        }
    }
    assert(dot_trace(tr, s, u, n + m));
}

/// How many sprites have been drawn at column `sx` while sprite `k` is
/// being drawn over columns `lo..hi`.
pub open spec fn sprites_done(lo: int, hi: int, sx: int, k: int) -> int {
    if lo <= sx < hi { k + 1 } else { k }
}

/// The line's sprite list holds at most ten OAM indices, all below `n`.
pub proof fn lemma_visible_upto(oam: Seq<u8>, ly: u8, height: int, n: int)
    ensures
        visible_upto(oam, ly, height, n).len() <= 10,
        forall|j: int| 0 <= j < visible_upto(oam, ly, height, n).len() ==> #[trigger] visible_upto(oam, ly, height, n)[j] < n,
    decreases n,
{
    if n > 0 {
        lemma_visible_upto(oam, ly, height, n - 1);
    }
}

/// Grouping by X keeps every index below a bound that the input respects.
pub proof fn lemma_by_x_bound(sel: Seq<usize>, oam: Seq<u8>, x: int, b: usize)
    requires
        forall|m: int| 0 <= m < sel.len() ==> #[trigger] sel[m] < b,
    ensures
        forall|j: int| 0 <= j < by_x(sel, oam, x).len() ==> #[trigger] by_x(sel, oam, x)[j] < b,
    decreases x,
{
    if x > 0 {
        lemma_by_x_bound(sel, oam, x - 1, b);
        lemma_with_x_bound(sel, oam, x - 1, sel.len() as int, b);
        let p = by_x(sel, oam, x - 1);
        let q = with_x(sel, oam, x - 1, sel.len() as int);
        assert forall|j: int| 0 <= j < (p + q).len() implies #[trigger] (p + q)[j] < b by {
            if j < p.len() {
                assert((p + q)[j] == p[j]);
            } else {
                assert((p + q)[j] == q[j - p.len()]);
            }
        }
    }
}

pub proof fn lemma_with_x_bound(sel: Seq<usize>, oam: Seq<u8>, x: int, k: int, b: usize)
    requires
        k <= sel.len(),
        forall|m: int| 0 <= m < sel.len() ==> #[trigger] sel[m] < b,
    ensures
        forall|j: int| 0 <= j < with_x(sel, oam, x, k).len() ==> #[trigger] with_x(sel, oam, x, k)[j] < b,
    decreases k,
{
    if k > 0 {
        lemma_with_x_bound(sel, oam, x, k - 1, b);
        let p = with_x(sel, oam, x, k - 1);
        assert forall|j: int| 0 <= j < p.push(sel[k - 1]).len() implies #[trigger] p.push(sel[k - 1])[j] < b by {
            if j < p.len() {
                assert(p.push(sel[k - 1])[j] == p[j]);
            }
        }
    }
}

impl GbPPU {
    pub fn new(variant: GbVariant, active_palette: DmgPaletteSet) -> (r: Self)
        ensures
            r.wf(),
            r.div == 1,
            r.hardware == variant,
            r.cgb_mode == (variant == GbVariant::Cgb),
            r.active_palette == active_palette,
            r.current_mode == 0 && r.ly == 0 && r.dot == 0 && r.ticks == 0 && r.last_master == 0,
            r.lcdc == 0x91 && r.stat == 0x85 && r.bgp == 0xFC && r.pending_irqs == 0,
    {
        Self::with_divider(variant, active_palette, 1)
    }

    /// A PPU that advances one dot every `div` master cycles.
    pub fn with_divider(variant: GbVariant, active_palette: DmgPaletteSet, div: u64) -> (r: Self)
        requires
            div > 0,
        ensures
            r.wf(),
            r.div == div,
            r.hardware == variant,
            r.cgb_mode == (variant == GbVariant::Cgb),
            r.active_palette == active_palette,
            r.current_mode == 0 && r.ly == 0 && r.dot == 0 && r.ticks == 0 && r.last_master == 0,
            r.lcdc == 0x91 && r.stat == 0x85 && r.bgp == 0xFC && r.pending_irqs == 0,
            r.scy == 0 && r.scx == 0 && r.wx == 0 && r.wy == 0 && r.obp0 == 0 && r.obp1 == 0 && r.lyc == 0,
            r.vbk == 0 && r.bgpi == 0 && r.obpi == 0 && r.window_line_counter == 0,
            !r.hdma_pending && !r.slice_complete && !r.frame_published,
            forall|i: int| 0 <= i < r.vram.len() ==> r.vram@[i] == 0,
            forall|i: int| 0 <= i < 160 ==> r.oam@[i] == 0,
            forall|i: int| 0 <= i < 64 ==> r.bgpd@[i] == 0xFF && r.obpd@[i] == 0xFF,
    {
        let in_cgb_mode = variant == GbVariant::Cgb;
        let vram_size: usize = if in_cgb_mode { 16384 } else { 8192 };
        GbPPU {
            hardware: variant,
            cgb_mode: in_cgb_mode,
            hdma_pending: false,
            last_master: 0,
            ticks: 0,
            dot: 0,
            current_mode: 0,
            pending_irqs: 0,
            vram: vec![0u8; vram_size],
            oam: [0u8; 160],
            scanline_bg_indices: [0u8; 160],
            scanline_bg_priority: [false; 160],
            back_buffer: vec![0u8; FRAME_BYTES],
            front_buffer: vec![0u8; FRAME_BYTES],
            frame_published: false,
            slice_complete: false,
            window_line_counter: 0,
            div,
            lcdc: 0x91,
            scy: 0,
            scx: 0,
            bgp: 0xFC,
            wx: 0,
            wy: 0,
            obp0: 0,
            obp1: 0,
            stat: 0x85,
            lyc: 0,
            ly: 0,
            active_palette,
            vbk: 0,
            bgpi: 0,
            obpi: 0,
            bgpd: [0xFFu8; 64],
            obpd: [0xFFu8; 64],
        }
    }

    /// Hands out the interrupt requests raised since the last call
    /// (bit 0 VBlank, bit 1 STAT) and clears them.
    pub fn take_irqs(&mut self) -> (r: u8)
        ensures
            r == old(self).pending_irqs,
            *final(self) == (GbPPU { pending_irqs: 0, ..*old(self) }),
    {
        let r = self.pending_irqs;
        self.pending_irqs = 0;
        r
    }

    /// The last completed frame.
    pub fn get_front_buffer_ref(&self) -> (r: &Vec<u8>)
        ensures
            r@ == self.front_buffer@,
    {
        &self.front_buffer
    }

    /// Copies the last completed frame into `dst`, which must be a frame's size.
    pub fn copy_front_buffer(&self, dst: &mut [u8])
        requires
            old(dst)@.len() == self.front_buffer@.len(),
        ensures
            final(dst)@ == self.front_buffer@,
    {
        let n = dst.len();
        let mut i: usize = 0;
        while i < n
            invariant
                n == dst@.len(),
                n == self.front_buffer@.len(),
                i <= n,
                forall|j: int| 0 <= j < i ==> dst@[j] == self.front_buffer@[j],
            decreases n - i,
        {
            dst[i] = self.front_buffer[i];
            i = i + 1;
        }
        assert(dst@ =~= self.front_buffer@);
    }

    /// Whether a finished frame went to the front buffer since the last
    /// call; clears the flag.
    pub fn take_frame_published(&mut self) -> (r: bool)
        ensures
            r == old(self).frame_published,
            *final(self) == (GbPPU { frame_published: false, ..*old(self) }),
    {
        let r = self.frame_published;
        self.frame_published = false;
        r
    }

    fn _set_mode(&mut self, new_mode: u8)
        ensures
            *final(self) == old(self).with_mode(new_mode),
    {
        let old_mode = self.current_mode;
        self.current_mode = new_mode;
        self.stat = (self.stat & 0xFC) | (self.current_mode & 0x03);
        if new_mode == 0 && old_mode != 0 && self.ly < 144 {
            self.hdma_pending = true;
        }
        let mut trigger: bool = false;
        if self.current_mode == 0 && (self.stat & 0x08) != 0 {
            trigger = true;
        } else if self.current_mode == 1 && (self.stat & 0x10) != 0 {
            trigger = true;
        } else if self.current_mode == 2 && (self.stat & 0x20) != 0 {
            trigger = true;
        }
        if trigger {
            self._request_stat_interrupt();
        }
    }

    /// Hands out a pending HBlank HDMA request and clears it.
    pub fn take_hdma_pending(&mut self) -> (r: bool)
        ensures
            r == old(self).hdma_pending,
            *final(self) == (GbPPU { hdma_pending: false, ..*old(self) }),
    {
        let r = self.hdma_pending;
        self.hdma_pending = false;
        r
    }

    pub fn is_slice_complete(&self) -> (r: bool)
        ensures
            r == self.slice_complete,
    {
        self.slice_complete
    }

    pub fn clear_slice_complete_flag(&mut self)
        ensures
            *final(self) == (GbPPU { slice_complete: false, ..*old(self) }),
    {
        self.slice_complete = false;
    }

    fn _request_vblank_interrupt(&mut self)
        ensures
            *final(self) == (GbPPU { pending_irqs: old(self).pending_irqs | 0x01, ..*old(self) }),
    {
        self.pending_irqs = self.pending_irqs | 0x01;
    }

    fn _request_stat_interrupt(&mut self)
        ensures
            *final(self) == (GbPPU { pending_irqs: old(self).pending_irqs | 0x02, ..*old(self) }),
    {
        self.pending_irqs = self.pending_irqs | 0x02;
    }

    fn _update_stat_coincidence(&mut self)
        ensures
            *final(self) == old(self).with_coincidence(),
    {
        if self.ly == self.lyc {
            self.stat = self.stat | 0x04;
            if self.stat & 0x40 != 0 {
                self._request_stat_interrupt();
            }
        } else {
            self.stat = self.stat & !0x04u8;
        }
    }

    pub fn set_palette(&mut self, palette: DmgPaletteSet)
        ensures
            *final(self) == (GbPPU { active_palette: palette, ..*old(self) }),
    {
        self.active_palette = palette;
    }

    /// A CPU read of the LCD register at `p_addr`.
    pub fn read_register(&mut self, p_addr: u16) -> (r: u8)
        ensures
            r == old(self).register_value(p_addr),
            *final(self) == *old(self),
    {
        proof {
            crate::bits::lemma_byte_fields(self.bgpi);
            crate::bits::lemma_byte_fields(self.obpi);
        }
        match p_addr {
            0xFF40 => self.lcdc,
            0xFF41 => self.stat | 0x80,
            0xFF42 => self.scy,
            0xFF43 => self.scx,
            0xFF44 => self.ly,
            0xFF45 => self.lyc,
            0xFF47 => self.bgp,
            0xFF48 => self.obp0,
            0xFF49 => self.obp1,
            0xFF4A => self.wy,
            0xFF4B => self.wx,
            0xFF4F => {
                if self.hardware == GbVariant::Cgb {
                    self.vbk | 0xFE
                } else {
                    0xFF
                }
            },
            0xFF68 => if self.cgb_mode { self.bgpi | 0x40 } else { 0xFF },
            0xFF69 => if self.cgb_mode { self.bgpd[(self.bgpi & 0x3F) as usize] } else { 0xFF },
            0xFF6A => if self.cgb_mode { self.obpi | 0x40 } else { 0xFF },
            0xFF6B => if self.cgb_mode { self.obpd[(self.obpi & 0x3F) as usize] } else { 0xFF },
            _ => 0xFF,
        }
    }
    /// A CPU write of `p_value` to the LCD register at `p_addr`. Turning
    /// the LCD on restarts line 0 in mode 2; turning it off parks the PPU in
    /// mode 0 on line 0.
    pub fn write_register(&mut self, p_addr: u16, p_value: u8)
        requires
            old(self).wf(),
        ensures
            old(self).after_write(*final(self), p_addr, p_value),
            final(self).wf(),
    {
        proof {
            crate::bits::lemma_byte_fields(self.bgpi);
            crate::bits::lemma_byte_fields(self.obpi);
        }
        match p_addr {
            0xFF40 => {
                let lcd_was_enabled: bool = (self.lcdc & 0x80) != 0;
                let lcd_enabled: bool = (p_value & 0x80) != 0;
                self.lcdc = p_value;
                if !lcd_was_enabled && lcd_enabled {
                    self.ly = 0;
                    self.window_line_counter = 0;
                    self._set_mode(2);
                    self._update_stat_coincidence();
                    self.dot = 2;
                }
                if !lcd_enabled && lcd_was_enabled {
                    self.dot = 0;
                    self.ly = 0;
                    self.current_mode = 0;
                    self.stat = self.stat & 0xFC;
                }
            },
            0xFF41 => {
                self.stat = (self.stat & 0x07) | (p_value & 0x78);
            },
            0xFF42 => {
                self.scy = p_value;
            },
            0xFF43 => {
                self.scx = p_value;
            },
            0xFF44 => {},
            0xFF45 => {
                self.lyc = p_value;
                self._update_stat_coincidence();
            },
            0xFF47 => {
                self.bgp = p_value;
            },
            0xFF48 => {
                self.obp0 = p_value;
            },
            0xFF49 => {
                self.obp1 = p_value;
            },
            0xFF4A => {
                self.wy = p_value;
            },
            0xFF4B => {
                self.wx = p_value;
            },
            0xFF4D => {},
            0xFF68 => {
                self.bgpi = p_value;
            },
            0xFF69 => {
                let index = (self.bgpi & 0x3F) as usize;
                self.bgpd[index] = p_value;
                if (self.bgpi & 0x80) != 0 {
                    let new_idx = (index + 1) & 0x3F;
                    proof {
                        crate::bits::lemma_usize_fields((index + 1) as usize, 0x3F);
                    }
                    self.bgpi = 0x80 | (new_idx as u8);
                }
            },
            0xFF6A => {
                self.obpi = p_value;
            },
            0xFF6B => {
                let index = (self.obpi & 0x3F) as usize;
                self.obpd[index] = p_value;
                if (self.obpi & 0x80) != 0 {
                    let new_idx = (index + 1) & 0x3F;
                    proof {
                        crate::bits::lemma_usize_fields((index + 1) as usize, 0x3F);
                    }
                    self.obpi = 0x80 | (new_idx as u8);
                }
            },
            0xFF4F => {
                self.vbk = p_value & 0x01;
            },
            _ => {},
        }
    }
    /// Where tile `p_tile_id`'s data starts in VRAM.
    fn _get_tile_data_address(&self, p_tile_id: u8) -> (r: u16)
        ensures
            r == tile_data_spec(self.lcdc, p_tile_id),
            r <= 0x17F0,
    {
        if (self.lcdc & 0x10) != 0 {
            (p_tile_id as u16) * 16
        } else {
            let signed_id = p_tile_id as i8 as i32;
            (0x1000 + (signed_id * 16)) as u16
        }
    }

    /// The fixed grayscale of shade index `color_idx` through `palette_reg`.
    fn _old_apply_palette(&self, color_idx: u8, palette_reg: u8) -> (r: u32)
        requires
            color_idx <= 3,
        ensures
            r == seq![0xFFFFFFu32, 0xAAAAAA, 0x555555, 0x000000][((palette_reg >> (color_idx * 2) as u8) & 0x03) as int],
    {
        proof {
            crate::bits::lemma_byte_pair(palette_reg, (color_idx * 2) as u8);
        }
        let shade = (palette_reg >> (color_idx * 2)) & 0x03;
        match shade {
            0 => 0xFFFFFF,
            1 => 0xAAAAAA,
            2 => 0x555555,
            _ => 0x000000,
        }
    }

    /// The color of shade index `color_idx` through `palette_reg` and the
    /// four colors of the active palette.
    fn _apply_palette(&self, color_idx: u8, palette_reg: u8, colors: &[u32; 4]) -> (r: u32)
        requires
            color_idx <= 3,
        ensures
            r == dmg_color(colors@, palette_reg, color_idx),
    {
        proof {
            crate::bits::lemma_byte_pair(palette_reg, (color_idx * 2) as u8);
        }
        let shade = (palette_reg >> (color_idx * 2)) & 0x03;
        colors[shade as usize]
    }

    /// The RGB color of entry `color_idx` of CGB palette `palette_num`.
    fn _get_cgb_color(&self, palette_data: &[u8; 64], palette_num: u8, color_idx: u8) -> (r: (u8, u8, u8))
        requires
            palette_num <= 7,
            color_idx <= 3,
        ensures
            r == cgb_color(palette_data@, palette_num, color_idx),
    {
        let base_addr = (palette_num as usize * 8) + (color_idx as usize * 2);
        let low = palette_data[base_addr] as u16;
        let high = palette_data[base_addr + 1] as u16;
        let rgb555 = low | (high << 8u16);
        proof {
            crate::bits::lemma_byte_pair(palette_data@[base_addr as int], palette_data@[base_addr + 1]);
        }
        let r5 = (rgb555 & 0x1F) as u8;
        let g5 = ((rgb555 >> 5u16) & 0x1F) as u8;
        let b5 = ((rgb555 >> 10u16) & 0x1F) as u8;
        let r8 = (r5 << 3u8) | (r5 >> 2u8);
        let g8 = (g5 << 3u8) | (g5 >> 2u8);
        let b8 = (b5 << 3u8) | (b5 >> 2u8);
        (r8, g8, b8)
    }

    /// Writes an opaque pixel at column `x` of the current line.
    fn put_pixel(&mut self, x: usize, r: u8, g: u8, b: u8)
        requires
            old(self).ly < 144,
            x < 160,
            old(self).back_buffer.len() == FRAME_BYTES,
        ensures
            *final(self) == (GbPPU { back_buffer: final(self).back_buffer, ..*old(self) }),
            final(self).back_buffer@ == old(self).back_buffer@.update(px(old(self).ly as int, x as int), r).update(
                px(old(self).ly as int, x as int) + 1, g).update(px(old(self).ly as int, x as int) + 2, b).update(
                px(old(self).ly as int, x as int) + 3, 0xFF),
    {
        let base_idx: usize = (self.ly as usize * 160 + x) * 4;
        self.back_buffer.set(base_idx, r);
        self.back_buffer.set(base_idx + 1, g);
        self.back_buffer.set(base_idx + 2, b);
        self.back_buffer.set(base_idx + 3, 0xFF);
    }

    /// The background or window pixel at column `x` of the current line.
    fn bg_pixel_at(&self, x: u8) -> (r: (u8, bool, u8, u8, u8))
        requires
            self.wf(),
            x < 160,
        ensures
            (r.0, r.1, (r.2, r.3, r.4)) == self.bg_pixel(x),
            r.0 <= 3,
    {
        let win_x = self.wx.saturating_sub(7);
        let is_win_pixel = (self.lcdc & 0x20) != 0 && self.ly >= self.wy && x >= win_x;
        let tile_map_bit: u8 = if is_win_pixel { 0x40 } else { 0x08 };
        let tile_map_base: usize = if (self.lcdc & tile_map_bit) != 0 { 0x1C00 } else { 0x1800 };
        let fetch_x: u8 = if is_win_pixel { x - win_x } else { x.wrapping_add(self.scx) };
        let fetch_y: u8 = if is_win_pixel { self.window_line_counter } else { self.ly.wrapping_add(self.scy) };
        let tile_row = fetch_y / 8;
        let tile_col = fetch_x / 8;
        let tile_id_addr: usize = tile_map_base + (tile_row as usize * 32) + tile_col as usize;
        let tile_id = self.vram[tile_id_addr];
        let attr: u8 = if self.cgb_mode { self.vram[0x2000 + tile_id_addr] } else { 0 };
        let cgb_palette = attr & 0x07;
        let vram_bank: usize = if (attr & 0x08) != 0 { 0x2000 } else { 0 };
        let x_flip = (attr & 0x20) != 0;
        let y_flip = (attr & 0x40) != 0;
        let bg_priority = (attr & 0x80) != 0;
        proof {
            crate::bits::lemma_byte_fields(attr);
            crate::bits::lemma_byte_pair(attr, 0x08);
        }
        let effective_tile_line: u8 = if y_flip { 7 - (fetch_y % 8) } else { fetch_y % 8 };
        let tile_data_addr: usize = vram_bank + (self._get_tile_data_address(tile_id) as usize) + (effective_tile_line as usize * 2);
        let byte1 = self.vram[tile_data_addr];
        let byte2 = self.vram[tile_data_addr + 1];
        let bit_idx: u8 = if x_flip { fetch_x % 8 } else { 7 - (fetch_x % 8) };
        let bit0 = (byte1 >> bit_idx) & 0x01;
        let bit1 = (byte2 >> bit_idx) & 0x01;
        proof {
            crate::bits::lemma_byte_pair(byte1, bit_idx);
            crate::bits::lemma_byte_pair(byte2, bit_idx);
            crate::bits::lemma_byte_pair(bit1, bit0);
        }
        let color_idx = (bit1 << 1u8) | bit0;
        let (r, g, b) = if self.cgb_mode {
            self._get_cgb_color(&self.bgpd, cgb_palette, color_idx)
        } else {
            let color: u32 = self._apply_palette(color_idx, self.bgp, &self.active_palette.bg);
            (((color >> 16u32) & 0xFF) as u8, ((color >> 8u32) & 0xFF) as u8, (color & 0xFF) as u8)
        };
        (color_idx, bg_priority, r, g, b)
    }
    /// Draws the background and window of the current line into the back
    /// buffer, recording each pixel's color index and priority for the
    /// sprite pass.
    fn _render_scanline(&mut self)
        requires
            old(self).wf(),
            old(self).ly < 144,
        ensures
            old(self).bg_drawn(*final(self)),
    {
        let ghost s0 = *self;
        let bg_enabled: bool = (self.lcdc & 0x01) != 0;
        let mut x: u8 = 0;
        while x < 160
            invariant
                x <= 160,
                s0.wf(),
                s0.ly < 144,
                *self == (GbPPU {
                    back_buffer: self.back_buffer,
                    scanline_bg_indices: self.scanline_bg_indices,
                    scanline_bg_priority: self.scanline_bg_priority,
                    ..s0
                }),
                self.back_buffer.len() == FRAME_BYTES,
                bg_enabled == (s0.lcdc & 0x01 != 0),
                same_off_line(s0.back_buffer@, self.back_buffer@, s0.ly as int),
                forall|x2: u8| x <= x2 < 160 ==> #[trigger] s0.bg_px_kept(*self, x2),
                forall|x2: u8| x2 < x ==> #[trigger] s0.bg_px_done(*self, x2),
            decreases 160 - x,
        {
            let ghost prev = *self;
            let win_x = self.wx.saturating_sub(7);
            let is_win_pixel = (self.lcdc & 0x20) != 0 && self.ly >= self.wy && x >= win_x;
            if !self.cgb_mode && !is_win_pixel && !bg_enabled {
                self.put_pixel(x as usize, 0xFF, 0xFF, 0xFF);
                assert(s0.bg_blank(x));
                assert(s0.bg_px_kept(prev, x));
            } else {
                let (color_idx, bg_priority, r, g, b) = self.bg_pixel_at(x);
                assert(self.bg_pixel(x) == s0.bg_pixel(x));
                self.scanline_bg_indices[x as usize] = color_idx;
                self.scanline_bg_priority[x as usize] = bg_priority;
                self.put_pixel(x as usize, r, g, b);
                assert(!s0.bg_blank(x));
            }
            assert(s0.bg_px_done(*self, x));
            assert forall|x2: u8| x2 < x implies #[trigger] s0.bg_px_done(*self, x2) by {
                assert(s0.bg_px_done(prev, x2));
                assert(px(s0.ly as int, x2 as int) + 3 < px(s0.ly as int, x as int));
            }
            assert forall|x2: u8| x < x2 < 160 implies #[trigger] s0.bg_px_kept(*self, x2) by {
                assert(s0.bg_px_kept(prev, x2));
                assert(px(s0.ly as int, x as int) + 3 < px(s0.ly as int, x2 as int));
            }
            x = x + 1;
        }
    }
    /// The sprites to draw on the current line, in drawing priority.
    fn _get_active_sprites(&self) -> (r: Vec<usize>)
        ensures
            r@ == self.line_sprites(),
            forall|j: int| 0 <= j < r@.len() ==> #[trigger] r@[j] < 40,
    {
        let ly: u16 = self.ly as u16;
        let sprite_height: u16 = if (self.lcdc & 0x04) != 0 { 16 } else { 8 };
        let mut active_sprites: Vec<usize> = Vec::new();
        let mut i: usize = 0;
        while i < 40
            invariant
                i <= 40,
                sprite_height as int == self.sprite_height(),
                ly == self.ly,
                active_sprites@ == visible_upto(self.oam@, self.ly, self.sprite_height(), i as int),
            decreases 40 - i,
        {
            proof {
                lemma_visible_upto(self.oam@, self.ly, self.sprite_height(), i as int);
            }
            let oam_addr = i * 4;
            let oam_y = self.oam[oam_addr] as u16;
            if active_sprites.len() < 10 && (ly + 16) >= oam_y && (ly + 16) < (oam_y + sprite_height) {
                active_sprites.push(i);
            }
            i = i + 1;
        }
        proof {
            lemma_visible_upto(self.oam@, self.ly, self.sprite_height(), 40);
        }
        if self.cgb_mode {
            return active_sprites;
        }
        let ghost sel = active_sprites@;
        let mut sorted: Vec<usize> = Vec::new();
        let mut xv: usize = 0;
        while xv < 256
            invariant
                xv <= 256,
                sel == active_sprites@,
                sel.len() <= 10,
                forall|m: int| 0 <= m < sel.len() ==> #[trigger] sel[m] < 40,
                sorted@ == by_x(sel, self.oam@, xv as int),
            decreases 256 - xv,
        {
            let mut k: usize = 0;
            while k < active_sprites.len()
                invariant
                    k <= active_sprites.len(),
                    xv < 256,
                    sel == active_sprites@,
                    forall|m: int| 0 <= m < sel.len() ==> #[trigger] sel[m] < 40,
                    sorted@ == by_x(sel, self.oam@, xv as int) + with_x(sel, self.oam@, xv as int, k as int),
                decreases active_sprites.len() - k,
            {
                let idx = active_sprites[k];
                if self.oam[idx * 4 + 1] as usize == xv {
                    sorted.push(idx);
                }
                assert(sorted@ =~= by_x(sel, self.oam@, xv as int) + with_x(sel, self.oam@, xv as int, k + 1));
                k = k + 1;
            }
            assert(sorted@ =~= by_x(sel, self.oam@, xv + 1));
            xv = xv + 1;
        }
        proof {
            lemma_by_x_bound(sel, self.oam@, 256, 40);
        }
        sorted
    }
    /// The VRAM offset of the tile line OAM entry `i` shows on the current
    /// line (the entry covers the line).
    fn sprite_row_addr(&self, i: usize) -> (r: usize)
        requires
            self.wf(),
            self.ly < 144,
            i < 40,
            self.ly + 16 >= self.oam@[i * 4] as int,
            self.ly + 16 < self.oam@[i * 4] as int + self.sprite_height(),
        ensures
            r as int == self.sprite_data_addr(i),
            r + 1 < self.vram.len(),
    {
        let oam_base: usize = i * 4;
        let oam_y = self.oam[oam_base] as i16;
        let tile_id = self.oam[oam_base + 2];
        let attributes = self.oam[oam_base + 3];
        let ly_offset = (self.ly as i16) + 16;
        let raw_line = (ly_offset - oam_y) as u8;
        let y_flip = (attributes & 0x40) != 0;
        let mut tile_data_addr: usize;
        proof {
            crate::bits::lemma_byte_fields(tile_id);
            crate::bits::lemma_byte_pair(attributes, 0x08);
        }
        if (self.lcdc & 0x04) != 0 {
            let actual_tile_id = tile_id & 0xFE;
            let tile_number: u8;
            let tile_line: u8;
            if !y_flip {
                if raw_line < 8 {
                    tile_number = actual_tile_id;
                    tile_line = raw_line;
                } else {
                    tile_number = actual_tile_id + 1;
                    tile_line = raw_line - 8;
                }
            } else {
                if raw_line < 8 {
                    tile_number = actual_tile_id + 1;
                    tile_line = 7 - raw_line;
                } else {
                    tile_number = actual_tile_id;
                    tile_line = 7 - (raw_line - 8);
                }
            }
            tile_data_addr = (tile_number as usize * 16) + (tile_line as usize * 2);
        } else {
            let tile_line = if y_flip { 7 - raw_line } else { raw_line };
            tile_data_addr = (tile_id as usize * 16) + (tile_line as usize * 2);
        }
        let vram_bank: usize = if self.cgb_mode && (attributes & 0x08) != 0 { 0x2000 } else { 0 };
        tile_data_addr + vram_bank
    }

    /// Draws the current line's sprites over the background: each column
    /// goes to the first sprite in priority order that is opaque there, and
    /// shows it unless the background has priority.
    fn _render_sprites(&mut self)
        requires
            old(self).wf(),
            old(self).ly < 144,
        ensures
            old(self).sprites_drawn(*final(self)),
    {
        let ghost s0 = *self;
        if (self.lcdc & 0x02) == 0 {
            return;
        }
        let sprites = self._get_active_sprites();
        let ghost sp = sprites@;
        let mut claimed_pixels = [false; 160];
        let mut k: usize = 0;
        assert forall|sx: int| 0 <= sx < 160 implies #[trigger] s0.spr_px_ok(*self, claimed_pixels@, sp, sx, 0) by {}
        while k < sprites.len()
            invariant
                k <= sprites.len(),
                sp == sprites@,
                sp == s0.line_sprites(),
                forall|j: int| 0 <= j < sp.len() ==> #[trigger] sp[j] < 40,
                s0.wf(),
                s0.ly < 144,
                s0.lcdc & 0x02 != 0,
                *self == (GbPPU { back_buffer: self.back_buffer, ..s0 }),
                self.back_buffer.len() == FRAME_BYTES,
                same_off_line(s0.back_buffer@, self.back_buffer@, s0.ly as int),
                forall|sx: int| 0 <= sx < 160 ==> #[trigger] s0.spr_px_ok(*self, claimed_pixels@, sp, sx, k as int),
            decreases sprites.len() - k,
        {
            let i = sprites[k];
            let oam_base: usize = i * 4;
            let oam_y = self.oam[oam_base] as i16;
            let sprite_height: i16 = if (self.lcdc & 0x04) != 0 { 16 } else { 8 };
            let x_pos = (self.oam[oam_base + 1] as i16) - 8;
            let attributes = self.oam[oam_base + 3];
            let ly_offset = (self.ly as i16) + 16;
            if ly_offset >= oam_y && ly_offset < (oam_y + sprite_height) {
                let x_flip = (attributes & 0x20) != 0;
                let oam_priority = (attributes & 0x80) != 0;
                let tile_data_addr = self.sprite_row_addr(i);
                let byte1 = self.vram[tile_data_addr];
                let byte2 = self.vram[tile_data_addr + 1];
                let mut x: i16 = 0;
                while x < 8
                    invariant
                        0 <= x <= 8,
                        k < sprites.len(),
                        sp == sprites@,
                        i == sp[k as int],
                        i < 40,
                        oam_base == i * 4,
                        x_pos == s0.oam@[i * 4 + 1] - 8,
                        attributes == s0.oam@[i * 4 + 3],
                        x_flip == (attributes & 0x20 != 0),
                        oam_priority == (attributes & 0x80 != 0),
                        ly_offset >= oam_y && ly_offset < oam_y + sprite_height,
                        oam_y == s0.oam@[i * 4] as int,
                        ly_offset == s0.ly + 16,
                        sprite_height == s0.sprite_height(),
                        byte1 == s0.vram@[s0.sprite_data_addr(i)],
                        byte2 == s0.vram@[s0.sprite_data_addr(i) + 1],
                        s0.wf(),
                        s0.ly < 144,
                        *self == (GbPPU { back_buffer: self.back_buffer, ..s0 }),
                        self.back_buffer.len() == FRAME_BYTES,
                        same_off_line(s0.back_buffer@, self.back_buffer@, s0.ly as int),
                        forall|sx: int| 0 <= sx < 160 ==> #[trigger] s0.spr_px_ok(*self, claimed_pixels@, sp, sx,
                            sprites_done(x_pos as int, x_pos + x, sx, k as int)),
                    decreases 8 - x,
                {
                    let ghost prev = *self;
                    let ghost prev_claimed = claimed_pixels@;
                    let screen_x = x_pos + x;
                    if screen_x >= 0 && screen_x < 160 {
                        let bit_idx: u8 = if x_flip { x as u8 } else { (7 - x) as u8 };
                        let bit0 = (byte1 >> bit_idx) & 0x01;
                        let bit1 = (byte2 >> bit_idx) & 0x01;
                        proof {
                            crate::bits::lemma_byte_pair(byte1, bit_idx);
                            crate::bits::lemma_byte_pair(byte2, bit_idx);
                            crate::bits::lemma_byte_pair(bit1, bit0);
                        }
                        let color_idx = (bit1 << 1u8) | bit0;
                        assert(color_idx == s0.sprite_pixel(i, screen_x as int));
                        let x_idx = screen_x as usize;
                        if color_idx != 0 && !claimed_pixels[x_idx] {
                            claimed_pixels[x_idx] = true;
                            let bg_color_idx = self.scanline_bg_indices[x_idx];
                            let bg_priority = self.scanline_bg_priority[x_idx];
                            let sprite_hidden = if self.cgb_mode {
                                let master_priority = (self.lcdc & 0x01) != 0;
                                master_priority && bg_color_idx != 0 && (bg_priority || oam_priority)
                            } else {
                                oam_priority && bg_color_idx != 0
                            };
                            if !sprite_hidden {
                                proof {
                                    crate::bits::lemma_byte_fields(attributes);
                                }
                                let cgb_palette = attributes & 0x07;
                                let (r, g, b) = if self.cgb_mode {
                                    self._get_cgb_color(&self.obpd, cgb_palette, color_idx)
                                } else {
                                    let palette_reg = if attributes & 0x10 != 0 { self.obp1 } else { self.obp0 };
                                    let color = if attributes & 0x10 != 0 {
                                        self._apply_palette(color_idx, palette_reg, &self.active_palette.obp1)
                                    } else {
                                        self._apply_palette(color_idx, palette_reg, &self.active_palette.obp0)
                                    };
                                    (((color >> 16u32) & 0xFF) as u8, ((color >> 8u32) & 0xFF) as u8, (color & 0xFF) as u8)
                                };
                                self.put_pixel(x_idx, r, g, b);
                            }
                        }
                        assert forall|sx: int| 0 <= sx < 160 && sx != screen_x implies #[trigger] pixel_same(self.back_buffer@, prev.back_buffer@, s0.ly as int, sx) by {
                            if sx < screen_x {
                                assert(px(s0.ly as int, sx) + 3 < px(s0.ly as int, screen_x as int));
                            } else {
                                assert(px(s0.ly as int, screen_x as int) + 3 < px(s0.ly as int, sx));
                            }
                        }
                    }
                    assert forall|sx: int| 0 <= sx < 160 implies #[trigger] s0.spr_px_ok(*self, claimed_pixels@, sp, sx,
                        sprites_done(x_pos as int, x_pos + x + 1, sx, k as int)) by {
                        assert(s0.spr_px_ok(prev, prev_claimed, sp, sx, sprites_done(x_pos as int, x_pos + x, sx, k as int)));
                        if sx != screen_x {
                            assert(pixel_same(self.back_buffer@, prev.back_buffer@, s0.ly as int, sx));
                        }
                    }
                    x = x + 1;
                }
                assert forall|sx: int| 0 <= sx < 160 implies #[trigger] s0.spr_px_ok(*self, claimed_pixels@, sp, sx, k + 1) by {
                    assert(s0.spr_px_ok(*self, claimed_pixels@, sp, sx, sprites_done(x_pos as int, x_pos + 8, sx, k as int)));
                    if !(x_pos <= sx < x_pos + 8) {
                        assert(s0.sprite_pixel(sp[k as int], sx) == 0);
                    }
                }
            } else {
                assert forall|sx: int| 0 <= sx < 160 implies #[trigger] s0.spr_px_ok(*self, claimed_pixels@, sp, sx, k + 1) by {
                    assert(s0.spr_px_ok(*self, claimed_pixels@, sp, sx, k as int));
                    assert(s0.sprite_pixel(sp[k as int], sx) == 0);
                }
            }
            k = k + 1;
        }
        assert forall|sx: int| 0 <= sx < 160 implies #[trigger] s0.spr_col_ok(*self, sx) by {
            assert(s0.spr_px_ok(*self, claimed_pixels@, sp, sx, sp.len() as int));
        }
    }

    /// Whether the layout invariant holds.
    pub fn is_well_formed(&self) -> (r: bool)
        ensures
            r == self.wf(),
    {
        let vram_len: usize = if self.cgb_mode { 16384 } else { 8192 };
        self.vram.len() == vram_len && self.back_buffer.len() == FRAME_BYTES && self.front_buffer.len() == FRAME_BYTES
            && self.div > 0 && self.current_mode <= 3 && (self.current_mode == 1 || self.ly < 144) && (
        self.current_mode != 1 || (144 <= self.ly && self.ly <= 153))
    }

    /// One dot of the LCD (the dot counter already advanced).
    fn tick_one_dot(&mut self)
        requires
            old(self).wf(),
        ensures
            old(self).dot_stepped(*final(self)),
            final(self).wf(),
    {
        if (self.lcdc & 0x80) == 0 {
            self.current_mode = 0;
            self.ly = 0;
            self.stat = self.stat & 0xFC;
            if self.dot >= 70224 {
                self.dot = self.dot - 70224;
                self.slice_complete = true;
            }
            return;
        }
        if self.current_mode == 0 {
            self.tick_hblank();
        } else if self.current_mode == 1 {
            self.tick_vblank();
        } else if self.current_mode == 2 {
            if self.dot >= 80 {
                self.dot = self.dot - 80;
                self._set_mode(3);
            }
        } else if self.current_mode == 3 {
            self.tick_drawing();
        }
    }

    fn tick_hblank(&mut self)
        requires
            old(self).wf(),
            old(self).current_mode == 0,
        ensures
            old(self).hblank_step(*final(self)),
            final(self).wf(),
    {
        if self.dot >= 204 {
            self.dot = self.dot - 204;
            self.ly = self.ly.wrapping_add(1);
            self._update_stat_coincidence();
            if (self.lcdc & 0x20) != 0 && self.ly >= self.wy && self.wx <= 166 {
                self.window_line_counter = self.window_line_counter.wrapping_add(1);
            }
            if self.ly == 144 {
                self._set_mode(1);
                self._request_vblank_interrupt();
                std::mem::swap(&mut self.back_buffer, &mut self.front_buffer);
                self.frame_published = true;
            } else {
                self._set_mode(2);
            }
        }
    }

    fn tick_vblank(&mut self)
        requires
            old(self).wf(),
            old(self).current_mode == 1,
        ensures
            old(self).vblank_step(*final(self)),
            final(self).wf(),
    {
        if self.dot >= 456 {
            self.dot = self.dot - 456;
            self.ly = self.ly.wrapping_add(1);
            self._update_stat_coincidence();
            self.window_line_counter = 0;
            if self.ly > 153 {
                self.ly = 0;
                self.slice_complete = true;
                self._set_mode(2);
            }
        }
    }

    fn tick_drawing(&mut self)
        requires
            old(self).wf(),
            old(self).current_mode == 3,
        ensures
            old(self).drawing_step(*final(self)),
            final(self).wf(),
    {
        if self.dot >= 172 {
            self.dot = self.dot - 172;
            let ghost s1 = *self;
            self._render_scanline();
            let ghost u = *self;
            self._render_sprites();
            let ghost w = *self;
            self._set_mode(0);
            assert(s1.bg_drawn(u) && u.sprites_drawn(w));
        }
    }
}

impl Timed for GbPPU {
    /// Runs the dots up to `target_master / div`.
    fn run_until(&mut self, target_master: u64)
        ensures
            old(self).wf() ==> ({
                let target = target_master / old(self).div;
                let n: nat = if old(self).ticks < target { (target - old(self).ticks) as nat } else { 0 };
                &&& final(self).wf()
                &&& final(self).last_master == target_master
                &&& dots_run(*old(self), GbPPU { last_master: old(self).last_master, ..*final(self) }, n)
            }),
    {
        if !self.is_well_formed() {
            return;
        }
        let target_dot = target_master / self.div;
        let ghost start = *self;
        let ghost mut tr: Seq<GbPPU> = seq![start];
        while self.ticks < target_dot
            invariant
                self.wf(),
                start.ticks <= self.ticks,
                start.ticks < target_dot ==> self.ticks <= target_dot,
                start.ticks >= target_dot ==> self.ticks == start.ticks,
                self.div == start.div,
                self.last_master == start.last_master,
                target_dot == target_master / start.div,
                dot_trace(tr, start, *self, (self.ticks - start.ticks) as nat),
            decreases target_dot - self.ticks,
        {
            let ghost prev = *self;
            self.ticks = self.ticks + 1;
            self.dot = self.dot.wrapping_add(1);
            assert(*self == prev.dot_advanced());
            self.tick_one_dot();
            proof {
                let n = (prev.ticks - start.ticks) as nat;
                let tr2 = tr.push(*self);
                assert forall|i: int| 0 <= i < n + 1 implies #[trigger] dot_step_at(tr2, i) by {
                    assert(tr2[i] == tr[i]);
                    if i < n {
                        assert(dot_step_at(tr, i));
                        assert(tr2[i + 1] == tr[i + 1]);
                    }
                }
                tr = tr2;
            }
        }
        assert(dot_trace(tr, start, *self, (self.ticks - start.ticks) as nat));
        let ghost pre = *self;
        self.last_master = target_master;
        assert((GbPPU { last_master: start.last_master, ..*self }) == pre);
    }

    fn sync_point(&self) -> (r: u64)
        ensures
            r == self.last_master,
    {
        self.last_master
    }
}

} // verus!
