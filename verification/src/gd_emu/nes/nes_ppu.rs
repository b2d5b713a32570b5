use vstd::prelude::*;
use crate::gd_emu::nes::mappers::Mapper;

verus! {

/// Bytes in one RGBA frame: 256 x 240 pixels of four bytes.
pub const NES_FRAME_BYTES: usize = 245760;

/// The NES system palette: the RGB color of each of the 64 color indices.
pub open spec fn nes_palette(i: int) -> (u8, u8, u8) {
    (seq![84u8, 0, 8, 48, 68, 92, 84, 60, 32, 8, 0, 0, 0, 0, 0, 0, 152, 8, 48, 92, 136, 160, 152, 112, 72, 24, 0, 0, 0, 0, 0, 0, 236, 76, 120, 176, 228, 236, 236, 212, 160, 116, 76, 56, 56, 60, 0, 0, 236, 168, 188, 212, 236, 236, 236, 228, 204, 180, 168, 152, 160, 160, 0, 0][i],
     seq![84u8, 30, 16, 0, 0, 0, 4, 24, 42, 58, 64, 60, 50, 0, 0, 0, 150, 76, 50, 30, 20, 20, 34, 64, 88, 114, 124, 118, 102, 0, 0, 0, 238, 154, 124, 98, 84, 88, 106, 136, 170, 196, 208, 204, 180, 60, 0, 0, 238, 204, 194, 178, 174, 174, 180, 196, 210, 222, 226, 226, 214, 162, 0, 0][i],
     seq![84u8, 116, 144, 136, 100, 48, 0, 0, 0, 0, 0, 0, 60, 0, 0, 0, 152, 196, 236, 228, 176, 116, 32, 0, 0, 0, 0, 40, 120, 0, 0, 0, 236, 236, 236, 236, 236, 180, 100, 32, 0, 0, 32, 108, 204, 60, 0, 0, 236, 236, 236, 236, 236, 212, 176, 144, 120, 120, 144, 180, 228, 160, 0, 0][i])
}

fn palette_lookup(i: u8) -> (r: (u8, u8, u8))
    requires
        i < 64,
    ensures
        r == nes_palette(i as int),
{
    let rs: [u8; 64] = [84,0,8,48,68,92,84,60,32,8,0,0,0,0,0,0,152,8,48,92,136,160,152,112,72,24,0,0,0,0,0,0,236,76,120,176,228,236,236,212,160,116,76,56,56,60,0,0,236,168,188,212,236,236,236,228,204,180,168,152,160,160,0,0];
    let gs: [u8; 64] = [84,30,16,0,0,0,4,24,42,58,64,60,50,0,0,0,150,76,50,30,20,20,34,64,88,114,124,118,102,0,0,0,238,154,124,98,84,88,106,136,170,196,208,204,180,60,0,0,238,204,194,178,174,174,180,196,210,222,226,226,214,162,0,0];
    let bs: [u8; 64] = [84,116,144,136,100,48,0,0,0,0,0,0,60,0,0,0,152,196,236,228,176,116,32,0,0,0,0,40,120,0,0,0,236,236,236,236,236,180,100,32,0,0,32,108,204,60,0,0,236,236,236,236,236,212,176,144,120,120,144,180,228,160,0,0];
    assert(rs@ =~= seq![84u8, 0, 8, 48, 68, 92, 84, 60, 32, 8, 0, 0, 0, 0, 0, 0, 152, 8, 48, 92, 136, 160, 152, 112, 72, 24, 0, 0, 0, 0, 0, 0, 236, 76, 120, 176, 228, 236, 236, 212, 160, 116, 76, 56, 56, 60, 0, 0, 236, 168, 188, 212, 236, 236, 236, 228, 204, 180, 168, 152, 160, 160, 0, 0]);
    assert(gs@ =~= seq![84u8, 30, 16, 0, 0, 0, 4, 24, 42, 58, 64, 60, 50, 0, 0, 0, 150, 76, 50, 30, 20, 20, 34, 64, 88, 114, 124, 118, 102, 0, 0, 0, 238, 154, 124, 98, 84, 88, 106, 136, 170, 196, 208, 204, 180, 60, 0, 0, 238, 204, 194, 178, 174, 174, 180, 196, 210, 222, 226, 226, 214, 162, 0, 0]);
    assert(bs@ =~= seq![84u8, 116, 144, 136, 100, 48, 0, 0, 0, 0, 0, 0, 60, 0, 0, 0, 152, 196, 236, 228, 176, 116, 32, 0, 0, 0, 0, 40, 120, 0, 0, 0, 236, 236, 236, 236, 236, 180, 100, 32, 0, 0, 32, 108, 204, 60, 0, 0, 236, 236, 236, 236, 236, 212, 176, 144, 120, 120, 144, 180, 228, 160, 0, 0]);
    (rs[i as usize], gs[i as usize], bs[i as usize])
}

/// A sprite pixel looked up in OAM.
pub struct SpritePixelInfo {
    pub color_bit: u8,
    pub palette_idx: u8,
    pub priority: u8,
    pub is_sprite_0: bool,
}

/// The NES picture processor: CPU-visible registers with the loopy v/t
/// scroll registers, nametable RAM, palette RAM and OAM, and the
/// dot-by-dot renderer that fills the back buffer and publishes each frame
/// to the front buffer.
pub struct NesPPU {
    pub ctrl: u8,
    pub mask: u8,
    pub status: u8,
    pub oam_addr: u8,
    pub scroll: u16,
    pub addr: u16,
    /// Per tile of the current line: (pattern low byte, pattern high byte, palette).
    pub scanline_bg: [(u8, u8, u8); 33],
    /// Sprites on the current line: (OAM index, X, pattern low byte,
    /// pattern high byte, attributes, is sprite 0).
    pub scanline_sprites: Vec<(usize, u8, u8, u8, u8, bool)>,
    pub mid_scanline_write: bool,
    pub base_nametable_address: u16,
    pub vram_increment: u8,
    pub sprite_pattern_table: u16,
    pub background_pattern_table: u16,
    pub sprite_size: u8,
    pub fine_x: u8,
    pub w_latch: bool,
    /// The current VRAM address (15 bits).
    pub v_addr: u16,
    /// The temporary VRAM address latch.
    pub t_addr: u16,
    pub vram: [u8; 4096],
    pub palette_ram: [u8; 32],
    pub oam: [u8; 256],
    /// The delayed read buffer of PPUDATA ($2007).
    pub data_buffer: u8,
    pub frame_ready: bool,
    pub scanline: i16,
    pub cycle: i16,
    pub back_buffer: Vec<u8>,
    pub front_buffer: Vec<u8>,
    /// Raised when a frame moves to the front buffer.
    pub frame_published: bool,
    pub total_ppu_cycles: u64,
}

/// The color index (0-3) of a pixel from two bit planes.
pub open spec fn planes(lo: u8, hi: u8, shift: u8) -> u8 {
    (((hi >> shift) & 0x01) << 1u8) | ((lo >> shift) & 0x01)
}

/// Coarse X + 1, wrapping into the next horizontal nametable.
pub open spec fn coarse_x_inc(v: u16) -> u16 {
    if v & 0x001F == 31 { (v & !0x001Fu16) ^ 0x0400 } else { (v + 1) as u16 }
}

/// Fine Y + 1, carrying into coarse Y: row 29 wraps into the next vertical
/// nametable, row 31 wraps without switching.
pub open spec fn fine_y_inc(v: u16) -> u16 {
    if v & 0x7000 != 0x7000 {
        (v + 0x1000) as u16
    } else {
        let v1 = v & !0x7000u16;
        let y = (v1 & 0x03E0) >> 5u16;
        let v2 = if y == 29 { v1 ^ 0x0800 } else { v1 };
        let y2: u16 = if y == 29 || y == 31 { 0 } else { (y + 1) as u16 };
        (v2 & !0x03E0u16) | (y2 << 5u16)
    }
}

/// The horizontal scroll bits of `t` copied into `v`.
pub open spec fn horiz_copied(v: u16, t: u16) -> u16 {
    (v & !0x041Fu16) | (t & 0x041F)
}

/// The vertical scroll bits of `t` copied into `v`.
pub open spec fn vert_copied(v: u16, t: u16) -> u16 {
    (v & !0x7BE0u16) | (t & 0x7BE0)
}

/// The palette RAM entry that PPU address `addr` ($3F00-$3FFF) selects:
/// $3F10/$3F14/$3F18/$3F1C mirror $3F00/$3F04/$3F08/$3F0C.
pub open spec fn palette_index(addr: u16) -> int {
    let p = (addr & 0x001F) as int;
    if p >= 0x10 && p % 4 == 0 { p - 0x10 } else { p }
}

/// The color index of line sprite `s` at column `x` (0 where it does not
/// cover `x`).
pub open spec fn line_sprite_px(s: (usize, u8, u8, u8, u8, bool), x: int) -> u8 {
    let sx = s.1 as int;
    if sx <= x < sx + 8 {
        let shift: u8 = if s.4 & 0x40 != 0 { (x - sx) as u8 } else { (7 - (x - sx)) as u8 };
        planes(s.2, s.3, shift)
    } else {
        0
    }
}

/// The first of `sprites[0..k]` with an opaque pixel at column `x`.
pub open spec fn first_sprite(sprites: Seq<(usize, u8, u8, u8, u8, bool)>, x: int, k: int) -> Option<int>
    decreases k,
{
    if k <= 0 {
        None
    } else {
        match first_sprite(sprites, x, k - 1) {
            Some(j) => Some(j),
            None => if line_sprite_px(sprites[k - 1], x) != 0 { Some(k - 1) } else { None },
        }
    }
}

/// The OAM entries on line `line` among the first `n`: at most eight, in
/// OAM order.
pub open spec fn nes_line_sprites(oam: Seq<u8>, line: int, height: int, n: int) -> Seq<usize>
    decreases n,
{
    if n <= 0 {
        seq![]
    } else {
        let prev = nes_line_sprites(oam, line, height, n - 1);
        let y = oam[(n - 1) * 4] as int;
        if prev.len() < 8 && !(line < y + 1 || line >= y + 1 + height) {
            prev.push((n - 1) as usize)
        } else {
            prev
        }
    }
}

/// The line buffer `sprites` holds, in order, the OAM entries `sel`: each
/// with its index, X position, attributes and sprite-0 flag.
pub open spec fn sprites_match(sprites: Seq<(usize, u8, u8, u8, u8, bool)>, oam: Seq<u8>, sel: Seq<usize>) -> bool {
    &&& sprites.len() == sel.len()
    &&& forall|j: int| 0 <= j < sel.len() ==> {
        let e = #[trigger] sprites[j];
        &&& e.0 == sel[j]
        &&& e.1 == oam[sel[j] * 4 + 3]
        &&& e.4 == oam[sel[j] * 4 + 2]
        &&& e.5 == (sel[j] == 0)
    }
}

/// Once a sprite is found at column `x`, later sprites do not change it.
proof fn lemma_first_sprite_stable(s: Seq<(usize, u8, u8, u8, u8, bool)>, x: int, k: int, n: int)
    requires
        0 <= k <= n,
        first_sprite(s, x, k) is Some,
    ensures
        first_sprite(s, x, n) == first_sprite(s, x, k),
    decreases n - k,
{
    if n > k {
        lemma_first_sprite_stable(s, x, k, n - 1);
    }
}

/// A line never holds more than eight sprites, and once it holds eight
/// the later entries are not looked at.
proof fn lemma_line_sprites_full(oam: Seq<u8>, line: int, height: int, k: int, n: int)
    requires
        0 <= k <= n,
    ensures
        nes_line_sprites(oam, line, height, n).len() <= 8,
        nes_line_sprites(oam, line, height, k).len() >= 8 ==>
            nes_line_sprites(oam, line, height, n) == nes_line_sprites(oam, line, height, k),
    decreases n - k,
{
    if n > k {
        lemma_line_sprites_full(oam, line, height, k, n - 1);
    } else {
        lemma_line_sprites_len(oam, line, height, n);
    }
}

proof fn lemma_line_sprites_len(oam: Seq<u8>, line: int, height: int, n: int)
    ensures
        nes_line_sprites(oam, line, height, n).len() <= 8,
    decreases n,
{
    if n > 0 {
        lemma_line_sprites_len(oam, line, height, n - 1);
    }
}

/// A two-plane pixel is a color index 0-3.
proof fn lemma_planes(lo: u8, hi: u8, shift: u8)
    by (bit_vector)
    requires
        shift < 8,
    ensures
        planes(lo, hi, shift) <= 3,
{
}

/// A pattern-table address is its own PPU bus address.
proof fn lemma_pattern_addr_masked(w: u16)
    by (bit_vector)
    requires
        w < 0x2000,
    ensures
        w & 0x3FFF == w,
{
}

/// The fields of the VRAM address that the line fetch reads.
proof fn lemma_fetch_bits(v: u16)
    by (bit_vector)
    ensures
        v & 0x001F <= 31,
        (v >> 10u16) & 0x01 <= 1,
        (v >> 11u16) & 0x01 <= 1,
        (v >> 5u16) & 0x1F <= 31,
        (v >> 12u16) & 0x07 <= 7,
{
}

/// The color index of line sprite `s` at column `x`.
fn line_sprite_pixel(s: (usize, u8, u8, u8, u8, bool), x: usize) -> (r: u8)
    requires
        x < 256,
    ensures
        r == line_sprite_px(s, x as int),
        r <= 3,
{
    let sx = s.1 as usize;
    if x >= sx && x < sx + 8 {
        let shift: u8 = if s.4 & 0x40 != 0 { (x - sx) as u8 } else { (7 - (x - sx)) as u8 };
        proof {
            lemma_planes(s.2, s.3, shift);
        }
        (((s.3 >> shift) & 0x01) << 1u8) | ((s.2 >> shift) & 0x01)
    } else {
        0
    }
}

/// The first line sprite with an opaque pixel at column `x`.
fn find_line_sprite(sprites: &Vec<(usize, u8, u8, u8, u8, bool)>, x: usize) -> (r: Option<usize>)
    requires
        x < 256,
    ensures
        first_sprite(sprites@, x as int, sprites@.len() as int) == (match r {
            Some(j) => Some(j as int),
            None => None::<int>,
        }),
        r matches Some(j) ==> j < sprites@.len() && line_sprite_px(sprites@[j as int], x as int) != 0,
{
    let mut i: usize = 0;
    while i < sprites.len()
        invariant
            x < 256,
            i <= sprites@.len(),
            first_sprite(sprites@, x as int, i as int) is None,
        decreases sprites@.len() - i,
    {
        if line_sprite_pixel(sprites[i], x) != 0 {
            proof {
                assert(first_sprite(sprites@, x as int, (i + 1) as int) == Some(i as int));
                lemma_first_sprite_stable(sprites@, x as int, (i + 1) as int, sprites@.len() as int);
            }
            return Some(i);
        }
        i += 1;
    }
    None
}

impl NesPPU {
    pub open spec fn wf(self) -> bool {
        &&& self.back_buffer.len() == NES_FRAME_BYTES
        &&& self.front_buffer.len() == NES_FRAME_BYTES
        &&& 0 <= self.scanline <= 261
        &&& 0 <= self.cycle <= 340
        &&& self.fine_x <= 7
        &&& (self.sprite_size == 8 || self.sprite_size == 16)
        &&& self.scanline_sprites@.len() <= 8
        &&& forall|i: int| 0 <= i < 33 ==> (#[trigger] self.scanline_bg@[i]).2 <= 3
    }

    pub open spec fn rendering_on(self) -> bool {
        self.mask & 0x18 != 0
    }

    /// Whether column `x` shows the background (not clipped at the left edge).
    pub open spec fn bg_show(self, x: int) -> bool {
        self.mask & 0x08 != 0 && !(x < 8 && self.mask & 0x02 == 0)
    }

    /// Whether column `x` shows sprites (not clipped at the left edge).
    pub open spec fn spr_show(self, x: int) -> bool {
        self.mask & 0x10 != 0 && !(x < 8 && self.mask & 0x04 == 0)
    }

    /// The background color index and palette at column `x`.
    pub open spec fn bg_at(self, x: int) -> (u8, u8) {
        if self.bg_show(x) {
            let off = x + self.fine_x;
            let e = self.scanline_bg@[off / 8];
            (planes(e.0, e.1, (7 - off % 8) as u8), e.2)
        } else {
            (0, 0)
        }
    }

    /// The line sprite that shows at column `x`, if any.
    pub open spec fn spr_at(self, x: int) -> Option<int> {
        if self.spr_show(x) {
            first_sprite(self.scanline_sprites@, x, self.scanline_sprites@.len() as int)
        } else {
            None
        }
    }

    /// The palette RAM entry that colors column `x`: an opaque sprite in
    /// front (or over a transparent background), else an opaque background,
    /// else the backdrop.
    pub open spec fn palette_offset(self, x: int) -> int {
        let (bgp, bgpal) = self.bg_at(x);
        match self.spr_at(x) {
            Some(j) => {
                let s = self.scanline_sprites@[j];
                if bgp == 0 || (s.4 >> 5u8) & 1 == 0 {
                    0x10 + (s.4 & 0x03) * 4 + line_sprite_px(s, x)
                } else {
                    bgpal * 4 + bgp
                }
            },
            None => if bgp != 0 { bgpal * 4 + bgp } else { 0 },
        }
    }

    /// The RGB color of column `x` of the current line.
    pub open spec fn pixel_rgb(self, x: int) -> (u8, u8, u8) {
        nes_palette((self.palette_ram@[self.palette_offset(x)] & 0x3F) as int)
    }

    /// Whether drawing column `x` raises the sprite-0 hit flag.
    pub open spec fn sprite0_hit(self, x: int) -> bool {
        match self.spr_at(x) {
            Some(j) => self.scanline_sprites@[j].5 && self.bg_at(x).0 != 0 && self.bg_show(x) && x < 255,
            None => false,
        }
    }

    /// The line buffers after the fetch at the start of a visible line:
    /// the tile palettes in range, and the first eight sprites on the line
    /// in OAM order (their pattern bytes come from the cartridge).
    pub open spec fn prefetched(self, t: Self) -> bool {
        &&& t == (NesPPU { scanline_bg: t.scanline_bg, scanline_sprites: t.scanline_sprites, ..self })
        &&& forall|i: int| 0 <= i < 33 ==> (#[trigger] t.scanline_bg@[i]).2 <= 3
        &&& sprites_match(t.scanline_sprites@, self.oam@,
            nes_line_sprites(self.oam@, self.scanline as int, self.sprite_size as int, 64))
    }

    /// The v register after the scroll updates of this dot of a rendering
    /// line (visible or pre-render).
    pub open spec fn scroll_stepped(self) -> u16 {
        let c = self.cycle;
        let v1 = if 0 < c <= 256 && c % 8 == 0 { coarse_x_inc(self.v_addr) } else { self.v_addr };
        let v2 = if c == 256 { fine_y_inc(v1) } else { v1 };
        let v3 = if c == 257 { horiz_copied(v2, self.t_addr) } else { v2 };
        if self.scanline == 261 && 280 <= c <= 304 { vert_copied(v3, self.t_addr) } else { v3 }
    }

    /// The dot counter after one dot: 341 dots a line, 262 lines a frame.
    pub open spec fn next_dot(self) -> (i16, i16) {
        if self.cycle + 1 >= 341 {
            if self.scanline + 1 > 261 { (0, 0) } else { ((self.scanline + 1) as i16, 0) }
        } else {
            (self.scanline, (self.cycle + 1) as i16)
        }
    }

    /// The rest of a dot from `self` (the line buffers already fetched):
    /// the pixel of a visible line, the flags at the VBlank edges, the scroll
    /// updates, the frame hand-over on line 240, and the dot counter.
    pub open spec fn dot_finished(self, t: Self, rendering: bool) -> bool {
        let sl = self.scanline as int;
        let c = self.cycle as int;
        let drawn = 0 <= sl <= 239 && c < 256;
        let s1 = if drawn && self.sprite0_hit(c) { self.status | 0x40 } else { self.status };
        let s2 = if sl == 241 && c == 1 { s1 | 0x80 } else if sl == 261 && c == 1 { s1 & 0x3F } else { s1 };
        let v = if rendering && (sl <= 239 || sl == 261) { self.scroll_stepped() } else { self.v_addr };
        let base = (sl * 256 + c) * 4;
        let rgb = self.pixel_rgb(c);
        &&& t.status == s2
        &&& t.v_addr == v
        &&& (t.scanline, t.cycle) == self.next_dot()
        &&& (if drawn {
            &&& t.back_buffer@ == self.back_buffer@.update(base, rgb.0).update(base + 1, rgb.1).update(base + 2, rgb.2).update(base + 3, 255)
            &&& t.front_buffer@ == self.front_buffer@
            &&& t.frame_published == self.frame_published
        } else if sl == 240 && c == 0 {
            &&& t.front_buffer@ == self.back_buffer@
            &&& t.back_buffer@ == Seq::new(NES_FRAME_BYTES as nat, |i: int| 0u8)
            &&& t.frame_published
        } else {
            &&& t.back_buffer@ == self.back_buffer@
            &&& t.front_buffer@ == self.front_buffer@
            &&& t.frame_published == self.frame_published
        })
        &&& t == (NesPPU {
            status: t.status,
            v_addr: t.v_addr,
            scanline: t.scanline,
            cycle: t.cycle,
            back_buffer: t.back_buffer,
            front_buffer: t.front_buffer,
            frame_published: t.frame_published,
            ..self
        })
    }

    /// One PPU dot from `self` to `t`.
    pub open spec fn dot_stepped(self, t: Self) -> bool {
        let fetch = 0 <= self.scanline <= 239 && self.cycle == 0;
        exists|mid: NesPPU| #![trigger mid.dot_finished(t, self.rendering_on())]
            (if fetch {
                (NesPPU { mid_scanline_write: false, ..self }).prefetched(mid)
            } else {
                mid == self
            }) && mid.dot_finished(t, self.rendering_on())
    }

    /// What a CPU read of PPU register `reg` returns, with `open_bus` the
    /// last value on the CPU data bus. (PPUDATA's value comes from the
    /// cartridge or palette RAM and is not described here.)
    pub open spec fn reg_value(self, reg: u16, open_bus: u8) -> u8 {
        if reg == 2 {
            (self.status & 0xE0) | (open_bus & 0x1F)
        } else if reg == 4 {
            if self.oam_addr & 0x03 == 2 { self.oam@[self.oam_addr as int] & 0xE3 } else { self.oam@[self.oam_addr as int] }
        } else if reg == 0 || reg == 1 || reg == 3 || reg == 5 || reg == 6 {
            open_bus
        } else {
            0
        }
    }

    /// The PPU after a CPU write of `value` to register `reg`, for every
    /// register but PPUDATA.
    pub open spec fn reg_written(self, reg: u16, value: u8) -> Self {
        let mid = self.scanline >= 0 && self.scanline < 240 && self.cycle > 0 && self.cycle < 256
            && (reg == 0 || reg == 1 || reg == 5 || reg == 6);
        let s = NesPPU { mid_scanline_write: if mid { true } else { self.mid_scanline_write }, ..self };
        if reg == 0 {
            NesPPU {
                ctrl: value,
                t_addr: (s.t_addr & 0xF3FF) | (((value & 0x03) as u16) << 10u16),
                vram_increment: if value & 0x04 == 0x04 { 32 } else { 1 },
                background_pattern_table: if value & 0x10 == 0x10 { 0x1000 } else { 0 },
                sprite_pattern_table: if value & 0x08 == 0x08 { 0x1000 } else { 0 },
                sprite_size: if value & 0x20 == 0x20 { 16 } else { 8 },
                ..s
            }
        } else if reg == 1 {
            NesPPU { mask: value, ..s }
        } else if reg == 3 {
            NesPPU { oam_addr: value, ..s }
        } else if reg == 5 {
            if !s.w_latch {
                NesPPU { t_addr: (s.t_addr & 0x7FE0) | ((value >> 3u8) as u16), fine_x: value & 0x07, w_latch: true, ..s }
            } else {
                NesPPU {
                    t_addr: (s.t_addr & 0x0C1F) | (((value & 0x07) as u16) << 12u16) | (((value >> 3u8) as u16) << 5u16),
                    w_latch: false,
                    ..s
                }
            }
        } else if reg == 6 {
            if !s.w_latch {
                NesPPU { t_addr: (s.t_addr & 0x00FF) | (((value & 0x3F) as u16) << 8u16), w_latch: true, ..s }
            } else {
                let t = (s.t_addr & 0xFF00) | (value as u16);
                NesPPU { t_addr: t, v_addr: t, w_latch: false, ..s }
            }
        } else {
            s
        }
    }
}

/// A scroll-register step never overflows sixteen bits.
proof fn lemma_scroll_bits(v: u16, t: u16)
    by (bit_vector)
    ensures
        v & 0x001F != 31 ==> v < 0xFFFF,
        v & 0x7000 != 0x7000 ==> v <= 0xEFFF,
        ((v & 0x03E0) >> 5u16) <= 31,
{
}

impl NesPPU {
    /// The extra layout facts the renderer relies on.
    pub open spec fn tables_ok(self) -> bool {
        self.background_pattern_table <= 0x1000 && self.sprite_pattern_table <= 0x1000
    }

    pub fn new() -> (r: Self)
        ensures
            r.wf(),
            r.tables_ok(),
            r.ctrl == 0 && r.mask == 0 && r.status == 0 && r.oam_addr == 0,
            r.scanline == 0 && r.cycle == 0 && !r.w_latch && r.v_addr == 0 && r.t_addr == 0,
            r.vram_increment == 1 && r.sprite_size == 8 && r.fine_x == 0 && r.total_ppu_cycles == 0,
            !r.frame_published && !r.frame_ready,
    {
        NesPPU {
            ctrl: 0,
            mask: 0,
            status: 0,
            oam_addr: 0,
            scroll: 0,
            addr: 0,
            base_nametable_address: 0x2000,
            vram_increment: 1,
            sprite_pattern_table: 0,
            background_pattern_table: 0,
            sprite_size: 8,
            mid_scanline_write: false,
            frame_ready: false,
            scanline: 0,
            cycle: 0,
            w_latch: false,
            fine_x: 0,
            v_addr: 0,
            t_addr: 0,
            data_buffer: 0,
            vram: [0u8; 4096],
            palette_ram: [0u8; 32],
            oam: [0u8; 256],
            scanline_bg: [(0u8, 0u8, 0u8); 33],
            scanline_sprites: Vec::new(),
            back_buffer: vec![0u8; NES_FRAME_BYTES],
            front_buffer: vec![0u8; NES_FRAME_BYTES],
            frame_published: false,
            total_ppu_cycles: 0,
        }
    }

    /// Whether the buffers, counters and tables are in the ranges the
    /// renderer relies on.
    pub fn is_well_formed(&self) -> (r: bool)
        ensures
            r == (self.wf() && self.tables_ok()),
    {
        let mut ok = self.back_buffer.len() == NES_FRAME_BYTES && self.front_buffer.len() == NES_FRAME_BYTES
            && 0 <= self.scanline && self.scanline <= 261 && 0 <= self.cycle && self.cycle <= 340 && self.fine_x <= 7
            && (self.sprite_size == 8 || self.sprite_size == 16) && self.scanline_sprites.len() <= 8
            && self.background_pattern_table <= 0x1000 && self.sprite_pattern_table <= 0x1000;
        let mut i: usize = 0;
        while i < 33
            invariant
                i <= 33,
                ok ==> forall|k: int| 0 <= k < i ==> (#[trigger] self.scanline_bg@[k]).2 <= 3,
                !ok ==> !(self.wf() && self.tables_ok()),
                ok ==> (self.back_buffer.len() == NES_FRAME_BYTES && self.front_buffer.len() == NES_FRAME_BYTES
                    && 0 <= self.scanline <= 261 && 0 <= self.cycle <= 340 && self.fine_x <= 7
                    && (self.sprite_size == 8 || self.sprite_size == 16) && self.scanline_sprites@.len() <= 8
                    && self.tables_ok()),
            decreases 33 - i,
        {
            if self.scanline_bg[i].2 > 3 {
                ok = false;
            }
            i += 1;
        }
        ok
    }

    /// Clears the control, mask and status registers, the dot counter and
    /// the scroll latches.
    pub fn reset(&mut self)
        ensures
            *final(self) == (NesPPU {
                ctrl: 0,
                mask: 0,
                status: 0,
                scanline: 0,
                cycle: 0,
                frame_ready: false,
                w_latch: false,
                v_addr: 0,
                t_addr: 0,
                ..*old(self)
            }),
    {
        self.ctrl = 0;
        self.mask = 0;
        self.status = 0;
        self.scanline = 0;
        self.cycle = 0;
        self.frame_ready = false;
        self.w_latch = false;
        self.v_addr = 0;
        self.t_addr = 0;
    }

    fn rendering_enabled(&self) -> (r: bool)
        ensures
            r == self.rendering_on(),
    {
        (self.mask & 0x18) != 0
    }

    fn increment_coarse_x(&mut self)
        ensures
            *final(self) == (NesPPU { v_addr: coarse_x_inc(old(self).v_addr), ..*old(self) }),
    {
        proof {
            lemma_scroll_bits(self.v_addr, 0);
        }
        if (self.v_addr & 0x001F) == 31 {
            self.v_addr = self.v_addr & !0x001Fu16;
            self.v_addr = self.v_addr ^ 0x0400;
        } else {
            self.v_addr = self.v_addr + 1;
        }
    }

    /// Coarse X + 1 (the same step as the renderer's).
    pub fn increment_horizontal_scroll(&mut self)
        ensures
            *final(self) == (NesPPU { v_addr: coarse_x_inc(old(self).v_addr), ..*old(self) }),
    {
        self.increment_coarse_x();
    }

    fn increment_fine_y(&mut self)
        ensures
            *final(self) == (NesPPU { v_addr: fine_y_inc(old(self).v_addr), ..*old(self) }),
    {
        proof {
            lemma_scroll_bits(self.v_addr, 0);
        }
        if (self.v_addr & 0x7000) != 0x7000 {
            self.v_addr = self.v_addr + 0x1000;
        } else {
            self.v_addr = self.v_addr & !0x7000u16;
            let mut y = (self.v_addr & 0x03E0) >> 5u16;
            proof {
                lemma_scroll_bits(self.v_addr, 0);
            }
            if y == 29 {
                y = 0;
                self.v_addr = self.v_addr ^ 0x0800;
            } else if y == 31 {
                y = 0;
            } else {
                y = y + 1;
            }
            self.v_addr = (self.v_addr & !0x03E0u16) | (y << 5u16);
        }
    }

    /// Fine Y + 1 (the same step as the renderer's).
    fn increment_vertical_scroll(&mut self)
        ensures
            *final(self) == (NesPPU { v_addr: fine_y_inc(old(self).v_addr), ..*old(self) }),
    {
        self.increment_fine_y();
    }

    fn copy_horizontal(&mut self)
        ensures
            *final(self) == (NesPPU { v_addr: horiz_copied(old(self).v_addr, old(self).t_addr), ..*old(self) }),
    {
        self.v_addr = (self.v_addr & !0x041Fu16) | (self.t_addr & 0x041F);
    }

    fn copy_vertical(&mut self)
        ensures
            *final(self) == (NesPPU { v_addr: vert_copied(old(self).v_addr, old(self).t_addr), ..*old(self) }),
    {
        self.v_addr = (self.v_addr & !0x7BE0u16) | (self.t_addr & 0x7BE0);
    }

    /// The last completed frame.
    pub fn get_front_buffer(&self) -> (r: &Vec<u8>)
        ensures
            r@ == self.front_buffer@,
    {
        &self.front_buffer
    }

    /// Whether a frame moved to the front buffer since the last call;
    /// clears the flag.
    pub fn take_frame_published(&mut self) -> (r: bool)
        ensures
            r == old(self).frame_published,
            *final(self) == (NesPPU { frame_published: false, ..*old(self) }),
    {
        let r = self.frame_published;
        self.frame_published = false;
        r
    }

    pub fn is_in_vblank(&self) -> (r: bool)
        ensures
            r == (self.status & 0x80 == 0x80),
    {
        (self.status & 0x80) == 0x80
    }

    pub fn is_nmi_enabled(&self) -> (r: bool)
        ensures
            r == (self.ctrl & 0x80 == 0x80),
    {
        (self.ctrl & 0x80) == 0x80
    }

    /// The NMI output: VBlank flagged and NMIs enabled.
    pub fn is_nmi_line_asserted(&self) -> (r: bool)
        ensures
            r == (self.status & 0x80 != 0 && self.ctrl & 0x80 != 0),
    {
        let nmi_occurred = (self.status & 0x80) != 0;
        let nmi_output = (self.ctrl & 0x80) != 0;
        nmi_occurred && nmi_output
    }

    /// Copies a page of CPU memory into OAM.
    pub fn write_oam_dma(&mut self, data: &[u8; 256])
        ensures
            final(self).oam@ == data@,
            *final(self) == (NesPPU { oam: final(self).oam, ..*old(self) }),
    {
        self.oam = *data;
    }

    /// A PPU bus read: pattern tables from the cartridge, nametables through
    /// the cartridge's mirroring, palette RAM directly.
    pub fn ppu_read<M: Mapper + ?Sized>(&self, mapper: &M, addr: u16, is_bg: bool) -> (r: u8)
        requires
            mapper.inv(),
        ensures
            (addr & 0x3FFF) >= 0x3F00 ==> r == self.palette_ram@[palette_index(addr & 0x3FFF)],
            ((addr & 0x3FFF) <= 0x1FFF && !is_bg) ==> mapper.chr_read(addr & 0x3FFF, r),
    {
        let addr = addr & 0x3FFF;
        if addr <= 0x1FFF {
            mapper.ppu_read_ctx(addr, is_bg)
        } else if addr <= 0x3EFF {
            let is_attribute_byte = (addr & 0x03FF) >= 0x03C0;
            mapper.read_nametable_byte(addr, &self.vram, is_attribute_byte)
        } else {
            proof {
                crate::bits::lemma_word_fields(addr);
            }
            let mut palette_addr = (addr & 0x001F) as usize;
            if palette_addr >= 0x10 && (palette_addr % 4 == 0) {
                palette_addr = palette_addr - 0x10;
            }
            self.palette_ram[palette_addr]
        }
    }

    /// The PPU after a PPU bus write of `value` at `addr` into `t`: pattern
    /// writes go to the cartridge, nametable writes to one byte of VRAM (the
    /// cartridge decides which), palette writes to palette RAM (six bits).
    pub open spec fn vram_written(self, t: Self, addr: u16, value: u8) -> bool {
        let a = addr & 0x3FFF;
        if a <= 0x1FFF {
            t == self
        } else if a <= 0x3EFF {
            &&& t == (NesPPU { vram: t.vram, ..self })
            &&& exists|i: int| 0 <= i < 4096 && t.vram@ == self.vram@.update(i, value)
        } else {
            &&& t == (NesPPU { palette_ram: t.palette_ram, ..self })
            &&& t.palette_ram@ == self.palette_ram@.update(palette_index(a), value & 0x3F)
        }
    }

    /// A PPU bus write.
    pub fn ppu_write<M: Mapper + ?Sized>(&mut self, mapper: &mut M, addr: u16, value: u8)
        requires
            old(mapper).inv(),
        ensures
            final(mapper).inv(),
            old(self).vram_written(*final(self), addr, value),
    {
        let addr = addr & 0x3FFF;
        if addr <= 0x1FFF {
            mapper.ppu_write(addr, value);
        } else if addr <= 0x3EFF {
            let mirrored_addr = mapper.mirror_vram_address(addr);
            proof {
                crate::bits::lemma_usize_fields(mirrored_addr, 0);
            }
            self.vram[mirrored_addr & 0x0FFF] = value;
            assert(self.vram@ == old(self).vram@.update((mirrored_addr & 0x0FFF) as int, value));
        } else {
            proof {
                crate::bits::lemma_word_fields(addr);
            }
            let mut palette_addr = (addr & 0x001F) as usize;
            if palette_addr >= 0x10 && (palette_addr % 4 == 0) {
                palette_addr = palette_addr - 0x10;
            }
            self.palette_ram[palette_addr] = value & 0x3F;
        }
    }

    /// A CPU read of PPU register `reg` ($2000 + reg), with `open_bus` the
    /// last value on the CPU data bus: PPUSTATUS (its low five bits float,
    /// and the read clears VBlank and the write latch), OAMDATA, PPUDATA
    /// (buffered below the palette), and open bus for the write-only ones.
    pub fn cpu_read_reg<M: Mapper + ?Sized>(&mut self, mapper: &M, reg: u16, open_bus: u8) -> (r: u8)
        requires
            reg == 7 ==> mapper.inv(),
        ensures
            reg != 7 ==> r == old(self).reg_value(reg, open_bus),
            reg == 2 ==> *final(self) == (NesPPU { status: old(self).status & 0x7F, w_latch: false, ..*old(self) }),
            reg == 7 ==> *final(self) == (NesPPU {
                v_addr: old(self).v_addr.wrapping_add(old(self).vram_increment as u16),
                data_buffer: final(self).data_buffer,
                ..*old(self)
            }),
            reg == 7 && old(self).v_addr < 0x3F00 ==> r == old(self).data_buffer,
            reg != 2 && reg != 7 ==> *final(self) == *old(self),
    {
        if reg == 2 {
            let res = (self.status & 0xE0) | (open_bus & 0x1F);
            self.status = self.status & 0x7F;
            self.w_latch = false;
            res
        } else if reg == 4 {
            let mut value = self.oam[self.oam_addr as usize];
            if (self.oam_addr & 0x03) == 2 {
                value = value & 0xE3;
            }
            value
        } else if reg == 7 {
            let mut data = self.ppu_read(mapper, self.v_addr, false);
            if self.v_addr < 0x3F00 {
                let buffered_data = self.data_buffer;
                self.data_buffer = data;
                data = buffered_data;
            } else {
                self.data_buffer = self.ppu_read(mapper, self.v_addr.wrapping_sub(0x1000), false);
            }
            self.v_addr = self.v_addr.wrapping_add(self.vram_increment as u16);
            data
        } else if reg == 0 || reg == 1 || reg == 3 || reg == 5 || reg == 6 {
            open_bus
        } else {
            0
        }
    }

    /// A CPU write of `value` to PPU register `reg` ($2000 + reg). A write
    /// that raises VRAM address bit 12 while rendering is off clocks the
    /// cartridge's scanline counter.
    pub fn cpu_write_reg<M: Mapper + ?Sized>(&mut self, mapper: &mut M, reg: u16, value: u8)
        requires
            old(mapper).inv(),
            old(self).tables_ok(),
        ensures
            final(mapper).inv(),
            final(self).tables_ok(),
            reg != 4 && reg != 7 ==> *final(self) == old(self).reg_written(reg, value),
            reg == 4 ==> final(self).oam@ == old(self).oam@.update(old(self).oam_addr as int, value),
            reg == 4 ==> *final(self) == (NesPPU {
                oam: final(self).oam,
                oam_addr: old(self).oam_addr.wrapping_add(1),
                ..*old(self)
            }),
            reg == 7 ==> exists|mid: NesPPU| #[trigger] old(self).vram_written(mid, old(self).v_addr, value)
                && *final(self) == (NesPPU { v_addr: old(self).v_addr.wrapping_add(old(self).vram_increment as u16), ..mid }),
    {
        if self.scanline >= 0 && self.scanline < 240 && self.cycle > 0 && self.cycle < 256 {
            if reg == 0 || reg == 1 || reg == 5 || reg == 6 {
                self.mid_scanline_write = true;
            }
        }
        if reg == 0 {
            self.ctrl = value;
            self.t_addr = (self.t_addr & 0xF3FF) | (((value & 0x03) as u16) << 10u16);
            self.vram_increment = if (value & 0x04) == 0x04 { 32 } else { 1 };
            self.background_pattern_table = if (value & 0x10) == 0x10 { 0x1000 } else { 0x0000 };
            self.sprite_pattern_table = if (value & 0x08) == 0x08 { 0x1000 } else { 0x0000 };
            self.sprite_size = if (value & 0x20) == 0x20 { 16 } else { 8 };
        } else if reg == 1 {
            self.mask = value;
        } else if reg == 3 {
            self.oam_addr = value;
        } else if reg == 4 {
            self.oam[self.oam_addr as usize] = value;
            self.oam_addr = self.oam_addr.wrapping_add(1);
        } else if reg == 5 {
            if self.w_latch == false {
                self.t_addr = (self.t_addr & 0x7FE0) | ((value >> 3u8) as u16);
                self.fine_x = value & 0x07;
                self.w_latch = true;
            } else {
                self.t_addr = (self.t_addr & 0x0C1F) | (((value & 0x07) as u16) << 12u16) | (((value >> 3u8) as u16) << 5u16);
                self.w_latch = false;
            }
        } else if reg == 6 {
            if self.w_latch == false {
                self.t_addr = (self.t_addr & 0x00FF) | (((value & 0x3F) as u16) << 8u16);
                self.w_latch = true;
            } else {
                let old_v = self.v_addr;
                self.t_addr = (self.t_addr & 0xFF00) | (value as u16);
                self.v_addr = self.t_addr;
                self.w_latch = false;
                let old_a12 = (old_v & 0x1000) != 0;
                let new_a12 = (self.v_addr & 0x1000) != 0;
                if !old_a12 && new_a12 && !self.rendering_enabled() {
                    mapper.clock_scanline();
                }
            }
        } else if reg == 7 {
            let old_v = self.v_addr;
            let ghost s0 = *self;
            self.ppu_write(mapper, old_v, value);
            let ghost mid = *self;
            self.v_addr = self.v_addr.wrapping_add(self.vram_increment as u16);
            let old_a12 = (old_v & 0x1000) != 0;
            let new_a12 = (self.v_addr & 0x1000) != 0;
            if !old_a12 && new_a12 && !self.rendering_enabled() {
                mapper.clock_scanline();
            }
            assert(s0.vram_written(mid, s0.v_addr, value));
        }
    }
}

impl NesPPU {
    /// Draws column `x` of the current visible line into the back buffer
    /// and raises the sprite-0 hit flag where it occurs.
    fn render_pixel(&mut self, x: usize)
        requires
            old(self).wf(),
            0 <= old(self).scanline <= 239,
            x < 256,
        ensures
            ({
                let base = (old(self).scanline as int * 256 + x) * 4;
                let rgb = old(self).pixel_rgb(x as int);
                final(self).back_buffer@ == old(self).back_buffer@.update(base, rgb.0).update(base + 1, rgb.1)
                    .update(base + 2, rgb.2).update(base + 3, 255)
            }),
            final(self).status == (if old(self).sprite0_hit(x as int) { old(self).status | 0x40 } else { old(self).status }),
            *final(self) == (NesPPU { back_buffer: final(self).back_buffer, status: final(self).status, ..*old(self) }),
    {
        let mut bg_show = (self.mask & 0x08) != 0;
        let mut spr_show = (self.mask & 0x10) != 0;
        if x < 8 {
            if (self.mask & 0x02) == 0 {
                bg_show = false;
            }
            if (self.mask & 0x04) == 0 {
                spr_show = false;
            }
        }
        let pixel_index: usize = (self.scanline as usize * 256 + x) * 4;
        if !bg_show && !spr_show {
            proof {
                crate::bits::lemma_byte_fields(self.palette_ram@[0]);
            }
            let color_idx = self.palette_ram[0] & 0x3F;
            let (r, g, b) = palette_lookup(color_idx);
            self.back_buffer.set(pixel_index, r);
            self.back_buffer.set(pixel_index + 1, g);
            self.back_buffer.set(pixel_index + 2, b);
            self.back_buffer.set(pixel_index + 3, 255);
            return;
        }
        let mut bg_pixel = 0u8;
        let mut bg_palette_idx = 0u8;
        if bg_show {
            let total_offset = x + self.fine_x as usize;
            let tile_idx = total_offset / 8;
            let bit_shift = (7 - (total_offset % 8)) as u8;
            let (bg_low, bg_high, p_idx) = self.scanline_bg[tile_idx];
            bg_palette_idx = p_idx;
            proof {
                lemma_planes(bg_low, bg_high, bit_shift);
            }
            bg_pixel = (((bg_high >> bit_shift) & 0x01) << 1u8) | ((bg_low >> bit_shift) & 0x01);
        }
        assert((bg_pixel, bg_palette_idx) == self.bg_at(x as int));
        let mut sprite_pixel = 0u8;
        let mut sprite_palette_idx = 0u8;
        let mut sprite_priority = 0u8;
        let mut is_sprite_zero = false;
        let mut found: Option<usize> = None;
        if spr_show {
            found = find_line_sprite(&self.scanline_sprites, x);
            if let Some(j) = found {
                let s = self.scanline_sprites[j];
                sprite_pixel = line_sprite_pixel(s, x);
                proof {
                    crate::bits::lemma_byte_fields(s.4);
                }
                sprite_palette_idx = s.4 & 0x03;
                sprite_priority = (s.4 >> 5u8) & 1;
                is_sprite_zero = s.5;
            }
        }
        assert(self.spr_at(x as int) == (match found {
            Some(j) => Some(j as int),
            None => None::<int>,
        }));
        if is_sprite_zero && bg_pixel != 0 && sprite_pixel != 0 && bg_show && spr_show {
            let bg_clipped = (self.mask & 0x02) == 0 && x < 8;
            let spr_clipped = (self.mask & 0x04) == 0 && x < 8;
            if !bg_clipped && !spr_clipped && x < 255 {
                self.status = self.status | 0x40;
            }
        }
        let final_palette_offset: usize = if sprite_pixel != 0 && (bg_pixel == 0 || sprite_priority == 0) {
            0x10 + sprite_palette_idx as usize * 4 + sprite_pixel as usize
        } else if bg_pixel != 0 {
            bg_palette_idx as usize * 4 + bg_pixel as usize
        } else {
            0x00
        };
        assert(final_palette_offset == self.palette_offset(x as int));
        proof {
            crate::bits::lemma_byte_fields(self.palette_ram@[final_palette_offset as int]);
        }
        let color_idx = self.palette_ram[final_palette_offset] & 0x3F;
        let (r, g, b) = palette_lookup(color_idx);
        self.back_buffer.set(pixel_index, r);
        self.back_buffer.set(pixel_index + 1, g);
        self.back_buffer.set(pixel_index + 2, b);
        self.back_buffer.set(pixel_index + 3, 255);
    }

    /// Fetches the current line's 33 background tiles and its sprites.
    fn prefetch_scanline<M: Mapper + ?Sized>(&mut self, mapper: &M)
        requires
            old(self).wf(),
            old(self).tables_ok(),
            0 <= old(self).scanline <= 239,
            mapper.inv(),
        ensures
            old(self).prefetched(*final(self)),
            final(self).wf(),
            final(self).tables_ok(),
    {
        proof {
            lemma_fetch_bits(self.v_addr);
        }
        let ghost s0 = *self;
        let mut coarse_x: u16 = self.v_addr & 0x001F;
        let mut h_nt: u16 = (self.v_addr >> 10u16) & 0x01;
        let v_nt: u16 = (self.v_addr >> 11u16) & 0x01;
        let coarse_y: usize = ((self.v_addr >> 5u16) & 0x1F) as usize;
        let fine_y: usize = ((self.v_addr >> 12u16) & 0x07) as usize;
        let mut i: usize = 0;
        while i < 33
            invariant
                i <= 33,
                coarse_x <= 31,
                h_nt <= 1,
                v_nt <= 1,
                coarse_y <= 31,
                fine_y <= 7,
                mapper.inv(),
                s0.tables_ok(),
                *self == (NesPPU { scanline_bg: self.scanline_bg, ..s0 }),
                forall|k: int| 0 <= k < 33 ==> (#[trigger] self.scanline_bg@[k]).2 <= 3,
            decreases 33 - i,
        {
            let base_nt: u16 = 0x2000 + ((v_nt * 2 + h_nt) * 0x400);
            let nt_addr: u16 = base_nt + (coarse_y as u16 * 32 + coarse_x);
            let tile_id = self.ppu_read(mapper, nt_addr, true);
            let pattern_addr: u16 = self.background_pattern_table + (tile_id as u16 * 16) + fine_y as u16;
            let low_byte = self.ppu_read(mapper, pattern_addr, true);
            let high_byte = self.ppu_read(mapper, pattern_addr + 8, true);
            let attr_table_addr: u16 = base_nt + 0x03C0 + ((coarse_y / 4) as u16 * 8) + (coarse_x / 4);
            let attr_byte = self.ppu_read(mapper, attr_table_addr, true);
            let quadrant_x = (coarse_x as usize % 4) / 2;
            let quadrant_y = (coarse_y % 4) / 2;
            let attr_shift = ((quadrant_y * 2 + quadrant_x) * 2) as u8;
            proof {
                crate::bits::lemma_byte_fields(attr_byte >> attr_shift);
            }
            let palette_idx = (attr_byte >> attr_shift) & 0x03;
            self.scanline_bg[i] = (low_byte, high_byte, palette_idx);
            coarse_x += 1;
            if coarse_x == 32 {
                coarse_x = 0;
                h_nt = if h_nt == 0 { 1 } else { 0 };
            }
            i += 1;
        }
        self.scanline_sprites.clear();
        let height: usize = self.sprite_size as usize;
        let ghost s1 = *self;
        let ghost line = s0.scanline as int;
        let mut i: usize = 0;
        while i < 64 && self.scanline_sprites.len() < 8
            invariant
                i <= 64,
                height == s0.sprite_size,
                height == 8 || height == 16,
                0 <= line <= 239,
                line == s0.scanline,
                mapper.inv(),
                s0.tables_ok(),
                s1 == (NesPPU { scanline_bg: s1.scanline_bg, scanline_sprites: s1.scanline_sprites, ..s0 }),
                *self == (NesPPU { scanline_sprites: self.scanline_sprites, ..s1 }),
                sprites_match(self.scanline_sprites@, s0.oam@, nes_line_sprites(s0.oam@, line, height as int, i as int)),
            decreases 64 - i,
        {
            let oam_idx = i * 4;
            let sprite_y = self.oam[oam_idx] as usize;
            let line_now = self.scanline as usize;
            let ghost before = nes_line_sprites(s0.oam@, line, height as int, i as int);
            if !(line_now < sprite_y + 1 || line_now >= sprite_y + 1 + height) {
                let sprite_tile = self.oam[oam_idx + 1];
                proof {
                    crate::bits::lemma_byte_fields(sprite_tile);
                }
                let sprite_attr = self.oam[oam_idx + 2];
                let sprite_x = self.oam[oam_idx + 3];
                let mut fy = line_now - (sprite_y + 1);
                if (sprite_attr & 0x80) != 0 {
                    fy = height - 1 - fy;
                }
                let table: u16 = if height == 16 { ((sprite_tile & 0x01) as u16) * 0x1000 } else { self.sprite_pattern_table };
                let actual_tile: u8 = if height == 16 { sprite_tile & 0xFE } else { sprite_tile };
                let mut tile_offset: u16 = 0;
                let mut final_fine_y = fy;
                if height == 16 && fy >= 8 {
                    tile_offset = 1;
                    final_fine_y = final_fine_y - 8;
                }
                let pattern_addr: u16 = table + ((actual_tile as u16 + tile_offset) * 16) + final_fine_y as u16;
                let low_byte = self.ppu_read(mapper, pattern_addr, false);
                let high_byte = self.ppu_read(mapper, pattern_addr + 8, false);
                self.scanline_sprites.push((i, sprite_x, low_byte, high_byte, sprite_attr, i == 0));
                assert(nes_line_sprites(s0.oam@, line, height as int, (i + 1) as int) == before.push(i));
            } else {
                assert(nes_line_sprites(s0.oam@, line, height as int, (i + 1) as int) == before);
            }
            i += 1;
        }
        proof {
            lemma_line_sprites_full(s0.oam@, line, height as int, i as int, 64);
        }
    }

    /// The scroll updates of one dot of a rendering line.
    fn scroll_dot(&mut self)
        requires
            0 <= old(self).cycle <= 340,
        ensures
            *final(self) == (NesPPU { v_addr: old(self).scroll_stepped(), ..*old(self) }),
    {
        if self.cycle > 0 && self.cycle <= 256 && self.cycle % 8 == 0 {
            self.increment_coarse_x();
        }
        if self.cycle == 256 {
            self.increment_fine_y();
        }
        if self.cycle == 257 {
            self.copy_horizontal();
        }
        if self.scanline == 261 && self.cycle >= 280 && self.cycle <= 304 {
            self.copy_vertical();
        }
    }

    /// The rest of a dot once the line buffers are fetched.
    fn finish_dot<M: Mapper + ?Sized>(&mut self, mapper: &mut M, rendering: bool)
        requires
            old(self).wf(),
            old(self).tables_ok(),
            old(mapper).inv(),
            rendering == old(self).rendering_on(),
        ensures
            final(self).wf(),
            final(self).tables_ok(),
            final(mapper).inv(),
            old(self).dot_finished(*final(self), rendering),
    {
        let ghost s0 = *self;
        let sl = self.scanline;
        let c = self.cycle;
        if 0 <= sl && sl <= 239 {
            if c < 256 {
                self.render_pixel(c as usize);
            }
            if rendering {
                self.scroll_dot();
            }
        } else if sl == 240 {
            if c == 0 {
                let mut fresh: Vec<u8> = vec![0u8; NES_FRAME_BYTES];
                std::mem::swap(&mut self.back_buffer, &mut fresh);
                self.front_buffer = fresh;
                self.frame_published = true;
                assert(self.back_buffer@ =~= Seq::new(NES_FRAME_BYTES as nat, |i: int| 0u8));
            }
        } else if sl == 241 {
            if c == 1 {
                self.status = self.status | 0x80;
            }
        } else if sl == 261 {
            if c == 1 {
                self.status = self.status & 0x3F;
            }
            if rendering {
                self.scroll_dot();
            }
        }
        if rendering {
            if self.scanline < 240 || self.scanline == 261 {
                let target_clock_cycle: i16 = if self.background_pattern_table == 0x1000 { 4 } else { 260 };
                if self.cycle == target_clock_cycle {
                    mapper.clock_scanline();
                }
            }
        }
        self.cycle = self.cycle + 1;
        if self.cycle >= 341 {
            self.cycle = 0;
            self.scanline = self.scanline + 1;
            if self.scanline > 261 {
                self.scanline = 0;
                mapper.notify_frame_start();
            }
        }
    }

    /// One PPU dot.
    pub fn step_one_ppu_cycle<M: Mapper + ?Sized>(&mut self, mapper: &mut M)
        requires
            old(self).wf(),
            old(self).tables_ok(),
            old(mapper).inv(),
        ensures
            final(self).wf(),
            final(self).tables_ok(),
            final(mapper).inv(),
            old(self).dot_stepped(*final(self)),
    {
        let rendering_enabled = self.rendering_enabled();
        if self.scanline >= 0 && self.scanline <= 239 && self.cycle == 0 {
            self.mid_scanline_write = false;
            self.prefetch_scanline(mapper);
        }
        let ghost mid = *self;
        self.finish_dot(mapper, rendering_enabled);
        assert(mid.dot_finished(*self, rendering_enabled));
    }
}

/// Whether OAM entry `i` (`height` lines tall) covers pixel (`x`, `y`).
pub open spec fn sprite_covers(oam: Seq<u8>, height: int, i: int, x: int, y: int) -> bool {
    let sy = oam[i * 4] as int + 1;
    let sx = oam[i * 4 + 3] as int;
    sy <= y < sy + height && sx <= x < sx + 8
}

/// Step `i` of run `tr` is one counted dot.
pub open spec fn ppu_dot_at(tr: Seq<NesPPU>, i: int) -> bool {
    tr[i].dot_counted(tr[i + 1])
}

/// `tr` is a run of `n` counted dots from `s` to `t`.
pub open spec fn ppu_trace(tr: Seq<NesPPU>, s: NesPPU, t: NesPPU, n: nat) -> bool {
    &&& tr.len() == n + 1
    &&& tr[0] == s
    &&& tr[n as int] == t
    &&& forall|i: int| 0 <= i < n ==> #[trigger] ppu_dot_at(tr, i)
}

/// `t` is `s` after `n` counted dots.
pub open spec fn ppu_dots_run(s: NesPPU, t: NesPPU, n: nat) -> bool {
    exists|tr: Seq<NesPPU>| #[trigger] ppu_trace(tr, s, t, n)
}

impl NesPPU {
    /// One dot that also advances the running dot count.
    pub open spec fn dot_counted(self, t: Self) -> bool {
        &&& self.dot_stepped(NesPPU { total_ppu_cycles: self.total_ppu_cycles, ..t })
        &&& t.total_ppu_cycles == self.total_ppu_cycles + 1
    }

    fn counted_dot<M: Mapper + ?Sized>(&mut self, mapper: &mut M)
        requires
            old(self).wf(),
            old(self).tables_ok(),
            old(mapper).inv(),
            old(self).total_ppu_cycles < u64::MAX,
        ensures
            final(self).wf(),
            final(self).tables_ok(),
            final(mapper).inv(),
            old(self).dot_counted(*final(self)),
    {
        self.step_one_ppu_cycle(mapper);
        let ghost mid = *self;
        self.total_ppu_cycles = self.total_ppu_cycles + 1;
        assert(mid == (NesPPU { total_ppu_cycles: old(self).total_ppu_cycles, ..*self }));
    }

    /// Runs `cycles` PPU dots.
    pub fn step<M: Mapper + ?Sized>(&mut self, mapper: &mut M, cycles: u64)
        requires
            old(self).wf(),
            old(self).tables_ok(),
            old(mapper).inv(),
            old(self).total_ppu_cycles + cycles <= u64::MAX,
        ensures
            final(self).wf(),
            final(self).tables_ok(),
            final(mapper).inv(),
            final(self).total_ppu_cycles == old(self).total_ppu_cycles + cycles,
            ppu_dots_run(*old(self), *final(self), cycles as nat),
    {
        let ghost start = *self;
        let ghost mut tr: Seq<NesPPU> = seq![start];
        let mut k: u64 = 0;
        while k < cycles
            invariant
                k <= cycles,
                self.wf(),
                self.tables_ok(),
                mapper.inv(),
                self.total_ppu_cycles == start.total_ppu_cycles + k,
                start.total_ppu_cycles + cycles <= u64::MAX,
                ppu_trace(tr, start, *self, k as nat),
            decreases cycles - k,
        {
            self.counted_dot(mapper);
            proof {
                let tr2 = tr.push(*self);
                assert forall|i: int| 0 <= i < k + 1 implies #[trigger] ppu_dot_at(tr2, i) by {
                    if i < k {
                        assert(ppu_dot_at(tr, i));
                        assert(tr2[i] == tr[i] && tr2[i + 1] == tr[i + 1]);
                    }
                }
                tr = tr2;
            }
            k += 1;
        }
        assert(ppu_trace(tr, start, *self, cycles as nat));
    }

    /// Runs the PPU up to three dots per CPU cycle of `cpu_cycles`.
    pub fn catch_up<M: Mapper + ?Sized>(&mut self, mapper: &mut M, cpu_cycles: u64)
        requires
            old(self).wf(),
            old(self).tables_ok(),
            old(mapper).inv(),
            cpu_cycles * 3 <= u64::MAX,
        ensures
            final(self).wf(),
            final(self).tables_ok(),
            final(mapper).inv(),
            final(self).total_ppu_cycles == (if old(self).total_ppu_cycles < cpu_cycles * 3 {
                cpu_cycles * 3
            } else {
                old(self).total_ppu_cycles as int
            }),
            ppu_dots_run(*old(self), *final(self), (final(self).total_ppu_cycles - old(self).total_ppu_cycles) as nat),
    {
        let target_ppu_cycles: u64 = cpu_cycles * 3;
        let ghost start = *self;
        let ghost mut tr: Seq<NesPPU> = seq![start];
        while self.total_ppu_cycles < target_ppu_cycles
            invariant
                self.wf(),
                self.tables_ok(),
                mapper.inv(),
                start.total_ppu_cycles <= self.total_ppu_cycles,
                start.total_ppu_cycles < target_ppu_cycles ==> self.total_ppu_cycles <= target_ppu_cycles,
                start.total_ppu_cycles >= target_ppu_cycles ==> *self == start,
                ppu_trace(tr, start, *self, (self.total_ppu_cycles - start.total_ppu_cycles) as nat),
            decreases target_ppu_cycles - self.total_ppu_cycles,
        {
            let ghost n = (self.total_ppu_cycles - start.total_ppu_cycles) as nat;
            self.counted_dot(mapper);
            proof {
                let tr2 = tr.push(*self);
                assert forall|i: int| 0 <= i < n + 1 implies #[trigger] ppu_dot_at(tr2, i) by {
                    if i < n {
                        assert(ppu_dot_at(tr, i));
                        assert(tr2[i] == tr[i] && tr2[i + 1] == tr[i + 1]);
                    }
                }
                tr = tr2;
            }
        }
    }

    /// The pattern-table address of sprite `i`'s row at screen line `y`,
    /// after a vertical flip; an 8x16 sprite takes its table from the tile
    /// number's low bit and its lower half from the next tile.
    pub open spec fn sprite_row_addr(self, i: int, y: int) -> int {
        let h = self.sprite_size as int;
        let tile = self.oam@[i * 4 + 1];
        let attr = self.oam@[i * 4 + 2];
        let fy0 = y - (self.oam@[i * 4] as int + 1);
        let fy = if attr & 0x80 != 0 { (h - 1) - fy0 } else { fy0 };
        if h == 8 {
            self.sprite_pattern_table as int + tile as int * 16 + fy
        } else if fy >= 8 {
            (tile & 0x01) as int * 0x1000 + ((tile & 0xFE) as int + 1) * 16 + (fy - 8)
        } else {
            (tile & 0x01) as int * 0x1000 + (tile & 0xFE) as int * 16 + fy
        }
    }

    /// The bit of sprite `i`'s pattern bytes that screen column `x` shows,
    /// after a horizontal flip.
    pub open spec fn sprite_bit(self, i: int, x: int) -> u8 {
        let fx0 = x - self.oam@[i * 4 + 3] as int;
        let fx = if self.oam@[i * 4 + 2] & 0x40 != 0 { 7 - fx0 } else { fx0 };
        (7 - fx) as u8
    }

    /// Whether `c` is the color that sprite `i` shows at (`x`, `y`) for some
    /// two pattern bytes of its row that the board can give.
    pub open spec fn sprite_color_read<M: Mapper + ?Sized>(self, mapper: &M, i: int, x: int, y: int, c: u8) -> bool {
        let a = self.sprite_row_addr(i, y);
        exists|lo: u8, hi: u8|
            #[trigger] mapper.chr_read((a as u16) & 0x3FFF, lo) && #[trigger] mapper.chr_read(((a + 8) as u16) & 0x3FFF, hi)
                && c == planes(lo, hi, self.sprite_bit(i, x))
    }

    /// The first sprite in OAM order with an opaque pixel at (`x`, `y`).
    #[verifier::spinoff_prover]
    #[verifier::rlimit(100)]
    fn get_sprite_pixel<M: Mapper + ?Sized>(&self, mapper: &M, x: usize, y: usize) -> (r: Option<SpritePixelInfo>)
        requires
            self.wf(),
            self.tables_ok(),
            mapper.inv(),
        ensures
            r is None ==> forall|i: int| 0 <= i < 64
                && #[trigger] sprite_covers(self.oam@, self.sprite_size as int, i, x as int, y as int)
                ==> self.sprite_color_read(mapper, i, x as int, y as int, 0),
            r matches Some(info) ==> exists|i: int| 0 <= i < 64
                && #[trigger] sprite_covers(self.oam@, self.sprite_size as int, i, x as int, y as int)
                && info.palette_idx == self.oam@[i * 4 + 2] & 0x03
                && info.priority == (self.oam@[i * 4 + 2] & 0x20) >> 5u8
                && info.is_sprite_0 == (i == 0)
                && 1 <= info.color_bit <= 3
                && self.sprite_color_read(mapper, i, x as int, y as int, info.color_bit)
                && forall|j: int| 0 <= j < i
                    && #[trigger] sprite_covers(self.oam@, self.sprite_size as int, j, x as int, y as int)
                    ==> self.sprite_color_read(mapper, j, x as int, y as int, 0),
    {
        let sprite_height = self.sprite_size as usize;
        let mut i: usize = 0;
        while i < 64
            invariant
                i <= 64,
                mapper.inv(),
                self.wf(),
                self.tables_ok(),
                sprite_height == self.sprite_size,
                forall|j: int| 0 <= j < i
                    && #[trigger] sprite_covers(self.oam@, self.sprite_size as int, j, x as int, y as int)
                    ==> self.sprite_color_read(mapper, j, x as int, y as int, 0),
            decreases 64 - i,
        {
            let oam_base = i * 4;
            let sprite_y = self.oam[oam_base] as usize;
            let tile_id = self.oam[oam_base + 1];
            let attributes = self.oam[oam_base + 2];
            let sprite_x = self.oam[oam_base + 3] as usize;
            let actual_y = sprite_y + 1;
            if y >= actual_y && y < actual_y + sprite_height {
                if x >= sprite_x && x < sprite_x + 8 {
                    let mut fine_y = y - actual_y;
                    let mut fine_x = x - sprite_x;
                    let flip_horizontal = (attributes & 0x40) != 0;
                    let flip_vertical = (attributes & 0x80) != 0;
                    let priority = (attributes & 0x20) >> 5u8;
                    let palette_idx = attributes & 0x03;
                    if flip_horizontal {
                        fine_x = 7 - fine_x;
                    }
                    if flip_vertical {
                        fine_y = (sprite_height - 1) - fine_y;
                    }
                    proof {
                        crate::bits::lemma_byte_fields(tile_id);
                    }
                    let pattern_addr: u16 = if sprite_height == 8 {
                        self.sprite_pattern_table + (tile_id as u16 * 16) + fine_y as u16
                    } else {
                        let bank = (tile_id & 0x01) as u16 * 0x1000;
                        let mut actual_tile = tile_id & 0xFE;
                        if fine_y >= 8 {
                            actual_tile = actual_tile + 1;
                            fine_y = fine_y - 8;
                        }
                        bank + (actual_tile as u16 * 16) + fine_y as u16
                    };
                    let low_byte = self.ppu_read(mapper, pattern_addr, false);
                    let high_byte = self.ppu_read(mapper, pattern_addr + 8, false);
                    let bit_shift = (7 - fine_x) as u8;
                    proof {
                        lemma_planes(low_byte, high_byte, bit_shift);
                    }
                    let color_bit = (((high_byte >> bit_shift) & 0x01) << 1u8) | ((low_byte >> bit_shift) & 0x01);
                    proof {
                        let a = self.sprite_row_addr(i as int, y as int);
                        assert(pattern_addr as int == a);
                        assert(bit_shift == self.sprite_bit(i as int, x as int));
                        lemma_pattern_addr_masked(pattern_addr);
                        lemma_pattern_addr_masked((pattern_addr + 8) as u16);
                        assert(mapper.chr_read(pattern_addr & 0x3FFF, low_byte));
                        assert(mapper.chr_read(((pattern_addr + 8) as u16) & 0x3FFF, high_byte));
                        assert((a as u16) == pattern_addr && ((a + 8) as u16) == ((pattern_addr + 8) as u16));
                        assert(color_bit == planes(low_byte, high_byte, bit_shift));
                        assert(mapper.chr_read((a as u16) & 0x3FFF, low_byte)
                            && mapper.chr_read(((a + 8) as u16) & 0x3FFF, high_byte)
                            && color_bit == planes(low_byte, high_byte, self.sprite_bit(i as int, x as int)));
                    }
                    assert(self.sprite_color_read(mapper, i as int, x as int, y as int, color_bit));
                    if color_bit != 0 {
                        assert(sprite_covers(self.oam@, self.sprite_size as int, i as int, x as int, y as int));
                        return Some(SpritePixelInfo { color_bit, palette_idx, priority, is_sprite_0: i == 0 });
                    }
                }
            }
            i += 1;
        }
        None
    }
}

/// Runs compose: `n` dots from `s` to `t` and then `m` dots from `t` to
/// `u` are `n + m` dots from `s` to `u`.
pub proof fn lemma_dots_run_concat(s: NesPPU, t: NesPPU, u: NesPPU, n: nat, m: nat)
    requires
        ppu_dots_run(s, t, n),
        ppu_dots_run(t, u, m),
    ensures
        ppu_dots_run(s, u, n + m),
{
    let tr1 = choose|tr: Seq<NesPPU>| #[trigger] ppu_trace(tr, s, t, n);
    let tr2 = choose|tr: Seq<NesPPU>| #[trigger] ppu_trace(tr, t, u, m);
    let tr = tr1 + tr2.subrange(1, (m + 1) as int);
    assert forall|i: int| 0 <= i < n + m implies #[trigger] ppu_dot_at(tr, i) by {
        if i < n {
            assert(ppu_dot_at(tr1, i));
            assert(tr[i] == tr1[i] && tr[i + 1] == tr1[i + 1]);
        } else {
            let j = i - n;
            assert(ppu_dot_at(tr2, j));
            assert(tr[i] == tr2[j] && tr[i + 1] == tr2[j + 1]);
        }
    }
    assert(ppu_trace(tr, s, u, n + m));
}

/// A palette write followed by a read of the same palette entry (through
/// any of its mirrors) gives back the written value's six color bits.
pub proof fn lemma_palette_write_read(s: NesPPU, t: NesPPU, waddr: u16, raddr: u16, value: u8)
    requires
        s.vram_written(t, waddr, value),
        waddr & 0x3FFF >= 0x3F00,
        raddr & 0x3FFF >= 0x3F00,
        palette_index(raddr & 0x3FFF) == palette_index(waddr & 0x3FFF),
    ensures
        t.palette_ram@[palette_index(raddr & 0x3FFF)] == value & 0x3F,
{
    crate::bits::lemma_word_fields(waddr & 0x3FFF);
    assert((waddr & 0x3FFF) & 0x3FFF == waddr & 0x3FFF) by (bit_vector);
}

} // verus!
