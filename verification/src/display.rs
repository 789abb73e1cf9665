//! The renderer bridge: paints background tiles and sprites from a PPU
//! snapshot into a 256 by 240 RGBA framebuffer. Sprites whose priority bit
//! puts them behind the background go first, then the main name table's
//! tiles clipped by the scroll origin, then the horizontally or vertically
//! adjacent name table, then the foreground sprites; within each sprite
//! pass the entries are walked in reverse so that sprite 0 lands on top.
//!
//! One 8 by 8 tile occupies 16 bytes of pattern memory: 8 low-plane bytes
//! followed by 8 high-plane bytes; the pixel at column `x` of row `y` takes
//! bit `7 - x` of each plane, the high plane contributing bit 1. Pixel
//! value 0 is transparent for sprites and shows the universal background
//! color for the background.

use vstd::prelude::*;
use crate::ppu::PPU;
use crate::ppu::PpuV;
use crate::ppu::ppu_wf;
use crate::rom::Mirroring;

verus! {

/// Framebuffer width in pixels.
pub const WIDTH: usize = 256;

/// Framebuffer height in pixels.
pub const HEIGHT: usize = 240;

/// Framebuffer size in bytes: four per pixel.
pub const FRAME_BYTES: usize = 245760;

/// A clip rectangle in frame coordinates: pixels with `x1 <= x < x2` and
/// `y1 <= y < y2` pass.
#[derive(Clone, Copy)]
pub struct Rect {
    pub x1: usize,
    pub y1: usize,
    pub x2: usize,
    pub y2: usize,
}

/// An RGBA framebuffer, row-major from the top-left, alpha always $FF.
pub struct Frame {
    pub data: Vec<u8>,
}

impl View for Frame {
    type V = Seq<u8>;

    open spec fn view(&self) -> Seq<u8> {
        self.data@
    }
}

/// A frame filled with one color, alpha opaque.
pub open spec fn frame_fill(color: (u8, u8, u8)) -> Seq<u8> {
    Seq::new(
        FRAME_BYTES as nat,
        |k: int|
            if k % 4 == 0 {
                color.0
            } else if k % 4 == 1 {
                color.1
            } else if k % 4 == 2 {
                color.2
            } else {
                0xFFu8
            },
    )
}

/// Painting one pixel: the three color bytes at its offset are replaced and
/// its alpha byte stays; a pixel outside the frame is dropped.
pub open spec fn set_pixel_s(f: Seq<u8>, x: int, y: int, rgb: (u8, u8, u8)) -> Seq<u8> {
    let base = y * 1024 + x * 4;
    if base < f.len() {
        f.update(base, rgb.0).update(base + 1, rgb.1).update(base + 2, rgb.2)
    } else {
        f
    }
}

impl Frame {
    /// A full-sized frame.
    pub open spec fn wf(&self) -> bool {
        self@.len() == FRAME_BYTES
    }

    /// A frame cleared to one color.
    pub fn new(color: (u8, u8, u8)) -> (r: Self)
        ensures
            r.wf(),
            r@ == frame_fill(color),
    {
        let mut data: Vec<u8> = Vec::new();
        let mut i: usize = 0;
        while i < 61440
            invariant
                i <= 61440,
                data@ == frame_fill(color).take(4 * i),
            decreases 61440 - i,
        {
            data.push(color.0);
            data.push(color.1);
            data.push(color.2);
            data.push(0xFF);
            proof {
                assert(data@ =~= frame_fill(color).take(4 * (i + 1)));
            }
            i = i + 1;
        }
        proof {
            assert(frame_fill(color).take(4 * 61440int) =~= frame_fill(color));
        }
        Frame { data }
    }

    /// Paints one pixel's color bytes, leaving alpha alone; coordinates
    /// outside the frame are ignored.
    pub fn set_pixel(&mut self, x: usize, y: usize, rgb: (u8, u8, u8))
        requires
            old(self).wf(),
            x <= 0xFFFF,
            y <= 0xFFFF,
        ensures
            final(self).wf(),
            final(self)@ == set_pixel_s(old(self)@, x as int, y as int, rgb),
    {
        let base = y * 4 * WIDTH + x * 4;
        if base < self.data.len() {
            proof {
                assert(base == 4 * (y * 256 + x));
                assert(4 * (y * 256 + x) < 245760 ==> y * 256 + x < 61440);
                assert(base + 3 < 245760);
            }
            self.data[base] = rgb.0;
            self.data[base + 1] = rgb.1;
            self.data[base + 2] = rgb.2;
        }
    }
}

/// The fixed 64-entry system color table.
pub open spec fn system_palette_s(idx: u8) -> (u8, u8, u8) {
    match idx & 0x3F {
        0 => (0x80, 0x80, 0x80),
        1 => (0x00, 0x3D, 0xA6),
        2 => (0x00, 0x12, 0xB0),
        3 => (0x44, 0x00, 0x96),
        4 => (0xA1, 0x00, 0x5E),
        5 => (0xC7, 0x00, 0x28),
        6 => (0xBA, 0x06, 0x00),
        7 => (0x8C, 0x17, 0x00),
        8 => (0x5C, 0x2F, 0x00),
        9 => (0x10, 0x45, 0x00),
        10 => (0x05, 0x4A, 0x00),
        11 => (0x00, 0x47, 0x2E),
        12 => (0x00, 0x41, 0x66),
        13 => (0x00, 0x00, 0x00),
        14 => (0x05, 0x05, 0x05),
        15 => (0x05, 0x05, 0x05),
        16 => (0xC7, 0xC7, 0xC7),
        17 => (0x00, 0x77, 0xFF),
        18 => (0x21, 0x55, 0xFF),
        19 => (0x82, 0x37, 0xFA),
        20 => (0xEB, 0x2F, 0xB5),
        21 => (0xFF, 0x29, 0x50),
        22 => (0xFF, 0x22, 0x00),
        23 => (0xD6, 0x32, 0x00),
        24 => (0xC4, 0x62, 0x00),
        25 => (0x35, 0x80, 0x00),
        26 => (0x05, 0x8F, 0x00),
        27 => (0x00, 0x8A, 0x55),
        28 => (0x00, 0x99, 0xCC),
        29 => (0x21, 0x21, 0x21),
        30 => (0x09, 0x09, 0x09),
        31 => (0x09, 0x09, 0x09),
        32 => (0xFF, 0xFF, 0xFF),
        33 => (0x0F, 0xD7, 0xFF),
        34 => (0x69, 0xA2, 0xFF),
        35 => (0xD4, 0x80, 0xFF),
        36 => (0xFF, 0x45, 0xF3),
        37 => (0xFF, 0x61, 0x8B),
        38 => (0xFF, 0x88, 0x33),
        39 => (0xFF, 0x9C, 0x12),
        40 => (0xFA, 0xBC, 0x20),
        41 => (0x9F, 0xE3, 0x0E),
        42 => (0x2B, 0xF0, 0x35),
        43 => (0x0C, 0xF0, 0xA4),
        44 => (0x05, 0xFB, 0xFF),
        45 => (0x5E, 0x5E, 0x5E),
        46 => (0x0D, 0x0D, 0x0D),
        47 => (0x0D, 0x0D, 0x0D),
        48 => (0xFF, 0xFF, 0xFF),
        49 => (0xA6, 0xFC, 0xFF),
        50 => (0xB3, 0xEC, 0xFF),
        51 => (0xDA, 0xAB, 0xEB),
        52 => (0xFF, 0xA8, 0xF9),
        53 => (0xFF, 0xAB, 0xB3),
        54 => (0xFF, 0xD2, 0xB0),
        55 => (0xFF, 0xEF, 0xA6),
        56 => (0xFF, 0xF7, 0x9C),
        57 => (0xD7, 0xE8, 0x95),
        58 => (0xA6, 0xED, 0xAF),
        59 => (0xA2, 0xF2, 0xDA),
        60 => (0x99, 0xFF, 0xFC),
        61 => (0xDD, 0xDD, 0xDD),
        62 => (0x11, 0x11, 0x11),
        63 => (0x11, 0x11, 0x11),
        _ => (0x11, 0x11, 0x11),
    }
}

/// Looks a color up in the system palette; the index is taken modulo 64.
pub fn system_palette(idx: u8) -> (r: (u8, u8, u8))
    ensures
        r == system_palette_s(idx),
{
    match idx & 0x3F {
        0 => (0x80, 0x80, 0x80),
        1 => (0x00, 0x3D, 0xA6),
        2 => (0x00, 0x12, 0xB0),
        3 => (0x44, 0x00, 0x96),
        4 => (0xA1, 0x00, 0x5E),
        5 => (0xC7, 0x00, 0x28),
        6 => (0xBA, 0x06, 0x00),
        7 => (0x8C, 0x17, 0x00),
        8 => (0x5C, 0x2F, 0x00),
        9 => (0x10, 0x45, 0x00),
        10 => (0x05, 0x4A, 0x00),
        11 => (0x00, 0x47, 0x2E),
        12 => (0x00, 0x41, 0x66),
        13 => (0x00, 0x00, 0x00),
        14 => (0x05, 0x05, 0x05),
        15 => (0x05, 0x05, 0x05),
        16 => (0xC7, 0xC7, 0xC7),
        17 => (0x00, 0x77, 0xFF),
        18 => (0x21, 0x55, 0xFF),
        19 => (0x82, 0x37, 0xFA),
        20 => (0xEB, 0x2F, 0xB5),
        21 => (0xFF, 0x29, 0x50),
        22 => (0xFF, 0x22, 0x00),
        23 => (0xD6, 0x32, 0x00),
        24 => (0xC4, 0x62, 0x00),
        25 => (0x35, 0x80, 0x00),
        26 => (0x05, 0x8F, 0x00),
        27 => (0x00, 0x8A, 0x55),
        28 => (0x00, 0x99, 0xCC),
        29 => (0x21, 0x21, 0x21),
        30 => (0x09, 0x09, 0x09),
        31 => (0x09, 0x09, 0x09),
        32 => (0xFF, 0xFF, 0xFF),
        33 => (0x0F, 0xD7, 0xFF),
        34 => (0x69, 0xA2, 0xFF),
        35 => (0xD4, 0x80, 0xFF),
        36 => (0xFF, 0x45, 0xF3),
        37 => (0xFF, 0x61, 0x8B),
        38 => (0xFF, 0x88, 0x33),
        39 => (0xFF, 0x9C, 0x12),
        40 => (0xFA, 0xBC, 0x20),
        41 => (0x9F, 0xE3, 0x0E),
        42 => (0x2B, 0xF0, 0x35),
        43 => (0x0C, 0xF0, 0xA4),
        44 => (0x05, 0xFB, 0xFF),
        45 => (0x5E, 0x5E, 0x5E),
        46 => (0x0D, 0x0D, 0x0D),
        47 => (0x0D, 0x0D, 0x0D),
        48 => (0xFF, 0xFF, 0xFF),
        49 => (0xA6, 0xFC, 0xFF),
        50 => (0xB3, 0xEC, 0xFF),
        51 => (0xDA, 0xAB, 0xEB),
        52 => (0xFF, 0xA8, 0xF9),
        53 => (0xFF, 0xAB, 0xB3),
        54 => (0xFF, 0xD2, 0xB0),
        55 => (0xFF, 0xEF, 0xA6),
        56 => (0xFF, 0xF7, 0x9C),
        57 => (0xD7, 0xE8, 0x95),
        58 => (0xA6, 0xED, 0xAF),
        59 => (0xA2, 0xF2, 0xDA),
        60 => (0x99, 0xFF, 0xFC),
        61 => (0xDD, 0xDD, 0xDD),
        62 => (0x11, 0x11, 0x11),
        63 => (0x11, 0x11, 0x11),
        _ => (0x11, 0x11, 0x11),
    }
}


/// The 2-bit pattern value of the pixel at column `x`, row `y` of the tile
/// whose 16 bytes start at `base`: bit `7 - x` of the high plane over the
/// same bit of the low plane.
pub open spec fn tile_pixel_s(chr: Seq<u8>, base: int, x: int, y: int) -> u8 {
    let lo = chr[base + y];
    let hi = chr[base + y + 8];
    let b = (7 - x) as u8;
    ((((hi >> b) & 1) << 1) | ((lo >> b) & 1)) as u8
}

/// The four background colors a tile at a given name-table position uses:
/// the universal background color, then the three colors of the palette the
/// attribute table assigns to the tile's 4 by 4 block.
pub open spec fn bg_palette_s(p: PpuV, nt: int, col: int, row: int) -> Seq<u8> {
    let attr = p.vram[0x03C0 + row / 4 * 8 + col / 4 + nt];
    let sel = (col % 4) / 2 + (if row % 4 >= 2 { 2int } else { 0int });
    let idx: u8 = if sel == 0 {
        (attr & 0x03) as u8
    } else if sel == 1 {
        ((attr >> 2) & 0x03) as u8
    } else if sel == 2 {
        ((attr >> 4) & 0x03) as u8
    } else {
        ((attr >> 6) & 0x03) as u8
    };
    let start = 1 + idx * 4;
    seq![
        p.palette_table[0],
        p.palette_table[start as int],
        p.palette_table[start + 1],
        p.palette_table[start + 2],
    ]
}

/// The four colors of a sprite palette; entry 0 is transparent.
pub open spec fn sprite_palette_s(p: PpuV, idx: u8) -> Seq<u8> {
    let start = 0x11 + idx * 4;
    seq![
        0u8,
        p.palette_table[start as int],
        p.palette_table[start + 1],
        p.palette_table[start + 2],
    ]
}

/// The attribute-table colors for the tile at `(col, row)` of a name table.
pub fn bg_palette(ppu: &PPU, name_table_offset: usize, tile_column: usize, tile_row: usize) -> (r:
    [u8; 4])
    requires
        ppu.wf(),
        name_table_offset == 0 || name_table_offset == 0x400,
        tile_column < 32,
        tile_row < 30,
    ensures
        r@ == bg_palette_s(ppu@, name_table_offset as int, tile_column as int, tile_row as int),
{
    proof {
        lemma_two_bit_bound(ppu@.vram[0x03C0 + tile_row as int / 4 * 8 + tile_column as int / 4
            + name_table_offset as int]);
    }
    let attr_table_idx: usize = tile_row / 4 * 8 + tile_column / 4;
    let attr_byte: u8 = ppu.vram[0x03C0 + attr_table_idx + name_table_offset];
    let sel: usize = (tile_column % 4) / 2 + (if tile_row % 4 >= 2 { 2 } else { 0 });
    let palette_idx: u8 = if sel == 0 {
        attr_byte & 0x03
    } else if sel == 1 {
        (attr_byte >> 2) & 0x03
    } else if sel == 2 {
        (attr_byte >> 4) & 0x03
    } else {
        (attr_byte >> 6) & 0x03
    };
    let palette_start: usize = (1 + palette_idx * 4) as usize;
    let r = [
        ppu.palette_table[0],
        ppu.palette_table[palette_start],
        ppu.palette_table[palette_start + 1],
        ppu.palette_table[palette_start + 2],
    ];
    proof {
        assert(r@ =~= bg_palette_s(
            ppu@,
            name_table_offset as int,
            tile_column as int,
            tile_row as int,
        ));
    }
    r
}

/// The colors of sprite palette `palette_idx`; entry 0 is transparent.
pub fn sprite_palette(ppu: &PPU, palette_idx: u8) -> (r: [u8; 4])
    requires
        ppu.wf(),
        palette_idx < 4,
    ensures
        r@ == sprite_palette_s(ppu@, palette_idx),
{
    let start: usize = 0x11 + (palette_idx * 4) as usize;
    let r = [
        0u8,
        ppu.palette_table[start],
        ppu.palette_table[start + 1],
        ppu.palette_table[start + 2],
    ];
    proof {
        assert(r@ =~= sprite_palette_s(ppu@, palette_idx));
    }
    r
}

/// One background pixel of a tile: painted at its offset shifted by the
/// scroll origin when it passes the viewport, would not land left of or
/// above the frame, and is not transparent.
pub open spec fn paint_bg_px(
    f: Seq<u8>,
    chr: Seq<u8>,
    base: int,
    vp: Rect,
    x_off: int,
    y_off: int,
    xs: int,
    ys: int,
    pal: Seq<u8>,
    x: int,
    y: int,
) -> Seq<u8> {
    let v = tile_pixel_s(chr, base, x, y);
    if x_off + x >= vp.x1 && x_off + x < vp.x2 && y_off + y >= vp.y1 && y_off + y < vp.y2 && x_off
        + x >= xs && y_off + y >= ys && v > 0 {
        set_pixel_s(f, x_off + x - xs, y_off + y - ys, system_palette_s(pal[v as int]))
    } else {
        f
    }
}

/// The first `k` pixels of a background tile, in row-major order.
pub open spec fn draw_tile_px(
    f: Seq<u8>,
    chr: Seq<u8>,
    base: int,
    vp: Rect,
    x_off: int,
    y_off: int,
    xs: int,
    ys: int,
    pal: Seq<u8>,
    k: int,
) -> Seq<u8>
    decreases k,
{
    if k <= 0 {
        f
    } else {
        paint_bg_px(
            draw_tile_px(f, chr, base, vp, x_off, y_off, xs, ys, pal, k - 1),
            chr,
            base,
            vp,
            x_off,
            y_off,
            xs,
            ys,
            pal,
            (k - 1) % 8,
            (k - 1) / 8,
        )
    }
}

/// One background tile, clipped by the viewport and shifted by the scroll
/// origin. A bank other than 0 or 1, or a tile past the end of pattern
/// memory, paints nothing.
pub open spec fn show_tile_s(
    f: Seq<u8>,
    chr: Seq<u8>,
    bank: int,
    tile_n: int,
    vp: Rect,
    x_off: int,
    y_off: int,
    xs: int,
    ys: int,
    pal: Seq<u8>,
) -> Seq<u8> {
    let base = bank * 0x1000 + tile_n * 16;
    if bank > 1 || base + 16 > chr.len() {
        f
    } else {
        draw_tile_px(f, chr, base, vp, x_off, y_off, xs, ys, pal, 64)
    }
}

/// Paints one background tile into the frame.
pub fn show_tile(
    frame: &mut Frame,
    chr_rom: &Vec<u8>,
    bank: usize,
    tile_n: usize,
    viewport: Rect,
    x_offset: usize,
    y_offset: usize,
    x_scroll: usize,
    y_scroll: usize,
    palette: [u8; 4],
)
    requires
        old(frame).wf(),
        x_offset <= 0xF000,
        y_offset <= 0xF000,
        tile_n <= 0xFFFF,
    ensures
        final(frame).wf(),
        final(frame)@ == show_tile_s(
            old(frame)@,
            chr_rom@,
            bank as int,
            tile_n as int,
            viewport,
            x_offset as int,
            y_offset as int,
            x_scroll as int,
            y_scroll as int,
            palette@,
        ),
{
    if bank > 1 {
        return ;
    }
    let base = bank * 0x1000 + tile_n * 16;
    if base + 16 > chr_rom.len() {
        return ;
    }
    let mut k: usize = 0;
    while k < 64
        invariant
            frame.wf(),
            k <= 64,
            bank <= 1,
            base == bank * 0x1000 + tile_n * 16,
            base + 16 <= chr_rom.len(),
            x_offset <= 0xF000,
            y_offset <= 0xF000,
            frame@ == draw_tile_px(
                old(frame)@,
                chr_rom@,
                base as int,
                viewport,
                x_offset as int,
                y_offset as int,
                x_scroll as int,
                y_scroll as int,
                palette@,
                k as int,
            ),
        decreases 64 - k,
    {
        let x = k % 8;
        let y = k / 8;
        let lo = chr_rom[base + y];
        let hi = chr_rom[base + y + 8];
        let b = (7 - x) as u8;
        let v = (((hi >> b) & 1) << 1) | ((lo >> b) & 1);
        proof {
            lemma_pixel_value_bound(hi, lo, b);
            assert(v == tile_pixel_s(chr_rom@, base as int, x as int, y as int));
        }
        if x_offset + x >= viewport.x1 && x_offset + x < viewport.x2 && y_offset + y >= viewport.y1
            && y_offset + y < viewport.y2 && x_offset + x >= x_scroll && y_offset + y >= y_scroll
            && v > 0 {
            let rgb = system_palette(palette[v as usize]);
            frame.set_pixel(x_offset + x - x_scroll, y_offset + y - y_scroll, rgb);
        }
        k = k + 1;
    }
}

/// One sprite pixel: painted at its (possibly flipped) offset unless
/// transparent.
pub open spec fn paint_sprite_px(
    f: Seq<u8>,
    chr: Seq<u8>,
    base: int,
    x_off: int,
    y_off: int,
    flip_v: bool,
    flip_h: bool,
    pal: Seq<u8>,
    x: int,
    y: int,
) -> Seq<u8> {
    let v = tile_pixel_s(chr, base, x, y);
    if v > 0 {
        let tx = if flip_h {
            x_off + 7 - x
        } else {
            x_off + x
        };
        let ty = if flip_v {
            y_off + 7 - y
        } else {
            y_off + y
        };
        set_pixel_s(f, tx, ty, system_palette_s(pal[v as int]))
    } else {
        f
    }
}

/// The first `k` pixels of a sprite tile, in row-major order.
pub open spec fn draw_sprite_px(
    f: Seq<u8>,
    chr: Seq<u8>,
    base: int,
    x_off: int,
    y_off: int,
    flip_v: bool,
    flip_h: bool,
    pal: Seq<u8>,
    k: int,
) -> Seq<u8>
    decreases k,
{
    if k <= 0 {
        f
    } else {
        paint_sprite_px(
            draw_sprite_px(f, chr, base, x_off, y_off, flip_v, flip_h, pal, k - 1),
            chr,
            base,
            x_off,
            y_off,
            flip_v,
            flip_h,
            pal,
            (k - 1) % 8,
            (k - 1) / 8,
        )
    }
}

/// One sprite tile with optional horizontal and vertical flips.
pub open spec fn show_sprite_tile_s(
    f: Seq<u8>,
    chr: Seq<u8>,
    bank: int,
    tile_n: int,
    x_off: int,
    y_off: int,
    flip_v: bool,
    flip_h: bool,
    pal: Seq<u8>,
) -> Seq<u8> {
    let base = bank * 0x1000 + tile_n * 16;
    if bank > 1 || base + 16 > chr.len() {
        f
    } else {
        draw_sprite_px(f, chr, base, x_off, y_off, flip_v, flip_h, pal, 64)
    }
}

/// Paints one sprite tile into the frame.
pub fn show_sprite_tile(
    frame: &mut Frame,
    chr_rom: &Vec<u8>,
    bank: usize,
    tile_n: usize,
    x_offset: usize,
    y_offset: usize,
    flip_vertical: bool,
    flip_horizontal: bool,
    palette: [u8; 4],
)
    requires
        old(frame).wf(),
        x_offset <= 0xF000,
        y_offset <= 0xF000,
        tile_n <= 0xFFFF,
    ensures
        final(frame).wf(),
        final(frame)@ == show_sprite_tile_s(
            old(frame)@,
            chr_rom@,
            bank as int,
            tile_n as int,
            x_offset as int,
            y_offset as int,
            flip_vertical,
            flip_horizontal,
            palette@,
        ),
{
    if bank > 1 {
        return ;
    }
    let base = bank * 0x1000 + tile_n * 16;
    if base + 16 > chr_rom.len() {
        return ;
    }
    let mut k: usize = 0;
    while k < 64
        invariant
            frame.wf(),
            k <= 64,
            bank <= 1,
            base == bank * 0x1000 + tile_n * 16,
            base + 16 <= chr_rom.len(),
            x_offset <= 0xF000,
            y_offset <= 0xF000,
            frame@ == draw_sprite_px(
                old(frame)@,
                chr_rom@,
                base as int,
                x_offset as int,
                y_offset as int,
                flip_vertical,
                flip_horizontal,
                palette@,
                k as int,
            ),
        decreases 64 - k,
    {
        let x = k % 8;
        let y = k / 8;
        let lo = chr_rom[base + y];
        let hi = chr_rom[base + y + 8];
        let b = (7 - x) as u8;
        let v = (((hi >> b) & 1) << 1) | ((lo >> b) & 1);
        proof {
            lemma_pixel_value_bound(hi, lo, b);
            assert(v == tile_pixel_s(chr_rom@, base as int, x as int, y as int));
        }
        if v > 0 {
            let rgb = system_palette(palette[v as usize]);
            let tx = if flip_horizontal {
                x_offset + 7 - x
            } else {
                x_offset + x
            };
            let ty = if flip_vertical {
                y_offset + 7 - y
            } else {
                y_offset + y
            };
            frame.set_pixel(tx, ty, rgb);
        }
        k = k + 1;
    }
}

/// The name-table base the control register selects, paired with the
/// adjacent one under the current mirroring.
pub open spec fn nt_pair_s(p: PpuV) -> (int, int) {
    let c = p.ctrl & 0x03;
    if p.mirroring == Mirroring::FOUR_SCREEN {
        (0int, 0int)
    } else if c == 0 {
        (0int, 0x400int)
    } else if (p.mirroring == Mirroring::VERTICAL && c == 2) || (p.mirroring
        == Mirroring::HORIZONTAL && c == 1) {
        (0int, 0x400int)
    } else if (p.mirroring == Mirroring::VERTICAL && c == 1) || c == 3 || (p.mirroring
        == Mirroring::HORIZONTAL && c == 2) {
        (0x400int, 0int)
    } else {
        (0int, 0int)
    }
}

/// One OAM entry of the selected priority class, drawn with its flips and
/// palette; in the tall-sprite mode the two halves are drawn separately and
/// a vertical flip swaps them.
pub open spec fn sprite_step_s(f: Seq<u8>, p: PpuV, i: int, behind: bool) -> Seq<u8> {
    if ((p.oam_data[i + 2] & 0x20) != 0) == behind {
        let tile = p.oam_data[i + 1];
        let tx = p.oam_data[i + 3] as int;
        let ty = p.oam_data[i] as int;
        let fv = (p.oam_data[i + 2] >> 7) & 1 == 1;
        let fh = (p.oam_data[i + 2] >> 6) & 1 == 1;
        let pal = sprite_palette_s(p, (p.oam_data[i + 2] & 0x03) as u8);
        if p.ctrl & 0x20 == 0 {
            show_sprite_tile_s(
                f,
                p.chr_rom,
                ((p.ctrl & 0x08) >> 3) as int,
                tile as int,
                tx,
                ty,
                fv,
                fh,
                pal,
            )
        } else {
            let bank = (tile & 0x01) as int;
            if fv {
                let f1 = show_sprite_tile_s(
                    f,
                    p.chr_rom,
                    bank,
                    (tile | 0x01) as int,
                    tx,
                    ty,
                    fv,
                    fh,
                    pal,
                );
                show_sprite_tile_s(f1, p.chr_rom, bank, (tile & 0xFE) as int, tx, ty + 8, fv, fh, pal)
            } else {
                let f1 = show_sprite_tile_s(
                    f,
                    p.chr_rom,
                    bank,
                    (tile & 0xFE) as int,
                    tx,
                    ty,
                    fv,
                    fh,
                    pal,
                );
                show_sprite_tile_s(f1, p.chr_rom, bank, (tile | 0x01) as int, tx, ty + 8, fv, fh, pal)
            }
        }
    } else {
        f
    }
}

/// The first `k` OAM entries of a priority class, walked from entry 63 down
/// to entry 0 so that sprite 0 is painted last.
pub open spec fn draw_sprites_s(f: Seq<u8>, p: PpuV, behind: bool, k: int) -> Seq<u8>
    decreases k,
{
    if k <= 0 {
        f
    } else {
        sprite_step_s(draw_sprites_s(f, p, behind, k - 1), p, 252 - 4 * (k - 1), behind)
    }
}

/// One name-table tile, drawn when its scanline band intersects the
/// requested band.
pub open spec fn bg_step_s(
    f: Seq<u8>,
    p: PpuV,
    nt: int,
    vp: Rect,
    dx: int,
    dy: int,
    xs: int,
    ys: int,
    band_off: int,
    start: int,
    stop: int,
    i: int,
) -> Seq<u8> {
    let x = i % 32;
    let y = i / 32;
    if y * 8 + band_off >= start && y * 8 + band_off < stop {
        show_tile_s(
            f,
            p.chr_rom,
            ((p.ctrl & 0x10) >> 4) as int,
            p.vram[nt + i] as int,
            vp,
            x * 8 + dx,
            y * 8 + dy,
            xs,
            ys,
            bg_palette_s(p, nt, x, y),
        )
    } else {
        f
    }
}

/// The first `k` tiles of a name table pass.
pub open spec fn draw_bg_s(
    f: Seq<u8>,
    p: PpuV,
    nt: int,
    vp: Rect,
    dx: int,
    dy: int,
    xs: int,
    ys: int,
    band_off: int,
    start: int,
    stop: int,
    k: int,
) -> Seq<u8>
    decreases k,
{
    if k <= 0 {
        f
    } else {
        bg_step_s(
            draw_bg_s(f, p, nt, vp, dx, dy, xs, ys, band_off, start, stop, k - 1),
            p,
            nt,
            vp,
            dx,
            dy,
            xs,
            ys,
            band_off,
            start,
            stop,
            k - 1,
        )
    }
}

/// A whole rendering pass over the scanline band `[start, stop)`: behind
/// sprites, the main name table, the adjacent name table when scrolled,
/// then foreground sprites.
pub open spec fn render_s(p: PpuV, f: Seq<u8>, start: int, stop: int) -> Seq<u8> {
    let sx = p.scroll_x as int;
    let sy = p.scroll_y as int;
    let nts = nt_pair_s(p);
    let vp_main = Rect {
        x1: p.scroll_x as usize,
        y1: p.scroll_y as usize,
        x2: 256usize,
        y2: 240usize,
    };
    let vp_sec = Rect {
        x1: 0usize,
        y1: 0usize,
        x2: (256 + p.scroll_x as usize) as usize,
        y2: (240 + p.scroll_y as usize) as usize,
    };
    let f1 = draw_sprites_s(f, p, true, 64);
    let f2 = draw_bg_s(f1, p, nts.0, vp_main, 0, 0, sx, sy, 0, start, stop, 0x3C0);
    let f3 = if sx > 0 {
        draw_bg_s(f2, p, nts.1, vp_sec, 256, 0, sx, 0, 0, start, stop, 0x3C0)
    } else if sy > 0 {
        draw_bg_s(f2, p, nts.1, vp_sec, 0, 240, 0, sy, 240 - sy, start, stop, 0x3C0)
    } else {
        f2
    };
    draw_sprites_s(f3, p, false, 64)
}

/// Draws one sprite pass over the frame.
fn render_sprites(ppu: &PPU, frame: &mut Frame, behind: bool)
    requires
        ppu.wf(),
        old(frame).wf(),
    ensures
        final(frame).wf(),
        final(frame)@ == draw_sprites_s(old(frame)@, ppu@, behind, 64),
{
    let mut j: usize = 0;
    while j < 64
        invariant
            ppu.wf(),
            frame.wf(),
            j <= 64,
            frame@ == draw_sprites_s(old(frame)@, ppu@, behind, j as int),
        decreases 64 - j,
    {
        let i = 252 - 4 * j;
        let attrs = ppu.oam_data[i + 2];
        if ((attrs & 0x20) != 0) == behind {
            let tile = ppu.oam_data[i + 1];
            let tile_x = ppu.oam_data[i + 3] as usize;
            let tile_y = ppu.oam_data[i] as usize;
            let flip_vertical = (attrs >> 7) & 1 == 1;
            let flip_horizontal = (attrs >> 6) & 1 == 1;
            proof {
                lemma_two_bit_bound(attrs);
            }
            let pal = sprite_palette(ppu, attrs & 0x03);
            if ppu.ctrl & 0x20 == 0 {
                let sprite_bank = ((ppu.ctrl & 0x08) >> 3) as usize;
                show_sprite_tile(
                    frame,
                    &ppu.chr_rom,
                    sprite_bank,
                    tile as usize,
                    tile_x,
                    tile_y,
                    flip_vertical,
                    flip_horizontal,
                    pal,
                );
            } else {
                let bank = (tile & 0x01) as usize;
                if flip_vertical {
                    show_sprite_tile(
                        frame,
                        &ppu.chr_rom,
                        bank,
                        (tile | 0x01) as usize,
                        tile_x,
                        tile_y,
                        flip_vertical,
                        flip_horizontal,
                        pal,
                    );
                    show_sprite_tile(
                        frame,
                        &ppu.chr_rom,
                        bank,
                        (tile & 0xFE) as usize,
                        tile_x,
                        tile_y + 8,
                        flip_vertical,
                        flip_horizontal,
                        pal,
                    );
                } else {
                    show_sprite_tile(
                        frame,
                        &ppu.chr_rom,
                        bank,
                        (tile & 0xFE) as usize,
                        tile_x,
                        tile_y,
                        flip_vertical,
                        flip_horizontal,
                        pal,
                    );
                    show_sprite_tile(
                        frame,
                        &ppu.chr_rom,
                        bank,
                        (tile | 0x01) as usize,
                        tile_x,
                        tile_y + 8,
                        flip_vertical,
                        flip_horizontal,
                        pal,
                    );
                }
            }
        }
        j = j + 1;
    }
}

/// Draws one name-table pass over the frame.
fn render_background(
    ppu: &PPU,
    frame: &mut Frame,
    nt: usize,
    vp: Rect,
    dx: usize,
    dy: usize,
    xs: usize,
    ys: usize,
    band_base: usize,
    band_sub: usize,
    start: usize,
    stop: usize,
)
    requires
        ppu.wf(),
        old(frame).wf(),
        nt == 0 || nt == 0x400,
        dx <= 256,
        dy <= 240,
        ys <= 255,
        band_sub <= 255,
        band_base == 0 || band_base == 240,
    ensures
        final(frame).wf(),
        final(frame)@ == draw_bg_s(
            old(frame)@,
            ppu@,
            nt as int,
            vp,
            dx as int,
            dy as int,
            xs as int,
            ys as int,
            band_base - band_sub,
            start as int,
            stop as int,
            0x3C0,
        ),
{
    let mut i: usize = 0;
    while i < 0x3C0
        invariant
            ppu.wf(),
            frame.wf(),
            i <= 0x3C0,
            nt == 0 || nt == 0x400,
            dx <= 256,
            dy <= 240,
            ys <= 255,
            band_sub <= 255,
            band_base == 0 || band_base == 240,
            frame@ == draw_bg_s(
                old(frame)@,
                ppu@,
                nt as int,
                vp,
                dx as int,
                dy as int,
                xs as int,
                ys as int,
                band_base - band_sub,
                start as int,
                stop as int,
                i as int,
            ),
        decreases 0x3C0 - i,
    {
        let x = i % 32;
        let y = i / 32;
        let band = y * 8 + band_base;
        if band >= band_sub && band - band_sub >= start && band - band_sub < stop {
            let tile_n = ppu.vram[i + nt] as usize;
            let palette = bg_palette(ppu, nt, x, y);
            show_tile(frame, &ppu.chr_rom, (ppu.ctrl & 0x10) as usize >> 4, tile_n, vp, x * 8 + dx,
                y * 8 + dy, xs, ys, palette);
        } else {
            proof {
                assert(y * 8 + (band_base - band_sub) < start || y * 8 + (band_base - band_sub)
                    >= stop);
            }
        }
        i = i + 1;
    }
}

/// Renders the scanline band `[scanline_start, scanline_stop)` of the
/// frame: behind-background sprites, the scrolled background from the two
/// name tables, then foreground sprites.
pub fn render(ppu: &PPU, frame: &mut Frame, scanline_start: usize, scanline_stop: usize)
    requires
        ppu.wf(),
        old(frame).wf(),
    ensures
        final(frame).wf(),
        final(frame)@ == render_s(ppu@, old(frame)@, scanline_start as int, scanline_stop as int),
{
    let scroll_x = ppu.scroll_x as usize;
    let scroll_y = ppu.scroll_y as usize;
    let c = ppu.ctrl & 0x03;
    let four = match ppu.mirroring {
        Mirroring::FOUR_SCREEN => true,
        _ => false,
    };
    let vertical = match ppu.mirroring {
        Mirroring::VERTICAL => true,
        _ => false,
    };
    let horizontal = match ppu.mirroring {
        Mirroring::HORIZONTAL => true,
        _ => false,
    };
    let (main_nametable, second_nametable): (usize, usize) = if four {
        (0, 0)
    } else if c == 0 {
        (0, 0x400)
    } else if (vertical && c == 2) || (horizontal && c == 1) {
        (0, 0x400)
    } else if (vertical && c == 1) || c == 3 || (horizontal && c == 2) {
        (0x400, 0)
    } else {
        (0, 0)
    };
    proof {
        assert((main_nametable as int, second_nametable as int) == nt_pair_s(ppu@));
    }
    render_sprites(ppu, frame, true);
    let vp_main = Rect { x1: scroll_x, y1: scroll_y, x2: 256, y2: 240 };
    render_background(ppu, frame, main_nametable, vp_main, 0, 0, scroll_x, scroll_y, 0, 0,
        scanline_start, scanline_stop);
    let vp_sec = Rect { x1: 0, y1: 0, x2: 256 + scroll_x, y2: 240 + scroll_y };
    if scroll_x > 0 {
        render_background(ppu, frame, second_nametable, vp_sec, 256, 0, scroll_x, 0, 0, 0,
            scanline_start, scanline_stop);
    } else if scroll_y > 0 {
        render_background(ppu, frame, second_nametable, vp_sec, 0, 240, 0, scroll_y, 240,
            scroll_y, scanline_start, scanline_stop);
    }
    render_sprites(ppu, frame, false);
}

/// The whole frame as a viewport: every pixel passes.
spec fn whole_frame_vp() -> Rect {
    Rect { x1: 0usize, y1: 0usize, x2: 256usize, y2: 240usize }
}

/// Both planes zero decode to pattern value zero at every column.
proof fn lemma_zero_plane_pixel(b: u8)
    by (bit_vector)
    ensures
        ((((0u8 >> b) & 1) << 1) | ((0u8 >> b) & 1)) == 0,
{
}

/// A blank background tile paints nothing: with all sixteen pattern bytes
/// zero, every pixel decodes to value zero and is skipped.
proof fn lemma_blank_tile_bg(
    f: Seq<u8>,
    chr: Seq<u8>,
    base: int,
    vp: Rect,
    x_off: int,
    y_off: int,
    xs: int,
    ys: int,
    pal: Seq<u8>,
    k: int,
)
    requires
        0 <= base,
        base + 16 <= chr.len(),
        forall|t: int| 0 <= t < 16 ==> #[trigger] chr[base + t] == 0,
        0 <= k <= 64,
    ensures
        draw_tile_px(f, chr, base, vp, x_off, y_off, xs, ys, pal, k) == f,
    decreases k,
{
    if k > 0 {
        lemma_blank_tile_bg(f, chr, base, vp, x_off, y_off, xs, ys, pal, k - 1);
        let x = (k - 1) % 8;
        let y = (k - 1) / 8;
        assert(chr[base + y] == 0);
        assert(chr[base + (y + 8)] == 0);
        assert(chr[base + y + 8] == 0);
        lemma_zero_plane_pixel((7 - x) as u8);
        assert(tile_pixel_s(chr, base, x, y) == 0);
    }
}

/// A blank sprite tile paints nothing, whatever its flips.
proof fn lemma_blank_tile_sprite(
    f: Seq<u8>,
    chr: Seq<u8>,
    base: int,
    x_off: int,
    y_off: int,
    flip_v: bool,
    flip_h: bool,
    pal: Seq<u8>,
    k: int,
)
    requires
        0 <= base,
        base + 16 <= chr.len(),
        forall|t: int| 0 <= t < 16 ==> #[trigger] chr[base + t] == 0,
        0 <= k <= 64,
    ensures
        draw_sprite_px(f, chr, base, x_off, y_off, flip_v, flip_h, pal, k) == f,
    decreases k,
{
    if k > 0 {
        lemma_blank_tile_sprite(f, chr, base, x_off, y_off, flip_v, flip_h, pal, k - 1);
        let x = (k - 1) % 8;
        let y = (k - 1) / 8;
        assert(chr[base + y] == 0);
        assert(chr[base + (y + 8)] == 0);
        assert(chr[base + y + 8] == 0);
        lemma_zero_plane_pixel((7 - x) as u8);
        assert(tile_pixel_s(chr, base, x, y) == 0);
    }
}

/// With control zero, every OAM entry zero and pattern tile 0 blank, a
/// sprite pass paints nothing: the behind pass matches no entry, and the
/// front pass draws only the blank tile at the origin.
proof fn lemma_idle_sprites(f: Seq<u8>, p: PpuV, behind: bool, k: int)
    requires
        ppu_wf(p),
        p.ctrl == 0,
        forall|i: int| 0 <= i < 256 ==> p.oam_data[i] == 0,
        forall|t: int| 0 <= t < 16 ==> #[trigger] p.chr_rom[t] == 0,
        p.chr_rom.len() >= 16,
        0 <= k <= 64,
    ensures
        draw_sprites_s(f, p, behind, k) == f,
    decreases k,
{
    if k > 0 {
        lemma_idle_sprites(f, p, behind, k - 1);
        let i = 252 - 4 * (k - 1);
        assert(p.oam_data[i] == 0 && p.oam_data[i + 1] == 0 && p.oam_data[i + 2] == 0
            && p.oam_data[i + 3] == 0);
        assert((0u8 & 0x20) == 0 && ((0u8 & 0x08) >> 3) == 0 && (0u8 & 0x03) == 0)
            by (bit_vector);
        if ((p.oam_data[i + 2] & 0x20) != 0) == behind {
            lemma_blank_tile_sprite(
                f,
                p.chr_rom,
                0,
                0,
                0,
                (p.oam_data[i + 2] >> 7) & 1 == 1,
                (p.oam_data[i + 2] >> 6) & 1 == 1,
                sprite_palette_s(p, (p.oam_data[i + 2] & 0x03) as u8),
                64,
            );
        }
    }
}

/// The first background pass over the band of rows 0 to 7, with control
/// zero, the rest of the top tile row blank and pattern tile 0 blank,
/// reduces to drawing the first name-table entry's tile at the origin.
proof fn lemma_first_row_bg(f: Seq<u8>, p: PpuV, vp: Rect, k: int)
    requires
        ppu_wf(p),
        p.ctrl == 0,
        forall|i: int| 1 <= i < 32 ==> p.vram[i] == 0,
        forall|t: int| 0 <= t < 16 ==> #[trigger] p.chr_rom[t] == 0,
        p.chr_rom.len() >= 0x20,
        1 <= k <= 0x3C0,
    ensures
        draw_bg_s(f, p, 0, vp, 0, 0, 0, 0, 0, 0, 8, k) == show_tile_s(
            f,
            p.chr_rom,
            0,
            p.vram[0] as int,
            vp,
            0,
            0,
            0,
            0,
            bg_palette_s(p, 0, 0, 0),
        ),
    decreases k,
{
    assert(((0u8 & 0x10) >> 4) == 0) by (bit_vector);
    reveal_with_fuel(draw_bg_s, 2);
    if k > 1 {
        lemma_first_row_bg(f, p, vp, k - 1);
        let i = k - 1;
        let prev = draw_bg_s(f, p, 0, vp, 0, 0, 0, 0, 0, 0, 8, k - 1);
        if i < 32 {
            assert(i / 32 == 0 && i % 32 == i);
            assert(p.vram[i] == 0);
            lemma_blank_tile_bg(
                prev,
                p.chr_rom,
                0,
                vp,
                i * 8,
                0,
                0,
                0,
                bg_palette_s(p, 0, i, 0),
                64,
            );
        } else {
            assert(i / 32 >= 1);
        }
    }
}

/// Every step of a tile pass keeps the frame's length.
proof fn lemma_draw_tile_len(
    f: Seq<u8>,
    chr: Seq<u8>,
    base: int,
    vp: Rect,
    x_off: int,
    y_off: int,
    xs: int,
    ys: int,
    pal: Seq<u8>,
    k: int,
)
    requires
        f.len() == FRAME_BYTES,
        0 <= k,
    ensures
        draw_tile_px(f, chr, base, vp, x_off, y_off, xs, ys, pal, k).len() == f.len(),
    decreases k,
{
    if k > 0 {
        lemma_draw_tile_len(f, chr, base, vp, x_off, y_off, xs, ys, pal, k - 1);
        let prev = draw_tile_px(f, chr, base, vp, x_off, y_off, xs, ys, pal, k - 1);
        let xx = x_off + (k - 1) % 8 - xs;
        let yy = y_off + (k - 1) / 8 - ys;
        let b = yy * 1024 + xx * 4;
        assert(b == 4 * (yy * 256 + xx));
        if 0 <= b && b < prev.len() {
            assert(yy * 256 + xx < 61440);
            assert(b + 2 < prev.len());
        }
    }
}

/// Two distinct pixels of one tile occupy disjoint three-byte windows of
/// the frame.
proof fn lemma_pixel_windows_disjoint(x: int, y: int, xj: int, yj: int)
    requires
        0 <= x < 8,
        0 <= y < 8,
        0 <= xj < 8,
        0 <= yj < 8,
        x != xj || y != yj,
    ensures
        y * 1024 + x * 4 + 2 < yj * 1024 + xj * 4 || yj * 1024 + xj * 4 + 2 < y * 1024 + x * 4,
{
    if y == yj {
        if x < xj {
            assert(x * 4 + 4 <= xj * 4);
        } else {
            assert(xj * 4 + 4 <= x * 4);
        }
    } else if y < yj {
        assert((y + 1) * 1024 <= yj * 1024);
    } else {
        assert((yj + 1) * 1024 <= y * 1024);
    }
}

/// A tile pass that has not yet reached a pixel leaves that pixel's bytes
/// as they were.
proof fn lemma_tile_untouched(
    f: Seq<u8>,
    chr: Seq<u8>,
    base: int,
    pal: Seq<u8>,
    k: int,
    x: int,
    y: int,
)
    requires
        f.len() == FRAME_BYTES,
        0 <= x < 8,
        0 <= y < 8,
        0 <= k <= x + 8 * y,
    ensures
        ({
            let out = draw_tile_px(f, chr, base, whole_frame_vp(), 0, 0, 0, 0, pal, k);
            &&& out[y * 1024 + x * 4] == f[y * 1024 + x * 4]
            &&& out[y * 1024 + x * 4 + 1] == f[y * 1024 + x * 4 + 1]
            &&& out[y * 1024 + x * 4 + 2] == f[y * 1024 + x * 4 + 2]
        }),
    decreases k,
{
    if k > 0 {
        lemma_tile_untouched(f, chr, base, pal, k - 1, x, y);
        lemma_draw_tile_len(f, chr, base, whole_frame_vp(), 0, 0, 0, 0, pal, k - 1);
        let xj = (k - 1) % 8;
        let yj = (k - 1) / 8;
        assert(xj + 8 * yj == k - 1);
        assert(xj != x || yj != y);
        lemma_pixel_windows_disjoint(x, y, xj, yj);
    }
}

/// After a whole tile pass at the origin with no scroll, the pixel at
/// `(x, y)` holds the system color of its pattern value's palette entry,
/// or its prior bytes where the value is zero.
proof fn lemma_tile_pixel_at(
    f: Seq<u8>,
    chr: Seq<u8>,
    base: int,
    pal: Seq<u8>,
    k: int,
    x: int,
    y: int,
)
    requires
        f.len() == FRAME_BYTES,
        0 <= x < 8,
        0 <= y < 8,
        x + 8 * y < k <= 64,
    ensures
        ({
            let out = draw_tile_px(f, chr, base, whole_frame_vp(), 0, 0, 0, 0, pal, k);
            let v = tile_pixel_s(chr, base, x, y);
            let b = y * 1024 + x * 4;
            &&& (v > 0 ==> out[b] == system_palette_s(pal[v as int]).0 && out[b + 1]
                == system_palette_s(pal[v as int]).1 && out[b + 2] == system_palette_s(
                pal[v as int],
            ).2)
            &&& (v == 0 ==> out[b] == f[b] && out[b + 1] == f[b + 1] && out[b + 2] == f[b + 2])
        }),
    decreases k,
{
    let xj = (k - 1) % 8;
    let yj = (k - 1) / 8;
    let prev = draw_tile_px(f, chr, base, whole_frame_vp(), 0, 0, 0, 0, pal, k - 1);
    lemma_draw_tile_len(f, chr, base, whole_frame_vp(), 0, 0, 0, 0, pal, k - 1);
    if k - 1 == x + 8 * y {
        assert(xj == x && yj == y);
        lemma_tile_untouched(f, chr, base, pal, k - 1, x, y);
    } else {
        lemma_tile_pixel_at(f, chr, base, pal, k - 1, x, y);
        assert(xj + 8 * yj == k - 1);
        assert(xj != x || yj != y);
        lemma_pixel_windows_disjoint(x, y, xj, yj);
    }
}

/// Background composition at the origin. With scroll (0, 0) and control
/// zero (name table 0, background pattern bank 0), the first name-table
/// entry selecting tile 1, the first attribute byte zero (background
/// palette 0), the rest of the top tile row blank, pattern tile 0 blank
/// and every OAM byte zero, rendering the band of rows 0 to 7 paints the
/// frame pixel `(x, y)` with the system color of `palette_table[v]`, where
/// `v` is tile 1's two-bit pattern value at that pixel, and leaves the
/// pixel's bytes as they were where `v` is zero.
pub proof fn lemma_background_composition(p: PpuV, f: Seq<u8>, x: int, y: int)
    requires
        ppu_wf(p),
        p.ctrl == 0,
        p.scroll_x == 0,
        p.scroll_y == 0,
        p.vram[0] == 1,
        p.vram[0x3C0] == 0,
        forall|i: int| 1 <= i < 32 ==> p.vram[i] == 0,
        forall|i: int| 0 <= i < 256 ==> p.oam_data[i] == 0,
        forall|t: int| 0 <= t < 16 ==> #[trigger] p.chr_rom[t] == 0,
        p.chr_rom.len() >= 0x20,
        f.len() == FRAME_BYTES,
        0 <= x < 8,
        0 <= y < 8,
    ensures
        ({
            let out = render_s(p, f, 0, 8);
            let v = tile_pixel_s(p.chr_rom, 16, x, y);
            let b = y * 1024 + x * 4;
            &&& out.len() == FRAME_BYTES
            &&& v < 4
            &&& (v > 0 ==> out[b] == system_palette_s(p.palette_table[v as int]).0 && out[b + 1]
                == system_palette_s(p.palette_table[v as int]).1 && out[b + 2]
                == system_palette_s(p.palette_table[v as int]).2)
            &&& (v == 0 ==> out[b] == f[b] && out[b + 1] == f[b + 1] && out[b + 2] == f[b + 2])
        }),
{
    assert((0u8 & 0x03) == 0 && ((0u8 & 0x10) >> 4) == 0) by (bit_vector);
    let vpm = Rect {
        x1: p.scroll_x as usize,
        y1: p.scroll_y as usize,
        x2: 256usize,
        y2: 240usize,
    };
    assert(vpm == whole_frame_vp());
    assert(nt_pair_s(p).0 == 0);
    lemma_idle_sprites(f, p, true, 64);
    let pal = bg_palette_s(p, 0, 0, 0);
    assert(pal[1] == p.palette_table[1] && pal[2] == p.palette_table[2] && pal[3]
        == p.palette_table[3]);
    lemma_first_row_bg(f, p, whole_frame_vp(), 0x3C0);
    let drawn = draw_tile_px(f, p.chr_rom, 16, whole_frame_vp(), 0, 0, 0, 0, pal, 64);
    assert(render_s(p, f, 0, 8) == draw_sprites_s(drawn, p, false, 64));
    lemma_idle_sprites(drawn, p, false, 64);
    lemma_draw_tile_len(f, p.chr_rom, 16, whole_frame_vp(), 0, 0, 0, 0, pal, 64);
    lemma_tile_pixel_at(f, p.chr_rom, 16, pal, 64, x, y);
    lemma_pixel_value_bound(p.chr_rom[16 + y + 8], p.chr_rom[16 + y], (7 - x) as u8);
}

/// A two-bit field is below four, for each of the four positions.
proof fn lemma_two_bit_bound(a: u8)
    by (bit_vector)
    ensures
        a & 0x03 < 4,
        (a >> 2) & 0x03 < 4,
        (a >> 4) & 0x03 < 4,
        (a >> 6) & 0x03 < 4,
{
}

/// A decoded pattern value fits in two bits.
proof fn lemma_pixel_value_bound(hi: u8, lo: u8, b: u8)
    by (bit_vector)
    ensures
        ((((hi >> b) & 1) << 1) | ((lo >> b) & 1)) < 4,
{
}

} // verus!
