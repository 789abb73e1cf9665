//! Rendering: frame construction, single pixels, palette selection, and
//! the composition of background tiles and sprites into the framebuffer.

use nes_core::display::Frame;
use nes_core::display::bg_palette;
use nes_core::display::render;
use nes_core::display::show_sprite_tile;
use nes_core::display::sprite_palette;
use nes_core::display::system_palette;
use nes_core::ppu::PPU;
use nes_core::rom::Mirroring;

fn pixel(frame: &Frame, x: usize, y: usize) -> (u8, u8, u8, u8) {
    let base = y * 1024 + x * 4;
    (frame.data[base], frame.data[base + 1], frame.data[base + 2], frame.data[base + 3])
}

#[test]
fn frame_new_fills_color_and_alpha() {
    let frame = Frame::new((10, 20, 30));
    assert_eq!(frame.data.len(), 256 * 240 * 4);
    assert_eq!(pixel(&frame, 0, 0), (10, 20, 30, 0xFF));
    assert_eq!(pixel(&frame, 255, 239), (10, 20, 30, 0xFF));
}

#[test]
fn set_pixel_writes_rgb_keeps_alpha() {
    let mut frame = Frame::new((0, 0, 0));
    frame.set_pixel(3, 2, (1, 2, 3));
    assert_eq!(pixel(&frame, 3, 2), (1, 2, 3, 0xFF));
    assert_eq!(pixel(&frame, 4, 2), (0, 0, 0, 0xFF));
}

#[test]
fn set_pixel_out_of_frame_is_ignored() {
    let mut frame = Frame::new((0, 0, 0));
    frame.set_pixel(0, 240, (9, 9, 9));
    assert_eq!(pixel(&frame, 0, 239), (0, 0, 0, 0xFF));
}

/// A PPU whose pattern memory holds tile 1 with every pixel at value 1,
/// except row 1 where the left four pixels are transparent; name-table
/// entry 0 selects tile 1 with attribute palette 0.
fn composed_ppu() -> PPU {
    let mut chr = vec![0u8; 0x2000];
    for y in 0..8 {
        chr[16 + y] = 0xFF;  // low plane: all ones
        chr[16 + y + 8] = 0x00;  // high plane: all zeroes
    }
    chr[16 + 1] = 0x0F;  // row 1: bits 7..4 clear, so pixels 0..4 transparent
    let mut ppu = PPU::new(chr, Mirroring::VERTICAL);
    ppu.vram[0] = 1;
    ppu.vram[0x3C0] = 0;
    ppu.palette_table[0] = 0x0D;  // universal background color
    ppu.palette_table[1] = 0x16;  // color of pattern value 1, palette 0
    ppu
}

#[test]
fn background_composition_top_left_tile() {
    let ppu = composed_ppu();
    let mut frame = Frame::new(system_palette(ppu.palette_table[0]));
    render(&ppu, &mut frame, 0, 240);
    let bg = system_palette(0x0D);
    let fg = system_palette(0x16);
    // Row 0: all eight pixels take the palette-1 color.
    for x in 0..8 {
        assert_eq!(pixel(&frame, x, 0), (fg.0, fg.1, fg.2, 0xFF), "x {}", x);
    }
    // Row 1: the left four pixels are transparent and keep the backdrop.
    for x in 0..4 {
        assert_eq!(pixel(&frame, x, 1), (bg.0, bg.1, bg.2, 0xFF), "x {}", x);
    }
    for x in 4..8 {
        assert_eq!(pixel(&frame, x, 1), (fg.0, fg.1, fg.2, 0xFF), "x {}", x);
    }
    // The neighbouring tile is tile 0, which is fully transparent.
    assert_eq!(pixel(&frame, 8, 0), (bg.0, bg.1, bg.2, 0xFF));
}

#[test]
fn render_respects_scanline_band() {
    let ppu = composed_ppu();
    let mut frame = Frame::new(system_palette(ppu.palette_table[0]));
    render(&ppu, &mut frame, 8, 16);
    let bg = system_palette(0x0D);
    // The band excludes the first tile row, so nothing is painted there.
    assert_eq!(pixel(&frame, 0, 0), (bg.0, bg.1, bg.2, 0xFF));
}

#[test]
fn bg_palette_picks_attribute_quadrant() {
    let mut ppu = PPU::new(vec![0u8; 0x2000], Mirroring::VERTICAL);
    // Attribute byte for the 4x4 block of tiles (4..8, 0..4): bit pair 1
    // (top right) set to palette 2.
    ppu.vram[0x3C0 + 1] = 0b0000_1000;
    ppu.palette_table[0] = 1;
    ppu.palette_table[9] = 7;
    ppu.palette_table[10] = 8;
    ppu.palette_table[11] = 9;
    let pal = bg_palette(&ppu, 0, 6, 1);
    assert_eq!(pal, [1, 7, 8, 9]);
}

#[test]
fn sprite_palette_starts_transparent() {
    let mut ppu = PPU::new(vec![0u8; 0x2000], Mirroring::VERTICAL);
    ppu.palette_table[0x15] = 4;
    ppu.palette_table[0x16] = 5;
    ppu.palette_table[0x17] = 6;
    let pal = sprite_palette(&ppu, 1);
    assert_eq!(pal, [0, 4, 5, 6]);
}

#[test]
fn sprite_tile_draws_and_flips() {
    // Tile 0: only the leftmost pixel of row 0 is set (bit 7 of the low
    // plane).
    let mut chr = vec![0u8; 0x2000];
    chr[0] = 0x80;
    let mut frame = Frame::new((0, 0, 0));
    let pal = [0u8, 0x16, 0x17, 0x18];
    show_sprite_tile(&mut frame, &chr, 0, 0, 100, 50, false, false, pal);
    let c = system_palette(0x16);
    assert_eq!(pixel(&frame, 100, 50), (c.0, c.1, c.2, 0xFF));
    let mut frame2 = Frame::new((0, 0, 0));
    show_sprite_tile(&mut frame2, &chr, 0, 0, 100, 50, true, true, pal);
    assert_eq!(pixel(&frame2, 107, 57), (c.0, c.1, c.2, 0xFF));
    assert_eq!(pixel(&frame2, 100, 50), (0, 0, 0, 0xFF));
}

#[test]
fn foreground_sprite_covers_background() {
    let mut ppu = composed_ppu();
    // Sprite 0 at the top-left corner, tile 2, palette 0, in front.
    for y in 0..8 {
        ppu.chr_rom[32 + y] = 0x00;
        ppu.chr_rom[32 + y + 8] = 0xFF;  // every pixel has value 2
    }
    ppu.oam_data[0] = 0;  // y
    ppu.oam_data[1] = 2;  // tile
    ppu.oam_data[2] = 0;  // attributes: front, no flip, palette 0
    ppu.oam_data[3] = 0;  // x
    ppu.palette_table[0x12] = 0x21;  // sprite palette 0, pattern value 2
    let mut frame = Frame::new(system_palette(ppu.palette_table[0]));
    render(&ppu, &mut frame, 0, 240);
    let c = system_palette(0x21);
    assert_eq!(pixel(&frame, 0, 0), (c.0, c.1, c.2, 0xFF));
}

#[test]
fn behind_sprite_loses_to_background() {
    let mut ppu = composed_ppu();
    for y in 0..8 {
        ppu.chr_rom[32 + y] = 0x00;
        ppu.chr_rom[32 + y + 8] = 0xFF;
    }
    ppu.oam_data[0] = 0;
    ppu.oam_data[1] = 2;
    ppu.oam_data[2] = 0x20;  // behind the background
    ppu.oam_data[3] = 0;
    ppu.palette_table[0x12] = 0x21;
    let mut frame = Frame::new(system_palette(ppu.palette_table[0]));
    render(&ppu, &mut frame, 0, 240);
    let fg = system_palette(0x16);
    // The opaque background tile painted over the behind-sprite.
    assert_eq!(pixel(&frame, 0, 0), (fg.0, fg.1, fg.2, 0xFF));
}

#[test]
fn system_palette_known_entries() {
    assert_eq!(system_palette(0x00), (0x80, 0x80, 0x80));
    assert_eq!(system_palette(0x16), (0xFF, 0x22, 0x00));
    assert_eq!(system_palette(0x3F), (0x11, 0x11, 0x11));
    assert_eq!(system_palette(0x40), (0x80, 0x80, 0x80));
}
