//! The scanline-free whole-frame renderer: walk every background tile of the
//! first nametable and every sprite in OAM, resolve their palette entries,
//! and write RGB pixels into a frame. The contracts give every pixel of the
//! finished frame: the background color selected by nametable, attribute and
//! pattern data, overlaid by the sprites, lowest OAM index in front.

use vstd::prelude::*;

use crate::ppu::frame::{pixel_base, Frame, FRAME_SIZE};
use crate::ppu::oam::Tile;
use crate::ppu::palette::{spec_system_palette, system_palette};
use crate::ppu::Ppu;

verus! {

/// Which of the four background palettes an attribute byte selects for the
/// tile at (column, row): each attribute byte covers a 4x4 tile area in
/// 2x2 quadrants.
pub open spec fn spec_bg_palette_idx(attr: u8, tile_column: int, tile_row: int) -> u8 {
    if tile_column % 4 / 2 == 0 && tile_row % 4 / 2 == 0 {
        attr & 0b11
    } else if tile_column % 4 / 2 == 1 && tile_row % 4 / 2 == 0 {
        (attr >> 2) & 0b11
    } else if tile_column % 4 / 2 == 0 && tile_row % 4 / 2 == 1 {
        (attr >> 4) & 0b11
    } else {
        (attr >> 6) & 0b11
    }
}

/// The two-bit pattern value of column `x` (0 leftmost) given a tile row's
/// two plane bytes.
pub open spec fn spec_tile_pixel(upper: u8, lower: u8, x: int) -> u8 {
    ((1 & (lower >> ((7 - x) as u8))) << 1) | (1 & (upper >> ((7 - x) as u8)))
}

/// The three data bytes at pixel (px, py) hold the given color.
pub open spec fn spec_pixel_is(data: Seq<u8>, px: int, py: int, rgb: (u8, u8, u8)) -> bool {
    &&& data[pixel_base(px, py)] == rgb.0
    &&& data[pixel_base(px, py) + 1] == rgb.1
    &&& data[pixel_base(px, py) + 2] == rgb.2
}

/// The three data bytes at pixel (px, py) agree between two frames.
pub open spec fn spec_pixel_same(data0: Seq<u8>, data1: Seq<u8>, px: int, py: int) -> bool {
    &&& data1[pixel_base(px, py)] == data0[pixel_base(px, py)]
    &&& data1[pixel_base(px, py) + 1] == data0[pixel_base(px, py) + 1]
    &&& data1[pixel_base(px, py) + 2] == data0[pixel_base(px, py) + 2]
}

/// The color the background pass leaves at pixel (px, py): the tile's
/// pattern bits pick the backdrop or one of the three colors of the
/// attribute-selected palette, all looked up in the system palette.
pub open spec fn spec_bg_pixel(ppu: Ppu, px: int, py: int) -> (u8, u8, u8) {
    let col = px / 8;
    let row = py / 8;
    let tile_n = ppu.vram@[row * 32 + col];
    let bank = if ppu.registers.ctrl.0 & 0x10 != 0 {
        0x1000int
    } else {
        0int
    };
    let upper = ppu.chr_rom@[bank + tile_n * 16 + py % 8];
    let lower = ppu.chr_rom@[bank + tile_n * 16 + py % 8 + 8];
    let value = spec_tile_pixel(upper, lower, px % 8);
    let attr = ppu.vram@[0x3C0 + row / 4 * 8 + col / 4];
    let idx = spec_bg_palette_idx(attr, col, row);
    if value == 0 {
        spec_system_palette(ppu.palette_table@[0])
    } else if value == 1 {
        spec_system_palette(ppu.palette_table@[1 + idx * 4])
    } else if value == 2 {
        spec_system_palette(ppu.palette_table@[2 + idx * 4])
    } else {
        spec_system_palette(ppu.palette_table@[3 + idx * 4])
    }
}

/// The sprite-local row screen line `py` reads from, undoing the vertical
/// flip; lines the sprite does not cover map to -1.
pub open spec fn spec_sprite_source_row(ppu: Ppu, i: int, py: int) -> int {
    let y0 = ppu.renderer.oam_data@[4 * i];
    let attr = ppu.renderer.oam_data@[4 * i + 2];
    if y0 <= py < y0 + 8 {
        if attr & 0x80 != 0 {
            7 - (py - y0)
        } else {
            py - y0
        }
    } else {
        -1
    }
}

/// The sprite-local column screen column `px` reads from, undoing the
/// horizontal flip; columns the sprite does not cover map to -1.
pub open spec fn spec_sprite_source_col(ppu: Ppu, i: int, px: int) -> int {
    let x0 = ppu.renderer.oam_data@[4 * i + 3];
    let attr = ppu.renderer.oam_data@[4 * i + 2];
    if x0 <= px < x0 + 8 {
        if attr & 0x40 != 0 {
            7 - (px - x0)
        } else {
            px - x0
        }
    } else {
        -1
    }
}

/// The pattern value of OAM sprite `i` at screen pixel (px, py): the pixel
/// is mapped back through the sprite's flips into its 8x8 tile; pixels the
/// sprite does not cover read as 0, like its transparent color.
pub open spec fn spec_sprite_value_at(ppu: Ppu, i: int, px: int, py: int) -> u8 {
    let tile_n = ppu.renderer.oam_data@[4 * i + 1];
    let sx = spec_sprite_source_col(ppu, i, px);
    let sy = spec_sprite_source_row(ppu, i, py);
    if sx >= 0 && sy >= 0 {
        let bank = if ppu.registers.ctrl.0 & 0x08 != 0 {
            0x1000int
        } else {
            0int
        };
        spec_tile_pixel(
            ppu.chr_rom@[bank + tile_n * 16 + sy],
            ppu.chr_rom@[bank + tile_n * 16 + sy + 8],
            sx,
        )
    } else {
        0u8
    }
}

/// Whether sprite `i` paints pixel (px, py): it covers it with an opaque
/// pattern value.
pub open spec fn spec_sprite_hits(ppu: Ppu, i: int, px: int, py: int) -> bool {
    spec_sprite_value_at(ppu, i, px, py) != 0
}

/// The color sprite `i` paints at a pixel it hits.
pub open spec fn spec_sprite_rgb_at(ppu: Ppu, i: int, px: int, py: int) -> (u8, u8, u8) {
    let idx = ppu.renderer.oam_data@[4 * i + 2] & 0b11;
    let value = spec_sprite_value_at(ppu, i, px, py);
    if value == 1 {
        spec_system_palette(ppu.palette_table@[0x11 + idx * 4])
    } else if value == 2 {
        spec_system_palette(ppu.palette_table@[0x12 + idx * 4])
    } else {
        spec_system_palette(ppu.palette_table@[0x13 + idx * 4])
    }
}

/// The lowest sprite index in [from, 64) that paints pixel (px, py), or 64
/// when none does; the front-to-back priority of the sprite pass.
pub open spec fn spec_first_sprite_hit(ppu: Ppu, px: int, py: int, from: int) -> int
    decreases 64 - from,
{
    if from >= 64 {
        64int
    } else if spec_sprite_hits(ppu, from, px, py) {
        from
    } else {
        spec_first_sprite_hit(ppu, px, py, from + 1)
    }
}

/// The color of the finished frame at (px, py) once sprites `from` and up
/// have been painted over the background: the first hit wins, else the
/// background shows.
pub open spec fn spec_frame_pixel(ppu: Ppu, px: int, py: int, from: int) -> (u8, u8, u8) {
    let h = spec_first_sprite_hit(ppu, px, py, from);
    if h < 64 {
        spec_sprite_rgb_at(ppu, h, px, py)
    } else {
        spec_bg_pixel(ppu, px, py)
    }
}

/// Writes to distinct pixels of the visible frame touch disjoint byte
/// ranges.
pub proof fn lemma_pixel_base_disjoint(x1: int, y1: int, x2: int, y2: int)
    requires
        0 <= x1 < 256,
        0 <= x2 < 256,
        0 <= y1,
        0 <= y2,
        !(x1 == x2 && y1 == y2),
    ensures
        pixel_base(x1, y1) + 2 < pixel_base(x2, y2) || pixel_base(x2, y2) + 2 < pixel_base(x1, y1),
{
}

/// Shifting a byte right one more place is shifting by one more.
proof fn lemma_shr_step(v: u8, k: u8)
    requires
        k < 255,
    ensures
        (v >> k) >> 1 == v >> (k + 1) as u8,
{
    assert((v >> k) >> 1 == v >> ((k + 1) as u8)) by (bit_vector)
        requires k < 255;
}

/// The four system-palette indices the background tile at (column, row)
/// draws from: the shared backdrop entry and the three colors of its
/// attribute-selected palette.
fn bg_pallette(ppu: &Ppu, tile_column: usize, tile_row: usize) -> (r: [u8; 4])
    requires
        ppu.wf(),
        tile_column < 32,
        tile_row < 30,
    ensures
        ({
            let attr = ppu.vram@[0x3C0 + tile_row as int / 4 * 8 + tile_column as int / 4];
            let idx = spec_bg_palette_idx(attr, tile_column as int, tile_row as int);
            &&& r@[0] == ppu.palette_table@[0]
            &&& r@[1] == ppu.palette_table@[1 + idx * 4]
            &&& r@[2] == ppu.palette_table@[2 + idx * 4]
            &&& r@[3] == ppu.palette_table@[3 + idx * 4]
        }),
{
    let attr_table_idx = tile_row / 4 * 8 + tile_column / 4;

    // note: still using the first nametable
    let attr_byte = ppu.vram[0x3C0 + attr_table_idx];

    let pallet_idx: u8 = if tile_column % 4 / 2 == 0 && tile_row % 4 / 2 == 0 {
        attr_byte & 0b11
    } else if tile_column % 4 / 2 == 1 && tile_row % 4 / 2 == 0 {
        (attr_byte >> 2) & 0b11
    } else if tile_column % 4 / 2 == 0 && tile_row % 4 / 2 == 1 {
        (attr_byte >> 4) & 0b11
    } else {
        (attr_byte >> 6) & 0b11
    };

    proof {
        let a = attr_byte;
        assert((a & 0b11) < 4 && ((a >> 2) & 0b11) < 4 && ((a >> 4) & 0b11) < 4 && ((a >> 6)
            & 0b11) < 4) by (bit_vector);
    }

    let pallete_start: usize = 1 + (pallet_idx as usize) * 4;
    [
        ppu.palette_table[0],
        ppu.palette_table[pallete_start],
        ppu.palette_table[pallete_start + 1],
        ppu.palette_table[pallete_start + 2],
    ]
}

/// The backdrop and the three colors of one sprite palette.
fn sprite_palette(ppu: &Ppu, pallete_idx: u8) -> (r: [u8; 4])
    requires
        ppu.wf(),
        pallete_idx <= 3,
    ensures
        r@[0] == 0,
        r@[1] == ppu.palette_table@[0x11 + pallete_idx * 4],
        r@[2] == ppu.palette_table@[0x12 + pallete_idx * 4],
        r@[3] == ppu.palette_table@[0x13 + pallete_idx * 4],
{
    let start = 0x11 + (pallete_idx * 4) as usize;
    [0, ppu.palette_table[start], ppu.palette_table[start + 1], ppu.palette_table[start + 2]]
}

/// Paint the 32x30 background tiles of the first nametable: afterwards
/// every visible pixel holds its background color.
fn render_background(ppu: &Ppu, frame: &mut Frame)
    requires
        ppu.wf(),
        old(frame).wf(),
    ensures
        final(frame).wf(),
        forall|px: int, py: int|
            0 <= px < 256 && 0 <= py < 240 ==> #[trigger] spec_pixel_is(
                final(frame).data@,
                px,
                py,
                spec_bg_pixel(*ppu, px, py),
            ),
{
    let bank = ppu.registers.ctrl.background_pattern_address();

    let mut i: usize = 0;
    while i < 0x3C0
        invariant
            i <= 0x3C0,
            ppu.wf(),
            frame.wf(),
            bank == (if ppu.registers.ctrl.0 & 0x10 != 0 {
                0x1000int
            } else {
                0int
            }),
            forall|px: int, py: int|
                0 <= px < 256 && 0 <= py < 240 && (py / 8) * 32 + px / 8 < i
                    ==> #[trigger] spec_pixel_is(
                    frame.data@,
                    px,
                    py,
                    spec_bg_pixel(*ppu, px, py),
                ),
        decreases 0x3C0 - i,
    {
        let tile_n = ppu.vram[i] as usize;
        let tile_column = i % 32;
        let tile_row = i / 32;
        let tile_base = bank + tile_n * 16;
        let palette = bg_pallette(ppu, tile_column, tile_row);

        let mut y: usize = 0;
        while y < 8
            invariant
                y <= 8,
                ppu.wf(),
                frame.wf(),
                i < 0x3C0,
                tile_n == ppu.vram@[i as int],
                tile_column == i % 32,
                tile_row == i / 32,
                tile_base == bank + tile_n * 16,
                bank == (if ppu.registers.ctrl.0 & 0x10 != 0 {
                    0x1000int
                } else {
                    0int
                }),
                ({
                    let attr = ppu.vram@[0x3C0 + tile_row as int / 4 * 8 + tile_column as int / 4];
                    let idx = spec_bg_palette_idx(attr, tile_column as int, tile_row as int);
                    &&& palette@[0] == ppu.palette_table@[0]
                    &&& palette@[1] == ppu.palette_table@[1 + idx * 4]
                    &&& palette@[2] == ppu.palette_table@[2 + idx * 4]
                    &&& palette@[3] == ppu.palette_table@[3 + idx * 4]
                }),
                forall|px: int, py: int|
                    0 <= px < 256 && 0 <= py < 240 && ((py / 8) * 32 + px / 8 < i || ((py / 8) * 32
                        + px / 8 == i && py % 8 < y)) ==> #[trigger] spec_pixel_is(
                        frame.data@,
                        px,
                        py,
                        spec_bg_pixel(*ppu, px, py),
                    ),
            decreases 8 - y,
        {
            let row_upper = ppu.chr_rom[tile_base + y];
            let row_lower = ppu.chr_rom[tile_base + y + 8];
            let mut upper = row_upper;
            let mut lower = row_lower;
            proof {
                assert(row_upper >> 0u8 == row_upper && row_lower >> 0u8 == row_lower)
                    by (bit_vector);
            }

            let mut xi: usize = 0;
            while xi < 8
                invariant
                    xi <= 8,
                    ppu.wf(),
                    frame.wf(),
                    i < 0x3C0,
                    y < 8,
                    tile_n == ppu.vram@[i as int],
                    tile_column == i % 32,
                    tile_row == i / 32,
                    tile_base == bank + tile_n * 16,
                    bank == (if ppu.registers.ctrl.0 & 0x10 != 0 {
                        0x1000int
                    } else {
                        0int
                    }),
                    row_upper == ppu.chr_rom@[tile_base + y],
                    row_lower == ppu.chr_rom@[tile_base + y + 8],
                    upper == row_upper >> (xi as u8),
                    lower == row_lower >> (xi as u8),
                    ({
                        let attr = ppu.vram@[0x3C0 + tile_row as int / 4 * 8 + tile_column as int
                            / 4];
                        let idx = spec_bg_palette_idx(attr, tile_column as int, tile_row as int);
                        &&& palette@[0] == ppu.palette_table@[0]
                        &&& palette@[1] == ppu.palette_table@[1 + idx * 4]
                        &&& palette@[2] == ppu.palette_table@[2 + idx * 4]
                        &&& palette@[3] == ppu.palette_table@[3 + idx * 4]
                    }),
                    forall|px: int, py: int|
                        0 <= px < 256 && 0 <= py < 240 && ((py / 8) * 32 + px / 8 < i || ((py / 8)
                            * 32 + px / 8 == i && (py % 8 < y || (py % 8 == y && px % 8 > 7 - xi))))
                            ==> #[trigger] spec_pixel_is(
                            frame.data@,
                            px,
                            py,
                            spec_bg_pixel(*ppu, px, py),
                        ),
                decreases 8 - xi,
            {
                let x = 7 - xi;
                let value = (1 & lower) << 1 | (1 & upper);
                proof {
                    lemma_shr_step(row_upper, xi as u8);
                    lemma_shr_step(row_lower, xi as u8);
                }
                upper = upper >> 1;
                lower = lower >> 1;
                let rgb = if value == 0 {
                    system_palette(ppu.palette_table[0])
                } else if value == 1 {
                    system_palette(palette[1])
                } else if value == 2 {
                    system_palette(palette[2])
                } else {
                    system_palette(palette[3])
                };
                let wx = tile_column * 8 + x;
                let wy = tile_row * 8 + y;
                let ghost pre_w = frame.data@;
                frame.set_pixel(wx, wy, rgb);
                proof {
                    assert(wx < 256 && wy < 240) by (nonlinear_arith)
                        requires
                            tile_column < 32,
                            tile_row < 30,
                            x < 8,
                            y < 8,
                            wx == tile_column * 8 + x,
                            wy == tile_row * 8 + y;
                    assert(wx as int / 8 == tile_column && wx as int % 8 == x && wy as int / 8
                        == tile_row && wy as int % 8 == y) by (nonlinear_arith)
                        requires
                            x < 8,
                            y < 8,
                            wx == tile_column * 8 + x,
                            wy == tile_row * 8 + y;
                    assert((wy as int / 8) * 32 + wx as int / 8 == i) by (nonlinear_arith)
                        requires
                            wx as int / 8 == tile_column,
                            wy as int / 8 == tile_row,
                            tile_column == i % 32,
                            tile_row == i / 32,
                            i < 0x3C0;
                    assert(pixel_base(wx as int, wy as int) + 2 < FRAME_SIZE) by (nonlinear_arith)
                        requires
                            wx < 256,
                            wy < 240;
                    assert(value == spec_tile_pixel(row_upper, row_lower, x as int));
                    assert(rgb == spec_bg_pixel(*ppu, wx as int, wy as int));
                    assert forall|px: int, py: int|
                        0 <= px < 256 && 0 <= py < 240 && ((py / 8) * 32 + px / 8 < i || ((py / 8)
                            * 32 + px / 8 == i && (py % 8 < y || (py % 8 == y && px % 8 > 7 - (xi
                            + 1))))) implies #[trigger] spec_pixel_is(
                        frame.data@,
                        px,
                        py,
                        spec_bg_pixel(*ppu, px, py),
                    ) by {
                        vstd::arithmetic::div_mod::lemma_fundamental_div_mod(px, 8);
                        vstd::arithmetic::div_mod::lemma_fundamental_div_mod(py, 8);
                        if px == wx && py == wy {
                        } else {
                            assert(spec_pixel_is(pre_w, px, py, spec_bg_pixel(*ppu, px, py)));
                            lemma_pixel_base_disjoint(px, py, wx as int, wy as int);
                        }
                    }
                }
                xi = xi + 1;
            }
            y = y + 1;
        }
        proof {
            assert forall|px: int, py: int|
                0 <= px < 256 && 0 <= py < 240 && (py / 8) * 32 + px / 8 < i + 1
                    implies #[trigger] spec_pixel_is(
                frame.data@,
                px,
                py,
                spec_bg_pixel(*ppu, px, py),
            ) by {
                if (py / 8) * 32 + px / 8 == i {
                    assert(py % 8 < 8);
                }
            }
        }
        i = i + 1;
    }
    proof {
        assert forall|px: int, py: int| 0 <= px < 256 && 0 <= py < 240 implies #[trigger]
            spec_pixel_is(frame.data@, px, py, spec_bg_pixel(*ppu, px, py)) by {
            assert((py / 8) * 32 + px / 8 < 0x3C0) by (nonlinear_arith)
                requires 0 <= px < 256, 0 <= py < 240;
        }
    }
}

/// Paint one OAM sprite, honoring its flips: afterwards every pixel the
/// sprite hits with an opaque color holds that color and every other pixel
/// is untouched. Pixels past the right or bottom edge are clipped.
#[verifier::rlimit(100)]
#[verifier::spinoff_prover]
fn render_sprite(ppu: &Ppu, frame: &mut Frame, i: usize)
    requires
        ppu.wf(),
        old(frame).wf(),
        i < 64,
    ensures
        final(frame).wf(),
        forall|px: int, py: int|
            0 <= px < 256 && 0 <= py < 240 && spec_sprite_hits(*ppu, i as int, px, py)
                ==> #[trigger] spec_pixel_is(
                final(frame).data@,
                px,
                py,
                spec_sprite_rgb_at(*ppu, i as int, px, py),
            ),
        forall|px: int, py: int|
            0 <= px < 256 && 0 <= py < 240 && !spec_sprite_hits(*ppu, i as int, px, py)
                ==> #[trigger] spec_pixel_same(old(frame).data@, final(frame).data@, px, py),
{
    let base = i * 4;
    let b0 = ppu.renderer.oam_data[base];
    let b1 = ppu.renderer.oam_data[base + 1];
    let b2 = ppu.renderer.oam_data[base + 2];
    let b3 = ppu.renderer.oam_data[base + 3];
    let oam_tile = Tile { buffer: [b0, b1, b2, b3] };

    let idx = oam_tile.palette_idx();
    proof {
        assert(b2 & 0b11 <= 3) by (bit_vector);
    }
    let sprite_colors = sprite_palette(ppu, idx);

    let bank = ppu.registers.ctrl.sprite_pattern_address();

    let offset = bank + oam_tile.tile_idx() * 16;
    let x0 = oam_tile.x_pos() as usize;
    let y0 = oam_tile.y_pos();
    let flip_h = oam_tile.flip_horizontal();
    let flip_v = oam_tile.flip_vertical();

    let ghost ii = i as int;

    let mut sy: usize = 0;
    while sy < 8
        invariant
            sy <= 8,
            ppu.wf(),
            frame.wf(),
            i < 64,
            base == i * 4,
            b0 == ppu.renderer.oam_data@[4 * ii],
            b1 == ppu.renderer.oam_data@[4 * ii + 1],
            b2 == ppu.renderer.oam_data@[4 * ii + 2],
            b3 == ppu.renderer.oam_data@[4 * ii + 3],
            ii == i as int,
            x0 == b3,
            y0 == b0,
            flip_h == (b2 & 0x40 != 0),
            flip_v == (b2 & 0x80 != 0),
            offset == (if ppu.registers.ctrl.0 & 0x08 != 0 {
                0x1000int
            } else {
                0int
            }) + b1 * 16,
            sprite_colors@[1] == ppu.palette_table@[0x11 + (b2 & 0b11) * 4],
            sprite_colors@[2] == ppu.palette_table@[0x12 + (b2 & 0b11) * 4],
            sprite_colors@[3] == ppu.palette_table@[0x13 + (b2 & 0b11) * 4],
            forall|px: int, py: int|
                0 <= px < 256 && 0 <= py < 240 && spec_sprite_hits(*ppu, ii, px, py)
                    && spec_sprite_source_row(*ppu, ii, py) < sy ==> #[trigger] spec_pixel_is(
                    frame.data@,
                    px,
                    py,
                    spec_sprite_rgb_at(*ppu, ii, px, py),
                ),
            forall|px: int, py: int|
                0 <= px < 256 && 0 <= py < 240 && !(spec_sprite_hits(*ppu, ii, px, py)
                    && spec_sprite_source_row(*ppu, ii, py) < sy) ==> #[trigger] spec_pixel_same(
                    old(frame).data@,
                    frame.data@,
                    px,
                    py,
                ),
        decreases 8 - sy,
    {
        let row_upper = ppu.chr_rom[offset + sy];
        let row_lower = ppu.chr_rom[offset + sy + 8];
        let mut upper = row_upper;
        let mut lower = row_lower;
        proof {
            assert(row_upper >> 0u8 == row_upper && row_lower >> 0u8 == row_lower)
                by (bit_vector);
        }

        let mut xi: usize = 0;
        while xi < 8
            invariant
                xi <= 8,
                sy < 8,
                ppu.wf(),
                frame.wf(),
                i < 64,
                b0 == ppu.renderer.oam_data@[4 * ii],
                b1 == ppu.renderer.oam_data@[4 * ii + 1],
                b2 == ppu.renderer.oam_data@[4 * ii + 2],
                b3 == ppu.renderer.oam_data@[4 * ii + 3],
                ii == i as int,
                x0 == b3,
                y0 == b0,
                flip_h == (b2 & 0x40 != 0),
                flip_v == (b2 & 0x80 != 0),
                offset == (if ppu.registers.ctrl.0 & 0x08 != 0 {
                    0x1000int
                } else {
                    0int
                }) + b1 * 16,
                row_upper == ppu.chr_rom@[offset + sy],
                row_lower == ppu.chr_rom@[offset + sy + 8],
                upper == row_upper >> (xi as u8),
                lower == row_lower >> (xi as u8),
                sprite_colors@[1] == ppu.palette_table@[0x11 + (b2 & 0b11) * 4],
                sprite_colors@[2] == ppu.palette_table@[0x12 + (b2 & 0b11) * 4],
                sprite_colors@[3] == ppu.palette_table@[0x13 + (b2 & 0b11) * 4],
                forall|px: int, py: int|
                    0 <= px < 256 && 0 <= py < 240 && spec_sprite_hits(*ppu, ii, px, py) && (
                    spec_sprite_source_row(*ppu, ii, py) < sy || (spec_sprite_source_row(
                        *ppu,
                        ii,
                        py,
                    ) == sy && spec_sprite_source_col(*ppu, ii, px) > 7 - xi))
                        ==> #[trigger] spec_pixel_is(
                        frame.data@,
                        px,
                        py,
                        spec_sprite_rgb_at(*ppu, ii, px, py),
                    ),
                forall|px: int, py: int|
                    0 <= px < 256 && 0 <= py < 240 && !(spec_sprite_hits(*ppu, ii, px, py) && (
                    spec_sprite_source_row(*ppu, ii, py) < sy || (spec_sprite_source_row(
                        *ppu,
                        ii,
                        py,
                    ) == sy && spec_sprite_source_col(*ppu, ii, px) > 7 - xi)))
                        ==> #[trigger] spec_pixel_same(old(frame).data@, frame.data@, px, py),
            decreases 8 - xi,
        {
            let sx = 7 - xi;
            let value = (1 & lower) << 1 | (1 & upper);
            proof {
                lemma_shr_step(row_upper, xi as u8);
                lemma_shr_step(row_lower, xi as u8);
            }
            upper = upper >> 1;
            lower = lower >> 1;

            let actual_x = if !flip_h {
                x0 + sx
            } else {
                x0 + 7 - sx
            };

            let actual_y = if !flip_v {
                y0 + sy
            } else {
                y0 + 7 - sy
            };

            let ghost pre_iter = frame.data@;
            let wrote = value != 0 && actual_x < 256 && actual_y < 240;
            proof {
                assert(value == spec_tile_pixel(row_upper, row_lower, sx as int));
            }

            if wrote {
                let rgb = if value == 1 {
                    system_palette(sprite_colors[1])
                } else if value == 2 {
                    system_palette(sprite_colors[2])
                } else {
                    system_palette(sprite_colors[3])
                };
                frame.set_pixel(actual_x, actual_y, rgb);
                proof {
                    assert(spec_sprite_source_col(*ppu, ii, actual_x as int) == sx as int);
                    assert(spec_sprite_source_row(*ppu, ii, actual_y as int) == sy as int);
                    assert(spec_sprite_value_at(*ppu, ii, actual_x as int, actual_y as int)
                        == value);
                    assert(rgb == spec_sprite_rgb_at(*ppu, ii, actual_x as int, actual_y as int));
                    assert(pixel_base(actual_x as int, actual_y as int) + 2 < FRAME_SIZE)
                        by (nonlinear_arith)
                        requires
                            actual_x < 256,
                            actual_y < 240;
                }
            }
            proof {
                // a screen pixel whose source coordinates are exactly
                // (sx, sy) can only be the one target of this iteration
                assert forall|px: int, py: int|
                    0 <= px < 256 && 0 <= py < 240 && spec_sprite_source_col(*ppu, ii, px)
                        == sx as int && spec_sprite_source_row(*ppu, ii, py) == sy as int implies px
                    == actual_x as int && py == actual_y as int by {}
                assert forall|px: int, py: int|
                    0 <= px < 256 && 0 <= py < 240 && spec_sprite_hits(*ppu, ii, px, py) && (
                    spec_sprite_source_row(*ppu, ii, py) < sy || (spec_sprite_source_row(
                        *ppu,
                        ii,
                        py,
                    ) == sy && spec_sprite_source_col(*ppu, ii, px) > 7 - (xi + 1)))
                        implies #[trigger] spec_pixel_is(
                    frame.data@,
                    px,
                    py,
                    spec_sprite_rgb_at(*ppu, ii, px, py),
                ) by {
                    if wrote && px == actual_x as int && py == actual_y as int {
                    } else if spec_sprite_source_row(*ppu, ii, py) == sy as int
                        && spec_sprite_source_col(*ppu, ii, px) == sx as int {
                        // the one target of this iteration, reached without
                        // a write: it was clipped or transparent, so it is
                        // not a hit pixel and the hypothesis is empty
                        assert(px == actual_x as int && py == actual_y as int);
                        assert(value == spec_tile_pixel(row_upper, row_lower, sx as int));
                        assert(spec_sprite_value_at(*ppu, ii, px, py) == value);
                    } else {
                        assert(spec_pixel_is(
                            pre_iter,
                            px,
                            py,
                            spec_sprite_rgb_at(*ppu, ii, px, py),
                        ));
                        if wrote {
                            lemma_pixel_base_disjoint(px, py, actual_x as int, actual_y as int);
                        } else {
                            assert(frame.data@ == pre_iter);
                        }
                    }
                }
                assert forall|px: int, py: int|
                    0 <= px < 256 && 0 <= py < 240 && !(spec_sprite_hits(*ppu, ii, px, py) && (
                    spec_sprite_source_row(*ppu, ii, py) < sy || (spec_sprite_source_row(
                        *ppu,
                        ii,
                        py,
                    ) == sy && spec_sprite_source_col(*ppu, ii, px) > 7 - (xi + 1))))
                        implies #[trigger] spec_pixel_same(
                    old(frame).data@,
                    frame.data@,
                    px,
                    py,
                ) by {
                    assert(spec_pixel_same(old(frame).data@, pre_iter, px, py));
                    if wrote {
                        assert(spec_sprite_source_col(*ppu, ii, actual_x as int) == sx as int);
                        assert(spec_sprite_source_row(*ppu, ii, actual_y as int) == sy as int);
                        assert(!(px == actual_x as int && py == actual_y as int));
                        lemma_pixel_base_disjoint(px, py, actual_x as int, actual_y as int);
                    } else {
                        assert(frame.data@ == pre_iter);
                    }
                }
            }
            xi = xi + 1;
        }
        sy = sy + 1;
    }
}

/// Paint a whole frame: the background first, then the sprites back to
/// front so that lower OAM indices win overlaps. Afterwards every pixel
/// holds the color of the first sprite that hits it, or its background
/// color where none does.
pub fn render(ppu: &Ppu, frame: &mut Frame)
    requires
        ppu.wf(),
        old(frame).wf(),
    ensures
        final(frame).wf(),
        forall|px: int, py: int|
            0 <= px < 256 && 0 <= py < 240 ==> #[trigger] spec_pixel_is(
                final(frame).data@,
                px,
                py,
                spec_frame_pixel(*ppu, px, py, 0),
            ),
{
    render_background(ppu, frame);

    let mut k: usize = 0;
    while k < 64
        invariant
            k <= 64,
            ppu.wf(),
            frame.wf(),
            forall|px: int, py: int|
                0 <= px < 256 && 0 <= py < 240 ==> #[trigger] spec_pixel_is(
                    frame.data@,
                    px,
                    py,
                    spec_frame_pixel(*ppu, px, py, 64 - k as int),
                ),
        decreases 64 - k,
    {
        let ghost pre = frame.data@;
        render_sprite(ppu, frame, 63 - k);
        proof {
            let j = 63 - k as int;
            assert forall|px: int, py: int| 0 <= px < 256 && 0 <= py < 240 implies #[trigger]
                spec_pixel_is(frame.data@, px, py, spec_frame_pixel(*ppu, px, py, j)) by {
                if spec_sprite_hits(*ppu, j, px, py) {
                    assert(spec_first_sprite_hit(*ppu, px, py, j) == j);
                    assert(spec_pixel_is(frame.data@, px, py, spec_sprite_rgb_at(*ppu, j, px, py)));
                } else {
                    assert(spec_first_sprite_hit(*ppu, px, py, j) == spec_first_sprite_hit(
                        *ppu,
                        px,
                        py,
                        j + 1,
                    ));
                    assert(spec_pixel_is(pre, px, py, spec_frame_pixel(*ppu, px, py, j + 1)));
                    assert(spec_pixel_same(pre, frame.data@, px, py));
                }
            }
        }
        k = k + 1;
    }
    proof {
        assert forall|px: int, py: int| 0 <= px < 256 && 0 <= py < 240 implies #[trigger]
            spec_pixel_is(frame.data@, px, py, spec_frame_pixel(*ppu, px, py, 0)) by {
            assert(spec_pixel_is(frame.data@, px, py, spec_frame_pixel(*ppu, px, py, 64 - k as int)));
        }
    }
}

} // verus!
