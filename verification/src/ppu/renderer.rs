//! The PPU's dot clock and scanline machinery: 341 dots per scanline, 262
//! scanlines per frame, vertical blank entered at scanline 241 dot 1 and
//! left at scanline 261 dot 1, with sprite evaluation at dot 257 of every
//! visible scanline.

use vstd::prelude::*;
use vstd::slice::slice_subrange;

use super::frame::Frame;
use super::registers::Registers;
use super::sprite::{Sprite, SpriteAttribute};
use super::PPUResult;

verus! {

pub struct Renderer {
    pub cycle: usize,
    pub scanline: usize,
    /// Total dots ever ticked; the bus keeps this at three times its own
    /// cycle counter.
    pub dots: u64,
    pub frame: Frame,
    pub oam_data: Vec<u8>,
    pub secondary_oam: Vec<Sprite>,
}

/// The dot counter after one tick.
pub open spec fn spec_next_cycle(cycle: int) -> int {
    if cycle + 1 >= 341 {
        0
    } else {
        cycle + 1
    }
}

/// The scanline counter after one tick: it advances when the dot counter
/// wraps and itself wraps after scanline 261.
pub open spec fn spec_next_scanline(cycle: int, scanline: int) -> int {
    if cycle + 1 >= 341 {
        if scanline + 1 >= 262 {
            0
        } else {
            scanline + 1
        }
    } else {
        scanline
    }
}

/// The sprite held in the four OAM bytes of entry `i`.
pub open spec fn sprite_at(oam: Seq<u8>, i: int) -> Sprite {
    Sprite {
        y: oam[4 * i],
        index: oam[4 * i + 1],
        attributes: SpriteAttribute(oam[4 * i + 2]),
        x: oam[4 * i + 3],
    }
}

/// Whether OAM entry `i` covers `scanline` with a sprite of height `h`.
pub open spec fn sprite_visible(oam: Seq<u8>, i: int, scanline: int, h: int) -> bool {
    &&& oam[4 * i] <= scanline
    &&& scanline < oam[4 * i] + h
}

/// How many of the first `n` OAM entries cover `scanline`.
pub open spec fn count_visible(oam: Seq<u8>, scanline: int, h: int, n: int) -> int
    decreases n,
{
    if n <= 0 {
        0
    } else {
        count_visible(oam, scanline, h, n - 1) + if sprite_visible(oam, n - 1, scanline, h) {
            1int
        } else {
            0int
        }
    }
}

/// Whether `s` is the sprite of the k-th visible OAM entry for `scanline`:
/// some entry that covers the line, preceded by exactly `k` visible ones.
pub open spec fn is_kth_scanline_sprite(
    oam: Seq<u8>,
    scanline: int,
    h: int,
    k: int,
    s: Sprite,
) -> bool {
    exists|j: int|
        0 <= j < 64 && sprite_visible(oam, j, scanline, h) && count_visible(oam, scanline, h, j)
            == k && s == #[trigger] sprite_at(oam, j)
}

/// The scanline-grain sprite-0 hit rule this renderer implements: with
/// background and sprite rendering both enabled, sprite 0 covering the line
/// and not pinned to the right edge, the hit flag rises at the line's
/// evaluation dot. The per-pixel opacity coincidence of the dot pipeline is
/// not modeled at this granularity.
pub open spec fn spec_sprite0_hit_rule(oam: Seq<u8>, scanline: int, h: int, mask: u8) -> bool {
    &&& mask & 0x08 != 0
    &&& mask & 0x10 != 0
    &&& sprite_visible(oam, 0, scanline, h)
    &&& oam[3] <= 254
}

/// What one round of sprite evaluation leaves behind: the secondary list
/// holds the first eight visible entries in OAM order, and the overflow flag
/// is raised exactly when a ninth visible entry exists.
pub open spec fn sprite_eval_ok(
    oam: Seq<u8>,
    scanline: int,
    h: int,
    sec: Seq<Sprite>,
    overflow_before: bool,
    overflow_after: bool,
) -> bool {
    &&& sec.len() == if count_visible(oam, scanline, h, 64) < 8 {
        count_visible(oam, scanline, h, 64)
    } else {
        8int
    }
    &&& (forall|k: int|
        #![trigger sec[k]]
        0 <= k < sec.len() ==> is_kth_scanline_sprite(oam, scanline, h, k, sec[k]))
    &&& overflow_after == (overflow_before || count_visible(oam, scanline, h, 64) > 8)
}

impl Renderer {
    /// The dot and scanline counters stay inside one frame and the OAM holds
    /// its 256 bytes.
    pub open spec fn wf(self) -> bool {
        &&& self.cycle < 341
        &&& self.scanline < 262
        &&& self.oam_data@.len() == 256
        &&& self.frame.wf()
    }

    pub fn new() -> (r: Renderer)
        ensures
            r.wf(),
            r.cycle == 0,
            r.scanline == 0,
            r.dots == 0,
            r.secondary_oam@.len() == 0,
            forall|i: int| 0 <= i < 256 ==> r.oam_data@[i] == 0u8,
    {
        let mut oam_data: Vec<u8> = Vec::new();
        oam_data.resize(256, 0u8);
        Renderer {
            cycle: 0,
            scanline: 0,
            dots: 0,
            frame: Frame::new(),
            oam_data,
            secondary_oam: Vec::new(),
        }
    }

    /// Advance one dot. Vertical blank begins at scanline 241 dot 1, where
    /// the caller is told to consider an NMI; it ends at scanline 261 dot 1
    /// together with the sprite flags; the finished frame is announced at
    /// scanline 240 dot 0; and dot 257 of every visible scanline evaluates
    /// the sprites for that line.
    pub fn tick(&mut self, state: &mut Registers) -> (result: PPUResult)
        requires
            old(self).wf(),
        ensures
            final(self).wf(),
            final(self).cycle == spec_next_cycle(old(self).cycle as int),
            final(self).scanline == spec_next_scanline(
                old(self).cycle as int,
                old(self).scanline as int,
            ),
            final(self).dots == old(self).dots.wrapping_add(1),
            final(self).oam_data == old(self).oam_data,
            final(self).frame == old(self).frame,
            (result == PPUResult::Nmi) <==> (old(self).scanline == 241 && old(self).cycle == 1),
            (result == PPUResult::FrameComplete) <==> (old(self).scanline == 240 && old(self).cycle == 0),
            final(state).ctrl == old(state).ctrl,
            final(state).mask == old(state).mask,
            final(state).scroll == old(state).scroll,
            final(state).addr == old(state).addr,
            old(self).scanline == 241 && old(self).cycle == 1 ==> final(state).status.0 == (old(state).status.0 | 0x80),
            old(self).scanline == 261 && old(self).cycle == 1 ==> final(state).status.0 == (old(state).status.0 & 0x1F),
            !((old(self).scanline == 241 || old(self).scanline == 261) && old(self).cycle == 1)
                && !(old(self).scanline <= 239 && old(self).cycle == 257) ==> final(state).status
                == old(state).status,
            old(self).scanline <= 239 && old(self).cycle == 257 ==> final(state).status.0 == ({
                let h = if old(state).ctrl.0 & 0x20 != 0 {
                    16int
                } else {
                    8int
                };
                let s1 = if count_visible(
                    old(self).oam_data@,
                    old(self).scanline as int,
                    h,
                    64,
                ) > 8 {
                    old(state).status.0 | 0x20
                } else {
                    old(state).status.0
                };
                if spec_sprite0_hit_rule(
                    old(self).oam_data@,
                    old(self).scanline as int,
                    h,
                    old(state).mask.0,
                ) {
                    s1 | 0x40
                } else {
                    s1
                }
            }),
            old(self).scanline <= 239 && old(self).cycle == 257 ==> sprite_eval_ok(
                old(self).oam_data@,
                old(self).scanline as int,
                if old(state).ctrl.0 & 0x20 != 0 {
                    16int
                } else {
                    8int
                },
                final(self).secondary_oam@,
                old(state).status.0 & 0x20 != 0,
                final(state).status.0 & 0x20 != 0,
            ),
            !(old(self).scanline <= 239 && old(self).cycle == 257) ==> final(self).secondary_oam
                == old(self).secondary_oam,
    {
        let result: PPUResult = if self.scanline <= 239 {
            if self.cycle == 257 {
                self.find_scanline_sprites(state);
            }
            PPUResult::Idle
        } else if self.scanline == 240 && self.cycle == 0 {
            PPUResult::FrameComplete
        } else if self.scanline == 241 && self.cycle == 1 {
            state.status.set_vblank(true);
            PPUResult::Nmi
        } else if self.scanline == 261 && self.cycle == 1 {
            state.status.set_vblank(false);
            state.status.set_sprite_0_hit(false);
            state.status.set_sprite_overflow(false);
            PPUResult::Idle
        } else {
            PPUResult::Idle
        };

        self.tick_cycle();

        proof {
            let s = old(state).status.0;
            assert(((s & 0x7F) & !0x40u8) & !0x20u8 == s & 0x1F) by (bit_vector);
        }

        result
    }

    /// Step the dot counter, carrying into the scanline counter and wrapping
    /// at the end of the frame.
    fn tick_cycle(&mut self)
        requires
            old(self).wf(),
        ensures
            final(self).wf(),
            final(self).cycle == spec_next_cycle(old(self).cycle as int),
            final(self).scanline == spec_next_scanline(
                old(self).cycle as int,
                old(self).scanline as int,
            ),
            final(self).dots == old(self).dots.wrapping_add(1),
            final(self).frame == old(self).frame,
            final(self).oam_data == old(self).oam_data,
            final(self).secondary_oam == old(self).secondary_oam,
    {
        self.dots = self.dots.wrapping_add(1);
        self.cycle = self.cycle + 1;

        if self.cycle >= 341 {
            self.cycle = self.cycle % 341;
            self.scanline = self.scanline + 1;

            if self.scanline >= 262 {
                self.scanline = 0;
            }
        }
    }

    /// Whether the background contributes at column `x` under the current
    /// mask.
    pub fn render_background_pixel(&self, x: usize, state: &Registers) -> (r: u8)
        ensures
            r == (if state.mask.0 & 0x08 != 0 && (x >= 8 || state.mask.0 & 0x02 != 0) {
                1u8
            } else {
                0u8
            }),
    {
        if !state.mask.show_background_at(x) {
            return 0;
        }

        1
    }

    // Find all sprites that are on this scanline
    fn find_scanline_sprites(&mut self, state: &mut Registers)
        requires
            old(self).wf(),
            old(self).scanline <= 239,
        ensures
            final(self).wf(),
            final(self).cycle == old(self).cycle,
            final(self).scanline == old(self).scanline,
            final(self).dots == old(self).dots,
            final(self).frame == old(self).frame,
            final(self).oam_data == old(self).oam_data,
            final(state).ctrl == old(state).ctrl,
            final(state).mask == old(state).mask,
            final(state).scroll == old(state).scroll,
            final(state).addr == old(state).addr,
            final(state).status.0 == ({
                let h = if old(state).ctrl.0 & 0x20 != 0 {
                    16int
                } else {
                    8int
                };
                let s1 = if count_visible(
                    old(self).oam_data@,
                    old(self).scanline as int,
                    h,
                    64,
                ) > 8 {
                    old(state).status.0 | 0x20
                } else {
                    old(state).status.0
                };
                if spec_sprite0_hit_rule(
                    old(self).oam_data@,
                    old(self).scanline as int,
                    h,
                    old(state).mask.0,
                ) {
                    s1 | 0x40
                } else {
                    s1
                }
            }),
            sprite_eval_ok(
                old(self).oam_data@,
                old(self).scanline as int,
                if old(state).ctrl.0 & 0x20 != 0 {
                    16int
                } else {
                    8int
                },
                final(self).secondary_oam@,
                old(state).status.0 & 0x20 != 0,
                final(state).status.0 & 0x20 != 0,
            ),
    {
        self.secondary_oam.clear();
        let sprite_size: usize = if state.ctrl.sprite_size() {
            16
        } else {
            8
        };
        let ghost h = sprite_size as int;
        let ghost oam = self.oam_data@;
        let ghost line = self.scanline as int;
        let ghost mut srcs: Seq<int> = Seq::empty();

        let mut i: usize = 0;
        while i < 64
            invariant
                i <= 64,
                self.wf(),
                sprite_size == if old(state).ctrl.0 & 0x20 != 0 {
                    16usize
                } else {
                    8usize
                },
                h == sprite_size as int,
                oam == self.oam_data@,
                line == self.scanline as int,
                line <= 239,
                self.cycle == old(self).cycle,
                self.scanline == old(self).scanline,
                self.dots == old(self).dots,
                self.frame == old(self).frame,
                self.oam_data == old(self).oam_data,
                state.ctrl == old(state).ctrl,
                state.mask == old(state).mask,
                state.scroll == old(state).scroll,
                state.addr == old(state).addr,
                self.secondary_oam@.len() == if count_visible(oam, line, h, i as int) < 8 {
                    count_visible(oam, line, h, i as int)
                } else {
                    8int
                },
                srcs.len() == self.secondary_oam@.len(),
                forall|k: int|
                    #![trigger srcs[k]]
                    0 <= k < srcs.len() ==> 0 <= srcs[k] < i && sprite_visible(
                        oam,
                        srcs[k],
                        line,
                        h,
                    ) && count_visible(oam, line, h, srcs[k]) == k && self.secondary_oam@[k]
                        == sprite_at(oam, srcs[k]),
                state.status.0 == (if count_visible(oam, line, h, i as int) > 8 {
                    old(state).status.0 | 0x20
                } else {
                    old(state).status.0
                }),
            decreases 64 - i,
        {
            let addr = i * 4;
            let sprite = Sprite::new(slice_subrange(self.oam_data.as_slice(), addr, addr + 4));

            let top = sprite.y as usize;
            let bottom = top + sprite_size;

            proof {
                assert(sprite == sprite_at(oam, i as int));
            }

            // Is this sprite visible on this scanline
            if self.scanline >= top && self.scanline < bottom {
                if self.secondary_oam.len() == 8 {
                    // The line already has its eight sprites: raise overflow
                    state.status.set_sprite_overflow(true);
                } else {
                    // Add this sprite to the current scanline
                    self.secondary_oam.push(sprite);
                    proof {
                        assert(sprite_visible(oam, i as int, line, h));
                        srcs = srcs.push(i as int);
                    }
                }
            }

            proof {
                let s0 = old(state).status.0;
                assert((s0 | 0x20) | 0x20 == s0 | 0x20) by (bit_vector);
            }

            i = i + 1;
        }

        // The scanline-grain sprite-0 hit check: sprite 0 on this line with
        // rendering fully enabled raises the hit flag
        if state.mask.show_background() && state.mask.show_sprites() {
            let s0y = self.oam_data[0] as usize;
            let s0x = self.oam_data[3];
            if s0y <= self.scanline && self.scanline < s0y + sprite_size && s0x <= 254 {
                state.status.set_sprite_0_hit(true);
            }
        }

        proof {
            let c = count_visible(oam, line, h, 64);
            let s0 = old(state).status.0;
            assert((s0 | 0x20) & 0x20 != 0 && ((s0 | 0x20) | 0x40) & 0x20 != 0 && (s0 | 0x40)
                & 0x20 == s0 & 0x20) by (bit_vector);
            let sec = self.secondary_oam@;
            assert forall|k: int|
                #![trigger sec[k]]
                0 <= k < sec.len() implies is_kth_scanline_sprite(oam, line, h, k, sec[k]) by {
                let j = srcs[k];
                assert(sprite_visible(oam, j, line, h));
                assert(count_visible(oam, line, h, j) == k);
                assert(sec[k] == sprite_at(oam, j));
            }
        }
    }
}

/// Every dot advances the clock by exactly one position; in particular the
/// final dot of the pre-render scanline is present on every frame and wraps
/// to dot 0 of scanline 0. (The odd-frame skip of that dot is not modeled.)
pub proof fn lemma_last_dot_wraps()
    ensures
        spec_next_cycle(340) == 0,
        spec_next_scanline(340, 261) == 0,
{
}

} // verus!
