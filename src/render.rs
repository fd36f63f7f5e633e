use vstd::prelude::*;

use crate::ppu::{dot_step, on_line, sprite_candidates, Ppu, OAM_ENTRIES};
use crate::ppu_regs::{
    flipbyte, palette_rgb, reversed, system_rgb, BgRenderState, LoopyAddr, ObjectAttributeEntry,
    SpriteRenderState, SCREEN_WIDTH,
};

verus! {

/// The pixel value that sprite slot `i` of `s` shows on this dot.
pub open spec fn slot_pixel(s: SpriteRenderState, i: int) -> u8 {
    (s.shifter_pattern_hi[i] / 128 * 2 + s.shifter_pattern_lo[i] / 128) as u8
}

pub open spec fn slot_opaque(s: SpriteRenderState, i: int) -> bool {
    s.scanline[i].x == 0 && slot_pixel(s, i) != 0
}

/// The first slot of `s` from `i` on whose sprite has started and shows a
/// non-zero pixel; the sprite count when there is none.
pub open spec fn first_opaque(s: SpriteRenderState, i: int) -> int
    decreases 8 - i,
{
    if i >= s.count || i >= 8 {
        s.count as int
    } else if slot_opaque(s, i) {
        i
    } else {
        first_opaque(s, i + 1)
    }
}

/// The slot that the search for an opaque sprite finds lies between its
/// start and the sprite count, and is opaque when it is below the count.
proof fn lemma_first_opaque(p: Ppu, i: int)
    requires
        0 <= i <= p.sprite_state.count <= 8,
    ensures
        i <= p.first_opaque_from(i) <= p.sprite_state.count,
        p.first_opaque_from(i) < p.sprite_state.count ==> p.sprite_opaque(p.first_opaque_from(i)),
    decreases 8 - i,
{
    if i < p.sprite_state.count && !p.sprite_opaque(i) {
        lemma_first_opaque(p, i + 1);
    }
}

/// Sprite evaluation depends on OAM, the scanline and PPUCTRL alone.
proof fn lemma_evaluated_same(a: Ppu, b: Ppu, n: Ppu)
    requires
        a.oam_mem@ == b.oam_mem@,
        a.scanline == b.scanline,
        a.ctrl == b.ctrl,
        a.sprites_evaluated(n),
    ensures
        b.sprites_evaluated(n),
{
    let ca = sprite_candidates(a.oam_mem@, OAM_ENTRIES as int, a.scanline as int, a.ctrl.is_wide_sprite);
    let cb = sprite_candidates(b.oam_mem@, OAM_ENTRIES as int, b.scanline as int, b.ctrl.is_wide_sprite);
    assert(ca == cb);
}

/// What sprite evaluation leaves is in the sprite state, the overflow flag
/// and the sprite-zero flag alone.
proof fn lemma_evaluated_into(a: Ppu, n1: Ppu, n2: Ppu)
    requires
        a.sprites_evaluated(n1),
        n1.sprite_state == n2.sprite_state,
        n1.status.sprite_overflow == n2.status.sprite_overflow,
        n1.sprite_zero_hit_possible == n2.sprite_zero_hit_possible,
    ensures
        a.sprites_evaluated(n2),
{
}

impl Ppu {
    /// The registers and memories that drawing leaves alone.
    pub open spec fn keeps_memory(&self, new: Ppu) -> bool {
        &&& new.cartridge == self.cartridge
        &&& new.ctrl == self.ctrl
        &&& new.mask == self.mask
        &&& new.oam_addr == self.oam_addr
        &&& new.oam_mem == self.oam_mem
        &&& new.name_table == self.name_table
        &&& new.pal_table == self.pal_table
        &&& new.tram_addr == self.tram_addr
        &&& new.fine_x == self.fine_x
        &&& new.loopy_latch == self.loopy_latch
        &&& new.ppu_data_buf == self.ppu_data_buf
    }

    /// The VRAM address after one coarse-X step, flipping name-table X on wrap from 31.
    pub open spec fn scrolled_x(&self) -> LoopyAddr {
        let v = self.vram_addr;
        if !self.rendering() {
            v
        } else if v.coarse_x == 31 {
            LoopyAddr { coarse_x: 0, nametable_x: !v.nametable_x, ..v }
        } else {
            LoopyAddr { coarse_x: (v.coarse_x + 1) as u8, ..v }
        }
    }

    /// The VRAM address after one row down: fine Y first, then coarse Y, which
    /// wraps from 29 flipping name-table Y and from 31 without.
    pub open spec fn scrolled_y(&self) -> LoopyAddr {
        let v = self.vram_addr;
        if !self.rendering() {
            v
        } else if v.fine_y < 7 {
            LoopyAddr { fine_y: (v.fine_y + 1) as u8, ..v }
        } else if v.coarse_y == 29 {
            LoopyAddr { fine_y: 0, coarse_y: 0, nametable_y: !v.nametable_y, ..v }
        } else if v.coarse_y == 31 {
            LoopyAddr { fine_y: 0, coarse_y: 0, ..v }
        } else {
            LoopyAddr { fine_y: 0, coarse_y: (v.coarse_y + 1) as u8, ..v }
        }
    }

    pub open spec fn transferred_x(&self) -> LoopyAddr {
        if self.rendering() {
            LoopyAddr {
                nametable_x: self.tram_addr.nametable_x,
                coarse_x: self.tram_addr.coarse_x,
                ..self.vram_addr
            }
        } else {
            self.vram_addr
        }
    }

    pub open spec fn transferred_y(&self) -> LoopyAddr {
        if self.rendering() {
            LoopyAddr {
                fine_y: self.tram_addr.fine_y,
                nametable_y: self.tram_addr.nametable_y,
                coarse_y: self.tram_addr.coarse_y,
                ..self.vram_addr
            }
        } else {
            self.vram_addr
        }
    }

    /// Name-table address of the next background tile.
    pub open spec fn tile_addr(&self) -> u16 {
        0x2000u16 | (self.vram_addr.data() & 0x0FFF)
    }

    /// Attribute-table address of the next background tile.
    pub open spec fn attr_addr(&self) -> u16 {
        let v = self.vram_addr;
        0x23C0u16 | (if v.nametable_y {
            0x800u16
        } else {
            0
        }) | (if v.nametable_x {
            0x400u16
        } else {
            0
        }) | ((v.coarse_y / 4) * 8) as u16 | ((v.coarse_x / 4) as u16)
    }

    /// The two palette bits of the next tile, out of its attribute byte.
    pub open spec fn attr_bits(&self) -> u8 {
        let a = self.read_spec(self.attr_addr());
        let a1 = if (self.vram_addr.coarse_y / 2) % 2 == 1 {
            a / 16
        } else {
            a
        };
        let a2 = if (self.vram_addr.coarse_x / 2) % 2 == 1 {
            a1 / 4
        } else {
            a1
        };
        a2 % 4
    }

    /// Pattern-table address of row fine-Y of the latched tile, plus `plane` (0 or 8).
    pub open spec fn pattern_addr(&self, plane: int) -> u16 {
        ((if self.ctrl.pattern_background {
            0x1000int
        } else {
            0
        }) + self.bg_state.tile_id as int * 16 + self.vram_addr.fine_y as int + plane) as u16
    }

    /// Row of sprite `e` on the current scanline, vertically flipped or not,
    /// as a 16-bit value (it wraps when the sprite lies below the line).
    pub open spec fn sprite_row(&self, e: ObjectAttributeEntry) -> u16 {
        if e.attr / 128 == 1 {
            ((8 + e.y as int + 0x10000 - (self.scanline + 1)) % 0x10000) as u16
        } else {
            ((self.scanline + 1 + 0x10000 - (e.y as int + 1)) % 0x10000) as u16
        }
    }

    /// Address of the low pattern plane of sprite `e`'s row.
    pub open spec fn sprite_addr(&self, e: ObjectAttributeEntry) -> u16 {
        if !self.ctrl.is_wide_sprite {
            (if self.ctrl.pattern_sprite {
                0x1000u16
            } else {
                0
            }) | ((e.id as u16) << 4u16) | self.sprite_row(e)
        } else {
            (((e.id % 2) as u16) << 12u16) | (((e.id / 2 * 2) as u16) << 4u16) | (
            self.sprite_row(e) & 7)
        }
    }

    /// One plane of sprite `e`'s row, mirrored when the sprite is flipped horizontally.
    pub open spec fn sprite_pattern(&self, e: ObjectAttributeEntry, upper: bool) -> u8 {
        let lo = self.sprite_addr(e);
        let addr = if upper {
            ((lo + 8) % 0x10000) as u16
        } else {
            lo
        };
        let bits = self.read_spec(addr);
        if (e.attr / 64) % 2 == 1 {
            reversed(bits)
        } else {
            bits
        }
    }

    fn incr_scroll_x(&mut self)
        requires
            old(self).wf(),
        ensures
            old(self).keeps_frame(*final(self)),
            final(self).wf(),
            *final(self) == (Ppu { vram_addr: old(self).scrolled_x(), ..*old(self) }),
    {
        if self.mask.show_background || self.mask.show_sprites {
            if self.vram_addr.coarse_x == 31 {
                self.vram_addr.coarse_x = 0;
                self.vram_addr.nametable_x = !self.vram_addr.nametable_x;
            } else {
                self.vram_addr.coarse_x = self.vram_addr.coarse_x + 1;
            }
        }
    }

    fn incr_scroll_y(&mut self)
        requires
            old(self).wf(),
        ensures
            old(self).keeps_frame(*final(self)),
            final(self).wf(),
            *final(self) == (Ppu { vram_addr: old(self).scrolled_y(), ..*old(self) }),
    {
        let mut v = self.vram_addr;
        if self.mask.show_background || self.mask.show_sprites {
            if v.fine_y < 7 {
                v.fine_y = v.fine_y + 1;
            } else {
                v.fine_y = 0;
                if v.coarse_y == 29 {
                    v.coarse_y = 0;
                    v.nametable_y = !v.nametable_y;
                } else if v.coarse_y == 31 {
                    v.coarse_y = 0;
                } else {
                    v.coarse_y = v.coarse_y + 1;
                }
            }
        }
        self.vram_addr = v;
    }

    fn transfer_addr_x(&mut self)
        requires
            old(self).wf(),
        ensures
            old(self).keeps_frame(*final(self)),
            final(self).wf(),
            *final(self) == (Ppu { vram_addr: old(self).transferred_x(), ..*old(self) }),
    {
        if self.mask.show_background || self.mask.show_sprites {
            self.vram_addr.nametable_x = self.tram_addr.nametable_x;
            self.vram_addr.coarse_x = self.tram_addr.coarse_x;
        }
    }

    fn transfer_addr_y(&mut self)
        requires
            old(self).wf(),
        ensures
            old(self).keeps_frame(*final(self)),
            final(self).wf(),
            *final(self) == (Ppu { vram_addr: old(self).transferred_y(), ..*old(self) }),
    {
        if self.mask.show_background || self.mask.show_sprites {
            self.vram_addr.fine_y = self.tram_addr.fine_y;
            self.vram_addr.nametable_y = self.tram_addr.nametable_y;
            self.vram_addr.coarse_y = self.tram_addr.coarse_y;
        }
    }

    /// Shifts the background shifters when the background is shown, and the
    /// sprite shifters on dots 1..=257 when sprites are shown.
    fn update_shifters(&mut self)
        requires
            old(self).wf(),
        ensures
            old(self).keeps_frame(*final(self)),
            final(self).wf(),
            *final(self) == (Ppu {
                bg_state: final(self).bg_state,
                sprite_state: final(self).sprite_state,
                ..*old(self)
            }),
            final(self).bg_state == if old(self).mask.show_background {
                old(self).bg_state.shifted()
            } else {
                old(self).bg_state
            },
            if old(self).mask.show_sprites && 1 <= old(self).cycle < 258 {
                old(self).sprite_state.shifted_to(final(self).sprite_state)
            } else {
                final(self).sprite_state == old(self).sprite_state
            },
    {
        if self.mask.show_background {
            self.bg_state.update_shifters();
        }
        if self.mask.show_sprites && self.cycle >= 1 && self.cycle < 258 {
            self.sprite_state.update_shifters();
        }
    }

    /// One step of the eight-dot background fetch cadence.
    fn fetch_background(&mut self)
        requires
            old(self).wf(),
            old(self).cycle >= 1,
        ensures
            old(self).keeps_frame(*final(self)),
            final(self).wf(),
            ({
                let o = *old(self);
                let k = (o.cycle - 1) % 8;
                if k == 0 {
                    *final(self) == Ppu {
                        bg_state: BgRenderState {
                            tile_id: o.read_spec(o.tile_addr()),
                            ..o.bg_state.loaded()
                        },
                        ..o
                    }
                } else if k == 2 {
                    *final(self) == Ppu {
                        bg_state: BgRenderState { tile_attrib: o.attr_bits(), ..o.bg_state },
                        ..o
                    }
                } else if k == 4 {
                    *final(self) == Ppu {
                        bg_state: BgRenderState {
                            tile_lsb: o.read_spec(o.pattern_addr(0)),
                            ..o.bg_state
                        },
                        ..o
                    }
                } else if k == 6 {
                    *final(self) == Ppu {
                        bg_state: BgRenderState {
                            tile_msb: o.read_spec(o.pattern_addr(8)),
                            ..o.bg_state
                        },
                        ..o
                    }
                } else if k == 7 {
                    *final(self) == Ppu { vram_addr: o.scrolled_x(), ..o }
                } else {
                    *final(self) == o
                }
            }),
    {
        let k = (self.cycle - 1) % 8;
        if k == 0 {
            self.bg_state.load_shifters();
            let a = 0x2000u16 | (self.vram_addr.to_data() & 0x0FFF);
            self.bg_state.tile_id = self.ppu_read(a);
        } else if k == 2 {
            let v = self.vram_addr;
            let a = 0x23C0u16 | (if v.nametable_y {
                0x800u16
            } else {
                0
            }) | (if v.nametable_x {
                0x400u16
            } else {
                0
            }) | (((v.coarse_y / 4) * 8) as u16) | ((v.coarse_x / 4) as u16);
            let mut attr = self.ppu_read(a);
            if (v.coarse_y / 2) % 2 == 1 {
                attr = attr / 16;
            }
            if (v.coarse_x / 2) % 2 == 1 {
                attr = attr / 4;
            }
            self.bg_state.tile_attrib = attr % 4;
        } else if k == 4 {
            let base: u16 = if self.ctrl.pattern_background { 0x1000 } else { 0 };
            let a = base + (self.bg_state.tile_id as u16) * 16 + self.vram_addr.fine_y as u16;
            self.bg_state.tile_lsb = self.ppu_read(a);
        } else if k == 6 {
            let base: u16 = if self.ctrl.pattern_background { 0x1000 } else { 0 };
            let a = base + (self.bg_state.tile_id as u16) * 16 + self.vram_addr.fine_y as u16 + 8;
            self.bg_state.tile_msb = self.ppu_read(a);
        } else if k == 7 {
            self.incr_scroll_x();
        }
    }

    /// `n` holds the sprites picked for this scanline from OAM: the first
    /// eight that cover it, in OAM order, with empty pattern shifters;
    /// sprite overflow tells whether a ninth covers it, and sprite zero may
    /// hit when OAM sprite 0 covers it.
    pub open spec fn sprites_evaluated(&self, n: Ppu) -> bool {
        let cands = sprite_candidates(
            self.oam_mem@,
            OAM_ENTRIES as int,
            self.scanline as int,
            self.ctrl.is_wide_sprite,
        );
        &&& n.status.sprite_overflow == (cands.len() > 8)
        &&& n.sprite_zero_hit_possible == on_line(
            self.oam_mem@[0],
            self.scanline as int,
            self.ctrl.is_wide_sprite,
        )
        &&& n.sprite_state.count == if cands.len() > 8 {
            8
        } else {
            cands.len()
        }
        &&& forall|i: int|
            0 <= i < n.sprite_state.count ==> #[trigger] n.sprite_state.scanline[i] == cands[i]
        &&& forall|i: int|
            n.sprite_state.count <= i < 8 ==> #[trigger] n.sprite_state.scanline[i]
                == (ObjectAttributeEntry { y: 0, id: 0, attr: 0, x: 0 })
        &&& forall|i: int|
            0 <= i < 8 ==> #[trigger] n.sprite_state.shifter_pattern_lo[i] == 0
                && n.sprite_state.shifter_pattern_hi[i] == 0
    }

    /// Scans object attribute memory for the sprites on the current scanline:
    /// the first eight in OAM order are kept, a ninth sets sprite overflow.
    fn evaluate_sprites(&mut self)
        requires
            old(self).wf(),
            old(self).scanline >= 0,
        ensures
            old(self).keeps_frame(*final(self)),
            final(self).wf(),
            *final(self) == (Ppu {
                sprite_state: final(self).sprite_state,
                status: crate::ppu_regs::StatusReg {
                    sprite_overflow: final(self).status.sprite_overflow,
                    ..old(self).status
                },
                sprite_zero_hit_possible: final(self).sprite_zero_hit_possible,
                ..*old(self)
            }),
            old(self).sprites_evaluated(*final(self)),
    {
        let mut state = SpriteRenderState::new();
        let tall = self.ctrl.is_wide_sprite;
        let height: i16 = if tall { 16 } else { 8 };
        let mut found: u8 = 0;
        let mut i: usize = 0;
        while i < OAM_ENTRIES
            invariant
                self.wf(),
                self.scanline >= 0,
                tall == self.ctrl.is_wide_sprite,
                height == if tall { 16int } else { 8 },
                0 <= i <= OAM_ENTRIES,
                state.count == if sprite_candidates(self.oam_mem@, i as int, self.scanline as int, tall).len() > 8 { 8 } else { sprite_candidates(self.oam_mem@, i as int, self.scanline as int, tall).len() },
                found == if sprite_candidates(self.oam_mem@, i as int, self.scanline as int, tall).len() > 9 { 9 } else { sprite_candidates(self.oam_mem@, i as int, self.scanline as int, tall).len() },
                forall|j: int|
                    0 <= j < state.count ==> #[trigger] state.scanline[j] == sprite_candidates(
                        self.oam_mem@,
                        i as int,
                        self.scanline as int,
                        tall,
                    )[j],
                forall|j: int|
                    state.count <= j < 8 ==> #[trigger] state.scanline[j] == (ObjectAttributeEntry {
                        y: 0,
                        id: 0,
                        attr: 0,
                        x: 0,
                    }),
                forall|j: int| 0 <= j < 8 ==> #[trigger] state.shifter_pattern_lo[j] == 0,
                forall|j: int| 0 <= j < 8 ==> #[trigger] state.shifter_pattern_hi[j] == 0,
            decreases OAM_ENTRIES - i,
        {
            let e = self.oam_mem[i];
            let diff: i16 = self.scanline - e.y as i16;
            let ghost before = sprite_candidates(self.oam_mem@, i as int, self.scanline as int, tall);
            assert(sprite_candidates(self.oam_mem@, i + 1, self.scanline as int, tall) == if on_line(e, self.scanline as int, tall) { before.push(e) } else { before });
            if diff >= 0 && diff < height {
                if found < 8 {
                    state.scanline[found as usize] = e;
                    state.count = found + 1;
                }
                if found < 9 {
                    found = found + 1;
                }
            }
            i = i + 1;
        }
        self.sprite_state = state;
        self.status.sprite_overflow = found > 8;
        let first = self.oam_mem[0];
        let diff0: i16 = self.scanline - first.y as i16;
        self.sprite_zero_hit_possible = diff0 >= 0 && diff0 < height;
    }

    /// Fetches the pattern row of every sprite picked for the scanline.
    fn fetch_sprites(&mut self)
        requires
            old(self).wf(),
        ensures
            old(self).keeps_frame(*final(self)),
            final(self).wf(),
            *final(self) == (Ppu { sprite_state: final(self).sprite_state, ..*old(self) }),
            final(self).sprite_state.count == old(self).sprite_state.count,
            final(self).sprite_state.scanline == old(self).sprite_state.scanline,
            forall|i: int|
                0 <= i < old(self).sprite_state.count ==> #[trigger] final(self).sprite_state.shifter_pattern_lo[i] == old(self).sprite_pattern(
                    old(self).sprite_state.scanline[i],
                    false,
                ),
            forall|i: int|
                0 <= i < old(self).sprite_state.count ==> #[trigger] final(self).sprite_state.shifter_pattern_hi[i] == old(self).sprite_pattern(
                    old(self).sprite_state.scanline[i],
                    true,
                ),
            forall|i: int|
                old(self).sprite_state.count <= i < 8 ==> #[trigger] final(self).sprite_state.shifter_pattern_lo[i] == old(self).sprite_state.shifter_pattern_lo[i],
            forall|i: int|
                old(self).sprite_state.count <= i < 8 ==> #[trigger] final(self).sprite_state.shifter_pattern_hi[i] == old(self).sprite_state.shifter_pattern_hi[i],
    {
        let count = self.sprite_state.count as usize;
        let mut lo_bits = self.sprite_state.shifter_pattern_lo;
        let mut hi_bits = self.sprite_state.shifter_pattern_hi;
        let mut i: usize = 0;
        while i < count
            invariant
                self.wf(),
                count == self.sprite_state.count,
                i <= count,
                forall|j: int|
                    0 <= j < i ==> #[trigger] lo_bits[j] == self.sprite_pattern(
                        self.sprite_state.scanline[j],
                        false,
                    ),
                forall|j: int|
                    0 <= j < i ==> #[trigger] hi_bits[j] == self.sprite_pattern(
                        self.sprite_state.scanline[j],
                        true,
                    ),
                forall|j: int|
                    i <= j < 8 ==> #[trigger] lo_bits[j] == self.sprite_state.shifter_pattern_lo[j],
                forall|j: int|
                    i <= j < 8 ==> #[trigger] hi_bits[j] == self.sprite_state.shifter_pattern_hi[j],
            decreases count - i,
        {
            let e = self.sprite_state.scanline[i];
            let row: u16 = if e.attr / 128 == 1 {
                ((8 + e.y as u32 + 0x10000 - (self.scanline + 1) as u32) % 0x10000) as u16
            } else {
                (((self.scanline + 1) as u32 + 0x10000 - (e.y as u32 + 1)) % 0x10000) as u16
            };
            let addr_lo: u16 = if !self.ctrl.is_wide_sprite {
                (if self.ctrl.pattern_sprite {
                    0x1000u16
                } else {
                    0
                }) | ((e.id as u16) << 4u16) | row
            } else {
                (((e.id % 2) as u16) << 12u16) | (((e.id / 2 * 2) as u16) << 4u16) | (row & 7)
            };
            let addr_hi: u16 = ((addr_lo as u32 + 8) % 0x10000) as u16;
            let mut bits_lo = self.ppu_read(addr_lo);
            let mut bits_hi = self.ppu_read(addr_hi);
            if (e.attr / 64) % 2 == 1 {
                bits_lo = flipbyte(bits_lo);
                bits_hi = flipbyte(bits_hi);
            }
            assert(row == self.sprite_row(e));
            assert(addr_lo == self.sprite_addr(e));
            assert(bits_lo == self.sprite_pattern(e, false));
            assert(bits_hi == self.sprite_pattern(e, true));
            lo_bits[i] = bits_lo;
            hi_bits[i] = bits_hi;
            i = i + 1;
        }
        self.sprite_state.shifter_pattern_lo = lo_bits;
        self.sprite_state.shifter_pattern_hi = hi_bits;
    }

    pub open spec fn bg_shown(&self) -> bool {
        self.mask.show_background && (self.mask.show_background_left || self.cycle >= 9)
    }

    pub open spec fn fg_shown(&self) -> bool {
        self.mask.show_sprites && (self.mask.show_sprites_left || self.cycle >= 9)
    }

    /// The two bits that fine X selects out of a pair of 16-bit shifters.
    pub open spec fn mux_bits(&self, lo: u16, hi: u16) -> u8 {
        let m = 0x8000u16 >> (self.fine_x as u16);
        ((if hi & m > 0 {
            2int
        } else {
            0
        }) + (if lo & m > 0 {
            1int
        } else {
            0
        })) as u8
    }

    pub open spec fn bg_pixel(&self) -> u8 {
        if self.bg_shown() {
            self.mux_bits(self.bg_state.shifter_pattern_lo, self.bg_state.shifter_pattern_hi)
        } else {
            0
        }
    }

    pub open spec fn bg_palette(&self) -> u8 {
        if self.bg_shown() {
            self.mux_bits(self.bg_state.shifter_attrib_lo, self.bg_state.shifter_attrib_hi)
        } else {
            0
        }
    }

    /// The pixel value that sprite slot `i` shows on this dot.
    pub open spec fn sprite_pixel(&self, i: int) -> u8 {
        slot_pixel(self.sprite_state, i)
    }

    pub open spec fn sprite_opaque(&self, i: int) -> bool {
        slot_opaque(self.sprite_state, i)
    }

    /// The first slot from `i` on whose sprite has started and shows a
    /// non-zero pixel; the sprite count when there is none.
    pub open spec fn first_opaque_from(&self, i: int) -> int {
        first_opaque(self.sprite_state, i)
    }

    pub open spec fn fg_found(&self) -> bool {
        self.fg_shown() && self.first_opaque_from(0) < self.sprite_state.count
    }

    pub open spec fn fg_pixel(&self) -> u8 {
        if self.fg_found() {
            self.sprite_pixel(self.first_opaque_from(0))
        } else {
            0
        }
    }

    pub open spec fn fg_palette(&self) -> u8 {
        (self.sprite_state.scanline[self.first_opaque_from(0)].attr % 4 + 4) as u8
    }

    pub open spec fn fg_priority(&self) -> bool {
        (self.sprite_state.scanline[self.first_opaque_from(0)].attr / 32) % 2 == 0
    }

    /// The (pixel, palette) pair that wins on this dot.
    pub open spec fn composed(&self) -> (u8, u8) {
        let b = self.bg_pixel();
        let f = self.fg_pixel();
        if b == 0 && f == 0 {
            (0, 0)
        } else if b == 0 {
            (f, self.fg_palette())
        } else if f == 0 {
            (b, self.bg_palette())
        } else if self.fg_priority() {
            (f, self.fg_palette())
        } else {
            (b, self.bg_palette())
        }
    }

    /// Whether this dot records a sprite-zero hit: both pixels opaque, the
    /// sprite is slot 0 of a line where OAM sprite 0 was picked, both layers
    /// shown, and the dot inside the window the left-column masks allow.
    pub open spec fn zero_hit(&self) -> bool {
        &&& self.bg_pixel() != 0
        &&& self.fg_pixel() != 0
        &&& self.sprite_zero_hit_possible
        &&& self.first_opaque_from(0) == 0
        &&& self.mask.show_background && self.mask.show_sprites
        &&& if !(self.mask.show_background_left || self.mask.show_sprites_left) {
            9 <= self.cycle < 258
        } else {
            1 <= self.cycle < 258
        }
    }

    /// Colour of entry `pixel` of palette `palette`.
    pub open spec fn color(&self, palette: u8, pixel: u8) -> u32 {
        system_rgb(
            (self.read_spec((0x3F00 + (palette as int * 4 + pixel as int) % 256) as u16) % 64) as int,
        )
    }

    fn background_pixel(&self) -> (r: (u8, u8))
        requires
            self.wf(),
        ensures
            r == (self.bg_pixel(), self.bg_palette()),
            r.0 < 4,
            r.1 < 4,
    {
        if self.mask.show_background && (self.mask.show_background_left || self.cycle >= 9) {
            let m: u16 = 0x8000u16 >> (self.fine_x as u16);
            let p0: u8 = if self.bg_state.shifter_pattern_lo & m > 0 { 1 } else { 0 };
            let p1: u8 = if self.bg_state.shifter_pattern_hi & m > 0 { 2 } else { 0 };
            let a0: u8 = if self.bg_state.shifter_attrib_lo & m > 0 { 1 } else { 0 };
            let a1: u8 = if self.bg_state.shifter_attrib_hi & m > 0 { 2 } else { 0 };
            (p1 + p0, a1 + a0)
        } else {
            (0, 0)
        }
    }

    /// The first started sprite with an opaque pixel: its pixel, palette,
    /// priority and slot; pixel 0 and the sprite count when there is none.
    fn sprite_pixel_search(&self) -> (r: (u8, u8, bool, usize))
        requires
            self.wf(),
        ensures
            r.0 == self.fg_pixel(),
            r.0 < 4,
            r.0 != 0 ==> r.1 == self.fg_palette() && r.1 < 8 && r.2 == self.fg_priority(),
            r.0 != 0 ==> r.3 == self.first_opaque_from(0),
    {
        let mut fg_pixel: u8 = 0;
        let mut fg_palette: u8 = 0;
        let mut fg_priority: bool = false;
        let count = self.sprite_state.count as usize;
        let mut i: usize = 0;
        proof {
            lemma_first_opaque(*self, 0);
        }
        if !(self.mask.show_sprites && (self.mask.show_sprites_left || self.cycle >= 9)) {
            return (0, 0, false, count);
        }
        let mut found = false;
        while i < count && !found
            invariant
                self.wf(),
                self.fg_shown(),
                count == self.sprite_state.count,
                i <= count,
                !found ==> self.first_opaque_from(0) == self.first_opaque_from(i as int)
                    && fg_pixel == 0,
                found ==> i < count && self.first_opaque_from(0) == i && fg_pixel
                    == self.sprite_pixel(i as int) && fg_palette == self.fg_palette()
                    && fg_priority == self.fg_priority() && fg_pixel != 0 && fg_pixel < 4 && fg_palette < 8,
            decreases count - i + (if found { 0int } else { 1 }),
        {
            let e = self.sprite_state.scanline[i];
            let lo = self.sprite_state.shifter_pattern_lo[i];
            let hi = self.sprite_state.shifter_pattern_hi[i];
            let pixel: u8 = (hi / 128) * 2 + lo / 128;
            if e.x == 0 && pixel != 0 {
                fg_pixel = pixel;
                fg_palette = e.attr % 4 + 4;
                fg_priority = (e.attr / 32) % 2 == 0;
                found = true;
            } else {
                i = i + 1;
            }
        }
        (fg_pixel, fg_palette, fg_priority, i)
    }

    /// Picks the pixel of this dot from the background and sprite layers.
    fn compose(&mut self) -> (r: (u8, u8))
        requires
            old(self).wf(),
        ensures
            final(self).wf(),
            r == old(self).composed(),
            r.0 < 4,
            r.1 < 8,
            *final(self) == (Ppu {
                sprite_zero_being_rendered: final(self).sprite_zero_being_rendered,
                status: crate::ppu_regs::StatusReg {
                    sprite_zero_hit: old(self).status.sprite_zero_hit || old(self).zero_hit(),
                    ..old(self).status
                },
                ..*old(self)
            }),
            final(self).sprite_zero_being_rendered == if old(self).fg_shown() {
                old(self).fg_found() && old(self).first_opaque_from(0) == 0
            } else {
                old(self).sprite_zero_being_rendered
            },
    {
        assert(self.fg_found() ==> self.fg_pixel() != 0) by {
            lemma_first_opaque(*self, 0);
        }
        let (bg_pixel, bg_palette) = self.background_pixel();
        let (fg_pixel, fg_palette, fg_priority, first) = self.sprite_pixel_search();
        let shown = self.mask.show_sprites && (self.mask.show_sprites_left || self.cycle >= 9);
        let zero_rendered = if shown {
            fg_pixel != 0 && first == 0
        } else {
            self.sprite_zero_being_rendered
        };
        let window = if !(self.mask.show_background_left || self.mask.show_sprites_left) {
            self.cycle >= 9 && self.cycle < 258
        } else {
            self.cycle >= 1 && self.cycle < 258
        };
        let hit = bg_pixel != 0 && fg_pixel != 0 && self.sprite_zero_hit_possible && first == 0
            && self.mask.show_background && self.mask.show_sprites && window;
        let r = if bg_pixel == 0 && fg_pixel == 0 {
            (0u8, 0u8)
        } else if bg_pixel == 0 {
            (fg_pixel, fg_palette)
        } else if fg_pixel == 0 {
            (bg_pixel, bg_palette)
        } else if fg_priority {
            (fg_pixel, fg_palette)
        } else {
            (bg_pixel, bg_palette)
        };
        if hit {
            self.status.sprite_zero_hit = true;
        }
        self.sprite_zero_being_rendered = zero_rendered;
        r
    }

    /// Looks up the colour of entry `pixel` of palette `palette`.
    pub fn get_color_from_pal(&self, palette: u8, pixel: u8) -> (r: u32)
        requires
            self.wf(),
        ensures
            r == self.color(palette, pixel),
    {
        let index = (palette as u16 * 4 + pixel as u16) % 256;
        palette_rgb(self.ppu_read(0x3F00 + index) % 64)
    }

    /// What a rendering step keeps: the memories, the position in the frame,
    /// the NMI line, the vertical-blank flag and the picture.
    pub open spec fn keeps_frame(&self, new: Ppu) -> bool {
        &&& self.keeps_memory(new)
        &&& new.scanline == self.scanline
        &&& new.cycle == self.cycle
        &&& new.odd_frame == self.odd_frame
        &&& new.nmi == self.nmi
        &&& new.screen == self.screen
        &&& new.status.vertical_blank == self.status.vertical_blank
    }

    /// The background work of one dot of a rendering scanline.
    fn background_step(&mut self)
        requires
            old(self).wf(),
        ensures
            final(self).wf(),
            old(self).keeps_frame(*final(self)),
            final(self).status == old(self).status,
            final(self).sprite_zero_hit_possible == old(self).sprite_zero_hit_possible,
            !(2 <= old(self).cycle < 258) ==> final(self).sprite_state == old(self).sprite_state,
            old(self).cycle == 257 ==> final(self).vram_addr == old(self).transferred_x(),
            old(self).scanline == -1 && 280 <= old(self).cycle < 305 ==> final(self).vram_addr
                == old(self).transferred_y(),
    {
        if (self.cycle >= 2 && self.cycle < 258) || (self.cycle >= 321 && self.cycle < 338) {
            self.update_shifters();
            self.fetch_background();
        }
        if self.cycle == 256 {
            self.incr_scroll_y();
        }
        if self.cycle == 257 {
            self.bg_state.load_shifters();
            self.transfer_addr_x();
        }
        if self.cycle == 338 || self.cycle == 340 {
            self.fetch_tile_id();
        }
        if self.scanline == -1 && self.cycle >= 280 && self.cycle < 305 {
            self.transfer_addr_y();
        }
    }

    /// The extra name-table fetch at the end of a scanline.
    fn fetch_tile_id(&mut self)
        requires
            old(self).wf(),
        ensures
            final(self).wf(),
            old(self).keeps_frame(*final(self)),
            *final(self) == (Ppu {
                bg_state: BgRenderState {
                    tile_id: old(self).read_spec(old(self).tile_addr()),
                    ..old(self).bg_state
                },
                ..*old(self)
            }),
    {
        let a = 0x2000u16 | (self.vram_addr.to_data() & 0x0FFF);
        self.bg_state.tile_id = self.ppu_read(a);
    }

    /// The sprite work of one dot of a rendering scanline.
    fn sprite_step(&mut self)
        requires
            old(self).wf(),
        ensures
            final(self).wf(),
            old(self).keeps_frame(*final(self)),
            final(self).vram_addr == old(self).vram_addr,
            final(self).status.sprite_zero_hit == old(self).status.sprite_zero_hit,
            old(self).cycle == 257 && old(self).scanline >= 0 ==> old(self).sprites_evaluated(
                *final(self),
            ),
            old(self).cycle != 257 && old(self).cycle != 340 ==> *final(self) == *old(self),
    {
        if self.cycle == 257 && self.scanline >= 0 {
            self.evaluate_sprites();
        }
        if self.cycle == 340 {
            self.fetch_sprites();
        }
    }

    /// Whether the dot at `cycle` of the current scanline lands on the screen.
    pub open spec fn visible_dot(&self, cycle: int) -> bool {
        1 <= cycle <= 256 && 0 <= self.scanline < 240
    }

    /// The cycle this dot is processed at: the first dot of scanline 0 is
    /// skipped on odd frames with rendering on.
    pub open spec fn start_cycle(&self) -> int {
        if self.scanline == 0 && self.cycle == 0 && self.odd_frame && self.rendering() {
            1
        } else {
            self.cycle as int
        }
    }

    /// Everything of one dot before its pixel is composed: the odd-frame skip,
    /// the pre-render reset, the fetches, and the start of vertical blank.
    fn begin_dot(&mut self)
        requires
            old(self).wf(),
        ensures
            final(self).wf(),
            old(self).keeps_memory(*final(self)),
            final(self).scanline == old(self).scanline,
            final(self).cycle == old(self).start_cycle(),
            final(self).odd_frame == old(self).odd_frame,
            final(self).screen == old(self).screen,
            final(self).nmi == (old(self).nmi || (old(self).scanline == 241 && old(self).cycle == 1
                && old(self).ctrl.generate_nmi)),
            old(self).scanline == 241 && old(self).cycle == 1 ==> final(self).status.vertical_blank,
            old(self).scanline == -1 && old(self).cycle == 1 ==> !final(self).status.vertical_blank,
            !((old(self).scanline == 241 || old(self).scanline == -1) && old(self).cycle == 1)
                ==> final(self).status.vertical_blank == old(self).status.vertical_blank,
            old(self).scanline < 240 && old(self).cycle == 257 ==> final(self).vram_addr == old(self).transferred_x(),
            old(self).scanline == -1 && 280 <= old(self).cycle < 305 ==> final(self).vram_addr
                == old(self).transferred_y(),
            0 <= old(self).scanline < 240 && old(self).cycle == 257 ==> old(self).sprites_evaluated(
                *final(self),
            ),
            old(self).scanline == -1 && old(self).cycle == 1 ==> {
                &&& !final(self).status.sprite_overflow
                &&& !final(self).status.sprite_zero_hit
                &&& final(self).sprite_state.shifter_pattern_lo@ == seq![0u8, 0u8, 0u8, 0u8, 0u8, 0u8, 0u8, 0u8]
                &&& final(self).sprite_state.shifter_pattern_hi@ == seq![0u8, 0u8, 0u8, 0u8, 0u8, 0u8, 0u8, 0u8]
            },
            !(old(self).scanline == -1 && old(self).cycle == 1) ==> final(self).status.sprite_zero_hit == old(self).status.sprite_zero_hit,
            old(self).scanline >= 240 ==> final(self).vram_addr == old(self).vram_addr
                && final(self).bg_state == old(self).bg_state && final(self).sprite_state == old(self).sprite_state,
    {
        let ghost o = *self;
        if self.scanline == 0 && self.cycle == 0 && self.odd_frame && (self.mask.show_background
            || self.mask.show_sprites) {
            self.cycle = 1;
        }
        if self.scanline < 240 {
            if self.scanline == -1 && self.cycle == 1 {
                self.start_frame();
            }
            let ghost started = *self;
            self.background_step();
            let ghost mid = *self;
            self.sprite_step();
            proof {
                if 0 <= o.scanline < 240 && o.cycle == 257 {
                    assert(mid.oam_mem@ == o.oam_mem@);
                    assert(mid.sprites_evaluated(*self));
                    lemma_evaluated_same(mid, o, *self);
                }
                if o.scanline == -1 && o.cycle == 1 {
                    assert(self.sprite_state == started.sprite_state);
                }
            }
        }
        if self.scanline == 241 && self.cycle == 1 {
            self.status.vertical_blank = true;
            if self.ctrl.generate_nmi {
                self.nmi = true;
            }
        }
    }

    /// The pre-render reset: vertical blank, sprite overflow and sprite-zero
    /// hit clear, and the sprite pattern shifters empty.
    fn start_frame(&mut self)
        requires
            old(self).wf(),
        ensures
            final(self).wf(),
            old(self).keeps_memory(*final(self)),
            final(self).scanline == old(self).scanline,
            final(self).cycle == old(self).cycle,
            final(self).odd_frame == old(self).odd_frame,
            final(self).nmi == old(self).nmi,
            final(self).screen == old(self).screen,
            !final(self).status.vertical_blank,
            !final(self).status.sprite_overflow,
            !final(self).status.sprite_zero_hit,
            final(self).vram_addr == old(self).vram_addr,
            final(self).bg_state == old(self).bg_state,
            final(self).sprite_zero_hit_possible == old(self).sprite_zero_hit_possible,
            final(self).sprite_state.count == old(self).sprite_state.count,
            final(self).sprite_state.scanline == old(self).sprite_state.scanline,
            final(self).sprite_state.shifter_pattern_lo@ == seq![0u8, 0u8, 0u8, 0u8, 0u8, 0u8, 0u8, 0u8],
            final(self).sprite_state.shifter_pattern_hi@ == seq![0u8, 0u8, 0u8, 0u8, 0u8, 0u8, 0u8, 0u8],
    {
        self.status.vertical_blank = false;
        self.status.sprite_overflow = false;
        self.status.sprite_zero_hit = false;
        self.sprite_state.shifter_pattern_lo = [0, 0, 0, 0, 0, 0, 0, 0];
        self.sprite_state.shifter_pattern_hi = [0, 0, 0, 0, 0, 0, 0, 0];
        assert(self.sprite_state.shifter_pattern_lo@ =~= seq![0u8, 0u8, 0u8, 0u8, 0u8, 0u8, 0u8, 0u8]);
        assert(self.sprite_state.shifter_pattern_hi@ =~= seq![0u8, 0u8, 0u8, 0u8, 0u8, 0u8, 0u8, 0u8]);
    }

    /// The render state of this dot as it is composed: the state `new`
    /// holds after the dot, at this dot's place.
    pub open spec fn composing(&self, new: Ppu) -> Ppu {
        Ppu { scanline: self.scanline, cycle: self.start_cycle() as i16, ..new }
    }

    /// `new` is this PPU after one dot:
    /// - the place in the frame moves by `dot_step`; the frame-complete flag
    ///   is set by the last dot of the frame;
    /// - vertical blank and NMI start at scanline 241, dot 1; vertical blank,
    ///   sprite overflow, sprite-zero hit and the sprite shifters clear at
    ///   scanline -1, dot 1;
    /// - horizontal scroll is copied from the temporary address at dot 257,
    ///   vertical scroll at dots 280..=304 of the pre-render scanline;
    /// - sprites are evaluated at dot 257 of visible scanlines;
    /// - a visible dot gets the colour of the pixel composed from the
    ///   background and sprite shifters, and sprite-zero hit is set when that
    ///   pixel records one; no other pixel changes.
    #[verifier::opaque]
    pub open spec fn dot_done(&self, new: Ppu) -> bool {
        let m = self.composing(new);
        let (pixel, palette) = m.composed();
        let c = self.start_cycle();
        let idx = (c - 1) + self.scanline * SCREEN_WIDTH;
        &&& new.wf()
        &&& self.keeps_memory(new)
        &&& (new.scanline as int, new.cycle as int, new.odd_frame) == dot_step(
            self.scanline as int,
            self.cycle as int,
            self.odd_frame,
            self.rendering(),
        )
        &&& new.screen.complete == (self.screen.complete || (self.scanline == 260 && self.cycle
            == 340))
        &&& new.nmi == (self.nmi || (self.scanline == 241 && self.cycle == 1
            && self.ctrl.generate_nmi))
        &&& self.scanline == 241 && self.cycle == 1 ==> new.status.vertical_blank
        &&& self.scanline == -1 && self.cycle == 1 ==> !new.status.vertical_blank
        &&& !((self.scanline == 241 || self.scanline == -1) && self.cycle == 1)
            ==> new.status.vertical_blank == self.status.vertical_blank
        &&& self.scanline == -1 && self.cycle == 1 ==> {
            &&& !new.status.sprite_overflow
            &&& !new.status.sprite_zero_hit
            &&& new.sprite_state.shifter_pattern_lo@ == seq![0u8, 0u8, 0u8, 0u8, 0u8, 0u8, 0u8, 0u8]
            &&& new.sprite_state.shifter_pattern_hi@ == seq![0u8, 0u8, 0u8, 0u8, 0u8, 0u8, 0u8, 0u8]
        }
        &&& !(self.scanline == -1 && self.cycle == 1) ==> new.status.sprite_zero_hit == (
        self.status.sprite_zero_hit || m.zero_hit())
        &&& self.scanline < 240 && self.cycle == 257 ==> new.vram_addr == self.transferred_x()
        &&& self.scanline == -1 && 280 <= self.cycle < 305 ==> new.vram_addr
            == self.transferred_y()
        &&& 0 <= self.scanline < 240 && self.cycle == 257 ==> self.sprites_evaluated(new)
        &&& self.scanline >= 240 ==> new.vram_addr == self.vram_addr && new.bg_state
            == self.bg_state && new.sprite_state == self.sprite_state
        &&& if self.visible_dot(c) {
            new.screen.buffer@ == self.screen.buffer@.update(idx, self.color(palette, pixel))
        } else {
            new.screen.buffer@ == self.screen.buffer@
        }
    }

    /// Advances the PPU by one dot.
    pub fn clock(&mut self)
        requires
            old(self).wf(),
        ensures
            old(self).dot_done(*final(self)),
            final(self).wf(),
            (final(self).scanline as int, final(self).cycle as int, final(self).odd_frame)
                == dot_step(
                old(self).scanline as int,
                old(self).cycle as int,
                old(self).odd_frame,
                old(self).rendering(),
            ),
            final(self).screen.complete == (old(self).screen.complete || (old(self).scanline == 260
                && old(self).cycle == 340)),
    {
        let ghost o = *self;
        self.begin_dot();
        let ghost mid = *self;
        let (pixel, palette) = self.draw_dot();
        assert(mid.color(palette, pixel) == o.color(palette, pixel));
        self.advance();
        proof {
            reveal(Ppu::dot_done);
            let m = o.composing(*self);
            assert(m.sprite_state == mid.sprite_state);
            assert(m.composed() == mid.composed());
            assert(m.zero_hit() == mid.zero_hit());
            if o.scanline == -1 && o.cycle == 1 {
                lemma_first_opaque(mid, 0);
                let f = mid.first_opaque_from(0);
                if f < mid.sprite_state.count {
                    assert(mid.sprite_state.shifter_pattern_lo[f] == 0);
                    assert(mid.sprite_state.shifter_pattern_hi[f] == 0);
                }
                assert(!self.status.sprite_zero_hit);
            }
            if 0 <= o.scanline < 240 && o.cycle == 257 {
                lemma_evaluated_into(o, mid, *self);
            }
            assert(o.scanline >= 240 ==> self.vram_addr == o.vram_addr && self.bg_state
                == o.bg_state && self.sprite_state == o.sprite_state);
            assert(!(o.scanline == -1 && o.cycle == 1) ==> self.status.sprite_zero_hit == (
            o.status.sprite_zero_hit || m.zero_hit()));
            let (pixel2, palette2) = m.composed();
            assert(pixel2 == pixel && palette2 == palette);
        }
    }

    /// Composes the pixel of this dot and, on a visible dot, draws it; gives
    /// back the (pixel, palette) pair it drew.
    fn draw_dot(&mut self) -> (r: (u8, u8))
        requires
            old(self).wf(),
        ensures
            final(self).wf(),
            old(self).keeps_memory(*final(self)),
            final(self).scanline == old(self).scanline,
            final(self).cycle == old(self).cycle,
            final(self).odd_frame == old(self).odd_frame,
            final(self).nmi == old(self).nmi,
            final(self).screen.complete == old(self).screen.complete,
            final(self).status.vertical_blank == old(self).status.vertical_blank,
            final(self).status.sprite_overflow == old(self).status.sprite_overflow,
            final(self).status.sprite_zero_hit == (old(self).status.sprite_zero_hit || old(self).zero_hit()),
            final(self).vram_addr == old(self).vram_addr,
            final(self).bg_state == old(self).bg_state,
            final(self).sprite_state == old(self).sprite_state,
            final(self).sprite_zero_hit_possible == old(self).sprite_zero_hit_possible,
            r == old(self).composed(),
            r.0 < 4,
            r.1 < 8,
            ({
                let idx = (old(self).cycle - 1) + old(self).scanline * SCREEN_WIDTH;
                if old(self).visible_dot(old(self).cycle as int) {
                    final(self).screen.buffer@ == old(self).screen.buffer@.update(
                        idx,
                        old(self).color(r.1, r.0),
                    )
                } else {
                    final(self).screen.buffer@ == old(self).screen.buffer@
                }
            }),
    {
        let (pixel, palette) = self.compose();
        let c = self.get_color_from_pal(palette, pixel);
        if self.cycle > 0 && self.cycle <= 256 && self.scanline >= 0 && self.scanline < 240 {
            self.screen.set_pixel((self.cycle - 1) as usize, self.scanline as usize, c);
        }
        (pixel, palette)
    }

    /// Moves to the next dot, the next scanline, or the next frame.
    fn advance(&mut self)
        requires
            old(self).wf(),
        ensures
            final(self).wf(),
            *final(self) == (Ppu {
                scanline: final(self).scanline,
                cycle: final(self).cycle,
                odd_frame: final(self).odd_frame,
                screen: final(self).screen,
                ..*old(self)
            }),
            final(self).screen.buffer == old(self).screen.buffer,
            ({
                let c = old(self).cycle + 1;
                if c >= 341 && old(self).scanline + 1 >= 261 {
                    final(self).scanline == -1 && final(self).cycle == 0 && final(self).odd_frame
                        == !old(self).odd_frame && final(self).screen.complete
                } else if c >= 341 {
                    final(self).scanline == old(self).scanline + 1 && final(self).cycle == 0
                        && final(self).odd_frame == old(self).odd_frame
                        && final(self).screen.complete == old(self).screen.complete
                } else {
                    final(self).scanline == old(self).scanline && final(self).cycle == c
                        && final(self).odd_frame == old(self).odd_frame
                        && final(self).screen.complete == old(self).screen.complete
                }
            }),
    {
        self.cycle = self.cycle + 1;
        if self.cycle >= 341 {
            self.cycle = 0;
            self.scanline = self.scanline + 1;
            if self.scanline >= 261 {
                self.scanline = -1;
                self.screen.complete = true;
                self.odd_frame = !self.odd_frame;
            }
        }
    }
}

} // verus!
