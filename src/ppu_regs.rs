use vstd::prelude::*;

verus! {

/// Width of the visible raster in pixels.
pub const SCREEN_WIDTH: usize = 256;

/// Height of the visible raster in pixels.
pub const SCREEN_HEIGHT: usize = 240;

/// PPUCTRL, bit 0 to bit 7.
#[derive(Clone, Copy, Debug, PartialEq, Eq, Structural)]
pub struct CtrlReg {
    pub nametable_x: bool,
    pub nametable_y: bool,
    pub increment: bool,
    pub pattern_sprite: bool,
    pub pattern_background: bool,
    pub is_wide_sprite: bool,
    pub master_slave: bool,
    pub generate_nmi: bool,
}

impl CtrlReg {
    pub open spec fn from_byte(b: u8) -> CtrlReg {
        CtrlReg {
            nametable_x: b % 2 == 1,
            nametable_y: (b / 2) % 2 == 1,
            increment: (b / 4) % 2 == 1,
            pattern_sprite: (b / 8) % 2 == 1,
            pattern_background: (b / 16) % 2 == 1,
            is_wide_sprite: (b / 32) % 2 == 1,
            master_slave: (b / 64) % 2 == 1,
            generate_nmi: b / 128 == 1,
        }
    }

    pub fn set_byte(&mut self, b: u8)
        ensures
            *final(self) == CtrlReg::from_byte(b),
    {
        *self = CtrlReg {
            nametable_x: b % 2 == 1,
            nametable_y: (b / 2) % 2 == 1,
            increment: (b / 4) % 2 == 1,
            pattern_sprite: (b / 8) % 2 == 1,
            pattern_background: (b / 16) % 2 == 1,
            is_wide_sprite: (b / 32) % 2 == 1,
            master_slave: (b / 64) % 2 == 1,
            generate_nmi: b / 128 == 1,
        };
    }
}

/// PPUMASK, bit 0 to bit 7.
#[derive(Clone, Copy, Debug, PartialEq, Eq, Structural)]
pub struct MaskReg {
    pub grayscale: bool,
    pub show_background_left: bool,
    pub show_sprites_left: bool,
    pub show_background: bool,
    pub show_sprites: bool,
    pub emphasize_red: bool,
    pub emphasize_green: bool,
    pub emphasize_blue: bool,
}

impl MaskReg {
    pub open spec fn from_byte(b: u8) -> MaskReg {
        MaskReg {
            grayscale: b % 2 == 1,
            show_background_left: (b / 2) % 2 == 1,
            show_sprites_left: (b / 4) % 2 == 1,
            show_background: (b / 8) % 2 == 1,
            show_sprites: (b / 16) % 2 == 1,
            emphasize_red: (b / 32) % 2 == 1,
            emphasize_green: (b / 64) % 2 == 1,
            emphasize_blue: b / 128 == 1,
        }
    }

    pub fn set_byte(&mut self, b: u8)
        ensures
            *final(self) == MaskReg::from_byte(b),
    {
        *self = MaskReg {
            grayscale: b % 2 == 1,
            show_background_left: (b / 2) % 2 == 1,
            show_sprites_left: (b / 4) % 2 == 1,
            show_background: (b / 8) % 2 == 1,
            show_sprites: (b / 16) % 2 == 1,
            emphasize_red: (b / 32) % 2 == 1,
            emphasize_green: (b / 64) % 2 == 1,
            emphasize_blue: b / 128 == 1,
        };
    }
}

/// PPUSTATUS: three flags in bits 5 to 7 over five stale low bits.
#[derive(Clone, Copy, Debug, PartialEq, Eq, Structural)]
pub struct StatusReg {
    pub unused: u8,
    pub sprite_overflow: bool,
    pub sprite_zero_hit: bool,
    pub vertical_blank: bool,
}

impl StatusReg {
    pub open spec fn byte(&self) -> u8 {
        self.unused | (if self.sprite_overflow { 0x20u8 } else { 0 }) | (if self.sprite_zero_hit {
            0x40u8
        } else {
            0
        }) | (if self.vertical_blank { 0x80u8 } else { 0 })
    }

    pub fn to_byte(&self) -> (r: u8)
        ensures
            r == self.byte(),
    {
        self.unused | (if self.sprite_overflow { 0x20u8 } else { 0 }) | (if self.sprite_zero_hit {
            0x40u8
        } else {
            0
        }) | (if self.vertical_blank { 0x80u8 } else { 0 })
    }
}

/// The packed scroll/address register: coarse X (5 bits), coarse Y (5 bits),
/// name-table X and Y (1 bit each) and fine Y (3 bits): 15 bits in all.
#[derive(Clone, Copy, Debug, PartialEq, Eq, Structural)]
pub struct LoopyAddr {
    pub coarse_x: u8,
    pub coarse_y: u8,
    pub nametable_x: bool,
    pub nametable_y: bool,
    pub fine_y: u8,
}

impl LoopyAddr {
    pub open spec fn wf(&self) -> bool {
        self.coarse_x < 32 && self.coarse_y < 32 && self.fine_y < 8
    }

    pub open spec fn from_data(d: u16) -> LoopyAddr {
        LoopyAddr {
            coarse_x: (d % 32) as u8,
            coarse_y: ((d / 32) % 32) as u8,
            nametable_x: (d / 1024) % 2 == 1,
            nametable_y: (d / 2048) % 2 == 1,
            fine_y: ((d / 4096) % 8) as u8,
        }
    }

    /// The packed 15-bit value.
    pub open spec fn data(&self) -> u16 {
        ((self.coarse_x % 32) as int + (self.coarse_y % 32) as int * 32 + (if self.nametable_x {
            1024int
        } else {
            0
        }) + (if self.nametable_y { 2048int } else { 0 }) + (self.fine_y % 8) as int * 4096) as u16
    }

    pub fn zero() -> (r: LoopyAddr)
        ensures
            r == LoopyAddr::from_data(0),
            r.wf(),
    {
        LoopyAddr {
            coarse_x: 0,
            coarse_y: 0,
            nametable_x: false,
            nametable_y: false,
            fine_y: 0,
        }
    }

    pub fn set_data(&mut self, d: u16)
        ensures
            *final(self) == LoopyAddr::from_data(d),
            final(self).wf(),
    {
        *self = LoopyAddr {
            coarse_x: (d % 32) as u8,
            coarse_y: ((d / 32) % 32) as u8,
            nametable_x: (d / 1024) % 2 == 1,
            nametable_y: (d / 2048) % 2 == 1,
            fine_y: ((d / 4096) % 8) as u8,
        };
    }

    pub fn to_data(&self) -> (r: u16)
        ensures
            r == self.data(),
    {
        let cx: u16 = (self.coarse_x % 32) as u16;
        let cy: u16 = (self.coarse_y % 32) as u16;
        let fy: u16 = (self.fine_y % 8) as u16;
        let nx: u16 = if self.nametable_x { 1024 } else { 0 };
        let ny: u16 = if self.nametable_y { 2048 } else { 0 };
        cx + cy * 32 + nx + ny + fy * 4096
    }
}

/// Packing the fields read out of a value gives back its low 15 bits.
pub proof fn lemma_loopy_round_trip(v: u16)
    ensures
        LoopyAddr::from_data(v).data() == v & 0x7FFF,
{
    assert(v == v % 32 + ((v / 32) % 32) * 32 + ((v / 1024) % 2) * 1024 + ((v / 2048) % 2) * 2048
        + ((v / 4096) % 8) * 4096 + (v / 32768) * 32768) by (nonlinear_arith);
    assert(v & 0x7FFF == v % 0x8000) by (bit_vector);
}

/// One sprite of object attribute memory.
#[derive(Clone, Copy, Debug, PartialEq, Eq, Structural)]
pub struct ObjectAttributeEntry {
    pub y: u8,
    pub id: u8,
    pub attr: u8,
    pub x: u8,
}

impl ObjectAttributeEntry {
    pub open spec fn byte(&self, k: int) -> u8 {
        if k == 0 {
            self.y
        } else if k == 1 {
            self.id
        } else if k == 2 {
            self.attr
        } else {
            self.x
        }
    }

    pub open spec fn with_byte(&self, k: int, data: u8) -> ObjectAttributeEntry {
        if k == 0 {
            ObjectAttributeEntry { y: data, ..*self }
        } else if k == 1 {
            ObjectAttributeEntry { id: data, ..*self }
        } else if k == 2 {
            ObjectAttributeEntry { attr: data, ..*self }
        } else {
            ObjectAttributeEntry { x: data, ..*self }
        }
    }

    pub fn empty() -> (r: ObjectAttributeEntry)
        ensures
            r == (ObjectAttributeEntry { y: 0, id: 0, attr: 0, x: 0 }),
    {
        ObjectAttributeEntry { y: 0, id: 0, attr: 0, x: 0 }
    }
}

/// Sprites picked for the current scanline, with their pattern shifters.
#[derive(Clone, Copy)]
pub struct SpriteRenderState {
    pub scanline: [ObjectAttributeEntry; 8],
    pub count: u8,
    pub shifter_pattern_lo: [u8; 8],
    pub shifter_pattern_hi: [u8; 8],
}

impl SpriteRenderState {
    pub fn new() -> (r: SpriteRenderState)
        ensures
            r.count == 0,
            forall|i: int|
                0 <= i < 8 ==> r.shifter_pattern_lo[i] == 0 && r.shifter_pattern_hi[i] == 0
                    && r.scanline[i] == (ObjectAttributeEntry { y: 0, id: 0, attr: 0, x: 0 }),
    {
        let e = ObjectAttributeEntry::empty();
        SpriteRenderState {
            scanline: [e, e, e, e, e, e, e, e],
            count: 0,
            shifter_pattern_lo: [0, 0, 0, 0, 0, 0, 0, 0],
            shifter_pattern_hi: [0, 0, 0, 0, 0, 0, 0, 0],
        }
    }

    /// `new` is this state after one dot: a sprite whose X counter is still
    /// positive counts down, one that has reached zero shifts its pattern left.
    pub open spec fn shifted_to(&self, new: SpriteRenderState) -> bool {
        &&& new.count == self.count
        &&& forall|i: int|
            #![trigger new.scanline[i]]
            0 <= i < 8 ==> {
                let o = self.scanline[i];
                let n = new.scanline[i];
                if i < self.count && o.x > 0 {
                    n == ObjectAttributeEntry { x: (o.x - 1) as u8, ..o }
                        && new.shifter_pattern_lo[i] == self.shifter_pattern_lo[i]
                        && new.shifter_pattern_hi[i] == self.shifter_pattern_hi[i]
                } else if i < self.count {
                    n == o && new.shifter_pattern_lo[i] == self.shifter_pattern_lo[i] << 1u8
                        && new.shifter_pattern_hi[i] == self.shifter_pattern_hi[i] << 1u8
                } else {
                    n == o && new.shifter_pattern_lo[i] == self.shifter_pattern_lo[i]
                        && new.shifter_pattern_hi[i] == self.shifter_pattern_hi[i]
                }
            }
    }

    pub fn update_shifters(&mut self)
        requires
            old(self).count <= 8,
        ensures
            old(self).shifted_to(*final(self)),
    {
        let count = self.count as usize;
        let mut sc = self.scanline;
        let mut lo = self.shifter_pattern_lo;
        let mut hi = self.shifter_pattern_hi;
        let mut i: usize = 0;
        while i < count
            invariant
                count == old(self).count,
                count <= 8,
                i <= count,
                forall|j: int|
                    #![trigger sc[j]]
                    #![trigger lo[j]]
                    #![trigger hi[j]]
                    i <= j < 8 ==> sc[j] == old(self).scanline[j] && lo[j]
                        == old(self).shifter_pattern_lo[j] && hi[j] == old(
                        self,
                    ).shifter_pattern_hi[j],
                forall|j: int|
                    #![trigger sc[j]]
                    #![trigger lo[j]]
                    #![trigger hi[j]]
                    0 <= j < i ==> {
                        let o = old(self).scanline[j];
                        if o.x > 0 {
                            sc[j] == ObjectAttributeEntry { x: (o.x - 1) as u8, ..o } && lo[j]
                                == old(self).shifter_pattern_lo[j] && hi[j] == old(
                                self,
                            ).shifter_pattern_hi[j]
                        } else {
                            sc[j] == o && lo[j] == old(self).shifter_pattern_lo[j] << 1u8 && hi[j]
                                == old(self).shifter_pattern_hi[j] << 1u8
                        }
                    },
            decreases count - i,
        {
            let mut e = sc[i];
            if e.x > 0 {
                e.x = e.x - 1;
                sc[i] = e;
            } else {
                let l = lo[i];
                let h = hi[i];
                lo[i] = l << 1u8;
                hi[i] = h << 1u8;
            }
            i = i + 1;
        }
        self.scanline = sc;
        self.shifter_pattern_lo = lo;
        self.shifter_pattern_hi = hi;
    }
}

/// Background fetch latches and the four 16-bit pixel shifters.
#[derive(Clone, Copy, Debug, PartialEq, Eq, Structural)]
pub struct BgRenderState {
    pub tile_id: u8,
    pub tile_attrib: u8,
    pub tile_lsb: u8,
    pub tile_msb: u8,
    pub shifter_pattern_lo: u16,
    pub shifter_pattern_hi: u16,
    pub shifter_attrib_lo: u16,
    pub shifter_attrib_hi: u16,
}

impl BgRenderState {
    pub open spec fn loaded(&self) -> BgRenderState {
        BgRenderState {
            shifter_pattern_lo: (self.shifter_pattern_lo & 0xFF00) | (self.tile_lsb as u16),
            shifter_pattern_hi: (self.shifter_pattern_hi & 0xFF00) | (self.tile_msb as u16),
            shifter_attrib_lo: (self.shifter_attrib_lo & 0xFF00) | (if self.tile_attrib % 2 == 1 {
                0xFFu16
            } else {
                0
            }),
            shifter_attrib_hi: (self.shifter_attrib_hi & 0xFF00) | (if (self.tile_attrib / 2) % 2
                == 1 {
                0xFFu16
            } else {
                0
            }),
            ..*self
        }
    }

    pub open spec fn shifted(&self) -> BgRenderState {
        BgRenderState {
            shifter_pattern_lo: self.shifter_pattern_lo << 1u16,
            shifter_pattern_hi: self.shifter_pattern_hi << 1u16,
            shifter_attrib_lo: self.shifter_attrib_lo << 1u16,
            shifter_attrib_hi: self.shifter_attrib_hi << 1u16,
            ..*self
        }
    }

    pub fn new() -> (r: BgRenderState)
        ensures
            r == (BgRenderState {
                tile_id: 0,
                tile_attrib: 0,
                tile_lsb: 0,
                tile_msb: 0,
                shifter_pattern_lo: 0,
                shifter_pattern_hi: 0,
                shifter_attrib_lo: 0,
                shifter_attrib_hi: 0,
            }),
    {
        BgRenderState {
            tile_id: 0,
            tile_attrib: 0,
            tile_lsb: 0,
            tile_msb: 0,
            shifter_pattern_lo: 0,
            shifter_pattern_hi: 0,
            shifter_attrib_lo: 0,
            shifter_attrib_hi: 0,
        }
    }

    /// Puts the last fetched tile into the low bytes of the shifters.
    pub fn load_shifters(&mut self)
        ensures
            *final(self) == old(self).loaded(),
    {
        self.shifter_pattern_lo = (self.shifter_pattern_lo & 0xFF00) | (self.tile_lsb as u16);
        self.shifter_pattern_hi = (self.shifter_pattern_hi & 0xFF00) | (self.tile_msb as u16);
        self.shifter_attrib_lo = (self.shifter_attrib_lo & 0xFF00) | (if self.tile_attrib % 2
            == 1 {
            0xFFu16
        } else {
            0
        });
        self.shifter_attrib_hi = (self.shifter_attrib_hi & 0xFF00) | (if (self.tile_attrib / 2) % 2
            == 1 {
            0xFFu16
        } else {
            0
        });
    }

    pub fn update_shifters(&mut self)
        ensures
            *final(self) == old(self).shifted(),
    {
        self.shifter_pattern_lo = self.shifter_pattern_lo << 1u16;
        self.shifter_pattern_hi = self.shifter_pattern_hi << 1u16;
        self.shifter_attrib_lo = self.shifter_attrib_lo << 1u16;
        self.shifter_attrib_hi = self.shifter_attrib_hi << 1u16;
    }
}

/// The 256x240 raster of 0x00RRGGBB pixels, row by row.
pub struct Screen {
    pub buffer: Vec<u32>,
    /// Set when the last visible scanline of a frame has been drawn.
    pub complete: bool,
}

impl Screen {
    pub open spec fn wf(&self) -> bool {
        self.buffer@.len() == SCREEN_WIDTH * SCREEN_HEIGHT
    }

    pub open spec fn pixel(&self, x: int, y: int) -> u32 {
        self.buffer@[x + y * SCREEN_WIDTH]
    }

    pub fn new() -> (r: Screen)
        ensures
            r.wf(),
            r.complete,
            forall|i: int| 0 <= i < SCREEN_WIDTH * SCREEN_HEIGHT ==> r.buffer@[i] == 0,
    {
        Screen { buffer: vec![0u32; SCREEN_WIDTH * SCREEN_HEIGHT], complete: true }
    }

    pub fn set_pixel(&mut self, x: usize, y: usize, c: u32)
        requires
            old(self).wf(),
            x < SCREEN_WIDTH,
            y < SCREEN_HEIGHT,
        ensures
            final(self).complete == old(self).complete,
            final(self).buffer@ == old(self).buffer@.update(x + y * SCREEN_WIDTH, c),
    {
        self.buffer.set(x + y * SCREEN_WIDTH, c);
    }

    pub fn get_pixel(&self, x: usize, y: usize) -> (r: u32)
        requires
            self.wf(),
            x < SCREEN_WIDTH,
            y < SCREEN_HEIGHT,
        ensures
            r == self.pixel(x as int, y as int),
    {
        self.buffer[x + y * SCREEN_WIDTH]
    }
}

/// The byte with its bits in reverse order.
pub open spec fn reversed(b: u8) -> u8 {
    let s1 = ((b & 0xF0) >> 4u8) | ((b & 0x0F) << 4u8);
    let s2 = ((s1 & 0xCC) >> 2u8) | ((s1 & 0x33) << 2u8);
    ((s2 & 0xAA) >> 1u8) | ((s2 & 0x55) << 1u8)
}

/// Reverses the bits of a byte, for horizontally flipped sprites.
pub fn flipbyte(b: u8) -> (r: u8)
    ensures
        r == reversed(b),
        forall|k: u8| k < 8 ==> #[trigger] ((reversed(b) >> k) & 1) == (b >> (7 - k) as u8) & 1,
{
    let mut v = ((b & 0xF0) >> 4u8) | ((b & 0x0F) << 4u8);
    v = ((v & 0xCC) >> 2u8) | ((v & 0x33) << 2u8);
    v = ((v & 0xAA) >> 1u8) | ((v & 0x55) << 1u8);
    assert(forall|k: u8|
        k < 8 ==> #[trigger] ((reversed(b) >> k) & 1) == (b >> (7 - k) as u8) & 1) by (bit_vector);
    v
}

/// The console's 64 system colours as 0x00RRGGBB.
pub open spec fn system_rgb(i: int) -> u32 {
    seq![
        0x7C7C7Cu32, 0x0000FC, 0x0000BC, 0x4428BC, 0x940084, 0xA80020, 0xA81000, 0x881400,
        0x503000, 0x007800, 0x006800, 0x005800, 0x004058, 0x000000, 0x000000, 0x000000,
        0xBCBCBC, 0x0078F8, 0x0058F8, 0x6844FC, 0xD800CC, 0xE40058, 0xF83800, 0xE45C10,
        0xAC7C00, 0x00B800, 0x00A800, 0x00A844, 0x008888, 0x000000, 0x000000, 0x000000,
        0xF8F8F8, 0x3CBCFC, 0x6888FC, 0x9878F8, 0xF878F8, 0xF85898, 0xF87858, 0xFCA044,
        0xF8B800, 0xB8F818, 0x58D854, 0x58F898, 0x00E8D8, 0x787878, 0x000000, 0x000000,
        0xFCFCFC, 0xA4E4FC, 0xB8B8F8, 0xD8B8F8, 0xF8B8F8, 0xF8A4C0, 0xF0D0B0, 0xFCE0A8,
        0xF8D878, 0xD8F878, 0xB8F8B8, 0xB8F8D8, 0x00FCFC, 0xF8D8F8, 0x000000, 0x000000,
    ][i]
}

pub fn palette_rgb(i: u8) -> (r: u32)
    requires
        i < 64,
    ensures
        r == system_rgb(i as int),
{
    let table: [u32; 64] = [
        0x7C7C7C, 0x0000FC, 0x0000BC, 0x4428BC, 0x940084, 0xA80020, 0xA81000, 0x881400,
        0x503000, 0x007800, 0x006800, 0x005800, 0x004058, 0x000000, 0x000000, 0x000000,
        0xBCBCBC, 0x0078F8, 0x0058F8, 0x6844FC, 0xD800CC, 0xE40058, 0xF83800, 0xE45C10,
        0xAC7C00, 0x00B800, 0x00A800, 0x00A844, 0x008888, 0x000000, 0x000000, 0x000000,
        0xF8F8F8, 0x3CBCFC, 0x6888FC, 0x9878F8, 0xF878F8, 0xF85898, 0xF87858, 0xFCA044,
        0xF8B800, 0xB8F818, 0x58D854, 0x58F898, 0x00E8D8, 0x787878, 0x000000, 0x000000,
        0xFCFCFC, 0xA4E4FC, 0xB8B8F8, 0xD8B8F8, 0xF8B8F8, 0xF8A4C0, 0xF0D0B0, 0xFCE0A8,
        0xF8D878, 0xD8F878, 0xB8F8B8, 0xB8F8D8, 0x00FCFC, 0xF8D8F8, 0x000000, 0x000000,
    ];
    assert(table@ =~= seq![
        0x7C7C7Cu32, 0x0000FC, 0x0000BC, 0x4428BC, 0x940084, 0xA80020, 0xA81000, 0x881400,
        0x503000, 0x007800, 0x006800, 0x005800, 0x004058, 0x000000, 0x000000, 0x000000,
        0xBCBCBC, 0x0078F8, 0x0058F8, 0x6844FC, 0xD800CC, 0xE40058, 0xF83800, 0xE45C10,
        0xAC7C00, 0x00B800, 0x00A800, 0x00A844, 0x008888, 0x000000, 0x000000, 0x000000,
        0xF8F8F8, 0x3CBCFC, 0x6888FC, 0x9878F8, 0xF878F8, 0xF85898, 0xF87858, 0xFCA044,
        0xF8B800, 0xB8F818, 0x58D854, 0x58F898, 0x00E8D8, 0x787878, 0x000000, 0x000000,
        0xFCFCFC, 0xA4E4FC, 0xB8B8F8, 0xD8B8F8, 0xF8B8F8, 0xF8A4C0, 0xF0D0B0, 0xFCE0A8,
        0xF8D878, 0xD8F878, 0xB8F8B8, 0xB8F8D8, 0x00FCFC, 0xF8D8F8, 0x000000, 0x000000,
    ]);
    table[i as usize]
}

} // verus!
