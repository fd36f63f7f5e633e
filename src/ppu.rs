use vstd::prelude::*;

use crate::cartridge::Cartridge;
use crate::ppu_regs::{
    BgRenderState, CtrlReg, LoopyAddr, MaskReg, ObjectAttributeEntry, Screen, SpriteRenderState,
    StatusReg,
};

verus! {

/// Number of sprites in object attribute memory.
pub const OAM_ENTRIES: usize = 64;

/// Size of the two name tables together, in bytes.
pub const NAME_TABLE_SIZE: usize = 0x800;

/// Size of palette memory, in bytes.
pub const PALETTE_SIZE: usize = 32;

/// Index into palette memory of a PPU address in 0x3F00..=0x3FFF: entries
/// 0x10, 0x14, 0x18 and 0x1C alias 0x00, 0x04, 0x08 and 0x0C.
pub open spec fn pal_index(a: int) -> int {
    let p = a % 32;
    if p == 0x10 || p == 0x14 || p == 0x18 || p == 0x1C {
        p - 0x10
    } else {
        p
    }
}

/// Index into name-table memory of a PPU address in 0x2000..=0x3EFF. Vertical
/// mirroring maps 0x2000 and 0x2800 to table 0, 0x2400 and 0x2C00 to table 1;
/// horizontal mirroring maps 0x2000 and 0x2400 to table 0, 0x2800 and 0x2C00 to table 1.
pub open spec fn nt_index(vertical: bool, a: int) -> int {
    let b = a % 0x1000;
    let table = if vertical {
        (b / 0x400) % 2
    } else {
        b / 0x800
    };
    table * 0x400 + b % 0x400
}

/// Where the next dot of the frame is: (scanline, cycle, odd frame) after one
/// dot from (`scanline`, `cycle`, `odd`). On odd frames with rendering on, the
/// first dot of scanline 0 is skipped.
pub open spec fn dot_step(scanline: int, cycle: int, odd: bool, rendering: bool) -> (int, int, bool) {
    let c = if scanline == 0 && cycle == 0 && odd && rendering {
        2
    } else {
        cycle + 1
    };
    if c >= 341 {
        if scanline + 1 >= 261 {
            (-1, 0, !odd)
        } else {
            (scanline + 1, 0, odd)
        }
    } else {
        (scanline, c, odd)
    }
}

/// Whether sprite `e` covers `scanline`, for sprites 8 or 16 rows tall.
pub open spec fn on_line(e: ObjectAttributeEntry, scanline: int, tall: bool) -> bool {
    let diff = scanline - e.y;
    0 <= diff < if tall {
        16int
    } else {
        8
    }
}

/// The sprites among the first `n` of `oam` that cover `scanline`, in OAM order.
pub open spec fn sprite_candidates(oam: Seq<ObjectAttributeEntry>, n: int, scanline: int, tall: bool) -> Seq<
    ObjectAttributeEntry,
>
    decreases n,
{
    if n <= 0 {
        Seq::empty()
    } else {
        let rest = sprite_candidates(oam, n - 1, scanline, tall);
        if on_line(oam[n - 1], scanline, tall) {
            rest.push(oam[n - 1])
        } else {
            rest
        }
    }
}

/// The picture processing unit: registers, video memory, the pixel pipeline
/// and the frame it draws. It owns the cartridge, whose CHR memory it reads.
pub struct Ppu {
    pub cartridge: Cartridge,
    pub screen: Screen,
    pub cycle: i16,
    pub scanline: i16,
    pub odd_frame: bool,
    pub ctrl: CtrlReg,
    pub mask: MaskReg,
    pub status: StatusReg,
    /// Raised at the start of vertical blank when PPUCTRL asks for it.
    pub nmi: bool,
    pub oam_addr: u8,
    pub oam_mem: Vec<ObjectAttributeEntry>,
    /// The two 1 KiB name tables, table 0 first.
    pub name_table: Vec<u8>,
    pub pal_table: Vec<u8>,
    pub bg_state: BgRenderState,
    pub sprite_state: SpriteRenderState,
    pub sprite_zero_hit_possible: bool,
    pub sprite_zero_being_rendered: bool,
    /// The write toggle shared by PPUSCROLL and PPUADDR.
    pub loopy_latch: bool,
    pub ppu_data_buf: u8,
    pub vram_addr: LoopyAddr,
    pub tram_addr: LoopyAddr,
    pub fine_x: u8,
}

impl Ppu {
    pub open spec fn wf(&self) -> bool {
        &&& self.oam_mem@.len() == OAM_ENTRIES
        &&& self.name_table@.len() == NAME_TABLE_SIZE
        &&& self.pal_table@.len() == PALETTE_SIZE
        &&& self.screen.wf()
        &&& -1 <= self.scanline <= 260
        &&& 0 <= self.cycle <= 340
        &&& self.sprite_state.count <= 8
        &&& self.fine_x < 8
        &&& self.vram_addr.wf()
        &&& self.tram_addr.wf()
    }

    pub open spec fn rendering(&self) -> bool {
        self.mask.show_background || self.mask.show_sprites
    }

    /// What a read of PPU address `addr` returns.
    pub open spec fn read_spec(&self, addr: u16) -> u8 {
        let a = addr as int % 0x4000;
        if a < 0x2000 {
            self.cartridge.chr_read(a as u16)
        } else if a <= 0x3EFF {
            self.name_table@[nt_index(self.cartridge.vertical_mirror, a)]
        } else {
            self.pal_table@[pal_index(a)] & (if self.mask.grayscale {
                0x30u8
            } else {
                0x3F
            })
        }
    }

    /// `new` is this PPU after a write of `data` at PPU address `addr`.
    pub open spec fn written(&self, new: Ppu, addr: u16, data: u8) -> bool {
        let a = addr as int % 0x4000;
        if a < 0x2000 {
            new == (Ppu { cartridge: new.cartridge, ..*self }) && self.cartridge.chr_written(
                new.cartridge,
                a as u16,
                data,
            )
        } else if a <= 0x3EFF {
            new == (Ppu { name_table: new.name_table, ..*self }) && new.name_table@
                == self.name_table@.update(nt_index(self.cartridge.vertical_mirror, a), data)
        } else {
            new == (Ppu { pal_table: new.pal_table, ..*self }) && new.pal_table@
                == self.pal_table@.update(pal_index(a), data)
        }
    }

    /// Byte `a` of object attribute memory, four bytes per sprite.
    pub open spec fn oam_byte(&self, a: u8) -> u8 {
        self.oam_mem@[a as int / 4].byte(a as int % 4)
    }

    pub open spec fn oam_written(&self, a: u8, data: u8) -> Seq<ObjectAttributeEntry> {
        self.oam_mem@.update(a as int / 4, self.oam_mem@[a as int / 4].with_byte(a as int % 4, data))
    }

    /// The VRAM address after a PPUDATA access: one step of 1, or of 32 per
    /// PPUCTRL, wrapping within 15 bits.
    pub open spec fn next_vram(&self) -> LoopyAddr {
        LoopyAddr::from_data(
            ((self.vram_addr.data() + if self.ctrl.increment {
                32int
            } else {
                1
            }) % 0x8000) as u16,
        )
    }

    /// `new` is this PPU after the CPU wrote `data` to register `addr % 8`.
    pub open spec fn reg_written(&self, new: Ppu, addr: u16, data: u8) -> bool {
        let r = addr % 8;
        if r == 0 {
            let c = CtrlReg::from_byte(data);
            new == Ppu {
                ctrl: c,
                tram_addr: LoopyAddr {
                    nametable_x: c.nametable_x,
                    nametable_y: c.nametable_y,
                    ..self.tram_addr
                },
                ..*self
            }
        } else if r == 1 {
            new == Ppu { mask: MaskReg::from_byte(data), ..*self }
        } else if r == 3 {
            new == Ppu { oam_addr: data, ..*self }
        } else if r == 4 {
            new == (Ppu { oam_mem: new.oam_mem, ..*self }) && new.oam_mem@ == self.oam_written(
                self.oam_addr,
                data,
            )
        } else if r == 5 && !self.loopy_latch {
            new == Ppu {
                fine_x: data % 8,
                tram_addr: LoopyAddr { coarse_x: data / 8, ..self.tram_addr },
                loopy_latch: true,
                ..*self
            }
        } else if r == 5 {
            new == Ppu {
                tram_addr: LoopyAddr { fine_y: data % 8, coarse_y: data / 8, ..self.tram_addr },
                loopy_latch: false,
                ..*self
            }
        } else if r == 6 && !self.loopy_latch {
            new == Ppu {
                tram_addr: LoopyAddr::from_data(
                    ((data % 64) as int * 256 + self.tram_addr.data() % 256) as u16,
                ),
                loopy_latch: true,
                ..*self
            }
        } else if r == 6 {
            let t = LoopyAddr::from_data(
                ((self.tram_addr.data() / 256) * 256 + data as int) as u16,
            );
            new == Ppu { tram_addr: t, vram_addr: t, loopy_latch: false, ..*self }
        } else if r == 7 {
            new.vram_addr == self.next_vram() && self.written(
                Ppu { vram_addr: self.vram_addr, ..new },
                self.vram_addr.data(),
                data,
            )
        } else {
            new == *self
        }
    }

    /// What a CPU read of register `addr % 8` returns.
    pub open spec fn reg_read_value(&self, addr: u16) -> u8 {
        let r = addr % 8;
        if r == 2 {
            (self.status.byte() & 0xE0) | (self.ppu_data_buf & 0x1F)
        } else if r == 4 {
            self.oam_byte(self.oam_addr)
        } else if r == 7 {
            if self.vram_addr.data() % 0x4000 >= 0x3F00 {
                self.read_spec(self.vram_addr.data())
            } else {
                self.ppu_data_buf
            }
        } else {
            0
        }
    }

    /// `new` is this PPU after the CPU read register `addr % 8`.
    pub open spec fn reg_read(&self, new: Ppu, addr: u16) -> bool {
        let r = addr % 8;
        if r == 2 {
            new == Ppu {
                status: StatusReg { vertical_blank: false, ..self.status },
                loopy_latch: false,
                ..*self
            }
        } else if r == 7 {
            new == Ppu {
                ppu_data_buf: self.read_spec(self.vram_addr.data()),
                vram_addr: self.next_vram(),
                ..*self
            }
        } else {
            new == *self
        }
    }

    pub fn new(cartridge: Cartridge) -> (r: Ppu)
        ensures
            r.wf(),
            r.cartridge == cartridge,
            r.scanline == 0,
            r.cycle == 0,
            !r.odd_frame,
            !r.nmi,
            r.ctrl == CtrlReg::from_byte(0),
            r.mask == MaskReg::from_byte(0),
            r.status == (StatusReg {
                unused: 0,
                sprite_overflow: false,
                sprite_zero_hit: false,
                vertical_blank: false,
            }),
            r.oam_addr == 0,
            r.vram_addr == LoopyAddr::from_data(0),
            r.tram_addr == LoopyAddr::from_data(0),
            !r.loopy_latch,
            r.ppu_data_buf == 0,
            r.fine_x == 0,
            r.screen.complete,
            r.bg_state.shifter_pattern_lo == 0 && r.bg_state.shifter_pattern_hi == 0,
            r.bg_state.shifter_attrib_lo == 0 && r.bg_state.shifter_attrib_hi == 0,
            r.bg_state.tile_id == 0 && r.bg_state.tile_attrib == 0,
            r.sprite_state.count == 0,
            !r.sprite_zero_hit_possible && !r.sprite_zero_being_rendered,
            forall|i: int| 0 <= i < 256 * 240 ==> r.screen.buffer@[i] == 0,
            forall|i: int| 0 <= i < NAME_TABLE_SIZE ==> r.name_table@[i] == 0,
            forall|i: int| 0 <= i < PALETTE_SIZE ==> r.pal_table@[i] == 0,
            forall|i: int|
                0 <= i < OAM_ENTRIES ==> r.oam_mem@[i] == (ObjectAttributeEntry {
                    y: 0,
                    id: 0,
                    attr: 0,
                    x: 0,
                }),
    {
        let mut ctrl = CtrlReg {
            nametable_x: false,
            nametable_y: false,
            increment: false,
            pattern_sprite: false,
            pattern_background: false,
            is_wide_sprite: false,
            master_slave: false,
            generate_nmi: false,
        };
        ctrl.set_byte(0);
        let mut mask = MaskReg {
            grayscale: false,
            show_background_left: false,
            show_sprites_left: false,
            show_background: false,
            show_sprites: false,
            emphasize_red: false,
            emphasize_green: false,
            emphasize_blue: false,
        };
        mask.set_byte(0);
        Ppu {
            cartridge,
            screen: Screen::new(),
            cycle: 0,
            scanline: 0,
            odd_frame: false,
            ctrl,
            mask,
            status: StatusReg {
                unused: 0,
                sprite_overflow: false,
                sprite_zero_hit: false,
                vertical_blank: false,
            },
            nmi: false,
            oam_addr: 0,
            oam_mem: vec![ObjectAttributeEntry::empty(); OAM_ENTRIES],
            name_table: vec![0u8; NAME_TABLE_SIZE],
            pal_table: vec![0u8; PALETTE_SIZE],
            bg_state: BgRenderState::new(),
            sprite_state: SpriteRenderState::new(),
            sprite_zero_hit_possible: false,
            sprite_zero_being_rendered: false,
            loopy_latch: false,
            ppu_data_buf: 0,
            vram_addr: LoopyAddr::zero(),
            tram_addr: LoopyAddr::zero(),
            fine_x: 0,
        }
    }

    /// Puts the PPU back in its power-on state; the cartridge stays.
    pub fn reset(&mut self)
        ensures
            final(self).wf(),
            final(self).cartridge == old(self).cartridge,
            final(self).scanline == 0,
            final(self).cycle == 0,
            !final(self).odd_frame,
            !final(self).nmi,
            final(self).ctrl == CtrlReg::from_byte(0),
            final(self).mask == MaskReg::from_byte(0),
            final(self).oam_addr == 0,
            final(self).vram_addr == LoopyAddr::from_data(0),
            final(self).tram_addr == LoopyAddr::from_data(0),
            !final(self).loopy_latch,
            final(self).status == (StatusReg {
                unused: 0,
                sprite_overflow: false,
                sprite_zero_hit: false,
                vertical_blank: false,
            }),
            final(self).ppu_data_buf == 0,
            final(self).fine_x == 0,
            final(self).screen.complete,
            final(self).bg_state.shifter_pattern_lo == 0 && final(self).bg_state.shifter_pattern_hi == 0,
            final(self).bg_state.shifter_attrib_lo == 0 && final(self).bg_state.shifter_attrib_hi == 0,
            final(self).bg_state.tile_id == 0 && final(self).bg_state.tile_attrib == 0,
            final(self).sprite_state.count == 0,
            !final(self).sprite_zero_hit_possible && !final(self).sprite_zero_being_rendered,
            forall|i: int| 0 <= i < 256 * 240 ==> final(self).screen.buffer@[i] == 0,
            forall|i: int| 0 <= i < NAME_TABLE_SIZE ==> final(self).name_table@[i] == 0,
            forall|i: int| 0 <= i < PALETTE_SIZE ==> final(self).pal_table@[i] == 0,
            forall|i: int|
                0 <= i < OAM_ENTRIES ==> final(self).oam_mem@[i] == (ObjectAttributeEntry {
                    y: 0,
                    id: 0,
                    attr: 0,
                    x: 0,
                }),
    {
        let mut cartridge = Cartridge::new();
        std::mem::swap(&mut cartridge, &mut self.cartridge);
        *self = Ppu::new(cartridge);
    }

    pub fn ppu_read(&self, addr: u16) -> (r: u8)
        requires
            self.wf(),
        ensures
            r == self.read_spec(addr),
    {
        let a = addr % 0x4000;
        if a < 0x2000 {
            self.cartridge.ppu_read(a)
        } else if a <= 0x3EFF {
            let b = a % 0x1000;
            let table = if self.cartridge.is_vertical_mirror() {
                (b / 0x400) % 2
            } else {
                b / 0x800
            };
            self.name_table[(table * 0x400 + b % 0x400) as usize]
        } else {
            let p = a % 32;
            let i = if p == 0x10 || p == 0x14 || p == 0x18 || p == 0x1C {
                p - 0x10
            } else {
                p
            };
            self.pal_table[i as usize] & (if self.mask.grayscale {
                0x30u8
            } else {
                0x3F
            })
        }
    }

    pub fn ppu_write(&mut self, addr: u16, data: u8)
        requires
            old(self).wf(),
        ensures
            final(self).wf(),
            old(self).written(*final(self), addr, data),
    {
        let a = addr % 0x4000;
        if a < 0x2000 {
            self.cartridge.ppu_write(a, data);
        } else if a <= 0x3EFF {
            let b = a % 0x1000;
            let table = if self.cartridge.is_vertical_mirror() {
                (b / 0x400) % 2
            } else {
                b / 0x800
            };
            self.name_table.set((table * 0x400 + b % 0x400) as usize, data);
        } else {
            let p = a % 32;
            let i = if p == 0x10 || p == 0x14 || p == 0x18 || p == 0x1C {
                p - 0x10
            } else {
                p
            };
            self.pal_table.set(i as usize, data);
        }
    }

    /// Writes byte `addr` of object attribute memory.
    pub fn write_oam(&mut self, addr: u8, data: u8)
        requires
            old(self).wf(),
        ensures
            final(self).wf(),
            *final(self) == (Ppu { oam_mem: final(self).oam_mem, ..*old(self) }),
            final(self).oam_mem@ == old(self).oam_written(addr, data),
    {
        let index = (addr / 4) as usize;
        let mut e = self.oam_mem[index];
        let k = addr % 4;
        if k == 0 {
            e.y = data;
        } else if k == 1 {
            e.id = data;
        } else if k == 2 {
            e.attr = data;
        } else {
            e.x = data;
        }
        self.oam_mem.set(index, e);
    }

    /// Reads byte `addr` of object attribute memory.
    pub fn read_oam(&self, addr: u8) -> (r: u8)
        requires
            self.wf(),
        ensures
            r == self.oam_byte(addr),
    {
        let e = self.oam_mem[(addr / 4) as usize];
        let k = addr % 4;
        if k == 0 {
            e.y
        } else if k == 1 {
            e.id
        } else if k == 2 {
            e.attr
        } else {
            e.x
        }
    }

    fn incr_vram_addr(&mut self)
        requires
            old(self).wf(),
        ensures
            final(self).wf(),
            *final(self) == (Ppu { vram_addr: old(self).next_vram(), ..*old(self) }),
    {
        let reg = self.vram_addr.to_data() as u32;
        let step: u32 = if self.ctrl.increment { 32 } else { 1 };
        self.vram_addr.set_data(((reg + step) % 0x8000) as u16);
    }

    /// PPUSCROLL: X on the first write of a pair, Y on the second.
    fn write_scroll(&mut self, data: u8)
        requires
            old(self).wf(),
        ensures
            final(self).wf(),
            old(self).reg_written(*final(self), 5, data),
    {
        if !self.loopy_latch {
            self.fine_x = data % 8;
            self.tram_addr.coarse_x = data / 8;
            self.loopy_latch = true;
        } else {
            self.tram_addr.fine_y = data % 8;
            self.tram_addr.coarse_y = data / 8;
            self.loopy_latch = false;
        }
    }

    /// PPUADDR: the high six bits on the first write of a pair, the low byte
    /// on the second, which also moves the address into the VRAM address.
    fn write_addr(&mut self, data: u8)
        requires
            old(self).wf(),
        ensures
            final(self).wf(),
            old(self).reg_written(*final(self), 6, data),
    {
        if !self.loopy_latch {
            let d = (data % 64) as u16 * 256 + self.tram_addr.to_data() % 256;
            self.tram_addr.set_data(d);
            self.loopy_latch = true;
        } else {
            let d = (self.tram_addr.to_data() / 256) * 256 + data as u16;
            self.tram_addr.set_data(d);
            self.vram_addr = self.tram_addr;
            self.loopy_latch = false;
        }
    }

    /// A write from the CPU to register `addr % 8` (PPUCTRL .. PPUDATA).
    pub fn cpu_write(&mut self, addr: u16, data: u8)
        requires
            old(self).wf(),
        ensures
            final(self).wf(),
            old(self).reg_written(*final(self), addr, data),
    {
        let r = addr % 8;
        if r == 0 {
            self.ctrl.set_byte(data);
            self.tram_addr.nametable_x = self.ctrl.nametable_x;
            self.tram_addr.nametable_y = self.ctrl.nametable_y;
        } else if r == 1 {
            self.mask.set_byte(data);
        } else if r == 3 {
            self.oam_addr = data;
        } else if r == 4 {
            let a = self.oam_addr;
            self.write_oam(a, data);
        } else if r == 5 {
            self.write_scroll(data);
        } else if r == 6 {
            self.write_addr(data);
        } else if r == 7 {
            let a = self.vram_addr.to_data();
            self.ppu_write(a, data);
            self.incr_vram_addr();
        }
    }

    /// A read from the CPU of register `addr % 8`.
    pub fn cpu_read(&mut self, addr: u16) -> (r: u8)
        requires
            old(self).wf(),
        ensures
            final(self).wf(),
            r == old(self).reg_read_value(addr),
            old(self).reg_read(*final(self), addr),
    {
        let reg = addr % 8;
        if reg == 2 {
            let data = (self.status.to_byte() & 0xE0) | (self.ppu_data_buf & 0x1F);
            self.status.vertical_blank = false;
            self.loopy_latch = false;
            data
        } else if reg == 4 {
            self.read_oam(self.oam_addr)
        } else if reg == 7 {
            let a = self.vram_addr.to_data();
            let mut data = self.ppu_data_buf;
            self.ppu_data_buf = self.ppu_read(a);
            if a % 0x4000 >= 0x3F00 {
                data = self.ppu_data_buf;
            }
            self.incr_vram_addr();
            data
        } else {
            0
        }
    }
}

} // verus!
