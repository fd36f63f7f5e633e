use vstd::prelude::*;
use vstd::slice::{slice_subrange, slice_to_vec};

use crate::mappers::{prg_offset, Mapper, Mapper0, Mapper3};

verus! {

/// Why an iNES image was refused.
#[derive(Debug, Clone, Copy, PartialEq, Eq, Structural)]
pub enum RomError {
    /// The image does not start with "NES" and 0x1A.
    BadMagic,
    /// The image ends before the header, PRG-ROM or CHR-ROM it announces.
    Truncated,
    /// The header names a bank mapper other than 0 and 3.
    UnsupportedMapper(u8),
}

/// Size of the iNES header in bytes.
pub const HEADER_SIZE: usize = 16;

/// Size of the optional trainer block in bytes.
pub const TRAINER_SIZE: usize = 512;

/// Size of a PRG-ROM page in bytes.
pub const PRG_PAGE_SIZE: usize = 0x4000;

/// Size of a CHR-ROM page, and of a PRG-RAM page, in bytes.
pub const CHR_PAGE_SIZE: usize = 0x2000;

pub open spec fn ines_magic_ok(b: Seq<u8>) -> bool {
    b.len() >= 4 && b[0] == 0x4E && b[1] == 0x45 && b[2] == 0x53 && b[3] == 0x1A
}

/// Mapper number: low nibble from the top of byte 6, high nibble from the top of byte 7.
pub open spec fn ines_mapper(b: Seq<u8>) -> u8 {
    (b[6] / 16 + (b[7] / 16) * 16) as u8
}

pub open spec fn ines_has_trainer(b: Seq<u8>) -> bool {
    (b[6] / 4) % 2 == 1
}

pub open spec fn ines_prg_start(b: Seq<u8>) -> int {
    HEADER_SIZE + if ines_has_trainer(b) { TRAINER_SIZE as int } else { 0 }
}

pub open spec fn ines_chr_start(b: Seq<u8>) -> int {
    ines_prg_start(b) + b[4] * PRG_PAGE_SIZE
}

pub open spec fn ines_end(b: Seq<u8>) -> int {
    ines_chr_start(b) + b[5] * CHR_PAGE_SIZE
}

/// The error an iNES image is refused with, if any.
pub open spec fn ines_error(b: Seq<u8>) -> Option<RomError> {
    if !ines_magic_ok(b) {
        Some(RomError::BadMagic)
    } else if b.len() < HEADER_SIZE || b.len() < ines_end(b) {
        Some(RomError::Truncated)
    } else if ines_mapper(b) != 0 && ines_mapper(b) != 3 {
        Some(RomError::UnsupportedMapper(ines_mapper(b)))
    } else {
        None
    }
}

/// A cartridge: PRG and CHR memory behind a bank mapper, and the name-table mirroring.
pub struct Cartridge {
    pub prg_rom: Vec<u8>,
    pub chr_rom: Vec<u8>,
    pub prg_ram: Vec<u8>,
    pub mapper: Mapper,
    pub vertical_mirror: bool,
}

impl Cartridge {
    /// What the cartridge built from a well-formed iNES image `b` holds.
    pub open spec fn loaded_from(&self, b: Seq<u8>) -> bool {
        &&& self.prg_rom@ == b.subrange(ines_prg_start(b), ines_chr_start(b))
        &&& self.chr_rom@ == b.subrange(ines_chr_start(b), ines_end(b))
        &&& self.prg_ram@ == Seq::new((b[8] * CHR_PAGE_SIZE) as nat, |i: int| 0u8)
        &&& self.vertical_mirror == (b[6] % 2 == 1)
        &&& self.mapper == if ines_mapper(b) == 0 {
            Mapper::Nrom(Mapper0 { one_bank: b[4] == 1 })
        } else {
            Mapper::Cnrom(Mapper3 { one_bank: b[4] == 1, bank_select: 0 })
        }
    }

    /// What a CPU read at `addr` returns: PRG-ROM through the mapper, 0 outside it.
    pub open spec fn prg_read(&self, addr: u16) -> u8 {
        let off = prg_offset(self.mapper.one_bank(), addr);
        if addr >= 0x8000 && off < self.prg_rom@.len() {
            self.prg_rom@[off]
        } else {
            0
        }
    }

    /// What a PPU read at `addr` returns: CHR memory through the mapper, 0 beyond it.
    pub open spec fn chr_read(&self, addr: u16) -> u8 {
        let off = self.mapper.chr_offset(addr) as int;
        if off < self.chr_rom@.len() {
            self.chr_rom@[off]
        } else {
            0
        }
    }

    /// `new` is this cartridge after a PPU write of `data` at `addr`: CHR memory
    /// takes the byte where it exists, a write beyond it is dropped.
    pub open spec fn chr_written(&self, new: Cartridge, addr: u16, data: u8) -> bool {
        if (addr as int) < self.chr_rom@.len() {
            new == (Cartridge { chr_rom: new.chr_rom, ..*self }) && new.chr_rom@
                == self.chr_rom@.update(addr as int, data)
        } else {
            new == *self
        }
    }

    /// A cartridge with no ROM: empty memories, mapper 0, horizontal mirroring.
    pub fn new() -> (r: Cartridge)
        ensures
            r.prg_rom@.len() == 0,
            r.chr_rom@.len() == 0,
            r.prg_ram@.len() == 0,
            r.mapper == Mapper::Nrom(Mapper0 { one_bank: false }),
            !r.vertical_mirror,
    {
        Cartridge {
            prg_rom: Vec::new(),
            chr_rom: Vec::new(),
            prg_ram: Vec::new(),
            mapper: Mapper::Nrom(Mapper0::new(0)),
            vertical_mirror: false,
        }
    }

    /// Parses an iNES image.
    pub fn from_ines(b: &Vec<u8>) -> (r: Result<Cartridge, RomError>)
        ensures
            r is Err <==> ines_error(b@) is Some,
            r matches Err(e) ==> ines_error(b@) == Some(e),
            r matches Ok(c) ==> c.loaded_from(b@),
    {
        if b.len() < 4 || b[0] != 0x4E || b[1] != 0x45 || b[2] != 0x53 || b[3] != 0x1A {
            return Err(RomError::BadMagic);
        }
        if b.len() < HEADER_SIZE {
            return Err(RomError::Truncated);
        }
        let rom_pages = b[4];
        let chr_pages = b[5];
        let type_lsb = b[6];
        let type_msb = b[7];
        let ram_pages = b[8];
        let has_trainer = (type_lsb / 4) % 2 == 1;
        let mapper_number: u8 = type_lsb / 16 + (type_msb / 16) * 16;
        let prg_start: usize = if has_trainer { HEADER_SIZE + TRAINER_SIZE } else { HEADER_SIZE };
        let chr_start: usize = prg_start + rom_pages as usize * PRG_PAGE_SIZE;
        let end: usize = chr_start + chr_pages as usize * CHR_PAGE_SIZE;
        if b.len() < end {
            return Err(RomError::Truncated);
        }
        let mapper = if mapper_number == 0 {
            Mapper::Nrom(Mapper0::new(rom_pages))
        } else if mapper_number == 3 {
            Mapper::Cnrom(Mapper3::new(rom_pages))
        } else {
            return Err(RomError::UnsupportedMapper(mapper_number));
        };
        let prg_rom = slice_to_vec(slice_subrange(b.as_slice(), prg_start, chr_start));
        let chr_rom = slice_to_vec(slice_subrange(b.as_slice(), chr_start, end));
        let prg_ram = vec![0u8; ram_pages as usize * CHR_PAGE_SIZE];
        proof {
            assert(prg_ram@ =~= Seq::new((b@[8] * CHR_PAGE_SIZE) as nat, |i: int| 0u8));
        }
        Ok(Cartridge { prg_rom, chr_rom, prg_ram, mapper, vertical_mirror: type_lsb % 2 == 1 })
    }

    /// Loads an iNES image; a refused image leaves the cartridge as it was.
    pub fn load_from_bytes(&mut self, b: &Vec<u8>) -> (r: Result<(), RomError>)
        ensures
            r is Err <==> ines_error(b@) is Some,
            r matches Err(e) ==> ines_error(b@) == Some(e) && *final(self) == *old(self),
            r is Ok ==> final(self).loaded_from(b@),
    {
        match Cartridge::from_ines(b) {
            Ok(c) => {
                *self = c;
                Ok(())
            },
            Err(e) => Err(e),
        }
    }

    pub fn cpu_read(&self, addr: u16) -> (r: u8)
        ensures
            r == self.prg_read(addr),
    {
        if addr >= 0x8000 {
            let off = self.mapper.map_read(addr) as usize;
            if off < self.prg_rom.len() {
                return self.prg_rom[off];
            }
        }
        0
    }

    /// A CPU write into 0x8000..=0xFFFF goes to the mapper; ROM is never written.
    pub fn cpu_write(&mut self, addr: u16, data: u8)
        ensures
            addr >= 0x8000 ==> *final(self) == (Cartridge {
                mapper: old(self).mapper.after_write(data),
                ..*old(self)
            }),
            addr < 0x8000 ==> *final(self) == *old(self),
    {
        if addr >= 0x8000 {
            self.mapper.map_write(addr, data);
        }
    }

    pub fn ppu_read(&self, addr: u16) -> (r: u8)
        ensures
            r == self.chr_read(addr),
    {
        let off = self.mapper.map_ppu_read(addr) as usize;
        if off < self.chr_rom.len() {
            self.chr_rom[off]
        } else {
            0
        }
    }

    /// Writes CHR memory at `addr`; a write beyond it is dropped.
    pub fn ppu_write(&mut self, addr: u16, data: u8)
        ensures
            old(self).chr_written(*final(self), addr, data),
    {
        let off = self.mapper.map_ppu_write(addr) as usize;
        if off < self.chr_rom.len() {
            self.chr_rom.set(off, data);
        }
    }

    pub fn is_vertical_mirror(&self) -> (r: bool)
        ensures
            r == self.vertical_mirror,
    {
        self.vertical_mirror
    }
}

} // verus!
