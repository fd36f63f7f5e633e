use vstd::prelude::*;

verus! {

/// PRG offset of a CPU address in 0x8000..=0xFFFF: one 16 KiB page mirrors
/// into the upper half, two or more pages map straight through.
pub open spec fn prg_offset(one_bank: bool, addr: u16) -> int {
    if one_bank {
        (addr - 0x8000) % 0x4000
    } else {
        addr - 0x8000
    }
}

/// Bank mapper 0: fixed PRG, CHR passes straight through.
pub struct Mapper0 {
    pub one_bank: bool,
}

/// Bank mapper 3: fixed PRG, CPU writes pick one of four 8 KiB CHR banks.
pub struct Mapper3 {
    pub one_bank: bool,
    pub bank_select: u16,
}

impl Mapper0 {
    pub fn new(rom_pages: u8) -> (r: Mapper0)
        ensures
            r.one_bank == (rom_pages == 1),
    {
        Mapper0 { one_bank: rom_pages == 1 }
    }
}

impl Mapper3 {
    pub fn new(rom_pages: u8) -> (r: Mapper3)
        ensures
            r.one_bank == (rom_pages == 1),
            r.bank_select == 0,
    {
        Mapper3 { one_bank: rom_pages == 1, bank_select: 0 }
    }
}

/// The bank mapper of a cartridge.
pub enum Mapper {
    Nrom(Mapper0),
    Cnrom(Mapper3),
}

impl Mapper {
    pub open spec fn one_bank(&self) -> bool {
        match self {
            Mapper::Nrom(m) => m.one_bank,
            Mapper::Cnrom(m) => m.one_bank,
        }
    }

    /// The CHR offset that a PPU address in the pattern tables reaches.
    pub open spec fn chr_offset(&self, addr: u16) -> u16 {
        match self {
            Mapper::Nrom(_) => addr,
            Mapper::Cnrom(m) => addr | (m.bank_select << 13u16),
        }
    }

    /// The mapper after the CPU wrote `data` into the PRG space.
    pub open spec fn after_write(&self, data: u8) -> Mapper {
        match self {
            Mapper::Nrom(m) => Mapper::Nrom(*m),
            Mapper::Cnrom(m) => Mapper::Cnrom(Mapper3 { bank_select: (data % 4) as u16, ..*m }),
        }
    }

    pub fn map_read(&self, addr: u16) -> (r: u16)
        requires
            addr >= 0x8000,
        ensures
            r == prg_offset(self.one_bank(), addr),
    {
        let one_bank = match self {
            Mapper::Nrom(m) => m.one_bank,
            Mapper::Cnrom(m) => m.one_bank,
        };
        let mapped = addr - 0x8000;
        if one_bank {
            mapped % 0x4000
        } else {
            mapped
        }
    }

    /// A CPU write into the PRG space; only mapper 3 keeps anything of it.
    pub fn map_write(&mut self, addr: u16, data: u8)
        ensures
            *final(self) == old(self).after_write(data),
    {
        match self {
            Mapper::Nrom(_) => {},
            Mapper::Cnrom(m) => {
                m.bank_select = (data % 4) as u16;
            },
        }
    }

    pub fn map_ppu_read(&self, addr: u16) -> (r: u16)
        ensures
            r == self.chr_offset(addr),
    {
        match self {
            Mapper::Nrom(_) => addr,
            Mapper::Cnrom(m) => addr | (m.bank_select << 13u16),
        }
    }

    pub fn map_ppu_write(&self, addr: u16) -> (r: u16)
        ensures
            r == addr,
    {
        addr
    }
}

} // verus!
