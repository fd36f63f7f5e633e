use nes_emu::cartridge::{Cartridge, RomError};
use nes_emu::mappers::Mapper;

fn image(prg_pages: u8, chr_pages: u8, flags6: u8, flags7: u8) -> Vec<u8> {
    let mut v = vec![0x4E, 0x45, 0x53, 0x1A, prg_pages, chr_pages, flags6, flags7, 0, 0, 0, 0, 0, 0, 0, 0];
    if flags6 & 0x04 != 0 {
        v.extend(std::iter::repeat(0xEE).take(512));
    }
    for i in 0..(prg_pages as usize * 0x4000) {
        v.push((i % 251) as u8);
    }
    for i in 0..(chr_pages as usize * 0x2000) {
        v.push((i % 13) as u8 + 100);
    }
    v
}

#[test]
fn parses_header_and_banks() {
    let c = Cartridge::from_ines(&image(1, 1, 0x01, 0)).unwrap();
    assert_eq!(c.prg_rom.len(), 0x4000);
    assert_eq!(c.chr_rom.len(), 0x2000);
    assert!(c.is_vertical_mirror());
    assert_eq!(c.cpu_read(0x8005), 5);
    assert_eq!(c.cpu_read(0xC005), 5);
    assert_eq!(c.ppu_read(0x0001), 101);
}

#[test]
fn trainer_is_skipped() {
    let c = Cartridge::from_ines(&image(1, 0, 0x04, 0)).unwrap();
    assert_eq!(c.prg_rom[0], 0);
    assert_eq!(c.prg_rom[3], 3);
    assert!(!c.is_vertical_mirror());
    assert_eq!(c.ppu_read(0x0010), 0);
}

#[test]
fn two_prg_pages_map_straight() {
    let c = Cartridge::from_ines(&image(2, 0, 0, 0)).unwrap();
    assert_eq!(c.cpu_read(0xC000), (0x4000 % 251) as u8);
    assert_eq!(c.cpu_read(0x7FFF), 0);
}

#[test]
fn refuses_bad_magic() {
    let mut v = image(1, 0, 0, 0);
    v[3] = 0;
    assert_eq!(Cartridge::from_ines(&v).err(), Some(RomError::BadMagic));
    assert_eq!(Cartridge::from_ines(&vec![0x4E]).err(), Some(RomError::BadMagic));
}

#[test]
fn refuses_truncated_image() {
    let mut v = image(1, 1, 0, 0);
    v.pop();
    assert_eq!(Cartridge::from_ines(&v).err(), Some(RomError::Truncated));
    assert_eq!(Cartridge::from_ines(&vec![0x4E, 0x45, 0x53, 0x1A, 1]).err(), Some(RomError::Truncated));
}

#[test]
fn refuses_unsupported_mapper_and_keeps_state() {
    let v = image(1, 0, 0x10, 0x00);
    assert_eq!(Cartridge::from_ines(&v).err(), Some(RomError::UnsupportedMapper(1)));
    let v = image(1, 0, 0x20, 0x40);
    assert_eq!(Cartridge::from_ines(&v).err(), Some(RomError::UnsupportedMapper(0x42)));
    let mut c = Cartridge::from_ines(&image(1, 0, 0, 0)).unwrap();
    assert_eq!(c.load_from_bytes(&v), Err(RomError::UnsupportedMapper(0x42)));
    assert_eq!(c.prg_rom.len(), 0x4000);
}

#[test]
fn mapper3_switches_chr_banks() {
    let mut v = vec![0x4E, 0x45, 0x53, 0x1A, 1, 4, 0x30, 0, 0, 0, 0, 0, 0, 0, 0, 0];
    v.extend(std::iter::repeat(0).take(0x4000));
    for bank in 0..4u8 {
        v.extend(std::iter::repeat(bank + 10).take(0x2000));
    }
    let mut c = Cartridge::from_ines(&v).unwrap();
    assert!(matches!(c.mapper, Mapper::Cnrom(_)));
    assert_eq!(c.ppu_read(0x0123), 10);
    c.cpu_write(0x8000, 0x06);
    assert_eq!(c.ppu_read(0x0123), 12);
    c.cpu_write(0xFFFF, 0x03);
    assert_eq!(c.ppu_read(0x1FFF), 13);
}

#[test]
fn chr_writes_beyond_memory_are_dropped() {
    let mut c = Cartridge::new();
    c.ppu_write(0x0010, 5);
    assert_eq!(c.ppu_read(0x0010), 0);
    let mut c = Cartridge::from_ines(&image(1, 1, 0, 0)).unwrap();
    c.ppu_write(0x0010, 5);
    assert_eq!(c.ppu_read(0x0010), 5);
}
