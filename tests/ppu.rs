use nes_emu::cartridge::Cartridge;
use nes_emu::ppu::Ppu;
use nes_emu::ppu_regs::{flipbyte, palette_rgb, BgRenderState, LoopyAddr, StatusReg};

fn ppu(vertical: bool) -> Ppu {
    let mut c = Cartridge::new();
    c.vertical_mirror = vertical;
    Ppu::new(c)
}

#[test]
fn loopy_round_trip() {
    for v in [0u16, 1, 0x1F, 0x20, 0x3FF, 0x400, 0x0C00, 0x7000, 0x7FFF, 0x5A5A, 0x8000, 0xFFFF] {
        let mut l = LoopyAddr { coarse_x: 0, coarse_y: 0, nametable_x: false, nametable_y: false, fine_y: 0 };
        l.set_data(v);
        assert_eq!(l.to_data(), v & 0x7FFF);
    }
    let mut l = LoopyAddr { coarse_x: 0, coarse_y: 0, nametable_x: false, nametable_y: false, fine_y: 0 };
    l.set_data(0x7C3F);
    assert_eq!((l.coarse_x, l.coarse_y, l.nametable_x, l.nametable_y, l.fine_y), (0x1F, 0x01, true, true, 7));
}

#[test]
fn name_table_mirroring() {
    let mut p = ppu(true);
    for k in [0u16, 1, 0x155, 0x3FF] {
        p.ppu_write(0x2000 + k, (k % 200) as u8 + 1);
        assert_eq!(p.ppu_read(0x2000 + k), p.ppu_read(0x2800 + k));
        assert_ne!(p.ppu_read(0x2000 + k), p.ppu_read(0x2400 + k));
    }
    let mut p = ppu(false);
    for k in [0u16, 2, 0x200, 0x3FF] {
        p.ppu_write(0x2400 + k, (k % 200) as u8 + 1);
        assert_eq!(p.ppu_read(0x2000 + k), p.ppu_read(0x2400 + k));
        assert_ne!(p.ppu_read(0x2000 + k), p.ppu_read(0x2800 + k));
    }
    p.ppu_write(0x3000, 9);
    assert_eq!(p.ppu_read(0x2000), 9);
}

#[test]
fn palette_mirroring() {
    let mut p = ppu(false);
    p.ppu_write(0x3F10, 0x21);
    p.ppu_write(0x3F14, 0x22);
    p.ppu_write(0x3F18, 0x23);
    p.ppu_write(0x3F1C, 0x24);
    assert_eq!(p.ppu_read(0x3F00), 0x21);
    assert_eq!(p.ppu_read(0x3F04), 0x22);
    assert_eq!(p.ppu_read(0x3F08), 0x23);
    assert_eq!(p.ppu_read(0x3F0C), 0x24);
    assert_eq!(p.ppu_read(0x3F10), p.ppu_read(0x3F00));
    assert_eq!(p.ppu_read(0x3F30), 0x21);
    p.cpu_write(0x2001, 0x01);
    assert_eq!(p.ppu_read(0x3F00), 0x20);
}

#[test]
fn frame_length_alternates() {
    let mut p = ppu(false);
    p.cpu_write(0x2001, 0x18);
    p.screen.complete = false;
    let mut lengths = Vec::new();
    let mut n: u64 = 0;
    while lengths.len() < 4 {
        p.clock();
        n += 1;
        if p.screen.complete {
            lengths.push(n);
            n = 0;
            p.screen.complete = false;
        }
    }
    assert_eq!(lengths[2] + lengths[3], 89341 + 89342);
    assert!(lengths[2] == 89341 || lengths[2] == 89342);
    assert_ne!(lengths[2], lengths[3]);
}

#[test]
fn frame_length_without_rendering() {
    let mut p = ppu(false);
    p.screen.complete = false;
    let mut n: u64 = 0;
    let mut lengths = Vec::new();
    while lengths.len() < 3 {
        p.clock();
        n += 1;
        if p.screen.complete {
            lengths.push(n);
            n = 0;
            p.screen.complete = false;
        }
    }
    assert_eq!(lengths[1], 89342);
    assert_eq!(lengths[2], 89342);
}

#[test]
fn register_interface() {
    let mut p = ppu(false);
    p.cpu_write(0x2006, 0x21);
    p.cpu_write(0x2006, 0x08);
    assert_eq!(p.vram_addr.to_data(), 0x2108);
    p.cpu_write(0x2007, 0x77);
    assert_eq!(p.ppu_read(0x2108), 0x77);
    assert_eq!(p.vram_addr.to_data(), 0x2109);
    p.cpu_write(0x2000, 0x04);
    p.cpu_write(0x2006, 0x21);
    p.cpu_write(0x2006, 0x08);
    let first = p.cpu_read(0x2007);
    let second = p.cpu_read(0x2007);
    assert_eq!(first, 0);
    assert_eq!(second, 0x77);
    assert_eq!(p.vram_addr.to_data(), 0x2148);
    p.cpu_write(0x2005, 0x7D);
    p.cpu_write(0x2005, 0x5E);
    assert_eq!(p.fine_x, 5);
    assert_eq!(p.tram_addr.coarse_x, 0x0F);
    assert_eq!(p.tram_addr.fine_y, 6);
    assert_eq!(p.tram_addr.coarse_y, 0x0B);
    p.status.vertical_blank = true;
    p.ppu_data_buf = 0xFF;
    p.cpu_write(0x2005, 0x01);
    assert_eq!(p.cpu_read(0x2002), 0x80 | 0x1F);
    assert!(!p.status.vertical_blank);
    assert!(!p.loopy_latch);
    p.cpu_write(0x2003, 0x06);
    p.cpu_write(0x2004, 0xAB);
    assert_eq!(p.oam_mem[1].attr, 0xAB);
    assert_eq!(p.cpu_read(0x2004), 0xAB);
    let s = StatusReg { unused: 0x03, sprite_overflow: true, sprite_zero_hit: false, vertical_blank: true };
    assert_eq!(s.to_byte(), 0xA3);
}

#[test]
fn vram_address_wraps_at_15_bits() {
    let mut p = ppu(false);
    p.vram_addr.set_data(0x7FFF);
    p.cpu_write(0x2007, 5);
    assert_eq!(p.vram_addr.to_data(), 0);
    p.vram_addr.set_data(0x8000);
    assert_eq!(p.vram_addr.to_data(), 0);
}

#[test]
fn data_read_at_mirrored_pattern_space_is_buffered() {
    let mut p = ppu(false);
    p.vram_addr.set_data(0x4000);
    p.ppu_data_buf = 1;
    assert_eq!(p.cpu_read(0x2007), 1);
    p.ppu_write(0x3F01, 0x2A);
    p.vram_addr.set_data(0x3F01);
    assert_eq!(p.cpu_read(0x2007), 0x2A);
}

#[test]
fn pixels_and_colours() {
    let mut p = ppu(false);
    p.ppu_write(0x3F00, 0x30);
    p.ppu_write(0x3F05, 0x16);
    assert_eq!(p.get_color_from_pal(0, 0), 0xFCFCFC);
    assert_eq!(p.get_color_from_pal(1, 1), 0xF83800);
    assert_eq!(palette_rgb(0x0F), 0);
    p.screen.set_pixel(3, 2, 0x123456);
    assert_eq!(p.screen.get_pixel(3, 2), 0x123456);
    assert_eq!(p.screen.buffer[3 + 2 * 256], 0x123456);
}

#[test]
fn flip_reverses_bits() {
    assert_eq!(flipbyte(0x01), 0x80);
    assert_eq!(flipbyte(0xC4), 0x23);
    assert_eq!(flipbyte(0xFF), 0xFF);
}

#[test]
fn background_shifters() {
    let mut b = BgRenderState::new();
    b.tile_lsb = 0xAA;
    b.tile_msb = 0x55;
    b.tile_attrib = 0x02;
    b.shifter_pattern_lo = 0x1234;
    b.load_shifters();
    assert_eq!(b.shifter_pattern_lo, 0x12AA);
    assert_eq!(b.shifter_pattern_hi, 0x0055);
    assert_eq!(b.shifter_attrib_lo, 0x0000);
    assert_eq!(b.shifter_attrib_hi, 0x00FF);
    b.update_shifters();
    assert_eq!(b.shifter_pattern_lo, 0x2554);
    assert_eq!(b.shifter_attrib_hi, 0x01FE);
}

#[test]
fn vblank_sets_nmi() {
    let mut p = ppu(false);
    p.cpu_write(0x2000, 0x80);
    while !(p.scanline == 241 && p.cycle == 1) {
        p.clock();
    }
    assert!(!p.nmi);
    p.clock();
    assert!(p.nmi);
    assert!(p.status.vertical_blank);
    while !(p.scanline == -1 && p.cycle == 2) {
        p.clock();
    }
    assert!(!p.status.vertical_blank);
}

#[test]
fn reset_keeps_cartridge() {
    let mut p = ppu(true);
    p.ppu_write(0x2000, 5);
    p.scanline = 100;
    p.reset();
    assert!(p.cartridge.is_vertical_mirror());
    assert_eq!(p.ppu_read(0x2000), 0);
    assert_eq!(p.scanline, 0);
}
