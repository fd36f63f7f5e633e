use nes_emu::cpu::{to_u16, Flags};
use nes_emu::disasm::{disasm, get_instruction_size};
use nes_emu::emulator::Emulator;
use nes_emu::instructions::{instruction_lookup, AddressingMode, Opcode};

/// A one-page mapper-0 image whose PRG starts with `program` and whose
/// reset, NMI and IRQ vectors are given.
fn rom(program: &[u8], at: usize, reset: u16, nmi: u16) -> Vec<u8> {
    let mut v = vec![0x4E, 0x45, 0x53, 0x1A, 1, 0, 0, 0, 0, 0, 0, 0, 0, 0, 0, 0];
    let mut prg = vec![0u8; 0x4000];
    prg[at..at + program.len()].copy_from_slice(program);
    prg[0x3FFA] = (nmi & 0xFF) as u8;
    prg[0x3FFB] = (nmi >> 8) as u8;
    prg[0x3FFC] = (reset & 0xFF) as u8;
    prg[0x3FFD] = (reset >> 8) as u8;
    v.extend(prg);
    v
}

fn loaded(program: &[u8], at: usize, reset: u16) -> Emulator {
    let mut e = Emulator::new();
    e.load_rom(&rom(program, at, reset, 0x9000)).unwrap();
    e.cpu.cycles = 0;
    e
}

#[test]
fn reset_vector() {
    let mut e = Emulator::new();
    let mut v = vec![0x4E, 0x45, 0x53, 0x1A, 1, 0, 0, 0, 0, 0, 0, 0, 0, 0, 0, 0];
    let mut prg = vec![0u8; 0x4000];
    prg[0x3FFC] = 0x34;
    prg[0x3FFD] = 0x12;
    v.extend(prg);
    assert!(e.load_rom(&v).is_ok());
    assert_eq!(e.cpu.PC, 0x1234);
    assert_eq!(e.cpu.SP, 0xFD);
    assert_eq!(e.cpu.flags.to_byte(), 0x24);
    assert!(e.rom_loaded);
}

#[test]
fn refused_rom_leaves_emulator_unloaded() {
    let mut e = Emulator::new();
    assert!(e.load_rom(&vec![1, 2, 3]).is_err());
    assert!(!e.rom_loaded);
    assert!(!e.run_frame());
}

#[test]
fn adc_overflow() {
    let mut e = loaded(&[0x69, 0x50], 0, 0x8000);
    e.cpu.A = 0x50;
    e.cpu.flags.C = false;
    e.cpu.clock();
    assert_eq!(e.cpu.A, 0xA0);
    assert!(!e.cpu.flags.C);
    assert!(!e.cpu.flags.Z);
    assert!(e.cpu.flags.O);
    assert!(e.cpu.flags.N);
    assert_eq!(e.cpu.cycles, 1);
}

#[test]
fn sbc_and_compare() {
    let mut e = loaded(&[0xE9, 0x01, 0xC9, 0x10], 0, 0x8000);
    e.cpu.A = 0x00;
    e.cpu.flags.C = true;
    e.cpu.clock();
    assert_eq!(e.cpu.A, 0xFF);
    assert!(!e.cpu.flags.C);
    assert!(e.cpu.flags.N);
    e.cpu.cycles = 0;
    e.cpu.A = 0x10;
    e.cpu.clock();
    assert!(e.cpu.flags.C);
    assert!(e.cpu.flags.Z);
}

#[test]
fn indirect_jmp_page_bug() {
    let mut e = Emulator::new();
    e.cpu.bus.cpu_write(0x0000, 0x6C);
    e.cpu.bus.cpu_write(0x0001, 0xFF);
    e.cpu.bus.cpu_write(0x0002, 0x03);
    e.cpu.bus.cpu_write(0x03FF, 0x40);
    e.cpu.bus.cpu_write(0x0300, 0x80);
    e.cpu.bus.cpu_write(0x0400, 0x50);
    e.cpu.PC = 0;
    e.cpu.clock();
    assert_eq!(e.cpu.PC, 0x8040);
}

#[test]
fn branch_page_cross() {
    let mut e = loaded(&[0xF0, 0x10], 0xF0, 0x80F0);
    e.cpu.flags.Z = true;
    e.cpu.clock();
    assert_eq!(e.cpu.PC, 0x8102);
    assert_eq!(e.cpu.cycles, 3);
    let mut e = loaded(&[0xF0, 0x10], 0xF0, 0x80F0);
    e.cpu.flags.Z = false;
    e.cpu.clock();
    assert_eq!(e.cpu.PC, 0x80F2);
    assert_eq!(e.cpu.cycles, 1);
}

#[test]
fn instruction_takes_its_cycles() {
    let mut e = loaded(&[0xAD, 0x00, 0x02, 0xEA], 0, 0x8000);
    e.cpu.clock();
    assert_eq!(e.cpu.PC, 0x8003);
    let n = e.cpu.cycles as usize + 1;
    assert_eq!(n, 4);
    for _ in 1..n {
        e.cpu.clock();
        assert_eq!(e.cpu.PC, 0x8003);
    }
    assert_eq!(e.cpu.cycles, 0);
    assert_eq!(e.cpu.total_cycles, 4);
}

#[test]
fn page_cross_penalty_on_indexed_read_only() {
    let mut e = loaded(&[0xBD, 0xFF, 0x00, 0x9D, 0xFF, 0x00], 0, 0x8000);
    e.cpu.X = 1;
    e.cpu.clock();
    assert_eq!(e.cpu.cycles, 4);
    e.cpu.cycles = 0;
    e.cpu.clock();
    assert_eq!(e.cpu.cycles, 4);
    assert_eq!(e.cpu.bus.ram.bytes[0x100], e.cpu.A);
}

#[test]
fn stack_jsr_rts_and_php() {
    let mut e = loaded(&[0x20, 0x10, 0x80, 0x08, 0, 0, 0, 0, 0, 0, 0, 0, 0, 0, 0, 0, 0x60], 0, 0x8000);
    e.cpu.clock();
    assert_eq!(e.cpu.PC, 0x8010);
    assert_eq!(e.cpu.SP, 0xFB);
    assert_eq!(e.cpu.bus.ram.bytes[0x1FD], 0x80);
    assert_eq!(e.cpu.bus.ram.bytes[0x1FC], 0x02);
    e.cpu.cycles = 0;
    e.cpu.clock();
    assert_eq!(e.cpu.PC, 0x8003);
    assert_eq!(e.cpu.SP, 0xFD);
    e.cpu.cycles = 0;
    e.cpu.flags.C = true;
    e.cpu.clock();
    assert_eq!(e.cpu.bus.ram.bytes[0x1FD], 0x24 | 0x10 | 0x01);
}

#[test]
fn flags_round_trip() {
    let f = Flags { C: true, Z: false, I: true, D: false, B: false, U: false, O: true, N: true };
    assert_eq!(f.to_byte(), 0xC5);
    let mut g = Flags { C: false, Z: true, I: false, D: true, B: true, U: true, O: false, N: false };
    g.set_byte(f.to_byte());
    assert_eq!(g, Flags { B: true, U: true, ..f });
}

#[test]
fn every_opcode_takes_at_least_two_cycles() {
    for b in 0..=255u8 {
        let ins = instruction_lookup(b);
        assert!(ins.cycles >= 2 && ins.cycles <= 8);
    }
    let ins = instruction_lookup(0x6C);
    assert_eq!(ins.opcode, Opcode::JMP);
    assert_eq!(ins.mode, AddressingMode::IND);
    assert_eq!(instruction_lookup(0x02).opcode, Opcode::ERR);
    assert_eq!(get_instruction_size(&ins), 3);
}

#[test]
fn disassembles_one_line() {
    let mut e = loaded(&[0xAD, 0x34, 0x12, 0xEA, 0x02], 0, 0x8000);
    let line = disasm(&mut e.cpu.bus, 0x8000);
    assert_eq!(String::from_utf8(line).unwrap(), "AD 34 12    LDA ");
    let line = disasm(&mut e.cpu.bus, 0x8003);
    assert_eq!(String::from_utf8(line).unwrap(), "EA          NOP ");
    let line = disasm(&mut e.cpu.bus, 0x8004);
    assert_eq!(String::from_utf8(line).unwrap(), "02          ??? ");
    assert_eq!(to_u16(0x12, 0x34), 0x1234);
}

#[test]
fn oam_dma_copies_a_page() {
    let mut e = loaded(&[0x4C, 0x00, 0x80], 0, 0x8000);
    for i in 0..256u16 {
        e.cpu.bus.cpu_write(0x0200 + i, (i as u8) ^ 0x5A);
    }
    assert_eq!(e.clock % 2, 1);
    e.cpu.bus.cpu_write(0x4014, 0x02);
    let retired = e.cpu.total_cycles;
    let mut slots = 0;
    while e.cpu.bus.dma.transfer {
        if e.clock % 3 == 0 {
            slots += 1;
        }
        e.clock();
    }
    assert_eq!(slots, 513);
    assert_eq!(e.cpu.total_cycles, retired);
    for i in 0..=255u8 {
        assert_eq!(e.cpu.bus.ppu.read_oam(i), i ^ 0x5A);
    }
}

#[test]
fn vblank_nmi() {
    let mut e = loaded(&[0x4C, 0x00, 0x80], 0, 0x8000);
    e.cpu.bus.cpu_write(0x2000, 0x80);
    assert!(e.cpu.bus.ppu.ctrl.generate_nmi);
    while !(e.cpu.bus.ppu.scanline == 241 && e.cpu.bus.ppu.cycle == 1) {
        e.clock();
    }
    let sp = e.cpu.SP;
    e.cpu.bus.ppu.clock();
    assert!(e.cpu.bus.ppu.nmi);
    assert!(e.cpu.bus.ppu.status.vertical_blank);
    e.cpu.bus.ppu.nmi = false;
    e.cpu.nmi();
    assert_eq!(e.cpu.PC, 0x9000);
    assert_eq!(e.cpu.SP, sp.wrapping_sub(3));
    assert!(e.cpu.flags.I);
    assert_eq!(e.cpu.cycles, 8);
    let pushed = e.cpu.bus.ram.bytes[0x100 + sp.wrapping_sub(2) as usize];
    assert_eq!(pushed & 0x10, 0);
    assert_eq!(pushed & 0x24, 0x24);
}

#[test]
fn brk_pushes_flags_before_setting_i() {
    let mut v = vec![0x4E, 0x45, 0x53, 0x1A, 1, 0, 0, 0, 0, 0, 0, 0, 0, 0, 0, 0];
    let mut prg = vec![0u8; 0x4000];
    prg[0x3FFC] = 0x00;
    prg[0x3FFD] = 0x80;
    prg[0x3FFE] = 0x00;
    prg[0x3FFF] = 0xA0;
    v.extend(prg);
    let mut e = Emulator::new();
    e.load_rom(&v).unwrap();
    e.cpu.cycles = 0;
    e.cpu.flags.I = false;
    e.cpu.clock();
    assert_eq!(e.cpu.PC, 0xA000);
    assert!(e.cpu.flags.I);
    assert_eq!(e.cpu.SP, 0xFA);
    assert_eq!(e.cpu.bus.ram.bytes[0x1FD], 0x80);
    assert_eq!(e.cpu.bus.ram.bytes[0x1FC], 0x02);
    assert_eq!(e.cpu.bus.ram.bytes[0x1FB], 0x30);
}

#[test]
fn trace_line_layout() {
    let mut e = loaded(&[0xAD, 0x34, 0x12, 0xF0, 0xFE], 0, 0x8000);
    let line = String::from_utf8(nes_emu::trace::trace_line(&mut e)).unwrap();
    assert_eq!(line, "8000 AD 34 12    LDA $1234               A:00 X:00 Y:00 P:24 SP:FD PPU:  0,  0 CYC:0 \n");
    e.cpu.PC = 0x8003;
    let line = String::from_utf8(nes_emu::trace::trace_line(&mut e)).unwrap();
    assert!(line.starts_with("8003 F0 FE       BEQ $8003 "));
}

#[test]
fn emulator_services_nmi_between_clocks() {
    let mut e = loaded(&[0x4C, 0x00, 0x80], 0, 0x8000);
    e.cpu.bus.cpu_write(0x2000, 0x80);
    while !(e.cpu.bus.ppu.scanline == 241 && e.cpu.bus.ppu.cycle == 1) {
        e.clock();
    }
    e.clock();
    assert!(!e.cpu.bus.ppu.nmi);
    assert_eq!(e.cpu.PC, 0x9000);
}

#[test]
fn run_frame_stops_at_frame_end() {
    let mut e = loaded(&[0x4C, 0x00, 0x80], 0, 0x8000);
    e.cpu.bus.ppu.screen.complete = false;
    assert!(e.run_frame());
    assert!(!e.cpu.bus.ppu.screen.complete);
    assert_eq!(e.cpu.bus.ppu.scanline, -1);
    assert_eq!(e.cpu.bus.ppu.cycle, 0);
}
