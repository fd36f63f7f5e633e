//! A cycle-stepped emulator core for an 8-bit home console: a 6502-family CPU,
//! a picture processing unit, sprite DMA, controllers, a shared memory bus and
//! iNES cartridges with two bank mappers.
pub mod bus;
pub mod cartridge;
pub mod controller;
pub mod cpu;
pub mod disasm;
pub mod dma;
pub mod emulator;
pub mod instructions;
pub mod laws;
pub mod logger;
pub mod mappers;
pub mod ppu;
pub mod ppu_regs;
pub mod ram;
pub mod render;
pub mod trace;
