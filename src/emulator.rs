use vstd::prelude::*;

use crate::bus::{lemma_standard_cartridge, standard_connections, Bus, CpuBusDevice};
use crate::cartridge::{ines_error, RomError};
use crate::cpu::Cpu;
use crate::ppu::Ppu;
use crate::dma::DmaDevice;

verus! {

/// Master clocks that one frame takes at most: 262 scanlines of 341 dots.
pub const FRAME_DOTS: u64 = 89342;

/// The console: the CPU, which owns the bus and every device on it, and the
/// master clock that interleaves the PPU, the CPU and DMA.
pub struct Emulator {
    pub cpu: Cpu,
    pub clock: u64,
    pub rom_loaded: bool,
}

impl Emulator {
    pub open spec fn wf(&self) -> bool {
        self.cpu.wf()
    }

    /// The devices connected in the console's order: RAM, cartridge, trace
    /// window, PPU registers, DMA, then the two controller ports.
    pub open spec fn standard_wiring(&self) -> bool {
        self.cpu.bus.connections@ == standard_connections()
    }

    pub fn new() -> (r: Emulator)
        ensures
            r.wf(),
            !r.rom_loaded,
            r.clock == 0,
            r.cpu.bus.connections@.len() == 7,
            r.standard_wiring(),
    {
        let mut bus = Bus::new();
        bus.connect(CpuBusDevice::Ram);
        bus.connect(CpuBusDevice::Cartridge);
        bus.connect(CpuBusDevice::Logger);
        bus.connect(CpuBusDevice::Ppu);
        bus.connect(CpuBusDevice::Dma);
        bus.connect(CpuBusDevice::Controller0);
        bus.connect(CpuBusDevice::Controller1);
        let r = Emulator { cpu: Cpu::new(bus), clock: 0, rom_loaded: false };
        assert(r.cpu.bus.connections@ =~= standard_connections());
        r
    }

    /// Loads an iNES image and resets the CPU (through the reset vector),
    /// the PPU and DMA. A refused image leaves the emulator as it was.
    pub fn load_rom(&mut self, rom: &Vec<u8>) -> (r: Result<(), RomError>)
        requires
            old(self).wf(),
        ensures
            final(self).wf(),
            r is Err <==> ines_error(rom@) is Some,
            r matches Err(e) ==> ines_error(rom@) == Some(e) && *final(self) == *old(self),
            r is Ok ==> {
                &&& final(self).cpu.bus.ppu.cartridge.loaded_from(rom@)
                &&& final(self).rom_loaded
                &&& final(self).clock == 1
                &&& final(self).cpu.SP == 0xFD
                &&& final(self).cpu.flags.byte() == 0x24
                &&& final(self).cpu.cycles == 7
                &&& final(self).cpu.bus.dma == DmaDevice::idle()
                &&& final(self).cpu.bus.ppu.scanline == 0 && final(self).cpu.bus.ppu.cycle == 0
                &&& final(self).cpu.bus.connections == old(self).cpu.bus.connections
                &&& old(self).standard_wiring() ==> final(self).cpu.PC == crate::cpu::word(
                    final(self).cpu.bus.ppu.cartridge.prg_read(0xFFFD),
                    final(self).cpu.bus.ppu.cartridge.prg_read(0xFFFC),
                )
            },
    {
        let mut cartridge = crate::cartridge::Cartridge::new();
        match cartridge.load_from_bytes(rom) {
            Err(e) => {
                return Err(e);
            },
            Ok(()) => {},
        }
        self.cpu.bus.ppu.cartridge = cartridge;
        proof {
            if old(self).standard_wiring() {
                lemma_standard_cartridge(self.cpu.bus, 0xFFFC);
                lemma_standard_cartridge(self.cpu.bus, 0xFFFD);
            }
        }
        self.cpu.reset();
        self.cpu.bus.ppu.reset();
        self.cpu.bus.dma.reset();
        self.clock = 1;
        self.rom_loaded = true;
        Ok(())
    }

    /// `p` and `after` are the PPU after this master clock's dot and the CPU
    /// after its CPU-cycle slot, and `new` the emulator at the end: on every
    /// third clock DMA takes the slot while a transfer runs, the CPU
    /// otherwise; an NMI the PPU raised is then cleared and serviced.
    #[verifier::opaque]
    pub open spec fn stepped(&self, p: Ppu, after: Cpu, new: Emulator) -> bool {
        let o = self.cpu;
        let c = Cpu { bus: Bus { ppu: p, ..o.bus }, ..o };
        let slot = self.clock % 3 == 0;
        &&& o.bus.ppu.dot_done(p)
        &&& slot && o.bus.dma.transfer ==> after == (Cpu { bus: after.bus, ..c })
            && c.bus.dma_stepped(after.bus, self.clock)
        &&& slot && !o.bus.dma.transfer ==> c.clocked(after)
        &&& !slot ==> after == c
        &&& after.bus.ppu.nmi ==> (Cpu {
            bus: Bus { ppu: Ppu { nmi: false, ..after.bus.ppu }, ..after.bus },
            ..after
        }).nmi_done(new.cpu)
        &&& !after.bus.ppu.nmi ==> new.cpu == after
    }

    /// One master clock: the PPU draws a dot; on every third clock DMA, if
    /// a transfer runs, or else the CPU takes a cycle; an NMI the PPU raised
    /// is then serviced.
    #[verifier::rlimit(100)]
    #[verifier::spinoff_prover]
    pub fn clock(&mut self)
        requires
            old(self).wf(),
        ensures
            final(self).wf(),
            final(self).clock == (old(self).clock as int + 1) % 0x1_0000_0000_0000_0000,
            final(self).rom_loaded == old(self).rom_loaded,
            final(self).cpu.bus.connections == old(self).cpu.bus.connections,
            exists|p: Ppu, after: Cpu| #[trigger] old(self).stepped(p, after, *final(self)),
            ({
                let q = old(self).cpu.bus.ppu;
                let n = final(self).cpu.bus.ppu;
                &&& (n.scanline as int, n.cycle as int, n.odd_frame) == crate::ppu::dot_step(
                    q.scanline as int,
                    q.cycle as int,
                    q.odd_frame,
                    q.rendering(),
                )
                &&& n.screen.complete == (q.screen.complete || (q.scanline == 260 && q.cycle
                    == 340))
                &&& n.wf()
            }),
    {
        self.cpu.bus.ppu.clock();
        let ghost p = self.cpu.bus.ppu;
        if self.clock % 3 == 0 {
            if self.cpu.bus.dma.transfer {
                self.cpu.bus.dma_clock(self.clock);
            } else {
                self.cpu.clock();
            }
        }
        let ghost after = self.cpu;
        if self.cpu.bus.ppu.nmi {
            self.cpu.bus.ppu.nmi = false;
            self.cpu.nmi();
        }
        self.clock = self.clock.wrapping_add(1);
        assert(old(self).stepped(p, after, *self)) by {
            reveal(Emulator::stepped);
        }
    }

    /// Position of the PPU's current dot within the frame.
    pub open spec fn frame_pos(&self) -> int {
        (self.cpu.bus.ppu.scanline + 1) * 341 + self.cpu.bus.ppu.cycle
    }

    /// Runs master clocks until the PPU finishes a frame, then clears the
    /// frame-complete flag. Returns false, having done nothing, when no ROM
    /// is loaded. A frame already complete is only acknowledged; otherwise
    /// between one and `FRAME_DOTS` master clocks run and the PPU stops at
    /// the first dot of the next frame.
    pub fn run_frame(&mut self) -> (r: bool)
        requires
            old(self).wf(),
        ensures
            final(self).wf(),
            r == old(self).rom_loaded,
            !r ==> *final(self) == *old(self),
            r ==> !final(self).cpu.bus.ppu.screen.complete && final(self).rom_loaded,
            final(self).cpu.bus.connections == old(self).cpu.bus.connections,
            r && old(self).cpu.bus.ppu.screen.complete ==> final(self).clock == old(self).clock,
            r && !old(self).cpu.bus.ppu.screen.complete ==> {
                &&& final(self).cpu.bus.ppu.scanline == -1
                &&& final(self).cpu.bus.ppu.cycle == 0
                &&& 1 <= (final(self).clock as int - old(self).clock as int + 0x1_0000_0000_0000_0000)
                    % 0x1_0000_0000_0000_0000 <= FRAME_DOTS
            },
    {
        if !self.rom_loaded {
            return false;
        }
        if !self.cpu.bus.ppu.screen.complete {
            let ghost c0 = self.clock as int;
            let mut n: u64 = 0;
            while !self.cpu.bus.ppu.screen.complete
                invariant
                    self.wf(),
                    self.rom_loaded,
                    self.cpu.bus.connections == old(self).cpu.bus.connections,
                    c0 == old(self).clock,
                    self.clock as int == (c0 + n) % 0x1_0000_0000_0000_0000,
                    self.cpu.bus.ppu.screen.complete ==> self.cpu.bus.ppu.scanline == -1
                        && self.cpu.bus.ppu.cycle == 0 && 1 <= n <= FRAME_DOTS,
                    !self.cpu.bus.ppu.screen.complete ==> n <= self.frame_pos(),
                decreases (if self.cpu.bus.ppu.screen.complete {
                    0
                } else {
                    FRAME_DOTS - self.frame_pos()
                }),
            {
                self.clock();
                n = n + 1;
            }
            assert((self.clock as int - c0 + 0x1_0000_0000_0000_0000) % 0x1_0000_0000_0000_0000
                == n as int);
        }
        self.cpu.bus.ppu.screen.complete = false;
        true
    }
}

} // verus!
