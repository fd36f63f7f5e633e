use vstd::prelude::*;

use crate::cartridge::Cartridge;
use crate::controller::Controller;
use crate::dma::{DmaDevice, DmaStep};
use crate::logger::{Logger, LOG_SIZE, LOG_START};
use crate::ppu::Ppu;
use crate::ram::{ram_slot, Ram};

verus! {

/// The devices that answer on the CPU bus.
#[derive(Clone, Copy, Debug, PartialEq, Eq, Structural)]
pub enum CpuBusDevice {
    Ram,
    Cartridge,
    Ppu,
    Dma,
    Controller0,
    Controller1,
    Logger,
}

/// The inclusive CPU address range each device decodes.
pub open spec fn device_range(d: CpuBusDevice) -> (u16, u16) {
    match d {
        CpuBusDevice::Ram => (0x0000, 0x1FFF),
        CpuBusDevice::Cartridge => (0x8000, 0xFFFF),
        CpuBusDevice::Ppu => (0x2000, 0x3FFF),
        CpuBusDevice::Dma => (0x4014, 0x4014),
        CpuBusDevice::Controller0 => (0x4016, 0x4016),
        CpuBusDevice::Controller1 => (0x4017, 0x4017),
        CpuBusDevice::Logger => (0x6000, 0x6FFF),
    }
}

/// A device and the inclusive address range it was connected with.
#[derive(Clone, Copy, Debug, PartialEq, Eq, Structural)]
pub struct DeviceConnection {
    pub device: CpuBusDevice,
    pub start: u16,
    pub end: u16,
}

pub open spec fn covers(c: DeviceConnection, addr: u16) -> bool {
    c.start <= addr <= c.end
}

/// The console's connections, in order: RAM, cartridge, trace window, PPU
/// registers, DMA, then the two controller ports, each with its own range.
pub open spec fn standard_connections() -> Seq<DeviceConnection> {
    seq![
        DeviceConnection { device: CpuBusDevice::Ram, start: 0x0000, end: 0x1FFF },
        DeviceConnection { device: CpuBusDevice::Cartridge, start: 0x8000, end: 0xFFFF },
        DeviceConnection { device: CpuBusDevice::Logger, start: 0x6000, end: 0x6FFF },
        DeviceConnection { device: CpuBusDevice::Ppu, start: 0x2000, end: 0x3FFF },
        DeviceConnection { device: CpuBusDevice::Dma, start: 0x4014, end: 0x4014 },
        DeviceConnection { device: CpuBusDevice::Controller0, start: 0x4016, end: 0x4016 },
        DeviceConnection { device: CpuBusDevice::Controller1, start: 0x4017, end: 0x4017 },
    ]
}

/// On the console's wiring, every address from 0x8000 up reaches the
/// cartridge, and reading it disturbs nothing.
pub proof fn lemma_standard_cartridge(b: Bus, a: u16)
    requires
        b.connections@ == standard_connections(),
        a >= 0x8000,
    ensures
        b.device_at(a) == Some(CpuBusDevice::Cartridge),
        b.quiet(a),
        b.read_value(a) == b.ppu.cartridge.prg_read(a),
{
    assert(b.routes(a, 1));
    assert forall|i: int| b.routes(a, i) implies i == 1 by {
        if i > 1 {
            assert(covers(b.connections@[1], a));
        }
    }
}

/// The CPU bus: the devices, held by value, and the connections that route
/// an address to the first device whose range holds it.
pub struct Bus {
    pub connections: Vec<DeviceConnection>,
    pub ram: Ram,
    pub ppu: Ppu,
    pub dma: DmaDevice,
    pub controller0: Controller,
    pub controller1: Controller,
    pub logger: Logger,
}

impl Bus {
    pub open spec fn wf(&self) -> bool {
        self.ram.wf() && self.ppu.wf() && self.logger.wf()
    }

    /// Connection `i` is the first one whose range holds `addr`.
    pub open spec fn routes(&self, addr: u16, i: int) -> bool {
        &&& 0 <= i < self.connections@.len()
        &&& covers(self.connections@[i], addr)
        &&& forall|j: int| 0 <= j < i ==> !covers(#[trigger] self.connections@[j], addr)
    }

    pub open spec fn unmapped(&self, addr: u16) -> bool {
        forall|j: int|
            0 <= j < self.connections@.len() ==> !covers(#[trigger] self.connections@[j], addr)
    }

    /// The device that answers at `addr`, if any.
    pub open spec fn device_at(&self, addr: u16) -> Option<CpuBusDevice> {
        if exists|i: int| self.routes(addr, i) {
            Some(self.connections@[choose|i: int| self.routes(addr, i)].device)
        } else {
            None
        }
    }

    /// What device `d` answers to a read at `addr`.
    pub open spec fn device_value(&self, d: CpuBusDevice, addr: u16) -> u8 {
        match d {
            CpuBusDevice::Ram => self.ram.bytes@[ram_slot(addr)],
            CpuBusDevice::Cartridge => self.ppu.cartridge.prg_read(addr),
            CpuBusDevice::Ppu => self.ppu.reg_read_value(addr),
            CpuBusDevice::Controller0 => self.controller0.state / 0x80,
            CpuBusDevice::Controller1 => self.controller1.state / 0x80,
            _ => 0,
        }
    }

    /// `new` is this bus after device `d` answered a read at `addr`: PPU
    /// registers and controllers change, the other devices do not.
    pub open spec fn device_read(&self, new: Bus, d: CpuBusDevice, addr: u16) -> bool {
        match d {
            CpuBusDevice::Ppu => new == (Bus { ppu: new.ppu, ..*self }) && self.ppu.reg_read(
                new.ppu,
                addr,
            ),
            CpuBusDevice::Controller0 => new == Bus {
                controller0: Controller {
                    state: ((self.controller0.state as int * 2) % 0x100) as u8,
                    ..self.controller0
                },
                ..*self
            },
            CpuBusDevice::Controller1 => new == Bus {
                controller1: Controller {
                    state: ((self.controller1.state as int * 2) % 0x100) as u8,
                    ..self.controller1
                },
                ..*self
            },
            _ => new == *self,
        }
    }

    /// `new` is this bus after device `d` took a write of `data` at `addr`.
    pub open spec fn device_write(&self, new: Bus, d: CpuBusDevice, addr: u16, data: u8) -> bool {
        match d {
            CpuBusDevice::Ram => new == (Bus { ram: new.ram, ..*self }) && new.ram.bytes@
                == self.ram.bytes@.update(ram_slot(addr), data),
            CpuBusDevice::Cartridge => if addr >= 0x8000 {
                new == Bus {
                    ppu: Ppu {
                        cartridge: Cartridge {
                            mapper: self.ppu.cartridge.mapper.after_write(data),
                            ..self.ppu.cartridge
                        },
                        ..self.ppu
                    },
                    ..*self
                }
            } else {
                new == *self
            },
            CpuBusDevice::Ppu => new == (Bus { ppu: new.ppu, ..*self }) && self.ppu.reg_written(
                new.ppu,
                addr,
                data,
            ),
            CpuBusDevice::Dma => new == Bus {
                dma: DmaDevice { page: data, addr: 0, transfer: true, ..self.dma },
                ..*self
            },
            CpuBusDevice::Controller0 => new == Bus {
                controller0: Controller { state: self.controller0.input, ..self.controller0 },
                ..*self
            },
            CpuBusDevice::Controller1 => new == Bus {
                controller1: Controller { state: self.controller1.input, ..self.controller1 },
                ..*self
            },
            CpuBusDevice::Logger => if LOG_START <= addr < LOG_START + LOG_SIZE {
                new == (Bus { logger: new.logger, ..*self }) && new.logger.bytes@
                    == self.logger.bytes@.update(addr - LOG_START, data)
            } else {
                new == *self
            },
        }
    }

    /// What a CPU read at `addr` returns: the answer of the first device
    /// whose range holds it, 0 where none does.
    pub open spec fn read_value(&self, addr: u16) -> u8 {
        match self.device_at(addr) {
            Some(d) => self.device_value(d, addr),
            None => 0,
        }
    }

    /// `new` is this bus after a CPU read at `addr`.
    pub open spec fn read_effect(&self, new: Bus, addr: u16) -> bool {
        match self.device_at(addr) {
            Some(d) => self.device_read(new, d, addr),
            None => new == *self,
        }
    }

    /// `new` is this bus after a CPU write of `data` at `addr`.
    pub open spec fn write_effect(&self, new: Bus, addr: u16, data: u8) -> bool {
        match self.device_at(addr) {
            Some(d) => self.device_write(new, d, addr, data),
            None => new == *self,
        }
    }

    /// What CPU accesses leave alone: the connections, and the PPU's place in
    /// the frame, its NMI line and its picture.
    pub open spec fn keeps_layout(&self, new: Bus) -> bool {
        &&& new.connections == self.connections
        &&& new.ppu.scanline == self.ppu.scanline
        &&& new.ppu.cycle == self.ppu.cycle
        &&& new.ppu.odd_frame == self.ppu.odd_frame
        &&& new.ppu.nmi == self.ppu.nmi
        &&& new.ppu.screen == self.ppu.screen
    }

    /// Whether a read at `addr` leaves every device as it was.
    pub open spec fn quiet(&self, addr: u16) -> bool {
        match self.device_at(addr) {
            Some(CpuBusDevice::Ppu) => false,
            Some(CpuBusDevice::Controller0) => false,
            Some(CpuBusDevice::Controller1) => false,
            _ => true,
        }
    }

    /// A bus with fresh devices and nothing connected yet.
    pub fn new() -> (r: Bus)
        ensures
            r.wf(),
            r.connections@.len() == 0,
            r.dma == DmaDevice::idle(),
            forall|i: int| 0 <= i < crate::ram::RAM_SIZE ==> r.ram.bytes@[i] == 0,
            forall|i: int| 0 <= i < crate::logger::LOG_SIZE ==> r.logger.bytes@[i] == 0,
            r.controller0 == (Controller { input: 0, state: 0, num: 0 }),
            r.controller1 == (Controller { input: 0, state: 0, num: 1 }),
            r.ppu.scanline == 0 && r.ppu.cycle == 0 && !r.ppu.nmi,
            r.ppu.cartridge.prg_rom@.len() == 0 && r.ppu.cartridge.chr_rom@.len() == 0,
    {
        Bus {
            connections: Vec::new(),
            ram: Ram::new(),
            ppu: Ppu::new(Cartridge::new()),
            dma: DmaDevice::new(),
            controller0: Controller::new(0),
            controller1: Controller::new(1),
            logger: Logger::new(),
        }
    }

    /// Connects `device` with its own address range, after the connections made so far.
    pub fn connect(&mut self, device: CpuBusDevice)
        ensures
            *final(self) == (Bus { connections: final(self).connections, ..*old(self) }),
            final(self).connections@ == old(self).connections@.push(
                DeviceConnection {
                    device,
                    start: device_range(device).0,
                    end: device_range(device).1,
                },
            ),
    {
        let (start, end): (u16, u16) = match device {
            CpuBusDevice::Ram => (0x0000, 0x1FFF),
            CpuBusDevice::Cartridge => (0x8000, 0xFFFF),
            CpuBusDevice::Ppu => (0x2000, 0x3FFF),
            CpuBusDevice::Dma => (0x4014, 0x4014),
            CpuBusDevice::Controller0 => (0x4016, 0x4016),
            CpuBusDevice::Controller1 => (0x4017, 0x4017),
            CpuBusDevice::Logger => (0x6000, 0x6FFF),
        };
        self.connections.push(DeviceConnection { device, start, end });
    }

    /// Index of the connection that answers at `addr`; the number of
    /// connections when none does.
    fn route(&self, addr: u16) -> (r: usize)
        ensures
            r <= self.connections@.len(),
            r < self.connections@.len() ==> self.routes(addr, r as int) && self.device_at(addr)
                == Some(self.connections@[r as int].device),
            r == self.connections@.len() ==> self.unmapped(addr) && self.device_at(addr) is None,
    {
        let mut i: usize = 0;
        while i < self.connections.len()
            invariant
                i <= self.connections@.len(),
                forall|j: int| 0 <= j < i ==> !covers(#[trigger] self.connections@[j], addr),
            decreases self.connections@.len() - i,
        {
            let c = self.connections[i];
            if c.start <= addr && addr <= c.end {
                proof {
                    assert(self.routes(addr, i as int));
                    assert forall|k: int| self.routes(addr, k) implies k == i by {
                        if k < i {
                            assert(!covers(self.connections@[k], addr));
                        } else if k > i {
                            assert(!covers(self.connections@[i as int], addr));
                        }
                    }
                }
                return i;
            }
            i = i + 1;
        }
        i
    }

    pub fn cpu_read(&mut self, addr: u16) -> (r: u8)
        requires
            old(self).wf(),
        ensures
            final(self).wf(),
            r == old(self).read_value(addr),
            old(self).read_effect(*final(self), addr),
            final(self).ppu.cartridge == old(self).ppu.cartridge,
            final(self).ppu.nmi == old(self).ppu.nmi,
            final(self).connections == old(self).connections,
            old(self).keeps_layout(*final(self)),
    {
        let i = self.route(addr);
        if i == self.connections.len() {
            return 0;
        }
        match self.connections[i].device {
            CpuBusDevice::Ram => self.ram.cpu_read(addr),
            CpuBusDevice::Cartridge => self.ppu.cartridge.cpu_read(addr),
            CpuBusDevice::Ppu => self.ppu.cpu_read(addr),
            CpuBusDevice::Dma => self.dma.cpu_read(addr),
            CpuBusDevice::Controller0 => self.controller0.cpu_read(addr),
            CpuBusDevice::Controller1 => self.controller1.cpu_read(addr),
            CpuBusDevice::Logger => self.logger.cpu_read(addr),
        }
    }

    pub fn cpu_write(&mut self, addr: u16, data: u8)
        requires
            old(self).wf(),
        ensures
            final(self).wf(),
            old(self).write_effect(*final(self), addr, data),
            old(self).keeps_layout(*final(self)),
    {
        let i = self.route(addr);
        if i == self.connections.len() {
            return ;
        }
        match self.connections[i].device {
            CpuBusDevice::Ram => self.ram.cpu_write(addr, data),
            CpuBusDevice::Cartridge => self.ppu.cartridge.cpu_write(addr, data),
            CpuBusDevice::Ppu => self.ppu.cpu_write(addr, data),
            CpuBusDevice::Dma => self.dma.cpu_write(addr, data),
            CpuBusDevice::Controller0 => self.controller0.cpu_write(addr, data),
            CpuBusDevice::Controller1 => self.controller1.cpu_write(addr, data),
            CpuBusDevice::Logger => self.logger.cpu_write(addr, data),
        }
    }

    /// `new` is this bus after one DMA cycle at master clock `clock`: while
    /// lining up, an odd clock ends the wait; then even clocks read the
    /// next byte of the page into the latch, odd clocks write it to OAM
    /// and step the address, ending the transfer after the 256th byte.
    #[verifier::opaque]
    pub open spec fn dma_stepped(&self, new: Bus, clock: u64) -> bool {
        &&& new.wf()
        &&& self.keeps_layout(new)
        &&& self.dma.flag ==> new == (Bus {
            dma: DmaDevice { flag: clock % 2 == 0, ..self.dma },
            ..*self
        })
        &&& !self.dma.flag && clock % 2 == 0 ==> {
            let a = (self.dma.page as int * 256 + self.dma.addr as int) as u16;
            &&& new.dma == DmaDevice { data: self.read_value(a), ..self.dma }
            &&& self.read_effect(Bus { dma: self.dma, ..new }, a)
        }
        &&& !self.dma.flag && clock % 2 == 1 ==> {
            let next = ((self.dma.addr as int + 1) % 256) as u8;
            &&& new.dma == DmaDevice {
                addr: next,
                transfer: next != 0 && self.dma.transfer,
                flag: next == 0,
                ..self.dma
            }
            &&& new.ppu == (Ppu { oam_mem: new.ppu.oam_mem, ..self.ppu })
            &&& new.ppu.oam_mem@ == self.ppu.oam_written(
                self.dma.addr,
                self.dma.data,
            )
            &&& new == (Bus { dma: new.dma, ppu: new.ppu, ..*self })
        }
    }

    /// Runs one DMA cycle at master clock `clock` against this bus.
    pub fn dma_clock(&mut self, clock: u64)
        requires
            old(self).wf(),
        ensures
            old(self).dma_stepped(*final(self), clock),
            final(self).wf(),
            old(self).keeps_layout(*final(self)),
    {
        reveal(Bus::dma_stepped);
        match self.dma.clock(clock) {
            DmaStep::Wait => {},
            DmaStep::Read(a) => {
                let ghost before = *self;
                let v = self.cpu_read(a);
                proof {
                    assert(before.device_at(a) == old(self).device_at(a));
                }
                self.dma.latch(v);
            },
            DmaStep::Write(a, d) => {
                self.ppu.write_oam(a, d);
            },
        }
    }
}

} // verus!
