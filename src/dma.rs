use vstd::prelude::*;

verus! {

/// What the DMA engine asks of the bus on one of its cycles.
#[derive(Clone, Copy, Debug, PartialEq, Eq, Structural)]
pub enum DmaStep {
    /// An idle cycle.
    Wait,
    /// Read the CPU bus at this address into the data latch.
    Read(u16),
    /// Write the data latch to this byte of object attribute memory.
    Write(u8, u8),
}

/// The sprite DMA engine: a write of page `p` to 0x4014 copies CPU memory
/// `p * 0x100 ..= p * 0x100 + 0xFF` into object attribute memory.
#[derive(Clone, Copy, Debug, PartialEq, Eq, Structural)]
pub struct DmaDevice {
    pub page: u8,
    pub addr: u8,
    pub data: u8,
    /// Set while the engine waits to line up with an even cycle.
    pub flag: bool,
    /// Set while a transfer runs; the CPU is halted meanwhile.
    pub transfer: bool,
}

impl DmaDevice {
    pub open spec fn idle() -> DmaDevice {
        DmaDevice { page: 0, addr: 0, data: 0, flag: true, transfer: false }
    }

    pub fn new() -> (r: DmaDevice)
        ensures
            r == DmaDevice::idle(),
    {
        DmaDevice { page: 0, addr: 0, data: 0, flag: true, transfer: false }
    }

    pub fn reset(&mut self)
        ensures
            *final(self) == DmaDevice::idle(),
    {
        *self = DmaDevice::new();
    }

    /// A write to 0x4014 latches the page and starts a transfer.
    pub fn cpu_write(&mut self, addr: u16, data: u8)
        ensures
            *final(self) == (DmaDevice { page: data, addr: 0, transfer: true, ..*old(self) }),
    {
        self.page = data;
        self.addr = 0;
        self.transfer = true;
    }

    pub fn cpu_read(&self, addr: u16) -> (r: u8)
        ensures
            r == 0,
    {
        0
    }

    /// One DMA cycle at master clock `clock`: wait for an odd clock to line
    /// up, then read on even clocks and write on odd ones; after the 256th
    /// write the transfer ends.
    pub fn clock(&mut self, clock: u64) -> (r: DmaStep)
        ensures
            old(self).flag ==> r == DmaStep::Wait && *final(self) == (DmaDevice {
                flag: clock % 2 == 0,
                ..*old(self)
            }),
            !old(self).flag && clock % 2 == 0 ==> r == DmaStep::Read(
                (old(self).page as int * 256 + old(self).addr as int) as u16,
            ) && *final(self) == *old(self),
            !old(self).flag && clock % 2 == 1 ==> {
                let next = ((old(self).addr as int + 1) % 256) as u8;
                &&& r == DmaStep::Write(old(self).addr, old(self).data)
                &&& *final(self) == (DmaDevice {
                    addr: next,
                    transfer: next != 0 && old(self).transfer,
                    flag: next == 0,
                    ..*old(self)
                })
            },
    {
        if self.flag {
            if clock % 2 == 1 {
                self.flag = false;
            }
            DmaStep::Wait
        } else if clock % 2 == 0 {
            DmaStep::Read(self.page as u16 * 256 + self.addr as u16)
        } else {
            let step = DmaStep::Write(self.addr, self.data);
            self.addr = self.addr.wrapping_add(1);
            if self.addr == 0 {
                self.transfer = false;
                self.flag = true;
            }
            step
        }
    }

    /// Stores what a `Read` step fetched.
    pub fn latch(&mut self, data: u8)
        ensures
            *final(self) == (DmaDevice { data, ..*old(self) }),
    {
        self.data = data;
    }
}

} // verus!
