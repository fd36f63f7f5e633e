use vstd::prelude::*;

verus! {

/// First CPU address of the trace window.
pub const LOG_START: u16 = 0x6000;

/// Size of the trace window in bytes.
pub const LOG_SIZE: usize = 0x1000;

/// A 4 KiB window at 0x6000..=0x6FFF that captures what the CPU writes there.
pub struct Logger {
    pub bytes: Vec<u8>,
}

impl Logger {
    pub open spec fn wf(&self) -> bool {
        self.bytes@.len() == LOG_SIZE
    }

    pub fn new() -> (r: Logger)
        ensures
            r.wf(),
            forall|i: int| 0 <= i < LOG_SIZE ==> r.bytes@[i] == 0,
    {
        Logger { bytes: vec![0u8; LOG_SIZE] }
    }

    /// Stores `data` at `addr - 0x6000`; addresses outside the window are dropped.
    pub fn cpu_write(&mut self, addr: u16, data: u8)
        requires
            old(self).wf(),
        ensures
            final(self).wf(),
            LOG_START <= addr < LOG_START + LOG_SIZE ==> final(self).bytes@ == old(self).bytes@.update(
                addr - LOG_START,
                data,
            ),
            !(LOG_START <= addr < LOG_START + LOG_SIZE) ==> *final(self) == *old(self),
    {
        if addr >= LOG_START && addr - LOG_START < 0x1000 {
            let i: usize = (addr - LOG_START) as usize;
            self.bytes.set(i, data);
        }
    }

    /// The window cannot be read back by the CPU.
    pub fn cpu_read(&self, addr: u16) -> (r: u8)
        ensures
            r == 0,
    {
        0
    }
}

} // verus!
