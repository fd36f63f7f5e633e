use vstd::prelude::*;

verus! {

/// Size of the internal work RAM in bytes.
pub const RAM_SIZE: usize = 0x800;

/// The slot of the 2 KiB buffer that a CPU address reaches: `addr AND 0x07FF`.
pub open spec fn ram_slot(addr: u16) -> int {
    addr as int % 0x800
}

/// 2 KiB of internal memory, mirrored across 0x0000..=0x1FFF.
pub struct Ram {
    pub bytes: Vec<u8>,
}

impl Ram {
    pub open spec fn wf(&self) -> bool {
        self.bytes@.len() == RAM_SIZE
    }

    pub fn new() -> (r: Ram)
        ensures
            r.wf(),
            forall|i: int| 0 <= i < RAM_SIZE ==> r.bytes@[i] == 0,
    {
        Ram { bytes: vec![0u8; RAM_SIZE] }
    }

    pub fn cpu_write(&mut self, addr: u16, data: u8)
        requires
            old(self).wf(),
        ensures
            final(self).bytes@ == old(self).bytes@.update(ram_slot(addr), data),
    {
        let i: usize = (addr % 0x800) as usize;
        self.bytes.set(i, data);
    }

    pub fn cpu_read(&self, addr: u16) -> (r: u8)
        requires
            self.wf(),
        ensures
            r == self.bytes@[ram_slot(addr)],
    {
        let i: usize = (addr % 0x800) as usize;
        self.bytes[i]
    }
}

} // verus!
