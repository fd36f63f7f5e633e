use vstd::prelude::*;

verus! {

/// Bit of the input mask for each button, as the hardware shifts them out.
pub const BUTTON_A: u8 = 0x80;
pub const BUTTON_B: u8 = 0x40;
pub const BUTTON_SELECT: u8 = 0x20;
pub const BUTTON_START: u8 = 0x10;
pub const BUTTON_UP: u8 = 0x08;
pub const BUTTON_DOWN: u8 = 0x04;
pub const BUTTON_LEFT: u8 = 0x02;
pub const BUTTON_RIGHT: u8 = 0x01;

/// A parallel-to-serial shift latch for one controller port.
pub struct Controller {
    /// Buttons currently held, written by the host.
    pub input: u8,
    /// The shift register read out by the CPU.
    pub state: u8,
    /// Port number: 0 answers at 0x4016, any other at 0x4017.
    pub num: u16,
}

impl Controller {
    pub fn new(num: u16) -> (r: Controller)
        ensures
            r.input == 0,
            r.state == 0,
            r.num == num,
    {
        Controller { input: 0, state: 0, num }
    }

    /// The inclusive CPU address range of this port.
    pub fn addr_range(&self) -> (r: (u16, u16))
        ensures
            r == (if self.num == 0 { (0x4016u16, 0x4016u16) } else { (0x4017u16, 0x4017u16) }),
    {
        if self.num == 0 {
            (0x4016, 0x4016)
        } else {
            (0x4017, 0x4017)
        }
    }

    /// Any write latches the current input mask into the shift register.
    pub fn cpu_write(&mut self, addr: u16, data: u8)
        ensures
            *final(self) == (Controller { state: old(self).input, ..*old(self) }),
    {
        self.state = self.input;
    }

    /// A read returns bit 7 of the shift register, then shifts it left by one.
    pub fn cpu_read(&mut self, addr: u16) -> (r: u8)
        ensures
            r == old(self).state / 0x80,
            *final(self) == (Controller { state: ((old(self).state as int * 2) % 0x100) as u8, ..*old(self) }),
    {
        let data: u8 = self.state / 0x80;
        self.state = ((self.state as u16 * 2) % 0x100) as u8;
        data
    }
}

} // verus!
