use vstd::prelude::*;

use crate::bus::Bus;
use crate::instructions::{decode, instruction_lookup, AddressingMode, Instruction, Opcode};

verus! {

/// The 16-bit word with high byte `hi` and low byte `lo`.
pub open spec fn word(hi: u8, lo: u8) -> u16 {
    (hi as int * 256 + lo as int) as u16
}

pub fn to_u16(hi: u8, lo: u8) -> (r: u16)
    ensures
        r == word(hi, lo),
{
    hi as u16 * 256 + lo as u16
}

/// `a + d` on 16-bit addresses, wrapping around.
pub open spec fn add16(a: u16, d: int) -> u16 {
    ((a as int + d) % 0x10000) as u16
}

/// Where a taken branch at `pc` (just past its operand) with offset byte `off` lands.
pub open spec fn rel_target(pc: u16, off: u8) -> u16 {
    add16(pc, if off >= 128 { off as int - 256 } else { off as int })
}

/// The processor status flags.
#[allow(non_snake_case)]
#[derive(Clone, Copy, Debug, PartialEq, Eq, Structural)]
pub struct Flags {
    /// Carry.
    pub C: bool,
    /// Zero.
    pub Z: bool,
    /// Interrupt disable.
    pub I: bool,
    /// Decimal mode.
    pub D: bool,
    /// Break.
    pub B: bool,
    /// Unused; set whenever the flags are pushed.
    pub U: bool,
    /// Overflow.
    pub O: bool,
    /// Negative.
    pub N: bool,
}

pub open spec fn bit_val(b: bool, v: int) -> int {
    if b {
        v
    } else {
        0
    }
}

impl Flags {
    /// The flags as a byte, C in bit 0 up to N in bit 7.
    pub open spec fn byte(&self) -> u8 {
        (bit_val(self.C, 1) + bit_val(self.Z, 2) + bit_val(self.I, 4) + bit_val(self.D, 8)
            + bit_val(self.B, 16) + bit_val(self.U, 32) + bit_val(self.O, 64) + bit_val(
            self.N,
            128,
        )) as u8
    }

    /// These flags after restoring from byte `b`: bits 4 and 5 are ignored.
    pub open spec fn with_byte(&self, b: u8) -> Flags {
        Flags {
            C: b % 2 == 1,
            Z: (b / 2) % 2 == 1,
            I: (b / 4) % 2 == 1,
            D: (b / 8) % 2 == 1,
            O: (b / 64) % 2 == 1,
            N: b / 128 == 1,
            ..*self
        }
    }

    /// These flags with Z and N set from `v`.
    pub open spec fn with_zn(&self, v: u8) -> Flags {
        Flags { Z: v == 0, N: v >= 0x80, ..*self }
    }

    pub fn new() -> (r: Flags)
        ensures
            r.byte() == 0,
            r == (Flags { C: false, Z: false, I: false, D: false, B: false, U: false, O: false, N: false }),
    {
        Flags { C: false, Z: false, I: false, D: false, B: false, U: false, O: false, N: false }
    }

    pub fn set_zn(&mut self, v: u8)
        ensures
            *final(self) == old(self).with_zn(v),
    {
        self.Z = v == 0;
        self.N = v >= 0x80;
    }

    pub fn to_byte(&self) -> (r: u8)
        ensures
            r == self.byte(),
    {
        let c: u8 = if self.C { 1 } else { 0 };
        let z: u8 = if self.Z { 2 } else { 0 };
        let i: u8 = if self.I { 4 } else { 0 };
        let d: u8 = if self.D { 8 } else { 0 };
        let b: u8 = if self.B { 16 } else { 0 };
        let u: u8 = if self.U { 32 } else { 0 };
        let o: u8 = if self.O { 64 } else { 0 };
        let n: u8 = if self.N { 128 } else { 0 };
        c + z + i + d + b + u + o + n
    }

    pub fn set_byte(&mut self, b: u8)
        ensures
            *final(self) == old(self).with_byte(b),
    {
        self.C = b % 2 == 1;
        self.Z = (b / 2) % 2 == 1;
        self.I = (b / 4) % 2 == 1;
        self.D = (b / 8) % 2 == 1;
        self.O = (b / 64) % 2 == 1;
        self.N = b / 128 == 1;
    }
}

/// Restoring flags from the byte of `f` gives `f` back, but for bits 4 and
/// 5 (B and U), which keep what they were.
pub proof fn lemma_flags_round_trip(f: Flags, prior: Flags)
    ensures
        prior.with_byte(f.byte()) == (Flags { B: prior.B, U: prior.U, ..f }),
{
    let b = f.byte() as int;
    assert(b == bit_val(f.C, 1) + bit_val(f.Z, 2) + bit_val(f.I, 4) + bit_val(f.D, 8) + bit_val(f.B, 16)
        + bit_val(f.U, 32) + bit_val(f.O, 64) + bit_val(f.N, 128));
    assert(b % 2 == bit_val(f.C, 1));
    assert((b / 2) % 2 == bit_val(f.Z, 1));
    assert((b / 4) % 2 == bit_val(f.I, 1));
    assert((b / 8) % 2 == bit_val(f.D, 1));
    assert((b / 64) % 2 == bit_val(f.O, 1));
    assert(b / 128 == bit_val(f.N, 1));
}

/// Bytes of operand that follow the opcode in each addressing mode.
pub open spec fn operand_len(mode: AddressingMode) -> int {
    match mode {
        AddressingMode::ABS | AddressingMode::ABX | AddressingMode::ABY | AddressingMode::IND => 2,
        AddressingMode::IMP | AddressingMode::ACC => 0,
        _ => 1,
    }
}

/// Whether `ins` may take one more cycle when its operand address crosses a page.
pub open spec fn page_penalty(ins: Instruction) -> bool {
    ins.mode == AddressingMode::IZY || ((ins.mode == AddressingMode::ABX || ins.mode
        == AddressingMode::ABY) && ins.opcode != Opcode::STA)
}

pub open spec fn is_branch(op: Opcode) -> bool {
    match op {
        Opcode::BCC | Opcode::BCS | Opcode::BEQ | Opcode::BNE | Opcode::BMI | Opcode::BPL
        | Opcode::BVC | Opcode::BVS => true,
        _ => false,
    }
}

/// Whether branch `op` is taken under flags `f`.
pub open spec fn branch_taken(op: Opcode, f: Flags) -> bool {
    match op {
        Opcode::BCC => !f.C,
        Opcode::BCS => f.C,
        Opcode::BEQ => f.Z,
        Opcode::BNE => !f.Z,
        Opcode::BMI => f.N,
        Opcode::BPL => !f.N,
        Opcode::BVC => !f.O,
        Opcode::BVS => f.O,
        _ => false,
    }
}

/// Add with carry: the sum, the carry out, and signed overflow
/// (`~(A ^ M) & (A ^ R) & 0x80`).
pub open spec fn adc(a: u8, m: u8, carry: bool) -> (u8, bool, bool) {
    let sum = a as int + m as int + bit_val(carry, 1);
    let r = (sum % 256) as u8;
    (r, sum > 255, (!(a ^ m) & (a ^ r) & 0x80u8) != 0)
}

/// The registers (A, X, Y, SP, flags) of `c` after an instruction that
/// works on registers and flags alone.
pub open spec fn register_op(op: Opcode, c: Cpu) -> Option<(u8, u8, u8, u8, Flags)> {
    let f = c.flags;
    let (a, x, y, sp) = (c.A, c.X, c.Y, c.SP);
    match op {
        Opcode::TAX => Some((a, a, y, sp, f.with_zn(a))),
        Opcode::TAY => Some((a, x, a, sp, f.with_zn(a))),
        Opcode::TXA => Some((x, x, y, sp, f.with_zn(x))),
        Opcode::TYA => Some((y, x, y, sp, f.with_zn(y))),
        Opcode::TSX => Some((a, sp, y, sp, f.with_zn(sp))),
        Opcode::TXS => Some((a, x, y, x, f)),
        Opcode::INX => Some((a, ((x + 1) % 256) as u8, y, sp, f.with_zn(((x + 1) % 256) as u8))),
        Opcode::INY => Some((a, x, ((y + 1) % 256) as u8, sp, f.with_zn(((y + 1) % 256) as u8))),
        Opcode::DEX => Some((a, ((x + 255) % 256) as u8, y, sp, f.with_zn(((x + 255) % 256) as u8))),
        Opcode::DEY => Some((a, x, ((y + 255) % 256) as u8, sp, f.with_zn(((y + 255) % 256) as u8))),
        Opcode::CLC => Some((a, x, y, sp, Flags { C: false, ..f })),
        Opcode::SEC => Some((a, x, y, sp, Flags { C: true, ..f })),
        Opcode::CLD => Some((a, x, y, sp, Flags { D: false, ..f })),
        Opcode::SED => Some((a, x, y, sp, Flags { D: true, ..f })),
        Opcode::CLI => Some((a, x, y, sp, Flags { I: false, ..f })),
        Opcode::SEI => Some((a, x, y, sp, Flags { I: true, ..f })),
        Opcode::CLV => Some((a, x, y, sp, Flags { O: false, ..f })),
        Opcode::NOP | Opcode::ERR => Some((a, x, y, sp, f)),
        _ => None,
    }
}

/// The CPU after an instruction that reads operand `m` into registers and flags.
pub open spec fn operand_op(op: Opcode, c: Cpu, m: u8) -> Option<Cpu> {
    let f = c.flags;
    match op {
        Opcode::LDA => Some(Cpu { A: m, flags: f.with_zn(m), ..c }),
        Opcode::LDX => Some(Cpu { X: m, flags: f.with_zn(m), ..c }),
        Opcode::LDY => Some(Cpu { Y: m, flags: f.with_zn(m), ..c }),
        Opcode::AND => Some(Cpu { A: c.A & m, flags: f.with_zn(c.A & m), ..c }),
        Opcode::ORA => Some(Cpu { A: c.A | m, flags: f.with_zn(c.A | m), ..c }),
        Opcode::EOR => Some(Cpu { A: c.A ^ m, flags: f.with_zn(c.A ^ m), ..c }),
        Opcode::ADC => {
            let (r, carry, over) = adc(c.A, m, f.C);
            Some(Cpu { A: r, flags: Flags { C: carry, O: over, ..f.with_zn(r) }, ..c })
        },
        Opcode::SBC => {
            let (r, carry, over) = adc(c.A, (255 - m) as u8, f.C);
            Some(Cpu { A: r, flags: Flags { C: carry, O: over, ..f.with_zn(r) }, ..c })
        },
        Opcode::CMP => Some(
            Cpu {
                flags: Flags { C: c.A >= m, ..f.with_zn(((c.A as int - m + 256) % 256) as u8) },
                ..c
            },
        ),
        Opcode::CPX => Some(
            Cpu {
                flags: Flags { C: c.X >= m, ..f.with_zn(((c.X as int - m + 256) % 256) as u8) },
                ..c
            },
        ),
        Opcode::CPY => Some(
            Cpu {
                flags: Flags { C: c.Y >= m, ..f.with_zn(((c.Y as int - m + 256) % 256) as u8) },
                ..c
            },
        ),
        Opcode::BIT => Some(
            Cpu { flags: Flags { Z: c.A & m == 0, O: (m / 64) % 2 == 1, N: m >= 128, ..f }, ..c },
        ),
        _ => None,
    }
}

/// ASL, LSR, ROL or ROR of `v` with carry in `c`: the result and the carry out.
pub open spec fn shift(op: Opcode, v: u8, c: bool) -> (u8, bool) {
    if op == Opcode::LSR || op == Opcode::ROR {
        (((v / 2) as int + bit_val(op == Opcode::ROR && c, 128)) as u8, v % 2 == 1)
    } else {
        ((((v as int * 2) % 256) + bit_val(op == Opcode::ROL && c, 1)) as u8, v >= 128)
    }
}

pub fn shift_value(op: Opcode, v: u8, c: bool) -> (r: (u8, bool))
    ensures
        r == shift(op, v, c),
{
    if matches!(op, Opcode::LSR) || matches!(op, Opcode::ROR) {
        let top: u8 = if matches!(op, Opcode::ROR) && c { 128 } else { 0 };
        (v / 2 + top, v % 2 == 1)
    } else {
        let low: u8 = if matches!(op, Opcode::ROL) && c { 1 } else { 0 };
        (((v as u16 * 2) % 256) as u8 + low, v >= 128)
    }
}

/// Addressing modes whose operand address this library states exactly.
pub open spec fn plain_mode(mode: AddressingMode) -> bool {
    mode == AddressingMode::IMM || mode == AddressingMode::ZP0 || mode == AddressingMode::ABS
        || mode == AddressingMode::IND
}

/// Whether reading the operand bytes at `c.PC` (and, for IND, the pointer)
/// disturbs no device.
pub open spec fn operand_quiet(c: Cpu, mode: AddressingMode) -> bool {
    let b = c.bus;
    let p = word(b.read_value(add16(c.PC, 1)), b.read_value(c.PC));
    let hi = if p % 256 == 0xFF {
        (p - 0xFF) as u16
    } else {
        (p + 1) as u16
    };
    match mode {
        AddressingMode::ZP0 => b.quiet(c.PC),
        AddressingMode::ABS => b.quiet(c.PC) && b.quiet(add16(c.PC, 1)),
        AddressingMode::IND => b.quiet(c.PC) && b.quiet(add16(c.PC, 1)) && b.quiet(p) && b.quiet(hi),
        _ => true,
    }
}

/// The operand address in a plain mode, for a CPU whose PC is at the operand:
/// the operand itself (IMM), a zero-page address (ZP0), a 16-bit address
/// (ABS), or the word a 16-bit pointer holds, its high byte from the same
/// page (IND).
pub open spec fn operand_addr(c: Cpu, mode: AddressingMode) -> u16 {
    let b = c.bus;
    let p = word(b.read_value(add16(c.PC, 1)), b.read_value(c.PC));
    let hi = if p % 256 == 0xFF {
        (p - 0xFF) as u16
    } else {
        (p + 1) as u16
    };
    match mode {
        AddressingMode::IMM => c.PC,
        AddressingMode::ZP0 => b.read_value(c.PC) as u16,
        AddressingMode::ABS => p,
        _ => word(b.read_value(hi), b.read_value(p)),
    }
}

pub open spec fn is_store(op: Opcode) -> bool {
    op == Opcode::STA || op == Opcode::STX || op == Opcode::STY
}

/// The register a store instruction writes.
pub open spec fn stored(op: Opcode, c: Cpu) -> u8 {
    if op == Opcode::STA {
        c.A
    } else if op == Opcode::STX {
        c.X
    } else {
        c.Y
    }
}

/// `new` is `c` after running `ins` in a plain mode with quiet operand bytes:
/// operand instructions read the operand, JMP jumps, stores write.
pub open spec fn plain_ran(c: Cpu, new: Cpu, ins: Instruction) -> bool {
    let a = operand_addr(c, ins.mode);
    let next = add16(c.PC, operand_len(ins.mode));
    let cycles = (ins.cycles - 1) as u8;
    &&& operand_op(ins.opcode, c, 0) is Some && c.bus.quiet(a) ==> new == Cpu {
        PC: next,
        cycles,
        ..operand_op(ins.opcode, c, c.bus.read_value(a))->0
    }
    &&& ins.opcode == Opcode::JMP ==> new == Cpu { PC: a, cycles, ..c }
    &&& is_store(ins.opcode) ==> new == (Cpu { bus: new.bus, PC: next, cycles, ..c })
        && c.bus.write_effect(new.bus, a, stored(ins.opcode, c))
}

/// Instructions that read an operand into registers and flags.
pub open spec fn reads_operand(op: Opcode) -> bool {
    match op {
        Opcode::LDA | Opcode::LDX | Opcode::LDY | Opcode::AND | Opcode::ORA | Opcode::EOR
        | Opcode::ADC | Opcode::SBC | Opcode::CMP | Opcode::CPX | Opcode::CPY | Opcode::BIT => true,
        _ => false,
    }
}

pub fn is_operand_op(op: Opcode) -> (r: bool)
    ensures
        r == reads_operand(op),
{
    matches!(op, Opcode::LDA) || matches!(op, Opcode::LDX) || matches!(op, Opcode::LDY)
        || matches!(op, Opcode::AND) || matches!(op, Opcode::ORA) || matches!(op, Opcode::EOR)
        || matches!(op, Opcode::ADC) || matches!(op, Opcode::SBC) || matches!(op, Opcode::CMP)
        || matches!(op, Opcode::CPX) || matches!(op, Opcode::CPY) || matches!(op, Opcode::BIT)
}

pub fn is_store_op(op: Opcode) -> (r: bool)
    ensures
        r == is_store(op),
{
    matches!(op, Opcode::STA) || matches!(op, Opcode::STX) || matches!(op, Opcode::STY)
}

/// The stack slot that stack pointer value `sp` (taken modulo 256) names.
pub open spec fn stack_addr(sp: int) -> u16 {
    (0x100 + sp % 256) as u16
}

/// The 6502-family CPU. It owns the bus, and through it every device.
#[allow(non_snake_case)]
pub struct Cpu {
    pub bus: Bus,
    pub PC: u16,
    pub SP: u8,
    pub A: u8,
    pub X: u8,
    pub Y: u8,
    pub flags: Flags,
    /// Cycles clocked since reset.
    pub total_cycles: usize,
    /// Cycles left of the current instruction.
    pub cycles: u8,
}

impl Cpu {
    pub open spec fn wf(&self) -> bool {
        self.bus.wf()
    }

    /// `new` differs from this CPU in the bus alone, and a read of `a` at
    /// `b` left that bus as it was if both are quiet.
    pub open spec fn reads_quietly(&self, new: Cpu, a: u16, b: u16) -> bool {
        self.bus.quiet(a) && self.bus.quiet(b) ==> new.bus == self.bus
    }

    pub fn new(bus: Bus) -> (r: Cpu)
        ensures
            r.bus == bus,
            r.PC == 0 && r.SP == 0 && r.A == 0 && r.X == 0 && r.Y == 0,
            r.flags.byte() == 0,
            r.total_cycles == 0,
            r.cycles == 0,
    {
        Cpu { bus, PC: 0, SP: 0, A: 0, X: 0, Y: 0, flags: Flags::new(), total_cycles: 0, cycles: 0 }
    }

    /// Reads the little-endian word at `v` and `v + 1` (wrapping), high byte first.
    fn read_from_location_u16(&mut self, v: u16) -> (r: u16)
        requires
            old(self).wf(),
        ensures
            final(self).wf(),
            final(self).bus.ppu.cartridge == old(self).bus.ppu.cartridge,
            *final(self) == (Cpu { bus: final(self).bus, ..*old(self) }),
            old(self).bus.keeps_layout(final(self).bus),
            old(self).reads_quietly(*final(self), v, add16(v, 1)),
            old(self).bus.quiet(v) && old(self).bus.quiet(add16(v, 1)) ==> r == word(
                old(self).bus.read_value(add16(v, 1)),
                old(self).bus.read_value(v),
            ),
    {
        let hi = self.bus.cpu_read(v.wrapping_add(1));
        let lo = self.bus.cpu_read(v);
        to_u16(hi, lo)
    }

    /// Reads the word at zero-page `v` and `v + 1`, wrapping within page zero.
    fn read_from_location(&mut self, v: u8) -> (r: u16)
        requires
            old(self).wf(),
        ensures
            final(self).wf(),
            *final(self) == (Cpu { bus: final(self).bus, ..*old(self) }),
            old(self).bus.keeps_layout(final(self).bus),
            old(self).reads_quietly(*final(self), v as u16, ((v as int + 1) % 256) as u16),
            old(self).bus.quiet(v as u16) && old(self).bus.quiet(((v as int + 1) % 256) as u16)
                ==> r == word(
                old(self).bus.read_value(((v as int + 1) % 256) as u16),
                old(self).bus.read_value(v as u16),
            ),
    {
        let hi = self.bus.cpu_read(v.wrapping_add(1) as u16);
        let lo = self.bus.cpu_read(v as u16);
        to_u16(hi, lo)
    }

    /// Pushes a byte: write at 0x0100 + SP, then SP decrements (within page 1).
    fn push(&mut self, v: u8)
        requires
            old(self).wf(),
        ensures
            final(self).wf(),
            *final(self) == (Cpu {
                bus: final(self).bus,
                SP: ((old(self).SP as int + 255) % 256) as u8,
                ..*old(self)
            }),
            old(self).bus.keeps_layout(final(self).bus),
            old(self).bus.write_effect(final(self).bus, (0x100 + old(self).SP) as u16, v),
    {
        self.bus.cpu_write(0x0100 + self.SP as u16, v);
        self.SP = self.SP.wrapping_sub(1);
    }

    /// Pops a byte: SP increments (within page 1), then read at 0x0100 + SP.
    fn pop(&mut self) -> (r: u8)
        requires
            old(self).wf(),
        ensures
            final(self).wf(),
            ({
                let sp = ((old(self).SP as int + 1) % 256) as u8;
                &&& *final(self) == (Cpu { bus: final(self).bus, SP: sp, ..*old(self) })
                &&& r == old(self).bus.read_value((0x100 + sp) as u16)
                &&& old(self).bus.read_effect(final(self).bus, (0x100 + sp) as u16)
            }),
            old(self).bus.keeps_layout(final(self).bus),
    {
        self.SP = self.SP.wrapping_add(1);
        self.bus.cpu_read(0x0100 + self.SP as u16)
    }

    /// Pushes a word, high byte first.
    fn push_u16(&mut self, v: u16)
        requires
            old(self).wf(),
        ensures
            final(self).wf(),
            *final(self) == (Cpu {
                bus: final(self).bus,
                SP: ((old(self).SP as int + 254) % 256) as u8,
                ..*old(self)
            }),
            old(self).bus.keeps_layout(final(self).bus),
    {
        self.push((v / 256) as u8);
        self.push((v % 256) as u8);
    }

    /// Pops a word, low byte first.
    fn pop_u16(&mut self) -> (r: u16)
        requires
            old(self).wf(),
        ensures
            final(self).wf(),
            *final(self) == (Cpu {
                bus: final(self).bus,
                SP: ((old(self).SP as int + 2) % 256) as u8,
                ..*old(self)
            }),
            old(self).bus.keeps_layout(final(self).bus),
    {
        let lo = self.pop();
        let hi = self.pop();
        to_u16(hi, lo)
    }

    /// Pushes the flags with B and U set.
    fn push_flags(&mut self)
        requires
            old(self).wf(),
        ensures
            final(self).wf(),
            *final(self) == (Cpu {
                bus: final(self).bus,
                SP: ((old(self).SP as int + 255) % 256) as u8,
                ..*old(self)
            }),
            old(self).bus.keeps_layout(final(self).bus),
            old(self).bus.write_effect(
                final(self).bus,
                (0x100 + old(self).SP) as u16,
                Flags { B: true, U: true, ..old(self).flags }.byte(),
            ),
    {
        let mut f = self.flags;
        f.B = true;
        f.U = true;
        let st = f.to_byte();
        self.push(st);
    }

    /// Puts the CPU in its reset state: PC from the vector at 0xFFFC,
    /// SP = 0xFD, flags I and U only, A = X = Y = 0, seven cycles to wait.
    pub fn reset(&mut self)
        requires
            old(self).wf(),
        ensures
            final(self).wf(),
            old(self).bus.keeps_layout(final(self).bus),
            old(self).reads_quietly(*final(self), 0xFFFC, 0xFFFD),
            old(self).bus.quiet(0xFFFC) && old(self).bus.quiet(0xFFFD) ==> final(self).PC == word(
                old(self).bus.read_value(0xFFFD),
                old(self).bus.read_value(0xFFFC),
            ),
            final(self).SP == 0xFD,
            final(self).A == 0 && final(self).X == 0 && final(self).Y == 0,
            final(self).flags == (Flags {
                C: false,
                Z: false,
                I: true,
                D: false,
                B: false,
                U: true,
                O: false,
                N: false,
            }),
            final(self).total_cycles == 0,
            final(self).cycles == 7,
            final(self).bus.ppu.cartridge == old(self).bus.ppu.cartridge,
    {
        self.PC = self.read_from_location_u16(0xFFFC);
        self.SP = 0xFD;
        self.total_cycles = 0;
        self.A = 0;
        self.X = 0;
        self.Y = 0;
        let mut f = Flags::new();
        f.I = true;
        f.U = true;
        self.flags = f;
        self.cycles = 7;
    }

    /// `new` is this CPU after servicing a non-maskable interrupt: PC high
    /// byte, PC low byte and the flags (B clear, U and I set) are pushed, SP
    /// drops by three, PC comes from the vector at 0xFFFA, eight cycles remain.
    #[verifier::opaque]
    pub open spec fn nmi_done(&self, new: Cpu) -> bool {
        let s = self.SP as int;
        let f = Flags { B: false, U: true, I: true, ..self.flags };
        &&& new.wf()
        &&& self.bus.keeps_layout(new.bus)
        &&& new == Cpu {
            bus: new.bus,
            PC: new.PC,
            SP: ((s + 253) % 256) as u8,
            flags: f,
            cycles: 8,
            ..*self
        }
        &&& exists|b1: Bus, b2: Bus, b3: Bus|
            #![trigger self.bus.write_effect(b1, stack_addr(s), (self.PC / 256) as u8), b1.write_effect(b2, stack_addr(s + 255), (self.PC % 256) as u8), b2.write_effect(b3, stack_addr(s + 254), f.byte())]
            {
                &&& self.bus.write_effect(b1, stack_addr(s), (self.PC / 256) as u8)
                &&& b1.write_effect(b2, stack_addr(s + 255), (self.PC % 256) as u8)
                &&& b2.write_effect(b3, stack_addr(s + 254), f.byte())
                &&& b3.quiet(0xFFFA) && b3.quiet(0xFFFB) ==> new.bus == b3 && new.PC == word(
                    b3.read_value(0xFFFB),
                    b3.read_value(0xFFFA),
                )
            }
    }

    /// Services a non-maskable interrupt.
    pub fn nmi(&mut self)
        requires
            old(self).wf(),
        ensures
            old(self).nmi_done(*final(self)),
            final(self).wf(),
            old(self).bus.keeps_layout(final(self).bus),
    {
        reveal(Cpu::nmi_done);
        let pc = self.PC;
        let ghost b0 = self.bus;
        self.push((pc / 256) as u8);
        let ghost b1 = self.bus;
        self.push((pc % 256) as u8);
        let ghost b2 = self.bus;
        self.flags.B = false;
        self.flags.U = true;
        self.flags.I = true;
        let st = self.flags.to_byte();
        self.push(st);
        let ghost b3 = self.bus;
        self.PC = self.read_from_location_u16(0xFFFA);
        self.cycles = 8;
        assert(old(self).bus.write_effect(b1, stack_addr(old(self).SP as int), (pc / 256) as u8));
        assert(b1.write_effect(b2, stack_addr(old(self).SP as int + 255), (pc % 256) as u8));
        assert(b2.write_effect(b3, stack_addr(old(self).SP as int + 254), self.flags.byte()));
    }

    /// Same registers and flags as `self`, the bus aside; PC and cycles as given.
    pub open spec fn moved(&self, new: Cpu, pc: u16, cycles: u8) -> bool {
        &&& new == Cpu { bus: new.bus, PC: pc, cycles: cycles, ..*self }
        &&& self.bus.keeps_layout(new.bus)
        &&& new.wf()
    }

    fn read_addr_imm(&mut self) -> (r: u16)
        requires
            old(self).wf(),
        ensures
            old(self).moved(*final(self), add16(old(self).PC, 1), old(self).cycles),
            final(self).bus == old(self).bus,
            r == old(self).PC,
    {
        let x = self.PC;
        self.PC = self.PC.wrapping_add(1);
        x
    }

    fn read_addr_imp(&mut self) -> (r: u16)
        ensures
            *final(self) == *old(self),
            r == 0,
    {
        0
    }

    fn read_addr_acc(&mut self) -> (r: u16)
        ensures
            *final(self) == *old(self),
            r == old(self).A as u16,
    {
        self.A as u16
    }

    /// Fetches the operand byte at PC and steps past it.
    fn fetch_byte(&mut self) -> (r: u8)
        requires
            old(self).wf(),
        ensures
            old(self).moved(*final(self), add16(old(self).PC, 1), old(self).cycles),
            r == old(self).bus.read_value(old(self).PC),
            old(self).bus.read_effect(final(self).bus, old(self).PC),
            old(self).bus.quiet(old(self).PC) ==> final(self).bus == old(self).bus,
    {
        let x = self.bus.cpu_read(self.PC);
        self.PC = self.PC.wrapping_add(1);
        x
    }

    fn read_addr_zp0(&mut self) -> (r: u16)
        requires
            old(self).wf(),
        ensures
            old(self).moved(*final(self), add16(old(self).PC, 1), old(self).cycles),
            r == old(self).bus.read_value(old(self).PC) as u16,
            old(self).bus.quiet(old(self).PC) ==> final(self).bus == old(self).bus,
    {
        self.fetch_byte() as u16
    }

    fn read_addr_zpx(&mut self) -> (r: u16)
        requires
            old(self).wf(),
        ensures
            old(self).moved(*final(self), add16(old(self).PC, 1), old(self).cycles),
            r == (old(self).bus.read_value(old(self).PC) as int + old(self).X as int) % 256,
            old(self).bus.quiet(old(self).PC) ==> final(self).bus == old(self).bus,
    {
        let b = self.fetch_byte();
        (b as u16 + self.X as u16) % 256
    }

    fn read_addr_zpy(&mut self) -> (r: u16)
        requires
            old(self).wf(),
        ensures
            old(self).moved(*final(self), add16(old(self).PC, 1), old(self).cycles),
            r == (old(self).bus.read_value(old(self).PC) as int + old(self).Y as int) % 256,
            old(self).bus.quiet(old(self).PC) ==> final(self).bus == old(self).bus,
    {
        let b = self.fetch_byte();
        (b as u16 + self.Y as u16) % 256
    }

    fn read_addr_abs(&mut self) -> (r: u16)
        requires
            old(self).wf(),
        ensures
            old(self).moved(*final(self), add16(old(self).PC, 2), old(self).cycles),
            old(self).reads_quietly(*final(self), old(self).PC, add16(old(self).PC, 1)),
            old(self).bus.quiet(old(self).PC) ==> r == word(
                old(self).bus.read_value(add16(old(self).PC, 1)),
                old(self).bus.read_value(old(self).PC),
            ),
    {
        let lo = self.fetch_byte();
        let hi = self.fetch_byte();
        to_u16(hi, lo)
    }

    /// Absolute indexed by `index`; one more cycle when the index crosses a
    /// page and `cross_page_check` is set.
    fn read_addr_indexed(&mut self, index: u8, cross_page_check: bool) -> (r: u16)
        requires
            old(self).wf(),
            old(self).cycles < 255,
        ensures
            old(self).moved(*final(self), add16(old(self).PC, 2), final(self).cycles),
            old(self).reads_quietly(*final(self), old(self).PC, add16(old(self).PC, 1)),
            final(self).cycles == old(self).cycles || (cross_page_check && final(self).cycles
                == old(self).cycles + 1),
            old(self).bus.quiet(old(self).PC) ==> {
                let base = word(
                    old(self).bus.read_value(add16(old(self).PC, 1)),
                    old(self).bus.read_value(old(self).PC),
                );
                &&& r == add16(base, index as int)
                &&& final(self).cycles == old(self).cycles + if cross_page_check && r / 256 != base
                    / 256 {
                    1int
                } else {
                    0
                }
            },
    {
        let addr = self.read_addr_abs();
        let off = addr.wrapping_add(index as u16);
        if cross_page_check && off / 256 != addr / 256 {
            self.cycles = self.cycles + 1;
        }
        off
    }

    fn read_addr_abx(&mut self, cross_page_check: bool) -> (r: u16)
        requires
            old(self).wf(),
            old(self).cycles < 255,
        ensures
            old(self).moved(*final(self), add16(old(self).PC, 2), final(self).cycles),
            final(self).cycles == old(self).cycles || (cross_page_check && final(self).cycles
                == old(self).cycles + 1),
            old(self).bus.quiet(old(self).PC) ==> {
                let base = word(
                    old(self).bus.read_value(add16(old(self).PC, 1)),
                    old(self).bus.read_value(old(self).PC),
                );
                &&& r == add16(base, old(self).X as int)
                &&& final(self).cycles == old(self).cycles + if cross_page_check && r / 256 != base
                    / 256 {
                    1int
                } else {
                    0
                }
            },
    {
        let x = self.X;
        self.read_addr_indexed(x, cross_page_check)
    }

    fn read_addr_aby(&mut self, cross_page_check: bool) -> (r: u16)
        requires
            old(self).wf(),
            old(self).cycles < 255,
        ensures
            old(self).moved(*final(self), add16(old(self).PC, 2), final(self).cycles),
            final(self).cycles == old(self).cycles || (cross_page_check && final(self).cycles
                == old(self).cycles + 1),
            old(self).bus.quiet(old(self).PC) ==> {
                let base = word(
                    old(self).bus.read_value(add16(old(self).PC, 1)),
                    old(self).bus.read_value(old(self).PC),
                );
                &&& r == add16(base, old(self).Y as int)
                &&& final(self).cycles == old(self).cycles + if cross_page_check && r / 256 != base
                    / 256 {
                    1int
                } else {
                    0
                }
            },
    {
        let y = self.Y;
        self.read_addr_indexed(y, cross_page_check)
    }

    /// Indirect: the pointer's high byte comes from the same page as its low
    /// byte, so a pointer at 0xXXFF wraps to 0xXX00.
    fn read_addr_ind(&mut self) -> (r: u16)
        requires
            old(self).wf(),
        ensures
            old(self).moved(*final(self), add16(old(self).PC, 2), old(self).cycles),
            ({
                let b = old(self).bus;
                let p = word(b.read_value(add16(old(self).PC, 1)), b.read_value(old(self).PC));
                let hi_addr = if p % 256 == 0xFF {
                    (p - 0xFF) as u16
                } else {
                    (p + 1) as u16
                };
                b.quiet(old(self).PC) && b.quiet(add16(old(self).PC, 1)) && b.quiet(p) && b.quiet(
                    hi_addr,
                ) ==> r == word(b.read_value(hi_addr), b.read_value(p)) && final(self).bus == b
            }),
    {
        let addr = self.read_addr_abs();
        let hi_addr = if addr % 256 == 0xFF {
            addr - 0xFF
        } else {
            addr + 1
        };
        self.read_pair(hi_addr, addr)
    }

    /// Reads the high byte at `hi_addr`, then the low byte at `lo_addr`.
    fn read_pair(&mut self, hi_addr: u16, lo_addr: u16) -> (r: u16)
        requires
            old(self).wf(),
        ensures
            *final(self) == (Cpu { bus: final(self).bus, ..*old(self) }),
            final(self).wf(),
            old(self).bus.keeps_layout(final(self).bus),
            old(self).reads_quietly(*final(self), hi_addr, lo_addr),
            old(self).bus.quiet(hi_addr) && old(self).bus.quiet(lo_addr) ==> r == word(
                old(self).bus.read_value(hi_addr),
                old(self).bus.read_value(lo_addr),
            ),
    {
        let hi = self.bus.cpu_read(hi_addr);
        let lo = self.bus.cpu_read(lo_addr);
        to_u16(hi, lo)
    }

    /// Zero-page pointer at (operand + X) mod 256.
    fn read_addr_izx(&mut self) -> (r: u16)
        requires
            old(self).wf(),
        ensures
            old(self).moved(*final(self), add16(old(self).PC, 1), old(self).cycles),
            ({
                let b = old(self).bus;
                let p = ((b.read_value(old(self).PC) as int + old(self).X as int) % 256) as u8;
                b.quiet(old(self).PC) && b.quiet(p as u16) && b.quiet(((p as int + 1) % 256) as u16)
                    ==> r == word(b.read_value(((p as int + 1) % 256) as u16), b.read_value(p as u16))
            }),
    {
        let mut addr = self.fetch_byte();
        addr = addr.wrapping_add(self.X);
        self.read_from_location(addr)
    }

    /// Zero-page pointer, then indexed by Y; one more cycle on a page cross.
    fn read_addr_izy(&mut self) -> (r: u16)
        requires
            old(self).wf(),
            old(self).cycles < 255,
        ensures
            old(self).moved(*final(self), add16(old(self).PC, 1), final(self).cycles),
            final(self).cycles == old(self).cycles || final(self).cycles == old(self).cycles + 1,
            ({
                let b = old(self).bus;
                let p = b.read_value(old(self).PC);
                let base = word(b.read_value(((p as int + 1) % 256) as u16), b.read_value(p as u16));
                b.quiet(old(self).PC) && b.quiet(p as u16) && b.quiet(((p as int + 1) % 256) as u16)
                    ==> r == add16(base, old(self).Y as int)
            }),
    {
        let addr = self.fetch_byte();
        let x = self.read_from_location(addr);
        let off = x.wrapping_add(self.Y as u16);
        if off / 256 != x / 256 {
            self.cycles = self.cycles + 1;
        }
        off
    }

    /// Relative: the branch target from the signed offset byte at PC.
    fn read_addr_rel(&mut self) -> (r: u16)
        requires
            old(self).wf(),
        ensures
            old(self).moved(*final(self), add16(old(self).PC, 1), old(self).cycles),
            r == rel_target(add16(old(self).PC, 1), old(self).bus.read_value(old(self).PC)),
            old(self).bus.quiet(old(self).PC) ==> final(self).bus == old(self).bus,
    {
        let x = self.fetch_byte();
        let pc = self.PC as u32;
        let t: u32 = if x >= 128 {
            (pc + 0x10000 + x as u32 - 256) % 0x10000
        } else {
            (pc + x as u32) % 0x10000
        };
        t as u16
    }

    /// Computes the operand address of `ins`, stepping PC past the operand.
    fn read_addr(&mut self, ins: Instruction) -> (r: u16)
        requires
            old(self).wf(),
            old(self).cycles < 255,
        ensures
            old(self).moved(
                *final(self),
                add16(old(self).PC, operand_len(ins.mode)),
                final(self).cycles,
            ),
            final(self).cycles == old(self).cycles || (page_penalty(ins) && final(self).cycles
                == old(self).cycles + 1),
            ins.mode == AddressingMode::IMP ==> r == 0 && *final(self) == *old(self),
            ins.mode == AddressingMode::ACC ==> r == old(self).A && *final(self) == *old(self),
            ins.mode == AddressingMode::IMM ==> r == old(self).PC && final(self).bus == old(
                self,
            ).bus,
            ins.mode == AddressingMode::REL ==> r == rel_target(
                add16(old(self).PC, 1),
                old(self).bus.read_value(old(self).PC),
            ) && (old(self).bus.quiet(old(self).PC) ==> final(self).bus == old(self).bus),
            plain_mode(ins.mode) && operand_quiet(*old(self), ins.mode) ==> r == operand_addr(
                *old(self),
                ins.mode,
            ) && final(self).bus == old(self).bus,
    {
        match ins.mode {
            AddressingMode::ABS => self.read_addr_abs(),
            AddressingMode::ABY => self.read_addr_aby(!matches!(ins.opcode, Opcode::STA)),
            AddressingMode::ABX => self.read_addr_abx(!matches!(ins.opcode, Opcode::STA)),
            AddressingMode::IND => self.read_addr_ind(),
            AddressingMode::IZX => self.read_addr_izx(),
            AddressingMode::IZY => self.read_addr_izy(),
            AddressingMode::IMM => self.read_addr_imm(),
            AddressingMode::IMP => self.read_addr_imp(),
            AddressingMode::ACC => self.read_addr_acc(),
            AddressingMode::ZP0 => self.read_addr_zp0(),
            AddressingMode::ZPX => self.read_addr_zpx(),
            AddressingMode::ZPY => self.read_addr_zpy(),
            AddressingMode::REL => self.read_addr_rel(),
        }
    }

    /// A taken branch: one more cycle, and one more again when the target
    /// lies in another page than the next instruction.
    fn branch_jump(&mut self, addr: u16)
        requires
            old(self).cycles < 254,
        ensures
            *final(self) == (Cpu {
                PC: addr,
                cycles: (old(self).cycles + 1 + if addr / 256 != old(self).PC / 256 {
                    1int
                } else {
                    0
                }) as u8,
                ..*old(self)
            }),
    {
        self.cycles = self.cycles + 1;
        if addr / 256 != self.PC / 256 {
            self.cycles = self.cycles + 1;
        }
        self.PC = addr;
    }

    /// Runs an instruction that works on registers and flags alone.
    #[verifier::rlimit(60)]
    fn exec_register(&mut self, op: Opcode)
        requires
            register_op(op, *old(self)) is Some,
        ensures
            (final(self).A, final(self).X, final(self).Y, final(self).SP, final(self).flags)
                == register_op(op, *old(self))->0,
            *final(self) == (Cpu {
                A: final(self).A,
                X: final(self).X,
                Y: final(self).Y,
                SP: final(self).SP,
                flags: final(self).flags,
                ..*old(self)
            }),
    {
        let mut a = self.A;
        let mut x = self.X;
        let mut y = self.Y;
        let mut sp = self.SP;
        let mut f = self.flags;
        match op {
            Opcode::TAX => {
                x = a;
                f.set_zn(x);
            },
            Opcode::TAY => {
                y = a;
                f.set_zn(y);
            },
            Opcode::TXA => {
                a = x;
                f.set_zn(a);
            },
            Opcode::TYA => {
                a = y;
                f.set_zn(a);
            },
            Opcode::TSX => {
                x = sp;
                f.set_zn(x);
            },
            Opcode::TXS => {
                sp = x;
            },
            Opcode::INX => {
                x = ((x as u16 + 1) % 256) as u8;
                f.set_zn(x);
            },
            Opcode::INY => {
                y = ((y as u16 + 1) % 256) as u8;
                f.set_zn(y);
            },
            Opcode::DEX => {
                x = ((x as u16 + 255) % 256) as u8;
                f.set_zn(x);
            },
            Opcode::DEY => {
                y = ((y as u16 + 255) % 256) as u8;
                f.set_zn(y);
            },
            Opcode::CLC => {
                f.C = false;
            },
            Opcode::SEC => {
                f.C = true;
            },
            Opcode::CLD => {
                f.D = false;
            },
            Opcode::SED => {
                f.D = true;
            },
            Opcode::CLI => {
                f.I = false;
            },
            Opcode::SEI => {
                f.I = true;
            },
            Opcode::CLV => {
                f.O = false;
            },
            _ => {},
        }
        self.A = a;
        self.X = x;
        self.Y = y;
        self.SP = sp;
        self.flags = f;
    }

    /// Runs an instruction that reads operand `v` into registers and flags.
    fn exec_operand(&mut self, op: Opcode, v: u8)
        requires
            operand_op(op, *old(self), v) is Some,
        ensures
            *final(self) == operand_op(op, *old(self), v)->0,
    {
        match op {
            Opcode::LDA => {
                self.A = v;
                self.flags.set_zn(v);
            },
            Opcode::LDX => {
                self.X = v;
                self.flags.set_zn(v);
            },
            Opcode::LDY => {
                self.Y = v;
                self.flags.set_zn(v);
            },
            Opcode::AND => {
                self.A = self.A & v;
                self.flags.set_zn(self.A);
            },
            Opcode::ORA => {
                self.A = self.A | v;
                self.flags.set_zn(self.A);
            },
            Opcode::EOR => {
                self.A = self.A ^ v;
                self.flags.set_zn(self.A);
            },
            Opcode::ADC => {
                self.add_with_carry(v);
            },
            Opcode::SBC => {
                self.add_with_carry(255 - v);
            },
            Opcode::CMP => {
                let a = self.A;
                self.compare(a, v);
            },
            Opcode::CPX => {
                let x = self.X;
                self.compare(x, v);
            },
            Opcode::CPY => {
                let y = self.Y;
                self.compare(y, v);
            },
            _ => {
                let r = self.A & v;
                self.flags.Z = r == 0;
                self.flags.O = (v / 64) % 2 == 1;
                self.flags.N = v >= 128;
            },
        }
    }

    fn add_with_carry(&mut self, v: u8)
        ensures
            ({
                let (r, carry, over) = adc(old(self).A, v, old(self).flags.C);
                *final(self) == Cpu {
                    A: r,
                    flags: Flags { C: carry, O: over, ..old(self).flags.with_zn(r) },
                    ..*old(self)
                }
            }),
    {
        let sum: u16 = self.A as u16 + v as u16 + if self.flags.C { 1 } else { 0 };
        let r = (sum % 256) as u8;
        self.flags.C = sum > 255;
        self.flags.O = (!(self.A ^ v) & (self.A ^ r) & 0x80u8) != 0;
        self.A = r;
        self.flags.set_zn(r);
    }

    fn compare(&mut self, reg: u8, v: u8)
        ensures
            *final(self) == (Cpu {
                flags: Flags {
                    C: reg >= v,
                    ..old(self).flags.with_zn(((reg as int - v + 256) % 256) as u8)
                },
                ..*old(self)
            }),
    {
        let d = reg.wrapping_sub(v);
        self.flags.set_zn(d);
        self.flags.C = reg >= v;
    }

    /// What every instruction keeps: a well-formed bus with the same
    /// connections, and the cycle counters.
    pub open spec fn keeps_clock(&self, new: Cpu) -> bool {
        &&& new.wf()
        &&& self.bus.keeps_layout(new.bus)
        &&& new.total_cycles == self.total_cycles
        &&& new.cycles == self.cycles
    }

    /// Stores a register at `addr`.
    fn exec_store(&mut self, op: Opcode, addr: u16)
        requires
            old(self).wf(),
        ensures
            old(self).keeps_clock(*final(self)),
            *final(self) == (Cpu { bus: final(self).bus, ..*old(self) }),
            old(self).bus.write_effect(
                final(self).bus,
                addr,
                if op == Opcode::STA {
                    old(self).A
                } else if op == Opcode::STX {
                    old(self).X
                } else {
                    old(self).Y
                },
            ),
    {
        let v = match op {
            Opcode::STA => self.A,
            Opcode::STX => self.X,
            _ => self.Y,
        };
        self.bus.cpu_write(addr, v);
    }

    /// Shifts and rotates, on A in accumulator mode and on memory otherwise.
    #[verifier::rlimit(60)]
    fn exec_shift(&mut self, ins: Instruction, addr: u16)
        requires
            old(self).wf(),
        ensures
            old(self).keeps_clock(*final(self)),
            ins.mode == AddressingMode::ACC ==> {
                let (r, carry) = shift(ins.opcode, old(self).A, old(self).flags.C);
                *final(self) == Cpu {
                    A: r,
                    flags: Flags { C: carry, ..old(self).flags.with_zn(r) },
                    ..*old(self)
                }
            },
    {
        let acc = matches!(ins.mode, AddressingMode::ACC);
        let data: u8 = if acc {
            self.A
        } else {
            self.bus.cpu_read(addr)
        };
        let (res, carry) = shift_value(ins.opcode, data, self.flags.C);
        let mut f = self.flags;
        f.set_zn(res);
        f.C = carry;
        self.flags = f;
        if acc {
            self.A = res;
        } else {
            self.bus.cpu_write(addr, res);
        }
    }

    /// INC and DEC on memory.
    fn exec_step_memory(&mut self, op: Opcode, addr: u16)
        requires
            old(self).wf(),
        ensures
            old(self).keeps_clock(*final(self)),
    {
        let v = self.bus.cpu_read(addr);
        let r = if matches!(op, Opcode::INC) {
            v.wrapping_add(1)
        } else {
            v.wrapping_sub(1)
        };
        self.flags.set_zn(r);
        self.bus.cpu_write(addr, r);
    }

    /// PHA, PHP, PLA and PLP.
    fn exec_stack(&mut self, op: Opcode)
        requires
            old(self).wf(),
        ensures
            old(self).keeps_clock(*final(self)),
            final(self).PC == old(self).PC,
    {
        match op {
            Opcode::PHP => {
                self.push_flags();
            },
            Opcode::PLP => {
                let flag = self.pop();
                self.flags.set_byte(flag);
            },
            Opcode::PHA => {
                let a = self.A;
                self.push(a);
            },
            _ => {
                self.A = self.pop();
                self.flags.set_zn(self.A);
            },
        }
    }

    /// JMP, JSR, RTS, RTI and BRK.
    fn exec_control(&mut self, op: Opcode, addr: u16)
        requires
            old(self).wf(),
        ensures
            old(self).keeps_clock(*final(self)),
            op == Opcode::JMP ==> *final(self) == (Cpu { PC: addr, ..*old(self) }),
    {
        match op {
            Opcode::JMP => {
                self.PC = addr;
            },
            Opcode::JSR => {
                let ret = self.PC.wrapping_sub(1);
                self.push_u16(ret);
                self.PC = addr;
            },
            Opcode::RTS => {
                let pc = self.pop_u16();
                self.PC = pc.wrapping_add(1);
            },
            Opcode::RTI => {
                let flag = self.pop();
                self.flags.set_byte(flag);
                self.PC = self.pop_u16();
            },
            _ => {
                self.PC = self.PC.wrapping_add(1);
                let pc = self.PC;
                self.push_u16(pc);
                self.push_flags();
                self.flags.I = true;
                self.PC = self.read_from_location_u16(0xFFFE);
            },
        }
    }

    /// Runs the body of instruction `ins` on operand address `addr`.
    #[verifier::rlimit(100)]
    #[verifier::spinoff_prover]
    fn execute(&mut self, ins: Instruction, addr: u16)
        requires
            old(self).wf(),
            old(self).cycles < 254,
        ensures
            final(self).wf(),
            old(self).bus.keeps_layout(final(self).bus),
            final(self).total_cycles == old(self).total_cycles,
            !is_branch(ins.opcode) ==> final(self).cycles == old(self).cycles,
            is_branch(ins.opcode) ==> *final(self) == if branch_taken(ins.opcode, old(self).flags) {
                Cpu {
                    PC: addr,
                    cycles: (old(self).cycles + 1 + if addr / 256 != old(self).PC / 256 {
                        1int
                    } else {
                        0
                    }) as u8,
                    ..*old(self)
                }
            } else {
                *old(self)
            },
            register_op(ins.opcode, *old(self)) is Some ==> ({
                let (a, x, y, sp, f) = register_op(ins.opcode, *old(self))->0;
                *final(self) == Cpu { A: a, X: x, Y: y, SP: sp, flags: f, ..*old(self) }
            }),
            operand_op(ins.opcode, *old(self), 0) is Some ==> {
                &&& *final(self) == Cpu {
                    bus: final(self).bus,
                    ..operand_op(ins.opcode, *old(self), old(self).bus.read_value(addr))->0
                }
                &&& old(self).bus.read_effect(final(self).bus, addr)
            },
            ins.opcode == Opcode::JMP ==> *final(self) == (Cpu { PC: addr, ..*old(self) }),
            (ins.opcode == Opcode::STA || ins.opcode == Opcode::STX || ins.opcode == Opcode::STY)
                ==> *final(self) == (Cpu { bus: final(self).bus, ..*old(self) }) && old(
                self,
            ).bus.write_effect(
                final(self).bus,
                addr,
                if ins.opcode == Opcode::STA {
                    old(self).A
                } else if ins.opcode == Opcode::STX {
                    old(self).X
                } else {
                    old(self).Y
                },
            ),
            (ins.opcode == Opcode::ASL || ins.opcode == Opcode::LSR || ins.opcode == Opcode::ROL
                || ins.opcode == Opcode::ROR) && ins.mode == AddressingMode::ACC ==> {
                let (r, carry) = shift(ins.opcode, old(self).A, old(self).flags.C);
                *final(self) == Cpu {
                    A: r,
                    flags: Flags { C: carry, ..old(self).flags.with_zn(r) },
                    ..*old(self)
                }
            },
    {
        let op = ins.opcode;
        match op {
            Opcode::TAX | Opcode::TAY | Opcode::TXA | Opcode::TYA | Opcode::TSX | Opcode::TXS
            | Opcode::INX | Opcode::INY | Opcode::DEX | Opcode::DEY | Opcode::CLC | Opcode::SEC
            | Opcode::CLD | Opcode::SED | Opcode::CLI | Opcode::SEI | Opcode::CLV | Opcode::NOP
            | Opcode::ERR => {
                self.exec_register(op);
            },
            Opcode::LDA | Opcode::LDX | Opcode::LDY | Opcode::AND | Opcode::ORA | Opcode::EOR
            | Opcode::ADC | Opcode::SBC | Opcode::CMP | Opcode::CPX | Opcode::CPY | Opcode::BIT => {
                let v = self.bus.cpu_read(addr);
                self.exec_operand(op, v);
            },
            Opcode::STA | Opcode::STX | Opcode::STY => {
                self.exec_store(op, addr);
            },
            Opcode::BCC | Opcode::BCS | Opcode::BEQ | Opcode::BNE | Opcode::BMI | Opcode::BPL
            | Opcode::BVC | Opcode::BVS => {
                let taken = match op {
                    Opcode::BCC => !self.flags.C,
                    Opcode::BCS => self.flags.C,
                    Opcode::BEQ => self.flags.Z,
                    Opcode::BNE => !self.flags.Z,
                    Opcode::BMI => self.flags.N,
                    Opcode::BPL => !self.flags.N,
                    Opcode::BVC => !self.flags.O,
                    _ => self.flags.O,
                };
                if taken {
                    self.branch_jump(addr);
                }
            },
            Opcode::ASL | Opcode::LSR | Opcode::ROL | Opcode::ROR => {
                self.exec_shift(ins, addr);
            },
            Opcode::INC | Opcode::DEC => {
                self.exec_step_memory(op, addr);
            },
            Opcode::PHA | Opcode::PHP | Opcode::PLA | Opcode::PLP => {
                self.exec_stack(op);
            },
            _ => {
                self.exec_control(op, addr);
            },
        }
    }

    /// What running the next instruction does, as far as it is stated:
    /// the cycles it leaves, and, where its bytes come from quiet addresses,
    /// its exact effect for register-only instructions, branches, and
    /// operand reads, jumps and stores in the plain addressing modes.
    #[verifier::opaque]
    pub open spec fn instruction_ran(&self, new: Cpu) -> bool {
        &&& new.wf()
        &&& self.bus.keeps_layout(new.bus)
        &&& new.total_cycles == self.total_cycles
        &&& self.cycles == 0 ==> {
                let ins = decode(self.bus.read_value(self.PC));
                ins.cycles - 1 <= new.cycles <= ins.cycles + 1
            }
        &&& ({
                let ins = decode(self.bus.read_value(self.PC));
                self.cycles == 0 && self.bus.quiet(self.PC) && register_op(
                    ins.opcode,
                    *self,
                ) is Some ==> {
                    let (a, x, y, sp, f) = register_op(ins.opcode, *self)->0;
                    new == Cpu {
                        A: a,
                        X: x,
                        Y: y,
                        SP: sp,
                        flags: f,
                        PC: add16(self.PC, 1),
                        cycles: (ins.cycles - 1) as u8,
                        ..*self
                    }
                }
            })
        &&& ({
                let ins = decode(self.bus.read_value(self.PC));
                let next = add16(self.PC, 2);
                let target = rel_target(next, self.bus.read_value(add16(self.PC, 1)));
                let taken = branch_taken(ins.opcode, self.flags);
                self.cycles == 0 && self.bus.quiet(self.PC) && self.bus.quiet(
                    add16(self.PC, 1),
                ) && is_branch(ins.opcode) ==> new == Cpu {
                    PC: if taken {
                        target
                    } else {
                        next
                    },
                    cycles: (ins.cycles - 1 + if taken {
                        1int
                    } else {
                        0
                    } + if taken && target / 256 != next / 256 {
                        1int
                    } else {
                        0
                    }) as u8,
                    ..*self
                }
            })
        &&& ({
            let ins = decode(self.bus.read_value(self.PC));
            let fetched = Cpu { PC: add16(self.PC, 1), cycles: ins.cycles, ..*self };
            self.cycles == 0 && self.bus.quiet(self.PC) && plain_mode(ins.mode) && operand_quiet(
                fetched,
                ins.mode,
            ) ==> plain_ran(fetched, new, ins)
        })
    }

    /// `new` is this CPU after one clock: the cycle counter steps (wrapping);
    /// with cycles left, one is used up and nothing else changes; with none,
    /// the next instruction runs.
    #[verifier::opaque]
    pub open spec fn clocked(&self, new: Cpu) -> bool {
        &&& new.wf()
        &&& self.bus.keeps_layout(new.bus)
        &&& new.total_cycles == (self.total_cycles as int + 1) % (usize::MAX as int + 1)
        &&& self.cycles > 0 ==> new == Cpu {
            cycles: (self.cycles - 1) as u8,
            total_cycles: new.total_cycles,
            ..*self
        }
        &&& self.cycles == 0 ==> self.instruction_ran(Cpu { total_cycles: self.total_cycles, ..new })
    }

    /// Fetches and decodes the next instruction, and sets its base cycles.
    fn fetch_decode(&mut self) -> (r: Instruction)
        requires
            old(self).wf(),
        ensures
            r == decode(old(self).bus.read_value(old(self).PC)),
            2 <= r.cycles <= 8,
            is_branch(r.opcode) ==> r.mode == AddressingMode::REL,
            register_op(r.opcode, *old(self)) is Some ==> r.mode == AddressingMode::IMP,
            old(self).moved(*final(self), add16(old(self).PC, 1), r.cycles),
            old(self).bus.quiet(old(self).PC) ==> final(self).bus == old(self).bus,
            old(self).bus.read_effect(final(self).bus, old(self).PC),
    {
        let code = self.fetch_byte();
        let ins = instruction_lookup(code);
        proof {
            crate::instructions::lemma_decode_cycles(code);
            crate::instructions::lemma_decode_branches(code);
        }
        self.cycles = ins.cycles;
        ins
    }

    /// Computes the operand address of `ins` and runs it; the cycles left
    /// are its base count plus penalties, less the one now spent.
    fn perform(&mut self, ins: Instruction)
        requires
            old(self).wf(),
            old(self).cycles == ins.cycles,
            2 <= ins.cycles <= 8,
            is_branch(ins.opcode) ==> ins.mode == AddressingMode::REL,
            register_op(ins.opcode, *old(self)) is Some ==> ins.mode == AddressingMode::IMP,
        ensures
            final(self).wf(),
            old(self).bus.keeps_layout(final(self).bus),
            final(self).total_cycles == old(self).total_cycles,
            ins.cycles - 1 <= final(self).cycles <= ins.cycles + 1,
            register_op(ins.opcode, *old(self)) is Some ==> {
                let (a, x, y, sp, f) = register_op(ins.opcode, *old(self))->0;
                *final(self) == Cpu {
                    A: a,
                    X: x,
                    Y: y,
                    SP: sp,
                    flags: f,
                    cycles: (ins.cycles - 1) as u8,
                    ..*old(self)
                }
            },
            ({
                let next = add16(old(self).PC, 1);
                let target = rel_target(next, old(self).bus.read_value(old(self).PC));
                let taken = branch_taken(ins.opcode, old(self).flags);
                is_branch(ins.opcode) && old(self).bus.quiet(old(self).PC) ==> *final(self) == Cpu {
                    PC: if taken {
                        target
                    } else {
                        next
                    },
                    cycles: (ins.cycles - 1 + if taken {
                        1int
                    } else {
                        0
                    } + if taken && target / 256 != next / 256 {
                        1int
                    } else {
                        0
                    }) as u8,
                    ..*old(self)
                }
            }),
            plain_mode(ins.mode) && operand_quiet(*old(self), ins.mode) ==> plain_ran(
                *old(self),
                *final(self),
                ins,
            ),
    {
        if matches!(ins.mode, AddressingMode::IMM) || matches!(ins.mode, AddressingMode::ZP0)
            || matches!(ins.mode, AddressingMode::ABS) || matches!(ins.mode, AddressingMode::IND) {
            self.perform_plain(ins);
        } else {
            self.perform_other(ins);
        }
    }

    /// `perform` in the plain addressing modes (IMM, ZP0, ABS, IND).
    fn perform_plain(&mut self, ins: Instruction)
        requires
            old(self).wf(),
            old(self).cycles == ins.cycles,
            2 <= ins.cycles <= 8,
            plain_mode(ins.mode),
            !is_branch(ins.opcode),
            register_op(ins.opcode, *old(self)) is None,
        ensures
            final(self).wf(),
            old(self).bus.keeps_layout(final(self).bus),
            final(self).total_cycles == old(self).total_cycles,
            final(self).cycles == ins.cycles - 1,
            operand_quiet(*old(self), ins.mode) ==> plain_ran(*old(self), *final(self), ins),
    {
        if is_operand_op(ins.opcode) {
            self.perform_operand(ins);
        } else if is_store_op(ins.opcode) {
            self.perform_store(ins);
        } else {
            self.perform_rest(ins);
        }
    }

    #[verifier::rlimit(100)]
    #[verifier::spinoff_prover]
    fn perform_operand(&mut self, ins: Instruction)
        requires
            old(self).wf(),
            old(self).cycles == ins.cycles,
            2 <= ins.cycles <= 8,
            plain_mode(ins.mode),
            !is_branch(ins.opcode),
            register_op(ins.opcode, *old(self)) is None,
            reads_operand(ins.opcode),
        ensures
            final(self).wf(),
            old(self).bus.keeps_layout(final(self).bus),
            final(self).total_cycles == old(self).total_cycles,
            final(self).cycles == ins.cycles - 1,
            operand_quiet(*old(self), ins.mode) ==> plain_ran(*old(self), *final(self), ins),
    {
        let addr = self.read_addr(ins);
        self.execute(ins, addr);
        self.cycles = self.cycles - 1;
    }

    #[verifier::rlimit(100)]
    #[verifier::spinoff_prover]
    fn perform_store(&mut self, ins: Instruction)
        requires
            old(self).wf(),
            old(self).cycles == ins.cycles,
            2 <= ins.cycles <= 8,
            plain_mode(ins.mode),
            !is_branch(ins.opcode),
            register_op(ins.opcode, *old(self)) is None,
            is_store(ins.opcode),
        ensures
            final(self).wf(),
            old(self).bus.keeps_layout(final(self).bus),
            final(self).total_cycles == old(self).total_cycles,
            final(self).cycles == ins.cycles - 1,
            operand_quiet(*old(self), ins.mode) ==> plain_ran(*old(self), *final(self), ins),
    {
        let addr = self.read_addr(ins);
        self.execute(ins, addr);
        self.cycles = self.cycles - 1;
    }

    #[verifier::rlimit(100)]
    #[verifier::spinoff_prover]
    fn perform_rest(&mut self, ins: Instruction)
        requires
            old(self).wf(),
            old(self).cycles == ins.cycles,
            2 <= ins.cycles <= 8,
            plain_mode(ins.mode),
            !is_branch(ins.opcode),
            register_op(ins.opcode, *old(self)) is None,
            !reads_operand(ins.opcode),
            !is_store(ins.opcode),
        ensures
            final(self).wf(),
            old(self).bus.keeps_layout(final(self).bus),
            final(self).total_cycles == old(self).total_cycles,
            final(self).cycles == ins.cycles - 1,
            operand_quiet(*old(self), ins.mode) ==> plain_ran(*old(self), *final(self), ins),
    {
        let addr = self.read_addr(ins);
        self.execute(ins, addr);
        self.cycles = self.cycles - 1;
    }

    /// `perform` outside the plain addressing modes.
    #[verifier::rlimit(100)]
    #[verifier::spinoff_prover]
    fn perform_other(&mut self, ins: Instruction)
        requires
            old(self).wf(),
            old(self).cycles == ins.cycles,
            2 <= ins.cycles <= 8,
            is_branch(ins.opcode) ==> ins.mode == AddressingMode::REL,
            register_op(ins.opcode, *old(self)) is Some ==> ins.mode == AddressingMode::IMP,
            !plain_mode(ins.mode),
        ensures
            final(self).wf(),
            old(self).bus.keeps_layout(final(self).bus),
            final(self).total_cycles == old(self).total_cycles,
            ins.cycles - 1 <= final(self).cycles <= ins.cycles + 1,
            register_op(ins.opcode, *old(self)) is Some ==> {
                let (a, x, y, sp, f) = register_op(ins.opcode, *old(self))->0;
                *final(self) == Cpu {
                    A: a,
                    X: x,
                    Y: y,
                    SP: sp,
                    flags: f,
                    cycles: (ins.cycles - 1) as u8,
                    ..*old(self)
                }
            },
            ({
                let next = add16(old(self).PC, 1);
                let target = rel_target(next, old(self).bus.read_value(old(self).PC));
                let taken = branch_taken(ins.opcode, old(self).flags);
                is_branch(ins.opcode) && old(self).bus.quiet(old(self).PC) ==> *final(self) == Cpu {
                    PC: if taken {
                        target
                    } else {
                        next
                    },
                    cycles: (ins.cycles - 1 + if taken {
                        1int
                    } else {
                        0
                    } + if taken && target / 256 != next / 256 {
                        1int
                    } else {
                        0
                    }) as u8,
                    ..*old(self)
                }
            }),
    {
        let addr = self.read_addr(ins);
        self.execute(ins, addr);
        self.cycles = self.cycles - 1;
    }

    /// Fetches, decodes and runs the next instruction.
    #[verifier::rlimit(100)]
    #[verifier::spinoff_prover]
    fn run_instruction(&mut self)
        requires
            old(self).wf(),
            old(self).cycles == 0,
        ensures
            final(self).wf(),
            old(self).bus.keeps_layout(final(self).bus),
            final(self).total_cycles == old(self).total_cycles,
            old(self).instruction_ran(*final(self)),
    {
        reveal(Cpu::instruction_ran);
        let ins = self.fetch_decode();
        self.perform(ins);
    }

    /// Advances the CPU by one cycle. While cycles of the current instruction
    /// remain, one is used up; otherwise the next instruction is fetched,
    /// its operand address computed and its body run, and its cycles (base
    /// count plus page-crossing and branch penalties, less this one) remain.
    pub fn clock(&mut self)
        requires
            old(self).wf(),
        ensures
            old(self).clocked(*final(self)),
            final(self).wf(),
            old(self).bus.keeps_layout(final(self).bus),
    {
        reveal(Cpu::clocked);
        if self.cycles > 0 {
            self.cycles = self.cycles - 1;
            self.total_cycles = self.total_cycles.wrapping_add(1);
        } else {
            self.run_instruction();
            let ghost after = *self;
            self.total_cycles = self.total_cycles.wrapping_add(1);
            assert(Cpu { total_cycles: old(self).total_cycles, ..*self } == after);
        }
    }
}

} // verus!
