use vstd::prelude::*;

use crate::bus::Bus;
use crate::cpu::add16;
use crate::instructions::{decode, instruction_lookup, AddressingMode, Instruction, Opcode};

verus! {

/// Length in bytes of an instruction in each addressing mode, opcode included.
pub open spec fn instruction_size(mode: AddressingMode) -> u16 {
    match mode {
        AddressingMode::ABS | AddressingMode::ABX | AddressingMode::ABY | AddressingMode::IND => 3,
        AddressingMode::ACC | AddressingMode::IMP => 1,
        _ => 2,
    }
}

pub fn get_instruction_size(ins: &Instruction) -> (r: u16)
    ensures
        r == instruction_size(ins.mode),
{
    match ins.mode {
        AddressingMode::ABS => 3,
        AddressingMode::ABX => 3,
        AddressingMode::ABY => 3,
        AddressingMode::IMM => 2,
        AddressingMode::REL => 2,
        AddressingMode::ACC => 1,
        AddressingMode::IMP => 1,
        AddressingMode::IND => 3,
        AddressingMode::ZP0 => 2,
        AddressingMode::ZPX => 2,
        AddressingMode::ZPY => 2,
        AddressingMode::IZX => 2,
        AddressingMode::IZY => 2,
    }
}

/// The three-letter mnemonic of an opcode, "???" for undocumented ones, in ASCII.
pub open spec fn mnemonic(op: Opcode) -> Seq<u8> {
    match op {
        Opcode::ADC => seq![0x41u8, 0x44u8, 0x43u8],
        Opcode::AND => seq![0x41u8, 0x4Eu8, 0x44u8],
        Opcode::ASL => seq![0x41u8, 0x53u8, 0x4Cu8],
        Opcode::BCC => seq![0x42u8, 0x43u8, 0x43u8],
        Opcode::BCS => seq![0x42u8, 0x43u8, 0x53u8],
        Opcode::BEQ => seq![0x42u8, 0x45u8, 0x51u8],
        Opcode::BIT => seq![0x42u8, 0x49u8, 0x54u8],
        Opcode::BMI => seq![0x42u8, 0x4Du8, 0x49u8],
        Opcode::BNE => seq![0x42u8, 0x4Eu8, 0x45u8],
        Opcode::BPL => seq![0x42u8, 0x50u8, 0x4Cu8],
        Opcode::BRK => seq![0x42u8, 0x52u8, 0x4Bu8],
        Opcode::BVC => seq![0x42u8, 0x56u8, 0x43u8],
        Opcode::BVS => seq![0x42u8, 0x56u8, 0x53u8],
        Opcode::CLC => seq![0x43u8, 0x4Cu8, 0x43u8],
        Opcode::CLD => seq![0x43u8, 0x4Cu8, 0x44u8],
        Opcode::CLI => seq![0x43u8, 0x4Cu8, 0x49u8],
        Opcode::CLV => seq![0x43u8, 0x4Cu8, 0x56u8],
        Opcode::CMP => seq![0x43u8, 0x4Du8, 0x50u8],
        Opcode::CPX => seq![0x43u8, 0x50u8, 0x58u8],
        Opcode::CPY => seq![0x43u8, 0x50u8, 0x59u8],
        Opcode::DEC => seq![0x44u8, 0x45u8, 0x43u8],
        Opcode::DEX => seq![0x44u8, 0x45u8, 0x58u8],
        Opcode::DEY => seq![0x44u8, 0x45u8, 0x59u8],
        Opcode::EOR => seq![0x45u8, 0x4Fu8, 0x52u8],
        Opcode::ERR => seq![0x3Fu8, 0x3Fu8, 0x3Fu8],
        Opcode::INC => seq![0x49u8, 0x4Eu8, 0x43u8],
        Opcode::INX => seq![0x49u8, 0x4Eu8, 0x58u8],
        Opcode::INY => seq![0x49u8, 0x4Eu8, 0x59u8],
        Opcode::JMP => seq![0x4Au8, 0x4Du8, 0x50u8],
        Opcode::JSR => seq![0x4Au8, 0x53u8, 0x52u8],
        Opcode::LDA => seq![0x4Cu8, 0x44u8, 0x41u8],
        Opcode::LDX => seq![0x4Cu8, 0x44u8, 0x58u8],
        Opcode::LDY => seq![0x4Cu8, 0x44u8, 0x59u8],
        Opcode::LSR => seq![0x4Cu8, 0x53u8, 0x52u8],
        Opcode::NOP => seq![0x4Eu8, 0x4Fu8, 0x50u8],
        Opcode::ORA => seq![0x4Fu8, 0x52u8, 0x41u8],
        Opcode::PHA => seq![0x50u8, 0x48u8, 0x41u8],
        Opcode::PHP => seq![0x50u8, 0x48u8, 0x50u8],
        Opcode::PLA => seq![0x50u8, 0x4Cu8, 0x41u8],
        Opcode::PLP => seq![0x50u8, 0x4Cu8, 0x50u8],
        Opcode::ROL => seq![0x52u8, 0x4Fu8, 0x4Cu8],
        Opcode::ROR => seq![0x52u8, 0x4Fu8, 0x52u8],
        Opcode::RTI => seq![0x52u8, 0x54u8, 0x49u8],
        Opcode::RTS => seq![0x52u8, 0x54u8, 0x53u8],
        Opcode::SBC => seq![0x53u8, 0x42u8, 0x43u8],
        Opcode::SEC => seq![0x53u8, 0x45u8, 0x43u8],
        Opcode::SED => seq![0x53u8, 0x45u8, 0x44u8],
        Opcode::SEI => seq![0x53u8, 0x45u8, 0x49u8],
        Opcode::STA => seq![0x53u8, 0x54u8, 0x41u8],
        Opcode::STX => seq![0x53u8, 0x54u8, 0x58u8],
        Opcode::STY => seq![0x53u8, 0x54u8, 0x59u8],
        Opcode::TAX => seq![0x54u8, 0x41u8, 0x58u8],
        Opcode::TAY => seq![0x54u8, 0x41u8, 0x59u8],
        Opcode::TSX => seq![0x54u8, 0x53u8, 0x58u8],
        Opcode::TXA => seq![0x54u8, 0x58u8, 0x41u8],
        Opcode::TXS => seq![0x54u8, 0x58u8, 0x53u8],
        Opcode::TYA => seq![0x54u8, 0x59u8, 0x41u8],
    }
}

pub fn mnemonic_bytes(op: Opcode) -> (r: [u8; 3])
    ensures
        r@ == mnemonic(op),
{
    let r: [u8; 3] = match op {
        Opcode::ADC => [0x41u8, 0x44u8, 0x43u8],
        Opcode::AND => [0x41u8, 0x4Eu8, 0x44u8],
        Opcode::ASL => [0x41u8, 0x53u8, 0x4Cu8],
        Opcode::BCC => [0x42u8, 0x43u8, 0x43u8],
        Opcode::BCS => [0x42u8, 0x43u8, 0x53u8],
        Opcode::BEQ => [0x42u8, 0x45u8, 0x51u8],
        Opcode::BIT => [0x42u8, 0x49u8, 0x54u8],
        Opcode::BMI => [0x42u8, 0x4Du8, 0x49u8],
        Opcode::BNE => [0x42u8, 0x4Eu8, 0x45u8],
        Opcode::BPL => [0x42u8, 0x50u8, 0x4Cu8],
        Opcode::BRK => [0x42u8, 0x52u8, 0x4Bu8],
        Opcode::BVC => [0x42u8, 0x56u8, 0x43u8],
        Opcode::BVS => [0x42u8, 0x56u8, 0x53u8],
        Opcode::CLC => [0x43u8, 0x4Cu8, 0x43u8],
        Opcode::CLD => [0x43u8, 0x4Cu8, 0x44u8],
        Opcode::CLI => [0x43u8, 0x4Cu8, 0x49u8],
        Opcode::CLV => [0x43u8, 0x4Cu8, 0x56u8],
        Opcode::CMP => [0x43u8, 0x4Du8, 0x50u8],
        Opcode::CPX => [0x43u8, 0x50u8, 0x58u8],
        Opcode::CPY => [0x43u8, 0x50u8, 0x59u8],
        Opcode::DEC => [0x44u8, 0x45u8, 0x43u8],
        Opcode::DEX => [0x44u8, 0x45u8, 0x58u8],
        Opcode::DEY => [0x44u8, 0x45u8, 0x59u8],
        Opcode::EOR => [0x45u8, 0x4Fu8, 0x52u8],
        Opcode::ERR => [0x3Fu8, 0x3Fu8, 0x3Fu8],
        Opcode::INC => [0x49u8, 0x4Eu8, 0x43u8],
        Opcode::INX => [0x49u8, 0x4Eu8, 0x58u8],
        Opcode::INY => [0x49u8, 0x4Eu8, 0x59u8],
        Opcode::JMP => [0x4Au8, 0x4Du8, 0x50u8],
        Opcode::JSR => [0x4Au8, 0x53u8, 0x52u8],
        Opcode::LDA => [0x4Cu8, 0x44u8, 0x41u8],
        Opcode::LDX => [0x4Cu8, 0x44u8, 0x58u8],
        Opcode::LDY => [0x4Cu8, 0x44u8, 0x59u8],
        Opcode::LSR => [0x4Cu8, 0x53u8, 0x52u8],
        Opcode::NOP => [0x4Eu8, 0x4Fu8, 0x50u8],
        Opcode::ORA => [0x4Fu8, 0x52u8, 0x41u8],
        Opcode::PHA => [0x50u8, 0x48u8, 0x41u8],
        Opcode::PHP => [0x50u8, 0x48u8, 0x50u8],
        Opcode::PLA => [0x50u8, 0x4Cu8, 0x41u8],
        Opcode::PLP => [0x50u8, 0x4Cu8, 0x50u8],
        Opcode::ROL => [0x52u8, 0x4Fu8, 0x4Cu8],
        Opcode::ROR => [0x52u8, 0x4Fu8, 0x52u8],
        Opcode::RTI => [0x52u8, 0x54u8, 0x49u8],
        Opcode::RTS => [0x52u8, 0x54u8, 0x53u8],
        Opcode::SBC => [0x53u8, 0x42u8, 0x43u8],
        Opcode::SEC => [0x53u8, 0x45u8, 0x43u8],
        Opcode::SED => [0x53u8, 0x45u8, 0x44u8],
        Opcode::SEI => [0x53u8, 0x45u8, 0x49u8],
        Opcode::STA => [0x53u8, 0x54u8, 0x41u8],
        Opcode::STX => [0x53u8, 0x54u8, 0x58u8],
        Opcode::STY => [0x53u8, 0x54u8, 0x59u8],
        Opcode::TAX => [0x54u8, 0x41u8, 0x58u8],
        Opcode::TAY => [0x54u8, 0x41u8, 0x59u8],
        Opcode::TSX => [0x54u8, 0x53u8, 0x58u8],
        Opcode::TXA => [0x54u8, 0x58u8, 0x41u8],
        Opcode::TXS => [0x54u8, 0x58u8, 0x53u8],
        Opcode::TYA => [0x54u8, 0x59u8, 0x41u8],
    };
    assert(r@ =~= mnemonic(op));
    r
}

/// Upper-case hexadecimal digit of `n` (below 16), in ASCII.
pub open spec fn hex_digit(n: int) -> u8 {
    if n < 10 {
        (0x30 + n) as u8
    } else {
        (0x41 + n - 10) as u8
    }
}

/// Two upper-case hexadecimal digits of a byte, in ASCII.
pub open spec fn hex2(b: u8) -> Seq<u8> {
    seq![hex_digit(b as int / 16), hex_digit(b as int % 16)]
}

fn push_hex2(out: &mut Vec<u8>, b: u8)
    ensures
        final(out)@ == old(out)@ + hex2(b),
{
    let hi = b / 16;
    let lo = b % 16;
    out.push(if hi < 10 { 0x30 + hi } else { 0x41 + hi - 10 });
    out.push(if lo < 10 { 0x30 + lo } else { 0x41 + lo - 10 });
    assert(final(out)@ =~= old(out)@ + hex2(b));
}

/// Column `i` of a disassembly line: instruction byte `i` as two hex digits
/// and a space, or three spaces past the end of the instruction.
pub open spec fn column(bytes: Seq<u8>, i: int) -> Seq<u8> {
    if i < bytes.len() {
        hex2(bytes[i]) + seq![0x20u8]
    } else {
        seq![0x20u8, 0x20u8, 0x20u8]
    }
}

pub open spec fn columns(bytes: Seq<u8>, n: int) -> Seq<u8>
    decreases n,
{
    if n <= 0 {
        Seq::empty()
    } else {
        columns(bytes, n - 1) + column(bytes, n - 1)
    }
}

/// A disassembly line: four columns for the instruction bytes, then the
/// mnemonic and a space.
pub open spec fn disasm_text(bytes: Seq<u8>, op: Opcode) -> Seq<u8> {
    columns(bytes, 4) + mnemonic(op) + seq![0x20u8]
}

/// The bytes of the instruction at `addr`, as the bus reads them now.
pub open spec fn instruction_bytes(bus: Bus, addr: u16) -> Seq<u8> {
    let size = instruction_size(decode(bus.read_value(addr)).mode);
    Seq::new(size as nat, |i: int| bus.read_value(add16(addr, i)))
}

/// Disassembles the instruction at `addr` into one line of ASCII text.
/// Where reading the instruction's bytes disturbs no device, the line is
/// exactly the text of those bytes.
pub fn disasm(bus: &mut Bus, addr: u16) -> (r: Vec<u8>)
    requires
        old(bus).wf(),
    ensures
        final(bus).wf(),
        final(bus).connections == old(bus).connections,
        (forall|i: int| 0 <= i < 3 ==> old(bus).quiet(#[trigger] add16(addr, i))) ==> *final(bus)
            == *old(bus) && r@ == disasm_text(
            instruction_bytes(*old(bus), addr),
            decode(old(bus).read_value(addr)).opcode,
        ),
{
    let ghost b0 = *bus;
    let code = bus.cpu_read(addr);
    let ins = instruction_lookup(code);
    let size = get_instruction_size(&ins);
    let ghost quiet = forall|i: int| 0 <= i < 3 ==> b0.quiet(#[trigger] add16(addr, i));
    proof {
        if quiet {
            assert(b0.quiet(add16(addr, 0)));
            assert(add16(addr, 0) == addr);
        }
    }
    let ghost bytes = instruction_bytes(b0, addr);
    let mut out: Vec<u8> = Vec::new();
    let mut i: u16 = 0;
    while i < 4
        invariant
            0 <= i <= 4,
            bus.wf(),
            bus.connections == b0.connections,
            size == instruction_size(ins.mode),
            size <= 3,
            bytes == instruction_bytes(b0, addr),
            quiet == (forall|k: int| 0 <= k < 3 ==> b0.quiet(#[trigger] add16(addr, k))),
            quiet ==> *bus == b0 && ins == decode(b0.read_value(addr)) && bytes.len() == size
                && out@ == columns(bytes, i as int),
        decreases 4 - i,
    {
        if i < size {
            let a = addr.wrapping_add(i);
            proof {
                if quiet {
                    assert(a == add16(addr, i as int));
                    assert(b0.quiet(add16(addr, i as int)));
                }
            }
            let b = bus.cpu_read(a);
            proof {
                if quiet {
                    assert(b == bytes[i as int]);
                }
            }
            push_hex2(&mut out, b);
            out.push(0x20);
        } else {
            out.push(0x20);
            out.push(0x20);
            out.push(0x20);
        }
        proof {
            if quiet {
                assert(out@ =~= columns(bytes, i as int + 1));
            }
        }
        i = i + 1;
    }
    let m = mnemonic_bytes(ins.opcode);
    out.push(m[0]);
    out.push(m[1]);
    out.push(m[2]);
    out.push(0x20);
    proof {
        if quiet {
            assert(out@ =~= disasm_text(bytes, ins.opcode));
        }
    }
    out
}

} // verus!
