use vstd::prelude::*;

use crate::cpu::{add16, rel_target, word};
use crate::disasm::{disasm, disasm_text, hex2, hex_digit, instruction_bytes};
use crate::emulator::Emulator;
use crate::instructions::{decode, instruction_lookup, AddressingMode};

verus! {

/// Four upper-case hexadecimal digits of a word, in ASCII.
pub open spec fn hex4(w: u16) -> Seq<u8> {
    hex2((w / 256) as u8) + hex2((w % 256) as u8)
}

/// The decimal digits of `n`, in ASCII.
pub open spec fn dec(n: nat) -> Seq<u8>
    decreases n,
{
    if n < 10 {
        seq![(0x30 + n) as u8]
    } else {
        dec(n / 10) + seq![(0x30 + n % 10) as u8]
    }
}

/// A signed decimal number, with a leading minus when negative.
pub open spec fn signed_dec(v: int) -> Seq<u8> {
    if v < 0 {
        seq![0x2Du8] + dec((-v) as nat)
    } else {
        dec(v as nat)
    }
}

pub open spec fn spaces(n: int) -> Seq<u8> {
    Seq::new(if n > 0 { n as nat } else { 0 }, |i: int| 0x20u8)
}

/// `s` right-aligned in a field of `w` columns.
pub open spec fn pad_left(s: Seq<u8>, w: int) -> Seq<u8> {
    spaces(w - s.len()) + s
}

/// `s` left-aligned in a field of `w` columns.
pub open spec fn pad_right(s: Seq<u8>, w: int) -> Seq<u8> {
    s + spaces(w - s.len())
}

/// The operand column of a trace line for an instruction at `pc` in mode
/// `mode` whose operand bytes are `b1` and `b2`.
pub open spec fn operand_text(mode: AddressingMode, pc: u16, b1: u8, b2: u8) -> Seq<u8> {
    let w = word(b2, b1);
    match mode {
        AddressingMode::ABS => seq![0x24u8] + hex4(w) + seq![0x20u8],
        AddressingMode::ABX => seq![0x24u8] + hex4(w) + seq![0x2Cu8, 0x58, 0x20],
        AddressingMode::ABY => seq![0x24u8] + hex4(w) + seq![0x2Cu8, 0x59, 0x20],
        AddressingMode::REL => seq![0x24u8] + hex4(rel_target(add16(pc, 2), b1)) + seq![0x20u8],
        AddressingMode::IND => seq![0x28u8, 0x24] + hex4(w) + seq![0x29u8, 0x20],
        AddressingMode::IMP => Seq::empty(),
        AddressingMode::ACC => seq![0x41u8, 0x20],
        AddressingMode::IMM => seq![0x23u8, 0x24] + hex2(b1) + seq![0x20u8],
        AddressingMode::ZP0 => seq![0x24u8] + hex2(b1) + seq![0x20u8],
        AddressingMode::IZX => seq![0x28u8, 0x24] + hex2(b1) + seq![0x2Cu8, 0x58, 0x29, 0x20],
        AddressingMode::IZY => seq![0x28u8, 0x24] + hex2(b1) + seq![0x29u8, 0x2C, 0x59, 0x20],
        AddressingMode::ZPX => seq![0x24u8] + hex2(b1) + seq![0x2Cu8, 0x58, 0x20],
        AddressingMode::ZPY => seq![0x24u8] + hex2(b1) + seq![0x2Cu8, 0x59, 0x20],
    }
}

/// One line of the CPU trace for emulator state `e`: PC, the disassembled
/// bytes and mnemonic, the operand, A, X, Y, the flags, SP, the PPU's
/// scanline and dot, and the cycle count.
pub open spec fn trace_text(e: Emulator) -> Seq<u8> {
    let c = e.cpu;
    let b = c.bus;
    let pc = c.PC;
    let ins = decode(b.read_value(pc));
    hex4(pc) + seq![0x20u8] + disasm_text(instruction_bytes(b, pc), ins.opcode) + pad_right(
        operand_text(ins.mode, pc, b.read_value(add16(pc, 1)), b.read_value(add16(pc, 2))),
        20,
    ) + seq![0x41u8, 0x3A] + hex2(c.A) + seq![0x20u8, 0x58, 0x3A] + hex2(c.X) + seq![
        0x20u8,
        0x59,
        0x3A,
    ] + hex2(c.Y) + seq![0x20u8, 0x50, 0x3A] + hex2(c.flags.byte()) + seq![0x20u8, 0x53, 0x50, 0x3A]
        + hex2(c.SP) + seq![0x20u8, 0x50, 0x50, 0x55, 0x3A] + pad_left(
        signed_dec(b.ppu.scanline as int),
        3,
    ) + seq![0x2Cu8] + pad_left(signed_dec(b.ppu.cycle as int), 3) + seq![
        0x20u8,
        0x43,
        0x59,
        0x43,
        0x3A,
    ] + dec(c.total_cycles as nat) + seq![0x20u8, 0x0A]
}

fn push_hex2(out: &mut Vec<u8>, b: u8)
    ensures
        final(out)@ == old(out)@ + hex2(b),
{
    let hi = b / 16;
    let lo = b % 16;
    out.push(if hi < 10 { 0x30 + hi } else { 0x41 + hi - 10 });
    out.push(if lo < 10 { 0x30 + lo } else { 0x41 + lo - 10 });
    assert(final(out)@ =~= old(out)@ + hex2(b));
}

fn push_hex4(out: &mut Vec<u8>, w: u16)
    ensures
        final(out)@ == old(out)@ + hex4(w),
{
    push_hex2(out, (w / 256) as u8);
    push_hex2(out, (w % 256) as u8);
    assert(final(out)@ =~= old(out)@ + hex4(w));
}

fn push_bytes(out: &mut Vec<u8>, s: &[u8])
    ensures
        final(out)@ == old(out)@ + s@,
{
    let mut i: usize = 0;
    while i < s.len()
        invariant
            i <= s@.len(),
            out@ == old(out)@ + s@.subrange(0, i as int),
        decreases s@.len() - i,
    {
        out.push(s[i]);
        i = i + 1;
        assert(out@ =~= old(out)@ + s@.subrange(0, i as int));
    }
    assert(s@.subrange(0, s@.len() as int) =~= s@);
}

/// The decimal digits of `n`.
fn dec_bytes(n: u64) -> (r: Vec<u8>)
    ensures
        r@ == dec(n as nat),
    decreases n,
{
    if n < 10 {
        let mut v = Vec::new();
        v.push(0x30 + n as u8);
        assert(v@ =~= dec(n as nat));
        v
    } else {
        let mut v = dec_bytes(n / 10);
        v.push(0x30 + (n % 10) as u8);
        assert(v@ =~= dec(n as nat));
        v
    }
}

/// Appends `s` right-aligned in a field of `w` columns.
fn push_padded_left(out: &mut Vec<u8>, s: &Vec<u8>, w: usize)
    ensures
        final(out)@ == old(out)@ + pad_left(s@, w as int),
{
    let mut k: usize = s.len();
    while k < w
        invariant
            s@.len() <= k <= w || (k == s@.len() && k >= w),
            out@ == old(out)@ + spaces(k - s@.len()),
        decreases w - k,
    {
        out.push(0x20);
        k = k + 1;
        assert(out@ =~= old(out)@ + spaces(k - s@.len()));
    }
    let ghost before = out@;
    push_bytes(out, s.as_slice());
    assert(spaces(k - s@.len()) =~= spaces(w - s@.len()));
    assert(out@ =~= old(out)@ + pad_left(s@, w as int));
}

/// Appends `s` left-aligned in a field of `w` columns.
fn push_padded_right(out: &mut Vec<u8>, s: &Vec<u8>, w: usize)
    ensures
        final(out)@ == old(out)@ + pad_right(s@, w as int),
{
    push_bytes(out, s.as_slice());
    let mut k: usize = s.len();
    while k < w
        invariant
            s@.len() <= k <= w || (k == s@.len() && k >= w),
            out@ == old(out)@ + s@ + spaces(k - s@.len()),
        decreases w - k,
    {
        out.push(0x20);
        k = k + 1;
        assert(out@ =~= old(out)@ + s@ + spaces(k - s@.len()));
    }
    assert(spaces(k - s@.len()) =~= spaces(w - s@.len()));
    assert(out@ =~= old(out)@ + pad_right(s@, w as int));
}

fn signed_dec_bytes(v: i16) -> (r: Vec<u8>)
    ensures
        r@ == signed_dec(v as int),
{
    if v < 0 {
        let mut r = Vec::new();
        r.push(0x2D);
        let d = dec_bytes((-(v as i32)) as u64);
        push_bytes(&mut r, d.as_slice());
        r
    } else {
        dec_bytes(v as u64)
    }
}

#[verifier::rlimit(60)]
fn operand_bytes(mode: AddressingMode, pc: u16, b1: u8, b2: u8) -> (r: Vec<u8>)
    ensures
        r@ == operand_text(mode, pc, b1, b2),
{
    let w = (b2 as u16) * 256 + b1 as u16;
    let mut r: Vec<u8> = Vec::new();
    match mode {
        AddressingMode::ABS => {
            r.push(0x24);
            push_hex4(&mut r, w);
            r.push(0x20);
            assert(r@ =~= operand_text(mode, pc, b1, b2));
        },
        AddressingMode::ABX => {
            r.push(0x24);
            push_hex4(&mut r, w);
            push_bytes(&mut r, &[0x2C, 0x58, 0x20]);
            assert(r@ =~= operand_text(mode, pc, b1, b2));
        },
        AddressingMode::ABY => {
            r.push(0x24);
            push_hex4(&mut r, w);
            push_bytes(&mut r, &[0x2C, 0x59, 0x20]);
            assert(r@ =~= operand_text(mode, pc, b1, b2));
        },
        AddressingMode::REL => {
            let next = pc as u32 + 2;
            let t: u32 = if b1 >= 128 {
                (next + 0x10000 + b1 as u32 - 256) % 0x10000
            } else {
                (next + b1 as u32) % 0x10000
            };
            assert(t as u16 == rel_target(add16(pc, 2), b1));
            r.push(0x24);
            push_hex4(&mut r, t as u16);
            r.push(0x20);
            assert(r@ =~= operand_text(mode, pc, b1, b2));
        },
        AddressingMode::IND => {
            push_bytes(&mut r, &[0x28, 0x24]);
            push_hex4(&mut r, w);
            push_bytes(&mut r, &[0x29, 0x20]);
            assert(r@ =~= operand_text(mode, pc, b1, b2));
        },
        AddressingMode::IMP => {
            assert(r@ =~= operand_text(mode, pc, b1, b2));
        },
        AddressingMode::ACC => {
            push_bytes(&mut r, &[0x41, 0x20]);
            assert(r@ =~= operand_text(mode, pc, b1, b2));
        },
        AddressingMode::IMM => {
            push_bytes(&mut r, &[0x23, 0x24]);
            push_hex2(&mut r, b1);
            r.push(0x20);
            assert(r@ =~= operand_text(mode, pc, b1, b2));
        },
        AddressingMode::ZP0 => {
            r.push(0x24);
            push_hex2(&mut r, b1);
            r.push(0x20);
            assert(r@ =~= operand_text(mode, pc, b1, b2));
        },
        AddressingMode::IZX => {
            push_bytes(&mut r, &[0x28, 0x24]);
            push_hex2(&mut r, b1);
            push_bytes(&mut r, &[0x2C, 0x58, 0x29, 0x20]);
            assert(r@ =~= operand_text(mode, pc, b1, b2));
        },
        AddressingMode::IZY => {
            push_bytes(&mut r, &[0x28, 0x24]);
            push_hex2(&mut r, b1);
            push_bytes(&mut r, &[0x29, 0x2C, 0x59, 0x20]);
            assert(r@ =~= operand_text(mode, pc, b1, b2));
        },
        AddressingMode::ZPX => {
            r.push(0x24);
            push_hex2(&mut r, b1);
            push_bytes(&mut r, &[0x2C, 0x58, 0x20]);
            assert(r@ =~= operand_text(mode, pc, b1, b2));
        },
        AddressingMode::ZPY => {
            r.push(0x24);
            push_hex2(&mut r, b1);
            push_bytes(&mut r, &[0x2C, 0x59, 0x20]);
            assert(r@ =~= operand_text(mode, pc, b1, b2));
        },
    }
    r
}

/// Formats one line of the CPU trace. Where reading the instruction's
/// three bytes disturbs no device, the emulator is left as it was and the
/// line is exactly `trace_text` of it.
#[verifier::rlimit(100)]
#[verifier::spinoff_prover]
pub fn trace_line(e: &mut Emulator) -> (r: Vec<u8>)
    requires
        old(e).wf(),
    ensures
        final(e).wf(),
        final(e).cpu.bus.connections == old(e).cpu.bus.connections,
        (forall|i: int| 0 <= i < 3 ==> old(e).cpu.bus.quiet(#[trigger] add16(old(e).cpu.PC, i)))
            ==> *final(e) == *old(e) && r@ == trace_text(*old(e)),
{
    let ghost e0 = *e;
    let ghost quiet = forall|i: int| 0 <= i < 3 ==> e0.cpu.bus.quiet(#[trigger] add16(e0.cpu.PC, i));
    proof {
        if quiet {
            assert(e0.cpu.bus.quiet(add16(e0.cpu.PC, 0)));
            assert(e0.cpu.bus.quiet(add16(e0.cpu.PC, 1)));
            assert(e0.cpu.bus.quiet(add16(e0.cpu.PC, 2)));
            assert(add16(e0.cpu.PC, 0) == e0.cpu.PC);
        }
    }
    let pc = e.cpu.PC;
    let mut out: Vec<u8> = Vec::new();
    push_hex4(&mut out, pc);
    out.push(0x20);
    let text = disasm(&mut e.cpu.bus, pc);
    push_bytes(&mut out, text.as_slice());
    let code = e.cpu.bus.cpu_read(pc);
    let ins = instruction_lookup(code);
    let b1 = e.cpu.bus.cpu_read(pc.wrapping_add(1));
    let b2 = e.cpu.bus.cpu_read(pc.wrapping_add(2));
    let op = operand_bytes(ins.mode, pc, b1, b2);
    push_padded_right(&mut out, &op, 20);
    push_bytes(&mut out, &[0x41, 0x3A]);
    push_hex2(&mut out, e.cpu.A);
    push_bytes(&mut out, &[0x20, 0x58, 0x3A]);
    push_hex2(&mut out, e.cpu.X);
    push_bytes(&mut out, &[0x20, 0x59, 0x3A]);
    push_hex2(&mut out, e.cpu.Y);
    push_bytes(&mut out, &[0x20, 0x50, 0x3A]);
    let p = e.cpu.flags.to_byte();
    push_hex2(&mut out, p);
    push_bytes(&mut out, &[0x20, 0x53, 0x50, 0x3A]);
    push_hex2(&mut out, e.cpu.SP);
    push_bytes(&mut out, &[0x20, 0x50, 0x50, 0x55, 0x3A]);
    let sl = signed_dec_bytes(e.cpu.bus.ppu.scanline);
    push_padded_left(&mut out, &sl, 3);
    out.push(0x2C);
    let cy = signed_dec_bytes(e.cpu.bus.ppu.cycle);
    push_padded_left(&mut out, &cy, 3);
    push_bytes(&mut out, &[0x20, 0x43, 0x59, 0x43, 0x3A]);
    let t = dec_bytes(e.cpu.total_cycles as u64);
    push_bytes(&mut out, t.as_slice());
    push_bytes(&mut out, &[0x20, 0x0A]);
    proof {
        if quiet {
            assert(*e == e0);
            assert(out@ =~= trace_text(e0));
        }
    }
    out
}

} // verus!
