use vstd::prelude::*;

use crate::cpu::Cpu;
use crate::instructions::decode;
use crate::ppu::{dot_step, Ppu};

verus! {

/// An instruction takes exactly its cycles: if clock `i` of `trace` leads
/// from state `i` to state `i + 1`, the first clock starts an instruction
/// (no cycles left) and the trace runs for as many clocks as that
/// instruction's cycles (base count plus penalties), then no cycles are
/// left at the end, no clock but the first started an instruction, and the
/// registers stayed as the instruction left them.
pub proof fn lemma_instruction_takes_its_cycles(trace: Seq<Cpu>)
    requires
        trace.len() >= 2,
        trace[0].wf(),
        trace[0].cycles == 0,
        forall|i: int| 0 <= i < trace.len() - 1 ==> (#[trigger] trace[i]).clocked(trace[i + 1]),
        trace.len() == trace[1].cycles + 2,
    ensures
        trace.last().cycles == 0,
        forall|i: int| 1 <= i < trace.len() - 1 ==> (#[trigger] trace[i]).cycles > 0,
        forall|i: int|
            1 <= i < trace.len() ==> (#[trigger] trace[i]).PC == trace[1].PC && trace[i].A
                == trace[1].A && trace[i].X == trace[1].X && trace[i].Y == trace[1].Y
                && trace[i].SP == trace[1].SP && trace[i].flags == trace[1].flags,
        decode(trace[0].bus.read_value(trace[0].PC)).cycles <= trace.len() - 1,
{
    reveal(Cpu::instruction_ran);
    reveal(Cpu::clocked);
    assert(trace[0].clocked(trace[1]));
    lemma_count_down(trace, trace.len() - 1);
}

/// The clocks after the one that started an instruction only count down.
proof fn lemma_count_down(trace: Seq<Cpu>, k: int)
    requires
        1 <= k < trace.len(),
        trace.len() == trace[1].cycles + 2,
        forall|i: int| 0 <= i < trace.len() - 1 ==> (#[trigger] trace[i]).clocked(trace[i + 1]),
    ensures
        forall|i: int| 1 <= i <= k ==> (#[trigger] trace[i]).cycles == trace[1].cycles - (i - 1),
        forall|i: int|
            1 <= i <= k ==> (#[trigger] trace[i]).PC == trace[1].PC && trace[i].A == trace[1].A
                && trace[i].X == trace[1].X && trace[i].Y == trace[1].Y && trace[i].SP
                == trace[1].SP && trace[i].flags == trace[1].flags,
    decreases k,
{
    reveal(Cpu::clocked);
    if k > 1 {
        lemma_count_down(trace, k - 1);
        assert(trace[k - 1].clocked(trace[k]));
        assert(trace[k - 1].cycles > 0);
    }
}

/// With vertical mirroring the name tables at 0x2000 and 0x2800 are the
/// same memory; with horizontal mirroring those at 0x2000 and 0x2400 are.
pub proof fn lemma_name_table_mirroring(p: Ppu, k: u16)
    requires
        p.wf(),
        k < 0x400,
    ensures
        p.cartridge.vertical_mirror ==> p.read_spec((0x2000 + k) as u16) == p.read_spec(
            (0x2800 + k) as u16,
        ),
        !p.cartridge.vertical_mirror ==> p.read_spec((0x2000 + k) as u16) == p.read_spec(
            (0x2400 + k) as u16,
        ),
{
}

/// Palette entries 0x3F10, 0x3F14, 0x3F18 and 0x3F1C read as 0x3F00, 0x3F04,
/// 0x3F08 and 0x3F0C.
pub proof fn lemma_palette_mirroring(p: Ppu)
    requires
        p.wf(),
    ensures
        p.read_spec(0x3F10) == p.read_spec(0x3F00),
        p.read_spec(0x3F14) == p.read_spec(0x3F04),
        p.read_spec(0x3F18) == p.read_spec(0x3F08),
        p.read_spec(0x3F1C) == p.read_spec(0x3F0C),
{
}

/// Where the PPU stands after `n` dots from (`scanline`, `cycle`, `odd`),
/// with rendering on or off throughout.
pub open spec fn dots(scanline: int, cycle: int, odd: bool, rendering: bool, n: nat) -> (
    int,
    int,
    bool,
)
    decreases n,
{
    if n == 0 {
        (scanline, cycle, odd)
    } else {
        let t = dots(scanline, cycle, odd, rendering, (n - 1) as nat);
        dot_step(t.0, t.1, t.2, rendering)
    }
}

/// Dots in a frame that starts with odd-frame flag `odd`: one fewer on odd
/// frames with rendering on.
pub open spec fn frame_length(odd: bool, rendering: bool) -> int {
    if odd && rendering {
        89341
    } else {
        89342
    }
}

/// Index of a dot in the frame, counting from the first dot of the
/// pre-render scanline.
pub open spec fn dot_index(t: (int, int, bool)) -> int {
    (t.0 + 1) * 341 + t.1
}

/// The first `k` dots of a frame: the position is in range, the frame has
/// not flipped, and the dot index is `k`, or `k + 1` past the skipped dot.
proof fn lemma_frame_prefix(odd: bool, rendering: bool, k: nat)
    requires
        k <= frame_length(odd, rendering) - 1,
    ensures
        ({
            let t = dots(-1, 0, odd, rendering, k);
            &&& -1 <= t.0 <= 260
            &&& 0 <= t.1 <= 340
            &&& t.2 == odd
            &&& dot_index(t) == k + if odd && rendering && k >= 342 {
                1int
            } else {
                0
            }
        }),
    decreases k,
{
    if k > 0 {
        lemma_frame_prefix(odd, rendering, (k - 1) as nat);
    }
}

/// Frame length: from the start of a frame (just after the frame-complete
/// signal), the next frame-complete signal comes after exactly 89 342 dots,
/// or 89 341 on an odd frame with rendering on; the dot that ends the frame
/// is the last one, and the next frame starts with the odd-frame flag flipped.
/// With the PPU clocked once per master clock, these are master clocks.
pub proof fn lemma_frame_length(odd: bool, rendering: bool)
    ensures
        ({
            let f = frame_length(odd, rendering);
            &&& dots(-1, 0, odd, rendering, (f - 1) as nat) == (260int, 340int, odd)
            &&& dots(-1, 0, odd, rendering, f as nat) == (-1int, 0int, !odd)
            &&& forall|k: nat|
                k < f - 1 ==> !(#[trigger] dots(-1, 0, odd, rendering, k).0 == 260 && dots(
                    -1,
                    0,
                    odd,
                    rendering,
                    k,
                ).1 == 340)
        }),
{
    let f = frame_length(odd, rendering);
    lemma_frame_prefix(odd, rendering, (f - 1) as nat);
    assert forall|k: nat| k < f - 1 implies !(#[trigger] dots(-1, 0, odd, rendering, k).0 == 260
        && dots(-1, 0, odd, rendering, k).1 == 340) by {
        lemma_frame_prefix(odd, rendering, k);
    }
}

} // verus!
