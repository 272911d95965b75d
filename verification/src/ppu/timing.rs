//! The PPU's timing over whole lines and frames, one dot at a time.

use vstd::prelude::*;
use crate::ppu::{Mode, PpuModel, SCANLINES, VISIBLE_SCANLINES};

verus! {

/// `n` one-dot ticks, one after another.
pub open spec fn run_dots(p: PpuModel, n: nat) -> PpuModel
    decreases n,
{
    if n == 0 {
        p
    } else {
        run_dots(p.tick_spec(1).0, (n - 1) as nat)
    }
}

/// How many dots a mode lasts on a line with the LCD on.
pub open spec fn mode_dots(mode: Mode) -> int {
    match mode {
        Mode::OamScan => 80,
        Mode::Drawing => 172,
        Mode::HBlank => 204,
        Mode::VBlank => 456,
    }
}

/// The first dot of line `line`, with the LCD on: OAM scan on a visible line,
/// VBlank below them.
pub open spec fn at_line_start(p: PpuModel, line: int) -> bool {
    &&& p.lcd_on()
    &&& p.dots == 0
    &&& p.ly == line
    &&& p.mode == if line < VISIBLE_SCANLINES { Mode::OamScan } else { Mode::VBlank }
}

proof fn lemma_run_dots_split(p: PpuModel, a: nat, b: nat)
    ensures
        run_dots(p, a + b) == run_dots(run_dots(p, a), b),
    decreases a,
{
    if a > 0 {
        lemma_run_dots_split(p.tick_spec(1).0, (a - 1) as nat, b);
        assert((a + b - 1) as nat == ((a - 1) as nat + b) as nat);
    }
}

proof fn lemma_one_dot(p: PpuModel)
    ensures
        run_dots(p, 1) == p.tick_spec(1).0,
{
    reveal_with_fuel(run_dots, 2);
}

/// Within a mode, dots only count up.
proof fn lemma_wait(p: PpuModel, k: nat)
    requires
        p.lcd_on(),
        p.dots + k < mode_dots(p.mode),
    ensures
        run_dots(p, k) == (PpuModel { dots: (p.dots + k) as u32, ..p }),
    decreases k,
{
    if k > 0 {
        let q = p.tick_spec(1).0;
        assert(q == PpuModel { dots: (p.dots + 1) as u32, ..p });
        lemma_wait(q, (k - 1) as nat);
    }
}

/// One visible or VBlank line takes 456 dots and ends at the start of the
/// next; the frame is reported on entering line 144.
proof fn lemma_line(p: PpuModel, line: int)
    requires
        at_line_start(p, line),
        0 <= line < SCANLINES,
    ensures
        at_line_start(run_dots(p, 456), (line + 1) % (SCANLINES as int)),
        run_dots(p, 456).lcdc == p.lcdc,
        run_dots(p, 456).frame_ready == (p.frame_ready || line + 1 == VISIBLE_SCANLINES),
{
    if line < VISIBLE_SCANLINES {
        lemma_wait(p, 79);
        let a = run_dots(p, 79);
        let b = a.tick_spec(1).0;
        assert(b.mode == Mode::Drawing && b.dots == 0 && b.ly == p.ly && b.lcdc == p.lcdc
            && b.frame_ready == p.frame_ready);
        lemma_run_dots_split(p, 79, 1);
        lemma_one_dot(a);
        lemma_wait(b, 171);
        let c = run_dots(b, 171);
        let d = c.tick_spec(1).0;
        assert(d.mode == Mode::HBlank && d.dots == 0 && d.ly == p.ly && d.lcdc == p.lcdc
            && d.frame_ready == p.frame_ready);
        lemma_run_dots_split(b, 171, 1);
        lemma_one_dot(c);
        lemma_run_dots_split(p, 80, 172);
        lemma_wait(d, 203);
        let e = run_dots(d, 203);
        let f = e.tick_spec(1).0;
        lemma_run_dots_split(d, 203, 1);
        lemma_one_dot(e);
        lemma_run_dots_split(p, 252, 204);
        assert(run_dots(p, 456) == f);
    } else {
        lemma_wait(p, 455);
        lemma_run_dots_split(p, 455, 1);
        lemma_one_dot(run_dots(p, 455));
    }
}

/// `k` lines from the start of line `line` end at the start of line
/// `line + k` (line 0 after line 153); the frame is reported on the way exactly
/// when the run enters line 144.
proof fn lemma_lines(p: PpuModel, line: int, k: nat)
    requires
        at_line_start(p, line),
        0 <= line < SCANLINES,
        line + k <= SCANLINES,
    ensures
        at_line_start(run_dots(p, 456 * k), (line + k) % (SCANLINES as int)),
        run_dots(p, 456 * k).lcdc == p.lcdc,
        run_dots(p, 456 * k).frame_ready == (p.frame_ready || (line < VISIBLE_SCANLINES <= line + k)),
    decreases k,
{
    if k == 1 {
        lemma_line(p, line);
    } else if k > 1 {
        lemma_line(p, line);
        let q = run_dots(p, 456);
        lemma_lines(q, line + 1, (k - 1) as nat);
        lemma_run_dots_split(p, 456, 456 * (k - 1) as nat);
        assert(456 + 456 * (k - 1) as nat == 456 * k) by (nonlinear_arith)
            requires
                k > 0;
    }
}

/// A frame is 70224 dots: from the top of a frame with the LCD on, VBlank
/// begins after 144 lines of 456 dots with the frame reported, and 70224 dots
/// come back to OAM scan at the top.
pub proof fn law_a_frame_is_70224_dots(p: PpuModel)
    requires
        at_line_start(p, 0),
    ensures
        run_dots(p, 65664).ly == 144,
        run_dots(p, 65664).mode == Mode::VBlank,
        run_dots(p, 65664).frame_ready,
        at_line_start(run_dots(p, 70224), 0),
        run_dots(p, 70224).frame_ready,
{
    lemma_lines(p, 0, 144);
    lemma_lines(p, 0, 154);
}

} // verus!
