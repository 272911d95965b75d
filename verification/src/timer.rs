use vstd::prelude::*;
use crate::interrupts;

verus! {

pub const DIV: u16 = 0xFF04;
pub const TIMA: u16 = 0xFF05;
pub const TMA: u16 = 0xFF06;
pub const TAC: u16 = 0xFF07;

pub const TAC_ENABLE: u8 = 0x04;

/// The bit of the divider whose falling edge clocks TIMA, for a TAC clock select.
pub open spec fn selected_bit_spec(tac: u8) -> u16 {
    let select = tac % 4;
    if select == 0 {
        0x200
    } else if select == 1 {
        0x08
    } else if select == 2 {
        0x20
    } else {
        0x80
    }
}

/// DIV, TIMA, TMA and TAC: a 16-bit divider counting T-cycles, and a counter
/// clocked by the falling edge of one divider bit that reloads from TMA when it
/// overflows.
pub struct Timer {
    pub div: u16,
    pub tima: u8,
    pub tma: u8,
    pub tac: u8,
}

impl Timer {
    pub open spec fn enabled(self) -> bool {
        self.tac & TAC_ENABLE != 0
    }

    /// One T-cycle: the timer after it, and the interrupts it raised.
    pub open spec fn tick1(self) -> (Timer, u8) {
        let div = ((self.div + 1) % 65536) as u16;
        let bit = selected_bit_spec(self.tac);
        let falling = self.enabled() && self.div & bit != 0 && div & bit == 0;
        if !falling {
            (Timer { div, ..self }, 0)
        } else if self.tima == 255 {
            (Timer { div, tima: self.tma, ..self }, interrupts::TIMER)
        } else {
            (Timer { div, tima: (self.tima + 1) as u8, ..self }, 0)
        }
    }

    /// `n` T-cycles, one after another: the timer after them, and every interrupt raised.
    pub open spec fn tick_n(self, n: nat) -> (Timer, u8)
        decreases n,
    {
        if n == 0 {
            (self, 0)
        } else {
            let (before, raised) = self.tick_n((n - 1) as nat);
            let (after, more) = before.tick1();
            (after, raised | more)
        }
    }

    pub open spec fn read_spec(self, address: u16) -> u8 {
        if address == DIV {
            (self.div / 256) as u8
        } else if address == TIMA {
            self.tima
        } else if address == TMA {
            self.tma
        } else if address == TAC {
            self.tac | 0xF8
        } else {
            0xFF
        }
    }

    pub open spec fn write_spec(self, address: u16, value: u8) -> Timer {
        if address == DIV {
            Timer { div: 0, ..self }
        } else if address == TIMA {
            Timer { tima: value, ..self }
        } else if address == TMA {
            Timer { tma: value, ..self }
        } else if address == TAC {
            Timer { tac: value & 0x07, ..self }
        } else {
            self
        }
    }

    pub fn new() -> (t: Self)
        ensures
            t == (Timer { div: 0, tima: 0, tma: 0, tac: 0 }),
    {
        Timer { div: 0, tima: 0, tma: 0, tac: 0 }
    }

    fn selected_bit(&self) -> (r: u16)
        ensures
            r == selected_bit_spec(self.tac),
    {
        let select = self.tac & 0x03;
        proof {
            let tac = self.tac;
            crate::bits::lemma_u8_bits(tac);
        }
        if select == 0 {
            0x200
        } else if select == 1 {
            0x08
        } else if select == 2 {
            0x20
        } else {
            0x80
        }
    }

    fn is_falling_edge(&self, previous: u16) -> (r: bool)
        ensures
            r == (self.enabled() && previous & selected_bit_spec(self.tac) != 0 && self.div
                & selected_bit_spec(self.tac) == 0),
    {
        let bit = self.selected_bit();
        self.tac & TAC_ENABLE != 0 && previous & bit != 0 && self.div & bit == 0
    }

    fn increment_tima(&mut self) -> (r: u8)
        ensures
            final(self).div == old(self).div && final(self).tma == old(self).tma,
            final(self).tac == old(self).tac,
            old(self).tima == 255 ==> final(self).tima == old(self).tma && r == interrupts::TIMER,
            old(self).tima != 255 ==> final(self).tima == old(self).tima + 1 && r == 0,
    {
        if self.tima == 255 {
            self.tima = self.tma;
            interrupts::TIMER
        } else {
            self.tima = self.tima + 1;
            0
        }
    }

    /// Runs the timer for `t_cycles` T-cycles and returns the interrupts raised.
    pub fn tick(&mut self, t_cycles: u8) -> (r: u8)
        ensures
            (*final(self), r) == old(self).tick_n(t_cycles as nat),
    {
        let mut interrupts: u8 = 0;
        let mut i: u8 = 0;
        while i < t_cycles
            invariant
                i <= t_cycles,
                (*self, interrupts) == old(self).tick_n(i as nat),
            decreases t_cycles - i,
        {
            let previous = self.div;
            self.div = self.div.wrapping_add(1);
            if self.is_falling_edge(previous) {
                let raised = self.increment_tima();
                interrupts = interrupts | raised;
            } else {
                proof {
                    crate::bits::lemma_u8_bits(interrupts);
                }
            }
            i = i + 1;
        }
        interrupts
    }

    pub fn read(&self, address: u16) -> (r: u8)
        ensures
            r == self.read_spec(address),
    {
        if address == DIV {
            proof {
                let d = self.div;
                assert(d >> 8 == d / 256) by (bit_vector);
            }
            (self.div >> 8) as u8
        } else if address == TIMA {
            self.tima
        } else if address == TMA {
            self.tma
        } else if address == TAC {
            self.tac | 0xF8
        } else {
            0xFF
        }
    }

    pub fn write(&mut self, address: u16, value: u8)
        ensures
            *final(self) == old(self).write_spec(address, value),
    {
        if address == DIV {
            self.div = 0;
        } else if address == TIMA {
            self.tima = value;
        } else if address == TMA {
            self.tma = value;
        } else if address == TAC {
            self.tac = value & 0x07;
        }
    }
}

/// Any write to DIV resets the divider: DIV then reads 0.
pub proof fn law_div_write_resets(t: Timer, value: u8)
    ensures
        t.write_spec(DIV, value).read_spec(DIV) == 0,
{
}

/// TAC's top five bits do not exist and always read as 1; the low three read back.
pub proof fn law_tac_reads_back(t: Timer, value: u8)
    ensures
        t.write_spec(TAC, value).read_spec(TAC) == value | 0xF8,
{
    assert((value & 0x07) | 0xF8 == value | 0xF8) by (bit_vector);
}

/// A timer tick raises no interrupt but the timer's own.
pub proof fn law_timer_raises_only_timer(t: Timer, n: nat)
    ensures
        t.tick_n(n).1 & !interrupts::TIMER == 0,
    decreases n,
{
    if n == 0 {
        assert(0u8 & !4u8 == 0) by (bit_vector);
    } else {
        law_timer_raises_only_timer(t, (n - 1) as nat);
        let (before, raised) = t.tick_n((n - 1) as nat);
        let (after, more) = before.tick1();
        assert(more == 0 || more == 4);
        assert(raised & !4u8 == 0 && (more == 0 || more == 4) ==> (raised | more) & !4u8 == 0)
            by (bit_vector);
    }
}

/// How many T-cycles TIMA takes to count once: twice the selected divider bit.
pub open spec fn period_spec(tac: u8) -> int {
    2 * selected_bit_spec(tac)
}

/// The selected divider bit falls exactly when the divider passes a multiple
/// of the period.
proof fn lemma_falling_edge(d: u16)
    by (bit_vector)
    ensures
        (d & 0x08 != 0 && ((d + 1) % 65536) as u16 & 0x08 == 0) == ((d + 1) % 16 == 0),
        (d & 0x20 != 0 && ((d + 1) % 65536) as u16 & 0x20 == 0) == ((d + 1) % 64 == 0),
        (d & 0x80 != 0 && ((d + 1) % 65536) as u16 & 0x80 == 0) == ((d + 1) % 256 == 0),
        (d & 0x200 != 0 && ((d + 1) % 65536) as u16 & 0x200 == 0) == ((d + 1) % 1024 == 0),
{
}

/// From the start of a period, TIMA holds for a period less one cycle and
/// counts on its last cycle, reloading from TMA past 255.
proof fn lemma_one_period(t: Timer, k: nat)
    requires
        t.enabled(),
        t.div as int % period_spec(t.tac) == 0,
        k <= period_spec(t.tac),
    ensures
        t.tick_n(k).0.div == (t.div + k) % 65536,
        t.tick_n(k).0.tac == t.tac,
        t.tick_n(k).0.tma == t.tma,
        t.tick_n(k).0.tima == if k == period_spec(t.tac) {
            if t.tima == 255 { t.tma } else { (t.tima + 1) as u8 }
        } else {
            t.tima
        },
    decreases k,
{
    if k > 0 {
        lemma_one_period(t, (k - 1) as nat);
        let before = t.tick_n((k - 1) as nat).0;
        lemma_falling_edge(before.div);
        let sel = t.tac % 4;
        lemma_period_arith(t.div as int, k as int, period_spec(t.tac));
        if sel == 0 {
            assert(period_spec(t.tac) == 1024);
        } else if sel == 1 {
            assert(period_spec(t.tac) == 16);
        } else if sel == 2 {
            assert(period_spec(t.tac) == 64);
        } else {
            assert(period_spec(t.tac) == 256);
        }
    }
}

/// The divider before the k-th cycle of a period, plus one, is a multiple of
/// the period exactly on the last cycle.
proof fn lemma_period_arith(d: int, k: int, p: int)
    requires
        p == 16 || p == 64 || p == 256 || p == 1024,
        0 <= d < 65536,
        d % p == 0,
        1 <= k <= p,
    ensures
        (((d + k - 1) % 65536) + 1) % p == 0 <==> k == p,
{
    let m = d + k - 1;
    if m < 65536 {
        assert(m % 65536 == m);
    } else {
        assert(m % 65536 == m - 65536);
    }
    let j = d / p;
    assert(d == p * j) by {
        assert(d == p * (d / p) + d % p) by (nonlinear_arith)
            requires
                p > 0;
    }
    if p == 16 {
        assert(65536 == 16 * 4096);
    } else if p == 64 {
        assert(65536 == 64 * 1024);
    } else if p == 256 {
        assert(65536 == 256 * 256);
    } else {
        assert(65536 == 1024 * 64);
    }
    vstd::arithmetic::div_mod::lemma_mod_multiples_vanish(j, k, p);
    let e = 65536int / p;
    assert(p * e == 65536);
    vstd::arithmetic::div_mod::lemma_mod_multiples_vanish(j - e, k, p);
    assert(p * (j - e) == p * j - p * e) by (nonlinear_arith);
}

/// With the timer on, TIMA counts once per period: 1024, 16, 64 or 256
/// T-cycles for TAC clock select 0, 1, 2 or 3, counted from a multiple of
/// the period; past 255 it reloads from TMA.
pub proof fn law_tima_counts_once_per_period(t: Timer)
    requires
        t.enabled(),
        t.div as int % period_spec(t.tac) == 0,
    ensures
        period_spec(t.tac) == if t.tac % 4 == 0 {
            1024
        } else if t.tac % 4 == 1 {
            16
        } else if t.tac % 4 == 2 {
            64
        } else {
            256int
        },
        t.tick_n((period_spec(t.tac) - 1) as nat).0.tima == t.tima,
        t.tick_n(period_spec(t.tac) as nat).0.tima == if t.tima == 255 { t.tma as int } else { t.tima + 1 },
{
    lemma_one_period(t, (period_spec(t.tac) - 1) as nat);
    lemma_one_period(t, period_spec(t.tac) as nat);
}

} // verus!
