use ferroboy::interrupts;
use ferroboy::timer::{Timer, DIV, TAC, TAC_ENABLE, TIMA, TMA};

#[test]
fn div_counts_every_256_cycles_and_any_write_resets_it() {
    let mut timer = Timer::new();
    for _ in 0..4 {
        timer.tick(64);
    }
    assert_eq!(timer.read(DIV), 1);
    timer.write(DIV, 0x55);
    assert_eq!(timer.read(DIV), 0);
}

#[test]
fn tac_reads_with_the_top_bits_set() {
    let mut timer = Timer::new();
    timer.write(TAC, 0xFF);
    assert_eq!(timer.read(TAC), 0xFF);
    timer.write(TAC, 0x05);
    assert_eq!(timer.read(TAC), 0xFD);
}

#[test]
fn the_fastest_rate_counts_every_16_cycles() {
    let mut timer = Timer::new();
    timer.write(TAC, TAC_ENABLE | 0x01);
    timer.tick(64);
    assert_eq!(timer.read(TIMA), 4);
}

#[test]
fn an_overflow_reloads_from_tma_and_interrupts() {
    let mut timer = Timer::new();
    timer.write(TMA, 0xAB);
    timer.write(TIMA, 0xFF);
    timer.write(TAC, TAC_ENABLE | 0x01);
    assert_eq!(timer.tick(16), interrupts::TIMER);
    assert_eq!(timer.read(TIMA), 0xAB);
}

#[test]
fn a_stopped_timer_does_not_count() {
    let mut timer = Timer::new();
    timer.write(TAC, 0x01);
    assert_eq!(timer.tick(80), 0);
    assert_eq!(timer.read(TIMA), 0);
}

#[test]
fn each_clock_select_counts_once_per_period() {
    for (select, period) in [(0u8, 1024u32), (1, 16), (2, 64), (3, 256)] {
        let mut timer = Timer::new();
        timer.write(TAC, TAC_ENABLE | select);
        for _ in 0..period - 1 {
            timer.tick(1);
        }
        assert_eq!(timer.read(TIMA), 0, "select {select}");
        timer.tick(1);
        assert_eq!(timer.read(TIMA), 1, "select {select}");
    }
}
