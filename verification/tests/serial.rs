use ferroboy::serial::{Serial, SB, SC};

#[test]
fn serial_starting_a_transfer_captures_the_byte_and_finishes_at_once() {
    let mut serial = Serial::new();
    serial.write(SB, b'A');
    serial.write(SC, 0x81);

    assert_eq!(serial.take_byte(), Some(b'A'));
    assert_eq!(serial.take_byte(), None);
    assert_eq!(serial.read(SC) & 0x80, 0);
}

#[test]
fn serial_writing_sb_alone_transfers_nothing() {
    let mut serial = Serial::new();
    serial.write(SB, b'A');
    assert_eq!(serial.take_byte(), None);
}

#[test]
fn tests_starting_a_transfer_captures_the_byte_and_finishes_at_once() {
    let mut serial = Serial::new();
    serial.write(SB, b'A');
    serial.write(SC, 0x81);

    assert_eq!(serial.take_byte(), Some(b'A'));
    assert_eq!(serial.take_byte(), None);
    assert_eq!(serial.read(SC) & 0x80, 0);
}

#[test]
fn tests_writing_sb_alone_transfers_nothing() {
    let mut serial = Serial::new();
    serial.write(SB, b'A');
    assert_eq!(serial.take_byte(), None);
}

#[test]
fn sc_reads_with_the_missing_bits_set() {
    let mut serial = Serial::new();
    assert_eq!(serial.read(SC), 0x7E);
    serial.write(SB, 0x42);
    assert_eq!(serial.read(SB), 0x42);
    serial.write(SC, 0x01);
    assert_eq!(serial.read(SC), 0x7F);
    assert_eq!(serial.take_byte(), None, "an external clock never arrives");
    assert_eq!(serial.read(0xFF03), 0xFF);
}

#[test]
fn the_serial_port_raises_no_interrupt() {
    let mut serial = Serial::new();
    assert_eq!(serial.tick(80), 0);
}
