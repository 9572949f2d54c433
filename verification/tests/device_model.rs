use boot_uart::device::SerialAdapter;

#[test]
fn data_register_transmits_while_latch_closed() {
    let mut adapter = SerialAdapter::new(0x3f8);
    adapter.write_byte(0x3f8, 0x41);
    adapter.write_byte(0x3f8, 0x42);
    assert_eq!(adapter.transmitted, vec![0x41, 0x42]);
    assert_eq!(adapter.divisor_low, 0);
}

#[test]
fn data_register_feeds_divisor_latch_while_open() {
    let mut adapter = SerialAdapter::new(0x3f8);
    adapter.write_byte(0x3fb, 0x80);
    adapter.write_byte(0x3f8, 9);
    adapter.write_byte(0x3f9, 1);
    assert_eq!(adapter.divisor_low, 9);
    assert_eq!(adapter.divisor_high, 1);
    assert!(adapter.transmitted.is_empty());
    assert_eq!(adapter.interrupt_enable, 0);
    // closing the latch routes the same offsets back to data and interrupts
    adapter.write_byte(0x3fb, 0x00);
    adapter.write_byte(0x3f8, 0x55);
    adapter.write_byte(0x3f9, 0x0f);
    assert_eq!(adapter.transmitted, vec![0x55]);
    assert_eq!(adapter.interrupt_enable, 0x0f);
    assert_eq!(adapter.divisor_low, 9);
}

#[test]
fn stores_outside_the_adapter_are_absorbed() {
    let mut adapter = SerialAdapter::new(0x3f8);
    adapter.write_byte(0x0060, 0xff);
    adapter.write_byte(0x3ff, 0xff); // one past the last register
    assert_eq!(adapter.line_control, 0);
    assert_eq!(adapter.modem_control, 0);
    assert!(adapter.transmitted.is_empty());
    assert_eq!(adapter.read_byte(0x0060), 0);
}

#[test]
fn status_registers_ignore_stores_and_read_zero() {
    let mut adapter = SerialAdapter::new(0x2e8);
    adapter.write_byte(0x2ed, 0xff);
    adapter.write_byte(0x2ee, 0xff);
    assert_eq!(adapter.read_byte(0x2ed), 0);
    assert_eq!(adapter.read_byte(0x2ee), 0);
}

#[test]
fn line_control_reads_back_what_was_stored() {
    let mut adapter = SerialAdapter::new(0x3f8);
    adapter.write_byte(0x3fb, 0x03);
    assert_eq!(adapter.read_byte(0x3fb), 0x03);
    adapter.write_byte(0x3fc, 0x03);
    assert_eq!(adapter.read_byte(0x3fc), 0x03);
}
