use boot_uart::device::SerialAdapter;
use boot_uart::init::{initialize_essentials, initialize_serial};
use boot_uart::ports::{port_command, Command, SerialPort};
use boot_uart::uart::{
    divisor_and_test_writes, setup_writes, PortWrite, DEFAULT_BAUD, DEFAULT_DIVISOR,
    DIVISOR_LATCH_BIT, UART_CLOCK_HZ,
};

#[test]
fn divisor_recovers_target_baud_exactly() {
    assert_eq!(DEFAULT_DIVISOR, 12);
    assert_eq!(UART_CLOCK_HZ / DEFAULT_DIVISOR as u32, DEFAULT_BAUD);
    assert_eq!(UART_CLOCK_HZ / DEFAULT_BAUD, DEFAULT_DIVISOR as u32);
    assert_eq!(DEFAULT_DIVISOR as u32 * DEFAULT_BAUD, UART_CLOCK_HZ);
}

#[test]
fn resolved_address_is_base_plus_offset() {
    assert_eq!(port_command(SerialPort::Com1, Command::LineControl), 0x3fb);
    assert_eq!(port_command(SerialPort::Com1, Command::WriteRead), 0x3f8);
    assert_eq!(port_command(SerialPort::Com2, Command::ModemStatus), 0x2fe);
    assert_eq!(port_command(SerialPort::Com5, Command::LineStatus), 0x5fd);
    assert_eq!(port_command(SerialPort::Com8, Command::InterruptEnable), 0x4e9);
    let ports = [
        SerialPort::Com1,
        SerialPort::Com2,
        SerialPort::Com3,
        SerialPort::Com4,
        SerialPort::Com5,
        SerialPort::Com6,
        SerialPort::Com7,
        SerialPort::Com8,
    ];
    let commands = [
        Command::WriteRead,
        Command::InterruptEnable,
        Command::InterruptIdFifoControl,
        Command::LineControl,
        Command::ModemControl,
        Command::LineStatus,
        Command::ModemStatus,
    ];
    for port in ports {
        for command in commands {
            assert_eq!(port_command(port, command), port.base() + command.offset());
        }
    }
}

#[test]
fn setup_plan_programs_format_then_masks() {
    let plan = setup_writes(SerialPort::Com1);
    let expected = vec![
        PortWrite { address: 0x3fb, value: 0x03 },
        PortWrite { address: 0x3f9, value: 0x00 },
        PortWrite { address: 0x3fa, value: 0x00 },
        PortWrite { address: 0x3fc, value: 0x03 },
    ];
    assert_eq!(plan, expected);
}

#[test]
fn latch_opens_before_and_closes_after_divisor_bytes() {
    let port = SerialPort::Com1;
    let mut plan = setup_writes(port);
    plan.extend(divisor_and_test_writes(port, 0x03));
    let lcr = port_command(port, Command::LineControl);
    assert_eq!(plan.len(), 12);
    // the write strictly before the divisor bytes raises the latch bit
    assert_eq!(plan[4].address, lcr);
    assert_ne!(plan[4].value & DIVISOR_LATCH_BIT, 0);
    // both divisor bytes, low then high
    assert_eq!(plan[5], PortWrite { address: 0x3f8, value: 12 });
    assert_eq!(plan[6], PortWrite { address: 0x3f9, value: 0 });
    // the write strictly after them lowers the latch bit again
    assert_eq!(plan[7].address, lcr);
    assert_eq!(plan[7].value & DIVISOR_LATCH_BIT, 0);
    // replaying the plan: the latch is open at exactly the divisor writes
    let mut dlab = false;
    for (i, w) in plan.iter().enumerate() {
        if i == 5 || i == 6 {
            assert!(dlab);
        } else if w.address == 0x3f8 {
            assert!(!dlab);
        }
        if w.address == lcr {
            dlab = w.value & DIVISOR_LATCH_BIT != 0;
        }
    }
}

#[test]
fn toggle_sequence_preserves_captured_format_bits() {
    let captured: u8 = 0x6a;
    let plan = divisor_and_test_writes(SerialPort::Com3, captured);
    // the opening and closing line-control writes keep every non-latch bit
    assert_eq!(plan[0].value & !DIVISOR_LATCH_BIT, captured & !DIVISOR_LATCH_BIT);
    assert_eq!(plan[3].value & !DIVISOR_LATCH_BIT, captured & !DIVISOR_LATCH_BIT);
    assert_eq!(plan[3].value & DIVISOR_LATCH_BIT, 0);
}

#[test]
fn primary_adapter_emits_exactly_the_test_bytes() {
    let mut adapter = SerialAdapter::new(0x3f8);
    initialize_essentials(0, &mut adapter);
    assert_eq!(adapter.transmitted, vec![0x74, 0x65, 0x73, 0x74]);
    assert_eq!(adapter.divisor_low, 12);
    assert_eq!(adapter.divisor_high, 0);
    assert_eq!(adapter.line_control, 0x03);
    assert_eq!(adapter.interrupt_enable, 0x00);
    assert_eq!(adapter.fifo_control, 0x00);
    assert_eq!(adapter.modem_control, 0x03);
}

#[test]
fn secondary_adapter_initializes_the_same_way() {
    let mut adapter = SerialAdapter::new(0x2f8);
    initialize_serial(SerialPort::Com2, &mut adapter);
    assert_eq!(adapter.transmitted, vec![0x74, 0x65, 0x73, 0x74]);
    assert_eq!(adapter.divisor_high as u16 * 256 + adapter.divisor_low as u16, DEFAULT_DIVISOR);
}

#[test]
fn initialization_is_silent_on_other_registers_until_the_message() {
    let mut adapter = SerialAdapter::new(0x3f8);
    initialize_essentials(0, &mut adapter);
    // nothing precedes the four test bytes and nothing interleaves them
    assert_eq!(adapter.transmitted.len(), 4);
    let mut again = SerialAdapter::new(0x3f8);
    initialize_essentials(0x1_0000, &mut again);
    assert_eq!(again.transmitted, adapter.transmitted);
}

#[test]
fn fault_directive_is_the_terminal_state() {
    let directive = boot_uart::fault::panic();
    assert!(directive.interrupts_masked);
    assert!(directive.wait_forever);
}
