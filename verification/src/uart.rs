//! The serial line initialization protocol as data: the exact, ordered
//! sequences of register writes that bring an adapter to 8N1, 9600 baud,
//! interrupts and FIFO off, and transmit the liveness test message. The
//! divisor-latch ordering discipline and the preservation of the captured
//! format bits are stated and proved here over those sequences.

use vstd::prelude::*;
use crate::ports::{Command, SerialPort, port_command, reg_addr, lemma_base_in_range};

verus! {

/// Reference input clock of the UART, in hertz.
pub const UART_CLOCK_HZ: u32 = 115200;

/// Target baud rate of the bring-up configuration.
pub const DEFAULT_BAUD: u32 = 9600;

/// Baud divisor programmed into the divisor latch: reference clock divided
/// by the target baud rate.
pub const DEFAULT_DIVISOR: u16 = 12;

/// Register offset of the divisor low byte while the divisor latch is open.
pub const DIVISOR_LATCH_LOW: u16 = 0;

/// Register offset of the divisor high byte while the divisor latch is open.
pub const DIVISOR_LATCH_HIGH: u16 = 1;

/// The divisor latch access bit (DLAB) of the line-control register; 1 << 7.
pub const DIVISOR_LATCH_BIT: u8 = 0x80;

/// Line-control value for 8 data bits, no parity, 1 stop bit, DLAB clear.
pub const LCR_8N1: u8 = 0x03;

/// Interrupt-enable value masking every UART interrupt source.
pub const IER_ALL_MASKED: u8 = 0x00;

/// FIFO-control value leaving the FIFO disabled.
pub const FCR_FIFO_OFF: u8 = 0x00;

/// Modem-control value asserting data-terminal-ready and request-to-send.
pub const MCR_DTR_RTS: u8 = 0x03;

/// The divisor constant really is the one the reference clock and target
/// baud rate dictate: 115200 / 12 recovers 9600 exactly, with no remainder
/// lost.
pub proof fn lemma_divisor_matches_baud()
    ensures
        UART_CLOCK_HZ / (DEFAULT_DIVISOR as u32) == DEFAULT_BAUD,
        UART_CLOCK_HZ / DEFAULT_BAUD == DEFAULT_DIVISOR as u32,
        (DEFAULT_DIVISOR as u32) * DEFAULT_BAUD == UART_CLOCK_HZ,
{
    assert(115200u32 / 12 == 9600) by (nonlinear_arith);
    assert(115200u32 / 9600 == 12) by (nonlinear_arith);
    assert(12u32 * 9600 == 115200) by (nonlinear_arith);
}

/// The four bytes transmitted to confirm liveness: the ASCII codes of
/// 't', 'e', 's', 't'.
pub open spec fn test_message() -> Seq<u8> {
    seq![0x74, 0x65, 0x73, 0x74]
}

/// One write transaction on the I/O bus: a resolved address and the byte
/// stored to it.
#[derive(Copy, Clone, Debug, PartialEq, Eq, Structural)]
pub struct PortWrite {
    pub address: u16,
    pub value: u8,
}

/// The first half of the initialization protocol: format, interrupt mask,
/// FIFO and modem control, in that order. After these, the line-control
/// register is read back so the format bits can be preserved across the
/// divisor-latch toggle.
pub open spec fn setup_writes_spec(port: SerialPort) -> Seq<PortWrite> {
    seq![
        PortWrite { address: reg_addr(port, 3), value: LCR_8N1 },
        PortWrite { address: reg_addr(port, 1), value: IER_ALL_MASKED },
        PortWrite { address: reg_addr(port, 2), value: FCR_FIFO_OFF },
        PortWrite { address: reg_addr(port, 4), value: MCR_DTR_RTS },
    ]
}

/// The second half of the protocol, parameterized by the line-control value
/// `control` read back from the device: open the divisor latch, store both
/// divisor bytes, close the latch restoring the captured format bits, then
/// transmit the test message.
pub open spec fn divisor_test_writes_spec(port: SerialPort, control: u8) -> Seq<PortWrite> {
    seq![
        PortWrite { address: reg_addr(port, 3), value: control | DIVISOR_LATCH_BIT },
        PortWrite { address: reg_addr(port, 0), value: (DEFAULT_DIVISOR & 0xff) as u8 },
        PortWrite { address: reg_addr(port, 1), value: ((DEFAULT_DIVISOR >> 8) & 0xff) as u8 },
        PortWrite { address: reg_addr(port, 3), value: control & !DIVISOR_LATCH_BIT },
        PortWrite { address: reg_addr(port, 0), value: 0x74 },
        PortWrite { address: reg_addr(port, 0), value: 0x65 },
        PortWrite { address: reg_addr(port, 0), value: 0x73 },
        PortWrite { address: reg_addr(port, 0), value: 0x74 },
    ]
}

/// The complete ordered transaction sequence of one initialization run whose
/// read-back of the line-control register returned `control`.
pub open spec fn init_plan_spec(port: SerialPort, control: u8) -> Seq<PortWrite> {
    setup_writes_spec(port) + divisor_test_writes_spec(port, control)
}

/// Whether the divisor latch access bit is open after the first `n` of
/// `writes` have reached the device, given that it started as `initial`:
/// only a store to the line-control register at `lcr_address` changes it.
pub open spec fn dlab_after(
    writes: Seq<PortWrite>,
    lcr_address: u16,
    n: int,
    initial: bool,
) -> bool
    decreases n,
{
    if n <= 0 {
        initial
    } else if writes[n - 1].address == lcr_address {
        (writes[n - 1].value & DIVISOR_LATCH_BIT) != 0
    } else {
        dlab_after(writes, lcr_address, n - 1, initial)
    }
}

/// The divisor latch access bit brackets the divisor bytes in every
/// initialization run: whatever line-control value was read back and
/// whatever state the bit started in, the run raises it strictly before
/// both divisor-byte writes, holds it across them, lowers it strictly
/// after them, and transmits every byte of the test message with it clear.
pub proof fn lemma_dlab_brackets_divisor_writes(port: SerialPort, control: u8, initial_dlab: bool)
    ensures
        ({
            let ws = init_plan_spec(port, control);
            let lcr = reg_addr(port, 3);
            &&& ws.len() == 12
            &&& ws[5] == (PortWrite {
                address: reg_addr(port, 0),
                value: (DEFAULT_DIVISOR & 0xff) as u8,
            })
            &&& ws[6] == (PortWrite {
                address: reg_addr(port, 1),
                value: ((DEFAULT_DIVISOR >> 8) & 0xff) as u8,
            })
            &&& ws[4].address == lcr && (ws[4].value & DIVISOR_LATCH_BIT) != 0
            &&& ws[7].address == lcr && (ws[7].value & DIVISOR_LATCH_BIT) == 0
            &&& dlab_after(ws, lcr, 5, initial_dlab)
            &&& dlab_after(ws, lcr, 6, initial_dlab)
            &&& forall|i: int|
                8 <= i < 12 ==> ws[i].address == reg_addr(port, 0) && !dlab_after(
                    ws,
                    lcr,
                    i,
                    initial_dlab,
                )
        }),
{
    lemma_base_in_range(port);
    let ws = init_plan_spec(port, control);
    let lcr = reg_addr(port, 3);
    assert(setup_writes_spec(port).len() == 4);
    assert(divisor_test_writes_spec(port, control).len() == 8);
    assert forall|i: int| 0 <= i < 8 implies ws[4 + i] == divisor_test_writes_spec(
        port,
        control,
    )[i] by {}
    assert((control | DIVISOR_LATCH_BIT) & DIVISOR_LATCH_BIT != 0) by (bit_vector);
    assert((control & !DIVISOR_LATCH_BIT) & DIVISOR_LATCH_BIT == 0) by (bit_vector);
    assert(dlab_after(ws, lcr, 5, initial_dlab) == ((ws[4].value & DIVISOR_LATCH_BIT) != 0));
    assert(dlab_after(ws, lcr, 6, initial_dlab) == dlab_after(ws, lcr, 5, initial_dlab));
    assert(dlab_after(ws, lcr, 8, initial_dlab) == ((ws[7].value & DIVISOR_LATCH_BIT) != 0));
    assert(dlab_after(ws, lcr, 9, initial_dlab) == dlab_after(ws, lcr, 8, initial_dlab));
    assert(dlab_after(ws, lcr, 10, initial_dlab) == dlab_after(ws, lcr, 9, initial_dlab));
    assert(dlab_after(ws, lcr, 11, initial_dlab) == dlab_after(ws, lcr, 10, initial_dlab));
}

/// The seven non-DLAB bits of the captured line-control value survive the
/// divisor-latch toggle: both the value that opens the latch and the value
/// written back to close it agree with the captured value on every bit but
/// the latch bit, and the closing value leaves the latch bit clear.
pub proof fn lemma_format_bits_preserved(port: SerialPort, control: u8)
    ensures
        ({
            let ws = divisor_test_writes_spec(port, control);
            &&& ws[0].address == reg_addr(port, 3)
            &&& ws[3].address == reg_addr(port, 3)
            &&& (ws[0].value & !DIVISOR_LATCH_BIT) == (control & !DIVISOR_LATCH_BIT)
            &&& (ws[3].value & !DIVISOR_LATCH_BIT) == (control & !DIVISOR_LATCH_BIT)
            &&& (ws[3].value & DIVISOR_LATCH_BIT) == 0
        }),
{
    assert((control | DIVISOR_LATCH_BIT) & !DIVISOR_LATCH_BIT == control
        & !DIVISOR_LATCH_BIT) by (bit_vector);
    assert((control & !DIVISOR_LATCH_BIT) & !DIVISOR_LATCH_BIT == control
        & !DIVISOR_LATCH_BIT) by (bit_vector);
    assert((control & !DIVISOR_LATCH_BIT) & DIVISOR_LATCH_BIT == 0) by (bit_vector);
}

pub fn setup_writes(port: SerialPort) -> (writes: Vec<PortWrite>)
    ensures
        writes@ == setup_writes_spec(port),
{
    let mut writes: Vec<PortWrite> = Vec::new();
    writes.push(PortWrite {
        address: port_command(port, Command::LineControl),
        value: LCR_8N1,
    });
    writes.push(PortWrite {
        address: port_command(port, Command::InterruptEnable),
        value: IER_ALL_MASKED,
    });
    writes.push(PortWrite {
        address: port_command(port, Command::InterruptIdFifoControl),
        value: FCR_FIFO_OFF,
    });
    writes.push(PortWrite {
        address: port_command(port, Command::ModemControl),
        value: MCR_DTR_RTS,
    });
    proof {
        assert(writes@ =~= setup_writes_spec(port));
    }
    writes
}

pub fn divisor_and_test_writes(port: SerialPort, control: u8) -> (writes: Vec<PortWrite>)
    ensures
        writes@ == divisor_test_writes_spec(port, control),
{
    proof {
        lemma_base_in_range(port);
    }
    let line_control = port_command(port, Command::LineControl);
    let base = port.base();
    let mut writes: Vec<PortWrite> = Vec::new();
    writes.push(PortWrite { address: line_control, value: control | DIVISOR_LATCH_BIT });
    writes.push(PortWrite {
        address: base + DIVISOR_LATCH_LOW,
        value: (DEFAULT_DIVISOR & 0xff) as u8,
    });
    writes.push(PortWrite {
        address: base + DIVISOR_LATCH_HIGH,
        value: ((DEFAULT_DIVISOR >> 8) & 0xff) as u8,
    });
    writes.push(PortWrite { address: line_control, value: control & !DIVISOR_LATCH_BIT });
    writes.push(PortWrite { address: base, value: 0x74 });
    writes.push(PortWrite { address: base, value: 0x65 });
    writes.push(PortWrite { address: base, value: 0x73 });
    writes.push(PortWrite { address: base, value: 0x74 });
    proof {
        assert(writes@ =~= divisor_test_writes_spec(port, control));
    }
    writes
}

} // verus!
