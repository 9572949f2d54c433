//! The serial line initializer and the essentials step of boot entry,
//! verified against the register-level adapter model: one run leaves the
//! device at 8N1, 9600 baud, interrupts and FIFO off, modem lines asserted,
//! the divisor latch closed again, and exactly the four test bytes newly on
//! the transmit line — and issues exactly the planned transactions, in
//! their planned order.

use vstd::prelude::*;
use crate::ports::{Command, SerialPort, port_command, lemma_base_in_range};
use crate::uart::{
    DEFAULT_DIVISOR, DIVISOR_LATCH_BIT, DIVISOR_LATCH_HIGH, DIVISOR_LATCH_LOW, LCR_8N1,
    IER_ALL_MASKED, FCR_FIFO_OFF, MCR_DTR_RTS, init_plan_spec, test_message,
};
use crate::device::SerialAdapter;

verus! {

/// What one completed initialization run guarantees of the adapter.
pub open spec fn initialized(pre: SerialAdapter, post: SerialAdapter) -> bool {
    &&& post.base == pre.base
    // format: 8 data bits, no parity, 1 stop bit, divisor latch closed
    &&& post@.line_control == LCR_8N1
    &&& !post@.dlab_set()
    // every interrupt source masked, FIFO disabled, DTR and RTS asserted
    &&& post@.interrupt_enable == IER_ALL_MASKED
    &&& post@.fifo_control == FCR_FIFO_OFF
    &&& post@.modem_control == MCR_DTR_RTS
    // the divisor latch holds exactly the configured baud divisor
    &&& post@.divisor_high * 256 + post@.divisor_low == DEFAULT_DIVISOR
    // the four test bytes, in order, and nothing else, newly transmitted
    &&& post@.transmitted == pre@.transmitted + test_message()
}

/// Brings the adapter at `port` to the known operational state, performing
/// the protocol's ten order-dependent steps, and confirms liveness with the
/// test transmission. The transaction log extends by exactly the planned
/// sequence for the captured line-control value, which here is the 8N1
/// value written in the first step.
pub fn initialize_serial(port: SerialPort, adapter: &mut SerialAdapter)
    requires
        old(adapter).base == port.base_spec(),
    ensures
        initialized(*old(adapter), *final(adapter)),
        final(adapter).issued@ == old(adapter).issued@ + init_plan_spec(port, LCR_8N1),
{
    proof {
        lemma_base_in_range(port);
        assert(LCR_8N1 & DIVISOR_LATCH_BIT == 0) by (bit_vector);
        assert((LCR_8N1 | DIVISOR_LATCH_BIT) & DIVISOR_LATCH_BIT != 0) by (bit_vector);
        assert(LCR_8N1 & !DIVISOR_LATCH_BIT == LCR_8N1) by (bit_vector);
        assert((DEFAULT_DIVISOR & 0xff) as u8 == 12) by (bit_vector);
        assert(((DEFAULT_DIVISOR >> 8) & 0xff) as u8 == 0) by (bit_vector);
    }
    let line_control_addr = port_command(port, Command::LineControl);
    let base = port.base();

    // steps 1-4: format, interrupt mask, FIFO off, modem lines
    adapter.write_byte(line_control_addr, LCR_8N1);
    adapter.write_byte(port_command(port, Command::InterruptEnable), IER_ALL_MASKED);
    adapter.write_byte(port_command(port, Command::InterruptIdFifoControl), FCR_FIFO_OFF);
    adapter.write_byte(port_command(port, Command::ModemControl), MCR_DTR_RTS);

    // step 5: capture the format bits just written
    let control = adapter.read_byte(line_control_addr);

    // steps 6-9: open the divisor latch, store the divisor, close the latch
    adapter.write_byte(line_control_addr, control | DIVISOR_LATCH_BIT);
    adapter.write_byte(base + DIVISOR_LATCH_LOW, (DEFAULT_DIVISOR & 0xff) as u8);
    adapter.write_byte(base + DIVISOR_LATCH_HIGH, ((DEFAULT_DIVISOR >> 8) & 0xff) as u8);
    adapter.write_byte(line_control_addr, control & !DIVISOR_LATCH_BIT);

    // step 10: the liveness test transmission, unconditionally
    adapter.write_byte(base, 0x74);
    adapter.write_byte(base, 0x65);
    adapter.write_byte(base, 0x73);
    adapter.write_byte(base, 0x74);

    proof {
        assert(final(adapter)@.transmitted =~= old(adapter)@.transmitted + test_message());
        assert(final(adapter).issued@ =~= old(adapter).issued@ + init_plan_spec(
            port,
            LCR_8N1,
        ));
    }
}

/// The essentials step of boot entry: gets diagnostic output flowing by
/// initializing the primary legacy adapter. The bootloader handoff address
/// is received here but not yet interpreted; parsing the structure behind
/// it belongs to a collaborator that does not exist yet.
pub fn initialize_essentials(
    _multiboot2_info_physical_address: u64,
    adapter: &mut SerialAdapter,
)
    requires
        old(adapter).base == SerialPort::Com1.base_spec(),
    ensures
        initialized(*old(adapter), *final(adapter)),
        final(adapter).issued@ == old(adapter).issued@ + init_plan_spec(
            SerialPort::Com1,
            LCR_8N1,
        ),
{
    initialize_serial(SerialPort::Com1, adapter);
}

} // verus!
