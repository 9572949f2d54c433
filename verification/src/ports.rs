//! The legacy serial adapters' base addresses, the roles of their registers,
//! and the address arithmetic that resolves a (port, register) pair to the
//! 16-bit I/O address actually handed to the hardware access primitives.

use vstd::prelude::*;

verus! {

/// The eight conventional legacy serial adapter locations.
#[derive(Copy, Clone, Debug, PartialEq, Eq, Structural)]
pub enum SerialPort {
    Com1,
    Com2,
    Com3,
    Com4,
    Com5,
    Com6,
    Com7,
    Com8,
}

/// The register roles of a UART-compatible device, each a small offset from
/// the adapter's base address. Offset 0 is overloaded: it is the data
/// register when the divisor latch access bit is clear and the divisor low
/// byte when it is set; offset 1 is likewise interrupt-enable or divisor
/// high byte.
#[derive(Copy, Clone, Debug, PartialEq, Eq, Structural)]
pub enum Command {
    WriteRead,
    InterruptEnable,
    InterruptIdFifoControl,
    LineControl,
    ModemControl,
    LineStatus,
    ModemStatus,
}

impl SerialPort {
    /// The fixed 16-bit base address of this adapter.
    pub open spec fn base_spec(self) -> u16 {
        match self {
            SerialPort::Com1 => 0x3f8,
            SerialPort::Com2 => 0x2f8,
            SerialPort::Com3 => 0x3e8,
            SerialPort::Com4 => 0x2e8,
            SerialPort::Com5 => 0x5f8,
            SerialPort::Com6 => 0x4f8,
            SerialPort::Com7 => 0x5e8,
            SerialPort::Com8 => 0x4e8,
        }
    }

    pub fn base(self) -> (b: u16)
        ensures
            b == self.base_spec(),
    {
        match self {
            SerialPort::Com1 => 0x3f8,
            SerialPort::Com2 => 0x2f8,
            SerialPort::Com3 => 0x3e8,
            SerialPort::Com4 => 0x2e8,
            SerialPort::Com5 => 0x5f8,
            SerialPort::Com6 => 0x4f8,
            SerialPort::Com7 => 0x5e8,
            SerialPort::Com8 => 0x4e8,
        }
    }
}

/// Every adapter base lies well inside the 16-bit address space, so adding a
/// register offset never wraps.
pub proof fn lemma_base_in_range(port: SerialPort)
    ensures
        0x2e8 <= port.base_spec() <= 0x5f8,
{
}

impl Command {
    /// The offset this register role adds to the adapter's base address.
    pub open spec fn offset_spec(self) -> u16 {
        match self {
            Command::WriteRead => 0,
            Command::InterruptEnable => 1,
            Command::InterruptIdFifoControl => 2,
            Command::LineControl => 3,
            Command::ModemControl => 4,
            Command::LineStatus => 5,
            Command::ModemStatus => 6,
        }
    }

    pub fn offset(self) -> (o: u16)
        ensures
            o == self.offset_spec(),
    {
        match self {
            Command::WriteRead => 0,
            Command::InterruptEnable => 1,
            Command::InterruptIdFifoControl => 2,
            Command::LineControl => 3,
            Command::ModemControl => 4,
            Command::LineStatus => 5,
            Command::ModemStatus => 6,
        }
    }
}

/// The resolved I/O address of a register of an adapter: base plus offset.
pub open spec fn reg_addr(port: SerialPort, offset: u16) -> u16
    recommends
        offset <= 6,
{
    (port.base_spec() + offset) as u16
}

/// Resolves a (port, register role) pair to the address handed to the
/// hardware access primitives.
pub fn port_command(port: SerialPort, command: Command) -> (address: u16)
    ensures
        address == reg_addr(port, command.offset_spec()),
        address == port.base_spec() + command.offset_spec(),
{
    proof {
        lemma_base_in_range(port);
    }
    port.base() + command.offset()
}

} // verus!
