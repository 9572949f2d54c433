//! A register-level model of one UART-compatible serial adapter together
//! with the log of write transactions issued to it. The hardware owns the
//! only persistent state in this system; this model is what the
//! initialization protocol is verified against: it routes each store
//! through the divisor-latch overloading of offsets 0 and 1, so a byte
//! lands in the divisor latch or on the transmit line exactly as the real
//! device's latch bit dictates at that moment.

use vstd::prelude::*;
use crate::uart::{DIVISOR_LATCH_BIT, PortWrite};

verus! {

/// The mathematical state of the adapter: its writable registers and the
/// bytes that have left on the transmit line, oldest first.
#[verifier::ext_equal]
pub ghost struct UartModel {
    pub interrupt_enable: u8,
    pub fifo_control: u8,
    pub line_control: u8,
    pub modem_control: u8,
    pub divisor_low: u8,
    pub divisor_high: u8,
    pub transmitted: Seq<u8>,
}

impl UartModel {
    /// Whether the divisor latch access bit of the line-control register is
    /// set, repurposing offsets 0 and 1 as the divisor latch.
    pub open spec fn dlab_set(self) -> bool {
        (self.line_control & DIVISOR_LATCH_BIT) != 0
    }
}

/// The effect of storing `value` at register offset `offset` of a device in
/// state `model`. Offsets 0 and 1 are routed by the divisor latch access
/// bit; offsets 5 and 6 are read-only status registers, so a store to them
/// is absorbed.
pub open spec fn write_effect(model: UartModel, offset: int, value: u8) -> UartModel {
    if offset == 0 {
        if model.dlab_set() {
            UartModel { divisor_low: value, ..model }
        } else {
            UartModel { transmitted: model.transmitted.push(value), ..model }
        }
    } else if offset == 1 {
        if model.dlab_set() {
            UartModel { divisor_high: value, ..model }
        } else {
            UartModel { interrupt_enable: value, ..model }
        }
    } else if offset == 2 {
        UartModel { fifo_control: value, ..model }
    } else if offset == 3 {
        UartModel { line_control: value, ..model }
    } else if offset == 4 {
        UartModel { modem_control: value, ..model }
    } else {
        model
    }
}

/// The byte a load from register offset `offset` returns. The device
/// transmits only, so the data register, the interrupt-id register and the
/// two status registers read as zero here.
pub open spec fn read_effect(model: UartModel, offset: int) -> u8 {
    if offset == 0 {
        if model.dlab_set() {
            model.divisor_low
        } else {
            0
        }
    } else if offset == 1 {
        if model.dlab_set() {
            model.divisor_high
        } else {
            model.interrupt_enable
        }
    } else if offset == 3 {
        model.line_control
    } else if offset == 4 {
        model.modem_control
    } else {
        0
    }
}

/// One serial adapter mapped at `base`, answering the seven addresses
/// `base` through `base + 6`, together with a ghost log of every write
/// transaction issued to the bus, in order.
pub struct SerialAdapter {
    pub base: u16,
    pub interrupt_enable: u8,
    pub fifo_control: u8,
    pub line_control: u8,
    pub modem_control: u8,
    pub divisor_low: u8,
    pub divisor_high: u8,
    pub transmitted: Vec<u8>,
    pub issued: Ghost<Seq<PortWrite>>,
}

impl View for SerialAdapter {
    type V = UartModel;

    open spec fn view(&self) -> UartModel {
        UartModel {
            interrupt_enable: self.interrupt_enable,
            fifo_control: self.fifo_control,
            line_control: self.line_control,
            modem_control: self.modem_control,
            divisor_low: self.divisor_low,
            divisor_high: self.divisor_high,
            transmitted: self.transmitted@,
        }
    }
}

impl SerialAdapter {
    /// Whether `address` falls on one of this adapter's seven registers.
    pub open spec fn decodes(self, address: u16) -> bool {
        self.base <= address < self.base + 7
    }

    /// A powered-on adapter at `base` with every modeled register zero, an
    /// empty transmit history and an empty transaction log.
    pub fn new(base: u16) -> (adapter: SerialAdapter)
        ensures
            adapter.base == base,
            adapter@ == (UartModel {
                interrupt_enable: 0,
                fifo_control: 0,
                line_control: 0,
                modem_control: 0,
                divisor_low: 0,
                divisor_high: 0,
                transmitted: Seq::<u8>::empty(),
            }),
            adapter.issued@ == Seq::<PortWrite>::empty(),
    {
        let adapter = SerialAdapter {
            base,
            interrupt_enable: 0,
            fifo_control: 0,
            line_control: 0,
            modem_control: 0,
            divisor_low: 0,
            divisor_high: 0,
            transmitted: Vec::new(),
            issued: Ghost(Seq::empty()),
        };
        proof {
            assert(adapter@ =~= (UartModel {
                interrupt_enable: 0,
                fifo_control: 0,
                line_control: 0,
                modem_control: 0,
                divisor_low: 0,
                divisor_high: 0,
                transmitted: Seq::<u8>::empty(),
            }));
        }
        adapter
    }

    /// One write transaction on the bus: the transaction is logged, and if
    /// the address decodes to this adapter the addressed register takes the
    /// effect the divisor latch dictates; anywhere else the byte is
    /// silently absorbed, exactly as a store to an unpopulated port is.
    pub fn write_byte(&mut self, address: u16, value: u8)
        ensures
            final(self).base == old(self).base,
            final(self).issued@ == old(self).issued@.push(
                PortWrite { address, value },
            ),
            old(self).decodes(address) ==> final(self)@ == write_effect(
                old(self)@,
                address - old(self).base,
                value,
            ),
            !old(self).decodes(address) ==> final(self)@ == old(self)@,
    {
        proof {
            self.issued@ = self.issued@.push(PortWrite { address, value });
        }
        if address >= self.base && address - self.base < 7 {
            let offset = address - self.base;
            if offset == 0 {
                if self.line_control & DIVISOR_LATCH_BIT != 0 {
                    self.divisor_low = value;
                } else {
                    self.transmitted.push(value);
                }
            } else if offset == 1 {
                if self.line_control & DIVISOR_LATCH_BIT != 0 {
                    self.divisor_high = value;
                } else {
                    self.interrupt_enable = value;
                }
            } else if offset == 2 {
                self.fifo_control = value;
            } else if offset == 3 {
                self.line_control = value;
            } else if offset == 4 {
                self.modem_control = value;
            }
            // offsets 5 and 6 are the read-only status registers
        }
    }

    /// One read transaction on the bus: a decoded address returns what the
    /// addressed register holds; an unpopulated address reads as zero.
    pub fn read_byte(&self, address: u16) -> (value: u8)
        ensures
            self.decodes(address) ==> value == read_effect(self@, address - self.base),
            !self.decodes(address) ==> value == 0,
    {
        if address >= self.base && address - self.base < 7 {
            let offset = address - self.base;
            if offset == 0 {
                if self.line_control & DIVISOR_LATCH_BIT != 0 {
                    self.divisor_low
                } else {
                    0
                }
            } else if offset == 1 {
                if self.line_control & DIVISOR_LATCH_BIT != 0 {
                    self.divisor_high
                } else {
                    self.interrupt_enable
                }
            } else if offset == 3 {
                self.line_control
            } else if offset == 4 {
                self.modem_control
            } else {
                0
            }
        } else {
            0
        }
    }
}

} // verus!
