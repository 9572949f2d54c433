//! Earliest-executing support for a freestanding kernel image: legacy serial
//! adapter bring-up, the register-level model it is verified against, and the
//! terminal fault policy. Raw hardware access (port instructions, the halt
//! loop) lives outside this library; everything here is pure logic about
//! which transactions are issued, in which order, and what state they leave
//! the device in.

pub mod ports;
pub mod uart;
pub mod device;
pub mod init;
pub mod fault;
