//! Driver logic for the FT260 USB HID bridge chip.
//!
//! The FT260 exposes GPIO, I2C and UART functions through a vendor-specific
//! command/report protocol carried in fixed-size HID reports.  This crate
//! holds the protocol engine: the codec that frames commands and chunked
//! data into reports, the per-group FIFO that inbound reports are routed
//! into, and the I2C/UART/GPIO decision logic that a thin transport shell
//! drives.  Everything here is plain computation on bytes and is verified;
//! the HID transport itself (open, read, write, feature reports) lives
//! outside, hands raw buffers in, and takes encoded reports out.

use vstd::prelude::*;

pub mod consts;
pub mod error;
pub mod fifo;
pub mod gpio;
pub mod i2c;
pub mod report;
pub mod uart;

pub use error::Ft260Error;
pub use fifo::ReportFifo;

verus! {

/// Common result type of the crate.
pub type Ft260Result<T> = Result<T, Ft260Error>;

} // verus!
