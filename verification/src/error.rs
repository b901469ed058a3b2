//! The crate's common error type, one variant per failure class: transport,
//! byte decoding, I2C, UART, and everything else.

use vstd::prelude::*;

verus! {

/// Common error type of the crate.
#[derive(Debug)]
pub enum Ft260Error {
    /// Failures of the HID transport, or malformed HID traffic.
    HidError { message: String },
    /// A device-returned byte that maps to no known enumerated value;
    /// carries the offending byte.
    ByteError { value: u8, message: String },
    /// Failures of an I2C transaction.
    I2cError { message: String },
    /// Failures of a UART transfer or its configuration.
    UartError { message: String },
    /// Any other failure.
    OtherError { message: String },
}

impl Ft260Error {
    /// True of transport-class errors.
    pub open spec fn is_hid(&self) -> bool {
        match self {
            Ft260Error::HidError { .. } => true,
            _ => false,
        }
    }

    /// True of byte-decoding errors.
    pub open spec fn is_byte(&self) -> bool {
        match self {
            Ft260Error::ByteError { .. } => true,
            _ => false,
        }
    }

    /// The offending byte of a byte-decoding error, zero for other variants.
    pub open spec fn byte_value(&self) -> u8 {
        match self {
            Ft260Error::ByteError { value, .. } => *value,
            _ => 0,
        }
    }

    /// True of I2C-class errors.
    pub open spec fn is_i2c(&self) -> bool {
        match self {
            Ft260Error::I2cError { .. } => true,
            _ => false,
        }
    }

    /// True of UART-class errors.
    pub open spec fn is_uart(&self) -> bool {
        match self {
            Ft260Error::UartError { .. } => true,
            _ => false,
        }
    }
}

} // verus!
