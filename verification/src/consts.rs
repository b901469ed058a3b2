//! Wire-level constants of the FT260 report protocol: report identifiers,
//! system-setting request opcodes, and the bit values used in I2C condition
//! and status bytes.

use vstd::prelude::*;

verus! {

/// Identifier of the chip-version feature report.
pub const REPORT_ID_CHIP_CODE: u8 = 0xA0;

/// Identifier of the system-setting feature report (opcode + parameters).
pub const REPORT_ID_SYSTEM_SETTING: u8 = 0xA1;

/// Identifier of the GPIO feature report `[val, dir, ex_val, ex_dir]`.
pub const REPORT_ID_GPIO: u8 = 0xB0;

/// Identifier of the interrupt-status input report.
pub const REPORT_ID_INTERRUPT_STATUS: u8 = 0xB1;

/// Identifier of the I2C status feature report.
pub const REPORT_ID_I2C_STATUS: u8 = 0xC0;

/// Identifier of the I2C read-request output report.
pub const REPORT_ID_I2C_READ_REQUEST: u8 = 0xC2;

/// Smallest identifier of the bucketed I2C data reports (4-byte bucket).
pub const REPORT_ID_I2C_DATA_MIN: u8 = 0xD0;

/// Largest identifier of the bucketed I2C data reports (60-byte bucket).
pub const REPORT_ID_I2C_DATA_MAX: u8 = 0xDE;

/// Identifier marking an I2C payload too large for any bucket.
pub const REPORT_ID_I2C_DATA_OVERFLOW: u8 = 0xDF;

/// Identifier of the UART status feature report.
pub const REPORT_ID_UART_STATUS: u8 = 0xE0;

/// Identifier of the UART DCD/RI status feature report.
pub const REPORT_ID_UART_DCD_RI: u8 = 0xE2;

/// Smallest identifier of the bucketed UART data reports (4-byte bucket).
pub const REPORT_ID_UART_DATA_MIN: u8 = 0xF0;

/// Largest identifier of the bucketed UART data reports (60-byte bucket).
pub const REPORT_ID_UART_DATA_MAX: u8 = 0xFE;

/// Identifier marking a UART payload too large for any bucket.
pub const REPORT_ID_UART_DATA_OVERFLOW: u8 = 0xFF;

// System-setting request opcodes, sent as byte 1 of a system-setting report.

/// Select the chip's operation clock.
pub const REQUEST_SET_CLOCK: u8 = 0x01;

/// Enable or disable the I2C function on its shared pins.
pub const REQUEST_SET_I2C_MODE: u8 = 0x02;

/// Select the UART flow-control mode (also re-purposes the UART pins).
pub const REQUEST_SET_UART_MODE: u8 = 0x03;

/// Enable or disable the wake-up interrupt (usage of GPIO3).
pub const REQUEST_ENABLE_INTERRUPT_WAKEUP: u8 = 0x05;

/// Select the function of the GPIO2 pin.
pub const REQUEST_SELECT_GPIO_2_FUNCTION: u8 = 0x06;

/// Enable or disable the UART DCD/RI pins.
pub const REQUEST_ENABLE_UART_DCD_RI: u8 = 0x07;

/// Select the function of the GPIOA pin.
pub const REQUEST_SELECT_GPIO_A_FUNCTION: u8 = 0x08;

/// Select the function of the GPIOG pin.
pub const REQUEST_SELECT_GPIO_G_FUNCTION: u8 = 0x09;

/// Set the interrupt trigger condition and level duration.
pub const REQUEST_SET_INTERRUPT_TRIGGER: u8 = 0x0A;

/// Reset the I2C controller.
pub const REQUEST_RESET_I2C: u8 = 0x20;

/// Set the I2C clock speed in kbps.
pub const REQUEST_SET_I2C_CLOCK_SPEED: u8 = 0x22;

/// Reset the UART controller.
pub const REQUEST_RESET_UART: u8 = 0x40;

/// Configure the whole UART function in one request.
pub const REQUEST_CONFIGURE_UART: u8 = 0x41;

/// Set the UART baud rate (32-bit little-endian parameter).
pub const REQUEST_SET_UART_BAUD_RATE: u8 = 0x42;

/// Set the number of UART data bits.
pub const REQUEST_SET_UART_DATA_BITS: u8 = 0x43;

/// Set the UART parity mode.
pub const REQUEST_SET_UART_PARITY: u8 = 0x44;

/// Set the number of UART stop bits.
pub const REQUEST_SET_UART_STOP_BIT: u8 = 0x45;

/// Set or clear the UART break state.
pub const REQUEST_SET_UART_BREAKING: u8 = 0x46;

/// Pull the given GPIO pins up (6-bit mask parameter).
pub const REQUEST_SET_GPIO_PULL_UP: u8 = 0x61;

/// Configure the given GPIO pins as open-drain (6-bit mask parameter).
pub const REQUEST_SET_GPIO_OPEN_DRAIN: u8 = 0x62;

/// Pull the given GPIO pins down (6-bit mask parameter).
pub const REQUEST_SET_GPIO_PULL_DOWN: u8 = 0x63;

// Condition bits carried in byte 2 of an I2C write chunk or read request.

/// START (or repeated START) condition bit.
pub const I2C_COND_START_BIT: u8 = 0x02;

/// Bit distinguishing a repeated START from a plain START.
pub const I2C_COND_RESTART_BIT: u8 = 0x01;

/// STOP condition bit.
pub const I2C_COND_STOP_BIT: u8 = 0x04;

// I2C bus status bits, byte 1 of the I2C status feature report.

/// Controller busy: all other status bits invalid.
pub const I2C_STATUS_CONTROLLER_BUSY: u8 = 0x01;

/// Error condition.
pub const I2C_STATUS_ERROR: u8 = 0x02;

/// Slave address was not acknowledged during the last operation.
pub const I2C_STATUS_ADDRESS_NACK: u8 = 0x04;

/// Data was not acknowledged during the last operation.
pub const I2C_STATUS_DATA_NACK: u8 = 0x08;

/// Arbitration was lost during the last operation.
pub const I2C_STATUS_ARBITRATION_LOST: u8 = 0x10;

/// Controller idle.
pub const I2C_STATUS_CONTROLLER_IDLE: u8 = 0x20;

/// Bus busy.
pub const I2C_STATUS_BUS_BUSY: u8 = 0x40;

/// Greatest payload one bucketed data report can carry.
pub const PAYLOAD_SIZE_MAX: usize = 0x3C;

/// Fixed size of a HID feature/output report buffer, identifier included.
pub const REPORT_BUFFER_LEN: usize = 64;

} // verus!
