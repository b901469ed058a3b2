//! GPIO engine logic: the 14 named pins in two banks, the pin-group
//! enable/disable command table, the GPIO feature-report codec, and the
//! read-modify-write bit operations on the report's four fields.

use crate::consts::{
    REPORT_ID_GPIO, REQUEST_ENABLE_INTERRUPT_WAKEUP, REQUEST_ENABLE_UART_DCD_RI,
    REQUEST_SELECT_GPIO_2_FUNCTION, REQUEST_SELECT_GPIO_A_FUNCTION,
    REQUEST_SELECT_GPIO_G_FUNCTION, REQUEST_SET_I2C_MODE, REQUEST_SET_UART_MODE,
};
use crate::error::Ft260Error;
use crate::report::spec_request_u8;
use crate::Ft260Result;
use vstd::prelude::*;

verus! {

/// The 14 GPIO pins of the chip: six in the low bank, eight (A to H) in
/// the high bank.
#[derive(Debug, Clone, Copy, PartialEq, Eq, Structural)]
pub enum Pin {
    /// SCL / GPIO0.
    Gpio0,
    /// SDA / GPIO1.
    Gpio1,
    /// SUSPOUT / PWREN / TX LED / GPIO2.
    Gpio2,
    /// Interrupt in / wakeup / GPIO3.
    Gpio3,
    /// GPIO4 / DCD.
    Gpio4,
    /// GPIO5 / RI.
    Gpio5,
    /// TX active / TX LED / GPIOA.
    GpioA,
    /// GPIOB / RTS.
    GpioB,
    /// RXD / GPIOC.
    GpioC,
    /// TXD / GPIOD.
    GpioD,
    /// GPIOE / CTS.
    GpioE,
    /// GPIOF / DTR.
    GpioF,
    /// BCD detect / RX LED / PWREN / GPIOG.
    GpioG,
    /// GPIOH / DSR.
    GpioH,
}

/// The seven pin groups that share an alternate function.
#[allow(non_camel_case_types)]
#[derive(Debug, Clone, Copy, PartialEq, Eq, Structural)]
pub enum Group {
    /// Pins shared with I2C.
    Gpio_0_1,
    /// Pin shared with suspend out and the like.
    Gpio_2,
    /// Pin shared with the interrupt input.
    Gpio_3,
    /// Pins shared with UART DCD and RI.
    Gpio_4_5,
    /// Pin shared with the TX indication.
    Gpio_A,
    /// Pins shared with the UART data and handshake lines.
    Gpio_B_C_D_E_F_H,
    /// Pin shared with the battery-charger detection output.
    Gpio_G,
}

/// Direction of a GPIO pin.
#[derive(Debug, Clone, Copy, PartialEq, Eq, Structural)]
pub enum Dir {
    /// Input.
    In,
    /// Output.
    Out,
}

/// Level of a GPIO pin.
#[derive(Debug, Clone, Copy, PartialEq, Eq, Structural)]
pub enum Val {
    /// Low level.
    Low,
    /// High level.
    High,
}

/// The 14-bit pin-selection mask of a pin: bits 0 to 5 are the low bank,
/// bits 6 to 13 are pins A to H.
pub open spec fn spec_pin_num(pin: Pin) -> u16 {
    match pin {
        Pin::Gpio0 => 0x0001,
        Pin::Gpio1 => 0x0002,
        Pin::Gpio2 => 0x0004,
        Pin::Gpio3 => 0x0008,
        Pin::Gpio4 => 0x0010,
        Pin::Gpio5 => 0x0020,
        Pin::GpioA => 0x0040,
        Pin::GpioB => 0x0080,
        Pin::GpioC => 0x0100,
        Pin::GpioD => 0x0200,
        Pin::GpioE => 0x0400,
        Pin::GpioF => 0x0800,
        Pin::GpioG => 0x1000,
        Pin::GpioH => 0x2000,
    }
}

/// Whether a pin sits in the high bank (pins A to H).
pub open spec fn spec_pin_is_high_bank(pin: Pin) -> bool {
    match pin {
        Pin::Gpio0 | Pin::Gpio1 | Pin::Gpio2 | Pin::Gpio3 | Pin::Gpio4 | Pin::Gpio5 => false,
        _ => true,
    }
}

/// The single-bit mask of a pin within its own bank.
pub open spec fn spec_pin_bit(pin: Pin) -> u8 {
    match pin {
        Pin::Gpio0 => 0x01,
        Pin::Gpio1 => 0x02,
        Pin::Gpio2 => 0x04,
        Pin::Gpio3 => 0x08,
        Pin::Gpio4 => 0x10,
        Pin::Gpio5 => 0x20,
        Pin::GpioA => 0x01,
        Pin::GpioB => 0x02,
        Pin::GpioC => 0x04,
        Pin::GpioD => 0x08,
        Pin::GpioE => 0x10,
        Pin::GpioF => 0x20,
        Pin::GpioG => 0x40,
        Pin::GpioH => 0x80,
    }
}

/// 14-bit pin-selection mask of a pin.
pub fn pin_to_num(pin: Pin) -> (num: u16)
    ensures
        num == spec_pin_num(pin),
{
    match pin {
        Pin::Gpio0 => 0x0001,
        Pin::Gpio1 => 0x0002,
        Pin::Gpio2 => 0x0004,
        Pin::Gpio3 => 0x0008,
        Pin::Gpio4 => 0x0010,
        Pin::Gpio5 => 0x0020,
        Pin::GpioA => 0x0040,
        Pin::GpioB => 0x0080,
        Pin::GpioC => 0x0100,
        Pin::GpioD => 0x0200,
        Pin::GpioE => 0x0400,
        Pin::GpioF => 0x0800,
        Pin::GpioG => 0x1000,
        Pin::GpioH => 0x2000,
    }
}

/// Split a pin-selection mask into its two banks: the low six bits, and
/// the high eight bits shifted down.
pub fn pin_to_bits(num: u16) -> (bits: (u8, u8))
    ensures
        bits.0 == (num & 0x3F) as u8,
        bits.1 == ((num >> 6) & 0xFF) as u8,
{
    ((num & 0x3F) as u8, ((num >> 6) & 0xFF) as u8)
}

/// Law: a single pin's selection mask lands entirely in that pin's bank,
/// as that pin's single bit.
pub proof fn lemma_pin_split(pin: Pin)
    ensures
        !spec_pin_is_high_bank(pin) ==> (spec_pin_num(pin) & 0x3F) as u8 == spec_pin_bit(pin)
            && ((spec_pin_num(pin) >> 6) & 0xFF) as u8 == 0,
        spec_pin_is_high_bank(pin) ==> (spec_pin_num(pin) & 0x3F) as u8 == 0 && ((spec_pin_num(
            pin,
        ) >> 6) & 0xFF) as u8 == spec_pin_bit(pin),
{
    assert((0x0001u16 & 0x3F) as u8 == 0x01u8 && ((0x0001u16 >> 6) & 0xFF) as u8 == 0u8)
        by (bit_vector);
    assert((0x0002u16 & 0x3F) as u8 == 0x02u8 && ((0x0002u16 >> 6) & 0xFF) as u8 == 0u8)
        by (bit_vector);
    assert((0x0004u16 & 0x3F) as u8 == 0x04u8 && ((0x0004u16 >> 6) & 0xFF) as u8 == 0u8)
        by (bit_vector);
    assert((0x0008u16 & 0x3F) as u8 == 0x08u8 && ((0x0008u16 >> 6) & 0xFF) as u8 == 0u8)
        by (bit_vector);
    assert((0x0010u16 & 0x3F) as u8 == 0x10u8 && ((0x0010u16 >> 6) & 0xFF) as u8 == 0u8)
        by (bit_vector);
    assert((0x0020u16 & 0x3F) as u8 == 0x20u8 && ((0x0020u16 >> 6) & 0xFF) as u8 == 0u8)
        by (bit_vector);
    assert((0x0040u16 & 0x3F) as u8 == 0u8 && ((0x0040u16 >> 6) & 0xFF) as u8 == 0x01u8)
        by (bit_vector);
    assert((0x0080u16 & 0x3F) as u8 == 0u8 && ((0x0080u16 >> 6) & 0xFF) as u8 == 0x02u8)
        by (bit_vector);
    assert((0x0100u16 & 0x3F) as u8 == 0u8 && ((0x0100u16 >> 6) & 0xFF) as u8 == 0x04u8)
        by (bit_vector);
    assert((0x0200u16 & 0x3F) as u8 == 0u8 && ((0x0200u16 >> 6) & 0xFF) as u8 == 0x08u8)
        by (bit_vector);
    assert((0x0400u16 & 0x3F) as u8 == 0u8 && ((0x0400u16 >> 6) & 0xFF) as u8 == 0x10u8)
        by (bit_vector);
    assert((0x0800u16 & 0x3F) as u8 == 0u8 && ((0x0800u16 >> 6) & 0xFF) as u8 == 0x20u8)
        by (bit_vector);
    assert((0x1000u16 & 0x3F) as u8 == 0u8 && ((0x1000u16 >> 6) & 0xFF) as u8 == 0x40u8)
        by (bit_vector);
    assert((0x2000u16 & 0x3F) as u8 == 0u8 && ((0x2000u16 >> 6) & 0xFF) as u8 == 0x80u8)
        by (bit_vector);
}

/// The four fields of the GPIO feature report: low-bank values and
/// directions (six bits each), high-bank values and directions (eight
/// bits each).  Direction bits read 0 for input, 1 for output.
#[derive(Debug, Clone, Copy, PartialEq, Eq, Structural)]
pub struct GpioReport {
    /// Values of pins 0 to 5.
    pub val: u8,
    /// Directions of pins 0 to 5.
    pub dir: u8,
    /// Values of pins A to H.
    pub ex_val: u8,
    /// Directions of pins A to H.
    pub ex_dir: u8,
}

/// Well-formedness of a GPIO report: the low bank has six pins, so its
/// two fields use only the low six bits.
pub open spec fn gpio_report_wf(rep: GpioReport) -> bool {
    rep.val <= 0x3F && rep.dir <= 0x3F
}

/// The five bytes of the GPIO feature report as written to the device.
pub fn encode_gpio_report(rep: &GpioReport) -> (buf: Vec<u8>)
    ensures
        buf@ == seq![REPORT_ID_GPIO, rep.val, rep.dir, rep.ex_val, rep.ex_dir],
{
    let mut buf: Vec<u8> = Vec::new();
    buf.push(REPORT_ID_GPIO);
    buf.push(rep.val);
    buf.push(rep.dir);
    buf.push(rep.ex_val);
    buf.push(rep.ex_dir);
    proof {
        assert(buf@ =~= seq![REPORT_ID_GPIO, rep.val, rep.dir, rep.ex_val, rep.ex_dir]);
    }
    buf
}

/// GPIO report carried by a GPIO feature report buffer.  A buffer whose
/// identifier byte is not the GPIO identifier is a transport-class error;
/// a low-bank field with a bit beyond the six pins is a byte-decoding
/// error carrying the first such byte.
pub fn decode_gpio_report(buf: &Vec<u8>) -> (r: Ft260Result<GpioReport>)
    requires
        buf@.len() >= 5,
    ensures
        match r {
            Ok(rep) => {
                &&& buf@[0] == REPORT_ID_GPIO
                &&& rep == (GpioReport {
                    val: buf@[1],
                    dir: buf@[2],
                    ex_val: buf@[3],
                    ex_dir: buf@[4],
                })
                &&& gpio_report_wf(rep)
            },
            Err(e) => {
                if buf@[0] != REPORT_ID_GPIO {
                    e.is_hid()
                } else {
                    &&& (buf@[1] > 0x3F || buf@[2] > 0x3F)
                    &&& e.is_byte()
                    &&& e.byte_value() == (if buf@[1] > 0x3F {
                        buf@[1]
                    } else {
                        buf@[2]
                    })
                }
            },
        },
{
    if buf[0] != REPORT_ID_GPIO {
        return Err(Ft260Error::HidError {
            message: "HID Feature GPIO report was not returned".to_owned(),
        });
    }
    if buf[1] > 0x3F {
        return Err(Ft260Error::ByteError {
            value: buf[1],
            message: "Invalid GPIO value bits".to_owned(),
        });
    }
    if buf[2] > 0x3F {
        return Err(Ft260Error::ByteError {
            value: buf[2],
            message: "Invalid GPIO direction bits".to_owned(),
        });
    }
    Ok(GpioReport { val: buf[1], dir: buf[2], ex_val: buf[3], ex_dir: buf[4] })
}

/// A report with the pin's value bit set (High) or cleared (Low) in the
/// pin's own bank; every other field keeps its value.
pub open spec fn spec_gpio_write(rep: GpioReport, pin: Pin, val: Val) -> GpioReport {
    let bit = spec_pin_bit(pin);
    if spec_pin_is_high_bank(pin) {
        GpioReport {
            ex_val: if val == Val::High {
                rep.ex_val | bit
            } else {
                rep.ex_val & !bit
            },
            ..rep
        }
    } else {
        GpioReport {
            val: if val == Val::High {
                rep.val | bit
            } else {
                rep.val & !bit
            },
            ..rep
        }
    }
}

/// A report with the pin's direction bit set (Out) or cleared (In) in the
/// pin's own bank; every other field keeps its value.
pub open spec fn spec_gpio_set_dir(rep: GpioReport, pin: Pin, dir: Dir) -> GpioReport {
    let bit = spec_pin_bit(pin);
    if spec_pin_is_high_bank(pin) {
        GpioReport {
            ex_dir: if dir == Dir::Out {
                rep.ex_dir | bit
            } else {
                rep.ex_dir & !bit
            },
            ..rep
        }
    } else {
        GpioReport {
            dir: if dir == Dir::Out {
                rep.dir | bit
            } else {
                rep.dir & !bit
            },
            ..rep
        }
    }
}

/// The level of a pin in a report: High exactly when the pin's value bit
/// is set in the pin's own bank.
pub open spec fn spec_gpio_read(rep: GpioReport, pin: Pin) -> Val {
    let bit = spec_pin_bit(pin);
    let bank = if spec_pin_is_high_bank(pin) {
        rep.ex_val
    } else {
        rep.val
    };
    if bank & bit != 0 {
        Val::High
    } else {
        Val::Low
    }
}

/// Read-modify step of a GPIO write: the report with exactly the pin's
/// value bit changed.
pub fn gpio_write_pin(rep: &GpioReport, pin: Pin, val: Val) -> (r: GpioReport)
    ensures
        r == spec_gpio_write(*rep, pin, val),
{
    let bit = pin_bit(pin);
    let high = pin_is_high_bank(pin);
    let set = match val {
        Val::High => true,
        Val::Low => false,
    };
    if high {
        GpioReport {
            ex_val: if set {
                rep.ex_val | bit
            } else {
                rep.ex_val & !bit
            },
            ..*rep
        }
    } else {
        GpioReport {
            val: if set {
                rep.val | bit
            } else {
                rep.val & !bit
            },
            ..*rep
        }
    }
}

/// Read-modify step of a GPIO direction change: the report with exactly
/// the pin's direction bit changed.
pub fn gpio_set_dir_pin(rep: &GpioReport, pin: Pin, dir: Dir) -> (r: GpioReport)
    ensures
        r == spec_gpio_set_dir(*rep, pin, dir),
{
    let bit = pin_bit(pin);
    let high = pin_is_high_bank(pin);
    let out = match dir {
        Dir::In => false,
        Dir::Out => true,
    };
    if high {
        GpioReport {
            ex_dir: if out {
                rep.ex_dir | bit
            } else {
                rep.ex_dir & !bit
            },
            ..*rep
        }
    } else {
        GpioReport {
            dir: if out {
                rep.dir | bit
            } else {
                rep.dir & !bit
            },
            ..*rep
        }
    }
}

/// The level of a pin in a report.
pub fn gpio_read_pin(rep: &GpioReport, pin: Pin) -> (v: Val)
    ensures
        v == spec_gpio_read(*rep, pin),
{
    let bit = pin_bit(pin);
    let bank = if pin_is_high_bank(pin) {
        rep.ex_val
    } else {
        rep.val
    };
    if bank & bit != 0 {
        Val::High
    } else {
        Val::Low
    }
}

fn pin_bit(pin: Pin) -> (bit: u8)
    ensures
        bit == spec_pin_bit(pin),
{
    match pin {
        Pin::Gpio0 => 0x01,
        Pin::Gpio1 => 0x02,
        Pin::Gpio2 => 0x04,
        Pin::Gpio3 => 0x08,
        Pin::Gpio4 => 0x10,
        Pin::Gpio5 => 0x20,
        Pin::GpioA => 0x01,
        Pin::GpioB => 0x02,
        Pin::GpioC => 0x04,
        Pin::GpioD => 0x08,
        Pin::GpioE => 0x10,
        Pin::GpioF => 0x20,
        Pin::GpioG => 0x40,
        Pin::GpioH => 0x80,
    }
}

fn pin_is_high_bank(pin: Pin) -> (high: bool)
    ensures
        high == spec_pin_is_high_bank(pin),
{
    match pin {
        Pin::Gpio0 | Pin::Gpio1 | Pin::Gpio2 | Pin::Gpio3 | Pin::Gpio4 | Pin::Gpio5 => false,
        _ => true,
    }
}

proof fn lemma_single_bit_ops(x: u8, b: u8)
    requires
        b == 1 || b == 2 || b == 4 || b == 8 || b == 16 || b == 32 || b == 64 || b == 128,
    ensures
        ((x | b) & b) != 0,
        ((x & !b) & b) == 0,
        ((x | b) & !b) == (x & !b),
        ((x & !b) & !b) == (x & !b),
{
    assert(((x | b) & b) != 0 && ((x & !b) & b) == 0 && ((x | b) & !b) == (x & !b) && ((x & !b)
        & !b) == (x & !b)) by (bit_vector)
        requires
            b == 1 || b == 2 || b == 4 || b == 8 || b == 16 || b == 32 || b == 64 || b == 128,
    ;
}

proof fn lemma_pin_bit_values(pin: Pin)
    ensures
        spec_pin_bit(pin) == 1 || spec_pin_bit(pin) == 2 || spec_pin_bit(pin) == 4
            || spec_pin_bit(pin) == 8 || spec_pin_bit(pin) == 16 || spec_pin_bit(pin) == 32
            || spec_pin_bit(pin) == 64 || spec_pin_bit(pin) == 128,
{
}

/// Law: writing a pin's value touches exactly one bit.  After the write,
/// the named pin's bit in its own bank reads back as the written level,
/// every other bit of both value fields keeps its value, both direction
/// fields are untouched, and reading the pin returns what was written.
pub proof fn lemma_gpio_write_read(rep: GpioReport, pin: Pin, val: Val)
    ensures
        spec_gpio_read(spec_gpio_write(rep, pin, val), pin) == val,
        spec_gpio_write(rep, pin, val).dir == rep.dir,
        spec_gpio_write(rep, pin, val).ex_dir == rep.ex_dir,
        spec_pin_is_high_bank(pin) ==> spec_gpio_write(rep, pin, val).val == rep.val
            && (spec_gpio_write(rep, pin, val).ex_val & !spec_pin_bit(pin)) == (rep.ex_val
            & !spec_pin_bit(pin)),
        !spec_pin_is_high_bank(pin) ==> spec_gpio_write(rep, pin, val).ex_val == rep.ex_val
            && (spec_gpio_write(rep, pin, val).val & !spec_pin_bit(pin)) == (rep.val
            & !spec_pin_bit(pin)),
{
    lemma_pin_bit_values(pin);
    let b = spec_pin_bit(pin);
    if spec_pin_is_high_bank(pin) {
        lemma_single_bit_ops(rep.ex_val, b);
    } else {
        lemma_single_bit_ops(rep.val, b);
    }
}

/// The request opcode and parameter byte that hand a pin group over to
/// plain GPIO use.
pub open spec fn spec_gpio_enable_command(group: Group) -> (u8, u8) {
    match group {
        Group::Gpio_0_1 => (REQUEST_SET_I2C_MODE, 0),
        Group::Gpio_2 => (REQUEST_SELECT_GPIO_2_FUNCTION, 0),
        Group::Gpio_3 => (REQUEST_ENABLE_INTERRUPT_WAKEUP, 0),
        Group::Gpio_4_5 => (REQUEST_ENABLE_UART_DCD_RI, 0),
        Group::Gpio_A => (REQUEST_SELECT_GPIO_A_FUNCTION, 0),
        Group::Gpio_B_C_D_E_F_H => (REQUEST_SET_UART_MODE, 0),
        Group::Gpio_G => (REQUEST_SELECT_GPIO_G_FUNCTION, 0),
    }
}

/// The request opcode and parameter byte that hand a pin group back to
/// its default alternate function.
pub open spec fn spec_gpio_disable_command(group: Group) -> (u8, u8) {
    match group {
        Group::Gpio_0_1 => (REQUEST_SET_I2C_MODE, 1),
        Group::Gpio_2 => (REQUEST_SELECT_GPIO_2_FUNCTION, 1),
        Group::Gpio_3 => (REQUEST_ENABLE_INTERRUPT_WAKEUP, 1),
        Group::Gpio_4_5 => (REQUEST_ENABLE_UART_DCD_RI, 1),
        Group::Gpio_A => (REQUEST_SELECT_GPIO_A_FUNCTION, 3),
        Group::Gpio_B_C_D_E_F_H => (REQUEST_SET_UART_MODE, 4),
        Group::Gpio_G => (REQUEST_SELECT_GPIO_G_FUNCTION, 6),
    }
}

/// Request opcode and parameter byte that enable plain GPIO on a group.
pub fn gpio_enable_command(group: Group) -> (cmd: (u8, u8))
    ensures
        cmd == spec_gpio_enable_command(group),
{
    match group {
        Group::Gpio_0_1 => (REQUEST_SET_I2C_MODE, 0),
        Group::Gpio_2 => (REQUEST_SELECT_GPIO_2_FUNCTION, 0),
        Group::Gpio_3 => (REQUEST_ENABLE_INTERRUPT_WAKEUP, 0),
        Group::Gpio_4_5 => (REQUEST_ENABLE_UART_DCD_RI, 0),
        Group::Gpio_A => (REQUEST_SELECT_GPIO_A_FUNCTION, 0),
        Group::Gpio_B_C_D_E_F_H => (REQUEST_SET_UART_MODE, 0),
        Group::Gpio_G => (REQUEST_SELECT_GPIO_G_FUNCTION, 0),
    }
}

/// Request opcode and parameter byte that restore a group's default
/// alternate function.
pub fn gpio_disable_command(group: Group) -> (cmd: (u8, u8))
    ensures
        cmd == spec_gpio_disable_command(group),
{
    match group {
        Group::Gpio_0_1 => (REQUEST_SET_I2C_MODE, 1),
        Group::Gpio_2 => (REQUEST_SELECT_GPIO_2_FUNCTION, 1),
        Group::Gpio_3 => (REQUEST_ENABLE_INTERRUPT_WAKEUP, 1),
        Group::Gpio_4_5 => (REQUEST_ENABLE_UART_DCD_RI, 1),
        Group::Gpio_A => (REQUEST_SELECT_GPIO_A_FUNCTION, 3),
        Group::Gpio_B_C_D_E_F_H => (REQUEST_SET_UART_MODE, 4),
        Group::Gpio_G => (REQUEST_SELECT_GPIO_G_FUNCTION, 6),
    }
}

/// The system-setting report of a pin-parameter command (pull-up,
/// pull-down, open-drain): the request opcode with the pin's low-bank
/// six-bit mask as parameter.
pub fn encode_pin_params(pin: Pin, request: u8) -> (buf: Vec<u8>)
    ensures
        buf@ == spec_request_u8(request, (spec_pin_num(pin) & 0x3F) as u8),
{
    let num = pin_to_num(pin);
    crate::report::encode_request_u8(request, (num & 0x3F) as u8)
}

} // verus!
