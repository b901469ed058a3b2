use ft260hid::gpio::{
    decode_gpio_report, encode_gpio_report, encode_pin_params, gpio_disable_command,
    gpio_enable_command, gpio_read_pin, gpio_set_dir_pin, gpio_write_pin, pin_to_bits,
    pin_to_num, Dir, GpioReport, Group, Pin, Val,
};
use ft260hid::Ft260Error;

const ALL_PINS: [Pin; 14] = [
    Pin::Gpio0,
    Pin::Gpio1,
    Pin::Gpio2,
    Pin::Gpio3,
    Pin::Gpio4,
    Pin::Gpio5,
    Pin::GpioA,
    Pin::GpioB,
    Pin::GpioC,
    Pin::GpioD,
    Pin::GpioE,
    Pin::GpioF,
    Pin::GpioG,
    Pin::GpioH,
];

#[test]
fn pin_numbers_are_distinct_bits() {
    for (i, pin) in ALL_PINS.iter().enumerate() {
        assert_eq!(pin_to_num(*pin), 1u16 << i);
    }
}

#[test]
fn pin_masks_split_into_banks() {
    assert_eq!(pin_to_bits(pin_to_num(Pin::Gpio0)), (0x01, 0x00));
    assert_eq!(pin_to_bits(pin_to_num(Pin::Gpio5)), (0x20, 0x00));
    assert_eq!(pin_to_bits(pin_to_num(Pin::GpioA)), (0x00, 0x01));
    assert_eq!(pin_to_bits(pin_to_num(Pin::GpioH)), (0x00, 0x80));
    // a multi-pin mask splits the same way
    assert_eq!(pin_to_bits(0x00C3), (0x03, 0x03));
}

#[test]
fn write_high_sets_exactly_one_bit() {
    // Writing High to a pin sets exactly one bit in the correct bank (low
    // bank for pins 0-5, high bank for pins A-H), leaves all other bits
    // unchanged, and reading that pin afterwards returns High.
    let start = GpioReport { val: 0x15, dir: 0x3F, ex_val: 0xA5, ex_dir: 0x0F };
    // low bank
    let rep = gpio_write_pin(&start, Pin::Gpio1, Val::High);
    assert_eq!(rep.val, 0x17); // only bit 1 newly set
    assert_eq!(rep.ex_val, start.ex_val);
    assert_eq!(rep.dir, start.dir);
    assert_eq!(rep.ex_dir, start.ex_dir);
    assert_eq!(gpio_read_pin(&rep, Pin::Gpio1), Val::High);
    // high bank
    let rep = gpio_write_pin(&start, Pin::GpioD, Val::High);
    assert_eq!(rep.ex_val, 0xAD); // only bit 3 newly set
    assert_eq!(rep.val, start.val);
    assert_eq!(rep.dir, start.dir);
    assert_eq!(rep.ex_dir, start.ex_dir);
    assert_eq!(gpio_read_pin(&rep, Pin::GpioD), Val::High);
}

#[test]
fn write_low_clears_exactly_one_bit() {
    let start = GpioReport { val: 0x3F, dir: 0x00, ex_val: 0xFF, ex_dir: 0x00 };
    let rep = gpio_write_pin(&start, Pin::Gpio4, Val::Low);
    assert_eq!(rep.val, 0x2F);
    assert_eq!(rep.ex_val, 0xFF);
    assert_eq!(gpio_read_pin(&rep, Pin::Gpio4), Val::Low);
    let rep = gpio_write_pin(&start, Pin::GpioH, Val::Low);
    assert_eq!(rep.ex_val, 0x7F);
    assert_eq!(rep.val, 0x3F);
    assert_eq!(gpio_read_pin(&rep, Pin::GpioH), Val::Low);
}

#[test]
fn write_then_read_round_trip_all_pins() {
    let start = GpioReport { val: 0x2A, dir: 0x00, ex_val: 0x5A, ex_dir: 0x00 };
    for pin in ALL_PINS {
        let high = gpio_write_pin(&start, pin, Val::High);
        assert_eq!(gpio_read_pin(&high, pin), Val::High);
        let low = gpio_write_pin(&start, pin, Val::Low);
        assert_eq!(gpio_read_pin(&low, pin), Val::Low);
    }
}

#[test]
fn set_dir_touches_only_direction_bits() {
    let start = GpioReport { val: 0x05, dir: 0x00, ex_val: 0x00, ex_dir: 0x80 };
    let rep = gpio_set_dir_pin(&start, Pin::Gpio2, Dir::Out);
    assert_eq!(rep.dir, 0x04);
    assert_eq!(rep.val, start.val);
    assert_eq!(rep.ex_dir, start.ex_dir);
    let rep = gpio_set_dir_pin(&rep, Pin::Gpio2, Dir::In);
    assert_eq!(rep.dir, 0x00);
    let rep = gpio_set_dir_pin(&start, Pin::GpioH, Dir::In);
    assert_eq!(rep.ex_dir, 0x00);
    assert_eq!(rep.dir, start.dir);
}

#[test]
fn gpio_report_codec() {
    let rep = GpioReport { val: 0x21, dir: 0x3F, ex_val: 0x80, ex_dir: 0xFF };
    let buf = encode_gpio_report(&rep);
    assert_eq!(buf, vec![0xB0, 0x21, 0x3F, 0x80, 0xFF]);
    let mut full = vec![0u8; 64];
    full[..5].copy_from_slice(&buf);
    assert_eq!(decode_gpio_report(&full).unwrap(), rep);
}

#[test]
fn gpio_report_decode_errors() {
    // wrong identifier byte
    let buf = vec![0xB1, 0, 0, 0, 0];
    assert!(matches!(
        decode_gpio_report(&buf).unwrap_err(),
        Ft260Error::HidError { .. }
    ));
    // a low-bank field with a bit beyond the six pins
    let buf = vec![0xB0, 0x40, 0, 0, 0];
    assert!(matches!(
        decode_gpio_report(&buf).unwrap_err(),
        Ft260Error::ByteError { value: 0x40, .. }
    ));
    let buf = vec![0xB0, 0x00, 0x80, 0, 0];
    assert!(matches!(
        decode_gpio_report(&buf).unwrap_err(),
        Ft260Error::ByteError { value: 0x80, .. }
    ));
}

#[test]
fn group_commands() {
    assert_eq!(gpio_enable_command(Group::Gpio_0_1), (0x02, 0));
    assert_eq!(gpio_disable_command(Group::Gpio_0_1), (0x02, 1));
    assert_eq!(gpio_enable_command(Group::Gpio_2), (0x06, 0));
    assert_eq!(gpio_disable_command(Group::Gpio_2), (0x06, 1));
    assert_eq!(gpio_enable_command(Group::Gpio_3), (0x05, 0));
    assert_eq!(gpio_disable_command(Group::Gpio_3), (0x05, 1));
    assert_eq!(gpio_enable_command(Group::Gpio_4_5), (0x07, 0));
    assert_eq!(gpio_disable_command(Group::Gpio_4_5), (0x07, 1));
    assert_eq!(gpio_enable_command(Group::Gpio_A), (0x08, 0));
    assert_eq!(gpio_disable_command(Group::Gpio_A), (0x08, 3));
    assert_eq!(gpio_enable_command(Group::Gpio_B_C_D_E_F_H), (0x03, 0));
    assert_eq!(gpio_disable_command(Group::Gpio_B_C_D_E_F_H), (0x03, 4));
    assert_eq!(gpio_enable_command(Group::Gpio_G), (0x09, 0));
    assert_eq!(gpio_disable_command(Group::Gpio_G), (0x09, 6));
}

#[test]
fn pin_params_use_low_bank_mask() {
    // pull-up on a low-bank pin carries its six-bit mask
    assert_eq!(encode_pin_params(Pin::Gpio3, 0x61), vec![0xA1, 0x61, 0x08]);
    // a high-bank pin has no bits in the six-bit mask
    assert_eq!(encode_pin_params(Pin::GpioB, 0x63), vec![0xA1, 0x63, 0x00]);
}
