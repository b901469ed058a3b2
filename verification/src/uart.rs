//! UART engine logic: the configuration codec, the chunked write framing
//! (the same bucket scheme as I2C, without address or condition bytes),
//! the assembly of inbound data reports, and the queued-byte count.

use crate::consts::{
    REPORT_BUFFER_LEN, REPORT_ID_SYSTEM_SETTING, REPORT_ID_UART_DATA_MAX,
    REPORT_ID_UART_DATA_MIN, REPORT_ID_UART_DATA_OVERFLOW, REQUEST_CONFIGURE_UART,
    REQUEST_SET_UART_BAUD_RATE, REQUEST_SET_UART_BREAKING, REQUEST_SET_UART_DATA_BITS,
    REQUEST_SET_UART_MODE, REQUEST_SET_UART_PARITY, REQUEST_SET_UART_STOP_BIT,
};
use crate::error::Ft260Error;
use crate::fifo::{group_of, ReportFifo};
use crate::i2c::ReadStep;
use crate::report::{
    bucket_capacity, chunk_count, chunk_len, feat_rep_buf, is_known_report_id, known_report_id,
    le32_byte, u32_from_le,
};
use crate::Ft260Result;
use vstd::prelude::*;

verus! {

/// UART flow-control mode.
#[derive(Debug, Clone, Copy, PartialEq, Eq, Structural)]
pub enum Mode {
    /// Flow control off; the UART pins act as GPIO.
    Off,
    /// RTS/CTS hardware flow control.
    RtsCts,
    /// DTR/DSR hardware flow control.
    DtrDsr,
    /// XON/XOFF software flow control.
    XonXoff,
    /// No flow control.
    NoFlowControl,
}

/// UART parity mode.
#[derive(Debug, Clone, Copy, PartialEq, Eq, Structural)]
pub enum Parity {
    /// No parity bit.
    NoParity,
    /// Odd parity.
    Odd,
    /// Even parity.
    Even,
    /// Parity bit always high (mark).
    High,
    /// Parity bit always low (space).
    Low,
}

/// Number of UART stop bits.
#[derive(Debug, Clone, Copy, PartialEq, Eq, Structural)]
pub enum StopBit {
    /// One stop bit.
    One,
    /// Two stop bits.
    Two,
}

/// UART break state.
#[derive(Debug, Clone, Copy, PartialEq, Eq, Structural)]
pub enum Breaking {
    /// No break.
    NoBreak,
    /// Break: the TX line is held in the spacing state.
    Break,
}

/// Number of UART data bits.
#[derive(Debug, Clone, Copy, PartialEq, Eq, Structural)]
pub enum DataBits {
    /// Seven data bits.
    Seven,
    /// Eight data bits.
    Eight,
}

/// Wire byte of a flow-control mode.
pub open spec fn spec_mode_byte(m: Mode) -> u8 {
    match m {
        Mode::Off => 0,
        Mode::RtsCts => 1,
        Mode::DtrDsr => 2,
        Mode::XonXoff => 3,
        Mode::NoFlowControl => 4,
    }
}

/// Flow-control mode of a wire byte, if the byte is defined.
pub open spec fn spec_mode_from(b: u8) -> Option<Mode> {
    if b == 0 {
        Some(Mode::Off)
    } else if b == 1 {
        Some(Mode::RtsCts)
    } else if b == 2 {
        Some(Mode::DtrDsr)
    } else if b == 3 {
        Some(Mode::XonXoff)
    } else if b == 4 {
        Some(Mode::NoFlowControl)
    } else {
        None
    }
}

/// Wire byte of a parity mode.
pub open spec fn spec_parity_byte(p: Parity) -> u8 {
    match p {
        Parity::NoParity => 0,
        Parity::Odd => 1,
        Parity::Even => 2,
        Parity::High => 3,
        Parity::Low => 4,
    }
}

/// Parity mode of a wire byte, if the byte is defined.
pub open spec fn spec_parity_from(b: u8) -> Option<Parity> {
    if b == 0 {
        Some(Parity::NoParity)
    } else if b == 1 {
        Some(Parity::Odd)
    } else if b == 2 {
        Some(Parity::Even)
    } else if b == 3 {
        Some(Parity::High)
    } else if b == 4 {
        Some(Parity::Low)
    } else {
        None
    }
}

/// Wire byte of a stop-bit count.
pub open spec fn spec_stop_bit_byte(s: StopBit) -> u8 {
    match s {
        StopBit::One => 0,
        StopBit::Two => 2,
    }
}

/// Stop-bit count of a wire byte, if the byte is defined.
pub open spec fn spec_stop_bit_from(b: u8) -> Option<StopBit> {
    if b == 0 {
        Some(StopBit::One)
    } else if b == 2 {
        Some(StopBit::Two)
    } else {
        None
    }
}

/// Wire byte of a break state.
pub open spec fn spec_breaking_byte(k: Breaking) -> u8 {
    match k {
        Breaking::NoBreak => 0,
        Breaking::Break => 1,
    }
}

/// Break state of a wire byte, if the byte is defined.
pub open spec fn spec_breaking_from(b: u8) -> Option<Breaking> {
    if b == 0 {
        Some(Breaking::NoBreak)
    } else if b == 1 {
        Some(Breaking::Break)
    } else {
        None
    }
}

/// Wire byte of a data-bit count.
pub open spec fn spec_data_bits_byte(d: DataBits) -> u8 {
    match d {
        DataBits::Seven => 7,
        DataBits::Eight => 8,
    }
}

/// Data-bit count of a wire byte, if the byte is defined.
pub open spec fn spec_data_bits_from(b: u8) -> Option<DataBits> {
    if b == 7 {
        Some(DataBits::Seven)
    } else if b == 8 {
        Some(DataBits::Eight)
    } else {
        None
    }
}

/// Default UART baud rate.
pub const BAUD_DEFAULT: u32 = 115200;

/// Parameters of the UART function.
#[derive(Debug, Clone, Copy, PartialEq, Eq, Structural)]
pub struct Config {
    /// Flow-control mode.
    pub mode: Mode,
    /// Baud rate.
    pub baud: u32,
    /// Number of data bits.
    pub data_bits: DataBits,
    /// Number of stop bits.
    pub stop_bit: StopBit,
    /// Parity mode.
    pub parity: Parity,
    /// Break state.
    pub breaking: Breaking,
}

impl Default for Config {
    /// The default configuration: no flow control, the default baud rate,
    /// eight data bits, one stop bit, no parity, no break.
    fn default() -> (cfg: Config)
        ensures
            cfg == (Config {
                mode: Mode::NoFlowControl,
                baud: BAUD_DEFAULT,
                data_bits: DataBits::Eight,
                stop_bit: StopBit::One,
                parity: Parity::NoParity,
                breaking: Breaking::NoBreak,
            }),
    {
        Config {
            mode: Mode::NoFlowControl,
            baud: BAUD_DEFAULT,
            data_bits: DataBits::Eight,
            stop_bit: StopBit::One,
            parity: Parity::NoParity,
            breaking: Breaking::NoBreak,
        }
    }
}

/// The configuration a UART status report carries, when each of its field
/// bytes is defined: mode in byte 1, baud in bytes 2 to 5 little-endian,
/// data bits in byte 6, parity in byte 7, stop bits in byte 8, break state
/// in byte 9.
pub open spec fn spec_decode_uart_config(buf: Seq<u8>) -> Option<Config> {
    if spec_mode_from(buf[1]) is Some && spec_data_bits_from(buf[6]) is Some
        && spec_parity_from(buf[7]) is Some && spec_stop_bit_from(buf[8]) is Some
        && spec_breaking_from(buf[9]) is Some {
        Some(
            Config {
                mode: spec_mode_from(buf[1])->Some_0,
                baud: u32_from_le(buf[2], buf[3], buf[4], buf[5]),
                data_bits: spec_data_bits_from(buf[6])->Some_0,
                stop_bit: spec_stop_bit_from(buf[8])->Some_0,
                parity: spec_parity_from(buf[7])->Some_0,
                breaking: spec_breaking_from(buf[9])->Some_0,
            },
        )
    } else {
        None
    }
}

/// The first undefined field byte of a UART status report, in the order
/// the decoder checks them: mode, data bits, parity, stop bits, break.
pub open spec fn spec_uart_config_error_byte(buf: Seq<u8>) -> u8 {
    if spec_mode_from(buf[1]) is None {
        buf[1]
    } else if spec_data_bits_from(buf[6]) is None {
        buf[6]
    } else if spec_parity_from(buf[7]) is None {
        buf[7]
    } else if spec_stop_bit_from(buf[8]) is None {
        buf[8]
    } else {
        buf[9]
    }
}

/// Configuration carried by a UART status feature report.  Every field
/// byte that maps to no defined value is a byte-decoding error carrying
/// the first such byte.
pub fn decode_uart_config(buf: &Vec<u8>) -> (r: Ft260Result<Config>)
    requires
        buf@.len() >= 10,
    ensures
        match r {
            Ok(cfg) => spec_decode_uart_config(buf@) == Some(cfg),
            Err(e) => {
                &&& spec_decode_uart_config(buf@) is None
                &&& e.is_byte()
                &&& e.byte_value() == spec_uart_config_error_byte(buf@)
            },
        },
{
    let mode = match decode_mode(buf[1]) {
        Some(m) => m,
        None => {
            return Err(byte_decode_error(buf[1]));
        },
    };
    let data_bits = match decode_data_bits(buf[6]) {
        Some(d) => d,
        None => {
            return Err(byte_decode_error(buf[6]));
        },
    };
    let parity = match decode_parity(buf[7]) {
        Some(p) => p,
        None => {
            return Err(byte_decode_error(buf[7]));
        },
    };
    let stop_bit = match decode_stop_bit(buf[8]) {
        Some(s) => s,
        None => {
            return Err(byte_decode_error(buf[8]));
        },
    };
    let breaking = match decode_breaking(buf[9]) {
        Some(k) => k,
        None => {
            return Err(byte_decode_error(buf[9]));
        },
    };
    let baud = (buf[2] as u32) | ((buf[3] as u32) << 8) | ((buf[4] as u32) << 16)
        | ((buf[5] as u32) << 24);
    Ok(Config { mode, baud, data_bits, stop_bit, parity, breaking })
}

fn byte_decode_error(value: u8) -> (e: Ft260Error)
    ensures
        e.is_byte(),
        e.byte_value() == value,
{
    Ft260Error::ByteError {
        value,
        message: "Failed converting byte into enum value".to_owned(),
    }
}

/// Flow-control mode of a wire byte.
pub fn decode_mode(b: u8) -> (r: Option<Mode>)
    ensures
        r == spec_mode_from(b),
{
    match b {
        0 => Some(Mode::Off),
        1 => Some(Mode::RtsCts),
        2 => Some(Mode::DtrDsr),
        3 => Some(Mode::XonXoff),
        4 => Some(Mode::NoFlowControl),
        _ => None,
    }
}

/// Parity mode of a wire byte.
pub fn decode_parity(b: u8) -> (r: Option<Parity>)
    ensures
        r == spec_parity_from(b),
{
    match b {
        0 => Some(Parity::NoParity),
        1 => Some(Parity::Odd),
        2 => Some(Parity::Even),
        3 => Some(Parity::High),
        4 => Some(Parity::Low),
        _ => None,
    }
}

/// Stop-bit count of a wire byte.
pub fn decode_stop_bit(b: u8) -> (r: Option<StopBit>)
    ensures
        r == spec_stop_bit_from(b),
{
    match b {
        0 => Some(StopBit::One),
        2 => Some(StopBit::Two),
        _ => None,
    }
}

/// Break state of a wire byte.
pub fn decode_breaking(b: u8) -> (r: Option<Breaking>)
    ensures
        r == spec_breaking_from(b),
{
    match b {
        0 => Some(Breaking::NoBreak),
        1 => Some(Breaking::Break),
        _ => None,
    }
}

/// Data-bit count of a wire byte.
pub fn decode_data_bits(b: u8) -> (r: Option<DataBits>)
    ensures
        r == spec_data_bits_from(b),
{
    match b {
        7 => Some(DataBits::Seven),
        8 => Some(DataBits::Eight),
        _ => None,
    }
}

/// Wire byte of a flow-control mode.
pub fn encode_mode(m: Mode) -> (b: u8)
    ensures
        b == spec_mode_byte(m),
{
    match m {
        Mode::Off => 0,
        Mode::RtsCts => 1,
        Mode::DtrDsr => 2,
        Mode::XonXoff => 3,
        Mode::NoFlowControl => 4,
    }
}

/// Wire byte of a parity mode.
pub fn encode_parity(p: Parity) -> (b: u8)
    ensures
        b == spec_parity_byte(p),
{
    match p {
        Parity::NoParity => 0,
        Parity::Odd => 1,
        Parity::Even => 2,
        Parity::High => 3,
        Parity::Low => 4,
    }
}

/// Wire byte of a stop-bit count.
pub fn encode_stop_bit(s: StopBit) -> (b: u8)
    ensures
        b == spec_stop_bit_byte(s),
{
    match s {
        StopBit::One => 0,
        StopBit::Two => 2,
    }
}

/// Wire byte of a break state.
pub fn encode_breaking(k: Breaking) -> (b: u8)
    ensures
        b == spec_breaking_byte(k),
{
    match k {
        Breaking::NoBreak => 0,
        Breaking::Break => 1,
    }
}

/// Wire byte of a data-bit count.
pub fn encode_data_bits(d: DataBits) -> (b: u8)
    ensures
        b == spec_data_bits_byte(d),
{
    match d {
        DataBits::Seven => 7,
        DataBits::Eight => 8,
    }
}

/// Law: every field of a UART configuration survives the trip through its
/// wire byte, and a status report whose field bytes carry a
/// configuration's encoded values decodes back to exactly that
/// configuration.
pub proof fn lemma_uart_config_round_trip(cfg: Config, buf: Seq<u8>)
    requires
        buf.len() >= 10,
        buf[1] == spec_mode_byte(cfg.mode),
        buf[2] == le32_byte(cfg.baud, 0),
        buf[3] == le32_byte(cfg.baud, 1),
        buf[4] == le32_byte(cfg.baud, 2),
        buf[5] == le32_byte(cfg.baud, 3),
        buf[6] == spec_data_bits_byte(cfg.data_bits),
        buf[7] == spec_parity_byte(cfg.parity),
        buf[8] == spec_stop_bit_byte(cfg.stop_bit),
        buf[9] == spec_breaking_byte(cfg.breaking),
    ensures
        spec_mode_from(spec_mode_byte(cfg.mode)) == Some(cfg.mode),
        spec_data_bits_from(spec_data_bits_byte(cfg.data_bits)) == Some(cfg.data_bits),
        spec_parity_from(spec_parity_byte(cfg.parity)) == Some(cfg.parity),
        spec_stop_bit_from(spec_stop_bit_byte(cfg.stop_bit)) == Some(cfg.stop_bit),
        spec_breaking_from(spec_breaking_byte(cfg.breaking)) == Some(cfg.breaking),
        spec_decode_uart_config(buf) == Some(cfg),
{
    crate::report::lemma_u32_le_round_trip(cfg.baud);
}

/// The 64-byte feature report that initializes the UART function: the
/// configure-UART request carrying DTR/DSR flow control, the default baud
/// rate, eight data bits, no parity, one stop bit and no break.
pub fn encode_uart_init() -> (buf: Vec<u8>)
    ensures
        buf@.len() == REPORT_BUFFER_LEN,
        buf@[0] == REPORT_ID_SYSTEM_SETTING,
        buf@[1] == REQUEST_CONFIGURE_UART,
        buf@[2] == spec_mode_byte(Mode::DtrDsr),
        buf@[3] == le32_byte(BAUD_DEFAULT, 0),
        buf@[4] == le32_byte(BAUD_DEFAULT, 1),
        buf@[5] == le32_byte(BAUD_DEFAULT, 2),
        buf@[6] == le32_byte(BAUD_DEFAULT, 3),
        buf@[7] == spec_data_bits_byte(DataBits::Eight),
        buf@[8] == spec_parity_byte(Parity::NoParity),
        buf@[9] == spec_stop_bit_byte(StopBit::One),
        buf@[10] == spec_breaking_byte(Breaking::NoBreak),
        forall|i: int| 11 <= i < buf@.len() ==> buf@[i] == 0u8,
{
    let mut buf = feat_rep_buf();
    buf[0] = REPORT_ID_SYSTEM_SETTING;
    buf[1] = REQUEST_CONFIGURE_UART;
    buf[2] = encode_mode(Mode::DtrDsr);
    buf[3] = (BAUD_DEFAULT & 0xFF) as u8;
    buf[4] = ((BAUD_DEFAULT >> 8) & 0xFF) as u8;
    buf[5] = ((BAUD_DEFAULT >> 16) & 0xFF) as u8;
    buf[6] = ((BAUD_DEFAULT >> 24) & 0xFF) as u8;
    buf[7] = encode_data_bits(DataBits::Eight);
    buf[8] = encode_parity(Parity::NoParity);
    buf[9] = encode_stop_bit(StopBit::One);
    buf[10] = encode_breaking(Breaking::NoBreak);
    buf
}

/// A 64-byte system-setting feature report carrying one request opcode and
/// one parameter byte, zero-padded.
pub fn encode_uart_setting(request: u8, value: u8) -> (buf: Vec<u8>)
    ensures
        buf@.len() == REPORT_BUFFER_LEN,
        buf@[0] == REPORT_ID_SYSTEM_SETTING,
        buf@[1] == request,
        buf@[2] == value,
        forall|i: int| 3 <= i < buf@.len() ==> buf@[i] == 0u8,
{
    let mut buf = feat_rep_buf();
    buf[0] = REPORT_ID_SYSTEM_SETTING;
    buf[1] = request;
    buf[2] = value;
    buf
}

/// The 64-byte feature report that sets the baud rate, as a 32-bit
/// little-endian parameter.
pub fn encode_set_baud_rate(baud: u32) -> (buf: Vec<u8>)
    ensures
        buf@.len() == REPORT_BUFFER_LEN,
        buf@[0] == REPORT_ID_SYSTEM_SETTING,
        buf@[1] == REQUEST_SET_UART_BAUD_RATE,
        buf@[2] == le32_byte(baud, 0),
        buf@[3] == le32_byte(baud, 1),
        buf@[4] == le32_byte(baud, 2),
        buf@[5] == le32_byte(baud, 3),
        forall|i: int| 6 <= i < buf@.len() ==> buf@[i] == 0u8,
{
    let mut buf = feat_rep_buf();
    buf[0] = REPORT_ID_SYSTEM_SETTING;
    buf[1] = REQUEST_SET_UART_BAUD_RATE;
    buf[2] = (baud & 0xFF) as u8;
    buf[3] = ((baud >> 8) & 0xFF) as u8;
    buf[4] = ((baud >> 16) & 0xFF) as u8;
    buf[5] = ((baud >> 24) & 0xFF) as u8;
    buf
}

/// Shape of the six feature reports that apply a configuration one field
/// at a time, in the order they are sent: flow control, baud rate, data
/// bits, stop bits, parity, break state.
pub open spec fn uart_set_config_ok(reps: Seq<Seq<u8>>, cfg: Config) -> bool {
    &&& reps.len() == 6
    &&& forall|i: int|
        0 <= i < 6 ==> (#[trigger] reps[i]).len() == REPORT_BUFFER_LEN && reps[i][0]
            == REPORT_ID_SYSTEM_SETTING
    &&& forall|i: int, j: int|
        0 <= i < 6 && i != 1 && 3 <= j < REPORT_BUFFER_LEN ==> #[trigger] reps[i][j] == 0u8
    &&& forall|j: int| 6 <= j < REPORT_BUFFER_LEN ==> #[trigger] reps[1][j] == 0u8
    &&& reps[0][1] == REQUEST_SET_UART_MODE && reps[0][2] == spec_mode_byte(cfg.mode)
    &&& reps[1][1] == REQUEST_SET_UART_BAUD_RATE && reps[1][2] == le32_byte(cfg.baud, 0)
        && reps[1][3] == le32_byte(cfg.baud, 1) && reps[1][4] == le32_byte(cfg.baud, 2)
        && reps[1][5] == le32_byte(cfg.baud, 3)
    &&& reps[2][1] == REQUEST_SET_UART_DATA_BITS && reps[2][2] == spec_data_bits_byte(
        cfg.data_bits,
    )
    &&& reps[3][1] == REQUEST_SET_UART_STOP_BIT && reps[3][2] == spec_stop_bit_byte(cfg.stop_bit)
    &&& reps[4][1] == REQUEST_SET_UART_PARITY && reps[4][2] == spec_parity_byte(cfg.parity)
    &&& reps[5][1] == REQUEST_SET_UART_BREAKING && reps[5][2] == spec_breaking_byte(cfg.breaking)
}

/// The six feature reports that apply a configuration one field at a
/// time.
pub fn uart_set_config_reports(cfg: &Config) -> (reps: Vec<Vec<u8>>)
    ensures
        uart_set_config_ok(reps@.map_values(|r: Vec<u8>| r@), *cfg),
{
    let mut reps: Vec<Vec<u8>> = Vec::new();
    reps.push(encode_uart_setting(REQUEST_SET_UART_MODE, encode_mode(cfg.mode)));
    reps.push(encode_set_baud_rate(cfg.baud));
    reps.push(encode_uart_setting(REQUEST_SET_UART_DATA_BITS, encode_data_bits(cfg.data_bits)));
    reps.push(encode_uart_setting(REQUEST_SET_UART_STOP_BIT, encode_stop_bit(cfg.stop_bit)));
    reps.push(encode_uart_setting(REQUEST_SET_UART_PARITY, encode_parity(cfg.parity)));
    reps.push(encode_uart_setting(REQUEST_SET_UART_BREAKING, encode_breaking(cfg.breaking)));
    reps
}

/// Identifier of the UART data report whose bucket holds a payload of the
/// given length; the overflow identifier for anything past the maximum.
pub open spec fn spec_uart_report_id(len: int) -> u8 {
    if len <= 60 {
        (REPORT_ID_UART_DATA_MIN as int + (bucket_capacity(len) / 4 - 1)) as u8
    } else {
        REPORT_ID_UART_DATA_OVERFLOW
    }
}

/// Bucket capacity of a UART data report identifier; zero for every other
/// identifier, the overflow identifier included.
pub open spec fn spec_uart_payload_size(id: u8) -> int {
    if REPORT_ID_UART_DATA_MIN <= id && id <= REPORT_ID_UART_DATA_MAX {
        4 * (id - REPORT_ID_UART_DATA_MIN + 1)
    } else {
        0
    }
}

/// UART data report identifier for a desired payload length.
pub fn decide_uart_report_id(length: usize) -> (id: u8)
    ensures
        id == spec_uart_report_id(length as int),
{
    if length <= 0x04 {
        0xF0
    } else if length <= 0x08 {
        0xF1
    } else if length <= 0x0C {
        0xF2
    } else if length <= 0x10 {
        0xF3
    } else if length <= 0x14 {
        0xF4
    } else if length <= 0x18 {
        0xF5
    } else if length <= 0x1C {
        0xF6
    } else if length <= 0x20 {
        0xF7
    } else if length <= 0x24 {
        0xF8
    } else if length <= 0x28 {
        0xF9
    } else if length <= 0x2C {
        0xFA
    } else if length <= 0x30 {
        0xFB
    } else if length <= 0x34 {
        0xFC
    } else if length <= 0x38 {
        0xFD
    } else if length <= 0x3C {
        0xFE
    } else {
        0xFF
    }
}

/// Bucket capacity of a UART data report identifier.
pub fn decide_uart_payload_size(id: u8) -> (size: usize)
    ensures
        size == spec_uart_payload_size(id),
{
    if REPORT_ID_UART_DATA_MIN <= id && id <= REPORT_ID_UART_DATA_MAX {
        4 * ((id - REPORT_ID_UART_DATA_MIN) as usize + 1)
    } else {
        0
    }
}

/// Law: for every payload length a bucket holds, the bucket's capacity is
/// recovered from the chosen report identifier, and it holds the length.
pub proof fn lemma_uart_bucket_round_trip(len: int)
    requires
        0 <= len <= 60,
    ensures
        spec_uart_payload_size(spec_uart_report_id(len)) == bucket_capacity(len),
        len <= spec_uart_payload_size(spec_uart_report_id(len)),
{
    crate::report::lemma_bucket_selection(len, len);
}

/// Shape of chunk `i` of a UART write of `data`: a 64-byte output report
/// holding the bucketed identifier, the declared chunk length, the
/// payload bytes, and zero padding.
pub open spec fn uart_chunk_ok(rep: Seq<u8>, data: Seq<u8>, i: int) -> bool {
    let n = data.len() as int;
    let len = chunk_len(n, i);
    &&& rep.len() == REPORT_BUFFER_LEN
    &&& rep[0] == spec_uart_report_id(len)
    &&& rep[1] == len as u8
    &&& forall|j: int| 0 <= j < len ==> #[trigger] rep[2 + j] == data[60 * i + j]
    &&& forall|j: int| len <= j < 60 ==> #[trigger] rep[2 + j] == 0u8
}

/// The chunked output reports of a UART write: `data` split into runs of
/// at most 60 bytes, each framed as a bucketed data report.
pub fn uart_write_reports(data: &Vec<u8>) -> (reps: Vec<Vec<u8>>)
    ensures
        reps@.len() == chunk_count(data@.len() as int),
        forall|i: int| 0 <= i < reps@.len() ==> uart_chunk_ok(#[trigger] reps@[i]@, data@, i),
{
    let n = data.len();
    proof {
        crate::report::lemma_chunk_cover(n as int);
    }
    let cnt: usize = if n == 0 {
        1
    } else {
        (n - 1) / 60 + 1
    };
    let mut reps: Vec<Vec<u8>> = Vec::new();
    let mut i: usize = 0;
    while i < cnt
        invariant
            n == data@.len(),
            cnt == chunk_count(n as int),
            i <= cnt,
            reps@.len() == i,
            forall|k: int| 0 <= k < i ==> uart_chunk_ok(#[trigger] reps@[k]@, data@, k),
        decreases cnt - i,
    {
        proof {
            crate::report::lemma_chunk_cover(n as int);
        }
        let off = i * 60;
        let len = if n - off > 60 {
            60
        } else {
            n - off
        };
        assert(len == chunk_len(n as int, i as int));
        let id = decide_uart_report_id(len);
        let mut rep = feat_rep_buf();
        rep[0] = id;
        rep[1] = len as u8;
        let mut j: usize = 0;
        while j < len
            invariant
                n == data@.len(),
                j <= len,
                off == i * 60,
                off + len <= n,
                len <= 60,
                rep@.len() == REPORT_BUFFER_LEN,
                rep@[0] == id,
                rep@[1] == len as u8,
                forall|k: int| 0 <= k < j ==> #[trigger] rep@[2 + k] == data@[off + k],
                forall|k: int| j <= k < 60 ==> #[trigger] rep@[2 + k] == 0u8,
            decreases len - j,
        {
            rep[2 + j] = data[off + j];
            j = j + 1;
        }
        reps.push(rep);
        i = i + 1;
    }
    reps
}

proof fn lemma_uart_declared_prefix(reps: Seq<Seq<u8>>, data: Seq<u8>, k: int)
    requires
        data.len() <= usize::MAX,
        reps.len() == chunk_count(data.len() as int),
        forall|i: int| 0 <= i < reps.len() ==> uart_chunk_ok(#[trigger] reps[i], data, i),
        0 <= k <= reps.len(),
    ensures
        crate::report::declared_total(reps.take(k), 1) == crate::report::chunk_total(
            data.len() as int,
            k,
        ),
    decreases k,
{
    crate::report::lemma_chunk_cover(data.len() as int);
    if k > 0 {
        lemma_uart_declared_prefix(reps, data, k - 1);
        assert(reps.take(k).drop_last() =~= reps.take(k - 1));
        assert(reps.take(k).last() == reps[k - 1]);
    }
}

/// Law: the chunk reports of a UART write carry the written bytes
/// exactly: their declared lengths sum to the length of the data.
pub proof fn lemma_uart_write_total(reps: Seq<Seq<u8>>, data: Seq<u8>)
    requires
        data.len() <= usize::MAX,
        reps.len() == chunk_count(data.len() as int),
        forall|i: int| 0 <= i < reps.len() ==> uart_chunk_ok(#[trigger] reps[i], data, i),
    ensures
        crate::report::declared_total(reps, 1) == data.len(),
{
    lemma_uart_declared_prefix(reps, data, reps.len() as int);
    assert(reps.take(reps.len() as int) =~= reps);
    crate::report::lemma_chunk_cover(data.len() as int);
}

/// Assembly step of a chunked UART read, the same scheme as the I2C one:
/// a popped report contributes the payload its length byte declares
/// (clipped to the room left in `buf` after `idx`), is skipped as noise
/// when malformed, and fails the read when its identifier is unknown.
pub fn uart_read_accept(data: &Vec<u8>, buf: &mut Vec<u8>, idx: usize) -> (step: ReadStep)
    requires
        idx <= old(buf)@.len(),
    ensures
        final(buf)@.len() == old(buf)@.len(),
        match step {
            ReadStep::Skipped => {
                &&& final(buf)@ == old(buf)@
                &&& (data@.len() < 2 || (known_report_id(data@[0]) && (spec_uart_payload_size(
                    data@[0],
                ) == 0 || spec_uart_payload_size(data@[0]) > data@.len() - 2 || data@[1]
                    > spec_uart_payload_size(data@[0]))))
            },
            ReadStep::Unknown { value } => {
                &&& final(buf)@ == old(buf)@
                &&& data@.len() >= 2
                &&& !known_report_id(data@[0])
                &&& value == data@[0]
            },
            ReadStep::Copied { count } => {
                &&& data@.len() >= 2
                &&& known_report_id(data@[0])
                &&& 0 < spec_uart_payload_size(data@[0]) <= data@.len() - 2
                &&& data@[1] <= spec_uart_payload_size(data@[0])
                &&& count as int == (if data@[1] as int <= old(buf)@.len() - idx {
                    data@[1] as int
                } else {
                    old(buf)@.len() - idx
                })
                &&& forall|j: int|
                    0 <= j < count ==> #[trigger] final(buf)@[idx + j] == data@[2 + j]
                &&& forall|j: int|
                    0 <= j < old(buf)@.len() && !(idx <= j < idx + count) ==> final(buf)@[j]
                        == old(buf)@[j]
            },
        },
{
    if data.len() < 2 {
        return ReadStep::Skipped;
    }
    let id = data[0];
    if !is_known_report_id(id) {
        return ReadStep::Unknown { value: id };
    }
    let size = decide_uart_payload_size(id);
    if size == 0 || size > data.len() - 2 {
        return ReadStep::Skipped;
    }
    let declared = data[1] as usize;
    if declared > size {
        return ReadStep::Skipped;
    }
    let avail = buf.len() - idx;
    let count = if declared <= avail {
        declared
    } else {
        avail
    };
    let mut j: usize = 0;
    while j < count
        invariant
            j <= count,
            idx + count <= buf@.len() <= usize::MAX,
            count + 2 <= data@.len() <= usize::MAX,
            buf@.len() == old(buf)@.len(),
            forall|k: int| 0 <= k < j ==> #[trigger] buf@[idx + k] == data@[2 + k],
            forall|k: int|
                0 <= k < buf@.len() && !(idx <= k < idx + j) ==> buf@[k] == old(buf)@[k],
        decreases count - j,
    {
        buf[idx + j] = data[2 + j];
        j = j + 1;
    }
    ReadStep::Copied { count }
}

/// Sum of the byte amounts the reports of a queue declare: byte 1 of each
/// report that has one.
pub open spec fn queued_amount(q: Seq<Seq<u8>>) -> int
    decreases q.len(),
{
    if q.len() == 0 {
        0
    } else {
        queued_amount(q.drop_last()) + (if q.last().len() > 1 {
            q.last()[1] as int
        } else {
            0int
        })
    }
}

proof fn lemma_queued_amount_nonneg(q: Seq<Seq<u8>>)
    ensures
        queued_amount(q) >= 0,
    decreases q.len(),
{
    if q.len() > 0 {
        lemma_queued_amount_nonneg(q.drop_last());
    }
}

/// Sum of the declared lengths of the queued UART data reports, read
/// without consuming them; saturates at the machine limit.
pub fn uart_queued_byte_amount(fifo: &ReportFifo) -> (n: usize)
    ensures
        ({
            let total = queued_amount(fifo.group(group_of(REPORT_ID_UART_DATA_MIN)));
            &&& total <= usize::MAX ==> n == total
            &&& total > usize::MAX ==> n == usize::MAX
        }),
{
    let q = fifo.iter_peek(REPORT_ID_UART_DATA_MIN);
    let ghost model = fifo.group(group_of(REPORT_ID_UART_DATA_MIN));
    proof {
        assert(q@.map_values(|r: Vec<u8>| r@) == model);
    }
    let qlen = q.len();
    let mut amount: usize = 0;
    let mut i: usize = 0;
    while i < qlen
        invariant
            qlen == q@.len(),
            qlen == model.len(),
            q@.map_values(|r: Vec<u8>| r@) == model,
            i <= qlen,
            queued_amount(model.take(i as int)) <= usize::MAX ==> amount == queued_amount(
                model.take(i as int),
            ),
            queued_amount(model.take(i as int)) > usize::MAX ==> amount == usize::MAX,
        decreases qlen - i,
    {
        let rep = &q[i];
        let delta: usize = if rep.len() > 1 {
            rep[1] as usize
        } else {
            0
        };
        proof {
            let s = model.take(i as int);
            let s1 = model.take(i as int + 1);
            assert(s1.drop_last() =~= s);
            assert(s1.last() == model[i as int]);
            assert(model[i as int] == q@.map_values(|r: Vec<u8>| r@)[i as int]);
            lemma_queued_amount_nonneg(s);
        }
        amount = amount.saturating_add(delta);
        i = i + 1;
    }
    proof {
        assert(model.take(qlen as int) =~= model);
    }
    amount
}

/// DCD and RI line states carried by the DCD/RI status feature report:
/// bit 0 is DCD, bit 1 is RI.  Any other bit set is a byte-decoding error
/// carrying the byte.
pub fn decode_dcd_ri_status(buf: &Vec<u8>) -> (r: Ft260Result<u8>)
    requires
        buf@.len() >= 2,
    ensures
        match r {
            Ok(s) => buf@[1] <= 3 && s == buf@[1],
            Err(e) => {
                &&& buf@[1] > 3
                &&& e.is_byte()
                &&& e.byte_value() == buf@[1]
            },
        },
{
    let s = buf[1];
    if s <= 3 {
        Ok(s)
    } else {
        Err(Ft260Error::ByteError {
            value: s,
            message: "Couldn't get valid `UartDcdRiStatus` value".to_owned(),
        })
    }
}

} // verus!
