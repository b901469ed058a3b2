use ft260hid::fifo::ReportFifo;
use ft260hid::i2c::ReadStep;
use ft260hid::uart::{
    decide_uart_payload_size, decide_uart_report_id, decode_dcd_ri_status, decode_uart_config,
    encode_breaking, encode_data_bits, encode_mode, encode_parity, encode_set_baud_rate,
    encode_stop_bit, encode_uart_init, uart_queued_byte_amount, uart_read_accept,
    uart_set_config_reports, uart_write_reports, Breaking, Config, DataBits, Mode, Parity,
    StopBit,
};
use ft260hid::Ft260Error;

/// A UART status report buffer carrying a configuration's field bytes.
fn status_report_for(cfg: &Config) -> Vec<u8> {
    let mut buf = vec![0u8; 64];
    buf[0] = 0xE0;
    buf[1] = encode_mode(cfg.mode);
    buf[2..6].copy_from_slice(&cfg.baud.to_le_bytes());
    buf[6] = encode_data_bits(cfg.data_bits);
    buf[7] = encode_parity(cfg.parity);
    buf[8] = encode_stop_bit(cfg.stop_bit);
    buf[9] = encode_breaking(cfg.breaking);
    buf
}

#[test]
fn config_round_trip_default() {
    // set_config writes the field bytes the device echoes in its status
    // report; decoding a status report carrying them yields a
    // structurally equal configuration.
    let cfg = Config::default();
    assert_eq!(cfg.mode, Mode::NoFlowControl);
    assert_eq!(cfg.baud, 115200);
    let back = decode_uart_config(&status_report_for(&cfg)).unwrap();
    assert_eq!(cfg, back);
}

#[test]
fn config_round_trip_representative() {
    let cfg = Config {
        mode: Mode::RtsCts,
        baud: 57600,
        data_bits: DataBits::Eight,
        stop_bit: StopBit::One,
        parity: Parity::NoParity,
        breaking: Breaking::Break,
    };
    let back = decode_uart_config(&status_report_for(&cfg)).unwrap();
    assert_eq!(cfg, back);

    let cfg = Config {
        mode: Mode::XonXoff,
        baud: 9600,
        data_bits: DataBits::Seven,
        stop_bit: StopBit::Two,
        parity: Parity::Odd,
        breaking: Breaking::NoBreak,
    };
    let back = decode_uart_config(&status_report_for(&cfg)).unwrap();
    assert_eq!(cfg, back);

    let cfg = Config {
        mode: Mode::DtrDsr,
        baud: 3_000_000,
        data_bits: DataBits::Eight,
        stop_bit: StopBit::One,
        parity: Parity::Even,
        breaking: Breaking::NoBreak,
    };
    let back = decode_uart_config(&status_report_for(&cfg)).unwrap();
    assert_eq!(cfg, back);
}

#[test]
fn config_decode_rejects_bad_bytes() {
    let cfg = Config::default();
    // an undefined flow-control byte
    let mut buf = status_report_for(&cfg);
    buf[1] = 9;
    match decode_uart_config(&buf).unwrap_err() {
        Ft260Error::ByteError { value, .. } => assert_eq!(value, 9),
        e => panic!("expected a byte error, got {:?}", e),
    }
    // an undefined data-bits byte
    let mut buf = status_report_for(&cfg);
    buf[6] = 6;
    match decode_uart_config(&buf).unwrap_err() {
        Ft260Error::ByteError { value, .. } => assert_eq!(value, 6),
        e => panic!("expected a byte error, got {:?}", e),
    }
    // an undefined parity byte
    let mut buf = status_report_for(&cfg);
    buf[7] = 5;
    assert!(matches!(
        decode_uart_config(&buf).unwrap_err(),
        Ft260Error::ByteError { value: 5, .. }
    ));
    // an undefined stop-bit byte
    let mut buf = status_report_for(&cfg);
    buf[8] = 1;
    assert!(matches!(
        decode_uart_config(&buf).unwrap_err(),
        Ft260Error::ByteError { value: 1, .. }
    ));
    // an undefined break byte
    let mut buf = status_report_for(&cfg);
    buf[9] = 2;
    assert!(matches!(
        decode_uart_config(&buf).unwrap_err(),
        Ft260Error::ByteError { value: 2, .. }
    ));
}

#[test]
fn init_report_layout() {
    let buf = encode_uart_init();
    assert_eq!(buf.len(), 64);
    assert_eq!(buf[0], 0xA1);
    assert_eq!(buf[1], 0x41);
    assert_eq!(buf[2], 2); // DTR/DSR flow control
    assert_eq!(&buf[3..7], &115200u32.to_le_bytes());
    assert_eq!(buf[7], 8); // eight data bits
    assert_eq!(buf[8], 0); // no parity
    assert_eq!(buf[9], 0); // one stop bit
    assert_eq!(buf[10], 0); // no break
    assert!(buf[11..].iter().all(|&b| b == 0));
}

#[test]
fn set_config_reports_layout() {
    let cfg = Config {
        mode: Mode::RtsCts,
        baud: 57600,
        data_bits: DataBits::Eight,
        stop_bit: StopBit::One,
        parity: Parity::NoParity,
        breaking: Breaking::Break,
    };
    let reps = uart_set_config_reports(&cfg);
    assert_eq!(reps.len(), 6);
    for rep in &reps {
        assert_eq!(rep.len(), 64);
        assert_eq!(rep[0], 0xA1);
    }
    assert_eq!((reps[0][1], reps[0][2]), (0x03, 1)); // flow control
    assert_eq!(reps[1][1], 0x42); // baud rate
    assert_eq!(&reps[1][2..6], &57600u32.to_le_bytes());
    assert_eq!((reps[2][1], reps[2][2]), (0x43, 8)); // data bits
    assert_eq!((reps[3][1], reps[3][2]), (0x45, 0)); // stop bits
    assert_eq!((reps[4][1], reps[4][2]), (0x44, 0)); // parity
    assert_eq!((reps[5][1], reps[5][2]), (0x46, 1)); // breaking
    assert_eq!(encode_set_baud_rate(57600), reps[1]);
}

#[test]
fn uart_bucket_selection() {
    assert_eq!(decide_uart_report_id(0), 0xF0);
    assert_eq!(decide_uart_report_id(4), 0xF0);
    assert_eq!(decide_uart_report_id(5), 0xF1);
    assert_eq!(decide_uart_report_id(60), 0xFE);
    assert_eq!(decide_uart_report_id(61), 0xFF);
    assert_eq!(decide_uart_payload_size(0xF0), 4);
    assert_eq!(decide_uart_payload_size(0xFE), 60);
    assert_eq!(decide_uart_payload_size(0xFF), 0);
    assert_eq!(decide_uart_payload_size(0xD0), 0);
}

#[test]
fn uart_write_chunks() {
    let n = 130usize;
    let data: Vec<u8> = (0..n).map(|i| (i * 3) as u8).collect();
    let reps = uart_write_reports(&data);
    assert_eq!(reps.len(), 3); // ceil(130 / 60)
    let lens = [60usize, 60, 10];
    let mut gathered: Vec<u8> = Vec::new();
    let mut total = 0usize;
    for (i, rep) in reps.iter().enumerate() {
        assert_eq!(rep.len(), 64);
        assert_eq!(rep[0], decide_uart_report_id(lens[i]));
        assert_eq!(rep[1] as usize, lens[i]);
        gathered.extend_from_slice(&rep[2..2 + lens[i]]);
        total += rep[1] as usize;
    }
    assert_eq!(total, n);
    assert_eq!(gathered, data);
}

#[test]
fn uart_write_small() {
    let data: Vec<u8> = vec![7, 8, 9];
    let reps = uart_write_reports(&data);
    assert_eq!(reps.len(), 1);
    assert_eq!(reps[0][0], 0xF0);
    assert_eq!(reps[0][1], 3);
    assert_eq!(&reps[0][2..5], &[7, 8, 9]);
    assert!(reps[0][5..].iter().all(|&b| b == 0));
}

#[test]
fn uart_read_accept_behaves_like_i2c() {
    let mut data = vec![0xF1, 6];
    data.extend_from_slice(&[1, 2, 3, 4, 5, 6, 0, 0]);
    let mut buf = vec![0u8; 10];
    assert_eq!(uart_read_accept(&data, &mut buf, 0), ReadStep::Copied { count: 6 });
    assert_eq!(&buf[..6], &[1, 2, 3, 4, 5, 6]);
    // an I2C data report in the UART queue is noise for the UART reader
    let alien = vec![0xD0, 2, 9, 9, 0, 0];
    assert_eq!(uart_read_accept(&alien, &mut buf, 6), ReadStep::Skipped);
    let unknown = vec![0x55, 2, 9, 9];
    assert_eq!(
        uart_read_accept(&unknown, &mut buf, 6),
        ReadStep::Unknown { value: 0x55 }
    );
}

#[test]
fn queued_byte_amount_sums_without_consuming() {
    let mut fifo = ReportFifo::new();
    assert_eq!(uart_queued_byte_amount(&fifo), 0);
    let mut r1 = vec![0xF1, 6];
    r1.extend_from_slice(&[0; 8]);
    let mut r2 = vec![0xF0, 3];
    r2.extend_from_slice(&[0; 6]);
    fifo.push_report(r1);
    fifo.push_report(r2);
    fifo.push_report(vec![0xF0]); // too short to declare a length
    assert_eq!(uart_queued_byte_amount(&fifo), 9);
    // peeking did not consume the queue
    assert_eq!(fifo.len(0xF0), 3);
    assert_eq!(uart_queued_byte_amount(&fifo), 9);
}

#[test]
fn dcd_ri_status_decoding() {
    let mut buf = vec![0u8; 64];
    buf[0] = 0xE2;
    buf[1] = 0x03;
    assert_eq!(decode_dcd_ri_status(&buf).unwrap(), 3);
    buf[1] = 0x00;
    assert_eq!(decode_dcd_ri_status(&buf).unwrap(), 0);
    buf[1] = 0x05;
    match decode_dcd_ri_status(&buf).unwrap_err() {
        Ft260Error::ByteError { value, .. } => assert_eq!(value, 5),
        e => panic!("expected a byte error, got {:?}", e),
    }
}
