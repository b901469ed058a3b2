use ft260hid::i2c::{
    check_bus_idle, check_nack, check_read_complete, check_write_complete,
    decide_i2c_payload_size, decide_i2c_report_id, decode_i2c_status, encode_i2c_read_request,
    flag_to_cond, i2c_read_accept, i2c_write_reports, status_is_idle, Flag, ReadStep,
};
use ft260hid::Ft260Error;

#[test]
fn bucket_selection_is_total_and_monotonic() {
    // For L in [0, 60] the chosen bucket is the smallest multiple of four
    // (at least four) holding L; for L > 60 the overflow identifier.
    let mut last_id = 0xD0;
    for len in 0usize..=60 {
        let id = decide_i2c_report_id(len);
        let cap = decide_i2c_payload_size(id);
        assert!((0xD0..=0xDE).contains(&id));
        assert!(cap >= len);
        assert_eq!(cap % 4, 0);
        assert!(cap <= 60);
        // smallest such multiple
        assert!(cap == 4 || cap - 4 < len);
        // monotonic in the length
        assert!(id >= last_id);
        last_id = id;
    }
    assert_eq!(decide_i2c_report_id(0), 0xD0);
    assert_eq!(decide_i2c_report_id(4), 0xD0);
    assert_eq!(decide_i2c_report_id(5), 0xD1);
    assert_eq!(decide_i2c_report_id(8), 0xD1);
    assert_eq!(decide_i2c_report_id(60), 0xDE);
    assert_eq!(decide_i2c_report_id(61), 0xDF);
    assert_eq!(decide_i2c_report_id(1000), 0xDF);
}

#[test]
fn payload_sizes_from_identifier() {
    assert_eq!(decide_i2c_payload_size(0xD0), 4);
    assert_eq!(decide_i2c_payload_size(0xD1), 8);
    assert_eq!(decide_i2c_payload_size(0xDE), 60);
    // the overflow identifier and foreign identifiers have no bucket
    assert_eq!(decide_i2c_payload_size(0xDF), 0);
    assert_eq!(decide_i2c_payload_size(0xC0), 0);
    assert_eq!(decide_i2c_payload_size(0xF0), 0);
}

#[test]
fn condition_bytes() {
    assert_eq!(flag_to_cond(Flag::NoCondition), 0);
    assert_eq!(flag_to_cond(Flag::Start), 2);
    assert_eq!(flag_to_cond(Flag::ReStart), 3);
    assert_eq!(flag_to_cond(Flag::Stop), 4);
    assert_eq!(flag_to_cond(Flag::StartAndStop), 6);
    assert_eq!(flag_to_cond(Flag::ReStartAndStop), 7);
}

#[test]
fn write_single_report_scenario() {
    // Writing 8 bytes to address 0x50 with start+stop produces exactly one
    // output report: the bucket identifier for size 8, the combined
    // start-and-stop condition value, length byte 8, and the payload right
    // after the header.
    let data: Vec<u8> = vec![0x11, 0x22, 0x33, 0x44, 0x55, 0x66, 0x77, 0x88];
    let reps = i2c_write_reports(0x50, Flag::StartAndStop, &data);
    assert_eq!(reps.len(), 1);
    let rep = &reps[0];
    assert_eq!(rep.len(), 64);
    assert_eq!(rep[0], 0xD1);
    assert_eq!(rep[1], 0x50);
    assert_eq!(rep[2], 0x06);
    assert_eq!(rep[3], 8);
    assert_eq!(&rep[4..12], &data[..]);
    assert!(rep[12..].iter().all(|&b| b == 0));
}

#[test]
fn write_chunks_long_data() {
    // Writing N > 60 bytes produces ceil(N / 60) reports; the start
    // condition only on the first, the stop only on the last; the bytes
    // across the reports equal the input.
    let n = 150usize;
    let data: Vec<u8> = (0..n).map(|i| i as u8).collect();
    let reps = i2c_write_reports(0x50, Flag::StartAndStop, &data);
    assert_eq!(reps.len(), 3); // ceil(150 / 60)
    let lens = [60usize, 60, 30];
    let mut total = 0usize;
    let mut gathered: Vec<u8> = Vec::new();
    for (i, rep) in reps.iter().enumerate() {
        assert_eq!(rep.len(), 64);
        assert_eq!(rep[1], 0x50);
        assert_eq!(rep[3] as usize, lens[i]);
        let want_cond = if i == 0 { 0x02 } else { 0x00 } | if i == 2 { 0x04 } else { 0x00 };
        assert_eq!(rep[2], want_cond);
        assert_eq!(rep[0], decide_i2c_report_id(lens[i]));
        gathered.extend_from_slice(&rep[4..4 + lens[i]]);
        total += rep[3] as usize;
    }
    assert_eq!(total, n);
    assert_eq!(gathered, data);
}

#[test]
fn write_restart_sends_plain_start_bit() {
    let data: Vec<u8> = vec![1, 2, 3];
    let reps = i2c_write_reports(0x3A, Flag::ReStartAndStop, &data);
    assert_eq!(reps.len(), 1);
    // the chunked write raises only the START bit for a repeated start
    assert_eq!(reps[0][2], 0x06);
}

#[test]
fn write_empty_data_sends_one_empty_report() {
    let data: Vec<u8> = Vec::new();
    let reps = i2c_write_reports(0x50, Flag::Start, &data);
    assert_eq!(reps.len(), 1);
    assert_eq!(reps[0][0], 0xD0);
    assert_eq!(reps[0][2], 0x02);
    assert_eq!(reps[0][3], 0);
}

#[test]
fn read_request_layout() {
    let buf = encode_i2c_read_request(0x50, Flag::ReStartAndStop, 0x0204);
    assert_eq!(buf.len(), 64);
    assert_eq!(buf[0], 0xC2);
    assert_eq!(buf[1], 0x50);
    assert_eq!(buf[2], 0x07);
    assert_eq!(buf[3], 0x04); // little-endian length
    assert_eq!(buf[4], 0x02);
    assert!(buf[5..].iter().all(|&b| b == 0));
}

#[test]
fn read_accept_copies_declared_payload() {
    let mut data = vec![0xD1, 5];
    data.extend_from_slice(&[10, 20, 30, 40, 50, 0, 0, 0]);
    let mut buf = vec![0u8; 16];
    let step = i2c_read_accept(&data, &mut buf, 2);
    assert_eq!(step, ReadStep::Copied { count: 5 });
    assert_eq!(&buf[2..7], &[10, 20, 30, 40, 50]);
    assert!(buf[..2].iter().all(|&b| b == 0));
    assert!(buf[7..].iter().all(|&b| b == 0));
}

#[test]
fn read_accept_clips_to_buffer_room() {
    let mut data = vec![0xD1, 8];
    data.extend_from_slice(&[1, 2, 3, 4, 5, 6, 7, 8]);
    let mut buf = vec![0u8; 4];
    let step = i2c_read_accept(&data, &mut buf, 1);
    assert_eq!(step, ReadStep::Copied { count: 3 });
    assert_eq!(&buf[..], &[0, 1, 2, 3]);
}

#[test]
fn read_accept_skips_noise() {
    let mut buf = vec![0u8; 8];
    // too short to carry a length byte
    assert_eq!(i2c_read_accept(&vec![0xD0], &mut buf, 0), ReadStep::Skipped);
    // a declared length above the bucket capacity is discarded, not used
    let mut over = vec![0xD0, 5];
    over.extend_from_slice(&[1, 2, 3, 4]);
    assert_eq!(i2c_read_accept(&over, &mut buf, 0), ReadStep::Skipped);
    // a report shorter than its bucket capacity is discarded
    let short = vec![0xD1, 2, 9, 9];
    assert_eq!(i2c_read_accept(&short, &mut buf, 0), ReadStep::Skipped);
    // the overflow identifier has no bucket
    let overflow = vec![0xDF, 2, 9, 9];
    assert_eq!(i2c_read_accept(&overflow, &mut buf, 0), ReadStep::Skipped);
    assert!(buf.iter().all(|&b| b == 0));
}

#[test]
fn read_accept_rejects_unknown_identifier() {
    let mut buf = vec![0u8; 8];
    let alien = vec![0x17, 2, 9, 9];
    assert_eq!(i2c_read_accept(&alien, &mut buf, 0), ReadStep::Unknown { value: 0x17 });
    assert!(buf.iter().all(|&b| b == 0));
}

#[test]
fn status_decoding() {
    let mut buf = vec![0u8; 64];
    buf[0] = 0xC0;
    buf[1] = 0x20;
    assert_eq!(decode_i2c_status(&buf, 64).unwrap(), 0x20);
    // a report that is not the status report is a transport-class error
    buf[0] = 0xC2;
    assert!(matches!(
        decode_i2c_status(&buf, 64).unwrap_err(),
        Ft260Error::HidError { .. }
    ));
    // too short
    buf[0] = 0xC0;
    assert!(matches!(
        decode_i2c_status(&buf, 2).unwrap_err(),
        Ft260Error::HidError { .. }
    ));
    // a status byte with the undefined top bit set is a byte error
    buf[1] = 0xA0;
    match decode_i2c_status(&buf, 64).unwrap_err() {
        Ft260Error::ByteError { value, .. } => assert_eq!(value, 0xA0),
        e => panic!("expected a byte error, got {:?}", e),
    }
}

#[test]
fn write_read_fails_with_i2c_error_when_bus_not_idle() {
    // The composite write-then-read checks the bus first and fails with an
    // I2C-specific error, not a generic one, when the bus is not idle.
    let err = check_bus_idle(0x01).unwrap_err();
    assert!(matches!(err, Ft260Error::I2cError { .. }));
    let err = check_bus_idle(0x60).unwrap_err();
    assert!(matches!(err, Ft260Error::I2cError { .. }));
    assert!(check_bus_idle(0x20).is_ok());
}

#[test]
fn write_read_gates() {
    assert!(check_write_complete(8, 8).is_ok());
    assert!(matches!(
        check_write_complete(7, 8).unwrap_err(),
        Ft260Error::I2cError { .. }
    ));
    assert!(check_nack(0x20).is_ok());
    assert!(matches!(check_nack(0x24).unwrap_err(), Ft260Error::I2cError { .. }));
    assert!(matches!(check_nack(0x28).unwrap_err(), Ft260Error::I2cError { .. }));
    assert!(check_read_complete(4, 4).is_ok());
    assert!(matches!(
        check_read_complete(0, 4).unwrap_err(),
        Ft260Error::I2cError { .. }
    ));
}

#[test]
fn idle_status_is_exact() {
    assert!(status_is_idle(0x20));
    assert!(!status_is_idle(0x21));
    assert!(!status_is_idle(0x60));
    assert!(!status_is_idle(0x00));
}

#[test]
fn write_chunk_boundaries() {
    let data: Vec<u8> = vec![0xAB; 60];
    let reps = i2c_write_reports(0x50, Flag::StartAndStop, &data);
    assert_eq!(reps.len(), 1);
    assert_eq!(reps[0][0], 0xDE);
    assert_eq!(reps[0][2], 0x06); // start and stop on the single chunk
    assert_eq!(reps[0][3], 60);

    let data: Vec<u8> = vec![0xCD; 61];
    let reps = i2c_write_reports(0x50, Flag::StartAndStop, &data);
    assert_eq!(reps.len(), 2);
    assert_eq!(reps[0][3], 60);
    assert_eq!(reps[1][3], 1);
    assert_eq!(reps[0][2], 0x02); // start only on the first chunk
    assert_eq!(reps[1][2], 0x04); // stop only on the last chunk
    assert_eq!(reps[1][0], 0xD0);
}
