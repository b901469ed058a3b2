//! I2C engine logic: bucketed data-report selection, chunked write
//! framing, read-request framing, assembly of inbound data reports, and
//! the status checks of the composite write-then-read transaction.
//!
//! Everything here computes on plain bytes.  The transport shell sends the
//! encoded reports, polls the FIFO, and hands each popped report back to
//! the assembly step.

use crate::consts::{
    I2C_STATUS_ADDRESS_NACK, I2C_STATUS_CONTROLLER_IDLE, I2C_STATUS_DATA_NACK,
    REPORT_BUFFER_LEN, REPORT_ID_I2C_DATA_MAX, REPORT_ID_I2C_DATA_MIN,
    REPORT_ID_I2C_DATA_OVERFLOW, REPORT_ID_I2C_READ_REQUEST, REPORT_ID_I2C_STATUS,
};
use crate::error::Ft260Error;
use crate::report::{
    bucket_capacity, chunk_count, chunk_len, feat_rep_buf, is_known_report_id, known_report_id,
    le16_hi, le16_lo,
};
use crate::Ft260Result;
use vstd::prelude::*;

verus! {

/// Bus conditions an I2C transaction can ask for.
#[derive(Debug, Clone, Copy, PartialEq, Eq, Structural)]
pub enum Flag {
    /// No START or STOP framing.
    NoCondition,
    /// START condition.
    Start,
    /// Repeated START condition.
    ReStart,
    /// STOP condition.
    Stop,
    /// START and STOP.
    StartAndStop,
    /// Repeated START and STOP.
    ReStartAndStop,
}

/// Condition byte a flag encodes to on the wire.
pub open spec fn spec_cond_bits(flag: Flag) -> u8 {
    match flag {
        Flag::NoCondition => 0,
        Flag::Start => 2,
        Flag::ReStart => 3,
        Flag::Stop => 4,
        Flag::StartAndStop => 6,
        Flag::ReStartAndStop => 7,
    }
}

/// Whether a flag asks for a START (or repeated START) condition.
pub open spec fn flag_has_start(flag: Flag) -> bool {
    match flag {
        Flag::Start | Flag::ReStart | Flag::StartAndStop | Flag::ReStartAndStop => true,
        Flag::NoCondition | Flag::Stop => false,
    }
}

/// Whether a flag asks for a STOP condition.
pub open spec fn flag_has_stop(flag: Flag) -> bool {
    match flag {
        Flag::Stop | Flag::StartAndStop | Flag::ReStartAndStop => true,
        Flag::NoCondition | Flag::Start | Flag::ReStart => false,
    }
}

/// Condition byte of an I2C flag.
pub fn flag_to_cond(flag: Flag) -> (bits: u8)
    ensures
        bits == spec_cond_bits(flag),
{
    match flag {
        Flag::NoCondition => 0,
        Flag::Start => 2,
        Flag::ReStart => 3,
        Flag::Stop => 4,
        Flag::StartAndStop => 6,
        Flag::ReStartAndStop => 7,
    }
}

/// Identifier of the I2C data report whose bucket holds a payload of the
/// given length; the overflow identifier for anything past the maximum.
pub open spec fn spec_i2c_report_id(len: int) -> u8 {
    if len <= 60 {
        (REPORT_ID_I2C_DATA_MIN as int + (bucket_capacity(len) / 4 - 1)) as u8
    } else {
        REPORT_ID_I2C_DATA_OVERFLOW
    }
}

/// Bucket capacity of an I2C data report identifier; zero for every other
/// identifier, the overflow identifier included.
pub open spec fn spec_i2c_payload_size(id: u8) -> int {
    if REPORT_ID_I2C_DATA_MIN <= id && id <= REPORT_ID_I2C_DATA_MAX {
        4 * (id - REPORT_ID_I2C_DATA_MIN + 1)
    } else {
        0
    }
}

/// I2C data report identifier for a desired payload length.
pub fn decide_i2c_report_id(length: usize) -> (id: u8)
    ensures
        id == spec_i2c_report_id(length as int),
{
    if length <= 0x04 {
        0xD0
    } else if length <= 0x08 {
        0xD1
    } else if length <= 0x0C {
        0xD2
    } else if length <= 0x10 {
        0xD3
    } else if length <= 0x14 {
        0xD4
    } else if length <= 0x18 {
        0xD5
    } else if length <= 0x1C {
        0xD6
    } else if length <= 0x20 {
        0xD7
    } else if length <= 0x24 {
        0xD8
    } else if length <= 0x28 {
        0xD9
    } else if length <= 0x2C {
        0xDA
    } else if length <= 0x30 {
        0xDB
    } else if length <= 0x34 {
        0xDC
    } else if length <= 0x38 {
        0xDD
    } else if length <= 0x3C {
        0xDE
    } else {
        0xDF
    }
}

/// Bucket capacity of an I2C data report identifier.
pub fn decide_i2c_payload_size(id: u8) -> (size: usize)
    ensures
        size == spec_i2c_payload_size(id),
{
    if REPORT_ID_I2C_DATA_MIN <= id && id <= REPORT_ID_I2C_DATA_MAX {
        4 * ((id - REPORT_ID_I2C_DATA_MIN) as usize + 1)
    } else {
        0
    }
}

/// Law: for every payload length a bucket holds, the bucket's capacity is
/// recovered from the chosen report identifier, and it holds the length.
pub proof fn lemma_i2c_bucket_round_trip(len: int)
    requires
        0 <= len <= 60,
    ensures
        spec_i2c_payload_size(spec_i2c_report_id(len)) == bucket_capacity(len),
        len <= spec_i2c_payload_size(spec_i2c_report_id(len)),
{
    crate::report::lemma_bucket_selection(len, len);
}

/// Condition byte of chunk `i` out of `cnt`: the START bit only on the
/// first chunk and only when the flag asks for a start, the STOP bit only
/// on the last chunk and only when the flag asks for a stop.
pub open spec fn chunk_condition(flag: Flag, i: int, cnt: int) -> u8 {
    ((if i == 0 && flag_has_start(flag) {
        2int
    } else {
        0int
    }) + (if i == cnt - 1 && flag_has_stop(flag) {
        4int
    } else {
        0int
    })) as u8
}

fn chunk_condition_byte(flag: Flag, first: bool, last: bool) -> (bits: u8)
    ensures
        bits as int == (if first && flag_has_start(flag) {
            2int
        } else {
            0int
        }) + (if last && flag_has_stop(flag) {
            4int
        } else {
            0int
        }),
{
    let mut bits: u8 = 0;
    let start = match flag {
        Flag::Start | Flag::ReStart | Flag::StartAndStop | Flag::ReStartAndStop => true,
        _ => false,
    };
    let stop = match flag {
        Flag::Stop | Flag::StartAndStop | Flag::ReStartAndStop => true,
        _ => false,
    };
    if first && start {
        bits = bits + 2;
    }
    if last && stop {
        bits = bits + 4;
    }
    bits
}

/// Shape of chunk `i` of an I2C write of `data` to `addr`: a 64-byte
/// output report holding the bucketed identifier, the slave address, the
/// chunk's condition byte, the declared chunk length, the payload bytes,
/// and zero padding.
pub open spec fn i2c_chunk_ok(rep: Seq<u8>, addr: u8, flag: Flag, data: Seq<u8>, i: int) -> bool {
    let n = data.len() as int;
    let len = chunk_len(n, i);
    &&& rep.len() == REPORT_BUFFER_LEN
    &&& rep[0] == spec_i2c_report_id(len)
    &&& rep[1] == addr
    &&& rep[2] == chunk_condition(flag, i, chunk_count(n))
    &&& rep[3] == len as u8
    &&& forall|j: int| 0 <= j < len ==> #[trigger] rep[4 + j] == data[60 * i + j]
    &&& forall|j: int| len <= j < 60 ==> #[trigger] rep[4 + j] == 0u8
}

/// The chunked output reports of an I2C write: `data` split into runs of
/// at most 60 bytes, each framed as a bucketed data report, the START
/// condition only on the first report and the STOP condition only on the
/// last.
pub fn i2c_write_reports(addr: u8, flag: Flag, data: &Vec<u8>) -> (reps: Vec<Vec<u8>>)
    ensures
        reps@.len() == chunk_count(data@.len() as int),
        forall|i: int|
            0 <= i < reps@.len() ==> i2c_chunk_ok(#[trigger] reps@[i]@, addr, flag, data@, i),
{
    let n = data.len();
    proof {
        crate::report::lemma_chunk_cover(n as int);
    }
    let cnt: usize = if n == 0 {
        1
    } else {
        (n - 1) / 60 + 1
    };
    let mut reps: Vec<Vec<u8>> = Vec::new();
    let mut i: usize = 0;
    while i < cnt
        invariant
            n == data@.len(),
            cnt == chunk_count(n as int),
            i <= cnt,
            reps@.len() == i,
            forall|k: int| 0 <= k < i ==> i2c_chunk_ok(#[trigger] reps@[k]@, addr, flag, data@, k),
        decreases cnt - i,
    {
        proof {
            crate::report::lemma_chunk_cover(n as int);
        }
        let off = i * 60;
        let len = if n - off > 60 {
            60
        } else {
            n - off
        };
        assert(len == chunk_len(n as int, i as int));
        let id = decide_i2c_report_id(len);
        let cond = chunk_condition_byte(flag, i == 0, i == cnt - 1);
        let mut rep = feat_rep_buf();
        rep[0] = id;
        rep[1] = addr;
        rep[2] = cond;
        rep[3] = len as u8;
        let mut j: usize = 0;
        while j < len
            invariant
                n == data@.len(),
                j <= len,
                off == i * 60,
                off + len <= n,
                len <= 60,
                rep@.len() == REPORT_BUFFER_LEN,
                rep@[0] == id,
                rep@[1] == addr,
                rep@[2] == cond,
                rep@[3] == len as u8,
                forall|k: int| 0 <= k < j ==> #[trigger] rep@[4 + k] == data@[off + k],
                forall|k: int| j <= k < 60 ==> #[trigger] rep@[4 + k] == 0u8,
            decreases len - j,
        {
            rep[4 + j] = data[off + j];
            j = j + 1;
        }
        reps.push(rep);
        i = i + 1;
    }
    reps
}

proof fn lemma_i2c_declared_prefix(
    reps: Seq<Seq<u8>>,
    addr: u8,
    flag: Flag,
    data: Seq<u8>,
    k: int,
)
    requires
        data.len() <= usize::MAX,
        reps.len() == chunk_count(data.len() as int),
        forall|i: int| 0 <= i < reps.len() ==> i2c_chunk_ok(#[trigger] reps[i], addr, flag, data, i),
        0 <= k <= reps.len(),
    ensures
        crate::report::declared_total(reps.take(k), 3) == crate::report::chunk_total(
            data.len() as int,
            k,
        ),
    decreases k,
{
    crate::report::lemma_chunk_cover(data.len() as int);
    if k > 0 {
        lemma_i2c_declared_prefix(reps, addr, flag, data, k - 1);
        assert(reps.take(k).drop_last() =~= reps.take(k - 1));
        assert(reps.take(k).last() == reps[k - 1]);
    }
}

/// Law: the chunk reports of an I2C write carry the written bytes
/// exactly: their declared lengths sum to the length of the data.
pub proof fn lemma_i2c_write_total(reps: Seq<Seq<u8>>, addr: u8, flag: Flag, data: Seq<u8>)
    requires
        data.len() <= usize::MAX,
        reps.len() == chunk_count(data.len() as int),
        forall|i: int| 0 <= i < reps.len() ==> i2c_chunk_ok(#[trigger] reps[i], addr, flag, data, i),
    ensures
        crate::report::declared_total(reps, 3) == data.len(),
{
    lemma_i2c_declared_prefix(reps, addr, flag, data, reps.len() as int);
    assert(reps.take(reps.len() as int) =~= reps);
    crate::report::lemma_chunk_cover(data.len() as int);
}

/// The 64-byte I2C read-request output report: fixed identifier, slave
/// address, the full condition byte of the flag, and the requested length
/// as a 16-bit little-endian value, zero-padded.
pub fn encode_i2c_read_request(addr: u8, flag: Flag, length: u16) -> (buf: Vec<u8>)
    ensures
        buf@.len() == REPORT_BUFFER_LEN,
        buf@[0] == REPORT_ID_I2C_READ_REQUEST,
        buf@[1] == addr,
        buf@[2] == spec_cond_bits(flag),
        buf@[3] == le16_lo(length),
        buf@[4] == le16_hi(length),
        forall|i: int| 5 <= i < buf@.len() ==> buf@[i] == 0u8,
{
    let mut buf = feat_rep_buf();
    buf[0] = REPORT_ID_I2C_READ_REQUEST;
    buf[1] = addr;
    buf[2] = flag_to_cond(flag);
    buf[3] = (length & 0xFF) as u8;
    buf[4] = ((length >> 8) & 0xFF) as u8;
    buf
}

/// What became of one report popped from the I2C data queue during a read.
#[derive(Debug, Clone, Copy, PartialEq, Eq, Structural)]
pub enum ReadStep {
    /// Malformed or mis-bucketed report, dropped as noise.
    Skipped,
    /// `count` payload bytes were copied into the destination buffer.
    Copied { count: usize },
    /// Byte 0 maps to no known report identifier; carries that byte.
    Unknown { value: u8 },
}

/// Assembly step of a chunked I2C read.  A popped report contributes the
/// payload its length byte declares (clipped to the room left in `buf`
/// after `idx`), is skipped as noise when its declared length exceeds its
/// bucket capacity or its buffer is too short, and fails the read when its
/// identifier is unknown.
pub fn i2c_read_accept(data: &Vec<u8>, buf: &mut Vec<u8>, idx: usize) -> (step: ReadStep)
    requires
        idx <= old(buf)@.len(),
    ensures
        final(buf)@.len() == old(buf)@.len(),
        match step {
            ReadStep::Skipped => {
                &&& final(buf)@ == old(buf)@
                &&& (data@.len() < 2 || (known_report_id(data@[0]) && (spec_i2c_payload_size(
                    data@[0],
                ) == 0 || spec_i2c_payload_size(data@[0]) > data@.len() - 2 || data@[1]
                    > spec_i2c_payload_size(data@[0]))))
            },
            ReadStep::Unknown { value } => {
                &&& final(buf)@ == old(buf)@
                &&& data@.len() >= 2
                &&& !known_report_id(data@[0])
                &&& value == data@[0]
            },
            ReadStep::Copied { count } => {
                &&& data@.len() >= 2
                &&& known_report_id(data@[0])
                &&& 0 < spec_i2c_payload_size(data@[0]) <= data@.len() - 2
                &&& data@[1] <= spec_i2c_payload_size(data@[0])
                &&& count as int == (if data@[1] as int <= old(buf)@.len() - idx {
                    data@[1] as int
                } else {
                    old(buf)@.len() - idx
                })
                &&& forall|j: int| 0 <= j < count ==> #[trigger] final(buf)@[idx + j] == data@[2 + j]
                &&& forall|j: int|
                    0 <= j < old(buf)@.len() && !(idx <= j < idx + count) ==> final(buf)@[j]
                        == old(buf)@[j]
            },
        },
{
    if data.len() < 2 {
        return ReadStep::Skipped;
    }
    let id = data[0];
    if !is_known_report_id(id) {
        return ReadStep::Unknown { value: id };
    }
    let size = decide_i2c_payload_size(id);
    if size == 0 || size > data.len() - 2 {
        return ReadStep::Skipped;
    }
    let declared = data[1] as usize;
    if declared > size {
        return ReadStep::Skipped;
    }
    let avail = buf.len() - idx;
    let count = if declared <= avail {
        declared
    } else {
        avail
    };
    let mut j: usize = 0;
    while j < count
        invariant
            j <= count,
            idx + count <= buf@.len() <= usize::MAX,
            count + 2 <= data@.len() <= usize::MAX,
            buf@.len() == old(buf)@.len(),
            forall|k: int| 0 <= k < j ==> #[trigger] buf@[idx + k] == data@[2 + k],
            forall|k: int|
                0 <= k < buf@.len() && !(idx <= k < idx + j) ==> buf@[k] == old(buf)@[k],
        decreases count - j,
    {
        buf[idx + j] = data[2 + j];
        j = j + 1;
    }
    ReadStep::Copied { count }
}

/// Status byte of an I2C status feature report.  `size` is the byte count
/// the transport reported.  A short or mis-identified report is a
/// transport-class error; a status byte with an undefined bit set is a
/// byte-decoding error carrying that byte.
pub fn decode_i2c_status(buf: &Vec<u8>, size: usize) -> (r: Ft260Result<u8>)
    requires
        buf@.len() >= 2,
    ensures
        match r {
            Ok(s) => {
                &&& size > 2
                &&& buf@[0] == REPORT_ID_I2C_STATUS
                &&& buf@[1] < 0x80
                &&& s == buf@[1]
            },
            Err(e) => {
                if size > 2 && buf@[0] == REPORT_ID_I2C_STATUS {
                    &&& buf@[1] >= 0x80
                    &&& e.is_byte()
                    &&& e.byte_value() == buf@[1]
                } else {
                    e.is_hid()
                }
            },
        },
{
    if size > 2 && buf[0] == REPORT_ID_I2C_STATUS {
        let s = buf[1];
        if s < 0x80 {
            Ok(s)
        } else {
            Err(Ft260Error::ByteError {
                value: s,
                message: "Invalid I2C bus status byte".to_owned(),
            })
        }
    } else {
        Err(Ft260Error::HidError {
            message: "HID Feature I2C Status was not returned".to_owned(),
        })
    }
}

/// Whether a status byte shows the controller idle and nothing else.
pub fn status_is_idle(status: u8) -> (r: bool)
    ensures
        r == (status == I2C_STATUS_CONTROLLER_IDLE),
{
    status == I2C_STATUS_CONTROLLER_IDLE
}

/// First gate of the composite write-then-read: any status but a plainly
/// idle controller fails the transaction with an I2C-class error.
pub fn check_bus_idle(status: u8) -> (r: Ft260Result<()>)
    ensures
        r is Ok <==> status == I2C_STATUS_CONTROLLER_IDLE,
        r is Err ==> r->Err_0.is_i2c(),
{
    if status == I2C_STATUS_CONTROLLER_IDLE {
        Ok(())
    } else {
        Err(Ft260Error::I2cError { message: "Bus was not in idle".to_owned() })
    }
}

/// Second gate: a write that accepted fewer bytes than requested fails
/// the transaction with an I2C-class error.
pub fn check_write_complete(written: usize, requested: usize) -> (r: Ft260Result<()>)
    ensures
        r is Ok <==> written == requested,
        r is Err ==> r->Err_0.is_i2c(),
{
    if written == requested {
        Ok(())
    } else {
        Err(Ft260Error::I2cError { message: "Failed to write all data".to_owned() })
    }
}

/// Third gate: an address or data NACK in the status byte fails the
/// transaction with an I2C-class error.
pub fn check_nack(status: u8) -> (r: Ft260Result<()>)
    ensures
        r is Ok <==> (status & I2C_STATUS_ADDRESS_NACK == 0 && status & I2C_STATUS_DATA_NACK
            == 0),
        r is Err ==> r->Err_0.is_i2c(),
{
    if (status & I2C_STATUS_ADDRESS_NACK) != 0 || (status & I2C_STATUS_DATA_NACK) != 0 {
        Err(Ft260Error::I2cError { message: "Device returned NACK".to_owned() })
    } else {
        Ok(())
    }
}

/// Last gate: a read that assembled fewer bytes than requested fails the
/// transaction with an I2C-class error.
pub fn check_read_complete(read: usize, requested: usize) -> (r: Ft260Result<()>)
    ensures
        r is Ok <==> read == requested,
        r is Err ==> r->Err_0.is_i2c(),
{
    if read == requested {
        Ok(())
    } else {
        Err(Ft260Error::I2cError { message: "Failed to read all data".to_owned() })
    }
}

} // verus!
