//! The protocol codec: XOR-fold checksums, outgoing request frames, and the
//! decoding of incoming response frames.
//!
//! Requests start with the sync byte `0xa5`; two-byte requests carry no
//! checksum, longer ones end in an XOR fold of every byte before it.
//! Responses start with the sync pair `[0xa5, 0x5a]`, followed by a 30-bit
//! little-endian payload length whose stolen top two bits carry the send
//! mode, and a one-byte data type.

use crate::cmd::ScanModeConfEntry;
use crate::cmd::SlLidarCmd;
use crate::cmd::SlLidarResponseDeviceHealthT;
use crate::cmd::SlLidarResponseDeviceInfoT;
use crate::cmd::SlLidarResponseGetLidarConf;
use crate::cmd::SlLidarResponseSampleRateT;
use vstd::prelude::*;

verus! {

/// Why a response could not be read: the frame's sync bytes were wrong
/// (carrying the raw header for diagnostics), or the transport failed.
#[derive(Clone, Copy, Debug)]
pub enum RxError {
    Corrupted([u8; 7]),
    PortError,
}

/// The fixed 7-byte response header: payload length, send mode and data type.
#[derive(Clone, Copy, Debug, PartialEq, Eq, Structural)]
pub struct ResponseDescriptor {
    pub len: u32,
    pub send_mode: u8,
    pub data_type: u8,
}

/// A full response: its descriptor and exactly `descriptor.len` payload bytes.
#[derive(Debug)]
pub struct Response {
    pub descriptor: ResponseDescriptor,
    pub data: Vec<u8>,
}

/// Left fold of a byte sequence under bitwise XOR, seeded at 0.
pub open spec fn xor_fold(s: Seq<u8>) -> u8
    decreases s.len(),
{
    if s.len() == 0 {
        0
    } else {
        xor_fold(s.drop_last()) ^ s.last()
    }
}

/// The value of four little-endian bytes.
pub open spec fn spec_le_u32(b0: u8, b1: u8, b2: u8, b3: u8) -> int {
    b0 + b1 * 0x100 + b2 * 0x10000 + b3 * 0x1000000
}

/// The payload length carried by a 7-byte response header: bytes 2..6
/// little-endian, with the two send-mode bits of byte 5 masked out.
pub open spec fn spec_descriptor_len(b: Seq<u8>) -> int {
    spec_le_u32(b[2], b[3], b[4], (b[5] & 0x3f) as u8)
}

/// The four little-endian bytes of a 32-bit value.
pub open spec fn spec_le_bytes_u32(v: u32) -> Seq<u8> {
    seq![
        (v & 0xff) as u8,
        ((v >> 8) & 0xff) as u8,
        ((v >> 16) & 0xff) as u8,
        ((v >> 24) & 0xff) as u8,
    ]
}

/// XOR fold of a byte slice, the protocol's checksum.
pub fn checksum(payload: &[u8]) -> (r: u8)
    ensures
        r == xor_fold(payload@),
{
    let mut acc: u8 = 0;
    let mut i: usize = 0;
    while i < payload.len()
        invariant
            i <= payload@.len(),
            acc == xor_fold(payload@.take(i as int)),
        decreases payload@.len() - i,
    {
        proof {
            assert(payload@.take(i as int + 1).drop_last() =~= payload@.take(i as int));
        }
        acc = acc ^ payload[i];
        i = i + 1;
    }
    proof {
        assert(payload@.take(payload@.len() as int) =~= payload@);
    }
    acc
}

/// A frame that ends in its own checksum XOR-folds to zero: appending
/// `xor_fold(s)` to `s` and folding again always yields 0.
pub proof fn lemma_checksum_self_inverse(s: Seq<u8>)
    ensures
        xor_fold(s.push(xor_fold(s))) == 0,
{
    let c = xor_fold(s);
    assert(s.push(c).drop_last() =~= s);
    assert(s.push(c).last() == c);
    assert(c ^ c == 0) by (bit_vector);
}

/// A two-byte request: the sync byte followed by the opcode. Short frames
/// carry no checksum.
pub fn build_short_request(cmd: SlLidarCmd) -> (r: Vec<u8>)
    ensures
        r@.len() == 2,
        r@[0] == 0xa5u8,
        r@[1] == cmd.spec_code(),
{
    let mut req: Vec<u8> = Vec::new();
    req.push(0xa5);
    req.push(cmd.code());
    req
}

/// The stop or reset request: a two-byte frame whose opcode is chosen by the
/// `reset` flag.
pub fn build_stop_request(reset: bool) -> (r: Vec<u8>)
    ensures
        r@.len() == 2,
        r@[0] == 0xa5u8,
        r@[1] == (if reset {
            SlLidarCmd::Reset.spec_code()
        } else {
            SlLidarCmd::Stop.spec_code()
        }),
{
    let cmd = if reset {
        SlLidarCmd::Reset
    } else {
        SlLidarCmd::Stop
    };
    build_short_request(cmd)
}

/// A long request: sync byte, opcode, one-byte payload length, the payload,
/// and the XOR checksum over all preceding bytes, so the whole frame folds
/// to zero.
pub fn build_long_request(cmd: SlLidarCmd, payload: &[u8]) -> (r: Vec<u8>)
    requires
        payload@.len() <= 255,
    ensures
        r@.len() == payload@.len() + 4,
        r@[0] == 0xa5u8,
        r@[1] == cmd.spec_code(),
        r@[2] == payload@.len(),
        r@.subrange(3, 3 + payload@.len() as int) == payload@,
        r@.last() == xor_fold(r@.drop_last()),
        xor_fold(r@) == 0,
{
    let mut req: Vec<u8> = Vec::new();
    req.push(0xa5);
    req.push(cmd.code());
    req.push(payload.len() as u8);
    let mut i: usize = 0;
    while i < payload.len()
        invariant
            i <= payload@.len(),
            req@.len() == 3 + i,
            req@.subrange(0, 3) =~= seq![0xa5u8, cmd.spec_code(), payload@.len() as u8],
            req@.subrange(3, 3 + i as int) =~= payload@.take(i as int),
        decreases payload@.len() - i,
    {
        proof {
            let pre = req@;
            assert(pre.push(payload@[i as int]).subrange(0, 3) =~= pre.subrange(0, 3));
            assert(pre.push(payload@[i as int]).subrange(3, 3 + i as int + 1) =~= pre.subrange(
                3,
                3 + i as int,
            ).push(payload@[i as int]));
            assert(payload@.take(i as int + 1) =~= payload@.take(i as int).push(
                payload@[i as int],
            ));
        }
        req.push(payload[i]);
        i = i + 1;
    }
    let ck = checksum(req.as_slice());
    let ghost before = req@;
    req.push(ck);
    proof {
        assert(payload@.take(payload@.len() as int) =~= payload@);
        assert(req@.drop_last() =~= before);
        assert(req@.subrange(3, 3 + payload@.len() as int) =~= before.subrange(
            3,
            3 + payload@.len() as int,
        ));
        lemma_checksum_self_inverse(before);
        assert(before.push(ck) =~= req@);
    }
    req
}

/// The six-byte motor speed request: sync, opcode, payload length 2, the
/// speed little-endian, and the checksum over the five bytes before it.
pub fn build_motor_speed_request(speed: u16) -> (r: Vec<u8>)
    ensures
        r@.len() == 6,
        r@[0] == 0xa5u8,
        r@[1] == SlLidarCmd::HQMotorSpeedCtrl.spec_code(),
        r@[2] == 0x02u8,
        r@[3] == (speed & 0xff) as u8,
        r@[4] == ((speed >> 8) & 0xff) as u8,
        r@[5] == xor_fold(r@.subrange(0, 5)),
        xor_fold(r@) == 0,
{
    let speed_bytes: [u8; 2] = [(speed & 0xff) as u8, ((speed >> 8) & 0xff) as u8];
    let req = build_long_request(SlLidarCmd::HQMotorSpeedCtrl, speed_bytes.as_slice());
    proof {
        assert(req@.subrange(3, 5)[0] == req@[3]);
        assert(req@.subrange(3, 5)[1] == req@[4]);
        assert(req@.drop_last() =~= req@.subrange(0, 5));
        assert(req@.last() == req@[5]);
    }
    req
}

/// The "get configuration" request. `Count` and `Typical` selectors use the
/// short 8-byte form (declared payload length 4: the selector alone); every
/// other selector uses the long 12-byte form (declared payload length 8: the
/// selector, the two-byte payload, and two zero bytes). Both forms end in a
/// checksum over every byte before it.
pub fn build_conf_request(entry: ScanModeConfEntry, payload: Option<u16>) -> (r: Vec<u8>)
    requires
        !entry.spec_short_form() ==> payload is Some,
    ensures
        r@.len() == (if entry.spec_short_form() {
            8int
        } else {
            12int
        }),
        r@[0] == 0xa5u8,
        r@[1] == SlLidarCmd::GetLidarConf.spec_code(),
        r@[2] == (if entry.spec_short_form() {
            4u8
        } else {
            8u8
        }),
        r@[3] == (entry.spec_value() & 0xff) as u8,
        r@[4] == ((entry.spec_value() >> 8) & 0xff) as u8,
        r@[5] == ((entry.spec_value() >> 16) & 0xff) as u8,
        r@[6] == ((entry.spec_value() >> 24) & 0xff) as u8,
        entry.spec_short_form() ==> r@[7] == xor_fold(r@.subrange(0, 7)),
        !entry.spec_short_form() ==> ({
            &&& r@[7] == (payload->Some_0 & 0xff) as u8
            &&& r@[8] == ((payload->Some_0 >> 8) & 0xff) as u8
            &&& r@[9] == 0u8
            &&& r@[10] == 0u8
            &&& r@[11] == xor_fold(r@.subrange(0, 11))
        }),
        xor_fold(r@) == 0,
{
    let v: u32 = entry.value();
    if entry.short_form() {
        let body: [u8; 4] = [
            (v & 0xff) as u8,
            ((v >> 8) & 0xff) as u8,
            ((v >> 16) & 0xff) as u8,
            ((v >> 24) & 0xff) as u8,
        ];
        let req = build_long_request(SlLidarCmd::GetLidarConf, body.as_slice());
        proof {
            assert(req@.subrange(3, 7)[0] == req@[3]);
            assert(req@.subrange(3, 7)[1] == req@[4]);
            assert(req@.subrange(3, 7)[2] == req@[5]);
            assert(req@.subrange(3, 7)[3] == req@[6]);
            assert(req@.drop_last() =~= req@.subrange(0, 7));
            assert(req@.last() == req@[7]);
        }
        req
    } else {
        let p: u16 = payload.unwrap();
        let body: [u8; 8] = [
            (v & 0xff) as u8,
            ((v >> 8) & 0xff) as u8,
            ((v >> 16) & 0xff) as u8,
            ((v >> 24) & 0xff) as u8,
            (p & 0xff) as u8,
            ((p >> 8) & 0xff) as u8,
            0,
            0,
        ];
        let req = build_long_request(SlLidarCmd::GetLidarConf, body.as_slice());
        proof {
            assert(req@.subrange(3, 11)[0] == req@[3]);
            assert(req@.subrange(3, 11)[1] == req@[4]);
            assert(req@.subrange(3, 11)[2] == req@[5]);
            assert(req@.subrange(3, 11)[3] == req@[6]);
            assert(req@.subrange(3, 11)[4] == req@[7]);
            assert(req@.subrange(3, 11)[5] == req@[8]);
            assert(req@.subrange(3, 11)[6] == req@[9]);
            assert(req@.subrange(3, 11)[7] == req@[10]);
            assert(req@.drop_last() =~= req@.subrange(0, 11));
            assert(req@.last() == req@[11]);
        }
        req
    }
}

/// Parses the 7-byte response header. Fails, carrying the raw bytes, exactly
/// when the first two bytes are not the sync pair `[0xa5, 0x5a]`; otherwise
/// the send mode is the top two bits of byte 5, the data type is byte 6, and
/// the length is bytes 2..6 little-endian with those two bits masked out.
pub fn decode_descriptor(bytes: &[u8; 7]) -> (r: Result<ResponseDescriptor, RxError>)
    ensures
        (r is Ok) <==> (bytes@[0] == 0xa5u8 && bytes@[1] == 0x5au8),
        (r is Err) ==> (r matches Err(RxError::Corrupted(raw)) && raw@ == bytes@),
        (r is Ok) ==> ({
            let d = r->Ok_0;
            &&& d.send_mode == bytes@[5] >> 6
            &&& d.data_type == bytes@[6]
            &&& d.len == spec_descriptor_len(bytes@)
        }),
{
    if !(bytes[0] == 0xa5 && bytes[1] == 0x5a) {
        return Err(RxError::Corrupted(*bytes));
    }
    let send_mode: u8 = bytes[5] >> 6;
    let data_type: u8 = bytes[6];
    let masked: u8 = bytes[5] & 0x3f;
    proof {
        let b5 = bytes@[5];
        assert(b5 & 0x3f < 0x40) by (bit_vector);
    }
    let len: u32 = bytes[2] as u32 + (bytes[3] as u32) * 0x100 + (bytes[4] as u32) * 0x10000 + (
    masked as u32) * 0x1000000;
    Ok(ResponseDescriptor { len, send_mode, data_type })
}

/// Decodes the "get device info" payload: model byte, firmware version from
/// two bytes (high byte second), hardware version byte, 16-byte serial number.
pub fn decode_device_info(data: &[u8]) -> (r: SlLidarResponseDeviceInfoT)
    requires
        data@.len() >= 20,
    ensures
        r.model == data@[0],
        r.firmware_version == data@[2] * 0x100 + data@[1],
        r.hardware_version == data@[3],
        r.serial_number@ == data@.subrange(4, 20),
{
    let firmware_version: u16 = (data[2] as u16) * 0x100 + (data[1] as u16);
    let serial_number: [u8; 16] = [
        data[4],
        data[5],
        data[6],
        data[7],
        data[8],
        data[9],
        data[10],
        data[11],
        data[12],
        data[13],
        data[14],
        data[15],
        data[16],
        data[17],
        data[18],
        data[19],
    ];
    proof {
        assert(serial_number@ =~= data@.subrange(4, 20));
    }
    SlLidarResponseDeviceInfoT {
        model: data[0],
        firmware_version,
        hardware_version: data[3],
        serial_number,
    }
}

/// Decodes the "get device health" payload: status byte, then a 16-bit error
/// code (high byte second).
pub fn decode_device_health(data: &[u8]) -> (r: SlLidarResponseDeviceHealthT)
    requires
        data@.len() >= 3,
    ensures
        r.status == data@[0],
        r.error_code == data@[2] * 0x100 + data@[1],
{
    let error_code: u16 = (data[2] as u16) * 0x100 + (data[1] as u16);
    SlLidarResponseDeviceHealthT { status: data[0], error_code }
}

/// Decodes the "get sample rate" payload: two little-endian 16-bit sample
/// periods in microseconds, standard mode first.
pub fn decode_sample_rate(data: &[u8]) -> (r: SlLidarResponseSampleRateT)
    requires
        data@.len() >= 4,
    ensures
        r.std_sample_duration_us == data@[1] * 0x100 + data@[0],
        r.express_sample_duration_us == data@[3] * 0x100 + data@[2],
{
    let std_sample_duration_us: u16 = (data[1] as u16) * 0x100 + (data[0] as u16);
    let express_sample_duration_us: u16 = (data[3] as u16) * 0x100 + (data[2] as u16);
    SlLidarResponseSampleRateT { std_sample_duration_us, express_sample_duration_us }
}

/// Decodes the "get configuration" payload: a four-byte little-endian type
/// tag, then the rest of the bytes unchanged.
pub fn decode_conf_response(data: &[u8]) -> (r: SlLidarResponseGetLidarConf)
    requires
        data@.len() >= 4,
    ensures
        r.conf_type == spec_le_u32(data@[0], data@[1], data@[2], data@[3]),
        r.payload@ == data@.subrange(4, data@.len() as int),
{
    let conf_type: u32 = data[0] as u32 + (data[1] as u32) * 0x100 + (data[2] as u32) * 0x10000 + (
    data[3] as u32) * 0x1000000;
    let mut payload: Vec<u8> = Vec::new();
    let mut i: usize = 4;
    while i < data.len()
        invariant
            4 <= i <= data@.len(),
            payload@ == data@.subrange(4, i as int),
        decreases data@.len() - i,
    {
        proof {
            assert(data@.subrange(4, i as int + 1) =~= data@.subrange(4, i as int).push(
                data@[i as int],
            ));
        }
        payload.push(data[i]);
        i = i + 1;
    }
    SlLidarResponseGetLidarConf { conf_type, payload }
}

/// Round trip of a configuration response: a payload laid out as the four
/// little-endian bytes of its type tag followed by the payload bytes decodes
/// back to that same tag and those same bytes.
pub proof fn lemma_conf_response_round_trip(tag: u32, payload: Seq<u8>)
    ensures
        spec_le_u32(
            (spec_le_bytes_u32(tag) + payload)[0],
            (spec_le_bytes_u32(tag) + payload)[1],
            (spec_le_bytes_u32(tag) + payload)[2],
            (spec_le_bytes_u32(tag) + payload)[3],
        ) == tag,
        (spec_le_bytes_u32(tag) + payload).subrange(4, 4 + payload.len() as int) == payload,
{
    assert(((tag & 0xff) as u8) + (((tag >> 8) & 0xff) as u8) * 0x100 + (((tag >> 16)
        & 0xff) as u8) * 0x10000 + (((tag >> 24) & 0xff) as u8) * 0x1000000 == tag)
        by (bit_vector);
    assert((spec_le_bytes_u32(tag) + payload).subrange(4, 4 + payload.len() as int) =~= payload);
}

} // verus!
