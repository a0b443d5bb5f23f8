//! Decoding of the streaming scan format: one 5-byte quadruplet on the wire
//! per measurement. Decoding is total: every 5-byte input yields a sample,
//! whether or not its integrity bits check out.

use vstd::prelude::*;

verus! {

/// One decoded scan measurement. `start` marks the first sample of a new
/// angular revolution; `angle` is in raw units of degrees times 64 before the
/// division below, so the stored value is whole degrees; `distance` is in raw
/// units of millimeters times 4 before its division, so the stored value is
/// whole millimeters.
#[derive(Clone, Copy, Debug, PartialEq, Eq, Structural)]
pub struct Sample {
    pub start: bool,
    pub intensity: u8,
    pub angle: u16,
    pub distance: u16,
}

/// Bit 0 of the first byte: whether the sample begins a revolution.
pub open spec fn spec_start(b0: u8) -> bool {
    b0 & 0x01 != 0
}

/// The top six bits of the first byte: the reflected intensity.
pub open spec fn spec_intensity(b0: u8) -> u8 {
    b0 >> 2
}

/// The angle in degrees: byte 2 and the top seven bits of byte 1 form the
/// raw fixed-point angle, which is degrees times 64.
pub open spec fn spec_angle(b1: u8, b2: u8) -> u16 {
    ((((b2 as u16) << 8) | ((b1 as u16) >> 1)) / 64) as u16
}

/// The distance in millimeters: bytes 3 and 4 little-endian form the raw
/// fixed-point distance, which is millimeters times 4.
pub open spec fn spec_distance(b3: u8, b4: u8) -> u16 {
    ((((b4 as u16) << 8) | (b3 as u16)) / 4) as u16
}

/// The sample encoded by a 5-byte quadruplet.
pub open spec fn spec_sample_of(b: Seq<u8>) -> Sample {
    Sample {
        start: spec_start(b[0]),
        intensity: spec_intensity(b[0]),
        angle: spec_angle(b[1], b[2]),
        distance: spec_distance(b[3], b[4]),
    }
}

/// The quadruplet's lightweight integrity check: bit 0 of byte 0 must agree
/// with the complemented bit 1, and bit 0 of byte 1 is a fixed check bit.
pub open spec fn spec_parity_ok(b: Seq<u8>) -> bool {
    (b[0] & 0x01) == ((!b[0]) & 0x02) && b[1] & 0x01 == 1
}

/// Decodes one raw quadruplet. Total: no input is rejected, and the decoded
/// angle and distance always stay within the range the bit layout allows.
pub fn decode_sample(data: &[u8; 5]) -> (s: Sample)
    ensures
        s == spec_sample_of(data@),
        s.angle < 1024,
        s.distance < 16384,
{
    let s = Sample {
        start: (data[0] & 0x01) != 0,
        intensity: data[0] >> 2,
        angle: (((data[2] as u16) << 8) | ((data[1] as u16) >> 1)) / 64,
        distance: (((data[4] as u16) << 8) | (data[3] as u16)) / 4,
    };
    proof {
        let b1 = data@[1];
        let b2 = data@[2];
        let b3 = data@[3];
        let b4 = data@[4];
        assert((((b2 as u16) << 8) | ((b1 as u16) >> 1)) / 64 < 1024) by (bit_vector);
        assert((((b4 as u16) << 8) | (b3 as u16)) / 4 < 16384) by (bit_vector);
    }
    s
}

/// The integrity check of a raw quadruplet; a failure is advisory only and
/// never stops decoding.
pub fn parity_ok(data: &[u8; 5]) -> (r: bool)
    ensures
        r == spec_parity_ok(data@),
{
    (data[0] & 0x01) == ((!data[0]) & 0x02) && (data[1] & 0x01) == 1
}

/// Decoding is total and bounded: every quadruplet yields a distance below
/// 65536 / 4, and an angle below the full 16-bit layout's 65536 / 64; when
/// the high angle byte keeps the raw angle within 14 bits, the angle also
/// stays below 16384 / 64.
pub proof fn lemma_sample_bounds(b1: u8, b2: u8, b3: u8, b4: u8)
    ensures
        spec_angle(b1, b2) < 1024,
        spec_distance(b3, b4) < 16384,
        b2 < 0x40 ==> spec_angle(b1, b2) < 256,
{
    assert((((b2 as u16) << 8) | ((b1 as u16) >> 1)) / 64 < 1024) by (bit_vector);
    assert((((b4 as u16) << 8) | (b3 as u16)) / 4 < 16384) by (bit_vector);
    assert(b2 < 0x40 ==> (((b2 as u16) << 8) | ((b1 as u16) >> 1)) / 64 < 256) by (bit_vector);
}

} // verus!
