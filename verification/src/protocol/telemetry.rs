//! Fixed-length telemetry frame (little-endian):
//!
//! | byte | content                                   |
//! |------|-------------------------------------------|
//! | 0, 1 | magic `0xA5 0x5A`                         |
//! | 2    | version `0x01`                            |
//! | 3    | sequence number                           |
//! | 4, 5 | `axis_a`                                  |
//! | 6, 7 | `axis_b`                                  |
//! | 8, 9 | `axis_c`                                  |
//! | 10   | button bitmap (bit0..bit4, 1 = pressed)   |
//! | 11   | checksum: XOR of bytes 2..=10             |
use vstd::prelude::*;

verus! {

/// Length of every telemetry frame in bytes.
pub const FRAME_LEN: usize = 12;

/// First magic byte of a frame.
pub const MAGIC_0: u8 = 0xA5;

/// Second magic byte of a frame.
pub const MAGIC_1: u8 = 0x5A;

/// Protocol version carried in byte 2.
pub const VERSION: u8 = 0x01;

/// The fields reported to the host.
#[derive(Clone, Copy, Debug, PartialEq, Eq, Structural)]
pub struct TelemetryInputs {
    /// Raw ADC reading of joystick axis A.
    pub axis_a: u16,
    /// Raw ADC reading of joystick axis B.
    pub axis_b: u16,
    /// Raw ADC reading of joystick axis C.
    pub axis_c: u16,
    /// Bitmap of the five buttons (bit0..bit4), 1 = pressed.
    pub buttons_mask: u8,
}

impl Default for TelemetryInputs {
    fn default() -> (r: Self)
        ensures
            r == (TelemetryInputs { axis_a: 0, axis_b: 0, axis_c: 0, buttons_mask: 0 }),
    {
        TelemetryInputs { axis_a: 0, axis_b: 0, axis_c: 0, buttons_mask: 0 }
    }
}

/// Low byte of a 16-bit value.
pub open spec fn low_byte(v: u16) -> u8 {
    (v % 256) as u8
}

/// High byte of a 16-bit value.
pub open spec fn high_byte(v: u16) -> u8 {
    (v / 256) as u8
}

/// XOR of all bytes of `s` (0 for the empty sequence).
pub open spec fn xor_all(s: Seq<u8>) -> u8
    decreases s.len(),
{
    if s.len() == 0 {
        0
    } else {
        xor_all(s.drop_last()) ^ s.last()
    }
}

/// The checksummed part of a frame: version, sequence number, the three axes
/// (little-endian) and the button bitmap.
pub open spec fn frame_body(seq: u8, inputs: TelemetryInputs) -> Seq<u8> {
    seq![
        VERSION,
        seq,
        low_byte(inputs.axis_a),
        high_byte(inputs.axis_a),
        low_byte(inputs.axis_b),
        high_byte(inputs.axis_b),
        low_byte(inputs.axis_c),
        high_byte(inputs.axis_c),
        inputs.buttons_mask,
    ]
}

/// The whole frame: magic, body, and the XOR of the body.
pub open spec fn frame_bytes(seq: u8, inputs: TelemetryInputs) -> Seq<u8> {
    seq![MAGIC_0, MAGIC_1] + frame_body(seq, inputs) + seq![xor_all(frame_body(seq, inputs))]
}

/// Encodes `inputs` with sequence number `seq` into `out`; returns the number of
/// bytes written, which is always [`FRAME_LEN`].
pub fn encode_inputs(seq: u8, inputs: TelemetryInputs, out: &mut [u8; FRAME_LEN]) -> (n: usize)
    ensures
        n == FRAME_LEN,
        final(out)@ == frame_bytes(seq, inputs),
{
    out[0] = MAGIC_0;
    out[1] = MAGIC_1;
    out[2] = VERSION;
    out[3] = seq;

    out[4] = (inputs.axis_a % 256) as u8;
    out[5] = (inputs.axis_a / 256) as u8;
    out[6] = (inputs.axis_b % 256) as u8;
    out[7] = (inputs.axis_b / 256) as u8;
    out[8] = (inputs.axis_c % 256) as u8;
    out[9] = (inputs.axis_c / 256) as u8;
    out[10] = inputs.buttons_mask;

    let ghost body = frame_body(seq, inputs);
    assert(out@.subrange(2, 11) =~= body);

    let mut checksum: u8 = 0;
    let mut i: usize = 2;
    while i <= 10
        invariant
            2 <= i <= 11,
            out@.subrange(2, 11) == body,
            out@.len() == FRAME_LEN,
            checksum == xor_all(out@.subrange(2, i as int)),
        decreases 11 - i,
    {
        assert(out@.subrange(2, i + 1).drop_last() =~= out@.subrange(2, i as int));
        checksum = checksum ^ out[i];
        i = i + 1;
    }
    out[11] = checksum;

    assert(out@ =~= frame_bytes(seq, inputs));
    FRAME_LEN
}

/// A frame always has [`FRAME_LEN`] bytes, starts with the magic bytes and the
/// version, and carries the sequence number in byte 3.
pub proof fn lemma_frame_layout(seq: u8, inputs: TelemetryInputs)
    ensures
        frame_bytes(seq, inputs).len() == FRAME_LEN,
        frame_bytes(seq, inputs)[0] == MAGIC_0,
        frame_bytes(seq, inputs)[1] == MAGIC_1,
        frame_bytes(seq, inputs)[2] == VERSION,
        frame_bytes(seq, inputs)[3] == seq,
        frame_bytes(seq, inputs)[10] == inputs.buttons_mask,
{
}

/// The checksum byte makes the XOR over bytes 2..=11 of every frame zero, so a
/// receiver can validate a frame by XOR-ing everything after the magic.
pub proof fn lemma_checksum_closes(seq: u8, inputs: TelemetryInputs)
    ensures
        xor_all(frame_bytes(seq, inputs).subrange(2, FRAME_LEN as int)) == 0,
{
    let f = frame_bytes(seq, inputs);
    let body = frame_body(seq, inputs);
    let tail = f.subrange(2, FRAME_LEN as int);
    assert(tail.drop_last() =~= body);
    let x = xor_all(body);
    assert(x ^ x == 0) by (bit_vector);
}

/// Each axis is carried little-endian: low byte first, then high byte, and the
/// two bytes give the value back.
pub proof fn lemma_axis_bytes(v: u16)
    ensures
        low_byte(v) + 256 * high_byte(v) == v,
{
}

/// Distinct (sequence number, inputs) pairs give distinct frames: everything
/// that is encoded can be read back from the frame.
pub proof fn lemma_frame_injective(s1: u8, i1: TelemetryInputs, s2: u8, i2: TelemetryInputs)
    requires
        frame_bytes(s1, i1) == frame_bytes(s2, i2),
    ensures
        s1 == s2,
        i1 == i2,
{
    let f1 = frame_bytes(s1, i1);
    let f2 = frame_bytes(s2, i2);
    assert(f1[3] == f2[3]);
    assert(f1[4] == f2[4] && f1[5] == f2[5]);
    assert(f1[6] == f2[6] && f1[7] == f2[7]);
    assert(f1[8] == f2[8] && f1[9] == f2[9]);
    assert(f1[10] == f2[10]);
    lemma_axis_bytes(i1.axis_a);
    lemma_axis_bytes(i2.axis_a);
    lemma_axis_bytes(i1.axis_b);
    lemma_axis_bytes(i2.axis_b);
    lemma_axis_bytes(i1.axis_c);
    lemma_axis_bytes(i2.axis_c);
}

} // verus!
