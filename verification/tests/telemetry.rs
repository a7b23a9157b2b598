use custom_controller::protocol::telemetry::{encode_inputs, TelemetryInputs, FRAME_LEN};

fn xor_range(frame: &[u8]) -> u8 {
    let mut x = 0u8;
    for b in frame {
        x ^= *b;
    }
    x
}

#[test]
fn encode_inputs_writes_the_documented_layout() {
    let inputs = TelemetryInputs { axis_a: 0x1234, axis_b: 0x0FFF, axis_c: 0, buttons_mask: 0b1_0101 };
    let mut out = [0u8; FRAME_LEN];
    let n = encode_inputs(7, inputs, &mut out);
    assert_eq!(n, FRAME_LEN);
    assert_eq!(out, [0xA5, 0x5A, 0x01, 0x07, 0x34, 0x12, 0xFF, 0x0F, 0x00, 0x00, 0x15, 0xC5]);
}

#[test]
fn encode_inputs_all_ones() {
    let inputs = TelemetryInputs { axis_a: 0xFFFF, axis_b: 0xFFFF, axis_c: 0xFFFF, buttons_mask: 0x1F };
    let mut out = [0x55u8; FRAME_LEN];
    assert_eq!(encode_inputs(0xFF, inputs, &mut out), 12);
    assert_eq!(out, [0xA5, 0x5A, 0x01, 0xFF, 0xFF, 0xFF, 0xFF, 0xFF, 0xFF, 0xFF, 0x1F, 0xE1]);
}

#[test]
fn encode_inputs_default_inputs() {
    let mut out = [0xEEu8; FRAME_LEN];
    encode_inputs(0, TelemetryInputs::default(), &mut out);
    // Only the version byte is non-zero in the body, so the checksum equals it.
    assert_eq!(out, [0xA5, 0x5A, 0x01, 0, 0, 0, 0, 0, 0, 0, 0, 0x01]);
}

#[test]
fn checksum_closes_over_bytes_after_magic() {
    for seq in [0u8, 1, 100, 255] {
        let inputs = TelemetryInputs { axis_a: 4095, axis_b: 2048, axis_c: 17, buttons_mask: 0b0_0110 };
        let mut out = [0u8; FRAME_LEN];
        encode_inputs(seq, inputs, &mut out);
        assert_eq!(xor_range(&out[2..FRAME_LEN]), 0);
        assert_eq!(out[11], xor_range(&out[2..=10]));
    }
}

#[test]
fn axes_read_back_little_endian() {
    let inputs = TelemetryInputs { axis_a: 0xABCD, axis_b: 0x0102, axis_c: 0x8000, buttons_mask: 3 };
    let mut out = [0u8; FRAME_LEN];
    encode_inputs(9, inputs, &mut out);
    assert_eq!(u16::from_le_bytes([out[4], out[5]]), 0xABCD);
    assert_eq!(u16::from_le_bytes([out[6], out[7]]), 0x0102);
    assert_eq!(u16::from_le_bytes([out[8], out[9]]), 0x8000);
    assert_eq!(out[3], 9);
    assert_eq!(out[10], 3);
}

#[test]
fn different_inputs_give_different_frames() {
    let a = TelemetryInputs { axis_a: 1, axis_b: 2, axis_c: 3, buttons_mask: 4 };
    let b = TelemetryInputs { axis_a: 256, axis_b: 2, axis_c: 3, buttons_mask: 4 };
    let mut fa = [0u8; FRAME_LEN];
    let mut fb = [0u8; FRAME_LEN];
    encode_inputs(5, a, &mut fa);
    encode_inputs(5, b, &mut fb);
    assert_ne!(fa, fb);
    let mut fc = [0u8; FRAME_LEN];
    encode_inputs(6, a, &mut fc);
    assert_ne!(fa, fc);
}
