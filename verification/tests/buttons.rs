use custom_controller::adc::joystick::JoystickRaw;
use custom_controller::app::{buttons_mask, is_pressed, HostReporter, InputsSnapshot};
use custom_controller::input::buttons::{ButtonState, ButtonsSnapshot};
use custom_controller::protocol::telemetry::FRAME_LEN;

use ButtonState::{Pressed, Released};

fn snapshot(b1: ButtonState, b2: ButtonState, b3: ButtonState, b4: ButtonState, j: ButtonState) -> ButtonsSnapshot {
    ButtonsSnapshot { button1: b1, button2: b2, button3: b3, button4: b4, joystick: j }
}

#[test]
fn is_pressed_only_for_pressed() {
    assert!(is_pressed(Pressed));
    assert!(!is_pressed(Released));
}

#[test]
fn mask_none_pressed_is_zero() {
    assert_eq!(buttons_mask(ButtonsSnapshot::default()), 0);
}

#[test]
fn mask_all_pressed() {
    assert_eq!(buttons_mask(snapshot(Pressed, Pressed, Pressed, Pressed, Pressed)), 0b1_1111);
}

#[test]
fn mask_each_button_has_its_bit() {
    assert_eq!(buttons_mask(snapshot(Pressed, Released, Released, Released, Released)), 1);
    assert_eq!(buttons_mask(snapshot(Released, Pressed, Released, Released, Released)), 2);
    assert_eq!(buttons_mask(snapshot(Released, Released, Pressed, Released, Released)), 4);
    assert_eq!(buttons_mask(snapshot(Released, Released, Released, Pressed, Released)), 8);
    assert_eq!(buttons_mask(snapshot(Released, Released, Released, Released, Pressed)), 16);
    assert_eq!(buttons_mask(snapshot(Pressed, Released, Pressed, Released, Pressed)), 0b1_0101);
}

#[test]
fn default_snapshot_is_neutral() {
    let s = InputsSnapshot::default();
    assert_eq!(s.joystick, JoystickRaw { axis_a: 0, axis_b: 0, axis_c: 0 });
    assert_eq!(s.buttons, snapshot(Released, Released, Released, Released, Released));
}

#[test]
fn report_encodes_snapshot_and_advances_seq() {
    let mut reporter = HostReporter::new();
    assert_eq!(reporter.seq, 0);
    let inputs = InputsSnapshot {
        joystick: JoystickRaw { axis_a: 0x1234, axis_b: 0x0FFF, axis_c: 0 },
        buttons: snapshot(Pressed, Released, Pressed, Released, Pressed),
    };
    let mut frame = [0u8; FRAME_LEN];
    reporter.seq = 7;
    let n = reporter.report(inputs, &mut frame);
    assert_eq!(n, FRAME_LEN);
    assert_eq!(frame, [0xA5, 0x5A, 0x01, 0x07, 0x34, 0x12, 0xFF, 0x0F, 0x00, 0x00, 0x15, 0xC5]);
    assert_eq!(reporter.seq, 8);
}

#[test]
fn report_seq_wraps_after_255() {
    let mut reporter = HostReporter { seq: 255 };
    let mut frame = [0u8; FRAME_LEN];
    reporter.report(InputsSnapshot::default(), &mut frame);
    assert_eq!(frame[3], 255);
    assert_eq!(reporter.seq, 0);
    reporter.report(InputsSnapshot::default(), &mut frame);
    assert_eq!(frame[3], 0);
    assert_eq!(reporter.seq, 1);
}

#[test]
fn report_seq_has_period_256() {
    let mut reporter = HostReporter { seq: 42 };
    let mut frame = [0u8; FRAME_LEN];
    for k in 0..256u32 {
        reporter.report(InputsSnapshot::default(), &mut frame);
        assert_eq!(frame[3] as u32, (42 + k) % 256);
    }
    assert_eq!(reporter.seq, 42);
}
