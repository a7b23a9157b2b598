//! Application layer: gathers the input snapshot, turns the buttons into a
//! bitmap and produces the telemetry frame of each report period.
use vstd::prelude::*;

use crate::adc::joystick::JoystickRaw;
use crate::input::buttons::{ButtonId, ButtonState, ButtonsSnapshot};
use crate::protocol::telemetry::{encode_inputs, frame_bytes, TelemetryInputs, FRAME_LEN};

verus! {

/// Everything the application reads in one poll.
#[derive(Clone, Copy, Debug, PartialEq, Eq, Structural)]
pub struct InputsSnapshot {
    /// Latest joystick sample.
    pub joystick: JoystickRaw,
    /// Debounced button states.
    pub buttons: ButtonsSnapshot,
}

impl Default for InputsSnapshot {
    /// Joystick at zero, all buttons released.
    fn default() -> (r: Self)
        ensures
            r.joystick == (JoystickRaw { axis_a: 0, axis_b: 0, axis_c: 0 }),
            forall|id: ButtonId| r.buttons.state_of(id) == ButtonState::Released,
    {
        InputsSnapshot { joystick: JoystickRaw::default(), buttons: ButtonsSnapshot::default() }
    }
}

/// Bit position of each button in the bitmap.
pub open spec fn bit_index(id: ButtonId) -> u8 {
    match id {
        ButtonId::Button1 => 0,
        ButtonId::Button2 => 1,
        ButtonId::Button3 => 2,
        ButtonId::Button4 => 3,
        ButtonId::Joystick => 4,
    }
}

/// `bit` when the button is pressed, else 0.
pub open spec fn flag(state: ButtonState, bit: u8) -> u8 {
    if state == ButtonState::Pressed {
        bit
    } else {
        0
    }
}

/// The button bitmap: bit0..bit3 for BUTTON1..4, bit4 for the joystick button,
/// 1 = pressed.
pub open spec fn pressed_bits(b: ButtonsSnapshot) -> u8 {
    flag(b.button1, 1) | flag(b.button2, 2) | flag(b.button3, 4) | flag(b.button4, 8) | flag(
        b.joystick,
        16,
    )
}

/// Whether bit `i` of `m` is set.
pub open spec fn bit_set(m: u8, i: u8) -> bool {
    (m >> i) & 1 == 1
}

/// Whether a button state counts as pressed.
pub fn is_pressed(state: ButtonState) -> (r: bool)
    ensures
        r <==> state == ButtonState::Pressed,
{
    matches!(state, ButtonState::Pressed)
}

proof fn lemma_or_zero(m: u8)
    ensures
        m | 0 == m,
{
    assert(m | 0 == m) by (bit_vector);
}

/// Bitmap of the pressed buttons (1 = pressed).
pub fn buttons_mask(buttons: ButtonsSnapshot) -> (mask: u8)
    ensures
        mask == pressed_bits(buttons),
        mask < 32,
        forall|id: ButtonId|
            #[trigger] bit_set(mask, bit_index(id)) <==> buttons.state_of(id)
                == ButtonState::Pressed,
{
    let mut mask = 0u8;
    assert(0u8 | 1u8 == 1u8 && 1u8 << 0u8 == 1 && 1u8 << 1u8 == 2 && 1u8 << 2u8 == 4 && 1u8 << 3u8 == 8 && 1u8 << 4u8
        == 16) by (bit_vector);
    proof {
        lemma_or_zero(0);
    }
    if is_pressed(buttons.button1) {
        mask |= 1 << 0;
    }
    assert(mask == flag(buttons.button1, 1));
    let ghost m1 = mask;
    proof {
        lemma_or_zero(m1);
    }
    if is_pressed(buttons.button2) {
        mask |= 1 << 1;
    }
    assert(mask == m1 | flag(buttons.button2, 2));
    let ghost m2 = mask;
    proof {
        lemma_or_zero(m2);
    }
    if is_pressed(buttons.button3) {
        mask |= 1 << 2;
    }
    assert(mask == m2 | flag(buttons.button3, 4));
    let ghost m3 = mask;
    proof {
        lemma_or_zero(m3);
    }
    if is_pressed(buttons.button4) {
        mask |= 1 << 3;
    }
    assert(mask == m3 | flag(buttons.button4, 8));
    let ghost m4 = mask;
    proof {
        lemma_or_zero(m4);
    }
    if is_pressed(buttons.joystick) {
        mask |= 1 << 4;
    }
    assert(mask == m4 | flag(buttons.joystick, 16));
    proof {
        lemma_pressed_bits(buttons);
    }
    mask
}

/// Every button has its own bit of the bitmap, set exactly when the button is
/// pressed; bits 5..7 are always clear.
pub proof fn lemma_pressed_bits(b: ButtonsSnapshot)
    ensures
        pressed_bits(b) < 32,
        forall|id: ButtonId|
            #[trigger] bit_set(pressed_bits(b), bit_index(id)) <==> b.state_of(id)
                == ButtonState::Pressed,
{
    let p1 = b.button1 == ButtonState::Pressed;
    let p2 = b.button2 == ButtonState::Pressed;
    let p3 = b.button3 == ButtonState::Pressed;
    let p4 = b.button4 == ButtonState::Pressed;
    let p5 = b.joystick == ButtonState::Pressed;
    let f1 = flag(b.button1, 1);
    let f2 = flag(b.button2, 2);
    let f3 = flag(b.button3, 4);
    let f4 = flag(b.button4, 8);
    let f5 = flag(b.joystick, 16);
    let m = pressed_bits(b);
    assert(m == f1 | f2 | f3 | f4 | f5);
    assert(
        m < 32
        && (((m >> 0u8) & 1 == 1) <==> p1)
        && (((m >> 1u8) & 1 == 1) <==> p2)
        && (((m >> 2u8) & 1 == 1) <==> p3)
        && (((m >> 3u8) & 1 == 1) <==> p4)
        && (((m >> 4u8) & 1 == 1) <==> p5)
    ) by (bit_vector)
        requires
            m == f1 | f2 | f3 | f4 | f5,
            f1 == (if p1 { 1u8 } else { 0u8 }),
            f2 == (if p2 { 2u8 } else { 0u8 }),
            f3 == (if p3 { 4u8 } else { 0u8 }),
            f4 == (if p4 { 8u8 } else { 0u8 }),
            f5 == (if p5 { 16u8 } else { 0u8 }),
    ;
    assert forall|id: ButtonId|
        #[trigger] bit_set(m, bit_index(id)) <==> b.state_of(id) == ButtonState::Pressed by {
        match id {
            ButtonId::Button1 => {},
            ButtonId::Button2 => {},
            ButtonId::Button3 => {},
            ButtonId::Button4 => {},
            ButtonId::Joystick => {},
        }
    }
}

/// The telemetry fields of a snapshot: the raw axes and the button bitmap.
pub open spec fn telemetry_of(inputs: InputsSnapshot) -> TelemetryInputs {
    TelemetryInputs {
        axis_a: inputs.joystick.axis_a,
        axis_b: inputs.joystick.axis_b,
        axis_c: inputs.joystick.axis_c,
        buttons_mask: pressed_bits(inputs.buttons),
    }
}

/// The sequence number that follows `seq`: it counts 0..=255 and wraps.
pub open spec fn next_seq(seq: u8) -> u8 {
    ((seq + 1) % 256) as u8
}

/// The sequence number after `n` reports starting from `seq`.
pub open spec fn seq_after(seq: u8, n: nat) -> u8
    decreases n,
{
    if n == 0 {
        seq
    } else {
        next_seq(seq_after(seq, (n - 1) as nat))
    }
}

/// State of the periodic report to the host.
#[derive(Clone, Copy, Debug, PartialEq, Eq, Structural)]
pub struct HostReporter {
    /// Sequence number of the next frame.
    pub seq: u8,
}

impl HostReporter {
    /// A reporter whose first frame carries sequence number 0.
    pub fn new() -> (r: Self)
        ensures
            r.seq == 0,
    {
        HostReporter { seq: 0 }
    }

    /// One report period: encodes `inputs` into `frame` under the current
    /// sequence number, returns how many bytes of `frame` to send, and advances
    /// the sequence number with wrap-around.
    pub fn report(&mut self, inputs: InputsSnapshot, frame: &mut [u8; FRAME_LEN]) -> (n: usize)
        ensures
            n == FRAME_LEN,
            final(frame)@ == frame_bytes(old(self).seq, telemetry_of(inputs)),
            final(self).seq == next_seq(old(self).seq),
            final(frame)@[3] == old(self).seq,
            final(frame)@[4] == (inputs.joystick.axis_a % 256) as u8,
            final(frame)@[5] == (inputs.joystick.axis_a / 256) as u8,
            final(frame)@[6] == (inputs.joystick.axis_b % 256) as u8,
            final(frame)@[7] == (inputs.joystick.axis_b / 256) as u8,
            final(frame)@[8] == (inputs.joystick.axis_c % 256) as u8,
            final(frame)@[9] == (inputs.joystick.axis_c / 256) as u8,
            final(frame)@[10] < 32,
            forall|id: ButtonId|
                #[trigger] bit_set(final(frame)@[10], bit_index(id)) <==> inputs.buttons.state_of(
                    id,
                ) == ButtonState::Pressed,
    {
        let telemetry = TelemetryInputs {
            axis_a: inputs.joystick.axis_a,
            axis_b: inputs.joystick.axis_b,
            axis_c: inputs.joystick.axis_c,
            buttons_mask: buttons_mask(inputs.buttons),
        };
        let n = encode_inputs(self.seq, telemetry, frame);
        proof {
            lemma_report_carries_inputs(self.seq, inputs);
        }
        self.seq = self.seq.wrapping_add(1);
        n
    }
}

/// A report's frame carries the snapshot as given: the sequence number in
/// byte 3, each joystick axis little-endian in bytes 4..=9 (A, B, C in that
/// order), and in byte 10 the bit of each button set exactly when that button
/// is pressed.
pub proof fn lemma_report_carries_inputs(seq: u8, inputs: InputsSnapshot)
    ensures
        ({
            let f = frame_bytes(seq, telemetry_of(inputs));
            &&& f.len() == FRAME_LEN
            &&& f[3] == seq
            &&& f[4] as int + 256 * f[5] as int == inputs.joystick.axis_a as int
            &&& f[6] as int + 256 * f[7] as int == inputs.joystick.axis_b as int
            &&& f[8] as int + 256 * f[9] as int == inputs.joystick.axis_c as int
            &&& f[4] == (inputs.joystick.axis_a % 256) as u8
            &&& f[5] == (inputs.joystick.axis_a / 256) as u8
            &&& f[6] == (inputs.joystick.axis_b % 256) as u8
            &&& f[7] == (inputs.joystick.axis_b / 256) as u8
            &&& f[8] == (inputs.joystick.axis_c % 256) as u8
            &&& f[9] == (inputs.joystick.axis_c / 256) as u8
            &&& f[10] < 32
            &&& forall|id: ButtonId|
                #[trigger] bit_set(f[10], bit_index(id)) <==> inputs.buttons.state_of(id)
                    == ButtonState::Pressed
        }),
{
    lemma_pressed_bits(inputs.buttons);
}

/// Successive reports number their frames consecutively modulo 256: after `n`
/// reports from `seq` the counter reads `(seq + n) % 256`.
pub proof fn lemma_seq_after(seq: u8, n: nat)
    ensures
        seq_after(seq, n) == (seq + n) % 256,
    decreases n,
{
    if n > 0 {
        lemma_seq_after(seq, (n - 1) as nat);
        vstd::arithmetic::div_mod::lemma_add_mod_noop(seq + n - 1, 1, 256);
    }
}

/// The sequence number comes back to where it started after 256 reports.
pub proof fn lemma_seq_period(seq: u8)
    ensures
        seq_after(seq, 256) == seq,
{
    lemma_seq_after(seq, 256);
    vstd::arithmetic::div_mod::lemma_mod_add_multiples_vanish(seq as int, 256);
}

} // verus!
