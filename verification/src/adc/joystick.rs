//! Joystick axes: ADC1 channels IN8 (PB0), IN4 (PA4), IN5 (PA5), 0..3.3 V.
use vstd::prelude::*;

verus! {

/// Raw ADC readings of the three joystick axes.
#[derive(Clone, Copy, Debug, PartialEq, Eq, Structural)]
pub struct JoystickRaw {
    pub axis_a: u16,
    pub axis_b: u16,
    pub axis_c: u16,
}

impl Default for JoystickRaw {
    /// All axes at zero.
    fn default() -> (r: Self)
        ensures
            r == (JoystickRaw { axis_a: 0, axis_b: 0, axis_c: 0 }),
    {
        JoystickRaw { axis_a: 0, axis_b: 0, axis_c: 0 }
    }
}

} // verus!
