//! Analog inputs: the three joystick axes sampled by ADC1.
pub mod joystick;
