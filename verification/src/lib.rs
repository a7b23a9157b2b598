//! Input sampling, button bitmaps, telemetry framing and board settings of a
//! joystick/button controller that reports its state to a host over a serial link.
pub mod adc;
pub mod app;
pub mod input;
pub mod protocol;
pub mod uart;
pub mod board;
