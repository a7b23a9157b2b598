# custom_controller

Verified core of a joystick/button controller (STM32F446) that samples three
joystick axes and five buttons and reports them to a host over a serial link.

- `src/` — the library, verified with Verus:
  - `protocol::telemetry` — the 12-byte telemetry frame and its encoder;
  - `app` — the button bitmap and the per-period report step (frame plus
    wrapping sequence number);
  - `input::buttons` — button states, active-low level decoding, 20 ms debouncing;
  - `adc::joystick` — the joystick sample;
  - `uart` — link framing (9600 8N1), sensor ports and the receive decision;
  - `board` — the clock tree as plain numbers, with its derived frequencies
    checked against the chip's limits.
- `app/` — the firmware around it (embassy tasks, HAL conversions, I/O).
- `tests/` — tests of the library.
