//! Serial links: four sensor ports (receive only) and the host link (transmit
//! only), all at 9600 baud, 8 data bits, no parity, 1 stop bit.
use vstd::prelude::*;

pub mod sensor_ports;

verus! {

/// Number of data bits per character.
#[derive(Clone, Copy, Debug, PartialEq, Eq, Structural)]
pub enum DataBits {
    DataBits7,
    DataBits8,
    DataBits9,
}

/// Number of stop bits per character.
#[derive(Clone, Copy, Debug, PartialEq, Eq, Structural)]
pub enum StopBits {
    Stop0P5,
    Stop1,
    Stop1P5,
    Stop2,
}

/// Parity bit setting.
#[derive(Clone, Copy, Debug, PartialEq, Eq, Structural)]
pub enum Parity {
    ParityNone,
    ParityEven,
    ParityOdd,
}

/// Character framing and speed of a serial link.
#[derive(Clone, Copy, Debug, PartialEq, Eq, Structural)]
pub struct LinkConfig {
    pub baudrate: u32,
    pub data_bits: DataBits,
    pub stop_bits: StopBits,
    pub parity: Parity,
}

/// The framing shared by the sensor ports and the host link: 9600 8N1.
pub fn link_config() -> (cfg: LinkConfig)
    ensures
        cfg.baudrate == 9600,
        cfg.data_bits == DataBits::DataBits8,
        cfg.stop_bits == StopBits::Stop1,
        cfg.parity == Parity::ParityNone,
{
    LinkConfig {
        baudrate: 9_600,
        data_bits: DataBits::DataBits8,
        stop_bits: StopBits::Stop1,
        parity: Parity::ParityNone,
    }
}

} // verus!
