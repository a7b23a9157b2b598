//! The four position-sensor ports: UART4, USART2, USART3, USART6, each
//! receiving with DMA and splitting frames at line idle.
use vstd::prelude::*;

verus! {

/// Capacity of the receive buffer of each sensor port, the longest frame.
pub const RX_BUFFER_LEN: usize = 128;

/// Which sensor port a frame came from.
#[derive(Clone, Copy, Debug, PartialEq, Eq, Structural)]
pub enum SensorPortId {
    Uart4,
    Usart2,
    Usart3,
    Usart6,
}

/// What the receive loop does with the outcome of one read-until-idle.
#[derive(Clone, Copy, Debug, PartialEq, Eq, Structural)]
pub enum RxAction {
    /// Nothing arrived: read again.
    Idle,
    /// The first `len` bytes of the buffer are a frame: hand them on.
    Deliver(usize),
    /// The read failed: report it and read again.
    Fault,
}

/// Hands one received frame on to the protocol layer. No sensor protocol is
/// defined yet, so a frame is accepted and nothing else happens.
pub fn on_sensor_frame(_port: SensorPortId, _frame: &[u8]) {
}

/// Decides what to do with the outcome of one read-until-idle: an empty read
/// is skipped, a non-empty one is delivered, an error is reported.
pub fn rx_action<E>(read: &Result<usize, E>) -> (action: RxAction)
    ensures
        action == (match read {
            Ok(0) => RxAction::Idle,
            Ok(n) => RxAction::Deliver(*n),
            Err(_) => RxAction::Fault,
        }),
{
    match read {
        Ok(0) => RxAction::Idle,
        Ok(n) => RxAction::Deliver(*n),
        Err(_) => RxAction::Fault,
    }
}

} // verus!
