use vstd::prelude::*;

verus! {

/// The phase of a device handler.
///
/// - `Off`: disabled, waiting to be switched on.
/// - `Idle`: about to send a request to the device.
/// - `WaitingAck`: a request is out; waiting for the device to answer.
/// - `AckReceived`: the device answered; a report is due.
#[derive(Clone, Copy, Debug, PartialEq, Eq, Structural)]
pub enum Mode {
    Off,
    Idle,
    WaitingAck,
    AckReceived,
}

} // verus!
