use vstd::prelude::*;

use crate::mode::Mode;
use crate::time::TimeAdvance;

verus! {

/// The values that the LED handler places on its output ports in one output event.
#[derive(Clone, Copy, Debug, PartialEq, Eq)]
pub struct LedHandlerOutput {
    /// The state the LED is asked to take.
    pub set_state: Option<bool>,
    /// A report: the state the LED confirmed and the time (ns) it took to confirm.
    pub report: Option<(bool, u64)>,
}

/// Atomic DEVS model that drives the LED: on a request it sends the target state to
/// the LED, waits for the LED to confirm, reports the confirmed state with the time
/// the LED took, and switches off again. Times are nanoseconds of simulated time.
#[derive(Clone, Copy, Debug, PartialEq, Eq)]
pub struct LedHandler {
    pub phase: Mode,
    pub sigma: TimeAdvance,
    pub pending_report: (bool, u64),
    pub target_state: bool,
    pub deadline: u64,
}

impl LedHandler {
    /// The handler's invariant: the time advance agrees with the phase.
    pub open spec fn wf(self) -> bool {
        match self.phase {
            Mode::Off => self.sigma == TimeAdvance::Infinite,
            Mode::Idle => self.sigma == TimeAdvance::Finite(0),
            Mode::WaitingAck => self.sigma == TimeAdvance::Finite(self.deadline),
            Mode::AckReceived => self.sigma == TimeAdvance::Finite(0),
        }
    }

    /// A handler that starts switched off, with `initial_state` as its target.
    pub open spec fn initial(initial_state: bool, deadline: u64) -> LedHandler {
        LedHandler {
            phase: Mode::Off,
            sigma: TimeAdvance::Infinite,
            pending_report: (false, 0),
            target_state: initial_state,
            deadline,
        }
    }

    /// Internal transition.
    /// - `Idle`: the target state has gone out; wait up to `deadline` for the confirmation.
    /// - `AckReceived`: the report has gone out; switch off.
    /// - `WaitingAck`, `Off`: nothing changes.
    pub open spec fn after_internal(self) -> LedHandler {
        match self.phase {
            Mode::Idle => LedHandler {
                phase: Mode::WaitingAck,
                sigma: TimeAdvance::Finite(self.deadline),
                ..self
            },
            Mode::AckReceived => LedHandler { phase: Mode::Off, sigma: TimeAdvance::Infinite, ..self },
            _ => self,
        }
    }

    /// External transition after `e` ns, with the bags of requested states and of
    /// confirmations. Only the last value of each bag counts.
    /// - `Off`: a requested state becomes the target and is sent at once.
    /// - `WaitingAck`: a confirmation is kept as the report, with the time `e` it took,
    ///   and is reported at once.
    /// Every other input leaves the state as it is.
    pub open spec fn after_external(self, e: u64, requests: Seq<bool>, confirmations: Seq<bool>) -> LedHandler {
        match self.phase {
            Mode::Off => if requests.len() > 0 {
                LedHandler {
                    target_state: requests.last(),
                    phase: Mode::Idle,
                    sigma: TimeAdvance::Finite(0),
                    ..self
                }
            } else {
                self
            },
            Mode::WaitingAck => if confirmations.len() > 0 {
                LedHandler {
                    pending_report: (confirmations.last(), e),
                    phase: Mode::AckReceived,
                    sigma: TimeAdvance::Finite(0),
                    ..self
                }
            } else {
                self
            },
            _ => self,
        }
    }

    /// Output function: the target state in `Idle`, the report in `AckReceived`.
    pub open spec fn output(self) -> LedHandlerOutput {
        match self.phase {
            Mode::Idle => LedHandlerOutput { set_state: Some(self.target_state), report: None },
            Mode::AckReceived => LedHandlerOutput { set_state: None, report: Some(self.pending_report) },
            _ => LedHandlerOutput { set_state: None, report: None },
        }
    }

    pub fn new(initial_state: bool, deadline: u64) -> (h: LedHandler)
        ensures
            h == LedHandler::initial(initial_state, deadline),
            h.wf(),
    {
        LedHandler {
            phase: Mode::Off,
            sigma: TimeAdvance::Infinite,
            pending_report: (false, 0),
            target_state: initial_state,
            deadline,
        }
    }

    pub fn delta_int(&mut self)
        requires
            old(self).wf(),
        ensures
            *final(self) == old(self).after_internal(),
            final(self).wf(),
    {
        match self.phase {
            Mode::Idle => {
                self.phase = Mode::WaitingAck;
                self.sigma = TimeAdvance::Finite(self.deadline);
            },
            Mode::AckReceived => {
                self.phase = Mode::Off;
                self.sigma = TimeAdvance::Infinite;
            },
            _ => {},
        }
    }

    pub fn delta_ext(&mut self, elapsed: u64, requests: &[bool], confirmations: &[bool])
        requires
            old(self).wf(),
        ensures
            *final(self) == old(self).after_external(elapsed, requests@, confirmations@),
            final(self).wf(),
    {
        match self.phase {
            Mode::Off => {
                if requests.len() > 0 {
                    self.target_state = requests[requests.len() - 1];
                    self.phase = Mode::Idle;
                    self.sigma = TimeAdvance::Finite(0);
                }
            },
            Mode::WaitingAck => {
                if confirmations.len() > 0 {
                    let confirmed = confirmations[confirmations.len() - 1];
                    self.pending_report = (confirmed, elapsed);
                    self.phase = Mode::AckReceived;
                    self.sigma = TimeAdvance::Finite(0);
                }
            },
            _ => {},
        }
    }

    pub fn lambda(&self) -> (out: LedHandlerOutput)
        ensures
            out == self.output(),
    {
        match self.phase {
            Mode::Idle => LedHandlerOutput { set_state: Some(self.target_state), report: None },
            Mode::AckReceived => LedHandlerOutput { set_state: None, report: Some(self.pending_report) },
            _ => LedHandlerOutput { set_state: None, report: None },
        }
    }

    pub fn ta(&self) -> (t: TimeAdvance)
        ensures
            t == self.sigma,
    {
        self.sigma
    }
}

} // verus!
