use vstd::prelude::*;

use crate::mode::Mode;
use crate::time::TimeAdvance;

verus! {

/// The values that a sensor handler places on its output ports in one output event.
#[derive(Clone, Copy, Debug, PartialEq, Eq)]
pub struct SensorHandlerOutput<R> {
    /// A measurement request for the sensor.
    pub request: Option<bool>,
    /// A report: the measured value and the time (ns) the sensor took to answer.
    pub report: Option<(R, u64)>,
}

/// Atomic DEVS model that polls a sensor periodically while it is enabled.
///
/// Every `period` ns it sends a request; the sensor has `deadline` ns to answer.
/// An answer is reported together with the time the sensor took, at the end of the
/// period. All times are nanoseconds of simulated time. `R` is the type of a reading.
#[derive(Clone, Copy, Debug, PartialEq, Eq)]
pub struct SensorHandler<R> {
    pub phase: Mode,
    pub sigma: TimeAdvance,
    pub pending_report: Option<(R, u64)>,
    pub period: u64,
    pub deadline: u64,
}

impl<R: Copy> SensorHandler<R> {
    /// The handler's invariant: the deadline fits in the period, and the time advance
    /// and pending report agree with the phase.
    pub open spec fn wf(self) -> bool {
        &&& self.deadline <= self.period
        &&& match self.phase {
            Mode::Off => self.sigma == TimeAdvance::Infinite,
            Mode::Idle => self.sigma == TimeAdvance::Finite(0)
                || self.sigma == TimeAdvance::Finite((self.period - self.deadline) as u64),
            Mode::WaitingAck => self.sigma == TimeAdvance::Finite(self.deadline),
            Mode::AckReceived => match self.pending_report {
                Some((_, e)) => e <= self.deadline && self.sigma == TimeAdvance::Finite(
                    (self.period - e) as u64,
                ),
                None => false,
            },
        }
    }

    /// A handler that starts switched off.
    pub open spec fn initial(period: u64, deadline: u64) -> SensorHandler<R> {
        SensorHandler {
            phase: Mode::Off,
            sigma: TimeAdvance::Infinite,
            pending_report: None,
            period,
            deadline,
        }
    }

    /// Internal transition.
    /// - `Idle`: the request has gone out; wait up to `deadline` for the answer.
    /// - `WaitingAck`: no answer in time; wait for the rest of the period.
    /// - `AckReceived`: the report has gone out; send the next request at once.
    /// - `Off`: nothing happens.
    pub open spec fn after_internal(self) -> SensorHandler<R> {
        match self.phase {
            Mode::Idle => SensorHandler {
                phase: Mode::WaitingAck,
                sigma: TimeAdvance::Finite(self.deadline),
                ..self
            },
            Mode::WaitingAck => SensorHandler {
                phase: Mode::Idle,
                sigma: TimeAdvance::Finite((self.period - self.deadline) as u64),
                ..self
            },
            Mode::AckReceived => SensorHandler {
                phase: Mode::Idle,
                sigma: TimeAdvance::Finite(0),
                ..self
            },
            Mode::Off => self,
        }
    }

    /// The handler switched off.
    pub open spec fn switched_off(self) -> SensorHandler<R> {
        SensorHandler { phase: Mode::Off, sigma: TimeAdvance::Infinite, ..self }
    }

    /// External transition after `e` ns, with the bags of enable signals and readings.
    /// Only the last value of each bag counts.
    /// - `Off`: an enable `true` starts polling at once.
    /// - any other phase: an enable `false` switches the handler off.
    /// - `WaitingAck` with no enable signal: a reading is kept as the report, with the
    ///   time `e` it took, and the report is due at the end of the period.
    /// Every other input leaves the state as it is.
    pub open spec fn after_external(self, e: u64, enables: Seq<bool>, readings: Seq<R>) -> SensorHandler<R> {
        match self.phase {
            Mode::Off => if enables.len() > 0 && enables.last() {
                SensorHandler { phase: Mode::Idle, sigma: TimeAdvance::Finite(0), ..self }
            } else {
                self
            },
            Mode::WaitingAck => if enables.len() > 0 {
                if !enables.last() { self.switched_off() } else { self }
            } else if readings.len() > 0 {
                SensorHandler {
                    phase: Mode::AckReceived,
                    sigma: TimeAdvance::Finite((self.period - e) as u64),
                    pending_report: Some((readings.last(), e)),
                    ..self
                }
            } else {
                self
            },
            _ => if enables.len() > 0 && !enables.last() {
                self.switched_off()
            } else {
                self
            },
        }
    }

    /// Output function: a request in `Idle`, the pending report in `AckReceived`.
    pub open spec fn output(self) -> SensorHandlerOutput<R> {
        match self.phase {
            Mode::Idle => SensorHandlerOutput { request: Some(true), report: None },
            Mode::AckReceived => SensorHandlerOutput { request: None, report: self.pending_report },
            _ => SensorHandlerOutput { request: None, report: None },
        }
    }

    pub fn new(period: u64, deadline: u64) -> (h: SensorHandler<R>)
        requires
            deadline <= period,
        ensures
            h == SensorHandler::<R>::initial(period, deadline),
            h.wf(),
    {
        SensorHandler {
            phase: Mode::Off,
            sigma: TimeAdvance::Infinite,
            pending_report: None,
            period,
            deadline,
        }
    }

    pub fn delta_int(&mut self)
        requires
            old(self).wf(),
        ensures
            *final(self) == old(self).after_internal(),
            final(self).wf(),
    {
        match self.phase {
            Mode::Idle => {
                self.phase = Mode::WaitingAck;
                self.sigma = TimeAdvance::Finite(self.deadline);
            },
            Mode::WaitingAck => {
                self.phase = Mode::Idle;
                self.sigma = TimeAdvance::Finite(self.period - self.deadline);
            },
            Mode::AckReceived => {
                self.phase = Mode::Idle;
                self.sigma = TimeAdvance::Finite(0);
            },
            Mode::Off => {},
        }
    }

    pub fn delta_ext(&mut self, elapsed: u64, enables: &[bool], readings: &[R])
        requires
            old(self).wf(),
            old(self).sigma.admits(elapsed),
        ensures
            *final(self) == old(self).after_external(elapsed, enables@, readings@),
            final(self).wf(),
    {
        match self.phase {
            Mode::Off => {
                if enables.len() > 0 {
                    let enabled = enables[enables.len() - 1];
                    if enabled {
                        self.phase = Mode::Idle;
                        self.sigma = TimeAdvance::Finite(0);
                    }
                }
            },
            Mode::WaitingAck => {
                if enables.len() > 0 {
                    let enabled = enables[enables.len() - 1];
                    if !enabled {
                        self.phase = Mode::Off;
                        self.sigma = TimeAdvance::Infinite;
                    }
                } else if readings.len() > 0 {
                    let value = readings[readings.len() - 1];
                    self.pending_report = Some((value, elapsed));
                    self.phase = Mode::AckReceived;
                    self.sigma = TimeAdvance::Finite(self.period - elapsed);
                }
            },
            Mode::Idle | Mode::AckReceived => {
                if enables.len() > 0 {
                    let enabled = enables[enables.len() - 1];
                    if !enabled {
                        self.phase = Mode::Off;
                        self.sigma = TimeAdvance::Infinite;
                    }
                }
            },
        }
    }

    pub fn lambda(&self) -> (out: SensorHandlerOutput<R>)
        ensures
            out == self.output(),
    {
        match self.phase {
            Mode::Idle => SensorHandlerOutput { request: Some(true), report: None },
            Mode::AckReceived => SensorHandlerOutput { request: None, report: self.pending_report },
            _ => SensorHandlerOutput { request: None, report: None },
        }
    }

    pub fn ta(&self) -> (t: TimeAdvance)
        ensures
            t == self.sigma,
    {
        self.sigma
    }
}

} // verus!
