use vstd::prelude::*;

use crate::led_handler::LedHandler;
use crate::orchestrator::Orchestrator;
use crate::reports::Report;
use crate::sensor_handler::SensorHandler;

verus! {

/// The four components of the control logic, in their initial states:
/// the orchestrator, the temperature handler, the humidity handler and the LED handler.
///
/// The couplings between them (commands to the orchestrator, its enable signals to the
/// handlers, the handlers' requests and reports to the outside) are made by the DEVS
/// simulator that runs them.
pub struct CommonLogic<R> {
    pub orchestrator: Orchestrator,
    pub temp_handler: SensorHandler<R>,
    pub hum_handler: SensorHandler<R>,
    pub led_handler: LedHandler,
}

impl<R: Copy> CommonLogic<R> {
    /// Builds the control logic: both sensors are polled every `period` ns with a
    /// `deadline` ns to answer, and the LED handler starts with `initial_led_state` as
    /// its target and `deadline` ns for the LED to confirm.
    pub fn new(period: u64, deadline: u64, initial_led_state: bool) -> (c: CommonLogic<R>)
        requires
            deadline <= period,
        ensures
            c.orchestrator == Orchestrator::initial(),
            c.temp_handler == SensorHandler::<R>::initial(period, deadline),
            c.hum_handler == SensorHandler::<R>::initial(period, deadline),
            c.led_handler == LedHandler::initial(initial_led_state, deadline),
            c.temp_handler.wf(),
            c.hum_handler.wf(),
            c.led_handler.wf(),
    {
        CommonLogic {
            orchestrator: Orchestrator::new(),
            temp_handler: SensorHandler::new(period, deadline),
            hum_handler: SensorHandler::new(period, deadline),
            led_handler: LedHandler::new(initial_led_state, deadline),
        }
    }
}

/// A message that the control logic sends to the devices and to the report sink.
/// Report times are nanoseconds.
#[derive(Clone, Copy, Debug, PartialEq)]
pub enum ModelOutput<R> {
    TempRequest(bool),
    HumRequest(bool),
    LedCommand(bool),
    TempReport(R, u64),
    HumReport(R, u64),
    LedReport(bool, u64),
}

/// The contents of the control logic's six output ports after an output event.
pub struct LogicOutput<R> {
    pub out_temp_req: Vec<bool>,
    pub out_hum_req: Vec<bool>,
    pub out_led_cmd: Vec<bool>,
    pub out_temp_rep: Vec<(R, u64)>,
    pub out_hum_rep: Vec<(R, u64)>,
    pub out_led_rep: Vec<(bool, u64)>,
}

/// `seq![message]` when `present`, the empty sequence otherwise.
pub open spec fn message_if<T>(present: bool, message: T) -> Seq<T> {
    if present {
        seq![message]
    } else {
        Seq::empty()
    }
}

/// The messages published for an output event: for each port that holds a value, in the
/// order temperature request, humidity request, LED command, temperature report,
/// humidity report, LED report, one message with the port's last value.
pub open spec fn published<R>(output: LogicOutput<R>) -> Seq<ModelOutput<R>> {
    let temp_req = output.out_temp_req@;
    let hum_req = output.out_hum_req@;
    let led_cmd = output.out_led_cmd@;
    let temp_rep = output.out_temp_rep@;
    let hum_rep = output.out_hum_rep@;
    let led_rep = output.out_led_rep@;
    message_if(temp_req.len() > 0, ModelOutput::<R>::TempRequest(temp_req.last()))
        + message_if(hum_req.len() > 0, ModelOutput::<R>::HumRequest(hum_req.last()))
        + message_if(led_cmd.len() > 0, ModelOutput::<R>::LedCommand(led_cmd.last()))
        + message_if(temp_rep.len() > 0, ModelOutput::<R>::TempReport(temp_rep.last().0, temp_rep.last().1))
        + message_if(hum_rep.len() > 0, ModelOutput::<R>::HumReport(hum_rep.last().0, hum_rep.last().1))
        + message_if(led_rep.len() > 0, ModelOutput::<R>::LedReport(led_rep.last().0, led_rep.last().1))
}

/// The messages to publish for the control logic's output ports, in publishing order.
#[verifier::rlimit(40)]
pub fn propagate_output<R: Copy>(output: &LogicOutput<R>) -> (messages: Vec<ModelOutput<R>>)
    ensures
        messages@ == published(*output),
{
    let ghost temp_req = output.out_temp_req@;
    let ghost hum_req = output.out_hum_req@;
    let ghost led_cmd = output.out_led_cmd@;
    let ghost temp_rep = output.out_temp_rep@;
    let ghost hum_rep = output.out_hum_rep@;
    let ghost p1 = message_if(temp_req.len() > 0, ModelOutput::<R>::TempRequest(temp_req.last()));
    let ghost p2 = p1 + message_if(hum_req.len() > 0, ModelOutput::<R>::HumRequest(hum_req.last()));
    let ghost p3 = p2 + message_if(led_cmd.len() > 0, ModelOutput::<R>::LedCommand(led_cmd.last()));
    let ghost p4 = p3 + message_if(
        temp_rep.len() > 0,
        ModelOutput::<R>::TempReport(temp_rep.last().0, temp_rep.last().1),
    );
    let ghost p5 = p4 + message_if(
        hum_rep.len() > 0,
        ModelOutput::<R>::HumReport(hum_rep.last().0, hum_rep.last().1),
    );
    let mut messages: Vec<ModelOutput<R>> = Vec::new();
    if output.out_temp_req.len() > 0 {
        messages.push(ModelOutput::TempRequest(output.out_temp_req[output.out_temp_req.len() - 1]));
    }
    assert(messages@ =~= p1);
    if output.out_hum_req.len() > 0 {
        messages.push(ModelOutput::HumRequest(output.out_hum_req[output.out_hum_req.len() - 1]));
    }
    assert(messages@ =~= p2);
    if output.out_led_cmd.len() > 0 {
        messages.push(ModelOutput::LedCommand(output.out_led_cmd[output.out_led_cmd.len() - 1]));
    }
    assert(messages@ =~= p3);
    if output.out_temp_rep.len() > 0 {
        let (value, time) = output.out_temp_rep[output.out_temp_rep.len() - 1];
        messages.push(ModelOutput::TempReport(value, time));
    }
    assert(messages@ =~= p4);
    if output.out_hum_rep.len() > 0 {
        let (value, time) = output.out_hum_rep[output.out_hum_rep.len() - 1];
        messages.push(ModelOutput::HumReport(value, time));
    }
    assert(messages@ =~= p5);
    if output.out_led_rep.len() > 0 {
        let (value, time) = output.out_led_rep[output.out_led_rep.len() - 1];
        messages.push(ModelOutput::LedReport(value, time));
    }
    assert(messages@ =~= published(*output));
    messages
}

/// The quantity a sensor is asked to measure.
#[derive(Clone, Copy, Debug, PartialEq, Eq, Structural)]
pub enum Quantity {
    Temperature,
    Humidity,
}

impl<R: Copy> ModelOutput<R> {
    /// What the sensor has to measure for this message: a temperature or humidity
    /// request with value `true` asks for a measurement; every other message asks for none.
    pub fn requested_quantity(&self) -> (q: Option<Quantity>)
        ensures
            q == match *self {
                ModelOutput::TempRequest(true) => Some(Quantity::Temperature),
                ModelOutput::HumRequest(true) => Some(Quantity::Humidity),
                _ => None,
            },
    {
        match self {
            ModelOutput::TempRequest(true) => Some(Quantity::Temperature),
            ModelOutput::HumRequest(true) => Some(Quantity::Humidity),
            _ => None,
        }
    }

    /// The state the LED has to take for this message, if it is an LED command.
    pub fn led_command(&self) -> (state: Option<bool>)
        ensures
            state == match *self {
                ModelOutput::LedCommand(s) => Some(s),
                _ => None,
            },
    {
        match self {
            ModelOutput::LedCommand(s) => Some(*s),
            _ => None,
        }
    }

    /// The report this message carries, if it is a report.
    pub fn report(&self) -> (r: Option<Report<R>>)
        ensures
            r == match *self {
                ModelOutput::TempReport(v, t) => Some(Report::Temperature(v, t)),
                ModelOutput::HumReport(v, t) => Some(Report::Humidity(v, t)),
                ModelOutput::LedReport(s, t) => Some(Report::Led(s, t)),
                _ => None,
            },
    {
        match self {
            ModelOutput::TempReport(v, t) => Some(Report::Temperature(*v, *t)),
            ModelOutput::HumReport(v, t) => Some(Report::Humidity(*v, *t)),
            ModelOutput::LedReport(s, t) => Some(Report::Led(*s, *t)),
            _ => None,
        }
    }
}

} // verus!
