use vstd::prelude::*;

use crate::common_logic::message_if;

verus! {

/// A report of the control logic: a temperature or humidity reading, or the state the
/// LED confirmed, each with the time (ns) the device took to answer.
#[derive(Clone, Copy, Debug, PartialEq)]
pub enum Report<R> {
    Temperature(R, u64),
    Humidity(R, u64),
    Led(bool, u64),
}

/// The label under which a report is recorded.
pub open spec fn report_label<R>(report: Report<R>) -> Seq<char> {
    match report {
        Report::Temperature(..) => "Temperature"@,
        Report::Humidity(..) => "Humidity"@,
        Report::Led(..) => "LED"@,
    }
}

/// The unit in which a report's value is recorded.
pub open spec fn report_unit<R>(report: Report<R>) -> Seq<char> {
    match report {
        Report::Temperature(..) => "°C"@,
        Report::Humidity(..) => "%"@,
        Report::Led(..) => "state"@,
    }
}

/// The text for an LED state.
pub open spec fn led_state_text(on: bool) -> Seq<char> {
    if on {
        "ON"@
    } else {
        "OFF"@
    }
}

impl<R: Copy> Report<R> {
    /// The label under which the report is recorded.
    pub fn label(&self) -> (s: &'static str)
        ensures
            s@ == report_label(*self),
    {
        match self {
            Report::Temperature(..) => "Temperature",
            Report::Humidity(..) => "Humidity",
            Report::Led(..) => "LED",
        }
    }

    /// The unit in which the report's value is recorded.
    pub fn unit(&self) -> (s: &'static str)
        ensures
            s@ == report_unit(*self),
    {
        match self {
            Report::Temperature(..) => "°C",
            Report::Humidity(..) => "%",
            Report::Led(..) => "state",
        }
    }

    /// The time (ns) the device took to answer.
    pub fn response_time(&self) -> (t: u64)
        ensures
            t == match *self {
                Report::Temperature(_, t) => t,
                Report::Humidity(_, t) => t,
                Report::Led(_, t) => t,
            },
    {
        match self {
            Report::Temperature(_, t) => *t,
            Report::Humidity(_, t) => *t,
            Report::Led(_, t) => *t,
        }
    }
}

/// The text for an LED state: `ON` or `OFF`.
pub fn led_state_str(on: bool) -> (s: &'static str)
    ensures
        s@ == led_state_text(on),
{
    if on {
        "ON"
    } else {
        "OFF"
    }
}

/// The reports in one input event of the report sink, in the order they are recorded:
/// temperature, humidity, LED, each with the last value of its port, if the port holds any.
pub fn received_reports<R: Copy>(temperature: &[(R, u64)], humidity: &[(R, u64)], led: &[(bool, u64)]) -> (reports: Vec<Report<R>>)
    ensures
        reports@ == message_if(
            temperature@.len() > 0,
            Report::<R>::Temperature(temperature@.last().0, temperature@.last().1),
        ) + message_if(
            humidity@.len() > 0,
            Report::<R>::Humidity(humidity@.last().0, humidity@.last().1),
        ) + message_if(led@.len() > 0, Report::<R>::Led(led@.last().0, led@.last().1)),
{
    let ghost first = message_if(
        temperature@.len() > 0,
        Report::<R>::Temperature(temperature@.last().0, temperature@.last().1),
    );
    let ghost second = first + message_if(
        humidity@.len() > 0,
        Report::<R>::Humidity(humidity@.last().0, humidity@.last().1),
    );
    let mut reports: Vec<Report<R>> = Vec::new();
    if temperature.len() > 0 {
        let (value, time) = temperature[temperature.len() - 1];
        reports.push(Report::Temperature(value, time));
    }
    assert(reports@ =~= first);
    if humidity.len() > 0 {
        let (value, time) = humidity[humidity.len() - 1];
        reports.push(Report::Humidity(value, time));
    }
    assert(reports@ =~= second);
    if led.len() > 0 {
        let (state, time) = led[led.len() - 1];
        reports.push(Report::Led(state, time));
    }
    assert(reports@ =~= second + message_if(led@.len() > 0, Report::<R>::Led(led@.last().0, led@.last().1)));
    reports
}

} // verus!
