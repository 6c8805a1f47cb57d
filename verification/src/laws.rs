use vstd::prelude::*;

use crate::common_logic::{message_if, published, LogicOutput, ModelOutput};
use crate::command::{
    command_named, command_text, is_white_space, lemma_trim_end_skips, lemma_trim_start_skips, trim, trim_end,
    trim_start, Command,
};
use crate::led_handler::{LedHandler, LedHandlerOutput};
use crate::mode::Mode;
use crate::orchestrator::{route_command, Orchestrator};
use crate::sensor_handler::{SensorHandler, SensorHandlerOutput};
use crate::time::TimeAdvance;

verus! {

/// Every command is routed to exactly one of the orchestrator's three output ports.
pub proof fn law_command_routed_to_one_port(command: Command)
    ensures
        ({
            let out = route_command(command);
            (out.temp_enable is Some) as int + (out.hum_enable is Some) as int + (out.led_set is Some) as int == 1
        }),
        (command == Command::TempOn || command == Command::TempOff) <==> route_command(command).temp_enable is Some,
        (command == Command::HumOn || command == Command::HumOff) <==> route_command(command).hum_enable is Some,
        (command == Command::LedOn || command == Command::LedOff) <==> route_command(command).led_set is Some,
        route_command(command).temp_enable == Some(true) <==> command == Command::TempOn,
        route_command(command).hum_enable == Some(true) <==> command == Command::HumOn,
        route_command(command).led_set == Some(true) <==> command == Command::LedOn,
{
}

/// A command reaching the orchestrator is forwarded at once (time advance zero): the
/// last command of the bag is the one routed; after sending it the orchestrator is
/// passive again.
pub proof fn law_orchestrator_forwards_last_command(o: Orchestrator, commands: Seq<Command>)
    requires
        commands.len() > 0,
    ensures
        o.after_external(commands).sigma == TimeAdvance::Finite(0),
        o.after_external(commands).output() == route_command(commands.last()),
        o.after_external(commands).after_internal().sigma == TimeAdvance::Infinite,
{
}

/// An orchestrator that has received no command sends nothing.
pub proof fn law_orchestrator_silent_until_command()
    ensures
        Orchestrator::initial().sigma == TimeAdvance::Infinite,
        Orchestrator::initial().output().temp_enable is None,
        Orchestrator::initial().output().hum_enable is None,
        Orchestrator::initial().output().led_set is None,
{
}

/// The sensor handler's invariant holds after every transition the simulator can make.
pub proof fn law_sensor_handler_invariant<R: Copy>(
    h: SensorHandler<R>,
    e: u64,
    enables: Seq<bool>,
    readings: Seq<R>,
)
    requires
        h.wf(),
    ensures
        h.after_internal().wf(),
        h.sigma.admits(e) ==> h.after_external(e, enables, readings).wf(),
{
}

/// A switched-off sensor handler is passive and silent; an enable `true` makes it send
/// its first request at once.
pub proof fn law_sensor_handler_enable<R: Copy>(
    h: SensorHandler<R>,
    e: u64,
    enables: Seq<bool>,
    readings: Seq<R>,
)
    requires
        h.wf(),
        h.phase == Mode::Off,
    ensures
        h.sigma == TimeAdvance::Infinite,
        h.output() == (SensorHandlerOutput::<R> { request: None, report: None }),
        enables.len() > 0 && enables.last() ==> {
            let s = h.after_external(e, enables, readings);
            &&& s.phase == Mode::Idle
            &&& s.sigma == TimeAdvance::Finite(0)
            &&& s.output().request == Some(true)
        },
        !(enables.len() > 0 && enables.last()) ==> h.after_external(e, enables, readings) == h,
{
}

/// An enable `false` switches the handler off from any phase, dropping any pending
/// request or report: it goes passive and sends nothing.
pub proof fn law_sensor_handler_disable<R: Copy>(
    h: SensorHandler<R>,
    e: u64,
    enables: Seq<bool>,
    readings: Seq<R>,
)
    requires
        h.wf(),
        enables.len() > 0,
        !enables.last(),
    ensures
        h.after_external(e, enables, readings).phase == Mode::Off,
        h.after_external(e, enables, readings).sigma == TimeAdvance::Infinite,
        h.after_external(e, enables, readings).output() == (SensorHandlerOutput::<R> {
            request: None,
            report: None,
        }),
{
}

/// While enabled, requests go out exactly one period apart when the sensor does not
/// answer: the request is sent, the handler waits out the deadline, then the rest of
/// the period, and sends the next request.
pub proof fn law_sensor_handler_period_without_answer<R: Copy>(h: SensorHandler<R>)
    requires
        h.wf(),
        h.phase == Mode::Idle,
    ensures
        ({
            let waiting = h.after_internal();
            let next = waiting.after_internal();
            &&& h.output().request == Some(true)
            &&& waiting.phase == Mode::WaitingAck
            &&& waiting.output() == (SensorHandlerOutput::<R> { request: None, report: None })
            &&& next.phase == Mode::Idle
            &&& next.output().request == Some(true)
            &&& waiting.sigma == TimeAdvance::Finite(h.deadline)
            &&& next.sigma == TimeAdvance::Finite((h.period - h.deadline) as u64)
            &&& waiting.sigma->0 + next.sigma->0 == h.period
        }),
{
}

/// While enabled, requests go out exactly one period apart when the sensor answers
/// `e` ns after the request, within the deadline: the answer is reported with `e` at
/// the end of the period, together with the next request.
pub proof fn law_sensor_handler_period_with_answer<R: Copy>(h: SensorHandler<R>, e: u64, readings: Seq<R>)
    requires
        h.wf(),
        h.phase == Mode::Idle,
        e <= h.deadline,
        readings.len() > 0,
    ensures
        ({
            let waiting = h.after_internal();
            let answered = waiting.after_external(e, Seq::empty(), readings);
            let next = answered.after_internal();
            &&& h.output().request == Some(true)
            &&& waiting.sigma.admits(e)
            &&& answered.phase == Mode::AckReceived
            &&& answered.output() == (SensorHandlerOutput { request: None, report: Some((readings.last(), e)) })
            &&& answered.sigma == TimeAdvance::Finite((h.period - e) as u64)
            &&& next.phase == Mode::Idle
            &&& next.sigma == TimeAdvance::Finite(0)
            &&& next.output().request == Some(true)
            &&& e + answered.sigma->0 + next.sigma->0 == h.period
        }),
{
}

/// The LED handler's invariant holds after every transition.
pub proof fn law_led_handler_invariant(h: LedHandler, e: u64, requests: Seq<bool>, confirmations: Seq<bool>)
    requires
        h.wf(),
    ensures
        h.after_internal().wf(),
        h.after_external(e, requests, confirmations).wf(),
{
}

/// An LED request runs one full cycle: the requested state is sent at once, the
/// confirmation that arrives `e` ns later is reported at once with `e`, and the handler
/// then switches off again, passive.
pub proof fn law_led_handler_cycle(h: LedHandler, e: u64, requests: Seq<bool>, confirmations: Seq<bool>)
    requires
        h.wf(),
        h.phase == Mode::Off,
        requests.len() > 0,
        confirmations.len() > 0,
    ensures
        ({
            let sending = h.after_external(0, requests, Seq::empty());
            let waiting = sending.after_internal();
            let confirmed = waiting.after_external(e, Seq::empty(), confirmations);
            let done = confirmed.after_internal();
            &&& sending.sigma == TimeAdvance::Finite(0)
            &&& sending.output() == (LedHandlerOutput { set_state: Some(requests.last()), report: None })
            &&& waiting.phase == Mode::WaitingAck
            &&& waiting.sigma == TimeAdvance::Finite(h.deadline)
            &&& waiting.output() == (LedHandlerOutput { set_state: None, report: None })
            &&& confirmed.sigma == TimeAdvance::Finite(0)
            &&& confirmed.output() == (LedHandlerOutput { set_state: None, report: Some((confirmations.last(), e)) })
            &&& done.phase == Mode::Off
            &&& done.sigma == TimeAdvance::Infinite
        }),
{
}

/// While an LED request is in progress, further requests are ignored.
pub proof fn law_led_handler_busy_ignores_requests(h: LedHandler, e: u64, requests: Seq<bool>)
    requires
        h.wf(),
        h.phase != Mode::Off,
    ensures
        h.after_external(e, requests, Seq::empty()) == h,
{
}

/// Every command is read back from its text, whatever white space surrounds it.
pub proof fn law_command_text_read_back(command: Command, before: Seq<char>, after: Seq<char>)
    requires
        forall|i: int| 0 <= i < before.len() ==> is_white_space(#[trigger] before[i]),
        forall|i: int| 0 <= i < after.len() ==> is_white_space(#[trigger] after[i]),
    ensures
        command_named(trim(before + command_text(command) + after)) == Some(command),
{
    reveal_strlit("TEMP ON");
    reveal_strlit("TEMP OFF");
    reveal_strlit("HUM ON");
    reveal_strlit("HUM OFF");
    reveal_strlit("LED ON");
    reveal_strlit("LED OFF");
    let text = command_text(command);
    let line = before + text + after;
    assert(text.len() > 0);
    assert(!is_white_space(text[0]));
    assert(!is_white_space(text[text.len() - 1]));
    let rest = text + after;
    assert forall|j: int| 0 <= j < before.len() implies is_white_space(#[trigger] line[j]) by {
        assert(line[j] == before[j]);
    }
    lemma_trim_start_skips(line, before.len() as int);
    assert(line.subrange(before.len() as int, line.len() as int) =~= rest);
    assert(rest[0] == text[0]);
    assert(trim_start(rest) == rest);
    assert forall|j: int| text.len() <= j < rest.len() implies is_white_space(#[trigger] rest[j]) by {
        assert(rest[j] == after[j - text.len()]);
    }
    lemma_trim_end_skips(rest, text.len() as int);
    assert(rest.subrange(0, text.len() as int) =~= text);
    assert(trim_end(text) == text);
}

/// The bag a port delivers when the sender placed `value` on it (or nothing).
pub open spec fn delivered(value: Option<bool>) -> Seq<bool> {
    match value {
        Some(v) => seq![v],
        None => Seq::empty(),
    }
}

/// A command forwarded by the orchestrator reaches its handler through the couplings
/// (orchestrator enable ports to the handlers' enable ports): `TEMP ON` / `HUM ON` make
/// a switched-off sensor handler request a measurement at once, `TEMP OFF` / `HUM OFF`
/// switch it off from any phase, `LED ON` / `LED OFF` make a switched-off LED handler
/// send that state at once; the handlers the command is not for receive nothing and
/// keep their state.
pub proof fn law_command_reaches_its_handler<R: Copy>(
    o: Orchestrator,
    command: Command,
    temp: SensorHandler<R>,
    hum: SensorHandler<R>,
    led: LedHandler,
    e: u64,
)
    requires
        temp.wf(),
        hum.wf(),
        led.wf(),
    ensures
        ({
            let out = o.after_external(seq![command]).output();
            let temp_next = temp.after_external(e, delivered(out.temp_enable), Seq::empty());
            let hum_next = hum.after_external(e, delivered(out.hum_enable), Seq::empty());
            let led_next = led.after_external(e, delivered(out.led_set), Seq::empty());
            &&& command == Command::TempOn && temp.phase == Mode::Off ==> temp_next.output().request == Some(true)
                && temp_next.sigma == TimeAdvance::Finite(0)
            &&& command == Command::TempOff ==> temp_next.phase == Mode::Off && temp_next.sigma == TimeAdvance::Infinite
            &&& command == Command::HumOn && hum.phase == Mode::Off ==> hum_next.output().request == Some(true)
                && hum_next.sigma == TimeAdvance::Finite(0)
            &&& command == Command::HumOff ==> hum_next.phase == Mode::Off && hum_next.sigma == TimeAdvance::Infinite
            &&& command == Command::LedOn && led.phase == Mode::Off ==> led_next.output().set_state == Some(true)
                && led_next.sigma == TimeAdvance::Finite(0)
            &&& command == Command::LedOff && led.phase == Mode::Off ==> led_next.output().set_state == Some(false)
                && led_next.sigma == TimeAdvance::Finite(0)
            &&& command != Command::TempOn && command != Command::TempOff ==> temp_next == temp
            &&& command != Command::HumOn && command != Command::HumOff ==> hum_next == hum
            &&& command != Command::LedOn && command != Command::LedOff ==> led_next == led
        }),
{
    assert(seq![command].last() == command);
}

/// An enable `true` while the sensor handler is already on changes nothing: a pending
/// request, wait or report goes on as scheduled (a report due in `AckReceived` is still
/// emitted, with its reading and response time).
pub proof fn law_sensor_handler_enable_while_on_changes_nothing<R: Copy>(
    h: SensorHandler<R>,
    e: u64,
    enables: Seq<bool>,
    readings: Seq<R>,
)
    requires
        h.wf(),
        h.phase != Mode::Off,
        enables.len() > 0,
        enables.last(),
    ensures
        h.after_external(e, enables, readings) == h,
        h.phase == Mode::AckReceived ==> h.after_external(e, enables, readings).output().report
            == h.pending_report,
{
}

/// No transition changes the sensor handler's configuration: its period and deadline
/// stay those it was built with, so every request waits the full deadline in every period.
pub proof fn law_sensor_handler_keeps_period_and_deadline<R: Copy>(
    h: SensorHandler<R>,
    e: u64,
    enables: Seq<bool>,
    readings: Seq<R>,
)
    ensures
        h.after_internal().period == h.period,
        h.after_internal().deadline == h.deadline,
        h.after_external(e, enables, readings).period == h.period,
        h.after_external(e, enables, readings).deadline == h.deadline,
        h.phase == Mode::Idle ==> h.after_internal().sigma == TimeAdvance::Finite(h.deadline),
{
}

/// A sensor handler sends a report only in `AckReceived`, once per answered request:
/// about to request, it sends the request and nothing else; waiting or switched off, it
/// sends nothing.
pub proof fn law_sensor_handler_reports_only_answers<R: Copy>(h: SensorHandler<R>)
    ensures
        h.phase == Mode::Idle ==> h.output() == (SensorHandlerOutput::<R> { request: Some(true), report: None }),
        h.output().report is Some ==> h.phase == Mode::AckReceived,
        h.output().request is Some ==> h.phase == Mode::Idle,
        h.phase == Mode::AckReceived ==> h.output().report == h.pending_report,
        h.phase == Mode::AckReceived ==> h.after_internal().output().report is None,
{
}

/// No transition changes the LED handler's deadline: every LED request waits the
/// deadline it was built with.
pub proof fn law_led_handler_keeps_deadline(h: LedHandler, e: u64, requests: Seq<bool>, confirmations: Seq<bool>)
    ensures
        h.after_internal().deadline == h.deadline,
        h.after_external(e, requests, confirmations).deadline == h.deadline,
        h.phase == Mode::Idle ==> h.after_internal().sigma == TimeAdvance::Finite(h.deadline),
{
}

/// The number of the control logic's output ports that hold a value.
pub open spec fn nonempty_ports<R>(o: LogicOutput<R>) -> int {
    (o.out_temp_req@.len() > 0) as int + (o.out_hum_req@.len() > 0) as int + (o.out_led_cmd@.len() > 0) as int
        + (o.out_temp_rep@.len() > 0) as int + (o.out_hum_rep@.len() > 0) as int + (o.out_led_rep@.len()
        > 0) as int
}

proof fn lemma_message_if_contains<T>(present: bool, message: T, x: T)
    ensures
        message_if(present, message).contains(x) <==> present && x == message,
        message_if(present, message).len() == present as int,
{
    if present {
        assert(message_if(present, message)[0] == message);
    }
}

proof fn lemma_concat_contains<T>(a: Seq<T>, b: Seq<T>, x: T)
    ensures
        (a + b).contains(x) <==> a.contains(x) || b.contains(x),
{
    if a.contains(x) {
        let i = choose|i: int| 0 <= i < a.len() && a[i] == x;
        assert((a + b)[i] == x);
    }
    if b.contains(x) {
        let i = choose|i: int| 0 <= i < b.len() && b[i] == x;
        assert((a + b)[a.len() + i] == x);
    }
    if (a + b).contains(x) {
        let i = choose|i: int| 0 <= i < (a + b).len() && (a + b)[i] == x;
        if i < a.len() {
            assert(a[i] == x);
        } else {
            assert(b[i - a.len()] == x);
        }
    }
}

proof fn lemma_published_contains<R>(o: LogicOutput<R>, x: ModelOutput<R>)
    ensures
        published(o).contains(x) <==> {
            ||| o.out_temp_req@.len() > 0 && x == ModelOutput::<R>::TempRequest(o.out_temp_req@.last())
            ||| o.out_hum_req@.len() > 0 && x == ModelOutput::<R>::HumRequest(o.out_hum_req@.last())
            ||| o.out_led_cmd@.len() > 0 && x == ModelOutput::<R>::LedCommand(o.out_led_cmd@.last())
            ||| o.out_temp_rep@.len() > 0 && x == ModelOutput::<R>::TempReport(
                o.out_temp_rep@.last().0,
                o.out_temp_rep@.last().1,
            )
            ||| o.out_hum_rep@.len() > 0 && x == ModelOutput::<R>::HumReport(
                o.out_hum_rep@.last().0,
                o.out_hum_rep@.last().1,
            )
            ||| o.out_led_rep@.len() > 0 && x == ModelOutput::<R>::LedReport(
                o.out_led_rep@.last().0,
                o.out_led_rep@.last().1,
            )
        },
        published(o).len() == nonempty_ports(o),
{
    let temp_req = o.out_temp_req@;
    let hum_req = o.out_hum_req@;
    let led_cmd = o.out_led_cmd@;
    let temp_rep = o.out_temp_rep@;
    let hum_rep = o.out_hum_rep@;
    let led_rep = o.out_led_rep@;
    let m1 = message_if(temp_req.len() > 0, ModelOutput::<R>::TempRequest(temp_req.last()));
    let m2 = message_if(hum_req.len() > 0, ModelOutput::<R>::HumRequest(hum_req.last()));
    let m3 = message_if(led_cmd.len() > 0, ModelOutput::<R>::LedCommand(led_cmd.last()));
    let m4 = message_if(temp_rep.len() > 0, ModelOutput::<R>::TempReport(temp_rep.last().0, temp_rep.last().1));
    let m5 = message_if(hum_rep.len() > 0, ModelOutput::<R>::HumReport(hum_rep.last().0, hum_rep.last().1));
    let m6 = message_if(led_rep.len() > 0, ModelOutput::<R>::LedReport(led_rep.last().0, led_rep.last().1));
    assert(published(o) == m1 + m2 + m3 + m4 + m5 + m6);
    lemma_concat_contains(m1, m2, x);
    lemma_concat_contains(m1 + m2, m3, x);
    lemma_concat_contains(m1 + m2 + m3, m4, x);
    lemma_concat_contains(m1 + m2 + m3 + m4, m5, x);
    lemma_concat_contains(m1 + m2 + m3 + m4 + m5, m6, x);
    lemma_message_if_contains(temp_req.len() > 0, ModelOutput::<R>::TempRequest(temp_req.last()), x);
    lemma_message_if_contains(hum_req.len() > 0, ModelOutput::<R>::HumRequest(hum_req.last()), x);
    lemma_message_if_contains(led_cmd.len() > 0, ModelOutput::<R>::LedCommand(led_cmd.last()), x);
    lemma_message_if_contains(temp_rep.len() > 0, ModelOutput::<R>::TempReport(temp_rep.last().0, temp_rep.last().1), x);
    lemma_message_if_contains(hum_rep.len() > 0, ModelOutput::<R>::HumReport(hum_rep.last().0, hum_rep.last().1), x);
    lemma_message_if_contains(led_rep.len() > 0, ModelOutput::<R>::LedReport(led_rep.last().0, led_rep.last().1), x);
}

/// An output event publishes exactly one message per port that holds a value, of that
/// port's kind and carrying the port's last value, and no message for an empty port.
pub proof fn law_every_port_published<R>(o: LogicOutput<R>)
    ensures
        published(o).len() == nonempty_ports(o),
        forall|v: bool| #[trigger] published(o).contains(ModelOutput::<R>::TempRequest(v))
            <==> o.out_temp_req@.len() > 0 && v == o.out_temp_req@.last(),
        forall|v: bool| #[trigger] published(o).contains(ModelOutput::<R>::HumRequest(v))
            <==> o.out_hum_req@.len() > 0 && v == o.out_hum_req@.last(),
        forall|v: bool| #[trigger] published(o).contains(ModelOutput::<R>::LedCommand(v))
            <==> o.out_led_cmd@.len() > 0 && v == o.out_led_cmd@.last(),
        forall|v: R, t: u64| #[trigger] published(o).contains(ModelOutput::<R>::TempReport(v, t))
            <==> o.out_temp_rep@.len() > 0 && (v, t) == o.out_temp_rep@.last(),
        forall|v: R, t: u64| #[trigger] published(o).contains(ModelOutput::<R>::HumReport(v, t))
            <==> o.out_hum_rep@.len() > 0 && (v, t) == o.out_hum_rep@.last(),
        forall|v: bool, t: u64| #[trigger] published(o).contains(ModelOutput::<R>::LedReport(v, t))
            <==> o.out_led_rep@.len() > 0 && (v, t) == o.out_led_rep@.last(),
{
    lemma_published_contains(o, ModelOutput::<R>::TempRequest(true));
    assert forall|v: bool| #[trigger] published(o).contains(ModelOutput::<R>::TempRequest(v))
        <==> o.out_temp_req@.len() > 0 && v == o.out_temp_req@.last() by {
        lemma_published_contains(o, ModelOutput::<R>::TempRequest(v));
    }
    assert forall|v: bool| #[trigger] published(o).contains(ModelOutput::<R>::HumRequest(v))
        <==> o.out_hum_req@.len() > 0 && v == o.out_hum_req@.last() by {
        lemma_published_contains(o, ModelOutput::<R>::HumRequest(v));
    }
    assert forall|v: bool| #[trigger] published(o).contains(ModelOutput::<R>::LedCommand(v))
        <==> o.out_led_cmd@.len() > 0 && v == o.out_led_cmd@.last() by {
        lemma_published_contains(o, ModelOutput::<R>::LedCommand(v));
    }
    assert forall|v: R, t: u64| #[trigger] published(o).contains(ModelOutput::<R>::TempReport(v, t))
        <==> o.out_temp_rep@.len() > 0 && (v, t) == o.out_temp_rep@.last() by {
        lemma_published_contains(o, ModelOutput::<R>::TempReport(v, t));
    }
    assert forall|v: R, t: u64| #[trigger] published(o).contains(ModelOutput::<R>::HumReport(v, t))
        <==> o.out_hum_rep@.len() > 0 && (v, t) == o.out_hum_rep@.last() by {
        lemma_published_contains(o, ModelOutput::<R>::HumReport(v, t));
    }
    assert forall|v: bool, t: u64| #[trigger] published(o).contains(ModelOutput::<R>::LedReport(v, t))
        <==> o.out_led_rep@.len() > 0 && (v, t) == o.out_led_rep@.last() by {
        lemma_published_contains(o, ModelOutput::<R>::LedReport(v, t));
    }
}

/// The sensor handler keeps a reading only when it answers an outstanding request:
/// the pending report changes only in `WaitingAck`, with no enable signal and a
/// non-empty bag of readings, and then holds the last reading with its response time.
/// Internal transitions never touch it.
pub proof fn law_sensor_handler_keeps_report_until_answer<R: Copy>(
    h: SensorHandler<R>,
    e: u64,
    enables: Seq<bool>,
    readings: Seq<R>,
)
    ensures
        h.after_internal().pending_report == h.pending_report,
        h.after_external(e, enables, readings).pending_report != h.pending_report ==> {
            &&& h.phase == Mode::WaitingAck
            &&& enables.len() == 0
            &&& readings.len() > 0
        },
        h.phase == Mode::WaitingAck && enables.len() == 0 && readings.len() > 0 ==> h.after_external(
            e,
            enables,
            readings,
        ).pending_report == Some((readings.last(), e)),
{
}

/// Without inputs for it, a sensor handler stays as it is: an external event whose bags
/// are both empty changes nothing.
pub proof fn law_sensor_handler_no_input_no_change<R: Copy>(h: SensorHandler<R>, e: u64)
    ensures
        h.after_external(e, Seq::empty(), Seq::empty()) == h,
{
}

/// The phases of the sensor handler follow the polling cycle: an internal event moves
/// `Idle` to `WaitingAck`, `WaitingAck` (timed out) and `AckReceived` (reported) to
/// `Idle`, and leaves a switched-off handler as it is.
pub proof fn law_sensor_handler_phase_cycle<R: Copy>(h: SensorHandler<R>)
    ensures
        h.phase == Mode::Idle ==> h.after_internal().phase == Mode::WaitingAck,
        h.phase == Mode::WaitingAck ==> h.after_internal().phase == Mode::Idle,
        h.phase == Mode::AckReceived ==> h.after_internal().phase == Mode::Idle
            && h.after_internal().sigma == TimeAdvance::Finite(0),
        h.phase == Mode::Off ==> h.after_internal() == h,
{
}

/// The LED handler sends its target state only when about to drive the LED, and a report
/// only after a confirmation, carrying that confirmation and its response time.
pub proof fn law_led_handler_outputs(h: LedHandler)
    ensures
        h.output().set_state is Some ==> h.phase == Mode::Idle && h.output().set_state == Some(h.target_state),
        h.output().report is Some ==> h.phase == Mode::AckReceived && h.output().report == Some(h.pending_report),
        h.phase == Mode::Idle ==> h.output().set_state == Some(h.target_state) && h.output().report is None,
        h.phase == Mode::AckReceived ==> h.output().report == Some(h.pending_report) && h.output().set_state is None,
        h.phase == Mode::Off || h.phase == Mode::WaitingAck ==> h.output() == (LedHandlerOutput {
            set_state: None,
            report: None,
        }),
{
}

/// The LED handler's target changes only when a request arrives while it is off, and its
/// report only when a confirmation arrives while it waits; internal transitions change
/// neither.
pub proof fn law_led_handler_keeps_target_and_report(h: LedHandler, e: u64, requests: Seq<bool>, confirmations: Seq<bool>)
    ensures
        h.after_internal().target_state == h.target_state,
        h.after_internal().pending_report == h.pending_report,
        h.after_external(e, requests, confirmations).target_state != h.target_state ==> h.phase == Mode::Off
            && requests.len() > 0,
        h.after_external(e, requests, confirmations).pending_report != h.pending_report ==> h.phase
            == Mode::WaitingAck && confirmations.len() > 0,
        h.phase == Mode::Off && requests.len() > 0 ==> h.after_external(e, requests, confirmations).target_state
            == requests.last(),
        h.phase == Mode::WaitingAck && confirmations.len() > 0 ==> h.after_external(
            e,
            requests,
            confirmations,
        ).pending_report == (confirmations.last(), e),
{
}

/// The orchestrator's internal transition only makes it passive: the command it holds is
/// kept; an empty bag of commands changes nothing.
pub proof fn law_orchestrator_internal_and_empty_input(o: Orchestrator)
    ensures
        o.after_internal().pending_command == o.pending_command,
        o.after_internal().sigma == TimeAdvance::Infinite,
        o.after_external(Seq::empty()) == o,
{
}

/// Only the six command texts are read as commands, each as its own command.
pub proof fn law_only_command_texts_are_commands(text: Seq<char>)
    ensures
        command_named(text) matches Some(c) ==> text == command_text(c),
{
}

} // verus!
