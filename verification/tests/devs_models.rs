use common_logic::{
    Command, CommonLogic, LedHandler, LedHandlerOutput, Mode, Orchestrator, OrchestratorOutput,
    SensorHandler, SensorHandlerOutput, TimeAdvance,
};

const PERIOD: u64 = 2_000_000_000;
const DEADLINE: u64 = 1_000_000_000;

#[test]
fn orchestrator_starts_passive_and_silent() {
    let o = Orchestrator::new();
    assert_eq!(o.ta(), TimeAdvance::Infinite);
    assert_eq!(
        o.lambda(),
        OrchestratorOutput { temp_enable: None, hum_enable: None, led_set: None }
    );
}

#[test]
fn orchestrator_routes_each_command() {
    let cases = [
        (Command::TempOn, OrchestratorOutput { temp_enable: Some(true), hum_enable: None, led_set: None }),
        (Command::TempOff, OrchestratorOutput { temp_enable: Some(false), hum_enable: None, led_set: None }),
        (Command::HumOn, OrchestratorOutput { temp_enable: None, hum_enable: Some(true), led_set: None }),
        (Command::HumOff, OrchestratorOutput { temp_enable: None, hum_enable: Some(false), led_set: None }),
        (Command::LedOn, OrchestratorOutput { temp_enable: None, hum_enable: None, led_set: Some(true) }),
        (Command::LedOff, OrchestratorOutput { temp_enable: None, hum_enable: None, led_set: Some(false) }),
    ];
    for (command, expected) in cases {
        let mut o = Orchestrator::new();
        o.delta_ext(&[command]);
        assert_eq!(o.ta(), TimeAdvance::Finite(0));
        assert_eq!(o.lambda(), expected);
        o.delta_int();
        assert_eq!(o.ta(), TimeAdvance::Infinite);
    }
}

#[test]
fn orchestrator_takes_last_command_of_bag() {
    let mut o = Orchestrator::new();
    o.delta_ext(&[Command::TempOn, Command::LedOff]);
    assert_eq!(o.pending_command, Some(Command::LedOff));
    assert_eq!(o.lambda().led_set, Some(false));
    assert_eq!(o.lambda().temp_enable, None);
}

#[test]
fn orchestrator_ignores_empty_bag() {
    let mut o = Orchestrator::new();
    o.delta_ext(&[Command::HumOn]);
    o.delta_int();
    let before = o;
    o.delta_ext(&[]);
    assert_eq!(o, before);
}

#[test]
fn sensor_handler_cycle_with_answer() {
    let mut h: SensorHandler<f64> = SensorHandler::new(PERIOD, DEADLINE);
    assert_eq!(h.phase, Mode::Off);
    assert_eq!(h.ta(), TimeAdvance::Infinite);
    assert_eq!(h.lambda(), SensorHandlerOutput { request: None, report: None });

    h.delta_ext(5, &[true], &[]);
    assert_eq!(h.phase, Mode::Idle);
    assert_eq!(h.ta(), TimeAdvance::Finite(0));
    assert_eq!(h.lambda(), SensorHandlerOutput { request: Some(true), report: None });

    h.delta_int();
    assert_eq!(h.phase, Mode::WaitingAck);
    assert_eq!(h.ta(), TimeAdvance::Finite(DEADLINE));

    h.delta_ext(300_000_000, &[], &[23.63]);
    assert_eq!(h.phase, Mode::AckReceived);
    assert_eq!(h.ta(), TimeAdvance::Finite(1_700_000_000));
    assert_eq!(
        h.lambda(),
        SensorHandlerOutput { request: None, report: Some((23.63, 300_000_000)) }
    );

    h.delta_int();
    assert_eq!(h.phase, Mode::Idle);
    assert_eq!(h.ta(), TimeAdvance::Finite(0));
    assert_eq!(h.lambda().request, Some(true));
}

#[test]
fn sensor_handler_cycle_without_answer() {
    let mut h: SensorHandler<f64> = SensorHandler::new(PERIOD, DEADLINE);
    h.delta_ext(0, &[true], &[]);
    h.delta_int();
    assert_eq!(h.ta(), TimeAdvance::Finite(DEADLINE));
    h.delta_int();
    assert_eq!(h.phase, Mode::Idle);
    assert_eq!(h.ta(), TimeAdvance::Finite(PERIOD - DEADLINE));
    assert_eq!(h.lambda(), SensorHandlerOutput { request: Some(true), report: None });
}

#[test]
fn sensor_handler_last_reading_counts() {
    let mut h: SensorHandler<f64> = SensorHandler::new(PERIOD, DEADLINE);
    h.delta_ext(0, &[true], &[]);
    h.delta_int();
    h.delta_ext(10, &[], &[1.0, 2.0]);
    assert_eq!(h.lambda().report, Some((2.0, 10)));
}

#[test]
fn sensor_handler_disable_from_every_phase() {
    let mut h: SensorHandler<f64> = SensorHandler::new(PERIOD, DEADLINE);
    h.delta_ext(0, &[true], &[]);
    let idle = h;
    h.delta_int();
    let waiting = h;
    h.delta_ext(400, &[], &[31.87]);
    let answered = h;
    for mut s in [idle, waiting, answered] {
        s.delta_ext(0, &[false], &[]);
        assert_eq!(s.phase, Mode::Off);
        assert_eq!(s.ta(), TimeAdvance::Infinite);
        assert_eq!(s.lambda(), SensorHandlerOutput { request: None, report: None });
    }
}

#[test]
fn sensor_handler_enable_signal_hides_reading() {
    let mut h: SensorHandler<f64> = SensorHandler::new(PERIOD, DEADLINE);
    h.delta_ext(0, &[true], &[]);
    h.delta_int();
    let waiting = h;
    h.delta_ext(100, &[true], &[20.0]);
    assert_eq!(h, waiting);
}

#[test]
fn sensor_handler_off_ignores_disable_and_readings() {
    let mut h: SensorHandler<f64> = SensorHandler::new(PERIOD, DEADLINE);
    let off = h;
    h.delta_ext(0, &[false], &[12.0]);
    assert_eq!(h, off);
    h.delta_int();
    assert_eq!(h, off);
}

#[test]
fn led_handler_cycle() {
    let mut h = LedHandler::new(false, DEADLINE);
    assert_eq!(h.ta(), TimeAdvance::Infinite);
    h.delta_ext(7, &[true], &[]);
    assert_eq!(h.ta(), TimeAdvance::Finite(0));
    assert_eq!(h.lambda(), LedHandlerOutput { set_state: Some(true), report: None });
    h.delta_int();
    assert_eq!(h.phase, Mode::WaitingAck);
    assert_eq!(h.ta(), TimeAdvance::Finite(DEADLINE));
    assert_eq!(h.lambda(), LedHandlerOutput { set_state: None, report: None });
    h.delta_ext(492_580, &[], &[true]);
    assert_eq!(h.ta(), TimeAdvance::Finite(0));
    assert_eq!(h.lambda(), LedHandlerOutput { set_state: None, report: Some((true, 492_580)) });
    h.delta_int();
    assert_eq!(h.phase, Mode::Off);
    assert_eq!(h.ta(), TimeAdvance::Infinite);
}

#[test]
fn led_handler_busy_ignores_requests() {
    let mut h = LedHandler::new(true, DEADLINE);
    h.delta_ext(0, &[false], &[]);
    assert_eq!(h.target_state, false);
    let sending = h;
    h.delta_ext(0, &[true], &[]);
    assert_eq!(h, sending);
    h.delta_int();
    let waiting = h;
    h.delta_ext(3, &[true], &[]);
    assert_eq!(h, waiting);
}

#[test]
fn led_handler_waits_on_without_confirmation() {
    let mut h = LedHandler::new(false, DEADLINE);
    h.delta_ext(0, &[true], &[]);
    h.delta_int();
    let waiting = h;
    h.delta_int();
    assert_eq!(h, waiting);
}

#[test]
fn common_logic_new_builds_components() {
    let c: CommonLogic<f64> = CommonLogic::new(PERIOD, DEADLINE, true);
    assert_eq!(c.orchestrator, Orchestrator::new());
    assert_eq!(c.temp_handler, SensorHandler::new(PERIOD, DEADLINE));
    assert_eq!(c.hum_handler, SensorHandler::new(PERIOD, DEADLINE));
    assert_eq!(c.led_handler.target_state, true);
    assert_eq!(c.led_handler.deadline, DEADLINE);
    assert_eq!(c.led_handler.phase, Mode::Off);
}

fn delivered(value: Option<bool>) -> Vec<bool> {
    value.into_iter().collect()
}

#[test]
fn commands_reach_their_handlers() {
    let mut logic: CommonLogic<f64> = CommonLogic::new(PERIOD, DEADLINE, false);
    logic.orchestrator.delta_ext(&[Command::TempOn]);
    let out = logic.orchestrator.lambda();
    logic.temp_handler.delta_ext(0, &delivered(out.temp_enable), &[]);
    logic.hum_handler.delta_ext(0, &delivered(out.hum_enable), &[]);
    logic.led_handler.delta_ext(0, &delivered(out.led_set), &[]);
    assert_eq!(logic.temp_handler.lambda().request, Some(true));
    assert_eq!(logic.hum_handler, SensorHandler::new(PERIOD, DEADLINE));
    assert_eq!(logic.led_handler, LedHandler::new(false, DEADLINE));

    logic.orchestrator.delta_int();
    logic.orchestrator.delta_ext(&[Command::TempOff]);
    let out = logic.orchestrator.lambda();
    logic.temp_handler.delta_ext(0, &delivered(out.temp_enable), &[]);
    assert_eq!(logic.temp_handler.phase, Mode::Off);
    assert_eq!(logic.temp_handler.ta(), TimeAdvance::Infinite);

    logic.orchestrator.delta_ext(&[Command::LedOn]);
    let out = logic.orchestrator.lambda();
    logic.led_handler.delta_ext(0, &delivered(out.led_set), &[]);
    assert_eq!(logic.led_handler.lambda().set_state, Some(true));
}
