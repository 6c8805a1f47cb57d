use common_logic::{
    led_state_str, parse_command, propagate_output, received_reports, scan_received, Command,
    LedModel, LineStatus, LogicOutput, ModelOutput, Quantity, Report, SensorModel, TimeAdvance,
};

#[test]
fn parse_each_command() {
    assert_eq!(parse_command("TEMP ON"), Some(Command::TempOn));
    assert_eq!(parse_command("TEMP OFF"), Some(Command::TempOff));
    assert_eq!(parse_command("HUM ON"), Some(Command::HumOn));
    assert_eq!(parse_command("HUM OFF"), Some(Command::HumOff));
    assert_eq!(parse_command("LED ON"), Some(Command::LedOn));
    assert_eq!(parse_command("LED OFF"), Some(Command::LedOff));
}

#[test]
fn parse_ignores_surrounding_white_space() {
    assert_eq!(parse_command("  LED OFF\r\n"), Some(Command::LedOff));
    assert_eq!(parse_command("\tHUM ON "), Some(Command::HumOn));
    assert_eq!(parse_command("\u{a0}TEMP OFF\u{3000}"), Some(Command::TempOff));
}

#[test]
fn parse_rejects_other_text() {
    assert_eq!(parse_command(""), None);
    assert_eq!(parse_command("   "), None);
    assert_eq!(parse_command("temp on"), None);
    assert_eq!(parse_command("TEMP  ON"), None);
    assert_eq!(parse_command("XTEMP ON"), None);
    assert_eq!(parse_command("TEMP ONX"), None);
    assert_eq!(parse_command("LED"), None);
}

#[test]
fn scan_waits_for_line_break() {
    assert_eq!(scan_received(""), LineStatus::Incomplete);
    assert_eq!(scan_received("TEMP ON"), LineStatus::Incomplete);
    assert_eq!(scan_received("TEMP ON\n"), LineStatus::Recognized(Command::TempOn));
    assert_eq!(scan_received("LED OFF\r\n"), LineStatus::Recognized(Command::LedOff));
    assert_eq!(scan_received("hello\n"), LineStatus::Unrecognized);
    assert_eq!(scan_received("TEMP ON\nHUM ON\n"), LineStatus::Unrecognized);
}

#[test]
fn propagate_output_in_port_order() {
    let output = LogicOutput {
        out_temp_req: vec![true],
        out_hum_req: vec![],
        out_led_cmd: vec![false],
        out_temp_rep: vec![(23.5, 1_800_000)],
        out_hum_rep: vec![(31.0, 1_700_000), (32.0, 1_750_000)],
        out_led_rep: vec![(true, 500_000)],
    };
    assert_eq!(
        propagate_output(&output),
        vec![
            ModelOutput::TempRequest(true),
            ModelOutput::LedCommand(false),
            ModelOutput::TempReport(23.5, 1_800_000),
            ModelOutput::HumReport(32.0, 1_750_000),
            ModelOutput::LedReport(true, 500_000),
        ]
    );
}

#[test]
fn propagate_output_of_empty_ports() {
    let output: LogicOutput<f64> = LogicOutput {
        out_temp_req: vec![],
        out_hum_req: vec![],
        out_led_cmd: vec![],
        out_temp_rep: vec![],
        out_hum_rep: vec![],
        out_led_rep: vec![],
    };
    assert!(propagate_output(&output).is_empty());
}

#[test]
fn device_decisions() {
    assert_eq!(ModelOutput::<f64>::TempRequest(true).requested_quantity(), Some(Quantity::Temperature));
    assert_eq!(ModelOutput::<f64>::HumRequest(true).requested_quantity(), Some(Quantity::Humidity));
    assert_eq!(ModelOutput::<f64>::TempRequest(false).requested_quantity(), None);
    assert_eq!(ModelOutput::<f64>::LedCommand(true).requested_quantity(), None);
    assert_eq!(ModelOutput::<f64>::LedCommand(false).led_command(), Some(false));
    assert_eq!(ModelOutput::<f64>::HumRequest(true).led_command(), None);
    assert_eq!(ModelOutput::TempReport(1.5, 9).report(), Some(Report::Temperature(1.5, 9)));
    assert_eq!(ModelOutput::<f64>::LedReport(true, 4).report(), Some(Report::Led(true, 4)));
    assert_eq!(ModelOutput::<f64>::TempRequest(true).report(), None);
}

#[test]
fn report_labels_and_order() {
    let reports = received_reports(&[(20.0, 1)], &[], &[(false, 3), (true, 4)]);
    assert_eq!(reports, vec![Report::Temperature(20.0, 1), Report::Led(true, 4)]);
    assert_eq!(reports[0].label(), "Temperature");
    assert_eq!(Report::Humidity(30.0, 2).label(), "Humidity");
    assert_eq!(reports[1].label(), "LED");
    assert_eq!(reports[1].response_time(), 4);
    assert_eq!(reports[0].unit(), "°C");
    assert_eq!(Report::Humidity(30.0, 2).unit(), "%");
    assert_eq!(reports[1].unit(), "state");
    assert_eq!(led_state_str(true), "ON");
    assert_eq!(led_state_str(false), "OFF");
}

#[test]
fn simulated_sensor_answers_after_drawn_delay() {
    let mut s: SensorModel<f64> = SensorModel::new();
    assert_eq!(s.ta(), TimeAdvance::Infinite);
    let mut draws = 0;
    s.delta_ext(&[], || {
        draws += 1;
        (0.0, 0)
    });
    assert_eq!(draws, 0);
    s.delta_ext(&[true], || (23.6, 1_812_650));
    assert_eq!(s.ta(), TimeAdvance::Finite(1_812_650));
    assert_eq!(s.lambda(), Some(23.6));
    s.delta_int();
    assert_eq!(s.lambda(), None);
    assert_eq!(s.ta(), TimeAdvance::Infinite);
}

#[test]
fn simulated_led_confirms_last_command() {
    let mut l = LedModel::new();
    l.delta_ext(&[true, false], || 492_580);
    assert_eq!(l.lambda(), Some(false));
    assert_eq!(l.ta(), TimeAdvance::Finite(492_580));
    l.delta_int();
    assert_eq!(l, LedModel::new());
}
