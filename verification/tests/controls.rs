use rme_cli::controls::{
    available_controls, input_gain_control, nudge_volume, outputs_to_restore, pad_control,
    parse_gain, parse_sensitivity_value, parse_switch_value, phantom_control, sensitivity_control,
    switch_state, switch_word, GainError, is_line_channel,
};

#[test]
fn available_controls_per_channel() {
    assert_eq!(available_controls("mic1"), "gain, phantom, pad");
    assert_eq!(available_controls("mic2"), "gain, phantom, pad");
    assert_eq!(available_controls("line1"), "gain, sensitivity");
    assert_eq!(available_controls("line2"), "gain, sensitivity");
    assert_eq!(available_controls("other"), "gain");
}

#[test]
fn input_gain_controls() {
    assert_eq!(input_gain_control("mic1"), Ok("Mic-AN1 Gain"));
    assert_eq!(input_gain_control("mic2"), Ok("Mic-AN2 Gain"));
    assert_eq!(input_gain_control("line1"), Ok("Line-IN3 Gain"));
    assert_eq!(input_gain_control("line2"), Ok("Line-IN4 Gain"));
    assert_eq!(input_gain_control("main"), Err("Unknown input channel: main".to_string()));
}

#[test]
fn switch_controls_only_on_mics() {
    assert_eq!(phantom_control("mic1"), Ok("Mic-AN1 48V"));
    assert_eq!(phantom_control("mic2"), Ok("Mic-AN2 48V"));
    assert_eq!(phantom_control("line1"), Err("'phantom' is not available for 'line1'".to_string()));
    assert_eq!(pad_control("mic1"), Ok("Mic-AN1 PAD"));
    assert_eq!(pad_control("mic2"), Ok("Mic-AN2 PAD"));
    assert_eq!(pad_control("line2"), Err("'pad' is not available for 'line2'".to_string()));
}

#[test]
fn sensitivity_only_on_lines() {
    assert_eq!(sensitivity_control("line1"), Ok("Line-IN3 Sens."));
    assert_eq!(sensitivity_control("line2"), Ok("Line-IN4 Sens."));
    assert_eq!(
        sensitivity_control("mic1"),
        Err("'sensitivity' is not available for 'mic1'".to_string())
    );
}

#[test]
fn switch_values() {
    for w in ["on", "ON", "1", "true", "Yes"] {
        assert_eq!(parse_switch_value(w), Ok(true), "{}", w);
    }
    for w in ["off", "Off", "0", "FALSE", "no"] {
        assert_eq!(parse_switch_value(w), Ok(false), "{}", w);
    }
    assert_eq!(
        parse_switch_value("maybe"),
        Err("Invalid switch value 'maybe'. Use: on, off".to_string())
    );
}

#[test]
fn switch_word_reads_back() {
    assert_eq!(switch_word(true), "on");
    assert_eq!(switch_word(false), "off");
    assert_eq!(switch_state(switch_word(true)), Some(true));
    assert_eq!(switch_state(switch_word(false)), Some(false));
}

#[test]
fn sensitivity_values() {
    for w in ["+4dBu", "high", "HI"] {
        assert_eq!(parse_sensitivity_value(w), Ok("+4dBu"), "{}", w);
    }
    for w in ["-10dBV", "Low", "lo"] {
        assert_eq!(parse_sensitivity_value(w), Ok("-10dBV"), "{}", w);
    }
    assert_eq!(
        parse_sensitivity_value("mid"),
        Err("Invalid sensitivity 'mid'. Use: +4dBu/high or -10dBV/low".to_string())
    );
}

#[test]
fn gain_ranges() {
    assert_eq!(parse_gain(0, true), Ok(0));
    assert_eq!(parse_gain(18, true), Ok(18));
    assert_eq!(parse_gain(19, true), Err(GainError::LineOutOfRange));
    assert_eq!(parse_gain(-1, true), Err(GainError::LineOutOfRange));
    assert_eq!(parse_gain(65, false), Ok(65));
    assert_eq!(parse_gain(66, false), Err(GainError::MicOutOfRange));
    assert_eq!(parse_gain(-1, false), Err(GainError::MicOutOfRange));
    assert!(is_line_channel("line1"));
    assert!(!is_line_channel("mic1"));
}

#[test]
fn nudge_goes_back_to_the_read_value() {
    assert_eq!(nudge_volume(40000), vec![39999, 40000]);
    assert_eq!(nudge_volume(1), vec![0, 1]);
    assert_eq!(nudge_volume(0), vec![1, 0]);
    for raw in [0, 1, 5, 65536] {
        let w = nudge_volume(raw);
        assert_eq!(*w.last().unwrap(), raw);
        assert_eq!((w[0] - raw).abs(), 1);
    }
}

#[test]
fn restored_outputs() {
    assert_eq!(
        outputs_to_restore(),
        vec!["Main-Out AN1", "Main-Out AN2", "Main-Out PH3", "Main-Out PH4"]
    );
}
