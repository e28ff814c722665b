use rme_cli::command::{
    apply_volume_change, classify_channel, gain_text, is_relative, parse_volume_change,
    percent_text, plan_get, plan_input_get, plan_input_set, plan_set,
    ChannelKind, GetPlan, InputRead, InputWrite, SetPlan, VolumeChange,
};

#[test]
fn channel_names() {
    assert_eq!(classify_channel("main"), Some(ChannelKind::MainOut));
    assert_eq!(classify_channel("speakers"), Some(ChannelKind::MainOut));
    assert_eq!(classify_channel("main-out"), Some(ChannelKind::MainOut));
    assert_eq!(classify_channel("hp"), Some(ChannelKind::Headphones));
    assert_eq!(classify_channel("phones"), Some(ChannelKind::Headphones));
    assert_eq!(classify_channel("line2"), Some(ChannelKind::Input));
    assert_eq!(classify_channel("line3"), None);
}

#[test]
fn get_outputs() {
    assert_eq!(plan_get("main", None), Ok(GetPlan::Output { control: "Main-Out AN1" }));
    assert_eq!(plan_get("Headphones", None), Ok(GetPlan::Output { control: "Main-Out PH3" }));
}

#[test]
fn get_inputs() {
    assert_eq!(
        plan_get("MIC1", Some("Gain")),
        Ok(GetPlan::Input(InputRead::Gain { control: "Mic-AN1 Gain", half_steps: false }))
    );
    assert_eq!(
        plan_get("line2", Some("gain")),
        Ok(GetPlan::Input(InputRead::Gain { control: "Line-IN4 Gain", half_steps: true }))
    );
    assert_eq!(
        plan_get("mic2", Some("48v")),
        Ok(GetPlan::Input(InputRead::Switch { control: "Mic-AN2 48V" }))
    );
    assert_eq!(
        plan_get("line1", Some("sens")),
        Ok(GetPlan::Input(InputRead::Sensitivity { control: "Line-IN3 Sens." }))
    );
    assert_eq!(plan_input_get("mic1", "pad"), Ok(InputRead::Switch { control: "Mic-AN1 PAD" }));
}

#[test]
fn get_errors() {
    assert_eq!(
        plan_get("Mic1", None),
        Err("Control required for 'mic1'. Use: gain, phantom, pad".to_string())
    );
    assert_eq!(
        plan_get("Bass", None),
        Err("Unknown channel 'Bass'. Use: main, headphones, mic1, mic2, line1, line2".to_string())
    );
    assert_eq!(
        plan_get("line1", Some("volume")),
        Err("Unknown control 'volume' for 'line1'. Use: gain, sensitivity".to_string())
    );
    assert_eq!(
        plan_get("line1", Some("phantom")),
        Err("'phantom' is not available for 'line1'".to_string())
    );
}

#[test]
fn set_outputs() {
    assert_eq!(
        plan_set("main", "75%", None),
        Ok(SetPlan::Output {
            left: "Main-Out AN1",
            right: "Main-Out AN2",
            change: VolumeChange::To(75),
        })
    );
    assert_eq!(
        plan_set("hp", "+10%", None),
        Ok(SetPlan::Output {
            left: "Main-Out PH3",
            right: "Main-Out PH4",
            change: VolumeChange::Up(10),
        })
    );
}

#[test]
fn volume_values() {
    assert_eq!(parse_volume_change(" 50 "), Ok(VolumeChange::To(50)));
    assert_eq!(parse_volume_change("50%%"), Ok(VolumeChange::To(50)));
    assert_eq!(parse_volume_change("-5%"), Ok(VolumeChange::Down(5)));
    assert_eq!(parse_volume_change("+-5"), Ok(VolumeChange::Up(-5)));
    assert_eq!(
        parse_volume_change("150"),
        Err("Volume must be between 0 and 100 (got 150)".to_string())
    );
    assert_eq!(
        parse_volume_change("loud"),
        Err("Volume must be a whole number (got 'loud')".to_string())
    );
    assert_eq!(
        parse_volume_change("+x%"),
        Err("Volume must be a whole number (got 'x')".to_string())
    );
    assert_eq!(parse_volume_change("7.5"), Err("Volume must be a whole number (got '7.5')".to_string()));
}

#[test]
fn volume_changes_stay_in_range() {
    assert_eq!(apply_volume_change(50, VolumeChange::To(75)), 75);
    assert_eq!(apply_volume_change(95, VolumeChange::Up(10)), 100);
    assert_eq!(apply_volume_change(3, VolumeChange::Down(5)), 0);
    assert_eq!(apply_volume_change(40, VolumeChange::Up(-5)), 35);
    assert!(is_relative(VolumeChange::Up(1)));
    assert!(!is_relative(VolumeChange::To(1)));
    assert_eq!(apply_volume_change(100, VolumeChange::Up(i32::MAX)), 100);
    assert_eq!(apply_volume_change(0, VolumeChange::Down(i32::MIN)), 100);
    assert_eq!(apply_volume_change(50, VolumeChange::Down(i32::MAX)), 0);
    assert_eq!(apply_volume_change(100, parse_volume_change("+2147483647").unwrap()), 100);
    for current in [0, 50, 100] {
        for v in ["0", "100", "+1000", "-1000", "+0", "42%"] {
            let c = parse_volume_change(v).unwrap();
            let r = apply_volume_change(current, c);
            assert!((0..=100).contains(&r));
        }
    }
}

#[test]
fn set_inputs() {
    assert_eq!(
        plan_set("MIC1", "phantom", Some("on")),
        Ok(SetPlan::Input(InputWrite::Switch { control: "Mic-AN1 48V", state: true }))
    );
    assert_eq!(
        plan_set("mic2", "pad", Some("OFF")),
        Ok(SetPlan::Input(InputWrite::Switch { control: "Mic-AN2 PAD", state: false }))
    );
    assert_eq!(
        plan_set("line1", "sensitivity", Some("high")),
        Ok(SetPlan::Input(InputWrite::Sensitivity { control: "Line-IN3 Sens.", setting: "+4dBu" }))
    );
    assert_eq!(
        plan_set("line2", "gain", Some("3.5")),
        Ok(SetPlan::Input(InputWrite::Gain { control: "Line-IN4 Gain", half_steps: true }))
    );
    assert_eq!(
        plan_input_set("mic1", "gain", "32"),
        Ok(InputWrite::Gain { control: "Mic-AN1 Gain", half_steps: false })
    );
}

#[test]
fn set_errors() {
    assert_eq!(
        plan_set("mic1", "gain", None),
        Err("Value required: rme-cli set mic1 gain <value>".to_string())
    );
    assert_eq!(
        plan_set("mic1", "phantom", Some("maybe")),
        Err("Invalid switch value 'maybe'. Use: on, off".to_string())
    );
    assert_eq!(
        plan_set("line1", "pad", Some("maybe")),
        Err("'pad' is not available for 'line1'".to_string())
    );
    assert_eq!(
        plan_set("line2", "sensitivity", Some("mid")),
        Err("Invalid sensitivity 'mid'. Use: +4dBu/high or -10dBV/low".to_string())
    );
    assert_eq!(
        plan_set("mic2", "treble", Some("1")),
        Err("Unknown control 'treble' for 'mic2'. Use: gain, phantom, pad".to_string())
    );
    assert_eq!(
        plan_set("sub", "50", None),
        Err("Unknown channel 'sub'. Use: main, headphones, mic1, mic2, line1, line2".to_string())
    );
    assert_eq!(
        plan_set("main", "abc", None),
        Err("Volume must be a whole number (got 'abc')".to_string())
    );
}

#[test]
fn shown_values() {
    assert_eq!(percent_text(75), "75%");
    assert_eq!(gain_text(7, true), "3.5");
    assert_eq!(gain_text(32, false), "32");
    assert_eq!(gain_text(18, true), "9");
}
