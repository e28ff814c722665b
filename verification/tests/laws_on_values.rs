use rme_cli::command::{plan_get, plan_input_get, plan_input_set, plan_set, GetPlan, SetPlan};
use rme_cli::controls::{
    available_controls, input_gain_control, pad_control, parse_sensitivity_value,
    parse_switch_value, phantom_control, sensitivity_control, switch_word,
};

#[test]
fn get_and_set_use_the_same_output_control() {
    for ch in ["main", "speakers", "hp", "Headphones"] {
        let got = plan_get(ch, None).unwrap();
        let set = plan_set(ch, "+5", None).unwrap();
        match (got, set) {
            (GetPlan::Output { control }, SetPlan::Output { left, .. }) => assert_eq!(control, left),
            _ => panic!("{} is an output", ch),
        }
    }
}

#[test]
fn channel_and_param_case_is_ignored() {
    assert_eq!(plan_get("MAIN", None), plan_get("main", None));
    assert_eq!(plan_get("Mic1", Some("PHANTOM")), plan_get("mic1", Some("phantom")));
    assert_eq!(plan_set("LINE2", "Sens", Some("Lo")), plan_set("line2", "sens", Some("lo")));
    assert_eq!(plan_input_get("mic1", "GAIN"), plan_input_get("mic1", "gain"));
    assert_eq!(plan_input_set("mic2", "Pad", "on"), plan_input_set("mic2", "pad", "on"));
}

#[test]
fn inputs_accept_what_the_help_lists() {
    for ch in ["mic1", "mic2", "line1", "line2"] {
        let listed = available_controls(ch);
        assert!(input_gain_control(ch).is_ok());
        assert_eq!(phantom_control(ch).is_ok(), listed.contains("phantom"));
        assert_eq!(pad_control(ch).is_ok(), listed.contains("pad"));
        assert_eq!(sensitivity_control(ch).is_ok(), listed.contains("sensitivity"));
    }
}

#[test]
fn sensitivity_names_read_back() {
    for v in ["high", "HI", "+4dBu", "low", "Lo", "-10dBV"] {
        let s = parse_sensitivity_value(v).unwrap();
        assert_eq!(parse_sensitivity_value(s), Ok(s));
    }
}

#[test]
fn switch_words_read_back_through_set() {
    for b in [true, false] {
        assert_eq!(parse_switch_value(switch_word(b)), Ok(b));
    }
}
