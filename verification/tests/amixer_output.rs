use rme_cli::amixer::{
    get_args, parse_sensitivity, parse_switch_state, parse_value_from_amixer_output,
    sensitivity_from_output, volume_from_capture, set_sensitivity_args, set_switch_args, set_volume_args,
    status_from_output, switch_from_output, volume_from_output, AmixerOutput,
};
use rme_cli::cards::{card_indices, is_babyface_usb_id, select_babyface_card};

const VOLUME_OUT: &str = "Simple mixer control 'Main-Out AN1',0
  Capabilities: volume volume-joined
  Playback channels: Mono
  Limits: 0 - 65536
  Mono: 40000 [61%]
";

const PLAYBACK_OUT: &str = "Simple mixer control 'Mic-AN1 Gain',0
  Capabilities: pvolume pvolume-joined
  Playback channels: Mono
  Limits: Playback 0 - 65
  Mono: Playback 32 [49%]
";

const SWITCH_OUT: &str = "Simple mixer control 'Mic-AN1 48V',0
  Capabilities: pswitch pswitch-joined
  Playback channels: Mono
  Mono: Playback [on]
";

const SENS_OUT: &str = "Simple mixer control 'Line-IN3 Sens.',0
  Capabilities: enum
  Items: '+4dBu' '-10dBV'
  Item0: '-10dBV'
";

#[test]
fn volume_lines() {
    assert_eq!(parse_value_from_amixer_output(VOLUME_OUT), Ok(40000));
    assert_eq!(parse_value_from_amixer_output(PLAYBACK_OUT), Ok(32));
    assert_eq!(
        parse_value_from_amixer_output("nothing\n"),
        Err("Could not parse volume from amixer output:\nnothing\n".to_string())
    );
    assert_eq!(
        parse_value_from_amixer_output("  Mono: 99999999999\n"),
        Err("Failed to parse volume: number too large to fit in target type".to_string())
    );
}

#[test]
fn switch_lines() {
    assert_eq!(parse_switch_state(SWITCH_OUT, "Mic-AN1 48V"), Ok(true));
    assert_eq!(parse_switch_state("  Mono: Playback [off]\n", "x"), Ok(false));
    assert_eq!(
        parse_switch_state("Playback channels: Mono\n", "Mic-AN1 PAD"),
        Err("Could not parse switch state for 'Mic-AN1 PAD'".to_string())
    );
}

#[test]
fn sensitivity_lines() {
    assert_eq!(parse_sensitivity(SENS_OUT, "Line-IN3 Sens."), Ok("-10dBV".to_string()));
    assert_eq!(parse_sensitivity("  Item0: '+4dBu'\r\n", "c"), Ok("+4dBu".to_string()));
    assert_eq!(parse_sensitivity("Item0:\n", "c"), Ok("".to_string()));
    assert_eq!(
        parse_sensitivity("Items: 'a'\n", "Line-IN4 Sens."),
        Err("Could not parse sensitivity for 'Line-IN4 Sens.'".to_string())
    );
}

#[test]
fn run_outcomes() {
    let ok = AmixerOutput { success: true, stdout: VOLUME_OUT.as_bytes().to_vec(), stderr: vec![] };
    assert_eq!(volume_from_output(&ok), Ok(40000));
    let failed = AmixerOutput {
        success: false,
        stdout: vec![],
        stderr: b"amixer: Unable to find simple control\n".to_vec(),
    };
    assert_eq!(
        volume_from_output(&failed),
        Err("amixer: Unable to find simple control\n".to_string())
    );
    let bad_bytes = AmixerOutput { success: false, stdout: vec![], stderr: vec![b'x', 0xff] };
    assert_eq!(status_from_output(&bad_bytes), Err("x\u{fffd}".to_string()));
    let sw = AmixerOutput { success: true, stdout: SWITCH_OUT.as_bytes().to_vec(), stderr: vec![] };
    assert_eq!(switch_from_output(&sw, "Mic-AN1 48V"), Ok(true));
    let sens = AmixerOutput { success: true, stdout: SENS_OUT.as_bytes().to_vec(), stderr: vec![] };
    assert_eq!(sensitivity_from_output(&sens, "Line-IN3 Sens."), Ok("-10dBV".to_string()));
    assert_eq!(status_from_output(&ok), Ok(()));
}

#[test]
fn amixer_arguments() {
    assert_eq!(get_args("1", "Main-Out AN1"), vec!["-c", "1", "get", "Main-Out AN1"]);
    assert_eq!(
        set_volume_args("1", "Main-Out AN1", 16384),
        vec!["-c", "1", "set", "Main-Out AN1", "16384"]
    );
    assert_eq!(set_switch_args("0", "Mic-AN1 PAD", false), vec!["-c", "0", "set", "Mic-AN1 PAD", "off"]);
    assert_eq!(
        set_sensitivity_args("2", "Line-IN3 Sens.", "-10dBV"),
        vec!["-c", "2", "sset", "Line-IN3 Sens.", "--", "-10dBV"]
    );
}

const CARDS: &str = " 0 [PCH            ]: HDA-Intel - HDA Intel PCH
                      HDA Intel PCH at 0xf7f10000 irq 32
 1 [Pro            ]: USB-Audio - Babyface Pro (70794123)
                      RME Babyface Pro (70794123) at usb-0000:00:14.0-2, high speed
";

#[test]
fn card_list() {
    assert_eq!(card_indices(CARDS), vec!["0", "1"]);
    assert!(card_indices("").is_empty());
}

#[test]
fn babyface_is_found() {
    assert!(is_babyface_usb_id("2a39:3fb0\n"));
    assert!(!is_babyface_usb_id("8086:1234\n"));
    let idx = vec!["0".to_string(), "1".to_string(), "2".to_string()];
    let ids = vec![None, Some("2a39:3fb0\n".to_string()), Some("2a39:3fb0".to_string())];
    assert_eq!(select_babyface_card(&idx, &ids), Ok("1".to_string()));
    let none = vec![Some("1234:5678".to_string()), None, None];
    assert_eq!(
        select_babyface_card(&idx, &none),
        Err("No RME Babyface Pro found".to_string())
    );
}

#[test]
fn volume_from_captured_digits() {
    assert_eq!(volume_from_capture("x", Some("65536")), Ok(65536));
    assert_eq!(
        volume_from_capture("x", Some("\u{663}")),
        Err("Failed to parse volume: invalid digit found in string".to_string())
    );
    assert_eq!(
        volume_from_capture("out", None),
        Err("Could not parse volume from amixer output:\nout".to_string())
    );
}
