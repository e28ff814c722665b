//! What a `get` or `set` command asks for: the decisions of the command line,
//! taken before and between the reads and writes of ALSA controls.
use vstd::prelude::*;
use crate::controls::{
    available_controls, available_controls_text, gain_control_spec, input_gain_control,
    is_line, is_line_channel, pad_control, pad_control_spec, parse_sensitivity_value,
    parse_switch_value, phantom_control, phantom_control_spec, res_view, sensitivity_control,
    sensitivity_control_spec, sensitivity_value_spec, switch_value_spec, HEADPHONES_LEFT,
    HEADPHONES_RIGHT, MAIN_OUT_LEFT, MAIN_OUT_RIGHT, is_line_input,
};
use crate::number::{half_text, half_to_text, int_text, int_to_text, parse_i32, parse_int};
use crate::text::{
    cat, lowercase_text, same_text, strip_back, trim, trim_end_matching, trimmed, to_lowercase,
    CharClass,
};

verus! {

/// The kinds of channel that commands name.
#[derive(Clone, Copy, Debug, PartialEq, Eq, Structural)]
pub enum ChannelKind {
    /// The main outputs (left and right).
    MainOut,
    /// The headphone outputs (left and right).
    Headphones,
    /// One of the inputs `mic1`, `mic2`, `line1`, `line2`.
    Input,
}

/// The kind of channel a lowercased channel name names.
pub open spec fn channel_kind(ch: Seq<char>) -> Option<ChannelKind> {
    if ch == "main"@ || ch == "main-out"@ || ch == "speakers"@ {
        Some(ChannelKind::MainOut)
    } else if ch == "headphones"@ || ch == "hp"@ || ch == "phones"@ {
        Some(ChannelKind::Headphones)
    } else if ch == "mic1"@ || ch == "mic2"@ || ch == "line1"@ || ch == "line2"@ {
        Some(ChannelKind::Input)
    } else {
        None
    }
}

/// Tells which kind of channel a lowercased channel name names.
pub fn classify_channel(ch: &str) -> (r: Option<ChannelKind>)
    ensures
        r == channel_kind(ch@),
{
    if same_text(ch, "main") || same_text(ch, "main-out") || same_text(ch, "speakers") {
        Some(ChannelKind::MainOut)
    } else if same_text(ch, "headphones") || same_text(ch, "hp") || same_text(ch, "phones") {
        Some(ChannelKind::Headphones)
    } else if same_text(ch, "mic1") || same_text(ch, "mic2") || same_text(ch, "line1")
        || same_text(ch, "line2") {
        Some(ChannelKind::Input)
    } else {
        None
    }
}

/// The parameters of an input channel.
#[derive(Clone, Copy, Debug, PartialEq, Eq, Structural)]
pub enum InputParam {
    Gain,
    Phantom,
    Pad,
    Sensitivity,
}

/// The parameter a lowercased parameter name names.
pub open spec fn param_kind(p: Seq<char>) -> Option<InputParam> {
    if p == "gain"@ {
        Some(InputParam::Gain)
    } else if p == "phantom"@ || p == "48v"@ {
        Some(InputParam::Phantom)
    } else if p == "pad"@ {
        Some(InputParam::Pad)
    } else if p == "sensitivity"@ || p == "sens"@ {
        Some(InputParam::Sensitivity)
    } else {
        None
    }
}

/// Tells which input parameter a lowercased parameter name names.
pub fn classify_param(p: &str) -> (r: Option<InputParam>)
    ensures
        r == param_kind(p@),
{
    if same_text(p, "gain") {
        Some(InputParam::Gain)
    } else if same_text(p, "phantom") || same_text(p, "48v") {
        Some(InputParam::Phantom)
    } else if same_text(p, "pad") {
        Some(InputParam::Pad)
    } else if same_text(p, "sensitivity") || same_text(p, "sens") {
        Some(InputParam::Sensitivity)
    } else {
        None
    }
}

/// A read of an input parameter: which ALSA control to read, and how to show it.
#[derive(Debug, PartialEq, Eq)]
pub enum InputRead<N> {
    /// Read the gain; `half_steps` when the control counts half dB.
    Gain { control: N, half_steps: bool },
    /// Read an on/off switch.
    Switch { control: N },
    /// Read the line sensitivity.
    Sensitivity { control: N },
}

impl<N: View> View for InputRead<N> {
    type V = InputRead<N::V>;

    open spec fn view(&self) -> InputRead<N::V> {
        match *self {
            InputRead::Gain { control, half_steps } => InputRead::Gain {
                control: control@,
                half_steps,
            },
            InputRead::Switch { control } => InputRead::Switch { control: control@ },
            InputRead::Sensitivity { control } => InputRead::Sensitivity { control: control@ },
        }
    }
}

/// A write of an input parameter.
#[derive(Debug, PartialEq, Eq)]
pub enum InputWrite<N> {
    /// Write the gain, given in dB by the value text; `half_steps` when the
    /// control counts half dB. The dB text is read as a decimal number.
    Gain { control: N, half_steps: bool },
    /// Set an on/off switch.
    Switch { control: N, state: bool },
    /// Set the line sensitivity to one of its two settings.
    Sensitivity { control: N, setting: N },
}

impl<N: View> View for InputWrite<N> {
    type V = InputWrite<N::V>;

    open spec fn view(&self) -> InputWrite<N::V> {
        match *self {
            InputWrite::Gain { control, half_steps } => InputWrite::Gain {
                control: control@,
                half_steps,
            },
            InputWrite::Switch { control, state } => InputWrite::Switch {
                control: control@,
                state,
            },
            InputWrite::Sensitivity { control, setting } => InputWrite::Sensitivity {
                control: control@,
                setting: setting@,
            },
        }
    }
}

/// The message for a parameter that no input has.
pub open spec fn unknown_param_text(param: Seq<char>, ch: Seq<char>) -> Seq<char> {
    "Unknown control '"@ + param + "' for '"@ + ch + "'. Use: "@ + available_controls_text(ch)
}

fn unknown_param(param: &str, channel: &str) -> (r: String)
    ensures
        r@ == unknown_param_text(param@, channel@),
{
    let mut r = cat("Unknown control '", param);
    r.append("' for '");
    r.append(channel);
    r.append("'. Use: ");
    r.append(available_controls(channel));
    r
}

/// The read that `get <channel> <param>` makes on an input channel.
pub open spec fn input_read_spec(ch: Seq<char>, param: Seq<char>) -> Result<
    InputRead<Seq<char>>,
    Seq<char>,
> {
    match param_kind(lowercase_text(param)) {
        Some(InputParam::Gain) => match gain_control_spec(ch) {
            Ok(c) => Ok(InputRead::Gain { control: c, half_steps: is_line(ch) }),
            Err(e) => Err(e),
        },
        Some(InputParam::Phantom) => match phantom_control_spec(ch) {
            Ok(c) => Ok(InputRead::Switch { control: c }),
            Err(e) => Err(e),
        },
        Some(InputParam::Pad) => match pad_control_spec(ch) {
            Ok(c) => Ok(InputRead::Switch { control: c }),
            Err(e) => Err(e),
        },
        Some(InputParam::Sensitivity) => match sensitivity_control_spec(ch) {
            Ok(c) => Ok(InputRead::Sensitivity { control: c }),
            Err(e) => Err(e),
        },
        None => Err(unknown_param_text(param, ch)),
    }
}

/// Decides what to read for `get <channel> <param>` on a (lowercased) input channel.
pub fn plan_input_get(channel: &str, param: &str) -> (r: Result<InputRead<&'static str>, String>)
    ensures
        res_view(r) == input_read_spec(channel@, param@),
        r matches Ok(InputRead::Gain { half_steps, .. }) ==> half_steps == is_line_input(channel@),
{
    proof {
        crate::laws::lemma_gain_steps_follow_channel(channel@, param@, Seq::empty());
    }
    let lower = to_lowercase(param);
    match classify_param(lower.as_str()) {
        Some(InputParam::Gain) => match input_gain_control(channel) {
            Ok(c) => Ok(InputRead::Gain { control: c, half_steps: is_line_channel(channel) }),
            Err(e) => Err(e),
        },
        Some(InputParam::Phantom) => match phantom_control(channel) {
            Ok(c) => Ok(InputRead::Switch { control: c }),
            Err(e) => Err(e),
        },
        Some(InputParam::Pad) => match pad_control(channel) {
            Ok(c) => Ok(InputRead::Switch { control: c }),
            Err(e) => Err(e),
        },
        Some(InputParam::Sensitivity) => match sensitivity_control(channel) {
            Ok(c) => Ok(InputRead::Sensitivity { control: c }),
            Err(e) => Err(e),
        },
        None => Err(unknown_param(param, channel)),
    }
}

/// The write that `set <channel> <param> <value>` makes on an input channel.
pub open spec fn input_write_spec(ch: Seq<char>, param: Seq<char>, value: Seq<char>) -> Result<
    InputWrite<Seq<char>>,
    Seq<char>,
> {
    match param_kind(lowercase_text(param)) {
        Some(InputParam::Gain) => match gain_control_spec(ch) {
            Ok(c) => Ok(InputWrite::Gain { control: c, half_steps: is_line(ch) }),
            Err(e) => Err(e),
        },
        Some(InputParam::Phantom) => match phantom_control_spec(ch) {
            Ok(c) => match switch_value_spec(value) {
                Ok(b) => Ok(InputWrite::Switch { control: c, state: b }),
                Err(e) => Err(e),
            },
            Err(e) => Err(e),
        },
        Some(InputParam::Pad) => match pad_control_spec(ch) {
            Ok(c) => match switch_value_spec(value) {
                Ok(b) => Ok(InputWrite::Switch { control: c, state: b }),
                Err(e) => Err(e),
            },
            Err(e) => Err(e),
        },
        Some(InputParam::Sensitivity) => match sensitivity_control_spec(ch) {
            Ok(c) => match sensitivity_value_spec(value) {
                Ok(s) => Ok(InputWrite::Sensitivity { control: c, setting: s }),
                Err(e) => Err(e),
            },
            Err(e) => Err(e),
        },
        None => Err(unknown_param_text(param, ch)),
    }
}

/// Decides what to write for `set <channel> <param> <value>` on a (lowercased)
/// input channel. A gain's dB value is read by the caller, as a decimal number.
pub fn plan_input_set(channel: &str, param: &str, value: &str) -> (r: Result<
    InputWrite<&'static str>,
    String,
>)
    ensures
        res_view(r) == input_write_spec(channel@, param@, value@),
        r matches Ok(InputWrite::Gain { half_steps, .. }) ==> half_steps == is_line_input(channel@),
        r matches Ok(InputWrite::Switch { state, .. }) ==> switch_value_spec(value@) == Ok::<
            bool,
            Seq<char>,
        >(state),
        r matches Ok(InputWrite::Sensitivity { setting, .. }) ==> sensitivity_value_spec(value@)
            == Ok::<Seq<char>, Seq<char>>(setting@),
{
    proof {
        crate::laws::lemma_gain_steps_follow_channel(channel@, param@, value@);
        crate::laws::lemma_write_sets_the_value_read(channel@, param@, value@);
    }
    let lower = to_lowercase(param);
    match classify_param(lower.as_str()) {
        Some(InputParam::Gain) => match input_gain_control(channel) {
            Ok(c) => Ok(InputWrite::Gain { control: c, half_steps: is_line_channel(channel) }),
            Err(e) => Err(e),
        },
        Some(InputParam::Phantom) => match phantom_control(channel) {
            Ok(c) => match parse_switch_value(value) {
                Ok(b) => Ok(InputWrite::Switch { control: c, state: b }),
                Err(e) => Err(e),
            },
            Err(e) => Err(e),
        },
        Some(InputParam::Pad) => match pad_control(channel) {
            Ok(c) => match parse_switch_value(value) {
                Ok(b) => Ok(InputWrite::Switch { control: c, state: b }),
                Err(e) => Err(e),
            },
            Err(e) => Err(e),
        },
        Some(InputParam::Sensitivity) => match sensitivity_control(channel) {
            Ok(c) => match parse_sensitivity_value(value) {
                Ok(s) => Ok(InputWrite::Sensitivity { control: c, setting: s }),
                Err(e) => Err(e),
            },
            Err(e) => Err(e),
        },
        None => Err(unknown_param(param, channel)),
    }
}

/// A requested output volume, in percent.
#[derive(Clone, Copy, Debug, PartialEq, Eq, Structural)]
pub enum VolumeChange {
    /// Set to this percentage (0 to 100).
    To(i32),
    /// Raise by this many percent.
    Up(i32),
    /// Lower by this many percent.
    Down(i32),
}

/// The message for a volume that is not a whole number.
pub open spec fn whole_number_text(s: Seq<char>) -> Seq<char> {
    "Volume must be a whole number (got '"@ + s + "')"@
}

fn whole_number_error(s: &str) -> (r: String)
    ensures
        r@ == whole_number_text(s@),
{
    let mut r = cat("Volume must be a whole number (got '", s);
    r.append("')");
    r
}

/// The change that a volume value such as `75%`, `+10` or `-5%` asks for.
pub open spec fn volume_change_spec(value: Seq<char>) -> Result<VolumeChange, Seq<char>> {
    let v = strip_back(trimmed(value), CharClass::Only('%'));
    if v.len() > 0 && v[0] == '+' {
        match parse_int(v.drop_first()) {
            Ok(d) => Ok(VolumeChange::Up(d as i32)),
            Err(_) => Err(whole_number_text(v.drop_first())),
        }
    } else if v.len() > 0 && v[0] == '-' {
        match parse_int(v.drop_first()) {
            Ok(d) => Ok(VolumeChange::Down(d as i32)),
            Err(_) => Err(whole_number_text(v.drop_first())),
        }
    } else {
        match parse_int(v) {
            Ok(n) => if 0 <= n <= 100 {
                Ok(VolumeChange::To(n as i32))
            } else {
                Err("Volume must be between 0 and 100 (got "@ + int_text(n) + ")"@)
            },
            Err(_) => Err(whole_number_text(v)),
        }
    }
}

/// Reads a volume value: an absolute percentage, or a change up (`+`) or down
/// (`-`); a trailing `%` is optional.
pub fn parse_volume_change(value: &str) -> (r: Result<VolumeChange, String>)
    ensures
        r matches Ok(c) ==> volume_change_spec(value@) == Ok::<VolumeChange, Seq<char>>(c),
        r matches Err(e) ==> volume_change_spec(value@) == Err::<VolumeChange, Seq<char>>(e@),
{
    let v = trim_end_matching(trim(value), CharClass::Only('%'));
    let n = v.unicode_len();
    if n > 0 && (v.get_char(0) == '+' || v.get_char(0) == '-') {
        let up = v.get_char(0) == '+';
        let rest = v.substring_char(1, n);
        assert(rest@ =~= v@.drop_first());
        match parse_i32(rest) {
            Ok(d) => if up {
                Ok(VolumeChange::Up(d))
            } else {
                Ok(VolumeChange::Down(d))
            },
            Err(_) => Err(whole_number_error(rest)),
        }
    } else {
        match parse_i32(v) {
            Ok(x) => if x < 0 || x > 100 {
                let mut e = cat("Volume must be between 0 and 100 (got ", int_to_text(x).as_str());
                e.append(")");
                Err(e)
            } else {
                Ok(VolumeChange::To(x))
            },
            Err(_) => Err(whole_number_error(v)),
        }
    }
}

/// `v` limited to 0 to 100.
pub open spec fn clamp_percent(v: int) -> int {
    if v < 0 {
        0
    } else if v > 100 {
        100
    } else {
        v
    }
}

/// The volume after a change, from the current volume in percent.
pub open spec fn volume_after(current: int, change: VolumeChange) -> int {
    match change {
        VolumeChange::To(v) => v as int,
        VolumeChange::Up(d) => clamp_percent(current + d),
        VolumeChange::Down(d) => clamp_percent(current - d),
    }
}

/// Tells whether a change is relative to the current volume, which must then
/// be read first.
pub fn is_relative(change: VolumeChange) -> (r: bool)
    ensures
        r == !(change is To),
{
    match change {
        VolumeChange::To(_) => false,
        _ => true,
    }
}

/// The new volume in percent after a change; relative changes are summed
/// exactly and stop at 0 and 100.
pub fn apply_volume_change(current: i32, change: VolumeChange) -> (r: i32)
    ensures
        r == volume_after(current as int, change),
        change matches VolumeChange::Down(d) ==> (0 <= d <= current <= 100 ==> r == current - d),
        change matches VolumeChange::Up(d) ==> (0 <= d && 0 <= current && current + d <= 100 ==> r
            == current + d),
        change matches VolumeChange::To(v) ==> r == v,
        !(change is To) ==> 0 <= r <= 100,
{
    match change {
        VolumeChange::To(v) => v,
        VolumeChange::Up(d) => clamp_to_percent(current as i64 + d as i64),
        VolumeChange::Down(d) => clamp_to_percent(current as i64 - d as i64),
    }
}

fn clamp_to_percent(s: i64) -> (r: i32)
    ensures
        r == clamp_percent(s as int),
{
    if s < 0 {
        0
    } else if s > 100 {
        100
    } else {
        s as i32
    }
}

/// How a gain in ALSA steps is shown in dB: half the steps where the control
/// counts half dB, as the float `steps / 2.0` is displayed.
pub open spec fn gain_display(steps: int, half_steps: bool) -> Seq<char> {
    if half_steps {
        half_text(steps)
    } else {
        int_text(steps)
    }
}

/// Shows a gain in ALSA steps as dB.
pub fn gain_text(steps: i32, half_steps: bool) -> (r: String)
    ensures
        r@ == gain_display(steps as int, half_steps),
{
    if half_steps {
        half_to_text(steps)
    } else {
        int_to_text(steps)
    }
}

/// The text that shows a volume: the percentage and `%`.
pub fn percent_text(p: i32) -> (r: String)
    ensures
        r@ == int_text(p as int) + "%"@,
{
    let mut r = int_to_text(p);
    r.append("%");
    r
}

/// What `get <channel> [param]` reads.
#[derive(Debug, PartialEq, Eq)]
pub enum GetPlan<N> {
    /// Read the volume of an output pair through its left control.
    Output { control: N },
    /// Read a parameter of an input.
    Input(InputRead<N>),
}

impl<N: View> View for GetPlan<N> {
    type V = GetPlan<N::V>;

    open spec fn view(&self) -> GetPlan<N::V> {
        match *self {
            GetPlan::Output { control } => GetPlan::Output { control: control@ },
            GetPlan::Input(r) => GetPlan::Input(r@),
        }
    }
}

/// What `set <channel> <param or value> [value]` writes.
#[derive(Debug, PartialEq, Eq)]
pub enum SetPlan<N> {
    /// Change the volume of an output pair; the left control's volume is the
    /// current one.
    Output { left: N, right: N, change: VolumeChange },
    /// Write a parameter of an input.
    Input(InputWrite<N>),
}

impl<N: View> View for SetPlan<N> {
    type V = SetPlan<N::V>;

    open spec fn view(&self) -> SetPlan<N::V> {
        match *self {
            SetPlan::Output { left, right, change } => SetPlan::Output {
                left: left@,
                right: right@,
                change,
            },
            SetPlan::Input(w) => SetPlan::Input(w@),
        }
    }
}

/// The message for a channel that no command knows.
pub open spec fn unknown_channel_text(channel: Seq<char>) -> Seq<char> {
    "Unknown channel '"@ + channel + "'. Use: main, headphones, mic1, mic2, line1, line2"@
}

fn unknown_channel(channel: &str) -> (r: String)
    ensures
        r@ == unknown_channel_text(channel@),
{
    let mut r = cat("Unknown channel '", channel);
    r.append("'. Use: main, headphones, mic1, mic2, line1, line2");
    r
}

/// An optional text by view.
pub open spec fn opt_text(o: Option<&str>) -> Option<Seq<char>> {
    match o {
        Some(t) => Some(t@),
        None => None,
    }
}

/// What `get` does for a channel name and an optional parameter.
pub open spec fn get_plan_spec(channel: Seq<char>, param: Option<Seq<char>>) -> Result<
    GetPlan<Seq<char>>,
    Seq<char>,
> {
    let ch = lowercase_text(channel);
    match channel_kind(ch) {
        Some(ChannelKind::MainOut) => Ok(GetPlan::Output { control: MAIN_OUT_LEFT@ }),
        Some(ChannelKind::Headphones) => Ok(GetPlan::Output { control: HEADPHONES_LEFT@ }),
        Some(ChannelKind::Input) => match param {
            None => Err("Control required for '"@ + ch + "'. Use: "@ + available_controls_text(ch)),
            Some(p) => match input_read_spec(ch, p) {
                Ok(x) => Ok(GetPlan::Input(x)),
                Err(e) => Err(e),
            },
        },
        None => Err(unknown_channel_text(channel)),
    }
}

/// Decides what `get <channel> [param]` reads, or why it cannot.
pub fn plan_get(channel: &str, param: Option<&str>) -> (r: Result<GetPlan<&'static str>, String>)
    ensures
        res_view(r) == get_plan_spec(channel@, opt_text(param)),
{
    let lower = to_lowercase(channel);
    let ch = lower.as_str();
    match classify_channel(ch) {
        Some(ChannelKind::MainOut) => Ok(GetPlan::Output { control: MAIN_OUT_LEFT }),
        Some(ChannelKind::Headphones) => Ok(GetPlan::Output { control: HEADPHONES_LEFT }),
        Some(ChannelKind::Input) => match param {
            None => {
                let mut e = cat("Control required for '", ch);
                e.append("'. Use: ");
                e.append(available_controls(ch));
                Err(e)
            },
            Some(p) => match plan_input_get(ch, p) {
                Ok(x) => Ok(GetPlan::Input(x)),
                Err(e) => Err(e),
            },
        },
        None => Err(unknown_channel(channel)),
    }
}

/// What `set` does for a channel name, its second word and an optional value.
pub open spec fn set_plan_spec(
    channel: Seq<char>,
    param_or_value: Seq<char>,
    value: Option<Seq<char>>,
) -> Result<SetPlan<Seq<char>>, Seq<char>> {
    let ch = lowercase_text(channel);
    match channel_kind(ch) {
        Some(ChannelKind::MainOut) => match volume_change_spec(param_or_value) {
            Ok(c) => Ok(SetPlan::Output { left: MAIN_OUT_LEFT@, right: MAIN_OUT_RIGHT@, change: c }),
            Err(e) => Err(e),
        },
        Some(ChannelKind::Headphones) => match volume_change_spec(param_or_value) {
            Ok(c) => Ok(
                SetPlan::Output { left: HEADPHONES_LEFT@, right: HEADPHONES_RIGHT@, change: c },
            ),
            Err(e) => Err(e),
        },
        Some(ChannelKind::Input) => match value {
            None => Err(
                "Value required: rme-cli set "@ + ch + " "@ + param_or_value + " <value>"@,
            ),
            Some(v) => match input_write_spec(ch, param_or_value, v) {
                Ok(w) => Ok(SetPlan::Input(w)),
                Err(e) => Err(e),
            },
        },
        None => Err(unknown_channel_text(channel)),
    }
}

/// Decides what `set <channel> <param or value> [value]` writes, or why it cannot.
pub fn plan_set(channel: &str, param_or_value: &str, value: Option<&str>) -> (r: Result<
    SetPlan<&'static str>,
    String,
>)
    ensures
        res_view(r) == set_plan_spec(channel@, param_or_value@, opt_text(value)),
{
    let lower = to_lowercase(channel);
    let ch = lower.as_str();
    match classify_channel(ch) {
        Some(ChannelKind::MainOut) => match parse_volume_change(param_or_value) {
            Ok(c) => Ok(SetPlan::Output { left: MAIN_OUT_LEFT, right: MAIN_OUT_RIGHT, change: c }),
            Err(e) => Err(e),
        },
        Some(ChannelKind::Headphones) => match parse_volume_change(param_or_value) {
            Ok(c) => Ok(
                SetPlan::Output { left: HEADPHONES_LEFT, right: HEADPHONES_RIGHT, change: c },
            ),
            Err(e) => Err(e),
        },
        Some(ChannelKind::Input) => match value {
            None => {
                let mut e = cat("Value required: rme-cli set ", ch);
                e.append(" ");
                e.append(param_or_value);
                e.append(" <value>");
                Err(e)
            },
            Some(v) => match plan_input_set(ch, param_or_value, v) {
                Ok(w) => Ok(SetPlan::Input(w)),
                Err(e) => Err(e),
            },
        },
        None => Err(unknown_channel(channel)),
    }
}

} // verus!
