//! The Babyface Pro's ALSA controls, which channel has which, and how values for
//! them are read from the user's words.
use vstd::prelude::*;
use crate::text::{cat, lowercase_text, has_prefix, same_text, starts_with, to_lowercase};

verus! {

pub const MAIN_OUT_LEFT: &'static str = "Main-Out AN1";

pub const MAIN_OUT_RIGHT: &'static str = "Main-Out AN2";

pub const HEADPHONES_LEFT: &'static str = "Main-Out PH3";

pub const HEADPHONES_RIGHT: &'static str = "Main-Out PH4";

pub const MIC1_GAIN: &'static str = "Mic-AN1 Gain";

pub const MIC1_PHANTOM: &'static str = "Mic-AN1 48V";

pub const MIC1_PAD: &'static str = "Mic-AN1 PAD";

pub const MIC2_GAIN: &'static str = "Mic-AN2 Gain";

pub const MIC2_PHANTOM: &'static str = "Mic-AN2 48V";

pub const MIC2_PAD: &'static str = "Mic-AN2 PAD";

pub const LINE1_GAIN: &'static str = "Line-IN3 Gain";

pub const LINE1_SENS: &'static str = "Line-IN3 Sens.";

pub const LINE2_GAIN: &'static str = "Line-IN4 Gain";

pub const LINE2_SENS: &'static str = "Line-IN4 Sens.";

pub const SENS_HIGH: &'static str = "+4dBu";

pub const SENS_LOW: &'static str = "-10dBV";

/// A result with its text taken by view.
pub open spec fn res_view<T: View>(r: Result<T, String>) -> Result<T::V, Seq<char>> {
    match r {
        Ok(t) => Ok(t@),
        Err(e) => Err(e@),
    }
}

/// The channel is one of the mic inputs.
pub open spec fn is_mic(ch: Seq<char>) -> bool {
    ch == "mic1"@ || ch == "mic2"@
}

/// The channel is one of the line inputs.
pub open spec fn is_line_input(ch: Seq<char>) -> bool {
    ch == "line1"@ || ch == "line2"@
}

/// The controls that the help lists for a channel.
pub open spec fn available_controls_text(ch: Seq<char>) -> Seq<char> {
    if is_mic(ch) {
        "gain, phantom, pad"@
    } else if is_line_input(ch) {
        "gain, sensitivity"@
    } else {
        "gain"@
    }
}

/// Lists the controls of an input channel, for help and error messages.
pub fn available_controls(channel: &str) -> (r: &'static str)
    ensures
        r@ == available_controls_text(channel@),
{
    if same_text(channel, "mic1") || same_text(channel, "mic2") {
        "gain, phantom, pad"
    } else if same_text(channel, "line1") || same_text(channel, "line2") {
        "gain, sensitivity"
    } else {
        "gain"
    }
}

/// The gain control of an input channel.
pub open spec fn gain_control_spec(ch: Seq<char>) -> Result<Seq<char>, Seq<char>> {
    if ch == "mic1"@ {
        Ok(MIC1_GAIN@)
    } else if ch == "mic2"@ {
        Ok(MIC2_GAIN@)
    } else if ch == "line1"@ {
        Ok(LINE1_GAIN@)
    } else if ch == "line2"@ {
        Ok(LINE2_GAIN@)
    } else {
        Err("Unknown input channel: "@ + ch)
    }
}

/// Names the ALSA gain control of an input channel.
pub fn input_gain_control(channel: &str) -> (r: Result<&'static str, String>)
    ensures
        res_view(r) == gain_control_spec(channel@),
{
    if same_text(channel, "mic1") {
        Ok(MIC1_GAIN)
    } else if same_text(channel, "mic2") {
        Ok(MIC2_GAIN)
    } else if same_text(channel, "line1") {
        Ok(LINE1_GAIN)
    } else if same_text(channel, "line2") {
        Ok(LINE2_GAIN)
    } else {
        Err(cat("Unknown input channel: ", channel))
    }
}

/// The message for a control that the channel does not have.
pub open spec fn not_available_text(control: Seq<char>, ch: Seq<char>) -> Seq<char> {
    "'"@ + control + "' is not available for '"@ + ch + "'"@
}

fn not_available(control: &str, channel: &str) -> (r: String)
    ensures
        r@ == not_available_text(control@, channel@),
{
    let mut r = cat("'", control);
    r.append("' is not available for '");
    r.append(channel);
    r.append("'");
    r
}

/// The 48V phantom power switch of an input channel.
pub open spec fn phantom_control_spec(ch: Seq<char>) -> Result<Seq<char>, Seq<char>> {
    if ch == "mic1"@ {
        Ok(MIC1_PHANTOM@)
    } else if ch == "mic2"@ {
        Ok(MIC2_PHANTOM@)
    } else {
        Err(not_available_text("phantom"@, ch))
    }
}

/// Names the ALSA phantom power switch of a mic channel.
pub fn phantom_control(channel: &str) -> (r: Result<&'static str, String>)
    ensures
        res_view(r) == phantom_control_spec(channel@),
{
    if same_text(channel, "mic1") {
        Ok(MIC1_PHANTOM)
    } else if same_text(channel, "mic2") {
        Ok(MIC2_PHANTOM)
    } else {
        Err(not_available("phantom", channel))
    }
}

/// The pad switch of an input channel.
pub open spec fn pad_control_spec(ch: Seq<char>) -> Result<Seq<char>, Seq<char>> {
    if ch == "mic1"@ {
        Ok(MIC1_PAD@)
    } else if ch == "mic2"@ {
        Ok(MIC2_PAD@)
    } else {
        Err(not_available_text("pad"@, ch))
    }
}

/// Names the ALSA pad switch of a mic channel.
pub fn pad_control(channel: &str) -> (r: Result<&'static str, String>)
    ensures
        res_view(r) == pad_control_spec(channel@),
{
    if same_text(channel, "mic1") {
        Ok(MIC1_PAD)
    } else if same_text(channel, "mic2") {
        Ok(MIC2_PAD)
    } else {
        Err(not_available("pad", channel))
    }
}

/// The sensitivity control of an input channel.
pub open spec fn sensitivity_control_spec(ch: Seq<char>) -> Result<Seq<char>, Seq<char>> {
    if ch == "line1"@ {
        Ok(LINE1_SENS@)
    } else if ch == "line2"@ {
        Ok(LINE2_SENS@)
    } else {
        Err(not_available_text("sensitivity"@, ch))
    }
}

/// Names the ALSA sensitivity control of a line channel.
pub fn sensitivity_control(channel: &str) -> (r: Result<&'static str, String>)
    ensures
        res_view(r) == sensitivity_control_spec(channel@),
{
    if same_text(channel, "line1") {
        Ok(LINE1_SENS)
    } else if same_text(channel, "line2") {
        Ok(LINE2_SENS)
    } else {
        Err(not_available("sensitivity", channel))
    }
}

/// What a lowercased switch word means.
pub open spec fn switch_meaning(w: Seq<char>) -> Option<bool> {
    if w == "on"@ || w == "1"@ || w == "true"@ || w == "yes"@ {
        Some(true)
    } else if w == "off"@ || w == "0"@ || w == "false"@ || w == "no"@ {
        Some(false)
    } else {
        None
    }
}

/// Reads a lowercased switch word.
pub fn switch_state(word: &str) -> (r: Option<bool>)
    ensures
        r == switch_meaning(word@),
{
    if same_text(word, "on") || same_text(word, "1") || same_text(word, "true") || same_text(
        word,
        "yes",
    ) {
        Some(true)
    } else if same_text(word, "off") || same_text(word, "0") || same_text(word, "false")
        || same_text(word, "no") {
        Some(false)
    } else {
        None
    }
}

pub open spec fn switch_value_spec(value: Seq<char>) -> Result<bool, Seq<char>> {
    match switch_meaning(lowercase_text(value)) {
        Some(b) => Ok(b),
        None => Err("Invalid switch value '"@ + value + "'. Use: on, off"@),
    }
}

/// Reads an on/off value, in any letter case.
pub fn parse_switch_value(value: &str) -> (r: Result<bool, String>)
    ensures
        res_view(r) == switch_value_spec(value@),
{
    let lower = to_lowercase(value);
    match switch_state(lower.as_str()) {
        Some(b) => Ok(b),
        None => {
            let mut e = cat("Invalid switch value '", value);
            e.append("'. Use: on, off");
            Err(e)
        },
    }
}

/// The word that shows a switch state.
pub open spec fn switch_text(state: bool) -> Seq<char> {
    if state {
        "on"@
    } else {
        "off"@
    }
}

/// Shows a switch state as `on` or `off`.
pub fn switch_word(state: bool) -> (r: &'static str)
    ensures
        r@ == switch_text(state),
{
    if state {
        "on"
    } else {
        "off"
    }
}

/// What a lowercased sensitivity word means.
pub open spec fn sensitivity_meaning(w: Seq<char>) -> Option<Seq<char>> {
    if w == "+4dbu"@ || w == "high"@ || w == "hi"@ {
        Some(SENS_HIGH@)
    } else if w == "-10dbv"@ || w == "low"@ || w == "lo"@ {
        Some(SENS_LOW@)
    } else {
        None
    }
}

/// Reads a lowercased sensitivity word.
pub fn sensitivity_setting(word: &str) -> (r: Option<&'static str>)
    ensures
        r matches Some(s) ==> sensitivity_meaning(word@) == Some(s@),
        r is None ==> sensitivity_meaning(word@) is None,
{
    if same_text(word, "+4dbu") || same_text(word, "high") || same_text(word, "hi") {
        Some(SENS_HIGH)
    } else if same_text(word, "-10dbv") || same_text(word, "low") || same_text(word, "lo") {
        Some(SENS_LOW)
    } else {
        None
    }
}

pub open spec fn sensitivity_value_spec(value: Seq<char>) -> Result<Seq<char>, Seq<char>> {
    match sensitivity_meaning(lowercase_text(value)) {
        Some(s) => Ok(s),
        None => Err("Invalid sensitivity '"@ + value + "'. Use: +4dBu/high or -10dBV/low"@),
    }
}

/// Reads a line input sensitivity, in any letter case.
pub fn parse_sensitivity_value(value: &str) -> (r: Result<&'static str, String>)
    ensures
        res_view(r) == sensitivity_value_spec(value@),
{
    let lower = to_lowercase(value);
    match sensitivity_setting(lower.as_str()) {
        Some(s) => Ok(s),
        None => {
            let mut e = cat("Invalid sensitivity '", value);
            e.append("'. Use: +4dBu/high or -10dBV/low");
            Err(e)
        },
    }
}

/// Line inputs take gain in half dB steps; all other inputs in whole dB.
pub open spec fn is_line(ch: Seq<char>) -> bool {
    has_prefix(ch, "line"@)
}

/// Tells whether a channel's gain is counted in half dB steps.
pub fn is_line_channel(channel: &str) -> (r: bool)
    ensures
        r == is_line(channel@),
{
    starts_with(channel, "line")
}

/// The largest gain in ALSA steps: 9 dB in half steps for a line input, 65 dB
/// in whole steps for a mic input.
pub open spec fn max_gain_steps(half_steps: bool) -> int {
    if half_steps {
        18
    } else {
        65
    }
}

/// A gain out of range for its input.
#[derive(Clone, Copy, Debug, PartialEq, Eq, Structural)]
pub enum GainError {
    /// A line gain outside 0 to 9 dB.
    LineOutOfRange,
    /// A mic gain outside 0 to 65 dB.
    MicOutOfRange,
}

/// Accepts a gain, already rounded to ALSA steps (half dB steps when
/// `half_steps`, as on the line inputs), when it lies within the input's range.
pub fn parse_gain(steps: i32, half_steps: bool) -> (r: Result<i32, GainError>)
    ensures
        0 <= steps <= max_gain_steps(half_steps) ==> r == Ok::<i32, GainError>(steps),
        !(0 <= steps <= max_gain_steps(half_steps)) ==> r == Err::<i32, GainError>(
            if half_steps {
                GainError::LineOutOfRange
            } else {
                GainError::MicOutOfRange
            },
        ),
        half_steps ==> (r is Ok <==> 0 <= steps <= 18),
        !half_steps ==> (r is Ok <==> 0 <= steps <= 65),
        r matches Ok(g) ==> g == steps,
{
    if half_steps {
        if steps < 0 || steps > 18 {
            return Err(GainError::LineOutOfRange);
        }
        Ok(steps)
    } else {
        if steps < 0 || steps > 65 {
            return Err(GainError::MicOutOfRange);
        }
        Ok(steps)
    }
}

/// The output controls whose volume an input gain change upsets, in the order
/// they are restored.
pub fn outputs_to_restore() -> (r: Vec<&'static str>)
    ensures
        r@ == seq![MAIN_OUT_LEFT, MAIN_OUT_RIGHT, HEADPHONES_LEFT, HEADPHONES_RIGHT],
{
    let mut r = Vec::new();
    r.push(MAIN_OUT_LEFT);
    r.push(MAIN_OUT_RIGHT);
    r.push(HEADPHONES_LEFT);
    r.push(HEADPHONES_RIGHT);
    assert(r@ =~= seq![MAIN_OUT_LEFT, MAIN_OUT_RIGHT, HEADPHONES_LEFT, HEADPHONES_RIGHT]);
    r
}

/// The write that comes before restoring a volume: one step down, or one step
/// up from zero.
pub open spec fn nudge_of(raw: int) -> int {
    if raw > 0 {
        raw - 1
    } else {
        1
    }
}

/// The values to write to an output control whose volume reads `raw`, so that
/// the hardware latches it again after an input gain change: a one-step nudge,
/// then `raw` itself.
pub fn nudge_volume(raw: i32) -> (writes: Vec<i32>)
    ensures
        writes@ == seq![nudge_of(raw as int) as i32, raw],
        writes@.last() == raw,
        writes@[0] != raw,
        raw >= 0 ==> (writes@[0] == raw - 1 || writes@[0] == raw + 1),
{
    let nudge = if raw > 0 {
        raw - 1
    } else {
        1
    };
    let mut writes = Vec::new();
    writes.push(nudge);
    writes.push(raw);
    writes
}

} // verus!
