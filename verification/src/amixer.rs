//! The `amixer` tool's command lines and what its output says, and the search
//! for the Babyface Pro among the sound cards.
use vstd::prelude::*;
use crate::command::opt_text;
use crate::controls::res_view;
use crate::number::{int_error_message, int_error_text, int_text, int_to_text, parse_i32, parse_int};
use crate::text::{
    cat, contains, find_from, has_infix, has_prefix, index_of, lines,
    lines_of, starts_with, strip_back, strip_front, trim, trim_end_matching,
    trim_start_matching, trimmed, CharClass,
};

verus! {

/// What an `amixer` run gave back: whether it exited successfully, and the
/// bytes it wrote to standard output and standard error.
pub struct AmixerOutput {
    pub success: bool,
    pub stdout: Vec<u8>,
    pub stderr: Vec<u8>,
}

/// The text that `String::from_utf8_lossy` makes of `bytes`.
pub uninterp spec fn lossy_text(bytes: Seq<u8>) -> Seq<char>;

/// Calls `String::from_utf8_lossy`. Trusted: the result is the named text of the
/// bytes, and, as its documentation says, valid UTF-8 is decoded unchanged; how
/// invalid sequences become U+FFFD is not stated.
#[verifier::external_body]
fn decode_lossy(bytes: &[u8]) -> (r: String)
    ensures
        r@ == lossy_text(bytes@),
        vstd::utf8::valid_utf8(bytes@) ==> r@ == vstd::utf8::decode_utf8(bytes@),
{
    String::from_utf8_lossy(bytes).into_owned()
}

/// The text of capture group `group` in the first match of the regular
/// expression `pattern` in `haystack`; `None` when the pattern does not compile,
/// nothing matches, or the group took no part in the match.
pub uninterp spec fn regex_capture(pattern: Seq<char>, haystack: Seq<char>, group: nat) -> Option<
    Seq<char>,
>;

/// Calls `regex::Regex::new` on `pattern`, then `Regex::captures` on `haystack`
/// and `Captures::get` for `group`. Trusted: the result is the named capture of
/// these arguments; the regular expression semantics are not stated.
#[verifier::external_body]
fn first_capture(pattern: &str, haystack: &str, group: usize) -> (r: Option<String>)
    ensures
        r matches Some(s) ==> regex_capture(pattern@, haystack@, group as nat) == Some(s@),
        r is None ==> regex_capture(pattern@, haystack@, group as nat) is None,
{
    let re = match regex::Regex::new(pattern) {
        Ok(re) => re,
        Err(_) => return None,
    };
    match re.captures(haystack) {
        Some(caps) => match caps.get(group) {
            Some(m) => Some(m.as_str().to_string()),
            None => None,
        },
        None => None,
    }
}

/// A line `Mono: 42` or `Mono: Playback 42`; its second group is the number.
pub const VOLUME_PATTERN: &'static str = r"(?m)^\s*Mono:( Playback)? (\d+)";

/// The volume that `amixer get` output shows, from the digits that the volume
/// pattern captured in it, or why none can be read.
pub open spec fn volume_from_capture_spec(output: Seq<char>, capture: Option<Seq<char>>) -> Result<
    i32,
    Seq<char>,
> {
    match capture {
        None => Err("Could not parse volume from amixer output:\n"@ + output),
        Some(d) => match parse_int(d) {
            Ok(v) => Ok(v as i32),
            Err(e) => Err("Failed to parse volume: "@ + int_error_text(e)),
        },
    }
}

/// The volume that `amixer get` output shows, or why none can be read.
pub open spec fn volume_spec(output: Seq<char>) -> Result<i32, Seq<char>> {
    volume_from_capture_spec(output, regex_capture(VOLUME_PATTERN@, output, 2))
}

/// Reads the volume from the digits that the volume pattern captured in
/// `amixer get` output (`None` where it did not match).
pub fn volume_from_capture(output: &str, capture: Option<&str>) -> (r: Result<i32, String>)
    ensures
        res_view(r) == volume_from_capture_spec(output@, opt_text(capture)),
{
    match capture {
        None => Err(cat("Could not parse volume from amixer output:\n", output)),
        Some(d) => match parse_i32(d) {
            Ok(v) => Ok(v),
            Err(e) => Err(cat("Failed to parse volume: ", int_error_message(e))),
        },
    }
}

/// Reads the volume from the text of `amixer get` output.
pub fn parse_value_from_amixer_output(output: &str) -> (r: Result<i32, String>)
    ensures
        res_view(r) == volume_spec(output@),
{
    match first_capture(VOLUME_PATTERN, output, 2) {
        None => volume_from_capture(output, None),
        Some(d) => volume_from_capture(output, Some(d.as_str())),
    }
}

/// The state that the first line holding `Mono:` shows: on when it holds `[on]`.
pub open spec fn switch_in_lines(ls: Seq<Seq<char>>) -> Option<bool>
    decreases ls.len(),
{
    if ls.len() == 0 {
        None
    } else if has_infix(ls[0], "Mono:"@) {
        Some(has_infix(ls[0], "[on]"@))
    } else {
        switch_in_lines(ls.drop_first())
    }
}

/// The switch state that `amixer get` output shows, or why none can be read.
pub open spec fn switch_spec(output: Seq<char>, control: Seq<char>) -> Result<bool, Seq<char>> {
    match switch_in_lines(lines_of(output)) {
        Some(b) => Ok(b),
        None => Err("Could not parse switch state for '"@ + control + "'"@),
    }
}

/// Reads an on/off state from the text of `amixer get` output.
pub fn parse_switch_state(output: &str, control: &str) -> (r: Result<bool, String>)
    ensures
        res_view(r) == switch_spec(output@, control@),
{
    let ls = lines(output);
    let ghost all = lines_of(output@);
    let mut i: usize = 0;
    assert(all.skip(0) =~= all);
    while i < ls.len()
        invariant
            i <= ls.len(),
            ls.deep_view() == all,
            all == lines_of(output@),
            switch_in_lines(all) == switch_in_lines(all.skip(i as int)),
        decreases ls.len() - i,
    {
        assert(ls[i as int]@ == all[i as int]);
        assert(all.skip(i as int).drop_first() =~= all.skip(i + 1));
        assert(all.skip(i as int)[0] == all[i as int]);
        let l = ls[i].as_str();
        assert(l@ == all.skip(i as int)[0]);
        if contains(l, "Mono:") {
            let on = contains(l, "[on]");
            assert(switch_in_lines(all.skip(i as int)) == Some(on));
            return Ok(on);
        }
        i = i + 1;
    }
    assert(all.skip(i as int) =~= Seq::<Seq<char>>::empty());
    let mut e = cat("Could not parse switch state for '", control);
    e.append("'");
    Err(e)
}

/// What `split(sep).nth(1)` gives, empty where there is no second field.
pub open spec fn second_field(l: Seq<char>, sep: char) -> Seq<char> {
    let i = index_of(l, CharClass::Only(sep));
    if i >= l.len() {
        Seq::empty()
    } else {
        let rest = l.skip(i + 1);
        rest.take(index_of(rest, CharClass::Only(sep)))
    }
}

/// The setting on an `Item0: '+4dBu'` line: the second `:` field, trimmed,
/// without the quotes around it.
pub open spec fn item_value(l: Seq<char>) -> Seq<char> {
    let q = CharClass::Only('\'');
    strip_back(strip_front(trimmed(second_field(l, ':')), q), q)
}

/// The setting that the first line starting (after white space) with `Item0:` shows.
pub open spec fn item_in_lines(ls: Seq<Seq<char>>) -> Option<Seq<char>>
    decreases ls.len(),
{
    if ls.len() == 0 {
        None
    } else if has_prefix(strip_front(ls[0], CharClass::Space), "Item0:"@) {
        Some(item_value(ls[0]))
    } else {
        item_in_lines(ls.drop_first())
    }
}

/// The sensitivity that `amixer get` output shows, or why none can be read.
pub open spec fn sensitivity_spec(output: Seq<char>, control: Seq<char>) -> Result<
    Seq<char>,
    Seq<char>,
> {
    match item_in_lines(lines_of(output)) {
        Some(s) => Ok(s),
        None => Err("Could not parse sensitivity for '"@ + control + "'"@),
    }
}

/// Takes the second `:` field of a line.
fn second_field_of(l: &str) -> (r: &str)
    ensures
        r@ == second_field(l@, ':'),
{
    let n = l.unicode_len();
    let i = find_from(l, CharClass::Only(':'), 0);
    assert(l@.subrange(0, n as int) =~= l@);
    proof {
        crate::text::lemma_index_of(l@, CharClass::Only(':'));
    }
    if i >= n {
        let e = l.substring_char(n, n);
        assert(e@ =~= Seq::<char>::empty());
        return e;
    }
    let j = find_from(l, CharClass::Only(':'), i + 1);
    assert(l@.skip(i + 1) =~= l@.subrange(i + 1, n as int));
    proof {
        crate::text::lemma_index_of(l@.skip(i + 1), CharClass::Only(':'));
    }
    let r = l.substring_char(i + 1, j);
    assert(r@ =~= l@.skip(i + 1).take(index_of(l@.skip(i + 1), CharClass::Only(':'))));
    r
}

/// Reads the sensitivity setting from the text of `amixer get` output.
pub fn parse_sensitivity(output: &str, control: &str) -> (r: Result<String, String>)
    ensures
        res_view(r) == sensitivity_spec(output@, control@),
{
    let ls = lines(output);
    let ghost all = lines_of(output@);
    let mut i: usize = 0;
    assert(all.skip(0) =~= all);
    while i < ls.len()
        invariant
            i <= ls.len(),
            ls.deep_view() == all,
            all == lines_of(output@),
            item_in_lines(all) == item_in_lines(all.skip(i as int)),
        decreases ls.len() - i,
    {
        assert(ls[i as int]@ == all[i as int]);
        assert(all.skip(i as int).drop_first() =~= all.skip(i + 1));
        assert(all.skip(i as int)[0] == all[i as int]);
        let l = ls[i].as_str();
        if starts_with(trim_start_matching(l, CharClass::Space), "Item0:") {
            let field = trim(second_field_of(l));
            let q = CharClass::Only('\'');
            let v = trim_end_matching(trim_start_matching(field, q), q);
            assert(l@ == all.skip(i as int)[0]);
            assert(item_in_lines(all.skip(i as int)) == Some(v@));
            return Ok(String::from_str(v));
        }
        i = i + 1;
    }
    assert(all.skip(i as int) =~= Seq::<Seq<char>>::empty());
    let mut e = cat("Could not parse sensitivity for '", control);
    e.append("'");
    Err(e)
}

/// The outcome of an `amixer` run: its standard output's text when it
/// succeeded, else its standard error's text.
pub open spec fn run_text(out: AmixerOutput) -> Result<Seq<char>, Seq<char>> {
    if out.success {
        Ok(lossy_text(out.stdout@))
    } else {
        Err(lossy_text(out.stderr@))
    }
}

/// The volume that an `amixer get` run reports.
pub fn volume_from_output(out: &AmixerOutput) -> (r: Result<i32, String>)
    ensures
        res_view(r) == match run_text(*out) {
            Ok(t) => volume_spec(t),
            Err(e) => Err(e),
        },
{
    if out.success {
        let t = decode_lossy(out.stdout.as_slice());
        parse_value_from_amixer_output(t.as_str())
    } else {
        Err(decode_lossy(out.stderr.as_slice()))
    }
}

/// The switch state that an `amixer get` run reports.
pub fn switch_from_output(out: &AmixerOutput, control: &str) -> (r: Result<bool, String>)
    ensures
        res_view(r) == match run_text(*out) {
            Ok(t) => switch_spec(t, control@),
            Err(e) => Err(e),
        },
{
    if out.success {
        let t = decode_lossy(out.stdout.as_slice());
        parse_switch_state(t.as_str(), control)
    } else {
        Err(decode_lossy(out.stderr.as_slice()))
    }
}

/// The sensitivity that an `amixer get` run reports.
pub fn sensitivity_from_output(out: &AmixerOutput, control: &str) -> (r: Result<String, String>)
    ensures
        res_view(r) == match run_text(*out) {
            Ok(t) => sensitivity_spec(t, control@),
            Err(e) => Err(e),
        },
{
    if out.success {
        let t = decode_lossy(out.stdout.as_slice());
        parse_sensitivity(t.as_str(), control)
    } else {
        Err(decode_lossy(out.stderr.as_slice()))
    }
}

/// Whether an `amixer set` run succeeded, with its error text when not.
pub fn status_from_output(out: &AmixerOutput) -> (r: Result<(), String>)
    ensures
        out.success ==> r is Ok,
        !out.success ==> (r matches Err(e) && e@ == lossy_text(out.stderr@)),
{
    if out.success {
        Ok(())
    } else {
        Err(decode_lossy(out.stderr.as_slice()))
    }
}

fn text_list(parts: &[&str]) -> (r: Vec<String>)
    ensures
        r.deep_view() == parts@.map_values(|p: &str| p@),
{
    let mut r: Vec<String> = Vec::new();
    let mut i: usize = 0;
    while i < parts.len()
        invariant
            i <= parts@.len(),
            r.len() == i,
            forall|k: int| 0 <= k < i ==> (#[trigger] r[k])@ == parts@[k]@,
        decreases parts@.len() - i,
    {
        r.push(String::from_str(parts[i]));
        i = i + 1;
    }
    assert(r.deep_view() =~= parts@.map_values(|p: &str| p@));
    r
}

/// The arguments of `amixer -c <card> get <control>`.
pub fn get_args(card: &str, control: &str) -> (r: Vec<String>)
    ensures
        r.deep_view() == seq!["-c"@, card@, "get"@, control@],
{
    let parts = ["-c", card, "get", control];
    let r = text_list(&parts);
    assert(r.deep_view() =~= seq!["-c"@, card@, "get"@, control@]);
    r
}

/// The arguments of `amixer -c <card> set <control> <volume>`.
pub fn set_volume_args(card: &str, control: &str, volume: i32) -> (r: Vec<String>)
    ensures
        r.deep_view() == seq!["-c"@, card@, "set"@, control@, int_text(volume as int)],
{
    let v = int_to_text(volume);
    let parts = ["-c", card, "set", control, v.as_str()];
    let r = text_list(&parts);
    assert(r.deep_view() =~= seq!["-c"@, card@, "set"@, control@, int_text(volume as int)]);
    r
}

/// The arguments of `amixer -c <card> set <control> on|off`.
pub fn set_switch_args(card: &str, control: &str, state: bool) -> (r: Vec<String>)
    ensures
        r.deep_view() == seq!["-c"@, card@, "set"@, control@, crate::controls::switch_text(state)],
{
    let word = crate::controls::switch_word(state);
    let parts = ["-c", card, "set", control, word];
    let r = text_list(&parts);
    assert(r.deep_view() =~= seq![
        "-c"@,
        card@,
        "set"@,
        control@,
        crate::controls::switch_text(state),
    ]);
    r
}

/// The arguments of `amixer -c <card> sset <control> -- <value>`.
pub fn set_sensitivity_args(card: &str, control: &str, value: &str) -> (r: Vec<String>)
    ensures
        r.deep_view() == seq!["-c"@, card@, "sset"@, control@, "--"@, value@],
{
    let parts = ["-c", card, "sset", control, "--", value];
    let r = text_list(&parts);
    assert(r.deep_view() =~= seq!["-c"@, card@, "sset"@, control@, "--"@, value@]);
    r
}

} // verus!
