//! Properties of the library as a whole, stated over the spec functions that
//! the contracts of its functions use.
use vstd::prelude::*;
use crate::command::{
    channel_kind, get_plan_spec, input_read_spec, input_write_spec, param_kind, set_plan_spec,
    volume_after, volume_change_spec, GetPlan, InputRead, InputWrite, SetPlan, VolumeChange,
};
use crate::cards::{babyface_among, card_list, is_babyface_entry};
use crate::text::{ascii_lowercase, is_ascii_text, lowercase_text};
use crate::controls::{
    available_controls_text, gain_control_spec, pad_control_spec, phantom_control_spec,
    sensitivity_control_spec, sensitivity_value_spec, switch_meaning, switch_text,
    switch_value_spec, is_line, is_line_input, SENS_HIGH, SENS_LOW, LINE1_GAIN, LINE1_SENS,
    LINE2_GAIN, LINE2_SENS, MIC1_GAIN, MIC1_PAD, MIC1_PHANTOM, MIC2_GAIN, MIC2_PAD, MIC2_PHANTOM,
};
use crate::text::{first_word, has_prefix, is_space, strip_back, strip_front, trimmed, CharClass};
use crate::number::{accumulate, digit_char, digit_value, int_text, is_ascii_digit, nat_text, parse_int};

verus! {

/// Whatever volume value `set` accepts for an output, the volume it sets lies
/// within 0 to 100 percent, from any current volume.
pub proof fn lemma_set_volume_in_range(value: Seq<char>, current: int)
    ensures
        volume_change_spec(value) matches Ok(c) ==> 0 <= volume_after(current, c) <= 100,
{
}

/// A relative volume change starts from the volume of the control that `get`
/// reads for the same channel name: `set` changes the pair whose left control
/// `get` shows.
pub proof fn lemma_get_and_set_share_output(
    channel: Seq<char>,
    param: Option<Seq<char>>,
    param_or_value: Seq<char>,
    value: Option<Seq<char>>,
)
    ensures
        get_plan_spec(channel, param) matches Ok(GetPlan::Output { control }) ==> (
        set_plan_spec(channel, param_or_value, value) matches Ok(
            SetPlan::Output { left, right, change },
        ) ==> left == control),
        (get_plan_spec(channel, param) matches Ok(GetPlan::Output { control })) ==> !(
        set_plan_spec(channel, param_or_value, value) matches Ok(SetPlan::Input(_))),
{
}

/// Channel names are read without regard to letter case: two names with the
/// same lowercase form, of a channel that exists, plan the same `get` and `set`.
pub proof fn lemma_channel_names_ignore_case(
    c1: Seq<char>,
    c2: Seq<char>,
    param: Option<Seq<char>>,
    param_or_value: Seq<char>,
    value: Option<Seq<char>>,
)
    requires
        lowercase_text(c1) == lowercase_text(c2),
        channel_kind(lowercase_text(c1)) is Some,
    ensures
        get_plan_spec(c1, param) == get_plan_spec(c2, param),
        set_plan_spec(c1, param_or_value, value) == set_plan_spec(c2, param_or_value, value),
{
}

/// Parameter names are read without regard to letter case: two names with the
/// same lowercase form, of a parameter that exists, plan the same read and the
/// same write on any input channel.
pub proof fn lemma_param_names_ignore_case(
    ch: Seq<char>,
    p1: Seq<char>,
    p2: Seq<char>,
    value: Seq<char>,
)
    requires
        lowercase_text(p1) == lowercase_text(p2),
        param_kind(lowercase_text(p1)) is Some,
    ensures
        input_read_spec(ch, p1) == input_read_spec(ch, p2),
        input_write_spec(ch, p1, value) == input_write_spec(ch, p2, value),
{
}

/// Each input channel accepts exactly the parameters that the help lists for
/// it: gain on every input, phantom and pad on the mic inputs, sensitivity on
/// the line inputs.
pub proof fn lemma_inputs_accept_listed_params(ch: Seq<char>)
    requires
        ch == "mic1"@ || ch == "mic2"@ || ch == "line1"@ || ch == "line2"@,
    ensures
        gain_control_spec(ch) is Ok,
        phantom_control_spec(ch) is Ok <==> available_controls_text(ch) == "gain, phantom, pad"@,
        pad_control_spec(ch) is Ok <==> available_controls_text(ch) == "gain, phantom, pad"@,
        sensitivity_control_spec(ch) is Ok <==> available_controls_text(ch)
            == "gain, sensitivity"@,
{
    reveal_strlit("mic1");
    reveal_strlit("mic2");
    reveal_strlit("line1");
    reveal_strlit("line2");
    reveal_strlit("gain, phantom, pad");
    reveal_strlit("gain, sensitivity");
    assert("gain, phantom, pad"@[6] != "gain, sensitivity"@[6]);
    assert("mic1"@.len() != "line1"@.len());
    assert("mic1"@.len() != "line2"@.len());
    assert("mic2"@.len() != "line1"@.len());
    assert("mic2"@.len() != "line2"@.len());
}

/// The word that shows a switch state reads back as that state, both as a
/// lowercased word and as a value given to `set`.
pub proof fn lemma_switch_word_reads_back(state: bool)
    ensures
        switch_meaning(switch_text(state)) == Some(state),
        switch_value_spec(switch_text(state)) == Ok::<bool, Seq<char>>(state),
{
    reveal_strlit("on");
    reveal_strlit("off");
    assert(is_ascii_text("on"@));
    assert(is_ascii_text("off"@));
    assert(ascii_lowercase("on"@) =~= "on"@);
    assert(ascii_lowercase("off"@) =~= "off"@);
    reveal_strlit("1");
    reveal_strlit("true");
    reveal_strlit("yes");
    if !state {
        assert("off"@.len() == 3);
        assert("off"@ != "on"@);
        assert("off"@ != "true"@);
        assert("off"@ != "1"@);
        assert("off"@[0] != "yes"@[0]);
    }
}

proof fn lemma_digit_char(d: int)
    requires
        0 <= d < 10,
    ensures
        is_ascii_digit(digit_char(d)),
        digit_value(digit_char(d)) == d,
{
    let ds = seq!['0', '1', '2', '3', '4', '5', '6', '7', '8', '9'];
    assert(digit_char(d) == ds[d]);
    if d == 0 {
    } else if d == 1 {
    } else if d == 2 {
    } else if d == 3 {
    } else if d == 4 {
    } else if d == 5 {
    } else if d == 6 {
    } else if d == 7 {
    } else if d == 8 {
    } else {
    }
}

proof fn lemma_nat_text_digits(m: nat)
    ensures
        nat_text(m).len() >= 1,
        forall|i: int| 0 <= i < nat_text(m).len() ==> is_ascii_digit(#[trigger] nat_text(m)[i]),
    decreases m,
{
    if m < 10 {
        lemma_digit_char(m as int);
    } else {
        lemma_nat_text_digits(m / 10);
        lemma_digit_char((m % 10) as int);
    }
}

proof fn lemma_accumulate_push(s: Seq<char>, c: char, acc: int, v: int, neg: bool)
    requires
        accumulate(s, acc, neg) == Ok::<int, crate::number::IntError>(v),
    ensures
        accumulate(s.push(c), acc, neg) == accumulate(seq![c], v, neg),
    decreases s.len(),
{
    if s.len() == 0 {
        assert(s.push(c) =~= seq![c]);
    } else {
        let next = if neg {
            acc * 10 - digit_value(s[0])
        } else {
            acc * 10 + digit_value(s[0])
        };
        assert(s.push(c).drop_first() =~= s.drop_first().push(c));
        assert(s.push(c)[0] == s[0]);
        lemma_accumulate_push(s.drop_first(), c, next, v, neg);
    }
}

proof fn lemma_nat_text_value(m: nat, neg: bool)
    requires
        neg ==> m <= 2147483648,
        !neg ==> m <= 2147483647,
    ensures
        accumulate(nat_text(m), 0, neg) == Ok::<int, crate::number::IntError>(
            if neg {
                -m
            } else {
                m as int
            },
        ),
    decreases m,
{
    if m < 10 {
        lemma_digit_char(m as int);
        let s = nat_text(m);
        assert(s.drop_first() =~= Seq::<char>::empty());
        let next = if neg {
            -m
        } else {
            m as int
        };
        assert(accumulate(Seq::<char>::empty(), next, neg) == Ok::<int, crate::number::IntError>(next));
        assert(accumulate(s, 0, neg) == accumulate(s.drop_first(), next, neg));
    } else {
        let q = m / 10;
        let d = (m % 10) as int;
        assert(q * 10 + d == m) by (nonlinear_arith)
            requires
                q == m / 10,
                d == m % 10,
        ;
        lemma_nat_text_value(q, neg);
        lemma_digit_char(d);
        let v = if neg {
            -q
        } else {
            q as int
        };
        lemma_accumulate_push(nat_text(q), digit_char(d), 0, v, neg);
        let t = seq![digit_char(d)];
        assert(t.drop_first() =~= Seq::<char>::empty());
        let next = if neg {
            -m
        } else {
            m as int
        };
        assert(accumulate(Seq::<char>::empty(), next, neg) == Ok::<int, crate::number::IntError>(next));
        assert(accumulate(t, v, neg) == accumulate(t.drop_first(), next, neg));
    }
}

/// The decimal text that the library writes for an `i32` (as in the volume it
/// hands to `amixer set`) reads back as the same number.
pub proof fn lemma_int_text_reads_back(n: int)
    requires
        i32::MIN <= n <= i32::MAX,
    ensures
        parse_int(int_text(n)) == Ok::<int, crate::number::IntError>(n),
{
    if n >= 0 {
        lemma_nat_text_digits(n as nat);
        lemma_nat_text_value(n as nat, false);
        assert(is_ascii_digit(nat_text(n as nat)[0]));
    } else {
        let m = (-n) as nat;
        lemma_nat_text_digits(m);
        lemma_nat_text_value(m, true);
        assert(int_text(n).drop_first() =~= nat_text(m));
    }
}

/// The sensitivity setting that `set` reads from a value is the control's own
/// item name, and that name, given to `set` in turn, reads back as itself.
pub proof fn lemma_sensitivity_reads_back(value: Seq<char>)
    ensures
        sensitivity_value_spec(value) matches Ok(s) ==> sensitivity_value_spec(s) == Ok::<
            Seq<char>,
            Seq<char>,
        >(s),
{
    reveal_strlit("+4dBu");
    reveal_strlit("-10dBV");
    reveal_strlit("+4dbu");
    reveal_strlit("-10dbv");
    reveal_strlit("high");
    reveal_strlit("hi");
    assert(SENS_HIGH@ == "+4dBu"@);
    assert(SENS_LOW@ == "-10dBV"@);
    assert(is_ascii_text(SENS_HIGH@));
    assert(is_ascii_text(SENS_LOW@));
    assert(ascii_lowercase(SENS_HIGH@) =~= "+4dbu"@);
    assert(ascii_lowercase(SENS_LOW@) =~= "-10dbv"@);
    assert("-10dbv"@[0] != "+4dbu"@[0]);
    assert("-10dbv"@.len() != "high"@.len());
    assert("-10dbv"@.len() != "hi"@.len());
}

/// A relative change moves the current volume by its amount, as long as the
/// result stays within 0 to 100; an absolute one sets the volume it names.
pub proof fn lemma_volume_change_moves_by_amount(current: int, d: i32)
    ensures
        0 <= d <= current <= 100 ==> volume_after(current, VolumeChange::Down(d)) == current - d,
        0 <= d && 0 <= current && current + d <= 100 ==> volume_after(
            current,
            VolumeChange::Up(d),
        ) == current + d,
        volume_after(current, VolumeChange::To(d)) == d,
        0 <= volume_after(current, VolumeChange::Down(d)) <= 100,
        0 <= volume_after(current, VolumeChange::Up(d)) <= 100,
        d >= 0 ==> volume_after(current, VolumeChange::Down(d)) <= volume_after(
            current,
            VolumeChange::Up(d),
        ),
        0 <= current <= 100 && d >= 0 ==> volume_after(current, VolumeChange::Down(d)) <= current
            <= volume_after(current, VolumeChange::Up(d)),
{
}

/// The card chosen is the first card, from position 0 in list order, whose
/// `usbid` names the Babyface Pro; when no card's does, none is chosen.
pub proof fn lemma_babyface_is_first_match(idx: Seq<Seq<char>>, ids: Seq<Option<Seq<char>>>)
    ensures
        forall|k: int|
            0 <= k < idx.len() && k < ids.len() && is_babyface_entry(#[trigger] ids[k]) && (forall|
                j: int,
            |
                0 <= j < k ==> !is_babyface_entry(ids[j])) ==> babyface_among(idx, ids) == Some(
                idx[k],
            ),
        (forall|k: int| 0 <= k < idx.len() && k < ids.len() ==> !is_babyface_entry(#[trigger] ids[k]))
            ==> babyface_among(idx, ids) is None,
    decreases idx.len(),
{
    if idx.len() > 0 && ids.len() > 0 {
        lemma_babyface_is_first_match(idx.drop_first(), ids.drop_first());
        assert forall|k: int|
            0 <= k < idx.len() && k < ids.len() && is_babyface_entry(#[trigger] ids[k]) && (forall|
                j: int,
            |
                0 <= j < k ==> !is_babyface_entry(ids[j])) implies babyface_among(idx, ids) == Some(
            idx[k],
        ) by {
            if k > 0 {
                assert(!is_babyface_entry(ids[0]));
                assert(ids.drop_first()[k - 1] == ids[k]);
                assert(idx.drop_first()[k - 1] == idx[k]);
                assert forall|j: int| 0 <= j < k - 1 implies !is_babyface_entry(
                    #[trigger] ids.drop_first()[j],
                ) by {
                    assert(ids.drop_first()[j] == ids[j + 1]);
                }
            }
        }
        if forall|k: int| 0 <= k < idx.len() && k < ids.len() ==> !is_babyface_entry(#[trigger] ids[k]) {
            assert(!is_babyface_entry(ids[0]));
            assert forall|k: int|
                0 <= k < idx.drop_first().len() && k < ids.drop_first().len() implies !is_babyface_entry(
                #[trigger] ids.drop_first()[k],
            ) by {
                assert(ids.drop_first()[k] == ids[k + 1]);
            }
        }
    }
}

/// Among the input channels, exactly the line inputs have a name starting with
/// `line`.
proof fn lemma_line_inputs(ch: Seq<char>)
    requires
        ch == "mic1"@ || ch == "mic2"@ || ch == "line1"@ || ch == "line2"@,
    ensures
        is_line(ch) == is_line_input(ch),
{
    reveal_strlit("mic1");
    reveal_strlit("mic2");
    reveal_strlit("line1");
    reveal_strlit("line2");
    reveal_strlit("line");
    if ch == "line1"@ {
        assert(ch.take(4) =~= "line"@);
    } else if ch == "line2"@ {
        assert(ch.take(4) =~= "line"@);
    } else {
        assert(ch.take(4)[0] != "line"@[0]);
        assert(!has_prefix(ch, "line"@));
        assert(ch.len() != "line1"@.len());
    }
}

/// A gain read or write on a line input (`line1`, `line2`) counts half dB
/// steps, and one on a mic input whole dB; the control is the channel's own
/// gain control.
pub proof fn lemma_gain_steps_follow_channel(ch: Seq<char>, param: Seq<char>, value: Seq<char>)
    ensures
        input_read_spec(ch, param) matches Ok(InputRead::Gain { control, half_steps }) ==> (
        half_steps == is_line_input(ch) && gain_control_spec(ch) == Ok::<Seq<char>, Seq<char>>(
            control,
        )),
        input_write_spec(ch, param, value) matches Ok(InputWrite::Gain { control, half_steps }) ==> (
        half_steps == is_line_input(ch) && gain_control_spec(ch) == Ok::<Seq<char>, Seq<char>>(
            control,
        )),
{
    if gain_control_spec(ch) is Ok {
        lemma_line_inputs(ch);
    }
}

/// Through `get` and `set`, a line input's gain counts half dB steps and a mic
/// input's whole dB, whatever the letter case of the names.
pub proof fn lemma_planned_gain_steps(
    channel: Seq<char>,
    param: Seq<char>,
    value: Option<Seq<char>>,
)
    ensures
        get_plan_spec(channel, Some(param)) matches Ok(
            GetPlan::Input(InputRead::Gain { control, half_steps }),
        ) ==> half_steps == is_line_input(lowercase_text(channel)),
        set_plan_spec(channel, param, value) matches Ok(
            SetPlan::Input(InputWrite::Gain { control, half_steps }),
        ) ==> half_steps == is_line_input(lowercase_text(channel)),
{
    let ch = lowercase_text(channel);
    lemma_gain_steps_follow_channel(ch, param, value.unwrap_or(Seq::empty()));
    if value is Some {
        lemma_gain_steps_follow_channel(ch, param, value.unwrap());
    }
}

/// A planned switch or sensitivity write sets what the given value reads as:
/// the switch state its word means, and the sensitivity setting it names.
pub proof fn lemma_write_sets_the_value_read(ch: Seq<char>, param: Seq<char>, value: Seq<char>)
    ensures
        input_write_spec(ch, param, value) matches Ok(InputWrite::Switch { control, state })
            ==> switch_value_spec(value) == Ok::<bool, Seq<char>>(state),
        input_write_spec(ch, param, value) matches Ok(InputWrite::Sensitivity { control, setting })
            ==> sensitivity_value_spec(value) == Ok::<Seq<char>, Seq<char>>(setting)
            && sensitivity_control_spec(ch) == Ok::<Seq<char>, Seq<char>>(control),
{
}

/// The high words (`+4dBu`, `high`, `hi`) name the `+4dBu` setting and the low
/// words (`-10dBV`, `low`, `lo`) the `-10dBV` setting, two different settings.
pub proof fn lemma_sensitivity_words(value: Seq<char>)
    ensures
        SENS_HIGH@ != SENS_LOW@,
        (lowercase_text(value) == "-10dbv"@ || lowercase_text(value) == "low"@ || lowercase_text(
            value,
        ) == "lo"@) ==> sensitivity_value_spec(value) == Ok::<Seq<char>, Seq<char>>(SENS_LOW@),
        (lowercase_text(value) == "+4dbu"@ || lowercase_text(value) == "high"@ || lowercase_text(
            value,
        ) == "hi"@) ==> sensitivity_value_spec(value) == Ok::<Seq<char>, Seq<char>>(SENS_HIGH@),
        sensitivity_value_spec(value) matches Ok(s) ==> (s == SENS_HIGH@ || s == SENS_LOW@),
{
    reveal_strlit("+4dBu");
    reveal_strlit("-10dBV");
    reveal_strlit("+4dbu");
    reveal_strlit("-10dbv");
    reveal_strlit("high");
    reveal_strlit("hi");
    reveal_strlit("low");
    reveal_strlit("lo");
    assert(SENS_HIGH@[0] != SENS_LOW@[0]);
    assert("-10dbv"@.len() != "high"@.len());
    assert("-10dbv"@.len() != "hi"@.len());
    assert("-10dbv"@[0] != "+4dbu"@[0]);
    assert("low"@.len() != "+4dbu"@.len());
    assert("low"@.len() != "hi"@.len());
    assert("low"@[1] != "high"@[1]);
    assert("lo"@.len() != "+4dbu"@.len());
    assert("lo"@.len() != "high"@.len());
    assert("lo"@[0] != "hi"@[0]);
}

/// Each input has its own controls: two channels given the same gain,
/// phantom, pad or sensitivity control are the same channel.
pub proof fn lemma_controls_belong_to_one_channel(a: Seq<char>, b: Seq<char>)
    ensures
        gain_control_spec(a) is Ok && gain_control_spec(a) == gain_control_spec(b) ==> a == b,
        phantom_control_spec(a) is Ok && phantom_control_spec(a) == phantom_control_spec(b) ==> a
            == b,
        pad_control_spec(a) is Ok && pad_control_spec(a) == pad_control_spec(b) ==> a == b,
        sensitivity_control_spec(a) is Ok && sensitivity_control_spec(a)
            == sensitivity_control_spec(b) ==> a == b,
{
    reveal_strlit("Mic-AN1 Gain");
    reveal_strlit("Mic-AN2 Gain");
    reveal_strlit("Line-IN3 Gain");
    reveal_strlit("Line-IN4 Gain");
    reveal_strlit("Mic-AN1 48V");
    reveal_strlit("Mic-AN2 48V");
    reveal_strlit("Mic-AN1 PAD");
    reveal_strlit("Mic-AN2 PAD");
    reveal_strlit("Line-IN3 Sens.");
    reveal_strlit("Line-IN4 Sens.");
    assert(MIC1_GAIN@[6] != MIC2_GAIN@[6]);
    assert(MIC1_GAIN@[0] != LINE1_GAIN@[0]);
    assert(MIC1_GAIN@[0] != LINE2_GAIN@[0]);
    assert(MIC2_GAIN@[0] != LINE1_GAIN@[0]);
    assert(MIC2_GAIN@[0] != LINE2_GAIN@[0]);
    assert(LINE1_GAIN@[7] != LINE2_GAIN@[7]);
    assert(MIC1_PHANTOM@[6] != MIC2_PHANTOM@[6]);
    assert(MIC1_PAD@[6] != MIC2_PAD@[6]);
    assert(LINE1_SENS@[7] != LINE2_SENS@[7]);
    // the messages for channels that lack a control never equal a control's name
    assert(gain_control_spec(a) is Ok && gain_control_spec(b) is Err ==> gain_control_spec(a)
        != gain_control_spec(b));
}

/// The on words (`on`, `1`, `true`, `yes`) set a switch on and the off words
/// (`off`, `0`, `false`, `no`) set it off, in any letter case; a switch is
/// shown as `on` or `off`.
pub proof fn lemma_switch_words(value: Seq<char>)
    ensures
        (lowercase_text(value) == "on"@ || lowercase_text(value) == "1"@ || lowercase_text(value)
            == "true"@ || lowercase_text(value) == "yes"@) ==> switch_value_spec(value) == Ok::<
            bool,
            Seq<char>,
        >(true),
        (lowercase_text(value) == "off"@ || lowercase_text(value) == "0"@ || lowercase_text(value)
            == "false"@ || lowercase_text(value) == "no"@) ==> switch_value_spec(value) == Ok::<
            bool,
            Seq<char>,
        >(false),
        switch_text(true) == "on"@,
        switch_text(false) == "off"@,
{
    reveal_strlit("on");
    reveal_strlit("1");
    reveal_strlit("true");
    reveal_strlit("yes");
    reveal_strlit("off");
    reveal_strlit("0");
    reveal_strlit("false");
    reveal_strlit("no");
    assert("off"@.len() != "on"@.len());
    assert("off"@.len() != "1"@.len());
    assert("off"@.len() != "true"@.len());
    assert("off"@[0] != "yes"@[0]);
    assert("0"@[0] != "1"@[0]);
    assert("0"@.len() != "on"@.len());
    assert("0"@.len() != "true"@.len());
    assert("0"@.len() != "yes"@.len());
    assert("false"@.len() != "on"@.len());
    assert("false"@.len() != "1"@.len());
    assert("false"@.len() != "true"@.len());
    assert("false"@.len() != "yes"@.len());
    assert("no"@[1] != "on"@[1]);
    assert("no"@.len() != "1"@.len());
    assert("no"@.len() != "true"@.len());
    assert("no"@.len() != "yes"@.len());
}

proof fn lemma_no_space_ends(s: Seq<char>)
    requires
        s.len() > 0,
        !is_space(s[0]),
        !is_space(s.last()),
    ensures
        trimmed(s) == s,
{
    assert(strip_front(s, CharClass::Space) == s);
    assert(strip_back(s, CharClass::Space) == s);
}

/// A volume written as a whole number reads as that absolute volume (with or
/// without `%`), and with `+` or `-` in front as a change up or down by it.
pub proof fn lemma_volume_words(n: int)
    requires
        0 <= n <= i32::MAX,
    ensures
        volume_change_spec(seq!['+'] + int_text(n)) == Ok::<VolumeChange, Seq<char>>(
            VolumeChange::Up(n as i32),
        ),
        volume_change_spec(seq!['-'] + int_text(n)) == Ok::<VolumeChange, Seq<char>>(
            VolumeChange::Down(n as i32),
        ),
        n <= 100 ==> volume_change_spec(int_text(n)) == Ok::<VolumeChange, Seq<char>>(
            VolumeChange::To(n as i32),
        ),
        n <= 100 ==> volume_change_spec(int_text(n).push('%')) == Ok::<VolumeChange, Seq<char>>(
            VolumeChange::To(n as i32),
        ),
        n > 100 ==> volume_change_spec(int_text(n)) is Err,
{
    let t = int_text(n);
    lemma_nat_text_digits(n as nat);
    lemma_int_text_reads_back(n);
    assert(t == nat_text(n as nat));
    assert(is_ascii_digit(t[0]));
    assert(is_ascii_digit(t.last()));
    let q = CharClass::Only('%');
    // a number alone
    lemma_no_space_ends(t);
    assert(strip_back(t, q) == t);
    // a number and `%`
    let tp = t.push('%');
    assert(tp[0] == t[0]);
    lemma_no_space_ends(tp);
    assert(tp.drop_last() =~= t);
    assert(strip_back(tp, q) == strip_back(t, q));
    // a sign and a number
    let up = seq!['+'] + t;
    let down = seq!['-'] + t;
    assert(up.last() == t.last());
    assert(down.last() == t.last());
    lemma_no_space_ends(up);
    lemma_no_space_ends(down);
    assert(strip_back(up, q) == up);
    assert(strip_back(down, q) == down);
    assert(up.drop_first() =~= t);
    assert(down.drop_first() =~= t);
}

/// The card numbers are the first words of lines 0, 2, 4, ... of the cards
/// file: where every line has a word, the k-th card number is the word of
/// line 2k.
pub proof fn lemma_card_list_takes_every_other_line(ls: Seq<Seq<char>>)
    requires
        forall|i: int| 0 <= i < ls.len() ==> (#[trigger] first_word(ls[i])) is Some,
    ensures
        card_list(ls).len() == (ls.len() + 1) / 2,
        forall|k: int|
            0 <= k < card_list(ls).len() ==> Some(#[trigger] card_list(ls)[k]) == first_word(
                ls[2 * k],
            ),
    decreases ls.len(),
{
    if ls.len() > 0 {
        assert(first_word(ls[0]) is Some);
        if ls.len() >= 2 {
            let rest = ls.skip(2);
            assert forall|i: int| 0 <= i < rest.len() implies (#[trigger] first_word(rest[i])) is Some by {
                assert(rest[i] == ls[i + 2]);
                assert(first_word(ls[i + 2]) is Some);
            }
            lemma_card_list_takes_every_other_line(rest);
            assert forall|k: int| 0 <= k < card_list(ls).len() implies Some(
                #[trigger] card_list(ls)[k],
            ) == first_word(ls[2 * k]) by {
                if k > 0 {
                    assert(card_list(ls)[k] == card_list(rest)[k - 1]);
                    assert(rest[2 * (k - 1)] == ls[2 * k]);
                }
            }
        }
    }
}

} // verus!
