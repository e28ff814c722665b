//! Decimal integers: reading them as `str::parse::<i32>` does, and writing them.
use vstd::prelude::*;

verus! {

/// Why a text is not an `i32`, with the kinds that `std::num::IntErrorKind` names.
#[derive(Clone, Copy, Debug, PartialEq, Eq, Structural)]
pub enum IntError {
    /// The text is empty.
    Empty,
    /// A character is not a digit where one is expected.
    InvalidDigit,
    /// The value is above `i32::MAX`.
    PosOverflow,
    /// The value is below `i32::MIN`.
    NegOverflow,
}

pub open spec fn is_ascii_digit(c: char) -> bool {
    48 <= (c as u32) <= 57
}

pub open spec fn digit_value(c: char) -> int {
    (c as u32) - 48
}

/// Reads the digits `d` after the value `acc` read so far, negated when `neg`.
pub open spec fn accumulate(d: Seq<char>, acc: int, neg: bool) -> Result<int, IntError>
    decreases d.len(),
{
    if d.len() == 0 {
        Ok(acc)
    } else if !is_ascii_digit(d[0]) {
        Err(IntError::InvalidDigit)
    } else {
        let next = if neg {
            acc * 10 - digit_value(d[0])
        } else {
            acc * 10 + digit_value(d[0])
        };
        if next > i32::MAX {
            Err(IntError::PosOverflow)
        } else if next < i32::MIN {
            Err(IntError::NegOverflow)
        } else {
            accumulate(d.drop_first(), next, neg)
        }
    }
}

/// What `str::parse::<i32>` gives for `s`: an optional sign, then one or more
/// ASCII digits, the value within `i32`.
pub open spec fn parse_int(s: Seq<char>) -> Result<int, IntError> {
    if s.len() == 0 {
        Err(IntError::Empty)
    } else if (s[0] == '+' || s[0] == '-') && s.len() == 1 {
        Err(IntError::InvalidDigit)
    } else if s[0] == '+' {
        accumulate(s.drop_first(), 0, false)
    } else if s[0] == '-' {
        accumulate(s.drop_first(), 0, true)
    } else {
        accumulate(s, 0, false)
    }
}

/// A text that reads as an integer reads as one within `i32`.
pub proof fn lemma_parse_int_in_range(s: Seq<char>)
    ensures
        parse_int(s) matches Ok(v) ==> i32::MIN <= v <= i32::MAX,
{
    if s.len() > 0 {
        lemma_accumulate_in_range(s.drop_first(), 0, false);
        lemma_accumulate_in_range(s.drop_first(), 0, true);
        lemma_accumulate_in_range(s, 0, false);
    }
}

proof fn lemma_accumulate_in_range(d: Seq<char>, acc: int, neg: bool)
    requires
        i32::MIN <= acc <= i32::MAX,
    ensures
        accumulate(d, acc, neg) matches Ok(v) ==> i32::MIN <= v <= i32::MAX,
    decreases d.len(),
{
    if d.len() > 0 && is_ascii_digit(d[0]) {
        let next = if neg {
            acc * 10 - digit_value(d[0])
        } else {
            acc * 10 + digit_value(d[0])
        };
        if i32::MIN <= next <= i32::MAX {
            lemma_accumulate_in_range(d.drop_first(), next, neg);
        }
    }
}

/// Reads `s` as a decimal `i32`.
pub fn parse_i32(s: &str) -> (r: Result<i32, IntError>)
    ensures
        r matches Ok(v) ==> parse_int(s@) == Ok::<int, IntError>(v as int),
        r matches Err(e) ==> parse_int(s@) == Err::<int, IntError>(e),
{
    let n = s.unicode_len();
    if n == 0 {
        return Err(IntError::Empty);
    }
    let first = s.get_char(0);
    if (first == '+' || first == '-') && n == 1 {
        return Err(IntError::InvalidDigit);
    }
    let neg = first == '-';
    let start: usize = if first == '+' || first == '-' {
        1
    } else {
        0
    };
    assert(s@.subrange(start as int, n as int) =~= if first == '+' || first == '-' {
        s@.drop_first()
    } else {
        s@
    });
    let mut acc: i64 = 0;
    let mut i: usize = start;
    while i < n
        invariant
            start <= i <= n,
            n == s@.len(),
            i32::MIN <= acc <= i32::MAX,
            parse_int(s@) == accumulate(s@.subrange(i as int, n as int), acc as int, neg),
        decreases n - i,
    {
        let c = s.get_char(i);
        let ghost rest = s@.subrange(i as int, n as int);
        assert(rest[0] == c);
        assert(rest.drop_first() =~= s@.subrange(i + 1, n as int));
        let u = c as u32;
        if u < 48 || u > 57 {
            return Err(IntError::InvalidDigit);
        }
        let d = (u - 48) as i64;
        let next = if neg {
            acc * 10 - d
        } else {
            acc * 10 + d
        };
        if next > i32::MAX as i64 {
            return Err(IntError::PosOverflow);
        }
        if next < i32::MIN as i64 {
            return Err(IntError::NegOverflow);
        }
        acc = next;
        i = i + 1;
    }
    assert(s@.subrange(n as int, n as int) =~= Seq::<char>::empty());
    Ok(acc as i32)
}

/// The message that `std::num::ParseIntError` displays for each kind.
pub fn int_error_message(e: IntError) -> (r: &'static str)
    ensures
        r@ == int_error_text(e),
{
    match e {
        IntError::Empty => "cannot parse integer from empty string",
        IntError::InvalidDigit => "invalid digit found in string",
        IntError::PosOverflow => "number too large to fit in target type",
        IntError::NegOverflow => "number too small to fit in target type",
    }
}

pub open spec fn int_error_text(e: IntError) -> Seq<char> {
    match e {
        IntError::Empty => "cannot parse integer from empty string"@,
        IntError::InvalidDigit => "invalid digit found in string"@,
        IntError::PosOverflow => "number too large to fit in target type"@,
        IntError::NegOverflow => "number too small to fit in target type"@,
    }
}

/// The character of the decimal digit `d`.
pub open spec fn digit_char(d: int) -> char {
    seq!['0', '1', '2', '3', '4', '5', '6', '7', '8', '9'][d]
}

/// The decimal digits of `n`, without leading zeros.
pub open spec fn nat_text(n: nat) -> Seq<char>
    decreases n,
{
    if n < 10 {
        seq![digit_char(n as int)]
    } else {
        nat_text(n / 10).push(digit_char((n % 10) as int))
    }
}

/// `n` as `Display` writes an integer.
pub open spec fn int_text(n: int) -> Seq<char> {
    if n < 0 {
        seq!['-'] + nat_text((-n) as nat)
    } else {
        nat_text(n as nat)
    }
}

fn digit_str(d: u64) -> (r: &'static str)
    requires
        d < 10,
    ensures
        r@ == seq![digit_char(d as int)],
{
    let all = "0123456789";
    proof {
        reveal_strlit("0123456789");
    }
    let r = all.substring_char(d as usize, (d + 1) as usize);
    assert(r@ =~= seq![digit_char(d as int)]);
    r
}

fn append_nat(out: &mut String, n: u64)
    ensures
        final(out)@ == old(out)@ + nat_text(n as nat),
    decreases n,
{
    if n >= 10 {
        append_nat(out, n / 10);
    }
    out.append(digit_str(n % 10));
    assert(old(out)@ + nat_text(n as nat) =~= if n >= 10 {
        old(out)@ + nat_text((n / 10) as nat) + seq![digit_char((n % 10) as int)]
    } else {
        old(out)@ + seq![digit_char((n % 10) as int)]
    });
}

/// Writes `n` in decimal, as `n.to_string()` does.
pub fn int_to_text(n: i32) -> (r: String)
    ensures
        r@ == int_text(n as int),
{
    let mut out = String::new();
    if n < 0 {
        out.append("-");
        proof {
            reveal_strlit("-");
        }
        let m: i64 = -(n as i64);
        append_nat(&mut out, m as u64);
        assert(out@ =~= int_text(n as int));
    } else {
        append_nat(&mut out, n as u64);
        assert(out@ =~= int_text(n as int));
    }
    out
}

/// Half of `n` as `Display` writes the float `n / 2.0`: the integer part, and
/// `.5` when `n` is odd.
pub open spec fn half_text(n: int) -> Seq<char> {
    if n % 2 == 0 {
        int_text(n / 2)
    } else if n < 0 {
        seq!['-'] + nat_text(((-n) / 2) as nat) + ".5"@
    } else {
        nat_text((n / 2) as nat) + ".5"@
    }
}

/// Writes half of `n`, as the float `n as f64 / 2.0` is displayed.
pub fn half_to_text(n: i32) -> (r: String)
    ensures
        r@ == half_text(n as int),
{
    if n % 2 == 0 {
        int_to_text(n / 2)
    } else {
        let mut out = String::new();
        let m: i64 = n as i64;
        if m < 0 {
            out.append("-");
            append_nat(&mut out, ((-m) / 2) as u64);
        } else {
            append_nat(&mut out, (m / 2) as u64);
        }
        out.append(".5");
        proof {
            reveal_strlit("-");
        }
        assert(out@ =~= half_text(n as int));
        out
    }
}

} // verus!
