//! Character-level text handling used to read `amixer` and `/proc` output.
//!
//! Every function here works on the `Seq<char>` view of a `str` and is proved
//! against a spec function that says what the result is.
use vstd::prelude::*;

verus! {

/// Unicode `White_Space` code points, the set that `char::is_whitespace` tests.
pub open spec fn is_space(c: char) -> bool {
    let u = c as u32;
    ||| 0x09 <= u <= 0x0D
    ||| u == 0x20
    ||| u == 0x85
    ||| u == 0xA0
    ||| u == 0x1680
    ||| 0x2000 <= u <= 0x200A
    ||| u == 0x2028
    ||| u == 0x2029
    ||| u == 0x202F
    ||| u == 0x205F
    ||| u == 0x3000
}

/// Tests whether `c` is Unicode white space.
pub fn is_space_char(c: char) -> (r: bool)
    ensures
        r == is_space(c),
{
    let u = c as u32;
    (0x09 <= u && u <= 0x0D) || u == 0x20 || u == 0x85 || u == 0xA0 || u == 0x1680 || (0x2000
        <= u && u <= 0x200A) || u == 0x2028 || u == 0x2029 || u == 0x202F || u == 0x205F || u
        == 0x3000
}

/// A set of characters that trimming and searching stop at or skip over.
#[derive(Clone, Copy, PartialEq, Eq, Structural)]
pub enum CharClass {
    /// Unicode white space.
    Space,
    /// Exactly this character.
    Only(char),
}

pub open spec fn in_class(k: CharClass, c: char) -> bool {
    match k {
        CharClass::Space => is_space(c),
        CharClass::Only(x) => c == x,
    }
}

/// Tests whether `c` belongs to the class `k`.
pub fn class_has(k: CharClass, c: char) -> (r: bool)
    ensures
        r == in_class(k, c),
{
    match k {
        CharClass::Space => is_space_char(c),
        CharClass::Only(x) => c == x,
    }
}

/// `s` without the characters of class `k` at its front.
pub open spec fn strip_front(s: Seq<char>, k: CharClass) -> Seq<char>
    decreases s.len(),
{
    if s.len() > 0 && in_class(k, s[0]) {
        strip_front(s.drop_first(), k)
    } else {
        s
    }
}

/// `s` without the characters of class `k` at its end.
pub open spec fn strip_back(s: Seq<char>, k: CharClass) -> Seq<char>
    decreases s.len(),
{
    if s.len() > 0 && in_class(k, s.last()) {
        strip_back(s.drop_last(), k)
    } else {
        s
    }
}

/// `s` without white space at either end (what `str::trim` gives).
pub open spec fn trimmed(s: Seq<char>) -> Seq<char> {
    strip_back(strip_front(s, CharClass::Space), CharClass::Space)
}

/// Removes the leading characters of class `k`.
pub fn trim_start_matching<'a>(s: &'a str, k: CharClass) -> (r: &'a str)
    ensures
        r@ == strip_front(s@, k),
{
    let n = s.unicode_len();
    let mut i: usize = 0;
    assert(s@.subrange(0, n as int) =~= s@);
    while i < n && class_has(k, s.get_char(i))
        invariant
            i <= n,
            n == s@.len(),
            strip_front(s@, k) == strip_front(s@.subrange(i as int, n as int), k),
        decreases n - i,
    {
        assert(s@.subrange(i as int, n as int).drop_first() =~= s@.subrange(i + 1, n as int));
        i = i + 1;
    }
    s.substring_char(i, n)
}

/// Removes the trailing characters of class `k`.
pub fn trim_end_matching<'a>(s: &'a str, k: CharClass) -> (r: &'a str)
    ensures
        r@ == strip_back(s@, k),
{
    let n = s.unicode_len();
    let mut j: usize = n;
    assert(s@.subrange(0, n as int) =~= s@);
    while j > 0 && class_has(k, s.get_char(j - 1))
        invariant
            j <= n,
            n == s@.len(),
            strip_back(s@, k) == strip_back(s@.subrange(0, j as int), k),
        decreases j,
    {
        assert(s@.subrange(0, j as int).drop_last() =~= s@.subrange(0, j - 1));
        j = j - 1;
    }
    s.substring_char(0, j)
}

/// Removes white space at both ends.
pub fn trim<'a>(s: &'a str) -> (r: &'a str)
    ensures
        r@ == trimmed(s@),
{
    let front = trim_start_matching(s, CharClass::Space);
    trim_end_matching(front, CharClass::Space)
}

/// Position of the first character of class `k` in `s`, or `s.len()` if none.
pub open spec fn index_of(s: Seq<char>, k: CharClass) -> int
    decreases s.len(),
{
    if s.len() == 0 {
        0
    } else if in_class(k, s[0]) {
        0
    } else {
        1 + index_of(s.drop_first(), k)
    }
}

pub proof fn lemma_index_of(s: Seq<char>, k: CharClass)
    ensures
        0 <= index_of(s, k) <= s.len(),
        index_of(s, k) < s.len() ==> in_class(k, s[index_of(s, k)]),
        forall|j: int| 0 <= j < index_of(s, k) ==> !in_class(k, #[trigger] s[j]),
    decreases s.len(),
{
    if s.len() > 0 && !in_class(k, s[0]) {
        lemma_index_of(s.drop_first(), k);
        assert forall|j: int| 0 <= j < index_of(s, k) implies !in_class(k, #[trigger] s[j]) by {
            if j > 0 {
                assert(s[j] == s.drop_first()[j - 1]);
            }
        }
    }
}

/// Position of the first character of class `k` at or after `start`, or `s@.len()`.
pub fn find_from(s: &str, k: CharClass, start: usize) -> (r: usize)
    requires
        start <= s@.len(),
    ensures
        r == start + index_of(s@.subrange(start as int, s@.len() as int), k),
        start <= r <= s@.len(),
{
    let n = s.unicode_len();
    let mut i: usize = start;
    while i < n && !class_has(k, s.get_char(i))
        invariant
            start <= i <= n,
            n == s@.len(),
            index_of(s@.subrange(start as int, n as int), k) == (i - start) + index_of(
                s@.subrange(i as int, n as int),
                k,
            ),
        decreases n - i,
    {
        assert(s@.subrange(i as int, n as int).drop_first() =~= s@.subrange(i + 1, n as int));
        i = i + 1;
    }
    i
}

/// `l` without one carriage return at its end.
pub open spec fn strip_cr(l: Seq<char>) -> Seq<char> {
    if l.len() > 0 && l.last() == '\r' {
        l.drop_last()
    } else {
        l
    }
}

/// The lines of `s` as `str::lines` yields them: split at `\n`, with a `\r` just
/// before a `\n` removed, and no empty line after a final `\n`.
pub open spec fn lines_of(s: Seq<char>) -> Seq<Seq<char>>
    decreases s.len(),
{
    if s.len() == 0 {
        Seq::empty()
    } else {
        let i = index_of(s, CharClass::Only('\n'));
        proof {
            lemma_index_of(s, CharClass::Only('\n'));
        }
        if i >= s.len() {
            seq![s]
        } else {
            seq![strip_cr(s.take(i))] + lines_of(s.skip(i + 1))
        }
    }
}

/// Splits `s` into lines.
pub fn lines(s: &str) -> (r: Vec<String>)
    ensures
        r.len() == lines_of(s@).len(),
        forall|k: int| 0 <= k < r.len() ==> (#[trigger] r[k])@ == lines_of(s@)[k],
        r.deep_view() == lines_of(s@),
{
    let n = s.unicode_len();
    let mut out: Vec<String> = Vec::new();
    let mut start: usize = 0;
    let ghost mut got: Seq<Seq<char>> = Seq::empty();
    assert(s@.subrange(0, n as int) =~= s@);
    while start < n
        invariant
            start <= n,
            n == s@.len(),
            out.len() == got.len(),
            forall|k: int| 0 <= k < out.len() ==> (#[trigger] out[k])@ == got[k],
            lines_of(s@) == got + lines_of(s@.subrange(start as int, n as int)),
        decreases n - start,
    {
        let ghost rest = s@.subrange(start as int, n as int);
        let j = find_from(s, CharClass::Only('\n'), start);
        proof {
            lemma_index_of(rest, CharClass::Only('\n'));
        }
        if j == n {
            let piece = String::from_str(s.substring_char(start, n));
            proof {
                assert(lines_of(rest) == seq![rest]);
                assert(got + seq![rest] =~= got.push(rest));
                got = got.push(rest);
                assert(s@.subrange(n as int, n as int) =~= Seq::<char>::empty());
                assert(got + Seq::<Seq<char>>::empty() =~= got);
            }
            out.push(piece);
            start = n;
        } else {
            let i = (j - start) as usize;
            let mut end = j;
            if j > start && s.get_char(j - 1) == '\r' {
                end = j - 1;
            }
            let piece = String::from_str(s.substring_char(start, end));
            proof {
                assert(rest.take(i as int) =~= s@.subrange(start as int, j as int));
                assert(rest.skip(i + 1) =~= s@.subrange(j + 1, n as int));
                assert(piece@ =~= strip_cr(rest.take(i as int)));
                let l = strip_cr(rest.take(i as int));
                assert(lines_of(rest) == seq![l] + lines_of(s@.subrange(j + 1, n as int)));
                assert(got + (seq![l] + lines_of(s@.subrange(j + 1, n as int))) =~= got.push(l)
                    + lines_of(s@.subrange(j + 1, n as int)));
                got = got.push(l);
            }
            out.push(piece);
            start = j + 1;
        }
    }
    assert(s@.subrange(n as int, n as int) =~= Seq::<char>::empty());
    assert(got + Seq::<Seq<char>>::empty() =~= got);
    assert(out.deep_view() =~= got);
    out
}

/// The first white-space separated word of `l`, as `split_whitespace().next()` gives it.
pub open spec fn first_word(l: Seq<char>) -> Option<Seq<char>> {
    let t = strip_front(l, CharClass::Space);
    if t.len() == 0 {
        None
    } else {
        Some(t.take(index_of(t, CharClass::Space)))
    }
}

/// Returns the first white-space separated word of `l`, if any.
pub fn first_word_of(l: &str) -> (r: Option<String>)
    ensures
        r matches Some(w) ==> first_word(l@) == Some(w@),
        r is None ==> first_word(l@) is None,
{
    let t = trim_start_matching(l, CharClass::Space);
    let n = t.unicode_len();
    if n == 0 {
        None
    } else {
        let j = find_from(t, CharClass::Space, 0);
        assert(t@.subrange(0, n as int) =~= t@);
        proof {
            lemma_index_of(t@, CharClass::Space);
        }
        let w = String::from_str(t.substring_char(0, j));
        assert(w@ =~= t@.take(index_of(t@, CharClass::Space)));
        Some(w)
    }
}

/// `p` is a prefix of `s`.
pub open spec fn has_prefix(s: Seq<char>, p: Seq<char>) -> bool {
    p.len() <= s.len() && s.take(p.len() as int) == p
}

/// Tests whether `s` starts with `p`.
pub fn starts_with(s: &str, p: &str) -> (r: bool)
    ensures
        r == has_prefix(s@, p@),
{
    let n = s.unicode_len();
    let m = p.unicode_len();
    if m > n {
        return false;
    }
    let mut i: usize = 0;
    while i < m
        invariant
            i <= m <= n,
            n == s@.len(),
            m == p@.len(),
            forall|k: int| 0 <= k < i ==> s@[k] == p@[k],
        decreases m - i,
    {
        if s.get_char(i) != p.get_char(i) {
            assert(s@.take(m as int)[i as int] != p@[i as int]);
            return false;
        }
        i = i + 1;
    }
    assert(s@.take(m as int) =~= p@);
    true
}

/// Tests whether `a` and `b` hold the same characters.
pub fn same_text(a: &str, b: &str) -> (r: bool)
    ensures
        r == (a@ == b@),
{
    if a.unicode_len() != b.unicode_len() {
        return false;
    }
    let r = starts_with(a, b);
    assert(a@.take(b@.len() as int) =~= a@);
    r
}

/// `p` occurs in `s` at position `i`.
pub open spec fn occurs_at(s: Seq<char>, p: Seq<char>, i: int) -> bool {
    0 <= i && i + p.len() <= s.len() && s.subrange(i, i + p.len()) == p
}

/// `p` occurs somewhere in `s`.
pub open spec fn has_infix(s: Seq<char>, p: Seq<char>) -> bool {
    exists|i: int| occurs_at(s, p, i)
}

/// Tests whether `p` occurs in `s`.
pub fn contains(s: &str, p: &str) -> (r: bool)
    ensures
        r == has_infix(s@, p@),
{
    let n = s.unicode_len();
    let m = p.unicode_len();
    if m > n {
        assert forall|i: int| !occurs_at(s@, p@, i) by {}
        return false;
    }
    let last = n - m;
    let mut i: usize = 0;
    while i <= last
        invariant
            m <= n,
            last == n - m,
            i <= last + 1,
            n == s@.len(),
            m == p@.len(),
            forall|j: int| 0 <= j < i ==> !occurs_at(s@, p@, j),
        decreases last + 1 - i,
    {
        let hit = starts_with(s.substring_char(i, n), p);
        assert(s@.subrange(i as int, n as int).take(m as int) =~= s@.subrange(
            i as int,
            i + m,
        ));
        if hit {
            assert(occurs_at(s@, p@, i as int));
            return true;
        }
        if i == last {
            assert forall|j: int| !occurs_at(s@, p@, j) by {
                if 0 <= j < i {
                }
            }
            return false;
        }
        i = i + 1;
    }
    assert forall|j: int| !occurs_at(s@, p@, j) by {
        if 0 <= j < i {
        }
    }
    false
}

/// `s` with every `,` turned into `.`.
pub open spec fn comma_to_point(s: Seq<char>) -> Seq<char> {
    Seq::new(s.len(), |k: int| if s[k] == ',' { '.' } else { s[k] })
}

/// Turns every decimal comma of `s` into a decimal point.
pub fn decimal_point(s: &str) -> (r: String)
    ensures
        r@ == comma_to_point(s@),
{
    let n = s.unicode_len();
    let mut out = String::new();
    let mut i: usize = 0;
    proof {
        reveal_strlit(".");
    }
    while i < n
        invariant
            i <= n,
            n == s@.len(),
            out@.len() == i,
            forall|k: int| 0 <= k < i ==> out@[k] == (if s@[k] == ',' { '.' } else { s@[k] }),
            "."@ == seq!['.'],
        decreases n - i,
    {
        if s.get_char(i) == ',' {
            out.append(".");
        } else {
            out.append(s.substring_char(i, i + 1));
        }
        i = i + 1;
    }
    assert(out@ =~= comma_to_point(s@));
    out
}

/// The text that `str::to_lowercase` gives for `s`: each character replaced by
/// its Unicode lowercase mapping, except that a capital sigma is mapped by its
/// context (final or not in a word).
pub uninterp spec fn lowercase(s: Seq<char>) -> Seq<char>;

/// Every character is ASCII.
pub open spec fn is_ascii_text(s: Seq<char>) -> bool {
    forall|i: int| 0 <= i < s.len() ==> (#[trigger] s[i] as u32) < 128
}

/// `c` with an ASCII capital letter made small.
pub open spec fn ascii_lower(c: char) -> char {
    if 65 <= (c as u32) <= 90 {
        ((c as u32) + 32) as char
    } else {
        c
    }
}

/// `s` with its ASCII capital letters made small.
pub open spec fn ascii_lowercase(s: Seq<char>) -> Seq<char> {
    Seq::new(s.len(), |i: int| ascii_lower(s[i]))
}

/// The lowercase of `s`: for ASCII text, its capital letters made small;
/// otherwise the text that `str::to_lowercase` gives.
pub open spec fn lowercase_text(s: Seq<char>) -> Seq<char> {
    if is_ascii_text(s) {
        ascii_lowercase(s)
    } else {
        lowercase(s)
    }
}

/// Calls `str::to_lowercase`. Trusted: its result is the named lowercase of the
/// argument, and on ASCII text it maps `A`-`Z` to `a`-`z` and keeps every other
/// character, as the Unicode lowercase mapping of ASCII does (the documentation
/// of `char::to_ascii_lowercase` points to `str::to_lowercase` for lowercasing
/// ASCII characters together with non-ASCII ones). The Unicode tables for other
/// characters are not stated here.
#[verifier::external_body]
pub(crate) fn to_lowercase(s: &str) -> (r: String)
    ensures
        r@ == lowercase(s@),
        is_ascii_text(s@) ==> r@ == ascii_lowercase(s@),
{
    s.to_lowercase()
}

/// The text of `a` followed by that of `b`.
pub fn cat(a: &str, b: &str) -> (r: String)
    ensures
        r@ == a@ + b@,
{
    let mut r = String::from_str(a);
    r.append(b);
    r
}

} // verus!
