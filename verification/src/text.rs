//! Text helpers: the operations on `str` that the rest of the crate needs and
//! that the standard library performs.

use vstd::prelude::*;

verus! {

/// What `str::to_lowercase` returns for a text.
pub uninterp spec fn lowercase_text(s: Seq<char>) -> Seq<char>;

/// What `str::to_uppercase` returns for a text.
pub uninterp spec fn uppercase_text(s: Seq<char>) -> Seq<char>;

/// What `str::trim` returns for a text.
pub uninterp spec fn trimmed_text(s: Seq<char>) -> Seq<char>;

/// What `str::parse::<i32>` returns for a text, `None` standing for its error.
pub uninterp spec fn parsed_i32(s: Seq<char>) -> Option<i32>;

/// What `char::is_alphanumeric` returns for a character.
pub uninterp spec fn alphanumeric(c: char) -> bool;

/// What `str::parse::<i64>` returns for a text, `None` standing for its error.
pub uninterp spec fn parsed_i64(s: Seq<char>) -> Option<i64>;

/// The view of an optional text slice.
pub open spec fn opt_str(text: Option<&str>) -> Option<Seq<char>> {
    match text {
        Some(t) => Some(t@),
        None => None,
    }
}

/// Whether two texts have the same characters; told by their bytes, which
/// spell the characters one way only.
pub fn str_eq(a: &str, b: &str) -> (same: bool)
    ensures
        same == (a@ == b@),
{
    let x = a.as_bytes();
    let y = b.as_bytes();
    proof {
        vstd::utf8::encode_utf8_decode_utf8(a@);
        vstd::utf8::encode_utf8_decode_utf8(b@);
    }
    if x.len() != y.len() {
        return false;
    }
    let mut i: usize = 0;
    while i < x.len()
        invariant
            i <= x.len(),
            x.len() == y.len(),
            x@ == vstd::utf8::encode_utf8(a@),
            y@ == vstd::utf8::encode_utf8(b@),
            forall|k: int| 0 <= k < i ==> x@[k] == y@[k],
        decreases x.len() - i,
    {
        if x[i] != y[i] {
            return false;
        }
        i += 1;
    }
    assert(x@ =~= y@);
    true
}

/// The characters of the text, in order.
pub fn to_chars(s: &str) -> (chars: Vec<char>)
    ensures
        chars@ == s@,
{
    let mut chars: Vec<char> = Vec::new();
    for c in it: s.chars()
        invariant
            chars@ == it.seq().take(it.index() as int),
            it.seq() == s@,
    {
        chars.push(c);
    }
    chars
}

/// Calls `String::push`, which appends the character to the text.
#[verifier::external_body]
fn push_char(s: &mut String, c: char)
    ensures
        final(s)@ == old(s)@.push(c),
{
    s.push(c)
}

/// The text that the characters spell.
pub fn from_chars(chars: &Vec<char>) -> (s: String)
    ensures
        s@ == chars@,
{
    let mut s = String::new();
    let mut i: usize = 0;
    while i < chars.len()
        invariant
            i <= chars.len(),
            s@ == chars@.take(i as int),
        decreases chars.len() - i,
    {
        push_char(&mut s, chars[i]);
        assert(chars@.take(i + 1) =~= chars@.take(i as int).push(chars@[i as int]));
        i += 1;
    }
    assert(chars@.take(i as int) =~= chars@);
    s
}

/// Calls `str::to_lowercase`; the result is named, not described.
#[verifier::external_body]
pub(crate) fn to_lowercase(s: &str) -> (out: String)
    ensures
        out@ == lowercase_text(s@),
{
    s.to_lowercase()
}

/// Calls `str::to_uppercase`; the result is named, not described.
#[verifier::external_body]
pub(crate) fn to_uppercase(s: &str) -> (out: String)
    ensures
        out@ == uppercase_text(s@),
{
    s.to_uppercase()
}

/// Calls `str::trim`; the result is named, not described.
#[verifier::external_body]
fn trim_slice(s: &str) -> (out: &str)
    ensures
        out@ == trimmed_text(s@),
{
    s.trim()
}

/// The text without the whitespace around it.
pub fn trim(s: &str) -> (out: String)
    ensures
        out@ == trimmed_text(s@),
{
    trim_slice(s).to_string()
}

/// Calls `str::parse::<i32>` and drops the error's detail.
#[verifier::external_body]
pub(crate) fn parse_i32(s: &str) -> (out: Option<i32>)
    ensures
        out == parsed_i32(s@),
{
    s.parse::<i32>().ok()
}

/// Calls `char::is_alphanumeric`; the result is named, not described.
#[verifier::external_body]
pub(crate) fn is_alphanumeric(c: char) -> (yes: bool)
    ensures
        yes == alphanumeric(c),
{
    c.is_alphanumeric()
}

/// Calls `str::parse::<i64>` and drops the error's detail.
#[verifier::external_body]
pub(crate) fn parse_i64(s: &str) -> (out: Option<i64>)
    ensures
        out == parsed_i64(s@),
{
    s.parse::<i64>().ok()
}

/// The pattern stands in the text at position `at`.
pub open spec fn occurs_at(s: Seq<char>, pattern: Seq<char>, at: int) -> bool {
    0 <= at && at + pattern.len() <= s.len() && s.subrange(at, at + pattern.len()) == pattern
}

/// The pattern stands somewhere in the text. The empty pattern stands in
/// every text.
pub open spec fn contains_text(s: Seq<char>, pattern: Seq<char>) -> bool {
    exists|at: int| occurs_at(s, pattern, at)
}

/// The position of the last `c` among the first `upto` characters.
pub open spec fn last_index(s: Seq<char>, c: char, upto: int) -> Option<int>
    decreases upto,
{
    if upto <= 0 || upto > s.len() {
        None
    } else if s[upto - 1] == c {
        Some(upto - 1)
    } else {
        last_index(s, c, upto - 1)
    }
}

/// The position of the first `c` at or after `from`.
pub open spec fn first_index(s: Seq<char>, c: char, from: int) -> Option<int>
    decreases s.len() - from,
{
    if from < 0 || from >= s.len() {
        None
    } else if s[from] == c {
        Some(from)
    } else {
        first_index(s, c, from + 1)
    }
}

/// The position of the last `c` among the first `upto` characters.
pub fn find_last(chars: &Vec<char>, c: char, upto: usize) -> (found: Option<usize>)
    requires
        upto <= chars.len(),
    ensures
        found matches Some(at) ==> at < upto && chars@[at as int] == c,
        match found {
            Some(at) => last_index(chars@, c, upto as int) == Some(at as int),
            None => last_index(chars@, c, upto as int) is None,
        },
{
    let mut i: usize = upto;
    while i > 0
        invariant
            i <= upto <= chars.len(),
            last_index(chars@, c, upto as int) == last_index(chars@, c, i as int),
        decreases i,
    {
        if chars[i - 1] == c {
            return Some(i - 1);
        }
        i -= 1;
    }
    None
}

/// The position of the first `c` at or after `from`.
pub fn find_first(chars: &Vec<char>, c: char, from: usize) -> (found: Option<usize>)
    ensures
        found matches Some(at) ==> from <= at < chars.len() && chars@[at as int] == c,
        match found {
            Some(at) => first_index(chars@, c, from as int) == Some(at as int),
            None => first_index(chars@, c, from as int) is None,
        },
{
    let mut i: usize = from;
    while i < chars.len()
        invariant
            from <= i,
            first_index(chars@, c, from as int) == first_index(chars@, c, i as int),
        decreases chars.len() - i,
    {
        if chars[i] == c {
            return Some(i);
        }
        i += 1;
    }
    None
}

/// The characters from `from` up to `to`.
pub fn copy_range(chars: &Vec<char>, from: usize, to: usize) -> (out: Vec<char>)
    requires
        from <= to <= chars.len(),
    ensures
        out@ == chars@.subrange(from as int, to as int),
{
    let mut out: Vec<char> = Vec::new();
    let mut i: usize = from;
    while i < to
        invariant
            from <= i <= to <= chars.len(),
            out@ == chars@.subrange(from as int, i as int),
        decreases to - i,
    {
        out.push(chars[i]);
        i += 1;
    }
    out
}

/// The text without the characters `c` at its end.
pub open spec fn without_trailing(s: Seq<char>, c: char) -> Seq<char>
    decreases s.len(),
{
    if s.len() > 0 && s.last() == c {
        without_trailing(s.drop_last(), c)
    } else {
        s
    }
}

/// The text without the characters `c` at its end.
pub fn trim_end_matches(s: &str, c: char) -> (out: String)
    ensures
        out@ == without_trailing(s@, c),
{
    let chars = to_chars(s);
    let mut end: usize = chars.len();
    assert(chars@.subrange(0, end as int) =~= chars@);
    while end > 0 && chars[end - 1] == c
        invariant
            end <= chars.len(),
            without_trailing(chars@, c) == without_trailing(chars@.subrange(0, end as int), c),
        decreases end,
    {
        assert(chars@.subrange(0, end as int).drop_last() =~= chars@.subrange(0, end - 1));
        end -= 1;
    }
    let kept = copy_range(&chars, 0, end);
    from_chars(&kept)
}

/// The text of one decimal digit.
pub open spec fn digit_text(value: int) -> Seq<char> {
    if value == 0 {
        "0"@
    } else if value == 1 {
        "1"@
    } else if value == 2 {
        "2"@
    } else if value == 3 {
        "3"@
    } else if value == 4 {
        "4"@
    } else if value == 5 {
        "5"@
    } else if value == 6 {
        "6"@
    } else if value == 7 {
        "7"@
    } else if value == 8 {
        "8"@
    } else {
        "9"@
    }
}

/// A natural number in decimal, without leading zeros.
pub open spec fn decimal_text(n: nat) -> Seq<char>
    decreases n,
{
    if n < 10 {
        digit_text(n as int)
    } else {
        decimal_text(n / 10) + digit_text((n % 10) as int)
    }
}

/// One decimal digit as text.
fn digit_str(value: u64) -> (text: &'static str)
    requires
        value < 10,
    ensures
        text@ == digit_text(value as int),
{
    if value == 0 {
        "0"
    } else if value == 1 {
        "1"
    } else if value == 2 {
        "2"
    } else if value == 3 {
        "3"
    } else if value == 4 {
        "4"
    } else if value == 5 {
        "5"
    } else if value == 6 {
        "6"
    } else if value == 7 {
        "7"
    } else if value == 8 {
        "8"
    } else {
        "9"
    }
}

/// Writes a number in decimal.
pub fn to_decimal(n: u64) -> (text: String)
    ensures
        text@ == decimal_text(n as nat),
    decreases n,
{
    if n < 10 {
        digit_str(n).to_string()
    } else {
        let mut text = to_decimal(n / 10);
        text.append(digit_str(n % 10));
        text
    }
}

/// A whole number in decimal, with `-` before a negative one.
pub open spec fn signed_decimal_text(n: int) -> Seq<char> {
    if n < 0 {
        "-"@ + decimal_text((-n) as nat)
    } else {
        decimal_text(n as nat)
    }
}

/// Writes a whole number in decimal.
pub fn to_signed_decimal(n: i32) -> (text: String)
    ensures
        text@ == signed_decimal_text(n as int),
{
    if n < 0 {
        let mut text = "-".to_string();
        let magnitude: u64 = (-(n as i64)) as u64;
        text.append(to_decimal(magnitude).as_str());
        text
    } else {
        to_decimal(n as u64)
    }
}

/// A text in which every occurrence of a pattern that is not empty, found
/// from the left and not overlapping an earlier one, is replaced. An empty
/// pattern leaves the text as it is.
pub open spec fn replaced_text(s: Seq<char>, from: Seq<char>, to: Seq<char>) -> Seq<char>
    decreases s.len(),
{
    if from.len() == 0 || s.len() < from.len() {
        s
    } else if s.subrange(0, from.len() as int) == from {
        to + replaced_text(s.skip(from.len() as int), from, to)
    } else {
        seq![s[0]] + replaced_text(s.skip(1), from, to)
    }
}

/// Whether the pattern stands in the text at position `at`.
pub fn matches_at(chars: &Vec<char>, pattern: &Vec<char>, at: usize) -> (yes: bool)
    ensures
        yes == occurs_at(chars@, pattern@, at as int),
{
    if at > chars.len() || pattern.len() > chars.len() - at {
        return false;
    }
    let mut j: usize = 0;
    while j < pattern.len()
        invariant
            j <= pattern.len(),
            at + pattern.len() <= chars.len(),
            forall|k: int| 0 <= k < j ==> chars@[at + k] == pattern@[k],
        decreases pattern.len() - j,
    {
        if chars[at + j] != pattern[j] {
            assert(chars@.subrange(at as int, at + pattern.len())[j as int] != pattern@[j as int]);
            return false;
        }
        j += 1;
    }
    assert(chars@.subrange(at as int, at + pattern.len()) =~= pattern@);
    true
}

/// Whether the pattern stands somewhere in the text.
pub fn contains_chars(chars: &Vec<char>, pattern: &Vec<char>) -> (found: bool)
    ensures
        found == contains_text(chars@, pattern@),
{
    if pattern.len() > chars.len() {
        return false;
    }
    let last = chars.len() - pattern.len();
    let mut i: usize = 0;
    loop
        invariant
            i <= last,
            last == chars.len() - pattern.len(),
            forall|k: int| 0 <= k < i ==> !occurs_at(chars@, pattern@, k),
        decreases last - i,
    {
        if matches_at(chars, pattern, i) {
            return true;
        }
        if i == last {
            return false;
        }
        i += 1;
    }
}

/// Whether the pattern stands somewhere in the text.
pub fn str_contains(s: &str, pattern: &str) -> (found: bool)
    ensures
        found == contains_text(s@, pattern@),
{
    contains_chars(&to_chars(s), &to_chars(pattern))
}

/// Replaces every occurrence of a pattern in a text.
pub fn str_replace(s: &str, from: &str, to: &str) -> (out: String)
    ensures
        out@ == replaced_text(s@, from@, to@),
{
    let chars = to_chars(s);
    let pattern = to_chars(from);
    let with = to_chars(to);
    if pattern.len() == 0 {
        return s.to_string();
    }
    let mut out: Vec<char> = Vec::new();
    let mut i: usize = 0;
    assert(chars@.skip(0) =~= chars@);
    assert(out@ + chars@ =~= chars@);
    while i < chars.len() && pattern.len() <= chars.len() - i
        invariant
            i <= chars.len(),
            pattern.len() > 0,
            replaced_text(chars@, pattern@, with@) == out@ + replaced_text(
                chars@.skip(i as int),
                pattern@,
                with@,
            ),
        decreases chars.len() - i,
    {
        let ghost rest = chars@.skip(i as int);
        let ghost done = out@;
        assert(rest.subrange(0, pattern@.len() as int) =~= chars@.subrange(
            i as int,
            i + pattern@.len(),
        ));
        if matches_at(&chars, &pattern, i) {
            let mut k: usize = 0;
            while k < with.len()
                invariant
                    k <= with.len(),
                    out@ == done + with@.subrange(0, k as int),
                decreases with.len() - k,
            {
                out.push(with[k]);
                k += 1;
            }
            assert(with@.subrange(0, with@.len() as int) =~= with@);
            assert(rest.skip(pattern@.len() as int) =~= chars@.skip(i + pattern@.len()));
            assert(done + (with@ + replaced_text(
                rest.skip(pattern@.len() as int),
                pattern@,
                with@,
            )) =~= (done + with@) + replaced_text(
                rest.skip(pattern@.len() as int),
                pattern@,
                with@,
            ));
            i += pattern.len();
        } else {
            out.push(chars[i]);
            assert(rest.skip(1) =~= chars@.skip(i + 1));
            assert(done + (seq![rest[0]] + replaced_text(rest.skip(1), pattern@, with@))
                =~= done.push(chars@[i as int]) + replaced_text(rest.skip(1), pattern@, with@));
            i += 1;
        }
    }
    let ghost done = out@;
    let ghost rest = chars@.skip(i as int);
    let mut k: usize = i;
    while k < chars.len()
        invariant
            i <= k <= chars.len(),
            out@ == done + chars@.subrange(i as int, k as int),
        decreases chars.len() - k,
    {
        out.push(chars[k]);
        k += 1;
    }
    assert(chars@.subrange(i as int, chars@.len() as int) =~= rest);
    from_chars(&out)
}

} // verus!
