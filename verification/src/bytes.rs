//! Byte strings: the pieces that the request reader and the callback reader
//! are made of.

use vstd::prelude::*;
use vstd::utf8::{encode_utf8, is_ascii_chars, is_ascii_chars_encode_utf8};

verus! {

/// The bytes of a text of ASCII characters.
pub open spec fn ascii(text: Seq<char>) -> Seq<u8> {
    Seq::new(text.len(), |i: int| text[i] as u8)
}

/// `pattern` stands in `text` at index `i`.
pub open spec fn occurs_at(text: Seq<u8>, pattern: Seq<u8>, i: int) -> bool {
    0 <= i && i + pattern.len() <= text.len() && text.subrange(i, i + pattern.len()) == pattern
}

/// The first index at or after `from` at which `pattern` stands in `text`.
pub open spec fn first_occurrence_from(text: Seq<u8>, pattern: Seq<u8>, from: int) -> Option<int>
    decreases text.len() - from,
{
    if from < 0 || from + pattern.len() > text.len() {
        None
    } else if occurs_at(text, pattern, from) {
        Some(from)
    } else if from >= text.len() {
        None
    } else {
        first_occurrence_from(text, pattern, from + 1)
    }
}

/// The first index at which `pattern` stands in `text`.
pub open spec fn first_occurrence(text: Seq<u8>, pattern: Seq<u8>) -> Option<int> {
    first_occurrence_from(text, pattern, 0)
}

/// A byte that separates words: a blank, a tab, a line feed, a vertical tab,
/// a form feed or a carriage return.
pub open spec fn is_space(b: u8) -> bool {
    b == 32 || 9 <= b <= 13
}

/// The end of the run that starts at `from` and holds only spaces (with
/// `spaces`) or only other bytes (without).
pub open spec fn run_end(s: Seq<u8>, from: int, spaces: bool) -> int
    decreases s.len() - from,
{
    if from < 0 || from >= s.len() || is_space(s[from]) != spaces {
        from
    } else {
        run_end(s, from + 1, spaces)
    }
}

/// The index of the first `byte` at or after `from`, or the length of `s`
/// where there is none.
pub open spec fn index_of(s: Seq<u8>, byte: u8, from: int) -> int
    decreases s.len() - from,
{
    if from < 0 || from >= s.len() || s[from] == byte {
        from
    } else {
        index_of(s, byte, from + 1)
    }
}

/// The end of `s`, seen from `end` down to `start`, once the spaces at the
/// end are left off.
pub open spec fn trimmed_end(s: Seq<u8>, start: int, end: int) -> int
    decreases end,
{
    if 0 <= start < end <= s.len() && is_space(s[end - 1]) {
        trimmed_end(s, start, end - 1)
    } else {
        end
    }
}

/// An ASCII letter in lower case, any other byte as it is.
pub open spec fn lower(b: u8) -> u8 {
    if 65 <= b <= 90 {
        (b + 32) as u8
    } else {
        b
    }
}

/// The two byte strings are equal but for the case of ASCII letters.
pub open spec fn eq_ignore_case(a: Seq<u8>, b: Seq<u8>) -> bool {
    a.len() == b.len() && forall|i: int| 0 <= i < a.len() ==> lower(#[trigger] a[i]) == lower(b[i])
}

/// Every byte is a decimal digit.
pub open spec fn all_digits(d: Seq<u8>) -> bool {
    forall|i: int| 0 <= i < d.len() ==> 48 <= #[trigger] d[i] <= 57
}

/// The number that the decimal digits `d` write.
pub open spec fn decimal_value(d: Seq<u8>) -> nat
    decreases d.len(),
{
    if d.len() == 0 {
        0
    } else {
        decimal_value(d.drop_last()) * 10 + (d.last() - 48) as nat
    }
}

/// The number that `d` writes, where `d` is one decimal digit or more and
/// the number fits; nothing for any other `d`.
pub open spec fn written_number(d: Seq<u8>) -> Option<usize> {
    if d.len() > 0 && all_digits(d) && decimal_value(d) <= usize::MAX {
        Some(decimal_value(d) as usize)
    } else {
        None
    }
}

/// The length that the text `v` writes: spaces around it are left off, a
/// plus sign may lead, and what remains is one decimal digit or more, of a
/// number that fits. Any other text writes no length.
pub open spec fn parsed_length(v: Seq<u8>) -> Option<usize> {
    let a = run_end(v, 0, true);
    let e = trimmed_end(v, a, v.len() as int);
    let k = if a < e && v[a] == 43 {
        a + 1
    } else {
        a
    };
    written_number(v.subrange(k, e))
}

/// `twoway::find_bytes`: the index of the first occurrence of `pattern` in
/// `text`, none where it does not occur; the empty pattern occurs at 0.
#[verifier::external_body]
fn find_bytes(text: &[u8], pattern: &[u8]) -> (found: Option<usize>)
    ensures
        match found {
            Some(i) => first_occurrence(text@, pattern@) == Some(i as int),
            None => first_occurrence(text@, pattern@) is None,
        },
{
    twoway::find_bytes(text, pattern)
}

/// The index of the first occurrence of `pattern` in `text`.
pub fn find_first(text: &[u8], pattern: &[u8]) -> (found: Option<usize>)
    ensures
        match found {
            Some(i) => first_occurrence(text@, pattern@) == Some(i as int),
            None => first_occurrence(text@, pattern@) is None,
        },
        found matches Some(i) ==> occurs_at(text@, pattern@, i as int) && forall|j: int|
            0 <= j < i ==> !occurs_at(text@, pattern@, j),
        found is None ==> forall|j: int| !occurs_at(text@, pattern@, j),
{
    let found = find_bytes(text, pattern);
    proof {
        lemma_first_occurrence(text@, pattern@, 0);
    }
    found
}

/// `first_occurrence_from` gives a place at which the pattern stands, and
/// the pattern stands nowhere between `from` and that place; where it gives
/// none, the pattern stands nowhere from `from` on.
pub proof fn lemma_first_occurrence(text: Seq<u8>, pattern: Seq<u8>, from: int)
    requires
        0 <= from,
    ensures
        first_occurrence_from(text, pattern, from) matches Some(i) ==> from <= i && occurs_at(
            text,
            pattern,
            i,
        ) && forall|j: int| from <= j < i ==> !occurs_at(text, pattern, j),
        first_occurrence_from(text, pattern, from) is None ==> forall|j: int|
            from <= j ==> !occurs_at(text, pattern, j),
    decreases text.len() - from,
{
    if from + pattern.len() <= text.len() && !occurs_at(text, pattern, from) {
        if from < text.len() {
            lemma_first_occurrence(text, pattern, from + 1);
        } else {
            assert(text.subrange(from, from + pattern.len()) =~= pattern);
        }
    }
}

/// The bytes of a text: its UTF-8 encoding, which for a text of ASCII
/// characters is one byte for each character.
pub fn text_bytes(text: &str) -> (bytes: &[u8])
    ensures
        bytes@ == encode_utf8(text@),
        is_ascii_chars(text@) ==> bytes@ == ascii(text@),
{
    let bytes = text.as_bytes();
    proof {
        if is_ascii_chars(text@) {
            is_ascii_chars_encode_utf8(text@);
            assert(bytes@ =~= ascii(text@));
        }
    }
    bytes
}

/// Whether two byte strings are equal.
pub fn bytes_eq(a: &[u8], b: &[u8]) -> (same: bool)
    ensures
        same == (a@ == b@),
{
    if a.len() != b.len() {
        return false;
    }
    let mut i: usize = 0;
    while i < a.len()
        invariant
            a@.len() == b@.len(),
            i <= a@.len(),
            a@.subrange(0, i as int) == b@.subrange(0, i as int),
        decreases a@.len() - i,
    {
        if a[i] != b[i] {
            return false;
        }
        assert(a@.subrange(0, i + 1) =~= a@.subrange(0, i as int).push(a@[i as int]));
        assert(b@.subrange(0, i + 1) =~= b@.subrange(0, i as int).push(b@[i as int]));
        i += 1;
    }
    assert(a@ =~= a@.subrange(0, i as int));
    assert(b@ =~= b@.subrange(0, i as int));
    true
}

fn lower_byte(b: u8) -> (l: u8)
    ensures
        l == lower(b),
{
    if 65 <= b && b <= 90 {
        b + 32
    } else {
        b
    }
}

/// Whether two byte strings are equal but for the case of ASCII letters.
pub fn bytes_eq_ignore_case(a: &[u8], b: &[u8]) -> (same: bool)
    ensures
        same == eq_ignore_case(a@, b@),
{
    if a.len() != b.len() {
        return false;
    }
    let mut i: usize = 0;
    while i < a.len()
        invariant
            a@.len() == b@.len(),
            i <= a@.len(),
            forall|j: int| 0 <= j < i ==> lower(#[trigger] a@[j]) == lower(b@[j]),
        decreases a@.len() - i,
    {
        if lower_byte(a[i]) != lower_byte(b[i]) {
            return false;
        }
        i += 1;
    }
    true
}

fn space_byte(b: u8) -> (space: bool)
    ensures
        space == is_space(b),
{
    b == 32 || (9 <= b && b <= 13)
}

/// The end of the run of spaces, or of other bytes, that starts at `from`.
pub fn skip_run(s: &[u8], from: usize, spaces: bool) -> (end: usize)
    ensures
        end == run_end(s@, from as int, spaces),
        from <= end,
        from <= s@.len() ==> end <= s@.len(),
{
    let mut i: usize = from;
    while i < s.len() && space_byte(s[i]) == spaces
        invariant
            from <= i,
            from <= s@.len() ==> i <= s@.len(),
            run_end(s@, from as int, spaces) == run_end(s@, i as int, spaces),
        decreases s@.len() - i,
    {
        i += 1;
    }
    i
}

/// The index of the first `byte` at or after `from`, or the length of `s`.
pub fn find_byte(s: &[u8], byte: u8, from: usize) -> (at: usize)
    ensures
        at == index_of(s@, byte, from as int),
        from <= at,
        from <= s@.len() ==> at <= s@.len(),
        at < s@.len() ==> s@[at as int] == byte,
{
    let mut i: usize = from;
    while i < s.len() && s[i] != byte
        invariant
            from <= i,
            from <= s@.len() ==> i <= s@.len(),
            index_of(s@, byte, from as int) == index_of(s@, byte, i as int),
        decreases s@.len() - i,
    {
        i += 1;
    }
    i
}

fn trim_end(s: &[u8], start: usize) -> (end: usize)
    requires
        start <= s@.len(),
    ensures
        end == trimmed_end(s@, start as int, s@.len() as int),
        start <= end <= s@.len(),
{
    let mut e: usize = s.len();
    while start < e && space_byte(s[e - 1])
        invariant
            start <= e <= s@.len(),
            trimmed_end(s@, start as int, s@.len() as int) == trimmed_end(
                s@,
                start as int,
                e as int,
            ),
        decreases e,
    {
        e -= 1;
    }
    e
}

/// A longer run of digits writes no smaller number.
proof fn lemma_decimal_value_grows(s: Seq<u8>, k: int, i: int, e: int)
    requires
        0 <= k <= i <= e <= s.len(),
        all_digits(s.subrange(k, e)),
    ensures
        decimal_value(s.subrange(k, i)) <= decimal_value(s.subrange(k, e)),
    decreases e - i,
{
    if i < e {
        assert(s.subrange(k, e).drop_last() =~= s.subrange(k, e - 1));
        assert(all_digits(s.subrange(k, e - 1))) by {
            assert forall|j: int| 0 <= j < e - 1 - k implies 48 <= #[trigger] s.subrange(
                k,
                e - 1,
            )[j] <= 57 by {
                assert(s.subrange(k, e)[j] == s.subrange(k, e - 1)[j]);
            }
        }
        lemma_decimal_value_grows(s, k, i, e - 1);
    }
}

/// Reads the number that the bytes from `k` to `e` write: see
/// `written_number`.
fn parse_digits(v: &[u8], k: usize, e: usize) -> (number: Option<usize>)
    requires
        k <= e <= v@.len(),
    ensures
        number == written_number(v@.subrange(k as int, e as int)),
{
    if k >= e {
        return None;
    }
    let ghost d = v@.subrange(k as int, e as int);
    let mut i: usize = k;
    while i < e
        invariant
            k <= i <= e <= v@.len(),
            d == v@.subrange(k as int, e as int),
            forall|j: int| 0 <= j < i - k ==> 48 <= #[trigger] d[j] <= 57,
        decreases e - i,
    {
        if v[i] < 48 || v[i] > 57 {
            assert(d[i - k] == v@[i as int]);
            assert(!all_digits(d));
            return None;
        }
        i += 1;
    }
    assert(all_digits(d));
    let mut value: usize = 0;
    let mut n: usize = k;
    while n < e
        invariant
            k <= n <= e <= v@.len(),
            d == v@.subrange(k as int, e as int),
            all_digits(d),
            value == decimal_value(v@.subrange(k as int, n as int)),
        decreases e - n,
    {
        proof {
            assert(d[n - k] == v@[n as int]);
            let longer = v@.subrange(k as int, n + 1);
            assert(longer.drop_last() =~= v@.subrange(k as int, n as int));
            assert(longer.last() == v@[n as int]);
            assert(decimal_value(longer) == value * 10 + (v@[n as int] - 48));
            lemma_decimal_value_grows(v@, k as int, n + 1, e as int);
        }
        let digit: usize = (v[n] - 48) as usize;
        let tens = match value.checked_mul(10) {
            Some(t) => t,
            None => {
                return None;
            },
        };
        value = match tens.checked_add(digit) {
            Some(t) => t,
            None => {
                return None;
            },
        };
        n += 1;
    }
    assert(v@.subrange(k as int, n as int) =~= d);
    Some(value)
}

/// Reads a length: see `parsed_length`.
pub fn parse_length(v: &[u8]) -> (length: Option<usize>)
    ensures
        length == parsed_length(v@),
{
    let a = skip_run(v, 0, true);
    let e = trim_end(v, a);
    let k: usize = if a < e && v[a] == 43 {
        a + 1
    } else {
        a
    };
    parse_digits(v, k, e)
}

} // verus!
