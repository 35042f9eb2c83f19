//! Text, character by character: numbers in digits, columns of a fixed
//! width, and the search for one text in another.

use vstd::prelude::*;
use vstd::string::{StrSliceExecFns, StringExecFns};

verus! {

/// `text` with every letter that has a small form in that form, as
/// `str::to_lowercase` gives it.
pub uninterp spec fn spec_lowercase(text: Seq<char>) -> Seq<char>;

/// `str::to_lowercase` returns the lowercase equivalent of the string as a
/// new `String`. What that is for each character is Unicode's business and
/// is not spelled out here: the result has a name, `spec_lowercase`.
pub assume_specification[ str::to_lowercase ](text: &str) -> (lower: String)
    ensures
        lower@ == spec_lowercase(text@),
;

/// `String::push` appends the given character to the end of the string.
pub assume_specification[ String::push ](s: &mut String, c: char)
    ensures
        final(s)@ == old(s)@.push(c),
;

/// The character that stands for the decimal digit `d`.
pub open spec fn digit_char(d: nat) -> char
    recommends
        d < 10,
{
    if d == 0 {
        '0'
    } else if d == 1 {
        '1'
    } else if d == 2 {
        '2'
    } else if d == 3 {
        '3'
    } else if d == 4 {
        '4'
    } else if d == 5 {
        '5'
    } else if d == 6 {
        '6'
    } else if d == 7 {
        '7'
    } else if d == 8 {
        '8'
    } else {
        '9'
    }
}

/// `n` in decimal, without leading zeros (`0` is "0").
pub open spec fn spec_decimal(n: nat) -> Seq<char>
    decreases n,
{
    if n < 10 {
        seq![digit_char(n)]
    } else {
        spec_decimal(n / 10).push(digit_char(n % 10))
    }
}

/// The character of one decimal digit.
pub fn digit_to_char(d: u8) -> (c: char)
    requires
        d < 10,
    ensures
        c == digit_char(d as nat),
{
    match d {
        0 => '0',
        1 => '1',
        2 => '2',
        3 => '3',
        4 => '4',
        5 => '5',
        6 => '6',
        7 => '7',
        8 => '8',
        _ => '9',
    }
}

/// Appends `n` in decimal to `out`.
pub fn push_decimal(out: &mut String, n: u128)
    ensures
        final(out)@ == old(out)@ + spec_decimal(n as nat),
    decreases n,
{
    if n >= 10 {
        push_decimal(out, n / 10);
    }
    let last: u128 = n % 10;
    out.push(digit_to_char(last as u8));
}

/// The decimal digits of a number are digits, and spell the number.
pub proof fn lemma_decimal_spells(n: nat)
    ensures
        spec_decimal(n).len() >= 1,
        all_digits(spec_decimal(n)),
        spec_number(spec_decimal(n)) == n,
    decreases n,
{
    if n < 10 {
        let text = spec_decimal(n);
        reveal_with_fuel(spec_number, 2);
    } else {
        lemma_decimal_spells(n / 10);
        let text = spec_decimal(n);
        assert(text.drop_last() =~= spec_decimal(n / 10));
    }
}

/// Whether `c` is one of the ten decimal digits.
pub open spec fn is_digit(c: char) -> bool {
    '0' <= c <= '9'
}

/// The number that the digit `c` stands for.
pub open spec fn digit_value(c: char) -> nat
    recommends
        is_digit(c),
{
    (c as u32 - '0' as u32) as nat
}

/// Whether `s` holds decimal digits and nothing else.
pub open spec fn all_digits(s: Seq<char>) -> bool {
    forall|i: int| 0 <= i < s.len() ==> is_digit(#[trigger] s[i])
}

/// The number that the digits of `s` spell in decimal; 0 for the empty
/// sequence.
pub open spec fn spec_number(s: Seq<char>) -> nat
    recommends
        all_digits(s),
    decreases s.len(),
{
    if s.len() == 0 {
        0
    } else {
        spec_number(s.drop_last()) * 10 + digit_value(s.last())
    }
}

/// A longer run of digits spells a number that is at least the number its
/// beginning spells.
proof fn lemma_number_grows(s: Seq<char>, k: int)
    requires
        0 <= k <= s.len(),
    ensures
        spec_number(s.subrange(0, k)) <= spec_number(s),
    decreases s.len() - k,
{
    if k == s.len() {
        assert(s.subrange(0, k) =~= s);
    } else {
        lemma_number_grows(s.drop_last(), k);
        assert(s.drop_last().subrange(0, k) =~= s.subrange(0, k));
    }
}

/// Reads `bytes[from..to]` as a decimal number. `None` when a byte in the
/// range is no digit or the number is above `limit`.
pub(crate) fn parse_digits(bytes: &[u8], from: usize, to: usize, limit: u64, Ghost(s): Ghost<Seq<char>>) -> (r:
    Option<u64>)
    requires
        from <= to <= bytes.len(),
        s.len() == bytes.len(),
        forall|i: int|
            0 <= i < s.len() ==> '\0' <= #[trigger] s[i] <= '\u{7f}' && bytes[i] == s[i] as u8,
    ensures
        r == if all_digits(s.subrange(from as int, to as int)) && spec_number(
            s.subrange(from as int, to as int),
        ) <= limit {
            Some(spec_number(s.subrange(from as int, to as int)) as u64)
        } else {
            None::<u64>
        },
{
    let ghost run = s.subrange(from as int, to as int);
    let mut value: u128 = 0;
    let mut i: usize = from;
    while i < to
        invariant
            from <= i <= to <= bytes.len(),
            s.len() == bytes.len(),
            run == s.subrange(from as int, to as int),
            forall|j: int|
                0 <= j < s.len() ==> '\0' <= #[trigger] s[j] <= '\u{7f}' && bytes[j] == s[j] as u8,
            all_digits(run.subrange(0, i - from)),
            value == spec_number(run.subrange(0, i - from)),
            value <= limit,
        decreases to - i,
    {
        let b = bytes[i];
        let ghost before = run.subrange(0, i - from);
        let ghost after = run.subrange(0, i - from + 1);
        assert(run[i - from] == s[i as int]);
        assert(after.drop_last() =~= before);
        if b < 48 || b > 57 {
            return None;
        }
        value = value * 10 + (b - 48) as u128;
        if value > limit as u128 {
            proof {
                lemma_number_grows(run, i - from + 1);
            }
            return None;
        }
        i = i + 1;
    }
    assert(run.subrange(0, to - from) =~= run);
    Some(value as u64)
}

/// The number that `s` spells, if `s` is one or more digits and the number
/// fits in 64 bits.
pub open spec fn spec_parse_number(s: Seq<char>) -> Option<u64> {
    if s.len() >= 1 && all_digits(s) && spec_number(s) <= u64::MAX {
        Some(spec_number(s) as u64)
    } else {
        None
    }
}

/// A text that holds a character outside ASCII does not hold digits only,
/// and neither does the part before or after any of its places.
pub(crate) proof fn lemma_beyond_ascii_not_digits(s: Seq<char>)
    requires
        !vstd::utf8::is_ascii_chars(s),
    ensures
        !all_digits(s),
        forall|k: int| 0 <= k < s.len() ==> !all_digits(s.subrange(0, k)) || !all_digits(
            #[trigger] s.subrange(k + 1, s.len() as int),
        ) || !is_digit(s[k]) && s[k] != '.',
{
    let i = choose|i: int| 0 <= i < s.len() && !('\0' <= #[trigger] s[i] <= '\u{7f}');
    assert forall|k: int| 0 <= k < s.len() implies !all_digits(s.subrange(0, k)) || !all_digits(
        #[trigger] s.subrange(k + 1, s.len() as int),
    ) || !is_digit(s[k]) && s[k] != '.' by {
        if i < k {
            assert(s.subrange(0, k)[i] == s[i]);
        } else if i > k {
            assert(s.subrange(k + 1, s.len() as int)[i - (k + 1)] == s[i]);
        }
    }
}

/// Reads a number that was typed in digits: an item code, for one.
///
/// `Some` with the number when `input` is one or more decimal digits and
/// the number fits in 64 bits; `None` for every other input.
pub fn parse_number(input: &str) -> (r: Option<u64>)
    ensures
        r == spec_parse_number(input@),
{
    let ghost s = input@;
    if !input.is_ascii() {
        proof {
            lemma_beyond_ascii_not_digits(s);
        }
        return None;
    }
    let bytes = input.as_bytes();
    proof {
        vstd::string::is_ascii_spec_bytes(input);
    }
    let n = bytes.len();
    if n == 0 {
        return None;
    }
    assert(s.subrange(0, n as int) =~= s);
    parse_digits(bytes, 0, n, u64::MAX, Ghost(s))
}

/// `n` spaces.
pub open spec fn spec_spaces(n: nat) -> Seq<char> {
    Seq::new(n, |i: int| ' ')
}

/// `text` in a column of `width` characters, flush left: spaces follow it
/// up to the width. A text that is wider than the column stands as it is.
pub open spec fn spec_pad_right(text: Seq<char>, width: nat) -> Seq<char> {
    if text.len() < width {
        text + spec_spaces((width - text.len()) as nat)
    } else {
        text
    }
}

/// `text` in a column of `width` characters, flush right: spaces stand
/// before it up to the width. A text that is wider than the column stands
/// as it is.
pub open spec fn spec_pad_left(text: Seq<char>, width: nat) -> Seq<char> {
    if text.len() < width {
        spec_spaces((width - text.len()) as nat) + text
    } else {
        text
    }
}

/// Appends `n` spaces to `out`.
pub fn push_spaces(out: &mut String, n: usize)
    ensures
        final(out)@ == old(out)@ + spec_spaces(n as nat),
{
    let mut k: usize = 0;
    while k < n
        invariant
            k <= n,
            out@ == old(out)@ + spec_spaces(k as nat),
        decreases n - k,
    {
        out.push(' ');
        k = k + 1;
    }
}

/// Appends `text` to `out`, followed by spaces up to `width` characters.
pub fn push_padded_right(out: &mut String, text: &str, width: usize)
    ensures
        final(out)@ == old(out)@ + spec_pad_right(text@, width as nat),
{
    let len = text.unicode_len();
    out.append(text);
    if len < width {
        push_spaces(out, width - len);
    }
}

/// Appends `text` to `out`, after spaces that fill it up to `width`
/// characters.
pub fn push_padded_left(out: &mut String, text: &str, width: usize)
    ensures
        final(out)@ == old(out)@ + spec_pad_left(text@, width as nat),
{
    let len = text.unicode_len();
    if len < width {
        push_spaces(out, width - len);
    }
    out.append(text);
}

/// Whether `needle` stands in `hay` at place `at`.
pub open spec fn occurs_at(hay: Seq<char>, needle: Seq<char>, at: int) -> bool {
    0 <= at && at + needle.len() <= hay.len() && hay.subrange(at, at + needle.len()) == needle
}

/// Whether `needle` stands somewhere in `hay`. The empty text stands in
/// every text.
pub open spec fn spec_contains(hay: Seq<char>, needle: Seq<char>) -> bool {
    exists|at: int| occurs_at(hay, needle, at)
}

/// Whether `at` is the first place at which `needle` stands in `hay`.
pub open spec fn is_first_occurrence(hay: Seq<char>, needle: Seq<char>, at: int) -> bool {
    occurs_at(hay, needle, at) && forall|before: int|
        0 <= before < at ==> !occurs_at(hay, needle, before)
}

/// What follows the first occurrence of `needle` in `hay`; nothing where
/// `needle` does not occur.
pub open spec fn spec_after_first(hay: Seq<char>, needle: Seq<char>) -> Option<Seq<char>> {
    if spec_contains(hay, needle) {
        let at = choose|at: int| is_first_occurrence(hay, needle, at);
        Some(hay.subrange(at + needle.len(), hay.len() as int))
    } else {
        None
    }
}

/// The characters of `text`.
#[verifier::loop_isolation(false)]
pub fn chars_of(text: &str) -> (chars: Vec<char>)
    ensures
        chars@ == text@,
{
    let mut chars: Vec<char> = Vec::new();
    for c in it: text.chars()
        invariant
            chars@ == text@.take(it.index() as int),
    {
        broadcast use vstd::string::group_string_axioms;

        chars.push(c);
    }
    chars
}

/// The characters of `chars` from place `from` on, as a string.
pub fn string_from(chars: &Vec<char>, from: usize) -> (text: String)
    requires
        from <= chars@.len(),
    ensures
        text@ == chars@.subrange(from as int, chars@.len() as int),
{
    let mut text = String::new();
    let mut i: usize = from;
    while i < chars.len()
        invariant
            from <= i <= chars@.len(),
            text@ == chars@.subrange(from as int, i as int),
        decreases chars@.len() - i,
    {
        text.push(chars[i]);
        i = i + 1;
    }
    text
}

/// Whether `needle` stands in `hay` at place `at`.
pub fn stands_at(hay: &Vec<char>, needle: &Vec<char>, at: usize) -> (stands: bool)
    requires
        at + needle@.len() <= hay@.len(),
    ensures
        stands == occurs_at(hay@, needle@, at as int),
{
    let len = hay.len();
    let mut k: usize = 0;
    while k < needle.len()
        invariant
            k <= needle@.len(),
            at + needle@.len() <= hay@.len(),
            len == hay@.len(),
            forall|j: int| 0 <= j < k ==> hay@[at + j] == needle@[j],
        decreases needle@.len() - k,
    {
        if hay[at + k] != needle[k] {
            return false;
        }
        k = k + 1;
    }
    assert(hay@.subrange(at as int, at + needle@.len()) =~= needle@);
    true
}

/// The first place at which `needle` stands in `hay`, if it stands
/// anywhere.
pub fn find_text(hay: &Vec<char>, needle: &Vec<char>) -> (place: Option<usize>)
    ensures
        match place {
            Some(at) => is_first_occurrence(hay@, needle@, at as int),
            None => !spec_contains(hay@, needle@),
        },
{
    if needle.len() > hay.len() {
        return None;
    }
    let last = hay.len() - needle.len();
    let mut at: usize = 0;
    loop
        invariant
            at <= last,
            last == hay@.len() - needle@.len(),
            forall|before: int| 0 <= before < at ==> !occurs_at(hay@, needle@, before),
        decreases last - at,
    {
        if stands_at(hay, needle, at) {
            return Some(at);
        }
        if at == last {
            return None;
        }
        at = at + 1;
    }
}

/// Where `needle` stands in `hay` at all, `spec_after_first` is what
/// follows the place that `is_first_occurrence` singles out.
pub proof fn lemma_after_first(hay: Seq<char>, needle: Seq<char>, at: int)
    requires
        is_first_occurrence(hay, needle, at),
    ensures
        spec_contains(hay, needle),
        spec_after_first(hay, needle) == Some(hay.subrange(at + needle.len(), hay.len() as int)),
{
    let chosen = choose|other: int| is_first_occurrence(hay, needle, other);
    if chosen < at {
        assert(!occurs_at(hay, needle, chosen));
    } else if at < chosen {
        assert(!occurs_at(hay, needle, at));
    }
}

/// Whether `needle` stands somewhere in `hay`.
pub fn contains_text(hay: &str, needle: &str) -> (found: bool)
    ensures
        found == spec_contains(hay@, needle@),
{
    find_text(&chars_of(hay), &chars_of(needle)).is_some()
}

/// What follows the first occurrence of `needle` in `hay`, if `needle`
/// occurs in it.
pub fn after_first(hay: &str, needle: &str) -> (rest: Option<String>)
    ensures
        match rest {
            Some(text) => spec_after_first(hay@, needle@) == Some(text@),
            None => spec_after_first(hay@, needle@) is None,
        },
{
    let hay_chars = chars_of(hay);
    let needle_chars = chars_of(needle);
    match find_text(&hay_chars, &needle_chars) {
        Some(at) => {
            proof {
                lemma_after_first(hay@, needle@, at as int);
            }
            assert(at + needle_chars@.len() <= hay_chars.len());
            Some(string_from(&hay_chars, at + needle_chars.len()))
        },
        None => None,
    }
}

} // verus!
