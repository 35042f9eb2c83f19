//! Prices as text and back, the obscuring of the password, and where an
//! item's picture is kept.

use vstd::prelude::*;
use vstd::string::StringExecFns;
use crate::text::{
    all_digits, digit_char, digit_to_char, lemma_beyond_ascii_not_digits, lemma_decimal_spells,
    parse_digits, push_decimal, spec_decimal, spec_number,
};

verus! {

/// An amount of pence in pounds: the pounds in decimal, a point, and the
/// pence as exactly two digits.
pub open spec fn spec_amount_text(pence: nat) -> Seq<char> {
    spec_decimal(pence / 100) + seq!['.', digit_char((pence % 100) / 10), digit_char(pence % 10)]
}

/// An amount of pence as a price: a pound sign before the amount in
/// pounds.
pub open spec fn spec_format_price(pence: nat) -> Seq<char> {
    seq!['£'] + spec_amount_text(pence)
}

/// Appends an amount of pence to `out`, in pounds with two digits of
/// pence.
pub fn push_amount(out: &mut String, pence: u128)
    ensures
        final(out)@ == old(out)@ + spec_amount_text(pence as nat),
{
    let pounds: u128 = pence / 100;
    let rest: u128 = pence % 100;
    let tens: u128 = rest / 10;
    let units: u128 = rest % 10;
    push_decimal(out, pounds);
    out.push('.');
    out.push(digit_to_char(tens as u8));
    out.push(digit_to_char(units as u8));
}

/// Converts pence to an amount in pounds, as in `1.50` for 150.
/// `parse_price` reads the result back.
pub fn format_amount(pence: u128) -> (text: String)
    ensures
        text@ == spec_amount_text(pence as nat),
{
    let mut text = String::new();
    push_amount(&mut text, pence);
    text
}

/// Converts pence to a price string, as in `£1.50` for 150.
pub fn format_price(input: u128) -> (text: String)
    ensures
        text@ == spec_format_price(input as nat),
{
    let mut text = String::new();
    text.push('£');
    push_amount(&mut text, input);
    text
}

/// The amount in pence that `s` spells, if it spells one.
///
/// Two shapes are amounts: one or more digits, read as whole pounds, and one
/// or more digits, a point and exactly two digits, read as pounds and pence.
pub open spec fn spec_parse_price(s: Seq<char>) -> Option<nat> {
    let n = s.len() as int;
    if n >= 1 && all_digits(s) {
        Some(spec_number(s) * 100)
    } else if n >= 4 && s[n - 3] == '.' && all_digits(s.subrange(0, n - 3)) && all_digits(
        s.subrange(n - 2, n),
    ) {
        Some(spec_number(s.subrange(0, n - 3)) * 100 + spec_number(s.subrange(n - 2, n)))
    } else {
        None
    }
}

/// Reads a price that a person typed.
///
/// `Ok` with the amount in pence when `input` spells one and it is at most
/// `u32::MAX`; `Err` for every other input.
pub fn parse_price(input: &str) -> (r: Result<u32, ()>)
    ensures
        r == match spec_parse_price(input@) {
            Some(pence) if pence <= u32::MAX => Ok::<u32, ()>(pence as u32),
            _ => Err::<u32, ()>(()),
        },
{
    let ghost s = input@;
    if !input.is_ascii() {
        proof {
            lemma_beyond_ascii_not_digits(s);
            let n = s.len() as int;
            if n >= 4 {
                assert(s.subrange(n - 3 + 1, n) =~= s.subrange(n - 2, n));
            }
        }
        return Err(());
    }
    let bytes = input.as_bytes();
    proof {
        vstd::string::is_ascii_spec_bytes(input);
    }
    let n = bytes.len();
    if n == 0 {
        return Err(());
    }
    if n >= 4 && bytes[n - 3] == 46 {
        let pounds = parse_digits(bytes, 0, n - 3, u32::MAX as u64, Ghost(s));
        let pence = parse_digits(bytes, n - 2, n, u32::MAX as u64, Ghost(s));
        match (pounds, pence) {
            (Some(pounds), Some(pence)) => {
                let total: u64 = pounds * 100 + pence;
                if total > u32::MAX as u64 {
                    Err(())
                } else {
                    Ok(total as u32)
                }
            },
            (None, Some(_)) => Err(()),
            _ => {
                proof {
                    if all_digits(s.subrange(n - 2, n as int)) {
                        lemma_two_digits_small(s.subrange(n - 2, n as int));
                    }
                }
                Err(())
            },
        }
    } else {
        assert(s.subrange(0, n as int) =~= s);
        match parse_digits(bytes, 0, n, u32::MAX as u64, Ghost(s)) {
            Some(pounds) => {
                let total: u64 = pounds * 100;
                if total > u32::MAX as u64 {
                    Err(())
                } else {
                    Ok(total as u32)
                }
            },
            None => Err(()),
        }
    }
}

/// Two digits spell a number below 100.
proof fn lemma_two_digits_small(s: Seq<char>)
    requires
        s.len() == 2,
        all_digits(s),
    ensures
        spec_number(s) < 100,
{
    reveal_with_fuel(spec_number, 3);
}

/// What `format_amount` writes, `parse_price` reads back: the text of an
/// amount spells that amount.
pub proof fn lemma_amount_reads_back(pence: nat)
    ensures
        spec_parse_price(spec_amount_text(pence)) == Some(pence),
{
    let pounds = spec_decimal(pence / 100);
    let text = spec_amount_text(pence);
    let n = text.len() as int;
    lemma_decimal_spells(pence / 100);
    assert(text.subrange(0, n - 3) =~= pounds);
    reveal_with_fuel(spec_number, 3);
}

/// By how much `encrypt` moves each character.
pub const ENCRYPTION_OFFSET: u8 = 3;

/// What `encrypt` makes of one character: the low eight bits of its code,
/// plus the offset, again in eight bits, as a character.
pub open spec fn spec_encrypt_char(c: char) -> char {
    (((c as u32 % 256) + ENCRYPTION_OFFSET) % 256) as u8 as char
}

/// What `encrypt` makes of a text: `spec_encrypt_char` of every character.
pub open spec fn spec_encrypt(text: Seq<char>) -> Seq<char> {
    text.map_values(|c: char| spec_encrypt_char(c))
}

/// Moves one character as `spec_encrypt_char` says.
pub fn encrypt_char(c: char) -> (moved: char)
    ensures
        moved == spec_encrypt_char(c),
{
    let low: u8 = (c as u32 % 256) as u8;
    low.wrapping_add(ENCRYPTION_OFFSET) as char
}

/// Obscures a password before it is stored: every character is moved by
/// the same offset. This hides the password from a glance and from nothing
/// else.
#[verifier::loop_isolation(false)]
pub fn encrypt(input: &str) -> (moved: String)
    ensures
        moved@ == spec_encrypt(input@),
{
    let mut moved = String::new();
    for c in it: input.chars()
        invariant
            moved@ == spec_encrypt(input@.take(it.index() as int)),
    {
        broadcast use vstd::string::group_string_axioms;

        moved.push(encrypt_char(c));
        assert(spec_encrypt(input@.take(it.index() + 1)) =~= spec_encrypt(
            input@.take(it.index() as int),
        ).push(spec_encrypt_char(c)));
    }
    moved
}

/// The file in which the picture of an item is looked for: the file that
/// the item names, in the directory `images`. Nothing for an item that
/// names no picture, or names it with the empty text.
pub open spec fn spec_image_file(image_path: Option<Seq<char>>) -> Option<Seq<char>> {
    match image_path {
        Some(path) if path.len() > 0 => Some("images/"@ + path),
        _ => None,
    }
}

/// The file in which the picture of an item is looked for, if the item
/// names one. Whether the file is there is for the caller to find out.
pub fn image_file(image_path: &Option<String>) -> (file: Option<String>)
    ensures
        match file {
            Some(file) => spec_image_file(
                match *image_path {
                    Some(path) => Some(path@),
                    None => None,
                },
            ) == Some(file@),
            None => spec_image_file(
                match *image_path {
                    Some(path) => Some(path@),
                    None => None,
                },
            ) is None,
        },
{
    match image_path {
        Some(path) => {
            if path.as_str().is_empty() {
                None
            } else {
                let mut file = String::new();
                file.append("images/");
                file.append(path.as_str());
                Some(file)
            }
        },
        None => None,
    }
}

/// The picture that stands for an item without a picture of its own.
pub fn no_image_file() -> (file: String)
    ensures
        file@ == "images/"@ + "_none.jpg"@,
{
    let mut file = String::new();
    file.append("images/");
    file.append("_none.jpg");
    file
}

} // verus!
