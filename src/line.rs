//! Turning one input line into a reading: field selection, cleaning, radix
//! detection and the integer parse.
use vstd::prelude::*;

use crate::field::{field_of, regex_split, Delimiter};
use crate::number::{parse_integer, parse_integer_chars};
use crate::text::{
    chars_of, remove_commas, slice_chars, string_of, trim_chars, trim_end, trim_start, trimmed,
    without_commas,
};

verus! {

/// What the integer parse made of a field.
#[derive(Debug, Clone, Copy, PartialEq, Eq, Structural)]
pub enum Reading {
    /// The field is an integer in the radix chosen for it.
    Integer(i128),
    /// The field is no integer in that radix. `looks_hex` tells whether it
    /// would read as an integer in radix 16, a hint that hex mode is missing.
    NotInteger { looks_hex: bool },
}

/// All that is known of one non-blank line once its field has been read.
pub struct LineReport {
    /// The field as the delimiter cut it out, before cleaning.
    pub raw: String,
    /// The cleaned field without its `0x` prefix: the text that was parsed,
    /// and the one to try as a decimal float where it is no integer.
    pub text: String,
    /// The radix the field was read in: 16 or 10.
    pub radix: u32,
    /// The outcome of the integer parse.
    pub reading: Reading,
}

/// The field text trimmed and without commas.
pub open spec fn cleaned(raw: Seq<char>) -> Seq<char> {
    without_commas(trimmed(raw))
}

/// Whether `s` starts with the two characters `0x`.
pub open spec fn has_hex_prefix(s: Seq<char>) -> bool {
    s.len() >= 2 && s[0] == '0' && s[1] == 'x'
}

/// The cleaned field with its `0x` prefix removed, if it has one.
pub open spec fn digits_part(clean: Seq<char>) -> Seq<char> {
    if has_hex_prefix(clean) {
        clean.skip(2)
    } else {
        clean
    }
}

/// Radix 16 for a field with the `0x` prefix or in hex mode, else radix 10.
pub open spec fn radix_for(clean: Seq<char>, hex: bool) -> u32 {
    if has_hex_prefix(clean) || hex {
        16
    } else {
        10
    }
}

/// What the integer parse makes of `text` in `radix`.
pub open spec fn reading_of(text: Seq<char>, radix: u32) -> Reading {
    match parse_integer(text, radix) {
        Some(v) => Reading::Integer(v),
        None => Reading::NotInteger { looks_hex: parse_integer(text, 16) is Some },
    }
}

/// Whether a line is blank, and so skipped.
pub open spec fn is_blank(line: Seq<char>) -> bool {
    trimmed(line).len() == 0
}

/// Whether `r` is the report on the non-blank line `line`, read with field
/// number `field`, hex mode `hex` and the delimiter pattern `pattern`.
pub open spec fn reports_line(
    r: LineReport,
    line: Seq<char>,
    field: usize,
    hex: bool,
    pattern: Seq<char>,
) -> bool {
    let raw = field_of(trimmed(line), field, pattern);
    let clean = cleaned(raw);
    &&& r.raw@ == raw
    &&& r.text@ == digits_part(clean)
    &&& r.radix == radix_for(clean, hex)
    &&& r.reading == reading_of(digits_part(clean), radix_for(clean, hex))
}

/// Reads the field text `raw`, in hex mode or not.
pub fn read_field(raw: &str, hex: bool) -> (r: (String, u32, Reading))
    ensures
        r.0@ == digits_part(cleaned(raw@)),
        r.1 == radix_for(cleaned(raw@), hex),
        r.2 == reading_of(digits_part(cleaned(raw@)), radix_for(cleaned(raw@), hex)),
{
    let chars = chars_of(raw);
    let clean = remove_commas(&trim_chars(&chars));
    let prefixed = clean.len() >= 2 && clean[0] == '0' && clean[1] == 'x';
    let digits = if prefixed {
        slice_chars(&clean, 2, clean.len())
    } else {
        clean
    };
    let radix: u32 = if prefixed || hex {
        16
    } else {
        10
    };
    let reading = match parse_integer_chars(&digits, radix) {
        Some(v) => Reading::Integer(v),
        None => Reading::NotInteger { looks_hex: parse_integer_chars(&digits, 16).is_some() },
    };
    (string_of(&digits), radix, reading)
}

/// Reads one input line: `None` for a blank line, else the report on field
/// `field` of the trimmed line (the whole line for field zero), cut out by
/// `delim` and read in hex mode or not.
pub fn process_line(line: &str, field: usize, hex: bool, delim: &Delimiter) -> (r: Option<
    LineReport,
>)
    ensures
        r is None <==> is_blank(line@),
        r matches Some(rep) ==> reports_line(rep, line@, field, hex, delim@),
{
    let chars = chars_of(line);
    let t = trim_chars(&chars);
    if t.len() == 0 {
        return None;
    }
    let trimmed_line = string_of(&t);
    let raw = delim.field(trimmed_line.as_str(), field);
    let (text, radix, reading) = read_field(raw.as_str(), hex);
    Some(LineReport { raw, text, radix, reading })
}

/// What a line adds to the running total.
#[derive(Debug, Clone, Copy, PartialEq, Eq, Structural)]
pub enum Contribution {
    /// The exact integer the field holds.
    Integer(i128),
    /// The decimal float the field holds, as the float parse read it.
    Float,
    /// Nothing: the field is neither an integer nor a float, and the total
    /// takes integer zero. `advise_hex` asks for the hint that hex mode may be
    /// missing.
    Nothing { advise_hex: bool },
}

/// The contribution of a field whose integer parse gave `reading` and whose
/// float parse, tried only where that was no integer, succeeded or not.
pub open spec fn contribution_of(reading: Reading, float_parsed: bool) -> Contribution {
    match reading {
        Reading::Integer(v) => Contribution::Integer(v),
        Reading::NotInteger { looks_hex } => if float_parsed {
            Contribution::Float
        } else {
            Contribution::Nothing { advise_hex: looks_hex }
        },
    }
}

/// Decides what a field adds to the total: its integer where it is one, else
/// its float where the float parse succeeded, else nothing.
pub fn contribution(reading: Reading, float_parsed: bool) -> (r: Contribution)
    ensures
        r == contribution_of(reading, float_parsed),
{
    match reading {
        Reading::Integer(v) => Contribution::Integer(v),
        Reading::NotInteger { looks_hex } => if float_parsed {
            Contribution::Float
        } else {
            Contribution::Nothing { advise_hex: looks_hex }
        },
    }
}

impl Contribution {
    /// Whether the line counts as a number that was read.
    pub fn counts(&self) -> (r: bool)
        ensures
            r <==> !(*self is Nothing),
    {
        !matches!(self, Contribution::Nothing { .. })
    }
}

/// A field that starts with `0x` is read in radix 16, in hex mode or not, and
/// without its prefix.
pub proof fn lemma_prefix_means_hex(clean: Seq<char>, hex: bool)
    requires
        has_hex_prefix(clean),
    ensures
        radix_for(clean, hex) == 16,
        digits_part(clean) == clean.skip(2),
        reading_of(digits_part(clean), radix_for(clean, hex)) == reading_of(clean.skip(2), 16),
{
}

/// A line with fewer fields than the one asked for reads as an empty field:
/// no integer, no hint of hex, so like any unreadable field it contributes
/// nothing unless the float parse of the empty text succeeds.
pub proof fn lemma_missing_field_is_empty(line: Seq<char>, field: usize, hex: bool, pattern: Seq<char>)
    requires
        field > 0,
        field - 1 >= regex_split(pattern, trimmed(line)).len(),
    ensures
        field_of(trimmed(line), field, pattern) == Seq::<char>::empty(),
        reading_of(
            digits_part(cleaned(field_of(trimmed(line), field, pattern))),
            radix_for(cleaned(field_of(trimmed(line), field, pattern)), hex),
        ) == (Reading::NotInteger { looks_hex: false }),
{
    let e = Seq::<char>::empty();
    assert(trim_start(e) == e);
    assert(trim_end(e) == e);
    reveal_with_fuel(Seq::filter, 1);
    assert(cleaned(e) =~= e);
}

/// Outside hex mode, a field without the `0x` prefix that is no decimal integer
/// and no float, but would be a hexadecimal integer, contributes nothing and
/// asks for the hint that hex mode may be missing.
pub proof fn lemma_missing_hex_flag_advised(clean: Seq<char>)
    requires
        !has_hex_prefix(clean),
        parse_integer(clean, 10) is None,
        parse_integer(clean, 16) is Some,
    ensures
        radix_for(clean, false) == 10,
        reading_of(digits_part(clean), radix_for(clean, false)) == (Reading::NotInteger {
            looks_hex: true,
        }),
        contribution_of(reading_of(digits_part(clean), radix_for(clean, false)), false) == (
        Contribution::Nothing { advise_hex: true }),
{
}

} // verus!
