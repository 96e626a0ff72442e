//! Picking a field out of a line by a delimiter pattern.
use vstd::prelude::*;


verus! {

#[verifier::external_type_specification]
#[verifier::external_body]
pub struct ExRegex(regex::Regex);

#[verifier::external_type_specification]
#[verifier::external_body]
pub struct ExRegexError(regex::Error);

/// The pieces of `haystack` between the matches of the regular expression
/// `pattern`, in order; empty pieces included.
pub uninterp spec fn regex_split(pattern: Seq<char>, haystack: Seq<char>) -> Seq<Seq<char>>;

/// Relies on `regex::Regex::new`, which compiles `pattern` or reports why it cannot.
#[verifier::external_body]
fn compile(pattern: &str) -> (r: Result<regex::Regex, regex::Error>) {
    regex::Regex::new(pattern)
}

/// Why a delimiter pattern was refused.
#[derive(Debug, Clone, Copy, PartialEq, Eq, Structural)]
pub enum DelimiterError {
    /// The pattern is not a valid regular expression.
    Syntax,
    /// The pattern compiles to more than the regular expression engine allows.
    TooBig,
}

/// Relies on `regex::Error`: `CompiledTooBig` for a pattern over the size limit,
/// `Syntax` (or a later variant) for any other refusal.
#[verifier::external_body]
fn classify(e: &regex::Error) -> (r: DelimiterError) {
    match e {
        regex::Error::CompiledTooBig(_) => DelimiterError::TooBig,
        _ => DelimiterError::Syntax,
    }
}

/// A compiled field delimiter, remembered together with its pattern.
pub struct Delimiter {
    pattern: String,
    re: regex::Regex,
}

impl View for Delimiter {
    type V = Seq<char>;

    /// The pattern that the delimiter was compiled from.
    closed spec fn view(&self) -> Seq<char> {
        self.pattern@
    }
}

/// Relies on `regex::Regex::split`: the pieces of `s` between the matches of the
/// regular expression that `d` was compiled from. The fields of `Delimiter` are
/// private and only `Delimiter::new` fills them, so `d.re` is always the
/// compiled form of `d.pattern`.
#[verifier::external_body]
fn split_pieces(d: &Delimiter, s: &str) -> (r: Vec<String>)
    ensures
        r@.map_values(|p: String| p@) == regex_split(d@, s@),
{
    d.re.split(s).map(|p| p.to_string()).collect()
}

/// The text of field `field` (counted from one) of the line `line`; the whole
/// line for field zero; empty where the line has fewer fields.
pub open spec fn field_of(line: Seq<char>, field: usize, pattern: Seq<char>) -> Seq<char> {
    if field == 0 {
        line
    } else {
        let pieces = regex_split(pattern, line);
        if field - 1 < pieces.len() {
            pieces[field - 1]
        } else {
            Seq::empty()
        }
    }
}

impl Delimiter {
    /// Compiles the regular expression `pattern` into a delimiter.
    pub fn new(pattern: &str) -> (r: Result<Delimiter, DelimiterError>)
        ensures
            r matches Ok(d) ==> d@ == pattern@,
    {
        match compile(pattern) {
            Ok(re) => Ok(Delimiter { pattern: pattern.to_owned(), re }),
            Err(e) => Err(classify(&e)),
        }
    }

    /// The pattern that the delimiter was compiled from.
    pub fn pattern(&self) -> (r: &str)
        ensures
            r@ == self@,
    {
        self.pattern.as_str()
    }

    /// The text of field `field` of `line` (see `field_of`).
    pub fn field(&self, line: &str, field: usize) -> (r: String)
        ensures
            r@ == field_of(line@, field, self@),
    {
        if field == 0 {
            return line.to_owned();
        }
        let pieces = split_pieces(self, line);
        let ghost views = pieces@.map_values(|p: String| p@);
        if field - 1 < pieces.len() {
            assert(views[field - 1] == pieces@[field - 1]@);
            pieces[field - 1].clone()
        } else {
            String::new()
        }
    }
}

} // verus!
