//! Unicode character classes, looked up in the tables of the `regex` crate.
//!
//! A class is written as a pattern that matches one character of it. The
//! pattern is compiled once and then asked about single characters; what it
//! answers is known to the verifier only by name.

use regex::Regex;
use vstd::prelude::*;

verus! {

/// `regex::Regex`, a compiled pattern, of which the verifier sees nothing but
/// the language named below.
#[verifier::external_type_specification]
#[verifier::external_body]
pub struct ExRegex(Regex);

/// The haystacks in which a compiled pattern finds a match: those for which
/// `Regex::is_match` returns `true`.
pub uninterp spec fn language(re: Regex) -> Set<Seq<char>>;

/// What `Regex::new` makes of a pattern: `None` where it reports an error, else
/// the language of the compiled pattern.
pub uninterp spec fn pattern_language(pattern: Seq<char>) -> Option<Set<Seq<char>>>;

/// One character with the Unicode property `Alphabetic`.
pub const ALPHABETIC_PATTERN: &'static str = "\\p{Alphabetic}";

/// One character that ties letters together without being one: a join control,
/// a mark (such as a combining accent) or a piece of connector punctuation.
pub const GLUE_PATTERN: &'static str = "[\\p{Join_Control}\\p{Mark}\\p{Connector_Punctuation}]";

/// Whether the class that `pattern` describes holds `c`. It holds nothing where
/// the pattern does not compile.
pub open spec fn class_holds(pattern: Seq<char>, c: char) -> bool {
    pattern_language(pattern) matches Some(found) && found.contains(seq![c])
}

/// Whether `c` is alphabetic.
pub open spec fn is_alphabetic(c: char) -> bool {
    class_holds(ALPHABETIC_PATTERN@, c)
}

/// Whether `c` is a join control, a mark or connector punctuation.
pub open spec fn is_glue(c: char) -> bool {
    class_holds(GLUE_PATTERN@, c)
}

/// Whether both class patterns compile.
pub open spec fn classes_compile() -> bool {
    pattern_language(ALPHABETIC_PATTERN@) is Some && pattern_language(GLUE_PATTERN@) is Some
}

/// Whether `re` is the compiled form of `pattern`.
pub open spec fn compiled_from(re: Regex, pattern: Seq<char>) -> bool {
    pattern_language(pattern) == Some(language(re))
}

/// Calls `Regex::new` and drops the error. Claimed: a compiled pattern has the
/// language that the pattern is named to have, and a refusal is the one case in
/// which the pattern has none.
#[verifier::external_body]
pub(crate) fn compile(pattern: &str) -> (r: Option<Regex>)
    ensures
        r matches Some(re) ==> pattern_language(pattern@) == Some(language(re)),
        r is None ==> pattern_language(pattern@) is None,
{
    Regex::new(pattern).ok()
}

/// Calls `Regex::is_match` on the string that holds `c` alone. Claimed: the
/// answer is whether that one-character string is in the language of `re`.
#[verifier::external_body]
pub(crate) fn matches_char(re: &Regex, c: char) -> (r: bool)
    ensures
        r == language(*re).contains(seq![c]),
{
    let mut buf = [0u8; 4];
    re.is_match(c.encode_utf8(&mut buf))
}

/// Tests a character against a compiled class.
pub(crate) fn in_class(re: &Regex, c: char, Ghost(pattern): Ghost<Seq<char>>) -> (r: bool)
    requires
        compiled_from(*re, pattern),
    ensures
        r == class_holds(pattern, c),
{
    matches_char(re, c)
}

} // verus!
