//! Letter case, as the standard library's Unicode tables have it.

use vstd::prelude::*;

verus! {

/// Whether `c` is an uppercase character: what `char::is_uppercase` returns.
pub uninterp spec fn is_capital(c: char) -> bool;

/// The uppercase form of `c`, which may be several characters, and is `c`
/// itself where it has none: what `char::to_uppercase` yields.
pub uninterp spec fn uppercase(c: char) -> Seq<char>;

/// The lowercase form of `c`, which may be several characters, and is `c`
/// itself where it has none: what `char::to_lowercase` yields.
pub uninterp spec fn lowercase(c: char) -> Seq<char>;

/// `char::is_uppercase` answers by the Unicode property `Uppercase`. Claimed:
/// the answer depends on the character alone.
pub assume_specification[ char::is_uppercase ](c: char) -> (r: bool)
    ensures
        r == is_capital(c),
;

/// Calls `char::to_uppercase` and gathers what it yields. Claimed: the
/// characters depend on `c` alone and come in the order yielded.
#[verifier::external_body]
pub(crate) fn uppercase_of(c: char) -> (r: String)
    ensures
        r@ == uppercase(c),
{
    c.to_uppercase().collect()
}

/// Calls `char::to_lowercase` and gathers what it yields. Claimed: the
/// characters depend on `c` alone and come in the order yielded.
#[verifier::external_body]
pub(crate) fn lowercase_of(c: char) -> (r: String)
    ensures
        r@ == lowercase(c),
{
    c.to_lowercase().collect()
}

/// `String::push` appends one character.
pub assume_specification[ String::push ](s: &mut String, c: char)
    ensures
        final(s)@ == old(s)@.push(c),
;

} // verus!
