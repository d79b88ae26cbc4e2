//! The vowel test of the `is-vowel` crate.

use is_vowel::IsRomanceVowel;
use vstd::prelude::*;

verus! {

/// The first character of the compatibility decomposition (Unicode
/// normalization form KD) of `c`: an accented letter gives its base letter.
pub uninterp spec fn nfkd_head(c: char) -> char;

/// The ten plain vowels.
pub open spec fn is_base_vowel(c: char) -> bool {
    ||| c == 'a'
    ||| c == 'e'
    ||| c == 'i'
    ||| c == 'o'
    ||| c == 'u'
    ||| c == 'A'
    ||| c == 'E'
    ||| c == 'I'
    ||| c == 'O'
    ||| c == 'U'
}

/// Whether `c` counts as a vowel in a Romance language: whether it is a plain
/// vowel once its accents are taken off.
pub open spec fn is_romance_vowel(c: char) -> bool {
    is_base_vowel(nfkd_head(c))
}

/// Calls `IsRomanceVowel::is_romance_vowel`. Claimed, as that crate documents
/// it: the character is decomposed by normalization form KD, and the answer is
/// whether the first character of the decomposition is one of "aeiouAEIOU".
#[verifier::external_body]
pub(crate) fn starts_vowel(c: char) -> (r: bool)
    ensures
        r == is_base_vowel(nfkd_head(c)),
{
    c.is_romance_vowel()
}

} // verus!
