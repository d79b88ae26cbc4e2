//! One word into Pig Latin.

use crate::casing::{is_capital, lowercase, lowercase_of, uppercase, uppercase_of};
use crate::vowel::{is_romance_vowel, starts_vowel};
use vstd::prelude::*;
use vstd::string::*;

verus! {

/// How a word starts, which decides what becomes of it.
pub enum Onset {
    /// With a vowel.
    Vowel,
    /// With a consonant that is not uppercase.
    Small,
    /// With an uppercase consonant.
    Capital {
        /// The lowercase form of the first character.
        lowered: String,
        /// The uppercase form of the second character, empty where the word
        /// has one character only.
        raised: String,
    },
}

/// An onset with its strings as sequences of characters.
pub enum OnsetView {
    /// With a vowel.
    Vowel,
    /// With a consonant that is not uppercase.
    Small,
    /// With an uppercase consonant, whose lowercase form is `lowered`; `raised`
    /// is the uppercase form of the character after it.
    Capital { lowered: Seq<char>, raised: Seq<char> },
}

impl View for Onset {
    type V = OnsetView;

    open spec fn view(&self) -> OnsetView {
        match self {
            Onset::Vowel => OnsetView::Vowel,
            Onset::Small => OnsetView::Small,
            Onset::Capital { lowered, raised } => OnsetView::Capital {
                lowered: lowered@,
                raised: raised@,
            },
        }
    }
}

/// The ending that every word gets.
pub open spec fn ay() -> Seq<char> {
    seq!['a', 'y']
}

/// What follows the first two characters of `word`.
pub open spec fn after_second(word: Seq<char>) -> Seq<char> {
    if word.len() > 2 {
        word.skip(2)
    } else {
        Seq::empty()
    }
}

/// The onset of `word`: a Romance vowel makes it start with a vowel, whatever
/// its case; else its case decides.
pub open spec fn onset_of(word: Seq<char>) -> OnsetView
    recommends
        word.len() > 0,
{
    if is_romance_vowel(word[0]) {
        OnsetView::Vowel
    } else if !is_capital(word[0]) {
        OnsetView::Small
    } else {
        OnsetView::Capital {
            lowered: lowercase(word[0]),
            raised: if word.len() > 1 {
                uppercase(word[1])
            } else {
                Seq::empty()
            },
        }
    }
}

/// What becomes of `word` with the onset `onset`. A word that starts with a
/// vowel is kept and gets `vowel_suffix` and "ay". Any other word has its
/// first character moved to the end and gets "ay"; where that character is
/// uppercase the word stays capitalized, the character that becomes the first
/// in uppercase and the one that moved in lowercase. The empty word stays
/// empty.
pub open spec fn assembled(word: Seq<char>, onset: OnsetView, vowel_suffix: Seq<char>) -> Seq<
    char,
> {
    if word.len() == 0 {
        word
    } else {
        match onset {
            OnsetView::Vowel => word + vowel_suffix + ay(),
            OnsetView::Small => word.skip(1).push(word[0]) + ay(),
            OnsetView::Capital { lowered, raised } => raised + after_second(word) + lowered + ay(),
        }
    }
}

/// The Pig Latin form of `word`.
pub open spec fn pig_word(word: Seq<char>, vowel_suffix: Seq<char>) -> Seq<char> {
    assembled(word, onset_of(word), vowel_suffix)
}

/// Appends the characters of `chars` from `lo` up to `hi`.
pub(crate) fn push_range(out: &mut String, chars: &[char], lo: usize, hi: usize)
    requires
        lo <= hi <= chars@.len(),
    ensures
        final(out)@ == old(out)@ + chars@.subrange(lo as int, hi as int),
{
    let mut i: usize = lo;
    while i < hi
        invariant
            lo <= i <= hi <= chars@.len(),
            out@ == old(out)@ + chars@.subrange(lo as int, i as int),
        decreases hi - i,
    {
        out.push(chars[i]);
        i = i + 1;
    }
}

/// Looks up the onset of the word that `chars` holds from `lo` up to `hi`.
pub(crate) fn onset_at(chars: &[char], lo: usize, hi: usize) -> (onset: Onset)
    requires
        lo < hi <= chars@.len(),
    ensures
        onset@ == onset_of(chars@.subrange(lo as int, hi as int)),
{
    let first = chars[lo];
    if starts_vowel(first) {
        Onset::Vowel
    } else if !first.is_uppercase() {
        Onset::Small
    } else {
        let lowered = lowercase_of(first);
        let raised = if hi - lo > 1 {
            uppercase_of(chars[lo + 1])
        } else {
            String::new()
        };
        Onset::Capital { lowered, raised }
    }
}

/// Appends what becomes of the word that `chars` holds from `lo` up to `hi`.
pub(crate) fn push_assembled(
    out: &mut String,
    chars: &[char],
    lo: usize,
    hi: usize,
    onset: &Onset,
    vowel_suffix: &str,
)
    requires
        lo <= hi <= chars@.len(),
    ensures
        final(out)@ == old(out)@ + assembled(
            chars@.subrange(lo as int, hi as int),
            onset@,
            vowel_suffix@,
        ),
{
    if lo == hi {
        return ;
    }
    match onset {
        Onset::Vowel => {
            push_range(out, chars, lo, hi);
            out.append(vowel_suffix);
        },
        Onset::Small => {
            push_range(out, chars, lo + 1, hi);
            out.push(chars[lo]);
        },
        Onset::Capital { lowered, raised } => {
            out.append(raised.as_str());
            if hi - lo > 2 {
                push_range(out, chars, lo + 2, hi);
            }
            out.append(lowered.as_str());
        },
    }
    out.push('a');
    out.push('y');
}

/// The characters of `s`, one by one.
pub(crate) fn to_chars(s: &str) -> (chars: Vec<char>)
    ensures
        chars@ == s@,
{
    let mut chars: Vec<char> = Vec::new();
    for c in it: s.chars()
        invariant
            it.seq() == s@,
            chars@ == it.seq().take(it.index()),
    {
        chars.push(c);
    }
    chars
}

/// Puts together what becomes of `word` with the onset `onset`: the word with
/// the vowel suffix and "ay" for a vowel, else the word with its first
/// character moved to the end, in the case that the onset gives, and "ay".
pub fn assemble(word: &[char], onset: &Onset, vowel_suffix: &str) -> (r: String)
    ensures
        r@ == assembled(word@, onset@, vowel_suffix@),
{
    let mut out = String::new();
    push_assembled(&mut out, word, 0, word.len(), onset, vowel_suffix);
    out
}

} // verus!
