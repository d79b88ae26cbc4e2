//! How a text falls into words and gaps, and what becomes of it.
//!
//! Each character is a letter, a joiner or neither. A word starts on a letter,
//! runs on over letters and joiners, and ends on the last letter of that run.
//! Words are taken from left to right, each as long as it can be. Whatever lies
//! between them is a gap.

use crate::classes::{is_alphabetic, is_glue};
use crate::word::pig_word;
use vstd::prelude::*;

verus! {

/// What a character is to a word.
#[derive(Clone, Copy, PartialEq, Eq, Structural, Debug)]
pub enum CharKind {
    /// An alphabetic character: it may start and end a word.
    Letter,
    /// A character that may stand inside a word, between letters.
    Joiner,
    /// A character that no word holds.
    Other,
}

/// The kind of `c`. Alphabetic characters are letters. Joiners are the join
/// controls, marks and connector punctuation, the apostrophe, the right single
/// quotation mark, and the hyphen unless hyphens split words.
pub open spec fn kind_of(c: char, split_hyphens: bool) -> CharKind {
    if is_alphabetic(c) {
        CharKind::Letter
    } else if is_glue(c) || c == '\'' || c == '\u{2019}' || (c == '-' && !split_hyphens) {
        CharKind::Joiner
    } else {
        CharKind::Other
    }
}

/// The kinds of the characters of `s`, one for one.
pub open spec fn kinds_of(s: Seq<char>, split_hyphens: bool) -> Seq<CharKind> {
    Seq::new(s.len(), |i: int| kind_of(s[i], split_hyphens))
}

/// Whether `kinds` are those of a word: it starts and ends on a letter and
/// holds letters and joiners only.
pub open spec fn is_word(kinds: Seq<CharKind>) -> bool {
    &&& kinds.len() > 0
    &&& kinds.first() == CharKind::Letter
    &&& kinds.last() == CharKind::Letter
    &&& forall|i: int| 0 <= i < kinds.len() ==> #[trigger] kinds[i] != CharKind::Other
}

/// The first position at or after `from` that holds neither a letter nor a
/// joiner, or the length of `kinds` where there is none.
pub open spec fn run_end(kinds: Seq<CharKind>, from: int) -> int
    decreases kinds.len() - from,
{
    if 0 <= from < kinds.len() && kinds[from] != CharKind::Other {
        run_end(kinds, from + 1)
    } else {
        from
    }
}

/// The position after the last letter from `lo` up to `hi`, or `lo` where
/// there is none.
pub open spec fn last_letter_end(kinds: Seq<CharKind>, lo: int, hi: int) -> int
    decreases hi - lo,
{
    if hi <= lo {
        lo
    } else if 0 < hi <= kinds.len() && kinds[hi - 1] == CharKind::Letter {
        hi
    } else {
        last_letter_end(kinds, lo, hi - 1)
    }
}

/// Where the word that starts at `start` ends: after the last letter of the
/// run of letters and joiners that `start` begins.
pub open spec fn word_end(kinds: Seq<CharKind>, start: int) -> int {
    last_letter_end(kinds, start, run_end(kinds, start))
}

/// The first position at or after `from` that holds a letter, or the length
/// of `kinds` where there is none.
pub open spec fn gap_end(kinds: Seq<CharKind>, from: int) -> int
    decreases kinds.len() - from,
{
    if 0 <= from < kinds.len() && kinds[from] != CharKind::Letter {
        gap_end(kinds, from + 1)
    } else {
        from
    }
}

/// The first word at or after `from`, as the positions of its first character
/// and after its last, or none where no letter follows.
pub open spec fn first_word(kinds: Seq<CharKind>, from: int) -> Option<(int, int)> {
    let start = gap_end(kinds, from);
    if 0 <= start < kinds.len() {
        Some((start, word_end(kinds, start)))
    } else {
        None
    }
}

/// A stretch of a text.
pub enum Piece {
    /// A word, which is transformed.
    Word(Seq<char>),
    /// What lies between two words, which is kept.
    Gap(Seq<char>),
}

impl Piece {
    /// The characters of the piece as they stand in the text.
    pub open spec fn source(self) -> Seq<char> {
        match self {
            Piece::Word(w) => w,
            Piece::Gap(g) => g,
        }
    }

    /// The characters that the piece gives to the output.
    pub open spec fn rendered(self, vowel_suffix: Seq<char>) -> Seq<char> {
        match self {
            Piece::Word(w) => pig_word(w, vowel_suffix),
            Piece::Gap(g) => g,
        }
    }
}

/// The pieces of `s` from `from` on, where `kinds` are the kinds of its
/// characters.
pub open spec fn pieces_from(s: Seq<char>, kinds: Seq<CharKind>, from: int) -> Seq<Piece>
    recommends
        kinds.len() == s.len(),
    decreases kinds.len() - from,
{
    if from < 0 || from >= kinds.len() {
        Seq::empty()
    } else if kinds[from] == CharKind::Letter {
        let end = word_end(kinds, from);
        proof {
            lemma_word_end_bounds(kinds, from);
        }
        seq![Piece::Word(s.subrange(from, end))] + pieces_from(s, kinds, end)
    } else {
        let end = gap_end(kinds, from);
        proof {
            lemma_gap_end_bounds(kinds, from);
        }
        seq![Piece::Gap(s.subrange(from, end))] + pieces_from(s, kinds, end)
    }
}

/// The words and gaps of `s`, in order.
pub open spec fn pieces(s: Seq<char>, split_hyphens: bool) -> Seq<Piece> {
    pieces_from(s, kinds_of(s, split_hyphens), 0)
}

/// The pieces put together as they stood in the text.
pub open spec fn source_of(ps: Seq<Piece>) -> Seq<char>
    decreases ps.len(),
{
    if ps.len() == 0 {
        Seq::empty()
    } else {
        ps.first().source() + source_of(ps.drop_first())
    }
}

/// The pieces put together as they stand in the output.
pub open spec fn rendering_of(ps: Seq<Piece>, vowel_suffix: Seq<char>) -> Seq<char>
    decreases ps.len(),
{
    if ps.len() == 0 {
        Seq::empty()
    } else {
        ps.first().rendered(vowel_suffix) + rendering_of(ps.drop_first(), vowel_suffix)
    }
}

/// The Pig Latin form of a text: every word transformed, every gap kept, all
/// in their order.
pub open spec fn pig_text(s: Seq<char>, vowel_suffix: Seq<char>, split_hyphens: bool) -> Seq<char> {
    rendering_of(pieces(s, split_hyphens), vowel_suffix)
}

/// A run ends at or after the place where it starts, within the text, on a
/// character that is neither letter nor joiner, and holds none such.
pub proof fn lemma_run_end_bounds(kinds: Seq<CharKind>, from: int)
    requires
        0 <= from <= kinds.len(),
    ensures
        from <= run_end(kinds, from) <= kinds.len(),
        run_end(kinds, from) < kinds.len() ==> kinds[run_end(kinds, from)] == CharKind::Other,
        forall|i: int| from <= i < run_end(kinds, from) ==> #[trigger] kinds[i] != CharKind::Other,
    decreases kinds.len() - from,
{
    if from < kinds.len() && kinds[from] != CharKind::Other {
        lemma_run_end_bounds(kinds, from + 1);
    }
}

/// The last letter of a stretch lies in it, and no letter follows it there.
pub proof fn lemma_last_letter_end_bounds(kinds: Seq<CharKind>, lo: int, hi: int)
    requires
        0 <= lo <= hi <= kinds.len(),
    ensures
        lo <= last_letter_end(kinds, lo, hi) <= hi,
        lo < last_letter_end(kinds, lo, hi) ==> kinds[last_letter_end(kinds, lo, hi) - 1]
            == CharKind::Letter,
        forall|i: int|
            last_letter_end(kinds, lo, hi) <= i < hi ==> #[trigger] kinds[i] != CharKind::Letter,
    decreases hi - lo,
{
    if lo < hi && kinds[hi - 1] != CharKind::Letter {
        lemma_last_letter_end_bounds(kinds, lo, hi - 1);
    }
}

/// A word that starts on a letter holds at least that letter and ends within
/// its run.
pub proof fn lemma_word_end_bounds(kinds: Seq<CharKind>, start: int)
    requires
        0 <= start < kinds.len(),
        kinds[start] == CharKind::Letter,
    ensures
        start < word_end(kinds, start) <= run_end(kinds, start) <= kinds.len(),
{
    lemma_run_end_bounds(kinds, start + 1);
    lemma_last_letter_end_bounds(kinds, start, run_end(kinds, start));
}

/// A gap ends at or after the place where it starts, on the next letter or
/// with the text, and holds no letter.
pub proof fn lemma_gap_end_bounds(kinds: Seq<CharKind>, from: int)
    requires
        0 <= from <= kinds.len(),
    ensures
        from <= gap_end(kinds, from) <= kinds.len(),
        from < kinds.len() && kinds[from] != CharKind::Letter ==> from < gap_end(kinds, from),
        gap_end(kinds, from) < kinds.len() ==> kinds[gap_end(kinds, from)] == CharKind::Letter,
        forall|i: int| from <= i < gap_end(kinds, from) ==> #[trigger] kinds[i] != CharKind::Letter,
    decreases kinds.len() - from,
{
    if from < kinds.len() && kinds[from] != CharKind::Letter {
        lemma_gap_end_bounds(kinds, from + 1);
    }
}

/// Rendering takes the pieces one after the other.
pub proof fn lemma_rendering_of_first(first: Piece, rest: Seq<Piece>, vowel_suffix: Seq<char>)
    ensures
        rendering_of(seq![first] + rest, vowel_suffix) == first.rendered(vowel_suffix)
            + rendering_of(rest, vowel_suffix),
{
    assert((seq![first] + rest).drop_first() == rest);
}

/// Finds the first word at or after `from`: the positions of its first
/// character and after its last. There is none where no letter follows.
pub fn next_word(kinds: &[CharKind], from: usize) -> (r: Option<(usize, usize)>)
    ensures
        match r {
            Some((start, end)) => first_word(kinds@, from as int) == Some(
                (start as int, end as int),
            ),
            None => first_word(kinds@, from as int) is None,
        },
{
    let n = kinds.len();
    if from >= n {
        return None;
    }
    let mut start: usize = from;
    while start < n && kinds[start] != CharKind::Letter
        invariant
            n == kinds@.len(),
            from <= start <= n,
            gap_end(kinds@, from as int) == gap_end(kinds@, start as int),
        decreases n - start,
    {
        start = start + 1;
    }
    if start >= n {
        return None;
    }
    let mut end: usize = start + 1;
    let mut at: usize = start + 1;
    while at < n && kinds[at] != CharKind::Other
        invariant
            n == kinds@.len(),
            start < end <= at <= n,
            kinds@[start as int] == CharKind::Letter,
            run_end(kinds@, start as int) == run_end(kinds@, at as int),
            end == last_letter_end(kinds@, start as int, at as int),
        decreases n - at,
    {
        if kinds[at] == CharKind::Letter {
            end = at + 1;
        }
        at = at + 1;
    }
    Some((start, end))
}

} // verus!
