//! What holds of every text.

use crate::classes::{is_alphabetic, is_glue};
use crate::text::{
    gap_end, is_word, kind_of, kinds_of, lemma_gap_end_bounds, lemma_last_letter_end_bounds,
    lemma_run_end_bounds, lemma_word_end_bounds, pieces, pieces_from, pig_text, rendering_of,
    run_end, source_of, word_end, CharKind, Piece,
};
use vstd::prelude::*;

verus! {

/// Whether no character of `s` is alphabetic.
pub open spec fn has_no_letter(s: Seq<char>) -> bool {
    forall|i: int| 0 <= i < s.len() ==> !is_alphabetic(#[trigger] s[i])
}

/// Whether `s` holds no hyphen.
pub open spec fn has_no_hyphen(s: Seq<char>) -> bool {
    forall|i: int| 0 <= i < s.len() ==> #[trigger] s[i] != '-'
}

/// One piece alone gives its own source and its own rendering.
pub proof fn lemma_single_piece(p: Piece, vowel_suffix: Seq<char>)
    ensures
        source_of(seq![p]) == p.source(),
        rendering_of(seq![p], vowel_suffix) == p.rendered(vowel_suffix),
{
    let one = seq![p];
    assert(source_of(one.drop_first()) == Seq::<char>::empty());
    assert(rendering_of(one.drop_first(), vowel_suffix) == Seq::<char>::empty());
}

/// Putting pieces together goes piece by piece: the source and the rendering
/// of two runs of pieces, one after the other, are those of each run, one after
/// the other.
pub proof fn lemma_joined_pieces(a: Seq<Piece>, b: Seq<Piece>, vowel_suffix: Seq<char>)
    ensures
        source_of(a + b) == source_of(a) + source_of(b),
        rendering_of(a + b, vowel_suffix) == rendering_of(a, vowel_suffix) + rendering_of(
            b,
            vowel_suffix,
        ),
    decreases a.len(),
{
    if a.len() > 0 {
        lemma_joined_pieces(a.drop_first(), b, vowel_suffix);
        assert((a + b).drop_first() == a.drop_first() + b);
    }
}

/// The pieces from a position on, put together, are the text from that
/// position on.
pub proof fn lemma_pieces_from_cover(s: Seq<char>, kinds: Seq<CharKind>, from: int)
    requires
        kinds.len() == s.len(),
        0 <= from <= s.len(),
    ensures
        source_of(pieces_from(s, kinds, from)) == s.skip(from),
    decreases s.len() - from,
{
    if from < s.len() {
        let word = kinds[from] == CharKind::Letter;
        let end = if word {
            word_end(kinds, from)
        } else {
            gap_end(kinds, from)
        };
        let first = if word {
            Piece::Word(s.subrange(from, end))
        } else {
            Piece::Gap(s.subrange(from, end))
        };
        if word {
            lemma_word_end_bounds(kinds, from);
        } else {
            lemma_gap_end_bounds(kinds, from);
        }
        let rest = pieces_from(s, kinds, end);
        lemma_pieces_from_cover(s, kinds, end);
        assert((seq![first] + rest).drop_first() == rest);
    }
}

/// The pieces of a text, put together as they stood, are the text: nothing is
/// lost, added or moved when a text is cut into words and gaps.
pub proof fn lemma_pieces_cover(s: Seq<char>, split_hyphens: bool)
    ensures
        source_of(pieces(s, split_hyphens)) == s,
{
    lemma_pieces_from_cover(s, kinds_of(s, split_hyphens), 0);
}

/// Every piece stands in the output where it stood in the text: before it
/// what became of the pieces before it, after it what became of the pieces
/// after it. A gap is there character for character; a word is there
/// transformed.
pub proof fn lemma_piece_in_place(
    s: Seq<char>,
    vowel_suffix: Seq<char>,
    split_hyphens: bool,
    k: int,
)
    requires
        0 <= k < pieces(s, split_hyphens).len(),
    ensures
        ({
            let ps = pieces(s, split_hyphens);
            &&& s == source_of(ps.take(k)) + ps[k].source() + source_of(ps.skip(k + 1))
            &&& pig_text(s, vowel_suffix, split_hyphens) == rendering_of(ps.take(k), vowel_suffix)
                + ps[k].rendered(vowel_suffix) + rendering_of(ps.skip(k + 1), vowel_suffix)
            &&& ps[k] is Gap ==> ps[k].rendered(vowel_suffix) == ps[k].source()
        }),
{
    let ps = pieces(s, split_hyphens);
    let one = seq![ps[k]];
    lemma_pieces_cover(s, split_hyphens);
    assert(ps == ps.take(k) + one + ps.skip(k + 1));
    lemma_joined_pieces(ps.take(k) + one, ps.skip(k + 1), vowel_suffix);
    lemma_joined_pieces(ps.take(k), one, vowel_suffix);
    lemma_single_piece(ps[k], vowel_suffix);
}

/// The word that starts at a letter is a word, and the longest one that starts
/// there.
pub proof fn lemma_word_is_longest(kinds: Seq<CharKind>, start: int)
    requires
        0 <= start < kinds.len(),
        kinds[start] == CharKind::Letter,
    ensures
        start < word_end(kinds, start) <= kinds.len(),
        is_word(kinds.subrange(start, word_end(kinds, start))),
        forall|end: int|
            word_end(kinds, start) < end <= kinds.len() ==> !is_word(
                #[trigger] kinds.subrange(start, end),
            ),
{
    let run = run_end(kinds, start);
    let we = word_end(kinds, start);
    lemma_word_end_bounds(kinds, start);
    lemma_run_end_bounds(kinds, start);
    lemma_last_letter_end_bounds(kinds, start, run);
    assert forall|end: int| we < end <= kinds.len() implies !is_word(
        #[trigger] kinds.subrange(start, end),
    ) by {
        // A longer stretch ends after the last letter of the run, or holds
        // the character that ends the run.
        if end > run {
            assert(kinds.subrange(start, end)[run - start] == kinds[run]);
        }
    }
}

/// What the pieces from a position on are like.
proof fn lemma_pieces_from_shape(s: Seq<char>, split_hyphens: bool, from: int, k: int)
    requires
        0 <= from <= s.len(),
        0 <= k < pieces_from(s, kinds_of(s, split_hyphens), from).len(),
    ensures
        ({
            let ps = pieces_from(s, kinds_of(s, split_hyphens), from);
            &&& ps[k] matches Piece::Word(w) ==> is_word(kinds_of(w, split_hyphens))
            &&& ps[k] matches Piece::Gap(g) ==> g.len() > 0 && has_no_letter(g)
            &&& k + 1 < ps.len() ==> (ps[k] is Gap <==> ps[k + 1] is Word)
            &&& ps[0] is Word <==> is_alphabetic(s[from])
        }),
    decreases s.len() - from,
{
    let kinds = kinds_of(s, split_hyphens);
    if kinds[from] == CharKind::Letter {
        let end = word_end(kinds, from);
        lemma_word_is_longest(kinds, from);
        lemma_run_end_bounds(kinds, from);
        lemma_last_letter_end_bounds(kinds, from, run_end(kinds, from));
        let rest = pieces_from(s, kinds, end);
        assert(kinds_of(s.subrange(from, end), split_hyphens) == kinds.subrange(from, end));
        if rest.len() > 0 {
            lemma_pieces_from_shape(s, split_hyphens, end, 0);
        }
        if k > 0 {
            lemma_pieces_from_shape(s, split_hyphens, end, k - 1);
        }
    } else {
        let end = gap_end(kinds, from);
        lemma_gap_end_bounds(kinds, from);
        let rest = pieces_from(s, kinds, end);
        let g = s.subrange(from, end);
        assert forall|i: int| 0 <= i < g.len() implies !is_alphabetic(#[trigger] g[i]) by {
            assert(kinds[from + i] != CharKind::Letter);
        }
        if rest.len() > 0 {
            lemma_pieces_from_shape(s, split_hyphens, end, 0);
        }
        if k > 0 {
            lemma_pieces_from_shape(s, split_hyphens, end, k - 1);
        }
    }
}

/// Words and gaps take turns. Every word piece of a text is a word; every gap
/// is not empty and holds nothing alphabetic; so every alphabetic character
/// of the text lies in a word.
pub proof fn lemma_pieces_shape(s: Seq<char>, split_hyphens: bool, k: int)
    requires
        0 <= k < pieces(s, split_hyphens).len(),
    ensures
        ({
            let ps = pieces(s, split_hyphens);
            &&& ps[k] matches Piece::Word(w) ==> is_word(kinds_of(w, split_hyphens))
            &&& ps[k] matches Piece::Gap(g) ==> g.len() > 0 && has_no_letter(g)
            &&& k + 1 < ps.len() ==> (ps[k] is Gap <==> ps[k + 1] is Word)
        }),
{
    lemma_pieces_from_shape(s, split_hyphens, 0, k);
}

/// A text without an alphabetic character comes out as it went in, whatever
/// the dialect. The empty text is one of these.
pub proof fn lemma_no_letter_no_change(s: Seq<char>, vowel_suffix: Seq<char>, split_hyphens: bool)
    requires
        has_no_letter(s),
    ensures
        pig_text(s, vowel_suffix, split_hyphens) == s,
{
    if s.len() > 0 {
        let kinds = kinds_of(s, split_hyphens);
        lemma_gap_end_bounds(kinds, 0);
        let whole = Piece::Gap(s.subrange(0, s.len() as int));
        assert(pieces_from(s, kinds, s.len() as int) == Seq::<Piece>::empty());
        lemma_single_piece(whole, vowel_suffix);
    }
}

/// A text made of whitespace, punctuation, digits and whatever else is not
/// alphabetic is left alone however often it is transformed.
pub proof fn lemma_passthrough_is_stable(
    s: Seq<char>,
    vowel_suffix: Seq<char>,
    split_hyphens: bool,
)
    requires
        has_no_letter(s),
    ensures
        pig_text(s, vowel_suffix, split_hyphens) == s,
        pig_text(pig_text(s, vowel_suffix, split_hyphens), vowel_suffix, split_hyphens) == s,
{
    lemma_no_letter_no_change(s, vowel_suffix, split_hyphens);
}

/// What the hyphen setting changes: the kind of the hyphen and of nothing
/// else. A hyphen may stand inside a word unless hyphens split words; then it
/// is left to the character classes, as any other character is.
pub proof fn lemma_setting_is_for_hyphen(c: char)
    ensures
        kind_of('-', false) != CharKind::Other,
        !is_alphabetic('-') && !is_glue('-') ==> kind_of('-', true) == CharKind::Other,
        c != '-' ==> kind_of(c, true) == kind_of(c, false),
{
}

/// The hyphen setting matters to hyphens only: a text without a hyphen has
/// the same pieces, and so the same Pig Latin form, either way.
pub proof fn lemma_setting_needs_hyphen(s: Seq<char>, vowel_suffix: Seq<char>)
    requires
        has_no_hyphen(s),
    ensures
        pieces(s, true) == pieces(s, false),
        pig_text(s, vowel_suffix, true) == pig_text(s, vowel_suffix, false),
{
    assert(kinds_of(s, true) == kinds_of(s, false));
}

} // verus!
