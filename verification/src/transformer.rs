//! The transformer: a dialect of Pig Latin with its compiled character classes.

use crate::classes::{
    classes_compile, compile, compiled_from, in_class, ALPHABETIC_PATTERN, GLUE_PATTERN,
};
use crate::text::{
    kind_of, kinds_of, lemma_gap_end_bounds, lemma_rendering_of_first,
    lemma_word_end_bounds, next_word, pieces_from, pig_text, rendering_of, CharKind, Piece,
};
use crate::word::{assemble, onset_at, pig_word, push_assembled, push_range, to_chars};
use regex::Regex;
use vstd::prelude::*;
use vstd::string::*;

verus! {

/// What tells one dialect of Pig Latin from another.
pub struct Dialect {
    /// What a word that starts with a vowel gets before "ay".
    pub vowel_suffix: Seq<char>,
    /// Whether a hyphen ends a word.
    pub split_hyphens: bool,
}

/// Transformer from text to Pig Latin.
pub struct IgpayAtinlay {
    alphabetic: Regex,
    glue: Regex,
    vowel_suffix: String,
    split_hyphens: bool,
}

impl View for IgpayAtinlay {
    type V = Dialect;

    closed spec fn view(&self) -> Dialect {
        Dialect { vowel_suffix: self.vowel_suffix@, split_hyphens: self.split_hyphens }
    }
}

impl IgpayAtinlay {
    #[verifier::type_invariant]
    spec fn classes_ready(&self) -> bool {
        &&& compiled_from(self.alphabetic, ALPHABETIC_PATTERN@)
        &&& compiled_from(self.glue, GLUE_PATTERN@)
    }

    /// Creates a transformer. `vowel_suffix` is what a word that starts with a
    /// vowel gets before "ay": mostly "w" or "h", but "j" or nothing are in
    /// use too. With `split_hyphens` a hyphen ends a word; without it a word
    /// may hold hyphens.
    ///
    /// The character classes are compiled here, which `try_new` tests first.
    pub fn new(vowel_suffix: &str, split_hyphens: bool) -> (r: Self)
        requires
            classes_compile(),
        ensures
            r@ == (Dialect { vowel_suffix: vowel_suffix@, split_hyphens }),
    {
        IgpayAtinlay {
            alphabetic: compile(ALPHABETIC_PATTERN).unwrap(),
            glue: compile(GLUE_PATTERN).unwrap(),
            vowel_suffix: String::from_str(vowel_suffix),
            split_hyphens,
        }
    }

    /// Creates a transformer as `new` does, or none where a character class
    /// does not compile.
    pub fn try_new(vowel_suffix: &str, split_hyphens: bool) -> (r: Option<Self>)
        ensures
            r is Some <==> classes_compile(),
            r matches Some(t) ==> t@ == (Dialect { vowel_suffix: vowel_suffix@, split_hyphens }),
    {
        if compile(ALPHABETIC_PATTERN).is_some() && compile(GLUE_PATTERN).is_some() {
            Some(Self::new(vowel_suffix, split_hyphens))
        } else {
            None
        }
    }

    /// Transforms `word` to Pig Latin. A word that starts with a vowel of a
    /// Romance language gets the vowel suffix and "ay". Any other word has its
    /// first character moved to the end, stays capitalized if it was, and gets
    /// "ay". The empty word stays empty.
    pub fn word_to_pig_latin(&self, word: &str) -> (r: String)
        ensures
            r@ == pig_word(word@, self@.vowel_suffix),
    {
        let chars = to_chars(word);
        if chars.len() == 0 {
            return String::new();
        }
        let onset = onset_at(chars.as_slice(), 0, chars.len());
        assemble(chars.as_slice(), &onset, self.vowel_suffix.as_str())
    }

    /// Looks up the kind of `c`.
    fn kind(&self, c: char) -> (k: CharKind)
        ensures
            k == kind_of(c, self@.split_hyphens),
    {
        proof {
            use_type_invariant(self);
        }
        if in_class(&self.alphabetic, c, Ghost(ALPHABETIC_PATTERN@)) {
            CharKind::Letter
        } else if c == '\'' || c == '\u{2019}' || (c == '-' && !self.split_hyphens) || in_class(
            &self.glue,
            c,
            Ghost(GLUE_PATTERN@),
        ) {
            CharKind::Joiner
        } else {
            CharKind::Other
        }
    }

    /// Looks up the kind of each character.
    fn classify(&self, chars: &[char]) -> (kinds: Vec<CharKind>)
        ensures
            kinds@ == kinds_of(chars@, self@.split_hyphens),
    {
        let mut kinds: Vec<CharKind> = Vec::new();
        let mut i: usize = 0;
        while i < chars.len()
            invariant
                i <= chars@.len(),
                kinds@ == kinds_of(chars@.take(i as int), self@.split_hyphens),
            decreases chars@.len() - i,
        {
            kinds.push(self.kind(chars[i]));
            i = i + 1;
        }
        kinds
    }

    /// Transforms `text` to Pig Latin: every word as `word_to_pig_latin` does,
    /// with everything between the words kept as it is.
    pub fn text_to_pig_latin(&self, text: &str) -> (r: String)
        ensures
            r@ == pig_text(text@, self@.vowel_suffix, self@.split_hyphens),
    {
        let chars = to_chars(text);
        let kinds = self.classify(chars.as_slice());
        let ghost s = chars@;
        let ghost ks = kinds@;
        let ghost suffix = self@.vowel_suffix;
        let mut out = String::new();
        let mut at: usize = 0;
        loop
            invariant_except_break
                out@ + rendering_of(pieces_from(s, ks, at as int), suffix) == pig_text(
                    s,
                    suffix,
                    self@.split_hyphens,
                ),
            invariant
                s == chars@,
                ks == kinds@,
                ks.len() == s.len(),
                suffix == self@.vowel_suffix,
                at <= chars.len(),
            ensures
                out@ == pig_text(s, suffix, self@.split_hyphens),
            decreases chars.len() - at,
        {
            let found = next_word(kinds.as_slice(), at);
            let gap: usize = match found {
                Some((start, _)) => start,
                None => chars.len(),
            };
            proof {
                lemma_gap_end_bounds(ks, at as int);
                if at < gap {
                    lemma_rendering_of_first(
                        Piece::Gap(s.subrange(at as int, gap as int)),
                        pieces_from(s, ks, gap as int),
                        suffix,
                    );
                }
            }
            push_range(&mut out, chars.as_slice(), at, gap);
            match found {
                Some((start, end)) => {
                    proof {
                        lemma_word_end_bounds(ks, start as int);
                        lemma_rendering_of_first(
                            Piece::Word(s.subrange(start as int, end as int)),
                            pieces_from(s, ks, end as int),
                            suffix,
                        );
                    }
                    let onset = onset_at(chars.as_slice(), start, end);
                    push_assembled(
                        &mut out,
                        chars.as_slice(),
                        start,
                        end,
                        &onset,
                        self.vowel_suffix.as_str(),
                    );
                    at = end;
                },
                None => {
                    break ;
                },
            }
        }
        out
    }
}

} // verus!
