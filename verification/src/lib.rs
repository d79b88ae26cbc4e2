//! Text to Pig Latin.
//!
//! Every word of a text is rearranged: a word that starts with a consonant has
//! that letter moved to its end, a word that starts with a vowel gets a
//! configurable suffix, and both then get "ay". Whatever is not part of a
//! word stays where it is. Words are told apart by Unicode character classes,
//! so accented letters, combining marks and apostrophes do not break a word.
//!
//! The contracts speak of three models: [`word::pig_word`] for one word,
//! [`text::pieces`] for the way a text falls into words and gaps, and
//! [`text::pig_text`] for a whole text. [`laws`] holds what follows from them.

pub mod casing;
pub mod classes;
pub mod laws;
pub mod text;
pub mod transformer;
pub mod vowel;
pub mod word;

pub use transformer::IgpayAtinlay;
