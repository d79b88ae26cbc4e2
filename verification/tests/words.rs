use igpay_atinlay::word::{assemble, Onset};
use igpay_atinlay::IgpayAtinlay;

fn chars(s: &str) -> Vec<char> {
    s.chars().collect()
}

fn h() -> IgpayAtinlay {
    IgpayAtinlay::new("h", false)
}

#[test]
fn vowel_word_gets_suffix_and_ay() {
    assert_eq!(h().word_to_pig_latin("apple"), "applehay");
}

#[test]
fn consonant_word_is_rotated() {
    assert_eq!(h().word_to_pig_latin("pig"), "igpay");
    assert_eq!(h().word_to_pig_latin("latin"), "atinlay");
}

#[test]
fn capitalized_word_stays_capitalized() {
    assert_eq!(h().word_to_pig_latin("Can't"), "An'tcay");
    assert_eq!(h().word_to_pig_latin("Bob"), "Obbay");
}

#[test]
fn single_letter_words() {
    assert_eq!(h().word_to_pig_latin("a"), "ahay");
    assert_eq!(h().word_to_pig_latin("I"), "Ihay");
    assert_eq!(h().word_to_pig_latin("b"), "bay");
    assert_eq!(h().word_to_pig_latin("B"), "bay");
}

#[test]
fn empty_word_stays_empty() {
    assert_eq!(h().word_to_pig_latin(""), "");
}

#[test]
fn uppercase_vowel_word_is_not_rotated() {
    assert_eq!(h().word_to_pig_latin("Awoo"), "Awoohay");
    assert_eq!(h().word_to_pig_latin("Under"), "Underhay");
}

#[test]
fn vowel_suffix_is_configurable() {
    assert_eq!(IgpayAtinlay::new("w", false).word_to_pig_latin("egg"), "eggway");
    assert_eq!(IgpayAtinlay::new("", false).word_to_pig_latin("egg"), "eggay");
    assert_eq!(IgpayAtinlay::new("w", false).word_to_pig_latin("pig"), "igpay");
}

#[test]
fn accented_vowels_are_vowels() {
    assert_eq!(h().word_to_pig_latin("\u{e9}t\u{e9}"), "\u{e9}t\u{e9}hay");
    assert_eq!(h().word_to_pig_latin("\u{c5}ngstr\u{f6}m"), "\u{c5}ngstr\u{f6}mhay");
}

#[test]
fn letters_that_are_no_romance_vowels_are_consonants() {
    assert_eq!(h().word_to_pig_latin("yes"), "esyay");
    assert_eq!(h().word_to_pig_latin("\u{e6}on"), "on\u{e6}ay");
    assert_eq!(h().word_to_pig_latin("\u{f1}and\u{fa}"), "and\u{fa}\u{f1}ay");
}

#[test]
fn accented_capital_consonant_is_lowered() {
    assert_eq!(h().word_to_pig_latin("\u{d1}and\u{fa}"), "And\u{fa}\u{f1}ay");
}

#[test]
fn case_forms_of_several_characters() {
    // The uppercase form of sharp s is two characters.
    assert_eq!(h().word_to_pig_latin("S\u{df}a"), "SSasay");
    // The uppercase form of the small ligature fi is two characters.
    assert_eq!(h().word_to_pig_latin("X\u{fb01}n"), "FInxay");
}

#[test]
fn assemble_vowel() {
    assert_eq!(assemble(&chars("apple"), &Onset::Vowel, "h"), "applehay");
    assert_eq!(assemble(&chars("apple"), &Onset::Vowel, ""), "appleay");
}

#[test]
fn assemble_small() {
    assert_eq!(assemble(&chars("pig"), &Onset::Small, "h"), "igpay");
    assert_eq!(assemble(&chars("b"), &Onset::Small, "h"), "bay");
}

#[test]
fn assemble_capital() {
    let onset = Onset::Capital { lowered: "c".to_string(), raised: "A".to_string() };
    assert_eq!(assemble(&chars("Can't"), &onset, "h"), "An'tcay");
    let alone = Onset::Capital { lowered: "b".to_string(), raised: String::new() };
    assert_eq!(assemble(&chars("B"), &alone, "h"), "bay");
    let two = Onset::Capital { lowered: "b".to_string(), raised: "E".to_string() };
    assert_eq!(assemble(&chars("Be"), &two, "h"), "Ebay");
}

#[test]
fn assemble_empty_word() {
    assert_eq!(assemble(&chars(""), &Onset::Vowel, "h"), "");
    assert_eq!(assemble(&chars(""), &Onset::Small, "h"), "");
}
