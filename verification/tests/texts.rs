use igpay_atinlay::text::next_word;
use igpay_atinlay::text::CharKind::{Joiner, Letter, Other};
use igpay_atinlay::IgpayAtinlay;
use regex::{Captures, Regex};

fn joined() -> IgpayAtinlay {
    IgpayAtinlay::new("h", false)
}

fn split() -> IgpayAtinlay {
    IgpayAtinlay::new("h", true)
}

#[test]
fn try_new_gives_a_transformer() {
    let t = IgpayAtinlay::try_new("h", false);
    assert!(t.is_some());
    assert_eq!(t.unwrap().text_to_pig_latin("pig latin"), "igpay atinlay");
}

#[test]
fn apostrophe_stays_inside_a_word() {
    assert_eq!(joined().text_to_pig_latin("Can't touch this!"), "An'tcay ouchtay histay!");
}

#[test]
fn full_sentence() {
    assert_eq!(
        joined().text_to_pig_latin("Can't touch this! Awoo-away!"),
        "An'tcay ouchtay histay! Awoo-awayhay!"
    );
}

#[test]
fn hyphen_splits_words_when_asked() {
    assert_eq!(split().text_to_pig_latin("Awoo-away"), "Awoohay-awayhay");
    assert_eq!(joined().text_to_pig_latin("Awoo-away"), "Awoo-awayhay");
    assert_eq!(split().text_to_pig_latin("well-known"), "ellway-nownkay");
    assert_eq!(joined().text_to_pig_latin("well-known"), "ell-knownway");
}

#[test]
fn setting_matters_to_hyphens_only() {
    let samples = ["Can't touch this!", "I am a cat", "snake_case and caf\u{e9}s", "1 2 3", ""];
    for s in samples {
        assert_eq!(split().text_to_pig_latin(s), joined().text_to_pig_latin(s));
    }
    assert_ne!(split().text_to_pig_latin("a-b"), joined().text_to_pig_latin("a-b"));
}

#[test]
fn empty_text_stays_empty() {
    assert_eq!(joined().text_to_pig_latin(""), "");
    assert_eq!(split().text_to_pig_latin(""), "");
}

#[test]
fn text_without_letters_is_unchanged() {
    let samples = ["1234", " \t\n", "?!...", "12:30 - 14:45 (+2)", "'", "-", "\u{2019}\u{2019}", "_", "\u{301}"];
    for s in samples {
        assert_eq!(joined().text_to_pig_latin(s), s);
        assert_eq!(split().text_to_pig_latin(s), s);
    }
}

#[test]
fn whitespace_and_punctuation_pass_through_again_and_again() {
    let s = "  ,;: -- !? \n\t (\u{2026}) \u{ab}\u{bb} ";
    let once = joined().text_to_pig_latin(s);
    assert_eq!(once, s);
    assert_eq!(joined().text_to_pig_latin(&once), s);
}

#[test]
fn gaps_are_kept_in_place() {
    assert_eq!(
        joined().text_to_pig_latin("  one,two;; three\n"),
        "  onehay,wotay;; hreetay\n"
    );
}

#[test]
fn single_letters_are_words() {
    assert_eq!(joined().text_to_pig_latin("I am a cat"), "Ihay amhay ahay atcay");
}

#[test]
fn trailing_joiner_stays_outside_the_word() {
    assert_eq!(joined().text_to_pig_latin("cats' toys"), "atscay' oystay");
    assert_eq!(joined().text_to_pig_latin("'pig'"), "'igpay'");
    assert_eq!(joined().text_to_pig_latin("pig-"), "igpay-");
    assert_eq!(joined().text_to_pig_latin("snake_case_"), "nake_casesay_");
}

#[test]
fn right_single_quotation_mark_joins() {
    assert_eq!(joined().text_to_pig_latin("don\u{2019}t"), "on\u{2019}tday");
}

#[test]
fn joiners_may_follow_each_other() {
    assert_eq!(joined().text_to_pig_latin("rock-'n'-roll"), "ock-'n'-rollray");
    assert_eq!(split().text_to_pig_latin("rock-'n'-roll"), "ockray-'nay'-ollray");
}

#[test]
fn digits_end_a_word() {
    assert_eq!(joined().text_to_pig_latin("abc123def"), "abchay123efday");
}

#[test]
fn combining_mark_inside_a_word() {
    assert_eq!(joined().text_to_pig_latin("re\u{301}sume\u{301}!"), "e\u{301}sumeray\u{301}!");
}

#[test]
fn join_control_inside_a_word() {
    assert_eq!(joined().text_to_pig_latin("ab\u{200d}cd"), "ab\u{200d}cdhay");
}

#[test]
fn letters_beyond_ascii_are_letters() {
    assert_eq!(joined().text_to_pig_latin("\u{441}\u{43b}\u{43e}\u{432}\u{43e}"), "\u{43b}\u{43e}\u{432}\u{43e}\u{441}ay");
    assert_eq!(joined().text_to_pig_latin("\u{65e5}\u{672c} go"), "\u{672c}\u{65e5}ay ogay");
}

#[test]
fn next_word_skips_the_gap() {
    let kinds = [Other, Letter, Joiner, Letter, Joiner, Other, Letter];
    assert_eq!(next_word(&kinds, 0), Some((1, 4)));
    assert_eq!(next_word(&kinds, 1), Some((1, 4)));
    assert_eq!(next_word(&kinds, 4), Some((6, 7)));
    assert_eq!(next_word(&kinds, 7), None);
    assert_eq!(next_word(&kinds, 100), None);
}

#[test]
fn next_word_ends_on_the_last_letter() {
    assert_eq!(next_word(&[Letter], 0), Some((0, 1)));
    assert_eq!(next_word(&[Letter, Joiner], 0), Some((0, 1)));
    assert_eq!(next_word(&[Letter, Joiner, Joiner, Letter], 0), Some((0, 4)));
    assert_eq!(next_word(&[Joiner, Joiner, Letter, Letter, Other], 0), Some((2, 4)));
    assert_eq!(next_word(&[Joiner, Other], 0), None);
    assert_eq!(next_word(&[], 0), None);
}

fn with_one_pattern(t: &IgpayAtinlay, hyphen: &str, text: &str) -> String {
    let pattern = format!(
        "\\p{{Alphabetic}}(?:[\\p{{Alphabetic}}\\p{{Join_Control}}\\p{{Mark}}\\p{{Connector_Punctuation}}'\u{2019}{}]*\\p{{Alphabetic}})?",
        hyphen
    );
    let re = Regex::new(&pattern).unwrap();
    re.replace_all(text, |w: &Captures| t.word_to_pig_latin(w.get(0).unwrap().as_str())).to_string()
}

#[test]
fn agrees_with_one_pattern_for_a_word() {
    let samples = [
        "",
        "Can't touch this! Awoo-away!",
        "a-b-c --d-- e'f' 'g'",
        "x_y_z __init__ a\u{203f}b",
        "na\u{ef}ve caf\u{e9} re\u{301}sume\u{301} \u{301}a",
        "zero\u{200c}width\u{200d}joiners\u{200d}",
        "\u{391}\u{3b8}\u{3ae}\u{3bd}\u{3b1} \u{41c}\u{43e}\u{441}\u{43a}\u{432}\u{430} \u{6771}\u{4eac} 123abc456",
        "tabs\tand\nnewlines\r\n",
        "O\u{2019}Neil's mother-in-law\u{2014}really?",
    ];
    for s in samples {
        assert_eq!(joined().text_to_pig_latin(s), with_one_pattern(&joined(), "\\-", s));
        assert_eq!(split().text_to_pig_latin(s), with_one_pattern(&split(), "", s));
    }
}
