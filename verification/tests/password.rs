use exercises::password::{
    classify, password_checker, strength_score, CharKind, PasswordChecker, LENGTH_THRESHOLD,
};

#[test]
fn empty_text_scores_zero() {
    assert_eq!(password_checker(""), 0);
}

#[test]
fn nine_letters_score_one() {
    assert_eq!(password_checker("aaaaaaaaa"), 1);
}

#[test]
fn long_text_with_digit_and_special_scores_three() {
    assert_eq!(password_checker("abc123!@#"), 3);
}

#[test]
fn mixed_sample_scores_three() {
    assert_eq!(password_checker("eeeeeeee^%%$%^$%46756756675e"), 3);
}

#[test]
fn eight_letters_do_not_earn_the_length_point() {
    assert_eq!(LENGTH_THRESHOLD, 8);
    assert_eq!(password_checker("aaaaaaaa"), 0);
}

#[test]
fn a_single_letter_scores_zero() {
    assert_eq!(password_checker("a"), 0);
    assert_eq!(password_checker("Z"), 0);
}

#[test]
fn a_single_digit_scores_one() {
    assert_eq!(password_checker("7"), 1);
}

#[test]
fn a_single_special_character_scores_one() {
    assert_eq!(password_checker("!"), 1);
    assert_eq!(password_checker(" "), 1);
}

#[test]
fn digits_are_not_special_characters() {
    assert_eq!(password_checker("12345"), 1);
    assert_eq!(password_checker("abc123"), 1);
}

#[test]
fn many_digits_earn_one_point() {
    assert_eq!(password_checker("1234567890"), 2);
}

#[test]
fn many_special_characters_earn_one_point() {
    assert_eq!(password_checker("!?!?"), 1);
    assert_eq!(password_checker("!?!?!?!?!?"), 2);
}

#[test]
fn digit_and_special_without_length() {
    assert_eq!(password_checker("a1!"), 2);
}

#[test]
fn length_is_counted_in_characters() {
    // Five letters of two bytes each: ten bytes, five characters.
    assert_eq!(password_checker("ééééé"), 0);
    assert_eq!(password_checker("ééééééééé"), 1);
}

#[test]
fn letters_and_digits_of_other_scripts() {
    assert_eq!(password_checker("京"), 0);
    assert_eq!(password_checker("٣"), 1);
    assert_eq!(password_checker("💝"), 1);
}

#[test]
fn score_stays_between_zero_and_three() {
    let samples = [
        "",
        "a",
        "1",
        "!",
        "a1!",
        "aaaaaaaaa",
        "abc123!@#",
        "1!1!1!1!1!1!1!1!1!1!",
        "ééééééééé٣ ",
    ];
    for sample in samples {
        let points = password_checker(sample);
        assert!((0..=3).contains(&points));
    }
}

#[test]
fn classify_asks_numeric_first() {
    assert_eq!(classify(true, true), CharKind::Digit);
    assert_eq!(classify(true, false), CharKind::Digit);
    assert_eq!(classify(false, true), CharKind::Letter);
    assert_eq!(classify(false, false), CharKind::Special);
}

#[test]
fn strength_score_adds_one_point_per_rule() {
    assert_eq!(strength_score(0, false, false), 0);
    assert_eq!(strength_score(8, false, false), 0);
    assert_eq!(strength_score(9, false, false), 1);
    assert_eq!(strength_score(usize::MAX, false, false), 1);
    assert_eq!(strength_score(3, true, false), 1);
    assert_eq!(strength_score(3, false, true), 1);
    assert_eq!(strength_score(8, true, true), 2);
    assert_eq!(strength_score(9, true, true), 3);
}

#[test]
fn evaluate_records_the_score_without_feedback() {
    let outcome = PasswordChecker::evaluate("abc123!@#");
    assert_eq!(outcome.score, 3);
    assert_eq!(outcome.feedback, "");
    let outcome = PasswordChecker::evaluate("");
    assert_eq!(outcome.score, 0);
    assert_eq!(outcome.feedback, "");
}
