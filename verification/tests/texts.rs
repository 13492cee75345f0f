use guessing_game::guessing_game::chance::pick;
use guessing_game::guessing_game::error::GuessingGameError;
use guessing_game::guessing_game::number::{decimal_text, integer_sign, Sign};

#[test]
fn error_messages() {
    assert_eq!(GuessingGameError::IsNotInRange.message(), "Guess not in range");
    assert_eq!(GuessingGameError::IsLower.message(), "Guess is lower than the hidden value");
    assert_eq!(GuessingGameError::IsHigher.message(), "Guess is higher than the hidden value");
    assert_eq!(
        GuessingGameError::ParseError("invalid digit found in string".to_string()).message(),
        "Parsing Error: invalid digit found in string"
    );
    assert_eq!(GuessingGameError::ParseError(String::new()).message(), "Parsing Error: ");
}

#[test]
fn decimal_text_of_small_and_large_numbers() {
    assert_eq!(decimal_text(0), "0");
    assert_eq!(decimal_text(7), "7");
    assert_eq!(decimal_text(9), "9");
    assert_eq!(decimal_text(10), "10");
    assert_eq!(decimal_text(101), "101");
    assert_eq!(decimal_text(1234567890), "1234567890");
    assert_eq!(decimal_text(u32::MAX), "4294967295");
}

#[test]
fn decimal_text_agrees_with_the_standard_library() {
    let mut n: u32 = 0;
    for step in 0u32..2000 {
        assert_eq!(decimal_text(n), n.to_string());
        n = n.wrapping_mul(31).wrapping_add(step * 7919 + 1);
    }
}

#[test]
fn pick_stays_within_the_bounds() {
    assert_eq!(pick(0, 10, 7), 7);
    assert_eq!(pick(0, 10, 17), 7);
    assert_eq!(pick(5, 6, 99), 5);
    assert_eq!(pick(100, 200, 250), 150);
    assert_eq!(pick(0, u32::MAX, u32::MAX - 1), u32::MAX - 1);
    for draw in 0u32..100 {
        let hidden = pick(13, 29, draw);
        assert!(13 <= hidden && hidden < 29);
        assert_eq!(hidden, draw % 16 + 13);
    }
}

#[test]
fn integer_sign_of_texts() {
    assert_eq!(integer_sign("0"), Some(Sign::Zero));
    assert_eq!(integer_sign("-0"), Some(Sign::Zero));
    assert_eq!(integer_sign("+000"), Some(Sign::Zero));
    assert_eq!(integer_sign("7"), Some(Sign::Positive));
    assert_eq!(integer_sign("+7"), Some(Sign::Positive));
    assert_eq!(integer_sign("0010"), Some(Sign::Positive));
    assert_eq!(integer_sign("99999999999999999999999999"), Some(Sign::Positive));
    assert_eq!(integer_sign("-1"), Some(Sign::Negative));
    assert_eq!(integer_sign("-0100"), Some(Sign::Negative));
    assert_eq!(integer_sign("-99999999999999999999999999"), Some(Sign::Negative));
}

#[test]
fn integer_sign_of_what_is_no_integer() {
    for text in ["", "+", "-", "--1", "+-1", "-+1", "1-", "1+", " 1", "1 ", "1.5", "1e3", "\u{663}", "\u{ff11}", "one"] {
        assert_eq!(integer_sign(text), None, "{text:?}");
    }
}
