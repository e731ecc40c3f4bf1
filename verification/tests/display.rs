use pong::score::{score_text, u32_to_string, Score};

#[test]
fn score_text_at_startup() {
    let s = Score::default();
    assert_eq!(score_text(&s).as_str(), "0 - 0");
}

#[test]
fn score_text_is_idempotent() {
    let s = Score { player_one: 4, player_two: 11 };
    let first = score_text(&s);
    let second = score_text(&s);
    assert_eq!(first, second);
    assert_eq!(first.as_str(), "4 - 11");
}

#[test]
fn score_text_multi_digit() {
    let s = Score { player_one: 12, player_two: 345 };
    assert_eq!(score_text(&s).as_str(), "12 - 345");
}

#[test]
fn u32_to_string_cases() {
    assert_eq!(u32_to_string(0).as_str(), "0");
    assert_eq!(u32_to_string(9).as_str(), "9");
    assert_eq!(u32_to_string(10).as_str(), "10");
    assert_eq!(u32_to_string(100).as_str(), "100");
    assert_eq!(u32_to_string(4_294_967_295).as_str(), "4294967295");
}
