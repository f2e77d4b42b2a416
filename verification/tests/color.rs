use rayquaza::Color;
use rayquaza::ParseColorError;

#[test]
fn test_color_new() {
    assert_eq!(Color::new(0, 121, 241, 255), Color::blue());
}

#[test]
fn test_color_fade() {
    // A multiplier of one keeps an opaque color, one half truncates the
    // alpha byte to 127, zero clears it.
    assert_eq!(Color::blue().fade(1, 1), Color::new(0, 121, 241, 255));
    assert_eq!(Color::blue().fade(1, 2), Color::new(0, 121, 241, 127));
    assert_eq!(Color::blue().fade(0, 1), Color::new(0, 121, 241, 0));
}

#[test]
fn test_color_fade_full_idempotent() {
    // Fading an already-faded color by a full multiplier is the same as
    // fading the original by a full multiplier.
    let c = Color::new(10, 20, 30, 255);
    assert_eq!(c.fade(2, 5).fade(1, 1), c.fade(1, 1));
    assert_eq!(c.fade(1, 1), c);
}

#[test]
fn test_color_fade_clamps_above_one() {
    // A multiplier above one is clamped to one.
    assert_eq!(Color::blue().fade(7, 2), Color::new(0, 121, 241, 255));
}

#[test]
fn test_color_from_ref() {
    assert_eq!(Color::from(&Color::blue()), Color::blue());
}

#[test]
fn test_color_from_u8_array() {
    assert_eq!(Color::from([0, 121, 241]), Color::blue());
    assert_eq!(Color::from([0, 121, 241, 255]), Color::blue());
}

#[test]
fn test_color_from_u8_slice() {
    assert_eq!(Color::from((0, 121, 241, 255)), Color::blue());
    assert_eq!(Color::from((0, 121, 241)), Color::blue());
}

#[test]
fn test_color_from_i32() {
    assert_eq!(Color::from(0x00_79_F1), Color::blue());
}

#[test]
fn test_color_from_u32() {
    assert_eq!(Color::from(0x00_79_F1_FFu32), Color::blue());
}

#[test]
fn test_color_from_str() {
    assert_eq!(Color::from_str("0x0079F1").unwrap(), Color::blue());
    assert_eq!(Color::from_str("0x0079F1FF").unwrap(), Color::blue());
    assert_eq!(Color::from_str("0079F1").unwrap(), Color::blue());
    assert_eq!(Color::from_str("0079F1FF").unwrap(), Color::blue());
}

#[test]
fn test_color_from_str_lowercase() {
    assert_eq!(Color::from_str("0x0079f1ff").unwrap(), Color::blue());
}

#[test]
fn test_color_from_str_empty() {
    assert_eq!(Color::from_str(""), Err(ParseColorError::Empty));
    assert_eq!(Color::from_str("0x"), Err(ParseColorError::Empty));
}

#[test]
fn test_color_from_str_invalid_digit() {
    assert_eq!(Color::from_str("0xZZZZZZ"), Err(ParseColorError::InvalidDigit));
    assert_eq!(Color::from_str("12 4"), Err(ParseColorError::InvalidDigit));
}

#[test]
fn test_color_from_str_overflow() {
    // Nine significant digits do not fit a packed 32-bit value.
    assert_eq!(Color::from_str("123456789"), Err(ParseColorError::Overflow));
}

#[test]
fn test_color_from_str_short() {
    // Fewer than six digits are read as a packed value with alpha bits.
    assert_eq!(Color::from_str("FF"), Color::from_str("000000FF"));
}

#[test]
fn test_color_into_u8_array() {
    let value: [u8; 3] = Color::blue().into();
    assert_eq!(value, [0, 121, 241]);
    let value: [u8; 4] = Color::blue().into();
    assert_eq!(value, [0, 121, 241, 255]);
}

#[test]
fn test_color_into_u8_slice() {
    let value: (u8, u8, u8, u8) = Color::blue().into();
    assert_eq!(value, (0, 121, 241, 255));
    let value: (u8, u8, u8) = Color::blue().into();
    assert_eq!(value, (0, 121, 241));
}

#[test]
fn test_color_into_i32() {
    let value: i32 = Color::blue().into();
    assert_eq!(value, 0x00_79_F1);
}

#[test]
fn test_color_into_u32() {
    let value: u32 = Color::blue().into();
    assert_eq!(value, 0x00_79_F1_FF);
}

#[test]
fn test_color_to_string() {
    assert_eq!(Color::blue().to_string(), String::from("0x0079F1FF"));
}

#[test]
fn test_color_round_trip_u32() {
    let c = Color::new(1, 2, 3, 4);
    let packed: u32 = c.into();
    assert_eq!(Color::from(packed), c);
}

#[test]
fn test_color_default() {
    assert_eq!(Color::default(), Color::blank());
}

#[test]
fn test_color_named_values() {
    assert_eq!(Color::white(), Color::new(255, 255, 255, 255));
    assert_eq!(Color::black(), Color::new(0, 0, 0, 255));
    assert_eq!(Color::blank(), Color::new(0, 0, 0, 0));
    assert_eq!(Color::raywhite(), Color::new(245, 245, 245, 255));
    assert_eq!(Color::red(), Color::new(230, 41, 55, 255));
    assert_eq!(Color::green(), Color::new(0, 228, 48, 255));
}
