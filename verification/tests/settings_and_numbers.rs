use webp_converter::decimal::decimal_string;
use webp_converter::settings::ConversionSettings;

#[test]
fn default_settings_have_the_documented_values() {
    let settings = ConversionSettings::default();
    assert_eq!(settings.fps, 10);
    assert_eq!(settings.max_dimension, 540);
    assert_eq!(settings.max_frames, 30);
    assert_eq!(settings.quality, 55);
    assert_eq!(settings.compression_level, 6);
    assert!(!settings.overwrite);
}

#[test]
fn decimal_string_writes_single_digits() {
    let expected = ["0", "1", "2", "3", "4", "5", "6", "7", "8", "9"];
    for (n, text) in expected.iter().enumerate() {
        assert_eq!(decimal_string(n as u32), *text);
    }
}

#[test]
fn decimal_string_writes_round_numbers_without_losing_zeros() {
    assert_eq!(decimal_string(10), "10");
    assert_eq!(decimal_string(100), "100");
    assert_eq!(decimal_string(1000), "1000");
    assert_eq!(decimal_string(1_000_000_000), "1000000000");
    assert_eq!(decimal_string(540), "540");
    assert_eq!(decimal_string(101), "101");
}

#[test]
fn decimal_string_writes_the_largest_value() {
    assert_eq!(decimal_string(u32::MAX), "4294967295");
}

#[test]
fn decimal_string_agrees_with_std_formatting() {
    let mut n: u32 = 0;
    let mut step: u32 = 1;
    while n < u32::MAX - step {
        assert_eq!(decimal_string(n), n.to_string());
        n += step;
        step = step * 3 + 1;
    }
    for n in 0..2000u32 {
        assert_eq!(decimal_string(n), n.to_string());
    }
}
