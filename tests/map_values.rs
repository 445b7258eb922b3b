use identicon_rs::map_values::{map_values, Fraction};

fn as_f32(value: Fraction) -> f32 {
    value.numerator as f32 / value.denominator as f32
}

#[test]
fn test_map_values_clean_up() {
    let test_value = map_values(3, 0, 10, 0, 100);
    assert_eq!(30 as f32, as_f32(test_value));
}

#[test]
fn test_map_values_clean_down() {
    let test_value = map_values(5, 0, 100, 0, 20);
    assert_eq!(1 as f32, as_f32(test_value));
}

#[test]
fn test_map_values_up() {
    let test_value = map_values(3, 0, 10, 0, 25);
    assert_eq!(7.5, as_f32(test_value));
}

#[test]
fn test_map_values_down() {
    let test_value = map_values(5, 0, 10, 0, 5);
    assert_eq!(2.5, as_f32(test_value));
}

#[test]
fn map_values_exact_fraction() {
    let value = map_values(3, 0, 10, 0, 25);
    assert_eq!(value, Fraction { numerator: 75, denominator: 10 });
}

#[test]
fn map_values_clamps_to_target_range() {
    // 15 lies beyond the input range: the result is clamped to 100.
    let value = map_values(15, 0, 10, 0, 100);
    assert_eq!(value, Fraction { numerator: 1000, denominator: 10 });
    // A decreasing target range.
    let value = map_values(3, 0, 10, 100, 0);
    assert_eq!(value, Fraction { numerator: 700, denominator: 10 });
    // A decreasing input range.
    let value = map_values(3, 10, 0, 0, 100);
    assert_eq!(value, Fraction { numerator: 700, denominator: 10 });
}
