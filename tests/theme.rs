use std::sync::Arc;

use identicon_rs::color::RGB;
use identicon_rs::hash::hash_value;
use identicon_rs::theme::error::ThemeError;
use identicon_rs::theme::{
    default_theme, pastel_selection_theme, BuiltinTheme, HSLRange, Selection, Theme,
};

const CONSISTENCY_STRING_1: &str = "TEST CONSISTENCY";
const CONSISTENCY_STRING_2: &str = "TEST CONSISTENCY ALTERNATE";
const CONSISTENCY_STRING_3: &str = "CONSISTENCY TEST INPUT";

fn test_theme_consistency<T: Theme>(
    input: &str,
    theme: &T,
    expected_main_color: RGB,
    expected_background_color: RGB,
) {
    let hash = hash_value(input);

    let main_color = theme
        .main_color(&hash)
        .expect("could not generate main color");
    let background_color = theme
        .background_color(&hash)
        .expect("could not generate background color");

    assert_eq!(expected_main_color, main_color);
    assert_eq!(expected_background_color, background_color);
}

#[test]
fn hsl_range_theme_consistency() {
    let expected_main_color: RGB = (116, 93, 222).into();
    let expected_background_color: RGB = (240, 240, 240).into();

    test_theme_consistency(
        CONSISTENCY_STRING_1,
        default_theme().as_ref(),
        expected_main_color,
        expected_background_color,
    );

    let expected_main_color: RGB = (94, 225, 227).into();
    let expected_background_color: RGB = (240, 240, 240).into();

    test_theme_consistency(
        CONSISTENCY_STRING_2,
        default_theme().as_ref(),
        expected_main_color,
        expected_background_color,
    );
}

#[test]
fn hsl_range_theme_multiple_background_consistency() {
    let theme = Arc::new(
        HSLRange::new(
            0,
            100,
            0,
            100,
            0,
            100,
            vec![(0, 0, 0).into(), (255, 255, 255).into()],
        )
        .unwrap(),
    );

    let expected_main_color: RGB = (67, 77, 16).into();
    let expected_background_color: RGB = (0, 0, 0).into();

    test_theme_consistency(
        CONSISTENCY_STRING_1,
        theme.as_ref(),
        expected_main_color,
        expected_background_color,
    );

    let expected_main_color: RGB = (232, 253, 218).into();
    let expected_background_color: RGB = (255, 255, 255).into();

    test_theme_consistency(
        CONSISTENCY_STRING_3,
        theme.as_ref(),
        expected_main_color,
        expected_background_color,
    );
}

#[test]
fn selection_theme_consistency() {
    let expected_main_color: RGB = (253, 255, 182).into();
    let expected_background_color: RGB = (240, 240, 240).into();

    test_theme_consistency(
        CONSISTENCY_STRING_1,
        pastel_selection_theme().as_ref(),
        expected_main_color,
        expected_background_color,
    );

    let expected_main_color: RGB = (255, 173, 173).into();
    let expected_background_color: RGB = (240, 240, 240).into();

    test_theme_consistency(
        CONSISTENCY_STRING_2,
        pastel_selection_theme().as_ref(),
        expected_main_color,
        expected_background_color,
    );
}

#[test]
fn selection_theme_multiple_background_consistency() {
    let theme = Arc::new(Selection::new(
        vec![(0, 0, 0).into()],
        vec![(0, 0, 0).into(), (255, 255, 255).into()],
    ));

    let expected_main_color: RGB = (0, 0, 0).into();
    let expected_background_color: RGB = (0, 0, 0).into();

    test_theme_consistency(
        CONSISTENCY_STRING_1,
        theme.as_ref(),
        expected_main_color,
        expected_background_color,
    );

    let expected_main_color: RGB = (0, 0, 0).into();
    let expected_background_color: RGB = (255, 255, 255).into();

    test_theme_consistency(
        CONSISTENCY_STRING_3,
        theme.as_ref(),
        expected_main_color,
        expected_background_color,
    );
}

#[test]
fn default_theme_colors_of_test() {
    let hash = hash_value("test");
    let theme = default_theme();
    assert_eq!(RGB { red: 183, green: 212, blue: 111 }, theme.main_color(&hash).unwrap());
    assert_eq!(RGB { red: 240, green: 240, blue: 240 }, theme.background_color(&hash).unwrap());
}

#[test]
fn builtin_theme_dispatches_to_its_variant() {
    let hash = hash_value(CONSISTENCY_STRING_1);
    let selection = BuiltinTheme::Selection(Selection::new(
        vec![(1, 2, 3).into()],
        vec![(4, 5, 6).into()],
    ));
    assert_eq!(RGB::from((1, 2, 3)), selection.main_color(&hash).unwrap());
    assert_eq!(RGB::from((4, 5, 6)), selection.background_color(&hash).unwrap());
}

#[test]
fn hsl_range_rejects_inverted_hue_bounds() {
    let result = HSLRange::new(20, 10, 50, 75, 60, 70, vec![(240, 240, 240).into()]);
    match result {
        Err(ThemeError::ThemeValidationError(message)) => {
            assert_eq!("hue_max must be larger than hue_min", message)
        }
        _ => panic!("inverted hue bounds were accepted"),
    }
}

#[test]
fn hsl_range_rejects_inverted_saturation_and_lightness_bounds() {
    let result = HSLRange::new(0, 360, 75, 50, 60, 70, vec![(240, 240, 240).into()]);
    match result {
        Err(ThemeError::ThemeValidationError(message)) => {
            assert_eq!("saturation_max must be larger than saturation_min", message)
        }
        _ => panic!("inverted saturation bounds were accepted"),
    }
    let result = HSLRange::new(0, 360, 50, 75, 70, 60, vec![(240, 240, 240).into()]);
    match result {
        Err(ThemeError::ThemeValidationError(message)) => {
            assert_eq!("lightness_max must be larger than lightness_min", message)
        }
        _ => panic!("inverted lightness bounds were accepted"),
    }
}

#[test]
fn empty_candidate_lists_are_reported() {
    let hash = hash_value("test");
    let theme = Selection::new(vec![], vec![]);
    match theme.main_color(&hash) {
        Err(ThemeError::ThemeValidationError(message)) => {
            assert_eq!("main color selection is empty", message)
        }
        _ => panic!("empty main colors were accepted"),
    }
    match theme.background_color(&hash) {
        Err(ThemeError::ThemeValidationError(message)) => {
            assert_eq!("background color selection is empty", message)
        }
        _ => panic!("empty background colors were accepted"),
    }
    let range = HSLRange::new(0, 360, 50, 75, 60, 70, vec![]).unwrap();
    assert!(range.main_color(&hash).is_ok());
    assert!(matches!(
        range.background_color(&hash),
        Err(ThemeError::ThemeValidationError(_))
    ));
}

#[test]
fn single_byte_hash_wraps_around() {
    // Every index wraps onto the one byte: hue 0x1111 of 0xFFFF, saturation
    // and lightness from byte 0x11.
    let theme = HSLRange::new(0, 360, 0, 100, 0, 100, vec![(9, 9, 9).into()]).unwrap();
    let color = theme.main_color(&[0x11]).unwrap();
    assert_eq!(RGB { red: 18, green: 16, blue: 15 }, color);
    assert_eq!(RGB { red: 9, green: 9, blue: 9 }, theme.background_color(&[0x11]).unwrap());
}
