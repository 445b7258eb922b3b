use identicon_rs::error::IdenticonError;
use identicon_rs::theme::error::ThemeError;

#[test]
fn generate_image_error_works() {
    let error = IdenticonError::GenerateImageError;
    let expected_text = "could not generate image";
    assert_eq!(expected_text, error.to_string());
}

#[test]
fn save_image_error_works() {
    let error = IdenticonError::SaveImageError;
    let expected_text = "could not save image";
    assert_eq!(expected_text, error.to_string());
}

#[test]
fn encode_image_error_works() {
    let error = IdenticonError::EncodeImageError;
    let expected_text = "could not encode image";
    assert_eq!(expected_text, error.to_string());
}

#[test]
fn scale_too_small_error_works() {
    let error = IdenticonError::ScaleTooSmallError { scale: 3, size: 5 };
    let expected_text =
        "identicon scale too small: 3, must be greater or equal to identicon size: 5";
    assert_eq!(expected_text, error.to_string());
}

#[test]
fn size_too_large_error_works() {
    let error = IdenticonError::SizeTooLargeError { size: 5, scale: 3 };
    let expected_text =
        "identicon size too large: 5, must be less or equal to identicon scale: 3";
    assert_eq!(expected_text, error.to_string());
}

#[test]
fn error_messages_write_numbers_in_full() {
    let error = IdenticonError::SizeTooLargeError { size: 600, scale: 500 };
    assert_eq!(
        "identicon size too large: 600, must be less or equal to identicon scale: 500",
        error.to_string()
    );
    let error = IdenticonError::ScaleTooSmallError { scale: 0, size: 4294967295 };
    assert_eq!(
        "identicon scale too small: 0, must be greater or equal to identicon size: 4294967295",
        error.to_string()
    );
}

#[test]
fn theme_error_messages() {
    let error = ThemeError::ThemeValidationError("main color selection is empty".to_string());
    assert_eq!(
        "theme validation failed: main color selection is empty",
        error.to_string()
    );
    let error = ThemeError::ThemeProcessingError("no color".to_string());
    assert_eq!("theme processing failed: no color", error.to_string());
    let wrapped = IdenticonError::ThemeError(ThemeError::ThemeValidationError("x".to_string()));
    assert_eq!("theme validation failed: x", wrapped.to_string());
}
