use vstd::prelude::*;

use crate::theme::error::ThemeError;

verus! {

/// The character of decimal digit `d`.
pub open spec fn digit_char(d: nat) -> char {
    if d == 0 {
        '0'
    } else if d == 1 {
        '1'
    } else if d == 2 {
        '2'
    } else if d == 3 {
        '3'
    } else if d == 4 {
        '4'
    } else if d == 5 {
        '5'
    } else if d == 6 {
        '6'
    } else if d == 7 {
        '7'
    } else if d == 8 {
        '8'
    } else {
        '9'
    }
}

/// `n` in decimal, without sign or leading zeros.
pub open spec fn decimal_spec(n: nat) -> Seq<char>
    decreases n,
{
    if n < 10 {
        seq![digit_char(n)]
    } else {
        decimal_spec(n / 10) + seq![digit_char(n % 10)]
    }
}

fn digit_str(d: u32) -> (r: &'static str)
    requires
        d < 10,
    ensures
        r@ == seq![digit_char(d as nat)],
{
    proof {
        reveal_strlit("0");
        reveal_strlit("1");
        reveal_strlit("2");
        reveal_strlit("3");
        reveal_strlit("4");
        reveal_strlit("5");
        reveal_strlit("6");
        reveal_strlit("7");
        reveal_strlit("8");
        reveal_strlit("9");
    }
    match d {
        0 => "0",
        1 => "1",
        2 => "2",
        3 => "3",
        4 => "4",
        5 => "5",
        6 => "6",
        7 => "7",
        8 => "8",
        _ => "9",
    }
}

/// Writes `n` in decimal.
pub fn decimal(n: u32) -> (r: String)
    ensures
        r@ == decimal_spec(n as nat),
    decreases n,
{
    if n < 10 {
        String::from_str(digit_str(n))
    } else {
        let mut r = decimal(n / 10);
        r.append(digit_str(n % 10));
        r
    }
}

/// Identicon errors.
#[derive(Debug)]
pub enum IdenticonError {
    /// Failed to generate the image.
    GenerateImageError,
    /// Failed to save the image to a file.
    SaveImageError,
    /// Failed to encode the image.
    EncodeImageError,
    /// A scale smaller than the size was asked for.
    ScaleTooSmallError {
        /// Attempted scale value.
        scale: u32,
        /// Currently set size value.
        size: u32,
    },
    /// A size larger than the scale was asked for.
    SizeTooLargeError {
        /// Attempted size value.
        size: u32,
        /// Currently set scale value.
        scale: u32,
    },
    /// The theme could not give a color.
    ThemeError(ThemeError),
}

impl IdenticonError {
    /// The text of the message this error reports.
    pub open spec fn message_spec(&self) -> Seq<char> {
        match self {
            IdenticonError::GenerateImageError => "could not generate image"@,
            IdenticonError::SaveImageError => "could not save image"@,
            IdenticonError::EncodeImageError => "could not encode image"@,
            IdenticonError::ScaleTooSmallError { scale, size } => "identicon scale too small: "@
                + decimal_spec(*scale as nat)
                + ", must be greater or equal to identicon size: "@ + decimal_spec(*size as nat),
            IdenticonError::SizeTooLargeError { size, scale } => "identicon size too large: "@
                + decimal_spec(*size as nat) + ", must be less or equal to identicon scale: "@
                + decimal_spec(*scale as nat),
            IdenticonError::ThemeError(e) => e.message_spec(),
        }
    }

    /// Describes the error in words.
    pub fn to_string(&self) -> (r: String)
        ensures
            r@ == self.message_spec(),
    {
        match self {
            IdenticonError::GenerateImageError => String::from_str("could not generate image"),
            IdenticonError::SaveImageError => String::from_str("could not save image"),
            IdenticonError::EncodeImageError => String::from_str("could not encode image"),
            IdenticonError::ScaleTooSmallError { scale, size } => {
                let mut r = String::from_str("identicon scale too small: ");
                r.append(decimal(*scale).as_str());
                r.append(", must be greater or equal to identicon size: ");
                r.append(decimal(*size).as_str());
                r
            },
            IdenticonError::SizeTooLargeError { size, scale } => {
                let mut r = String::from_str("identicon size too large: ");
                r.append(decimal(*size).as_str());
                r.append(", must be less or equal to identicon scale: ");
                r.append(decimal(*scale).as_str());
                r
            },
            IdenticonError::ThemeError(e) => e.to_string(),
        }
    }
}

} // verus!
