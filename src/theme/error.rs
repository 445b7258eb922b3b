use vstd::prelude::*;

verus! {

/// Errors of a theme.
#[derive(Clone, Debug)]
pub enum ThemeError {
    /// The theme's settings are invalid.
    ThemeValidationError(String),
    /// The theme could not produce a color.
    ThemeProcessingError(String),
}

/// A theme error as plain values: its kind and its detail text.
pub ghost enum ThemeErrorView {
    /// The theme's settings are invalid.
    Validation(Seq<char>),
    /// The theme could not produce a color.
    Processing(Seq<char>),
}

impl ThemeErrorView {
    /// The text of the message the error reports.
    pub open spec fn message_spec(self) -> Seq<char> {
        match self {
            ThemeErrorView::Validation(m) => "theme validation failed: "@ + m,
            ThemeErrorView::Processing(m) => "theme processing failed: "@ + m,
        }
    }
}

impl View for ThemeError {
    type V = ThemeErrorView;

    open spec fn view(&self) -> ThemeErrorView {
        match self {
            ThemeError::ThemeValidationError(m) => ThemeErrorView::Validation(m@),
            ThemeError::ThemeProcessingError(m) => ThemeErrorView::Processing(m@),
        }
    }
}

impl ThemeError {
    /// The text of the message this error reports.
    pub open spec fn message_spec(&self) -> Seq<char> {
        self@.message_spec()
    }

    /// Describes the error in words.
    pub fn to_string(&self) -> (r: String)
        ensures
            r@ == self.message_spec(),
    {
        match self {
            ThemeError::ThemeValidationError(m) => {
                let mut r = String::from_str("theme validation failed: ");
                r.append(m.as_str());
                r
            },
            ThemeError::ThemeProcessingError(m) => {
                let mut r = String::from_str("theme processing failed: ");
                r.append(m.as_str());
                r
            },
        }
    }
}

} // verus!
