//! Deterministic identicons: small, symmetric pixel-art avatars derived from
//! the SHA3-256 hash of a string.
use std::sync::Arc;

use vstd::prelude::*;

use crate::color::RGB;
use crate::compose::{
    compose, composed_spec, framed_side, image_fits, lemma_square_monotone, PixelBuffer,
};
use crate::encode::{encode_jpeg, encode_png, jpeg_encoded, png_encoded};
use crate::error::IdenticonError;
use crate::grid::{generate_full_grid, grid_spec};
use crate::hash::{hash_spec, hash_value, lemma_hash_ignores_padding, trimmed, HASH_LEN};
use crate::theme::error::ThemeErrorView;
use crate::theme::{default_theme, is_default_theme, BuiltinTheme, Theme};

/// Colors in RGB form.
pub mod color;

/// Composition of the identicon image.
pub mod compose;

/// Encoding of images as PNG and JPEG files.
pub mod encode;

/// Identicon errors.
pub mod error;

/// The activation grid of an identicon.
pub mod grid;

/// Hashing of input values.
pub mod hash;

/// Linear mapping between numeric ranges.
pub mod map_values;

/// Themes: how an identicon takes its colors from the hash.
pub mod theme;

verus! {

/// What an identicon is, as plain values.
pub ghost struct IdenticonView {
    /// The hash the image is drawn from.
    pub hash: Seq<u8>,
    /// Padding around the grid, in pixels.
    pub border: u32,
    /// Number of grid cells per side.
    pub size: u32,
    /// Side of the grid region, in pixels.
    pub scale: u32,
    /// Whether the right half mirrors the left half.
    pub mirrored: bool,
    /// The theme the colors come from.
    pub theme: BuiltinTheme,
}

impl IdenticonView {
    /// The main color the theme gives for the hash, or the theme's error.
    pub open spec fn main_color(self) -> Result<RGB, ThemeErrorView> {
        self.theme.spec_main_color(self.hash)
    }

    /// The background color the theme gives for the hash, or the theme's error.
    pub open spec fn background_color(self) -> Result<RGB, ThemeErrorView> {
        self.theme.spec_background_color(self.hash)
    }

    /// The raw bytes of the generated image, or `None` where generation fails.
    pub open spec fn image_spec(self) -> Option<Seq<u8>> {
        match (self.main_color(), self.background_color()) {
            (Ok(active), Ok(background)) => if image_fits(self.scale, self.border) {
                Some(
                    composed_spec(
                        grid_spec(self.size, self.hash),
                        self.size,
                        active,
                        background,
                        self.mirrored,
                        self.scale,
                        self.border,
                    ),
                )
            } else {
                None
            },
            _ => None,
        }
    }

    /// `e` is the error that generating this identicon's image reports: the
    /// theme's error for the main color, else the theme's error for the
    /// background color, else `GenerateImageError` for an image too large.
    pub open spec fn generation_error(self, e: IdenticonError) -> bool {
        match (self.main_color(), self.background_color()) {
            (Err(theme_error), _) => e matches IdenticonError::ThemeError(t) && t@ == theme_error,
            (Ok(_), Err(theme_error)) => e matches IdenticonError::ThemeError(t) && t@
                == theme_error,
            _ => !image_fits(self.scale, self.border) && e is GenerateImageError,
        }
    }

    /// Both identicons have the same border, size, scale and mirroring, and
    /// themes that give the same colors, or errors, for every hash.
    pub open spec fn same_settings(self, other: IdenticonView) -> bool {
        &&& self.border == other.border
        &&& self.size == other.size
        &&& self.scale == other.scale
        &&& self.mirrored == other.mirrored
        &&& forall|hash: Seq<u8>|
            #![trigger self.theme.spec_main_color(hash)]
            #![trigger self.theme.spec_background_color(hash)]
            self.theme.spec_main_color(hash) == other.theme.spec_main_color(hash)
                && self.theme.spec_background_color(hash) == other.theme.spec_background_color(
                hash,
            )
    }

    /// What `Identicon::new(input)` makes: the hash of `input` and the defaults.
    pub open spec fn is_new(self, input: Seq<char>) -> bool {
        &&& self.hash == hash_spec(input)
        &&& self.border == 50
        &&& self.size == 5
        &&& self.scale == 500
        &&& self.mirrored
        &&& is_default_theme(self.theme)
    }
}

/// An identicon: a hash together with the settings that turn it into an image.
pub struct Identicon {
    hash: Vec<u8>,
    border: u32,
    size: u32,
    scale: u32,
    mirrored: bool,
    theme: Arc<BuiltinTheme>,
}

impl Identicon {
    /// A full hash, and a size no larger than the scale.
    #[verifier::type_invariant]
    spec fn well_formed(self) -> bool {
        self.hash@.len() == HASH_LEN && self.size <= self.scale
    }
}

impl Clone for Identicon {
    fn clone(&self) -> (r: Identicon)
        ensures
            r@ == self@,
    {
        proof {
            use_type_invariant(self);
        }
        Identicon {
            hash: self.hash.clone(),
            border: self.border,
            size: self.size,
            scale: self.scale,
            mirrored: self.mirrored,
            theme: self.theme.clone(),
        }
    }
}

impl View for Identicon {
    type V = IdenticonView;

    closed spec fn view(&self) -> IdenticonView {
        IdenticonView {
            hash: self.hash@,
            border: self.border,
            size: self.size,
            scale: self.scale,
            mirrored: self.mirrored,
            theme: *self.theme,
        }
    }
}

/// Generates a new identicon from an input value, with the defaults of
/// [`Identicon::new`].
pub fn new(input_value: &str) -> (r: Identicon)
    ensures
        r@.is_new(input_value@),
{
    Identicon::new(input_value)
}

impl Identicon {
    /// Generates a new identicon from an input value.
    ///
    /// The defaults are: border 50, size 5, scale 500, mirrored, and the
    /// default pastel theme.
    pub fn new(input_value: &str) -> (r: Identicon)
        ensures
            r@.is_new(input_value@),
    {
        Identicon {
            hash: hash_value(input_value),
            border: 50,
            size: 5,
            scale: 500,
            mirrored: true,
            theme: default_theme(),
        }
    }

    /// Sets the input value, replacing the hash.
    pub fn set_input(&mut self, input_value: &str) -> (r: &mut Self)
        ensures
            r@ == (IdenticonView { hash: hash_spec(input_value@), ..old(self)@ }),
            *final(self) == *final(r),
    {
        proof {
            use_type_invariant(&*self);
        }
        self.hash = hash_value(input_value);
        self
    }

    /// The border, in pixels.
    pub fn border(&self) -> (r: u32)
        ensures
            r == self@.border,
    {
        self.border
    }

    /// Sets the border, in pixels.
    pub fn set_border(&mut self, border: u32) -> (r: &mut Self)
        ensures
            r@ == (IdenticonView { border, ..old(self)@ }),
            *final(self) == *final(r),
    {
        proof {
            use_type_invariant(&*self);
        }
        self.border = border;
        self
    }

    /// The number of grid cells per side.
    pub fn size(&self) -> (r: u32)
        ensures
            r == self@.size,
    {
        self.size
    }

    /// Sets the number of grid cells per side, which must not exceed the scale.
    pub fn set_size(&mut self, size: u32) -> (r: Result<&mut Self, IdenticonError>)
        ensures
            match r {
                Ok(s) => {
                    &&& size <= old(self)@.scale
                    &&& s@ == (IdenticonView { size, ..old(self)@ })
                    &&& *final(self) == *final(s)
                },
                Err(e) => {
                    &&& size > old(self)@.scale
                    &&& e == (IdenticonError::SizeTooLargeError { size, scale: old(self)@.scale })
                    &&& final(self)@ == old(self)@
                },
            },
    {
        if size <= self.scale {
            proof {
                use_type_invariant(&*self);
            }
            self.size = size;
            Ok(self)
        } else {
            Err(IdenticonError::SizeTooLargeError { size, scale: self.scale })
        }
    }

    /// The side of the grid region, in pixels.
    ///
    /// The whole image is `scale + 2 * border` pixels on each side.
    pub fn scale(&self) -> (r: u32)
        ensures
            r == self@.scale,
    {
        self.scale
    }

    /// Sets the side of the grid region, which must not be below the size.
    pub fn set_scale(&mut self, scale: u32) -> (r: Result<&mut Self, IdenticonError>)
        ensures
            match r {
                Ok(s) => {
                    &&& scale >= old(self)@.size
                    &&& s@ == (IdenticonView { scale, ..old(self)@ })
                    &&& *final(self) == *final(s)
                },
                Err(e) => {
                    &&& scale < old(self)@.size
                    &&& e == (IdenticonError::ScaleTooSmallError { scale, size: old(self)@.size })
                    &&& final(self)@ == old(self)@
                },
            },
    {
        if scale >= self.size {
            proof {
                use_type_invariant(&*self);
            }
            self.scale = scale;
            Ok(self)
        } else {
            Err(IdenticonError::ScaleTooSmallError { scale, size: self.size })
        }
    }

    /// Whether the right half of the image mirrors the left half.
    pub fn mirrored(&self) -> (r: bool)
        ensures
            r == self@.mirrored,
    {
        self.mirrored
    }

    /// Sets whether the right half of the image mirrors the left half.
    pub fn set_mirrored(&mut self, mirrored: bool) -> (r: &mut Self)
        ensures
            r@ == (IdenticonView { mirrored, ..old(self)@ }),
            *final(self) == *final(r),
    {
        proof {
            use_type_invariant(&*self);
        }
        self.mirrored = mirrored;
        self
    }

    /// Sets the theme the colors come from.
    pub fn set_theme(&mut self, theme: Arc<BuiltinTheme>) -> (r: &mut Self)
        ensures
            r@ == (IdenticonView { theme: *theme, ..old(self)@ }),
            *final(self) == *final(r),
    {
        proof {
            use_type_invariant(&*self);
        }
        self.theme = theme;
        self
    }

    /// Generates the image of the identicon.
    pub fn generate_image(&self) -> (r: Result<PixelBuffer, IdenticonError>)
        ensures
            match r {
                Ok(image) => {
                    &&& self@.image_spec() == Some(image.spec_data())
                    &&& image.spec_width() == framed_side(self@.scale, self@.border)
                    &&& image.spec_height() == framed_side(self@.scale, self@.border)
                },
                Err(e) => self@.image_spec() is None && self@.generation_error(e),
            },
    {
        proof {
            use_type_invariant(self);
        }
        let color_active = match self.theme.main_color(&self.hash) {
            Ok(c) => c,
            Err(e) => {
                return Err(IdenticonError::ThemeError(e));
            },
        };
        let color_background = match self.theme.background_color(&self.hash) {
            Ok(c) => c,
            Err(e) => {
                return Err(IdenticonError::ThemeError(e));
            },
        };
        if !crate::compose::fits(self.scale, self.border) {
            return Err(IdenticonError::GenerateImageError);
        }
        proof {
            lemma_square_monotone(self.size as int, framed_side(self.scale, self.border));
        }
        let grid = generate_full_grid(self.size, &self.hash);
        compose(
            &grid,
            self.size,
            color_active,
            color_background,
            self.mirrored,
            self.scale,
            self.border,
        )
    }
    /// Exports the image as a PNG file in memory, for a buffer or a network
    /// response.
    pub fn export_png_data(&self) -> (r: Result<Vec<u8>, IdenticonError>)
        ensures
            match r {
                Ok(bytes) => self@.image_spec() matches Some(data) && bytes@ == png_encoded(
                    data,
                    framed_side(self@.scale, self@.border) as u32,
                    framed_side(self@.scale, self@.border) as u32,
                ),
                Err(e) => match self@.image_spec() {
                    None => self@.generation_error(e),
                    Some(_) => e is EncodeImageError && framed_side(self@.scale, self@.border)
                        == 0,
                },
            },
    {
        let image = self.generate_image()?;
        let side = image.width();
        match encode_png(image.as_raw(), side, side) {
            Ok(bytes) => Ok(bytes),
            Err(_) => Err(IdenticonError::EncodeImageError),
        }
    }

    /// Exports the image as a JPEG file in memory, for a buffer or a network
    /// response.
    pub fn export_jpeg_data(&self) -> (r: Result<Vec<u8>, IdenticonError>)
        ensures
            match r {
                Ok(bytes) => self@.image_spec() matches Some(data) && bytes@ == jpeg_encoded(
                    data,
                    framed_side(self@.scale, self@.border) as u32,
                    framed_side(self@.scale, self@.border) as u32,
                ),
                Err(e) => match self@.image_spec() {
                    None => self@.generation_error(e),
                    Some(_) => e is EncodeImageError && !(0 < framed_side(
                        self@.scale,
                        self@.border,
                    ) <= 65535),
                },
            },
    {
        let image = self.generate_image()?;
        let side = image.width();
        match encode_jpeg(image.as_raw(), side, side) {
            Ok(bytes) => Ok(bytes),
            Err(_) => Err(IdenticonError::EncodeImageError),
        }
    }
}

impl Default for Identicon {
    /// An identicon of the empty input, with the defaults of [`Identicon::new`].
    fn default() -> (r: Identicon)
        ensures
            r@.is_new(Seq::empty()),
    {
        proof {
            reveal_strlit("");
        }
        assert(""@ =~= Seq::<char>::empty());
        Identicon::new("")
    }
}

impl std::str::FromStr for Identicon {
    type Err = IdenticonError;

    fn from_str(s: &str) -> (r: Result<Identicon, IdenticonError>)
        ensures
            r matches Ok(identicon) && identicon@.is_new(s@),
    {
        Ok(Identicon::new(s))
    }
}

/// Generation is deterministic: two identicons with the hash of the same
/// input and the same settings give the same image, byte for byte, or fail
/// alike.
pub proof fn lemma_generation_deterministic(a: IdenticonView, b: IdenticonView, input: Seq<char>)
    requires
        a.hash == hash_spec(input),
        b.hash == hash_spec(input),
        a.same_settings(b),
    ensures
        a.image_spec() == b.image_spec(),
{
}

/// Generation ignores surrounding whitespace: with the same settings, an
/// input, the same input trimmed, and the same input with a space on each
/// side give the same image.
pub proof fn lemma_generation_trim_insensitive(
    plain: IdenticonView,
    trimmed_input: IdenticonView,
    padded: IdenticonView,
    input: Seq<char>,
)
    requires
        plain.hash == hash_spec(input),
        trimmed_input.hash == hash_spec(trimmed(input)),
        padded.hash == hash_spec(seq![' '] + input + seq![' ']),
        plain.same_settings(trimmed_input),
        plain.same_settings(padded),
    ensures
        plain.image_spec() == trimmed_input.image_spec(),
        plain.image_spec() == padded.image_spec(),
{
    lemma_hash_ignores_padding(input);
}

/// Identicons made by `Identicon::new` have the same settings, whatever
/// their inputs.
pub proof fn lemma_new_same_settings(a: IdenticonView, b: IdenticonView, s: Seq<char>, t: Seq<char>)
    requires
        a.is_new(s),
        b.is_new(t),
    ensures
        a.same_settings(b),
{
}

} // verus!
