use std::sync::Arc;

use vstd::prelude::*;

use crate::color::RGB;
use crate::map_values::{lemma_mapped_in_target, lemma_mul_bound, map_values, mapped_denominator, mapped_numerator, max_int};
use error::{ThemeError, ThemeErrorView};

/// Errors of themes.
pub mod error;

verus! {

/// What an identicon theme provides: a main color and a background color,
/// both taken from the hash.
pub trait Theme {
    /// The main color for `hash`, or the error the theme reports instead.
    spec fn spec_main_color(&self, hash: Seq<u8>) -> Result<RGB, ThemeErrorView>;

    /// The background color for `hash`, or the error the theme reports instead.
    spec fn spec_background_color(&self, hash: Seq<u8>) -> Result<RGB, ThemeErrorView>;

    /// The main color within the identicon image.
    fn main_color(&self, hash: &[u8]) -> (r: Result<RGB, ThemeError>)
        requires
            hash@.len() > 0,
        ensures
            match r {
                Ok(c) => self.spec_main_color(hash@) == Ok::<RGB, ThemeErrorView>(c),
                Err(e) => self.spec_main_color(hash@) == Err::<RGB, ThemeErrorView>(e@),
            },
    ;

    /// The background color within the identicon image.
    fn background_color(&self, hash: &[u8]) -> (r: Result<RGB, ThemeError>)
        requires
            hash@.len() > 0,
        ensures
            match r {
                Ok(c) => self.spec_background_color(hash@) == Ok::<RGB, ThemeErrorView>(c),
                Err(e) => self.spec_background_color(hash@) == Err::<RGB, ThemeErrorView>(e@),
            },
    ;
}

/// The byte of `hash` at `index`, wrapping around its end.
pub open spec fn hash_byte(hash: Seq<u8>, index: int) -> u8 {
    hash[index % (hash.len() as int)]
}

/// The color of `colors` that the hash byte at `index` selects, or a
/// validation error with `empty_message` if there is none to pick.
pub open spec fn select_color(
    colors: Seq<RGB>,
    hash: Seq<u8>,
    index: int,
    empty_message: Seq<char>,
) -> Result<RGB, ThemeErrorView> {
    if colors.len() == 0 {
        Err(ThemeErrorView::Validation(empty_message))
    } else {
        Ok(colors[hash_byte(hash, index) as int % (colors.len() as int)])
    }
}

/// Picks the color of `colors` that the hash byte at `index` selects, or
/// reports `empty_message` if there is none to pick.
fn select(colors: &Vec<RGB>, hash: &[u8], index: usize, empty_message: &str) -> (r: Result<
    RGB,
    ThemeError,
>)
    requires
        hash@.len() > 0,
    ensures
        match r {
            Ok(c) => select_color(colors@, hash@, index as int, empty_message@) == Ok::<
                RGB,
                ThemeErrorView,
            >(c),
            Err(e) => select_color(colors@, hash@, index as int, empty_message@) == Err::<
                RGB,
                ThemeErrorView,
            >(e@),
        },
{
    if colors.len() == 0 {
        Err(ThemeError::ThemeValidationError(String::from_str(empty_message)))
    } else {
        let byte = hash[index % hash.len()];
        Ok(colors[byte as usize % colors.len()])
    }
}

/// Simple selection theme.
///
/// The main and the background color are each picked from a list of
/// candidates by a byte of the hash.
pub struct Selection {
    /// Candidates for the main color. One value gives a constant color.
    main: Vec<RGB>,
    /// Candidates for the background color. One value gives a constant background.
    background: Vec<RGB>,
}

impl Selection {
    /// The candidates for the main color.
    pub closed spec fn main_colors(&self) -> Seq<RGB> {
        self.main@
    }

    /// The candidates for the background color.
    pub closed spec fn background_colors(&self) -> Seq<RGB> {
        self.background@
    }

    /// Makes a selection theme from candidate main and background colors.
    pub fn new(main: Vec<RGB>, background: Vec<RGB>) -> (r: Selection)
        ensures
            r.main_colors() == main@,
            r.background_colors() == background@,
    {
        Selection { main, background }
    }
}

impl Theme for Selection {
    /// The main color is picked by hash byte 0.
    open spec fn spec_main_color(&self, hash: Seq<u8>) -> Result<RGB, ThemeErrorView> {
        select_color(self.main_colors(), hash, 0, "main color selection is empty"@)
    }

    /// The background color is picked by hash byte 2.
    open spec fn spec_background_color(&self, hash: Seq<u8>) -> Result<RGB, ThemeErrorView> {
        select_color(self.background_colors(), hash, 2, "background color selection is empty"@)
    }

    fn main_color(&self, hash: &[u8]) -> (r: Result<RGB, ThemeError>) {
        select(&self.main, hash, 0, "main color selection is empty")
    }

    fn background_color(&self, hash: &[u8]) -> (r: Result<RGB, ThemeError>) {
        select(&self.background, hash, 2, "background color selection is empty")
    }
}

/// Denominator of a mapped hue: the hue hash ranges over `0..=HUE_DEN`.
pub const HUE_DEN: u64 = 65535;

/// Denominator of a mapped saturation or lightness: 255 steps of the hash
/// byte, times 100 for percent.
pub const PERCENT_DEN: i128 = 25500;

/// One hue sector of 60 degrees, in units of `1 / HUE_DEN` degree.
pub const SECTOR: i128 = 3932100;

/// Common denominator of the RGB components before they are scaled to 0..=255.
pub const RGB_DEN: i128 = 5_113_696_050_000_000;

/// The absolute value of `x`.
pub open spec fn abs_int(x: int) -> int {
    if x < 0 {
        -x
    } else {
        x
    }
}

/// The chroma `(1 - |2L - 1|) * S`, over `PERCENT_DEN * PERCENT_DEN`, for
/// saturation `s / PERCENT_DEN` and lightness `l / PERCENT_DEN`.
pub open spec fn chroma_spec(s: int, l: int) -> int {
    (PERCENT_DEN - abs_int(2 * l - PERCENT_DEN)) * s
}

/// An RGB channel from a component over `RGB_DEN`: times 255, truncated, and
/// saturated to 0..=255.
pub open spec fn channel_spec(v: int) -> u8 {
    let t = 255 * v / (RGB_DEN as int);
    if t < 0 {
        0
    } else if t > 255 {
        255
    } else {
        t as u8
    }
}

/// The RGB color of hue `h / HUE_DEN` degrees (in `[0, 360)`), saturation
/// `s / PERCENT_DEN` and lightness `l / PERCENT_DEN`, by the chroma and hue
/// sector conversion, computed exactly.
///
/// Over the common denominator `RGB_DEN = 2 * PERCENT_DEN^2 * SECTOR`:
/// `big_c` is the chroma, `x` is `chroma * (1 - |H/60 mod 2 - 1|)` and `m` is
/// `L - chroma / 2`.
pub open spec fn hsl_to_rgb_spec(h: int, s: int, l: int) -> RGB {
    let c = chroma_spec(s, l);
    let f = SECTOR - abs_int(h % (2 * SECTOR) - SECTOR);
    let big_c = c * 2 * SECTOR;
    let x = c * f * 2;
    let m = (2 * PERCENT_DEN * l - c) * SECTOR;
    let sector = h / (SECTOR as int);
    let (r, g, b) = if sector == 0 {
        (big_c, x, 0)
    } else if sector == 1 {
        (x, big_c, 0)
    } else if sector == 2 {
        (0, big_c, x)
    } else if sector == 3 {
        (0, x, big_c)
    } else if sector == 4 {
        (x, 0, big_c)
    } else if sector == 5 {
        (big_c, 0, x)
    } else {
        (0, 0, 0)
    };
    RGB { red: channel_spec(r + m), green: channel_spec(g + m), blue: channel_spec(b + m) }
}

/// Bound on the magnitude of every component handed to `channel`.
pub const COMPONENT_BOUND: i128 = 20_000_000_000_000_000_000_000;

fn channel(v: i128) -> (r: u8)
    requires
        -COMPONENT_BOUND <= v <= COMPONENT_BOUND,
    ensures
        r == channel_spec(v as int),
{
    let scaled: i128 = 255 * v;
    if scaled < 0 {
        assert(255 * v / (RGB_DEN as int) < 0);
        0
    } else {
        let t: u128 = scaled as u128 / RGB_DEN as u128;
        if t > 255 {
            255
        } else {
            t as u8
        }
    }
}

fn abs_i128(x: i128) -> (r: i128)
    requires
        x > i128::MIN,
    ensures
        r == abs_int(x as int),
{
    if x < 0 {
        -x
    } else {
        x
    }
}

/// Bound on the magnitude of the chroma numerator.
pub const CHROMA_BOUND: i128 = 557_691_168_386_250;

/// Largest numerator of a mapped saturation or lightness.
pub const PERCENT_NUM_MAX: i128 = 16711425;

proof fn lemma_scaled_bound(m: int)
    requires
        0 <= m <= 65535,
    ensures
        m * 255 <= PERCENT_NUM_MAX,
{
    assert(m * 255 <= 65535 * 255) by (nonlinear_arith)
        requires
            0 <= m <= 65535,
    ;
}

/// Converts hue `h / HUE_DEN` degrees, saturation `s / PERCENT_DEN` and
/// lightness `l / PERCENT_DEN` to RGB.
fn hsl_to_rgb(h: i128, s: i128, l: i128) -> (r: RGB)
    requires
        0 <= h < 6 * SECTOR,
        0 <= s <= PERCENT_NUM_MAX,
        0 <= l <= PERCENT_NUM_MAX,
    ensures
        r == hsl_to_rgb_spec(h as int, s as int, l as int),
{
    let lightness_span: i128 = PERCENT_DEN - abs_i128(2 * l - PERCENT_DEN);
    proof {
        lemma_mul_bound(lightness_span as int, s as int, 33371850, 16711425);
    }
    let c: i128 = lightness_span * s;
    let f: i128 = SECTOR - abs_i128(h % (2 * SECTOR) - SECTOR);
    proof {
        lemma_mul_bound(c as int, f as int, CHROMA_BOUND as int, 3932100);
        lemma_mul_bound(c as int, 7864200, CHROMA_BOUND as int, 7864200);
        lemma_mul_bound(
            51000 * l - c,
            3932100,
            CHROMA_BOUND + 51000 * PERCENT_NUM_MAX,
            3932100,
        );
    }
    // c * 2 * SECTOR, c * f * 2 and (2 * PERCENT_DEN * l - c) * SECTOR
    let big_c: i128 = c * 7864200;
    let x: i128 = c * f * 2;
    let m: i128 = (51000 * l - c) * 3932100;
    let sector: i128 = h / SECTOR;
    let (r, g, b) = if sector == 0 {
        (big_c, x, 0)
    } else if sector == 1 {
        (x, big_c, 0)
    } else if sector == 2 {
        (0, big_c, x)
    } else if sector == 3 {
        (0, x, big_c)
    } else if sector == 4 {
        (x, 0, big_c)
    } else if sector == 5 {
        (big_c, 0, x)
    } else {
        (0, 0, 0)
    };
    RGB { red: channel(r + m), green: channel(g + m), blue: channel(b + m) }
}

/// HSL range theme.
///
/// The main color is generated inside the configured hue, saturation and
/// lightness ranges; the background color is picked from a list of
/// candidates by a byte of the hash.
pub struct HSLRange {
    /// Smallest hue, in degrees.
    hue_min: u16,
    /// Largest hue, in degrees.
    hue_max: u16,
    /// Smallest saturation, in percent.
    saturation_min: u16,
    /// Largest saturation, in percent.
    saturation_max: u16,
    /// Smallest lightness, in percent.
    lightness_min: u16,
    /// Largest lightness, in percent.
    lightness_max: u16,
    /// Candidates for the background color. One value gives a constant background.
    background: Vec<RGB>,
}

/// The message of the first bound pair whose maximum is below its minimum.
pub open spec fn range_validation_message(
    hue_min: u16,
    hue_max: u16,
    saturation_min: u16,
    saturation_max: u16,
    lightness_min: u16,
    lightness_max: u16,
) -> Seq<char> {
    if hue_max < hue_min {
        "hue_max must be larger than hue_min"@
    } else if saturation_max < saturation_min {
        "saturation_max must be larger than saturation_min"@
    } else {
        "lightness_max must be larger than lightness_min"@
    }
}

impl HSLRange {
    /// Smallest hue, in degrees.
    pub closed spec fn spec_hue_min(&self) -> u16 {
        self.hue_min
    }

    /// Largest hue, in degrees.
    pub closed spec fn spec_hue_max(&self) -> u16 {
        self.hue_max
    }

    /// Smallest saturation, in percent.
    pub closed spec fn spec_saturation_min(&self) -> u16 {
        self.saturation_min
    }

    /// Largest saturation, in percent.
    pub closed spec fn spec_saturation_max(&self) -> u16 {
        self.saturation_max
    }

    /// Smallest lightness, in percent.
    pub closed spec fn spec_lightness_min(&self) -> u16 {
        self.lightness_min
    }

    /// Largest lightness, in percent.
    pub closed spec fn spec_lightness_max(&self) -> u16 {
        self.lightness_max
    }

    /// The candidates for the background color.
    pub closed spec fn background_colors(&self) -> Seq<RGB> {
        self.background@
    }

    /// Every range has its maximum at or above its minimum.
    pub open spec fn is_valid(&self) -> bool {
        &&& self.spec_hue_min() <= self.spec_hue_max()
        &&& self.spec_saturation_min() <= self.spec_saturation_max()
        &&& self.spec_lightness_min() <= self.spec_lightness_max()
    }

    /// The message `validate` gives for an invalid theme.
    pub open spec fn validation_message(&self) -> Seq<char> {
        range_validation_message(
            self.spec_hue_min(),
            self.spec_hue_max(),
            self.spec_saturation_min(),
            self.spec_saturation_max(),
            self.spec_lightness_min(),
            self.spec_lightness_max(),
        )
    }

    /// The main color for `hash`: bytes 0 and 1 (as `byte0 << 8 | byte1`)
    /// give the hue, byte 2 the saturation and byte 3 the lightness, each
    /// mapped onto its range; the hue is then taken modulo 360 degrees.
    pub open spec fn hsl_color(&self, hash: Seq<u8>) -> RGB {
        let hue_hash = hash_byte(hash, 0) as int * 256 + hash_byte(hash, 1) as int;
        let h = mapped_numerator(
            hue_hash,
            0,
            HUE_DEN as int,
            self.spec_hue_min() as int,
            self.spec_hue_max() as int,
        ) % (6 * SECTOR);
        let s = mapped_numerator(
            hash_byte(hash, 2) as int,
            0,
            255,
            self.spec_saturation_min() as int,
            self.spec_saturation_max() as int,
        );
        let l = mapped_numerator(
            hash_byte(hash, 3) as int,
            0,
            255,
            self.spec_lightness_min() as int,
            self.spec_lightness_max() as int,
        );
        hsl_to_rgb_spec(h, s, l)
    }

    /// Makes an HSL range theme.
    ///
    /// Hues are in degrees (0 to 360), saturation and lightness in percent
    /// (0 to 100). Fails if a maximum is below its minimum.
    pub fn new(
        hue_min: u16,
        hue_max: u16,
        saturation_min: u16,
        saturation_max: u16,
        lightness_min: u16,
        lightness_max: u16,
        background: Vec<RGB>,
    ) -> (r: Result<HSLRange, ThemeError>)
        ensures
            match r {
                Ok(t) => {
                    &&& t.is_valid()
                    &&& t.spec_hue_min() == hue_min
                    &&& t.spec_hue_max() == hue_max
                    &&& t.spec_saturation_min() == saturation_min
                    &&& t.spec_saturation_max() == saturation_max
                    &&& t.spec_lightness_min() == lightness_min
                    &&& t.spec_lightness_max() == lightness_max
                    &&& t.background_colors() == background@
                },
                Err(e) => {
                    &&& !(hue_min <= hue_max && saturation_min <= saturation_max && lightness_min
                        <= lightness_max)
                    &&& e@ == ThemeErrorView::Validation(range_validation_message(
                        hue_min,
                        hue_max,
                        saturation_min,
                        saturation_max,
                        lightness_min,
                        lightness_max,
                    ))
                },
            },
    {
        let theme = HSLRange {
            hue_min,
            hue_max,
            saturation_min,
            saturation_max,
            lightness_min,
            lightness_max,
            background,
        };
        match theme.validate() {
            Ok(()) => Ok(theme),
            Err(e) => Err(e),
        }
    }

    fn validate(&self) -> (r: Result<(), ThemeError>)
        ensures
            match r {
                Ok(()) => self.is_valid(),
                Err(e) => !self.is_valid() && e@ == ThemeErrorView::Validation(
                    self.validation_message(),
                ),
            },
    {
        if self.hue_max < self.hue_min {
            Err(ThemeError::ThemeValidationError(String::from_str("hue_max must be larger than hue_min")))
        } else if self.saturation_max < self.saturation_min {
            Err(
                ThemeError::ThemeValidationError(
                    String::from_str("saturation_max must be larger than saturation_min"),
                ),
            )
        } else if self.lightness_max < self.lightness_min {
            Err(
                ThemeError::ThemeValidationError(
                    String::from_str("lightness_max must be larger than lightness_min"),
                ),
            )
        } else {
            Ok(())
        }
    }
}

impl Theme for HSLRange {
    /// An invalid theme reports which bounds are inverted.
    open spec fn spec_main_color(&self, hash: Seq<u8>) -> Result<RGB, ThemeErrorView> {
        if self.is_valid() {
            Ok(self.hsl_color(hash))
        } else {
            Err(ThemeErrorView::Validation(self.validation_message()))
        }
    }

    /// The background color is picked by hash byte 2.
    open spec fn spec_background_color(&self, hash: Seq<u8>) -> Result<RGB, ThemeErrorView> {
        select_color(self.background_colors(), hash, 2, "background color selection is empty"@)
    }

    fn main_color(&self, hash: &[u8]) -> (r: Result<RGB, ThemeError>) {
        match self.validate() {
            Ok(()) => {},
            Err(e) => {
                return Err(e);
            },
        }
        let len = hash.len();
        let hue_hash: u32 = hash[0 % len] as u32 * 256 + hash[1 % len] as u32;
        let hue = map_values(
            hue_hash,
            0,
            HUE_DEN as u32,
            self.hue_min as u32,
            self.hue_max as u32,
        );
        let saturation = map_values(
            hash[2 % len] as u32,
            0,
            255,
            self.saturation_min as u32,
            self.saturation_max as u32,
        );
        let lightness = map_values(
            hash[3 % len] as u32,
            0,
            255,
            self.lightness_min as u32,
            self.lightness_max as u32,
        );
        proof {
            lemma_mapped_in_target(
                hue_hash as int,
                0,
                HUE_DEN as int,
                self.hue_min as int,
                self.hue_max as int,
            );
            lemma_mapped_in_target(
                hash@[2int % (len as int)] as int,
                0,
                255,
                self.saturation_min as int,
                self.saturation_max as int,
            );
            lemma_mapped_in_target(
                hash@[3int % (len as int)] as int,
                0,
                255,
                self.lightness_min as int,
                self.lightness_max as int,
            );
        }
        proof {
            lemma_scaled_bound(max_int(self.saturation_min as int, self.saturation_max as int));
            lemma_scaled_bound(max_int(self.lightness_min as int, self.lightness_max as int));
        }
        // 0 degrees and 360 degrees are the same hue
        let h: i128 = hue.numerator % (6 * SECTOR);
        Ok(hsl_to_rgb(h, saturation.numerator, lightness.numerator))
    }

    fn background_color(&self, hash: &[u8]) -> (r: Result<RGB, ThemeError>)
    {
        select(&self.background, hash, 2, "background color selection is empty")
    }
}

/// One of the built-in themes.
pub enum BuiltinTheme {
    /// An HSL range theme.
    Range(HSLRange),
    /// A selection theme.
    Selection(Selection),
}

impl Theme for BuiltinTheme {
    open spec fn spec_main_color(&self, hash: Seq<u8>) -> Result<RGB, ThemeErrorView> {
        match self {
            BuiltinTheme::Range(t) => t.spec_main_color(hash),
            BuiltinTheme::Selection(t) => t.spec_main_color(hash),
        }
    }

    open spec fn spec_background_color(&self, hash: Seq<u8>) -> Result<RGB, ThemeErrorView> {
        match self {
            BuiltinTheme::Range(t) => t.spec_background_color(hash),
            BuiltinTheme::Selection(t) => t.spec_background_color(hash),
        }
    }

    fn main_color(&self, hash: &[u8]) -> (r: Result<RGB, ThemeError>) {
        match self {
            BuiltinTheme::Range(t) => t.main_color(hash),
            BuiltinTheme::Selection(t) => t.main_color(hash),
        }
    }

    fn background_color(&self, hash: &[u8]) -> (r: Result<RGB, ThemeError>) {
        match self {
            BuiltinTheme::Range(t) => t.background_color(hash),
            BuiltinTheme::Selection(t) => t.background_color(hash),
        }
    }
}

/// The light grey background of the pastel themes.
pub open spec fn pastel_background() -> RGB {
    RGB { red: 240, green: 240, blue: 240 }
}

/// The settings of the default theme.
pub open spec fn is_default_theme(theme: BuiltinTheme) -> bool {
    theme matches BuiltinTheme::Range(t) && {
        &&& t.spec_hue_min() == 0
        &&& t.spec_hue_max() == 360
        &&& t.spec_saturation_min() == 50
        &&& t.spec_saturation_max() == 75
        &&& t.spec_lightness_min() == 60
        &&& t.spec_lightness_max() == 70
        &&& t.background_colors() == seq![pastel_background()]
    }
}

/// The default theme: muted pastel colors from an HSL range (any hue,
/// saturation 50 to 75 percent, lightness 60 to 70 percent) on a light grey
/// background.
pub fn default_theme() -> (r: Arc<BuiltinTheme>)
    ensures
        is_default_theme(*r),
{
    let theme = HSLRange {
        hue_min: 0,
        hue_max: 360,
        saturation_min: 50,
        saturation_max: 75,
        lightness_min: 60,
        lightness_max: 70,
        background: vec![RGB { red: 240, green: 240, blue: 240 }],
    };
    assert(theme.background_colors() =~= seq![pastel_background()]);
    Arc::new(BuiltinTheme::Range(theme))
}

/// The main colors of the pastel selection theme.
pub open spec fn pastel_main_colors() -> Seq<RGB> {
    seq![
        RGB { red: 255, green: 173, blue: 173 },
        RGB { red: 255, green: 214, blue: 165 },
        RGB { red: 253, green: 255, blue: 182 },
        RGB { red: 202, green: 255, blue: 191 },
        RGB { red: 155, green: 246, blue: 255 },
        RGB { red: 160, green: 196, blue: 255 },
        RGB { red: 189, green: 178, blue: 255 },
        RGB { red: 255, green: 198, blue: 255 },
    ]
}

/// A selection theme of eight pastel main colors on a light grey background.
pub fn pastel_selection_theme() -> (r: Arc<BuiltinTheme>)
    ensures
        *r matches BuiltinTheme::Selection(t) && t.main_colors() == pastel_main_colors()
            && t.background_colors() == seq![pastel_background()],
{
    let main = vec![
        RGB { red: 255, green: 173, blue: 173 },
        RGB { red: 255, green: 214, blue: 165 },
        RGB { red: 253, green: 255, blue: 182 },
        RGB { red: 202, green: 255, blue: 191 },
        RGB { red: 155, green: 246, blue: 255 },
        RGB { red: 160, green: 196, blue: 255 },
        RGB { red: 189, green: 178, blue: 255 },
        RGB { red: 255, green: 198, blue: 255 },
    ];
    let background = vec![RGB { red: 240, green: 240, blue: 240 }];
    Arc::new(BuiltinTheme::Selection(Selection { main, background }))
}

} // verus!
