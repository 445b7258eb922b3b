use vstd::prelude::*;

verus! {

/// A color given by its red, green and blue channels.
#[derive(Clone, Copy, PartialEq, Eq, Structural, PartialOrd, Debug)]
pub struct RGB {
    /// The red channel.
    pub red: u8,
    /// The green channel.
    pub green: u8,
    /// The blue channel.
    pub blue: u8,
}

impl From<(u8, u8, u8)> for RGB {
    fn from(value: (u8, u8, u8)) -> (r: RGB)
        ensures
            r == (RGB { red: value.0, green: value.1, blue: value.2 }),
    {
        RGB { red: value.0, green: value.1, blue: value.2 }
    }
}

impl vstd::std_specs::convert::FromSpecImpl<(u8, u8, u8)> for RGB {
    open spec fn obeys_from_spec() -> bool {
        true
    }

    open spec fn from_spec(v: (u8, u8, u8)) -> RGB {
        RGB { red: v.0, green: v.1, blue: v.2 }
    }
}

} // verus!
