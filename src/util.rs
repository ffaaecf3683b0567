use vstd::prelude::*;

verus! {

/// An opaque color given by its red, green and blue channels.
#[derive(Clone, Copy, Debug, PartialEq, Eq, Structural)]
pub struct Rgb {
    pub r: u8,
    pub g: u8,
    pub b: u8,
}

impl Rgb {
    /// A color from its three 8-bit channels.
    pub fn rgb8(r: u8, g: u8, b: u8) -> (c: Rgb)
        ensures
            c == (Rgb { r, g, b }),
    {
        Rgb { r, g, b }
    }
}

/// Relative luminance with the Rec. 709 weights, scaled by `255 * 10000`.
pub open spec fn weighted_luminance(c: Rgb) -> int {
    2126 * c.r + 7152 * c.g + 722 * c.b
}

/// Half of the full luminance scale used by `weighted_luminance`.
pub const DARK_THRESHOLD: u32 = 1275000;

/// A color is dark when its luminance is below one half.
pub open spec fn spec_is_dark(c: Rgb) -> bool {
    weighted_luminance(c) < DARK_THRESHOLD
}

/// Returns true if a color is "dark", that is of a luminance below one half.
///
/// Colors tuned for light backgrounds do not read well on such a color,
/// fonts in particular.
pub fn is_dark(color: &Rgb) -> (r: bool)
    ensures
        r == spec_is_dark(*color),
{
    let lum: u32 = 2126 * (color.r as u32) + 7152 * (color.g as u32) + 722 * (color.b as u32);
    lum < DARK_THRESHOLD
}

/// Wrapper for a `bool` that renders as `"ON"` or `"OFF"`.
#[derive(Debug, Clone, Copy, PartialEq, Eq, Structural)]
pub struct BoolSwitchWrapper(pub bool);

/// The text of a switch state.
pub open spec fn switch_text(b: bool) -> Seq<char> {
    if b {
        seq!['O', 'N']
    } else {
        seq!['O', 'F', 'F']
    }
}

impl BoolSwitchWrapper {
    /// Renders the state as `"ON"` or `"OFF"`.
    pub fn to_string(&self) -> (r: String)
        ensures
            r@ == switch_text(self.0),
    {
        if self.0 {
            proof { reveal_strlit("ON"); }
            String::from_str("ON")
        } else {
            proof { reveal_strlit("OFF"); }
            String::from_str("OFF")
        }
    }
}

/// Wraps a `bool` for display as a switch state.
#[inline]
pub fn bool_switch(b: &bool) -> (r: BoolSwitchWrapper)
    ensures
        r.0 == *b,
{
    BoolSwitchWrapper(*b)
}

} // verus!
