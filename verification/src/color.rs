//! RGB colors and contrast selection.

use vstd::prelude::*;

verus! {

/// An RGB color with 8-bit components.
#[derive(Debug, Clone, Copy, PartialEq, Eq, Structural, Hash)]
pub struct PBCColor {
    pub r: u8,
    pub g: u8,
    pub b: u8,
}

/// Relative luminance of a color, scaled by 1000 so the standard
/// coefficients (0.299, 0.587, 0.114) become exact integers.
pub open spec fn luminance_scaled(c: PBCColor) -> int {
    299 * c.r + 587 * c.g + 114 * c.b
}

impl PBCColor {
    /// Creates a new color from its red, green and blue components.
    pub fn new(r: u8, g: u8, b: u8) -> (c: Self)
        ensures
            c == (PBCColor { r, g, b }),
    {
        PBCColor { r, g, b }
    }

    /// Black.
    pub fn black() -> (c: Self)
        ensures
            c == (PBCColor { r: 0 as u8, g: 0 as u8, b: 0 as u8 }),
    {
        PBCColor { r: 0, g: 0, b: 0 }
    }

    /// White.
    pub fn white() -> (c: Self)
        ensures
            c == (PBCColor { r: 255 as u8, g: 255 as u8, b: 255 as u8 }),
    {
        PBCColor { r: 255, g: 255, b: 255 }
    }

    /// The color (black or white) that contrasts best against this one:
    /// black for bright colors (scaled luminance above 128000, i.e. 128),
    /// white for dark ones.
    pub fn contrast_color(&self) -> (c: Self)
        ensures
            luminance_scaled(*self) > 128000 ==> c == (PBCColor {
                r: 0 as u8,
                g: 0 as u8,
                b: 0 as u8,
            }),
            luminance_scaled(*self) <= 128000 ==> c == (PBCColor {
                r: 255 as u8,
                g: 255 as u8,
                b: 255 as u8,
            }),
    {
        let luminance: u32 = 299 * (self.r as u32) + 587 * (self.g as u32) + 114 * (self.b as u32);
        if luminance > 128000 {
            Self::black()
        } else {
            Self::white()
        }
    }
}

impl Default for PBCColor {
    /// The default color is black.
    fn default() -> (c: Self)
        ensures
            c == (PBCColor { r: 0 as u8, g: 0 as u8, b: 0 as u8 }),
    {
        PBCColor { r: 0, g: 0, b: 0 }
    }
}

} // verus!
