use vstd::prelude::*;

verus! {

/// An RGB colour, one byte per channel.
#[derive(Debug, Clone, Copy, PartialEq, Eq, Structural)]
pub struct Color {
    pub r: u8,
    pub g: u8,
    pub b: u8,
}

impl From<[u8; 3]> for Color {
    fn from(vals: [u8; 3]) -> (r: Color) {
        Color::new(vals[0], vals[1], vals[2])
    }
}

impl vstd::std_specs::convert::FromSpecImpl<[u8; 3]> for Color {
    open spec fn obeys_from_spec() -> bool {
        true
    }

    open spec fn from_spec(vals: [u8; 3]) -> Color {
        Color { r: vals[0], g: vals[1], b: vals[2] }
    }
}

impl Color {
    pub fn new(r: u8, g: u8, b: u8) -> (c: Color)
        ensures
            c.r == r,
            c.g == g,
            c.b == b,
    {
        Color { r, g, b }
    }

    pub fn black() -> (c: Color)
        ensures
            c == (Color { r: 0, g: 0, b: 0 }),
    {
        Color::from([0, 0, 0])
    }

    pub fn white() -> (c: Color)
        ensures
            c == (Color { r: 255, g: 255, b: 255 }),
    {
        Color::from([255, 255, 255])
    }

    pub fn gray() -> (c: Color)
        ensures
            c == (Color { r: 127, g: 127, b: 127 }),
    {
        Color::from([127, 127, 127])
    }

    pub fn dark_gray() -> (c: Color)
        ensures
            c == (Color { r: 80, g: 80, b: 80 }),
    {
        Color::from([80, 80, 80])
    }

    pub fn light_gray() -> (c: Color)
        ensures
            c == (Color { r: 120, g: 120, b: 120 }),
    {
        Color::from([120, 120, 120])
    }

    pub fn red() -> (c: Color)
        ensures
            c == (Color { r: 255, g: 0, b: 0 }),
    {
        Color::from([255, 0, 0])
    }

    pub fn green() -> (c: Color)
        ensures
            c == (Color { r: 0, g: 255, b: 0 }),
    {
        Color::from([0, 255, 0])
    }

    pub fn blue() -> (c: Color)
        ensures
            c == (Color { r: 0, g: 0, b: 255 }),
    {
        Color::from([0, 0, 255])
    }

    pub fn yellow() -> (c: Color)
        ensures
            c == (Color { r: 0, g: 234, b: 255 }),
    {
        Color::from([0, 234, 255])
    }

    /// Swaps the red and blue channels, turning RGB into BGR and back.
    pub fn swap_order(&self) -> (c: Color)
        ensures
            c.r == self.b,
            c.g == self.g,
            c.b == self.r,
    {
        Color::new(self.b, self.g, self.r)
    }
}

} // verus!
