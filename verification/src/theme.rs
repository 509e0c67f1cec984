use vstd::prelude::*;

verus! {

/// A 24-bit colour.
#[derive(Debug, Clone, Copy, PartialEq, Eq)]
pub struct Rgb {
    pub r: u8,
    pub g: u8,
    pub b: u8,
}

impl Rgb {
    pub fn new(r: u8, g: u8, b: u8) -> (c: Rgb)
        ensures
            c.r == r && c.g == g && c.b == b,
    {
        Rgb { r, g, b }
    }
}

/// The console palette.
#[derive(Debug, Clone, Copy, PartialEq, Eq)]
pub struct Theme {
    pub background: Rgb,
    pub normal: Rgb,
    pub good: Rgb,
    pub danger: Rgb,
    pub error: Rgb,
}

impl Default for Theme {
    /// Near-black background, neon cyan text, neon green for good, neon
    /// amber for danger, neon magenta for errors.
    fn default() -> (t: Theme)
        ensures
            t.background == (Rgb { r: 0x0A, g: 0x0E, b: 0x14 }),
            t.normal == (Rgb { r: 0x05, g: 0xD9, b: 0xE8 }),
            t.good == (Rgb { r: 0x39, g: 0xFF, b: 0x14 }),
            t.danger == (Rgb { r: 0xFF, g: 0xB0, b: 0x00 }),
            t.error == (Rgb { r: 0xFF, g: 0x2A, b: 0x6D }),
    {
        Theme {
            background: Rgb::new(0x0A, 0x0E, 0x14),
            normal: Rgb::new(0x05, 0xD9, 0xE8),
            good: Rgb::new(0x39, 0xFF, 0x14),
            danger: Rgb::new(0xFF, 0xB0, 0x00),
            error: Rgb::new(0xFF, 0x2A, 0x6D),
        }
    }
}

} // verus!
