use vstd::prelude::*;

verus! {

/// Largest value of an 8-bit channel.
pub const CHANNEL_MAX: u8 = 255;

/// Sum of two channels, saturating at the largest value an 8-bit channel holds.
pub open spec fn saturating_sum(x: u8, y: u8) -> u8 {
    if x + y > CHANNEL_MAX {
        CHANNEL_MAX
    } else {
        (x + y) as u8
    }
}

/// An RGB color with 8 bits per channel.
#[derive(Clone, Copy, Debug, PartialEq, Eq, Structural)]
pub struct Color {
    pub r: u8,
    pub g: u8,
    pub b: u8,
}

impl Color {
    pub open spec fn spec_black() -> Color {
        Color { r: 0, g: 0, b: 0 }
    }

    /// The color with every channel at zero.
    pub fn black() -> (c: Color)
        ensures
            c == Color::spec_black(),
    {
        Color { r: 0, g: 0, b: 0 }
    }

    /// The color with every channel at its largest value.
    pub fn white() -> (c: Color)
        ensures
            c.r == CHANNEL_MAX && c.g == CHANNEL_MAX && c.b == CHANNEL_MAX,
    {
        Color { r: CHANNEL_MAX, g: CHANNEL_MAX, b: CHANNEL_MAX }
    }

    /// Channel-wise sum of two colors, each channel saturating at its maximum.
    pub open spec fn spec_add(self, o: Color) -> Color {
        Color {
            r: saturating_sum(self.r, o.r),
            g: saturating_sum(self.g, o.g),
            b: saturating_sum(self.b, o.b),
        }
    }
}

fn add_channel(x: u8, y: u8) -> (s: u8)
    ensures
        s == saturating_sum(x, y),
{
    match x.checked_add(y) {
        Some(v) => v,
        None => CHANNEL_MAX,
    }
}

impl std::ops::Add for Color {
    type Output = Color;

    fn add(self, o: Color) -> (c: Color)
        ensures
            c == self.spec_add(o),
    {
        Color {
            r: add_channel(self.r, o.r),
            g: add_channel(self.g, o.g),
            b: add_channel(self.b, o.b),
        }
    }
}

impl vstd::std_specs::ops::AddSpecImpl for Color {
    open spec fn obeys_add_spec() -> bool {
        true
    }

    open spec fn add_req(self, o: Color) -> bool {
        true
    }

    open spec fn add_spec(self, o: Color) -> Color {
        self.spec_add(o)
    }
}

impl Default for Color {
    fn default() -> (c: Color)
        ensures
            c == Color::spec_black(),
    {
        Color::black()
    }
}

} // verus!
