use vstd::prelude::*;

verus! {

/// Number of base colors in a palette.
pub const PALETTE_LEN: usize = 5;

/// One pixel of the strip: three independent 8-bit channels.
/// Channel arithmetic is integer division, truncating toward zero.
#[derive(Clone, Copy, PartialEq, Eq, Structural, Debug)]
pub struct Color {
    pub r: u8,
    pub g: u8,
    pub b: u8,
}

impl Color {
    /// The all-off color.
    pub open spec fn spec_black() -> Color {
        Color { r: 0, g: 0, b: 0 }
    }

    pub fn black() -> (c: Color)
        ensures
            c == Color::spec_black(),
    {
        Color { r: 0, g: 0, b: 0 }
    }

    pub fn new(r: u8, g: u8, b: u8) -> (c: Color)
        ensures
            c == (Color { r, g, b }),
    {
        Color { r, g, b }
    }

    /// Every channel divided by `d`, truncating toward zero.
    pub open spec fn spec_scaled(self, d: u8) -> Color
        recommends
            d > 0,
    {
        Color { r: (self.r / d) as u8, g: (self.g / d) as u8, b: (self.b / d) as u8 }
    }

    pub fn scaled(self, d: u8) -> (c: Color)
        requires
            d > 0,
        ensures
            c == self.spec_scaled(d),
    {
        Color { r: self.r / d, g: self.g / d, b: self.b / d }
    }
}

/// A fixed, ordered set of five base colors, read-only once built.
pub struct Palette {
    colors: Vec<Color>,
}

impl View for Palette {
    type V = Seq<Color>;

    closed spec fn view(&self) -> Seq<Color> {
        self.colors@
    }
}

impl Palette {
    pub open spec fn wf(&self) -> bool {
        self@.len() == PALETTE_LEN
    }

    /// A palette of the five given base colors, in order.
    pub fn new(c0: Color, c1: Color, c2: Color, c3: Color, c4: Color) -> (p: Palette)
        ensures
            p.wf(),
            p@ == seq![c0, c1, c2, c3, c4],
    {
        let mut colors: Vec<Color> = Vec::new();
        colors.push(c0);
        colors.push(c1);
        colors.push(c2);
        colors.push(c3);
        colors.push(c4);
        proof {
            assert(colors@ =~= seq![c0, c1, c2, c3, c4]);
        }
        Palette { colors }
    }

    /// The board's stock palette: five hues at a common base brightness.
    pub fn stock() -> (p: Palette)
        ensures
            p.wf(),
            p@[0] == (Color { r: 0x60, g: 0, b: 0 }),
            p@[1] == (Color { r: 0x60, g: 0x60, b: 0 }),
            p@[2] == (Color { r: 0, g: 0x60, b: 0 }),
            p@[3] == (Color { r: 0, g: 0x60, b: 0x60 }),
            p@[4] == (Color { r: 0, g: 0, b: 0x60 }),
    {
        Palette::new(
            Color { r: 0x60, g: 0, b: 0 },
            Color { r: 0x60, g: 0x60, b: 0 },
            Color { r: 0, g: 0x60, b: 0 },
            Color { r: 0, g: 0x60, b: 0x60 },
            Color { r: 0, g: 0, b: 0x60 },
        )
    }

    pub fn get(&self, i: usize) -> (c: Color)
        requires
            i < self@.len(),
        ensures
            c == self@[i as int],
    {
        self.colors[i]
    }
}

} // verus!
