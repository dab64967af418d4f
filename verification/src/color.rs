//! Colour styles: total maps from a byte to an RGBA colour.
//!
//! A colour is four bytes: red, green, blue and alpha. Every style gives a
//! fully opaque colour for every byte.

use vstd::prelude::*;

verus! {

/// What a pixel shows where there is no byte to show.
pub const TRANSPARENT: [u8; 4] = [0, 0, 0, 0];

/// Colour of the zero byte.
pub const BLACK: [u8; 4] = [0, 0, 0, 255];

/// Colour of the visible ASCII characters.
pub const GREEN: [u8; 4] = [60, 255, 96, 255];

/// Colour of ASCII whitespace.
pub const NEAR_WHITE: [u8; 4] = [240, 240, 240, 255];

/// Colour of the remaining ASCII bytes, the control characters.
pub const BLUE: [u8; 4] = [60, 178, 255, 255];

/// Colour of the bytes above the ASCII range.
pub const RED: [u8; 4] = [249, 53, 94, 255];

/// The shades of grey: the byte on each colour channel.
pub open spec fn grayscale_color(b: u8) -> Seq<u8> {
    seq![b, b, b, 255u8]
}

/// The byte on red, twice the byte on green and four times the byte on blue,
/// where the products wrap around at 256.
pub open spec fn colorful_color(b: u8) -> Seq<u8> {
    seq![b, ((b * 2) % 256) as u8, ((b * 4) % 256) as u8, 255u8]
}

/// The visible ASCII characters, `!` to `~`.
pub open spec fn is_graphic(b: u8) -> bool {
    0x21 <= b <= 0x7e
}

/// Space, tab, line feed, form feed and carriage return.
pub open spec fn is_whitespace(b: u8) -> bool {
    b == 0x20 || b == 0x09 || b == 0x0a || b == 0x0c || b == 0x0d
}

/// The bytes of the 7-bit ASCII range.
pub open spec fn is_ascii(b: u8) -> bool {
    b <= 0x7f
}

/// One colour for each class of byte. The classes are tried in this order, so
/// that each byte falls into exactly one: zero, visible ASCII, ASCII
/// whitespace, any other ASCII byte, anything else.
pub open spec fn category_color(b: u8) -> Seq<u8> {
    if b == 0 {
        BLACK@
    } else if is_graphic(b) {
        GREEN@
    } else if is_whitespace(b) {
        NEAR_WHITE@
    } else if is_ascii(b) {
        BLUE@
    } else {
        RED@
    }
}

/// Maps a byte to the grey of the same brightness.
pub fn grayscale(b: u8) -> (color: [u8; 4])
    ensures
        color@ == grayscale_color(b),
{
    [b, b, b, 255]
}

/// Maps a byte to a colour that changes quickly with the byte's value.
pub fn colorful(b: u8) -> (color: [u8; 4])
    ensures
        color@ == colorful_color(b),
{
    [b, b.wrapping_mul(2), b.wrapping_mul(4), 255]
}

/// Maps a byte to the colour of its class.
pub fn category(b: u8) -> (color: [u8; 4])
    ensures
        color@ == category_color(b),
{
    if b == 0x00 {
        BLACK
    } else if 0x21 <= b && b <= 0x7e {
        GREEN
    } else if b == 0x20 || b == 0x09 || b == 0x0a || b == 0x0c || b == 0x0d {
        NEAR_WHITE
    } else if b <= 0x7f {
        BLUE
    } else {
        RED
    }
}

/// A colour gradient, sampled once for each byte value: 256 colours, each
/// given by its red, green and blue channel.
pub struct GradientTable {
    colors: Vec<[u8; 3]>,
}

impl View for GradientTable {
    type V = Seq<[u8; 3]>;

    closed spec fn view(&self) -> Seq<[u8; 3]> {
        self.colors@
    }
}

impl GradientTable {
    /// A table has an entry for every byte value.
    #[verifier::type_invariant]
    pub open spec fn wf(&self) -> bool {
        self@.len() == 256
    }

    /// The colour that the table holds for a byte, made fully opaque.
    pub open spec fn color(&self, b: u8) -> Seq<u8> {
        seq![self@[b as int]@[0], self@[b as int]@[1], self@[b as int]@[2], 255u8]
    }

    /// Makes a table of the samples of a gradient, the sample for byte `b` at
    /// index `b`. There must be one sample for each byte value.
    pub fn new(colors: Vec<[u8; 3]>) -> (table: Option<GradientTable>)
        ensures
            table is Some <==> colors@.len() == 256,
            table matches Some(t) ==> t.wf() && t@ == colors@,
    {
        if colors.len() == 256 {
            Some(GradientTable { colors })
        } else {
            None
        }
    }

    /// Maps a byte to its colour on the gradient.
    pub fn map(&self, b: u8) -> (color: [u8; 4])
        ensures
            color@ == self.color(b),
    {
        proof {
            use_type_invariant(self);
        }
        let rgb: [u8; 3] = self.colors[b as usize];
        [rgb[0], rgb[1], rgb[2], 255]
    }
}

/// The sampled gradients that a style can name.
pub struct Gradients {
    pub magma: GradientTable,
    pub plasma: GradientTable,
    pub viridis: GradientTable,
    pub rainbow: GradientTable,
}

/// How bytes are turned into colours.
#[derive(Clone, Copy, Debug, PartialEq, Eq)]
pub enum PixelStyle {
    Category,
    Colorful,
    Grayscale,
    GradientMagma,
    GradientPlasma,
    GradientViridis,
    GradientRainbow,
}

impl PixelStyle {
    /// The colour of a byte in this style.
    pub open spec fn color(self, gradients: &Gradients, b: u8) -> Seq<u8> {
        match self {
            PixelStyle::Category => category_color(b),
            PixelStyle::Colorful => colorful_color(b),
            PixelStyle::Grayscale => grayscale_color(b),
            PixelStyle::GradientMagma => gradients.magma.color(b),
            PixelStyle::GradientPlasma => gradients.plasma.color(b),
            PixelStyle::GradientViridis => gradients.viridis.color(b),
            PixelStyle::GradientRainbow => gradients.rainbow.color(b),
        }
    }

    /// Maps a byte to its colour in this style.
    pub fn map(self, gradients: &Gradients, b: u8) -> (color: [u8; 4])
        ensures
            color@ == self.color(gradients, b),
    {
        match self {
            PixelStyle::Category => category(b),
            PixelStyle::Colorful => colorful(b),
            PixelStyle::Grayscale => grayscale(b),
            PixelStyle::GradientMagma => gradients.magma.map(b),
            PixelStyle::GradientPlasma => gradients.plasma.map(b),
            PixelStyle::GradientViridis => gradients.viridis.map(b),
            PixelStyle::GradientRainbow => gradients.rainbow.map(b),
        }
    }

    /// Every style gives every byte a colour of four channels, the last of
    /// which, alpha, is 255: no byte is drawn transparent.
    pub proof fn lemma_opaque(self, gradients: &Gradients, b: u8)
        ensures
            self.color(gradients, b).len() == 4,
            self.color(gradients, b)[3] == 255,
    {
    }
}

} // verus!
