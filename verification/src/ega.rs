//! The 64 colours of the EGA palette.
//!
//! A colour is a number of six bits, `rgbRGB`: the low three bits are the strong parts of
//! red, green and blue, the high three bits the weak parts. Each of red, green and blue
//! thus takes one of four strengths.

use vstd::prelude::*;

verus! {

/// Red, green, blue and alpha.
pub type Rgba = [u8; 4];

/// Red, green and blue.
pub type Rgb = [u8; 3];

/// The sixteen colours of the CGA palette, as EGA colours.
pub const CGA_ORDER: [u8; 16] = [0, 1, 2, 3, 4, 5, 20, 7, 56, 57, 58, 59, 60, 61, 62, 63];

/// The sixteen colours in the order of the ANSI escape codes, as EGA colours.
pub const ANSI_ORDER: [u8; 16] = [0, 4, 2, 20, 1, 5, 3, 7, 56, 60, 58, 62, 57, 61, 59, 63];

/// Black, opaque.
pub const BLACK_RGBA: [u8; 4] = [0, 0, 0, 255];

/// White, opaque.
pub const WHITE_RGBA: [u8; 4] = [255, 255, 255, 255];

/// The strength of a colour part, from its weak bit and its strong bit: 0, 85, 170 or 255.
pub open spec fn strength(weak: nat, strong: nat) -> nat {
    (weak % 2 + 2 * (strong % 2)) * 85
}

/// The red part of an EGA colour.
pub open spec fn red_of(value: u8) -> nat {
    strength(value as nat / 32, value as nat / 4)
}

/// The green part of an EGA colour.
pub open spec fn green_of(value: u8) -> nat {
    strength(value as nat / 16, value as nat / 2)
}

/// The blue part of an EGA colour.
pub open spec fn blue_of(value: u8) -> nat {
    strength(value as nat / 8, value as nat)
}

/// The red, green and blue parts of an EGA colour.
pub fn convert_ega_to_rgb(value: u8) -> (r: (u8, u8, u8))
    ensures
        r.0 == red_of(value),
        r.1 == green_of(value),
        r.2 == blue_of(value),
{
    assert(((value & 0b001000) >> 3) + ((value & 0b000001) << 1) == (value / 8) % 2 + 2 * (value
        % 2)) by (bit_vector);
    assert(((value & 0b010000) >> 4) + (value & 0b000010) == (value / 16) % 2 + 2 * ((value / 2)
        % 2)) by (bit_vector);
    assert(((value & 0b100000) >> 5) + ((value & 0b000100) >> 1) == (value / 32) % 2 + 2 * ((value
        / 4) % 2)) by (bit_vector);
    let blue = (((value & 0b001000) >> 3) + ((value & 0b000001) << 1)) * 0x55;
    let green = (((value & 0b010000) >> 4) + (value & 0b000010)) * 0x55;
    let red = (((value & 0b100000) >> 5) + ((value & 0b000100) >> 1)) * 0x55;
    (red, green, blue)
}

/// An EGA colour as red, green, blue and full alpha.
pub fn ega_to_rgba(value: u8) -> (r: Rgba)
    ensures
        r@ == seq![red_of(value) as u8, green_of(value) as u8, blue_of(value) as u8, 255u8],
{
    let (red, green, blue) = convert_ega_to_rgb(value);
    let r = [red, green, blue, 255];
    proof {
        assert(r@ =~= seq![red, green, blue, 255u8]);
    }
    r
}

/// An EGA colour as red, green and blue.
pub fn ega_to_rgb(value: u8) -> (r: Rgb)
    ensures
        r@ == seq![red_of(value) as u8, green_of(value) as u8, blue_of(value) as u8],
{
    let (red, green, blue) = convert_ega_to_rgb(value);
    let r = [red, green, blue];
    proof {
        assert(r@ =~= seq![red, green, blue]);
    }
    r
}

/// One colour of a palette.
#[derive(Clone, Copy, Debug, PartialEq, Eq)]
pub struct EgaColor {
    /// The six bits of the colour.
    pub value: u8,
    pub rgba: Rgba,
    pub rgb: Rgb,
}

impl EgaColor {
    /// The colour that `value` stands for.
    pub fn new(value: u8) -> (r: EgaColor)
        ensures
            r.value == value,
            r.rgba@ == seq![red_of(value) as u8, green_of(value) as u8, blue_of(value) as u8, 255u8],
            r.rgb@ == seq![red_of(value) as u8, green_of(value) as u8, blue_of(value) as u8],
    {
        EgaColor { value, rgba: ega_to_rgba(value), rgb: ega_to_rgb(value) }
    }
}

/// The colours of `indexes`, in order.
pub open spec fn colors_of(indexes: Seq<u8>, colors: Seq<EgaColor>) -> bool {
    &&& colors.len() == indexes.len()
    &&& forall|i: int|
        0 <= i < indexes.len() ==> {
            &&& (#[trigger] colors[i]).value == indexes[i]
            &&& colors[i].rgba@ == seq![
                red_of(indexes[i]) as u8,
                green_of(indexes[i]) as u8,
                blue_of(indexes[i]) as u8,
                255u8,
            ]
            &&& colors[i].rgb@ == seq![
                red_of(indexes[i]) as u8,
                green_of(indexes[i]) as u8,
                blue_of(indexes[i]) as u8,
            ]
        }
}

/// A list of EGA colours, of any length.
#[derive(Clone, Debug, PartialEq, Eq)]
pub struct EgaPalette {
    colors: Vec<EgaColor>,
}

impl View for EgaPalette {
    type V = Seq<EgaColor>;

    closed spec fn view(&self) -> Seq<EgaColor> {
        self.colors@
    }
}

impl EgaPalette {
    /// The palette of the colours `indexes`, in order.
    pub fn new(indexes: &[u8]) -> (r: EgaPalette)
        ensures
            colors_of(indexes@, r@),
    {
        let mut colors: Vec<EgaColor> = Vec::with_capacity(indexes.len());
        let mut i: usize = 0;
        while i < indexes.len()
            invariant
                i <= indexes@.len(),
                colors_of(indexes@.take(i as int), colors@),
            decreases indexes@.len() - i,
        {
            colors.push(EgaColor::new(indexes[i]));
            i += 1;
        }
        proof {
            assert(indexes@.take(i as int) =~= indexes@);
        }
        EgaPalette { colors }
    }

    /// The sixteen colours in the order of the ANSI escape codes.
    pub fn ansi() -> (r: EgaPalette)
        ensures
            colors_of(ANSI_ORDER@, r@),
    {
        EgaPalette::new(ANSI_ORDER.as_slice())
    }

    /// The sixteen colours of the CGA palette.
    pub fn cga() -> (r: EgaPalette)
        ensures
            colors_of(CGA_ORDER@, r@),
    {
        EgaPalette::new(CGA_ORDER.as_slice())
    }

    /// All 64 colours, by their number.
    pub fn all() -> (r: EgaPalette)
        ensures
            colors_of(Seq::new(64, |i: int| i as u8), r@),
    {
        let mut indexes: Vec<u8> = Vec::with_capacity(64);
        let mut value: u8 = 0;
        while value < 64
            invariant
                value <= 64,
                indexes@ == Seq::new(value as nat, |i: int| i as u8),
            decreases 64 - value,
        {
            indexes.push(value);
            value += 1;
            proof {
                assert(indexes@ =~= Seq::new(value as nat, |i: int| i as u8));
            }
        }
        EgaPalette::new(indexes.as_slice())
    }

    /// The number of colours.
    pub fn len(&self) -> (r: usize)
        ensures
            r == self@.len(),
    {
        self.colors.len()
    }

    /// Tells whether the palette holds no colour.
    pub fn is_empty(&self) -> (r: bool)
        ensures
            r == (self@.len() == 0),
    {
        self.colors.len() == 0
    }

    /// The colour at `index`, if there is one.
    pub fn get(&self, index: usize) -> (r: Option<&EgaColor>)
        ensures
            match r {
                Some(color) => index < self@.len() && *color == self@[index as int],
                None => index >= self@.len(),
            },
    {
        if index < self.colors.len() {
            Some(&self.colors[index])
        } else {
            None
        }
    }

    /// The index of the first colour with the red, green, blue and alpha of `find`, if
    /// there is one.
    pub fn index_of(&self, find: &Rgba) -> (r: Option<usize>)
        ensures
            match r {
                Some(index) => index < self@.len() && self@[index as int].rgba@ == find@
                    && forall|i: int| 0 <= i < index ==> (#[trigger] self@[i]).rgba@ != find@,
                None => forall|i: int| 0 <= i < self@.len() ==> (#[trigger] self@[i]).rgba@ != find@,
            },
    {
        let mut i: usize = 0;
        while i < self.colors.len()
            invariant
                i <= self.colors@.len(),
                forall|k: int| 0 <= k < i ==> (#[trigger] self.colors@[k]).rgba@ != find@,
            decreases self.colors@.len() - i,
        {
            if same_rgba(&self.colors[i].rgba, find) {
                return Some(i);
            }
            i += 1;
        }
        None
    }
}

/// Tells whether two colours have the same four parts.
pub fn same_rgba(a: &Rgba, b: &Rgba) -> (r: bool)
    ensures
        r == (a@ == b@),
{
    let r = a[0] == b[0] && a[1] == b[1] && a[2] == b[2] && a[3] == b[3];
    proof {
        if r {
            assert(a@ =~= b@);
        }
    }
    r
}

} // verus!
