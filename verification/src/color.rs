//! Colours and styles of the rendered fields, and the stable colour that a
//! text is given by its bytes.

use vstd::prelude::*;
use vstd::utf8::encode_utf8;

verus! {

/// A terminal colour: one of the named basic colours, or an index into the
/// terminal's 256-colour palette.
#[derive(Clone, Copy, Debug, PartialEq, Eq, Structural)]
pub enum Color {
    Black,
    Red,
    Green,
    Yellow,
    White,
    Indexed(u16),
}

/// How a piece of text is painted.
#[derive(Clone, Copy, Debug, PartialEq, Eq, Structural)]
pub struct Style {
    pub bold: bool,
    pub foreground: Option<Color>,
    pub background: Option<Color>,
}

/// The value the colour hash starts from.
pub const HASH_SEED: u16 = 42;

/// The palette index of the muted colour of low-severity lines.
pub const DIM_INDEX: u16 = 243;

/// All of `bytes` folded with exclusive-or into the seed.
pub open spec fn xor_fold(bytes: Seq<u8>) -> u16
    decreases bytes.len(),
{
    if bytes.len() == 0 {
        HASH_SEED
    } else {
        xor_fold(bytes.drop_last()) ^ (bytes.last() as u16)
    }
}

/// Moves a palette index out of the ranges that read badly on a dark
/// background. The ranges are tried in this order.
pub open spec fn readable(index: u16) -> u16 {
    if index <= 1 {
        (index + 2) as u16
    } else if 16 <= index <= 21 {
        (index + 6) as u16
    } else if 52 <= index <= 55 || 126 <= index <= 129 {
        (index + 4) as u16
    } else if 163 <= index <= 165 || 200 <= index <= 201 {
        (index + 3) as u16
    } else if index == 207 {
        (index + 1) as u16
    } else if 232 <= index <= 240 {
        (index + 9) as u16
    } else {
        index
    }
}

/// The palette index that a text is given by its UTF-8 bytes.
pub open spec fn hashed_index(text: Seq<char>) -> u16 {
    readable(xor_fold(encode_utf8(text)))
}

/// The hash of any bytes is an index of the 256-colour palette, and stays
/// one after it is moved out of the unreadable ranges.
pub proof fn lemma_hash_in_palette(bytes: Seq<u8>)
    ensures
        xor_fold(bytes) < 256,
        readable(xor_fold(bytes)) < 256,
    decreases bytes.len(),
{
    if bytes.len() > 0 {
        lemma_hash_in_palette(bytes.drop_last());
        let acc = xor_fold(bytes.drop_last());
        let byte = bytes.last() as u16;
        assert(acc ^ byte < 256) by (bit_vector)
            requires
                acc < 256,
                byte < 256,
        ;
    }
}

impl Style {
    /// A style that sets the foreground colour, bold or not.
    pub fn foreground(color: Color, bold: bool) -> (style: Style)
        ensures
            style == (Style { bold, foreground: Some(color), background: None }),
    {
        Style { bold, foreground: Some(color), background: None }
    }

    /// A style that sets both colours.
    pub fn on(background: Color, foreground: Color) -> (style: Style)
        ensures
            style == (Style {
                bold: false,
                foreground: Some(foreground),
                background: Some(background),
            }),
    {
        Style { bold: false, foreground: Some(foreground), background: Some(background) }
    }
}

/// The colour of a text: its bytes folded with exclusive-or into a 16-bit
/// value, then moved out of the ranges that are hard to read. The same text
/// always has the same colour.
pub fn hashed_color(item: &str) -> (color: Color)
    ensures
        color == Color::Indexed(hashed_index(item@)),
        hashed_index(item@) < 256,
{
    let bytes = item.as_bytes();
    let mut hash: u16 = HASH_SEED;
    let mut i: usize = 0;
    while i < bytes.len()
        invariant
            i <= bytes.len(),
            hash == xor_fold(bytes@.take(i as int)),
        decreases bytes.len() - i,
    {
        proof {
            assert(bytes@.take(i + 1).drop_last() == bytes@.take(i as int));
        }
        hash = hash ^ (bytes[i] as u16);
        i += 1;
    }
    proof {
        assert(bytes@.take(bytes.len() as int) == bytes@);
        lemma_hash_in_palette(bytes@);
    }
    let index: u16 = if hash <= 1 {
        hash + 2
    } else if 16 <= hash && hash <= 21 {
        hash + 6
    } else if (52 <= hash && hash <= 55) || (126 <= hash && hash <= 129) {
        hash + 4
    } else if (163 <= hash && hash <= 165) || (200 <= hash && hash <= 201) {
        hash + 3
    } else if hash == 207 {
        hash + 1
    } else if 232 <= hash && hash <= 240 {
        hash + 9
    } else {
        hash
    };
    Color::Indexed(index)
}

} // verus!
