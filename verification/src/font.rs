//! The built-in font: sixteen 8x5 glyphs for the hexadecimal digits, five
//! bytes each, copied into low memory at initialization. The glyph for digit
//! d starts at byte offset 5 * d.

use vstd::prelude::*;

verus! {

/// Bytes of the built-in font: 16 glyphs of 5 bytes.
pub const FONT_SIZE: usize = 80;

/// The eighty font bytes, glyph 0x0 through glyph 0xF.
pub open spec fn spec_fontset() -> Seq<u8> {
    seq![
        0xF0u8, 0x90, 0x90, 0x90, 0xF0,  // 0
        0x20, 0x60, 0x20, 0x20, 0x70,  // 1
        0xF0, 0x10, 0xF0, 0x80, 0xF0,  // 2
        0xF0, 0x10, 0xF0, 0x10, 0xF0,  // 3
        0x90, 0x90, 0xF0, 0x10, 0x10,  // 4
        0xF0, 0x80, 0xF0, 0x10, 0xF0,  // 5
        0xF0, 0x80, 0xF0, 0x90, 0xF0,  // 6
        0xF0, 0x10, 0x20, 0x40, 0x40,  // 7
        0xF0, 0x90, 0xF0, 0x90, 0xF0,  // 8
        0xF0, 0x90, 0xF0, 0x10, 0xF0,  // 9
        0xF0, 0x90, 0xF0, 0x90, 0x90,  // A
        0xE0, 0x90, 0xE0, 0x90, 0xE0,  // B
        0xF0, 0x80, 0x80, 0x80, 0xF0,  // C
        0xE0, 0x90, 0x90, 0x90, 0xE0,  // D
        0xF0, 0x80, 0xF0, 0x80, 0xF0,  // E
        0xF0, 0x80, 0xF0, 0x80, 0x80,  // F
    ]
}

/// The font as an owned vector, byte for byte `spec_fontset`.
pub fn fontset() -> (r: Vec<u8>)
    ensures
        r@ == spec_fontset(),
        r@.len() == FONT_SIZE,
{
    let mut f: Vec<u8> = Vec::new();
    f.push(0xF0);
    f.push(0x90);
    f.push(0x90);
    f.push(0x90);
    f.push(0xF0);
    f.push(0x20);
    f.push(0x60);
    f.push(0x20);
    f.push(0x20);
    f.push(0x70);
    f.push(0xF0);
    f.push(0x10);
    f.push(0xF0);
    f.push(0x80);
    f.push(0xF0);
    f.push(0xF0);
    f.push(0x10);
    f.push(0xF0);
    f.push(0x10);
    f.push(0xF0);
    f.push(0x90);
    f.push(0x90);
    f.push(0xF0);
    f.push(0x10);
    f.push(0x10);
    f.push(0xF0);
    f.push(0x80);
    f.push(0xF0);
    f.push(0x10);
    f.push(0xF0);
    f.push(0xF0);
    f.push(0x80);
    f.push(0xF0);
    f.push(0x90);
    f.push(0xF0);
    f.push(0xF0);
    f.push(0x10);
    f.push(0x20);
    f.push(0x40);
    f.push(0x40);
    f.push(0xF0);
    f.push(0x90);
    f.push(0xF0);
    f.push(0x90);
    f.push(0xF0);
    f.push(0xF0);
    f.push(0x90);
    f.push(0xF0);
    f.push(0x10);
    f.push(0xF0);
    f.push(0xF0);
    f.push(0x90);
    f.push(0xF0);
    f.push(0x90);
    f.push(0x90);
    f.push(0xE0);
    f.push(0x90);
    f.push(0xE0);
    f.push(0x90);
    f.push(0xE0);
    f.push(0xF0);
    f.push(0x80);
    f.push(0x80);
    f.push(0x80);
    f.push(0xF0);
    f.push(0xE0);
    f.push(0x90);
    f.push(0x90);
    f.push(0x90);
    f.push(0xE0);
    f.push(0xF0);
    f.push(0x80);
    f.push(0xF0);
    f.push(0x80);
    f.push(0xF0);
    f.push(0xF0);
    f.push(0x80);
    f.push(0xF0);
    f.push(0x80);
    f.push(0x80);
    proof {
        assert(f@ =~= spec_fontset());
    }
    f
}

} // verus!
