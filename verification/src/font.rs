//! The built-in hexadecimal font: sixteen glyphs of five bytes each.

use vstd::prelude::*;

verus! {

/// Number of bytes (sprite rows) in one glyph.
pub const FONT_HEIGHT: usize = 5;

/// Address of the first glyph in memory.
pub const FONT_START: usize = 0x0000;

/// Number of glyphs in the font.
pub const FONT_GLYPHS: usize = 16;

/// The glyph bitmaps for the digits 0 to F, in order, five bytes each.
pub open spec fn font_table() -> Seq<u8> {
    seq![
        0xF0u8, 0x90u8, 0x90u8, 0x90u8, 0xF0u8,
        0x20u8, 0x60u8, 0x20u8, 0x20u8, 0x70u8,
        0xF0u8, 0x10u8, 0xF0u8, 0x80u8, 0xF0u8,
        0xF0u8, 0x10u8, 0xF0u8, 0x10u8, 0xF0u8,
        0x90u8, 0x90u8, 0xF0u8, 0x10u8, 0x10u8,
        0xF0u8, 0x80u8, 0xF0u8, 0x10u8, 0xF0u8,
        0xF0u8, 0x80u8, 0xF0u8, 0x90u8, 0xF0u8,
        0xF0u8, 0x10u8, 0x20u8, 0x40u8, 0x40u8,
        0xF0u8, 0x90u8, 0xF0u8, 0x90u8, 0xF0u8,
        0xF0u8, 0x90u8, 0xF0u8, 0x10u8, 0xF0u8,
        0xF0u8, 0x90u8, 0xF0u8, 0x90u8, 0x90u8,
        0xE0u8, 0x90u8, 0xE0u8, 0x90u8, 0xE0u8,
        0xF0u8, 0x80u8, 0x80u8, 0x80u8, 0xF0u8,
        0xE0u8, 0x90u8, 0x90u8, 0x90u8, 0xE0u8,
        0xF0u8, 0x80u8, 0xF0u8, 0x80u8, 0xF0u8,
        0xF0u8, 0x80u8, 0xF0u8, 0x80u8, 0x80u8,
    ]
}

/// Address of the glyph for a hexadecimal digit.
pub open spec fn font_sprite_address(digit: int) -> int {
    FONT_START + FONT_HEIGHT * digit
}

/// Memory as it is when a machine is created: the font table at
/// `FONT_START`, zero everywhere else.
pub open spec fn fresh_memory() -> Seq<u8> {
    Seq::new(
        0x1000,
        |a: int|
            if FONT_START <= a < FONT_START + FONT_HEIGHT * FONT_GLYPHS {
                font_table()[a - FONT_START]
            } else {
                0u8
            },
    )
}

/// The font table as executable data.
pub fn font_data() -> (table: [u8; 80])
    ensures
        table@ == font_table(),
{
    let table: [u8; 80] = [
        0xF0, 0x90, 0x90, 0x90, 0xF0,
        0x20, 0x60, 0x20, 0x20, 0x70,
        0xF0, 0x10, 0xF0, 0x80, 0xF0,
        0xF0, 0x10, 0xF0, 0x10, 0xF0,
        0x90, 0x90, 0xF0, 0x10, 0x10,
        0xF0, 0x80, 0xF0, 0x10, 0xF0,
        0xF0, 0x80, 0xF0, 0x90, 0xF0,
        0xF0, 0x10, 0x20, 0x40, 0x40,
        0xF0, 0x90, 0xF0, 0x90, 0xF0,
        0xF0, 0x90, 0xF0, 0x10, 0xF0,
        0xF0, 0x90, 0xF0, 0x90, 0x90,
        0xE0, 0x90, 0xE0, 0x90, 0xE0,
        0xF0, 0x80, 0x80, 0x80, 0xF0,
        0xE0, 0x90, 0x90, 0x90, 0xE0,
        0xF0, 0x80, 0xF0, 0x80, 0xF0,
        0xF0, 0x80, 0xF0, 0x80, 0x80,
    ];
    assert(table@ =~= font_table());
    table
}

/// Builds the initial memory image: every glyph copied to its address,
/// all other bytes zero.
pub fn get_fresh_memory_with_font_data() -> (memory: [u8; 0x1000])
    ensures
        memory@ == fresh_memory(),
{
    let table = font_data();
    let mut memory: [u8; 0x1000] = [0; 0x1000];
    let mut i: usize = 0;
    while i < FONT_GLYPHS
        invariant
            i <= FONT_GLYPHS,
            table@ == font_table(),
            forall|a: int|
                0 <= a < 0x1000 ==> memory@[a] == if a < FONT_HEIGHT * i {
                    font_table()[a]
                } else {
                    0u8
                },
        decreases FONT_GLYPHS - i,
    {
        let mut j: usize = 0;
        while j < FONT_HEIGHT
            invariant
                i < FONT_GLYPHS,
                j <= FONT_HEIGHT,
                table@ == font_table(),
                forall|a: int|
                    0 <= a < 0x1000 ==> memory@[a] == if a < FONT_HEIGHT * i + j {
                        font_table()[a]
                    } else {
                        0u8
                    },
            decreases FONT_HEIGHT - j,
        {
            memory[FONT_START + FONT_HEIGHT * i + j] = table[FONT_HEIGHT * i + j];
            j += 1;
        }
        i += 1;
    }
    assert(memory@ =~= fresh_memory());
    memory
}

} // verus!
