//! The sixteen keys of the hexadecimal keypad.

use vstd::prelude::*;

verus! {

/// One key of the CHIP-8 keypad.
#[derive(Clone, Copy, Debug, PartialEq, Eq, Hash)]
pub enum Chip8Input {
    Num0,
    Num1,
    Num2,
    Num3,
    Num4,
    Num5,
    Num6,
    Num7,
    Num8,
    Num9,
    A,
    B,
    C,
    D,
    E,
    F,
}

/// The keypad index (0x0 to 0xF) that a key stands for.
pub open spec fn key_index(key: Chip8Input) -> usize {
    match key {
        Chip8Input::Num0 => 0x0,
        Chip8Input::Num1 => 0x1,
        Chip8Input::Num2 => 0x2,
        Chip8Input::Num3 => 0x3,
        Chip8Input::Num4 => 0x4,
        Chip8Input::Num5 => 0x5,
        Chip8Input::Num6 => 0x6,
        Chip8Input::Num7 => 0x7,
        Chip8Input::Num8 => 0x8,
        Chip8Input::Num9 => 0x9,
        Chip8Input::A => 0xA,
        Chip8Input::B => 0xB,
        Chip8Input::C => 0xC,
        Chip8Input::D => 0xD,
        Chip8Input::E => 0xE,
        Chip8Input::F => 0xF,
    }
}

/// Maps a key to its keypad index.
pub fn get_chip8_key_idx(key: &Chip8Input) -> (idx: usize)
    ensures
        idx == key_index(*key),
        idx < 16,
{
    match key {
        Chip8Input::Num0 => 0x0,
        Chip8Input::Num1 => 0x1,
        Chip8Input::Num2 => 0x2,
        Chip8Input::Num3 => 0x3,
        Chip8Input::Num4 => 0x4,
        Chip8Input::Num5 => 0x5,
        Chip8Input::Num6 => 0x6,
        Chip8Input::Num7 => 0x7,
        Chip8Input::Num8 => 0x8,
        Chip8Input::Num9 => 0x9,
        Chip8Input::A => 0xA,
        Chip8Input::B => 0xB,
        Chip8Input::C => 0xC,
        Chip8Input::D => 0xD,
        Chip8Input::E => 0xE,
        Chip8Input::F => 0xF,
    }
}

/// Distinct keys have distinct keypad indices.
pub proof fn lemma_key_index_injective(a: Chip8Input, b: Chip8Input)
    requires
        key_index(a) == key_index(b),
    ensures
        a == b,
{
}

} // verus!
