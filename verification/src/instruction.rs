//! Decoding of 16-bit instruction words.

use vstd::prelude::*;

verus! {

/// A decoded instruction. `x` and `y` are register indices (below 16),
/// `addr` is a 12-bit address, `value` an 8-bit immediate.
#[derive(Clone, Copy, Debug, PartialEq, Eq)]
pub enum Instruction {
    /// `00E0`: clear the framebuffer.
    ClearScreen,
    /// `00EE`: return from a subroutine.
    Return,
    /// `1nnn`: jump to `addr`.
    Jump { addr: usize },
    /// `2nnn`: call the subroutine at `addr`.
    Call { addr: usize },
    /// `3xnn`: skip the next instruction if `Vx == value`.
    SkipIfEqual { x: usize, value: u8 },
    /// `4xnn`: skip the next instruction if `Vx != value`.
    SkipIfNotEqual { x: usize, value: u8 },
    /// `5xy0`: skip the next instruction if `Vx == Vy`.
    SkipIfRegistersEqual { x: usize, y: usize },
    /// `6xnn`: `Vx = value`.
    LoadImmediate { x: usize, value: u8 },
    /// `7xnn`: `Vx = Vx + value`, wrapping, flag untouched.
    AddImmediate { x: usize, value: u8 },
    /// `8xy0`: `Vx = Vy`.
    Move { x: usize, y: usize },
    /// `8xy1`: `Vx = Vx | Vy`.
    Or { x: usize, y: usize },
    /// `8xy2`: `Vx = Vx & Vy`.
    And { x: usize, y: usize },
    /// `8xy3`: `Vx = Vx ^ Vy`.
    Xor { x: usize, y: usize },
    /// `8xy4`: `Vx = Vx + Vy`, `VF` = carry.
    Add { x: usize, y: usize },
    /// `8xy5`: `Vx = Vx - Vy`, `VF` = no borrow.
    Subtract { x: usize, y: usize },
    /// `8xy6`: `VF` = lowest bit of `Vx`, then `Vx` shifted right by one.
    ShiftRight { x: usize },
    /// `8xy7`: `Vx = Vy - Vx`, `VF` = no borrow.
    SubtractFrom { x: usize, y: usize },
    /// `8xyE`: `VF` = highest bit of `Vx`, then `Vx` shifted left by one.
    ShiftLeft { x: usize },
    /// `9xy0`: skip the next instruction if `Vx != Vy`.
    SkipIfRegistersDiffer { x: usize, y: usize },
    /// `Annn`: `I = addr`.
    LoadIndex { addr: usize },
    /// `Bnnn`: jump to `V0 + addr`.
    JumpOffset { addr: usize },
    /// `Cxnn`: `Vx` = random byte `& value`.
    Random { x: usize, value: u8 },
    /// `Dxyn`: draw a sprite of `rows` rows at `(Vx, Vy)`.
    Draw { x: usize, y: usize, rows: usize },
    /// `Ex9E`: skip the next instruction if key `Vx` is pressed.
    SkipIfKeyPressed { x: usize },
    /// `ExA1`: skip the next instruction if key `Vx` is not pressed.
    SkipIfKeyNotPressed { x: usize },
    /// `Fx07`: `Vx` = delay timer.
    ReadDelayTimer { x: usize },
    /// `Fx0A`: wait for a key and store it in `Vx`.
    WaitForKey { x: usize },
    /// `Fx15`: delay timer = `Vx`.
    SetDelayTimer { x: usize },
    /// `Fx18`: sound timer = `Vx`.
    SetSoundTimer { x: usize },
    /// `Fx1E`: `I = I + Vx`.
    AddToIndex { x: usize },
    /// `Fx29`: `I` = address of the glyph for the low nibble of `Vx`.
    LoadGlyphAddress { x: usize },
    /// `Fx33`: store the decimal digits of `Vx` at `I`, `I+1`, `I+2`.
    StoreDecimal { x: usize },
    /// `Fx55`: store `V0..=Vx` at `I..=I+x`.
    StoreRegisters { x: usize },
    /// `Fx65`: load `V0..=Vx` from `I..=I+x`.
    LoadRegisters { x: usize },
}

impl Instruction {
    /// Register indices are below 16, addresses below 0x1000, and a sprite
    /// has fewer than 16 rows.
    pub open spec fn operands_in_range(self) -> bool {
        match self {
            Instruction::ClearScreen | Instruction::Return => true,
            Instruction::Jump { addr }
            | Instruction::Call { addr }
            | Instruction::LoadIndex { addr }
            | Instruction::JumpOffset { addr } => addr < 0x1000,
            Instruction::SkipIfEqual { x, .. }
            | Instruction::SkipIfNotEqual { x, .. }
            | Instruction::LoadImmediate { x, .. }
            | Instruction::AddImmediate { x, .. }
            | Instruction::Random { x, .. }
            | Instruction::ShiftRight { x }
            | Instruction::ShiftLeft { x }
            | Instruction::SkipIfKeyPressed { x }
            | Instruction::SkipIfKeyNotPressed { x }
            | Instruction::ReadDelayTimer { x }
            | Instruction::WaitForKey { x }
            | Instruction::SetDelayTimer { x }
            | Instruction::SetSoundTimer { x }
            | Instruction::AddToIndex { x }
            | Instruction::LoadGlyphAddress { x }
            | Instruction::StoreDecimal { x }
            | Instruction::StoreRegisters { x }
            | Instruction::LoadRegisters { x } => x < 16,
            Instruction::SkipIfRegistersEqual { x, y }
            | Instruction::Move { x, y }
            | Instruction::Or { x, y }
            | Instruction::And { x, y }
            | Instruction::Xor { x, y }
            | Instruction::Add { x, y }
            | Instruction::Subtract { x, y }
            | Instruction::SubtractFrom { x, y }
            | Instruction::SkipIfRegistersDiffer { x, y } => x < 16 && y < 16,
            Instruction::Draw { x, y, rows } => x < 16 && y < 16 && rows < 16,
        }
    }
}

/// Bits 12 to 15 of an instruction word: the primary dispatch nibble.
pub open spec fn field_top(word: u16) -> int {
    word as int / 0x1000
}

/// Bits 8 to 11: the first register index.
pub open spec fn field_x(word: u16) -> usize {
    ((word as int / 0x100) % 0x10) as usize
}

/// Bits 4 to 7: the second register index.
pub open spec fn field_y(word: u16) -> usize {
    ((word as int / 0x10) % 0x10) as usize
}

/// Bits 0 to 3.
pub open spec fn field_n(word: u16) -> usize {
    (word as int % 0x10) as usize
}

/// Bits 0 to 7: the immediate byte.
pub open spec fn field_nn(word: u16) -> u8 {
    (word as int % 0x100) as u8
}

/// Bits 0 to 11: the address.
pub open spec fn field_nnn(word: u16) -> usize {
    (word as int % 0x1000) as usize
}

/// The instruction that a word encodes, or `None` where the word is not an
/// instruction. Dispatch is on the top nibble; the groups 0, E and F
/// dispatch further on the low byte, the group 8 on the low nibble.
pub open spec fn spec_decode(word: u16) -> Option<Instruction> {
    let top = field_top(word);
    let x = field_x(word);
    let y = field_y(word);
    let n = field_n(word);
    let nn = field_nn(word);
    let nnn = field_nnn(word);
    if top == 0x0 {
        if nn == 0xE0 {
            Some(Instruction::ClearScreen)
        } else if nn == 0xEE {
            Some(Instruction::Return)
        } else {
            None
        }
    } else if top == 0x1 {
        Some(Instruction::Jump { addr: nnn })
    } else if top == 0x2 {
        Some(Instruction::Call { addr: nnn })
    } else if top == 0x3 {
        Some(Instruction::SkipIfEqual { x, value: nn })
    } else if top == 0x4 {
        Some(Instruction::SkipIfNotEqual { x, value: nn })
    } else if top == 0x5 {
        Some(Instruction::SkipIfRegistersEqual { x, y })
    } else if top == 0x6 {
        Some(Instruction::LoadImmediate { x, value: nn })
    } else if top == 0x7 {
        Some(Instruction::AddImmediate { x, value: nn })
    } else if top == 0x8 {
        if n == 0x0 {
            Some(Instruction::Move { x, y })
        } else if n == 0x1 {
            Some(Instruction::Or { x, y })
        } else if n == 0x2 {
            Some(Instruction::And { x, y })
        } else if n == 0x3 {
            Some(Instruction::Xor { x, y })
        } else if n == 0x4 {
            Some(Instruction::Add { x, y })
        } else if n == 0x5 {
            Some(Instruction::Subtract { x, y })
        } else if n == 0x6 {
            Some(Instruction::ShiftRight { x })
        } else if n == 0x7 {
            Some(Instruction::SubtractFrom { x, y })
        } else if n == 0xE {
            Some(Instruction::ShiftLeft { x })
        } else {
            None
        }
    } else if top == 0x9 {
        Some(Instruction::SkipIfRegistersDiffer { x, y })
    } else if top == 0xA {
        Some(Instruction::LoadIndex { addr: nnn })
    } else if top == 0xB {
        Some(Instruction::JumpOffset { addr: nnn })
    } else if top == 0xC {
        Some(Instruction::Random { x, value: nn })
    } else if top == 0xD {
        Some(Instruction::Draw { x, y, rows: n })
    } else if top == 0xE {
        if nn == 0x9E {
            Some(Instruction::SkipIfKeyPressed { x })
        } else if nn == 0xA1 {
            Some(Instruction::SkipIfKeyNotPressed { x })
        } else {
            None
        }
    } else {
        if nn == 0x07 {
            Some(Instruction::ReadDelayTimer { x })
        } else if nn == 0x0A {
            Some(Instruction::WaitForKey { x })
        } else if nn == 0x15 {
            Some(Instruction::SetDelayTimer { x })
        } else if nn == 0x18 {
            Some(Instruction::SetSoundTimer { x })
        } else if nn == 0x1E {
            Some(Instruction::AddToIndex { x })
        } else if nn == 0x29 {
            Some(Instruction::LoadGlyphAddress { x })
        } else if nn == 0x33 {
            Some(Instruction::StoreDecimal { x })
        } else if nn == 0x55 {
            Some(Instruction::StoreRegisters { x })
        } else if nn == 0x65 {
            Some(Instruction::LoadRegisters { x })
        } else {
            None
        }
    }
}

/// Every decoded instruction has its operands in range.
pub proof fn lemma_decode_in_range(word: u16)
    ensures
        spec_decode(word) matches Some(ins) ==> ins.operands_in_range(),
{
}

/// Decodes an instruction word.
pub fn decode(word: u16) -> (decoded: Option<Instruction>)
    ensures
        decoded == spec_decode(word),
        decoded matches Some(ins) ==> ins.operands_in_range(),
{
    let top: u16 = word >> 12;
    let x: usize = ((word & 0x0F00) >> 8) as usize;
    let y: usize = ((word & 0x00F0) >> 4) as usize;
    let n: usize = (word & 0x000F) as usize;
    let nn: u8 = (word & 0x00FF) as u8;
    let nnn: usize = (word & 0x0FFF) as usize;
    proof {
        assert(word >> 12 == word / 0x1000) by (bit_vector);
        assert((word & 0x0F00) >> 8 == (word / 0x100) % 0x10) by (bit_vector);
        assert((word & 0x00F0) >> 4 == (word / 0x10) % 0x10) by (bit_vector);
        assert(word & 0x000F == word % 0x10) by (bit_vector);
        assert(word & 0x00FF == word % 0x100) by (bit_vector);
        assert(word & 0x0FFF == word % 0x1000) by (bit_vector);
    }
    if top == 0x0 {
        if nn == 0xE0 {
            Some(Instruction::ClearScreen)
        } else if nn == 0xEE {
            Some(Instruction::Return)
        } else {
            None
        }
    } else if top == 0x1 {
        Some(Instruction::Jump { addr: nnn })
    } else if top == 0x2 {
        Some(Instruction::Call { addr: nnn })
    } else if top == 0x3 {
        Some(Instruction::SkipIfEqual { x, value: nn })
    } else if top == 0x4 {
        Some(Instruction::SkipIfNotEqual { x, value: nn })
    } else if top == 0x5 {
        Some(Instruction::SkipIfRegistersEqual { x, y })
    } else if top == 0x6 {
        Some(Instruction::LoadImmediate { x, value: nn })
    } else if top == 0x7 {
        Some(Instruction::AddImmediate { x, value: nn })
    } else if top == 0x8 {
        if n == 0x0 {
            Some(Instruction::Move { x, y })
        } else if n == 0x1 {
            Some(Instruction::Or { x, y })
        } else if n == 0x2 {
            Some(Instruction::And { x, y })
        } else if n == 0x3 {
            Some(Instruction::Xor { x, y })
        } else if n == 0x4 {
            Some(Instruction::Add { x, y })
        } else if n == 0x5 {
            Some(Instruction::Subtract { x, y })
        } else if n == 0x6 {
            Some(Instruction::ShiftRight { x })
        } else if n == 0x7 {
            Some(Instruction::SubtractFrom { x, y })
        } else if n == 0xE {
            Some(Instruction::ShiftLeft { x })
        } else {
            None
        }
    } else if top == 0x9 {
        Some(Instruction::SkipIfRegistersDiffer { x, y })
    } else if top == 0xA {
        Some(Instruction::LoadIndex { addr: nnn })
    } else if top == 0xB {
        Some(Instruction::JumpOffset { addr: nnn })
    } else if top == 0xC {
        Some(Instruction::Random { x, value: nn })
    } else if top == 0xD {
        Some(Instruction::Draw { x, y, rows: n })
    } else if top == 0xE {
        if nn == 0x9E {
            Some(Instruction::SkipIfKeyPressed { x })
        } else if nn == 0xA1 {
            Some(Instruction::SkipIfKeyNotPressed { x })
        } else {
            None
        }
    } else {
        if nn == 0x07 {
            Some(Instruction::ReadDelayTimer { x })
        } else if nn == 0x0A {
            Some(Instruction::WaitForKey { x })
        } else if nn == 0x15 {
            Some(Instruction::SetDelayTimer { x })
        } else if nn == 0x18 {
            Some(Instruction::SetSoundTimer { x })
        } else if nn == 0x1E {
            Some(Instruction::AddToIndex { x })
        } else if nn == 0x29 {
            Some(Instruction::LoadGlyphAddress { x })
        } else if nn == 0x33 {
            Some(Instruction::StoreDecimal { x })
        } else if nn == 0x55 {
            Some(Instruction::StoreRegisters { x })
        } else if nn == 0x65 {
            Some(Instruction::LoadRegisters { x })
        } else {
            None
        }
    }
}

} // verus!
