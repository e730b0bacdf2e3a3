//! The mathematical model of the machine: its state as sequences and
//! integers, and the meaning of every instruction as a function on states.

use crate::font::font_sprite_address;
use crate::instruction::{lemma_decode_in_range, spec_decode, Instruction};
use vstd::prelude::*;

verus! {

/// Width of the display in pixels.
pub const SCREEN_WIDTH: usize = 64;

/// Height of the display in pixels.
pub const SCREEN_HEIGHT: usize = 32;

/// Number of return addresses the call stack can hold.
pub const MAX_STACK_SIZE: usize = 12;

/// Address at which a program is loaded and at which execution starts.
pub const ROM_START_ADDR: usize = 0x200;

/// Number of addressable bytes.
pub const MEMORY_SIZE: usize = 0x1000;

/// Why a step could not be carried out. Every fault names the address of
/// the instruction and, where one was fetched, the instruction word.
#[derive(Clone, Copy, Debug, PartialEq, Eq)]
pub enum MachineFault {
    /// The program counter does not leave room for a two-byte instruction.
    FetchOutOfBounds { address: usize },
    /// The word at `address` is not an instruction.
    InvalidOpcode { instruction: u16, address: usize },
    /// A call was made with the stack already full.
    StackOverflow { instruction: u16, address: usize },
    /// A return was made with the stack empty.
    StackUnderflow { instruction: u16, address: usize },
    /// The instruction would read or write memory past the last byte.
    MemoryOutOfBounds { instruction: u16, address: usize },
}

/// What a completed step reports.
#[derive(Clone, Copy, Debug, PartialEq, Eq)]
pub struct StepOutcome {
    /// The instruction drew to the framebuffer.
    pub needs_render: bool,
    /// Address the instruction was fetched from.
    pub address: usize,
    /// The instruction word.
    pub instruction: u16,
}

/// The state of the machine as mathematical values.
pub struct MachineState {
    /// The framebuffer, row-major: cell `y * 64 + x` is the pixel `(x, y)`.
    pub pixels: Seq<bool>,
    /// Memory, one byte per address.
    pub memory: Seq<u8>,
    /// The registers `V0` to `VF`.
    pub registers: Seq<u8>,
    /// The index register `I`.
    pub reg_i: usize,
    /// The call stack; the slots below `sp` hold the addresses of the calls
    /// that have not returned yet.
    pub stack: Seq<usize>,
    /// The delay timer.
    pub delay_timer: u8,
    /// The sound timer.
    pub sound_timer: u8,
    /// The program counter: the address of the next instruction.
    pub pc: usize,
    /// The stack pointer: the index of the next free stack slot.
    pub sp: usize,
    /// Length of the most recently loaded program.
    pub rom_len: usize,
}

/// Whether bit `7 - col` of a sprite row is set: column 0 is the leftmost
/// pixel and the most significant bit.
pub open spec fn sprite_bit(byte: u8, col: int) -> bool
    recommends
        0 <= col < 8,
{
    (byte >> ((7 - col) as u8)) & 1 == 1
}

/// Column of the sprite that falls on framebuffer cell `p` when the sprite
/// is placed at horizontal position `vx`, wrapping at the screen edge.
pub open spec fn sprite_col(vx: u8, p: int) -> int {
    (p % (SCREEN_WIDTH as int) - vx as int) % (SCREEN_WIDTH as int)
}

/// Row of the sprite that falls on framebuffer cell `p` when the sprite is
/// placed at vertical position `vy`, wrapping at the screen edge.
pub open spec fn sprite_row(vy: u8, p: int) -> int {
    (p / (SCREEN_WIDTH as int) - vy as int) % (SCREEN_HEIGHT as int)
}

/// Framebuffer cell on which the sprite's pixel `(row, col)` falls.
pub open spec fn pixel_index(vx: u8, vy: u8, row: int, col: int) -> int {
    ((vy as int + row) % (SCREEN_HEIGHT as int)) * (SCREEN_WIDTH as int) + (vx as int + col) % (
    SCREEN_WIDTH as int)
}

impl MachineState {
    /// The invariant of the machine state: the arrays have their fixed
    /// lengths, the stack pointer is at most the stack's capacity, the index
    /// register and every stack slot hold an address within memory, and the
    /// recorded program length fits behind the program origin. The program
    /// counter is not bound: a step from a program counter that leaves no
    /// room for an instruction faults.
    pub open spec fn wf(self) -> bool {
        &&& self.pixels.len() == SCREEN_WIDTH * SCREEN_HEIGHT
        &&& self.memory.len() == MEMORY_SIZE
        &&& self.registers.len() == 16
        &&& self.stack.len() == MAX_STACK_SIZE
        &&& self.sp <= MAX_STACK_SIZE
        &&& self.reg_i < MEMORY_SIZE
        &&& self.rom_len <= MEMORY_SIZE - ROM_START_ADDR
        &&& forall|i: int| 0 <= i < MAX_STACK_SIZE ==> #[trigger] self.stack[i] < MEMORY_SIZE
    }

    /// The state with the program counter moved past `count` instructions.
    pub open spec fn advance(self, count: int) -> MachineState {
        MachineState { pc: (self.pc + 2 * count) as usize, ..self }
    }

    /// The state with register `x` set to `value`.
    pub open spec fn with_register(self, x: int, value: u8) -> MachineState {
        MachineState { registers: self.registers.update(x, value), ..self }
    }

    /// The state after one instruction followed by the skip of the next one
    /// where `skip` holds.
    pub open spec fn skip_if(self, skip: bool) -> MachineState {
        self.advance(if skip { 2 } else { 1 })
    }

    /// The state after a timer tick: each timer above zero loses one.
    pub open spec fn tick(self) -> MachineState {
        MachineState {
            delay_timer: if self.delay_timer > 0 {
                (self.delay_timer - 1) as u8
            } else {
                0
            },
            sound_timer: if self.sound_timer > 0 {
                (self.sound_timer - 1) as u8
            } else {
                0
            },
            ..self
        }
    }

    /// The state after a reset: memory and the recorded program length stay,
    /// everything else returns to its initial value.
    pub open spec fn reset(self) -> MachineState {
        MachineState {
            pixels: Seq::new((SCREEN_WIDTH * SCREEN_HEIGHT) as nat, |i: int| false),
            memory: self.memory,
            registers: Seq::new(16, |i: int| 0u8),
            reg_i: 0,
            stack: Seq::new(MAX_STACK_SIZE as nat, |i: int| 0usize),
            delay_timer: 0,
            sound_timer: 0,
            pc: ROM_START_ADDR,
            sp: 0,
            rom_len: self.rom_len,
        }
    }

    /// The state after loading `rom` at the program origin.
    pub open spec fn load(self, rom: Seq<u8>) -> MachineState {
        MachineState {
            memory: Seq::new(
                MEMORY_SIZE as nat,
                |a: int|
                    if ROM_START_ADDR <= a < ROM_START_ADDR + rom.len() {
                        rom[a - ROM_START_ADDR]
                    } else {
                        self.memory[a]
                    },
            ),
            rom_len: rom.len() as usize,
            ..self
        }
    }

    /// The big-endian word at the program counter.
    pub open spec fn fetch(self) -> u16 {
        (self.memory[self.pc as int] as int * 0x100 + self.memory[self.pc + 1] as int) as u16
    }

    /// Whether the sprite that `Dxyn` draws has a set pixel on cell `p`.
    pub open spec fn sprite_pixel(self, vx: u8, vy: u8, rows: int, p: int) -> bool {
        &&& sprite_col(vx, p) < 8
        &&& sprite_row(vy, p) < rows
        &&& sprite_bit(self.memory[self.reg_i + sprite_row(vy, p)], sprite_col(vx, p))
    }

    /// Whether drawing the sprite turns off a pixel that was on.
    pub open spec fn sprite_collides(self, vx: u8, vy: u8, rows: int) -> bool {
        exists|p: int|
            0 <= p < SCREEN_WIDTH * SCREEN_HEIGHT && self.pixels[p] && #[trigger] self.sprite_pixel(
                vx,
                vy,
                rows,
                p,
            )
    }

    /// The framebuffer after the sprite has been XORed into it.
    pub open spec fn drawn_pixels(self, vx: u8, vy: u8, rows: int) -> Seq<bool> {
        Seq::new(
            (SCREEN_WIDTH * SCREEN_HEIGHT) as nat,
            |p: int| self.pixels[p] != self.sprite_pixel(vx, vy, rows, p),
        )
    }

    /// `00E0`: every cell of the framebuffer is off.
    pub open spec fn clear_screen(self) -> MachineState {
        MachineState {
            pixels: Seq::new((SCREEN_WIDTH * SCREEN_HEIGHT) as nat, |i: int| false),
            ..self
        }
    }

    /// `00EE`, without the advance that follows it: the newest return
    /// address leaves the stack and becomes the program counter. The
    /// address is that of the call, so the advance steps past the call.
    pub open spec fn pop_return(self) -> MachineState {
        MachineState { sp: (self.sp - 1) as usize, pc: self.stack[self.sp - 1], ..self }
    }

    /// `2nnn`: the address of the call goes on the stack and execution
    /// continues at `addr`, with no advance.
    pub open spec fn push_call(self, addr: usize) -> MachineState {
        MachineState {
            stack: self.stack.update(self.sp as int, self.pc),
            sp: (self.sp + 1) as usize,
            pc: addr,
            ..self
        }
    }

    /// `8xy4`: the sum goes to `Vx`, then the carry to `VF`.
    pub open spec fn add_registers(self, x: int, y: int) -> MachineState {
        let sum = self.registers[x] + self.registers[y];
        self.with_register(x, (sum % 0x100) as u8).with_register(
            0xF,
            if sum >= 0x100 {
                1
            } else {
                0
            },
        )
    }

    /// `8xy5` and `8xy7`: `minuend - subtrahend` goes to `Vx`, then 1 to `VF`
    /// where nothing had to be borrowed, else 0.
    pub open spec fn subtract_registers(self, x: int, minuend: u8, subtrahend: u8) -> MachineState {
        self.with_register(x, ((minuend - subtrahend) % 0x100) as u8).with_register(
            0xF,
            if minuend >= subtrahend {
                1
            } else {
                0
            },
        )
    }

    /// `8xy6`: the lowest bit of `Vx` goes to `VF`, then `Vx` is halved.
    pub open spec fn shift_right(self, x: int) -> MachineState {
        let flagged = self.with_register(0xF, (self.registers[x] % 2) as u8);
        flagged.with_register(x, (flagged.registers[x] / 2) as u8)
    }

    /// `8xyE`: the highest bit of `Vx` goes to `VF`, then `Vx` is doubled
    /// modulo 256.
    pub open spec fn shift_left(self, x: int) -> MachineState {
        let flagged = self.with_register(0xF, (self.registers[x] / 0x80) as u8);
        flagged.with_register(x, ((flagged.registers[x] * 2) % 0x100) as u8)
    }

    /// `Dxyn`, where the sprite lies within memory: the sprite at `I` is
    /// XORed into the framebuffer at `(Vx, Vy)`, every pixel of it wrapping
    /// around the screen edges, and `VF` tells whether a pixel went off.
    pub open spec fn draw(self, x: int, y: int, rows: int) -> MachineState {
        let vx = self.registers[x];
        let vy = self.registers[y];
        MachineState {
            pixels: self.drawn_pixels(vx, vy, rows),
            registers: self.registers.update(
                0xF,
                if self.sprite_collides(vx, vy, rows) {
                    1
                } else {
                    0
                },
            ),
            ..self
        }
    }

    /// `Fx33`, where `I + 2` lies within memory: the hundreds, tens and ones
    /// of `Vx` go to `I`, `I + 1` and `I + 2`.
    pub open spec fn store_decimal(self, x: int) -> MachineState {
        let vx = self.registers[x];
        MachineState {
            memory: self.memory.update(self.reg_i as int, (vx / 100) as u8).update(
                self.reg_i + 1,
                ((vx / 10) % 10) as u8,
            ).update(self.reg_i + 2, (vx % 10) as u8),
            ..self
        }
    }

    /// `Fx55`, where `I + x` lies within memory: `V0` to `Vx`, both
    /// included, go to memory from `I` on; `I` stays.
    pub open spec fn store_registers(self, x: int) -> MachineState {
        MachineState {
            memory: Seq::new(
                MEMORY_SIZE as nat,
                |a: int|
                    if self.reg_i <= a <= self.reg_i + x {
                        self.registers[a - self.reg_i]
                    } else {
                        self.memory[a]
                    },
            ),
            ..self
        }
    }

    /// `Fx65`, where `I + x` lies within memory: `V0` to `Vx`, both
    /// included, are read from memory from `I` on; `I` stays.
    pub open spec fn load_registers(self, x: int) -> MachineState {
        MachineState {
            registers: Seq::new(
                16,
                |k: int|
                    if k <= x {
                        self.memory[self.reg_i + k]
                    } else {
                        self.registers[k]
                    },
            ),
            ..self
        }
    }

    /// The fault, if any, with which `ins` stops in this state.
    pub open spec fn fault_of(self, ins: Instruction, word: u16) -> Option<MachineFault> {
        match ins {
            Instruction::Return => if self.sp == 0 {
                Some(MachineFault::StackUnderflow { instruction: word, address: self.pc })
            } else {
                None
            },
            Instruction::Call { .. } => if self.sp >= MAX_STACK_SIZE {
                Some(MachineFault::StackOverflow { instruction: word, address: self.pc })
            } else {
                None
            },
            Instruction::Draw { rows, .. } => if self.reg_i + rows > MEMORY_SIZE {
                Some(MachineFault::MemoryOutOfBounds { instruction: word, address: self.pc })
            } else {
                None
            },
            Instruction::StoreDecimal { .. } => if self.reg_i + 2 >= MEMORY_SIZE {
                Some(MachineFault::MemoryOutOfBounds { instruction: word, address: self.pc })
            } else {
                None
            },
            Instruction::StoreRegisters { x } | Instruction::LoadRegisters { x } => if self.reg_i
                + x >= MEMORY_SIZE {
                Some(MachineFault::MemoryOutOfBounds { instruction: word, address: self.pc })
            } else {
                None
            },
            _ => None,
        }
    }

    /// The state after `ins`, program counter included, where `ins` does not
    /// fault. `keys` is the snapshot of pressed keys and `byte` the random
    /// byte that `Cxnn` consumes.
    ///
    /// The keys are keypad indices, 0 to 15. The key instructions make no
    /// use of that: `Ex9E` and `ExA1` look `Vx` up among the keys, and `Fx0A`
    /// stores the first key as a byte.
    pub open spec fn perform(self, ins: Instruction, keys: Seq<usize>, byte: u8) -> MachineState {
        let v = self.registers;
        match ins {
            Instruction::ClearScreen => self.clear_screen().advance(1),
            Instruction::Return => self.pop_return().advance(1),
            Instruction::Jump { addr } => MachineState { pc: addr, ..self },
            Instruction::Call { addr } => self.push_call(addr),
            Instruction::SkipIfEqual { x, value } => self.skip_if(v[x as int] == value),
            Instruction::SkipIfNotEqual { x, value } => self.skip_if(v[x as int] != value),
            Instruction::SkipIfRegistersEqual { x, y } => self.skip_if(v[x as int] == v[y as int]),
            Instruction::LoadImmediate { x, value } => self.with_register(x as int, value).advance(
                1,
            ),
            Instruction::AddImmediate { x, value } => self.with_register(
                x as int,
                ((v[x as int] + value) % 0x100) as u8,
            ).advance(1),
            Instruction::Move { x, y } => self.with_register(x as int, v[y as int]).advance(1),
            Instruction::Or { x, y } => self.with_register(
                x as int,
                v[x as int] | v[y as int],
            ).advance(1),
            Instruction::And { x, y } => self.with_register(
                x as int,
                v[x as int] & v[y as int],
            ).advance(1),
            Instruction::Xor { x, y } => self.with_register(
                x as int,
                v[x as int] ^ v[y as int],
            ).advance(1),
            Instruction::Add { x, y } => self.add_registers(x as int, y as int).advance(1),
            Instruction::Subtract { x, y } => self.subtract_registers(
                x as int,
                v[x as int],
                v[y as int],
            ).advance(1),
            Instruction::ShiftRight { x } => self.shift_right(x as int).advance(1),
            Instruction::SubtractFrom { x, y } => self.subtract_registers(
                x as int,
                v[y as int],
                v[x as int],
            ).advance(1),
            Instruction::ShiftLeft { x } => self.shift_left(x as int).advance(1),
            Instruction::SkipIfRegistersDiffer { x, y } => self.skip_if(v[x as int] != v[y as int]),
            Instruction::LoadIndex { addr } => MachineState { reg_i: addr, ..self }.advance(1),
            Instruction::JumpOffset { addr } => MachineState {
                pc: ((v[0] + addr) % (MEMORY_SIZE as int)) as usize,
                ..self
            },
            Instruction::Random { x, value } => self.with_register(x as int, byte & value).advance(
                1,
            ),
            Instruction::Draw { x, y, rows } => self.draw(x as int, y as int, rows as int).advance(
                1,
            ),
            Instruction::SkipIfKeyPressed { x } => self.skip_if(
                keys.contains(v[x as int] as usize),
            ),
            Instruction::SkipIfKeyNotPressed { x } => self.skip_if(
                !keys.contains(v[x as int] as usize),
            ),
            Instruction::ReadDelayTimer { x } => self.with_register(
                x as int,
                self.delay_timer,
            ).advance(1),
            Instruction::WaitForKey { x } => if keys.len() == 0 {
                self
            } else {
                self.with_register(x as int, keys[0] as u8).advance(1)
            },
            Instruction::SetDelayTimer { x } => MachineState {
                delay_timer: v[x as int],
                ..self
            }.advance(1),
            Instruction::SetSoundTimer { x } => MachineState {
                sound_timer: v[x as int],
                ..self
            }.advance(1),
            Instruction::AddToIndex { x } => MachineState {
                reg_i: ((self.reg_i + v[x as int]) % (MEMORY_SIZE as int)) as usize,
                ..self
            }.advance(1),
            Instruction::LoadGlyphAddress { x } => MachineState {
                reg_i: font_sprite_address(v[x as int] as int % 0x10) as usize,
                ..self
            }.advance(1),
            Instruction::StoreDecimal { x } => self.store_decimal(x as int).advance(1),
            Instruction::StoreRegisters { x } => self.store_registers(x as int).advance(1),
            Instruction::LoadRegisters { x } => self.load_registers(x as int).advance(1),
        }
    }

    /// Whether the instruction at the program counter consumes a random
    /// byte.
    pub open spec fn consumes_random(self) -> bool {
        &&& self.pc + 1 < MEMORY_SIZE
        &&& spec_decode(self.fetch()) matches Some(ins)
        &&& ins is Random
    }

    /// What a step returns: the fault that stops it, or its outcome.
    pub open spec fn step_result(self) -> Result<StepOutcome, MachineFault> {
        if self.pc + 1 >= MEMORY_SIZE {
            Err(MachineFault::FetchOutOfBounds { address: self.pc })
        } else {
            let word = self.fetch();
            match spec_decode(word) {
                None => Err(MachineFault::InvalidOpcode { instruction: word, address: self.pc }),
                Some(ins) => match self.fault_of(ins, word) {
                    Some(fault) => Err(fault),
                    None => Ok(
                        StepOutcome {
                            needs_render: ins is Draw,
                            address: self.pc,
                            instruction: word,
                        },
                    ),
                },
            }
        }
    }

    /// The state after a step: unchanged where the step faults, else the
    /// state after the instruction at the program counter.
    pub open spec fn step(self, keys: Seq<usize>, byte: u8) -> MachineState {
        if self.step_result() is Err {
            self
        } else {
            self.perform(spec_decode(self.fetch())->Some_0, keys, byte)
        }
    }
}

/// A step of a well-formed machine leaves it well-formed.
pub proof fn lemma_step_keeps_wf(s: MachineState, keys: Seq<usize>, byte: u8)
    requires
        s.wf(),
    ensures
        s.step(keys, byte).wf(),
{
    if s.step_result() is Ok {
        let word = s.fetch();
        lemma_decode_in_range(word);
        let ins = spec_decode(word)->Some_0;
        let t = s.perform(ins, keys, byte);
        assert(t.stack.len() == MAX_STACK_SIZE);
        assert forall|i: int| 0 <= i < MAX_STACK_SIZE implies #[trigger] t.stack[i]
            < MEMORY_SIZE by {
            assert(s.stack[i] < MEMORY_SIZE);
        }
    }
}

} // verus!
