//! The machine: its state, its lifecycle and the per-cycle step.

use crate::font::{
    font_sprite_address, fresh_memory, get_fresh_memory_with_font_data, FONT_HEIGHT, FONT_START,
};
use crate::instruction::{decode, Instruction};
pub use crate::semantics::{MachineFault, StepOutcome};
use crate::semantics::{
    lemma_step_keeps_wf, MachineState, MAX_STACK_SIZE, MEMORY_SIZE, ROM_START_ADDR, SCREEN_HEIGHT,
    SCREEN_WIDTH,
};
use vstd::prelude::*;

verus! {

/// A program that does not fit between the program origin and the end of
/// memory.
#[derive(Clone, Copy, Debug, PartialEq, Eq)]
pub struct RomTooLarge {
    /// Length of the rejected program in bytes.
    pub len: usize,
}

/// The CHIP-8 machine: processor state, memory and framebuffer.
#[derive(Clone, Debug, PartialEq, Eq)]
pub struct CPU {
    /// The framebuffer, row-major, 64 cells per row.
    pub pixels: [bool; 2048],
    /// The 4096 bytes of memory.
    pub memory: [u8; MEMORY_SIZE],
    /// The registers `V0` to `VF`.
    pub registers: [u8; 16],
    /// The index register `I`.
    pub reg_i: usize,
    /// The call stack; `sp` is the next free slot.
    pub stack: [usize; MAX_STACK_SIZE],
    /// The delay timer.
    pub delay_timer: u8,
    /// The sound timer; a tone plays while it is above zero.
    pub sound_timer: u8,
    /// The program counter. It may leave memory; the step that would fetch
    /// from there faults.
    pub pc: usize,
    /// The stack pointer.
    pub sp: usize,
    /// Length of the most recently loaded program.
    pub rom_len: usize,
}

impl View for CPU {
    type V = MachineState;

    open spec fn view(&self) -> MachineState {
        MachineState {
            pixels: self.pixels@,
            memory: self.memory@,
            registers: self.registers@,
            reg_i: self.reg_i,
            stack: self.stack@,
            delay_timer: self.delay_timer,
            sound_timer: self.sound_timer,
            pc: self.pc,
            sp: self.sp,
            rom_len: self.rom_len,
        }
    }
}

/// Draws one byte from `rand::random`, the thread-local generator of the
/// `rand` crate. Nothing is claimed of the byte: it may be any value.
#[verifier::external_body]
fn random_byte() -> (byte: u8) {
    rand::random::<u8>()
}

/// The state of a newly created machine.
pub open spec fn initial_state() -> MachineState {
    MachineState {
        pixels: Seq::new((SCREEN_WIDTH * SCREEN_HEIGHT) as nat, |i: int| false),
        memory: fresh_memory(),
        registers: Seq::new(16, |i: int| 0u8),
        reg_i: 0,
        stack: Seq::new(MAX_STACK_SIZE as nat, |i: int| 0usize),
        delay_timer: 0,
        sound_timer: 0,
        pc: ROM_START_ADDR,
        sp: 0,
        rom_len: 0,
    }
}

impl CPU {
    /// The invariant that every operation keeps: the stack pointer is at
    /// most the stack's capacity, the index register and every stack slot
    /// hold an address within memory, and the recorded program length fits
    /// behind the program origin. The fields are public, so code that
    /// writes them has to keep it.
    pub open spec fn wf(&self) -> bool {
        self@.wf()
    }

    /// Tests the invariant `wf`, for callers that set the fields themselves.
    pub fn is_well_formed(&self) -> (ok: bool)
        ensures
            ok == self.wf(),
    {
        if self.sp > MAX_STACK_SIZE || self.reg_i >= MEMORY_SIZE || self.rom_len > MEMORY_SIZE
            - ROM_START_ADDR {
            return false;
        }
        let mut i: usize = 0;
        while i < MAX_STACK_SIZE
            invariant
                i <= MAX_STACK_SIZE,
                forall|j: int| 0 <= j < i ==> #[trigger] self.stack@[j] < MEMORY_SIZE,
            decreases MAX_STACK_SIZE - i,
        {
            if self.stack[i] >= MEMORY_SIZE {
                return false;
            }
            i += 1;
        }
        true
    }

    /// Creates a machine with the font in memory and everything else zero,
    /// ready to run from the program origin.
    pub fn new() -> (cpu: Self)
        ensures
            cpu@ == initial_state(),
            cpu.wf(),
    {
        let memory: [u8; 0x1000] = get_fresh_memory_with_font_data();
        let cpu = CPU {
            pixels: [false; 2048],
            memory,
            registers: [0; 16],
            reg_i: 0,
            stack: [0; MAX_STACK_SIZE],
            delay_timer: 0,
            sound_timer: 0,
            pc: ROM_START_ADDR,
            sp: 0,
            rom_len: 0,
        };
        assert(cpu.pixels@ =~= initial_state().pixels);
        assert(cpu.registers@ =~= initial_state().registers);
        assert(cpu.stack@ =~= initial_state().stack);
        cpu
    }

    /// Returns the machine to its initial state, keeping memory (the font and
    /// the loaded program) and the recorded program length.
    pub fn reset(&mut self)
        ensures
            final(self)@ == old(self)@.reset(),
            final(self).memory == old(self).memory,
            old(self).wf() ==> final(self).wf(),
    {
        self.pixels = [false; 2048];
        self.registers = [0x00; 16];
        self.stack = [0x0000; MAX_STACK_SIZE];
        self.reg_i = 0x0000;
        self.delay_timer = 0;
        self.sound_timer = 0;
        self.pc = ROM_START_ADDR;
        self.sp = 0;
        proof {
            assert(self.pixels@ =~= old(self)@.reset().pixels);
            assert(self.registers@ =~= old(self)@.reset().registers);
            assert(self.stack@ =~= old(self)@.reset().stack);
        }
    }

    /// Copies `rom` into memory at the program origin and records its
    /// length. A program that does not fit is rejected and nothing changes.
    pub fn load_rom(&mut self, rom: Vec<u8>) -> (loaded: Result<(), RomTooLarge>)
        ensures
            rom@.len() <= MEMORY_SIZE - ROM_START_ADDR ==> loaded == Ok::<(), RomTooLarge>(())
                && final(self)@ == old(self)@.load(rom@),
            rom@.len() > MEMORY_SIZE - ROM_START_ADDR ==> loaded == Err::<(), RomTooLarge>(
                RomTooLarge { len: rom@.len() as usize },
            ) && *final(self) == *old(self),
            old(self).wf() ==> final(self).wf(),
    {
        if rom.len() > MEMORY_SIZE - ROM_START_ADDR {
            return Err(RomTooLarge { len: rom.len() });
        }
        self.rom_len = rom.len();
        let mut i: usize = 0;
        while i < rom.len()
            invariant
                i <= rom@.len() <= MEMORY_SIZE - ROM_START_ADDR,
                self@ == (MachineState {
                    memory: self.memory@,
                    rom_len: rom@.len() as usize,
                    ..old(self)@
                }),
                forall|a: int|
                    0 <= a < MEMORY_SIZE ==> self.memory@[a] == if ROM_START_ADDR <= a
                        < ROM_START_ADDR + i {
                        rom@[a - ROM_START_ADDR]
                    } else {
                        old(self).memory@[a]
                    },
            decreases rom@.len() - i,
        {
            self.memory[ROM_START_ADDR + i] = rom[i];
            i += 1;
        }
        assert(self.memory@ =~= old(self)@.load(rom@).memory);
        Ok(())
    }

    /// One tick of the 60 Hz clock: each timer that is above zero loses one.
    pub fn tick_timers(&mut self)
        ensures
            final(self)@ == old(self)@.tick(),
            old(self).wf() ==> final(self).wf(),
    {
        if self.delay_timer > 0 {
            self.delay_timer -= 1;
        }
        if self.sound_timer > 0 {
            self.sound_timer -= 1;
        }
    }

    /// Whether `target` is among the pressed keys.
    pub fn parse_pressed_keys(target: usize, pressed_keys: &Vec<usize>) -> (pressed: bool)
        ensures
            pressed == pressed_keys@.contains(target),
    {
        let mut i: usize = 0;
        while i < pressed_keys.len()
            invariant
                i <= pressed_keys@.len(),
                forall|j: int| 0 <= j < i ==> pressed_keys@[j] != target,
            decreases pressed_keys@.len() - i,
        {
            if pressed_keys[i] == target {
                return true;
            }
            i += 1;
        }
        false
    }

    /// Reads the big-endian instruction word at the program counter.
    fn fetch(&self) -> (word: u16)
        requires
            self.pc + 1 < MEMORY_SIZE,
        ensures
            word == self@.fetch(),
    {
        let hi: u16 = self.memory[self.pc] as u16;
        let lo: u16 = self.memory[self.pc + 1] as u16;
        assert(hi << 8 == hi * 0x100) by (bit_vector)
            requires
                hi < 0x100,
        ;
        (hi << 8) + lo
    }

    /// Whether the instruction at the program counter consumes a random
    /// byte.
    fn next_is_random(&self) -> (random: bool)
        ensures
            random == self@.consumes_random(),
    {
        if self.pc >= MEMORY_SIZE - 1 {
            return false;
        }
        match decode(self.fetch()) {
            Some(Instruction::Random { .. }) => true,
            _ => false,
        }
    }

    /// Executes the instruction at the program counter. `pressed_keys` is
    /// the snapshot of the keys held down, each by its keypad index.
    ///
    /// A `Cxnn` instruction draws its byte from the random number generator,
    /// so for it the new state is that of `step_with` for some byte; every
    /// other instruction is deterministic. On a fault the machine is left
    /// exactly as it was.
    pub fn step(&mut self, pressed_keys: Vec<usize>) -> (result: Result<StepOutcome, MachineFault>)
        requires
            old(self).wf(),
        ensures
            result == old(self)@.step_result(),
            exists|byte: u8| final(self)@ == old(self)@.step(pressed_keys@, byte),
            !old(self)@.consumes_random() ==> final(self)@ == old(self)@.step(pressed_keys@, 0),
            final(self).wf(),
    {
        let byte: u8 = if self.next_is_random() {
            random_byte()
        } else {
            0
        };
        self.step_with(&pressed_keys, byte)
    }

    /// Executes the instruction at the program counter, with `random_byte`
    /// as the byte that a `Cxnn` instruction consumes.
    ///
    /// On a fault the machine is left exactly as it was.
    pub fn step_with(&mut self, pressed_keys: &Vec<usize>, random_byte: u8) -> (result: Result<
        StepOutcome,
        MachineFault,
    >)
        requires
            old(self).wf(),
        ensures
            result == old(self)@.step_result(),
            final(self)@ == old(self)@.step(pressed_keys@, random_byte),
            final(self).wf(),
    {
        if self.pc >= MEMORY_SIZE - 1 {
            return Err(MachineFault::FetchOutOfBounds { address: self.pc });
        }
        let address: usize = self.pc;
        let instruction: u16 = self.fetch();
        let decoded = match decode(instruction) {
            Some(decoded) => decoded,
            None => {
                return Err(MachineFault::InvalidOpcode { instruction, address });
            },
        };
        let mut pc_inc: bool = true;
        let mut should_render_screen: bool = false;
        match decoded {
            Instruction::ClearScreen => self.opcode_00e0(),
            Instruction::Return => {
                if !self.opcode_00ee() {
                    return Err(MachineFault::StackUnderflow { instruction, address });
                }
            },
            Instruction::Jump { addr } => {
                pc_inc = false;
                self.opcode_1nnn(addr)
            },
            Instruction::Call { addr } => {
                pc_inc = false;
                if !self.opcode_2nnn(addr) {
                    return Err(MachineFault::StackOverflow { instruction, address });
                }
            },
            Instruction::SkipIfEqual { x, value } => self.opcode_3xnn(x, value),
            Instruction::SkipIfNotEqual { x, value } => self.opcode_4xnn(x, value),
            Instruction::SkipIfRegistersEqual { x, y } => self.opcode_5xy0(x, y),
            Instruction::LoadImmediate { x, value } => self.opcode_6xnn(x, value),
            Instruction::AddImmediate { x, value } => self.opcode_7xnn(x, value),
            Instruction::Move { x, y } => self.opcode_8xy0(x, y),
            Instruction::Or { x, y } => self.opcode_8xy1(x, y),
            Instruction::And { x, y } => self.opcode_8xy2(x, y),
            Instruction::Xor { x, y } => self.opcode_8xy3(x, y),
            Instruction::Add { x, y } => self.opcode_8xy4(x, y),
            Instruction::Subtract { x, y } => self.opcode_8xy5(x, y),
            Instruction::ShiftRight { x } => self.opcode_8xy6(x),
            Instruction::SubtractFrom { x, y } => self.opcode_8xy7(x, y),
            Instruction::ShiftLeft { x } => self.opcode_8xye(x),
            Instruction::SkipIfRegistersDiffer { x, y } => self.opcode_9xy0(x, y),
            Instruction::LoadIndex { addr } => self.opcode_annn(addr),
            Instruction::JumpOffset { addr } => {
                pc_inc = false;
                self.opcode_bnnn(addr)
            },
            Instruction::Random { x, value } => self.opcode_cxnn(x, value, random_byte),
            Instruction::Draw { x, y, rows } => {
                if !self.opcode_dxyn(x, y, rows) {
                    return Err(MachineFault::MemoryOutOfBounds { instruction, address });
                }
                should_render_screen = true;
            },
            Instruction::SkipIfKeyPressed { x } => self.opcode_ex9e(x, pressed_keys),
            Instruction::SkipIfKeyNotPressed { x } => self.opcode_exa1(x, pressed_keys),
            Instruction::ReadDelayTimer { x } => self.opcode_fx07(x),
            Instruction::WaitForKey { x } => pc_inc = self.opcode_fx0a(x, pressed_keys),
            Instruction::SetDelayTimer { x } => self.opcode_fx15(x),
            Instruction::SetSoundTimer { x } => self.opcode_fx18(x),
            Instruction::AddToIndex { x } => self.opcode_fx1e(x),
            Instruction::LoadGlyphAddress { x } => self.opcode_fx29(x),
            Instruction::StoreDecimal { x } => {
                if !self.opcode_fx33(x) {
                    return Err(MachineFault::MemoryOutOfBounds { instruction, address });
                }
            },
            Instruction::StoreRegisters { x } => {
                if !self.opcode_fx55(x) {
                    return Err(MachineFault::MemoryOutOfBounds { instruction, address });
                }
            },
            Instruction::LoadRegisters { x } => {
                if !self.opcode_fx65(x) {
                    return Err(MachineFault::MemoryOutOfBounds { instruction, address });
                }
            },
        }
        if pc_inc {
            self.pc += 2;
        }
        proof {
            lemma_step_keeps_wf(old(self)@, pressed_keys@, random_byte);
        }
        Ok(StepOutcome { needs_render: should_render_screen, address, instruction })
    }

    // ---- the instructions ----
    //
    // Each function carries out one instruction on decoded operands,
    // without the advance of the program counter that `step_with` adds
    // afterwards, and keeps the invariant. One that can fault returns
    // `false` on the fault and then leaves the machine as it was.

    /// `00E0`: clear the screen.
    pub fn opcode_00e0(&mut self)
        ensures
            old(self).wf() ==> final(self).wf(),
            final(self)@ == old(self)@.clear_screen(),
    {
        self.pixels = [false; 2048];
        assert(self.pixels@ =~= old(self)@.clear_screen().pixels);
    }

    /// `00EE`: return from a subroutine; `false` where the stack is empty.
    pub fn opcode_00ee(&mut self) -> (done: bool)
        requires
            old(self).wf(),
        ensures
            old(self).wf() ==> final(self).wf(),
            done == (old(self).sp > 0),
            done ==> final(self)@ == old(self)@.pop_return(),
            !done ==> *final(self) == *old(self),
    {
        if self.sp == 0 {
            return false;
        }
        self.sp -= 1;
        self.pc = self.stack[self.sp];
        true
    }

    /// `1nnn`: jump to `addr`.
    pub fn opcode_1nnn(&mut self, addr: usize)
        ensures
            old(self).wf() ==> final(self).wf(),
            final(self)@ == (MachineState { pc: addr, ..old(self)@ }),
    {
        self.pc = addr;
    }

    /// `2nnn`: call the subroutine at `addr`; `false` where the stack is
    /// full.
    pub fn opcode_2nnn(&mut self, addr: usize) -> (done: bool)
        requires
            old(self).wf(),
            old(self).pc < MEMORY_SIZE,
        ensures
            old(self).wf() ==> final(self).wf(),
            done == (old(self).sp < MAX_STACK_SIZE),
            done ==> final(self)@ == old(self)@.push_call(addr),
            !done ==> *final(self) == *old(self),
    {
        if self.sp >= MAX_STACK_SIZE {
            return false;
        }
        self.stack[self.sp] = self.pc;
        self.sp += 1;
        self.pc = addr;
        true
    }

    /// `3xnn`: skip one instruction where `Vx == value`.
    pub fn opcode_3xnn(&mut self, x: usize, value: u8)
        requires
            x < 16,
            old(self).pc + 2 <= usize::MAX,
        ensures
            old(self).wf() ==> final(self).wf(),
            final(self)@ == old(self)@.advance(
                if old(self).registers@[x as int] == value {
                    1
                } else {
                    0
                },
            ),
    {
        if self.registers[x] == value {
            self.pc += 2;
        }
    }

    /// `4xnn`: skip one instruction where `Vx != value`.
    pub fn opcode_4xnn(&mut self, x: usize, value: u8)
        requires
            x < 16,
            old(self).pc + 2 <= usize::MAX,
        ensures
            old(self).wf() ==> final(self).wf(),
            final(self)@ == old(self)@.advance(
                if old(self).registers@[x as int] != value {
                    1
                } else {
                    0
                },
            ),
    {
        if self.registers[x] != value {
            self.pc += 2;
        }
    }

    /// `5xy0`: skip one instruction where `Vx == Vy`.
    pub fn opcode_5xy0(&mut self, x: usize, y: usize)
        requires
            x < 16,
            y < 16,
            old(self).pc + 2 <= usize::MAX,
        ensures
            old(self).wf() ==> final(self).wf(),
            final(self)@ == old(self)@.advance(
                if old(self).registers@[x as int] == old(self).registers@[y as int] {
                    1
                } else {
                    0
                },
            ),
    {
        if self.registers[x] == self.registers[y] {
            self.pc += 2;
        }
    }

    /// `6xnn`: `Vx = value`.
    pub fn opcode_6xnn(&mut self, x: usize, value: u8)
        requires
            x < 16,
        ensures
            old(self).wf() ==> final(self).wf(),
            final(self)@ == old(self)@.with_register(x as int, value),
    {
        self.registers[x] = value;
    }

    /// `7xnn`: `Vx = Vx + value` modulo 256; the flag register is not
    /// touched.
    pub fn opcode_7xnn(&mut self, x: usize, value: u8)
        requires
            x < 16,
        ensures
            old(self).wf() ==> final(self).wf(),
            final(self)@ == old(self)@.with_register(
                x as int,
                ((old(self).registers@[x as int] + value) % 0x100) as u8,
            ),
    {
        let sum: u16 = self.registers[x] as u16 + value as u16;
        self.registers[x] = (sum % 0x100) as u8;
    }

    /// `8xy0`: `Vx = Vy`.
    pub fn opcode_8xy0(&mut self, x: usize, y: usize)
        requires
            x < 16,
            y < 16,
        ensures
            old(self).wf() ==> final(self).wf(),
            final(self)@ == old(self)@.with_register(x as int, old(self).registers@[y as int]),
    {
        self.registers[x] = self.registers[y];
    }

    /// `8xy1`: `Vx |= Vy`.
    pub fn opcode_8xy1(&mut self, x: usize, y: usize)
        requires
            x < 16,
            y < 16,
        ensures
            old(self).wf() ==> final(self).wf(),
            final(self)@ == old(self)@.with_register(
                x as int,
                old(self).registers@[x as int] | old(self).registers@[y as int],
            ),
    {
        self.registers[x] = self.registers[x] | self.registers[y];
    }

    /// `8xy2`: `Vx &= Vy`.
    pub fn opcode_8xy2(&mut self, x: usize, y: usize)
        requires
            x < 16,
            y < 16,
        ensures
            old(self).wf() ==> final(self).wf(),
            final(self)@ == old(self)@.with_register(
                x as int,
                old(self).registers@[x as int] & old(self).registers@[y as int],
            ),
    {
        self.registers[x] = self.registers[x] & self.registers[y];
    }

    /// `8xy3`: `Vx ^= Vy`.
    pub fn opcode_8xy3(&mut self, x: usize, y: usize)
        requires
            x < 16,
            y < 16,
        ensures
            old(self).wf() ==> final(self).wf(),
            final(self)@ == old(self)@.with_register(
                x as int,
                old(self).registers@[x as int] ^ old(self).registers@[y as int],
            ),
    {
        self.registers[x] = self.registers[x] ^ self.registers[y];
    }

    /// `8xy4`: `Vx += Vy` modulo 256, then `VF` = 1 where the sum did not
    /// fit in a byte, else 0.
    pub fn opcode_8xy4(&mut self, x: usize, y: usize)
        requires
            x < 16,
            y < 16,
        ensures
            old(self).wf() ==> final(self).wf(),
            final(self)@ == old(self)@.add_registers(x as int, y as int),
            final(self).registers@[0xF] == if old(self).registers@[x as int] + old(
                self,
            ).registers@[y as int] >= 256 {
                1int
            } else {
                0int
            },
            x != 0xF ==> final(self).registers@[x as int] == (old(self).registers@[x as int]
                + old(self).registers@[y as int]) % 256,
    {
        let sum: u16 = self.registers[x] as u16 + self.registers[y] as u16;
        self.registers[x] = (sum % 0x100) as u8;
        self.registers[0xF] = if sum >= 0x100 {
            1
        } else {
            0
        };
    }

    /// `8xy5`: `Vx -= Vy` modulo 256, then `VF` = 1 where `Vx >= Vy` held,
    /// else 0.
    pub fn opcode_8xy5(&mut self, x: usize, y: usize)
        requires
            x < 16,
            y < 16,
        ensures
            old(self).wf() ==> final(self).wf(),
            final(self)@ == old(self)@.subtract_registers(
                x as int,
                old(self).registers@[x as int],
                old(self).registers@[y as int],
            ),
            final(self).registers@[0xF] == if old(self).registers@[x as int] >= old(
                self,
            ).registers@[y as int] {
                1int
            } else {
                0int
            },
            x != 0xF ==> final(self).registers@[x as int] == (old(self).registers@[x as int]
                - old(self).registers@[y as int]) % 256,
    {
        let vx: u8 = self.registers[x];
        let vy: u8 = self.registers[y];
        self.registers[x] = Self::wrapping_difference(vx, vy);
        self.registers[0xF] = if vx >= vy {
            1
        } else {
            0
        };
    }

    /// `minuend - subtrahend` modulo 256.
    fn wrapping_difference(minuend: u8, subtrahend: u8) -> (difference: u8)
        ensures
            difference == ((minuend - subtrahend) % 0x100) as u8,
    {
        if minuend >= subtrahend {
            minuend - subtrahend
        } else {
            0xFF - (subtrahend - minuend) + 1
        }
    }

    /// `8xy6`: `VF` = lowest bit of `Vx`, then `Vx >>= 1`.
    pub fn opcode_8xy6(&mut self, x: usize)
        requires
            x < 16,
        ensures
            old(self).wf() ==> final(self).wf(),
            final(self)@ == old(self)@.shift_right(x as int),
    {
        let before: u8 = self.registers[x];
        assert(before & 0x1 == before % 2) by (bit_vector);
        self.registers[0xF] = before & 0x1;
        let vx: u8 = self.registers[x];
        assert(vx >> 1 == vx / 2) by (bit_vector);
        self.registers[x] = vx >> 1;
    }

    /// `8xy7`: `Vx = Vy - Vx` modulo 256, then `VF` = 1 where `Vy >= Vx`
    /// held, else 0.
    pub fn opcode_8xy7(&mut self, x: usize, y: usize)
        requires
            x < 16,
            y < 16,
        ensures
            old(self).wf() ==> final(self).wf(),
            final(self)@ == old(self)@.subtract_registers(
                x as int,
                old(self).registers@[y as int],
                old(self).registers@[x as int],
            ),
    {
        let vx: u8 = self.registers[x];
        let vy: u8 = self.registers[y];
        self.registers[x] = Self::wrapping_difference(vy, vx);
        self.registers[0xF] = if vy >= vx {
            1
        } else {
            0
        };
    }

    /// `8xyE`: `VF` = highest bit of `Vx`, then `Vx <<= 1`.
    pub fn opcode_8xye(&mut self, x: usize)
        requires
            x < 16,
        ensures
            old(self).wf() ==> final(self).wf(),
            final(self)@ == old(self)@.shift_left(x as int),
    {
        let before: u8 = self.registers[x];
        assert((before & 0x80 == 0) == (before / 0x80 == 0) && before / 0x80 <= 1) by (bit_vector);
        self.registers[0xF] = if before & 0x80 == 0 {
            0
        } else {
            1
        };
        let vx: u8 = self.registers[x];
        assert(vx << 1 == (vx * 2) % 0x100) by (bit_vector);
        self.registers[x] = vx << 1;
    }

    /// `9xy0`: skip one instruction where `Vx != Vy`.
    pub fn opcode_9xy0(&mut self, x: usize, y: usize)
        requires
            x < 16,
            y < 16,
            old(self).pc + 2 <= usize::MAX,
        ensures
            old(self).wf() ==> final(self).wf(),
            final(self)@ == old(self)@.advance(
                if old(self).registers@[x as int] != old(self).registers@[y as int] {
                    1
                } else {
                    0
                },
            ),
    {
        if self.registers[x] != self.registers[y] {
            self.pc += 2;
        }
    }

    /// `Annn`: `I = addr`.
    pub fn opcode_annn(&mut self, addr: usize)
        requires
            addr < MEMORY_SIZE,
        ensures
            old(self).wf() ==> final(self).wf(),
            final(self)@ == (MachineState { reg_i: addr, ..old(self)@ }),
    {
        self.reg_i = addr;
    }

    /// `Bnnn`: jump to `V0 + addr`, taken as a 12-bit address.
    pub fn opcode_bnnn(&mut self, addr: usize)
        requires
            addr < MEMORY_SIZE,
        ensures
            old(self).wf() ==> final(self).wf(),
            final(self)@ == (MachineState {
                pc: ((old(self).registers@[0] + addr) % (MEMORY_SIZE as int)) as usize,
                ..old(self)@
            }),
    {
        let target: usize = self.registers[0] as usize + addr;
        assert(target & 0xFFF == target % 0x1000) by (bit_vector);
        self.pc = target & 0xFFF;
    }

    /// `Cxnn`: `Vx = random_byte & value`.
    pub fn opcode_cxnn(&mut self, x: usize, value: u8, random_byte: u8)
        requires
            x < 16,
        ensures
            old(self).wf() ==> final(self).wf(),
            final(self)@ == old(self)@.with_register(x as int, random_byte & value),
    {
        self.registers[x] = random_byte & value;
    }

    /// `Ex9E`: skip one instruction where the key `Vx` is pressed.
    pub fn opcode_ex9e(&mut self, x: usize, pressed_keys: &Vec<usize>)
        requires
            x < 16,
            old(self).pc + 2 <= usize::MAX,
        ensures
            old(self).wf() ==> final(self).wf(),
            final(self)@ == old(self)@.advance(
                if pressed_keys@.contains(old(self).registers@[x as int] as usize) {
                    1
                } else {
                    0
                },
            ),
    {
        if CPU::parse_pressed_keys(self.registers[x] as usize, pressed_keys) {
            self.pc += 2;
        }
    }

    /// `ExA1`: skip one instruction where the key `Vx` is not pressed.
    pub fn opcode_exa1(&mut self, x: usize, pressed_keys: &Vec<usize>)
        requires
            x < 16,
            old(self).pc + 2 <= usize::MAX,
        ensures
            old(self).wf() ==> final(self).wf(),
            final(self)@ == old(self)@.advance(
                if !pressed_keys@.contains(old(self).registers@[x as int] as usize) {
                    1
                } else {
                    0
                },
            ),
    {
        if !CPU::parse_pressed_keys(self.registers[x] as usize, pressed_keys) {
            self.pc += 2;
        }
    }

    /// `Fx0A`: where a key is pressed, `Vx` = the first pressed key (its low
    /// byte, should it be no keypad index) and the result is `true`; where
    /// none is, nothing changes and the result is `false`, so that the
    /// instruction is executed again.
    pub fn opcode_fx0a(&mut self, x: usize, pressed_keys: &Vec<usize>) -> (found: bool)
        requires
            x < 16,
        ensures
            old(self).wf() ==> final(self).wf(),
            found == (pressed_keys@.len() > 0),
            found ==> final(self)@ == old(self)@.with_register(x as int, pressed_keys@[0] as u8),
            !found ==> *final(self) == *old(self),
    {
        if pressed_keys.len() == 0 {
            return false;
        }
        self.registers[x] = pressed_keys[0] as u8;
        true
    }

    /// `Fx07`: `Vx` = delay timer.
    pub fn opcode_fx07(&mut self, x: usize)
        requires
            x < 16,
        ensures
            old(self).wf() ==> final(self).wf(),
            final(self)@ == old(self)@.with_register(x as int, old(self).delay_timer),
    {
        self.registers[x] = self.delay_timer;
    }

    /// `Fx15`: delay timer = `Vx`.
    pub fn opcode_fx15(&mut self, x: usize)
        requires
            x < 16,
        ensures
            old(self).wf() ==> final(self).wf(),
            final(self)@ == (MachineState {
                delay_timer: old(self).registers@[x as int],
                ..old(self)@
            }),
    {
        self.delay_timer = self.registers[x];
    }

    /// `Fx18`: sound timer = `Vx`.
    pub fn opcode_fx18(&mut self, x: usize)
        requires
            x < 16,
        ensures
            old(self).wf() ==> final(self).wf(),
            final(self)@ == (MachineState {
                sound_timer: old(self).registers@[x as int],
                ..old(self)@
            }),
    {
        self.sound_timer = self.registers[x];
    }

    /// `Fx1E`: `I += Vx`, taken as a 12-bit address.
    pub fn opcode_fx1e(&mut self, x: usize)
        requires
            x < 16,
            old(self).wf(),
        ensures
            old(self).wf() ==> final(self).wf(),
            final(self)@ == (MachineState {
                reg_i: ((old(self).reg_i + old(self).registers@[x as int]) % (
                MEMORY_SIZE as int)) as usize,
                ..old(self)@
            }),
    {
        self.reg_i = (self.reg_i + self.registers[x] as usize) % MEMORY_SIZE;
    }

    /// `Fx29`: `I` = address of the glyph for the low nibble of `Vx`.
    pub fn opcode_fx29(&mut self, x: usize)
        requires
            x < 16,
        ensures
            old(self).wf() ==> final(self).wf(),
            final(self)@ == (MachineState {
                reg_i: font_sprite_address(old(self).registers@[x as int] as int % 0x10) as usize,
                ..old(self)@
            }),
    {
        let vx: u8 = self.registers[x];
        assert(vx & 0xF == vx % 0x10) by (bit_vector);
        self.reg_i = FONT_START + FONT_HEIGHT * ((vx & 0xF) as usize);
    }

    /// `Fx33`: the hundreds, tens and ones of `Vx` go to `I`, `I+1`, `I+2`;
    /// `false` where `I + 2` lies outside memory.
    pub fn opcode_fx33(&mut self, x: usize) -> (done: bool)
        requires
            x < 16,
        ensures
            old(self).wf() ==> final(self).wf(),
            done == (old(self).reg_i + 2 < MEMORY_SIZE),
            done ==> final(self)@ == old(self)@.store_decimal(x as int),
            !done ==> *final(self) == *old(self),
    {
        if self.reg_i >= MEMORY_SIZE - 2 {
            return false;
        }
        let mut vx: u8 = self.registers[x];

        self.memory[self.reg_i + 2] = vx % 10;
        vx /= 10;

        self.memory[self.reg_i + 1] = vx % 10;
        vx /= 10;

        self.memory[self.reg_i] = vx;
        assert(self.memory@ =~= old(self)@.store_decimal(x as int).memory);
        true
    }

    /// `Fx55`: `V0..=Vx` go to `I..=I+x`; `false` where `I + x` lies
    /// outside memory.
    pub fn opcode_fx55(&mut self, x: usize) -> (done: bool)
        requires
            x < 16,
        ensures
            old(self).wf() ==> final(self).wf(),
            done == (old(self).reg_i + x < MEMORY_SIZE),
            done ==> final(self)@ == old(self)@.store_registers(x as int),
            !done ==> *final(self) == *old(self),
    {
        if self.reg_i >= MEMORY_SIZE - x {
            return false;
        }
        let mut i: usize = 0;
        while i <= x
            invariant
                x < 16,
                i <= x + 1,
                self.reg_i + x < MEMORY_SIZE,
                self@ == (MachineState { memory: self.memory@, ..old(self)@ }),
                forall|a: int|
                    0 <= a < MEMORY_SIZE ==> self.memory@[a] == if self.reg_i <= a < self.reg_i
                        + i {
                        self.registers@[a - self.reg_i]
                    } else {
                        old(self).memory@[a]
                    },
            decreases x + 1 - i,
        {
            self.memory[self.reg_i + i] = self.registers[i];
            i += 1;
        }
        assert(self.memory@ =~= old(self)@.store_registers(x as int).memory);
        true
    }

    /// `Fx65`: `V0..=Vx` are loaded from `I..=I+x`; `false` where `I + x`
    /// lies outside memory.
    pub fn opcode_fx65(&mut self, x: usize) -> (done: bool)
        requires
            x < 16,
        ensures
            old(self).wf() ==> final(self).wf(),
            done == (old(self).reg_i + x < MEMORY_SIZE),
            done ==> final(self)@ == old(self)@.load_registers(x as int),
            !done ==> *final(self) == *old(self),
    {
        if self.reg_i >= MEMORY_SIZE - x {
            return false;
        }
        let mut i: usize = 0;
        while i <= x
            invariant
                x < 16,
                i <= x + 1,
                self.reg_i + x < MEMORY_SIZE,
                self@ == (MachineState { registers: self.registers@, ..old(self)@ }),
                forall|k: int|
                    0 <= k < 16 ==> self.registers@[k] == if k < i {
                        self.memory@[self.reg_i + k]
                    } else {
                        old(self).registers@[k]
                    },
            decreases x + 1 - i,
        {
            self.registers[i] = self.memory[self.reg_i + i];
            i += 1;
        }
        assert(self.registers@ =~= old(self)@.load_registers(x as int).registers);
        true
    }

    /// `Dxyn`: XORs the sprite of `rows` rows at `I` into the framebuffer at
    /// `(Vx, Vy)`, wrapping at the screen edges, and sets `VF` to 1 where a
    /// set pixel was turned off, else to 0; `false` where the sprite does
    /// not lie within memory.
    pub fn opcode_dxyn(&mut self, x: usize, y: usize, rows: usize) -> (done: bool)
        requires
            x < 16,
            y < 16,
            rows < 16,
            old(self).wf(),
        ensures
            old(self).wf() ==> final(self).wf(),
            done == (old(self).reg_i + rows <= MEMORY_SIZE),
            done ==> final(self)@ == old(self)@.draw(x as int, y as int, rows as int),
            !done ==> *final(self) == *old(self),
    {
        if self.reg_i > MEMORY_SIZE - rows {
            return false;
        }
        let start_x: u8 = self.registers[x];
        let start_y: u8 = self.registers[y];
        let mut collision: bool = false;
        let mut row_idx: usize = 0;
        while row_idx < rows
            invariant
                rows < 16,
                row_idx <= rows,
                self.reg_i + rows <= MEMORY_SIZE,
                self@ == (MachineState { pixels: self.pixels@, ..old(self)@ }),
                old(self)@.draw_progress(
                    self.pixels@,
                    collision,
                    start_x,
                    start_y,
                    rows as int,
                    row_idx as int,
                    0,
                ),
            decreases rows - row_idx,
        {
            let row: u8 = self.memory[self.reg_i + row_idx];
            let pixel_y: usize = (start_y as usize + row_idx) % SCREEN_HEIGHT;
            let mut col_idx: usize = 0;
            while col_idx < 8
                invariant
                    rows < 16,
                    row_idx < rows,
                    col_idx <= 8,
                    self.reg_i + rows <= MEMORY_SIZE,
                    row == old(self).memory@[self.reg_i + row_idx],
                    pixel_y == (start_y + row_idx) % SCREEN_HEIGHT as int,
                    self@ == (MachineState { pixels: self.pixels@, ..old(self)@ }),
                    old(self)@.draw_progress(
                        self.pixels@,
                        collision,
                        start_x,
                        start_y,
                        rows as int,
                        row_idx as int,
                        col_idx as int,
                    ),
                decreases 8 - col_idx,
            {
                let pixel_x: usize = (start_x as usize + col_idx) % SCREEN_WIDTH;
                let pixels_idx: usize = pixel_y * SCREEN_WIDTH + pixel_x;
                let shift: u8 = 7 - col_idx as u8;
                let sprite_pixel: bool = (row >> shift) & 0x1 == 1;
                let existing_pixel: bool = self.pixels[pixels_idx];
                proof {
                    old(self)@.lemma_draw_progress_step(
                        self.pixels@,
                        collision,
                        start_x,
                        start_y,
                        rows as int,
                        row_idx as int,
                        col_idx as int,
                    );
                }
                if existing_pixel && sprite_pixel {
                    collision = true;
                }
                self.pixels[pixels_idx] = existing_pixel != sprite_pixel;
                col_idx += 1;
            }
            proof {
                old(self)@.lemma_draw_progress_next_row(
                    self.pixels@,
                    collision,
                    start_x,
                    start_y,
                    rows as int,
                    row_idx as int,
                );
            }
            row_idx += 1;
        }
        proof {
            old(self)@.lemma_draw_progress_done(
                self.pixels@,
                collision,
                start_x,
                start_y,
                rows as int,
            );
        }
        self.registers[0xF] = if collision {
            1
        } else {
            0
        };
        true
    }
}

} // verus!
