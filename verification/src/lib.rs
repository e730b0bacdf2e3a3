//! A CHIP-8 interpreter core: the machine state, the instruction decoder and
//! the per-cycle execution engine, each with a machine-checked contract.
//!
//! The machine is driven from outside: a front-end calls [`CPU::step`] at the
//! instruction rate and [`CPU::tick_timers`] at 60 Hz, hands each step the
//! keys that are held down, and reads the framebuffer and the sound timer.
//!
//! Two modules serve the program around the machine: [`driver`] holds the
//! decisions of its main loop (pause, single step, tone), [`cli`] those of
//! its command line.
//!
//! Where CHIP-8 systems differ, this one does the following.
//! - `Dxyn` wraps every pixel of the sprite around the screen edges.
//! - `Bnnn` and `Fx1E` compute their address modulo 4096.
//! - `8xy4`, `8xy5` and `8xy7` write the result first and the flag last.
//! - `8xy6` and `8xyE` write the flag first and shift `Vx` in place; `Vy` is
//!   not read.
//! - `Fx55` and `Fx65` leave `I` as it is.
//! - `Fx0A` takes the first key of the snapshot it is given.
//! - A step does not run the timers.
//! - A step that cannot be carried out returns a [`MachineFault`] and
//!   leaves the machine exactly as it was.

pub mod cli;
pub mod cpu;
pub mod display;
pub mod driver;
pub mod dump;
pub mod font;
pub mod input;
pub mod instruction;
pub mod laws;
pub mod semantics;

pub use cli::{is_rom_filename, parse_command_line_args, Argument, CommandLine};
pub use cpu::{CPU, MachineFault, RomTooLarge, StepOutcome};
pub use driver::{ControlKey, Driver, Refresh};
pub use font::{FONT_HEIGHT, FONT_START};
pub use input::{get_chip8_key_idx, Chip8Input};
pub use instruction::{decode, Instruction};
pub use semantics::{MAX_STACK_SIZE, MEMORY_SIZE, ROM_START_ADDR, SCREEN_HEIGHT, SCREEN_WIDTH};
