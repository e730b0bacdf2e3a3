//! What holds of the machine in every state and for every input.

use crate::cpu::initial_state;
use crate::instruction::{field_n, field_top, field_x, field_y};
use crate::semantics::{lemma_step_keeps_wf, MachineState, MEMORY_SIZE, ROM_START_ADDR};
use vstd::prelude::*;

verus! {

/// `8xy4` leaves in `VF` 1 where the sum of `Vx` and `Vy` is 256 or more,
/// else 0, and in `Vx`, where `x` is not the flag register itself, the sum
/// modulo 256. The step succeeds and moves to the next instruction.
pub proof fn law_add_sets_sum_and_carry(s: MachineState, keys: Seq<usize>, byte: u8)
    requires
        s.wf(),
        s.pc + 1 < MEMORY_SIZE,
        field_top(s.fetch()) == 0x8,
        field_n(s.fetch()) == 0x4,
    ensures
        ({
            let x = field_x(s.fetch()) as int;
            let y = field_y(s.fetch()) as int;
            let a = s.registers[x];
            let b = s.registers[y];
            let after = s.step(keys, byte);
            &&& s.step_result() is Ok
            &&& after.registers[0xF] == if a + b >= 256 {
                1int
            } else {
                0int
            }
            &&& x != 0xF ==> after.registers[x] == (a + b) % 256
            &&& forall|k: int| 0 <= k < 0xF && k != x ==> after.registers[k] == s.registers[k]
            &&& after.pc == s.pc + 2
        }),
{
}

/// `8xy5` leaves in `VF` 1 where `Vx >= Vy` (nothing is borrowed), else 0,
/// and in `Vx`, where `x` is not the flag register itself, the difference
/// modulo 256. The step succeeds and moves to the next instruction.
pub proof fn law_subtract_sets_difference_and_no_borrow(
    s: MachineState,
    keys: Seq<usize>,
    byte: u8,
)
    requires
        s.wf(),
        s.pc + 1 < MEMORY_SIZE,
        field_top(s.fetch()) == 0x8,
        field_n(s.fetch()) == 0x5,
    ensures
        ({
            let x = field_x(s.fetch()) as int;
            let y = field_y(s.fetch()) as int;
            let a = s.registers[x];
            let b = s.registers[y];
            let after = s.step(keys, byte);
            &&& s.step_result() is Ok
            &&& after.registers[0xF] == if a >= b {
                1int
            } else {
                0int
            }
            &&& x != 0xF ==> after.registers[x] == (a - b) % 256
            &&& forall|k: int| 0 <= k < 0xF && k != x ==> after.registers[k] == s.registers[k]
            &&& after.pc == s.pc + 2
        }),
{
}

/// A tick with both timers at zero changes nothing.
pub proof fn law_tick_at_zero_is_identity(s: MachineState)
    requires
        s.delay_timer == 0,
        s.sound_timer == 0,
    ensures
        s.tick() == s,
{
}

/// A tick never raises a timer and touches nothing but the timers.
pub proof fn law_tick_only_lowers_timers(s: MachineState)
    ensures
        s.tick().delay_timer <= s.delay_timer,
        s.tick().sound_timer <= s.sound_timer,
        s.tick() == (MachineState {
            delay_timer: s.tick().delay_timer,
            sound_timer: s.tick().sound_timer,
            ..s
        }),
{
}

/// One thing that happens to a machine from outside: a step, with the keys
/// held down and the random byte on offer, or a tick of the timer clock.
pub enum Event {
    Step { keys: Seq<usize>, byte: u8 },
    Tick,
}

/// The state after one event.
pub open spec fn apply(s: MachineState, event: Event) -> MachineState {
    match event {
        Event::Step { keys, byte } => s.step(keys, byte),
        Event::Tick => s.tick(),
    }
}

/// The state after a sequence of events, in order.
pub open spec fn run(s: MachineState, events: Seq<Event>) -> MachineState
    decreases events.len(),
{
    if events.len() == 0 {
        s
    } else {
        apply(run(s, events.drop_last()), events.last())
    }
}

/// A state is at rest when a reset would not change it: it is as a machine
/// is before it has run.
pub open spec fn at_rest(s: MachineState) -> bool {
    s.reset() == s
}

/// A new machine with a program loaded is at rest.
pub proof fn law_loaded_machine_is_at_rest(rom: Seq<u8>)
    requires
        rom.len() <= MEMORY_SIZE - ROM_START_ADDR,
    ensures
        at_rest(initial_state().load(rom)),
        initial_state().load(rom).wf(),
{
    let s = initial_state().load(rom);
    assert(s.reset().pixels =~= s.pixels);
    assert(s.reset().registers =~= s.registers);
    assert(s.reset().stack =~= s.stack);
}

/// No event changes the recorded program length, and every event keeps a
/// well-formed machine well-formed.
pub proof fn law_run_keeps_program_length(s: MachineState, events: Seq<Event>)
    requires
        s.wf(),
    ensures
        run(s, events).rom_len == s.rom_len,
        run(s, events).wf(),
    decreases events.len(),
{
    if events.len() > 0 {
        law_run_keeps_program_length(s, events.drop_last());
        let before = run(s, events.drop_last());
        match events.last() {
            Event::Step { keys, byte } => {
                lemma_step_keeps_wf(before, keys, byte);
            },
            Event::Tick => {},
        }
    }
}

/// After any run from a state at rest, a reset brings back everything but
/// memory: the state is the one the run started from, with the memory the
/// run has left.
pub proof fn law_reset_restores_all_but_memory(start: MachineState, events: Seq<Event>)
    requires
        start.wf(),
        at_rest(start),
    ensures
        run(start, events).reset() == (MachineState {
            memory: run(start, events).memory,
            ..start
        }),
{
    law_run_keeps_program_length(start, events);
    let end = run(start, events);
    assert(end.reset().pixels =~= start.reset().pixels);
    assert(end.reset().registers =~= start.reset().registers);
    assert(end.reset().stack =~= start.reset().stack);
}

/// Replay: a machine at rest runs a sequence of events; where the run has
/// left memory as it was, a reset brings back the state the run started
/// from, so that running the same events again passes through the same
/// states, framebuffer and registers included, after every event.
pub proof fn law_reset_replays_run(start: MachineState, events: Seq<Event>)
    requires
        start.wf(),
        at_rest(start),
        run(start, events).memory == start.memory,
    ensures
        run(start, events).reset() == start,
        forall|k: int|
            0 <= k <= events.len() ==> run(run(start, events).reset(), #[trigger] events.take(k))
                == run(start, events.take(k)),
{
    law_reset_restores_all_but_memory(start, events);
}

/// A step depends on the random byte only where the instruction at the
/// program counter consumes one.
pub proof fn law_step_ignores_unused_byte(s: MachineState, keys: Seq<usize>, a: u8, b: u8)
    requires
        !s.consumes_random(),
    ensures
        s.step(keys, a) == s.step(keys, b),
{
}

} // verus!
