//! The decisions of the loop that drives a machine: pausing, single
//! stepping, and when the timers and the tone run. The loop itself, with
//! its clock, window and keyboard, belongs to the front-end.

use crate::cpu::CPU;
use crate::semantics::{MachineFault, StepOutcome};
use vstd::prelude::*;

verus! {

/// A control key of the front-end, as opposed to a key of the keypad.
#[derive(Clone, Copy, Debug, PartialEq, Eq)]
pub enum ControlKey {
    /// Reset the machine and pause it.
    Reset,
    /// Switch between paused and running.
    TogglePause,
    /// While paused, run one instruction at the next cycle.
    ManualStep,
    /// Show or hide the debugging regions.
    ToggleDebug,
}

/// What the front-end has to do with its window after a control key.
#[derive(Clone, Copy, Debug, PartialEq, Eq)]
pub enum Refresh {
    /// Nothing to draw.
    Nothing,
    /// Draw the window again.
    Redraw,
    /// Resize the window for the current debug mode, then draw it again.
    ResizeAndRedraw,
}

/// The state of the driving loop.
#[derive(Clone, Copy, Debug, PartialEq, Eq)]
pub struct Driver {
    /// No instruction runs while this is set, but for manual steps.
    pub paused: bool,
    /// One instruction is to run although the machine is paused.
    pub manual_step_signal: bool,
    /// The debugging regions are shown.
    pub debug: bool,
}

impl Driver {
    /// The driver after a control key.
    pub open spec fn after_key(self, key: ControlKey) -> Driver {
        match key {
            ControlKey::Reset => Driver { paused: true, ..self },
            ControlKey::TogglePause => Driver { paused: !self.paused, ..self },
            ControlKey::ManualStep => Driver {
                manual_step_signal: self.manual_step_signal || self.paused,
                ..self
            },
            ControlKey::ToggleDebug => Driver { debug: !self.debug, ..self },
        }
    }

    /// What the window needs after a control key.
    pub open spec fn refresh_for(key: ControlKey) -> Refresh {
        match key {
            ControlKey::Reset | ControlKey::TogglePause => Refresh::Redraw,
            ControlKey::ManualStep => Refresh::Nothing,
            ControlKey::ToggleDebug => Refresh::ResizeAndRedraw,
        }
    }

    /// Whether an instruction runs at the next cycle.
    pub open spec fn runs_cycle(self) -> bool {
        !self.paused || self.manual_step_signal
    }

    /// A driver starts paused, with no manual step pending.
    pub fn new(debug: bool) -> (driver: Driver)
        ensures
            driver == (Driver { paused: true, manual_step_signal: false, debug }),
    {
        Driver { paused: true, manual_step_signal: false, debug }
    }

    /// Reacts to a control key. Only `Reset` touches the machine: it resets
    /// it. A manual step is noted only while paused, and asks for no
    /// redraw.
    pub fn handle_key(&mut self, cpu: &mut CPU, key: ControlKey) -> (refresh: Refresh)
        ensures
            *final(self) == old(self).after_key(key),
            key is Reset ==> final(cpu)@ == old(cpu)@.reset(),
            !(key is Reset) ==> *final(cpu) == *old(cpu),
            old(cpu).wf() ==> final(cpu).wf(),
            refresh == Self::refresh_for(key),
    {
        match key {
            ControlKey::Reset => {
                cpu.reset();
                self.paused = true;
                Refresh::Redraw
            },
            ControlKey::TogglePause => {
                self.paused = !self.paused;
                Refresh::Redraw
            },
            ControlKey::ManualStep => {
                if self.paused {
                    self.manual_step_signal = true;
                }
                Refresh::Nothing
            },
            ControlKey::ToggleDebug => {
                self.debug = !self.debug;
                Refresh::ResizeAndRedraw
            },
        }
    }

    /// One period of the timer clock: while paused nothing changes and the
    /// tone is off; else the timers tick, and the tone is on exactly while
    /// the sound timer is still above zero.
    pub fn update_timers(&self, cpu: &mut CPU) -> (tone: bool)
        ensures
            self.paused ==> !tone && *final(cpu) == *old(cpu),
            !self.paused ==> final(cpu)@ == old(cpu)@.tick(),
            !self.paused ==> tone == (old(cpu)@.tick().sound_timer > 0),
            old(cpu).wf() ==> final(cpu).wf(),
    {
        if self.paused {
            false
        } else {
            cpu.tick_timers();
            cpu.sound_timer > 0
        }
    }

    /// One period of the instruction clock: where the machine is running,
    /// or a manual step is pending, one step is made and its result
    /// returned, and the pending manual step is used up; else nothing
    /// happens.
    pub fn cycle(&mut self, cpu: &mut CPU, pressed_keys: Vec<usize>) -> (result: Option<
        Result<StepOutcome, MachineFault>,
    >)
        requires
            old(cpu).wf(),
        ensures
            final(cpu).wf(),
            *final(self) == (Driver { manual_step_signal: false, ..*old(self) }),
            old(self).runs_cycle() ==> result == Some(old(cpu)@.step_result()),
            old(self).runs_cycle() ==> exists|byte: u8|
                final(cpu)@ == old(cpu)@.step(pressed_keys@, byte),
            old(self).runs_cycle() && !old(cpu)@.consumes_random() ==> final(cpu)@ == old(
                cpu,
            )@.step(pressed_keys@, 0),
            !old(self).runs_cycle() ==> result is None && *final(cpu) == *old(cpu),
    {
        if !self.paused || self.manual_step_signal {
            self.manual_step_signal = false;
            Some(cpu.step(pressed_keys))
        } else {
            None
        }
    }
}

} // verus!
