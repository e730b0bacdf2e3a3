use chip8::{ControlKey, Driver, MachineFault, Refresh, StepOutcome, CPU};

fn loaded() -> CPU {
    let mut cpu = CPU::new();
    // V1 = 7; V2 = 9
    cpu.load_rom(vec![0x61, 0x07, 0x62, 0x09]).unwrap();
    cpu
}

#[test]
fn driver_starts_paused() {
    assert_eq!(
        Driver::new(true),
        Driver { paused: true, manual_step_signal: false, debug: true }
    );
    assert!(!Driver::new(false).debug);
}

#[test]
fn paused_driver_does_not_step() {
    let mut driver = Driver::new(false);
    let mut cpu = loaded();
    let before = cpu.clone();
    assert_eq!(driver.cycle(&mut cpu, Vec::new()), None);
    assert_eq!(cpu, before);
    assert_eq!(driver, Driver::new(false));
}

#[test]
fn manual_step_runs_one_instruction_while_paused() {
    let mut driver = Driver::new(false);
    let mut cpu = loaded();
    assert_eq!(driver.handle_key(&mut cpu, ControlKey::ManualStep), Refresh::Nothing);
    assert!(driver.manual_step_signal);
    assert_eq!(
        driver.cycle(&mut cpu, Vec::new()),
        Some(Ok(StepOutcome { needs_render: false, address: 0x200, instruction: 0x6107 }))
    );
    assert_eq!(cpu.registers[1], 7);
    assert!(!driver.manual_step_signal);
    assert!(driver.paused);
    assert_eq!(driver.cycle(&mut cpu, Vec::new()), None);
    assert_eq!(cpu.registers[2], 0);
}

#[test]
fn manual_step_is_ignored_while_running() {
    let mut driver = Driver::new(false);
    let mut cpu = loaded();
    driver.handle_key(&mut cpu, ControlKey::TogglePause);
    assert_eq!(driver.handle_key(&mut cpu, ControlKey::ManualStep), Refresh::Nothing);
    assert!(!driver.manual_step_signal);
}

#[test]
fn toggle_pause_runs_and_pauses() {
    let mut driver = Driver::new(false);
    let mut cpu = loaded();
    assert_eq!(driver.handle_key(&mut cpu, ControlKey::TogglePause), Refresh::Redraw);
    assert!(!driver.paused);
    assert!(driver.cycle(&mut cpu, Vec::new()).is_some());
    assert!(driver.cycle(&mut cpu, Vec::new()).is_some());
    assert_eq!((cpu.registers[1], cpu.registers[2]), (7, 9));
    assert_eq!(driver.handle_key(&mut cpu, ControlKey::TogglePause), Refresh::Redraw);
    assert!(driver.paused);
    assert_eq!(driver.cycle(&mut cpu, Vec::new()), None);
}

#[test]
fn running_driver_reports_faults() {
    let mut driver = Driver::new(false);
    let mut cpu = CPU::new();
    driver.handle_key(&mut cpu, ControlKey::TogglePause);
    assert_eq!(
        driver.cycle(&mut cpu, Vec::new()),
        Some(Err(MachineFault::InvalidOpcode { instruction: 0, address: 0x200 }))
    );
}

#[test]
fn reset_key_resets_and_pauses() {
    let mut driver = Driver::new(true);
    let mut cpu = loaded();
    let start = cpu.clone();
    driver.handle_key(&mut cpu, ControlKey::TogglePause);
    driver.cycle(&mut cpu, Vec::new());
    assert_ne!(cpu, start);
    assert_eq!(driver.handle_key(&mut cpu, ControlKey::Reset), Refresh::Redraw);
    assert_eq!(cpu, start);
    assert_eq!(driver, Driver { paused: true, manual_step_signal: false, debug: true });
}

#[test]
fn toggle_debug_asks_for_resize() {
    let mut driver = Driver::new(false);
    let mut cpu = loaded();
    let before = cpu.clone();
    assert_eq!(driver.handle_key(&mut cpu, ControlKey::ToggleDebug), Refresh::ResizeAndRedraw);
    assert!(driver.debug);
    assert_eq!(driver.handle_key(&mut cpu, ControlKey::ToggleDebug), Refresh::ResizeAndRedraw);
    assert!(!driver.debug);
    assert_eq!(cpu, before);
}

#[test]
fn timers_stand_still_while_paused() {
    let driver = Driver::new(false);
    let mut cpu = loaded();
    cpu.delay_timer = 3;
    cpu.sound_timer = 3;
    assert!(!driver.update_timers(&mut cpu));
    assert_eq!((cpu.delay_timer, cpu.sound_timer), (3, 3));
}

#[test]
fn tone_plays_while_sound_timer_is_above_zero() {
    let mut driver = Driver::new(false);
    let mut cpu = loaded();
    driver.handle_key(&mut cpu, ControlKey::TogglePause);
    cpu.delay_timer = 1;
    cpu.sound_timer = 2;
    assert!(driver.update_timers(&mut cpu));
    assert_eq!((cpu.delay_timer, cpu.sound_timer), (0, 1));
    assert!(!driver.update_timers(&mut cpu));
    assert_eq!((cpu.delay_timer, cpu.sound_timer), (0, 0));
    assert!(!driver.update_timers(&mut cpu));
    assert_eq!((cpu.delay_timer, cpu.sound_timer), (0, 0));
}
