use chip8::instruction::Instruction;
use chip8::{
    decode, get_chip8_key_idx, Chip8Input, RomTooLarge, CPU, FONT_HEIGHT, FONT_START,
    MAX_STACK_SIZE, MEMORY_SIZE, ROM_START_ADDR, SCREEN_HEIGHT, SCREEN_WIDTH,
};

#[test]
fn constants() {
    assert_eq!(SCREEN_WIDTH, 64);
    assert_eq!(SCREEN_HEIGHT, 32);
    assert_eq!(MAX_STACK_SIZE, 12);
    assert_eq!(ROM_START_ADDR, 0x200);
    assert_eq!(MEMORY_SIZE, 0x1000);
    assert_eq!(FONT_HEIGHT, 5);
    assert_eq!(FONT_START, 0);
}

#[test]
fn new_machine_is_zeroed_with_font() {
    let cpu = CPU::new();
    assert_eq!(cpu.pc, 0x200);
    assert_eq!(cpu.sp, 0);
    assert_eq!(cpu.reg_i, 0);
    assert_eq!(cpu.delay_timer, 0);
    assert_eq!(cpu.sound_timer, 0);
    assert_eq!(cpu.rom_len, 0);
    assert!(cpu.registers.iter().all(|v| *v == 0));
    assert!(cpu.stack.iter().all(|v| *v == 0));
    assert!(cpu.pixels.iter().all(|p| !*p));
    assert_eq!(cpu.pixels.len(), 2048);
    assert_eq!(&cpu.memory[0..5], &[0xF0, 0x90, 0x90, 0x90, 0xF0]);
    assert_eq!(&cpu.memory[5..10], &[0x20, 0x60, 0x20, 0x20, 0x70]);
    assert_eq!(&cpu.memory[50..55], &[0xF0, 0x90, 0xF0, 0x90, 0x90]);
    assert_eq!(&cpu.memory[75..80], &[0xF0, 0x80, 0xF0, 0x80, 0x80]);
    assert!(cpu.memory[80..].iter().all(|b| *b == 0));
    assert!(cpu.is_well_formed());
}

#[test]
fn font_table_matches_fresh_memory() {
    let table = chip8::font::font_data();
    let memory = chip8::font::get_fresh_memory_with_font_data();
    assert_eq!(&memory[..80], &table[..]);
    assert_eq!(table[79], 0x80);
    assert_eq!(table[35], 0xF0);
    assert_eq!(table[39], 0x40);
}

#[test]
fn load_rom_copies_to_origin() {
    let mut cpu = CPU::new();
    cpu.memory[0x203] = 0x99;
    assert_eq!(cpu.load_rom(vec![0x12, 0x34, 0x56]), Ok(()));
    assert_eq!(&cpu.memory[0x200..0x204], &[0x12, 0x34, 0x56, 0x99]);
    assert_eq!(cpu.memory[0x1FF], 0);
    assert_eq!(cpu.rom_len, 3);
    assert_eq!(cpu.pc, 0x200);
    assert_eq!(&cpu.memory[0..5], &[0xF0, 0x90, 0x90, 0x90, 0xF0]);
}

#[test]
fn load_rom_of_full_size() {
    let mut cpu = CPU::new();
    let rom: Vec<u8> = (0..0xE00).map(|i| (i % 251) as u8 + 1).collect();
    assert_eq!(cpu.load_rom(rom.clone()), Ok(()));
    assert_eq!(&cpu.memory[0x200..], &rom[..]);
    assert_eq!(cpu.rom_len, 0xE00);
}

#[test]
fn load_rom_rejects_oversized_program() {
    let mut cpu = CPU::new();
    cpu.load_rom(vec![1, 2, 3]).unwrap();
    let before = cpu.clone();
    assert_eq!(cpu.load_rom(vec![0xAA; 0xE01]), Err(RomTooLarge { len: 0xE01 }));
    assert_eq!(cpu, before);
}

#[test]
fn load_empty_rom() {
    let mut cpu = CPU::new();
    let before = cpu.clone();
    assert_eq!(cpu.load_rom(Vec::new()), Ok(()));
    assert_eq!(cpu, before);
}

#[test]
fn reset_keeps_memory_and_zeroes_the_rest() {
    let mut cpu = CPU::new();
    cpu.load_rom(vec![0x61, 0x07, 0xA0, 0x05, 0x22, 0x08, 0x00, 0x00, 0xD0, 0x05]).unwrap();
    cpu.registers[4] = 9;
    for _ in 0..4 {
        cpu.step(Vec::new()).unwrap();
    }
    cpu.delay_timer = 5;
    cpu.sound_timer = 6;
    assert!(cpu.pixels.iter().any(|p| *p));
    let memory = cpu.memory;
    cpu.reset();
    assert_eq!(cpu.memory, memory);
    assert_eq!(cpu.rom_len, 10);
    assert_eq!(cpu.pc, 0x200);
    assert_eq!(cpu.sp, 0);
    assert_eq!(cpu.reg_i, 0);
    assert_eq!(cpu.delay_timer, 0);
    assert_eq!(cpu.sound_timer, 0);
    assert!(cpu.registers.iter().all(|v| *v == 0));
    assert!(cpu.stack.iter().all(|v| *v == 0));
    assert!(cpu.pixels.iter().all(|p| !*p));
}

#[test]
fn reset_then_rerun_replays_the_run() {
    // V1 = 3; I = glyph(V1); draw at (V2, V3); V2 += 9; V1 += V2; wait for a
    // key into V5; jump back to the draw
    let rom = vec![
        0x61, 0x03, 0xF1, 0x29, 0xD2, 0x35, 0x72, 0x09, 0x81, 0x24, 0xF5, 0x0A, 0x12, 0x04,
    ];
    let keys: Vec<Vec<usize>> = vec![vec![], vec![4], vec![], vec![], vec![2, 9]];
    let mut cpu = CPU::new();
    cpu.load_rom(rom).unwrap();
    let start = cpu.clone();

    let mut first = Vec::new();
    for round in 0..40 {
        cpu.step(keys[round % keys.len()].clone()).unwrap();
        if round % 3 == 0 {
            cpu.tick_timers();
        }
        first.push(cpu.clone());
    }
    assert_eq!(cpu.memory, start.memory);

    cpu.reset();
    assert_eq!(cpu, start);
    for round in 0..40 {
        cpu.step(keys[round % keys.len()].clone()).unwrap();
        if round % 3 == 0 {
            cpu.tick_timers();
        }
        assert_eq!(cpu, first[round]);
    }
}

#[test]
fn reset_does_not_undo_writes_to_memory() {
    // V0 = 1; I = 0x200; store V0 at I: the program overwrites its first byte
    let mut cpu = CPU::new();
    cpu.load_rom(vec![0x60, 0x01, 0xA2, 0x00, 0xF0, 0x55]).unwrap();
    let start = cpu.clone();
    for _ in 0..3 {
        cpu.step(Vec::new()).unwrap();
    }
    assert_eq!(cpu.memory[0x200], 0x01);
    cpu.reset();
    assert_ne!(cpu, start);
    let mut expected = start.clone();
    expected.memory[0x200] = 0x01;
    assert_eq!(cpu, expected);
    assert_eq!(
        cpu.step(Vec::new()),
        Err(chip8::MachineFault::InvalidOpcode { instruction: 0x0101, address: 0x200 })
    );
}

#[test]
fn tick_timers_counts_down_to_zero() {
    let mut cpu = CPU::new();
    cpu.delay_timer = 2;
    cpu.sound_timer = 1;
    cpu.tick_timers();
    assert_eq!((cpu.delay_timer, cpu.sound_timer), (1, 0));
    cpu.tick_timers();
    assert_eq!((cpu.delay_timer, cpu.sound_timer), (0, 0));
    cpu.tick_timers();
    assert_eq!((cpu.delay_timer, cpu.sound_timer), (0, 0));
}

#[test]
fn tick_timers_at_zero_changes_nothing() {
    let mut cpu = CPU::new();
    cpu.load_rom(vec![1, 2, 3]).unwrap();
    let before = cpu.clone();
    cpu.tick_timers();
    cpu.tick_timers();
    assert_eq!(cpu, before);
}

#[test]
fn tick_timers_from_the_top() {
    let mut cpu = CPU::new();
    cpu.delay_timer = 255;
    cpu.sound_timer = 255;
    cpu.tick_timers();
    assert_eq!((cpu.delay_timer, cpu.sound_timer), (254, 254));
}

#[test]
fn key_indices() {
    let keys = [
        Chip8Input::Num0,
        Chip8Input::Num1,
        Chip8Input::Num2,
        Chip8Input::Num3,
        Chip8Input::Num4,
        Chip8Input::Num5,
        Chip8Input::Num6,
        Chip8Input::Num7,
        Chip8Input::Num8,
        Chip8Input::Num9,
        Chip8Input::A,
        Chip8Input::B,
        Chip8Input::C,
        Chip8Input::D,
        Chip8Input::E,
        Chip8Input::F,
    ];
    for (idx, key) in keys.iter().enumerate() {
        assert_eq!(get_chip8_key_idx(key), idx);
    }
}

#[test]
fn is_well_formed_checks_each_bound() {
    let cpu = CPU::new();
    let mut bad = cpu.clone();
    bad.sp = 13;
    assert!(!bad.is_well_formed());
    let mut bad = cpu.clone();
    bad.reg_i = 0x1000;
    assert!(!bad.is_well_formed());
    let mut bad = cpu.clone();
    bad.stack[11] = 0x1000;
    assert!(!bad.is_well_formed());
    let mut bad = cpu.clone();
    bad.rom_len = 0xE01;
    assert!(!bad.is_well_formed());
    let mut good = cpu.clone();
    good.sp = 12;
    good.reg_i = 0xFFF;
    good.stack[11] = 0xFFF;
    good.rom_len = 0xE00;
    good.pc = usize::MAX;
    assert!(good.is_well_formed());
}

#[test]
fn decode_fields() {
    assert_eq!(decode(0x00E0), Some(Instruction::ClearScreen));
    assert_eq!(decode(0x00EE), Some(Instruction::Return));
    assert_eq!(decode(0x0123), None);
    assert_eq!(decode(0x1ABC), Some(Instruction::Jump { addr: 0xABC }));
    assert_eq!(decode(0x2FFC), Some(Instruction::Call { addr: 0xFFC }));
    assert_eq!(decode(0x3A12), Some(Instruction::SkipIfEqual { x: 0xA, value: 0x12 }));
    assert_eq!(decode(0x4B34), Some(Instruction::SkipIfNotEqual { x: 0xB, value: 0x34 }));
    assert_eq!(decode(0x5120), Some(Instruction::SkipIfRegistersEqual { x: 1, y: 2 }));
    assert_eq!(decode(0x6C56), Some(Instruction::LoadImmediate { x: 0xC, value: 0x56 }));
    assert_eq!(decode(0x7D78), Some(Instruction::AddImmediate { x: 0xD, value: 0x78 }));
    assert_eq!(decode(0x8120), Some(Instruction::Move { x: 1, y: 2 }));
    assert_eq!(decode(0x8341), Some(Instruction::Or { x: 3, y: 4 }));
    assert_eq!(decode(0x8562), Some(Instruction::And { x: 5, y: 6 }));
    assert_eq!(decode(0x8783), Some(Instruction::Xor { x: 7, y: 8 }));
    assert_eq!(decode(0x89A4), Some(Instruction::Add { x: 9, y: 0xA }));
    assert_eq!(decode(0x8BC5), Some(Instruction::Subtract { x: 0xB, y: 0xC }));
    assert_eq!(decode(0x8DE6), Some(Instruction::ShiftRight { x: 0xD }));
    assert_eq!(decode(0x8F07), Some(Instruction::SubtractFrom { x: 0xF, y: 0 }));
    assert_eq!(decode(0x812E), Some(Instruction::ShiftLeft { x: 1 }));
    assert_eq!(decode(0x8128), None);
    assert_eq!(decode(0x9120), Some(Instruction::SkipIfRegistersDiffer { x: 1, y: 2 }));
    assert_eq!(decode(0xA123), Some(Instruction::LoadIndex { addr: 0x123 }));
    assert_eq!(decode(0xB456), Some(Instruction::JumpOffset { addr: 0x456 }));
    assert_eq!(decode(0xC7F0), Some(Instruction::Random { x: 7, value: 0xF0 }));
    assert_eq!(decode(0xD125), Some(Instruction::Draw { x: 1, y: 2, rows: 5 }));
    assert_eq!(decode(0xE29E), Some(Instruction::SkipIfKeyPressed { x: 2 }));
    assert_eq!(decode(0xE3A1), Some(Instruction::SkipIfKeyNotPressed { x: 3 }));
    assert_eq!(decode(0xE300), None);
    assert_eq!(decode(0xF407), Some(Instruction::ReadDelayTimer { x: 4 }));
    assert_eq!(decode(0xF50A), Some(Instruction::WaitForKey { x: 5 }));
    assert_eq!(decode(0xF615), Some(Instruction::SetDelayTimer { x: 6 }));
    assert_eq!(decode(0xF718), Some(Instruction::SetSoundTimer { x: 7 }));
    assert_eq!(decode(0xF81E), Some(Instruction::AddToIndex { x: 8 }));
    assert_eq!(decode(0xF929), Some(Instruction::LoadGlyphAddress { x: 9 }));
    assert_eq!(decode(0xFA33), Some(Instruction::StoreDecimal { x: 0xA }));
    assert_eq!(decode(0xFB55), Some(Instruction::StoreRegisters { x: 0xB }));
    assert_eq!(decode(0xFC65), Some(Instruction::LoadRegisters { x: 0xC }));
    assert_eq!(decode(0xFC66), None);
}

#[test]
fn decode_zero_group_goes_by_the_low_byte() {
    assert_eq!(decode(0x0AE0), Some(Instruction::ClearScreen));
    assert_eq!(decode(0x0FEE), Some(Instruction::Return));
}

#[test]
fn dump_memory_of_empty_program() {
    let cpu = CPU::new();
    assert_eq!(cpu.dump_memory(), "---- CHIP-8 MEMORY ----\n");
}

#[test]
fn dump_memory_shows_the_program_and_no_more() {
    let mut cpu = CPU::new();
    cpu.load_rom(vec![0xAB, 0xCD]).unwrap();
    let before = cpu.clone();
    assert_eq!(cpu.dump_memory(), "---- CHIP-8 MEMORY ----\n0x0200 :: abcd \n");
    assert_eq!(cpu, before);
}

#[test]
fn dump_memory_of_one_byte() {
    let mut cpu = CPU::new();
    cpu.load_rom(vec![0x07]).unwrap();
    assert_eq!(cpu.dump_memory(), "---- CHIP-8 MEMORY ----\n0x0200 :: 07\n");
}

#[test]
fn dump_memory_groups_bytes_in_pairs() {
    let mut cpu = CPU::new();
    cpu.load_rom(vec![0x12, 0xAB, 0xCD, 0x0F]).unwrap();
    assert_eq!(
        cpu.dump_memory(),
        "---- CHIP-8 MEMORY ----\n0x0200 :: 12ab cd0f \n"
    );
}

#[test]
fn dump_memory_starts_a_line_every_sixteen_bytes() {
    let mut cpu = CPU::new();
    cpu.load_rom((1..=17).collect()).unwrap();
    assert_eq!(
        cpu.dump_memory(),
        "---- CHIP-8 MEMORY ----\n\
         0x0200 :: 0102 0304 0506 0708 090a 0b0c 0d0e 0f10 \n\
         0x0210 :: 11\n"
    );
}

#[test]
fn dump_memory_shows_memory_as_it_stands() {
    // the bytes shown are those in memory, also where the program has
    // written over itself
    let mut cpu = CPU::new();
    cpu.load_rom(vec![0x60, 0x01, 0xA2, 0x00, 0xF0, 0x55]).unwrap();
    for _ in 0..3 {
        cpu.step(Vec::new()).unwrap();
    }
    assert_eq!(cpu.dump_memory(), "---- CHIP-8 MEMORY ----\n0x0200 :: 0101 a200 f055 \n");
}

#[test]
fn dump_memory_of_full_program_ends_with_memory() {
    let mut cpu = CPU::new();
    cpu.load_rom(vec![0xFF; 0xE00]).unwrap();
    let dump = cpu.dump_memory();
    assert!(dump.ends_with("\n0x0ff0 :: ffff ffff ffff ffff ffff ffff ffff ffff \n"));
    assert_eq!(dump.matches("ff").count() - dump.matches("0x0ff0").count(), 0xE00);
    assert_eq!(dump.matches("0x0").count(), 0xE00 / 16);
}
