use chip8::CPU;

fn lit(cpu: &CPU) -> Vec<(usize, usize)> {
    let mut cells = Vec::new();
    for (idx, pixel) in cpu.pixels.iter().enumerate() {
        if *pixel {
            cells.push((idx % 64, idx / 64));
        }
    }
    cells
}

fn drawing_machine(word: u16) -> CPU {
    let mut cpu = CPU::new();
    cpu.load_rom(vec![(word >> 8) as u8, (word & 0xFF) as u8, 0x12, 0x00]).unwrap();
    cpu
}

#[test]
fn draw_glyph_zero_at_origin() {
    let mut cpu = drawing_machine(0xD015);
    let outcome = cpu.step(Vec::new()).unwrap();
    assert!(outcome.needs_render);
    assert_eq!(outcome.address, 0x200);
    assert_eq!(outcome.instruction, 0xD015);
    // 0xF0, 0x90, 0x90, 0x90, 0xF0
    assert_eq!(
        lit(&cpu),
        vec![
            (0, 0), (1, 0), (2, 0), (3, 0),
            (0, 1), (3, 1),
            (0, 2), (3, 2),
            (0, 3), (3, 3),
            (0, 4), (1, 4), (2, 4), (3, 4),
        ]
    );
    assert_eq!(cpu.registers[0xF], 0);
    assert_eq!(cpu.pc, 0x202);
}

#[test]
fn draw_twice_erases_and_reports_collision() {
    let mut cpu = drawing_machine(0xD015);
    cpu.registers[0xF] = 7;
    cpu.step(Vec::new()).unwrap();
    assert_eq!(cpu.registers[0xF], 0);
    cpu.step(Vec::new()).unwrap();
    let outcome = cpu.step(Vec::new()).unwrap();
    assert!(outcome.needs_render);
    assert!(lit(&cpu).is_empty());
    assert_eq!(cpu.registers[0xF], 1);
}

#[test]
fn draw_at_position() {
    let mut cpu = drawing_machine(0xD122);
    cpu.reg_i = 5; // glyph 1: 0x20, 0x60
    cpu.registers[1] = 10;
    cpu.registers[2] = 20;
    cpu.step(Vec::new()).unwrap();
    assert_eq!(lit(&cpu), vec![(12, 20), (11, 21), (12, 21)]);
    assert_eq!(cpu.registers[0xF], 0);
}

#[test]
fn draw_over_lit_pixel_without_overlap_of_set_bits_does_not_collide() {
    let mut cpu = drawing_machine(0xD121);
    cpu.reg_i = 5; // 0x20: only column 2 is set
    cpu.registers[1] = 10;
    cpu.registers[2] = 20;
    cpu.pixels[20 * 64 + 10] = true;
    cpu.step(Vec::new()).unwrap();
    assert_eq!(lit(&cpu), vec![(10, 20), (12, 20)]);
    assert_eq!(cpu.registers[0xF], 0);
}

#[test]
fn draw_collision_on_single_pixel() {
    let mut cpu = drawing_machine(0xD121);
    cpu.reg_i = 5;
    cpu.registers[1] = 10;
    cpu.registers[2] = 20;
    cpu.pixels[20 * 64 + 12] = true;
    cpu.step(Vec::new()).unwrap();
    assert!(lit(&cpu).is_empty());
    assert_eq!(cpu.registers[0xF], 1);
}

#[test]
fn draw_wraps_at_the_right_edge() {
    let mut cpu = drawing_machine(0xD121);
    cpu.reg_i = 0; // 0xF0
    cpu.registers[1] = 62;
    cpu.registers[2] = 3;
    cpu.step(Vec::new()).unwrap();
    assert_eq!(lit(&cpu), vec![(0, 3), (1, 3), (62, 3), (63, 3)]);
}

#[test]
fn draw_wraps_at_the_bottom_edge() {
    let mut cpu = drawing_machine(0xD123);
    cpu.reg_i = 5; // 0x20, 0x60, 0x20
    cpu.registers[1] = 0;
    cpu.registers[2] = 31;
    cpu.step(Vec::new()).unwrap();
    assert_eq!(lit(&cpu), vec![(1, 0), (2, 0), (2, 1), (2, 31)]);
}

#[test]
fn draw_wraps_large_coordinates() {
    let mut cpu = drawing_machine(0xD121);
    cpu.reg_i = 5;
    cpu.registers[1] = 64 * 3 + 5;
    cpu.registers[2] = 32 * 7 + 9;
    cpu.step(Vec::new()).unwrap();
    assert_eq!(lit(&cpu), vec![(7, 9)]);
}

#[test]
fn draw_no_rows_clears_the_flag_and_asks_for_render() {
    let mut cpu = drawing_machine(0xD120);
    cpu.registers[0xF] = 1;
    cpu.pixels[5] = true;
    let outcome = cpu.step(Vec::new()).unwrap();
    assert!(outcome.needs_render);
    assert_eq!(lit(&cpu), vec![(5, 0)]);
    assert_eq!(cpu.registers[0xF], 0);
}

#[test]
fn draw_fifteen_rows_from_the_end_of_memory() {
    let mut cpu = drawing_machine(0xD12F);
    cpu.reg_i = 0x1000 - 15;
    for k in 0..15 {
        cpu.memory[0x1000 - 15 + k] = 0x80;
    }
    cpu.step(Vec::new()).unwrap();
    let expected: Vec<(usize, usize)> = (0..15).map(|row| (0, row)).collect();
    assert_eq!(lit(&cpu), expected);
}

#[test]
fn draw_with_flag_register_as_coordinate() {
    // DF21: x is read from VF before the flag is written
    let mut cpu = drawing_machine(0xDF21);
    cpu.reg_i = 5;
    cpu.registers[0xF] = 4;
    cpu.registers[2] = 1;
    cpu.step(Vec::new()).unwrap();
    assert_eq!(lit(&cpu), vec![(6, 1)]);
    assert_eq!(cpu.registers[0xF], 0);
}

#[test]
fn only_draw_asks_for_render() {
    let mut cpu = CPU::new();
    cpu.load_rom(vec![0x00, 0xE0, 0x61, 0x01, 0xA0, 0x00, 0xD0, 0x05]).unwrap();
    let flags: Vec<bool> =
        (0..4).map(|_| cpu.step(Vec::new()).unwrap().needs_render).collect();
    assert_eq!(flags, vec![false, false, false, true]);
}
