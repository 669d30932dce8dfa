use chip8::cpu::{CPU, INSTRUCTIONS_PER_FRAME, PROGRAM_START};
use chip8::display::{BLACK, WHITE};
use chip8::instruction::Instruction;

fn machine(program: &[u8]) -> CPU {
    let mut cpu = CPU::new();
    cpu.load_program(program);
    cpu
}

fn step(cpu: &mut CPU, n: usize) {
    for _ in 0..n {
        assert!(cpu.can_cycle());
        cpu.cycle();
    }
}

fn v(cpu: &CPU, x: u8) -> u8 {
    cpu.registers.get_v_register(x)
}

fn pixel(cpu: &CPU, x: usize, y: usize) -> bool {
    cpu.display.frame_buffer()[y * 64 + x] == WHITE
}

#[test]
fn new_machine_is_blank() {
    let cpu = CPU::new();
    assert_eq!(cpu.registers.pc, 0);
    assert_eq!(cpu.registers.sp, 0);
    assert_eq!(cpu.registers.i, 0);
    assert_eq!(cpu.stack.len(), 0);
    assert!(cpu.display.frame_buffer().iter().all(|&c| c == BLACK));
    assert_eq!(cpu.memory.load_data(0x050, 1), &[0xF0]);
}

#[test]
fn load_program_places_code_at_0x200() {
    let cpu = machine(&[0x12, 0x34, 0x56]);
    assert_eq!(cpu.registers.pc, PROGRAM_START);
    assert_eq!(cpu.memory.load_data(0x200, 3), &[0x12, 0x34, 0x56]);
}

#[test]
fn fetch_reads_big_endian_and_advances() {
    let mut cpu = machine(&[0x12, 0x34, 0xAB, 0xCD]);
    assert_eq!(cpu.fetch(), 0x1234);
    assert_eq!(cpu.registers.pc, 0x202);
    assert_eq!(cpu.fetch(), 0xABCD);
    assert_eq!(cpu.registers.pc, 0x204);
}

#[test]
fn load_and_add_byte_wraps_without_flag() {
    // LD V1, 0xFE; ADD V1, 0x03
    let mut cpu = machine(&[0x61, 0xFE, 0x71, 0x03]);
    step(&mut cpu, 2);
    assert_eq!(v(&cpu, 1), 0x01);
    assert_eq!(v(&cpu, 0xF), 0);
}

#[test]
fn add_registers_sets_carry() {
    // LD V0, 0xFF; LD V1, 0x02; ADD V0, V1
    let mut cpu = machine(&[0x60, 0xFF, 0x61, 0x02, 0x80, 0x14]);
    step(&mut cpu, 3);
    assert_eq!(v(&cpu, 0), 0x01);
    assert_eq!(v(&cpu, 0xF), 1);
}

#[test]
fn add_registers_without_carry_clears_flag() {
    // LD VF, 0x05; LD V0, 0x10; LD V1, 0x20; ADD V0, V1
    let mut cpu = machine(&[0x6F, 0x05, 0x60, 0x10, 0x61, 0x20, 0x80, 0x14]);
    step(&mut cpu, 4);
    assert_eq!(v(&cpu, 0), 0x30);
    assert_eq!(v(&cpu, 0xF), 0);
}

#[test]
fn sub_sets_flag_only_when_greater() {
    // LD V0, 5; LD V1, 3; SUB V0, V1
    let mut cpu = machine(&[0x60, 0x05, 0x61, 0x03, 0x80, 0x15]);
    step(&mut cpu, 3);
    assert_eq!(v(&cpu, 0), 2);
    assert_eq!(v(&cpu, 0xF), 1);
    // LD V0, 3; LD V1, 5; SUB V0, V1
    let mut cpu = machine(&[0x60, 0x03, 0x61, 0x05, 0x80, 0x15]);
    step(&mut cpu, 3);
    assert_eq!(v(&cpu, 0), 0xFE);
    assert_eq!(v(&cpu, 0xF), 0);
    // Equal operands: the result is 0 and the flag is 0.
    let mut cpu = machine(&[0x60, 0x07, 0x61, 0x07, 0x80, 0x15]);
    step(&mut cpu, 3);
    assert_eq!(v(&cpu, 0), 0);
    assert_eq!(v(&cpu, 0xF), 0);
}

#[test]
fn subn_subtracts_the_other_way() {
    // LD V0, 3; LD V1, 5; SUBN V0, V1
    let mut cpu = machine(&[0x60, 0x03, 0x61, 0x05, 0x80, 0x17]);
    step(&mut cpu, 3);
    assert_eq!(v(&cpu, 0), 2);
    assert_eq!(v(&cpu, 0xF), 1);
    // LD V0, 5; LD V1, 3; SUBN V0, V1
    let mut cpu = machine(&[0x60, 0x05, 0x61, 0x03, 0x80, 0x17]);
    step(&mut cpu, 3);
    assert_eq!(v(&cpu, 0), 0xFE);
    assert_eq!(v(&cpu, 0xF), 0);
}

#[test]
fn shifts_keep_the_bit_shifted_out() {
    // LD V2, 0b1000_0011; SHR V2
    let mut cpu = machine(&[0x62, 0x83, 0x82, 0x06]);
    step(&mut cpu, 2);
    assert_eq!(v(&cpu, 2), 0x41);
    assert_eq!(v(&cpu, 0xF), 1);
    // LD V2, 0b1000_0010; SHL V2
    let mut cpu = machine(&[0x62, 0x82, 0x82, 0x0E]);
    step(&mut cpu, 2);
    assert_eq!(v(&cpu, 2), 0x04);
    assert_eq!(v(&cpu, 0xF), 1);
    // LD V2, 0b0100_0010; SHL V2; then SHR V2 of an even value
    let mut cpu = machine(&[0x62, 0x42, 0x82, 0x0E, 0x82, 0x06]);
    step(&mut cpu, 2);
    assert_eq!(v(&cpu, 2), 0x84);
    assert_eq!(v(&cpu, 0xF), 0);
    step(&mut cpu, 1);
    assert_eq!(v(&cpu, 2), 0x42);
    assert_eq!(v(&cpu, 0xF), 0);
}

#[test]
fn logic_operations() {
    // LD V0, 0b1100; LD V1, 0b1010; LD V2, V0; OR V2, V1; LD V3, V0; AND V3, V1; LD V4, V0; XOR V4, V1
    let mut cpu = machine(&[
        0x60, 0x0C, 0x61, 0x0A, 0x82, 0x00, 0x82, 0x11, 0x83, 0x00, 0x83, 0x12, 0x84, 0x00, 0x84,
        0x13,
    ]);
    step(&mut cpu, 8);
    assert_eq!(v(&cpu, 2), 0x0E);
    assert_eq!(v(&cpu, 3), 0x08);
    assert_eq!(v(&cpu, 4), 0x06);
}

#[test]
fn skips_move_past_one_instruction() {
    // LD V0, 7; SE V0, 7 (skips); ...
    let mut cpu = machine(&[0x60, 0x07, 0x30, 0x07]);
    step(&mut cpu, 2);
    assert_eq!(cpu.registers.pc, 0x206);
    // SE V0, 8 does not skip
    let mut cpu = machine(&[0x60, 0x07, 0x30, 0x08]);
    step(&mut cpu, 2);
    assert_eq!(cpu.registers.pc, 0x204);
    // SNE V0, 8 skips
    let mut cpu = machine(&[0x60, 0x07, 0x40, 0x08]);
    step(&mut cpu, 2);
    assert_eq!(cpu.registers.pc, 0x206);
    // SE V0, V1 with V0 == V1 == 0 skips; SNE V0, V1 does not
    let mut cpu = machine(&[0x50, 0x10]);
    step(&mut cpu, 1);
    assert_eq!(cpu.registers.pc, 0x204);
    let mut cpu = machine(&[0x90, 0x10]);
    step(&mut cpu, 1);
    assert_eq!(cpu.registers.pc, 0x202);
}

#[test]
fn jump_sets_the_program_counter() {
    let mut cpu = machine(&[0x13, 0x45]);
    step(&mut cpu, 1);
    assert_eq!(cpu.registers.pc, 0x345);
}

#[test]
fn return_undoes_call() {
    // 0x200: CALL 0x206; 0x202: LD V5, 1; 0x204: JP 0x204; 0x206: RET
    let mut cpu = machine(&[0x22, 0x06, 0x65, 0x01, 0x12, 0x04, 0x00, 0xEE]);
    step(&mut cpu, 1);
    assert_eq!(cpu.registers.pc, 0x206);
    assert_eq!(cpu.registers.sp, 1);
    assert_eq!(cpu.stack.len(), 1);
    step(&mut cpu, 1);
    assert_eq!(cpu.registers.pc, 0x202);
    assert_eq!(cpu.registers.sp, 0);
    assert_eq!(cpu.stack.len(), 0);
    step(&mut cpu, 1);
    assert_eq!(v(&cpu, 5), 1);
}

#[test]
fn return_on_empty_stack_cannot_run() {
    let cpu = machine(&[0x00, 0xEE]);
    assert!(!cpu.can_cycle());
    assert!(!cpu.can_execute(Instruction::Return));
}

#[test]
fn seventeenth_nested_call_cannot_run() {
    // 0x200: CALL 0x200, forever.
    let mut cpu = machine(&[0x22, 0x00]);
    step(&mut cpu, 16);
    assert_eq!(cpu.stack.len(), 16);
    assert!(!cpu.can_cycle());
}

#[test]
fn index_register_operations() {
    // LD I, 0x300; LD V1, 0x10; ADD I, V1
    let mut cpu = machine(&[0xA3, 0x00, 0x61, 0x10, 0xF1, 0x1E]);
    step(&mut cpu, 3);
    assert_eq!(cpu.registers.i, 0x310);
}

#[test]
fn bcd_spells_the_value() {
    // LD V3, 254; LD I, 0x300; LD B, V3
    let mut cpu = machine(&[0x63, 0xFE, 0xA3, 0x00, 0xF3, 0x33]);
    step(&mut cpu, 3);
    assert_eq!(cpu.memory.load_data(0x300, 3), &[2, 5, 4]);
    // LD V3, 7; LD I, 0x300; LD B, V3
    let mut cpu = machine(&[0x63, 0x07, 0xA3, 0x00, 0xF3, 0x33]);
    step(&mut cpu, 3);
    assert_eq!(cpu.memory.load_data(0x300, 3), &[0, 0, 7]);
}

#[test]
fn registers_round_trip_through_memory() {
    // LD V0, 1; LD V1, 2; LD V2, 3; LD I, 0x300; LD [I], V2; LD V0, 9; LD V1, 9; LD V2, 9; LD V2, [I]
    let mut cpu = machine(&[
        0x60, 0x01, 0x61, 0x02, 0x62, 0x03, 0xA3, 0x00, 0xF2, 0x55, 0x60, 0x09, 0x61, 0x09, 0x62,
        0x09, 0xF2, 0x65,
    ]);
    step(&mut cpu, 5);
    assert_eq!(cpu.memory.load_data(0x300, 4), &[1, 2, 3, 0]);
    step(&mut cpu, 4);
    assert_eq!(v(&cpu, 0), 1);
    assert_eq!(v(&cpu, 1), 2);
    assert_eq!(v(&cpu, 2), 3);
    assert_eq!(v(&cpu, 3), 0);
}

#[test]
fn draw_font_digit_zero() {
    // LD I, 0x050; DRW V0, V1, 5
    let mut cpu = machine(&[0xA0, 0x50, 0xD0, 0x15]);
    step(&mut cpu, 2);
    // Row 0 is 0xF0: four pixels on.
    assert!(pixel(&cpu, 0, 0) && pixel(&cpu, 3, 0) && !pixel(&cpu, 4, 0));
    // Row 1 is 0x90: pixels 0 and 3 on.
    assert!(pixel(&cpu, 0, 1) && !pixel(&cpu, 1, 1) && pixel(&cpu, 3, 1));
    assert!(!pixel(&cpu, 0, 5));
    assert_eq!(v(&cpu, 0xF), 0);
}

#[test]
fn drawing_twice_restores_the_display() {
    // LD I, 0x050; LD V0, 10; LD V1, 5; DRW V0, V1, 5; DRW V0, V1, 5
    let mut cpu = machine(&[0xA0, 0x50, 0x60, 0x0A, 0x61, 0x05, 0xD0, 0x15, 0xD0, 0x15]);
    step(&mut cpu, 4);
    assert!(pixel(&cpu, 10, 5));
    assert_eq!(v(&cpu, 0xF), 0);
    step(&mut cpu, 1);
    assert!(cpu.display.frame_buffer().iter().all(|&c| c == BLACK));
    assert_eq!(v(&cpu, 0xF), 1);
}

#[test]
fn draw_clips_at_the_edges() {
    // LD I, 0x300; LD V0, 60; LD V1, 30; DRW V0, V1, 4 with four 0xFF rows
    let mut cpu = machine(&[0xA3, 0x00, 0x60, 0x3C, 0x61, 0x1E, 0xD0, 0x14]);
    cpu.memory.store_data(0x300, &[0xFF, 0xFF, 0xFF, 0xFF]);
    step(&mut cpu, 4);
    let on = cpu.display.frame_buffer().iter().filter(|&&c| c == WHITE).count();
    // Four columns (60..63) by two rows (30, 31).
    assert_eq!(on, 8);
    assert!(pixel(&cpu, 63, 31));
    assert!(!pixel(&cpu, 0, 0));
}

#[test]
fn draw_wraps_the_start_position() {
    // LD I, 0x050; LD V0, 70; LD V1, 33; DRW V0, V1, 1 draws at (6, 1)
    let mut cpu = machine(&[0xA0, 0x50, 0x60, 0x46, 0x61, 0x21, 0xD0, 0x11]);
    step(&mut cpu, 4);
    assert!(pixel(&cpu, 6, 1) && pixel(&cpu, 9, 1) && !pixel(&cpu, 10, 1));
}

#[test]
fn clear_screen_instruction() {
    // LD I, 0x050; DRW V0, V1, 5; CLS
    let mut cpu = machine(&[0xA0, 0x50, 0xD0, 0x15, 0x00, 0xE0]);
    step(&mut cpu, 3);
    assert!(cpu.display.frame_buffer().iter().all(|&c| c == BLACK));
}

#[test]
fn unknown_and_unsupported_opcodes_cannot_run() {
    let cpu = machine(&[0x01, 0x23]);
    assert!(!cpu.can_cycle());
    let cpu = machine(&[0xC0, 0xFF]);
    assert!(!cpu.can_cycle());
    assert!(!cpu.can_execute(Instruction::Random { x: 0, byte: 0xFF }));
}

#[test]
fn decode_and_execute_runs_one_instruction() {
    let mut cpu = CPU::new();
    cpu.decode_and_execute(0x6A2B);
    assert_eq!(v(&cpu, 0xA), 0x2B);
    cpu.execute(Instruction::AddVxByte { x: 0xA, byte: 1 });
    assert_eq!(v(&cpu, 0xA), 0x2C);
}

#[test]
fn run_frame_runs_a_full_frame() {
    // JP 0x200 forever.
    let mut cpu = machine(&[0x12, 0x00]);
    assert_eq!(cpu.run_frame(), INSTRUCTIONS_PER_FRAME);
    assert_eq!(INSTRUCTIONS_PER_FRAME, 11);
    assert_eq!(cpu.registers.pc, 0x200);
}

#[test]
fn run_frame_stops_before_a_failing_cycle() {
    // LD V0, 1; ADD V0, 1; then 0x0000, which is not an instruction.
    let mut cpu = machine(&[0x60, 0x01, 0x70, 0x01]);
    assert_eq!(cpu.run_frame(), 2);
    assert_eq!(v(&cpu, 0), 2);
    assert_eq!(cpu.registers.pc, 0x204);
}

#[test]
fn fetch_at_the_end_of_memory_cannot_run() {
    let mut cpu = CPU::new();
    cpu.jump(0xFFF);
    assert!(!cpu.can_cycle());
}
