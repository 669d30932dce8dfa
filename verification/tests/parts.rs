use chip8::audio::{playback_command, PlayerCommand};
use chip8::display::{Display, BLACK, PIXEL_COUNT, WHITE};
use chip8::instruction::{decode, Instruction};
use chip8::memory::Memory;
use chip8::nibbles::{bit_at_index, nibbles_to_addr, nibbles_to_byte};
use chip8::registers::Registers;
use chip8::stack::Stack;

#[test]
fn nibbles_make_bytes_and_addresses() {
    assert_eq!(nibbles_to_byte(0xA, 0xB), 0xAB);
    assert_eq!(nibbles_to_byte(0x0, 0xF), 0x0F);
    assert_eq!(nibbles_to_addr(0x1, 0x2, 0x3), 0x123);
    assert_eq!(nibbles_to_addr(0xF, 0xF, 0xF), 0xFFF);
}

#[test]
fn bits_are_indexed_from_the_left() {
    assert!(bit_at_index(0b1000_0000, 0));
    assert!(!bit_at_index(0b1000_0000, 7));
    assert!(bit_at_index(0b0000_0001, 7));
    assert!(!bit_at_index(0b0000_0001, 0));
    assert!(bit_at_index(0b0010_0000, 2));
}

#[test]
fn decode_recognises_each_group() {
    assert_eq!(decode(0x00E0), Some(Instruction::ClearScreen));
    assert_eq!(decode(0x00EE), Some(Instruction::Return));
    assert_eq!(decode(0x1ABC), Some(Instruction::Jump { addr: 0xABC }));
    assert_eq!(decode(0x2345), Some(Instruction::Call { addr: 0x345 }));
    assert_eq!(decode(0x3A42), Some(Instruction::SkipIfEq { x: 0xA, byte: 0x42 }));
    assert_eq!(decode(0x4B07), Some(Instruction::SkipIfNotEq { x: 0xB, byte: 0x07 }));
    assert_eq!(decode(0x5120), Some(Instruction::SkipIfRegEq { x: 1, y: 2 }));
    assert_eq!(decode(0x6C99), Some(Instruction::LoadVxByte { x: 0xC, byte: 0x99 }));
    assert_eq!(decode(0x7D01), Some(Instruction::AddVxByte { x: 0xD, byte: 0x01 }));
    assert_eq!(decode(0x8AB0), Some(Instruction::LoadVxVy { x: 0xA, y: 0xB }));
    assert_eq!(decode(0x8AB1), Some(Instruction::OrVxVy { x: 0xA, y: 0xB }));
    assert_eq!(decode(0x8AB2), Some(Instruction::AndVxVy { x: 0xA, y: 0xB }));
    assert_eq!(decode(0x8AB3), Some(Instruction::XorVxVy { x: 0xA, y: 0xB }));
    assert_eq!(decode(0x8AB4), Some(Instruction::AddVxVy { x: 0xA, y: 0xB }));
    assert_eq!(decode(0x8AB5), Some(Instruction::SubVxVy { x: 0xA, y: 0xB }));
    assert_eq!(decode(0x8AB6), Some(Instruction::ShiftRight { x: 0xA }));
    assert_eq!(decode(0x8AB7), Some(Instruction::SubVyVx { x: 0xA, y: 0xB }));
    assert_eq!(decode(0x8ABE), Some(Instruction::ShiftLeft { x: 0xA }));
    assert_eq!(decode(0x9340), Some(Instruction::SkipIfRegNotEq { x: 3, y: 4 }));
    assert_eq!(decode(0xA2F0), Some(Instruction::LoadI { addr: 0x2F0 }));
    assert_eq!(decode(0xB123), Some(Instruction::JumpV0 { addr: 0x123 }));
    assert_eq!(decode(0xC1FF), Some(Instruction::Random { x: 1, byte: 0xFF }));
    assert_eq!(decode(0xD125), Some(Instruction::Draw { x: 1, y: 2, n: 5 }));
    assert_eq!(decode(0xE19E), Some(Instruction::SkipIfKey { x: 1 }));
    assert_eq!(decode(0xE1A1), Some(Instruction::SkipIfNotKey { x: 1 }));
    assert_eq!(decode(0xF107), Some(Instruction::LoadVxDelay { x: 1 }));
    assert_eq!(decode(0xF10A), Some(Instruction::WaitKey { x: 1 }));
    assert_eq!(decode(0xF115), Some(Instruction::LoadDelayVx { x: 1 }));
    assert_eq!(decode(0xF118), Some(Instruction::LoadSoundVx { x: 1 }));
    assert_eq!(decode(0xF11E), Some(Instruction::AddIVx { x: 1 }));
    assert_eq!(decode(0xF129), Some(Instruction::LoadFont { x: 1 }));
    assert_eq!(decode(0xF233), Some(Instruction::StoreBcd { x: 2 }));
    assert_eq!(decode(0xFE55), Some(Instruction::StoreRegs { x: 0xE }));
    assert_eq!(decode(0xF365), Some(Instruction::LoadRegs { x: 3 }));
}

#[test]
fn decode_rejects_unknown_opcodes() {
    assert_eq!(decode(0x0123), None);
    assert_eq!(decode(0x00E1), None);
    assert_eq!(decode(0x5121), None);
    assert_eq!(decode(0x8AB8), None);
    assert_eq!(decode(0x9341), None);
    assert_eq!(decode(0xE100), None);
    assert_eq!(decode(0xF1FF), None);
}

#[test]
fn new_memory_holds_the_font_and_zeros() {
    let mem = Memory::new();
    assert_eq!(mem.load_data(0x050, 5), &[0xF0, 0x90, 0x90, 0x90, 0xF0]);
    assert_eq!(mem.load_data(0x09B, 5), &[0xF0, 0x80, 0xF0, 0x80, 0x80]);
    assert_eq!(mem.load_data(0x04F, 1), &[0]);
    assert_eq!(mem.load_data(0x0A0, 1), &[0]);
    assert_eq!(mem.load_data(0x200, 4), &[0, 0, 0, 0]);
    assert_eq!(mem.load_data(0xFFF, 1), &[0]);
}

#[test]
fn memory_reads_back_what_was_written() {
    let mut mem = Memory::new();
    mem.store_data(0x300, &[1, 2, 3]);
    assert_eq!(mem.load_data(0x300, 3), &[1, 2, 3]);
    assert_eq!(mem.load_data(0x2FF, 5), &[0, 1, 2, 3, 0]);
    mem.store_data(0xFFE, &[7, 8]);
    assert_eq!(mem.load_data(0xFFE, 2), &[7, 8]);
    assert_eq!(mem.load_data(0x100, 0), &[] as &[u8]);
}

#[test]
fn stack_pops_in_reverse_order() {
    let mut stack = Stack::new();
    assert_eq!(stack.len(), 0);
    stack.push(0x200);
    stack.push(0x300);
    assert_eq!(stack.len(), 2);
    assert_eq!(stack.pop(), 0x300);
    assert_eq!(stack.pop(), 0x200);
    assert_eq!(stack.len(), 0);
}

#[test]
fn stack_holds_sixteen_addresses() {
    let mut stack = Stack::new();
    for k in 0..16u16 {
        stack.push(k);
    }
    assert_eq!(stack.len(), 16);
    for k in (0..16u16).rev() {
        assert_eq!(stack.pop(), k);
    }
}

#[test]
fn registers_read_back_what_was_set() {
    let mut regs = Registers::new();
    for x in 0..16u8 {
        assert_eq!(regs.get_v_register(x), 0);
    }
    regs.set_v_register(0x3, 0x42);
    regs.set_v_register(0xF, 0x01);
    assert_eq!(regs.get_v_register(0x3), 0x42);
    assert_eq!(regs.v3, 0x42);
    assert_eq!(regs.get_v_register(0xF), 0x01);
    assert_eq!(regs.vf, 0x01);
    assert_eq!(regs.get_v_register(0x4), 0);
    assert_eq!(regs.pc, 0);
    assert_eq!(regs.i, 0);
}

#[test]
fn draw_pixel_xors_and_reports_turning_off() {
    let mut display = Display::new();
    assert!(!display.draw_pixel(3, 2, true));
    assert!(!display.draw_pixel(3, 2, false));
    let buf = display.frame_buffer();
    assert_eq!(buf[2 * 64 + 3], WHITE);
    assert_eq!(buf[2 * 64 + 4], BLACK);
    assert!(display.draw_pixel(3, 2, true));
    assert_eq!(display.frame_buffer()[2 * 64 + 3], BLACK);
    assert!(!display.draw_pixel(63, 31, true));
    assert_eq!(display.frame_buffer()[PIXEL_COUNT - 1], WHITE);
}

#[test]
fn clear_turns_every_pixel_off() {
    let mut display = Display::new();
    display.draw_pixel(0, 0, true);
    display.draw_pixel(10, 20, true);
    display.clear();
    let buf = display.frame_buffer();
    assert_eq!(buf.len(), PIXEL_COUNT);
    assert!(buf.iter().all(|&c| c == BLACK));
}

#[test]
fn playback_follows_the_request() {
    assert_eq!(playback_command(true, true), PlayerCommand::Play);
    assert_eq!(playback_command(true, false), PlayerCommand::KeepPlaying);
    assert_eq!(playback_command(false, true), PlayerCommand::Pause);
    assert_eq!(playback_command(false, false), PlayerCommand::Pause);
}
