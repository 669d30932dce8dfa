use vstd::prelude::*;
use crate::display::{Display, lemma_display_len, HEIGHT, PIXEL_COUNT, WIDTH};
use crate::instruction::{Instruction, Opcode, decode, spec_decode};
use crate::memory::{Memory, lemma_memory_len, initial_memory, write_bytes, MEMORY_SIZE};
use crate::nibbles::bit_at_index;
use crate::registers::Registers;
use crate::stack::{Stack, STACK_DEPTH};
use crate::state::{
    CpuState,
    bcd_digits,
    xor_sprite_area,
    sprite_collides,
    lemma_area_step,
    lemma_area_row_done,
    lemma_area_done,
};

verus! {

broadcast use {lemma_memory_len, lemma_display_len};

/// Address at which programs are loaded: by convention the interpreter's own code lived
/// from 0x000 to 0x1FF, and programs start after it.
pub const PROGRAM_START: u16 = 0x200;

/// Instructions executed per second; tune per program if needed.
pub const INSTRUCTIONS_PER_SECOND: usize = 700;

/// Frames drawn per second.
pub const FRAMES_PER_SECOND: usize = 60;

/// Instructions executed between two frames.
pub const INSTRUCTIONS_PER_FRAME: usize = INSTRUCTIONS_PER_SECOND / FRAMES_PER_SECOND;

/// `u16::from_be_bytes`: the value whose big-endian representation is `bytes`.
#[verifier::external_body]
fn u16_from_be_bytes(bytes: [u8; 2]) -> (value: u16)
    ensures
        value == bytes@[0] * 256 + bytes@[1],
{
    u16::from_be_bytes(bytes)
}

/// `u8::overflowing_add`: the wrapped sum, and whether the sum overflowed.
#[verifier::external_body]
fn u8_overflowing_add(a: u8, b: u8) -> (res: (u8, bool))
    ensures
        res.0 == (a + b) % 256,
        res.1 == (a + b > u8::MAX),
{
    a.overflowing_add(b)
}

/// A CHIP-8 machine: registers, memory, call stack and display.
pub struct CPU {
    pub registers: Registers,
    pub memory: Memory,
    pub stack: Stack,
    pub display: Display,
}

impl View for CPU {
    type V = CpuState;

    open spec fn view(&self) -> CpuState {
        CpuState {
            v: self.registers.v_regs(),
            i: self.registers.i,
            pc: self.registers.pc,
            sp: self.registers.sp,
            dt: self.registers.dt,
            st: self.registers.st,
            memory: self.memory@,
            stack: self.stack@,
            pixels: self.display@,
        }
    }
}

impl CPU {
    /// A machine after power-on: registers zeroed, the font in memory, an empty stack and a
    /// blank display.
    pub fn new() -> (cpu: Self)
        ensures
            cpu@.v == Seq::new(16, |k: int| 0u8),
            cpu@.i == 0,
            cpu@.pc == 0,
            cpu@.sp == 0,
            cpu@.dt == 0,
            cpu@.st == 0,
            cpu@.memory == initial_memory(),
            cpu@.stack == Seq::<u16>::empty(),
            cpu@.pixels == Seq::new(PIXEL_COUNT as nat, |k: int| false),
    {
        Self {
            registers: Registers::new(),
            memory: Memory::new(),
            stack: Stack::new(),
            display: Display::new(),
        }
    }

    /// Loads a program into memory at `PROGRAM_START` and points the program counter at it.
    pub fn load_program(&mut self, game_data: &[u8])
        requires
            PROGRAM_START + game_data@.len() <= MEMORY_SIZE,
        ensures
            final(self)@ == (CpuState {
                memory: write_bytes(old(self)@.memory, PROGRAM_START as int, game_data@),
                pc: PROGRAM_START,
                ..old(self)@
            }),
    {
        self.memory.store_data(PROGRAM_START, game_data);
        self.registers.pc = PROGRAM_START;
    }

    /// Reads the opcode at the program counter and moves the program counter past it.
    pub fn fetch(&mut self) -> (opcode: Opcode)
        requires
            old(self)@.pc + 2 <= MEMORY_SIZE,
        ensures
            opcode == old(self)@.opcode_at_pc(),
            final(self)@ == old(self)@.fetched(),
    {
        let bytes = self.memory.load_data(self.registers.pc, 2);
        let instruction = u16_from_be_bytes([bytes[0], bytes[1]]);
        self.registers.pc = self.registers.pc + 2;
        instruction
    }

    /// CLS: turns all the pixels off.
    pub fn clear_screen(&mut self)
        ensures
            final(self)@ == old(self)@.execute(Instruction::ClearScreen),
    {
        self.display.clear()
    }

    /// RET: returns from a subroutine to the address on top of the stack.
    pub fn ret(&mut self)
        requires
            old(self)@.can_execute(Instruction::Return),
        ensures
            final(self)@ == old(self)@.execute(Instruction::Return),
    {
        let addr = self.stack.pop();
        self.registers.pc = addr;
        self.registers.sp = self.registers.sp - 1;
    }

    /// JP addr: continues at `addr`.
    pub fn jump(&mut self, addr: u16)
        ensures
            final(self)@ == old(self)@.execute(Instruction::Jump { addr }),
    {
        self.registers.pc = addr;
    }

    /// CALL addr: calls the subroutine at `addr`, pushing the return address.
    pub fn call(&mut self, addr: u16)
        requires
            old(self)@.can_execute(Instruction::Call { addr }),
        ensures
            final(self)@ == old(self)@.execute(Instruction::Call { addr }),
    {
        self.registers.sp = self.registers.sp + 1;
        self.stack.push(self.registers.pc);
        self.registers.pc = addr;
    }

    /// SE Vx, byte: skips the next instruction if Vx equals `byte`.
    pub fn skip_if_eq(&mut self, x: u8, byte: u8)
        requires
            old(self)@.can_execute(Instruction::SkipIfEq { x, byte }),
        ensures
            final(self)@ == old(self)@.execute(Instruction::SkipIfEq { x, byte }),
    {
        let val = self.registers.get_v_register(x);
        if val == byte {
            self.registers.pc = self.registers.pc + 2;
        }
    }

    /// SNE Vx, byte: skips the next instruction if Vx differs from `byte`.
    pub fn skip_if_not_eq(&mut self, x: u8, byte: u8)
        requires
            old(self)@.can_execute(Instruction::SkipIfNotEq { x, byte }),
        ensures
            final(self)@ == old(self)@.execute(Instruction::SkipIfNotEq { x, byte }),
    {
        let val = self.registers.get_v_register(x);
        if val != byte {
            self.registers.pc = self.registers.pc + 2;
        }
    }

    /// SE Vx, Vy: skips the next instruction if Vx equals Vy.
    pub fn skip_if_reg_eq(&mut self, x: u8, y: u8)
        requires
            old(self)@.can_execute(Instruction::SkipIfRegEq { x, y }),
        ensures
            final(self)@ == old(self)@.execute(Instruction::SkipIfRegEq { x, y }),
    {
        let val_x = self.registers.get_v_register(x);
        let val_y = self.registers.get_v_register(y);
        if val_x == val_y {
            self.registers.pc = self.registers.pc + 2;
        }
    }

    /// SNE Vx, Vy: skips the next instruction if Vx differs from Vy.
    pub fn skip_if_reg_not_eq(&mut self, x: u8, y: u8)
        requires
            old(self)@.can_execute(Instruction::SkipIfRegNotEq { x, y }),
        ensures
            final(self)@ == old(self)@.execute(Instruction::SkipIfRegNotEq { x, y }),
    {
        let val_x = self.registers.get_v_register(x);
        let val_y = self.registers.get_v_register(y);
        if val_x != val_y {
            self.registers.pc = self.registers.pc + 2;
        }
    }

    /// LD I, addr: sets I to `addr`.
    pub fn load_i(&mut self, addr: u16)
        ensures
            final(self)@ == old(self)@.execute(Instruction::LoadI { addr }),
    {
        self.registers.i = addr;
    }

    /// LD Vx, byte: sets Vx to `byte`.
    pub fn load_vx_byte(&mut self, x: u8, byte: u8)
        requires
            old(self)@.can_execute(Instruction::LoadVxByte { x, byte }),
        ensures
            final(self)@ == old(self)@.execute(Instruction::LoadVxByte { x, byte }),
    {
        self.registers.set_v_register(x, byte);
    }

    /// ADD Vx, byte: adds `byte` to Vx, wrapping around; VF is left alone.
    pub fn add_vx_byte(&mut self, x: u8, byte: u8)
        requires
            old(self)@.can_execute(Instruction::AddVxByte { x, byte }),
        ensures
            final(self)@ == old(self)@.execute(Instruction::AddVxByte { x, byte }),
    {
        let val = self.registers.get_v_register(x);
        let new_val = val.wrapping_add(byte);
        self.registers.set_v_register(x, new_val);
    }

    /// LD Vx, Vy: sets Vx to Vy.
    pub fn load_vx_vy(&mut self, x: u8, y: u8)
        requires
            old(self)@.can_execute(Instruction::LoadVxVy { x, y }),
        ensures
            final(self)@ == old(self)@.execute(Instruction::LoadVxVy { x, y }),
    {
        let val_y = self.registers.get_v_register(y);
        self.registers.set_v_register(x, val_y);
    }

    /// OR Vx, Vy: sets Vx to Vx | Vy.
    pub fn or_vx_vy(&mut self, x: u8, y: u8)
        requires
            old(self)@.can_execute(Instruction::OrVxVy { x, y }),
        ensures
            final(self)@ == old(self)@.execute(Instruction::OrVxVy { x, y }),
    {
        let val_x = self.registers.get_v_register(x);
        let val_y = self.registers.get_v_register(y);
        self.registers.set_v_register(x, val_x | val_y);
    }

    /// AND Vx, Vy: sets Vx to Vx & Vy.
    pub fn and_vx_vy(&mut self, x: u8, y: u8)
        requires
            old(self)@.can_execute(Instruction::AndVxVy { x, y }),
        ensures
            final(self)@ == old(self)@.execute(Instruction::AndVxVy { x, y }),
    {
        let val_x = self.registers.get_v_register(x);
        let val_y = self.registers.get_v_register(y);
        self.registers.set_v_register(x, val_x & val_y);
    }

    /// XOR Vx, Vy: sets Vx to Vx ^ Vy.
    pub fn xor_vx_vy(&mut self, x: u8, y: u8)
        requires
            old(self)@.can_execute(Instruction::XorVxVy { x, y }),
        ensures
            final(self)@ == old(self)@.execute(Instruction::XorVxVy { x, y }),
    {
        let val_x = self.registers.get_v_register(x);
        let val_y = self.registers.get_v_register(y);
        self.registers.set_v_register(x, val_x ^ val_y);
    }

    /// ADD Vx, Vy: adds Vy to Vx, wrapping around; VF is 1 on a carry, else 0.
    pub fn add_vx_vy(&mut self, x: u8, y: u8)
        requires
            old(self)@.can_execute(Instruction::AddVxVy { x, y }),
        ensures
            final(self)@ == old(self)@.execute(Instruction::AddVxVy { x, y }),
    {
        let val_x = self.registers.get_v_register(x);
        let val_y = self.registers.get_v_register(y);

        let (new_val, did_overflow) = u8_overflowing_add(val_x, val_y);
        self.registers.set_v_register(x, new_val);
        self.registers.vf = if did_overflow {
            1
        } else {
            0
        };
        assert(self@ =~= old(self)@.execute(Instruction::AddVxVy { x, y }));
    }

    /// SUB Vx, Vy: subtracts Vy from Vx, wrapping around; VF is 1 if Vx was greater than
    /// Vy, else 0.
    pub fn sub_vx_vy(&mut self, x: u8, y: u8)
        requires
            old(self)@.can_execute(Instruction::SubVxVy { x, y }),
        ensures
            final(self)@ == old(self)@.execute(Instruction::SubVxVy { x, y }),
    {
        let val_x = self.registers.get_v_register(x);
        let val_y = self.registers.get_v_register(y);
        let diff = val_x.wrapping_sub(val_y);
        assert(diff == ((val_x - val_y + 256) % 256) as u8);
        self.registers.set_v_register(x, diff);
        self.registers.vf = if val_x > val_y {
            1
        } else {
            0
        };
        assert(self@ =~= old(self)@.execute(Instruction::SubVxVy { x, y }));
    }

    /// SUBN Vx, Vy: sets Vx to Vy - Vx, wrapping around; VF is 1 if Vy was greater than
    /// Vx, else 0.
    pub fn sub_vy_vx(&mut self, y: u8, x: u8)
        requires
            old(self)@.can_execute(Instruction::SubVyVx { x, y }),
        ensures
            final(self)@ == old(self)@.execute(Instruction::SubVyVx { x, y }),
    {
        let val_x = self.registers.get_v_register(x);
        let val_y = self.registers.get_v_register(y);
        let diff = val_y.wrapping_sub(val_x);
        assert(diff == ((val_y - val_x + 256) % 256) as u8);
        self.registers.set_v_register(x, diff);
        self.registers.vf = if val_y > val_x {
            1
        } else {
            0
        };
        assert(self@ =~= old(self)@.execute(Instruction::SubVyVx { x, y }));
    }

    /// SHR Vx: shifts Vx right by one; VF is the bit shifted out.
    pub fn shift_right(&mut self, x: u8)
        requires
            old(self)@.can_execute(Instruction::ShiftRight { x }),
        ensures
            final(self)@ == old(self)@.execute(Instruction::ShiftRight { x }),
    {
        let val_x = self.registers.get_v_register(x);
        self.registers.set_v_register(x, val_x >> 1);
        let ones = val_x.trailing_ones();
        proof {
            broadcast use vstd::std_specs::bits::axiom_u8_trailing_ones;

            assert(val_x >> 1 == val_x / 2) by (bit_vector);
            assert((val_x >> 0u8) & 1u8 == val_x % 2) by (bit_vector);
            if ones > 0 {
                assert((val_x >> 0u8) & 1u8 == 1u8);
            }
        }
        self.registers.vf = if ones > 0 {
            1
        } else {
            0
        };
        assert(self@ =~= old(self)@.execute(Instruction::ShiftRight { x }));
    }

    /// SHL Vx: shifts Vx left by one; VF is the bit shifted out.
    pub fn shift_left(&mut self, x: u8)
        requires
            old(self)@.can_execute(Instruction::ShiftLeft { x }),
        ensures
            final(self)@ == old(self)@.execute(Instruction::ShiftLeft { x }),
    {
        let val_x = self.registers.get_v_register(x);
        self.registers.set_v_register(x, val_x << 1);
        let ones = val_x.leading_ones();
        proof {
            broadcast use vstd::std_specs::bits::axiom_u8_leading_ones;

            assert(val_x << 1 == (val_x * 2) % 256) by (bit_vector);
            assert((val_x >> 7u8) & 1u8 == val_x / 128) by (bit_vector);
            if ones > 0 {
                assert((val_x >> 7u8) & 1u8 == 1u8);
            }
        }
        self.registers.vf = if ones > 0 {
            1
        } else {
            0
        };
        assert(self@ =~= old(self)@.execute(Instruction::ShiftLeft { x }));
    }

    /// ADD I, Vx: adds Vx to I.
    pub fn add_i_vx(&mut self, x: u8)
        requires
            old(self)@.can_execute(Instruction::AddIVx { x }),
        ensures
            final(self)@ == old(self)@.execute(Instruction::AddIVx { x }),
    {
        let val_x = self.registers.get_v_register(x) as u16;
        let addr = self.registers.i;

        self.registers.i = val_x + addr;
    }

    /// LD B, Vx: stores the decimal digits of Vx at I (hundreds), I+1 (tens) and I+2
    /// (units).
    pub fn store_bcd_into_memory(&mut self, x: u8)
        requires
            old(self)@.can_execute(Instruction::StoreBcd { x }),
        ensures
            final(self)@ == old(self)@.execute(Instruction::StoreBcd { x }),
    {
        let val_x = self.registers.get_v_register(x);
        let addr = self.registers.i;
        let data = vec![
            (val_x / 100) % 10,  // hundreds digit
            (val_x / 10) % 10,  // tens digit
            val_x % 10,  // units digit
        ];
        assert(data@ =~= bcd_digits(val_x));
        self.memory.store_data(addr, data.as_slice());
    }

    /// LD [I], Vx: stores V0 to Vx in memory from I on.
    pub fn store_regs_into_memory(&mut self, x: u8)
        requires
            old(self)@.can_execute(Instruction::StoreRegs { x }),
        ensures
            final(self)@ == old(self)@.execute(Instruction::StoreRegs { x }),
    {
        let addr = self.registers.i;
        let mut data: Vec<u8> = Vec::with_capacity((x + 1) as usize);
        let mut i: u8 = 0;
        while i <= x
            invariant
                i <= x + 1,
                x < 16,
                data@ == self@.v.take(i as int),
                self@ == old(self)@,
            decreases x + 1 - i,
        {
            data.push(self.registers.get_v_register(i));
            i = i + 1;
            assert(data@ =~= self@.v.take(i as int));
        }
        self.memory.store_data(addr, data.as_slice());
    }

    /// LD Vx, [I]: loads V0 to Vx from memory from I on.
    pub fn load_from_memory_into_regs(&mut self, x: u8)
        requires
            old(self)@.can_execute(Instruction::LoadRegs { x }),
        ensures
            final(self)@ == old(self)@.execute(Instruction::LoadRegs { x }),
    {
        let addr = self.registers.i;
        let data = self.memory.load_data(addr, (x + 1) as u16);
        let mut i: u8 = 0;
        while i <= x
            invariant
                i <= x + 1,
                x < 16,
                addr == old(self)@.i,
                addr + x + 1 <= MEMORY_SIZE,
                old(self)@.memory.len() == MEMORY_SIZE,
                data@ == old(self)@.memory.subrange(addr as int, addr + x + 1),
                self@ == (CpuState {
                    v: Seq::new(
                        16,
                        |k: int|
                            if k < i {
                                old(self)@.memory[addr + k]
                            } else {
                                old(self)@.v[k]
                            },
                    ),
                    ..old(self)@
                }),
            decreases x + 1 - i,
        {
            self.registers.set_v_register(i, data[i as usize]);
            i = i + 1;
            assert(self@ =~= (CpuState {
                v: Seq::new(
                    16,
                    |k: int|
                        if k < i {
                            old(self)@.memory[addr + k]
                        } else {
                            old(self)@.v[k]
                        },
                ),
                ..old(self)@
            }));
        }
        assert(self@ =~= old(self)@.execute(Instruction::LoadRegs { x }));
    }

    /// DRW Vx, Vy, n: XORs the `n`-byte sprite at I onto the display at (Vx mod 64,
    /// Vy mod 32), clipped at the display's edges; VF is 1 if that turned any pixel off,
    /// else 0.
    pub fn draw(&mut self, x: u8, y: u8, n: u16)
        requires
            old(self)@.can_execute(Instruction::Draw { x, y, n }),
        ensures
            final(self)@ == old(self)@.execute(Instruction::Draw { x, y, n }),
    {
        let ghost (reg_x, reg_y) = (x, y);
        let x = self.registers.get_v_register(x) % WIDTH as u8;
        let y = self.registers.get_v_register(y) % HEIGHT as u8;
        let sprite = self.memory.load_data(self.registers.i, n);
        let ghost pixels0 = self.display@;
        let ghost cx = x as int;
        let ghost cy = y as int;

        // Go through each byte in the sprite and apply it to the display.
        let mut any_turned_off = false;
        let mut j: usize = 0;
        while j < sprite.len() && (y as usize) + j < HEIGHT
            invariant
                j <= sprite@.len(),
                cy + j <= HEIGHT,
                cx < WIDTH,
                cy < HEIGHT,
                x == cx,
                y == cy,
                pixels0.len() == PIXEL_COUNT,
                self.display@ == xor_sprite_area(pixels0, sprite@, cx, cy, j as int, 0),
                any_turned_off == sprite_collides(pixels0, sprite@, cx, cy, j as int, 0),
                self.registers == old(self).registers,
                self.stack == old(self).stack,
                self.memory == old(self).memory,
            decreases sprite@.len() - j,
        {
            let byte = sprite[j];
            let new_y = y + j as u8;
            let mut i: u8 = 0;
            while i < 8 && x + i < WIDTH as u8
                invariant
                    i <= 8,
                    cx + i <= WIDTH,
                    j < sprite@.len(),
                    cy + j < HEIGHT,
                    cx < WIDTH,
                    cy < HEIGHT,
                    x == cx,
                    y == cy,
                    new_y == cy + j,
                    byte == sprite@[j as int],
                    pixels0.len() == PIXEL_COUNT,
                    self.display@ == xor_sprite_area(pixels0, sprite@, cx, cy, j as int, i as int),
                    any_turned_off == sprite_collides(pixels0, sprite@, cx, cy, j as int, i as int),
                    self.registers == old(self).registers,
                    self.stack == old(self).stack,
                    self.memory == old(self).memory,
                decreases 8 - i,
            {
                let new_x = x + i;
                let val = bit_at_index(byte, i);
                proof {
                    lemma_area_step(pixels0, sprite@, cx, cy, j as int, i as int);
                }
                let turned_off = self.display.draw_pixel(new_x, new_y, val);
                if turned_off {
                    any_turned_off = turned_off
                }
                i = i + 1;
                proof {
                    assert(self.display@ =~= xor_sprite_area(pixels0, sprite@, cx, cy, j as int, i as int));
                }
            }
            proof {
                lemma_area_row_done(pixels0, sprite@, cx, cy, j as int, i as int);
            }
            j = j + 1;
        }
        proof {
            lemma_area_done(pixels0, sprite@, cx, cy, j as int, n as int);
        }

        // Set the flag register if we've turned any pixels off.
        self.registers.vf = if any_turned_off {
            1
        } else {
            0
        };
        assert(self@ =~= old(self)@.execute(Instruction::Draw { x: reg_x, y: reg_y, n }));
    }

    /// Whether `ins` can be carried out once the program counter is `pc`, all else as in
    /// this machine.
    fn can_execute_at(&self, ins: Instruction, pc: u16) -> (ok: bool)
        ensures
            ok == (CpuState { pc, ..self@ }).can_execute(ins),
    {
        let pc_can_skip = pc <= u16::MAX - 2;
        let i = self.registers.i as usize;
        match ins {
            Instruction::ClearScreen => true,
            Instruction::Return => self.stack.len() > 0 && self.registers.sp > 0,
            Instruction::Jump { .. } => true,
            Instruction::Call { .. } => self.registers.sp < u8::MAX && self.stack.len()
                < STACK_DEPTH,
            Instruction::SkipIfEq { x, byte } => x < 16 && (self.registers.get_v_register(x)
                != byte || pc_can_skip),
            Instruction::SkipIfNotEq { x, byte } => x < 16 && (self.registers.get_v_register(x)
                == byte || pc_can_skip),
            Instruction::SkipIfRegEq { x, y } => x < 16 && y < 16 && (
            self.registers.get_v_register(x) != self.registers.get_v_register(y) || pc_can_skip),
            Instruction::SkipIfRegNotEq { x, y } => x < 16 && y < 16 && (
            self.registers.get_v_register(x) == self.registers.get_v_register(y) || pc_can_skip),
            Instruction::LoadVxByte { x, .. } => x < 16,
            Instruction::AddVxByte { x, .. } => x < 16,
            Instruction::LoadVxVy { x, y } => x < 16 && y < 16,
            Instruction::OrVxVy { x, y } => x < 16 && y < 16,
            Instruction::AndVxVy { x, y } => x < 16 && y < 16,
            Instruction::XorVxVy { x, y } => x < 16 && y < 16,
            Instruction::AddVxVy { x, y } => x < 16 && y < 16,
            Instruction::SubVxVy { x, y } => x < 16 && y < 16,
            Instruction::ShiftRight { x } => x < 16,
            Instruction::SubVyVx { x, y } => x < 16 && y < 16,
            Instruction::ShiftLeft { x } => x < 16,
            Instruction::LoadI { .. } => true,
            Instruction::Draw { x, y, n } => x < 16 && y < 16 && i + (n as usize) <= MEMORY_SIZE,
            Instruction::AddIVx { x } => x < 16 && (self.registers.get_v_register(x) as u16)
                <= u16::MAX - self.registers.i,
            Instruction::StoreBcd { x } => x < 16 && i + 3 <= MEMORY_SIZE,
            Instruction::StoreRegs { x } => x < 16 && i + (x as usize) + 1 <= MEMORY_SIZE,
            Instruction::LoadRegs { x } => x < 16 && i + (x as usize) + 1 <= MEMORY_SIZE,
            _ => false,
        }
    }

    /// Whether `ins` can be carried out in this state without panicking.
    pub fn can_execute(&self, ins: Instruction) -> (ok: bool)
        ensures
            ok == self@.can_execute(ins),
    {
        let ok = self.can_execute_at(ins, self.registers.pc);
        assert((CpuState { pc: self@.pc, ..self@ }) =~= self@);
        ok
    }

    /// Carries out `ins`.
    pub fn execute(&mut self, ins: Instruction)
        requires
            old(self)@.can_execute(ins),
        ensures
            final(self)@ == old(self)@.execute(ins),
    {
        match ins {
            Instruction::ClearScreen => self.clear_screen(),
            Instruction::Return => self.ret(),
            Instruction::Jump { addr } => self.jump(addr),
            Instruction::Call { addr } => self.call(addr),
            Instruction::SkipIfEq { x, byte } => self.skip_if_eq(x, byte),
            Instruction::SkipIfNotEq { x, byte } => self.skip_if_not_eq(x, byte),
            Instruction::SkipIfRegEq { x, y } => self.skip_if_reg_eq(x, y),
            Instruction::LoadVxByte { x, byte } => self.load_vx_byte(x, byte),
            Instruction::AddVxByte { x, byte } => self.add_vx_byte(x, byte),
            Instruction::LoadVxVy { x, y } => self.load_vx_vy(x, y),
            Instruction::OrVxVy { x, y } => self.or_vx_vy(x, y),
            Instruction::AndVxVy { x, y } => self.and_vx_vy(x, y),
            Instruction::XorVxVy { x, y } => self.xor_vx_vy(x, y),
            Instruction::AddVxVy { x, y } => self.add_vx_vy(x, y),
            Instruction::SubVxVy { x, y } => self.sub_vx_vy(x, y),
            Instruction::ShiftRight { x } => self.shift_right(x),
            Instruction::SubVyVx { x, y } => self.sub_vy_vx(y, x),
            Instruction::ShiftLeft { x } => self.shift_left(x),
            Instruction::SkipIfRegNotEq { x, y } => self.skip_if_reg_not_eq(x, y),
            Instruction::LoadI { addr } => self.load_i(addr),
            Instruction::Draw { x, y, n } => self.draw(x, y, n),
            Instruction::AddIVx { x } => self.add_i_vx(x),
            Instruction::StoreBcd { x } => self.store_bcd_into_memory(x),
            Instruction::StoreRegs { x } => self.store_regs_into_memory(x),
            Instruction::LoadRegs { x } => self.load_from_memory_into_regs(x),
            // The remaining instructions are recognised but not supported; `can_execute`
            // rules them out.
            _ => {},
        }
    }

    /// Decodes `opcode` and carries out the instruction it encodes.
    pub fn decode_and_execute(&mut self, opcode: Opcode)
        requires
            spec_decode(opcode) is Some,
            old(self)@.can_execute(spec_decode(opcode).unwrap()),
        ensures
            final(self)@ == old(self)@.execute(spec_decode(opcode).unwrap()),
    {
        match decode(opcode) {
            Some(ins) => self.execute(ins),
            None => {},
        }
    }

    /// Whether one fetch-decode-execute cycle runs without panicking.
    pub fn can_cycle(&self) -> (ok: bool)
        ensures
            ok == self@.can_cycle(),
    {
        let pc = self.registers.pc;
        if pc as usize + 2 > MEMORY_SIZE {
            return false;
        }
        let bytes = self.memory.load_data(pc, 2);
        let opcode = u16_from_be_bytes([bytes[0], bytes[1]]);
        match decode(opcode) {
            Some(ins) => self.can_execute_at(ins, pc + 2),
            None => false,
        }
    }

    /// Runs one fetch-decode-execute cycle.
    pub fn cycle(&mut self)
        requires
            old(self)@.can_cycle(),
        ensures
            final(self)@ == old(self)@.cycle(),
    {
        let opcode = self.fetch();
        self.decode_and_execute(opcode);
    }

    /// Runs the cycles of one frame, `INSTRUCTIONS_PER_FRAME` of them, stopping early
    /// before a cycle that would panic; returns how many ran.
    pub fn run_frame(&mut self) -> (steps: usize)
        ensures
            steps <= INSTRUCTIONS_PER_FRAME,
            final(self)@ == old(self)@.run(steps as nat),
            forall|k: nat| k < steps ==> (#[trigger] old(self)@.run(k)).can_cycle(),
            steps < INSTRUCTIONS_PER_FRAME ==> !old(self)@.run(steps as nat).can_cycle(),
    {
        let mut steps: usize = 0;
        while steps < INSTRUCTIONS_PER_FRAME
            invariant
                steps <= INSTRUCTIONS_PER_FRAME,
                self@ == old(self)@.run(steps as nat),
                forall|k: nat| k < steps ==> (#[trigger] old(self)@.run(k)).can_cycle(),
            decreases INSTRUCTIONS_PER_FRAME - steps,
        {
            if !self.can_cycle() {
                return steps;
            }
            self.cycle();
            steps = steps + 1;
        }
        steps
    }
}

} // verus!
