use vstd::prelude::*;
use crate::display::{PIXEL_COUNT, WIDTH};
use crate::instruction::{Instruction, spec_decode};
use crate::memory::{MEMORY_SIZE, write_bytes};
use crate::nibbles::sprite_bit;
use crate::stack::STACK_DEPTH;

verus! {

/// The whole machine state as mathematical values: what every contract of the
/// interpreter speaks of.
#[verifier::ext_equal]
pub struct CpuState {
    /// The general purpose registers V0 to VF.
    pub v: Seq<u8>,
    /// The index register I.
    pub i: u16,
    /// The program counter.
    pub pc: u16,
    /// The stack pointer register.
    pub sp: u8,
    /// The delay timer.
    pub dt: u8,
    /// The sound timer.
    pub st: u8,
    /// The 4 KiB of memory.
    pub memory: Seq<u8>,
    /// The return addresses on the call stack, the innermost last.
    pub stack: Seq<u16>,
    /// The display's pixels, row by row.
    pub pixels: Seq<bool>,
}

/// 1 where `b` holds, else 0: the value that instructions leave in the flag register VF.
pub open spec fn flag(b: bool) -> u8 {
    if b {
        1
    } else {
        0
    }
}

/// The hundreds, tens and units digits of `v`, in that order.
pub open spec fn bcd_digits(v: u8) -> Seq<u8> {
    seq![((v / 100) % 10) as u8, ((v / 10) % 10) as u8, (v % 10) as u8]
}

/// Whether pixel `k` lies in the part of a sprite at (`cx`, `cy`) made of its first `rows`
/// rows and the first `cols` pixels of the row after them.
pub open spec fn in_sprite_area(cx: int, cy: int, rows: int, cols: int, k: int) -> bool {
    let px = k % WIDTH as int;
    let py = k / WIDTH as int;
    ||| cy <= py < cy + rows && cx <= px < cx + 8
    ||| py == cy + rows && cx <= px < cx + cols
}

/// The bit of `sprite` that lands on pixel `k` when the sprite is drawn at (`cx`, `cy`).
pub open spec fn sprite_pixel(sprite: Seq<u8>, cx: int, cy: int, k: int) -> bool {
    sprite_bit(sprite[k / WIDTH as int - cy], k % WIDTH as int - cx)
}

/// `pixels` with the given area of `sprite`, drawn at (`cx`, `cy`), XORed into it.
pub open spec fn xor_sprite_area(
    pixels: Seq<bool>,
    sprite: Seq<u8>,
    cx: int,
    cy: int,
    rows: int,
    cols: int,
) -> Seq<bool> {
    Seq::new(
        pixels.len(),
        |k: int|
            if in_sprite_area(cx, cy, rows, cols, k) {
                pixels[k] != sprite_pixel(sprite, cx, cy, k)
            } else {
                pixels[k]
            },
    )
}

/// Drawing that area of the sprite turns pixel `k` off.
pub open spec fn turns_off(
    pixels: Seq<bool>,
    sprite: Seq<u8>,
    cx: int,
    cy: int,
    rows: int,
    cols: int,
    k: int,
) -> bool {
    &&& 0 <= k < pixels.len()
    &&& in_sprite_area(cx, cy, rows, cols, k)
    &&& pixels[k]
    &&& sprite_pixel(sprite, cx, cy, k)
}

/// Drawing that area of the sprite turns some pixel off.
pub open spec fn sprite_collides(
    pixels: Seq<bool>,
    sprite: Seq<u8>,
    cx: int,
    cy: int,
    rows: int,
    cols: int,
) -> bool {
    exists|k: int| #[trigger] turns_off(pixels, sprite, cx, cy, rows, cols, k)
}

impl CpuState {
    /// The sizes that every machine state has.
    pub open spec fn wf(self) -> bool {
        &&& self.v.len() == 16
        &&& self.memory.len() == MEMORY_SIZE
        &&& self.pixels.len() == PIXEL_COUNT
        &&& self.stack.len() <= STACK_DEPTH
    }

    /// The state with register Vx set to `value`.
    pub open spec fn set_v(self, x: int, value: u8) -> CpuState {
        CpuState { v: self.v.update(x, value), ..self }
    }

    /// The state with the program counter advanced past the next instruction where `cond`
    /// holds.
    pub open spec fn skip_if(self, cond: bool) -> CpuState {
        if cond {
            CpuState { pc: (self.pc + 2) as u16, ..self }
        } else {
            self
        }
    }

    /// The sprite that a draw of `n` rows reads: the `n` bytes of memory from I on.
    pub open spec fn sprite(self, n: u16) -> Seq<u8> {
        self.memory.subrange(self.i as int, self.i + n)
    }

    /// The state after DRW Vx, Vy, n: the `n`-byte sprite at I is XORed onto the display
    /// at (Vx mod 64, Vy mod 32), clipped at the display's edges, and VF is 1 exactly when
    /// that turned some pixel off.
    pub open spec fn draw_sprite(self, x: u8, y: u8, n: u16) -> CpuState {
        let cx = self.v[x as int] % 64;
        let cy = self.v[y as int] % 32;
        let sprite = self.sprite(n);
        CpuState {
            pixels: xor_sprite_area(self.pixels, sprite, cx as int, cy as int, n as int, 0),
            ..self
        }.set_v(15, flag(sprite_collides(self.pixels, sprite, cx as int, cy as int, n as int, 0)))
    }

    /// Whether the interpreter carries out `ins` in this state without panicking.
    pub open spec fn can_execute(self, ins: Instruction) -> bool {
        match ins {
            Instruction::ClearScreen => true,
            Instruction::Return => self.stack.len() > 0 && self.sp > 0,
            Instruction::Jump { .. } => true,
            Instruction::Call { .. } => self.sp < u8::MAX && self.stack.len() < STACK_DEPTH,
            Instruction::SkipIfEq { x, byte } => x < 16 && (self.v[x as int] == byte ==> self.pc
                + 2 <= u16::MAX),
            Instruction::SkipIfNotEq { x, byte } => x < 16 && (self.v[x as int] != byte
                ==> self.pc + 2 <= u16::MAX),
            Instruction::SkipIfRegEq { x, y } => x < 16 && y < 16 && (self.v[x as int]
                == self.v[y as int] ==> self.pc + 2 <= u16::MAX),
            Instruction::SkipIfRegNotEq { x, y } => x < 16 && y < 16 && (self.v[x as int]
                != self.v[y as int] ==> self.pc + 2 <= u16::MAX),
            Instruction::LoadVxByte { x, .. } => x < 16,
            Instruction::AddVxByte { x, .. } => x < 16,
            Instruction::LoadVxVy { x, y } => x < 16 && y < 16,
            Instruction::OrVxVy { x, y } => x < 16 && y < 16,
            Instruction::AndVxVy { x, y } => x < 16 && y < 16,
            Instruction::XorVxVy { x, y } => x < 16 && y < 16,
            Instruction::AddVxVy { x, y } => x < 16 && y < 16,
            Instruction::SubVxVy { x, y } => x < 16 && y < 16,
            Instruction::ShiftRight { x } => x < 16,
            Instruction::SubVyVx { x, y } => x < 16 && y < 16,
            Instruction::ShiftLeft { x } => x < 16,
            Instruction::LoadI { .. } => true,
            Instruction::Draw { x, y, n } => x < 16 && y < 16 && self.i + n <= MEMORY_SIZE,
            Instruction::AddIVx { x } => x < 16 && self.i + self.v[x as int] <= u16::MAX,
            Instruction::StoreBcd { x } => x < 16 && self.i + 3 <= MEMORY_SIZE,
            Instruction::StoreRegs { x } => x < 16 && self.i + x + 1 <= MEMORY_SIZE,
            Instruction::LoadRegs { x } => x < 16 && self.i + x + 1 <= MEMORY_SIZE,
            _ => false,
        }
    }

    /// The state after carrying out `ins` (once the program counter has moved past it).
    pub open spec fn execute(self, ins: Instruction) -> CpuState {
        match ins {
            Instruction::ClearScreen => CpuState {
                pixels: Seq::new(PIXEL_COUNT as nat, |k: int| false),
                ..self
            },
            Instruction::Return => CpuState {
                pc: self.stack.last(),
                stack: self.stack.drop_last(),
                sp: (self.sp - 1) as u8,
                ..self
            },
            Instruction::Jump { addr } => CpuState { pc: addr, ..self },
            Instruction::Call { addr } => CpuState {
                sp: (self.sp + 1) as u8,
                stack: self.stack.push(self.pc),
                pc: addr,
                ..self
            },
            Instruction::SkipIfEq { x, byte } => self.skip_if(self.v[x as int] == byte),
            Instruction::SkipIfNotEq { x, byte } => self.skip_if(self.v[x as int] != byte),
            Instruction::SkipIfRegEq { x, y } => self.skip_if(self.v[x as int] == self.v[y as int]),
            Instruction::SkipIfRegNotEq { x, y } => self.skip_if(
                self.v[x as int] != self.v[y as int],
            ),
            Instruction::LoadVxByte { x, byte } => self.set_v(x as int, byte),
            Instruction::AddVxByte { x, byte } => self.set_v(
                x as int,
                ((self.v[x as int] + byte) % 256) as u8,
            ),
            Instruction::LoadVxVy { x, y } => self.set_v(x as int, self.v[y as int]),
            Instruction::OrVxVy { x, y } => self.set_v(x as int, self.v[x as int] | self.v[y as int]),
            Instruction::AndVxVy { x, y } => self.set_v(x as int, self.v[x as int] & self.v[y as int]),
            Instruction::XorVxVy { x, y } => self.set_v(x as int, self.v[x as int] ^ self.v[y as int]),
            Instruction::AddVxVy { x, y } => {
                let sum = self.v[x as int] + self.v[y as int];
                self.set_v(x as int, (sum % 256) as u8).set_v(15, flag(sum > u8::MAX))
            },
            Instruction::SubVxVy { x, y } => {
                let (vx, vy) = (self.v[x as int], self.v[y as int]);
                self.set_v(x as int, ((vx - vy + 256) % 256) as u8).set_v(15, flag(vx > vy))
            },
            Instruction::ShiftRight { x } => {
                let vx = self.v[x as int];
                self.set_v(x as int, vx / 2).set_v(15, vx % 2)
            },
            Instruction::SubVyVx { x, y } => {
                let (vx, vy) = (self.v[x as int], self.v[y as int]);
                self.set_v(x as int, ((vy - vx + 256) % 256) as u8).set_v(15, flag(vy > vx))
            },
            Instruction::ShiftLeft { x } => {
                let vx = self.v[x as int];
                self.set_v(x as int, ((vx * 2) % 256) as u8).set_v(15, vx / 128)
            },
            Instruction::LoadI { addr } => CpuState { i: addr, ..self },
            Instruction::Draw { x, y, n } => self.draw_sprite(x, y, n),
            Instruction::AddIVx { x } => CpuState { i: (self.i + self.v[x as int]) as u16, ..self },
            Instruction::StoreBcd { x } => CpuState {
                memory: write_bytes(self.memory, self.i as int, bcd_digits(self.v[x as int])),
                ..self
            },
            Instruction::StoreRegs { x } => CpuState {
                memory: write_bytes(self.memory, self.i as int, self.v.take(x + 1)),
                ..self
            },
            Instruction::LoadRegs { x } => CpuState {
                v: Seq::new(
                    16,
                    |k: int|
                        if k <= x {
                            self.memory[self.i + k]
                        } else {
                            self.v[k]
                        },
                ),
                ..self
            },
            _ => self,
        }
    }

    /// The opcode stored big-endian at the program counter.
    pub open spec fn opcode_at_pc(self) -> u16 {
        (self.memory[self.pc as int] * 256 + self.memory[self.pc + 1]) as u16
    }

    /// The state once the opcode at the program counter has been fetched.
    pub open spec fn fetched(self) -> CpuState {
        CpuState { pc: (self.pc + 2) as u16, ..self }
    }

    /// Whether one fetch-decode-execute cycle runs without panicking.
    pub open spec fn can_cycle(self) -> bool {
        &&& self.pc + 2 <= MEMORY_SIZE
        &&& spec_decode(self.opcode_at_pc()) matches Some(ins)
        &&& self.fetched().can_execute(ins)
    }

    /// The state after one fetch-decode-execute cycle.
    pub open spec fn cycle(self) -> CpuState {
        self.fetched().execute(spec_decode(self.opcode_at_pc()).unwrap())
    }

    /// The state after `k` cycles.
    pub open spec fn run(self, k: nat) -> CpuState
        decreases k,
    {
        if k == 0 {
            self
        } else {
            self.run((k - 1) as nat).cycle()
        }
    }
}

/// Drawing the pixel after the processed part of row `j` extends that part by one pixel.
pub(crate) proof fn lemma_area_step(
    pixels: Seq<bool>,
    sprite: Seq<u8>,
    cx: int,
    cy: int,
    j: int,
    i: int,
)
    requires
        0 <= cx,
        0 <= cy,
        0 <= j < sprite.len(),
        cy + j < 32,
        0 <= i < 8,
        cx + i < 64,
        pixels.len() == PIXEL_COUNT,
    ensures
        ({
            let k0 = (cy + j) * 64 + cx + i;
            let cur = xor_sprite_area(pixels, sprite, cx, cy, j, i);
            &&& 0 <= k0 < PIXEL_COUNT
            &&& xor_sprite_area(pixels, sprite, cx, cy, j, i + 1) == cur.update(
                k0,
                cur[k0] != sprite_bit(sprite[j], i),
            )
            &&& sprite_collides(pixels, sprite, cx, cy, j, i + 1) == (sprite_collides(
                pixels,
                sprite,
                cx,
                cy,
                j,
                i,
            ) || (cur[k0] && sprite_bit(sprite[j], i)))
        }),
{
    let k0 = (cy + j) * 64 + cx + i;
    let cur = xor_sprite_area(pixels, sprite, cx, cy, j, i);
    assert(k0 % 64 == cx + i && k0 / 64 == cy + j);
    assert(!in_sprite_area(cx, cy, j, i, k0));
    assert(in_sprite_area(cx, cy, j, i + 1, k0));
    assert forall|k: int| #[trigger]
        in_sprite_area(cx, cy, j, i + 1, k) == (in_sprite_area(cx, cy, j, i, k) || k == k0) by {
        if in_sprite_area(cx, cy, j, i + 1, k) && !in_sprite_area(cx, cy, j, i, k) {
            assert(k == (k / 64) * 64 + k % 64);
        }
    }
    assert(xor_sprite_area(pixels, sprite, cx, cy, j, i + 1) =~= cur.update(
        k0,
        cur[k0] != sprite_bit(sprite[j], i),
    ));
    let before = sprite_collides(pixels, sprite, cx, cy, j, i);
    let after = sprite_collides(pixels, sprite, cx, cy, j, i + 1);
    if after {
        let w = choose|w: int| #[trigger] turns_off(pixels, sprite, cx, cy, j, i + 1, w);
        if w != k0 {
            assert(turns_off(pixels, sprite, cx, cy, j, i, w));
        }
    }
    if before {
        let w = choose|w: int| #[trigger] turns_off(pixels, sprite, cx, cy, j, i, w);
        assert(turns_off(pixels, sprite, cx, cy, j, i + 1, w));
    }
    if cur[k0] && sprite_bit(sprite[j], i) {
        assert(turns_off(pixels, sprite, cx, cy, j, i + 1, k0));
    }
}

/// A row is complete once its eighth pixel or the display's right edge is reached.
pub(crate) proof fn lemma_area_row_done(
    pixels: Seq<bool>,
    sprite: Seq<u8>,
    cx: int,
    cy: int,
    j: int,
    i: int,
)
    requires
        0 <= cx,
        0 <= j,
        0 <= i <= 8,
        cx + i <= 64,
        i == 8 || cx + i == 64,
    ensures
        xor_sprite_area(pixels, sprite, cx, cy, j, i) == xor_sprite_area(
            pixels,
            sprite,
            cx,
            cy,
            j + 1,
            0,
        ),
        sprite_collides(pixels, sprite, cx, cy, j, i) == sprite_collides(
            pixels,
            sprite,
            cx,
            cy,
            j + 1,
            0,
        ),
{
    assert forall|k: int| #[trigger]
        in_sprite_area(cx, cy, j, i, k) == in_sprite_area(cx, cy, j + 1, 0, k) by {
    }
    assert(xor_sprite_area(pixels, sprite, cx, cy, j, i) =~= xor_sprite_area(
        pixels,
        sprite,
        cx,
        cy,
        j + 1,
        0,
    ));
    if sprite_collides(pixels, sprite, cx, cy, j, i) {
        let w = choose|w: int| #[trigger] turns_off(pixels, sprite, cx, cy, j, i, w);
        assert(turns_off(pixels, sprite, cx, cy, j + 1, 0, w));
    }
    if sprite_collides(pixels, sprite, cx, cy, j + 1, 0) {
        let w = choose|w: int| #[trigger] turns_off(pixels, sprite, cx, cy, j + 1, 0, w);
        assert(turns_off(pixels, sprite, cx, cy, j, i, w));
    }
}

/// The sprite is drawn once all its rows, or all rows down to the display's bottom edge,
/// are.
pub(crate) proof fn lemma_area_done(
    pixels: Seq<bool>,
    sprite: Seq<u8>,
    cx: int,
    cy: int,
    j: int,
    n: int,
)
    requires
        0 <= cy,
        0 <= j <= n,
        j == n || cy + j == 32,
        pixels.len() == PIXEL_COUNT,
    ensures
        xor_sprite_area(pixels, sprite, cx, cy, j, 0) == xor_sprite_area(
            pixels,
            sprite,
            cx,
            cy,
            n,
            0,
        ),
        sprite_collides(pixels, sprite, cx, cy, j, 0) == sprite_collides(
            pixels,
            sprite,
            cx,
            cy,
            n,
            0,
        ),
{
    assert forall|k: int| 0 <= k < PIXEL_COUNT implies #[trigger] in_sprite_area(cx, cy, j, 0, k)
        == in_sprite_area(cx, cy, n, 0, k) by {}
    assert(xor_sprite_area(pixels, sprite, cx, cy, j, 0) =~= xor_sprite_area(
        pixels,
        sprite,
        cx,
        cy,
        n,
        0,
    ));
    if sprite_collides(pixels, sprite, cx, cy, j, 0) {
        let w = choose|w: int| #[trigger] turns_off(pixels, sprite, cx, cy, j, 0, w);
        assert(turns_off(pixels, sprite, cx, cy, n, 0, w));
    }
    if sprite_collides(pixels, sprite, cx, cy, n, 0) {
        let w = choose|w: int| #[trigger] turns_off(pixels, sprite, cx, cy, n, 0, w);
        assert(turns_off(pixels, sprite, cx, cy, j, 0, w));
    }
}

} // verus!
