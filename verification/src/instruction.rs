use vstd::prelude::*;
use crate::nibbles::{nibbles_to_addr, nibbles_to_byte};

verus! {

/// A two-byte CHIP-8 opcode, big-endian in memory.
pub type Opcode = u16;

/// A decoded CHIP-8 instruction. `x` and `y` name general purpose registers, `byte` and
/// `addr` are immediate operands.
#[derive(Clone, Copy, Debug, PartialEq, Eq, Structural)]
pub enum Instruction {
    /// 00E0 - CLS
    ClearScreen,
    /// 00EE - RET
    Return,
    /// 1nnn - JP addr
    Jump { addr: u16 },
    /// 2nnn - CALL addr
    Call { addr: u16 },
    /// 3xkk - SE Vx, byte
    SkipIfEq { x: u8, byte: u8 },
    /// 4xkk - SNE Vx, byte
    SkipIfNotEq { x: u8, byte: u8 },
    /// 5xy0 - SE Vx, Vy
    SkipIfRegEq { x: u8, y: u8 },
    /// 6xkk - LD Vx, byte
    LoadVxByte { x: u8, byte: u8 },
    /// 7xkk - ADD Vx, byte
    AddVxByte { x: u8, byte: u8 },
    /// 8xy0 - LD Vx, Vy
    LoadVxVy { x: u8, y: u8 },
    /// 8xy1 - OR Vx, Vy
    OrVxVy { x: u8, y: u8 },
    /// 8xy2 - AND Vx, Vy
    AndVxVy { x: u8, y: u8 },
    /// 8xy3 - XOR Vx, Vy
    XorVxVy { x: u8, y: u8 },
    /// 8xy4 - ADD Vx, Vy
    AddVxVy { x: u8, y: u8 },
    /// 8xy5 - SUB Vx, Vy
    SubVxVy { x: u8, y: u8 },
    /// 8xy6 - SHR Vx {, Vy}
    ShiftRight { x: u8 },
    /// 8xy7 - SUBN Vx, Vy
    SubVyVx { x: u8, y: u8 },
    /// 8xyE - SHL Vx {, Vy}
    ShiftLeft { x: u8 },
    /// 9xy0 - SNE Vx, Vy
    SkipIfRegNotEq { x: u8, y: u8 },
    /// Annn - LD I, addr
    LoadI { addr: u16 },
    /// Bnnn - JP V0, addr (recognised, not supported)
    JumpV0 { addr: u16 },
    /// Cxkk - RND Vx, byte (recognised, not supported)
    Random { x: u8, byte: u8 },
    /// Dxyn - DRW Vx, Vy, nibble
    Draw { x: u8, y: u8, n: u16 },
    /// Ex9E - SKP Vx (recognised, not supported)
    SkipIfKey { x: u8 },
    /// ExA1 - SKNP Vx (recognised, not supported)
    SkipIfNotKey { x: u8 },
    /// Fx07 - LD Vx, DT (recognised, not supported)
    LoadVxDelay { x: u8 },
    /// Fx0A - LD Vx, K (recognised, not supported)
    WaitKey { x: u8 },
    /// Fx15 - LD DT, Vx (recognised, not supported)
    LoadDelayVx { x: u8 },
    /// Fx18 - LD ST, Vx (recognised, not supported)
    LoadSoundVx { x: u8 },
    /// Fx1E - ADD I, Vx
    AddIVx { x: u8 },
    /// Fx29 - LD F, Vx (recognised, not supported)
    LoadFont { x: u8 },
    /// Fx33 - LD B, Vx
    StoreBcd { x: u8 },
    /// Fx55 - LD [I], Vx
    StoreRegs { x: u8 },
    /// Fx65 - LD Vx, [I]
    LoadRegs { x: u8 },
}

impl Instruction {
    /// Whether the interpreter carries the instruction out (the others are recognised but
    /// not implemented).
    pub open spec fn is_supported(self) -> bool {
        !(self is JumpV0 || self is Random || self is SkipIfKey || self is SkipIfNotKey
            || self is LoadVxDelay || self is WaitKey || self is LoadDelayVx
            || self is LoadSoundVx || self is LoadFont)
    }
}

impl Instruction {
    /// Every register operand names one of V0 to VF, every address fits in 12 bits and a
    /// sprite height fits in a nibble.
    pub open spec fn operands_in_range(self) -> bool {
        match self {
            Instruction::ClearScreen | Instruction::Return => true,
            Instruction::Jump { addr } | Instruction::Call { addr } | Instruction::LoadI { addr }
            | Instruction::JumpV0 { addr } => addr < 0x1000,
            Instruction::SkipIfEq { x, .. } | Instruction::SkipIfNotEq { x, .. }
            | Instruction::LoadVxByte { x, .. } | Instruction::AddVxByte { x, .. }
            | Instruction::Random { x, .. } => x < 16,
            Instruction::SkipIfRegEq { x, y } | Instruction::LoadVxVy { x, y }
            | Instruction::OrVxVy { x, y } | Instruction::AndVxVy { x, y }
            | Instruction::XorVxVy { x, y } | Instruction::AddVxVy { x, y }
            | Instruction::SubVxVy { x, y } | Instruction::SubVyVx { x, y }
            | Instruction::SkipIfRegNotEq { x, y } => x < 16 && y < 16,
            Instruction::Draw { x, y, n } => x < 16 && y < 16 && n < 16,
            Instruction::ShiftRight { x } | Instruction::ShiftLeft { x }
            | Instruction::SkipIfKey { x } | Instruction::SkipIfNotKey { x }
            | Instruction::LoadVxDelay { x } | Instruction::WaitKey { x }
            | Instruction::LoadDelayVx { x } | Instruction::LoadSoundVx { x }
            | Instruction::AddIVx { x } | Instruction::LoadFont { x }
            | Instruction::StoreBcd { x } | Instruction::StoreRegs { x }
            | Instruction::LoadRegs { x } => x < 16,
        }
    }
}

/// The four nibbles of an opcode, most significant first.
pub open spec fn opcode_nibbles(op: u16) -> (u16, u16, u16, u16) {
    (
        (op / 0x1000) as u16,
        ((op / 0x100) % 0x10) as u16,
        ((op / 0x10) % 0x10) as u16,
        (op % 0x10) as u16,
    )
}

/// The instruction that an opcode encodes, or `None` for an opcode that is not a CHIP-8
/// instruction.
pub open spec fn spec_decode(op: u16) -> Option<Instruction> {
    let (a, b, c, d) = opcode_nibbles(op);
    let x = b as u8;
    let y = c as u8;
    let byte = (op % 0x100) as u8;
    let addr = (op % 0x1000) as u16;
    if a == 0x0 && b == 0x0 && c == 0xE && d == 0x0 {
        Some(Instruction::ClearScreen)
    } else if a == 0x0 && b == 0x0 && c == 0xE && d == 0xE {
        Some(Instruction::Return)
    } else if a == 0x1 {
        Some(Instruction::Jump { addr })
    } else if a == 0x2 {
        Some(Instruction::Call { addr })
    } else if a == 0x3 {
        Some(Instruction::SkipIfEq { x, byte })
    } else if a == 0x4 {
        Some(Instruction::SkipIfNotEq { x, byte })
    } else if a == 0x5 && d == 0x0 {
        Some(Instruction::SkipIfRegEq { x, y })
    } else if a == 0x6 {
        Some(Instruction::LoadVxByte { x, byte })
    } else if a == 0x7 {
        Some(Instruction::AddVxByte { x, byte })
    } else if a == 0x8 && d == 0x0 {
        Some(Instruction::LoadVxVy { x, y })
    } else if a == 0x8 && d == 0x1 {
        Some(Instruction::OrVxVy { x, y })
    } else if a == 0x8 && d == 0x2 {
        Some(Instruction::AndVxVy { x, y })
    } else if a == 0x8 && d == 0x3 {
        Some(Instruction::XorVxVy { x, y })
    } else if a == 0x8 && d == 0x4 {
        Some(Instruction::AddVxVy { x, y })
    } else if a == 0x8 && d == 0x5 {
        Some(Instruction::SubVxVy { x, y })
    } else if a == 0x8 && d == 0x6 {
        Some(Instruction::ShiftRight { x })
    } else if a == 0x8 && d == 0x7 {
        Some(Instruction::SubVyVx { x, y })
    } else if a == 0x8 && d == 0xE {
        Some(Instruction::ShiftLeft { x })
    } else if a == 0x9 && d == 0x0 {
        Some(Instruction::SkipIfRegNotEq { x, y })
    } else if a == 0xA {
        Some(Instruction::LoadI { addr })
    } else if a == 0xB {
        Some(Instruction::JumpV0 { addr })
    } else if a == 0xC {
        Some(Instruction::Random { x, byte })
    } else if a == 0xD {
        Some(Instruction::Draw { x, y, n: d })
    } else if a == 0xE && c == 0x9 && d == 0xE {
        Some(Instruction::SkipIfKey { x })
    } else if a == 0xE && c == 0xA && d == 0x1 {
        Some(Instruction::SkipIfNotKey { x })
    } else if a == 0xF && c == 0x0 && d == 0x7 {
        Some(Instruction::LoadVxDelay { x })
    } else if a == 0xF && c == 0x0 && d == 0xA {
        Some(Instruction::WaitKey { x })
    } else if a == 0xF && c == 0x1 && d == 0x5 {
        Some(Instruction::LoadDelayVx { x })
    } else if a == 0xF && c == 0x1 && d == 0x8 {
        Some(Instruction::LoadSoundVx { x })
    } else if a == 0xF && c == 0x1 && d == 0xE {
        Some(Instruction::AddIVx { x })
    } else if a == 0xF && c == 0x2 && d == 0x9 {
        Some(Instruction::LoadFont { x })
    } else if a == 0xF && c == 0x3 && d == 0x3 {
        Some(Instruction::StoreBcd { x })
    } else if a == 0xF && c == 0x5 && d == 0x5 {
        Some(Instruction::StoreRegs { x })
    } else if a == 0xF && c == 0x6 && d == 0x5 {
        Some(Instruction::LoadRegs { x })
    } else {
        None
    }
}

/// Decodes an opcode into the instruction it encodes; `None` where the opcode is not a
/// CHIP-8 instruction.
pub fn decode(opcode: Opcode) -> (ins: Option<Instruction>)
    ensures
        ins == spec_decode(opcode),
{
    // Extract each nibble from the 2 byte opcode.
    let nibbles = (
        (opcode & 0xF000) >> 12,
        (opcode & 0x0F00) >> 8,
        (opcode & 0x00F0) >> 4,
        (opcode & 0x000F),
    );
    proof {
        assert((opcode & 0xF000) >> 12 == opcode / 0x1000) by (bit_vector);
        assert((opcode & 0x0F00) >> 8 == (opcode / 0x100) % 0x10) by (bit_vector);
        assert((opcode & 0x00F0) >> 4 == (opcode / 0x10) % 0x10) by (bit_vector);
        assert(opcode & 0x000F == opcode % 0x10) by (bit_vector);
        assert(opcode % 0x1000 == ((opcode / 0x100) % 0x10) * 256 + ((opcode / 0x10) % 0x10) * 16
            + opcode % 0x10) by (bit_vector);
        assert(opcode % 0x100 == ((opcode / 0x10) % 0x10) * 16 + opcode % 0x10) by (bit_vector);
    }
    match nibbles {
        // (0x0, n1, n2, n3) is SYS addr, ignored by modern interpreters.
        (0x0, 0x0, 0xE, 0x0) => Some(Instruction::ClearScreen),
        (0x0, 0x0, 0xE, 0xE) => Some(Instruction::Return),
        (0x1, n1, n2, n3) => Some(Instruction::Jump { addr: nibbles_to_addr(n1, n2, n3) }),
        (0x2, n1, n2, n3) => Some(Instruction::Call { addr: nibbles_to_addr(n1, n2, n3) }),
        (0x3, x, k1, k2) => Some(Instruction::SkipIfEq { x: x as u8, byte: nibbles_to_byte(k1, k2) }),
        (0x4, x, k1, k2) => Some(
            Instruction::SkipIfNotEq { x: x as u8, byte: nibbles_to_byte(k1, k2) },
        ),
        (0x5, x, y, 0x0) => Some(Instruction::SkipIfRegEq { x: x as u8, y: y as u8 }),
        (0x6, x, k1, k2) => Some(
            Instruction::LoadVxByte { x: x as u8, byte: nibbles_to_byte(k1, k2) },
        ),
        (0x7, x, k1, k2) => Some(Instruction::AddVxByte { x: x as u8, byte: nibbles_to_byte(k1, k2) }),
        (0x8, x, y, 0x0) => Some(Instruction::LoadVxVy { x: x as u8, y: y as u8 }),
        (0x8, x, y, 0x1) => Some(Instruction::OrVxVy { x: x as u8, y: y as u8 }),
        (0x8, x, y, 0x2) => Some(Instruction::AndVxVy { x: x as u8, y: y as u8 }),
        (0x8, x, y, 0x3) => Some(Instruction::XorVxVy { x: x as u8, y: y as u8 }),
        (0x8, x, y, 0x4) => Some(Instruction::AddVxVy { x: x as u8, y: y as u8 }),
        (0x8, x, y, 0x5) => Some(Instruction::SubVxVy { x: x as u8, y: y as u8 }),
        (0x8, x, _y, 0x6) => Some(Instruction::ShiftRight { x: x as u8 }),
        (0x8, x, y, 0x7) => Some(Instruction::SubVyVx { x: x as u8, y: y as u8 }),
        (0x8, x, _y, 0xE) => Some(Instruction::ShiftLeft { x: x as u8 }),
        (0x9, x, y, 0x0) => Some(Instruction::SkipIfRegNotEq { x: x as u8, y: y as u8 }),
        (0xA, n1, n2, n3) => Some(Instruction::LoadI { addr: nibbles_to_addr(n1, n2, n3) }),
        (0xB, n1, n2, n3) => Some(Instruction::JumpV0 { addr: nibbles_to_addr(n1, n2, n3) }),
        (0xC, x, k1, k2) => Some(Instruction::Random { x: x as u8, byte: nibbles_to_byte(k1, k2) }),
        (0xD, x, y, n) => Some(Instruction::Draw { x: x as u8, y: y as u8, n }),
        (0xE, x, 0x9, 0xE) => Some(Instruction::SkipIfKey { x: x as u8 }),
        (0xE, x, 0xA, 0x1) => Some(Instruction::SkipIfNotKey { x: x as u8 }),
        (0xF, x, 0x0, 0x7) => Some(Instruction::LoadVxDelay { x: x as u8 }),
        (0xF, x, 0x0, 0xA) => Some(Instruction::WaitKey { x: x as u8 }),
        (0xF, x, 0x1, 0x5) => Some(Instruction::LoadDelayVx { x: x as u8 }),
        (0xF, x, 0x1, 0x8) => Some(Instruction::LoadSoundVx { x: x as u8 }),
        (0xF, x, 0x1, 0xE) => Some(Instruction::AddIVx { x: x as u8 }),
        (0xF, x, 0x2, 0x9) => Some(Instruction::LoadFont { x: x as u8 }),
        (0xF, x, 0x3, 0x3) => Some(Instruction::StoreBcd { x: x as u8 }),
        (0xF, x, 0x5, 0x5) => Some(Instruction::StoreRegs { x: x as u8 }),
        (0xF, x, 0x6, 0x5) => Some(Instruction::LoadRegs { x: x as u8 }),
        _ => None,
    }
}

} // verus!
