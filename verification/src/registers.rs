use vstd::prelude::*;

verus! {

/// Number of general purpose registers, V0 to VF.
pub const NUM_V_REGISTERS: u8 = 16;

/// The CHIP-8 register file.
pub struct Registers {
    // General purpose registers.
    pub v0: u8,
    pub v1: u8,
    pub v2: u8,
    pub v3: u8,
    pub v4: u8,
    pub v5: u8,
    pub v6: u8,
    pub v7: u8,
    pub v8: u8,
    pub v9: u8,
    pub va: u8,
    pub vb: u8,
    pub vc: u8,
    pub vd: u8,
    pub ve: u8,
    /// Used as a flag register by some instructions.
    pub vf: u8,
    /// Delay timer.
    pub dt: u8,
    /// Sound timer.
    pub st: u8,
    /// Program counter.
    pub pc: u16,
    /// Stack pointer.
    pub sp: u8,
    /// Index register, used for storing pointers to memory.
    pub i: u16,
}

impl Registers {
    /// The general purpose registers V0 to VF, in order.
    pub open spec fn v_regs(self) -> Seq<u8> {
        seq![
            self.v0,
            self.v1,
            self.v2,
            self.v3,
            self.v4,
            self.v5,
            self.v6,
            self.v7,
            self.v8,
            self.v9,
            self.va,
            self.vb,
            self.vc,
            self.vd,
            self.ve,
            self.vf,
        ]
    }

    /// The two registers hold the same special purpose values (timers, PC, SP and I).
    pub open spec fn same_special(self, other: Registers) -> bool {
        &&& self.dt == other.dt
        &&& self.st == other.st
        &&& self.pc == other.pc
        &&& self.sp == other.sp
        &&& self.i == other.i
    }

    /// All registers zeroed.
    pub fn new() -> (r: Self)
        ensures
            r.v_regs() == Seq::new(16, |k: int| 0u8),
            r.dt == 0,
            r.st == 0,
            r.pc == 0,
            r.sp == 0,
            r.i == 0,
    {
        let r = Self {
            v0: 0,
            v1: 0,
            v2: 0,
            v3: 0,
            v4: 0,
            v5: 0,
            v6: 0,
            v7: 0,
            v8: 0,
            v9: 0,
            va: 0,
            vb: 0,
            vc: 0,
            vd: 0,
            ve: 0,
            vf: 0,
            dt: 0,
            st: 0,
            pc: 0,
            sp: 0,
            i: 0,
        };
        assert(r.v_regs() =~= Seq::new(16, |k: int| 0u8));
        r
    }

    /// Sets general purpose register Vx to `value`.
    pub fn set_v_register(&mut self, x: u8, value: u8)
        requires
            x < NUM_V_REGISTERS,
        ensures
            final(self).v_regs() == old(self).v_regs().update(x as int, value),
            final(self).same_special(*old(self)),
    {
        match x {
            0x0 => self.v0 = value,
            0x1 => self.v1 = value,
            0x2 => self.v2 = value,
            0x3 => self.v3 = value,
            0x4 => self.v4 = value,
            0x5 => self.v5 = value,
            0x6 => self.v6 = value,
            0x7 => self.v7 = value,
            0x8 => self.v8 = value,
            0x9 => self.v9 = value,
            0xa => self.va = value,
            0xb => self.vb = value,
            0xc => self.vc = value,
            0xd => self.vd = value,
            0xe => self.ve = value,
            _ => self.vf = value,
        }
        assert(self.v_regs() =~= old(self).v_regs().update(x as int, value));
    }

    /// The value of general purpose register Vx.
    pub fn get_v_register(&self, x: u8) -> (value: u8)
        requires
            x < NUM_V_REGISTERS,
        ensures
            value == self.v_regs()[x as int],
    {
        match x {
            0x0 => self.v0,
            0x1 => self.v1,
            0x2 => self.v2,
            0x3 => self.v3,
            0x4 => self.v4,
            0x5 => self.v5,
            0x6 => self.v6,
            0x7 => self.v7,
            0x8 => self.v8,
            0x9 => self.v9,
            0xa => self.va,
            0xb => self.vb,
            0xc => self.vc,
            0xd => self.vd,
            0xe => self.ve,
            _ => self.vf,
        }
    }
}

} // verus!
