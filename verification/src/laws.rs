use vstd::prelude::*;
use crate::instruction::{Instruction, spec_decode};
use crate::memory::write_bytes;
use crate::state::{CpuState, bcd_digits, in_sprite_area, xor_sprite_area, turns_off};

verus! {

/// Popping right after pushing `addr` returns `addr` and leaves the stack as it was.
pub proof fn lemma_pop_undoes_push(stack: Seq<u16>, addr: u16)
    ensures
        stack.push(addr).last() == addr,
        stack.push(addr).drop_last() == stack,
{
    assert(stack.push(addr).drop_last() =~= stack);
}

/// Reading a register right after setting it gives the value set, and the other registers
/// keep theirs.
pub proof fn lemma_get_after_set(v: Seq<u8>, x: int, value: u8)
    requires
        0 <= x < v.len(),
    ensures
        v.update(x, value)[x] == value,
        forall|k: int| 0 <= k < v.len() && k != x ==> v.update(x, value)[k] == v[k],
{
}

/// Reading memory right after writing `data` at `addr` gives `data` back, and every other
/// byte keeps its value.
pub proof fn lemma_read_after_write(mem: Seq<u8>, addr: int, data: Seq<u8>)
    requires
        0 <= addr,
        addr + data.len() <= mem.len(),
    ensures
        write_bytes(mem, addr, data).len() == mem.len(),
        write_bytes(mem, addr, data).subrange(addr, addr + data.len()) == data,
        forall|k: int|
            0 <= k < mem.len() && !(addr <= k < addr + data.len()) ==> #[trigger] write_bytes(
                mem,
                addr,
                data,
            )[k] == mem[k],
{
    assert(write_bytes(mem, addr, data).subrange(addr, addr + data.len()) =~= data);
}

/// The three BCD digits of a byte are decimal digits that spell the byte's value.
pub proof fn lemma_bcd_digits_spell_value(v: u8)
    ensures
        bcd_digits(v).len() == 3,
        bcd_digits(v)[0] < 10 && bcd_digits(v)[1] < 10 && bcd_digits(v)[2] < 10,
        bcd_digits(v)[0] * 100 + bcd_digits(v)[1] * 10 + bcd_digits(v)[2] == v,
{
}

/// Every instruction that can be carried out keeps the sizes of the machine state.
pub proof fn lemma_execute_keeps_wf(s: CpuState, ins: Instruction)
    requires
        s.wf(),
        s.can_execute(ins),
    ensures
        s.execute(ins).wf(),
{
}

/// Only control flow instructions move the program counter, only CALL and RET touch the
/// stack, only LD B and LD [I] write memory, and only CLS and DRW change the display.
pub proof fn lemma_execute_frame(s: CpuState, ins: Instruction)
    ensures
        !(ins is Return || ins is Jump || ins is Call || ins is SkipIfEq || ins is SkipIfNotEq
            || ins is SkipIfRegEq || ins is SkipIfRegNotEq) ==> s.execute(ins).pc == s.pc,
        !(ins is Return || ins is Call) ==> s.execute(ins).stack == s.stack,
        !(ins is StoreBcd || ins is StoreRegs) ==> s.execute(ins).memory == s.memory,
        !(ins is ClearScreen || ins is Draw) ==> s.execute(ins).pixels == s.pixels,
{
}

/// A machine that runs its cycles without panicking keeps the sizes of its state.
pub proof fn lemma_run_keeps_wf(s: CpuState, k: nat)
    requires
        s.wf(),
        forall|j: nat| j < k ==> (#[trigger] s.run(j)).can_cycle(),
    ensures
        s.run(k).wf(),
    decreases k,
{
    if k > 0 {
        let prev = (k - 1) as nat;
        lemma_run_keeps_wf(s, prev);
        assert(s.run(prev).can_cycle());
        let f = s.run(prev).fetched();
        lemma_execute_keeps_wf(f, spec_decode(s.run(prev).opcode_at_pc()).unwrap());
    }
}

/// RET right after CALL addr brings the machine back to the state before the call.
pub proof fn lemma_return_undoes_call(s: CpuState, addr: u16)
    requires
        s.can_execute(Instruction::Call { addr }),
    ensures
        s.execute(Instruction::Call { addr }).can_execute(Instruction::Return),
        s.execute(Instruction::Call { addr }).execute(Instruction::Return) == s,
{
    assert(s.stack.push(s.pc).drop_last() =~= s.stack);
    assert(s.execute(Instruction::Call { addr }).execute(Instruction::Return) =~= s);
}

/// Drawing the same sprite twice at the same place restores the display, and leaves the
/// machine as it was but for VF, where neither coordinate is read from VF.
pub proof fn lemma_draw_twice_restores_display(s: CpuState, x: u8, y: u8, n: u16)
    requires
        s.wf(),
        s.can_execute(Instruction::Draw { x, y, n }),
        x != 15,
        y != 15,
    ensures
        s.execute(Instruction::Draw { x, y, n }).can_execute(Instruction::Draw { x, y, n }),
        s.execute(Instruction::Draw { x, y, n }).execute(Instruction::Draw { x, y, n }).pixels
            == s.pixels,
        s.execute(Instruction::Draw { x, y, n }).execute(Instruction::Draw { x, y, n }).set_v(
            15,
            s.v[15],
        ) == s,
{
    let d = Instruction::Draw { x, y, n };
    let s1 = s.execute(d);
    let s2 = s1.execute(d);
    let cx = (s.v[x as int] % 64) as int;
    let cy = (s.v[y as int] % 32) as int;
    assert(s1.v[x as int] == s.v[x as int]);
    assert(s1.v[y as int] == s.v[y as int]);
    assert(s1.sprite(n) == s.sprite(n));
    assert(s2.pixels =~= s.pixels);
    assert(s2.set_v(15, s.v[15]).v =~= s.v);
    assert(s2.set_v(15, s.v[15]) =~= s);
}

/// Loading V0 to Vx from I right after storing them there changes nothing.
pub proof fn lemma_load_regs_after_store_regs(s: CpuState, x: u8)
    requires
        s.wf(),
        s.can_execute(Instruction::StoreRegs { x }),
    ensures
        s.execute(Instruction::StoreRegs { x }).can_execute(Instruction::LoadRegs { x }),
        s.execute(Instruction::StoreRegs { x }).execute(Instruction::LoadRegs { x }) == s.execute(
            Instruction::StoreRegs { x },
        ),
{
    let s1 = s.execute(Instruction::StoreRegs { x });
    assert(s1.execute(Instruction::LoadRegs { x }).v =~= s1.v);
    assert(s1.execute(Instruction::LoadRegs { x }) =~= s1);
}

/// ADD Vx, Vy leaves the full sum in VF (carry) and Vx, where Vx is not VF itself.
pub proof fn lemma_add_carry(s: CpuState, x: u8, y: u8)
    requires
        s.wf(),
        s.can_execute(Instruction::AddVxVy { x, y }),
        x != 15,
    ensures
        s.execute(Instruction::AddVxVy { x, y }).v[15] * 256 + s.execute(
            Instruction::AddVxVy { x, y },
        ).v[x as int] == s.v[x as int] + s.v[y as int],
{
}

/// SUB Vx, Vy leaves in VF whether no borrow occurred, where Vx is not VF itself and the
/// operands differ (on equal operands VF is 0 though nothing is borrowed).
pub proof fn lemma_sub_borrow(s: CpuState, x: u8, y: u8)
    requires
        s.wf(),
        s.can_execute(Instruction::SubVxVy { x, y }),
        x != 15,
        s.v[x as int] != s.v[y as int],
    ensures
        s.execute(Instruction::SubVxVy { x, y }).v[x as int] == s.v[x as int] - s.v[y as int]
            + 256 * (1 - s.execute(Instruction::SubVxVy { x, y }).v[15]),
{
}

/// Every instruction that an opcode decodes to has its operands in range.
pub proof fn lemma_decoded_operands_in_range(op: u16)
    ensures
        spec_decode(op) matches Some(ins) ==> ins.operands_in_range(),
{
}

/// The instructions that are recognised but not implemented are never carried out.
pub proof fn lemma_only_supported_instructions_run(s: CpuState, ins: Instruction)
    requires
        s.can_execute(ins),
    ensures
        ins.is_supported(),
{
}

/// After DRW, VF is 1 exactly when some pixel that was on before is off afterwards, and 0
/// otherwise, whatever VF held before.
pub proof fn lemma_draw_flag_reports_turned_off_pixels(s: CpuState, x: u8, y: u8, n: u16)
    requires
        s.wf(),
        s.can_execute(Instruction::Draw { x, y, n }),
    ensures
        s.execute(Instruction::Draw { x, y, n }).v[15] == (if exists|k: int|
            #![trigger s.execute(Instruction::Draw { x, y, n }).pixels[k]]
            0 <= k < s.pixels.len() && s.pixels[k] && !s.execute(
                Instruction::Draw { x, y, n },
            ).pixels[k] {
            1u8
        } else {
            0u8
        }),
{
    let s2 = s.execute(Instruction::Draw { x, y, n });
    let cx = (s.v[x as int] % 64) as int;
    let cy = (s.v[y as int] % 32) as int;
    let sprite = s.sprite(n);
    let off = exists|k: int| #![trigger s2.pixels[k]] 0 <= k < s.pixels.len() && s.pixels[k] && !s2.pixels[k];
    if off {
        let k = choose|k: int| #![trigger s2.pixels[k]] 0 <= k < s.pixels.len() && s.pixels[k] && !s2.pixels[k];
        assert(turns_off(s.pixels, sprite, cx, cy, n as int, 0, k));
    }
    if crate::state::sprite_collides(s.pixels, sprite, cx, cy, n as int, 0) {
        let k = choose|k: int| #[trigger] turns_off(s.pixels, sprite, cx, cy, n as int, 0, k);
        assert(0 <= k < s.pixels.len() && s.pixels[k] && !s2.pixels[k]);
    }
}

/// SE and SNE advance the program counter by 2 exactly when their condition holds, and leave
/// it alone otherwise.
pub proof fn lemma_skips_advance_pc_by_two(s: CpuState, x: u8, y: u8, byte: u8)
    ensures
        s.can_execute(Instruction::SkipIfEq { x, byte }) ==> s.execute(
            Instruction::SkipIfEq { x, byte },
        ).pc == if s.v[x as int] == byte {
            s.pc + 2
        } else {
            s.pc as int
        },
        s.can_execute(Instruction::SkipIfNotEq { x, byte }) ==> s.execute(
            Instruction::SkipIfNotEq { x, byte },
        ).pc == if s.v[x as int] != byte {
            s.pc + 2
        } else {
            s.pc as int
        },
        s.can_execute(Instruction::SkipIfRegEq { x, y }) ==> s.execute(
            Instruction::SkipIfRegEq { x, y },
        ).pc == if s.v[x as int] == s.v[y as int] {
            s.pc + 2
        } else {
            s.pc as int
        },
        s.can_execute(Instruction::SkipIfRegNotEq { x, y }) ==> s.execute(
            Instruction::SkipIfRegNotEq { x, y },
        ).pc == if s.v[x as int] != s.v[y as int] {
            s.pc + 2
        } else {
            s.pc as int
        },
{
}

/// ADD I, Vx leaves the arithmetic sum of I and Vx in I.
pub proof fn lemma_add_i_is_sum(s: CpuState, x: u8)
    requires
        s.can_execute(Instruction::AddIVx { x }),
    ensures
        s.execute(Instruction::AddIVx { x }).i == s.i + s.v[x as int],
{
}

/// SUB and SUBN leave 1 in VF exactly when the minuend is greater than the subtrahend, and
/// 0 otherwise, whatever VF held before.
pub proof fn lemma_sub_flags(s: CpuState, x: u8, y: u8)
    requires
        s.wf(),
        x < 16,
        y < 16,
    ensures
        s.execute(Instruction::SubVxVy { x, y }).v[15] <= 1,
        s.execute(Instruction::SubVxVy { x, y }).v[15] == 1 <==> s.v[x as int] > s.v[y as int],
        s.execute(Instruction::SubVyVx { x, y }).v[15] <= 1,
        s.execute(Instruction::SubVyVx { x, y }).v[15] == 1 <==> s.v[y as int] > s.v[x as int],
{
}

/// SUBN Vx, Vy leaves in VF whether no borrow occurred, where Vx is not VF itself and the
/// operands differ (on equal operands VF is 0 though nothing is borrowed).
pub proof fn lemma_subn_borrow(s: CpuState, x: u8, y: u8)
    requires
        s.wf(),
        s.can_execute(Instruction::SubVyVx { x, y }),
        x != 15,
        s.v[x as int] != s.v[y as int],
    ensures
        s.execute(Instruction::SubVyVx { x, y }).v[x as int] == s.v[y as int] - s.v[x as int]
            + 256 * (1 - s.execute(Instruction::SubVyVx { x, y }).v[15]),
{
}

/// SHR and SHL leave the bit shifted out in VF: together with the shifted Vx it makes up
/// the old value (where Vx is not VF itself).
pub proof fn lemma_shifts_keep_shifted_out_bit(s: CpuState, x: u8)
    requires
        s.wf(),
        x < 16,
    ensures
        s.execute(Instruction::ShiftRight { x }).v[15] <= 1,
        s.execute(Instruction::ShiftRight { x }).v[15] == 1 <==> s.v[x as int] % 2 == 1,
        x != 15 ==> 2 * s.execute(Instruction::ShiftRight { x }).v[x as int] + s.execute(
            Instruction::ShiftRight { x },
        ).v[15] == s.v[x as int],
        s.execute(Instruction::ShiftLeft { x }).v[15] <= 1,
        s.execute(Instruction::ShiftLeft { x }).v[15] == 1 <==> s.v[x as int] >= 128,
        x != 15 ==> s.execute(Instruction::ShiftLeft { x }).v[x as int] + 256 * s.execute(
            Instruction::ShiftLeft { x },
        ).v[15] == 2 * s.v[x as int],
{
}

} // verus!
