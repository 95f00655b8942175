use vstd::prelude::*;

use crate::opcode::{family, Instruction};
use crate::screen::{collides, drawn, SCREEN_PIXELS};
use crate::timers::Timers;
use crate::vm::{execute_spec, flag, opcode_at, step_spec, VmState, MEMORY_SIZE};

verus! {

/// A 1NNN opcode moves the program counter to NNN exactly, and a BNNN
/// opcode to V[0] + NNN exactly.
pub proof fn lemma_jump_targets(s: VmState, t: Timers, keys: Seq<bool>, rnd: u8)
    requires
        s.wf(),
        s.pc + 1 < MEMORY_SIZE,
        family(opcode_at(s.memory, s.pc)) == 1 || family(opcode_at(s.memory, s.pc)) == 0xB,
    ensures
        ({
            let op = opcode_at(s.memory, s.pc);
            step_spec(s, t, keys, rnd) matches Ok((s2, _, _)) && s2.pc == if family(op) == 1 {
                op as int % 4096
            } else {
                s.registers[0] + op as int % 4096
            }
        }),
{
}

/// A 2NNN call followed by the 00EE return at NNN brings the program counter
/// back to the instruction after the call and the stack pointer back to its
/// value before the call.
pub proof fn lemma_call_return(
    s: VmState,
    t: Timers,
    keys: Seq<bool>,
    rnd: u8,
    keys2: Seq<bool>,
    rnd2: u8,
)
    requires
        s.wf(),
        s.pc + 1 < MEMORY_SIZE,
        s.sp < 16,
        family(opcode_at(s.memory, s.pc)) == 2,
        opcode_at(s.memory, (opcode_at(s.memory, s.pc) % 4096) as u16) == 0x00EE,
        opcode_at(s.memory, s.pc) % 4096 + 1 < MEMORY_SIZE,
    ensures
        step_spec(s, t, keys, rnd) matches Ok((s1, t1, _)) && (step_spec(s1, t1, keys2, rnd2) matches Ok(
            (s2, _, _),
        ) && s2.pc == s.pc + 2 && s2.sp == s.sp),
{
}

/// 8XY4 for every pair of operands: VF is 1 exactly when V[X] + V[Y]
/// exceeds 255 (and 0 otherwise), and V[X] becomes the sum modulo 256. With
/// X = F the sum overwrites the flag, so X is another register.
pub proof fn lemma_add_carry(s: VmState, t: Timers, x: u8, y: u8, keys: Seq<bool>, rnd: u8)
    requires
        s.wf(),
        x < 15,
        y < 16,
    ensures
        ({
            let vx = s.registers[x as int];
            let vy = s.registers[y as int];
            execute_spec(s, t, Instruction::AddRegs { x, y }, keys, rnd) matches Ok((s2, _, _))
                && (s2.registers[15] == 1 <==> vx + vy > 255) && s2.registers[15] <= 1
                && s2.registers[x as int] == (vx + vy) % 256
        }),
{
}

/// 8XY5 sets VF to whether V[X] > V[Y] and 8XY7 to whether V[Y] > V[X],
/// both compared before either register changes; V[X] becomes the wrapping
/// difference. With X = F the difference overwrites the flag, so X is
/// another register.
pub proof fn lemma_sub_borrow(s: VmState, t: Timers, x: u8, y: u8, keys: Seq<bool>, rnd: u8)
    requires
        s.wf(),
        x < 15,
        y < 16,
    ensures
        ({
            let vx = s.registers[x as int];
            let vy = s.registers[y as int];
            execute_spec(s, t, Instruction::SubRegs { x, y }, keys, rnd) matches Ok((s2, _, _))
                && s2.registers[15] == flag(vx > vy) && s2.registers[x as int] == (vx - vy) % 256
        }),
        ({
            let vx = s.registers[x as int];
            let vy = s.registers[y as int];
            execute_spec(s, t, Instruction::SubReversed { x, y }, keys, rnd) matches Ok((s2, _, _))
                && s2.registers[15] == flag(vy > vx) && s2.registers[x as int] == (vy - vx) % 256
        }),
{
}

/// FX55 then FX65 from the same I: whatever the registers held in between,
/// V[0..=X] come back with the values that were stored.
pub proof fn lemma_store_load_round_trip(
    s: VmState,
    t: Timers,
    x: u8,
    between: VmState,
    t2: Timers,
    keys: Seq<bool>,
    rnd: u8,
)
    requires
        s.wf(),
        x < 16,
        s.i + x + 1 <= MEMORY_SIZE,
        between.wf(),
    ensures
        execute_spec(s, t, Instruction::StoreRegs { x }, keys, rnd) matches Ok((s1, _, _)) && (
        execute_spec(
            VmState { memory: s1.memory, i: s1.i, ..between },
            t2,
            Instruction::LoadRegs { x },
            keys,
            rnd,
        ) matches Ok((s3, _, _)) && forall|k: int|
            0 <= k <= x ==> #[trigger] s3.registers[k] == s.registers[k]),
{
}

/// Drawing the same sprite twice at the same place restores every pixel;
/// every pixel that the first draw turned on is off again, and if the first
/// draw turned any pixel on, the second sets VF to 1. The sprite is placed
/// by V[X] and V[Y], which the first draw's flag must not change, so
/// neither is VF.
pub proof fn lemma_draw_twice(
    s: VmState,
    t: Timers,
    x: u8,
    y: u8,
    n: u8,
    keys: Seq<bool>,
    rnd: u8,
)
    requires
        s.wf(),
        x < 15,
        y < 15,
        n < 16,
        s.i + n <= MEMORY_SIZE,
    ensures
        execute_spec(s, t, Instruction::Draw { x, y, n }, keys, rnd) matches Ok((s1, t1, _)) && (
        execute_spec(s1, t1, Instruction::Draw { x, y, n }, keys, rnd) matches Ok((s2, _, _))
            && s2.screen == s.screen && (forall|p: int|
            0 <= p < SCREEN_PIXELS && #[trigger] s1.screen[p] && !s.screen[p] ==> !s2.screen[p]) && ((
        exists|p: int| 0 <= p < SCREEN_PIXELS && #[trigger] s1.screen[p] && !s.screen[p])
            ==> s2.registers[15] == 1)),
{
    let sprite = s.memory.subrange(s.i as int, s.i + n);
    let vx = s.registers[x as int];
    let vy = s.registers[y as int];
    let once = drawn(s.screen, sprite, vx, vy);
    assert(drawn(once, sprite, vx, vy) =~= s.screen);
    if exists|p: int| 0 <= p < SCREEN_PIXELS && #[trigger] once[p] && !s.screen[p] {
        let p = choose|p: int| 0 <= p < SCREEN_PIXELS && #[trigger] once[p] && !s.screen[p];
        assert(collides(once, sprite, vx, vy));
    }
}

} // verus!
