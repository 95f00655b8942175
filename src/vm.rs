use vstd::prelude::*;

use crate::opcode::{decode, decode_spec, Instruction};
use crate::screen::{collides, drawn, lit_prefix, Framebuffer, MainLoopAction, SCREEN_PIXELS};
use crate::timers::Timers;

verus! {

/// Size of the address space in bytes.
pub const MEMORY_SIZE: usize = 4096;

/// Address at which programs are loaded and execution starts.
pub const PROGRAM_START: usize = 512;

/// Largest program that fits between `PROGRAM_START` and the end of memory.
pub const MAX_PROGRAM_LEN: usize = 3584;

/// Number of general-purpose registers V0..VF.
pub const REGISTER_COUNT: usize = 16;

/// Depth of the return-address stack.
pub const STACK_DEPTH: usize = 16;

/// Index of the flag register VF.
pub const FLAG_REGISTER: usize = 15;

/// The built-in glyphs for the hexadecimal digits 0..F, five rows each.
pub open spec fn glyph_table() -> Seq<u8> {
    seq![
        0xF0u8, 0x90, 0x90, 0x90, 0xF0, 0x20, 0x60, 0x20, 0x20, 0x70,
        0xF0, 0x10, 0xF0, 0x80, 0xF0, 0xF0, 0x10, 0xF0, 0x10, 0xF0,
        0x90, 0x90, 0xF0, 0x10, 0x10, 0xF0, 0x80, 0xF0, 0x10, 0xF0,
        0xF0, 0x80, 0xF0, 0x90, 0xF0, 0xF0, 0x10, 0x20, 0x40, 0x40,
        0xF0, 0x90, 0xF0, 0x90, 0xF0, 0xF0, 0x90, 0xF0, 0x10, 0xF0,
        0xF0, 0x90, 0xF0, 0x90, 0x90, 0xE0, 0x90, 0xE0, 0x90, 0xE0,
        0xF0, 0x80, 0x80, 0x80, 0xF0, 0xE0, 0x90, 0x90, 0x90, 0xE0,
        0xF0, 0x80, 0xF0, 0x80, 0xF0, 0xF0, 0x80, 0xF0, 0x80, 0x80,
    ]
}

/// Memory right after loading `code`: the glyphs at 0..80, the program at
/// 512.., zero everywhere else.
pub open spec fn initial_memory(code: Seq<u8>) -> Seq<u8> {
    Seq::new(
        MEMORY_SIZE as nat,
        |a: int|
            if a < 80 {
                glyph_table()[a]
            } else if PROGRAM_START <= a < PROGRAM_START + code.len() {
                code[a - PROGRAM_START]
            } else {
                0u8
            },
    )
}

/// The machine state as plain values.
pub struct VmState {
    pub memory: Seq<u8>,
    pub registers: Seq<u8>,
    pub i: u16,
    pub pc: u16,
    pub sp: u8,
    pub stack: Seq<u16>,
    pub screen: Seq<bool>,
}

impl VmState {
    pub open spec fn wf(self) -> bool {
        &&& self.memory.len() == MEMORY_SIZE
        &&& self.registers.len() == REGISTER_COUNT
        &&& self.stack.len() == STACK_DEPTH
        &&& self.sp <= STACK_DEPTH
        &&& self.screen.len() == SCREEN_PIXELS
    }
}

/// What the caller of a step has to do for the display or the keyboard.
#[derive(PartialEq, Eq, Structural, Clone, Copy, Debug)]
pub enum StepEffect {
    /// Nothing: go on with the next step.
    Continue,
    /// The framebuffer was cleared: clear the display.
    Clear,
    /// A sprite was drawn: show the framebuffer's lit pixels.
    Redraw,
    /// Block until a key is pressed, then hand it to `finish_key_wait`
    /// together with `x`; a quit request during the wait hands `None`.
    AwaitKey { x: u8 },
}

/// Why an instruction could not be executed. The machine is left as it was
/// before the instruction, with the program counter on it.
#[derive(PartialEq, Eq, Structural, Clone, Copy, Debug)]
pub enum VmError {
    /// The program counter does not leave room for a two-byte opcode.
    PcOutOfRange { pc: u16 },
    /// The opcode at `pc` is not in the instruction table.
    UnknownOpcode { opcode: u16, pc: u16 },
    /// A call with all sixteen stack slots in use.
    StackOverflow,
    /// A return with an empty stack.
    StackUnderflow,
    /// An access of `len` bytes from address `index` runs past the end of memory.
    MemoryOutOfRange { index: u16, len: u16 },
    /// A key instruction names a key outside 0..16.
    InvalidKey { key: u8 },
}

/// A program that does not fit in memory.
#[derive(PartialEq, Eq, Structural, Clone, Copy, Debug)]
pub enum LoadError {
    ProgramTooLarge { len: usize },
}

/// The opcode stored big-endian at `pc`.
pub open spec fn opcode_at(memory: Seq<u8>, pc: u16) -> u16 {
    (memory[pc as int] as int * 256 + memory[pc as int + 1] as int) as u16
}

/// `s` with register `x` set to `v`.
pub open spec fn set_reg(s: VmState, x: int, v: u8) -> VmState {
    VmState { registers: s.registers.update(x, v), ..s }
}

/// `s` with the program counter at `pc`.
pub open spec fn with_pc(s: VmState, pc: int) -> VmState {
    VmState { pc: pc as u16, ..s }
}

/// `s` with the next instruction skipped when `cond` holds.
pub open spec fn skip_if(s: VmState, cond: bool) -> VmState {
    if cond {
        with_pc(s, s.pc + 2)
    } else {
        s
    }
}

/// The flag register's value for a condition.
pub open spec fn flag(c: bool) -> u8 {
    if c {
        1
    } else {
        0
    }
}

/// Whether `len` bytes from address `index` lie inside memory.
pub open spec fn in_memory(index: u16, len: int) -> bool {
    index + len <= MEMORY_SIZE
}

/// Memory with `V[0..=x]` stored from address `i` on.
pub open spec fn stored_registers(memory: Seq<u8>, registers: Seq<u8>, i: u16, x: int) -> Seq<u8> {
    Seq::new(memory.len(), |a: int| if i <= a <= i + x { registers[a - i] } else { memory[a] })
}

/// Registers with `V[0..=x]` loaded from address `i` on.
pub open spec fn loaded_registers(memory: Seq<u8>, registers: Seq<u8>, i: u16, x: int) -> Seq<u8> {
    Seq::new(registers.len(), |r: int| if r <= x { memory[i + r] } else { registers[r] })
}

/// The effect of instruction `ins` on state `s`, whose program counter is
/// on the instruction, given the timers `t`, the keys held down `keys` and
/// the random byte `rnd` (read only by CXNN). The program counter moves
/// past the instruction before the instruction acts, so jumps overwrite it.
pub open spec fn execute_spec(
    s: VmState,
    t: Timers,
    ins: Instruction,
    keys: Seq<bool>,
    rnd: u8,
) -> Result<(VmState, Timers, StepEffect), VmError> {
    let n = with_pc(s, s.pc + 2);
    let v = s.registers;
    let go = StepEffect::Continue;
    match ins {
        Instruction::ClearScreen => Ok(
            (VmState { screen: Seq::new(SCREEN_PIXELS as nat, |p: int| false), ..n }, t, StepEffect::Clear),
        ),
        Instruction::Return => if s.sp == 0 {
            Err(VmError::StackUnderflow)
        } else {
            Ok((VmState { sp: (s.sp - 1) as u8, pc: s.stack[s.sp - 1], ..n }, t, go))
        },
        Instruction::Jump { addr } => Ok((with_pc(n, addr as int), t, go)),
        Instruction::Call { addr } => if s.sp >= STACK_DEPTH {
            Err(VmError::StackOverflow)
        } else {
            Ok(
                (
                    VmState {
                        stack: s.stack.update(s.sp as int, n.pc),
                        sp: (s.sp + 1) as u8,
                        pc: addr,
                        ..n
                    },
                    t,
                    go,
                ),
            )
        },
        Instruction::SkipIfEq { x, nn } => Ok((skip_if(n, v[x as int] == nn), t, go)),
        Instruction::SkipIfNe { x, nn } => Ok((skip_if(n, v[x as int] != nn), t, go)),
        Instruction::SkipIfRegsEq { x, y } => Ok((skip_if(n, v[x as int] == v[y as int]), t, go)),
        Instruction::Load { x, nn } => Ok((set_reg(n, x as int, nn), t, go)),
        Instruction::AddConst { x, nn } => Ok(
            (set_reg(n, x as int, ((v[x as int] + nn) % 256) as u8), t, go),
        ),
        Instruction::Move { x, y } => Ok((set_reg(n, x as int, v[y as int]), t, go)),
        Instruction::Or { x, y } => Ok((set_reg(n, x as int, v[x as int] | v[y as int]), t, go)),
        Instruction::And { x, y } => Ok((set_reg(n, x as int, v[x as int] & v[y as int]), t, go)),
        Instruction::Xor { x, y } => Ok((set_reg(n, x as int, v[x as int] ^ v[y as int]), t, go)),
        Instruction::AddRegs { x, y } => {
            let sum = v[x as int] + v[y as int];
            Ok((set_reg(set_reg(n, 15, flag(sum > 255)), x as int, (sum % 256) as u8), t, go))
        },
        Instruction::SubRegs { x, y } => Ok(
            (
                set_reg(
                    set_reg(n, 15, flag(v[x as int] > v[y as int])),
                    x as int,
                    ((v[x as int] - v[y as int]) % 256) as u8,
                ),
                t,
                go,
            ),
        ),
        Instruction::ShiftRight { x } => Ok(
            (set_reg(set_reg(n, 15, v[x as int] % 2), x as int, v[x as int] / 2), t, go),
        ),
        Instruction::SubReversed { x, y } => Ok(
            (
                set_reg(
                    set_reg(n, 15, flag(v[y as int] > v[x as int])),
                    x as int,
                    ((v[y as int] - v[x as int]) % 256) as u8,
                ),
                t,
                go,
            ),
        ),
        Instruction::ShiftLeft { x } => Ok(
            (
                set_reg(set_reg(n, 15, v[x as int] / 128), x as int, ((v[x as int] * 2) % 256) as u8),
                t,
                go,
            ),
        ),
        Instruction::SkipIfRegsNe { x, y } => Ok((skip_if(n, v[x as int] != v[y as int]), t, go)),
        Instruction::SetIndex { addr } => Ok((VmState { i: addr, ..n }, t, go)),
        Instruction::JumpOffset { addr } => Ok((with_pc(n, v[0] + addr), t, go)),
        Instruction::Random { x, nn } => Ok((set_reg(n, x as int, rnd & nn), t, go)),
        Instruction::Draw { x, y, n: rows } => if !in_memory(s.i, rows as int) {
            Err(VmError::MemoryOutOfRange { index: s.i, len: rows as u16 })
        } else {
            let sprite = s.memory.subrange(s.i as int, s.i + rows);
            let vx = v[x as int];
            let vy = v[y as int];
            Ok(
                (
                    set_reg(
                        VmState { screen: drawn(s.screen, sprite, vx, vy), ..n },
                        15,
                        flag(collides(s.screen, sprite, vx, vy)),
                    ),
                    t,
                    StepEffect::Redraw,
                ),
            )
        },
        Instruction::SkipIfKey { x } => if v[x as int] >= 16 {
            Err(VmError::InvalidKey { key: v[x as int] })
        } else {
            Ok((skip_if(n, keys[v[x as int] as int]), t, go))
        },
        Instruction::SkipIfNotKey { x } => if v[x as int] >= 16 {
            Err(VmError::InvalidKey { key: v[x as int] })
        } else {
            Ok((skip_if(n, !keys[v[x as int] as int]), t, go))
        },
        Instruction::ReadDelay { x } => Ok((set_reg(n, x as int, t.delay), t, go)),
        Instruction::WaitKey { x } => Ok((n, t, StepEffect::AwaitKey { x })),
        Instruction::SetDelay { x } => Ok((n, Timers { delay: v[x as int], ..t }, go)),
        Instruction::SetSound { x } => Ok((n, Timers { sound: v[x as int], ..t }, go)),
        Instruction::AddIndex { x } => Ok((VmState { i: ((s.i + v[x as int]) % 65536) as u16, ..n }, t, go)),
        Instruction::Glyph { x } => Ok((VmState { i: (v[x as int] * 5) as u16, ..n }, t, go)),
        Instruction::StoreBcd { x } => if !in_memory(s.i, 3) {
            Err(VmError::MemoryOutOfRange { index: s.i, len: 3 })
        } else {
            let d = v[x as int];
            Ok(
                (
                    VmState {
                        memory: s.memory.update(s.i as int, d / 100).update(
                            s.i + 1,
                            (d / 10) % 10,
                        ).update(s.i + 2, d % 10),
                        ..n
                    },
                    t,
                    go,
                ),
            )
        },
        Instruction::StoreRegs { x } => if !in_memory(s.i, x + 1) {
            Err(VmError::MemoryOutOfRange { index: s.i, len: (x + 1) as u16 })
        } else {
            Ok((VmState { memory: stored_registers(s.memory, v, s.i, x as int), ..n }, t, go))
        },
        Instruction::LoadRegs { x } => if !in_memory(s.i, x + 1) {
            Err(VmError::MemoryOutOfRange { index: s.i, len: (x + 1) as u16 })
        } else {
            Ok((VmState { registers: loaded_registers(s.memory, v, s.i, x as int), ..n }, t, go))
        },
    }
}

/// One instruction cycle: fetch the opcode at the program counter, decode
/// it and execute it.
pub open spec fn step_spec(s: VmState, t: Timers, keys: Seq<bool>, rnd: u8) -> Result<
    (VmState, Timers, StepEffect),
    VmError,
> {
    if s.pc + 1 >= MEMORY_SIZE {
        Err(VmError::PcOutOfRange { pc: s.pc })
    } else {
        let op = opcode_at(s.memory, s.pc);
        match decode_spec(op) {
            None => Err(VmError::UnknownOpcode { opcode: op, pc: s.pc }),
            Some(ins) => execute_spec(s, t, ins, keys, rnd),
        }
    }
}

/// The outcome of a step as the triple that `step_spec` speaks of.
pub open spec fn outcome(r: Result<StepEffect, VmError>, s: VmState, t: Timers) -> Result<
    (VmState, Timers, StepEffect),
    VmError,
> {
    match r {
        Ok(e) => Ok((s, t, e)),
        Err(e) => Err(e),
    }
}

/// The state right after loading `code`: registers, index, stack and
/// framebuffer cleared, execution at `PROGRAM_START`.
pub open spec fn initial_state(code: Seq<u8>) -> VmState {
    VmState {
        memory: initial_memory(code),
        registers: Seq::new(REGISTER_COUNT as nat, |r: int| 0u8),
        i: 0,
        pc: PROGRAM_START as u16,
        sp: 0,
        stack: Seq::new(STACK_DEPTH as nat, |k: int| 0u16),
        screen: Seq::new(SCREEN_PIXELS as nat, |p: int| false),
    }
}

/// The virtual machine: memory, registers, stack and framebuffer. The two
/// timers live apart in `Timers`, since a clock of its own counts them down.
pub struct Vm {
    memory: Vec<u8>,
    registers: Vec<u8>,
    i_reg: u16,
    pc: u16,
    sp: u8,
    stack: Vec<u16>,
    screen: Framebuffer,
}

impl View for Vm {
    type V = VmState;

    closed spec fn view(&self) -> VmState {
        VmState {
            memory: self.memory@,
            registers: self.registers@,
            i: self.i_reg,
            pc: self.pc,
            sp: self.sp,
            stack: self.stack@,
            screen: self.screen@,
        }
    }
}

/// Relies on `rand::random::<u8>`, which draws a byte from the thread-local
/// generator; nothing is known of its value.
#[verifier::external_body]
fn random_byte() -> (r: u8) {
    rand::random::<u8>()
}

/// `a - b`, wrapping modulo 256.
fn wrapping_sub(a: u8, b: u8) -> (r: u8)
    ensures
        r == ((a - b) % 256) as u8,
{
    if a >= b {
        a - b
    } else {
        (a as u16 + 256 - b as u16) as u8
    }
}

/// The glyph rows, as stored at the bottom of memory.
fn glyph_bytes() -> (r: Vec<u8>)
    ensures
        r@ == glyph_table(),
{
    let r: Vec<u8> = vec![
        0xF0u8, 0x90, 0x90, 0x90, 0xF0, 0x20, 0x60, 0x20, 0x20, 0x70,
        0xF0, 0x10, 0xF0, 0x80, 0xF0, 0xF0, 0x10, 0xF0, 0x10, 0xF0,
        0x90, 0x90, 0xF0, 0x10, 0x10, 0xF0, 0x80, 0xF0, 0x10, 0xF0,
        0xF0, 0x80, 0xF0, 0x90, 0xF0, 0xF0, 0x10, 0x20, 0x40, 0x40,
        0xF0, 0x90, 0xF0, 0x90, 0xF0, 0xF0, 0x90, 0xF0, 0x10, 0xF0,
        0xF0, 0x90, 0xF0, 0x90, 0x90, 0xE0, 0x90, 0xE0, 0x90, 0xE0,
        0xF0, 0x80, 0x80, 0x80, 0xF0, 0xE0, 0x90, 0x90, 0x90, 0xE0,
        0xF0, 0x80, 0xF0, 0x80, 0xF0, 0xF0, 0x80, 0xF0, 0x80, 0x80,
    ];
    assert(r@ =~= glyph_table());
    r
}

impl Vm {
    pub open spec fn wf(&self) -> bool {
        self@.wf()
    }

    /// A machine with `code` loaded at `PROGRAM_START`.
    pub fn new(code: Vec<u8>) -> (r: Vm)
        requires
            code.len() <= MAX_PROGRAM_LEN,
        ensures
            r.wf(),
            r@ == initial_state(code@),
    {
        let glyphs = glyph_bytes();
        let len = code.len();
        let mut memory: Vec<u8> = Vec::new();
        let mut a: usize = 0;
        while a < MEMORY_SIZE
            invariant
                a <= MEMORY_SIZE,
                len == code@.len() <= MAX_PROGRAM_LEN,
                glyphs@ == glyph_table(),
                memory@.len() == a,
                forall|b: int| 0 <= b < a ==> memory@[b] == #[trigger] initial_memory(code@)[b],
            decreases MEMORY_SIZE - a,
        {
            let byte = if a < 80 {
                glyphs[a]
            } else if PROGRAM_START <= a && a < PROGRAM_START + len {
                code[a - PROGRAM_START]
            } else {
                0u8
            };
            memory.push(byte);
            a += 1;
        }
        assert(memory@ =~= initial_memory(code@));
        let registers: Vec<u8> = vec![0u8; REGISTER_COUNT];
        let stack: Vec<u16> = vec![0u16; STACK_DEPTH];
        let screen = Framebuffer::new();
        let r = Vm { memory, registers, i_reg: 0, pc: PROGRAM_START as u16, sp: 0, stack, screen };
        assert(r@.registers =~= initial_state(code@).registers);
        assert(r@.stack =~= initial_state(code@).stack);
        r
    }

    /// A machine with `code` loaded, or `ProgramTooLarge` when `code` does
    /// not fit in memory.
    pub fn load(code: Vec<u8>) -> (r: Result<Vm, LoadError>)
        ensures
            code.len() > MAX_PROGRAM_LEN ==> r == Err::<Vm, LoadError>(
                LoadError::ProgramTooLarge { len: code.len() },
            ),
            code.len() <= MAX_PROGRAM_LEN ==> (r matches Ok(vm) && vm.wf() && vm@ == initial_state(
                code@,
            )),
    {
        if code.len() > MAX_PROGRAM_LEN {
            Err(LoadError::ProgramTooLarge { len: code.len() })
        } else {
            Ok(Vm::new(code))
        }
    }

    /// Sets register `x` to `v`.
    fn set_register(&mut self, x: u8, v: u8)
        requires
            old(self).wf(),
            x < 16,
        ensures
            final(self)@ == set_reg(old(self)@, x as int, v),
    {
        self.registers.set(x as usize, v);
    }

    /// Sets VF to the flag for `c`, then register `x` to `v`.
    fn set_flag_then_register(&mut self, x: u8, c: bool, v: u8)
        requires
            old(self).wf(),
            x < 16,
        ensures
            final(self)@ == set_reg(set_reg(old(self)@, 15, flag(c)), x as int, v),
    {
        self.registers.set(FLAG_REGISTER, if c { 1u8 } else { 0u8 });
        self.registers.set(x as usize, v);
    }

    /// Stores `V[0..=x]` in memory from the index register on.
    fn store_registers(&mut self, x: u8)
        requires
            old(self).wf(),
            x < 16,
            in_memory(old(self)@.i, x + 1),
        ensures
            final(self)@ == (VmState {
                memory: stored_registers(old(self)@.memory, old(self)@.registers, old(self)@.i, x as int),
                ..old(self)@
            }),
    {
        let ghost before = self@;
        let base = self.i_reg as usize;
        let mut k: usize = 0;
        while k <= x as usize
            invariant
                self.wf(),
                x < 16,
                base == before.i,
                base + x + 1 <= MEMORY_SIZE,
                k <= x + 1,
                self@ == (VmState { memory: self@.memory, ..before }),
                forall|a: int|
                    0 <= a < MEMORY_SIZE ==> #[trigger] self@.memory[a] == if base <= a < base + k {
                        before.registers[a - base]
                    } else {
                        before.memory[a]
                    },
            decreases x + 1 - k,
        {
            let v = self.registers[k];
            self.memory.set(base + k, v);
            k += 1;
        }
        assert(self@.memory =~= stored_registers(before.memory, before.registers, before.i, x as int));
    }

    /// Loads `V[0..=x]` from memory from the index register on.
    fn load_registers(&mut self, x: u8)
        requires
            old(self).wf(),
            x < 16,
            in_memory(old(self)@.i, x + 1),
        ensures
            final(self)@ == (VmState {
                registers: loaded_registers(old(self)@.memory, old(self)@.registers, old(self)@.i, x as int),
                ..old(self)@
            }),
    {
        let ghost before = self@;
        let base = self.i_reg as usize;
        let mut k: usize = 0;
        while k <= x as usize
            invariant
                self.wf(),
                x < 16,
                base == before.i,
                base + x + 1 <= MEMORY_SIZE,
                k <= x + 1,
                self@ == (VmState { registers: self@.registers, ..before }),
                forall|r: int|
                    0 <= r < REGISTER_COUNT ==> #[trigger] self@.registers[r] == if r < k {
                        before.memory[base + r]
                    } else {
                        before.registers[r]
                    },
            decreases x + 1 - k,
        {
            let v = self.memory[base + k];
            self.registers.set(k, v);
            k += 1;
        }
        assert(self@.registers =~= loaded_registers(before.memory, before.registers, before.i, x as int));
    }

    /// Draws the `rows`-row sprite stored at the index register at
    /// `(V[x], V[y])` and sets VF to the collision flag.
    fn draw(&mut self, x: u8, y: u8, rows: u8)
        requires
            old(self).wf(),
            x < 16,
            y < 16,
            rows < 16,
            in_memory(old(self)@.i, rows as int),
        ensures
            ({
                let s = old(self)@;
                let sprite = s.memory.subrange(s.i as int, s.i + rows);
                let vx = s.registers[x as int];
                let vy = s.registers[y as int];
                final(self)@ == set_reg(
                    VmState { screen: drawn(s.screen, sprite, vx, vy), ..s },
                    15,
                    flag(collides(s.screen, sprite, vx, vy)),
                )
            }),
    {
        let ghost before = self@;
        let base = self.i_reg as usize;
        let mut sprite: Vec<u8> = Vec::new();
        let mut k: usize = 0;
        while k < rows as usize
            invariant
                self@ == before,
                self.wf(),
                base == before.i,
                base + rows <= MEMORY_SIZE,
                k <= rows,
                sprite@ == before.memory.subrange(base as int, base + k),
            decreases rows - k,
        {
            sprite.push(self.memory[base + k]);
            k += 1;
            assert(sprite@ =~= before.memory.subrange(base as int, base + k));
        }
        let vx = self.registers[x as usize];
        let vy = self.registers[y as usize];
        let collision = self.screen.draw_sprite(sprite.as_slice(), vx, vy);
        self.registers.set(FLAG_REGISTER, if collision { 1u8 } else { 0u8 });
    }

    /// Executes `ins`, an instruction on control flow, the display and the keys.
    #[verifier::spinoff_prover]
    fn execute_flow(&mut self, timers: &mut Timers, ins: Instruction, keys: &[bool; 16], rnd: u8) -> (r:
        Result<StepEffect, VmError>)
        requires
            old(self).wf(),
            old(self)@.pc + 1 < MEMORY_SIZE,
            crate::opcode::operands_in_range(ins),
            ins is ClearScreen
                || ins is Return
                || ins is Jump
                || ins is Call
                || ins is SkipIfEq
                || ins is SkipIfNe
                || ins is SkipIfRegsEq
                || ins is SkipIfRegsNe
                || ins is JumpOffset
                || ins is SkipIfKey
                || ins is SkipIfNotKey
                || ins is WaitKey,
        ensures
            final(self).wf(),
            outcome(r, final(self)@, *final(timers)) == execute_spec(
                old(self)@,
                *old(timers),
                ins,
                keys@,
                rnd,
            ),
            r is Err ==> final(self)@ == old(self)@ && *final(timers) == *old(timers),
    {
        let next = self.pc + 2;
        match ins {
            Instruction::ClearScreen => {
                self.screen.clear();
                self.pc = next;
                Ok(StepEffect::Clear)
            },
            Instruction::Return => {
                if self.sp == 0 {
                    return Err(VmError::StackUnderflow);
                }
                self.sp = self.sp - 1;
                self.pc = self.stack[self.sp as usize];
                Ok(StepEffect::Continue)
            },
            Instruction::Jump { addr } => {
                self.pc = addr;
                Ok(StepEffect::Continue)
            },
            Instruction::Call { addr } => {
                if self.sp as usize >= STACK_DEPTH {
                    return Err(VmError::StackOverflow);
                }
                self.stack.set(self.sp as usize, next);
                self.sp = self.sp + 1;
                self.pc = addr;
                Ok(StepEffect::Continue)
            },
            Instruction::SkipIfEq { x, nn } => {
                let skip = self.registers[x as usize] == nn;
                self.pc = if skip { next + 2 } else { next };
                Ok(StepEffect::Continue)
            },
            Instruction::SkipIfNe { x, nn } => {
                let skip = self.registers[x as usize] != nn;
                self.pc = if skip { next + 2 } else { next };
                Ok(StepEffect::Continue)
            },
            Instruction::SkipIfRegsEq { x, y } => {
                let skip = self.registers[x as usize] == self.registers[y as usize];
                self.pc = if skip { next + 2 } else { next };
                Ok(StepEffect::Continue)
            },
            Instruction::SkipIfRegsNe { x, y } => {
                let skip = self.registers[x as usize] != self.registers[y as usize];
                self.pc = if skip { next + 2 } else { next };
                Ok(StepEffect::Continue)
            },
            Instruction::JumpOffset { addr } => {
                self.pc = self.registers[0] as u16 + addr;
                Ok(StepEffect::Continue)
            },
            Instruction::SkipIfKey { x } => {
                let key = self.registers[x as usize];
                if key >= 16 {
                    return Err(VmError::InvalidKey { key });
                }
                self.pc = if keys[key as usize] { next + 2 } else { next };
                Ok(StepEffect::Continue)
            },
            Instruction::SkipIfNotKey { x } => {
                let key = self.registers[x as usize];
                if key >= 16 {
                    return Err(VmError::InvalidKey { key });
                }
                self.pc = if !keys[key as usize] { next + 2 } else { next };
                Ok(StepEffect::Continue)
            },
            Instruction::WaitKey { x } => {
                self.pc = next;
                Ok(StepEffect::AwaitKey { x })
            },
            _ => {
                // excluded by the precondition
                proof {
                    assert(false);
                }
                Err(VmError::StackUnderflow)
            },
        }
    }

    /// Executes `ins`, an instruction on register moves and bitwise logic.
    #[verifier::spinoff_prover]
    fn execute_logic(&mut self, timers: &mut Timers, ins: Instruction, keys: &[bool; 16], rnd: u8) -> (r:
        Result<StepEffect, VmError>)
        requires
            old(self).wf(),
            old(self)@.pc + 1 < MEMORY_SIZE,
            crate::opcode::operands_in_range(ins),
            ins is Load
                || ins is AddConst
                || ins is Move
                || ins is Or
                || ins is And
                || ins is Xor
                || ins is Random,
        ensures
            final(self).wf(),
            outcome(r, final(self)@, *final(timers)) == execute_spec(
                old(self)@,
                *old(timers),
                ins,
                keys@,
                rnd,
            ),
            r is Err ==> final(self)@ == old(self)@ && *final(timers) == *old(timers),
    {
        let next = self.pc + 2;
        match ins {
            Instruction::Load { x, nn } => {
                self.pc = next;
                self.set_register(x, nn);
                Ok(StepEffect::Continue)
            },
            Instruction::AddConst { x, nn } => {
                let v = self.registers[x as usize];
                self.pc = next;
                self.set_register(x, ((v as u16 + nn as u16) % 256) as u8);
                Ok(StepEffect::Continue)
            },
            Instruction::Move { x, y } => {
                let v = self.registers[y as usize];
                self.pc = next;
                self.set_register(x, v);
                Ok(StepEffect::Continue)
            },
            Instruction::Or { x, y } => {
                let v = self.registers[x as usize] | self.registers[y as usize];
                self.pc = next;
                self.set_register(x, v);
                Ok(StepEffect::Continue)
            },
            Instruction::And { x, y } => {
                let v = self.registers[x as usize] & self.registers[y as usize];
                self.pc = next;
                self.set_register(x, v);
                Ok(StepEffect::Continue)
            },
            Instruction::Xor { x, y } => {
                let v = self.registers[x as usize] ^ self.registers[y as usize];
                self.pc = next;
                self.set_register(x, v);
                Ok(StepEffect::Continue)
            },
            Instruction::Random { x, nn } => {
                self.pc = next;
                self.set_register(x, rnd & nn);
                Ok(StepEffect::Continue)
            },
            _ => {
                // excluded by the precondition
                proof {
                    assert(false);
                }
                Err(VmError::StackUnderflow)
            },
        }
    }

    /// Executes `ins`, an instruction on register arithmetic that sets the flag register.
    #[verifier::spinoff_prover]
    fn execute_arith(&mut self, timers: &mut Timers, ins: Instruction, keys: &[bool; 16], rnd: u8) -> (r:
        Result<StepEffect, VmError>)
        requires
            old(self).wf(),
            old(self)@.pc + 1 < MEMORY_SIZE,
            crate::opcode::operands_in_range(ins),
            ins is AddRegs
                || ins is SubRegs
                || ins is ShiftRight
                || ins is SubReversed
                || ins is ShiftLeft,
        ensures
            final(self).wf(),
            outcome(r, final(self)@, *final(timers)) == execute_spec(
                old(self)@,
                *old(timers),
                ins,
                keys@,
                rnd,
            ),
            r is Err ==> final(self)@ == old(self)@ && *final(timers) == *old(timers),
    {
        let next = self.pc + 2;
        match ins {
            Instruction::AddRegs { x, y } => {
                let sum = self.registers[x as usize] as u16 + self.registers[y as usize] as u16;
                self.pc = next;
                self.set_flag_then_register(x, sum > 255, (sum % 256) as u8);
                Ok(StepEffect::Continue)
            },
            Instruction::SubRegs { x, y } => {
                let vx = self.registers[x as usize];
                let vy = self.registers[y as usize];
                self.pc = next;
                self.set_flag_then_register(x, vx > vy, wrapping_sub(vx, vy));
                Ok(StepEffect::Continue)
            },
            Instruction::ShiftRight { x } => {
                let vx = self.registers[x as usize];
                self.pc = next;
                self.registers.set(FLAG_REGISTER, vx % 2);
                self.set_register(x, vx / 2);
                Ok(StepEffect::Continue)
            },
            Instruction::SubReversed { x, y } => {
                let vx = self.registers[x as usize];
                let vy = self.registers[y as usize];
                self.pc = next;
                self.set_flag_then_register(x, vy > vx, wrapping_sub(vy, vx));
                Ok(StepEffect::Continue)
            },
            Instruction::ShiftLeft { x } => {
                let vx = self.registers[x as usize];
                self.pc = next;
                self.registers.set(FLAG_REGISTER, vx / 128);
                self.set_register(x, ((vx as u16 * 2) % 256) as u8);
                Ok(StepEffect::Continue)
            },
            _ => {
                // excluded by the precondition
                proof {
                    assert(false);
                }
                Err(VmError::StackUnderflow)
            },
        }
    }

    /// Executes `ins`, an instruction on the timers, the index register and memory.
    #[verifier::spinoff_prover]
    fn execute_memory(&mut self, timers: &mut Timers, ins: Instruction, keys: &[bool; 16], rnd: u8) -> (r:
        Result<StepEffect, VmError>)
        requires
            old(self).wf(),
            old(self)@.pc + 1 < MEMORY_SIZE,
            crate::opcode::operands_in_range(ins),
            ins is ReadDelay
                || ins is SetDelay
                || ins is SetSound
                || ins is SetIndex
                || ins is AddIndex
                || ins is Glyph
                || ins is StoreBcd
                || ins is StoreRegs
                || ins is LoadRegs
                || ins is Draw,
        ensures
            final(self).wf(),
            outcome(r, final(self)@, *final(timers)) == execute_spec(
                old(self)@,
                *old(timers),
                ins,
                keys@,
                rnd,
            ),
            r is Err ==> final(self)@ == old(self)@ && *final(timers) == *old(timers),
    {
        let next = self.pc + 2;
        match ins {
            Instruction::ReadDelay { x } => {
                self.pc = next;
                self.set_register(x, timers.delay);
                Ok(StepEffect::Continue)
            },
            Instruction::SetDelay { x } => {
                timers.delay = self.registers[x as usize];
                self.pc = next;
                Ok(StepEffect::Continue)
            },
            Instruction::SetSound { x } => {
                timers.sound = self.registers[x as usize];
                self.pc = next;
                Ok(StepEffect::Continue)
            },
            Instruction::SetIndex { addr } => {
                self.i_reg = addr;
                self.pc = next;
                Ok(StepEffect::Continue)
            },
            Instruction::AddIndex { x } => {
                let v = self.registers[x as usize];
                self.i_reg = ((self.i_reg as u32 + v as u32) % 65536) as u16;
                self.pc = next;
                Ok(StepEffect::Continue)
            },
            Instruction::Glyph { x } => {
                self.i_reg = self.registers[x as usize] as u16 * 5;
                self.pc = next;
                Ok(StepEffect::Continue)
            },
            Instruction::StoreBcd { x } => {
                let base = self.i_reg as usize;
                if base + 3 > MEMORY_SIZE {
                    return Err(VmError::MemoryOutOfRange { index: self.i_reg, len: 3 });
                }
                let v = self.registers[x as usize];
                self.memory.set(base, v / 100);
                self.memory.set(base + 1, (v / 10) % 10);
                self.memory.set(base + 2, v % 10);
                self.pc = next;
                Ok(StepEffect::Continue)
            },
            Instruction::StoreRegs { x } => {
                if self.i_reg as usize + x as usize + 1 > MEMORY_SIZE {
                    return Err(
                        VmError::MemoryOutOfRange { index: self.i_reg, len: x as u16 + 1 },
                    );
                }
                self.store_registers(x);
                self.pc = next;
                Ok(StepEffect::Continue)
            },
            Instruction::LoadRegs { x } => {
                if self.i_reg as usize + x as usize + 1 > MEMORY_SIZE {
                    return Err(
                        VmError::MemoryOutOfRange { index: self.i_reg, len: x as u16 + 1 },
                    );
                }
                self.load_registers(x);
                self.pc = next;
                Ok(StepEffect::Continue)
            },
            Instruction::Draw { x, y, n } => {
                if self.i_reg as usize + n as usize > MEMORY_SIZE {
                    return Err(VmError::MemoryOutOfRange { index: self.i_reg, len: n as u16 });
                }
                self.draw(x, y, n);
                self.pc = next;
                Ok(StepEffect::Redraw)
            },
            _ => {
                // excluded by the precondition
                proof {
                    assert(false);
                }
                Err(VmError::StackUnderflow)
            },
        }
    }

    /// Executes `ins`, the instruction at the program counter.
    fn execute(&mut self, timers: &mut Timers, ins: Instruction, keys: &[bool; 16], rnd: u8) -> (r:
        Result<StepEffect, VmError>)
        requires
            old(self).wf(),
            old(self)@.pc + 1 < MEMORY_SIZE,
            crate::opcode::operands_in_range(ins),
        ensures
            final(self).wf(),
            outcome(r, final(self)@, *final(timers)) == execute_spec(
                old(self)@,
                *old(timers),
                ins,
                keys@,
                rnd,
            ),
            r is Err ==> final(self)@ == old(self)@ && *final(timers) == *old(timers),
    {
        match ins {
            Instruction::ClearScreen
            | Instruction::Return
            | Instruction::Jump { .. }
            | Instruction::Call { .. }
            | Instruction::SkipIfEq { .. }
            | Instruction::SkipIfNe { .. }
            | Instruction::SkipIfRegsEq { .. }
            | Instruction::SkipIfRegsNe { .. }
            | Instruction::JumpOffset { .. }
            | Instruction::SkipIfKey { .. }
            | Instruction::SkipIfNotKey { .. }
            | Instruction::WaitKey { .. } => self.execute_flow(timers, ins, keys, rnd),
            Instruction::Load { .. }
            | Instruction::AddConst { .. }
            | Instruction::Move { .. }
            | Instruction::Or { .. }
            | Instruction::And { .. }
            | Instruction::Xor { .. }
            | Instruction::Random { .. } => self.execute_logic(timers, ins, keys, rnd),
            Instruction::AddRegs { .. }
            | Instruction::SubRegs { .. }
            | Instruction::ShiftRight { .. }
            | Instruction::SubReversed { .. }
            | Instruction::ShiftLeft { .. } => self.execute_arith(timers, ins, keys, rnd),
            Instruction::ReadDelay { .. }
            | Instruction::SetDelay { .. }
            | Instruction::SetSound { .. }
            | Instruction::SetIndex { .. }
            | Instruction::AddIndex { .. }
            | Instruction::Glyph { .. }
            | Instruction::StoreBcd { .. }
            | Instruction::StoreRegs { .. }
            | Instruction::LoadRegs { .. }
            | Instruction::Draw { .. } => self.execute_memory(timers, ins, keys, rnd),
        }
    }

    /// Fetches the opcode at the program counter and decodes it.
    fn fetch(&self) -> (r: Result<Instruction, VmError>)
        requires
            self.wf(),
        ensures
            self@.pc + 1 >= MEMORY_SIZE ==> r == Err::<Instruction, VmError>(
                VmError::PcOutOfRange { pc: self@.pc },
            ),
            self@.pc + 1 < MEMORY_SIZE ==> r == match decode_spec(opcode_at(self@.memory, self@.pc)) {
                None => Err(VmError::UnknownOpcode { opcode: opcode_at(self@.memory, self@.pc), pc: self@.pc }),
                Some(ins) => Ok(ins),
            },
            r matches Ok(ins) ==> crate::opcode::operands_in_range(ins),
    {
        let at = self.pc as usize;
        if at + 1 >= MEMORY_SIZE {
            return Err(VmError::PcOutOfRange { pc: self.pc });
        }
        let opcode = self.memory[at] as u16 * 256 + self.memory[at + 1] as u16;
        match decode(opcode) {
            None => Err(VmError::UnknownOpcode { opcode, pc: self.pc }),
            Some(ins) => Ok(ins),
        }
    }

    /// One instruction cycle, with `keys` the keys held down (indexed by key
    /// code) and `rnd` the byte that a CXNN instruction masks.
    pub fn step_with(&mut self, timers: &mut Timers, keys: &[bool; 16], rnd: u8) -> (r: Result<
        StepEffect,
        VmError,
    >)
        requires
            old(self).wf(),
        ensures
            final(self).wf(),
            outcome(r, final(self)@, *final(timers)) == step_spec(old(self)@, *old(timers), keys@, rnd),
            r is Err ==> final(self)@ == old(self)@ && *final(timers) == *old(timers),
    {
        match self.fetch() {
            Err(e) => Err(e),
            Ok(ins) => self.execute(timers, ins, keys, rnd),
        }
    }

    /// One instruction cycle, with `keys` the keys held down (indexed by key
    /// code). A CXNN instruction draws a random byte; the outcome is that of
    /// `step_spec` for some byte.
    pub fn step(&mut self, timers: &mut Timers, keys: &[bool; 16]) -> (r: Result<StepEffect, VmError>)
        requires
            old(self).wf(),
        ensures
            final(self).wf(),
            exists|rnd: u8|
                #[trigger] step_spec(old(self)@, *old(timers), keys@, rnd) == outcome(
                    r,
                    final(self)@,
                    *final(timers),
                ),
            r is Err ==> final(self)@ == old(self)@ && *final(timers) == *old(timers),
    {
        match self.fetch() {
            Err(e) => {
                assert(step_spec(self@, *timers, keys@, 0) == outcome(Err(e), self@, *timers));
                Err(e)
            },
            Ok(ins) => {
                let rnd = match ins {
                    Instruction::Random { .. } => random_byte(),
                    _ => 0u8,
                };
                let r = self.execute(timers, ins, keys, rnd);
                assert(step_spec(old(self)@, *old(timers), keys@, rnd) == outcome(r, self@, *timers));
                r
            },
        }
    }

    /// Ends the wait of an FX0A instruction on register `x`: `Some(key)`
    /// stores the key in V[x] and the run goes on; `None`, a quit request
    /// during the wait, stops the run.
    pub fn finish_key_wait(&mut self, x: u8, key: Option<u8>) -> (r: MainLoopAction)
        requires
            old(self).wf(),
            x < 16,
        ensures
            final(self).wf(),
            key is None ==> r == MainLoopAction::Interrupt && final(self)@ == old(self)@,
            key matches Some(k) ==> r == MainLoopAction::Continue && final(self)@ == set_reg(
                old(self)@,
                x as int,
                k,
            ),
    {
        match key {
            None => MainLoopAction::Interrupt,
            Some(k) => {
                self.set_register(x, k);
                MainLoopAction::Continue
            },
        }
    }

    /// The program counter.
    pub fn pc(&self) -> (r: u16)
        ensures
            r == self@.pc,
    {
        self.pc
    }

    /// The stack pointer: the number of return addresses on the stack.
    pub fn sp(&self) -> (r: u8)
        ensures
            r == self@.sp,
    {
        self.sp
    }

    /// The index register I.
    pub fn index_register(&self) -> (r: u16)
        ensures
            r == self@.i,
    {
        self.i_reg
    }

    /// Register V[x].
    pub fn register(&self, x: usize) -> (r: u8)
        requires
            self.wf(),
            x < REGISTER_COUNT,
        ensures
            r == self@.registers[x as int],
    {
        self.registers[x]
    }

    /// The byte at address `addr`.
    pub fn memory_at(&self, addr: usize) -> (r: u8)
        requires
            self.wf(),
            addr < MEMORY_SIZE,
        ensures
            r == self@.memory[addr as int],
    {
        self.memory[addr]
    }

    /// Whether the pixel at column `x`, row `y` is on.
    pub fn pixel(&self, x: usize, y: usize) -> (r: bool)
        requires
            self.wf(),
            x < 64,
            y < 32,
        ensures
            r == self@.screen[y * 64 + x],
    {
        self.screen.pixel(x, y)
    }

    /// The coordinates `(x, y)` of the lit pixels, row by row: what the
    /// display shows after a draw.
    pub fn lit_points(&self) -> (r: Vec<(usize, usize)>)
        requires
            self.wf(),
        ensures
            r@ == lit_prefix(self@.screen, SCREEN_PIXELS as int),
    {
        self.screen.lit_points()
    }
}

} // verus!
