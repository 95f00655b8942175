use vstd::prelude::*;

verus! {

/// The top nibble of an opcode word (bits 12-15): the instruction family.
pub open spec fn family(op: u16) -> int {
    op as int / 4096
}

/// The nibble that names register X (bits 8-11).
pub open spec fn nibble_x(op: u16) -> int {
    (op as int / 256) % 16
}

/// The nibble that names register Y (bits 4-7).
pub open spec fn nibble_y(op: u16) -> int {
    (op as int / 16) % 16
}

/// The lowest nibble (bits 0-3).
pub open spec fn nibble_n(op: u16) -> int {
    op as int % 16
}

/// Returns the instruction family nibble of `instruction`.
pub fn upper_first_byte(instruction: u16) -> (r: u8)
    ensures
        r as int == family(instruction),
{
    proof {
        assert((instruction >> 12u16) & 0xFu16 == instruction / 4096) by (bit_vector);
    }
    ((instruction >> 12u16) & 0x000Fu16) as u8
}

/// Returns bits 4-7 of `instruction` (the Y nibble).
pub fn upper_second_byte(instruction: u16) -> (r: u8)
    ensures
        r as int == nibble_y(instruction),
{
    proof {
        assert((instruction >> 4u16) & 0xFu16 == (instruction / 16) % 16) by (bit_vector);
    }
    ((instruction >> 4u16) & 0x000Fu16) as u8
}

/// Returns bits 0-3 of `instruction`.
pub fn lower_second_byte(instruction: u16) -> (r: u8)
    ensures
        r as int == nibble_n(instruction),
{
    proof {
        assert(instruction & 0xFu16 == instruction % 16) by (bit_vector);
    }
    (instruction & 0x000Fu16) as u8
}

/// Bits 8-11 of `instruction` (the X nibble).
fn register_x(instruction: u16) -> (r: u8)
    ensures
        r as int == nibble_x(instruction),
{
    proof {
        assert((instruction >> 8u16) & 0xFu16 == (instruction / 256) % 16) by (bit_vector);
    }
    ((instruction >> 8u16) & 0x000Fu16) as u8
}

/// The low byte of `instruction` (the NN operand).
fn low_byte(instruction: u16) -> (r: u8)
    ensures
        r as int == instruction as int % 256,
{
    proof {
        assert(instruction & 0xFFu16 == instruction % 256) by (bit_vector);
    }
    (instruction & 0x00FFu16) as u8
}

/// The low twelve bits of `instruction` (the NNN address operand).
fn address(instruction: u16) -> (r: u16)
    ensures
        r as int == instruction as int % 4096,
{
    proof {
        assert(instruction & 0xFFFu16 == instruction % 4096) by (bit_vector);
    }
    instruction & 0x0FFFu16
}

/// A decoded instruction. `x` and `y` name registers (0..16), `nn` is an
/// immediate byte, `n` a sprite height and `addr` a 12-bit address.
#[derive(PartialEq, Eq, Structural, Clone, Copy, Debug)]
pub enum Instruction {
    /// 00E0: clear the framebuffer.
    ClearScreen,
    /// 00EE: return from a subroutine.
    Return,
    /// 1NNN: jump to NNN.
    Jump { addr: u16 },
    /// 2NNN: call the subroutine at NNN.
    Call { addr: u16 },
    /// 3XNN: skip the next instruction if V[X] == NN.
    SkipIfEq { x: u8, nn: u8 },
    /// 4XNN: skip the next instruction if V[X] != NN.
    SkipIfNe { x: u8, nn: u8 },
    /// 5XY0: skip the next instruction if V[X] == V[Y].
    SkipIfRegsEq { x: u8, y: u8 },
    /// 6XNN: V[X] = NN.
    Load { x: u8, nn: u8 },
    /// 7XNN: V[X] += NN, wrapping, VF untouched.
    AddConst { x: u8, nn: u8 },
    /// 8XY0: V[X] = V[Y].
    Move { x: u8, y: u8 },
    /// 8XY1: V[X] |= V[Y].
    Or { x: u8, y: u8 },
    /// 8XY2: V[X] &= V[Y].
    And { x: u8, y: u8 },
    /// 8XY3: V[X] ^= V[Y].
    Xor { x: u8, y: u8 },
    /// 8XY4: V[X] += V[Y], VF = carry.
    AddRegs { x: u8, y: u8 },
    /// 8XY5: V[X] -= V[Y], VF = (V[X] > V[Y]).
    SubRegs { x: u8, y: u8 },
    /// 8XY6: VF = V[X] & 1, V[X] >>= 1.
    ShiftRight { x: u8 },
    /// 8XY7: V[X] = V[Y] - V[X], VF = (V[Y] > V[X]).
    SubReversed { x: u8, y: u8 },
    /// 8XYE: VF = bit 7 of V[X], V[X] <<= 1.
    ShiftLeft { x: u8 },
    /// 9XY0: skip the next instruction if V[X] != V[Y].
    SkipIfRegsNe { x: u8, y: u8 },
    /// ANNN: I = NNN.
    SetIndex { addr: u16 },
    /// BNNN: jump to V[0] + NNN.
    JumpOffset { addr: u16 },
    /// CXNN: V[X] = random byte & NN.
    Random { x: u8, nn: u8 },
    /// DXYN: draw an N-row sprite from memory at I at (V[X], V[Y]).
    Draw { x: u8, y: u8, n: u8 },
    /// EX9E: skip the next instruction if key V[X] is down.
    SkipIfKey { x: u8 },
    /// EXA1: skip the next instruction if key V[X] is up.
    SkipIfNotKey { x: u8 },
    /// FX07: V[X] = delay timer.
    ReadDelay { x: u8 },
    /// FX0A: wait for a key press and store it in V[X].
    WaitKey { x: u8 },
    /// FX15: delay timer = V[X].
    SetDelay { x: u8 },
    /// FX18: sound timer = V[X].
    SetSound { x: u8 },
    /// FX1E: I += V[X], wrapping at 16 bits.
    AddIndex { x: u8 },
    /// FX29: I = address of the glyph for digit V[X].
    Glyph { x: u8 },
    /// FX33: store the decimal digits of V[X] at I, I+1, I+2.
    StoreBcd { x: u8 },
    /// FX55: store V[0..=X] at I..=I+X.
    StoreRegs { x: u8 },
    /// FX65: load V[0..=X] from I..=I+X.
    LoadRegs { x: u8 },
}

/// The instruction that the opcode word `op` encodes, if any.
pub open spec fn decode_spec(op: u16) -> Option<Instruction> {
    let f = family(op);
    let x = nibble_x(op) as u8;
    let y = nibble_y(op) as u8;
    let n = nibble_n(op);
    let nn = (op as int % 256) as u8;
    let addr = (op as int % 4096) as u16;
    if op == 0x00E0 {
        Some(Instruction::ClearScreen)
    } else if op == 0x00EE {
        Some(Instruction::Return)
    } else if f == 1 {
        Some(Instruction::Jump { addr })
    } else if f == 2 {
        Some(Instruction::Call { addr })
    } else if f == 3 {
        Some(Instruction::SkipIfEq { x, nn })
    } else if f == 4 {
        Some(Instruction::SkipIfNe { x, nn })
    } else if f == 5 && n == 0 {
        Some(Instruction::SkipIfRegsEq { x, y })
    } else if f == 6 {
        Some(Instruction::Load { x, nn })
    } else if f == 7 {
        Some(Instruction::AddConst { x, nn })
    } else if f == 8 && n == 0 {
        Some(Instruction::Move { x, y })
    } else if f == 8 && n == 1 {
        Some(Instruction::Or { x, y })
    } else if f == 8 && n == 2 {
        Some(Instruction::And { x, y })
    } else if f == 8 && n == 3 {
        Some(Instruction::Xor { x, y })
    } else if f == 8 && n == 4 {
        Some(Instruction::AddRegs { x, y })
    } else if f == 8 && n == 5 {
        Some(Instruction::SubRegs { x, y })
    } else if f == 8 && n == 6 {
        Some(Instruction::ShiftRight { x })
    } else if f == 8 && n == 7 {
        Some(Instruction::SubReversed { x, y })
    } else if f == 8 && n == 0xE {
        Some(Instruction::ShiftLeft { x })
    } else if f == 9 && n == 0 {
        Some(Instruction::SkipIfRegsNe { x, y })
    } else if f == 0xA {
        Some(Instruction::SetIndex { addr })
    } else if f == 0xB {
        Some(Instruction::JumpOffset { addr })
    } else if f == 0xC {
        Some(Instruction::Random { x, nn })
    } else if f == 0xD {
        Some(Instruction::Draw { x, y, n: n as u8 })
    } else if f == 0xE && nn == 0x9E {
        Some(Instruction::SkipIfKey { x })
    } else if f == 0xE && nn == 0xA1 {
        Some(Instruction::SkipIfNotKey { x })
    } else if f == 0xF && nn == 0x07 {
        Some(Instruction::ReadDelay { x })
    } else if f == 0xF && nn == 0x0A {
        Some(Instruction::WaitKey { x })
    } else if f == 0xF && nn == 0x15 {
        Some(Instruction::SetDelay { x })
    } else if f == 0xF && nn == 0x18 {
        Some(Instruction::SetSound { x })
    } else if f == 0xF && nn == 0x1E {
        Some(Instruction::AddIndex { x })
    } else if f == 0xF && nn == 0x29 {
        Some(Instruction::Glyph { x })
    } else if f == 0xF && nn == 0x33 {
        Some(Instruction::StoreBcd { x })
    } else if f == 0xF && nn == 0x55 {
        Some(Instruction::StoreRegs { x })
    } else if f == 0xF && nn == 0x65 {
        Some(Instruction::LoadRegs { x })
    } else {
        None
    }
}

/// Whether each register operand names one of the sixteen registers, a
/// sprite height fits in a nibble and an address in twelve bits. Every
/// decoded instruction meets this.
pub open spec fn operands_in_range(ins: Instruction) -> bool {
    match ins {
        Instruction::SkipIfEq { x, .. }
        | Instruction::SkipIfNe { x, .. }
        | Instruction::Load { x, .. }
        | Instruction::AddConst { x, .. }
        | Instruction::Random { x, .. }
        | Instruction::ShiftRight { x }
        | Instruction::ShiftLeft { x }
        | Instruction::SkipIfKey { x }
        | Instruction::SkipIfNotKey { x }
        | Instruction::ReadDelay { x }
        | Instruction::WaitKey { x }
        | Instruction::SetDelay { x }
        | Instruction::SetSound { x }
        | Instruction::AddIndex { x }
        | Instruction::Glyph { x }
        | Instruction::StoreBcd { x }
        | Instruction::StoreRegs { x }
        | Instruction::LoadRegs { x } => x < 16,
        Instruction::SkipIfRegsEq { x, y }
        | Instruction::Move { x, y }
        | Instruction::Or { x, y }
        | Instruction::And { x, y }
        | Instruction::Xor { x, y }
        | Instruction::AddRegs { x, y }
        | Instruction::SubRegs { x, y }
        | Instruction::SubReversed { x, y }
        | Instruction::SkipIfRegsNe { x, y } => x < 16 && y < 16,
        Instruction::Draw { x, y, n } => x < 16 && y < 16 && n < 16,
        Instruction::Jump { addr }
        | Instruction::Call { addr }
        | Instruction::SetIndex { addr }
        | Instruction::JumpOffset { addr } => addr < 4096,
        Instruction::ClearScreen | Instruction::Return => true,
    }
}

/// Decodes the opcode word `op`; `None` for a word outside the instruction table.
pub fn decode(op: u16) -> (r: Option<Instruction>)
    ensures
        r == decode_spec(op),
        r matches Some(ins) ==> operands_in_range(ins),
{
    let f = upper_first_byte(op);
    let x = register_x(op);
    let y = upper_second_byte(op);
    let n = lower_second_byte(op);
    let nn = low_byte(op);
    let addr = address(op);
    if op == 0x00E0 {
        Some(Instruction::ClearScreen)
    } else if op == 0x00EE {
        Some(Instruction::Return)
    } else if f == 1 {
        Some(Instruction::Jump { addr })
    } else if f == 2 {
        Some(Instruction::Call { addr })
    } else if f == 3 {
        Some(Instruction::SkipIfEq { x, nn })
    } else if f == 4 {
        Some(Instruction::SkipIfNe { x, nn })
    } else if f == 5 && n == 0 {
        Some(Instruction::SkipIfRegsEq { x, y })
    } else if f == 6 {
        Some(Instruction::Load { x, nn })
    } else if f == 7 {
        Some(Instruction::AddConst { x, nn })
    } else if f == 8 && n == 0 {
        Some(Instruction::Move { x, y })
    } else if f == 8 && n == 1 {
        Some(Instruction::Or { x, y })
    } else if f == 8 && n == 2 {
        Some(Instruction::And { x, y })
    } else if f == 8 && n == 3 {
        Some(Instruction::Xor { x, y })
    } else if f == 8 && n == 4 {
        Some(Instruction::AddRegs { x, y })
    } else if f == 8 && n == 5 {
        Some(Instruction::SubRegs { x, y })
    } else if f == 8 && n == 6 {
        Some(Instruction::ShiftRight { x })
    } else if f == 8 && n == 7 {
        Some(Instruction::SubReversed { x, y })
    } else if f == 8 && n == 0xE {
        Some(Instruction::ShiftLeft { x })
    } else if f == 9 && n == 0 {
        Some(Instruction::SkipIfRegsNe { x, y })
    } else if f == 0xA {
        Some(Instruction::SetIndex { addr })
    } else if f == 0xB {
        Some(Instruction::JumpOffset { addr })
    } else if f == 0xC {
        Some(Instruction::Random { x, nn })
    } else if f == 0xD {
        Some(Instruction::Draw { x, y, n })
    } else if f == 0xE && nn == 0x9E {
        Some(Instruction::SkipIfKey { x })
    } else if f == 0xE && nn == 0xA1 {
        Some(Instruction::SkipIfNotKey { x })
    } else if f == 0xF && nn == 0x07 {
        Some(Instruction::ReadDelay { x })
    } else if f == 0xF && nn == 0x0A {
        Some(Instruction::WaitKey { x })
    } else if f == 0xF && nn == 0x15 {
        Some(Instruction::SetDelay { x })
    } else if f == 0xF && nn == 0x18 {
        Some(Instruction::SetSound { x })
    } else if f == 0xF && nn == 0x1E {
        Some(Instruction::AddIndex { x })
    } else if f == 0xF && nn == 0x29 {
        Some(Instruction::Glyph { x })
    } else if f == 0xF && nn == 0x33 {
        Some(Instruction::StoreBcd { x })
    } else if f == 0xF && nn == 0x55 {
        Some(Instruction::StoreRegs { x })
    } else if f == 0xF && nn == 0x65 {
        Some(Instruction::LoadRegs { x })
    } else {
        None
    }
}

} // verus!
