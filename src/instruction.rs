//! Opcodes and the instructions they stand for.
use vstd::prelude::*;

verus! {

/// One decoded instruction. Register operands `x` and `y` name registers
/// `0x0` to `0xF`; `nn` is an 8-bit immediate, `n` a 4-bit one and `nnn` a
/// 12-bit address.
#[derive(Clone, Copy, Debug, PartialEq, Eq, Structural)]
pub enum Instruction {
    /// `00E0`: clear the framebuffer.
    ClearScreen,
    /// `00EE`: return from a subroutine.
    Return,
    /// `1NNN`: jump to `nnn`.
    Jump { nnn: u16 },
    /// `2NNN`: call the subroutine at `nnn`.
    Call { nnn: u16 },
    /// `3XNN`: skip the next instruction if `VX == nn`.
    SkipEqImm { x: u8, nn: u8 },
    /// `4XNN`: skip the next instruction if `VX != nn`.
    SkipNeImm { x: u8, nn: u8 },
    /// `5XY0`: skip the next instruction if `VX == VY`.
    SkipEqReg { x: u8, y: u8 },
    /// `6XNN`: `VX = nn`.
    LoadImm { x: u8, nn: u8 },
    /// `7XNN`: `VX += nn`, wrapping, flag untouched.
    AddImm { x: u8, nn: u8 },
    /// `8XY0`: `VX = VY`.
    Move { x: u8, y: u8 },
    /// `8XY1`: `VX |= VY`.
    Or { x: u8, y: u8 },
    /// `8XY2`: `VX &= VY`.
    And { x: u8, y: u8 },
    /// `8XY3`: `VX ^= VY`.
    Xor { x: u8, y: u8 },
    /// `8XY4`: `VX += VY`, carry into `VF`.
    AddReg { x: u8, y: u8 },
    /// `8XY5`: `VX -= VY`, `VF` is 1 when there is no borrow.
    SubReg { x: u8, y: u8 },
    /// `8XY6`: `VX >>= 1`, the bit shifted out into `VF`.
    ShiftRight { x: u8, y: u8 },
    /// `8XY7`: `VX = VY - VX`, `VF` is 1 when there is no borrow.
    SubReverse { x: u8, y: u8 },
    /// `8XYE`: `VX <<= 1`, the bit shifted out into `VF`.
    ShiftLeft { x: u8, y: u8 },
    /// `9XY0`: skip the next instruction if `VX != VY`.
    SkipNeReg { x: u8, y: u8 },
    /// `ANNN`: `I = nnn`.
    SetIndex { nnn: u16 },
    /// `BNNN`: jump to `V0 + nnn`.
    JumpOffset { nnn: u16 },
    /// `CXNN`: `VX` = a random byte masked with `nn`.
    Random { x: u8, nn: u8 },
    /// `DXYN`: draw the `n`-row sprite at `I` at position `(VX, VY)`.
    Draw { x: u8, y: u8, n: u8 },
    /// `EX9E`: skip the next instruction if key `VX` is down.
    SkipKeyDown { x: u8 },
    /// `EXA1`: skip the next instruction if key `VX` is up.
    SkipKeyUp { x: u8 },
    /// `FX07`: `VX` = delay timer.
    GetDelay { x: u8 },
    /// `FX15`: delay timer = `VX`.
    SetDelay { x: u8 },
    /// `FX18`: sound timer = `VX`.
    SetSound { x: u8 },
    /// `FX1E`: `I += VX`, `VF` tells whether the sum left the address space.
    AddIndex { x: u8 },
    /// `FX29`: `I` = address of the glyph for the digit in `VX`.
    FontChar { x: u8 },
    /// `FX33`: store the three decimal digits of `VX` at `I`.
    StoreBcd { x: u8 },
    /// `FX65`: load `V0..=VX` from memory at `I`, then advance `I`.
    LoadRegs { x: u8 },
}

/// The high nibble: the instruction family.
pub open spec fn family(op: u16) -> u8 {
    (op / 0x1000) as u8
}

/// The second nibble: register operand X.
pub open spec fn field_x(op: u16) -> u8 {
    ((op / 0x100) % 0x10) as u8
}

/// The third nibble: register operand Y.
pub open spec fn field_y(op: u16) -> u8 {
    ((op / 0x10) % 0x10) as u8
}

/// The low nibble: immediate N.
pub open spec fn field_n(op: u16) -> u8 {
    (op % 0x10) as u8
}

/// The low byte: immediate NN.
pub open spec fn field_nn(op: u16) -> u8 {
    (op % 0x100) as u8
}

/// The low twelve bits: address NNN.
pub open spec fn field_nnn(op: u16) -> u16 {
    (op % 0x1000) as u16
}

impl Instruction {
    /// Operands lie in their ranges: registers below 16, `n` below 16 and
    /// addresses below 0x1000.
    pub open spec fn wf(self) -> bool {
        match self {
            Instruction::Jump { nnn } => nnn < 0x1000,
            Instruction::Call { nnn } => nnn < 0x1000,
            Instruction::SetIndex { nnn } => nnn < 0x1000,
            Instruction::JumpOffset { nnn } => nnn < 0x1000,
            Instruction::SkipEqImm { x, nn } => x < 16,
            Instruction::SkipNeImm { x, nn } => x < 16,
            Instruction::LoadImm { x, nn } => x < 16,
            Instruction::AddImm { x, nn } => x < 16,
            Instruction::Random { x, nn } => x < 16,
            Instruction::SkipEqReg { x, y } => x < 16 && y < 16,
            Instruction::Move { x, y } => x < 16 && y < 16,
            Instruction::Or { x, y } => x < 16 && y < 16,
            Instruction::And { x, y } => x < 16 && y < 16,
            Instruction::Xor { x, y } => x < 16 && y < 16,
            Instruction::AddReg { x, y } => x < 16 && y < 16,
            Instruction::SubReg { x, y } => x < 16 && y < 16,
            Instruction::ShiftRight { x, y } => x < 16 && y < 16,
            Instruction::SubReverse { x, y } => x < 16 && y < 16,
            Instruction::ShiftLeft { x, y } => x < 16 && y < 16,
            Instruction::SkipNeReg { x, y } => x < 16 && y < 16,
            Instruction::Draw { x, y, n } => x < 16 && y < 16 && n < 16,
            Instruction::SkipKeyDown { x } => x < 16,
            Instruction::SkipKeyUp { x } => x < 16,
            Instruction::GetDelay { x } => x < 16,
            Instruction::SetDelay { x } => x < 16,
            Instruction::SetSound { x } => x < 16,
            Instruction::AddIndex { x } => x < 16,
            Instruction::FontChar { x } => x < 16,
            Instruction::StoreBcd { x } => x < 16,
            Instruction::LoadRegs { x } => x < 16,
            _ => true,
        }
    }
}

/// The instruction that an opcode stands for, or `None` where the opcode
/// names no instruction of the machine.
pub open spec fn decode_spec(op: u16) -> Option<Instruction> {
    let x = field_x(op);
    let y = field_y(op);
    let n = field_n(op);
    let nn = field_nn(op);
    let nnn = field_nnn(op);
    let f = family(op);
    if f == 0x0 {
        if op == 0x00E0 {
            Some(Instruction::ClearScreen)
        } else if op == 0x00EE {
            Some(Instruction::Return)
        } else {
            None
        }
    } else if f == 0x1 {
        Some(Instruction::Jump { nnn })
    } else if f == 0x2 {
        Some(Instruction::Call { nnn })
    } else if f == 0x3 {
        Some(Instruction::SkipEqImm { x, nn })
    } else if f == 0x4 {
        Some(Instruction::SkipNeImm { x, nn })
    } else if f == 0x5 {
        if n == 0 { Some(Instruction::SkipEqReg { x, y }) } else { None }
    } else if f == 0x6 {
        Some(Instruction::LoadImm { x, nn })
    } else if f == 0x7 {
        Some(Instruction::AddImm { x, nn })
    } else if f == 0x8 {
        if n == 0x0 {
            Some(Instruction::Move { x, y })
        } else if n == 0x1 {
            Some(Instruction::Or { x, y })
        } else if n == 0x2 {
            Some(Instruction::And { x, y })
        } else if n == 0x3 {
            Some(Instruction::Xor { x, y })
        } else if n == 0x4 {
            Some(Instruction::AddReg { x, y })
        } else if n == 0x5 {
            Some(Instruction::SubReg { x, y })
        } else if n == 0x6 {
            Some(Instruction::ShiftRight { x, y })
        } else if n == 0x7 {
            Some(Instruction::SubReverse { x, y })
        } else if n == 0xE {
            Some(Instruction::ShiftLeft { x, y })
        } else {
            None
        }
    } else if f == 0x9 {
        if n == 0 { Some(Instruction::SkipNeReg { x, y }) } else { None }
    } else if f == 0xA {
        Some(Instruction::SetIndex { nnn })
    } else if f == 0xB {
        Some(Instruction::JumpOffset { nnn })
    } else if f == 0xC {
        Some(Instruction::Random { x, nn })
    } else if f == 0xD {
        Some(Instruction::Draw { x, y, n })
    } else if f == 0xE {
        if nn == 0x9E {
            Some(Instruction::SkipKeyDown { x })
        } else if nn == 0xA1 {
            Some(Instruction::SkipKeyUp { x })
        } else {
            None
        }
    } else {
        if nn == 0x07 {
            Some(Instruction::GetDelay { x })
        } else if nn == 0x15 {
            Some(Instruction::SetDelay { x })
        } else if nn == 0x18 {
            Some(Instruction::SetSound { x })
        } else if nn == 0x1E {
            Some(Instruction::AddIndex { x })
        } else if nn == 0x29 {
            Some(Instruction::FontChar { x })
        } else if nn == 0x33 {
            Some(Instruction::StoreBcd { x })
        } else if nn == 0x65 {
            Some(Instruction::LoadRegs { x })
        } else {
            None
        }
    }
}

/// Decodes one opcode into the instruction it stands for.
pub fn decode(op: u16) -> (r: Option<Instruction>)
    ensures
        r == decode_spec(op),
        r matches Some(ins) ==> ins.wf(),
{
    let x: u8 = ((op / 0x100) % 0x10) as u8;
    let y: u8 = ((op / 0x10) % 0x10) as u8;
    let n: u8 = (op % 0x10) as u8;
    let nn: u8 = (op % 0x100) as u8;
    let nnn: u16 = op % 0x1000;
    let f: u8 = (op / 0x1000) as u8;
    if f == 0x0 {
        if op == 0x00E0 {
            Some(Instruction::ClearScreen)
        } else if op == 0x00EE {
            Some(Instruction::Return)
        } else {
            None
        }
    } else if f == 0x1 {
        Some(Instruction::Jump { nnn })
    } else if f == 0x2 {
        Some(Instruction::Call { nnn })
    } else if f == 0x3 {
        Some(Instruction::SkipEqImm { x, nn })
    } else if f == 0x4 {
        Some(Instruction::SkipNeImm { x, nn })
    } else if f == 0x5 {
        if n == 0 { Some(Instruction::SkipEqReg { x, y }) } else { None }
    } else if f == 0x6 {
        Some(Instruction::LoadImm { x, nn })
    } else if f == 0x7 {
        Some(Instruction::AddImm { x, nn })
    } else if f == 0x8 {
        if n == 0x0 {
            Some(Instruction::Move { x, y })
        } else if n == 0x1 {
            Some(Instruction::Or { x, y })
        } else if n == 0x2 {
            Some(Instruction::And { x, y })
        } else if n == 0x3 {
            Some(Instruction::Xor { x, y })
        } else if n == 0x4 {
            Some(Instruction::AddReg { x, y })
        } else if n == 0x5 {
            Some(Instruction::SubReg { x, y })
        } else if n == 0x6 {
            Some(Instruction::ShiftRight { x, y })
        } else if n == 0x7 {
            Some(Instruction::SubReverse { x, y })
        } else if n == 0xE {
            Some(Instruction::ShiftLeft { x, y })
        } else {
            None
        }
    } else if f == 0x9 {
        if n == 0 { Some(Instruction::SkipNeReg { x, y }) } else { None }
    } else if f == 0xA {
        Some(Instruction::SetIndex { nnn })
    } else if f == 0xB {
        Some(Instruction::JumpOffset { nnn })
    } else if f == 0xC {
        Some(Instruction::Random { x, nn })
    } else if f == 0xD {
        Some(Instruction::Draw { x, y, n })
    } else if f == 0xE {
        if nn == 0x9E {
            Some(Instruction::SkipKeyDown { x })
        } else if nn == 0xA1 {
            Some(Instruction::SkipKeyUp { x })
        } else {
            None
        }
    } else {
        if nn == 0x07 {
            Some(Instruction::GetDelay { x })
        } else if nn == 0x15 {
            Some(Instruction::SetDelay { x })
        } else if nn == 0x18 {
            Some(Instruction::SetSound { x })
        } else if nn == 0x1E {
            Some(Instruction::AddIndex { x })
        } else if nn == 0x29 {
            Some(Instruction::FontChar { x })
        } else if nn == 0x33 {
            Some(Instruction::StoreBcd { x })
        } else if nn == 0x65 {
            Some(Instruction::LoadRegs { x })
        } else {
            None
        }
    }
}

} // verus!
