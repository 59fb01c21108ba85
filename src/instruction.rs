use vstd::prelude::*;

use crate::nibble::{get_hex_digits, hex_digits, pow16};

verus! {

/// A decoded instruction with its operand fields.
///
/// `x` and `y` name registers, `kk` is a byte operand, `addr` a twelve-bit address
/// and `n` a sprite height.
#[derive(Debug, Clone, Copy, PartialEq, Eq, Structural)]
pub enum Instruction {
    ClearScreen,
    Return,
    Jump { addr: u16 },
    Call { addr: u16 },
    SkipEqImm { x: u8, kk: u8 },
    SkipNeImm { x: u8, kk: u8 },
    SkipEqReg { x: u8, y: u8 },
    LoadImm { x: u8, kk: u8 },
    AddImm { x: u8, kk: u8 },
    Move { x: u8, y: u8 },
    Or { x: u8, y: u8 },
    And { x: u8, y: u8 },
    Xor { x: u8, y: u8 },
    AddReg { x: u8, y: u8 },
    SubReg { x: u8, y: u8 },
    ShiftRight { x: u8 },
    SubRev { x: u8, y: u8 },
    ShiftLeft { x: u8 },
    SkipNeReg { x: u8, y: u8 },
    LoadIndex { addr: u16 },
    JumpOffset { addr: u16 },
    Random { x: u8, kk: u8 },
    Draw { x: u8, y: u8, n: u8 },
    SkipKeyDown { x: u8 },
    SkipKeyUp { x: u8 },
    ReadDelay { x: u8 },
    WaitKey { x: u8 },
    SetDelay { x: u8 },
    SetSound { x: u8 },
    AddIndex { x: u8 },
    GlyphAddress { x: u8 },
    StoreDecimal { x: u8 },
    StoreRegisters { x: u8 },
    LoadRegisters { x: u8 },
    Unknown { word: u16 },
}

/// The high nibble of `w`: the opcode family.
pub open spec fn family(w: u16) -> u16 {
    w / 0x1000
}

/// The second nibble of `w`: the first register operand.
pub open spec fn field_x(w: u16) -> u8 {
    ((w / 0x100) % 0x10) as u8
}

/// The third nibble of `w`: the second register operand.
pub open spec fn field_y(w: u16) -> u8 {
    ((w / 0x10) % 0x10) as u8
}

/// The low nibble of `w`.
pub open spec fn field_n(w: u16) -> u8 {
    (w % 0x10) as u8
}

/// The low byte of `w`.
pub open spec fn field_kk(w: u16) -> u8 {
    (w % 0x100) as u8
}

/// The low twelve bits of `w`: an address.
pub open spec fn field_nnn(w: u16) -> u16 {
    w % 0x1000
}

/// The instruction that the word `w` encodes.
pub open spec fn decode_word(w: u16) -> Instruction {
    let (x, y, n, kk, nnn) = (field_x(w), field_y(w), field_n(w), field_kk(w), field_nnn(w));
    if w == 0x00e0 {
        Instruction::ClearScreen
    } else if w == 0x00ee {
        Instruction::Return
    } else if family(w) == 0x1 {
        Instruction::Jump { addr: nnn }
    } else if family(w) == 0x2 {
        Instruction::Call { addr: nnn }
    } else if family(w) == 0x3 {
        Instruction::SkipEqImm { x, kk }
    } else if family(w) == 0x4 {
        Instruction::SkipNeImm { x, kk }
    } else if family(w) == 0x5 && n == 0x0 {
        Instruction::SkipEqReg { x, y }
    } else if family(w) == 0x6 {
        Instruction::LoadImm { x, kk }
    } else if family(w) == 0x7 {
        Instruction::AddImm { x, kk }
    } else if family(w) == 0x8 {
        if n == 0x0 {
            Instruction::Move { x, y }
        } else if n == 0x1 {
            Instruction::Or { x, y }
        } else if n == 0x2 {
            Instruction::And { x, y }
        } else if n == 0x3 {
            Instruction::Xor { x, y }
        } else if n == 0x4 {
            Instruction::AddReg { x, y }
        } else if n == 0x5 {
            Instruction::SubReg { x, y }
        } else if n == 0x6 {
            Instruction::ShiftRight { x }
        } else if n == 0x7 {
            Instruction::SubRev { x, y }
        } else if n == 0xe {
            Instruction::ShiftLeft { x }
        } else {
            Instruction::Unknown { word: w }
        }
    } else if family(w) == 0x9 && n == 0x0 {
        Instruction::SkipNeReg { x, y }
    } else if family(w) == 0xa {
        Instruction::LoadIndex { addr: nnn }
    } else if family(w) == 0xb {
        Instruction::JumpOffset { addr: nnn }
    } else if family(w) == 0xc {
        Instruction::Random { x, kk }
    } else if family(w) == 0xd {
        Instruction::Draw { x, y, n }
    } else if family(w) == 0xe && kk == 0x9e {
        Instruction::SkipKeyDown { x }
    } else if family(w) == 0xe && kk == 0xa1 {
        Instruction::SkipKeyUp { x }
    } else if family(w) == 0xf && kk == 0x07 {
        Instruction::ReadDelay { x }
    } else if family(w) == 0xf && kk == 0x0a {
        Instruction::WaitKey { x }
    } else if family(w) == 0xf && kk == 0x15 {
        Instruction::SetDelay { x }
    } else if family(w) == 0xf && kk == 0x18 {
        Instruction::SetSound { x }
    } else if family(w) == 0xf && kk == 0x1e {
        Instruction::AddIndex { x }
    } else if family(w) == 0xf && kk == 0x29 {
        Instruction::GlyphAddress { x }
    } else if family(w) == 0xf && kk == 0x33 {
        Instruction::StoreDecimal { x }
    } else if family(w) == 0xf && kk == 0x55 {
        Instruction::StoreRegisters { x }
    } else if family(w) == 0xf && kk == 0x65 {
        Instruction::LoadRegisters { x }
    } else {
        Instruction::Unknown { word: w }
    }
}

impl Instruction {
    /// Whether every operand lies in the range its field can encode.
    pub open spec fn wf(self) -> bool {
        match self {
            Instruction::Jump { addr } => addr < 0x1000,
            Instruction::Call { addr } => addr < 0x1000,
            Instruction::LoadIndex { addr } => addr < 0x1000,
            Instruction::JumpOffset { addr } => addr < 0x1000,
            Instruction::SkipEqImm { x, kk } => x < 16,
            Instruction::SkipNeImm { x, kk } => x < 16,
            Instruction::LoadImm { x, kk } => x < 16,
            Instruction::AddImm { x, kk } => x < 16,
            Instruction::Random { x, kk } => x < 16,
            Instruction::SkipEqReg { x, y } => x < 16 && y < 16,
            Instruction::Move { x, y } => x < 16 && y < 16,
            Instruction::Or { x, y } => x < 16 && y < 16,
            Instruction::And { x, y } => x < 16 && y < 16,
            Instruction::Xor { x, y } => x < 16 && y < 16,
            Instruction::AddReg { x, y } => x < 16 && y < 16,
            Instruction::SubReg { x, y } => x < 16 && y < 16,
            Instruction::SubRev { x, y } => x < 16 && y < 16,
            Instruction::SkipNeReg { x, y } => x < 16 && y < 16,
            Instruction::Draw { x, y, n } => x < 16 && y < 16 && n < 16,
            Instruction::ShiftRight { x } => x < 16,
            Instruction::ShiftLeft { x } => x < 16,
            Instruction::SkipKeyDown { x } => x < 16,
            Instruction::SkipKeyUp { x } => x < 16,
            Instruction::ReadDelay { x } => x < 16,
            Instruction::WaitKey { x } => x < 16,
            Instruction::SetDelay { x } => x < 16,
            Instruction::SetSound { x } => x < 16,
            Instruction::AddIndex { x } => x < 16,
            Instruction::GlyphAddress { x } => x < 16,
            Instruction::StoreDecimal { x } => x < 16,
            Instruction::StoreRegisters { x } => x < 16,
            Instruction::LoadRegisters { x } => x < 16,
            _ => true,
        }
    }
}

/// Decodes the instruction word `w`; words outside the instruction set decode to `Unknown`.
pub fn decode(w: u16) -> (r: Instruction)
    ensures
        r == decode_word(w),
        r.wf(),
{
    proof {
        reveal_with_fuel(pow16, 4);
        assert(pow16(0) == 1 && pow16(1) == 16 && pow16(3) == 4096);
        assert((w as nat) / 1 == w as nat);
        assert((w as nat) / 4096 < 16);
        assert(hex_digits(w, 1, 3) == family(w) as nat);
        assert(hex_digits(w, 1, 2) == field_x(w) as nat);
        assert(hex_digits(w, 1, 1) == field_y(w) as nat);
        assert(hex_digits(w, 1, 0) == field_n(w) as nat);
        assert(hex_digits(w, 2, 0) == field_kk(w) as nat);
        assert(hex_digits(w, 3, 0) == field_nnn(w) as nat);
    }
    let family = get_hex_digits(&w, 1, 3);
    let x = get_hex_digits(&w, 1, 2) as u8;
    let y = get_hex_digits(&w, 1, 1) as u8;
    let n = get_hex_digits(&w, 1, 0) as u8;
    let kk = get_hex_digits(&w, 2, 0) as u8;
    let nnn = get_hex_digits(&w, 3, 0) as u16;
    if w == 0x00e0 {
        Instruction::ClearScreen
    } else if w == 0x00ee {
        Instruction::Return
    } else if family == 0x1 {
        Instruction::Jump { addr: nnn }
    } else if family == 0x2 {
        Instruction::Call { addr: nnn }
    } else if family == 0x3 {
        Instruction::SkipEqImm { x, kk }
    } else if family == 0x4 {
        Instruction::SkipNeImm { x, kk }
    } else if family == 0x5 && n == 0x0 {
        Instruction::SkipEqReg { x, y }
    } else if family == 0x6 {
        Instruction::LoadImm { x, kk }
    } else if family == 0x7 {
        Instruction::AddImm { x, kk }
    } else if family == 0x8 {
        if n == 0x0 {
            Instruction::Move { x, y }
        } else if n == 0x1 {
            Instruction::Or { x, y }
        } else if n == 0x2 {
            Instruction::And { x, y }
        } else if n == 0x3 {
            Instruction::Xor { x, y }
        } else if n == 0x4 {
            Instruction::AddReg { x, y }
        } else if n == 0x5 {
            Instruction::SubReg { x, y }
        } else if n == 0x6 {
            Instruction::ShiftRight { x }
        } else if n == 0x7 {
            Instruction::SubRev { x, y }
        } else if n == 0xe {
            Instruction::ShiftLeft { x }
        } else {
            Instruction::Unknown { word: w }
        }
    } else if family == 0x9 && n == 0x0 {
        Instruction::SkipNeReg { x, y }
    } else if family == 0xa {
        Instruction::LoadIndex { addr: nnn }
    } else if family == 0xb {
        Instruction::JumpOffset { addr: nnn }
    } else if family == 0xc {
        Instruction::Random { x, kk }
    } else if family == 0xd {
        Instruction::Draw { x, y, n }
    } else if family == 0xe && kk == 0x9e {
        Instruction::SkipKeyDown { x }
    } else if family == 0xe && kk == 0xa1 {
        Instruction::SkipKeyUp { x }
    } else if family == 0xf && kk == 0x07 {
        Instruction::ReadDelay { x }
    } else if family == 0xf && kk == 0x0a {
        Instruction::WaitKey { x }
    } else if family == 0xf && kk == 0x15 {
        Instruction::SetDelay { x }
    } else if family == 0xf && kk == 0x18 {
        Instruction::SetSound { x }
    } else if family == 0xf && kk == 0x1e {
        Instruction::AddIndex { x }
    } else if family == 0xf && kk == 0x29 {
        Instruction::GlyphAddress { x }
    } else if family == 0xf && kk == 0x33 {
        Instruction::StoreDecimal { x }
    } else if family == 0xf && kk == 0x55 {
        Instruction::StoreRegisters { x }
    } else if family == 0xf && kk == 0x65 {
        Instruction::LoadRegisters { x }
    } else {
        Instruction::Unknown { word: w }
    }
}

} // verus!
