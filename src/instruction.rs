//! Field extraction from raw 16-bit opcodes.

use vstd::prelude::*;

verus! {

/// The low twelve bits of an opcode: an address.
pub open spec fn nnn_of(raw: u16) -> int {
    raw as int % 0x1000
}

/// The low four bits of an opcode: a nibble.
pub open spec fn n_of(raw: u16) -> int {
    raw as int % 0x10
}

/// Bits 8 to 11 of an opcode: the first register index.
pub open spec fn x_of(raw: u16) -> int {
    (raw as int / 0x100) % 0x10
}

/// Bits 4 to 7 of an opcode: the second register index.
pub open spec fn y_of(raw: u16) -> int {
    (raw as int / 0x10) % 0x10
}

/// The low eight bits of an opcode: an immediate byte.
pub open spec fn kk_of(raw: u16) -> int {
    raw as int % 0x100
}

/// A raw opcode as fetched from memory.
pub struct Instruction {
    pub raw: u16,
}

impl Instruction {
    pub fn new(raw: u16) -> (r: Instruction)
        ensures
            r.raw == raw,
    {
        Instruction { raw }
    }

    pub fn nnn(&self) -> (r: u16)
        ensures
            r == self.raw & 0x0FFF,
            r == nnn_of(self.raw),
    {
        let raw = self.raw;
        assert(raw & 0x0FFF == raw % 0x1000) by (bit_vector);
        raw & 0x0FFF
    }

    pub fn n(&self) -> (r: u16)
        ensures
            r == self.raw & 0x000F,
            r == n_of(self.raw),
    {
        let raw = self.raw;
        assert(raw & 0x000F == raw % 0x10) by (bit_vector);
        raw & 0x000F
    }

    pub fn x(&self) -> (r: usize)
        ensures
            r == (self.raw & 0x0F00) >> 8,
            r == x_of(self.raw),
            r < 16,
    {
        let raw = self.raw;
        assert((raw & 0x0F00) >> 8 == (raw / 0x100) % 0x10) by (bit_vector);
        ((raw & 0x0F00) >> 8) as usize
    }

    pub fn y(&self) -> (r: usize)
        ensures
            r == (self.raw & 0x00F0) >> 4,
            r == y_of(self.raw),
            r < 16,
    {
        let raw = self.raw;
        assert((raw & 0x00F0) >> 4 == (raw / 0x10) % 0x10) by (bit_vector);
        ((raw & 0x00F0) >> 4) as usize
    }

    pub fn kk(&self) -> (r: u8)
        ensures
            r == self.raw & 0x00FF,
            r == kk_of(self.raw),
    {
        let raw = self.raw;
        assert(raw & 0x00FF == raw % 0x100) by (bit_vector);
        (raw & 0x00FF) as u8
    }
}

/// One recognised instruction of the base set, with its operands.
#[derive(Clone, Copy, Debug, PartialEq, Eq, Structural)]
pub enum Op {
    /// 0nnn: machine-code call, ignored.
    Sys { nnn: u16 },
    /// 00E0: clear the display.
    Cls,
    /// 00EE: return from a subroutine.
    Ret,
    /// 1nnn: jump.
    Jump { nnn: u16 },
    /// 2nnn: call a subroutine.
    Call { nnn: u16 },
    /// 3xkk: skip if Vx == kk.
    SkipEqByte { x: usize, kk: u8 },
    /// 4xkk: skip if Vx != kk.
    SkipNeByte { x: usize, kk: u8 },
    /// 5xy_: skip if Vx == Vy.
    SkipEqReg { x: usize, y: usize },
    /// 6xkk: Vx = kk.
    LoadByte { x: usize, kk: u8 },
    /// 7xkk: Vx += kk, wrapping, VF untouched.
    AddByte { x: usize, kk: u8 },
    /// 8xy0: Vx = Vy.
    LoadReg { x: usize, y: usize },
    /// 8xy1: Vx |= Vy, VF = 0.
    Or { x: usize, y: usize },
    /// 8xy2: Vx &= Vy, VF = 0.
    And { x: usize, y: usize },
    /// 8xy3: Vx ^= Vy, VF = 0.
    Xor { x: usize, y: usize },
    /// 8xy4: Vx += Vy, VF = carry.
    AddReg { x: usize, y: usize },
    /// 8xy5: Vx -= Vy, VF = no borrow.
    Sub { x: usize, y: usize },
    /// 8xy6: Vx = Vy >> 1, VF = bit shifted out.
    ShiftRight { x: usize, y: usize },
    /// 8xy7: Vx = Vy - Vx, VF = no borrow.
    SubN { x: usize, y: usize },
    /// 8xyE: Vx = Vy << 1, VF = bit shifted out.
    ShiftLeft { x: usize, y: usize },
    /// 9xy_: skip if Vx != Vy.
    SkipNeReg { x: usize, y: usize },
    /// Annn: I = nnn.
    LoadIndex { nnn: u16 },
    /// Bnnn: jump to nnn + V0.
    JumpV0 { nnn: u16 },
    /// Cxkk: Vx = random byte & kk.
    Random { x: usize, kk: u8 },
    /// Dxyn: draw an n-row sprite from I at (Vx, Vy).
    Draw { x: usize, y: usize, n: u16 },
    /// Ex9E: skip if the key named by the low nibble of Vx is down.
    SkipKey { x: usize },
    /// ExA1: skip if the key named by the low nibble of Vx is up.
    SkipNotKey { x: usize },
    /// Fx07: Vx = delay timer.
    LoadDelay { x: usize },
    /// Fx0A: wait for a key press, store it in Vx.
    WaitKey { x: usize },
    /// Fx15: delay timer = Vx.
    SetDelay { x: usize },
    /// Fx18: sound timer = Vx.
    SetSound { x: usize },
    /// Fx1E: I += Vx.
    AddIndex { x: usize },
    /// Fx29: I = address of the font glyph for Vx.
    LoadFont { x: usize },
    /// Fx33: store the decimal digits of Vx at I, I+1, I+2.
    StoreBcd { x: usize },
    /// Fx55: store V0..=Vx at I, then I += x + 1.
    StoreRegs { x: usize },
    /// Fx65: load V0..=Vx from I, then I += x + 1.
    LoadRegs { x: usize },
}

/// The instruction that an opcode encodes, or `None` where no pattern of
/// the instruction set matches it.
pub open spec fn decode_spec(raw: u16) -> Option<Op> {
    let hi = raw as int / 0x1000;
    let nnn = nnn_of(raw) as u16;
    let x = x_of(raw) as usize;
    let y = y_of(raw) as usize;
    let kk = kk_of(raw) as u8;
    let n = n_of(raw);
    if hi == 0x0 {
        if raw == 0x00E0 {
            Some(Op::Cls)
        } else if raw == 0x00EE {
            Some(Op::Ret)
        } else {
            Some(Op::Sys { nnn })
        }
    } else if hi == 0x1 {
        Some(Op::Jump { nnn })
    } else if hi == 0x2 {
        Some(Op::Call { nnn })
    } else if hi == 0x3 {
        Some(Op::SkipEqByte { x, kk })
    } else if hi == 0x4 {
        Some(Op::SkipNeByte { x, kk })
    } else if hi == 0x5 {
        Some(Op::SkipEqReg { x, y })
    } else if hi == 0x6 {
        Some(Op::LoadByte { x, kk })
    } else if hi == 0x7 {
        Some(Op::AddByte { x, kk })
    } else if hi == 0x8 {
        if n == 0x0 {
            Some(Op::LoadReg { x, y })
        } else if n == 0x1 {
            Some(Op::Or { x, y })
        } else if n == 0x2 {
            Some(Op::And { x, y })
        } else if n == 0x3 {
            Some(Op::Xor { x, y })
        } else if n == 0x4 {
            Some(Op::AddReg { x, y })
        } else if n == 0x5 {
            Some(Op::Sub { x, y })
        } else if n == 0x6 {
            Some(Op::ShiftRight { x, y })
        } else if n == 0x7 {
            Some(Op::SubN { x, y })
        } else if n == 0xE {
            Some(Op::ShiftLeft { x, y })
        } else {
            None
        }
    } else if hi == 0x9 {
        Some(Op::SkipNeReg { x, y })
    } else if hi == 0xA {
        Some(Op::LoadIndex { nnn })
    } else if hi == 0xB {
        Some(Op::JumpV0 { nnn })
    } else if hi == 0xC {
        Some(Op::Random { x, kk })
    } else if hi == 0xD {
        Some(Op::Draw { x, y, n: n as u16 })
    } else if hi == 0xE {
        if kk == 0x9E {
            Some(Op::SkipKey { x })
        } else if kk == 0xA1 {
            Some(Op::SkipNotKey { x })
        } else {
            None
        }
    } else {
        if kk == 0x07 {
            Some(Op::LoadDelay { x })
        } else if kk == 0x0A {
            Some(Op::WaitKey { x })
        } else if kk == 0x15 {
            Some(Op::SetDelay { x })
        } else if kk == 0x18 {
            Some(Op::SetSound { x })
        } else if kk == 0x1E {
            Some(Op::AddIndex { x })
        } else if kk == 0x29 {
            Some(Op::LoadFont { x })
        } else if kk == 0x33 {
            Some(Op::StoreBcd { x })
        } else if kk == 0x55 {
            Some(Op::StoreRegs { x })
        } else if kk == 0x65 {
            Some(Op::LoadRegs { x })
        } else {
            None
        }
    }
}

/// The operands of an instruction are in the ranges that an opcode's fields
/// can hold: registers and nibbles below 16, addresses below 0x1000.
pub open spec fn operands_in_range(op: Op) -> bool {
    match op {
        Op::SkipEqByte { x, .. } | Op::SkipNeByte { x, .. } | Op::LoadByte { x, .. }
        | Op::AddByte { x, .. } | Op::Random { x, .. } | Op::SkipKey { x } | Op::SkipNotKey { x }
        | Op::LoadDelay { x } | Op::WaitKey { x } | Op::SetDelay { x } | Op::SetSound { x }
        | Op::AddIndex { x } | Op::LoadFont { x } | Op::StoreBcd { x } | Op::StoreRegs { x }
        | Op::LoadRegs { x } => x < 16,
        Op::SkipEqReg { x, y } | Op::LoadReg { x, y } | Op::Or { x, y } | Op::And { x, y }
        | Op::Xor { x, y } | Op::AddReg { x, y } | Op::Sub { x, y } | Op::ShiftRight { x, y }
        | Op::SubN { x, y } | Op::ShiftLeft { x, y } | Op::SkipNeReg { x, y } => x
            < 16 && y < 16,
        Op::Draw { x, y, n } => x < 16 && y < 16 && n < 16,
        Op::Sys { nnn } | Op::Jump { nnn } | Op::Call { nnn } | Op::LoadIndex { nnn }
        | Op::JumpV0 { nnn } => nnn < 0x1000,
        Op::Cls | Op::Ret => true,
    }
}

impl Instruction {
    /// The high nibble of the opcode, which selects the instruction group.
    fn group(&self) -> (r: u16)
        ensures
            r == self.raw as int / 0x1000,
    {
        let raw = self.raw;
        assert(raw >> 12 == raw / 0x1000) by (bit_vector);
        raw >> 12
    }

    /// Decodes the opcode into the instruction it encodes; `None` for an
    /// opcode that matches no pattern.
    pub fn decode(&self) -> (r: Option<Op>)
        ensures
            r == decode_spec(self.raw),
            r matches Some(op) ==> operands_in_range(op),
    {
        let hi = self.group();
        let nnn = self.nnn();
        let x = self.x();
        let y = self.y();
        let kk = self.kk();
        let n = self.n();
        match hi {
            0x0 => {
                if self.raw == 0x00E0 {
                    Some(Op::Cls)
                } else if self.raw == 0x00EE {
                    Some(Op::Ret)
                } else {
                    Some(Op::Sys { nnn })
                }
            },
            0x1 => Some(Op::Jump { nnn }),
            0x2 => Some(Op::Call { nnn }),
            0x3 => Some(Op::SkipEqByte { x, kk }),
            0x4 => Some(Op::SkipNeByte { x, kk }),
            0x5 => Some(Op::SkipEqReg { x, y }),
            0x6 => Some(Op::LoadByte { x, kk }),
            0x7 => Some(Op::AddByte { x, kk }),
            0x8 => match n {
                0x0 => Some(Op::LoadReg { x, y }),
                0x1 => Some(Op::Or { x, y }),
                0x2 => Some(Op::And { x, y }),
                0x3 => Some(Op::Xor { x, y }),
                0x4 => Some(Op::AddReg { x, y }),
                0x5 => Some(Op::Sub { x, y }),
                0x6 => Some(Op::ShiftRight { x, y }),
                0x7 => Some(Op::SubN { x, y }),
                0xE => Some(Op::ShiftLeft { x, y }),
                _ => None,
            },
            0x9 => Some(Op::SkipNeReg { x, y }),
            0xA => Some(Op::LoadIndex { nnn }),
            0xB => Some(Op::JumpV0 { nnn }),
            0xC => Some(Op::Random { x, kk }),
            0xD => Some(Op::Draw { x, y, n }),
            0xE => match kk {
                0x9E => Some(Op::SkipKey { x }),
                0xA1 => Some(Op::SkipNotKey { x }),
                _ => None,
            },
            _ => match kk {
                0x07 => Some(Op::LoadDelay { x }),
                0x0A => Some(Op::WaitKey { x }),
                0x15 => Some(Op::SetDelay { x }),
                0x18 => Some(Op::SetSound { x }),
                0x1E => Some(Op::AddIndex { x }),
                0x29 => Some(Op::LoadFont { x }),
                0x33 => Some(Op::StoreBcd { x }),
                0x55 => Some(Op::StoreRegs { x }),
                0x65 => Some(Op::LoadRegs { x }),
                _ => None,
            },
        }
    }
}

} // verus!
