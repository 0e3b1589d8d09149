//! Instruction words and their decoding into a closed set of instructions.

use vstd::prelude::*;

use crate::num::to_4_be_nibles;

verus! {

/// A raw 16-bit instruction word, as fetched from memory.
pub struct Opcode(u16);

/// One decoded instruction. Register operands (`x`, `y`) are 4-bit fields,
/// so always below 16; `addr` is a 12-bit field and `n` a 4-bit one.
#[derive(Clone, Copy, Debug, PartialEq, Eq, Structural)]
pub enum OpcodeKind {
    /// `1nnn`: jump to `addr`.
    JpAddr { addr: u16 },
    /// `Bxnn`: jump to `addr` plus a register (`V0` or `Vx`, by mode).
    JpVxAddr { x: u8, addr: u16 },
    /// `00EE`: return from a subroutine.
    Ret,
    /// `2nnn`: call the subroutine at `addr`.
    Call { addr: u16 },
    /// `3xkk` (`eq`) / `4xkk`: skip the next instruction if `Vx == byte` / `Vx != byte`.
    SkipVxByte { eq: bool, x: u8, byte: u8 },
    /// `5xy0` (`eq`) / `9xy0`: skip the next instruction if `Vx == Vy` / `Vx != Vy`.
    SkipVxVy { eq: bool, x: u8, y: u8 },
    /// `6xkk`: `Vx = byte`.
    LoadVxByte { x: u8, byte: u8 },
    /// `7xkk`: `Vx = Vx + byte`, wrapping, flag untouched.
    AddVxByte { x: u8, byte: u8 },
    /// `8xy0`: `Vx = Vy`.
    LoadVxVy { x: u8, y: u8 },
    /// `8xy1`: `Vx = Vx | Vy`.
    Or { x: u8, y: u8 },
    /// `8xy2`: `Vx = Vx & Vy`.
    And { x: u8, y: u8 },
    /// `8xy3`: `Vx = Vx ^ Vy`.
    Xor { x: u8, y: u8 },
    /// `8xy4`: `Vx = Vx + Vy`, flag set on carry.
    Add { x: u8, y: u8 },
    /// `8xy5` (`x_y`: `Vx - Vy`) / `8xy7` (`Vy - Vx`), flag set when no borrow.
    Subtract { x_y: bool, x: u8, y: u8 },
    /// `8xy6`: shift right by one, flag gets the bit shifted out.
    ShiftRight { x: u8, y: u8 },
    /// `8xyE`: shift left by one, flag gets the bit shifted out.
    ShiftLeft { x: u8, y: u8 },
    /// `Cxkk`: `Vx = random & byte`.
    Random { x: u8, byte: u8 },
    /// `Fx07`: `Vx = delay timer`.
    LoadDT { x: u8 },
    /// `Fx15`: `delay timer = Vx`.
    StoreDT { x: u8 },
    /// `Fx18`: `sound timer = Vx`.
    StoreST { x: u8 },
    /// `Fx0A`: wait for a key press and store the key in `Vx`.
    LoadK { x: u8 },
    /// `Ex9E` (`eq`) / `ExA1`: skip the next instruction if key `Vx` is down / up.
    SkipIfKey { eq: bool, x: u8 },
    /// `Annn`: `I = addr`.
    LoadI { addr: u16 },
    /// `Fx1E`: `I = I + Vx`.
    AddIVx { x: u8 },
    /// `Fx33`: store the decimal digits of `Vx` at `I`.
    LoadBcd { x: u8 },
    /// `Fx55`: store `V0..=Vx` at `I`.
    PushRegs { x: u8 },
    /// `Fx65`: load `V0..=Vx` from `I`.
    PopRegs { x: u8 },
    /// `00E0`: clear the screen.
    Cls,
    /// `Dxyn`: draw the `n`-row sprite at `I` at `(Vx, Vy)`.
    Draw { x: u8, y: u8, n: u8 },
    /// `Fx29`: point `I` at the built-in glyph of the digit `Vx`.
    LoadFont { x: u8 },
}

/// Why a word could not be decoded.
#[derive(Clone, Copy, Debug, PartialEq, Eq, Structural)]
pub enum DecodeError {
    /// `0nnn`, the legacy machine-code call, which is not supported.
    Sys(u16),
    /// A word that matches no instruction.
    Unknown(u16),
}

/// The instruction that `op` encodes, read off its four nibbles
/// (`a x y n`), with `kk` its low byte and `addr` its low twelve bits.
pub open spec fn decoded(op: u16) -> Result<OpcodeKind, DecodeError> {
    let a = op / 4096;
    let x = ((op / 256) % 16) as u8;
    let y = ((op / 16) % 16) as u8;
    let n = op % 16;
    let kk = (op % 256) as u8;
    let addr = (op % 4096) as u16;
    if a == 0x0 {
        if op == 0x00E0 {
            Ok(OpcodeKind::Cls)
        } else if op == 0x00EE {
            Ok(OpcodeKind::Ret)
        } else {
            Err(DecodeError::Sys(op))
        }
    } else if a == 0x1 {
        Ok(OpcodeKind::JpAddr { addr })
    } else if a == 0x2 {
        Ok(OpcodeKind::Call { addr })
    } else if a == 0x3 {
        Ok(OpcodeKind::SkipVxByte { eq: true, x, byte: kk })
    } else if a == 0x4 {
        Ok(OpcodeKind::SkipVxByte { eq: false, x, byte: kk })
    } else if a == 0x5 && n == 0 {
        Ok(OpcodeKind::SkipVxVy { eq: true, x, y })
    } else if a == 0x6 {
        Ok(OpcodeKind::LoadVxByte { x, byte: kk })
    } else if a == 0x7 {
        Ok(OpcodeKind::AddVxByte { x, byte: kk })
    } else if a == 0x8 && n == 0x0 {
        Ok(OpcodeKind::LoadVxVy { x, y })
    } else if a == 0x8 && n == 0x1 {
        Ok(OpcodeKind::Or { x, y })
    } else if a == 0x8 && n == 0x2 {
        Ok(OpcodeKind::And { x, y })
    } else if a == 0x8 && n == 0x3 {
        Ok(OpcodeKind::Xor { x, y })
    } else if a == 0x8 && n == 0x4 {
        Ok(OpcodeKind::Add { x, y })
    } else if a == 0x8 && n == 0x5 {
        Ok(OpcodeKind::Subtract { x_y: true, x, y })
    } else if a == 0x8 && n == 0x6 {
        Ok(OpcodeKind::ShiftRight { x, y })
    } else if a == 0x8 && n == 0x7 {
        Ok(OpcodeKind::Subtract { x_y: false, x, y })
    } else if a == 0x8 && n == 0xE {
        Ok(OpcodeKind::ShiftLeft { x, y })
    } else if a == 0x9 && n == 0 {
        Ok(OpcodeKind::SkipVxVy { eq: false, x, y })
    } else if a == 0xA {
        Ok(OpcodeKind::LoadI { addr })
    } else if a == 0xB {
        Ok(OpcodeKind::JpVxAddr { x, addr })
    } else if a == 0xC {
        Ok(OpcodeKind::Random { x, byte: kk })
    } else if a == 0xD {
        Ok(OpcodeKind::Draw { x, y, n: n as u8 })
    } else if a == 0xE && kk == 0x9E {
        Ok(OpcodeKind::SkipIfKey { eq: true, x })
    } else if a == 0xE && kk == 0xA1 {
        Ok(OpcodeKind::SkipIfKey { eq: false, x })
    } else if a == 0xF && kk == 0x07 {
        Ok(OpcodeKind::LoadDT { x })
    } else if a == 0xF && kk == 0x0A {
        Ok(OpcodeKind::LoadK { x })
    } else if a == 0xF && kk == 0x15 {
        Ok(OpcodeKind::StoreDT { x })
    } else if a == 0xF && kk == 0x18 {
        Ok(OpcodeKind::StoreST { x })
    } else if a == 0xF && kk == 0x1E {
        Ok(OpcodeKind::AddIVx { x })
    } else if a == 0xF && kk == 0x29 {
        Ok(OpcodeKind::LoadFont { x })
    } else if a == 0xF && kk == 0x33 {
        Ok(OpcodeKind::LoadBcd { x })
    } else if a == 0xF && kk == 0x55 {
        Ok(OpcodeKind::PushRegs { x })
    } else if a == 0xF && kk == 0x65 {
        Ok(OpcodeKind::PopRegs { x })
    } else {
        Err(DecodeError::Unknown(op))
    }
}

/// Every register operand of a decoded instruction names one of the
/// sixteen registers, and every address fits in twelve bits.
pub open spec fn operands_in_range(k: OpcodeKind) -> bool {
    match k {
        OpcodeKind::JpAddr { addr } => addr < 4096,
        OpcodeKind::JpVxAddr { x, addr } => x < 16 && addr < 4096,
        OpcodeKind::Ret => true,
        OpcodeKind::Call { addr } => addr < 4096,
        OpcodeKind::SkipVxByte { x, .. } => x < 16,
        OpcodeKind::SkipVxVy { x, y, .. } => x < 16 && y < 16,
        OpcodeKind::LoadVxByte { x, .. } => x < 16,
        OpcodeKind::AddVxByte { x, .. } => x < 16,
        OpcodeKind::LoadVxVy { x, y } => x < 16 && y < 16,
        OpcodeKind::Or { x, y } => x < 16 && y < 16,
        OpcodeKind::And { x, y } => x < 16 && y < 16,
        OpcodeKind::Xor { x, y } => x < 16 && y < 16,
        OpcodeKind::Add { x, y } => x < 16 && y < 16,
        OpcodeKind::Subtract { x, y, .. } => x < 16 && y < 16,
        OpcodeKind::ShiftRight { x, y } => x < 16 && y < 16,
        OpcodeKind::ShiftLeft { x, y } => x < 16 && y < 16,
        OpcodeKind::Random { x, .. } => x < 16,
        OpcodeKind::LoadDT { x } => x < 16,
        OpcodeKind::StoreDT { x } => x < 16,
        OpcodeKind::StoreST { x } => x < 16,
        OpcodeKind::LoadK { x } => x < 16,
        OpcodeKind::SkipIfKey { x, .. } => x < 16,
        OpcodeKind::LoadI { addr } => addr < 4096,
        OpcodeKind::AddIVx { x } => x < 16,
        OpcodeKind::LoadBcd { x } => x < 16,
        OpcodeKind::PushRegs { x } => x < 16,
        OpcodeKind::PopRegs { x } => x < 16,
        OpcodeKind::Cls => true,
        OpcodeKind::Draw { x, y, n } => x < 16 && y < 16 && n < 16,
        OpcodeKind::LoadFont { x } => x < 16,
    }
}

impl Opcode {
    /// The raw word.
    pub closed spec fn word(&self) -> u16 {
        self.0
    }

    pub fn new(op: u16) -> (r: Self)
        ensures
            r.word() == op,
    {
        Self(op)
    }

    /// The raw word.
    pub fn as_u16(&self) -> (r: u16)
        ensures
            r == self.word(),
    {
        self.0
    }

    /// Decodes the word; the legacy machine-code call and any word that
    /// matches no instruction are refused.
    pub fn decode(&self) -> (r: Result<OpcodeKind, DecodeError>)
        ensures
            r == decoded(self.word()),
            r matches Ok(k) ==> operands_in_range(k),
    {
        let op = self.0;
        let nib = to_4_be_nibles(op);
        let (a, x, y, n) = (nib[0], nib[1], nib[2], nib[3]);
        let addr: u16 = op & 0x0FFF;
        let kk: u8 = (op & 0x00FF) as u8;
        assert(op & 0x0FFF == op % 4096) by (bit_vector);
        assert(op & 0x00FF == op % 256) by (bit_vector);
        match a {
            0x0 => if op == 0x00E0 {
                Ok(OpcodeKind::Cls)
            } else if op == 0x00EE {
                Ok(OpcodeKind::Ret)
            } else {
                Err(DecodeError::Sys(op))
            },
            0x1 => Ok(OpcodeKind::JpAddr { addr }),
            0x2 => Ok(OpcodeKind::Call { addr }),
            0x3 => Ok(OpcodeKind::SkipVxByte { eq: true, x, byte: kk }),
            0x4 => Ok(OpcodeKind::SkipVxByte { eq: false, x, byte: kk }),
            0x5 if n == 0 => Ok(OpcodeKind::SkipVxVy { eq: true, x, y }),
            0x6 => Ok(OpcodeKind::LoadVxByte { x, byte: kk }),
            0x7 => Ok(OpcodeKind::AddVxByte { x, byte: kk }),
            0x8 => match n {
                0x0 => Ok(OpcodeKind::LoadVxVy { x, y }),
                0x1 => Ok(OpcodeKind::Or { x, y }),
                0x2 => Ok(OpcodeKind::And { x, y }),
                0x3 => Ok(OpcodeKind::Xor { x, y }),
                0x4 => Ok(OpcodeKind::Add { x, y }),
                0x5 => Ok(OpcodeKind::Subtract { x_y: true, x, y }),
                0x6 => Ok(OpcodeKind::ShiftRight { x, y }),
                0x7 => Ok(OpcodeKind::Subtract { x_y: false, x, y }),
                0xE => Ok(OpcodeKind::ShiftLeft { x, y }),
                _ => Err(DecodeError::Unknown(op)),
            },
            0x9 if n == 0 => Ok(OpcodeKind::SkipVxVy { eq: false, x, y }),
            0xA => Ok(OpcodeKind::LoadI { addr }),
            0xB => Ok(OpcodeKind::JpVxAddr { x, addr }),
            0xC => Ok(OpcodeKind::Random { x, byte: kk }),
            0xD => Ok(OpcodeKind::Draw { x, y, n }),
            0xE => match kk {
                0x9E => Ok(OpcodeKind::SkipIfKey { eq: true, x }),
                0xA1 => Ok(OpcodeKind::SkipIfKey { eq: false, x }),
                _ => Err(DecodeError::Unknown(op)),
            },
            0xF => match kk {
                0x07 => Ok(OpcodeKind::LoadDT { x }),
                0x0A => Ok(OpcodeKind::LoadK { x }),
                0x15 => Ok(OpcodeKind::StoreDT { x }),
                0x18 => Ok(OpcodeKind::StoreST { x }),
                0x1E => Ok(OpcodeKind::AddIVx { x }),
                0x29 => Ok(OpcodeKind::LoadFont { x }),
                0x33 => Ok(OpcodeKind::LoadBcd { x }),
                0x55 => Ok(OpcodeKind::PushRegs { x }),
                0x65 => Ok(OpcodeKind::PopRegs { x }),
                _ => Err(DecodeError::Unknown(op)),
            },
            _ => Err(DecodeError::Unknown(op)),
        }
    }
}

} // verus!
