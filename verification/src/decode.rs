//! The decoder: a total, deterministic, side-effect-free map from a 16-bit
//! instruction word to a tagged instruction.
//!
//! The top 4 bits select one of sixteen families; families 0x0, 0x8, 0xE and
//! 0xF disambiguate further by the low byte or low nibble. Operand fields are
//! X (bits 8-11), Y (bits 4-7), N (bits 0-3), NN (bits 0-7) and NNN
//! (bits 0-11). A word whose family or sub-selector has no defined meaning
//! decodes to an explicit [`Instr::Unrecognized`], never to a default.

use vstd::prelude::*;

verus! {

/// One decoded instruction. Register operands are the 4-bit indices X and Y,
/// immediates are N (4 bits), NN (8 bits) and NNN (12 bits).
#[derive(Clone, Copy, Debug, PartialEq, Eq, Structural)]
pub enum Instr {
    /// 00E0: clear the video buffer.
    Cls,
    /// 00EE: return from a subroutine.
    Ret,
    /// 1NNN: jump to address NNN.
    Jump(u16),
    /// 2NNN: call the subroutine at address NNN.
    Call(u16),
    /// 3XNN: skip the next instruction when VX == NN.
    SkipEqImm(u8, u8),
    /// 4XNN: skip the next instruction when VX != NN.
    SkipNeImm(u8, u8),
    /// 5XY0: skip the next instruction when VX == VY.
    SkipEqReg(u8, u8),
    /// 6XNN: set VX to NN.
    SetImm(u8, u8),
    /// 7XNN: add NN to VX, wrapping, without touching the flag register.
    AddImm(u8, u8),
    /// 8XY0: copy VY into VX.
    Mov(u8, u8),
    /// 8XY1: set VX to VX | VY.
    Or(u8, u8),
    /// 8XY2: set VX to VX & VY.
    And(u8, u8),
    /// 8XY3: set VX to VX ^ VY.
    Xor(u8, u8),
    /// 8XY4: add VY to VX; VF reports the carry.
    AddReg(u8, u8),
    /// 8XY5: subtract VY from VX; VF is 1 exactly when there is no borrow.
    SubReg(u8, u8),
    /// 8XY6: shift VX right by one; VF receives the bit shifted out.
    Shr(u8),
    /// 8XY7: set VX to VY - VX; VF is 1 exactly when there is no borrow.
    SubN(u8, u8),
    /// 8XYE: shift VX left by one; VF receives the bit shifted out.
    Shl(u8),
    /// 9XY0: skip the next instruction when VX != VY.
    SkipNeReg(u8, u8),
    /// ANNN: set the index register to NNN.
    SetIndex(u16),
    /// BNNN: jump to NNN + V0.
    JumpV0(u16),
    /// CXNN: set VX to a drawn random byte masked with NN.
    RandMask(u8, u8),
    /// DXYN: draw an N+1-row sprite at (VX, VY); VF reports a collision.
    Draw(u8, u8, u8),
    /// EX9E: skip the next instruction when the key named by VX is held.
    SkipKey(u8),
    /// EXA1: skip the next instruction when the key named by VX is not held.
    SkipNoKey(u8),
    /// FX07: set VX to the delay timer.
    GetDelay(u8),
    /// FX0A: suspend until a key-down event, then store the key in VX.
    WaitKey(u8),
    /// FX15: set the delay timer to VX.
    SetDelay(u8),
    /// FX18: set the sound timer to VX.
    SetSound(u8),
    /// FX1E: add VX to the index register, wrapping, with no carry report.
    AddIndex(u8),
    /// FX29: point the index register at the font glyph for VX's low nibble.
    FontAddr(u8),
    /// FX33: store the decimal digits of VX at I, I+1, I+2.
    StoreBcd(u8),
    /// FX55: copy V0..=VX to memory starting at I.
    DumpRegs(u8),
    /// FX65: load V0..=VX from memory starting at I.
    LoadRegs(u8),
    /// A word with no defined meaning, kept verbatim.
    Unrecognized(u16),
}

/// What `decode` returns for every instruction word.
pub open spec fn spec_decode(w: u16) -> Instr {
    let x = ((w >> 8) & 0x0F) as u8;
    let y = ((w >> 4) & 0x0F) as u8;
    let n = (w & 0x0F) as u8;
    let nn = (w & 0xFF) as u8;
    let nnn = w & 0x0FFF;
    if w & 0xF000 == 0x0000 {
        if w & 0x00FF == 0x00E0 {
            Instr::Cls
        } else if w & 0x00FF == 0x00EE {
            Instr::Ret
        } else {
            Instr::Unrecognized(w)
        }
    } else if w & 0xF000 == 0x1000 {
        Instr::Jump(nnn)
    } else if w & 0xF000 == 0x2000 {
        Instr::Call(nnn)
    } else if w & 0xF000 == 0x3000 {
        Instr::SkipEqImm(x, nn)
    } else if w & 0xF000 == 0x4000 {
        Instr::SkipNeImm(x, nn)
    } else if w & 0xF000 == 0x5000 {
        Instr::SkipEqReg(x, y)
    } else if w & 0xF000 == 0x6000 {
        Instr::SetImm(x, nn)
    } else if w & 0xF000 == 0x7000 {
        Instr::AddImm(x, nn)
    } else if w & 0xF000 == 0x8000 {
        if w & 0x000F == 0x0000 {
            Instr::Mov(x, y)
        } else if w & 0x000F == 0x0001 {
            Instr::Or(x, y)
        } else if w & 0x000F == 0x0002 {
            Instr::And(x, y)
        } else if w & 0x000F == 0x0003 {
            Instr::Xor(x, y)
        } else if w & 0x000F == 0x0004 {
            Instr::AddReg(x, y)
        } else if w & 0x000F == 0x0005 {
            Instr::SubReg(x, y)
        } else if w & 0x000F == 0x0006 {
            Instr::Shr(x)
        } else if w & 0x000F == 0x0007 {
            Instr::SubN(x, y)
        } else if w & 0x000F == 0x000E {
            Instr::Shl(x)
        } else {
            Instr::Unrecognized(w)
        }
    } else if w & 0xF000 == 0x9000 {
        Instr::SkipNeReg(x, y)
    } else if w & 0xF000 == 0xA000 {
        Instr::SetIndex(nnn)
    } else if w & 0xF000 == 0xB000 {
        Instr::JumpV0(nnn)
    } else if w & 0xF000 == 0xC000 {
        Instr::RandMask(x, nn)
    } else if w & 0xF000 == 0xD000 {
        Instr::Draw(x, y, n)
    } else if w & 0xF000 == 0xE000 {
        if w & 0x00FF == 0x009E {
            Instr::SkipKey(x)
        } else if w & 0x00FF == 0x00A1 {
            Instr::SkipNoKey(x)
        } else {
            Instr::Unrecognized(w)
        }
    } else {
        if w & 0x00FF == 0x0007 {
            Instr::GetDelay(x)
        } else if w & 0x00FF == 0x000A {
            Instr::WaitKey(x)
        } else if w & 0x00FF == 0x0015 {
            Instr::SetDelay(x)
        } else if w & 0x00FF == 0x0018 {
            Instr::SetSound(x)
        } else if w & 0x00FF == 0x001E {
            Instr::AddIndex(x)
        } else if w & 0x00FF == 0x0029 {
            Instr::FontAddr(x)
        } else if w & 0x00FF == 0x0033 {
            Instr::StoreBcd(x)
        } else if w & 0x00FF == 0x0055 {
            Instr::DumpRegs(x)
        } else if w & 0x00FF == 0x0065 {
            Instr::LoadRegs(x)
        } else {
            Instr::Unrecognized(w)
        }
    }
}

/// Operand fields are within their ranges: register indices below 16,
/// 4-bit immediates below 16, addresses below 4096.
pub open spec fn ins_wf(ins: Instr) -> bool {
    match ins {
        Instr::Cls => true,
        Instr::Ret => true,
        Instr::Jump(nnn) => nnn < 4096,
        Instr::Call(nnn) => nnn < 4096,
        Instr::SkipEqImm(x, _) => x < 16,
        Instr::SkipNeImm(x, _) => x < 16,
        Instr::SkipEqReg(x, y) => x < 16 && y < 16,
        Instr::SetImm(x, _) => x < 16,
        Instr::AddImm(x, _) => x < 16,
        Instr::Mov(x, y) => x < 16 && y < 16,
        Instr::Or(x, y) => x < 16 && y < 16,
        Instr::And(x, y) => x < 16 && y < 16,
        Instr::Xor(x, y) => x < 16 && y < 16,
        Instr::AddReg(x, y) => x < 16 && y < 16,
        Instr::SubReg(x, y) => x < 16 && y < 16,
        Instr::Shr(x) => x < 16,
        Instr::SubN(x, y) => x < 16 && y < 16,
        Instr::Shl(x) => x < 16,
        Instr::SkipNeReg(x, y) => x < 16 && y < 16,
        Instr::SetIndex(nnn) => nnn < 4096,
        Instr::JumpV0(nnn) => nnn < 4096,
        Instr::RandMask(x, _) => x < 16,
        Instr::Draw(x, y, n) => x < 16 && y < 16 && n < 16,
        Instr::SkipKey(x) => x < 16,
        Instr::SkipNoKey(x) => x < 16,
        Instr::GetDelay(x) => x < 16,
        Instr::WaitKey(x) => x < 16,
        Instr::SetDelay(x) => x < 16,
        Instr::SetSound(x) => x < 16,
        Instr::AddIndex(x) => x < 16,
        Instr::FontAddr(x) => x < 16,
        Instr::StoreBcd(x) => x < 16,
        Instr::DumpRegs(x) => x < 16,
        Instr::LoadRegs(x) => x < 16,
        Instr::Unrecognized(_) => true,
    }
}

/// Decoding is total: every one of the 65536 instruction words decodes, with
/// no precondition, to an instruction whose operand fields are in range.
pub proof fn lemma_decode_wf(w: u16)
    ensures
        ins_wf(spec_decode(w)),
{
    assert(((w >> 8) & 0x0F) < 16 && ((w >> 4) & 0x0F) < 16 && (w & 0x0F) < 16 && (w & 0x0FFF)
        < 4096) by (bit_vector);
}

/// Decode one instruction word. Total and deterministic: the result is
/// exactly `spec_decode(w)` for every `w`, and nothing else is read or
/// written.
pub fn decode(w: u16) -> (r: Instr)
    ensures
        r == spec_decode(w),
        ins_wf(r),
{
    proof {
        lemma_decode_wf(w);
    }
    let x: u8 = ((w >> 8) & 0x0F) as u8;
    let y: u8 = ((w >> 4) & 0x0F) as u8;
    let n: u8 = (w & 0x0F) as u8;
    let nn: u8 = (w & 0xFF) as u8;
    let nnn: u16 = w & 0x0FFF;
    match w & 0xF000 {
        0x0000 => match w & 0x00FF {
            0x00E0 => Instr::Cls,
            0x00EE => Instr::Ret,
            _ => Instr::Unrecognized(w),
        },
        0x1000 => Instr::Jump(nnn),
        0x2000 => Instr::Call(nnn),
        0x3000 => Instr::SkipEqImm(x, nn),
        0x4000 => Instr::SkipNeImm(x, nn),
        0x5000 => Instr::SkipEqReg(x, y),
        0x6000 => Instr::SetImm(x, nn),
        0x7000 => Instr::AddImm(x, nn),
        0x8000 => match w & 0x000F {
            0x0000 => Instr::Mov(x, y),
            0x0001 => Instr::Or(x, y),
            0x0002 => Instr::And(x, y),
            0x0003 => Instr::Xor(x, y),
            0x0004 => Instr::AddReg(x, y),
            0x0005 => Instr::SubReg(x, y),
            0x0006 => Instr::Shr(x),
            0x0007 => Instr::SubN(x, y),
            0x000E => Instr::Shl(x),
            _ => Instr::Unrecognized(w),
        },
        0x9000 => Instr::SkipNeReg(x, y),
        0xA000 => Instr::SetIndex(nnn),
        0xB000 => Instr::JumpV0(nnn),
        0xC000 => Instr::RandMask(x, nn),
        0xD000 => Instr::Draw(x, y, n),
        0xE000 => match w & 0x00FF {
            0x009E => Instr::SkipKey(x),
            0x00A1 => Instr::SkipNoKey(x),
            _ => Instr::Unrecognized(w),
        },
        _ => match w & 0x00FF {
            0x0007 => Instr::GetDelay(x),
            0x000A => Instr::WaitKey(x),
            0x0015 => Instr::SetDelay(x),
            0x0018 => Instr::SetSound(x),
            0x001E => Instr::AddIndex(x),
            0x0029 => Instr::FontAddr(x),
            0x0033 => Instr::StoreBcd(x),
            0x0055 => Instr::DumpRegs(x),
            0x0065 => Instr::LoadRegs(x),
            _ => Instr::Unrecognized(w),
        },
    }
}

} // verus!
