//! Decoding of raw 16-bit instruction words into tagged instruction values.
//!
//! Decoding is total: every bit pattern maps to exactly one variant, with
//! patterns that match no known opcode mapping to [`Instruction::Unknown`].
//! The decoder is a pure function and never touches machine state.

use vstd::prelude::*;

verus! {

/// A decoded CHIP-8 instruction.
///
/// Operand fields carry only the parts of the instruction word that the
/// variant uses: 4-bit register indices (`x`, `y`, `n`), 8-bit immediates
/// (`cmp_with`, `to`, `rhs`, `and`) and 12-bit addresses (`addr`, `to`).
#[derive(Clone, Copy, Debug, PartialEq, Eq, Structural)]
pub enum Instruction {
    ClearDisplay,
    Return,
    JumpToSysRoutine { addr: u16 },
    JumpToAddress { addr: u16 },
    CallSubroutine { addr: u16 },
    SkipNextVxEq { x: u8, cmp_with: u8 },
    SkipNextVxNe { x: u8, cmp_with: u8 },
    SkipNextVxEqVy { x: u8, y: u8 },
    SetVxByte { x: u8, to: u8 },
    AddVxByte { x: u8, rhs: u8 },
    SetVxToVy { x: u8, y: u8 },
    SetVxToVxOrVy { x: u8, y: u8 },
    SetVxToVxAndVy { x: u8, y: u8 },
    SetVxToVxXorVy { x: u8, y: u8 },
    AddVxVy { x: u8, y: u8 },
    SubVxVy { x: u8, y: u8 },
    SetVxToVyShr1 { x: u8, y: u8 },
    SubnVxVy { x: u8, y: u8 },
    SetVxToVyShl1 { x: u8, y: u8 },
    SkipNextVxNeVy { x: u8, y: u8 },
    SetI { to: u16 },
    SetVxRandAnd { x: u8, and: u8 },
    DisplaySprite { x: u8, y: u8, n: u8 },
    SkipNextKeyVxNotPressed { x: u8 },
    SkipNextKeyVxPressed { x: u8 },
    SetVxToDelayTimer { x: u8 },
    WaitForKeypressStoreInVx { x: u8 },
    SetDelayTimer { x: u8 },
    SetSoundTimer { x: u8 },
    AddVxToI { x: u8 },
    SetIToLocOfDigitVx { x: u8 },
    StoreBcdOfVxToI { x: u8 },
    CopyV0ThroughVxToMem { x: u8 },
    ReadV0ThroughVxFromMem { x: u8 },
    Unknown,
}

/// What [`decode`] returns for a given instruction word.
///
/// The word is split arithmetically: the high nibble selects the primary
/// family, and the remaining fields (`nnn` address, `n` low nibble, `x` and
/// `y` register indices, `kk` low byte) are family-specific selectors and
/// operands.
pub open spec fn spec_decode(ins: u16) -> Instruction {
    let fam: u16 = ins / 0x1000;
    let nnn: u16 = ins % 0x1000;
    let n: u8 = (ins % 0x10) as u8;
    let x: u8 = ((ins / 0x100) % 0x10) as u8;
    let y: u8 = ((ins / 0x10) % 0x10) as u8;
    let kk: u8 = (ins % 0x100) as u8;
    if fam == 0x0 {
        if nnn == 0x0E0 {
            Instruction::ClearDisplay
        } else if nnn == 0x0EE {
            Instruction::Return
        } else {
            Instruction::JumpToSysRoutine { addr: nnn }
        }
    } else if fam == 0x1 {
        Instruction::JumpToAddress { addr: nnn }
    } else if fam == 0x2 {
        Instruction::CallSubroutine { addr: nnn }
    } else if fam == 0x3 {
        Instruction::SkipNextVxEq { x, cmp_with: kk }
    } else if fam == 0x4 {
        Instruction::SkipNextVxNe { x, cmp_with: kk }
    } else if fam == 0x5 {
        if n == 0x0 {
            Instruction::SkipNextVxEqVy { x, y }
        } else {
            Instruction::Unknown
        }
    } else if fam == 0x6 {
        Instruction::SetVxByte { x, to: kk }
    } else if fam == 0x7 {
        Instruction::AddVxByte { x, rhs: kk }
    } else if fam == 0x8 {
        if n == 0x0 {
            Instruction::SetVxToVy { x, y }
        } else if n == 0x1 {
            Instruction::SetVxToVxOrVy { x, y }
        } else if n == 0x2 {
            Instruction::SetVxToVxAndVy { x, y }
        } else if n == 0x3 {
            Instruction::SetVxToVxXorVy { x, y }
        } else if n == 0x4 {
            Instruction::AddVxVy { x, y }
        } else if n == 0x5 {
            Instruction::SubVxVy { x, y }
        } else if n == 0x6 {
            Instruction::SetVxToVyShr1 { x, y }
        } else if n == 0x7 {
            Instruction::SubnVxVy { x, y }
        } else if n == 0xE {
            Instruction::SetVxToVyShl1 { x, y }
        } else {
            Instruction::Unknown
        }
    } else if fam == 0x9 {
        if n == 0x0 {
            Instruction::SkipNextVxNeVy { x, y }
        } else {
            Instruction::Unknown
        }
    } else if fam == 0xA {
        Instruction::SetI { to: nnn }
    } else if fam == 0xC {
        Instruction::SetVxRandAnd { x, and: kk }
    } else if fam == 0xD {
        Instruction::DisplaySprite { x, y, n }
    } else if fam == 0xE {
        if kk == 0xA1 {
            Instruction::SkipNextKeyVxNotPressed { x }
        } else if kk == 0x9E {
            Instruction::SkipNextKeyVxPressed { x }
        } else {
            Instruction::Unknown
        }
    } else if fam == 0xF {
        if kk == 0x07 {
            Instruction::SetVxToDelayTimer { x }
        } else if kk == 0x0A {
            Instruction::WaitForKeypressStoreInVx { x }
        } else if kk == 0x15 {
            Instruction::SetDelayTimer { x }
        } else if kk == 0x18 {
            Instruction::SetSoundTimer { x }
        } else if kk == 0x1E {
            Instruction::AddVxToI { x }
        } else if kk == 0x29 {
            Instruction::SetIToLocOfDigitVx { x }
        } else if kk == 0x33 {
            Instruction::StoreBcdOfVxToI { x }
        } else if kk == 0x55 {
            Instruction::CopyV0ThroughVxToMem { x }
        } else if kk == 0x65 {
            Instruction::ReadV0ThroughVxFromMem { x }
        } else {
            Instruction::Unknown
        }
    } else {
        Instruction::Unknown
    }
}

/// Operand fields extracted from 4-bit instruction nibbles are always
/// below 16, so register indices derived from them never need bounds
/// checks.
pub proof fn lemma_decode_operands_in_range(ins: u16)
    ensures
        spec_decode(ins) matches Instruction::SkipNextVxEq { x, .. } ==> x < 16,
        spec_decode(ins) matches Instruction::SkipNextVxNe { x, .. } ==> x < 16,
        spec_decode(ins) matches Instruction::SkipNextVxEqVy { x, y } ==> x < 16 && y < 16,
        spec_decode(ins) matches Instruction::SetVxByte { x, .. } ==> x < 16,
        spec_decode(ins) matches Instruction::AddVxByte { x, .. } ==> x < 16,
        spec_decode(ins) matches Instruction::SetVxToVy { x, y } ==> x < 16 && y < 16,
        spec_decode(ins) matches Instruction::SetVxToVxOrVy { x, y } ==> x < 16 && y < 16,
        spec_decode(ins) matches Instruction::SetVxToVxAndVy { x, y } ==> x < 16 && y < 16,
        spec_decode(ins) matches Instruction::SetVxToVxXorVy { x, y } ==> x < 16 && y < 16,
        spec_decode(ins) matches Instruction::AddVxVy { x, y } ==> x < 16 && y < 16,
        spec_decode(ins) matches Instruction::SubVxVy { x, y } ==> x < 16 && y < 16,
        spec_decode(ins) matches Instruction::SetVxToVyShr1 { x, y } ==> x < 16 && y < 16,
        spec_decode(ins) matches Instruction::SubnVxVy { x, y } ==> x < 16 && y < 16,
        spec_decode(ins) matches Instruction::SetVxToVyShl1 { x, y } ==> x < 16 && y < 16,
        spec_decode(ins) matches Instruction::SkipNextVxNeVy { x, y } ==> x < 16 && y < 16,
        spec_decode(ins) matches Instruction::SetVxRandAnd { x, .. } ==> x < 16,
        spec_decode(ins) matches Instruction::DisplaySprite { x, y, n } ==> x < 16 && y < 16
            && n < 16,
        spec_decode(ins) matches Instruction::SkipNextKeyVxNotPressed { x } ==> x < 16,
        spec_decode(ins) matches Instruction::SkipNextKeyVxPressed { x } ==> x < 16,
        spec_decode(ins) matches Instruction::SetVxToDelayTimer { x } ==> x < 16,
        spec_decode(ins) matches Instruction::WaitForKeypressStoreInVx { x } ==> x < 16,
        spec_decode(ins) matches Instruction::SetDelayTimer { x } ==> x < 16,
        spec_decode(ins) matches Instruction::SetSoundTimer { x } ==> x < 16,
        spec_decode(ins) matches Instruction::AddVxToI { x } ==> x < 16,
        spec_decode(ins) matches Instruction::SetIToLocOfDigitVx { x } ==> x < 16,
        spec_decode(ins) matches Instruction::StoreBcdOfVxToI { x } ==> x < 16,
        spec_decode(ins) matches Instruction::CopyV0ThroughVxToMem { x } ==> x < 16,
        spec_decode(ins) matches Instruction::ReadV0ThroughVxFromMem { x } ==> x < 16,
{
}

/// Decode a raw instruction word into an [`Instruction`] value.
pub fn decode(ins: u16) -> (r: Instruction)
    ensures
        r == spec_decode(ins),
{
    let fam: u16 = ins / 0x1000;
    let nnn: u16 = ins % 0x1000;
    let n: u8 = (ins % 0x10) as u8;
    let x: u8 = ((ins / 0x100) % 0x10) as u8;
    let y: u8 = ((ins / 0x10) % 0x10) as u8;
    let kk: u8 = (ins % 0x100) as u8;
    if fam == 0x0 {
        if nnn == 0x0E0 {
            Instruction::ClearDisplay
        } else if nnn == 0x0EE {
            Instruction::Return
        } else {
            Instruction::JumpToSysRoutine { addr: nnn }
        }
    } else if fam == 0x1 {
        Instruction::JumpToAddress { addr: nnn }
    } else if fam == 0x2 {
        Instruction::CallSubroutine { addr: nnn }
    } else if fam == 0x3 {
        Instruction::SkipNextVxEq { x, cmp_with: kk }
    } else if fam == 0x4 {
        Instruction::SkipNextVxNe { x, cmp_with: kk }
    } else if fam == 0x5 {
        if n == 0x0 {
            Instruction::SkipNextVxEqVy { x, y }
        } else {
            Instruction::Unknown
        }
    } else if fam == 0x6 {
        Instruction::SetVxByte { x, to: kk }
    } else if fam == 0x7 {
        Instruction::AddVxByte { x, rhs: kk }
    } else if fam == 0x8 {
        if n == 0x0 {
            Instruction::SetVxToVy { x, y }
        } else if n == 0x1 {
            Instruction::SetVxToVxOrVy { x, y }
        } else if n == 0x2 {
            Instruction::SetVxToVxAndVy { x, y }
        } else if n == 0x3 {
            Instruction::SetVxToVxXorVy { x, y }
        } else if n == 0x4 {
            Instruction::AddVxVy { x, y }
        } else if n == 0x5 {
            Instruction::SubVxVy { x, y }
        } else if n == 0x6 {
            Instruction::SetVxToVyShr1 { x, y }
        } else if n == 0x7 {
            Instruction::SubnVxVy { x, y }
        } else if n == 0xE {
            Instruction::SetVxToVyShl1 { x, y }
        } else {
            Instruction::Unknown
        }
    } else if fam == 0x9 {
        if n == 0x0 {
            Instruction::SkipNextVxNeVy { x, y }
        } else {
            Instruction::Unknown
        }
    } else if fam == 0xA {
        Instruction::SetI { to: nnn }
    } else if fam == 0xC {
        Instruction::SetVxRandAnd { x, and: kk }
    } else if fam == 0xD {
        Instruction::DisplaySprite { x, y, n }
    } else if fam == 0xE {
        if kk == 0xA1 {
            Instruction::SkipNextKeyVxNotPressed { x }
        } else if kk == 0x9E {
            Instruction::SkipNextKeyVxPressed { x }
        } else {
            Instruction::Unknown
        }
    } else if fam == 0xF {
        if kk == 0x07 {
            Instruction::SetVxToDelayTimer { x }
        } else if kk == 0x0A {
            Instruction::WaitForKeypressStoreInVx { x }
        } else if kk == 0x15 {
            Instruction::SetDelayTimer { x }
        } else if kk == 0x18 {
            Instruction::SetSoundTimer { x }
        } else if kk == 0x1E {
            Instruction::AddVxToI { x }
        } else if kk == 0x29 {
            Instruction::SetIToLocOfDigitVx { x }
        } else if kk == 0x33 {
            Instruction::StoreBcdOfVxToI { x }
        } else if kk == 0x55 {
            Instruction::CopyV0ThroughVxToMem { x }
        } else if kk == 0x65 {
            Instruction::ReadV0ThroughVxFromMem { x }
        } else {
            Instruction::Unknown
        }
    } else {
        Instruction::Unknown
    }
}

} // verus!
