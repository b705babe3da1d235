use crusty_chip::decode;
use crusty_chip::Instruction;

#[test]
fn test_decode_clear_return_sys() {
    assert_eq!(decode(0x00E0), Instruction::ClearDisplay);
    assert_eq!(decode(0x00EE), Instruction::Return);
    assert_eq!(decode(0x0123), Instruction::JumpToSysRoutine { addr: 0x123 });
}

#[test]
fn test_decode_jump_and_call() {
    assert_eq!(decode(0x1ABC), Instruction::JumpToAddress { addr: 0xABC });
    assert_eq!(decode(0x2ABC), Instruction::CallSubroutine { addr: 0xABC });
}

#[test]
fn test_decode_skips() {
    assert_eq!(decode(0x3A12), Instruction::SkipNextVxEq { x: 0xA, cmp_with: 0x12 });
    assert_eq!(decode(0x4A12), Instruction::SkipNextVxNe { x: 0xA, cmp_with: 0x12 });
    assert_eq!(decode(0x5AB0), Instruction::SkipNextVxEqVy { x: 0xA, y: 0xB });
    assert_eq!(decode(0x5AB1), Instruction::Unknown);
    assert_eq!(decode(0x9AB0), Instruction::SkipNextVxNeVy { x: 0xA, y: 0xB });
    assert_eq!(decode(0x9AB1), Instruction::Unknown);
}

#[test]
fn test_decode_immediates() {
    assert_eq!(decode(0x6A12), Instruction::SetVxByte { x: 0xA, to: 0x12 });
    assert_eq!(decode(0x7A12), Instruction::AddVxByte { x: 0xA, rhs: 0x12 });
    assert_eq!(decode(0xAABC), Instruction::SetI { to: 0xABC });
    assert_eq!(decode(0xCA12), Instruction::SetVxRandAnd { x: 0xA, and: 0x12 });
}

#[test]
fn test_decode_alu_family() {
    assert_eq!(decode(0x8AB0), Instruction::SetVxToVy { x: 0xA, y: 0xB });
    assert_eq!(decode(0x8AB1), Instruction::SetVxToVxOrVy { x: 0xA, y: 0xB });
    assert_eq!(decode(0x8AB2), Instruction::SetVxToVxAndVy { x: 0xA, y: 0xB });
    assert_eq!(decode(0x8AB3), Instruction::SetVxToVxXorVy { x: 0xA, y: 0xB });
    assert_eq!(decode(0x8AB4), Instruction::AddVxVy { x: 0xA, y: 0xB });
    assert_eq!(decode(0x8AB5), Instruction::SubVxVy { x: 0xA, y: 0xB });
    assert_eq!(decode(0x8AB6), Instruction::SetVxToVyShr1 { x: 0xA, y: 0xB });
    assert_eq!(decode(0x8AB7), Instruction::SubnVxVy { x: 0xA, y: 0xB });
    assert_eq!(decode(0x8ABE), Instruction::SetVxToVyShl1 { x: 0xA, y: 0xB });
    assert_eq!(decode(0x8AB8), Instruction::Unknown);
}

#[test]
fn test_decode_display_and_keys() {
    assert_eq!(decode(0xDAB5), Instruction::DisplaySprite { x: 0xA, y: 0xB, n: 5 });
    assert_eq!(decode(0xEA9E), Instruction::SkipNextKeyVxPressed { x: 0xA });
    assert_eq!(decode(0xEAA1), Instruction::SkipNextKeyVxNotPressed { x: 0xA });
    assert_eq!(decode(0xEA00), Instruction::Unknown);
}

#[test]
fn test_decode_f_family() {
    assert_eq!(decode(0xF307), Instruction::SetVxToDelayTimer { x: 3 });
    assert_eq!(decode(0xF30A), Instruction::WaitForKeypressStoreInVx { x: 3 });
    assert_eq!(decode(0xF315), Instruction::SetDelayTimer { x: 3 });
    assert_eq!(decode(0xF318), Instruction::SetSoundTimer { x: 3 });
    assert_eq!(decode(0xF31E), Instruction::AddVxToI { x: 3 });
    assert_eq!(decode(0xF329), Instruction::SetIToLocOfDigitVx { x: 3 });
    assert_eq!(decode(0xF333), Instruction::StoreBcdOfVxToI { x: 3 });
    assert_eq!(decode(0xF355), Instruction::CopyV0ThroughVxToMem { x: 3 });
    assert_eq!(decode(0xF365), Instruction::ReadV0ThroughVxFromMem { x: 3 });
    assert_eq!(decode(0xF300), Instruction::Unknown);
}

#[test]
fn test_decode_unassigned_family_is_unknown() {
    assert_eq!(decode(0xBABC), Instruction::Unknown);
}
