use sahara::{FunctionIndex, Instruction, InstructionIndex, LocalIndex, Opcode};

#[test]
fn test_instruction_to_u32() {
    let instruction = Instruction::_trinary(Opcode::Const, 1, 1, 1);
    assert_eq!(instruction.bytecode(), 4261478657);
}

#[test]
fn test_u32_to_instruction() {
    let instruction = Instruction::from_bytecode(33686018);
    assert_eq!(instruction.op(), Opcode::Print);
    assert_eq!(instruction.a(), 2);
    assert_eq!(instruction.b(), 2);
    assert_eq!(instruction.c(), 2);
}

#[test]
fn operand_views_of_a_word() {
    let instruction = Instruction::from_bytecode(0xFE_12_34_56);
    assert_eq!(instruction.op(), Opcode::Const);
    assert_eq!(instruction.a(), 0x12);
    assert_eq!(instruction.b(), 0x34);
    assert_eq!(instruction.c(), 0x56);
    assert_eq!(instruction.ab(), 0x1234);
    assert_eq!(instruction.bc(), 0x3456);
    assert_eq!(instruction.abc(), 0x123456);
    assert_eq!(instruction.constant_index().value(), 0x123456);
}

#[test]
fn signed_immediates_are_twos_complement() {
    assert_eq!(Instruction::_unary(Opcode::ImmI8, 0xFF).i8(), -1);
    assert_eq!(Instruction::_unary(Opcode::ImmI8, 0x80).i8(), -128);
    assert_eq!(Instruction::_unary(Opcode::ImmI8, 0x7F).i8(), 127);
    assert_eq!(Instruction::_binary(Opcode::ImmI16, 0xFF, 0xFE).i16(), -2);
    assert_eq!(Instruction::_binary(Opcode::ImmI16, 0x80, 0x00).i16(), -32768);
    assert_eq!(Instruction::imm_i16(-300).i16(), -300);
    assert_eq!(Instruction::imm_i8(-7).i8(), -7);
    assert_eq!(Instruction::imm_u16(0xBEEF).u16(), 0xBEEF);
}

#[test]
fn char_immediate_keeps_seven_bits() {
    assert_eq!(Instruction::_unary(Opcode::ImmChar, 0x41).char(), 'A');
    assert_eq!(Instruction::_unary(Opcode::ImmChar, 0xC1).char(), 'A');
}

#[test]
fn bool_immediate_is_nonzero() {
    assert!(!Instruction::_unary(Opcode::ImmBool, 0).bool());
    assert!(Instruction::_unary(Opcode::ImmBool, 2).bool());
    assert!(Instruction::imm_bool(true).bool());
}

#[test]
fn unknown_opcode_is_told() {
    let instruction = Instruction::from_bytecode(0x64_00_00_00);
    assert!(!instruction.has_known_opcode());
    assert_eq!(instruction.try_op(), None);
    assert_eq!(Opcode::from_u8(17), None);
    assert_eq!(Opcode::from_u8(247), None);
    assert_eq!(Opcode::from_u8(255), None);
}

#[test]
fn every_opcode_survives_its_byte() {
    let all = [
        Opcode::Halt,
        Opcode::Return,
        Opcode::Print,
        Opcode::Add,
        Opcode::Sub,
        Opcode::Mul,
        Opcode::Div,
        Opcode::Call,
        Opcode::LocalStore,
        Opcode::LocalRead,
        Opcode::DataTypeCreate,
        Opcode::DataTypeSetField,
        Opcode::DataTypeReadField,
        Opcode::HeapAlloc,
        Opcode::HeapStore,
        Opcode::HeapRead,
        Opcode::Extend,
        Opcode::ImmI16,
        Opcode::ImmI8,
        Opcode::ImmU16,
        Opcode::ImmU8,
        Opcode::ImmChar,
        Opcode::ImmBool,
        Opcode::Const,
    ];
    for op in all {
        assert_eq!(Opcode::from_u8(op.to_u8()), Some(op));
        assert_eq!(Instruction::nullary(op).op(), op);
    }
    assert_eq!(u8::from(Opcode::Const), 254);
    assert_eq!(Opcode::ImmI16.to_u8(), 248);
    assert_eq!(Opcode::Call.mnemonic(), "call");
}

#[test]
fn indexed_instructions_carry_their_index() {
    let call = Instruction::call(FunctionIndex::new(0x00ABCDEF));
    assert_eq!(call.op(), Opcode::Call);
    assert_eq!(call.function_index(), FunctionIndex::new(0xABCDEF));
    let read = Instruction::local_read(LocalIndex::new(7));
    assert_eq!(read.local_index().value(), 7);
    assert_eq!(read.bytecode(), 0x09_00_00_07);
    let extend = Instruction::extend(InstructionIndex::new(3));
    assert_eq!(extend.instruction_index().value(), 3);
    assert_eq!(InstructionIndex::from(extend).value(), 3);
}

#[test]
fn index_keeps_twenty_four_bits() {
    assert_eq!(InstructionIndex::new(0x0100_0005).value(), 5);
    assert_eq!(InstructionIndex::from(0xFF00_0001u32).value(), 1);
    assert_eq!(LocalIndex::from_usize(9).as_usize(), 9);
    assert_eq!(usize::from(LocalIndex::new(0x0100_0009)), 9);
    assert_eq!(usize::from(InstructionIndex::new(4)), 4);
    let local: LocalIndex = 3u32.into();
    assert_eq!(InstructionIndex::from(local).value(), 3);
    assert_eq!(FunctionIndex::new(0x123456).be_bytes(), [0x00, 0x12, 0x34, 0x56]);
}
