use vstd::prelude::*;
use vstd::std_specs::convert::FromSpecImpl;
use vstd::string::StringExecFns;
use crate::util::index::{ConstantIndex, FunctionIndex, InstructionIndex, LocalIndex};
use crate::util::text::{decimal, decimal_text, push_char, signed_decimal, signed_decimal_text};

verus! {

/// The operations of the machine.
#[derive(Debug, PartialEq, Eq, Clone, Copy, Structural)]
pub enum Opcode {
    Halt,
    Return,
    Print,
    Add,
    Sub,
    Mul,
    Div,
    Call,
    LocalStore,
    LocalRead,
    DataTypeCreate,
    DataTypeSetField,
    DataTypeReadField,
    HeapAlloc,
    HeapStore,
    HeapRead,
    Extend,
    ImmI16,
    ImmI8,
    ImmU16,
    ImmU8,
    ImmChar,
    ImmBool,
    Const,
}

impl Opcode {
    /// The byte that encodes the opcode. Opcodes that carry a literal or a
    /// constant index sit at the top of the byte range.
    pub open spec fn code(self) -> u8 {
        match self {
            Opcode::Halt => 0,
            Opcode::Return => 1,
            Opcode::Print => 2,
            Opcode::Add => 3,
            Opcode::Sub => 4,
            Opcode::Mul => 5,
            Opcode::Div => 6,
            Opcode::Call => 7,
            Opcode::LocalStore => 8,
            Opcode::LocalRead => 9,
            Opcode::DataTypeCreate => 10,
            Opcode::DataTypeSetField => 11,
            Opcode::DataTypeReadField => 12,
            Opcode::HeapAlloc => 13,
            Opcode::HeapStore => 14,
            Opcode::HeapRead => 15,
            Opcode::Extend => 16,
            Opcode::ImmI16 => 248,
            Opcode::ImmI8 => 249,
            Opcode::ImmU16 => 250,
            Opcode::ImmU8 => 251,
            Opcode::ImmChar => 252,
            Opcode::ImmBool => 253,
            Opcode::Const => 254,
        }
    }

    /// The opcode that a byte encodes, if any.
    pub open spec fn decode(byte: u8) -> Option<Opcode> {
        if byte == 0 {
            Some(Opcode::Halt)
        } else if byte == 1 {
            Some(Opcode::Return)
        } else if byte == 2 {
            Some(Opcode::Print)
        } else if byte == 3 {
            Some(Opcode::Add)
        } else if byte == 4 {
            Some(Opcode::Sub)
        } else if byte == 5 {
            Some(Opcode::Mul)
        } else if byte == 6 {
            Some(Opcode::Div)
        } else if byte == 7 {
            Some(Opcode::Call)
        } else if byte == 8 {
            Some(Opcode::LocalStore)
        } else if byte == 9 {
            Some(Opcode::LocalRead)
        } else if byte == 10 {
            Some(Opcode::DataTypeCreate)
        } else if byte == 11 {
            Some(Opcode::DataTypeSetField)
        } else if byte == 12 {
            Some(Opcode::DataTypeReadField)
        } else if byte == 13 {
            Some(Opcode::HeapAlloc)
        } else if byte == 14 {
            Some(Opcode::HeapStore)
        } else if byte == 15 {
            Some(Opcode::HeapRead)
        } else if byte == 16 {
            Some(Opcode::Extend)
        } else if byte == 248 {
            Some(Opcode::ImmI16)
        } else if byte == 249 {
            Some(Opcode::ImmI8)
        } else if byte == 250 {
            Some(Opcode::ImmU16)
        } else if byte == 251 {
            Some(Opcode::ImmU8)
        } else if byte == 252 {
            Some(Opcode::ImmChar)
        } else if byte == 253 {
            Some(Opcode::ImmBool)
        } else if byte == 254 {
            Some(Opcode::Const)
        } else {
            None
        }
    }

    /// Decoding inverts encoding, and the other way round.
    pub proof fn lemma_code_decode(op: Opcode, byte: u8)
        ensures
            Self::decode(op.code()) == Some(op),
            Self::decode(byte) is Some ==> Self::decode(byte).unwrap().code() == byte,
    {
    }

    pub fn to_u8(self) -> (byte: u8)
        ensures
            byte == self.code(),
    {
        match self {
            Opcode::Halt => 0,
            Opcode::Return => 1,
            Opcode::Print => 2,
            Opcode::Add => 3,
            Opcode::Sub => 4,
            Opcode::Mul => 5,
            Opcode::Div => 6,
            Opcode::Call => 7,
            Opcode::LocalStore => 8,
            Opcode::LocalRead => 9,
            Opcode::DataTypeCreate => 10,
            Opcode::DataTypeSetField => 11,
            Opcode::DataTypeReadField => 12,
            Opcode::HeapAlloc => 13,
            Opcode::HeapStore => 14,
            Opcode::HeapRead => 15,
            Opcode::Extend => 16,
            Opcode::ImmI16 => 248,
            Opcode::ImmI8 => 249,
            Opcode::ImmU16 => 250,
            Opcode::ImmU8 => 251,
            Opcode::ImmChar => 252,
            Opcode::ImmBool => 253,
            Opcode::Const => 254,
        }
    }

    /// The opcode encoded by `byte`, or `None` where the byte encodes none.
    pub fn from_u8(byte: u8) -> (op: Option<Opcode>)
        ensures
            op == Self::decode(byte),
    {
        match byte {
            0 => Some(Opcode::Halt),
            1 => Some(Opcode::Return),
            2 => Some(Opcode::Print),
            3 => Some(Opcode::Add),
            4 => Some(Opcode::Sub),
            5 => Some(Opcode::Mul),
            6 => Some(Opcode::Div),
            7 => Some(Opcode::Call),
            8 => Some(Opcode::LocalStore),
            9 => Some(Opcode::LocalRead),
            10 => Some(Opcode::DataTypeCreate),
            11 => Some(Opcode::DataTypeSetField),
            12 => Some(Opcode::DataTypeReadField),
            13 => Some(Opcode::HeapAlloc),
            14 => Some(Opcode::HeapStore),
            15 => Some(Opcode::HeapRead),
            16 => Some(Opcode::Extend),
            248 => Some(Opcode::ImmI16),
            249 => Some(Opcode::ImmI8),
            250 => Some(Opcode::ImmU16),
            251 => Some(Opcode::ImmU8),
            252 => Some(Opcode::ImmChar),
            253 => Some(Opcode::ImmBool),
            254 => Some(Opcode::Const),
            _ => None,
        }
    }

    /// The lower-case name of the operation.
    pub fn mnemonic(self) -> (name: &'static str)
        ensures
            name@ == self.spec_mnemonic(),
    {
        match self {
            Opcode::Halt => "halt",
            Opcode::Return => "return",
            Opcode::Print => "print",
            Opcode::Add => "add",
            Opcode::Sub => "sub",
            Opcode::Mul => "mul",
            Opcode::Div => "div",
            Opcode::Call => "call",
            Opcode::LocalStore => "local_store",
            Opcode::LocalRead => "local_read",
            Opcode::DataTypeCreate => "data_type_create",
            Opcode::DataTypeSetField => "data_type_set_field",
            Opcode::DataTypeReadField => "data_type_read_field",
            Opcode::HeapAlloc => "heap_alloc",
            Opcode::HeapStore => "heap_store",
            Opcode::HeapRead => "heap_read",
            Opcode::Extend => "extend",
            Opcode::ImmI16 => "imm_i16",
            Opcode::ImmI8 => "imm_i8",
            Opcode::ImmU16 => "imm_u16",
            Opcode::ImmU8 => "imm_u8",
            Opcode::ImmChar => "imm_char",
            Opcode::ImmBool => "imm_bool",
            Opcode::Const => "const",
        }
    }

    pub open spec fn spec_mnemonic(self) -> Seq<char> {
        match self {
            Opcode::Halt => "halt"@,
            Opcode::Return => "return"@,
            Opcode::Print => "print"@,
            Opcode::Add => "add"@,
            Opcode::Sub => "sub"@,
            Opcode::Mul => "mul"@,
            Opcode::Div => "div"@,
            Opcode::Call => "call"@,
            Opcode::LocalStore => "local_store"@,
            Opcode::LocalRead => "local_read"@,
            Opcode::DataTypeCreate => "data_type_create"@,
            Opcode::DataTypeSetField => "data_type_set_field"@,
            Opcode::DataTypeReadField => "data_type_read_field"@,
            Opcode::HeapAlloc => "heap_alloc"@,
            Opcode::HeapStore => "heap_store"@,
            Opcode::HeapRead => "heap_read"@,
            Opcode::Extend => "extend"@,
            Opcode::ImmI16 => "imm_i16"@,
            Opcode::ImmI8 => "imm_i8"@,
            Opcode::ImmU16 => "imm_u16"@,
            Opcode::ImmU8 => "imm_u8"@,
            Opcode::ImmChar => "imm_char"@,
            Opcode::ImmBool => "imm_bool"@,
            Opcode::Const => "const"@,
        }
    }
}

impl From<Opcode> for u8 {
    fn from(value: Opcode) -> (r: Self) {
        value.to_u8()
    }
}

impl FromSpecImpl<Opcode> for u8 {
    open spec fn obeys_from_spec() -> bool {
        true
    }

    open spec fn from_spec(value: Opcode) -> Self {
        value.code()
    }
}

/// The 32-bit word made of an opcode byte and three operand bytes, the
/// opcode in the most significant byte.
pub open spec fn pack(op: u8, a: u8, b: u8, c: u8) -> u32 {
    (op as u32 * 0x1000000 + a as u32 * 0x10000 + b as u32 * 0x100 + c as u32) as u32
}

/// One instruction: a 32-bit word laid out as `[opcode | a | b | c]`.
#[derive(Debug, PartialEq, Eq, Clone, Copy, Structural)]
pub struct Instruction {
    bytecode: u32,
}

impl View for Instruction {
    type V = u32;

    closed spec fn view(&self) -> u32 {
        self.bytecode
    }
}

impl Instruction {
    /// The byte in the opcode position.
    pub open spec fn spec_opcode_byte(self) -> u8 {
        (self@ / 0x1000000) as u8
    }

    /// The opcode, where the opcode byte encodes one.
    pub open spec fn spec_op(self) -> Option<Opcode> {
        Opcode::decode(self.spec_opcode_byte())
    }

    pub open spec fn spec_a(self) -> u8 {
        (self@ / 0x10000 % 0x100) as u8
    }

    pub open spec fn spec_b(self) -> u8 {
        (self@ / 0x100 % 0x100) as u8
    }

    pub open spec fn spec_c(self) -> u8 {
        (self@ % 0x100) as u8
    }

    pub open spec fn spec_ab(self) -> u16 {
        (self@ / 0x100 % 0x10000) as u16
    }

    pub open spec fn spec_bc(self) -> u16 {
        (self@ % 0x10000) as u16
    }

    pub open spec fn spec_abc(self) -> u32 {
        (self@ % 0x1000000) as u32
    }

    /// The instruction with the given word.
    pub fn from_bytecode(bytecode: u32) -> (inst: Instruction)
        ensures
            inst@ == bytecode,
    {
        Instruction { bytecode }
    }

    /// The instruction's word.
    pub fn bytecode(&self) -> (word: u32)
        ensures
            word == self@,
    {
        self.bytecode
    }

    /// A word is made of its four bytes, and the wider operand views are
    /// made of the narrower ones.
    pub proof fn lemma_fields(self)
        ensures
            self@ == pack(self.spec_opcode_byte(), self.spec_a(), self.spec_b(), self.spec_c()),
            self.spec_ab() == self.spec_a() * 0x100 + self.spec_b(),
            self.spec_bc() == self.spec_b() * 0x100 + self.spec_c(),
            self.spec_abc() == self.spec_a() * 0x10000 + self.spec_b() * 0x100 + self.spec_c(),
    {
        let w: u32 = self@;
        assert(w == ((w / 0x1000000) as u8) as u32 * 0x1000000 + ((w / 0x10000 % 0x100) as u8) as u32
            * 0x10000 + ((w / 0x100 % 0x100) as u8) as u32 * 0x100 + ((w % 0x100) as u8) as u32)
            by (bit_vector);
        assert((w / 0x100 % 0x10000) as u16 == ((w / 0x10000 % 0x100) as u8) as u32 * 0x100 + ((w
            / 0x100 % 0x100) as u8) as u32) by (bit_vector);
        assert((w % 0x10000) as u16 == ((w / 0x100 % 0x100) as u8) as u32 * 0x100 + ((w % 0x100) as u8) as u32)
            by (bit_vector);
        assert((w % 0x1000000) as u32 == ((w / 0x10000 % 0x100) as u8) as u32 * 0x10000 + ((w / 0x100
            % 0x100) as u8) as u32 * 0x100 + ((w % 0x100) as u8) as u32) by (bit_vector);
    }

    /// Packing four bytes and reading them back gives the same bytes.
    pub proof fn lemma_pack_fields(op: u8, a: u8, b: u8, c: u8)
        by (bit_vector)
        ensures
            pack(op, a, b, c) / 0x1000000 == op,
            pack(op, a, b, c) / 0x10000 % 0x100 == a,
            pack(op, a, b, c) / 0x100 % 0x100 == b,
            pack(op, a, b, c) % 0x100 == c,
            pack(op, a, b, c) % 0x1000000 == a * 0x10000 + b * 0x100 + c,
    {
    }

    pub fn nullary(op: Opcode) -> (inst: Instruction)
        ensures
            inst@ == pack(op.code(), 0, 0, 0),
            inst.spec_op() == Some(op),
    {
        Self::_trinary(op, 0, 0, 0)
    }

    pub fn _unary(op: Opcode, a: u8) -> (inst: Instruction)
        ensures
            inst@ == pack(op.code(), a, 0, 0),
            inst.spec_op() == Some(op),
            inst.spec_a() == a,
    {
        Self::_trinary(op, a, 0, 0)
    }

    pub fn _binary(op: Opcode, a: u8, b: u8) -> (inst: Instruction)
        ensures
            inst@ == pack(op.code(), a, b, 0),
            inst.spec_op() == Some(op),
            inst.spec_a() == a,
            inst.spec_b() == b,
            inst.spec_ab() == a * 0x100 + b,
    {
        Self::_trinary(op, a, b, 0)
    }

    pub fn _trinary(op: Opcode, a: u8, b: u8, c: u8) -> (inst: Instruction)
        ensures
            inst@ == pack(op.code(), a, b, c),
            inst.spec_op() == Some(op),
            inst.spec_a() == a,
            inst.spec_b() == b,
            inst.spec_c() == c,
            inst.spec_abc() == a * 0x10000 + b * 0x100 + c,
    {
        let code: u8 = op.to_u8();
        proof {
            Self::lemma_pack_fields(code, a, b, c);
            Opcode::lemma_code_decode(op, code);
        }
        Instruction {
            bytecode: code as u32 * 0x1000000 + a as u32 * 0x10000 + b as u32 * 0x100 + c as u32,
        }
    }

    /// An instruction whose three operand bytes carry a 24-bit index.
    pub fn indexed(op: Opcode, idx: InstructionIndex) -> (inst: Instruction)
        ensures
            inst@ == op.code() * 0x1000000 + idx@,
            inst.spec_op() == Some(op),
            inst.spec_abc() == idx@,
    {
        let code: u8 = op.to_u8();
        let low: u32 = idx.value();
        proof {
            Opcode::lemma_code_decode(op, code);
        }
        Instruction { bytecode: code as u32 * 0x1000000 + low }
    }

    /// Whether the opcode byte encodes an operation.
    pub fn has_known_opcode(&self) -> (known: bool)
        ensures
            known == self.spec_op().is_some(),
    {
        Opcode::from_u8((self.bytecode / 0x1000000) as u8).is_some()
    }

    /// The operation, or `None` where the opcode byte encodes none.
    pub fn try_op(&self) -> (op: Option<Opcode>)
        ensures
            op == self.spec_op(),
    {
        Opcode::from_u8((self.bytecode / 0x1000000) as u8)
    }

    /// The operation. The opcode byte must encode one.
    pub fn op(&self) -> (op: Opcode)
        requires
            self.spec_op().is_some(),
        ensures
            Some(op) == self.spec_op(),
    {
        Opcode::from_u8((self.bytecode / 0x1000000) as u8).unwrap()
    }

    pub fn a(&self) -> (r: u8)
        ensures
            r == self.spec_a(),
    {
        (self.bytecode / 0x10000 % 0x100) as u8
    }

    pub fn b(&self) -> (r: u8)
        ensures
            r == self.spec_b(),
    {
        (self.bytecode / 0x100 % 0x100) as u8
    }

    pub fn c(&self) -> (r: u8)
        ensures
            r == self.spec_c(),
    {
        (self.bytecode % 0x100) as u8
    }

    pub fn ab(&self) -> (r: u16)
        ensures
            r == self.spec_ab(),
    {
        (self.bytecode / 0x100 % 0x10000) as u16
    }

    pub fn bc(&self) -> (r: u16)
        ensures
            r == self.spec_bc(),
    {
        (self.bytecode % 0x10000) as u16
    }

    pub fn abc(&self) -> (r: u32)
        ensures
            r == self.spec_abc(),
            r < 0x1000000,
    {
        self.bytecode % 0x1000000
    }

    /// The 24-bit operand as a plain index.
    pub fn instruction_index(&self) -> (idx: InstructionIndex)
        ensures
            idx@ == self.spec_abc(),
            idx == InstructionIndex::spec_new(self.spec_abc()),
    {
        InstructionIndex::new(self.abc())
    }

    pub fn function_index(&self) -> (idx: FunctionIndex)
        ensures
            idx@ == self.spec_abc(),
            idx == FunctionIndex::spec_new(self.spec_abc()),
    {
        FunctionIndex::new(self.abc())
    }

    pub fn constant_index(&self) -> (idx: ConstantIndex)
        ensures
            idx@ == self.spec_abc(),
    {
        ConstantIndex::new(self.abc())
    }

    pub fn local_index(&self) -> (idx: LocalIndex)
        ensures
            idx@ == self.spec_abc(),
            idx == LocalIndex::spec_new(self.spec_abc()),
    {
        LocalIndex::new(self.abc())
    }

    /// The unsigned 8-bit literal: operand byte `a`.
    pub fn u8(&self) -> (r: u8)
        ensures
            r == self.spec_a(),
    {
        self.a()
    }

    /// The unsigned 16-bit literal: operand bytes `a` and `b`.
    pub fn u16(&self) -> (r: u16)
        ensures
            r == self.spec_ab(),
    {
        self.ab()
    }

    /// The signed number that the byte `a` is in two's complement.
    pub open spec fn spec_i8(self) -> int {
        if self.spec_a() >= 0x80 {
            self.spec_a() - 0x100
        } else {
            self.spec_a() as int
        }
    }

    /// The signed number that the bytes `a` and `b` are in two's complement.
    pub open spec fn spec_i16(self) -> int {
        if self.spec_ab() >= 0x8000 {
            self.spec_ab() - 0x10000
        } else {
            self.spec_ab() as int
        }
    }

    /// The signed 8-bit literal: operand byte `a` in two's complement.
    pub fn i8(&self) -> (r: i8)
        ensures
            r == self.spec_i8(),
    {
        let a: u8 = self.a();
        if a >= 0x80 {
            (a as i16 - 0x100) as i8
        } else {
            a as i8
        }
    }

    /// The signed 16-bit literal: operand bytes `a` and `b` in two's complement.
    pub fn i16(&self) -> (r: i16)
        ensures
            r == self.spec_i16(),
    {
        let ab: u16 = self.ab();
        if ab >= 0x8000 {
            (ab as i32 - 0x10000) as i16
        } else {
            ab as i16
        }
    }

    /// The character literal: the ASCII character in the low seven bits of `a`.
    pub fn char(&self) -> (r: char)
        ensures
            r as u32 == self.spec_a() % 0x80,
    {
        (self.a() % 0x80) as char
    }

    /// The boolean literal: whether `a` is not zero.
    pub fn bool(&self) -> (r: bool)
        ensures
            r == (self.spec_a() != 0),
    {
        self.a() != 0
    }

    pub fn constant(idx: ConstantIndex) -> (inst: Instruction)
        ensures
            inst.spec_op() == Some(Opcode::Const),
            inst.spec_abc() == idx@,
    {
        Self::indexed(Opcode::Const, idx.instruction_index())
    }

    pub fn add() -> (inst: Instruction)
        ensures
            inst@ == pack(Opcode::Add.code(), 0, 0, 0),
            inst.spec_op() == Some(Opcode::Add),
    {
        Self::nullary(Opcode::Add)
    }

    pub fn sub() -> (inst: Instruction)
        ensures
            inst@ == pack(Opcode::Sub.code(), 0, 0, 0),
            inst.spec_op() == Some(Opcode::Sub),
    {
        Self::nullary(Opcode::Sub)
    }

    pub fn mul() -> (inst: Instruction)
        ensures
            inst@ == pack(Opcode::Mul.code(), 0, 0, 0),
            inst.spec_op() == Some(Opcode::Mul),
    {
        Self::nullary(Opcode::Mul)
    }

    pub fn div() -> (inst: Instruction)
        ensures
            inst@ == pack(Opcode::Div.code(), 0, 0, 0),
            inst.spec_op() == Some(Opcode::Div),
    {
        Self::nullary(Opcode::Div)
    }

    pub fn print() -> (inst: Instruction)
        ensures
            inst@ == pack(Opcode::Print.code(), 0, 0, 0),
            inst.spec_op() == Some(Opcode::Print),
    {
        Self::nullary(Opcode::Print)
    }

    pub fn halt() -> (inst: Instruction)
        ensures
            inst@ == pack(Opcode::Halt.code(), 0, 0, 0),
            inst.spec_op() == Some(Opcode::Halt),
    {
        Self::nullary(Opcode::Halt)
    }

    pub fn call(idx: FunctionIndex) -> (inst: Instruction)
        ensures
            inst.spec_op() == Some(Opcode::Call),
            inst.spec_abc() == idx@,
    {
        Self::indexed(Opcode::Call, idx.instruction_index())
    }

    pub fn ret() -> (inst: Instruction)
        ensures
            inst@ == pack(Opcode::Return.code(), 0, 0, 0),
            inst.spec_op() == Some(Opcode::Return),
    {
        Self::nullary(Opcode::Return)
    }

    pub fn local_store(idx: LocalIndex) -> (inst: Instruction)
        ensures
            inst.spec_op() == Some(Opcode::LocalStore),
            inst.spec_abc() == idx@,
    {
        Self::indexed(Opcode::LocalStore, idx.instruction_index())
    }

    pub fn local_read(idx: LocalIndex) -> (inst: Instruction)
        ensures
            inst.spec_op() == Some(Opcode::LocalRead),
            inst.spec_abc() == idx@,
    {
        Self::indexed(Opcode::LocalRead, idx.instruction_index())
    }

    pub fn data_type_create(idx: LocalIndex) -> (inst: Instruction)
        ensures
            inst.spec_op() == Some(Opcode::DataTypeCreate),
            inst.spec_abc() == idx@,
    {
        Self::indexed(Opcode::DataTypeCreate, idx.instruction_index())
    }

    pub fn data_type_set_field(idx: LocalIndex) -> (inst: Instruction)
        ensures
            inst.spec_op() == Some(Opcode::DataTypeSetField),
            inst.spec_abc() == idx@,
    {
        Self::indexed(Opcode::DataTypeSetField, idx.instruction_index())
    }

    pub fn data_type_read_field(idx: LocalIndex) -> (inst: Instruction)
        ensures
            inst.spec_op() == Some(Opcode::DataTypeReadField),
            inst.spec_abc() == idx@,
    {
        Self::indexed(Opcode::DataTypeReadField, idx.instruction_index())
    }

    pub fn heap_alloc(idx: LocalIndex) -> (inst: Instruction)
        ensures
            inst.spec_op() == Some(Opcode::HeapAlloc),
            inst.spec_abc() == idx@,
    {
        Self::indexed(Opcode::HeapAlloc, idx.instruction_index())
    }

    /// `field` is the flattened field index within the allocation's type.
    pub fn heap_store(field: InstructionIndex) -> (inst: Instruction)
        ensures
            inst.spec_op() == Some(Opcode::HeapStore),
            inst.spec_abc() == field@,
    {
        Self::indexed(Opcode::HeapStore, field)
    }

    /// `field` is the flattened field index within the allocation's type.
    pub fn heap_read(field: InstructionIndex) -> (inst: Instruction)
        ensures
            inst.spec_op() == Some(Opcode::HeapRead),
            inst.spec_abc() == field@,
    {
        Self::indexed(Opcode::HeapRead, field)
    }

    /// A secondary word for the opcode that follows.
    pub fn extend(idx: InstructionIndex) -> (inst: Instruction)
        ensures
            inst.spec_op() == Some(Opcode::Extend),
            inst.spec_abc() == idx@,
    {
        Self::indexed(Opcode::Extend, idx)
    }

    pub fn imm_u8(value: u8) -> (inst: Instruction)
        ensures
            inst.spec_op() == Some(Opcode::ImmU8),
            inst.spec_a() == value,
    {
        Self::_unary(Opcode::ImmU8, value)
    }

    pub fn imm_u16(value: u16) -> (inst: Instruction)
        ensures
            inst.spec_op() == Some(Opcode::ImmU16),
            inst.spec_ab() == value,
    {
        Self::_binary(Opcode::ImmU16, (value / 0x100) as u8, (value % 0x100) as u8)
    }

    pub fn imm_i8(value: i8) -> (inst: Instruction)
        ensures
            inst.spec_op() == Some(Opcode::ImmI8),
            inst.spec_i8() == value,
    {
        let a: u8 = if value < 0 {
            (value as i16 + 0x100) as u8
        } else {
            value as u8
        };
        Self::_unary(Opcode::ImmI8, a)
    }

    pub fn imm_i16(value: i16) -> (inst: Instruction)
        ensures
            inst.spec_op() == Some(Opcode::ImmI16),
            inst.spec_i16() == value,
    {
        let ab: u16 = if value < 0 {
            (value as i32 + 0x10000) as u16
        } else {
            value as u16
        };
        Self::_binary(Opcode::ImmI16, (ab / 0x100) as u8, (ab % 0x100) as u8)
    }

    /// `value` must be an ASCII character.
    pub fn imm_char(value: u8) -> (inst: Instruction)
        requires
            value < 0x80,
        ensures
            inst.spec_op() == Some(Opcode::ImmChar),
            inst.spec_a() == value,
    {
        Self::_unary(Opcode::ImmChar, value)
    }

    pub fn imm_bool(value: bool) -> (inst: Instruction)
        ensures
            inst.spec_op() == Some(Opcode::ImmBool),
            (inst.spec_a() != 0) == value,
    {
        Self::_unary(Opcode::ImmBool, if value { 1 } else { 0 })
    }
}

impl Opcode {
    /// Whether the three operand bytes of the operation carry an index.
    pub open spec fn spec_is_indexed(self) -> bool {
        self == Opcode::Call || self == Opcode::LocalStore || self == Opcode::LocalRead || self
            == Opcode::DataTypeCreate || self == Opcode::DataTypeSetField || self
            == Opcode::DataTypeReadField || self == Opcode::HeapAlloc || self == Opcode::HeapStore || self
            == Opcode::HeapRead || self == Opcode::Extend || self == Opcode::Const
    }

    /// Whether the three operand bytes of the operation carry an index.
    pub fn is_indexed(self) -> (r: bool)
        ensures
            r == self.spec_is_indexed(),
    {
        match self {
            Opcode::Call => true,
            Opcode::LocalStore => true,
            Opcode::LocalRead => true,
            Opcode::DataTypeCreate => true,
            Opcode::DataTypeSetField => true,
            Opcode::DataTypeReadField => true,
            Opcode::HeapAlloc => true,
            Opcode::HeapStore => true,
            Opcode::HeapRead => true,
            Opcode::Extend => true,
            Opcode::Const => true,
            _ => false,
        }
    }
}

impl Instruction {
    /// The text of the instruction's operand: the index or the literal in
    /// decimal, the character, or `true` or `false`; empty for an operation
    /// without operand.
    pub open spec fn spec_operand_text(self, op: Opcode) -> Seq<char> {
        if op.spec_is_indexed() {
            decimal(self.spec_abc() as nat)
        } else {
            match op {
                Opcode::ImmI16 => signed_decimal(self.spec_i16()),
                Opcode::ImmI8 => signed_decimal(self.spec_i8()),
                Opcode::ImmU16 => decimal(self.spec_ab() as nat),
                Opcode::ImmU8 => decimal(self.spec_a() as nat),
                Opcode::ImmChar => seq![(self.spec_a() % 0x80) as char],
                Opcode::ImmBool => if self.spec_a() != 0 {
                    "true"@
                } else {
                    "false"@
                },
                _ => Seq::empty(),
            }
        }
    }

    /// The text of the instruction: the mnemonic and, after a space, the
    /// operand where the operation has one.
    pub open spec fn spec_text(self) -> Seq<char> {
        let op = self.spec_op().unwrap();
        if self.spec_operand_text(op).len() == 0 {
            op.spec_mnemonic()
        } else {
            op.spec_mnemonic() + seq![' '] + self.spec_operand_text(op)
        }
    }

    /// The text of the instruction, whose opcode byte must encode an
    /// operation.
    pub fn text(&self) -> (r: String)
        requires
            self.spec_op().is_some(),
        ensures
            r@ == self.spec_text(),
    {
        let op = self.op();
        let mut operand = String::new();
        if op.is_indexed() {
            operand = decimal_text(self.abc() as u64);
        } else {
            match op {
                Opcode::ImmI16 => {
                    operand = signed_decimal_text(self.i16() as i64);
                },
                Opcode::ImmI8 => {
                    operand = signed_decimal_text(self.i8() as i64);
                },
                Opcode::ImmU16 => {
                    operand = decimal_text(self.u16() as u64);
                },
                Opcode::ImmU8 => {
                    operand = decimal_text(self.u8() as u64);
                },
                Opcode::ImmChar => {
                    push_char(&mut operand, self.char());
                    assert(operand@ =~= seq![(self.spec_a() % 0x80) as char]);
                },
                Opcode::ImmBool => {
                    if self.bool() {
                        operand.append("true");
                    } else {
                        operand.append("false");
                    }
                    assert(operand@ =~= self.spec_operand_text(op));
                },
                _ => {},
            }
        }
        let mut r = String::from_str(op.mnemonic());
        if operand.as_str().unicode_len() > 0 {
            push_char(&mut r, ' ');
            r.append(operand.as_str());
        }
        assert(r@ =~= self.spec_text());
        r
    }
}

impl From<Instruction> for InstructionIndex {
    fn from(value: Instruction) -> (r: Self) {
        value.instruction_index()
    }
}

impl FromSpecImpl<Instruction> for InstructionIndex {
    open spec fn obeys_from_spec() -> bool {
        true
    }

    open spec fn from_spec(value: Instruction) -> Self {
        InstructionIndex::spec_new(value.spec_abc())
    }
}

} // verus!
