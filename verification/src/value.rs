use vstd::prelude::*;
use crate::data_type::TypeTable;
use crate::fault::Fault;
use crate::memory::Pointer;
use crate::util::endian::{
    be_bytes, be_value, decode, encode, lemma_be_bytes_len, lemma_be_value_bound,
    lemma_bytes_of_value, lemma_radix_values, lemma_value_of_bytes, radix, twos, untwos,
};
use crate::util::index::TypeIndex;
use crate::util::text::{decimal, decimal_text, push_char, signed_decimal, signed_decimal_text};
use vstd::string::StringExecFns;

verus! {

/// The static type of a slot or field.
#[derive(Debug, Clone, Copy, PartialEq, Eq, Structural)]
pub enum ValueType {
    Bool,
    Char,
    U8,
    U16,
    U32,
    U64,
    I8,
    I16,
    I32,
    I64,
    F32,
    F64,
    /// A record of the given type, embedded by value.
    LocalData(TypeIndex),
    /// An 8-byte pointer to a heap allocation whose elements are declared to
    /// be records of the given type.
    HeapData(TypeIndex),
}

impl ValueType {
    /// The byte width of a type that is no embedded record; `0` for one.
    pub open spec fn spec_width(self) -> nat {
        match self {
            ValueType::Bool => 1,
            ValueType::Char => 1,
            ValueType::U8 => 1,
            ValueType::U16 => 2,
            ValueType::U32 => 4,
            ValueType::U64 => 8,
            ValueType::I8 => 1,
            ValueType::I16 => 2,
            ValueType::I32 => 4,
            ValueType::I64 => 8,
            ValueType::F32 => 4,
            ValueType::F64 => 8,
            ValueType::LocalData(_) => 0,
            ValueType::HeapData(_) => 8,
        }
    }

    /// The byte size of the type: its width, or for an embedded record the
    /// total size of the record's definition in `type_table`.
    pub open spec fn spec_size(self, type_table: &TypeTable) -> nat {
        match self {
            ValueType::LocalData(idx) => type_table.spec_size(idx@),
            _ => self.spec_width(),
        }
    }

    /// Whether the type is one of the twelve scalar types.
    pub open spec fn spec_is_primitive(self) -> bool {
        !(self is LocalData) && !(self is HeapData)
    }

    /// Whether `type_table` holds what the type refers to.
    pub open spec fn known_in(self, type_table: &TypeTable) -> bool {
        match self {
            ValueType::LocalData(idx) => idx@ < type_table.spec_len(),
            _ => true,
        }
    }

    /// The byte size of the type. An embedded record's type must be in the
    /// table.
    pub fn size(&self, type_table: &TypeTable) -> (r: u32)
        requires
            self.known_in(type_table),
        ensures
            r == self.spec_size(type_table),
    {
        match self {
            ValueType::Bool => 1,
            ValueType::Char => 1,
            ValueType::U8 => 1,
            ValueType::U16 => 2,
            ValueType::U32 => 4,
            ValueType::U64 => 8,
            ValueType::I8 => 1,
            ValueType::I16 => 2,
            ValueType::I32 => 4,
            ValueType::I64 => 8,
            ValueType::F32 => 4,
            ValueType::F64 => 8,
            ValueType::LocalData(type_index) => type_table.size(*type_index),
            ValueType::HeapData(_) => 8,
        }
    }

    /// The byte width of a type that is no embedded record; `0` for one.
    pub fn width(&self) -> (r: u32)
        ensures
            r == self.spec_width(),
            r <= 8,
    {
        match self {
            ValueType::Bool => 1,
            ValueType::Char => 1,
            ValueType::U8 => 1,
            ValueType::U16 => 2,
            ValueType::U32 => 4,
            ValueType::U64 => 8,
            ValueType::I8 => 1,
            ValueType::I16 => 2,
            ValueType::I32 => 4,
            ValueType::I64 => 8,
            ValueType::F32 => 4,
            ValueType::F64 => 8,
            ValueType::LocalData(_) => 0,
            ValueType::HeapData(_) => 8,
        }
    }

    pub fn is_primitive(&self) -> (r: bool)
        ensures
            r == self.spec_is_primitive(),
    {
        match self {
            ValueType::LocalData(_) => false,
            ValueType::HeapData(_) => false,
            _ => true,
        }
    }

    /// The value of this type that `bytes` spell, most significant byte
    /// first. Integers are read in two's complement, a boolean is true where
    /// its byte is not zero, a character is the one whose code point is its
    /// byte, and a float is the bit pattern read.
    pub open spec fn spec_create_value(self, bytes: Seq<u8>) -> Value {
        let n = be_value(bytes);
        match self {
            ValueType::Bool => Value::Bool(n != 0),
            ValueType::Char => Value::Char(n as char),
            ValueType::U8 => Value::U8(n as u8),
            ValueType::U16 => Value::U16(n as u16),
            ValueType::U32 => Value::U32(n as u32),
            ValueType::U64 => Value::U64(n as u64),
            ValueType::I8 => Value::I8(untwos(n, 1) as i8),
            ValueType::I16 => Value::I16(untwos(n, 2) as i16),
            ValueType::I32 => Value::I32(untwos(n, 4) as i32),
            ValueType::I64 => Value::I64(untwos(n, 8) as i64),
            ValueType::F32 => Value::F32(n as u32),
            ValueType::F64 => Value::F64(n as u64),
            ValueType::LocalData(_) => arbitrary(),
            ValueType::HeapData(_) => arbitrary(),
        }
    }

    /// The value of this scalar type that `bytes` spell. There must be as
    /// many bytes as the type is wide.
    pub fn create_value(&self, bytes: &[u8]) -> (value: Value)
        requires
            self.spec_is_primitive(),
            bytes@.len() == self.spec_width(),
        ensures
            value == self.spec_create_value(bytes@),
            value.spec_value_type_matches(*self),
    {
        proof {
            lemma_radix_values();
            lemma_be_value_bound(bytes@);
        }
        let n: u64 = decode(bytes);
        match self {
            ValueType::Bool => Value::Bool(n != 0),
            ValueType::Char => Value::Char(n as u8 as char),
            ValueType::U8 => Value::U8(n as u8),
            ValueType::U16 => Value::U16(n as u16),
            ValueType::U32 => Value::U32(n as u32),
            ValueType::U64 => Value::U64(n),
            ValueType::I8 => Value::I8(
                if n >= 0x80 {
                    (n as i16 - 0x100) as i8
                } else {
                    n as i8
                },
            ),
            ValueType::I16 => Value::I16(
                if n >= 0x8000 {
                    (n as i32 - 0x10000) as i16
                } else {
                    n as i16
                },
            ),
            ValueType::I32 => Value::I32(
                if n >= 0x80000000 {
                    (n as i64 - 0x100000000) as i32
                } else {
                    n as i32
                },
            ),
            ValueType::I64 => Value::I64(
                if n >= 0x8000000000000000 {
                    (n as i128 - 0x10000000000000000) as i64
                } else {
                    n as i64
                },
            ),
            ValueType::F32 => Value::F32(n as u32),
            ValueType::F64 => Value::F64(n),
            ValueType::LocalData(_) => Value::U8(0),
            ValueType::HeapData(_) => Value::U8(0),
        }
    }

    /// The type index that a record type or a heap pointer type carries.
    pub fn type_index(&self) -> (idx: TypeIndex)
        requires
            self is LocalData || self is HeapData,
        ensures
            *self matches ValueType::LocalData(i) ==> idx == i,
            *self matches ValueType::HeapData(i) ==> idx == i,
    {
        match self {
            ValueType::LocalData(idx) => *idx,
            ValueType::HeapData(idx) => *idx,
            _ => TypeIndex::new(0),
        }
    }

    /// The name of the type.
    pub open spec fn spec_name(self) -> Seq<char> {
        match self {
            ValueType::Bool => "Bool"@,
            ValueType::Char => "Char"@,
            ValueType::U8 => "U8"@,
            ValueType::U16 => "U16"@,
            ValueType::U32 => "U32"@,
            ValueType::U64 => "U64"@,
            ValueType::I8 => "I8"@,
            ValueType::I16 => "I16"@,
            ValueType::I32 => "I32"@,
            ValueType::I64 => "I64"@,
            ValueType::F32 => "F32"@,
            ValueType::F64 => "F64"@,
            ValueType::LocalData(_) => "LocalData"@,
            ValueType::HeapData(_) => "Heap"@,
        }
    }

    /// The name of the type.
    pub fn name(&self) -> (text: &'static str)
        ensures
            text@ == self.spec_name(),
    {
        match self {
            ValueType::Bool => "Bool",
            ValueType::Char => "Char",
            ValueType::U8 => "U8",
            ValueType::U16 => "U16",
            ValueType::U32 => "U32",
            ValueType::U64 => "U64",
            ValueType::I8 => "I8",
            ValueType::I16 => "I16",
            ValueType::I32 => "I32",
            ValueType::I64 => "I64",
            ValueType::F32 => "F32",
            ValueType::F64 => "F64",
            ValueType::LocalData(_) => "LocalData",
            ValueType::HeapData(_) => "Heap",
        }
    }
}

/// A tagged runtime value, as the operand stack carries it. Floats are held
/// as their IEEE 754 bit patterns, and two values are equal when their tags
/// and payloads are.
#[derive(Debug, PartialEq, Eq, Clone, Copy, Structural)]
pub enum Value {
    Bool(bool),
    Char(char),
    U8(u8),
    U16(u16),
    U32(u32),
    U64(u64),
    I8(i8),
    I16(i16),
    I32(i32),
    I64(i64),
    F32(u32),
    F64(u64),
    HeapData(Pointer),
}

impl Value {
    /// The byte size of the value.
    pub open spec fn spec_size(self) -> nat {
        match self {
            Value::Bool(_) => 1,
            Value::Char(_) => 1,
            Value::U8(_) => 1,
            Value::U16(_) => 2,
            Value::U32(_) => 4,
            Value::U64(_) => 8,
            Value::I8(_) => 1,
            Value::I16(_) => 2,
            Value::I32(_) => 4,
            Value::I64(_) => 8,
            Value::F32(_) => 4,
            Value::F64(_) => 8,
            Value::HeapData(_) => 8,
        }
    }

    /// Whether the value is one that a slot of type `value_type` holds.
    pub open spec fn spec_value_type_matches(self, value_type: ValueType) -> bool {
        match self {
            Value::Bool(_) => value_type is Bool,
            Value::Char(_) => value_type is Char,
            Value::U8(_) => value_type is U8,
            Value::U16(_) => value_type is U16,
            Value::U32(_) => value_type is U32,
            Value::U64(_) => value_type is U64,
            Value::I8(_) => value_type is I8,
            Value::I16(_) => value_type is I16,
            Value::I32(_) => value_type is I32,
            Value::I64(_) => value_type is I64,
            Value::F32(_) => value_type is F32,
            Value::F64(_) => value_type is F64,
            Value::HeapData(_) => value_type is HeapData,
        }
    }

    /// Whether the two values carry the same tag.
    pub open spec fn same_tag(self, other: Value) -> bool {
        match self {
            Value::Bool(_) => other is Bool,
            Value::Char(_) => other is Char,
            Value::U8(_) => other is U8,
            Value::U16(_) => other is U16,
            Value::U32(_) => other is U32,
            Value::U64(_) => other is U64,
            Value::I8(_) => other is I8,
            Value::I16(_) => other is I16,
            Value::I32(_) => other is I32,
            Value::I64(_) => other is I64,
            Value::F32(_) => other is F32,
            Value::F64(_) => other is F64,
            Value::HeapData(_) => other is HeapData,
        }
    }

    /// Whether the value is a float.
    pub open spec fn spec_is_float(self) -> bool {
        self is F32 || self is F64
    }

    /// The integer that an integer value holds; `0` for any other value.
    pub open spec fn spec_integer(self) -> int {
        match self {
            Value::U8(v) => v as int,
            Value::U16(v) => v as int,
            Value::U32(v) => v as int,
            Value::U64(v) => v as int,
            Value::I8(v) => v as int,
            Value::I16(v) => v as int,
            Value::I32(v) => v as int,
            Value::I64(v) => v as int,
            _ => 0,
        }
    }

    /// Whether the value is an integer.
    pub open spec fn spec_is_integer(self) -> bool {
        self is U8 || self is U16 || self is U32 || self is U64 || self is I8 || self is I16
            || self is I32 || self is I64
    }

    /// Whether `n` fits the integer type of this integer value.
    pub open spec fn fits(self, n: int) -> bool {
        match self {
            Value::U8(_) => 0 <= n <= u8::MAX,
            Value::U16(_) => 0 <= n <= u16::MAX,
            Value::U32(_) => 0 <= n <= u32::MAX,
            Value::U64(_) => 0 <= n <= u64::MAX,
            Value::I8(_) => i8::MIN <= n <= i8::MAX,
            Value::I16(_) => i16::MIN <= n <= i16::MAX,
            Value::I32(_) => i32::MIN <= n <= i32::MAX,
            Value::I64(_) => i64::MIN <= n <= i64::MAX,
            _ => false,
        }
    }

    /// The integer value of this value's type that holds `n`.
    pub open spec fn with_integer(self, n: int) -> Value {
        match self {
            Value::U8(_) => Value::U8(n as u8),
            Value::U16(_) => Value::U16(n as u16),
            Value::U32(_) => Value::U32(n as u32),
            Value::U64(_) => Value::U64(n as u64),
            Value::I8(_) => Value::I8(n as i8),
            Value::I16(_) => Value::I16(n as i16),
            Value::I32(_) => Value::I32(n as i32),
            Value::I64(_) => Value::I64(n as i64),
            _ => self,
        }
    }

    /// The unsigned number whose big-endian bytes are the value's bytes:
    /// `1` or `0` for a boolean, the code point of a character, the two's
    /// complement image of a signed integer, the bit pattern of a float, and
    /// the address of a pointer.
    pub open spec fn spec_image(self) -> nat {
        match self {
            Value::Bool(v) => if v {
                1
            } else {
                0
            },
            Value::Char(v) => v as nat,
            Value::U8(v) => v as nat,
            Value::U16(v) => v as nat,
            Value::U32(v) => v as nat,
            Value::U64(v) => v as nat,
            Value::I8(v) => twos(v as int, 1),
            Value::I16(v) => twos(v as int, 2),
            Value::I32(v) => twos(v as int, 4),
            Value::I64(v) => twos(v as int, 8),
            Value::F32(v) => v as nat,
            Value::F64(v) => v as nat,
            Value::HeapData(p) => p@,
        }
    }

    /// Whether the value fits its byte size: every value does but a
    /// character whose code point is above 255.
    pub open spec fn spec_is_storable(self) -> bool {
        self matches Value::Char(c) ==> (c as nat) < 256
    }

    /// The bytes that memory holds for the value, most significant first.
    pub open spec fn spec_bytes(self) -> Seq<u8> {
        be_bytes(self.spec_image(), self.spec_size())
    }

    /// The image of a storable value fits its size.
    pub proof fn lemma_image_bound(self)
        requires
            self.spec_is_storable(),
        ensures
            self.spec_image() < radix(self.spec_size()),
            self.spec_bytes().len() == self.spec_size(),
    {
        lemma_radix_values();
        lemma_be_bytes_len(self.spec_image(), self.spec_size());
        self.lemma_pointer_bound();
    }

    proof fn lemma_pointer_bound(self)
        ensures
            self matches Value::HeapData(p) ==> p@ <= u64::MAX,
    {
        if let Value::HeapData(p) = self {
            p.lemma_view(p);
        }
    }

    pub fn size(&self) -> (r: u32)
        ensures
            r == self.spec_size(),
            1 <= r <= 8,
    {
        match self {
            Value::Bool(_) => 1,
            Value::Char(_) => 1,
            Value::U8(_) => 1,
            Value::U16(_) => 2,
            Value::U32(_) => 4,
            Value::U64(_) => 8,
            Value::I8(_) => 1,
            Value::I16(_) => 2,
            Value::I32(_) => 4,
            Value::I64(_) => 8,
            Value::F32(_) => 4,
            Value::F64(_) => 8,
            Value::HeapData(_) => 8,
        }
    }

    pub fn is_storable(&self) -> (r: bool)
        ensures
            r == self.spec_is_storable(),
    {
        match self {
            Value::Char(c) => (*c as u32) < 256,
            _ => true,
        }
    }

    pub fn is_float(&self) -> (r: bool)
        ensures
            r == self.spec_is_float(),
    {
        match self {
            Value::F32(_) => true,
            Value::F64(_) => true,
            _ => false,
        }
    }

    /// The unsigned number whose big-endian bytes are the value's bytes.
    pub fn image(&self) -> (r: u64)
        requires
            self.spec_is_storable(),
        ensures
            r == self.spec_image(),
    {
        proof {
            lemma_radix_values();
        }
        match self {
            Value::Bool(v) => if *v {
                1
            } else {
                0
            },
            Value::Char(v) => *v as u32 as u64,
            Value::U8(v) => *v as u64,
            Value::U16(v) => *v as u64,
            Value::U32(v) => *v as u64,
            Value::U64(v) => *v,
            Value::I8(v) => if *v < 0 {
                (*v as i16 + 0x100) as u64
            } else {
                *v as u64
            },
            Value::I16(v) => if *v < 0 {
                (*v as i32 + 0x10000) as u64
            } else {
                *v as u64
            },
            Value::I32(v) => if *v < 0 {
                (*v as i64 + 0x100000000) as u64
            } else {
                *v as u64
            },
            Value::I64(v) => if *v < 0 {
                (*v as i128 + 0x10000000000000000) as u64
            } else {
                *v as u64
            },
            Value::F32(v) => *v as u64,
            Value::F64(v) => *v,
            Value::HeapData(p) => p.address(),
        }
    }

    /// The bytes that memory holds for the value, most significant first.
    pub fn be_bytes(&self) -> (bytes: Vec<u8>)
        requires
            self.spec_is_storable(),
        ensures
            bytes@ == self.spec_bytes(),
            bytes@.len() == self.spec_size(),
    {
        proof {
            self.lemma_image_bound();
        }
        encode(self.image(), self.size() as usize)
    }

    /// Writes the value's bytes over `mem`, which must be as long as the
    /// value is wide.
    pub fn into_slice(self, mem: &mut [u8])
        requires
            self.spec_is_storable(),
            old(mem)@.len() == self.spec_size(),
        ensures
            final(mem)@ == self.spec_bytes(),
    {
        let bytes = self.be_bytes();
        let mut i: usize = 0;
        while i < bytes.len()
            invariant
                i <= bytes@.len(),
                mem@.len() == bytes@.len(),
                forall|j: int| 0 <= j < i ==> mem@[j] == bytes@[j],
            decreases bytes@.len() - i,
        {
            mem[i] = bytes[i];
            i = i + 1;
        }
        assert(mem@ =~= bytes@);
    }

    /// The pointer that a heap pointer value holds.
    pub fn pointer(&self) -> (ptr: Pointer)
        requires
            self is HeapData,
        ensures
            *self == Value::HeapData(ptr),
    {
        match self {
            Value::HeapData(ptr) => *ptr,
            _ => Pointer::new(0),
        }
    }

    /// The pointer that the value holds, or the fault where it holds none.
    pub fn try_pointer(&self) -> (r: Result<Pointer, Fault>)
        ensures
            *self matches Value::HeapData(p) ==> r == Ok::<Pointer, Fault>(p),
            !(self is HeapData) ==> r == Err::<Pointer, Fault>(Fault::NotAPointer),
    {
        match self {
            Value::HeapData(ptr) => Ok(*ptr),
            _ => Err(Fault::NotAPointer),
        }
    }
}

/// The quotient of `a` by `b` rounded toward zero, for `b` other than `0`.
pub open spec fn trunc_div(a: int, b: int) -> int {
    if a >= 0 && b > 0 {
        a / b
    } else if a < 0 && b < 0 {
        (-a) / (-b)
    } else if a < 0 {
        -((-a) / b)
    } else {
        -(a / (-b))
    }
}

/// What an arithmetic operation on `lhs` and `rhs` gives, where `exact` is
/// the mathematical result on integer operands and `by_zero` tells a
/// division by zero. Operands of different tags, and operands that are no
/// numbers, are a type mismatch; floats are left to the host; a result that
/// does not fit the operands' type is an overflow.
pub open spec fn arithmetic(lhs: Value, rhs: Value, exact: int, by_zero: bool) -> Result<Value, Fault> {
    if !lhs.same_tag(rhs) {
        Err(Fault::TypeMismatch)
    } else if lhs.spec_is_float() {
        Err(Fault::FloatArithmetic)
    } else if !lhs.spec_is_integer() {
        Err(Fault::TypeMismatch)
    } else if by_zero {
        Err(Fault::DivisionByZero)
    } else if !lhs.fits(exact) {
        Err(Fault::ArithmeticOverflow)
    } else {
        Ok(lhs.with_integer(exact))
    }
}

impl Value {
    /// `self + rhs`.
    pub open spec fn spec_add(self, rhs: Value) -> Result<Value, Fault> {
        arithmetic(self, rhs, self.spec_integer() + rhs.spec_integer(), false)
    }

    /// `self - rhs`.
    pub open spec fn spec_sub(self, rhs: Value) -> Result<Value, Fault> {
        arithmetic(self, rhs, self.spec_integer() - rhs.spec_integer(), false)
    }

    /// `self * rhs`.
    pub open spec fn spec_mul(self, rhs: Value) -> Result<Value, Fault> {
        arithmetic(self, rhs, self.spec_integer() * rhs.spec_integer(), false)
    }

    /// `self / rhs`, rounded toward zero.
    pub open spec fn spec_div(self, rhs: Value) -> Result<Value, Fault> {
        arithmetic(
            self,
            rhs,
            trunc_div(self.spec_integer(), rhs.spec_integer()),
            rhs.spec_integer() == 0,
        )
    }

    /// Whether the two values carry the same tag.
    pub fn has_same_tag(&self, other: &Value) -> (r: bool)
        ensures
            r == self.same_tag(*other),
    {
        match (self, other) {
            (Value::Bool(_), Value::Bool(_)) => true,
            (Value::Char(_), Value::Char(_)) => true,
            (Value::U8(_), Value::U8(_)) => true,
            (Value::U16(_), Value::U16(_)) => true,
            (Value::U32(_), Value::U32(_)) => true,
            (Value::U64(_), Value::U64(_)) => true,
            (Value::I8(_), Value::I8(_)) => true,
            (Value::I16(_), Value::I16(_)) => true,
            (Value::I32(_), Value::I32(_)) => true,
            (Value::I64(_), Value::I64(_)) => true,
            (Value::F32(_), Value::F32(_)) => true,
            (Value::F64(_), Value::F64(_)) => true,
            (Value::HeapData(_), Value::HeapData(_)) => true,
            _ => false,
        }
    }

    /// The integer that an integer value holds, or `None` for another value.
    pub fn integer(&self) -> (r: Option<i128>)
        ensures
            self.spec_is_integer() ==> r == Some(self.spec_integer() as i128),
            !self.spec_is_integer() ==> r.is_none(),
            r matches Some(n) ==> -0x8000000000000000 <= n <= 0xFFFFFFFFFFFFFFFF,
    {
        match self {
            Value::U8(v) => Some(*v as i128),
            Value::U16(v) => Some(*v as i128),
            Value::U32(v) => Some(*v as i128),
            Value::U64(v) => Some(*v as i128),
            Value::I8(v) => Some(*v as i128),
            Value::I16(v) => Some(*v as i128),
            Value::I32(v) => Some(*v as i128),
            Value::I64(v) => Some(*v as i128),
            _ => None,
        }
    }

    /// The integer value of this integer value's type that holds `n`, or
    /// the overflow where `n` does not fit the type.
    pub fn with(&self, n: i128) -> (r: Result<Value, Fault>)
        requires
            self.spec_is_integer(),
        ensures
            r == (if self.fits(n as int) {
                Ok::<Value, Fault>(self.with_integer(n as int))
            } else {
                Err::<Value, Fault>(Fault::ArithmeticOverflow)
            }),
    {
        match self {
            Value::U8(_) => if 0 <= n && n <= u8::MAX as i128 {
                Ok(Value::U8(n as u8))
            } else {
                Err(Fault::ArithmeticOverflow)
            },
            Value::U16(_) => if 0 <= n && n <= u16::MAX as i128 {
                Ok(Value::U16(n as u16))
            } else {
                Err(Fault::ArithmeticOverflow)
            },
            Value::U32(_) => if 0 <= n && n <= u32::MAX as i128 {
                Ok(Value::U32(n as u32))
            } else {
                Err(Fault::ArithmeticOverflow)
            },
            Value::U64(_) => if 0 <= n && n <= u64::MAX as i128 {
                Ok(Value::U64(n as u64))
            } else {
                Err(Fault::ArithmeticOverflow)
            },
            Value::I8(_) => if i8::MIN as i128 <= n && n <= i8::MAX as i128 {
                Ok(Value::I8(n as i8))
            } else {
                Err(Fault::ArithmeticOverflow)
            },
            Value::I16(_) => if i16::MIN as i128 <= n && n <= i16::MAX as i128 {
                Ok(Value::I16(n as i16))
            } else {
                Err(Fault::ArithmeticOverflow)
            },
            Value::I32(_) => if i32::MIN as i128 <= n && n <= i32::MAX as i128 {
                Ok(Value::I32(n as i32))
            } else {
                Err(Fault::ArithmeticOverflow)
            },
            Value::I64(_) => if i64::MIN as i128 <= n && n <= i64::MAX as i128 {
                Ok(Value::I64(n as i64))
            } else {
                Err(Fault::ArithmeticOverflow)
            },
            _ => Err(Fault::ArithmeticOverflow),
        }
    }

    /// The two operands as integers, or the fault that their tags call for.
    fn operands(&self, rhs: &Value) -> (r: Result<(i128, i128), Fault>)
        ensures
            match r {
                Ok((a, b)) => {
                    &&& self.same_tag(*rhs)
                    &&& self.spec_is_integer()
                    &&& a == self.spec_integer()
                    &&& b == rhs.spec_integer()
                    &&& -0x8000000000000000 <= a <= 0xFFFFFFFFFFFFFFFF
                    &&& -0x8000000000000000 <= b <= 0xFFFFFFFFFFFFFFFF
                },
                Err(fault) => {
                    &&& !(self.same_tag(*rhs) && self.spec_is_integer())
                    &&& forall|exact: int, by_zero: bool|
                        #[trigger] arithmetic(*self, *rhs, exact, by_zero) == Err::<Value, Fault>(fault)
                },
            },
    {
        if !self.has_same_tag(rhs) {
            return Err(Fault::TypeMismatch);
        }
        if self.is_float() {
            return Err(Fault::FloatArithmetic);
        }
        match (self.integer(), rhs.integer()) {
            (Some(a), Some(b)) => Ok((a, b)),
            _ => Err(Fault::TypeMismatch),
        }
    }

    /// The sum of two integers of the same type.
    pub fn add(self, rhs: Value) -> (r: Result<Value, Fault>)
        ensures
            r == self.spec_add(rhs),
    {
        match self.operands(&rhs) {
            Ok((a, b)) => self.with(a + b),
            Err(fault) => Err(fault),
        }
    }

    /// The difference of two integers of the same type.
    pub fn sub(self, rhs: Value) -> (r: Result<Value, Fault>)
        ensures
            r == self.spec_sub(rhs),
    {
        match self.operands(&rhs) {
            Ok((a, b)) => self.with(a - b),
            Err(fault) => Err(fault),
        }
    }

    /// The product of two integers of the same type.
    pub fn mul(self, rhs: Value) -> (r: Result<Value, Fault>)
        ensures
            r == self.spec_mul(rhs),
    {
        match self.operands(&rhs) {
            Ok((a, b)) => {
                assert(-0x8000000000000000 * 0xFFFFFFFFFFFFFFFF <= a * b <= 0xFFFFFFFFFFFFFFFF
                    * 0xFFFFFFFFFFFFFFFF) by (nonlinear_arith)
                    requires
                        -0x8000000000000000 <= a <= 0xFFFFFFFFFFFFFFFF,
                        -0x8000000000000000 <= b <= 0xFFFFFFFFFFFFFFFF,
                ;
                match a.checked_mul(b) {
                    Some(product) => self.with(product),
                    None => Err(Fault::ArithmeticOverflow),
                }
            },
            Err(fault) => Err(fault),
        }
    }

    /// The quotient of two integers of the same type, rounded toward zero.
    pub fn div(self, rhs: Value) -> (r: Result<Value, Fault>)
        ensures
            r == self.spec_div(rhs),
    {
        match self.operands(&rhs) {
            Ok((a, b)) => {
                if b == 0 {
                    Err(Fault::DivisionByZero)
                } else {
                    match a.checked_div(b) {
                        Some(quotient) => {
                            assert(quotient == trunc_div(a as int, b as int)) by (nonlinear_arith)
                                requires
                                    b != 0,
                                    quotient == (if a == 0 {
                                        0
                                    } else if a > 0 && b > 0 {
                                        a as int / b as int
                                    } else if a < 0 && b < 0 {
                                        ((a * -1) / (b * -1))
                                    } else if a < 0 {
                                        ((a * -1) / b as int) * -1
                                    } else {
                                        (a as int / (b * -1)) * -1
                                    }),
                            ;
                            self.with(quotient)
                        },
                        None => Err(Fault::ArithmeticOverflow),
                    }
                }
            },
            Err(fault) => Err(fault),
        }
    }
}

impl Value {
    /// The name of the value's tag.
    pub open spec fn spec_tag_name(self) -> Seq<char> {
        match self {
            Value::Bool(_) => "Bool"@,
            Value::Char(_) => "Char"@,
            Value::U8(_) => "U8"@,
            Value::U16(_) => "U16"@,
            Value::U32(_) => "U32"@,
            Value::U64(_) => "U64"@,
            Value::I8(_) => "I8"@,
            Value::I16(_) => "I16"@,
            Value::I32(_) => "I32"@,
            Value::I64(_) => "I64"@,
            Value::F32(_) => "F32"@,
            Value::F64(_) => "F64"@,
            Value::HeapData(_) => "HeapData"@,
        }
    }

    /// The text of the payload of a value that is no float: `true` or
    /// `false`, the character, the number in decimal, or the address in
    /// decimal.
    pub open spec fn spec_payload_text(self) -> Seq<char> {
        match self {
            Value::Bool(v) => if v {
                "true"@
            } else {
                "false"@
            },
            Value::Char(v) => seq![v],
            Value::U8(v) => decimal(v as nat),
            Value::U16(v) => decimal(v as nat),
            Value::U32(v) => decimal(v as nat),
            Value::U64(v) => decimal(v as nat),
            Value::I8(v) => signed_decimal(v as int),
            Value::I16(v) => signed_decimal(v as int),
            Value::I32(v) => signed_decimal(v as int),
            Value::I64(v) => signed_decimal(v as int),
            Value::HeapData(p) => decimal(p@),
            _ => Seq::empty(),
        }
    }

    /// The name of the value's tag.
    pub fn tag_name(&self) -> (r: &'static str)
        ensures
            r@ == self.spec_tag_name(),
    {
        match self {
            Value::Bool(_) => "Bool",
            Value::Char(_) => "Char",
            Value::U8(_) => "U8",
            Value::U16(_) => "U16",
            Value::U32(_) => "U32",
            Value::U64(_) => "U64",
            Value::I8(_) => "I8",
            Value::I16(_) => "I16",
            Value::I32(_) => "I32",
            Value::I64(_) => "I64",
            Value::F32(_) => "F32",
            Value::F64(_) => "F64",
            Value::HeapData(_) => "HeapData",
        }
    }

    /// The text that stands for the value in the output: the tag's name
    /// and, in parentheses, the payload, as in `U64(12)`. A float has no
    /// text here, for its digits are the host's to write.
    pub fn text(&self) -> (r: Option<String>)
        ensures
            self.spec_is_float() ==> r.is_none(),
            !self.spec_is_float() ==> r.is_some() && r.unwrap()@ == self.spec_tag_name() + seq!['(']
                + self.spec_payload_text() + seq![')'],
    {
        if self.is_float() {
            return None;
        }
        let mut r = String::from_str(self.tag_name());
        push_char(&mut r, '(');
        match self {
            Value::Bool(v) => {
                if *v {
                    r.append("true");
                } else {
                    r.append("false");
                }
            },
            Value::Char(v) => {
                push_char(&mut r, *v);
            },
            Value::U8(v) => {
                r.append(decimal_text(*v as u64).as_str());
            },
            Value::U16(v) => {
                r.append(decimal_text(*v as u64).as_str());
            },
            Value::U32(v) => {
                r.append(decimal_text(*v as u64).as_str());
            },
            Value::U64(v) => {
                r.append(decimal_text(*v).as_str());
            },
            Value::I8(v) => {
                r.append(signed_decimal_text(*v as i64).as_str());
            },
            Value::I16(v) => {
                r.append(signed_decimal_text(*v as i64).as_str());
            },
            Value::I32(v) => {
                r.append(signed_decimal_text(*v as i64).as_str());
            },
            Value::I64(v) => {
                r.append(signed_decimal_text(*v).as_str());
            },
            Value::HeapData(p) => {
                r.append(decimal_text(p.address()).as_str());
            },
            _ => {},
        }
        push_char(&mut r, ')');
        proof {
            assert(r@ =~= self.spec_tag_name() + seq!['('] + self.spec_payload_text() + seq![')']);
        }
        Some(r)
    }
}

/// Writing a storable scalar value and reading the bytes back as the
/// value's type gives the value.
pub proof fn lemma_store_then_read(value: Value, value_type: ValueType)
    requires
        value.spec_is_storable(),
        value.spec_value_type_matches(value_type),
        value_type.spec_is_primitive(),
    ensures
        value_type.spec_width() == value.spec_size(),
        value_type.spec_create_value(value.spec_bytes()) == value,
{
    lemma_radix_values();
    value.lemma_image_bound();
    lemma_value_of_bytes(value.spec_image(), value.spec_size());
}

/// Reading bytes as a scalar type other than `Bool` and writing the value
/// back gives the bytes.
pub proof fn lemma_read_then_store(value_type: ValueType, bytes: Seq<u8>)
    requires
        value_type.spec_is_primitive(),
        !(value_type is Bool),
        bytes.len() == value_type.spec_width(),
    ensures
        value_type.spec_create_value(bytes).spec_is_storable(),
        value_type.spec_create_value(bytes).spec_bytes() == bytes,
{
    lemma_radix_values();
    lemma_be_value_bound(bytes);
    lemma_bytes_of_value(bytes);
}

} // verus!
