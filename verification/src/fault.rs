use vstd::prelude::*;

verus! {

/// The conditions that end execution. None can be recovered from: the
/// machine reports the first one met and stops.
#[derive(Debug, PartialEq, Eq, Clone, Copy, Structural)]
pub enum Fault {
    /// A pop from an empty operand, extension or call stack.
    StackUnderflow,
    /// The opcode byte of the fetched word encodes no operation.
    UnknownOpcode,
    /// Operands of different or non-numeric tags, or a value read or
    /// written as a type that cannot hold it.
    TypeMismatch,
    /// An index beyond its table, slot list, field list or instruction list,
    /// or an address beyond what the machine can address.
    IndexOutOfRange,
    /// A second registration under a name already taken.
    DuplicateRegistration,
    /// One reference more than an allocation's header can count.
    ReferenceOverflow,
    /// A reference taken from an allocation that has none.
    ReferenceUnderflow,
    /// Integer division by zero.
    DivisionByZero,
    /// A pointer was asked of a value that is none.
    NotAPointer,
    /// The result of integer arithmetic does not fit the operands' type.
    ArithmeticOverflow,
    /// Arithmetic on floating-point operands, which is the host's to do.
    FloatArithmetic,
}

impl Fault {
    /// A short description of the condition.
    pub open spec fn spec_message(self) -> Seq<char> {
        match self {
            Fault::StackUnderflow => "stack underflow"@,
            Fault::UnknownOpcode => "unknown opcode"@,
            Fault::TypeMismatch => "type mismatch"@,
            Fault::IndexOutOfRange => "index out of range"@,
            Fault::DuplicateRegistration => "duplicate registration"@,
            Fault::ReferenceOverflow => "reference overflow"@,
            Fault::ReferenceUnderflow => "reference underflow"@,
            Fault::DivisionByZero => "division by zero"@,
            Fault::NotAPointer => "pointer extraction from non-pointer value"@,
            Fault::ArithmeticOverflow => "arithmetic overflow"@,
            Fault::FloatArithmetic => "floating-point arithmetic"@,
        }
    }

    /// A short description of the condition.
    pub fn message(&self) -> (text: &'static str)
        ensures
            text@ == self.spec_message(),
    {
        match self {
            Fault::StackUnderflow => "stack underflow",
            Fault::UnknownOpcode => "unknown opcode",
            Fault::TypeMismatch => "type mismatch",
            Fault::IndexOutOfRange => "index out of range",
            Fault::DuplicateRegistration => "duplicate registration",
            Fault::ReferenceOverflow => "reference overflow",
            Fault::ReferenceUnderflow => "reference underflow",
            Fault::DivisionByZero => "division by zero",
            Fault::NotAPointer => "pointer extraction from non-pointer value",
            Fault::ArithmeticOverflow => "arithmetic overflow",
            Fault::FloatArithmetic => "floating-point arithmetic",
        }
    }
}

} // verus!
