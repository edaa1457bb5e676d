//! The recovered instruction set: operator enumerations, per-instruction
//! operand layouts, and the tagged instruction union.
//!
//! The fixed-cardinality enumerations double as classification signatures:
//! a handler body is classified by holding the number of short-circuit
//! tests it performs against these cardinalities.

use vstd::prelude::*;

verus! {

/// Number of unary operator enumerants.
pub const UNARY_OPERATOR_COUNT: usize = 5;

/// Number of binary operator enumerants.
pub const BINARY_OPERATOR_COUNT: usize = 19;

/// Number of literal-kind enumerants.
pub const LITERAL_TYPE_COUNT: usize = 12;

/// Number of closure-kind enumerants.
pub const HEAP_TYPE_COUNT: usize = 3;

/// An instruction carrying plain operand bits.
#[derive(Debug, Clone, PartialEq, Eq)]
pub struct DefaultOpcode {
    pub bits: Vec<u16>,
}

/// An instruction carrying test bits beside operand bits.
#[derive(Debug, Clone, PartialEq, Eq)]
pub struct WithTestOpcode {
    pub test_bits: Vec<u16>,
    pub bits: Vec<u16>,
}

/// Kinds of literal a literal-construction instruction can produce.
#[derive(Debug, Clone, Copy, PartialEq, Eq, Structural)]
pub enum LiteralType {
    Null,
    NaN,
    Infinity,
    True,
    False,
    Float,
    Integer,
    String,
    NextValue,
    CopyState,
    Array,
    Regexp,
}

/// One literal kind with the operand bits it consumes.
#[derive(Debug, Clone, PartialEq, Eq)]
pub struct NewLiteralTest {
    pub bits: Vec<u16>,
    pub type_: LiteralType,
}

/// Literal-construction instruction: shared bits plus a mapping from test
/// value to literal kind.
#[derive(Debug, Clone, PartialEq, Eq)]
pub struct NewLiteralOpcode {
    pub bits: Vec<u16>,
    pub tests: Vec<(u16, NewLiteralTest)>,
}

/// Unary operators, in classification order.
#[derive(Debug, Clone, Copy, PartialEq, Eq, Structural)]
pub enum UnaryOperator {
    TypeOf,
    Minus,
    Plus,
    LogicalNot,
    BitwiseNot,
}

/// Unary instruction: operand bits and its operator.
#[derive(Debug, Clone, PartialEq, Eq)]
pub struct UnaryOpcode {
    pub bits: Vec<u16>,
    pub operator: UnaryOperator,
}

/// Binary operators, in classification order.
#[derive(Debug, Clone, Copy, PartialEq, Eq, Structural)]
pub enum BinaryOperator {
    Addition,
    Subtraction,
    Multiplication,
    Division,
    Modulo,
    LogicalAnd,
    LogicalOr,
    BitwiseAnd,
    BitwiseOr,
    BitwiseXor,
    LeftShift,
    RightShift,
    UnsignedRightShift,
    Equals,
    EqualsStrict,
    GreaterThan,
    GreaterThanOrEqual,
    InstanceOf,
    In,
}

/// Binary instruction: operand bits, operator, and whether its operands
/// arrive swapped.
#[derive(Debug, Clone, PartialEq, Eq)]
pub struct BinaryOpcode {
    pub bits: Vec<u16>,
    pub operator: BinaryOperator,
    pub swap: bool,
}

/// Closure kinds a heap instruction distinguishes.
#[derive(Debug, Clone, Copy, PartialEq, Eq, Structural)]
pub enum HeapType {
    Setter,
    Get,
    Init,
}

/// One closure kind with the operand bits it consumes.
#[derive(Debug, Clone, PartialEq, Eq)]
pub struct ClosureTest {
    pub bits: Vec<u16>,
    pub closure_type: HeapType,
}

/// Heap instruction: shared bits plus a mapping from test value to closure
/// kind.
#[derive(Debug, Clone, PartialEq, Eq)]
pub struct ClosureOpcode {
    pub bits: Vec<u16>,
    pub closures: Vec<(u16, ClosureTest)>,
}

/// One recovered instruction.
#[derive(Debug, Clone, PartialEq, Eq)]
pub enum Opcode {
    ArrayPush(DefaultOpcode),
    Throw(DefaultOpcode),
    Bind(DefaultOpcode),
    RegisterVMFunction(DefaultOpcode),
    Binary(BinaryOpcode),
    Unary(UnaryOpcode),
    NewLiteral(NewLiteralOpcode),
    NewObject(DefaultOpcode),
    Pop(DefaultOpcode),
    SetProperty(DefaultOpcode),
    GetProperty(DefaultOpcode),
    SplicePop(DefaultOpcode),
    CallFuncNoContext(DefaultOpcode),
    SwapRegister(DefaultOpcode),
    NewArray(DefaultOpcode),
    Jump(DefaultOpcode),
    JumpIf(DefaultOpcode),
    Move(DefaultOpcode),
    Call(DefaultOpcode),
    Heap(ClosureOpcode),
}

/// The operand bits an instruction carries.
pub open spec fn spec_opcode_bits(op: Opcode) -> Seq<u16> {
    match op {
        Opcode::ArrayPush(o) => o.bits@,
        Opcode::Throw(o) => o.bits@,
        Opcode::Bind(o) => o.bits@,
        Opcode::RegisterVMFunction(o) => o.bits@,
        Opcode::Binary(o) => o.bits@,
        Opcode::Unary(o) => o.bits@,
        Opcode::NewLiteral(o) => o.bits@,
        Opcode::NewObject(o) => o.bits@,
        Opcode::Pop(o) => o.bits@,
        Opcode::SetProperty(o) => o.bits@,
        Opcode::GetProperty(o) => o.bits@,
        Opcode::SplicePop(o) => o.bits@,
        Opcode::CallFuncNoContext(o) => o.bits@,
        Opcode::SwapRegister(o) => o.bits@,
        Opcode::NewArray(o) => o.bits@,
        Opcode::Jump(o) => o.bits@,
        Opcode::JumpIf(o) => o.bits@,
        Opcode::Move(o) => o.bits@,
        Opcode::Call(o) => o.bits@,
        Opcode::Heap(o) => o.bits@,
    }
}

impl Opcode {
    /// Borrows the operand bits of the instruction.
    pub fn bits(&self) -> (r: &Vec<u16>)
        ensures
            r@ == spec_opcode_bits(*self),
    {
        match self {
            Opcode::ArrayPush(o) => &o.bits,
            Opcode::Throw(o) => &o.bits,
            Opcode::Bind(o) => &o.bits,
            Opcode::RegisterVMFunction(o) => &o.bits,
            Opcode::Binary(o) => &o.bits,
            Opcode::Unary(o) => &o.bits,
            Opcode::NewLiteral(o) => &o.bits,
            Opcode::NewObject(o) => &o.bits,
            Opcode::Pop(o) => &o.bits,
            Opcode::SetProperty(o) => &o.bits,
            Opcode::GetProperty(o) => &o.bits,
            Opcode::SplicePop(o) => &o.bits,
            Opcode::CallFuncNoContext(o) => &o.bits,
            Opcode::SwapRegister(o) => &o.bits,
            Opcode::NewArray(o) => &o.bits,
            Opcode::Jump(o) => &o.bits,
            Opcode::JumpIf(o) => &o.bits,
            Opcode::Move(o) => &o.bits,
            Opcode::Call(o) => &o.bits,
            Opcode::Heap(o) => &o.bits,
        }
    }
}

/// Unary operator at a classification-order position.
pub open spec fn spec_unary_operator_at(i: int) -> UnaryOperator {
    if i == 0 {
        UnaryOperator::TypeOf
    } else if i == 1 {
        UnaryOperator::Minus
    } else if i == 2 {
        UnaryOperator::Plus
    } else if i == 3 {
        UnaryOperator::LogicalNot
    } else {
        UnaryOperator::BitwiseNot
    }
}

/// Binary operator at a classification-order position.
pub open spec fn spec_binary_operator_at(i: int) -> BinaryOperator {
    if i == 0 {
        BinaryOperator::Addition
    } else if i == 1 {
        BinaryOperator::Subtraction
    } else if i == 2 {
        BinaryOperator::Multiplication
    } else if i == 3 {
        BinaryOperator::Division
    } else if i == 4 {
        BinaryOperator::Modulo
    } else if i == 5 {
        BinaryOperator::LogicalAnd
    } else if i == 6 {
        BinaryOperator::LogicalOr
    } else if i == 7 {
        BinaryOperator::BitwiseAnd
    } else if i == 8 {
        BinaryOperator::BitwiseOr
    } else if i == 9 {
        BinaryOperator::BitwiseXor
    } else if i == 10 {
        BinaryOperator::LeftShift
    } else if i == 11 {
        BinaryOperator::RightShift
    } else if i == 12 {
        BinaryOperator::UnsignedRightShift
    } else if i == 13 {
        BinaryOperator::Equals
    } else if i == 14 {
        BinaryOperator::EqualsStrict
    } else if i == 15 {
        BinaryOperator::GreaterThan
    } else if i == 16 {
        BinaryOperator::GreaterThanOrEqual
    } else if i == 17 {
        BinaryOperator::InstanceOf
    } else {
        BinaryOperator::In
    }
}

/// Literal kind at a classification-order position.
pub open spec fn spec_literal_type_at(i: int) -> LiteralType {
    if i == 0 {
        LiteralType::Null
    } else if i == 1 {
        LiteralType::NaN
    } else if i == 2 {
        LiteralType::Infinity
    } else if i == 3 {
        LiteralType::True
    } else if i == 4 {
        LiteralType::False
    } else if i == 5 {
        LiteralType::Float
    } else if i == 6 {
        LiteralType::Integer
    } else if i == 7 {
        LiteralType::String
    } else if i == 8 {
        LiteralType::NextValue
    } else if i == 9 {
        LiteralType::CopyState
    } else if i == 10 {
        LiteralType::Array
    } else {
        LiteralType::Regexp
    }
}

/// Closure kind at a classification-order position.
pub open spec fn spec_heap_type_at(i: int) -> HeapType {
    if i == 0 {
        HeapType::Setter
    } else if i == 1 {
        HeapType::Get
    } else {
        HeapType::Init
    }
}

/// Unary operator at a classification-order position.
pub fn unary_operator_at(i: usize) -> (r: UnaryOperator)
    requires
        i < UNARY_OPERATOR_COUNT,
    ensures
        r == spec_unary_operator_at(i as int),
{
    if i == 0 {
        UnaryOperator::TypeOf
    } else if i == 1 {
        UnaryOperator::Minus
    } else if i == 2 {
        UnaryOperator::Plus
    } else if i == 3 {
        UnaryOperator::LogicalNot
    } else {
        UnaryOperator::BitwiseNot
    }
}

/// Binary operator at a classification-order position.
pub fn binary_operator_at(i: usize) -> (r: BinaryOperator)
    requires
        i < BINARY_OPERATOR_COUNT,
    ensures
        r == spec_binary_operator_at(i as int),
{
    if i == 0 {
        BinaryOperator::Addition
    } else if i == 1 {
        BinaryOperator::Subtraction
    } else if i == 2 {
        BinaryOperator::Multiplication
    } else if i == 3 {
        BinaryOperator::Division
    } else if i == 4 {
        BinaryOperator::Modulo
    } else if i == 5 {
        BinaryOperator::LogicalAnd
    } else if i == 6 {
        BinaryOperator::LogicalOr
    } else if i == 7 {
        BinaryOperator::BitwiseAnd
    } else if i == 8 {
        BinaryOperator::BitwiseOr
    } else if i == 9 {
        BinaryOperator::BitwiseXor
    } else if i == 10 {
        BinaryOperator::LeftShift
    } else if i == 11 {
        BinaryOperator::RightShift
    } else if i == 12 {
        BinaryOperator::UnsignedRightShift
    } else if i == 13 {
        BinaryOperator::Equals
    } else if i == 14 {
        BinaryOperator::EqualsStrict
    } else if i == 15 {
        BinaryOperator::GreaterThan
    } else if i == 16 {
        BinaryOperator::GreaterThanOrEqual
    } else if i == 17 {
        BinaryOperator::InstanceOf
    } else {
        BinaryOperator::In
    }
}

/// Literal kind at a classification-order position.
pub fn literal_type_at(i: usize) -> (r: LiteralType)
    requires
        i < LITERAL_TYPE_COUNT,
    ensures
        r == spec_literal_type_at(i as int),
{
    if i == 0 {
        LiteralType::Null
    } else if i == 1 {
        LiteralType::NaN
    } else if i == 2 {
        LiteralType::Infinity
    } else if i == 3 {
        LiteralType::True
    } else if i == 4 {
        LiteralType::False
    } else if i == 5 {
        LiteralType::Float
    } else if i == 6 {
        LiteralType::Integer
    } else if i == 7 {
        LiteralType::String
    } else if i == 8 {
        LiteralType::NextValue
    } else if i == 9 {
        LiteralType::CopyState
    } else if i == 10 {
        LiteralType::Array
    } else {
        LiteralType::Regexp
    }
}

/// Closure kind at a classification-order position.
pub fn heap_type_at(i: usize) -> (r: HeapType)
    requires
        i < HEAP_TYPE_COUNT,
    ensures
        r == spec_heap_type_at(i as int),
{
    if i == 0 {
        HeapType::Setter
    } else if i == 1 {
        HeapType::Get
    } else {
        HeapType::Init
    }
}

impl UnaryOperator {
    /// The script operator token this enumerant stands for.
    pub fn get_operator(&self) -> (r: &'static str)
        ensures
            *self == UnaryOperator::BitwiseNot ==> r@ == "~"@,
            *self == UnaryOperator::LogicalNot ==> r@ == "!"@,
            *self == UnaryOperator::Minus ==> r@ == "-"@,
            *self == UnaryOperator::Plus ==> r@ == "+"@,
            *self == UnaryOperator::TypeOf ==> r@ == "typeof"@,
    {
        match self {
            UnaryOperator::BitwiseNot => "~",
            UnaryOperator::LogicalNot => "!",
            UnaryOperator::Minus => "-",
            UnaryOperator::Plus => "+",
            UnaryOperator::TypeOf => "typeof",
        }
    }
}

impl BinaryOperator {
    /// The script operator token this enumerant stands for.
    pub fn get_operator(&self) -> (r: &'static str)
        ensures
            *self == BinaryOperator::Addition ==> r@ == "+"@,
            *self == BinaryOperator::Subtraction ==> r@ == "-"@,
            *self == BinaryOperator::Multiplication ==> r@ == "*"@,
            *self == BinaryOperator::Division ==> r@ == "/"@,
            *self == BinaryOperator::Modulo ==> r@ == "%"@,
            *self == BinaryOperator::LogicalAnd ==> r@ == "&&"@,
            *self == BinaryOperator::LogicalOr ==> r@ == "||"@,
            *self == BinaryOperator::BitwiseAnd ==> r@ == "&"@,
            *self == BinaryOperator::BitwiseOr ==> r@ == "|"@,
            *self == BinaryOperator::BitwiseXor ==> r@ == "^"@,
            *self == BinaryOperator::LeftShift ==> r@ == "<<"@,
            *self == BinaryOperator::RightShift ==> r@ == ">>"@,
            *self == BinaryOperator::UnsignedRightShift ==> r@ == ">>>"@,
            *self == BinaryOperator::Equals ==> r@ == "=="@,
            *self == BinaryOperator::EqualsStrict ==> r@ == "==="@,
            *self == BinaryOperator::GreaterThan ==> r@ == ">"@,
            *self == BinaryOperator::GreaterThanOrEqual ==> r@ == ">="@,
            *self == BinaryOperator::InstanceOf ==> r@ == "instanceof"@,
            *self == BinaryOperator::In ==> r@ == "in"@,
    {
        match self {
            BinaryOperator::Addition => "+",
            BinaryOperator::Subtraction => "-",
            BinaryOperator::Multiplication => "*",
            BinaryOperator::Division => "/",
            BinaryOperator::Modulo => "%",
            BinaryOperator::LogicalAnd => "&&",
            BinaryOperator::LogicalOr => "||",
            BinaryOperator::BitwiseAnd => "&",
            BinaryOperator::BitwiseOr => "|",
            BinaryOperator::BitwiseXor => "^",
            BinaryOperator::LeftShift => "<<",
            BinaryOperator::RightShift => ">>",
            BinaryOperator::UnsignedRightShift => ">>>",
            BinaryOperator::Equals => "==",
            BinaryOperator::EqualsStrict => "===",
            BinaryOperator::GreaterThan => ">",
            BinaryOperator::GreaterThanOrEqual => ">=",
            BinaryOperator::InstanceOf => "instanceof",
            BinaryOperator::In => "in",
        }
    }
}

} // verus!
