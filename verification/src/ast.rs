//! A closed model of the script syntax that the recovery engine inspects.
//!
//! The engine never sees the front end's own tree: a caller lowers whatever
//! parser it uses into these types, which keep exactly the shapes the
//! heuristics read. Every construct that the heuristics do not distinguish is
//! lowered to the `Other` variant of its kind, so no input shape is ever
//! rejected. Numeric literals are held as 64-bit integers: a fractional
//! source literal is truncated toward zero by the front end before it reaches
//! the engine.

use vstd::prelude::*;

verus! {

/// Unary operator kinds the engine distinguishes.
#[derive(Debug, Clone, Copy, PartialEq, Eq, Structural)]
pub enum UnOp {
    Minus,
    Plus,
    BitNot,
    LogicNot,
    TypeOf,
    Other,
}

/// Binary (non-short-circuit) operator kinds the engine distinguishes.
#[derive(Debug, Clone, Copy, PartialEq, Eq, Structural)]
pub enum BinOp {
    Add,
    Sub,
    Mul,
    Div,
    Mod,
    BitAnd,
    BitOr,
    BitXor,
    Shl,
    Shr,
    UShr,
    Eq,
    StrictEq,
    Gt,
    Ge,
    In,
    InstanceOf,
    Other,
}

/// Short-circuit operator kinds.
#[derive(Debug, Clone, Copy, PartialEq, Eq, Structural)]
pub enum LogOp {
    Or,
    And,
    Nullish,
}

/// An expression of the modelled script.
#[derive(Debug, PartialEq, Eq)]
pub enum Expr {
    /// Numeric literal, truncated toward zero to an integer by the front end.
    Num(i64),
    /// String literal.
    Str(String),
    /// Identifier reference.
    Ident(String),
    /// Parenthesized expression.
    Paren(Box<Expr>),
    /// Comma-sequence expression.
    Sequence(Vec<Expr>),
    /// Unary operator application.
    Unary(UnOp, Box<Expr>),
    /// Binary operator application.
    Binary(BinOp, Box<Expr>, Box<Expr>),
    /// Short-circuit operator application.
    Logical(LogOp, Box<Expr>, Box<Expr>),
    /// Ternary conditional: test, consequent, alternate.
    Conditional(Box<Expr>, Box<Expr>, Box<Expr>),
    /// Call: callee, arguments.
    Call(Box<Expr>, Vec<Expr>),
    /// Constructor call: callee, arguments.
    New(Box<Expr>, Vec<Expr>),
    /// Computed member access: object, index expression.
    Computed(Box<Expr>, Box<Expr>),
    /// Static member access: object, property name.
    Member(Box<Expr>, String),
    /// Assignment: target, value.
    Assign(AssignTarget, Box<Expr>),
    /// Array literal, element expressions in order.
    Array(Vec<Expr>),
    /// Object literal, property value expressions in order.
    Object(Vec<Expr>),
    /// Function expression.
    Function(Box<FunctionDef>),
    /// Any construct the heuristics do not distinguish.
    Other,
}

/// The left side of an assignment.
#[derive(Debug, PartialEq, Eq)]
pub enum AssignTarget {
    /// Plain identifier target.
    Ident(String),
    /// Computed member target: object, index expression.
    Computed(Box<Expr>, Box<Expr>),
    /// Static member target: object, property name.
    Member(Box<Expr>, String),
    /// Any other target shape.
    Other,
}

/// One declarator of a variable declaration.
#[derive(Debug, PartialEq, Eq)]
pub struct Declarator {
    /// Bound name, when the binding is a plain identifier.
    pub name: Option<String>,
    /// Initializer expression, when present.
    pub init: Option<Expr>,
}

/// A statement of the modelled script.
#[derive(Debug, PartialEq, Eq)]
pub enum Stmt {
    /// Expression statement.
    Expr(Expr),
    /// Return statement with optional argument.
    Return(Option<Expr>),
    /// If statement: test, then-branch, else-branch.
    If(Expr, Vec<Stmt>, Vec<Stmt>),
    /// Throw statement.
    Throw(Expr),
    /// For loop: header statements (initializer, test, update), then body.
    For(Vec<Stmt>, Vec<Stmt>),
    /// Variable declaration.
    Decl(Vec<Declarator>),
    /// Function declaration.
    Func(FunctionDef),
    /// Plain block.
    Block(Vec<Stmt>),
    /// Any statement the heuristics do not distinguish.
    Other,
}

/// A function declaration or expression: optional name and body statements.
#[derive(Debug, PartialEq, Eq)]
pub struct FunctionDef {
    pub name: Option<String>,
    pub body: Vec<Stmt>,
}

/// A whole parsed script.
#[derive(Debug, PartialEq, Eq)]
pub struct Program {
    pub body: Vec<Stmt>,
}

} // verus!
