//! The abstract syntax the analyses consume: a closed vocabulary of statement
//! and expression kinds for one parsed contract. Anything the upstream parser
//! produces outside this vocabulary is handed in as `Other` and treated as
//! opaque: it contributes no mutation and no flow.

use vstd::prelude::*;

verus! {

/// Binary operators, including comparisons and logical connectives.
#[derive(Debug, Clone, Copy, PartialEq, Eq, Structural)]
pub enum BinOp {
    Add,
    Subtract,
    Multiply,
    Divide,
    Modulo,
    Power,
    BitwiseOr,
    BitwiseAnd,
    BitwiseXor,
    ShiftLeft,
    ShiftRight,
    Equal,
    NotEqual,
    Less,
    LessEqual,
    More,
    MoreEqual,
    And,
    Or,
}

/// Unary operators.
#[derive(Debug, Clone, Copy, PartialEq, Eq, Structural)]
pub enum UnOp {
    UnaryPlus,
    Negate,
    Not,
    BitwiseNot,
}

/// Assignment forms: plain `=` and the compound operators.
#[derive(Debug, Clone, Copy, PartialEq, Eq, Structural)]
pub enum AssignOp {
    Assign,
    AssignAdd,
    AssignSubtract,
    AssignMultiply,
    AssignDivide,
    AssignModulo,
    AssignOr,
    AssignAnd,
    AssignXor,
    AssignShiftLeft,
    AssignShiftRight,
}

impl AssignOp {
    /// The compound forms `+=` `-=` `*=` `/=` `%=` combine the target with an
    /// arithmetic operator; the others are plain or bitwise assignments.
    pub open spec fn is_arithmetic(self) -> bool {
        self == AssignOp::AssignAdd || self == AssignOp::AssignSubtract
            || self == AssignOp::AssignMultiply || self == AssignOp::AssignDivide
            || self == AssignOp::AssignModulo
    }
}

/// Expressions.
#[derive(Debug)]
pub enum Expr {
    Variable(String),
    MemberAccess(Box<Expr>, String),
    ArraySubscript(Box<Expr>, Option<Box<Expr>>),
    FunctionCall(Box<Expr>, Vec<Expr>),
    Assign(AssignOp, Box<Expr>, Box<Expr>),
    PreIncrement(Box<Expr>),
    PostIncrement(Box<Expr>),
    PreDecrement(Box<Expr>),
    PostDecrement(Box<Expr>),
    Delete(Box<Expr>),
    Binary(BinOp, Box<Expr>, Box<Expr>),
    Unary(UnOp, Box<Expr>),
    Conditional(Box<Expr>, Box<Expr>, Box<Expr>),
    Parenthesis(Box<Expr>),
    Literal,
    Other,
}

/// Statements.
#[derive(Debug)]
pub enum Stmt {
    Expression(Expr),
    Block { unchecked: bool, statements: Vec<Stmt> },
    If(Expr, Box<Stmt>, Option<Box<Stmt>>),
    While(Expr, Box<Stmt>),
    DoWhile(Box<Stmt>, Expr),
    For(Option<Box<Stmt>>, Option<Box<Expr>>, Option<Box<Expr>>, Option<Box<Stmt>>),
    /// A local declaration with its name (when the declaration binds one) and
    /// its initializer.
    VariableDefinition(Option<String>, Option<Expr>),
    Return(Option<Expr>),
    /// `revert CustomError(args)`; the dotted error path is pre-joined.
    Revert(Option<String>, Vec<Expr>),
    Emit(Expr),
    Other,
}

/// One declared parameter of a function, with whether it is passed by
/// storage reference.
#[derive(Debug, Clone)]
pub struct ParamNode {
    pub name: String,
    pub is_storage_ref: bool,
}

/// One function or modifier definition of the contract.
#[derive(Debug)]
pub struct FunctionNode {
    pub name: String,
    pub is_modifier: bool,
    pub params: Vec<ParamNode>,
    pub body: Option<Stmt>,
}

/// One contract-level variable declaration, as the classifier and the
/// upgradeable-storage detector read it: its declared type rendered as text,
/// whether it is a constant, and the literal value of its initializer when
/// that initializer is a number or hex literal.
#[derive(Debug, Clone)]
pub struct VarDeclNode {
    pub name: String,
    pub declared_type: String,
    pub is_constant: bool,
    pub initializer_value: String,
}

/// A contract definition reduced to what the analyses inspect.
#[derive(Debug)]
pub struct ContractAst {
    pub functions: Vec<FunctionNode>,
    pub variables: Vec<VarDeclNode>,
}

} // verus!
