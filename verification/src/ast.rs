//! The abstract syntax tree. Every node owns its children exclusively; a
//! call node additionally holds the registry id of its function and the
//! index of the instance its signature resolved to.

use vstd::prelude::*;
use crate::types::Type;

verus! {

#[derive(Clone, Copy, Debug, PartialEq, Eq, Structural)]
pub enum BinopKind {
    Add,
    Sub,
    Mul,
    Div,
    Mod,
    Eq,
    Neq,
    Gt,
    Lt,
}

/// One chunk of a text or command region: literal characters, or a nested
/// interpolated expression.
pub enum TextPart {
    Literal { chars: Vec<char> },
    Interp { expr: Box<Expr> },
}

pub enum Expr {
    Number { value: i64 },
    BoolLit { truth: bool },
    TextLit { parts: Vec<TextPart> },
    Command { parts: Vec<TextPart> },
    Var { name: Vec<char>, kind: Type },
    Binop { op: BinopKind, kind: Type, left: Box<Expr>, right: Box<Expr> },
    Ternary { kind: Type, cond: Box<Expr>, when_true: Box<Expr>, when_false: Box<Expr> },
    Call { name: Vec<char>, fun_id: usize, instance: usize, kind: Type, args: Vec<Expr> },
}

impl Expr {
    /// The type an expression evaluates to.
    pub open spec fn spec_type_of(&self) -> Type {
        match self {
            Expr::Number { .. } => Type::Num,
            Expr::BoolLit { .. } => Type::Bool,
            Expr::TextLit { .. } => Type::Text,
            Expr::Command { .. } => Type::Text,
            Expr::Var { kind, .. } => *kind,
            Expr::Binop { kind, .. } => *kind,
            Expr::Ternary { kind, .. } => *kind,
            Expr::Call { kind, .. } => *kind,
        }
    }

    pub fn type_of(&self) -> (r: Type)
        ensures
            r == self.spec_type_of(),
    {
        match self {
            Expr::Number { .. } => Type::Num,
            Expr::BoolLit { .. } => Type::Bool,
            Expr::TextLit { .. } => Type::Text,
            Expr::Command { .. } => Type::Text,
            Expr::Var { kind, .. } => *kind,
            Expr::Binop { kind, .. } => *kind,
            Expr::Ternary { kind, .. } => *kind,
            Expr::Call { kind, .. } => *kind,
        }
    }
}

pub enum Stmt {
    Let { name: Vec<char>, expr: Expr },
    Assign { name: Vec<char>, expr: Expr },
    /// A compound-assignment statement `x <op>= e`. The parser records it
    /// with `expr` already in the shape of the equivalent plain
    /// assignment's right side, `x <op> e`, and the emitter sends both
    /// statements through one assignment-emission path, so a compound
    /// assignment translates exactly as `x = x <op> e` does.
    Shorthand { name: Vec<char>, op: BinopKind, expr: Expr },
    Echo { expr: Expr },
    If { cond: Expr, then_block: Block, else_block: Option<Block> },
    Loop { body: Block },
    Break,
    Continue,
    CommandStmt { parts: Vec<TextPart> },
    /// A function declaration site; the instances to emit live in the
    /// registry under `id`.
    FunDecl { id: usize },
    /// An import site. The unit's declarations were merged into the
    /// registry when the import was parsed: they occupy the id range
    /// `first_id..last_id`, whose instances are emitted here.
    Import { first_id: usize, last_id: usize },
}

pub struct Block {
    pub stmts: Vec<Stmt>,
}

} // verus!
