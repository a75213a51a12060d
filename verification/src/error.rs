//! Structured compile-time and evaluation-time failures. Every failure
//! carries a kind, the source position it is anchored at, and a
//! human-readable message; parse failures are augmented with the enclosing
//! construct's name by the parser before they propagate.

use vstd::prelude::*;
use crate::text::chars_to_string;

verus! {

#[derive(Clone, Copy, Debug, PartialEq, Eq, Structural)]
pub enum ErrorKind {
    /// Token mismatch during parsing.
    SyntaxError,
    /// Redeclaration of a variable in the same scope frame.
    DuplicateBinding,
    /// Redeclaration of a function name.
    DuplicateFunction,
    /// A variable was read or assigned before being declared.
    UndefinedVariable,
    /// A call names a function that was never declared.
    UndefinedFunction,
    /// An assignment or operator was applied to incompatible types.
    TypeMismatch,
    /// A call's arity differs from the declared parameter count.
    ArgumentCountMismatch,
    /// A call's argument types conflict with declared parameter types.
    ArgumentTypeMismatch,
    /// A deferred function body failed to parse on first instantiation.
    FunctionBodyParseError,
    /// The evaluation harness ran out of its step budget.
    ExecutionLimit,
}

pub struct CompileError {
    pub kind: ErrorKind,
    pub row: usize,
    pub col: usize,
    pub message: Option<String>,
}

impl CompileError {
    /// Build an error from a message given as characters.
    pub fn new(kind: ErrorKind, row: usize, col: usize, msg: &Vec<char>) -> (r: CompileError)
        ensures
            r.kind == kind,
            r.row == row,
            r.col == col,
            r.message is Some,
            r.message->0@ == msg@,
    {
        CompileError { kind, row, col, message: Some(chars_to_string(msg)) }
    }
}

/// The exact diagnostic for a read of an undeclared variable.
pub open spec fn undefined_variable_message(name: Seq<char>) -> Seq<char> {
    "Variable '"@ + name + "' does not exist"@
}

/// Build the undefined-variable diagnostic for `name`.
pub fn undefined_variable_error(name: &Vec<char>, row: usize, col: usize) -> (r: CompileError)
    ensures
        r.kind == ErrorKind::UndefinedVariable,
        r.message is Some,
        r.message->0@ == undefined_variable_message(name@),
{
    let mut msg: Vec<char> = Vec::new();
    crate::text::push_str_chars(&mut msg, "Variable '");
    crate::text::push_chars(&mut msg, name);
    crate::text::push_str_chars(&mut msg, "' does not exist");
    CompileError::new(ErrorKind::UndefinedVariable, row, col, &msg)
}

} // verus!
