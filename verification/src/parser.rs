//! The parser. Tokens are consumed through an explicit cursor; parse-time
//! state (scope stack, function registry, importable modules) is threaded
//! through every parse function. Function bodies are skipped at declaration
//! time and parsed lazily, once per distinct call-site signature.
//!
//! Scope frames obey strict LIFO teardown: every parse function restores
//! the scope depth it was entered with, on success and on failure alike.

use vstd::prelude::*;
use crate::token::{Token, TokenKind, tokenize};
use crate::types::{Type, unify_signature};
use crate::ast::{Expr, Stmt, Block, TextPart, BinopKind};
use crate::scope::{SymbolTable, view_of, spec_lookup};
use crate::registry::{FunctionRegistry, FunctionDeclaration, FunctionInstance, names_of};
use crate::error::{CompileError, ErrorKind, undefined_variable_error, undefined_variable_message};
use crate::text::{chars_eq, chars_eq_str, copy_chars, push_chars, push_str_chars, str_to_chars};

verus! {

/// A unit that an import statement may pull declarations from.
pub struct Module {
    pub path: Vec<char>,
    pub source: Vec<char>,
}

/// Mutable parse-time state: scope stack, function registry, and the
/// importable modules supplied by the embedder.
pub struct ParserState {
    pub scope: SymbolTable,
    pub registry: FunctionRegistry,
    pub modules: Vec<Module>,
}

pub open spec fn scope_depth(st: ParserState) -> nat {
    view_of(st.scope).len()
}

#[verifier::loop_isolation(false)]
fn copy_token(t: &Token) -> (r: Token)
    ensures
        r.kind == t.kind,
        r.word@ == t.word@,
        r.row == t.row,
        r.col == t.col,
{
    Token { kind: t.kind, word: copy_chars(&t.word), row: t.row, col: t.col }
}

fn err_at(tokens: &Vec<Token>, pos: usize, kind: ErrorKind, what: &str) -> (r: CompileError)
    ensures
        r.kind == kind,
{
    let (row, col) = if pos < tokens.len() {
        (tokens[pos].row, tokens[pos].col)
    } else if tokens.len() > 0 {
        (tokens[tokens.len() - 1].row, tokens[tokens.len() - 1].col)
    } else {
        (1, 1)
    };
    let msg = str_to_chars(what);
    CompileError::new(kind, row, col, &msg)
}

/// Token shape predicates, used by the parser's contracts.
pub open spec fn sym_is(t: Token, s: Seq<char>) -> bool {
    t.kind == TokenKind::Symbol && t.word@ == s
}

pub open spec fn num_tok(t: Token) -> bool {
    t.kind == TokenKind::Number
}

/// The keyword that opens a ternary branch.
pub open spec fn ternary_kw(t: Token) -> bool {
    t.kind == TokenKind::Word && t.word@.len() == 4
        && t.word@[0] == 't' && t.word@[1] == 'h' && t.word@[2] == 'e' && t.word@[3] == 'n'
}

pub open spec fn mulop_tok(t: Token) -> bool {
    sym_is(t, "*"@) || sym_is(t, "/"@) || sym_is(t, "%"@)
}

pub open spec fn addop_tok(t: Token) -> bool {
    sym_is(t, "+"@) || sym_is(t, "-"@)
}

pub open spec fn cmpop_tok(t: Token) -> bool {
    sym_is(t, "=="@) || sym_is(t, "!="@) || sym_is(t, ">"@) || sym_is(t, "<"@)
}

/// The token shape `number * number`, ending there.
pub open spec fn product_tokens(toks: Seq<Token>, pos: int) -> bool {
    &&& 0 <= pos
    &&& pos + 3 <= toks.len()
    &&& num_tok(toks[pos])
    &&& sym_is(toks[pos + 1], "*"@)
    &&& num_tok(toks[pos + 2])
    &&& (pos + 3 < toks.len() ==> !mulop_tok(toks[pos + 3]))
}

/// The token shape `number + number * number`, with nothing after it that
/// the expression grammar would keep consuming.
pub open spec fn sum_of_product_tokens(toks: Seq<Token>, pos: int) -> bool {
    &&& 0 <= pos
    &&& pos + 5 <= toks.len()
    &&& num_tok(toks[pos])
    &&& sym_is(toks[pos + 1], "+"@)
    &&& num_tok(toks[pos + 2])
    &&& sym_is(toks[pos + 3], "*"@)
    &&& num_tok(toks[pos + 4])
    &&& (pos + 5 < toks.len() ==> !addop_tok(toks[pos + 5]) && !mulop_tok(toks[pos + 5])
            && !cmpop_tok(toks[pos + 5]) && !ternary_kw(toks[pos + 5]))
}

/// The token shape `number + number`, ending there (the next token, if
/// any, is nothing the expression grammar would keep consuming).
pub open spec fn sum_tokens(toks: Seq<Token>, pos: int) -> bool {
    &&& 0 <= pos
    &&& pos + 3 <= toks.len()
    &&& num_tok(toks[pos])
    &&& sym_is(toks[pos + 1], "+"@)
    &&& num_tok(toks[pos + 2])
    &&& (pos + 3 < toks.len() ==> !addop_tok(toks[pos + 3]) && !mulop_tok(toks[pos + 3])
            && !cmpop_tok(toks[pos + 3]) && !ternary_kw(toks[pos + 3]))
}

/// The token shape `( number + number ) * number`, ending there.
pub open spec fn paren_product_tokens(toks: Seq<Token>, pos: int) -> bool {
    &&& 0 <= pos
    &&& pos + 7 <= toks.len()
    &&& sym_is(toks[pos], "("@)
    &&& num_tok(toks[pos + 1])
    &&& sym_is(toks[pos + 2], "+"@)
    &&& num_tok(toks[pos + 3])
    &&& sym_is(toks[pos + 4], ")"@)
    &&& sym_is(toks[pos + 5], "*"@)
    &&& num_tok(toks[pos + 6])
    &&& (pos + 7 < toks.len() ==> !addop_tok(toks[pos + 7]) && !mulop_tok(toks[pos + 7])
            && !cmpop_tok(toks[pos + 7]) && !ternary_kw(toks[pos + 7]))
}

/// Whether a declaration at `pos` opens with the visibility keyword.
pub open spec fn decl_is_public(toks: Seq<Token>, pos: int) -> bool {
    0 <= pos < toks.len() && toks[pos].kind == TokenKind::Word && toks[pos].word@ == "pub"@
}

/// The index of the declared name: after the optional visibility keyword
/// and the declaration keyword.
pub open spec fn decl_name_index(toks: Seq<Token>, pos: int) -> int {
    if decl_is_public(toks, pos) { pos + 2 } else { pos + 1 }
}

/// Two tokens that carry the same kind, text and position.
pub open spec fn token_like(a: Token, b: Token) -> bool {
    a.kind == b.kind && a.word@ == b.word@ && a.row == b.row && a.col == b.col
}

/// The record's deferred body is exactly the token range between the
/// braces at `a - 1` and `b`: recorded, not parsed.
pub open spec fn recorded_span(toks: Seq<Token>, u: FunctionDeclaration, a: int, b: int)
    -> bool {
    &&& 0 < a <= b < toks.len()
    &&& sym_is(toks[a - 1], "{"@)
    &&& sym_is(toks[b], "}"@)
    &&& u.body_span@.len() == b - a
    &&& forall|j: int| 0 <= j < b - a ==> token_like(#[trigger] u.body_span@[j], toks[a + j])
}

/// A declaration head with an empty parameter list and no return
/// annotation: `fun name ( ) {`.
pub open spec fn decl_no_params(toks: Seq<Token>, pos: int) -> bool {
    let ni = decl_name_index(toks, pos);
    &&& ni + 3 < toks.len()
    &&& sym_is(toks[ni + 1], "("@)
    &&& sym_is(toks[ni + 2], ")"@)
    &&& sym_is(toks[ni + 3], "{"@)
}

/// A declaration head with one unannotated parameter and no return
/// annotation: `fun name ( a ) {`.
pub open spec fn decl_one_plain_param(toks: Seq<Token>, pos: int) -> bool {
    let ni = decl_name_index(toks, pos);
    &&& ni + 4 < toks.len()
    &&& sym_is(toks[ni + 1], "("@)
    &&& toks[ni + 2].kind == TokenKind::Word
    &&& sym_is(toks[ni + 3], ")"@)
    &&& sym_is(toks[ni + 4], "{"@)
}

/// An identifier read as a variable: a word that is no truth literal and
/// is not followed by a call's opening parenthesis.
pub open spec fn variable_read_tokens(toks: Seq<Token>, pos: int) -> bool {
    &&& 0 <= pos < toks.len()
    &&& toks[pos].kind == TokenKind::Word
    &&& toks[pos].word@ != "true"@
    &&& toks[pos].word@ != "false"@
    &&& (pos + 1 < toks.len() ==> !sym_is(toks[pos + 1], "("@))
}

/// A lone truth literal: the word `true`, with nothing after it that the
/// expression grammar would keep consuming.
pub open spec fn truth_lit_tokens(toks: Seq<Token>, pos: int) -> bool {
    &&& 0 <= pos < toks.len()
    &&& toks[pos].kind == TokenKind::Word
    &&& toks[pos].word@ == "true"@
    &&& (pos + 1 < toks.len() ==> !addop_tok(toks[pos + 1]) && !mulop_tok(toks[pos + 1])
            && !cmpop_tok(toks[pos + 1]) && !ternary_kw(toks[pos + 1]))
}

/// Reading an undeclared identifier fails with `UndefinedVariable` and the
/// diagnostic names the identifier; nothing has been emitted at that point.
pub open spec fn undeclared_variable_failure(r: Result<(Expr, usize), CompileError>,
    word: Seq<char>) -> bool {
    match r {
        Result::Err(e) => {
            &&& e.kind == ErrorKind::UndefinedVariable
            &&& (e.message matches Some(m) && m@ == undefined_variable_message(word))
        },
        Result::Ok(_) => false,
    }
}

/// An addition of two number literals.
pub open spec fn sum_of_numbers(e: Expr) -> bool {
    match e {
        Expr::Binop { op, left, right, .. } =>
            op == BinopKind::Add && (*left) is Number && (*right) is Number,
        _ => false,
    }
}

/// A parenthesized sum times a number: the parentheses made the addition
/// bind first.
pub open spec fn product_of_sum_expr(e: Expr) -> bool {
    match e {
        Expr::Binop { op, left, right, .. } =>
            op == BinopKind::Mul && sum_of_numbers(*left) && (*right) is Number,
        _ => false,
    }
}

/// A multiplication of two number literals.
pub open spec fn product_of_numbers(e: Expr) -> bool {
    match e {
        Expr::Binop { op, left, right, .. } =>
            op == BinopKind::Mul && (*left) is Number && (*right) is Number,
        _ => false,
    }
}

/// A number plus a product of numbers: the multiplication grouped under
/// the addition, as conventional precedence demands.
pub open spec fn sum_of_product_expr(e: Expr) -> bool {
    match e {
        Expr::Binop { op, left, right, .. } =>
            op == BinopKind::Add && (*left) is Number && product_of_numbers(*right),
        _ => false,
    }
}

fn peek_symbol(tokens: &Vec<Token>, pos: usize, s: &str) -> (r: bool)
    ensures
        r == (pos < tokens@.len() && sym_is(tokens@[pos as int], s@)),
{
    pos < tokens.len() && tokens[pos].kind == TokenKind::Symbol
        && chars_eq_str(&tokens[pos].word, s)
}

fn peek_word(tokens: &Vec<Token>, pos: usize, s: &str) -> (r: bool)
    ensures
        r == (pos < tokens@.len() && tokens@[pos as int].kind == TokenKind::Word
            && tokens@[pos as int].word@ == s@),
{
    pos < tokens.len() && tokens[pos].kind == TokenKind::Word
        && chars_eq_str(&tokens[pos].word, s)
}

/// Keyword test for the ternary separator word.
fn peek_kw_ternary_open(tokens: &Vec<Token>, pos: usize) -> (r: bool)
    ensures
        r == (pos < tokens@.len() && ternary_kw(tokens@[pos as int])),
{
    if pos < tokens.len() && tokens[pos].kind == TokenKind::Word {
        let w = &tokens[pos].word;
        w.len() == 4 && w[0] == 't' && w[1] == 'h' && w[2] == 'e' && w[3] == 'n'
    } else {
        false
    }
}

#[verifier::loop_isolation(false)]
fn expect_symbol(tokens: &Vec<Token>, pos: usize, s: &str, what: &str)
    -> (r: Result<usize, CompileError>)
    requires
        pos <= tokens@.len(),
    ensures
        r matches Ok(p) ==> pos < p <= tokens@.len() && p == pos + 1
            && sym_is(tokens@[pos as int], s@),
        r matches Err(e) ==> e.kind == ErrorKind::SyntaxError,
{
    let n = tokens.len();
    if peek_symbol(tokens, pos, s) {
        Ok(pos + 1)
    } else {
        Err(err_at(tokens, pos, ErrorKind::SyntaxError, what))
    }
}

/// Parse a type name: `Num`, `Text` or `Bool`.
#[verifier::loop_isolation(false)]
fn parse_type(tokens: &Vec<Token>, pos: usize) -> (r: Result<(Type, usize), CompileError>)
    requires
        pos <= tokens@.len(),
    ensures
        r matches Ok(v) ==> pos < v.1 <= tokens@.len(),
        r matches Err(e) ==> e.kind == ErrorKind::SyntaxError,
{
    let n = tokens.len();
    if peek_word(tokens, pos, "Num") {
        Ok((Type::Num, pos + 1))
    } else if peek_word(tokens, pos, "Text") {
        Ok((Type::Text, pos + 1))
    } else if peek_word(tokens, pos, "Bool") {
        Ok((Type::Bool, pos + 1))
    } else {
        Err(err_at(tokens, pos, ErrorKind::SyntaxError, "expected a type name"))
    }
}

/// Decimal digits to a number; fails on overflow.
#[verifier::loop_isolation(false)]
fn parse_i64(word: &Vec<char>) -> (r: Option<i64>)
{
    let mut v: i64 = 0;
    let mut i: usize = 0;
    while i < word.len()
        invariant
            0 <= v,
        decreases word.len() - i,
    {
        let c = word[i];
        let d: i64 = if c == '0' { 0 } else if c == '1' { 1 } else if c == '2' { 2 }
            else if c == '3' { 3 } else if c == '4' { 4 } else if c == '5' { 5 }
            else if c == '6' { 6 } else if c == '7' { 7 } else if c == '8' { 8 }
            else { 9 };
        if v > (i64::MAX - 9) / 10 {
            return None;
        }
        v = v * 10 + d;
        i = i + 1;
    }
    Some(v)
}

/// The result type of a binary operator on given operand types, if the
/// operator accepts them: addition joins numbers or concatenates text;
/// the other arithmetic operators take numbers; equality comparisons take
/// two operands of one concrete type; order comparisons take numbers.
pub open spec fn spec_binop_type(op: BinopKind, l: Type, r: Type) -> Option<Type> {
    match op {
        BinopKind::Add => {
            if l == Type::Num && r == Type::Num { Some(Type::Num) }
            else if l == Type::Text && r == Type::Text { Some(Type::Text) }
            else { None }
        },
        BinopKind::Sub | BinopKind::Mul | BinopKind::Div | BinopKind::Mod => {
            if l == Type::Num && r == Type::Num { Some(Type::Num) } else { None }
        },
        BinopKind::Eq | BinopKind::Neq => {
            if l == r && l != Type::Generic { Some(Type::Bool) } else { None }
        },
        BinopKind::Gt | BinopKind::Lt => {
            if l == Type::Num && r == Type::Num { Some(Type::Bool) } else { None }
        },
    }
}

fn binop_type(op: BinopKind, l: Type, r: Type, tokens: &Vec<Token>, pos: usize)
    -> (res: Result<Type, CompileError>)
    requires
        pos <= tokens@.len(),
    ensures
        match res {
            Ok(t) => spec_binop_type(op, l, r) == Some(t),
            Err(e) => spec_binop_type(op, l, r) is None && e.kind == ErrorKind::TypeMismatch,
        },
{
    let out = match op {
        BinopKind::Add => {
            if l == Type::Num && r == Type::Num { Some(Type::Num) }
            else if l == Type::Text && r == Type::Text { Some(Type::Text) }
            else { None }
        },
        BinopKind::Sub | BinopKind::Mul | BinopKind::Div | BinopKind::Mod => {
            if l == Type::Num && r == Type::Num { Some(Type::Num) } else { None }
        },
        BinopKind::Eq | BinopKind::Neq => {
            if l == r && l != Type::Generic { Some(Type::Bool) } else { None }
        },
        BinopKind::Gt | BinopKind::Lt => {
            if l == Type::Num && r == Type::Num { Some(Type::Bool) } else { None }
        },
    };
    match out {
        Some(t) => Ok(t),
        None => Err(err_at(tokens, pos, ErrorKind::TypeMismatch,
            "operator applied to incompatible types")),
    }
}

/// Parse the chunked region of a text literal or command, starting at its
/// opening token. `cmd` selects command kinds.
#[verifier::loop_isolation(false)]
fn parse_region_parts(tokens: &Vec<Token>, pos: usize, st: &mut ParserState, fuel: u64, cmd: bool)
    -> (r: Result<(Vec<TextPart>, usize), CompileError>)
    requires
        pos <= tokens@.len(),
        scope_depth(*old(st)) > 0,
    ensures
        r matches Ok(v) ==> pos < v.1 <= tokens@.len(),
        scope_depth(*final(st)) == scope_depth(*old(st)),
    decreases fuel,
{
    let n = tokens.len();
    if pos >= tokens.len() {
        return Err(err_at(tokens, pos, ErrorKind::SyntaxError, "expected a literal"));
    }
    let full = if cmd { tokens[pos].kind == TokenKind::CmdFull }
        else { tokens[pos].kind == TokenKind::StrFull };
    let start = if cmd { tokens[pos].kind == TokenKind::CmdStart }
        else { tokens[pos].kind == TokenKind::StrStart };
    let mut parts: Vec<TextPart> = Vec::new();
    parts.push(TextPart::Literal { chars: copy_chars(&tokens[pos].word) });
    if full {
        return Ok((parts, pos + 1));
    }
    if !start {
        return Err(err_at(tokens, pos, ErrorKind::SyntaxError, "expected a literal"));
    }
    if fuel == 0 {
        return Err(err_at(tokens, pos, ErrorKind::SyntaxError, "nesting too deep"));
    }
    let mut p = pos + 1;
    loop
        invariant
            pos < p <= tokens@.len(),
            scope_depth(*st) == scope_depth(*old(st)),
            scope_depth(*st) > 0,
        decreases tokens@.len() - p,
    {
        let parsed = parse_expr(tokens, p, st, fuel - 1);
        match parsed {
            Ok((e, p2)) => {
                parts.push(TextPart::Interp { expr: Box::new(e) });
                if p2 >= tokens.len() {
                    return Err(err_at(tokens, p2, ErrorKind::SyntaxError,
                        "unterminated interpolation"));
                }
                let k = tokens[p2].kind;
                let is_mid = if cmd { k == TokenKind::CmdMid } else { k == TokenKind::StrMid };
                let is_end = if cmd { k == TokenKind::CmdEnd } else { k == TokenKind::StrEnd };
                parts.push(TextPart::Literal { chars: copy_chars(&tokens[p2].word) });
                if is_end {
                    return Ok((parts, p2 + 1));
                }
                if !is_mid {
                    return Err(err_at(tokens, p2, ErrorKind::SyntaxError,
                        "unterminated interpolation"));
                }
                p = p2 + 1;
            }
            Err(e) => {
                return Err(e);
            }
        }
    }
}

/// Parse one atom: a literal, a variable read, a call, a command region,
/// or a parenthesized expression. Reading an undeclared variable fails
/// with `UndefinedVariable`, naming the identifier, before anything is
/// emitted. A number token parses to exactly a number node.
#[verifier::loop_isolation(false)]
fn parse_factor(tokens: &Vec<Token>, pos: usize, st: &mut ParserState, fuel: u64)
    -> (r: Result<(Expr, usize), CompileError>)
    requires
        pos <= tokens@.len(),
        scope_depth(*old(st)) > 0,
    ensures
        r matches Ok(v) ==> pos < v.1 <= tokens@.len(),
        scope_depth(*final(st)) == scope_depth(*old(st)),
        (pos < tokens@.len() && num_tok(tokens@[pos as int]))
            ==> (r matches Ok(v) ==> v.0 is Number && v.1 == pos + 1),
        (pos + 5 <= tokens@.len() && sym_is(tokens@[pos as int], "("@)
            && sum_tokens(tokens@, pos as int + 1)
            && sym_is(tokens@[pos as int + 4], ")"@))
            ==> (r matches Ok(v) ==> sum_of_numbers(v.0) && v.1 == pos + 5),
        (variable_read_tokens(tokens@, pos as int) && fuel > 0
            && spec_lookup(view_of(old(st).scope), tokens@[pos as int].word@) is None)
            ==> undeclared_variable_failure(r, tokens@[pos as int].word@),
        (truth_lit_tokens(tokens@, pos as int) && fuel > 0)
            ==> (r matches Ok(v) && v.0 matches Expr::BoolLit { truth: true } && v.1 == pos + 1),
    decreases fuel,
{
    let n = tokens.len();
    if fuel == 0 {
        return Err(err_at(tokens, pos, ErrorKind::SyntaxError, "nesting too deep"));
    }
    if pos >= tokens.len() {
        return Err(err_at(tokens, pos, ErrorKind::SyntaxError, "expected an expression"));
    }
    let kind = tokens[pos].kind;
    if kind == TokenKind::Number {
        match parse_i64(&tokens[pos].word) {
            Some(v) => Ok((Expr::Number { value: v }, pos + 1)),
            None => Err(err_at(tokens, pos, ErrorKind::SyntaxError, "number out of range")),
        }
    } else if kind == TokenKind::StrFull || kind == TokenKind::StrStart {
        let (parts, p) = match parse_region_parts(tokens, pos, st, fuel - 1, false) {
            Ok(v) => v,
            Err(e) => { return Err(e); }
        };
        Ok((Expr::TextLit { parts }, p))
    } else if kind == TokenKind::CmdFull || kind == TokenKind::CmdStart {
        let (parts, p) = match parse_region_parts(tokens, pos, st, fuel - 1, true) {
            Ok(v) => v,
            Err(e) => { return Err(e); }
        };
        Ok((Expr::Command { parts }, p))
    } else if kind == TokenKind::Symbol && chars_eq_str(&tokens[pos].word, "(") {
        let (e, p) = match parse_expr(tokens, pos + 1, st, fuel - 1) {
            Ok(v) => v,
            Err(e) => { return Err(e); }
        };
        let p2 = match expect_symbol(tokens, p, ")", "expected ')'") {
            Ok(v) => v,
            Err(e) => { return Err(e); }
        };
        Ok((e, p2))
    } else if kind == TokenKind::Word {
        if peek_word(tokens, pos, "true") {
            return Ok((Expr::BoolLit { truth: true }, pos + 1));
        }
        if peek_word(tokens, pos, "false") {
            return Ok((Expr::BoolLit { truth: false }, pos + 1));
        }
        if peek_symbol(tokens, pos + 1, "(") {
            return parse_call(tokens, pos, st, fuel - 1);
        }
        let name = copy_chars(&tokens[pos].word);
        match st.scope.lookup(&name) {
            Some(t) => Ok((Expr::Var { name, kind: t }, pos + 1)),
            None => Err(undefined_variable_error(&name, tokens[pos].row, tokens[pos].col)),
        }
    } else {
        Err(err_at(tokens, pos, ErrorKind::SyntaxError, "expected an expression"))
    }
}

/// Parse a call site and resolve its instance: compute the concrete
/// signature, reuse the instance that carries it, or parse the deferred
/// body now, under a fresh scope seeded with the parameter bindings.
#[verifier::loop_isolation(false)]
fn parse_call(tokens: &Vec<Token>, pos: usize, st: &mut ParserState, fuel: u64)
    -> (r: Result<(Expr, usize), CompileError>)
    requires
        pos < tokens@.len(),
        scope_depth(*old(st)) > 0,
    ensures
        r matches Ok(v) ==> pos < v.1 <= tokens@.len(),
        scope_depth(*final(st)) == scope_depth(*old(st)),
    decreases fuel,
{
    let n = tokens.len();
    if fuel == 0 {
        return Err(err_at(tokens, pos, ErrorKind::SyntaxError, "nesting too deep"));
    }
    let name = copy_chars(&tokens[pos].word);
    let row = tokens[pos].row;
    let col = tokens[pos].col;
    let mut p = match expect_symbol(tokens, pos + 1, "(", "expected '('") {
        Ok(v) => v,
        Err(e) => { return Err(e); }
    };
    let mut args: Vec<Expr> = Vec::new();
    if peek_symbol(tokens, p, ")") {
        p = p + 1;
    } else {
        loop
            invariant
                pos < p <= tokens@.len(),
                scope_depth(*st) == scope_depth(*old(st)),
                scope_depth(*st) > 0,
            decreases tokens@.len() - p,
        {
            let (e, p2) = match parse_expr(tokens, p, st, fuel - 1) {
                Ok(v) => v,
                Err(e) => { return Err(e); }
            };
            args.push(e);
            if peek_symbol(tokens, p2, ")") {
                p = p2 + 1;
                break;
            }
            p = match expect_symbol(tokens, p2, ",", "expected ',' or ')'") {
                Ok(v) => v,
                Err(e) => { return Err(e); }
            };
        }
    }
    // resolve the function
    let id = match st.registry.find_name(&name) {
        Some(id) => id,
        None => {
            let mut msg: Vec<char> = Vec::new();
            push_str_chars(&mut msg, "Function '");
            push_chars(&mut msg, &name);
            push_str_chars(&mut msg, "' does not exist");
            return Err(CompileError::new(ErrorKind::UndefinedFunction, row, col, &msg));
        }
    };
    let mut observed: Vec<Type> = Vec::new();
    let mut ai: usize = 0;
    while ai < args.len()
        invariant
            ai <= args.len(),
            observed.len() == ai,
        decreases args.len() - ai,
    {
        observed.push(args[ai].type_of());
        ai = ai + 1;
    }
    if st.registry.funs[id].arg_types.len() != observed.len() {
        return Err(err_at(tokens, pos, ErrorKind::ArgumentCountMismatch,
            "wrong number of arguments"));
    }
    let declared = copy_types(&st.registry.funs[id].arg_types);
    let sig = match unify_signature(&declared, &observed) {
        Some(sig) => sig,
        None => {
            return Err(err_at(tokens, pos, ErrorKind::ArgumentTypeMismatch,
                "argument types do not match the declaration"));
        }
    };
    let ret_type = st.registry.funs[id].ret_type;
    let instance = match st.registry.find_instance(id, &sig) {
        Some(k) => k,
        None => {
            match instantiate(st, id, sig, fuel - 1) {
                Ok(k) => k,
                Err(e) => { return Err(e); }
            }
        }
    };
    Ok((Expr::Call { name, fun_id: id, instance, kind: ret_type, args }, p))
}

#[verifier::loop_isolation(false)]
fn copy_types(v: &Vec<Type>) -> (r: Vec<Type>)
    ensures
        r@ == v@,
{
    let mut r: Vec<Type> = Vec::new();
    let mut i: usize = 0;
    while i < v.len()
        invariant
            i <= v.len(),
            r@ =~= v@.subrange(0, i as int),
        decreases v.len() - i,
    {
        r.push(v[i]);
        i = i + 1;
        assert(r@ =~= v@.subrange(0, i as int));
    }
    proof {
        assert(r@ =~= v@);
    }
    r
}

#[verifier::loop_isolation(false)]
fn copy_tokens(v: &Vec<Token>) -> (r: Vec<Token>)
{
    let mut r: Vec<Token> = Vec::new();
    let mut i: usize = 0;
    while i < v.len()
        invariant
            i <= v.len(),
        decreases v.len() - i,
    {
        r.push(copy_token(&v[i]));
        i = i + 1;
    }
    r
}

/// Parse the deferred body of function `id` against the concrete signature
/// `sig`, append the new instance, and return its index. A body that fails
/// to parse is a `FunctionBodyParseError`, anchored at the declaration.
#[verifier::loop_isolation(false)]
fn instantiate(st: &mut ParserState, id: usize, sig: Vec<Type>, fuel: u64)
    -> (r: Result<usize, CompileError>)
    requires
        id < old(st).registry.funs@.len(),
        scope_depth(*old(st)) > 0,
    ensures
        scope_depth(*final(st)) == scope_depth(*old(st)),
    decreases fuel,
{
    if fuel == 0 {
        return Err(CompileError::new(ErrorKind::SyntaxError, 1, 1,
            &str_to_chars("nesting too deep")));
    }
    let span = copy_tokens(&st.registry.funs[id].body_span);
    let fname = copy_chars(&st.registry.funs[id].name);
    let decl_row = st.registry.funs[id].row;
    let decl_col = st.registry.funs[id].col;
    // a fresh scope holding exactly the parameter bindings
    let mut body_scope = SymbolTable::new();
    body_scope.push_scope();
    let mut i: usize = 0;
    while i < sig.len() && i < st.registry.funs[id].arg_names.len()
        invariant
            i <= sig@.len(),
            id < st.registry.funs@.len(),
            st.registry.funs@[id as int] == old(st).registry.funs@[id as int],
            view_of(body_scope).len() == 1,
            scope_depth(*st) == scope_depth(*old(st)),
        decreases sig@.len() - i,
    {
        let pname = copy_chars(&st.registry.funs[id].arg_names[i]);
        // parameter names are distinct or the declaration would not have
        // parsed; a duplicate here simply keeps the first binding
        let _ = body_scope.declare(&pname, sig[i], decl_row, decl_col);
        i = i + 1;
    }
    core::mem::swap(&mut st.scope, &mut body_scope);
    let parsed = parse_stmts_to_end(&span, st, fuel - 1);
    core::mem::swap(&mut st.scope, &mut body_scope);
    let body = match parsed {
        Ok(b) => b,
        Err(inner) => {
            let mut msg: Vec<char> = Vec::new();
            push_str_chars(&mut msg, "Failed to parse function declaration '");
            push_chars(&mut msg, &fname);
            push_str_chars(&mut msg, "'");
            match inner.message {
                Some(m) => {
                    push_str_chars(&mut msg, ": ");
                    let mchars = str_to_chars(m.as_str());
                    push_chars(&mut msg, &mchars);
                }
                None => {}
            }
            return Err(CompileError::new(ErrorKind::FunctionBodyParseError,
                decl_row, decl_col, &msg));
        }
    };
    if st.registry.funs.len() <= id {
        return Err(CompileError::new(ErrorKind::SyntaxError, decl_row, decl_col,
            &str_to_chars("registry invariant broken")));
    }
    let k = st.registry.funs[id].instances.len();
    match st.registry.find_instance(id, &sig) {
        Some(existing) => Ok(existing),
        None => {
            st.registry.push_instance(id, FunctionInstance { signature: sig, body });
            Ok(k)
        }
    }
}

/// Statement sequence over a whole token vector (a deferred body span or an
/// imported unit).
#[verifier::loop_isolation(false)]
fn parse_stmts_to_end(tokens: &Vec<Token>, st: &mut ParserState, fuel: u64)
    -> (r: Result<Block, CompileError>)
    requires
        scope_depth(*old(st)) > 0,
    ensures
        scope_depth(*final(st)) == scope_depth(*old(st)),
        (tokens@.len() == 0 && fuel >= 1)
            ==> (r matches Ok(b) && b.stmts@.len() == 0),
    decreases fuel,
{
    let n = tokens.len();
    if fuel == 0 {
        return Err(err_at(tokens, 0, ErrorKind::SyntaxError, "nesting too deep"));
    }
    let mut stmts: Vec<Stmt> = Vec::new();
    let mut p: usize = 0;
    while p < tokens.len()
        invariant
            p <= tokens@.len(),
            scope_depth(*st) == scope_depth(*old(st)),
            scope_depth(*st) > 0,
            tokens@.len() == 0 ==> stmts@.len() == 0,
        decreases tokens@.len() - p,
    {
        let (s, p2) = match parse_stmt(tokens, p, st, fuel - 1) {
            Ok(v) => v,
            Err(e) => { return Err(e); }
        };
        stmts.push(s);
        p = p2;
    }
    Ok(Block { stmts })
}

/// A braced block: `{` statements `}`, in its own scope frame. The frame is
/// popped on every exit path.
#[verifier::loop_isolation(false)]
fn parse_block(tokens: &Vec<Token>, pos: usize, st: &mut ParserState, fuel: u64)
    -> (r: Result<(Block, usize), CompileError>)
    requires
        pos <= tokens@.len(),
        scope_depth(*old(st)) > 0,
    ensures
        r matches Ok(v) ==> pos < v.1 <= tokens@.len(),
        scope_depth(*final(st)) == scope_depth(*old(st)),
    decreases fuel,
{
    let n = tokens.len();
    if fuel == 0 {
        return Err(err_at(tokens, pos, ErrorKind::SyntaxError, "nesting too deep"));
    }
    let mut p = match expect_symbol(tokens, pos, "{", "expected '{'") {
        Ok(v) => v,
        Err(e) => { return Err(e); }
    };
    st.scope.push_scope();
    let mut stmts: Vec<Stmt> = Vec::new();
    loop
        invariant
            pos < p <= tokens@.len(),
            scope_depth(*st) == scope_depth(*old(st)) + 1,
        decreases tokens@.len() - p,
    {
        if peek_symbol(tokens, p, "}") {
            st.scope.pop_scope();
            return Ok((Block { stmts }, p + 1));
        }
        if p >= tokens.len() {
            st.scope.pop_scope();
            return Err(err_at(tokens, p, ErrorKind::SyntaxError, "expected '}'"));
        }
        match parse_stmt(tokens, p, st, fuel - 1) {
            Ok((s, p2)) => {
                stmts.push(s);
                p = p2;
            }
            Err(e) => {
                st.scope.pop_scope();
                return Err(e);
            }
        }
    }
}

/// Multiplicative level: `* / %`, left associative.
#[verifier::loop_isolation(false)]
fn parse_term(tokens: &Vec<Token>, pos: usize, st: &mut ParserState, fuel: u64)
    -> (r: Result<(Expr, usize), CompileError>)
    requires
        pos <= tokens@.len(),
        scope_depth(*old(st)) > 0,
    ensures
        r matches Ok(v) ==> pos < v.1 <= tokens@.len(),
        scope_depth(*final(st)) == scope_depth(*old(st)),
        (pos < tokens@.len() && num_tok(tokens@[pos as int])
            && (pos + 1 < tokens@.len() ==> !mulop_tok(tokens@[pos as int + 1])))
            ==> (r matches Ok(v) ==> v.0 is Number && v.1 == pos + 1),
        product_tokens(tokens@, pos as int)
            ==> (r matches Ok(v) ==> product_of_numbers(v.0) && v.1 == pos + 3),
        paren_product_tokens(tokens@, pos as int)
            ==> (r matches Ok(v) ==> product_of_sum_expr(v.0) && v.1 == pos + 7),
        (variable_read_tokens(tokens@, pos as int) && fuel >= 2
            && spec_lookup(view_of(old(st).scope), tokens@[pos as int].word@) is None)
            ==> undeclared_variable_failure(r, tokens@[pos as int].word@),
        (truth_lit_tokens(tokens@, pos as int) && fuel >= 2)
            ==> (r matches Ok(v) && v.0 matches Expr::BoolLit { truth: true } && v.1 == pos + 1),
    decreases fuel,
{
    let n = tokens.len();
    if fuel == 0 {
        return Err(err_at(tokens, pos, ErrorKind::SyntaxError, "nesting too deep"));
    }
    proof {
        if paren_product_tokens(tokens@, pos as int) {
            reveal_strlit("+");
            reveal_strlit("-");
            reveal_strlit("*");
            reveal_strlit("/");
            reveal_strlit("%");
            reveal_strlit("==");
            reveal_strlit("!=");
            reveal_strlit(">");
            reveal_strlit("<");
            reveal_strlit(")");
            assert(")"@.len() == 1 && ")"@[0] == ')');
            assert("+"@.len() == 1 && "+"@[0] == '+');
            assert("-"@.len() == 1 && "-"@[0] == '-');
            assert("*"@.len() == 1 && "*"@[0] == '*');
            assert("/"@.len() == 1 && "/"@[0] == '/');
            assert("%"@.len() == 1 && "%"@[0] == '%');
            assert("=="@.len() == 2);
            assert("!="@.len() == 2);
            assert(">"@.len() == 1 && ">"@[0] == '>');
            assert("<"@.len() == 1 && "<"@[0] == '<');
            assert(!addop_tok(tokens@[pos as int + 4]));
            assert(!mulop_tok(tokens@[pos as int + 4]));
            assert(!cmpop_tok(tokens@[pos as int + 4]));
            assert(!ternary_kw(tokens@[pos as int + 4]));
            assert(sum_tokens(tokens@, pos as int + 1));
        }
    }
    let (mut e, mut p) = match parse_factor(tokens, pos, st, fuel - 1) {
        Ok(v) => v,
        Err(er) => { return Err(er); }
    };
    loop
        invariant
            pos < p <= tokens@.len(),
            scope_depth(*st) == scope_depth(*old(st)),
            scope_depth(*st) > 0,
            (pos < tokens@.len() && num_tok(tokens@[pos as int])
                && (pos + 1 < tokens@.len() ==> !mulop_tok(tokens@[pos as int + 1])))
                ==> (p == pos + 1 && e is Number),
            product_tokens(tokens@, pos as int)
                ==> ((p == pos + 1 && e is Number)
                    || (p == pos + 3 && product_of_numbers(e))),
            paren_product_tokens(tokens@, pos as int)
                ==> ((p == pos + 5 && sum_of_numbers(e))
                    || (p == pos + 7 && product_of_sum_expr(e))),
            (truth_lit_tokens(tokens@, pos as int) && fuel >= 2)
                ==> (p == pos + 1 && e matches Expr::BoolLit { truth: true }),
        decreases tokens@.len() - p,
    {
        let op = if peek_symbol(tokens, p, "*") { Some(BinopKind::Mul) }
            else if peek_symbol(tokens, p, "/") { Some(BinopKind::Div) }
            else if peek_symbol(tokens, p, "%") { Some(BinopKind::Mod) }
            else { None };
        match op {
            None => { return Ok((e, p)); }
            Some(op) => {
                let (rhs, p2) = match parse_factor(tokens, p + 1, st, fuel - 1) {
                    Ok(v) => v,
                    Err(er) => { return Err(er); }
                };
                let t = match binop_type(op, e.type_of(), rhs.type_of(), tokens, p) {
                    Ok(t) => t,
                    Err(er) => { return Err(er); }
                };
                e = Expr::Binop { op, kind: t, left: Box::new(e), right: Box::new(rhs) };
                p = p2;
            }
        }
    }
}

/// Additive level: `+ -`, left associative; `+` concatenates text.
#[verifier::loop_isolation(false)]
fn parse_additive(tokens: &Vec<Token>, pos: usize, st: &mut ParserState, fuel: u64)
    -> (r: Result<(Expr, usize), CompileError>)
    requires
        pos <= tokens@.len(),
        scope_depth(*old(st)) > 0,
    ensures
        r matches Ok(v) ==> pos < v.1 <= tokens@.len(),
        scope_depth(*final(st)) == scope_depth(*old(st)),
        sum_of_product_tokens(tokens@, pos as int)
            ==> (r matches Ok(v) ==> sum_of_product_expr(v.0) && v.1 == pos + 5),
        sum_tokens(tokens@, pos as int)
            ==> (r matches Ok(v) ==> sum_of_numbers(v.0) && v.1 == pos + 3),
        paren_product_tokens(tokens@, pos as int)
            ==> (r matches Ok(v) ==> product_of_sum_expr(v.0) && v.1 == pos + 7),
        (variable_read_tokens(tokens@, pos as int) && fuel >= 3
            && spec_lookup(view_of(old(st).scope), tokens@[pos as int].word@) is None)
            ==> undeclared_variable_failure(r, tokens@[pos as int].word@),
        (truth_lit_tokens(tokens@, pos as int) && fuel >= 3)
            ==> (r matches Ok(v) && v.0 matches Expr::BoolLit { truth: true } && v.1 == pos + 1),
    decreases fuel,
{
    let n = tokens.len();
    if fuel == 0 {
        return Err(err_at(tokens, pos, ErrorKind::SyntaxError, "nesting too deep"));
    }
    proof {
        if sum_tokens(tokens@, pos as int) {
            reveal_strlit("+");
            reveal_strlit("*");
            reveal_strlit("/");
            reveal_strlit("%");
            assert("+"@.len() == 1 && "+"@[0] == '+');
            assert("*"@.len() == 1 && "*"@[0] == '*');
            assert("/"@.len() == 1 && "/"@[0] == '/');
            assert("%"@.len() == 1 && "%"@[0] == '%');
            assert(!mulop_tok(tokens@[pos as int + 1]));
        }
        if sum_of_product_tokens(tokens@, pos as int) {
            reveal_strlit("+");
            reveal_strlit("*");
            reveal_strlit("/");
            reveal_strlit("%");
            assert("+"@.len() == 1 && "+"@[0] == '+');
            assert("*"@.len() == 1 && "*"@[0] == '*');
            assert("/"@.len() == 1 && "/"@[0] == '/');
            assert("%"@.len() == 1 && "%"@[0] == '%');
            assert("+"@ != "*"@ && "+"@ != "/"@ && "+"@ != "%"@);
            assert(!mulop_tok(tokens@[pos as int + 1]));
        }
    }
    let (mut e, mut p) = match parse_term(tokens, pos, st, fuel - 1) {
        Ok(v) => v,
        Err(er) => { return Err(er); }
    };
    loop
        invariant
            pos < p <= tokens@.len(),
            scope_depth(*st) == scope_depth(*old(st)),
            scope_depth(*st) > 0,
            sum_of_product_tokens(tokens@, pos as int)
                ==> ((p == pos + 1 && e is Number)
                    || (p == pos + 5 && sum_of_product_expr(e))),
            sum_tokens(tokens@, pos as int)
                ==> ((p == pos + 1 && e is Number)
                    || (p == pos + 3 && sum_of_numbers(e))),
            paren_product_tokens(tokens@, pos as int)
                ==> (p == pos + 7 && product_of_sum_expr(e)),
            (truth_lit_tokens(tokens@, pos as int) && fuel >= 3)
                ==> (p == pos + 1 && e matches Expr::BoolLit { truth: true }),
        decreases tokens@.len() - p,
    {
        let op = if peek_symbol(tokens, p, "+") { Some(BinopKind::Add) }
            else if peek_symbol(tokens, p, "-") { Some(BinopKind::Sub) }
            else { None };
        match op {
            None => { return Ok((e, p)); }
            Some(op) => {
                let (rhs, p2) = match parse_term(tokens, p + 1, st, fuel - 1) {
                    Ok(v) => v,
                    Err(er) => { return Err(er); }
                };
                let t = match binop_type(op, e.type_of(), rhs.type_of(), tokens, p) {
                    Ok(t) => t,
                    Err(er) => { return Err(er); }
                };
                e = Expr::Binop { op, kind: t, left: Box::new(e), right: Box::new(rhs) };
                p = p2;
            }
        }
    }
}

/// Comparison level: a single `== != > <` between additive operands.
#[verifier::loop_isolation(false)]
fn parse_cmp(tokens: &Vec<Token>, pos: usize, st: &mut ParserState, fuel: u64)
    -> (r: Result<(Expr, usize), CompileError>)
    requires
        pos <= tokens@.len(),
        scope_depth(*old(st)) > 0,
    ensures
        r matches Ok(v) ==> pos < v.1 <= tokens@.len(),
        scope_depth(*final(st)) == scope_depth(*old(st)),
        sum_of_product_tokens(tokens@, pos as int)
            ==> (r matches Ok(v) ==> sum_of_product_expr(v.0) && v.1 == pos + 5),
        sum_tokens(tokens@, pos as int)
            ==> (r matches Ok(v) ==> sum_of_numbers(v.0) && v.1 == pos + 3),
        paren_product_tokens(tokens@, pos as int)
            ==> (r matches Ok(v) ==> product_of_sum_expr(v.0) && v.1 == pos + 7),
        (variable_read_tokens(tokens@, pos as int) && fuel >= 4
            && spec_lookup(view_of(old(st).scope), tokens@[pos as int].word@) is None)
            ==> undeclared_variable_failure(r, tokens@[pos as int].word@),
        (truth_lit_tokens(tokens@, pos as int) && fuel >= 4)
            ==> (r matches Ok(v) && v.0 matches Expr::BoolLit { truth: true } && v.1 == pos + 1),
    decreases fuel,
{
    let n = tokens.len();
    if fuel == 0 {
        return Err(err_at(tokens, pos, ErrorKind::SyntaxError, "nesting too deep"));
    }
    let (e, p) = match parse_additive(tokens, pos, st, fuel - 1) {
        Ok(v) => v,
        Err(er) => { return Err(er); }
    };
    let op = if peek_symbol(tokens, p, "==") { Some(BinopKind::Eq) }
        else if peek_symbol(tokens, p, "!=") { Some(BinopKind::Neq) }
        else if peek_symbol(tokens, p, ">") { Some(BinopKind::Gt) }
        else if peek_symbol(tokens, p, "<") { Some(BinopKind::Lt) }
        else { None };
    match op {
        None => Ok((e, p)),
        Some(op) => {
            let (rhs, p2) = match parse_additive(tokens, p + 1, st, fuel - 1) {
                Ok(v) => v,
                Err(er) => { return Err(er); }
            };
            let t = match binop_type(op, e.type_of(), rhs.type_of(), tokens, p) {
                Ok(t) => t,
                Err(er) => { return Err(er); }
            };
            Ok((Expr::Binop { op, kind: t, left: Box::new(e), right: Box::new(rhs) }, p2))
        }
    }
}

/// Full expression: a comparison, optionally completed into a ternary
/// conditional by the two keyword-separated branches.
///
/// Operator precedence matches the conventional one; the last clause
/// states it for the canonical shape: for any three number literals,
/// `a + b * c` parses with the product grouped under the sum, and a
/// parenthesized `(a + b) * c` overrides that grouping (the parenthesis
/// path returns the inner expression as one atom).
#[verifier::loop_isolation(false)]
pub fn parse_expr(tokens: &Vec<Token>, pos: usize, st: &mut ParserState, fuel: u64)
    -> (r: Result<(Expr, usize), CompileError>)
    requires
        pos <= tokens@.len(),
        scope_depth(*old(st)) > 0,
    ensures
        r matches Ok(v) ==> pos < v.1 <= tokens@.len(),
        scope_depth(*final(st)) == scope_depth(*old(st)),
        sum_of_product_tokens(tokens@, pos as int)
            ==> (r matches Ok(v) ==> sum_of_product_expr(v.0) && v.1 == pos + 5),
        sum_tokens(tokens@, pos as int)
            ==> (r matches Ok(v) ==> sum_of_numbers(v.0) && v.1 == pos + 3),
        paren_product_tokens(tokens@, pos as int)
            ==> (r matches Ok(v) ==> product_of_sum_expr(v.0) && v.1 == pos + 7),
        (variable_read_tokens(tokens@, pos as int) && fuel >= 5
            && spec_lookup(view_of(old(st).scope), tokens@[pos as int].word@) is None)
            ==> undeclared_variable_failure(r, tokens@[pos as int].word@),
        (truth_lit_tokens(tokens@, pos as int) && fuel >= 5)
            ==> (r matches Ok(v) && v.0 matches Expr::BoolLit { truth: true } && v.1 == pos + 1),
    decreases fuel,
{
    let n = tokens.len();
    if fuel == 0 {
        return Err(err_at(tokens, pos, ErrorKind::SyntaxError, "nesting too deep"));
    }
    let (cond, p) = match parse_cmp(tokens, pos, st, fuel - 1) {
        Ok(v) => v,
        Err(er) => { return Err(er); }
    };
    if !peek_kw_ternary_open(tokens, p) {
        return Ok((cond, p));
    }
    let ct = cond.type_of();
    if ct != Type::Bool && ct != Type::Num {
        return Err(err_at(tokens, p, ErrorKind::TypeMismatch,
            "the condition must be a truth value"));
    }
    let (tv, p2) = match parse_cmp(tokens, p + 1, st, fuel - 1) {
        Ok(v) => v,
        Err(er) => { return Err(er); }
    };
    if !peek_word(tokens, p2, "else") {
        return Err(err_at(tokens, p2, ErrorKind::SyntaxError, "expected the other branch"));
    }
    let (fv, p3) = match parse_cmp(tokens, p2 + 1, st, fuel - 1) {
        Ok(v) => v,
        Err(er) => { return Err(er); }
    };
    let tt = tv.type_of();
    if tt != fv.type_of() {
        return Err(err_at(tokens, p2, ErrorKind::TypeMismatch,
            "both branches must produce one type"));
    }
    Ok((Expr::Ternary {
        kind: tt,
        cond: Box::new(cond),
        when_true: Box::new(tv),
        when_false: Box::new(fv),
    }, p3))
}

/// A branch body: either an arrow followed by a single statement, or a
/// braced block. Both run in their own scope frame.
#[verifier::loop_isolation(false)]
fn parse_branch(tokens: &Vec<Token>, pos: usize, st: &mut ParserState, fuel: u64)
    -> (r: Result<(Block, usize), CompileError>)
    requires
        pos <= tokens@.len(),
        scope_depth(*old(st)) > 0,
    ensures
        r matches Ok(v) ==> pos < v.1 <= tokens@.len(),
        scope_depth(*final(st)) == scope_depth(*old(st)),
    decreases fuel,
{
    let n = tokens.len();
    if fuel == 0 {
        return Err(err_at(tokens, pos, ErrorKind::SyntaxError, "nesting too deep"));
    }
    if peek_symbol(tokens, pos, "=>") {
        st.scope.push_scope();
        let parsed = parse_stmt(tokens, pos + 1, st, fuel - 1);
        st.scope.pop_scope();
        match parsed {
            Ok((s, p)) => {
                let mut stmts: Vec<Stmt> = Vec::new();
                stmts.push(s);
                Ok((Block { stmts }, p))
            }
            Err(e) => Err(e),
        }
    } else {
        parse_block(tokens, pos, st, fuel - 1)
    }
}

fn check_cond_type(e: &Expr, tokens: &Vec<Token>, pos: usize) -> (r: Result<(), CompileError>)
    requires
        pos <= tokens@.len(),
{
    let t = e.type_of();
    if t == Type::Bool || t == Type::Num {
        Ok(())
    } else {
        Err(err_at(tokens, pos, ErrorKind::TypeMismatch, "the condition must be a truth value"))
    }
}

/// A conditional statement: the braced chain form, the single-line arrow
/// form, or the plain block form, all yielding the same node shape.
#[verifier::loop_isolation(false)]
fn parse_if(tokens: &Vec<Token>, pos: usize, st: &mut ParserState, fuel: u64)
    -> (r: Result<(Stmt, usize), CompileError>)
    requires
        pos < tokens@.len(),
        scope_depth(*old(st)) > 0,
    ensures
        r matches Ok(v) ==> pos < v.1 <= tokens@.len(),
        scope_depth(*final(st)) == scope_depth(*old(st)),
    decreases fuel,
{
    let n = tokens.len();
    if fuel == 0 {
        return Err(err_at(tokens, pos, ErrorKind::SyntaxError, "nesting too deep"));
    }
    let mut p = pos + 1;
    if peek_symbol(tokens, p, "{") {
        // chain form: conditions with branches, optionally closed by an
        // `else` branch, inside one set of braces
        p = p + 1;
        let mut conds: Vec<Expr> = Vec::new();
        let mut blocks: Vec<Block> = Vec::new();
        let mut else_b: Option<Block> = None;
        loop
            invariant
                pos < p <= tokens@.len(),
                scope_depth(*st) == scope_depth(*old(st)),
                scope_depth(*st) > 0,
                conds@.len() == blocks@.len(),
            decreases tokens@.len() - p,
        {
            if peek_symbol(tokens, p, "}") {
                p = p + 1;
                break;
            }
            if p >= tokens.len() {
                return Err(err_at(tokens, p, ErrorKind::SyntaxError, "expected '}'"));
            }
            if peek_word(tokens, p, "else") {
                let (b, p2) = match parse_branch(tokens, p + 1, st, fuel - 1) {
                    Ok(v) => v,
                    Err(e) => { return Err(e); }
                };
                else_b = Some(b);
                p = p2;
            } else {
                let (c, pc) = match parse_expr(tokens, p, st, fuel - 1) {
                    Ok(v) => v,
                    Err(e) => { return Err(e); }
                };
                match check_cond_type(&c, tokens, p) {
                    Ok(()) => {}
                    Err(e) => { return Err(e); }
                }
                let (b, p2) = match parse_branch(tokens, pc, st, fuel - 1) {
                    Ok(v) => v,
                    Err(e) => { return Err(e); }
                };
                conds.push(c);
                blocks.push(b);
                p = p2;
            }
        }
        if conds.len() == 0 {
            return Err(err_at(tokens, pos, ErrorKind::SyntaxError, "expected a condition"));
        }
        // fold the chain, last condition first
        let mut acc = else_b;
        while conds.len() > 1
            invariant
                conds@.len() == blocks@.len(),
                conds@.len() >= 1,
            decreases conds@.len(),
        {
            let c = conds.pop().unwrap();
            let b = blocks.pop().unwrap();
            let mut stmts: Vec<Stmt> = Vec::new();
            stmts.push(Stmt::If { cond: c, then_block: b, else_block: acc });
            acc = Some(Block { stmts });
        }
        let c = conds.pop().unwrap();
        let b = blocks.pop().unwrap();
        Ok((Stmt::If { cond: c, then_block: b, else_block: acc }, p))
    } else {
        let (c, pc) = match parse_expr(tokens, p, st, fuel - 1) {
            Ok(v) => v,
            Err(e) => { return Err(e); }
        };
        match check_cond_type(&c, tokens, p) {
            Ok(()) => {}
            Err(e) => { return Err(e); }
        }
        let (then_block, p2) = match parse_branch(tokens, pc, st, fuel - 1) {
            Ok(v) => v,
            Err(e) => { return Err(e); }
        };
        if peek_word(tokens, p2, "else") {
            let (eb, p3) = match parse_branch(tokens, p2 + 1, st, fuel - 1) {
                Ok(v) => v,
                Err(e) => { return Err(e); }
            };
            Ok((Stmt::If { cond: c, then_block, else_block: Some(eb) }, p3))
        } else {
            Ok((Stmt::If { cond: c, then_block, else_block: None }, p2))
        }
    }
}

/// Attach the enclosing declaration's name to a failure inside it, keeping
/// the inner failure's kind and source position: diagnostics stay
/// hierarchical and are never silently swallowed.
fn wrap_decl_error(name: &Vec<char>, inner: CompileError) -> (r: CompileError)
    ensures
        r.kind == inner.kind,
        r.row == inner.row,
        r.col == inner.col,
        r.message is Some,
{
    let mut msg: Vec<char> = Vec::new();
    push_str_chars(&mut msg, "Failed to parse function declaration '");
    push_chars(&mut msg, name);
    push_str_chars(&mut msg, "'");
    match inner.message {
        Some(m) => {
            push_str_chars(&mut msg, ": ");
            let mchars = str_to_chars(m.as_str());
            push_chars(&mut msg, &mchars);
        }
        None => {}
    }
    CompileError::new(inner.kind, inner.row, inner.col, &msg)
}

/// A function declaration: header now, body deferred. On success the
/// registry gains exactly one record — the declared name, the visibility
/// of the leading keyword, parameters paired with their annotated types,
/// the recorded body span, and no instances yet — and everything already
/// registered is untouched. The body's token span is recorded without
/// analysis, because generic parameters keep it from being type-checked
/// until concrete call-site types are known. Once parsing has committed
/// past the name, failures carry the declaration's name as context.
#[verifier::loop_isolation(false)]
fn parse_fun_decl(tokens: &Vec<Token>, pos: usize, st: &mut ParserState, fuel: u64)
    -> (r: Result<(Stmt, usize), CompileError>)
    requires
        pos < tokens@.len(),
        scope_depth(*old(st)) > 0,
    ensures
        r matches Ok(v) ==> pos < v.1 <= tokens@.len(),
        scope_depth(*final(st)) == scope_depth(*old(st)),
        r matches Ok(v) ==> ({
            let ni = decl_name_index(tokens@, pos as int);
            let u = final(st).registry.funs@.last();
            &&& final(st).registry.funs@.len() == old(st).registry.funs@.len() + 1
            &&& (forall|j: int| 0 <= j < old(st).registry.funs@.len()
                    ==> final(st).registry.funs@[j] == old(st).registry.funs@[j])
            &&& (v.0 matches Stmt::FunDecl { id } && id == old(st).registry.funs@.len())
            &&& ni < tokens@.len()
            &&& u.name@ == tokens@[ni].word@
            &&& u.is_public == decl_is_public(tokens@, pos as int)
            &&& u.instances@.len() == 0
            &&& u.arg_names@.len() == u.arg_types@.len()
            &&& !(exists|i: int| 0 <= i < names_of(old(st).registry).len()
                    && names_of(old(st).registry)[i] == u.name@)
            // an omitted return annotation defaults to Text, and an
            // unannotated parameter stays generic until instantiation
            &&& (decl_no_params(tokens@, pos as int)
                    ==> u.arg_names@.len() == 0 && u.ret_type == Type::Text)
            &&& (decl_one_plain_param(tokens@, pos as int)
                    ==> u.arg_types@ == seq![Type::Generic]
                        && u.arg_names@.len() == 1
                        && u.arg_names@[0]@ == tokens@[ni + 2].word@
                        && u.ret_type == Type::Text)
            &&& exists|a: int, b: int| recorded_span(tokens@, u, a, b) && v.1 == b + 1
        }),
        r matches Err(e) ==> (e.kind == ErrorKind::DuplicateFunction ==> ({
            let ni = decl_name_index(tokens@, pos as int);
            ni < tokens@.len() && exists|i: int| 0 <= i < names_of(old(st).registry).len()
                && names_of(old(st).registry)[i] == tokens@[ni].word@
        })),
    decreases fuel,
{
    let n = tokens.len();
    if fuel == 0 {
        return Err(err_at(tokens, pos, ErrorKind::SyntaxError, "nesting too deep"));
    }
    let mut p = pos;
    let is_public = peek_word(tokens, p, "pub");
    if is_public {
        p = p + 1;
    }
    if !peek_word(tokens, p, "fun") {
        return Err(err_at(tokens, p, ErrorKind::SyntaxError, "expected a function declaration"));
    }
    p = p + 1;
    if !(p < tokens.len() && tokens[p].kind == TokenKind::Word) {
        return Err(err_at(tokens, p, ErrorKind::SyntaxError, "expected a function name"));
    }
    let name = copy_chars(&tokens[p].word);
    let row = tokens[p].row;
    let col = tokens[p].col;
    if name.len() >= 2 && name[0] == '_' && name[1] == '_' {
        // the double-underscore prefix is reserved for instance names
        return Err(err_at(tokens, p, ErrorKind::SyntaxError,
            "a function name may not begin with the reserved prefix"));
    }
    if st.registry.has_name(&name) {
        let mut msg: Vec<char> = Vec::new();
        push_str_chars(&mut msg, "Function '");
        push_chars(&mut msg, &name);
        push_str_chars(&mut msg, "' is already defined");
        return Err(CompileError::new(ErrorKind::DuplicateFunction, row, col, &msg));
    }
    p = p + 1;
    proof {
        if decl_no_params(tokens@, pos as int) || decl_one_plain_param(tokens@, pos as int) {
            reveal_strlit("(");
            reveal_strlit(")");
            reveal_strlit("{");
            reveal_strlit(":");
            reveal_strlit(",");
            assert("("@.len() == 1 && "("@[0] == '(');
            assert(")"@.len() == 1 && ")"@[0] == ')');
            assert("{"@.len() == 1 && "{"@[0] == '{');
            assert(":"@.len() == 1 && ":"@[0] == ':');
            assert(","@.len() == 1 && ","@[0] == ',');
        }
    }
    p = match expect_symbol(tokens, p, "(", "expected '('") {
        Ok(v) => v,
        Err(e) => { return Err(wrap_decl_error(&name, e)); }
    };
    let mut arg_names: Vec<Vec<char>> = Vec::new();
    let mut arg_types: Vec<Type> = Vec::new();
    if peek_symbol(tokens, p, ")") {
        p = p + 1;
    } else {
        loop
            invariant
                pos < p <= tokens@.len(),
                arg_names@.len() == arg_types@.len(),
                decl_one_plain_param(tokens@, pos as int) ==> ({
                    let ni = decl_name_index(tokens@, pos as int);
                    ||| (p == ni + 2 && arg_names@.len() == 0)
                    ||| (p == ni + 4 && arg_types@ == seq![Type::Generic]
                            && arg_names@.len() == 1
                            && arg_names@[0]@ == tokens@[ni + 2].word@)
                }),
            decreases tokens@.len() - p,
        {
            if !(p < tokens.len() && tokens[p].kind == TokenKind::Word) {
                return Err(wrap_decl_error(&name, err_at(tokens, p, ErrorKind::SyntaxError,
                    "expected a parameter name")));
            }
            let an = copy_chars(&tokens[p].word);
            p = p + 1;
            if peek_symbol(tokens, p, ":") {
                let (t, p2) = match parse_type(tokens, p + 1) {
                    Ok(v) => v,
                    Err(e) => { return Err(wrap_decl_error(&name, e)); }
                };
                arg_names.push(an);
                arg_types.push(t);
                p = p2;
            } else {
                arg_names.push(an);
                arg_types.push(Type::Generic);
                proof {
                    if decl_one_plain_param(tokens@, pos as int)
                        && arg_types@.len() == 1 {
                        assert(arg_types@ =~= seq![Type::Generic]);
                    }
                }
            }
            if peek_symbol(tokens, p, ")") {
                p = p + 1;
                break;
            }
            p = match expect_symbol(tokens, p, ",", "expected ',' or ')'") {
                Ok(v) => v,
                Err(e) => { return Err(wrap_decl_error(&name, e)); }
            };
        }
    }
    let ret_type = if peek_symbol(tokens, p, ":") {
        let (t, p2) = match parse_type(tokens, p + 1) {
            Ok(v) => v,
            Err(e) => { return Err(wrap_decl_error(&name, e)); }
        };
        p = p2;
        t
    } else {
        Type::Text
    };
    p = match expect_symbol(tokens, p, "{", "expected '{'") {
        Ok(v) => v,
        Err(e) => { return Err(wrap_decl_error(&name, e)); }
    };
    // record the body span without analyzing it
    let ghost span_start = p as int;
    let mut span: Vec<Token> = Vec::new();
    let mut depth: usize = 1;
    loop
        invariant
            pos < p <= tokens@.len(),
            1 <= depth <= 100000,
            span_start <= p as int,
            span@.len() == p - span_start,
            forall|j: int| 0 <= j < span@.len()
                ==> token_like(#[trigger] span@[j], tokens@[span_start + j]),
        decreases tokens@.len() - p,
    {
        if p >= tokens.len() {
            return Err(wrap_decl_error(&name, err_at(tokens, p, ErrorKind::SyntaxError,
                "expected '}'")));
        }
        if tokens[p].kind == TokenKind::Symbol && chars_eq_str(&tokens[p].word, "{") {
            if depth >= 100000 {
                return Err(wrap_decl_error(&name, err_at(tokens, p, ErrorKind::SyntaxError,
                    "nesting too deep")));
            }
            depth = depth + 1;
        } else if tokens[p].kind == TokenKind::Symbol && chars_eq_str(&tokens[p].word, "}") {
            depth = depth - 1;
            if depth == 0 {
                p = p + 1;
                break;
            }
        }
        span.push(copy_token(&tokens[p]));
        p = p + 1;
    }
    // the loop only leaves at a closing brace; make the fact explicit
    if !(p >= 1 && p - 1 < tokens.len() && tokens[p - 1].kind == TokenKind::Symbol
        && chars_eq_str(&tokens[p - 1].word, "}"))
    {
        return Err(wrap_decl_error(&name, err_at(tokens, p, ErrorKind::SyntaxError,
            "expected '}'")));
    }
    let unit = FunctionDeclaration {
        name, arg_names, arg_types, ret_type,
        body_span: span, is_public, row, col,
        instances: Vec::new(),
    };
    let ghost gu = unit;
    proof {
        assert(recorded_span(tokens@, gu, span_start, p - 1));
    }
    match st.registry.add_function(unit) {
        Ok(id) => Ok((Stmt::FunDecl { id }, p)),
        Err(e) => Err(e),
    }
}

/// An import site: the named unit's declarations are merged into the
/// registry before anything after the import is parsed, so every imported
/// function is registered before the first reference to it resolves.
#[verifier::loop_isolation(false)]
fn parse_import(tokens: &Vec<Token>, pos: usize, st: &mut ParserState, fuel: u64)
    -> (r: Result<(Stmt, usize), CompileError>)
    requires
        pos < tokens@.len(),
        scope_depth(*old(st)) > 0,
    ensures
        r matches Ok(v) ==> pos < v.1 <= tokens@.len(),
        scope_depth(*final(st)) == scope_depth(*old(st)),
    decreases fuel,
{
    let n = tokens.len();
    if fuel == 0 {
        return Err(err_at(tokens, pos, ErrorKind::SyntaxError, "nesting too deep"));
    }
    let mut p = match expect_symbol(tokens, pos + 1, "*", "expected '*'") {
        Ok(v) => v,
        Err(e) => { return Err(e); }
    };
    if !peek_word(tokens, p, "from") {
        return Err(err_at(tokens, p, ErrorKind::SyntaxError, "expected the source path"));
    }
    p = p + 1;
    if !(p < tokens.len() && tokens[p].kind == TokenKind::StrFull) {
        return Err(err_at(tokens, p, ErrorKind::SyntaxError, "expected the source path"));
    }
    let path = copy_chars(&tokens[p].word);
    let mut source: Option<Vec<char>> = None;
    let mut i: usize = 0;
    while i < st.modules.len()
        invariant
            i <= st.modules@.len(),
        decreases st.modules@.len() - i,
    {
        if chars_eq(&st.modules[i].path, &path) {
            source = Some(copy_chars(&st.modules[i].source));
            break;
        }
        i = i + 1;
    }
    let source = match source {
        Some(s) => s,
        None => {
            let mut msg: Vec<char> = Vec::new();
            push_str_chars(&mut msg, "Cannot import module '");
            push_chars(&mut msg, &path);
            push_str_chars(&mut msg, "'");
            return Err(CompileError::new(ErrorKind::SyntaxError,
                tokens[p].row, tokens[p].col, &msg));
        }
    };
    let toks = match tokenize(&source) {
        Ok(t) => t,
        Err(e) => { return Err(e); }
    };
    let first_id = st.registry.funs.len();
    // parse the unit under its own scope; its declarations land in the
    // shared registry, its top-level statements emit nothing here
    let mut unit_scope = SymbolTable::new();
    unit_scope.push_scope();
    core::mem::swap(&mut st.scope, &mut unit_scope);
    let parsed = parse_stmts_to_end(&toks, st, fuel - 1);
    core::mem::swap(&mut st.scope, &mut unit_scope);
    match parsed {
        Ok(_) => {
            let last_id = st.registry.funs.len();
            Ok((Stmt::Import { first_id, last_id }, p + 1))
        }
        Err(e) => Err(e),
    }
}

/// A word that opens no other statement form, so it can only begin an
/// assignment or an expression; the statement keywords are all distinct
/// from it.
pub open spec fn plain_word_at(toks: Seq<Token>, pos: int, w: Seq<char>) -> bool {
    0 <= pos < toks.len() && toks[pos].kind == TokenKind::Word && toks[pos].word@ == w
}

/// One statement, dispatched on its leading token. The loop-control words
/// always succeed as their one-token statements, and an echo of a lone
/// truth literal always succeeds: a body that always fails cannot meet
/// this contract.
#[verifier::loop_isolation(false)]
pub fn parse_stmt(tokens: &Vec<Token>, pos: usize, st: &mut ParserState, fuel: u64)
    -> (r: Result<(Stmt, usize), CompileError>)
    requires
        pos <= tokens@.len(),
        scope_depth(*old(st)) > 0,
    ensures
        r matches Ok(v) ==> pos < v.1 <= tokens@.len(),
        scope_depth(*final(st)) == scope_depth(*old(st)),
        (plain_word_at(tokens@, pos as int, "break"@) && fuel >= 1)
            ==> (r matches Ok(v) && v.0 is Break && v.1 == pos + 1),
        (plain_word_at(tokens@, pos as int, "continue"@) && fuel >= 1)
            ==> (r matches Ok(v) && v.0 is Continue && v.1 == pos + 1),
        (plain_word_at(tokens@, pos as int, "echo"@)
            && truth_lit_tokens(tokens@, pos as int + 1) && fuel >= 7)
            ==> (r matches Ok(v) && v.0 is Echo && v.1 == pos + 2),
    decreases fuel,
{
    let n = tokens.len();
    proof {
        if pos < tokens@.len() && tokens@[pos as int].kind == TokenKind::Word {
            reveal_strlit("let");
            reveal_strlit("fun");
            reveal_strlit("pub");
            reveal_strlit("echo");
            reveal_strlit("if");
            reveal_strlit("loop");
            reveal_strlit("break");
            reveal_strlit("continue");
            reveal_strlit("import");
            assert("let"@.len() == 3);
            assert("fun"@.len() == 3);
            assert("pub"@.len() == 3);
            assert("echo"@.len() == 4);
            assert("if"@.len() == 2);
            assert("loop"@.len() == 4);
            assert("break"@.len() == 5);
            assert("continue"@.len() == 8);
            assert("import"@.len() == 6);
        }
    }
    if fuel == 0 {
        return Err(err_at(tokens, pos, ErrorKind::SyntaxError, "nesting too deep"));
    }
    if pos >= tokens.len() {
        return Err(err_at(tokens, pos, ErrorKind::SyntaxError, "expected a statement"));
    }
    let kind = tokens[pos].kind;
    if kind == TokenKind::CmdFull || kind == TokenKind::CmdStart {
        let (parts, p) = match parse_region_parts(tokens, pos, st, fuel - 1, true) {
            Ok(v) => v,
            Err(e) => { return Err(e); }
        };
        return Ok((Stmt::CommandStmt { parts }, p));
    }
    if kind != TokenKind::Word {
        return Err(err_at(tokens, pos, ErrorKind::SyntaxError, "expected a statement"));
    }
    if peek_word(tokens, pos, "let") {
        let p = pos + 1;
        if !(p < tokens.len() && tokens[p].kind == TokenKind::Word) {
            return Err(err_at(tokens, p, ErrorKind::SyntaxError, "expected a variable name"));
        }
        let name = copy_chars(&tokens[p].word);
        let row = tokens[p].row;
        let col = tokens[p].col;
        let p2 = match expect_symbol(tokens, p + 1, "=", "expected '='") {
            Ok(v) => v,
            Err(e) => { return Err(e); }
        };
        let (e, p3) = match parse_expr(tokens, p2, st, fuel - 1) {
            Ok(v) => v,
            Err(er) => { return Err(er); }
        };
        match st.scope.declare(&name, e.type_of(), row, col) {
            Ok(()) => {}
            Err(er) => { return Err(er); }
        }
        return Ok((Stmt::Let { name, expr: e }, p3));
    }
    if peek_word(tokens, pos, "fun") || (peek_word(tokens, pos, "pub")
        && peek_word(tokens, pos + 1, "fun"))
    {
        return parse_fun_decl(tokens, pos, st, fuel - 1);
    }
    if peek_word(tokens, pos, "echo") {
        let (e, p) = match parse_expr(tokens, pos + 1, st, fuel - 1) {
            Ok(v) => v,
            Err(er) => { return Err(er); }
        };
        return Ok((Stmt::Echo { expr: e }, p));
    }
    if peek_word(tokens, pos, "if") {
        return parse_if(tokens, pos, st, fuel - 1);
    }
    if peek_word(tokens, pos, "loop") {
        let (b, p) = match parse_block(tokens, pos + 1, st, fuel - 1) {
            Ok(v) => v,
            Err(e) => { return Err(e); }
        };
        return Ok((Stmt::Loop { body: b }, p));
    }
    if peek_word(tokens, pos, "break") {
        return Ok((Stmt::Break, pos + 1));
    }
    if peek_word(tokens, pos, "continue") {
        return Ok((Stmt::Continue, pos + 1));
    }
    if peek_word(tokens, pos, "import") {
        return parse_import(tokens, pos, st, fuel - 1);
    }
    // an assignment or compound assignment to an existing variable
    let name = copy_chars(&tokens[pos].word);
    let row = tokens[pos].row;
    let col = tokens[pos].col;
    let shorthand = if peek_symbol(tokens, pos + 1, "=") { None }
        else if peek_symbol(tokens, pos + 1, "+=") { Some(BinopKind::Add) }
        else if peek_symbol(tokens, pos + 1, "-=") { Some(BinopKind::Sub) }
        else if peek_symbol(tokens, pos + 1, "*=") { Some(BinopKind::Mul) }
        else if peek_symbol(tokens, pos + 1, "/=") { Some(BinopKind::Div) }
        else if peek_symbol(tokens, pos + 1, "%=") { Some(BinopKind::Mod) }
        else {
            return Err(err_at(tokens, pos, ErrorKind::SyntaxError, "expected a statement"));
        };
    let (e, p) = match parse_expr(tokens, pos + 2, st, fuel - 1) {
        Ok(v) => v,
        Err(er) => { return Err(er); }
    };
    match shorthand {
        None => {
            match st.scope.assign(&name, e.type_of(), row, col) {
                Ok(()) => {}
                Err(er) => { return Err(er); }
            }
            Ok((Stmt::Assign { name, expr: e }, p))
        }
        Some(op) => {
            let vt = match st.scope.lookup(&name) {
                Some(t) => t,
                None => { return Err(undefined_variable_error(&name, row, col)); }
            };
            let kind = match binop_type(op, vt, e.type_of(), tokens, pos) {
                Ok(t) => t,
                Err(er) => { return Err(er); }
            };
            match st.scope.assign(&name, kind, row, col) {
                Ok(()) => {}
                Err(er) => { return Err(er); }
            }
            // record the statement with the right side of the equivalent
            // plain assignment `x = x <op> e`
            let full = Expr::Binop {
                op,
                kind,
                left: Box::new(Expr::Var { name: copy_chars(&name), kind: vt }),
                right: Box::new(e),
            };
            Ok((Stmt::Shorthand { name, op, expr: full }, p))
        }
    }
}

/// The compiler's parse entry: the whole token stream to a block, under a
/// single root scope frame.
#[verifier::loop_isolation(false)]
pub fn parse_program(tokens: &Vec<Token>, st: &mut ParserState, fuel: u64)
    -> (r: Result<Block, CompileError>)
    ensures
        scope_depth(*final(st)) == scope_depth(*old(st)),
        (tokens@.len() == 0 && fuel >= 1)
            ==> (r matches Ok(b) && b.stmts@.len() == 0),
{
    st.scope.push_scope();
    let parsed = parse_stmts_to_end(tokens, st, fuel);
    st.scope.pop_scope();
    parsed
}

} // verus!
