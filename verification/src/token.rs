//! The token stream. The lexer turns source characters into tokens with
//! stable source positions, sufficient to reconstruct line and column for
//! any diagnostic. Text and command regions may hold interpolated
//! expressions, so a region is emitted as a chain of chunk tokens whose
//! kinds say whether an interpolation follows or the region closed.

use vstd::prelude::*;
use crate::error::{CompileError, ErrorKind};
use crate::text::{bump, str_to_chars};

verus! {

#[derive(Clone, Copy, Debug, PartialEq, Eq, Structural)]
pub enum TokenKind {
    /// An identifier or keyword.
    Word,
    /// An unsigned integer literal.
    Number,
    /// An operator or punctuation mark.
    Symbol,
    /// A whole text literal without interpolation.
    StrFull,
    /// The opening chunk of a text literal, before an interpolation.
    StrStart,
    /// A middle chunk of a text literal, between two interpolations.
    StrMid,
    /// The closing chunk of a text literal, after an interpolation.
    StrEnd,
    /// A whole command region without interpolation.
    CmdFull,
    /// The opening chunk of a command region, before an interpolation.
    CmdStart,
    /// A middle chunk of a command region, between two interpolations.
    CmdMid,
    /// The closing chunk of a command region, after an interpolation.
    CmdEnd,
}

#[derive(Debug)]
pub struct Token {
    pub kind: TokenKind,
    pub word: Vec<char>,
    pub row: usize,
    pub col: usize,
}

/// What kind of region a pending interpolation must resume into.
#[derive(Clone, Copy, Debug, PartialEq, Eq, Structural)]
enum PendingRegion {
    TextRegion,
    CommandRegion,
}

fn syntax_error(row: usize, col: usize, what: &str) -> (r: CompileError)
    ensures
        r.kind == ErrorKind::SyntaxError,
{
    let msg = str_to_chars(what);
    CompileError::new(ErrorKind::SyntaxError, row, col, &msg)
}

spec fn is_ident_start(c: char) -> bool {
    c == '_' || ('a' <= c && c <= 'z') || ('A' <= c && c <= 'Z')
}

spec fn is_ident_char(c: char) -> bool {
    is_ident_start(c) || ('0' <= c && c <= '9')
}

fn ident_start(c: char) -> (r: bool)
    ensures
        r == is_ident_start(c),
{
    c == '_' || ('a' <= c && c <= 'z') || ('A' <= c && c <= 'Z')
}

fn ident_char(c: char) -> (r: bool)
    ensures
        r == is_ident_char(c),
{
    ident_start(c) || ('0' <= c && c <= '9')
}

fn digit(c: char) -> (r: bool)
    ensures
        r == ('0' <= c && c <= '9'),
{
    '0' <= c && c <= '9'
}

/// Scan a text or command region from `start` until its terminator or an
/// opening interpolation brace. Returns the chunk, the index just past the
/// stopping character, and whether an interpolation follows.
fn scan_region(src: &Vec<char>, start: usize, term: char, row: usize, col: usize)
    -> (r: Result<(Vec<char>, usize, bool), CompileError>)
    requires
        start <= src.len(),
    ensures
        r matches Ok(v) ==> start < v.1 && v.1 <= src.len(),
{
    let mut chunk: Vec<char> = Vec::new();
    let mut j = start;
    while j < src.len()
        invariant
            start <= j <= src.len(),
        decreases src.len() - j,
    {
        let c = src[j];
        if c == term {
            return Ok((chunk, j + 1, false));
        }
        if c == '{' {
            return Ok((chunk, j + 1, true));
        }
        chunk.push(c);
        j = j + 1;
    }
    Err(syntax_error(row, col, "unterminated region"))
}

/// Lexical analysis: source characters to a token stream. Statement
/// separators (newlines and semicolons) and comments carry no information
/// for this grammar and are dropped; positions are recorded per token.
pub fn tokenize(src: &Vec<char>) -> (r: Result<Vec<Token>, CompileError>)
    ensures
        src@.len() == 0 ==> (r matches Ok(v) && v@.len() == 0),
{
    let n = src.len();
    let mut tokens: Vec<Token> = Vec::new();
    let mut pending: Vec<PendingRegion> = Vec::new();
    let mut i: usize = 0;
    let mut row: usize = 1;
    let mut col: usize = 1;
    while i < n
        invariant
            i <= n,
            n == src.len(),
            n == 0 ==> tokens@.len() == 0,
        decreases n - i,
    {
        let c = src[i];
        if c == '\n' {
            i = i + 1;
            row = bump(row);
            col = 1;
        } else if c == ' ' || c == '\t' || c == '\r' || c == ';' {
            i = i + 1;
            col = bump(col);
        } else if c == '#' {
            // comment: skip to end of line
            let ghost i0 = i;
            i = i + 1;
            while i < n && src[i] != '\n'
                invariant
                    i0 < i <= n,
                    n == src.len(),
                decreases n - i,
            {
                i = i + 1;
            }
        } else if c == '\'' || c == '$' || (c == '}' && pending.len() > 0) {
            let trow = row;
            let tcol = col;
            let is_resume = c == '}' && pending.len() > 0;
            let region = if is_resume {
                let p = pending[pending.len() - 1];
                pending.pop();
                p
            } else if c == '\'' {
                PendingRegion::TextRegion
            } else {
                PendingRegion::CommandRegion
            };
            let term = if region == PendingRegion::TextRegion { '\'' } else { '$' };
            let scanned = scan_region(src, i + 1, term, row, col);
            match scanned {
                Ok((chunk, next, interp)) => {
                    let kind = match (region, is_resume, interp) {
                        (PendingRegion::TextRegion, false, false) => TokenKind::StrFull,
                        (PendingRegion::TextRegion, false, true) => TokenKind::StrStart,
                        (PendingRegion::TextRegion, true, false) => TokenKind::StrEnd,
                        (PendingRegion::TextRegion, true, true) => TokenKind::StrMid,
                        (PendingRegion::CommandRegion, false, false) => TokenKind::CmdFull,
                        (PendingRegion::CommandRegion, false, true) => TokenKind::CmdStart,
                        (PendingRegion::CommandRegion, true, false) => TokenKind::CmdEnd,
                        (PendingRegion::CommandRegion, true, true) => TokenKind::CmdMid,
                    };
                    if interp {
                        pending.push(region);
                    }
                    // positions within a region advance column-wise only;
                    // multi-line literals keep the opening position.
                    let mut k = i;
                    while k < next
                        invariant
                            k <= next,
                        decreases next - k,
                    {
                        col = bump(col);
                        k = k + 1;
                    }
                    tokens.push(Token { kind, word: chunk, row: trow, col: tcol });
                    i = next;
                }
                Err(e) => {
                    return Err(e);
                }
            }
        } else if ident_start(c) {
            let trow = row;
            let tcol = col;
            let ghost i0 = i;
            let mut word: Vec<char> = Vec::new();
            word.push(c);
            i = i + 1;
            col = bump(col);
            while i < n && ident_char(src[i])
                invariant
                    i0 < i <= n,
                    n == src.len(),
                decreases n - i,
            {
                word.push(src[i]);
                i = i + 1;
                col = bump(col);
            }
            tokens.push(Token { kind: TokenKind::Word, word, row: trow, col: tcol });
        } else if digit(c) {
            let trow = row;
            let tcol = col;
            let ghost i0 = i;
            let mut word: Vec<char> = Vec::new();
            word.push(c);
            i = i + 1;
            col = bump(col);
            while i < n && digit(src[i])
                invariant
                    i0 < i <= n,
                    n == src.len(),
                decreases n - i,
            {
                word.push(src[i]);
                i = i + 1;
                col = bump(col);
            }
            tokens.push(Token { kind: TokenKind::Number, word, row: trow, col: tcol });
        } else {
            let trow = row;
            let tcol = col;
            let two = i + 1 < n
                && (c == '+' || c == '-' || c == '*' || c == '/' || c == '%'
                    || c == '=' || c == '!' || c == '<' || c == '>')
                && (src[i + 1] == '=' || (c == '=' && src[i + 1] == '>'));
            if two {
                let mut word: Vec<char> = Vec::new();
                word.push(c);
                word.push(src[i + 1]);
                tokens.push(Token { kind: TokenKind::Symbol, word, row: trow, col: tcol });
                i = i + 2;
                col = bump(bump(col));
            } else if c == '+' || c == '-' || c == '*' || c == '/' || c == '%'
                || c == '=' || c == '(' || c == ')' || c == '{' || c == '}'
                || c == ',' || c == ':' || c == '<' || c == '>'
            {
                let mut word: Vec<char> = Vec::new();
                word.push(c);
                tokens.push(Token { kind: TokenKind::Symbol, word, row: trow, col: tcol });
                i = i + 1;
                col = bump(col);
            } else {
                return Err(syntax_error(trow, tcol, "unexpected character"));
            }
        }
    }
    if tokens.len() > 100000 {
        return Err(syntax_error(1, 1, "program too large"));
    }
    Ok(tokens)
}

} // verus!
