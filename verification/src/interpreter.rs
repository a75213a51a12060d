//! A miniature interpreter for the emitted shell dialect, used by the
//! compiler's evaluate entry: it executes the translated text and captures
//! what the program writes to standard output. The dialect is line
//! oriented: function blocks, assignments, conditionals, loops and command
//! lines. Values are words whose segments are substituted on evaluation:
//! `${name}` reads a variable, `$N` a positional parameter, `$(( ... ))`
//! evaluates arithmetic, `$([ ... ])` a conditional word, and `$( ... )`
//! captures a command's output. A backslash escapes the following
//! character; an escaped `n` is a line break.
//!
//! Every evaluation carries a step budget, so the evaluator provably
//! terminates; a program that exhausts it fails with `ExecutionLimit`.
//! The builtins are `echo` (joins its words, with a line break) and
//! `printf` (prints its quoted argument verbatim); any other command line
//! evaluates to its own substituted text, since no real shell is attached.

use vstd::prelude::*;
use crate::error::{CompileError, ErrorKind};
use crate::text::{chars_eq, str_to_chars, copy_chars, push_chars};

verus! {

pub enum Instr {
    Assign { name: Vec<char>, value: Vec<char> },
    Cmd { text: Vec<char> },
    Cond { cond: Vec<char>, when_true: Vec<Instr>, when_false: Vec<Instr> },
    Repeat { body: Vec<Instr> },
    BreakLoop,
    ContinueLoop,
}

pub struct FnDef {
    pub name: Vec<char>,
    pub body: Vec<Instr>,
}

/// How a parsed block of lines ended.
#[derive(Clone, Copy, Debug, PartialEq, Eq, Structural)]
enum Term {
    AtEof,
    AtBrace,
    AtElse,
    AtFi,
    AtDone,
}

#[derive(Clone, Copy, Debug, PartialEq, Eq, Structural)]
enum Flow {
    Normal,
    Brk,
    Cont,
}

/// Run-time state: the variable frames (outermost first) and the stack of
/// positional-argument lists of the active calls.
pub struct Exec {
    pub frames: Vec<Vec<(Vec<char>, Vec<char>)>>,
    pub args_stack: Vec<Vec<Vec<char>>>,
}

#[verifier::loop_isolation(false)]
fn limit_error() -> (r: CompileError)
    ensures
        r.kind == ErrorKind::ExecutionLimit,
{
    let msg = str_to_chars("the evaluation step budget is exhausted");
    CompileError::new(ErrorKind::ExecutionLimit, 0, 0, &msg)
}

/// Leading-space count of a line.
#[verifier::loop_isolation(false)]
fn indent_of(l: &Vec<char>) -> (r: usize)
    ensures
        r <= l@.len(),
{
    let mut i: usize = 0;
    while i < l.len() && l[i] == ' '
        invariant
            i <= l@.len(),
        decreases l@.len() - i,
    {
        i = i + 1;
    }
    i
}

/// Does `l[from..]` equal `s` exactly?
#[verifier::loop_isolation(false)]
fn tail_is(l: &Vec<char>, from: usize, s: &str) -> (r: bool)
    requires
        from <= l@.len(),
{
    let ln = l.len();
    let n = s.unicode_len();
    if ln - from != n {
        return false;
    }
    let mut i: usize = 0;
    while i < n
        invariant
            i <= n,
            n == s@.len(),
            from + n <= l@.len(),
        decreases n - i,
    {
        if l[from + i] != s.get_char(i) {
            return false;
        }
        i = i + 1;
    }
    true
}

/// Does `s` occur in `l` starting at `at` (within `hi`)?
#[verifier::loop_isolation(false)]
fn matches_at(l: &Vec<char>, at: usize, hi: usize, s: &str) -> (r: bool)
    requires
        at <= hi <= l@.len(),
{
    let ln = l.len();
    let n = s.unicode_len();
    if hi - at < n {
        return false;
    }
    let mut i: usize = 0;
    while i < n
        invariant
            i <= n,
            n == s@.len(),
            at + n <= hi <= l@.len(),
        decreases n - i,
    {
        if l[at + i] != s.get_char(i) {
            return false;
        }
        i = i + 1;
    }
    true
}

/// The first position in `[lo, hi)` where `marker` occurs at parenthesis
/// depth zero, honouring escapes.
#[verifier::loop_isolation(false)]
fn find_marker(l: &Vec<char>, lo: usize, hi: usize, marker: &str) -> (r: Option<usize>)
    requires
        lo <= hi <= l@.len(),
    ensures
        r matches Some(k) ==> lo <= k < hi,
{
    let ln = l.len();
    let mut k = lo;
    let mut depth: usize = 0;
    while k < hi
        invariant
            lo <= k <= hi <= l@.len(),
        decreases hi - k,
    {
        let c = l[k];
        if c == '\\' {
            k = if hi - k > 2 { k + 2 } else { hi };
        } else if c == '(' {
            if depth < 1000000 {
                depth = depth + 1;
            }
            k = k + 1;
        } else if c == ')' {
            if depth > 0 {
                depth = depth - 1;
            }
            k = k + 1;
        } else if depth == 0 && matches_at(l, k, hi, marker) {
            return Some(k);
        } else {
            k = k + 1;
        }
    }
    None
}

/// The position just past the parenthesized group opening at `open` (which
/// must hold `(`): the index of its matching `)`.
#[verifier::loop_isolation(false)]
fn find_close(l: &Vec<char>, open: usize, hi: usize) -> (r: Option<usize>)
    requires
        open < hi <= l@.len(),
    ensures
        r matches Some(k) ==> open < k < hi,
{
    let ln = l.len();
    let mut k = open + 1;
    let mut depth: usize = 1;
    while k < hi
        invariant
            open < k <= hi <= l@.len(),
            1 <= depth <= 1000000,
        decreases hi - k,
    {
        let c = l[k];
        if c == '\\' {
            k = if hi - k > 2 { k + 2 } else { hi };
        } else if c == '(' {
            if depth < 1000000 {
                depth = depth + 1;
            }
            k = k + 1;
        } else if c == ')' {
            depth = depth - 1;
            if depth == 0 {
                return Some(k);
            }
            k = k + 1;
        } else {
            k = k + 1;
        }
    }
    None
}

/// Saturating signed arithmetic, the dialect's number model.
#[verifier::loop_isolation(false)]
fn sat_add(a: i64, b: i64) -> (r: i64)
{
    if b >= 0 {
        if a > i64::MAX - b { i64::MAX } else { a + b }
    } else {
        if a < i64::MIN - b { i64::MIN } else { a + b }
    }
}

#[verifier::loop_isolation(false)]
fn sat_sub(a: i64, b: i64) -> (r: i64)
{
    if b >= 0 {
        if a < i64::MIN + b { i64::MIN } else { a - b }
    } else {
        if a > i64::MAX + b { i64::MAX } else { a - b }
    }
}

#[verifier::loop_isolation(false)]
fn sat_mul(a: i64, b: i64) -> (r: i64)
{
    if a == 0 || b == 0 {
        return 0;
    }
    let positive = (a > 0) == (b > 0);
    // compare magnitudes against the bound before multiplying
    if a == i64::MIN || b == i64::MIN {
        return if positive { i64::MAX } else { i64::MIN };
    }
    let ma = if a < 0 { -a } else { a };
    let mb = if b < 0 { -b } else { b };
    if ma > i64::MAX / mb {
        if positive { i64::MAX } else { i64::MIN }
    } else {
        assert(0 <= ma * mb <= i64::MAX) by (nonlinear_arith)
            requires ma > 0 && mb > 0 && ma <= i64::MAX / mb,
        {};
        let prod = ma * mb;
        if positive { prod } else { -prod }
    }
}

#[verifier::loop_isolation(false)]
fn sat_div(a: i64, b: i64) -> (r: i64)
{
    if b == 0 {
        0
    } else if a == i64::MIN && b == -1 {
        i64::MAX
    } else {
        a / b
    }
}

#[verifier::loop_isolation(false)]
fn sat_mod(a: i64, b: i64) -> (r: i64)
{
    if b == 0 {
        0
    } else if a == i64::MIN && b == -1 {
        0
    } else {
        a % b
    }
}

/// A word's characters as a signed number: optional sign, then digits; a
/// word that is not a number reads as zero.
#[verifier::loop_isolation(false)]
fn chars_to_i64(v: &Vec<char>) -> (r: i64)
{
    let mut i: usize = 0;
    let mut neg = false;
    if i < v.len() && v[i] == '-' {
        neg = true;
        i = i + 1;
    }
    let mut acc: i64 = 0;
    while i < v.len()
        invariant
            acc >= 0,
        decreases v@.len() - i,
    {
        let c = v[i];
        if '0' <= c && c <= '9' {
            let d: i64 = if c == '0' { 0 } else if c == '1' { 1 } else if c == '2' { 2 }
                else if c == '3' { 3 } else if c == '4' { 4 } else if c == '5' { 5 }
                else if c == '6' { 6 } else if c == '7' { 7 } else if c == '8' { 8 }
                else { 9 };
            if acc > (i64::MAX - 9) / 10 {
                acc = i64::MAX;
            } else {
                acc = acc * 10 + d;
            }
        } else {
            return 0;
        }
        i = i + 1;
    }
    if neg { if acc == i64::MIN { acc } else { -acc } } else { acc }
}

impl Exec {
    #[verifier::loop_isolation(false)]
    fn lookup(&self, name: &Vec<char>) -> (r: Option<Vec<char>>)
    {
        let mut k = self.frames.len();
        while k > 0
            invariant
                k <= self.frames@.len(),
            decreases k,
        {
            let frame = &self.frames[k - 1];
            let mut i: usize = 0;
            while i < frame.len()
                invariant
                    i <= frame@.len(),
                decreases frame@.len() - i,
            {
                if chars_eq(&frame[i].0, name) {
                    return Some(copy_chars(&frame[i].1));
                }
                i = i + 1;
            }
            k = k - 1;
        }
        None
    }

    /// Set an existing binding wherever it lives, or create it innermost.
    #[verifier::loop_isolation(false)]
    fn set_var(&mut self, name: &Vec<char>, value: Vec<char>)
    {
        let mut k = self.frames.len();
        while k > 0
            invariant
                k <= self.frames@.len(),
            decreases k,
        {
            let frame = &self.frames[k - 1];
            let mut i: usize = 0;
            let mut found: Option<usize> = None;
            while i < frame.len()
                invariant
                    i <= frame@.len(),
                    found matches Some(f) ==> f < frame@.len(),
                decreases frame@.len() - i,
            {
                if chars_eq(&frame[i].0, name) {
                    found = Some(i);
                    break;
                }
                i = i + 1;
            }
            match found {
                Some(f) => {
                    let mut fr = self.frames.remove(k - 1);
                    if f < fr.len() {
                        fr.remove(f);
                        fr.insert(f, (copy_chars(name), value));
                    }
                    self.frames.insert(k - 1, fr);
                    return;
                }
                None => {}
            }
            k = k - 1;
        }
        if self.frames.len() == 0 {
            self.frames.push(Vec::new());
        }
        let last = self.frames.len() - 1;
        let mut fr = self.frames.remove(last);
        fr.push((copy_chars(name), value));
        self.frames.insert(last, fr);
    }

    #[verifier::loop_isolation(false)]
    fn get_arg(&self, k: usize) -> (r: Vec<char>)
    {
        if self.args_stack.len() == 0 || k == 0 {
            return Vec::new();
        }
        let top = &self.args_stack[self.args_stack.len() - 1];
        if k <= top.len() {
            copy_chars(&top[k - 1])
        } else {
            Vec::new()
        }
    }
}

/// Copy of a subrange of characters.
#[verifier::loop_isolation(false)]
fn sub_chars(l: &Vec<char>, lo: usize, hi: usize) -> (r: Vec<char>)
    requires
        lo <= hi <= l@.len(),
{
    let ln = l.len();
    let mut r: Vec<char> = Vec::new();
    let mut i = lo;
    while i < hi
        invariant
            lo <= i <= hi <= l@.len(),
        decreases hi - i,
    {
        r.push(l[i]);
        i = i + 1;
    }
    r
}

/// Split `[lo, hi)` into words at unescaped spaces of parenthesis depth
/// zero; empty words are dropped.
#[verifier::loop_isolation(false)]
fn word_split(l: &Vec<char>, lo: usize, hi: usize) -> (r: Vec<(usize, usize)>)
    requires
        lo <= hi <= l@.len(),
    ensures
        forall|i: int| 0 <= i < r@.len() ==>
            lo <= (#[trigger] r@[i]).0 <= r@[i].1 <= hi,
{
    let ln = l.len();
    let mut r: Vec<(usize, usize)> = Vec::new();
    let mut k = lo;
    let mut start = lo;
    let mut depth: usize = 0;
    while k < hi
        invariant
            lo <= start <= k <= hi <= l@.len(),
            forall|i: int| 0 <= i < r@.len() ==>
                lo <= (#[trigger] r@[i]).0 <= r@[i].1 <= hi,
        decreases hi - k,
    {
        let c = l[k];
        if c == '\\' {
            k = if hi - k > 2 { k + 2 } else { hi };
        } else if c == '(' {
            if depth < 1000000 {
                depth = depth + 1;
            }
            k = k + 1;
        } else if c == ')' {
            if depth > 0 {
                depth = depth - 1;
            }
            k = k + 1;
        } else if c == ' ' && depth == 0 {
            if k > start {
                r.push((start, k));
            }
            k = k + 1;
            start = k;
        } else {
            k = k + 1;
        }
    }
    if k > start {
        r.push((start, k));
    }
    r
}

#[verifier::loop_isolation(false)]
fn is_digit(c: char) -> (r: bool)
{
    '0' <= c && c <= '9'
}

/// Whether a range holds neither the escape lead-in nor a segment opener,
/// so substitution leaves it exactly as it stands.
pub open spec fn plain_range(l: Seq<char>, lo: int, hi: int) -> bool {
    forall|j: int| lo <= j < hi ==> l[j] != '$' && l[j] != '\\'
}

/// Substitute every segment of `[lo, hi)` and return the resulting text.
/// A range without escapes or segments evaluates to itself.
#[verifier::loop_isolation(false)]
fn eval_range(l: &Vec<char>, lo: usize, hi: usize, funcs: &Vec<FnDef>, ex: &mut Exec, fuel: u64)
    -> (r: Result<(Vec<char>, u64), CompileError>)
    requires
        lo <= hi <= l@.len(),
    ensures
        r matches Ok(v) ==> v.1 < fuel,
        (fuel >= 1 && plain_range(l@, lo as int, hi as int))
            ==> (r matches Ok(v) && v.0@ == l@.subrange(lo as int, hi as int)),
    decreases fuel, 2int,
{
    if fuel == 0 {
        return Err(limit_error());
    }
    let ln = l.len();
    let mut f: u64 = fuel - 1;
    let mut out: Vec<char> = Vec::new();
    let mut j = lo;
    while j < hi
        invariant
            lo <= j <= hi <= l@.len(),
            f < fuel,
            plain_range(l@, lo as int, hi as int)
                ==> out@ == l@.subrange(lo as int, j as int),
        decreases hi - j,
    {
        let c = l[j];
        if c == '\\' {
            if j + 1 < hi {
                let c2 = l[j + 1];
                out.push(if c2 == 'n' { '\n' } else { c2 });
                j = j + 2;
            } else {
                j = hi;
            }
        } else if c == '$' && j + 1 < hi && l[j + 1] == '{' {
            let mut m = j + 2;
            while m < hi && l[m] != '}'
                invariant
                    j + 2 <= m <= hi <= l@.len(),
                decreases hi - m,
            {
                m = m + 1;
            }
            if m < hi {
                let name = sub_chars(l, j + 2, m);
                match ex.lookup(&name) {
                    Some(v) => { push_chars(&mut out, &v); }
                    None => {}
                }
                j = m + 1;
            } else {
                j = hi;
            }
        } else if c == '$' && j + 1 < hi && l[j + 1] == '(' {
            match find_close(l, j + 1, hi) {
                Some(close) => {
                    let (v, f2) = match eval_group(l, j + 2, close, funcs, ex, f) {
                        Ok(v) => v,
                        Err(e) => { return Err(e); }
                    };
                    f = f2;
                    push_chars(&mut out, &v);
                    j = close + 1;
                }
                None => {
                    out.push('$');
                    j = j + 1;
                }
            }
        } else if c == '$' && j + 1 < hi && is_digit(l[j + 1]) {
            let mut m = j + 1;
            let mut k: usize = 0;
            while m < hi && is_digit(l[m])
                invariant
                    j + 1 <= m <= hi <= l@.len(),
                    k <= 1000000,
                decreases hi - m,
            {
                let d: usize = if l[m] == '0' { 0 } else if l[m] == '1' { 1 }
                    else if l[m] == '2' { 2 } else if l[m] == '3' { 3 }
                    else if l[m] == '4' { 4 } else if l[m] == '5' { 5 }
                    else if l[m] == '6' { 6 } else if l[m] == '7' { 7 }
                    else { if l[m] == '8' { 8 } else { 9 } };
                k = if k < 100000 { k * 10 + d } else { k };
                m = m + 1;
            }
            let v = ex.get_arg(k);
            push_chars(&mut out, &v);
            j = m;
        } else {
            out.push(c);
            j = j + 1;
            proof {
                if plain_range(l@, lo as int, hi as int) {
                    assert(out@ =~= l@.subrange(lo as int, j as int));
                }
            }
        }
    }
    Ok((out, f))
}

/// Evaluate the inside of a `$( ... )` segment: arithmetic when it opens
/// with a parenthesis, a conditional word when it opens with a bracket,
/// otherwise a command whose output is captured.
#[verifier::loop_isolation(false)]
fn eval_group(l: &Vec<char>, lo: usize, hi: usize, funcs: &Vec<FnDef>, ex: &mut Exec, fuel: u64)
    -> (r: Result<(Vec<char>, u64), CompileError>)
    requires
        lo <= hi <= l@.len(),
    ensures
        r matches Ok(v) ==> v.1 < fuel,
    decreases fuel, 1int,
{
    if fuel == 0 {
        return Err(limit_error());
    }
    let ln = l.len();
    let f: u64 = fuel - 1;
    if lo < hi && l[lo] == '(' {
        let (n, _p, f2) = match arith_expr(l, lo, hi, funcs, ex, f) {
            Ok(v) => v,
            Err(e) => { return Err(e); }
        };
        return Ok((crate::translate::i64_to_chars(n), f2));
    }
    if lo < hi && l[lo] == '[' {
        // ternary conditional word
        match find_marker(l, lo, hi, " -ne 0 ] && echo ") {
            Some(m) => {
                let clo = if m - lo > 2 { lo + 2 } else { m };
                let (cv, f2) = match eval_range(l, clo, m, funcs, ex, f) {
                    Ok(v) => v,
                    Err(e) => { return Err(e); }
                };
                let c = chars_to_i64(&cv);
                if hi - m < 17 {
                    return Ok((Vec::new(), f2));
                }
                let after = m + 17;
                match find_marker(l, after, hi, " || echo ") {
                    Some(sp) => {
                        if c != 0 {
                            return eval_range(l, after, sp, funcs, ex, f2);
                        }
                        let elo = if hi - sp > 9 { sp + 9 } else { hi };
                        return eval_range(l, elo, hi, funcs, ex, f2);
                    }
                    None => {
                        return Ok((Vec::new(), f2));
                    }
                }
            }
            None => {}
        }
        // text comparison word
        let neq = find_marker(l, lo, hi, " != ");
        let eq = find_marker(l, lo, hi, " = ");
        let (m, mlen, want_eq) = match (eq, neq) {
            (Some(a), _) => (a, 3usize, true),
            (None, Some(b)) => (b, 4usize, false),
            (None, None) => {
                return Ok((Vec::new(), f));
            }
        };
        let alo = if m - lo > 2 { lo + 2 } else { m };
        let (av, f2) = match eval_range(l, alo, m, funcs, ex, f) {
            Ok(v) => v,
            Err(e) => { return Err(e); }
        };
        let blo = if hi - m > mlen { m + mlen } else { hi };
        let bhi = match find_marker(l, blo, hi, " ]") {
            Some(x) => x,
            None => hi,
        };
        if bhi < blo {
            return Ok((Vec::new(), f2));
        }
        let (bv, f3) = match eval_range(l, blo, bhi, funcs, ex, f2) {
            Ok(v) => v,
            Err(e) => { return Err(e); }
        };
        let same = chars_eq(&av, &bv);
        let mut r: Vec<char> = Vec::new();
        r.push(if same == want_eq { '1' } else { '0' });
        return Ok((r, f3));
    }
    // a command whose output is captured, without its trailing line breaks
    let (v, f2, _ran) = match run_command(l, lo, hi, funcs, ex, f, true) {
        Ok(v) => v,
        Err(e) => { return Err(e); }
    };
    let mut v = v;
    while v.len() > 0 && v[v.len() - 1] == '\n'
        decreases v@.len(),
    {
        v.pop();
    }
    Ok((v, f2))
}

/// Run one command: dispatch on its first word. With `capture`, the result
/// is handed back as a value; otherwise the caller appends it to output.
#[verifier::loop_isolation(false)]
fn run_command(l: &Vec<char>, lo: usize, hi: usize, funcs: &Vec<FnDef>, ex: &mut Exec,
    fuel: u64, capture: bool)
    -> (r: Result<(Vec<char>, u64, bool), CompileError>)
    requires
        lo <= hi <= l@.len(),
    ensures
        r matches Ok(v) ==> v.1 < fuel,
    decreases fuel, 0int,
{
    if fuel == 0 {
        return Err(limit_error());
    }
    let ln = l.len();
    let mut f: u64 = fuel - 1;
    let words = word_split(l, lo, hi);
    if words.len() == 0 {
        return Ok((Vec::new(), f, false));
    }
    let (w0lo, w0hi) = words[0];
    let is_echo = matches_at(l, w0lo, w0hi, "echo") && w0hi - w0lo == 4;
    let is_printf = matches_at(l, w0lo, w0hi, "printf") && w0hi - w0lo == 6;
    // substitute every following word
    let mut argv: Vec<Vec<char>> = Vec::new();
    let mut i: usize = 1;
    while i < words.len()
        invariant
            1 <= i,
            f < fuel,
            forall|q: int| 0 <= q < words@.len() ==>
                lo <= (#[trigger] words@[q]).0 <= words@[q].1 <= hi,
            hi <= l@.len(),
        decreases words@.len() - i,
    {
        let (a, b) = words[i];
        let (v, f2) = match eval_range(l, a, b, funcs, ex, f) {
            Ok(v) => v,
            Err(e) => { return Err(e); }
        };
        f = f2;
        argv.push(v);
        i = i + 1;
    }
    if is_echo {
        let mut v: Vec<char> = Vec::new();
        let mut i: usize = 0;
        while i < argv.len()
            decreases argv@.len() - i,
        {
            if i > 0 {
                v.push(' ');
            }
            push_chars(&mut v, &argv[i]);
            i = i + 1;
        }
        if !capture {
            v.push('\n');
        }
        return Ok((v, f, true));
    }
    if is_printf {
        let mut v: Vec<char> = Vec::new();
        let mut i: usize = 0;
        while i < argv.len()
            decreases argv@.len() - i,
        {
            if i > 0 {
                v.push(' ');
            }
            push_chars(&mut v, &argv[i]);
            i = i + 1;
        }
        // strip one pair of surrounding quotes
        if v.len() >= 2 && v[0] == '"' && v[v.len() - 1] == '"' {
            let stripped = sub_chars(&v, 1, v.len() - 1);
            return Ok((stripped, f, true));
        }
        return Ok((v, f, true));
    }
    // a user function?
    let name = sub_chars(l, w0lo, w0hi);
    let mut fi: usize = 0;
    while fi < funcs.len()
        invariant
            fi <= funcs@.len(),
            f < fuel,
        decreases funcs@.len() - fi,
    {
        if chars_eq(&funcs[fi].name, &name) {
            ex.args_stack.push(argv);
            ex.frames.push(Vec::new());
            let mut buf: Vec<char> = Vec::new();
            let res = exec_instrs(&funcs[fi].body, funcs, ex, &mut buf, f);
            if ex.frames.len() > 0 {
                ex.frames.pop();
            }
            if ex.args_stack.len() > 0 {
                ex.args_stack.pop();
            }
            match res {
                Ok((_flow, f2)) => {
                    return Ok((buf, f2, true));
                }
                Err(e) => {
                    return Err(e);
                }
            }
        }
        fi = fi + 1;
    }
    // no shell is attached: an unknown command line passes its own
    // substituted text through
    let (nv, f2) = match eval_range(l, w0lo, w0hi, funcs, ex, f) {
        Ok(v) => v,
        Err(e) => { return Err(e); }
    };
    f = f2;
    let mut v: Vec<char> = Vec::new();
    push_chars(&mut v, &nv);
    let mut i: usize = 0;
    while i < argv.len()
        decreases argv@.len() - i,
    {
        v.push(' ');
        push_chars(&mut v, &argv[i]);
        i = i + 1;
    }
    if !capture {
        v.push('\n');
    }
    Ok((v, f, false))
}

/// Skip spaces inside an arithmetic text.
#[verifier::loop_isolation(false)]
fn skip_spaces(l: &Vec<char>, pos: usize, hi: usize) -> (r: usize)
    requires
        pos <= hi <= l@.len(),
    ensures
        pos <= r <= hi,
{
    let ln = l.len();
    let mut p = pos;
    while p < hi && l[p] == ' '
        invariant
            pos <= p <= hi <= l@.len(),
        decreases hi - p,
    {
        p = p + 1;
    }
    p
}

/// An arithmetic atom: a number, a sign, a group, or a substitutable
/// segment whose text reads as a number.
#[verifier::loop_isolation(false)]
fn arith_atom(l: &Vec<char>, pos: usize, hi: usize, funcs: &Vec<FnDef>, ex: &mut Exec, fuel: u64)
    -> (r: Result<(i64, usize, u64), CompileError>)
    requires
        pos <= hi <= l@.len(),
    ensures
        r matches Ok(v) ==> pos <= v.1 <= hi && v.2 < fuel,
    decreases fuel, 0int,
{
    if fuel == 0 {
        return Err(limit_error());
    }
    let ln = l.len();
    let f: u64 = fuel - 1;
    let p = skip_spaces(l, pos, hi);
    if p >= hi {
        return Ok((0, p, f));
    }
    let c = l[p];
    if c == '-' {
        let (v, p2, f2) = match arith_atom(l, p + 1, hi, funcs, ex, f) {
            Ok(v) => v,
            Err(e) => { return Err(e); }
        };
        return Ok((sat_sub(0, v), p2, f2));
    }
    if c == '(' {
        let (v, p2, f2) = match arith_expr(l, p + 1, hi, funcs, ex, f) {
            Ok(v) => v,
            Err(e) => { return Err(e); }
        };
        let p3 = skip_spaces(l, p2, hi);
        let p4 = if p3 < hi && l[p3] == ')' { p3 + 1 } else { p3 };
        return Ok((v, p4, f2));
    }
    if is_digit(c) {
        let mut m = p;
        let mut acc: i64 = 0;
        while m < hi && is_digit(l[m])
            invariant
                p <= m <= hi <= l@.len(),
                acc >= 0,
            decreases hi - m,
        {
            let ch = l[m];
            let d: i64 = if ch == '0' { 0 } else if ch == '1' { 1 } else if ch == '2' { 2 }
                else if ch == '3' { 3 } else if ch == '4' { 4 } else if ch == '5' { 5 }
                else if ch == '6' { 6 } else if ch == '7' { 7 } else if ch == '8' { 8 }
                else { 9 };
            if acc > (i64::MAX - 9) / 10 {
                acc = i64::MAX;
            } else {
                acc = acc * 10 + d;
            }
            m = m + 1;
        }
        return Ok((acc, m, f));
    }
    if c == '$' && p + 1 < hi && l[p + 1] == '{' {
        let mut m = p + 2;
        while m < hi && l[m] != '}'
            invariant
                p + 2 <= m <= hi <= l@.len(),
            decreases hi - m,
        {
            m = m + 1;
        }
        if m < hi {
            let name = sub_chars(l, p + 2, m);
            let v = match ex.lookup(&name) {
                Some(v) => chars_to_i64(&v),
                None => 0,
            };
            return Ok((v, m + 1, f));
        }
        return Ok((0, hi, f));
    }
    if c == '$' && p + 1 < hi && l[p + 1] == '(' {
        match find_close(l, p + 1, hi) {
            Some(close) => {
                let (v, f2) = match eval_group(l, p + 2, close, funcs, ex, f) {
                    Ok(v) => v,
                    Err(e) => { return Err(e); }
                };
                return Ok((chars_to_i64(&v), close + 1, f2));
            }
            None => {
                return Ok((0, hi, f));
            }
        }
    }
    // anything else ends the atom and reads as zero
    Ok((0, p + 1, f))
}

#[verifier::loop_isolation(false)]
fn arith_mul(l: &Vec<char>, pos: usize, hi: usize, funcs: &Vec<FnDef>, ex: &mut Exec, fuel: u64)
    -> (r: Result<(i64, usize, u64), CompileError>)
    requires
        pos <= hi <= l@.len(),
    ensures
        r matches Ok(v) ==> pos <= v.1 <= hi && v.2 < fuel,
    decreases fuel, 1int,
{
    if fuel == 0 {
        return Err(limit_error());
    }
    let ln = l.len();
    let (mut acc, mut p, mut f) = match arith_atom(l, pos, hi, funcs, ex, fuel - 1) {
        Ok(v) => v,
        Err(e) => { return Err(e); }
    };
    loop
        invariant
            pos <= p <= hi <= l@.len(),
            f < fuel,
        decreases hi - p,
    {
        let q = skip_spaces(l, p, hi);
        if q >= hi {
            return Ok((acc, p, f));
        }
        let c = l[q];
        if c == '*' || c == '/' || c == '%' {
            let (v, p2, f2) = match arith_atom(l, q + 1, hi, funcs, ex, f) {
                Ok(v) => v,
                Err(e) => { return Err(e); }
            };
            acc = if c == '*' { sat_mul(acc, v) }
                else if c == '/' { sat_div(acc, v) }
                else { sat_mod(acc, v) };
            f = f2;
            if p2 <= p {
                return Ok((acc, p2, f));
            }
            p = p2;
        } else {
            return Ok((acc, p, f));
        }
    }
}

#[verifier::loop_isolation(false)]
fn arith_add(l: &Vec<char>, pos: usize, hi: usize, funcs: &Vec<FnDef>, ex: &mut Exec, fuel: u64)
    -> (r: Result<(i64, usize, u64), CompileError>)
    requires
        pos <= hi <= l@.len(),
    ensures
        r matches Ok(v) ==> pos <= v.1 <= hi && v.2 < fuel,
    decreases fuel, 2int,
{
    if fuel == 0 {
        return Err(limit_error());
    }
    let ln = l.len();
    let (mut acc, mut p, mut f) = match arith_mul(l, pos, hi, funcs, ex, fuel - 1) {
        Ok(v) => v,
        Err(e) => { return Err(e); }
    };
    loop
        invariant
            pos <= p <= hi <= l@.len(),
            f < fuel,
        decreases hi - p,
    {
        let q = skip_spaces(l, p, hi);
        if q >= hi {
            return Ok((acc, p, f));
        }
        let c = l[q];
        if c == '+' || c == '-' {
            let (v, p2, f2) = match arith_mul(l, q + 1, hi, funcs, ex, f) {
                Ok(v) => v,
                Err(e) => { return Err(e); }
            };
            acc = if c == '+' { sat_add(acc, v) } else { sat_sub(acc, v) };
            f = f2;
            if p2 <= p {
                return Ok((acc, p2, f));
            }
            p = p2;
        } else {
            return Ok((acc, p, f));
        }
    }
}

/// A full arithmetic expression: additive terms joined by one optional
/// comparison, which yields one or zero.
#[verifier::loop_isolation(false)]
fn arith_expr(l: &Vec<char>, pos: usize, hi: usize, funcs: &Vec<FnDef>, ex: &mut Exec, fuel: u64)
    -> (r: Result<(i64, usize, u64), CompileError>)
    requires
        pos <= hi <= l@.len(),
    ensures
        r matches Ok(v) ==> pos <= v.1 <= hi && v.2 < fuel,
    decreases fuel, 3int,
{
    if fuel == 0 {
        return Err(limit_error());
    }
    let ln = l.len();
    let (a, p, f) = match arith_add(l, pos, hi, funcs, ex, fuel - 1) {
        Ok(v) => v,
        Err(e) => { return Err(e); }
    };
    let q = skip_spaces(l, p, hi);
    if hi - q > 1 && l[q] == '=' && l[q + 1] == '=' {
        let (b, p2, f2) = match arith_add(l, q + 2, hi, funcs, ex, f) {
            Ok(v) => v,
            Err(e) => { return Err(e); }
        };
        return Ok((if a == b { 1 } else { 0 }, p2, f2));
    }
    if hi - q > 1 && l[q] == '!' && l[q + 1] == '=' {
        let (b, p2, f2) = match arith_add(l, q + 2, hi, funcs, ex, f) {
            Ok(v) => v,
            Err(e) => { return Err(e); }
        };
        return Ok((if a != b { 1 } else { 0 }, p2, f2));
    }
    if q < hi && l[q] == '>' {
        let (b, p2, f2) = match arith_add(l, q + 1, hi, funcs, ex, f) {
            Ok(v) => v,
            Err(e) => { return Err(e); }
        };
        return Ok((if a > b { 1 } else { 0 }, p2, f2));
    }
    if q < hi && l[q] == '<' {
        let (b, p2, f2) = match arith_add(l, q + 1, hi, funcs, ex, f) {
            Ok(v) => v,
            Err(e) => { return Err(e); }
        };
        return Ok((if a < b { 1 } else { 0 }, p2, f2));
    }
    Ok((a, p, f))
}

/// Execute a parsed instruction block.
#[verifier::loop_isolation(false)]
fn exec_instrs(instrs: &Vec<Instr>, funcs: &Vec<FnDef>, ex: &mut Exec, out: &mut Vec<char>,
    fuel: u64)
    -> (r: Result<(Flow, u64), CompileError>)
    ensures
        r matches Ok(v) ==> v.1 < fuel,
        (instrs@.len() == 0 && fuel >= 1) ==>
            (r matches Ok(v) && v.0 == Flow::Normal && final(out)@ == old(out)@),
    decreases fuel, 3int,
{
    if fuel == 0 {
        return Err(limit_error());
    }
    let mut f: u64 = fuel - 1;
    let mut i: usize = 0;
    while i < instrs.len()
        invariant
            f < fuel,
            instrs@.len() == 0 ==> out@ == old(out)@,
        decreases instrs@.len() - i,
    {
        match &instrs[i] {
            Instr::Assign { name, value } => {
                let (v, f2) = match eval_range(value, 0, value.len(), funcs, ex, f) {
                    Ok(v) => v,
                    Err(e) => { return Err(e); }
                };
                f = f2;
                ex.set_var(name, v);
            },
            Instr::Cmd { text } => {
                let (v, f2, _known) = match run_command(text, 0, text.len(), funcs, ex, f, false) {
                    Ok(v) => v,
                    Err(e) => { return Err(e); }
                };
                f = f2;
                push_chars(out, &v);
            },
            Instr::Cond { cond, when_true, when_false } => {
                let (cv, f2) = match eval_range(cond, 0, cond.len(), funcs, ex, f) {
                    Ok(v) => v,
                    Err(e) => { return Err(e); }
                };
                let c = chars_to_i64(&cv);
                let branch = if c != 0 { when_true } else { when_false };
                let (flow, f3) = match exec_instrs(branch, funcs, ex, out, f2) {
                    Ok(v) => v,
                    Err(e) => { return Err(e); }
                };
                f = f3;
                if flow != Flow::Normal {
                    return Ok((flow, f));
                }
            },
            Instr::Repeat { body } => {
                loop
                    invariant
                        f < fuel,
                    decreases f,
                {
                    let (flow, f2) = match exec_instrs(body, funcs, ex, out, f) {
                        Ok(v) => v,
                        Err(e) => { return Err(e); }
                    };
                    f = f2;
                    if flow == Flow::Brk {
                        break;
                    }
                }
            },
            Instr::BreakLoop => {
                return Ok((Flow::Brk, f));
            },
            Instr::ContinueLoop => {
                return Ok((Flow::Cont, f));
            },
        }
        i = i + 1;
    }
    Ok((Flow::Normal, f))
}

/// Structure emitted lines into instruction blocks; function definitions
/// are collected aside, wherever they appear.
#[verifier::loop_isolation(false)]
fn parse_instrs(lines: &Vec<Vec<char>>, start: usize, funcs: &mut Vec<FnDef>, fuel: u64)
    -> (r: Result<(Vec<Instr>, usize, Term), CompileError>)
    requires
        start <= lines@.len(),
    ensures
        r matches Ok(v) ==> start <= v.1 <= lines@.len(),
        (start >= lines@.len() && fuel >= 1) ==>
            (r matches Ok(v) && v.0@.len() == 0 && v.2 == Term::AtEof),
    decreases fuel,
{
    if fuel == 0 {
        return Err(limit_error());
    }
    let ln = lines.len();
    let mut instrs: Vec<Instr> = Vec::new();
    let mut i = start;
    while i < lines.len()
        invariant
            start <= i <= lines@.len(),
            fuel >= 1,
            start >= lines@.len() ==> instrs@.len() == 0,
        decreases lines@.len() - i,
    {
        let line = &lines[i];
        let ind = indent_of(line);
        let len = line.len();
        if ind == len {
            i = i + 1;
        } else if tail_is(line, ind, "}") {
            return Ok((instrs, i + 1, Term::AtBrace));
        } else if tail_is(line, ind, "else") {
            return Ok((instrs, i + 1, Term::AtElse));
        } else if tail_is(line, ind, "fi") {
            return Ok((instrs, i + 1, Term::AtFi));
        } else if tail_is(line, ind, "done") {
            return Ok((instrs, i + 1, Term::AtDone));
        } else if tail_is(line, ind, "break") {
            instrs.push(Instr::BreakLoop);
            i = i + 1;
        } else if tail_is(line, ind, "continue") {
            instrs.push(Instr::ContinueLoop);
            i = i + 1;
        } else if tail_is(line, ind, "while :; do") {
            let (body, p, t) = match parse_instrs(lines, i + 1, funcs, fuel - 1) {
                Ok(v) => v,
                Err(e) => { return Err(e); }
            };
            if t != Term::AtDone {
                return Err(limit_error());
            }
            instrs.push(Instr::Repeat { body });
            if p <= i {
                return Ok((instrs, p, Term::AtEof));
            }
            i = p;
        } else if matches_at(line, ind, len, "function ") && len - ind >= 11
            && matches_at(line, len - 2, len, " {")
        {
            let name = sub_chars(line, ind + 9, len - 2);
            let (body, p, t) = match parse_instrs(lines, i + 1, funcs, fuel - 1) {
                Ok(v) => v,
                Err(e) => { return Err(e); }
            };
            if t != Term::AtBrace {
                return Err(limit_error());
            }
            funcs.push(FnDef { name, body });
            if p <= i {
                return Ok((instrs, p, Term::AtEof));
            }
            i = p;
        } else if matches_at(line, ind, len, "if [ ") && len - ind >= 19
            && matches_at(line, len - 14, len, " -ne 0 ]; then")
        {
            // the closing marker is 14 characters long
            let clo = ind + 5;
            let chi = len - 14;
            let cond = sub_chars(line, clo, chi);
            let (then_i, p, t) = match parse_instrs(lines, i + 1, funcs, fuel - 1) {
                Ok(v) => v,
                Err(e) => { return Err(e); }
            };
            let (else_i, p2) = if t == Term::AtElse {
                let (e_i, p2, t2) = match parse_instrs(lines, p, funcs, fuel - 1) {
                    Ok(v) => v,
                    Err(e) => { return Err(e); }
                };
                if t2 != Term::AtFi {
                    return Err(limit_error());
                }
                (e_i, p2)
            } else if t == Term::AtFi {
                (Vec::new(), p)
            } else {
                return Err(limit_error());
            };
            instrs.push(Instr::Cond { cond, when_true: then_i, when_false: else_i });
            if p2 <= i {
                return Ok((instrs, p2, Term::AtEof));
            }
            i = p2;
        } else {
            // an assignment if the line opens with `name=`
            let mut k = ind;
            while k < len && (line[k] == '_'
                || ('a' <= line[k] && line[k] <= 'z')
                || ('A' <= line[k] && line[k] <= 'Z')
                || ('0' <= line[k] && line[k] <= '9'))
                invariant
                    ind <= k <= len == line@.len(),
                decreases len - k,
            {
                k = k + 1;
            }
            if k > ind && k < len && line[k] == '=' {
                let name = sub_chars(line, ind, k);
                let value = sub_chars(line, k + 1, len);
                instrs.push(Instr::Assign { name, value });
            } else {
                instrs.push(Instr::Cmd { text: sub_chars(line, ind, len) });
            }
            i = i + 1;
        }
    }
    Ok((instrs, i, Term::AtEof))
}

/// The evaluate entry over emitted lines: execute the program and capture
/// everything it writes to standard output. The empty program runs and
/// produces no output.
#[verifier::loop_isolation(false)]
pub fn run_lines(lines: &Vec<Vec<char>>) -> (r: Result<Vec<char>, CompileError>)
    ensures
        lines@.len() == 0 ==> (r matches Ok(out) && out@.len() == 0),
{
    let mut funcs: Vec<FnDef> = Vec::new();
    let fuel: u64 = 100000000;
    let (main_i, _p, t) = match parse_instrs(lines, 0, &mut funcs, fuel) {
        Ok(v) => v,
        Err(e) => { return Err(e); }
    };
    if t != Term::AtEof {
        let msg = str_to_chars("unbalanced emitted block");
        return Err(CompileError::new(ErrorKind::SyntaxError, 0, 0, &msg));
    }
    let mut ex = Exec { frames: Vec::new(), args_stack: Vec::new() };
    ex.frames.push(Vec::new());
    let mut out: Vec<char> = Vec::new();
    match exec_instrs(&main_i, &funcs, &mut ex, &mut out, fuel) {
        Ok(_) => Ok(out),
        Err(e) => Err(e),
    }
}

} // verus!
