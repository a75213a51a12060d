//! The emitter. Walks the tree and produces target-language text as a list
//! of lines, each prefixed by the indentation of its nesting depth. The
//! depth counter is incremented before a nested block is emitted and
//! decremented immediately after, so balanced indentation is an invariant
//! of the emitter, not a byproduct of correct nesting: every function that
//! takes the metadata restores its depth, and an emitted function instance
//! closes at exactly the depth its header opened at.

use vstd::prelude::*;
use crate::ast::{Expr, Stmt, Block, TextPart, BinopKind};
use crate::types::Type;
use crate::registry::{FunctionRegistry, instance_name, spec_instance_name};
use crate::text::{copy_chars, push_chars, push_str_chars, usize_to_chars, u64_to_chars, dec_digits};

verus! {

/// `n` copies of the space character.
pub open spec fn spaces(n: nat) -> Seq<char>
    decreases n,
{
    if n == 0 {
        Seq::<char>::empty()
    } else {
        spaces((n - 1) as nat).push(' ')
    }
}

/// The number of leading spaces of a line.
pub open spec fn line_indent(l: Seq<char>) -> nat
    decreases l.len(),
{
    if l.len() == 0 || l[0] != ' ' {
        0
    } else {
        1 + line_indent(l.skip(1))
    }
}

proof fn lemma_spaces_all(n: nat)
    ensures
        spaces(n).len() == n,
        forall|i: int| 0 <= i < n ==> spaces(n)[i] == ' ',
    decreases n,
{
    if n > 0 {
        lemma_spaces_all((n - 1) as nat);
    }
}

/// A line made of `n` spaces followed by a chunk that does not begin with a
/// space is indented exactly `n`.
pub proof fn lemma_line_indent(n: nat, rest: Seq<char>)
    requires
        rest.len() > 0,
        rest[0] != ' ',
    ensures
        line_indent(spaces(n) + rest) == n,
    decreases n,
{
    lemma_spaces_all(n);
    if n == 0 {
        assert(spaces(0) + rest =~= rest);
    } else {
        let l = spaces(n) + rest;
        assert(l[0] == ' ');
        assert(l.skip(1) =~= spaces((n - 1) as nat) + rest) by {
            lemma_spaces_all((n - 1) as nat);
        }
        lemma_line_indent((n - 1) as nat, rest);
    }
}

/// The decimal characters of a signed number.
pub open spec fn i64_digits(v: int) -> Seq<char> {
    if v >= 0 {
        dec_digits(v as nat)
    } else {
        seq!['-'] + dec_digits((-v) as nat)
    }
}

/// The header line of an emitted instance block.
pub open spec fn instance_header(ind: nat, name: Seq<char>, k: nat) -> Seq<char> {
    spaces(4 * ind) + "function "@ + spec_instance_name(name, k) + " {"@
}

/// One prologue line binding a consumed positional argument.
pub open spec fn prologue_line(ind: nat, arg: Seq<char>, i: nat) -> Seq<char> {
    spaces(4 * (ind + 1)) + arg + "=$"@ + dec_digits(i + 1)
}

/// A line that assigns to `name` at depth `ind`: the indentation, the
/// name, and the assignment mark, followed by the value's word.
pub open spec fn assignment_line_shape(l: Seq<char>, ind: nat, name: Seq<char>) -> bool {
    l.len() >= 4 * ind + name.len() + 1
    && l.subrange(0, (4 * ind + name.len() + 1) as int) == spaces(4 * ind) + name + "="@
}

/// A line that echoes a value at depth `ind`.
pub open spec fn echo_line_shape(l: Seq<char>, ind: nat) -> bool {
    l.len() >= 4 * ind + 5
    && l.subrange(0, (4 * ind + 5) as int) == spaces(4 * ind) + "echo "@
}

/// Some line at or past `from` carries exactly the given text.
pub open spec fn holds_header_line(ls: Seq<Vec<char>>, from: int, hdr: Seq<char>) -> bool {
    exists|j: int| from <= j < ls.len() && (#[trigger] ls[j])@ == hdr
}

/// Lines already emitted are never changed: later emission only appends.
pub open spec fn extends_lines(new: Seq<Vec<char>>, prev: Seq<Vec<char>>) -> bool {
    new.len() >= prev.len() && forall|i: int| 0 <= i < prev.len() ==> new[i] == prev[i]
}

/// Translation-time state: the indentation depth tracker.
pub struct TranslateMetadata {
    pub indent: usize,
}

/// The indentation prefix for depth `ind`: four spaces per level.
pub fn gen_indent(ind: usize) -> (r: Vec<char>)
    requires
        ind <= 100000,
    ensures
        r@ == spaces(4 * ind as nat),
{
    let mut r: Vec<char> = Vec::new();
    let total: usize = 4 * ind;
    let mut i: usize = 0;
    while i < total
        invariant
            i <= total,
            total == 4 * ind,
            r@ =~= spaces(i as nat),
        decreases total - i,
    {
        r.push(' ');
        i = i + 1;
    }
    r
}

/// Escape one literal text chunk so that it survives as a single word of a
/// value: the escape lead-in, segment openers, grouping and spaces are
/// backslash-escaped and a newline becomes an escaped `n`.
fn escape_chunk(chunk: &Vec<char>) -> (r: Vec<char>)
{
    let mut r: Vec<char> = Vec::new();
    let mut i: usize = 0;
    while i < chunk.len()
        decreases chunk.len() - i,
    {
        let c = chunk[i];
        if c == '\\' || c == '$' || c == '(' || c == ')' || c == ' ' {
            r.push('\\');
            r.push(c);
        } else if c == '\n' {
            r.push('\\');
            r.push('n');
        } else {
            r.push(c);
        }
        i = i + 1;
    }
    r
}

/// The decimal form of a signed number.
pub fn i64_to_chars(v: i64) -> (r: Vec<char>)
    ensures
        r@ == i64_digits(v as int),
{
    if v >= 0 {
        let m: u64 = v as u64;
        u64_to_chars(m)
    } else {
        let m: u64 = ((-(v + 1)) as u64) + 1;
        proof {
            assert(m as nat == -(v as int));
        }
        let mut r: Vec<char> = Vec::new();
        r.push('-');
        let digits = u64_to_chars(m);
        push_chars(&mut r, &digits);
        proof {
            assert(r@ =~= seq!['-'] + dec_digits((-(v as int)) as nat));
        }
        r
    }
}

/// The value form of an expression: one word of the emitted dialect. For
/// the leaf forms the word is fixed exactly: a number's decimal digits, a
/// truth value's one digit, and a variable's substitution form.
pub fn translate_expr(e: &Expr, fuel: u64) -> (r: Vec<char>)
    ensures
        fuel > 0 ==> match e {
            Expr::Number { value } => r@ == i64_digits(*value as int),
            Expr::BoolLit { truth } => r@ == (if *truth { seq!['1'] } else { seq!['0'] }),
            Expr::Var { name, .. } => r@ == "${"@ + name@ + "}"@,
            _ => true,
        },
    decreases fuel,
{
    if fuel == 0 {
        return Vec::new();
    }
    match e {
        Expr::Number { value } => i64_to_chars(*value),
        Expr::BoolLit { truth } => {
            let mut r: Vec<char> = Vec::new();
            r.push(if *truth { '1' } else { '0' });
            proof {
                assert(r@ =~= (if *truth { seq!['1'] } else { seq!['0'] }));
            }
            r
        },
        Expr::Var { name, .. } => {
            let mut r: Vec<char> = Vec::new();
            push_str_chars(&mut r, "${");
            push_chars(&mut r, name);
            push_str_chars(&mut r, "}");
            proof {
                assert(r@ =~= "${"@ + name@ + "}"@);
            }
            r
        },
        Expr::TextLit { parts } => translate_parts(parts, true, fuel - 1),
        Expr::Command { parts } => {
            let mut r: Vec<char> = Vec::new();
            push_str_chars(&mut r, "$(");
            let inner = translate_parts(parts, false, fuel - 1);
            push_chars(&mut r, &inner);
            push_str_chars(&mut r, ")");
            r
        },
        Expr::Binop { op, kind, left, right } => {
            let textual = left.type_of() == Type::Text;
            if *op == BinopKind::Add && textual {
                // text concatenation: juxtaposition of the two words
                let mut r = translate_expr(left, fuel - 1);
                let rhs = translate_expr(right, fuel - 1);
                push_chars(&mut r, &rhs);
                r
            } else if (*op == BinopKind::Eq || *op == BinopKind::Neq) && textual {
                let mut r: Vec<char> = Vec::new();
                push_str_chars(&mut r, "$([ ");
                let a = translate_expr(left, fuel - 1);
                push_chars(&mut r, &a);
                if *op == BinopKind::Eq {
                    push_str_chars(&mut r, " = ");
                } else {
                    push_str_chars(&mut r, " != ");
                }
                let b = translate_expr(right, fuel - 1);
                push_chars(&mut r, &b);
                push_str_chars(&mut r, " ] && echo 1 || echo 0)");
                r
            } else {
                let mut r: Vec<char> = Vec::new();
                push_str_chars(&mut r, "$((");
                let inner = translate_arith(e, fuel - 1);
                push_chars(&mut r, &inner);
                push_str_chars(&mut r, "))");
                r
            }
        },
        Expr::Ternary { cond, when_true, when_false, .. } => {
            let mut r: Vec<char> = Vec::new();
            push_str_chars(&mut r, "$([ ");
            let c = translate_expr(cond, fuel - 1);
            push_chars(&mut r, &c);
            push_str_chars(&mut r, " -ne 0 ] && echo ");
            let t = translate_expr(when_true, fuel - 1);
            push_chars(&mut r, &t);
            push_str_chars(&mut r, " || echo ");
            let f = translate_expr(when_false, fuel - 1);
            push_chars(&mut r, &f);
            push_str_chars(&mut r, ")");
            r
        },
        Expr::Call { name, instance, args, .. } => {
            let mut r: Vec<char> = Vec::new();
            push_str_chars(&mut r, "$(");
            let iname = instance_name(name, *instance);
            push_chars(&mut r, &iname);
            let mut i: usize = 0;
            while i < args.len()
                invariant
                    fuel > 0,
                decreases args.len() - i,
            {
                push_str_chars(&mut r, " ");
                let a = translate_expr(&args[i], fuel - 1);
                push_chars(&mut r, &a);
                i = i + 1;
            }
            push_str_chars(&mut r, ")");
            r
        },
    }
}

/// The arithmetic form of an expression, placed inside an arithmetic
/// substitution: binary operators keep their symbol between parenthesized
/// operands; anything else stands as its value form.
fn translate_arith(e: &Expr, fuel: u64) -> (r: Vec<char>)
    decreases fuel,
{
    if fuel == 0 {
        return Vec::new();
    }
    match e {
        Expr::Number { value } => i64_to_chars(*value),
        Expr::Binop { op, left, right, .. } => {
            let mut r: Vec<char> = Vec::new();
            push_str_chars(&mut r, "(");
            let a = translate_arith(left, fuel - 1);
            push_chars(&mut r, &a);
            let sym = match op {
                BinopKind::Add => " + ",
                BinopKind::Sub => " - ",
                BinopKind::Mul => " * ",
                BinopKind::Div => " / ",
                BinopKind::Mod => " % ",
                BinopKind::Eq => " == ",
                BinopKind::Neq => " != ",
                BinopKind::Gt => " > ",
                BinopKind::Lt => " < ",
            };
            push_str_chars(&mut r, sym);
            let b = translate_arith(right, fuel - 1);
            push_chars(&mut r, &b);
            push_str_chars(&mut r, ")");
            r
        },
        _ => translate_expr(e, fuel - 1),
    }
}

/// The text of a region: literal chunks (escaped for text literals, raw
/// for command text) interleaved with the value forms of interpolations.
fn translate_parts(parts: &Vec<TextPart>, escape: bool, fuel: u64) -> (r: Vec<char>)
    decreases fuel,
{
    let mut r: Vec<char> = Vec::new();
    if fuel == 0 {
        return r;
    }
    let mut i: usize = 0;
    while i < parts.len()
        invariant
            fuel > 0,
        decreases parts.len() - i,
    {
        match &parts[i] {
            TextPart::Literal { chars } => {
                if escape {
                    let esc = escape_chunk(chars);
                    push_chars(&mut r, &esc);
                } else {
                    push_chars(&mut r, chars);
                }
            },
            TextPart::Interp { expr } => {
                let v = translate_expr(expr, fuel - 1);
                push_chars(&mut r, &v);
            },
        }
        i = i + 1;
    }
    r
}

/// One emitted line: the current indentation followed by the content.
fn emit_line(lines: &mut Vec<Vec<char>>, ind: usize, content: Vec<char>)
    requires
        ind <= 100000,
    ensures
        final(lines)@.len() == old(lines)@.len() + 1,
        extends_lines(final(lines)@, old(lines)@),
        final(lines)@.last()@ == spaces(4 * ind as nat) + content@,
        content@.len() > 0 && content@[0] != ' ' ==>
            line_indent(final(lines)@.last()@) == 4 * ind as nat,
{
    let mut l = gen_indent(ind);
    let ghost pre = l@;
    push_chars(&mut l, &content);
    proof {
        if content@.len() > 0 && content@[0] != ' ' {
            lemma_line_indent(4 * ind as nat, content@);
        }
    }
    lines.push(l);
}

/// One assignment line `name=VALUE`, shared by plain and compound
/// assignment statements and by declarations.
fn emit_assignment(lines: &mut Vec<Vec<char>>, ind: usize, name: &Vec<char>, expr: &Expr,
    fuel: u64)
    requires
        ind <= 100000,
    ensures
        extends_lines(final(lines)@, old(lines)@),
        final(lines)@.len() == old(lines)@.len() + 1,
        assignment_line_shape(final(lines)@.last()@, ind as nat, name@),
{
    let mut c = copy_chars(name);
    push_str_chars(&mut c, "=");
    let ghost head = c@;
    let v = translate_expr(expr, fuel);
    push_chars(&mut c, &v);
    emit_line(lines, ind, c);
    proof {
        reveal_strlit("=");
        lemma_spaces_all(4 * ind as nat);
        assert(head == name@ + "="@);
        assert(lines@.last()@ == spaces(4 * ind as nat) + (head + v@));
        assert(lines@.last()@.subrange(0, (4 * ind + name@.len() + 1) as int)
            =~= spaces(4 * ind as nat) + name@ + "="@);
    }
}

/// Translate one statement into lines at the current depth. The depth is
/// always restored: nested blocks bump it and give it back.
pub fn translate_stmt(s: &Stmt, meta: &mut TranslateMetadata, reg: &FunctionRegistry,
    lines: &mut Vec<Vec<char>>, fuel: u64)
    requires
        old(meta).indent + fuel <= 100000,
    ensures
        final(meta).indent == old(meta).indent,
        extends_lines(final(lines)@, old(lines)@),
        fuel > 0 ==> match s {
            Stmt::Break => final(lines)@.len() == old(lines)@.len() + 1
                && final(lines)@.last()@ == spaces(4 * old(meta).indent as nat) + "break"@,
            Stmt::Continue => final(lines)@.len() == old(lines)@.len() + 1
                && final(lines)@.last()@ == spaces(4 * old(meta).indent as nat) + "continue"@,
            Stmt::Let { name, .. } => final(lines)@.len() == old(lines)@.len() + 1
                && assignment_line_shape(final(lines)@.last()@, old(meta).indent as nat, name@),
            Stmt::Assign { name, .. } => final(lines)@.len() == old(lines)@.len() + 1
                && assignment_line_shape(final(lines)@.last()@, old(meta).indent as nat, name@),
            Stmt::Shorthand { name, .. } => final(lines)@.len() == old(lines)@.len() + 1
                && assignment_line_shape(final(lines)@.last()@, old(meta).indent as nat, name@),
            Stmt::Echo { .. } => final(lines)@.len() == old(lines)@.len() + 1
                && echo_line_shape(final(lines)@.last()@, old(meta).indent as nat),
            Stmt::CommandStmt { .. } => final(lines)@.len() == old(lines)@.len() + 1,
            _ => true,
        },
    decreases fuel, 1int,
{
    // the emission budget mirrors the parser's own, which bounds the tree's
    // depth first: a program the parser accepted never exhausts this one
    if fuel == 0 {
        return;
    }
    match s {
        Stmt::Let { name, expr } => {
            emit_assignment(lines, meta.indent, name, expr, fuel - 1);
        },
        Stmt::Assign { name, expr } => {
            emit_assignment(lines, meta.indent, name, expr, fuel - 1);
        },
        Stmt::Shorthand { name, expr, .. } => {
            // the recorded right side is the equivalent plain assignment's
            // right side, and it goes through the same emission path, so a
            // compound assignment translates exactly as `x = x <op> e`
            emit_assignment(lines, meta.indent, name, expr, fuel - 1);
        },
        Stmt::Echo { expr } => {
            let mut c: Vec<char> = Vec::new();
            push_str_chars(&mut c, "echo ");
            let v = translate_expr(expr, fuel - 1);
            push_chars(&mut c, &v);
            emit_line(lines, meta.indent, c);
            proof {
                reveal_strlit("echo ");
                lemma_spaces_all(4 * meta.indent as nat);
                assert(lines@.last()@ == spaces(4 * meta.indent as nat) + ("echo "@ + v@));
                assert(lines@.last()@.subrange(0, (4 * meta.indent + 5) as int)
                    =~= spaces(4 * meta.indent as nat) + "echo "@);
            }
        },
        Stmt::CommandStmt { parts } => {
            let c = translate_parts(parts, false, fuel - 1);
            emit_line(lines, meta.indent, c);
        },
        Stmt::If { cond, then_block, else_block } => {
            let mut c: Vec<char> = Vec::new();
            push_str_chars(&mut c, "if [ ");
            let v = translate_expr(cond, fuel - 1);
            push_chars(&mut c, &v);
            push_str_chars(&mut c, " -ne 0 ]; then");
            emit_line(lines, meta.indent, c);
            meta.indent = meta.indent + 1;
            translate_block(then_block, meta, reg, lines, fuel - 1);
            meta.indent = meta.indent - 1;
            match else_block {
                Some(eb) => {
                    emit_line(lines, meta.indent, {
                        let mut c: Vec<char> = Vec::new();
                        push_str_chars(&mut c, "else");
                        c
                    });
                    meta.indent = meta.indent + 1;
                    translate_block(eb, meta, reg, lines, fuel - 1);
                    meta.indent = meta.indent - 1;
                },
                None => {},
            }
            emit_line(lines, meta.indent, {
                let mut c: Vec<char> = Vec::new();
                push_str_chars(&mut c, "fi");
                c
            });
        },
        Stmt::Loop { body } => {
            emit_line(lines, meta.indent, {
                let mut c: Vec<char> = Vec::new();
                push_str_chars(&mut c, "while :; do");
                c
            });
            meta.indent = meta.indent + 1;
            translate_block(body, meta, reg, lines, fuel - 1);
            meta.indent = meta.indent - 1;
            emit_line(lines, meta.indent, {
                let mut c: Vec<char> = Vec::new();
                push_str_chars(&mut c, "done");
                c
            });
        },
        Stmt::Break => {
            emit_line(lines, meta.indent, {
                let mut c: Vec<char> = Vec::new();
                push_str_chars(&mut c, "break");
                c
            });
        },
        Stmt::Continue => {
            emit_line(lines, meta.indent, {
                let mut c: Vec<char> = Vec::new();
                push_str_chars(&mut c, "continue");
                c
            });
        },
        Stmt::FunDecl { id } => {
            if fuel >= 2 {
                emit_unit_instances(reg, *id, meta, lines, fuel - 1);
            }
        },
        Stmt::Import { first_id, last_id } => {
            // the imported unit's declarations are emitted at the import
            // site, in declaration order
            if fuel >= 2 {
                let mut id = *first_id;
                while id < *last_id
                    invariant
                        meta.indent == old(meta).indent,
                        old(meta).indent + fuel <= 100000,
                        fuel >= 2,
                        extends_lines(lines@, old(lines)@),
                    decreases *last_id - id,
                {
                    emit_unit_instances(reg, id, meta, lines, fuel - 1);
                    id = id + 1;
                }
            }
        },
    }
}

/// Emit every instance of one declaration, in discovery order: the lines
/// gain one block per resolved instance, each opened by the header that
/// carries that instance's emitted name. Together with the distinctness of
/// instance names, two structurally different call signatures yield two
/// distinctly named blocks, while repeated calls with one signature add no
/// further instance to emit.
pub fn emit_unit_instances(reg: &FunctionRegistry, id: usize, meta: &mut TranslateMetadata,
    lines: &mut Vec<Vec<char>>, fuel: u64)
    requires
        old(meta).indent + fuel <= 100000,
        fuel >= 1,
    ensures
        final(meta).indent == old(meta).indent,
        extends_lines(final(lines)@, old(lines)@),
        id < reg.funs@.len() ==> forall|k: int|
            0 <= k < reg.funs@[id as int].instances@.len()
            ==> #[trigger] holds_header_line(final(lines)@, old(lines)@.len() as int,
                instance_header(old(meta).indent as nat,
                    reg.funs@[id as int].name@, k as nat)),
    decreases fuel, 3int,
{
    if id < reg.funs.len() {
        let count = reg.funs[id].instances.len();
        let mut k: usize = 0;
        while k < count
            invariant
                meta.indent == old(meta).indent,
                old(meta).indent + fuel <= 100000,
                fuel >= 1,
                id < reg.funs@.len(),
                count == reg.funs@[id as int].instances@.len(),
                extends_lines(lines@, old(lines)@),
                forall|q: int| 0 <= q < k
                    ==> #[trigger] holds_header_line(lines@, old(lines)@.len() as int,
                        instance_header(old(meta).indent as nat,
                            reg.funs@[id as int].name@, q as nat)),
            decreases count - k,
        {
            let ghost at = lines@.len();
            let ghost pre = lines@;
            translate_instance(reg, id, k, meta, lines, fuel);
            proof {
                let ghost from = old(lines)@.len() as int;
                assert(lines@[at as int]@ == instance_header(old(meta).indent as nat,
                    reg.funs@[id as int].name@, k as nat));
                assert(holds_header_line(lines@, from,
                    instance_header(old(meta).indent as nat,
                        reg.funs@[id as int].name@, k as nat)));
                assert forall|q: int| 0 <= q < k implies #[trigger] holds_header_line(lines@,
                    from, instance_header(old(meta).indent as nat,
                        reg.funs@[id as int].name@, q as nat)) by {
                    let hdr = instance_header(old(meta).indent as nat,
                        reg.funs@[id as int].name@, q as nat);
                    assert(holds_header_line(pre, from, hdr));
                    let j = choose|j: int| from <= j < pre.len() && (#[trigger] pre[j])@ == hdr;
                    assert(lines@[j] == pre[j]);
                    assert(holds_header_line(lines@, from, hdr));
                }
            }
            k = k + 1;
        }
    }
}

/// Translate a block's statements at the current depth; the depth comes
/// back unchanged.
pub fn translate_block(b: &Block, meta: &mut TranslateMetadata, reg: &FunctionRegistry,
    lines: &mut Vec<Vec<char>>, fuel: u64)
    requires
        old(meta).indent + fuel <= 100000,
    ensures
        final(meta).indent == old(meta).indent,
        extends_lines(final(lines)@, old(lines)@),
        b.stmts@.len() == 0 ==> final(lines)@ == old(lines)@,
    decreases fuel, 0int,
{
    if fuel == 0 {
        return;
    }
    let mut i: usize = 0;
    while i < b.stmts.len()
        invariant
            meta.indent == old(meta).indent,
            old(meta).indent + fuel <= 100000,
            fuel > 0,
            extends_lines(lines@, old(lines)@),
            b.stmts@.len() == 0 ==> lines@ == old(lines)@,
        decreases b.stmts@.len() - i,
    {
        translate_stmt(&b.stmts[i], meta, reg, lines, fuel - 1);
        i = i + 1;
    }
}

/// Emit one function instance: a header naming the instance, a prologue
/// binding the consumed positional arguments to the parameter names one
/// level deeper, the translated body at that same depth, and the closing
/// marker. The closing marker's indentation always equals the header's.
pub fn translate_instance(reg: &FunctionRegistry, id: usize, k: usize,
    meta: &mut TranslateMetadata, lines: &mut Vec<Vec<char>>, fuel: u64)
    requires
        old(meta).indent + fuel <= 100000,
        fuel >= 1,
        id < reg.funs@.len(),
        k < reg.funs@[id as int].instances@.len(),
    ensures
        final(meta).indent == old(meta).indent,
        extends_lines(final(lines)@, old(lines)@),
        final(lines)@.len() >= old(lines)@.len() + 2 + reg.funs@[id as int].arg_names@.len(),
        final(lines)@[old(lines)@.len() as int]@ ==
            instance_header(old(meta).indent as nat, reg.funs@[id as int].name@, k as nat),
        forall|i: int| 0 <= i < reg.funs@[id as int].arg_names@.len() ==>
            final(lines)@[old(lines)@.len() + 1 + i]@ ==
                prologue_line(old(meta).indent as nat,
                    reg.funs@[id as int].arg_names@[i]@, i as nat),
        final(lines)@.last()@ == spaces(4 * old(meta).indent as nat) + "}"@,
        line_indent(final(lines)@[old(lines)@.len() as int]@) == 4 * old(meta).indent as nat,
        line_indent(final(lines)@.last()@) == 4 * old(meta).indent as nat,
    decreases fuel, 2int,
{
    let iname = instance_name(&reg.funs[id].name, k);
    let mut header: Vec<char> = Vec::new();
    push_str_chars(&mut header, "function ");
    push_chars(&mut header, &iname);
    push_str_chars(&mut header, " {");
    proof {
        reveal_strlit("function ");
        assert(header@[0] == 'f');
    }
    let ghost first_at = lines@.len();
    emit_line(lines, meta.indent, header);
    let ghost header_line = lines@.last();
    proof {
        assert(line_indent(header_line@) == 4 * old(meta).indent as nat);
        assert(header@ =~= "function "@ + spec_instance_name(
            reg.funs@[id as int].name@, k as nat) + " {"@);
        assert(header_line@ =~= instance_header(old(meta).indent as nat,
            reg.funs@[id as int].name@, k as nat));
    }
    // parameter prologue, one level deeper
    meta.indent = meta.indent + 1;
    let argc = reg.funs[id].arg_names.len();
    let mut i: usize = 0;
    while i < argc
        invariant
            meta.indent == old(meta).indent + 1,
            old(meta).indent + fuel <= 100000,
            fuel > 0,
            id < reg.funs@.len(),
            argc == reg.funs@[id as int].arg_names@.len(),
            i <= argc,
            first_at == old(lines)@.len(),
            lines@.len() == first_at + 1 + i,
            lines@[first_at as int] == header_line,
            extends_lines(lines@, old(lines)@),
            forall|j: int| 0 <= j < i ==> lines@[first_at + 1 + j]@ ==
                prologue_line(old(meta).indent as nat,
                    reg.funs@[id as int].arg_names@[j]@, j as nat),
        decreases argc - i,
    {
        let mut c = copy_chars(&reg.funs[id].arg_names[i]);
        push_str_chars(&mut c, "=$");
        let digits = usize_to_chars(i + 1);
        push_chars(&mut c, &digits);
        proof {
            assert(c@ =~= reg.funs@[id as int].arg_names@[i as int]@ + "=$"@
                + dec_digits((i + 1) as nat));
        }
        emit_line(lines, meta.indent, c);
        proof {
            assert(lines@.last()@ =~= prologue_line(old(meta).indent as nat,
                reg.funs@[id as int].arg_names@[i as int]@, i as nat));
        }
        i = i + 1;
    }
    let ghost before_body = lines@;
    translate_block(&reg.funs[id].instances[k].body, meta, reg, lines, fuel - 1);
    proof {
        assert(lines@[first_at as int] == header_line);
        assert(forall|j: int| 0 <= j < argc ==> lines@[first_at + 1 + j]@ ==
            prologue_line(old(meta).indent as nat,
                reg.funs@[id as int].arg_names@[j]@, j as nat));
    }
    meta.indent = meta.indent - 1;
    let mut closing: Vec<char> = Vec::new();
    push_str_chars(&mut closing, "}");
    proof {
        reveal_strlit("}");
        assert(closing@[0] == '}');
    }
    emit_line(lines, meta.indent, closing);
    proof {
        assert(lines@[first_at as int] == header_line);
        assert(line_indent(lines@.last()@) == 4 * old(meta).indent as nat);
        assert(forall|j: int| 0 <= j < argc ==> lines@[first_at + 1 + j]@ ==
            prologue_line(old(meta).indent as nat,
                reg.funs@[id as int].arg_names@[j]@, j as nat));
        assert(closing@ =~= "}"@);
    }
}

/// The emission entry: the whole program at depth zero, one line per
/// emitted statement element.
pub fn translate_program(b: &Block, reg: &FunctionRegistry, fuel: u64)
    -> (lines: Vec<Vec<char>>)
    requires
        fuel <= 100000,
    ensures
        b.stmts@.len() == 0 ==> lines@.len() == 0,
{
    let mut meta = TranslateMetadata { indent: 0 };
    let mut lines: Vec<Vec<char>> = Vec::new();
    translate_block(b, &mut meta, reg, &mut lines, fuel);
    lines
}

/// Join emitted lines with newline separators.
pub fn join_lines(lines: &Vec<Vec<char>>) -> (r: Vec<char>)
    ensures
        lines@.len() == 0 ==> r@.len() == 0,
        lines@.len() == 1 ==> r@ == lines@[0]@,
{
    let mut r: Vec<char> = Vec::new();
    let mut i: usize = 0;
    while i < lines.len()
        invariant
            i <= lines@.len(),
            i == 0 ==> r@.len() == 0,
            (lines@.len() == 1 && i == 1) ==> r@ == lines@[0]@,
        decreases lines.len() - i,
    {
        if i > 0 {
            r.push('\n');
        }
        push_chars(&mut r, &lines[i]);
        proof {
            if i == 0 {
                assert(r@ =~= lines@[0]@);
            }
        }
        i = i + 1;
    }
    r
}

} // verus!
