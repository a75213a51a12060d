//! Tests for the compiler's stated properties: error kinds with the inputs
//! that produce them, operator precedence, the monomorphization cache, the
//! reserved instance-name form, and balanced indentation of emitted blocks.

use amber::compiler::AmberCompiler;
use amber::error::ErrorKind;

fn eval_out(code: &str) -> String {
    match AmberCompiler::new(code.to_string(), None).test_eval() {
        Ok(result) => result.trim().to_string(),
        Err(err) => panic!("ERROR: {}", err.message.unwrap()),
    }
}

fn eval_kind(code: &str) -> ErrorKind {
    match AmberCompiler::new(code.to_string(), None).test_eval() {
        Ok(result) => panic!("PASSED: Expected error, got {}", result),
        Err(err) => err.kind,
    }
}

fn compile_text(code: &str) -> String {
    match AmberCompiler::new(code.to_string(), None).compile() {
        Ok(text) => text,
        Err(err) => panic!("ERROR: {}", err.message.unwrap()),
    }
}

#[test]
fn precedence_mul_binds_tighter() {
    assert_eq!(eval_out("echo 2 + 3 * 4"), "14");
    assert_eq!(eval_out("echo 2 * 3 + 4"), "10");
}

#[test]
fn precedence_parentheses_override() {
    assert_eq!(eval_out("echo (2 + 3) * 4"), "20");
}

#[test]
fn scenario_shorthand_sequence() {
    assert_eq!(eval_out("let x=16; x*=4; echo x"), "64");
}

#[test]
fn scenario_addition() {
    assert_eq!(eval_out("echo 15 + 45"), "60");
}

#[test]
fn scenario_undeclared_identifier() {
    let c = AmberCompiler::new("echo Hello World".to_string(), None);
    match c.test_eval() {
        Ok(result) => panic!("PASSED: Expected error, got {}", result),
        Err(err) => {
            assert_eq!(err.kind, ErrorKind::UndefinedVariable);
            assert_eq!(err.message.unwrap(), "Variable 'Hello' does not exist");
        }
    }
}

#[test]
fn two_signatures_emit_two_instances() {
    let code = "
        fun test(a, b) {
            echo a + b
        }
        echo test('Hello', 'World')
        echo test(11, 42)
    ";
    let text = compile_text(code);
    assert!(text.contains("function test {"));
    assert!(text.contains("function __1_test {"));
}

#[test]
fn same_signature_reuses_instance() {
    let code = "
        fun test(a, b) {
            echo a + b
        }
        echo test(1, 2)
        echo test(3, 4)
    ";
    let text = compile_text(code);
    assert!(text.contains("function test {"));
    assert!(!text.contains("__1_test"));
    assert_eq!(eval_out(code), "3\n7");
}

#[test]
fn instance_blocks_open_and_close_at_one_depth() {
    let code = "
        fun test(a: Num) {
            if a == 1 {
                echo a
            }
        }
        echo test(1)
    ";
    let text = compile_text(code);
    let lines: Vec<&str> = text.lines().collect();
    // the header and the closing marker of the emitted instance carry the
    // same indentation: none, at top level
    assert_eq!(lines[0], "function test {");
    assert!(lines.contains(&"}"));
    // the body sits deeper than the closing marker
    assert!(lines.iter().any(|l| l.starts_with("    ")));
}

#[test]
fn duplicate_binding_is_reported() {
    assert_eq!(eval_kind("let x = 1; let x = 2"), ErrorKind::DuplicateBinding);
}

#[test]
fn duplicate_function_is_reported() {
    let code = "
        fun test() {
            echo 1
        }
        fun test() {
            echo 2
        }
    ";
    assert_eq!(eval_kind(code), ErrorKind::DuplicateFunction);
}

#[test]
fn undefined_function_is_reported() {
    assert_eq!(eval_kind("echo test(1)"), ErrorKind::UndefinedFunction);
}

#[test]
fn assignment_to_undeclared_is_reported() {
    assert_eq!(eval_kind("x = 21"), ErrorKind::UndefinedVariable);
}

#[test]
fn type_mismatch_on_assignment_is_reported() {
    assert_eq!(eval_kind("let x = 1; x = 'a'"), ErrorKind::TypeMismatch);
}

#[test]
fn type_mismatch_on_operator_is_reported() {
    assert_eq!(eval_kind("echo 1 + 'a'"), ErrorKind::TypeMismatch);
}

#[test]
fn argument_count_mismatch_is_reported() {
    let code = "
        fun test(a) {
            echo a
        }
        echo test(1, 2)
    ";
    assert_eq!(eval_kind(code), ErrorKind::ArgumentCountMismatch);
}

#[test]
fn argument_type_mismatch_is_reported() {
    let code = "
        fun test(a: Num) {
            echo a
        }
        echo test('Hello')
    ";
    assert_eq!(eval_kind(code), ErrorKind::ArgumentTypeMismatch);
}

#[test]
fn body_failure_is_reported_as_function_body_parse_error() {
    let code = "
        fun test(a) {
            echo b
        }
        echo test(1)
    ";
    assert_eq!(eval_kind(code), ErrorKind::FunctionBodyParseError);
}

#[test]
fn ternary_with_text_branches() {
    assert_eq!(eval_out("echo 1 > 2 then 'yes' else 'no'"), "no");
    assert_eq!(eval_out("echo 2 > 1 then 'yes' else 'no'"), "yes");
}

#[test]
fn bool_comparison() {
    assert_eq!(eval_out("echo true == false"), "0");
    assert_eq!(eval_out("echo true != false"), "1");
}

#[test]
fn variables_shadow_in_nested_blocks() {
    let code = "
        let x = 1
        if x == 1 {
            let y = 2
            echo y
        }
        echo x
    ";
    assert_eq!(eval_out(code), "2\n1");
}

#[test]
fn inner_binding_does_not_escape_its_block() {
    let code = "
        let x = 1
        if x == 1 {
            let y = 2
        }
        echo y
    ";
    assert_eq!(eval_kind(code), ErrorKind::UndefinedVariable);
}

#[test]
fn compile_error_produces_no_output_text() {
    let c = AmberCompiler::new("echo Hello World".to_string(), None);
    assert!(c.compile().is_err());
}

#[test]
fn emitted_text_is_plain_lines() {
    let text = compile_text("let x = 42\necho x");
    assert_eq!(text, "x=42\necho ${x}");
}
