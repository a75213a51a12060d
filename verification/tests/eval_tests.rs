//! The compiler's acceptance tests: each compiles a program, executes the
//! translated text through the bundled evaluator, and compares the
//! captured standard output (or the compile error) with the expected text.

use amber::compiler::AmberCompiler;

fn eval_ok(code: &str, expected: &str) {
    match AmberCompiler::new(code.to_string(), None).test_eval() {
        Ok(result) => assert_eq!(result.trim(), expected),
        Err(err) => panic!("ERROR: {}", err.message.unwrap()),
    }
}

fn eval_err(code: &str, expected: &str) {
    match AmberCompiler::new(code.to_string(), None).test_eval() {
        Ok(result) => panic!("PASSED: Expected error, got {}", result),
        Err(err) => assert_eq!(err.message.unwrap(), expected),
    }
}

#[test]
fn hello_world() {
    eval_ok("echo 'Hello World'", "Hello World");
}

#[test]
fn hello_world_error() {
    eval_err("echo Hello World", "Variable 'Hello' does not exist");
}

#[test]
fn add() {
    eval_ok("echo 15 + 45", "60");
}

#[test]
fn mul() {
    eval_ok("echo 3 * 4", "12");
}

#[test]
fn div() {
    eval_ok("echo 21 / 3", "7");
}

#[test]
fn sub() {
    eval_ok("echo 21 - 7", "14");
}

#[test]
fn text() {
    eval_ok("echo 'Hello World'", "Hello World");
}

#[test]
fn number() {
    eval_ok("echo 15", "15");
}

#[test]
fn bool() {
    eval_ok("echo true", "1");
    eval_ok("echo false", "0");
}

#[test]
fn variable() {
    let code = "
        let x = 42
        echo x
        x = 21
        echo x
    ";
    eval_ok(code, "42\n21");
}

#[test]
fn nested_string_interp() {
    let code = "
        let x = 'welcome {'to'} wonderful {'world'}'
        echo x
    ";
    eval_ok(code, "welcome to wonderful world");
}

#[test]
fn complex_arithmetic() {
    let code = "
        let x = 21
        let y = 2
        let z = 3
        echo x + y * z
    ";
    eval_ok(code, "27");
}

#[test]
fn very_complex_arithmetic() {
    let code = "
        let x = 21
        let y = 2
        let z = 6
        let a = 4
        echo x + y * z / a
    ";
    eval_ok(code, "24");
}

#[test]
fn paranthesis() {
    let code = "
        let x = 21
        let y = 2
        let z = 6
        let a = 2
        echo (x + y) * z / a
    ";
    eval_ok(code, "69");
}

#[test]
fn command_interpolation() {
    let code = "
        echo $echo {$echo Hello World$}$
    ";
    eval_ok(code, "Hello World");
}

#[test]
fn command_inception() {
    let code = "
        ${${${$echo Hello World$}$}$}$
    ";
    eval_ok(code, "Hello World");
}

#[test]
fn comment() {
    let code = "
        # this is a comment
        let a = 42 # this is a comment as well
    ";
    eval_ok(code, "");
}

#[test]
fn compare_eq_texts() {
    let code = "
        let x = 'Hello World'
        let y = 'Hello World'
        echo x == y
    ";
    eval_ok(code, "1");
}

#[test]
fn compare_eq_numbers() {
    let code = "
        let x = 42
        let y = 42
        echo x == y
    ";
    eval_ok(code, "1");
}

#[test]
fn compare_neq_numbers() {
    let code = "
        let x = 42
        let y = 24
        echo x != y
    ";
    eval_ok(code, "1");
}

#[test]
fn if_statements() {
    let code = "
        let x = 42
        let y = 24
        if x == y {
            echo x
        } else {
            echo y
        }
    ";
    eval_ok(code, "24");
}

#[test]
fn if_statements_else() {
    let code = "
        let x = 42
        let y = 24
        if x == y {
            echo x
        }
        else {
            echo y
        }
    ";
    eval_ok(code, "24");
}

#[test]
fn if_statement_chain() {
    let code = "
        let x = 42
        let y = 24
        if {
            x == y {
                echo x
            }
            else {
                echo y
            }
        }
    ";
    eval_ok(code, "24");
}

#[test]
fn shorthand_add_text() {
    let code = "
        let x = 'Hello '
        x += 'World'
        echo x
    ";
    eval_ok(code, "Hello World");
}

#[test]
fn shorthand_add() {
    let code = "
        let x = 16
        x += 48
        echo x
    ";
    eval_ok(code, "64");
}

#[test]
fn shorthand_sub() {
    let code = "
        let x = 64
        x -= 16
        echo x
    ";
    eval_ok(code, "48");
}

#[test]
fn shorthand_mul() {
    let code = "
        let x = 16
        x *= 4
        echo x
    ";
    eval_ok(code, "64");
}

#[test]
fn shorthand_div() {
    let code = "
        let x = 21
        x /= 3
        echo x
    ";
    eval_ok(code, "7");
}

#[test]
fn if_statements_singleline() {
    let code = "
        let x = 42
        let y = 24
        if x == y => echo x
        else => echo y
    ";
    eval_ok(code, "24");
}

#[test]
fn if_statements_else_singleline() {
    let code = "
        let x = 42
        let y = 24
        if x == y => echo x
        else => echo y
    ";
    eval_ok(code, "24");
}

#[test]
fn if_statement_chain_singleline() {
    let code = "
        let x = 42
        let y = 24
        if {
            x == y => echo x
            else => echo y
        }
    ";
    eval_ok(code, "24");
}

#[test]
fn ternary_conditional_simple() {
    let code = "
        let a = 12 > 24
            then 42
            else 24
        echo a
    ";
    eval_ok(code, "24");
}

#[test]
fn ternary_conditional_inline() {
    let code = "
        let a = 12 > 24 then 42 else 24
        echo a
    ";
    eval_ok(code, "24");
}

#[test]
fn ternary_conditional_nested() {
    let code = "
        let a = 24 > 12
            then (12 > 24
                then 42
                else 24)
            else (12 > 6
                then 24
                else 12)
        echo a
    ";
    eval_ok(code, "24");
}

#[test]
fn infinite_loop() {
    let code = "
        let a = 0
        loop {
            a += 1
            if a == 5 {
                continue
            }
            $printf \"{a} \"$
            if a == 10 {
                break
            }
        }
    ";
    eval_ok(code, "1 2 3 4 6 7 8 9 10");
}

#[test]
fn modulo_operator() {
    let code = "
        let a = 10 % 3
        echo a
    ";
    eval_ok(code, "1");
}

#[test]
fn modulo_shorthand() {
    let code = "
        let a = 10
        a %= 3
        echo a
    ";
    eval_ok(code, "1");
}

#[test]
fn function() {
    let code = "
        fun test() {
            echo 'Hello World'
        }
        echo test()
    ";
    eval_ok(code, "Hello World");
}

#[test]
fn function_with_args() {
    let code = "
        fun test(a, b) {
            echo a
            echo b
        }
        echo test('Hello', 'World')
    ";
    eval_ok(code, "Hello\nWorld");
}

#[test]
fn function_with_args_different_types() {
    let code = "
        fun test(a, b) {
            echo a + b
        }
        echo test('Hello', 'World')
        echo test(11, 42)
    ";
    eval_ok(code, "HelloWorld\n53");
}

#[test]
fn function_with_typed_args() {
    let code = "
        fun test(a: Num, b: Num) {
            echo a + b
        }
        echo test(11, 42)
    ";
    eval_ok(code, "53");
}

#[test]
fn function_with_typed_different_args() {
    let code = "
        fun test(a: Num, b: Text) {
            echo a
            echo b
        }
        echo test(11, 'Hello')
    ";
    eval_ok(code, "11\nHello");
}

#[test]
fn function_with_typed_args_text() {
    let code = "
        fun test(a: Text, b: Text) {
            echo a + b
        }
        echo test('Hello', 'World')
    ";
    eval_ok(code, "HelloWorld");
}

#[test]
fn import_existing_file() {
    let code = "
        import * from 'tests/str/trim.ab'
        echo trim('    Hello World     ')
    ";
    let module = "
        pub fun trim(text) {
            echo text
        }
    ";
    let mut compiler = AmberCompiler::new(code.to_string(), None);
    compiler.register_module("tests/str/trim.ab", module);
    match compiler.test_eval() {
        Ok(result) => assert_eq!(result.trim(), "Hello World"),
        Err(err) => panic!("ERROR: {}", err.message.unwrap()),
    }
}

#[test]
fn import_existing_nested_file() {
    let code = "
        import * from 'tests/is_even.ab'
        echo is_even(10)
    ";
    let module = "
        pub fun is_even(number) {
            if number % 2 == 0 {
                echo 'even'
            } else {
                echo 'odd'
            }
        }
    ";
    let mut compiler = AmberCompiler::new(code.to_string(), None);
    compiler.register_module("tests/is_even.ab", module);
    match compiler.test_eval() {
        Ok(result) => assert_eq!(result.trim(), "even"),
        Err(err) => panic!("ERROR: {}", err.message.unwrap()),
    }
}
