use darkwallet::expr::{evaluate, load_var, const_value, EvalError, Var, Program};
use darkwallet::fixed::UNIT;
use darkwallet::lexer::CompileError;
use darkwallet::parser::Compiler;

fn env(w: i64, h: i64) -> Vec<Var> {
    vec![
        Var { name: "w".to_string(), value: w * UNIT },
        Var { name: "h".to_string(), value: h * UNIT },
    ]
}

fn compile(src: &str) -> Program {
    Compiler::new().compile(src).unwrap()
}

#[test]
fn aspect_ratio_example() {
    let p = compile("r = w / h; if r < 1.555 { r / 1.555 } else { 1 }");
    // r = 1 is below 1.555, so the first branch gives 1 / 1.555 = 0.643086...
    assert_eq!(evaluate(&p, &env(1000, 1000)), Ok(643_086));
    // r = 2 is not, so the second branch gives 1.
    assert_eq!(evaluate(&p, &env(2000, 1000)), Ok(1_000_000));
    // 0.5 / 1.555 = 0.321543..., rounded toward zero to six decimals
    assert_eq!(evaluate(&p, &env(500, 1000)), Ok(321_543));
}

#[test]
fn aspect_ratio_with_named_constant() {
    let mut cc = Compiler::new();
    cc.add_const("R", 1_555_000);
    let p = cc.compile("r = w / h; if r < R { 1 } else { R / r }").unwrap();
    assert_eq!(evaluate(&p, &env(500, 1000)), Ok(1_000_000));
    // 1.555 / 2 = 0.7775
    assert_eq!(evaluate(&p, &env(2000, 1000)), Ok(777_500));
}

#[test]
fn evaluating_twice_gives_the_same_result() {
    let p = compile("a = w * 2; b = a - h; (a + b) / 3");
    let e = env(30, 10);
    let first = evaluate(&p, &e);
    let second = evaluate(&p, &e);
    assert_eq!(first, second);
    // a = 60, b = 50, (60 + 50) / 3 = 36.666666
    assert_eq!(first, Ok(36_666_666));
}

#[test]
fn precedence_and_associativity() {
    let e = env(0, 0);
    assert_eq!(evaluate(&compile("1 + 2 * 3"), &e), Ok(7 * UNIT));
    assert_eq!(evaluate(&compile("(1 + 2) * 3"), &e), Ok(9 * UNIT));
    assert_eq!(evaluate(&compile("8 - 3 - 2"), &e), Ok(3 * UNIT));
    assert_eq!(evaluate(&compile("8 / 4 / 2"), &e), Ok(UNIT));
    assert_eq!(evaluate(&compile("-2 * 3"), &e), Ok(-6 * UNIT));
    assert_eq!(evaluate(&compile("0.25;"), &e), Ok(250_000));
}

#[test]
fn comparisons() {
    let e = env(5, 5);
    assert_eq!(evaluate(&compile("if w <= h { 1 } else { 2 }"), &e), Ok(UNIT));
    assert_eq!(evaluate(&compile("if w < h { 1 } else { 2 }"), &e), Ok(2 * UNIT));
    assert_eq!(evaluate(&compile("if w >= 5 { 1 } else { 2 }"), &e), Ok(UNIT));
    assert_eq!(evaluate(&compile("if w > 5 { 1 } else { 2 }"), &e), Ok(2 * UNIT));
}

#[test]
fn local_bindings_shadow_the_environment() {
    let p = compile("w = 7; w + h");
    assert_eq!(evaluate(&p, &env(100, 1)), Ok(8 * UNIT));
}

#[test]
fn division_by_zero_is_an_error() {
    let p = compile("w / h");
    assert_eq!(evaluate(&p, &env(1, 0)), Err(EvalError::DivByZero));
}

#[test]
fn undefined_variable_is_an_error() {
    let p = compile("x + 1");
    assert_eq!(evaluate(&p, &env(1, 1)), Err(EvalError::UndefinedVar));
}

#[test]
fn overflow_is_an_error() {
    let p = compile("w * w");
    assert_eq!(evaluate(&p, &env(10_000_000, 1)), Err(EvalError::Overflow));
}

#[test]
fn single_load_and_constant_programs() {
    assert_eq!(evaluate(&load_var("h"), &env(3, 4)), Ok(4 * UNIT));
    assert_eq!(evaluate(&const_value(42), &env(3, 4)), Ok(42));
}

#[test]
fn bad_character_is_reported_with_its_position() {
    assert_eq!(Compiler::new().compile("w # h").unwrap_err(), CompileError::BadChar(2));
}

#[test]
fn too_many_decimals_is_a_bad_number() {
    assert_eq!(Compiler::new().compile("1.1234567").unwrap_err(), CompileError::BadNumber(0));
    assert!(Compiler::new().compile("1.123456").is_ok());
}

#[test]
fn number_beyond_range_is_a_bad_number() {
    assert_eq!(Compiler::new().compile("1 + 99999999999999").unwrap_err(), CompileError::BadNumber(4));
}

#[test]
fn malformed_programs_are_syntax_errors() {
    for src in ["", "1 +", "if w < h { 1 }", "r = 1", "(1", "1 2", "w < h", "1;;"] {
        assert_eq!(Compiler::new().compile(src).unwrap_err(), CompileError::Syntax, "{src}");
    }
}
