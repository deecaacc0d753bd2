use rpn_calc::machine::{Action, EvalError, Evaluator, Phase, Reply};
use rpn_calc::operation::{Binary, Constant, Op, Unary};

fn binary(op: Binary, left: f64, right: f64) -> f64 {
    match op {
        Binary::Add => left + right,
        Binary::Sub => left - right,
        Binary::Mul => left * right,
        Binary::Div => left / right,
        Binary::Rem => left % right,
        Binary::Pow => left.powf(right),
        Binary::Log => left.log(right),
    }
}

fn unary(function: Unary, operand: f64) -> f64 {
    match function {
        Unary::Sqrt => operand.sqrt(),
        Unary::Cos => operand.cos(),
        Unary::Sin => operand.sin(),
        Unary::Tan => operand.tan(),
        Unary::Abs => operand.abs(),
    }
}

fn constant(c: Constant) -> f64 {
    match c {
        Constant::Pi => std::f64::consts::PI,
        Constant::E => std::f64::consts::E,
        Constant::Epsilon => f64::EPSILON,
        Constant::Infinity => f64::INFINITY,
    }
}

fn number(text: &str) -> Reply<f64> {
    match text.parse::<f64>() {
        Ok(x) => Reply::Value(x),
        Err(_) => Reply::NotANumber,
    }
}

struct Outcome {
    end: Action<f64>,
    asked: Vec<String>,
    applied: Vec<String>,
}

/// Feeds `line` to the machine and serves its requests until the line ends.
/// Each question for a variable takes the next of `answers`.
fn run(machine: &mut Evaluator<f64>, line: &str, answers: &[Option<&str>]) -> Outcome {
    let mut asked = Vec::new();
    let mut applied = Vec::new();
    let mut next_answer = 0;
    let mut action = machine.begin(line);
    loop {
        let reply = match action {
            Action::Binary { op, left, right } => {
                applied.push(format!("{} {} {}", left, op.name(), right));
                Reply::Value(binary(op, left, right))
            }
            Action::Unary { function, operand } => {
                applied.push(format!("{} {}", function.name(), operand));
                Reply::Value(unary(function, operand))
            }
            Action::Constant(c) => Reply::Value(constant(c)),
            Action::Parse => number(machine.token().unwrap()),
            Action::Ask => {
                asked.push(machine.token().unwrap().to_string());
                let answer = answers[next_answer];
                next_answer += 1;
                match answer {
                    Some(text) => number(text),
                    None => Reply::EndOfInput,
                }
            }
            end => return Outcome { end, asked, applied },
        };
        action = machine.resume(reply);
    }
}

fn result_of(line: &str) -> Action<f64> {
    run(&mut Evaluator::new(), line, &[]).end
}

#[test]
fn new_machine_awaits_a_line() {
    let m: Evaluator<f64> = Evaluator::new();
    assert_eq!(m.phase(), Phase::AwaitingLine);
    assert_eq!(m.token(), None);
    assert!(m.stack().is_empty());
    assert_eq!(m.lookup("x"), None);
}

#[test]
fn sum_of_two_numbers() {
    assert_eq!(result_of("1 2 +"), Action::Report(3.0));
    assert_eq!(result_of("0.1 0.2 +"), Action::Report(0.1 + 0.2));
    assert_eq!(result_of("-1.5e3 2 +"), Action::Report(-1498.0));
}

#[test]
fn operators_take_the_earlier_operand_as_left() {
    assert_eq!(result_of("2 3 -"), Action::Report(-1.0));
    assert_eq!(result_of("1 4 /"), Action::Report(0.25));
    assert_eq!(result_of("7 3 %"), Action::Report(1.0));
    assert_eq!(result_of("2 10 ^"), Action::Report(1024.0));
    assert_eq!(result_of("3 4 *"), Action::Report(12.0));
}

#[test]
fn remainder_has_the_sign_of_the_left_operand() {
    assert_eq!(result_of("-7 3 %"), Action::Report(-1.0));
    assert_eq!(result_of("7 -3 %"), Action::Report(1.0));
}

#[test]
fn division_by_zero_follows_ieee() {
    assert_eq!(result_of("1 0.0 /"), Action::Report(f64::INFINITY));
    assert_eq!(result_of("-1 0.0 /"), Action::Report(f64::NEG_INFINITY));
    match result_of("0.0 0.0 /") {
        Action::Report(x) => assert!(x.is_nan()),
        other => panic!("{:?}", other),
    }
}

#[test]
fn machine_asks_for_each_step_in_turn() {
    let mut m: Evaluator<f64> = Evaluator::new();
    assert_eq!(m.begin("6 2 -"), Action::Parse);
    assert_eq!(m.phase(), Phase::AwaitingLiteral);
    assert_eq!(m.token(), Some("6"));
    assert_eq!(m.resume(Reply::Value(6.0)), Action::Parse);
    assert_eq!(m.token(), Some("2"));
    assert_eq!(m.stack(), &vec![6.0]);
    assert_eq!(
        m.resume(Reply::Value(2.0)),
        Action::Binary { op: Binary::Sub, left: 6.0, right: 2.0 }
    );
    assert_eq!(m.phase(), Phase::AwaitingValue);
    assert_eq!(m.token(), Some("-"));
    assert!(m.stack().is_empty());
    assert_eq!(m.resume(Reply::Value(4.0)), Action::Report(4.0));
    assert_eq!(m.phase(), Phase::AwaitingLine);
    assert_eq!(m.token(), None);
    assert!(m.stack().is_empty());
}

#[test]
fn operation_leaves_the_lower_stack_alone() {
    let mut m: Evaluator<f64> = Evaluator::new();
    m.begin("1 2 3 + +");
    m.resume(Reply::Value(1.0));
    m.resume(Reply::Value(2.0));
    assert_eq!(
        m.resume(Reply::Value(3.0)),
        Action::Binary { op: Binary::Add, left: 2.0, right: 3.0 }
    );
    assert_eq!(m.stack(), &vec![1.0]);
    assert_eq!(
        m.resume(Reply::Value(5.0)),
        Action::Binary { op: Binary::Add, left: 1.0, right: 5.0 }
    );
    assert_eq!(m.resume(Reply::Value(6.0)), Action::Report(6.0));
    assert_eq!(result_of("1 2 3 + +"), Action::Report(6.0));
    assert_eq!(result_of("1 2 + 3 *"), Action::Report(9.0));
}

#[test]
fn constants() {
    assert_eq!(result_of("PI"), Action::Report(std::f64::consts::PI));
    assert_eq!(result_of("E"), Action::Report(std::f64::consts::E));
    assert_eq!(result_of("EPSILON"), Action::Report(f64::EPSILON));
    assert_eq!(result_of("INFINITY"), Action::Report(f64::INFINITY));
    match result_of("PI") {
        Action::Report(x) => assert!((x - 3.14159265358979).abs() < 1e-14),
        other => panic!("{:?}", other),
    }
    match result_of("E") {
        Action::Report(x) => assert!((x - 2.71828182845905).abs() < 1e-14),
        other => panic!("{:?}", other),
    }
    match result_of("1 EPSILON +") {
        Action::Report(x) => {
            assert!(x > 1.0);
            assert_eq!(x.to_bits(), 1.0f64.to_bits() + 1);
        }
        other => panic!("{:?}", other),
    }
}

#[test]
fn constant_is_asked_of_the_caller_and_takes_no_operand() {
    let mut m: Evaluator<f64> = Evaluator::new();
    assert_eq!(m.begin("PI"), Action::Constant(Constant::Pi));
    assert_eq!(m.phase(), Phase::AwaitingValue);
    assert!(m.stack().is_empty());
    assert_eq!(m.resume(Reply::Value(3.0)), Action::Report(3.0));
}

#[test]
fn functions() {
    assert_eq!(result_of("4 sqrt"), Action::Report(2.0));
    assert_eq!(result_of("-5 abs"), Action::Report(5.0));
    assert_eq!(result_of("8 2 log"), Action::Report(3.0));
    assert_eq!(result_of("0 cos"), Action::Report(1.0));
    assert_eq!(result_of("0 sin"), Action::Report(0.0));
    assert_eq!(result_of("0 tan"), Action::Report(0.0));
}

#[test]
fn log_takes_the_base_from_the_top() {
    let mut m: Evaluator<f64> = Evaluator::new();
    let out = run(&mut m, "8 2 log", &[]);
    assert_eq!(out.applied, vec!["8 log 2"]);
    assert_eq!(out.end, Action::Report(3.0));
}

#[test]
fn two_numbers_without_operator_are_unconsumed() {
    let mut m: Evaluator<f64> = Evaluator::new();
    assert_eq!(run(&mut m, "1 2", &[]).end, Action::Fail(EvalError::Unconsumed { top: 2.0 }));
    assert_eq!(m.phase(), Phase::AwaitingLine);
    assert!(m.stack().is_empty());
    assert_eq!(run(&mut m, "1 2 +", &[]).end, Action::Report(3.0));
    assert_eq!(result_of("1 2 3 +"), Action::Fail(EvalError::Unconsumed { top: 5.0 }));
}

#[test]
fn blank_line_has_no_result() {
    let mut m: Evaluator<f64> = Evaluator::new();
    assert_eq!(m.begin("   "), Action::Fail(EvalError::MissingResult));
    assert_eq!(m.phase(), Phase::AwaitingLine);
    assert_eq!(m.begin("\t"), Action::Fail(EvalError::MissingResult));
}

#[test]
fn empty_line_exits_for_good() {
    let mut m: Evaluator<f64> = Evaluator::new();
    assert_eq!(m.begin(""), Action::Exit);
    assert_eq!(m.phase(), Phase::Exited);
    assert_eq!(m.begin("1 2 +"), Action::Exit);
    assert_eq!(m.resume(Reply::Value(1.0)), Action::Exit);
    assert_eq!(m.resume(Reply::NotANumber), Action::Exit);
    assert_eq!(m.phase(), Phase::Exited);
    assert_eq!(m.token(), None);
}

#[test]
fn operator_without_operands_is_an_arity_error() {
    assert_eq!(
        result_of("+"),
        Action::Fail(EvalError::Arity { op: Op::Binary(Binary::Add), missing: 2 })
    );
    assert_eq!(
        result_of("1 +"),
        Action::Fail(EvalError::Arity { op: Op::Binary(Binary::Add), missing: 1 })
    );
    assert_eq!(
        result_of("1 log"),
        Action::Fail(EvalError::Arity { op: Op::Binary(Binary::Log), missing: 1 })
    );
    assert_eq!(
        result_of("sqrt"),
        Action::Fail(EvalError::Arity { op: Op::Unary(Unary::Sqrt), missing: 1 })
    );
    assert_eq!(
        result_of("1 2 + *"),
        Action::Fail(EvalError::Arity { op: Op::Binary(Binary::Mul), missing: 1 })
    );
}

#[test]
fn error_clears_stack_and_variables() {
    let mut m: Evaluator<f64> = Evaluator::new();
    let out = run(&mut m, "x 1 2 3 sqrt sqrt sqrt sqrt sqrt ^ ^ ^ ^ ^", &[Some("7")]);
    assert_eq!(
        out.end,
        Action::Fail(EvalError::Arity { op: Op::Binary(Binary::Pow), missing: 1 })
    );
    assert!(m.stack().is_empty());
    assert_eq!(m.lookup("x"), None);
    assert_eq!(m.phase(), Phase::AwaitingLine);
}

#[test]
fn unknown_name_is_asked_once_on_a_line() {
    let mut m: Evaluator<f64> = Evaluator::new();
    let out = run(&mut m, "x x +", &[Some("3")]);
    assert_eq!(out.asked, vec!["x"]);
    assert_eq!(out.end, Action::Report(6.0));
    let out = run(&mut m, "x y x y * * *", &[Some("2"), Some("5")]);
    assert_eq!(out.asked, vec!["x", "y"]);
    assert_eq!(out.end, Action::Report(100.0));
}

#[test]
fn name_is_asked_again_on_the_next_line() {
    let mut m: Evaluator<f64> = Evaluator::new();
    let out = run(&mut m, "x", &[Some("3")]);
    assert_eq!(out.asked, vec!["x"]);
    assert_eq!(out.end, Action::Report(3.0));
    assert_eq!(m.lookup("x"), None);
    let out = run(&mut m, "x 1 +", &[Some("10")]);
    assert_eq!(out.asked, vec!["x"]);
    assert_eq!(out.end, Action::Report(11.0));
}

#[test]
fn answer_is_kept_while_the_line_goes_on() {
    let mut m: Evaluator<f64> = Evaluator::new();
    assert_eq!(m.begin("rate rate *"), Action::Parse);
    assert_eq!(m.resume(Reply::NotANumber), Action::Ask);
    assert_eq!(m.phase(), Phase::AwaitingReply);
    assert_eq!(m.token(), Some("rate"));
    assert_eq!(m.lookup("rate"), None);
    assert_eq!(m.resume(Reply::Value(1.5)), Action::Parse);
    assert_eq!(m.lookup("rate"), Some(1.5));
    assert_eq!(m.stack(), &vec![1.5]);
    assert_eq!(
        m.resume(Reply::NotANumber),
        Action::Binary { op: Binary::Mul, left: 1.5, right: 1.5 }
    );
    assert_eq!(m.lookup("rate"), Some(1.5));
    assert_eq!(m.resume(Reply::Value(2.25)), Action::Report(2.25));
    assert_eq!(m.lookup("rate"), None);
}

#[test]
fn answer_that_is_no_number_is_a_parse_error() {
    let mut m: Evaluator<f64> = Evaluator::new();
    let out = run(&mut m, "1 x +", &[Some("abc")]);
    assert_eq!(out.asked, vec!["x"]);
    assert_eq!(out.end, Action::Fail(EvalError::Parse));
    assert!(m.stack().is_empty());
    assert_eq!(m.phase(), Phase::AwaitingLine);
}

#[test]
fn end_of_input_at_a_question_is_an_error() {
    let mut m: Evaluator<f64> = Evaluator::new();
    let out = run(&mut m, "x", &[None]);
    assert_eq!(out.end, Action::Fail(EvalError::EndOfInput));
    assert_eq!(m.phase(), Phase::AwaitingLine);
}

#[test]
fn names_are_case_sensitive_and_exact() {
    let mut m: Evaluator<f64> = Evaluator::new();
    let out = run(&mut m, "pi Pi +", &[Some("1"), Some("2")]);
    assert_eq!(out.asked, vec!["pi", "Pi"]);
    assert_eq!(out.end, Action::Report(3.0));
}

#[test]
fn token_that_reads_as_a_number_is_no_variable() {
    assert_eq!(result_of("inf"), Action::Report(f64::INFINITY));
    assert_eq!(result_of("1e2"), Action::Report(100.0));
    assert_eq!(result_of(".5"), Action::Report(0.5));
}

#[test]
fn line_in_the_middle_of_another_is_out_of_turn() {
    let mut m: Evaluator<f64> = Evaluator::new();
    assert_eq!(m.begin("1 2 +"), Action::Parse);
    assert_eq!(m.begin("3"), Action::Fail(EvalError::OutOfTurn));
    assert_eq!(m.phase(), Phase::AwaitingLine);
    assert!(m.stack().is_empty());
}

#[test]
fn reply_that_was_not_asked_for_is_out_of_turn() {
    let mut m: Evaluator<f64> = Evaluator::new();
    assert_eq!(m.resume(Reply::Value(1.0)), Action::Fail(EvalError::OutOfTurn));
    assert_eq!(m.begin("PI"), Action::Constant(Constant::Pi));
    assert_eq!(m.resume(Reply::NotANumber), Action::Fail(EvalError::OutOfTurn));
    assert_eq!(m.begin("1"), Action::Parse);
    assert_eq!(m.resume(Reply::EndOfInput), Action::Fail(EvalError::OutOfTurn));
    assert_eq!(m.phase(), Phase::AwaitingLine);
}

#[test]
fn trace_of_applied_operations() {
    let mut m: Evaluator<f64> = Evaluator::new();
    let out = run(&mut m, "3 4 + 2 * sqrt", &[]);
    assert_eq!(out.applied, vec!["3 + 4", "7 * 2", "sqrt 14"]);
    assert_eq!(out.end, Action::Report(14.0f64.sqrt()));
}
