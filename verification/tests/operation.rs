use rpn_calc::operation::{all_ops, command_set, Binary, Constant, Op, Unary};

#[test]
fn each_name_is_read_as_its_operation() {
    assert_eq!(Op::parse("+"), Some(Op::Binary(Binary::Add)));
    assert_eq!(Op::parse("-"), Some(Op::Binary(Binary::Sub)));
    assert_eq!(Op::parse("*"), Some(Op::Binary(Binary::Mul)));
    assert_eq!(Op::parse("/"), Some(Op::Binary(Binary::Div)));
    assert_eq!(Op::parse("%"), Some(Op::Binary(Binary::Rem)));
    assert_eq!(Op::parse("^"), Some(Op::Binary(Binary::Pow)));
    assert_eq!(Op::parse("log"), Some(Op::Binary(Binary::Log)));
    assert_eq!(Op::parse("sqrt"), Some(Op::Unary(Unary::Sqrt)));
    assert_eq!(Op::parse("cos"), Some(Op::Unary(Unary::Cos)));
    assert_eq!(Op::parse("sin"), Some(Op::Unary(Unary::Sin)));
    assert_eq!(Op::parse("tan"), Some(Op::Unary(Unary::Tan)));
    assert_eq!(Op::parse("abs"), Some(Op::Unary(Unary::Abs)));
    assert_eq!(Op::parse("PI"), Some(Op::Constant(Constant::Pi)));
    assert_eq!(Op::parse("E"), Some(Op::Constant(Constant::E)));
    assert_eq!(Op::parse("EPSILON"), Some(Op::Constant(Constant::Epsilon)));
    assert_eq!(Op::parse("INFINITY"), Some(Op::Constant(Constant::Infinity)));
}

#[test]
fn other_tokens_name_no_operation() {
    for t in ["", " ", "1", "x", "Log", "pi", "e", "SQRT", "++", "+ ", " +", "lo", "logg", "infinity", "**"] {
        assert_eq!(Op::parse(t), None, "token {:?}", t);
    }
}

#[test]
fn names_are_read_back() {
    let all = all_ops();
    assert_eq!(all.len(), 16);
    for op in all {
        assert_eq!(Op::parse(op.name()), Some(op));
    }
}

#[test]
fn arity_is_the_number_of_operands() {
    assert_eq!(Op::Binary(Binary::Add).arity(), 2);
    assert_eq!(Op::Binary(Binary::Log).arity(), 2);
    assert_eq!(Op::Unary(Unary::Sqrt).arity(), 1);
    assert_eq!(Op::Unary(Unary::Abs).arity(), 1);
    assert_eq!(Op::Constant(Constant::Pi).arity(), 0);
    for op in all_ops() {
        let want = match op {
            Op::Binary(_) => 2,
            Op::Unary(_) => 1,
            Op::Constant(_) => 0,
        };
        assert_eq!(op.arity(), want);
    }
}

#[test]
fn command_set_is_the_named_operations_in_order() {
    let names: Vec<&str> = command_set().into_iter().map(|op| op.name()).collect();
    assert_eq!(
        names,
        vec!["log", "cos", "sin", "tan", "sqrt", "abs", "PI", "EPSILON", "INFINITY", "E"]
    );
}

#[test]
fn names_by_kind() {
    assert_eq!(Binary::Rem.name(), "%");
    assert_eq!(Binary::Pow.name(), "^");
    assert_eq!(Unary::Tan.name(), "tan");
    assert_eq!(Constant::Epsilon.name(), "EPSILON");
}
