//! The operations the calculator knows, each with its name and the number of
//! operands it takes. One table serves both the dispatch of tokens and the
//! completion of partly typed words.

use vstd::prelude::*;
use crate::text::text_eq;

verus! {

/// An operation on two operands. The left operand is the one that was entered first.
#[derive(Clone, Copy, Debug, PartialEq, Eq, Structural)]
pub enum Binary {
    /// `left + right`
    Add,
    /// `left - right`
    Sub,
    /// `left * right`
    Mul,
    /// `left / right`
    Div,
    /// The remainder of `left / right`, with the sign of `left`.
    Rem,
    /// `left` raised to the power `right`.
    Pow,
    /// The logarithm of `left` to the base `right`.
    Log,
}

/// A function of one operand. The trigonometric ones take radians.
#[derive(Clone, Copy, Debug, PartialEq, Eq, Structural)]
pub enum Unary {
    Sqrt,
    Cos,
    Sin,
    Tan,
    Abs,
}

/// A named constant.
#[derive(Clone, Copy, Debug, PartialEq, Eq, Structural)]
pub enum Constant {
    /// The ratio of a circle's circumference to its diameter.
    Pi,
    /// Euler's number.
    E,
    /// The distance from 1 to the next larger number.
    Epsilon,
    /// Positive infinity.
    Infinity,
}

/// Any operation that a token can name.
#[derive(Clone, Copy, Debug, PartialEq, Eq, Structural)]
pub enum Op {
    Binary(Binary),
    Unary(Unary),
    Constant(Constant),
}

impl Binary {
    /// The token that names this operation.
    pub open spec fn spec_name(self) -> Seq<char> {
        match self {
            Binary::Add => "+"@,
            Binary::Sub => "-"@,
            Binary::Mul => "*"@,
            Binary::Div => "/"@,
            Binary::Rem => "%"@,
            Binary::Pow => "^"@,
            Binary::Log => "log"@,
        }
    }

    /// The name as a string.
    pub fn name(self) -> (r: &'static str)
        ensures
            r@ == self.spec_name(),
    {
        match self {
            Binary::Add => "+",
            Binary::Sub => "-",
            Binary::Mul => "*",
            Binary::Div => "/",
            Binary::Rem => "%",
            Binary::Pow => "^",
            Binary::Log => "log",
        }
    }
}

impl Unary {
    /// The token that names this function.
    pub open spec fn spec_name(self) -> Seq<char> {
        match self {
            Unary::Sqrt => "sqrt"@,
            Unary::Cos => "cos"@,
            Unary::Sin => "sin"@,
            Unary::Tan => "tan"@,
            Unary::Abs => "abs"@,
        }
    }

    /// The name as a string.
    pub fn name(self) -> (r: &'static str)
        ensures
            r@ == self.spec_name(),
    {
        match self {
            Unary::Sqrt => "sqrt",
            Unary::Cos => "cos",
            Unary::Sin => "sin",
            Unary::Tan => "tan",
            Unary::Abs => "abs",
        }
    }
}

impl Constant {
    /// The token that names this constant.
    pub open spec fn spec_name(self) -> Seq<char> {
        match self {
            Constant::Pi => "PI"@,
            Constant::E => "E"@,
            Constant::Epsilon => "EPSILON"@,
            Constant::Infinity => "INFINITY"@,
        }
    }

    /// The name as a string.
    pub fn name(self) -> (r: &'static str)
        ensures
            r@ == self.spec_name(),
    {
        match self {
            Constant::Pi => "PI",
            Constant::E => "E",
            Constant::Epsilon => "EPSILON",
            Constant::Infinity => "INFINITY",
        }
    }
}

impl Op {
    /// The token that names this operation.
    pub open spec fn spec_name(self) -> Seq<char> {
        match self {
            Op::Binary(b) => b.spec_name(),
            Op::Unary(u) => u.spec_name(),
            Op::Constant(c) => c.spec_name(),
        }
    }

    /// The name as a string.
    pub fn name(self) -> (r: &'static str)
        ensures
            r@ == self.spec_name(),
    {
        match self {
            Op::Binary(b) => b.name(),
            Op::Unary(u) => u.name(),
            Op::Constant(c) => c.name(),
        }
    }

    /// The number of operands that this operation takes from the stack.
    pub open spec fn spec_arity(self) -> nat {
        match self {
            Op::Binary(_) => 2,
            Op::Unary(_) => 1,
            Op::Constant(_) => 0,
        }
    }

    /// The arity as a machine number.
    pub fn arity(self) -> (r: usize)
        ensures
            r == self.spec_arity(),
    {
        match self {
            Op::Binary(_) => 2,
            Op::Unary(_) => 1,
            Op::Constant(_) => 0,
        }
    }

    /// The operation that `token` names, if it names one. The match is exact:
    /// no case is folded and nothing is trimmed.
    pub fn parse(token: &str) -> (r: Option<Op>)
        ensures
            r == named(token@),
    {
        let table = all_ops();
        let mut i: usize = 0;
        while i < table.len()
            invariant
                table@ == every_op(),
                i <= table.len(),
                forall|j: int| 0 <= j < i ==> table@[j].spec_name() != token@,
            decreases table.len() - i,
        {
            let op = table[i];
            if text_eq(token, op.name()) {
                proof {
                    lemma_name_determines_op(op, choose|o: Op| o.spec_name() == token@);
                }
                return Some(op);
            }
            i += 1;
        }
        proof {
            assert forall|o: Op| o.spec_name() != token@ by {
                lemma_every_op_is_listed(o);
            }
        }
        None
    }
}

/// The operation whose name is `token`, if there is one.
pub open spec fn named(token: Seq<char>) -> Option<Op> {
    if exists|op: Op| op.spec_name() == token {
        Some(choose|op: Op| op.spec_name() == token)
    } else {
        None
    }
}

/// Every operation, once.
pub open spec fn every_op() -> Seq<Op> {
    seq![
        Op::Binary(Binary::Add),
        Op::Binary(Binary::Sub),
        Op::Binary(Binary::Mul),
        Op::Binary(Binary::Div),
        Op::Binary(Binary::Rem),
        Op::Binary(Binary::Pow),
        Op::Binary(Binary::Log),
        Op::Unary(Unary::Sqrt),
        Op::Unary(Unary::Cos),
        Op::Unary(Unary::Sin),
        Op::Unary(Unary::Tan),
        Op::Unary(Unary::Abs),
        Op::Constant(Constant::Pi),
        Op::Constant(Constant::E),
        Op::Constant(Constant::Epsilon),
        Op::Constant(Constant::Infinity),
    ]
}

/// The operations of [`every_op`], as a vector.
pub fn all_ops() -> (r: Vec<Op>)
    ensures
        r@ == every_op(),
{
    vec![
        Op::Binary(Binary::Add),
        Op::Binary(Binary::Sub),
        Op::Binary(Binary::Mul),
        Op::Binary(Binary::Div),
        Op::Binary(Binary::Rem),
        Op::Binary(Binary::Pow),
        Op::Binary(Binary::Log),
        Op::Unary(Unary::Sqrt),
        Op::Unary(Unary::Cos),
        Op::Unary(Unary::Sin),
        Op::Unary(Unary::Tan),
        Op::Unary(Unary::Abs),
        Op::Constant(Constant::Pi),
        Op::Constant(Constant::E),
        Op::Constant(Constant::Epsilon),
        Op::Constant(Constant::Infinity),
    ]
}

/// The operations that are offered when a word is completed, in the order in
/// which they are offered. The operators written with a symbol are not among them.
pub open spec fn commands() -> Seq<Op> {
    seq![
        Op::Binary(Binary::Log),
        Op::Unary(Unary::Cos),
        Op::Unary(Unary::Sin),
        Op::Unary(Unary::Tan),
        Op::Unary(Unary::Sqrt),
        Op::Unary(Unary::Abs),
        Op::Constant(Constant::Pi),
        Op::Constant(Constant::Epsilon),
        Op::Constant(Constant::Infinity),
        Op::Constant(Constant::E),
    ]
}

/// The operations of [`commands`], as a vector.
pub fn command_set() -> (r: Vec<Op>)
    ensures
        r@ == commands(),
{
    vec![
        Op::Binary(Binary::Log),
        Op::Unary(Unary::Cos),
        Op::Unary(Unary::Sin),
        Op::Unary(Unary::Tan),
        Op::Unary(Unary::Sqrt),
        Op::Unary(Unary::Abs),
        Op::Constant(Constant::Pi),
        Op::Constant(Constant::Epsilon),
        Op::Constant(Constant::Infinity),
        Op::Constant(Constant::E),
    ]
}

/// The names of [`commands`], in the same order.
pub open spec fn command_names() -> Seq<Seq<char>> {
    commands().map_values(|op: Op| op.spec_name())
}

/// No operation is missing from [`every_op`].
pub proof fn lemma_every_op_is_listed(op: Op)
    ensures
        exists|i: int| 0 <= i < every_op().len() && every_op()[i] == op,
{
    let all = every_op();
    match op {
        Op::Binary(Binary::Add) => assert(all[0] == op),
        Op::Binary(Binary::Sub) => assert(all[1] == op),
        Op::Binary(Binary::Mul) => assert(all[2] == op),
        Op::Binary(Binary::Div) => assert(all[3] == op),
        Op::Binary(Binary::Rem) => assert(all[4] == op),
        Op::Binary(Binary::Pow) => assert(all[5] == op),
        Op::Binary(Binary::Log) => assert(all[6] == op),
        Op::Unary(Unary::Sqrt) => assert(all[7] == op),
        Op::Unary(Unary::Cos) => assert(all[8] == op),
        Op::Unary(Unary::Sin) => assert(all[9] == op),
        Op::Unary(Unary::Tan) => assert(all[10] == op),
        Op::Unary(Unary::Abs) => assert(all[11] == op),
        Op::Constant(Constant::Pi) => assert(all[12] == op),
        Op::Constant(Constant::E) => assert(all[13] == op),
        Op::Constant(Constant::Epsilon) => assert(all[14] == op),
        Op::Constant(Constant::Infinity) => assert(all[15] == op),
    }
}

/// The characters of each name.
pub proof fn lemma_names_spelled()
    ensures
        "+"@ == seq!['+'],
        "-"@ == seq!['-'],
        "*"@ == seq!['*'],
        "/"@ == seq!['/'],
        "%"@ == seq!['%'],
        "^"@ == seq!['^'],
        "log"@ == seq!['l', 'o', 'g'],
        "sqrt"@ == seq!['s', 'q', 'r', 't'],
        "cos"@ == seq!['c', 'o', 's'],
        "sin"@ == seq!['s', 'i', 'n'],
        "tan"@ == seq!['t', 'a', 'n'],
        "abs"@ == seq!['a', 'b', 's'],
        "PI"@ == seq!['P', 'I'],
        "E"@ == seq!['E'],
        "EPSILON"@ == seq!['E', 'P', 'S', 'I', 'L', 'O', 'N'],
        "INFINITY"@ == seq!['I', 'N', 'F', 'I', 'N', 'I', 'T', 'Y'],
{
    reveal_strlit("+");
    reveal_strlit("-");
    reveal_strlit("*");
    reveal_strlit("/");
    reveal_strlit("%");
    reveal_strlit("^");
    reveal_strlit("log");
    reveal_strlit("sqrt");
    reveal_strlit("cos");
    reveal_strlit("sin");
    reveal_strlit("tan");
    reveal_strlit("abs");
    reveal_strlit("PI");
    reveal_strlit("E");
    reveal_strlit("EPSILON");
    reveal_strlit("INFINITY");
    assert("+"@ =~= seq!['+']);
    assert("-"@ =~= seq!['-']);
    assert("*"@ =~= seq!['*']);
    assert("/"@ =~= seq!['/']);
    assert("%"@ =~= seq!['%']);
    assert("^"@ =~= seq!['^']);
    assert("log"@ =~= seq!['l', 'o', 'g']);
    assert("sqrt"@ =~= seq!['s', 'q', 'r', 't']);
    assert("cos"@ =~= seq!['c', 'o', 's']);
    assert("sin"@ =~= seq!['s', 'i', 'n']);
    assert("tan"@ =~= seq!['t', 'a', 'n']);
    assert("abs"@ =~= seq!['a', 'b', 's']);
    assert("PI"@ =~= seq!['P', 'I']);
    assert("E"@ =~= seq!['E']);
    assert("EPSILON"@ =~= seq!['E', 'P', 'S', 'I', 'L', 'O', 'N']);
    assert("INFINITY"@ =~= seq!['I', 'N', 'F', 'I', 'N', 'I', 'T', 'Y']);
}

/// The length of each operation's name and its first character.
proof fn lemma_name_shape(op: Op)
    ensures
        op.spec_name().len() == name_shape(op).0,
        op.spec_name()[0] == name_shape(op).1,
{
    lemma_names_spelled();
}

spec fn name_shape(op: Op) -> (nat, char) {
    match op {
        Op::Binary(Binary::Add) => (1, '+'),
        Op::Binary(Binary::Sub) => (1, '-'),
        Op::Binary(Binary::Mul) => (1, '*'),
        Op::Binary(Binary::Div) => (1, '/'),
        Op::Binary(Binary::Rem) => (1, '%'),
        Op::Binary(Binary::Pow) => (1, '^'),
        Op::Binary(Binary::Log) => (3, 'l'),
        Op::Unary(Unary::Sqrt) => (4, 's'),
        Op::Unary(Unary::Cos) => (3, 'c'),
        Op::Unary(Unary::Sin) => (3, 's'),
        Op::Unary(Unary::Tan) => (3, 't'),
        Op::Unary(Unary::Abs) => (3, 'a'),
        Op::Constant(Constant::Pi) => (2, 'P'),
        Op::Constant(Constant::E) => (1, 'E'),
        Op::Constant(Constant::Epsilon) => (7, 'E'),
        Op::Constant(Constant::Infinity) => (8, 'I'),
    }
}

/// No two operations share a name.
pub proof fn lemma_name_determines_op(a: Op, b: Op)
    requires
        a.spec_name() == b.spec_name(),
    ensures
        a == b,
{
    lemma_name_shape(a);
    lemma_name_shape(b);
}

/// A name is read back as the operation that bears it.
pub proof fn lemma_named_of_name(op: Op)
    ensures
        named(op.spec_name()) == Some(op),
{
    let found = choose|o: Op| o.spec_name() == op.spec_name();
    lemma_name_determines_op(found, op);
}

} // verus!
