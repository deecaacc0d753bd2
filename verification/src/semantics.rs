//! What a line means, and that the machine computes it.
//!
//! The meaning of a line is given at one stroke, by going through its tokens
//! with a stack, for a caller that is described by what it would answer. The
//! machine reaches the same end step by step, when each of its requests is
//! answered in that way.

use vstd::prelude::*;
use crate::lexer::tokens_of;
use crate::machine::{Action, EvalError, Reply, State};
use crate::operation::{lemma_named_of_name, named, Binary, Constant, Op, Unary};

verus! {

/// The caller's side of an evaluation: what it answers to each request.
#[verifier::reject_recursive_types(T)]
pub struct Caller<T> {
    /// What an operation makes of its left and right operand.
    pub binary: spec_fn(Binary, T, T) -> T,
    /// What a function makes of its operand.
    pub unary: spec_fn(Unary, T) -> T,
    /// The value of a constant.
    pub constant: spec_fn(Constant) -> T,
    /// The number that a token spells, if it spells one.
    pub number: spec_fn(Seq<char>) -> Option<T>,
    /// What comes back when the user is asked for the value of a name.
    pub answer: spec_fn(Seq<char>) -> Reply<T>,
}

impl<T> Caller<T> {
    /// The caller's reply to `action`, handed out by the machine in state `s`.
    pub open spec fn reply_to(self, s: State<T>, action: Action<T>) -> Reply<T> {
        match action {
            Action::Binary { op, left, right } => Reply::Value((self.binary)(op, left, right)),
            Action::Unary { function, operand } => Reply::Value((self.unary)(function, operand)),
            Action::Constant(c) => Reply::Value((self.constant)(c)),
            Action::Parse => match (self.number)(s.current()) {
                Some(v) => Reply::Value(v),
                None => Reply::NotANumber,
            },
            Action::Ask => (self.answer)(s.current()),
            _ => Reply::EndOfInput,
        }
    }

    /// How the rest of a line ends, given the tokens that are left of it, the
    /// stack and the variables: with [`Action::Report`] and its result, or with
    /// [`Action::Fail`] and the first error.
    pub open spec fn outcome(
        self,
        tokens: Seq<Seq<char>>,
        stack: Seq<T>,
        variables: Map<Seq<char>, T>,
    ) -> Action<T>
        decreases tokens.len(),
    {
        let depth = stack.len();
        if tokens.len() == 0 {
            if depth == 1 {
                Action::Report(stack[0])
            } else if depth == 0 {
                Action::Fail(EvalError::MissingResult)
            } else {
                Action::Fail(EvalError::Unconsumed { top: stack.last() })
            }
        } else {
            let token = tokens[0];
            let rest = tokens.drop_first();
            match named(token) {
                Some(Op::Binary(op)) => if depth < 2 {
                    Action::Fail(
                        EvalError::Arity { op: Op::Binary(op), missing: (2 - depth) as usize },
                    )
                } else {
                    let result = (self.binary)(op, stack[depth - 2], stack[depth - 1]);
                    self.outcome(rest, stack.take(depth - 2).push(result), variables)
                },
                Some(Op::Unary(function)) => if depth < 1 {
                    Action::Fail(EvalError::Arity { op: Op::Unary(function), missing: 1 })
                } else {
                    let result = (self.unary)(function, stack[depth - 1]);
                    self.outcome(rest, stack.take(depth - 1).push(result), variables)
                },
                Some(Op::Constant(c)) => self.outcome(
                    rest,
                    stack.push((self.constant)(c)),
                    variables,
                ),
                None => match (self.number)(token) {
                    Some(v) => self.outcome(rest, stack.push(v), variables),
                    None => if variables.contains_key(token) {
                        self.outcome(rest, stack.push(variables[token]), variables)
                    } else {
                        match (self.answer)(token) {
                            Reply::Value(v) => self.outcome(
                                rest,
                                stack.push(v),
                                variables.insert(token, v),
                            ),
                            Reply::NotANumber => Action::Fail(EvalError::Parse),
                            Reply::EndOfInput => Action::Fail(EvalError::EndOfInput),
                        }
                    },
                },
            }
        }
    }

    /// How a line ends: the end of the session for the empty line, and else
    /// the outcome of its tokens on an empty stack and without variables.
    pub open spec fn outcome_of_line(self, line: Seq<char>) -> Action<T> {
        if line.len() == 0 {
            Action::Exit
        } else {
            self.outcome(tokens_of(line), Seq::empty(), Map::empty())
        }
    }

    /// The action with which the machine ends the line, when it is in state
    /// `s`, has handed out `action`, and gets this caller's reply to that
    /// action and to each one after it.
    pub open spec fn run(self, s: State<T>, action: Action<T>) -> Action<T>
        decreases s.pending.len(), waits(s),
    {
        if ends_line(action) || !s.valid() || !s.in_line() {
            action
        } else {
            let (next, then) = s.on_reply(self.reply_to(s, action));
            self.run(next, then)
        }
    }
}

/// Whether `action` asks for no reply: the line, or the session, has ended.
pub open spec fn ends_line<T>(action: Action<T>) -> bool {
    action is Report || action is Fail || action is Exit
}

/// The number of replies that the machine may need before its current token
/// is done, less one.
pub open spec fn waits<T>(s: State<T>) -> nat {
    if s.phase == crate::machine::Phase::AwaitingLiteral {
        1
    } else {
        0
    }
}

/// The machine ends the rest of a line as [`Caller::outcome`] says: from any
/// state, once it turns to the next token and each request is answered by the
/// caller, it comes to the outcome of the tokens that are left.
pub proof fn law_machine_reaches_outcome<T>(caller: Caller<T>, s: State<T>)
    ensures
        caller.run(s.proceed().0, s.proceed().1) == caller.outcome(
            s.pending,
            s.stack,
            s.variables,
        ),
    decreases s.pending.len(),
{
    reveal_with_fuel(Caller::run, 4);
    let (first, asked) = s.proceed();
    let depth = s.stack.len();
    if s.pending.len() > 0 {
        let token = s.current();
        match named(token) {
            Some(op) => {
                if depth >= op.spec_arity() {
                    let value = caller.reply_to(first, asked)->Value_0;
                    law_machine_reaches_outcome(caller, first.push(value));
                    assert(first.push(value).stack == s.stack.take(depth - op.spec_arity()).push(
                        value,
                    ));
                    if op is Constant {
                        assert(s.stack.take(depth - 0) == s.stack);
                    }
                }
            },
            None => {
                match (caller.number)(token) {
                    Some(value) => {
                        law_machine_reaches_outcome(caller, first.push(value));
                    },
                    None => {
                        if s.variables.contains_key(token) {
                            law_machine_reaches_outcome(caller, first.push(s.variables[token]));
                        } else {
                            let (waiting, _) = first.on_reply(Reply::NotANumber);
                            match (caller.answer)(token) {
                                Reply::Value(value) => {
                                    let bound = State {
                                        variables: s.variables.insert(token, value),
                                        ..waiting
                                    };
                                    law_machine_reaches_outcome(caller, bound.push(value));
                                },
                                _ => {},
                            }
                        }
                    },
                }
            },
        }
    }
}

/// The machine ends a line as the line's meaning says.
pub proof fn law_machine_reaches_outcome_of_line<T>(caller: Caller<T>, line: Seq<char>)
    ensures
        caller.run(State::<T>::idle().on_line(line).0, State::<T>::idle().on_line(line).1)
            == caller.outcome_of_line(line),
{
    reveal_with_fuel(Caller::run, 2);
    if line.len() > 0 {
        let begun = State::<T> {
            phase: crate::machine::Phase::AwaitingLine,
            pending: tokens_of(line),
            stack: Seq::empty(),
            variables: Map::empty(),
        };
        law_machine_reaches_outcome(caller, begun);
    }
}

/// Two numbers and an operator: the result is what the operator makes of the
/// first number as its left and the second as its right operand.
pub proof fn law_outcome_of_two_numbers_and_an_operator<T>(
    caller: Caller<T>,
    first: Seq<char>,
    second: Seq<char>,
    op: Binary,
    a: T,
    b: T,
)
    requires
        named(first) is None,
        named(second) is None,
        (caller.number)(first) == Some(a),
        (caller.number)(second) == Some(b),
    ensures
        caller.outcome(seq![first, second, op.spec_name()], Seq::empty(), Map::empty())
            == Action::Report((caller.binary)(op, a, b)),
{
    reveal_with_fuel(Caller::outcome, 5);
    lemma_named_of_name(Op::Binary(op));
    let tokens = seq![first, second, op.spec_name()];
    assert(tokens.drop_first() == seq![second, op.spec_name()]);
    assert(tokens.drop_first().drop_first() == seq![op.spec_name()]);
    assert(tokens.drop_first().drop_first().drop_first() == Seq::<Seq<char>>::empty());
    let stack = Seq::<T>::empty().push(a).push(b);
    assert(stack.take(0) == Seq::<T>::empty());
}

/// A number and a function: the result is what the function makes of the number.
pub proof fn law_outcome_of_a_number_and_a_function<T>(
    caller: Caller<T>,
    token: Seq<char>,
    function: Unary,
    a: T,
)
    requires
        named(token) is None,
        (caller.number)(token) == Some(a),
    ensures
        caller.outcome(seq![token, function.spec_name()], Seq::empty(), Map::empty())
            == Action::Report((caller.unary)(function, a)),
{
    reveal_with_fuel(Caller::outcome, 4);
    lemma_named_of_name(Op::Unary(function));
    let tokens = seq![token, function.spec_name()];
    assert(tokens.drop_first() == seq![function.spec_name()]);
    assert(tokens.drop_first().drop_first() == Seq::<Seq<char>>::empty());
    let stack = Seq::<T>::empty().push(a);
    assert(stack.take(0) == Seq::<T>::empty());
}

/// A constant alone: the result is its value.
pub proof fn law_outcome_of_a_constant<T>(caller: Caller<T>, constant: Constant)
    ensures
        caller.outcome(seq![constant.spec_name()], Seq::empty(), Map::empty())
            == Action::Report((caller.constant)(constant)),
{
    reveal_with_fuel(Caller::outcome, 3);
    lemma_named_of_name(Op::Constant(constant));
    let tokens = seq![constant.spec_name()];
    assert(tokens.drop_first() == Seq::<Seq<char>>::empty());
}

/// Two numbers and nothing else: the line fails, for the first number is left
/// on the stack below the second.
pub proof fn law_outcome_of_two_numbers_alone<T>(
    caller: Caller<T>,
    first: Seq<char>,
    second: Seq<char>,
    a: T,
    b: T,
)
    requires
        named(first) is None,
        named(second) is None,
        (caller.number)(first) == Some(a),
        (caller.number)(second) == Some(b),
    ensures
        caller.outcome(seq![first, second], Seq::empty(), Map::empty()) == Action::Fail(
            EvalError::Unconsumed { top: b },
        ),
{
    reveal_with_fuel(Caller::outcome, 4);
    let tokens = seq![first, second];
    assert(tokens.drop_first() == seq![second]);
    assert(tokens.drop_first().drop_first() == Seq::<Seq<char>>::empty());
}

/// A name that is used twice on a line is asked for once: its second use
/// stands for the answer to the first.
pub proof fn law_outcome_asks_once<T>(caller: Caller<T>, name: Seq<char>, op: Binary, answer: T)
    requires
        named(name) is None,
        (caller.number)(name) is None,
        (caller.answer)(name) == Reply::Value(answer),
    ensures
        caller.outcome(seq![name, name, op.spec_name()], Seq::empty(), Map::empty())
            == Action::Report((caller.binary)(op, answer, answer)),
        caller.outcome(seq![name, name, op.spec_name()], Seq::empty(), Map::empty())
            == caller.outcome(
            seq![name, op.spec_name()],
            seq![answer],
            Map::<Seq<char>, T>::empty().insert(name, answer),
        ),
{
    reveal_with_fuel(Caller::outcome, 5);
    lemma_named_of_name(Op::Binary(op));
    let tokens = seq![name, name, op.spec_name()];
    assert(tokens.drop_first() == seq![name, op.spec_name()]);
    assert(tokens.drop_first().drop_first() == seq![op.spec_name()]);
    assert(tokens.drop_first().drop_first().drop_first() == Seq::<Seq<char>>::empty());
    assert(Seq::<T>::empty().push(answer) == seq![answer]);
    let stack = Seq::<T>::empty().push(answer).push(answer);
    assert(stack.take(0) == Seq::<T>::empty());
}

} // verus!
