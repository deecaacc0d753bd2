//! The evaluation of one line as a state machine.
//!
//! The machine works through the tokens of a line against a stack of values
//! and a table of variables. It never computes with a value, reads a number or
//! asks the user: for each of these it hands out an [`Action`] and waits for the
//! [`Reply`]. It is therefore generic in the type of the values.
//!
//! A [`Phase`] is a point at which the machine waits. Splitting a line into
//! tokens, taking operands off the stack and finishing a line all happen within
//! one step, between two such points.
//!
//! No error ends anything but the line on which it occurs: the machine drops
//! the line's stack and variables, hands out [`Action::Fail`] and awaits the
//! next line. Whether to go on is the caller's decision.

use vstd::prelude::*;
use crate::lexer::{tokens, tokens_of};
use crate::operation::{named, Binary, Constant, Op, Unary};
use crate::text::text_eq;

verus! {

/// What the machine waits for.
#[derive(Clone, Copy, Debug, PartialEq, Eq, Structural)]
pub enum Phase {
    /// No line is being evaluated: the next line is awaited.
    AwaitingLine,
    /// The current token names an operation or a constant, and its value was asked for.
    AwaitingValue,
    /// The current token names no operation, and was handed out to be read as a number.
    AwaitingLiteral,
    /// The current token is a variable without a value, and the user was asked for one.
    AwaitingReply,
    /// The empty line was read. Nothing leads out of this phase.
    Exited,
}

/// Why a line was abandoned.
#[derive(Debug, PartialEq, Eq)]
pub enum EvalError<T> {
    /// `op` found fewer operands on the stack than it takes; `missing` more were needed.
    Arity { op: Op, missing: usize },
    /// The user's answer to the question for a variable's value is no number.
    Parse,
    /// The input ended where the value of a variable was asked for.
    EndOfInput,
    /// The line left more than one value on the stack. The one on top, which
    /// would have been the result, is `top`.
    Unconsumed { top: T },
    /// The line left no value on the stack.
    MissingResult,
    /// A line came in the middle of another, or a reply that the pending request does not admit.
    OutOfTurn,
}

/// What the caller is to do next.
#[derive(Debug, PartialEq, Eq)]
pub enum Action<T> {
    /// Apply the operation to `left` and `right` and reply with the result.
    Binary { op: Binary, left: T, right: T },
    /// Apply the function to `operand` and reply with the result.
    Unary { function: Unary, operand: T },
    /// Reply with the value of the constant.
    Constant(Constant),
    /// Read the current token as a number and reply with it, or with
    /// [`Reply::NotANumber`].
    Parse,
    /// Ask the user for the value of the variable that the current token names,
    /// and reply with it, with [`Reply::NotANumber`] or with [`Reply::EndOfInput`].
    Ask,
    /// The line is done and this is its result. Read the next line.
    Report(T),
    /// The line was abandoned. Read the next line, or give up.
    Fail(EvalError<T>),
    /// Stop.
    Exit,
}

/// What the caller answers to an [`Action`].
#[derive(Debug, PartialEq, Eq)]
pub enum Reply<T> {
    /// The value that was asked for.
    Value(T),
    /// The text that was to be read is no number.
    NotANumber,
    /// The input ended before the user answered.
    EndOfInput,
}

/// The state of the machine.
pub struct State<T> {
    pub phase: Phase,
    /// The tokens of the line that are not done yet. While a reply is awaited
    /// the first of them is the current token.
    pub pending: Seq<Seq<char>>,
    /// The operands, the last of them on top.
    pub stack: Seq<T>,
    /// The variables that got a value on this line.
    pub variables: Map<Seq<char>, T>,
}

impl<T> State<T> {
    /// The state between two lines: nothing is kept from one line to the next.
    pub open spec fn idle() -> Self {
        State {
            phase: Phase::AwaitingLine,
            pending: Seq::empty(),
            stack: Seq::empty(),
            variables: Map::empty(),
        }
    }

    /// The state after the empty line.
    pub open spec fn exited() -> Self {
        State {
            phase: Phase::Exited,
            pending: Seq::empty(),
            stack: Seq::empty(),
            variables: Map::empty(),
        }
    }

    /// The token that the pending request is about.
    pub open spec fn current(self) -> Seq<char> {
        self.pending[0]
    }

    /// The line is abandoned: stack and variables are dropped with it.
    pub open spec fn abandon(error: EvalError<T>) -> (Self, Action<T>) {
        (Self::idle(), Action::Fail(error))
    }

    /// The end of a line: it must have left exactly one value, its result.
    /// Where it left more, the one on top is handed out with the error.
    pub open spec fn finish(self) -> (Self, Action<T>) {
        if self.stack.len() == 1 {
            (Self::idle(), Action::Report(self.stack[0]))
        } else if self.stack.len() == 0 {
            Self::abandon(EvalError::MissingResult)
        } else {
            Self::abandon(EvalError::Unconsumed { top: self.stack.last() })
        }
    }

    /// Turns to the first pending token; with none left the line is finished.
    ///
    /// An operation takes its operands off the stack, the right one first: the
    /// left operand is the one that was entered earlier.
    pub open spec fn proceed(self) -> (Self, Action<T>) {
        let depth = self.stack.len();
        if self.pending.len() == 0 {
            self.finish()
        } else {
            match named(self.current()) {
                None => (State { phase: Phase::AwaitingLiteral, ..self }, Action::Parse),
                Some(op) => if depth < op.spec_arity() {
                    Self::abandon(
                        EvalError::Arity { op, missing: (op.spec_arity() - depth) as usize },
                    )
                } else {
                    let taken = State {
                        phase: Phase::AwaitingValue,
                        stack: self.stack.take(depth - op.spec_arity()),
                        ..self
                    };
                    match op {
                        Op::Binary(op) => (
                            taken,
                            Action::Binary {
                                op,
                                left: self.stack[depth - 2],
                                right: self.stack[depth - 1],
                            },
                        ),
                        Op::Unary(function) => (
                            taken,
                            Action::Unary { function, operand: self.stack[depth - 1] },
                        ),
                        Op::Constant(c) => (taken, Action::Constant(c)),
                    }
                },
            }
        }
    }

    /// The current token is done, and `value` is what it stands for.
    pub open spec fn push(self, value: T) -> Self {
        State { pending: self.pending.drop_first(), stack: self.stack.push(value), ..self }
    }

    /// What a line that was read does to the machine. The empty line ends the
    /// session; any other is split into tokens and begun with an empty stack and
    /// no variables.
    pub open spec fn on_line(self, line: Seq<char>) -> (Self, Action<T>) {
        match self.phase {
            Phase::Exited => (self, Action::Exit),
            Phase::AwaitingLine => if line.len() == 0 {
                (Self::exited(), Action::Exit)
            } else {
                State {
                    phase: Phase::AwaitingLine,
                    pending: tokens_of(line),
                    stack: Seq::empty(),
                    variables: Map::empty(),
                }.proceed()
            },
            _ => Self::abandon(EvalError::OutOfTurn),
        }
    }

    /// What a reply does to the machine.
    ///
    /// A value is pushed. A token that is no number is looked up among the
    /// variables: a variable that has a value stands for it, and for one that
    /// has none the user is asked. The answer is kept for the rest of the line.
    pub open spec fn on_reply(self, reply: Reply<T>) -> (Self, Action<T>) {
        match (self.phase, reply) {
            (Phase::Exited, _) => (self, Action::Exit),
            (Phase::AwaitingValue, Reply::Value(v)) => self.push(v).proceed(),
            (Phase::AwaitingLiteral, Reply::Value(v)) => self.push(v).proceed(),
            (Phase::AwaitingLiteral, Reply::NotANumber) => if self.variables.contains_key(
                self.current(),
            ) {
                self.push(self.variables[self.current()]).proceed()
            } else {
                (State { phase: Phase::AwaitingReply, ..self }, Action::Ask)
            },
            (Phase::AwaitingReply, Reply::Value(v)) => State {
                variables: self.variables.insert(self.current(), v),
                ..self
            }.push(v).proceed(),
            (Phase::AwaitingReply, Reply::NotANumber) => Self::abandon(EvalError::Parse),
            (Phase::AwaitingReply, Reply::EndOfInput) => Self::abandon(EvalError::EndOfInput),
            _ => Self::abandon(EvalError::OutOfTurn),
        }
    }

    /// Whether a line is being evaluated.
    pub open spec fn in_line(self) -> bool {
        self.phase != Phase::AwaitingLine && self.phase != Phase::Exited
    }

    /// What holds of every state that the machine can be in.
    pub open spec fn valid(self) -> bool {
        match self.phase {
            Phase::AwaitingLine | Phase::Exited => {
                &&& self.pending.len() == 0
                &&& self.stack.len() == 0
                &&& self.variables == Map::<Seq<char>, T>::empty()
            },
            Phase::AwaitingValue => {
                &&& self.pending.len() > 0
                &&& named(self.current()) is Some
            },
            Phase::AwaitingLiteral => {
                &&& self.pending.len() > 0
                &&& named(self.current()) is None
            },
            Phase::AwaitingReply => {
                &&& self.pending.len() > 0
                &&& named(self.current()) is None
                &&& !self.variables.contains_key(self.current())
            },
        }
    }
}

/// The variables that a list of bindings defines. A later binding of a name
/// replaces an earlier one.
spec fn table<T>(bindings: Seq<(String, T)>) -> Map<Seq<char>, T>
    decreases bindings.len(),
{
    if bindings.len() == 0 {
        Map::empty()
    } else {
        table(bindings.drop_last()).insert(bindings.last().0@, bindings.last().1)
    }
}

/// The last binding of a name gives the variable its value.
proof fn lemma_table_bound<T>(bindings: Seq<(String, T)>, name: Seq<char>, i: int)
    requires
        0 <= i < bindings.len(),
        bindings[i].0@ == name,
        forall|j: int| i < j < bindings.len() ==> bindings[j].0@ != name,
    ensures
        table(bindings).contains_key(name),
        table(bindings)[name] == bindings[i].1,
    decreases bindings.len(),
{
    if i < bindings.len() - 1 {
        lemma_table_bound(bindings.drop_last(), name, i);
    }
}

/// A name that no binding bears is no variable.
proof fn lemma_table_unbound<T>(bindings: Seq<(String, T)>, name: Seq<char>)
    requires
        forall|j: int| 0 <= j < bindings.len() ==> bindings[j].0@ != name,
    ensures
        !table(bindings).contains_key(name),
    decreases bindings.len(),
{
    if bindings.len() > 0 {
        lemma_table_unbound(bindings.drop_last(), name);
    }
}

/// The machine without its invariant: the fields, and what each step does to them.
struct Core<T> {
    phase: Phase,
    tokens: Vec<String>,
    cursor: usize,
    stack: Vec<T>,
    bindings: Vec<(String, T)>,
}

impl<T> View for Core<T> {
    type V = State<T>;

    closed spec fn view(&self) -> State<T> {
        State {
            phase: self.phase,
            pending: self.tokens.deep_view().skip(self.cursor as int),
            stack: self.stack@,
            variables: table(self.bindings@),
        }
    }
}

impl<T> Core<T> {
    /// Whether the machine is in a state that it can reach.
    closed spec fn wf(&self) -> bool {
        &&& self.cursor <= self.tokens.len()
        &&& self@.valid()
    }
}

impl<T: Copy> Core<T> {
    /// A machine that awaits its first line.
    fn new() -> (r: Self)
        ensures
            r.wf(),
            r@ == State::<T>::idle(),
    {
        let r = Core {
            phase: Phase::AwaitingLine,
            tokens: Vec::new(),
            cursor: 0,
            stack: Vec::new(),
            bindings: Vec::new(),
        };
        assert(r@.pending =~= Seq::empty());
        r
    }

    fn reset(&mut self, phase: Phase)
        ensures
            final(self)@ == (State::<T> {
                phase,
                pending: Seq::empty(),
                stack: Seq::empty(),
                variables: Map::empty(),
            }),
            final(self).cursor == 0,
    {
        self.phase = phase;
        self.tokens = Vec::new();
        self.cursor = 0;
        self.stack = Vec::new();
        self.bindings = Vec::new();
        assert(self@.pending =~= Seq::empty());
    }

    fn abandon(&mut self, error: EvalError<T>) -> (a: Action<T>)
        ensures
            final(self).wf(),
            (final(self)@, a) == State::<T>::abandon(error),
    {
        self.reset(Phase::AwaitingLine);
        Action::Fail(error)
    }

    fn finish(&mut self) -> (a: Action<T>)
        ensures
            final(self).wf(),
            (final(self)@, a) == old(self)@.finish(),
    {
        let depth = self.stack.len();
        if depth == 1 {
            let result = self.stack[0];
            self.reset(Phase::AwaitingLine);
            Action::Report(result)
        } else if depth == 0 {
            self.abandon(EvalError::MissingResult)
        } else {
            let top = self.stack[depth - 1];
            self.abandon(EvalError::Unconsumed { top })
        }
    }

    fn proceed(&mut self) -> (a: Action<T>)
        requires
            old(self).cursor <= old(self).tokens.len(),
        ensures
            final(self).wf(),
            (final(self)@, a) == old(self)@.proceed(),
    {
        if self.cursor == self.tokens.len() {
            return self.finish();
        }
        assert(self@.current() == self.tokens[self.cursor as int]@);
        let depth = self.stack.len();
        match Op::parse(self.tokens[self.cursor].as_str()) {
            None => {
                self.phase = Phase::AwaitingLiteral;
                Action::Parse
            },
            Some(op) => {
                let arity = op.arity();
                if depth < arity {
                    return self.abandon(EvalError::Arity { op, missing: arity - depth });
                }
                let action = match op {
                    Op::Binary(op) => Action::Binary {
                        op,
                        left: self.stack[depth - 2],
                        right: self.stack[depth - 1],
                    },
                    Op::Unary(function) => Action::Unary {
                        function,
                        operand: self.stack[depth - 1],
                    },
                    Op::Constant(c) => Action::Constant(c),
                };
                self.stack.truncate(depth - arity);
                self.phase = Phase::AwaitingValue;
                action
            },
        }
    }

    fn push(&mut self, value: T)
        requires
            old(self).cursor < old(self).tokens.len(),
        ensures
            final(self)@ == old(self)@.push(value),
            final(self).cursor <= final(self).tokens.len(),
    {
        self.stack.push(value);
        self.cursor = self.cursor + 1;
        assert(self@.pending =~= old(self)@.pending.drop_first());
    }

    /// What the machine waits for.
    fn phase(&self) -> (r: Phase)
        ensures
            r == self@.phase,
    {
        self.phase
    }

    /// The token that the pending request is about; none between two lines.
    fn token(&self) -> (r: Option<&str>)
        requires
            self.wf(),
        ensures
            r is Some <==> self@.pending.len() > 0,
            r matches Some(t) ==> t@ == self@.current(),
    {
        if self.cursor < self.tokens.len() {
            assert(self@.current() == self.tokens[self.cursor as int]@);
            Some(self.tokens[self.cursor].as_str())
        } else {
            None
        }
    }

    /// The operands, the last of them on top.
    fn stack(&self) -> (r: &Vec<T>)
        ensures
            r@ == self@.stack,
    {
        &self.stack
    }

    /// The value of the variable `name`, if it got one on this line.
    fn lookup(&self, name: &str) -> (r: Option<T>)
        ensures
            r == if self@.variables.contains_key(name@) {
                Some(self@.variables[name@])
            } else {
                None
            },
    {
        let mut i = self.bindings.len();
        while i > 0
            invariant
                i <= self.bindings.len(),
                forall|j: int| i <= j < self.bindings.len() ==> self.bindings[j].0@ != name@,
            decreases i,
        {
            i -= 1;
            if text_eq(self.bindings[i].0.as_str(), name) {
                proof {
                    lemma_table_bound(self.bindings@, name@, i as int);
                }
                return Some(self.bindings[i].1);
            }
        }
        proof {
            lemma_table_unbound(self.bindings@, name@);
        }
        None
    }

    /// Takes the line that was read.
    fn begin(&mut self, line: &str) -> (a: Action<T>)
        requires
            old(self).wf(),
        ensures
            final(self).wf(),
            (final(self)@, a) == old(self)@.on_line(line@),
    {
        match self.phase {
            Phase::Exited => Action::Exit,
            Phase::AwaitingLine => {
                if line.is_empty() {
                    self.reset(Phase::Exited);
                    Action::Exit
                } else {
                    self.reset(Phase::AwaitingLine);
                    self.tokens = tokens(line);
                    assert(self@.pending =~= tokens_of(line@));
                    self.proceed()
                }
            },
            _ => self.abandon(EvalError::OutOfTurn),
        }
    }

    /// Takes the reply to the action that the machine handed out last.
    fn resume(&mut self, reply: Reply<T>) -> (a: Action<T>)
        requires
            old(self).wf(),
        ensures
            final(self).wf(),
            (final(self)@, a) == old(self)@.on_reply(reply),
    {
        match (self.phase, reply) {
            (Phase::Exited, _) => Action::Exit,
            (Phase::AwaitingValue, Reply::Value(v)) => {
                self.push(v);
                self.proceed()
            },
            (Phase::AwaitingLiteral, Reply::Value(v)) => {
                self.push(v);
                self.proceed()
            },
            (Phase::AwaitingLiteral, Reply::NotANumber) => {
                assert(self@.current() == self.tokens[self.cursor as int]@);
                match self.lookup(self.tokens[self.cursor].as_str()) {
                    Some(v) => {
                        self.push(v);
                        self.proceed()
                    },
                    None => {
                        self.phase = Phase::AwaitingReply;
                        Action::Ask
                    },
                }
            },
            (Phase::AwaitingReply, Reply::Value(v)) => {
                assert(self@.current() == self.tokens[self.cursor as int]@);
                let name = self.tokens[self.cursor].clone();
                self.bindings.push((name, v));
                assert(self.bindings@.drop_last() =~= old(self).bindings@);
                self.push(v);
                self.proceed()
            },
            (Phase::AwaitingReply, Reply::NotANumber) => self.abandon(EvalError::Parse),
            (Phase::AwaitingReply, Reply::EndOfInput) => self.abandon(EvalError::EndOfInput),
            _ => self.abandon(EvalError::OutOfTurn),
        }
    }
}

/// The machine. Its state is its view.
pub struct Evaluator<T> {
    core: Core<T>,
}

impl<T> View for Evaluator<T> {
    type V = State<T>;

    closed spec fn view(&self) -> State<T> {
        self.core@
    }
}

impl<T> Evaluator<T> {
    /// Between two steps the machine is in a valid state.
    #[verifier::type_invariant]
    closed spec fn inv(&self) -> bool {
        self.core.wf()
    }
}

impl<T: Copy> Evaluator<T> {
    /// A machine that awaits its first line.
    pub fn new() -> (r: Self)
        ensures
            r@ == State::<T>::idle(),
    {
        Evaluator { core: Core::new() }
    }

    /// Takes the line that was read, and says what is to be done next.
    pub fn begin(&mut self, line: &str) -> (a: Action<T>)
        ensures
            (final(self)@, a) == old(self)@.on_line(line@),
            old(self)@.valid(),
            final(self)@.valid(),
    {
        proof {
            use_type_invariant(&*self);
        }
        // The core works outside `self`: within a step it passes through
        // states that are not valid.
        let mut core = Core::new();
        std::mem::swap(&mut self.core, &mut core);
        let action = core.begin(line);
        self.core = core;
        action
    }

    /// Takes the reply to the action that the machine handed out last, and
    /// says what is to be done next.
    pub fn resume(&mut self, reply: Reply<T>) -> (a: Action<T>)
        ensures
            (final(self)@, a) == old(self)@.on_reply(reply),
            old(self)@.valid(),
            final(self)@.valid(),
    {
        proof {
            use_type_invariant(&*self);
        }
        // As in `begin`, the core works outside `self`.
        let mut core = Core::new();
        std::mem::swap(&mut self.core, &mut core);
        let action = core.resume(reply);
        self.core = core;
        action
    }

    /// What the machine waits for.
    pub fn phase(&self) -> (r: Phase)
        ensures
            r == self@.phase,
            self@.valid(),
    {
        proof {
            use_type_invariant(self);
        }
        self.core.phase()
    }

    /// The token that the pending request is about; none between two lines.
    pub fn token(&self) -> (r: Option<&str>)
        ensures
            r is Some <==> self@.in_line(),
            r matches Some(t) ==> t@ == self@.current(),
    {
        proof {
            use_type_invariant(self);
        }
        self.core.token()
    }

    /// The operands, the last of them on top.
    pub fn stack(&self) -> (r: &Vec<T>)
        ensures
            r@ == self@.stack,
    {
        self.core.stack()
    }

    /// The value of the variable `name`, if it got one on this line.
    pub fn lookup(&self, name: &str) -> (r: Option<T>)
        ensures
            r == if self@.variables.contains_key(name@) {
                Some(self@.variables[name@])
            } else {
                None
            },
    {
        self.core.lookup(name)
    }
}

} // verus!
