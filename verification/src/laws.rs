//! What holds of the calculator as a whole: statements that relate several of
//! its functions, each proved from their definitions.

use vstd::prelude::*;
use crate::completion::candidates;
use crate::lexer::{
    is_space, lemma_word_holds_no_space, lemma_word_len_bounds, tokens_of, word_len,
};
use crate::machine::{Action, EvalError, Phase, Reply, State};
use crate::operation::{
    command_names, commands, lemma_named_of_name, named, Binary, Constant, Op, Unary,
};

verus! {

/// Every state that is reached from a valid one is valid.
pub proof fn law_steps_keep_valid<T>(s: State<T>, line: Seq<char>, reply: Reply<T>)
    requires
        s.valid(),
    ensures
        s.on_line(line).0.valid(),
        s.on_reply(reply).0.valid(),
{
}

/// Nothing is kept from one line to the next: when a line has ended, with its
/// result or with an error, the stack is empty and no variable has a value.
pub proof fn law_line_end_clears<T>(s: State<T>, line: Seq<char>, reply: Reply<T>)
    requires
        s.valid(),
    ensures
        !s.on_line(line).0.in_line() ==> s.on_line(line).0.stack.len() == 0 && s.on_line(
            line,
        ).0.variables == Map::<Seq<char>, T>::empty(),
        !s.on_reply(reply).0.in_line() ==> s.on_reply(reply).0.stack.len() == 0 && s.on_reply(
            reply,
        ).0.variables == Map::<Seq<char>, T>::empty(),
        s.on_line(line).1 is Report || s.on_line(line).1 is Fail ==> s.on_line(line).0
            == State::<T>::idle(),
        s.on_reply(reply).1 is Report || s.on_reply(reply).1 is Fail ==> s.on_reply(reply).0
            == State::<T>::idle(),
{
}

/// A line is begun without variables: whatever was entered before, on a new
/// line every name is unknown until the user has been asked for it.
pub proof fn law_line_begins_without_variables<T>(s: State<T>, line: Seq<char>)
    requires
        s.valid(),
    ensures
        s.on_line(line).0.variables == Map::<Seq<char>, T>::empty(),
{
}

/// For a name that has no value the user is asked, and the stack is left as it is.
pub proof fn law_unknown_name_is_asked<T>(s: State<T>)
    requires
        s.phase == Phase::AwaitingLiteral,
        !s.variables.contains_key(s.current()),
    ensures
        s.on_reply(Reply::NotANumber).1 == Action::<T>::Ask,
        s.on_reply(Reply::NotANumber).0.stack == s.stack,
        s.on_reply(Reply::NotANumber).0.current() == s.current(),
{
}

/// While a line goes on, a variable keeps the value that it has.
pub proof fn law_values_are_kept<T>(s: State<T>, reply: Reply<T>, name: Seq<char>)
    requires
        s.valid(),
        s.variables.contains_key(name),
        s.on_reply(reply).0.in_line(),
    ensures
        s.on_reply(reply).0.variables.contains_key(name),
        s.on_reply(reply).0.variables[name] == s.variables[name],
{
}

/// The state after the machine has taken `replies`, one after the other.
pub open spec fn after<T>(s: State<T>, replies: Seq<Reply<T>>) -> State<T>
    decreases replies.len(),
{
    if replies.len() == 0 {
        s
    } else {
        after(s, replies.drop_last()).on_reply(replies.last()).0
    }
}

/// Whether the line that is evaluated in `s` still goes on after each of `replies`.
pub open spec fn line_goes_on<T>(s: State<T>, replies: Seq<Reply<T>>) -> bool
    decreases replies.len(),
{
    if replies.len() == 0 {
        s.in_line()
    } else {
        line_goes_on(s, replies.drop_last()) && after(s, replies).in_line()
    }
}

/// A line that goes on after some replies was going on before them.
pub proof fn lemma_line_went_on<T>(s: State<T>, replies: Seq<Reply<T>>)
    requires
        line_goes_on(s, replies),
    ensures
        s.in_line(),
    decreases replies.len(),
{
    if replies.len() > 0 {
        lemma_line_went_on(s, replies.drop_last());
    }
}

/// While a line goes on the machine stays valid and its variables keep their values.
pub proof fn law_values_last_for_the_line<T>(
    s: State<T>,
    replies: Seq<Reply<T>>,
    name: Seq<char>,
)
    requires
        s.valid(),
        s.variables.contains_key(name),
        line_goes_on(s, replies),
    ensures
        after(s, replies).valid(),
        after(s, replies).variables.contains_key(name),
        after(s, replies).variables[name] == s.variables[name],
    decreases replies.len(),
{
    if replies.len() > 0 {
        let before = after(s, replies.drop_last());
        law_values_last_for_the_line(s, replies.drop_last(), name);
        law_steps_keep_valid(before, Seq::empty(), replies.last());
        law_values_are_kept(before, replies.last(), name);
    }
}

/// The user is asked for the value of a name once on a line: where the name
/// comes again on that line, it stands for the answer, and nobody is asked.
pub proof fn law_answer_is_reused<T>(s: State<T>, answer: T, replies: Seq<Reply<T>>)
    requires
        s.valid(),
        s.phase == Phase::AwaitingReply,
        line_goes_on(s.on_reply(Reply::Value(answer)).0, replies),
        after(s.on_reply(Reply::Value(answer)).0, replies).phase == Phase::AwaitingLiteral,
        after(s.on_reply(Reply::Value(answer)).0, replies).current() == s.current(),
    ensures
        ({
            let later = after(s.on_reply(Reply::Value(answer)).0, replies);
            &&& later.on_reply(Reply::NotANumber) == later.push(answer).proceed()
            &&& later.on_reply(Reply::NotANumber).1 != Action::<T>::Ask
            &&& later.push(answer).stack.last() == answer
        }),
{
    let asked = s.on_reply(Reply::Value(answer)).0;
    law_steps_keep_valid(s, Seq::empty(), Reply::Value(answer));
    lemma_line_went_on(asked, replies);
    law_values_last_for_the_line(asked, replies, s.current());
}

/// An operation takes its operands in the order in which they were entered:
/// of the two values on top of the stack the lower one is the left operand.
/// The result takes their place.
pub proof fn law_binary_takes_operands_in_order<T>(
    s: State<T>,
    op: Binary,
    base: Seq<T>,
    left: T,
    right: T,
    result: T,
)
    requires
        s.pending.len() > 0,
        s.current() == op.spec_name(),
        s.stack == base.push(left).push(right),
    ensures
        s.proceed().1 == (Action::Binary { op, left, right }),
        s.proceed().0.phase == Phase::AwaitingValue,
        s.proceed().0.stack == base,
        s.proceed().0.push(result).stack == base.push(result),
        s.proceed().0.on_reply(Reply::Value(result)) == s.proceed().0.push(result).proceed(),
{
    lemma_named_of_name(Op::Binary(op));
    assert(s.stack.take(s.stack.len() - 2) == base);
    assert(Op::Binary(op).spec_arity() == 2);
}

/// A function takes the value on top of the stack, and its result takes that
/// value's place.
pub proof fn law_unary_takes_the_top<T>(
    s: State<T>,
    function: Unary,
    base: Seq<T>,
    operand: T,
    result: T,
)
    requires
        s.pending.len() > 0,
        s.current() == function.spec_name(),
        s.stack == base.push(operand),
    ensures
        s.proceed().1 == (Action::Unary { function, operand }),
        s.proceed().0.phase == Phase::AwaitingValue,
        s.proceed().0.stack == base,
        s.proceed().0.push(result).stack == base.push(result),
        s.proceed().0.on_reply(Reply::Value(result)) == s.proceed().0.push(result).proceed(),
{
    lemma_named_of_name(Op::Unary(function));
    assert(s.stack.take(s.stack.len() - 1) == base);
}

/// A constant takes nothing off the stack, and its value is put on top.
pub proof fn law_constant_takes_nothing<T>(s: State<T>, constant: Constant, value: T)
    requires
        s.pending.len() > 0,
        s.current() == constant.spec_name(),
    ensures
        s.proceed().1 == Action::<T>::Constant(constant),
        s.proceed().0.phase == Phase::AwaitingValue,
        s.proceed().0.stack == s.stack,
        s.proceed().0.push(value).stack == s.stack.push(value),
        s.proceed().0.on_reply(Reply::Value(value)) == s.proceed().0.push(value).proceed(),
{
    lemma_named_of_name(Op::Constant(constant));
    assert(s.stack.take(s.stack.len() - 0) == s.stack);
}

/// An operation that finds too few operands ends the line.
pub proof fn law_too_few_operands_end_the_line<T>(s: State<T>, op: Op)
    requires
        s.pending.len() > 0,
        s.current() == op.spec_name(),
        s.stack.len() < op.spec_arity(),
    ensures
        s.proceed() == (
            State::<T>::idle(),
            Action::<T>::Fail(
                EvalError::Arity { op, missing: (op.spec_arity() - s.stack.len()) as usize },
            ),
        ),
{
    lemma_named_of_name(op);
}

/// A line of two numbers and an operator: both numbers are read, the operator
/// is applied to the first as its left and the second as its right operand, and
/// what comes back is the result of the line. Nothing is left over.
pub proof fn law_two_numbers_and_an_operator<T>(
    line: Seq<char>,
    first: Seq<char>,
    second: Seq<char>,
    op: Binary,
    a: T,
    b: T,
    result: T,
)
    requires
        line.len() > 0,
        tokens_of(line) == seq![first, second, op.spec_name()],
        named(first) is None,
        named(second) is None,
    ensures
        ({
            let (s1, a1) = State::<T>::idle().on_line(line);
            let (s2, a2) = s1.on_reply(Reply::Value(a));
            let (s3, a3) = s2.on_reply(Reply::Value(b));
            let (s4, a4) = s3.on_reply(Reply::Value(result));
            &&& a1 == Action::<T>::Parse
            &&& a2 == Action::<T>::Parse
            &&& a3 == (Action::Binary { op, left: a, right: b })
            &&& s3.push(result).stack == seq![result]
            &&& a4 == Action::Report(result)
            &&& s4 == State::<T>::idle()
        }),
{
    lemma_named_of_name(Op::Binary(op));
    let (s1, a1) = State::<T>::idle().on_line(line);
    let (s2, a2) = s1.on_reply(Reply::Value(a));
    let (s3, a3) = s2.on_reply(Reply::Value(b));
    assert(s1.pending == seq![first, second, op.spec_name()]);
    assert(s2.pending == seq![second, op.spec_name()]);
    assert(s3.pending == seq![op.spec_name()]);
    assert(s2.stack == seq![a]);
    assert(s3.stack == Seq::<T>::empty());
    assert(s3.push(result).stack == seq![result]);
    assert(s3.push(result).pending == Seq::<Seq<char>>::empty());
}

/// A line that leaves more than one value, or none, has no result.
pub proof fn law_line_must_leave_one_value<T>(s: State<T>)
    ensures
        s.finish().1 is Report <==> s.stack.len() == 1,
        s.stack.len() == 1 ==> s.finish().1 == Action::Report(s.stack[0]),
        s.stack.len() > 1 ==> s.finish().1 == Action::Fail(
            EvalError::Unconsumed { top: s.stack.last() },
        ),
        s.stack.len() == 0 ==> s.finish().1 == Action::<T>::Fail(EvalError::MissingResult),
        s.pending.len() == 0 ==> s.proceed() == s.finish(),
{
}

/// No token is empty and none holds white space.
pub proof fn law_tokens_are_words(s: Seq<char>, i: int)
    requires
        0 <= i < tokens_of(s).len(),
    ensures
        tokens_of(s)[i].len() > 0,
        forall|j: int| 0 <= j < tokens_of(s)[i].len() ==> !is_space(#[trigger] tokens_of(s)[i][j]),
    decreases s.len(),
{
    if is_space(s[0]) {
        law_tokens_are_words(s.drop_first(), i);
    } else {
        lemma_word_len_bounds(s);
        let n = word_len(s) as int;
        if i == 0 {
            assert forall|j: int| 0 <= j < n implies !is_space(#[trigger] s.take(n)[j]) by {
                lemma_word_holds_no_space(s, j);
            }
        } else {
            law_tokens_are_words(s.skip(n), i - 1);
        }
    }
}

/// A sequence whose items all pass a test is left whole by it.
proof fn lemma_filter_keeps_all<A>(s: Seq<A>, pred: spec_fn(A) -> bool)
    requires
        forall|i: int| 0 <= i < s.len() ==> pred(s[i]),
    ensures
        s.filter(pred) == s,
    decreases s.len(),
{
    reveal(Seq::filter);
    if s.len() > 0 {
        lemma_filter_keeps_all(s.drop_last(), pred);
        assert(s.drop_last().push(s.last()) == s);
    }
}

/// A candidate for `word` is a command name that begins with `word`, and
/// every such name is a candidate.
pub proof fn law_candidates_are_the_commands_that_fit(word: Seq<char>, name: Seq<char>)
    ensures
        candidates(word).contains(name) <==> command_names().contains(name) && word.is_prefix_of(
            name,
        ),
{
    let fits = |name: Seq<char>| word.is_prefix_of(name);
    if candidates(word).contains(name) {
        let k = choose|k: int| 0 <= k < candidates(word).len() && candidates(word)[k] == name;
        command_names().lemma_filter_pred(fits, k);
        command_names().lemma_filter_contains_rev(fits, name);
    }
    if command_names().contains(name) && word.is_prefix_of(name) {
        let i = choose|i: int| 0 <= i < command_names().len() && command_names()[i] == name;
        command_names().lemma_filter_contains(fits, i);
    }
}

/// What passes a test keeps its order: of two items of the filtered sequence
/// the earlier one stands earlier in the whole sequence too.
proof fn lemma_filter_keeps_order<A>(s: Seq<A>, pred: spec_fn(A) -> bool, i: int, j: int)
    requires
        0 <= i < j < s.filter(pred).len(),
    ensures
        exists|p: int, q: int|
            0 <= p < q < s.len() && s[p] == s.filter(pred)[i] && s[q] == s.filter(pred)[j],
    decreases s.len(),
{
    reveal(Seq::filter);
    let front = s.drop_last();
    if s.len() > 0 {
        if pred(s.last()) && j == s.filter(pred).len() - 1 {
            let item = front.filter(pred)[i];
            assert(front.filter(pred).contains(item));
            front.lemma_filter_contains_rev(pred, item);
            let p = choose|p: int| 0 <= p < front.len() && front[p] == item;
            let q = s.len() - 1;
            assert(0 <= p < q < s.len() && s[p] == s.filter(pred)[i] && s[q] == s.filter(pred)[j]);
        } else {
            lemma_filter_keeps_order(front, pred, i, j);
            let (p, q) = choose|p: int, q: int|
                0 <= p < q < front.len() && front[p] == front.filter(pred)[i] && front[q]
                    == front.filter(pred)[j];
            assert(0 <= p < q < s.len() && s[p] == s.filter(pred)[i] && s[q] == s.filter(pred)[j]);
        }
    }
}

/// The candidates come in the order of the command set.
pub proof fn law_candidates_keep_command_order(word: Seq<char>, i: int, j: int)
    requires
        0 <= i < j < candidates(word).len(),
    ensures
        exists|p: int, q: int|
            0 <= p < q < command_names().len() && command_names()[p] == candidates(word)[i]
                && command_names()[q] == candidates(word)[j],
{
    lemma_filter_keeps_order(command_names(), |name: Seq<char>| word.is_prefix_of(name), i, j);
}

/// For the empty word every command is offered.
pub proof fn law_empty_word_offers_every_command()
    ensures
        candidates(Seq::empty()) == command_names(),
{
    let fits = |name: Seq<char>| Seq::<char>::empty().is_prefix_of(name);
    assert forall|i: int| 0 <= i < command_names().len() implies fits(command_names()[i]) by {
        assert(command_names()[i].subrange(0, 0) == Seq::<char>::empty());
    }
    lemma_filter_keeps_all(command_names(), fits);
}

/// The one candidate for a word is that word followed by its completion.
pub proof fn law_completion_extends_the_word(word: Seq<char>)
    requires
        candidates(word).len() == 1,
    ensures
        word + candidates(word)[0].skip(word.len() as int) == candidates(word)[0],
        command_names().contains(candidates(word)[0]),
{
    crate::completion::lemma_candidates_begin_with(word, 0);
    let name = candidates(word)[0];
    assert(word + name.skip(word.len() as int) =~= name);
}

/// Each name that completion offers is the name by which a token is
/// dispatched to the same operation.
pub proof fn law_commands_are_dispatched(i: int)
    requires
        0 <= i < commands().len(),
    ensures
        named(command_names()[i]) == Some(commands()[i]),
{
    lemma_named_of_name(commands()[i]);
}

} // verus!
