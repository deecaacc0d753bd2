//! The lines that the calculator shows. Numbers come in as text: how a number
//! is written is the caller's business.

use vstd::prelude::*;
use vstd::string::StringExecFns;
use crate::operation::{Binary, Unary};

verus! {

/// The prompt for a line.
pub const PROMPT: &'static str = "> ";

/// What is shown when `op` was applied: the operands in the order in which
/// they were entered, and the result. The logarithm names its base.
pub open spec fn binary_trace(
    op: Binary,
    left: Seq<char>,
    right: Seq<char>,
    result: Seq<char>,
) -> Seq<char> {
    match op {
        Binary::Log => "\t\t"@ + "log("@ + left + ", base = "@ + right + ") = "@ + result,
        _ => "\t\t"@ + left + " "@ + op.spec_name() + " "@ + right + " = "@ + result,
    }
}

/// The line of [`binary_trace`] as a string.
pub fn trace_binary(op: Binary, left: &str, right: &str, result: &str) -> (r: String)
    ensures
        r@ == binary_trace(op, left@, right@, result@),
{
    let mut line = String::from_str("\t\t");
    match op {
        Binary::Log => {
            line.append("log(");
            line.append(left);
            line.append(", base = ");
            line.append(right);
            line.append(") = ");
        },
        _ => {
            line.append(left);
            line.append(" ");
            line.append(op.name());
            line.append(" ");
            line.append(right);
            line.append(" = ");
        },
    }
    line.append(result);
    line
}

/// What is shown when `function` was applied to `operand`.
pub open spec fn unary_trace(function: Unary, operand: Seq<char>, result: Seq<char>) -> Seq<char> {
    "\t\t"@ + function.spec_name() + "("@ + operand + ") = "@ + result
}

/// The line of [`unary_trace`] as a string.
pub fn trace_unary(function: Unary, operand: &str, result: &str) -> (r: String)
    ensures
        r@ == unary_trace(function, operand@, result@),
{
    let mut line = String::from_str("\t\t");
    line.append(function.name());
    line.append("(");
    line.append(operand);
    line.append(") = ");
    line.append(result);
    line
}

/// The line that shows the result of an input line.
pub open spec fn result_line(value: Seq<char>) -> Seq<char> {
    "\t= "@ + value
}

/// The line of [`result_line`] as a string.
pub fn show_result(value: &str) -> (r: String)
    ensures
        r@ == result_line(value@),
{
    let mut line = String::from_str("\t= ");
    line.append(value);
    line
}

/// The question for the value of the variable `name`.
pub open spec fn variable_prompt(name: Seq<char>) -> Seq<char> {
    "\t"@ + name + "? "@
}

/// The question of [`variable_prompt`] as a string.
pub fn prompt_for(name: &str) -> (r: String)
    ensures
        r@ == variable_prompt(name@),
{
    let mut line = String::from_str("\t");
    line.append(name);
    line.append("? ");
    line
}

} // verus!
