//! Attributes that hold a guard for the length of a function's body, and
//! the attribute that reports a function as blocking.
//!
//! Each attribute comes twice: under its own name it takes the text of the
//! item it stands on, and with `_parsed` behind the name it takes the item
//! as the parser has read it.

use crate::rewrite::{front_statements, front_text, hold_scope, report_by_name, reported, scoped, Style};
use crate::run::Scope;
use crate::syntax::{fn_syntax, outcome_view, parse_fn, FnItem, FnText};
use vstd::prelude::*;
use vstd::string::StringExecFns;

verus! {

/// What `nonblocking` makes of a parse outcome: the function with a guard
/// of the real-time context in front of its body, or the compile error.
pub open spec fn nonblocking_text(parsed: Result<FnText, Seq<char>>) -> Seq<char> {
    match parsed {
        Ok(f) => scoped(f, Style::Guard, Scope::Realtime),
        Err(error) => error,
    }
}

/// What `no_sanitize_realtime` makes of a parse outcome: the function with
/// a guard that suspends detection in front of its body, or the compile
/// error.
pub open spec fn no_sanitize_realtime_text(parsed: Result<FnText, Seq<char>>) -> Seq<char> {
    match parsed {
        Ok(f) => scoped(f, Style::Guard, Scope::Disabled),
        Err(error) => error,
    }
}

/// What `blocking` makes of a parse outcome: the function with the
/// notification, under its reported name, in front of its body, or the
/// compile error.
pub open spec fn blocking_text(parsed: Result<FnText, Seq<char>>) -> Seq<char> {
    match parsed {
        Ok(f) => reported(f, "rtsan_standalone::notify_blocking_call"@),
        Err(error) => error,
    }
}

/// What `scoped_disabler` makes of a body: a block that holds a guard
/// suspending detection, then the body.
pub open spec fn scoped_disabler_text(body: Seq<char>) -> Seq<char> {
    "{ "@ + front_text(Style::Guard, Scope::Disabled) + " "@ + body + " }"@
}

/// Writes the function in `parsed` so that it runs in a real-time context,
/// and hands a compile error on as it is.
pub fn nonblocking_parsed(parsed: Result<FnItem, String>) -> (out: String)
    ensures
        out@ == nonblocking_text(outcome_view(parsed)),
{
    match parsed {
        Ok(f) => hold_scope(&f, Style::Guard, Scope::Realtime),
        Err(error) => error,
    }
}

/// Writes the function in `parsed` so that each call of it is reported as
/// a blocking call, and hands a compile error on as it is.
pub fn blocking_parsed(parsed: Result<FnItem, String>) -> (out: String)
    ensures
        out@ == blocking_text(outcome_view(parsed)),
{
    match parsed {
        Ok(f) => report_by_name(&f, "rtsan_standalone::notify_blocking_call"),
        Err(error) => error,
    }
}

/// Writes the function in `parsed` so that detection is suspended while it
/// runs, and hands a compile error on as it is.
pub fn no_sanitize_realtime_parsed(parsed: Result<FnItem, String>) -> (out: String)
    ensures
        out@ == no_sanitize_realtime_text(outcome_view(parsed)),
{
    match parsed {
        Ok(f) => hold_scope(&f, Style::Guard, Scope::Disabled),
        Err(error) => error,
    }
}

/// Rewrites the function in `item` so that it runs in a real-time context:
/// the context is entered before the body and left on every way out of it.
/// An `item` that is no function becomes the compile error that says so.
/// The arguments of the attribute, `_attr`, are not read.
pub fn nonblocking(_attr: &str, item: &str) -> (out: String)
    ensures
        out@ == nonblocking_text(fn_syntax(item@)),
{
    nonblocking_parsed(parse_fn(item))
}

/// Rewrites the function in `item` so that each call of it is reported to
/// the runtime as a blocking call, under the function's name, before the
/// body runs. An `item` that is no function becomes the compile error that
/// says so. The arguments of the attribute, `_attr`, are not read.
pub fn blocking(_attr: &str, item: &str) -> (out: String)
    ensures
        out@ == blocking_text(fn_syntax(item@)),
{
    blocking_parsed(parse_fn(item))
}

/// Rewrites the function in `item` so that detection is suspended while its
/// body runs and resumed on every way out of it. An `item` that is no
/// function becomes the compile error that says so. The arguments of the
/// attribute, `_attr`, are not read.
pub fn no_sanitize_realtime(_attr: &str, item: &str) -> (out: String)
    ensures
        out@ == no_sanitize_realtime_text(fn_syntax(item@)),
{
    no_sanitize_realtime_parsed(parse_fn(item))
}

/// Wraps `body`, any run of statements with an optional final expression,
/// in a block during which detection is suspended. The block has the value
/// of `body`.
pub fn scoped_disabler(body: &str) -> (out: String)
    ensures
        out@ == scoped_disabler_text(body@),
{
    let mut out = String::from_str("{ ");
    let guard = front_statements(Style::Guard, Scope::Disabled);
    out.append(guard.as_str());
    out.append(" ");
    out.append(body);
    out.append(" }");
    out
}

} // verus!
