//! Attributes that call the sanitizer's functions in front of a function's
//! body and when the body is left. Each takes a switch: where it is off,
//! the item is left as it is.
//!
//! Each attribute comes twice: under its own name it takes the switch and
//! the text of the item it stands on, and with `_parsed` behind the name it
//! takes the item as the parser has read it.

use crate::rewrite::{hold_scope, report_by_name, reported, scoped, Style};
use crate::run::Scope;
use crate::syntax::{fn_syntax, outcome_view, parse_fn, FnItem, FnText};
use vstd::prelude::*;
use vstd::string::StringExecFns;

verus! {

/// What `nonblocking` makes of a parse outcome: the function with, in
/// front of its body, the statements that enter the real-time context and
/// leave it when the body is left, or the compile error.
pub open spec fn nonblocking_text(parsed: Result<FnText, Seq<char>>) -> Seq<char> {
    match parsed {
        Ok(f) => scoped(f, Style::Facade, Scope::Realtime),
        Err(error) => error,
    }
}

/// What `no_sanitize` makes of a parse outcome: the function with, in front
/// of its body, the statements that suspend detection and resume it when
/// the body is left, or the compile error.
pub open spec fn no_sanitize_text(parsed: Result<FnText, Seq<char>>) -> Seq<char> {
    match parsed {
        Ok(f) => scoped(f, Style::Facade, Scope::Disabled),
        Err(error) => error,
    }
}

/// What `blocking` makes of a parse outcome: the function with the
/// notification, under its reported name, in front of its body, or the
/// compile error.
pub open spec fn blocking_text(parsed: Result<FnText, Seq<char>>) -> Seq<char> {
    match parsed {
        Ok(f) => reported(f, "rtsan::notify_blocking_call"@),
        Err(error) => error,
    }
}

/// Writes the function in `parsed` so that it enters the real-time context
/// before its body and leaves it on every way out of the body, and hands a
/// compile error on as it is.
pub fn nonblocking_parsed(parsed: Result<FnItem, String>) -> (out: String)
    ensures
        out@ == nonblocking_text(outcome_view(parsed)),
{
    match parsed {
        Ok(f) => hold_scope(&f, Style::Facade, Scope::Realtime),
        Err(error) => error,
    }
}

/// Writes the function in `parsed` so that each call of it is reported as
/// a blocking call, and hands a compile error on as it is.
pub fn blocking_parsed(parsed: Result<FnItem, String>) -> (out: String)
    ensures
        out@ == blocking_text(outcome_view(parsed)),
{
    match parsed {
        Ok(f) => report_by_name(&f, "rtsan::notify_blocking_call"),
        Err(error) => error,
    }
}

/// Writes the function in `parsed` so that detection is suspended before
/// its body and resumed on every way out of the body, and hands a compile
/// error on as it is.
pub fn no_sanitize_parsed(parsed: Result<FnItem, String>) -> (out: String)
    ensures
        out@ == no_sanitize_text(outcome_view(parsed)),
{
    match parsed {
        Ok(f) => hold_scope(&f, Style::Facade, Scope::Disabled),
        Err(error) => error,
    }
}

/// With `enabled`, rewrites the function in `item` so that it enters the
/// real-time context before its body and leaves it on every way out of the
/// body; an `item` that is no function becomes the compile error that says
/// so. Without `enabled`, gives `item` back as it is, function or not. The
/// arguments of the attribute, `_attr`, are not read.
pub fn nonblocking(enabled: bool, _attr: &str, item: &str) -> (out: String)
    ensures
        enabled ==> out@ == nonblocking_text(fn_syntax(item@)),
        !enabled ==> out@ == item@,
{
    if enabled {
        nonblocking_parsed(parse_fn(item))
    } else {
        String::from_str(item)
    }
}

/// With `enabled`, rewrites the function in `item` so that each call of it
/// is reported as a blocking call, under the function's name, before the
/// body runs; an `item` that is no function becomes the compile error that
/// says so. Without `enabled`, gives `item` back as it is, function or
/// not. The arguments of the attribute, `_attr`, are not read.
pub fn blocking(enabled: bool, _attr: &str, item: &str) -> (out: String)
    ensures
        enabled ==> out@ == blocking_text(fn_syntax(item@)),
        !enabled ==> out@ == item@,
{
    if enabled {
        blocking_parsed(parse_fn(item))
    } else {
        String::from_str(item)
    }
}

/// With `enabled`, rewrites the function in `item` so that detection is
/// suspended before its body and resumed on every way out of the body; an
/// `item` that is no function becomes the compile error that says so.
/// Without `enabled`, gives `item` back as it is, function or not. The
/// arguments of the attribute, `_attr`, are not read.
pub fn no_sanitize(enabled: bool, _attr: &str, item: &str) -> (out: String)
    ensures
        enabled ==> out@ == no_sanitize_text(fn_syntax(item@)),
        !enabled ==> out@ == item@,
{
    if enabled {
        no_sanitize_parsed(parse_fn(item))
    } else {
        String::from_str(item)
    }
}

} // verus!
