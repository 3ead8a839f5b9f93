//! Attributes that call the runtime's entry points themselves, in front of
//! a function's body and when the body is left.
//!
//! Each attribute comes twice: under its own name it takes the text of the
//! item it stands on, and with `_parsed` behind the name it takes the item
//! as the parser has read it and, where it needs one, the literal of the
//! function's name.

use crate::rewrite::{
    hold_scope, name_literal, prepend_statement, prepended, reported_name, scoped, Style,
};
use crate::run::Scope;
use crate::syntax::{fn_syntax, literal_text, outcome_view, parse_fn, FnItem, FnText};
use vstd::prelude::*;
use vstd::string::StringExecFns;

verus! {

/// What `non_blocking` makes of a parse outcome: the function with, in
/// front of its body, the statements that call the runtime's enter and,
/// when the body is left, its exit; or the compile error.
pub open spec fn non_blocking_text(parsed: Result<FnText, Seq<char>>) -> Seq<char> {
    match parsed {
        Ok(f) => scoped(f, Style::Direct, Scope::Realtime),
        Err(error) => error,
    }
}

/// What `no_sanitize` makes of a parse outcome: the function with, in front
/// of its body, the statements that call the runtime's disable and, when
/// the body is left, its enable; or the compile error.
pub open spec fn no_sanitize_text(parsed: Result<FnText, Seq<char>>) -> Seq<char> {
    match parsed {
        Ok(f) => scoped(f, Style::Direct, Scope::Disabled),
        Err(error) => error,
    }
}

/// The statement that hands the runtime a pointer to the first byte of the
/// string literal `literal`.
pub open spec fn notify_text(literal: Seq<char>) -> Seq<char> {
    "unsafe { rtsan_sys::__rtsan_notify_blocking_call("@ + literal
        + ".as_ptr() as *const std::ffi::c_char) };"@
}

/// The statement of `notify_text`, in front of the body of `f`.
pub open spec fn notified(f: FnText, literal: Seq<char>) -> Seq<char> {
    prepended(f, notify_text(literal))
}

/// What `blocking` makes of a parse outcome: the function with the
/// notification in front of its body, the literal being that of the
/// function's reported name, which a NUL closes; or the compile error.
pub open spec fn blocking_text(parsed: Result<FnText, Seq<char>>) -> Seq<char> {
    match parsed {
        Ok(f) => notified(f, literal_text(reported_name(f))),
        Err(error) => error,
    }
}

/// Writes the function in `parsed` so that it calls the runtime's enter
/// before its body and the runtime's exit on every way out of the body,
/// and hands a compile error on as it is.
pub fn non_blocking_parsed(parsed: Result<FnItem, String>) -> (out: String)
    ensures
        out@ == non_blocking_text(outcome_view(parsed)),
{
    match parsed {
        Ok(f) => hold_scope(&f, Style::Direct, Scope::Realtime),
        Err(error) => error,
    }
}

/// Writes the function `f` so that it first hands the runtime a pointer to
/// the string literal `literal`. The runtime reads up to the first NUL,
/// which the literal has to hold.
pub fn notify_with(f: &FnItem, literal: &str) -> (out: String)
    ensures
        out@ == notified(f@, literal@),
{
    let mut notify = String::from_str("unsafe { rtsan_sys::__rtsan_notify_blocking_call(");
    notify.append(literal);
    notify.append(".as_ptr() as *const std::ffi::c_char) };");
    prepend_statement(f, notify.as_str())
}

/// Writes the function in `parsed` so that each call of it hands the
/// function's name, closed by a NUL, to the runtime, and hands a compile
/// error on as it is.
pub fn blocking_parsed(parsed: Result<FnItem, String>) -> (out: String)
    ensures
        out@ == blocking_text(outcome_view(parsed)),
{
    match parsed {
        Ok(f) => {
            let literal = name_literal(&f);
            notify_with(&f, literal.as_str())
        },
        Err(error) => error,
    }
}

/// Writes the function in `parsed` so that it calls the runtime's disable
/// before its body and the runtime's enable on every way out of the body,
/// and hands a compile error on as it is.
pub fn no_sanitize_parsed(parsed: Result<FnItem, String>) -> (out: String)
    ensures
        out@ == no_sanitize_text(outcome_view(parsed)),
{
    match parsed {
        Ok(f) => hold_scope(&f, Style::Direct, Scope::Disabled),
        Err(error) => error,
    }
}

/// Rewrites the function in `item` so that it calls the runtime's enter
/// before its body and the runtime's exit on every way out of the body. An
/// `item` that is no function becomes the compile error that says so. The
/// arguments of the attribute, `_attr`, are not read.
pub fn non_blocking(_attr: &str, item: &str) -> (out: String)
    ensures
        out@ == non_blocking_text(fn_syntax(item@)),
{
    non_blocking_parsed(parse_fn(item))
}

/// Rewrites the function in `item` so that each call of it hands the
/// function's name to the runtime as that of a blocking call, before the
/// body runs. The name is handed over as the bytes of a string literal
/// that a NUL closes, so the runtime reads the name and no further. An
/// `item` that is no function becomes the compile error that says so. The
/// arguments of the attribute, `_attr`, are not read.
pub fn blocking(_attr: &str, item: &str) -> (out: String)
    ensures
        out@ == blocking_text(fn_syntax(item@)),
{
    blocking_parsed(parse_fn(item))
}

/// Rewrites the function in `item` so that it calls the runtime's disable
/// before its body and the runtime's enable on every way out of the body.
/// An `item` that is no function becomes the compile error that says so.
/// The arguments of the attribute, `_attr`, are not read.
pub fn no_sanitize(_attr: &str, item: &str) -> (out: String)
    ensures
        out@ == no_sanitize_text(fn_syntax(item@)),
{
    no_sanitize_parsed(parse_fn(item))
}

} // verus!
