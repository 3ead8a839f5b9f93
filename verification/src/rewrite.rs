//! How a function is rewritten: its attributes, visibility and signature
//! stay, and its body, braces included, becomes the last thing in a new
//! body, behind the statements that the rewriting adds. The body keeps its
//! tail position, so its value is still the function's value and a `return`
//! in it still leaves the function.
//!
//! What has to be undone when the function is left is never written behind
//! the body, where a `return` or a panic would pass it by. It is put in the
//! `drop` of a value that is bound in front of the body and so lives until
//! the body is left, whichever way.
//!
//! [`front_text`] is the text that holds a [`Scope`] open in front of a
//! body. What a function with that text does when it runs is
//! `run_behind(scope_front(scope), body)` of [`crate::run`], and what a
//! function with the text of [`reported`] does is
//! `run_behind(notify_front(), body)`; the laws of that module are stated
//! of these runs.

use crate::run::{notify_front, run_behind, scope_front, Run, Scope};
use crate::syntax::{literal_text, string_literal, FnItem, FnText};
use vstd::prelude::*;
use vstd::string::StringExecFns;

verus! {

/// Everything in front of the body: attributes, visibility, signature.
pub open spec fn head(f: FnText) -> Seq<char> {
    f.attrs + " "@ + f.vis + " "@ + f.sig
}

/// The function `f` with `stmts` in front of its body.
pub open spec fn prepended(f: FnText, stmts: Seq<char>) -> Seq<char> {
    head(f) + " { "@ + stmts + " "@ + f.block + " }"@
}

/// A statement that calls `path` with the one argument `arg`.
pub open spec fn call_text(path: Seq<char>, arg: Seq<char>) -> Seq<char> {
    path + "("@ + arg + ");"@
}

/// A statement that binds `__guard` to the default value of the type
/// `path`. The value is dropped when the body that holds the statement is
/// left.
pub open spec fn guard_text(path: Seq<char>) -> Seq<char> {
    "let __guard = "@ + path + "::default();"@
}

/// Statements that run `enter` at once and `exit` when the body that holds
/// them is left: a type `__Guard` whose `drop` is `exit`, then `enter`, then
/// a value of that type bound to `__guard`.
pub open spec fn scope_text(enter: Seq<char>, exit: Seq<char>) -> Seq<char> {
    "struct __Guard; impl Drop for __Guard { fn drop(&mut self) { "@ + exit + " } } "@ + enter
        + " let __guard = __Guard;"@
}

/// Whose functions the added statements call.
#[derive(Clone, Copy, Debug, PartialEq, Eq, Structural)]
pub enum Style {
    /// The guard types of `rtsan_standalone`, which enter a scope when
    /// they are made and leave it when they are dropped.
    Guard,
    /// The functions of `rtsan`, one for each entry point.
    Facade,
    /// The runtime's entry points themselves, as `rtsan_sys` declares
    /// them.
    Direct,
}

/// The guard type of `rtsan_standalone` that holds `scope` open.
pub open spec fn guard_path(scope: Scope) -> Seq<char> {
    match scope {
        Scope::Realtime => "rtsan_standalone::ScopedSanitizeRealtime"@,
        Scope::Disabled => "rtsan_standalone::ScopedDisabler"@,
    }
}

/// The statement that makes the call `enter_of(scope)` of [`crate::run`],
/// through `rtsan` with `direct` off and on the runtime itself with it on.
pub open spec fn enter_text(direct: bool, scope: Scope) -> Seq<char> {
    match scope {
        Scope::Realtime => if direct {
            "unsafe { rtsan_sys::__rtsan_realtime_enter() };"@
        } else {
            "rtsan::realtime_enter();"@
        },
        Scope::Disabled => if direct {
            "unsafe { rtsan_sys::__rtsan_disable() };"@
        } else {
            "rtsan::disable();"@
        },
    }
}

/// The statement that makes the call `exit_of(scope)` of [`crate::run`],
/// through `rtsan` with `direct` off and on the runtime itself with it on.
pub open spec fn exit_text(direct: bool, scope: Scope) -> Seq<char> {
    match scope {
        Scope::Realtime => if direct {
            "unsafe { rtsan_sys::__rtsan_realtime_exit() };"@
        } else {
            "rtsan::realtime_exit();"@
        },
        Scope::Disabled => if direct {
            "unsafe { rtsan_sys::__rtsan_enable() };"@
        } else {
            "rtsan::enable();"@
        },
    }
}

/// The statements that hold `scope` open for the length of the body behind
/// them: the scope is entered at once and left in a drop.
pub open spec fn front_text(style: Style, scope: Scope) -> Seq<char> {
    match style {
        Style::Guard => guard_text(guard_path(scope)),
        Style::Facade => scope_text(enter_text(false, scope), exit_text(false, scope)),
        Style::Direct => scope_text(enter_text(true, scope), exit_text(true, scope)),
    }
}

/// The function `f` with `scope` held open for the length of its body.
pub open spec fn scoped(f: FnText, style: Style, scope: Scope) -> Seq<char> {
    prepended(f, front_text(style, scope))
}

/// What a function with the text `scoped(f, style, scope)` does when it
/// runs, where `body` is what the body of `f` does: in every style the
/// scope is entered in front of the body and left in a drop. With
/// `Style::Guard` the two calls are made by the guard type, which the
/// program holds, when a guard is made and when it is dropped.
pub open spec fn scoped_run(scope: Scope, body: Run) -> Run {
    run_behind(scope_front(scope), body)
}

/// What a function with the text of [`reported`] does when it runs, where
/// `body` is what its body does.
pub open spec fn reported_run(body: Run) -> Run {
    run_behind(notify_front(), body)
}

/// The name under which a call of the function is reported: its own,
/// closed by a NUL.
pub open spec fn reported_name(f: FnText) -> Seq<char> {
    f.name + "\0"@
}

/// The function `f` with, in front of its body, a call of `path` on its
/// reported name, written as a string literal.
pub open spec fn reported(f: FnText, path: Seq<char>) -> Seq<char> {
    prepended(f, call_text(path, literal_text(reported_name(f))))
}

fn head_of(f: &FnItem) -> (out: String)
    ensures
        out@ == head(f@),
{
    let mut out = f.attrs.clone();
    out.append(" ");
    out.append(f.vis.as_str());
    out.append(" ");
    out.append(f.sig.as_str());
    out
}

/// Writes the function `f` with `stmts` in front of its body.
pub fn prepend_statement(f: &FnItem, stmts: &str) -> (out: String)
    ensures
        out@ == prepended(f@, stmts@),
{
    let mut out = head_of(f);
    out.append(" { ");
    out.append(stmts);
    out.append(" ");
    out.append(f.block.as_str());
    out.append(" }");
    out
}

/// Writes the statement that calls `path` with the argument `arg`.
pub fn call_statement(path: &str, arg: &str) -> (out: String)
    ensures
        out@ == call_text(path@, arg@),
{
    let mut out = String::from_str(path);
    out.append("(");
    out.append(arg);
    out.append(");");
    out
}

/// Writes the statement that holds a guard of the type `path`.
pub fn guard_statement(path: &str) -> (out: String)
    ensures
        out@ == guard_text(path@),
{
    let mut out = String::from_str("let __guard = ");
    out.append(path);
    out.append("::default();");
    out
}

/// Writes the statements that run `enter` at once and `exit` when the body
/// that holds them is left.
pub fn scope_statements(enter: &str, exit: &str) -> (out: String)
    ensures
        out@ == scope_text(enter@, exit@),
{
    let mut out = String::from_str("struct __Guard; impl Drop for __Guard { fn drop(&mut self) { ");
    out.append(exit);
    out.append(" } } ");
    out.append(enter);
    out.append(" let __guard = __Guard;");
    out
}

fn enter_statement(direct: bool, scope: Scope) -> (out: &'static str)
    ensures
        out@ == enter_text(direct, scope),
{
    match scope {
        Scope::Realtime => if direct {
            "unsafe { rtsan_sys::__rtsan_realtime_enter() };"
        } else {
            "rtsan::realtime_enter();"
        },
        Scope::Disabled => if direct {
            "unsafe { rtsan_sys::__rtsan_disable() };"
        } else {
            "rtsan::disable();"
        },
    }
}

fn exit_statement(direct: bool, scope: Scope) -> (out: &'static str)
    ensures
        out@ == exit_text(direct, scope),
{
    match scope {
        Scope::Realtime => if direct {
            "unsafe { rtsan_sys::__rtsan_realtime_exit() };"
        } else {
            "rtsan::realtime_exit();"
        },
        Scope::Disabled => if direct {
            "unsafe { rtsan_sys::__rtsan_enable() };"
        } else {
            "rtsan::enable();"
        },
    }
}

/// Writes the statements that hold `scope` open for the length of the body
/// behind them.
pub fn front_statements(style: Style, scope: Scope) -> (out: String)
    ensures
        out@ == front_text(style, scope),
{
    match style {
        Style::Guard => match scope {
            Scope::Realtime => guard_statement("rtsan_standalone::ScopedSanitizeRealtime"),
            Scope::Disabled => guard_statement("rtsan_standalone::ScopedDisabler"),
        },
        Style::Facade => scope_statements(enter_statement(false, scope), exit_statement(false, scope)),
        Style::Direct => scope_statements(enter_statement(true, scope), exit_statement(true, scope)),
    }
}

/// Writes the function `f` with `scope` held open for the length of its
/// body.
pub fn hold_scope(f: &FnItem, style: Style, scope: Scope) -> (out: String)
    ensures
        out@ == scoped(f@, style, scope),
{
    let front = front_statements(style, scope);
    prepend_statement(f, front.as_str())
}

/// Writes the string literal of the name under which `f` is reported: its
/// own name, closed by a NUL.
pub fn name_literal(f: &FnItem) -> (literal: String)
    ensures
        literal@ == literal_text(reported_name(f@)),
{
    let mut function_name = f.name.clone();
    function_name.append("\0");
    string_literal(function_name.as_str())
}

/// Writes the function `f` so that it first calls `path` with its own
/// name, closed by a NUL, as a string literal.
pub fn report_by_name(f: &FnItem, path: &str) -> (out: String)
    ensures
        out@ == reported(f@, path@),
{
    let literal = name_literal(f);
    let notify = call_statement(path, literal.as_str());
    prepend_statement(f, notify.as_str())
}

} // verus!
