//! What a rewritten function does when it runs, as far as the runtime sees
//! it: the calls that reach the runtime, in their order, and the way the
//! function is left.
//!
//! The rewriting itself writes text (see [`crate::rewrite`]). This module
//! says what that text does once it is compiled. It rests on two facts
//! about the language, which nothing here proves: the statements of a body
//! run in the order in which they are written, and a value that is bound in
//! a body is dropped when the body is left, whichever way.

use vstd::prelude::*;

verus! {

/// A call of one of the runtime's entry points.
#[derive(Clone, Copy, Debug, PartialEq, Eq, Structural)]
pub enum Call {
    RealtimeEnter,
    RealtimeExit,
    Disable,
    Enable,
    EnsureInitialized,
    NotifyBlockingCall,
}

/// The way a body is left.
#[derive(Clone, Copy, Debug, PartialEq, Eq, Structural)]
pub enum Way {
    /// It ran to its end.
    End,
    /// By `return` or `?`, from anywhere in it.
    Return,
    /// By a panic that unwinds.
    Unwind,
}

/// One run of a body: the calls it made, in their order, and the way it
/// was left.
pub struct Run {
    pub calls: Seq<Call>,
    pub way: Way,
}

/// What the runtime is asked to do for the length of a body.
#[derive(Clone, Copy, Debug, PartialEq, Eq, Structural)]
pub enum Scope {
    /// To watch: the body runs in a real-time context.
    Realtime,
    /// To look away: detection is suspended.
    Disabled,
}

/// What stands in front of a body: the calls that are made at once, and the
/// calls that the drops of the values bound there make.
pub struct Front {
    pub at_once: Seq<Call>,
    pub on_drop: Seq<Call>,
}

/// The call that opens a scope.
pub open spec fn enter_of(scope: Scope) -> Call {
    match scope {
        Scope::Realtime => Call::RealtimeEnter,
        Scope::Disabled => Call::Disable,
    }
}

/// The call that closes a scope.
pub open spec fn exit_of(scope: Scope) -> Call {
    match scope {
        Scope::Realtime => Call::RealtimeExit,
        Scope::Disabled => Call::Enable,
    }
}

/// The front that holds a scope open: the scope is entered at once and
/// left in a drop.
pub open spec fn scope_front(scope: Scope) -> Front {
    Front { at_once: seq![enter_of(scope)], on_drop: seq![exit_of(scope)] }
}

/// The front that reports a blocking call.
pub open spec fn notify_front() -> Front {
    Front { at_once: seq![Call::NotifyBlockingCall], on_drop: Seq::empty() }
}

/// The run of a function whose body stands behind `front`: the calls made
/// at once, then the body, then the drops, whichever way the body is left;
/// and the function is left as its body is.
pub open spec fn run_behind(front: Front, body: Run) -> Run {
    Run { calls: front.at_once + body.calls + front.on_drop, way: body.way }
}

/// The run of a function whose body stands between the calls `before` and
/// the calls `after`, with nothing left to a drop: `after` is reached only
/// where the body runs to its end.
pub open spec fn run_between(before: Seq<Call>, body: Run, after: Seq<Call>) -> Run {
    Run {
        calls: if body.way == Way::End {
            before + body.calls + after
        } else {
            before + body.calls
        },
        way: body.way,
    }
}

/// Whether `call` opens a scope.
pub open spec fn opens(call: Call) -> bool {
    call == Call::RealtimeEnter || call == Call::Disable
}

/// Whether `call` closes the scope that `opened` has opened.
pub open spec fn closes(call: Call, opened: Call) -> bool {
    (call == Call::RealtimeExit && opened == Call::RealtimeEnter) || (call == Call::Enable
        && opened == Call::Disable)
}

/// Whether `call` closes a scope of some kind.
pub open spec fn closing(call: Call) -> bool {
    call == Call::RealtimeExit || call == Call::Enable
}

/// The scopes that are open after `calls`, innermost last, where `open`
/// were open before; `None` where some call closes a scope that is not the
/// innermost open one.
pub open spec fn open_after(calls: Seq<Call>, open: Seq<Call>) -> Option<Seq<Call>>
    decreases calls.len(),
{
    if calls.len() == 0 {
        Some(open)
    } else if opens(calls[0]) {
        open_after(calls.skip(1), open.push(calls[0]))
    } else if closing(calls[0]) {
        if open.len() > 0 && closes(calls[0], open.last()) {
            open_after(calls.skip(1), open.drop_last())
        } else {
            None
        }
    } else {
        open_after(calls.skip(1), open)
    }
}

/// Whether every scope that `calls` open is closed again, by its own
/// closing call, and inside every scope that was open before it.
pub open spec fn paired_and_nested(calls: Seq<Call>) -> bool {
    open_after(calls, Seq::empty()) == Some(Seq::<Call>::empty())
}

/// What is open after two runs of calls is what is open after the second,
/// begun with what the first has left open.
pub proof fn lemma_open_after_both(first: Seq<Call>, second: Seq<Call>, open: Seq<Call>)
    ensures
        open_after(first + second, open) == match open_after(first, open) {
            Some(between) => open_after(second, between),
            None => None,
        },
    decreases first.len(),
{
    if first.len() == 0 {
        assert(first + second =~= second);
    } else {
        assert((first + second).skip(1) =~= first.skip(1) + second);
        assert((first + second)[0] == first[0]);
        if opens(first[0]) {
            lemma_open_after_both(first.skip(1), second, open.push(first[0]));
        } else if closing(first[0]) {
            if open.len() > 0 && closes(first[0], open.last()) {
                lemma_open_after_both(first.skip(1), second, open.drop_last());
            }
        } else {
            lemma_open_after_both(first.skip(1), second, open);
        }
    }
}

/// Calls that leave open what they found open do so under any scopes that
/// were open before.
pub proof fn lemma_open_after_under(calls: Seq<Call>, open: Seq<Call>, under: Seq<Call>)
    requires
        open_after(calls, open).is_some(),
    ensures
        open_after(calls, under + open) == Some(under + open_after(calls, open).unwrap()),
    decreases calls.len(),
{
    if calls.len() > 0 {
        if opens(calls[0]) {
            assert((under + open).push(calls[0]) =~= under + open.push(calls[0]));
            lemma_open_after_under(calls.skip(1), open.push(calls[0]), under);
        } else if closing(calls[0]) {
            assert((under + open).last() == open.last());
            assert((under + open).drop_last() =~= under + open.drop_last());
            lemma_open_after_under(calls.skip(1), open.drop_last(), under);
        } else {
            lemma_open_after_under(calls.skip(1), open, under);
        }
    }
}

/// A function that holds a scope open in front of its body enters the
/// scope, runs its body and leaves the scope, once each and in this order,
/// whichever way the body is left; and it is left as its body is.
pub proof fn law_scope_is_paired(scope: Scope, body: Run)
    ensures
        run_behind(scope_front(scope), body).calls == seq![enter_of(scope)] + body.calls
            + seq![exit_of(scope)],
        run_behind(scope_front(scope), body).way == body.way,
{
}

/// Where the calls of the body are paired and nested, so are the calls of
/// a function that holds a scope open in front of that body, whichever way
/// the body is left.
pub proof fn law_scope_is_nested(scope: Scope, body: Run)
    requires
        paired_and_nested(body.calls),
    ensures
        paired_and_nested(run_behind(scope_front(scope), body).calls),
{
    let enter = seq![enter_of(scope)];
    let exit = seq![exit_of(scope)];
    let none = Seq::<Call>::empty();
    assert(open_after(enter, none) == Some(enter)) by {
        assert(enter.skip(1) =~= none);
        assert(none.push(enter_of(scope)) =~= enter);
        assert(open_after(enter.skip(1), enter) == Some(enter));
    }
    assert(open_after(body.calls, enter) == Some(enter)) by {
        lemma_open_after_under(body.calls, none, enter);
        assert(enter + none =~= enter);
    }
    assert(open_after(exit, enter) == Some(none)) by {
        assert(exit.skip(1) =~= none);
        assert(enter.drop_last() =~= none);
        assert(open_after(exit.skip(1), none) == Some(none));
    }
    lemma_open_after_both(enter, body.calls, none);
    lemma_open_after_both(enter + body.calls, exit, none);
}

/// A function that reports itself makes the report first and then what its
/// body makes, and it is left as its body is. The report opens and closes
/// nothing.
pub proof fn law_report_comes_first(body: Run)
    ensures
        run_behind(notify_front(), body).calls == seq![Call::NotifyBlockingCall] + body.calls,
        run_behind(notify_front(), body).way == body.way,
        paired_and_nested(body.calls) ==> paired_and_nested(
            run_behind(notify_front(), body).calls,
        ),
{
    let report = seq![Call::NotifyBlockingCall];
    let none = Seq::<Call>::empty();
    assert(report + body.calls + none =~= report + body.calls);
    assert(open_after(report, none) == Some(none)) by {
        assert(report.skip(1) =~= none);
        assert(open_after(report.skip(1), none) == Some(none));
    }
    lemma_open_after_both(report, body.calls, none);
}

/// Why the closing call is left to a drop: written behind the body, it is
/// passed by where the body is not left at its end, and the scope stays
/// open.
pub proof fn law_a_call_behind_the_body_is_passed_by(scope: Scope, body: Run)
    requires
        paired_and_nested(body.calls),
        body.way != Way::End,
    ensures
        !paired_and_nested(
            run_between(seq![enter_of(scope)], body, seq![exit_of(scope)]).calls,
        ),
{
    let enter = seq![enter_of(scope)];
    let none = Seq::<Call>::empty();
    assert(open_after(enter, none) == Some(enter)) by {
        assert(enter.skip(1) =~= none);
        assert(none.push(enter_of(scope)) =~= enter);
        assert(open_after(enter.skip(1), enter) == Some(enter));
    }
    lemma_open_after_under(body.calls, none, enter);
    assert(enter + none =~= enter);
    lemma_open_after_both(enter, body.calls, none);
    assert(enter.len() == 1);
}

/// Whether every scope that `calls` open is closed again, by its own
/// closing call, and inside every scope that was open before it.
pub fn is_paired_and_nested(calls: &[Call]) -> (held: bool)
    ensures
        held == paired_and_nested(calls@),
{
    let mut open: Vec<Call> = Vec::new();
    let mut at: usize = 0;
    assert(calls@.skip(0) =~= calls@);
    while at < calls.len()
        invariant
            at <= calls.len(),
            open_after(calls@, Seq::empty()) == open_after(calls@.skip(at as int), open@),
        decreases calls.len() - at,
    {
        let call = calls[at];
        assert(calls@.skip(at as int)[0] == call);
        assert(calls@.skip(at as int).skip(1) =~= calls@.skip(at + 1));
        match call {
            Call::RealtimeEnter | Call::Disable => {
                open.push(call);
            },
            Call::RealtimeExit => {
                match open.pop() {
                    Some(Call::RealtimeEnter) => {},
                    _ => {
                        return false;
                    },
                }
            },
            Call::Enable => {
                match open.pop() {
                    Some(Call::Disable) => {},
                    _ => {
                        return false;
                    },
                }
            },
            Call::EnsureInitialized | Call::NotifyBlockingCall => {},
        }
        at += 1;
    }
    assert(calls@.skip(at as int).len() == 0);
    assert((open@ =~= Seq::<Call>::empty()) == (open.len() == 0));
    open.len() == 0
}

} // verus!
