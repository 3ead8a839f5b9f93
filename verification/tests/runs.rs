use rtsan_standalone::rewrite::{front_statements, hold_scope, Style};
use rtsan_standalone::run::{is_paired_and_nested, Call, Scope};
use rtsan_standalone::syntax::FnItem;

#[test]
fn no_calls_are_paired_and_nested() {
    assert!(is_paired_and_nested(&[]));
    assert!(is_paired_and_nested(&[Call::EnsureInitialized, Call::NotifyBlockingCall]));
}

#[test]
fn a_scope_that_is_entered_and_left_is_paired() {
    assert!(is_paired_and_nested(&[Call::RealtimeEnter, Call::RealtimeExit]));
    assert!(is_paired_and_nested(&[Call::Disable, Call::Enable]));
    assert!(is_paired_and_nested(&[
        Call::RealtimeEnter,
        Call::NotifyBlockingCall,
        Call::RealtimeExit,
        Call::RealtimeEnter,
        Call::RealtimeExit,
    ]));
}

#[test]
fn scopes_inside_scopes_are_nested() {
    assert!(is_paired_and_nested(&[
        Call::RealtimeEnter,
        Call::Disable,
        Call::RealtimeEnter,
        Call::RealtimeExit,
        Call::Enable,
        Call::RealtimeExit,
    ]));
}

#[test]
fn a_scope_left_open_is_not_paired() {
    assert!(!is_paired_and_nested(&[Call::RealtimeEnter]));
    assert!(!is_paired_and_nested(&[Call::Disable, Call::RealtimeEnter, Call::RealtimeExit]));
}

#[test]
fn a_scope_left_before_it_is_entered_is_not_paired() {
    assert!(!is_paired_and_nested(&[Call::RealtimeExit]));
    assert!(!is_paired_and_nested(&[Call::Enable, Call::Disable]));
    assert!(!is_paired_and_nested(&[Call::RealtimeEnter, Call::RealtimeExit, Call::RealtimeExit]));
}

#[test]
fn a_scope_left_by_the_call_of_another_kind_is_not_paired() {
    assert!(!is_paired_and_nested(&[Call::RealtimeEnter, Call::Enable]));
    assert!(!is_paired_and_nested(&[Call::Disable, Call::RealtimeExit]));
}

#[test]
fn scopes_that_cross_are_not_nested() {
    assert!(!is_paired_and_nested(&[
        Call::RealtimeEnter,
        Call::Disable,
        Call::RealtimeExit,
        Call::Enable,
    ]));
}

#[test]
fn each_style_holds_each_scope_open_by_its_own_statements() {
    assert_eq!(
        front_statements(Style::Guard, Scope::Realtime),
        "let __guard = rtsan_standalone::ScopedSanitizeRealtime::default();"
    );
    assert_eq!(
        front_statements(Style::Guard, Scope::Disabled),
        "let __guard = rtsan_standalone::ScopedDisabler::default();"
    );
    assert_eq!(
        front_statements(Style::Facade, Scope::Realtime),
        "struct __Guard; impl Drop for __Guard { fn drop(&mut self) { rtsan::realtime_exit(); } } \
         rtsan::realtime_enter(); let __guard = __Guard;"
    );
    assert_eq!(
        front_statements(Style::Facade, Scope::Disabled),
        "struct __Guard; impl Drop for __Guard { fn drop(&mut self) { rtsan::enable(); } } \
         rtsan::disable(); let __guard = __Guard;"
    );
    assert_eq!(
        front_statements(Style::Direct, Scope::Realtime),
        "struct __Guard; impl Drop for __Guard { fn drop(&mut self) { \
         unsafe { rtsan_sys::__rtsan_realtime_exit() }; } } \
         unsafe { rtsan_sys::__rtsan_realtime_enter() }; let __guard = __Guard;"
    );
    assert_eq!(
        front_statements(Style::Direct, Scope::Disabled),
        "struct __Guard; impl Drop for __Guard { fn drop(&mut self) { \
         unsafe { rtsan_sys::__rtsan_enable() }; } } \
         unsafe { rtsan_sys::__rtsan_disable() }; let __guard = __Guard;"
    );
}

#[test]
fn hold_scope_puts_the_statements_in_front_of_the_body() {
    let f = FnItem {
        attrs: String::new(),
        vis: String::from("pub"),
        sig: String::from("fn f ()"),
        name: String::from("f"),
        block: String::from("{ }"),
    };
    assert_eq!(
        hold_scope(&f, Style::Guard, Scope::Disabled),
        " pub fn f () { let __guard = rtsan_standalone::ScopedDisabler::default(); { } }"
    );
}
