use rtsan_standalone::sys_macros::{blocking, no_sanitize, non_blocking};

#[test]
fn non_blocking_calls_enter_and_leaves_exit_to_a_drop() {
    let out = non_blocking("", "fn process() -> u8 { 7 }");
    assert_eq!(
        out,
        "  fn process () -> u8 { struct __Guard; impl Drop for __Guard { fn drop(&mut self) { \
         unsafe { rtsan_sys::__rtsan_realtime_exit() }; } } \
         unsafe { rtsan_sys::__rtsan_realtime_enter() }; let __guard = __Guard; { 7 } }"
    );
}

#[test]
fn no_sanitize_calls_disable_and_leaves_enable_to_a_drop() {
    let out = no_sanitize("", "fn process() -> u8 { 7 }");
    assert_eq!(
        out,
        "  fn process () -> u8 { struct __Guard; impl Drop for __Guard { fn drop(&mut self) { \
         unsafe { rtsan_sys::__rtsan_enable() }; } } \
         unsafe { rtsan_sys::__rtsan_disable() }; let __guard = __Guard; { 7 } }"
    );
}

#[test]
fn blocking_hands_over_the_name_closed_by_a_nul() {
    let out = blocking("", "fn wait() {}");
    assert_eq!(
        out,
        "  fn wait () { unsafe { rtsan_sys::__rtsan_notify_blocking_call(\"wait\\0\".as_ptr() as *const std::ffi::c_char) }; { } }"
    );
}

#[test]
fn what_is_no_function_becomes_a_compile_error() {
    let expected = ":: core :: compile_error ! { \"expected `fn`\" }";
    assert_eq!(non_blocking("", "struct S;"), expected);
    assert_eq!(blocking("", "struct S;"), expected);
    assert_eq!(no_sanitize("", "struct S;"), expected);
}
