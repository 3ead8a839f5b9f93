use rtsan_standalone::rtsan_macros::{blocking, no_sanitize, nonblocking};

#[test]
fn switched_off_every_attribute_gives_the_item_back() {
    let item = "fn process() { let _ = vec![0.0; 256]; }";
    assert_eq!(nonblocking(false, "", item), item);
    assert_eq!(blocking(false, "", item), item);
    assert_eq!(no_sanitize(false, "", item), item);
}

#[test]
fn switched_off_even_what_is_no_function_comes_back() {
    assert_eq!(nonblocking(false, "", "struct S;"), "struct S;");
    assert_eq!(blocking(false, "", "fn f() {"), "fn f() {");
    assert_eq!(no_sanitize(false, "", ""), "");
}

#[test]
fn switched_on_nonblocking_enters_the_context_and_leaves_it_in_a_drop() {
    let out = nonblocking(true, "", "fn process() -> u8 { 7 }");
    assert_eq!(
        out,
        "  fn process () -> u8 { struct __Guard; impl Drop for __Guard { fn drop(&mut self) { \
         rtsan::realtime_exit(); } } rtsan::realtime_enter(); let __guard = __Guard; { 7 } }"
    );
}

#[test]
fn switched_on_no_sanitize_suspends_detection_and_resumes_it_in_a_drop() {
    let out = no_sanitize(true, "", "fn process() -> u8 { 7 }");
    assert_eq!(
        out,
        "  fn process () -> u8 { struct __Guard; impl Drop for __Guard { fn drop(&mut self) { \
         rtsan::enable(); } } rtsan::disable(); let __guard = __Guard; { 7 } }"
    );
}

#[test]
fn switched_on_blocking_reports_the_function_by_its_name() {
    let out = blocking(true, "", "fn my_blocking_function() {}");
    assert_eq!(
        out,
        "  fn my_blocking_function () { rtsan::notify_blocking_call(\"my_blocking_function\\0\"); { } }"
    );
}

#[test]
fn switched_on_what_is_no_function_becomes_a_compile_error() {
    let expected = ":: core :: compile_error ! { \"expected `fn`\" }";
    assert_eq!(nonblocking(true, "", "struct S;"), expected);
    assert_eq!(blocking(true, "", "struct S;"), expected);
    assert_eq!(no_sanitize(true, "", "struct S;"), expected);
}
