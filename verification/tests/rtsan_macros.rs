use rtsan_standalone::standalone_macros::{blocking, no_sanitize_realtime, nonblocking, scoped_disabler};

/// The tokens of `stream`, each as its text, groups opened up between
/// their delimiters.
fn each_token(stream: proc_macro2::TokenStream, into: &mut Vec<String>) {
    for tree in stream {
        match tree {
            proc_macro2::TokenTree::Group(group) => {
                into.push(format!("open {:?}", group.delimiter()));
                each_token(group.stream(), into);
                into.push(format!("close {:?}", group.delimiter()));
            }
            other => into.push(other.to_string()),
        }
    }
}

/// The tokens of `source`, however they are spaced.
fn token_list(source: &str) -> Vec<String> {
    let mut all = Vec::new();
    each_token(source.parse::<proc_macro2::TokenStream>().unwrap(), &mut all);
    all
}

/// Stands in the functions below where their rewritten text names the
/// guard of the real-time context.
struct ScopedSanitizeRealtime;

impl Default for ScopedSanitizeRealtime {
    fn default() -> Self {
        ScopedSanitizeRealtime
    }
}

/// Stands in the functions below where their rewritten text names the
/// guard that suspends detection.
struct ScopedDisabler;

impl Default for ScopedDisabler {
    fn default() -> Self {
        ScopedDisabler
    }
}

// `create_array_function` as `nonblocking` rewrites it.
fn create_array_function() {
    let __guard = ScopedSanitizeRealtime::default();
    {
        let _ = [0.0; 256];
    }
}

#[test]
fn test_nonblocking() {
    let out = nonblocking("", "fn create_array_function() { let _ = [0.0; 256]; }");
    assert_eq!(
        token_list(&out),
        token_list(
            "fn create_array_function() {
                let __guard = rtsan_standalone::ScopedSanitizeRealtime::default();
                { let _ = [0.0; 256]; }
            }"
        )
    );

    create_array_function();
}

// `not_sanitized_function` as `no_sanitize_realtime` rewrites it.
fn not_sanitized_function() -> Vec<f64> {
    let __guard = ScopedDisabler::default();
    {
        vec![0.0; 256]
    }
}

// `scoped_disabler_function` as `nonblocking` rewrites it, each
// `scoped_disabler!` in it written as `scoped_disabler` rewrites its body.
fn scoped_disabler_function() {
    let __guard = ScopedSanitizeRealtime::default();
    {
        let my_data = {
            let __guard = ScopedDisabler::default();
            vec![0.0; 256]
        };

        {
            let __guard = ScopedDisabler::default();
            assert_eq!(my_data.len(), 256);
        };

        let my_data2 = not_sanitized_function();

        {
            let __guard = ScopedDisabler::default();
            drop(my_data);
            drop(my_data2);
        };
    }
}

#[test]
fn test_scroped_disabler() {
    assert_eq!(
        token_list(&no_sanitize_realtime(
            "",
            "fn not_sanitized_function() -> Vec<f64> { vec![0.0; 256] }"
        )),
        token_list(
            "fn not_sanitized_function() -> Vec<f64> {
                let __guard = rtsan_standalone::ScopedDisabler::default();
                { vec![0.0; 256] }
            }"
        )
    );
    assert_eq!(
        token_list(&scoped_disabler("vec![0.0; 256]")),
        token_list("{ let __guard = rtsan_standalone::ScopedDisabler::default(); vec![0.0; 256] }")
    );
    assert_eq!(
        token_list(&scoped_disabler("assert_eq!(my_data.len(), 256);")),
        token_list(
            "{ let __guard = rtsan_standalone::ScopedDisabler::default(); assert_eq!(my_data.len(), 256); }"
        )
    );
    assert_eq!(
        token_list(&scoped_disabler("drop(my_data); drop(my_data2);")),
        token_list(
            "{ let __guard = rtsan_standalone::ScopedDisabler::default(); drop(my_data); drop(my_data2); }"
        )
    );
    let body = "let my_data = scoped_disabler! { vec![0.0; 256] };
                scoped_disabler! { assert_eq!(my_data.len(), 256); };
                let my_data2 = not_sanitized_function();
                scoped_disabler! { drop(my_data); drop(my_data2); };";
    assert_eq!(
        token_list(&nonblocking("", &format!("fn scoped_disabler_function() {{ {} }}", body))),
        token_list(&format!(
            "fn scoped_disabler_function() {{
                let __guard = rtsan_standalone::ScopedSanitizeRealtime::default();
                {{ {} }}
            }}",
            body
        ))
    );

    scoped_disabler_function();
}

// `blocking_function` as `blocking` rewrites it, the notification left out.
fn blocking_function() {
    {}
}

// `call_blocking_function` as `nonblocking` rewrites it.
fn call_blocking_function() {
    let __guard = ScopedSanitizeRealtime::default();
    {
        {
            let __guard = ScopedDisabler::default();
            blocking_function();
        }
    }
}

#[test]
fn test_blocking() {
    assert_eq!(
        token_list(&blocking("", "fn blocking_function() {}")),
        token_list(
            "fn blocking_function() {
                rtsan_standalone::notify_blocking_call(\"blocking_function\\0\");
                {}
            }"
        )
    );
    assert_eq!(
        token_list(&nonblocking(
            "",
            "fn call_blocking_function() { scoped_disabler! { blocking_function(); } }"
        )),
        token_list(
            "fn call_blocking_function() {
                let __guard = rtsan_standalone::ScopedSanitizeRealtime::default();
                { scoped_disabler! { blocking_function(); } }
            }"
        )
    );

    call_blocking_function();
}

// `early_return` as `nonblocking` rewrites it.
fn early_return(r: &[f32]) -> Option<&[f32]> {
    let __guard = ScopedSanitizeRealtime::default();
    {
        let r = r;
        for r in r.iter() {
            if *r == 1.0 {
                return None;
            }
        }
        Some(r)
    }
}

#[test]
fn test_early_return() {
    let body = "let r = r;
                for r in r.iter() {
                    if *r == 1.0 {
                        return None;
                    }
                }
                Some(r)";
    assert_eq!(
        token_list(&nonblocking(
            "",
            &format!("fn early_return(r: &[f32]) -> Option<&[f32]> {{ {} }}", body)
        )),
        token_list(&format!(
            "fn early_return(r: &[f32]) -> Option<&[f32]> {{
                let __guard = rtsan_standalone::ScopedSanitizeRealtime::default();
                {{ {} }}
            }}",
            body
        ))
    );

    let data = vec![1.0; 16];
    let a = early_return(&data);
    assert_eq!(a, None);

    let data = vec![0.0; 16];
    let a = early_return(&data);
    assert_eq!(a, Some(data.as_slice()));
}
