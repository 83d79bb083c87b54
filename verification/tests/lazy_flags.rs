//! The two flags that live outside the bulk pass.

use memprof_opts::crosscheck_unwind_results_with_libunwind;
use memprof_opts::emit_partial_backtraces;
use memprof_opts::EnvValue;

#[test]
fn crosscheck_is_always_off() {
    assert!(!crosscheck_unwind_results_with_libunwind());
    assert!(!crosscheck_unwind_results_with_libunwind());
}

#[test]
fn partial_backtraces_default_to_on() {
    assert!(emit_partial_backtraces(None));
}

#[test]
fn partial_backtraces_accept_only_the_digit_one() {
    let one = EnvValue::Text("1".to_string());
    assert!(emit_partial_backtraces(Some(&one)));
    // Unlike the bulk booleans, `true` is not an accepted spelling here.
    let spelled = EnvValue::Text("true".to_string());
    assert!(!emit_partial_backtraces(Some(&spelled)));
    let zero = EnvValue::Text("0".to_string());
    assert!(!emit_partial_backtraces(Some(&zero)));
    let empty = EnvValue::Text(String::new());
    assert!(!emit_partial_backtraces(Some(&empty)));
    let raw = EnvValue::NonText;
    assert!(!emit_partial_backtraces(Some(&raw)));
}

#[test]
fn partial_backtraces_answer_twice_the_same() {
    let one = EnvValue::Text("1".to_string());
    assert_eq!(emit_partial_backtraces(Some(&one)), emit_partial_backtraces(Some(&one)));
    assert_eq!(emit_partial_backtraces(None), emit_partial_backtraces(None));
    let zero = EnvValue::Text("0".to_string());
    assert_eq!(emit_partial_backtraces(Some(&zero)), emit_partial_backtraces(Some(&zero)));
}
