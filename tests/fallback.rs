use std::cell::Cell;
use std::fmt;

use unwrap_log::{
    no_dbg_error, option_error, push_decimal, result_error, CallSite, OptionExt, ResultExt,
    ResultExtNoDbg,
};

fn site() -> CallSite<'static> {
    CallSite::new("src/main.rs", 8, 23)
}

#[test]
fn present_option_is_returned_without_warning() {
    assert_eq!(Some(7).unwrap_or_default_log(&site()), (7, None));
    assert_eq!(Some(7).unwrap_or_else_log(&site(), || 9), (7, None));
    assert_eq!(Some(7).unwrap_or_log(&site(), 9), (7, None));
}

#[test]
fn absent_integer_falls_back_to_zero() {
    let (value, line) = None::<i32>.unwrap_or_default_log(&site());
    assert_eq!(value, 0);
    let line = line.unwrap();
    assert_eq!(line, "src/main.rs:8:23 encountered absent value");
    assert!(line.contains("encountered"));
    assert!(line.contains("src/main.rs:8:23"));
}

#[test]
fn absent_option_takes_explicit_value() {
    let (value, line) = None.unwrap_or_log(&site(), 42u64);
    assert_eq!(value, 42);
    assert_eq!(line.as_deref(), Some("src/main.rs:8:23 encountered absent value"));
}

#[test]
fn supplier_runs_once_only_when_absent() {
    let calls = Cell::new(0u32);
    let supplier = || {
        calls.set(calls.get() + 1);
        5i64
    };
    let (value, line) = None.unwrap_or_else_log(&site(), supplier);
    assert_eq!(value, 5);
    assert!(line.is_some());
    assert_eq!(calls.get(), 1);

    let (value, line) = Some(3i64).unwrap_or_else_log(&site(), || {
        calls.set(calls.get() + 1);
        5i64
    });
    assert_eq!(value, 3);
    assert!(line.is_none());
    assert_eq!(calls.get(), 1);
}

#[test]
fn success_is_returned_without_warning() {
    let ok: Result<u8, &str> = Ok(4);
    assert_eq!(ResultExt::unwrap_or_default_log(ok, &site()), (4, None));
    assert_eq!(ResultExt::unwrap_or_else_log(ok, &site(), || 1), (4, None));
    assert_eq!(ResultExt::unwrap_or_log(ok, &site(), 1), (4, None));
    assert_eq!(ResultExtNoDbg::unwrap_or_default_log(ok, &site()), (4, None));
    assert_eq!(ResultExtNoDbg::unwrap_or_else_log(ok, &site(), || 1), (4, None));
    assert_eq!(ResultExtNoDbg::unwrap_or_log(ok, &site(), 1), (4, None));
}

#[test]
fn failure_with_detail_reports_reason() {
    let failed: Result<String, &str> = Err("oops");
    let (value, line) = ResultExt::unwrap_or_default_log(failed, &site());
    assert_eq!(value, String::new());
    let line = line.unwrap();
    assert!(line.contains("oops"));
    assert_eq!(line, "src/main.rs:8:23 encountered failure: \"oops\"");
}

#[test]
fn failure_without_detail_hides_reason() {
    let failed: Result<String, &str> = Err("oops");
    let (value, line) = ResultExtNoDbg::unwrap_or_default_log(failed, &site());
    assert_eq!(value, String::new());
    let line = line.unwrap();
    assert!(!line.contains("oops"));
    assert_eq!(line, "src/main.rs:8:23 encountered a failure");
}

#[test]
fn failure_takes_supplied_and_explicit_values() {
    let failed: Result<i32, u8> = Err(3);
    assert_eq!(ResultExt::unwrap_or_else_log(failed, &site(), || -1).0, -1);
    assert_eq!(ResultExt::unwrap_or_log(failed, &site(), -2).0, -2);
    assert_eq!(ResultExtNoDbg::unwrap_or_else_log(failed, &site(), || -1).0, -1);
    assert_eq!(ResultExtNoDbg::unwrap_or_log(failed, &site(), -2).0, -2);
}

#[test]
fn repeated_calls_agree() {
    let failed: Result<i32, &str> = Err("bad");
    let first = ResultExt::unwrap_or_default_log(failed, &site());
    let second = ResultExt::unwrap_or_default_log(failed, &site());
    assert_eq!(first, second);
    assert_eq!(None::<i32>.unwrap_or_log(&site(), 1), None::<i32>.unwrap_or_log(&site(), 1));
}

#[test]
fn warning_lines_name_the_site() {
    let at = CallSite::new("lib.rs", 0, 4294967295);
    assert_eq!(at.render(), "lib.rs:0:4294967295");
    assert_eq!(option_error(&at), "lib.rs:0:4294967295 encountered absent value");
    assert_eq!(result_error(&at, "E"), "lib.rs:0:4294967295 encountered failure: E");
    assert_eq!(no_dbg_error(&at), "lib.rs:0:4294967295 encountered a failure");
}

#[test]
fn decimal_digits_are_appended() {
    let mut out = String::from("n=");
    push_decimal(&mut out, 1090);
    assert_eq!(out, "n=1090");
    let mut zero = String::new();
    push_decimal(&mut zero, 0);
    assert_eq!(zero, "0");
}

struct Unprintable;

impl fmt::Debug for Unprintable {
    fn fmt(&self, _f: &mut fmt::Formatter<'_>) -> fmt::Result {
        Err(fmt::Error)
    }
}

#[test]
fn failing_reason_rendering_does_not_panic() {
    let failed: Result<u16, Unprintable> = Err(Unprintable);
    let (value, line) = ResultExt::unwrap_or_default_log(failed, &site());
    assert_eq!(value, 0);
    assert_eq!(line.as_deref(), Some("src/main.rs:8:23 encountered failure: "));
}
