//! The fallback operations on optional and fallible values.
use core::fmt::Write;

use vstd::prelude::*;

use crate::message::{
    absent_message, failure_message, no_dbg_error, option_error, result_error,
    undisclosed_failure_message,
};
use crate::site::CallSite;

verus! {

/// What a fallback with an explicit substitute returns: the payload and no
/// warning when it is present, else `substitute` and the warning `line`.
pub open spec fn fallback_outcome<T>(
    payload: Option<T>,
    substitute: T,
    line: Seq<char>,
    r: (T, Option<String>),
) -> bool {
    match payload {
        Some(v) => r.0 == v && r.1 is None,
        None => r.0 == substitute && r.1 is Some && r.1->0@ == line,
    }
}

/// Repeating a fallback with the same input gives the same value and the same
/// warning line: the outcome leaves no room for state kept between calls.
pub proof fn lemma_fallback_repeatable<T>(
    payload: Option<T>,
    substitute: T,
    line: Seq<char>,
    first: (T, Option<String>),
    second: (T, Option<String>),
)
    requires
        fallback_outcome(payload, substitute, line, first),
        fallback_outcome(payload, substitute, line, second),
    ensures
        first.0 == second.0,
        first.1 is Some <==> second.1 is Some,
        first.1 is Some ==> first.1->0@ == second.1->0@,
{
}

/// Fallback alternatives to unwrapping an optional value.
///
/// Each operation returns the payload and no warning when it is present;
/// otherwise it returns a substitute and the warning line for `site`.
pub trait OptionExt: Sized {
    /// The payload type, `T` for an `Option<T>`.
    type Output: Default;

    /// The payload, when present.
    spec fn present(&self) -> Option<Self::Output>;

    /// Returns the payload, or the payload type's default value and a warning.
    fn unwrap_or_default_log(self, site: &CallSite) -> (r: (Self::Output, Option<String>))
        ensures
            match self.present() {
                Some(v) => r.0 == v && r.1 is None,
                None => call_ensures(Self::Output::default, (), r.0) && r.1 is Some
                    && r.1->0@ == absent_message(site.text()),
            },
    ;

    /// Returns the payload, or what `f` produces and a warning. `f` is called
    /// only when the payload is absent.
    fn unwrap_or_else_log<F: FnOnce() -> Self::Output>(self, site: &CallSite, f: F) -> (r: (
        Self::Output,
        Option<String>,
    ))
        requires
            self.present() is None ==> f.requires(()),
        ensures
            match self.present() {
                Some(v) => r.0 == v && r.1 is None,
                None => f.ensures((), r.0) && r.1 is Some && r.1->0@ == absent_message(
                    site.text(),
                ),
            },
    ;

    /// Returns the payload, or `default` and a warning.
    fn unwrap_or_log(self, site: &CallSite, default: Self::Output) -> (r: (
        Self::Output,
        Option<String>,
    ))
        ensures
            fallback_outcome(self.present(), default, absent_message(site.text()), r),
    ;
}

impl<T: Default> OptionExt for Option<T> {
    type Output = T;

    open spec fn present(&self) -> Option<T> {
        *self
    }

    fn unwrap_or_default_log(self, site: &CallSite) -> (r: (T, Option<String>)) {
        match self {
            Some(x) => (x, None),
            None => {
                let line = option_error(site);
                (T::default(), Some(line))
            },
        }
    }

    fn unwrap_or_else_log<F: FnOnce() -> T>(self, site: &CallSite, f: F) -> (r: (T, Option<String>)) {
        match self {
            Some(x) => (x, None),
            None => {
                let line = option_error(site);
                (f(), Some(line))
            },
        }
    }

    fn unwrap_or_log(self, site: &CallSite, default: T) -> (r: (T, Option<String>)) {
        match self {
            Some(x) => (x, None),
            None => {
                let line = option_error(site);
                (default, Some(line))
            },
        }
    }
}

/// Without detail, the warning line for a failure is the same whatever the
/// failure reason: no rendering of the reason reaches it.
pub proof fn lemma_undisclosed_line_ignores_reason<T: Default, E>(
    a: Result<T, E>,
    b: Result<T, E>,
    site: CallSite,
    substitute: T,
    ra: (T, Option<String>),
    rb: (T, Option<String>),
)
    requires
        a is Err,
        b is Err,
        fallback_outcome(
            ResultExtNoDbg::success(&a),
            substitute,
            undisclosed_failure_message(site.text()),
            ra,
        ),
        fallback_outcome(
            ResultExtNoDbg::success(&b),
            substitute,
            undisclosed_failure_message(site.text()),
            rb,
        ),
    ensures
        ra.1 is Some && rb.1 is Some,
        ra.1->0@ == rb.1->0@,
        ra.1->0@ == site.text() + " encountered a failure"@,
{
}

/// Renders `reason` with its `Debug` formatting.
///
/// Relies on `write!` with `{:?}` into a `String`, which calls
/// `<E as Debug>::fmt`. Nothing is stated of the text: it is whatever that impl
/// writes. An error returned by that impl is dropped rather than turned into a
/// panic, so the text is then whatever was written before it.
#[verifier::external_body]
fn render_reason<E: core::fmt::Debug>(reason: &E) -> (r: String) {
    let mut text = String::new();
    let _ = write!(text, "{reason:?}");
    text
}

/// Fallback alternatives to unwrapping a fallible value, reporting the failure
/// reason in the warning line.
///
/// Each operation returns the success payload and no warning on success;
/// otherwise it returns a substitute and a warning line for `site` that holds
/// the rendering of the reason.
pub trait ResultExt: Sized {
    /// The success payload type, `T` for a `Result<T, E>`.
    type Output: Default;

    /// The success payload, when the value succeeded.
    spec fn success(&self) -> Option<Self::Output>;

    /// Returns the payload, or the payload type's default value and a warning.
    fn unwrap_or_default_log(self, site: &CallSite) -> (r: (Self::Output, Option<String>))
        ensures
            match self.success() {
                Some(v) => r.0 == v && r.1 is None,
                None => call_ensures(Self::Output::default, (), r.0) && r.1 is Some
                    && exists|d: Seq<char>| r.1->0@ == failure_message(site.text(), d),
            },
    ;

    /// Returns the payload, or what `f` produces and a warning. `f` is called
    /// only on failure.
    fn unwrap_or_else_log<F: FnOnce() -> Self::Output>(self, site: &CallSite, f: F) -> (r: (
        Self::Output,
        Option<String>,
    ))
        requires
            self.success() is None ==> f.requires(()),
        ensures
            match self.success() {
                Some(v) => r.0 == v && r.1 is None,
                None => f.ensures((), r.0) && r.1 is Some
                    && exists|d: Seq<char>| r.1->0@ == failure_message(site.text(), d),
            },
    ;

    /// Returns the payload, or `default` and a warning.
    fn unwrap_or_log(self, site: &CallSite, default: Self::Output) -> (r: (
        Self::Output,
        Option<String>,
    ))
        ensures
            match self.success() {
                Some(v) => r.0 == v && r.1 is None,
                None => r.0 == default && r.1 is Some
                    && exists|d: Seq<char>| r.1->0@ == failure_message(site.text(), d),
            },
    ;
}

impl<T: Default, E: core::fmt::Debug> ResultExt for Result<T, E> {
    type Output = T;

    open spec fn success(&self) -> Option<T> {
        match self {
            Ok(x) => Some(*x),
            Err(_) => None,
        }
    }

    fn unwrap_or_default_log(self, site: &CallSite) -> (r: (T, Option<String>)) {
        match self {
            Ok(x) => (x, None),
            Err(err) => {
                let detail = render_reason(&err);
                let line = result_error(site, detail.as_str());
                (T::default(), Some(line))
            },
        }
    }

    fn unwrap_or_else_log<F: FnOnce() -> T>(self, site: &CallSite, f: F) -> (r: (T, Option<String>)) {
        match self {
            Ok(x) => (x, None),
            Err(err) => {
                let detail = render_reason(&err);
                let line = result_error(site, detail.as_str());
                (f(), Some(line))
            },
        }
    }

    fn unwrap_or_log(self, site: &CallSite, default: T) -> (r: (T, Option<String>)) {
        match self {
            Ok(x) => (x, None),
            Err(err) => {
                let detail = render_reason(&err);
                let line = result_error(site, detail.as_str());
                (default, Some(line))
            },
        }
    }
}

/// Like `ResultExt`, but the failure reason needs no rendering and never
/// appears in the warning line: for reasons that must not be logged, or to keep
/// log lines short.
pub trait ResultExtNoDbg: Sized {
    /// The success payload type, `T` for a `Result<T, E>`.
    type Output: Default;

    /// The success payload, when the value succeeded.
    spec fn success(&self) -> Option<Self::Output>;

    /// Returns the payload, or the payload type's default value and a warning.
    fn unwrap_or_default_log(self, site: &CallSite) -> (r: (Self::Output, Option<String>))
        ensures
            match self.success() {
                Some(v) => r.0 == v && r.1 is None,
                None => call_ensures(Self::Output::default, (), r.0) && r.1 is Some
                    && r.1->0@ == undisclosed_failure_message(site.text()),
            },
    ;

    /// Returns the payload, or what `f` produces and a warning. `f` is called
    /// only on failure.
    fn unwrap_or_else_log<F: FnOnce() -> Self::Output>(self, site: &CallSite, f: F) -> (r: (
        Self::Output,
        Option<String>,
    ))
        requires
            self.success() is None ==> f.requires(()),
        ensures
            match self.success() {
                Some(v) => r.0 == v && r.1 is None,
                None => f.ensures((), r.0) && r.1 is Some && r.1->0@
                    == undisclosed_failure_message(site.text()),
            },
    ;

    /// Returns the payload, or `default` and a warning.
    fn unwrap_or_log(self, site: &CallSite, default: Self::Output) -> (r: (
        Self::Output,
        Option<String>,
    ))
        ensures
            fallback_outcome(self.success(), default, undisclosed_failure_message(site.text()), r),
    ;
}

impl<T: Default, E> ResultExtNoDbg for Result<T, E> {
    type Output = T;

    open spec fn success(&self) -> Option<T> {
        match self {
            Ok(x) => Some(*x),
            Err(_) => None,
        }
    }

    fn unwrap_or_default_log(self, site: &CallSite) -> (r: (T, Option<String>)) {
        match self {
            Ok(x) => (x, None),
            Err(_) => {
                let line = no_dbg_error(site);
                (T::default(), Some(line))
            },
        }
    }

    fn unwrap_or_else_log<F: FnOnce() -> T>(self, site: &CallSite, f: F) -> (r: (T, Option<String>)) {
        match self {
            Ok(x) => (x, None),
            Err(_) => {
                let line = no_dbg_error(site);
                (f(), Some(line))
            },
        }
    }

    fn unwrap_or_log(self, site: &CallSite, default: T) -> (r: (T, Option<String>)) {
        match self {
            Ok(x) => (x, None),
            Err(_) => {
                let line = no_dbg_error(site);
                (default, Some(line))
            },
        }
    }
}

} // verus!
