//! Non-panicking alternatives to unwrapping optional and fallible values.
//!
//! Each operation either hands back the present (or successful) payload, or
//! produces a substitute value together with the warning line that reports the
//! call site. Emitting that line through a logger is left to the caller.
mod fallback;
mod message;
mod site;

pub use fallback::{
    fallback_outcome, lemma_fallback_repeatable, lemma_undisclosed_line_ignores_reason, OptionExt,
    ResultExt, ResultExtNoDbg,
};
pub use message::{
    absent_message, contains, failure_message, lemma_absent_message_names_site,
    lemma_failure_message_holds_reason, no_dbg_error, option_error, result_error,
    undisclosed_failure_message,
};
pub use site::{decimal, digit_char, push_decimal, site_text, CallSite};
