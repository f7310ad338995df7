//! The decisions of the start-up wait: the shell polls the runtime until it
//! answers or a deadline passes, and shows its progress on the splash screen.
//! The requests, the sleeping and the clock are the caller's; what to do next
//! is decided here.

use vstd::prelude::*;
use vstd::string::StringExecFns;
use crate::encoding::{decimal_text, json_number, json_string, json_string_encoding};

verus! {

/// Milliseconds between two requests.
pub const RETRY_DELAY_MS: u64 = 250;

/// Milliseconds between two updates of the splash screen.
pub const SPLASH_TICK_MS: u64 = 1000;

/// What the shell does next.
#[derive(Clone, Copy, Debug, PartialEq, Eq, Structural)]
pub enum PollAction {
    /// Send the next request.
    Request,
    /// Sleep for the given milliseconds, then start over.
    Sleep(u64),
    /// Stop: the runtime answered.
    Ready,
    /// Stop: the deadline passed.
    TimedOut,
}

/// What to do at the start of a round, at time `now_ms` with the deadline at
/// `deadline_ms`: give up once the deadline has passed, or has been reached
/// where `at_deadline_too` is set; else send a request.
pub fn before_request(now_ms: u64, deadline_ms: u64, at_deadline_too: bool) -> (action: PollAction)
    ensures
        action == if now_ms > deadline_ms || (at_deadline_too && now_ms == deadline_ms) {
            PollAction::TimedOut
        } else {
            PollAction::Request
        },
{
    if now_ms > deadline_ms || (at_deadline_too && now_ms == deadline_ms) {
        PollAction::TimedOut
    } else {
        PollAction::Request
    }
}

/// What to do with the answer to a request: stop on success, else sleep for
/// `RETRY_DELAY_MS`.
pub fn after_response(success: bool) -> (action: PollAction)
    ensures
        action == if success {
            PollAction::Ready
        } else {
            PollAction::Sleep(RETRY_DELAY_MS)
        },
{
    if success {
        PollAction::Ready
    } else {
        PollAction::Sleep(RETRY_DELAY_MS)
    }
}

/// Whether the splash screen is due for an update at `now_ms`, when it was
/// last updated at `last_tick_ms`; `None` stands for never.
pub fn splash_update_due(now_ms: u64, last_tick_ms: Option<u64>) -> (due: bool)
    ensures
        due == match last_tick_ms {
            Some(last) => now_ms - last >= SPLASH_TICK_MS,
            None => true,
        },
{
    match last_tick_ms {
        Some(last) => now_ms >= last && now_ms - last >= SPLASH_TICK_MS,
        None => true,
    }
}

/// The script that sets the splash screen's progress.
pub open spec fn progress_script_text(pct: u8, status: Seq<char>, detail: Seq<char>) -> Seq<char> {
    "window.__SCINGR_SPLASH__?.setProgress("@ + decimal_text(pct as nat) + ", "@
        + json_string_encoding(status) + ", "@ + json_string_encoding(detail) + ");"@
}

/// The script that sets the splash screen's progress to `pct` percent, with a
/// status line and a line of detail, each written as a JSON string literal.
pub fn progress_script(pct: u8, status: &str, detail: &str) -> (script: String)
    ensures
        script@ == progress_script_text(pct, status@, detail@),
{
    let status_js = json_string(status);
    let detail_js = json_string(detail);
    let digits = json_number(pct as u64);
    String::from_str("window.__SCINGR_SPLASH__?.setProgress(").concat(digits.as_str()).concat(
        ", ",
    ).concat(status_js.as_str()).concat(", ").concat(detail_js.as_str()).concat(");")
}

} // verus!
