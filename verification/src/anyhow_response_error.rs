//! The error type that handlers return, and the reply that answers it.
//!
//! An error is held as the plain values that the handlers read from it:
//! the text that its `Display` shows, the text that its `Debug` report
//! shows, and the name of the database constraint that it violated when it
//! stems from a database error.
use vstd::prelude::*;
use crate::reply::{BodyModel, Reply, ReplyModel, opt_view, plain_reply};

verus! {

/// An error as the handlers see it.
#[derive(Debug)]
pub struct ErrorReport {
    /// What the error's `Display` shows.
    pub message: String,
    /// What the error's `Debug` report shows, with the stack backtrace that
    /// `anyhow` appends when it captured one.
    pub report: String,
    /// The constraint named by the database error behind it, if any.
    pub database_constraint: Option<String>,
}

/// The mathematical model of an [`ErrorReport`].
pub struct ErrorModel {
    pub message: Seq<char>,
    pub report: Seq<char>,
    pub database_constraint: Option<Seq<char>>,
}

impl View for ErrorReport {
    type V = ErrorModel;

    open spec fn view(&self) -> ErrorModel {
        ErrorModel {
            message: self.message@,
            report: self.report@,
            database_constraint: opt_view(self.database_constraint),
        }
    }
}

/// What `anyhow` appends to an error's `Debug` report, before the frames,
/// when a stack backtrace was captured.
pub open spec fn backtrace_heading() -> Seq<char> {
    "\n\nStack backtrace:"@
}

/// Whether a `Debug` report is the given text, or the given text followed
/// by the stack backtrace that `anyhow` appends when it captured one (it
/// captures one when `RUST_BACKTRACE` or `RUST_LIB_BACKTRACE` asks for it).
pub open spec fn reports_text(report: Seq<char>, text: Seq<char>) -> bool {
    report == text || exists|frames: Seq<char>| report == text + backtrace_heading() + frames
}

/// Whether an error is one made from a message alone: it shows the message
/// as its `Display`, its report is the message (with a backtrace when one
/// was captured), and it stems from no database error.
pub open spec fn is_message_error(e: ErrorModel, message: Seq<char>) -> bool {
    &&& e.message == message
    &&& reports_text(e.report, message)
    &&& e.database_constraint is None
}

/// What `sqlx::Error::Protocol(detail)` shows as its `Display`.
pub open spec fn protocol_error_text(detail: Seq<char>) -> Seq<char> {
    "encountered unexpected or invalid data: "@ + detail
}

/// A text with four spaces put before each of its lines, as `anyhow`
/// indents a cause below `Caused by:`.
pub open spec fn indented(s: Seq<char>) -> Seq<char>
    decreases s.len(),
{
    if s.len() == 0 {
        "    "@
    } else if s.last() == '\n' {
        indented(s.drop_last()) + "\n    "@
    } else {
        indented(s.drop_last()).push(s.last())
    }
}

/// What the `Debug` report of an error with a context shows before any
/// backtrace, when its one cause has no source of its own: the context,
/// `Caused by:`, and the cause indented below it.
pub open spec fn context_report(context: Seq<char>, cause: Seq<char>) -> Seq<char> {
    context + "\n\nCaused by:\n"@ + indented(cause)
}

/// Makes `anyhow::Error::msg(message)` and formats it with `Display` and
/// `Debug`. Its source shows the message as the `Display`; the `Debug`
/// report writes the `Display`, no causes (a message has no source), and
/// then, only when a backtrace was captured, a blank line and the
/// backtrace under the heading `Stack backtrace:`. Which frames, and
/// whether one is captured, depends on the environment and is left unsaid.
#[verifier::external_body]
fn anyhow_message_texts(message: String) -> (r: (String, String))
    ensures
        r.0@ == message@,
        reports_text(r.1@, message@),
{
    let e = anyhow::Error::msg(message);
    (e.to_string(), format!("{:?}", e))
}

/// Converts `sqlx::Error::Protocol(detail)` into an `anyhow::Error` with
/// `From` and formats it with `Display` and `Debug`. sqlx declares the
/// message `"encountered unexpected or invalid data: {0}"`, which `anyhow`
/// shows as the `Display`; the variant has no source, so the `Debug`
/// report is that message and, only when a backtrace was captured, the
/// backtrace under the heading `Stack backtrace:`.
#[verifier::external_body]
fn anyhow_protocol_texts(detail: String) -> (r: (String, String))
    ensures
        r.0@ == protocol_error_text(detail@),
        reports_text(r.1@, protocol_error_text(detail@)),
{
    let e = anyhow::Error::from(sqlx::Error::Protocol(detail));
    (e.to_string(), format!("{:?}", e))
}

/// Adds `context` with `anyhow::Error::context` to the error
/// `anyhow::Error::msg(cause)` and formats the result with `Display` and
/// `Debug`. Its source shows the context as the `Display`; the `Debug`
/// report writes the context, `Caused by:` and the one cause indented by
/// four spaces on each line (it is numbered only when there are several),
/// then, only when a backtrace was captured, the backtrace under the
/// heading `Stack backtrace:`.
#[verifier::external_body]
fn anyhow_context_texts(context: String, cause: String) -> (r: (String, String))
    ensures
        r.0@ == context@,
        reports_text(r.1@, context_report(context@, cause@)),
{
    let e = anyhow::Error::msg(cause).context(context);
    (e.to_string(), format!("{:?}", e))
}

impl ErrorReport {
    /// The error made from a message alone, as `anyhow::Error::msg` makes it.
    pub fn msg(message: String) -> (e: ErrorReport)
        ensures
            is_message_error(e@, message@),
    {
        let (message, report) = anyhow_message_texts(message);
        ErrorReport { message, report, database_constraint: None }
    }

    /// The error `sqlx::Error::Protocol(detail)` after conversion into an
    /// `anyhow::Error`.
    pub fn protocol(detail: String) -> (e: ErrorReport)
        ensures
            is_message_error(e@, protocol_error_text(detail@)),
    {
        let (message, report) = anyhow_protocol_texts(detail);
        ErrorReport { message, report, database_constraint: None }
    }

    /// The error with the given context whose one cause, with no source of
    /// its own, shows the given text.
    pub fn context(context: String, cause: String) -> (e: ErrorReport)
        ensures
            e@.message == context@,
            reports_text(e@.report, context_report(context@, cause@)),
            e@.database_constraint is None,
    {
        let (message, report) = anyhow_context_texts(context, cause);
        ErrorReport { message, report, database_constraint: None }
    }
}

/// The error that a handler returns; it is answered with
/// `500 Internal Server Error` and the error's message as the body.
#[derive(Debug)]
pub enum AnyhowError {
    Anyhow(ErrorReport),
}

impl View for AnyhowError {
    type V = ErrorModel;

    open spec fn view(&self) -> ErrorModel {
        match self {
            AnyhowError::Anyhow(e) => e@,
        }
    }
}

/// The reply that answers an error with the given model.
pub open spec fn error_reply(e: ErrorModel) -> ReplyModel {
    plain_reply(500, BodyModel::Text(e.message))
}

/// Wraps an error so that a handler can return it.
pub fn anyhow_error(error: ErrorReport) -> (r: AnyhowError)
    ensures
        r@ == error@,
{
    AnyhowError::Anyhow(error)
}

impl AnyhowError {
    /// The reply to this error: `500 Internal Server Error` with the
    /// error's message as the text body.
    pub fn error_response(&self) -> (r: Reply)
        ensures
            r@ == error_reply(self@),
    {
        match self {
            AnyhowError::Anyhow(e) => Reply::text(500, e.message.clone()),
        }
    }

    /// The error's message, as its `Display` shows it.
    pub fn message(&self) -> (m: String)
        ensures
            m@ == self@.message,
    {
        match self {
            AnyhowError::Anyhow(e) => e.message.clone(),
        }
    }
}

} // verus!
