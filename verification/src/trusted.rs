//! What this crate takes on trust from the crates it calls.
//!
//! Verus does not read the bodies below. Each item states, as its contract,
//! what the called function is documented to do; everything else in the crate
//! is proved from these statements.

use vstd::prelude::*;
use failure::Error;
use std::path::Path;

verus! {

/// `failure::Error`, carried through as an opaque value. All that the crate
/// says of one is said through [`error_messages`].
#[verifier::external_type_specification]
#[verifier::external_body]
pub struct ExError(failure::Error);

/// `std::path::Path`, carried through as an opaque value.
#[verifier::external_type_specification]
#[verifier::external_body]
pub struct ExPath(std::path::Path);

/// The messages that an error's cause chain holds: the display text of each
/// failure that `Error::iter_chain` yields, the error's own failure first and
/// the root cause last.
///
/// This takes each failure to display as the same text whenever it is asked,
/// and the chain to end. Both hold of what `failure` and this crate make; a
/// failure written elsewhere could break either.
pub uninterp spec fn error_messages(err: failure::Error) -> Seq<Seq<char>>;

/// The text that `Path::display` shows for a path.
pub uninterp spec fn path_text(path: &std::path::Path) -> Seq<char>;

/// `text` between the escape sequences that select a red foreground and
/// reset it.
pub open spec fn red_text(text: Seq<char>) -> Seq<char> {
    "\x1B[31m"@ + text + "\x1B[0m"@
}

/// Calls `failure::err_msg`. The error it makes displays as `msg` and has no
/// cause, so its chain holds that one message.
#[verifier::external_body]
pub(crate) fn message_error(msg: String) -> (err: Error)
    ensures
        error_messages(err) == seq![msg@],
{
    failure::err_msg(msg)
}

/// Calls `failure::Error::context` and turns the `Context` it returns into an
/// `Error`. The context displays as `context` and reports `err` as its cause,
/// so the new chain is `context` followed by the chain of `err`.
#[verifier::external_body]
pub(crate) fn context_error(err: Error, context: String) -> (wrapped: Error)
    ensures
        error_messages(wrapped) == seq![context@] + error_messages(err),
{
    Error::from(err.context(context))
}

/// Calls `failure::Error::iter_chain` and renders each failure it yields.
/// The iterator starts at the error's own failure, so there is always a first
/// message.
#[verifier::external_body]
pub(crate) fn chain_messages(err: &Error) -> (messages: Vec<String>)
    ensures
        messages.deep_view() == error_messages(*err),
        messages@.len() >= 1,
{
    err.iter_chain().map(|fail| fail.to_string()).collect()
}

/// Calls `Path::display` and renders what it returns.
#[verifier::external_body]
pub(crate) fn path_display(path: &Path) -> (text: String)
    ensures
        text@ == path_text(path),
{
    path.display().to_string()
}

/// Calls `yansi::Paint::red` and renders what it returns. While painting is
/// enabled, which it is unless `Paint::disable` was called, the item stands
/// between the red-foreground and reset sequences; while it is disabled the
/// item is rendered alone.
#[verifier::external_body]
pub(crate) fn paint_red(text: &str) -> (painted: String)
    ensures
        painted@ == red_text(text@) || painted@ == text@,
{
    yansi::Paint::red(text).to_string()
}

} // verus!
