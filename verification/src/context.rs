//! Context for the error of a `Result`, and an error for an absent value.
//!
//! Every operation here leaves a success as it is. A failure is kept as the
//! cause of a new error whose message tells what was being done.

use vstd::prelude::*;
use vstd::string::to_string_from_display_ensures;
use failure::Error;
use std::fmt::Display;
use std::path::Path;
use crate::trusted::{context_error, error_messages, message_error, path_display, path_text};

verus! {

/// The message of a context made of a text and the data it is about:
/// `msg`, a space, and `data` in round brackets.
pub open spec fn context_text(msg: Seq<char>, data: Seq<char>) -> Seq<char> {
    msg + " ("@ + data + ")"@
}

/// The cause chain of an error with the chain `chain` once it is wrapped
/// under the message `top`.
pub open spec fn with_context(chain: Seq<Seq<char>>, top: Seq<char>) -> Seq<Seq<char>> {
    seq![top] + chain
}

/// How many causes lie below the outermost failure of a chain.
pub open spec fn chain_depth(chain: Seq<Seq<char>>) -> int {
    chain.len() - 1
}

/// Whether `after` is an error whose outermost message is `top` and whose
/// cause is `before`, with all that `before` was caused by.
pub open spec fn wraps<T>(after: Result<T, Error>, top: Seq<char>, before: Error) -> bool {
    after matches Err(wrapped) && error_messages(wrapped) == with_context(
        error_messages(before),
        top,
    )
}

/// Builds the message `"{msg} ({data})"`.
pub fn context_message(msg: &str, data: &str) -> (text: String)
    ensures
        text@ == context_text(msg@, data@),
{
    let mut text = msg.to_owned();
    text.append(" (");
    text.append(data);
    text.append(")");
    text
}

/// Wraps `err` under the message `"{msg} ({data})"`: the result has that
/// message, and `err` as its cause.
pub fn wrap_error(err: Error, msg: &str, data: &str) -> (wrapped: Error)
    ensures
        error_messages(wrapped) == with_context(error_messages(err), context_text(msg@, data@)),
{
    context_error(err, context_message(msg, data))
}

/// Context made of a message and a piece of data.
pub trait FmtResultExt<T, D: ?Sized> {
    /// On failure, wraps the error under the message `"{msg} ({data})"`.
    fn context_fmt(self, msg: &str, data: &D) -> Result<T, Error>;
}

impl<T, D: Display + ?Sized> FmtResultExt<T, D> for Result<T, Error> {
    /// A success comes back as it is, and `data` is not rendered. A failure
    /// comes back wrapped under `"{msg} ({text})"`, where `text` is what
    /// `data` displays as.
    fn context_fmt(self, msg: &str, data: &D) -> (r: Result<T, Error>)
        ensures
            self matches Ok(v) ==> r == Ok::<T, Error>(v),
            self matches Err(e) ==> (exists|text: String|
                {
                    &&& #[trigger] to_string_from_display_ensures::<D>(data, text)
                    &&& wraps(r, context_text(msg@, text@), e)
                }),
    {
        match self {
            Ok(v) => Ok(v),
            Err(e) => {
                let text = data.to_string();
                Err(wrap_error(e, msg, text.as_str()))
            },
        }
    }
}

/// Context made of a message and the path it is about.
pub trait PathResultExt<T> {
    /// On failure, wraps the error under the message `"{msg} ({path})"`.
    fn context_path(self, msg: &str, path: &Path) -> Result<T, Error>;
}

impl<T> PathResultExt<T> for Result<T, Error> {
    /// A success comes back as it is. A failure comes back wrapped under
    /// `"{msg} ({text})"`, where `text` is the display form of `path`.
    fn context_path(self, msg: &str, path: &Path) -> (r: Result<T, Error>)
        ensures
            self matches Ok(v) ==> r == Ok::<T, Error>(v),
            self matches Err(e) ==> wraps(r, context_text(msg@, path_text(path)), e),
    {
        match self {
            Ok(v) => Ok(v),
            Err(e) => {
                let text = path_display(path);
                Err(wrap_error(e, msg, text.as_str()))
            },
        }
    }
}

/// An error for a value that is not there.
pub trait OptionFailExt<T> {
    /// The value, or a new error with the message `msg`.
    fn or_fail(self, msg: &str) -> Result<T, Error>;
}

impl<T> OptionFailExt<T> for Option<T> {
    /// `Some(v)` gives `Ok(v)`. `None` gives an error that has `msg` as its
    /// message and no cause.
    fn or_fail(self, msg: &str) -> (r: Result<T, Error>)
        ensures
            self matches Some(v) ==> r == Ok::<T, Error>(v),
            self is None ==> ({
                &&& r matches Err(e)
                &&& error_messages(e) == seq![msg@]
                &&& chain_depth(error_messages(e)) == 0
            }),
    {
        match self {
            Some(v) => Ok(v),
            None => Err(message_error(msg.to_owned())),
        }
    }
}

/// Context that is its own message.
pub trait ContextAsErrorExt<T> {
    /// On failure, wraps the error under what `context` displays as.
    fn context_err<D: ?Sized>(self, context: &D) -> Result<T, Error> where D: Display;
}

impl<T> ContextAsErrorExt<T> for Result<T, Error> {
    /// A success comes back as it is, and `context` is not rendered. A
    /// failure comes back wrapped under the text that `context` displays as,
    /// with nothing added to it.
    fn context_err<D: ?Sized>(self, context: &D) -> (r: Result<T, Error>) where D: Display
        ensures
            self matches Ok(v) ==> r == Ok::<T, Error>(v),
            self matches Err(e) ==> (exists|text: String|
                {
                    &&& #[trigger] to_string_from_display_ensures::<D>(context, text)
                    &&& wraps(r, text@, e)
                }),
    {
        match self {
            Ok(v) => Ok(v),
            Err(e) => Err(context_error(e, context.to_string())),
        }
    }
}

/// Wrapping adds one failure on top and changes nothing below it: the new
/// message is outermost, the chain is one deeper, and the message that was
/// outermost is now that of the first cause.
pub proof fn lemma_context_adds_one(chain: Seq<Seq<char>>, top: Seq<char>)
    requires
        chain.len() >= 1,
    ensures
        with_context(chain, top)[0] == top,
        with_context(chain, top)[1] == chain[0],
        with_context(chain, top).skip(1) == chain,
        chain_depth(with_context(chain, top)) == chain_depth(chain) + 1,
{
    assert(with_context(chain, top).skip(1) =~= chain);
}

/// Two contexts, one after the other, give a chain that is two deeper: the
/// second context is outermost, the first is its cause, and the chain that
/// was there before follows unchanged.
pub proof fn lemma_context_twice(
    chain: Seq<Seq<char>>,
    msg1: Seq<char>,
    data1: Seq<char>,
    msg2: Seq<char>,
    data2: Seq<char>,
)
    requires
        chain.len() >= 1,
    ensures
        ({
            let once = with_context(chain, context_text(msg1, data1));
            let twice = with_context(once, context_text(msg2, data2));
            &&& twice[0] == context_text(msg2, data2)
            &&& twice[1] == context_text(msg1, data1)
            &&& twice[2] == chain[0]
            &&& twice.skip(2) == chain
            &&& chain_depth(twice) == chain_depth(chain) + 2
        }),
{
    let once = with_context(chain, context_text(msg1, data1));
    let twice = with_context(once, context_text(msg2, data2));
    assert(twice.skip(2) =~= chain);
}

} // verus!
