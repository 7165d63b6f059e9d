//! The report that ends a program.
//!
//! A program that ends on an error writes one line for each failure of the
//! error's cause chain, outermost first, and exits with status 1; one that
//! ends well writes nothing and exits with status 0. This module decides
//! what is written and which status is given. Writing the lines and leaving
//! the process are left to the caller.

use vstd::prelude::*;
use failure::Error;
use crate::trusted::{chain_messages, error_messages, paint_red, red_text};

verus! {

/// The way a program is to end: the lines to write to standard error, in
/// order, and the status to exit with.
#[derive(Debug)]
pub struct Exit {
    pub status: i32,
    pub lines: Vec<String>,
}

/// An [`Exit`] as plain values.
pub struct ExitView {
    pub status: int,
    pub lines: Seq<Seq<char>>,
}

impl View for Exit {
    type V = ExitView;

    open spec fn view(&self) -> ExitView {
        ExitView { status: self.status as int, lines: self.lines.deep_view() }
    }
}

/// The line for the outermost failure: the label, a space, the message.
pub open spec fn error_line(label: Seq<char>, message: Seq<char>) -> Seq<char> {
    label + " "@ + message
}

/// The line for a failure below the outermost one.
pub open spec fn cause_line(message: Seq<char>) -> Seq<char> {
    " caused by: "@ + message
}

/// One line for each message, in the order of the messages: an error line
/// for the first, a cause line for every other.
pub open spec fn report_lines(label: Seq<char>, messages: Seq<Seq<char>>) -> Seq<Seq<char>> {
    Seq::new(
        messages.len(),
        |i: int|
            if i == 0 {
                error_line(label, messages[i])
            } else {
                cause_line(messages[i])
            },
    )
}

/// Whether `label` can stand at the head of a report: it is `error:`, which
/// with `color` may be painted red.
pub open spec fn is_label(label: Seq<char>, color: bool) -> bool {
    label == "error:"@ || (color && label == red_text("error:"@))
}

/// Whether `lines` report the chain `messages` under a label that `color`
/// allows.
pub open spec fn is_report(lines: Seq<Seq<char>>, messages: Seq<Seq<char>>, color: bool) -> bool {
    ||| lines == report_lines("error:"@, messages)
    ||| color && lines == report_lines(red_text("error:"@), messages)
}

/// The label that a report starts with. Without `color` it is the plain
/// text `error:`. With `color` it is that text painted red, as long as
/// painting is enabled.
pub fn error_label(color: bool) -> (label: String)
    ensures
        is_label(label@, color),
{
    if color {
        paint_red("error:")
    } else {
        "error:".to_owned()
    }
}

/// The line that reports the outermost failure: `"{label} {message}"`.
pub fn fmt_error(label: &str, message: &str) -> (line: String)
    ensures
        line@ == error_line(label@, message@),
{
    let mut line = label.to_owned();
    line.append(" ");
    line.append(message);
    line
}

/// The lines that report a cause chain under the given label: the first
/// message behind the label, every other behind `" caused by: "`.
pub fn format_lines(label: &str, messages: &Vec<String>) -> (lines: Vec<String>)
    ensures
        lines.deep_view() == report_lines(label@, messages.deep_view()),
{
    let ghost expected = report_lines(label@, messages.deep_view());
    let mut lines: Vec<String> = Vec::new();
    let mut i: usize = 0;
    while i < messages.len()
        invariant
            i <= messages.len(),
            lines@.len() == i,
            expected == report_lines(label@, messages.deep_view()),
            forall|k: int| 0 <= k < i ==> (#[trigger] lines@[k])@ == expected[k],
        decreases messages.len() - i,
    {
        let line = if i == 0 {
            fmt_error(label, messages[i].as_str())
        } else {
            let mut line = " caused by: ".to_owned();
            line.append(messages[i].as_str());
            line
        };
        lines.push(line);
        i += 1;
    }
    assert(lines.deep_view() =~= expected);
    lines
}

/// The lines that report `err`: one for each failure of its cause chain,
/// outermost first. There is always a first line.
pub fn cause_lines(err: &Error, color: bool) -> (lines: Vec<String>)
    ensures
        is_report(lines.deep_view(), error_messages(*err), color),
        lines@.len() == error_messages(*err).len(),
        lines@.len() >= 1,
{
    let messages = chain_messages(err);
    let label = error_label(color);
    let lines = format_lines(label.as_str(), &messages);
    assert(lines.deep_view().len() == lines@.len());
    assert(messages.deep_view().len() == messages@.len());
    lines
}

/// How a program that has come to `r` is to end. After a success it writes
/// nothing and exits with status 0. After a failure it writes the report of
/// the error and exits with status 1.
pub fn log_errors(r: Result<(), Error>, color: bool) -> (exit: Exit)
    ensures
        r is Ok ==> exit@.status == 0 && exit@.lines.len() == 0,
        r matches Err(e) ==> ({
            &&& exit@.status == 1
            &&& is_report(exit@.lines, error_messages(e), color)
            &&& exit@.lines.len() >= 1
        }),
{
    match r {
        Ok(_) => Exit { status: 0, lines: Vec::new() },
        Err(e) => Exit { status: 1, lines: cause_lines(&e, color) },
    }
}

/// The value of a success, or the end of the program.
///
/// Deprecated since 0.5.0 in favour of [`log_errors`], to which it hands
/// every failure. It is kept for callers that have it.
pub trait UnwrapOrExit<T> {
    /// The value, or the exit that the caller is to carry out.
    fn unwrap_or_exit(self, color: bool) -> Result<T, Exit>;
}

impl<T> UnwrapOrExit<T> for Result<T, Error> {
    /// `Ok(v)` gives `Ok(v)`. `Err(e)` gives what [`log_errors`] gives for
    /// it: status 1 and the report of `e`.
    fn unwrap_or_exit(self, color: bool) -> (r: Result<T, Exit>)
        ensures
            self matches Ok(v) ==> r == Ok::<T, Exit>(v),
            self matches Err(e) ==> ({
                &&& r matches Err(exit)
                &&& exit@.status == 1
                &&& is_report(exit@.lines, error_messages(e), color)
                &&& exit@.lines.len() >= 1
            }),
    {
        match self {
            Ok(v) => Ok(v),
            Err(e) => Err(log_errors(Err(e), color)),
        }
    }
}

/// A report has one line for each failure and keeps their order: the
/// outermost failure is reported first, behind the label, and the failure at
/// each place below it is reported at the same place, as a cause.
pub proof fn lemma_report_follows_chain(label: Seq<char>, messages: Seq<Seq<char>>)
    ensures
        report_lines(label, messages).len() == messages.len(),
        messages.len() >= 1 ==> report_lines(label, messages)[0] == error_line(label, messages[0]),
        forall|i: int|
            1 <= i < messages.len() ==> #[trigger] report_lines(label, messages)[i]
                == cause_line(messages[i]),
{
}

} // verus!
