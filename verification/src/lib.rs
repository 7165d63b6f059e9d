//! Context for errors, and the report that ends a program.
//!
//! The extension traits of [`context`] wrap the error of a `Result` in a new
//! [`failure::Error`] whose message names what was being done and whose cause
//! is the error that was there. [`report`] turns a final `Result` into the
//! lines and the exit status with which a program ends. [`option`] and
//! [`convert`] hold small additions to `Option` and to conversions.
//!
//! Contracts speak of an error through the messages of its cause chain,
//! outermost first: see [`trusted::error_messages`].

pub mod trusted;
pub mod context;
pub mod report;
pub mod option;
pub mod convert;

pub use failure::{Error, Fail, ResultExt};
pub use context::{ContextAsErrorExt, FmtResultExt, OptionFailExt, PathResultExt};
pub use report::{log_errors, Exit, UnwrapOrExit};
