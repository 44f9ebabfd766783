//! Translation of native status codes into structured error values.
//!
//! Every fallible call into the native engine returns a signed status code.
//! The engine's convention is that any non-negative status is success (some
//! calls return meaningful positive values) and any negative status is a
//! failure, in which case the engine's last-error record carries a
//! human-readable message and an error class. The shell copies that record
//! out and hands it here as plain values; [`check`] makes the decision.

use vstd::prelude::*;

verus! {

/// A structured error from the native engine, or from this wrapper itself.
///
/// `code` is the status code that reported the failure, `message` a copied-out
/// human-readable description, and `class` the engine's error category.
/// Errors raised by the wrapper before any native call (such as an embedded
/// null byte in a string) carry `code` `WRAPPER_ERROR_CODE` and `class`
/// `WRAPPER_ERROR_CLASS`.
#[derive(Debug)]
pub struct Error {
    pub code: i32,
    pub message: String,
    pub class: i32,
}

/// Status code of errors raised by the wrapper itself, before any native call.
pub const WRAPPER_ERROR_CODE: i32 = -1;

/// Error class of errors raised by the wrapper itself.
pub const WRAPPER_ERROR_CLASS: i32 = 0;

impl Error {
    /// Builds an error from its three components.
    pub fn new(code: i32, message: String, class: i32) -> (e: Error)
        ensures
            e.code == code,
            e.message == message,
            e.class == class,
    {
        Error { code, message, class }
    }

    /// Builds a wrapper-level error carrying only a message.
    pub fn from_message(message: String) -> (e: Error)
        ensures
            e.code == WRAPPER_ERROR_CODE,
            e.message == message,
            e.class == WRAPPER_ERROR_CLASS,
    {
        Error { code: WRAPPER_ERROR_CODE, message, class: WRAPPER_ERROR_CLASS }
    }

    /// The error's human-readable message, for display by the shell.
    pub fn to_text(&self) -> (s: &str)
        ensures
            s@ == self.message@,
    {
        self.message.as_str()
    }
}

/// Whether a native status code reports success.
pub open spec fn is_success_spec(code: i32) -> bool {
    code >= 0
}

/// Whether a native status code reports success: any non-negative status.
pub fn is_success(code: i32) -> (r: bool)
    ensures
        r == is_success_spec(code),
{
    code >= 0
}

/// Translates a native status code into a result.
///
/// A non-negative `code` is success and is returned unchanged. A negative
/// `code` is a failure: the caller passes in the message and class it copied
/// from the engine's last-error record, and they come back inside an
/// [`Error`] together with the failing status code. The copy must be taken
/// before any further native call, since the engine keeps a single mutable
/// last-error record.
pub fn check(code: i32, last_message: String, last_class: i32) -> (r: Result<i32, Error>)
    ensures
        is_success_spec(code) ==> r == Ok::<i32, Error>(code),
        !is_success_spec(code) ==> (r matches Err(e)
            && e.code == code
            && e.message == last_message
            && e.class == last_class),
{
    if code >= 0 {
        Ok(code)
    } else {
        Err(Error { code, message: last_message, class: last_class })
    }
}

} // verus!
