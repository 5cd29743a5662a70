//! The error surface: every fallible host call reports a single error kind
//! carrying the platform's last-error code.

use vstd::prelude::*;

verus! {

/// An operating-system error code, as reported by the host's per-thread
/// last-error cell at the point of failure.
#[derive(Clone, Copy, Debug, PartialEq, Eq, Structural)]
pub struct ErrorCode {
    pub code: u32,
}

impl ErrorCode {
    /// The raw code this error carries.
    pub open spec fn spec_code(self) -> u32 {
        self.code
    }

    /// The error that carries a given raw code, for contracts.
    pub open spec fn new_spec(code: u32) -> ErrorCode {
        ErrorCode { code }
    }

    /// Wraps a raw last-error code.
    pub fn new(code: u32) -> (r: Self)
        ensures
            r.spec_code() == code,
    {
        ErrorCode { code }
    }

    /// Returns the raw code this error carries.
    pub fn raw_code(&self) -> (r: u32)
        ensures
            r == self.spec_code(),
    {
        self.code
    }

    /// A human-readable rendering of the error: its category, its code and
    /// the platform's description of it. What the description says depends
    /// on the platform, so nothing is promised of the text.
    pub fn message(&self) -> String {
        system_message(self.code)
    }
}

/// Relies on `error_code::ErrorCode::new_system` and its `Display` impl: the
/// rendering is "<category>(<code>): <message>", with the message looked up
/// from the platform's error table for the given code.
#[verifier::external_body]
fn system_message(code: u32) -> String {
    format!("{}", error_code::ErrorCode::new_system(code as i32))
}

/// Outcome of an operation against the host: the requested value, or the
/// last-error code captured at the point of failure.
pub type Result<T> = core::result::Result<T, ErrorCode>;

/// Reads the host's last-error cell, as an error value.
pub fn get_last_error(host: &crate::host::Host) -> (r: ErrorCode)
    ensures
        r.spec_code() == host.last_error,
{
    ErrorCode::new(host.last_error)
}

} // verus!
