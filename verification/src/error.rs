//! The errors of monitoring.

use vstd::prelude::*;
use vstd::string::*;

use crate::text::decimal;

verus! {

/// The standard library's I/O error, carried through as it is.
#[verifier::external_type_specification]
#[verifier::external_body]
pub struct ExIoError(std::io::Error);

/// Error types for JVM monitoring operations.
#[derive(Debug)]
pub enum JvmMonitorError {
    /// The specified JVM process ID was not found or access was denied.
    ProcessNotFound(u32),
    /// Standard I/O error occurred during file access or mapping.
    IoError(std::io::Error),
    /// The hsperfdata file format is invalid or corrupted.
    InvalidFormat(String),
}

/// What an error says, with its message as a sequence of characters.
pub enum Fault {
    ProcessNotFound(u32),
    IoError(std::io::Error),
    InvalidFormat(Seq<char>),
}

impl View for JvmMonitorError {
    type V = Fault;

    open spec fn view(&self) -> Fault {
        match *self {
            JvmMonitorError::ProcessNotFound(pid) => Fault::ProcessNotFound(pid),
            JvmMonitorError::IoError(error) => Fault::IoError(error),
            JvmMonitorError::InvalidFormat(message) => Fault::InvalidFormat(message@),
        }
    }
}

impl Fault {
    /// Whether a message puts this in words. That of an I/O error is the operating system's, behind
    /// the words of this library.
    pub open spec fn is_told_by(self, message: Seq<char>) -> bool {
        match self {
            Fault::ProcessNotFound(pid) => message == "JVM process "@ + crate::text::decimal_text(
                pid as nat,
            ) + " not found or access denied"@,
            Fault::IoError(_) => "IO Error: "@.is_prefix_of(message),
            Fault::InvalidFormat(reason) => message == "Invalid hsperfdata format: "@ + reason,
        }
    }
}

impl From<std::io::Error> for JvmMonitorError {
    fn from(error: std::io::Error) -> (converted: Self) {
        JvmMonitorError::IoError(error)
    }
}

impl vstd::std_specs::convert::FromSpecImpl<std::io::Error> for JvmMonitorError {
    open spec fn obeys_from_spec() -> bool {
        true
    }

    open spec fn from_spec(error: std::io::Error) -> Self {
        JvmMonitorError::IoError(error)
    }
}

/// Calls the `to_string` of `std::io::Error`. What the operating system says of an error depends
/// on the machine, so nothing is claimed of the text.
#[verifier::external_body]
fn io_error_text(error: &std::io::Error) -> (text: String) {
    error.to_string()
}

/// Says what the operating system says of an I/O error.
pub fn io_error_message(text: &str) -> (message: String)
    ensures
        message@ == "IO Error: "@ + text@,
{
    "IO Error: ".to_owned().concat(text)
}

impl JvmMonitorError {
    /// The error in words. What follows `IO Error: ` is the operating system's, as
    /// [`io_error_message`] puts it.
    pub fn message(&self) -> (message: String)
        ensures
            match self@ {
                Fault::ProcessNotFound(pid) => message@ == "JVM process "@
                    + crate::text::decimal_text(pid as nat) + " not found or access denied"@,
                Fault::IoError(_) => "IO Error: "@.is_prefix_of(message@),
                Fault::InvalidFormat(reason) => message@ == "Invalid hsperfdata format: "@ + reason,
            },
            self@.is_told_by(message@),
    {
        match self {
            JvmMonitorError::ProcessNotFound(pid) => {
                "JVM process ".to_owned().concat(&decimal(*pid as u64)).concat(
                    " not found or access denied",
                )
            },
            JvmMonitorError::IoError(error) => {
                let message = io_error_message(&io_error_text(error));
                assert("IO Error: "@ =~= message@.take("IO Error: "@.len() as int));
                message
            },
            JvmMonitorError::InvalidFormat(reason) => {
                "Invalid hsperfdata format: ".to_owned().concat(reason)
            },
        }
    }
}

/// Rejects perfdata for the given reason.
pub fn invalid(message: String) -> (error: JvmMonitorError)
    ensures
        error@ == Fault::InvalidFormat(message@),
{
    JvmMonitorError::InvalidFormat(message)
}

} // verus!
