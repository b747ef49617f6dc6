//! What can go wrong between the terminal and a device.

use vstd::prelude::*;
use vstd::string::StringExecFns;

verus! {

/// A failure of the serial subsystem. Each carries the reason as text.
#[derive(Debug, PartialEq, Eq)]
pub enum RSComError {
    /// The host could not be asked for its serial ports.
    ListPortsError(String),
    /// A device could not be opened.
    ConnectionOpenError(String),
    /// A read or a write failed on an open link.
    IoFault(String),
}

/// An [`RSComError`] as a mathematical value.
pub enum ErrorView {
    ListPortsError(Seq<char>),
    ConnectionOpenError(Seq<char>),
    IoFault(Seq<char>),
}

impl ErrorView {
    /// The reason that the error carries.
    pub open spec fn reason(self) -> Seq<char> {
        match self {
            ErrorView::ListPortsError(reason) => reason,
            ErrorView::ConnectionOpenError(reason) => reason,
            ErrorView::IoFault(reason) => reason,
        }
    }

    /// The sentence that names the kind of failure.
    pub open spec fn headline(self) -> Seq<char> {
        match self {
            ErrorView::ListPortsError(_) => "Failed to list available serial ports"@,
            ErrorView::ConnectionOpenError(_) => "Failed to open the serial port"@,
            ErrorView::IoFault(_) => "Serial port I/O fault"@,
        }
    }
}

impl View for RSComError {
    type V = ErrorView;

    open spec fn view(&self) -> ErrorView {
        match self {
            RSComError::ListPortsError(reason) => ErrorView::ListPortsError(reason@),
            RSComError::ConnectionOpenError(reason) => ErrorView::ConnectionOpenError(reason@),
            RSComError::IoFault(reason) => ErrorView::IoFault(reason@),
        }
    }
}

impl Clone for RSComError {
    fn clone(&self) -> (copy: RSComError)
        ensures
            copy@ == self@,
    {
        match self {
            RSComError::ListPortsError(reason) => RSComError::ListPortsError(reason.clone()),
            RSComError::ConnectionOpenError(reason) => RSComError::ConnectionOpenError(
                reason.clone(),
            ),
            RSComError::IoFault(reason) => RSComError::IoFault(reason.clone()),
        }
    }
}

impl RSComError {
    /// The reason that the error carries, as the host or the device gave it.
    pub fn reason(&self) -> (reason: &str)
        ensures
            reason@ == self@.reason(),
    {
        match self {
            RSComError::ListPortsError(reason) => reason.as_str(),
            RSComError::ConnectionOpenError(reason) => reason.as_str(),
            RSComError::IoFault(reason) => reason.as_str(),
        }
    }

    /// The error as text for display: the sentence that names its kind.
    pub fn to_string(&self) -> (text: String)
        ensures
            text@ == self@.headline(),
    {
        match self {
            RSComError::ListPortsError(_) => String::from_str(
                "Failed to list available serial ports",
            ),
            RSComError::ConnectionOpenError(_) => String::from_str("Failed to open the serial port"),
            RSComError::IoFault(_) => String::from_str("Serial port I/O fault"),
        }
    }
}

} // verus!
