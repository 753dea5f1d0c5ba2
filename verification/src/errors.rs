//! The error taxonomy of the client core.

use vstd::prelude::*;
use vstd::string::*;

verus! {

/// Everything that can go wrong between the socket and a caller.
#[derive(Clone, Debug, PartialEq)]
pub enum Error {
    /// The transport failed while reading or writing.
    Io(String),
    /// The stream ended in the middle of a frame.
    ConnectionClosed,
    /// A send after the router shut down.
    NotConnected,
    /// The start-up exchange did not finish in time.
    HandshakeTimeout,
    /// The negotiated version is below the supported floor: required, actual.
    ServerVersionUnsupported(i32, i32),
    /// A malformed field: its position, its text, the reason.
    Parse(usize, String, String),
    /// An error message of the server: code, text.
    Protocol(i32, String),
    /// A subscription is already registered for the routing key.
    DuplicateId,
    /// The subscription was cancelled before.
    AlreadyCancelled,
    /// A consumer did not drain its channel in time.
    Overrun,
    /// A bounded wait passed without an item.
    Timeout,
    /// A frame announced more bytes than the configured maximum: announced, maximum.
    FrameTooLarge(usize, usize),
}

/// The mathematical content of an [`Error`].
pub enum ErrorView {
    Io(Seq<char>),
    ConnectionClosed,
    NotConnected,
    HandshakeTimeout,
    ServerVersionUnsupported(int, int),
    Parse(nat, Seq<char>, Seq<char>),
    Protocol(int, Seq<char>),
    DuplicateId,
    AlreadyCancelled,
    Overrun,
    Timeout,
    FrameTooLarge(nat, nat),
}

impl View for Error {
    type V = ErrorView;

    open spec fn view(&self) -> ErrorView {
        match *self {
            Error::Io(text) => ErrorView::Io(text@),
            Error::ConnectionClosed => ErrorView::ConnectionClosed,
            Error::NotConnected => ErrorView::NotConnected,
            Error::HandshakeTimeout => ErrorView::HandshakeTimeout,
            Error::ServerVersionUnsupported(required, actual) => ErrorView::ServerVersionUnsupported(
                required as int,
                actual as int,
            ),
            Error::Parse(position, field, reason) => ErrorView::Parse(
                position as nat,
                field@,
                reason@,
            ),
            Error::Protocol(code, text) => ErrorView::Protocol(code as int, text@),
            Error::DuplicateId => ErrorView::DuplicateId,
            Error::AlreadyCancelled => ErrorView::AlreadyCancelled,
            Error::Overrun => ErrorView::Overrun,
            Error::Timeout => ErrorView::Timeout,
            Error::FrameTooLarge(announced, maximum) => ErrorView::FrameTooLarge(
                announced as nat,
                maximum as nat,
            ),
        }
    }
}

impl Error {
    /// Only a transport failure or the end of the stream ends the whole client.
    pub open spec fn fatal(self) -> bool {
        self is Io || self is ConnectionClosed
    }

    /// Whether this error ends the whole client, not only one subscription.
    pub fn is_fatal(&self) -> (r: bool)
        ensures
            r == self.fatal(),
    {
        match self {
            Error::Io(_) => true,
            Error::ConnectionClosed => true,
            _ => false,
        }
    }
}

} // verus!
