use vstd::prelude::*;

verus! {

/// A failure reported by the transport collaborator: a network failure, an
/// API rejection, or a malformed response. The core never interprets the
/// message; it only wraps and forwards it.
#[derive(Debug)]
pub struct TransportError {
    pub message: String,
}

impl View for TransportError {
    type V = Seq<char>;

    open spec fn view(&self) -> Seq<char> {
        self.message@
    }
}

impl TransportError {
    /// Wraps a message describing the transport failure.
    pub fn new(message: String) -> (r: Self)
        ensures
            r@ == message@,
    {
        TransportError { message }
    }
}

/// An error surfaced to the caller of the scrobbling core, carrying a
/// human-readable message.
#[derive(Debug)]
pub struct Error {
    err_msg: String,
}

impl View for Error {
    type V = Seq<char>;

    closed spec fn view(&self) -> Seq<char> {
        self.err_msg@
    }
}

/// The message reported when a batch holds more than fifty records.
pub open spec fn batch_too_large_msg() -> Seq<char> {
    "Scrobble batch too large (must be 50 or fewer scrobbles)"@
}

/// The message reported when a batch holds no records.
pub open spec fn batch_empty_msg() -> Seq<char> {
    "Scrobble batch is empty"@
}

/// The message reported when the system clock could not supply a default
/// timestamp.
pub open spec fn clock_error_msg() -> Seq<char> {
    "System clock error: could not read the current time"@
}

/// The message reported when a record is built with an empty required field.
pub open spec fn invalid_scrobble_msg() -> Seq<char> {
    "Scrobble artist, track and album must be non-empty"@
}

impl Error {
    /// Wraps a message in a new error value.
    pub fn new(err_msg: String) -> (r: Self)
        ensures
            r@ == err_msg@,
    {
        Error { err_msg }
    }

    /// Wraps a failure of the transport collaborator, keeping its message.
    pub fn from_transport(error: TransportError) -> (r: Self)
        ensures
            r@ == error@,
    {
        Error { err_msg: error.message }
    }

    /// The error reported when the system clock could not be read.
    pub fn clock_error() -> (r: Self)
        ensures
            r@ == clock_error_msg(),
    {
        Error { err_msg: "System clock error: could not read the current time".to_owned() }
    }

    /// The error's message text.
    pub fn description(&self) -> (r: &str)
        ensures
            r@ == self@,
    {
        self.err_msg.as_str()
    }
}

} // verus!
