//! The error type of the library.

use bebop::DeserializeError;
use tokio::sync::mpsc::error::SendError;
use tokio_tungstenite::tungstenite;
use vstd::prelude::*;
use vstd::string::StringExecFns;

verus! {

#[verifier::external_type_specification]
#[verifier::external_body]
pub struct ExDeserializeError(DeserializeError);

#[verifier::external_type_specification]
#[verifier::external_body]
pub struct ExTungsteniteError(tungstenite::Error);

#[verifier::external_type_specification]
#[verifier::external_body]
pub struct ExIoError(std::io::Error);

#[verifier::external_type_specification]
#[verifier::external_body]
#[verifier::reject_recursive_types(T)]
pub struct ExSendError<T>(SendError<T>);

/// What can go wrong in a WebSocket operation.
#[derive(Debug)]
pub enum AtomicWebsocketError {
    /// Database operation failed
    Database(String),
    /// Serialization/deserialization failed
    Serialization(String),
    /// WebSocket connection error
    Connection(String),
    /// WebSocket protocol error
    WebSocket(tungstenite::Error),
    /// Channel send error
    ChannelSend(String),
    /// Channel closed
    ChannelClosed,
    /// Configuration error
    Config(String),
    /// Timeout error
    Timeout(String),
    /// IO error
    Io(std::io::Error),
}

/// What an operation of the library comes to.
pub type Result<T> = std::result::Result<T, AtomicWebsocketError>;

/// The words of a `bebop::DeserializeError`.
pub uninterp spec fn deserialize_error_words(err: DeserializeError) -> Seq<char>;

/// `to_string` of a `bebop::DeserializeError`: the words are the outside
/// crate's own, the same for the same error.
#[verifier::external_body]
fn deserialize_error_text(err: &DeserializeError) -> (text: String)
    ensures
        text@ == deserialize_error_words(*err),
{
    err.to_string()
}

/// The text of a `tungstenite::Error`, by its `to_string`. The words are the
/// outside crate's own and are left unsaid here.
#[verifier::external_body]
fn websocket_error_text(err: &tungstenite::Error) -> (text: String)
{
    err.to_string()
}

/// The text of a `std::io::Error`, by its `to_string`. The words depend on the
/// operating system and are left unsaid here.
#[verifier::external_body]
fn io_error_text(err: &std::io::Error) -> (text: String)
{
    err.to_string()
}

/// `to_string` of `tokio`'s `SendError`: always the same two words.
#[verifier::external_body]
fn send_error_text<T>(err: &SendError<T>) -> (text: String)
    ensures
        text@ == "channel closed"@,
{
    err.to_string()
}

impl AtomicWebsocketError {
    /// What stands in front of the details in the message of this error.
    pub open spec fn headline(&self) -> Seq<char> {
        match self {
            AtomicWebsocketError::Database(_) => "Database error: "@,
            AtomicWebsocketError::Serialization(_) => "Serialization error: "@,
            AtomicWebsocketError::Connection(_) => "Connection error: "@,
            AtomicWebsocketError::WebSocket(_) => "WebSocket error: "@,
            AtomicWebsocketError::ChannelSend(_) => "Channel send error: "@,
            AtomicWebsocketError::ChannelClosed => "Channel closed"@,
            AtomicWebsocketError::Config(_) => "Configuration error: "@,
            AtomicWebsocketError::Timeout(_) => "Operation timed out: "@,
            AtomicWebsocketError::Io(_) => "IO error: "@,
        }
    }

    /// The details, where this error carries its own text.
    pub open spec fn details(&self) -> Option<Seq<char>> {
        match self {
            AtomicWebsocketError::Database(text) => Some(text@),
            AtomicWebsocketError::Serialization(text) => Some(text@),
            AtomicWebsocketError::Connection(text) => Some(text@),
            AtomicWebsocketError::WebSocket(_) => None,
            AtomicWebsocketError::ChannelSend(text) => Some(text@),
            AtomicWebsocketError::ChannelClosed => Some(Seq::empty()),
            AtomicWebsocketError::Config(text) => Some(text@),
            AtomicWebsocketError::Timeout(text) => Some(text@),
            AtomicWebsocketError::Io(_) => None,
        }
    }

    /// The message shown to people: the headline, then the details. For the
    /// two errors that wrap an outside one the details are its own text.
    pub open spec fn worded(&self, outside: Seq<char>) -> Seq<char> {
        self.headline() + match self.details() {
            Some(details) => details,
            None => outside,
        }
    }

    /// The message shown to people, where this is the text of the outside error
    /// that is wrapped, if one is.
    pub fn message_with(&self, outside: &str) -> (text: String)
        ensures
            text@ == self.worded(outside@),
    {
        match self {
            AtomicWebsocketError::Database(text) => "Database error: ".to_owned().concat(text),
            AtomicWebsocketError::Serialization(text) => "Serialization error: ".to_owned().concat(text),
            AtomicWebsocketError::Connection(text) => "Connection error: ".to_owned().concat(text),
            AtomicWebsocketError::WebSocket(_) => "WebSocket error: ".to_owned().concat(outside),
            AtomicWebsocketError::ChannelSend(text) => "Channel send error: ".to_owned().concat(text),
            AtomicWebsocketError::ChannelClosed => {
                assert(self.worded(outside@) =~= "Channel closed"@);
                "Channel closed".to_owned()
            },
            AtomicWebsocketError::Config(text) => "Configuration error: ".to_owned().concat(text),
            AtomicWebsocketError::Timeout(text) => "Operation timed out: ".to_owned().concat(text),
            AtomicWebsocketError::Io(_) => "IO error: ".to_owned().concat(outside),
        }
    }

    /// The message shown to people. The text of an outside error that is
    /// wrapped is that error's own, and is left unsaid here: see
    /// `message_with` for what is made of it.
    pub fn message(&self) -> (text: String)
        ensures
            exists|outside: Seq<char>| text@ == #[trigger] self.worded(outside),
            self.headline().is_prefix_of(text@),
            self.details() matches Some(details) ==> text@ == self.headline() + details,
    {
        let outside: String = match self {
            AtomicWebsocketError::WebSocket(err) => websocket_error_text(err),
            AtomicWebsocketError::Io(err) => io_error_text(err),
            _ => String::new(),
        };
        self.message_with(outside.as_str())
    }
}

impl From<tungstenite::Error> for AtomicWebsocketError {
    fn from(err: tungstenite::Error) -> (r: Self) {
        AtomicWebsocketError::WebSocket(err)
    }
}

impl vstd::std_specs::convert::FromSpecImpl<tungstenite::Error> for AtomicWebsocketError {
    open spec fn obeys_from_spec() -> bool {
        true
    }

    open spec fn from_spec(err: tungstenite::Error) -> Self {
        AtomicWebsocketError::WebSocket(err)
    }
}

impl From<std::io::Error> for AtomicWebsocketError {
    fn from(err: std::io::Error) -> (r: Self) {
        AtomicWebsocketError::Io(err)
    }
}

impl vstd::std_specs::convert::FromSpecImpl<std::io::Error> for AtomicWebsocketError {
    open spec fn obeys_from_spec() -> bool {
        true
    }

    open spec fn from_spec(err: std::io::Error) -> Self {
        AtomicWebsocketError::Io(err)
    }
}

impl From<DeserializeError> for AtomicWebsocketError {
    fn from(err: DeserializeError) -> (r: Self)
        ensures
            r matches AtomicWebsocketError::Serialization(text) && text@
                == deserialize_error_words(err),
    {
        AtomicWebsocketError::Serialization(deserialize_error_text(&err))
    }
}

impl vstd::std_specs::convert::FromSpecImpl<DeserializeError> for AtomicWebsocketError {
    open spec fn obeys_from_spec() -> bool {
        false
    }

    open spec fn from_spec(err: DeserializeError) -> Self {
        arbitrary()
    }
}

impl<T> From<SendError<T>> for AtomicWebsocketError {
    fn from(err: SendError<T>) -> (r: Self)
        ensures
            r matches AtomicWebsocketError::ChannelSend(text) && text@ == "channel closed"@,
    {
        AtomicWebsocketError::ChannelSend(send_error_text(&err))
    }
}

impl<T> vstd::std_specs::convert::FromSpecImpl<SendError<T>> for AtomicWebsocketError {
    open spec fn obeys_from_spec() -> bool {
        false
    }

    open spec fn from_spec(err: SendError<T>) -> Self {
        arbitrary()
    }
}

} // verus!
