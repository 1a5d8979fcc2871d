//! The failures of a call, each tagged with the operation that failed.

use std::borrow::Cow;

use vstd::prelude::*;
use vstd::string::StringExecFns;
use vstd::utf8::{decode_utf8, valid_utf8};

use crate::encoding::{append_digits, digits, into_text};

verus! {

/// The operations of the control API.
#[derive(Clone, Copy, Debug, PartialEq, Eq, Structural)]
pub enum Operation {
    GetProxies,
    SelectProxy,
    GetProxyDelay,
    GetMemory,
    GetConnections,
    GetConfigs,
    UpdateConfig,
    SetMode,
}

impl Operation {
    /// The words that name the operation in a message.
    pub open spec fn spec_name(self) -> Seq<char> {
        match self {
            Operation::GetProxies => "get proxies"@,
            Operation::SelectProxy => "select proxy"@,
            Operation::GetProxyDelay => "get proxy delay"@,
            Operation::GetMemory => "get memory"@,
            Operation::GetConnections => "get connections"@,
            Operation::GetConfigs => "get config"@,
            Operation::UpdateConfig => "update config"@,
            Operation::SetMode => "set mode"@,
        }
    }

    /// The words that name the operation in a message.
    pub fn name(self) -> (r: &'static str)
        ensures
            r@ == self.spec_name(),
    {
        match self {
            Operation::GetProxies => "get proxies",
            Operation::SelectProxy => "select proxy",
            Operation::GetProxyDelay => "get proxy delay",
            Operation::GetMemory => "get memory",
            Operation::GetConnections => "get connections",
            Operation::GetConfigs => "get config",
            Operation::UpdateConfig => "update config",
            Operation::SetMode => "set mode",
        }
    }
}

/// The step of an exchange at which the transport failed.
#[derive(Clone, Copy, Debug, PartialEq, Eq, Structural)]
pub enum TransportError {
    Connect,
    Write,
    Read,
    Timeout,
}

impl TransportError {
    /// The failure in words.
    pub open spec fn spec_describe(self) -> Seq<char> {
        match self {
            TransportError::Connect => "could not connect to the daemon"@,
            TransportError::Write => "could not send the request"@,
            TransportError::Read => "could not read the response"@,
            TransportError::Timeout => "the exchange timed out"@,
        }
    }

    /// The same in words, for a message.
    pub fn describe(self) -> (r: &'static str)
        ensures
            r@ == self.spec_describe(),
    {
        match self {
            TransportError::Connect => "could not connect to the daemon",
            TransportError::Write => "could not send the request",
            TransportError::Read => "could not read the response",
            TransportError::Timeout => "the exchange timed out",
        }
    }
}

/// What is wrong with the choice of a control endpoint.
#[derive(Clone, Copy, Debug, PartialEq, Eq, Structural)]
pub enum ConfigurationFault {
    /// Neither a socket path nor a base URL was given.
    NoTransport,
    /// Both a socket path and a base URL were given.
    BothTransports,
    /// A socket path was given on a platform without Unix domain sockets.
    UnixSocketsUnsupported,
}

impl ConfigurationFault {
    /// The fault in words.
    pub open spec fn spec_describe(self) -> Seq<char> {
        match self {
            ConfigurationFault::NoTransport => "no connection method configured"@,
            ConfigurationFault::BothTransports => "more than one connection method configured"@,
            ConfigurationFault::UnixSocketsUnsupported =>
                "Unix domain sockets not supported on this platform"@,
        }
    }

    /// The same in words, for a message.
    pub fn describe(self) -> (r: &'static str)
        ensures
            r@ == self.spec_describe(),
    {
        match self {
            ConfigurationFault::NoTransport => "no connection method configured",
            ConfigurationFault::BothTransports => "more than one connection method configured",
            ConfigurationFault::UnixSocketsUnsupported =>
                "Unix domain sockets not supported on this platform",
        }
    }
}

/// A failed call.
#[derive(Clone, Debug, PartialEq, Eq)]
pub enum ClashError {
    /// The transport failed before a response was complete.
    TransportError(Operation, TransportError),
    /// The daemon answered with a status outside 200 to 299.
    HttpStatusError(Operation, u16),
    /// The body of a successful response could not be decoded. The bytes are
    /// the start of that body.
    DecodeError(Operation, Vec<u8>),
    /// The body of the request could not be encoded. The text is the
    /// encoder's.
    EncodeError(Operation, String),
    /// No usable control endpoint was chosen.
    ConfigurationError(ConfigurationFault),
}

/// A failed call as a mathematical value.
pub enum Failure {
    Transport(Operation, TransportError),
    HttpStatus(Operation, u16),
    Decode(Operation, Seq<u8>),
    Encode(Operation, Seq<char>),
    Configuration(ConfigurationFault),
}

impl View for ClashError {
    type V = Failure;

    open spec fn view(&self) -> Failure {
        match self {
            ClashError::TransportError(operation, cause) => Failure::Transport(*operation, *cause),
            ClashError::HttpStatusError(operation, code) => Failure::HttpStatus(*operation, *code),
            ClashError::DecodeError(operation, preview) => Failure::Decode(*operation, preview@),
            ClashError::EncodeError(operation, text) => Failure::Encode(*operation, text@),
            ClashError::ConfigurationError(fault) => Failure::Configuration(*fault),
        }
    }
}

/// The text that `String::from_utf8_lossy` gives for a sequence of bytes.
pub uninterp spec fn lossy_text(bytes: Seq<u8>) -> Seq<char>;

/// `String::from_utf8_lossy`: the text of the bytes, with each ill-formed
/// part replaced as that function replaces it. Bytes that are well-formed
/// UTF-8 give the text that they encode.
#[verifier::external_body]
fn text_of_bytes<'a>(bytes: &'a Vec<u8>) -> (r: Cow<'a, str>)
    ensures
        r@ == lossy_text(bytes@),
        valid_utf8(bytes@) ==> r@ == decode_utf8(bytes@),
{
    String::from_utf8_lossy(bytes)
}

impl ClashError {
    /// The operation that failed, where the failure belongs to one.
    pub open spec fn spec_operation(&self) -> Option<Operation> {
        match self {
            ClashError::TransportError(operation, _) => Some(*operation),
            ClashError::HttpStatusError(operation, _) => Some(*operation),
            ClashError::DecodeError(operation, _) => Some(*operation),
            ClashError::EncodeError(operation, _) => Some(*operation),
            ClashError::ConfigurationError(_) => None,
        }
    }

    /// The operation that failed, where the failure belongs to one.
    pub fn operation(&self) -> (r: Option<Operation>)
        ensures
            r == self.spec_operation(),
    {
        match self {
            ClashError::TransportError(operation, _) => Some(*operation),
            ClashError::HttpStatusError(operation, _) => Some(*operation),
            ClashError::DecodeError(operation, _) => Some(*operation),
            ClashError::EncodeError(operation, _) => Some(*operation),
            ClashError::ConfigurationError(_) => None,
        }
    }

    /// The cause, in words.
    pub open spec fn spec_cause(&self) -> Seq<char> {
        match self {
            ClashError::TransportError(_, cause) => cause.spec_describe(),
            ClashError::HttpStatusError(_, code) => "HTTP status error: "@ + digits(*code as nat),
            ClashError::DecodeError(_, preview) => "failed to parse JSON response: "@ + lossy_text(
                preview@,
            ),
            ClashError::EncodeError(_, text) => "failed to encode the request body: "@ + text@,
            ClashError::ConfigurationError(fault) => fault.spec_describe(),
        }
    }

    /// The message: the operation that failed, where there is one, and the
    /// cause.
    pub open spec fn spec_message(&self) -> Seq<char> {
        match self.spec_operation() {
            Some(operation) => "failed to "@ + operation.spec_name() + ": "@ + self.spec_cause(),
            None => "configuration error: "@ + self.spec_cause(),
        }
    }

    /// The cause, in words.
    fn cause(&self) -> (r: String)
        ensures
            r@ == self.spec_cause(),
            self.has_text_preview() ==> r@ == "failed to parse JSON response: "@ + decode_utf8(
                self->DecodeError_1@,
            ),
    {
        match self {
            ClashError::TransportError(_, cause) => String::from_str(cause.describe()),
            ClashError::HttpStatusError(_, code) => {
                let mut text = String::from_str("HTTP status error: ");
                append_digits(&mut text, *code as u64);
                text
            },
            ClashError::DecodeError(_, preview) => {
                let mut text = String::from_str("failed to parse JSON response: ");
                let shown = into_text(text_of_bytes(preview));
                text.append(shown.as_str());
                text
            },
            ClashError::EncodeError(_, detail) => {
                let mut text = String::from_str("failed to encode the request body: ");
                text.append(detail.as_str());
                text
            },
            ClashError::ConfigurationError(fault) => String::from_str(fault.describe()),
        }
    }

    /// Whether the failure is an undecodable body whose kept start is
    /// well-formed UTF-8.
    pub open spec fn has_text_preview(&self) -> bool {
        self is DecodeError && valid_utf8(self->DecodeError_1@)
    }

    /// The message of the failure. Where the kept start of an undecodable
    /// body is well-formed UTF-8, the message ends with the text that it
    /// encodes.
    pub fn message(&self) -> (r: String)
        ensures
            r@ == self.spec_message(),
            self.has_text_preview() ==> r@ == "failed to "@
                + self.spec_operation().unwrap().spec_name() + ": "@
                + "failed to parse JSON response: "@ + decode_utf8(self->DecodeError_1@),
    {
        let cause = self.cause();
        match self.operation() {
            Some(operation) => {
                let mut text = String::from_str("failed to ");
                text.append(operation.name());
                text.append(": ");
                text.append(cause.as_str());
                text
            },
            None => {
                let mut text = String::from_str("configuration error: ");
                text.append(cause.as_str());
                text
            },
        }
    }
}

} // verus!
