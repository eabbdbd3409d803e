//! Error type shared by the protocol, the server and the client.

use vstd::prelude::*;

verus! {

/// Opaque error of `serde_json`.
#[verifier::external_type_specification]
#[verifier::external_body]
pub struct ExSerdeJsonError(serde_json::Error);

/// Opaque MessagePack encoding error of `rmp_serde`.
#[verifier::external_type_specification]
#[verifier::external_body]
pub struct ExMsgPackEncodeError(rmp_serde::encode::Error);

/// Opaque MessagePack decoding error of `rmp_serde`.
#[verifier::external_type_specification]
#[verifier::external_body]
pub struct ExMsgPackDecodeError(rmp_serde::decode::Error);

/// Opaque I/O error of std.
#[verifier::external_type_specification]
#[verifier::external_body]
pub struct ExIoError(std::io::Error);

/// Core error type used across the OutWikerNG crates.
#[derive(Debug)]
pub enum CoreError {
    Serde(serde_json::Error),
    MsgPack(rmp_serde::encode::Error),
    MsgPackDecode(rmp_serde::decode::Error),
    Transport(String),
    Rpc(String),
    Io(std::io::Error),
    Interprocess(String),
    UnknownMethod(String),
    InvalidRequest(String),
}

/// Convenient result alias for the core library.
pub type CoreResult<T> = Result<T, CoreError>;

impl CoreError {
    /// The fixed text that opens this error's message.
    pub open spec fn prefix(&self) -> Seq<char> {
        match self {
            CoreError::Serde(_) => "serialization error: "@,
            CoreError::MsgPack(_) => "MessagePack serialization error: "@,
            CoreError::MsgPackDecode(_) => "MessagePack deserialization error: "@,
            CoreError::Transport(_) => "transport error: "@,
            CoreError::Rpc(_) => "RPC error: "@,
            CoreError::Io(_) => "I/O error: "@,
            CoreError::Interprocess(_) => "interprocess error: "@,
            CoreError::UnknownMethod(_) => "unknown method: "@,
            CoreError::InvalidRequest(_) => "invalid request: "@,
        }
    }

    /// The text that follows the prefix, for the variants that carry it
    /// as a string of their own.
    pub open spec fn detail(&self) -> Option<Seq<char>> {
        match self {
            CoreError::Transport(s) => Some(s@),
            CoreError::Rpc(s) => Some(s@),
            CoreError::Interprocess(s) => Some(s@),
            CoreError::UnknownMethod(s) => Some(s@),
            CoreError::InvalidRequest(s) => Some(s@),
            _ => None,
        }
    }

    /// Whether `m` can be this error's message: it opens with the
    /// prefix, and it is the prefix followed by the carried text where
    /// the error carries text of its own.
    pub open spec fn is_message(&self, m: Seq<char>) -> bool {
        &&& self.prefix().len() <= m.len()
        &&& m.subrange(0, self.prefix().len() as int) =~= self.prefix()
        &&& self.detail() matches Some(d) ==> m == self.prefix() + d
    }

    /// The human-readable message of this error: the prefix, then the
    /// carried text, or the message of the wrapped outside error.
    pub fn message(&self) -> (m: String)
        ensures
            self.is_message(m@),
    {
        let m = match self {
            CoreError::Serde(e) => String::from_str("serialization error: ").concat(
                serde_json_error_text(e).as_str(),
            ),
            CoreError::MsgPack(e) => String::from_str("MessagePack serialization error: ").concat(
                msgpack_encode_error_text(e).as_str(),
            ),
            CoreError::MsgPackDecode(e) => String::from_str(
                "MessagePack deserialization error: ",
            ).concat(msgpack_decode_error_text(e).as_str()),
            CoreError::Transport(s) => String::from_str("transport error: ").concat(s.as_str()),
            CoreError::Rpc(s) => String::from_str("RPC error: ").concat(s.as_str()),
            CoreError::Io(e) => String::from_str("I/O error: ").concat(io_error_text(e).as_str()),
            CoreError::Interprocess(s) => String::from_str("interprocess error: ").concat(
                s.as_str(),
            ),
            CoreError::UnknownMethod(s) => String::from_str("unknown method: ").concat(s.as_str()),
            CoreError::InvalidRequest(s) => String::from_str("invalid request: ").concat(
                s.as_str(),
            ),
        };
        m
    }
}

impl From<serde_json::Error> for CoreError {
    fn from(e: serde_json::Error) -> (r: Self) {
        CoreError::Serde(e)
    }
}

impl vstd::std_specs::convert::FromSpecImpl<serde_json::Error> for CoreError {
    open spec fn obeys_from_spec() -> bool {
        true
    }

    open spec fn from_spec(e: serde_json::Error) -> Self {
        CoreError::Serde(e)
    }
}

impl From<rmp_serde::encode::Error> for CoreError {
    fn from(e: rmp_serde::encode::Error) -> (r: Self) {
        CoreError::MsgPack(e)
    }
}

impl vstd::std_specs::convert::FromSpecImpl<rmp_serde::encode::Error> for CoreError {
    open spec fn obeys_from_spec() -> bool {
        true
    }

    open spec fn from_spec(e: rmp_serde::encode::Error) -> Self {
        CoreError::MsgPack(e)
    }
}

impl From<rmp_serde::decode::Error> for CoreError {
    fn from(e: rmp_serde::decode::Error) -> (r: Self) {
        CoreError::MsgPackDecode(e)
    }
}

impl vstd::std_specs::convert::FromSpecImpl<rmp_serde::decode::Error> for CoreError {
    open spec fn obeys_from_spec() -> bool {
        true
    }

    open spec fn from_spec(e: rmp_serde::decode::Error) -> Self {
        CoreError::MsgPackDecode(e)
    }
}

impl From<std::io::Error> for CoreError {
    fn from(e: std::io::Error) -> (r: Self) {
        CoreError::Io(e)
    }
}

impl vstd::std_specs::convert::FromSpecImpl<std::io::Error> for CoreError {
    open spec fn obeys_from_spec() -> bool {
        true
    }

    open spec fn from_spec(e: std::io::Error) -> Self {
        CoreError::Io(e)
    }
}

/// Message of a `serde_json::Error`, as its `Display` impl writes it.
/// Nothing is stated of the text.
#[verifier::external_body]
fn serde_json_error_text(e: &serde_json::Error) -> String {
    format!("{}", e)
}

/// Message of an `rmp_serde::encode::Error`, as its `Display` impl
/// writes it. Nothing is stated of the text.
#[verifier::external_body]
fn msgpack_encode_error_text(e: &rmp_serde::encode::Error) -> String {
    format!("{}", e)
}

/// Message of an `rmp_serde::decode::Error`, as its `Display` impl
/// writes it. Nothing is stated of the text.
#[verifier::external_body]
fn msgpack_decode_error_text(e: &rmp_serde::decode::Error) -> String {
    format!("{}", e)
}

/// Message of a `std::io::Error`, as its `Display` impl writes it.
/// Nothing is stated of the text.
#[verifier::external_body]
fn io_error_text(e: &std::io::Error) -> String {
    format!("{}", e)
}

} // verus!
