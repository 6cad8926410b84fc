//! The errors of sessions and streams.

use crate::text::append_decimal;
use tokio::sync::{broadcast, mpsc, oneshot};
use vstd::prelude::*;
use vstd::std_specs::convert::FromSpecImpl;
use vstd::string::StringExecFns;

verus! {

/// What can go wrong in a session or a stream.
#[derive(Debug)]
pub enum TokioSmuxError {
    /// A frame header holds an unknown command byte.
    FrameParseCmdError { cmd: u8 },
    /// A frame could not be made from the data.
    FrameCreateError,
    /// The configuration is not acceptable.
    InvalidConfig { msg: String },
    /// The session is closed.
    SessionClosed,
    /// The stream ids of this session are used up.
    SessionGoAway,
    /// The stream is closed.
    StreamClosed,
    /// A message is larger than a frame can carry.
    StreamWriteTooLargeData,
    /// A stream received a frame that is neither data nor the end of the stream.
    StreamReceiveUnexpectedCmd { cmd_value: u8 },
    /// Waiting on a channel failed.
    TokioRecvError { inner: String },
    /// Sending on a channel failed.
    TokioSendError { inner: String },
    /// The underlying connection failed.
    InnerStreamError { msg: String },
    /// Any other error.
    Default { msg: String },
}

impl TokioSmuxError {
    /// The text of the error, as shown to users.
    pub open spec fn text(self) -> Seq<char> {
        match self {
            TokioSmuxError::FrameParseCmdError { cmd } => "receive invalid cmd: "@
                + crate::text::decimal(cmd as nat),
            TokioSmuxError::FrameCreateError => "failed to create frame from data"@,
            TokioSmuxError::InvalidConfig { msg } => "receive invalid config: "@ + msg@,
            TokioSmuxError::SessionClosed => "session closed"@,
            TokioSmuxError::SessionGoAway => "stream id overflows, should start a new connection"@,
            TokioSmuxError::StreamClosed => "stream closed"@,
            TokioSmuxError::StreamWriteTooLargeData => "stream write too large data"@,
            TokioSmuxError::StreamReceiveUnexpectedCmd { cmd_value } =>
                "stream receives unexpected cmd: "@ + crate::text::decimal(cmd_value as nat),
            TokioSmuxError::TokioRecvError { inner } => "tokio recv error: "@ + inner@,
            TokioSmuxError::TokioSendError { inner } => "tokio send error: "@ + inner@,
            TokioSmuxError::InnerStreamError { msg } => "receive inner stream err: "@ + msg@,
            TokioSmuxError::Default { msg } => msg@,
        }
    }

    /// The text of the error.
    pub fn to_text(&self) -> (res: String)
        ensures
            res@ == self.text(),
    {
        match self {
            TokioSmuxError::FrameParseCmdError { cmd } => {
                let mut res = "receive invalid cmd: ".to_string();
                append_decimal(&mut res, *cmd as u64);
                res
            },
            TokioSmuxError::FrameCreateError => "failed to create frame from data".to_string(),
            TokioSmuxError::InvalidConfig { msg } => "receive invalid config: ".to_string().concat(
                msg.as_str(),
            ),
            TokioSmuxError::SessionClosed => "session closed".to_string(),
            TokioSmuxError::SessionGoAway =>
                "stream id overflows, should start a new connection".to_string(),
            TokioSmuxError::StreamClosed => "stream closed".to_string(),
            TokioSmuxError::StreamWriteTooLargeData => "stream write too large data".to_string(),
            TokioSmuxError::StreamReceiveUnexpectedCmd { cmd_value } => {
                let mut res = "stream receives unexpected cmd: ".to_string();
                append_decimal(&mut res, *cmd_value as u64);
                res
            },
            TokioSmuxError::TokioRecvError { inner } => "tokio recv error: ".to_string().concat(
                inner.as_str(),
            ),
            TokioSmuxError::TokioSendError { inner } => "tokio send error: ".to_string().concat(
                inner.as_str(),
            ),
            TokioSmuxError::InnerStreamError { msg } =>
                "receive inner stream err: ".to_string().concat(msg.as_str()),
            TokioSmuxError::Default { msg } => msg.clone(),
        }
    }
}

/// Each error is told by a text of its own, and by what it holds: the offending byte in decimal, or
/// the text that came with it.
pub proof fn errors_tell_what_happened(err: TokioSmuxError)
    ensures
        err matches TokioSmuxError::FrameParseCmdError { cmd } ==> err.text()
            == "receive invalid cmd: "@ + crate::text::decimal(cmd as nat),
        err is FrameCreateError ==> err.text() == "failed to create frame from data"@,
        err matches TokioSmuxError::InvalidConfig { msg } ==> err.text()
            == "receive invalid config: "@ + msg@,
        err is SessionClosed ==> err.text() == "session closed"@,
        err is SessionGoAway ==> err.text()
            == "stream id overflows, should start a new connection"@,
        err is StreamClosed ==> err.text() == "stream closed"@,
        err is StreamWriteTooLargeData ==> err.text() == "stream write too large data"@,
        err matches TokioSmuxError::StreamReceiveUnexpectedCmd { cmd_value } ==> err.text()
            == "stream receives unexpected cmd: "@ + crate::text::decimal(cmd_value as nat),
        err matches TokioSmuxError::TokioRecvError { inner } ==> err.text()
            == "tokio recv error: "@ + inner@,
        err matches TokioSmuxError::TokioSendError { inner } ==> err.text()
            == "tokio send error: "@ + inner@,
        err matches TokioSmuxError::InnerStreamError { msg } ==> err.text()
            == "receive inner stream err: "@ + msg@,
        err matches TokioSmuxError::Default { msg } ==> err.text() == msg@,
{
}

impl Clone for TokioSmuxError {
    fn clone(&self) -> (res: Self)
        ensures
            res == *self,
    {
        match self {
            TokioSmuxError::FrameParseCmdError { cmd } => TokioSmuxError::FrameParseCmdError {
                cmd: *cmd,
            },
            TokioSmuxError::FrameCreateError => TokioSmuxError::FrameCreateError,
            TokioSmuxError::InvalidConfig { msg } => TokioSmuxError::InvalidConfig {
                msg: msg.clone(),
            },
            TokioSmuxError::SessionClosed => TokioSmuxError::SessionClosed,
            TokioSmuxError::SessionGoAway => TokioSmuxError::SessionGoAway,
            TokioSmuxError::StreamClosed => TokioSmuxError::StreamClosed,
            TokioSmuxError::StreamWriteTooLargeData => TokioSmuxError::StreamWriteTooLargeData,
            TokioSmuxError::StreamReceiveUnexpectedCmd { cmd_value } =>
                TokioSmuxError::StreamReceiveUnexpectedCmd { cmd_value: *cmd_value },
            TokioSmuxError::TokioRecvError { inner } => TokioSmuxError::TokioRecvError {
                inner: inner.clone(),
            },
            TokioSmuxError::TokioSendError { inner } => TokioSmuxError::TokioSendError {
                inner: inner.clone(),
            },
            TokioSmuxError::InnerStreamError { msg } => TokioSmuxError::InnerStreamError {
                msg: msg.clone(),
            },
            TokioSmuxError::Default { msg } => TokioSmuxError::Default { msg: msg.clone() },
        }
    }
}

/// `std::io::Error`, the failure of a read or a write, as an opaque value. Nothing is claimed of
/// it.
#[verifier::external_type_specification]
#[verifier::external_body]
pub struct ExIoError(std::io::Error);

/// `tokio::sync::oneshot::error::RecvError`, the failure of waiting for a one-shot value, as an
/// opaque value. Nothing is claimed of it.
#[verifier::external_type_specification]
#[verifier::external_body]
pub struct ExOneshotRecvError(tokio::sync::oneshot::error::RecvError);

/// `tokio::sync::broadcast::error::RecvError`, the failure of receiving a broadcast value, as an
/// opaque value. Nothing is claimed of it.
#[verifier::external_type_specification]
#[verifier::external_body]
pub struct ExBroadcastRecvError(tokio::sync::broadcast::error::RecvError);

/// `tokio::sync::broadcast::error::SendError`, the failure of broadcasting a value, as an opaque
/// value. Nothing is claimed of it.
#[verifier::external_type_specification]
#[verifier::external_body]
#[verifier::reject_recursive_types(T)]
pub struct ExBroadcastSendError<T>(tokio::sync::broadcast::error::SendError<T>);

/// `tokio::sync::mpsc::error::SendError`, the failure of sending on a queue, as an opaque value.
/// Nothing is claimed of it.
#[verifier::external_type_specification]
#[verifier::external_body]
#[verifier::reject_recursive_types(T)]
pub struct ExMpscSendError<T>(tokio::sync::mpsc::error::SendError<T>);

impl FromSpecImpl<std::io::Error> for TokioSmuxError {
    open spec fn obeys_from_spec() -> bool {
        false
    }

    open spec fn from_spec(v: std::io::Error) -> Self {
        arbitrary()
    }
}

impl From<std::io::Error> for TokioSmuxError {
    /// Keeps the text of the i/o error.
    fn from(value: std::io::Error) -> (res: Self)
        ensures
            res matches TokioSmuxError::Default { msg } && vstd::string::to_string_from_display_ensures(
                &value,
                msg,
            ),
    {
        TokioSmuxError::Default { msg: value.to_string() }
    }
}

impl FromSpecImpl<oneshot::error::RecvError> for TokioSmuxError {
    open spec fn obeys_from_spec() -> bool {
        false
    }

    open spec fn from_spec(v: oneshot::error::RecvError) -> Self {
        arbitrary()
    }
}

impl From<oneshot::error::RecvError> for TokioSmuxError {
    /// Keeps the text of the error.
    fn from(value: oneshot::error::RecvError) -> (res: Self)
        ensures
            res matches TokioSmuxError::TokioRecvError { inner } && vstd::string::to_string_from_display_ensures(
                &value,
                inner,
            ),
    {
        TokioSmuxError::TokioRecvError { inner: value.to_string() }
    }
}

impl FromSpecImpl<broadcast::error::RecvError> for TokioSmuxError {
    open spec fn obeys_from_spec() -> bool {
        false
    }

    open spec fn from_spec(v: broadcast::error::RecvError) -> Self {
        arbitrary()
    }
}

impl From<broadcast::error::RecvError> for TokioSmuxError {
    /// Keeps the text of the error.
    fn from(value: broadcast::error::RecvError) -> (res: Self)
        ensures
            res matches TokioSmuxError::TokioRecvError { inner } && vstd::string::to_string_from_display_ensures(
                &value,
                inner,
            ),
    {
        TokioSmuxError::TokioRecvError { inner: value.to_string() }
    }
}

impl<T> FromSpecImpl<broadcast::error::SendError<T>> for TokioSmuxError {
    open spec fn obeys_from_spec() -> bool {
        false
    }

    open spec fn from_spec(v: broadcast::error::SendError<T>) -> Self {
        arbitrary()
    }
}

impl<T> From<broadcast::error::SendError<T>> for TokioSmuxError {
    /// Keeps the text of the error.
    fn from(value: broadcast::error::SendError<T>) -> (res: Self)
        ensures
            res matches TokioSmuxError::TokioSendError { inner } && vstd::string::to_string_from_display_ensures(
                &value,
                inner,
            ),
    {
        TokioSmuxError::TokioSendError { inner: value.to_string() }
    }
}

impl<T> FromSpecImpl<mpsc::error::SendError<T>> for TokioSmuxError {
    open spec fn obeys_from_spec() -> bool {
        false
    }

    open spec fn from_spec(v: mpsc::error::SendError<T>) -> Self {
        arbitrary()
    }
}

impl<T> From<mpsc::error::SendError<T>> for TokioSmuxError {
    /// Keeps the text of the error, as a failure to get through to the other side.
    fn from(value: mpsc::error::SendError<T>) -> (res: Self)
        ensures
            res matches TokioSmuxError::TokioRecvError { inner } && vstd::string::to_string_from_display_ensures(
                &value,
                inner,
            ),
    {
        TokioSmuxError::TokioRecvError { inner: value.to_string() }
    }
}

} // verus!
