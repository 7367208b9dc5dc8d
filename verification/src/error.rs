//! What can go wrong when a backend is built or a message is delivered.

use vstd::prelude::*;
use vstd::string::*;

verus! {

/// A failure of construction or delivery. None is retried.
pub enum Error {
    /// The backend type is not one of the known ones; holds the type given, if any.
    UnknownBackendKind(Option<String>),
    /// The configuration lacks a required field or holds a value of the wrong
    /// type; holds what is wrong.
    InvalidBackendConfig(String),
    /// A configured header cannot be sent; holds the name of the first such header.
    InvalidHeaders(String),
    /// The configured method is neither `GET` nor `POST`; holds the method.
    UnsupportedMethod(String),
    /// A `POST` is configured without form, JSON or body.
    MissingPayload,
    /// The request did not reach the server; holds the URL and the cause.
    RequestFailed(String, String),
    /// The response body could not be read; holds the cause.
    ResponseReadFailed(String),
    /// The shell could not be started; holds the command and the cause.
    SpawnFailed(String, String),
    /// No access token was obtained; holds the cause.
    TokenFailed(String),
    /// The message could not be posted; holds the cause.
    SendFailed(String),
}

/// An `Error` with its strings as character sequences.
pub enum ErrorView {
    UnknownBackendKind(Option<Seq<char>>),
    InvalidBackendConfig(Seq<char>),
    InvalidHeaders(Seq<char>),
    UnsupportedMethod(Seq<char>),
    MissingPayload,
    RequestFailed(Seq<char>, Seq<char>),
    ResponseReadFailed(Seq<char>),
    SpawnFailed(Seq<char>, Seq<char>),
    TokenFailed(Seq<char>),
    SendFailed(Seq<char>),
}

impl View for Error {
    type V = ErrorView;

    open spec fn view(&self) -> ErrorView {
        match self {
            Error::UnknownBackendKind(None) => ErrorView::UnknownBackendKind(None),
            Error::UnknownBackendKind(Some(tag)) => ErrorView::UnknownBackendKind(Some(tag@)),
            Error::InvalidBackendConfig(detail) => ErrorView::InvalidBackendConfig(detail@),
            Error::InvalidHeaders(name) => ErrorView::InvalidHeaders(name@),
            Error::UnsupportedMethod(method) => ErrorView::UnsupportedMethod(method@),
            Error::MissingPayload => ErrorView::MissingPayload,
            Error::RequestFailed(url, cause) => ErrorView::RequestFailed(url@, cause@),
            Error::ResponseReadFailed(cause) => ErrorView::ResponseReadFailed(cause@),
            Error::SpawnFailed(command, cause) => ErrorView::SpawnFailed(command@, cause@),
            Error::TokenFailed(cause) => ErrorView::TokenFailed(cause@),
            Error::SendFailed(cause) => ErrorView::SendFailed(cause@),
        }
    }
}

impl ErrorView {
    /// The error in words, for a log or a terminal.
    pub open spec fn text(self) -> Seq<char> {
        match self {
            ErrorView::UnknownBackendKind(None) => "no such backend:None"@,
            ErrorView::UnknownBackendKind(Some(tag)) => "no such backend:Some(\""@ + tag + "\")"@,
            ErrorView::InvalidBackendConfig(detail) => "deserialize failed:"@ + detail,
            ErrorView::InvalidHeaders(name) => "invalid headers:"@ + name,
            ErrorView::UnsupportedMethod(method) => "method "@ + method + " not support"@,
            ErrorView::MissingPayload => "post method must have form | json | body fields"@,
            ErrorView::RequestFailed(url, cause) => "request:"@ + url + " failed:"@ + cause,
            ErrorView::ResponseReadFailed(cause) => "read response failed:"@ + cause,
            ErrorView::SpawnFailed(command, cause) => "run shell cmd:"@ + command + " fail:"@
                + cause,
            ErrorView::TokenFailed(cause) => "get_token failed:"@ + cause,
            ErrorView::SendFailed(cause) => "send message:"@ + cause,
        }
    }
}

/// A result with both sides taken by their views.
pub open spec fn viewed<T: View>(result: Result<T, Error>) -> Result<T::V, ErrorView> {
    match result {
        Ok(value) => Ok(value@),
        Err(error) => Err(error@),
    }
}

/// An optional string as an optional character sequence.
pub open spec fn text_view(text: Option<String>) -> Option<Seq<char>> {
    match text {
        Some(t) => Some(t@),
        None => None,
    }
}

fn two(head: &str, tail: &str) -> (out: String)
    ensures
        out@ == head@ + tail@,
{
    let mut out = String::from_str(head);
    out.append(tail);
    out
}

fn four(a: &str, b: &str, c: &str, d: &str) -> (out: String)
    ensures
        out@ == a@ + b@ + c@ + d@,
{
    let mut out = String::from_str(a);
    out.append(b);
    out.append(c);
    out.append(d);
    out
}

impl Error {
    /// The error in words.
    pub fn message(&self) -> (text: String)
        ensures
            text@ == self@.text(),
    {
        match self {
            Error::UnknownBackendKind(None) => String::from_str("no such backend:None"),
            Error::UnknownBackendKind(Some(tag)) => {
                let out = four("no such backend:Some(\"", tag.as_str(), "\")", "");
                assert(out@ == "no such backend:Some(\""@ + tag@ + "\")"@) by {
                    reveal_strlit("");
                }
                out
            },
            Error::InvalidBackendConfig(detail) => two("deserialize failed:", detail.as_str()),
            Error::InvalidHeaders(name) => two("invalid headers:", name.as_str()),
            Error::UnsupportedMethod(method) => {
                let out = four("method ", method.as_str(), " not support", "");
                assert(out@ == "method "@ + method@ + " not support"@) by {
                    reveal_strlit("");
                }
                out
            },
            Error::MissingPayload => String::from_str(
                "post method must have form | json | body fields",
            ),
            Error::RequestFailed(url, cause) => four(
                "request:",
                url.as_str(),
                " failed:",
                cause.as_str(),
            ),
            Error::ResponseReadFailed(cause) => two("read response failed:", cause.as_str()),
            Error::SpawnFailed(command, cause) => four(
                "run shell cmd:",
                command.as_str(),
                " fail:",
                cause.as_str(),
            ),
            Error::TokenFailed(cause) => two("get_token failed:", cause.as_str()),
            Error::SendFailed(cause) => two("send message:", cause.as_str()),
        }
    }
}

} // verus!
