//! What a backend asks its driver to do, and what the driver reports back.

use crate::pairs::Pairs;
use vstd::prelude::*;

verus! {

/// The request methods that a backend can use.
#[derive(Clone, Copy, Debug, PartialEq, Eq, Structural)]
pub enum Method {
    Get,
    Post,
}

/// What a request carries besides its headers.
pub enum Payload {
    /// No body.
    Nothing,
    /// Fields to be sent as a URL-encoded form.
    Form(Pairs),
    /// Fields to be sent as a JSON object of strings.
    Json(Pairs),
    /// Text to be sent as it is.
    Text(String),
}

/// A `Payload` with its strings as character sequences.
pub enum PayloadView {
    Nothing,
    Form(Seq<(Seq<char>, Seq<char>)>),
    Json(Seq<(Seq<char>, Seq<char>)>),
    Text(Seq<char>),
}

impl View for Payload {
    type V = PayloadView;

    open spec fn view(&self) -> PayloadView {
        match self {
            Payload::Nothing => PayloadView::Nothing,
            Payload::Form(fields) => PayloadView::Form(fields@),
            Payload::Json(fields) => PayloadView::Json(fields@),
            Payload::Text(text) => PayloadView::Text(text@),
        }
    }
}

impl Payload {
    /// No field name occurs twice.
    pub open spec fn wf(&self) -> bool {
        match self {
            Payload::Form(fields) => fields.wf(),
            Payload::Json(fields) => fields.wf(),
            _ => true,
        }
    }
}

/// One HTTP request, ready to be sent.
pub struct HttpRequest {
    pub method: Method,
    pub url: String,
    pub headers: Pairs,
    pub payload: Payload,
}

/// An `HttpRequest` with its strings as character sequences.
pub struct HttpRequestView {
    pub method: Method,
    pub url: Seq<char>,
    pub headers: Seq<(Seq<char>, Seq<char>)>,
    pub payload: PayloadView,
}

impl View for HttpRequest {
    type V = HttpRequestView;

    open spec fn view(&self) -> HttpRequestView {
        HttpRequestView {
            method: self.method,
            url: self.url@,
            headers: self.headers@,
            payload: self.payload@,
        }
    }
}

impl HttpRequest {
    /// No header and no field occurs twice.
    pub open spec fn wf(&self) -> bool {
        self.headers.wf() && self.payload.wf()
    }
}

/// How an HTTP request ended.
pub enum HttpOutcome {
    /// The request did not get through (name lookup, connection, TLS, timeout);
    /// holds the cause.
    Unreachable(String),
    /// A response came but its body could not be read; holds the cause.
    Unreadable(String),
    /// The body of the response, whatever its status code.
    Body(String),
}

/// An `HttpOutcome` with its strings as character sequences.
pub enum HttpOutcomeView {
    Unreachable(Seq<char>),
    Unreadable(Seq<char>),
    Body(Seq<char>),
}

impl View for HttpOutcome {
    type V = HttpOutcomeView;

    open spec fn view(&self) -> HttpOutcomeView {
        match self {
            HttpOutcome::Unreachable(cause) => HttpOutcomeView::Unreachable(cause@),
            HttpOutcome::Unreadable(cause) => HttpOutcomeView::Unreadable(cause@),
            HttpOutcome::Body(body) => HttpOutcomeView::Body(body@),
        }
    }
}

/// A process to start and wait for.
pub struct SpawnRequest {
    pub program: String,
    pub arguments: Vec<String>,
    /// Variables added to the environment of the process.
    pub environment: Pairs,
}

/// A `SpawnRequest` with its strings as character sequences.
pub struct SpawnRequestView {
    pub program: Seq<char>,
    pub arguments: Seq<Seq<char>>,
    pub environment: Seq<(Seq<char>, Seq<char>)>,
}

impl View for SpawnRequest {
    type V = SpawnRequestView;

    open spec fn view(&self) -> SpawnRequestView {
        SpawnRequestView {
            program: self.program@,
            arguments: Seq::new(self.arguments@.len(), |i: int| self.arguments@[i]@),
            environment: self.environment@,
        }
    }
}

/// How a process ended.
#[derive(Clone)]
pub enum Termination {
    /// It could not be started; holds the cause.
    NotStarted(String),
    /// It ran and left this exit code.
    Exited(i32),
    /// It was ended by a signal and left no exit code.
    Killed,
}

/// A `Termination` with its string as a character sequence.
pub enum TerminationView {
    NotStarted(Seq<char>),
    Exited(i32),
    Killed,
}

impl View for Termination {
    type V = TerminationView;

    open spec fn view(&self) -> TerminationView {
        match self {
            Termination::NotStarted(cause) => TerminationView::NotStarted(cause@),
            Termination::Exited(code) => TerminationView::Exited(*code),
            Termination::Killed => TerminationView::Killed,
        }
    }
}

} // verus!
