//! One delivery, step by step: a backend says what is to be done next, the
//! driver does it and comes back with what it gave, until the delivery is over.

use crate::backend::http::{http_reply, refused_header, Http};
use crate::backend::shell::{shell_reply, shell_spawn};
use crate::backend::work_weixin::{
    after_token, post_reply, token_request_of, TokenOutcome, TokenOutcomeView, WorkWeixin,
};
use crate::backend::{BackendConfig, BackendConfigView};
use crate::error::{Error, ErrorView};
use crate::exchange::{
    HttpOutcome, HttpOutcomeView, HttpRequest, HttpRequestView, SpawnRequest, SpawnRequestView,
    Termination, TerminationView,
};
use vstd::prelude::*;
use vstd::string::*;

verus! {

/// Something for the driver to do.
pub enum Action {
    /// Send the request and read the body of the response.
    Http(HttpRequest),
    /// Send the request and read the response as the answer of the token endpoint.
    Token(HttpRequest),
    /// Start the process and wait for its end.
    Spawn(SpawnRequest),
}

/// What a delivery is waiting for, with what it needs to go on.
pub enum Pending {
    /// The outcome of the HTTP backend's request; holds the URL that was asked.
    HttpReply(String),
    /// The end of the shell.
    ShellExit,
    /// The outcome of the token request; holds the title and the message that
    /// will be posted.
    Token(String, String),
    /// The outcome of the post.
    PostReply,
}

/// What the driver comes back with.
pub enum Event {
    Http(HttpOutcome),
    Token(TokenOutcome),
    Exit(Termination),
}

/// The next step of a delivery.
pub enum Step {
    /// Do this, and come back with what it gave.
    Ask(Action, Pending),
    /// The delivery is over: the backend's confirmation, or the failure.
    Done(Result<String, Error>),
}

/// An `Action` with its strings as character sequences.
pub enum ActionView {
    Http(HttpRequestView),
    Token(HttpRequestView),
    Spawn(SpawnRequestView),
}

/// A `Pending` with its strings as character sequences.
pub enum PendingView {
    HttpReply(Seq<char>),
    ShellExit,
    Token(Seq<char>, Seq<char>),
    PostReply,
}

/// An `Event` with its strings as character sequences.
pub enum EventView {
    Http(HttpOutcomeView),
    Token(TokenOutcomeView),
    Exit(TerminationView),
}

/// A `Step` with its strings as character sequences.
pub enum StepView {
    Ask(ActionView, PendingView),
    Done(Result<Seq<char>, ErrorView>),
}

impl View for Action {
    type V = ActionView;

    open spec fn view(&self) -> ActionView {
        match self {
            Action::Http(request) => ActionView::Http(request@),
            Action::Token(request) => ActionView::Token(request@),
            Action::Spawn(request) => ActionView::Spawn(request@),
        }
    }
}

impl View for Pending {
    type V = PendingView;

    open spec fn view(&self) -> PendingView {
        match self {
            Pending::HttpReply(url) => PendingView::HttpReply(url@),
            Pending::ShellExit => PendingView::ShellExit,
            Pending::Token(title, message) => PendingView::Token(title@, message@),
            Pending::PostReply => PendingView::PostReply,
        }
    }
}

impl View for Event {
    type V = EventView;

    open spec fn view(&self) -> EventView {
        match self {
            Event::Http(outcome) => EventView::Http(outcome@),
            Event::Token(outcome) => EventView::Token(outcome@),
            Event::Exit(end) => EventView::Exit(end@),
        }
    }
}

impl View for Step {
    type V = StepView;

    open spec fn view(&self) -> StepView {
        match self {
            Step::Ask(action, pending) => StepView::Ask(action@, pending@),
            Step::Done(Ok(confirmation)) => StepView::Done(Ok(confirmation@)),
            Step::Done(Err(error)) => StepView::Done(Err(error@)),
        }
    }
}

/// A request to perform, or the end of the delivery where there is none.
pub open spec fn ask_or_end(
    planned: Result<HttpRequestView, ErrorView>,
    then: PendingView,
) -> StepView {
    match planned {
        Ok(request) => StepView::Ask(ActionView::Http(request), then),
        Err(error) => StepView::Done(Err(error)),
    }
}

impl BackendConfigView {
    /// The first step of the delivery of a title and a message.
    pub open spec fn begin(self, title: Seq<char>, message: Seq<char>) -> StepView {
        match self {
            BackendConfigView::Http(http) => match http.request(
                title,
                message,
                refused_header(http.sent_headers()),
            ) {
                Ok(request) => StepView::Ask(
                    ActionView::Http(request),
                    PendingView::HttpReply(request.url),
                ),
                Err(error) => StepView::Done(Err(error)),
            },
            BackendConfigView::Shell(shell) => StepView::Ask(
                ActionView::Spawn(shell_spawn(shell.command, title, message)),
                PendingView::ShellExit,
            ),
            BackendConfigView::WorkWeixin(account) => StepView::Ask(
                ActionView::Token(token_request_of(account)),
                PendingView::Token(title, message),
            ),
        }
    }

    /// The step after `event`, where `event` is what `pending` was waiting
    /// for; nothing where it is not.
    pub open spec fn resume(self, pending: PendingView, event: EventView) -> Option<StepView> {
        match (self, pending, event) {
            (
                BackendConfigView::Http(_),
                PendingView::HttpReply(url),
                EventView::Http(outcome),
            ) => Some(StepView::Done(http_reply(url, outcome))),
            (BackendConfigView::Shell(shell), PendingView::ShellExit, EventView::Exit(end)) => Some(
                StepView::Done(shell_reply(shell.command, end)),
            ),
            (
                BackendConfigView::WorkWeixin(account),
                PendingView::Token(title, message),
                EventView::Token(outcome),
            ) => Some(
                ask_or_end(
                    after_token(account.agentid, outcome, title, message),
                    PendingView::PostReply,
                ),
            ),
            (
                BackendConfigView::WorkWeixin(_),
                PendingView::PostReply,
                EventView::Http(outcome),
            ) => Some(StepView::Done(post_reply(outcome))),
            _ => None,
        }
    }
}

/// The event is a token that the endpoint granted.
pub open spec fn granted(event: EventView) -> bool {
    event matches EventView::Token(TokenOutcomeView::Granted(_))
}

/// A delivery asks at most twice. Only the answer to the token request leads
/// to another request, the post, and only where a token was granted. Where the
/// token endpoint refuses, the delivery ends there with the endpoint's message
/// and nothing is posted. Every other event ends the delivery.
pub proof fn lemma_delivery_is_short(
    config: BackendConfigView,
    pending: PendingView,
    event: EventView,
)
    requires
        event != EventView::Token(TokenOutcomeView::Broken),
    ensures
        config.resume(pending, event) matches Some(StepView::Ask(action, next)) ==> pending
            is Token && granted(event) && action is Http && next == PendingView::PostReply,
        event matches EventView::Token(TokenOutcomeView::Refused(errmsg)) ==> (config
            is WorkWeixin && pending is Token ==> config.resume(pending, event) == Some(
            StepView::Done(Err(ErrorView::TokenFailed(errmsg))),
        )),
{
}

impl BackendConfig {
    /// Begins the delivery of a title and a message.
    pub fn begin(&self, title: &str, message: &str) -> (step: Step)
        ensures
            step@ == self@.begin(title@, message@),
    {
        match self {
            BackendConfig::Http(http) => match http.request(title, message) {
                Ok(request) => {
                    let url = request.url.clone();
                    Step::Ask(Action::Http(request), Pending::HttpReply(url))
                },
                Err(error) => Step::Done(Err(error)),
            },
            BackendConfig::Shell(shell) => Step::Ask(
                Action::Spawn(shell.spawn(title, message)),
                Pending::ShellExit,
            ),
            BackendConfig::WorkWeixin(account) => Step::Ask(
                Action::Token(account.token_request()),
                Pending::Token(String::from_str(title), String::from_str(message)),
            ),
        }
    }

    /// Goes on with the delivery after `event`. Where `event` is not what
    /// `pending` was waiting for, there is no next step.
    ///
    /// An answer of the token endpoint that reports success without a token
    /// breaks the endpoint's contract; the caller must not hand it over.
    pub fn resume(&self, pending: Pending, event: Event) -> (step: Option<Step>)
        requires
            event@ != EventView::Token(TokenOutcomeView::Broken),
        ensures
            match step {
                Some(next) => self@.resume(pending@, event@) == Some(next@),
                None => self@.resume(pending@, event@) is None,
            },
    {
        match self {
            BackendConfig::Http(_) => match pending {
                Pending::HttpReply(url) => match event {
                    Event::Http(outcome) => Some(Step::Done(Http::reply(url.as_str(), outcome))),
                    _ => None,
                },
                _ => None,
            },
            BackendConfig::Shell(shell) => match pending {
                Pending::ShellExit => match event {
                    Event::Exit(end) => Some(Step::Done(shell.reply(end))),
                    _ => None,
                },
                _ => None,
            },
            BackendConfig::WorkWeixin(account) => match pending {
                Pending::Token(title, message) => match event {
                    Event::Token(outcome) => match account.send_request(
                        outcome,
                        title.as_str(),
                        message.as_str(),
                    ) {
                        Ok(request) => Some(Step::Ask(Action::Http(request), Pending::PostReply)),
                        Err(error) => Some(Step::Done(Err(error))),
                    },
                    _ => None,
                },
                Pending::PostReply => match event {
                    Event::Http(outcome) => Some(Step::Done(WorkWeixin::reply(outcome))),
                    _ => None,
                },
                _ => None,
            },
        }
    }
}

} // verus!
