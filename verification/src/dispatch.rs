//! Deciding what is sent: the caller's own title and message, or a report of
//! the command that ran.

use crate::backend::Backend;
use crate::command::{command_outcome, report, CommandOutcome, CommandOutcomeView};
use crate::exchange::Termination;
use crate::text::{join, joined, texts};
use vstd::prelude::*;
use vstd::string::*;

verus! {

/// A title and a message, as they are handed to a backend.
pub struct Message {
    pub title: String,
    pub message: String,
}

/// The title of a report: the command line between quotes, and how it ended.
pub open spec fn report_title(command: Seq<Seq<char>>, succeeded: bool) -> Seq<char> {
    "command '"@ + joined(command, " "@) + if succeeded {
        "' finished"@
    } else {
        "' failed"@
    }
}

/// What is sent after a command: the caller's title and message where neither
/// is empty, whatever the command did; else the report of the command.
pub open spec fn chosen(
    command: Seq<Seq<char>>,
    title: Seq<char>,
    message: Seq<char>,
    outcome: CommandOutcomeView,
) -> (Seq<char>, Seq<char>) {
    if title.len() > 0 && message.len() > 0 {
        (title, message)
    } else {
        (report_title(command, outcome.succeeded), outcome.detail)
    }
}

/// What a trial send hands over: the caller's title and message where neither
/// is empty, else a fixed greeting.
pub open spec fn trial(title: Seq<char>, message: Seq<char>) -> (Seq<char>, Seq<char>) {
    if title.len() > 0 && message.len() > 0 {
        (title, message)
    } else {
        ("hello"@, "this is test message"@)
    }
}

/// Where the caller gives a title and a message, neither of them empty,
/// exactly these are sent, whatever the command was and however it ended.
pub proof fn lemma_caller_message_is_sent(
    command: Seq<Seq<char>>,
    title: Seq<char>,
    message: Seq<char>,
    outcome: CommandOutcomeView,
)
    requires
        title.len() > 0,
        message.len() > 0,
    ensures
        chosen(command, title, message, outcome) == (title, message),
{
}

/// Chooses what is sent after `command` ended as `outcome`.
pub fn compose(command: &Vec<&str>, title: &str, message: &str, outcome: &CommandOutcome) -> (sent:
    Message)
    ensures
        (sent.title@, sent.message@) == chosen(texts(command@), title@, message@, outcome@),
{
    if !title.is_empty() && !message.is_empty() {
        Message { title: String::from_str(title), message: String::from_str(message) }
    } else {
        let mut report = String::from_str("command '");
        let line = join(command, " ");
        report.append(line.as_str());
        if outcome.succeeded {
            report.append("' finished");
        } else {
            report.append("' failed");
        }
        Message { title: report, message: outcome.detail.clone() }
    }
}

/// Sends a trial message through `backend` and returns the backend's reply.
pub fn send<B: Backend + ?Sized>(backend: Box<B>, title: &str, message: &str) -> (reply: Result<
    String,
    String,
>)
    ensures
        backend.answers(trial(title@, message@).0, trial(title@, message@).1, reply),
{
    if !title.is_empty() && !message.is_empty() {
        backend.send_message(title, message)
    } else {
        backend.send_message("hello", "this is test message")
    }
}

/// Reports through `backend` on `command`, which ran for `elapsed` seconds and
/// ended as `end`, and returns the backend's reply. A failed command does not
/// stop the report; a failed delivery is returned, not retried.
pub fn done<B: Backend + ?Sized>(
    command: Vec<&str>,
    backend: Box<B>,
    title: &str,
    message: &str,
    elapsed: u64,
    end: Termination,
) -> (reply: Result<String, String>)
    ensures
        backend.answers(
            chosen(texts(command@), title@, message@, report(elapsed, end@)).0,
            chosen(texts(command@), title@, message@, report(elapsed, end@)).1,
            reply,
        ),
{
    let outcome = command_outcome(elapsed, end);
    let sent = compose(&command, title, message, &outcome);
    backend.send_message(sent.title.as_str(), sent.message.as_str())
}

} // verus!
