//! Delivery by a shell command that finds the title and the message in its
//! environment.

use crate::document::{required_text, Document, Item};
use crate::error::{viewed, Error, ErrorView};
use crate::exchange::{SpawnRequest, SpawnRequestView, Termination, TerminationView};
use crate::pairs::{position, Pairs};
use crate::text::{push_signed, signed_decimal};
use vstd::prelude::*;
use vstd::string::*;

verus! {

/// The command line that delivers a message.
pub struct Shell {
    /// Handed to the shell as it is; nothing is substituted in it.
    pub command: String,
}

/// A `Shell` with its string as a character sequence.
pub struct ShellView {
    pub command: Seq<char>,
}

impl View for Shell {
    type V = ShellView;

    open spec fn view(&self) -> ShellView {
        ShellView { command: self.command@ }
    }
}

/// The configuration that a document section describes: `command` must be
/// there as a string. Other names are ignored.
pub open spec fn decoded_shell(entries: Seq<(Seq<char>, Item)>) -> Result<ShellView, ErrorView> {
    match required_text(entries, "command"@) {
        Err(e) => Err(e),
        Ok(command) => Ok(ShellView { command }),
    }
}

/// The process that delivers a message through `command`: `sh -c` with the
/// command, and the title and the message in the variables `title` and `message`.
pub open spec fn shell_spawn(command: Seq<char>, title: Seq<char>, message: Seq<char>) -> SpawnRequestView {
    SpawnRequestView {
        program: "sh"@,
        arguments: seq!["-c"@, command],
        environment: seq![("title"@, title), ("message"@, message)],
    }
}

/// What the end of the shell means for the sender: the exit code in decimal,
/// `None` where a signal left no exit code, or the failure to start.
pub open spec fn shell_reply(command: Seq<char>, end: TerminationView) -> Result<
    Seq<char>,
    ErrorView,
> {
    match end {
        TerminationView::NotStarted(cause) => Err(ErrorView::SpawnFailed(command, cause)),
        TerminationView::Exited(code) => Ok(signed_decimal(code as int)),
        TerminationView::Killed => Ok("None"@),
    }
}

impl Shell {
    /// Reads the configuration from its section of the document.
    pub fn from_document(section: &Document) -> (decoded: Result<Shell, Error>)
        ensures
            viewed(decoded) == decoded_shell(section.entries()),
    {
        match section.required_text("command") {
            Ok(command) => Ok(Shell { command }),
            Err(e) => Err(e),
        }
    }

    /// The process to start for a title and a message.
    pub fn spawn(&self, title: &str, message: &str) -> (request: SpawnRequest)
        ensures
            request@ == shell_spawn(self.command@, title@, message@),
            request.environment.wf(),
    {
        let mut arguments: Vec<String> = Vec::new();
        arguments.push(String::from_str("-c"));
        arguments.push(self.command.clone());
        let mut environment = Pairs::new();
        environment.insert("title", title);
        let ghost first = environment@;
        environment.insert("message", message);
        proof {
            reveal_strlit("title");
            reveal_strlit("message");
            assert("title"@ != "message"@) by {
                assert("title"@.len() != "message"@.len());
            }
            assert(first == seq![("title"@, title@)]);
            assert(position(first.skip(1), "message"@) == 0);
            assert(position(first, "message"@) == 1);
            assert(environment@ == seq![("title"@, title@), ("message"@, message@)]);
        }
        let request = SpawnRequest { program: String::from_str("sh"), arguments, environment };
        assert(request@.arguments == seq!["-c"@, self.command@]);
        request
    }

    /// Turns the end of the process into the reply of the backend.
    pub fn reply(&self, end: Termination) -> (reply: Result<String, Error>)
        ensures
            viewed(reply) == shell_reply(self.command@, end@),
    {
        match end {
            Termination::NotStarted(cause) => Err(Error::SpawnFailed(self.command.clone(), cause)),
            Termination::Exited(code) => {
                let mut text = String::new();
                push_signed(&mut text, code);
                Ok(text)
            },
            Termination::Killed => Ok(String::from_str("None")),
        }
    }
}

} // verus!
