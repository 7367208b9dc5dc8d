//! Running a command: what is started, and how its end is reported.

use crate::exchange::{SpawnRequest, SpawnRequestView, Termination, TerminationView};
use crate::pairs::Pairs;
use crate::text::{decimal, push_decimal, push_signed, signed_decimal, texts};
use vstd::prelude::*;
use vstd::string::*;

verus! {

/// How a command ended, in the form in which it is reported.
pub struct CommandOutcome {
    /// Whether the run is reported as finished rather than as failed. It is
    /// `true` for exit code 0, and also where the command could not be started:
    /// that case is reported like a success, with the cause in the detail.
    pub succeeded: bool,
    /// Seconds from start to end.
    pub elapsed: u64,
    /// The report in words.
    pub detail: String,
}

/// A `CommandOutcome` with its string as a character sequence.
pub struct CommandOutcomeView {
    pub succeeded: bool,
    pub elapsed: u64,
    pub detail: Seq<char>,
}

impl View for CommandOutcome {
    type V = CommandOutcomeView;

    open spec fn view(&self) -> CommandOutcomeView {
        CommandOutcomeView { succeeded: self.succeeded, elapsed: self.elapsed, detail: self.detail@ }
    }
}

/// The start of every report: the time that the run took.
pub open spec fn elapsed_text(elapsed: u64) -> Seq<char> {
    "执行用时:"@ + decimal(elapsed as nat) + "秒"@
}

/// The report of a run that took `elapsed` seconds and ended as `end` says:
/// the time alone after exit code 0; the time and the code after another exit
/// code; the time and that it was killed after a signal; the time and the cause
/// where it could not be started.
pub open spec fn report(elapsed: u64, end: TerminationView) -> CommandOutcomeView {
    match end {
        TerminationView::NotStarted(cause) => CommandOutcomeView {
            succeeded: true,
            elapsed,
            detail: elapsed_text(elapsed) + ",失败原因:"@ + cause,
        },
        TerminationView::Exited(code) => if code == 0 {
            CommandOutcomeView { succeeded: true, elapsed, detail: elapsed_text(elapsed) }
        } else {
            CommandOutcomeView {
                succeeded: false,
                elapsed,
                detail: elapsed_text(elapsed) + ", 退出码:"@ + signed_decimal(code as int),
            }
        },
        TerminationView::Killed => CommandOutcomeView {
            succeeded: false,
            elapsed,
            detail: elapsed_text(elapsed) + ", 退出原因:被杀死"@,
        },
    }
}

/// Every report begins with the time that the run took. After exit code 0 it
/// says nothing else; after another exit code it ends with that code; after a
/// signal it ends with the words for a killed command.
pub proof fn lemma_report_tells_time_and_end(elapsed: u64, end: TerminationView)
    ensures
        report(elapsed, end).elapsed == elapsed,
        report(elapsed, end).detail.take(elapsed_text(elapsed).len() as int) == elapsed_text(
            elapsed,
        ),
        end == TerminationView::Exited(0) ==> report(elapsed, end).detail == elapsed_text(elapsed),
        end matches TerminationView::Exited(code) ==> code != 0 ==> report(
            elapsed,
            end,
        ).detail.skip(elapsed_text(elapsed).len() as int) == ", 退出码:"@ + signed_decimal(
            code as int,
        ),
        end == TerminationView::Killed ==> report(elapsed, end).detail.skip(
            elapsed_text(elapsed).len() as int,
        ) == ", 退出原因:被杀死"@,
{
    let time = elapsed_text(elapsed);
    let detail = report(elapsed, end).detail;
    match end {
        TerminationView::NotStarted(cause) => {
            assert(detail == time + (",失败原因:"@ + cause));
            assert(detail.take(time.len() as int) == time);
        },
        TerminationView::Exited(code) => {
            if code == 0 {
                assert(detail.take(time.len() as int) == time);
            } else {
                assert(detail == time + (", 退出码:"@ + signed_decimal(code as int)));
                assert(detail.take(time.len() as int) == time);
                assert(detail.skip(time.len() as int) == ", 退出码:"@ + signed_decimal(
                    code as int,
                ));
            }
        },
        TerminationView::Killed => {
            assert(detail.take(time.len() as int) == time);
            assert(detail.skip(time.len() as int) == ", 退出原因:被杀死"@);
        },
    }
}

/// The process that runs `cmd` with `args`: the program is started directly,
/// no shell reads the line, and nothing is added to its environment.
pub fn command_request(cmd: &str, args: &Vec<&str>) -> (request: SpawnRequest)
    ensures
        request@ == (SpawnRequestView {
            program: cmd@,
            arguments: texts(args@),
            environment: Seq::empty(),
        }),
{
    let mut arguments: Vec<String> = Vec::new();
    let mut i: usize = 0;
    while i < args.len()
        invariant
            i <= args.len(),
            arguments@.len() == i,
            forall|j: int| 0 <= j < i ==> (#[trigger] arguments@[j])@ == args@[j]@,
        decreases args.len() - i,
    {
        arguments.push(String::from_str(args[i]));
        i += 1;
    }
    let request = SpawnRequest {
        program: String::from_str(cmd),
        arguments,
        environment: Pairs::new(),
    };
    assert(request@.arguments == texts(args@));
    request
}

/// Reports the end of a command that ran for `elapsed` seconds.
pub fn command_outcome(elapsed: u64, end: Termination) -> (outcome: CommandOutcome)
    ensures
        outcome@ == report(elapsed, end@),
{
    let mut detail = String::from_str("执行用时:");
    push_decimal(&mut detail, elapsed);
    detail.append("秒");
    match end {
        Termination::NotStarted(cause) => {
            detail.append(",失败原因:");
            detail.append(cause.as_str());
            CommandOutcome { succeeded: true, elapsed, detail }
        },
        Termination::Exited(code) => {
            if code == 0 {
                CommandOutcome { succeeded: true, elapsed, detail }
            } else {
                detail.append(", 退出码:");
                push_signed(&mut detail, code);
                CommandOutcome { succeeded: false, elapsed, detail }
            }
        },
        Termination::Killed => {
            detail.append(", 退出原因:被杀死");
            CommandOutcome { succeeded: false, elapsed, detail }
        },
    }
}

} // verus!
