//! One check: the command it stands for, the arguments the command is
//! really run with, and what its outcome says.
//!
//! Running a check alternates decisions and work on the outside: counting
//! processes, running the command, sending events. The decisions are here,
//! as a function from where the run stands and what came back to where it
//! stands next and what is to be done; the caller does the work.

use std::time::Duration;
use vstd::prelude::*;
use vstd::string::StringExecFns;
use crate::display::{CheckStatus, EventView, StatusEvent, StatusView};
use crate::text::{
    add_counts, chars_of, clamp, count_occurrences, count_text, decimal_digits, extend_from,
    lemma_clamp_add, push_decimal, push_text, same_text,
};
use crate::tools::test_results::{count_tests, test_counts};

verus! {

/// The most instances of the underlying tool that may already be running
/// when a check starts.
pub const PROCESS_CEILING: usize = 50;

/// A command to run, with the markers that count as warnings in its output.
#[derive(Clone, Debug)]
pub struct StatusCheck {
    pub name: String,
    pub command: Vec<String>,
    pub warning_patterns: Vec<String>,
    pub verbose: bool,
}

/// A check with its texts as characters.
pub struct StatusCheckView {
    pub name: Seq<char>,
    pub command: Seq<Seq<char>>,
    pub warning_patterns: Seq<Seq<char>>,
    pub verbose: bool,
}

impl View for StatusCheck {
    type V = StatusCheckView;

    open spec fn view(&self) -> StatusCheckView {
        StatusCheckView {
            name: self.name@,
            command: self.command.deep_view(),
            warning_patterns: self.warning_patterns.deep_view(),
            verbose: self.verbose,
        }
    }
}

/// `args` without the arguments that force colour.
pub open spec fn without_color_flag(args: Seq<Seq<char>>) -> Seq<Seq<char>>
    decreases args.len(),
{
    if args.len() == 0 {
        Seq::empty()
    } else if args.last() == "--color=always"@ {
        without_color_flag(args.drop_last())
    } else {
        without_color_flag(args.drop_last()).push(args.last())
    }
}

/// The arguments that the program `command[0]` is run with.
///
/// For a subcommand of `cargo`, colour is forced right after the
/// subcommand, except for `fmt`, which takes no such flag, and `nextest`.
/// `nextest` gets its arguments without any colour flag, followed by the
/// flags that silence its own status lines if the check is quiet, and by
/// the colour flag if it is verbose. Any other command keeps its arguments.
pub open spec fn effective_arguments(command: Seq<Seq<char>>, verbose: bool) -> Seq<Seq<char>>
    recommends
        command.len() > 0,
{
    if command[0] == "cargo"@ && command.len() > 1 {
        if command[1] == "nextest"@ {
            seq![command[1]] + without_color_flag(command.skip(2)) + (if verbose {
                seq!["--color=always"@]
            } else {
                seq!["--status-level"@, "none"@, "--cargo-quiet"@]
            })
        } else if command[1] != "fmt"@ {
            seq![command[1], "--color=always"@] + command.skip(2)
        } else {
            command.skip(1)
        }
    } else {
        command.skip(1)
    }
}

/// The occurrences of all the markers in `text`, added up.
pub open spec fn marker_total(patterns: Seq<Seq<char>>, text: Seq<char>) -> nat
    decreases patterns.len(),
{
    if patterns.len() == 0 {
        0
    } else {
        marker_total(patterns.drop_last(), text) + count_text(text, patterns.last())
    }
}

/// The occurrences of the two error markers in `text`, added up.
pub open spec fn error_total(text: Seq<char>) -> nat {
    count_text(text, "error:"@) + count_text(text, "error["@)
}

/// The failed tests that count for the check `name`: those that the output
/// reports if the check is the test tool, none otherwise.
pub open spec fn failed_tests(name: Seq<char>, text: Seq<char>) -> usize {
    if name == "Test"@ {
        test_counts(text).1
    } else {
        0
    }
}

/// The status of a check that ran to its end.
///
/// It is an error if the command failed, if an error marker occurs, or if a
/// test failed; the errors are the markers and the failed tests together.
/// Otherwise it is a warning if a warning marker occurs, and a success if
/// none does. Counts too large for a `usize` are held at the largest.
pub open spec fn classified(
    name: Seq<char>,
    patterns: Seq<Seq<char>>,
    success: bool,
    text: Seq<char>,
    duration: Duration,
) -> StatusView {
    let warnings = clamp(marker_total(patterns, text));
    let errors = clamp(error_total(text));
    let failed = failed_tests(name, text);
    if !success || errors > 0 || failed > 0 {
        StatusView::Error { errors: clamp((errors + failed) as nat), warnings, duration }
    } else if warnings > 0 {
        StatusView::Warning { warnings, duration }
    } else {
        StatusView::Success { warnings: 0, duration }
    }
}

/// What is said of a check that was not run because too many instances of
/// the tool were running.
pub open spec fn overload_reason(count: usize) -> Seq<char> {
    "Too many cargo processes detected ("@ + decimal_digits(count as nat)
        + "), aborting to prevent system overload"@
}

/// What is said of a check whose command could not be run.
pub open spec fn spawn_failure_reason(error: Seq<char>) -> Seq<char> {
    "Failed to run command: "@ + error
}

impl StatusCheck {
    /// A quiet check called `name` that runs `command` and counts
    /// `warning` as its only warning marker.
    pub fn new(name: &str, command: Vec<String>) -> (check: Self)
        ensures
            check.name@ == name@,
            check.command == command,
            check.warning_patterns.deep_view() == seq!["warning"@],
            !check.verbose,
    {
        let mut warning_patterns: Vec<String> = Vec::new();
        push_text(&mut warning_patterns, "warning");
        StatusCheck { name: String::from_str(name), command, warning_patterns, verbose: false }
    }

    /// The check with `patterns` as its warning markers.
    pub fn with_warning_patterns(self, patterns: Vec<String>) -> (check: Self)
        ensures
            check.name == self.name,
            check.command == self.command,
            check.warning_patterns == patterns,
            check.verbose == self.verbose,
    {
        StatusCheck {
            name: self.name,
            command: self.command,
            warning_patterns: patterns,
            verbose: self.verbose,
        }
    }

    /// The check, verbose or quiet.
    pub fn with_verbose(self, verbose: bool) -> (check: Self)
        ensures
            check.name == self.name,
            check.command == self.command,
            check.warning_patterns == self.warning_patterns,
            check.verbose == verbose,
    {
        StatusCheck {
            name: self.name,
            command: self.command,
            warning_patterns: self.warning_patterns,
            verbose,
        }
    }

    /// The arguments that the check's program is run with.
    pub fn effective_args(&self) -> (args: Vec<String>)
        requires
            self.command.len() > 0,
        ensures
            args.deep_view() == effective_arguments(self.command.deep_view(), self.verbose),
    {
        let ghost command = self.command.deep_view();
        let mut args: Vec<String> = Vec::new();
        if same_text(self.command[0].as_str(), "cargo") && self.command.len() > 1 {
            push_text(&mut args, self.command[1].as_str());
            if same_text(self.command[1].as_str(), "nextest") {
                let mut i: usize = 2;
                while i < self.command.len()
                    invariant
                        2 <= i <= self.command.len(),
                        command == self.command.deep_view(),
                        args.deep_view() == seq![command[1]] + without_color_flag(
                            command.skip(2).take(i - 2),
                        ),
                    decreases self.command.len() - i,
                {
                    proof {
                        assert(command.skip(2).take(i - 2 + 1).drop_last() =~= command.skip(
                            2,
                        ).take(i - 2));
                    }
                    if !same_text(self.command[i].as_str(), "--color=always") {
                        push_text(&mut args, self.command[i].as_str());
                    }
                    i += 1;
                }
                assert(command.skip(2).take(self.command.len() - 2) =~= command.skip(2));
                if !self.verbose {
                    push_text(&mut args, "--status-level");
                    push_text(&mut args, "none");
                    push_text(&mut args, "--cargo-quiet");
                } else {
                    push_text(&mut args, "--color=always");
                }
            } else if !same_text(self.command[1].as_str(), "fmt") {
                push_text(&mut args, "--color=always");
                extend_from(&mut args, self.command.as_slice(), 2);
            } else {
                extend_from(&mut args, self.command.as_slice(), 2);
            }
        } else {
            extend_from(&mut args, self.command.as_slice(), 1);
        }
        args
    }

    /// The occurrences of the check's warning markers in `text`, added up.
    pub fn count_warnings(&self, text: &[char]) -> (n: usize)
        ensures
            n == clamp(marker_total(self.warning_patterns.deep_view(), text@)),
    {
        let ghost patterns = self.warning_patterns.deep_view();
        let mut n: usize = 0;
        let mut i: usize = 0;
        while i < self.warning_patterns.len()
            invariant
                i <= self.warning_patterns.len(),
                patterns == self.warning_patterns.deep_view(),
                n == clamp(marker_total(patterns.take(i as int), text@)),
            decreases self.warning_patterns.len() - i,
        {
            let pattern = chars_of(self.warning_patterns[i].as_str());
            let c = count_occurrences(text, pattern.as_slice());
            proof {
                assert(patterns.take(i + 1).drop_last() =~= patterns.take(i as int));
                lemma_clamp_add(
                    marker_total(patterns.take(i as int), text@),
                    count_text(text@, pattern@),
                );
            }
            n = add_counts(n, c);
            i += 1;
        }
        assert(patterns.take(self.warning_patterns.len() as int) =~= patterns);
        n
    }

    /// The status of the check after its command ran to the end: `success`
    /// says whether it exited with success, `output` is what it printed,
    /// and `duration` how long it took.
    pub fn classify(&self, success: bool, output: &str, duration: Duration) -> (status: CheckStatus)
        ensures
            status@ == classified(
                self.name@,
                self.warning_patterns.deep_view(),
                success,
                output@,
                duration,
            ),
    {
        let chars = chars_of(output);
        let text = chars.as_slice();
        let warnings = self.count_warnings(text);
        let colon = chars_of("error:");
        let bracket = chars_of("error[");
        let errors = add_counts(
            count_occurrences(text, colon.as_slice()),
            count_occurrences(text, bracket.as_slice()),
        );
        proof {
            lemma_clamp_add(count_text(text@, "error:"@), count_text(text@, "error["@));
        }
        let failed: usize = if same_text(self.name.as_str(), "Test") {
            count_tests(text).1
        } else {
            0
        };
        if !success || errors > 0 || failed > 0 {
            CheckStatus::Error { errors: add_counts(errors, failed), warnings, duration }
        } else if warnings > 0 {
            CheckStatus::Warning { warnings, duration }
        } else {
            CheckStatus::Success { warnings: 0, duration }
        }
    }
}

/// The status of a check that is not run because `count` instances of the
/// tool are running already.
pub fn overloaded(count: usize, duration: Duration) -> (status: CheckStatus)
    ensures
        status@ == (StatusView::Failed { reason: overload_reason(count), duration }),
{
    let mut reason = String::from_str("Too many cargo processes detected (");
    push_decimal(&mut reason, count);
    reason.append("), aborting to prevent system overload");
    CheckStatus::Failed { reason, duration }
}

/// The status of a check whose command could not be run, with what the
/// system said of it.
pub fn spawn_failed(error: &str, duration: Duration) -> (status: CheckStatus)
    ensures
        status@ == (StatusView::Failed { reason: spawn_failure_reason(error@), duration }),
{
    let mut reason = String::from_str("Failed to run command: ");
    reason.append(error);
    CheckStatus::Failed { reason, duration }
}

/// Where the run of one check stands.
#[derive(Debug, Clone, Copy, PartialEq, Eq)]
pub enum RunnerState {
    /// Nothing has happened yet.
    Ready,
    /// The running instances of the tool are being counted.
    Guarding,
    /// The command runs with its output going straight to the terminal.
    Streaming,
    /// The command runs with its output captured. `streamed` holds how the
    /// run to the terminal ended, if there was one before.
    Capturing { streamed: Option<bool> },
    /// The check has its final status.
    Done,
}

/// What came back from the outside.
#[derive(Debug)]
pub enum RunnerInput {
    /// The check is to start.
    Begin,
    /// The number of instances of the tool that are running, if it could be
    /// found out.
    ProcessCount { count: Option<usize>, elapsed: Duration },
    /// The run to the terminal is over: whether the command succeeded, or
    /// why it could not be run.
    Streamed { exit: Result<bool, String>, elapsed: Duration },
    /// The captured run is over: whether the command succeeded and what it
    /// printed, or why it could not be run.
    Captured { exit: Result<bool, String>, output: String, elapsed: Duration },
}

/// What the caller is to do next.
#[derive(Debug)]
pub enum RunnerAction {
    /// Send the event to the display.
    Emit { event: StatusEvent },
    /// Count the running instances of the tool and answer with
    /// `ProcessCount`.
    CountProcesses,
    /// Run the program with its output going to the terminal and answer
    /// with `Streamed`.
    RunStreaming { program: String, args: Vec<String> },
    /// Run the program, capture what it prints and answer with `Captured`.
    RunCaptured { program: String, args: Vec<String> },
    /// Hand the status back as the result of the check.
    Finish { status: CheckStatus },
}

/// An action with its texts as characters.
pub enum RunnerActionView {
    Emit { event: EventView },
    CountProcesses,
    RunStreaming { program: Seq<char>, args: Seq<Seq<char>> },
    RunCaptured { program: Seq<char>, args: Seq<Seq<char>> },
    Finish { status: StatusView },
}

impl View for RunnerAction {
    type V = RunnerActionView;

    open spec fn view(&self) -> RunnerActionView {
        match *self {
            RunnerAction::Emit { event } => RunnerActionView::Emit { event: event@ },
            RunnerAction::CountProcesses => RunnerActionView::CountProcesses,
            RunnerAction::RunStreaming { program, args } => RunnerActionView::RunStreaming {
                program: program@,
                args: args.deep_view(),
            },
            RunnerAction::RunCaptured { program, args } => RunnerActionView::RunCaptured {
                program: program@,
                args: args.deep_view(),
            },
            RunnerAction::Finish { status } => RunnerActionView::Finish { status: status@ },
        }
    }
}

/// The actions, each with its texts as characters.
pub open spec fn action_views(actions: Seq<RunnerAction>) -> Seq<RunnerActionView> {
    actions.map_values(|a: RunnerAction| a@)
}

/// The actions that end a check with `status`: the completion is sent to
/// the display, then the status is handed back.
pub open spec fn finishing(name: Seq<char>, status: StatusView) -> Seq<RunnerActionView> {
    seq![
        RunnerActionView::Emit { event: EventView::CheckCompleted { name, status } },
        RunnerActionView::Finish { status },
    ]
}

/// The final status that an input brings to a check in `state`, if it
/// brings one.
///
/// While the tool's instances are counted: a count above the ceiling fails
/// the check. While the command runs to the terminal: it fails if the
/// command could not be run. While the command runs captured: a quiet check
/// fails if the command could not be run, and is classified by its exit and
/// output otherwise; a verbose check is classified by the exit of the run
/// to the terminal and the captured output, which is empty if the second
/// run could not be had.
pub open spec fn final_status(check: StatusCheck, state: RunnerState, input: RunnerInput) -> Option<
    StatusView,
> {
    let name = check.name@;
    let patterns = check.warning_patterns.deep_view();
    match (state, input) {
        (RunnerState::Guarding, RunnerInput::ProcessCount { count: Some(c), elapsed }) => {
            if c > PROCESS_CEILING {
                Some(StatusView::Failed { reason: overload_reason(c), duration: elapsed })
            } else {
                None
            }
        },
        (RunnerState::Streaming, RunnerInput::Streamed { exit: Err(e), elapsed }) => Some(
            StatusView::Failed { reason: spawn_failure_reason(e@), duration: elapsed },
        ),
        (
            RunnerState::Capturing { streamed: None },
            RunnerInput::Captured { exit: Ok(success), output, elapsed },
        ) => Some(classified(name, patterns, success, output@, elapsed)),
        (
            RunnerState::Capturing { streamed: None },
            RunnerInput::Captured { exit: Err(e), output, elapsed },
        ) => Some(StatusView::Failed { reason: spawn_failure_reason(e@), duration: elapsed }),
        (
            RunnerState::Capturing { streamed: Some(success) },
            RunnerInput::Captured { exit: Ok(_), output, elapsed },
        ) => Some(classified(name, patterns, success, output@, elapsed)),
        (
            RunnerState::Capturing { streamed: Some(success) },
            RunnerInput::Captured { exit: Err(_), output, elapsed },
        ) => Some(classified(name, patterns, success, Seq::empty(), elapsed)),
        _ => None,
    }
}

/// Where the run stands after an input.
///
/// The start leads to the count of the tool's instances. A count that does
/// not fail the check leads to the run: to the terminal first for a verbose
/// check, captured at once for a quiet one. A run to the terminal that
/// could be had leads to the captured run. Whatever brings a final status
/// ends the run. An input that does not belong to the state changes
/// nothing.
pub open spec fn next_state(check: StatusCheck, state: RunnerState, input: RunnerInput) -> RunnerState {
    if final_status(check, state, input) is Some {
        RunnerState::Done
    } else {
        match (state, input) {
            (RunnerState::Ready, RunnerInput::Begin) => RunnerState::Guarding,
            (RunnerState::Guarding, RunnerInput::ProcessCount { .. }) => {
                if check.verbose {
                    RunnerState::Streaming
                } else {
                    RunnerState::Capturing { streamed: None }
                }
            },
            (RunnerState::Streaming, RunnerInput::Streamed { exit: Ok(success), .. }) => {
                RunnerState::Capturing { streamed: Some(success) }
            },
            _ => state,
        }
    }
}

/// What is to be done after an input, in order.
///
/// The start sends that the check has started and that it is executing,
/// and asks for the count. Whatever brings a final status sends the
/// completion and hands the status back. Entering a run asks for that run,
/// with the check's program and effective arguments. An input that does not
/// belong to the state asks for nothing.
pub open spec fn next_actions(check: StatusCheck, state: RunnerState, input: RunnerInput) -> Seq<
    RunnerActionView,
> {
    let program = check.command[0]@;
    let args = effective_arguments(check.command.deep_view(), check.verbose);
    match final_status(check, state, input) {
        Some(status) => finishing(check.name@, status),
        None => match (state, input) {
            (RunnerState::Ready, RunnerInput::Begin) => seq![
                RunnerActionView::Emit { event: EventView::CheckStarted { name: check.name@ } },
                RunnerActionView::Emit {
                    event: EventView::CheckProgress {
                        name: check.name@,
                        message: "executing..."@,
                    },
                },
                RunnerActionView::CountProcesses,
            ],
            (RunnerState::Guarding, RunnerInput::ProcessCount { .. }) => {
                if check.verbose {
                    seq![RunnerActionView::RunStreaming { program, args }]
                } else {
                    seq![RunnerActionView::RunCaptured { program, args }]
                }
            },
            (RunnerState::Streaming, RunnerInput::Streamed { exit: Ok(_), .. }) => seq![
                RunnerActionView::RunCaptured { program, args },
            ],
            _ => Seq::empty(),
        },
    }
}

impl StatusCheck {
    /// The actions that end the check with `status`.
    pub fn finish(&self, status: CheckStatus) -> (actions: Vec<RunnerAction>)
        ensures
            action_views(actions@) == finishing(self.name@, status@),
    {
        let mut actions: Vec<RunnerAction> = Vec::new();
        let shown = status.duplicate();
        actions.push(
            RunnerAction::Emit {
                event: StatusEvent::CheckCompleted { name: self.name.clone(), status: shown },
            },
        );
        actions.push(RunnerAction::Finish { status });
        actions
    }

    /// The action that runs the check's command, to the terminal or
    /// captured.
    pub fn launch(&self, streaming: bool) -> (actions: Vec<RunnerAction>)
        requires
            self.command.len() > 0,
        ensures
            action_views(actions@) == if streaming {
                seq![
                    RunnerActionView::RunStreaming {
                        program: self.command[0]@,
                        args: effective_arguments(self.command.deep_view(), self.verbose),
                    },
                ]
            } else {
                seq![
                    RunnerActionView::RunCaptured {
                        program: self.command[0]@,
                        args: effective_arguments(self.command.deep_view(), self.verbose),
                    },
                ]
            },
    {
        let program = self.command[0].clone();
        let args = self.effective_args();
        let mut actions: Vec<RunnerAction> = Vec::new();
        if streaming {
            actions.push(RunnerAction::RunStreaming { program, args });
        } else {
            actions.push(RunnerAction::RunCaptured { program, args });
        }
        actions
    }

    /// Takes the run of the check one step on: from where it stands and
    /// what came back from the outside to where it stands next and what is
    /// to be done, in order.
    pub fn advance(&self, state: RunnerState, input: RunnerInput) -> (next: (
        RunnerState,
        Vec<RunnerAction>,
    ))
        requires
            self.command.len() > 0,
        ensures
            next.0 == next_state(*self, state, input),
            action_views(next.1@) == next_actions(*self, state, input),
    {
        match (state, input) {
            (RunnerState::Ready, RunnerInput::Begin) => {
                let mut actions: Vec<RunnerAction> = Vec::new();
                actions.push(
                    RunnerAction::Emit {
                        event: StatusEvent::CheckStarted { name: self.name.clone() },
                    },
                );
                actions.push(
                    RunnerAction::Emit {
                        event: StatusEvent::CheckProgress {
                            name: self.name.clone(),
                            message: String::from_str("executing..."),
                        },
                    },
                );
                actions.push(RunnerAction::CountProcesses);
                (RunnerState::Guarding, actions)
            },
            (RunnerState::Guarding, RunnerInput::ProcessCount { count, elapsed }) => {
                let over: Option<usize> = match count {
                    Some(c) => if c > PROCESS_CEILING {
                        Some(c)
                    } else {
                        None
                    },
                    None => None,
                };
                match over {
                    Some(c) => (RunnerState::Done, self.finish(overloaded(c, elapsed))),
                    None => {
                        if self.verbose {
                            (RunnerState::Streaming, self.launch(true))
                        } else {
                            (RunnerState::Capturing { streamed: None }, self.launch(false))
                        }
                    },
                }
            },
            (RunnerState::Streaming, RunnerInput::Streamed { exit, elapsed }) => {
                match exit {
                    Ok(success) => (
                        RunnerState::Capturing { streamed: Some(success) },
                        self.launch(false),
                    ),
                    Err(e) => (RunnerState::Done, self.finish(spawn_failed(e.as_str(), elapsed))),
                }
            },
            (RunnerState::Capturing { streamed }, RunnerInput::Captured { exit, output, elapsed }) => {
                let status = match (streamed, exit) {
                    (None, Ok(success)) => self.classify(success, output.as_str(), elapsed),
                    (None, Err(e)) => spawn_failed(e.as_str(), elapsed),
                    (Some(success), Ok(_)) => self.classify(success, output.as_str(), elapsed),
                    (Some(success), Err(_)) => {
                        let nothing = String::new();
                        self.classify(success, nothing.as_str(), elapsed)
                    },
                };
                (RunnerState::Done, self.finish(status))
            },
            (state, _) => {
                let actions: Vec<RunnerAction> = Vec::new();
                (state, actions)
            },
        }
    }
}

} // verus!
