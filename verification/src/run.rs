//! The order of a run: check the repository, look up the remote branch's
//! revision, point the local branch at it, report.
//!
//! The caller runs each git command and hands back how it ended; the
//! functions here say what is printed then and what comes next. The lines of
//! a step are printed before its action is taken.

use vstd::prelude::*;
use vstd::string::*;
use crate::cli::{option_table, texts, usage, usage_brief, usage_head, usage_text};
use crate::config::{
    invocation_of, summary_text, FoundOptionsView, Invocation, InvocationView, RunConfig,
    RunConfigView,
};
use crate::git::{
    rev_list_args, rev_list_command, rev_parse_args, rev_parse_command, remote_name,
    update_ref_args, update_ref_command,
};

verus! {

/// Which command's outcome a run is waiting for.
#[derive(Debug, Clone, Copy, PartialEq, Eq)]
pub enum Phase {
    CheckingRepo,
    ResolvingRevision,
    UpdatingRef,
    Finished,
}

/// What the caller does after printing a step's lines.
#[derive(Debug, Clone, PartialEq, Eq)]
pub enum Action {
    /// Run git with these arguments; only its exit status is needed.
    Status(Vec<String>),
    /// Run git with these arguments and capture both of its streams.
    Capture(Vec<String>),
    /// Nothing: the run is over.
    Finish,
}

/// An action with its arguments as texts.
pub enum ActionView {
    Status(Seq<Seq<char>>),
    Capture(Seq<Seq<char>>),
    Finish,
}

impl View for Action {
    type V = ActionView;

    open spec fn view(&self) -> ActionView {
        match self {
            Action::Status(args) => ActionView::Status(texts(args@)),
            Action::Capture(args) => ActionView::Capture(texts(args@)),
            Action::Finish => ActionView::Finish,
        }
    }
}

/// How a git command ended. The streams are empty where they were not
/// captured.
#[derive(Debug, Clone, PartialEq, Eq)]
pub struct CommandResult {
    pub success: bool,
    pub stdout: String,
    pub stderr: String,
}

/// A command's outcome with its streams as texts.
pub struct CommandResultView {
    pub success: bool,
    pub stdout: Seq<char>,
    pub stderr: Seq<char>,
}

impl View for CommandResult {
    type V = CommandResultView;

    open spec fn view(&self) -> CommandResultView {
        CommandResultView { success: self.success, stdout: self.stdout@, stderr: self.stderr@ }
    }
}

/// One step of a run: the lines to print, then the action to take, and the
/// phase the run is in while the action is under way.
#[derive(Debug, Clone, PartialEq, Eq)]
pub struct Step {
    pub lines: Vec<String>,
    pub action: Action,
    pub phase: Phase,
}

/// A step with its lines and its action's arguments as texts.
pub struct StepView {
    pub lines: Seq<Seq<char>>,
    pub action: ActionView,
    pub phase: Phase,
}

impl View for Step {
    type V = StepView;

    open spec fn view(&self) -> StepView {
        StepView { lines: texts(self.lines@), action: self.action@, phase: self.phase }
    }
}

/// The step that ends a run with the given lines.
pub open spec fn last_step(lines: Seq<Seq<char>>) -> StepView {
    StepView { lines, action: ActionView::Finish, phase: Phase::Finished }
}

/// The first step of an invocation. Help prints the usage text and ends; a
/// run starts, silently, with the repository check.
pub open spec fn first_step(inv: InvocationView, program: Seq<char>) -> StepView {
    match inv {
        InvocationView::Help => last_step(seq![usage_text(option_table(), usage_brief(program))]),
        InvocationView::Run(_) => StepView {
            lines: Seq::empty(),
            action: ActionView::Status(rev_parse_command()),
            phase: Phase::CheckingRepo,
        },
    }
}

/// The step that follows the outcome of the command of `phase`. A failed
/// lookup prints what the command wrote to its error stream; the label in
/// front of it reads `stdout:` all the same.
pub open spec fn next_step(
    config: RunConfigView,
    phase: Phase,
    result: CommandResultView,
) -> StepView {
    match phase {
        Phase::CheckingRepo => if result.success {
            StepView {
                lines: Seq::empty(),
                action: ActionView::Capture(rev_list_command(remote_name(), config.branch)),
                phase: Phase::ResolvingRevision,
            }
        } else {
            last_step(seq!["check repo failed."@])
        },
        Phase::ResolvingRevision => if result.success {
            StepView {
                lines: seq!["rev:"@ + result.stdout],
                action: ActionView::Status(update_ref_command(config.branch, result.stdout)),
                phase: Phase::UpdatingRef,
            }
        } else {
            last_step(seq!["stdout:"@ + result.stderr, "rebase failed."@])
        },
        Phase::UpdatingRef => if result.success {
            last_step(seq![summary_text(config)])
        } else {
            last_step(seq!["rebase failed."@])
        },
        Phase::Finished => last_step(Seq::empty()),
    }
}

/// The number of commands that a run in `phase` may still issue, the one
/// under way included.
pub open spec fn commands_left(phase: Phase) -> nat {
    match phase {
        Phase::CheckingRepo => 3,
        Phase::ResolvingRevision => 2,
        Phase::UpdatingRef => 1,
        Phase::Finished => 0,
    }
}

fn finish(lines: Vec<String>) -> (step: Step)
    ensures
        step@ == last_step(texts(lines@)),
{
    Step { lines, action: Action::Finish, phase: Phase::Finished }
}

fn one_line(line: String) -> (lines: Vec<String>)
    ensures
        texts(lines@) == seq![line@],
{
    let mut lines: Vec<String> = Vec::new();
    lines.push(line);
    assert(texts(lines@) =~= seq![line@]);
    lines
}

fn no_lines() -> (lines: Vec<String>)
    ensures
        texts(lines@) == Seq::<Seq<char>>::empty(),
{
    let lines: Vec<String> = Vec::new();
    assert(texts(lines@) =~= Seq::<Seq<char>>::empty());
    lines
}

/// Starts an invocation of the program called `program`. For a request for
/// help the one line of the step is the usage text, which starts with the
/// banner that names the program.
pub fn begin(inv: &Invocation, program: &str) -> (step: Step)
    ensures
        step@ == first_step(inv@, program@),
        inv@ is Help ==> usage_head(program@).is_prefix_of(step@.lines[0]),
{
    match inv {
        Invocation::Help => {
            let text = usage(program);
            finish(one_line(text))
        },
        Invocation::Run(_) => Step {
            lines: no_lines(),
            action: Action::Status(rev_parse_args()),
            phase: Phase::CheckingRepo,
        },
    }
}

/// Takes the outcome of the command that was issued in `phase` and gives the
/// next step of the run.
pub fn advance(config: &RunConfig, phase: Phase, result: &CommandResult) -> (step: Step)
    ensures
        step@ == next_step(config@, phase, result@),
{
    match phase {
        Phase::CheckingRepo => {
            if result.success {
                Step {
                    lines: no_lines(),
                    action: Action::Capture(rev_list_args("origin", config.branch.as_str())),
                    phase: Phase::ResolvingRevision,
                }
            } else {
                finish(one_line(String::from_str("check repo failed.")))
            }
        },
        Phase::ResolvingRevision => {
            if result.success {
                let mut line = String::from_str("rev:");
                line.append(result.stdout.as_str());
                Step {
                    lines: one_line(line),
                    action: Action::Status(
                        update_ref_args(config.branch.as_str(), result.stdout.as_str()),
                    ),
                    phase: Phase::UpdatingRef,
                }
            } else {
                let mut line = String::from_str("stdout:");
                line.append(result.stderr.as_str());
                let mut lines: Vec<String> = Vec::new();
                lines.push(line);
                lines.push(String::from_str("rebase failed."));
                assert(texts(lines@) =~= seq!["stdout:"@ + result.stderr@, "rebase failed."@]);
                finish(lines)
            }
        },
        Phase::UpdatingRef => {
            if result.success {
                finish(one_line(config.summary()))
            } else {
                finish(one_line(String::from_str("rebase failed.")))
            }
        },
        Phase::Finished => finish(no_lines()),
    }
}

/// A command line with the help flag prints the usage text and issues no
/// command, whatever its other options hold.
pub proof fn help_issues_no_command(found: FoundOptionsView, program: Seq<char>)
    requires
        found.help,
    ensures
        first_step(invocation_of(found), program) == last_step(
            seq![usage_text(option_table(), usage_brief(program))],
        ),
{
}

/// A run without the help flag prints nothing before the repository check.
pub proof fn run_starts_with_repository_check(found: FoundOptionsView, program: Seq<char>)
    requires
        !found.help,
    ensures
        first_step(invocation_of(found), program) == (StepView {
            lines: Seq::empty(),
            action: ActionView::Status(rev_parse_command()),
            phase: Phase::CheckingRepo,
        }),
{
}

/// Where the repository check fails, the run prints one line and ends: no
/// lookup, no update and no summary follow.
pub proof fn failed_check_ends_run(config: RunConfigView, result: CommandResultView)
    requires
        !result.success,
    ensures
        next_step(config, Phase::CheckingRepo, result) == last_step(seq!["check repo failed."@]),
{
}

/// Where the check succeeds, the run goes on, silently, to the lookup of the
/// configured branch on the remote `origin`.
pub proof fn passed_check_leads_to_lookup(config: RunConfigView, result: CommandResultView)
    requires
        result.success,
    ensures
        next_step(config, Phase::CheckingRepo, result) == (StepView {
            lines: Seq::empty(),
            action: ActionView::Capture(
                seq!["rev-list"@, "--max-count=1"@, "origin"@ + "/"@ + config.branch],
            ),
            phase: Phase::ResolvingRevision,
        }),
{
}

/// Where the revision lookup fails, the run prints what the command wrote to
/// its error stream, under the label `stdout:`, then `rebase failed.`, and
/// ends without a summary.
pub proof fn failed_lookup_ends_run(config: RunConfigView, result: CommandResultView)
    requires
        !result.success,
    ensures
        next_step(config, Phase::ResolvingRevision, result) == last_step(
            seq!["stdout:"@ + result.stderr, "rebase failed."@],
        ),
{
}

/// Where the revision lookup succeeds, the revision is printed after `rev:`,
/// as it was read, in the step whose action is the update of the local
/// branch: the line comes before the update.
pub proof fn revision_is_printed_before_update(config: RunConfigView, result: CommandResultView)
    requires
        result.success,
    ensures
        next_step(config, Phase::ResolvingRevision, result) == (StepView {
            lines: seq!["rev:"@ + result.stdout],
            action: ActionView::Status(
                seq!["update-ref"@, "refs/heads/"@ + config.branch, result.stdout],
            ),
            phase: Phase::UpdatingRef,
        }),
{
}

/// Where the update of the local branch fails, the run prints
/// `rebase failed.` and ends without a summary.
pub proof fn failed_update_ends_run(config: RunConfigView, result: CommandResultView)
    requires
        !result.success,
    ensures
        next_step(config, Phase::UpdatingRef, result) == last_step(seq!["rebase failed."@]),
{
}

/// Where the update succeeds, the run ends with the summary line of its
/// configuration, and prints nothing else in that step.
pub proof fn successful_run_ends_with_summary(config: RunConfigView, result: CommandResultView)
    requires
        result.success,
    ensures
        next_step(config, Phase::UpdatingRef, result) == last_step(seq![summary_text(config)]),
{
}

/// Every outcome brings a run closer to its end: an unfinished run has fewer
/// commands left after each step, a step asks for a command exactly where the
/// run is not finished, and a finished run stays finished and silent.
pub proof fn every_step_nears_the_end(
    config: RunConfigView,
    phase: Phase,
    result: CommandResultView,
)
    ensures
        phase != Phase::Finished ==> commands_left(next_step(config, phase, result).phase)
            < commands_left(phase),
        next_step(config, phase, result).action is Finish <==> next_step(
            config,
            phase,
            result,
        ).phase == Phase::Finished,
        phase == Phase::Finished ==> next_step(config, phase, result) == last_step(Seq::empty()),
{
}

/// The local branch is touched at most once in a run, and only after the
/// lookup of the remote's revision succeeded: no other outcome leads to the
/// update.
pub proof fn update_only_after_successful_lookup(
    config: RunConfigView,
    phase: Phase,
    result: CommandResultView,
)
    ensures
        next_step(config, phase, result).phase == Phase::UpdatingRef <==> phase
            == Phase::ResolvingRevision && result.success,
        next_step(config, phase, result).phase == Phase::ResolvingRevision <==> phase
            == Phase::CheckingRepo && result.success,
        next_step(config, phase, result).phase != Phase::CheckingRepo,
{
}

/// A run in which all three commands succeed prints two lines in all: the
/// revision after `rev:`, then the summary of its configuration.
pub proof fn successful_run_prints_revision_then_summary(
    config: RunConfigView,
    check: CommandResultView,
    lookup: CommandResultView,
    update: CommandResultView,
)
    requires
        check.success,
        lookup.success,
        update.success,
    ensures
        ({
            let first = next_step(config, Phase::CheckingRepo, check);
            let second = next_step(config, first.phase, lookup);
            let third = next_step(config, second.phase, update);
            &&& first.lines + second.lines + third.lines == seq![
                "rev:"@ + lookup.stdout,
                summary_text(config),
            ]
            &&& third.action is Finish
        }),
{
    let first = next_step(config, Phase::CheckingRepo, check);
    let second = next_step(config, first.phase, lookup);
    let third = next_step(config, second.phase, update);
    assert(first.lines + second.lines + third.lines =~= seq![
        "rev:"@ + lookup.stdout,
        summary_text(config),
    ]);
}

/// A run whose lookup fails after a passed repository check prints two lines
/// in all, the diagnostic and `rebase failed.`, and issues no update.
pub proof fn run_with_failed_lookup_prints_diagnostic_only(
    config: RunConfigView,
    check: CommandResultView,
    lookup: CommandResultView,
)
    requires
        check.success,
        !lookup.success,
    ensures
        ({
            let first = next_step(config, Phase::CheckingRepo, check);
            let second = next_step(config, first.phase, lookup);
            &&& first.lines + second.lines == seq!["stdout:"@ + lookup.stderr, "rebase failed."@]
            &&& second.action is Finish
        }),
{
    let first = next_step(config, Phase::CheckingRepo, check);
    let second = next_step(config, first.phase, lookup);
    assert(first.lines + second.lines =~= seq!["stdout:"@ + lookup.stderr, "rebase failed."@]);
}

} // verus!
