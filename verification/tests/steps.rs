use code_pages::cli::{parse_args, usage};
use code_pages::config::{Invocation, RunConfig};
use code_pages::git::{rev_list_args, rev_parse_args, update_ref_args};
use code_pages::run::{advance, begin, Action, CommandResult, Phase, Step};

fn texts(list: &[&str]) -> Vec<String> {
    list.iter().map(|s| s.to_string()).collect()
}

fn ended(success: bool, stdout: &str, stderr: &str) -> CommandResult {
    CommandResult { success, stdout: stdout.to_string(), stderr: stderr.to_string() }
}

fn last(lines: &[&str]) -> Step {
    Step { lines: texts(lines), action: Action::Finish, phase: Phase::Finished }
}

fn config_of(list: &[&str]) -> RunConfig {
    match parse_args(&texts(list)) {
        Ok(Invocation::Run(config)) => config,
        other => panic!("no run: {:?}", other),
    }
}

/// Plays a run against the given outcomes and returns what it printed and
/// the commands it issued.
fn play(list: &[&str], outcomes: &[CommandResult]) -> (Vec<String>, Vec<Vec<String>>) {
    let inv = parse_args(&texts(list)).unwrap();
    let mut step = begin(&inv, "publish");
    let mut printed = Vec::new();
    let mut issued = Vec::new();
    let mut next = 0;
    loop {
        printed.extend(step.lines.iter().cloned());
        let config = match &inv {
            Invocation::Run(config) => config.clone(),
            Invocation::Help => RunConfig::defaults(),
        };
        match &step.action {
            Action::Finish => return (printed, issued),
            Action::Status(args) | Action::Capture(args) => issued.push(args.clone()),
        }
        step = advance(&config, step.phase, &outcomes[next]);
        next += 1;
    }
}

#[test]
fn git_argument_lists() {
    assert_eq!(rev_parse_args(), texts(&["rev-parse"]));
    assert_eq!(
        rev_list_args("origin", "code-pages"),
        texts(&["rev-list", "--max-count=1", "origin/code-pages"])
    );
    assert_eq!(
        rev_list_args("up stream", ""),
        texts(&["rev-list", "--max-count=1", "up stream/"])
    );
    assert_eq!(
        update_ref_args("gh-pages", "abc123\n"),
        texts(&["update-ref", "refs/heads/gh-pages", "abc123\n"])
    );
}

#[test]
fn help_prints_usage_and_issues_nothing() {
    let step = begin(&Invocation::Help, "publish");
    assert_eq!(step, last(&[usage("publish").as_str()]));
    let (printed, issued) = play(&["-h", "-b", "gh-pages", "--push"], &[]);
    assert_eq!(printed, vec![usage("publish")]);
    assert!(issued.is_empty());
}

#[test]
fn a_run_begins_with_the_repository_check() {
    let step = begin(&Invocation::Run(RunConfig::defaults()), "publish");
    assert_eq!(
        step,
        Step {
            lines: Vec::new(),
            action: Action::Status(texts(&["rev-parse"])),
            phase: Phase::CheckingRepo,
        }
    );
}

#[test]
fn failed_repository_check_ends_the_run() {
    let config = RunConfig::defaults();
    let step = advance(&config, Phase::CheckingRepo, &ended(false, "", ""));
    assert_eq!(step, last(&["check repo failed."]));
    let (printed, issued) = play(&[], &[ended(false, "", "fatal: not a git repository")]);
    assert_eq!(printed, texts(&["check repo failed."]));
    assert_eq!(issued, vec![texts(&["rev-parse"])]);
}

#[test]
fn passed_repository_check_leads_to_the_lookup() {
    let config = config_of(&["-b", "gh-pages"]);
    let step = advance(&config, Phase::CheckingRepo, &ended(true, "", ""));
    assert_eq!(
        step,
        Step {
            lines: Vec::new(),
            action: Action::Capture(texts(&["rev-list", "--max-count=1", "origin/gh-pages"])),
            phase: Phase::ResolvingRevision,
        }
    );
}

#[test]
fn failed_lookup_prints_the_diagnostic_and_ends_the_run() {
    let config = RunConfig::defaults();
    let step = advance(&config, Phase::ResolvingRevision, &ended(false, "ignored", "fatal: bad\n"));
    assert_eq!(step, last(&["stdout:fatal: bad\n", "rebase failed."]));
}

#[test]
fn resolved_revision_is_printed_with_the_update() {
    let config = RunConfig::defaults();
    let step = advance(&config, Phase::ResolvingRevision, &ended(true, "abc123\n", "warn"));
    assert_eq!(
        step,
        Step {
            lines: texts(&["rev:abc123\n"]),
            action: Action::Status(texts(&["update-ref", "refs/heads/code-pages", "abc123\n"])),
            phase: Phase::UpdatingRef,
        }
    );
}

#[test]
fn failed_update_ends_the_run() {
    let config = RunConfig::defaults();
    let step = advance(&config, Phase::UpdatingRef, &ended(false, "", ""));
    assert_eq!(step, last(&["rebase failed."]));
}

#[test]
fn successful_update_prints_the_summary() {
    let config = config_of(&["-d", "out", "-p"]);
    let step = advance(&config, Phase::UpdatingRef, &ended(true, "", ""));
    assert_eq!(
        step,
        last(&["page_dir:out, commit_msg:Update documentation, branch:code-pages, push:true."])
    );
}

#[test]
fn a_finished_run_stays_finished() {
    let config = RunConfig::defaults();
    assert_eq!(advance(&config, Phase::Finished, &ended(true, "x", "y")), last(&[]));
    assert_eq!(advance(&config, Phase::Finished, &ended(false, "x", "y")), last(&[]));
}

#[test]
fn default_run_in_a_valid_repository() {
    let outcomes = [ended(true, "", ""), ended(true, "abc123", ""), ended(true, "", "")];
    let (printed, issued) = play(&[], &outcomes);
    assert_eq!(
        printed,
        texts(&[
            "rev:abc123",
            "page_dir:public, commit_msg:Update documentation, branch:code-pages, push:false.",
        ])
    );
    assert_eq!(
        issued,
        vec![
            texts(&["rev-parse"]),
            texts(&["rev-list", "--max-count=1", "origin/code-pages"]),
            texts(&["update-ref", "refs/heads/code-pages", "abc123"]),
        ]
    );
}

#[test]
fn run_on_a_branch_the_remote_lacks() {
    let diagnostic = "fatal: ambiguous argument 'origin/gh-pages': unknown revision\n";
    let outcomes = [ended(true, "", ""), ended(false, "", diagnostic)];
    let (printed, issued) = play(&["--branch", "gh-pages", "--push"], &outcomes);
    assert_eq!(
        printed,
        texts(&[
            "stdout:fatal: ambiguous argument 'origin/gh-pages': unknown revision\n",
            "rebase failed.",
        ])
    );
    assert_eq!(
        issued,
        vec![
            texts(&["rev-parse"]),
            texts(&["rev-list", "--max-count=1", "origin/gh-pages"]),
        ]
    );
}

#[test]
fn run_whose_update_fails() {
    let outcomes = [ended(true, "", ""), ended(true, "abc123\n", ""), ended(false, "", "")];
    let (printed, issued) = play(&["-b", "gh-pages"], &outcomes);
    assert_eq!(printed, texts(&["rev:abc123\n", "rebase failed."]));
    assert_eq!(issued.len(), 3);
}
