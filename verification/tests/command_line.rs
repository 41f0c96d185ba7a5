use code_pages::cli::{options, parse_args, usage, ParseError};
use code_pages::config::{resolve, FoundOptions, Invocation, RunConfig};

fn args(list: &[&str]) -> Vec<String> {
    list.iter().map(|s| s.to_string()).collect()
}

fn config(page_dir: &str, commit_message: &str, branch: &str, push: bool) -> RunConfig {
    RunConfig {
        page_dir: page_dir.to_string(),
        commit_message: commit_message.to_string(),
        branch: branch.to_string(),
        push,
    }
}

fn rejected(list: &[&str]) -> ParseError {
    match parse_args(&args(list)) {
        Ok(inv) => panic!("accepted: {:?}", inv),
        Err(e) => e,
    }
}

#[test]
fn no_options_give_the_defaults() {
    let expected = config("public", "Update documentation", "code-pages", false);
    assert_eq!(parse_args(&args(&[])), Ok(Invocation::Run(expected.clone())));
    assert_eq!(RunConfig::defaults(), expected);
}

#[test]
fn short_options_override_the_defaults() {
    let got = parse_args(&args(&["-d", "site", "-m", "Publish", "-b", "gh-pages", "-p"]));
    assert_eq!(got, Ok(Invocation::Run(config("site", "Publish", "gh-pages", true))));
}

#[test]
fn long_options_override_the_defaults() {
    let got = parse_args(&args(&[
        "--dir",
        "out",
        "--message=New build",
        "--branch",
        "pages",
        "--push",
    ]));
    assert_eq!(got, Ok(Invocation::Run(config("out", "New build", "pages", true))));
}

#[test]
fn a_single_option_leaves_the_others_at_their_defaults() {
    assert_eq!(
        parse_args(&args(&["-b", "gh-pages"])),
        Ok(Invocation::Run(config("public", "Update documentation", "gh-pages", false)))
    );
    assert_eq!(
        parse_args(&args(&["--push"])),
        Ok(Invocation::Run(config("public", "Update documentation", "code-pages", true)))
    );
    assert_eq!(
        parse_args(&args(&["-m", "x"])),
        Ok(Invocation::Run(config("public", "x", "code-pages", false)))
    );
}

#[test]
fn values_are_kept_verbatim() {
    let got = parse_args(&args(&["-d", "  a dir/ ", "-m", "", "-b", "-x"]));
    assert_eq!(got, Ok(Invocation::Run(config("  a dir/ ", "", "-x", false))));
}

#[test]
fn a_value_may_follow_its_short_option_directly() {
    let got = parse_args(&args(&["-dsite", "-p"]));
    assert_eq!(got, Ok(Invocation::Run(config("site", "Update documentation", "code-pages", true))));
}

#[test]
fn free_arguments_are_ignored() {
    let got = parse_args(&args(&["docs", "-p", "more"]));
    assert_eq!(
        got,
        Ok(Invocation::Run(config("public", "Update documentation", "code-pages", true)))
    );
}

#[test]
fn help_wins_over_other_options() {
    assert_eq!(parse_args(&args(&["-h"])), Ok(Invocation::Help));
    assert_eq!(parse_args(&args(&["--help"])), Ok(Invocation::Help));
    assert_eq!(
        parse_args(&args(&["-d", "site", "--push", "-h", "-b", "gh-pages"])),
        Ok(Invocation::Help)
    );
}

#[test]
fn an_unknown_option_is_rejected() {
    assert_eq!(rejected(&["-x"]).message, "Unrecognized option: 'x'");
    assert_eq!(rejected(&["--force"]).message, "Unrecognized option: 'force'");
}

#[test]
fn a_missing_value_is_rejected() {
    assert_eq!(rejected(&["-d"]).message, "Argument to option 'd' missing");
    assert_eq!(rejected(&["--branch"]).message, "Argument to option 'branch' missing");
}

#[test]
fn a_value_for_a_flag_is_rejected() {
    assert_eq!(rejected(&["--push=yes"]).message, "Option 'push' does not take an argument");
}

#[test]
fn a_repeated_option_is_rejected() {
    assert_eq!(rejected(&["-d", "a", "--dir", "b"]).message, "Option 'dir' given more than once");
}

#[test]
fn resolve_applies_each_default_alone() {
    let found = FoundOptions {
        help: false,
        dir: None,
        message: Some("m".to_string()),
        branch: None,
        push: true,
    };
    assert_eq!(
        resolve(found.clone()),
        Invocation::Run(config("public", "m", "code-pages", true))
    );
    assert_eq!(RunConfig::from_found(found), config("public", "m", "code-pages", true));
    let all = FoundOptions {
        help: false,
        dir: Some("d".to_string()),
        message: Some("m".to_string()),
        branch: Some("b".to_string()),
        push: false,
    };
    assert_eq!(resolve(all), Invocation::Run(config("d", "m", "b", false)));
}

#[test]
fn resolve_gives_help_whatever_else_was_found() {
    let found = FoundOptions {
        help: true,
        dir: Some("d".to_string()),
        message: None,
        branch: Some("b".to_string()),
        push: true,
    };
    assert_eq!(resolve(found), Invocation::Help);
}

#[test]
fn summary_lists_the_four_values_in_order() {
    assert_eq!(
        RunConfig::defaults().summary(),
        "page_dir:public, commit_msg:Update documentation, branch:code-pages, push:false."
    );
    assert_eq!(
        config("out", "New build", "gh-pages", true).summary(),
        "page_dir:out, commit_msg:New build, branch:gh-pages, push:true."
    );
}

#[test]
fn usage_starts_with_the_banner_and_lists_every_option() {
    let text = usage("publish");
    assert!(text.starts_with("Usage: publish [options] <dir>\n\nOptions:\n"));
    assert!(text.contains("    -d, --dir <dir>     Take the pages from the given directory."));
    assert!(text.contains("    -m, --message <msg> "));
    assert!(text.contains("    -b, --branch <branch>"));
    assert!(text.contains("    -p, --push          Push the branch to origin/<branch> after"));
    assert!(text.contains("    -h, --help          Print this help message."));
    assert_ne!(text, "Usage: publish [options] <dir>");
}

#[test]
fn options_declare_three_values_and_two_flags() {
    let opts = options();
    let m = opts.parse(["-d", "a", "-m", "b", "-b", "c", "-p", "-h"]).unwrap();
    assert_eq!(m.opt_str("dir"), Some("a".to_string()));
    assert_eq!(m.opt_str("message"), Some("b".to_string()));
    assert_eq!(m.opt_str("branch"), Some("c".to_string()));
    assert!(m.opt_present("push"));
    assert!(m.opt_present("help"));
    assert_eq!(
        opts.short_usage("publish"),
        "Usage: publish [-d <dir>] [-m <msg>] [-b <branch>] [-p] [-h]"
    );
}
