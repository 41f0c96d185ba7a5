//! The configuration of one run and how it is resolved from the options
//! given on the command line.

use vstd::prelude::*;
use vstd::string::*;

verus! {

/// The directory that pages are taken from when `-d` is not given.
pub open spec fn default_page_dir() -> Seq<char> {
    "public"@
}

/// The commit message used when `-m` is not given.
pub open spec fn default_commit_message() -> Seq<char> {
    "Update documentation"@
}

/// The branch written to when `-b` is not given.
pub open spec fn default_branch() -> Seq<char> {
    "code-pages"@
}

/// The view of an optional text.
pub open spec fn text_of(t: Option<String>) -> Option<Seq<char>> {
    match t {
        Some(s) => Some(s@),
        None => None,
    }
}

/// What the command line held, option by option, before any default is
/// applied. A text is `None` where its option was not given.
#[derive(Debug, Clone, PartialEq, Eq)]
pub struct FoundOptions {
    pub help: bool,
    pub dir: Option<String>,
    pub message: Option<String>,
    pub branch: Option<String>,
    pub push: bool,
}

/// The found options with their texts as sequences of characters.
pub struct FoundOptionsView {
    pub help: bool,
    pub dir: Option<Seq<char>>,
    pub message: Option<Seq<char>>,
    pub branch: Option<Seq<char>>,
    pub push: bool,
}

impl View for FoundOptions {
    type V = FoundOptionsView;

    open spec fn view(&self) -> FoundOptionsView {
        FoundOptionsView {
            help: self.help,
            dir: text_of(self.dir),
            message: text_of(self.message),
            branch: text_of(self.branch),
            push: self.push,
        }
    }
}

/// The resolved configuration of a run. Every field always holds a value.
#[derive(Debug, Clone, PartialEq, Eq)]
pub struct RunConfig {
    pub page_dir: String,
    pub commit_message: String,
    pub branch: String,
    pub push: bool,
}

/// A configuration with its texts as sequences of characters.
pub struct RunConfigView {
    pub page_dir: Seq<char>,
    pub commit_message: Seq<char>,
    pub branch: Seq<char>,
    pub push: bool,
}

impl View for RunConfig {
    type V = RunConfigView;

    open spec fn view(&self) -> RunConfigView {
        RunConfigView {
            page_dir: self.page_dir@,
            commit_message: self.commit_message@,
            branch: self.branch@,
            push: self.push,
        }
    }
}

/// What a command line asks for: the usage text, or a run.
#[derive(Debug, Clone, PartialEq, Eq)]
pub enum Invocation {
    Help,
    Run(RunConfig),
}

/// An invocation over the view of its configuration.
pub enum InvocationView {
    Help,
    Run(RunConfigView),
}

impl View for Invocation {
    type V = InvocationView;

    open spec fn view(&self) -> InvocationView {
        match self {
            Invocation::Help => InvocationView::Help,
            Invocation::Run(c) => InvocationView::Run(c@),
        }
    }
}

/// The given text, or the default where none was given.
pub open spec fn or_default(given: Option<Seq<char>>, default: Seq<char>) -> Seq<char> {
    match given {
        Some(t) => t,
        None => default,
    }
}

/// The configuration that the found options stand for: each text as given,
/// a default in place of each that is missing, the push flag as found.
pub open spec fn config_of(found: FoundOptionsView) -> RunConfigView {
    RunConfigView {
        page_dir: or_default(found.dir, default_page_dir()),
        commit_message: or_default(found.message, default_commit_message()),
        branch: or_default(found.branch, default_branch()),
        push: found.push,
    }
}

/// What the found options ask for. The help flag wins over everything else.
pub open spec fn invocation_of(found: FoundOptionsView) -> InvocationView {
    if found.help {
        InvocationView::Help
    } else {
        InvocationView::Run(config_of(found))
    }
}

/// The summary line of a configuration: its four values in fixed order.
pub open spec fn summary_text(c: RunConfigView) -> Seq<char> {
    "page_dir:"@ + c.page_dir + ", commit_msg:"@ + c.commit_message + ", branch:"@ + c.branch
        + ", push:"@ + bool_text(c.push) + "."@
}

/// A flag as it is printed.
pub open spec fn bool_text(b: bool) -> Seq<char> {
    if b {
        "true"@
    } else {
        "false"@
    }
}

fn text_or(given: Option<String>, default: &str) -> (r: String)
    ensures
        r@ == or_default(text_of(given), default@),
{
    match given {
        Some(t) => t,
        None => String::from_str(default),
    }
}

impl RunConfig {
    /// The configuration of a run without any option.
    pub fn defaults() -> (r: RunConfig)
        ensures
            r@ == (RunConfigView {
                page_dir: default_page_dir(),
                commit_message: default_commit_message(),
                branch: default_branch(),
                push: false,
            }),
    {
        RunConfig {
            page_dir: String::from_str("public"),
            commit_message: String::from_str("Update documentation"),
            branch: String::from_str("code-pages"),
            push: false,
        }
    }

    /// Applies the defaults to what was found on the command line. A text that
    /// was given is kept as it is, whatever it holds.
    pub fn from_found(found: FoundOptions) -> (r: RunConfig)
        ensures
            r@ == config_of(found@),
    {
        RunConfig {
            page_dir: text_or(found.dir, "public"),
            commit_message: text_or(found.message, "Update documentation"),
            branch: text_or(found.branch, "code-pages"),
            push: found.push,
        }
    }

    /// The line that reports the configuration at the end of a run.
    pub fn summary(&self) -> (r: String)
        ensures
            r@ == summary_text(self@),
    {
        let mut line = String::from_str("page_dir:");
        line.append(self.page_dir.as_str());
        line.append(", commit_msg:");
        line.append(self.commit_message.as_str());
        line.append(", branch:");
        line.append(self.branch.as_str());
        line.append(", push:");
        line.append(if self.push { "true" } else { "false" });
        line.append(".");
        line
    }
}

/// Decides what the found options ask for: the usage text where the help flag
/// was given, whatever else came with it; else a run with the resolved
/// configuration.
pub fn resolve(found: FoundOptions) -> (r: Invocation)
    ensures
        r@ == invocation_of(found@),
{
    if found.help {
        Invocation::Help
    } else {
        Invocation::Run(RunConfig::from_found(found))
    }
}

/// An option that was not given resolves to its default; one that was given
/// is kept as it is, whatever it holds; the push flag is set exactly where it
/// was given. No field is ever left without a value.
pub proof fn omitted_options_take_defaults(found: FoundOptionsView)
    ensures
        found.dir is None ==> config_of(found).page_dir == "public"@,
        found.message is None ==> config_of(found).commit_message == "Update documentation"@,
        found.branch is None ==> config_of(found).branch == "code-pages"@,
        forall|t: Seq<char>| found.dir == Some(t) ==> config_of(found).page_dir == t,
        forall|t: Seq<char>| found.message == Some(t) ==> config_of(found).commit_message == t,
        forall|t: Seq<char>| found.branch == Some(t) ==> config_of(found).branch == t,
        config_of(found).push == found.push,
        !found.help ==> invocation_of(found) == InvocationView::Run(config_of(found)),
{
}

/// The help flag decides alone: with it the invocation is `Help`, whatever
/// the other options hold.
pub proof fn help_overrides_other_options(found: FoundOptionsView)
    requires
        found.help,
    ensures
        invocation_of(found) == InvocationView::Help,
{
}

/// The summary line holds the four values in the order page directory, commit
/// message, branch, push, and the push flag reads `true` or `false`.
pub proof fn summary_has_fixed_shape(c: RunConfigView)
    ensures
        c.push ==> summary_text(c) == "page_dir:"@ + c.page_dir + ", commit_msg:"@
            + c.commit_message + ", branch:"@ + c.branch + ", push:"@ + "true"@ + "."@,
        !c.push ==> summary_text(c) == "page_dir:"@ + c.page_dir + ", commit_msg:"@
            + c.commit_message + ", branch:"@ + c.branch + ", push:"@ + "false"@ + "."@,
{
}

} // verus!
