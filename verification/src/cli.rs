//! The command line: the options this program declares, and reading a parsed
//! command line into [`FoundOptions`].
//!
//! Parsing itself is done by `getopts`. What is believed of it here, and not
//! proved, is written above each item that calls into it.

use vstd::prelude::*;
use vstd::string::*;
use vstd::utf8::is_ascii_chars;
use crate::config::{
    config_of, invocation_of, resolve, text_of, FoundOptions, FoundOptionsView, Invocation,
    InvocationView,
};

verus! {

/// Whether an option takes a value (`getopts::HasArg`).
pub enum ValueRule {
    /// A value must follow the option.
    Required,
    /// A value may follow the option.
    Optional,
    /// The option is a flag.
    Never,
}

/// How often an option may be given (`getopts::Occur`).
pub enum Occurrence {
    /// Exactly once.
    Once,
    /// At most once.
    AtMostOnce,
    /// Any number of times.
    Many,
}

/// One declared option: its names (an empty text for a name it lacks), the
/// hint shown in place of its value, its description, and its two rules.
pub struct OptionDecl {
    pub short: Seq<char>,
    pub long: Seq<char>,
    pub hint: Seq<char>,
    pub desc: Seq<char>,
    pub value: ValueRule,
    pub occurrence: Occurrence,
}

/// For each declared name, long or short, the occurrences of its option on a
/// command line, in order: `Some` with the value given, `None` for an
/// occurrence without one.
pub type Occurrences = Map<Seq<char>, Seq<Option<Seq<char>>>>;

/// `getopts::Options`, the declarations of a program's options, as an opaque
/// value.
#[verifier::external_type_specification]
#[verifier::external_body]
pub struct ExOptions(getopts::Options);

/// `getopts::Matches`, a parsed command line, as an opaque value.
#[verifier::external_type_specification]
#[verifier::external_body]
pub struct ExMatches(getopts::Matches);

/// `getopts::Fail`, the reason why a command line was rejected, as an opaque
/// value.
#[verifier::external_type_specification]
#[verifier::external_body]
pub struct ExFail(getopts::Fail);

/// The options that a `getopts::Options` holds, in the order of declaration.
pub uninterp spec fn declared(opts: getopts::Options) -> Seq<OptionDecl>;

/// Whether a `getopts::Options` still parses in the way it was created with:
/// options and free arguments may be mixed, and long options need two dashes.
pub uninterp spec fn free_floating(opts: getopts::Options) -> bool;

/// What a `getopts::Matches` recorded, by option name.
pub uninterp spec fn occurrences(m: getopts::Matches) -> Occurrences;

/// The message that a `getopts::Fail` displays.
pub uninterp spec fn failure_text(f: getopts::Fail) -> Seq<char>;

/// What `getopts` makes of an argument list under the given declarations, in
/// the free-floating style: the occurrences it records, or the message of the
/// failure it reports.
pub uninterp spec fn parsed(decls: Seq<OptionDecl>, args: Seq<Seq<char>>) -> Result<
    Occurrences,
    Seq<char>,
>;

/// The usage text that `getopts` derives from the given declarations, in the
/// free-floating style, under the given first line.
pub uninterp spec fn usage_text(decls: Seq<OptionDecl>, brief: Seq<char>) -> Seq<char>;

/// The texts of a list of strings.
pub open spec fn texts(v: Seq<String>) -> Seq<Seq<char>> {
    Seq::new(v.len(), |i: int| v[i]@)
}

/// Names that `getopts` accepts in a declaration: a short name is empty or one
/// ASCII character, a long name is empty or longer than one character.
pub open spec fn names_accepted(short: Seq<char>, long: Seq<char>) -> bool {
    &&& short.len() == 0 || (short.len() == 1 && is_ascii_chars(short))
    &&& long.len() != 1
}

/// A declaration has a name.
pub open spec fn named(d: OptionDecl) -> bool {
    d.short.len() > 0 || d.long.len() > 0
}

/// Every name of every declaration can be asked for in `occ`.
pub open spec fn covers(occ: Occurrences, decls: Seq<OptionDecl>) -> bool {
    forall|i: int|
        0 <= i < decls.len() ==> {
            &&& (#[trigger] decls[i]).short.len() > 0 ==> occ.dom().contains(decls[i].short)
            &&& decls[i].long.len() > 0 ==> occ.dom().contains(decls[i].long)
        }
}

/// The value of the first occurrence, if there is an occurrence and it has
/// one.
pub open spec fn first_value(occ: Seq<Option<Seq<char>>>) -> Option<Seq<char>> {
    if occ.len() > 0 {
        occ[0]
    } else {
        None
    }
}

/// `getopts::Options::new`: the result declares nothing and parses in the
/// free-floating style.
#[verifier::external_body]
fn new_options() -> (opts: getopts::Options)
    ensures
        declared(opts) == Seq::<OptionDecl>::empty(),
        free_floating(opts),
{
    getopts::Options::new()
}

/// `getopts::Options::optopt`: appends the declaration of an option that takes
/// a value and may be given at most once, and changes nothing else. It panics
/// on a short name of more than one byte or a long name of exactly one, which
/// `names_accepted` rules out.
#[verifier::external_body]
fn add_value_option(opts: &mut getopts::Options, short: &str, long: &str, desc: &str, hint: &str)
    requires
        names_accepted(short@, long@),
    ensures
        declared(*final(opts)) == declared(*old(opts)).push(
            (OptionDecl {
                short: short@,
                long: long@,
                hint: hint@,
                desc: desc@,
                value: ValueRule::Required,
                occurrence: Occurrence::AtMostOnce,
            }),
        ),
        free_floating(*final(opts)) == free_floating(*old(opts)),
{
    opts.optopt(short, long, desc, hint);
}

/// `getopts::Options::optflag`: appends the declaration of a flag, which takes
/// no value, has an empty hint and may be given at most once, and changes
/// nothing else. It panics on the same names as `optopt`.
#[verifier::external_body]
fn add_flag(opts: &mut getopts::Options, short: &str, long: &str, desc: &str)
    requires
        names_accepted(short@, long@),
    ensures
        declared(*final(opts)) == declared(*old(opts)).push(
            (OptionDecl {
                short: short@,
                long: long@,
                hint: Seq::<char>::empty(),
                desc: desc@,
                value: ValueRule::Never,
                occurrence: Occurrence::AtMostOnce,
            }),
        ),
        free_floating(*final(opts)) == free_floating(*old(opts)),
{
    opts.optflag(short, long, desc);
}

/// `getopts::Options::parse`: the outcome depends on the declarations and the
/// arguments alone, and after a success every declared name can be asked for.
/// It panics on a declaration without any name, which `named` rules out.
#[verifier::external_body]
fn parse_with(opts: &getopts::Options, args: &Vec<String>) -> (r: Result<
    getopts::Matches,
    getopts::Fail,
>)
    requires
        free_floating(*opts),
        forall|i: int| 0 <= i < declared(*opts).len() ==> named(#[trigger] declared(*opts)[i]),
    ensures
        match r {
            Ok(m) => parsed(declared(*opts), texts(args@)) == Ok::<Occurrences, Seq<char>>(
                occurrences(m),
            ) && covers(occurrences(m), declared(*opts)),
            Err(f) => parsed(declared(*opts), texts(args@)) == Err::<Occurrences, Seq<char>>(
                failure_text(f),
            ),
        },
{
    opts.parse(args)
}

/// `Display` of `getopts::Fail`, through `to_string`.
#[verifier::external_body]
fn failure_message(f: &getopts::Fail) -> (r: String)
    ensures
        r@ == failure_text(*f),
{
    f.to_string()
}

/// `getopts::Matches::opt_present`: whether the option of that name occurred.
/// It panics on a name that was not declared.
#[verifier::external_body]
fn is_present(m: &getopts::Matches, name: &str) -> (r: bool)
    requires
        occurrences(*m).dom().contains(name@),
    ensures
        r == (occurrences(*m)[name@].len() > 0),
{
    m.opt_present(name)
}

/// `getopts::Matches::opt_str`: the value of the first occurrence of the
/// option of that name, `None` where it did not occur or occurred without a
/// value. It panics on a name that was not declared.
#[verifier::external_body]
fn value_of(m: &getopts::Matches, name: &str) -> (r: Option<String>)
    requires
        occurrences(*m).dom().contains(name@),
    ensures
        text_of(r) == first_value(occurrences(*m)[name@]),
{
    m.opt_str(name)
}

/// `getopts::Options::usage`: the text depends on the declarations and the
/// first line alone, and starts with that line, an empty line and the
/// heading of the option list.
#[verifier::external_body]
fn usage_with(opts: &getopts::Options, brief: &str) -> (r: String)
    requires
        free_floating(*opts),
    ensures
        r@ == usage_text(declared(*opts), brief@),
        (brief@ + "\n\nOptions:\n"@).is_prefix_of(r@),
{
    opts.usage(brief)
}

/// The declaration of an option that takes a value.
pub open spec fn value_option(
    short: Seq<char>,
    long: Seq<char>,
    desc: Seq<char>,
    hint: Seq<char>,
) -> OptionDecl {
    OptionDecl {
        short,
        long,
        hint,
        desc,
        value: ValueRule::Required,
        occurrence: Occurrence::AtMostOnce,
    }
}

/// The declaration of a flag.
pub open spec fn flag(short: Seq<char>, long: Seq<char>, desc: Seq<char>) -> OptionDecl {
    OptionDecl {
        short,
        long,
        hint: Seq::<char>::empty(),
        desc,
        value: ValueRule::Never,
        occurrence: Occurrence::AtMostOnce,
    }
}

/// The options of this program, in the order in which the usage text lists
/// them.
pub open spec fn option_table() -> Seq<OptionDecl> {
    seq![
        value_option(
            "d"@,
            "dir"@,
            "Take the pages from the given directory. (default: public)"@,
            "<dir>"@,
        ),
        value_option(
            "m"@,
            "message"@,
            "Use the given <msg> as the commit message. (default: Update documentation)"@,
            "<msg>"@,
        ),
        value_option(
            "b"@,
            "branch"@,
            "Name of the branch to write to. (default: code-pages]"@,
            "<branch>"@,
        ),
        flag(
            "p"@,
            "push"@,
            "Push the branch to origin/<branch> after committing. (default: false)"@,
        ),
        flag("h"@, "help"@, "Print this help message."@),
    ]
}

/// What the recorded occurrences say of this program's options: a flag is set
/// where it occurred, a text is the value of its option's first occurrence.
pub open spec fn found_in(occ: Occurrences) -> FoundOptionsView {
    FoundOptionsView {
        help: occ["h"@].len() > 0,
        dir: first_value(occ["d"@]),
        message: first_value(occ["m"@]),
        branch: first_value(occ["b"@]),
        push: occ["p"@].len() > 0,
    }
}

/// What a command line asks for: an invocation, or the message of the failure
/// where the parser rejects it.
pub open spec fn outcome_of(args: Seq<Seq<char>>) -> Result<InvocationView, Seq<char>> {
    match parsed(option_table(), args) {
        Ok(occ) => Ok(invocation_of(found_in(occ))),
        Err(message) => Err(message),
    }
}

/// The first line of the usage text.
pub open spec fn usage_brief(program: Seq<char>) -> Seq<char> {
    "Usage: "@ + program + " [options] <dir>"@
}

/// What the usage text starts with: its first line, an empty line and the
/// heading of the option list.
pub open spec fn usage_head(program: Seq<char>) -> Seq<char> {
    usage_brief(program) + "\n\nOptions:\n"@
}

/// A command line that the parser rejected, with the parser's message.
#[derive(Debug, Clone, PartialEq, Eq)]
pub struct ParseError {
    pub message: String,
}

/// The names in `option_table` are ones that `getopts` accepts, and each
/// option has a short name of one character.
proof fn option_names_known()
    ensures
        names_accepted("d"@, "dir"@),
        names_accepted("m"@, "message"@),
        names_accepted("b"@, "branch"@),
        names_accepted("p"@, "push"@),
        names_accepted("h"@, "help"@),
        forall|i: int| 0 <= i < option_table().len() ==> named(#[trigger] option_table()[i]),
        option_table().len() == 5,
        option_table()[0].short == "d"@,
        option_table()[1].short == "m"@,
        option_table()[2].short == "b"@,
        option_table()[3].short == "p"@,
        option_table()[4].short == "h"@,
        forall|i: int|
            0 <= i < option_table().len() ==> (#[trigger] option_table()[i]).short.len() == 1,
{
    reveal_strlit("d");
    reveal_strlit("m");
    reveal_strlit("b");
    reveal_strlit("p");
    reveal_strlit("h");
    reveal_strlit("dir");
    reveal_strlit("message");
    reveal_strlit("branch");
    reveal_strlit("push");
    reveal_strlit("help");
}

/// The options that this program understands: three that take a value (the
/// page directory, the commit message, the branch) and two flags (push, help).
pub fn options() -> (opts: getopts::Options)
    ensures
        declared(opts) == option_table(),
        free_floating(opts),
{
    let mut opts = new_options();
    proof {
        option_names_known();
    }
    add_value_option(
        &mut opts,
        "d",
        "dir",
        "Take the pages from the given directory. (default: public)",
        "<dir>",
    );
    add_value_option(
        &mut opts,
        "m",
        "message",
        "Use the given <msg> as the commit message. (default: Update documentation)",
        "<msg>",
    );
    add_value_option(
        &mut opts,
        "b",
        "branch",
        "Name of the branch to write to. (default: code-pages]",
        "<branch>",
    );
    add_flag(
        &mut opts,
        "p",
        "push",
        "Push the branch to origin/<branch> after committing. (default: false)",
    );
    add_flag(&mut opts, "h", "help", "Print this help message.");
    assert(declared(opts) =~= option_table());
    opts
}

/// Reads this program's options out of a parsed command line.
fn read_matches(m: &getopts::Matches) -> (found: FoundOptions)
    requires
        covers(occurrences(*m), option_table()),
    ensures
        found@ == found_in(occurrences(*m)),
{
    proof {
        option_names_known();
        let occ = occurrences(*m);
        assert(occ.dom().contains(option_table()[0].short));
        assert(occ.dom().contains(option_table()[1].short));
        assert(occ.dom().contains(option_table()[2].short));
        assert(occ.dom().contains(option_table()[3].short));
        assert(occ.dom().contains(option_table()[4].short));
    }
    let help = is_present(m, "h");
    let dir = value_of(m, "d");
    let message = value_of(m, "m");
    let branch = value_of(m, "b");
    let push = is_present(m, "p");
    FoundOptions { help, dir, message, branch, push }
}

/// Parses the arguments of the process, the program's name left out, and
/// resolves them. Whether the parser accepts them, and what it finds, is the
/// parser's; the resolution of what it found is `invocation_of`.
pub fn parse_args(args: &Vec<String>) -> (r: Result<Invocation, ParseError>)
    ensures
        match r {
            Ok(inv) => outcome_of(texts(args@)) == Ok::<InvocationView, Seq<char>>(inv@),
            Err(e) => outcome_of(texts(args@)) == Err::<InvocationView, Seq<char>>(e.message@),
        },
{
    let opts = options();
    proof {
        option_names_known();
    }
    match parse_with(&opts, args) {
        Ok(m) => Ok(resolve(read_matches(&m))),
        Err(f) => Err(ParseError { message: failure_message(&f) }),
    }
}

/// The usage text: a first line that names the program, then one entry for
/// each option of `option_table`, laid out by the parser's library.
pub fn usage(program: &str) -> (r: String)
    ensures
        r@ == usage_text(option_table(), usage_brief(program@)),
        usage_head(program@).is_prefix_of(r@),
{
    let opts = options();
    let mut brief = String::from_str("Usage: ");
    brief.append(program);
    brief.append(" [options] <dir>");
    usage_with(&opts, brief.as_str())
}

/// A command line on which the parser finds the help flag asks for help,
/// whatever else it finds; one on which it does not asks for a run in which
/// each option that did not occur has its default; one that it rejects asks
/// for nothing, and its failure is handed on unchanged.
pub proof fn outcome_follows_what_was_found(args: Seq<Seq<char>>)
    ensures
        match parsed(option_table(), args) {
            Ok(occ) => {
                &&& occ["h"@].len() > 0 ==> outcome_of(args) == Ok::<InvocationView, Seq<char>>(
                    InvocationView::Help,
                )
                &&& occ["h"@].len() == 0 ==> outcome_of(args) == Ok::<InvocationView, Seq<char>>(
                    InvocationView::Run(config_of(found_in(occ))),
                )
                &&& occ["d"@].len() == 0 ==> config_of(found_in(occ)).page_dir == "public"@
                &&& occ["m"@].len() == 0 ==> config_of(found_in(occ)).commit_message
                    == "Update documentation"@
                &&& occ["b"@].len() == 0 ==> config_of(found_in(occ)).branch == "code-pages"@
                &&& occ["p"@].len() == 0 ==> !config_of(found_in(occ)).push
            },
            Err(message) => outcome_of(args) == Err::<InvocationView, Seq<char>>(message),
        },
{
}

} // verus!
