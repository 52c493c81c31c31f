//! The command-line surface: `-b/--query QUERY` (required), `-e/--episode
//! NUMBER` (optional), `-h/--help`.
//!
//! Option parsing itself is getopts' work and stays behind trusted wrappers.
//! getopts reads nothing but the registered options and the argument list,
//! so its results are named over a plain-value model of the option set
//! (`OptionsModel`, `parse_outcome`), and `parse_arguments` can promise the
//! full shape of its outcome: help always wins and carries the usage text
//! with every option's row; otherwise the result is `Run` exactly when the
//! parse accepted the arguments with a query value, carrying that value and
//! the episode value; and everything else is a rejection carrying a
//! non-empty error and a short usage line.

use vstd::prelude::*;
use vstd::string::StringExecFns;

verus! {

#[verifier::external_type_specification]
#[verifier::external_body]
pub struct ExOptions(getopts::Options);

#[verifier::external_type_specification]
#[verifier::external_body]
pub struct ExMatches(getopts::Matches);

#[verifier::external_type_specification]
#[verifier::external_body]
pub struct ExFail(getopts::Fail);

/// One registered option, as plain values: its short and long names, the
/// argument hint and the description shown in the usage text, and a `kind`
/// code for how it occurs. Code 0 is a required option with an argument,
/// 1 an optional option with an argument, 2 a flag without one; the codes of
/// getopts' other registration forms are distinct but unnamed here, since
/// nothing in this crate registers them.
#[verifier::ext_equal]
pub struct OptGroupModel {
    pub short: Seq<char>,
    pub long: Seq<char>,
    pub hint: Seq<char>,
    pub desc: Seq<char>,
    pub kind: int,
}

/// Everything getopts reads from an option set: the registered options in
/// order, the parsing style (0 is the default, floating free arguments), and
/// whether long-only matching is on. `Options::new` starts at the defaults
/// and the three registration wrappers below only append a group.
#[verifier::ext_equal]
pub struct OptionsModel {
    pub groups: Seq<OptGroupModel>,
    pub style: int,
    pub long_only: bool,
}

/// The model of an option set. Two sets with equal models are
/// indistinguishable to getopts' parse and usage functions.
pub uninterp spec fn option_model(opts: getopts::Options) -> OptionsModel;

/// The option names a parse result can be interrogated about: getopts panics
/// when asked about a name that was never registered.
pub uninterp spec fn defined_names(m: getopts::Matches) -> Set<Seq<char>>;

/// The first argument value given for an option in a parse result — what
/// `Matches::opt_str` returns, a function of the result and the name alone.
pub uninterp spec fn opt_value_of(m: getopts::Matches, name: Seq<char>) -> Option<Seq<char>>;

/// What getopts' parse makes of an argument list under an option set:
/// `None` when it rejects the list, otherwise the first value given for each
/// option name. The parse reads only the option set (through its model) and
/// the arguments, so this is a function of the two.
pub uninterp spec fn parse_outcome(model: OptionsModel, args: Seq<String>) -> Option<
    Map<Seq<char>, Option<Seq<char>>>,
>;

/// The names under which a parse result answers: every registered short and
/// long name.
pub open spec fn model_names(model: OptionsModel) -> Set<Seq<char>> {
    Set::new(
        |n: Seq<char>|
            exists|i: int|
                0 <= i < model.groups.len() && (model.groups[i].short == n || model.groups[i].long
                    == n),
    )
}

/// Every character is printable ASCII (no spaces, no controls).
pub open spec fn printable_ascii(s: Seq<char>) -> bool {
    forall|i: int| 0 <= i < s.len() ==> '!' <= #[trigger] s[i] && s[i] <= '~'
}

/// Non-empty printable ASCII text whose only whitespace is single interior
/// spaces. Such text survives getopts' usage formatting whole: it is one
/// line, trimming leaves it unchanged, and re-joining its words with single
/// spaces reproduces it.
pub open spec fn single_spaced(s: Seq<char>) -> bool {
    &&& s.len() > 0
    &&& forall|i: int| 0 <= i < s.len() ==> (('!' <= #[trigger] s[i] && s[i] <= '~') || s[i] == ' ')
    &&& s[0] != ' '
    &&& s[s.len() - 1] != ' '
    &&& forall|i: int| 0 <= i < s.len() - 1 ==> !(#[trigger] s[i] == ' ' && s[i + 1] == ' ')
}

/// `needle` occurs contiguously somewhere in `hay`.
pub open spec fn contains_seq(hay: Seq<char>, needle: Seq<char>) -> bool {
    exists|k: int|
        0 <= k && k + needle.len() <= hay.len() && #[trigger] hay.subrange(k, k + needle.len())
            == needle
}

/// What the usage text shows for the option at index `i` of the model: its
/// row holds `-s, --long ` (plus the hint when the option takes an argument)
/// contiguously, and a description that fits one 54-column row appears
/// verbatim. The conditions match getopts' formatting: a one-column short
/// name, a visible long name, long-only off, and wrapping only for
/// descriptions wider than one row.
pub open spec fn usage_lists_option(model: OptionsModel, text: Seq<char>, i: int) -> bool {
    let g = model.groups[i];
    &&& (g.short.len() == 1 && printable_ascii(g.short) && g.long.len() > 0 && printable_ascii(
        g.long,
    ) && !model.long_only && (g.kind == 0 || g.kind == 1)) ==> contains_seq(
        text,
        seq!['-'] + g.short + ", --"@ + g.long + " "@ + g.hint,
    )
    &&& (g.short.len() == 1 && printable_ascii(g.short) && g.long.len() > 0 && printable_ascii(
        g.long,
    ) && !model.long_only && g.kind == 2) ==> contains_seq(
        text,
        seq!['-'] + g.short + ", --"@ + g.long + " "@,
    )
    &&& (single_spaced(g.desc) && g.desc.len() <= 54) ==> contains_seq(text, g.desc)
}

/// Relies on getopts::Options::new: no options registered, default parsing
/// style, long-only matching off.
#[verifier::external_body]
fn new_options() -> (r: getopts::Options)
    ensures
        option_model(r) == (OptionsModel { groups: Seq::empty(), style: 0, long_only: false }),
{
    getopts::Options::new()
}

/// Relies on getopts::Options::reqopt: appends a required option with an
/// argument under its short and long names, changing nothing else. The
/// name-length bounds keep getopts' name validation from panicking.
#[verifier::external_body]
fn add_reqopt(opts: &mut getopts::Options, short: &str, long: &str, desc: &str, hint: &str)
    requires
        short.is_ascii(),
        long.is_ascii(),
        short@.len() == 1,
        long@.len() > 1,
    ensures
        option_model(*final(opts)) == (OptionsModel {
            groups: option_model(*old(opts)).groups.push(
                OptGroupModel {
                    short: short@,
                    long: long@,
                    hint: hint@,
                    desc: desc@,
                    kind: 0,
                },
            ),
            ..option_model(*old(opts))
        }),
{
    opts.reqopt(short, long, desc, hint);
}

/// Relies on getopts::Options::optopt: appends an optional option with an
/// argument, with the same name validation as `add_reqopt`.
#[verifier::external_body]
fn add_optopt(opts: &mut getopts::Options, short: &str, long: &str, desc: &str, hint: &str)
    requires
        short.is_ascii(),
        long.is_ascii(),
        short@.len() == 1,
        long@.len() > 1,
    ensures
        option_model(*final(opts)) == (OptionsModel {
            groups: option_model(*old(opts)).groups.push(
                OptGroupModel {
                    short: short@,
                    long: long@,
                    hint: hint@,
                    desc: desc@,
                    kind: 1,
                },
            ),
            ..option_model(*old(opts))
        }),
{
    opts.optopt(short, long, desc, hint);
}

/// Relies on getopts::Options::optflag: appends a no-argument flag, with the
/// same name validation as `add_reqopt`.
#[verifier::external_body]
fn add_optflag(opts: &mut getopts::Options, short: &str, long: &str, desc: &str)
    requires
        short.is_ascii(),
        long.is_ascii(),
        short@.len() == 1,
        long@.len() > 1,
    ensures
        option_model(*final(opts)) == (OptionsModel {
            groups: option_model(*old(opts)).groups.push(
                OptGroupModel {
                    short: short@,
                    long: long@,
                    hint: Seq::empty(),
                    desc: desc@,
                    kind: 2,
                },
            ),
            ..option_model(*old(opts))
        }),
{
    opts.optflag(short, long, desc);
}

/// Relies on getopts::Options::parse: it reads only the option set and the
/// arguments, accepts or rejects deterministically, and on success the
/// result answers for exactly the registered names, each with the first
/// value the arguments gave it.
#[verifier::external_body]
fn parse_options(opts: &getopts::Options, args: &Vec<String>) -> (r: Result<
    getopts::Matches,
    getopts::Fail,
>)
    ensures
        r is Ok <==> parse_outcome(option_model(*opts), args@) is Some,
        r matches Ok(m) ==> defined_names(m) == model_names(option_model(*opts)),
        r matches Ok(m) ==> (parse_outcome(option_model(*opts), args@) matches Some(vals) && (
        forall|n: Seq<char>|
            model_names(option_model(*opts)).contains(n) ==> #[trigger] opt_value_of(m, n)
                == vals[n])),
{
    opts.parse(args)
}

/// Relies on getopts::Matches::opt_str: the first value given for the named
/// option, if any. Asking about an unregistered name panics, hence the
/// precondition.
#[verifier::external_body]
fn opt_value(m: &getopts::Matches, name: &str) -> (r: Option<String>)
    requires
        defined_names(*m).contains(name@),
    ensures
        r matches Some(v) ==> opt_value_of(*m, name@) == Some(v@),
        r is None ==> opt_value_of(*m, name@) == None::<Seq<char>>,
{
    m.opt_str(name)
}

/// Relies on getopts::Options::usage: the formatted text begins with the
/// brief line, and lists every registered option — its names on one row,
/// with its description verbatim when that fits one row.
#[verifier::external_body]
fn usage_text(opts: &getopts::Options, brief: &str) -> (r: String)
    ensures
        r@.len() >= brief@.len(),
        r@.subrange(0, brief@.len() as int) == brief@,
        forall|i: int|
            0 <= i < option_model(*opts).groups.len() ==> #[trigger] usage_lists_option(
                option_model(*opts),
                r@,
                i,
            ),
{
    opts.usage(brief)
}

/// Relies on getopts::Options::short_usage: the one-line summary begins with
/// `Usage: {program} ` and continues with the option summaries.
#[verifier::external_body]
fn short_usage_text(opts: &getopts::Options, program: &str) -> (r: String)
    ensures
        r@.len() >= usage_prefix(program@).len(),
        r@.subrange(0, usage_prefix(program@).len() as int) == usage_prefix(program@),
{
    opts.short_usage(program)
}

/// Relies on getopts::Fail's Display impl: every variant renders a non-empty
/// description of the parse failure.
#[verifier::external_body]
fn fail_text(f: &getopts::Fail) -> (r: String)
    ensures
        r@.len() > 0,
{
    format!("{}", f)
}

/// How `short_usage` opens its summary line.
pub open spec fn usage_prefix(program: Seq<char>) -> Seq<char> {
    "Usage: "@ + program + " "@
}

/// The brief line the full usage text opens with.
pub open spec fn brief_text(program: Seq<char>) -> Seq<char> {
    "Usage: "@ + program + " -b BOT -p PACKAGE1[,PACKAGE2,...] [options]"@
}

/// The option set this program registers: the required query, the optional
/// episode, and the help flag.
pub open spec fn cli_model() -> OptionsModel {
    OptionsModel {
        groups: seq![
            OptGroupModel {
                short: "b"@,
                long: "query"@,
                hint: "QUERY"@,
                desc: "Query to run"@,
                kind: 0,
            },
            OptGroupModel {
                short: "e"@,
                long: "episode"@,
                hint: "NUMBER"@,
                desc: "Episode number"@,
                kind: 1,
            },
            OptGroupModel {
                short: "h"@,
                long: "help"@,
                hint: Seq::empty(),
                desc: "print this help menu"@,
                kind: 2,
            },
        ],
        style: 0,
        long_only: false,
    }
}

/// Whether the raw argument list asks for help anywhere.
pub open spec fn requests_help(args: Seq<String>) -> bool {
    exists|i: int| 0 <= i < args.len() && (args[i]@ == "-h"@ || args[i]@ == "--help"@)
}

/// Scan the raw arguments for `-h` or `--help`. This runs before option
/// parsing, so help is honored even when the required query is missing.
pub fn wants_help(args: &Vec<String>) -> (r: bool)
    ensures
        r == requests_help(args@),
{
    let dash_h = String::from_str("-h");
    let dash_help = String::from_str("--help");
    let n = args.len();
    let mut k: usize = 0;
    while k < n
        invariant
            n == args@.len(),
            0 <= k <= n,
            dash_h@ == "-h"@,
            dash_help@ == "--help"@,
            forall|j: int| 0 <= j < k ==> !(args@[j]@ == "-h"@ || args@[j]@ == "--help"@),
        decreases n - k,
    {
        if args[k] == dash_h || args[k] == dash_help {
            proof {
                assert(args@[k as int]@ == "-h"@ || args@[k as int]@ == "--help"@);
            }
            return true;
        }
        k += 1;
    }
    false
}

/// Build the brief usage line for `program`.
fn brief_line(program: &str) -> (r: String)
    ensures
        r@ == brief_text(program@),
{
    let mut s = String::from_str("Usage: ");
    s.append(program);
    s.append(" -b BOT -p PACKAGE1[,PACKAGE2,...] [options]");
    s
}

/// What the argument parser decided.
pub enum CliOutcome {
    /// Help was requested: print this usage text on standard output and exit
    /// with code 0.
    Help(String),
    /// The argument list was rejected: the error and a short usage line,
    /// both for standard error; exit with code 1.
    Usage(String, String),
    /// A validated request: the query and the optional episode filter.
    Run(String, Option<String>),
}

/// Parse the command line (without the program name, which is passed
/// separately for the usage text). Help takes precedence over every other
/// flag, including a missing query, and carries the usage text with every
/// option's row. Otherwise the outcome is `Run` exactly when getopts accepts
/// the arguments and they give the query option a value; `Run` carries that
/// value and the episode value, and everything else is a rejection with a
/// non-empty error and a usage line that names the program.
pub fn parse_arguments(program: &String, args: &Vec<String>) -> (r: CliOutcome)
    ensures
        r is Help <==> requests_help(args@),
        r matches CliOutcome::Help(usage) ==> usage@.len() >= brief_text(program@).len()
            && usage@.subrange(0, brief_text(program@).len() as int) == brief_text(program@) && (
        forall|i: int|
            0 <= i < cli_model().groups.len() ==> #[trigger] usage_lists_option(
                cli_model(),
                usage@,
                i,
            )),
        !requests_help(args@) ==> (r is Run <==> (parse_outcome(cli_model(), args@) matches Some(
            vals,
        ) && vals["b"@] is Some)),
        !requests_help(args@) ==> (r is Usage <==> !(parse_outcome(cli_model(), args@) matches Some(
            vals,
        ) && vals["b"@] is Some)),
        r matches CliOutcome::Run(query, episode) ==> (parse_outcome(cli_model(), args@) matches Some(
            vals,
        ) && vals["b"@] == Some(query@) && (match episode {
            Some(e) => vals["e"@] == Some(e@),
            None => vals["e"@] is None,
        })),
        r matches CliOutcome::Usage(error, usage) ==> error@.len() > 0 && usage@.len()
            >= usage_prefix(program@).len() && usage@.subrange(
            0,
            usage_prefix(program@).len() as int,
        ) == usage_prefix(program@),
{
    proof {
        reveal_strlit("b");
        reveal_strlit("query");
        reveal_strlit("e");
        reveal_strlit("episode");
        reveal_strlit("h");
        reveal_strlit("help");
    }
    let mut opts = new_options();
    add_reqopt(&mut opts, "b", "query", "Query to run", "QUERY");
    add_optopt(&mut opts, "e", "episode", "Episode number", "NUMBER");
    add_optflag(&mut opts, "h", "help", "print this help menu");
    proof {
        assert(option_model(opts).groups =~= cli_model().groups);
        assert(option_model(opts) =~= cli_model());
    }
    if wants_help(args) {
        let brief = brief_line(program.as_str());
        CliOutcome::Help(usage_text(&opts, brief.as_str()))
    } else {
        match parse_options(&opts, args) {
            Err(f) => {
                let error = fail_text(&f);
                let usage = short_usage_text(&opts, program.as_str());
                CliOutcome::Usage(error, usage)
            },
            Ok(m) => {
                proof {
                    assert(cli_model().groups[0].short == "b"@);
                    assert(model_names(cli_model()).contains("b"@));
                    assert(cli_model().groups[1].short == "e"@);
                    assert(model_names(cli_model()).contains("e"@));
                }
                match opt_value(&m, "b") {
                    Some(query) => {
                        let episode = opt_value(&m, "e");
                        CliOutcome::Run(query, episode)
                    },
                    None => {
                        let error = String::from_str("Query must be specified");
                        let usage = short_usage_text(&opts, program.as_str());
                        proof {
                            reveal_strlit("Query must be specified");
                        }
                        CliOutcome::Usage(error, usage)
                    },
                }
            },
        }
    }
}

} // verus!
