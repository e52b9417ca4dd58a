//! The command line: which options there are, and what a parsed command line
//! asks for.

use vstd::prelude::*;
use vstd::string::StringExecFns;
use crate::region::Rectangle;
use crate::text::{parse_rectangle, spec_rectangle};

verus! {

/// The options of a command line, as the `getopts` crate holds them.
#[verifier::external_type_specification]
#[verifier::external_body]
pub struct ExOptions(getopts::Options);

/// A parsed command line, as the `getopts` crate holds it.
#[verifier::external_type_specification]
#[verifier::external_body]
pub struct ExMatches(getopts::Matches);

/// The reason for which the `getopts` crate refuses a command line.
#[verifier::external_type_specification]
#[verifier::external_body]
pub struct ExFail(getopts::Fail);

/// Whether an option takes a value: the three cases of `getopts::HasArg`.
pub enum Takes {
    /// The option takes no value.
    Nothing,
    /// The option takes a value.
    Value,
    /// The option may take a value.
    OptionalValue,
}

/// How often an option may be given: the three cases of `getopts::Occur`.
pub enum Occurs {
    /// Exactly once.
    Once,
    /// Once or not at all.
    AtMostOnce,
    /// Any number of times.
    AnyTimes,
}

/// One declared option: its two names, the hint that stands for its value in
/// the usage text, its description, and what it takes and how often.
pub struct Declaration {
    pub short: Seq<char>,
    pub long: Seq<char>,
    pub hint: Seq<char>,
    pub desc: Seq<char>,
    pub takes: Takes,
    pub occurs: Occurs,
}

/// What parsing a command line gives.
pub struct Line {
    /// For each name of a declared option, short or long, the times that the
    /// option was given, in order, each with its value if it had one.
    pub occurrences: Map<Seq<char>, Seq<Option<Seq<char>>>>,
    /// The arguments that belong to no option, in order.
    pub free: Seq<Seq<char>>,
}

/// The character sequences that a sequence of strings holds.
pub open spec fn texts(v: Seq<String>) -> Seq<Seq<char>> {
    Seq::new(v.len(), |i: int| v[i]@)
}

/// The options that `opts` declares, in the order of their declaration.
pub uninterp spec fn declared(opts: getopts::Options) -> Seq<Declaration>;

/// How `opts` parses: whether the first free argument ends the options, and
/// whether long names are written with a single dash.
pub uninterp spec fn parsing_mode(opts: getopts::Options) -> (bool, bool);

/// What `matches` holds for the options: see `Line::occurrences`.
pub uninterp spec fn occurrences(matches: getopts::Matches) -> Map<
    Seq<char>,
    Seq<Option<Seq<char>>>,
>;

/// The free arguments that `matches` holds.
pub uninterp spec fn free_of(matches: getopts::Matches) -> Seq<Seq<char>>;

/// What `getopts` makes of the arguments `args` under the given declarations
/// and parsing mode: the parsed line, or nothing where it refuses them.
pub uninterp spec fn parse_outcome(
    declarations: Seq<Declaration>,
    mode: (bool, bool),
    args: Seq<Seq<char>>,
) -> Option<Line>;

/// `getopts::Options::new` makes a set of options that declares none, lets
/// free arguments stand among the options, and wants two dashes before a
/// long name.
pub assume_specification[ getopts::Options::new ]() -> (opts: getopts::Options)
    ensures
        declared(opts) == Seq::<Declaration>::empty(),
        parsing_mode(opts) == (false, false),
;

/// Whether `short` and `long` can name an option: both in ASCII, at most one
/// character in `short`, and none or at least two in `long`.
pub open spec fn names_valid(short: &str, long: &str) -> bool {
    &&& short.is_ascii()
    &&& long.is_ascii()
    &&& short@.len() <= 1
    &&& long@.len() != 1
}

/// The declaration of an option that takes no value and may be given once.
pub open spec fn flag(short: Seq<char>, long: Seq<char>, desc: Seq<char>) -> Declaration {
    Declaration {
        short,
        long,
        hint: Seq::empty(),
        desc,
        takes: Takes::Nothing,
        occurs: Occurs::AtMostOnce,
    }
}

/// The declaration of an option that takes a value and may be given once.
pub open spec fn valued(
    short: Seq<char>,
    long: Seq<char>,
    desc: Seq<char>,
    hint: Seq<char>,
) -> Declaration {
    Declaration { short, long, hint, desc, takes: Takes::Value, occurs: Occurs::AtMostOnce }
}

/// Whether each of the declarations has a short or a long name.
pub open spec fn all_named(declarations: Seq<Declaration>) -> bool {
    forall|i: int|
        0 <= i < declarations.len() ==> (#[trigger] declarations[i]).short.len()
            + declarations[i].long.len() > 0
}

/// Calls `getopts::Options::optflag`, which appends the declaration of an
/// option that takes no value and may be given once, with an empty hint, and
/// leaves the parsing mode alone. It panics on a short name of more than one
/// byte and on a long name of exactly one, which `names_valid` leaves out.
#[verifier::external_body]
fn declare_flag(opts: &mut getopts::Options, short: &str, long: &str, desc: &str)
    requires
        names_valid(short, long),
    ensures
        declared(*final(opts)) == declared(*old(opts)).push(flag(short@, long@, desc@)),
        parsing_mode(*final(opts)) == parsing_mode(*old(opts)),
{
    opts.optflag(short, long, desc);
}

/// Calls `getopts::Options::optopt`, which appends the declaration of an
/// option that takes a value and may be given once, and leaves the parsing
/// mode alone. It panics on the names on which `declare_flag` does.
#[verifier::external_body]
fn declare_value(opts: &mut getopts::Options, short: &str, long: &str, desc: &str, hint: &str)
    requires
        names_valid(short, long),
    ensures
        declared(*final(opts)) == declared(*old(opts)).push(
            valued(short@, long@, desc@, hint@),
        ),
        parsing_mode(*final(opts)) == parsing_mode(*old(opts)),
{
    opts.optopt(short, long, desc, hint);
}

/// Calls `getopts::Options::parse`. What comes back is a function of the
/// declarations, the parsing mode and the arguments, named `parse_outcome`:
/// on success the parsed line is what the result holds, and a refusal is the
/// absence of a line. It panics where an option was declared without any
/// name, which `all_named` rules out.
#[verifier::external_body]
fn parse_arguments(opts: &getopts::Options, args: &Vec<String>) -> (r: Result<
    getopts::Matches,
    getopts::Fail,
>)
    requires
        all_named(declared(*opts)),
    ensures
        r matches Ok(m) ==> parse_outcome(declared(*opts), parsing_mode(*opts), texts(args@))
            == Some(Line { occurrences: occurrences(m), free: free_of(m) }),
        r is Err ==> parse_outcome(declared(*opts), parsing_mode(*opts), texts(args@)) is None,
{
    opts.parse(args)
}

/// What the usage text of a set of options puts between `brief` and the lines
/// of the options.
pub open spec fn options_heading() -> Seq<char> {
    "\n\nOptions:\n"@
}

/// Calls `getopts::Options::usage`, which writes `brief`, an empty line, the
/// line `Options:` and then one or more lines for each declared option. Only
/// how the text begins is claimed.
#[verifier::external_body]
fn usage_text(opts: &getopts::Options, brief: &str) -> (text: String)
    ensures
        (brief@ + options_heading()).is_prefix_of(text@),
{
    opts.usage(brief)
}

/// The characters of a string, where there is one.
pub open spec fn text_of(s: Option<String>) -> Option<Seq<char>> {
    match s {
        Some(s) => Some(s@),
        None => None,
    }
}

/// Whether the option of the given name was given at least once.
pub open spec fn was_given(
    occurrences: Map<Seq<char>, Seq<Option<Seq<char>>>>,
    name: Seq<char>,
) -> bool {
    occurrences.dom().contains(name) && occurrences[name].len() > 0
}

/// The value with which the option of the given name was first given, if it
/// was given and had one that time.
pub open spec fn first_value(
    occurrences: Map<Seq<char>, Seq<Option<Seq<char>>>>,
    name: Seq<char>,
) -> Option<Seq<char>> {
    if was_given(occurrences, name) {
        occurrences[name][0]
    } else {
        None
    }
}

/// Calls `getopts::Matches::opt_defined`: whether an option of this name was
/// declared.
#[verifier::external_body]
fn option_defined(matches: &getopts::Matches, name: &str) -> (defined: bool)
    ensures
        defined == occurrences(*matches).dom().contains(name@),
{
    matches.opt_defined(name)
}

/// Calls `getopts::Matches::opt_present`: whether the option was given at
/// least once. It panics on a name that was not declared.
#[verifier::external_body]
fn option_given(matches: &getopts::Matches, name: &str) -> (given: bool)
    requires
        occurrences(*matches).dom().contains(name@),
    ensures
        given == was_given(occurrences(*matches), name@),
{
    matches.opt_present(name)
}

/// Calls `getopts::Matches::opt_str`: the value with which the option was
/// first given, if it was given and had one. It panics on a name that was not
/// declared.
#[verifier::external_body]
fn option_value(matches: &getopts::Matches, name: &str) -> (value: Option<String>)
    requires
        occurrences(*matches).dom().contains(name@),
    ensures
        text_of(value) == first_value(occurrences(*matches), name@),
{
    matches.opt_str(name)
}

/// Takes the field `free` of a `getopts::Matches`: the arguments that belong
/// to no option.
#[verifier::external_body]
fn free_arguments(matches: getopts::Matches) -> (free: Vec<String>)
    ensures
        texts(free@) == free_of(matches),
{
    matches.free
}

/// What a parsed command line holds.
#[derive(Debug, PartialEq, Eq)]
pub struct Parsed {
    /// Whether help was asked for.
    pub help: bool,
    /// The text given for the region, if any.
    pub subimage: Option<String>,
    /// The arguments that belong to no option.
    pub free: Vec<String>,
}

/// What a command line asks for.
#[derive(Debug, PartialEq, Eq)]
pub enum Command {
    /// To show the usage text and do nothing else.
    Usage,
    /// To compare two image files, over a region or in full.
    Compare { first: String, second: String, region: Option<Rectangle> },
}

/// What a command line asks for, with the file names as character sequences.
pub enum Plan {
    Usage,
    Compare { first: Seq<char>, second: Seq<char>, region: Option<Rectangle> },
}

impl Parsed {
    /// The text given for the region, as characters.
    pub open spec fn subimage_text(&self) -> Option<Seq<char>> {
        text_of(self.subimage)
    }

    /// The free arguments, as character sequences.
    pub open spec fn free_texts(&self) -> Seq<Seq<char>> {
        texts(self.free@)
    }
}

impl Command {
    /// The command with its file names as character sequences.
    pub open spec fn view(&self) -> Plan {
        match *self {
            Command::Usage => Plan::Usage,
            Command::Compare { first, second, region } => Plan::Compare {
                first: first@,
                second: second@,
                region,
            },
        }
    }
}

/// What a parsed command line asks for. It asks for a comparison when help
/// was not asked for, the region, where one is given, is a rectangle, and
/// there are exactly two free arguments, the two files; and for the usage
/// text in every other case.
pub open spec fn spec_decide(
    help: bool,
    subimage: Option<Seq<char>>,
    free: Seq<Seq<char>>,
) -> Plan {
    if help || free.len() != 2 {
        Plan::Usage
    } else {
        match subimage {
            None => Plan::Compare { first: free[0], second: free[1], region: None },
            Some(text) => match spec_rectangle(text) {
                Some(r) => Plan::Compare { first: free[0], second: free[1], region: Some(r) },
                None => Plan::Usage,
            },
        }
    }
}

/// Decides what a parsed command line asks for.
pub fn decide(parsed: &Parsed) -> (c: Command)
    ensures
        c@ == spec_decide(parsed.help, parsed.subimage_text(), parsed.free_texts()),
{
    if parsed.help || parsed.free.len() != 2 {
        return Command::Usage;
    }
    let region = match &parsed.subimage {
        None => None,
        Some(text) => match parse_rectangle(text.as_str()) {
            Some(r) => Some(r),
            None => { return Command::Usage; },
        },
    };
    assert(parsed.free_texts()[0] == parsed.free@[0]@);
    assert(parsed.free_texts()[1] == parsed.free@[1]@);
    Command::Compare { first: parsed.free[0].clone(), second: parsed.free[1].clone(), region }
}

/// The declarations of the command line: `-h` or `--help`, and `-s` or
/// `--subimage` with the region as its value.
pub open spec fn command_line_options() -> Seq<Declaration> {
    seq![
        flag("h"@, "help"@, "print this help menu"@),
        valued(
            "s"@,
            "subimage"@,
            "only compare a subregion of the image"@,
            "x y width height"@,
        ),
    ]
}

/// Makes the options of the command line.
fn options() -> (opts: getopts::Options)
    ensures
        declared(opts) == command_line_options(),
        parsing_mode(opts) == (false, false),
        all_named(declared(opts)),
{
    let mut opts = getopts::Options::new();
    proof {
        reveal_strlit("h");
        reveal_strlit("help");
        reveal_strlit("s");
        reveal_strlit("subimage");
    }
    declare_flag(&mut opts, "h", "help", "print this help menu");
    declare_value(
        &mut opts,
        "s",
        "subimage",
        "only compare a subregion of the image",
        "x y width height",
    );
    assert(declared(opts) =~= command_line_options());
    opts
}

/// The first line of the usage text for a program of the given name.
pub open spec fn spec_brief(program: Seq<char>) -> Seq<char> {
    "Usage: "@ + program + " FILE1 FILE2 [options]"@
}

/// The usage text for a program of the given name: the line that says how to
/// call it, and then the options.
pub fn usage(program: &str) -> (text: String)
    ensures
        (spec_brief(program@) + options_heading()).is_prefix_of(text@),
{
    let opts = options();
    let mut brief = String::from_str("Usage: ");
    brief.append(program);
    brief.append(" FILE1 FILE2 [options]");
    usage_text(&opts, brief.as_str())
}

/// Reads out of a parsed command line what the decision rests on: whether
/// `-h` was given, the value of `-s` if it was given, and the free arguments.
/// An option that the command line does not declare counts as not given.
fn read(matches: getopts::Matches) -> (parsed: Parsed)
    ensures
        parsed.help == was_given(occurrences(matches), "h"@),
        parsed.subimage_text() == first_value(occurrences(matches), "s"@),
        parsed.free_texts() == free_of(matches),
{
    let help = option_defined(&matches, "h") && option_given(&matches, "h");
    let subimage = if option_defined(&matches, "s") {
        option_value(&matches, "s")
    } else {
        None
    };
    let free = free_arguments(matches);
    Parsed { help, subimage, free }
}

/// The arguments without the first, which is the program's name.
fn tail(args: &Vec<String>) -> (rest: Vec<String>)
    requires
        args@.len() > 0,
    ensures
        rest@ == args@.skip(1),
{
    let mut rest: Vec<String> = Vec::new();
    let mut i: usize = 1;
    while i < args.len()
        invariant
            1 <= i <= args@.len(),
            rest@ == args@.subrange(1, i as int),
        decreases args@.len() - i,
    {
        rest.push(args[i].clone());
        assert(args@.subrange(1, i + 1) =~= args@.subrange(1, i as int).push(args@[i as int]));
        i = i + 1;
    }
    assert(args@.subrange(1, args@.len() as int) =~= args@.skip(1));
    rest
}

/// What a command line asks for. `args` begins with the program's name.
/// Fewer than two arguments after it ask for the usage text. Otherwise
/// `getopts` parses what follows the name against the options of the command
/// line: where it refuses, the usage text is asked for, and else the outcome
/// is decided on whether `-h` was given, on the value of `-s` and on the free
/// arguments.
pub open spec fn spec_interpret(args: Seq<Seq<char>>) -> Plan {
    if args.len() < 3 {
        Plan::Usage
    } else {
        match parse_outcome(command_line_options(), (false, false), args.skip(1)) {
            None => Plan::Usage,
            Some(line) => spec_decide(
                was_given(line.occurrences, "h"@),
                first_value(line.occurrences, "s"@),
                line.free,
            ),
        }
    }
}

/// Says what a command line asks for.
pub fn interpret(args: &Vec<String>) -> (c: Command)
    ensures
        c@ == spec_interpret(texts(args@)),
{
    if args.len() < 3 {
        return Command::Usage;
    }
    let rest = tail(args);
    assert(texts(rest@) =~= texts(args@).skip(1));
    let opts = options();
    match parse_arguments(&opts, &rest) {
        Ok(matches) => {
            let parsed = read(matches);
            decide(&parsed)
        },
        Err(_) => Command::Usage,
    }
}

} // verus!
