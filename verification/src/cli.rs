//! The command line: one subcommand, `ask`, with one required argument, the question.
//!
//! The line is parsed by `clap`. What follows the parse is decided here.

use vstd::prelude::*;
use clap::builder::ValueParser;
use clap::{Arg, ArgAction, Command};

verus! {

/// The program's name, as help and version texts give it.
pub const PROGRAM: &'static str = "gpt_ask";

/// The program's version, as `--version` gives it.
pub const VERSION: &'static str = "0.1.0";

/// The one subcommand.
pub const SUBCOMMAND: &'static str = "ask";

/// What help says of the subcommand.
pub const SUBCOMMAND_ABOUT: &'static str = "Ask a single question";

/// The subcommand's one argument: it is positional and required.
pub const ARGUMENT: &'static str = "question";

/// What help says of the argument.
pub const ARGUMENT_HELP: &'static str = "The question to ask";

/// How many values an argument takes.
#[derive(Clone, Copy, Debug, PartialEq, Eq, Structural)]
pub enum Arity {
    /// One: the value is set once, and a second one is not taken.
    One,
}

/// What an argument's value is read as.
#[derive(Clone, Copy, Debug, PartialEq, Eq, Structural)]
pub enum Content {
    /// Text, kept as it was given.
    Text,
}

/// The grammar of a command line: a program with one subcommand, and below the
/// subcommand one positional argument.
#[derive(Clone, Copy, Debug, PartialEq, Eq)]
pub struct Grammar {
    /// The program's name, as help and version texts give it.
    pub program: &'static str,
    /// The program's version, as `--version` gives it.
    pub version: &'static str,
    /// Whether the program, given nothing after its name, shows its help and ends.
    pub program_needs_arguments: bool,
    /// The subcommand's name.
    pub subcommand: &'static str,
    /// What help says of the subcommand.
    pub about: &'static str,
    /// Whether the subcommand, given nothing after its name, shows its help and ends.
    pub subcommand_needs_arguments: bool,
    /// The argument's name.
    pub argument: &'static str,
    /// What help says of the argument.
    pub help: &'static str,
    /// Whether a line that names the subcommand must give the argument.
    pub required: bool,
    /// How many values the argument takes.
    pub arity: Arity,
    /// What the argument's value is read as.
    pub content: Content,
}

impl Grammar {
    /// The grammar of this program: exactly one subcommand, `ask`, which requires
    /// exactly one positional argument, the question, as text. A line without a
    /// subcommand, and `ask` without its argument, get help.
    pub open spec fn standard_spec() -> Grammar {
        Grammar {
            program: PROGRAM,
            version: VERSION,
            program_needs_arguments: true,
            subcommand: SUBCOMMAND,
            about: SUBCOMMAND_ABOUT,
            subcommand_needs_arguments: true,
            argument: ARGUMENT,
            help: ARGUMENT_HELP,
            required: true,
            arity: Arity::One,
            content: Content::Text,
        }
    }

    /// The grammar of this program.
    pub fn standard() -> (grammar: Grammar)
        ensures
            grammar == Self::standard_spec(),
    {
        Grammar {
            program: PROGRAM,
            version: VERSION,
            program_needs_arguments: true,
            subcommand: SUBCOMMAND,
            about: SUBCOMMAND_ABOUT,
            subcommand_needs_arguments: true,
            argument: ARGUMENT,
            help: ARGUMENT_HELP,
            required: true,
            arity: Arity::One,
            content: Content::Text,
        }
    }
}

/// The grammar of this program, spelled out: exactly one subcommand, `ask`; it takes
/// exactly one positional argument, `question`, which is required and is text; the
/// program without arguments, and `ask` without arguments, show help.
pub proof fn the_grammar_is_ask_with_one_question()
    ensures
        Grammar::standard_spec().subcommand@ == "ask"@,
        Grammar::standard_spec().argument@ == "question"@,
        Grammar::standard_spec().required,
        Grammar::standard_spec().arity == Arity::One,
        Grammar::standard_spec().content == Content::Text,
        Grammar::standard_spec().program_needs_arguments,
        Grammar::standard_spec().subcommand_needs_arguments,
{
}

/// The status with which the process ends on a line that cannot be used.
pub const USAGE_STATUS: i32 = 2;

/// What is written when the line parsed and yet names no question.
pub const USAGE_NOTICE: &'static str = "Usage: gpt_ask ask <question>\n";

/// What is written for a line that asks nothing, and how the process then ends: the
/// parser's help, its version text or its error, or the usage notice.
#[derive(Clone, Debug, PartialEq, Eq)]
pub struct Usage {
    /// The text to write.
    pub text: String,
    /// The status with which the process then ends.
    pub exit_code: i32,
    /// Whether the text goes to standard error rather than standard output.
    pub to_stderr: bool,
}

/// [`Usage`] as a plain value.
pub struct UsageView {
    pub text: Seq<char>,
    pub exit_code: i32,
    pub to_stderr: bool,
}

impl UsageView {
    /// Whether the status goes with the stream as the parser has it: status 2 with
    /// standard error, status 0 with standard output.
    pub open spec fn status_follows_stream(self) -> bool {
        self.exit_code == if self.to_stderr {
            USAGE_STATUS
        } else {
            0i32
        }
    }
}

impl View for Usage {
    type V = UsageView;

    open spec fn view(&self) -> UsageView {
        UsageView { text: self.text@, exit_code: self.exit_code, to_stderr: self.to_stderr }
    }
}

/// What the parser made of a line.
#[derive(Clone, Debug, PartialEq, Eq)]
pub enum Matches {
    /// The line parsed. The value is `None` where no subcommand was given; else it
    /// holds the argument of `ask`, if `ask` was given with one.
    Parsed(Option<Option<String>>),
    /// The parser declined the line.
    Declined(Usage),
}

/// [`Matches`] as a plain value.
pub enum MatchesView {
    Parsed(Option<Option<Seq<char>>>),
    Declined(UsageView),
}

impl View for Matches {
    type V = MatchesView;

    open spec fn view(&self) -> MatchesView {
        match self {
            Matches::Parsed(Some(Some(question))) => MatchesView::Parsed(Some(Some(question@))),
            Matches::Parsed(Some(None)) => MatchesView::Parsed(Some(None)),
            Matches::Parsed(None) => MatchesView::Parsed(None),
            Matches::Declined(usage) => MatchesView::Declined(usage@),
        }
    }
}

/// What a command line asks of the program.
#[derive(Clone, Debug, PartialEq, Eq)]
pub enum Invocation {
    /// Put the question to the service.
    Ask { question: String },
    /// Write the text and end: nothing is asked.
    Usage(Usage),
}

/// [`Invocation`] as a plain value.
pub enum InvocationView {
    Ask { question: Seq<char> },
    Usage(UsageView),
}

impl View for Invocation {
    type V = InvocationView;

    open spec fn view(&self) -> InvocationView {
        match self {
            Invocation::Ask { question } => InvocationView::Ask { question: question@ },
            Invocation::Usage(usage) => InvocationView::Usage(usage@),
        }
    }
}

/// What the parser makes of the tokens of a command line, the program's name first,
/// under the grammar of this program, [`Grammar::standard_spec`]. It names the result
/// of `clap`'s `Command::try_get_matches_from`, which depends on the tokens alone.
pub uninterp spec fn clap_matches(tokens: Seq<Seq<char>>) -> MatchesView;

/// What is written, and how the process ends, when the line parsed and yet names
/// no question.
pub open spec fn usage_notice() -> UsageView {
    UsageView { text: USAGE_NOTICE@, exit_code: USAGE_STATUS, to_stderr: true }
}

/// What a parsed line asks for. A question is asked exactly when the parser found
/// `ask` with its argument. What the parser declined is passed on as it is; a line
/// that parsed without a subcommand, or with `ask` and no argument, gets the usage
/// notice and a non-zero status.
pub open spec fn interpret_spec(matches: MatchesView) -> InvocationView {
    match matches {
        MatchesView::Parsed(Some(Some(question))) => InvocationView::Ask { question },
        MatchesView::Parsed(_) => InvocationView::Usage(usage_notice()),
        MatchesView::Declined(usage) => InvocationView::Usage(usage),
    }
}

/// What the tokens of a command line ask of the program.
pub open spec fn invocation_of(tokens: Seq<Seq<char>>) -> InvocationView {
    interpret_spec(clap_matches(tokens))
}

/// Builds the command that the parts of a grammar describe, with the builders of
/// `clap`'s `Command` and `Arg`, and calls `Command::try_get_matches_from` on the
/// tokens.
/// Trusted: for the grammar of this program the call returns, and its result is a
/// function of the tokens alone. On success it holds what
/// `ArgMatches::subcommand_matches` finds for the subcommand, and in it the value
/// that `ArgMatches::get_one` finds for the argument; on failure the error's
/// `to_string`, `exit_code` and `use_stderr`, of which `exit_code` is 2 where
/// `use_stderr` holds and 0 where it does not.
#[verifier::external_body]
fn matches_from(
    program: &'static str,
    version: &'static str,
    program_needs_arguments: bool,
    subcommand: &'static str,
    about: &'static str,
    subcommand_needs_arguments: bool,
    argument: &'static str,
    help: &'static str,
    required: bool,
    arity: Arity,
    content: Content,
    tokens: &Vec<String>,
) -> (matches: Matches)
    requires
        Grammar::standard_spec() == (Grammar {
            program,
            version,
            program_needs_arguments,
            subcommand,
            about,
            subcommand_needs_arguments,
            argument,
            help,
            required,
            arity,
            content,
        }),
    ensures
        matches@ == clap_matches(tokens.deep_view()),
        matches@ matches MatchesView::Declined(usage) ==> usage.status_follows_stream(),
{
    let value = Arg::new(argument).value_name(argument).help(help).required(required)
        .action(match arity { Arity::One => ArgAction::Set })
        .value_parser(match content { Content::Text => ValueParser::string() });
    let child = Command::new(subcommand).about(about).arg(value)
        .arg_required_else_help(subcommand_needs_arguments);
    let parent = Command::new(program).version(version).subcommand(child)
        .arg_required_else_help(program_needs_arguments);
    match parent.try_get_matches_from(tokens) {
        Ok(found) => Matches::Parsed(
            found.subcommand_matches(subcommand).map(|it| it.get_one::<String>(argument).cloned()),
        ),
        Err(error) => Matches::Declined(
            Usage { text: error.to_string(), exit_code: error.exit_code(), to_stderr: error.use_stderr() },
        ),
    }
}

/// Decides what a parsed line asks for.
pub fn interpret(matches: Matches) -> (invocation: Invocation)
    ensures
        invocation@ == interpret_spec(matches@),
{
    match matches {
        Matches::Parsed(Some(Some(question))) => Invocation::Ask { question },
        Matches::Parsed(_) => Invocation::Usage(
            Usage {
                text: String::from_str(USAGE_NOTICE),
                exit_code: USAGE_STATUS,
                to_stderr: true,
            },
        ),
        Matches::Declined(usage) => Invocation::Usage(usage),
    }
}

/// Reads a command line, given as its tokens with the program's name first.
pub fn parse_invocation(tokens: &Vec<String>) -> (invocation: Invocation)
    ensures
        invocation@ == invocation_of(tokens.deep_view()),
        invocation@ matches InvocationView::Usage(usage) ==> usage.status_follows_stream(),
{
    let grammar = Grammar::standard();
    interpret(
        matches_from(
            grammar.program,
            grammar.version,
            grammar.program_needs_arguments,
            grammar.subcommand,
            grammar.about,
            grammar.subcommand_needs_arguments,
            grammar.argument,
            grammar.help,
            grammar.required,
            grammar.arity,
            grammar.content,
            tokens,
        ),
    )
}

} // verus!
