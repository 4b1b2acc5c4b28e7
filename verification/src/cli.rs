//! The command line: which options there are, and what request a list of
//! arguments stands for.

use crate::options::{
    all_well_formed, answers_by_name, declare_flag, declare_valued, declared, first_value, free_of,
    occurrences, parse_arguments_with, parse_outcome, plain_style, usage_text, Declared,
};
use getopts::Options;
use vstd::prelude::*;
use vstd::slice::slice_subrange;

verus! {

/// What a command line asks for.
#[derive(Debug, PartialEq, Eq)]
pub enum Request {
    /// To show the usage message and do nothing else.
    ShowUsage,
    /// To make the configuration for `input_directory`, and to write it to
    /// the file `output_path`, or to standard output where there is none.
    Generate { input_directory: String, output_path: Option<String> },
}

/// Why a command line stands for no request.
#[derive(Debug, PartialEq, Eq)]
pub enum UsageError {
    /// No input directory is named.
    NoInputDirectory,
    /// More than one argument stands where the input directory belongs.
    TooManyArguments,
    /// The options are not such as the program takes; the words of the
    /// failure.
    MalformedOptions(String),
    /// The option for the output path was found without a path.
    MissingOutputPath,
}

/// A `Request` with its texts as sequences of characters.
pub ghost enum RequestView {
    ShowUsage,
    Generate { input_directory: Seq<char>, output_path: Option<Seq<char>> },
}

/// A `UsageError` with its text as a sequence of characters.
pub ghost enum UsageErrorView {
    NoInputDirectory,
    TooManyArguments,
    MalformedOptions(Seq<char>),
    MissingOutputPath,
}

impl View for Request {
    type V = RequestView;

    open spec fn view(&self) -> RequestView {
        match self {
            Request::ShowUsage => RequestView::ShowUsage,
            Request::Generate { input_directory, output_path } => RequestView::Generate {
                input_directory: input_directory@,
                output_path: match output_path {
                    Some(path) => Some(path@),
                    None => None,
                },
            },
        }
    }
}

impl View for UsageError {
    type V = UsageErrorView;

    open spec fn view(&self) -> UsageErrorView {
        match self {
            UsageError::NoInputDirectory => UsageErrorView::NoInputDirectory,
            UsageError::TooManyArguments => UsageErrorView::TooManyArguments,
            UsageError::MalformedOptions(message) => UsageErrorView::MalformedOptions(message@),
            UsageError::MissingOutputPath => UsageErrorView::MissingOutputPath,
        }
    }
}

impl UsageErrorView {
    /// The words that report the error.
    pub open spec fn message(self) -> Seq<char> {
        match self {
            UsageErrorView::NoInputDirectory => "No input directory"@,
            UsageErrorView::TooManyArguments => "Too many arguments entered"@,
            UsageErrorView::MalformedOptions(message) => message,
            UsageErrorView::MissingOutputPath => "No output path"@,
        }
    }
}

impl UsageError {
    /// The words that report the error.
    pub fn message(&self) -> (text: String)
        ensures
            text@ == self@.message(),
    {
        match self {
            UsageError::NoInputDirectory => "No input directory".to_owned(),
            UsageError::TooManyArguments => "Too many arguments entered".to_owned(),
            UsageError::MalformedOptions(message) => message.clone(),
            UsageError::MissingOutputPath => "No output path".to_owned(),
        }
    }
}

/// The view of a request or of the error in its place.
pub open spec fn outcome_view(outcome: Result<Request, UsageError>) -> Result<
    RequestView,
    UsageErrorView,
> {
    match outcome {
        Ok(request) => Ok(request@),
        Err(error) => Err(error@),
    }
}

/// The options of the program: `-o` with the path of the output file, and
/// `-h` or `--help`.
pub open spec fn program_options() -> Seq<Declared> {
    seq![
        (Declared {
            short_name: "o"@,
            long_name: ""@,
            description: "set output file path, e.g., \"/my/dir/grub.cfg\""@,
            hint: "OUTPUT_PATH"@,
            takes_value: true,
        }),
        (Declared {
            short_name: "h"@,
            long_name: "help"@,
            description: "print this help menu"@,
            hint: Seq::empty(),
            takes_value: false,
        }),
    ]
}

/// The options of the program are well formed, and `o` and `h` are the
/// short names of the first and the second.
proof fn lemma_program_options()
    ensures
        all_well_formed(program_options()),
        program_options().len() == 2,
        program_options()[0].short_name == "o"@,
        program_options()[1].short_name == "h"@,
        "o"@.len() == 1,
        "h"@.len() == 1,
{
    reveal_strlit("o");
    reveal_strlit("");
    reveal_strlit("h");
    reveal_strlit("help");
}

/// Declares the options of the program.
pub fn declare_options() -> (options: Options)
    ensures
        declared(options) == program_options(),
        plain_style(options),
{
    let mut options = Options::new();
    proof {
        lemma_program_options();
    }
    declare_valued(
        &mut options,
        "o",
        "",
        "set output file path, e.g., \"/my/dir/grub.cfg\"",
        "OUTPUT_PATH",
    );
    declare_flag(&mut options, "h", "help", "print this help menu");
    options
}

/// The request that stands behind what was found on a command line:
/// whether help was asked for, whether the output option was found and
/// with which path, and the free arguments.
///
/// Help comes before everything else. Without it, exactly one free
/// argument is asked for, the input directory. The output option counts
/// only where it was found, and then it is asked to have a path.
pub open spec fn request_for(
    help: bool,
    output_found: bool,
    output_path: Option<Seq<char>>,
    free: Seq<Seq<char>>,
) -> Result<RequestView, UsageErrorView> {
    if help {
        Ok(RequestView::ShowUsage)
    } else if free.len() == 0 {
        Err(UsageErrorView::NoInputDirectory)
    } else if free.len() > 1 {
        Err(UsageErrorView::TooManyArguments)
    } else if !output_found {
        Ok(RequestView::Generate { input_directory: free[0], output_path: None })
    } else if output_path is Some {
        Ok(RequestView::Generate { input_directory: free[0], output_path })
    } else {
        Err(UsageErrorView::MissingOutputPath)
    }
}

/// Decides on the request from what was found on a command line.
pub fn interpret_matches(
    help: bool,
    output_found: bool,
    output_path: Option<String>,
    free: &Vec<String>,
) -> (outcome: Result<Request, UsageError>)
    ensures
        outcome_view(outcome) == request_for(
            help,
            output_found,
            match output_path {
                Some(path) => Some(path@),
                None => None,
            },
            free.deep_view(),
        ),
{
    if help {
        Ok(Request::ShowUsage)
    } else if free.len() == 0 {
        Err(UsageError::NoInputDirectory)
    } else if free.len() > 1 {
        Err(UsageError::TooManyArguments)
    } else {
        let input_directory = free[0].clone();
        assert(input_directory@ == free.deep_view()[0]);
        if !output_found {
            Ok(Request::Generate { input_directory, output_path: None })
        } else {
            match output_path {
                Some(path) => Ok(Request::Generate { input_directory, output_path: Some(path) }),
                None => Err(UsageError::MissingOutputPath),
            }
        }
    }
}

/// The arguments that follow the name of the program, which comes first
/// in the list that a process is started with.
pub open spec fn after_program_name(args: Seq<Seq<char>>) -> Seq<Seq<char>> {
    if args.len() == 0 {
        args
    } else {
        args.skip(1)
    }
}

/// The request that the outcome of parsing stands for: a failure is
/// malformed options; else help is what was found of `h`, and the output
/// path what was found of `o`.
pub open spec fn request_of(
    outcome: Result<(Map<Seq<char>, Seq<Option<Seq<char>>>>, Seq<Seq<char>>), Seq<char>>,
) -> Result<RequestView, UsageErrorView> {
    match outcome {
        Err(message) => Err(UsageErrorView::MalformedOptions(message)),
        Ok((found, free)) => request_for(
            found["h"@].len() > 0,
            found["o"@].len() > 0,
            first_value(found["o"@]),
            free,
        ),
    }
}

/// Reads the argument list of the process, the program's name first, and
/// decides on the request: the arguments after the name are parsed for
/// the program's options, and what was found is interpreted.
pub fn parse_arguments(args: &Vec<String>) -> (outcome: Result<Request, UsageError>)
    ensures
        outcome_view(outcome) == request_of(
            parse_outcome(program_options(), after_program_name(args.deep_view())),
        ),
{
    let options = declare_options();
    let given: &[String] = if args.len() == 0 {
        args.as_slice()
    } else {
        slice_subrange(args.as_slice(), 1, args.len())
    };
    proof {
        lemma_program_options();
        assert(given.deep_view() == after_program_name(args.deep_view()));
    }
    match parse_arguments_with(&options, given) {
        Err(message) => Err(UsageError::MalformedOptions(message)),
        Ok(matches) => {
            assert(answers_by_name(occurrences(matches), program_options()[0]));
            assert(answers_by_name(occurrences(matches), program_options()[1]));
            let help = matches.opt_present("h");
            let output_found = matches.opt_present("o");
            let output_path = matches.opt_str("o");
            interpret_matches(help, output_found, output_path, free_of(&matches))
        },
    }
}

/// How the program is called in the usage message that it shows.
pub const INVOCATION: &'static str = "cargo run -- ";

/// The first line of the usage message for the program called `program`.
pub open spec fn brief(program: Seq<char>) -> Seq<char> {
    "Usage: "@ + program + " [options] INPUT_DIRECTORY"@
}

/// The usage message for the program called `program`: the line that
/// `brief` gives, and below it what `getopts` writes of the options.
pub fn usage_message(program: &str) -> (text: String)
    ensures
        text@ == usage_text(program_options(), brief(program@)),
{
    let options = declare_options();
    let mut first_line = String::new();
    first_line.append("Usage: ");
    first_line.append(program);
    first_line.append(" [options] INPUT_DIRECTORY");
    proof {
        lemma_program_options();
    }
    options.usage(first_line.as_str())
}

} // verus!
