//! What this library takes for granted of the `getopts` crate, which reads
//! the command line for it: the crate's types, and a contract for each of
//! its functions that the library calls. Nothing here is proved.

use getopts::{Matches, Options};
use vstd::prelude::*;

verus! {

/// `getopts::Options`: the options that a command line may hold. Its
/// inside is not looked at; `declared` and `plain_style` stand for it.
#[verifier::external_type_specification]
#[verifier::external_body]
pub struct ExOptions(getopts::Options);

/// `getopts::Matches`: what parsing found on a command line. Its inside is
/// not looked at; `occurrences` and `free_arguments` stand for it.
#[verifier::external_type_specification]
#[verifier::external_body]
pub struct ExMatches(getopts::Matches);

/// One option as it was declared: the name after `-`, the name after
/// `--`, the two texts for the usage message, and whether the option is
/// followed by a value. Every option here may be left out or given once.
pub ghost struct Declared {
    pub short_name: Seq<char>,
    pub long_name: Seq<char>,
    pub description: Seq<char>,
    pub hint: Seq<char>,
    pub takes_value: bool,
}

impl Declared {
    /// The names are such as `getopts` takes and can look up: the short
    /// one is empty or a single ASCII character, the long one is empty or
    /// has two characters or more, and one of them is there.
    pub open spec fn well_formed(self) -> bool {
        &&& self.short_name.len() == 0 || (self.short_name.len() == 1 && self.short_name[0] as u32
            <= 0x7f)
        &&& self.long_name.len() != 1
        &&& self.short_name.len() + self.long_name.len() > 0
    }
}

/// Every option in `table` is well formed.
pub open spec fn all_well_formed(table: Seq<Declared>) -> bool {
    forall|at: int| 0 <= at < table.len() ==> (#[trigger] table[at]).well_formed()
}

/// The option groups that `options` holds, in the order in which they
/// were declared.
pub uninterp spec fn declared(options: Options) -> Seq<Declared>;

/// `options` parses in the style that `Options::new` sets and that only
/// `Options::parsing_style` and `Options::long_only` change: free
/// arguments may stand anywhere, and a long name takes two hyphens.
pub uninterp spec fn plain_style(options: Options) -> bool;

/// For each name by which an option of `matches` can be asked for, what
/// was found of that option in the order of the command line: `None` for
/// an occurrence without a value, else the value.
pub uninterp spec fn occurrences(matches: Matches) -> Map<Seq<char>, Seq<Option<Seq<char>>>>;

/// The arguments of the command line that belong to no option, in their
/// order: the public field `free` of `matches`.
pub uninterp spec fn free_arguments(matches: Matches) -> Seq<Seq<char>>;

/// What `Options::parse` makes of the arguments `args` when the options
/// `table` were declared, in the plain style: either what was found of
/// each option and the free arguments, or the words of the failure.
pub uninterp spec fn parse_outcome(table: Seq<Declared>, args: Seq<Seq<char>>) -> Result<
    (Map<Seq<char>, Seq<Option<Seq<char>>>>, Seq<Seq<char>>),
    Seq<char>,
>;

/// The usage message that `Options::usage` writes below the line `brief`
/// when the options `table` were declared, in the plain style.
pub uninterp spec fn usage_text(table: Seq<Declared>, brief: Seq<char>) -> Seq<char>;

/// What asking for the value of an option gives: the value of its first
/// occurrence, if there is an occurrence and it has a value.
pub open spec fn first_value(found: Seq<Option<Seq<char>>>) -> Option<Seq<char>> {
    if found.len() > 0 {
        found[0]
    } else {
        None
    }
}

/// The option `option` can be asked for in `found` by each of its names.
pub open spec fn answers_by_name(
    found: Map<Seq<char>, Seq<Option<Seq<char>>>>,
    option: Declared,
) -> bool {
    &&& option.short_name.len() > 0 ==> found.dom().contains(option.short_name)
    &&& option.long_name.len() > 0 ==> found.dom().contains(option.long_name)
}

/// `getopts::Options::new` gives options of which none is declared yet,
/// in the plain style.
pub assume_specification[ getopts::Options::new ]() -> (options: getopts::Options)
    ensures
        declared(options) == Seq::<Declared>::empty(),
        plain_style(options),
;

/// `getopts::Options::optopt` declares, after those that are there, an
/// option that takes a value, and leaves the style alone. It panics on a
/// short name of more than one byte and on a long name of one byte, which
/// `well_formed` leaves out.
#[verifier::external_body]
pub(crate) fn declare_valued(
    options: &mut Options,
    short_name: &str,
    long_name: &str,
    description: &str,
    hint: &str,
)
    requires
        (Declared {
            short_name: short_name@,
            long_name: long_name@,
            description: description@,
            hint: hint@,
            takes_value: true,
        }).well_formed(),
    ensures
        declared(*final(options)) == declared(*old(options)).push(
            (Declared {
                short_name: short_name@,
                long_name: long_name@,
                description: description@,
                hint: hint@,
                takes_value: true,
            }),
        ),
        plain_style(*final(options)) == plain_style(*old(options)),
{
    options.optopt(short_name, long_name, description, hint);
}

/// `getopts::Options::optflag` declares, after those that are there, an
/// option that takes no value and has an empty hint, and leaves the style
/// alone. It panics on the same names as `optopt`.
#[verifier::external_body]
pub(crate) fn declare_flag(
    options: &mut Options,
    short_name: &str,
    long_name: &str,
    description: &str,
)
    requires
        (Declared {
            short_name: short_name@,
            long_name: long_name@,
            description: description@,
            hint: Seq::empty(),
            takes_value: false,
        }).well_formed(),
    ensures
        declared(*final(options)) == declared(*old(options)).push(
            (Declared {
                short_name: short_name@,
                long_name: long_name@,
                description: description@,
                hint: Seq::empty(),
                takes_value: false,
            }),
        ),
        plain_style(*final(options)) == plain_style(*old(options)),
{
    options.optflag(short_name, long_name, description);
}

/// `getopts::Options::parse`, with a failure turned into its words by the
/// `Display` of `getopts::Fail`. The result depends on the declared
/// options and the arguments alone, so it is `parse_outcome` of them; and
/// in what was found, each declared option can be asked for by its names.
/// `parse` panics on an option without any name, which `well_formed`
/// leaves out.
#[verifier::external_body]
pub(crate) fn parse_arguments_with(options: &Options, args: &[String]) -> (parsed: Result<
    Matches,
    String,
>)
    requires
        plain_style(*options),
        all_well_formed(declared(*options)),
    ensures
        match parsed {
            Ok(matches) => {
                &&& parse_outcome(declared(*options), args.deep_view()) == Ok::<
                    (Map<Seq<char>, Seq<Option<Seq<char>>>>, Seq<Seq<char>>),
                    Seq<char>,
                >((occurrences(matches), free_arguments(matches)))
                &&& forall|at: int|
                    0 <= at < declared(*options).len() ==> answers_by_name(
                        occurrences(matches),
                        #[trigger] declared(*options)[at],
                    )
            },
            Err(message) => parse_outcome(declared(*options), args.deep_view()) == Err::<
                (Map<Seq<char>, Seq<Option<Seq<char>>>>, Seq<Seq<char>>),
                Seq<char>,
            >(message@),
        },
{
    match options.parse(args) {
        Ok(matches) => Ok(matches),
        Err(fail) => Err(fail.to_string()),
    }
}

/// `getopts::Matches::opt_present` says whether the option was found at
/// all. It panics on a name that no declared option has.
pub assume_specification[ getopts::Matches::opt_present ](
    matches: &getopts::Matches,
    name: &str,
) -> (present: bool)
    requires
        occurrences(*matches).dom().contains(name@),
    ensures
        present == (occurrences(*matches)[name@].len() > 0),
;

/// `getopts::Matches::opt_str` gives the value of the option's first
/// occurrence, or `None` where the option was not found or was found
/// without a value. It panics on a name that no declared option has.
pub assume_specification[ getopts::Matches::opt_str ](
    matches: &getopts::Matches,
    name: &str,
) -> (value: Option<String>)
    requires
        occurrences(*matches).dom().contains(name@),
    ensures
        match value {
            Some(text) => first_value(occurrences(*matches)[name@]) == Some(text@),
            None => first_value(occurrences(*matches)[name@]) is None,
        },
;

/// The public field `free` of `getopts::Matches`: the free arguments.
#[verifier::external_body]
pub(crate) fn free_of(matches: &Matches) -> (free: &Vec<String>)
    ensures
        free.deep_view() == free_arguments(*matches),
{
    &matches.free
}

/// `getopts::Options::usage` writes the usage message below `brief`; it
/// depends on the declared options and on `brief` alone.
pub assume_specification[ getopts::Options::usage ](
    options: &getopts::Options,
    brief: &str,
) -> (text: String)
    requires
        plain_style(*options),
        all_well_formed(declared(*options)),
    ensures
        text@ == usage_text(declared(*options), brief@),
;

} // verus!
