//! Command lines, as `clap` reads them.
//!
//! A `clap::Command` is known here by the settings that were made on it, in
//! order, and a `clap::ArgMatches` by what it holds.

use vstd::prelude::*;

use crate::cli::relay_settings;

verus! {

/// A value that can be given on the command line as `--long value`.
pub struct OptionRule {
    pub id: &'static str,
    pub long: &'static str,
    pub value_name: &'static str,
    pub help: Option<&'static str>,
    /// Whether it may also follow any subcommand.
    pub global: bool,
    pub default_value: Option<&'static str>,
}

/// A setting of a command.
pub enum Setting {
    /// Its name, and what it is about.
    Named { name: Seq<char>, about: Seq<char> },
    /// One of its subcommands must be given.
    SubcommandRequired,
    /// A flag `--long`.
    Flag { id: Seq<char>, long: Seq<char>, help: Seq<char>, global: bool },
    /// An option with any text as its value.
    Text(RuleView),
    /// An option with any text but the empty one as its value.
    Path(RuleView),
    /// The same, where an environment variable stands in for the option; `value`
    /// is what the variable held when the setting was made, byte by byte.
    PathOrVariable { rule: RuleView, variable: Seq<char>, value: Option<Seq<u8>> },
    /// A subcommand, by its settings.
    Subcommand(Seq<Setting>),
}

/// What an [`OptionRule`] says.
pub struct RuleView {
    pub id: Seq<char>,
    pub long: Seq<char>,
    pub value_name: Seq<char>,
    pub help: Option<Seq<char>>,
    pub global: bool,
    pub default_value: Option<Seq<char>>,
}

impl View for OptionRule {
    type V = RuleView;

    open spec fn view(&self) -> RuleView {
        RuleView {
            id: self.id@,
            long: self.long@,
            value_name: self.value_name@,
            help: literal_view(self.help),
            global: self.global,
            default_value: literal_view(self.default_value),
        }
    }
}

/// The characters of a literal, if there is one.
pub open spec fn literal_view(literal: Option<&'static str>) -> Option<Seq<char>> {
    match literal {
        Some(literal) => Some(literal@),
        None => None,
    }
}

/// Something that a command line gives.
pub enum Matched {
    /// The flag with this id.
    Flag(Seq<char>),
    /// The option with this id, and its value.
    Text(Seq<char>, Seq<char>),
    /// The subcommand with this name, and what is given for it.
    Subcommand(Seq<char>, Seq<Matched>),
}

/// Whether a flag is given.
pub open spec fn flag_in(matched: Seq<Matched>, id: Seq<char>) -> bool {
    matched.contains(Matched::Flag(id))
}

/// The value that is given for an option, if there is one.
pub open spec fn text_in(matched: Seq<Matched>, id: Seq<char>) -> Option<Seq<char>>
    decreases matched.len(),
{
    if matched.len() == 0 {
        None
    } else {
        match matched[0] {
            Matched::Text(key, value) if key == id => Some(value),
            _ => text_in(matched.drop_first(), id),
        }
    }
}

/// The subcommand that is given, if there is one.
pub open spec fn subcommand_in(matched: Seq<Matched>) -> Option<(Seq<char>, Seq<Matched>)>
    decreases matched.len(),
{
    if matched.len() == 0 {
        None
    } else {
        match matched[0] {
            Matched::Subcommand(name, inner) => Some((name, inner)),
            _ => subcommand_in(matched.drop_first()),
        }
    }
}

/// A message instead of a command: a usage error, or the help that was asked
/// for.
#[derive(Debug)]
pub struct UsageError {
    pub message: String,
    /// The status to exit with: zero where help was asked for.
    pub exit_code: i32,
}

/// `clap::Command`, which says what a command line may give.
#[verifier::external_type_specification]
#[verifier::external_body]
pub struct ExCommand(clap::Command);

/// `clap::ArgMatches`, which holds what a command line gives.
#[verifier::external_type_specification]
#[verifier::external_body]
pub struct ExArgMatches(clap::ArgMatches);

/// The settings that a `clap::Command` holds, in the order in which they were
/// made.
pub uninterp spec fn settings_of(command: clap::Command) -> Seq<Setting>;

/// What a `clap::ArgMatches` holds.
pub uninterp spec fn matched_in(given: clap::ArgMatches) -> Seq<Matched>;

/// What `clap::Command::try_get_matches_from` makes of a command line under a
/// command with these settings: what the command line gives, or the message and
/// the exit status of the error.
pub uninterp spec fn matches_for(settings: Seq<Setting>, arguments: Seq<Seq<char>>) -> Result<
    Seq<Matched>,
    (Seq<char>, i32),
>;

/// What came of reading a command line.
pub open spec fn found_view(found: Result<clap::ArgMatches, UsageError>) -> Result<
    Seq<Matched>,
    (Seq<char>, i32),
> {
    match found {
        Ok(given) => Ok(matched_in(given)),
        Err(error) => Err((error.message@, error.exit_code)),
    }
}

/// The characters of each argument.
pub open spec fn arguments_view(arguments: Seq<String>) -> Seq<Seq<char>> {
    arguments.map_values(|argument: String| argument@)
}

/// `clap::Command::new` and `clap::Command::about`: a command with a name and a
/// description and nothing else.
#[verifier::external_body]
pub(crate) fn new_command(name: &'static str, about: &'static str) -> (command: clap::Command)
    ensures
        settings_of(command) == seq![Setting::Named { name: name@, about: about@ }],
{
    clap::Command::new(name).about(about)
}

/// `clap::Command::subcommand_required` and, as a derived parser has it,
/// `clap::Command::arg_required_else_help`: one of the subcommands must be given.
///
/// Both only set a bit of the command, whenever they are called: this counts as
/// a setting right after the name.
#[verifier::external_body]
pub(crate) fn require_subcommand(command: clap::Command) -> (required: clap::Command)
    requires
        settings_of(command).len() == 1,
    ensures
        settings_of(required) == settings_of(command).push(Setting::SubcommandRequired),
{
    command.subcommand_required(true).arg_required_else_help(true)
}

/// `clap::Command::arg` with an argument that is true where it is given.
#[verifier::external_body]
pub(crate) fn add_flag(
    command: clap::Command,
    id: &'static str,
    long: &'static str,
    help: &'static str,
    global: bool,
) -> (extended: clap::Command)
    ensures
        settings_of(extended) == settings_of(command).push(
            Setting::Flag { id: id@, long: long@, help: help@, global },
        ),
{
    let flag = clap::Arg::new(id).long(long).help(help).global(global);
    command.arg(flag.action(clap::ArgAction::SetTrue))
}

/// `clap::Command::arg` with an argument that takes any string.
#[verifier::external_body]
pub(crate) fn add_text(command: clap::Command, rule: OptionRule) -> (extended: clap::Command)
    ensures
        settings_of(extended) == settings_of(command).push(Setting::Text(rule@)),
{
    let option = clap::Arg::new(rule.id).long(rule.long).help(rule.help).global(rule.global);
    let option = option.value_name(rule.value_name).default_value(rule.default_value);
    command.arg(option.value_parser(clap::builder::StringValueParser::new()))
}

/// `clap::Command::arg` with an argument that takes any string but the empty one.
#[verifier::external_body]
pub(crate) fn add_path(command: clap::Command, rule: OptionRule) -> (extended: clap::Command)
    ensures
        settings_of(extended) == settings_of(command).push(Setting::Path(rule@)),
{
    let option = clap::Arg::new(rule.id).long(rule.long).help(rule.help).global(rule.global);
    let option = option.value_name(rule.value_name).default_value(rule.default_value);
    command.arg(option.value_parser(clap::builder::NonEmptyStringValueParser::new()))
}

/// The setting of an option for which a variable stands in.
pub open spec fn variable_setting(
    rule: RuleView,
    variable: Seq<char>,
    value: Option<Seq<u8>>,
) -> Setting {
    Setting::PathOrVariable { rule, variable, value }
}

/// `clap::Command::arg` with an argument that takes any string but the empty
/// one, and `clap::Arg::env`, which reads the variable that stands in for it
/// there and then.  What it reads depends on the environment.
#[verifier::external_body]
pub(crate) fn add_path_or_variable(
    command: clap::Command,
    rule: OptionRule,
    variable: &'static str,
) -> (extended: clap::Command)
    ensures
        exists|value: Option<Seq<u8>>|
            settings_of(extended) == settings_of(command).push(
                #[trigger] variable_setting(rule@, variable@, value),
            ),
{
    let option = clap::Arg::new(rule.id).long(rule.long).help(rule.help).global(rule.global);
    let option = option.value_name(rule.value_name).default_value(rule.default_value);
    let option = option.value_parser(clap::builder::NonEmptyStringValueParser::new());
    command.arg(option.env(variable))
}

/// `clap::Command::subcommand`: one more subcommand.
#[verifier::external_body]
pub(crate) fn add_subcommand(command: clap::Command, subcommand: clap::Command) -> (extended: clap::Command)
    ensures
        settings_of(extended) == settings_of(command).push(
            Setting::Subcommand(settings_of(subcommand)),
        ),
{
    command.subcommand(subcommand)
}

/// `clap::Command::try_get_matches_from`: reads a command line, the program's
/// name included.
///
/// The environment was read when the settings were made, so what comes out is a
/// function of the settings and of the arguments.  On settings that contradict
/// each other `clap` panics; it takes those of the relay, whatever value of
/// `CODEX_RELAY_HOME` they hold.
#[verifier::external_body]
pub(crate) fn match_arguments(command: clap::Command, arguments: &Vec<String>) -> (found: Result<
    clap::ArgMatches,
    UsageError,
>)
    requires
        exists|value: Option<Seq<u8>>| settings_of(command) == #[trigger] relay_settings(value),
    ensures
        found_view(found) == matches_for(settings_of(command), arguments_view(arguments@)),
{
    command.try_get_matches_from(arguments).map_err(
        |error| UsageError { message: error.to_string(), exit_code: error.exit_code() },
    )
}

/// `clap::ArgMatches::try_get_one` on a flag: whether it is given.
#[verifier::external_body]
pub(crate) fn matched_flag(given: &clap::ArgMatches, id: &str) -> (is_given: bool)
    ensures
        is_given == flag_in(matched_in(*given), id@),
{
    given.try_get_one::<bool>(id).ok().flatten().copied().unwrap_or(false)
}

/// `clap::ArgMatches::try_get_one` on an option: the value that is given, or
/// the default value.
#[verifier::external_body]
pub(crate) fn matched_text(given: &clap::ArgMatches, id: &str) -> (value: Option<String>)
    ensures
        match value {
            Some(value) => text_in(matched_in(*given), id@) == Some(value@),
            None => text_in(matched_in(*given), id@) is None,
        },
{
    given.try_get_one::<String>(id).ok().flatten().cloned()
}

/// `clap::ArgMatches::remove_subcommand`: the subcommand that is given, and what
/// is given for it.
#[verifier::external_body]
pub(crate) fn matched_subcommand(mut given: clap::ArgMatches) -> (subcommand: Option<
    (String, clap::ArgMatches),
>)
    ensures
        match subcommand {
            Some((name, inner)) => subcommand_in(matched_in(given)) == Some(
                (name@, matched_in(inner)),
            ),
            None => subcommand_in(matched_in(given)) is None,
        },
{
    given.remove_subcommand()
}

/// A flag is given exactly where it is among what was matched, the value of an
/// option is the first that is given for it, and the subcommand is the first.
pub proof fn law_first_match_counts(matched: Seq<Matched>, id: Seq<char>)
    ensures
        flag_in(matched, id) <==> exists|i: int|
            0 <= i < matched.len() && #[trigger] matched[i] == Matched::Flag(id),
        match text_in(matched, id) {
            Some(value) => exists|i: int|
                0 <= i < matched.len() && #[trigger] matched[i] == Matched::Text(id, value) && forall|
                    j: int,
                |
                    0 <= j < i ==> !gives_text(#[trigger] matched[j], id),
            None => forall|j: int| 0 <= j < matched.len() ==> !gives_text(#[trigger] matched[j], id),
        },
        match subcommand_in(matched) {
            Some((name, inner)) => exists|i: int|
                0 <= i < matched.len() && #[trigger] matched[i] == Matched::Subcommand(name, inner)
                    && forall|j: int| 0 <= j < i ==> !((#[trigger] matched[j]) is Subcommand),
            None => forall|j: int| 0 <= j < matched.len() ==> !((#[trigger] matched[j]) is Subcommand),
        },
    decreases matched.len(),
{
    if matched.len() > 0 {
        let rest = matched.drop_first();
        law_first_match_counts(rest, id);
        assert forall|j: int| 0 < j < matched.len() implies #[trigger] matched[j] == rest[j - 1] by {}
        if gives_text(matched[0], id) {
            assert(text_in(matched, id) is Some);
        } else {
            if let Some(value) = text_in(rest, id) {
                let i = choose|i: int|
                    0 <= i < rest.len() && #[trigger] rest[i] == Matched::Text(id, value) && forall|
                        j: int,
                    |
                        0 <= j < i ==> !gives_text(#[trigger] rest[j], id);
                assert(matched[i + 1] == Matched::Text(id, value));
            }
        }
        if !(matched[0] is Subcommand) {
            if let Some((name, inner)) = subcommand_in(rest) {
                let i = choose|i: int|
                    0 <= i < rest.len() && #[trigger] rest[i] == Matched::Subcommand(name, inner)
                        && forall|j: int| 0 <= j < i ==> !((#[trigger] rest[j]) is Subcommand);
                assert(matched[i + 1] == Matched::Subcommand(name, inner));
            }
        }
    }
}

/// Whether a match gives a value for an option.
pub open spec fn gives_text(matched: Matched, id: Seq<char>) -> bool {
    matched matches Matched::Text(key, _) && key == id
}

/// Nothing of a rule is lost from view.
pub proof fn law_rules_are_seen_whole(rule: OptionRule)
    ensures
        rule@.id == rule.id@,
        rule@.long == rule.long@,
        rule@.value_name == rule.value_name@,
        rule@.global == rule.global,
        match (rule.help, rule@.help) {
            (Some(help), Some(h)) => h == help@,
            (None, None) => true,
            _ => false,
        },
        match (rule.default_value, rule@.default_value) {
            (Some(value), Some(v)) => v == value@,
            (None, None) => true,
            _ => false,
        },
{
}

/// Nothing of the arguments or of what came of reading them is lost from view.
pub proof fn law_arguments_are_seen_whole(
    arguments: Seq<String>,
    i: int,
    found: Result<clap::ArgMatches, UsageError>,
)
    ensures
        arguments_view(arguments).len() == arguments.len(),
        0 <= i < arguments.len() ==> arguments_view(arguments)[i] == arguments[i]@,
        match (found, found_view(found)) {
            (Ok(given), Ok(matched)) => matched == matched_in(given),
            (Err(error), Err((message, exit_code))) => message == error.message@ && exit_code
                == error.exit_code,
            _ => false,
        },
{
}

} // verus!
