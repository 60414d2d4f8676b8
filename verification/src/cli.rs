//! The command line of `codex-relay`.

use vstd::prelude::*;

use crate::command_line::{
    add_flag, add_path, add_path_or_variable, add_subcommand, add_text, arguments_view, flag_in, match_arguments,
    matched_flag, matched_subcommand, matched_text, matches_for, new_command, require_subcommand,
    settings_of, subcommand_in, text_in, variable_setting, Matched, OptionRule, RuleView, Setting, UsageError,
};
use crate::text::{copy_text, text_is, text_view};

verus! {

/// The ChatGPT backend that remote control uses.
pub const CHATGPT_BASE_URL: &'static str = "https://chatgpt.com/backend-api/";

/// Whether a run of the relay creates a pairing code.
#[derive(Debug, Clone, Copy, PartialEq, Eq, Structural)]
pub enum PairingMode {
    NoPairing,
    Manual,
}

/// How to run the relay.
#[derive(Debug)]
pub struct StartArgs {
    /// Codex executable used for the child app-server.
    pub codex: String,
    /// CODEX_HOME for the child app-server, if it is not the inherited one.
    pub codex_home: Option<String>,
    /// The ChatGPT backend used by remote control.
    pub remote_control_url: String,
    /// Name shown for this machine in remote control.
    pub name: Option<String>,
}

impl StartArgs {
    /// A copy of the arguments.
    pub fn copy(&self) -> (args: StartArgs)
        ensures
            args == *self,
    {
        StartArgs {
            codex: self.codex.clone(),
            codex_home: copy_text(&self.codex_home),
            remote_control_url: self.remote_control_url.clone(),
            name: copy_text(&self.name),
        }
    }
}

/// What to do for remote control.
#[derive(Debug)]
pub enum RemoteControlCommand {
    /// Start forwarding already-paired remote clients.
    Start(StartArgs),
    /// Start forwarding and print a new pairing code.
    Pair { start: StartArgs },
}

/// What to do.
#[derive(Debug)]
pub enum RelayCommand {
    /// Log the relay into the ChatGPT account used for remote control.
    Login { browser: bool },
    /// Run the relay, optionally creating a new pairing code.
    RemoteControl { command: RemoteControlCommand },
}

/// A command line.
#[derive(Debug)]
pub struct Cli {
    /// Print detailed transport, enrollment, and pairing diagnostics.
    pub verbose: bool,
    /// The relay's home, if it is given on the command line or by the
    /// environment.
    pub relay_home: Option<String>,
    pub command: RelayCommand,
}

pub struct StartArgsView {
    pub codex: Seq<char>,
    pub codex_home: Option<Seq<char>>,
    pub remote_control_url: Seq<char>,
    pub name: Option<Seq<char>>,
}

impl View for StartArgs {
    type V = StartArgsView;

    open spec fn view(&self) -> StartArgsView {
        StartArgsView {
            codex: self.codex@,
            codex_home: text_view(self.codex_home),
            remote_control_url: self.remote_control_url@,
            name: text_view(self.name),
        }
    }
}

pub enum CommandView {
    Login { browser: bool },
    Start(StartArgsView),
    Pair(StartArgsView),
}

impl View for RelayCommand {
    type V = CommandView;

    open spec fn view(&self) -> CommandView {
        match self {
            RelayCommand::Login { browser } => CommandView::Login { browser: *browser },
            RelayCommand::RemoteControl { command: RemoteControlCommand::Start(args) } => CommandView::Start(
                args@,
            ),
            RelayCommand::RemoteControl { command: RemoteControlCommand::Pair { start } } => CommandView::Pair(
                start@,
            ),
        }
    }
}

pub struct CliView {
    pub verbose: bool,
    pub relay_home: Option<Seq<char>>,
    pub command: CommandView,
}

impl View for Cli {
    type V = CliView;

    open spec fn view(&self) -> CliView {
        CliView {
            verbose: self.verbose,
            relay_home: text_view(self.relay_home),
            command: self.command@,
        }
    }
}

/// What the relay is asked to do.
#[derive(Debug)]
pub enum Task {
    /// Log in, by the browser if it is asked for.
    Login { browser: bool },
    /// Run the relay.
    Run { args: StartArgs, mode: PairingMode },
}

/// The task that a command asks for: a pairing code is made only for `pair`.
pub open spec fn task_of(command: RelayCommand) -> Task {
    match command {
        RelayCommand::Login { browser } => Task::Login { browser },
        RelayCommand::RemoteControl { command: RemoteControlCommand::Start(args) } => Task::Run {
            args,
            mode: PairingMode::NoPairing,
        },
        RelayCommand::RemoteControl { command: RemoteControlCommand::Pair { start } } => Task::Run {
            args: start,
            mode: PairingMode::Manual,
        },
    }
}

impl RelayCommand {
    /// The task that the command asks for.
    pub fn into_task(self) -> (task: Task)
        ensures
            task == task_of(self),
    {
        match self {
            RelayCommand::Login { browser } => Task::Login { browser },
            RelayCommand::RemoteControl { command } => match command {
                RemoteControlCommand::Start(args) => Task::Run { args, mode: PairingMode::NoPairing },
                RemoteControlCommand::Pair { start } => Task::Run {
                    args: start,
                    mode: PairingMode::Manual,
                },
            },
        }
    }
}

/// The settings of the options that say how to run the relay.
pub open spec fn start_settings() -> Seq<Setting> {
    seq![
        Setting::Path(
            RuleView {
                id: "codex"@,
                long: "codex"@,
                value_name: "CODEX"@,
                help: Some("Codex executable used for the child app-server"@),
                global: false,
                default_value: Some("codex"@),
            },
        ),
        Setting::Path(
            RuleView {
                id: "codex_home"@,
                long: "codex-home"@,
                value_name: "CODEX_HOME"@,
                help: Some("CODEX_HOME for Codex sessions. Omit to inherit the current environment"@),
                global: false,
                default_value: None,
            },
        ),
        Setting::Text(
            RuleView {
                id: "remote_control_url"@,
                long: "remote-control-url"@,
                value_name: "REMOTE_CONTROL_URL"@,
                help: Some("Override the ChatGPT backend used by remote control"@),
                global: false,
                default_value: Some(CHATGPT_BASE_URL@),
            },
        ),
        Setting::Text(
            RuleView {
                id: "name"@,
                long: "name"@,
                value_name: "NAME"@,
                help: Some("Name shown for this machine in remote control"@),
                global: false,
                default_value: None,
            },
        ),
    ]
}

/// The settings of `codex-relay`: its options, and its subcommands with theirs.
/// `value` is what `CODEX_RELAY_HOME` holds, if it is set.
pub open spec fn relay_settings(value: Option<Seq<u8>>) -> Seq<Setting> {
    seq![
        Setting::Named {
            name: "codex-relay"@,
            about: "Bridge ChatGPT remote control to a stock Codex app-server"@,
        },
        Setting::SubcommandRequired,
        Setting::Flag {
            id: "verbose"@,
            long: "verbose"@,
            help: "Print detailed transport, enrollment, and pairing diagnostics"@,
            global: true,
        },
        variable_setting(
            RuleView {
                id: "relay_home"@,
                long: "relay-home"@,
                value_name: "RELAY_HOME"@,
                help: None,
                global: true,
                default_value: None,
            },
            "CODEX_RELAY_HOME"@,
            value,
        ),
        Setting::Subcommand(
            seq![
                Setting::Named {
                    name: "login"@,
                    about: "Log the relay into the ChatGPT account used for remote control"@,
                },
                Setting::Flag {
                    id: "browser"@,
                    long: "browser"@,
                    help: "Use the local browser callback flow instead of device-code authentication"@,
                    global: false,
                },
            ],
        ),
        Setting::Subcommand(
            seq![
                Setting::Named {
                    name: "remote-control"@,
                    about: "Run the relay, optionally creating a new pairing code"@,
                },
                Setting::SubcommandRequired,
                Setting::Subcommand(
                    seq![
                        Setting::Named {
                            name: "start"@,
                            about: "Start forwarding already-paired remote clients"@,
                        },
                    ] + start_settings(),
                ),
                Setting::Subcommand(
                    seq![
                        Setting::Named {
                            name: "pair"@,
                            about: "Start forwarding and print a new pairing code"@,
                        },
                    ] + start_settings(),
                ),
            ],
        ),
    ]
}

/// Adds the options that say how to run the relay.
fn add_start_options(command: clap::Command) -> (extended: clap::Command)
    ensures
        settings_of(extended) == settings_of(command) + start_settings(),
{
    let with_codex = add_path(
        command,
        OptionRule {
            id: "codex",
            long: "codex",
            value_name: "CODEX",
            help: Some("Codex executable used for the child app-server"),
            global: false,
            default_value: Some("codex"),
        },
    );
    let with_home = add_path(
        with_codex,
        OptionRule {
            id: "codex_home",
            long: "codex-home",
            value_name: "CODEX_HOME",
            help: Some("CODEX_HOME for Codex sessions. Omit to inherit the current environment"),
            global: false,
            default_value: None,
        },
    );
    let with_url = add_text(
        with_home,
        OptionRule {
            id: "remote_control_url",
            long: "remote-control-url",
            value_name: "REMOTE_CONTROL_URL",
            help: Some("Override the ChatGPT backend used by remote control"),
            global: false,
            default_value: Some(CHATGPT_BASE_URL),
        },
    );
    let extended = add_text(
        with_url,
        OptionRule {
            id: "name",
            long: "name",
            value_name: "NAME",
            help: Some("Name shown for this machine in remote control"),
            global: false,
            default_value: None,
        },
    );
    proof {
        assert(settings_of(extended) =~= settings_of(command) + start_settings());
    }
    extended
}

/// The command `codex-relay`, under the value that `CODEX_RELAY_HOME` holds.
fn relay_command() -> (command: clap::Command)
    ensures
        exists|value: Option<Seq<u8>>| settings_of(command) == #[trigger] relay_settings(value),
{
    let login = add_flag(
        new_command("login", "Log the relay into the ChatGPT account used for remote control"),
        "browser",
        "browser",
        "Use the local browser callback flow instead of device-code authentication",
        false,
    );
    let start = add_start_options(
        new_command("start", "Start forwarding already-paired remote clients"),
    );
    let pair = add_start_options(
        new_command("pair", "Start forwarding and print a new pairing code"),
    );
    let remote_control = add_subcommand(
        add_subcommand(
            require_subcommand(
                new_command(
                    "remote-control",
                    "Run the relay, optionally creating a new pairing code",
                ),
            ),
            start,
        ),
        pair,
    );
    let relay = require_subcommand(
        new_command("codex-relay", "Bridge ChatGPT remote control to a stock Codex app-server"),
    );
    let with_verbose = add_flag(
        relay,
        "verbose",
        "verbose",
        "Print detailed transport, enrollment, and pairing diagnostics",
        true,
    );
    let home_rule = OptionRule {
        id: "relay_home",
        long: "relay-home",
        value_name: "RELAY_HOME",
        help: None,
        global: true,
        default_value: None,
    };
    let with_home = add_path_or_variable(with_verbose, home_rule, "CODEX_RELAY_HOME");
    let command = add_subcommand(add_subcommand(with_home, login), remote_control);
    proof {
        let value = choose|value: Option<Seq<u8>>|
            settings_of(with_home) == settings_of(with_verbose).push(
                #[trigger] variable_setting(home_rule@, "CODEX_RELAY_HOME"@, value),
            );
        let settings = relay_settings(value);
        assert(settings_of(login) =~= settings[4]->Subcommand_0);
        assert(settings_of(start) =~= settings[5]->Subcommand_0[2]->Subcommand_0);
        assert(settings_of(pair) =~= settings[5]->Subcommand_0[3]->Subcommand_0);
        assert(settings_of(remote_control) =~= settings[5]->Subcommand_0);
        assert(settings_of(command) =~= settings);
    }
    command
}

/// What a command line gives, before it is read as a command.
#[derive(Debug)]
pub struct Given {
    pub verbose: bool,
    pub relay_home: Option<String>,
    /// The subcommand.
    pub command: Option<String>,
    pub browser: bool,
    /// The subcommand of the subcommand.
    pub remote_command: Option<String>,
    pub codex: Option<String>,
    pub codex_home: Option<String>,
    pub remote_control_url: Option<String>,
    pub name: Option<String>,
}

pub struct GivenView {
    pub verbose: bool,
    pub relay_home: Option<Seq<char>>,
    pub command: Option<Seq<char>>,
    pub browser: bool,
    pub remote_command: Option<Seq<char>>,
    pub codex: Option<Seq<char>>,
    pub codex_home: Option<Seq<char>>,
    pub remote_control_url: Option<Seq<char>>,
    pub name: Option<Seq<char>>,
}

impl View for Given {
    type V = GivenView;

    open spec fn view(&self) -> GivenView {
        GivenView {
            verbose: self.verbose,
            relay_home: text_view(self.relay_home),
            command: text_view(self.command),
            browser: self.browser,
            remote_command: text_view(self.remote_command),
            codex: text_view(self.codex),
            codex_home: text_view(self.codex_home),
            remote_control_url: text_view(self.remote_control_url),
            name: text_view(self.name),
        }
    }
}

/// How to run the relay, as a command line gives it.
pub open spec fn start_args_of(given: GivenView) -> Option<StartArgsView> {
    match (given.codex, given.remote_control_url) {
        (Some(codex), Some(remote_control_url)) => Some(
            StartArgsView { codex, codex_home: given.codex_home, remote_control_url, name: given.name },
        ),
        _ => None,
    }
}

/// What to do, as a command line gives it.
pub open spec fn command_of(given: GivenView) -> Option<CommandView> {
    if given.command == Some("login"@) {
        Some(CommandView::Login { browser: given.browser })
    } else if given.command == Some("remote-control"@) {
        match start_args_of(given) {
            Some(args) => if given.remote_command == Some("start"@) {
                Some(CommandView::Start(args))
            } else if given.remote_command == Some("pair"@) {
                Some(CommandView::Pair(args))
            } else {
                None
            },
            None => None,
        }
    } else {
        None
    }
}

/// The command line that is given, if it is one.
pub open spec fn cli_of(given: GivenView) -> Option<CliView> {
    match command_of(given) {
        Some(command) => Some(
            CliView { verbose: given.verbose, relay_home: given.relay_home, command },
        ),
        None => None,
    }
}

fn is_given(text: &Option<String>, literal: &str) -> (same: bool)
    ensures
        same == (text_view(*text) == Some(literal@)),
{
    match text {
        Some(text) => text_is(text, literal),
        None => false,
    }
}

/// What is given, in what a command line holds.
pub open spec fn given_in(matched: Seq<Matched>) -> GivenView {
    let inner = match subcommand_in(matched) {
        Some((_, inner)) => inner,
        None => Seq::empty(),
    };
    let innermost = match subcommand_in(inner) {
        Some((_, innermost)) => innermost,
        None => Seq::empty(),
    };
    GivenView {
        verbose: flag_in(matched, "verbose"@),
        relay_home: text_in(matched, "relay_home"@),
        command: match subcommand_in(matched) {
            Some((name, _)) => Some(name),
            None => None,
        },
        browser: flag_in(inner, "browser"@),
        remote_command: match subcommand_in(inner) {
            Some((name, _)) => Some(name),
            None => None,
        },
        codex: text_in(innermost, "codex"@),
        codex_home: text_in(innermost, "codex_home"@),
        remote_control_url: text_in(innermost, "remote_control_url"@),
        name: text_in(innermost, "name"@),
    }
}

/// What a command line is read as, where `CODEX_RELAY_HOME` holds `value`: a
/// command, or the message and the exit status of a usage error.
pub open spec fn cli_for(arguments: Seq<Seq<char>>, value: Option<Seq<u8>>) -> Result<
    CliView,
    (Seq<char>, i32),
> {
    match matches_for(relay_settings(value), arguments) {
        Ok(matched) => match cli_of(given_in(matched)) {
            Some(cli) => Ok(cli),
            None => Err(("a subcommand is required but one was not provided"@, 2)),
        },
        Err(error) => Err(error),
    }
}

pub open spec fn cli_result_view(result: Result<Cli, UsageError>) -> Result<
    CliView,
    (Seq<char>, i32),
> {
    match result {
        Ok(cli) => Ok(cli@),
        Err(error) => Err((error.message@, error.exit_code)),
    }
}

impl Cli {
    /// Reads what a command line gives.
    pub fn from_given(given: Given) -> (cli: Option<Cli>)
        ensures
            match cli {
                Some(cli) => cli_of(given@) == Some(cli@),
                None => cli_of(given@) is None,
            },
    {
        if is_given(&given.command, "login") {
            return Some(
                Cli {
                    verbose: given.verbose,
                    relay_home: given.relay_home,
                    command: RelayCommand::Login { browser: given.browser },
                },
            );
        }
        if !is_given(&given.command, "remote-control") {
            return None;
        }
        let start = is_given(&given.remote_command, "start");
        let pair = is_given(&given.remote_command, "pair");
        let args = match (given.codex, given.remote_control_url) {
            (Some(codex), Some(remote_control_url)) => StartArgs {
                codex,
                codex_home: given.codex_home,
                remote_control_url,
                name: given.name,
            },
            _ => return None,
        };
        let command = if start {
            RemoteControlCommand::Start(args)
        } else if pair {
            RemoteControlCommand::Pair { start: args }
        } else {
            return None;
        };
        Some(
            Cli {
                verbose: given.verbose,
                relay_home: given.relay_home,
                command: RelayCommand::RemoteControl { command },
            },
        )
    }

    /// Reads a command line, the program's name included, under the value that
    /// `CODEX_RELAY_HOME` happens to hold.
    pub fn try_parse_from(arguments: Vec<String>) -> (cli: Result<Cli, UsageError>)
        ensures
            exists|value: Option<Seq<u8>>|
                cli_result_view(cli) == #[trigger] cli_for(arguments_view(arguments@), value),
    {
        let command = relay_command();
        let ghost value = choose|value: Option<Seq<u8>>|
            settings_of(command) == #[trigger] relay_settings(value);
        let outer = match match_arguments(command, &arguments) {
            Ok(outer) => outer,
            Err(error) => {
                let refused: Result<Cli, UsageError> = Err(error);
                assert(cli_result_view(refused) == cli_for(arguments_view(arguments@), value));
                return refused;
            },
        };
        let mut given = Given {
            verbose: matched_flag(&outer, "verbose"),
            relay_home: matched_text(&outer, "relay_home"),
            command: None,
            browser: false,
            remote_command: None,
            codex: None,
            codex_home: None,
            remote_control_url: None,
            name: None,
        };
        if let Some((command, inner)) = matched_subcommand(outer) {
            given.command = Some(command);
            given.browser = matched_flag(&inner, "browser");
            if let Some((remote_command, innermost)) = matched_subcommand(inner) {
                given.remote_command = Some(remote_command);
                given.codex = matched_text(&innermost, "codex");
                given.codex_home = matched_text(&innermost, "codex_home");
                given.remote_control_url = matched_text(&innermost, "remote_control_url");
                given.name = matched_text(&innermost, "name");
            }
        }
        let cli = match Cli::from_given(given) {
            Some(cli) => Ok(cli),
            None => Err(
                UsageError {
                    message: "a subcommand is required but one was not provided".to_owned(),
                    exit_code: 2,
                },
            ),
        };
        assert(cli_result_view(cli) == cli_for(arguments_view(arguments@), value));
        cli
    }
}

/// A login is read from the command line as it is given there: `--verbose` and
/// `--relay-home` from anywhere, `--browser` from the login.
pub proof fn law_login_is_read(
    arguments: Seq<Seq<char>>,
    value: Option<Seq<u8>>,
    matched: Seq<Matched>,
    inner: Seq<Matched>,
)
    requires
        matches_for(relay_settings(value), arguments) == Ok::<Seq<Matched>, (Seq<char>, i32)>(matched),
        subcommand_in(matched) == Some(("login"@, inner)),
    ensures
        ({
            &&& cli_for(arguments, value) matches Ok(cli)
            &&& cli.verbose == flag_in(matched, "verbose"@)
            &&& cli.relay_home == text_in(matched, "relay_home"@)
            &&& cli.command == (CommandView::Login { browser: flag_in(inner, "browser"@) })
        }),
{
}

/// A run is read from the command line as it is given there, with a pairing code
/// exactly for `pair`, and every option from under its own name.
pub proof fn law_run_is_read(
    arguments: Seq<Seq<char>>,
    value: Option<Seq<u8>>,
    matched: Seq<Matched>,
    inner: Seq<Matched>,
    innermost: Seq<Matched>,
    remote_command: Seq<char>,
    codex: Seq<char>,
    remote_control_url: Seq<char>,
)
    requires
        matches_for(relay_settings(value), arguments) == Ok::<Seq<Matched>, (Seq<char>, i32)>(matched),
        subcommand_in(matched) == Some(("remote-control"@, inner)),
        subcommand_in(inner) == Some((remote_command, innermost)),
        remote_command == "start"@ || remote_command == "pair"@,
        text_in(innermost, "codex"@) == Some(codex),
        text_in(innermost, "remote_control_url"@) == Some(remote_control_url),
    ensures
        ({
            &&& cli_for(arguments, value) matches Ok(cli)
            &&& cli.verbose == flag_in(matched, "verbose"@)
            &&& cli.relay_home == text_in(matched, "relay_home"@)
            &&& cli.command is Start <==> remote_command == "start"@
            &&& cli.command is Pair <==> remote_command == "pair"@
            &&& match cli.command {
                CommandView::Start(args) | CommandView::Pair(args) => {
                    &&& args.codex == codex
                    &&& args.codex_home == text_in(innermost, "codex_home"@)
                    &&& args.remote_control_url == remote_control_url
                    &&& args.name == text_in(innermost, "name"@)
                },
                CommandView::Login { .. } => false,
            }
        }),
{
    reveal_strlit("login");
    reveal_strlit("remote-control");
    reveal_strlit("start");
    reveal_strlit("pair");
    assert("login"@.len() == 5 && "remote-control"@.len() == 14);
    assert("start"@.len() == 5 && "pair"@.len() == 4);
}

/// What is given is read as a command exactly where it names one with all that it
/// needs, and as that command and no other.
pub proof fn law_given_is_read(given: GivenView)
    ensures
        ({
            let complete = given.codex is Some && given.remote_control_url is Some;
            let remote = given.command == Some("remote-control"@) && complete;
            let start = remote && given.remote_command == Some("start"@);
            let pair = remote && given.remote_command == Some("pair"@);
            match cli_of(given) {
                Some(cli) => {
                    &&& cli.verbose == given.verbose
                    &&& cli.relay_home == given.relay_home
                    &&& match cli.command {
                        CommandView::Login { browser } => given.command == Some("login"@) && browser
                            == given.browser,
                        CommandView::Start(args) => start && Some(args.codex) == given.codex
                            && args.codex_home == given.codex_home && Some(args.remote_control_url)
                            == given.remote_control_url && args.name == given.name,
                        CommandView::Pair(args) => pair && Some(args.codex) == given.codex
                            && args.codex_home == given.codex_home && Some(args.remote_control_url)
                            == given.remote_control_url && args.name == given.name,
                    }
                },
                None => given.command != Some("login"@) && !start && !pair,
            }
        }),
{
}

/// A usage error of the command line is handed on as it is, and a command line
/// that names no command is one, with the status of usage errors.
pub proof fn law_usage_errors_are_handed_on(
    arguments: Seq<Seq<char>>,
    value: Option<Seq<u8>>,
    message: Seq<char>,
    exit_code: i32,
)
    ensures
        matches_for(relay_settings(value), arguments) == Err::<Seq<Matched>, (Seq<char>, i32)>(
            (message, exit_code),
        ) ==> cli_for(arguments, value) == Err::<CliView, (Seq<char>, i32)>((message, exit_code)),
        matches_for(relay_settings(value), arguments) matches Ok(matched) ==> (subcommand_in(
            matched,
        ) is None ==> cli_for(arguments, value) == Err::<CliView, (Seq<char>, i32)>(
            ("a subcommand is required but one was not provided"@, 2),
        )),
{
}

/// A command is done as it was asked for: a login the way it was asked for, and a
/// run with its own arguments, which makes a pairing code exactly for `pair`.
pub proof fn law_task_is_what_was_asked_for(command: RelayCommand)
    ensures
        match (command, task_of(command)) {
            (RelayCommand::Login { browser }, Task::Login { browser: b }) => b == browser,
            (RelayCommand::RemoteControl { command }, Task::Run { args, mode }) => match command {
                RemoteControlCommand::Start(start) => args == start && mode == PairingMode::NoPairing,
                RemoteControlCommand::Pair { start } => args == start && mode == PairingMode::Manual,
            },
            _ => false,
        },
{
}

/// What the command line takes.  `--verbose` and `--relay-home` may stand
/// anywhere, and `CODEX_RELAY_HOME` stands in for the latter; a login takes
/// `--browser`; one of the subcommands must be given.
pub proof fn law_command_line_takes(value: Option<Seq<u8>>)
    ensures
        ({
            let settings = relay_settings(value);
            &&& settings.len() == 6
            &&& settings[0] == (Setting::Named {
                name: "codex-relay"@,
                about: "Bridge ChatGPT remote control to a stock Codex app-server"@,
            })
            &&& settings[1] is SubcommandRequired
            &&& settings[2] == (Setting::Flag {
                id: "verbose"@,
                long: "verbose"@,
                help: "Print detailed transport, enrollment, and pairing diagnostics"@,
                global: true,
            })
            &&& settings[3] == (Setting::PathOrVariable {
                rule: RuleView {
                    id: "relay_home"@,
                    long: "relay-home"@,
                    value_name: "RELAY_HOME"@,
                    help: None,
                    global: true,
                    default_value: None,
                },
                variable: "CODEX_RELAY_HOME"@,
                value,
            })
            &&& settings[4] matches Setting::Subcommand(login)
            &&& login.len() == 2
            &&& login[0] == (Setting::Named {
                name: "login"@,
                about: "Log the relay into the ChatGPT account used for remote control"@,
            })
            &&& login[1] == (Setting::Flag {
                id: "browser"@,
                long: "browser"@,
                help: "Use the local browser callback flow instead of device-code authentication"@,
                global: false,
            })
        }),
{
}

/// `start` and `pair` take the same options: the executable, which is `codex`
/// unless another is given; the child's home; the backend, which is ChatGPT's
/// unless another is given; and a name.
pub proof fn law_start_and_pair_take_the_same(value: Option<Seq<u8>>)
    ensures
        ({
            &&& relay_settings(value)[5] matches Setting::Subcommand(remote)
            &&& remote.len() == 4
            &&& remote[0] == (Setting::Named {
                name: "remote-control"@,
                about: "Run the relay, optionally creating a new pairing code"@,
            })
            &&& remote[1] is SubcommandRequired
            &&& remote[2] matches Setting::Subcommand(start)
            &&& remote[3] matches Setting::Subcommand(pair)
            &&& start.len() == 5 && pair.len() == 5
            &&& start[0] == (Setting::Named {
                name: "start"@,
                about: "Start forwarding already-paired remote clients"@,
            })
            &&& pair[0] == (Setting::Named {
                name: "pair"@,
                about: "Start forwarding and print a new pairing code"@,
            })
            &&& forall|i: int| 1 <= i < 5 ==> #[trigger] start[i] == pair[i]
            &&& start[1] == Setting::Path(
                RuleView {
                    id: "codex"@,
                    long: "codex"@,
                    value_name: "CODEX"@,
                    help: Some("Codex executable used for the child app-server"@),
                    global: false,
                    default_value: Some("codex"@),
                },
            )
            &&& start[2] == Setting::Path(
                RuleView {
                    id: "codex_home"@,
                    long: "codex-home"@,
                    value_name: "CODEX_HOME"@,
                    help: Some(
                        "CODEX_HOME for Codex sessions. Omit to inherit the current environment"@,
                    ),
                    global: false,
                    default_value: None,
                },
            )
            &&& start[3] == Setting::Text(
                RuleView {
                    id: "remote_control_url"@,
                    long: "remote-control-url"@,
                    value_name: "REMOTE_CONTROL_URL"@,
                    help: Some("Override the ChatGPT backend used by remote control"@),
                    global: false,
                    default_value: Some("https://chatgpt.com/backend-api/"@),
                },
            )
            &&& start[4] == Setting::Text(
                RuleView {
                    id: "name"@,
                    long: "name"@,
                    value_name: "NAME"@,
                    help: Some("Name shown for this machine in remote control"@),
                    global: false,
                    default_value: None,
                },
            )
        }),
{
}

/// Nothing of what is given or asked for is lost from view.
pub proof fn law_command_line_is_seen_whole(
    args: StartArgs,
    command: RelayCommand,
    cli: Cli,
    given: Given,
)
    ensures
        args@.codex == args.codex@,
        args@.codex_home == text_view(args.codex_home),
        args@.remote_control_url == args.remote_control_url@,
        args@.name == text_view(args.name),
        match (command, command@) {
            (RelayCommand::Login { browser }, CommandView::Login { browser: b }) => b == browser,
            (RelayCommand::RemoteControl { command }, asked) => match (command, asked) {
                (RemoteControlCommand::Start(args), CommandView::Start(a)) => a == args@,
                (RemoteControlCommand::Pair { start }, CommandView::Pair(a)) => a == start@,
                _ => false,
            },
            _ => false,
        },
        cli@.verbose == cli.verbose,
        cli@.relay_home == text_view(cli.relay_home),
        cli@.command == cli.command@,
        given@.verbose == given.verbose,
        given@.relay_home == text_view(given.relay_home),
        given@.command == text_view(given.command),
        given@.browser == given.browser,
        given@.remote_command == text_view(given.remote_command),
        given@.codex == text_view(given.codex),
        given@.codex_home == text_view(given.codex_home),
        given@.remote_control_url == text_view(given.remote_control_url),
        given@.name == text_view(given.name),
{
}

/// A command line is read as a command only where it names one, and is otherwise
/// refused in one way alone.
pub proof fn law_only_commands_are_read(
    arguments: Seq<Seq<char>>,
    value: Option<Seq<u8>>,
    matched: Seq<Matched>,
)
    requires
        matches_for(relay_settings(value), arguments) == Ok::<Seq<Matched>, (Seq<char>, i32)>(matched),
    ensures
        match cli_for(arguments, value) {
            Ok(cli) => {
                &&& subcommand_in(matched) matches Some((name, inner))
                &&& cli.command is Login ==> name == "login"@
                &&& !(cli.command is Login) ==> name == "remote-control"@ && (subcommand_in(
                    inner,
                ) matches Some((remote_name, _)) && if cli.command is Start {
                    remote_name == "start"@
                } else {
                    remote_name == "pair"@
                })
            },
            Err(error) => error == ("a subcommand is required but one was not provided"@, 2i32),
        },
{
}

/// Neither a command line nor a usage error is lost on the way.
pub proof fn law_readings_are_seen_whole(result: Result<Cli, UsageError>)
    ensures
        match (result, cli_result_view(result)) {
            (Ok(cli), Ok(c)) => c == cli@,
            (Err(error), Err((message, exit_code))) => message == error.message@ && exit_code
                == error.exit_code,
            _ => false,
        },
{
}

} // verus!
