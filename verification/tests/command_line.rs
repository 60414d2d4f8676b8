use codex_relay::cli::{
    Cli, Given, PairingMode, RelayCommand, RemoteControlCommand, StartArgs, Task, CHATGPT_BASE_URL,
};
use codex_relay::command_line::UsageError;

fn parse(arguments: &[&str]) -> Result<Cli, UsageError> {
    Cli::try_parse_from(arguments.iter().map(|argument| argument.to_string()).collect())
}

fn start_args(cli: Cli) -> StartArgs {
    let RelayCommand::RemoteControl {
        command: RemoteControlCommand::Start(args),
    } = cli.command
    else {
        panic!("expected remote-control start command");
    };
    args
}

fn nothing_given() -> Given {
    Given {
        verbose: false,
        relay_home: None,
        command: None,
        browser: false,
        remote_command: None,
        codex: None,
        codex_home: None,
        remote_control_url: None,
        name: None,
    }
}

#[test]
fn login_defaults_to_device_auth_with_an_explicit_browser_override() {
    let default = parse(&["codex-relay", "login"]).expect("command should parse");
    assert!(matches!(
        default.command,
        RelayCommand::Login { browser: false }
    ));

    let browser = parse(&["codex-relay", "login", "--browser"]).expect("command should parse");
    assert!(matches!(
        browser.command,
        RelayCommand::Login { browser: true }
    ));
}

#[test]
fn defaults_to_stock_codex_and_chatgpt_backend() {
    let cli = parse(&["codex-relay", "remote-control", "start"]).expect("command should parse");
    let args = start_args(cli);

    assert_eq!(
        (
            args.codex,
            args.codex_home,
            args.remote_control_url,
            args.name,
        ),
        (
            "codex".to_string(),
            None,
            CHATGPT_BASE_URL.to_string(),
            None,
        )
    );
    assert_eq!(CHATGPT_BASE_URL, "https://chatgpt.com/backend-api/");
}

#[test]
fn verbose_is_a_global_option() {
    let cli = parse(&["codex-relay", "remote-control", "pair", "--verbose"])
        .expect("command should parse");

    assert!(cli.verbose);
}

#[test]
fn relay_home_is_global_and_codex_home_selects_the_child_home() {
    let cli = parse(&[
        "codex-relay",
        "remote-control",
        "start",
        "--relay-home",
        "/tmp/relay-home",
        "--codex-home",
        "/tmp/codex-home",
    ])
    .expect("command should parse");

    assert_eq!(cli.relay_home, Some("/tmp/relay-home".to_string()));
    let start = start_args(cli);
    assert_eq!(start.codex_home, Some("/tmp/codex-home".to_string()));
}

#[test]
fn pair_accepts_a_machine_name_without_a_manual_mode_flag() {
    let cli = parse(&[
        "codex-relay",
        "remote-control",
        "pair",
        "--name",
        "build-box",
    ])
    .expect("command should parse");
    let RelayCommand::RemoteControl {
        command: RemoteControlCommand::Pair { start },
    } = cli.command
    else {
        panic!("expected remote-control pair command");
    };

    assert_eq!(start.name.as_deref(), Some("build-box"));
}

#[test]
fn global_options_may_stand_before_the_subcommand() {
    let cli = parse(&["codex-relay", "--verbose", "--relay-home", "/r", "login"])
        .expect("command should parse");

    assert!(cli.verbose);
    assert_eq!(cli.relay_home.as_deref(), Some("/r"));
}

#[test]
fn global_options_may_stand_between_subcommands() {
    let cli = parse(&["codex-relay", "remote-control", "--relay-home=/r", "start"])
        .expect("command should parse");

    assert!(!cli.verbose);
    assert_eq!(cli.relay_home.as_deref(), Some("/r"));
}

#[test]
fn start_options_override_their_defaults() {
    let cli = parse(&[
        "codex-relay",
        "remote-control",
        "start",
        "--codex",
        "/opt/codex",
        "--remote-control-url",
        "http://localhost/",
        "--name",
        "",
    ])
    .expect("command should parse");
    let args = start_args(cli);

    assert_eq!(args.codex, "/opt/codex");
    assert_eq!(args.remote_control_url, "http://localhost/");
    assert_eq!(args.name.as_deref(), Some(""));
}

#[test]
fn empty_paths_are_usage_errors() {
    for option in ["--codex", "--codex-home", "--relay-home"] {
        let error = parse(&["codex-relay", "remote-control", "start", option, ""])
            .expect_err("an empty path is refused");
        assert_eq!(error.exit_code, 2);
        assert!(error.message.contains("a value is required for"));
    }
}

#[test]
fn unknown_options_and_missing_subcommands_are_usage_errors() {
    let unknown = parse(&["codex-relay", "login", "--session-codex-home", "/s"])
        .expect_err("the option is unknown");
    assert_eq!(unknown.exit_code, 2);
    assert!(unknown.message.contains("unexpected argument '--session-codex-home' found"));

    let missing = parse(&["codex-relay", "remote-control"]).expect_err("a subcommand is missing");
    assert_eq!(missing.exit_code, 2);
    assert!(missing.message.contains("Run the relay, optionally creating a new pairing code"));
}

#[test]
fn help_is_no_failure() {
    let help = parse(&["codex-relay", "remote-control", "pair", "--help"])
        .expect_err("help is printed instead");

    assert_eq!(help.exit_code, 0);
    assert!(help.message.contains("Start forwarding and print a new pairing code"));
    assert!(help.message.contains("--codex-home <CODEX_HOME>"));
    assert!(help.message.contains("[default: https://chatgpt.com/backend-api/]"));
    assert!(help.message.contains("--relay-home <RELAY_HOME>"));
}

#[test]
fn given_values_are_read_as_a_command() {
    let mut login = nothing_given();
    login.command = Some("login".to_string());
    login.verbose = true;
    login.browser = true;
    let cli = Cli::from_given(login).expect("login is a command");
    assert!(cli.verbose);
    assert!(matches!(cli.command, RelayCommand::Login { browser: true }));

    let mut pair = nothing_given();
    pair.command = Some("remote-control".to_string());
    pair.remote_command = Some("pair".to_string());
    pair.codex = Some("codex".to_string());
    pair.remote_control_url = Some("http://u/".to_string());
    pair.name = Some("n".to_string());
    let cli = Cli::from_given(pair).expect("pair is a command");
    let Task::Run { args, mode } = cli.command.into_task() else {
        panic!("expected a run");
    };
    assert_eq!(mode, PairingMode::Manual);
    assert_eq!(args.codex, "codex");
    assert_eq!(args.name.as_deref(), Some("n"));
}

#[test]
fn incomplete_values_are_no_command() {
    assert!(Cli::from_given(nothing_given()).is_none());

    let mut unknown = nothing_given();
    unknown.command = Some("logout".to_string());
    assert!(Cli::from_given(unknown).is_none());

    let mut without_url = nothing_given();
    without_url.command = Some("remote-control".to_string());
    without_url.remote_command = Some("start".to_string());
    without_url.codex = Some("codex".to_string());
    assert!(Cli::from_given(without_url).is_none());
}

#[test]
fn only_pair_makes_a_pairing_code() {
    let start = parse(&["codex-relay", "remote-control", "start"]).expect("command should parse");
    assert!(matches!(
        start.command.into_task(),
        Task::Run {
            mode: PairingMode::NoPairing,
            ..
        }
    ));

    let pair = parse(&["codex-relay", "remote-control", "pair"]).expect("command should parse");
    assert!(matches!(
        pair.command.into_task(),
        Task::Run {
            mode: PairingMode::Manual,
            ..
        }
    ));

    let login = parse(&["codex-relay", "login"]).expect("command should parse");
    assert!(matches!(
        login.command.into_task(),
        Task::Login { browser: false }
    ));
}

#[test]
fn help_shows_the_variable_that_stands_in_for_the_relay_home() {
    let help = parse(&["codex-relay", "--help"]).expect_err("help is printed instead");
    assert!(help.message.contains("--relay-home <RELAY_HOME>"));
    assert!(help.message.contains("[env: CODEX_RELAY_HOME="));
}

#[test]
fn a_missing_subcommand_is_told_where_something_else_is_given() {
    let missing = parse(&["codex-relay", "--relay-home", "/r"]).expect_err("nothing to do");
    assert_eq!(missing.exit_code, 2);
    assert!(missing.message.contains("'codex-relay' requires a subcommand but one was not provided"));
}
