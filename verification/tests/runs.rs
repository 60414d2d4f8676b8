use codex_relay::child::{
    child_command, ChildAction, ChildError, ChildEvent, ChildPhase, ChildRuntime, ChildStream,
    SOCKET_FILE,
};
use codex_relay::cli::{PairingMode, StartArgs};
use codex_relay::diagnostics::{
    choose_directives, diagnostics_directives, directives_are_checkable,
    try_diagnostics_directives,
};
use codex_relay::homes::{
    create_failure, resolve_codex_home, resolve_relay_home, restrict_relay_home_permissions,
    secure_failure, Home, HomeError, CODEX_DIRECTORY,
};
use codex_relay::installation::{
    choose_installation_id, load_or_create_installation_id, write_failure, InstallationId,
    INSTALLATION_ID_FILE,
};
use codex_relay::login::{
    browser_prompt, continue_login, login, LoginAction, LoginEvent, LoginPhase,
};
use codex_relay::pairing::{
    pairing_question, unix_now, PairingAction, PairingEvent, PairingNotice, PairingPhase,
    PairingTicket, PairingWatch,
};
use codex_relay::relay::{
    begin_relay, check_login, login_lookup, run_relay, AuthKind, Outcome, RelayAction, RelayError, RelayEvent,
    RelayPhase, RelayPlan, RemoteControlConnectionStatus,
};

fn some(text: &str) -> Option<String> {
    Some(text.to_string())
}

fn args() -> StartArgs {
    StartArgs {
        codex: "codex".to_string(),
        codex_home: some("/c"),
        remote_control_url: "http://u/".to_string(),
        name: some("build-box"),
    }
}

fn plan(mode: PairingMode) -> RelayPlan {
    RelayPlan {
        relay_home: Home::At("/r".to_string()),
        codex_home: Home::At("/c".to_string()),
        args: args(),
        mode,
    }
}

fn is_at(home: &Home, expected: &str) -> bool {
    matches!(home, Home::At(path) if path == expected)
}

fn outcome_of(action: RelayAction) -> Outcome {
    match action {
        RelayAction::Exit {
            outcome,
            abort_remote: false,
        } => outcome,
        other => panic!("expected the end, got {:?}", other),
    }
}

fn error_of(outcome: Outcome) -> RelayError {
    match outcome {
        Outcome::Failure(error) => error,
        Outcome::Success => panic!("expected a failure"),
    }
}

fn message_after(phase: RelayPhase, event: RelayEvent) -> Option<String> {
    let (phase, action) = run_relay(&plan(PairingMode::Manual), phase, event);
    assert!(matches!(phase, RelayPhase::Exited));
    error_of(outcome_of(action)).message()
}

#[test]
fn installation_id_is_stable_within_codex_home() {
    let mut file: Option<String> = None;

    let first = match load_or_create_installation_id(file.clone()) {
        InstallationId::Created { id, contents } => {
            file = Some(contents);
            id
        }
        InstallationId::Stored(_) => panic!("nothing is stored yet"),
    };
    let second = match load_or_create_installation_id(file.clone()) {
        InstallationId::Stored(id) => id,
        InstallationId::Created { .. } => panic!("the identity is stored"),
    };

    assert_eq!(first, second);
    assert_eq!(file, Some(format!("{first}\n")));
}

#[test]
fn explicit_codex_home_wins_for_enrollment_state() {
    let home = resolve_codex_home(some("/tmp/codex-home"), some("/env"), some("/home/u"))
        .expect("explicit Codex home should resolve");

    assert!(is_at(&home, "/tmp/codex-home"));
}

#[test]
fn new_installation_ids_are_version_7_uuids() {
    let InstallationId::Created { id, contents } = load_or_create_installation_id(None) else {
        panic!("nothing is stored");
    };
    assert_eq!(id.len(), 36);
    for (i, c) in id.chars().enumerate() {
        match i {
            8 | 13 | 18 | 23 => assert_eq!(c, '-'),
            14 => assert_eq!(c, '7'),
            19 => assert!("89ab".contains(c)),
            _ => assert!(c.is_ascii_digit() || ('a'..='f').contains(&c)),
        }
    }
    assert_eq!(contents, format!("{id}\n"));
    let InstallationId::Created { id: other, .. } = load_or_create_installation_id(None) else {
        panic!("nothing is stored");
    };
    assert_ne!(id, other);
}

#[test]
fn stored_ids_are_trimmed() {
    for stored in ["id\n", " \t id \r\n", "\u{3000}id\u{85}", "id"] {
        let loaded = choose_installation_id(&some(stored), "fresh".to_string());
        assert!(matches!(loaded, InstallationId::Stored(id) if id == "id"));
    }
    let inner = choose_installation_id(&some("a b"), "fresh".to_string());
    assert!(matches!(inner, InstallationId::Stored(id) if id == "a b"));
}

#[test]
fn blank_files_get_a_new_id() {
    for stored in ["", " \n\t", "\u{2003}"] {
        let InstallationId::Created { id, contents } =
            choose_installation_id(&some(stored), "fresh".to_string())
        else {
            panic!("nothing is stored");
        };
        assert_eq!(id, "fresh");
        assert_eq!(contents, "fresh\n");
    }
    assert_eq!(INSTALLATION_ID_FILE, "installation_id");
    assert_eq!(write_failure("/c/installation_id"), "failed to write /c/installation_id");
}

#[test]
fn codex_home_defaults_to_the_variable_and_then_to_the_user() {
    let home = resolve_codex_home(None, some("/env"), some("/home/u")).expect("should resolve");
    assert!(is_at(&home, "/env"));
    let home = resolve_codex_home(None, some(""), some("/home/u")).expect("should resolve");
    assert!(matches!(home, Home::RegularUnder(user) if user == "/home/u"));
    assert_eq!(CODEX_DIRECTORY, ".codex");
    let error = resolve_codex_home(None, None, None).expect_err("nothing to go by");
    assert!(matches!(error, HomeError::NoHomeDirectory));
    assert_eq!(error.message(), "could not determine the home directory");
}

#[test]
fn relay_home_defaults_to_the_regular_codex_home() {
    let home = resolve_relay_home(some("/r"), some("/env"), None).expect("resolves");
    assert!(is_at(&home, "/r"));
    let home = resolve_relay_home(None, some("/env"), None).expect("resolves");
    assert!(is_at(&home, "/env"));
    let home = resolve_relay_home(None, None, some("/home/u")).expect("resolves");
    assert!(matches!(home, Home::RegularUnder(user) if user == "/home/u"));
    assert!(resolve_relay_home(None, None, None).is_err());
}

#[test]
fn relay_home_is_private_on_unix() {
    assert_eq!(restrict_relay_home_permissions(true), Some(0o700));
    assert_eq!(restrict_relay_home_permissions(false), None);
    assert_eq!(create_failure("/r"), "failed to create /r");
    assert_eq!(secure_failure("/r"), "failed to secure /r");
}

#[test]
fn login_goes_by_device_code_unless_the_browser_is_asked_for() {
    let home = Home::At("/r".to_string());
    let (phase, action) = login(&home, false);
    let LoginAction::DeviceCode { credentials } = action else {
        panic!("expected the device code");
    };
    assert!(is_at(&credentials.home, "/r"));
    assert!(credentials.in_file);
    assert!(credentials.forced_workspace.is_none());
    let (phase, action) = continue_login(phase, LoginEvent::Done);
    assert_eq!(phase, LoginPhase::Ended);
    assert!(matches!(action, LoginAction::Finish { success: true }));
    let (_, action) = continue_login(LoginPhase::DeviceCode, LoginEvent::Failed);
    assert!(matches!(action, LoginAction::Finish { success: false }));
}

#[test]
fn the_browser_s_url_is_shown_before_the_wait() {
    let (phase, action) = login(&Home::At("/r".to_string()), true);
    assert!(
        matches!(&action, LoginAction::StartServer { credentials } if is_at(&credentials.home, "/r"))
    );
    let auth_url = "http://a/".to_string();
    let (phase, action) = continue_login(phase, LoginEvent::ServerStarted { auth_url });
    let LoginAction::Show { auth_url } = action else {
        panic!("expected the URL to be shown");
    };
    assert_eq!(
        browser_prompt(&auth_url),
        "Open this URL to authenticate the relay:\n\nhttp://a/\n"
    );
    let (phase, action) = continue_login(phase, LoginEvent::Done);
    assert!(matches!(action, LoginAction::Wait));
    let (_, action) = continue_login(phase, LoginEvent::Failed);
    assert!(matches!(action, LoginAction::Finish { success: false }));
    let (phase, action) = continue_login(phase, LoginEvent::Done);
    assert!(matches!(action, LoginAction::Finish { success: true }));
    let (_, action) = continue_login(phase, LoginEvent::Done);
    assert!(matches!(action, LoginAction::Nothing));
}

#[test]
fn a_login_server_that_does_not_start_ends_the_login() {
    let (phase, _) = login(&Home::At("/r".to_string()), true);
    let (phase, action) = continue_login(phase, LoginEvent::Failed);
    assert_eq!(phase, LoginPhase::Ended);
    assert!(matches!(action, LoginAction::Finish { success: false }));
}

#[test]
fn a_run_looks_for_its_login_where_it_was_put() {
    let lookup = login_lookup(&plan(PairingMode::Manual));
    assert!(is_at(&lookup.credentials.home, "/r"));
    assert!(lookup.credentials.in_file);
    assert!(!lookup.api_key_from_environment);
    assert_eq!(lookup.remote_control_url, "http://u/");
}

#[test]
fn verbose_does_not_look_at_the_environment() {
    let verbose = "codex_app_server_transport=debug,codex_login=info,codex_state=info";
    assert_eq!(diagnostics_directives(true, some(" \u{e9}=info")), verbose);
    assert_eq!(diagnostics_directives(true, None), verbose);
}

#[test]
fn directives_that_cannot_be_checked_are_not_chosen() {
    assert_eq!(try_diagnostics_directives(false, &some(" \u{e9}=info")), None);
    assert!(try_diagnostics_directives(true, &some(" \u{e9}=info")).is_some());
    assert_eq!(try_diagnostics_directives(false, &some("info")), some("info"));
    assert_eq!(try_diagnostics_directives(false, &some("a=nonsense")), some("warn"));
    assert_eq!(try_diagnostics_directives(false, &None), some("warn"));
}

#[test]
fn directives_after_white_space_must_be_ascii_to_be_checked() {
    for text in ["", "warn", " warn, a=info", "\u{e9}=info", "\u{e9} \u{e9}", "a,b \u{e9}", " a,\u{e9}"] {
        assert!(directives_are_checkable(text));
    }
    for text in [" \u{e9}=info", "a, \u{e9}", "\u{3000}a", "a,\tb\u{e9},c"] {
        assert!(!directives_are_checkable(text));
    }
}

#[test]
fn verbose_and_the_environment_choose_the_diagnostics() {
    let verbose = "codex_app_server_transport=debug,codex_login=info,codex_state=info";
    assert_eq!(diagnostics_directives(true, some("trace")), verbose);
    assert_eq!(diagnostics_directives(false, some("info,a=debug")), "info,a=debug");
    assert_eq!(diagnostics_directives(false, some("")), "");
    assert_eq!(diagnostics_directives(false, some("a=nonsense")), "warn");
    assert_eq!(diagnostics_directives(false, None), "warn");
    assert_eq!(choose_directives(false, some("x"), false), "warn");
    assert_eq!(choose_directives(false, some("x"), true), "x");
}

#[test]
fn the_child_is_a_codex_app_server_on_the_socket() {
    let command = child_command(&args(), "/tmp/d/app-server.sock");
    assert_eq!(command.program, "codex");
    assert_eq!(
        command.arguments,
        vec!["app-server", "--listen", "unix:///tmp/d/app-server.sock"]
    );
    assert_eq!(
        command.environment,
        vec![("CODEX_HOME".to_string(), "/c".to_string())]
    );
    assert_eq!(command.stdin, ChildStream::Null);
    assert_eq!(command.stdout, ChildStream::Null);
    assert_eq!(command.stderr, ChildStream::Inherited);
    assert!(command.kill_on_drop);
    assert_eq!(SOCKET_FILE, "app-server.sock");

    let mut inherited = args();
    inherited.codex_home = None;
    assert!(child_command(&inherited, "/s").environment.is_empty());
}

#[test]
fn the_child_is_ready_once_its_socket_is_there() {
    let (mut child, action) = ChildRuntime::start(args());
    assert!(matches!(action, ChildAction::MakeDirectory));
    let socket_path = "/tmp/d/app-server.sock".to_string();
    let ChildAction::Spawn { command } = child.step(ChildEvent::DirectoryMade { socket_path })
    else {
        panic!("expected the child to be started");
    };
    assert_eq!(command.program, "codex");
    assert_eq!(command.arguments[2], "unix:///tmp/d/app-server.sock");
    assert!(matches!(child.step(ChildEvent::Spawned), ChildAction::Look));
    assert!(matches!(
        child.step(ChildEvent::Looked {
            exit_status: None,
            socket_exists: false
        }),
        ChildAction::SleepAndLook
    ));
    assert!(matches!(
        child.step(ChildEvent::Looked {
            exit_status: None,
            socket_exists: true
        }),
        ChildAction::Ready
    ));
    assert!(matches!(
        child.step(ChildEvent::TimedOut),
        ChildAction::Nothing
    ));
}

#[test]
fn a_child_that_does_not_become_ready_is_an_error() {
    let cases: Vec<(ChildPhase, ChildEvent, &str)> = vec![
        (
            ChildPhase::MakingDirectory,
            ChildEvent::Failed,
            "failed to create relay runtime directory",
        ),
        (
            ChildPhase::Spawning,
            ChildEvent::Failed,
            "failed to start Codex executable /opt/codex",
        ),
        (
            ChildPhase::Looking,
            ChildEvent::Failed,
            "failed to inspect child app-server",
        ),
        (
            ChildPhase::Looking,
            ChildEvent::Looked {
                exit_status: some("exit status: 1"),
                socket_exists: true,
            },
            "child app-server exited with exit status: 1 before becoming ready",
        ),
        (
            ChildPhase::Looking,
            ChildEvent::TimedOut,
            "timed out waiting for child app-server socket",
        ),
    ];
    for (phase, event, expected) in cases {
        let mut child = ChildRuntime {
            phase,
            args: args(),
        };
        let ChildAction::Fail(error) = child.step(event) else {
            panic!("expected a failure");
        };
        assert_eq!(error.message("/opt/codex"), expected);
        assert_eq!(child.phase, ChildPhase::Ended);
    }
    assert_eq!(
        ChildError::NotStarted.message("c"),
        "failed to start Codex executable c"
    );
}

#[test]
fn only_chatgpt_logins_will_do() {
    assert!(check_login(Some(AuthKind::Chatgpt)).is_ok());
    assert!(check_login(Some(AuthKind::ChatgptAuthTokens)).is_ok());
    let other = check_login(Some(AuthKind::Other)).expect_err("no ChatGPT login");
    assert_eq!(
        other.message().as_deref(),
        Some("relay authentication is not a ChatGPT login; run `codex-relay login`")
    );
    let missing = check_login(None).expect_err("no login");
    assert_eq!(
        missing.message().as_deref(),
        Some("relay is not authenticated; run `codex-relay login` first")
    );
}

#[test]
fn a_run_without_pairing_goes_straight_to_bridging() {
    let plan = plan(PairingMode::NoPairing);
    let (phase, action) = begin_relay(&plan);
    assert!(matches!(
        &action,
        RelayAction::FindLogin { lookup }
            if is_at(&lookup.credentials.home, "/r") && lookup.remote_control_url == "http://u/"
    ));
    assert!(action.lines().is_empty());
    let (phase, action) = run_relay(&plan, phase, RelayEvent::Login(Some(AuthKind::Chatgpt)));
    assert!(matches!(&action, RelayAction::OpenState { home, provider: "openai" } if is_at(home, "/c")));
    let (phase, action) = run_relay(&plan, phase, RelayEvent::Done);
    assert!(matches!(&action, RelayAction::LoadInstallationId { home } if is_at(home, "/c")));
    let (phase, action) = run_relay(&plan, phase, RelayEvent::InstallationId("i".to_string()));
    assert!(matches!(
        &action,
        RelayAction::StartRemoteControl {
            remote_control_url, installation_id, name, allowed: true, enabled: true, ephemeral: true
        }
            if remote_control_url == "http://u/"
                && installation_id == "i"
                && name.as_deref() == Some("build-box")
    ));
    let (phase, action) = run_relay(&plan, phase, RelayEvent::Done);
    assert!(matches!(action, RelayAction::StartChild { args } if args.codex == "codex"));
    let (phase, action) = run_relay(&plan, phase, RelayEvent::Done);
    assert!(matches!(phase, RelayPhase::Bridging));
    assert!(matches!(action, RelayAction::Bridge { ticket: None }));
    assert_eq!(action.lines(), vec!["Relay connected; press Ctrl-C to stop."]);
}

#[test]
fn a_run_with_pairing_waits_for_the_websocket_and_asks_for_a_code() {
    let plan = plan(PairingMode::Manual);
    let (phase, action) = run_relay(&plan, RelayPhase::StartingChild, RelayEvent::Done);
    assert!(matches!(action, RelayAction::AwaitWebsocket));
    assert_eq!(
        action.lines(),
        vec!["Waiting for the remote-control websocket to connect..."]
    );
    let (phase, action) = run_relay(
        &plan,
        phase,
        RelayEvent::Status(RemoteControlConnectionStatus::Connecting),
    );
    assert!(matches!(action, RelayAction::AwaitChange));
    let (phase, action) = run_relay(
        &plan,
        phase,
        RelayEvent::Status(RemoteControlConnectionStatus::Connected {
            server_name: "box".to_string(),
            environment_id: None,
        }),
    );
    assert!(matches!(
        action,
        RelayAction::CreatePairing {
            manual_code: true,
            ..
        }
    ));
    assert_eq!(
        action.lines(),
        vec!["Remote-control websocket connected as box (environment unknown)."]
    );
    let (phase, action) = run_relay(
        &plan,
        phase,
        RelayEvent::Pairing {
            manual_pairing_code: some("ABCD"),
            expires_at: 1700000000,
        },
    );
    assert!(matches!(phase, RelayPhase::Bridging));
    assert_eq!(
        action.lines(),
        vec![
            "Pairing code: ABCD",
            "Pairing expires at Unix time 1700000000",
            "Waiting for ChatGPT to claim the pairing code...",
            "Relay connected; press Ctrl-C to stop.",
        ]
    );
    let RelayAction::Bridge {
        ticket: Some(ticket),
    } = action
    else {
        panic!("expected a ticket");
    };
    assert_eq!(ticket.manual_code, "ABCD");
    assert_eq!(ticket.expires_at, 1700000000);
}

#[test]
fn a_named_environment_is_shown() {
    let action = RelayAction::CreatePairing {
        manual_code: true,
        server_name: "box".to_string(),
        environment_id: some("env-1"),
    };
    assert_eq!(
        action.lines(),
        vec!["Remote-control websocket connected as box (environment env-1)."]
    );
}

#[test]
fn pairing_that_fails_ends_the_run() {
    let waiting = [
        (
            RelayEvent::Status(RemoteControlConnectionStatus::Disabled),
            "remote control became disabled before pairing",
        ),
        (
            RelayEvent::Status(RemoteControlConnectionStatus::Errored),
            "remote-control websocket failed before pairing; check the relay account and backend URL",
        ),
        (
            RelayEvent::StatusClosed,
            "remote-control status channel closed before pairing",
        ),
        (
            RelayEvent::TimedOut,
            "timed out waiting for the remote-control websocket before pairing",
        ),
    ];
    for (event, expected) in waiting {
        let message = message_after(RelayPhase::AwaitingWebsocket, event);
        assert_eq!(message.as_deref(), Some(expected));
    }
    let message = message_after(RelayPhase::CreatingPairing, RelayEvent::Failed);
    assert_eq!(
        message.as_deref(),
        Some("failed to create a manual remote-control pairing code")
    );
    let message = message_after(
        RelayPhase::CreatingPairing,
        RelayEvent::Pairing {
            manual_pairing_code: None,
            expires_at: 0,
        },
    );
    assert_eq!(
        message.as_deref(),
        Some("remote-control backend did not return the requested manual pairing code")
    );
}

#[test]
fn failed_steps_of_the_start_speak_for_themselves() {
    for phase in [
        RelayPhase::OpeningState,
        RelayPhase::LoadingInstallationId,
        RelayPhase::StartingRemoteControl,
        RelayPhase::StartingChild,
    ] {
        assert_eq!(message_after(phase, RelayEvent::Failed), None);
    }
}

#[test]
fn without_a_login_nothing_is_done() {
    let plan = plan(PairingMode::Manual);
    let (phase, action) = run_relay(&plan, RelayPhase::FindingLogin, RelayEvent::Login(None));
    assert!(matches!(
        error_of(outcome_of(action)),
        RelayError::NotAuthenticated
    ));
    let (phase, action) = run_relay(&plan, phase, RelayEvent::Done);
    assert!(matches!(phase, RelayPhase::Exited));
    assert!(matches!(action, RelayAction::Nothing));
}

#[test]
fn the_relay_ends_with_its_child_and_its_transport() {
    let cases = [
        (
            RelayEvent::ChildExited("signal: 9 (SIGKILL)".to_string()),
            Some("child app-server exited unexpectedly with signal: 9 (SIGKILL)"),
        ),
        (
            RelayEvent::RemoteStopped,
            Some("remote-control transport stopped unexpectedly"),
        ),
        (
            RelayEvent::BridgesFailed,
            Some("remote-control transport event channel closed"),
        ),
        (RelayEvent::SignalFailed, None),
    ];
    for (event, expected) in cases {
        let plan = plan(PairingMode::NoPairing);
        let (phase, action) = run_relay(&plan, RelayPhase::Bridging, event);
        assert!(matches!(action, RelayAction::StopChild));
        let (phase, action) = run_relay(
            &plan,
            phase,
            RelayEvent::ChildStopped {
                remote_finished: true,
            },
        );
        assert!(matches!(phase, RelayPhase::Exited));
        assert_eq!(error_of(outcome_of(action)).message().as_deref(), expected);
    }
}

#[test]
fn losing_track_of_a_part_ends_the_run_at_once() {
    assert_eq!(
        message_after(RelayPhase::Bridging, RelayEvent::ChildWaitFailed).as_deref(),
        Some("failed to wait for child app-server")
    );
    assert_eq!(
        message_after(RelayPhase::Bridging, RelayEvent::RemotePanicked).as_deref(),
        Some("remote-control task panicked")
    );
}

#[test]
fn ctrl_c_shuts_the_child_down_and_succeeds() {
    let plan = plan(PairingMode::NoPairing);
    for event in [RelayEvent::Interrupted, RelayEvent::BridgesEnded] {
        let (phase, action) = run_relay(&plan, RelayPhase::Bridging, event);
        assert!(matches!(action, RelayAction::StopChild));
        let (phase, action) = run_relay(
            &plan,
            phase,
            RelayEvent::ChildStopped {
                remote_finished: false,
            },
        );
        assert!(matches!(action, RelayAction::AwaitRemote));
        let (_, action) = run_relay(&plan, phase, RelayEvent::Done);
        assert!(matches!(outcome_of(action), Outcome::Success));
    }
}

#[test]
fn a_remote_task_that_hangs_is_aborted() {
    let plan = plan(PairingMode::NoPairing);
    let (_, action) = run_relay(
        &plan,
        RelayPhase::AwaitingRemote {
            outcome: Outcome::Success,
        },
        RelayEvent::TimedOut,
    );
    assert!(matches!(
        action,
        RelayAction::Exit {
            outcome: Outcome::Success,
            abort_remote: true
        }
    ));
}

fn ticket(expires_at: i64) -> PairingTicket {
    PairingTicket {
        manual_code: "ABCD".to_string(),
        expires_at,
    }
}

#[test]
fn a_ticket_is_asked_for_by_its_manual_code() {
    let question = pairing_question(&ticket(100));
    assert_eq!(question.manual_pairing_code.as_deref(), Some("ABCD"));
    assert!(question.pairing_code.is_none());

    let mut watch = PairingWatch::new(ticket(100), false);
    let PairingAction::Ask { question } = watch.step(PairingEvent::Time { now: 0 }) else {
        panic!("expected a question");
    };
    assert_eq!(question.manual_pairing_code.as_deref(), Some("ABCD"));
    assert!(question.pairing_code.is_none());
}

#[test]
fn pairing_is_watched_until_it_is_claimed() {
    let mut watch = PairingWatch::new(ticket(100), true);
    assert!(matches!(
        watch.step(PairingEvent::Time { now: 99 }),
        PairingAction::Ask { .. }
    ));
    let PairingAction::Sleep {
        remark: Some(remark),
    } = watch.step(PairingEvent::Status { claimed: false })
    else {
        panic!("expected a remark");
    };
    assert_eq!(remark.text(), "Pairing status: not yet claimed.");
    assert!(matches!(
        watch.step(PairingEvent::Time { now: 99 }),
        PairingAction::Ask { .. }
    ));
    let PairingAction::Stop { notice } = watch.step(PairingEvent::Status { claimed: true }) else {
        panic!("expected the end");
    };
    assert_eq!(notice.text(), "Pairing completed successfully.");
    assert!(matches!(
        watch.step(PairingEvent::Time { now: 0 }),
        PairingAction::Nothing
    ));
}

#[test]
fn pairing_without_verbose_is_silent_until_the_end() {
    let mut watch = PairingWatch::new(ticket(100), false);
    watch.step(PairingEvent::Time { now: -5 });
    assert!(matches!(
        watch.step(PairingEvent::Status { claimed: false }),
        PairingAction::Sleep { remark: None }
    ));
}

#[test]
fn pairing_expires() {
    let mut watch = PairingWatch::new(ticket(100), false);
    let PairingAction::Stop { notice } = watch.step(PairingEvent::Time { now: 100 }) else {
        panic!("expected the end");
    };
    assert!(matches!(notice, PairingNotice::Expired));
    assert_eq!(notice.text(), "Pairing expired before it was claimed.");
    assert_eq!(watch.phase, PairingPhase::Ended);
}

#[test]
fn pairing_stops_when_the_backend_cannot_be_asked() {
    let mut watch = PairingWatch::new(ticket(100), false);
    watch.step(PairingEvent::Time { now: 0 });
    let PairingAction::Stop { notice } = watch.step(PairingEvent::Failed("gone".to_string()))
    else {
        panic!("expected the end");
    };
    assert_eq!(notice.text(), "Pairing status check failed: gone");
}

#[test]
fn unix_time_is_signed() {
    assert_eq!(unix_now(Some(1700000000)), 1700000000);
    assert_eq!(unix_now(None), 0);
    assert_eq!(unix_now(Some(u64::MAX)), -1);
    assert_eq!(unix_now(Some(1 << 63)), i64::MIN);
}
