//! Logging the relay into ChatGPT.

use vstd::prelude::*;

use crate::homes::Home;
use crate::text::join3;

verus! {

/// Where the relay's ChatGPT credentials are.
#[derive(Debug)]
pub struct Credentials {
    pub home: Home,
    /// Whether they are kept in a file of that home, and not in a keyring.
    pub in_file: bool,
    /// The only workspace that may be logged into, if there is but one.
    pub forced_workspace: Option<String>,
}

/// The relay's credentials are in a file of the relay's home, for any workspace.
pub open spec fn credentials_in(relay_home: Home) -> Credentials {
    Credentials { home: relay_home, in_file: true, forced_workspace: None }
}

/// Where the relay's credentials are.
pub fn relay_credentials(relay_home: &Home) -> (credentials: Credentials)
    ensures
        credentials == credentials_in(*relay_home),
{
    Credentials { home: relay_home.copy(), in_file: true, forced_workspace: None }
}

/// What happens during a login.
#[derive(Debug)]
pub enum LoginEvent {
    /// The step at hand was done.
    Done,
    /// The step at hand failed; its own error says why.
    Failed,
    /// The login server is up, and waits for a browser at this URL.
    ServerStarted { auth_url: String },
}

/// What the relay does next for a login.
#[derive(Debug)]
pub enum LoginAction {
    /// Log in by a code that is typed in on another device.
    DeviceCode { credentials: Credentials },
    /// Start a server for the callback of the local browser.
    StartServer { credentials: Credentials },
    /// Tell the user to open this URL.
    Show { auth_url: String },
    /// Wait until the server has been called back.
    Wait,
    /// End, with the error of the failed step unless `success`.
    Finish { success: bool },
    /// Nothing: the event does not belong here.
    Nothing,
}

/// How far a login has come.
#[derive(Debug, Clone, Copy, PartialEq, Eq, Structural)]
pub enum LoginPhase {
    DeviceCode,
    StartingServer,
    Showing,
    Waiting,
    Ended,
}

/// How a login begins: by device code, unless the browser is asked for.
pub open spec fn login_start(relay_home: Home, browser: bool) -> (LoginPhase, LoginAction) {
    let credentials = credentials_in(relay_home);
    if browser {
        (LoginPhase::StartingServer, LoginAction::StartServer { credentials })
    } else {
        (LoginPhase::DeviceCode, LoginAction::DeviceCode { credentials })
    }
}

/// Begins a login that stores the credentials in the relay's home.
pub fn login(relay_home: &Home, browser: bool) -> (start: (LoginPhase, LoginAction))
    ensures
        start == login_start(*relay_home, browser),
{
    let credentials = relay_credentials(relay_home);
    if !browser {
        return (LoginPhase::DeviceCode, LoginAction::DeviceCode { credentials });
    }
    (LoginPhase::StartingServer, LoginAction::StartServer { credentials })
}

/// The end of a login.
pub open spec fn login_end(success: bool) -> (LoginPhase, LoginAction) {
    (LoginPhase::Ended, LoginAction::Finish { success })
}

/// What a login does on an event, and how far it comes.
pub open spec fn login_next(phase: LoginPhase, event: LoginEvent) -> (LoginPhase, LoginAction) {
    match (phase, event) {
        (LoginPhase::DeviceCode, LoginEvent::Done) => login_end(true),
        (LoginPhase::DeviceCode, LoginEvent::Failed) => login_end(false),
        (LoginPhase::StartingServer, LoginEvent::ServerStarted { auth_url }) => (
            LoginPhase::Showing,
            LoginAction::Show { auth_url },
        ),
        (LoginPhase::StartingServer, LoginEvent::Failed) => login_end(false),
        (LoginPhase::Showing, LoginEvent::Done) => (LoginPhase::Waiting, LoginAction::Wait),
        (LoginPhase::Waiting, LoginEvent::Done) => login_end(true),
        (LoginPhase::Waiting, LoginEvent::Failed) => login_end(false),
        (phase, _) => (phase, LoginAction::Nothing),
    }
}

/// Takes an event of a login that has come to `phase`.
pub fn continue_login(phase: LoginPhase, event: LoginEvent) -> (next: (LoginPhase, LoginAction))
    ensures
        next == login_next(phase, event),
{
    match (phase, event) {
        (LoginPhase::StartingServer, LoginEvent::ServerStarted { auth_url }) => (
            LoginPhase::Showing,
            LoginAction::Show { auth_url },
        ),
        (LoginPhase::Showing, LoginEvent::Done) => (LoginPhase::Waiting, LoginAction::Wait),
        (LoginPhase::DeviceCode | LoginPhase::Waiting, LoginEvent::Done) => (
            LoginPhase::Ended,
            LoginAction::Finish { success: true },
        ),
        (
            LoginPhase::DeviceCode | LoginPhase::StartingServer | LoginPhase::Waiting,
            LoginEvent::Failed,
        ) => (LoginPhase::Ended, LoginAction::Finish { success: false }),
        (phase, _) => (phase, LoginAction::Nothing),
    }
}

/// What the user is told to do for the browser's callback.
pub open spec fn browser_prompt_text(auth_url: Seq<char>) -> Seq<char> {
    "Open this URL to authenticate the relay:\n\n"@ + auth_url + "\n"@
}

/// What the user is told to do for the browser's callback.
pub fn browser_prompt(auth_url: &str) -> (text: String)
    ensures
        text@ == "Open this URL to authenticate the relay:\n\n"@ + auth_url@ + "\n"@,
        text@ == browser_prompt_text(auth_url@),
{
    join3("Open this URL to authenticate the relay:\n\n", auth_url, "\n")
}

/// How far a login comes by a sequence of events, and what it does on each.
pub open spec fn login_run(phase: LoginPhase, events: Seq<LoginEvent>) -> (
    LoginPhase,
    Seq<LoginAction>,
)
    decreases events.len(),
{
    if events.len() == 0 {
        (phase, Seq::empty())
    } else {
        let before = login_run(phase, events.drop_last());
        let last = login_next(before.0, events.last());
        (last.0, before.1.push(last.1))
    }
}

proof fn lemma_login_run(phase: LoginPhase, events: Seq<LoginEvent>, i: int)
    requires
        0 <= i < events.len(),
    ensures
        login_run(phase, events).1.len() == events.len(),
        login_run(phase, events).1[i] == login_next(
            login_run(phase, events.take(i)).0,
            events[i],
        ).1,
    decreases events.len(),
{
    let init = events.drop_last();
    lemma_login_len(phase, init);
    if i == events.len() - 1 {
        assert(events.take(i) =~= init);
    } else {
        lemma_login_run(phase, init, i);
        assert(init.take(i) =~= events.take(i));
        assert(init[i] == events[i]);
    }
}

proof fn lemma_login_len(phase: LoginPhase, events: Seq<LoginEvent>)
    ensures
        login_run(phase, events).1.len() == events.len(),
    decreases events.len(),
{
    if events.len() > 0 {
        lemma_login_len(phase, events.drop_last());
    }
}

/// Exactly one flow runs: the one that the login begins with.  No event begins
/// another, and without the browser no URL is shown and no server waited for.
pub proof fn law_one_login_flow(relay_home: Home, browser: bool, events: Seq<LoginEvent>, i: int)
    requires
        0 <= i < events.len(),
    ensures
        ({
            let action = login_run(login_start(relay_home, browser).0, events).1[i];
            &&& !(action is DeviceCode)
            &&& !(action is StartServer)
            &&& !browser ==> !(action is Show) && !(action is Wait)
        }),
{
    let phase = login_start(relay_home, browser).0;
    lemma_login_run(phase, events, i);
    if !browser {
        lemma_device_code_stays(events.take(i));
    }
}

proof fn lemma_device_code_stays(events: Seq<LoginEvent>)
    ensures
        ({
            let phase = login_run(LoginPhase::DeviceCode, events).0;
            phase == LoginPhase::DeviceCode || phase == LoginPhase::Ended
        }),
    decreases events.len(),
{
    if events.len() > 0 {
        lemma_device_code_stays(events.drop_last());
    }
}

/// Whether the user has been shown the URL of a server that was started.
pub open spec fn was_shown(events: Seq<LoginEvent>, actions: Seq<LoginAction>) -> bool {
    exists|i: int|
        0 <= i < events.len() && (#[trigger] actions[i] matches LoginAction::Show { auth_url }
            && events[i] == LoginEvent::ServerStarted { auth_url })
}

proof fn lemma_shown(relay_home: Home, browser: bool, events: Seq<LoginEvent>)
    ensures
        ({
            let run = login_run(login_start(relay_home, browser).0, events);
            run.0 == LoginPhase::Showing || run.0 == LoginPhase::Waiting ==> was_shown(
                events,
                run.1,
            )
        }),
    decreases events.len(),
{
    if events.len() > 0 {
        let phase = login_start(relay_home, browser).0;
        let init = events.drop_last();
        lemma_login_len(phase, init);
        lemma_shown(relay_home, browser, init);
        let before = login_run(phase, init);
        let run = login_run(phase, events);
        if was_shown(init, before.1) {
            let i = choose|i: int|
                0 <= i < init.len() && (#[trigger] before.1[i] matches LoginAction::Show { auth_url }
                    && init[i] == LoginEvent::ServerStarted { auth_url });
            assert(run.1[i] == before.1[i]);
            assert(events[i] == init[i]);
        } else {
            assert(run.1[events.len() - 1] == login_next(before.0, events.last()).1);
        }
    }
}

/// The URL of the login server is shown before the server is waited for.
pub proof fn law_url_is_shown_before_the_wait(
    relay_home: Home,
    browser: bool,
    events: Seq<LoginEvent>,
    i: int,
)
    requires
        0 <= i < events.len(),
        login_run(login_start(relay_home, browser).0, events).1[i] is Wait,
    ensures
        was_shown(
            events.take(i),
            login_run(login_start(relay_home, browser).0, events.take(i)).1,
        ),
{
    lemma_login_run(login_start(relay_home, browser).0, events, i);
    lemma_shown(relay_home, browser, events.take(i));
}

/// A login succeeds if and only if the last step of its flow does, and fails as
/// soon as a step fails.
pub proof fn law_login_ends_as_its_flow(phase: LoginPhase, events: Seq<LoginEvent>, i: int)
    requires
        0 <= i < events.len(),
    ensures
        ({
            let at = login_run(phase, events.take(i)).0;
            let last = at == LoginPhase::DeviceCode || at == LoginPhase::Waiting;
            let action = login_run(phase, events).1[i];
            &&& action == (LoginAction::Finish { success: true }) <==> last && events[i] is Done
            &&& action == (LoginAction::Finish { success: false }) <==> (last || at
                == LoginPhase::StartingServer) && events[i] is Failed
        }),
{
    lemma_login_run(phase, events, i);
}

/// A login begins with the flow that is asked for: the browser's exactly when it
/// is asked for, the device code otherwise.  Either stores the credentials in a
/// file of the relay's home, for any workspace.
pub proof fn law_login_begins_as_asked(relay_home: Home, browser: bool)
    ensures
        ({
            let (phase, action) = login_start(relay_home, browser);
            &&& browser <==> action is StartServer
            &&& !browser <==> action is DeviceCode
            &&& browser ==> phase == LoginPhase::StartingServer
            &&& !browser ==> phase == LoginPhase::DeviceCode
            &&& action matches LoginAction::StartServer { credentials } ==> {
                &&& credentials.home == relay_home
                &&& credentials.in_file
                &&& credentials.forced_workspace is None
            }
            &&& action matches LoginAction::DeviceCode { credentials } ==> {
                &&& credentials.home == relay_home
                &&& credentials.in_file
                &&& credentials.forced_workspace is None
            }
        }),
{
}

/// The URL that is shown is the one of the server that was started, and it is
/// shown exactly when that server is up; the server is waited for exactly when
/// the URL was shown.
pub proof fn law_browser_is_led_to_the_server(
    phase: LoginPhase,
    event: LoginEvent,
    auth_url: String,
)
    ensures
        login_next(phase, event).1 == (LoginAction::Show { auth_url }) <==> (phase
            == LoginPhase::StartingServer && event == (LoginEvent::ServerStarted { auth_url })),
        login_next(phase, event).1 is Wait <==> (phase == LoginPhase::Showing && event
            == LoginEvent::Done),
{
}

/// A login ends exactly with its flow: with success when the device code or the
/// callback is done, and with failure when a step fails.
pub proof fn law_login_ends_with_its_flow(phase: LoginPhase, event: LoginEvent, success: bool)
    ensures
        login_next(phase, event).1 == (LoginAction::Finish { success }) <==> match phase {
            LoginPhase::DeviceCode => event == (if success {
                LoginEvent::Done
            } else {
                LoginEvent::Failed
            }),
            LoginPhase::Waiting => event == (if success {
                LoginEvent::Done
            } else {
                LoginEvent::Failed
            }),
            LoginPhase::StartingServer => !success && event == LoginEvent::Failed,
            _ => false,
        },
{
}

/// How far a login is after an action: at what it does, or at its end; and an
/// event that does not belong leaves it where it was.
pub proof fn law_login_is_at_what_it_does(phase: LoginPhase, event: LoginEvent)
    ensures
        ({
            let (after, action) = login_next(phase, event);
            after == match action {
                LoginAction::DeviceCode { .. } => LoginPhase::DeviceCode,
                LoginAction::StartServer { .. } => LoginPhase::StartingServer,
                LoginAction::Show { .. } => LoginPhase::Showing,
                LoginAction::Wait => LoginPhase::Waiting,
                LoginAction::Finish { .. } => LoginPhase::Ended,
                LoginAction::Nothing => phase,
            }
        }),
{
}

/// The user is shown the whole URL, on lines of its own.
pub proof fn law_prompt_shows_the_url(auth_url: Seq<char>)
    ensures
        browser_prompt_text(auth_url) == "Open this URL to authenticate the relay:\n\n"@ + auth_url
            + "\n"@,
{
}

} // verus!
