//! The directories that the relay works in.
//!
//! The relay's home holds its ChatGPT credentials.  The child's home holds the
//! child's own state, the installation identity and the enrollment.  Both
//! default to the regular Codex home.

use vstd::prelude::*;

use crate::text::join;

verus! {

/// The directory under the user's home that is the regular Codex home.
pub const CODEX_DIRECTORY: &'static str = ".codex";

/// The mode of the relay's home on Unix: read, write and search for its owner,
/// nothing for anybody else.
pub const RELAY_HOME_MODE: u32 = 0o700;

/// A directory.
#[derive(Debug)]
pub enum Home {
    /// The directory with this path.
    At(String),
    /// The Codex directory of the user with this home.
    RegularUnder(String),
}

impl Home {
    /// A copy of the directory.
    pub fn copy(&self) -> (home: Home)
        ensures
            home == *self,
    {
        match self {
            Home::At(path) => Home::At(path.clone()),
            Home::RegularUnder(path) => Home::RegularUnder(path.clone()),
        }
    }
}

/// Why a directory cannot be told.
#[derive(Debug)]
pub enum HomeError {
    /// The user has no home.
    NoHomeDirectory,
}

/// What an error says.
pub open spec fn home_error_text(error: HomeError) -> Seq<char> {
    match error {
        HomeError::NoHomeDirectory => "could not determine the home directory"@,
    }
}

impl HomeError {
    /// What the error says.
    pub fn message(&self) -> (text: String)
        ensures
            text@ == home_error_text(*self),
    {
        match self {
            HomeError::NoHomeDirectory => "could not determine the home directory".to_owned(),
        }
    }
}

/// The child's home: the one that is given; else the one that `CODEX_HOME`
/// names, unless it is empty; else the Codex directory of the user.
pub open spec fn codex_home(
    given: Option<String>,
    codex_home_variable: Option<String>,
    user_home: Option<String>,
) -> Result<Home, HomeError> {
    match given {
        Some(path) => Ok(Home::At(path)),
        None => match codex_home_variable {
            Some(path) if path@.len() > 0 => Ok(Home::At(path)),
            _ => match user_home {
                Some(path) => Ok(Home::RegularUnder(path)),
                None => Err(HomeError::NoHomeDirectory),
            },
        },
    }
}

/// The child's home.  `given` is the path on the command line,
/// `codex_home_variable` the value of `CODEX_HOME`, and `user_home` the home of
/// the user.
pub fn resolve_codex_home(
    given: Option<String>,
    codex_home_variable: Option<String>,
    user_home: Option<String>,
) -> (home: Result<Home, HomeError>)
    ensures
        home == codex_home(given, codex_home_variable, user_home),
{
    if let Some(path) = given {
        return Ok(Home::At(path));
    }
    if let Some(path) = codex_home_variable {
        if !path.as_str().is_empty() {
            return Ok(Home::At(path));
        }
    }
    match user_home {
        Some(path) => Ok(Home::RegularUnder(path)),
        None => Err(HomeError::NoHomeDirectory),
    }
}

/// The relay's home: the one that is given; else the regular Codex home.
pub open spec fn relay_home(
    given: Option<String>,
    codex_home_variable: Option<String>,
    user_home: Option<String>,
) -> Result<Home, HomeError> {
    match given {
        Some(path) => Ok(Home::At(path)),
        None => codex_home(None, codex_home_variable, user_home),
    }
}

/// The relay's home.  `given` is the path on the command line or in
/// `CODEX_RELAY_HOME`, `codex_home_variable` the value of `CODEX_HOME`, and
/// `user_home` the home of the user.
pub fn resolve_relay_home(
    given: Option<String>,
    codex_home_variable: Option<String>,
    user_home: Option<String>,
) -> (home: Result<Home, HomeError>)
    ensures
        home == relay_home(given, codex_home_variable, user_home),
{
    if let Some(path) = given {
        return Ok(Home::At(path));
    }
    resolve_codex_home(None, codex_home_variable, user_home)
}

/// The mode to set on the relay's home, where the system has modes.  It keeps
/// everybody but the owner out.
pub fn restrict_relay_home_permissions(unix: bool) -> (mode: Option<u32>)
    ensures
        mode == if unix {
            Some(RELAY_HOME_MODE)
        } else {
            None
        },
        mode matches Some(mode) ==> mode & 0o077 == 0,
{
    if unix {
        assert(0o700u32 & 0o077 == 0) by (bit_vector);
        Some(RELAY_HOME_MODE)
    } else {
        None
    }
}

/// What is said of a home with which something could not be done, before the
/// cause.
pub open spec fn failure_text(done: Seq<char>, relay_home: Seq<char>) -> Seq<char> {
    "failed to "@ + done + " "@ + relay_home
}

/// What is said when the relay's home cannot be made, before the cause.
pub fn create_failure(relay_home: &str) -> (text: String)
    ensures
        text@ == "failed to create "@ + relay_home@,
        text@ == failure_text("create"@, relay_home@),
{
    let text = join("failed to create ", relay_home);
    proof {
        reveal_strlit("failed to create ");
        reveal_strlit("failed to ");
        reveal_strlit("create");
        reveal_strlit(" ");
        assert(text@ =~= failure_text("create"@, relay_home@));
    }
    text
}

/// What is said when the mode of the relay's home cannot be set, before the
/// cause.
pub fn secure_failure(relay_home: &str) -> (text: String)
    ensures
        text@ == "failed to secure "@ + relay_home@,
        text@ == failure_text("secure"@, relay_home@),
{
    let text = join("failed to secure ", relay_home);
    proof {
        reveal_strlit("failed to secure ");
        reveal_strlit("failed to ");
        reveal_strlit("secure");
        reveal_strlit(" ");
        assert(text@ =~= failure_text("secure"@, relay_home@));
    }
    text
}

/// Where neither home is given, the relay and the child share one.
pub proof fn law_homes_default_alike(
    codex_home_variable: Option<String>,
    user_home: Option<String>,
)
    ensures
        relay_home(None, codex_home_variable, user_home) == codex_home(
            None,
            codex_home_variable,
            user_home,
        ),
{
}

/// A home that is given wins over everything else.
pub proof fn law_given_home_wins(
    path: String,
    codex_home_variable: Option<String>,
    user_home: Option<String>,
)
    ensures
        codex_home(Some(path), codex_home_variable, user_home) == Ok::<Home, HomeError>(
            Home::At(path),
        ),
        relay_home(Some(path), codex_home_variable, user_home) == Ok::<
            Home,
            HomeError,
        >(Home::At(path)),
{
}

/// Without a home that is given, the regular Codex home is used: the one that
/// `CODEX_HOME` names exactly where it names one, and otherwise the one of the
/// user, if there is a user's home.
pub proof fn law_regular_home(codex_home_variable: Option<String>, user_home: Option<String>)
    ensures
        match codex_home(None, codex_home_variable, user_home) {
            Ok(Home::At(path)) => codex_home_variable == Some(path) && path@.len() > 0,
            Ok(Home::RegularUnder(path)) => user_home == Some(path) && (
            codex_home_variable matches Some(named) ==> named@.len() == 0),
            Err(error) => error is NoHomeDirectory && user_home is None && (
            codex_home_variable matches Some(named) ==> named@.len() == 0),
        },
{
}

/// The relay's home is read and written by its owner and nobody else.
pub proof fn law_relay_home_is_private()
    ensures
        RELAY_HOME_MODE == 0o700,
{
}

/// A failure names what was to be done and the home, in full.
pub proof fn law_failure_names_the_home(done: Seq<char>, relay_home: Seq<char>)
    ensures
        failure_text(done, relay_home) == "failed to "@ + done + " "@ + relay_home,
{
}

} // verus!
