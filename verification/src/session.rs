//! How a run is set up: the token, the level of logging, and what the
//! launcher starts.
use vstd::prelude::*;
use vstd::string::*;

verus! {

/// The environment does not give the token.
#[derive(Debug, Clone, Copy, PartialEq, Eq)]
pub struct TokenMissing;

impl TokenMissing {
    /// The error in words.
    pub fn message(&self) -> (r: String)
        ensures
            r@ == "GH_TOKEN not set"@,
    {
        "GH_TOKEN not set".to_owned()
    }
}

/// The token that the environment gives under `GH_TOKEN`.
pub fn read_token(from_environment: Option<String>) -> (r: Result<String, TokenMissing>)
    ensures
        match from_environment {
            Some(token) => r matches Ok(got) && got@ == token@,
            None => r is Err,
        },
{
    match from_environment {
        Some(token) => Ok(token),
        None => Err(TokenMissing),
    }
}

/// The level up to which events are logged.
#[derive(Debug, Clone, Copy, PartialEq, Eq)]
pub enum Level {
    Debug,
    Info,
}

/// A debug build logs more than a release build.
pub fn max_level(debug_build: bool) -> (r: Level)
    ensures
        debug_build ==> r == Level::Debug,
        !debug_build ==> r == Level::Info,
{
    if debug_build {
        Level::Debug
    } else {
        Level::Info
    }
}

/// The program that the launcher starts.
pub const PROGRAM: &'static str = "prodder";

/// The program that ships the log, fed with what [`PROGRAM`] prints.
pub const SIDECAR: &'static str = "vector";

/// What the launcher does.
#[derive(Debug, PartialEq, Eq)]
pub enum Launch {
    /// Start [`PROGRAM`], start [`SIDECAR`] with these arguments and with the
    /// program's output as its input, wait for it, then for the program.
    WithSidecar(Vec<String>),
    /// Start [`PROGRAM`], say this, and wait for it.
    Alone(String),
}

/// What the launcher does, by whether the key for the log's destination is
/// set.
pub fn launch_plan(datadog_key_is_set: bool) -> (r: Launch)
    ensures
        datadog_key_is_set ==> (r matches Launch::WithSidecar(args) && args@.len() == 2
            && args@[0]@ == "--config"@ && args@[1]@ == "/etc/vector/vector.toml"@),
        !datadog_key_is_set ==> (r matches Launch::Alone(notice) && notice@
            == "launcher: DATADOG_API_KEY not set; running prodder without vector sidecar"@),
{
    if datadog_key_is_set {
        let mut args: Vec<String> = Vec::new();
        args.push("--config".to_owned());
        args.push("/etc/vector/vector.toml".to_owned());
        Launch::WithSidecar(args)
    } else {
        Launch::Alone(
            "launcher: DATADOG_API_KEY not set; running prodder without vector sidecar".to_owned(),
        )
    }
}

/// The programs that the launcher starts.
pub proof fn programs_are_named()
    ensures
        PROGRAM@ == "prodder"@,
        SIDECAR@ == "vector"@,
{
}

}
