//! The command registry and the decisions of the `login` command.
use crate::config::{with_credential, Auth, Config};
use crate::http::same_text;
use vstd::prelude::*;

verus! {

/// The commands that the program offers.
#[derive(Debug, Clone, Copy, PartialEq, Eq)]
pub enum Command {
    Login,
}

/// The name of a command on the command line.
pub fn command_name(c: Command) -> (r: &'static str)
    ensures
        c == Command::Login ==> r@ == "login"@,
{
    match c {
        Command::Login => "login",
    }
}

/// The registered commands, in the order they are offered.
pub fn commands() -> (r: Vec<Command>)
    ensures
        r@ == seq![Command::Login],
{
    vec![Command::Login]
}

/// The command registered under a name.
pub fn command_named(name: &str) -> (r: Option<Command>)
    ensures
        r == (if name@ == "login"@ { Some(Command::Login) } else { None::<Command> }),
{
    if same_text(name, "login") {
        Some(Command::Login)
    } else {
        None
    }
}

/// The exit status of a run: 0 where the command succeeded, else 1.
pub fn exit_status<E>(result: &Result<(), E>) -> (r: i32)
    ensures
        r == (if result is Ok { 0i32 } else { 1i32 }),
{
    match result {
        Ok(()) => 0,
        Err(_) => 1,
    }
}

/// The configuration after a login with `token`: a copy of `config` whose
/// credential is that token. `config` itself stays as it is.
pub fn login_with_token(config: &Config, token: String) -> (r: Config)
    ensures
        r.spec_store() == with_credential(config.spec_store(), Auth::Token(token)),
        r.spec_auth() == Some(Auth::Token(token)),
        r.spec_path() == config.spec_path(),
        r.spec_remote() == config.spec_remote(),
        !r.spec_bound(),
        config.wf() ==> r.wf(),
{
    let mut c = config.copy();
    c.set_auth(Auth::Token(token));
    c
}

} // verus!
