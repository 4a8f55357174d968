use vstd::prelude::*;

use crate::check::verdict_model;

verus! {

/// The shell command that runs a server program with its arguments.
pub fn server_command(bin: &str, server_args: &str) -> (command: String)
    ensures
        command@ == bin@ + " "@ + server_args@,
{
    let mut command = String::from_str(bin);
    command.append(" ");
    command.append(server_args);
    command
}

/// What was seen of a server some time after it was started.
#[derive(Debug, PartialEq)]
pub enum ServerStart {
    /// It could not be started; holds the system's reason.
    SpawnFailed(String),
    /// It has already exited.
    Exited,
    /// It is still running.
    Running,
    /// Whether it still runs could not be told; holds the system's reason.
    WaitFailed(String),
}

/// The mathematical model of a [`ServerStart`].
pub enum ServerStartModel {
    SpawnFailed(Seq<char>),
    Exited,
    Running,
    WaitFailed(Seq<char>),
}

impl ServerStart {
    pub open spec fn model(&self) -> ServerStartModel {
        match self {
            ServerStart::SpawnFailed(reason) => ServerStartModel::SpawnFailed(reason@),
            ServerStart::Exited => ServerStartModel::Exited,
            ServerStart::Running => ServerStartModel::Running,
            ServerStart::WaitFailed(reason) => ServerStartModel::WaitFailed(reason@),
        }
    }
}

/// The verdict on starting a server, given what was seen of it after the wait.
pub open spec fn start_verdict(start: ServerStartModel) -> Result<(), Seq<char>> {
    match start {
        ServerStartModel::SpawnFailed(reason) => Err("Can't run your store server: "@ + reason + "."@),
        ServerStartModel::Exited => Err("The store server isn't running."@),
        ServerStartModel::Running => Ok(()),
        ServerStartModel::WaitFailed(reason) => Err("Can't wait the store server to run: "@ + reason + "."@),
    }
}

/// The verdict on starting a server: it must still run after the wait.
pub fn try_run(start: &ServerStart) -> (r: Result<(), String>)
    ensures
        verdict_model(r) == start_verdict(start.model()),
{
    match start {
        ServerStart::SpawnFailed(reason) => {
            let mut msg = String::from_str("Can't run your store server: ");
            msg.append(reason.as_str());
            msg.append(".");
            Err(msg)
        },
        ServerStart::Exited => Err(String::from_str("The store server isn't running.")),
        ServerStart::Running => Ok(()),
        ServerStart::WaitFailed(reason) => {
            let mut msg = String::from_str("Can't wait the store server to run: ");
            msg.append(reason.as_str());
            msg.append(".");
            Err(msg)
        },
    }
}

/// The verdict on stopping a server, given `None` when there was no server
/// to stop, else how the kill went.
pub open spec fn kill_verdict(kill: Option<Result<(), Seq<char>>>) -> Result<(), Seq<char>> {
    match kill {
        None => Ok(()),
        Some(Ok(())) => Ok(()),
        Some(Err(reason)) => Err("Kill the store server failed: "@ + reason + "."@),
    }
}

/// The model of how a kill went, if there was one.
pub open spec fn kill_model(kill: Option<Result<(), String>>) -> Option<Result<(), Seq<char>>> {
    match kill {
        None => None,
        Some(r) => Some(verdict_model(r)),
    }
}

/// The verdict on stopping a server: `None` when there was no server to
/// stop, else how the kill went.
pub fn try_kill(kill: &Option<Result<(), String>>) -> (r: Result<(), String>)
    ensures
        verdict_model(r) == kill_verdict(kill_model(*kill)),
{
    match kill {
        None => Ok(()),
        Some(Ok(())) => Ok(()),
        Some(Err(reason)) => {
            let mut msg = String::from_str("Kill the store server failed: ");
            msg.append(reason.as_str());
            msg.append(".");
            Err(msg)
        },
    }
}


/// A server counts as started exactly when it still runs after the wait.
pub proof fn servers_start_when_they_still_run(start: ServerStartModel)
    ensures
        start_verdict(start) is Ok <==> start is Running,
{
}

/// Stopping a server fails only when a kill was made and failed.
pub proof fn servers_stop_unless_the_kill_failed(kill: Option<Result<(), Seq<char>>>)
    ensures
        kill_verdict(kill) is Ok <==> !(kill matches Some(Err(_))),
{
}
} // verus!
