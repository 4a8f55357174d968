use vstd::prelude::*;

use crate::check::verdict_model;
use crate::process::{lossy_text, lossy_utf8, CommandOutcome, CommandOutcomeModel};
use crate::text::{decimal, decimal_text};

verus! {

/// The shell command that brings up a virtual network interface with an
/// address, with sudo.
pub fn add_vnic_command(password: &str, vnic_name: &str, vnic_ip: &str) -> (command: String)
    ensures
        command@ == "echo "@ + password@ + " | sudo -S ifconfig "@ + vnic_name@ + " "@ + vnic_ip@,
{
    let mut command = String::from_str("echo ");
    command.append(password);
    command.append(" | sudo -S ifconfig ");
    command.append(vnic_name);
    command.append(" ");
    command.append(vnic_ip);
    command
}

/// The message of a failure to bring up a virtual network interface.
pub open spec fn add_vnic_failure(vnic_name: Seq<char>, vnic_ip: Seq<char>, reason: Seq<char>) -> Seq<char> {
    "Adding virtual nic "@ + vnic_name + " "@ + vnic_ip + " error: "@ + reason + "."@
}

/// The verdict on bringing up a virtual network interface, given how its
/// command ended.
pub open spec fn add_vnic_verdict(vnic_name: Seq<char>, vnic_ip: Seq<char>, outcome: CommandOutcomeModel) -> Result<(), Seq<char>> {
    match outcome {
        CommandOutcomeModel::SpawnFailed(reason) => Err(add_vnic_failure(vnic_name, vnic_ip, reason)),
        CommandOutcomeModel::Exited { success, stderr, .. } => if success {
            Ok(())
        } else {
            Err(add_vnic_failure(vnic_name, vnic_ip, lossy_utf8(stderr)))
        },
    }
}

/// The verdict on bringing up a virtual network interface, from how its
/// command ended.
pub fn add_virtual_nic(vnic_name: &str, vnic_ip: &str, outcome: &CommandOutcome) -> (r: Result<(), String>)
    ensures
        verdict_model(r) == add_vnic_verdict(vnic_name@, vnic_ip@, outcome.model()),
{
    let reason = match outcome {
        CommandOutcome::SpawnFailed(reason) => reason.clone(),
        CommandOutcome::Exited { success, stderr, .. } => {
            if *success {
                return Ok(());
            }
            lossy_text(stderr)
        },
    };
    let mut msg = String::from_str("Adding virtual nic ");
    msg.append(vnic_name);
    msg.append(" ");
    msg.append(vnic_ip);
    msg.append(" error: ");
    msg.append(reason.as_str());
    msg.append(".");
    Err(msg)
}

/// The shell command that takes down a virtual network interface, with sudo.
pub fn remove_vnic_command(password: &str, vnic_name: &str) -> (command: String)
    ensures
        command@ == "echo "@ + password@ + " | sudo -S ifconfig "@ + vnic_name@ + " down"@,
{
    let mut command = String::from_str("echo ");
    command.append(password);
    command.append(" | sudo -S ifconfig ");
    command.append(vnic_name);
    command.append(" down");
    command
}

/// The verdict on taking down a virtual network interface, given how its
/// command ended.
pub open spec fn remove_vnic_verdict(vnic_name: Seq<char>, outcome: CommandOutcomeModel) -> Result<(), Seq<char>> {
    match outcome {
        CommandOutcomeModel::SpawnFailed(reason) => Err("Removing virtual nic "@ + vnic_name + " error: "@ + reason + "."@),
        CommandOutcomeModel::Exited { .. } => Ok(()),
    }
}

/// The verdict on taking down a virtual network interface: only a command
/// that could not be started is an error; one that ran and failed is not.
pub fn remove_virtual_nic(vnic_name: &str, outcome: &CommandOutcome) -> (r: Result<(), String>)
    ensures
        verdict_model(r) == remove_vnic_verdict(vnic_name@, outcome.model()),
{
    match outcome {
        CommandOutcome::SpawnFailed(reason) => {
            let mut msg = String::from_str("Removing virtual nic ");
            msg.append(vnic_name);
            msg.append(" error: ");
            msg.append(reason.as_str());
            msg.append(".");
            Err(msg)
        },
        CommandOutcome::Exited { .. } => Ok(()),
    }
}

/// The name of the alias interface of a store's virtual network interface.
pub open spec fn vnic_alias_text(store: nat, index: nat) -> Seq<char> {
    "lo:"@ + decimal_text(store) + decimal_text(index)
}

/// The name of the alias interface of the `index`-th virtual network
/// interface of the `store`-th store.
pub fn vnic_alias(store: usize, index: usize) -> (name: String)
    ensures
        name@ == vnic_alias_text(store as nat, index as nat),
{
    let mut name = String::from_str("lo:");
    let s = decimal(store as u64);
    let i = decimal(index as u64);
    name.append(s.as_str());
    name.append(i.as_str());
    name
}


/// An interface is up exactly when its command ran and succeeded, whatever
/// it wrote; a command that failed is reported with the interface, its
/// address and what the command wrote to standard error.
pub proof fn interfaces_come_up_on_success_alone(
    vnic_name: Seq<char>,
    vnic_ip: Seq<char>,
    success: bool,
    stdout: Seq<u8>,
    stderr: Seq<u8>,
)
    ensures
        add_vnic_verdict(vnic_name, vnic_ip, CommandOutcomeModel::Exited { success, stdout, stderr }) is Ok <==> success,
        !success ==> add_vnic_verdict(vnic_name, vnic_ip, CommandOutcomeModel::Exited { success, stdout, stderr })
            == Err::<(), Seq<char>>(add_vnic_failure(vnic_name, vnic_ip, lossy_utf8(stderr))),
{
}

/// Taking an interface down fails only when its command could not be
/// started: a command that ran counts as done, whether it succeeded or not.
pub proof fn interfaces_go_down_once_their_command_ran(
    vnic_name: Seq<char>,
    outcome: CommandOutcomeModel,
)
    ensures
        remove_vnic_verdict(vnic_name, outcome) is Ok <==> outcome is Exited,
{
}
} // verus!
