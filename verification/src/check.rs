use vstd::prelude::*;

use crate::process::{CommandOutcome, CommandOutcomeModel};

verus! {

/// The shell command that tells whether a tool is installed under `./bin`.
pub fn tool_check_command(tool: &str) -> (command: String)
    ensures
        command@ == "ls ./bin/"@ + tool@,
{
    let mut command = String::from_str("ls ./bin/");
    command.append(tool);
    command
}

/// Whether a tool's check command shows it installed: it ran and succeeded.
pub open spec fn tool_found(outcome: CommandOutcomeModel) -> bool {
    outcome matches CommandOutcomeModel::Exited { success, .. } && success
}

/// Whether the tool was found: its check command ran and succeeded.
pub fn check_tool_exist(outcome: &CommandOutcome) -> (found: bool)
    ensures
        found == tool_found(outcome.model()),
{
    match outcome {
        CommandOutcome::SpawnFailed(_) => false,
        CommandOutcome::Exited { success, .. } => *success,
    }
}

/// The verdict on the tools, given whether `ab-go` is installed.
pub open spec fn tools_verdict(ab_go_installed: bool) -> Result<(), Seq<char>> {
    if ab_go_installed {
        Ok(())
    } else {
        Err("Checking tools finished. Please install all tools."@)
    }
}

/// The verdict on the tools: all that is needed is `ab-go`.
pub fn check_tools(ab_go_installed: bool) -> (r: Result<(), String>)
    ensures
        verdict_model(r) == tools_verdict(ab_go_installed),
{
    if ab_go_installed {
        return Ok(());
    }
    Err(String::from_str("Checking tools finished. Please install all tools."))
}

/// The shell command that tells whether the password grants sudo privilege.
pub fn privilege_check_command(password: &str) -> (command: String)
    ensures
        command@ == "echo "@ + password@ + " | sudo -S ls ."@,
{
    let mut command = String::from_str("echo ");
    command.append(password);
    command.append(" | sudo -S ls .");
    command
}

/// The shell command that tells, without asking for a password, whether
/// sudo privilege is at hand.
pub fn privilege_probe_command() -> (command: String)
    ensures
        command@ == "sudo -n true"@,
{
    String::from_str("sudo -n true")
}

/// The verdict on sudo privilege, given how its check command ended.
pub open spec fn privilege_verdict(outcome: CommandOutcomeModel) -> Result<(), Seq<char>> {
    match outcome {
        CommandOutcomeModel::SpawnFailed(reason) => Err("Run the check command error: "@ + reason + "."@),
        CommandOutcomeModel::Exited { success, .. } => if success {
            Ok(())
        } else {
            Err("Failed to get sudo privilege. Please check your sudo password"@)
        },
    }
}

/// The verdict on sudo privilege, from how its check command ended.
pub fn check_privilege(outcome: &CommandOutcome) -> (r: Result<(), String>)
    ensures
        verdict_model(r) == privilege_verdict(outcome.model()),
{
    match outcome {
        CommandOutcome::SpawnFailed(reason) => {
            let mut msg = String::from_str("Run the check command error: ");
            msg.append(reason.as_str());
            msg.append(".");
            Err(msg)
        },
        CommandOutcome::Exited { success, .. } => if *success {
            Ok(())
        } else {
            Err(String::from_str("Failed to get sudo privilege. Please check your sudo password"))
        },
    }
}

/// The verdict on the test mode alone: only `basic` is available.
pub open spec fn mode_verdict(mode: Seq<char>) -> Result<(), Seq<char>> {
    if mode == "basic"@ {
        Ok(())
    } else if mode == "advanced"@ {
        Err("Sorry, the advanced version is still not implemented."@)
    } else {
        Err("Unknown mode "@ + mode + ", which should be 'basic' or 'advanced'."@)
    }
}

/// The model of a verdict.
pub open spec fn verdict_model(r: Result<(), String>) -> Result<(), Seq<char>> {
    match r {
        Ok(()) => Ok(()),
        Err(msg) => Err(msg@),
    }
}

/// The verdict before a test run, given the verdicts on privilege and tools.
pub open spec fn run_verdict(privilege: Result<(), Seq<char>>, tools: Result<(), Seq<char>>, mode: Seq<char>) -> Result<(), Seq<char>> {
    match privilege {
        Err(msg) => Err(msg),
        Ok(()) => match tools {
            Err(msg) => Err(msg),
            Ok(()) => mode_verdict(mode),
        },
    }
}

/// The verdict before a test run: sudo privilege first, then the tools,
/// then the mode; the first that fails decides.
pub fn check_mode(privilege: Result<(), String>, tools: Result<(), String>, mode: &str) -> (r: Result<(), String>)
    ensures
        verdict_model(r) == run_verdict(verdict_model(privilege), verdict_model(tools), mode@),
{
    privilege?;
    tools?;
    let basic = String::from_str("basic");
    let advanced = String::from_str("advanced");
    let given = String::from_str(mode);
    if given == basic {
        Ok(())
    } else if given == advanced {
        Err(String::from_str("Sorry, the advanced version is still not implemented."))
    } else {
        let mut msg = String::from_str("Unknown mode ");
        msg.append(mode);
        msg.append(", which should be 'basic' or 'advanced'.");
        Err(msg)
    }
}


/// A tool counts as installed exactly when its check command ran and
/// succeeded, whatever it printed.
pub proof fn tools_are_found_by_success_alone(success: bool, stdout: Seq<u8>, stderr: Seq<u8>, reason: Seq<char>)
    ensures
        tool_found(CommandOutcomeModel::Exited { success, stdout, stderr }) == success,
        !tool_found(CommandOutcomeModel::SpawnFailed(reason)),
{
}

/// Sudo privilege is granted exactly when its check command ran and
/// succeeded: what the command wrote plays no part (`sudo -S` writes its
/// password prompt to standard error even when the password is right). A
/// command that ran and failed means a wrong password; one that could not
/// be started is reported with the system's reason.
pub proof fn privilege_rests_on_success_alone(success: bool, stdout: Seq<u8>, stderr: Seq<u8>, reason: Seq<char>)
    ensures
        privilege_verdict(CommandOutcomeModel::Exited { success, stdout, stderr }) is Ok <==> success,
        privilege_verdict(CommandOutcomeModel::Exited { success, stdout, stderr }) == privilege_verdict(
            CommandOutcomeModel::Exited { success, stdout: Seq::empty(), stderr: Seq::empty() },
        ),
        !success ==> privilege_verdict(CommandOutcomeModel::Exited { success, stdout, stderr }) == Err::<(), Seq<char>>(
            "Failed to get sudo privilege. Please check your sudo password"@,
        ),
        privilege_verdict(CommandOutcomeModel::SpawnFailed(reason)) == Err::<(), Seq<char>>(
            "Run the check command error: "@ + reason + "."@,
        ),
{
}
} // verus!
