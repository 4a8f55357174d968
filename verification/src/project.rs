use vstd::prelude::*;

use crate::check::verdict_model;
use crate::process::{lossy_text, lossy_utf8, CommandOutcome, CommandOutcomeModel};

verus! {

/// The verdict on a build, given how the project's build command ended.
pub open spec fn build_verdict(outcome: CommandOutcomeModel) -> Result<(), Seq<char>> {
    match outcome {
        CommandOutcomeModel::SpawnFailed(reason) => Err("Run system build command error: "@ + reason + "."@),
        CommandOutcomeModel::Exited { success, stderr, .. } => if success {
            Ok(())
        } else {
            Err("Building system error:\n"@ + lossy_utf8(stderr))
        },
    }
}

/// The verdict on a build, from how the project's build command ended.
pub fn build_system(outcome: &CommandOutcome) -> (r: Result<(), String>)
    ensures
        verdict_model(r) == build_verdict(outcome.model()),
{
    match outcome {
        CommandOutcome::SpawnFailed(reason) => {
            let mut msg = String::from_str("Run system build command error: ");
            msg.append(reason.as_str());
            msg.append(".");
            Err(msg)
        },
        CommandOutcome::Exited { success, stderr, .. } => if *success {
            Ok(())
        } else {
            let text = lossy_text(stderr);
            let mut msg = String::from_str("Building system error:\n");
            msg.append(text.as_str());
            Err(msg)
        },
    }
}

/// The verdict on a clean, given how the project's clean command ended.
pub open spec fn clean_verdict(outcome: CommandOutcomeModel) -> Result<(), Seq<char>> {
    match outcome {
        CommandOutcomeModel::SpawnFailed(reason) => Err("Run system clean command error: "@ + reason + "."@),
        CommandOutcomeModel::Exited { success, stderr, .. } => if success {
            Ok(())
        } else {
            Err("Cleaning system error:\n"@ + lossy_utf8(stderr))
        },
    }
}

/// The verdict on a clean, from how the project's clean command ended.
pub fn clean(outcome: &CommandOutcome) -> (r: Result<(), String>)
    ensures
        verdict_model(r) == clean_verdict(outcome.model()),
{
    match outcome {
        CommandOutcome::SpawnFailed(reason) => {
            let mut msg = String::from_str("Run system clean command error: ");
            msg.append(reason.as_str());
            msg.append(".");
            Err(msg)
        },
        CommandOutcome::Exited { success, stderr, .. } => if *success {
            Ok(())
        } else {
            let text = lossy_text(stderr);
            let mut msg = String::from_str("Cleaning system error:\n");
            msg.append(text.as_str());
            Err(msg)
        },
    }
}


/// A build succeeds exactly when the build command ran and succeeded,
/// whatever it wrote (warnings on standard error included); a build command
/// that failed is reported with what it wrote to standard error, and its
/// standard output plays no part.
pub proof fn builds_rest_on_success_alone(success: bool, stdout: Seq<u8>, stderr: Seq<u8>, reason: Seq<char>)
    ensures
        build_verdict(CommandOutcomeModel::Exited { success, stdout, stderr }) is Ok <==> success,
        build_verdict(CommandOutcomeModel::Exited { success, stdout, stderr }) == build_verdict(
            CommandOutcomeModel::Exited { success, stdout: Seq::empty(), stderr },
        ),
        !success ==> build_verdict(CommandOutcomeModel::Exited { success, stdout, stderr }) == Err::<(), Seq<char>>(
            "Building system error:\n"@ + lossy_utf8(stderr),
        ),
        build_verdict(CommandOutcomeModel::SpawnFailed(reason)) == Err::<(), Seq<char>>(
            "Run system build command error: "@ + reason + "."@,
        ),
{
}

/// A clean succeeds exactly when the clean command ran and succeeded,
/// whatever it wrote; a clean command that failed is reported with what it
/// wrote to standard error, and its standard output plays no part.
pub proof fn cleans_rest_on_success_alone(success: bool, stdout: Seq<u8>, stderr: Seq<u8>, reason: Seq<char>)
    ensures
        clean_verdict(CommandOutcomeModel::Exited { success, stdout, stderr }) is Ok <==> success,
        clean_verdict(CommandOutcomeModel::Exited { success, stdout, stderr }) == clean_verdict(
            CommandOutcomeModel::Exited { success, stdout: Seq::empty(), stderr },
        ),
        !success ==> clean_verdict(CommandOutcomeModel::Exited { success, stdout, stderr }) == Err::<(), Seq<char>>(
            "Cleaning system error:\n"@ + lossy_utf8(stderr),
        ),
        clean_verdict(CommandOutcomeModel::SpawnFailed(reason)) == Err::<(), Seq<char>>(
            "Run system clean command error: "@ + reason + "."@,
        ),
{
}
} // verus!
