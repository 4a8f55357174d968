use vstd::prelude::*;

verus! {

/// How a shell command that was run to completion ended.
#[derive(Debug, PartialEq)]
pub enum CommandOutcome {
    /// The command could not be started; holds the system's reason.
    SpawnFailed(String),
    /// The command ran and exited, with whether it succeeded and what it
    /// wrote to its standard output and standard error.
    Exited { success: bool, stdout: Vec<u8>, stderr: Vec<u8> },
}

/// The mathematical model of a [`CommandOutcome`].
pub enum CommandOutcomeModel {
    SpawnFailed(Seq<char>),
    Exited { success: bool, stdout: Seq<u8>, stderr: Seq<u8> },
}

impl CommandOutcome {
    pub open spec fn model(&self) -> CommandOutcomeModel {
        match self {
            CommandOutcome::SpawnFailed(reason) => CommandOutcomeModel::SpawnFailed(reason@),
            CommandOutcome::Exited { success, stdout, stderr } => CommandOutcomeModel::Exited {
                success: *success,
                stdout: stdout@,
                stderr: stderr@,
            },
        }
    }
}

/// The text that `String::from_utf8_lossy` makes of a sequence of bytes.
pub uninterp spec fn lossy_utf8(bytes: Seq<u8>) -> Seq<char>;

/// Calls `String::from_utf8_lossy`. Trusted: the result is a function of the
/// bytes alone, and, as std documents, bytes that are valid UTF-8 are decoded
/// as they are. What invalid sequences become (U+FFFD) is left unsaid.
#[verifier::external_body]
pub(crate) fn lossy_text(bytes: &Vec<u8>) -> (text: String)
    ensures
        text@ == lossy_utf8(bytes@),
        vstd::utf8::valid_utf8(bytes@) ==> text@ == vstd::utf8::decode_utf8(bytes@),
{
    String::from_utf8_lossy(bytes.as_slice()).into_owned()
}

} // verus!
