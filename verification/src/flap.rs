use vstd::prelude::*;

use crate::process::{CommandOutcome, CommandOutcomeModel};
use crate::vnic::{
    add_virtual_nic, add_vnic_command, add_vnic_verdict, remove_virtual_nic, remove_vnic_command,
    remove_vnic_verdict,
};

verus! {

/// Where a round of taking two virtual network interfaces down and up
/// again stands: the step whose answer is awaited.
#[derive(Clone, Copy, Debug, PartialEq, Eq)]
pub enum FlapStage {
    /// Taking the first interface down.
    DownFirst,
    /// Taking the second interface down.
    DownSecond,
    /// Waiting with both interfaces down.
    PauseDown,
    /// Bringing the first interface up.
    UpFirst,
    /// Bringing the second interface up.
    UpSecond,
    /// Waiting with both interfaces up, then looking whether to stop.
    PauseUp,
}

/// What happened in answer to the last action.
#[derive(Debug, PartialEq)]
pub enum FlapEvent {
    /// The shell command ended.
    Ran(CommandOutcome),
    /// The wait is over.
    Slept,
    /// Whether the benchmarks asked to stop (or can no longer ask).
    StopChecked { stop: bool },
}

/// The mathematical model of a [`FlapEvent`].
pub enum FlapEventModel {
    Ran(CommandOutcomeModel),
    Slept,
    StopChecked { stop: bool },
}

impl FlapEvent {
    pub open spec fn model(&self) -> FlapEventModel {
        match self {
            FlapEvent::Ran(o) => FlapEventModel::Ran(o.model()),
            FlapEvent::Slept => FlapEventModel::Slept,
            FlapEvent::StopChecked { stop } => FlapEventModel::StopChecked { stop: *stop },
        }
    }
}

/// What to do next.
#[derive(Debug, PartialEq)]
pub enum FlapAction {
    /// Run the shell command to its end; answer `Ran`.
    Run { command: String },
    /// Wait this many milliseconds; answer `Slept`.
    Sleep { millis: u64 },
    /// Look whether the benchmarks asked to stop; answer `StopChecked`.
    CheckStop,
    /// The flapping is over.
    Stop,
    /// A command could not be started: fail as unwrapping this error does.
    Abort(String),
}

/// The mathematical model of a [`FlapAction`].
pub enum FlapActionModel {
    Run { command: Seq<char> },
    Sleep { millis: u64 },
    CheckStop,
    Stop,
    Abort(Seq<char>),
}

impl FlapAction {
    pub open spec fn model(&self) -> FlapActionModel {
        match self {
            FlapAction::Run { command } => FlapActionModel::Run { command: command@ },
            FlapAction::Sleep { millis } => FlapActionModel::Sleep { millis: *millis },
            FlapAction::CheckStop => FlapActionModel::CheckStop,
            FlapAction::Stop => FlapActionModel::Stop,
            FlapAction::Abort(msg) => FlapActionModel::Abort(msg@),
        }
    }
}

/// How long each pause lasts, in milliseconds.
pub open spec fn pause_millis() -> u64 {
    200
}

/// The command that takes an interface down.
pub open spec fn down_command(password: Seq<char>, alias: Seq<char>) -> Seq<char> {
    "echo "@ + password + " | sudo -S ifconfig "@ + alias + " down"@
}

/// The command that brings an interface up with its address.
pub open spec fn up_command(password: Seq<char>, vnic: (Seq<char>, Seq<char>)) -> Seq<char> {
    "echo "@ + password + " | sudo -S ifconfig "@ + vnic.0 + " "@ + vnic.1
}

/// Whether the event is the kind of answer the stage waits for.
pub open spec fn flap_awaits(stage: FlapStage, event: FlapEventModel) -> bool {
    match stage {
        FlapStage::DownFirst | FlapStage::DownSecond | FlapStage::UpFirst | FlapStage::UpSecond => event is Ran,
        FlapStage::PauseDown => event is Slept,
        FlapStage::PauseUp => event is Slept || event is StopChecked,
    }
}

/// The next stage and action of the flapping of two interfaces, each given
/// as (alias, address): take the first down, then the second, wait, bring
/// the first up, then the second, wait, and look whether to stop; if not,
/// start over. A round begins as after a look that found no stop. Taking an
/// interface down fails only when its command cannot be started; bringing
/// one up fails whenever its command does; a failure stops everything.
pub open spec fn flap_next(
    stage: FlapStage,
    password: Seq<char>,
    first: (Seq<char>, Seq<char>),
    second: (Seq<char>, Seq<char>),
    event: FlapEventModel,
) -> (FlapStage, FlapActionModel) {
    match (stage, event) {
        (FlapStage::DownFirst, FlapEventModel::Ran(o)) => match remove_vnic_verdict(first.0, o) {
            Err(msg) => (stage, FlapActionModel::Abort(msg)),
            Ok(()) => (FlapStage::DownSecond, FlapActionModel::Run { command: down_command(password, second.0) }),
        },
        (FlapStage::DownSecond, FlapEventModel::Ran(o)) => match remove_vnic_verdict(second.0, o) {
            Err(msg) => (stage, FlapActionModel::Abort(msg)),
            Ok(()) => (FlapStage::PauseDown, FlapActionModel::Sleep { millis: pause_millis() }),
        },
        (FlapStage::PauseDown, _) => (FlapStage::UpFirst, FlapActionModel::Run { command: up_command(password, first) }),
        (FlapStage::UpFirst, FlapEventModel::Ran(o)) => match add_vnic_verdict(first.0, first.1, o) {
            Err(msg) => (stage, FlapActionModel::Abort(msg)),
            Ok(()) => (FlapStage::UpSecond, FlapActionModel::Run { command: up_command(password, second) }),
        },
        (FlapStage::UpSecond, FlapEventModel::Ran(o)) => match add_vnic_verdict(second.0, second.1, o) {
            Err(msg) => (stage, FlapActionModel::Abort(msg)),
            Ok(()) => (FlapStage::PauseUp, FlapActionModel::Sleep { millis: pause_millis() }),
        },
        (FlapStage::PauseUp, FlapEventModel::Slept) => (FlapStage::PauseUp, FlapActionModel::CheckStop),
        (FlapStage::PauseUp, FlapEventModel::StopChecked { stop }) => if stop {
            (FlapStage::PauseUp, FlapActionModel::Stop)
        } else {
            (FlapStage::DownFirst, FlapActionModel::Run { command: down_command(password, first.0) })
        },
        _ => (stage, FlapActionModel::Stop),
    }
}

/// Whether the stage waits for this kind of event.
pub fn flap_awaits_event(stage: FlapStage, event: &FlapEvent) -> (b: bool)
    ensures
        b == flap_awaits(stage, event.model()),
{
    match stage {
        FlapStage::DownFirst | FlapStage::DownSecond | FlapStage::UpFirst | FlapStage::UpSecond => matches!(
            event,
            FlapEvent::Ran(..)
        ),
        FlapStage::PauseDown => matches!(event, FlapEvent::Slept),
        FlapStage::PauseUp => matches!(event, FlapEvent::Slept) || matches!(event, FlapEvent::StopChecked { .. }),
    }
}

/// Takes the flapping of two interfaces, each (alias, address), one step:
/// given what happened in answer to the last action, gives the next stage
/// and what to do.
pub fn flap_step(
    stage: FlapStage,
    password: &str,
    first: &(String, String),
    second: &(String, String),
    event: FlapEvent,
) -> (r: (FlapStage, FlapAction))
    requires
        flap_awaits(stage, event.model()),
    ensures
        (r.0, r.1.model()) == flap_next(stage, password@, (first.0@, first.1@), (second.0@, second.1@), event.model()),
{
    match (stage, event) {
        (FlapStage::DownFirst, FlapEvent::Ran(o)) => match remove_virtual_nic(first.0.as_str(), &o) {
            Err(msg) => (stage, FlapAction::Abort(msg)),
            Ok(()) => (
                FlapStage::DownSecond,
                FlapAction::Run { command: remove_vnic_command(password, second.0.as_str()) },
            ),
        },
        (FlapStage::DownSecond, FlapEvent::Ran(o)) => match remove_virtual_nic(second.0.as_str(), &o) {
            Err(msg) => (stage, FlapAction::Abort(msg)),
            Ok(()) => (FlapStage::PauseDown, FlapAction::Sleep { millis: 200 }),
        },
        (FlapStage::PauseDown, _) => (
            FlapStage::UpFirst,
            FlapAction::Run { command: add_vnic_command(password, first.0.as_str(), first.1.as_str()) },
        ),
        (FlapStage::UpFirst, FlapEvent::Ran(o)) => match add_virtual_nic(first.0.as_str(), first.1.as_str(), &o) {
            Err(msg) => (stage, FlapAction::Abort(msg)),
            Ok(()) => (
                FlapStage::UpSecond,
                FlapAction::Run { command: add_vnic_command(password, second.0.as_str(), second.1.as_str()) },
            ),
        },
        (FlapStage::UpSecond, FlapEvent::Ran(o)) => match add_virtual_nic(second.0.as_str(), second.1.as_str(), &o) {
            Err(msg) => (stage, FlapAction::Abort(msg)),
            Ok(()) => (FlapStage::PauseUp, FlapAction::Sleep { millis: 200 }),
        },
        (FlapStage::PauseUp, FlapEvent::Slept) => (FlapStage::PauseUp, FlapAction::CheckStop),
        (FlapStage::PauseUp, FlapEvent::StopChecked { stop }) => if stop {
            (FlapStage::PauseUp, FlapAction::Stop)
        } else {
            (FlapStage::DownFirst, FlapAction::Run { command: remove_vnic_command(password, first.0.as_str()) })
        },
        _ => {
            // The stage waits for another kind of event.
            proof { assert(false); }
            (stage, FlapAction::Stop)
        },
    }
}

/// One round of flapping in which every command succeeds: the first and
/// then the second interface go down, a pause of 200 ms, the first and then
/// the second come up again, another pause, and a look whether to stop;
/// when no stop is asked, the next round begins the same way.
pub proof fn flap_round(
    password: Seq<char>,
    first: (Seq<char>, Seq<char>),
    second: (Seq<char>, Seq<char>),
    done: CommandOutcomeModel,
)
    requires
        done matches CommandOutcomeModel::Exited { success, .. } && success,
    ensures
        ({
            let go = FlapEventModel::StopChecked { stop: false };
            let ran = FlapEventModel::Ran(done);
            let s0 = flap_next(FlapStage::PauseUp, password, first, second, go);
            let s1 = flap_next(s0.0, password, first, second, ran);
            let s2 = flap_next(s1.0, password, first, second, ran);
            let s3 = flap_next(s2.0, password, first, second, FlapEventModel::Slept);
            let s4 = flap_next(s3.0, password, first, second, ran);
            let s5 = flap_next(s4.0, password, first, second, ran);
            let s6 = flap_next(s5.0, password, first, second, FlapEventModel::Slept);
            &&& s0 == (FlapStage::DownFirst, FlapActionModel::Run { command: down_command(password, first.0) })
            &&& s1 == (FlapStage::DownSecond, FlapActionModel::Run { command: down_command(password, second.0) })
            &&& s2 == (FlapStage::PauseDown, FlapActionModel::Sleep { millis: 200 })
            &&& s3 == (FlapStage::UpFirst, FlapActionModel::Run { command: up_command(password, first) })
            &&& s4 == (FlapStage::UpSecond, FlapActionModel::Run { command: up_command(password, second) })
            &&& s5 == (FlapStage::PauseUp, FlapActionModel::Sleep { millis: 200 })
            &&& s6 == (FlapStage::PauseUp, FlapActionModel::CheckStop)
            &&& flap_next(s6.0, password, first, second, go) == s0
        }),
{
}

/// The flapping ends exactly when a look finds a stop asked for, and fails
/// only on an interface command that could not be started or, bringing an
/// interface up, did not succeed.
pub proof fn flap_stops_only_when_asked(
    stage: FlapStage,
    password: Seq<char>,
    first: (Seq<char>, Seq<char>),
    second: (Seq<char>, Seq<char>),
    event: FlapEventModel,
)
    requires
        flap_awaits(stage, event),
    ensures
        flap_next(stage, password, first, second, event).1 is Stop <==> event == (FlapEventModel::StopChecked {
            stop: true,
        }),
        flap_next(stage, password, first, second, event).1 is Abort ==> (event matches FlapEventModel::Ran(o)
            && (o is SpawnFailed || stage is UpFirst || stage is UpSecond)),
{
}

} // verus!
