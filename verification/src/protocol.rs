use vstd::prelude::*;

use crate::bench::{ab_test_command_of, performance_items_of};
use crate::check::{privilege_verdict, run_verdict, tool_found, tools_verdict};
use crate::config::{
    ConfigErrorModel, StoresModel, lookup, lookup_string, lookup_u64, store_server_args,
    web_server_args,
};
use crate::json::JsonModel;
use crate::process::{CommandOutcomeModel, lossy_utf8};
use crate::project::{build_verdict, clean_verdict};
use crate::report::report_text;
use crate::server::{ServerStartModel, kill_verdict, start_verdict};
use crate::text::decimal_text;
use crate::vnic::{add_vnic_verdict, remove_vnic_verdict, vnic_alias_text};

verus! {

/// The mathematical model of a `Command`.
pub enum CommandModel {
    Check,
    Build,
    Clean,
    Run { password: Seq<char>, mode: Seq<char> },
}

/// The mathematical model of a `TesterError`.
pub enum TesterErrorModel {
    Config(ConfigErrorModel),
    Failure(Seq<char>),
}

/// The mathematical model of an `Event`.
pub enum EventModel {
    Start,
    Ran(CommandOutcomeModel),
    Started(ServerStartModel),
    Spawned(Result<(), Seq<char>>),
    BenchesEnded { choose_success: bool, choose_stdout: Seq<u8>, drop_success: bool, drop_stdout: Seq<u8> },
    Killed(Result<(), Seq<char>>),
}

/// The mathematical model of an `Action`.
pub enum ActionModel {
    Run { in_dir: Option<Seq<char>>, command: Seq<char> },
    StartServer { dir: Seq<char>, command: Seq<char>, wait_seconds: u64 },
    SpawnBench { command: Seq<char> },
    RunBenches { password: Seq<char>, first: (Seq<char>, Seq<char>), second: (Seq<char>, Seq<char>) },
    KillServer { index: nat },
    Finish(Result<Seq<Seq<char>>, TesterErrorModel>),
    Abort(Seq<char>),
}

/// Where a session stands: what it waits for.
#[derive(Clone, Copy, Debug, PartialEq, Eq)]
pub enum Stage {
    /// The session has not begun.
    Begin,
    /// Checking the tools.
    CheckingTool,
    /// Checking sudo privilege, after the tools.
    CheckingSudo,
    /// Building the project.
    Building,
    /// Cleaning the project.
    Cleaning,
    /// Checking sudo privilege before a test run.
    CheckingPrivilege,
    /// Checking the tools before a test run.
    CheckingRunTools,
    /// Building the project for a test run.
    TestBuilding,
    /// Starting the web server.
    StartingWeb,
    /// Bringing up a store's virtual network interface.
    AddingVnic { store: usize, index: usize },
    /// Starting a store's server.
    StartingStore { store: usize, index: usize },
    /// Spawning the choose benchmark of a performance item.
    SpawningChoose { item: usize },
    /// Spawning the drop benchmark of a performance item.
    SpawningDrop { item: usize },
    /// Running the benchmarks of a performance item.
    Benchmarking { item: usize },
    /// Stopping the web server.
    KillingWeb,
    /// Stopping a store server (by the order in which they were started).
    KillingStore { index: usize },
    /// Taking down a store's virtual network interface.
    RemovingVnic { store: usize, index: usize },
    /// The session is over.
    Finished,
}

/// The mathematical model of a session.
pub struct SessionModel {
    pub command: CommandModel,
    pub config: JsonModel,
    pub stage: Stage,
    pub dir: Seq<char>,
    pub wait_seconds: u64,
    pub base_url: Seq<char>,
    /// For each store, the command lines of its servers.
    pub store_cmds: Seq<Seq<Seq<char>>>,
    /// For each store, its virtual network interfaces: address, and whether it is up.
    pub vnics: Seq<Seq<(Seq<char>, bool)>>,
    /// The performance test items.
    pub perf: Seq<JsonModel>,
    /// What the choose and drop benchmarks printed, for each item done.
    pub results: Seq<(Seq<char>, Seq<char>)>,
    /// How many store servers were started.
    pub started: nat,
}

impl SessionModel {
    pub open spec fn password(self) -> Seq<char> {
        match self.command {
            CommandModel::Run { password, .. } => password,
            _ => Seq::empty(),
        }
    }

    pub open spec fn mode(self) -> Seq<char> {
        match self.command {
            CommandModel::Run { mode, .. } => mode,
            _ => Seq::empty(),
        }
    }
}

/// Whether the event is the kind of answer the stage waits for.
pub open spec fn awaits(stage: Stage, event: EventModel) -> bool {
    match stage {
        Stage::Begin => event is Start,
        Stage::CheckingTool | Stage::CheckingSudo | Stage::Building | Stage::Cleaning | Stage::CheckingPrivilege
        | Stage::CheckingRunTools | Stage::TestBuilding | Stage::AddingVnic { .. }
        | Stage::RemovingVnic { .. } => event is Ran,
        Stage::StartingWeb | Stage::StartingStore { .. } => event is Started,
        Stage::SpawningChoose { .. } | Stage::SpawningDrop { .. } => event is Spawned,
        Stage::Benchmarking { .. } => event is BenchesEnded,
        Stage::KillingWeb | Stage::KillingStore { .. } => event is Killed,
        Stage::Finished => false,
    }
}

/// The lengths of the rows.
pub open spec fn row_lengths<T>(rows: Seq<Seq<T>>) -> Seq<int> {
    Seq::new(rows.len(), |i: int| rows[i].len() as int)
}

/// The first position at or after `(i, j)`, row by row, that holds an element.
pub open spec fn slot_from(lengths: Seq<int>, i: int, j: int) -> Option<(int, int)>
    decreases lengths.len() - i,
{
    if i < 0 || i >= lengths.len() {
        None
    } else if j < lengths[i] {
        Some((i, j))
    } else {
        slot_from(lengths, i + 1, 0)
    }
}

/// A position found is one that holds an element, at or after where the
/// search began.
pub proof fn lemma_slot_in_range(lengths: Seq<int>, i: int, j: int)
    requires
        0 <= j,
    ensures
        slot_from(lengths, i, j) matches Some((a, b)) ==> {
            &&& 0 <= a < lengths.len()
            &&& 0 <= b < lengths[a]
            &&& (a == i && b >= j) || a > i
        },
    decreases lengths.len() - i,
{
    if 0 <= i < lengths.len() && j >= lengths[i] {
        lemma_slot_in_range(lengths, i + 1, 0);
    }
}

/// The message of a panic on unwrapping nothing.
pub open spec fn unwrap_none_message() -> Seq<char> {
    "called `Option::unwrap()` on a `None` value"@
}

/// The message of a panic on indexing out of bounds.
pub open spec fn out_of_bounds_message(len: nat, index: nat) -> Seq<char> {
    "index out of bounds: the len is "@ + decimal_text(len) + " but the index is "@ + decimal_text(index)
}

/// The session ends, with this result.
pub open spec fn finish(s: SessionModel, r: Result<Seq<Seq<char>>, TesterErrorModel>) -> (SessionModel, ActionModel) {
    (SessionModel { stage: Stage::Finished, ..s }, ActionModel::Finish(r))
}

/// The session ends with a configuration error.
pub open spec fn fail_config(s: SessionModel, e: ConfigErrorModel) -> (SessionModel, ActionModel) {
    finish(s, Err(TesterErrorModel::Config(e)))
}

/// The session ends with a failure.
pub open spec fn fail(s: SessionModel, msg: Seq<char>) -> (SessionModel, ActionModel) {
    finish(s, Err(TesterErrorModel::Failure(msg)))
}

/// The session ends on the outcome of a check: with no lines, or failed.
pub open spec fn conclude(s: SessionModel, verdict: Result<(), Seq<char>>) -> (SessionModel, ActionModel) {
    match verdict {
        Ok(()) => finish(s, Ok(Seq::empty())),
        Err(msg) => fail(s, msg),
    }
}

/// The session stops the program.
pub open spec fn abort(s: SessionModel, msg: Seq<char>) -> (SessionModel, ActionModel) {
    (SessionModel { stage: Stage::Finished, ..s }, ActionModel::Abort(msg))
}

/// Running a shell command of the project in its directory: the directory
/// and the command are read from the configuration first.
pub open spec fn project_command(s: SessionModel, key: Seq<char>, stage: Stage) -> (SessionModel, ActionModel) {
    match lookup_string(s.config, "directory"@) {
        Err(e) => fail_config(s, e),
        Ok(dir) => match lookup_string(s.config, key) {
            Err(e) => fail_config(s, e),
            Ok(command) => (SessionModel { stage, dir, ..s }, ActionModel::Run { in_dir: Some(dir), command }),
        },
    }
}

/// The first step of a session.
pub open spec fn begin(s: SessionModel) -> (SessionModel, ActionModel) {
    match s.command {
        CommandModel::Check => (
            SessionModel { stage: Stage::CheckingTool, ..s },
            ActionModel::Run { in_dir: None, command: "ls ./bin/"@ + "ab-go"@ },
        ),
        CommandModel::Build => project_command(s, "build"@, Stage::Building),
        CommandModel::Clean => project_command(s, "clean"@, Stage::Cleaning),
        CommandModel::Run { password, .. } => (
            SessionModel { stage: Stage::CheckingPrivilege, ..s },
            ActionModel::Run { in_dir: None, command: "echo "@ + password + " | sudo -S ls ."@ },
        ),
    }
}

/// After the build of a test run: read how long to wait for servers and
/// the web server's settings, then start it.
pub open spec fn start_web(s: SessionModel) -> (SessionModel, ActionModel) {
    match lookup_u64(s.config, "wait_seconds"@) {
        Err(e) => fail_config(s, e),
        Ok(wait_seconds) => match web_server_args(s.config) {
            Err(e) => fail_config(s, e),
            Ok((command, base_url)) => (
                SessionModel { stage: Stage::StartingWeb, wait_seconds, base_url, ..s },
                ActionModel::StartServer { dir: s.dir, command, wait_seconds },
            ),
        },
    }
}

/// Bringing up the virtual network interfaces, from position `(i, j)` on;
/// when all are up, the store servers start.
pub open spec fn setup_from(s: SessionModel, i: int, j: int) -> (SessionModel, ActionModel) {
    match slot_from(row_lengths(s.vnics), i, j) {
        Some((a, b)) => (
            SessionModel { stage: Stage::AddingVnic { store: a as usize, index: b as usize }, ..s },
            ActionModel::Run {
                in_dir: None,
                command: "echo "@ + s.password() + " | sudo -S ifconfig "@ + vnic_alias_text(a as nat, b as nat)
                    + " "@ + s.vnics[a][b].0,
            },
        ),
        None => stores_from(s, 0, 0),
    }
}

/// Starting the store servers, from position `(i, j)` on; when all run, the
/// benchmarks begin.
pub open spec fn stores_from(s: SessionModel, i: int, j: int) -> (SessionModel, ActionModel) {
    match slot_from(row_lengths(s.store_cmds), i, j) {
        Some((a, b)) => (
            SessionModel { stage: Stage::StartingStore { store: a as usize, index: b as usize }, ..s },
            ActionModel::StartServer { dir: s.dir, command: s.store_cmds[a][b], wait_seconds: s.wait_seconds },
        ),
        None => begin_perf(s),
    }
}

/// After the web server started: read the stores' settings, then bring up
/// their virtual network interfaces.
pub open spec fn after_web(s: SessionModel) -> (SessionModel, ActionModel) {
    match store_server_args(s.config) {
        StoresModel::Failed(e) => fail_config(s, e),
        StoresModel::Unreadable => abort(s, unwrap_none_message()),
        StoresModel::Parsed(store_cmds, vnics) => setup_from(SessionModel { store_cmds, vnics, ..s }, 0, 0),
    }
}

/// Reading the basic performance items, then running the first.
pub open spec fn begin_perf(s: SessionModel) -> (SessionModel, ActionModel) {
    match lookup(s.config, "items"@) {
        Err(e) => fail_config(s, e),
        Ok(items) => match lookup(items, "basic"@) {
            Err(e) => fail_config(s, e),
            Ok(basic) => match lookup(basic, "performance"@) {
                Err(e) => fail_config(s, e),
                Ok(performance) => match performance_items_of(performance) {
                    Err(e) => fail_config(s, e),
                    Ok(perf) => item_from(SessionModel { perf, ..s }, 0),
                },
            },
        },
    }
}

/// Spawning one of the benchmarks (`choose` or `drop`) of item `k`.
pub open spec fn spawn_bench(s: SessionModel, k: int, key: Seq<char>, stage: Stage) -> (SessionModel, ActionModel) {
    match lookup(s.perf[k], key) {
        Err(e) => fail_config(s, e),
        Ok(bench) => match ab_test_command_of(s.base_url, bench) {
            Err(e) => fail_config(s, e),
            Ok(command) => (SessionModel { stage, ..s }, ActionModel::SpawnBench { command }),
        },
    }
}

/// Running the performance items from item `k` on; when all are done, the
/// servers are stopped, the web server first.
pub open spec fn item_from(s: SessionModel, k: int) -> (SessionModel, ActionModel) {
    if k < s.perf.len() {
        spawn_bench(s, k, "choose"@, Stage::SpawningChoose { item: k as usize })
    } else {
        (SessionModel { stage: Stage::KillingWeb, ..s }, ActionModel::KillServer { index: 0 })
    }
}

/// Running the two benchmarks of item `k` while the fourth interfaces of the
/// first two stores go down and up.
pub open spec fn run_benches(s: SessionModel, k: int) -> (SessionModel, ActionModel) {
    if s.vnics.len() <= 0 {
        abort(s, out_of_bounds_message(s.vnics.len(), 0))
    } else if s.vnics[0].len() <= 3 {
        abort(s, out_of_bounds_message(s.vnics[0].len(), 3))
    } else if s.vnics.len() <= 1 {
        abort(s, out_of_bounds_message(s.vnics.len(), 1))
    } else if s.vnics[1].len() <= 3 {
        abort(s, out_of_bounds_message(s.vnics[1].len(), 3))
    } else {
        (
            SessionModel { stage: Stage::Benchmarking { item: k as usize }, ..s },
            ActionModel::RunBenches {
                password: s.password(),
                first: ("lo:03"@, s.vnics[0][3].0),
                second: ("lo:13"@, s.vnics[1][3].0),
            },
        )
    }
}

/// Stopping the store servers from the `k`-th started on; then the virtual
/// network interfaces are taken down.
pub open spec fn kills_from(s: SessionModel, k: int) -> (SessionModel, ActionModel) {
    if k < s.started {
        (SessionModel { stage: Stage::KillingStore { index: k as usize }, ..s }, ActionModel::KillServer { index: (k + 1) as nat })
    } else {
        removals_from(s, 0, 0)
    }
}

/// Taking down the virtual network interfaces from position `(i, j)` on;
/// when all are down, the session ends with its report.
pub open spec fn removals_from(s: SessionModel, i: int, j: int) -> (SessionModel, ActionModel) {
    match slot_from(row_lengths(s.vnics), i, j) {
        Some((a, b)) => (
            SessionModel { stage: Stage::RemovingVnic { store: a as usize, index: b as usize }, ..s },
            ActionModel::Run {
                in_dir: None,
                command: "echo "@ + s.password() + " | sudo -S ifconfig "@ + vnic_alias_text(a as nat, b as nat)
                    + " down"@,
            },
        ),
        None => finish(s, Ok(report_text(s.results))),
    }
}

/// The interfaces with the one at `(i, j)` marked up or down.
pub open spec fn mark(vnics: Seq<Seq<(Seq<char>, bool)>>, i: int, j: int, up: bool) -> Seq<Seq<(Seq<char>, bool)>> {
    vnics.update(i, vnics[i].update(j, (vnics[i][j].0, up)))
}

/// The next state of a session, and what to do, given what happened.
pub open spec fn next(s: SessionModel, e: EventModel) -> (SessionModel, ActionModel) {
    match (s.stage, e) {
        (Stage::Begin, _) => begin(s),
        (Stage::CheckingTool, EventModel::Ran(o)) => match tools_verdict(tool_found(o)) {
            Err(msg) => fail(s, msg),
            Ok(()) => (
                SessionModel { stage: Stage::CheckingSudo, ..s },
                ActionModel::Run { in_dir: None, command: "sudo -n true"@ },
            ),
        },
        (Stage::CheckingSudo, EventModel::Ran(o)) => conclude(s, privilege_verdict(o)),
        (Stage::Building, EventModel::Ran(o)) => conclude(s, build_verdict(o)),
        (Stage::Cleaning, EventModel::Ran(o)) => conclude(s, clean_verdict(o)),
        (Stage::CheckingPrivilege, EventModel::Ran(o)) => match privilege_verdict(o) {
            Err(msg) => fail(s, msg),
            Ok(()) => (
                SessionModel { stage: Stage::CheckingRunTools, ..s },
                ActionModel::Run { in_dir: None, command: "ls ./bin/"@ + "ab-go"@ },
            ),
        },
        (Stage::CheckingRunTools, EventModel::Ran(o)) => match run_verdict(Ok(()), tools_verdict(tool_found(o)), s.mode()) {
            Err(msg) => fail(s, msg),
            Ok(()) => project_command(s, "build"@, Stage::TestBuilding),
        },
        (Stage::TestBuilding, EventModel::Ran(o)) => match build_verdict(o) {
            Err(msg) => fail(s, msg),
            Ok(()) => start_web(s),
        },
        (Stage::StartingWeb, EventModel::Started(st)) => match start_verdict(st) {
            Err(msg) => fail(s, msg),
            Ok(()) => after_web(s),
        },
        (Stage::AddingVnic { store, index }, EventModel::Ran(o)) => match add_vnic_verdict(
            vnic_alias_text(store as nat, index as nat),
            s.vnics[store as int][index as int].0,
            o,
        ) {
            Err(msg) => fail(s, msg),
            Ok(()) => setup_from(
                SessionModel { vnics: mark(s.vnics, store as int, index as int, true), ..s },
                store as int,
                index + 1,
            ),
        },
        (Stage::StartingStore { store, index }, EventModel::Started(st)) => match start_verdict(st) {
            Err(msg) => fail(s, msg),
            Ok(()) => if s.started + 1 > usize::MAX {
                abort(s, "capacity overflow"@)
            } else {
                stores_from(SessionModel { started: s.started + 1, ..s }, store as int, index + 1)
            },
        },
        (Stage::SpawningChoose { item }, EventModel::Spawned(r)) => match r {
            Err(reason) => fail(s, "Can't run your server: "@ + reason + "."@),
            Ok(()) => spawn_bench(s, item as int, "drop"@, Stage::SpawningDrop { item }),
        },
        (Stage::SpawningDrop { item }, EventModel::Spawned(r)) => match r {
            Err(reason) => fail(s, "Can't run your server: "@ + reason + "."@),
            Ok(()) => run_benches(s, item as int),
        },
        (
            Stage::Benchmarking { item },
            EventModel::BenchesEnded { choose_success, choose_stdout, drop_success, drop_stdout },
        ) => item_from(
            SessionModel {
                results: s.results.push(
                    (
                        if choose_success { lossy_utf8(choose_stdout) } else { Seq::empty() },
                        if drop_success { lossy_utf8(drop_stdout) } else { Seq::empty() },
                    ),
                ),
                ..s
            },
            item + 1,
        ),
        (Stage::KillingWeb, EventModel::Killed(r)) => match kill_verdict(Some(r)) {
            Err(msg) => fail(s, msg),
            Ok(()) => kills_from(s, 0),
        },
        (Stage::KillingStore { index }, EventModel::Killed(r)) => match kill_verdict(Some(r)) {
            Err(msg) => fail(s, msg),
            Ok(()) => kills_from(s, index + 1),
        },
        (Stage::RemovingVnic { store, index }, EventModel::Ran(o)) => match remove_vnic_verdict(
            vnic_alias_text(store as nat, index as nat),
            o,
        ) {
            Err(msg) => fail(s, msg),
            Ok(()) => removals_from(
                SessionModel { vnics: mark(s.vnics, store as int, index as int, false), ..s },
                store as int,
                index + 1,
            ),
        },
        _ => (s, ActionModel::Abort(Seq::empty())),
    }
}


/// The session's tables are no larger than memory can index.
pub open spec fn fits(s: SessionModel) -> bool {
    &&& s.vnics.len() <= usize::MAX
    &&& forall|i: int| 0 <= i < s.vnics.len() ==> #[trigger] s.vnics[i].len() <= usize::MAX
    &&& s.store_cmds.len() <= usize::MAX
    &&& forall|i: int| 0 <= i < s.store_cmds.len() ==> #[trigger] s.store_cmds[i].len() <= usize::MAX
    &&& s.perf.len() <= usize::MAX
}

/// Every position the stage names is one the session holds.
pub open spec fn positions_valid(s: SessionModel) -> bool {
    match s.stage {
        Stage::AddingVnic { store, index } | Stage::RemovingVnic { store, index } => store < s.vnics.len()
            && index < s.vnics[store as int].len(),
        Stage::StartingStore { store, index } => store < s.store_cmds.len() && index < s.store_cmds[store as int].len(),
        Stage::SpawningChoose { item } | Stage::SpawningDrop { item } | Stage::Benchmarking { item } => item
            < s.perf.len(),
        Stage::KillingStore { index } => index < s.started,
        _ => true,
    }
}

/// A session that has not begun.
pub open spec fn initial(command: CommandModel, config: JsonModel) -> SessionModel {
    SessionModel {
        command,
        config,
        stage: Stage::Begin,
        dir: Seq::empty(),
        wait_seconds: 0,
        base_url: Seq::empty(),
        store_cmds: Seq::empty(),
        vnics: Seq::empty(),
        perf: Seq::empty(),
        results: Seq::empty(),
        started: 0,
    }
}

} // verus!
