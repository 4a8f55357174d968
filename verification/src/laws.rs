use vstd::prelude::*;

use crate::bench::performance_items_of;
use crate::check::{privilege_verdict, run_verdict, tool_found, tools_verdict};
use crate::config::{lookup, lookup_string, parsed_interfaces_start_down, store_server_args, StoresModel};
use crate::json::JsonModel;
use crate::process::{lossy_utf8, CommandOutcomeModel};
use crate::project::{build_verdict, clean_verdict};
use crate::protocol::{
    after_web, awaits, begin_perf, fits, initial, item_from, kills_from, lemma_slot_in_range, mark,
    next, positions_valid, project_command, removals_from, row_lengths, run_benches, setup_from,
    slot_from, spawn_bench, stores_from, ActionModel, CommandModel, EventModel, SessionModel, Stage,
    TesterErrorModel,
};
use crate::report::report_text;
use crate::server::{kill_verdict, start_verdict, ServerStartModel};
use crate::vnic::{add_vnic_verdict, remove_vnic_verdict, vnic_alias_text};

verus! {

/// Position `(a, b)` comes before position `(i, j)`, row by row.
pub open spec fn precedes(a: int, b: int, i: int, j: int) -> bool {
    a < i || (a == i && b < j)
}

/// Exactly the interfaces before position `(i, j)` are up.
pub open spec fn up_before(vnics: Seq<Seq<(Seq<char>, bool)>>, i: int, j: int) -> bool {
    forall|a: int, b: int|
        0 <= a < vnics.len() && 0 <= b < vnics[a].len() ==> (#[trigger] vnics[a][b]).1 == precedes(a, b, i, j)
}

/// Exactly the interfaces before position `(i, j)` are down.
pub open spec fn down_before(vnics: Seq<Seq<(Seq<char>, bool)>>, i: int, j: int) -> bool {
    forall|a: int, b: int|
        0 <= a < vnics.len() && 0 <= b < vnics[a].len() ==> (#[trigger] vnics[a][b]).1 == !precedes(a, b, i, j)
}

/// Every interface is up (when `up`), or every one is down.
pub open spec fn all_interfaces(vnics: Seq<Seq<(Seq<char>, bool)>>, up: bool) -> bool {
    forall|a: int, b: int| 0 <= a < vnics.len() && 0 <= b < vnics[a].len() ==> (#[trigger] vnics[a][b]).1 == up
}

/// What holds of a session at each stage: the stage belongs to the command;
/// interfaces are brought up in order before any store server starts, stay
/// up while the benchmarks run and the servers stop, and are taken down in
/// order; and one result is kept for each performance item done.
pub open spec fn consistent(s: SessionModel) -> bool {
    &&& positions_valid(s)
    &&& match s.stage {
        Stage::Begin => s.vnics.len() == 0 && s.results.len() == 0,
        Stage::CheckingTool | Stage::CheckingSudo => s.command is Check,
        Stage::Building => s.command is Build,
        Stage::Cleaning => s.command is Clean,
        Stage::CheckingPrivilege | Stage::CheckingRunTools | Stage::TestBuilding | Stage::StartingWeb => {
            &&& s.command is Run
            &&& s.results.len() == 0
        },
        Stage::AddingVnic { store, index } => {
            &&& s.command is Run
            &&& up_before(s.vnics, store as int, index as int)
            &&& s.results.len() == 0
        },
        Stage::StartingStore { .. } => {
            &&& s.command is Run
            &&& all_interfaces(s.vnics, true)
            &&& s.results.len() == 0
        },
        Stage::SpawningChoose { item } | Stage::SpawningDrop { item } | Stage::Benchmarking { item } => {
            &&& s.command is Run
            &&& all_interfaces(s.vnics, true)
            &&& s.results.len() == item
        },
        Stage::KillingWeb | Stage::KillingStore { .. } => {
            &&& s.command is Run
            &&& all_interfaces(s.vnics, true)
            &&& s.results.len() == s.perf.len()
        },
        Stage::RemovingVnic { store, index } => {
            &&& s.command is Run
            &&& down_before(s.vnics, store as int, index as int)
            &&& s.results.len() == s.perf.len()
        },
        Stage::Finished => true,
    }
}

/// A test run that ends with its report has every interface down and one
/// result for each performance item.
pub open spec fn good_end(r: (SessionModel, ActionModel)) -> bool {
    (r.1 matches ActionModel::Finish(Ok(_)) && r.0.command is Run) ==> {
        &&& all_interfaces(r.0.vnics, false)
        &&& r.0.results.len() == r.0.perf.len()
    }
}

/// Searching from `(i, j)` skips only empty positions: the positions before
/// the one found are those before `(i, j)`; when none is found, every
/// position is before `(i, j)`.
pub proof fn lemma_slot_skips(lengths: Seq<int>, i: int, j: int)
    requires
        0 <= i,
        0 <= j,
    ensures
        match slot_from(lengths, i, j) {
            Some((a0, b0)) => forall|a: int, b: int|
                #![trigger precedes(a, b, a0, b0)]
                0 <= a < lengths.len() && 0 <= b < lengths[a] ==> precedes(a, b, i, j) == precedes(a, b, a0, b0),
            None => forall|a: int, b: int|
                #![trigger precedes(a, b, i, j)]
                0 <= a < lengths.len() && 0 <= b < lengths[a] ==> precedes(a, b, i, j),
        },
    decreases lengths.len() - i,
{
    if i < lengths.len() && j >= lengths[i] {
        lemma_slot_skips(lengths, i + 1, 0);
        match slot_from(lengths, i + 1, 0) {
            Some((a0, b0)) => {
                assert forall|a: int, b: int|
                    #![trigger precedes(a, b, a0, b0)]
                    0 <= a < lengths.len() && 0 <= b < lengths[a] implies precedes(a, b, i, j) == precedes(
                    a,
                    b,
                    a0,
                    b0,
                ) by {
                    assert(precedes(a, b, i + 1, 0) == precedes(a, b, a0, b0));
                }
            },
            None => {
                assert forall|a: int, b: int|
                    #![trigger precedes(a, b, i, j)]
                    0 <= a < lengths.len() && 0 <= b < lengths[a] implies precedes(a, b, i, j) by {
                    assert(precedes(a, b, i + 1, 0));
                }
            },
        }
    }
}

proof fn lemma_item_inv(s: SessionModel, k: int)
    requires
        0 <= k <= s.perf.len(),
        s.command is Run,
        all_interfaces(s.vnics, true),
        s.results.len() == k,
        fits(item_from(s, k).0),
    ensures
        consistent(item_from(s, k).0),
        good_end(item_from(s, k)),
{
}

proof fn lemma_removals_inv(s: SessionModel, i: int, j: int)
    requires
        0 <= i,
        0 <= j,
        s.command is Run,
        down_before(s.vnics, i, j),
        s.results.len() == s.perf.len(),
        fits(removals_from(s, i, j).0),
    ensures
        consistent(removals_from(s, i, j).0),
        good_end(removals_from(s, i, j)),
{
    let lengths = row_lengths(s.vnics);
    lemma_slot_in_range(lengths, i, j);
    lemma_slot_skips(lengths, i, j);
    match slot_from(lengths, i, j) {
        Some((a0, b0)) => {
            assert forall|a: int, b: int| 0 <= a < s.vnics.len() && 0 <= b < s.vnics[a].len() implies (#[trigger] s.vnics[a][b]).1
                == !precedes(a, b, a0, b0) by {
                assert(lengths[a] == s.vnics[a].len());
                assert(precedes(a, b, i, j) == precedes(a, b, a0, b0));
            }
        },
        None => {
            assert forall|a: int, b: int| 0 <= a < s.vnics.len() && 0 <= b < s.vnics[a].len() implies (#[trigger] s.vnics[a][b]).1
                == false by {
                assert(lengths[a] == s.vnics[a].len());
                assert(precedes(a, b, i, j));
            }
        },
    }
}

proof fn lemma_kills_inv(s: SessionModel, k: int)
    requires
        0 <= k,
        s.command is Run,
        all_interfaces(s.vnics, true),
        s.results.len() == s.perf.len(),
        fits(kills_from(s, k).0),
    ensures
        consistent(kills_from(s, k).0),
        good_end(kills_from(s, k)),
{
    if k >= s.started {
        lemma_removals_inv(s, 0, 0);
    }
}

proof fn lemma_begin_perf_inv(s: SessionModel)
    requires
        s.command is Run,
        all_interfaces(s.vnics, true),
        s.results.len() == 0,
        fits(begin_perf(s).0),
    ensures
        consistent(begin_perf(s).0),
        good_end(begin_perf(s)),
{
    if let Ok(items) = lookup(s.config, "items"@) {
        if let Ok(basic) = lookup(items, "basic"@) {
            if let Ok(performance) = lookup(basic, "performance"@) {
                if let Ok(perf) = performance_items_of(performance) {
                    lemma_item_inv(SessionModel { perf, ..s }, 0);
                }
            }
        }
    }
}

proof fn lemma_stores_inv(s: SessionModel, i: int, j: int)
    requires
        0 <= j,
        s.command is Run,
        all_interfaces(s.vnics, true),
        s.results.len() == 0,
        fits(stores_from(s, i, j).0),
    ensures
        consistent(stores_from(s, i, j).0),
        good_end(stores_from(s, i, j)),
{
    lemma_slot_in_range(row_lengths(s.store_cmds), i, j);
    if slot_from(row_lengths(s.store_cmds), i, j) is None {
        lemma_begin_perf_inv(s);
    }
}

proof fn lemma_setup_inv(s: SessionModel, i: int, j: int)
    requires
        0 <= i,
        0 <= j,
        s.command is Run,
        up_before(s.vnics, i, j),
        s.results.len() == 0,
        fits(setup_from(s, i, j).0),
    ensures
        consistent(setup_from(s, i, j).0),
        good_end(setup_from(s, i, j)),
{
    let lengths = row_lengths(s.vnics);
    lemma_slot_in_range(lengths, i, j);
    lemma_slot_skips(lengths, i, j);
    match slot_from(lengths, i, j) {
        Some((a0, b0)) => {
            assert forall|a: int, b: int| 0 <= a < s.vnics.len() && 0 <= b < s.vnics[a].len() implies (#[trigger] s.vnics[a][b]).1
                == precedes(a, b, a0, b0) by {
                assert(lengths[a] == s.vnics[a].len());
                assert(precedes(a, b, i, j) == precedes(a, b, a0, b0));
            }
        },
        None => {
            assert forall|a: int, b: int| 0 <= a < s.vnics.len() && 0 <= b < s.vnics[a].len() implies (#[trigger] s.vnics[a][b]).1
                == true by {
                assert(lengths[a] == s.vnics[a].len());
                assert(precedes(a, b, i, j));
            }
            lemma_stores_inv(s, 0, 0);
        },
    }
}

proof fn lemma_after_web_inv(s: SessionModel)
    requires
        s.command is Run,
        s.results.len() == 0,
        fits(after_web(s).0),
    ensures
        consistent(after_web(s).0),
        good_end(after_web(s)),
{
    if let StoresModel::Parsed(store_cmds, vnics) = store_server_args(s.config) {
        crate::config::parsed_interfaces_start_down(s.config);
        let t = SessionModel { store_cmds, vnics, ..s };
        assert forall|a: int, b: int| 0 <= a < vnics.len() && 0 <= b < vnics[a].len() implies (#[trigger] vnics[a][b]).1
            == precedes(a, b, 0, 0) by {
        }
        lemma_setup_inv(t, 0, 0);
    }
}

/// Marking one interface changes that one alone.
proof fn lemma_mark(vnics: Seq<Seq<(Seq<char>, bool)>>, i: int, j: int, up: bool)
    requires
        0 <= i < vnics.len(),
        0 <= j < vnics[i].len(),
    ensures
        mark(vnics, i, j, up).len() == vnics.len(),
        forall|a: int| 0 <= a < vnics.len() ==> #[trigger] mark(vnics, i, j, up)[a].len() == vnics[a].len(),
        forall|a: int, b: int|
            0 <= a < vnics.len() && 0 <= b < vnics[a].len() ==> (#[trigger] mark(vnics, i, j, up)[a][b]).1 == if a == i
                && b == j {
                up
            } else {
                vnics[a][b].1
            },
{
}

/// Every step keeps a session consistent, and a test run that ends with
/// its report ends with every interface down and one result per item.
pub proof fn steps_keep_sessions_consistent(s: SessionModel, e: EventModel)
    requires
        consistent(s),
        awaits(s.stage, e),
        fits(next(s, e).0),
    ensures
        consistent(next(s, e).0),
        good_end(next(s, e)),
{
    match (s.stage, e) {
        (Stage::StartingWeb, EventModel::Started(st)) => {
            if start_verdict(st) is Ok {
                lemma_after_web_inv(s);
            }
        },
        (Stage::AddingVnic { store, index }, EventModel::Ran(o)) => {
            let (i, j) = (store as int, index as int);
            if add_vnic_verdict(vnic_alias_text(store as nat, index as nat), s.vnics[i][j].0, o) is Ok {
                let t = SessionModel { vnics: mark(s.vnics, i, j, true), ..s };
                lemma_mark(s.vnics, i, j, true);
                assert forall|a: int, b: int| 0 <= a < t.vnics.len() && 0 <= b < t.vnics[a].len() implies (#[trigger] t.vnics[a][b]).1
                    == precedes(a, b, i, j + 1) by {
                    assert(mark(s.vnics, i, j, true)[a][b] == t.vnics[a][b]);
                    if !(a == i && b == j) {
                        assert(s.vnics[a][b].1 == precedes(a, b, i, j));
                    }
                }
                lemma_setup_inv(t, i, j + 1);
            }
        },
        (Stage::StartingStore { store, index }, EventModel::Started(st)) => {
            let t = SessionModel { started: s.started + 1, ..s };
            if start_verdict(st) is Ok && s.started + 1 <= usize::MAX {
                lemma_stores_inv(t, store as int, index + 1);
            }
        },
        (Stage::Benchmarking { item }, EventModel::BenchesEnded { choose_success, choose_stdout, drop_success, drop_stdout }) => {
            let t = SessionModel {
                results: s.results.push(
                    (
                        if choose_success { lossy_utf8(choose_stdout) } else { Seq::empty() },
                        if drop_success { lossy_utf8(drop_stdout) } else { Seq::empty() },
                    ),
                ),
                ..s
            };
            lemma_item_inv(t, item + 1);
        },
        (Stage::KillingWeb, EventModel::Killed(r)) => {
            if kill_verdict(Some(r)) is Ok {
                lemma_kills_inv(s, 0);
            }
        },
        (Stage::KillingStore { index }, EventModel::Killed(r)) => {
            if kill_verdict(Some(r)) is Ok {
                lemma_kills_inv(s, index + 1);
            }
        },
        (Stage::RemovingVnic { store, index }, EventModel::Ran(o)) => {
            let (i, j) = (store as int, index as int);
            if remove_vnic_verdict(vnic_alias_text(store as nat, index as nat), o) is Ok {
                let t = SessionModel { vnics: mark(s.vnics, i, j, false), ..s };
                lemma_mark(s.vnics, i, j, false);
                assert forall|a: int, b: int| 0 <= a < t.vnics.len() && 0 <= b < t.vnics[a].len() implies (#[trigger] t.vnics[a][b]).1
                    == !precedes(a, b, i, j + 1) by {
                    assert(mark(s.vnics, i, j, false)[a][b] == t.vnics[a][b]);
                    if !(a == i && b == j) {
                        assert(s.vnics[a][b].1 == !precedes(a, b, i, j));
                    }
                }
                lemma_removals_inv(t, i, j + 1);
            }
        },
        _ => {},
    }
}

/// A new session is consistent.
pub proof fn new_sessions_are_consistent(command: CommandModel, config: JsonModel)
    ensures
        consistent(initial(command, config)),
{
}

/// A test run that ends with its report has taken down again every virtual
/// network interface it brought up, and reports what the benchmarks of each
/// performance item printed, one result per item.
pub proof fn successful_run_leaves_interfaces_down(s: SessionModel, e: EventModel)
    requires
        consistent(s),
        awaits(s.stage, e),
        fits(next(s, e).0),
        s.command is Run,
        next(s, e).1 matches ActionModel::Finish(Ok(_)),
    ensures
        all_interfaces(next(s, e).0.vnics, false),
        next(s, e).0.results.len() == next(s, e).0.perf.len(),
        next(s, e).1 == ActionModel::Finish(Ok(report_text(next(s, e).0.results))),
{
    steps_keep_sessions_consistent(s, e);
    lemma_report_is_last(s, e);
}

proof fn lemma_report_is_last(s: SessionModel, e: EventModel)
    requires
        consistent(s),
        awaits(s.stage, e),
        s.command is Run,
        next(s, e).1 matches ActionModel::Finish(Ok(_)),
    ensures
        next(s, e).1 == ActionModel::Finish(Ok(report_text(next(s, e).0.results))),
{
    match (s.stage, e) {
        (Stage::StartingWeb, EventModel::Started(st)) => {
            if start_verdict(st) is Ok {
                if let StoresModel::Parsed(store_cmds, vnics) = store_server_args(s.config) {
                    lemma_setup_ends_with_report(SessionModel { store_cmds, vnics, ..s }, 0, 0);
                }
            }
        },
        (Stage::AddingVnic { store, index }, EventModel::Ran(o)) => {
            let t = SessionModel { vnics: mark(s.vnics, store as int, index as int, true), ..s };
            lemma_setup_ends_with_report(t, store as int, index + 1);
        },
        (Stage::StartingStore { store, index }, _) => {
            lemma_stores_ends_with_report(SessionModel { started: s.started + 1, ..s }, store as int, index + 1);
        },
        _ => {},
    }
}

proof fn lemma_setup_ends_with_report(s: SessionModel, i: int, j: int)
    ensures
        setup_from(s, i, j).1 matches ActionModel::Finish(Ok(_)) ==> setup_from(s, i, j).1 == ActionModel::Finish(
            Ok(report_text(setup_from(s, i, j).0.results)),
        ),
{
    lemma_stores_ends_with_report(s, 0, 0);
}

proof fn lemma_stores_ends_with_report(s: SessionModel, i: int, j: int)
    ensures
        stores_from(s, i, j).1 matches ActionModel::Finish(Ok(_)) ==> stores_from(s, i, j).1 == ActionModel::Finish(
            Ok(report_text(stores_from(s, i, j).0.results)),
        ),
{
}

/// No store server starts before every virtual network interface is up.
pub proof fn store_servers_start_after_interfaces_are_up(s: SessionModel, e: EventModel)
    requires
        consistent(s),
        awaits(s.stage, e),
        fits(next(s, e).0),
        next(s, e).0.stage is StartingStore,
    ensures
        next(s, e).1 is StartServer,
        all_interfaces(next(s, e).0.vnics, true),
{
    steps_keep_sessions_consistent(s, e);
    lemma_store_start_action(s, e);
}

proof fn lemma_store_start_action(s: SessionModel, e: EventModel)
    requires
        consistent(s),
        awaits(s.stage, e),
        next(s, e).0.stage is StartingStore,
    ensures
        next(s, e).1 is StartServer,
{
}

/// The action fits the stage: a final action (a result or a stop) leaves the
/// session finished, and any other leaves it waiting for the answer to that
/// action.
pub open spec fn action_fits_stage(r: (SessionModel, ActionModel)) -> bool {
    &&& (r.1 is Finish || r.1 is Abort) <==> r.0.stage is Finished
    &&& r.1 is Run ==> awaits(r.0.stage, EventModel::Ran(CommandOutcomeModel::SpawnFailed(Seq::empty())))
    &&& r.1 is StartServer ==> awaits(r.0.stage, EventModel::Started(ServerStartModel::Running))
    &&& r.1 is SpawnBench ==> awaits(r.0.stage, EventModel::Spawned(Ok(())))
    &&& r.1 is KillServer ==> awaits(r.0.stage, EventModel::Killed(Ok(())))
    &&& r.1 is RunBenches ==> awaits(
        r.0.stage,
        EventModel::BenchesEnded {
            choose_success: true,
            choose_stdout: Seq::empty(),
            drop_success: true,
            drop_stdout: Seq::empty(),
        },
    )
}

proof fn lemma_stores_fit(s: SessionModel, i: int, j: int)
    ensures
        action_fits_stage(stores_from(s, i, j)),
{
}

proof fn lemma_setup_fit(s: SessionModel, i: int, j: int)
    ensures
        action_fits_stage(setup_from(s, i, j)),
{
    lemma_stores_fit(s, 0, 0);
}

/// A session ends exactly when it says so: every step gives an action that
/// fits the stage it leaves the session in.
pub proof fn sessions_end_with_their_final_action(s: SessionModel, e: EventModel)
    requires
        awaits(s.stage, e),
    ensures
        action_fits_stage(next(s, e)),
{
    match (s.stage, e) {
        (Stage::StartingWeb, EventModel::Started(st)) => {
            if let StoresModel::Parsed(store_cmds, vnics) = store_server_args(s.config) {
                lemma_setup_fit(SessionModel { store_cmds, vnics, ..s }, 0, 0);
            }
        },
        (Stage::AddingVnic { store, index }, _) => {
            lemma_setup_fit(SessionModel { vnics: mark(s.vnics, store as int, index as int, true), ..s }, store as int, index + 1);
        },
        (Stage::StartingStore { store, index }, _) => {
            lemma_stores_fit(SessionModel { started: s.started + 1, ..s }, store as int, index + 1);
        },
        _ => {},
    }
}

/// The check command checks that `ab-go` is installed and then that sudo
/// privilege is at hand (without a password), and succeeds exactly when
/// both hold; a missing tool ends it before the privilege check.
pub proof fn check_command_checks_tools_then_privilege(
    config: JsonModel,
    tool: CommandOutcomeModel,
    sudo: CommandOutcomeModel,
)
    ensures
        ({
            let r1 = next(initial(CommandModel::Check, config), EventModel::Start);
            let r2 = next(r1.0, EventModel::Ran(tool));
            let r3 = next(r2.0, EventModel::Ran(sudo));
            &&& r1.1 == ActionModel::Run { in_dir: None, command: "ls ./bin/"@ + "ab-go"@ }
            &&& tools_verdict(tool_found(tool)) matches Err(msg) ==> r2.1 == ActionModel::Finish(
                Err(TesterErrorModel::Failure(msg)),
            )
            &&& tools_verdict(tool_found(tool)) is Ok ==> {
                &&& r2.1 == ActionModel::Run { in_dir: None, command: "sudo -n true"@ }
                &&& r3.1 == ActionModel::Finish(
                    match privilege_verdict(sudo) {
                        Ok(()) => Ok(Seq::empty()),
                        Err(msg) => Err(TesterErrorModel::Failure(msg)),
                    },
                )
            }
        }),
{
}

/// Building (or cleaning) reads the project's directory and its build (or
/// clean) command, runs that command there, and ends with its verdict; a
/// missing or non-string setting ends it with that setting's error and runs
/// nothing.
pub proof fn project_commands_run_in_the_project_directory(
    config: JsonModel,
    build: bool,
    outcome: CommandOutcomeModel,
)
    ensures
        ({
            let command = if build { CommandModel::Build } else { CommandModel::Clean };
            let key = if build { "build"@ } else { "clean"@ };
            let r1 = next(initial(command, config), EventModel::Start);
            let r2 = next(r1.0, EventModel::Ran(outcome));
            let verdict = if build { build_verdict(outcome) } else { clean_verdict(outcome) };
            match lookup_string(config, "directory"@) {
                Err(e) => r1.1 == ActionModel::Finish(Err(TesterErrorModel::Config(e))),
                Ok(dir) => match lookup_string(config, key) {
                    Err(e) => r1.1 == ActionModel::Finish(Err(TesterErrorModel::Config(e))),
                    Ok(text) => {
                        &&& r1.1 == ActionModel::Run { in_dir: Some(dir), command: text }
                        &&& r2.1 == ActionModel::Finish(
                            match verdict {
                                Ok(()) => Ok(Seq::empty()),
                                Err(msg) => Err(TesterErrorModel::Failure(msg)),
                            },
                        )
                    },
                },
            }
        }),
{
}

/// A test run first checks sudo privilege with the password, then the
/// tools, then the mode; the first that fails ends the run before anything
/// is built, started or set up. When all pass, the test itself begins by
/// building the project in its directory.
pub proof fn checks_come_before_a_test_run(
    config: JsonModel,
    password: Seq<char>,
    mode: Seq<char>,
    privilege: CommandOutcomeModel,
    tool: CommandOutcomeModel,
)
    ensures
        ({
            let r1 = next(initial(CommandModel::Run { password, mode }, config), EventModel::Start);
            let r2 = next(r1.0, EventModel::Ran(privilege));
            let r3 = next(r2.0, EventModel::Ran(tool));
            &&& r1.1 == ActionModel::Run { in_dir: None, command: "echo "@ + password + " | sudo -S ls ."@ }
            &&& privilege_verdict(privilege) matches Err(msg) ==> r2.1 == ActionModel::Finish(
                Err(TesterErrorModel::Failure(msg)),
            )
            &&& privilege_verdict(privilege) is Ok ==> {
                &&& r2.1 == ActionModel::Run { in_dir: None, command: "ls ./bin/"@ + "ab-go"@ }
                &&& run_verdict(privilege_verdict(privilege), tools_verdict(tool_found(tool)), mode) matches Err(msg)
                    ==> r3.1 == ActionModel::Finish(Err(TesterErrorModel::Failure(msg)))
                &&& run_verdict(privilege_verdict(privilege), tools_verdict(tool_found(tool)), mode) is Ok ==> r3
                    == project_command(r2.0, "build"@, Stage::TestBuilding)
            }
        }),
{
}

/// The benchmarks run item after item: for item `k`, the choose benchmark
/// is spawned, then the drop benchmark, then both run while the interfaces
/// flap; what they printed is kept as item `k`'s result, and item `k + 1`
/// follows (or, after the last, the servers are stopped).
pub proof fn performance_runs_each_item_in_turn(
    s: SessionModel,
    choose_success: bool,
    choose_stdout: Seq<u8>,
    drop_success: bool,
    drop_stdout: Seq<u8>,
)
    requires
        consistent(s),
        s.stage is SpawningChoose,
    ensures
        ({
            let k = s.stage->SpawningChoose_item as int;
            let r1 = next(s, EventModel::Spawned(Ok(())));
            let r2 = next(r1.0, EventModel::Spawned(Ok(())));
            let ended = EventModel::BenchesEnded { choose_success, choose_stdout, drop_success, drop_stdout };
            let r3 = next(r2.0, ended);
            let result = (
                if choose_success { lossy_utf8(choose_stdout) } else { Seq::empty() },
                if drop_success { lossy_utf8(drop_stdout) } else { Seq::empty() },
            );
            &&& r1 == spawn_bench(s, k, "drop"@, Stage::SpawningDrop { item: k as usize })
            &&& r1.1 is SpawnBench ==> r2 == run_benches(r1.0, k)
            &&& r2.1 is RunBenches ==> {
                &&& r3 == item_from(SessionModel { results: s.results.push(result), ..r2.0 }, k + 1)
                &&& r3.0.results == s.results.push(result)
                &&& r3.0.results.len() == k + 1
            }
        }),
{
    let k = s.stage->SpawningChoose_item as int;
    let r1 = next(s, EventModel::Spawned(Ok(())));
    let r2 = next(r1.0, EventModel::Spawned(Ok(())));
    if r1.1 is SpawnBench && r2.1 is RunBenches {
        assert(r2.0.results == s.results);
        assert(r2.0.stage == Stage::Benchmarking { item: k as usize });
    }
}

} // verus!
