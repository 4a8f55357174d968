use vstd::prelude::*;

use crate::bench::ab_test_command_of;
use crate::config::{lookup, store_server_args, StoresModel};
use crate::laws::{lemma_slot_skips, precedes};
use crate::process::lossy_utf8;
use crate::protocol::{
    after_web, awaits, begin_perf, fits, item_from, kills_from, lemma_slot_in_range, mark, next,
    removals_from, row_lengths, run_benches, setup_from, slot_from, stores_from, ActionModel,
    EventModel, SessionModel, Stage,
};
use crate::server::{kill_verdict, start_verdict, ServerStartModel};
use crate::text::decimal_text;
use crate::vnic::{add_vnic_verdict, remove_vnic_verdict, vnic_alias_text};

verus! {

/// The benchmark spawned for `key` (`choose` or `drop`) of item `k` is the
/// ab-go command made from that item's own settings under `key`.
pub open spec fn spawns_bench_of(s: SessionModel, k: int, key: Seq<char>, action: ActionModel) -> bool {
    match lookup(s.perf[k], key) {
        Ok(bench) => match ab_test_command_of(s.base_url, bench) {
            Ok(command) => action == ActionModel::SpawnBench { command },
            Err(_) => false,
        },
        Err(_) => false,
    }
}

/// The action asks for exactly what the stage the session is left in waits
/// on: the interface, store server, benchmark or server that the stage
/// names, and no other.
pub open spec fn stage_names_action(r: (SessionModel, ActionModel)) -> bool {
    let s = r.0;
    let action = r.1;
    match s.stage {
        Stage::AddingVnic { store, index } => action == ActionModel::Run {
            in_dir: None,
            command: "echo "@ + s.password() + " | sudo -S ifconfig "@ + ("lo:"@ + decimal_text(store as nat)
                + decimal_text(index as nat)) + " "@ + s.vnics[store as int][index as int].0,
        },
        Stage::StartingStore { store, index } => action == ActionModel::StartServer {
            dir: s.dir,
            command: s.store_cmds[store as int][index as int],
            wait_seconds: s.wait_seconds,
        },
        Stage::SpawningChoose { item } => spawns_bench_of(s, item as int, "choose"@, action),
        Stage::SpawningDrop { item } => spawns_bench_of(s, item as int, "drop"@, action),
        Stage::Benchmarking { .. } => action == ActionModel::RunBenches {
            password: s.password(),
            first: ("lo:03"@, s.vnics[0][3].0),
            second: ("lo:13"@, s.vnics[1][3].0),
        },
        Stage::KillingWeb => action == ActionModel::KillServer { index: 0 },
        Stage::KillingStore { index } => action == ActionModel::KillServer { index: index as nat + 1 },
        Stage::RemovingVnic { store, index } => action == ActionModel::Run {
            in_dir: None,
            command: "echo "@ + s.password() + " | sudo -S ifconfig "@ + ("lo:"@ + decimal_text(store as nat)
                + decimal_text(index as nat)) + " down"@,
        },
        _ => true,
    }
}

proof fn lemma_item_named(s: SessionModel, k: int)
    requires
        0 <= k,
        fits(item_from(s, k).0),
    ensures
        stage_names_action(item_from(s, k)),
{
}

proof fn lemma_removals_named(s: SessionModel, i: int, j: int)
    requires
        0 <= j,
        fits(removals_from(s, i, j).0),
    ensures
        stage_names_action(removals_from(s, i, j)),
{
    lemma_slot_in_range(row_lengths(s.vnics), i, j);
}

proof fn lemma_kills_named(s: SessionModel, k: int)
    requires
        0 <= k,
        s.started <= usize::MAX,
        fits(kills_from(s, k).0),
    ensures
        stage_names_action(kills_from(s, k)),
{
    if k >= s.started {
        lemma_removals_named(s, 0, 0);
    }
}

proof fn lemma_begin_perf_named(s: SessionModel)
    requires
        fits(begin_perf(s).0),
    ensures
        stage_names_action(begin_perf(s)),
{
    if let Ok(items) = lookup(s.config, "items"@) {
        if let Ok(basic) = lookup(items, "basic"@) {
            if let Ok(performance) = lookup(basic, "performance"@) {
                if let Ok(perf) = crate::bench::performance_items_of(performance) {
                    lemma_item_named(SessionModel { perf, ..s }, 0);
                }
            }
        }
    }
}

proof fn lemma_stores_named(s: SessionModel, i: int, j: int)
    requires
        0 <= j,
        fits(stores_from(s, i, j).0),
    ensures
        stage_names_action(stores_from(s, i, j)),
{
    lemma_slot_in_range(row_lengths(s.store_cmds), i, j);
    if slot_from(row_lengths(s.store_cmds), i, j) is None {
        lemma_begin_perf_named(s);
    }
}

proof fn lemma_setup_named(s: SessionModel, i: int, j: int)
    requires
        0 <= j,
        fits(setup_from(s, i, j).0),
    ensures
        stage_names_action(setup_from(s, i, j)),
{
    lemma_slot_in_range(row_lengths(s.vnics), i, j);
    if slot_from(row_lengths(s.vnics), i, j) is None {
        lemma_stores_named(s, 0, 0);
    }
}

proof fn lemma_after_web_named(s: SessionModel)
    requires
        fits(after_web(s).0),
    ensures
        stage_names_action(after_web(s)),
{
    if let StoresModel::Parsed(store_cmds, vnics) = store_server_args(s.config) {
        lemma_setup_named(SessionModel { store_cmds, vnics, ..s }, 0, 0);
    }
}

/// Every step asks for what its new stage names: bringing up or taking
/// down the interface `lo:<store><index>` at that position, starting the
/// store server at that position with its own command line, spawning the
/// benchmark made from that very performance item, running the benchmarks
/// with the two interfaces that flap, or stopping the server with that
/// number (the web server first, then the store servers in the order they
/// started).
pub proof fn steps_ask_for_what_their_stage_names(s: SessionModel, e: EventModel)
    requires
        awaits(s.stage, e),
        fits(next(s, e).0),
        s.started <= usize::MAX,
    ensures
        stage_names_action(next(s, e)),
{
    match (s.stage, e) {
        (Stage::StartingWeb, EventModel::Started(st)) => {
            if start_verdict(st) is Ok {
                lemma_after_web_named(s);
            }
        },
        (Stage::AddingVnic { store, index }, EventModel::Ran(o)) => {
            if add_vnic_verdict(vnic_alias_text(store as nat, index as nat), s.vnics[store as int][index as int].0, o) is Ok {
                lemma_setup_named(
                    SessionModel { vnics: mark(s.vnics, store as int, index as int, true), ..s },
                    store as int,
                    index + 1,
                );
            }
        },
        (Stage::StartingStore { store, index }, EventModel::Started(st)) => {
            if start_verdict(st) is Ok && s.started + 1 <= usize::MAX {
                lemma_stores_named(SessionModel { started: s.started + 1, ..s }, store as int, index + 1);
            }
        },
        (Stage::Benchmarking { item }, EventModel::BenchesEnded { choose_success, choose_stdout, drop_success, drop_stdout }) => {
            let t = SessionModel {
                results: s.results.push(
                    (
                        if choose_success { lossy_utf8(choose_stdout) } else { Seq::empty() },
                        if drop_success { lossy_utf8(drop_stdout) } else { Seq::empty() },
                    ),
                ),
                ..s
            };
            lemma_item_named(t, item + 1);
        },
        (Stage::KillingWeb, EventModel::Killed(r)) => {
            if kill_verdict(Some(r)) is Ok {
                lemma_kills_named(s, 0);
            }
        },
        (Stage::KillingStore { index }, EventModel::Killed(r)) => {
            if kill_verdict(Some(r)) is Ok {
                lemma_kills_named(s, index + 1);
            }
        },
        (Stage::RemovingVnic { store, index }, EventModel::Ran(o)) => {
            if remove_vnic_verdict(vnic_alias_text(store as nat, index as nat), o) is Ok {
                lemma_removals_named(
                    SessionModel { vnics: mark(s.vnics, store as int, index as int, false), ..s },
                    store as int,
                    index + 1,
                );
            }
        },
        _ => {},
    }
}


/// Every position that holds a store server comes after `(i, j)`.
pub open spec fn none_before(cmds: Seq<Seq<Seq<char>>>, i: int, j: int) -> bool {
    forall|x: int, y: int|
        #![trigger precedes(x, y, i, j)]
        0 <= x < cmds.len() && 0 <= y < cmds[x].len() ==> !precedes(x, y, i, j)
}

/// The positions that hold a store server and come before `(i, j)` are
/// exactly those up to and including `(a, b)`.
pub open spec fn next_after(cmds: Seq<Seq<Seq<char>>>, a: int, b: int, i: int, j: int) -> bool {
    forall|x: int, y: int|
        #![trigger precedes(x, y, i, j)]
        0 <= x < cmds.len() && 0 <= y < cmds[x].len() ==> (precedes(x, y, i, j) <==> (precedes(x, y, a, b) || (x
            == a && y == b)))
}

/// Every position that holds a store server is `(a, b)` or comes before it.
pub open spec fn none_after(cmds: Seq<Seq<Seq<char>>>, a: int, b: int) -> bool {
    forall|x: int, y: int|
        #![trigger precedes(x, y, a, b)]
        0 <= x < cmds.len() && 0 <= y < cmds[x].len() ==> (precedes(x, y, a, b) || (x == a && y == b))
}

proof fn lemma_begin_perf_starts_no_store(s: SessionModel)
    ensures
        !(begin_perf(s).0.stage is StartingStore),
        begin_perf(s).0.store_cmds == s.store_cmds,
{
}

proof fn lemma_stores_first(s: SessionModel)
    requires
        fits(stores_from(s, 0, 0).0),
    ensures
        stores_from(s, 0, 0).0.store_cmds == s.store_cmds,
        stores_from(s, 0, 0).0.stage matches Stage::StartingStore { store, index } ==> none_before(
            s.store_cmds,
            store as int,
            index as int,
        ),
{
    let lengths = row_lengths(s.store_cmds);
    lemma_slot_in_range(lengths, 0, 0);
    lemma_slot_skips(lengths, 0, 0);
    lemma_begin_perf_starts_no_store(s);
    if let Some((a0, b0)) = slot_from(lengths, 0, 0) {
        assert forall|x: int, y: int|
            #![trigger precedes(x, y, a0, b0)]
            0 <= x < s.store_cmds.len() && 0 <= y < s.store_cmds[x].len() implies !precedes(x, y, a0, b0) by {
            assert(lengths[x] == s.store_cmds[x].len());
            assert(precedes(x, y, 0, 0) == precedes(x, y, a0, b0));
        }
    }
}

proof fn lemma_setup_first(s: SessionModel, i: int, j: int)
    requires
        fits(setup_from(s, i, j).0),
    ensures
        setup_from(s, i, j).0.store_cmds == s.store_cmds,
        setup_from(s, i, j).0.stage matches Stage::StartingStore { store, index } ==> none_before(
            s.store_cmds,
            store as int,
            index as int,
        ),
{
    if slot_from(row_lengths(s.vnics), i, j) is None {
        lemma_stores_first(s);
    }
}

/// The first store server to start is the one at the first position, row by
/// row, that holds a server: no position that holds one comes before it.
pub proof fn the_first_store_server_to_start_comes_first(s: SessionModel, e: EventModel)
    requires
        awaits(s.stage, e),
        !(s.stage is StartingStore),
        fits(next(s, e).0),
    ensures
        next(s, e).0.stage matches Stage::StartingStore { store, index } ==> none_before(
            next(s, e).0.store_cmds,
            store as int,
            index as int,
        ),
{
    match (s.stage, e) {
        (Stage::StartingWeb, EventModel::Started(st)) => {
            if start_verdict(st) is Ok {
                if let StoresModel::Parsed(store_cmds, vnics) = store_server_args(s.config) {
                    lemma_setup_first(SessionModel { store_cmds, vnics, ..s }, 0, 0);
                }
            }
        },
        (Stage::AddingVnic { store, index }, EventModel::Ran(o)) => {
            if add_vnic_verdict(vnic_alias_text(store as nat, index as nat), s.vnics[store as int][index as int].0, o) is Ok {
                lemma_setup_first(
                    SessionModel { vnics: mark(s.vnics, store as int, index as int, true), ..s },
                    store as int,
                    index + 1,
                );
            }
        },
        _ => {},
    }
}

/// Store servers start one after another in row order, none skipped and
/// none twice: once the server at `(a, b)` runs, the next to start is the
/// one at the first position after `(a, b)` that holds a server (those
/// before it are exactly the ones up to `(a, b)`); when `(a, b)` was the
/// last, no store server starts again.
pub proof fn store_servers_start_one_after_another(s: SessionModel)
    requires
        s.stage is StartingStore,
        s.started < usize::MAX,
        fits(next(s, EventModel::Started(ServerStartModel::Running)).0),
    ensures
        ({
            let a = s.stage->StartingStore_store as int;
            let b = s.stage->StartingStore_index as int;
            let r = next(s, EventModel::Started(ServerStartModel::Running));
            &&& r.0.store_cmds == s.store_cmds
            &&& r.0.started == s.started + 1
            &&& match r.0.stage {
                Stage::StartingStore { store, index } => next_after(s.store_cmds, a, b, store as int, index as int),
                _ => none_after(s.store_cmds, a, b),
            }
        }),
{
    let a = s.stage->StartingStore_store as int;
    let b = s.stage->StartingStore_index as int;
    let t = SessionModel { started: s.started + 1, ..s };
    let lengths = row_lengths(s.store_cmds);
    lemma_slot_in_range(lengths, a, b + 1);
    lemma_slot_skips(lengths, a, b + 1);
    lemma_begin_perf_starts_no_store(t);
    match slot_from(lengths, a, b + 1) {
        Some((a0, b0)) => {
            assert forall|x: int, y: int|
                #![trigger precedes(x, y, a0, b0)]
                0 <= x < s.store_cmds.len() && 0 <= y < s.store_cmds[x].len() implies (precedes(x, y, a0, b0) <==> (
                precedes(x, y, a, b) || (x == a && y == b))) by {
                assert(lengths[x] == s.store_cmds[x].len());
                assert(precedes(x, y, a, b + 1) == precedes(x, y, a0, b0));
            }
        },
        None => {
            assert forall|x: int, y: int|
                #![trigger precedes(x, y, a, b)]
                0 <= x < s.store_cmds.len() && 0 <= y < s.store_cmds[x].len() implies (precedes(x, y, a, b) || (x
                == a && y == b)) by {
                assert(lengths[x] == s.store_cmds[x].len());
                assert(precedes(x, y, a, b + 1));
            }
        },
    }
}


/// Once the benchmarks of item `k` have ended, the run moves on to item
/// `k + 1`: its choose benchmark is spawned next (unless that item's
/// settings are wrong, which ends the run), and after the last item the web
/// server is stopped. No item is skipped or run twice.
pub proof fn benchmarks_move_on_to_the_next_item(
    s: SessionModel,
    choose_success: bool,
    choose_stdout: Seq<u8>,
    drop_success: bool,
    drop_stdout: Seq<u8>,
)
    requires
        s.stage is Benchmarking,
        s.stage->Benchmarking_item < s.perf.len(),
        fits(s),
    ensures
        ({
            let k = s.stage->Benchmarking_item as int;
            let r = next(s, EventModel::BenchesEnded { choose_success, choose_stdout, drop_success, drop_stdout });
            &&& r.0.perf == s.perf
            &&& k + 1 < s.perf.len() ==> (r.0.stage == Stage::SpawningChoose { item: (k + 1) as usize } || r.1 is Finish)
            &&& k + 1 == s.perf.len() ==> r.0.stage == Stage::KillingWeb
        }),
{
}

} // verus!
