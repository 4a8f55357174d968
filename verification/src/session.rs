use vstd::prelude::*;

use crate::bench::{ab_test_command, bench_result, performance};
use crate::check::{
    check_mode, check_privilege, check_tool_exist, check_tools, privilege_check_command,
    privilege_probe_command, tool_check_command, verdict_model,
};
use crate::config::{
    config_error_text, get_json_value, get_json_value_as_string, get_json_value_as_u64,
    parse_web_server_args, read_store_server_args, ConfigError, StoresParse,
};
use crate::json::{Json, models};
use crate::laws::{consistent, new_sessions_are_consistent, steps_keep_sessions_consistent};
use crate::process::CommandOutcome;
use crate::project::{build_system, clean};
use crate::protocol::{
    ActionModel, CommandModel, EventModel, SessionModel, Stage, TesterErrorModel, abort, after_web,
    awaits, begin, begin_perf, conclude, fail, fail_config, finish, fits, initial, item_from,
    kills_from, lemma_slot_in_range, mark, next, out_of_bounds_message, positions_valid,
    project_command, removals_from, row_lengths, run_benches, setup_from, slot_from, spawn_bench,
    start_web, stores_from,
};
use crate::report::report_lines;
use crate::server::{ServerStart, try_kill, try_run};
use crate::stage_actions::{stage_names_action, steps_ask_for_what_their_stage_names};
use crate::text::decimal;
use crate::vnic::{
    add_virtual_nic, add_vnic_command, remove_virtual_nic, remove_vnic_command, vnic_alias,
};

verus! {


/// What the tester was asked to do.
#[derive(Debug, PartialEq)]
pub enum Command {
    /// Check that the tools are installed and that sudo privilege is at hand.
    Check,
    /// Build the project.
    Build,
    /// Clean the project directory.
    Clean,
    /// Test the project, with the sudo password and the test mode.
    Run { password: String, mode: String },
}

impl Command {
    pub open spec fn model(&self) -> CommandModel {
        match self {
            Command::Check => CommandModel::Check,
            Command::Build => CommandModel::Build,
            Command::Clean => CommandModel::Clean,
            Command::Run { password, mode } => CommandModel::Run { password: password@, mode: mode@ },
        }
    }
}

/// Why a session failed.
#[derive(Debug, PartialEq)]
pub enum TesterError {
    /// The configuration lacks a setting, or holds one of the wrong kind.
    Config(ConfigError),
    /// A step failed; the message says which and why.
    Failure(String),
}

/// The message of a tester error; see [`config_error_text`] for `shown`.
pub open spec fn tester_error_text(e: TesterErrorModel, shown: Seq<char>) -> Seq<char> {
    match e {
        TesterErrorModel::Config(c) => config_error_text(c, shown),
        TesterErrorModel::Failure(msg) => msg,
    }
}

impl TesterError {
    /// The message of the error, given how the offending configuration value
    /// prints (ignored when there is none).
    pub fn describe(&self, shown: &str) -> (text: String)
        ensures
            text@ == tester_error_text(self.model(), shown@),
    {
        match self {
            TesterError::Config(e) => e.describe(shown),
            TesterError::Failure(msg) => msg.clone(),
        }
    }

    /// The configuration value the error shows, if any.
    pub fn value(&self) -> (v: Option<&Json>)
        ensures
            v == match self {
                TesterError::Config(ConfigError::NotUnsigned { value, .. }) => Some(value),
                TesterError::Config(ConfigError::NotString { value, .. }) => Some(value),
                TesterError::Config(ConfigError::NotArray { value, .. }) => Some(value),
                _ => None::<&Json>,
            },
    {
        match self {
            TesterError::Config(ConfigError::NotUnsigned { value, .. }) => Some(value),
            TesterError::Config(ConfigError::NotString { value, .. }) => Some(value),
            TesterError::Config(ConfigError::NotArray { value, .. }) => Some(value),
            _ => None,
        }
    }

    pub open spec fn model(&self) -> TesterErrorModel {
        match self {
            TesterError::Config(e) => TesterErrorModel::Config(e.model()),
            TesterError::Failure(msg) => TesterErrorModel::Failure(msg@),
        }
    }
}

/// What happened in answer to the last action.
#[derive(Debug, PartialEq)]
pub enum Event {
    /// Nothing yet: the session begins.
    Start,
    /// The shell command that was asked for ended.
    Ran(CommandOutcome),
    /// The server that was asked for was started, and looked at after the wait.
    Started(ServerStart),
    /// The benchmark that was asked for was spawned, or could not be (with the reason).
    Spawned(Result<(), String>),
    /// Both benchmarks of the current item ended: whether each succeeded and
    /// what each wrote to its standard output.
    BenchesEnded { choose_success: bool, choose_stdout: Vec<u8>, drop_success: bool, drop_stdout: Vec<u8> },
    /// The server that was asked to be stopped was killed, or could not be (with the reason).
    Killed(Result<(), String>),
}

impl Event {
    pub open spec fn model(&self) -> EventModel {
        match self {
            Event::Start => EventModel::Start,
            Event::Ran(o) => EventModel::Ran(o.model()),
            Event::Started(s) => EventModel::Started(s.model()),
            Event::Spawned(r) => EventModel::Spawned(verdict_model(*r)),
            Event::BenchesEnded { choose_success, choose_stdout, drop_success, drop_stdout } => EventModel::BenchesEnded {
                choose_success: *choose_success,
                choose_stdout: choose_stdout@,
                drop_success: *drop_success,
                drop_stdout: drop_stdout@,
            },
            Event::Killed(r) => EventModel::Killed(verdict_model(*r)),
        }
    }
}

/// What the tester must do next.
#[derive(Debug, PartialEq)]
pub enum Action {
    /// Run the shell command to its end, in `dir` when one is given; answer `Ran`.
    Run { in_dir: Option<String>, command: String },
    /// Start the shell command as a server in `dir`, wait `wait_seconds`
    /// seconds, and look whether it still runs; answer `Started`.
    StartServer { dir: String, command: String, wait_seconds: u64 },
    /// Spawn the `ab-go` command line, with its output captured; answer `Spawned`.
    SpawnBench { command: String },
    /// While the two benchmarks spawned last run, keep taking the two
    /// virtual network interfaces (alias, address) down and up again with
    /// the password, as `flap::flap_step` directs; when both benchmarks have
    /// ended, stop; answer `BenchesEnded`.
    RunBenches { password: String, first: (String, String), second: (String, String) },
    /// Stop the server of this number: 0 is the web server, the store servers
    /// follow in the order they were started; answer `Killed`.
    KillServer { index: usize },
    /// The session is over: the lines of the report, or why it failed.
    Finish(Result<Vec<String>, TesterError>),
    /// The session cannot go on: stop the program with this message.
    Abort(String),
}

impl Action {
    pub open spec fn model(&self) -> ActionModel {
        match self {
            Action::Run { in_dir, command } => ActionModel::Run {
                in_dir: match in_dir {
                    Some(d) => Some(d@),
                    None => None,
                },
                command: command@,
            },
            Action::StartServer { dir, command, wait_seconds } => ActionModel::StartServer {
                dir: dir@,
                command: command@,
                wait_seconds: *wait_seconds,
            },
            Action::SpawnBench { command } => ActionModel::SpawnBench { command: command@ },
            Action::RunBenches { password, first, second } => ActionModel::RunBenches {
                password: password@,
                first: (first.0@, first.1@),
                second: (second.0@, second.1@),
            },
            Action::KillServer { index } => ActionModel::KillServer { index: *index as nat },
            Action::Finish(r) => ActionModel::Finish(
                match r {
                    Ok(lines) => Ok(lines.deep_view()),
                    Err(e) => Err(e.model()),
                },
            ),
            Action::Abort(msg) => ActionModel::Abort(msg@),
        }
    }
}

/// The model of the result a session ends with.
pub open spec fn finish_model(r: Result<Vec<String>, TesterError>) -> Result<Seq<Seq<char>>, TesterErrorModel> {
    match r {
        Ok(lines) => Ok(lines.deep_view()),
        Err(e) => Err(e.model()),
    }
}

/// The state of a session: the configuration it reads, what it read of it
/// so far, and where it stands.
pub struct Session {
    command: Command,
    config: Json,
    stage: Stage,
    dir: String,
    wait_seconds: u64,
    base_url: String,
    store_cmds: Vec<Vec<String>>,
    vnics: Vec<Vec<(String, bool)>>,
    perf: Vec<Json>,
    results: Vec<(String, String)>,
    started: usize,
}

/// The lengths of the rows of a table held in vectors.
pub open spec fn vec_row_lengths<T>(rows: Seq<Vec<T>>) -> Seq<int> {
    Seq::new(rows.len(), |i: int| rows[i]@.len() as int)
}

/// The model of a position that may be absent.
pub open spec fn slot_model(r: Option<(usize, usize)>) -> Option<(int, int)> {
    match r {
        Some((a, b)) => Some((a as int, b as int)),
        None => None,
    }
}

/// The first position at or after `(i, j)` that holds an element, row by row.
fn next_slot<T>(rows: &Vec<Vec<T>>, i: usize, j: usize) -> (r: Option<(usize, usize)>)
    ensures
        slot_model(r) == slot_from(vec_row_lengths(rows@), i as int, j as int),
{
    let ghost lens = vec_row_lengths(rows@);
    let mut a = i;
    let mut b = j;
    while a < rows.len()
        invariant
            lens == vec_row_lengths(rows@),
            slot_from(lens, i as int, j as int) == slot_from(lens, a as int, b as int),
        decreases rows@.len() - a,
    {
        if b < rows[a].len() {
            return Some((a, b));
        }
        a = a + 1;
        b = 0;
    }
    None
}

impl Session {
    /// The model of the session.
    pub closed spec fn model(&self) -> SessionModel {
        SessionModel {
            command: self.command.model(),
            config: self.config.model(),
            stage: self.stage,
            dir: self.dir@,
            wait_seconds: self.wait_seconds,
            base_url: self.base_url@,
            store_cmds: self.store_cmds.deep_view(),
            vnics: self.vnics.deep_view(),
            perf: models(self.perf@),
            results: self.results.deep_view(),
            started: self.started as nat,
        }
    }

    /// A session that is to carry out the command on the configuration.
    pub fn new(command: Command, config: Json) -> (s: Session)
        ensures
            s.model() == initial(command.model(), config.model()),
            s.wf(),
    {
        let s = Session {
            command,
            config,
            stage: Stage::Begin,
            dir: String::new(),
            wait_seconds: 0,
            base_url: String::new(),
            store_cmds: Vec::new(),
            vnics: Vec::new(),
            perf: Vec::new(),
            results: Vec::new(),
            started: 0,
        };
        assert(s.model().store_cmds =~= Seq::empty());
        assert(s.model().vnics =~= Seq::empty());
        assert(s.model().perf =~= Seq::empty());
        assert(s.model().results =~= Seq::empty());
        proof { new_sessions_are_consistent(command.model(), config.model()); }
        s
    }

    /// The stage the session stands at.
    pub fn stage(&self) -> (st: Stage)
        ensures
            st == self.model().stage,
    {
        self.stage
    }

    /// Whether the session waits for this kind of event.
    pub fn awaits_event(&self, event: &Event) -> (b: bool)
        ensures
            b == awaits(self.model().stage, event.model()),
    {
        match self.stage {
            Stage::Begin => matches!(event, Event::Start { .. }),
            Stage::CheckingTool | Stage::CheckingSudo | Stage::Building | Stage::Cleaning | Stage::CheckingPrivilege
            | Stage::CheckingRunTools | Stage::TestBuilding | Stage::AddingVnic { .. }
            | Stage::RemovingVnic { .. } => matches!(event, Event::Ran { .. }),
            Stage::StartingWeb | Stage::StartingStore { .. } => matches!(event, Event::Started { .. }),
            Stage::SpawningChoose { .. } | Stage::SpawningDrop { .. } => matches!(event, Event::Spawned { .. }),
            Stage::Benchmarking { .. } => matches!(event, Event::BenchesEnded { .. }),
            Stage::KillingWeb | Stage::KillingStore { .. } => matches!(event, Event::Killed { .. }),
            Stage::Finished => false,
        }
    }

    fn password(&self) -> (p: &str)
        ensures
            p@ == self.model().password(),
    {
        match &self.command {
            Command::Run { password, .. } => password.as_str(),
            _ => {
                proof { reveal_strlit(""); }
                ""
            },
        }
    }

    fn finish_with(&mut self, r: Result<Vec<String>, TesterError>) -> (a: Action)
        ensures
            (final(self).model(), a.model()) == finish(old(self).model(), finish_model(r)),
    {
        self.stage = Stage::Finished;
        Action::Finish(r)
    }

    fn fail_config_with(&mut self, e: ConfigError) -> (a: Action)
        ensures
            (final(self).model(), a.model()) == fail_config(old(self).model(), e.model()),
    {
        self.finish_with(Err(TesterError::Config(e)))
    }

    fn fail_with(&mut self, msg: String) -> (a: Action)
        ensures
            (final(self).model(), a.model()) == fail(old(self).model(), msg@),
    {
        self.finish_with(Err(TesterError::Failure(msg)))
    }

    fn conclude_with(&mut self, verdict: Result<(), String>) -> (a: Action)
        ensures
            (final(self).model(), a.model()) == conclude(old(self).model(), verdict_model(verdict)),
    {
        match verdict {
            Ok(()) => {
                let lines: Vec<String> = Vec::new();
                assert(lines.deep_view() =~= Seq::<Seq<char>>::empty());
                self.finish_with(Ok(lines))
            },
            Err(msg) => self.fail_with(msg),
        }
    }

    fn abort_with(&mut self, msg: String) -> (a: Action)
        ensures
            (final(self).model(), a.model()) == abort(old(self).model(), msg@),
    {
        self.stage = Stage::Finished;
        Action::Abort(msg)
    }
}

impl Session {
    proof fn lemma_row_lengths(&self)
        ensures
            row_lengths(self.model().vnics) == vec_row_lengths(self.vnics@),
            row_lengths(self.model().store_cmds) == vec_row_lengths(self.store_cmds@),
    {
        assert(row_lengths(self.model().vnics) =~= vec_row_lengths(self.vnics@));
        assert(row_lengths(self.model().store_cmds) =~= vec_row_lengths(self.store_cmds@));
    }

    fn project_command_with(&mut self, key: &str, stage: Stage) -> (a: Action)
        ensures
            (final(self).model(), a.model()) == project_command(old(self).model(), key@, stage),
    {
        let dir = match get_json_value_as_string(&self.config, "directory") {
            Ok(dir) => dir,
            Err(e) => return self.fail_config_with(e),
        };
        let command = match get_json_value_as_string(&self.config, key) {
            Ok(command) => command,
            Err(e) => return self.fail_config_with(e),
        };
        let in_dir = Some(dir.clone());
        self.dir = dir;
        self.stage = stage;
        Action::Run { in_dir, command }
    }

    fn begin_with(&mut self) -> (a: Action)
        requires
            old(self).model().stage is Begin,
        ensures
            (final(self).model(), a.model()) == begin(old(self).model()),
    {
        match &self.command {
            Command::Check => {
                self.stage = Stage::CheckingTool;
                Action::Run { in_dir: None, command: tool_check_command("ab-go") }
            },
            Command::Build => self.project_command_with("build", Stage::Building),
            Command::Clean => self.project_command_with("clean", Stage::Cleaning),
            Command::Run { password, .. } => {
                let command = privilege_check_command(password.as_str());
                self.stage = Stage::CheckingPrivilege;
                Action::Run { in_dir: None, command }
            },
        }
    }

    fn start_web_with(&mut self) -> (a: Action)
        ensures
            (final(self).model(), a.model()) == start_web(old(self).model()),
    {
        let wait_seconds = match get_json_value_as_u64(&self.config, "wait_seconds") {
            Ok(w) => w,
            Err(e) => return self.fail_config_with(e),
        };
        let (command, base_url) = match parse_web_server_args(&self.config) {
            Ok(pair) => pair,
            Err(e) => return self.fail_config_with(e),
        };
        self.wait_seconds = wait_seconds;
        self.base_url = base_url;
        self.stage = Stage::StartingWeb;
        Action::StartServer { dir: self.dir.clone(), command, wait_seconds }
    }

    fn setup_from_with(&mut self, i: usize, j: usize) -> (a: Action)
        ensures
            (final(self).model(), a.model()) == setup_from(old(self).model(), i as int, j as int),
    {
        proof { self.lemma_row_lengths(); }
        match next_slot(&self.vnics, i, j) {
            Some((a, b)) => {
                proof { lemma_slot_in_range(vec_row_lengths(self.vnics@), i as int, j as int); }
                let alias = vnic_alias(a, b);
                let command = add_vnic_command(self.password(), alias.as_str(), self.vnics[a][b].0.as_str());
                self.stage = Stage::AddingVnic { store: a, index: b };
                Action::Run { in_dir: None, command }
            },
            None => self.stores_from_with(0, 0),
        }
    }

    fn stores_from_with(&mut self, i: usize, j: usize) -> (a: Action)
        ensures
            (final(self).model(), a.model()) == stores_from(old(self).model(), i as int, j as int),
    {
        proof { self.lemma_row_lengths(); }
        match next_slot(&self.store_cmds, i, j) {
            Some((a, b)) => {
                proof { lemma_slot_in_range(vec_row_lengths(self.store_cmds@), i as int, j as int); }
                let command = self.store_cmds[a][b].clone();
                self.stage = Stage::StartingStore { store: a, index: b };
                Action::StartServer { dir: self.dir.clone(), command, wait_seconds: self.wait_seconds }
            },
            None => self.begin_perf_with(),
        }
    }

    fn after_web_with(&mut self) -> (a: Action)
        ensures
            (final(self).model(), a.model()) == after_web(old(self).model()),
    {
        match read_store_server_args(&self.config) {
            StoresParse::Failed(e) => self.fail_config_with(e),
            StoresParse::Unreadable => self.abort_with(String::from_str("called `Option::unwrap()` on a `None` value")),
            StoresParse::Parsed(store_cmds, vnics) => {
                self.store_cmds = store_cmds;
                self.vnics = vnics;
                self.setup_from_with(0, 0)
            },
        }
    }

    fn begin_perf_with(&mut self) -> (a: Action)
        ensures
            (final(self).model(), a.model()) == begin_perf(old(self).model()),
    {
        let items = match get_json_value(&self.config, "items") {
            Ok(items) => items,
            Err(e) => return self.fail_config_with(e),
        };
        let basic = match get_json_value(&items, "basic") {
            Ok(basic) => basic,
            Err(e) => return self.fail_config_with(e),
        };
        let section = match get_json_value(&basic, "performance") {
            Ok(section) => section,
            Err(e) => return self.fail_config_with(e),
        };
        match performance(&section) {
            Ok(perf) => {
                self.perf = perf;
                self.item_from_with(0)
            },
            Err(e) => self.fail_config_with(e),
        }
    }

    fn spawn_bench_with(&mut self, k: usize, key: &str, stage: Stage) -> (a: Action)
        requires
            k < old(self).perf@.len(),
        ensures
            (final(self).model(), a.model()) == spawn_bench(old(self).model(), k as int, key@, stage),
    {
        let bench = match get_json_value(&self.perf[k], key) {
            Ok(bench) => bench,
            Err(e) => return self.fail_config_with(e),
        };
        let command = match ab_test_command(self.base_url.as_str(), &bench) {
            Ok(command) => command,
            Err(e) => return self.fail_config_with(e),
        };
        self.stage = stage;
        Action::SpawnBench { command }
    }

    fn item_from_with(&mut self, k: usize) -> (a: Action)
        ensures
            (final(self).model(), a.model()) == item_from(old(self).model(), k as int),
    {
        if k < self.perf.len() {
            self.spawn_bench_with(k, "choose", Stage::SpawningChoose { item: k })
        } else {
            self.stage = Stage::KillingWeb;
            Action::KillServer { index: 0 }
        }
    }

    fn out_of_bounds(len: usize, index: usize) -> (msg: String)
        ensures
            msg@ == out_of_bounds_message(len as nat, index as nat),
    {
        let mut msg = String::from_str("index out of bounds: the len is ");
        let len_text = decimal(len as u64);
        let index_text = decimal(index as u64);
        msg.append(len_text.as_str());
        msg.append(" but the index is ");
        msg.append(index_text.as_str());
        msg
    }

    fn run_benches_with(&mut self, k: usize) -> (a: Action)
        ensures
            (final(self).model(), a.model()) == run_benches(old(self).model(), k as int),
    {
        if self.vnics.len() <= 0 {
            let msg = Session::out_of_bounds(self.vnics.len(), 0);
            return self.abort_with(msg);
        }
        if self.vnics[0].len() <= 3 {
            let msg = Session::out_of_bounds(self.vnics[0].len(), 3);
            return self.abort_with(msg);
        }
        if self.vnics.len() <= 1 {
            let msg = Session::out_of_bounds(self.vnics.len(), 1);
            return self.abort_with(msg);
        }
        if self.vnics[1].len() <= 3 {
            let msg = Session::out_of_bounds(self.vnics[1].len(), 3);
            return self.abort_with(msg);
        }
        let first = (String::from_str("lo:03"), self.vnics[0][3].0.clone());
        let second = (String::from_str("lo:13"), self.vnics[1][3].0.clone());
        let password = String::from_str(self.password());
        self.stage = Stage::Benchmarking { item: k };
        Action::RunBenches { password, first, second }
    }

    fn removals_from_with(&mut self, i: usize, j: usize) -> (a: Action)
        ensures
            (final(self).model(), a.model()) == removals_from(old(self).model(), i as int, j as int),
    {
        proof { self.lemma_row_lengths(); }
        match next_slot(&self.vnics, i, j) {
            Some((a, b)) => {
                let alias = vnic_alias(a, b);
                let command = remove_vnic_command(self.password(), alias.as_str());
                self.stage = Stage::RemovingVnic { store: a, index: b };
                Action::Run { in_dir: None, command }
            },
            None => {
                let lines = report_lines(&self.results);
                self.finish_with(Ok(lines))
            },
        }
    }

    fn kills_from_with(&mut self, k: usize) -> (a: Action)
        ensures
            (final(self).model(), a.model()) == kills_from(old(self).model(), k as int),
    {
        if k < self.started {
            self.stage = Stage::KillingStore { index: k };
            Action::KillServer { index: k + 1 }
        } else {
            self.removals_from_with(0, 0)
        }
    }

    #[verifier::loop_isolation(false)]
    fn mark_vnic(&mut self, i: usize, j: usize, up: bool)
        requires
            i < old(self).vnics@.len(),
            j < old(self).vnics@[i as int]@.len(),
        ensures
            final(self).model() == (SessionModel {
                vnics: mark(old(self).model().vnics, i as int, j as int, up),
                ..old(self).model()
            }),
    {
        let ghost before = self.vnics.deep_view();
        let mut row: Vec<(String, bool)> = Vec::new();
        let mut k: usize = 0;
        let n = self.vnics[i].len();
        while k < n
            invariant
                n == self.vnics@[i as int]@.len(),
                k <= n,
                before == self.vnics.deep_view(),
                row@.len() == k,
                forall|m: int| 0 <= m < k ==> (#[trigger] row@[m]).0@ == self.vnics@[i as int]@[m].0@
                    && row@[m].1 == if m == j { up } else { self.vnics@[i as int]@[m].1 },
            decreases n - k,
        {
            let name = self.vnics[i][k].0.clone();
            let flag = if k == j { up } else { self.vnics[i][k].1 };
            row.push((name, flag));
            k = k + 1;
        }
        proof {
            assert(row.deep_view() =~= before[i as int].update(j as int, (before[i as int][j as int].0, up)));
        }
        self.vnics.set(i, row);
        proof {
            assert(self.vnics.deep_view() =~= mark(before, i as int, j as int, up));
        }
    }
}

impl Session {
    /// The session is well formed: it is consistent (see [`consistent`]).
    pub closed spec fn wf(&self) -> bool {
        consistent(self.model())
    }

    /// Takes the session one step: given what happened in answer to the last
    /// action (or `Start` at first), moves on and says what to do next.
    pub fn step(&mut self, event: Event) -> (action: Action)
        requires
            old(self).wf(),
            awaits(old(self).model().stage, event.model()),
        ensures
            final(self).wf(),
            (final(self).model(), action.model()) == next(old(self).model(), event.model()),
            stage_names_action((final(self).model(), action.model())),
    {
        let ghost before = self.model();
        let ghost happened = event.model();
        proof {
            self.lemma_row_lengths();
            self.lemma_fits();
        }
        let action = match event {
            Event::Start => self.begin_with(),
            Event::Ran(o) => self.on_ran(o),
            Event::Started(st) => self.on_started(st),
            Event::Spawned(r) => self.on_spawned(r),
            Event::BenchesEnded { choose_success, choose_stdout, drop_success, drop_stdout } => self.on_benches_ended(
                choose_success,
                choose_stdout,
                drop_success,
                drop_stdout,
            ),
            Event::Killed(r) => self.on_killed(r),
        };
        proof {
            self.lemma_fits();
            steps_keep_sessions_consistent(before, happened);
            steps_ask_for_what_their_stage_names(before, happened);
        }
        action
    }

    fn on_ran(&mut self, o: CommandOutcome) -> (a: Action)
        requires
            awaits(old(self).model().stage, EventModel::Ran(o.model())),
            positions_valid(old(self).model()),
        ensures
            (final(self).model(), a.model()) == next(old(self).model(), EventModel::Ran(o.model())),
    {
        proof {
            self.lemma_row_lengths();
            self.lemma_fits();
        }
        match self.stage {
            Stage::CheckingTool => {
                let found = check_tool_exist(&o);
                match check_tools(found) {
                    Err(msg) => self.fail_with(msg),
                    Ok(()) => {
                        self.stage = Stage::CheckingSudo;
                        Action::Run { in_dir: None, command: privilege_probe_command() }
                    },
                }
            },
            Stage::CheckingSudo => self.conclude_with(check_privilege(&o)),
            Stage::Building => self.conclude_with(build_system(&o)),
            Stage::Cleaning => self.conclude_with(clean(&o)),
            Stage::CheckingPrivilege => match check_privilege(&o) {
                Err(msg) => self.fail_with(msg),
                Ok(()) => {
                    self.stage = Stage::CheckingRunTools;
                    Action::Run { in_dir: None, command: tool_check_command("ab-go") }
                },
            },
            Stage::CheckingRunTools => self.after_run_tools(&o),
            Stage::TestBuilding => match build_system(&o) {
                Err(msg) => self.fail_with(msg),
                Ok(()) => self.start_web_with(),
            },
            Stage::AddingVnic { store, index } => {
                let alias = vnic_alias(store, index);
                match add_virtual_nic(alias.as_str(), self.vnics[store][index].0.as_str(), &o) {
                    Err(msg) => self.fail_with(msg),
                    Ok(()) => {
                        self.mark_vnic(store, index, true);
                        self.setup_from_with(store, index + 1)
                    },
                }
            },
            Stage::RemovingVnic { store, index } => {
                let alias = vnic_alias(store, index);
                match remove_virtual_nic(alias.as_str(), &o) {
                    Err(msg) => self.fail_with(msg),
                    Ok(()) => {
                        self.mark_vnic(store, index, false);
                        self.removals_from_with(store, index + 1)
                    },
                }
            },
            _ => {
                // The stage waits for another kind of event.
                proof { assert(false); }
                Action::Abort(String::new())
            },
        }
    }

    fn after_run_tools(&mut self, o: &CommandOutcome) -> (a: Action)
        requires
            old(self).model().stage is CheckingRunTools,
        ensures
            (final(self).model(), a.model()) == next(old(self).model(), EventModel::Ran(o.model())),
    {
        let tools = check_tools(check_tool_exist(o));
        let verdict = match &self.command {
            Command::Run { mode, .. } => check_mode(Ok(()), tools, mode.as_str()),
            _ => {
                let none = String::new();
                check_mode(Ok(()), tools, none.as_str())
            },
        };
        match verdict {
            Err(msg) => self.fail_with(msg),
            Ok(()) => self.project_command_with("build", Stage::TestBuilding),
        }
    }

    fn on_started(&mut self, st: ServerStart) -> (a: Action)
        requires
            awaits(old(self).model().stage, EventModel::Started(st.model())),
            positions_valid(old(self).model()),
        ensures
            (final(self).model(), a.model()) == next(old(self).model(), EventModel::Started(st.model())),
    {
        proof {
            self.lemma_row_lengths();
            self.lemma_fits();
        }
        match self.stage {
            Stage::StartingWeb => match try_run(&st) {
                Err(msg) => self.fail_with(msg),
                Ok(()) => self.after_web_with(),
            },
            Stage::StartingStore { store, index } => match try_run(&st) {
                Err(msg) => self.fail_with(msg),
                Ok(()) => if self.started == usize::MAX {
                    self.abort_with(String::from_str("capacity overflow"))
                } else {
                    self.started = self.started + 1;
                    self.stores_from_with(store, index + 1)
                },
            },
            _ => {
                // The stage waits for another kind of event.
                proof { assert(false); }
                Action::Abort(String::new())
            },
        }
    }

    fn on_spawned(&mut self, r: Result<(), String>) -> (a: Action)
        requires
            awaits(old(self).model().stage, EventModel::Spawned(verdict_model(r))),
            positions_valid(old(self).model()),
        ensures
            (final(self).model(), a.model()) == next(old(self).model(), EventModel::Spawned(verdict_model(r))),
    {
        match r {
            Err(reason) => {
                let mut msg = String::from_str("Can't run your server: ");
                msg.append(reason.as_str());
                msg.append(".");
                self.fail_with(msg)
            },
            Ok(()) => match self.stage {
                Stage::SpawningChoose { item } => self.spawn_bench_with(item, "drop", Stage::SpawningDrop { item }),
                Stage::SpawningDrop { item } => self.run_benches_with(item),
                _ => {
                    // The stage waits for another kind of event.
                    proof { assert(false); }
                    Action::Abort(String::new())
                },
            },
        }
    }

    fn on_benches_ended(
        &mut self,
        choose_success: bool,
        choose_stdout: Vec<u8>,
        drop_success: bool,
        drop_stdout: Vec<u8>,
    ) -> (a: Action)
        requires
            old(self).model().stage is Benchmarking,
            positions_valid(old(self).model()),
        ensures
            (final(self).model(), a.model()) == next(
                old(self).model(),
                EventModel::BenchesEnded {
                    choose_success,
                    choose_stdout: choose_stdout@,
                    drop_success,
                    drop_stdout: drop_stdout@,
                },
            ),
    {
        proof { self.lemma_fits(); }
        let item = match self.stage {
            Stage::Benchmarking { item } => item,
            _ => 0,
        };
        let chosen = bench_result(choose_success, &choose_stdout);
        let dropped = bench_result(drop_success, &drop_stdout);
        let ghost before = self.results.deep_view();
        self.results.push((chosen, dropped));
        proof {
            assert(self.results.deep_view() =~= before.push((chosen@, dropped@)));
        }
        self.item_from_with(item + 1)
    }

    fn on_killed(&mut self, r: Result<(), String>) -> (a: Action)
        requires
            awaits(old(self).model().stage, EventModel::Killed(verdict_model(r))),
            positions_valid(old(self).model()),
        ensures
            (final(self).model(), a.model()) == next(old(self).model(), EventModel::Killed(verdict_model(r))),
    {
        let next_kill: usize = match self.stage {
            Stage::KillingStore { index } => index + 1,
            _ => 0,
        };
        match try_kill(&Some(r)) {
            Err(msg) => self.fail_with(msg),
            Ok(()) => self.kills_from_with(next_kill),
        }
    }

    proof fn lemma_fits(&self)
        ensures
            fits(self.model()),
    {
        let m = self.model();
        assert(m.vnics.len() == self.vnics.len());
        assert forall|i: int| 0 <= i < m.vnics.len() implies #[trigger] m.vnics[i].len() <= usize::MAX by {
            assert(m.vnics[i].len() == self.vnics@[i].len());
        }
        assert(m.store_cmds.len() == self.store_cmds.len());
        assert forall|i: int| 0 <= i < m.store_cmds.len() implies #[trigger] m.store_cmds[i].len() <= usize::MAX by {
            assert(m.store_cmds[i].len() == self.store_cmds@[i].len());
        }
        assert(m.perf.len() == self.perf.len());
    }
}

} // verus!
