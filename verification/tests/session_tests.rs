use course_system_tester::config::ConfigError;
use course_system_tester::json::{Json, Number};
use course_system_tester::process::CommandOutcome;
use course_system_tester::server::ServerStart;
use course_system_tester::session::{Action, Command, Event, Session, TesterError};

fn s(text: &str) -> Json {
    Json::String(text.to_string())
}

fn n(value: u64) -> Json {
    Json::Number(Number::PosInt(value))
}

fn obj(members: Vec<(&str, Json)>) -> Json {
    Json::Object(members.into_iter().map(|(k, v)| (k.to_string(), v)).collect())
}

fn bench(path: &str) -> Json {
    obj(vec![
        ("path", s(path)),
        ("requests", n(100)),
        ("concurrency", n(10)),
        ("postdata", s("./data/requests/post.txt")),
        ("port", n(9000)),
    ])
}

fn store(bin: &str, conf: &str, subnet: u64) -> Json {
    obj(vec![
        ("bin", s(bin)),
        ("arguments", Json::Array(vec![s(conf)])),
        (
            "vnics",
            Json::Array((1..=4).map(|k| s(&format!("192.168.22.{}{}/24", subnet, k))).collect()),
        ),
    ])
}

fn config() -> Json {
    obj(vec![
        ("directory", s("/proj")),
        ("build", s("make")),
        ("clean", s("make clean")),
        ("wait_seconds", n(1)),
        (
            "web",
            obj(vec![
                ("bin", s("./bin/web-server")),
                ("arguments", obj(vec![("ip", s("127.0.0.1")), ("port", n(8080)), ("config_path", s("web.conf"))])),
            ]),
        ),
        (
            "stores",
            Json::Array(vec![store("./bin/a", "a.conf", 1), store("./bin/b", "b.conf", 2)]),
        ),
        (
            "items",
            obj(vec![(
                "basic",
                obj(vec![(
                    "performance",
                    Json::Array(vec![obj(vec![("choose", bench("/api/choose")), ("drop", bench("/api/drop"))])]),
                )]),
            )]),
        ),
    ])
}

fn ok() -> Event {
    Event::Ran(CommandOutcome::Exited { success: true, stdout: vec![], stderr: vec![] })
}

fn run(in_dir: Option<&str>, command: &str) -> Action {
    Action::Run { in_dir: in_dir.map(|d| d.to_string()), command: command.to_string() }
}

fn start(command: &str) -> Action {
    Action::StartServer { dir: "/proj".to_string(), command: command.to_string(), wait_seconds: 1 }
}

fn ab(path: &str) -> String {
    format!(
        "./bin/ab-go -H \"content-type: application/json\" -n 100 -c 10 -p ./data/requests/post.txt -port 9000 http://127.0.0.1:8080{}",
        path
    )
}

fn step(session: &mut Session, event: Event) -> Action {
    assert!(session.awaits_event(&event));
    session.step(event)
}

#[test]
fn a_full_test_run_brings_interfaces_up_and_down_in_order() {
    let mut session = Session::new(Command::Run { password: "pw".to_string(), mode: "basic".to_string() }, config());
    assert_eq!(step(&mut session, Event::Start), run(None, "echo pw | sudo -S ls ."));
    assert_eq!(step(&mut session, ok()), run(None, "ls ./bin/ab-go"));
    assert_eq!(step(&mut session, ok()), run(Some("/proj"), "make"));
    assert_eq!(
        step(&mut session, ok()),
        start("./bin/web-server --ip 127.0.0.1 --port 8080 --config_path web.conf")
    );
    let mut action = step(&mut session, Event::Started(ServerStart::Running));
    for store in 0..2 {
        for index in 0..4 {
            let expected = format!(
                "echo pw | sudo -S ifconfig lo:{}{} 192.168.22.{}{}/24",
                store,
                index,
                store + 1,
                index + 1
            );
            assert_eq!(action, run(None, &expected));
            action = step(&mut session, ok());
        }
    }
    assert_eq!(action, start("./bin/a --config_path a.conf"));
    assert_eq!(step(&mut session, Event::Started(ServerStart::Running)), start("./bin/b --config_path b.conf"));
    assert_eq!(
        step(&mut session, Event::Started(ServerStart::Running)),
        Action::SpawnBench { command: ab("/api/choose") }
    );
    assert_eq!(step(&mut session, Event::Spawned(Ok(()))), Action::SpawnBench { command: ab("/api/drop") });
    assert_eq!(
        step(&mut session, Event::Spawned(Ok(()))),
        Action::RunBenches {
            password: "pw".to_string(),
            first: ("lo:03".to_string(), "192.168.22.14/24".to_string()),
            second: ("lo:13".to_string(), "192.168.22.24/24".to_string()),
        }
    );
    let ended = Event::BenchesEnded {
        choose_success: true,
        choose_stdout: b"choose ok".to_vec(),
        drop_success: false,
        drop_stdout: b"ignored".to_vec(),
    };
    assert_eq!(step(&mut session, ended), Action::KillServer { index: 0 });
    assert_eq!(step(&mut session, Event::Killed(Ok(()))), Action::KillServer { index: 1 });
    assert_eq!(step(&mut session, Event::Killed(Ok(()))), Action::KillServer { index: 2 });
    let mut action = step(&mut session, Event::Killed(Ok(())));
    for store in 0..2 {
        for index in 0..4 {
            assert_eq!(action, run(None, &format!("echo pw | sudo -S ifconfig lo:{}{} down", store, index)));
            action = step(&mut session, ok());
        }
    }
    assert_eq!(
        action,
        Action::Finish(Ok(vec![
            "-------TESTER RESULTS------".to_string(),
            "Perfermance test 1 times.".to_string(),
            "No.1 choose:\nchoose ok".to_string(),
            "No.1 drop:\n".to_string(),
            "-------TESTER RESULTS------".to_string(),
        ]))
    );
    assert!(!session.awaits_event(&Event::Start));
}

#[test]
fn check_command_probes_ab_go() {
    let mut session = Session::new(Command::Check, config());
    assert_eq!(step(&mut session, Event::Start), run(None, "ls ./bin/ab-go"));
    assert_eq!(step(&mut session, ok()), run(None, "sudo -n true"));
    assert_eq!(step(&mut session, ok()), Action::Finish(Ok(vec![])));
    let mut session = Session::new(Command::Check, config());
    step(&mut session, Event::Start);
    assert_eq!(
        step(&mut session, Event::Ran(CommandOutcome::Exited { success: false, stdout: vec![], stderr: vec![] })),
        Action::Finish(Err(TesterError::Failure("Checking tools finished. Please install all tools.".to_string())))
    );
}

#[test]
fn check_command_checks_sudo_privilege_after_the_tools() {
    let mut session = Session::new(Command::Check, config());
    step(&mut session, Event::Start);
    step(&mut session, ok());
    assert_eq!(
        step(&mut session, Event::Ran(CommandOutcome::Exited { success: false, stdout: vec![], stderr: vec![] })),
        Action::Finish(Err(TesterError::Failure(
            "Failed to get sudo privilege. Please check your sudo password".to_string()
        )))
    );
}

#[test]
fn tester_errors_describe_themselves() {
    let missing = TesterError::Config(ConfigError::MissingKey { key: "port".to_string() });
    assert_eq!(missing.describe(""), "Config don't have the key 'port'.");
    assert_eq!(missing.value(), None);
    let not_found = TesterError::Config(ConfigError::KeyNotFound { key: "web".to_string() });
    assert_eq!(not_found.describe(""), "Can't find the key 'web' in config file.");
    let wrong = TesterError::Config(ConfigError::NotUnsigned { key: "port".to_string(), value: s("80") });
    assert_eq!(wrong.value(), Some(&s("80")));
    assert_eq!(wrong.describe("\"80\""), "The value of key 'port' is '\"80\"' which should be an unsigned integer.");
    let not_string = TesterError::Config(ConfigError::NotString { key: "bin".to_string(), value: n(1) });
    assert_eq!(not_string.describe("1"), "The value of key 'bin' is '1' which should be a string.");
    let not_array = TesterError::Config(ConfigError::NotArray { what: "stores".to_string(), value: n(1) });
    assert_eq!(not_array.describe("Number(1)"), "stores is 'Number(1)', which should be an array.");
    let failure = TesterError::Failure("boom".to_string());
    assert_eq!(failure.describe("ignored"), "boom");
}

#[test]
fn build_and_clean_run_in_the_project_directory() {
    let mut session = Session::new(Command::Build, config());
    assert_eq!(step(&mut session, Event::Start), run(Some("/proj"), "make"));
    assert_eq!(
        step(&mut session, Event::Ran(CommandOutcome::Exited { success: false, stdout: vec![], stderr: b"e".to_vec() })),
        Action::Finish(Err(TesterError::Failure("Building system error:\ne".to_string())))
    );
    let mut session = Session::new(Command::Clean, config());
    assert_eq!(step(&mut session, Event::Start), run(Some("/proj"), "make clean"));
    assert_eq!(step(&mut session, ok()), Action::Finish(Ok(vec![])));
}

#[test]
fn a_missing_directory_fails_the_build() {
    let mut session = Session::new(Command::Build, obj(vec![]));
    assert_eq!(
        step(&mut session, Event::Start),
        Action::Finish(Err(TesterError::Config(ConfigError::MissingKey { key: "directory".to_string() })))
    );
}

#[test]
fn the_advanced_mode_is_refused_after_the_checks() {
    let mut session = Session::new(Command::Run { password: "pw".to_string(), mode: "advanced".to_string() }, config());
    step(&mut session, Event::Start);
    step(&mut session, ok());
    assert_eq!(
        step(&mut session, ok()),
        Action::Finish(Err(TesterError::Failure("Sorry, the advanced version is still not implemented.".to_string())))
    );
}

#[test]
fn a_failed_privilege_check_ends_the_run() {
    let mut session = Session::new(Command::Run { password: "pw".to_string(), mode: "basic".to_string() }, config());
    step(&mut session, Event::Start);
    assert_eq!(
        step(&mut session, Event::Ran(CommandOutcome::Exited { success: false, stdout: vec![], stderr: vec![] })),
        Action::Finish(Err(TesterError::Failure(
            "Failed to get sudo privilege. Please check your sudo password".to_string()
        )))
    );
}

#[test]
fn a_web_server_that_exits_ends_the_run() {
    let mut session = Session::new(Command::Run { password: "pw".to_string(), mode: "basic".to_string() }, config());
    step(&mut session, Event::Start);
    step(&mut session, ok());
    step(&mut session, ok());
    step(&mut session, ok());
    assert_eq!(
        step(&mut session, Event::Started(ServerStart::Exited)),
        Action::Finish(Err(TesterError::Failure("The store server isn't running.".to_string())))
    );
}

#[test]
fn too_few_interfaces_stop_the_benchmarks() {
    let mut small = config();
    if let Json::Object(members) = &mut small {
        for member in members.iter_mut() {
            if member.0 == "stores" {
                member.1 = Json::Array(vec![]);
            }
        }
    }
    let mut session = Session::new(Command::Run { password: "pw".to_string(), mode: "basic".to_string() }, small);
    step(&mut session, Event::Start);
    step(&mut session, ok());
    step(&mut session, ok());
    step(&mut session, ok());
    assert_eq!(
        step(&mut session, Event::Started(ServerStart::Running)),
        Action::SpawnBench { command: ab("/api/choose") }
    );
    step(&mut session, Event::Spawned(Ok(())));
    assert_eq!(
        step(&mut session, Event::Spawned(Ok(()))),
        Action::Abort("index out of bounds: the len is 0 but the index is 0".to_string())
    );
}

#[test]
fn a_benchmark_that_cannot_spawn_ends_the_run() {
    let mut small = config();
    if let Json::Object(members) = &mut small {
        for member in members.iter_mut() {
            if member.0 == "stores" {
                member.1 = Json::Array(vec![]);
            }
        }
    }
    let mut session = Session::new(Command::Run { password: "pw".to_string(), mode: "basic".to_string() }, small);
    step(&mut session, Event::Start);
    step(&mut session, ok());
    step(&mut session, ok());
    step(&mut session, ok());
    step(&mut session, Event::Started(ServerStart::Running));
    assert_eq!(
        step(&mut session, Event::Spawned(Err("busy".to_string()))),
        Action::Finish(Err(TesterError::Failure("Can't run your server: busy.".to_string())))
    );
}

#[test]
fn an_empty_build_command_is_still_run() {
    let mut with_empty = config();
    if let Json::Object(members) = &mut with_empty {
        for member in members.iter_mut() {
            if member.0 == "build" {
                member.1 = s("");
            }
        }
    }
    let mut session = Session::new(Command::Build, with_empty);
    assert_eq!(step(&mut session, Event::Start), run(Some("/proj"), ""));
    assert_eq!(step(&mut session, ok()), Action::Finish(Ok(vec![])));
}
