use course_system_tester::bench::{ab_test_command, bench_result, performance};
use course_system_tester::check::{
    check_mode, check_privilege, check_tool_exist, check_tools, privilege_check_command, tool_check_command,
};
use course_system_tester::config::ConfigError;
use course_system_tester::json::{Json, Number};
use course_system_tester::process::CommandOutcome;
use course_system_tester::project::{build_system, clean};
use course_system_tester::report::report_lines;
use course_system_tester::server::{server_command, try_kill, try_run, ServerStart};
use course_system_tester::vnic::{
    add_virtual_nic, add_vnic_command, remove_virtual_nic, remove_vnic_command, vnic_alias,
};

fn exited(success: bool, stderr: &[u8]) -> CommandOutcome {
    CommandOutcome::Exited { success, stdout: vec![], stderr: stderr.to_vec() }
}

#[test]
fn tool_check() {
    assert_eq!(tool_check_command("ab-go"), "ls ./bin/ab-go");
    assert!(check_tool_exist(&exited(true, b"")));
    assert!(!check_tool_exist(&exited(false, b"")));
    assert!(!check_tool_exist(&CommandOutcome::SpawnFailed("no bash".to_string())));
    assert_eq!(check_tools(true), Ok(()));
    assert_eq!(check_tools(false), Err("Checking tools finished. Please install all tools.".to_string()));
}

#[test]
fn privilege_check() {
    assert_eq!(privilege_check_command("pw"), "echo pw | sudo -S ls .");
    assert_eq!(check_privilege(&exited(true, b"")), Ok(()));
    assert_eq!(
        check_privilege(&exited(false, b"")),
        Err("Failed to get sudo privilege. Please check your sudo password".to_string())
    );
    assert_eq!(
        check_privilege(&CommandOutcome::SpawnFailed("denied".to_string())),
        Err("Run the check command error: denied.".to_string())
    );
}

#[test]
fn mode_check() {
    assert_eq!(check_mode(Ok(()), Ok(()), "basic"), Ok(()));
    assert_eq!(
        check_mode(Ok(()), Ok(()), "advanced"),
        Err("Sorry, the advanced version is still not implemented.".to_string())
    );
    assert_eq!(
        check_mode(Ok(()), Ok(()), "fast"),
        Err("Unknown mode fast, which should be 'basic' or 'advanced'.".to_string())
    );
    assert_eq!(check_mode(Err("p".to_string()), Err("t".to_string()), "fast"), Err("p".to_string()));
    assert_eq!(check_mode(Ok(()), Err("t".to_string()), "fast"), Err("t".to_string()));
}

#[test]
fn build_and_clean_verdicts() {
    assert_eq!(build_system(&exited(true, b"")), Ok(()));
    assert_eq!(build_system(&exited(false, b"oops")), Err("Building system error:\noops".to_string()));
    assert_eq!(
        build_system(&exited(false, b"bad \xff byte")),
        Err("Building system error:\nbad \u{FFFD} byte".to_string())
    );
    assert_eq!(
        build_system(&CommandOutcome::SpawnFailed("No such file or directory (os error 2)".to_string())),
        Err("Run system build command error: No such file or directory (os error 2).".to_string())
    );
    assert_eq!(clean(&exited(true, b"")), Ok(()));
    assert_eq!(clean(&exited(false, b"x")), Err("Cleaning system error:\nx".to_string()));
}

#[test]
fn vnic_commands_and_verdicts() {
    assert_eq!(add_vnic_command("pw", "lo:00", "192.168.22.101/24"), "echo pw | sudo -S ifconfig lo:00 192.168.22.101/24");
    assert_eq!(remove_vnic_command("pw", "lo:00"), "echo pw | sudo -S ifconfig lo:00 down");
    assert_eq!(vnic_alias(1, 2), "lo:12");
    assert_eq!(vnic_alias(0, 3), "lo:03");
    assert_eq!(vnic_alias(10, 11), "lo:1011");
    assert_eq!(add_virtual_nic("lo:00", "1.2.3.4/24", &exited(true, b"")), Ok(()));
    assert_eq!(
        add_virtual_nic("lo:00", "1.2.3.4/24", &exited(false, b"SIOCSIFADDR: denied")),
        Err("Adding virtual nic lo:00 1.2.3.4/24 error: SIOCSIFADDR: denied.".to_string())
    );
    assert_eq!(
        add_virtual_nic("lo:00", "1.2.3.4/24", &CommandOutcome::SpawnFailed("gone".to_string())),
        Err("Adding virtual nic lo:00 1.2.3.4/24 error: gone.".to_string())
    );
    assert_eq!(remove_virtual_nic("lo:00", &exited(false, b"no such device")), Ok(()));
    assert_eq!(
        remove_virtual_nic("lo:00", &CommandOutcome::SpawnFailed("gone".to_string())),
        Err("Removing virtual nic lo:00 error: gone.".to_string())
    );
}

#[test]
fn server_verdicts() {
    assert_eq!(server_command("./bin/store", "--config_path a.conf"), "./bin/store --config_path a.conf");
    assert_eq!(try_run(&ServerStart::Running), Ok(()));
    assert_eq!(try_run(&ServerStart::Exited), Err("The store server isn't running.".to_string()));
    assert_eq!(
        try_run(&ServerStart::SpawnFailed("e".to_string())),
        Err("Can't run your store server: e.".to_string())
    );
    assert_eq!(
        try_run(&ServerStart::WaitFailed("w".to_string())),
        Err("Can't wait the store server to run: w.".to_string())
    );
    assert_eq!(try_kill(&None), Ok(()));
    assert_eq!(try_kill(&Some(Ok(()))), Ok(()));
    assert_eq!(
        try_kill(&Some(Err("k".to_string()))),
        Err("Kill the store server failed: k.".to_string())
    );
}

fn bench_item() -> Json {
    Json::Object(vec![
        ("path".to_string(), Json::String("/api/choose".to_string())),
        ("requests".to_string(), Json::Number(Number::PosInt(100000))),
        ("concurrency".to_string(), Json::Number(Number::PosInt(1000))),
        ("postdata".to_string(), Json::String("./data/requests/choose.txt".to_string())),
        ("port".to_string(), Json::Number(Number::PosInt(8081))),
    ])
}

#[test]
fn ab_go_command_line() {
    assert_eq!(
        ab_test_command("http://127.0.0.1:8080", &bench_item()),
        Ok("./bin/ab-go -H \"content-type: application/json\" -n 100000 -c 1000 -p ./data/requests/choose.txt -port 8081 http://127.0.0.1:8080/api/choose".to_string())
    );
    assert_eq!(
        ab_test_command("u", &Json::Object(vec![])),
        Err(ConfigError::MissingKey { key: "path".to_string() })
    );
}

#[test]
fn performance_items_must_be_an_array() {
    assert_eq!(performance(&Json::Array(vec![bench_item()])), Ok(vec![bench_item()]));
    assert_eq!(
        performance(&Json::Null),
        Err(ConfigError::NotArray { what: "Performance item".to_string(), value: Json::Null })
    );
}

#[test]
fn bench_results_keep_stdout_of_successes() {
    assert_eq!(bench_result(true, &b"Rps: 6806rps".to_vec()), "Rps: 6806rps");
    assert_eq!(bench_result(false, &b"Rps: 6806rps".to_vec()), "");
}

#[test]
fn report_lists_each_item() {
    let lines = report_lines(&vec![("c1".to_string(), "d1".to_string()), ("c2".to_string(), "d2".to_string())]);
    assert_eq!(
        lines,
        vec![
            "-------TESTER RESULTS------",
            "Perfermance test 2 times.",
            "No.1 choose:\nc1",
            "No.1 drop:\nd1",
            "No.2 choose:\nc2",
            "No.2 drop:\nd2",
            "-------TESTER RESULTS------",
        ]
    );
    assert_eq!(
        report_lines(&vec![]),
        vec!["-------TESTER RESULTS------", "Perfermance test 0 times.", "-------TESTER RESULTS------"]
    );
}
