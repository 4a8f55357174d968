use course_system_tester::flap::{flap_awaits_event, flap_step, FlapAction, FlapEvent, FlapStage};
use course_system_tester::process::CommandOutcome;

fn pair(alias: &str, address: &str) -> (String, String) {
    (alias.to_string(), address.to_string())
}

fn ran(success: bool) -> FlapEvent {
    FlapEvent::Ran(CommandOutcome::Exited { success, stdout: vec![], stderr: b"err".to_vec() })
}

fn run(command: &str) -> FlapAction {
    FlapAction::Run { command: command.to_string() }
}

#[test]
fn a_round_takes_both_interfaces_down_and_up_again() {
    let first = pair("lo:03", "192.168.22.104/24");
    let second = pair("lo:13", "192.168.22.204/24");
    let go = |stage: FlapStage, event: FlapEvent| {
        assert!(flap_awaits_event(stage, &event));
        flap_step(stage, "pw", &first, &second, event)
    };
    let (stage, action) = go(FlapStage::PauseUp, FlapEvent::StopChecked { stop: false });
    assert_eq!((stage, action), (FlapStage::DownFirst, run("echo pw | sudo -S ifconfig lo:03 down")));
    let (stage, action) = go(stage, ran(false));
    assert_eq!((stage, action), (FlapStage::DownSecond, run("echo pw | sudo -S ifconfig lo:13 down")));
    let (stage, action) = go(stage, ran(true));
    assert_eq!((stage, action), (FlapStage::PauseDown, FlapAction::Sleep { millis: 200 }));
    let (stage, action) = go(stage, FlapEvent::Slept);
    assert_eq!((stage, action), (FlapStage::UpFirst, run("echo pw | sudo -S ifconfig lo:03 192.168.22.104/24")));
    let (stage, action) = go(stage, ran(true));
    assert_eq!((stage, action), (FlapStage::UpSecond, run("echo pw | sudo -S ifconfig lo:13 192.168.22.204/24")));
    let (stage, action) = go(stage, ran(true));
    assert_eq!((stage, action), (FlapStage::PauseUp, FlapAction::Sleep { millis: 200 }));
    let (stage, action) = go(stage, FlapEvent::Slept);
    assert_eq!((stage, action), (FlapStage::PauseUp, FlapAction::CheckStop));
    let (stage, action) = go(stage, FlapEvent::StopChecked { stop: true });
    assert_eq!((stage, action), (FlapStage::PauseUp, FlapAction::Stop));
}

#[test]
fn a_failed_bring_up_stops_the_flapping() {
    let first = pair("lo:03", "a");
    let second = pair("lo:13", "b");
    assert_eq!(
        flap_step(FlapStage::UpFirst, "pw", &first, &second, ran(false)),
        (FlapStage::UpFirst, FlapAction::Abort("Adding virtual nic lo:03 a error: err.".to_string()))
    );
    assert_eq!(
        flap_step(
            FlapStage::DownFirst,
            "pw",
            &first,
            &second,
            FlapEvent::Ran(CommandOutcome::SpawnFailed("gone".to_string()))
        ),
        (FlapStage::DownFirst, FlapAction::Abort("Removing virtual nic lo:03 error: gone.".to_string()))
    );
    assert!(!flap_awaits_event(FlapStage::PauseDown, &ran(true)));
}
