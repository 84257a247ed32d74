use harness_desktop::harness::{
    announced_url, check_bundle, entry_path, launch_arguments, runtime_paths, AuthenticatedUrl,
    LaunchFailure,
};
use harness_desktop::process::{
    continue_stop, process_group, taskkill_arguments, HarnessProcess, StopAction, StopEvent,
    StopPhase,
};
use harness_desktop::startup::{
    begin_wait, continue_wait, duties, found, AppEvent, WaitAction, WaitEvent, WaitPhase,
};
use harness_desktop::web_url::WebUrl;

#[test]
fn runtime_lies_in_the_resources() {
    let dir = "/app".to_string();
    let (node, harness) = runtime_paths(&dir, false);
    assert_eq!(node.base, "/app");
    assert_eq!(node.segments, vec!["resources", "node", "bin", "node"]);
    assert_eq!(harness.segments, vec!["resources", "harness"]);
    let entry = entry_path(harness);
    assert_eq!(entry.base, "/app");
    assert_eq!(
        entry.segments,
        vec!["resources", "harness", "node_modules", "@deepseek-ai", "dsh", "lib", "bin.js"]
    );
    let (node, harness) = runtime_paths(&dir, true);
    assert_eq!(node.segments, vec!["resources", "node", "node.exe"]);
    assert_eq!(harness.segments, vec!["resources", "harness"]);
}

#[test]
fn an_incomplete_bundle_is_refused() {
    assert!(check_bundle(true, true).is_ok());
    for (node, entry) in [(false, true), (true, false), (false, false)] {
        let failure = check_bundle(node, entry).err().unwrap();
        assert_eq!(failure.message(), "Harness 运行资源不完整，请重新安装应用。");
    }
}

#[test]
fn launch_failures_say_why() {
    let why = || "why".to_string();
    assert_eq!(LaunchFailure::Resources(why()).message(), "无法定位应用资源：why");
    assert_eq!(LaunchFailure::Port(why()).message(), "无法分配本地端口：why");
    assert_eq!(LaunchFailure::Spawn(why()).message(), "无法启动 Harness：why");
}

#[test]
fn the_service_is_told_its_port() {
    assert_eq!(
        launch_arguments(45693),
        vec!["web", "--no-open", "--host", "127.0.0.1", "--port", "45693"]
    );
}

#[test]
fn announcements() {
    let url = "http://127.0.0.1:45693/?token=abc";
    assert_eq!(announced_url(&format!("dsh web: {url}")).as_deref(), Some(url));
    assert_eq!(announced_url(&format!("[info] dsh web:   {url} (ready)")).as_deref(), Some(url));
    assert_eq!(announced_url("dsh web: "), None);
    assert_eq!(announced_url("dsh web:\tx"), None);
    assert_eq!(announced_url("listening"), None);
    let other = "http://127.0.0.1:2/?token=";
    assert_eq!(announced_url(&format!("中 dsh web: {other} dsh web: {url}")).as_deref(), Some(other));
    assert_eq!(announced_url(&format!("dsh web: dsh web: {url}")).as_deref(), Some(url));
    let line = format!("dsh web: {url}? dsh web: http://[ dsh web: {other}");
    assert_eq!(announced_url(&line).as_deref(), Some(format!("{url}?").as_str()));
    let line = format!("dsh web: http://x dsh web:\t{url} dsh web:  {other} {url}");
    assert_eq!(announced_url(&line).as_deref(), Some(other));
    assert_eq!(announced_url(&format!("dsh web: http://x {url}")), None);
    for word in [
        "starting",
        "http://127.0.0.1:45693/",
        "http://127.0.0.1:45693?token=abc",
        "https://127.0.0.1:45693/?token=abc",
        "HTTP://127.0.0.1:45693/?token=abc",
        "127.0.0.1:45693/?token=abc",
    ] {
        assert_eq!(announced_url(&format!("dsh web: {word}")), None, "{word}");
    }
}

#[test]
fn a_stream_is_read_until_it_announces() {
    let mut target = AuthenticatedUrl::new();
    assert!(!target.offer("starting"));
    assert!(target.url.is_none());
    assert!(target.offer("dsh web: http://127.0.0.1:1/?token=t"));
    assert_eq!(target.url.as_deref(), Some("http://127.0.0.1:1/?token=t"));
    assert!(!target.offer("dsh web: "));
    assert_eq!(target.url.as_deref(), Some("http://127.0.0.1:1/?token=t"));
    assert!(!target.offer("dsh web: http://127.0.0.1:2/"));
    assert_eq!(target.url.as_deref(), Some("http://127.0.0.1:1/?token=t"));
    assert!(target.offer("dsh web: http://127.0.0.1:2/?token=u"));
    assert_eq!(target.url.as_deref(), Some("http://127.0.0.1:2/?token=u"));
}

#[test]
fn a_word_that_is_no_address_is_passed_over() {
    let mut target = AuthenticatedUrl::new();
    let stream = "dsh web: starting\ndsh web: http://127.0.0.1:45693/?token=abc\n";
    let found: Vec<bool> = stream.lines().map(|line| target.offer(line)).collect();
    assert_eq!(found, vec![false, true]);
    assert_eq!(target.url.as_deref(), Some("http://127.0.0.1:45693/?token=abc"));
}

#[test]
fn what_an_exited_process_has_started_is_killed() {
    let mut process = HarnessProcess { child: Some(7) };
    let step = process.stop();
    assert_eq!(step.action, Some(StopAction::Terminate { pid: 7 }));
    let step = continue_stop(step.phase, StopEvent::Done);
    assert_eq!(step.action, Some(StopAction::ReadClock));
    let step = continue_stop(step.phase, StopEvent::Elapsed { millis: 0 });
    assert_eq!(step.action, Some(StopAction::Poll));
    let step = continue_stop(step.phase, StopEvent::Exited { exited: false });
    assert_eq!(step.action, Some(StopAction::Sleep { millis: 50 }));
    let step = continue_stop(step.phase, StopEvent::Done);
    let step = continue_stop(step.phase, StopEvent::Elapsed { millis: 2999 });
    assert_eq!(step.action, Some(StopAction::Poll));
    let step = continue_stop(step.phase, StopEvent::Exited { exited: true });
    assert_eq!(step.action, Some(StopAction::Kill { pid: 7 }));
    let step = continue_stop(step.phase, StopEvent::Done);
    assert_eq!(step.action, Some(StopAction::Wait));
    let step = continue_stop(step.phase, StopEvent::Done);
    assert_eq!(step.action, None);
    assert_eq!(step.phase, StopPhase::Stopped);
}

#[test]
fn a_process_that_hangs_is_killed_and_reaped() {
    let timing = StopPhase::Timing { pid: 7 };
    let step = continue_stop(timing, StopEvent::Elapsed { millis: 3000 });
    assert_eq!(step.action, Some(StopAction::Kill { pid: 7 }));
    let step = continue_stop(step.phase, StopEvent::Done);
    assert_eq!(step.action, Some(StopAction::Wait));
    let step = continue_stop(step.phase, StopEvent::Done);
    assert_eq!(step.action, None);
}

#[test]
fn a_process_is_stopped_once() {
    let mut process = HarnessProcess { child: Some(7) };
    process.stop();
    let again = process.stop();
    assert_eq!(again.action, None);
    assert_eq!(again.phase, StopPhase::Stopped);
}

#[test]
fn signals_go_to_the_whole_group() {
    assert_eq!(process_group(7), -7);
    assert_eq!(process_group(i32::MAX as u32), -i32::MAX);
    assert_eq!(process_group(u32::MAX), 1);
    assert_eq!(process_group(0x8000_0001), -(0x8000_0001u32 as i32));
    assert_eq!(taskkill_arguments(42), vec!["/PID", "42", "/T", "/F"]);
}

#[test]
fn the_window_waits_for_the_service() {
    let mut target = AuthenticatedUrl::new();
    let step = begin_wait();
    assert_eq!(step.action, Some(WaitAction::ReadClock));
    let step = continue_wait(step.phase, WaitEvent::Elapsed { millis: 0 }, &target);
    assert_eq!(step.action, Some(WaitAction::Connect { millis: 250 }));
    let step = continue_wait(step.phase, WaitEvent::Connected { connected: true }, &target);
    assert_eq!(step.action, Some(WaitAction::Sleep { millis: 150 }));
    let step = continue_wait(step.phase, WaitEvent::Done, &target);
    assert_eq!(step.action, Some(WaitAction::ReadClock));
    target.offer("dsh web: http://LOCALHOST:1/?token=t");
    let step = continue_wait(step.phase, WaitEvent::Elapsed { millis: 44_999 }, &target);
    let refused = continue_wait(step.phase, WaitEvent::Connected { connected: false }, &target);
    assert_eq!(refused.action, Some(WaitAction::Sleep { millis: 150 }));
    let step = continue_wait(step.phase, WaitEvent::Connected { connected: true }, &target);
    assert_eq!(
        step.action,
        Some(WaitAction::Navigate { url: "http://localhost:1/?token=t".to_string() })
    );
    let step = continue_wait(step.phase, WaitEvent::Done, &target);
    assert_eq!(step.action, None);
    assert_eq!(step.phase, WaitPhase::Over);
    let again = continue_wait(step.phase, WaitEvent::Connected { connected: true }, &target);
    assert_eq!(again.action, None);
}

#[test]
fn the_wait_gives_up() {
    let mut target = AuthenticatedUrl::new();
    let late = continue_wait(WaitPhase::Timing, WaitEvent::Elapsed { millis: 45_000 }, &target);
    assert_eq!(late.action, None);
    assert_eq!(late.phase, WaitPhase::Over);
    assert!(target.offer("dsh web: http://:1/?token=t"));
    let bad = continue_wait(WaitPhase::Connecting, WaitEvent::Connected { connected: true }, &target);
    assert_eq!(bad.action, None);
    assert_eq!(bad.phase, WaitPhase::Over);
}

#[test]
fn a_parsed_address_is_loaded() {
    let url = WebUrl { scheme: "x".to_string(), text: "x:y".to_string() };
    assert_eq!(found(Ok(url)).action, Some(WaitAction::Navigate { url: "x:y".to_string() }));
    assert_eq!(found(Err("bad".to_string())).action, None);
}

#[test]
fn the_end_of_things() {
    let due = duties(AppEvent::CloseRequested);
    assert!(due.stop_service && !due.withdraw);
    for event in [AppEvent::Exit, AppEvent::ExitRequested] {
        let due = duties(event);
        assert!(due.stop_service && due.withdraw);
    }
    let due = duties(AppEvent::Other);
    assert!(!due.stop_service && !due.withdraw);
}
