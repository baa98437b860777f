use xcraft::destination::Destination;
use xcraft::launch::{
    report_pid,
    first_line, launch, launch_step, xcode_major_version, LaunchAction, LaunchEvent, LaunchOptions,
    LaunchOutcome, LaunchStage, RunMode,
};
use xcraft::xcodebuild::LaunchInfo;

fn info(exec: Option<&str>) -> LaunchInfo {
    LaunchInfo {
        app_path: "/b/App.app".into(),
        executable_path: exec.map(|e| e.to_string()),
        bundle_id: "com.example.App".into(),
    }
}

/// Runs a launch to its end, answering each action with the next of
/// `answers` where one is needed, and records the actions.
fn drive(opts: &LaunchOptions, mut answer: impl FnMut(&LaunchAction) -> LaunchEvent) -> (Vec<String>, LaunchOutcome) {
    let mut log = Vec::new();
    let mut step = launch(opts);
    for _ in 0..64 {
        let event = match &step.action {
            LaunchAction::Finish(_) => break,
            LaunchAction::Note { message } => {
                log.push(format!("note {message}"));
                LaunchEvent::Noted
            }
            LaunchAction::Run { command, mode } => {
                log.push(format!("run {:?} {} {}", mode, command.program, command.args.join(" ")));
                answer(&step.action)
            }
            LaunchAction::CheckExists { path } => {
                log.push(format!("exists {path}"));
                answer(&step.action)
            }
            LaunchAction::CreateTempFile => {
                log.push("temp".to_string());
                answer(&step.action)
            }
            LaunchAction::ReadPid { path } => {
                log.push(format!("pid {path}"));
                answer(&step.action)
            }
        };
        step = launch_step(opts, step.stage, event);
    }
    match step.action {
        LaunchAction::Finish(o) => (log, o),
        _ => panic!("launch did not finish"),
    }
}

fn ok_run(output: &str) -> LaunchEvent {
    LaunchEvent::Ran { success: true, output: output.to_string() }
}

#[test]
fn simulator_launch_flow() {
    let dest = Destination::Simulator { udid: "SIM".into(), name: "".into(), os: "".into(), state: None };
    let info = info(None);
    let args = vec!["-flag".to_string()];
    let env = vec![("KEY".to_string(), "v".to_string())];
    let opts = LaunchOptions { dest: &dest, info: &info, args: &args, env: &env, foreground_simulator: false, install_only: false };
    let mut env_seen = Vec::new();
    let (log, outcome) = drive(&opts, |a| {
        if let LaunchAction::Run { command, mode: RunMode::Inherit } = a {
            env_seen = command.env.clone();
        }
        ok_run("")
    });
    assert_eq!(
        log,
        vec![
            "run Capture xcrun simctl boot SIM",
            "run Status open -g -a Simulator",
            "note Installing on simulator SIM...",
            "run Capture xcrun simctl install SIM /b/App.app",
            "note Launching com.example.App...",
            "run Inherit xcrun simctl launch --console-pty --terminate-running-process SIM com.example.App -flag",
        ]
    );
    assert!(matches!(outcome, LaunchOutcome::Success));
    assert_eq!(env_seen, vec![("SIMCTL_CHILD_KEY".to_string(), "v".to_string())]);
}

#[test]
fn simulator_install_only_and_foreground() {
    let dest = Destination::Simulator { udid: "SIM".into(), name: "".into(), os: "".into(), state: None };
    let info = info(None);
    let opts = LaunchOptions { dest: &dest, info: &info, args: &[], env: &[], foreground_simulator: true, install_only: true };
    let (log, outcome) = drive(&opts, |_| ok_run(""));
    assert_eq!(log[1], "run Status open -a Simulator");
    assert_eq!(log.last().unwrap(), "note Install-only: app installed, skipping launch");
    assert!(!log.iter().any(|l| l.starts_with("run Inherit")));
    assert!(matches!(outcome, LaunchOutcome::Success));
}

#[test]
fn simulator_install_failure_propagates() {
    let dest = Destination::Simulator { udid: "SIM".into(), name: "".into(), os: "".into(), state: None };
    let info = info(None);
    let opts = LaunchOptions { dest: &dest, info: &info, args: &[], env: &[], foreground_simulator: true, install_only: false };
    let (_, outcome) = drive(&opts, |a| match a {
        LaunchAction::Run { command, .. } if command.args.get(1).map(|s| s.as_str()) == Some("install") => {
            LaunchEvent::Ran { success: false, output: String::new() }
        }
        _ => ok_run(""),
    });
    assert!(matches!(outcome, LaunchOutcome::CommandFailed { context: None }));
}

#[test]
fn device_launch_flow_with_console() {
    let dest = Destination::Device { udid: "UDID".into(), identifier: "CORE".into(), name: "".into(), device_type: "".into() };
    let info = info(None);
    let env = vec![("A".to_string(), "1".to_string())];
    let opts = LaunchOptions { dest: &dest, info: &info, args: &[], env: &env, foreground_simulator: true, install_only: false };
    let (log, outcome) = drive(&opts, |a| match a {
        LaunchAction::Run { command, .. } if command.args.first().map(|s| s.as_str()) == Some("xcodebuild") => {
            ok_run("Xcode 16.1\nBuild version 16B40\n")
        }
        LaunchAction::CreateTempFile => LaunchEvent::TempFile(Some("/tmp/report.json".into())),
        LaunchAction::ReadPid { .. } => LaunchEvent::Pid(Some(4242)),
        _ => ok_run(""),
    });
    assert_eq!(
        log,
        vec![
            "note Installing on device CORE...",
            "run Capture xcrun devicectl device install app --device CORE /b/App.app",
            "run Capture xcrun xcodebuild -version",
            "temp",
            "note Launching com.example.App...",
            "run Inherit xcrun devicectl device process launch --console --json-output /tmp/report.json --terminate-existing --device CORE com.example.App",
            "pid /tmp/report.json",
            "note App launched with PID: 4242",
        ]
    );
    assert!(matches!(outcome, LaunchOutcome::Success));
}

#[test]
fn device_launch_without_console_and_failures() {
    let dest = Destination::Device { udid: "U".into(), identifier: "C".into(), name: "".into(), device_type: "".into() };
    let info = info(None);
    let opts = LaunchOptions { dest: &dest, info: &info, args: &[], env: &[], foreground_simulator: true, install_only: false };
    let (log, outcome) = drive(&opts, |a| match a {
        LaunchAction::Run { command, .. } if command.args.first().map(|s| s.as_str()) == Some("xcodebuild") => {
            ok_run("Xcode 15.4\n")
        }
        LaunchAction::Run { mode: RunMode::Inherit, .. } => LaunchEvent::Ran { success: false, output: String::new() },
        LaunchAction::CreateTempFile => LaunchEvent::TempFile(Some("/t".into())),
        _ => ok_run(""),
    });
    assert!(log.contains(&"run Inherit xcrun devicectl device process launch --json-output /t --terminate-existing --device C com.example.App".to_string()));
    match outcome {
        LaunchOutcome::CommandFailed { context } => assert_eq!(context.as_deref(), Some("devicectl launch failed")),
        _ => panic!(),
    }
    let (_, outcome) = drive(&opts, |a| match a {
        LaunchAction::CreateTempFile => LaunchEvent::TempFile(None),
        _ => ok_run(""),
    });
    assert!(matches!(outcome, LaunchOutcome::TempFileFailed));
}

#[test]
fn device_install_only() {
    let dest = Destination::Device { udid: "U".into(), identifier: "C".into(), name: "".into(), device_type: "".into() };
    let info = info(None);
    let opts = LaunchOptions { dest: &dest, info: &info, args: &[], env: &[], foreground_simulator: true, install_only: true };
    let (log, outcome) = drive(&opts, |_| ok_run(""));
    assert_eq!(log.len(), 3);
    assert_eq!(log[2], "note Install-only: app installed, skipping launch");
    assert!(matches!(outcome, LaunchOutcome::Success));
}

#[test]
fn macos_flows() {
    let dest = Destination::MacOS { arch: "arm64".into() };
    let with_exec = info(Some("/b/App.app/Contents/MacOS/App"));
    let args = vec!["--x".to_string()];
    let env = vec![("E".to_string(), "1".to_string())];
    let opts = LaunchOptions { dest: &dest, info: &with_exec, args: &args, env: &env, foreground_simulator: true, install_only: false };
    let (log, outcome) = drive(&opts, |a| match a {
        LaunchAction::CheckExists { .. } => LaunchEvent::Exists(true),
        LaunchAction::Run { command, .. } => {
            assert_eq!(command.env, vec![("E".to_string(), "1".to_string())]);
            ok_run("")
        }
        _ => ok_run(""),
    });
    assert_eq!(
        log,
        vec![
            "exists /b/App.app/Contents/MacOS/App",
            "note Running: /b/App.app/Contents/MacOS/App",
            "run Inherit /b/App.app/Contents/MacOS/App --x",
        ]
    );
    assert!(matches!(outcome, LaunchOutcome::Success));

    let (_, outcome) = drive(&opts, |_| LaunchEvent::Exists(false));
    match outcome {
        LaunchOutcome::ExecutableNotFound { path } => assert_eq!(path, "/b/App.app/Contents/MacOS/App"),
        _ => panic!(),
    }

    let install = LaunchOptions { install_only: true, ..opts };
    let (log, _) = drive(&install, |_| LaunchEvent::Exists(true));
    assert_eq!(log[1], "note Install-only: skipping launch (macOS has no separate install step)");

    let no_exec = info(None);
    let opts = LaunchOptions { dest: &dest, info: &no_exec, args: &[], env: &[], foreground_simulator: true, install_only: false };
    assert!(matches!(launch(&opts).action, LaunchAction::Finish(LaunchOutcome::ExecutablePathMissing)));
}

#[test]
fn unexpected_events_finish() {
    let dest = Destination::MacOS { arch: "arm64".into() };
    let i = info(Some("/e"));
    let opts = LaunchOptions { dest: &dest, info: &i, args: &[], env: &[], foreground_simulator: true, install_only: false };
    let step = launch_step(&opts, LaunchStage::MacChecked, LaunchEvent::Noted);
    assert!(matches!(step.action, LaunchAction::Finish(LaunchOutcome::UnexpectedEvent)));
    let step = launch_step(&opts, LaunchStage::SimOpened, LaunchEvent::Ran { success: true, output: String::new() });
    assert!(matches!(step.action, LaunchAction::Finish(LaunchOutcome::UnexpectedEvent)));
    let step = launch_step(&opts, LaunchStage::Finished, LaunchEvent::Started);
    assert!(matches!(step.stage, LaunchStage::Finished));
}

#[test]
fn xcode_versions() {
    assert_eq!(xcode_major_version("Xcode 16.0\nBuild version 16A242d\n"), Some(16));
    assert_eq!(xcode_major_version("Xcode 15\r\n"), Some(15));
    assert_eq!(xcode_major_version("Xcode +9.4"), Some(9));
    assert_eq!(xcode_major_version("xcode 16.0"), None);
    assert_eq!(xcode_major_version("Xcode beta"), None);
    assert_eq!(xcode_major_version("Xcode 99999999999.1"), None);
    assert_eq!(xcode_major_version(""), None);
    assert_eq!(xcode_major_version("\nXcode 16.0"), None);
}

#[test]
fn first_lines() {
    assert_eq!(first_line("a\r\nb").as_deref(), Some("a"));
    assert_eq!(first_line("a\rb\nc").as_deref(), Some("a\rb"));
    assert_eq!(first_line("abc\r").as_deref(), Some("abc\r"));
    assert_eq!(first_line("\n").as_deref(), Some(""));
    assert_eq!(first_line(""), None);
}

#[test]
fn pids_from_launch_reports() {
    let report = r#"{"info":{"outcome":"success"},"result":{"process":{"processIdentifier":4242}}}"#;
    assert_eq!(report_pid(report), Some(4242));
    assert_eq!(report_pid(r#"{"result":{"process":{}}}"#), None);
    assert_eq!(report_pid(r#"{"result":{"process":{"processIdentifier":-1}}}"#), None);
    assert_eq!(report_pid(r#"{"result":{"process":{"processIdentifier":"12"}}}"#), None);
    assert_eq!(report_pid("not json"), None);
}
