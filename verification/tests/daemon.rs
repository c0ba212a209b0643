use signal_cli_api::cli::{next_attempt, serving, BindAttempt, Serving, FALLBACK_LISTEN};
use signal_cli_api::daemon::{
    find_signal_cli, kill_process_group, spawn, KillStep, Launch, ManagedDaemon, Signal,
    SpawnAction, SpawnEvent, Started, HEALTH_TIMEOUT_SECS, START_LIMIT_NANOS,
};
use signal_cli_api::text::{decimal_text, same_text, trim};

fn started() -> Started {
    Started { plan: Launch::new("/bin/signal-cli".to_string(), 1), pid: 7 }
}

fn failure(action: SpawnAction) -> String {
    match action {
        SpawnAction::Fail(e) => e,
        _ => panic!("not failed"),
    }
}

#[test]
fn group_is_terminated_then_killed() {
    assert_eq!(
        kill_process_group(42),
        vec![
            KillStep::Send { target: -42, signal: Signal::Terminate },
            KillStep::Sleep { secs: 2 },
            KillStep::Send { target: -42, signal: Signal::Kill },
        ]
    );
}

#[test]
fn shutdown_kills_the_child_last() {
    let d = ManagedDaemon::new(started());
    assert_eq!((d.pid, d.base_url.as_str()), (7, "http://127.0.0.1:1"));
    let steps = d.shutdown();
    assert_eq!(steps.len(), 4);
    assert_eq!(steps[0], KillStep::Send { target: -7, signal: Signal::Terminate });
    assert_eq!(steps[3], KillStep::KillChild);
}

#[test]
fn path_is_trimmed_output() {
    assert_eq!(
        find_signal_cli(true, &b" /usr/bin/signal-cli\r\n\n".to_vec()),
        Ok("/usr/bin/signal-cli".to_string())
    );
    assert_eq!(find_signal_cli(true, &vec![b'a', 0xff, b'\n']), Ok("a\u{fffd}".to_string()));
    assert_eq!(find_signal_cli(true, &vec![]), Ok(String::new()));
    assert_eq!(
        find_signal_cli(false, &b"/usr/bin/signal-cli\n".to_vec()),
        Err("signal-cli not found on $PATH. Install it or use --signal-cli <url> to connect to an existing daemon".to_string())
    );
}

#[test]
fn trim_agrees_with_std() {
    for code in 0..0x11_0000u32 {
        if let Some(c) = char::from_u32(code) {
            if c.is_whitespace() || code < 0x400 || (0x1600..0x3100).contains(&code) {
                let s = c.to_string();
                assert_eq!(trim(&s), s.trim());
            }
        }
    }
    for s in ["", " ", "\t\u{a0}\u{3000}", "a", " a b ", "\u{2028}\u{e9}\u{200b}\u{85}", "\u{200b} "] {
        assert_eq!(trim(s), s.trim());
    }
}

#[test]
fn decimal_agrees_with_std() {
    for n in [0, 9, 10, 11, 99, 100, 12345, 8080, u64::MAX - 1, u64::MAX] {
        assert_eq!(decimal_text(n), n.to_string());
    }
    assert!(same_text("\u{e9}", "\u{e9}"));
    assert!(!same_text("a", "ab"));
}

#[test]
fn launch_plan_names_the_port() {
    let plan = Launch::new("/bin/signal-cli".to_string(), 40123);
    assert_eq!(plan.bin, "/bin/signal-cli");
    assert_eq!(plan.addr, "127.0.0.1:40123");
    assert_eq!(plan.base_url, "http://127.0.0.1:40123");
    assert_eq!(plan.health_url, "http://127.0.0.1:40123/api/v1/check");
    assert_eq!(
        plan.args,
        vec!["daemon", "--http", "127.0.0.1:40123", "--no-receive-stdout", "--receive-mode", "on-start"]
    );
}

#[test]
fn start_goes_from_search_to_ready() {
    let bin = match spawn(SpawnEvent::Searched { success: true, stdout: b"/x/signal-cli\n".to_vec() }) {
        SpawnAction::FindPort { bin } => bin,
        _ => panic!("no program"),
    };
    assert_eq!(bin, "/x/signal-cli");
    let plan = match spawn(SpawnEvent::PortFound { bin, port: 40123 }) {
        SpawnAction::Launch(plan) => plan,
        _ => panic!("no plan"),
    };
    let mut started = match spawn(SpawnEvent::Launched(Started { plan, pid: 77 })) {
        SpawnAction::CheckClock(started) => started,
        _ => panic!("no clock"),
    };
    for status in [None, Some(199), Some(300), Some(503), Some(200)] {
        started = match spawn(SpawnEvent::Clock { started, elapsed_nanos: START_LIMIT_NANOS }) {
            SpawnAction::CheckChild(started) => started,
            _ => panic!("too late"),
        };
        started = match spawn(SpawnEvent::Child { started, exited: None }) {
            SpawnAction::CheckHealth { started, url } => {
                assert_eq!(url, "http://127.0.0.1:40123/api/v1/check");
                started
            }
            _ => panic!("not checked"),
        };
        started = match spawn(SpawnEvent::Health { started, status }) {
            SpawnAction::Sleep { started, millis } => {
                assert!(status != Some(200));
                assert_eq!(millis, 250);
                started
            }
            SpawnAction::Ready(d) => {
                assert_eq!(status, Some(200));
                assert_eq!((d.pid, d.base_url.as_str()), (77, "http://127.0.0.1:40123"));
                return;
            }
            _ => panic!("failed"),
        };
        started = match spawn(SpawnEvent::Slept(started)) {
            SpawnAction::CheckClock(started) => started,
            _ => panic!("no clock"),
        };
    }
    panic!("never ready");
}

#[test]
fn any_success_is_ready() {
    for status in [200, 204, 299] {
        match spawn(SpawnEvent::Health { started: started(), status: Some(status) }) {
            SpawnAction::Ready(d) => assert_eq!((d.pid, d.base_url.as_str()), (7, "http://127.0.0.1:1")),
            _ => panic!("not ready"),
        }
    }
    assert_eq!(HEALTH_TIMEOUT_SECS, 2);
}

#[test]
fn start_can_fail() {
    assert!(failure(spawn(SpawnEvent::Searched { success: false, stdout: vec![] }))
        .starts_with("signal-cli not found on $PATH."));
    assert_eq!(
        failure(spawn(SpawnEvent::Clock { started: started(), elapsed_nanos: 30_000_000_001 })),
        "signal-cli daemon failed to start within 30 seconds"
    );
    assert_eq!(
        failure(spawn(SpawnEvent::Child {
            started: started(),
            exited: Some("exit status: 1".to_string())
        })),
        "signal-cli exited with exit status: 1"
    );
}

#[test]
fn tls_takes_both_files_or_none() {
    match serving(Some("c".to_string()), Some("k".to_string())) {
        Ok(Serving::Tls { cert, key }) => assert_eq!((cert.as_str(), key.as_str()), ("c", "k")),
        _ => panic!("no TLS"),
    }
    assert!(matches!(serving(None, None), Ok(Serving::Plain)));
    for (cert, key) in [(Some("c".to_string()), None), (None, Some("k".to_string()))] {
        assert_eq!(
            serving(cert, key).err(),
            Some("Both --tls-cert and --tls-key must be provided together".to_string())
        );
    }
}

#[test]
fn busy_address_falls_back_once() {
    assert_eq!(next_attempt(BindAttempt::Requested), Some(BindAttempt::Fallback));
    assert_eq!(next_attempt(BindAttempt::Fallback), None);
    assert_eq!(FALLBACK_LISTEN, "127.0.0.1:0");
}
