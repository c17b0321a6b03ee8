use codex_plus_core::bridge::{
    runtime_evaluate_result_is_true, step_after_health_check, was_reinjected, websocket_url_of,
    HealthStep, Retry, RetryStep,
};
use codex_plus_core::events::{
    guard_attempt_event, guard_rest_event, health_check_event, history_event, marketplace_event,
    reinjection_event,
};
use codex_plus_core::guard::ORPHAN_SWEEP_SECONDS;
use codex_plus_core::guard::{
    should_stop_post_launch_computer_use_guard, GuardAction, GuardArtifacts, GuardEvent,
    PostLaunchGuard,
};
use codex_plus_core::launch::CodexLaunch;
use codex_plus_core::plan::spawned_launch;
use codex_plus_core::session::{LaunchAction, LaunchEvent, LaunchFlags, LaunchSession};

#[test]
fn post_launch_guard_stops_after_stable_ready_artifacts() {
    let artifacts = GuardArtifacts {
        notify_exe: Some("codex-computer-use.exe".to_string()),
        marketplace_path: Some("openai-bundled".to_string()),
        sky_package_json: None,
        runtime_exports_needed: false,
    };

    assert!(!should_stop_post_launch_computer_use_guard(2, &artifacts));
    assert!(should_stop_post_launch_computer_use_guard(3, &artifacts));
}

#[test]
fn post_launch_guard_keeps_retrying_until_artifacts_are_ready() {
    let missing_notify = GuardArtifacts {
        notify_exe: None,
        marketplace_path: Some("openai-bundled".to_string()),
        sky_package_json: None,
        runtime_exports_needed: false,
    };
    let missing_marketplace = GuardArtifacts {
        notify_exe: Some("codex-computer-use.exe".to_string()),
        marketplace_path: None,
        sky_package_json: None,
        runtime_exports_needed: false,
    };
    let missing_runtime_package = GuardArtifacts {
        notify_exe: Some("codex-computer-use.exe".to_string()),
        marketplace_path: Some("openai-bundled".to_string()),
        sky_package_json: None,
        runtime_exports_needed: true,
    };

    assert!(!should_stop_post_launch_computer_use_guard(
        3,
        &missing_notify
    ));
    assert!(!should_stop_post_launch_computer_use_guard(
        3,
        &missing_marketplace
    ));
    assert!(!should_stop_post_launch_computer_use_guard(
        3,
        &missing_runtime_package
    ));
}

fn ready() -> GuardArtifacts {
    GuardArtifacts {
        notify_exe: Some("n".to_string()),
        marketplace_path: Some("m".to_string()),
        sky_package_json: Some("s".to_string()),
        runtime_exports_needed: true,
    }
}

#[test]
fn guard_waits_resolves_and_ensures_on_schedule() {
    let mut guard = PostLaunchGuard::new(None);
    let mut waits = Vec::new();
    let mut ensured = 0;
    let mut resolved = 0;
    loop {
        match guard.action() {
            GuardAction::Wait { seconds } => {
                waits.push(seconds);
                guard = guard.advance(GuardEvent::Waited);
            }
            GuardAction::Resolve => {
                resolved += 1;
                guard = guard.advance(GuardEvent::Failed);
            }
            GuardAction::Ensure { .. } => {
                ensured += 1;
                guard = guard.advance(GuardEvent::Failed);
            }
            GuardAction::Rest => break,
        }
    }
    assert_eq!(waits, vec![5, 10, 15, 30, 60, 60, 60, 60]);
    assert_eq!(resolved, 9);
    assert_eq!(ensured, 0);
}

#[test]
fn guard_rests_after_three_unchanged_attempts() {
    let mut guard = PostLaunchGuard::new(Some(ready()));
    let changes = [true, false, false, true, false, false, false];
    let mut attempts = 0;
    loop {
        match guard.action() {
            GuardAction::Wait { .. } => guard = guard.advance(GuardEvent::Waited),
            GuardAction::Ensure { artifacts } => {
                assert_eq!(artifacts.notify_exe.as_deref(), Some("n"));
                assert_eq!(guard.attempt(), attempts + 1);
                let changed = changes[attempts];
                attempts += 1;
                guard = guard.advance(GuardEvent::Ensured { changed });
            }
            GuardAction::Resolve => panic!("ready artifacts are kept"),
            GuardAction::Rest => break,
        }
    }
    assert_eq!(attempts, 7);
    assert_eq!(guard.stable_unchanged_attempts(), 3);
    assert_eq!(guard.delay_seconds(), 180);
}

#[test]
fn steps_are_logged_under_their_events() {
    assert_eq!(
        history_event(Some(2)),
        Some("launcher.sanitize_historical_model_suffixes")
    );
    assert_eq!(history_event(Some(0)), None);
    assert_eq!(
        history_event(None),
        Some("launcher.sanitize_historical_model_suffixes_failed")
    );
    assert_eq!(
        marketplace_event(Some(true)),
        Some("launcher.openai_curated_marketplace_configured")
    );
    assert_eq!(marketplace_event(Some(false)), None);
    assert_eq!(
        marketplace_event(None),
        Some("launcher.openai_curated_marketplace_config_failed")
    );
    assert_eq!(health_check_event(None), Some("bridge.health_check_failed"));
    assert_eq!(health_check_event(Some(false)), None);
    assert_eq!(reinjection_event(true), "bridge.reinject_ok");
    assert_eq!(reinjection_event(false), "bridge.reinject_failed");
    assert_eq!(guard_attempt_event(true), "computer_use_guard.post_launch_ok");
    assert_eq!(guard_attempt_event(false), "computer_use_guard.post_launch_failed");
    assert_eq!(
        guard_rest_event(3, &ready()),
        Some("computer_use_guard.post_launch_stable_stop")
    );
    assert_eq!(guard_rest_event(2, &ready()), None);
}

#[test]
fn sweeps_are_two_minutes_apart() {
    assert_eq!(ORPHAN_SWEEP_SECONDS, 120);
}

#[test]
fn guard_looks_again_for_what_is_not_ready() {
    let mut partial = ready();
    partial.sky_package_json = None;
    let mut guard = PostLaunchGuard::new(None);
    assert!(matches!(guard.action(), GuardAction::Resolve));
    guard = guard.advance(GuardEvent::Waited);
    assert!(matches!(guard.action(), GuardAction::Resolve));
    guard = guard.advance(GuardEvent::Resolved(partial));
    assert!(matches!(guard.action(), GuardAction::Ensure { .. }));
    guard = guard.advance(GuardEvent::Ensured { changed: false });
    assert_eq!(guard.stable_unchanged_attempts(), 0);
    assert!(matches!(guard.action(), GuardAction::Wait { seconds: 5 }));
    guard = guard.advance(GuardEvent::Waited);
    assert!(matches!(guard.action(), GuardAction::Resolve));
    guard = guard.advance(GuardEvent::Failed);
    guard = guard.advance(GuardEvent::ShutDown);
    assert!(matches!(guard.action(), GuardAction::Rest));
}

#[test]
fn evaluation_is_true_only_for_true() {
    let reply = |text: &str| -> serde_json::Value { serde_json::from_str(text).unwrap() };
    assert!(runtime_evaluate_result_is_true(&reply("{\"result\":{\"result\":{\"value\":true}}}")));
    assert!(!runtime_evaluate_result_is_true(&reply("{\"result\":{\"result\":{\"value\":false}}}")));
    assert!(!runtime_evaluate_result_is_true(&reply("{\"result\":{\"result\":{\"value\":\"true\"}}}")));
    assert!(!runtime_evaluate_result_is_true(&reply("{\"result\":{\"value\":true}}")));
    assert!(!runtime_evaluate_result_is_true(&reply("[]")));
}

#[test]
fn page_without_an_address_cannot_be_debugged() {
    assert_eq!(websocket_url_of(Some("ws://x")), Ok("ws://x".to_string()));
    assert_eq!(
        websocket_url_of(None),
        Err("selected CDP target has no websocket URL")
    );
}

fn failures(mut retry: Retry) -> (u32, u64) {
    let mut tries = 0;
    let mut paused = 0;
    loop {
        tries += 1;
        assert_eq!(retry.attempt(), tries);
        match retry.advance(false) {
            RetryStep::TryAgain { pause_ms } => paused += pause_ms,
            RetryStep::GiveUp { pause_ms } => return (tries, paused + pause_ms),
            RetryStep::Succeed => panic!("no try succeeded"),
        }
    }
}

#[test]
fn tries_are_given_up_at_their_limit() {
    assert_eq!(failures(Retry::injection()), (20, 10_000));
    assert_eq!(failures(Retry::first_injection()), (120, 120_000));
    assert_eq!(failures(Retry::window_icon()), (30, 15_000));
    let mut retry = Retry::injection();
    assert_eq!(retry.advance(false), RetryStep::TryAgain { pause_ms: 500 });
    assert_eq!(retry.advance(true), RetryStep::Succeed);
    let mut spent = Retry::injection();
    for _ in 0..20 {
        spent.advance(false);
    }
    assert_eq!(spent.advance(false), RetryStep::GiveUp { pause_ms: 500 });
    assert_eq!(spent.attempt(), 21);
}

#[test]
fn bridge_is_left_alone_only_when_it_works() {
    assert_eq!(step_after_health_check(Some(true)), HealthStep::Leave);
    assert_eq!(step_after_health_check(Some(false)), HealthStep::Reinject);
    assert_eq!(step_after_health_check(None), HealthStep::Reinject);
    assert!(!was_reinjected(Some(true), true));
    assert!(was_reinjected(None, true));
    assert!(!was_reinjected(Some(false), false));
}

fn flags() -> LaunchFlags {
    LaunchFlags {
        provider_sync: true,
        computer_use_guard: true,
        enhancements: true,
        protocol_proxy: false,
        proxy_port: 57322,
        debug_port: 9229,
    }
}

fn app() -> CodexLaunch {
    spawned_launch(vec!["codex".to_string()])
}

/// Runs a launch whose step of the given name fails; an injection comes out as `ready`.
fn run(flags: LaunchFlags, fails: &str, ready: bool) -> (Vec<String>, LaunchSession) {
    let mut session = LaunchSession::new(flags, 57321);
    let mut names = Vec::new();
    loop {
        let action = session.action();
        let name = match &action {
            LaunchAction::RunProviderSync => "sync".to_string(),
            LaunchAction::EnsurePluginMarketplace => "marketplace".to_string(),
            LaunchAction::EnsureComputerUse => "guard".to_string(),
            LaunchAction::SanitizeHistory => "history".to_string(),
            LaunchAction::StartHelper { helper_port } => format!("helper {}", helper_port),
            LaunchAction::LaunchCodex { debug_port } => format!("launch {}", debug_port),
            LaunchAction::StartGuardWatchdog => "watchdog".to_string(),
            LaunchAction::EnsureInjection { debug_port, helper_port } => {
                format!("inject {} {}", debug_port, helper_port)
            }
            LaunchAction::SanitizeLocalStorage { debug_port } => format!("storage {}", debug_port),
            LaunchAction::StartBridgeWatchdog { debug_port, helper_port } => {
                format!("bridge {} {}", debug_port, helper_port)
            }
            LaunchAction::SaveStatus { status, message, debug_port, helper_port } => {
                format!("save {} {} {} {}", status, debug_port, helper_port, message)
            }
            LaunchAction::WriteStatus { status } => format!("write {}", status),
            LaunchAction::ShutdownHelper { helper_port } => format!("shutdown {}", helper_port),
            LaunchAction::TerminateCodex { launch } => {
                assert_eq!(launch, &app());
                "terminate".to_string()
            }
            LaunchAction::Finish => return (names, session),
        };
        let event = if name.starts_with(fails) {
            LaunchEvent::Failed("broken".to_string())
        } else {
            match action {
                LaunchAction::LaunchCodex { .. } => LaunchEvent::Launched(app()),
                LaunchAction::EnsureInjection { .. } => LaunchEvent::Injected(ready),
                _ => LaunchEvent::Done,
            }
        };
        names.push(name);
        session.advance(event);
    }
}

#[test]
fn launch_does_everything_in_order() {
    let (names, session) = run(flags(), "nothing", true);
    assert_eq!(
        names,
        vec![
            "sync",
            "marketplace",
            "guard",
            "history",
            "helper 57321",
            "launch 9229",
            "watchdog",
            "inject 9229 57321",
            "storage 9229",
            "bridge 9229 57321",
            "save running 9229 57321 Codex++ launcher ready",
            "write running",
        ]
    );
    let launched = session.into_launched().unwrap();
    assert_eq!(launched.launch, app());
    assert_eq!(launched.helper_to_shut_down(), Some(57321));
}

#[test]
fn launch_runs_degraded_without_the_bridge() {
    let (names, session) = run(flags(), "nothing", false);
    assert_eq!(
        names[8],
        "save running_degraded 9229 57321 Codex launched; Codex++ enhancements are still waiting for the page bridge."
    );
    assert_eq!(names[9], "write running_degraded");
    assert_eq!(names.len(), 10);
    assert!(session.into_launched().is_some());
}

#[test]
fn plain_launch_needs_no_helper() {
    let mut plain = flags();
    plain.provider_sync = false;
    plain.computer_use_guard = false;
    plain.enhancements = false;
    let (names, session) = run(plain, "nothing", true);
    assert_eq!(
        names,
        vec![
            "marketplace",
            "history",
            "launch 9229",
            "save running 9229 57321 Codex++ launcher ready",
            "write running",
        ]
    );
    assert_eq!(session.into_launched().unwrap().helper_to_shut_down(), None);
}

#[test]
fn protocol_proxy_takes_the_helper_to_its_port() {
    let mut proxied = flags();
    proxied.enhancements = false;
    proxied.protocol_proxy = true;
    let (names, session) = run(proxied, "nothing", true);
    assert!(names.contains(&"helper 57322".to_string()));
    assert_eq!(session.into_launched().unwrap().helper_port, 57322);
}

#[test]
fn marketplace_and_history_may_fail() {
    let (well, _) = run(flags(), "nothing", true);
    assert_eq!(run(flags(), "marketplace", true).0, well);
    assert_eq!(run(flags(), "history", true).0, well);
    assert_eq!(run(flags(), "storage", true).0, well);
}

#[test]
fn failure_before_the_launch_undoes_the_helper() {
    let (names, session) = run(flags(), "launch", true);
    assert_eq!(
        names[5..].to_vec(),
        vec![
            "launch 9229",
            "shutdown 57321",
            "save failed 9229 57321 broken",
            "write failed",
        ]
    );
    assert!(session.into_launched().is_none());
    let (names, _) = run(flags(), "sync", true);
    assert_eq!(names, vec!["sync", "save failed 9229 57321 broken", "write failed"]);
    let (names, _) = run(flags(), "helper", true);
    assert_eq!(names[5], "save failed 9229 57321 broken");
}

#[test]
fn app_without_the_bridge_is_kept_on_failure() {
    let (names, _) = run(flags(), "watchdog", true);
    assert_eq!(
        names[6..].to_vec(),
        vec!["watchdog", "shutdown 57321", "save failed 9229 57321 broken", "write failed"]
    );
    let (names, _) = run(flags(), "save running_degraded", false);
    assert!(!names.contains(&"terminate".to_string()));
}

#[test]
fn injected_app_is_closed_on_failure() {
    let (names, _) = run(flags(), "bridge", true);
    assert_eq!(
        names[9..].to_vec(),
        vec![
            "bridge 9229 57321",
            "shutdown 57321",
            "terminate",
            "save failed 9229 57321 broken",
            "write failed",
        ]
    );
}

#[test]
fn event_that_is_no_answer_changes_nothing() {
    let mut session = LaunchSession::new(flags(), 57321);
    session.advance(LaunchEvent::Injected(true));
    assert!(matches!(session.action(), LaunchAction::RunProviderSync));
}
