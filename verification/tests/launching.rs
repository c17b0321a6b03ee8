use codex_plus_core::exit::{
    exit_wait_of, terminate_plan, ExitStep, ExitWait, ExitWatch, TerminatePlan,
};
use codex_plus_core::launch::{
    build_codex_arguments, build_codex_arguments_for_settings,
    build_codex_arguments_with_native_menu_inspector, build_codex_command,
    build_codex_command_with_native_menu_inspector, build_macos_cleanup_command,
    build_macos_open_command, build_macos_open_command_with_native_menu_inspector,
    build_packaged_activation, build_packaged_activation_with_native_menu_inspector,
    codex_extra_args_for_launch, has_host_resolver_rules, macos_app_dir_from_open_command,
    macos_app_name, macos_app_name_for, macos_app_reported_running, macos_running_script,
    macos_running_script_for, statsig_fast_fail_host_resolver_rule,
    windows_process_control_strategy, CodexLaunch, LaunchOptions, MacosCleanupPolicy,
    ProcessWaitStrategy, WindowsProcessControlStrategy,
};
use codex_plus_core::plan::{
    is_macos_app, is_macos_app_name, macos_launch, native_menu_inspector_request, native_menu_localizer_port,
    packaged_launch, plan_codex_launch, spawned_launch, LaunchPlan, LaunchTarget,
};
use codex_plus_core::quoting::{command_line_arguments, quote_windows_argument};
use codex_plus_core::relay::{plan_active_relay_profile, relay_protocol_proxy_enabled, RelayPlan};
use codex_plus_core::settings::{
    normalize_codex_extra_args, BackendSettings, RelayMode, RelayProfile,
};
use codex_plus_core::status::launch_status;

const FAST_FAIL_RULE: &str = "--host-resolver-rules=MAP ab.chatgpt.com 127.0.0.1,MAP featureassets.org 127.0.0.1,MAP prodregistryv2.org 127.0.0.1,MAP api.statsigcdn.com 127.0.0.1,MAP statsigapi.net 127.0.0.1,MAP cloudflare-dns.com 127.0.0.1";

fn texts(list: &[&str]) -> Vec<String> {
    list.iter().map(|text| text.to_string()).collect()
}

fn settings() -> BackendSettings {
    BackendSettings {
        codex_app_path: String::new(),
        codex_extra_args: Vec::new(),
        provider_sync_enabled: false,
        enhancements_enabled: true,
        computer_use_guard_enabled: false,
        active_relay_uses_protocol_proxy: false,
        relay_profiles_enabled: false,
        active_relay_profile: RelayProfile {
            relay_mode: RelayMode::Official,
            official_mix_api_key: false,
            auth_contents: String::new(),
        },
        relay_common_config_contents: String::new(),
        relay_context_config_contents: String::new(),
        codex_app_plugin_marketplace_unlock: false,
        codex_app_native_menu_localization: false,
        codex_app_fast_startup: false,
        codex_app_image_overlay_enabled: false,
        codex_app_image_overlay_path: String::new(),
    }
}

#[test]
fn default_options_use_the_usual_ports() {
    let options = LaunchOptions::default();
    assert_eq!(options.app_dir, None);
    assert_eq!(options.debug_port, 9229);
    assert_eq!(options.helper_port, 57321);
}

#[test]
fn windows_processes_are_controlled_natively() {
    assert_eq!(
        windows_process_control_strategy(),
        WindowsProcessControlStrategy::NativeWindowsApi
    );
}

#[test]
fn process_id_is_that_of_a_packaged_app() {
    let packaged = packaged_launch("id".to_string(), "args".to_string(), 77);
    assert_eq!(packaged.process_id(), Some(77));
    assert_eq!(spawned_launch(texts(&["codex"])).process_id(), None);
}

#[test]
fn extra_args_are_trimmed_and_blank_ones_dropped() {
    assert_eq!(
        normalize_codex_extra_args(&texts(&["  --a ", "", " \t", "--b=c d"])),
        texts(&["--a", "--b=c d"])
    );
}

#[test]
fn codex_arguments_open_the_debug_port() {
    assert_eq!(
        build_codex_arguments(9229, &texts(&[" --x "])),
        texts(&[
            "--remote-debugging-port=9229",
            "--remote-allow-origins=http://127.0.0.1:9229",
            "--x",
        ])
    );
}

#[test]
fn inspector_argument_is_left_out_for_port_zero() {
    assert_eq!(
        build_codex_arguments_with_native_menu_inspector(9229, 9329, &texts(&["--x"])),
        texts(&[
            "--remote-debugging-port=9229",
            "--remote-allow-origins=http://127.0.0.1:9229",
            "--inspect=127.0.0.1:9329",
            "--x",
        ])
    );
    assert_eq!(
        build_codex_arguments_with_native_menu_inspector(9229, 0, &texts(&["--x"])),
        build_codex_arguments(9229, &texts(&["--x"]))
    );
}

#[test]
fn fast_startup_adds_its_rule_unless_the_user_has_one() {
    assert_eq!(statsig_fast_fail_host_resolver_rule(), FAST_FAIL_RULE);
    let mut fast = settings();
    fast.codex_app_fast_startup = true;
    assert_eq!(
        codex_extra_args_for_launch(&fast, &texts(&["--x"])),
        texts(&[FAST_FAIL_RULE, "--x"])
    );
    let own = texts(&[" --host-resolver-rules=MAP a b"]);
    assert!(has_host_resolver_rules(&own));
    assert_eq!(
        codex_extra_args_for_launch(&fast, &own),
        texts(&["--host-resolver-rules=MAP a b"])
    );
    assert!(!has_host_resolver_rules(&texts(&["--x", "host-resolver-rules"])));
    assert_eq!(
        codex_extra_args_for_launch(&settings(), &texts(&["--x"])),
        texts(&["--x"])
    );
    let again = codex_extra_args_for_launch(&fast, &texts(&["--x"]));
    assert_eq!(codex_extra_args_for_launch(&fast, &again), again);
}

#[test]
fn arguments_for_settings_take_the_users_own() {
    let mut own = settings();
    own.codex_extra_args = texts(&["--y "]);
    assert_eq!(
        build_codex_arguments_for_settings(1, &own),
        texts(&[
            "--remote-debugging-port=1",
            "--remote-allow-origins=http://127.0.0.1:1",
            "--y",
        ])
    );
}

#[test]
fn commands_begin_with_the_executable() {
    assert_eq!(
        build_codex_command("/opt/codex", 2, &texts(&[])),
        texts(&[
            "/opt/codex",
            "--remote-debugging-port=2",
            "--remote-allow-origins=http://127.0.0.1:2",
        ])
    );
    assert_eq!(
        build_codex_command_with_native_menu_inspector("/opt/codex", 2, 3, &texts(&[]))[3],
        "--inspect=127.0.0.1:3"
    );
}

#[test]
fn macos_command_opens_and_waits() {
    let command = build_macos_open_command("/Applications/Codex.app", 9229, &texts(&["-a", "--x"]));
    assert_eq!(
        command,
        texts(&[
            "open",
            "-W",
            "-a",
            "/Applications/Codex.app",
            "--args",
            "--remote-debugging-port=9229",
            "--remote-allow-origins=http://127.0.0.1:9229",
            "-a",
            "--x",
        ])
    );
    assert_eq!(
        macos_app_dir_from_open_command(&command).as_deref(),
        Some("/Applications/Codex.app")
    );
    assert_eq!(macos_app_dir_from_open_command(&texts(&["open", "-a"])), None);
    assert_eq!(macos_app_dir_from_open_command(&texts(&["open"])), None);
    assert_eq!(
        build_macos_open_command_with_native_menu_inspector("/A.app", 1, 5, &texts(&[]))[7],
        "--inspect=127.0.0.1:5"
    );
}

#[test]
fn windows_arguments_are_quoted_where_needed() {
    assert_eq!(quote_windows_argument("plain"), "plain");
    assert_eq!(quote_windows_argument(""), "\"\"");
    assert_eq!(quote_windows_argument("a b"), "\"a b\"");
    assert_eq!(quote_windows_argument("a\"b"), "\"a\\\"b\"");
    assert_eq!(quote_windows_argument("a\\\\\"b"), "\"a\\\\\\\\\\\"b\"");
    assert_eq!(quote_windows_argument("c d\\"), "\"c d\\\\\"");
    assert_eq!(quote_windows_argument("e\\f g"), "\"e\\f g\"");
    assert_eq!(
        command_line_arguments(&texts(&["--x", "a b", ""])),
        "--x \"a b\" \"\""
    );
}

#[test]
fn packaged_activation_needs_a_package() {
    assert_eq!(build_packaged_activation(None, 1, &texts(&[])), None);
    assert_eq!(
        build_packaged_activation(Some("OpenAI.Codex!App"), 1, &texts(&["a b"])),
        Some(CodexLaunch::PackagedActivation {
            app_user_model_id: "OpenAI.Codex!App".to_string(),
            arguments:
                "--remote-debugging-port=1 --remote-allow-origins=http://127.0.0.1:1 \"a b\""
                    .to_string(),
            process_id: None,
        })
    );
    let inspected =
        build_packaged_activation_with_native_menu_inspector(Some("id"), 1, 2, &texts(&[]));
    assert_eq!(
        inspected,
        Some(CodexLaunch::PackagedActivation {
            app_user_model_id: "id".to_string(),
            arguments: "--remote-debugging-port=1 --remote-allow-origins=http://127.0.0.1:1 --inspect=127.0.0.1:2".to_string(),
            process_id: None,
        })
    );
}

#[test]
fn cleanup_quits_by_the_stem_of_the_directory() {
    assert_eq!(
        build_macos_cleanup_command(
            "/Applications/Codex.app",
            MacosCleanupPolicy::QuitIfNotPreviouslyRunning
        ),
        Some(texts(&[
            "osascript",
            "-e",
            "tell application \"Codex\" to quit"
        ]))
    );
    assert_eq!(
        build_macos_cleanup_command(
            "/Applications/A \"B\".app/",
            MacosCleanupPolicy::QuitIfNotPreviouslyRunning
        ),
        Some(texts(&[
            "osascript",
            "-e",
            "tell application \"A \\\"B\\\"\" to quit"
        ]))
    );
    assert_eq!(
        build_macos_cleanup_command("/", MacosCleanupPolicy::QuitIfNotPreviouslyRunning)
            .map(|command| command[2].clone())
            .as_deref(),
        Some("tell application \"Codex\" to quit")
    );
    assert_eq!(
        build_macos_cleanup_command(
            "/Applications/Codex.app",
            MacosCleanupPolicy::SkipQuitBecauseAlreadyRunning
        ),
        None
    );
}

#[test]
fn apps_are_addressed_by_their_own_name() {
    assert_eq!(macos_app_name("/Applications/Codex: Beta.app"), "Codex: Beta");
    assert_eq!(macos_app_name("/"), "Codex");
    assert!(macos_app_name("C:\\apps\\Codex.app").ends_with("Codex"));
    assert_eq!(macos_app_name_for(Some("A.b.app")), "A.b");
    assert_eq!(macos_app_name_for(None), "Codex");
    assert_eq!(
        macos_running_script_for("A \"B\""),
        "application \"A \\\"B\\\"\" is running"
    );
}

#[test]
fn running_macos_app_is_told_by_the_scripts_answer() {
    assert_eq!(
        macos_running_script("/Applications/Codex.app"),
        "application \"Codex\" is running"
    );
    assert!(macos_app_reported_running(true, b" True\n"));
    assert!(!macos_app_reported_running(false, b"true"));
    assert!(!macos_app_reported_running(true, b"false"));
    assert!(!macos_app_reported_running(true, b"true\xff"));
}

fn target(on_windows: bool, id: Option<&str>, app_dir: &str) -> LaunchTarget {
    LaunchTarget {
        on_windows,
        app_user_model_id: id.map(|id| id.to_string()),
        app_dir: app_dir.to_string(),
        executable: "/opt/codex/codex".to_string(),
    }
}

#[test]
fn launch_goes_through_the_package_on_windows_only() {
    let none: Vec<String> = Vec::new();
    let windows = plan_codex_launch(&target(true, Some("id"), "/x/Codex.app"), &settings(), 7, None, &none);
    match windows {
        LaunchPlan::Activate { app_user_model_id, arguments } => {
            assert_eq!(app_user_model_id, "id");
            assert_eq!(
                arguments,
                "--remote-debugging-port=7 --remote-allow-origins=http://127.0.0.1:7"
            );
        }
        other => panic!("unexpected plan {:?}", other),
    }
    let macos = plan_codex_launch(&target(false, Some("id"), "/x/Codex.app"), &settings(), 7, Some(9), &none);
    match macos {
        LaunchPlan::OpenMacApp { command } => {
            assert_eq!(command[3], "/x/Codex.app");
            assert_eq!(command[7], "--inspect=127.0.0.1:9");
        }
        other => panic!("unexpected plan {:?}", other),
    }
    let spawned = plan_codex_launch(&target(true, None, "/x/codex"), &settings(), 7, None, &none);
    match spawned {
        LaunchPlan::Spawn { command } => assert_eq!(command[0], "/opt/codex/codex"),
        other => panic!("unexpected plan {:?}", other),
    }
}

#[test]
fn macos_apps_are_known_by_their_extension() {
    assert!(is_macos_app("/Applications/Codex.app"));
    assert!(is_macos_app("Codex.app/"));
    assert!(!is_macos_app("/Applications/Codex.APP"));
    assert!(!is_macos_app("/Applications/.app"));
    assert!(!is_macos_app("/opt/codex"));
    assert!(!is_macos_app("C:\\Users\\me\\Codex"));
    assert!(!is_macos_app("C:\\Users.app\\Codex"));
    assert!(!is_macos_app("/opt/codex:1"));
    assert!(is_macos_app("/Applications/Codex: Beta.app"));
    assert!(is_macos_app_name(Some("Codex.app")));
    assert!(!is_macos_app_name(Some("app")));
    assert!(!is_macos_app_name(None));
}

#[test]
fn inspector_port_lies_a_hundred_above() {
    let mut localized = settings();
    assert_eq!(native_menu_inspector_request(&localized, 9229), None);
    localized.codex_app_native_menu_localization = true;
    assert_eq!(native_menu_inspector_request(&localized, 9229), Some(9329));
    assert_eq!(native_menu_inspector_request(&localized, 65500), Some(65535));
    assert_eq!(native_menu_localizer_port(Some(9329)), Some(9329));
    assert_eq!(native_menu_localizer_port(Some(0)), None);
    assert_eq!(native_menu_localizer_port(None), None);
}

#[test]
fn exit_is_waited_for_by_what_was_launched() {
    assert_eq!(exit_wait_of(&spawned_launch(texts(&["codex"]))), ExitWait::Child);
    assert_eq!(
        exit_wait_of(&packaged_launch("id".to_string(), String::new(), 4)),
        ExitWait::WindowsProcess { process_id: 4 }
    );
    assert_eq!(
        exit_wait_of(&CodexLaunch::PackagedActivation {
            app_user_model_id: "id".to_string(),
            arguments: String::new(),
            process_id: None,
        }),
        ExitWait::Nothing
    );
}

#[test]
fn app_is_gone_after_three_looks_in_a_row() {
    let mut watch = ExitWatch::new();
    let again = ExitStep::LookAgain { seconds: 2 };
    assert_eq!(watch.observe(false), again);
    assert_eq!(watch.observe(false), again);
    assert_eq!(watch.observe(true), again);
    assert_eq!(watch.observe(false), again);
    assert_eq!(watch.observe(false), again);
    assert_eq!(watch.observe(false), ExitStep::Gone);
}

#[test]
fn termination_quits_an_opened_app_unless_it_ran() {
    let command = build_macos_open_command("/Applications/Codex.app", 1, &texts(&[]));
    match terminate_plan(&macos_launch(command.clone(), false)) {
        TerminatePlan::KillChild { quit_command: Some(quit) } => {
            assert_eq!(quit[2], "tell application \"Codex\" to quit")
        }
        other => panic!("unexpected plan {:?}", other),
    }
    assert!(matches!(
        terminate_plan(&macos_launch(command.clone(), true)),
        TerminatePlan::KillChild { quit_command: None }
    ));
    assert!(matches!(
        terminate_plan(&spawned_launch(command)),
        TerminatePlan::KillChild { quit_command: None }
    ));
    assert!(matches!(
        terminate_plan(&packaged_launch("id".to_string(), String::new(), 4)),
        TerminatePlan::EndWindowsProcess { process_id: 4 }
    ));
    assert!(matches!(
        terminate_plan(&CodexLaunch::PackagedActivation {
            app_user_model_id: "id".to_string(),
            arguments: String::new(),
            process_id: None,
        }),
        TerminatePlan::Nothing
    ));
}

#[test]
fn macos_launch_keeps_its_policy() {
    let launch = macos_launch(texts(&["open"]), true);
    assert_eq!(
        launch.clone(),
        CodexLaunch::Process {
            command: texts(&["open"]),
            wait_strategy: ProcessWaitStrategy::ExternalWaitCommand,
            macos_cleanup_policy: Some(MacosCleanupPolicy::SkipQuitBecauseAlreadyRunning),
        }
    );
}

#[test]
fn relay_profile_is_left_cleared_or_applied() {
    let mut relay = settings();
    assert!(!relay_protocol_proxy_enabled(&relay));
    relay.active_relay_uses_protocol_proxy = true;
    assert!(relay_protocol_proxy_enabled(&relay));
    assert!(matches!(plan_active_relay_profile(&relay), RelayPlan::Leave));
    relay.relay_profiles_enabled = true;
    relay.computer_use_guard_enabled = true;
    relay.active_relay_profile.auth_contents = " \n".to_string();
    assert!(matches!(
        plan_active_relay_profile(&relay),
        RelayPlan::Clear { auth_contents: None, computer_use_guard: true }
    ));
    relay.active_relay_profile.auth_contents = " {} ".to_string();
    match plan_active_relay_profile(&relay) {
        RelayPlan::Clear { auth_contents, .. } => assert_eq!(auth_contents.as_deref(), Some(" {} ")),
        other => panic!("unexpected plan {:?}", other),
    }
    relay.active_relay_profile.official_mix_api_key = true;
    relay.relay_common_config_contents = " a = 1\n".to_string();
    match plan_active_relay_profile(&relay) {
        RelayPlan::Apply { common_config, computer_use_guard } => {
            assert_eq!(common_config, "a = 1");
            assert!(computer_use_guard);
        }
        other => panic!("unexpected plan {:?}", other),
    }
    relay.relay_context_config_contents = "\tb = 2 ".to_string();
    relay.active_relay_profile.official_mix_api_key = false;
    relay.active_relay_profile.relay_mode = RelayMode::Other;
    match plan_active_relay_profile(&relay) {
        RelayPlan::Apply { common_config, .. } => assert_eq!(common_config, "a = 1\n\nb = 2"),
        other => panic!("unexpected plan {:?}", other),
    }
}

#[test]
fn status_records_ports_and_app() {
    let status = launch_status("running", "Codex++ launcher ready", 12, 9229, 57321, "/x");
    assert_eq!(status.status, "running");
    assert_eq!(status.message, "Codex++ launcher ready");
    assert_eq!(status.started_at_ms, 12);
    assert_eq!(status.debug_port, Some(9229));
    assert_eq!(status.helper_port, Some(57321));
    assert_eq!(status.codex_app.as_deref(), Some("/x"));
}
