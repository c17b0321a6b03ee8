//! Which way the Codex app is launched, and what is known of it once it runs.
use vstd::prelude::*;

use crate::launch;
use crate::launch::{CodexLaunch, MacosCleanupPolicy, ProcessWaitStrategy};
use crate::paths;
use crate::plan_laws;
use crate::quoting;
use crate::settings;
use crate::settings::BackendSettings;
use crate::text;

verus! {

/// How far the port of the native menu's inspector lies above the debugging port.
pub const INSPECTOR_PORT_OFFSET: u16 = 100;

/// What is known of the app before it is launched.
#[derive(Debug, Clone)]
pub struct LaunchTarget {
    pub on_windows: bool,
    /// The id of the app's package, if it has one.
    pub app_user_model_id: Option<String>,
    pub app_dir: String,
    pub executable: String,
}

/// The way in which the app is launched.
#[derive(Debug)]
pub enum LaunchPlan {
    /// Windows starts the packaged app.
    Activate { app_user_model_id: String, arguments: String },
    /// A command opens the macOS app.
    OpenMacApp { command: Vec<String> },
    /// A command runs the app's executable.
    Spawn { command: Vec<String> },
}

/// `LaunchPlan`, over sequences of characters.
pub enum Plan {
    Activate { app_user_model_id: Seq<char>, arguments: Seq<char> },
    OpenMacApp { command: Seq<Seq<char>> },
    Spawn { command: Seq<Seq<char>> },
}

impl View for LaunchPlan {
    type V = Plan;

    open spec fn view(&self) -> Plan {
        match self {
            LaunchPlan::Activate { app_user_model_id, arguments } => Plan::Activate {
                app_user_model_id: app_user_model_id@,
                arguments: arguments@,
            },
            LaunchPlan::OpenMacApp { command } => Plan::OpenMacApp {
                command: command.deep_view(),
            },
            LaunchPlan::Spawn { command } => Plan::Spawn { command: command.deep_view() },
        }
    }
}

/// A port, none counting as zero.
pub open spec fn port_or_zero(port: Option<u16>) -> u16 {
    match port {
        Some(p) => p,
        None => 0,
    }
}

/// The arguments with which the app is launched.
pub open spec fn launch_arguments(
    settings: BackendSettings,
    debug_port: u16,
    inspector_port: Option<u16>,
    extra_args: Seq<Seq<char>>,
) -> Seq<Seq<char>> {
    launch::codex_arguments_inspected(
        debug_port,
        port_or_zero(inspector_port),
        launch::launch_extra_args(settings.codex_app_fast_startup, extra_args),
    )
}

/// The way in which an app is launched with the given arguments: through its package on
/// Windows, else as a macOS app if it is one, else by its executable.
pub open spec fn plan_for(target: LaunchTarget, is_macos_app: bool, arguments: Seq<Seq<char>>) -> Plan {
    if target.on_windows && target.app_user_model_id is Some {
        Plan::Activate {
            app_user_model_id: target.app_user_model_id->0@,
            arguments: quoting::command_line(arguments),
        }
    } else if is_macos_app {
        Plan::OpenMacApp { command: launch::open_command(target.app_dir@, arguments) }
    } else {
        Plan::Spawn { command: launch::run_command(target.executable@, arguments) }
    }
}

/// Whether a directory of the given file name is a macOS app.
pub open spec fn names_macos_app(file_name: Option<Seq<char>>) -> bool {
    file_name is Some && paths::extension(file_name->0) == Some("app"@)
}

/// Whether a directory of the given file name is a macOS app.
pub fn is_macos_app_name(file_name: Option<&str>) -> (r: bool)
    ensures
        r == names_macos_app(file_name.deep_view()),
{
    match file_name {
        Some(name) => match paths::split_file_name(name).1 {
            Some(extension) => text::same_text(extension.as_str(), "app"),
            None => false,
        },
        None => false,
    }
}

/// Whether the directory is a macOS app.
pub fn is_macos_app(app_dir: &str) -> (r: bool)
    ensures
        paths::is_portable(app_dir@) ==> r == names_macos_app(paths::file_name(app_dir@)),
        paths::ends_in_name(app_dir@) && paths::extension(paths::tail(app_dir@)) is Some ==> r == (
        paths::extension(paths::tail(app_dir@)) == Some("app"@)),
        paths::shows_no_extension(app_dir@) ==> !r,
        exists|file_name: Option<Seq<char>>| #[trigger]
            paths::is_file_name_of(app_dir@, file_name) && r == names_macos_app(file_name),
{
    let name: Option<String> = paths::path_file_name(app_dir);
    let ghost file_name = name.deep_view();
    proof {
        if paths::ends_in_name(app_dir@) && paths::extension(paths::tail(app_dir@)) is Some {
            paths::lemma_extension_of_end(name->0@, paths::tail(app_dir@));
        }
        if paths::shows_no_extension(app_dir@) && names_macos_app(file_name) {
            paths::lemma_no_extension(app_dir@, name->0@);
            reveal_strlit("app");
            let e = paths::extension(name->0@)->0;
            assert(e[0] == 'a' && e[1] == 'p' && e[2] == 'p');
        }
    }
    let r = match &name {
        Some(name) => is_macos_app_name(Some(name.as_str())),
        None => is_macos_app_name(None),
    };
    assert(paths::is_file_name_of(app_dir@, file_name) && r == names_macos_app(file_name));
    r
}

/// The way in which the app is launched, given whether it is a macOS app.
pub fn plan_launch_as(
    target: &LaunchTarget,
    is_macos_app: bool,
    settings: &BackendSettings,
    debug_port: u16,
    inspector_port: Option<u16>,
    extra_args: &[String],
) -> (r: LaunchPlan)
    ensures
        r@ == plan_for(
            *target,
            is_macos_app,
            launch_arguments(*settings, debug_port, inspector_port, extra_args.deep_view()),
        ),
        r is Activate <==> target.on_windows && target.app_user_model_id is Some,
        r is OpenMacApp <==> is_macos_app && !(target.on_windows && target.app_user_model_id
            is Some),
        ({
            let found = plan_laws::arguments_of(r@);
            let own = settings::normalized(extra_args.deep_view());
            &&& own.is_suffix_of(found)
            &&& found.len() >= 2
            &&& found[0] == "--remote-debugging-port="@ + text::decimal(debug_port as nat)
            &&& found[1] == "--remote-allow-origins=http://127.0.0.1:"@ + text::decimal(
                debug_port as nat,
            )
            &&& inspector_port is Some && inspector_port->0 != 0 ==> found.len() >= 3 && found[2]
                == "--inspect=127.0.0.1:"@ + text::decimal(inspector_port->0 as nat)
        }),
{
    proof {
        plan_laws::launches_carry_ports_and_the_users_arguments(
            *target,
            is_macos_app,
            *settings,
            debug_port,
            inspector_port,
            extra_args.deep_view(),
        );
    }
    let extra: Vec<String> = launch::codex_extra_args_for_launch(settings, extra_args);
    let inspector: u16 = match inspector_port {
        Some(port) => port,
        None => 0,
    };
    if target.on_windows {
        match &target.app_user_model_id {
            Some(id) => {
                let activation = launch::build_packaged_activation_with_native_menu_inspector(
                    Some(id.as_str()),
                    debug_port,
                    inspector,
                    extra.as_slice(),
                );
                match activation {
                    Some(
                        CodexLaunch::PackagedActivation { app_user_model_id, arguments, process_id },
                    ) => {
                        return LaunchPlan::Activate { app_user_model_id, arguments };
                    },
                    _ => {},
                }
            },
            None => {},
        }
    }
    if is_macos_app {
        LaunchPlan::OpenMacApp {
            command: launch::build_macos_open_command_with_native_menu_inspector(
                target.app_dir.as_str(),
                debug_port,
                inspector,
                extra.as_slice(),
            ),
        }
    } else {
        LaunchPlan::Spawn {
            command: launch::build_codex_command_with_native_menu_inspector(
                target.executable.as_str(),
                debug_port,
                inspector,
                extra.as_slice(),
            ),
        }
    }
}

/// The way in which the app is launched.
pub fn plan_codex_launch(
    target: &LaunchTarget,
    settings: &BackendSettings,
    debug_port: u16,
    inspector_port: Option<u16>,
    extra_args: &[String],
) -> (r: LaunchPlan)
    ensures
        r is Activate <==> target.on_windows && target.app_user_model_id is Some,
        ({
            let found = plan_laws::arguments_of(r@);
            let own = settings::normalized(extra_args.deep_view());
            &&& own.is_suffix_of(found)
            &&& found.len() >= 2
            &&& found[0] == "--remote-debugging-port="@ + text::decimal(debug_port as nat)
            &&& found[1] == "--remote-allow-origins=http://127.0.0.1:"@ + text::decimal(
                debug_port as nat,
            )
            &&& inspector_port is Some && inspector_port->0 != 0 ==> found.len() >= 3 && found[2]
                == "--inspect=127.0.0.1:"@ + text::decimal(inspector_port->0 as nat)
        }),
        ({
            let arguments = launch_arguments(
                *settings,
                debug_port,
                inspector_port,
                extra_args.deep_view(),
            );
            &&& paths::is_portable(target.app_dir@) ==> r@ == plan_for(
                *target,
                names_macos_app(paths::file_name(target.app_dir@)),
                arguments,
            )
            &&& paths::ends_in_name(target.app_dir@) && paths::extension(
                paths::tail(target.app_dir@),
            ) is Some ==> r@ == plan_for(
                *target,
                paths::extension(paths::tail(target.app_dir@)) == Some("app"@),
                arguments,
            )
            &&& paths::shows_no_extension(target.app_dir@) ==> r@ == plan_for(
                *target,
                false,
                arguments,
            )
            &&& exists|file_name: Option<Seq<char>>| #[trigger]
                paths::is_file_name_of(target.app_dir@, file_name) && r@ == plan_for(
                    *target,
                    names_macos_app(file_name),
                    arguments,
                )
        }),
{
    let macos = is_macos_app(target.app_dir.as_str());
    plan_launch_as(target, macos, settings, debug_port, inspector_port, extra_args)
}

// ---- the inspector of the native menu ----------------------------------------------------

/// The port that is asked for the inspector of the native menu, where the menu is localized.
pub fn native_menu_inspector_request(settings: &BackendSettings, debug_port: u16) -> (r: Option<u16>)
    ensures
        r == (if !settings.codex_app_native_menu_localization {
            None
        } else if debug_port + INSPECTOR_PORT_OFFSET > u16::MAX {
            Some(u16::MAX)
        } else {
            Some((debug_port + INSPECTOR_PORT_OFFSET) as u16)
        }),
        r is Some <==> settings.codex_app_native_menu_localization,
        r is Some && debug_port <= 65435 ==> r->0 == debug_port + 100,
        r is Some && debug_port > 65435 ==> r->0 == 65535,
{
    if settings.codex_app_native_menu_localization {
        Some(debug_port.saturating_add(INSPECTOR_PORT_OFFSET))
    } else {
        None
    }
}

/// The port through which the native menu is localized, if it is.
pub fn native_menu_localizer_port(inspector_port: Option<u16>) -> (r: Option<u16>)
    ensures
        r == (if port_or_zero(inspector_port) == 0 {
            None
        } else {
            inspector_port
        }),
        r is Some <==> inspector_port is Some && inspector_port->0 != 0,
        r is Some ==> r == inspector_port,
{
    match inspector_port {
        Some(port) => if port == 0 {
            None
        } else {
            Some(port)
        },
        None => None,
    }
}

// ---- once it runs ------------------------------------------------------------------------

/// The packaged app that Windows started under the process id.
pub fn packaged_launch(app_user_model_id: String, arguments: String, process_id: u32) -> (r:
    CodexLaunch)
    ensures
        r@ == (launch::Launch::PackagedActivation {
            app_user_model_id: app_user_model_id@,
            arguments: arguments@,
            process_id: Some(process_id),
        }),
{
    CodexLaunch::PackagedActivation { app_user_model_id, arguments, process_id: Some(process_id) }
}

/// Whether an app is asked to quit again, given whether it ran before it was opened.
pub open spec fn cleanup_policy(was_running: bool) -> MacosCleanupPolicy {
    if was_running {
        MacosCleanupPolicy::SkipQuitBecauseAlreadyRunning
    } else {
        MacosCleanupPolicy::QuitIfNotPreviouslyRunning
    }
}

/// The macOS app that the command opened.
pub fn macos_launch(command: Vec<String>, was_running: bool) -> (r: CodexLaunch)
    ensures
        r@ == (launch::Launch::Process {
            command: command.deep_view(),
            wait_strategy: ProcessWaitStrategy::ExternalWaitCommand,
            macos_cleanup_policy: Some(cleanup_policy(was_running)),
        }),
        r is Process && r->macos_cleanup_policy == Some(
            if was_running {
                MacosCleanupPolicy::SkipQuitBecauseAlreadyRunning
            } else {
                MacosCleanupPolicy::QuitIfNotPreviouslyRunning
            },
        ),
{
    let policy: MacosCleanupPolicy = if was_running {
        MacosCleanupPolicy::SkipQuitBecauseAlreadyRunning
    } else {
        MacosCleanupPolicy::QuitIfNotPreviouslyRunning
    };
    CodexLaunch::Process {
        command,
        wait_strategy: ProcessWaitStrategy::ExternalWaitCommand,
        macos_cleanup_policy: Some(policy),
    }
}

/// The app whose executable the command ran.
pub fn spawned_launch(command: Vec<String>) -> (r: CodexLaunch)
    ensures
        r@ == (launch::Launch::Process {
            command: command.deep_view(),
            wait_strategy: ProcessWaitStrategy::TrackedChild,
            macos_cleanup_policy: None,
        }),
{
    CodexLaunch::Process {
        command,
        wait_strategy: ProcessWaitStrategy::TrackedChild,
        macos_cleanup_policy: None,
    }
}

// ---- what holds of launches --------------------------------------------------------------

/// The command that opens an app names the app, whatever arguments follow.
pub proof fn open_command_names_its_app(app_dir: Seq<char>, arguments: Seq<Seq<char>>)
    ensures
        launch::opened_app(launch::open_command(app_dir, arguments)) == Some(app_dir),
{
    let command = launch::open_command(app_dir, arguments);
    reveal_strlit("open");
    reveal_strlit("-W");
    reveal_strlit("-a");
    assert("open"@.len() != "-a"@.len());
    assert("-W"@[1] != "-a"@[1]);
    assert(command[0] == "open"@ && command[1] == "-W"@ && command[2] == "-a"@ && command[3]
        == app_dir);
    assert(launch::app_flag_from(command, 2) == 2);
    assert(launch::app_flag_from(command, 1) == 2);
    assert(launch::app_flag_from(command, 0) == 2);
}

proof fn lemma_fast_fail_rule()
    ensures
        launch::fast_fail_rule().len() > 0,
        text::trimmed(launch::fast_fail_rule()) == launch::fast_fail_rule(),
        launch::is_host_rule(launch::fast_fail_rule()),
{
    reveal_strlit(
        "--host-resolver-rules=MAP ab.chatgpt.com 127.0.0.1,MAP featureassets.org 127.0.0.1,MAP prodregistryv2.org 127.0.0.1,MAP api.statsigcdn.com 127.0.0.1,MAP statsigapi.net 127.0.0.1,MAP cloudflare-dns.com 127.0.0.1",
    );
    reveal_strlit("--host-resolver-rules");
    let rule = launch::fast_fail_rule();
    text::lemma_trimmed_stays(rule);
    assert("--host-resolver-rules"@ =~= rule.subrange(0, "--host-resolver-rules"@.len() as int));
}

/// Whether the user gives rules for resolving hosts does not depend on normalizing.
proof fn lemma_host_rule_normalized(args: Seq<Seq<char>>)
    ensures
        launch::has_host_rule(settings::normalized(args)) == launch::has_host_rule(args),
    decreases args.len(),
{
    if args.len() > 0 {
        let rest = args.drop_last();
        let last = text::trimmed(args.last());
        lemma_host_rule_normalized(rest);
        text::trim_is_idempotent(args.last());
        reveal_strlit("--host-resolver-rules");
        assert(launch::is_host_rule(args.last()) ==> last.len() > 0);
        assert(launch::is_host_rule(last) == launch::is_host_rule(args.last()));
        let n = settings::normalized(rest);
        if launch::has_host_rule(rest) {
            let k = choose|k: int| 0 <= k < rest.len() && launch::is_host_rule(#[trigger] rest[k]);
            assert(args[k] == rest[k]);
            let m = choose|m: int| 0 <= m < n.len() && launch::is_host_rule(#[trigger] n[m]);
            assert(settings::normalized(args)[m] == n[m]);
        } else if launch::is_host_rule(args.last()) {
            assert(args[args.len() - 1] == args.last());
            assert(settings::normalized(args)[n.len() as int] == last);
        } else {
            assert forall|k: int| 0 <= k < args.len() implies !launch::is_host_rule(
                #[trigger] args[k],
            ) by {
                if k < rest.len() {
                    assert(args[k] == rest[k]);
                }
            }
            assert forall|k: int| 0 <= k < settings::normalized(args).len() implies !launch::is_host_rule(
                #[trigger] settings::normalized(args)[k],
            ) by {
                if k < n.len() {
                    assert(settings::normalized(args)[k] == n[k]);
                }
            }
        }
    }
}

/// A launch with a fast startup always gives rules for resolving hosts: the user's own, or else
/// the one for the telemetry service.
pub proof fn fast_startup_gives_host_rules(extra_args: Seq<Seq<char>>)
    ensures
        launch::has_host_rule(launch::launch_extra_args(true, extra_args)),
{
    let args = launch::launch_extra_args(true, extra_args);
    if launch::has_host_rule(extra_args) {
        lemma_host_rule_normalized(extra_args);
    } else {
        lemma_fast_fail_rule();
        assert(args[0] == launch::fast_fail_rule());
    }
}

/// The extra arguments of a launch are normalized already.
pub proof fn launch_extra_args_are_normalized(fast_startup: bool, extra_args: Seq<Seq<char>>)
    ensures
        settings::normalized(launch::launch_extra_args(fast_startup, extra_args))
            == launch::launch_extra_args(fast_startup, extra_args),
{
    settings::normalizing_is_idempotent(extra_args);
    if fast_startup && !launch::has_host_rule(extra_args) {
        let rule = seq![launch::fast_fail_rule()];
        lemma_fast_fail_rule();
        settings::lemma_trimmed_args_stay(rule);
        settings::normalizing_distributes(rule, settings::normalized(extra_args));
    }
}

/// Working out the extra arguments of a launch from those of a launch changes nothing.
pub proof fn launch_extra_args_are_stable(fast_startup: bool, extra_args: Seq<Seq<char>>)
    ensures
        launch::launch_extra_args(
            fast_startup,
            launch::launch_extra_args(fast_startup, extra_args),
        ) == launch::launch_extra_args(fast_startup, extra_args),
{
    launch_extra_args_are_normalized(fast_startup, extra_args);
    if fast_startup {
        fast_startup_gives_host_rules(extra_args);
    }
}

/// A packaged app reads from its command line the arguments that it was to be launched with.
pub proof fn activation_arguments_read_back(
    target: LaunchTarget,
    is_macos_app: bool,
    arguments: Seq<Seq<char>>,
)
    requires
        plan_for(target, is_macos_app, arguments) is Activate,
    ensures
        quoting::split_command_line(plan_for(target, is_macos_app, arguments)->arguments)
            == arguments,
{
    quoting::command_line_reads_back(arguments);
}

} // verus!
