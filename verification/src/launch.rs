//! How the Codex app is launched, and the command lines for it.
use vstd::prelude::*;

use crate::http;
use crate::paths;
use crate::plan;
use crate::plan_laws;
use crate::quoting;
use crate::settings;
use crate::settings::BackendSettings;
use crate::text;

verus! {

/// What was launched.
#[derive(Debug, PartialEq, Eq)]
pub enum CodexLaunch {
    /// A process that the launcher started.
    Process {
        command: Vec<String>,
        wait_strategy: ProcessWaitStrategy,
        macos_cleanup_policy: Option<MacosCleanupPolicy>,
    },
    /// A packaged app that Windows started.
    PackagedActivation {
        app_user_model_id: String,
        arguments: String,
        process_id: Option<u32>,
    },
}

/// How the end of a launched process is waited for.
#[derive(Debug, Clone, Copy, PartialEq, Eq, Structural)]
pub enum ProcessWaitStrategy {
    /// The process is the app.
    TrackedChild,
    /// The process waits for the app.
    ExternalWaitCommand,
}

/// Whether a launched macOS app is asked to quit again.
#[derive(Debug, Clone, Copy, PartialEq, Eq, Structural)]
pub enum MacosCleanupPolicy {
    QuitIfNotPreviouslyRunning,
    SkipQuitBecauseAlreadyRunning,
}

/// How processes are controlled on Windows.
#[derive(Debug, Clone, Copy, PartialEq, Eq, Structural)]
pub enum WindowsProcessControlStrategy {
    NativeWindowsApi,
}

/// How processes are controlled on Windows.
pub fn windows_process_control_strategy() -> (r: WindowsProcessControlStrategy)
    ensures
        r == WindowsProcessControlStrategy::NativeWindowsApi,
{
    WindowsProcessControlStrategy::NativeWindowsApi
}

/// `CodexLaunch`, over sequences of characters.
pub enum Launch {
    Process {
        command: Seq<Seq<char>>,
        wait_strategy: ProcessWaitStrategy,
        macos_cleanup_policy: Option<MacosCleanupPolicy>,
    },
    PackagedActivation {
        app_user_model_id: Seq<char>,
        arguments: Seq<char>,
        process_id: Option<u32>,
    },
}

impl View for CodexLaunch {
    type V = Launch;

    open spec fn view(&self) -> Launch {
        match self {
            CodexLaunch::Process { command, wait_strategy, macos_cleanup_policy } => {
                Launch::Process {
                    command: command.deep_view(),
                    wait_strategy: *wait_strategy,
                    macos_cleanup_policy: *macos_cleanup_policy,
                }
            },
            CodexLaunch::PackagedActivation { app_user_model_id, arguments, process_id } => {
                Launch::PackagedActivation {
                    app_user_model_id: app_user_model_id@,
                    arguments: arguments@,
                    process_id: *process_id,
                }
            },
        }
    }
}

/// A copy of the texts.
pub fn copy_texts(texts: &[String]) -> (r: Vec<String>)
    ensures
        r.deep_view() == texts.deep_view(),
{
    let mut r: Vec<String> = Vec::new();
    for i in 0..texts.len()
        invariant
            r@.len() == i,
            forall|k: int| 0 <= k < i ==> (#[trigger] r@[k])@ == texts@[k]@,
    {
        r.push(texts[i].clone());
    }
    assert(r.deep_view() =~= texts.deep_view());
    r
}

impl Clone for CodexLaunch {
    fn clone(&self) -> (r: CodexLaunch)
        ensures
            r@ == self@,
            self is Process ==> r is Process && r->command.deep_view() == self->command.deep_view()
                && r->wait_strategy == self->wait_strategy && r->macos_cleanup_policy
                == self->macos_cleanup_policy,
            self is PackagedActivation ==> r is PackagedActivation && r->app_user_model_id@
                == self->app_user_model_id@ && r->arguments@ == self->arguments@ && r->process_id
                == self->process_id,
    {
        match self {
            CodexLaunch::Process { command, wait_strategy, macos_cleanup_policy } => {
                CodexLaunch::Process {
                    command: copy_texts(command.as_slice()),
                    wait_strategy: *wait_strategy,
                    macos_cleanup_policy: *macos_cleanup_policy,
                }
            },
            CodexLaunch::PackagedActivation { app_user_model_id, arguments, process_id } => {
                CodexLaunch::PackagedActivation {
                    app_user_model_id: app_user_model_id.clone(),
                    arguments: arguments.clone(),
                    process_id: *process_id,
                }
            },
        }
    }
}

impl CodexLaunch {
    /// The process id that Windows gave for a packaged app.
    pub fn process_id(&self) -> (r: Option<u32>)
        ensures
            r == (match self@ {
                Launch::PackagedActivation { process_id, .. } => process_id,
                Launch::Process { .. } => None,
            }),
    {
        match self {
            CodexLaunch::PackagedActivation { process_id, .. } => *process_id,
            CodexLaunch::Process { .. } => None,
        }
    }
}

/// What a launch is asked for.
#[derive(Debug, Clone)]
pub struct LaunchOptions {
    pub app_dir: Option<String>,
    pub debug_port: u16,
    pub helper_port: u16,
}

impl Default for LaunchOptions {
    fn default() -> (r: LaunchOptions)
        ensures
            r.app_dir is None,
            r.debug_port == 9229,
            r.helper_port == 57321,
    {
        LaunchOptions { app_dir: None, debug_port: 9229, helper_port: 57321 }
    }
}

// ---- arguments ---------------------------------------------------------------------------

/// The arguments that open the debugging port.
pub open spec fn port_arguments(debug_port: u16) -> Seq<Seq<char>> {
    seq![
        "--remote-debugging-port="@ + text::decimal(debug_port as nat),
        "--remote-allow-origins=http://127.0.0.1:"@ + text::decimal(debug_port as nat),
    ]
}

/// The argument that opens the inspector port, if there is one.
pub open spec fn inspector_arguments(inspector_port: u16) -> Seq<Seq<char>> {
    if inspector_port == 0 {
        seq![]
    } else {
        seq!["--inspect=127.0.0.1:"@ + text::decimal(inspector_port as nat)]
    }
}

/// The arguments of the app.
pub open spec fn codex_arguments(debug_port: u16, extra_args: Seq<Seq<char>>) -> Seq<Seq<char>> {
    port_arguments(debug_port) + settings::normalized(extra_args)
}

/// The arguments of the app, with those for the inspector of the native menu.
pub open spec fn codex_arguments_inspected(
    debug_port: u16,
    inspector_port: u16,
    extra_args: Seq<Seq<char>>,
) -> Seq<Seq<char>> {
    port_arguments(debug_port) + inspector_arguments(inspector_port) + settings::normalized(
        extra_args,
    )
}

/// A number behind a text.
fn with_number(before: &str, n: u16) -> (r: String)
    ensures
        r@ == before@ + text::decimal(n as nat),
{
    let numeral: String = text::decimal_text(n as u64);
    let mut r = before.to_string();
    r.append(numeral.as_str());
    r
}

/// The texts of `more` behind those of `list`.
fn push_all(list: &mut Vec<String>, more: &[String])
    ensures
        final(list).deep_view() == old(list).deep_view() + more.deep_view(),
{
    let ghost before = list.deep_view();
    assert(before + more.deep_view().take(0) =~= before);
    for i in 0..more.len()
        invariant
            list.deep_view() == before + more.deep_view().take(i as int),
    {
        let ghost now = list.deep_view();
        list.push(more[i].clone());
        assert(list.deep_view() =~= now.push(more@[i as int]@));
        assert(more.deep_view().take(i + 1) =~= more.deep_view().take(i as int).push(
            more@[i as int]@,
        ));
        assert(list.deep_view() =~= before + more.deep_view().take(i + 1));
    }
    assert(more.deep_view().take(more@.len() as int) =~= more.deep_view());
}

/// The arguments of the app.
pub fn build_codex_arguments(debug_port: u16, extra_args: &[String]) -> (r: Vec<String>)
    ensures
        r.deep_view() == codex_arguments(debug_port, extra_args.deep_view()),
{
    build_codex_arguments_with_native_menu_inspector(debug_port, 0, extra_args)
}

/// The arguments of the app, with the one for the inspector of the native menu where it has a
/// port.
pub fn build_codex_arguments_with_native_menu_inspector(
    debug_port: u16,
    inspector_port: u16,
    extra_args: &[String],
) -> (r: Vec<String>)
    ensures
        r.deep_view() == codex_arguments_inspected(
            debug_port,
            inspector_port,
            extra_args.deep_view(),
        ),
        inspector_port == 0 ==> r.deep_view() == codex_arguments(
            debug_port,
            extra_args.deep_view(),
        ),
{
    let mut args: Vec<String> = vec![
        with_number("--remote-debugging-port=", debug_port),
        with_number("--remote-allow-origins=http://127.0.0.1:", debug_port),
    ];
    assert(args.deep_view() =~= port_arguments(debug_port));
    if inspector_port != 0 {
        args.push(with_number("--inspect=127.0.0.1:", inspector_port));
    }
    assert(args.deep_view() =~= port_arguments(debug_port) + inspector_arguments(inspector_port));
    let extra: Vec<String> = settings::normalize_codex_extra_args(extra_args);
    push_all(&mut args, extra.as_slice());
    assert(inspector_port == 0 ==> port_arguments(debug_port) + inspector_arguments(inspector_port)
        =~= port_arguments(debug_port));
    args
}

// ---- arguments from the settings ---------------------------------------------------------

/// Whether an argument gives rules for resolving hosts.
pub open spec fn is_host_rule(arg: Seq<char>) -> bool {
    "--host-resolver-rules"@.is_prefix_of(text::trimmed(arg))
}

/// Whether some argument gives rules for resolving hosts.
pub open spec fn has_host_rule(args: Seq<Seq<char>>) -> bool {
    exists|k: int| 0 <= k < args.len() && is_host_rule(#[trigger] args[k])
}

/// The rule under which the hosts of the telemetry service fail at once.
pub open spec fn fast_fail_rule() -> Seq<char> {
    "--host-resolver-rules=MAP ab.chatgpt.com 127.0.0.1,MAP featureassets.org 127.0.0.1,MAP prodregistryv2.org 127.0.0.1,MAP api.statsigcdn.com 127.0.0.1,MAP statsigapi.net 127.0.0.1,MAP cloudflare-dns.com 127.0.0.1"@
}

/// The extra arguments of a launch. A fast startup puts the rule for the telemetry service
/// first, unless the user gives rules for resolving hosts.
pub open spec fn launch_extra_args(fast_startup: bool, extra_args: Seq<Seq<char>>) -> Seq<
    Seq<char>,
> {
    if fast_startup && !has_host_rule(extra_args) {
        seq![fast_fail_rule()] + settings::normalized(extra_args)
    } else {
        settings::normalized(extra_args)
    }
}

/// Whether some argument gives rules for resolving hosts.
pub fn has_host_resolver_rules(args: &[String]) -> (r: bool)
    ensures
        r == has_host_rule(args.deep_view()),
{
    let ghost texts = args.deep_view();
    for i in 0..args.len()
        invariant
            texts == args.deep_view(),
            forall|k: int| 0 <= k < i ==> !is_host_rule(#[trigger] texts[k]),
    {
        let arg: String = text::trim(args[i].as_str());
        if text::starts_with(arg.as_str(), "--host-resolver-rules") {
            assert(is_host_rule(texts[i as int]));
            return true;
        }
    }
    false
}

/// The rule under which the hosts of the telemetry service fail at once.
pub fn statsig_fast_fail_host_resolver_rule() -> (r: String)
    ensures
        r@ == fast_fail_rule(),
{
    "--host-resolver-rules=MAP ab.chatgpt.com 127.0.0.1,MAP featureassets.org 127.0.0.1,MAP prodregistryv2.org 127.0.0.1,MAP api.statsigcdn.com 127.0.0.1,MAP statsigapi.net 127.0.0.1,MAP cloudflare-dns.com 127.0.0.1".to_string()
}

/// The extra arguments of a launch.
pub fn codex_extra_args_for_launch(settings: &BackendSettings, extra_args: &[String]) -> (r: Vec<
    String,
>)
    ensures
        r.deep_view() == launch_extra_args(
            settings.codex_app_fast_startup,
            extra_args.deep_view(),
        ),
        settings::normalized(extra_args.deep_view()).is_suffix_of(r.deep_view()),
        r.deep_view().len() > settings::normalized(extra_args.deep_view()).len()
            <==> settings.codex_app_fast_startup && !has_host_rule(extra_args.deep_view()),
{
    proof {
        plan_laws::extra_arguments_are_the_users(
            settings.codex_app_fast_startup,
            extra_args.deep_view(),
        );
        plan_laws::host_rules_are_known_by_their_option(extra_args.deep_view());
    }
    let mut args: Vec<String> = Vec::new();
    let fast = settings.codex_app_fast_startup && !has_host_resolver_rules(extra_args);
    if fast {
        args.push(statsig_fast_fail_host_resolver_rule());
        assert(args.deep_view() =~= seq![fast_fail_rule()]);
    }
    let extra: Vec<String> = settings::normalize_codex_extra_args(extra_args);
    let ghost before = args.deep_view();
    push_all(&mut args, extra.as_slice());
    assert(!fast ==> before + extra.deep_view() =~= extra.deep_view());
    args
}

/// The arguments of the app under the user's settings.
pub fn build_codex_arguments_for_settings(debug_port: u16, settings: &BackendSettings) -> (r: Vec<
    String,
>)
    ensures
        r.deep_view() == codex_arguments(
            debug_port,
            launch_extra_args(
                settings.codex_app_fast_startup,
                settings.codex_extra_args.deep_view(),
            ),
        ),
        settings::normalized(settings.codex_extra_args.deep_view()).is_suffix_of(r.deep_view()),
        r.deep_view().len() >= 2,
        r.deep_view()[0] == "--remote-debugging-port="@ + text::decimal(debug_port as nat),
{
    proof {
        let own = settings.codex_extra_args.deep_view();
        let fast = settings.codex_app_fast_startup;
        let extra = launch_extra_args(fast, own);
        plan_laws::extra_arguments_are_the_users(fast, own);
        plan::launch_extra_args_are_normalized(fast, own);
        plan_laws::arguments_begin_with_the_ports(debug_port, 0, extra);
        let all = codex_arguments(debug_port, extra);
        let n = settings::normalized(own);
        assert(all.subrange(all.len() - n.len(), all.len() as int) =~= extra.subrange(
            extra.len() - n.len(),
            extra.len() as int,
        ));
    }
    let extra: Vec<String> = codex_extra_args_for_launch(
        settings,
        settings.codex_extra_args.as_slice(),
    );
    build_codex_arguments(debug_port, extra.as_slice())
}

// ---- commands ----------------------------------------------------------------------------

/// The command that runs the app's executable.
pub open spec fn run_command(executable: Seq<char>, arguments: Seq<Seq<char>>) -> Seq<Seq<char>> {
    seq![executable] + arguments
}

/// The command that opens a macOS app, and waits for its end.
pub open spec fn open_command(app_dir: Seq<char>, arguments: Seq<Seq<char>>) -> Seq<Seq<char>> {
    seq!["open"@, "-W"@, "-a"@, app_dir, "--args"@] + arguments
}

/// The command that runs the app's executable.
pub fn build_codex_command(executable: &str, debug_port: u16, extra_args: &[String]) -> (r: Vec<
    String,
>)
    ensures
        r.deep_view() == run_command(
            executable@,
            codex_arguments(debug_port, extra_args.deep_view()),
        ),
{
    build_codex_command_with_native_menu_inspector(executable, debug_port, 0, extra_args)
}

/// The command that runs the app's executable with an inspector of the native menu.
pub fn build_codex_command_with_native_menu_inspector(
    executable: &str,
    debug_port: u16,
    inspector_port: u16,
    extra_args: &[String],
) -> (r: Vec<String>)
    ensures
        r.deep_view() == run_command(
            executable@,
            codex_arguments_inspected(debug_port, inspector_port, extra_args.deep_view()),
        ),
        inspector_port == 0 ==> r.deep_view() == run_command(
            executable@,
            codex_arguments(debug_port, extra_args.deep_view()),
        ),
{
    let mut command: Vec<String> = vec![executable.to_string()];
    assert(command.deep_view() =~= seq![executable@]);
    let arguments: Vec<String> = build_codex_arguments_with_native_menu_inspector(
        debug_port,
        inspector_port,
        extra_args,
    );
    push_all(&mut command, arguments.as_slice());
    command
}

/// The command that opens the macOS app, and waits for its end.
pub fn build_macos_open_command(app_dir: &str, debug_port: u16, extra_args: &[String]) -> (r: Vec<
    String,
>)
    ensures
        r.deep_view() == open_command(
            app_dir@,
            codex_arguments(debug_port, extra_args.deep_view()),
        ),
{
    build_macos_open_command_with_native_menu_inspector(app_dir, debug_port, 0, extra_args)
}

/// The command that opens the macOS app with an inspector of the native menu, and waits for its
/// end.
pub fn build_macos_open_command_with_native_menu_inspector(
    app_dir: &str,
    debug_port: u16,
    inspector_port: u16,
    extra_args: &[String],
) -> (r: Vec<String>)
    ensures
        r.deep_view() == open_command(
            app_dir@,
            codex_arguments_inspected(debug_port, inspector_port, extra_args.deep_view()),
        ),
        inspector_port == 0 ==> r.deep_view() == open_command(
            app_dir@,
            codex_arguments(debug_port, extra_args.deep_view()),
        ),
{
    let mut command: Vec<String> = vec![
        "open".to_string(),
        "-W".to_string(),
        "-a".to_string(),
        app_dir.to_string(),
        "--args".to_string(),
    ];
    assert(command.deep_view() =~= seq!["open"@, "-W"@, "-a"@, app_dir@, "--args"@]);
    let arguments: Vec<String> = build_codex_arguments_with_native_menu_inspector(
        debug_port,
        inspector_port,
        extra_args,
    );
    push_all(&mut command, arguments.as_slice());
    command
}

/// What Windows is asked to start, of an app that has a package.
pub open spec fn activation(package: Option<Seq<char>>, arguments: Seq<Seq<char>>) -> Option<
    Launch,
> {
    match package {
        Some(app_user_model_id) => Some(
            Launch::PackagedActivation {
                app_user_model_id,
                arguments: quoting::command_line(arguments),
                process_id: None,
            },
        ),
        None => None,
    }
}

/// The view of what may have been launched.
pub open spec fn launch_view(launch: Option<CodexLaunch>) -> Option<Launch> {
    match launch {
        Some(inner) => Some(inner@),
        None => None,
    }
}

/// What Windows is asked to start, of an app that has a package.
pub fn build_packaged_activation(
    app_user_model_id: Option<&str>,
    debug_port: u16,
    extra_args: &[String],
) -> (r: Option<CodexLaunch>)
    ensures
        launch_view(r) == activation(
            app_user_model_id.deep_view(),
            codex_arguments(debug_port, extra_args.deep_view()),
        ),
{
    build_packaged_activation_with_native_menu_inspector(
        app_user_model_id,
        debug_port,
        0,
        extra_args,
    )
}

/// What Windows is asked to start, of an app that has a package, with an inspector of the native
/// menu.
pub fn build_packaged_activation_with_native_menu_inspector(
    app_user_model_id: Option<&str>,
    debug_port: u16,
    inspector_port: u16,
    extra_args: &[String],
) -> (r: Option<CodexLaunch>)
    ensures
        launch_view(r) == activation(
            app_user_model_id.deep_view(),
            codex_arguments_inspected(debug_port, inspector_port, extra_args.deep_view()),
        ),
        inspector_port == 0 ==> launch_view(r) == activation(
            app_user_model_id.deep_view(),
            codex_arguments(debug_port, extra_args.deep_view()),
        ),
{
    match app_user_model_id {
        Some(id) => {
            let arguments: Vec<String> = build_codex_arguments_with_native_menu_inspector(
                debug_port,
                inspector_port,
                extra_args,
            );
            Some(
                CodexLaunch::PackagedActivation {
                    app_user_model_id: id.to_string(),
                    arguments: quoting::command_line_arguments(arguments.as_slice()),
                    process_id: None,
                },
            )
        },
        None => None,
    }
}

// ---- macOS apps --------------------------------------------------------------------------

/// A text with a backslash before each double quote.
pub open spec fn quotes_escaped(s: Seq<char>) -> Seq<char>
    decreases s.len(),
{
    if s.len() == 0 {
        seq![]
    } else if s.last() == '"' {
        quotes_escaped(s.drop_last()) + seq!['\\', '"']
    } else {
        quotes_escaped(s.drop_last()).push(s.last())
    }
}

/// The name by which a macOS app of the given file name is addressed.
pub open spec fn name_of_app(file_name: Option<Seq<char>>) -> Seq<char> {
    match file_name {
        Some(name) => paths::stem(name),
        None => "Codex"@,
    }
}

/// The command that asks the app of a name to quit.
pub open spec fn quit_command(name: Seq<char>) -> Seq<Seq<char>> {
    seq![
        "osascript"@,
        "-e"@,
        "tell application \""@ + quotes_escaped(name) + "\" to quit"@,
    ]
}

/// The script that asks whether the app of a name runs.
pub open spec fn running_script(name: Seq<char>) -> Seq<char> {
    "application \""@ + quotes_escaped(name) + "\" is running"@
}

/// The text with a backslash before each double quote.
pub fn escape_quotes(s: &str) -> (r: String)
    ensures
        r@ == quotes_escaped(s@),
{
    let chars: Vec<char> = text::chars_of(s);
    let mut r = String::new();
    assert(s@.take(0) =~= seq![]);
    for i in 0..chars.len()
        invariant
            chars@ == s@,
            r@ == quotes_escaped(s@.take(i as int)),
    {
        let ghost before = r@;
        assert(s@.take(i + 1).drop_last() =~= s@.take(i as int));
        assert(s@.take(i + 1).last() == s@[i as int]);
        if chars[i] == '"' {
            r.push('\\');
            r.push('"');
            assert(r@ =~= before + seq!['\\', '"']);
        } else {
            r.push(chars[i]);
        }
    }
    assert(s@.take(s@.len() as int) =~= s@);
    r
}

/// Whether the macOS app in a directory is addressed by a name: the one for the file name that the
/// platform finds. For a portable path that is the one for its file name; for another path that
/// ends in a name with an extension, it ends in the stem of that name.
pub open spec fn addresses(app_dir: Seq<char>, name: Seq<char>) -> bool {
    &&& exists|file_name: Option<Seq<char>>| #[trigger]
        paths::is_file_name_of(app_dir, file_name) && name == name_of_app(file_name)
    &&& paths::is_portable(app_dir) ==> name == name_of_app(paths::file_name(app_dir))
    &&& paths::ends_in_name(app_dir) && paths::extension(paths::tail(app_dir)) is Some
        ==> paths::stem(paths::tail(app_dir)).is_suffix_of(name)
}

/// The name by which a macOS app of the given file name is addressed.
pub fn macos_app_name_for(file_name: Option<&str>) -> (r: String)
    ensures
        r@ == name_of_app(file_name.deep_view()),
{
    match file_name {
        Some(name) => paths::split_file_name(name).0,
        None => "Codex".to_string(),
    }
}

/// The name by which the macOS app in the directory is addressed.
pub fn macos_app_name(app_dir: &str) -> (r: String)
    ensures
        addresses(app_dir@, r@),
        paths::is_portable(app_dir@) ==> r@ == name_of_app(paths::file_name(app_dir@)),
        paths::ends_in_name(app_dir@) && paths::extension(paths::tail(app_dir@)) is Some
            ==> paths::stem(paths::tail(app_dir@)).is_suffix_of(r@),
{
    let name: Option<String> = paths::path_file_name(app_dir);
    let ghost file_name = name.deep_view();
    let r = match &name {
        Some(name) => macos_app_name_for(Some(name.as_str())),
        None => macos_app_name_for(None),
    };
    proof {
        assert(paths::is_file_name_of(app_dir@, file_name) && r@ == name_of_app(file_name));
        if paths::ends_in_name(app_dir@) && paths::extension(paths::tail(app_dir@)) is Some {
            paths::lemma_stem_of_end(file_name->0, paths::tail(app_dir@));
        }
    }
    r
}

/// The command that asks the app of the name to quit.
pub fn macos_quit_command(name: &str) -> (r: Vec<String>)
    ensures
        r.deep_view() == quit_command(name@),
{
    let escaped: String = escape_quotes(name);
    let mut script = "tell application \"".to_string();
    script.append(escaped.as_str());
    script.append("\" to quit");
    let r: Vec<String> = vec!["osascript".to_string(), "-e".to_string(), script];
    assert(r.deep_view() =~= quit_command(name@));
    r
}

/// The command that asks the macOS app in the directory to quit, unless it ran before.
pub fn build_macos_cleanup_command(app_dir: &str, policy: MacosCleanupPolicy) -> (r: Option<
    Vec<String>,
>)
    ensures
        r is None <==> policy == MacosCleanupPolicy::SkipQuitBecauseAlreadyRunning,
        r is Some && paths::is_portable(app_dir@) ==> r->0.deep_view() == quit_command(
            name_of_app(paths::file_name(app_dir@)),
        ),
        r is Some ==> exists|name: Seq<char>| #[trigger]
            addresses(app_dir@, name) && r->0.deep_view() == quit_command(name),
{
    if policy == MacosCleanupPolicy::SkipQuitBecauseAlreadyRunning {
        return None;
    }
    let name: String = macos_app_name(app_dir);
    Some(macos_quit_command(name.as_str()))
}

/// The script that asks whether the macOS app in the directory runs.
pub fn macos_running_script(app_dir: &str) -> (r: String)
    ensures
        paths::is_portable(app_dir@) ==> r@ == running_script(
            name_of_app(paths::file_name(app_dir@)),
        ),
        exists|name: Seq<char>| #[trigger]
            addresses(app_dir@, name) && r@ == running_script(name),
{
    let name: String = macos_app_name(app_dir);
    macos_running_script_for(name.as_str())
}

/// The script that asks whether the app of the name runs.
pub fn macos_running_script_for(name: &str) -> (r: String)
    ensures
        r@ == running_script(name@),
{
    let escaped: String = escape_quotes(name);
    let mut r = "application \"".to_string();
    r.append(escaped.as_str());
    r.append("\" is running");
    r
}

/// Whether a script answered that the app runs.
pub open spec fn answers_true(answer: Seq<char>) -> bool {
    text::lowered(text::trimmed(answer)) == text::lowered("true"@)
}

/// Whether the script answered that the app runs.
pub fn is_true_answer(answer: &str) -> (r: bool)
    ensures
        r == answers_true(answer@),
{
    let answer: String = text::trim(answer);
    text::eq_ignore_ascii_case(answer.as_str(), "true")
}

/// Whether the script succeeded, and answered that the app runs.
pub fn macos_app_reported_running(success: bool, stdout: &[u8]) -> (r: bool)
    ensures
        r == (success && answers_true(http::lossy_text(stdout@))),
        vstd::utf8::valid_utf8(stdout@) ==> r == (success && answers_true(
            vstd::utf8::decode_utf8(stdout@),
        )),
{
    let answer: String = http::decode_lossy(stdout);
    success && is_true_answer(answer.as_str())
}

/// The position of the first of the texts from `k` on that is `-a`, or their number.
pub open spec fn app_flag_from(command: Seq<Seq<char>>, k: int) -> int
    decreases command.len() - k,
{
    if 0 <= k < command.len() && command[k] != "-a"@ {
        app_flag_from(command, k + 1)
    } else {
        k
    }
}

/// The directory of the app that a command opens.
pub open spec fn opened_app(command: Seq<Seq<char>>) -> Option<Seq<char>> {
    let flag = app_flag_from(command, 0);
    if flag + 1 < command.len() {
        Some(command[flag + 1])
    } else {
        None
    }
}

/// The directory of the app that the command opens.
pub fn macos_app_dir_from_open_command(command: &[String]) -> (r: Option<String>)
    ensures
        r.deep_view() == opened_app(command.deep_view()),
{
    let ghost texts = command.deep_view();
    let mut k: usize = 0;
    while k < command.len() && !text::same_text(command[k].as_str(), "-a")
        invariant
            k <= command@.len(),
            texts == command.deep_view(),
            app_flag_from(texts, k as int) == app_flag_from(texts, 0),
        decreases command@.len() - k,
    {
        k = k + 1;
    }
    if k < command.len() && command.len() - k > 1 {
        assert(texts[k + 1] == command@[k + 1]@);
        Some(command[k + 1].clone())
    } else {
        None
    }
}

} // verus!
