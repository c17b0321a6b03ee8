//! What every launch of the app carries, and how the app is addressed and closed.
use vstd::prelude::*;

use crate::exit;
use crate::launch;
use crate::launch::{Launch, MacosCleanupPolicy, ProcessWaitStrategy};
use crate::paths;
use crate::plan;
use crate::plan::{LaunchTarget, Plan};
use crate::quoting;
use crate::relay;
use crate::relay::RelayChange;
use crate::settings;
use crate::settings::{BackendSettings, RelayMode};
use crate::text;

verus! {

// ---- the arguments of a launch -----------------------------------------------------------

/// The arguments that the app finds when it is launched in a planned way: those behind its
/// executable, those behind `--args`, or those that a Windows program reads from its command line.
pub open spec fn arguments_of(p: Plan) -> Seq<Seq<char>> {
    match p {
        Plan::Spawn { command } => command.skip(1),
        Plan::OpenMacApp { command } => command.skip(5),
        Plan::Activate { arguments, .. } => quoting::split_command_line(arguments),
    }
}

proof fn lemma_arguments_of(target: LaunchTarget, is_macos_app: bool, arguments: Seq<Seq<char>>)
    ensures
        arguments_of(plan::plan_for(target, is_macos_app, arguments)) == arguments,
{
    quoting::command_line_reads_back(arguments);
    assert((seq![target.executable@] + arguments).skip(1) =~= arguments);
    assert((seq!["open"@, "-W"@, "-a"@, target.app_dir@, "--args"@] + arguments).skip(5)
        =~= arguments);
}

/// However the app is launched, it finds the debugging port and its origin first, the port of the
/// inspector behind them where there is one, and the user's arguments last, trimmed, without the
/// blank ones, in their order.
pub proof fn launches_carry_ports_and_the_users_arguments(
    target: LaunchTarget,
    is_macos_app: bool,
    settings: BackendSettings,
    debug_port: u16,
    inspector_port: Option<u16>,
    extra_args: Seq<Seq<char>>,
)
    ensures
        ({
            let found = arguments_of(
                plan::plan_for(
                    target,
                    is_macos_app,
                    plan::launch_arguments(settings, debug_port, inspector_port, extra_args),
                ),
            );
            let own = settings::normalized(extra_args);
            &&& found.len() >= 2 + own.len()
            &&& found[0] == "--remote-debugging-port="@ + text::decimal(debug_port as nat)
            &&& found[1] == "--remote-allow-origins=http://127.0.0.1:"@ + text::decimal(
                debug_port as nat,
            )
            &&& inspector_port is Some && inspector_port->0 != 0 ==> found.len() >= 3 + own.len()
                && found[2] == "--inspect=127.0.0.1:"@ + text::decimal(inspector_port->0 as nat)
            &&& own.is_suffix_of(found)
        }),
{
    let arguments = plan::launch_arguments(settings, debug_port, inspector_port, extra_args);
    let own = settings::normalized(extra_args);
    lemma_arguments_of(target, is_macos_app, arguments);
    lemma_launch_arguments(settings, debug_port, inspector_port, extra_args);
    assert(arguments.subrange(arguments.len() - own.len(), arguments.len() as int) =~= own);
}

proof fn lemma_launch_arguments(
    settings: BackendSettings,
    debug_port: u16,
    inspector_port: Option<u16>,
    extra_args: Seq<Seq<char>>,
)
    ensures
        plan::launch_arguments(settings, debug_port, inspector_port, extra_args) == seq![
            "--remote-debugging-port="@ + text::decimal(debug_port as nat),
            "--remote-allow-origins=http://127.0.0.1:"@ + text::decimal(debug_port as nat),
        ] + (if inspector_port is Some && inspector_port->0 != 0 {
            seq!["--inspect=127.0.0.1:"@ + text::decimal(inspector_port->0 as nat)]
        } else {
            seq![]
        }) + (if settings.codex_app_fast_startup && !launch::has_host_rule(extra_args) {
            seq![launch::fast_fail_rule()]
        } else {
            seq![]
        }) + settings::normalized(extra_args),
{
    let fast = settings.codex_app_fast_startup;
    let own = settings::normalized(extra_args);
    let extra = launch::launch_extra_args(fast, extra_args);
    plan::launch_extra_args_are_normalized(fast, extra_args);
    assert(settings::normalized(extra) == extra);
    assert(plan::launch_arguments(settings, debug_port, inspector_port, extra_args)
        =~= launch::port_arguments(debug_port) + launch::inspector_arguments(
        plan::port_or_zero(inspector_port),
    ) + extra);
    assert(plan::launch_arguments(settings, debug_port, inspector_port, extra_args) =~= seq![
        "--remote-debugging-port="@ + text::decimal(debug_port as nat),
        "--remote-allow-origins=http://127.0.0.1:"@ + text::decimal(debug_port as nat),
    ] + (if inspector_port is Some && inspector_port->0 != 0 {
        seq!["--inspect=127.0.0.1:"@ + text::decimal(inspector_port->0 as nat)]
    } else {
        seq![]
    }) + (if fast && !launch::has_host_rule(extra_args) {
        seq![launch::fast_fail_rule()]
    } else {
        seq![]
    }) + own);
}

/// However the app is launched, it finds one more argument than its ports and those of the user
/// exactly where startup is to be fast and no argument of the user gives rules for resolving
/// hosts: the rule under which the hosts of the telemetry service lead nowhere, right before the
/// user's own.
pub proof fn fast_launches_carry_the_rule(
    target: LaunchTarget,
    is_macos_app: bool,
    settings: BackendSettings,
    debug_port: u16,
    inspector_port: Option<u16>,
    extra_args: Seq<Seq<char>>,
)
    ensures
        ({
            let found = arguments_of(
                plan::plan_for(
                    target,
                    is_macos_app,
                    plan::launch_arguments(settings, debug_port, inspector_port, extra_args),
                ),
            );
            let own = settings::normalized(extra_args);
            let ports = if inspector_port is Some && inspector_port->0 != 0 {
                3nat
            } else {
                2nat
            };
            let user_rules = exists|k: int|
                0 <= k < extra_args.len() && "--host-resolver-rules"@.is_prefix_of(
                    text::trimmed(#[trigger] extra_args[k]),
                );
            &&& settings.codex_app_fast_startup && !user_rules ==> found.len() == ports + 1
                + own.len() && found[ports as int]
                == "--host-resolver-rules=MAP ab.chatgpt.com 127.0.0.1,MAP featureassets.org 127.0.0.1,MAP prodregistryv2.org 127.0.0.1,MAP api.statsigcdn.com 127.0.0.1,MAP statsigapi.net 127.0.0.1,MAP cloudflare-dns.com 127.0.0.1"@
            &&& !settings.codex_app_fast_startup || user_rules ==> found.len() == ports + own.len()
        }),
{
    let arguments = plan::launch_arguments(settings, debug_port, inspector_port, extra_args);
    lemma_arguments_of(target, is_macos_app, arguments);
    lemma_launch_arguments(settings, debug_port, inspector_port, extra_args);
    lemma_host_rules(extra_args);
}

proof fn lemma_host_rules(args: Seq<Seq<char>>)
    ensures
        launch::has_host_rule(args) <==> exists|k: int|
            0 <= k < args.len() && "--host-resolver-rules"@.is_prefix_of(
                text::trimmed(#[trigger] args[k]),
            ),
{
    if launch::has_host_rule(args) {
        let k = choose|k: int| 0 <= k < args.len() && launch::is_host_rule(#[trigger] args[k]);
        assert("--host-resolver-rules"@.is_prefix_of(text::trimmed(args[k])));
    }
    if exists|k: int|
        0 <= k < args.len() && "--host-resolver-rules"@.is_prefix_of(
            text::trimmed(#[trigger] args[k]),
        ) {
        let k = choose|k: int|
            0 <= k < args.len() && "--host-resolver-rules"@.is_prefix_of(
                text::trimmed(#[trigger] args[k]),
            );
        assert(launch::is_host_rule(args[k]));
    }
}

/// The user gives rules for resolving hosts exactly where one of the arguments, without the white
/// space around it, begins with that option.
pub proof fn host_rules_are_known_by_their_option(args: Seq<Seq<char>>)
    ensures
        launch::has_host_rule(args) <==> exists|k: int|
            0 <= k < args.len() && "--host-resolver-rules"@.is_prefix_of(
                text::trimmed(#[trigger] args[k]),
            ),
{
    lemma_host_rules(args);
}

/// The arguments of the app without a plan are its port, its origin, the inspector where it has a
/// port, and the user's.
pub proof fn arguments_begin_with_the_ports(
    debug_port: u16,
    inspector_port: u16,
    extra_args: Seq<Seq<char>>,
)
    ensures
        ({
            let plain = launch::codex_arguments(debug_port, extra_args);
            let inspected = launch::codex_arguments_inspected(
                debug_port,
                inspector_port,
                extra_args,
            );
            let own = settings::normalized(extra_args);
            &&& plain.len() == 2 + own.len()
            &&& plain[0] == "--remote-debugging-port="@ + text::decimal(debug_port as nat)
            &&& plain[1] == "--remote-allow-origins=http://127.0.0.1:"@ + text::decimal(
                debug_port as nat,
            )
            &&& own.is_suffix_of(plain)
            &&& own.is_suffix_of(inspected)
            &&& inspector_port == 0 ==> inspected == plain
            &&& inspector_port != 0 ==> inspected.len() == plain.len() + 1 && inspected[0]
                == plain[0] && inspected[1] == plain[1] && inspected[2]
                == "--inspect=127.0.0.1:"@ + text::decimal(inspector_port as nat)
        }),
{
    let plain = launch::codex_arguments(debug_port, extra_args);
    let inspected = launch::codex_arguments_inspected(debug_port, inspector_port, extra_args);
    let own = settings::normalized(extra_args);
    assert(plain.subrange(plain.len() - own.len(), plain.len() as int) =~= own);
    assert(inspected.subrange(inspected.len() - own.len(), inspected.len() as int) =~= own);
    if inspector_port == 0 {
        assert(inspected =~= plain);
    }
}

/// The extra arguments of a launch are the user's, normalized, behind the rule for the telemetry
/// service exactly where startup is to be fast and the user gives no rules.
pub proof fn extra_arguments_are_the_users(fast_startup: bool, extra_args: Seq<Seq<char>>)
    ensures
        ({
            let extra = launch::launch_extra_args(fast_startup, extra_args);
            let own = settings::normalized(extra_args);
            let user_rules = exists|k: int|
                0 <= k < extra_args.len() && "--host-resolver-rules"@.is_prefix_of(
                    text::trimmed(#[trigger] extra_args[k]),
                );
            &&& own.is_suffix_of(extra)
            &&& extra.len() == own.len() + if fast_startup && !user_rules {
                1nat
            } else {
                0nat
            }
            &&& fast_startup && !user_rules ==> extra[0] == launch::fast_fail_rule()
        }),
{
    let extra = launch::launch_extra_args(fast_startup, extra_args);
    let own = settings::normalized(extra_args);
    lemma_host_rules(extra_args);
    assert(extra.subrange(extra.len() - own.len(), extra.len() as int) =~= own);
}

/// The rule for the telemetry service maps each of its hosts to the loopback.
pub proof fn telemetry_hosts_lead_nowhere()
    ensures
        launch::fast_fail_rule() == "--host-resolver-rules="@ + text::joined(
            seq![
                "MAP ab.chatgpt.com 127.0.0.1"@,
                "MAP featureassets.org 127.0.0.1"@,
                "MAP prodregistryv2.org 127.0.0.1"@,
                "MAP api.statsigcdn.com 127.0.0.1"@,
                "MAP statsigapi.net 127.0.0.1"@,
                "MAP cloudflare-dns.com 127.0.0.1"@,
            ],
            ","@,
        ),
{
    reveal_strlit(
        "--host-resolver-rules=MAP ab.chatgpt.com 127.0.0.1,MAP featureassets.org 127.0.0.1,MAP prodregistryv2.org 127.0.0.1,MAP api.statsigcdn.com 127.0.0.1,MAP statsigapi.net 127.0.0.1,MAP cloudflare-dns.com 127.0.0.1",
    );
    reveal_strlit("--host-resolver-rules=");
    reveal_strlit("MAP ab.chatgpt.com 127.0.0.1");
    reveal_strlit("MAP featureassets.org 127.0.0.1");
    reveal_strlit("MAP prodregistryv2.org 127.0.0.1");
    reveal_strlit("MAP api.statsigcdn.com 127.0.0.1");
    reveal_strlit("MAP statsigapi.net 127.0.0.1");
    reveal_strlit("MAP cloudflare-dns.com 127.0.0.1");
    reveal_strlit(",");
    let a = "MAP ab.chatgpt.com 127.0.0.1"@;
    let b = "MAP featureassets.org 127.0.0.1"@;
    let c = "MAP prodregistryv2.org 127.0.0.1"@;
    let d = "MAP api.statsigcdn.com 127.0.0.1"@;
    let e = "MAP statsigapi.net 127.0.0.1"@;
    let f = "MAP cloudflare-dns.com 127.0.0.1"@;
    reveal_with_fuel(text::joined, 7);
    assert(seq![a, b, c, d, e, f].drop_last() =~= seq![a, b, c, d, e]);
    assert(seq![a, b, c, d, e].drop_last() =~= seq![a, b, c, d]);
    assert(seq![a, b, c, d].drop_last() =~= seq![a, b, c]);
    assert(seq![a, b, c].drop_last() =~= seq![a, b]);
    assert(seq![a, b].drop_last() =~= seq![a]);
    assert(launch::fast_fail_rule() =~= "--host-resolver-rules="@ + (a + ","@ + b + ","@ + c + ","@
        + d + ","@ + e + ","@ + f));
}

// ---- the way of a launch -----------------------------------------------------------------

/// An app with a package is activated by it on Windows, and nowhere else; else a macOS app is
/// opened, and waited for, by its directory; else the executable is run.
pub proof fn launches_go_the_platforms_way(
    target: LaunchTarget,
    is_macos_app: bool,
    arguments: Seq<Seq<char>>,
)
    ensures
        ({
            let p = plan::plan_for(target, is_macos_app, arguments);
            &&& target.on_windows && target.app_user_model_id is Some ==> p is Activate
                && p->app_user_model_id == target.app_user_model_id->0@
            &&& (!target.on_windows || target.app_user_model_id is None) && is_macos_app ==> p
                is OpenMacApp && p->OpenMacApp_command.take(5) == seq![
                "open"@,
                "-W"@,
                "-a"@,
                target.app_dir@,
                "--args"@,
            ]
            &&& (!target.on_windows || target.app_user_model_id is None) && !is_macos_app ==> p
                is Spawn && p->Spawn_command.len() > 0 && p->Spawn_command[0] == target.executable@
        }),
{
    let p = plan::plan_for(target, is_macos_app, arguments);
    if p is OpenMacApp {
        assert(p->OpenMacApp_command.take(5) =~= seq![
            "open"@,
            "-W"@,
            "-a"@,
            target.app_dir@,
            "--args"@,
        ]);
    }
}

/// A command line holds an argument that needs no quotes as it is.
pub proof fn plain_arguments_stay(arg: Seq<char>)
    requires
        arg.len() > 0,
        !arg.contains(' '),
        !arg.contains('\t'),
        !arg.contains('"'),
    ensures
        quoting::quoted(arg) == arg,
        quoting::command_line(seq![arg]) == arg,
{
    assert(!quoting::needs_quotes(arg)) by {
        assert forall|i: int| 0 <= i < arg.len() implies !quoting::breaks_argument(
            #[trigger] arg[i],
        ) by {
            assert(arg.contains(arg[i]));
        }
    }
    assert(quoting::all_quoted(seq![arg]) =~= seq![arg]);
}

proof fn lemma_nothing_escaped(s: Seq<char>, i: int)
    requires
        0 <= i <= s.len(),
        !s.contains('"'),
        !s.contains('\\'),
    ensures
        quoting::escaped_from(s, i) == s.skip(i),
    decreases s.len() - i,
{
    if i < s.len() {
        assert(s.contains(s[i]));
        lemma_nothing_escaped(s, i + 1);
        assert(seq![s[i]] + s.skip(i + 1) =~= s.skip(i));
    } else {
        assert(s.skip(i) =~= Seq::<char>::empty());
    }
}

/// A command line holds an argument with white space, or without characters, between double
/// quotes.
pub proof fn arguments_with_spaces_are_quoted(arg: Seq<char>)
    requires
        arg.len() == 0 || arg.contains(' ') || arg.contains('\t'),
        !arg.contains('"'),
        !arg.contains('\\'),
    ensures
        quoting::quoted(arg) == seq!['"'] + arg + seq!['"'],
{
    if arg.contains(' ') {
        let i = choose|i: int| 0 <= i < arg.len() && arg[i] == ' ';
        assert(quoting::breaks_argument(arg[i]));
    } else if arg.contains('\t') {
        let i = choose|i: int| 0 <= i < arg.len() && arg[i] == '\t';
        assert(quoting::breaks_argument(arg[i]));
    }
    lemma_nothing_escaped(arg, 0);
    assert(arg.skip(0) =~= arg);
}

/// A command line holds the arguments in their order, with one space between each two.
pub proof fn arguments_follow_one_another(args: Seq<Seq<char>>, last: Seq<char>)
    ensures
        quoting::command_line(Seq::<Seq<char>>::empty()) == Seq::<char>::empty(),
        quoting::command_line(seq![last]) == quoting::quoted(last),
        args.len() > 0 ==> quoting::command_line(args.push(last)) == quoting::command_line(args)
            + seq![' '] + quoting::quoted(last),
{
    assert(quoting::all_quoted(Seq::<Seq<char>>::empty()) =~= Seq::<Seq<char>>::empty());
    assert(quoting::all_quoted(seq![last]) =~= seq![quoting::quoted(last)]);
    if args.len() > 0 {
        assert(quoting::all_quoted(args.push(last)) =~= quoting::all_quoted(args).push(
            quoting::quoted(last),
        ));
        assert(quoting::all_quoted(args).push(quoting::quoted(last)).drop_last()
            =~= quoting::all_quoted(args));
    }
}

// ---- names -------------------------------------------------------------------------------

proof fn lemma_last_dot_in(name: Seq<char>, dot: int, j: int)
    requires
        0 <= dot < j <= name.len(),
        name[dot] == '.',
        forall|k: int| dot < k < j ==> #[trigger] name[k] != '.',
    ensures
        paths::last_dot(name, j) == dot,
    decreases j,
{
    if j - 1 > dot {
        assert(name[j - 1] != '.');
        lemma_last_dot_in(name, dot, j - 1);
    }
}

proof fn lemma_no_dot(name: Seq<char>, j: int)
    requires
        0 <= j <= name.len(),
        forall|k: int| 0 <= k < j ==> #[trigger] name[k] != '.',
    ensures
        paths::last_dot(name, j) == -1,
    decreases j,
{
    if j > 0 {
        assert(name[j - 1] != '.');
        lemma_no_dot(name, j - 1);
    }
}

/// A file name splits at its last dot into its stem and its extension, unless that dot comes first;
/// one without a dot is all stem.
pub proof fn names_split_at_their_last_dot(before: Seq<char>, behind: Seq<char>)
    requires
        !behind.contains('.'),
    ensures
        before.len() > 0 ==> paths::stem(before.push('.') + behind) == before
            && paths::extension(before.push('.') + behind) == Some(behind),
        before.len() == 0 ==> paths::stem(before.push('.') + behind) == before.push('.') + behind
            && paths::extension(before.push('.') + behind) is None,
        paths::stem(behind) == behind,
        paths::extension(behind) is None,
{
    let name = before.push('.') + behind;
    let dot = before.len() as int;
    assert(name[dot] == '.');
    assert forall|k: int| dot < k < name.len() implies #[trigger] name[k] != '.' by {
        assert(name[k] == behind[k - dot - 1]);
        assert(behind.contains(behind[k - dot - 1]));
    }
    lemma_last_dot_in(name, dot, name.len() as int);
    assert(name.subrange(0, dot) =~= before);
    assert(name.subrange(dot + 1, name.len() as int) =~= behind);
    assert forall|k: int| 0 <= k < behind.len() implies #[trigger] behind[k] != '.' by {
        assert(behind.contains(behind[k]));
    }
    lemma_no_dot(behind, behind.len() as int);
}

proof fn lemma_part_start(path: Seq<char>, i: int, j: int)
    requires
        0 <= i <= j <= path.len(),
        i == 0 || path[i - 1] == '/',
        forall|k: int| i <= k < j ==> #[trigger] path[k] != '/',
    ensures
        paths::part_start(path, j) == i,
    decreases j,
{
    if j > i {
        assert(path[j - 1] != '/');
        lemma_part_start(path, i, j - 1);
    }
}

/// The file name of a path is what stands behind its last slash, whatever stands before; without a
/// slash it is the path.
pub proof fn file_names_stand_behind_the_last_slash(directory: Seq<char>, name: Seq<char>)
    requires
        name.len() > 0,
        !name.contains('/'),
        name != seq!['.'],
        name != seq!['.', '.'],
    ensures
        paths::file_name(name) == Some(name),
        paths::file_name(directory.push('/') + name) == Some(name),
{
    assert forall|k: int| 0 <= k < name.len() implies #[trigger] name[k] != '/' by {
        assert(name.contains(name[k]));
    }
    lemma_part_start(name, 0, name.len() as int);
    assert(name.subrange(0, name.len() as int) =~= name);
    let path = directory.push('/') + name;
    let i = directory.len() as int + 1;
    assert(path[i - 1] == '/');
    assert forall|k: int| i <= k < path.len() implies #[trigger] path[k] != '/' by {
        assert(path[k] == name[k - i]);
    }
    lemma_part_start(path, i, path.len() as int);
    assert(path.subrange(i, path.len() as int) =~= name);
}

proof fn lemma_file_name_before(path: Seq<char>, more: Seq<char>, j: int)
    requires
        0 <= j <= path.len(),
    ensures
        paths::part_start(path + more, j) == paths::part_start(path, j),
        0 <= paths::part_start(path, j) <= j,
        paths::file_name_before(path + more, j) == paths::file_name_before(path, j),
    decreases j,
{
    let all = path + more;
    lemma_part_start_of(path, more, j);
    let i = paths::part_start(path, j);
    assert(all.subrange(i, j) =~= path.subrange(i, j));
    if 0 < i {
        lemma_file_name_before(path, more, i - 1);
    }
}

proof fn lemma_part_start_of(path: Seq<char>, more: Seq<char>, j: int)
    requires
        0 <= j <= path.len(),
    ensures
        paths::part_start(path + more, j) == paths::part_start(path, j),
        0 <= paths::part_start(path, j) <= j,
    decreases j,
{
    if j > 0 {
        assert((path + more)[j - 1] == path[j - 1]);
        lemma_part_start_of(path, more, j - 1);
    }
}

/// A slash at the end of a path, or a dot behind one, does not change its file name.
pub proof fn file_names_do_not_end_in_slashes(path: Seq<char>)
    ensures
        paths::file_name(path + seq!['/']) == paths::file_name(path),
        paths::file_name(path + seq!['/', '.']) == paths::file_name(path),
{
    let n = path.len() as int;
    let a = path + seq!['/'];
    lemma_file_name_before(path, seq!['/'], n);
    assert(a[n] == '/');
    assert(paths::part_start(a, n + 1) == n + 1);
    assert(a.subrange(n + 1, n + 1) =~= Seq::<char>::empty());
    let b = path + seq!['/', '.'];
    lemma_file_name_before(path, seq!['/', '.'], n);
    assert(b[n] == '/' && b[n + 1] == '.');
    lemma_part_start(b, n + 1, n + 2);
    assert(b.subrange(n + 1, n + 2) =~= seq!['.']);
}

/// A path whose last part means the directory above has no file name.
pub proof fn directory_above_has_no_file_name(directory: Seq<char>)
    ensures
        paths::file_name(directory + seq!['/', '.', '.']) is None,
{
    let path = directory + seq!['/', '.', '.'];
    let i = directory.len() as int + 1;
    assert(path[i - 1] == '/');
    lemma_part_start(path, i, path.len() as int);
    assert(path.subrange(i, path.len() as int) =~= seq!['.', '.']);
}

/// A macOS app is known by the extension of its file name, in lower case.
pub proof fn macos_apps_have_their_extension(name: Seq<char>, extension: Seq<char>)
    requires
        name.len() > 0,
        !extension.contains('.'),
    ensures
        plan::names_macos_app(Some(name.push('.') + extension)) <==> extension == seq![
            'a',
            'p',
            'p',
        ],
        !plan::names_macos_app(Some(extension)),
        !plan::names_macos_app(None),
{
    names_split_at_their_last_dot(name, extension);
    reveal_strlit("app");
    assert("app"@ =~= seq!['a', 'p', 'p']);
}

/// A macOS app is addressed by its file name without the extension, and as `Codex` where it has no
/// file name.
pub proof fn macos_apps_are_addressed_by_their_stem(name: Seq<char>, extension: Seq<char>)
    requires
        name.len() > 0,
        !extension.contains('.'),
    ensures
        launch::name_of_app(Some(name.push('.') + extension)) == name,
        launch::name_of_app(Some(extension)) == extension,
        launch::name_of_app(None) == seq!['C', 'o', 'd', 'e', 'x'],
{
    names_split_at_their_last_dot(name, extension);
    reveal_strlit("Codex");
    assert("Codex"@ =~= seq!['C', 'o', 'd', 'e', 'x']);
}

/// Escaping puts a backslash before each double quote, and changes nothing else.
pub proof fn escaping_touches_quotes_alone(a: Seq<char>, b: Seq<char>, c: char)
    ensures
        launch::quotes_escaped(Seq::<char>::empty()) == Seq::<char>::empty(),
        launch::quotes_escaped(seq!['"']) == seq!['\\', '"'],
        c != '"' ==> launch::quotes_escaped(seq![c]) == seq![c],
        launch::quotes_escaped(a + b) == launch::quotes_escaped(a) + launch::quotes_escaped(b),
    decreases b.len(),
{
    reveal_with_fuel(launch::quotes_escaped, 2);
    assert(seq!['"'].drop_last() =~= Seq::<char>::empty());
    assert(seq![c].drop_last() =~= Seq::<char>::empty());
    assert(launch::quotes_escaped(seq!['"']) =~= seq!['\\', '"']);
    if c != '"' {
        assert(launch::quotes_escaped(seq![c]) =~= seq![c]);
    }
    if b.len() == 0 {
        assert(a + b =~= a);
        assert(launch::quotes_escaped(a) + launch::quotes_escaped(b) =~= launch::quotes_escaped(a));
    } else {
        escaping_touches_quotes_alone(a, b.drop_last(), c);
        assert((a + b).drop_last() =~= a + b.drop_last());
        assert((a + b).last() == b.last());
        assert(launch::quotes_escaped(a + b) =~= launch::quotes_escaped(a)
            + launch::quotes_escaped(b));
    }
}

/// The scripts name the app between double quotes: one asks it to quit, the other whether it runs.
pub proof fn scripts_name_the_app(name: Seq<char>)
    ensures
        launch::quit_command(name).len() == 3,
        launch::quit_command(name)[0] == "osascript"@,
        launch::quit_command(name)[1] == "-e"@,
        launch::quit_command(name)[2] == "tell application "@ + seq!['"'] + launch::quotes_escaped(
            name,
        ) + seq!['"'] + " to quit"@,
        launch::running_script(name) == "application "@ + seq!['"'] + launch::quotes_escaped(name)
            + seq!['"'] + " is running"@,
{
    reveal_strlit("tell application \"");
    reveal_strlit("tell application ");
    reveal_strlit("\" to quit");
    reveal_strlit(" to quit");
    reveal_strlit("application \"");
    reveal_strlit("application ");
    reveal_strlit("\" is running");
    reveal_strlit(" is running");
    assert("tell application \""@ =~= "tell application "@ + seq!['"']);
    assert("\" to quit"@ =~= seq!['"'] + " to quit"@);
    assert("application \""@ =~= "application "@ + seq!['"']);
    assert("\" is running"@ =~= seq!['"'] + " is running"@);
    let e = launch::quotes_escaped(name);
    assert(launch::quit_command(name)[2] =~= "tell application "@ + seq!['"'] + e + seq!['"']
        + " to quit"@);
    assert(launch::running_script(name) =~= "application "@ + seq!['"'] + e + seq!['"']
        + " is running"@);
}

proof fn lemma_flag_from(before: Seq<Seq<char>>, rest: Seq<Seq<char>>, k: int)
    requires
        !before.contains("-a"@),
        0 <= k <= before.len(),
    ensures
        launch::app_flag_from(before + seq!["-a"@] + rest, k) == before.len(),
    decreases before.len() - k,
{
    let command = before + seq!["-a"@] + rest;
    if k < before.len() {
        assert(command[k] == before[k]);
        assert(before.contains(before[k]));
        lemma_flag_from(before, rest, k + 1);
    } else {
        assert(command[k] == "-a"@);
    }
}

/// A command opens the app whose directory stands behind its first `-a`, and none where it has no
/// such option or nothing behind it.
pub proof fn opened_app_stands_behind_its_option(
    before: Seq<Seq<char>>,
    app_dir: Seq<char>,
    rest: Seq<Seq<char>>,
)
    requires
        !before.contains("-a"@),
    ensures
        launch::opened_app(before + seq!["-a"@, app_dir] + rest) == Some(app_dir),
        launch::opened_app(before.push("-a"@)) is None,
        launch::opened_app(before) is None,
{
    assert(before + seq!["-a"@, app_dir] + rest =~= before + seq!["-a"@] + (seq![app_dir] + rest));
    lemma_flag_from(before, seq![app_dir] + rest, 0);
    assert(before.push("-a"@) =~= before + seq!["-a"@] + Seq::<Seq<char>>::empty());
    lemma_flag_from(before, Seq::<Seq<char>>::empty(), 0);
    lemma_no_flag(before, 0);
}

proof fn lemma_no_flag(command: Seq<Seq<char>>, k: int)
    requires
        !command.contains("-a"@),
        0 <= k <= command.len(),
    ensures
        launch::app_flag_from(command, k) == command.len(),
    decreases command.len() - k,
{
    if k < command.len() {
        assert(command.contains(command[k]));
        lemma_no_flag(command, k + 1);
    }
}

/// A script answers that the app runs exactly by the word `true`, in whatever case, with white
/// space around it or without.
pub proof fn running_apps_answer_true(answer: Seq<char>)
    ensures
        launch::answers_true(answer) <==> text::lowered(text::trimmed(answer)) == seq![
            't',
            'r',
            'u',
            'e',
        ],
{
    reveal_strlit("true");
    assert(text::lowered("true"@) =~= seq!['t', 'r', 'u', 'e']);
}

// ---- the end of the app ------------------------------------------------------------------

/// What is waited for, and what is closed, is what was launched: a process that the launcher
/// started, or the one that Windows gave a number.
pub proof fn end_is_that_of_what_was_launched(launched: Launch, p: exit::TerminatePlan)
    requires
        p.closes(launched),
    ensures
        match launched {
            Launch::Process { .. } => exit::exit_wait(launched) is Child && p is KillChild,
            Launch::PackagedActivation { process_id: Some(id), .. } => exit::exit_wait(launched)
                == (exit::ExitWait::WindowsProcess { process_id: id }) && p == (
            exit::TerminatePlan::EndWindowsProcess { process_id: id }),
            Launch::PackagedActivation { process_id: None, .. } => exit::exit_wait(launched)
                is Nothing && p is Nothing,
        },
{
}

/// An app is asked to quit exactly where a command of the launcher waits for it, it did not run
/// before, and the command names it.
pub proof fn only_an_opened_app_is_asked_to_quit(launched: Launch, p: exit::TerminatePlan)
    requires
        p.closes(launched),
        p is KillChild,
    ensures
        p->quit_command is Some <==> (match launched {
            Launch::Process { command, wait_strategy, macos_cleanup_policy } => wait_strategy
                is ExternalWaitCommand && macos_cleanup_policy is Some && macos_cleanup_policy->0
                is QuitIfNotPreviouslyRunning && launch::opened_app(command) is Some,
            _ => false,
        }),
{
}

/// A macOS app that was opened, and did not run before, is asked to quit by its name, which is
/// that of its directory without the extension.
pub proof fn opened_app_is_asked_to_quit_by_its_name(
    directory: Seq<char>,
    name: Seq<char>,
    arguments: Seq<Seq<char>>,
    p: exit::TerminatePlan,
)
    requires
        name.len() > 0,
        !name.contains('/'),
        paths::is_portable(directory.push('/') + (name.push('.') + seq!['a', 'p', 'p'])),
        p.closes(
            Launch::Process {
                command: launch::open_command(
                    directory.push('/') + (name.push('.') + seq!['a', 'p', 'p']),
                    arguments,
                ),
                wait_strategy: ProcessWaitStrategy::ExternalWaitCommand,
                macos_cleanup_policy: Some(MacosCleanupPolicy::QuitIfNotPreviouslyRunning),
            },
        ),
    ensures
        p is KillChild,
        p->quit_command is Some,
        p->quit_command->0.deep_view() == seq![
            "osascript"@,
            "-e"@,
            "tell application "@ + seq!['"'] + launch::quotes_escaped(name) + seq!['"']
                + " to quit"@,
        ],
{
    let app_dir = directory.push('/') + (name.push('.') + seq!['a', 'p', 'p']);
    lemma_name_of_app_in(directory, name);
    assert(launch::opened_app(launch::open_command(app_dir, arguments)) == Some(app_dir)) by {
        plan::open_command_names_its_app(app_dir, arguments);
    }
    scripts_name_the_app(name);
    assert(launch::quit_command(name) =~= seq![
        "osascript"@,
        "-e"@,
        "tell application "@ + seq!['"'] + launch::quotes_escaped(name) + seq!['"'] + " to quit"@,
    ]);
}

proof fn lemma_name_of_app_in(directory: Seq<char>, name: Seq<char>)
    requires
        name.len() > 0,
        !name.contains('/'),
    ensures
        launch::name_of_app(
            paths::file_name(directory.push('/') + (name.push('.') + seq!['a', 'p', 'p'])),
        ) == name,
{
    let extension = seq!['a', 'p', 'p'];
    let file = name.push('.') + extension;
    assert forall|k: int| 0 <= k < file.len() implies #[trigger] file[k] != '/' by {
        if k < name.len() {
            assert(file[k] == name[k]);
            assert(name.contains(name[k]));
        }
    }
    assert(file.len() > 3);
    file_names_stand_behind_the_last_slash(directory, file);
    macos_apps_are_addressed_by_their_stem(name, extension);
}

/// An app that ran before it was opened is not asked to quit, and one that did not is.
pub proof fn only_an_app_that_ran_is_left(was_running: bool)
    ensures
        was_running <==> plan::cleanup_policy(was_running) is SkipQuitBecauseAlreadyRunning,
        !was_running <==> plan::cleanup_policy(was_running) is QuitIfNotPreviouslyRunning,
{
}

/// While the app does not count as gone, its processes are looked at again after two seconds.
pub proof fn processes_are_looked_at_every_two_seconds(streak: u32)
    ensures
        exit::step_at(streak) is Gone || exit::step_at(streak) == (exit::ExitStep::LookAgain {
            seconds: 2,
        }),
        exit::step_at(streak) is Gone <==> streak >= 3,
{
}

// ---- the relay profile -------------------------------------------------------------------

/// Without relay profiles nothing is changed. With them, the relay is cleared exactly for an
/// official profile without a key of its own, and the profile put in otherwise; either way the
/// computer-use guard is what the user has set.
pub proof fn relay_profile_decides_the_change(settings: BackendSettings)
    ensures
        ({
            let change = relay::relay_change(settings);
            let profile = settings.active_relay_profile;
            &&& change is Leave <==> !settings.relay_profiles_enabled
            &&& settings.relay_profiles_enabled ==> (change is Clear <==> profile.relay_mode
                is Official && !profile.official_mix_api_key)
            &&& change is Clear ==> change->Clear_computer_use_guard
                == settings.computer_use_guard_enabled
            &&& change is Apply ==> change->Apply_computer_use_guard
                == settings.computer_use_guard_enabled
        }),
{
}

/// Clearing the relay puts in the authentication of the profile as it is, unless that is blank.
pub proof fn clearing_keeps_the_authentication(settings: BackendSettings)
    requires
        relay::relay_change(settings) is Clear,
    ensures
        ({
            let given = settings.active_relay_profile.auth_contents@;
            let kept = relay::relay_change(settings)->auth_contents;
            &&& text::trimmed(given).len() > 0 ==> kept == Some(given)
            &&& text::trimmed(given).len() == 0 ==> kept is None
        }),
{
}

/// Putting a profile in carries the common part and the context, each without the white space
/// around it, with a blank line between them where both are there.
pub proof fn applying_carries_common_part_and_context(settings: BackendSettings)
    requires
        relay::relay_change(settings) is Apply,
    ensures
        ({
            let common = text::trimmed(settings.relay_common_config_contents@);
            let context = text::trimmed(settings.relay_context_config_contents@);
            let carried = relay::relay_change(settings)->common_config;
            &&& common.len() > 0 && context.len() > 0 ==> carried == common + seq!['\n', '\n']
                + context
            &&& context.len() == 0 ==> carried == common
            &&& common.len() == 0 ==> carried == context
        }),
{
    reveal_strlit("\n\n");
    assert("\n\n"@ =~= seq!['\n', '\n']);
    let common = text::trimmed(settings.relay_common_config_contents@);
    let context = text::trimmed(settings.relay_context_config_contents@);
    if common.len() == 0 && context.len() == 0 {
        assert(common =~= context);
    }
}

} // verus!
