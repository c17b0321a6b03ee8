//! What a launch does for its user, action by action.
use vstd::prelude::*;

use crate::launch::Launch;
use crate::session;
use crate::session::{Action, Course, Event, LaunchFlags, Phase};
use crate::session_laws;
use crate::settings::BackendSettings;

verus! {

// ---- what the settings ask for -----------------------------------------------------------

/// A launch under the user's settings that goes well syncs the providers, looks after the
/// computer-use configuration, starts the helper and injects the bridge exactly where the settings
/// ask for that, and launches the app in any case. The helper listens at the port of the protocol
/// proxy where that is in use.
pub proof fn settings_decide_what_a_launch_does(
    settings: BackendSettings,
    debug_port: u16,
    proxy_port: u16,
    helper_port: u16,
    world: spec_fn(Action) -> Event,
)
    requires
        session_laws::goes_well(world),
    ensures
        ({
            let actions = session_laws::actions_of(
                session::start_of(
                    session::flags_of(settings, debug_port, proxy_port),
                    helper_port,
                ),
                world,
                12,
            );
            let port = if settings.active_relay_uses_protocol_proxy {
                proxy_port
            } else {
                helper_port
            };
            &&& actions.contains(Action::RunProviderSync) <==> settings.provider_sync_enabled
            &&& actions.contains(Action::EnsurePluginMarketplace)
            &&& actions.contains(Action::EnsureComputerUse) <==> settings.computer_use_guard_enabled
            &&& actions.contains(Action::SanitizeHistory)
            &&& actions.contains(Action::StartHelper { helper_port: port }) <==> (
            settings.enhancements_enabled || settings.active_relay_uses_protocol_proxy)
            &&& actions.contains(Action::LaunchCodex { debug_port })
            &&& actions.contains(Action::StartGuardWatchdog)
                <==> settings.computer_use_guard_enabled
            &&& actions.contains(Action::EnsureInjection { debug_port, helper_port: port })
                <==> settings.enhancements_enabled
        }),
{
    let flags = session::flags_of(settings, debug_port, proxy_port);
    let port = session_laws::final_helper_port(flags, helper_port);
    let ready = session_laws::injects(world, debug_port, port);
    session_laws::launch_runs_its_actions(flags, helper_port, world);
    lemma_places(flags, helper_port, ready);
    lemma_order(flags, helper_port, ready);
}

/// A launch under the user's settings that goes well, and whose bridge gets into the page, cleans
/// the local storage, looks after the bridge and counts as running; without the bridge it counts
/// as running with less. Without enhancements it counts as running.
pub proof fn launch_records_what_it_reached(
    settings: BackendSettings,
    debug_port: u16,
    proxy_port: u16,
    helper_port: u16,
    world: spec_fn(Action) -> Event,
)
    requires
        session_laws::goes_well(world),
    ensures
        ({
            let actions = session_laws::actions_of(
                session::start_of(
                    session::flags_of(settings, debug_port, proxy_port),
                    helper_port,
                ),
                world,
                12,
            );
            let port = if settings.active_relay_uses_protocol_proxy {
                proxy_port
            } else {
                helper_port
            };
            let injection = world(Action::EnsureInjection { debug_port, helper_port: port });
            let running = Action::SaveStatus {
                status: "running"@,
                message: "Codex++ launcher ready"@,
                debug_port,
                helper_port: port,
            };
            let degraded = Action::SaveStatus {
                status: "running_degraded"@,
                message:
                    "Codex launched; Codex++ enhancements are still waiting for the page bridge."@,
                debug_port,
                helper_port: port,
            };
            &&& settings.enhancements_enabled && injection == Event::Injected(true) ==> {
                &&& actions.contains(Action::SanitizeLocalStorage { debug_port })
                &&& actions.contains(Action::StartBridgeWatchdog { debug_port, helper_port: port })
                &&& actions[actions.len() - 2] == running
                &&& actions.last() == Action::WriteStatus { status: "running"@ }
            }
            &&& settings.enhancements_enabled && injection == Event::Injected(false) ==> {
                &&& !actions.contains(Action::SanitizeLocalStorage { debug_port })
                &&& !actions.contains(Action::StartBridgeWatchdog { debug_port, helper_port: port })
                &&& actions[actions.len() - 2] == degraded
                &&& actions.last() == Action::WriteStatus { status: "running_degraded"@ }
            }
            &&& !settings.enhancements_enabled ==> {
                &&& !actions.contains(Action::SanitizeLocalStorage { debug_port })
                &&& !actions.contains(Action::StartBridgeWatchdog { debug_port, helper_port: port })
                &&& actions[actions.len() - 2] == running
                &&& actions.last() == Action::WriteStatus { status: "running"@ }
            }
        }),
{
    let flags = session::flags_of(settings, debug_port, proxy_port);
    let port = session_laws::final_helper_port(flags, helper_port);
    let ready = session_laws::injects(world, debug_port, port);
    session_laws::launch_runs_its_actions(flags, helper_port, world);
    lemma_places(flags, helper_port, ready);
    lemma_order(flags, helper_port, ready);
    let s = session_laws::launch_actions(flags, helper_port, ready);
    let tail = session_laws::injection_actions(session::start_of(flags, port), ready);
    assert(s[s.len() - 2] == tail[tail.len() - 2]);
    assert(s[s.len() - 1] == tail[tail.len() - 1]);
}

/// How far into a launch an action belongs.
pub open spec fn place(a: Action) -> int {
    match a {
        Action::RunProviderSync => 0,
        Action::EnsurePluginMarketplace => 1,
        Action::EnsureComputerUse => 2,
        Action::SanitizeHistory => 3,
        Action::StartHelper { .. } => 4,
        Action::LaunchCodex { .. } => 5,
        Action::StartGuardWatchdog => 6,
        Action::EnsureInjection { .. } => 7,
        Action::SanitizeLocalStorage { .. } => 8,
        Action::StartBridgeWatchdog { .. } => 9,
        Action::SaveStatus { .. } => 10,
        Action::WriteStatus { .. } => 11,
        _ => 12,
    }
}

/// The actions of a launch that goes well come each at most once, and in their order: the providers
/// are synced before anything else, the helper is up before the app, the app before the bridge, and
/// the bridge before the launch counts as running. None of them undoes anything.
pub proof fn actions_come_in_order(
    flags: LaunchFlags,
    helper_port: u16,
    world: spec_fn(Action) -> Event,
    i: int,
    j: int,
)
    requires
        session_laws::goes_well(world),
        0 <= i < j < session_laws::actions_of(
            session::start_of(flags, helper_port),
            world,
            12,
        ).len(),
    ensures
        ({
            let actions = session_laws::actions_of(
                session::start_of(flags, helper_port),
                world,
                12,
            );
            place(actions[i]) < place(actions[j]) < 12
        }),
{
    let port = session_laws::final_helper_port(flags, helper_port);
    let ready = session_laws::injects(world, flags.debug_port, port);
    session_laws::launch_runs_its_actions(flags, helper_port, world);
    lemma_order(flags, helper_port, ready);
}

// ---- the list of actions, piece by piece -------------------------------------------------

spec fn count(holds: bool) -> int {
    if holds {
        1
    } else {
        0
    }
}

/// Where the actions of a launch that goes well stand in their list.
proof fn lemma_places(flags: LaunchFlags, helper_port: u16, ready: bool)
    ensures
        ({
            let s = session_laws::launch_actions(flags, helper_port, ready);
            let port = session_laws::final_helper_port(flags, helper_port);
            let a = count(flags.provider_sync);
            let b = a + 1 + count(flags.computer_use_guard);
            let c = b + 1 + count(flags.enhancements || flags.protocol_proxy);
            let d = c + 1 + count(flags.computer_use_guard);
            let tail = session_laws::injection_actions(session::start_of(flags, port), ready);
            &&& s.len() == d + tail.len()
            &&& flags.provider_sync ==> s[0] == Action::RunProviderSync
            &&& s[a] == Action::EnsurePluginMarketplace
            &&& flags.computer_use_guard ==> s[a + 1] == Action::EnsureComputerUse
            &&& s[b] == Action::SanitizeHistory
            &&& flags.enhancements || flags.protocol_proxy ==> s[b + 1] == Action::StartHelper {
                helper_port: port,
            }
            &&& s[c] == Action::LaunchCodex { debug_port: flags.debug_port }
            &&& flags.computer_use_guard ==> s[c + 1] == Action::StartGuardWatchdog
            &&& forall|k: int| d <= k < s.len() ==> #[trigger] s[k] == tail[k - d]
            &&& flags.enhancements && ready ==> tail.len() == 5 && s[d]
                == Action::EnsureInjection { debug_port: flags.debug_port, helper_port: port }
                && s[d + 1] == Action::SanitizeLocalStorage { debug_port: flags.debug_port } && s[d
                + 2] == Action::StartBridgeWatchdog {
                debug_port: flags.debug_port,
                helper_port: port,
            }
            &&& flags.enhancements && !ready ==> tail.len() == 3 && s[d]
                == Action::EnsureInjection { debug_port: flags.debug_port, helper_port: port }
            &&& !flags.enhancements ==> tail.len() == 2
            &&& s[s.len() - 2] is SaveStatus && s[s.len() - 1] is WriteStatus
        }),
{
    let s = session_laws::launch_actions(flags, helper_port, ready);
    let port = session_laws::final_helper_port(flags, helper_port);
    let tail = session_laws::injection_actions(session::start_of(flags, port), ready);
    let head = session_laws::preparing_actions(flags, helper_port);
    let middle = seq![Action::LaunchCodex { debug_port: flags.debug_port }]
        + session_laws::only_if(flags.computer_use_guard, Action::StartGuardWatchdog);
    assert(s =~= head + middle + tail);
    assert(s[s.len() - 2] == tail[tail.len() - 2]);
    assert(s[s.len() - 1] == tail[tail.len() - 1]);
}

/// The actions stand in the order of their places, and those that a flag asks for are there only
/// where it does.
proof fn lemma_order(flags: LaunchFlags, helper_port: u16, ready: bool)
    ensures
        ({
            let s = session_laws::launch_actions(flags, helper_port, ready);
            let port = session_laws::final_helper_port(flags, helper_port);
            &&& forall|i: int, j: int|
                0 <= i < j < s.len() ==> place(#[trigger] s[i]) < place(#[trigger] s[j])
            &&& forall|i: int|
                0 <= i < s.len() ==> place(#[trigger] s[i]) < 12 && match s[i] {
                    Action::RunProviderSync => flags.provider_sync,
                    Action::EnsureComputerUse => flags.computer_use_guard,
                    Action::StartHelper { .. } => flags.enhancements || flags.protocol_proxy,
                    Action::StartGuardWatchdog => flags.computer_use_guard,
                    Action::EnsureInjection { .. } => flags.enhancements,
                    Action::SanitizeLocalStorage { .. } => flags.enhancements && ready,
                    Action::StartBridgeWatchdog { .. } => flags.enhancements && ready,
                    _ => true,
                }
        }),
{
    lemma_places(flags, helper_port, ready);
}

// ---- what a launch knows -----------------------------------------------------------------

/// The helper counts as started from the moment on at which starting it went well.
pub proof fn helper_is_up_once_it_was_started(c: Course, event: Event)
    ensures
        session::after(c, event).helper_started <==> c.helper_started || (session::action_of(
            c,
        ) is StartHelper && event is Done),
{
}

/// The app counts as launched from the moment on at which launching it went well, as what that
/// brought up.
pub proof fn app_is_up_once_it_was_launched(c: Course, event: Event)
    ensures
        session::after(c, event).launched == match (session::action_of(c), event) {
            (Action::LaunchCodex { .. }, Event::Launched(launch)) => Some(launch),
            _ => c.launched,
        },
{
}

/// A launched app is kept from its launch on, and no longer once the bridge is in its page.
pub proof fn app_is_kept_up_to_its_injection(c: Course, event: Event)
    ensures
        session::after(c, event).keep_launched == match (session::action_of(c), event) {
            (Action::LaunchCodex { .. }, Event::Launched(_)) => true,
            (Action::EnsureInjection { .. }, Event::Injected(true)) => false,
            _ => c.keep_launched,
        },
{
}

/// What a launch is to do never changes, and the port of the helper only with the cleaning of the
/// history, before the helper is started: it becomes the one of the protocol proxy where that is
/// in use.
pub proof fn launch_keeps_its_ports(c: Course, event: Event)
    ensures
        session::after(c, event).flags == c.flags,
        session::after(c, event).helper_port == if session::action_of(c) is SanitizeHistory
            && c.flags.protocol_proxy && (event is Done || event is Failed) {
            c.flags.proxy_port
        } else {
            c.helper_port
        },
{
}

/// An event that does not answer the action that a launch waits for changes nothing: a launch of
/// the app is answered by what it brought up or a failure, an injection by whether the bridge is
/// in the page, and any other action by its end or a failure.
pub proof fn only_answers_count(c: Course, event: Event)
    requires
        match session::action_of(c) {
            Action::LaunchCodex { .. } => event is Done || event is Injected,
            Action::EnsureInjection { .. } => !(event is Injected),
            _ => event is Launched || event is Injected,
        },
    ensures
        session::after(c, event) == c,
{
}

/// A launch that runs, or that failed, has nothing more to do, and no event changes it.
pub proof fn launch_that_is_over_stays_so(c: Course, event: Event)
    requires
        c.phase is Running || c.phase is Failed,
    ensures
        session::action_of(c) is Finish,
        session::after(c, event) == c,
{
}

/// A launch is at first without a helper, an app and an error, and at the port that it was given.
pub proof fn launch_begins_with_nothing_up(flags: LaunchFlags, helper_port: u16)
    ensures
        ({
            let c = session::start_of(flags, helper_port);
            &&& c.flags == flags
            &&& c.helper_port == helper_port
            &&& !c.helper_started
            &&& c.launched is None
            &&& c.error.len() == 0
            &&& flags.provider_sync <==> session::action_of(c) is RunProviderSync
            &&& !flags.provider_sync <==> session::action_of(c) is EnsurePluginMarketplace
        }),
{
}

// ---- what a failure undoes ---------------------------------------------------------------

/// Whether a launch cannot do without an action: it can do without the plugin marketplace, the
/// cleaning of the history and of the local storage, and without what undoes it.
pub open spec fn is_needed(a: Action) -> bool {
    match a {
        Action::RunProviderSync => true,
        Action::EnsureComputerUse => true,
        Action::StartHelper { .. } => true,
        Action::LaunchCodex { .. } => true,
        Action::StartGuardWatchdog => true,
        Action::StartBridgeWatchdog { .. } => true,
        Action::SaveStatus { status, .. } => status == "running"@ || status == "running_degraded"@,
        _ => false,
    }
}

proof fn lemma_statuses()
    ensures
        "running"@ != "failed"@,
        "running_degraded"@ != "failed"@,
{
    reveal_strlit("running");
    reveal_strlit("running_degraded");
    reveal_strlit("failed");
    assert("running"@.len() != "failed"@.len());
    assert("running_degraded"@.len() != "failed"@.len());
}

proof fn lemma_needed(c: Course)
    requires
        is_needed(session::action_of(c)),
    ensures
        session::is_fatal(c.phase),
{
    lemma_statuses();
}

/// A launch that fails in an action that it cannot do without shuts the helper down exactly where
/// it is up, at its port; it closes the app exactly where one is up that is not kept, and closes
/// what it launched; it shuts the helper down before that; it records the failure with its message
/// last; and it ends.
pub proof fn needed_failure_undoes_what_is_up(
    c: Course,
    message: Seq<char>,
    world: spec_fn(Action) -> Event,
)
    requires
        is_needed(session::action_of(c)),
        session_laws::answers_all(world),
    ensures
        ({
            let d = session::after(c, Event::Failed(message));
            let actions = session_laws::actions_of(d, world, 4);
            let end = session_laws::reached(d, world, 4);
            &&& forall|port: u16|
                #[trigger] actions.contains(Action::ShutdownHelper { helper_port: port }) <==> (
                c.helper_started && port == c.helper_port)
            &&& forall|launch: Launch|
                #[trigger] actions.contains(Action::TerminateCodex { launch }) <==> (c.launched
                    == Some(launch) && !c.keep_launched)
            &&& c.helper_started ==> actions[0] is ShutdownHelper
            &&& actions.len() >= 2
            &&& actions[actions.len() - 2] == Action::SaveStatus {
                status: "failed"@,
                message,
                debug_port: c.flags.debug_port,
                helper_port: c.helper_port,
            }
            &&& actions.last() == Action::WriteStatus { status: "failed"@ }
            &&& actions.len() <= 4
            &&& end.phase == Phase::Failed
            &&& end.error == message
        }),
{
    lemma_needed(c);
    session_laws::failure_undoes_the_launch(c, message, world);
    let d = session::after(c, Event::Failed(message));
    let actions = session_laws::actions_of(d, world, 4);
    let closing = match c.launched {
        Some(launch) => session_laws::only_if(!c.keep_launched, Action::TerminateCodex { launch }),
        None => seq![],
    };
    let first = session_laws::only_if(
        c.helper_started,
        Action::ShutdownHelper { helper_port: c.helper_port },
    );
    let last = seq![
        session::saved(c, "failed"@, message),
        Action::WriteStatus { status: "failed"@ },
    ];
    assert(actions =~= first + closing + last);
    if c.helper_started {
        assert(actions[0] == Action::ShutdownHelper { helper_port: c.helper_port });
    }
    if c.launched is Some && !c.keep_launched {
        assert(actions[first.len() as int] == Action::TerminateCodex { launch: c.launched->0 });
    }
    let at: int = first.len() as int + closing.len() as int;
    assert(actions[at] == last[0]);
    assert(actions[at + 1] == last[1]);
    assert forall|k: int| 0 <= k < actions.len() implies {
        ||| k < first.len() && #[trigger] actions[k] == first[k]
        ||| first.len() <= k < first.len() + closing.len() && actions[k] == closing[k - first.len()]
        ||| actions[k] is SaveStatus
        ||| actions[k] is WriteStatus
    } by {
        if k >= first.len() + closing.len() {
            assert(actions[k] == last[k - first.len() - closing.len()]);
        }
    }
}

/// A launch goes on after an action that failed and that it can do without, as it would have after
/// one that went well.
pub proof fn launch_goes_on_without_the_rest(c: Course, message: Seq<char>)
    requires
        match session::action_of(c) {
            Action::EnsurePluginMarketplace => true,
            Action::SanitizeHistory => true,
            Action::SanitizeLocalStorage { .. } => true,
            _ => false,
        },
    ensures
        session::after(c, Event::Failed(message)) == session::after(c, Event::Done),
        session::after(c, Event::Failed(message)).phase != c.phase,
        !(session::action_of(session::after(c, Event::Failed(message))) is ShutdownHelper),
        !(session::action_of(session::after(c, Event::Failed(message))) is TerminateCodex),
{
}

} // verus!
