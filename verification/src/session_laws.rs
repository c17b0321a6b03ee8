//! What holds of every launch, whatever comes of its actions.
use vstd::prelude::*;

use crate::session;
use crate::session::{Action, Course, Event, LaunchFlags, Phase};

verus! {

// ---- runs --------------------------------------------------------------------------------

/// Whether a launch is over.
pub open spec fn is_over(c: Course) -> bool {
    c.phase == Phase::Running || c.phase == Phase::Failed
}

/// The course after the next action of a launch, with what the world answers to it.
pub open spec fn next(c: Course, world: spec_fn(Action) -> Event) -> Course {
    session::after(c, world(session::action_of(c)))
}

/// The first `n` actions of a launch from a course on, fewer where it ends before that.
pub open spec fn actions_of(c: Course, world: spec_fn(Action) -> Event, n: nat) -> Seq<Action>
    decreases n,
{
    if n == 0 || is_over(c) {
        seq![]
    } else {
        seq![session::action_of(c)] + actions_of(next(c, world), world, (n - 1) as nat)
    }
}

/// The course of a launch after its first `n` actions from a course on.
pub open spec fn reached(c: Course, world: spec_fn(Action) -> Event, n: nat) -> Course
    decreases n,
{
    if n == 0 || is_over(c) {
        c
    } else {
        reached(next(c, world), world, (n - 1) as nat)
    }
}

/// Whether a world answers each action with an event that fits it.
pub open spec fn answers_all(world: spec_fn(Action) -> Event) -> bool {
    forall|a: Action|
        match a {
            Action::LaunchCodex { .. } => #[trigger] world(a) is Launched || world(a) is Failed,
            Action::EnsureInjection { .. } => world(a) is Injected,
            _ => world(a) is Done || world(a) is Failed,
        }
}

/// Whether no action fails but those that a launch can do without.
pub open spec fn goes_well(world: spec_fn(Action) -> Event) -> bool {
    forall|a: Action|
        match a {
            Action::LaunchCodex { .. } => #[trigger] world(a) is Launched,
            Action::EnsureInjection { .. } => world(a) is Injected,
            Action::EnsurePluginMarketplace => world(a) is Done || world(a) is Failed,
            Action::SanitizeHistory => world(a) is Done || world(a) is Failed,
            Action::SanitizeLocalStorage { .. } => world(a) is Done || world(a) is Failed,
            _ => world(a) is Done,
        }
}

/// A list of one action, or none.
pub open spec fn only_if(holds: bool, a: Action) -> Seq<Action> {
    if holds {
        seq![a]
    } else {
        seq![]
    }
}

// ---- the actions of a launch that goes well ----------------------------------------------

/// The port of the helper from the time on when it is started.
pub open spec fn final_helper_port(flags: LaunchFlags, helper_port: u16) -> u16 {
    if flags.protocol_proxy {
        flags.proxy_port
    } else {
        helper_port
    }
}

/// The last actions of a launch that runs.
pub open spec fn closing_actions(c: Course, degraded: bool) -> Seq<Action> {
    if degraded {
        seq![
            session::saved(c, "running_degraded"@, session::degraded_message()),
            Action::WriteStatus { status: "running_degraded"@ },
        ]
    } else {
        seq![
            session::saved(c, "running"@, "Codex++ launcher ready"@),
            Action::WriteStatus { status: "running"@ },
        ]
    }
}

/// The actions of a launch from injection on.
pub open spec fn injection_actions(c: Course, ready: bool) -> Seq<Action> {
    let debug_port = c.flags.debug_port;
    let helper_port = c.helper_port;
    if !c.flags.enhancements {
        closing_actions(c, false)
    } else if ready {
        seq![
            Action::EnsureInjection { debug_port, helper_port },
            Action::SanitizeLocalStorage { debug_port },
            Action::StartBridgeWatchdog { debug_port, helper_port },
        ] + closing_actions(c, false)
    } else {
        seq![Action::EnsureInjection { debug_port, helper_port }] + closing_actions(c, true)
    }
}

/// The actions of a launch before the app is launched.
pub open spec fn preparing_actions(flags: LaunchFlags, helper_port: u16) -> Seq<Action> {
    only_if(flags.provider_sync, Action::RunProviderSync) + seq![Action::EnsurePluginMarketplace]
        + only_if(flags.computer_use_guard, Action::EnsureComputerUse) + seq![
        Action::SanitizeHistory,
    ] + only_if(
        flags.enhancements || flags.protocol_proxy,
        Action::StartHelper { helper_port: final_helper_port(flags, helper_port) },
    )
}

/// All actions of a launch that goes well.
pub open spec fn launch_actions(flags: LaunchFlags, helper_port: u16, ready: bool) -> Seq<Action> {
    preparing_actions(flags, helper_port) + seq![
        Action::LaunchCodex { debug_port: flags.debug_port },
    ] + only_if(flags.computer_use_guard, Action::StartGuardWatchdog) + injection_actions(
        session::start_of(flags, final_helper_port(flags, helper_port)),
        ready,
    )
}

/// Whether the world reports that the bridge is in the page.
pub open spec fn injects(
    world: spec_fn(Action) -> Event,
    debug_port: u16,
    helper_port: u16,
) -> bool {
    world(Action::EnsureInjection { debug_port, helper_port })->Injected_0
}

proof fn lemma_closing(c: Course, world: spec_fn(Action) -> Event, n: nat)
    requires
        goes_well(world),
        n >= 2,
        c.phase == Phase::SaveRunning || c.phase == Phase::SaveDegraded,
    ensures
        actions_of(c, world, n) == closing_actions(c, c.phase == Phase::SaveDegraded),
        reached(c, world, n) == (Course { phase: Phase::Running, ..c }),
{
    let d = next(c, world);
    let e = next(d, world);
    assert(actions_of(e, world, (n - 2) as nat) =~= seq![]);
    assert(actions_of(d, world, (n - 1) as nat) =~= seq![session::action_of(d)]);
    assert(actions_of(c, world, n) =~= seq![session::action_of(c), session::action_of(d)]);
    assert(reached(e, world, (n - 2) as nat) == e);
    assert(reached(d, world, (n - 1) as nat) == e);
}

proof fn lemma_injection(c: Course, world: spec_fn(Action) -> Event, n: nat)
    requires
        goes_well(world),
        n >= 5,
        c.phase == session::phase_with_app(c.flags),
    ensures
        actions_of(c, world, n) == injection_actions(
            c,
            injects(world, c.flags.debug_port, c.helper_port),
        ),
        reached(c, world, n).phase == Phase::Running,
        reached(c, world, n).launched == c.launched,
        reached(c, world, n).helper_port == c.helper_port,
        reached(c, world, n).helper_started == c.helper_started,
        reached(c, world, n).flags == c.flags,
{
    if !c.flags.enhancements {
        lemma_closing(c, world, n);
    } else {
        let d = next(c, world);
        if injects(world, c.flags.debug_port, c.helper_port) {
            let e = next(d, world);
            let f = next(e, world);
            lemma_closing(f, world, (n - 3) as nat);
            assert(closing_actions(f, false) =~= closing_actions(c, false));
            assert(actions_of(e, world, (n - 2) as nat) =~= seq![session::action_of(e)]
                + closing_actions(c, false));
            assert(actions_of(d, world, (n - 1) as nat) =~= seq![
                session::action_of(d),
                session::action_of(e),
            ] + closing_actions(c, false));
            assert(actions_of(c, world, n) =~= seq![
                session::action_of(c),
                session::action_of(d),
                session::action_of(e),
            ] + closing_actions(c, false));
            assert(reached(e, world, (n - 2) as nat) == reached(f, world, (n - 3) as nat));
            assert(reached(d, world, (n - 1) as nat) == reached(e, world, (n - 2) as nat));
        } else {
            lemma_closing(d, world, (n - 1) as nat);
            assert(closing_actions(d, true) =~= closing_actions(c, true));
        }
    }
}

proof fn lemma_launching(c: Course, world: spec_fn(Action) -> Event, n: nat)
    requires
        goes_well(world),
        n >= 7,
        c.phase == Phase::Launching,
    ensures
        actions_of(c, world, n) == seq![Action::LaunchCodex { debug_port: c.flags.debug_port }]
            + only_if(c.flags.computer_use_guard, Action::StartGuardWatchdog) + injection_actions(
            c,
            injects(world, c.flags.debug_port, c.helper_port),
        ),
        reached(c, world, n).phase == Phase::Running,
        reached(c, world, n).launched == Some(world(session::action_of(c))->Launched_0),
        reached(c, world, n).helper_port == c.helper_port,
        reached(c, world, n).helper_started == c.helper_started,
        reached(c, world, n).flags == c.flags,
{
    let ready = injects(world, c.flags.debug_port, c.helper_port);
    let d = next(c, world);
    if c.flags.computer_use_guard {
        let e = next(d, world);
        lemma_injection(e, world, (n - 2) as nat);
        assert(injection_actions(e, ready) =~= injection_actions(c, ready));
        assert(actions_of(d, world, (n - 1) as nat) =~= seq![Action::StartGuardWatchdog]
            + injection_actions(c, ready));
        assert(reached(d, world, (n - 1) as nat) == reached(e, world, (n - 2) as nat));
    } else {
        lemma_injection(d, world, (n - 1) as nat);
        assert(injection_actions(d, ready) =~= injection_actions(c, ready));
    }
}

proof fn lemma_history(c: Course, world: spec_fn(Action) -> Event, n: nat)
    requires
        goes_well(world),
        n >= 9,
        c.phase == Phase::History,
        !c.helper_started,
    ensures
        ({
            let port = final_helper_port(c.flags, c.helper_port);
            let helps = c.flags.enhancements || c.flags.protocol_proxy;
            &&& actions_of(c, world, n) == seq![Action::SanitizeHistory] + only_if(
                helps,
                Action::StartHelper { helper_port: port },
            ) + seq![Action::LaunchCodex { debug_port: c.flags.debug_port }] + only_if(
                c.flags.computer_use_guard,
                Action::StartGuardWatchdog,
            ) + injection_actions(
                session::start_of(c.flags, port),
                injects(world, c.flags.debug_port, port),
            )
            &&& reached(c, world, n).phase == Phase::Running
            &&& reached(c, world, n).launched == Some(
                world(Action::LaunchCodex { debug_port: c.flags.debug_port })->Launched_0,
            )
            &&& reached(c, world, n).helper_port == port
            &&& reached(c, world, n).helper_started == helps
            &&& reached(c, world, n).flags == c.flags
        }),
{
    let port = final_helper_port(c.flags, c.helper_port);
    let ready = injects(world, c.flags.debug_port, port);
    let s = session::start_of(c.flags, port);
    let d = next(c, world);
    let rest = seq![Action::LaunchCodex { debug_port: c.flags.debug_port }] + only_if(
        c.flags.computer_use_guard,
        Action::StartGuardWatchdog,
    ) + injection_actions(s, ready);
    if c.flags.enhancements || c.flags.protocol_proxy {
        let e = next(d, world);
        lemma_launching(e, world, (n - 2) as nat);
        assert(injection_actions(e, ready) =~= injection_actions(s, ready));
        assert(actions_of(d, world, (n - 1) as nat) =~= seq![
            Action::StartHelper { helper_port: port },
        ] + rest);
        assert(actions_of(c, world, n) =~= seq![Action::SanitizeHistory] + (seq![
            Action::StartHelper { helper_port: port },
        ] + rest));
        assert(reached(d, world, (n - 1) as nat) == reached(e, world, (n - 2) as nat));
    } else {
        lemma_launching(d, world, (n - 1) as nat);
        assert(injection_actions(d, ready) =~= injection_actions(s, ready));
        assert(actions_of(c, world, n) =~= seq![Action::SanitizeHistory] + rest);
    }
}

proof fn lemma_marketplace(c: Course, world: spec_fn(Action) -> Event, n: nat)
    requires
        goes_well(world),
        n >= 11,
        c.phase == Phase::PluginMarketplace,
        !c.helper_started,
    ensures
        ({
            let port = final_helper_port(c.flags, c.helper_port);
            let helps = c.flags.enhancements || c.flags.protocol_proxy;
            &&& actions_of(c, world, n) == seq![Action::EnsurePluginMarketplace] + only_if(
                c.flags.computer_use_guard,
                Action::EnsureComputerUse,
            ) + seq![Action::SanitizeHistory] + only_if(
                helps,
                Action::StartHelper { helper_port: port },
            ) + seq![Action::LaunchCodex { debug_port: c.flags.debug_port }] + only_if(
                c.flags.computer_use_guard,
                Action::StartGuardWatchdog,
            ) + injection_actions(
                session::start_of(c.flags, port),
                injects(world, c.flags.debug_port, port),
            )
            &&& reached(c, world, n).phase == Phase::Running
            &&& reached(c, world, n).launched == Some(
                world(Action::LaunchCodex { debug_port: c.flags.debug_port })->Launched_0,
            )
            &&& reached(c, world, n).helper_port == port
            &&& reached(c, world, n).helper_started == helps
        }),
{
    let d = next(c, world);
    if c.flags.computer_use_guard {
        let e = next(d, world);
        lemma_history(e, world, (n - 2) as nat);
        let rest = actions_of(e, world, (n - 2) as nat);
        assert(actions_of(d, world, (n - 1) as nat) =~= seq![Action::EnsureComputerUse] + rest);
        assert(actions_of(c, world, n) =~= seq![
            Action::EnsurePluginMarketplace,
            Action::EnsureComputerUse,
        ] + rest);
        assert(reached(d, world, (n - 1) as nat) == reached(e, world, (n - 2) as nat));
    } else {
        lemma_history(d, world, (n - 1) as nat);
    }
}

/// A launch in which nothing fails that it needs does all its actions in their order, whatever
/// comes of those that it can do without, and ends with the app running. The helper is started
/// where there are enhancements or a protocol proxy, at the proxy's port where there is one.
pub proof fn launch_runs_its_actions(
    flags: LaunchFlags,
    helper_port: u16,
    world: spec_fn(Action) -> Event,
)
    requires
        goes_well(world),
    ensures
        ({
            let c = session::start_of(flags, helper_port);
            let port = final_helper_port(flags, helper_port);
            let end = reached(c, world, 12);
            &&& actions_of(c, world, 12) == launch_actions(
                flags,
                helper_port,
                injects(world, flags.debug_port, port),
            )
            &&& end.phase == Phase::Running
            &&& end.launched == Some(
                world(Action::LaunchCodex { debug_port: flags.debug_port })->Launched_0,
            )
            &&& end.helper_port == port
            &&& end.helper_started == (flags.enhancements || flags.protocol_proxy)
        }),
{
    let c = session::start_of(flags, helper_port);
    let port = final_helper_port(flags, helper_port);
    let ready = injects(world, flags.debug_port, port);
    if flags.provider_sync {
        let d = next(c, world);
        lemma_marketplace(d, world, 11);
        assert(actions_of(c, world, 12) =~= seq![Action::RunProviderSync] + actions_of(
            d,
            world,
            11,
        ));
        assert(actions_of(c, world, 12) =~= launch_actions(flags, helper_port, ready));
        assert(reached(c, world, 12) == reached(d, world, 11));
    } else {
        lemma_marketplace(c, world, 12);
        assert(actions_of(c, world, 12) =~= launch_actions(flags, helper_port, ready));
    }
}

// ---- failures ----------------------------------------------------------------------------

/// The actions that undo a launch.
pub open spec fn undo_actions(c: Course, message: Seq<char>) -> Seq<Action> {
    only_if(c.helper_started, Action::ShutdownHelper { helper_port: c.helper_port }) + (
    match c.launched {
        Some(launch) => only_if(!c.keep_launched, Action::TerminateCodex { launch }),
        None => seq![],
    }) + seq![
        session::saved(c, "failed"@, message),
        Action::WriteStatus { status: "failed"@ },
    ]
}

/// A failure in an action that a launch needs shuts the helper down if and only if it was
/// started, closes the app if and only if it was launched and is not to be kept, records the
/// failure with its message, and ends the launch with that message, whatever comes of undoing.
pub proof fn failure_undoes_the_launch(
    c: Course,
    message: Seq<char>,
    world: spec_fn(Action) -> Event,
)
    requires
        session::is_fatal(c.phase),
        answers_all(world),
    ensures
        ({
            let d = session::after(c, Event::Failed(message));
            &&& actions_of(d, world, 4) == undo_actions(c, message)
            &&& reached(d, world, 4).phase == Phase::Failed
            &&& reached(d, world, 4).error == message
        }),
{
    let d = session::after(c, Event::Failed(message));
    let terminate = if c.helper_started {
        next(d, world)
    } else {
        d
    };
    let k: nat = if c.helper_started {
        3
    } else {
        4
    };
    let save = if session::closes_app(c) {
        next(terminate, world)
    } else {
        terminate
    };
    let m: nat = if session::closes_app(c) {
        (k - 1) as nat
    } else {
        k
    };
    let write = next(save, world);
    let end = next(write, world);
    assert(terminate.phase == if session::closes_app(c) {
        Phase::Terminate
    } else {
        Phase::SaveFailed
    });
    assert(save.phase == Phase::SaveFailed);
    assert(write.phase == Phase::WriteFailed);
    assert(end.phase == Phase::Failed);
    assert(actions_of(end, world, (m - 2) as nat) =~= seq![]);
    assert(actions_of(write, world, (m - 1) as nat) =~= seq![session::action_of(write)]);
    let last = seq![session::action_of(save), session::action_of(write)];
    assert(actions_of(save, world, m) =~= last);
    let closing = match c.launched {
        Some(launch) => only_if(!c.keep_launched, Action::TerminateCodex { launch }),
        None => seq![],
    };
    assert(actions_of(terminate, world, k) =~= closing + last);
    assert(reached(end, world, (m - 2) as nat) == end);
    assert(reached(write, world, (m - 1) as nat) == end);
    assert(reached(save, world, m) == end);
    assert(reached(terminate, world, k) == end);
    assert(reached(d, world, 4) == end);
    assert(actions_of(d, world, 4) =~= undo_actions(c, message));
}

/// A failure in an action that a launch can do without is passed over.
pub proof fn other_failures_are_passed_over(c: Course, message: Seq<char>)
    requires
        !session::is_fatal(c.phase),
        session::answers(c.phase, Event::Failed(message)),
    ensures
        session::after(c, Event::Failed(message)) == session::after(c, Event::Done),
{
}

// ---- invariants --------------------------------------------------------------------------

/// Whether the helper, where there is one, is up in a phase of a launch that goes well.
pub open spec fn follows_helper(phase: Phase) -> bool {
    match phase {
        Phase::Launching => true,
        _ => follows_launch(phase),
    }
}

/// Whether the app is up in a phase of a launch that goes well.
pub open spec fn follows_launch(phase: Phase) -> bool {
    match phase {
        Phase::GuardWatchdog => true,
        Phase::Injection => true,
        Phase::SaveDegraded => true,
        Phase::WriteDegraded => true,
        Phase::SaveRunning => true,
        Phase::WriteRunning => true,
        Phase::Running => true,
        _ => follows_injection(phase),
    }
}

/// Whether a phase comes only once the bridge is in the page.
pub open spec fn follows_injection(phase: Phase) -> bool {
    phase == Phase::LocalStorage || phase == Phase::BridgeWatchdog
}

/// Whether a phase belongs to undoing a launch.
pub open spec fn undoes(phase: Phase) -> bool {
    match phase {
        Phase::ShutdownHelper => true,
        Phase::Terminate => true,
        Phase::SaveFailed => true,
        Phase::WriteFailed => true,
        Phase::Failed => true,
        _ => false,
    }
}

/// Whether a phase comes before the helper is up.
pub open spec fn precedes_helper(phase: Phase) -> bool {
    match phase {
        Phase::ProviderSync => true,
        Phase::PluginMarketplace => true,
        Phase::ComputerUse => true,
        Phase::History => true,
        Phase::Helper => true,
        _ => false,
    }
}

/// What holds of every course of a launch.
pub open spec fn is_sound(c: Course) -> bool {
    let helps = c.flags.enhancements || c.flags.protocol_proxy;
    &&& c.helper_started ==> helps
    &&& c.helper_started || c.phase == Phase::Helper ==> c.helper_port == final_helper_port(
        c.flags,
        c.helper_port,
    )
    &&& precedes_helper(c.phase) ==> !c.helper_started
    &&& follows_helper(c.phase) ==> c.helper_started == helps
    &&& follows_launch(c.phase) ==> c.launched is Some
    &&& !undoes(c.phase) && !follows_launch(c.phase) ==> c.launched is None
    &&& c.phase == Phase::Helper ==> helps
    &&& c.phase == Phase::Injection ==> c.flags.enhancements
    &&& session::closes_app(c) ==> c.flags.enhancements
    &&& follows_injection(c.phase) ==> session::closes_app(c)
    &&& (c.phase == Phase::GuardWatchdog || c.phase == Phase::Injection || c.phase
        == Phase::SaveDegraded || c.phase == Phase::WriteDegraded) ==> !session::closes_app(c)
    &&& c.phase == Phase::ShutdownHelper ==> c.helper_started
    &&& c.phase == Phase::Terminate ==> session::closes_app(c)
}

/// The start of a launch is sound.
pub proof fn launch_starts_sound(flags: LaunchFlags, helper_port: u16)
    ensures
        is_sound(session::start_of(flags, helper_port)),
{
}

/// Every event keeps a launch sound.
pub proof fn launch_stays_sound(c: Course, event: Event)
    requires
        is_sound(c),
    ensures
        is_sound(session::after(c, event)),
{
}

/// A launch that fails before its helper is up has nothing to undo: it records the failure.
pub proof fn early_failure_only_records(
    c: Course,
    message: Seq<char>,
    world: spec_fn(Action) -> Event,
)
    requires
        is_sound(c),
        precedes_helper(c.phase),
        session::is_fatal(c.phase),
        answers_all(world),
    ensures
        actions_of(session::after(c, Event::Failed(message)), world, 4) == seq![
            session::saved(c, "failed"@, message),
            Action::WriteStatus { status: "failed"@ },
        ],
{
    failure_undoes_the_launch(c, message, world);
    assert(undo_actions(c, message) =~= seq![
        session::saved(c, "failed"@, message),
        Action::WriteStatus { status: "failed"@ },
    ]);
}

/// A launch that fails while the bridge is not yet in the page leaves the app running.
pub proof fn app_is_kept_until_it_is_injected(
    c: Course,
    message: Seq<char>,
    world: spec_fn(Action) -> Event,
    i: int,
)
    requires
        is_sound(c),
        c.phase == Phase::GuardWatchdog || c.phase == Phase::SaveDegraded,
        answers_all(world),
        0 <= i < actions_of(session::after(c, Event::Failed(message)), world, 4).len(),
    ensures
        !(actions_of(session::after(c, Event::Failed(message)), world, 4)[i] is TerminateCodex),
{
    failure_undoes_the_launch(c, message, world);
}

/// A launch whose bridge is in the page and whose watchdog cannot be started closes the app.
pub proof fn injected_app_is_closed_on_failure(
    c: Course,
    message: Seq<char>,
    world: spec_fn(Action) -> Event,
)
    requires
        is_sound(c),
        c.phase == Phase::BridgeWatchdog,
        answers_all(world),
    ensures
        c.launched is Some,
        actions_of(session::after(c, Event::Failed(message)), world, 4).contains(
            Action::TerminateCodex { launch: c.launched->0 },
        ),
{
    failure_undoes_the_launch(c, message, world);
    let actions = undo_actions(c, message);
    assert(c.helper_started);
    assert(actions[1] == Action::TerminateCodex { launch: c.launched->0 });
}

// ---- the end -----------------------------------------------------------------------------

/// How many actions are left at most.
pub open spec fn actions_left(phase: Phase) -> nat {
    match phase {
        Phase::ProviderSync => 16,
        Phase::PluginMarketplace => 15,
        Phase::ComputerUse => 14,
        Phase::History => 13,
        Phase::Helper => 12,
        Phase::Launching => 11,
        Phase::GuardWatchdog => 10,
        Phase::Injection => 9,
        Phase::LocalStorage => 8,
        Phase::BridgeWatchdog => 7,
        Phase::SaveRunning => 6,
        Phase::SaveDegraded => 6,
        Phase::WriteRunning => 1,
        Phase::WriteDegraded => 1,
        Phase::Running => 0,
        Phase::ShutdownHelper => 4,
        Phase::Terminate => 3,
        Phase::SaveFailed => 2,
        Phase::WriteFailed => 1,
        Phase::Failed => 0,
    }
}

/// Every launch ends, whatever comes of its actions: it runs or it has failed after as many
/// actions as are left.
pub proof fn launch_ends(c: Course, world: spec_fn(Action) -> Event, n: nat)
    requires
        answers_all(world),
        is_sound(c),
        n >= actions_left(c.phase),
    ensures
        is_over(reached(c, world, n)),
        is_sound(reached(c, world, n)),
    decreases n,
{
    if !is_over(c) {
        let d = next(c, world);
        launch_stays_sound(c, world(session::action_of(c)));
        assert(actions_left(d.phase) < actions_left(c.phase));
        launch_ends(d, world, (n - 1) as nat);
    }
}

} // verus!
