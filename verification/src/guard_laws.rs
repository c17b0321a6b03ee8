//! What the guard after a launch does, step by step.
use vstd::prelude::*;

use crate::bridge;
use crate::bridge::Tries;
use crate::guard;
use crate::guard::{Artifacts, GuardMove, GuardNews, GuardPhase, Watch};

verus! {

// ---- the schedule ------------------------------------------------------------------------

/// The attempts begin at once, and 5, 15 and 30 seconds after the launch, and with each of the
/// first five minutes.
pub proof fn attempts_follow_the_schedule(index: int)
    ensures
        guard::delay_at(0) == 0,
        guard::delay_at(1) == 5,
        guard::delay_at(2) == 15,
        guard::delay_at(3) == 30,
        4 <= index <= 8 ==> guard::delay_at(index) == 60 * (index - 3),
        1 <= index <= 8 ==> guard::delay_at(index - 1) < guard::delay_at(index),
{
}

/// Before an attempt the guard waits for the seconds that lie between it and the one before.
pub proof fn guard_waits_between_attempts(w: Watch)
    requires
        w.phase is Waiting,
        1 <= w.index <= 8,
    ensures
        guard::move_of(w) is Wait,
        guard::move_of(w)->seconds == guard::delay_at(w.index) - guard::delay_at(w.index - 1),
        w.index == 1 ==> guard::move_of(w)->seconds == 5,
        w.index == 2 ==> guard::move_of(w)->seconds == 10,
        w.index == 3 ==> guard::move_of(w)->seconds == 15,
        w.index == 4 ==> guard::move_of(w)->seconds == 30,
        w.index >= 5 ==> guard::move_of(w)->seconds == 60,
{
}

// ---- readiness ---------------------------------------------------------------------------

/// All is found that the configuration refers to exactly where the notifier and the marketplace
/// are, and the package too where its exports are needed.
pub proof fn all_is_found_with_each_part(a: Artifacts)
    ensures
        guard::is_ready(a) <==> a.notify_exe is Some && a.marketplace_path is Some && (
        a.runtime_exports_needed ==> a.sky_package_json is Some),
{
}

// ---- the steps ---------------------------------------------------------------------------

/// The guard begins at once: with putting the configuration in place where the launch found what
/// it refers to, else with finding that.
pub proof fn guard_begins_at_once(a: Artifacts)
    ensures
        guard::move_of(guard::before_attempt(0, 0, Some(a))) == (GuardMove::Ensure {
            artifacts: a,
        }),
        guard::move_of(guard::before_attempt(0, 0, None)) is Resolve,
        guard::before_attempt(0, 0, None).index == 0,
        guard::before_attempt(0, 0, None).stable == 0,
        guard::before_attempt(0, 0, Some(a)).artifacts == Some(a),
{
}

/// A guard that has waited goes on with putting the configuration in place where it knows what
/// that refers to, else with finding it; one that is told to stop while it waits does nothing
/// more. Neither changes what it knows.
pub proof fn waiting_ends_in_an_attempt_or_in_rest(w: Watch)
    requires
        guard::move_of(w) is Wait,
    ensures
        ({
            let d = guard::after(w, GuardNews::Waited);
            &&& w.artifacts is Some ==> guard::move_of(d) == (GuardMove::Ensure {
                artifacts: w.artifacts->0,
            })
            &&& w.artifacts is None ==> guard::move_of(d) is Resolve
            &&& d.index == w.index && d.stable == w.stable && d.artifacts == w.artifacts
        }),
        guard::move_of(guard::after(w, GuardNews::ShutDown)) is Rest,
        guard::after(w, GuardNews::ShutDown).index == w.index,
{
}

/// What is found is what the configuration is put in place with, in the same attempt.
pub proof fn configuration_is_made_of_what_is_found(w: Watch, found: Artifacts)
    requires
        guard::move_of(w) is Resolve,
    ensures
        ({
            let d = guard::after(w, GuardNews::Resolved(found));
            &&& guard::move_of(d) == (GuardMove::Ensure { artifacts: found })
            &&& d.index == w.index
            &&& d.stable == w.stable
        }),
{
}

/// A guard that could not find what the configuration refers to knows nothing of it in the next
/// attempt, and counts anew.
pub proof fn nothing_is_known_after_a_vain_search(w: Watch)
    requires
        guard::move_of(w) is Resolve,
    ensures
        ({
            let d = guard::after(w, GuardNews::Failed);
            &&& d.artifacts is None
            &&& d.index == w.index + 1
            &&& d.stable == 0
        }),
{
}

/// An attempt that put the configuration in place counts as one that changed nothing exactly where
/// it did not change it with all at hand; otherwise the count starts anew. What was found is looked
/// for again unless it was all.
pub proof fn attempts_are_counted(w: Watch, changed: bool)
    requires
        guard::move_of(w) is Ensure,
    ensures
        ({
            let d = guard::after(w, GuardNews::Ensured { changed });
            let ready = guard::is_ready(w.artifacts->0);
            &&& !changed && ready ==> d.stable == w.stable + 1
            &&& changed || !ready ==> d.stable == 0
            &&& ready ==> d.artifacts == w.artifacts
            &&& !ready ==> d.artifacts is None
            &&& ready && !changed && w.stable >= 2 ==> guard::move_of(d) is Rest && d.index
                == w.index
            &&& changed || !ready || w.stable < 2 ==> d.index == w.index + 1
        }),
{
}

/// An attempt that failed starts the count anew. What was found is looked for again unless it was
/// all.
pub proof fn failed_attempts_start_anew(w: Watch)
    requires
        guard::move_of(w) is Ensure,
    ensures
        ({
            let d = guard::after(w, GuardNews::Failed);
            &&& d.stable == 0
            &&& d.index == w.index + 1
            &&& guard::is_ready(w.artifacts->0) ==> d.artifacts == w.artifacts
            &&& !guard::is_ready(w.artifacts->0) ==> d.artifacts is None
        }),
{
}

/// The guard makes nine attempts at most: it waits for the next one after each of the first
/// eight that it does not rest after, and does nothing more after the ninth.
pub proof fn guard_makes_nine_attempts(w: Watch, news: GuardNews)
    requires
        guard::is_sound(w),
        guard::after(w, news).index == w.index + 1,
    ensures
        w.index < 8 ==> guard::move_of(guard::after(w, news)) is Wait,
        w.index >= 8 ==> guard::move_of(guard::after(w, news)) is Rest,
{
}

/// News that do not answer what the guard does change nothing, and a guard that rests takes in
/// none.
pub proof fn guard_takes_in_answers_alone(w: Watch, news: GuardNews)
    requires
        match guard::move_of(w) {
            GuardMove::Wait { .. } => !(news is Waited) && !(news is ShutDown),
            GuardMove::Resolve => !(news is Resolved) && !(news is Failed),
            GuardMove::Ensure { .. } => !(news is Ensured) && !(news is Failed),
            GuardMove::Rest => w.phase is Resting,
        },
    ensures
        guard::after(w, news) == w,
{
}

/// The bridge is looked at twelve times a minute, and processes that were left behind are looked
/// for every other minute.
pub proof fn watchdogs_look_again()
    ensures
        12 * bridge::BRIDGE_WATCHDOG_SECONDS == 60,
        guard::ORPHAN_SWEEP_SECONDS == 2 * 60,
{
}

// ---- trying again ------------------------------------------------------------------------

/// A try that went well is the last. One that failed is followed by another after the pause, as
/// long as fewer failed than are allowed, and given up with the last; it counts.
pub proof fn tries_go_on_until_one_goes_well(t: Tries)
    ensures
        bridge::step_after(t, true) is Succeed,
        bridge::tries_after(t, true) == t,
        t.failures + 1 < t.limit ==> bridge::step_after(t, false) is TryAgain && bridge::step_after(
            t,
            false,
        )->TryAgain_pause_ms == t.pause_ms,
        t.failures + 1 >= t.limit ==> bridge::step_after(t, false) is GiveUp && bridge::step_after(
            t,
            false,
        )->GiveUp_pause_ms == t.pause_ms,
        t.failures < t.limit ==> bridge::tries_after(t, false).failures == t.failures + 1,
        bridge::tries_after(t, false).limit == t.limit,
        bridge::tries_after(t, false).pause_ms == t.pause_ms,
{
}

} // verus!
