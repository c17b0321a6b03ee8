//! The events under which what comes of a launch's steps is logged.
use vstd::prelude::*;

use crate::guard;
use crate::guard::GuardArtifacts;

verus! {

/// The event for cleaning up the history, given how many entries were changed, or that it failed:
/// a history that needed no change is not logged.
pub fn history_event(updated: Option<usize>) -> (r: Option<&'static str>)
    ensures
        r.deep_view() == (match updated {
            Some(count) => if count > 0 {
                Some("launcher.sanitize_historical_model_suffixes"@)
            } else {
                None
            },
            None => Some("launcher.sanitize_historical_model_suffixes_failed"@),
        }),
{
    match updated {
        Some(count) => if count > 0 {
            Some("launcher.sanitize_historical_model_suffixes")
        } else {
            None
        },
        None => Some("launcher.sanitize_historical_model_suffixes_failed"),
    }
}

/// The event for putting the marketplace into the configuration, given whether that changed it, or
/// that it failed: a configuration that needed no change is not logged.
pub fn marketplace_event(configured: Option<bool>) -> (r: Option<&'static str>)
    ensures
        r.deep_view() == (match configured {
            Some(changed) => if changed {
                Some("launcher.openai_curated_marketplace_configured"@)
            } else {
                None
            },
            None => Some("launcher.openai_curated_marketplace_config_failed"@),
        }),
{
    match configured {
        Some(changed) => if changed {
            Some("launcher.openai_curated_marketplace_configured")
        } else {
            None
        },
        None => Some("launcher.openai_curated_marketplace_config_failed"),
    }
}

/// The event for a look at the bridge that failed.
pub fn health_check_event(healthy: Option<bool>) -> (r: Option<&'static str>)
    ensures
        r.deep_view() == if healthy is None {
            Some("bridge.health_check_failed"@)
        } else {
            None
        },
{
    match healthy {
        Some(_) => None,
        None => Some("bridge.health_check_failed"),
    }
}

/// The event for what came of bringing the bridge into the page again.
pub fn reinjection_event(injected: bool) -> (r: &'static str)
    ensures
        r@ == if injected {
            "bridge.reinject_ok"@
        } else {
            "bridge.reinject_failed"@
        },
{
    if injected {
        "bridge.reinject_ok"
    } else {
        "bridge.reinject_failed"
    }
}

/// The event for an attempt of the guard that succeeded or failed.
pub fn guard_attempt_event(succeeded: bool) -> (r: &'static str)
    ensures
        r@ == if succeeded {
            "computer_use_guard.post_launch_ok"@
        } else {
            "computer_use_guard.post_launch_failed"@
        },
{
    if succeeded {
        "computer_use_guard.post_launch_ok"
    } else {
        "computer_use_guard.post_launch_failed"
    }
}

/// The event for the guard's rest, where enough attempts in a row changed nothing.
pub fn guard_rest_event(stable_unchanged_attempts: usize, artifacts: &GuardArtifacts) -> (r: Option<
    &'static str,
>)
    ensures
        r.deep_view() == if stable_unchanged_attempts
            >= guard::POST_LAUNCH_COMPUTER_USE_GUARD_STABLE_ATTEMPTS && guard::is_ready(
            artifacts@,
        ) {
            Some("computer_use_guard.post_launch_stable_stop"@)
        } else {
            None
        },
{
    if guard::should_stop_post_launch_computer_use_guard(stable_unchanged_attempts, artifacts) {
        Some("computer_use_guard.post_launch_stable_stop")
    } else {
        None
    }
}

} // verus!
