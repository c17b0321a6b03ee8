//! Bringing the bridge into the page of the app, and keeping it there.
use vstd::prelude::*;

use crate::json;
use crate::json::Json;

verus! {

// ---- whether the bridge works ------------------------------------------------------------

/// What a script evaluated to, in the reply of the debugging protocol.
pub open spec fn evaluated(reply: Json) -> Option<Json> {
    json::member_of(json::member_of(json::member(reply, "result"@), "result"@), "value"@)
}

/// Whether the script evaluated to `true`, in the reply of the debugging protocol.
pub fn runtime_evaluate_result_is_true(result: &serde_json::Value) -> (r: bool)
    ensures
        r == (evaluated(json::json_of(*result)) == Some(Json::Bool(true))),
        r <==> json::member_of(
            json::member_of(json::member(json::json_of(*result), "result"@), "result"@),
            "value"@,
        ) == Some(Json::Bool(true)),
{
    match json::json_get(result, "result") {
        Some(outer) => match json::json_get(outer, "result") {
            Some(inner) => match json::json_get(inner, "value") {
                Some(value) => match json::json_as_bool(value) {
                    Some(b) => b,
                    None => false,
                },
                None => false,
            },
            None => false,
        },
        None => false,
    }
}

/// The address at which the page is debugged, or why it cannot be.
pub fn websocket_url_of(url: Option<&str>) -> (r: Result<String, &'static str>)
    ensures
        match url {
            Some(address) => r is Ok && r->Ok_0@ == address@,
            None => r is Err && r->Err_0@ == "selected CDP target has no websocket URL"@,
        },
{
    match url {
        Some(address) => Ok(address.to_string()),
        None => Err("selected CDP target has no websocket URL"),
    }
}

// ---- trying again ------------------------------------------------------------------------

/// What follows a try.
#[derive(Debug, Clone, Copy, PartialEq, Eq, Structural)]
pub enum RetryStep {
    /// It succeeded.
    Succeed,
    /// It is tried again after this many milliseconds.
    TryAgain { pause_ms: u64 },
    /// It is given up after this many milliseconds.
    GiveUp { pause_ms: u64 },
}

/// Tries of one thing, up to a limit, with a pause after each that fails.
#[derive(Debug)]
pub struct Retry {
    limit: u32,
    pause_ms: u64,
    failures: u32,
}

/// `Retry`, in the open.
pub struct Tries {
    pub limit: u32,
    pub pause_ms: u64,
    pub failures: nat,
}

/// Whether fewer tries have failed than are allowed.
pub open spec fn may_try(t: Tries) -> bool {
    t.failures < t.limit
}

/// What follows a try: the last one that is allowed is given up where it fails.
pub open spec fn step_after(t: Tries, succeeded: bool) -> RetryStep {
    if succeeded {
        RetryStep::Succeed
    } else if t.failures + 1 < t.limit {
        RetryStep::TryAgain { pause_ms: t.pause_ms }
    } else {
        RetryStep::GiveUp { pause_ms: t.pause_ms }
    }
}

/// The tries after one more. Failures are counted up to the limit.
pub open spec fn tries_after(t: Tries, succeeded: bool) -> Tries {
    if succeeded || !may_try(t) {
        t
    } else {
        Tries { failures: t.failures + 1, ..t }
    }
}

impl View for Retry {
    type V = Tries;

    closed spec fn view(&self) -> Tries {
        Tries { limit: self.limit, pause_ms: self.pause_ms, failures: self.failures as nat }
    }
}

impl Retry {
    #[verifier::type_invariant]
    spec fn well_formed(self) -> bool {
        self.failures <= self.limit < u32::MAX
    }

    /// The tries of one injection.
    pub fn injection() -> (r: Retry)
        ensures
            r@ == (Tries { limit: 20, pause_ms: 500, failures: 0 }),
    {
        Retry { limit: 20, pause_ms: 500, failures: 0 }
    }

    /// The injections that are tried while the app starts.
    pub fn first_injection() -> (r: Retry)
        ensures
            r@ == (Tries { limit: 120, pause_ms: 1000, failures: 0 }),
    {
        Retry { limit: 120, pause_ms: 1000, failures: 0 }
    }

    /// The tries of giving the app's window its icon.
    pub fn window_icon() -> (r: Retry)
        ensures
            r@ == (Tries { limit: 30, pause_ms: 500, failures: 0 }),
    {
        Retry { limit: 30, pause_ms: 500, failures: 0 }
    }

    /// The number of the next try, counted from one.
    pub fn attempt(&self) -> (r: u32)
        ensures
            r == self@.failures + 1,
    {
        proof {
            use_type_invariant(self);
        }
        self.failures + 1
    }

    /// Takes in what came of a try.
    pub fn advance(&mut self, succeeded: bool) -> (r: RetryStep)
        ensures
            final(self)@ == tries_after(old(self)@, succeeded),
            r == step_after(old(self)@, succeeded),
            r is TryAgain ==> may_try(final(self)@),
            r is Succeed <==> succeeded,
            r is TryAgain <==> !succeeded && old(self)@.failures + 1 < old(self)@.limit,
            r is TryAgain ==> r->TryAgain_pause_ms == old(self)@.pause_ms,
            r is GiveUp ==> r->GiveUp_pause_ms == old(self)@.pause_ms,
            final(self)@.limit == old(self)@.limit,
            final(self)@.pause_ms == old(self)@.pause_ms,
            succeeded ==> final(self)@.failures == old(self)@.failures,
            !succeeded && old(self)@.failures < old(self)@.limit ==> final(self)@.failures
                == old(self)@.failures + 1,
    {
        proof {
            use_type_invariant(&*self);
        }
        if succeeded {
            return RetryStep::Succeed;
        }
        if self.failures < self.limit {
            self.failures = self.failures + 1;
        }
        if self.failures < self.limit {
            RetryStep::TryAgain { pause_ms: self.pause_ms }
        } else {
            RetryStep::GiveUp { pause_ms: self.pause_ms }
        }
    }
}

/// The tries after a number of failures.
pub open spec fn tries_failed(t: Tries, n: nat) -> Tries
    decreases n,
{
    if n == 0 {
        t
    } else {
        tries_after(tries_failed(t, (n - 1) as nat), false)
    }
}

/// What fails each time is tried as often as is allowed, and given up with the last try.
pub proof fn failing_is_tried_up_to_the_limit(t: Tries, n: nat)
    requires
        t.failures == 0,
        n < t.limit,
    ensures
        may_try(tries_failed(t, n)),
        step_after(tries_failed(t, n), false) is GiveUp <==> n + 1 == t.limit,
        tries_failed(t, n).pause_ms == t.pause_ms,
        tries_failed(t, n).limit == t.limit,
        tries_failed(t, n).failures == n,
    decreases n,
{
    if n > 0 {
        failing_is_tried_up_to_the_limit(t, (n - 1) as nat);
    }
}

// ---- looking after the bridge ------------------------------------------------------------

/// What follows a look at the bridge.
#[derive(Debug, Clone, Copy, PartialEq, Eq, Structural)]
pub enum HealthStep {
    /// The bridge works; nothing is done.
    Leave,
    /// The bridge is brought into the page again.
    Reinject,
}

/// The seconds between two looks at the bridge.
pub const BRIDGE_WATCHDOG_SECONDS: u64 = 5;

/// What follows a look at the bridge, that failed where there is no answer: only a bridge that
/// is known to work is left alone.
pub fn step_after_health_check(healthy: Option<bool>) -> (r: HealthStep)
    ensures
        r is Leave <==> healthy == Some(true),
{
    match healthy {
        Some(true) => HealthStep::Leave,
        _ => HealthStep::Reinject,
    }
}

/// Whether a look at the bridge brought it into the page again, given what came of that where
/// it was tried.
pub fn was_reinjected(healthy: Option<bool>, injected: bool) -> (r: bool)
    ensures
        r == (healthy != Some(true) && injected),
{
    match step_after_health_check(healthy) {
        HealthStep::Leave => false,
        HealthStep::Reinject => injected,
    }
}

} // verus!
