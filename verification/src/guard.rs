//! Keeping the computer-use configuration in place for a while after a launch.
use vstd::prelude::*;

verus! {

/// How many attempts in a row have to change nothing before the guard rests.
pub const POST_LAUNCH_COMPUTER_USE_GUARD_STABLE_ATTEMPTS: usize = 3;

/// How many attempts the guard makes at most.
pub const POST_LAUNCH_COMPUTER_USE_GUARD_ATTEMPTS: usize = 9;

/// The seconds between two sweeps for computer-use processes that were left behind on macOS.
pub const ORPHAN_SWEEP_SECONDS: u64 = 120;

/// What the configuration refers to, as far as it was found.
#[derive(Debug)]
pub struct GuardArtifacts {
    pub notify_exe: Option<String>,
    pub marketplace_path: Option<String>,
    pub sky_package_json: Option<String>,
    pub runtime_exports_needed: bool,
}

/// `GuardArtifacts`, over sequences of characters.
pub struct Artifacts {
    pub notify_exe: Option<Seq<char>>,
    pub marketplace_path: Option<Seq<char>>,
    pub sky_package_json: Option<Seq<char>>,
    pub runtime_exports_needed: bool,
}

impl View for GuardArtifacts {
    type V = Artifacts;

    open spec fn view(&self) -> Artifacts {
        Artifacts {
            notify_exe: self.notify_exe.deep_view(),
            marketplace_path: self.marketplace_path.deep_view(),
            sky_package_json: self.sky_package_json.deep_view(),
            runtime_exports_needed: self.runtime_exports_needed,
        }
    }
}

fn copy_text(text: &Option<String>) -> (r: Option<String>)
    ensures
        r.deep_view() == text.deep_view(),
{
    match text {
        Some(inner) => Some(inner.clone()),
        None => None,
    }
}

impl Clone for GuardArtifacts {
    fn clone(&self) -> (r: GuardArtifacts)
        ensures
            r@ == self@,
            r.notify_exe.deep_view() == self.notify_exe.deep_view(),
            r.marketplace_path.deep_view() == self.marketplace_path.deep_view(),
            r.sky_package_json.deep_view() == self.sky_package_json.deep_view(),
            r.runtime_exports_needed == self.runtime_exports_needed,
    {
        GuardArtifacts {
            notify_exe: copy_text(&self.notify_exe),
            marketplace_path: copy_text(&self.marketplace_path),
            sky_package_json: copy_text(&self.sky_package_json),
            runtime_exports_needed: self.runtime_exports_needed,
        }
    }
}

/// Whether all was found that the configuration refers to.
pub open spec fn is_ready(artifacts: Artifacts) -> bool {
    &&& artifacts.notify_exe is Some
    &&& artifacts.marketplace_path is Some
    &&& artifacts.runtime_exports_needed ==> artifacts.sky_package_json is Some
}

/// Whether all was found that the configuration refers to.
pub fn post_launch_guard_artifacts_ready(artifacts: &GuardArtifacts) -> (r: bool)
    ensures
        r == is_ready(artifacts@),
        r <==> artifacts.notify_exe is Some && artifacts.marketplace_path is Some && (
        !artifacts.runtime_exports_needed || artifacts.sky_package_json is Some),
{
    artifacts.notify_exe.is_some() && artifacts.marketplace_path.is_some() && (
    !artifacts.runtime_exports_needed || artifacts.sky_package_json.is_some())
}

/// Whether the guard rests after this many attempts in a row that changed nothing.
pub fn should_stop_post_launch_computer_use_guard(
    stable_unchanged_attempts: usize,
    artifacts: &GuardArtifacts,
) -> (r: bool)
    ensures
        r == (stable_unchanged_attempts >= POST_LAUNCH_COMPUTER_USE_GUARD_STABLE_ATTEMPTS
            && is_ready(artifacts@)),
        r ==> stable_unchanged_attempts >= 3 && artifacts.notify_exe is Some
            && artifacts.marketplace_path is Some && (!artifacts.runtime_exports_needed
            || artifacts.sky_package_json is Some),
        !r ==> stable_unchanged_attempts < 3 || artifacts.notify_exe is None
            || artifacts.marketplace_path is None || (artifacts.runtime_exports_needed
            && artifacts.sky_package_json is None),
{
    stable_unchanged_attempts >= POST_LAUNCH_COMPUTER_USE_GUARD_STABLE_ATTEMPTS
        && post_launch_guard_artifacts_ready(artifacts)
}

// ---- the attempts ------------------------------------------------------------------------

/// The seconds after the launch at which an attempt begins, the first being number zero.
pub open spec fn delay_at(index: int) -> nat {
    if index <= 0 {
        0
    } else if index == 1 {
        5
    } else if index == 2 {
        15
    } else if index == 3 {
        30
    } else if index == 4 {
        60
    } else if index == 5 {
        120
    } else if index == 6 {
        180
    } else if index == 7 {
        240
    } else {
        300
    }
}

/// The seconds between the beginnings of an attempt and of the one before it.
pub open spec fn wait_before(index: int) -> nat {
    (delay_at(index) - delay_at(index - 1)) as nat
}

/// What the guard is about to do.
#[derive(Debug, Clone, Copy, PartialEq, Eq, Structural)]
pub enum GuardPhase {
    Waiting,
    Resolving,
    Ensuring,
    Resting,
}

/// What the guard is to do next.
#[derive(Debug)]
pub enum GuardAction {
    /// Wait this many seconds, or until it is told to stop.
    Wait { seconds: u64 },
    /// Find what the configuration refers to.
    Resolve,
    /// Put the configuration in place.
    Ensure { artifacts: GuardArtifacts },
    /// Nothing more.
    Rest,
}

/// `GuardAction`, over sequences of characters.
pub enum GuardMove {
    Wait { seconds: nat },
    Resolve,
    Ensure { artifacts: Artifacts },
    Rest,
}

/// What came of an action.
#[derive(Debug)]
pub enum GuardEvent {
    Waited,
    /// The guard is told to stop.
    ShutDown,
    Resolved(GuardArtifacts),
    Ensured { changed: bool },
    Failed,
}

/// `GuardEvent`, over sequences of characters.
pub enum GuardNews {
    Waited,
    ShutDown,
    Resolved(Artifacts),
    Ensured { changed: bool },
    Failed,
}

impl View for GuardAction {
    type V = GuardMove;

    open spec fn view(&self) -> GuardMove {
        match self {
            GuardAction::Wait { seconds } => GuardMove::Wait { seconds: *seconds as nat },
            GuardAction::Resolve => GuardMove::Resolve,
            GuardAction::Ensure { artifacts } => GuardMove::Ensure { artifacts: artifacts@ },
            GuardAction::Rest => GuardMove::Rest,
        }
    }
}

impl View for GuardEvent {
    type V = GuardNews;

    open spec fn view(&self) -> GuardNews {
        match self {
            GuardEvent::Waited => GuardNews::Waited,
            GuardEvent::ShutDown => GuardNews::ShutDown,
            GuardEvent::Resolved(artifacts) => GuardNews::Resolved(artifacts@),
            GuardEvent::Ensured { changed } => GuardNews::Ensured { changed: *changed },
            GuardEvent::Failed => GuardNews::Failed,
        }
    }
}

/// All that the guard knows.
pub struct Watch {
    /// The attempt, the first being number zero.
    pub index: int,
    pub stable: nat,
    pub artifacts: Option<Artifacts>,
    pub phase: GuardPhase,
}

/// Where an attempt begins: with putting the configuration in place where all is known that it
/// refers to, else with finding that.
pub open spec fn first_step(artifacts: Option<Artifacts>) -> GuardPhase {
    if artifacts is Some {
        GuardPhase::Ensuring
    } else {
        GuardPhase::Resolving
    }
}

/// The guard before an attempt.
pub open spec fn before_attempt(index: int, stable: nat, artifacts: Option<Artifacts>) -> Watch {
    Watch {
        index,
        stable,
        artifacts,
        phase: if index >= POST_LAUNCH_COMPUTER_USE_GUARD_ATTEMPTS {
            GuardPhase::Resting
        } else if wait_before(index) > 0 {
            GuardPhase::Waiting
        } else {
            first_step(artifacts)
        },
    }
}

/// What is found stays known as long as it is all that the configuration refers to.
pub open spec fn kept(artifacts: Artifacts) -> Option<Artifacts> {
    if is_ready(artifacts) {
        Some(artifacts)
    } else {
        None
    }
}

/// How many attempts in a row changed nothing, after one more.
pub open spec fn stable_after(stable: nat, was_stable: bool) -> nat {
    if was_stable {
        stable + 1
    } else {
        0
    }
}

/// The guard after an attempt that put the configuration in place.
pub open spec fn after_ensuring(w: Watch, changed: bool) -> Watch {
    let ready = is_ready(w.artifacts->0);
    let stable = stable_after(w.stable, !changed && ready);
    if stable >= POST_LAUNCH_COMPUTER_USE_GUARD_STABLE_ATTEMPTS && ready {
        Watch { stable, phase: GuardPhase::Resting, ..w }
    } else {
        before_attempt(w.index + 1, stable, kept(w.artifacts->0))
    }
}

/// The guard after an event. It can be told to stop only while it waits. An event that is no
/// answer to what it does changes nothing.
pub open spec fn after(w: Watch, news: GuardNews) -> Watch {
    match (w.phase, news) {
        (GuardPhase::Waiting, GuardNews::Waited) => Watch { phase: first_step(w.artifacts), ..w },
        (GuardPhase::Waiting, GuardNews::ShutDown) => Watch { phase: GuardPhase::Resting, ..w },
        (GuardPhase::Resolving, GuardNews::Resolved(artifacts)) => Watch {
            artifacts: Some(artifacts),
            phase: GuardPhase::Ensuring,
            ..w
        },
        (GuardPhase::Resolving, GuardNews::Failed) => before_attempt(w.index + 1, 0, None),
        (GuardPhase::Ensuring, GuardNews::Ensured { changed }) => after_ensuring(w, changed),
        (GuardPhase::Ensuring, GuardNews::Failed) => before_attempt(
            w.index + 1,
            0,
            kept(w.artifacts->0),
        ),
        _ => w,
    }
}

/// What the guard is to do.
pub open spec fn move_of(w: Watch) -> GuardMove {
    match w.phase {
        GuardPhase::Waiting => GuardMove::Wait { seconds: wait_before(w.index) },
        GuardPhase::Resolving => GuardMove::Resolve,
        GuardPhase::Ensuring => match w.artifacts {
            Some(artifacts) => GuardMove::Ensure { artifacts },
            None => GuardMove::Rest,
        },
        GuardPhase::Resting => GuardMove::Rest,
    }
}

/// What holds of the guard at all times.
pub open spec fn is_sound(w: Watch) -> bool {
    &&& 0 <= w.index <= POST_LAUNCH_COMPUTER_USE_GUARD_ATTEMPTS
    &&& w.stable <= w.index + 1
    &&& w.phase != GuardPhase::Resting ==> w.index < POST_LAUNCH_COMPUTER_USE_GUARD_ATTEMPTS
        && w.stable <= w.index
    &&& w.phase == GuardPhase::Waiting ==> wait_before(w.index) > 0
    &&& w.phase == GuardPhase::Resolving ==> w.artifacts is None
    &&& w.phase == GuardPhase::Ensuring ==> w.artifacts is Some
}

/// The view of what may be known.
pub open spec fn artifacts_view(artifacts: Option<GuardArtifacts>) -> Option<Artifacts> {
    match artifacts {
        Some(inner) => Some(inner@),
        None => None,
    }
}

/// The guard after a launch.
#[derive(Debug)]
pub struct PostLaunchGuard {
    index: usize,
    stable_unchanged_attempts: usize,
    artifacts: Option<GuardArtifacts>,
    phase: GuardPhase,
}

impl View for PostLaunchGuard {
    type V = Watch;

    closed spec fn view(&self) -> Watch {
        Watch {
            index: self.index as int,
            stable: self.stable_unchanged_attempts as nat,
            artifacts: artifacts_view(self.artifacts),
            phase: self.phase,
        }
    }
}

/// The seconds after the launch at which an attempt begins, the first being number zero.
pub fn attempt_delay_seconds(index: usize) -> (r: u64)
    ensures
        r == delay_at(index as int),
        index == 0 ==> r == 0,
        index == 1 ==> r == 5,
        index == 2 ==> r == 15,
        index == 3 ==> r == 30,
        4 <= index <= 8 ==> r == 60 * (index - 3),
        index > 8 ==> r == 300,
{
    match index {
        0 => 0,
        1 => 5,
        2 => 15,
        3 => 30,
        4 => 60,
        5 => 120,
        6 => 180,
        7 => 240,
        _ => 300,
    }
}

fn wait_seconds(index: usize) -> (r: u64)
    ensures
        r == wait_before(index as int),
{
    if index == 0 {
        0
    } else {
        attempt_delay_seconds(index).saturating_sub(attempt_delay_seconds(index - 1))
    }
}

impl PostLaunchGuard {
    #[verifier::type_invariant]
    spec fn well_formed(self) -> bool {
        is_sound(self@)
    }

    /// The guard, with what the launch found already.
    pub fn new(artifacts: Option<GuardArtifacts>) -> (r: PostLaunchGuard)
        ensures
            r@ == before_attempt(0, 0, artifacts_view(artifacts)),
            is_sound(r@),
    {
        let phase: GuardPhase = if artifacts.is_some() {
            GuardPhase::Ensuring
        } else {
            GuardPhase::Resolving
        };
        PostLaunchGuard { index: 0, stable_unchanged_attempts: 0, artifacts, phase }
    }

    /// What the guard is to do.
    pub fn action(&self) -> (r: GuardAction)
        ensures
            r@ == move_of(self@),
            r is Wait ==> r->seconds == delay_at(self@.index) - delay_at(self@.index - 1),
            r is Ensure ==> self@.artifacts == Some(r->artifacts@),
    {
        match self.phase {
            GuardPhase::Waiting => GuardAction::Wait { seconds: wait_seconds(self.index) },
            GuardPhase::Resolving => GuardAction::Resolve,
            GuardPhase::Ensuring => match &self.artifacts {
                Some(artifacts) => GuardAction::Ensure { artifacts: artifacts.clone() },
                None => GuardAction::Rest,
            },
            GuardPhase::Resting => GuardAction::Rest,
        }
    }

    /// The number of the attempt, counted from one.
    pub fn attempt(&self) -> (r: usize)
        ensures
            r == self@.index + 1,
    {
        proof {
            use_type_invariant(self);
        }
        self.index + 1
    }

    /// The seconds after the launch at which the attempt begins.
    pub fn delay_seconds(&self) -> (r: u64)
        ensures
            r == delay_at(self@.index),
    {
        attempt_delay_seconds(self.index)
    }

    /// How many attempts in a row changed nothing.
    pub fn stable_unchanged_attempts(&self) -> (r: usize)
        ensures
            r == self@.stable,
    {
        self.stable_unchanged_attempts
    }

    /// The guard before the attempt of the given number, with what is known as long as it is all
    /// that the configuration refers to.
    fn before(index: usize, stable: usize, artifacts: Option<GuardArtifacts>) -> (r:
        PostLaunchGuard)
        requires
            index <= POST_LAUNCH_COMPUTER_USE_GUARD_ATTEMPTS,
            stable <= index,
        ensures
            r@ == before_attempt(
                index as int,
                stable as nat,
                match artifacts_view(artifacts) {
                    Some(known) => kept(known),
                    None => None,
                },
            ),
            is_sound(r@),
    {
        let artifacts = match artifacts {
            Some(known) => if post_launch_guard_artifacts_ready(&known) {
                Some(known)
            } else {
                None
            },
            None => None,
        };
        let phase: GuardPhase = if index >= POST_LAUNCH_COMPUTER_USE_GUARD_ATTEMPTS {
            GuardPhase::Resting
        } else if wait_seconds(index) > 0 {
            GuardPhase::Waiting
        } else if artifacts.is_some() {
            GuardPhase::Ensuring
        } else {
            GuardPhase::Resolving
        };
        PostLaunchGuard { index, stable_unchanged_attempts: stable, artifacts, phase }
    }

    /// Takes in what came of the guard's action. An event that is no answer to it changes
    /// nothing.
    pub fn advance(self, event: GuardEvent) -> (r: PostLaunchGuard)
        ensures
            r@ == after(self@, event@),
            is_sound(r@),
            self@.phase == GuardPhase::Resolving && event is Resolved ==> r@.artifacts == Some(
                event->Resolved_0@,
            ),
            self@.phase == GuardPhase::Ensuring && event is Ensured && event->changed ==> r@.stable
                == 0 && r@.index == self@.index + 1,
            self@.phase == GuardPhase::Ensuring && event is Ensured && !event->changed && is_ready(
                self@.artifacts->0,
            ) ==> r@.stable == self@.stable + 1,
    {
        proof {
            use_type_invariant(&self);
        }
        let PostLaunchGuard { index, stable_unchanged_attempts, artifacts, phase } = self;
        match (phase, event) {
            (GuardPhase::Waiting, GuardEvent::Waited) => {
                let phase: GuardPhase = if artifacts.is_some() {
                    GuardPhase::Ensuring
                } else {
                    GuardPhase::Resolving
                };
                PostLaunchGuard { index, stable_unchanged_attempts, artifacts, phase }
            },
            (GuardPhase::Waiting, GuardEvent::ShutDown) => PostLaunchGuard {
                index,
                stable_unchanged_attempts,
                artifacts,
                phase: GuardPhase::Resting,
            },
            (GuardPhase::Resolving, GuardEvent::Resolved(found)) => PostLaunchGuard {
                index,
                stable_unchanged_attempts,
                artifacts: Some(found),
                phase: GuardPhase::Ensuring,
            },
            (GuardPhase::Resolving, GuardEvent::Failed) => PostLaunchGuard::before(
                index + 1,
                0,
                None,
            ),
            (GuardPhase::Ensuring, GuardEvent::Ensured { changed }) => {
                let ready = match &artifacts {
                    Some(known) => post_launch_guard_artifacts_ready(known),
                    None => false,
                };
                let stable: usize = if !changed && ready {
                    stable_unchanged_attempts + 1
                } else {
                    0
                };
                let stops = match &artifacts {
                    Some(known) => should_stop_post_launch_computer_use_guard(stable, known),
                    None => false,
                };
                if stops {
                    PostLaunchGuard {
                        index,
                        stable_unchanged_attempts: stable,
                        artifacts,
                        phase: GuardPhase::Resting,
                    }
                } else {
                    PostLaunchGuard::before(index + 1, stable, artifacts)
                }
            },
            (GuardPhase::Ensuring, GuardEvent::Failed) => PostLaunchGuard::before(
                index + 1,
                0,
                artifacts,
            ),
            _ => PostLaunchGuard { index, stable_unchanged_attempts, artifacts, phase },
        }
    }
}

// ---- what holds of the guard -------------------------------------------------------------

/// How long the guard has waited when it begins an attempt.
pub open spec fn waited_until(index: int) -> nat
    decreases index,
{
    if index <= 0 {
        0
    } else {
        waited_until(index - 1) + wait_before(index)
    }
}

/// The waits before an attempt add up to its place in the schedule.
pub proof fn attempts_begin_on_schedule(index: int)
    requires
        0 <= index,
    ensures
        waited_until(index) == delay_at(index),
    decreases index,
{
    if index > 0 {
        attempts_begin_on_schedule(index - 1);
    }
}

/// How many attempts in a row changed nothing, after a run of attempts.
pub open spec fn stable_of(attempts: Seq<bool>) -> nat
    decreases attempts.len(),
{
    if attempts.len() == 0 {
        0
    } else {
        stable_after(stable_of(attempts.drop_last()), attempts.last())
    }
}

/// As many attempts in a row changed nothing as the guard wants exactly when each of the last
/// three did so with all at hand that the configuration refers to.
pub proof fn guard_is_stable_after_three_attempts(attempts: Seq<bool>)
    ensures
        stable_of(attempts) >= POST_LAUNCH_COMPUTER_USE_GUARD_STABLE_ATTEMPTS <==> attempts.len()
            >= 3 && attempts[attempts.len() - 1] && attempts[attempts.len() - 2]
            && attempts[attempts.len() - 3],
    decreases attempts.len(),
{
    reveal_with_fuel(stable_of, 5);
    if attempts.len() > 0 {
        let a = attempts.drop_last();
        guard_is_stable_after_three_attempts(a);
        if attempts.len() > 1 {
            let b = a.drop_last();
            assert(a.last() == attempts[attempts.len() - 2]);
            if attempts.len() > 2 {
                assert(b.last() == attempts[attempts.len() - 3]);
            }
        }
    }
}

/// A guard that puts the configuration in place rests before its last attempt exactly when
/// enough attempts in a row changed nothing, with all at hand that the configuration refers to.
pub proof fn guard_rests_early_only_when_stable(w: Watch, changed: bool)
    requires
        is_sound(w),
        w.phase == GuardPhase::Ensuring,
        w.index + 1 < POST_LAUNCH_COMPUTER_USE_GUARD_ATTEMPTS,
    ensures
        after(w, GuardNews::Ensured { changed }).phase == GuardPhase::Resting <==> is_ready(
            w.artifacts->0,
        ) && !changed && w.stable + 1 >= POST_LAUNCH_COMPUTER_USE_GUARD_STABLE_ATTEMPTS,
{
}

/// A failed attempt never ends the guard before its last attempt, and starts the count anew.
pub proof fn guard_survives_failures(w: Watch)
    requires
        is_sound(w),
        w.phase == GuardPhase::Ensuring || w.phase == GuardPhase::Resolving,
        w.index + 1 < POST_LAUNCH_COMPUTER_USE_GUARD_ATTEMPTS,
    ensures
        after(w, GuardNews::Failed).phase != GuardPhase::Resting,
        after(w, GuardNews::Failed).stable == 0,
        after(w, GuardNews::Failed).index == w.index + 1,
{
}

/// Once all is at hand that the configuration refers to, the guard never looks for it again.
pub proof fn ready_artifacts_are_kept(w: Watch, news: GuardNews)
    requires
        is_sound(w),
        w.artifacts is Some,
        is_ready(w.artifacts->0),
    ensures
        after(w, news).artifacts == w.artifacts,
        after(w, news).phase != GuardPhase::Resolving,
        is_sound(after(w, news)),
{
}

/// Whether an event answers what the guard does.
pub open spec fn answers(phase: GuardPhase, news: GuardNews) -> bool {
    match phase {
        GuardPhase::Waiting => news is Waited || news is ShutDown,
        GuardPhase::Resolving => news is Resolved || news is Failed,
        GuardPhase::Ensuring => news is Ensured || news is Failed,
        GuardPhase::Resting => false,
    }
}

/// How many answers the guard takes in at most before it rests.
pub open spec fn answers_left(w: Watch) -> int {
    let attempts = 3 * (POST_LAUNCH_COMPUTER_USE_GUARD_ATTEMPTS - w.index);
    match w.phase {
        GuardPhase::Waiting => attempts,
        GuardPhase::Resolving => attempts - 1,
        GuardPhase::Ensuring => attempts - 2,
        GuardPhase::Resting => 0,
    }
}

/// The guard comes to rest: each answer leaves it with fewer to take in.
pub proof fn guard_comes_to_rest(w: Watch, news: GuardNews)
    requires
        is_sound(w),
        answers(w.phase, news),
    ensures
        0 <= answers_left(after(w, news)) < answers_left(w),
        is_sound(after(w, news)),
{
}

} // verus!
