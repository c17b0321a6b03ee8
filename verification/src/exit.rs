//! The end of the Codex app: waiting for it, and bringing it about.
use vstd::prelude::*;

use crate::launch;
use crate::launch::{CodexLaunch, Launch, MacosCleanupPolicy, ProcessWaitStrategy};
use crate::paths;
use crate::plan;

verus! {

/// How many times in a row no process of the app is found before it counts as gone.
pub const EMPTY_OBSERVATIONS: u32 = 3;

/// How many seconds lie between two looks at the processes.
pub const OBSERVATION_SECONDS: u64 = 2;

/// What is waited for before the processes are looked at.
#[derive(Debug, Clone, Copy, PartialEq, Eq, Structural)]
pub enum ExitWait {
    /// The process that the launcher started.
    Child,
    /// The process that Windows started.
    WindowsProcess { process_id: u32 },
    Nothing,
}

/// What is waited for first, for what was launched.
pub open spec fn exit_wait(launched: Launch) -> ExitWait {
    match launched {
        Launch::Process { .. } => ExitWait::Child,
        Launch::PackagedActivation { process_id: Some(process_id), .. } => ExitWait::WindowsProcess {
            process_id,
        },
        Launch::PackagedActivation { process_id: None, .. } => ExitWait::Nothing,
    }
}

/// What is waited for first, for what was launched.
pub fn exit_wait_of(launched: &CodexLaunch) -> (r: ExitWait)
    ensures
        r == exit_wait(launched@),
        r is Child <==> launched is Process,
        r is WindowsProcess <==> launched is PackagedActivation && launched->process_id is Some,
        r is WindowsProcess ==> launched->process_id == Some(r->process_id),
{
    match launched {
        CodexLaunch::Process { .. } => ExitWait::Child,
        CodexLaunch::PackagedActivation { process_id, .. } => match process_id {
            Some(process_id) => ExitWait::WindowsProcess { process_id: *process_id },
            None => ExitWait::Nothing,
        },
    }
}

// ---- looking at the processes ------------------------------------------------------------

/// What follows a look at the processes.
#[derive(Debug, Clone, Copy, PartialEq, Eq, Structural)]
pub enum ExitStep {
    /// The app is gone.
    Gone,
    /// The processes are looked at again after this many seconds.
    LookAgain { seconds: u64 },
}

/// How many times in a row no process of the app was found, up to the largest number there is.
#[derive(Debug)]
pub struct ExitWatch {
    empty_streak: u32,
}

/// The streak after another look.
pub open spec fn streak_after(streak: u32, running: bool) -> u32 {
    if running {
        0
    } else if streak == u32::MAX {
        streak
    } else {
        (streak + 1) as u32
    }
}

/// What follows when a look leaves a streak.
pub open spec fn step_at(streak: u32) -> ExitStep {
    if streak >= EMPTY_OBSERVATIONS {
        ExitStep::Gone
    } else {
        ExitStep::LookAgain { seconds: OBSERVATION_SECONDS }
    }
}

impl View for ExitWatch {
    type V = u32;

    closed spec fn view(&self) -> u32 {
        self.empty_streak
    }
}

impl ExitWatch {
    pub fn new() -> (r: ExitWatch)
        ensures
            r@ == 0,
    {
        ExitWatch { empty_streak: 0 }
    }

    /// Takes in whether a process of the app was found.
    pub fn observe(&mut self, running: bool) -> (r: ExitStep)
        ensures
            final(self)@ == streak_after(old(self)@, running),
            r == step_at(final(self)@),
            running ==> final(self)@ == 0,
            !running && old(self)@ < u32::MAX ==> final(self)@ == old(self)@ + 1,
            r is Gone <==> !running && old(self)@ >= 2,
            r is LookAgain ==> r->seconds == 2,
    {
        if running {
            self.empty_streak = 0;
            ExitStep::LookAgain { seconds: OBSERVATION_SECONDS }
        } else {
            self.empty_streak = self.empty_streak.saturating_add(1);
            if self.empty_streak >= EMPTY_OBSERVATIONS {
                ExitStep::Gone
            } else {
                ExitStep::LookAgain { seconds: OBSERVATION_SECONDS }
            }
        }
    }
}

/// The streak after a run of looks.
pub open spec fn streak_of(looks: Seq<bool>) -> u32
    decreases looks.len(),
{
    if looks.len() == 0 {
        0
    } else {
        streak_after(streak_of(looks.drop_last()), looks.last())
    }
}

/// The app counts as gone exactly when the last three looks found no process of it.
pub proof fn app_is_gone_after_three_empty_looks(looks: Seq<bool>)
    ensures
        step_at(streak_of(looks)) is Gone <==> looks.len() >= 3 && !looks[looks.len() - 1]
            && !looks[looks.len() - 2] && !looks[looks.len() - 3],
    decreases looks.len(),
{
    reveal_with_fuel(streak_of, 5);
    if looks.len() > 0 {
        let a = looks.drop_last();
        app_is_gone_after_three_empty_looks(a);
        if looks.len() > 1 {
            let b = a.drop_last();
            assert(a.last() == looks[looks.len() - 2]);
            if looks.len() > 2 {
                assert(b.last() == looks[looks.len() - 3]);
            }
        }
    }
}

// ---- closing the app ---------------------------------------------------------------------

/// How what was launched is closed.
#[derive(Debug)]
pub enum TerminatePlan {
    /// The process that the launcher started is killed; the command, if there is one, asks the
    /// app to quit.
    KillChild { quit_command: Option<Vec<String>> },
    /// The process that Windows started is ended.
    EndWindowsProcess { process_id: u32 },
    Nothing,
}

/// The app that is asked to quit when what was launched is closed: its directory.
pub open spec fn app_to_quit(launched: Launch) -> Option<Seq<char>> {
    match launched {
        Launch::Process { command, wait_strategy, macos_cleanup_policy } => {
            if wait_strategy == ProcessWaitStrategy::ExternalWaitCommand && macos_cleanup_policy
                == Some(MacosCleanupPolicy::QuitIfNotPreviouslyRunning) {
                launch::opened_app(command)
            } else {
                None
            }
        },
        Launch::PackagedActivation { .. } => None,
    }
}

impl TerminatePlan {
    /// Whether what was launched is closed in this way.
    pub open spec fn closes(self, launched: Launch) -> bool {
        match launched {
            Launch::Process { .. } => match self {
                TerminatePlan::KillChild { quit_command } => {
                    &&& quit_command is Some <==> app_to_quit(launched) is Some
                    &&& quit_command is Some && paths::is_portable(app_to_quit(launched)->0)
                        ==> quit_command->0.deep_view() == launch::quit_command(
                        launch::name_of_app(paths::file_name(app_to_quit(launched)->0)),
                    )
                    &&& quit_command is Some ==> exists|name: Seq<char>| #[trigger]
                        launch::addresses(app_to_quit(launched)->0, name)
                            && quit_command->0.deep_view() == launch::quit_command(name)
                },
                _ => false,
            },
            Launch::PackagedActivation { process_id: Some(id), .. } => match self {
                TerminatePlan::EndWindowsProcess { process_id } => process_id == id,
                _ => false,
            },
            Launch::PackagedActivation { process_id: None, .. } => self is Nothing,
        }
    }
}

/// How what was launched is closed.
pub fn terminate_plan(launched: &CodexLaunch) -> (r: TerminatePlan)
    ensures
        r.closes(launched@),
        r is KillChild <==> launched is Process,
        r is EndWindowsProcess <==> launched is PackagedActivation && launched->process_id is Some,
        r is EndWindowsProcess ==> launched->process_id == Some(r->process_id),
        r is KillChild && r->quit_command is Some ==> launched->wait_strategy
            == ProcessWaitStrategy::ExternalWaitCommand && launched->macos_cleanup_policy == Some(
            MacosCleanupPolicy::QuitIfNotPreviouslyRunning,
        ),
{
    match launched {
        CodexLaunch::Process { command, wait_strategy, macos_cleanup_policy } => {
            let quit_command = if *wait_strategy == ProcessWaitStrategy::ExternalWaitCommand {
                match launch::macos_app_dir_from_open_command(command.as_slice()) {
                    Some(app_dir) => match macos_cleanup_policy {
                        Some(policy) => launch::build_macos_cleanup_command(
                            app_dir.as_str(),
                            *policy,
                        ),
                        None => None,
                    },
                    None => None,
                }
            } else {
                None
            };
            TerminatePlan::KillChild { quit_command }
        },
        CodexLaunch::PackagedActivation { process_id, .. } => match process_id {
            Some(process_id) => TerminatePlan::EndWindowsProcess { process_id: *process_id },
            None => TerminatePlan::Nothing,
        },
    }
}

/// A macOS app that was opened is asked to quit, and no other app is, unless it ran before.
pub proof fn opened_app_is_quit_unless_it_ran(
    app_dir: Seq<char>,
    arguments: Seq<Seq<char>>,
    was_running: bool,
)
    ensures
        app_to_quit(
            Launch::Process {
                command: launch::open_command(app_dir, arguments),
                wait_strategy: ProcessWaitStrategy::ExternalWaitCommand,
                macos_cleanup_policy: Some(plan::cleanup_policy(was_running)),
            },
        ) == if was_running {
            None
        } else {
            Some(app_dir)
        },
{
    plan::open_command_names_its_app(app_dir, arguments);
}

} // verus!
