//! The course of a launch: what is done in which order, and what is undone when a step fails.
use vstd::prelude::*;

use crate::launch::{CodexLaunch, Launch};
use crate::relay;
use crate::settings::BackendSettings;

verus! {

/// What a launch is to do, and the ports that it starts with.
#[derive(Debug, Clone, Copy, PartialEq, Eq, Structural)]
pub struct LaunchFlags {
    pub provider_sync: bool,
    pub computer_use_guard: bool,
    pub enhancements: bool,
    pub protocol_proxy: bool,
    /// The port at which the protocol proxy listens.
    pub proxy_port: u16,
    pub debug_port: u16,
}

/// What a launch under the user's settings is to do.
pub open spec fn flags_of(settings: BackendSettings, debug_port: u16, proxy_port: u16) -> LaunchFlags {
    LaunchFlags {
        provider_sync: settings.provider_sync_enabled,
        computer_use_guard: settings.computer_use_guard_enabled,
        enhancements: settings.enhancements_enabled,
        protocol_proxy: settings.active_relay_uses_protocol_proxy,
        proxy_port,
        debug_port,
    }
}

impl LaunchFlags {
    /// What a launch under the user's settings is to do.
    pub fn for_settings(settings: &BackendSettings, debug_port: u16, proxy_port: u16) -> (r:
        LaunchFlags)
        ensures
            r == flags_of(*settings, debug_port, proxy_port),
            r.provider_sync == settings.provider_sync_enabled,
            r.computer_use_guard == settings.computer_use_guard_enabled,
            r.enhancements == settings.enhancements_enabled,
            r.protocol_proxy == settings.active_relay_uses_protocol_proxy,
            r.proxy_port == proxy_port,
            r.debug_port == debug_port,
    {
        LaunchFlags {
            provider_sync: settings.provider_sync_enabled,
            computer_use_guard: settings.computer_use_guard_enabled,
            enhancements: settings.enhancements_enabled,
            protocol_proxy: relay::relay_protocol_proxy_enabled(settings),
            proxy_port,
            debug_port,
        }
    }
}

/// Where a launch stands: the action whose answer it waits for, or its end.
#[derive(Debug, Clone, Copy, PartialEq, Eq, Structural)]
pub enum Phase {
    ProviderSync,
    PluginMarketplace,
    ComputerUse,
    History,
    Helper,
    Launching,
    GuardWatchdog,
    Injection,
    LocalStorage,
    BridgeWatchdog,
    SaveRunning,
    WriteRunning,
    SaveDegraded,
    WriteDegraded,
    Running,
    ShutdownHelper,
    Terminate,
    SaveFailed,
    WriteFailed,
    Failed,
}

/// What the launcher is to do next.
#[derive(Debug)]
pub enum LaunchAction {
    RunProviderSync,
    EnsurePluginMarketplace,
    EnsureComputerUse,
    SanitizeHistory,
    StartHelper { helper_port: u16 },
    LaunchCodex { debug_port: u16 },
    StartGuardWatchdog,
    EnsureInjection { debug_port: u16, helper_port: u16 },
    SanitizeLocalStorage { debug_port: u16 },
    StartBridgeWatchdog { debug_port: u16, helper_port: u16 },
    SaveStatus { status: &'static str, message: String, debug_port: u16, helper_port: u16 },
    WriteStatus { status: &'static str },
    ShutdownHelper { helper_port: u16 },
    TerminateCodex { launch: CodexLaunch },
    Finish,
}

/// What came of an action.
#[derive(Debug)]
pub enum LaunchEvent {
    Done,
    Failed(String),
    Launched(CodexLaunch),
    Injected(bool),
}

// ---- over sequences of characters --------------------------------------------------------

/// `LaunchAction`, over sequences of characters.
pub enum Action {
    RunProviderSync,
    EnsurePluginMarketplace,
    EnsureComputerUse,
    SanitizeHistory,
    StartHelper { helper_port: u16 },
    LaunchCodex { debug_port: u16 },
    StartGuardWatchdog,
    EnsureInjection { debug_port: u16, helper_port: u16 },
    SanitizeLocalStorage { debug_port: u16 },
    StartBridgeWatchdog { debug_port: u16, helper_port: u16 },
    SaveStatus { status: Seq<char>, message: Seq<char>, debug_port: u16, helper_port: u16 },
    WriteStatus { status: Seq<char> },
    ShutdownHelper { helper_port: u16 },
    TerminateCodex { launch: Launch },
    Finish,
}

/// `LaunchEvent`, over sequences of characters.
pub enum Event {
    Done,
    Failed(Seq<char>),
    Launched(Launch),
    Injected(bool),
}

impl View for LaunchAction {
    type V = Action;

    open spec fn view(&self) -> Action {
        match self {
            LaunchAction::RunProviderSync => Action::RunProviderSync,
            LaunchAction::EnsurePluginMarketplace => Action::EnsurePluginMarketplace,
            LaunchAction::EnsureComputerUse => Action::EnsureComputerUse,
            LaunchAction::SanitizeHistory => Action::SanitizeHistory,
            LaunchAction::StartHelper { helper_port } => Action::StartHelper {
                helper_port: *helper_port,
            },
            LaunchAction::LaunchCodex { debug_port } => Action::LaunchCodex {
                debug_port: *debug_port,
            },
            LaunchAction::StartGuardWatchdog => Action::StartGuardWatchdog,
            LaunchAction::EnsureInjection { debug_port, helper_port } => Action::EnsureInjection {
                debug_port: *debug_port,
                helper_port: *helper_port,
            },
            LaunchAction::SanitizeLocalStorage { debug_port } => Action::SanitizeLocalStorage {
                debug_port: *debug_port,
            },
            LaunchAction::StartBridgeWatchdog { debug_port, helper_port } => {
                Action::StartBridgeWatchdog {
                    debug_port: *debug_port,
                    helper_port: *helper_port,
                }
            },
            LaunchAction::SaveStatus { status, message, debug_port, helper_port } => {
                Action::SaveStatus {
                    status: status@,
                    message: message@,
                    debug_port: *debug_port,
                    helper_port: *helper_port,
                }
            },
            LaunchAction::WriteStatus { status } => Action::WriteStatus { status: status@ },
            LaunchAction::ShutdownHelper { helper_port } => Action::ShutdownHelper {
                helper_port: *helper_port,
            },
            LaunchAction::TerminateCodex { launch } => Action::TerminateCodex { launch: launch@ },
            LaunchAction::Finish => Action::Finish,
        }
    }
}

impl View for LaunchEvent {
    type V = Event;

    open spec fn view(&self) -> Event {
        match self {
            LaunchEvent::Done => Event::Done,
            LaunchEvent::Failed(message) => Event::Failed(message@),
            LaunchEvent::Launched(launch) => Event::Launched(launch@),
            LaunchEvent::Injected(ready) => Event::Injected(*ready),
        }
    }
}

/// All that is known in the course of a launch.
pub struct Course {
    pub flags: LaunchFlags,
    pub phase: Phase,
    pub helper_port: u16,
    pub helper_started: bool,
    pub launched: Option<Launch>,
    /// Whether a launched app is left running when a later step fails.
    pub keep_launched: bool,
    pub error: Seq<char>,
}

// ---- the course --------------------------------------------------------------------------

/// Where a launch stands at first.
pub open spec fn first_phase(flags: LaunchFlags) -> Phase {
    if flags.provider_sync {
        Phase::ProviderSync
    } else {
        Phase::PluginMarketplace
    }
}

/// Where a launch stands once the app was launched and its guard is on.
pub open spec fn phase_with_app(flags: LaunchFlags) -> Phase {
    if flags.enhancements {
        Phase::Injection
    } else {
        Phase::SaveRunning
    }
}

/// Where a launch stands after a phase that went well.
pub open spec fn phase_after(flags: LaunchFlags, phase: Phase) -> Phase {
    match phase {
        Phase::ProviderSync => Phase::PluginMarketplace,
        Phase::PluginMarketplace => if flags.computer_use_guard {
            Phase::ComputerUse
        } else {
            Phase::History
        },
        Phase::ComputerUse => Phase::History,
        Phase::History => if flags.enhancements || flags.protocol_proxy {
            Phase::Helper
        } else {
            Phase::Launching
        },
        Phase::Helper => Phase::Launching,
        Phase::Launching => if flags.computer_use_guard {
            Phase::GuardWatchdog
        } else {
            phase_with_app(flags)
        },
        Phase::GuardWatchdog => phase_with_app(flags),
        Phase::Injection => Phase::LocalStorage,
        Phase::LocalStorage => Phase::BridgeWatchdog,
        Phase::BridgeWatchdog => Phase::SaveRunning,
        Phase::SaveRunning => Phase::WriteRunning,
        Phase::WriteRunning => Phase::Running,
        Phase::SaveDegraded => Phase::WriteDegraded,
        Phase::WriteDegraded => Phase::Running,
        Phase::Running => Phase::Running,
        Phase::ShutdownHelper => Phase::SaveFailed,
        Phase::Terminate => Phase::SaveFailed,
        Phase::SaveFailed => Phase::WriteFailed,
        Phase::WriteFailed => Phase::Failed,
        Phase::Failed => Phase::Failed,
    }
}

/// Whether a failure in a phase ends the launch.
pub open spec fn is_fatal(phase: Phase) -> bool {
    match phase {
        Phase::ProviderSync => true,
        Phase::ComputerUse => true,
        Phase::Helper => true,
        Phase::Launching => true,
        Phase::GuardWatchdog => true,
        Phase::BridgeWatchdog => true,
        Phase::SaveRunning => true,
        Phase::SaveDegraded => true,
        _ => false,
    }
}

/// Whether the launched app is closed when the launch fails.
pub open spec fn closes_app(c: Course) -> bool {
    c.launched is Some && !c.keep_launched
}

/// The first phase of undoing a launch.
pub open spec fn undo_phase(c: Course) -> Phase {
    if c.helper_started {
        Phase::ShutdownHelper
    } else if closes_app(c) {
        Phase::Terminate
    } else {
        Phase::SaveFailed
    }
}

/// The course of a launch in which an action failed that the launch needs.
pub open spec fn failed(c: Course, message: Seq<char>) -> Course {
    Course { phase: undo_phase(c), error: message, ..c }
}

/// The course of a launch after an action went well.
pub open spec fn succeeded(c: Course) -> Course {
    match c.phase {
        Phase::History => Course {
            phase: phase_after(c.flags, c.phase),
            helper_port: if c.flags.protocol_proxy {
                c.flags.proxy_port
            } else {
                c.helper_port
            },
            ..c
        },
        Phase::Helper => Course { phase: phase_after(c.flags, c.phase), helper_started: true, ..c },
        Phase::ShutdownHelper => Course {
            phase: if closes_app(c) {
                Phase::Terminate
            } else {
                Phase::SaveFailed
            },
            ..c
        },
        _ => Course { phase: phase_after(c.flags, c.phase), ..c },
    }
}

/// Whether an event answers the action that a launch waits for.
pub open spec fn answers(phase: Phase, event: Event) -> bool {
    match phase {
        Phase::Running => false,
        Phase::Failed => false,
        Phase::Launching => event is Launched || event is Failed,
        Phase::Injection => event is Injected,
        _ => event is Done || event is Failed,
    }
}

/// The course of a launch after an event. An event that is no answer changes nothing.
pub open spec fn after(c: Course, event: Event) -> Course {
    if !answers(c.phase, event) {
        c
    } else {
        match event {
            Event::Failed(message) => if is_fatal(c.phase) {
                failed(c, message)
            } else {
                succeeded(c)
            },
            Event::Launched(launch) => Course {
                phase: phase_after(c.flags, c.phase),
                launched: Some(launch),
                keep_launched: true,
                ..c
            },
            Event::Injected(ready) => if ready {
                Course { phase: Phase::LocalStorage, keep_launched: false, ..c }
            } else {
                Course { phase: Phase::SaveDegraded, ..c }
            },
            Event::Done => succeeded(c),
        }
    }
}

/// The course of a launch at its start.
pub open spec fn start_of(flags: LaunchFlags, helper_port: u16) -> Course {
    Course {
        flags,
        phase: first_phase(flags),
        helper_port,
        helper_started: false,
        launched: None,
        keep_launched: false,
        error: seq![],
    }
}

/// The status of a launch, with the ports that it uses.
pub open spec fn saved(c: Course, status: Seq<char>, message: Seq<char>) -> Action {
    Action::SaveStatus {
        status,
        message,
        debug_port: c.flags.debug_port,
        helper_port: c.helper_port,
    }
}

/// The message of a launch that runs without its enhancements.
pub open spec fn degraded_message() -> Seq<char> {
    "Codex launched; Codex++ enhancements are still waiting for the page bridge."@
}

/// The action that a launch waits for.
pub open spec fn action_of(c: Course) -> Action {
    let debug_port = c.flags.debug_port;
    let helper_port = c.helper_port;
    match c.phase {
        Phase::ProviderSync => Action::RunProviderSync,
        Phase::PluginMarketplace => Action::EnsurePluginMarketplace,
        Phase::ComputerUse => Action::EnsureComputerUse,
        Phase::History => Action::SanitizeHistory,
        Phase::Helper => Action::StartHelper { helper_port },
        Phase::Launching => Action::LaunchCodex { debug_port },
        Phase::GuardWatchdog => Action::StartGuardWatchdog,
        Phase::Injection => Action::EnsureInjection { debug_port, helper_port },
        Phase::LocalStorage => Action::SanitizeLocalStorage { debug_port },
        Phase::BridgeWatchdog => Action::StartBridgeWatchdog { debug_port, helper_port },
        Phase::SaveRunning => saved(c, "running"@, "Codex++ launcher ready"@),
        Phase::WriteRunning => Action::WriteStatus { status: "running"@ },
        Phase::SaveDegraded => saved(c, "running_degraded"@, degraded_message()),
        Phase::WriteDegraded => Action::WriteStatus { status: "running_degraded"@ },
        Phase::Running => Action::Finish,
        Phase::ShutdownHelper => Action::ShutdownHelper { helper_port },
        Phase::Terminate => match c.launched {
            Some(launch) => Action::TerminateCodex { launch },
            None => Action::Finish,
        },
        Phase::SaveFailed => saved(c, "failed"@, c.error),
        Phase::WriteFailed => Action::WriteStatus { status: "failed"@ },
        Phase::Failed => Action::Finish,
    }
}

// ---- the session -------------------------------------------------------------------------

/// A launch under way.
#[derive(Debug)]
pub struct LaunchSession {
    flags: LaunchFlags,
    phase: Phase,
    helper_port: u16,
    helper_started: bool,
    launched: Option<CodexLaunch>,
    keep_launched: bool,
    error: String,
}

/// What a launch has brought up.
#[derive(Debug)]
pub struct LaunchedApp {
    pub debug_port: u16,
    pub helper_port: u16,
    pub helper_started: bool,
    pub launch: CodexLaunch,
}

impl View for LaunchSession {
    type V = Course;

    closed spec fn view(&self) -> Course {
        Course {
            flags: self.flags,
            phase: self.phase,
            helper_port: self.helper_port,
            helper_started: self.helper_started,
            launched: match self.launched {
                Some(launch) => Some(launch@),
                None => None,
            },
            keep_launched: self.keep_launched,
            error: self.error@,
        }
    }
}

impl LaunchSession {
    /// A launch at its start.
    pub fn new(flags: LaunchFlags, helper_port: u16) -> (r: LaunchSession)
        ensures
            r@ == start_of(flags, helper_port),
    {
        let phase: Phase = if flags.provider_sync {
            Phase::ProviderSync
        } else {
            Phase::PluginMarketplace
        };
        let r = LaunchSession {
            flags,
            phase,
            helper_port,
            helper_started: false,
            launched: None,
            keep_launched: false,
            error: String::new(),
        };
        assert(r@.error =~= seq![]);
        r
    }

    /// The action that the launch waits for.
    pub fn action(&self) -> (r: LaunchAction)
        ensures
            r@ == action_of(self@),
            r is StartHelper ==> r->StartHelper_helper_port == self@.helper_port,
            r is LaunchCodex ==> r->LaunchCodex_debug_port == self@.flags.debug_port,
            r is EnsureInjection ==> r->EnsureInjection_debug_port == self@.flags.debug_port
                && r->EnsureInjection_helper_port == self@.helper_port,
            r is SanitizeLocalStorage ==> r->SanitizeLocalStorage_debug_port
                == self@.flags.debug_port,
            r is StartBridgeWatchdog ==> r->StartBridgeWatchdog_debug_port == self@.flags.debug_port
                && r->StartBridgeWatchdog_helper_port == self@.helper_port,
            r is SaveStatus ==> r->SaveStatus_debug_port == self@.flags.debug_port
                && r->SaveStatus_helper_port == self@.helper_port,
            r is ShutdownHelper ==> r->ShutdownHelper_helper_port == self@.helper_port,
            r is TerminateCodex ==> self@.launched == Some(r->launch@),
            self@.phase == Phase::SaveRunning ==> r is SaveStatus && r->SaveStatus_status@
                == "running"@ && r->message@ == "Codex++ launcher ready"@,
            self@.phase == Phase::SaveDegraded ==> r is SaveStatus && r->SaveStatus_status@
                == "running_degraded"@,
            self@.phase == Phase::SaveFailed ==> r is SaveStatus && r->SaveStatus_status@
                == "failed"@ && r->message@ == self@.error,
    {
        let debug_port: u16 = self.flags.debug_port;
        let helper_port: u16 = self.helper_port;
        match self.phase {
            Phase::ProviderSync => LaunchAction::RunProviderSync,
            Phase::PluginMarketplace => LaunchAction::EnsurePluginMarketplace,
            Phase::ComputerUse => LaunchAction::EnsureComputerUse,
            Phase::History => LaunchAction::SanitizeHistory,
            Phase::Helper => LaunchAction::StartHelper { helper_port },
            Phase::Launching => LaunchAction::LaunchCodex { debug_port },
            Phase::GuardWatchdog => LaunchAction::StartGuardWatchdog,
            Phase::Injection => LaunchAction::EnsureInjection { debug_port, helper_port },
            Phase::LocalStorage => LaunchAction::SanitizeLocalStorage { debug_port },
            Phase::BridgeWatchdog => LaunchAction::StartBridgeWatchdog { debug_port, helper_port },
            Phase::SaveRunning => LaunchAction::SaveStatus {
                status: "running",
                message: "Codex++ launcher ready".to_string(),
                debug_port,
                helper_port,
            },
            Phase::WriteRunning => LaunchAction::WriteStatus { status: "running" },
            Phase::SaveDegraded => LaunchAction::SaveStatus {
                status: "running_degraded",
                message: "Codex launched; Codex++ enhancements are still waiting for the page bridge.".to_string(),
                debug_port,
                helper_port,
            },
            Phase::WriteDegraded => LaunchAction::WriteStatus { status: "running_degraded" },
            Phase::Running => LaunchAction::Finish,
            Phase::ShutdownHelper => LaunchAction::ShutdownHelper { helper_port },
            Phase::Terminate => match &self.launched {
                Some(launch) => LaunchAction::TerminateCodex { launch: launch.clone() },
                None => LaunchAction::Finish,
            },
            Phase::SaveFailed => LaunchAction::SaveStatus {
                status: "failed",
                message: self.error.clone(),
                debug_port,
                helper_port,
            },
            Phase::WriteFailed => LaunchAction::WriteStatus { status: "failed" },
            Phase::Failed => LaunchAction::Finish,
        }
    }

    fn closes_app(&self) -> (r: bool)
        ensures
            r == closes_app(self@),
    {
        self.launched.is_some() && !self.keep_launched
    }

    /// Goes on after an action that went well.
    fn succeed(&mut self)
        ensures
            final(self)@ == succeeded(old(self)@),
    {
        let flags: LaunchFlags = self.flags;
        let with_app: Phase = if flags.enhancements {
            Phase::Injection
        } else {
            Phase::SaveRunning
        };
        let next: Phase = match self.phase {
            Phase::ProviderSync => Phase::PluginMarketplace,
            Phase::PluginMarketplace => if flags.computer_use_guard {
                Phase::ComputerUse
            } else {
                Phase::History
            },
            Phase::ComputerUse => Phase::History,
            Phase::History => {
                if flags.protocol_proxy {
                    self.helper_port = flags.proxy_port;
                }
                if flags.enhancements || flags.protocol_proxy {
                    Phase::Helper
                } else {
                    Phase::Launching
                }
            },
            Phase::Helper => {
                self.helper_started = true;
                Phase::Launching
            },
            Phase::Launching => if flags.computer_use_guard {
                Phase::GuardWatchdog
            } else {
                with_app
            },
            Phase::GuardWatchdog => with_app,
            Phase::Injection => Phase::LocalStorage,
            Phase::LocalStorage => Phase::BridgeWatchdog,
            Phase::BridgeWatchdog => Phase::SaveRunning,
            Phase::SaveRunning => Phase::WriteRunning,
            Phase::WriteRunning => Phase::Running,
            Phase::SaveDegraded => Phase::WriteDegraded,
            Phase::WriteDegraded => Phase::Running,
            Phase::Running => Phase::Running,
            Phase::ShutdownHelper => if self.closes_app() {
                Phase::Terminate
            } else {
                Phase::SaveFailed
            },
            Phase::Terminate => Phase::SaveFailed,
            Phase::SaveFailed => Phase::WriteFailed,
            Phase::WriteFailed => Phase::Failed,
            Phase::Failed => Phase::Failed,
        };
        self.phase = next;
    }

    /// Turns to undoing the launch.
    fn fail(&mut self, message: String)
        ensures
            final(self)@ == failed(old(self)@, message@),
    {
        self.phase =
        if self.helper_started {
            Phase::ShutdownHelper
        } else if self.closes_app() {
            Phase::Terminate
        } else {
            Phase::SaveFailed
        };
        self.error = message;
    }

    /// Takes in what came of the action that the launch waits for. An event that is no answer
    /// to it changes nothing.
    pub fn advance(&mut self, event: LaunchEvent)
        ensures
            final(self)@ == after(old(self)@, event@),
            event is Failed && (old(self)@.phase == Phase::ProviderSync || old(self)@.phase
                == Phase::ComputerUse || old(self)@.phase == Phase::Helper || old(self)@.phase
                == Phase::Launching || old(self)@.phase == Phase::GuardWatchdog || old(self)@.phase
                == Phase::BridgeWatchdog || old(self)@.phase == Phase::SaveRunning
                || old(self)@.phase == Phase::SaveDegraded) ==> final(self)@.error
                == event->Failed_0@,
            event is Launched && old(self)@.phase == Phase::Launching ==> final(self)@.launched
                == Some(event->Launched_0@),
            event is Injected && old(self)@.phase == Phase::Injection ==> final(self)@.phase
                == if event->Injected_0 {
                Phase::LocalStorage
            } else {
                Phase::SaveDegraded
            },
    {
        match self.phase {
            Phase::Running => {},
            Phase::Failed => {},
            Phase::Launching => match event {
                LaunchEvent::Launched(launch) => {
                    self.succeed();
                    self.launched = Some(launch);
                    self.keep_launched = true;
                },
                LaunchEvent::Failed(message) => {
                    self.fail(message);
                },
                _ => {},
            },
            Phase::Injection => match event {
                LaunchEvent::Injected(ready) => {
                    if ready {
                        self.keep_launched = false;
                        self.phase = Phase::LocalStorage;
                    } else {
                        self.phase = Phase::SaveDegraded;
                    }
                },
                _ => {},
            },
            Phase::ProviderSync | Phase::ComputerUse | Phase::Helper | Phase::GuardWatchdog
            | Phase::BridgeWatchdog | Phase::SaveRunning | Phase::SaveDegraded => match event {
                LaunchEvent::Done => {
                    self.succeed();
                },
                LaunchEvent::Failed(message) => {
                    self.fail(message);
                },
                _ => {},
            },
            _ => match event {
                LaunchEvent::Done => {
                    self.succeed();
                },
                LaunchEvent::Failed(_) => {
                    self.succeed();
                },
                _ => {},
            },
        }
    }

    /// What the launch has brought up, once it runs.
    pub fn into_launched(self) -> (r: Option<LaunchedApp>)
        ensures
            r is Some <==> self@.phase == Phase::Running && self@.launched is Some,
            r is Some ==> r->0.debug_port == self@.flags.debug_port && r->0.helper_port
                == self@.helper_port && r->0.helper_started == self@.helper_started
                && Some(r->0.launch@) == self@.launched,
    {
        if self.phase == Phase::Running {
            match self.launched {
                Some(launch) => Some(
                    LaunchedApp {
                        debug_port: self.flags.debug_port,
                        helper_port: self.helper_port,
                        helper_started: self.helper_started,
                        launch,
                    },
                ),
                None => None,
            }
        } else {
            None
        }
    }
}

impl LaunchedApp {
    /// The port of the helper that is shut down once the app is gone, if one was started.
    pub fn helper_to_shut_down(&self) -> (r: Option<u16>)
        ensures
            r == if self.helper_started {
                Some(self.helper_port)
            } else {
                None
            },
    {
        if self.helper_started {
            Some(self.helper_port)
        } else {
            None
        }
    }
}

} // verus!
