use vstd::prelude::*;
use crate::error::StartupError;
use crate::registry::{
    installed, lookup_command, names_unique, registered, string_views, Handler, Module, Registry,
};

verus! {

/// The build mode, fixed for the life of the process: logging is installed
/// only in a debug build.
#[derive(Clone, Copy, Debug, PartialEq, Eq, Structural)]
pub enum BuildMode {
    Debug,
    Release,
}

/// Severity threshold of the logging module.
#[derive(Clone, Copy, Debug, PartialEq, Eq, Structural)]
pub enum LogLevel {
    Error,
    Warn,
    Info,
    Debug,
    Trace,
}

/// Where the bootstrap stands: it moves only forward, and ends in
/// `Terminated`.
#[derive(Clone, Copy, Debug, PartialEq, Eq, Structural)]
pub enum Phase {
    Uninitialized,
    ModulesInstalling,
    RegistryBuilding,
    Running,
    Terminated,
}

/// Why the process ends with a failure.
#[derive(Debug)]
pub enum Failure {
    Startup(StartupError),
    EventLoop { message: String },
}

/// What the bootstrap asks its host to do next.
#[derive(Debug)]
pub enum Action {
    /// Install the filesystem module and report the outcome.
    InstallFilesystem,
    /// Install the logging module at this threshold and report the outcome.
    InstallLogging { min_level: LogLevel },
    /// Every module is in: call `register_commands`.
    BuildRegistry,
    /// The registry is complete: start the event loop.
    Serve,
    /// Exit with a failure.
    Fail(Failure),
    /// Exit normally.
    Exit,
    /// The event does not apply in this phase: nothing to do.
    Ignore,
}

/// What the host reports back.
#[derive(Debug)]
pub enum Event {
    /// The module was installed and provides these commands.
    Installed { module: Module, commands: Vec<String> },
    InstallFailed { module: Module, message: String },
    Shutdown,
    LoopFailed { message: String },
}

/// The abstract state of a bootstrap.
pub struct BootState {
    pub mode: BuildMode,
    pub phase: Phase,
    /// The module whose installation is pending, while modules install.
    pub awaiting: Module,
    /// Whether installing the logging module was ever asked for.
    pub logging_requested: bool,
    pub commands: Seq<(Seq<char>, Handler)>,
}

/// The invariant of every state a bootstrap reaches.
pub open spec fn consistent(s: BootState) -> bool {
    &&& names_unique(s.commands)
    &&& s.mode == BuildMode::Release ==> !s.logging_requested
    &&& s.phase == Phase::ModulesInstalling && s.awaiting == Module::Logging
        ==> s.logging_requested
    &&& s.phase == Phase::Running ==> lookup_command(s.commands, "greet"@) == Some(Handler::Greet)
}

/// `s` moved to `phase`.
pub open spec fn with_phase(s: BootState, phase: Phase) -> BootState {
    BootState { phase, ..s }
}

/// `t` and `a` are the state and action after the process starts in `s`.
pub open spec fn started(s: BootState, t: BootState, a: Action) -> bool {
    if s.phase == Phase::Uninitialized {
        &&& t == BootState {
            awaiting: Module::Filesystem,
            ..with_phase(s, Phase::ModulesInstalling)
        }
        &&& a is InstallFilesystem
    } else {
        t == s && a is Ignore
    }
}

/// `t` and `a` are the state and action after `s` handles `event`.
pub open spec fn handled(s: BootState, event: Event, t: BootState, a: Action) -> bool {
    match event {
        Event::Installed { module, commands } => if s.phase == Phase::ModulesInstalling && module
            == s.awaiting {
            match installed(s.commands, module, string_views(commands@)) {
                Err(n) => {
                    &&& t == BootState { commands: t.commands, ..with_phase(s, Phase::Terminated) }
                    &&& s.commands.is_prefix_of(t.commands)
                    &&& a matches Action::Fail(
                        Failure::Startup(StartupError::DuplicateCommand { name }),
                    ) && name@ == n
                },
                Ok(c) => if module == Module::Filesystem && s.mode == BuildMode::Debug {
                    &&& t == BootState {
                        awaiting: Module::Logging,
                        logging_requested: true,
                        commands: c,
                        ..s
                    }
                    &&& a matches Action::InstallLogging { min_level } && min_level
                        == LogLevel::Info
                } else {
                    t == BootState { commands: c, ..with_phase(s, Phase::RegistryBuilding) }
                        && a is BuildRegistry
                },
            }
        } else {
            t == s && a is Ignore
        },
        Event::InstallFailed { module, message } => if s.phase == Phase::ModulesInstalling
            && module == s.awaiting {
            &&& t == with_phase(s, Phase::Terminated)
            &&& a matches Action::Fail(
                Failure::Startup(StartupError::ModuleInstall { module: m, message: msg }),
            ) && m == module && msg@ == message@
        } else {
            t == s && a is Ignore
        },
        Event::Shutdown => if s.phase != Phase::Terminated {
            t == with_phase(s, Phase::Terminated) && a is Exit
        } else {
            t == s && a is Ignore
        },
        Event::LoopFailed { message } => if s.phase == Phase::Running {
            &&& t == with_phase(s, Phase::Terminated)
            &&& a matches Action::Fail(Failure::EventLoop { message: m }) && m@ == message@
        } else {
            t == s && a is Ignore
        },
    }
}

/// `t` and `a` are the state and action after `s` registers the built-in
/// commands.
pub open spec fn commands_registered(s: BootState, t: BootState, a: Action) -> bool {
    if s.phase == Phase::RegistryBuilding {
        match registered(s.commands, "greet"@, Handler::Greet) {
            Some(c) => t == BootState { commands: c, ..with_phase(s, Phase::Running) } && a is Serve,
            None => {
                &&& t == with_phase(s, Phase::Terminated)
                &&& a matches Action::Fail(
                    Failure::Startup(StartupError::DuplicateCommand { name }),
                ) && name@ == "greet"@
            },
        }
    } else {
        t == s && a is Ignore
    }
}

/// In a release build no step asks for the logging module or fails on it,
/// and none leads to a state where it was ever asked for.
pub proof fn lemma_release_never_installs_logging(s: BootState, event: Event, t: BootState, a: Action)
    requires
        consistent(s),
        s.mode == BuildMode::Release,
        started(s, t, a) || handled(s, event, t, a) || commands_registered(s, t, a),
    ensures
        t.mode == BuildMode::Release,
        !t.logging_requested,
        !(a is InstallLogging),
        !(a matches Action::Fail(
            Failure::Startup(StartupError::ModuleInstall { module: Module::Logging, .. }),
        )),
{
}

/// A bootstrap reaches `Running` only with unique command names and `greet`
/// among them.
pub proof fn lemma_running_registry(s: BootState)
    requires
        consistent(s),
        s.phase == Phase::Running,
    ensures
        names_unique(s.commands),
        lookup_command(s.commands, "greet"@) == Some(Handler::Greet),
{
}

/// Drives the startup of the application and records where it stands.
pub struct Bootstrap {
    mode: BuildMode,
    phase: Phase,
    awaiting: Module,
    logging_requested: bool,
    registry: Registry,
}

impl View for Bootstrap {
    type V = BootState;

    closed spec fn view(&self) -> BootState {
        BootState {
            mode: self.mode,
            phase: self.phase,
            awaiting: self.awaiting,
            logging_requested: self.logging_requested,
            commands: self.registry@,
        }
    }
}

impl Bootstrap {
    /// The state is one that a bootstrap can reach.
    pub open spec fn wf(&self) -> bool {
        consistent(self@)
    }

    /// A bootstrap that has not started yet.
    pub fn new(mode: BuildMode) -> (r: Bootstrap)
        ensures
            r.wf(),
            r@.mode == mode,
            r@.phase == Phase::Uninitialized,
            !r@.logging_requested,
            r@.commands.len() == 0,
    {
        Bootstrap {
            mode,
            phase: Phase::Uninitialized,
            awaiting: Module::Filesystem,
            logging_requested: false,
            registry: Registry::new(),
        }
    }

    /// Process start: begins installing modules, the filesystem module first.
    pub fn start(&mut self) -> (a: Action)
        requires
            old(self).wf(),
        ensures
            final(self).wf(),
            started(old(self)@, final(self)@, a),
    {
        if self.phase != Phase::Uninitialized {
            return Action::Ignore;
        }
        self.phase = Phase::ModulesInstalling;
        self.awaiting = Module::Filesystem;
        Action::InstallFilesystem
    }

    /// Registers the built-in commands once every module is in; a name that
    /// a module already took ends the bootstrap before it runs.
    pub fn register_commands(&mut self) -> (a: Action)
        requires
            old(self).wf(),
        ensures
            final(self).wf(),
            commands_registered(old(self)@, final(self)@, a),
    {
        if self.phase != Phase::RegistryBuilding {
            return Action::Ignore;
        }
        match self.registry.register(String::from_str("greet"), Handler::Greet) {
            Ok(()) => {
                proof {
                    assert(self.registry@.last() == ("greet"@, Handler::Greet));
                }
                self.phase = Phase::Running;
                Action::Serve
            },
            Err(e) => {
                self.phase = Phase::Terminated;
                Action::Fail(Failure::Startup(e))
            },
        }
    }

    /// The build mode, fixed at creation.
    pub fn mode(&self) -> (r: BuildMode)
        ensures
            r == self@.mode,
    {
        self.mode
    }

    /// The current phase.
    pub fn phase(&self) -> (r: Phase)
        ensures
            r == self@.phase,
    {
        self.phase
    }

    /// The command registry as built so far.
    pub fn registry(&self) -> (r: &Registry)
        requires
            self.wf(),
        ensures
            r@ == self@.commands,
            r.wf(),
    {
        &self.registry
    }

    /// Takes in what the host reports and says what to do next.
    pub fn handle(&mut self, event: Event) -> (a: Action)
        requires
            old(self).wf(),
        ensures
            final(self).wf(),
            handled(old(self)@, event, final(self)@, a),
    {
        let ghost s = self@;
        match event {
            Event::Installed { module, commands } => {
                if self.phase != Phase::ModulesInstalling || module != self.awaiting {
                    return Action::Ignore;
                }
                match self.registry.install_module(module, &commands) {
                    Err(e) => {
                        self.phase = Phase::Terminated;
                        Action::Fail(Failure::Startup(e))
                    },
                    Ok(()) => {
                        if module == Module::Filesystem && self.mode == BuildMode::Debug {
                            self.awaiting = Module::Logging;
                            self.logging_requested = true;
                            Action::InstallLogging { min_level: LogLevel::Info }
                        } else {
                            self.phase = Phase::RegistryBuilding;
                            Action::BuildRegistry
                        }
                    },
                }
            },
            Event::InstallFailed { module, message } => {
                if self.phase != Phase::ModulesInstalling || module != self.awaiting {
                    return Action::Ignore;
                }
                self.phase = Phase::Terminated;
                Action::Fail(Failure::Startup(StartupError::ModuleInstall { module, message }))
            },
            Event::Shutdown => {
                if self.phase == Phase::Terminated {
                    return Action::Ignore;
                }
                self.phase = Phase::Terminated;
                Action::Exit
            },
            Event::LoopFailed { message } => {
                if self.phase != Phase::Running {
                    return Action::Ignore;
                }
                self.phase = Phase::Terminated;
                Action::Fail(Failure::EventLoop { message })
            },
        }
    }
}

} // verus!
