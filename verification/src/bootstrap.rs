//! The startup state machine.
//!
//! A [`Bootstrap`] never performs anything itself. It is told what happened
//! ([`Event`]) and answers with what has to be done next ([`Action`]). The
//! caller owns the framework: it attaches the plugin, writes the record,
//! returns from the setup callback or ends the process, and then reports the
//! outcome as the next event.

use vstd::prelude::*;
use crate::record::{Level, LevelFilter};
use crate::record::{startup_text, version_text, fatal_text};
use crate::record::{startup_message, version_message, fatal_message};

verus! {

/// How far the setup callback has come.
#[derive(Clone, Copy, Debug, PartialEq, Eq, Structural)]
pub enum Setup {
    /// The framework has not invoked the callback yet.
    Pending,
    /// The logging plugin is being attached.
    AttachingLogger,
    /// The startup record is being written.
    Announcing,
    /// The version record is being written.
    ReportingVersion,
    /// The callback has reported success.
    Complete,
    /// The callback has reported failure.
    Failed,
}

/// How the event loop ended.
#[derive(Clone, Copy, Debug, PartialEq, Eq, Structural)]
pub enum Exit {
    /// It returned without an error.
    Clean,
    /// It reported an error.
    Crashed,
}

/// The state of the application as a whole.
#[derive(Clone, Copy, Debug, PartialEq, Eq, Structural)]
pub enum Phase {
    /// Setup has not completed, and has not failed.
    Initializing,
    /// Setup failed; the event loop has not ended yet.
    SetupFailed,
    /// Setup completed and the event loop drives the application.
    Running,
    /// The event loop returned without an error.
    Stopped,
    /// The event loop reported an error.
    Crashed,
}

/// What the caller reports to the state machine.
#[derive(Clone, Copy, Debug, PartialEq, Eq, Structural)]
pub enum Event {
    /// The framework invoked the setup callback.
    SetupInvoked,
    /// The logging plugin was attached.
    PluginAttached,
    /// Attaching the logging plugin failed.
    PluginFailed,
    /// The record handed out last was written.
    RecordEmitted,
    /// The event loop returned without an error.
    RunLoopReturned,
    /// The event loop reported an error.
    RunLoopFailed,
}

/// What the state machine asks the caller to do.
#[derive(Debug, PartialEq, Eq)]
pub enum Action {
    /// Attach a logging plugin with the threshold `filter`.
    AttachLogPlugin { filter: LevelFilter },
    /// Write one log record.
    Emit { level: Level, message: String },
    /// Return success from the setup callback.
    CompleteSetup,
    /// Return the plugin's error from the setup callback.
    FailSetup,
    /// Return normally: the application has shut down.
    Return,
    /// End the process abnormally with `message` as the diagnostic.
    Abort { message: String },
}

/// An [`Action`] with its texts as sequences of characters.
pub enum ActionView {
    AttachLogPlugin { filter: LevelFilter },
    Emit { level: Level, message: Seq<char> },
    CompleteSetup,
    FailSetup,
    Return,
    Abort { message: Seq<char> },
}

impl View for Action {
    type V = ActionView;

    open spec fn view(&self) -> ActionView {
        match *self {
            Action::AttachLogPlugin { filter } => ActionView::AttachLogPlugin { filter },
            Action::Emit { level, message } => ActionView::Emit { level, message: message@ },
            Action::CompleteSetup => ActionView::CompleteSetup,
            Action::FailSetup => ActionView::FailSetup,
            Action::Return => ActionView::Return,
            Action::Abort { message } => ActionView::Abort { message: message@ },
        }
    }
}

/// The view of an optional action.
pub open spec fn issued(action: Option<Action>) -> Option<ActionView> {
    match action {
        Some(a) => Some(a@),
        None => None,
    }
}

/// The mathematical state of a [`Bootstrap`].
pub struct State {
    /// Whether this is a debug build.
    pub debug: bool,
    /// The version of the build.
    pub version: Seq<char>,
    /// How far setup has come.
    pub setup: Setup,
    /// How the event loop ended, once it has.
    pub exit: Option<Exit>,
}

/// The state before anything has happened.
pub open spec fn initial(debug: bool, version: Seq<char>) -> State {
    State { debug, version, setup: Setup::Pending, exit: None }
}

/// The phase that a state is in.
pub open spec fn phase_of(s: State) -> Phase {
    match s.exit {
        Some(Exit::Crashed) => Phase::Crashed,
        Some(Exit::Clean) => Phase::Stopped,
        None => match s.setup {
            Setup::Complete => Phase::Running,
            Setup::Failed => Phase::SetupFailed,
            _ => Phase::Initializing,
        },
    }
}

/// The record that announces startup.
pub open spec fn startup_record() -> ActionView {
    ActionView::Emit { level: Level::Info, message: startup_text() }
}

/// The record that reports the version.
pub open spec fn version_record(version: Seq<char>) -> ActionView {
    ActionView::Emit { level: Level::Info, message: version_text(version) }
}

/// The request for the logging plugin.
pub open spec fn attach_logger() -> ActionView {
    ActionView::AttachLogPlugin { filter: LevelFilter::Info }
}

/// The request to end the process abnormally.
pub open spec fn abort() -> ActionView {
    ActionView::Abort { message: fatal_text() }
}

/// One step of the state machine: the state after `event`, and the action
/// that answers it. An event that is not due in `s` changes nothing and is
/// answered by no action.
///
/// Once the event loop has ended, nothing is due. Until then its end is
/// always due: an error ends the process with the fixed diagnostic, a plain
/// return ends it normally. The events of setup are due one after the other:
/// in a debug build the logging plugin comes first, and its failure fails
/// setup on the spot; then the two records are written; then setup completes.
pub open spec fn transition(s: State, event: Event) -> (State, Option<ActionView>) {
    if s.exit is Some {
        (s, None)
    } else {
        match (event, s.setup) {
            (Event::RunLoopFailed, _) => (
                State { exit: Some(Exit::Crashed), ..s },
                Some(abort()),
            ),
            (Event::RunLoopReturned, _) => (
                State { exit: Some(Exit::Clean), ..s },
                Some(ActionView::Return),
            ),
            (Event::SetupInvoked, Setup::Pending) => if s.debug {
                (State { setup: Setup::AttachingLogger, ..s }, Some(attach_logger()))
            } else {
                (State { setup: Setup::Announcing, ..s }, Some(startup_record()))
            },
            (Event::PluginAttached, Setup::AttachingLogger) => (
                State { setup: Setup::Announcing, ..s },
                Some(startup_record()),
            ),
            (Event::PluginFailed, Setup::AttachingLogger) => (
                State { setup: Setup::Failed, ..s },
                Some(ActionView::FailSetup),
            ),
            (Event::RecordEmitted, Setup::Announcing) => (
                State { setup: Setup::ReportingVersion, ..s },
                Some(version_record(s.version)),
            ),
            (Event::RecordEmitted, Setup::ReportingVersion) => (
                State { setup: Setup::Complete, ..s },
                Some(ActionView::CompleteSetup),
            ),
            _ => (s, None),
        }
    }
}

/// The startup of one application instance.
pub struct Bootstrap {
    debug: bool,
    version: String,
    setup: Setup,
    exit: Option<Exit>,
}

impl View for Bootstrap {
    type V = State;

    closed spec fn view(&self) -> State {
        State { debug: self.debug, version: self.version@, setup: self.setup, exit: self.exit }
    }
}

impl Bootstrap {
    /// A startup that has not begun, for a debug or release build with the
    /// given version.
    pub fn new(debug: bool, version: &str) -> (bootstrap: Bootstrap)
        ensures
            bootstrap@ == initial(debug, version@),
    {
        Bootstrap { debug, version: String::from_str(version), setup: Setup::Pending, exit: None }
    }

    /// How far setup has come.
    pub fn setup(&self) -> (setup: Setup)
        ensures
            setup == self@.setup,
    {
        self.setup
    }

    /// How the event loop ended, or `None` while it has not.
    pub fn exit(&self) -> (exit: Option<Exit>)
        ensures
            exit == self@.exit,
    {
        self.exit
    }

    /// The phase that the application is in.
    pub fn phase(&self) -> (phase: Phase)
        ensures
            phase == phase_of(self@),
    {
        match self.exit {
            Some(Exit::Crashed) => Phase::Crashed,
            Some(Exit::Clean) => Phase::Stopped,
            None => match self.setup {
                Setup::Complete => Phase::Running,
                Setup::Failed => Phase::SetupFailed,
                _ => Phase::Initializing,
            },
        }
    }

    /// Takes note of `event` and returns the action that answers it, or
    /// `None` where the event is not due and nothing has changed.
    pub fn step(&mut self, event: Event) -> (action: Option<Action>)
        ensures
            (final(self)@, issued(action)) == transition(old(self)@, event),
    {
        if self.exit.is_some() {
            return None;
        }
        match event {
            Event::RunLoopFailed => {
                self.exit = Some(Exit::Crashed);
                Some(Action::Abort { message: fatal_message() })
            },
            Event::RunLoopReturned => {
                self.exit = Some(Exit::Clean);
                Some(Action::Return)
            },
            Event::SetupInvoked => match self.setup {
                Setup::Pending => {
                    if self.debug {
                        self.setup = Setup::AttachingLogger;
                        Some(Action::AttachLogPlugin { filter: LevelFilter::Info })
                    } else {
                        self.setup = Setup::Announcing;
                        Some(Action::Emit { level: Level::Info, message: startup_message() })
                    }
                },
                _ => None,
            },
            Event::PluginAttached => match self.setup {
                Setup::AttachingLogger => {
                    self.setup = Setup::Announcing;
                    Some(Action::Emit { level: Level::Info, message: startup_message() })
                },
                _ => None,
            },
            Event::PluginFailed => match self.setup {
                Setup::AttachingLogger => {
                    self.setup = Setup::Failed;
                    Some(Action::FailSetup)
                },
                _ => None,
            },
            Event::RecordEmitted => match self.setup {
                Setup::Announcing => {
                    self.setup = Setup::ReportingVersion;
                    Some(
                        Action::Emit {
                            level: Level::Info,
                            message: version_message(self.version.as_str()),
                        },
                    )
                },
                Setup::ReportingVersion => {
                    self.setup = Setup::Complete;
                    Some(Action::CompleteSetup)
                },
                _ => None,
            },
        }
    }
}

} // verus!
