use coda_dashboard::bootstrap::{Action, Bootstrap, Event, Exit, Phase, Setup};
use coda_dashboard::record::{Level, LevelFilter};

fn drive(bootstrap: &mut Bootstrap, events: &[Event]) -> Vec<Action> {
    let mut actions = Vec::new();
    for event in events {
        if let Some(action) = bootstrap.step(*event) {
            actions.push(action);
        }
    }
    actions
}

fn emit(message: &str) -> Action {
    Action::Emit { level: Level::Info, message: message.to_string() }
}

fn attached_filters(actions: &[Action]) -> Vec<LevelFilter> {
    let mut filters = Vec::new();
    for action in actions {
        if let Action::AttachLogPlugin { filter } = action {
            filters.push(*filter);
        }
    }
    filters
}

const SETUP_IN_DEBUG: [Event; 4] = [
    Event::SetupInvoked,
    Event::PluginAttached,
    Event::RecordEmitted,
    Event::RecordEmitted,
];

const SETUP_IN_RELEASE: [Event; 3] = [Event::SetupInvoked, Event::RecordEmitted, Event::RecordEmitted];

#[test]
fn new_bootstrap_is_initializing() {
    let bootstrap = Bootstrap::new(true, "0.1.0");
    assert_eq!(bootstrap.setup(), Setup::Pending);
    assert_eq!(bootstrap.exit(), None);
    assert_eq!(bootstrap.phase(), Phase::Initializing);
}

#[test]
fn debug_setup_runs_the_whole_script() {
    let mut bootstrap = Bootstrap::new(true, "0.1.0");
    let actions = drive(&mut bootstrap, &SETUP_IN_DEBUG);
    assert_eq!(
        actions,
        vec![
            Action::AttachLogPlugin { filter: LevelFilter::Info },
            emit("Coda Dashboard starting up"),
            emit("Version: 0.1.0"),
            Action::CompleteSetup,
        ]
    );
    assert_eq!(bootstrap.setup(), Setup::Complete);
    assert_eq!(bootstrap.phase(), Phase::Running);
}

#[test]
fn release_setup_runs_the_script_without_the_plugin() {
    let mut bootstrap = Bootstrap::new(false, "0.1.0");
    let actions = drive(&mut bootstrap, &SETUP_IN_RELEASE);
    assert_eq!(
        actions,
        vec![emit("Coda Dashboard starting up"), emit("Version: 0.1.0"), Action::CompleteSetup]
    );
    assert_eq!(bootstrap.phase(), Phase::Running);
}

#[test]
fn debug_build_attaches_one_logger_at_info() {
    let mut bootstrap = Bootstrap::new(true, "2.3.4");
    let mut actions = drive(&mut bootstrap, &SETUP_IN_DEBUG);
    actions.extend(drive(&mut bootstrap, &SETUP_IN_DEBUG));
    actions.extend(drive(&mut bootstrap, &[Event::RunLoopReturned, Event::SetupInvoked]));
    assert_eq!(attached_filters(&actions), vec![LevelFilter::Info]);
}

#[test]
fn debug_build_asks_for_the_logger_first() {
    let mut bootstrap = Bootstrap::new(true, "2.3.4");
    assert_eq!(
        bootstrap.step(Event::SetupInvoked),
        Some(Action::AttachLogPlugin { filter: LevelFilter::Info })
    );
    assert_eq!(bootstrap.setup(), Setup::AttachingLogger);
    assert_eq!(bootstrap.phase(), Phase::Initializing);
}

#[test]
fn release_build_attaches_no_logger() {
    let mut bootstrap = Bootstrap::new(false, "2.3.4");
    let mut actions = drive(&mut bootstrap, &SETUP_IN_DEBUG);
    actions.extend(drive(&mut bootstrap, &[Event::PluginAttached, Event::PluginFailed]));
    actions.extend(drive(&mut bootstrap, &[Event::RunLoopReturned]));
    assert_eq!(attached_filters(&actions), Vec::<LevelFilter>::new());
    assert_eq!(bootstrap.setup(), Setup::Complete);
}

#[test]
fn release_build_announces_startup_at_once() {
    let mut bootstrap = Bootstrap::new(false, "2.3.4");
    assert_eq!(bootstrap.step(Event::SetupInvoked), Some(emit("Coda Dashboard starting up")));
    assert_eq!(bootstrap.setup(), Setup::Announcing);
}

#[test]
fn startup_record_comes_before_version_record() {
    let mut bootstrap = Bootstrap::new(true, "7.0.0-rc.1");
    assert!(bootstrap.step(Event::SetupInvoked).is_some());
    assert_eq!(bootstrap.step(Event::PluginAttached), Some(emit("Coda Dashboard starting up")));
    assert_eq!(bootstrap.setup(), Setup::Announcing);
    assert_eq!(bootstrap.step(Event::RecordEmitted), Some(emit("Version: 7.0.0-rc.1")));
    assert_eq!(bootstrap.setup(), Setup::ReportingVersion);
    assert_eq!(bootstrap.step(Event::RecordEmitted), Some(Action::CompleteSetup));
    assert_eq!(bootstrap.step(Event::RecordEmitted), None);
}

#[test]
fn version_record_of_an_empty_version() {
    let mut bootstrap = Bootstrap::new(false, "");
    let actions = drive(&mut bootstrap, &SETUP_IN_RELEASE);
    assert_eq!(actions[1], emit("Version: "));
}

#[test]
fn plugin_failure_fails_setup() {
    let mut bootstrap = Bootstrap::new(true, "0.1.0");
    let actions = drive(&mut bootstrap, &[Event::SetupInvoked, Event::PluginFailed]);
    assert_eq!(
        actions,
        vec![Action::AttachLogPlugin { filter: LevelFilter::Info }, Action::FailSetup]
    );
    assert_eq!(bootstrap.setup(), Setup::Failed);
    assert_eq!(bootstrap.phase(), Phase::SetupFailed);
}

#[test]
fn failed_setup_never_runs() {
    let mut bootstrap = Bootstrap::new(true, "0.1.0");
    drive(&mut bootstrap, &[Event::SetupInvoked, Event::PluginFailed]);
    let later = drive(
        &mut bootstrap,
        &[
            Event::PluginAttached,
            Event::RecordEmitted,
            Event::RecordEmitted,
            Event::SetupInvoked,
            Event::PluginFailed,
        ],
    );
    assert_eq!(later, Vec::<Action>::new());
    assert_eq!(bootstrap.setup(), Setup::Failed);
    assert_ne!(bootstrap.phase(), Phase::Running);
}

#[test]
fn failed_setup_writes_no_record() {
    let mut bootstrap = Bootstrap::new(true, "0.1.0");
    let mut actions = drive(&mut bootstrap, &[Event::SetupInvoked, Event::PluginFailed]);
    actions.extend(drive(&mut bootstrap, &[Event::RecordEmitted, Event::RunLoopFailed]));
    assert!(actions.iter().all(|action| !matches!(action, Action::Emit { .. })));
}

#[test]
fn run_loop_error_after_failed_setup_is_fatal() {
    let mut bootstrap = Bootstrap::new(true, "0.1.0");
    drive(&mut bootstrap, &[Event::SetupInvoked, Event::PluginFailed]);
    assert_eq!(
        bootstrap.step(Event::RunLoopFailed),
        Some(Action::Abort { message: "error while running tauri application".to_string() })
    );
    assert_eq!(bootstrap.phase(), Phase::Crashed);
    assert_eq!(bootstrap.setup(), Setup::Failed);
}

#[test]
fn run_loop_error_while_running_is_fatal() {
    let mut bootstrap = Bootstrap::new(false, "0.1.0");
    drive(&mut bootstrap, &SETUP_IN_RELEASE);
    assert_eq!(
        bootstrap.step(Event::RunLoopFailed),
        Some(Action::Abort { message: "error while running tauri application".to_string() })
    );
    assert_eq!(bootstrap.exit(), Some(Exit::Crashed));
    assert_eq!(bootstrap.phase(), Phase::Crashed);
}

#[test]
fn run_loop_error_before_setup_is_fatal() {
    let mut bootstrap = Bootstrap::new(true, "0.1.0");
    assert_eq!(
        bootstrap.step(Event::RunLoopFailed),
        Some(Action::Abort { message: "error while running tauri application".to_string() })
    );
    assert_eq!(bootstrap.phase(), Phase::Crashed);
    assert_eq!(bootstrap.setup(), Setup::Pending);
}

#[test]
fn clean_return_stops_the_application() {
    let mut bootstrap = Bootstrap::new(true, "0.1.0");
    drive(&mut bootstrap, &SETUP_IN_DEBUG);
    assert_eq!(bootstrap.step(Event::RunLoopReturned), Some(Action::Return));
    assert_eq!(bootstrap.exit(), Some(Exit::Clean));
    assert_eq!(bootstrap.phase(), Phase::Stopped);
}

#[test]
fn nothing_follows_the_end_of_the_run_loop() {
    let all = [
        Event::SetupInvoked,
        Event::PluginAttached,
        Event::PluginFailed,
        Event::RecordEmitted,
        Event::RunLoopReturned,
        Event::RunLoopFailed,
    ];
    for end in [Event::RunLoopReturned, Event::RunLoopFailed] {
        let mut bootstrap = Bootstrap::new(true, "0.1.0");
        assert!(bootstrap.step(end).is_some());
        let exit = bootstrap.exit();
        assert_eq!(drive(&mut bootstrap, &all), Vec::<Action>::new());
        assert_eq!(bootstrap.exit(), exit);
        assert_eq!(bootstrap.setup(), Setup::Pending);
    }
}

#[test]
fn events_that_are_not_due_change_nothing() {
    let mut bootstrap = Bootstrap::new(true, "0.1.0");
    let early = [Event::PluginAttached, Event::PluginFailed, Event::RecordEmitted];
    assert_eq!(drive(&mut bootstrap, &early), Vec::<Action>::new());
    assert_eq!(bootstrap.setup(), Setup::Pending);
    assert!(bootstrap.step(Event::SetupInvoked).is_some());
    let waiting = [Event::SetupInvoked, Event::RecordEmitted];
    assert_eq!(drive(&mut bootstrap, &waiting), Vec::<Action>::new());
    assert_eq!(bootstrap.setup(), Setup::AttachingLogger);
    assert!(bootstrap.step(Event::PluginAttached).is_some());
    let announcing = [Event::SetupInvoked, Event::PluginAttached, Event::PluginFailed];
    assert_eq!(drive(&mut bootstrap, &announcing), Vec::<Action>::new());
    assert_eq!(bootstrap.setup(), Setup::Announcing);
}

#[test]
fn setup_is_invoked_only_once() {
    let mut bootstrap = Bootstrap::new(false, "0.1.0");
    drive(&mut bootstrap, &SETUP_IN_RELEASE);
    assert_eq!(bootstrap.step(Event::SetupInvoked), None);
    assert_eq!(bootstrap.setup(), Setup::Complete);
    assert_eq!(bootstrap.phase(), Phase::Running);
}
