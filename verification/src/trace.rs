//! Whole runs of the startup state machine, and what holds of every run.
//!
//! A run is a sequence of events reported one after another. Nothing is
//! assumed of the sequence: the laws below hold however the framework
//! behaves, also where it reports events that are not due.

use vstd::prelude::*;
use crate::record::{Level, LevelFilter};
use crate::record::{startup_text, version_text};
use crate::bootstrap::{ActionView, Event, Exit, Phase, Setup, State};
use crate::bootstrap::{abort, attach_logger, startup_record, version_record};
use crate::bootstrap::{initial, phase_of, transition};

verus! {

/// The state reached, and the actions issued in order, when `events` are
/// reported one after another to a state machine in state `s`.
pub open spec fn run(s: State, events: Seq<Event>) -> (State, Seq<ActionView>)
    decreases events.len(),
{
    if events.len() == 0 {
        (s, Seq::empty())
    } else {
        let (before, actions) = run(s, events.drop_last());
        let (after, action) = transition(before, events.last());
        (
            after,
            match action {
                Some(a) => actions.push(a),
                None => actions,
            },
        )
    }
}

/// The thresholds of the logging plugins that `actions` attach, in order.
pub open spec fn thresholds(actions: Seq<ActionView>) -> Seq<LevelFilter>
    decreases actions.len(),
{
    if actions.len() == 0 {
        Seq::empty()
    } else {
        let earlier = thresholds(actions.drop_last());
        match actions.last() {
            ActionView::AttachLogPlugin { filter } => earlier.push(filter),
            _ => earlier,
        }
    }
}

/// The records that `actions` write, in order, each as its severity and
/// its text.
pub open spec fn records(actions: Seq<ActionView>) -> Seq<(Level, Seq<char>)>
    decreases actions.len(),
{
    if actions.len() == 0 {
        Seq::empty()
    } else {
        let earlier = records(actions.drop_last());
        match actions.last() {
            ActionView::Emit { level, message } => earlier.push((level, message)),
            _ => earlier,
        }
    }
}

/// Everything that setup has asked for by the time it stands at `setup`:
/// in a debug build the logging plugin, then the startup record, then the
/// version record, then the report of success; or, where the plugin could
/// not be attached, the plugin and the report of failure.
pub open spec fn setup_script(debug: bool, version: Seq<char>, setup: Setup) -> Seq<ActionView> {
    let plugin = if debug {
        seq![attach_logger()]
    } else {
        Seq::empty()
    };
    match setup {
        Setup::Pending => Seq::empty(),
        Setup::AttachingLogger => plugin,
        Setup::Failed => plugin.push(ActionView::FailSetup),
        Setup::Announcing => plugin.push(startup_record()),
        Setup::ReportingVersion => plugin.push(startup_record()).push(version_record(version)),
        Setup::Complete => plugin.push(startup_record()).push(version_record(version)).push(
            ActionView::CompleteSetup,
        ),
    }
}

/// What the end of the event loop has asked for.
pub open spec fn exit_script(exit: Option<Exit>) -> Seq<ActionView> {
    match exit {
        None => Seq::empty(),
        Some(Exit::Clean) => seq![ActionView::Return],
        Some(Exit::Crashed) => seq![abort()],
    }
}

/// Every run from the initial state follows the script: the actions issued
/// are exactly those that the script lists for the point that setup has
/// reached, followed by the one that answers the end of the event loop,
/// where it has ended. The build and its version never change, and only a
/// debug build ever waits for the logging plugin or fails setup.
pub proof fn law_runs_follow_the_script(debug: bool, version: Seq<char>, events: Seq<Event>)
    ensures
        run(initial(debug, version), events).0.debug == debug,
        run(initial(debug, version), events).0.version == version,
        run(initial(debug, version), events).0.setup is AttachingLogger ==> debug,
        run(initial(debug, version), events).0.setup is Failed ==> debug,
        run(initial(debug, version), events).1 == setup_script(
            debug,
            version,
            run(initial(debug, version), events).0.setup,
        ) + exit_script(run(initial(debug, version), events).0.exit),
    decreases events.len(),
{
    let start = initial(debug, version);
    if events.len() == 0 {
        assert(run(start, events).1 =~= setup_script(debug, version, Setup::Pending) + exit_script(
            None,
        ));
    } else {
        let earlier = events.drop_last();
        law_runs_follow_the_script(debug, version, earlier);
        let (before, actions) = run(start, earlier);
        let (after, action) = transition(before, events.last());
        assert(actions =~= setup_script(debug, version, before.setup) + exit_script(before.exit));
        assert(run(start, events).1 =~= setup_script(debug, version, after.setup) + exit_script(
            after.exit,
        ));
    }
}

/// A debug build attaches exactly one logging plugin, with the threshold
/// `Info`, as soon as setup has begun; a release build attaches none. No
/// run attaches a second one.
pub proof fn law_one_logger_in_debug_none_in_release(
    debug: bool,
    version: Seq<char>,
    events: Seq<Event>,
)
    ensures
        run(initial(debug, version), events).0.debug == debug,
        thresholds(run(initial(debug, version), events).1) == if debug && !(run(
            initial(debug, version),
            events,
        ).0.setup is Pending) {
            seq![LevelFilter::Info]
        } else {
            Seq::<LevelFilter>::empty()
        },
    decreases events.len(),
{
    let start = initial(debug, version);
    if events.len() > 0 {
        let earlier = events.drop_last();
        law_one_logger_in_debug_none_in_release(debug, version, earlier);
        let (before, actions) = run(start, earlier);
        match transition(before, events.last()).1 {
            Some(a) => {
                assert(actions.push(a).drop_last() =~= actions);
            },
            None => {},
        }
    }
}

/// The records of a run are the startup record and then the version
/// record, both at `Info`, the second holding the version unchanged: none
/// before the startup record is due, the first alone while it is being
/// written, and both, in this order, from then on. Setup that failed has
/// written none.
pub proof fn law_records_in_order(debug: bool, version: Seq<char>, events: Seq<Event>)
    ensures
        run(initial(debug, version), events).0.version == version,
        records(run(initial(debug, version), events).1) == match run(
            initial(debug, version),
            events,
        ).0.setup {
            Setup::Pending | Setup::AttachingLogger | Setup::Failed => Seq::<
                (Level, Seq<char>),
            >::empty(),
            Setup::Announcing => seq![(Level::Info, startup_text())],
            Setup::ReportingVersion | Setup::Complete => seq![
                (Level::Info, startup_text()),
                (Level::Info, version_text(version)),
            ],
        },
    decreases events.len(),
{
    let start = initial(debug, version);
    if events.len() > 0 {
        let earlier = events.drop_last();
        law_records_in_order(debug, version, earlier);
        let (before, actions) = run(start, earlier);
        match transition(before, events.last()).1 {
            Some(a) => {
                assert(actions.push(a).drop_last() =~= actions);
            },
            None => {},
        }
    }
}

/// Nothing follows the end of the event loop: every later event leaves the
/// state as it is and is answered by no action.
pub proof fn law_exit_is_final(s: State, later: Seq<Event>)
    requires
        s.exit is Some,
    ensures
        run(s, later) == (s, Seq::<ActionView>::empty()),
    decreases later.len(),
{
    if later.len() > 0 {
        law_exit_is_final(s, later.drop_last());
    }
}

/// Where the logging plugin cannot be attached, setup reports failure, and
/// whatever is reported afterwards, setup never completes and the
/// application never runs.
pub proof fn law_plugin_failure_fails_setup(s: State, later: Seq<Event>)
    requires
        s.exit is None,
        s.setup is AttachingLogger,
    ensures
        transition(s, Event::PluginFailed).1 == Some(ActionView::FailSetup),
        phase_of(transition(s, Event::PluginFailed).0) == Phase::SetupFailed,
        run(transition(s, Event::PluginFailed).0, later).0.setup is Failed,
        phase_of(run(transition(s, Event::PluginFailed).0, later).0) != Phase::Running,
        !run(transition(s, Event::PluginFailed).0, later).1.contains(ActionView::CompleteSetup),
    decreases later.len(),
{
    let failed = transition(s, Event::PluginFailed).0;
    if later.len() > 0 {
        let earlier = later.drop_last();
        law_plugin_failure_fails_setup(s, earlier);
        let (before, actions) = run(failed, earlier);
        match transition(before, later.last()).1 {
            Some(a) => {
                assert forall|i: int| 0 <= i < actions.push(a).len() implies actions.push(a)[i]
                    != ActionView::CompleteSetup by {
                    if i < actions.len() {
                        assert(actions.contains(actions[i]));
                    }
                }
            },
            None => {},
        }
    }
}

/// An error of the event loop, whenever it comes, ends the process with
/// the fixed diagnostic, and nothing follows it.
pub proof fn law_run_loop_error_is_fatal(s: State, later: Seq<Event>)
    requires
        s.exit is None,
    ensures
        transition(s, Event::RunLoopFailed).1 == Some(abort()),
        phase_of(transition(s, Event::RunLoopFailed).0) == Phase::Crashed,
        run(transition(s, Event::RunLoopFailed).0, later) == (
            transition(s, Event::RunLoopFailed).0,
            Seq::<ActionView>::empty(),
        ),
{
    law_exit_is_final(transition(s, Event::RunLoopFailed).0, later);
}

} // verus!
