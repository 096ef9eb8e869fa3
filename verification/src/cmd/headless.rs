//! A headless run from end to end: resume, replay, announce, connect, chat, save and close, in the one order in
//! which a bad session starts no server, a failed turn is not saved, and every server is closed.

use vstd::prelude::*;

use crate::cmd::error::{CliError, RunError};
use crate::headless::error::ChatError;

verus! {

/// What is to be done next.
pub enum HeadlessAction {
    /// Resolve the session and load it, say so when the agent it ran under is gone, and take its model.
    Resume,
    /// Replay what the session recorded onto the provider, with what there is to warn of.
    Replay,
    /// Say which session was resumed.
    Announce,
    /// Connect to the servers.
    Connect,
    /// Run the one turn.
    Chat,
    /// Append the turn to the session.
    Save,
    /// Close the servers.
    CloseServers,
    /// The run is over.
    Finished(Result<(), CliError>),
}

/// What an action gave.
pub enum HeadlessEvent {
    /// The session goes on with a model, or the run fails.
    Resumed(Result<(), CliError>),
    Replayed,
    Announced,
    Connected,
    Chatted(Result<(), ChatError>),
    /// The turn was saved, or it was not: that is a warning, never the status.
    Saved,
    Closed,
}

/// How far the run is.
pub enum Phase {
    Resuming,
    Replaying,
    Announcing,
    Connecting,
    Chatting,
    Saving,
    Closing {
        outcome: Result<(), CliError>,
    },
    Over,
}

/// The status of a turn: an interruption keeps its own.
pub open spec fn status_of(outcome: Result<(), ChatError>) -> Result<(), CliError> {
    match outcome {
        Ok(_) => Ok(()),
        Err(ChatError::Interrupted) => Err(CliError::Run(RunError::Interrupted)),
        Err(e) => Err(CliError::Run(RunError::Chat(e))),
    }
}

/// Whether an event is the answer that a phase waits for.
pub open spec fn awaits(phase: Phase, event: HeadlessEvent) -> bool {
    match phase {
        Phase::Resuming => event is Resumed,
        Phase::Replaying => event is Replayed,
        Phase::Announcing => event is Announced,
        Phase::Connecting => event is Connected,
        Phase::Chatting => event is Chatted,
        Phase::Saving => event is Saved,
        Phase::Closing { .. } => event is Closed,
        Phase::Over => false,
    }
}

/// The first phase and action.
pub open spec fn start(in_session: bool) -> (Phase, HeadlessAction) {
    if in_session {
        (Phase::Resuming, HeadlessAction::Resume)
    } else {
        (Phase::Connecting, HeadlessAction::Connect)
    }
}

/// The next phase and action.
pub open spec fn step(in_session: bool, phase: Phase, event: HeadlessEvent) -> (
    Phase,
    HeadlessAction,
)
    recommends
        awaits(phase, event),
{
    match (phase, event) {
        (Phase::Resuming, HeadlessEvent::Resumed(r)) => match r {
            Ok(_) => (Phase::Replaying, HeadlessAction::Replay),
            Err(e) => (Phase::Over, HeadlessAction::Finished(Err(e))),
        },
        (Phase::Replaying, HeadlessEvent::Replayed) => (
            Phase::Announcing,
            HeadlessAction::Announce,
        ),
        (Phase::Announcing, HeadlessEvent::Announced) => (
            Phase::Connecting,
            HeadlessAction::Connect,
        ),
        (Phase::Connecting, HeadlessEvent::Connected) => (Phase::Chatting, HeadlessAction::Chat),
        (Phase::Chatting, HeadlessEvent::Chatted(r)) => if r is Ok && in_session {
            (Phase::Saving, HeadlessAction::Save)
        } else {
            (Phase::Closing { outcome: status_of(r) }, HeadlessAction::CloseServers)
        },
        (Phase::Saving, HeadlessEvent::Saved) => (
            Phase::Closing { outcome: Ok(()) },
            HeadlessAction::CloseServers,
        ),
        (Phase::Closing { outcome }, HeadlessEvent::Closed) => (
            Phase::Over,
            HeadlessAction::Finished(outcome),
        ),
        _ => (phase, HeadlessAction::CloseServers),
    }
}

/// A headless run.
pub struct HeadlessRun {
    in_session: bool,
    phase: Phase,
}

impl HeadlessRun {
    /// Whether it goes on with a session.
    pub closed spec fn resumes(&self) -> bool {
        self.in_session
    }

    /// How far it is.
    pub closed spec fn at(&self) -> Phase {
        self.phase
    }

    /// Begins a run.
    pub fn begin(in_session: bool) -> (r: (HeadlessRun, HeadlessAction))
        ensures
            r.0.resumes() == in_session,
            (r.0.at(), r.1) == start(in_session),
    {
        if in_session {
            (HeadlessRun { in_session, phase: Phase::Resuming }, HeadlessAction::Resume)
        } else {
            (HeadlessRun { in_session, phase: Phase::Connecting }, HeadlessAction::Connect)
        }
    }

    /// Takes the answer to the last action and says what is next.
    pub fn run_headless(self, event: HeadlessEvent) -> (r: (HeadlessRun, HeadlessAction))
        requires
            awaits(self.at(), event),
        ensures
            r.0.resumes() == self.resumes(),
            (r.0.at(), r.1) == step(self.resumes(), self.at(), event),
    {
        let in_session: bool = self.in_session;
        let (phase, action) = match (self.phase, event) {
            (Phase::Resuming, HeadlessEvent::Resumed(r)) => match r {
                Ok(_) => (Phase::Replaying, HeadlessAction::Replay),
                Err(e) => (Phase::Over, HeadlessAction::Finished(Err(e))),
            },
            (Phase::Replaying, HeadlessEvent::Replayed) => (
                Phase::Announcing,
                HeadlessAction::Announce,
            ),
            (Phase::Announcing, HeadlessEvent::Announced) => (
                Phase::Connecting,
                HeadlessAction::Connect,
            ),
            (Phase::Connecting, HeadlessEvent::Connected) => (
                Phase::Chatting,
                HeadlessAction::Chat,
            ),
            (Phase::Chatting, HeadlessEvent::Chatted(r)) => match r {
                Ok(_) => if in_session {
                    (Phase::Saving, HeadlessAction::Save)
                } else {
                    (Phase::Closing { outcome: Ok(()) }, HeadlessAction::CloseServers)
                },
                Err(ChatError::Interrupted) => (
                    Phase::Closing { outcome: Err(CliError::Run(RunError::Interrupted)) },
                    HeadlessAction::CloseServers,
                ),
                Err(e) => (
                    Phase::Closing { outcome: Err(CliError::Run(RunError::Chat(e))) },
                    HeadlessAction::CloseServers,
                ),
            },
            (Phase::Saving, HeadlessEvent::Saved) => (
                Phase::Closing { outcome: Ok(()) },
                HeadlessAction::CloseServers,
            ),
            (Phase::Closing { outcome }, HeadlessEvent::Closed) => (
                Phase::Over,
                HeadlessAction::Finished(outcome),
            ),
            (phase, _) => (phase, HeadlessAction::CloseServers),
        };
        (HeadlessRun { in_session, phase }, action)
    }
}

// ---------------------------------------------------------------- laws

/// The phase that a run of answers leads to, and the actions on the way.
pub open spec fn done(in_session: bool, events: Seq<HeadlessEvent>) -> (Phase, Seq<HeadlessAction>)
    decreases events.len(),
{
    if events.len() == 0 {
        (start(in_session).0, seq![start(in_session).1])
    } else {
        let (phase, actions) = done(in_session, events.drop_last());
        let (next, action) = step(in_session, phase, events.last());
        (next, actions.push(action))
    }
}

/// Whether every event of a run answers the action before it.
pub open spec fn answered(in_session: bool, events: Seq<HeadlessEvent>) -> bool
    decreases events.len(),
{
    events.len() == 0 || (answered(in_session, events.drop_last()) && awaits(
        done(in_session, events.drop_last()).0,
        events.last(),
    ))
}

/// Whether some action connects.
pub open spec fn connects(actions: Seq<HeadlessAction>) -> bool {
    exists|i: int| 0 <= i < actions.len() && #[trigger] actions[i] is Connect
}

/// Whether a phase lies between the connection and the end.
spec fn is_live(phase: Phase) -> bool {
    phase is Connecting || phase is Chatting || phase is Saving || phase is Closing
}

/// A phase that is live has connected, and so has a run that closed its servers.
proof fn live_is_connected(in_session: bool, events: Seq<HeadlessEvent>)
    requires
        answered(in_session, events),
    ensures
        ({
            let (phase, actions) = done(in_session, events);
            &&& actions.len() == events.len() + 1
            &&& is_live(phase) ==> connects(actions)
            &&& phase is Resuming || phase is Replaying || phase is Announcing ==> !connects(
                actions,
            )
            &&& phase is Replaying == actions.last() is Replay
            &&& phase is Announcing == actions.last() is Announce
            &&& phase is Connecting == actions.last() is Connect
            &&& phase is Closing == actions.last() is CloseServers
            &&& phase is Chatting == actions.last() is Chat
            &&& phase is Over == actions.last() is Finished
            &&& phase is Over && connects(actions) ==> actions.len() >= 2 && actions[actions.len()
                - 2] is CloseServers
        }),
    decreases events.len(),
{
    let (phase, actions) = done(in_session, events);
    if events.len() == 0 {
        assert(actions[0] == start(in_session).1);
        if !in_session {
            assert(actions[0] is Connect);
        }
    } else {
        let init = events.drop_last();
        live_is_connected(in_session, init);
        let (p, before) = done(in_session, init);
        assert(actions =~= before.push(actions.last()));
        if connects(before) {
            let i = choose|i: int| 0 <= i < before.len() && #[trigger] before[i] is Connect;
            assert(actions[i] is Connect);
        }
        if actions.last() is Connect {
            assert(actions[actions.len() - 1] is Connect);
        }
        if connects(actions) && !connects(before) {
            let i = choose|i: int| 0 <= i < actions.len() && #[trigger] actions[i] is Connect;
            if i < before.len() {
                assert(before[i] is Connect);
            }
        }
    }
}

/// A run that connected closes its servers right before it is over; and one whose session could not be resumed
/// never connects.
pub proof fn servers_are_closed(in_session: bool, events: Seq<HeadlessEvent>)
    requires
        answered(in_session, events),
        done(in_session, events).1.last() is Finished,
    ensures
        ({
            let actions = done(in_session, events).1;
            connects(actions) ==> actions.len() >= 2 && actions[actions.len() - 2] is CloseServers
        }),
        in_session && events.len() == 1 ==> !connects(done(in_session, events).1),
{
    live_is_connected(in_session, events);
    if in_session && events.len() == 1 {
        assert(events.drop_last() =~= Seq::<HeadlessEvent>::empty());
        let actions = done(in_session, events).1;
        assert(done(in_session, events.drop_last()).1 =~= seq![HeadlessAction::Resume]);
        assert(actions[0] is Resume);
    }
}

/// A session is announced right after its settings were replayed, and a run in a session connects right after
/// that.
pub proof fn sessions_are_announced_last(in_session: bool, events: Seq<HeadlessEvent>)
    requires
        events.len() > 0,
        answered(in_session, events),
    ensures
        done(in_session, events).1.last() is Announce ==> done(
            in_session,
            events.drop_last(),
        ).1.last() is Replay,
        done(in_session, events).1.last() is Connect ==> done(
            in_session,
            events.drop_last(),
        ).1.last() is Announce,
{
    live_is_connected(in_session, events);
    live_is_connected(in_session, events.drop_last());
}

/// A turn is saved only in a session, and only right after it succeeded.
pub proof fn only_good_turns_are_saved(in_session: bool, events: Seq<HeadlessEvent>)
    requires
        events.len() > 0,
        answered(in_session, events),
        done(in_session, events).1.last() is Save,
    ensures
        in_session,
        events.last() matches HeadlessEvent::Chatted(r) && r is Ok,
        done(in_session, events.drop_last()).1.last() is Chat,
{
    live_is_connected(in_session, events.drop_last());
}

} // verus!
