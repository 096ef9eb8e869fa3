//! Opening the interface: the background probe, the picker, the wiring of the session, the title stack and the
//! event loop, in the one order in which nothing writes to a terminal that another step owns.

use vstd::prelude::*;

use crate::cmd::error::{CliError, RunError};

verus! {

/// What the picker's surface gave.
pub enum PickReply {
    /// The thread it ran on was lost, with the text of the failure.
    Lost(String),
    /// The terminal failed, with the text of the failure.
    Failed(String),
    /// The surface was left: cancelled, or with the cursor of each panel.
    Left {
        cancelled: bool,
        cursors: Vec<usize>,
    },
}

/// What is to be done next.
pub enum OpenAction {
    /// Ask for the background.
    Detect,
    /// Show the picker, and release the terminal again.
    Pick {
        dark: bool,
    },
    /// Wire the session: every step that can still fail.
    Wire {
        dark: bool,
        chosen: Option<usize>,
    },
    /// Push the title stack.
    PushTitle,
    /// Start the event loop.
    Start {
        dark: bool,
    },
    /// Pop the title stack.
    PopTitle,
    /// The interface is open over this background, or it is not.
    Finished(Result<bool, CliError>),
}

/// What an action gave.
pub enum OpenEvent {
    Detected(bool),
    Picked(PickReply),
    Wired(Result<(), CliError>),
    Pushed,
    Started(Result<(), String>),
    Popped,
}

/// How far the opening is.
pub enum Stage {
    Detecting,
    Picking {
        dark: bool,
    },
    Wiring {
        dark: bool,
    },
    Pushing {
        dark: bool,
    },
    Starting {
        dark: bool,
    },
    Popping {
        error: String,
    },
    Over,
}

/// The row that was committed: the cursor of the first panel, unless the surface was cancelled.
pub open spec fn committed(cancelled: bool, cursors: Seq<usize>) -> Option<usize> {
    if cancelled || cursors.len() == 0 {
        None
    } else {
        Some(cursors[0])
    }
}

/// Whether an event is the answer that a stage waits for.
pub open spec fn awaits(stage: Stage, event: OpenEvent) -> bool {
    match stage {
        Stage::Detecting => event is Detected,
        Stage::Picking { .. } => event is Picked,
        Stage::Wiring { .. } => event is Wired,
        Stage::Pushing { .. } => event is Pushed,
        Stage::Starting { .. } => event is Started,
        Stage::Popping { .. } => event is Popped,
        Stage::Over => false,
    }
}

/// The next stage and action.
pub open spec fn step(has_picker: bool, stage: Stage, event: OpenEvent) -> (Stage, OpenAction)
    recommends
        awaits(stage, event),
{
    match (stage, event) {
        (Stage::Detecting, OpenEvent::Detected(dark)) => if has_picker {
            (Stage::Picking { dark }, OpenAction::Pick { dark })
        } else {
            (Stage::Wiring { dark }, OpenAction::Wire { dark, chosen: None })
        },
        (Stage::Picking { dark }, OpenEvent::Picked(reply)) => match reply {
            PickReply::Lost(e) => (
                Stage::Over,
                OpenAction::Finished(Err(CliError::Run(RunError::Join(e)))),
            ),
            PickReply::Failed(e) => (
                Stage::Over,
                OpenAction::Finished(Err(CliError::Run(RunError::Io(e)))),
            ),
            PickReply::Left { cancelled, cursors } => (
                Stage::Wiring { dark },
                OpenAction::Wire { dark, chosen: committed(cancelled, cursors@) },
            ),
        },
        (Stage::Wiring { dark }, OpenEvent::Wired(r)) => match r {
            Ok(_) => (Stage::Pushing { dark }, OpenAction::PushTitle),
            Err(e) => (Stage::Over, OpenAction::Finished(Err(e))),
        },
        (Stage::Pushing { dark }, OpenEvent::Pushed) => (
            Stage::Starting { dark },
            OpenAction::Start { dark },
        ),
        (Stage::Starting { dark }, OpenEvent::Started(r)) => match r {
            Ok(_) => (Stage::Over, OpenAction::Finished(Ok(dark))),
            Err(error) => (Stage::Popping { error }, OpenAction::PopTitle),
        },
        (Stage::Popping { error }, OpenEvent::Popped) => (
            Stage::Over,
            OpenAction::Finished(Err(CliError::Run(RunError::Io(error)))),
        ),
        _ => (stage, OpenAction::Detect),
    }
}

/// The opening of the interface.
pub struct Opening {
    has_picker: bool,
    stage: Stage,
}

impl Opening {
    /// Whether there is a picker.
    pub closed spec fn picks(&self) -> bool {
        self.has_picker
    }

    /// How far the opening is.
    pub closed spec fn at(&self) -> Stage {
        self.stage
    }

    /// Begins an opening; the first action is to ask for the background.
    pub fn begin(has_picker: bool) -> (r: (Opening, OpenAction))
        ensures
            r.0.picks() == has_picker,
            r.0.at() is Detecting,
            r.1 is Detect,
    {
        (Opening { has_picker, stage: Stage::Detecting }, OpenAction::Detect)
    }

    /// Takes the answer to the last action and says what is next.
    pub fn open_ui(self, event: OpenEvent) -> (r: (Opening, OpenAction))
        requires
            awaits(self.at(), event),
        ensures
            r.0.picks() == self.picks(),
            (r.0.at(), r.1) == step(self.picks(), self.at(), event),
    {
        let has_picker: bool = self.has_picker;
        let (stage, action) = match (self.stage, event) {
            (Stage::Detecting, OpenEvent::Detected(dark)) => if has_picker {
                (Stage::Picking { dark }, OpenAction::Pick { dark })
            } else {
                (Stage::Wiring { dark }, OpenAction::Wire { dark, chosen: None })
            },
            (Stage::Picking { dark }, OpenEvent::Picked(reply)) => match reply {
                PickReply::Lost(e) => (
                    Stage::Over,
                    OpenAction::Finished(Err(CliError::Run(RunError::Join(e)))),
                ),
                PickReply::Failed(e) => (
                    Stage::Over,
                    OpenAction::Finished(Err(CliError::Run(RunError::Io(e)))),
                ),
                PickReply::Left { cancelled, cursors } => {
                    let chosen: Option<usize> = if cancelled || cursors.len() == 0 {
                        None
                    } else {
                        Some(cursors[0])
                    };
                    (Stage::Wiring { dark }, OpenAction::Wire { dark, chosen })
                },
            },
            (Stage::Wiring { dark }, OpenEvent::Wired(r)) => match r {
                Ok(_) => (Stage::Pushing { dark }, OpenAction::PushTitle),
                Err(e) => (Stage::Over, OpenAction::Finished(Err(e))),
            },
            (Stage::Pushing { dark }, OpenEvent::Pushed) => (
                Stage::Starting { dark },
                OpenAction::Start { dark },
            ),
            (Stage::Starting { dark }, OpenEvent::Started(r)) => match r {
                Ok(_) => (Stage::Over, OpenAction::Finished(Ok(dark))),
                Err(error) => (Stage::Popping { error }, OpenAction::PopTitle),
            },
            (Stage::Popping { error }, OpenEvent::Popped) => (
                Stage::Over,
                OpenAction::Finished(Err(CliError::Run(RunError::Io(error)))),
            ),
            (stage, _) => (stage, OpenAction::Detect),
        };
        (Opening { has_picker, stage }, action)
    }
}

// ---------------------------------------------------------------- laws

/// The stage that a run of answers leads to, and the actions on the way.
pub open spec fn opened(has_picker: bool, events: Seq<OpenEvent>) -> (Stage, Seq<OpenAction>)
    decreases events.len(),
{
    if events.len() == 0 {
        (Stage::Detecting, seq![OpenAction::Detect])
    } else {
        let (stage, actions) = opened(has_picker, events.drop_last());
        let (next, action) = step(has_picker, stage, events.last());
        (next, actions.push(action))
    }
}

/// Whether every event of a run answers the action before it.
pub open spec fn answered(has_picker: bool, events: Seq<OpenEvent>) -> bool
    decreases events.len(),
{
    events.len() == 0 || (answered(has_picker, events.drop_last()) && awaits(
        opened(has_picker, events.drop_last()).0,
        events.last(),
    ))
}

/// What has to stand right before an action.
pub open spec fn follows(has_picker: bool, before: OpenAction, action: OpenAction) -> bool {
    match action {
        OpenAction::Detect => false,
        OpenAction::Pick { .. } => has_picker && before is Detect,
        OpenAction::Wire { .. } => if has_picker {
            before is Pick
        } else {
            before is Detect
        },
        OpenAction::PushTitle => before is Wire,
        OpenAction::Start { .. } => before is PushTitle,
        OpenAction::PopTitle => before is Start,
        OpenAction::Finished(Ok(_)) => before is Start,
        OpenAction::Finished(Err(_)) => before is Pick || before is Wire || before is PopTitle,
    }
}

/// Which action a stage has just asked for.
spec fn asked_by(stage: Stage, action: OpenAction) -> bool {
    match stage {
        Stage::Detecting => action is Detect,
        Stage::Picking { .. } => action is Pick,
        Stage::Wiring { .. } => action is Wire,
        Stage::Pushing { .. } => action is PushTitle,
        Stage::Starting { .. } => action is Start,
        Stage::Popping { .. } => action is PopTitle,
        Stage::Over => action is Finished,
    }
}

/// The last action is the one that the stage waits for.
proof fn stage_is_asked(has_picker: bool, events: Seq<OpenEvent>)
    requires
        answered(has_picker, events),
    ensures
        opened(has_picker, events).1.len() == events.len() + 1,
        asked_by(opened(has_picker, events).0, opened(has_picker, events).1.last()),
        opened(has_picker, events).0 is Picking ==> has_picker,
    decreases events.len(),
{
    if events.len() > 0 {
        stage_is_asked(has_picker, events.drop_last());
    }
}

/// The order of an opening: the background is asked for first; a picker comes next, and has released the
/// terminal before the session is wired; the title stack is pushed only after the wiring succeeded, and the event
/// loop starts right after the push; a start that failed pops the stack again.
pub proof fn opening_keeps_its_order(has_picker: bool, events: Seq<OpenEvent>, i: int)
    requires
        answered(has_picker, events),
        0 < i < opened(has_picker, events).1.len(),
    ensures
        opened(has_picker, events).1[0] is Detect,
        follows(
            has_picker,
            opened(has_picker, events).1[i - 1],
            opened(has_picker, events).1[i],
        ),
    decreases events.len(),
{
    if events.len() > 0 {
        let init = events.drop_last();
        stage_is_asked(has_picker, init);
        stage_is_asked(has_picker, events);
        let before = opened(has_picker, init).1;
        if i < before.len() {
            opening_keeps_its_order(has_picker, init, i);
        } else {
            if init.len() > 0 {
                opening_keeps_its_order(has_picker, init, init.len() as int);
            }
        }
    }
}

/// How many pushes of the title stack are left without their pop.
pub open spec fn stacked(actions: Seq<OpenAction>) -> int
    decreases actions.len(),
{
    if actions.len() == 0 {
        0
    } else {
        stacked(actions.drop_last()) + match actions.last() {
            OpenAction::PushTitle => 1int,
            OpenAction::PopTitle => -1int,
            _ => 0int,
        }
    }
}

/// The title stack holds one push when the interface is open, and none when it is not: a run that never got an
/// interface leaves the title as it was.
pub proof fn title_stack_is_balanced(has_picker: bool, events: Seq<OpenEvent>)
    requires
        answered(has_picker, events),
    ensures
        match opened(has_picker, events).1.last() {
            OpenAction::PushTitle | OpenAction::Start { .. } => stacked(
                opened(has_picker, events).1,
            ) == 1,
            OpenAction::Finished(Ok(_)) => stacked(opened(has_picker, events).1) == 1,
            _ => stacked(opened(has_picker, events).1) == 0,
        },
    decreases events.len(),
{
    let actions = opened(has_picker, events).1;
    if events.len() > 0 {
        let init = events.drop_last();
        title_stack_is_balanced(has_picker, init);
        stage_is_asked(has_picker, init);
        assert(actions.drop_last() =~= opened(has_picker, init).1);
    } else {
        assert(actions.drop_last() =~= Seq::<OpenAction>::empty());
        assert(stacked(actions.drop_last()) == 0);
    }
}

} // verus!
