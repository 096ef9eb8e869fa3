//! The cmux terminal-multiplexer host: the conversation state becomes a sidebar status row plus a workspace
//! loading indicator, driven by batches of commands from a last-wins mailbox.

use vstd::prelude::*;

use crate::app::env::{var_of, Env, EnvView};
use crate::app::NAME;
use crate::host::State;
use crate::text::{own, strs};

verus! {

/// The host's name.
pub const CMUX_NAME: &'static str = "cmux";

/// The environment variable whose presence means "inside cmux".
pub const CMUX_ENV: &'static str = "CMUX_SURFACE_ID";

/// The program looked up on the path.
pub const CMUX_BIN: &'static str = "cmux";

/// How long one command may take, in milliseconds.
pub const CMUX_EXEC_TIMEOUT_MS: u64 = 2000;

/// How long closing waits for the final batch, in milliseconds.
pub const CMUX_CLOSE_WAIT_MS: u64 = 3000;

/// How long the background query may take, in milliseconds.
pub const CMUX_RPC_TIMEOUT_MS: u64 = 1000;

/// One mailbox item: the argument lists to run, in order.
pub type Batch = Vec<Vec<String>>;

/// The views of a batch.
pub open spec fn batch_view(b: Seq<Vec<String>>) -> Seq<Seq<Seq<char>>> {
    Seq::new(b.len(), |i: int| strs(b[i]@))
}

/// The command that switches the loading indicator.
pub open spec fn loading(on: bool) -> Seq<Seq<char>> {
    seq!["workspace"@, "loading"@, if on { "on"@ } else { "off"@ }, "--id"@, NAME@]
}

/// The command that sets the status row.
pub open spec fn status(label: Seq<char>, icon: Seq<char>, color: Option<Seq<char>>) -> Seq<
    Seq<char>,
> {
    let row = seq!["set-status"@, NAME@, label, "--icon"@, icon];
    match color {
        Some(c) => row.push("--color"@).push(c),
        None => row,
    }
}

/// The commands of a state.
pub open spec fn state_batch(s: State) -> Seq<Seq<Seq<char>>> {
    match s {
        State::Busy => seq![
            status("Running"@, "bolt.fill"@, Some("#4C8DFF"@)),
            loading(true),
        ],
        State::NeedsInput => seq![loading(false), status("Needs input"@, "bell.fill"@, None)],
        State::Error => seq![
            loading(false),
            status("Failed"@, "exclamationmark.triangle.fill"@, Some("#FF3B30"@)),
        ],
        State::Idle => seq![
            loading(false),
            status("Idle"@, "pause.circle.fill"@, Some("#8E8E93"@)),
        ],
    }
}

/// The commands of the exit clean-up.
pub open spec fn final_batch() -> Seq<Seq<Seq<char>>> {
    seq![loading(false), seq!["clear-status"@, NAME@]]
}

/// The command that switches the loading indicator.
fn loading_argv(on: bool) -> (r: Vec<String>)
    ensures
        strs(r@) == loading(on),
{
    let mut r: Vec<String> = Vec::new();
    r.push(own("workspace"));
    r.push(own("loading"));
    r.push(
        if on {
            own("on")
        } else {
            own("off")
        },
    );
    r.push(own("--id"));
    r.push(own(NAME));
    assert(strs(r@) =~= loading(on));
    r
}

/// The command that sets the status row.
fn status_argv(label: &str, icon: &str, color: Option<&str>) -> (r: Vec<String>)
    ensures
        strs(r@) == status(
            label@,
            icon@,
            match color {
                Some(c) => Some(c@),
                None => None,
            },
        ),
{
    let mut r: Vec<String> = Vec::new();
    r.push(own("set-status"));
    r.push(own(NAME));
    r.push(own(label));
    r.push(own("--icon"));
    r.push(own(icon));
    if let Some(c) = color {
        r.push(own("--color"));
        r.push(own(c));
    }
    assert(strs(r@) =~= status(
        label@,
        icon@,
        match color {
            Some(c) => Some(c@),
            None => None,
        },
    ));
    r
}

/// The commands of a state.
pub fn cmux_batch(s: State) -> (r: Batch)
    ensures
        batch_view(r@) == state_batch(s),
{
    let mut r: Batch = Vec::new();
    match s {
        State::Busy => {
            r.push(status_argv("Running", "bolt.fill", Some("#4C8DFF")));
            r.push(loading_argv(true));
        },
        State::NeedsInput => {
            r.push(loading_argv(false));
            r.push(status_argv("Needs input", "bell.fill", None));
        },
        State::Error => {
            r.push(loading_argv(false));
            r.push(status_argv("Failed", "exclamationmark.triangle.fill", Some("#FF3B30")));
        },
        State::Idle => {
            r.push(loading_argv(false));
            r.push(status_argv("Idle", "pause.circle.fill", Some("#8E8E93")));
        },
    }
    assert(batch_view(r@) =~= state_batch(s));
    r
}

/// The commands of the exit clean-up.
pub fn close_batch() -> (r: Batch)
    ensures
        batch_view(r@) == final_batch(),
{
    let mut r: Batch = Vec::new();
    r.push(loading_argv(false));
    let mut clear: Vec<String> = Vec::new();
    clear.push(own("clear-status"));
    clear.push(own(NAME));
    assert(strs(clear@) =~= seq!["clear-status"@, NAME@]);
    r.push(clear);
    assert(batch_view(r@) =~= final_batch());
    r
}

/// The cmux host: a mailbox that holds the newest batch only, so that a stale state can never land after a
/// newer one.
pub struct CmuxHost {
    /// The surface the chat runs in.
    pub surface: String,
    /// The program that takes the commands.
    pub program: String,
    /// The batch that waits.
    pub mailbox: Option<Batch>,
    /// Whether the host was closed.
    pub closed: bool,
}

/// What an optional batch holds.
pub open spec fn waiting(b: Option<Batch>) -> Option<Seq<Seq<Seq<char>>>> {
    match b {
        Some(v) => Some(batch_view(v@)),
        None => None,
    }
}

impl CmuxHost {
    /// A host for a surface.
    pub fn new(surface: String, program: String) -> (r: CmuxHost)
        ensures
            r.surface == surface,
            r.program == program,
            r.mailbox is None,
            !r.closed,
    {
        CmuxHost { surface, program, mailbox: None, closed: false }
    }

    /// The name of the host.
    pub fn name(&self) -> (r: &'static str)
        ensures
            r@ == CMUX_NAME@,
    {
        CMUX_NAME
    }

    /// Puts a batch into the mailbox, replacing one that waits; a closed mailbox takes none.
    pub fn post(&mut self, batch: Batch)
        ensures
            final(self).mailbox == if old(self).closed {
                old(self).mailbox
            } else {
                Some(batch)
            },
            final(self).closed == old(self).closed,
            final(self).surface == old(self).surface,
            final(self).program == old(self).program,
    {
        if !self.closed {
            self.mailbox = Some(batch);
        }
    }

    /// Takes the batch that waits.
    pub fn take(&mut self) -> (r: Option<Batch>)
        ensures
            r == old(self).mailbox,
            final(self).mailbox is None,
            final(self).closed == old(self).closed,
            final(self).surface == old(self).surface,
            final(self).program == old(self).program,
    {
        self.mailbox.take()
    }

    /// Shows a state.
    pub fn set_state(&mut self, s: State)
        ensures
            waiting(final(self).mailbox) == if old(self).closed {
                waiting(old(self).mailbox)
            } else {
                Some(state_batch(s))
            },
            final(self).closed == old(self).closed,
            final(self).surface == old(self).surface,
            final(self).program == old(self).program,
    {
        self.post(cmux_batch(s));
    }

    /// Clears the status row and the indicator, and closes the mailbox. A second time it does nothing.
    pub fn close(&mut self)
        ensures
            waiting(final(self).mailbox) == if old(self).closed {
                waiting(old(self).mailbox)
            } else {
                Some(final_batch())
            },
            final(self).closed,
            final(self).surface == old(self).surface,
            final(self).program == old(self).program,
    {
        self.post(close_batch());
        self.closed = true;
    }
}

/// The surface of an environment that is inside cmux.
pub open spec fn surface_in(env: EnvView) -> Option<Seq<char>> {
    var_of(env, CMUX_ENV@)
}

/// The cmux host of an environment: the surface variable is set, and the program was found at `program`.
pub fn detect_cmux(env: &Env, program: Option<String>) -> (r: Option<CmuxHost>)
    ensures
        match r {
            Some(h) => {
                &&& surface_in(env@) == Some(h.surface@)
                &&& program == Some(h.program)
                &&& h.mailbox is None
                &&& !h.closed
            },
            None => surface_in(env@) is None || program is None,
        },
{
    match env.var(CMUX_ENV) {
        None => None,
        Some(surface) => match program {
            Some(p) => Some(CmuxHost::new(surface, p)),
            None => None,
        },
    }
}

} // verus!
