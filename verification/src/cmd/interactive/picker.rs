//! The `iota resume` session picker: the one-panel spec the surface shows and the `[project]` hint a scoped
//! listing's rows share.

use vstd::prelude::*;
use vstd::string::*;

use crate::app::{file_name, name_in};
use crate::provider::opt_view;
use crate::text::{decimal, decimal_of, own, strs};

verus! {

/// The title of the picker's only panel.
pub const PICK_SESSION_TITLE: &'static str = "Select a session to resume";

/// How many rows the picker shows.
pub const PICK_SESSION_HEIGHT: usize = 15;

/// One saved session, as a listing shows it.
pub struct SessionInfo {
    pub id: String,
    /// Its title; empty when it has none.
    pub title: String,
    /// The model it ran.
    pub model: String,
    /// The provider type it ran on.
    pub provider: String,
    /// How long ago it was updated, in words; `None` when that is not known.
    pub age: Option<String>,
    /// How many messages it holds.
    pub message_count: u64,
}

/// The row of a session: title, model, age and size, and the project when the listing has one.
pub open spec fn label_of(s: SessionInfo, project: Option<Seq<char>>) -> Seq<char> {
    let title = if s.title@.len() == 0 {
        "(untitled)"@
    } else {
        s.title@
    };
    let age = match s.age {
        Some(a) => a@,
        None => "unknown"@,
    };
    let row = title + " · "@ + s.model@ + " · "@ + age + " · "@ + decimal_of(
        s.message_count as nat,
    ) + " msgs"@;
    match project {
        Some(p) => row + " ["@ + p + "]"@,
        None => row,
    }
}

/// The row of a session.
pub fn session_label(s: &SessionInfo, project: &Option<String>) -> (r: String)
    ensures
        r@ == label_of(*s, opt_view(*project)),
{
    let mut row: String = if s.title.as_str().is_empty() {
        own("(untitled)")
    } else {
        s.title.clone()
    };
    row.append(" · ");
    row.append(s.model.as_str());
    row.append(" · ");
    match &s.age {
        Some(a) => {
            row.append(a.as_str());
        },
        None => {
            row.append("unknown");
        },
    }
    row.append(" · ");
    row.append(decimal(s.message_count).as_str());
    row.append(" msgs");
    if let Some(p) = project {
        row.append(" [");
        row.append(p.as_str());
        row.append("]");
    }
    row
}

/// One panel of a surface: a list.
pub struct Panel {
    pub title: String,
    pub items: Vec<String>,
    /// Whether the list can be searched.
    pub search: bool,
    /// How many rows it shows.
    pub height: usize,
}

/// What a surface shows.
pub struct TabbedSpec {
    pub panels: Vec<Panel>,
    /// Whether Enter moves to the next panel instead of committing.
    pub enter_advances: bool,
    /// How often the panels are read again; 0 is never.
    pub refresh_every_ms: u64,
}

/// The picker: ONE searchable list of session rows.
pub fn picker_spec(rows: &Vec<SessionInfo>, project: &Option<String>) -> (r: TabbedSpec)
    ensures
        r.panels@.len() == 1,
        !r.enter_advances,
        r.refresh_every_ms == 0,
        r.panels@[0].title@ == PICK_SESSION_TITLE@,
        r.panels@[0].search,
        r.panels@[0].height == PICK_SESSION_HEIGHT,
        strs(r.panels@[0].items@) == Seq::new(
            rows@.len(),
            |i: int| label_of(rows@[i], opt_view(*project)),
        ),
{
    let mut items: Vec<String> = Vec::new();
    for i in 0..rows.len()
        invariant
            items@.len() == i,
            forall|k: int|
                0 <= k < i ==> (#[trigger] items@[k])@ == label_of(rows@[k], opt_view(*project)),
    {
        items.push(session_label(&rows[i], project));
    }
    assert(strs(items@) =~= Seq::new(
        rows@.len(),
        |i: int| label_of(rows@[i], opt_view(*project)),
    ));
    let panel = Panel {
        title: own(PICK_SESSION_TITLE),
        items,
        search: true,
        height: PICK_SESSION_HEIGHT,
    };
    let mut panels: Vec<Panel> = Vec::new();
    panels.push(panel);
    TabbedSpec { panels, enter_advances: false, refresh_every_ms: 0 }
}

/// The hint every row of a SCOPED listing shares: the name of the project's root.
pub fn project_hint(scope: &Option<String>) -> (r: Option<String>)
    ensures
        opt_view(r) == match *scope {
            None => None,
            Some(root) => match name_in(root@) {
                Some(n) => Some(n),
                None => Some(root@),
            },
        },
{
    match scope {
        None => None,
        Some(root) => match file_name(root.as_str()) {
            Some(n) => Some(n),
            None => Some(root.clone()),
        },
    }
}

/// The id of the row the picker committed.
pub fn picked_id(rows: &Vec<SessionInfo>, chosen: Option<usize>) -> (r: Option<String>)
    ensures
        opt_view(r) == match chosen {
            Some(i) => if i < rows@.len() {
                Some(rows@[i as int].id@)
            } else {
                None
            },
            None => None,
        },
{
    match chosen {
        Some(i) => if i < rows.len() {
            Some(rows[i].id.clone())
        } else {
            None
        },
        None => None,
    }
}

} // verus!
