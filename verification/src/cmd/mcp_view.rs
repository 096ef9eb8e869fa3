//! What the files declare, and what `iota mcp list|get|remove|login|logout` make of it.

use vstd::prelude::*;
use vstd::string::*;

use crate::cmd::args::{McpListCmd, McpScope};
use crate::cmd::error::{CliError, RunError, SetupError};
use crate::cmd::mcp_cmd::{file_of_scope, scope_file, transport, transport_of, Tiers};
use crate::cmd::io::Streams;
use crate::cmd::table::{column_width, pad, padded, widest, widest_is};
use crate::config::edit::FileServers;
use crate::config::server::{AuthMode, McpServerConfig, ServerView};
use crate::json::{
    buildable, entry_views, json_pretty_of, object_node, pretty, Json, JsonNode,
};
use crate::map::{map_of, pairs_of, views, Duplicate, StrMap};
use crate::provider::opt_view;
use crate::text::{decimal, decimal_of, first_at, own, push_text, same, split_once, strs};

verus! {

// ---------------------------------------------------------------- what is declared

/// One declared server with the file that declares it.
pub struct Declared {
    pub name: String,
    pub file: String,
    pub entry: McpServerConfig,
}

/// What a [`Declared`] says.
pub struct DeclaredView {
    pub name: Seq<char>,
    pub file: Seq<char>,
    pub entry: ServerView,
}

impl View for Declared {
    type V = DeclaredView;

    open spec fn view(&self) -> DeclaredView {
        DeclaredView { name: self.name@, file: self.file@, entry: self.entry@ }
    }
}

impl Duplicate for Declared {
    fn duplicate(&self) -> (r: Declared) {
        Declared {
            name: self.name.clone(),
            file: self.file.clone(),
            entry: self.entry.duplicate(),
        }
    }
}

/// The servers of one file, each with the file.
pub open spec fn declared_in(file: Seq<char>, servers: Map<Seq<char>, ServerView>) -> Map<
    Seq<char>,
    DeclaredView,
> {
    servers.map_entries(|name: Seq<char>, entry: ServerView| DeclaredView { name, file, entry })
}

/// The servers that several files declare: of two entries with one name, that of the later file.
pub open spec fn declared_by(files: Seq<(String, FileServers)>) -> Map<Seq<char>, DeclaredView>
    decreases files.len(),
{
    if files.len() == 0 {
        Map::empty()
    } else {
        declared_by(files.drop_last()).union_prefer_right(
            declared_in(files.last().0@, files.last().1.servers@),
        )
    }
}

/// The values of a map, in key order.
pub open spec fn values_of<T>(m: Map<Seq<char>, T>) -> Seq<T> {
    Seq::new(pairs_of(m).len(), |i: int| pairs_of(m)[i].1)
}

/// One more entry of a file joins those before it.
proof fn one_more_entry(
    all: Map<Seq<char>, DeclaredView>,
    file: Seq<char>,
    servers: Map<Seq<char>, ServerView>,
    name: Seq<char>,
    entry: ServerView,
)
    ensures
        all.union_prefer_right(declared_in(file, servers.insert(name, entry)))
            == all.union_prefer_right(declared_in(file, servers)).insert(
            name,
            DeclaredView { name, file, entry },
        ),
{
    assert(all.union_prefer_right(declared_in(file, servers.insert(name, entry)))
        =~= all.union_prefer_right(declared_in(file, servers)).insert(
        name,
        DeclaredView { name, file, entry },
    ));
}

/// The servers the files declare, in name order; a later file replaces an earlier entry of the same name.
pub fn declared_servers(files: &Vec<(String, FileServers)>) -> (r: Vec<Declared>)
    ensures
        views(r@) == values_of(declared_by(files@)),
{
    let mut by_name: StrMap<Declared> = StrMap::new();
    assert(files@.take(0) =~= Seq::<(String, FileServers)>::empty());
    for i in 0..files.len()
        invariant
            by_name@ == declared_by(files@.take(i as int)),
    {
        let ghost before = by_name@;
        let file: &String = &files[i].0;
        let servers: &StrMap<McpServerConfig> = &files[i].1.servers;
        let n: usize = servers.len();
        let ghost pairs = servers.pairs();
        assert(pairs.take(0) =~= Seq::<(Seq<char>, ServerView)>::empty());
        assert(before.union_prefer_right(
            declared_in(file@, Map::<Seq<char>, ServerView>::empty()),
        ) =~= before);
        for k in 0..n
            invariant
                n == pairs.len(),
                pairs == servers.pairs(),
                by_name@ == before.union_prefer_right(
                    declared_in(file@, map_of(pairs.take(k as int))),
                ),
        {
            let name: &String = servers.key_at(k);
            let entry: &McpServerConfig = servers.value_at(k);
            proof {
                assert(pairs.take(k + 1).drop_last() =~= pairs.take(k as int));
                assert(pairs.take(k + 1).last() == (name@, entry@));
                one_more_entry(before, file@, map_of(pairs.take(k as int)), name@, entry@);
            }
            by_name.insert(
                name.clone(),
                Declared { name: name.clone(), file: file.clone(), entry: entry.duplicate() },
            );
        }
        proof {
            assert(pairs.take(n as int) =~= pairs);
            assert(files@.take(i + 1).drop_last() =~= files@.take(i as int));
            assert(files@.take(i + 1).last() == files@[i as int]);
        }
    }
    assert(files@.take(files@.len() as int) =~= files@);
    let mut out: Vec<Declared> = Vec::new();
    let n: usize = by_name.len();
    let ghost pairs = by_name.pairs();
    for i in 0..n
        invariant
            n == pairs.len(),
            pairs == by_name.pairs(),
            out@.len() == i,
            forall|k: int| 0 <= k < i ==> (#[trigger] out@[k])@ == pairs[k].1,
    {
        out.push(by_name.value_at(i).duplicate());
    }
    assert(views(out@) =~= values_of(declared_by(files@)));
    out
}

/// A name that a later file declares comes from it, whatever the files before it say.
pub proof fn later_file_wins(files: Seq<(String, FileServers)>, name: Seq<char>)
    requires
        files.len() > 0,
    ensures
        files.last().1.servers@.contains_key(name) ==> declared_by(files)[name] == (DeclaredView {
            name,
            file: files.last().0@,
            entry: files.last().1.servers@[name],
        }),
        !files.last().1.servers@.contains_key(name) ==> declared_by(files).index_opt(name)
            == declared_by(files.drop_last()).index_opt(name),
{
}

/// The first declared server of a name, from `i` on.
pub open spec fn server_at(declared: Seq<DeclaredView>, name: Seq<char>, i: int) -> Option<int>
    decreases declared.len() - i,
{
    if i < 0 || i >= declared.len() {
        None
    } else if declared[i].name == name {
        Some(i)
    } else {
        server_at(declared, name, i + 1)
    }
}

/// The first declared server of a name.
pub fn find_server(declared: &Vec<Declared>, name: &str) -> (r: Option<usize>)
    ensures
        match server_at(views(declared@), name@, 0) {
            Some(k) => r matches Some(i) && i == k && i < declared@.len(),
            None => r is None,
        },
{
    for i in 0..declared.len()
        invariant
            server_at(views(declared@), name@, 0) == server_at(views(declared@), name@, i as int),
    {
        if same(declared[i].name.as_str(), name) {
            return Some(i);
        }
    }
    None
}

/// The names of declared servers.
pub open spec fn names_of(declared: Seq<DeclaredView>) -> Seq<Seq<char>> {
    Seq::new(declared.len(), |i: int| declared[i].name)
}

/// Whether an error says that there is no such server, with the names there are.
pub open spec fn is_unknown(e: SetupError, name: Seq<char>, declared: Seq<DeclaredView>) -> bool {
    e matches SetupError::McpUnknown { name: n, servers } && n@ == name && strs(servers@)
        == names_of(declared)
}

/// The error of an unknown server, with the names there are.
pub fn unknown(name: &str, declared: &Vec<Declared>) -> (r: SetupError)
    ensures
        is_unknown(r, name@, views(declared@)),
{
    let mut servers: Vec<String> = Vec::new();
    for i in 0..declared.len()
        invariant
            servers@.len() == i,
            forall|k: int| 0 <= k < i ==> (#[trigger] servers@[k])@ == declared@[k].name@,
    {
        servers.push(declared[i].name.clone());
    }
    assert(strs(servers@) =~= names_of(views(declared@)));
    SetupError::McpUnknown { name: own(name), servers }
}

// ---------------------------------------------------------------- list

/// How a connection to a server went.
pub struct ProbeStatus {
    pub connected: bool,
    /// The tools the server offers.
    pub tools: Vec<String>,
    /// How many they are.
    pub tool_count: u64,
    /// What went wrong.
    pub error: Option<String>,
}

/// The auth column: static headers, OAuth with where its tokens stand, or nothing.
pub open spec fn auth_text(s: ServerView, state: Seq<char>) -> Seq<char> {
    match s.auth {
        AuthMode::Oauth => "oauth: "@ + state,
        AuthMode::Unset => auth_word(s),
    }
}

/// How a server is signed in to, in a word.
pub open spec fn auth_word(s: ServerView) -> Seq<char> {
    match s.auth {
        AuthMode::Oauth => "oauth"@,
        AuthMode::Unset => if pairs_of(s.headers).len() > 0 {
            "header"@
        } else {
            "none"@
        },
    }
}

/// How a server is signed in to, in a word.
fn auth_name(entry: &McpServerConfig) -> (r: &'static str)
    ensures
        r@ == auth_word(entry@),
{
    match entry.auth {
        AuthMode::Oauth => "oauth",
        AuthMode::Unset => if entry.headers.len() > 0 {
            "header"
        } else {
            "none"
        },
    }
}

/// The auth column.
pub fn auth_label(entry: &McpServerConfig, state: &str) -> (r: String)
    ensures
        r@ == auth_text(entry@, state@),
{
    match entry.auth {
        AuthMode::Oauth => {
            let mut r: String = own("oauth: ");
            r.append(state);
            r
        },
        AuthMode::Unset => own(auth_name(entry)),
    }
}

/// The first line of a text.
pub open spec fn first_line(s: Seq<char>) -> Seq<char> {
    s.take(first_at(s, '\n'))
}

/// `connected (N tools)` or `failed: <first line of the error>`.
pub open spec fn probe_text(p: ProbeStatus) -> Seq<char> {
    match p.error {
        None => "connected ("@ + decimal_of(p.tool_count as nat) + " tools)"@,
        Some(e) => "failed: "@ + first_line(e@),
    }
}

/// `connected (N tools)` or `failed: <first line of the error>`.
pub fn probe_label(p: &ProbeStatus) -> (r: String)
    ensures
        r@ == probe_text(*p),
{
    match &p.error {
        None => {
            let mut r: String = own("connected (");
            r.append(decimal(p.tool_count).as_str());
            r.append(" tools)");
            r
        },
        Some(e) => {
            let mut r: String = own("failed: ");
            match split_once(e.as_str(), '\n') {
                Some((head, _)) => {
                    r.append(head.as_str());
                },
                None => {
                    proof {
                        crate::text::first_at_bounds(e@, '\n');
                        assert(e@.take(e@.len() as int) =~= e@);
                    }
                    r.append(e.as_str());
                },
            }
            r
        },
    }
}

/// The probe that goes with the server at `i`.
pub open spec fn probe_at(probes: Option<Vec<ProbeStatus>>, i: int) -> Option<ProbeStatus> {
    match probes {
        Some(v) => if i < v@.len() {
            Some(v@[i])
        } else {
            None
        },
        None => None,
    }
}

/// One line of the listing.
pub open spec fn list_line(
    d: DeclaredView,
    state: Seq<char>,
    width: int,
    file_width: int,
    probe: Option<ProbeStatus>,
) -> Seq<char> {
    let line = "  "@ + padded(d.name, width) + "  "@ + padded(transport_of(d.entry), 5) + "  "@
        + padded(d.file, file_width) + "  [auth: "@ + auth_text(d.entry, state) + "]"@;
    match probe {
        Some(p) => line + "  "@ + probe_text(p),
        None => line,
    }
}

/// The first `n` lines of the listing, after its heading.
pub open spec fn list_lines(
    declared: Seq<DeclaredView>,
    states: Seq<Seq<char>>,
    width: int,
    file_width: int,
    probes: Option<Vec<ProbeStatus>>,
    n: int,
) -> Seq<char>
    decreases n,
{
    if n <= 0 {
        "MCP servers:\n"@
    } else {
        list_lines(declared, states, width, file_width, probes, n - 1) + list_line(
            declared[n - 1],
            states[n - 1],
            width,
            file_width,
            probe_at(probes, n - 1),
        ) + "\n"@
    }
}

/// The listing as a table.
pub open spec fn list_text(
    declared: Seq<DeclaredView>,
    states: Seq<Seq<char>>,
    width: int,
    file_width: int,
    probes: Option<Vec<ProbeStatus>>,
) -> Seq<char> {
    if declared.len() == 0 {
        "No MCP servers configured. Add one with `iota mcp add <name> -- <command>` or `iota mcp add <name> --url <url>`.\n"@
    } else {
        list_lines(declared, states, width, file_width, probes, declared.len() as int)
    }
}

/// Appends one line of the listing.
fn add_list_line(
    out: &mut String,
    d: &Declared,
    state: &str,
    width: usize,
    file_width: usize,
    probe: Option<&ProbeStatus>,
)
    ensures
        final(out)@ == old(out)@ + list_line(
            d@,
            state@,
            width as int,
            file_width as int,
            match probe {
                Some(p) => Some(*p),
                None => None,
            },
        ) + "\n"@,
{
    let mut line: String = own("  ");
    pad(&mut line, d.name.as_str(), width);
    line.append("  ");
    pad(&mut line, transport(&d.entry), 5);
    line.append("  ");
    pad(&mut line, d.file.as_str(), file_width);
    line.append("  [auth: ");
    line.append(auth_label(&d.entry, state).as_str());
    line.append("]");
    if let Some(p) = probe {
        line.append("  ");
        line.append(probe_label(p).as_str());
    }
    out.append(line.as_str());
    out.append("\n");
}

/// The listing as a table. `states` says where the tokens of each server stand; the widths are those of the
/// columns of names and of files.
pub fn list_table(
    declared: &Vec<Declared>,
    states: &Vec<String>,
    width: usize,
    file_width: usize,
    probes: &Option<Vec<ProbeStatus>>,
) -> (r: String)
    requires
        states@.len() == declared@.len(),
    ensures
        r@ == list_text(
            views(declared@),
            strs(states@),
            width as int,
            file_width as int,
            *probes,
        ),
{
    if declared.len() == 0 {
        return own(
            "No MCP servers configured. Add one with `iota mcp add <name> -- <command>` or `iota mcp add <name> --url <url>`.\n",
        );
    }
    let mut out: String = own("MCP servers:\n");
    for i in 0..declared.len()
        invariant
            states@.len() == declared@.len(),
            out@ == list_lines(
                views(declared@),
                strs(states@),
                width as int,
                file_width as int,
                *probes,
                i as int,
            ),
    {
        let probe: Option<&ProbeStatus> = match probes {
            Some(v) => if i < v.len() {
                Some(&v[i])
            } else {
                None
            },
            None => None,
        };
        assert(views(declared@)[i as int] == declared@[i as int]@);
        assert(strs(states@)[i as int] == states@[i as int]@);
        add_list_line(&mut out, &declared[i], states[i].as_str(), width, file_width, probe);
    }
    out
}

/// A list of texts, as JSON.
pub open spec fn text_list(v: Seq<Seq<char>>) -> JsonNode {
    JsonNode::List(Seq::new(v.len(), |i: int| JsonNode::Text(v[i])))
}

/// An object of texts, as JSON.
pub open spec fn text_object(m: Map<Seq<char>, Seq<char>>) -> JsonNode {
    object_node(
        Seq::new(
            pairs_of(m).len(),
            |i: int| (pairs_of(m)[i].0, JsonNode::Text(pairs_of(m)[i].1)),
        ),
    )
}

/// A text or nothing, as JSON.
pub open spec fn text_or_null(t: Option<Seq<char>>) -> JsonNode {
    match t {
        Some(s) => JsonNode::Text(s),
        None => JsonNode::Null,
    }
}

/// A probe, as JSON.
pub open spec fn probe_node(p: ProbeStatus) -> JsonNode {
    object_node(
        seq![
            (
                "state"@,
                JsonNode::Text(
                    if p.connected {
                        "connected"@
                    } else {
                        "failed"@
                    },
                ),
            ),
            ("tools"@, text_list(strs(p.tools@))),
            ("error"@, text_or_null(opt_view(p.error))),
        ],
    )
}

/// The fields of a row of the listing.
pub open spec fn row_fields(d: DeclaredView, state: Seq<char>) -> Seq<(Seq<char>, JsonNode)> {
    seq![
        ("name"@, JsonNode::Text(d.name)),
        ("transport"@, JsonNode::Text(transport_of(d.entry))),
        ("file"@, JsonNode::Text(d.file)),
        ("command"@, JsonNode::Text(d.entry.command)),
        ("args"@, text_list(d.entry.args)),
        ("url"@, JsonNode::Text(d.entry.url)),
        ("env"@, text_object(d.entry.env)),
        ("headers"@, text_object(d.entry.headers)),
        ("defer"@, text_or_null(d.entry.defer)),
        ("client_id"@, JsonNode::Text(d.entry.client_id)),
        ("client_secret"@, JsonNode::Text(d.entry.client_secret)),
        ("auth"@, JsonNode::Text(auth_word(d.entry))),
        (
            "login"@,
            match d.entry.auth {
                AuthMode::Oauth => JsonNode::Text(state),
                AuthMode::Unset => JsonNode::Null,
            },
        ),
    ]
}

/// One row of the listing, as JSON.
pub open spec fn row_node(
    d: DeclaredView,
    state: Seq<char>,
    probe: Option<ProbeStatus>,
) -> JsonNode {
    object_node(
        match probe {
            Some(p) => row_fields(d, state).push(("probe"@, probe_node(p))),
            None => row_fields(d, state),
        },
    )
}

/// The whole listing, as JSON.
pub open spec fn rows_node(
    declared: Seq<DeclaredView>,
    states: Seq<Seq<char>>,
    probes: Option<Vec<ProbeStatus>>,
) -> JsonNode {
    JsonNode::List(
        Seq::new(
            declared.len(),
            |i: int| row_node(declared[i], states[i], probe_at(probes, i)),
        ),
    )
}

/// A list of texts.
fn texts_json(v: &Vec<String>) -> (r: Json)
    ensures
        r@ == text_list(strs(v@)),
        buildable(r),
{
    let mut out: Vec<Json> = Vec::new();
    for i in 0..v.len()
        invariant
            out@.len() == i,
            forall|k: int|
                0 <= k < i ==> buildable(#[trigger] out@[k]) && out@[k]@ == JsonNode::Text(v@[k]@),
    {
        out.push(Json::Text(v[i].clone()));
    }
    let r = Json::List(out);
    assert(r@->List_0 =~= text_list(strs(v@))->List_0);
    r
}

/// An object of texts.
fn map_json(m: &StrMap<String>) -> (r: Json)
    ensures
        r@ == text_object(m@),
        buildable(r),
{
    let mut out: Vec<(String, Json)> = Vec::new();
    let n: usize = m.len();
    let ghost pairs = m.pairs();
    for i in 0..n
        invariant
            n == pairs.len(),
            pairs == m.pairs(),
            out@.len() == i,
            forall|k: int|
                0 <= k < i ==> (#[trigger] out@[k]).0@ == pairs[k].0 && out@[k].1@
                    == JsonNode::Text(pairs[k].1) && buildable(out@[k].1),
    {
        out.push((m.key_at(i).clone(), Json::Text(m.value_at(i).clone())));
    }
    assert(entry_views(out@) =~= Seq::new(
        pairs_of(m@).len(),
        |i: int| (pairs_of(m@)[i].0, JsonNode::Text(pairs_of(m@)[i].1)),
    ));
    Json::Object(out)
}

/// A text or nothing.
fn option_json(t: &Option<String>) -> (r: Json)
    ensures
        r@ == text_or_null(opt_view(*t)),
        buildable(r),
{
    match t {
        Some(s) => Json::Text(s.clone()),
        None => Json::Null,
    }
}

/// One more field of an object that is being put together.
fn put(out: &mut Vec<(String, Json)>, key: &str, value: Json)
    requires
        buildable(value),
        forall|i: int| 0 <= i < old(out)@.len() ==> buildable((#[trigger] old(out)@[i]).1),
    ensures
        entry_views(final(out)@) == entry_views(old(out)@).push((key@, value@)),
        forall|i: int| 0 <= i < final(out)@.len() ==> buildable((#[trigger] final(out)@[i]).1),
{
    out.push((own(key), value));
    assert(entry_views(out@) =~= entry_views(old(out)@).push((key@, value@)));
}

/// A probe.
fn probe_json(p: &ProbeStatus) -> (r: Json)
    ensures
        r@ == probe_node(*p),
        buildable(r),
{
    let mut out: Vec<(String, Json)> = Vec::new();
    assert(entry_views(out@) =~= Seq::<(Seq<char>, JsonNode)>::empty());
    put(
        &mut out,
        "state",
        Json::Text(
            own(
                if p.connected {
                    "connected"
                } else {
                    "failed"
                },
            ),
        ),
    );
    put(&mut out, "tools", texts_json(&p.tools));
    put(&mut out, "error", option_json(&p.error));
    assert(entry_views(out@) =~= seq![
        (
            "state"@,
            JsonNode::Text(
                if p.connected {
                    "connected"@
                } else {
                    "failed"@
                },
            ),
        ),
        ("tools"@, text_list(strs(p.tools@))),
        ("error"@, text_or_null(opt_view(p.error))),
    ]);
    Json::Object(out)
}

/// One row of the listing.
fn row_json(d: &Declared, state: &str, probe: Option<&ProbeStatus>) -> (r: Json)
    ensures
        r@ == row_node(
            d@,
            state@,
            match probe {
                Some(p) => Some(*p),
                None => None,
            },
        ),
        buildable(r),
{
    let e: &McpServerConfig = &d.entry;
    let mut out: Vec<(String, Json)> = Vec::new();
    assert(entry_views(out@) =~= Seq::<(Seq<char>, JsonNode)>::empty());
    put(&mut out, "name", Json::Text(d.name.clone()));
    put(&mut out, "transport", Json::Text(own(transport(e))));
    put(&mut out, "file", Json::Text(d.file.clone()));
    put(&mut out, "command", Json::Text(e.command.clone()));
    put(&mut out, "args", texts_json(&e.args));
    put(&mut out, "url", Json::Text(e.url.clone()));
    put(&mut out, "env", map_json(&e.env));
    put(&mut out, "headers", map_json(&e.headers));
    put(&mut out, "defer", option_json(&e.defer));
    put(&mut out, "client_id", Json::Text(e.client_id.clone()));
    put(&mut out, "client_secret", Json::Text(e.client_secret.clone()));
    put(&mut out, "auth", Json::Text(own(auth_name(e))));
    let login: Json = match e.auth {
        AuthMode::Oauth => Json::Text(own(state)),
        AuthMode::Unset => Json::Null,
    };
    put(&mut out, "login", login);
    assert(entry_views(out@) =~= row_fields(d@, state@));
    if let Some(p) = probe {
        put(&mut out, "probe", probe_json(p));
    }
    Json::Object(out)
}

/// The listing as JSON.
pub fn list_json(
    declared: &Vec<Declared>,
    states: &Vec<String>,
    probes: &Option<Vec<ProbeStatus>>,
) -> (r: Result<String, CliError>)
    requires
        states@.len() == declared@.len(),
    ensures
        match json_pretty_of(rows_node(views(declared@), strs(states@), *probes)) {
            Ok(text) => r matches Ok(t) && t@ == text + "\n"@,
            Err(e) => r matches Err(CliError::Run(RunError::Io(m))) && m@ == e,
        },
{
    let mut rows: Vec<Json> = Vec::new();
    for i in 0..declared.len()
        invariant
            states@.len() == declared@.len(),
            rows@.len() == i,
            forall|k: int|
                0 <= k < i ==> buildable(#[trigger] rows@[k]) && rows@[k]@ == row_node(
                    declared@[k]@,
                    states@[k]@,
                    probe_at(*probes, k),
                ),
    {
        let probe: Option<&ProbeStatus> = match probes {
            Some(v) => if i < v.len() {
                Some(&v[i])
            } else {
                None
            },
            None => None,
        };
        rows.push(row_json(&declared[i], states[i].as_str(), probe));
    }
    let all = Json::List(rows);
    assert(all@->List_0 =~= rows_node(views(declared@), strs(states@), *probes)->List_0);
    match pretty(&all) {
        Ok(text) => {
            let mut t: String = text;
            t.append("\n");
            Ok(t)
        },
        Err(e) => Err(CliError::Run(RunError::Io(e))),
    }
}

/// Lists what the files declare: as one JSON array where that is asked for, and else as a table. `found` is what
/// probing each server gave, in the order of the listing, and is shown only where a probe is asked for;
/// `states` says where the tokens of each stand; the widths are those of the names and of the files.
pub fn run_list(
    list: &McpListCmd,
    files: &Vec<(String, FileServers)>,
    states: &Vec<String>,
    found: Vec<ProbeStatus>,
    name_widths: &Vec<usize>,
    file_widths: &Vec<usize>,
    io: &mut Streams,
) -> (r: Result<(), CliError>)
    requires
        states@.len() == values_of(declared_by(files@)).len(),
    ensures
        final(io).stderr == old(io).stderr,
        ({
            let declared = values_of(declared_by(files@));
            let probes = if list.probe {
                Some(found)
            } else {
                None
            };
            if list.json {
                match json_pretty_of(rows_node(declared, strs(states@), probes)) {
                    Ok(text) => r is Ok && final(io).stdout@ == old(io).stdout@ + (text + "\n"@),
                    Err(e) => (r matches Err(CliError::Run(RunError::Io(m))) && m@ == e)
                        && final(io).stdout == old(io).stdout,
                }
            } else {
                r is Ok && final(io).stdout@ == old(io).stdout@ + list_text(
                    declared,
                    strs(states@),
                    widest(name_widths@),
                    widest(file_widths@),
                    probes,
                )
            }
        }),
{
    let declared: Vec<Declared> = declared_servers(files);
    assert(views(declared@).len() == declared@.len());
    let probes: Option<Vec<ProbeStatus>> = if list.probe {
        Some(found)
    } else {
        None
    };
    if list.json {
        return match list_json(&declared, states, &probes) {
            Ok(t) => {
                io.stdout.append(t.as_str());
                Ok(())
            },
            Err(e) => Err(e),
        };
    }
    let w: usize = column_width(name_widths);
    let fw: usize = column_width(file_widths);
    let text: String = list_table(&declared, states, w, fw, &probes);
    io.stdout.append(text.as_str());
    proof {
        widest_is(w as int, name_widths@);
        widest_is(fw as int, file_widths@);
    }
    Ok(())
}

// ---------------------------------------------------------------- get

/// Where the tokens of a server stand.
pub struct Login {
    /// Whether it is signed in to, in words.
    pub state: String,
    /// The file that keeps the tokens.
    pub path: Option<String>,
}

/// `  label: value` on a line of its own, when there is a value.
pub open spec fn field_line(label: Seq<char>, value: Seq<char>) -> Seq<char> {
    if value.len() == 0 {
        Seq::empty()
    } else {
        "  "@ + label + ": "@ + value + "\n"@
    }
}

/// The first `n` arguments, each on a line.
pub open spec fn arg_lines(args: Seq<Seq<char>>, n: int) -> Seq<char>
    decreases n,
{
    if n <= 0 {
        "  args:\n"@
    } else {
        arg_lines(args, n - 1) + "    - "@ + args[n - 1] + "\n"@
    }
}

/// The first `n` entries, each on a line, after their heading.
pub open spec fn pair_lines(
    label: Seq<char>,
    pairs: Seq<(Seq<char>, Seq<char>)>,
    n: int,
) -> Seq<char>
    decreases n,
{
    if n <= 0 {
        "  "@ + label + ":\n"@
    } else {
        pair_lines(label, pairs, n - 1) + "    "@ + pairs[n - 1].0 + ": "@ + pairs[n - 1].1
            + "\n"@
    }
}

/// The entries of a map, when there are any.
pub open spec fn map_lines(label: Seq<char>, m: Map<Seq<char>, Seq<char>>) -> Seq<char> {
    if pairs_of(m).len() == 0 {
        Seq::empty()
    } else {
        pair_lines(label, pairs_of(m), pairs_of(m).len() as int)
    }
}

/// How a server is signed in to, with where its tokens stand and the file that keeps them.
pub open spec fn auth_line(s: ServerView, login: Login) -> Seq<char> {
    match s.auth {
        AuthMode::Oauth => "  auth: oauth ("@ + login.state@ + match login.path {
            Some(p) => "; "@ + p@,
            None => Seq::empty(),
        } + ")\n"@,
        AuthMode::Unset => "  auth: "@ + auth_word(s) + "\n"@,
    }
}

/// The parts of what is shown of one server, in order.
pub open spec fn get_parts(d: DeclaredView, login: Login) -> Seq<Seq<char>> {
    let e = d.entry;
    seq![
        d.name + ":\n"@,
        "  file: "@ + d.file + "\n"@,
        "  transport: "@ + transport_of(e) + "\n"@,
        field_line("command"@, e.command),
        if e.args.len() == 0 {
            Seq::empty()
        } else {
            arg_lines(e.args, e.args.len() as int)
        },
        field_line("url"@, e.url),
        map_lines("env"@, e.env),
        map_lines("headers"@, e.headers),
        match e.defer {
            Some(t) => "  defer: "@ + t + "\n"@,
            None => Seq::empty(),
        },
        field_line("client_id"@, e.client_id),
        field_line("client_secret"@, e.client_secret),
        auth_line(e, login),
    ]
}

/// Texts one after the other.
pub open spec fn concatenated(parts: Seq<Seq<char>>) -> Seq<char>
    decreases parts.len(),
{
    if parts.len() == 0 {
        Seq::empty()
    } else {
        concatenated(parts.drop_last()) + parts.last()
    }
}

/// Appends one more part.
proof fn one_more_part(parts: Seq<Seq<char>>, p: Seq<char>)
    ensures
        concatenated(parts.push(p)) == concatenated(parts) + p,
{
    assert(parts.push(p).drop_last() =~= parts);
}

/// `  label: value` on a line of its own, when there is a value.
fn field_text(label: &str, value: &str) -> (r: String)
    ensures
        r@ == field_line(label@, value@),
{
    if value.is_empty() {
        let r: String = String::new();
        assert(r@ =~= Seq::empty());
        return r;
    }
    let mut r: String = own("  ");
    r.append(label);
    r.append(": ");
    r.append(value);
    r.append("\n");
    r
}

/// The arguments, each on a line, when there are any.
fn args_text(args: &Vec<String>) -> (r: String)
    ensures
        r@ == if args@.len() == 0 {
            Seq::empty()
        } else {
            arg_lines(strs(args@), args@.len() as int)
        },
{
    if args.len() == 0 {
        let r: String = String::new();
        assert(r@ =~= Seq::empty());
        return r;
    }
    let mut r: String = own("  args:\n");
    for i in 0..args.len()
        invariant
            r@ == arg_lines(strs(args@), i as int),
    {
        r.append("    - ");
        r.append(args[i].as_str());
        r.append("\n");
    }
    r
}

/// The entries of a map, when there are any.
fn map_text(label: &str, m: &StrMap<String>) -> (r: String)
    ensures
        r@ == map_lines(label@, m@),
{
    let n: usize = m.len();
    let ghost pairs = m.pairs();
    if n == 0 {
        let r: String = String::new();
        assert(r@ =~= Seq::empty());
        return r;
    }
    let mut r: String = own("  ");
    r.append(label);
    r.append(":\n");
    for i in 0..n
        invariant
            n == pairs.len(),
            pairs == m.pairs(),
            r@ == pair_lines(label@, pairs, i as int),
    {
        r.append("    ");
        r.append(m.key_at(i).as_str());
        r.append(": ");
        r.append(m.value_at(i).as_str());
        r.append("\n");
    }
    r
}

/// How a server is signed in to.
fn auth_line_text(e: &McpServerConfig, login: &Login) -> (r: String)
    ensures
        r@ == auth_line(e@, *login),
{
    match e.auth {
        AuthMode::Oauth => {
            let mut tail: String = String::new();
            if let Some(p) = &login.path {
                tail.append("; ");
                tail.append(p.as_str());
                assert(tail@ =~= "; "@ + p@);
            } else {
                assert(tail@ =~= Seq::empty());
            }
            let mut r: String = own("  auth: oauth (");
            r.append(login.state.as_str());
            r.append(tail.as_str());
            r.append(")\n");
            r
        },
        AuthMode::Unset => {
            let mut r: String = own("  auth: ");
            r.append(auth_name(e));
            r.append("\n");
            r
        },
    }
}

/// Three texts, one after the other.
fn three(a: &str, b: &str, c: &str) -> (r: String)
    ensures
        r@ == a@ + b@ + c@,
{
    let mut r: String = own(a);
    r.append(b);
    r.append(c);
    r
}

/// What is shown of one server: the entry as declared, the file it comes from, its auth.
pub fn get_text(d: &Declared, login: &Login) -> (r: String)
    ensures
        r@ == concatenated(get_parts(d@, *login)),
{
    let e: &McpServerConfig = &d.entry;
    let mut head: String = own(d.name.as_str());
    head.append(":\n");
    let defer: String = match &e.defer {
        Some(t) => three("  defer: ", t.as_str(), "\n"),
        None => {
            let r: String = String::new();
            assert(r@ =~= Seq::empty());
            r
        },
    };
    let mut parts: Vec<String> = Vec::new();
    parts.push(head);
    parts.push(three("  file: ", d.file.as_str(), "\n"));
    parts.push(three("  transport: ", transport(e), "\n"));
    parts.push(field_text("command", e.command.as_str()));
    parts.push(args_text(&e.args));
    parts.push(field_text("url", e.url.as_str()));
    parts.push(map_text("env", &e.env));
    parts.push(map_text("headers", &e.headers));
    parts.push(defer);
    parts.push(field_text("client_id", e.client_id.as_str()));
    parts.push(field_text("client_secret", e.client_secret.as_str()));
    parts.push(auth_line_text(e, login));
    assert(strs(parts@) =~= get_parts(d@, *login));
    let ghost all = strs(parts@);
    let mut r: String = String::new();
    assert(all.take(0) =~= Seq::<Seq<char>>::empty());
    assert(r@ =~= concatenated(all.take(0)));
    for i in 0..parts.len()
        invariant
            all == strs(parts@),
            r@ == concatenated(all.take(i as int)),
    {
        proof {
            one_more_part(all.take(i as int), all[i as int]);
            assert(all.take(i as int).push(all[i as int]) =~= all.take(i + 1));
        }
        r.append(parts[i].as_str());
    }
    assert(all.take(all.len() as int) =~= all);
    r
}

/// What is shown of the server of a name; an unknown one is refused with the names there are.
pub fn get_server(name: &str, declared: &Vec<Declared>, login: &Login) -> (r: Result<
    String,
    SetupError,
>)
    ensures
        match server_at(views(declared@), name@, 0) {
            Some(i) => r matches Ok(t) && t@ == concatenated(
                get_parts(views(declared@)[i], *login),
            ),
            None => r matches Err(e) && is_unknown(e, name@, views(declared@)),
        },
{
    match find_server(declared, name) {
        Some(i) => Ok(get_text(&declared[i], login)),
        None => Err(unknown(name, declared)),
    }
}

// ---------------------------------------------------------------- login / logout

/// Why a server cannot be signed in to.
pub enum OauthRefusal {
    /// There is no such server.
    Unknown(SetupError),
    /// The server of that name does not use OAuth.
    NotOauth(String),
}

/// The declared OAuth server of a name.
pub fn oauth_server(name: &str, declared: &Vec<Declared>) -> (r: Result<usize, OauthRefusal>)
    ensures
        match server_at(views(declared@), name@, 0) {
            None => r matches Err(OauthRefusal::Unknown(e)) && is_unknown(
                e,
                name@,
                views(declared@),
            ),
            Some(k) => if views(declared@)[k].entry.auth == AuthMode::Oauth {
                r matches Ok(i) && i == k
            } else {
                r matches Err(OauthRefusal::NotOauth(n)) && n@ == name@
            },
        },
{
    match find_server(declared, name) {
        None => Err(OauthRefusal::Unknown(unknown(name, declared))),
        Some(i) => if declared[i].entry.auth == AuthMode::Oauth {
            Ok(i)
        } else {
            Err(OauthRefusal::NotOauth(own(name)))
        },
    }
}

/// What is said of a server that does not sign in with OAuth.
pub const NOT_OAUTH: &'static str = "does not sign in with OAuth";

/// The error of a server that cannot be signed in to.
pub fn refused_login(e: OauthRefusal) -> (r: SetupError)
    ensures
        match e {
            OauthRefusal::Unknown(x) => r == x,
            OauthRefusal::NotOauth(n) => r matches SetupError::McpNoLogin { name, reason } && name
                == n && reason@ == NOT_OAUTH@,
        },
{
    match e {
        OauthRefusal::Unknown(x) => x,
        OauthRefusal::NotOauth(name) => SetupError::McpNoLogin { name, reason: NOT_OAUTH },
    }
}

/// A text, unless it is empty.
pub open spec fn unless_empty(s: Seq<char>) -> Option<Seq<char>> {
    if s.len() == 0 {
        None
    } else {
        Some(s)
    }
}

/// A text, unless it is empty.
fn nonempty(s: &String) -> (r: Option<String>)
    ensures
        opt_view(r) == unless_empty(s@),
{
    if s.as_str().is_empty() {
        None
    } else {
        Some(s.clone())
    }
}

/// The client a login uses: the one the flag names beats the entry's, and the entry's secret goes with the
/// entry's id alone.
pub fn login_client(flag: &Option<String>, entry_id: &String, entry_secret: &String) -> (r: (
    Option<String>,
    Option<String>,
))
    ensures
        opt_view(r.0) == match *flag {
            Some(id) => Some(id@),
            None => unless_empty(entry_id@),
        },
        opt_view(r.1) == if *flag is Some && flag->0@ != entry_id@ {
            None
        } else {
            unless_empty(entry_secret@)
        },
{
    match flag {
        Some(id) => if same(id.as_str(), entry_id.as_str()) {
            (Some(id.clone()), nonempty(entry_secret))
        } else {
            (Some(id.clone()), None)
        },
        None => (nonempty(entry_id), nonempty(entry_secret)),
    }
}

/// What is said while the browser is waited for; with `paste` the redirect URL may be typed in.
pub fn waiting_line(paste: bool) -> (r: String)
    ensures
        r@ == if paste {
            "Waiting for the browser to come back (5m), or paste the redirect URL here:"@
        } else {
            "Waiting for the browser to come back (5m)…"@
        },
{
    if paste {
        own("Waiting for the browser to come back (5m), or paste the redirect URL here:")
    } else {
        own("Waiting for the browser to come back (5m)…")
    }
}

/// What a logout prints: whether there were tokens to forget, and where they were.
pub fn logout_text(name: &str, had: bool, path: &str) -> (r: String)
    ensures
        r@ == if had {
            "Logged out of "@ + name@ + " (forgot "@ + path@ + ")\n"@
        } else {
            "Not logged in to "@ + name@ + " (nothing to forget)\n"@
        },
{
    if had {
        let mut r: String = own("Logged out of ");
        r.append(name);
        r.append(" (forgot ");
        r.append(path);
        r.append(")\n");
        r
    } else {
        three("Not logged in to ", name, " (nothing to forget)\n")
    }
}

// ---------------------------------------------------------------- remove

/// Which of the first `n` files declare a server.
pub open spec fn holders(files: Seq<(String, FileServers)>, name: Seq<char>, n: int) -> Seq<int>
    decreases n,
{
    if n <= 0 {
        Seq::empty()
    } else if files[n - 1].1.servers@.contains_key(name) {
        holders(files, name, n - 1).push(n - 1)
    } else {
        holders(files, name, n - 1)
    }
}

/// The paths of some of the files.
pub open spec fn paths_at(files: Seq<(String, FileServers)>, at: Seq<int>) -> Seq<Seq<char>> {
    Seq::new(at.len(), |i: int| files[at[i]].0@)
}

/// The one file a server is removed from: the one that declares it. When several do, the scope has to say
/// which.
pub fn choose_holder(
    name: &str,
    scope: Option<McpScope>,
    files: &Vec<(String, FileServers)>,
    t: &Tiers,
) -> (r: Result<usize, SetupError>)
    ensures
        ({
            let at = holders(files@, name@, files@.len() as int);
            if at.len() == 1 {
                r matches Ok(i) && i == at[0] && i < files@.len()
                    && files@[i as int].1.servers@.contains_key(name@)
            } else if at.len() > 1 {
                r matches Err(SetupError::McpAmbiguous { name: n, files: f }) && n@ == name@
                    && strs(f@) == paths_at(files@, at)
            } else {
                match scope {
                    None => r matches Err(e) && is_unknown(
                        e,
                        name@,
                        values_of(declared_by(files@)),
                    ),
                    Some(s) => match file_of_scope(s, *t) {
                        Some(path) => r matches Err(
                            SetupError::McpNotInScope { name: n, file },
                        ) && n@ == name@ && file@ == path,
                        None => match s {
                            McpScope::User => r matches Err(e) && e is NoHome,
                            McpScope::Project => r matches Err(SetupError::Cwd(m)) && m@
                                == t.cwd_error@,
                        },
                    },
                }
            }
        }),
{
    let mut paths: Vec<String> = Vec::new();
    let mut last: usize = 0;
    for i in 0..files.len()
        invariant
            strs(paths@) == paths_at(files@, holders(files@, name@, i as int)),
            strs(paths@).len() == paths@.len(),
            paths@.len() > 0 ==> last < i && holders(files@, name@, i as int).last() == last
                && files@[last as int].1.servers@.contains_key(name@),
    {
        if files[i].1.servers.contains_key(name) {
            push_text(&mut paths, files[i].0.clone());
            last = i;
            proof {
                let at = holders(files@, name@, i as int);
                assert(paths_at(files@, at).push(files@[i as int].0@) =~= paths_at(
                    files@,
                    at.push(i as int),
                ));
            }
        }
    }
    let ghost at = holders(files@, name@, files@.len() as int);
    assert(strs(paths@).len() == at.len());
    if paths.len() == 1 {
        return Ok(last);
    }
    if paths.len() > 1 {
        return Err(SetupError::McpAmbiguous { name: own(name), files: paths });
    }
    match scope {
        None => Err(unknown(name, &declared_servers(files))),
        Some(s) => match scope_file(s, t) {
            Ok(file) => Err(SetupError::McpNotInScope { name: own(name), file }),
            Err(e) => Err(e),
        },
    }
}

/// What a removal prints.
pub fn removed_text(name: &str, file: &str) -> (r: String)
    ensures
        r@ == "Removed "@ + name@ + " from "@ + file@ + "\n"@,
{
    let mut r: String = own("Removed ");
    r.append(name);
    r.append(" from ");
    r.append(file);
    r.append("\n");
    r
}

} // verus!
