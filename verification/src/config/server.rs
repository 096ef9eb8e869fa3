//! `mcp_servers.<name>` — one MCP server as a config file declares it.

use vstd::prelude::*;

use crate::map::{map_of, pairs_of, rising, Duplicate, StrMap};
use crate::provider::opt_view;
use crate::text::{copy_strs, own, strs, text_lt_total};
use crate::config::strict::{
    accepted, document_fault, entries_fault, fields_fault, server_keys, sign_in_keys, top_fault, top_keys,
};
use crate::yaml::{is_section, is_word, one_line, plain, unbroken, readable, single_lined, Node, Yaml, READ_DEPTH};

verus! {

/// How a server wants to be signed in to.
#[derive(Clone, Copy, Debug, PartialEq, Eq, Structural)]
pub enum AuthMode {
    /// The headers as written, and nothing else.
    Unset,
    /// An OAuth login.
    Oauth,
}

/// One `mcp_servers.<name>` entry.
pub struct McpServerConfig {
    /// stdio transport: the command to spawn.
    pub command: String,
    /// stdio transport: command arguments.
    pub args: Vec<String>,
    /// streamable-HTTP transport: the endpoint URL.
    pub url: String,
    /// Extra environment for the child process.
    pub env: StrMap<String>,
    /// Extra HTTP headers.
    pub headers: StrMap<String>,
    /// `defer:` — the server's one-line tool summary; `Some` opts into deferred loading, `None` advertises
    /// the tools fully.
    pub defer: Option<String>,
    /// `auth:` — `oauth` for a server that is signed in to; absent = the headers as written.
    pub auth: AuthMode,
    /// `client_id:` — an OAuth client registered out of band.
    pub client_id: String,
    /// `client_secret:` — the secret paired with `client_id`, as a reference to a variable.
    pub client_secret: String,
}

/// What an [`McpServerConfig`] says.
pub struct ServerView {
    pub command: Seq<char>,
    pub args: Seq<Seq<char>>,
    pub url: Seq<char>,
    pub env: Map<Seq<char>, Seq<char>>,
    pub headers: Map<Seq<char>, Seq<char>>,
    pub defer: Option<Seq<char>>,
    pub auth: AuthMode,
    pub client_id: Seq<char>,
    pub client_secret: Seq<char>,
}

impl View for McpServerConfig {
    type V = ServerView;

    open spec fn view(&self) -> ServerView {
        ServerView {
            command: self.command@,
            args: strs(self.args@),
            url: self.url@,
            env: self.env@,
            headers: self.headers@,
            defer: opt_view(self.defer),
            auth: self.auth,
            client_id: self.client_id@,
            client_secret: self.client_secret@,
        }
    }
}

/// The entry that says nothing.
pub open spec fn blank_server() -> ServerView {
    ServerView {
        command: Seq::empty(),
        args: Seq::empty(),
        url: Seq::empty(),
        env: Map::empty(),
        headers: Map::empty(),
        defer: None,
        auth: AuthMode::Unset,
        client_id: Seq::empty(),
        client_secret: Seq::empty(),
    }
}

impl Default for McpServerConfig {
    /// The entry that says nothing.
    fn default() -> (r: McpServerConfig)
        ensures
            r@ == blank_server(),
    {
        let r = McpServerConfig {
            command: String::new(),
            args: Vec::new(),
            url: String::new(),
            env: StrMap::new(),
            headers: StrMap::new(),
            defer: None,
            auth: AuthMode::Unset,
            client_id: String::new(),
            client_secret: String::new(),
        };
        assert(r@.args =~= Seq::<Seq<char>>::empty());
        r
    }
}

impl Duplicate for McpServerConfig {
    fn duplicate(&self) -> (r: McpServerConfig) {
        McpServerConfig {
            command: self.command.clone(),
            args: copy_strs(&self.args),
            url: self.url.clone(),
            env: self.env.duplicate(),
            headers: self.headers.duplicate(),
            defer: self.defer.clone(),
            auth: self.auth,
            client_id: self.client_id.clone(),
            client_secret: self.client_secret.clone(),
        }
    }
}

/// One entry of a mapping, left out unless `present`.
pub open spec fn field(present: bool, key: Seq<char>, value: Node) -> Seq<(Node, Node)> {
    if present {
        seq![(Node::Text(key), value)]
    } else {
        Seq::empty()
    }
}

/// A list of texts as a tree.
pub open spec fn list_node(texts: Seq<Seq<char>>) -> Node {
    Node::List(Seq::new(texts.len(), |i: int| Node::Text(texts[i])))
}

/// A map of texts as a tree, in key order.
pub open spec fn texts_node(pairs: Seq<(Seq<char>, Seq<char>)>) -> Node {
    Node::Mapping(Seq::new(pairs.len(), |i: int| (Node::Text(pairs[i].0), Node::Text(pairs[i].1))))
}

/// The fields of an entry that say something, in the order they are written.
#[verifier::opaque]
pub open spec fn server_fields(s: ServerView) -> Seq<(Node, Node)> {
    field(s.command.len() > 0, "command"@, Node::Text(s.command)) + field(
        s.args.len() > 0,
        "args"@,
        list_node(s.args),
    ) + field(s.url.len() > 0, "url"@, Node::Text(s.url)) + field(
        pairs_of(s.env).len() > 0,
        "env"@,
        texts_node(pairs_of(s.env)),
    ) + field(pairs_of(s.headers).len() > 0, "headers"@, texts_node(pairs_of(s.headers))) + field(
        s.defer is Some,
        "defer"@,
        Node::Text(s.defer->0),
    ) + field(s.auth == AuthMode::Oauth, "auth"@, Node::Text("oauth"@)) + field(
        s.client_id.len() > 0,
        "client_id"@,
        Node::Text(s.client_id),
    ) + field(s.client_secret.len() > 0, "client_secret"@, Node::Text(s.client_secret))
}

/// The `mcp_servers:` block of a set of servers, in name order: every field at its default is left out of its
/// entry.
pub open spec fn block_node(servers: Map<Seq<char>, ServerView>) -> Node {
    let pairs = pairs_of(servers);
    Node::Mapping(
        seq![
            (
                Node::Text("mcp_servers"@),
                Node::Mapping(
                    Seq::new(
                        pairs.len(),
                        |i: int|
                            (Node::Text(pairs[i].0), Node::Mapping(server_fields(pairs[i].1))),
                    ),
                ),
            ),
        ],
    )
}

/// A list of texts as a tree.
fn list_tree(texts: &Vec<String>) -> (y: Yaml)
    ensures
        y@ == list_node(strs(texts@)),
        plain(y@),
{
    let mut out: Vec<Yaml> = Vec::new();
    for i in 0..texts.len()
        invariant
            out@.len() == i,
            forall|k: int| 0 <= k < i ==> out@[k]@ == Node::Text(texts@[k]@),
    {
        out.push(Yaml::Text(texts[i].clone()));
    }
    let y = Yaml::List(out);
    proof {
        reveal_with_fuel(plain, 2);
    }
    assert(y@->List_0 =~= list_node(strs(texts@))->List_0);
    y
}

/// A map of texts as a tree, in key order.
fn texts_tree(m: &StrMap<String>) -> (y: Yaml)
    ensures
        y@ == texts_node(m.pairs()),
        plain(y@),
{
    let n: usize = m.len();
    let mut out: Vec<(Yaml, Yaml)> = Vec::new();
    for i in 0..n
        invariant
            n == m.pairs().len(),
            out@.len() == i,
            forall|k: int|
                0 <= k < i ==> out@[k].0@ == Node::Text(m.pairs()[k].0) && out@[k].1@ == Node::Text(
                    m.pairs()[k].1,
                ),
    {
        out.push((Yaml::Text(m.key_at(i).clone()), Yaml::Text(m.value_at(i).clone())));
    }
    let y = Yaml::Mapping(out);
    proof {
        reveal_with_fuel(plain, 2);
        let s = texts_node(m.pairs())->Mapping_0;
        assert(y@->Mapping_0 =~= s);
        assert forall|i: int, j: int| 0 <= i < j < s.len() implies (#[trigger] s[i]).0 != (
        #[trigger] s[j]).0 by {
            assert(rising(m.pairs()));
            text_lt_total(m.pairs()[i].0, m.pairs()[j].0);
        }
    }
    y
}

/// The entries of a mapping, as trees.
pub open spec fn entries_view(v: Seq<(Yaml, Yaml)>) -> Seq<(Node, Node)> {
    Seq::new(v.len(), |i: int| (v[i].0@, v[i].1@))
}

/// The keys of the fields of an entry, in the order they are written.
spec fn field_keys() -> Seq<Seq<char>> {
    seq![
        "command"@,
        "args"@,
        "url"@,
        "env"@,
        "headers"@,
        "defer"@,
        "auth"@,
        "client_id"@,
        "client_secret"@,
    ]
}

/// Entries whose keys are taken, in order, from the first `n` field keys.
#[verifier::opaque]
spec fn keyed(s: Seq<(Node, Node)>, n: int) -> bool {
    &&& forall|i: int| 0 <= i < s.len() ==> plain((#[trigger] s[i]).0) && plain(s[i].1)
    &&& forall|i: int|
        0 <= i < s.len() ==> exists|k: int|
            0 <= k < n && (#[trigger] s[i]).0 == Node::Text(#[trigger] field_keys()[k])
    &&& forall|i: int, j: int| 0 <= i < j < s.len() ==> (#[trigger] s[i]).0 != (#[trigger] s[j]).0
}

/// No two fields share a key.
proof fn field_keys_differ(i: int, j: int)
    requires
        0 <= i < j < 9,
    ensures
        field_keys()[i] != field_keys()[j],
{
    reveal_strlit("command");
    reveal_strlit("args");
    reveal_strlit("url");
    reveal_strlit("env");
    reveal_strlit("headers");
    reveal_strlit("defer");
    reveal_strlit("auth");
    reveal_strlit("client_id");
    reveal_strlit("client_secret");
    let k = field_keys();
    assert(k[0].len() == 7 && k[1].len() == 4 && k[2].len() == 3 && k[3].len() == 3 && k[4].len()
        == 7 && k[5].len() == 5 && k[6].len() == 4 && k[7].len() == 9 && k[8].len() == 13);
    assert(k[0][0] != k[4][0]);
    assert(k[1][1] != k[6][1]);
    assert(k[2][0] != k[3][0]);
}

/// One more field keeps the entries keyed.
proof fn keyed_step(s: Seq<(Node, Node)>, n: int, present: bool, value: Node)
    requires
        0 <= n < 9,
        keyed(s, n),
        present ==> plain(value),
    ensures
        keyed(s + field(present, field_keys()[n], value), n + 1),
{
    reveal(keyed);
    let key = field_keys()[n];
    let t = s + field(present, key, value);
    assert forall|i: int| 0 <= i < t.len() implies plain((#[trigger] t[i]).0) && plain(t[i].1) by {
        if i < s.len() {
            assert(t[i] == s[i]);
        }
    }
    assert forall|i: int| 0 <= i < t.len() implies exists|k: int|
        0 <= k < n + 1 && (#[trigger] t[i]).0 == Node::Text(#[trigger] field_keys()[k]) by {
        if i < s.len() {
            assert(t[i] == s[i]);
            let k = choose|k: int|
                0 <= k < n && s[i].0 == Node::Text(#[trigger] field_keys()[k]);
            assert(t[i].0 == Node::Text(field_keys()[k]));
        } else {
            assert(t[i].0 == Node::Text(field_keys()[n]));
        }
    }
    assert forall|i: int, j: int| 0 <= i < j < t.len() implies (#[trigger] t[i]).0 != (
    #[trigger] t[j]).0 by {
        assert(t[i] == s[i]);
        if j < s.len() {
            assert(t[j] == s[j]);
        } else {
            let k = choose|k: int|
                0 <= k < n && s[i].0 == Node::Text(#[trigger] field_keys()[k]);
            field_keys_differ(k, n);
        }
    }
}

/// Appends the field at `n` unless it is left out.
fn add_field(out: &mut Vec<(Yaml, Yaml)>, present: bool, key: &str, value: Yaml, Ghost(n): Ghost<int>)
    requires
        0 <= n < 9,
        key@ == field_keys()[n],
        keyed(entries_view(old(out)@), n),
        plain(value@),
    ensures
        entries_view(final(out)@) == entries_view(old(out)@) + field(present, key@, value@),
        keyed(entries_view(final(out)@), n + 1),
{
    proof {
        keyed_step(entries_view(out@), n, present, value@);
    }
    if present {
        out.push((Yaml::Text(own(key)), value));
    }
    assert(entries_view(out@) =~= entries_view(old(out)@) + field(present, key@, value@));
}

/// The fields of an entry that say something, as a tree.
fn server_tree(s: &McpServerConfig) -> (y: Yaml)
    ensures
        y@ == Node::Mapping(server_fields(s@)),
        plain(y@),
{
    let mut out: Vec<(Yaml, Yaml)> = Vec::new();
    proof {
        assert(entries_view(out@) =~= Seq::<(Node, Node)>::empty());
        assert(keyed(entries_view(out@), 0)) by {
            reveal(keyed);
        }
    }
    let has_command = !s.command.as_str().is_empty();
    add_field(&mut out, has_command, "command", Yaml::Text(s.command.clone()), Ghost(0));
    assert(entries_view(out@) =~= field(s.command@.len() > 0, "command"@, Node::Text(s.command@)));
    assert(s@.args.len() == s.args@.len());
    add_field(&mut out, s.args.len() > 0, "args", list_tree(&s.args), Ghost(1));
    let has_url = !s.url.as_str().is_empty();
    add_field(&mut out, has_url, "url", Yaml::Text(s.url.clone()), Ghost(2));
    add_field(&mut out, s.env.len() > 0, "env", texts_tree(&s.env), Ghost(3));
    add_field(&mut out, s.headers.len() > 0, "headers", texts_tree(&s.headers), Ghost(4));
    let ghost before = entries_view(out@);
    match &s.defer {
        Some(d) => add_field(&mut out, true, "defer", Yaml::Text(d.clone()), Ghost(5)),
        None => add_field(&mut out, false, "defer", Yaml::Null, Ghost(5)),
    }
    assert(entries_view(out@) == before + field(
        s.defer is Some,
        "defer"@,
        Node::Text(opt_view(s.defer)->0),
    ));
    let oauth = s.auth == AuthMode::Oauth;
    add_field(&mut out, oauth, "auth", Yaml::Text(own("oauth")), Ghost(6));
    let has_id = !s.client_id.as_str().is_empty();
    add_field(&mut out, has_id, "client_id", Yaml::Text(s.client_id.clone()), Ghost(7));
    let has_secret = !s.client_secret.as_str().is_empty();
    add_field(&mut out, has_secret, "client_secret", Yaml::Text(s.client_secret.clone()), Ghost(8));
    let y = Yaml::Mapping(out);
    proof {
        let all = entries_view(out@);
        assert(y@->Mapping_0 =~= all);
        assert(all == server_fields(s@)) by {
            reveal(server_fields);
        }
        assert(plain(Node::Mapping(all))) by {
            reveal(keyed);
        }
    }
    y
}

/// The `mcp_servers:` block of a set of servers, as a tree.
pub fn block_tree(servers: &StrMap<McpServerConfig>) -> (y: Yaml)
    ensures
        y@ == block_node(servers@),
        plain(y@),
{
    let n: usize = servers.len();
    let mut out: Vec<(Yaml, Yaml)> = Vec::new();
    for i in 0..n
        invariant
            n == servers.pairs().len(),
            out@.len() == i,
            forall|k: int|
                0 <= k < i ==> (#[trigger] out@[k]).0@ == Node::Text(servers.pairs()[k].0) && out@[k].1@
                    == Node::Mapping(server_fields(servers.pairs()[k].1)) && plain(out@[k].1@),
    {
        let entry: &McpServerConfig = servers.value_at(i);
        let fields: Yaml = server_tree(entry);
        assert(fields@ == Node::Mapping(server_fields(servers.pairs()[i as int].1)));
        out.push((Yaml::Text(servers.key_at(i).clone()), fields));
        assert(out@[i as int].0@ == Node::Text(servers.pairs()[i as int].0));
        assert(out@[i as int].1@ == fields@);
    }
    let inner = Yaml::Mapping(out);
    let mut top: Vec<(Yaml, Yaml)> = Vec::new();
    let ghost want = block_node(servers@)->Mapping_0[0].1;
    proof {
        let s = want->Mapping_0;
        assert(inner@->Mapping_0 =~= s);
        assert forall|i: int| 0 <= i < s.len() implies plain((#[trigger] s[i]).0) && plain(
            s[i].1,
        ) by {
            assert(inner@->Mapping_0[i] == (out@[i].0@, out@[i].1@));
        }
        assert forall|i: int, j: int| 0 <= i < j < s.len() implies (#[trigger] s[i]).0 != (
        #[trigger] s[j]).0 by {
            assert(rising(servers.pairs()));
            text_lt_total(servers.pairs()[i].0, servers.pairs()[j].0);
        }
        assert(plain(inner@));
    }
    top.push((Yaml::Text(own("mcp_servers")), inner));
    let y = Yaml::Mapping(top);
    proof {
        assert(top@[0].0@ == Node::Text("mcp_servers"@));
        assert(inner@ == want);
        assert(y@->Mapping_0[0] == (top@[0].0@, top@[0].1@));
        assert(y@->Mapping_0 =~= block_node(servers@)->Mapping_0);
        let t = y@->Mapping_0;
        assert(t.len() == 1);
        assert(plain(t[0].0) && plain(t[0].1));
    }
    y
}

// ---------------------------------------------------------------- what the block holds

/// An entry whose texts hold no newline.
pub open spec fn one_line_server(s: ServerView) -> bool {
    &&& one_line(s.command)
    &&& one_line(s.url)
    &&& one_line(s.client_id)
    &&& one_line(s.client_secret)
    &&& s.defer is Some ==> one_line(s.defer->0)
    &&& forall|i: int| 0 <= i < s.args.len() ==> one_line(#[trigger] s.args[i])
    &&& one_line_pairs(pairs_of(s.env))
    &&& one_line_pairs(pairs_of(s.headers))
}

/// Names and values that hold no newline.
pub open spec fn one_line_pairs(p: Seq<(Seq<char>, Seq<char>)>) -> bool {
    forall|i: int| 0 <= i < p.len() ==> one_line((#[trigger] p[i]).0) && one_line(p[i].1)
}

/// Servers whose names and texts hold no newline.
pub open spec fn one_line_servers(servers: Map<Seq<char>, ServerView>) -> bool {
    let p = pairs_of(servers);
    forall|i: int| 0 <= i < p.len() ==> one_line((#[trigger] p[i]).0) && one_line_server(p[i].1)
}

/// An entry whose texts are written without a line break.
pub open spec fn unbroken_server(s: ServerView) -> bool {
    &&& unbroken(s.command)
    &&& unbroken(s.url)
    &&& unbroken(s.client_id)
    &&& unbroken(s.client_secret)
    &&& s.defer is Some ==> unbroken(s.defer->0)
    &&& forall|i: int| 0 <= i < s.args.len() ==> unbroken(#[trigger] s.args[i])
    &&& unbroken_pairs(pairs_of(s.env))
    &&& unbroken_pairs(pairs_of(s.headers))
}

/// Names and values that are written without a line break.
pub open spec fn unbroken_pairs(p: Seq<(Seq<char>, Seq<char>)>) -> bool {
    forall|i: int| 0 <= i < p.len() ==> unbroken((#[trigger] p[i]).0) && unbroken(p[i].1)
}

/// Servers whose names and texts are written without a line break.
pub open spec fn unbroken_servers(servers: Map<Seq<char>, ServerView>) -> bool {
    let p = pairs_of(servers);
    forall|i: int| 0 <= i < p.len() ==> unbroken((#[trigger] p[i]).0) && unbroken_server(p[i].1)
}

/// Fields whose keys are field keys, and whose values are on one line and readable where they are asked to be;
/// a value that cannot be printed need not be readable.
#[verifier::opaque]
spec fn well_kept(s: Seq<(Node, Node)>, lined: bool, read: bool) -> bool {
    forall|i: int| #![trigger s[i]]
        0 <= i < s.len() ==> {
            &&& s[i].0 matches Node::Text(k)
            &&& field_keys().contains(k)
            &&& lined ==> single_lined(s[i].1)
            &&& read && plain(s[i].1) ==> readable(s[i].1, 8)
        }
}

/// One more field of that sort.
proof fn kept_step(
    s: Seq<(Node, Node)>,
    n: int,
    present: bool,
    value: Node,
    lined: bool,
    read: bool,
)
    requires
        0 <= n < 9,
        well_kept(s, lined, read),
        present && lined ==> single_lined(value),
        present && read && plain(value) ==> readable(value, 8),
    ensures
        well_kept(s + field(present, field_keys()[n], value), lined, read),
{
    reveal(well_kept);
    let t = s + field(present, field_keys()[n], value);
    assert forall|i: int| #![trigger t[i]] 0 <= i < t.len() implies {
        &&& t[i].0 matches Node::Text(k)
        &&& field_keys().contains(k)
        &&& lined ==> single_lined(t[i].1)
        &&& read && plain(t[i].1) ==> readable(t[i].1, 8)
    } by {
        if i < s.len() {
            assert(t[i] == s[i]);
        } else {
            assert(t[i].0 == Node::Text(field_keys()[n]));
        }
    }
}

/// The fields of an entry, from the first to the `n`th.
spec fn fields_to(s: ServerView, n: int) -> Seq<(Node, Node)>
    decreases n,
{
    if n <= 0 {
        Seq::empty()
    } else {
        fields_to(s, n - 1) + field(field_at(s, n - 1).0, field_keys()[n - 1], field_at(s, n - 1).1)
    }
}

/// Whether the field at `n` is written, and its value.
spec fn field_at(s: ServerView, n: int) -> (bool, Node) {
    if n == 0 {
        (s.command.len() > 0, Node::Text(s.command))
    } else if n == 1 {
        (s.args.len() > 0, list_node(s.args))
    } else if n == 2 {
        (s.url.len() > 0, Node::Text(s.url))
    } else if n == 3 {
        (pairs_of(s.env).len() > 0, texts_node(pairs_of(s.env)))
    } else if n == 4 {
        (pairs_of(s.headers).len() > 0, texts_node(pairs_of(s.headers)))
    } else if n == 5 {
        (s.defer is Some, Node::Text(s.defer->0))
    } else if n == 6 {
        (s.auth == AuthMode::Oauth, Node::Text("oauth"@))
    } else if n == 7 {
        (s.client_id.len() > 0, Node::Text(s.client_id))
    } else {
        (s.client_secret.len() > 0, Node::Text(s.client_secret))
    }
}

/// The fields of an entry are its nine fields in order.
proof fn fields_in_order(s: ServerView)
    ensures
        server_fields(s) == fields_to(s, 9),
{
    reveal(server_fields);
    reveal_with_fuel(fields_to, 10);
    assert(Seq::<(Node, Node)>::empty() + field(
        s.command.len() > 0,
        "command"@,
        Node::Text(s.command),
    ) =~= field(s.command.len() > 0, "command"@, Node::Text(s.command)));
}

/// A map of texts, as a tree, is as its texts are.
proof fn texts_kept(p: Seq<(Seq<char>, Seq<char>)>)
    ensures
        one_line_pairs(p) ==> single_lined(texts_node(p)),
        unbroken_pairs(p) && plain(texts_node(p)) ==> readable(texts_node(p), 8),
{
    reveal_with_fuel(single_lined, 3);
    reveal_with_fuel(readable, 3);
    let s = texts_node(p)->Mapping_0;
    if one_line_pairs(p) {
        assert forall|i: int| 0 <= i < s.len() implies single_lined((#[trigger] s[i]).0)
            && single_lined(s[i].1) by {
            assert(s[i] == (Node::Text(p[i].0), Node::Text(p[i].1)));
        }
    }
    if unbroken_pairs(p) {
        assert forall|i: int| 0 <= i < s.len() implies ((#[trigger] s[i]).0 matches Node::Text(k)
            && unbroken(k)) && readable(s[i].1, 7) by {
            assert(s[i] == (Node::Text(p[i].0), Node::Text(p[i].1)));
        }
    }
}

/// The value of a field is as the texts of its entry are.
proof fn value_kept(s: ServerView, n: int)
    requires
        0 <= n < 9,
    ensures
        field_at(s, n).0 && one_line_server(s) ==> single_lined(field_at(s, n).1),
        field_at(s, n).0 && unbroken_server(s) && plain(field_at(s, n).1) ==> readable(
            field_at(s, n).1,
            8,
        ),
{
    reveal_with_fuel(single_lined, 3);
    reveal_with_fuel(readable, 3);
    reveal_strlit("oauth");
    texts_kept(pairs_of(s.env));
    texts_kept(pairs_of(s.headers));
    assert(!"oauth"@.contains('\n'));
    let l = list_node(s.args)->List_0;
    assert(one_line_server(s) ==> single_lined(list_node(s.args)));
    assert(unbroken_server(s) ==> readable(list_node(s.args), 8)) by {
        if unbroken_server(s) {
            assert forall|i: int| 0 <= i < l.len() implies readable(#[trigger] l[i], 7) by {
                assert(l[i] == Node::Text(s.args[i]));
            }
        }
    }
}

/// The first `n` fields of an entry are as its texts are.
proof fn fields_kept(s: ServerView, n: int)
    requires
        0 <= n <= 9,
    ensures
        well_kept(fields_to(s, n), one_line_server(s), unbroken_server(s)),
    decreases n,
{
    if n == 0 {
        reveal(well_kept);
    } else {
        fields_kept(s, n - 1);
        value_kept(s, n - 1);
        kept_step(
            fields_to(s, n - 1),
            n - 1,
            field_at(s, n - 1).0,
            field_at(s, n - 1).1,
            one_line_server(s),
            unbroken_server(s),
        );
    }
}

/// The block of servers whose texts hold no newline is a section of its key, and one whose texts are written
/// without line breaks can be read back.
pub proof fn block_kept(servers: Map<Seq<char>, ServerView>)
    requires
        plain(block_node(servers)),
    ensures
        one_line_servers(servers) && pairs_of(servers).len() > 0 ==> is_section(
            block_node(servers),
            "mcp_servers"@,
        ),
        unbroken_servers(servers) ==> readable(block_node(servers), READ_DEPTH as nat),
{
    reveal_strlit("mcp_servers");
    let p = pairs_of(servers);
    let top = block_node(servers)->Mapping_0;
    let inner = top[0].1->Mapping_0;
    let key = "mcp_servers"@;
    assert(key[3] == '_');
    assert(is_word(key));
    assert(!key.contains('\n'));
    assert(plain(top[0].1));
    assert forall|i: int| 0 <= i < p.len() implies ({
        &&& one_line_servers(servers) ==> single_lined((#[trigger] inner[i]).1)
        &&& unbroken_servers(servers) ==> readable(inner[i].1, 9)
    }) by {
        let s = p[i].1;
        fields_kept(s, 9);
        fields_in_order(s);
        let f = server_fields(s);
        reveal(well_kept);
        assert(inner[i].1 == Node::Mapping(f));
        assert(plain(inner[i].1));
        field_keys_unbroken();
        if one_line_servers(servers) {
            assert(one_line_server(s));
            assert forall|k: int| 0 <= k < f.len() implies single_lined((#[trigger] f[k]).0)
                && single_lined(f[k].1) by {}
            assert(single_lined(Node::Mapping(f)));
        }
        if unbroken_servers(servers) {
            assert(unbroken_server(s));
            assert forall|k: int| 0 <= k < f.len() implies ((#[trigger] f[k]).0 matches Node::Text(t)
                && unbroken(t)) && readable(f[k].1, 8) by {}
            assert(readable(Node::Mapping(f), 9));
        }
    }
    if one_line_servers(servers) {
        assert forall|i: int| 0 <= i < inner.len() implies single_lined((#[trigger] inner[i]).0)
            && single_lined(inner[i].1) by {
            assert(inner[i].0 == Node::Text(p[i].0));
        }
        assert(single_lined(top[0].1));
        assert(single_lined(top[0].0));
        assert(single_lined(block_node(servers)));
    }
    if unbroken_servers(servers) {
        assert forall|i: int| 0 <= i < inner.len() implies ((#[trigger] inner[i]).0 matches Node::Text(
            t,
        ) && unbroken(t)) && readable(inner[i].1, 14) by {
            assert(inner[i].0 == Node::Text(p[i].0));
            deeper(inner[i].1, 9, 14);
        }
        assert(readable(top[0].1, 15));
        assert(readable(block_node(servers), 16));
    }
}

/// The keys of the fields are written without a line break.
proof fn field_keys_unbroken()
    ensures
        forall|k: Seq<char>| #[trigger] field_keys().contains(k) ==> unbroken(k) && one_line(k),
{
    reveal_strlit("command");
    reveal_strlit("args");
    reveal_strlit("url");
    reveal_strlit("env");
    reveal_strlit("headers");
    reveal_strlit("defer");
    reveal_strlit("auth");
    reveal_strlit("client_id");
    reveal_strlit("client_secret");
}

/// What can be read to one depth can be read to a greater one.
proof fn deeper(n: Node, a: nat, b: nat)
    requires
        readable(n, a),
        a <= b,
    ensures
        readable(n, b),
    decreases a,
{
    match n {
        Node::List(s) => {
            assert forall|i: int| 0 <= i < s.len() implies readable(
                #[trigger] s[i],
                (b - 1) as nat,
            ) by {
                deeper(s[i], (a - 1) as nat, (b - 1) as nat);
            }
        },
        Node::Mapping(s) => {
            assert forall|i: int| 0 <= i < s.len() implies ((#[trigger] s[i]).0 matches Node::Text(
                k,
            ) && unbroken(k)) && readable(s[i].1, (b - 1) as nat) by {
                deeper(s[i].1, (a - 1) as nat, (b - 1) as nat);
            }
        },
        _ => {},
    }
}

/// The fields that are written are fields that the key audit accepts.
proof fn fields_pass(name: Seq<char>, f: Seq<(Node, Node)>, i: int)
    requires
        0 <= i <= f.len(),
        well_kept(f, false, false),
    ensures
        fields_fault("mcp_servers"@, name, f, i) is None,
    decreases f.len() - i,
{
    reveal_strlit("mcp_servers");
    reveal_strlit("providers");
    reveal_strlit("models");
    reveal_strlit("agents");
    reveal(well_kept);
    if i < f.len() {
        fields_pass(name, f, i + 1);
        let k = f[i].0->Text_0;
        assert(field_keys().contains(k));
        let n = choose|n: int| 0 <= n < 9 && field_keys()[n] == k;
        assert(accepted("mcp_servers"@, k)) by {
            if n < 6 {
                assert(server_keys()[n] == k);
            } else {
                assert(sign_in_keys()[n - 6] == k);
            }
        }
    }
}

/// The fields of any entry have field keys.
proof fn fields_named(s: ServerView, n: int)
    requires
        0 <= n <= 9,
    ensures
        well_kept(fields_to(s, n), false, false),
    decreases n,
{
    if n == 0 {
        reveal(well_kept);
    } else {
        fields_named(s, n - 1);
        kept_step(
            fields_to(s, n - 1),
            n - 1,
            field_at(s, n - 1).0,
            field_at(s, n - 1).1,
            false,
            false,
        );
    }
}

/// The entries that are written pass the key audit from the `i`th on.
proof fn entries_pass(p: Seq<(Seq<char>, ServerView)>, entries: Seq<(Node, Node)>, i: int)
    requires
        0 <= i <= p.len(),
        entries.len() == p.len(),
        forall|k: int|
            0 <= k < p.len() ==> #[trigger] entries[k] == (
                Node::Text(p[k].0),
                Node::Mapping(server_fields(p[k].1)),
            ),
    ensures
        entries_fault("mcp_servers"@, entries, i) is None,
    decreases p.len() - i,
{
    if i < p.len() {
        entries_pass(p, entries, i + 1);
        assert(entries[i] == (Node::Text(p[i].0), Node::Mapping(server_fields(p[i].1))));
        fields_in_order(p[i].1);
        fields_named(p[i].1, 9);
        fields_pass(p[i].0, server_fields(p[i].1), 0);
    }
}

/// What is written loads again: the key audit finds no fault in the block of any servers.
pub proof fn written_block_is_accepted(servers: Map<Seq<char>, ServerView>)
    ensures
        document_fault(block_node(servers)) is None,
{
    reveal_strlit("mcp_servers");
    let p = pairs_of(servers);
    let top = block_node(servers)->Mapping_0;
    let entries = top[0].1->Mapping_0;
    entries_pass(p, entries, 0);
    assert(top_keys()[3] == "mcp_servers"@);
    assert(top_fault(top, 1) is None);
}

// ---------------------------------------------------------------- what the block tells

/// A map that is the map of a list.
pub open spec fn listed<T>(m: Map<Seq<char>, T>) -> bool {
    map_of(pairs_of(m)) == m
}

/// Of the first `m` fields of an entry the one with the `n`th key has the `n`th value, and stands there if it is
/// written.
proof fn fields_hold(s: ServerView, m: int, n: int, v: Node)
    requires
        0 <= m <= 9,
        0 <= n < 9,
    ensures
        fields_to(s, m).contains((Node::Text(field_keys()[n]), v)) <==> n < m && field_at(s, n).0 && v
            == field_at(s, n).1,
    decreases m,
{
    let x = (Node::Text(field_keys()[n]), v);
    if m > 0 {
        fields_hold(s, m - 1, n, v);
        let before = fields_to(s, m - 1);
        let last = field(field_at(s, m - 1).0, field_keys()[m - 1], field_at(s, m - 1).1);
        let all = before + last;
        if n < m - 1 {
            field_keys_differ(n, m - 1);
        } else if m - 1 < n {
            field_keys_differ(m - 1, n);
        }
        if before.contains(x) {
            let i = choose|i: int| 0 <= i < before.len() && before[i] == x;
            assert(all[i] == x);
        }
        if last.contains(x) {
            let i = choose|i: int| 0 <= i < last.len() && last[i] == x;
            assert(all[before.len() + i] == x);
        }
        if all.contains(x) {
            let i = choose|i: int| 0 <= i < all.len() && all[i] == x;
            if i < before.len() {
                assert(before[i] == x);
            } else {
                assert(last[i - before.len()] == x);
            }
        }
        if n == m - 1 && field_at(s, n).0 && v == field_at(s, n).1 {
            assert(last[0] == x);
        }
    }
}

/// Entries with the same fields have the same values in them.
proof fn same_value(a: ServerView, b: ServerView, n: int)
    requires
        server_fields(a) == server_fields(b),
        0 <= n < 9,
    ensures
        field_at(a, n).0 == field_at(b, n).0,
        field_at(a, n).0 ==> field_at(a, n).1 == field_at(b, n).1,
{
    fields_in_order(a);
    fields_in_order(b);
    fields_hold(a, 9, n, field_at(a, n).1);
    fields_hold(b, 9, n, field_at(a, n).1);
    fields_hold(a, 9, n, field_at(b, n).1);
    fields_hold(b, 9, n, field_at(b, n).1);
}

/// Maps of texts with the same tree are the same, when both are written or both are empty.
proof fn same_texts(a: Map<Seq<char>, Seq<char>>, b: Map<Seq<char>, Seq<char>>)
    requires
        listed(a),
        listed(b),
        (pairs_of(a).len() > 0) == (pairs_of(b).len() > 0),
        pairs_of(a).len() > 0 ==> texts_node(pairs_of(a)) == texts_node(pairs_of(b)),
    ensures
        a == b,
{
    let p = pairs_of(a);
    let q = pairs_of(b);
    if p.len() > 0 {
        let s = texts_node(p)->Mapping_0;
        let t = texts_node(q)->Mapping_0;
        assert(s.len() == p.len() && t.len() == q.len());
        assert forall|i: int| 0 <= i < p.len() implies p[i] == q[i] by {
            assert(s[i] == (Node::Text(p[i].0), Node::Text(p[i].1)));
            assert(t[i] == (Node::Text(q[i].0), Node::Text(q[i].1)));
        }
    }
    assert(p =~= q);
}

/// Entries with the same fields are the same.
proof fn same_server(a: ServerView, b: ServerView)
    requires
        server_fields(a) == server_fields(b),
        listed(a.env) && listed(a.headers),
        listed(b.env) && listed(b.headers),
    ensures
        a == b,
{
    same_value(a, b, 0);
    same_value(a, b, 1);
    same_value(a, b, 2);
    same_value(a, b, 3);
    same_value(a, b, 4);
    same_value(a, b, 5);
    same_value(a, b, 6);
    same_value(a, b, 7);
    same_value(a, b, 8);
    same_texts(a.env, b.env);
    same_texts(a.headers, b.headers);
    assert(a.command =~= b.command);
    assert(a.url =~= b.url);
    assert(a.client_id =~= b.client_id);
    assert(a.client_secret =~= b.client_secret);
    if a.args.len() > 0 {
        let s = list_node(a.args)->List_0;
        let t = list_node(b.args)->List_0;
        assert(s.len() == a.args.len() && t.len() == b.args.len());
        assert forall|i: int| 0 <= i < a.args.len() implies a.args[i] == b.args[i] by {
            assert(s[i] == Node::Text(a.args[i]));
            assert(t[i] == Node::Text(b.args[i]));
        }
    }
    assert(a.args =~= b.args);
}

/// Servers that can be held: their maps are maps of lists.
pub open spec fn listed_servers(servers: Map<Seq<char>, ServerView>) -> bool {
    let p = pairs_of(servers);
    &&& listed(servers)
    &&& forall|i: int|
        0 <= i < p.len() ==> listed((#[trigger] p[i]).1.env) && listed(p[i].1.headers)
}

/// Nothing of the servers is lost in what is written: servers with the same block are the same.
pub proof fn written_block_tells_the_servers(
    a: Map<Seq<char>, ServerView>,
    b: Map<Seq<char>, ServerView>,
)
    requires
        listed_servers(a),
        listed_servers(b),
        block_node(a) == block_node(b),
    ensures
        a == b,
{
    let p = pairs_of(a);
    let q = pairs_of(b);
    assert(block_node(a)->Mapping_0[0] == block_node(b)->Mapping_0[0]);
    let s = block_node(a)->Mapping_0[0].1->Mapping_0;
    let t = block_node(b)->Mapping_0[0].1->Mapping_0;
    assert(s.len() == p.len() && t.len() == q.len());
    assert forall|i: int| 0 <= i < p.len() implies p[i] == q[i] by {
        assert(s[i] == (Node::Text(p[i].0), Node::Mapping(server_fields(p[i].1))));
        assert(t[i] == (Node::Text(q[i].0), Node::Mapping(server_fields(q[i].1))));
        same_server(p[i].1, q[i].1);
    }
    assert(p =~= q);
}

} // verus!
