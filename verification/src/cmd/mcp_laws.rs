//! What the commands on MCP servers come to: the entry that a command line describes, the file it goes to, and what
//! is shown of the servers that there are.

use vstd::prelude::*;
use vstd::string::*;

use crate::cmd::args::{McpAddCmd, McpAuthArg, McpScope};
use crate::cmd::assemble::{
    group_of, group_warning, groups_of, mode_for, mode_warning, mount_of, mounts, DeferredGroup,
    McpMount, ServerConfig,
};
use crate::cmd::error::CliError;
use crate::cmd::mcp_cmd::{
    add_case, added_lines, assignment_of, command_line, described, description, file_of_scope,
    first_bad_pair, first_secret, header_of, is_server_name, pair_of, pairs_in, secret_in, sources,
    transport_of, AddCase, AddFault, Tiers,
};
use crate::cmd::mcp_view::{
    auth_text, auth_word, declared_by, first_line, holders, list_line, list_lines, probe_text,
    row_fields, server_at, DeclaredView, ProbeStatus,
};
use crate::config::edit::FileServers;
use crate::config::server::{server_fields, AuthMode, ServerView};
use crate::json::JsonNode;
use crate::map::{pairs_of, views};
use crate::provider::{defer_named, Catalog, DeferMode, ProviderKind};
use crate::text::{begins, first_at, first_at_bounds, first_at_is, occurs, occurs_at, strs, trimmed};
use crate::yaml::Node;

verus! {

// ---------------------------------------------------------------- what is added

/// A header is read at its first colon, without the white space around its name and its value; an assignment at
/// its first equals sign, and its value is taken as it is. Without a name there is neither.
pub proof fn pairs_are_read_at_their_sign(name: Seq<char>, value: Seq<char>)
    ensures
        !name.contains(':') && trimmed(name).len() > 0 ==> header_of(name + ":"@ + value) == Some(
            (trimmed(name), trimmed(value)),
        ),
        !name.contains('=') && trimmed(name).len() > 0 ==> assignment_of(name + "="@ + value)
            == Some((trimmed(name), value)),
        !name.contains(':') ==> header_of(name) is None,
        !name.contains('=') ==> assignment_of(name) is None,
        !name.contains(':') && trimmed(name).len() == 0 ==> header_of(name + ":"@ + value) is None,
        !name.contains('=') && trimmed(name).len() == 0 ==> assignment_of(name + "="@ + value)
            is None,
{
    reveal_strlit(":");
    reveal_strlit("=");
    let n = name.len() as int;
    let h = name + ":"@ + value;
    let a = name + "="@ + value;
    assert(h.take(n) =~= name && h.skip(n + 1) =~= value);
    assert(a.take(n) =~= name && a.skip(n + 1) =~= value);
    if !name.contains(':') {
        first_at_is(h, ':', n);
        first_at_is(name, ':', n);
    }
    if !name.contains('=') {
        first_at_is(a, '=', n);
        first_at_is(name, '=', n);
    }
}

/// The name of a pair that was given.
pub open spec fn given_name(raw: Seq<char>, headers: bool) -> Seq<char> {
    match pair_of(raw, headers) {
        Some((name, _)) => name,
        None => Seq::empty(),
    }
}

/// The value of a pair that was given.
pub open spec fn given_value(raw: Seq<char>, headers: bool) -> Seq<char> {
    match pair_of(raw, headers) {
        Some((_, value)) => value,
        None => Seq::empty(),
    }
}

/// Every pair that was given stands under its name, the last of a name with its value, and nothing else does.
pub proof fn given_pairs_stand(raws: Seq<Seq<char>>, headers: bool, i: int)
    requires
        0 <= i < raws.len(),
        forall|k: int| 0 <= k < raws.len() ==> pair_of(#[trigger] raws[k], headers) is Some,
    ensures
        pairs_in(raws, headers).contains_key(given_name(raws[i], headers)),
        (forall|k: int|
            i < k < raws.len() ==> given_name(#[trigger] raws[k], headers) != given_name(
                raws[i],
                headers,
            )) ==> pairs_in(raws, headers)[given_name(raws[i], headers)] == given_value(
            raws[i],
            headers,
        ),
        forall|n: Seq<char>| #[trigger]
            pairs_in(raws, headers).contains_key(n) ==> exists|k: int|
                0 <= k < raws.len() && given_name(#[trigger] raws[k], headers) == n,
    decreases raws.len(),
{
    let init = raws.drop_last();
    let last = raws.len() - 1;
    assert forall|k: int| 0 <= k < init.len() implies pair_of(#[trigger] init[k], headers) is Some by {
        assert(init[k] == raws[k]);
    }
    if init.len() > 0 {
        given_pairs_stand(init, headers, if i < last { i } else { 0 });
    }
    if i < last {
        assert(init[i] == raws[i]);
        if forall|k: int|
            i < k < raws.len() ==> given_name(#[trigger] raws[k], headers) != given_name(
                raws[i],
                headers,
            ) {
            assert(given_name(raws[last], headers) != given_name(raws[i], headers));
            assert forall|k: int| i < k < init.len() implies given_name(
                #[trigger] init[k],
                headers,
            ) != given_name(init[i], headers) by {
                assert(init[k] == raws[k]);
            }
        }
    }
    assert forall|n: Seq<char>| #[trigger] pairs_in(raws, headers).contains_key(n) implies exists|
        k: int,
    |
        0 <= k < raws.len() && given_name(#[trigger] raws[k], headers) == n by {
        if n == given_name(raws[last], headers) {
            assert(given_name(raws[last], headers) == n);
        } else {
            assert(pairs_in(init, headers).contains_key(n));
            let k = choose|k: int|
                0 <= k < init.len() && given_name(#[trigger] init[k], headers) == n;
            assert(raws[k] == init[k]);
        }
    }
}

/// A server is described by its url or by its command, and by one of them: an entry for a url has that url, and
/// one for a command its first word as the command and the rest as arguments, in order; both keep the summary that
/// was given, and what the other form would need is not there.
pub proof fn entries_are_what_was_described(add: McpAddCmd)
    ensures
        add.url is Some && add.command@.len() > 0 ==> described(add) is Err,
        add.url is None && add.command@.len() == 0 ==> described(add) is Err,
        described(add) matches Ok(s) ==> {
            &&& add.url matches Some(u) ==> s.url == u@ && s.command.len() == 0 && s.args.len() == 0
                && s.headers == pairs_in(strs(add.headers@), true) && (s.auth == AuthMode::Oauth)
                == (add.auth == Some(McpAuthArg::Oauth)) && (add.client_id matches Some(id)
                ==> s.client_id == id@) && (add.client_id is None ==> s.client_id.len() == 0) && (
            add.client_secret_env matches Some(v) ==> s.client_secret == "${env:"@ + v@ + "}"@) && (
            add.client_secret_env is None ==> s.client_secret.len() == 0)
            &&& add.url is None ==> s.url.len() == 0 && s.command == add.command@[0]@
                && s.args.len() == add.command@.len() - 1 && (forall|i: int|
                #![trigger s.args[i]]
                0 <= i < s.args.len() ==> s.args[i] == add.command@[i + 1]@) && s.env == pairs_in(
                strs(add.env@),
                false,
            ) && s.auth == AuthMode::Unset && s.client_id.len() == 0 && s.client_secret.len() == 0
            &&& add.defer matches Some(t) ==> s.defer == Some(t@)
            &&& add.defer is None ==> s.defer is None
        },
{
}

proof fn no_bad_pair(raws: Seq<Seq<char>>, headers: bool, i: int)
    requires
        0 <= i <= raws.len(),
    ensures
        first_bad_pair(raws, headers, i) is None == (forall|k: int|
            i <= k < raws.len() ==> pair_of(#[trigger] raws[k], headers) is Some),
        first_bad_pair(raws, headers, i) matches Some(b) ==> raws.contains(b) && pair_of(b, headers)
            is None,
    decreases raws.len() - i,
{
    if i < raws.len() {
        no_bad_pair(raws, headers, i + 1);
        if pair_of(raws[i], headers) is None {
            assert(raws.contains(raws[i]));
        } else if first_bad_pair(raws, headers, i + 1) is None {
            assert forall|k: int| i <= k < raws.len() implies pair_of(#[trigger] raws[k], headers)
                is Some by {}
        }
    }
}

/// A url with a scheme and good headers, and a command with good assignments, are described: nothing else is asked
/// of either form without a sign-in.
pub proof fn good_descriptions_are_taken(add: McpAddCmd)
    ensures
        add.url is Some && add.command@.len() == 0 && (begins(add.url->0@, "https://"@) || begins(
            add.url->0@,
            "http://"@,
        )) && add.env@.len() == 0 && (forall|k: int|
            0 <= k < add.headers@.len() ==> header_of((#[trigger] add.headers@[k])@) is Some)
            && add.client_id is None && add.client_secret_env is None ==> described(add) is Ok,
        add.url is None && add.command@.len() > 0 && add.headers@.len() == 0 && add.auth is None
            && add.client_id is None && add.client_secret_env is None && (forall|k: int|
            0 <= k < add.env@.len() ==> assignment_of((#[trigger] add.env@[k])@) is Some)
            ==> described(add) is Ok,
{
    no_bad_pair(strs(add.headers@), true, 0);
    no_bad_pair(strs(add.env@), false, 0);
    if forall|k: int|
        0 <= k < add.headers@.len() ==> header_of((#[trigger] add.headers@[k])@) is Some {
        assert forall|k: int| 0 <= k < strs(add.headers@).len() implies pair_of(
            #[trigger] strs(add.headers@)[k],
            true,
        ) is Some by {
            assert(strs(add.headers@)[k] == add.headers@[k]@);
        }
    }
    if forall|k: int|
        0 <= k < add.env@.len() ==> assignment_of((#[trigger] add.env@[k])@) is Some {
        assert forall|k: int| 0 <= k < strs(add.env@).len() implies pair_of(
            #[trigger] strs(add.env@)[k],
            false,
        ) is Some by {
            assert(strs(add.env@)[k] == add.env@[k]@);
        }
    }
}

proof fn no_secret(lead: Seq<char>, pairs: Seq<(Seq<char>, Seq<char>)>, i: int)
    requires
        0 <= i <= pairs.len(),
    ensures
        first_secret(lead, pairs, i) is None == (forall|k: int|
            i <= k < pairs.len() ==> occurs((#[trigger] pairs[k]).1, "${"@)),
        first_secret(lead, pairs, i) matches Some(at) ==> exists|k: int|
            i <= k < pairs.len() && at == lead + (#[trigger] pairs[k]).0 && !occurs(
                pairs[k].1,
                "${"@,
            ),
    decreases pairs.len() - i,
{
    if i < pairs.len() {
        no_secret(lead, pairs, i + 1);
        if occurs(pairs[i].1, "${"@) && first_secret(lead, pairs, i + 1) is None {
            assert forall|k: int| i <= k < pairs.len() implies occurs(
                (#[trigger] pairs[k]).1,
                "${"@,
            ) by {}
        }
    }
}

/// An entry tells a secret exactly where a header or a variable of it has a value without a reference.
pub proof fn secrets_are_values_without_references(s: ServerView)
    ensures
        secret_in(s) is None == ((forall|k: int|
            0 <= k < pairs_of(s.headers).len() ==> occurs(
                (#[trigger] pairs_of(s.headers)[k]).1,
                "${"@,
            )) && (forall|k: int|
            0 <= k < pairs_of(s.env).len() ==> occurs((#[trigger] pairs_of(s.env)[k]).1, "${"@))),
{
    no_secret("headers."@, pairs_of(s.headers), 0);
    no_secret("env."@, pairs_of(s.env), 0);
}

/// What is added is the described entry, to the file of its scope: the user's unless the project's was asked for;
/// one that was named, if any. A secret never goes into a project's file.
pub proof fn entries_go_to_the_file_of_their_scope(
    add: McpAddCmd,
    explicit: Option<String>,
    t: Tiers,
)
    ensures
        add_case(add, explicit, t) matches AddCase::Ready(s, file) ==> {
            &&& described(add) == Ok::<ServerView, AddFault>(s)
            &&& is_server_name(add.name@)
            &&& explicit matches Some(p) ==> file == p@ && add.scope is None
            &&& explicit is None && add.scope != Some(McpScope::Project) ==> Some(file)
                == file_of_scope(McpScope::User, t)
            &&& explicit is None && add.scope == Some(McpScope::Project) ==> Some(file)
                == file_of_scope(McpScope::Project, t) && secret_in(s) is None
        },
        is_server_name(add.name@) && described(add) is Ok && explicit is None && add.scope is None
            && t.home is Some ==> add_case(add, explicit, t) is Ready,
{
}

/// The file of a scope is the one that was found in its directory, or the one that would be written there; sources
/// are the file that was named, or the user's and then the project's, as far as they are there and in scope.
pub proof fn scopes_have_their_files(explicit: Option<Seq<char>>, t: Tiers)
    ensures
        t.home is None ==> file_of_scope(McpScope::User, t) is None,
        t.home is Some && t.home_file is Some ==> file_of_scope(McpScope::User, t) == Some(
            t.home_file->0@,
        ),
        t.cwd is None ==> file_of_scope(McpScope::Project, t) is None,
        t.cwd is Some && t.cwd_file is Some ==> file_of_scope(McpScope::Project, t) == Some(
            t.cwd_file->0@,
        ),
        t.home is Some && t.home_file is None ==> (file_of_scope(McpScope::User, t) matches Some(f)
            && f.len() >= t.home->0@.len() && f.take(t.home->0@.len() as int) == t.home->0@),
        t.cwd is Some && t.cwd_file is None ==> (file_of_scope(McpScope::Project, t) matches Some(f)
            && f.len() >= t.cwd->0@.len() && f.take(t.cwd->0@.len() as int) == t.cwd->0@),
        explicit matches Some(p) ==> sources(explicit, None, t) == seq![p],
        explicit is None && t.home_file is Some && t.cwd_file is Some ==> {
            &&& sources(explicit, None, t) == seq![t.home_file->0@, t.cwd_file->0@]
            &&& sources(explicit, Some(McpScope::User), t) == seq![t.home_file->0@]
            &&& sources(explicit, Some(McpScope::Project), t) == seq![t.cwd_file->0@]
        },
{
    reveal_strlit(".yaml");
    reveal_strlit("/");
    reveal_strlit(".iota");
    let name = crate::app::CONFIG_BASE@ + ".yaml"@;
    assert(name[0] == '.');
    assert(!begins(name, "/"@)) by {
        assert(name.subrange(0, 1)[0] == name[0]);
    }
    if t.home is Some && t.home_file is None {
        let d = t.home->0@;
        let f = file_of_scope(McpScope::User, t)->0;
        assert(f.take(d.len() as int) =~= d);
    }
    if t.cwd is Some && t.cwd_file is None {
        let d = t.cwd->0@;
        let f = file_of_scope(McpScope::Project, t)->0;
        assert(f.take(d.len() as int) =~= d);
    }
    if explicit is None && t.home_file is Some && t.cwd_file is Some {
        assert(sources(explicit, None, t) =~= seq![t.home_file->0@, t.cwd_file->0@]);
        assert(sources(explicit, Some(McpScope::User), t) =~= seq![t.home_file->0@]);
        assert(sources(explicit, Some(McpScope::Project), t) =~= seq![t.cwd_file->0@]);
    }
}

/// A text stands in one that begins with it, ends with it, or has it in between.
proof fn occurs_between(a: Seq<char>, p: Seq<char>, b: Seq<char>)
    ensures
        occurs(a + p + b, p),
{
    let s = a + p + b;
    assert(s.subrange(a.len() as int, (a.len() + p.len()) as int) =~= p);
    assert(occurs_at(s, p, a.len() as int));
}

/// The words of a command stand in order, one space between each two; a server with a url shows its url.
pub proof fn descriptions_tell_the_target(s: ServerView, command: Seq<char>, args: Seq<Seq<char>>, a: Seq<char>)
    ensures
        command_line(command, Seq::empty()) == command,
        command_line(command, args.push(a)) == command_line(command, args) + " "@ + a,
        s.url.len() > 0 ==> description(s) == "http: "@ + s.url && transport_of(s) == "http"@,
        s.url.len() == 0 ==> description(s) == "stdio: "@ + command_line(s.command, s.args)
            && transport_of(s) == "stdio"@,
{
    assert(args.push(a).drop_last() =~= args);
}

/// What is said of an added server names it, what it is and its file; it says how to sign in exactly where the
/// server signs in, and that the default agent does not list it exactly where it lists others.
pub proof fn additions_are_announced(
    name: Seq<char>,
    s: ServerView,
    file: Seq<char>,
    listed: Option<Seq<Seq<char>>>,
)
    ensures
        ({
            let text = added_lines(name, s, file, listed);
            let first = "Added "@ + name + " ("@ + description(s) + ") to "@ + file + "\n"@;
            let next = "Next: iota mcp login "@ + name + "\n"@;
            &&& text.len() >= first.len() && text.take(first.len() as int) == first
            &&& s.auth == AuthMode::Oauth ==> occurs(text, next)
            &&& s.auth != AuthMode::Oauth && (listed is None || listed->0.contains(name)) ==> text
                == first
            &&& s.auth == AuthMode::Oauth && (listed is None || listed->0.contains(name)) ==> text
                == first + next
            &&& listed is Some && !listed->0.contains(name) ==> text.len() > first.len() + if s.auth
                == AuthMode::Oauth { next.len() } else { 0 }
        }),
{
    reveal_strlit("agent ");
    let text = added_lines(name, s, file, listed);
    let first = "Added "@ + name + " ("@ + description(s) + ") to "@ + file + "\n"@;
    let next = "Next: iota mcp login "@ + name + "\n"@;
    assert(text.take(first.len() as int) =~= first);
    if s.auth == AuthMode::Oauth {
        let rest = text.skip((first.len() + next.len()) as int);
        assert(text =~= first + next + rest);
        occurs_between(first, next, rest);
    }
    if s.auth != AuthMode::Oauth && (listed is None || listed->0.contains(name)) {
        assert(text =~= first);
    }
    if s.auth == AuthMode::Oauth && (listed is None || listed->0.contains(name)) {
        assert(text =~= first + next);
    }
}

// ---------------------------------------------------------------- what is declared and shown

/// The server of a name is the first that has it, and there is none only where none has it.
pub proof fn servers_are_found_by_name(declared: Seq<DeclaredView>, name: Seq<char>, i: int)
    requires
        0 <= i <= declared.len(),
    ensures
        server_at(declared, name, i) matches Some(k) ==> i <= k < declared.len()
            && declared[k].name == name && forall|j: int|
            i <= j < k ==> (#[trigger] declared[j]).name != name,
        server_at(declared, name, i) is None ==> forall|j: int|
            i <= j < declared.len() ==> (#[trigger] declared[j]).name != name,
    decreases declared.len() - i,
{
    if i < declared.len() {
        servers_are_found_by_name(declared, name, i + 1);
    }
}

/// What is declared of a name is the entry of the last file that declares it, under that file.
pub proof fn declarations_come_from_their_files(files: Seq<(String, FileServers)>, name: Seq<char>)
    ensures
        declared_by(files).contains_key(name) == (exists|k: int|
            0 <= k < files.len() && (#[trigger] files[k]).1.servers@.contains_key(name)),
        declared_by(files).contains_key(name) ==> exists|k: int|
            0 <= k < files.len() && (#[trigger] files[k]).1.servers@.contains_key(name)
                && declared_by(files)[name].name == name && declared_by(files)[name].file
                == files[k].0@ && declared_by(files)[name].entry == files[k].1.servers@[name]
                && forall|j: int|
                k < j < files.len() ==> !(#[trigger] files[j]).1.servers@.contains_key(name),
    decreases files.len(),
{
    if files.len() > 0 {
        let init = files.drop_last();
        let last = files.len() - 1;
        declarations_come_from_their_files(init, name);
        if files[last].1.servers@.contains_key(name) {
            assert(files[last].1.servers@.contains_key(name));
        } else {
            if declared_by(init).contains_key(name) {
                let k = choose|k: int|
                    0 <= k < init.len() && (#[trigger] init[k]).1.servers@.contains_key(name)
                        && declared_by(init)[name].name == name && declared_by(init)[name].file
                        == init[k].0@ && declared_by(init)[name].entry == init[k].1.servers@[name]
                        && forall|j: int|
                        k < j < init.len() ==> !(#[trigger] init[j]).1.servers@.contains_key(name);
                assert(files[k] == init[k]);
                assert forall|j: int| k < j < files.len() implies !(
                #[trigger] files[j]).1.servers@.contains_key(name) by {
                    if j < last {
                        assert(init[j] == files[j]);
                    }
                }
            }
            if exists|k: int|
                0 <= k < files.len() && (#[trigger] files[k]).1.servers@.contains_key(name) {
                let k = choose|k: int|
                    0 <= k < files.len() && (#[trigger] files[k]).1.servers@.contains_key(name);
                assert(init[k] == files[k]);
            }
        }
    }
}

/// The files that hold a server are exactly those that declare it, in order.
pub proof fn holders_declare_the_server(files: Seq<(String, FileServers)>, name: Seq<char>, n: int)
    requires
        0 <= n <= files.len(),
    ensures
        ({
            let at = holders(files, name, n);
            &&& forall|i: int| #![trigger at[i]]
                0 <= i < at.len() ==> 0 <= at[i] < n && files[at[i]].1.servers@.contains_key(name)
            &&& forall|i: int, j: int| 0 <= i < j < at.len() ==> #[trigger] at[i] < #[trigger] at[j]
            &&& forall|k: int|
                0 <= k < n && (#[trigger] files[k]).1.servers@.contains_key(name) ==> at.contains(k)
        }),
    decreases n,
{
    if n > 0 {
        holders_declare_the_server(files, name, n - 1);
        let at = holders(files, name, n);
        let before = holders(files, name, n - 1);
        assert forall|k: int|
            0 <= k < n && (#[trigger] files[k]).1.servers@.contains_key(name) implies at.contains(
            k,
        ) by {
            if k == n - 1 {
                assert(at[at.len() - 1] == k);
            } else {
                let i = choose|i: int| 0 <= i < before.len() && before[i] == k;
                assert(at[i] == k);
            }
        }
    }
}

/// How a server signs in: by OAuth with its state, by a header, or not at all.
pub proof fn sign_in_is_told(s: ServerView, state: Seq<char>)
    ensures
        s.auth == AuthMode::Oauth ==> auth_text(s, state) == "oauth: "@ + state && auth_word(s)
            == "oauth"@,
        s.auth == AuthMode::Unset && pairs_of(s.headers).len() > 0 ==> auth_text(s, state)
            == "header"@ && auth_word(s) == "header"@,
        s.auth == AuthMode::Unset && pairs_of(s.headers).len() == 0 ==> auth_text(s, state)
            == "none"@ && auth_word(s) == "none"@,
{
}

/// The first line of a text is its beginning up to a line break, without one in it.
pub proof fn first_lines_have_no_break(s: Seq<char>)
    ensures
        !first_line(s).contains('\n'),
        first_line(s).len() <= s.len(),
        s.take(first_line(s).len() as int) == first_line(s),
        first_line(s).len() < s.len() ==> s[first_line(s).len() as int] == '\n',
{
    first_at_bounds(s, '\n');
    let k = first_at(s, '\n');
    assert(s.take(first_line(s).len() as int) =~= first_line(s));
    if first_line(s).contains('\n') {
        let i = choose|i: int| 0 <= i < first_line(s).len() && first_line(s)[i] == '\n';
        assert(s[i] == '\n');
    }
}

/// The line of a server in a list shows its name first, and then its transport, its file and how it signs in; what
/// a probe found stands behind that. Every server has its line, in order.
pub proof fn lists_show_every_server(
    declared: Seq<DeclaredView>,
    states: Seq<Seq<char>>,
    width: int,
    file_width: int,
    probes: Option<Vec<ProbeStatus>>,
    i: int,
)
    requires
        0 <= i < declared.len() == states.len(),
    ensures
        ({
            let d = declared[i];
            let probe = crate::cmd::mcp_view::probe_at(probes, i);
            let line = list_line(d, states[i], width, file_width, probe);
            let lead = "  "@ + d.name;
            let auth = "[auth: "@ + auth_text(d.entry, states[i]) + "]"@;
            &&& line.len() >= lead.len() && line.take(lead.len() as int) == lead
            &&& occurs(line, transport_of(d.entry))
            &&& occurs(line, d.file)
            &&& occurs(line, auth)
            &&& probe matches Some(p) ==> occurs(line, probe_text(p))
            &&& list_lines(declared, states, width, file_width, probes, i + 1) == list_lines(
                declared,
                states,
                width,
                file_width,
                probes,
                i,
            ) + line + "\n"@
        }),
{
    reveal_strlit("  [auth: ");
    reveal_strlit("[auth: ");
    reveal_strlit("  ");
    let d = declared[i];
    let probe = crate::cmd::mcp_view::probe_at(probes, i);
    let line = list_line(d, states[i], width, file_width, probe);
    let lead = "  "@ + d.name;
    let transport = transport_of(d.entry);
    let auth = "[auth: "@ + auth_text(d.entry, states[i]) + "]"@;
    let a = "  "@ + crate::cmd::table::padded(d.name, width) + "  "@;
    let b = crate::cmd::table::padded(transport, 5);
    let c = crate::cmd::table::padded(d.file, file_width);
    let full = a + b + "  "@ + c + "  [auth: "@ + auth_text(d.entry, states[i]) + "]"@;
    let tail = match probe {
        Some(p) => "  "@ + probe_text(p),
        None => Seq::empty(),
    };
    assert(line =~= full + tail);
    assert(line.take(lead.len() as int) =~= lead);
    let rest_t = line.skip((a.len() + transport.len()) as int);
    assert(line =~= a + transport + rest_t);
    occurs_between(a, transport, rest_t);
    let before_file = a + b + "  "@;
    let rest_f = line.skip((before_file.len() + d.file.len()) as int);
    assert(line =~= before_file + d.file + rest_f);
    occurs_between(before_file, d.file, rest_f);
    let before_auth = a + b + "  "@ + c + "  "@;
    let rest_a = line.skip((before_auth.len() + auth.len()) as int);
    assert(line =~= before_auth + auth + rest_a);
    occurs_between(before_auth, auth, rest_a);
    if probe is Some {
        let p = probe->0;
        assert(line =~= (full + "  "@) + probe_text(p) + Seq::<char>::empty());
        occurs_between(full + "  "@, probe_text(p), Seq::empty());
    }
}

/// A server's row in JSON has its name, its file and every field of its entry under the key of the same name.
pub proof fn rows_have_every_field(d: DeclaredView, state: Seq<char>)
    ensures
        ({
            let f = row_fields(d, state);
            &&& f.contains(("name"@, JsonNode::Text(d.name)))
            &&& f.contains(("file"@, JsonNode::Text(d.file)))
            &&& f.contains(("command"@, JsonNode::Text(d.entry.command)))
            &&& f.contains(("url"@, JsonNode::Text(d.entry.url)))
            &&& f.contains(("client_id"@, JsonNode::Text(d.entry.client_id)))
            &&& f.contains(("client_secret"@, JsonNode::Text(d.entry.client_secret)))
            &&& f.contains(("transport"@, JsonNode::Text(transport_of(d.entry))))
            &&& f.contains(("auth"@, JsonNode::Text(auth_word(d.entry))))
            &&& d.entry.defer matches Some(t) ==> f.contains(("defer"@, JsonNode::Text(t)))
            &&& d.entry.defer is None ==> f.contains(("defer"@, JsonNode::Null))
            &&& d.entry.auth == AuthMode::Oauth ==> f.contains(("login"@, JsonNode::Text(state)))
            &&& d.entry.auth == AuthMode::Unset ==> f.contains(("login"@, JsonNode::Null))
            &&& exists|k: int|
                0 <= k < f.len() && (#[trigger] f[k]).0 == "args"@ && (
                f[k].1 matches JsonNode::List(v) && v.len() == d.entry.args.len() && forall|i: int|
                    0 <= i < v.len() ==> #[trigger] v[i] == JsonNode::Text(d.entry.args[i]))
        }),
{
    let f = row_fields(d, state);
    assert(f[0] == ("name"@, JsonNode::Text(d.name)));
    assert(f[1] == ("transport"@, JsonNode::Text(transport_of(d.entry))));
    assert(f[2] == ("file"@, JsonNode::Text(d.file)));
    assert(f[3] == ("command"@, JsonNode::Text(d.entry.command)));
    assert(f[4].0 == "args"@);
    assert(f[5] == ("url"@, JsonNode::Text(d.entry.url)));
    assert(f[8].0 == "defer"@);
    assert(f[9] == ("client_id"@, JsonNode::Text(d.entry.client_id)));
    assert(f[10] == ("client_secret"@, JsonNode::Text(d.entry.client_secret)));
    assert(f[11] == ("auth"@, JsonNode::Text(auth_word(d.entry))));
    assert(f[12].0 == "login"@);
}

proof fn in_either<T>(a: Seq<T>, b: Seq<T>, x: T)
    ensures
        a.contains(x) ==> (a + b).contains(x),
        b.contains(x) ==> (a + b).contains(x),
{
    if a.contains(x) {
        let i = choose|i: int| 0 <= i < a.len() && a[i] == x;
        assert((a + b)[i] == x);
    }
    if b.contains(x) {
        let i = choose|i: int| 0 <= i < b.len() && b[i] == x;
        assert((a + b)[a.len() + i] == x);
    }
}

/// An entry is written with its fields under their own keys: the command, the url, the sign-in and the client each
/// where it is set.
pub proof fn fields_are_written_under_their_keys(s: ServerView)
    ensures
        s.command.len() > 0 ==> server_fields(s).contains(
            (Node::Text("command"@), Node::Text(s.command)),
        ),
        s.url.len() > 0 ==> server_fields(s).contains((Node::Text("url"@), Node::Text(s.url))),
        s.defer is Some ==> server_fields(s).contains((Node::Text("defer"@), Node::Text(s.defer->0))),
        s.auth == AuthMode::Oauth ==> server_fields(s).contains(
            (Node::Text("auth"@), Node::Text("oauth"@)),
        ),
        s.client_id.len() > 0 ==> server_fields(s).contains(
            (Node::Text("client_id"@), Node::Text(s.client_id)),
        ),
        s.client_secret.len() > 0 ==> server_fields(s).contains(
            (Node::Text("client_secret"@), Node::Text(s.client_secret)),
        ),
{
    let f = crate::config::server::field(s.command.len() > 0, "command"@, Node::Text(s.command));
    let g = crate::config::server::field(s.args.len() > 0, "args"@, crate::config::server::list_node(s.args));
    let h = crate::config::server::field(s.url.len() > 0, "url"@, Node::Text(s.url));
    let e = crate::config::server::field(
        pairs_of(s.env).len() > 0,
        "env"@,
        crate::config::server::texts_node(pairs_of(s.env)),
    );
    let w = crate::config::server::field(
        pairs_of(s.headers).len() > 0,
        "headers"@,
        crate::config::server::texts_node(pairs_of(s.headers)),
    );
    let d = crate::config::server::field(s.defer is Some, "defer"@, Node::Text(s.defer->0));
    let a = crate::config::server::field(s.auth == AuthMode::Oauth, "auth"@, Node::Text("oauth"@));
    let c = crate::config::server::field(s.client_id.len() > 0, "client_id"@, Node::Text(s.client_id));
    let k = crate::config::server::field(
        s.client_secret.len() > 0,
        "client_secret"@,
        Node::Text(s.client_secret),
    );
    let all = f + g + h + e + w + d + a + c + k;
    assert(server_fields(s) == all) by {
        reveal(server_fields);
    }
    assert forall|x: (Node, Node)|
        f.contains(x) || h.contains(x) || d.contains(x) || a.contains(x) || c.contains(x)
            || k.contains(x) implies #[trigger] all.contains(x) by {
        in_either(f, g, x);
        in_either(f + g, h, x);
        in_either(f + g + h, e, x);
        in_either(f + g + h + e, w, x);
        in_either(f + g + h + e + w, d, x);
        in_either(f + g + h + e + w + d, a, x);
        in_either(f + g + h + e + w + d + a, c, x);
        in_either(f + g + h + e + w + d + a + c, k, x);
    }
    if s.command.len() > 0 {
        assert(f[0] == (Node::Text("command"@), Node::Text(s.command)));
    }
    if s.url.len() > 0 {
        assert(h[0] == (Node::Text("url"@), Node::Text(s.url)));
    }
    if s.defer is Some {
        assert(d[0] == (Node::Text("defer"@), Node::Text(s.defer->0)));
    }
    if s.auth == AuthMode::Oauth {
        assert(a[0] == (Node::Text("auth"@), Node::Text("oauth"@)));
    }
    if s.client_id.len() > 0 {
        assert(c[0] == (Node::Text("client_id"@), Node::Text(s.client_id)));
    }
    if s.client_secret.len() > 0 {
        assert(k[0] == (Node::Text("client_secret"@), Node::Text(s.client_secret)));
    }
}

// ---------------------------------------------------------------- what is mounted

/// The selected servers are mounted as they are declared, each under its name, in order, and those of the flags
/// behind them; a flag that could not be read mounts nothing at all.
pub proof fn servers_are_mounted_as_declared(
    r: Result<(Vec<ServerConfig>, Vec<DeferredGroup>), CliError>,
    selected: Map<Seq<char>, ServerView>,
    flags: Seq<Option<ServerConfig>>,
)
    requires
        mounts(r, selected, flags),
    ensures
        r is Ok == (forall|i: int| 0 <= i < flags.len() ==> #[trigger] flags[i] is Some),
        r matches Ok((configs, _)) ==> {
            let n = pairs_of(selected).len() as int;
            &&& configs@.len() == n + flags.len()
            &&& forall|i: int| #![trigger configs@[i]]
                0 <= i < n ==> {
                    let c = configs@[i]@;
                    let (name, s) = pairs_of(selected)[i];
                    &&& c.name == name
                    &&& c.command == s.command && c.args == s.args && c.url == s.url
                    &&& c.env == s.env && c.headers == s.headers && c.auth == s.auth
                    &&& c.client_id == s.client_id && c.client_secret == s.client_secret
                }
            &&& forall|i: int| #![trigger flags[i]]
                0 <= i < flags.len() ==> configs@[n + i]@ == flags[i]->0@
        },
{
    if r is Ok {
        let configs = r->Ok_0.0;
        let n = pairs_of(selected).len() as int;
        let all = views(configs@);
        assert(all.len() == configs@.len());
        assert forall|i: int| 0 <= i < configs@.len() implies #[trigger] configs@[i]@ == all[i] by {}
        assert forall|i: int| #![trigger flags[i]]
            0 <= i < flags.len() implies configs@[n + i]@ == flags[i]->0@ by {
            assert(configs@[n + i]@ == all[n + i]);
        }
    }
}

/// A server defers its tools exactly where it has a summary, and its group is its name with that summary; an empty
/// summary is one warning.
pub proof fn servers_with_a_summary_are_deferred(name: Seq<char>, s: ServerView)
    ensures
        s.defer is None ==> group_of(name, s).len() == 0 && group_warning(name, s).len() == 0,
        s.defer is Some && trimmed(s.defer->0).len() > 0 ==> group_of(name, s).len() == 1
            && group_of(name, s)[0].name == name && group_of(name, s)[0].summary == trimmed(
            s.defer->0,
        ) && group_warning(name, s).len() == 0,
        s.defer is Some && trimmed(s.defer->0).len() == 0 ==> group_of(name, s).len() == 0
            && group_warning(name, s).len() == 1,
{
}

/// Every server with a summary has its group.
pub proof fn every_summary_is_a_group(pairs: Seq<(Seq<char>, ServerView)>, n: int, i: int)
    requires
        0 <= i < n <= pairs.len(),
        pairs[i].1.defer is Some,
        trimmed(pairs[i].1.defer->0).len() > 0,
    ensures
        exists|k: int|
            0 <= k < groups_of(pairs, n).len() && (#[trigger] groups_of(pairs, n)[k]).name
                == pairs[i].0 && groups_of(pairs, n)[k].summary == trimmed(pairs[i].1.defer->0),
    decreases n,
{
    let before = groups_of(pairs, n - 1);
    if i < n - 1 {
        every_summary_is_a_group(pairs, n - 1, i);
        let k = choose|k: int|
            0 <= k < before.len() && (#[trigger] before[k]).name == pairs[i].0 && before[k].summary
                == trimmed(pairs[i].1.defer->0);
        assert(groups_of(pairs, n)[k] == before[k]);
    } else {
        assert(groups_of(pairs, n)[before.len() as int].name == pairs[i].0);
    }
}

/// A mode that the provider's type speaks is used; any other falls back to the normal one with one warning; and
/// without a server, or without a deferred one, there is nothing to defer.
pub proof fn modes_are_used_where_they_are_spoken(
    raw: Seq<char>,
    kind: ProviderKind,
    catalog: Catalog,
    m: DeferMode,
    groups: nat,
)
    ensures
        defer_named(raw) == Some(m) && catalog.speaks(m, kind) ==> mode_for(raw, kind, catalog) == m
            && mode_warning(raw, kind, catalog).len() == 0,
        defer_named(raw) == Some(m) && !catalog.speaks(m, kind) ==> mode_for(raw, kind, catalog)
            == DeferMode::Normal && mode_warning(raw, kind, catalog).len() == 1,
        defer_named(raw) is None ==> mode_for(raw, kind, catalog) == DeferMode::Normal,
        mount_of(raw, kind, catalog, false, groups) is Absent,
        mount_of(raw, kind, catalog, true, 0) is Full,
        groups > 0 ==> mount_of(raw, kind, catalog, true, groups) == McpMount::Deferred(
            mode_for(raw, kind, catalog),
        ),
{
}

} // verus!
