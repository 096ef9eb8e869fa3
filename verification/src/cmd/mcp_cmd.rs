//! `iota mcp add|list|get|remove|login|logout` — the MCP servers a config declares, edited from the command
//! line.
//!
//! Two scopes: the user's file and the project's, or one file given by name. Each command touches ONE file and
//! only its block; a project file is shared, so a value written there must be a reference, never the secret.

use vstd::prelude::*;
use vstd::string::*;

use crate::app::{join_path, path_join, CONFIG_BASE};
use crate::cmd::args::{McpAddCmd, McpAuthArg, McpListScope, McpScope};
use crate::cmd::error::{ArgsError, CliError, SetupError};
use crate::config::edit::{rewrite_mcp_servers, rewritten, EditError, FileServers};
use crate::config::server::{blank_server, AuthMode, McpServerConfig, ServerView};
use crate::config::DEFAULT_AGENT;
use crate::map::{pairs_of, Duplicate, StrMap};
use crate::provider::opt_view;
use crate::text::{
    alnum, begins, chars_of, contains, copy_strs, first_at, holds, is_alnum, occurs, own, split_once,
    starts_with, strs, trim, trimmed,
};

verus! {

// ---------------------------------------------------------------- add: the entry

/// A character of a server name.
pub open spec fn is_name_char(c: char) -> bool {
    is_alnum(c) || c == '_' || c == '-' || c == '.'
}

/// Letters, digits, `_`, `-` and `.`, at least one.
pub open spec fn is_server_name(s: Seq<char>) -> bool {
    s.len() > 0 && forall|i: int| 0 <= i < s.len() ==> is_name_char(#[trigger] s[i])
}

/// Whether a server name is a plain word.
pub fn check_name(name: &str) -> (r: Result<(), ArgsError>)
    ensures
        match r {
            Ok(_) => is_server_name(name@),
            Err(ArgsError::McpName(n)) => !is_server_name(name@) && n@ == name@,
            Err(_) => false,
        },
{
    let v: Vec<char> = chars_of(name);
    if v.len() == 0 {
        return Err(ArgsError::McpName(own(name)));
    }
    for i in 0..v.len()
        invariant
            v@ == name@,
            forall|k: int| 0 <= k < i ==> is_name_char(#[trigger] v@[k]),
    {
        let c: char = v[i];
        if !(alnum(c) || c == '_' || c == '-' || c == '.') {
            assert(!is_name_char(name@[i as int]));
            return Err(ArgsError::McpName(own(name)));
        }
    }
    Ok(())
}

/// What is wrong with the flags of an addition.
pub enum AddFault {
    Target(Seq<char>),
    UrlScheme(Seq<char>),
    Flag(Seq<char>, Seq<char>),
    BadHeader(Seq<char>),
    SecretEnv(Seq<char>),
    BadEnv(Seq<char>),
}

/// Whether an error is a fault.
pub open spec fn is_fault(e: ArgsError, f: AddFault) -> bool {
    match f {
        AddFault::Target(w) => e matches ArgsError::McpAddTarget(x) && x@ == w,
        AddFault::UrlScheme(u) => e matches ArgsError::McpUrlScheme(x) && x@ == u,
        AddFault::Flag(a, b) => e matches ArgsError::McpAddFlag { flag, form } && flag@ == a
            && form@ == b,
        AddFault::BadHeader(h) => e matches ArgsError::McpBadHeader(x) && x@ == h,
        AddFault::SecretEnv(v) => e matches ArgsError::McpClientSecretEnv(x) && x@ == v,
        AddFault::BadEnv(v) => e matches ArgsError::McpBadEnv(x) && x@ == v,
    }
}

/// A `Name: value` header: both sides trimmed, the name not empty.
pub open spec fn header_of(raw: Seq<char>) -> Option<(Seq<char>, Seq<char>)> {
    let k = first_at(raw, ':');
    let name = trimmed(raw.take(k));
    if k < raw.len() && name.len() > 0 {
        Some((name, trimmed(raw.skip(k + 1))))
    } else {
        None
    }
}

/// A `NAME=value` assignment: the name trimmed and not empty, the value as it is.
pub open spec fn assignment_of(raw: Seq<char>) -> Option<(Seq<char>, Seq<char>)> {
    let k = first_at(raw, '=');
    let name = trimmed(raw.take(k));
    if k < raw.len() && name.len() > 0 {
        Some((name, raw.skip(k + 1)))
    } else {
        None
    }
}

/// One pair of a list of flags; `headers` says which sort.
pub open spec fn pair_of(raw: Seq<char>, headers: bool) -> Option<(Seq<char>, Seq<char>)> {
    if headers {
        header_of(raw)
    } else {
        assignment_of(raw)
    }
}

/// The first flag from `i` on that is no pair.
pub open spec fn first_bad_pair(raws: Seq<Seq<char>>, headers: bool, i: int) -> Option<Seq<char>>
    decreases raws.len() - i,
{
    if i < 0 || i >= raws.len() {
        None
    } else if pair_of(raws[i], headers) is None {
        Some(raws[i])
    } else {
        first_bad_pair(raws, headers, i + 1)
    }
}

/// The pairs of a list of flags, a later one replacing an earlier one of the same name.
pub open spec fn pairs_in(raws: Seq<Seq<char>>, headers: bool) -> Map<Seq<char>, Seq<char>>
    decreases raws.len(),
{
    if raws.len() == 0 {
        Map::empty()
    } else {
        let p = pair_of(raws.last(), headers)->0;
        pairs_in(raws.drop_last(), headers).insert(p.0, p.1)
    }
}

/// The name of an environment variable: letters, digits and `_`, at least one.
pub open spec fn is_variable(s: Seq<char>) -> bool {
    s.len() > 0 && forall|i: int| 0 <= i < s.len() ==> is_alnum(#[trigger] s[i]) || s[i] == '_'
}

/// Whether an addition describes a client.
pub open spec fn describes_client(add: McpAddCmd) -> bool {
    add.client_id is Some || add.client_secret_env is Some
}

/// What the flags of an endpoint describe.
pub open spec fn url_entry(add: McpAddCmd, url: Seq<char>) -> Result<ServerView, AddFault> {
    let oauth = add.auth == Some(McpAuthArg::Oauth);
    let bad_header = first_bad_pair(strs(add.headers@), true, 0);
    if !(begins(url, "http://"@) || begins(url, "https://"@)) {
        Err(AddFault::UrlScheme(url))
    } else if add.env@.len() > 0 {
        Err(AddFault::Flag("-e/--env"@, "command"@))
    } else if bad_header is Some {
        Err(AddFault::BadHeader(bad_header->0))
    } else if !oauth && describes_client(add) {
        Err(AddFault::Flag("--client-id"@, "--auth oauth"@))
    } else if add.client_secret_env is Some && (add.client_id is None || !is_variable(
        add.client_secret_env->0@,
    )) {
        Err(AddFault::SecretEnv(add.client_secret_env->0@))
    } else {
        Ok(
            ServerView {
                url,
                headers: pairs_in(strs(add.headers@), true),
                defer: opt_view(add.defer),
                auth: if oauth {
                    AuthMode::Oauth
                } else {
                    AuthMode::Unset
                },
                client_id: match add.client_id {
                    Some(id) => id@,
                    None => Seq::empty(),
                },
                client_secret: match add.client_secret_env {
                    Some(var) => "${env:"@ + var@ + "}"@,
                    None => Seq::empty(),
                },
                ..blank_server()
            },
        )
    }
}

/// What the flags of a command describe.
pub open spec fn command_entry(add: McpAddCmd) -> Result<ServerView, AddFault> {
    let bad_env = first_bad_pair(strs(add.env@), false, 0);
    if add.headers@.len() > 0 {
        Err(AddFault::Flag("--header"@, "--url"@))
    } else if add.auth is Some {
        Err(AddFault::Flag("--auth"@, "--url"@))
    } else if describes_client(add) {
        Err(AddFault::Flag("--client-id"@, "--url"@))
    } else if bad_env is Some {
        Err(AddFault::BadEnv(bad_env->0))
    } else {
        Ok(
            ServerView {
                command: add.command@[0]@,
                args: strs(add.command@).drop_first(),
                env: pairs_in(strs(add.env@), false),
                defer: opt_view(add.defer),
                ..blank_server()
            },
        )
    }
}

/// The entry that the flags of an addition describe: exactly one of the two forms, each with the flags that
/// apply to it.
pub open spec fn described(add: McpAddCmd) -> Result<ServerView, AddFault> {
    match (add.url, add.command@.len() > 0) {
        (Some(_), true) => Err(AddFault::Target("both"@)),
        (None, false) => Err(AddFault::Target("neither"@)),
        (Some(url), false) => url_entry(add, url@),
        (None, true) => command_entry(add),
    }
}

/// One pair of a list of flags.
fn read_pair(raw: &str, headers: bool) -> (r: Option<(String, String)>)
    ensures
        match r {
            Some((a, b)) => pair_of(raw@, headers) == Some((a@, b@)),
            None => pair_of(raw@, headers) is None,
        },
{
    let sep: char = if headers {
        ':'
    } else {
        '='
    };
    match split_once(raw, sep) {
        None => None,
        Some((left, right)) => {
            let name: String = trim(left.as_str());
            if name.as_str().is_empty() {
                return None;
            }
            let value: String = if headers {
                trim(right.as_str())
            } else {
                right
            };
            Some((name, value))
        },
    }
}

/// The pairs of a list of flags, or the first that is none.
fn read_pairs(raws: &Vec<String>, headers: bool) -> (r: Result<StrMap<String>, String>)
    ensures
        match first_bad_pair(strs(raws@), headers, 0) {
            Some(bad) => r matches Err(b) && b@ == bad,
            None => r matches Ok(m) && m@ == pairs_in(strs(raws@), headers),
        },
{
    let ghost all = strs(raws@);
    let mut m: StrMap<String> = StrMap::new();
    assert(all.take(0) =~= Seq::<Seq<char>>::empty());
    for i in 0..raws.len()
        invariant
            all == strs(raws@),
            first_bad_pair(all, headers, 0) == first_bad_pair(all, headers, i as int),
            m@ == pairs_in(all.take(i as int), headers),
    {
        assert(all[i as int] == raws@[i as int]@);
        match read_pair(raws[i].as_str(), headers) {
            None => return Err(raws[i].clone()),
            Some((name, value)) => {
                assert(all.take(i + 1).drop_last() =~= all.take(i as int));
                m.insert(name, value);
            },
        }
    }
    assert(all.take(all.len() as int) =~= all);
    Ok(m)
}

/// Whether a text is the name of an environment variable.
fn variable(s: &str) -> (r: bool)
    ensures
        r == is_variable(s@),
{
    let v: Vec<char> = chars_of(s);
    for i in 0..v.len()
        invariant
            v@ == s@,
            forall|k: int| 0 <= k < i ==> is_alnum(#[trigger] v@[k]) || v@[k] == '_',
    {
        if !(alnum(v[i]) || v[i] == '_') {
            assert(!(is_alnum(s@[i as int]) || s@[i as int] == '_'));
            return false;
        }
    }
    v.len() > 0
}

/// The entry that the flags of an endpoint describe.
fn entry_of_url(add: &McpAddCmd, url: &String) -> (r: Result<McpServerConfig, ArgsError>)
    ensures
        match url_entry(*add, url@) {
            Ok(v) => r matches Ok(e) && e@ == v,
            Err(f) => r matches Err(e) && is_fault(e, f),
        },
{
    if !(starts_with(url.as_str(), "http://") || starts_with(url.as_str(), "https://")) {
        return Err(ArgsError::McpUrlScheme(url.clone()));
    }
    if add.env.len() > 0 {
        return Err(ArgsError::McpAddFlag { flag: "-e/--env", form: "command" });
    }
    let headers: StrMap<String> = match read_pairs(&add.headers, true) {
        Ok(m) => m,
        Err(raw) => return Err(ArgsError::McpBadHeader(raw)),
    };
    let oauth = match add.auth {
        Some(McpAuthArg::Oauth) => true,
        _ => false,
    };
    if !oauth && (add.client_id.is_some() || add.client_secret_env.is_some()) {
        return Err(ArgsError::McpAddFlag { flag: "--client-id", form: "--auth oauth" });
    }
    let mut entry: McpServerConfig = McpServerConfig::default();
    entry.defer = add.defer.clone();
    entry.url = url.clone();
    entry.headers = headers;
    if oauth {
        entry.auth = AuthMode::Oauth;
    }
    if let Some(id) = &add.client_id {
        entry.client_id = id.clone();
    }
    if let Some(var) = &add.client_secret_env {
        if add.client_id.is_none() || !variable(var.as_str()) {
            return Err(ArgsError::McpClientSecretEnv(var.clone()));
        }
        let mut secret: String = own("${env:");
        secret.append(var.as_str());
        secret.append("}");
        entry.client_secret = secret;
    }
    Ok(entry)
}

/// The entry that the flags of a command describe.
fn entry_of_command(add: &McpAddCmd) -> (r: Result<McpServerConfig, ArgsError>)
    requires
        add.command@.len() > 0,
    ensures
        match command_entry(*add) {
            Ok(v) => r matches Ok(e) && e@ == v,
            Err(f) => r matches Err(e) && is_fault(e, f),
        },
{
    if add.headers.len() > 0 {
        return Err(ArgsError::McpAddFlag { flag: "--header", form: "--url" });
    }
    if add.auth.is_some() {
        return Err(ArgsError::McpAddFlag { flag: "--auth", form: "--url" });
    }
    if add.client_id.is_some() || add.client_secret_env.is_some() {
        return Err(ArgsError::McpAddFlag { flag: "--client-id", form: "--url" });
    }
    let env: StrMap<String> = match read_pairs(&add.env, false) {
        Ok(m) => m,
        Err(raw) => return Err(ArgsError::McpBadEnv(raw)),
    };
    let mut args: Vec<String> = copy_strs(&add.command);
    assert(strs(args@).len() == args@.len());
    let command: String = args.remove(0);
    assert(command@ == strs(add.command@)[0]);
    assert(strs(args@) =~= strs(add.command@).drop_first());
    let mut entry: McpServerConfig = McpServerConfig::default();
    entry.defer = add.defer.clone();
    entry.command = command;
    entry.args = args;
    entry.env = env;
    Ok(entry)
}

/// The entry that the flags of an addition describe.
pub fn entry_of(add: &McpAddCmd) -> (r: Result<McpServerConfig, ArgsError>)
    ensures
        match described(*add) {
            Ok(v) => r matches Ok(e) && e@ == v,
            Err(f) => r matches Err(e) && is_fault(e, f),
        },
{
    match (&add.url, add.command.len() > 0) {
        (Some(_), true) => Err(ArgsError::McpAddTarget("both")),
        (None, false) => Err(ArgsError::McpAddTarget("neither")),
        (Some(url), false) => entry_of_url(add, url),
        (None, true) => entry_of_command(add),
    }
}

/// An entry that was described has exactly one transport: a command or a URL.
pub proof fn described_entries_have_one_transport(add: McpAddCmd)
    ensures
        described(add) matches Ok(s) ==> {
            &&& s.url.len() > 0 ==> s.command.len() == 0 && s.args.len() == 0 && s.env
                == Map::<Seq<char>, Seq<char>>::empty()
            &&& add.url is None ==> s.url.len() == 0 && s.auth == AuthMode::Unset && s.headers
                == Map::<Seq<char>, Seq<char>>::empty()
        },
{
}

// ---------------------------------------------------------------- scopes and files

/// The tiers: the home and the working directory, and the config file found in each.
pub struct Tiers {
    pub home: Option<String>,
    pub cwd: Option<String>,
    /// The file found in the home directory.
    pub home_file: Option<String>,
    /// The file found in the working directory.
    pub cwd_file: Option<String>,
    /// Why the working directory is unknown, when it is.
    pub cwd_error: String,
}

/// The file a scope writes: the one found there, else a new one in the directory.
pub open spec fn scope_path(found: Option<Seq<char>>, dir: Seq<char>) -> Seq<char> {
    match found {
        Some(f) => f,
        None => path_join(dir, CONFIG_BASE@ + ".yaml"@),
    }
}

/// The file a scope writes, when its directory is known.
pub open spec fn file_of_scope(scope: McpScope, t: Tiers) -> Option<Seq<char>> {
    match scope {
        McpScope::User => match t.home {
            Some(dir) => Some(scope_path(opt_view(t.home_file), dir@)),
            None => None,
        },
        McpScope::Project => match t.cwd {
            Some(dir) => Some(scope_path(opt_view(t.cwd_file), dir@)),
            None => None,
        },
    }
}

/// The file found in a directory, else a new one there.
fn found_or_new(found: &Option<String>, dir: &str) -> (r: String)
    ensures
        r@ == scope_path(opt_view(*found), dir@),
{
    match found {
        Some(f) => f.clone(),
        None => {
            let mut name: String = own(CONFIG_BASE);
            name.append(".yaml");
            join_path(dir, name.as_str())
        },
    }
}

/// The file a scope writes.
pub fn scope_file(scope: McpScope, t: &Tiers) -> (r: Result<String, SetupError>)
    ensures
        match file_of_scope(scope, *t) {
            Some(f) => r matches Ok(x) && x@ == f,
            None => match scope {
                McpScope::User => r matches Err(e) && e is NoHome,
                McpScope::Project => r matches Err(SetupError::Cwd(m)) && m@ == t.cwd_error@,
            },
        },
{
    match scope {
        McpScope::User => match &t.home {
            Some(dir) => Ok(found_or_new(&t.home_file, dir.as_str())),
            None => Err(SetupError::NoHome),
        },
        McpScope::Project => match &t.cwd {
            Some(dir) => Ok(found_or_new(&t.cwd_file, dir.as_str())),
            None => Err(SetupError::Cwd(t.cwd_error.clone())),
        },
    }
}

/// The scope that was given, or the default.
pub open spec fn scope_or(scope: Option<McpScope>, default: McpScope) -> McpScope {
    match scope {
        Some(s) => s,
        None => default,
    }
}

/// The one file a writing command targets: the one given by name alone, else that of the scope.
pub fn target_file(
    explicit: &Option<String>,
    scope: Option<McpScope>,
    default: McpScope,
    t: &Tiers,
) -> (r: Result<String, CliError>)
    ensures
        match (*explicit, scope) {
            (Some(_), Some(_)) => r matches Err(CliError::Args(ArgsError::McpScopeWithConfig)),
            (Some(path), None) => r matches Ok(f) && f@ == path@,
            (None, _) => match file_of_scope(scope_or(scope, default), *t) {
                Some(f) => r matches Ok(x) && x@ == f,
                None => match scope_or(scope, default) {
                    McpScope::User => r matches Err(CliError::Setup(SetupError::NoHome)),
                    McpScope::Project => r matches Err(CliError::Setup(SetupError::Cwd(m))) && m@
                        == t.cwd_error@,
                },
            },
        },
{
    match (explicit, scope) {
        (Some(_), Some(_)) => Err(CliError::Args(ArgsError::McpScopeWithConfig)),
        (Some(path), None) => Ok(path.clone()),
        (None, _) => {
            let s: McpScope = match scope {
                Some(s) => s,
                None => default,
            };
            match scope_file(s, t) {
                Ok(f) => Ok(f),
                Err(e) => Err(CliError::Setup(e)),
            }
        },
    }
}

/// A list of at most one file.
pub open spec fn file_list(f: Option<Seq<char>>, wanted: bool) -> Seq<Seq<char>> {
    match f {
        Some(x) => if wanted {
            seq![x]
        } else {
            Seq::empty()
        },
        None => Seq::empty(),
    }
}

/// Every file a reading command looks at, in merge order.
pub open spec fn sources(explicit: Option<Seq<char>>, scope: Option<McpScope>, t: Tiers) -> Seq<
    Seq<char>,
> {
    match explicit {
        Some(path) => seq![path],
        None => file_list(opt_view(t.home_file), scope != Some(McpScope::Project)) + file_list(
            opt_view(t.cwd_file),
            scope != Some(McpScope::User),
        ),
    }
}

/// Every file a reading command looks at, in merge order: the one given by name alone, else the user's and the
/// project's — filtered to one of them by `scope`.
pub fn source_files(explicit: &Option<String>, scope: Option<McpScope>, t: &Tiers) -> (r: Vec<
    String,
>)
    ensures
        strs(r@) == sources(opt_view(*explicit), scope, *t),
{
    let mut r: Vec<String> = Vec::new();
    if let Some(path) = explicit {
        r.push(path.clone());
        assert(strs(r@) =~= seq![path@]);
        return r;
    }
    let (user, project) = match scope {
        None => (true, true),
        Some(McpScope::User) => (true, false),
        Some(McpScope::Project) => (false, true),
    };
    if user {
        if let Some(f) = &t.home_file {
            r.push(f.clone());
        }
    }
    if project {
        if let Some(f) = &t.cwd_file {
            r.push(f.clone());
        }
    }
    assert(strs(r@) =~= sources(opt_view(*explicit), scope, *t));
    r
}

/// The scope a listing reads; `None` reads both.
pub fn list_scope(scope: Option<McpListScope>) -> (r: Option<McpScope>)
    ensures
        r == match scope {
            Some(McpListScope::User) => Some(McpScope::User),
            Some(McpListScope::Project) => Some(McpScope::Project),
            _ => None,
        },
{
    match scope {
        Some(McpListScope::User) => Some(McpScope::User),
        Some(McpListScope::Project) => Some(McpScope::Project),
        _ => None,
    }
}

/// The files a listing reads. A scope beside a file given by name is refused.
pub fn list_files(explicit: &Option<String>, scope: Option<McpListScope>, t: &Tiers) -> (r: Result<
    Vec<String>,
    CliError,
>)
    ensures
        if explicit is Some && scope is Some {
            r matches Err(CliError::Args(ArgsError::McpScopeWithConfig))
        } else {
            r matches Ok(files) && strs(files@) == sources(
                opt_view(*explicit),
                match scope {
                    Some(McpListScope::User) => Some(McpScope::User),
                    Some(McpListScope::Project) => Some(McpScope::Project),
                    _ => None,
                },
                *t,
            )
        },
{
    if explicit.is_some() && scope.is_some() {
        return Err(CliError::Args(ArgsError::McpScopeWithConfig));
    }
    Ok(source_files(explicit, list_scope(scope), t))
}

/// The files a removal reads. A scope beside a file given by name is refused.
pub fn remove_files(explicit: &Option<String>, scope: Option<McpScope>, t: &Tiers) -> (r: Result<
    Vec<String>,
    CliError,
>)
    ensures
        if explicit is Some && scope is Some {
            r matches Err(CliError::Args(ArgsError::McpScopeWithConfig))
        } else {
            r matches Ok(files) && strs(files@) == sources(opt_view(*explicit), scope, *t)
        },
{
    if explicit.is_some() && scope.is_some() {
        return Err(CliError::Args(ArgsError::McpScopeWithConfig));
    }
    Ok(source_files(explicit, scope, t))
}

// ---------------------------------------------------------------- add: the file

/// The place of the first value from `i` on that is no reference.
pub open spec fn first_secret(
    lead: Seq<char>,
    pairs: Seq<(Seq<char>, Seq<char>)>,
    i: int,
) -> Option<Seq<char>>
    decreases pairs.len() - i,
{
    if i < 0 || i >= pairs.len() {
        None
    } else if !occurs(pairs[i].1, "${"@) {
        Some(lead + pairs[i].0)
    } else {
        first_secret(lead, pairs, i + 1)
    }
}

/// The place of the first value of an entry that is no reference: its headers, then its environment.
pub open spec fn secret_in(s: ServerView) -> Option<Seq<char>> {
    let h = first_secret("headers."@, pairs_of(s.headers), 0);
    if h is Some {
        h
    } else {
        first_secret("env."@, pairs_of(s.env), 0)
    }
}

/// The place of the first value of a map that is no reference.
fn find_secret(lead: &str, m: &StrMap<String>) -> (r: Option<String>)
    ensures
        opt_view(r) == first_secret(lead@, pairs_of(m@), 0),
{
    let n: usize = m.len();
    let ghost pairs = m.pairs();
    for i in 0..n
        invariant
            n == pairs.len(),
            pairs == m.pairs(),
            pairs == pairs_of(m@),
            first_secret(lead@, pairs, 0) == first_secret(lead@, pairs, i as int),
    {
        if !contains(m.value_at(i).as_str(), "${") {
            let mut at: String = own(lead);
            at.append(m.key_at(i).as_str());
            return Some(at);
        }
    }
    None
}

/// How an addition is prepared: the entry and the file it goes to, or the first thing that is wrong.
pub enum AddCase {
    BadName,
    Fault(AddFault),
    NoTarget,
    Secret(Seq<char>),
    Ready(ServerView, Seq<char>),
}

/// The file an addition targets.
pub open spec fn add_target(add: McpAddCmd, explicit: Option<String>, t: Tiers) -> Option<
    Seq<char>,
> {
    match (explicit, add.scope) {
        (Some(_), Some(_)) => None,
        (Some(path), None) => Some(path@),
        (None, _) => file_of_scope(scope_or(add.scope, McpScope::User), t),
    }
}

/// How an addition is prepared.
pub open spec fn add_case(add: McpAddCmd, explicit: Option<String>, t: Tiers) -> AddCase {
    if !is_server_name(add.name@) {
        AddCase::BadName
    } else {
        match described(add) {
            Err(f) => AddCase::Fault(f),
            Ok(s) => match add_target(add, explicit, t) {
                None => AddCase::NoTarget,
                Some(file) => if explicit is None && add.scope == Some(McpScope::Project)
                    && secret_in(s) is Some {
                    AddCase::Secret(secret_in(s)->0)
                } else {
                    AddCase::Ready(s, file)
                },
            },
        }
    }
}

/// Prepares an addition: the entry, and the file it goes to. What goes into the project's file names the
/// variable, never the secret.
pub fn prepare_add(add: &McpAddCmd, explicit: &Option<String>, t: &Tiers) -> (r: Result<
    (McpServerConfig, String),
    CliError,
>)
    ensures
        match add_case(*add, *explicit, *t) {
            AddCase::BadName => r matches Err(CliError::Args(ArgsError::McpName(n))) && n@
                == add.name@,
            AddCase::Fault(f) => r matches Err(CliError::Args(e)) && is_fault(e, f),
            AddCase::NoTarget => match (*explicit, add.scope) {
                (Some(_), _) => r matches Err(CliError::Args(ArgsError::McpScopeWithConfig)),
                (None, Some(McpScope::Project)) => r matches Err(
                    CliError::Setup(SetupError::Cwd(m)),
                ) && m@ == t.cwd_error@,
                (None, _) => r matches Err(CliError::Setup(SetupError::NoHome)),
            },
            AddCase::Secret(at) => r matches Err(CliError::Args(ArgsError::McpProjectSecret(a)))
                && a@ == at,
            AddCase::Ready(s, file) => r matches Ok((e, f)) && e@ == s && f@ == file,
        },
{
    if let Err(e) = check_name(add.name.as_str()) {
        return Err(CliError::Args(e));
    }
    let entry: McpServerConfig = match entry_of(add) {
        Ok(e) => e,
        Err(e) => return Err(CliError::Args(e)),
    };
    let file: String = match target_file(explicit, add.scope, McpScope::User, t) {
        Ok(f) => f,
        Err(e) => return Err(e),
    };
    let project = match add.scope {
        Some(McpScope::Project) => true,
        _ => false,
    };
    if explicit.is_none() && project {
        if let Some(at) = find_secret("headers.", &entry.headers) {
            return Err(CliError::Args(ArgsError::McpProjectSecret(at)));
        }
        if let Some(at) = find_secret("env.", &entry.env) {
            return Err(CliError::Args(ArgsError::McpProjectSecret(at)));
        }
    }
    Ok((entry, file))
}

/// The text of a file with one more server. A name that the file declares already is refused.
pub fn finish_add(name: &str, entry: &McpServerConfig, file: &str, read: FileServers) -> (r: Result<
    String,
    SetupError,
>)
    ensures
        if read.servers@.contains_key(name@) {
            r matches Err(SetupError::McpExists { name: n, file: f }) && n@ == name@ && f@ == file@
        } else {
            match rewritten(read.text@, read.servers@.insert(name@, entry@)) {
                Ok(text) => r matches Ok(t) && t@ == text,
                Err(e) => r matches Err(SetupError::McpEdit(EditError::Serialize(m))) && m@ == e,
            }
        },
{
    if read.servers.contains_key(name) {
        return Err(SetupError::McpExists { name: own(name), file: own(file) });
    }
    let mut servers: StrMap<McpServerConfig> = read.servers;
    servers.insert(own(name), entry.duplicate());
    match rewrite_mcp_servers(read.text.as_str(), &servers) {
        Ok(text) => Ok(text),
        Err(e) => Err(SetupError::McpEdit(e)),
    }
}

/// The text of a file without a server.
pub fn finish_remove(name: &str, read: FileServers) -> (r: Result<String, SetupError>)
    ensures
        match rewritten(read.text@, read.servers@.remove(name@)) {
            Ok(text) => r matches Ok(t) && t@ == text,
            Err(e) => r matches Err(SetupError::McpEdit(EditError::Serialize(m))) && m@ == e,
        },
{
    let mut servers: StrMap<McpServerConfig> = read.servers;
    let _ = servers.remove(name);
    match rewrite_mcp_servers(read.text.as_str(), &servers) {
        Ok(text) => Ok(text),
        Err(e) => Err(SetupError::McpEdit(e)),
    }
}

/// Adding a server and removing it again leaves the servers as they were.
pub proof fn add_then_remove(
    servers: Map<Seq<char>, ServerView>,
    name: Seq<char>,
    entry: ServerView,
)
    requires
        !servers.contains_key(name),
    ensures
        servers.insert(name, entry).remove(name) == servers,
{
    assert(servers.insert(name, entry).remove(name) =~= servers);
}

/// The transport and the endpoint of an entry.
pub open spec fn description(s: ServerView) -> Seq<char> {
    if s.url.len() == 0 {
        "stdio: "@ + command_line(s.command, s.args)
    } else {
        "http: "@ + s.url
    }
}

/// A command with its arguments.
pub open spec fn command_line(command: Seq<char>, args: Seq<Seq<char>>) -> Seq<char>
    decreases args.len(),
{
    if args.len() == 0 {
        command
    } else {
        command_line(command, args.drop_last()) + " "@ + args.last()
    }
}

/// `stdio: <command line>` or `http: <url>`.
pub fn describe(entry: &McpServerConfig) -> (r: String)
    ensures
        r@ == description(entry@),
{
    if !entry.url.as_str().is_empty() {
        let mut r: String = own("http: ");
        r.append(entry.url.as_str());
        return r;
    }
    let ghost all = strs(entry.args@);
    let mut line: String = entry.command.clone();
    assert(all.take(0) =~= Seq::<Seq<char>>::empty());
    for i in 0..entry.args.len()
        invariant
            all == strs(entry.args@),
            line@ == command_line(entry.command@, all.take(i as int)),
    {
        assert(all.take(i + 1).drop_last() =~= all.take(i as int));
        assert(all.take(i + 1).last() == entry.args@[i as int]@);
        line.append(" ");
        line.append(entry.args[i].as_str());
    }
    assert(all.take(all.len() as int) =~= all);
    let mut r: String = own("stdio: ");
    r.append(line.as_str());
    r
}

/// The transport of an entry.
pub open spec fn transport_of(s: ServerView) -> Seq<char> {
    if s.url.len() == 0 {
        "stdio"@
    } else {
        "http"@
    }
}

/// The transport of an entry.
pub fn transport(entry: &McpServerConfig) -> (r: &'static str)
    ensures
        r@ == transport_of(entry@),
{
    if entry.url.as_str().is_empty() {
        "stdio"
    } else {
        "http"
    }
}

/// What an addition prints. `listed` are the servers that the default agent selects by name, when it does: a
/// new one that it does not list will never load, which is worth a line.
pub open spec fn added_lines(
    name: Seq<char>,
    s: ServerView,
    file: Seq<char>,
    listed: Option<Seq<Seq<char>>>,
) -> Seq<char> {
    let first = "Added "@ + name + " ("@ + description(s) + ") to "@ + file + "\n"@;
    let next = if s.auth == AuthMode::Oauth {
        "Next: iota mcp login "@ + name + "\n"@
    } else {
        Seq::empty()
    };
    let hint = match listed {
        Some(names) => if names.contains(name) {
            Seq::empty()
        } else {
            "agent "@ + DEFAULT_AGENT@ + " lists its servers explicitly; add "@ + name
                + " there to use it\n"@
        },
        None => Seq::empty(),
    };
    first + next + hint
}

/// The views of an optional list of texts.
pub open spec fn opt_list(o: Option<Vec<String>>) -> Option<Seq<Seq<char>>> {
    match o {
        Some(v) => Some(strs(v@)),
        None => None,
    }
}

/// What an addition prints.
pub fn added_text(
    name: &str,
    entry: &McpServerConfig,
    file: &str,
    listed: &Option<Vec<String>>,
) -> (r: String)
    ensures
        r@ == added_lines(name@, entry@, file@, opt_list(*listed)),
{
    let mut first: String = own("Added ");
    first.append(name);
    first.append(" (");
    first.append(describe(entry).as_str());
    first.append(") to ");
    first.append(file);
    first.append("\n");
    let mut next: String = String::new();
    if entry.auth == AuthMode::Oauth {
        next = own("Next: iota mcp login ");
        next.append(name);
        next.append("\n");
    }
    let mut hint: String = String::new();
    if let Some(names) = listed {
        if !holds(names, name) {
            hint = own("agent ");
            hint.append(DEFAULT_AGENT);
            hint.append(" lists its servers explicitly; add ");
            hint.append(name);
            hint.append(" there to use it\n");
        }
    }
    first.append(next.as_str());
    first.append(hint.as_str());
    assert(next@ =~= if entry@.auth == AuthMode::Oauth {
        "Next: iota mcp login "@ + name@ + "\n"@
    } else {
        Seq::empty()
    });
    first
}

} // verus!
