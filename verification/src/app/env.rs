//! The process environment as ONE value: the variables, and the directories resolved at the edge of the
//! program.

use vstd::prelude::*;
use vstd::string::*;

use crate::app::{join_path, path_join, HostDirs, DOT_DIR};
use crate::map::{Duplicate, StrMap};
use crate::provider::opt_view;
use crate::text::{
    begins, chars_of, first_at, first_at_is, occurs, occurs_at, own, same, starts_with,
    text_of,
};

verus! {

/// The environment a run sees.
pub struct Env {
    /// The variables.
    pub vars: StrMap<String>,
    /// Process-level directories.
    pub dirs: HostDirs,
}

/// What an [`Env`] answers.
pub struct EnvView {
    pub vars: Map<Seq<char>, Seq<char>>,
    pub home: Option<Seq<char>>,
    pub cwd: Option<Seq<char>>,
    pub temp: Seq<char>,
    pub cache: Option<Seq<char>>,
}

impl View for Env {
    type V = EnvView;

    open spec fn view(&self) -> EnvView {
        EnvView {
            vars: self.vars@,
            home: opt_view(self.dirs.home),
            cwd: opt_view(self.dirs.cwd),
            temp: self.dirs.temp@,
            cache: opt_view(self.dirs.cache),
        }
    }
}

/// An environment of variables alone.
pub open spec fn bare_env(vars: Map<Seq<char>, Seq<char>>) -> EnvView {
    EnvView { vars, home: None, cwd: None, temp: Seq::empty(), cache: None }
}

/// The variable `name`; an empty one is unset.
pub open spec fn var_of(env: EnvView, name: Seq<char>) -> Option<Seq<char>> {
    if env.vars.contains_key(name) && env.vars[name].len() > 0 {
        Some(env.vars[name])
    } else {
        None
    }
}

/// The variables of a list of pairs, a later pair replacing an earlier one of the same name.
pub open spec fn vars_of(pairs: Seq<(&str, &str)>) -> Map<Seq<char>, Seq<char>>
    decreases pairs.len(),
{
    if pairs.len() == 0 {
        Map::empty()
    } else {
        vars_of(pairs.drop_last()).insert(pairs.last().0@, pairs.last().1@)
    }
}

impl Default for Env {
    /// No variables, no directories.
    fn default() -> (r: Env)
        ensures
            r@ == bare_env(Map::empty()),
    {
        let r = Env { vars: StrMap::new(), dirs: HostDirs::default() };
        assert(r@.temp =~= Seq::<char>::empty());
        r
    }
}

impl Env {
    /// An environment of `vars` over `dirs`.
    pub fn from_vars(vars: StrMap<String>, dirs: HostDirs) -> (r: Env)
        ensures
            r.vars == vars,
            r.dirs == dirs,
    {
        Env { vars, dirs }
    }

    /// A fixed environment: exactly `vars`, over default (empty) directories.
    pub fn fixed(vars: &[(&str, &str)]) -> (r: Env)
        ensures
            r@ == bare_env(vars_of(vars@)),
    {
        let mut map: StrMap<String> = StrMap::new();
        for i in 0..vars.len()
            invariant
                map@ == vars_of(vars@.take(i as int)),
        {
            assert(vars@.take(i + 1).drop_last() =~= vars@.take(i as int));
            map.insert(own(vars[i].0), own(vars[i].1));
        }
        assert(vars@.take(vars@.len() as int) =~= vars@);
        let r = Env { vars: map, dirs: HostDirs::default() };
        assert(r@.temp =~= Seq::<char>::empty());
        r
    }

    /// The same variables over `dirs`.
    pub fn with_dirs(self, dirs: HostDirs) -> (r: Env)
        ensures
            r.vars == self.vars,
            r.dirs == dirs,
    {
        Env { vars: self.vars, dirs }
    }

    /// The variable `name`, or `None` when unset OR empty.
    pub fn var(&self, name: &str) -> (r: Option<String>)
        ensures
            opt_view(r) == var_of(self@, name@),
    {
        match self.vars.get(name) {
            Some(v) => if v.as_str().is_empty() {
                None
            } else {
                Some(v.clone())
            },
            None => None,
        }
    }

    /// The working directory, if known.
    pub fn cwd(&self) -> (r: Option<String>)
        ensures
            opt_view(r) == self@.cwd,
    {
        self.dirs.cwd.clone()
    }

    /// The home directory, if known.
    pub fn home(&self) -> (r: Option<String>)
        ensures
            opt_view(r) == self@.home,
    {
        self.dirs.home.clone()
    }

    /// A copy of the environment.
    pub fn copy(&self) -> (r: Env)
        ensures
            r@ == self@,
            r.dirs == self.dirs,
    {
        Env { vars: self.vars.duplicate(), dirs: self.dirs.copy() }
    }
}

/// The value of one variable name; `None` when the name is unknown or its lookup failed.
pub open spec fn value_of(name: Seq<char>, env: EnvView) -> Option<Seq<char>> {
    if begins(name, "env:"@) {
        match var_of(env, name.skip(4)) {
            Some(v) => Some(v),
            None => Some(Seq::empty()),
        }
    } else if name == "workspaceFolder"@ || name == "cwd"@ {
        env.cwd
    } else if name == "userHome"@ {
        env.home
    } else if name == "appHome"@ {
        match env.home {
            Some(h) => Some(path_join(h, DOT_DIR@)),
            None => None,
        }
    } else if name == "pathSeparator"@ || name == "/"@ {
        Some("/"@)
    } else {
        None
    }
}

/// `s` with every `${name}` replaced by its value, in a single pass: a value is not looked at again, `${}` and
/// an opener without a `}` are text, and a name without a value stays as it is written.
pub open spec fn expanded(s: Seq<char>, env: EnvView) -> Seq<char>
    decreases s.len(),
{
    if s.len() == 0 {
        s
    } else if s.len() >= 2 && s[0] == '$' && s[1] == '{' {
        let after = s.skip(2);
        let end = first_at(after, '}');
        if 0 < end < after.len() {
            let value = match value_of(after.take(end), env) {
                Some(v) => v,
                None => s.take(end + 3),
            };
            value + expanded(after.skip(end + 1), env)
        } else {
            s.take(2) + expanded(after, env)
        }
    } else {
        s.take(1) + expanded(s.skip(1), env)
    }
}

/// The value of one variable name, or `None` when the name is unknown or its lookup failed.
fn resolve(name: &str, env: &Env) -> (r: Option<String>)
    ensures
        opt_view(r) == value_of(name@, env@),
{
    if starts_with(name, "env:") {
        let v: Vec<char> = chars_of(name);
        proof {
            reveal_strlit("env:");
        }
        let var: String = text_of(&v, 4, v.len());
        assert(var@ =~= name@.skip(4));
        return match env.var(var.as_str()) {
            Some(value) => Some(value),
            None => Some(String::new()),
        };
    }
    if same(name, "workspaceFolder") || same(name, "cwd") {
        return env.cwd();
    }
    if same(name, "userHome") {
        return env.home();
    }
    if same(name, "appHome") {
        return match &env.dirs.home {
            Some(h) => Some(join_path(h.as_str(), DOT_DIR)),
            None => None,
        };
    }
    if same(name, "pathSeparator") || same(name, "/") {
        return Some(own("/"));
    }
    None
}

/// `s` with every `${name}` replaced by its value, in a single pass.
pub fn expand(s: &str, env: &Env) -> (r: String)
    ensures
        r@ == expanded(s@, env@),
{
    let v: Vec<char> = chars_of(s);
    let n: usize = v.len();
    let mut out: String = String::new();
    let mut i: usize = 0;
    assert(v@.skip(0) =~= s@);
    assert(out@ + expanded(v@.skip(0), env@) =~= expanded(s@, env@));
    while i < n
        invariant
            i <= n == v.len(),
            v@ == s@,
            out@ + expanded(v@.skip(i as int), env@) == expanded(s@, env@),
        decreases n - i,
    {
        let ghost rest = v@.skip(i as int);
        let ghost was = out@;
        if n - i >= 2 && v[i] == '$' && v[i + 1] == '{' {
            let start: usize = i + 2;
            let mut k: usize = start;
            let ghost after = rest.skip(2);
            while k < n && v[k] != '}'
                invariant
                    start <= k <= n == v.len(),
                    after == v@.skip(start as int),
                    forall|j: int| 0 <= j < k - start ==> after[j] != '}',
                ensures
                    start <= k <= n,
                    forall|j: int| 0 <= j < k - start ==> after[j] != '}',
                    k < n ==> v@[k as int] == '}',
                decreases n - k,
            {
                k += 1;
            }
            assert(after =~= v@.skip(start as int));
            proof {
                first_at_is(after, '}', k - start);
            }
            if k < n && k > start {
                let name: String = text_of(&v, start, k);
                assert(name@ =~= after.take(k - start));
                match resolve(name.as_str(), env) {
                    Some(value) => out.append(value.as_str()),
                    None => {
                        let kept: String = text_of(&v, i, k + 1);
                        assert(kept@ =~= rest.take(k - start + 3));
                        out.append(kept.as_str());
                    },
                }
                assert(after.skip(k - start + 1) =~= v@.skip(k + 1));
                let ghost piece = out@.skip(was.len() as int);
                assert(out@ =~= was + piece);
                assert(was + (piece + expanded(v@.skip(k + 1), env@)) =~= out@ + expanded(
                    v@.skip(k + 1),
                    env@,
                ));
                i = k + 1;
            } else {
                out.push('$');
                out.push('{');
                assert(out@ =~= was + rest.take(2));
                assert(was + (rest.take(2) + expanded(after, env@)) =~= out@ + expanded(
                    v@.skip(start as int),
                    env@,
                ));
                i = start;
            }
        } else {
            out.push(v[i]);
            assert(out@ =~= was + rest.take(1));
            assert(rest.skip(1) =~= v@.skip(i + 1));
            assert(was + (rest.take(1) + expanded(rest.skip(1), env@)) =~= out@ + expanded(
                v@.skip(i + 1),
                env@,
            ));
            i += 1;
        }
    }
    assert(v@.skip(n as int) =~= Seq::<char>::empty());
    assert(out@ =~= expanded(s@, env@));
    out
}

/// A text without `${` is its own expansion.
pub proof fn plain_text_stays(s: Seq<char>, env: EnvView)
    requires
        !occurs(s, "${"@),
    ensures
        expanded(s, env) == s,
    decreases s.len(),
{
    reveal_strlit("${");
    if s.len() > 0 {
        if s.len() >= 2 && s[0] == '$' && s[1] == '{' {
            assert(s.subrange(0, 2) =~= "${"@);
            assert(occurs_at(s, "${"@, 0));
        }
        let t = s.skip(1);
        assert(!occurs(t, "${"@)) by {
            if occurs(t, "${"@) {
                let i = choose|i: int| occurs_at(t, "${"@, i);
                assert(s.subrange(i + 1, i + 3) =~= t.subrange(i, i + 2));
                assert(occurs_at(s, "${"@, i + 1));
            }
        }
        plain_text_stays(t, env);
        assert(s.take(1) + t =~= s);
    }
}

} // verus!
