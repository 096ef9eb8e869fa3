//! What holds of the instructions a run is given: which directories are asked, which skills are taken, and how
//! the parts of the system message stand together.

use vstd::prelude::*;
use vstd::string::*;

use crate::agents::harness::{composed, environment_text, ConfigFiles, Environment, PREAMBLE};
use crate::agents::skills::{
    catalog, catalog_body, catalog_omitted, catalog_whole, checked_skill, described_skill, escaped,
    found_skill, frontmatter, is_named, kept_skills, lf_only, name_is_valid, past_newlines,
    roots_of, skipped_skills, source_tag, SkillErrorView, SkillFile, SkillView,
};
use crate::agents::{
    ancestors_of, chain_dirs, chain_text, opens_with_system, overlay_text, probed_paths,
    probed_stamps, refreshed, root_among, sent_history, FileProbe, Findings, OverlayView,
    AGENTS_CHAIN_CAP, AGENTS_TRUNCATION_MARK,
};
use crate::app::paths::parent_of;
use crate::app::path_join;
use crate::cmd::show_laws::stands_between;
use crate::laws::{
    a_file_is_under_its_directory, first_occurrences_are_first, is_plain,
    names_stand_in_their_directory, the_way_down_is_the_name,
};
use crate::message::MessageView;
use crate::size::bytes_in;
use crate::text::{begins, ends, first_occurrence, joined, occurs, occurs_at, strs};

verus! {

// ---------------------------------------------------------------- the project's directories

/// The ancestors of a directory begin with it, each is the parent of the one before, and the last has none.
pub proof fn ancestors_go_up(path: Seq<char>)
    ensures
        ({
            let up = ancestors_of(path);
            &&& up.len() > 0
            &&& up[0] == path
            &&& forall|i: int| 0 < i < up.len() ==> parent_of(up[i - 1]) == Some(#[trigger] up[i])
            &&& parent_of(up.last()) is None
        }),
    decreases path.len(),
{
    match parent_of(path) {
        None => {},
        Some(p) => {
            crate::app::paths::parent_is_shorter(path);
            ancestors_go_up(p);
            let up = ancestors_of(path);
            let rest = ancestors_of(p);
            assert forall|i: int| 0 < i < up.len() implies parent_of(up[i - 1]) == Some(
                #[trigger] up[i],
            ) by {
                assert(up[i] == rest[i - 1]);
                if i > 1 {
                    assert(up[i - 1] == rest[i - 2]);
                }
            }
            assert(up.last() == rest.last());
        },
    }
}

/// The root of a project is the nearest directory that is marked, and the directory itself where none is.
pub proof fn the_root_is_the_nearest_marked(
    path: Seq<char>,
    dirs: Seq<Seq<char>>,
    marked: Seq<bool>,
    from: int,
    k: int,
)
    requires
        0 <= from <= k <= dirs.len(),
        k <= marked.len(),
        forall|i: int| from <= i < k ==> !#[trigger] marked[i],
        k < dirs.len() ==> k < marked.len() && marked[k],
    ensures
        k < dirs.len() ==> root_among(path, dirs, marked, from) == dirs[k],
        k == dirs.len() ==> root_among(path, dirs, marked, from) == path,
    decreases k - from,
{
    if from < k {
        the_root_is_the_nearest_marked(path, dirs, marked, from + 1, k);
    }
}

/// The instructions of a project are looked for in its root first, then in the directory below it.
pub proof fn the_root_comes_first(root: Seq<char>, cwd: Seq<char>, name: Seq<char>)
    requires
        root.len() > 0,
        root.last() != '/',
        is_plain(name),
    ensures
        chain_dirs(root, root.push('/') + name) == seq![root, root.push('/') + name],
        chain_dirs(root, root) == seq![root],
        chain_dirs(root, cwd).len() > 0,
        chain_dirs(root, cwd)[0] == root,
{
    the_way_down_is_the_name(root, name);
    if name[0] == '/' {
        assert(name.contains(name[0]));
    }
    names_stand_in_their_directory(root, name);
    let parts = seq![name];
    assert(parts.drop_first() =~= Seq::<Seq<char>>::empty());
    assert(crate::agents::descended(root.push('/') + name, parts.drop_first()) =~= Seq::<
        Seq<char>,
    >::empty());
    assert(crate::agents::descended(root, parts) =~= seq![path_join(root, name)]);
    assert(chain_dirs(root, root.push('/') + name) =~= seq![root, root.push('/') + name]);
}

/// Every directory on the way down is the one before it joined with the next name.
pub proof fn each_directory_is_in_the_one_before(dir: Seq<char>, parts: Seq<Seq<char>>)
    ensures
        ({
            let dirs = seq![dir] + crate::agents::descended(dir, parts);
            &&& dirs.len() == parts.len() + 1
            &&& forall|i: int|
                0 < i < dirs.len() ==> #[trigger] dirs[i] == path_join(dirs[i - 1], parts[i - 1])
        }),
    decreases parts.len(),
{
    let dirs = seq![dir] + crate::agents::descended(dir, parts);
    if parts.len() > 0 {
        let next = path_join(dir, parts[0]);
        each_directory_is_in_the_one_before(next, parts.drop_first());
        let rest = seq![next] + crate::agents::descended(next, parts.drop_first());
        assert(dirs =~= seq![dir] + rest);
        assert forall|i: int| 0 < i < dirs.len() implies #[trigger] dirs[i] == path_join(
            dirs[i - 1],
            parts[i - 1],
        ) by {
            assert(dirs[i] == rest[i - 1]);
            if i > 1 {
                assert(dirs[i - 1] == rest[i - 2]);
                assert(parts.drop_first()[i - 2] == parts[i - 1]);
            }
        }
    }
}

// ---------------------------------------------------------------- the chain

/// A text without its trailing newlines is the text up to them.
pub proof fn only_newlines_are_dropped(s: Seq<char>)
    ensures
        ({
            let t = crate::config::edit::without_newlines(s);
            &&& t.len() <= s.len()
            &&& t == s.take(t.len() as int)
            &&& t.len() > 0 ==> t.last() != '\n'
            &&& forall|i: int| t.len() <= i < s.len() ==> #[trigger] s[i] == '\n'
        }),
    decreases s.len(),
{
    if s.len() > 0 && s.last() == '\n' {
        only_newlines_are_dropped(s.drop_last());
        let t = crate::config::edit::without_newlines(s);
        assert(t =~= s.take(t.len() as int));
        assert forall|i: int| t.len() <= i < s.len() implies #[trigger] s[i] == '\n' by {
            if i < s.len() - 1 {
                assert(s.drop_last()[i] == s[i]);
            }
        }
    } else {
        assert(s.take(s.len() as int) =~= s);
    }
}

/// The texts of the chain stand in the order of their files with a blank line between them; a chain too long is
/// a part of that from its start, which is said at its end.
pub proof fn the_chain_keeps_its_order(first: Seq<char>, second: Seq<char>, texts: Seq<Seq<char>>)
    requires
        first.len() == 0 || first.last() != '\n',
        second.len() == 0 || second.last() != '\n',
    ensures
        bytes_in(first) <= AGENTS_CHAIN_CAP ==> chain_text(seq![first]) == first,
        bytes_in(first + "\n\n"@ + second) <= AGENTS_CHAIN_CAP ==> chain_text(seq![first, second])
            == first + "\n\n"@ + second,
        bytes_in(first) > AGENTS_CHAIN_CAP ==> ({
            let t = chain_text(seq![first]);
            let k = t.len() - AGENTS_TRUNCATION_MARK@.len();
            0 <= k < first.len() && t == first.take(k) + AGENTS_TRUNCATION_MARK@
        }),
        chain_text(Seq::empty()).len() == 0,
{
    let one = seq![first];
    let bare = Seq::new(one.len(), |i: int| crate::config::edit::without_newlines(one[i]));
    assert(bare =~= one);
    assert(joined(one, "\n\n"@) == first);
    let two = seq![first, second];
    let both = Seq::new(two.len(), |i: int| crate::config::edit::without_newlines(two[i]));
    assert(both =~= two);
    assert(two.drop_last() =~= one);
    assert(joined(two, "\n\n"@) == joined(one, "\n\n"@) + "\n\n"@ + second);
    let none = Seq::<Seq<char>>::empty();
    let nothing = Seq::new(none.len(), |i: int| crate::config::edit::without_newlines(none[i]));
    assert(nothing =~= none);
    assert(bytes_in(joined(none, "\n\n"@)) == 0);
    if bytes_in(first) > AGENTS_CHAIN_CAP {
        crate::size::fitting_fits(first, AGENTS_CHAIN_CAP as nat);
        assert(first.take(first.len() as int) =~= first);
    }
}

// ---------------------------------------------------------------- probes and refreshing

/// A probe names the files that are there with their stamps, in order, each before what stands in it.
pub proof fn probes_name_what_is_there(found: Seq<FileProbe>, n: int)
    requires
        0 < n <= found.len(),
    ensures
        probed_paths(found, n).len() == probed_stamps(found, n).len(),
        !found[n - 1].present ==> probed_paths(found, n) == probed_paths(found, n - 1)
            && probed_stamps(found, n) == probed_stamps(found, n - 1),
        found[n - 1].present ==> ({
            let k = probed_paths(found, n - 1).len() as int;
            &&& probed_paths(found, n).len() == k + 1 + found[n - 1].entries@.len()
            &&& probed_paths(found, n).take(k) == probed_paths(found, n - 1)
            &&& probed_stamps(found, n).take(k) == probed_stamps(found, n - 1)
            &&& probed_paths(found, n)[k] == found[n - 1].path@
            &&& probed_stamps(found, n)[k] == found[n - 1].stamp
            &&& forall|i: int|
                0 <= i < found[n - 1].entries@.len() ==> #[trigger] probed_paths(found, n)[k + 1 + i]
                    == found[n - 1].entries@[i]@
            &&& forall|i: int|
                0 <= i < found[n - 1].entries@.len() ==> (#[trigger] probed_stamps(found, n)[k + 1
                    + i]) is None
        }),
    decreases n,
{
    if n > 1 {
        probes_name_what_is_there(found, n - 1);
    }
    assert(probed_paths(found, n - 1).len() == probed_stamps(found, n - 1).len());
    if found[n - 1].present {
        let k = probed_paths(found, n - 1).len() as int;
        assert(probed_paths(found, n).take(k) =~= probed_paths(found, n - 1));
        assert(probed_stamps(found, n).take(k) =~= probed_stamps(found, n - 1));
    }
}

/// A refresh takes the chain anew exactly where its files or their stamps are others, the skills exactly where
/// theirs are, and the one leaves the other alone.
pub proof fn a_refresh_takes_what_moved(o: OverlayView, f: Findings)
    ensures
        ({
            let n = refreshed(o, f);
            &&& n.skill_dirs == o.skill_dirs
            &&& strs(f.chain_now.paths@) == o.files && f.chain_now.stamps@ == o.chain_stamps
                ==> n.chain == o.chain && n.files == o.files && n.chain_stamps == o.chain_stamps
            &&& strs(f.chain_now.paths@) != o.files || f.chain_now.stamps@ != o.chain_stamps
                ==> n.chain == f.chain.content@ && n.files == strs(f.chain.files@) && n.chain_stamps
                == f.chain_now.stamps@
            &&& strs(f.skills_now.paths@) == o.skill_paths && f.skills_now.stamps@ == o.skill_stamps
                ==> n.skills == o.skills && n.warnings == o.warnings && n.skill_paths
                == o.skill_paths && n.skill_stamps == o.skill_stamps
            &&& strs(f.skills_now.paths@) != o.skill_paths || f.skills_now.stamps@ != o.skill_stamps
                ==> n.skills == crate::map::views(f.skills@) && n.warnings == strs(f.warnings@)
                && n.skill_paths == strs(f.skills_then.paths@) && n.skill_stamps
                == f.skills_then.stamps@
        }),
{
}

/// The overlay is the chain and then the catalog of the skills, and where one is empty the other alone.
pub proof fn the_overlay_is_chain_and_catalog(o: OverlayView)
    ensures
        begins(overlay_text(o), o.chain),
        ends(overlay_text(o), catalog(o.skills)),
        o.skills.len() == 0 ==> overlay_text(o) == o.chain,
        o.chain.len() > 0 && catalog(o.skills).len() > 0 ==> overlay_text(o).len() == o.chain.len()
            + 2 + catalog(o.skills).len() && occurs_at(
            overlay_text(o),
            seq!['\n', '\n'],
            o.chain.len() as int,
        ),
{
    reveal_strlit("\n\n");
    let t = overlay_text(o);
    let c = catalog(o.skills);
    assert(t.subrange(0, o.chain.len() as int) =~= o.chain);
    assert(t.subrange(t.len() - c.len(), t.len() as int) =~= c);
    assert(t.subrange(t.len() - c.len(), t.len() - c.len() + c.len()) =~= c);
    if o.chain.len() > 0 && c.len() > 0 {
        assert(t.subrange(o.chain.len() as int, o.chain.len() as int + 2) =~= seq!['\n', '\n']);
    }
}

// ---------------------------------------------------------------- what is sent

/// With neither harness nor overlay, what is sent is the conversation itself.
pub proof fn bare_conversations_are_sent_as_they_are(history: Seq<MessageView>)
    ensures
        sent_history(history, Seq::empty(), Seq::empty()) == history,
{
}

/// The system message begins with the harness, holds the user's own prompt between its tags, and ends with the
/// overlay.
pub proof fn the_system_message_has_its_parts(
    history: Seq<MessageView>,
    harness: Seq<char>,
    overlay: Seq<char>,
)
    requires
        harness.len() > 0 || overlay.len() > 0,
    ensures
        ({
            let sent = sent_history(history, harness, overlay);
            let told = sent[0].content;
            &&& sent[0].body is System || opens_with_system(history)
            &&& begins(told, harness)
            &&& ends(told, overlay)
            &&& opens_with_system(history) && history[0].content.len() > 0 && harness.len() > 0
                ==> occurs_at(
                told,
                "\n\n<instructions>\n"@ + history[0].content + "\n</instructions>"@,
                harness.len() as int,
            )
            &&& opens_with_system(history) && harness.len() == 0 ==> told == history[0].content
                + seq!['\n', '\n'] + overlay
            &&& !opens_with_system(history) && overlay.len() == 0 ==> told == harness
            &&& !opens_with_system(history) && harness.len() == 0 ==> told == overlay
            &&& !opens_with_system(history) && harness.len() > 0 && overlay.len() > 0 ==> told
                == harness + seq!['\n', '\n'] + overlay
        }),
{
    reveal_strlit("\n\n");
    assert("\n\n"@ =~= seq!['\n', '\n']);
    let sent = sent_history(history, harness, overlay);
    let told = sent[0].content;
    if opens_with_system(history) && history[0].content.len() > 0 && harness.len() > 0 {
        let mid = "\n\n<instructions>\n"@ + history[0].content + "\n</instructions>"@;
        assert(told.subrange(harness.len() as int, harness.len() as int + mid.len()) =~= mid);
    }
    assert(told.subrange(0, harness.len() as int) =~= harness);
    assert(told.subrange(told.len() - overlay.len(), told.len() - overlay.len() + overlay.len())
        =~= overlay);
}

// ---------------------------------------------------------------- the harness

proof fn each_stands_among(o: Seq<char>, f: Seq<Seq<char>>, l: Seq<char>, c: Seq<char>)
    requires
        f.len() == 5,
    ensures
        ({
            let t = o + f[0] + f[1] + f[2] + f[3] + f[4] + l + c;
            occurs(t, f[0]) && occurs(t, f[1]) && occurs(t, f[2]) && occurs(t, f[3]) && occurs(
                t,
                f[4],
            )
        }),
{
    let t = o + f[0] + f[1] + f[2] + f[3] + f[4] + l + c;
    let p1 = o + f[0];
    let p2 = p1 + f[1];
    let p3 = p2 + f[2];
    let p4 = p3 + f[3];
    let p5 = p4 + f[4];
    assert(t == p5 + l + c);
    assert(occurs(t, f[4])) by {
        assert(t =~= p4 + f[4] + (l + c));
        stands_between(p4, f[4], l + c);
    }
    assert(occurs(t, f[3])) by {
        assert(t =~= p3 + f[3] + (f[4] + l + c));
        stands_between(p3, f[3], f[4] + l + c);
    }
    assert(occurs(t, f[2])) by {
        assert(t =~= p2 + f[2] + (f[3] + f[4] + l + c));
        stands_between(p2, f[2], f[3] + f[4] + l + c);
    }
    assert(occurs(t, f[1])) by {
        assert(t =~= p1 + f[1] + (f[2] + f[3] + f[4] + l + c));
        stands_between(p1, f[1], f[2] + f[3] + f[4] + l + c);
    }
    assert(occurs(t, f[0])) by {
        assert(t =~= o + f[0] + (f[1] + f[2] + f[3] + f[4] + l + c));
        stands_between(o, f[0], f[1] + f[2] + f[3] + f[4] + l + c);
    }
}

/// The environment has a line for each fact, with what is known of it.
pub proof fn the_environment_states_its_facts(env: Environment)
    ensures
        ({
            let t = environment_text(env);
            &&& occurs(t, "project root"@ + ": "@ + env.project_root@ + "\n"@)
            &&& occurs(t, "platform"@ + ": "@ + env.platform@ + "\n"@)
            &&& occurs(t, "shell"@ + ": "@ + env.shell@ + "\n"@)
            &&& occurs(t, "date"@ + ": "@ + env.date@ + "\n"@)
            &&& env.exe matches Some(exe) ==> occurs(t, "iota binary"@ + ": "@ + exe@ + "\n"@)
            &&& env.exe is None ==> occurs(t, "iota binary"@ + ": "@ + "(unknown)"@ + "\n"@)
        }),
{
    let f = seq![
        "project root"@ + ": "@ + env.project_root@ + "\n"@,
        "platform"@ + ": "@ + env.platform@ + "\n"@,
        "shell"@ + ": "@ + env.shell@ + "\n"@,
        "date"@ + ": "@ + env.date@ + "\n"@,
        "iota binary"@ + ": "@ + (match env.exe {
            Some(p) => p@,
            None => "(unknown)"@,
        }) + "\n"@,
    ];
    let lines = crate::agents::harness::config_lines(env.configs);
    each_stands_among("<environment>\n"@, f, lines, "</environment>"@);
    assert(environment_text(env) == "<environment>\n"@ + f[0] + f[1] + f[2] + f[3] + f[4] + lines
        + "</environment>"@);
}

/// The environment names the configuration files of both tiers, or the one that was given.
pub proof fn the_environment_names_its_config(env: Environment)
    ensures
        ({
            let t = environment_text(env);
            &&& env.configs matches ConfigFiles::Explicit(path) ==> occurs(
                t,
                "config"@ + ": "@ + (path@ + " (given with -c; the only scope)"@) + "\n"@,
            )
            &&& env.configs matches ConfigFiles::Tiers { user, project } ==> {
                &&& user matches Some(u) ==> occurs(t, "user config"@ + ": "@ + u@ + "\n"@)
                &&& user is None ==> occurs(t, "user config"@ + ": "@ + "(absent)"@ + "\n"@)
                &&& project matches Some(p) ==> occurs(t, "project config"@ + ": "@ + p@ + "\n"@)
                &&& project is None ==> occurs(t, "project config"@ + ": "@ + "(absent)"@ + "\n"@)
            }
        }),
{
    let t = environment_text(env);
    let close = "</environment>"@;
    let lines = crate::agents::harness::config_lines(env.configs);
    let head = t.take(t.len() - close.len() - lines.len());
    assert(t =~= head + lines + close);
    match env.configs {
        ConfigFiles::Explicit(path) => {
            stands_between(head, lines, close);
        },
        ConfigFiles::Tiers { user, project } => {
            let a = "user config"@ + ": "@ + (match user {
                Some(p) => p@,
                None => "(absent)"@,
            }) + "\n"@;
            let b = "project config"@ + ": "@ + (match project {
                Some(p) => p@,
                None => "(absent)"@,
            }) + "\n"@;
            assert(lines =~= a + b);
            assert(t =~= head + a + (b + close));
            stands_between(head, a, b + close);
            assert(t =~= (head + a) + b + close);
            stands_between(head + a, b, close);
        },
    }
}

/// A run without tools has no harness; one with tools is told where it runs, and of the command line exactly
/// where it has a shell.
pub proof fn the_harness_follows_the_tools(env: Environment, toolsets: Seq<Seq<char>>)
    ensures
        toolsets.len() == 0 ==> composed(env, toolsets).len() == 0,
        toolsets.len() > 0 ==> begins(composed(env, toolsets), PREAMBLE@) && occurs(
            composed(env, toolsets),
            environment_text(env),
        ),
        toolsets.len() > 0 && !toolsets.contains("shell"@) ==> ends(
            composed(env, toolsets),
            environment_text(env),
        ),
        toolsets.contains("shell"@) ==> ends(
            composed(env, toolsets),
            crate::agents::harness::IOTA_CLI@,
        ),
{
    let t = composed(env, toolsets);
    let e = environment_text(env);
    let cli = crate::agents::harness::IOTA_CLI@;
    if toolsets.len() > 0 {
        assert(t.subrange(0, PREAMBLE@.len() as int) =~= PREAMBLE@);
        let head = PREAMBLE@ + "\n\n"@;
        if toolsets.contains("shell"@) {
            assert(t =~= head + e + ("\n\n"@ + cli));
            stands_between(head, e, "\n\n"@ + cli);
            assert(t.subrange(t.len() - cli.len(), t.len() - cli.len() + cli.len()) =~= cli);
        } else {
            assert(t =~= head + e + Seq::<char>::empty());
            stands_between(head, e, Seq::empty());
            assert(t.subrange(t.len() - e.len(), t.len() - e.len() + e.len()) =~= e);
        }
    }
}

// ---------------------------------------------------------------- skills

/// Reading a file keeps every character but the carriage returns in front of a newline.
pub proof fn lines_end_in_newlines_alone(s: Seq<char>)
    ensures
        !s.contains('\r') ==> lf_only(s) == s,
        lf_only(seq!['\r', '\n'] + s) == seq!['\n'] + lf_only(s),
        s.len() > 0 && s[0] != '\r' ==> lf_only(s) == seq![s[0]] + lf_only(s.skip(1)),
    decreases s.len(),
{
    if s.len() > 0 {
        assert(s.take(1) =~= seq![s[0]]);
        if !s.contains('\r') {
            assert(s.contains(s[0]));
            assert forall|i: int| 0 <= i < s.skip(1).len() implies s.skip(1)[i] != '\r' by {
                assert(s.contains(s[i + 1]));
            }
            lines_end_in_newlines_alone(s.skip(1));
            assert(s.take(1) + s.skip(1) =~= s);
        }
    }
    let t = seq!['\r', '\n'] + s;
    let u = seq!['\n'] + s;
    assert(t.skip(1) =~= u);
    assert(u.skip(1) =~= s);
    assert(u.take(1) =~= seq!['\n']);
    assert(t.len() >= 2 && t[0] == '\r' && t[1] == '\n');
    assert(lf_only(t) == lf_only(u));
    assert(u[0] == '\n');
    assert(lf_only(u) == u.take(1) + lf_only(u.skip(1)));
}

proof fn closes_at(front: Seq<char>, body: Seq<char>)
    requires
        !occurs(front + "\n---"@, "\n---\n"@),
    ensures
        first_occurrence(front + "\n---\n"@ + body, "\n---\n"@, 0) == Some(front.len() as int),
{
    reveal_strlit("\n---\n");
    reveal_strlit("\n---");
    let close = "\n---\n"@;
    let rest = front + close + body;
    let short = front + "\n---"@;
    let k = front.len() as int;
    assert(rest.subrange(k, k + 5) =~= close);
    assert(occurs_at(rest, close, k));
    first_occurrences_are_first(rest, close, 0);
    match first_occurrence(rest, close, 0) {
        Some(i) => {
            if i > k {
                assert(!occurs_at(rest, close, k));
            }
            if i < k {
                assert(short =~= rest.take(k + 4));
                assert(short.subrange(i, i + 5) =~= rest.subrange(i, i + 5));
                assert(occurs_at(short, close, i));
            }
        },
        None => {
            assert(!occurs_at(rest, close, k));
        },
    }
}

/// A front matter between its two lines is split from what follows it.
pub proof fn front_matter_is_split_off(front: Seq<char>, body: Seq<char>)
    requires
        !occurs(front + "\n---"@, "\n---\n"@),
    ensures
        frontmatter("---\n"@ + front + "\n---\n"@ + body) == Ok::<_, SkillErrorView>((front, body)),
{
    closes_at(front, body);
    let close = "\n---\n"@;
    assert(close.len() == 5) by {
        reveal_strlit("\n---\n");
    }
    let text = "---\n"@ + front + close + body;
    let rest = front + close + body;
    let k = front.len() as int;
    assert(begins(text, "---\n"@)) by {
        assert(text.subrange(0, "---\n"@.len() as int) =~= "---\n"@);
    }
    assert(text.skip(3)[0] == '\n' && text.skip(3).skip(1) =~= rest) by {
        reveal_strlit("---\n");
    }
    assert(rest.take(k) =~= front);
    assert(rest.skip(k + 5) =~= body);
}

/// A file that does not open with a front matter is no skill.
pub proof fn skills_open_with_front_matter(text: Seq<char>)
    requires
        text.len() < 3 || text[0] != '-' || text[1] != '-' || text[2] != '-',
    ensures
        frontmatter(text) == Err::<(Seq<char>, Seq<char>), _>(SkillErrorView::MissingFrontmatter),
{
    reveal_strlit("---\n");
    reveal_strlit("---");
    if begins(text, "---\n"@) {
        let t = text.subrange(0, 4);
        assert(t[0] == text[0] && t[1] == text[1] && t[2] == text[2]);
    }
}

/// A skill is taken exactly where its name is there, short, well-formed and that of its directory, and its
/// description is there and short; it is then what was described.
pub proof fn good_skills_are_taken(
    name: Seq<char>,
    description: Seq<char>,
    dir_name: Seq<char>,
    path: Seq<char>,
)
    ensures
        checked_skill(name, description, dir_name, path) is Ok <==> name.len() > 0 && bytes_in(name)
            <= 64 && name_is_valid(name) && name == dir_name && 0 < description.len() <= 1024,
        checked_skill(name, description, dir_name, path) matches Ok(s) ==> s.name == name
            && s.description == description && s.path == path,
{
}

/// A name with a capital, a space, an underscore or a doubled hyphen is none of a skill.
pub proof fn names_are_lower_case(name: Seq<char>, i: int)
    requires
        0 <= i < name.len(),
        name_is_valid(name),
    ensures
        'a' <= name[i] <= 'z' || '0' <= name[i] <= '9' || name[i] == '-',
        name[0] != '-',
        name.last() != '-',
        i > 0 && name[i] == '-' ==> name[i - 1] != '-',
    decreases name.len(),
{
    let k = crate::text::first_at(name, '-');
    crate::text::first_at_bounds(name, '-');
    let parts = crate::text::parts_of(name, '-');
    assert(parts[0] == name.take(k));
    assert(crate::agents::skills::is_segment(parts[0]));
    assert(parts[0][0] == name[0]);
    if i < k {
        assert(parts[0][i] == name[i]);
    }
    if k < name.len() {
        let rest = name.skip(k + 1);
        let tail = crate::text::parts_of(rest, '-');
        assert forall|j: int| 0 <= j < tail.len() implies crate::agents::skills::is_segment(
            #[trigger] tail[j],
        ) by {
            assert(parts[j + 1] == tail[j]);
        }
        crate::laws::joining_undoes_splitting(rest, '-');
        assert(crate::agents::skills::is_segment(tail[0]));
        crate::text::first_at_bounds(rest, '-');
        assert(tail[0] == rest.take(crate::text::first_at(rest, '-')));
        assert(rest.len() > 0);
        names_are_lower_case(rest, if i > k { i - k - 1 } else { 0 });
        assert(rest.last() == name.last());
        assert(rest[0] == name[k + 1]);
        if i > k {
            assert(rest[i - k - 1] == name[i]);
            if i > k + 1 {
                assert(rest[i - k - 2] == name[i - 1]);
            }
        } else if i == k {
            assert(parts[0][k - 1] == name[k - 1]);
        } else if i > 0 {
            assert(parts[0][i - 1] == name[i - 1]);
        }
    } else {
        assert(parts[0][name.len() - 1] == name.last());
    }
}

/// Of the files that name a skill the first is kept, in the order in which they were found, and no other.
pub proof fn the_first_of_a_name_is_kept(files: Seq<SkillFile>, n: int, k: int)
    requires
        0 <= k < n <= files.len(),
    ensures
        found_skill(files[k]) matches Ok(s) ==> is_named(kept_skills(files, n), s.name),
        found_skill(files[k]) matches Ok(s) ==> ((forall|j: int|
            0 <= j < k ==> match found_skill(#[trigger] files[j]) {
                Ok(t) => t.name != s.name,
                Err(_) => true,
            }) ==> kept_skills(files, n).contains(s)),
    decreases n,
{
    every_kept_skill_was_found(files, n - 1);
    let kept = kept_skills(files, n - 1);
    let all = kept_skills(files, n);
    if k < n - 1 {
        the_first_of_a_name_is_kept(files, n - 1, k);
        match found_skill(files[k]) {
            Ok(s) => {
                let i = choose|i: int| 0 <= i < kept.len() && (#[trigger] kept[i]).name == s.name;
                assert(all[i] == kept[i]);
                if kept.contains(s) {
                    let j = choose|j: int| 0 <= j < kept.len() && kept[j] == s;
                    assert(all[j] == s);
                }
            },
            Err(_) => {},
        }
    } else {
        match found_skill(files[k]) {
            Ok(s) => {
                if !is_named(kept, s.name) {
                    assert(all.last() == s);
                    assert(all[all.len() - 1].name == s.name);
                    assert(all.contains(s));
                } else {
                    let i = choose|i: int|
                        0 <= i < kept.len() && (#[trigger] kept[i]).name == s.name;
                    let j = choose|j: int|
                        0 <= j < n - 1 && found_skill(#[trigger] files[j]) == Ok::<
                            SkillView,
                            SkillErrorView,
                        >(kept[i]);
                    assert(found_skill(files[j]) == Ok::<SkillView, SkillErrorView>(kept[i]));
                }
            },
            Err(_) => {},
        }
    }
}

/// Every skill that is kept was found in one of the files.
pub proof fn every_kept_skill_was_found(files: Seq<SkillFile>, n: int)
    requires
        0 <= n <= files.len(),
    ensures
        forall|i: int|
            0 <= i < kept_skills(files, n).len() ==> exists|j: int|
                0 <= j < n && found_skill(#[trigger] files[j]) == Ok::<SkillView, SkillErrorView>(
                    #[trigger] kept_skills(files, n)[i],
                ),
    decreases n,
{
    if n > 0 {
        every_kept_skill_was_found(files, n - 1);
        let kept = kept_skills(files, n - 1);
        let all = kept_skills(files, n);
        assert forall|i: int| 0 <= i < all.len() implies exists|j: int|
            0 <= j < n && found_skill(#[trigger] files[j]) == Ok::<SkillView, SkillErrorView>(
                #[trigger] all[i],
            ) by {
            if i < kept.len() {
                assert(all[i] == kept[i]);
                let j = choose|j: int|
                    0 <= j < n - 1 && found_skill(#[trigger] files[j]) == Ok::<
                        SkillView,
                        SkillErrorView,
                    >(kept[i]);
                assert(found_skill(files[j]) == Ok::<SkillView, SkillErrorView>(all[i]));
            } else {
                assert(found_skill(files[n - 1]) == Ok::<SkillView, SkillErrorView>(all[i]));
            }
        }
    }
}

/// Every file that is no skill is told of by its path and what is wrong with it, and no other file is.
pub proof fn bad_skill_files_are_told_of(files: Seq<SkillFile>, n: int)
    requires
        0 < n <= files.len(),
    ensures
        found_skill(files[n - 1]) is Ok ==> skipped_skills(files, n) == skipped_skills(files, n - 1),
        found_skill(files[n - 1]) matches Err(e) ==> {
            let told = skipped_skills(files, n);
            &&& told.drop_last() == skipped_skills(files, n - 1)
            &&& told.len() == skipped_skills(files, n - 1).len() + 1
            &&& begins(told.last(), "skill "@ + files[n - 1].path@ + ": "@)
            &&& occurs(told.last(), crate::agents::skills::skill_error_text(e))
        },
{
    match found_skill(files[n - 1]) {
        Ok(_) => {},
        Err(e) => {
            let told = skipped_skills(files, n);
            assert(told.drop_last() =~= skipped_skills(files, n - 1));
            let head = "skill "@ + files[n - 1].path@ + ": "@;
            assert(told.last().subrange(0, head.len() as int) =~= head);
            stands_between(head, crate::agents::skills::skill_error_text(e), " (skipped)"@);
        },
    }
}

/// A text is escaped character by character: the three of markup by their names, every other as it is.
pub proof fn markup_is_named(a: Seq<char>, b: Seq<char>, c: char)
    ensures
        escaped(a + b) == escaped(a) + escaped(b),
        escaped(seq!['&']) == "&amp;"@,
        escaped(seq!['<']) == "&lt;"@,
        escaped(seq!['>']) == "&gt;"@,
        c != '&' && c != '<' && c != '>' ==> escaped(seq![c]) == seq![c],
        escaped(Seq::empty()).len() == 0,
    decreases b.len(),
{
    assert forall|x: char| #[trigger] escaped(seq![x]) == crate::agents::skills::escaped_char(x) by {
        assert(seq![x].drop_last() =~= Seq::<char>::empty());
        assert(escaped(seq![x].drop_last()) =~= Seq::<char>::empty());
        assert(escaped(seq![x]) =~= crate::agents::skills::escaped_char(x));
    }
    if b.len() == 0 {
        assert(a + b =~= a);
        assert(escaped(a) + escaped(b) =~= escaped(a));
    } else {
        markup_is_named(a, b.drop_last(), c);
        assert((a + b).drop_last() =~= a + b.drop_last());
        assert((a + b).last() == b.last());
        assert(escaped(a + b) =~= escaped(a) + escaped(b));
    }
}

/// Every skill stands in the whole catalog with its name and its description, escaped, behind the skills before
/// it.
pub proof fn every_skill_is_offered(skills: Seq<SkillView>, n: int, k: int)
    requires
        0 <= k < n <= skills.len(),
    ensures
        occurs(catalog_whole(skills, n), "<skill>\n<name>"@ + escaped(skills[k].name) + "</name>\n<description>"@ + escaped(skills[k].description) + "</description>\n</skill>\n"@),
        begins(catalog_whole(skills, n), catalog_whole(skills, k)),
    decreases n,
{
    let entry = "<skill>\n<name>"@ + escaped(skills[k].name) + "</name>\n<description>"@ + escaped(
        skills[k].description,
    ) + "</description>\n</skill>\n"@;
    let t = catalog_whole(skills, n);
    let s = catalog_whole(skills, n - 1);
    let f = catalog_whole(skills, k);
    if k == n - 1 {
        assert(t =~= s + entry + Seq::<char>::empty());
        stands_between(s, entry, Seq::empty());
        assert(t.subrange(0, f.len() as int) =~= f);
    } else {
        every_skill_is_offered(skills, n - 1, k);
        let i = choose|i: int| occurs_at(s, entry, i);
        assert(t.subrange(i, i + entry.len()) =~= s.subrange(i, i + entry.len()));
        assert(occurs_at(t, entry, i));
        assert(t.subrange(0, f.len() as int) =~= s.subrange(0, f.len() as int));
    }
}

/// There is no catalog without skills; one that fits is whole.
pub proof fn the_catalog_is_whole_where_it_fits(skills: Seq<SkillView>)
    ensures
        skills.len() == 0 ==> catalog(skills).len() == 0,
        skills.len() > 0 && bytes_in(
            catalog_whole(skills, skills.len() as int) + "</available_skills>"@,
        ) <= 32768 ==> catalog(skills) == catalog_whole(skills, skills.len() as int)
            + "</available_skills>"@,
        skills.len() > 0 ==> ends(catalog(skills), "</available_skills>"@),
{
    let c = catalog(skills);
    let e = "</available_skills>"@;
    if skills.len() > 0 {
        assert(c.subrange(c.len() - e.len(), c.len() - e.len() + e.len()) =~= e);
    }
}

/// Cutting a catalog leaves out only entries: what is left and what was left out are all the skills.
pub proof fn what_is_cut_is_counted(skills: Seq<SkillView>, n: int)
    requires
        0 < n <= skills.len(),
    ensures
        catalog_body(skills, n) == catalog_body(skills, n - 1) ==> catalog_omitted(skills, n)
            == catalog_omitted(skills, n - 1) + 1,
        catalog_body(skills, n) != catalog_body(skills, n - 1) ==> catalog_omitted(skills, n)
            == catalog_omitted(skills, n - 1) && catalog_body(skills, n) == catalog_body(
            skills,
            n - 1,
        ) + crate::agents::skills::catalog_entry(skills[n - 1]),
{
    reveal_strlit("<skill>\n<name>");
    let body = catalog_body(skills, n - 1);
    let entry = crate::agents::skills::catalog_entry(skills[n - 1]);
    assert(entry.len() > 0);
    assert((body + entry).len() > body.len());
}

/// A skill's body is what follows its front matter, from the first character that is no newline.
pub proof fn bodies_begin_with_content(s: Seq<char>)
    ensures
        ({
            let t = past_newlines(s);
            let k = s.len() - t.len();
            &&& 0 <= k
            &&& t == s.skip(k)
            &&& t.len() > 0 ==> t[0] != '\n'
            &&& forall|i: int| 0 <= i < k ==> #[trigger] s[i] == '\n'
        }),
    decreases s.len(),
{
    if s.len() > 0 && s[0] == '\n' {
        bodies_begin_with_content(s.skip(1));
        let t = past_newlines(s);
        let k = s.len() - t.len();
        assert(t =~= s.skip(k));
        assert forall|i: int| 0 <= i < k implies #[trigger] s[i] == '\n' by {
            if i > 0 {
                assert(s.skip(1)[i - 1] == s[i]);
            }
        }
    } else {
        assert(s.skip(0) =~= s);
    }
}

/// Skills are looked for in the project before the user's own, which come in iota's directory before the shared
/// one.
pub proof fn the_project_is_looked_at_first(root: Seq<char>, home: Seq<char>)
    requires
        root.len() > 0,
        root.last() != '/',
        home.len() > 0,
        home.last() != '/',
    ensures
        roots_of(root, None) == seq![root + "/.agents/skills"@],
        roots_of(root, Some(home)).len() == 3,
        roots_of(root, Some(home))[0] == root + "/.agents/skills"@,
        roots_of(root, Some(home))[1] == home + "/.iota/skills"@,
        roots_of(root, Some(home))[2] == home + "/.agents/skills"@,
{
    reveal_strlit("/.agents/skills");
    reveal_strlit("/.iota/skills");
    reveal_strlit(".agents");
    reveal_strlit(".iota");
    reveal_strlit("skills");
    skills_stand_in(root, ".agents"@);
    skills_stand_in(home, ".agents"@);
    skills_stand_in(home, ".iota"@);
    assert(root.push('/') + ".agents"@.push('/') + "skills"@ =~= root + "/.agents/skills"@);
    assert(home.push('/') + ".agents"@.push('/') + "skills"@ =~= home + "/.agents/skills"@);
    assert(home.push('/') + ".iota"@.push('/') + "skills"@ =~= home + "/.iota/skills"@);
}

proof fn skills_stand_in(dir: Seq<char>, base: Seq<char>)
    requires
        dir.len() > 0,
        dir.last() != '/',
        base.len() > 0,
        base[0] != '/',
        base.last() != '/',
    ensures
        crate::agents::skills::skills_in(dir, base) == dir.push('/') + base.push('/') + "skills"@,
{
    reveal_strlit("skills");
    names_stand_in_their_directory(dir, base);
    let mid = dir.push('/') + base;
    names_stand_in_their_directory(mid, "skills"@);
    assert(mid.push('/') + "skills"@ =~= dir.push('/') + base.push('/') + "skills"@);
}

/// A skill in the project's own directory is tagged as the project's, whatever else holds of it.
pub proof fn project_skills_are_tagged(root: Seq<char>, home: Option<Seq<char>>, name: Seq<char>)
    requires
        root.len() > 0,
        root.last() != '/',
        is_plain(name),
    ensures
        source_tag(root + "/.agents/skills/"@ + name, root, home) == "project"@,
{
    reveal_strlit("/.agents/skills/");
    reveal_strlit(".agents");
    reveal_strlit("skills");
    skills_stand_in(root, ".agents"@);
    let dir = crate::agents::skills::skills_in(root, ".agents"@);
    a_file_is_under_its_directory(dir, name);
    assert(dir.push('/') + name =~= root + "/.agents/skills/"@ + name);
}

/// The name and the description of a skill are those of its front matter.
pub proof fn skills_have_the_fields_of_their_front_matter(
    doc: crate::yaml::Node,
    name: Seq<char>,
    description: Seq<char>,
    dir_name: Seq<char>,
    path: Seq<char>,
)
    requires
        crate::yaml::field_in(doc, "name"@) == Some(crate::yaml::Node::Text(name)),
        crate::yaml::field_in(doc, "description"@) == Some(crate::yaml::Node::Text(description)),
    ensures
        described_skill(doc, dir_name, path) == checked_skill(name, description, dir_name, path),
{
}

} // verus!
