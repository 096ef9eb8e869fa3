//! Working inside a project: its root, the chain of instruction files from the root down to the working
//! directory, the overlay of that chain and the skills, and what is sent of a conversation.

use vstd::prelude::*;
use vstd::string::*;
use vstd::utf8::encode_utf8;

pub mod harness;
pub mod laws;
pub mod skills;

use crate::agents::skills::{
    catalog, discover_skills, kept_skills, roots_of, skill_roots, skills_catalog, skipped_skills,
    Skill, SkillFile, SkillView,
};
use crate::app::paths::{parent, parent_is_shorter, parent_of, rel_down, way_down};
use crate::app::{join_path, path_join};
use crate::config::edit::without_newlines;
use crate::map::{copy_all, views};
use crate::message::{plain_message, role_of, BodyView, Message, MessageView, Role};
use crate::size::{bytes_add, bytes_in, cut, fitting, fitting_fits, size_within};
use crate::text::{
    chars_of, join, joined, lossy_text, own, push_text, read_lossy, same_strs, strs, text_of,
};

verus! {

/// The instructions file looked up at every level of the chain.
pub const AGENTS_FILE_NAME: &'static str = "AGENTS.md";

/// Byte cap of the concatenated chain.
pub const AGENTS_CHAIN_CAP: usize = 32768;

/// Appended when the chain was cut.
pub const AGENTS_TRUNCATION_MARK: &'static str = "\n\n<!-- AGENTS.md chain truncated at 32 KiB -->";

// ---------------------------------------------------------------- the project root

/// A path and the directories above it, innermost first.
pub open spec fn ancestors_of(path: Seq<char>) -> Seq<Seq<char>>
    decreases path.len(),
    via ancestors_of_decreases
{
    match parent_of(path) {
        None => seq![path],
        Some(p) => seq![path] + ancestors_of(p),
    }
}

#[via_fn]
proof fn ancestors_of_decreases(path: Seq<char>) {
    parent_is_shorter(path);
}

/// The directories where a project root is looked for: a path and the directories above it, innermost first.
pub fn ancestors(path: &str) -> (r: Vec<String>)
    ensures
        strs(r@) == ancestors_of(path@),
    decreases path@.len(),
{
    let mut r: Vec<String> = Vec::new();
    r.push(own(path));
    assert(strs(r@) =~= seq![path@]);
    match parent(path) {
        None => r,
        Some(p) => {
            proof {
                parent_is_shorter(path@);
            }
            let mut more: Vec<String> = ancestors(p.as_str());
            let ghost rest = strs(more@);
            r.append(&mut more);
            assert(strs(r@) =~= seq![path@] + rest);
            r
        },
    }
}

/// The first ancestor that is marked, or the path itself.
pub open spec fn root_among(path: Seq<char>, dirs: Seq<Seq<char>>, marked: Seq<bool>, i: int) -> Seq<
    char,
>
    decreases dirs.len() - i,
{
    if i < 0 || i >= dirs.len() || i >= marked.len() {
        path
    } else if marked[i] {
        dirs[i]
    } else {
        root_among(path, dirs, marked, i + 1)
    }
}

/// The project root of `cwd`: the first of its [`ancestors`] that holds a `.git` entry — `has_git` says so of
/// each — else `cwd` itself.
pub fn project_root(cwd: &str, has_git: &Vec<bool>) -> (r: String)
    ensures
        r@ == root_among(cwd@, ancestors_of(cwd@), has_git@, 0),
{
    let dirs: Vec<String> = ancestors(cwd);
    let ghost all = ancestors_of(cwd@);
    assert(all.len() == dirs@.len());
    let mut i: usize = 0;
    while i < dirs.len() && i < has_git.len()
        invariant
            i <= dirs.len(),
            strs(dirs@) == all,
            all == ancestors_of(cwd@),
            root_among(cwd@, all, has_git@, 0) == root_among(cwd@, all, has_git@, i as int),
        decreases dirs.len() - i,
    {
        if has_git[i] {
            return dirs[i].clone();
        }
        i += 1;
    }
    own(cwd)
}

// ---------------------------------------------------------------- the chain

/// The directories below `dir` along `parts`, each one inside the one before it.
pub open spec fn descended(dir: Seq<char>, parts: Seq<Seq<char>>) -> Seq<Seq<char>>
    decreases parts.len(),
{
    if parts.len() == 0 {
        Seq::empty()
    } else {
        let next = path_join(dir, parts[0]);
        seq![next] + descended(next, parts.drop_first())
    }
}

/// The directories from `root` down to `cwd`, root first; the root alone when `cwd` does not stand below it.
pub open spec fn chain_dirs(root: Seq<char>, cwd: Seq<char>) -> Seq<Seq<char>> {
    match way_down(root, cwd) {
        Some(parts) => seq![root] + descended(root, parts),
        None => seq![root],
    }
}

/// The directories from `root` down to `cwd` (inclusive) whose instructions are consulted, root first.
pub fn agents_dirs(root: &str, cwd: &str) -> (r: Vec<String>)
    ensures
        strs(r@) == chain_dirs(root@, cwd@),
{
    let mut dirs: Vec<String> = Vec::new();
    dirs.push(own(root));
    assert(strs(dirs@) =~= seq![root@]);
    let parts: Vec<String> = match rel_down(root, cwd) {
        Some(parts) => parts,
        None => return dirs,
    };
    let ghost all = strs(parts@);
    let mut dir: String = own(root);
    assert(all.skip(0) =~= all);
    for i in 0..parts.len()
        invariant
            all == strs(parts@),
            strs(dirs@) + descended(dir@, all.skip(i as int)) == seq![root@] + descended(
                root@,
                all,
            ),
    {
        let ghost rest = all.skip(i as int);
        let ghost was = strs(dirs@);
        assert(rest.drop_first() =~= all.skip(i + 1));
        assert(rest[0] == parts@[i as int]@);
        dir = join_path(dir.as_str(), parts[i].as_str());
        push_text(&mut dirs, dir.clone());
        assert(was + (seq![dir@] + descended(dir@, all.skip(i + 1))) =~= strs(dirs@) + descended(
            dir@,
            all.skip(i + 1),
        ));
    }
    assert(all.skip(all.len() as int) =~= Seq::<Seq<char>>::empty());
    assert(strs(dirs@) =~= strs(dirs@) + Seq::<Seq<char>>::empty());
    dirs
}

/// The concatenated chain and the files that contributed to it.
pub struct AgentsChain {
    /// The text, possibly cut.
    pub content: String,
    /// The files read, root first.
    pub files: Vec<String>,
}

/// The texts of the files, their trailing newlines left out, a blank line between each two; cut at the cap
/// with a mark that says so.
pub open spec fn chain_text(texts: Seq<Seq<char>>) -> Seq<char> {
    let whole = joined(Seq::new(texts.len(), |i: int| without_newlines(texts[i])), "\n\n"@);
    if bytes_in(whole) > AGENTS_CHAIN_CAP {
        fitting(whole, AGENTS_CHAIN_CAP as nat) + AGENTS_TRUNCATION_MARK@
    } else {
        whole
    }
}

/// The chain is bounded: at most the cap and the mark.
pub proof fn chain_is_bounded(texts: Seq<Seq<char>>)
    ensures
        bytes_in(chain_text(texts)) <= AGENTS_CHAIN_CAP + bytes_in(AGENTS_TRUNCATION_MARK@),
{
    let whole = joined(Seq::new(texts.len(), |i: int| without_newlines(texts[i])), "\n\n"@);
    fitting_fits(whole, AGENTS_CHAIN_CAP as nat);
    bytes_add(fitting(whole, AGENTS_CHAIN_CAP as nat), AGENTS_TRUNCATION_MARK@);
}

/// `s` without the newlines at its end.
fn chomp_newlines(s: &str) -> (r: String)
    ensures
        r@ == without_newlines(s@),
{
    let v: Vec<char> = chars_of(s);
    let mut k: usize = v.len();
    assert(v@.take(k as int) =~= s@);
    while k > 0 && v[k - 1] == '\n'
        invariant
            k <= v.len(),
            without_newlines(s@) == without_newlines(v@.take(k as int)),
        ensures
            k <= v.len(),
            without_newlines(s@) == v@.take(k as int),
        decreases k,
    {
        assert(v@.take(k as int).drop_last() =~= v@.take(k - 1));
        k -= 1;
    }
    let r: String = text_of(&v, 0, k);
    assert(r@ =~= v@.take(k as int));
    r
}

/// The chain of the files that were found, root first, and of the texts of those that could be read.
pub fn load_agents_chain(files: Vec<String>, texts: &Vec<String>) -> (r: AgentsChain)
    ensures
        r.files == files,
        r.content@ == chain_text(strs(texts@)),
{
    let mut parts: Vec<String> = Vec::new();
    let ghost want = Seq::new(strs(texts@).len(), |i: int| without_newlines(strs(texts@)[i]));
    for i in 0..texts.len()
        invariant
            want == Seq::new(strs(texts@).len(), |i: int| without_newlines(strs(texts@)[i])),
            parts@.len() == i,
            forall|k: int| 0 <= k < i ==> (#[trigger] parts@[k])@ == want[k],
    {
        parts.push(chomp_newlines(texts[i].as_str()));
    }
    assert(strs(parts@) =~= want);
    let whole: String = join(&parts, "\n\n");
    if size_within(whole.as_str(), AGENTS_CHAIN_CAP).is_some() {
        return AgentsChain { content: whole, files };
    }
    let mut content: String = cut(whole.as_str(), AGENTS_CHAIN_CAP);
    content.append(AGENTS_TRUNCATION_MARK);
    AgentsChain { content, files }
}

/// The chain of the files that were found, root first, from the bytes of those that could be read.
pub fn read_agents_chain(files: Vec<String>, data: &Vec<Vec<u8>>) -> (r: AgentsChain)
    ensures
        r.files == files,
        r.content@ == chain_text(Seq::new(data@.len(), |i: int| lossy_text(data@[i]@))),
{
    let mut texts: Vec<String> = Vec::new();
    for i in 0..data.len()
        invariant
            texts@.len() == i,
            forall|k: int| 0 <= k < i ==> (#[trigger] texts@[k])@ == lossy_text(data@[k]@),
    {
        texts.push(read_lossy(data[i].as_slice()));
    }
    assert(strs(texts@) =~= Seq::new(data@.len(), |i: int| lossy_text(data@[i]@)));
    load_agents_chain(files, &texts)
}

// ---------------------------------------------------------------- freshness

/// One path that was looked at.
pub struct FileProbe {
    /// The path.
    pub path: String,
    /// Whether it is there, and of the right sort.
    pub present: bool,
    /// When it was modified; `None` where the file system does not say.
    pub stamp: Option<u64>,
    /// The paths inside it, in name order, for a directory that is listed.
    pub entries: Vec<String>,
}

/// The paths of a set of files, and when each was modified.
pub struct Probe {
    pub paths: Vec<String>,
    pub stamps: Vec<Option<u64>>,
}

/// The paths a probe lists: of each that is present, itself and then what is inside it.
pub open spec fn probed_paths(found: Seq<FileProbe>, n: int) -> Seq<Seq<char>>
    decreases n,
{
    if n <= 0 || n > found.len() {
        Seq::empty()
    } else if found[n - 1].present {
        probed_paths(found, n - 1) + seq![found[n - 1].path@] + strs(found[n - 1].entries@)
    } else {
        probed_paths(found, n - 1)
    }
}

/// The stamps a probe lists: of each that is present, its own; what is inside it carries none.
pub open spec fn probed_stamps(found: Seq<FileProbe>, n: int) -> Seq<Option<u64>>
    decreases n,
{
    if n <= 0 || n > found.len() {
        Seq::empty()
    } else if found[n - 1].present {
        probed_stamps(found, n - 1) + seq![found[n - 1].stamp] + Seq::new(
            found[n - 1].entries@.len(),
            |i: int| None::<u64>,
        )
    } else {
        probed_stamps(found, n - 1)
    }
}

/// The probe of the paths that were looked at. Per-file stamps, never a collapsed newest: the replacement of
/// an OLDER file must still be detected; and the entries of a directory, so that one which appears or goes is
/// a change even where the directory's own stamp did not move.
pub fn probe(found: &Vec<FileProbe>) -> (r: Probe)
    ensures
        strs(r.paths@) == probed_paths(found@, found@.len() as int),
        r.stamps@ == probed_stamps(found@, found@.len() as int),
{
    let mut paths: Vec<String> = Vec::new();
    let mut stamps: Vec<Option<u64>> = Vec::new();
    assert(strs(paths@) =~= Seq::<Seq<char>>::empty());
    for i in 0..found.len()
        invariant
            strs(paths@) == probed_paths(found@, i as int),
            stamps@ == probed_stamps(found@, i as int),
    {
        let f: &FileProbe = &found[i];
        if f.present {
            let ghost p0 = strs(paths@);
            let ghost s0 = stamps@;
            push_text(&mut paths, f.path.clone());
            stamps.push(f.stamp);
            assert(stamps@ =~= s0 + seq![f.stamp] + Seq::new(0, |i: int| None::<u64>));
            assert(strs(paths@) =~= p0 + seq![f.path@] + strs(f.entries@).take(0));
            for k in 0..f.entries.len()
                invariant
                    strs(paths@) == p0 + seq![f.path@] + strs(f.entries@).take(k as int),
                    stamps@ == s0 + seq![f.stamp] + Seq::new(k as nat, |i: int| None::<u64>),
            {
                let ghost before = strs(f.entries@).take(k as int);
                push_text(&mut paths, f.entries[k].clone());
                stamps.push(None);
                assert(strs(paths@) =~= p0 + seq![f.path@] + strs(f.entries@).take(k + 1));
                assert(stamps@ =~= s0 + seq![f.stamp] + Seq::new(
                    (k + 1) as nat,
                    |i: int| None::<u64>,
                ));
            }
            assert(strs(f.entries@).take(f.entries@.len() as int) =~= strs(f.entries@));
            assert(Seq::new(f.entries@.len(), |i: int| None::<u64>) =~= Seq::new(
                f.entries@.len() as nat,
                |i: int| None::<u64>,
            ));
        }
    }
    Probe { paths, stamps }
}

/// Whether two lists of stamps are equal.
fn same_stamps(a: &Vec<Option<u64>>, b: &Vec<Option<u64>>) -> (r: bool)
    ensures
        r == (a@ == b@),
{
    if a.len() != b.len() {
        return false;
    }
    for i in 0..a.len()
        invariant
            a.len() == b.len(),
            forall|k: int| 0 <= k < i ==> a@[k] == b@[k],
    {
        let equal = match (a[i], b[i]) {
            (Some(x), Some(y)) => x == y,
            (None, None) => true,
            _ => false,
        };
        if !equal {
            return false;
        }
    }
    assert(a@ =~= b@);
    true
}

// ---------------------------------------------------------------- the overlay

/// The chain and the skills, with what their freshness was judged by.
pub struct Overlay {
    skill_dirs: Vec<String>,
    chain: AgentsChain,
    chain_stamps: Vec<Option<u64>>,
    skills: Vec<Skill>,
    warnings: Vec<String>,
    skill_paths: Vec<String>,
    skill_stamps: Vec<Option<u64>>,
}

/// What an [`Overlay`] holds.
pub struct OverlayView {
    pub skill_dirs: Seq<Seq<char>>,
    pub chain: Seq<char>,
    pub files: Seq<Seq<char>>,
    pub chain_stamps: Seq<Option<u64>>,
    pub skills: Seq<SkillView>,
    pub warnings: Seq<Seq<char>>,
    pub skill_paths: Seq<Seq<char>>,
    pub skill_stamps: Seq<Option<u64>>,
}

impl View for Overlay {
    type V = OverlayView;

    closed spec fn view(&self) -> OverlayView {
        OverlayView {
            skill_dirs: strs(self.skill_dirs@),
            chain: self.chain.content@,
            files: strs(self.chain.files@),
            chain_stamps: self.chain_stamps@,
            skills: views(self.skills@),
            warnings: strs(self.warnings@),
            skill_paths: strs(self.skill_paths@),
            skill_stamps: self.skill_stamps@,
        }
    }
}

/// What a refresh finds: the probes of now, and what a reload would give.
pub struct Findings {
    /// The chain's files as they are now.
    pub chain_now: Probe,
    /// The chain, loaded now.
    pub chain: AgentsChain,
    /// The skills' paths as they are now.
    pub skills_now: Probe,
    /// The skills, discovered now.
    pub skills: Vec<Skill>,
    /// What the discovery warned of.
    pub warnings: Vec<String>,
    /// The paths of the skills discovered now.
    pub skills_then: Probe,
}

/// Whether the chain changed since it was loaded.
pub open spec fn chain_moved(o: OverlayView, now: Probe) -> bool {
    strs(now.paths@) != o.files || now.stamps@ != o.chain_stamps
}

/// Whether the skills changed since they were discovered.
pub open spec fn skills_moved(o: OverlayView, now: Probe) -> bool {
    strs(now.paths@) != o.skill_paths || now.stamps@ != o.skill_stamps
}

/// The overlay after a refresh: each half replaced when it changed, and kept when it did not.
pub open spec fn refreshed(o: OverlayView, f: Findings) -> OverlayView {
    let half = if chain_moved(o, f.chain_now) {
        OverlayView {
            chain: f.chain.content@,
            files: strs(f.chain.files@),
            chain_stamps: f.chain_now.stamps@,
            ..o
        }
    } else {
        o
    };
    if skills_moved(o, f.skills_now) {
        OverlayView {
            skills: views(f.skills@),
            warnings: strs(f.warnings@),
            skill_paths: strs(f.skills_then.paths@),
            skill_stamps: f.skills_then.stamps@,
            ..half
        }
    } else {
        half
    }
}

/// The text of an overlay: the chain, the catalog, or both with a blank line between them.
pub open spec fn overlay_text(o: OverlayView) -> Seq<char> {
    let c = catalog(o.skills);
    if o.chain.len() == 0 {
        c
    } else if c.len() == 0 {
        o.chain
    } else {
        o.chain + "\n\n"@ + c
    }
}

/// After a refresh that found a settled project, looking again reports no change: nothing is reloaded twice.
pub proof fn refresh_settles(o: OverlayView, f: Findings)
    requires
        strs(f.chain.files@) == strs(f.chain_now.paths@),
        strs(f.skills_then.paths@) == strs(f.skills_now.paths@),
        f.skills_then.stamps@ == f.skills_now.stamps@,
    ensures
        !chain_moved(refreshed(o, f), f.chain_now),
        !skills_moved(refreshed(o, f), f.skills_now),
        refreshed(refreshed(o, f), f) == refreshed(o, f),
{
}

impl Overlay {
    /// The overlay of a chain and of the skills among the files found under the discovery roots of `root` and
    /// `home`.
    pub fn new(
        root: &str,
        home: Option<&str>,
        chain: AgentsChain,
        chain_stamps: Vec<Option<u64>>,
        found: &Vec<SkillFile>,
        skills_probe: Probe,
    ) -> (r: Overlay)
        ensures
            r@ == (OverlayView {
                skill_dirs: roots_of(
                    root@,
                    match home {
                        Some(h) => Some(h@),
                        None => None,
                    },
                ),
                chain: chain.content@,
                files: strs(chain.files@),
                chain_stamps: chain_stamps@,
                skills: kept_skills(found@, found@.len() as int),
                warnings: skipped_skills(found@, found@.len() as int),
                skill_paths: strs(skills_probe.paths@),
                skill_stamps: skills_probe.stamps@,
            }),
    {
        let (skills, warnings) = discover_skills(found);
        Overlay::with_skill_dirs(
            skill_roots(root, home),
            chain,
            chain_stamps,
            skills,
            warnings,
            skills_probe,
        )
    }

    /// The overlay of a chain and the skills discovered under `skill_dirs`.
    pub fn with_skill_dirs(
        skill_dirs: Vec<String>,
        chain: AgentsChain,
        chain_stamps: Vec<Option<u64>>,
        skills: Vec<Skill>,
        warnings: Vec<String>,
        skills_probe: Probe,
    ) -> (r: Overlay)
        ensures
            r@ == (OverlayView {
                skill_dirs: strs(skill_dirs@),
                chain: chain.content@,
                files: strs(chain.files@),
                chain_stamps: chain_stamps@,
                skills: views(skills@),
                warnings: strs(warnings@),
                skill_paths: strs(skills_probe.paths@),
                skill_stamps: skills_probe.stamps@,
            }),
    {
        Overlay {
            skill_dirs,
            chain,
            chain_stamps,
            skills,
            warnings,
            skill_paths: skills_probe.paths,
            skill_stamps: skills_probe.stamps,
        }
    }

    /// The discovered skills, in catalog order.
    pub fn skills(&self) -> (r: &Vec<Skill>)
        ensures
            views(r@) == self@.skills,
    {
        &self.skills
    }

    /// The directories discovery scanned, in precedence order.
    pub fn skill_dirs(&self) -> (r: &Vec<String>)
        ensures
            strs(r@) == self@.skill_dirs,
    {
        &self.skill_dirs
    }

    /// Whether the chain changed since it was loaded.
    pub fn chain_changed(&self, now: &Probe) -> (r: bool)
        ensures
            r == chain_moved(self@, *now),
    {
        !same_strs(&now.paths, &self.chain.files) || !same_stamps(&now.stamps, &self.chain_stamps)
    }

    /// Whether the skills changed since they were discovered.
    pub fn skills_changed(&self, now: &Probe) -> (r: bool)
        ensures
            r == skills_moved(self@, *now),
    {
        !same_strs(&now.paths, &self.skill_paths) || !same_stamps(&now.stamps, &self.skill_stamps)
    }

    /// Rebuilds whichever half changed. Says of the chain and of the skills SEPARATELY whether they did.
    pub fn refresh(&mut self, f: Findings) -> (r: (bool, bool))
        ensures
            final(self)@ == refreshed(old(self)@, f),
            r.0 == chain_moved(old(self)@, f.chain_now),
            r.1 == skills_moved(old(self)@, f.skills_now),
    {
        let agents_changed = self.chain_changed(&f.chain_now);
        let skills_changed = self.skills_changed(&f.skills_now);
        if agents_changed {
            self.chain = f.chain;
            self.chain_stamps = f.chain_now.stamps;
        }
        if skills_changed {
            self.skills = f.skills;
            self.warnings = f.warnings;
            self.skill_paths = f.skills_then.paths;
            self.skill_stamps = f.skills_then.stamps;
        }
        (agents_changed, skills_changed)
    }

    /// The text of the overlay.
    pub fn content(&self) -> (r: String)
        ensures
            r@ == overlay_text(self@),
    {
        let c: String = skills_catalog(&self.skills);
        if self.chain.content.as_str().is_empty() {
            return c;
        }
        if c.as_str().is_empty() {
            return self.chain.content.clone();
        }
        let mut r: String = self.chain.content.clone();
        r.append("\n\n");
        r.append(c.as_str());
        r
    }

    /// What the discovery warned of.
    pub fn warnings(&self) -> (r: &Vec<String>)
        ensures
            strs(r@) == self@.warnings,
    {
        &self.warnings
    }

    /// Number of discovered skills.
    pub fn skill_count(&self) -> (r: usize)
        ensures
            r == self@.skills.len(),
    {
        self.skills.len()
    }

    /// Number of files in the chain.
    pub fn file_count(&self) -> (r: usize)
        ensures
            r == self@.files.len(),
    {
        self.chain.files.len()
    }

    /// Byte size of the chain ALONE.
    pub fn chain_size(&self) -> (r: usize)
        ensures
            r == encode_utf8(self@.chain).len() as usize,
    {
        self.chain.content.as_str().len()
    }
}

// ---------------------------------------------------------------- what is sent

/// The messages of a request: the conversation's own, or a copy with another system message.
pub enum Sent<'a> {
    /// The conversation as it is.
    Borrowed(&'a Vec<Message>),
    /// A copy of it.
    Owned(Vec<Message>),
}

impl<'a> Sent<'a> {
    /// The messages.
    pub open spec fn view(&self) -> Seq<MessageView> {
        match *self {
            Sent::Borrowed(v) => views(v@),
            Sent::Owned(v) => views(v@),
        }
    }

    /// The messages.
    pub fn messages(&self) -> (r: &Vec<Message>)
        ensures
            views(r@) == self.view(),
    {
        match self {
            Sent::Borrowed(v) => v,
            Sent::Owned(v) => v,
        }
    }
}

/// Whether a conversation opens with a system message.
pub open spec fn opens_with_system(history: Seq<MessageView>) -> bool {
    history.len() > 0 && role_of(history[0]) == Role::System
}

/// The content of the system message as sent: the harness, the user's own instructions inside a block, and
/// the overlay, a blank line apart.
pub open spec fn system_content(history: Seq<MessageView>, harness: Seq<char>, overlay: Seq<char>) ->
    Seq<char> {
    let head = if opens_with_system(history) && history[0].content.len() > 0 {
        harness + "\n\n<instructions>\n"@ + history[0].content + "\n</instructions>"@
    } else {
        harness
    };
    if overlay.len() > 0 {
        head + "\n\n"@ + overlay
    } else {
        head
    }
}

/// A conversation whose system message has another content; one is put at its head when there is none.
pub open spec fn with_system(history: Seq<MessageView>, content: Seq<char>) -> Seq<MessageView> {
    if opens_with_system(history) {
        history.update(0, MessageView { content, ..history[0] })
    } else {
        seq![plain_message(content, BodyView::System)] + history
    }
}

/// What is sent of a conversation. Without a harness: the conversation as it is, or its system message with the
/// overlay appended. With one, the system message is rebuilt from the three segments.
pub open spec fn sent_history(
    history: Seq<MessageView>,
    harness: Seq<char>,
    overlay: Seq<char>,
) -> Seq<MessageView> {
    if harness.len() > 0 {
        with_system(history, system_content(history, harness, overlay))
    } else if overlay.len() == 0 {
        history
    } else if opens_with_system(history) {
        with_system(history, history[0].content + "\n\n"@ + overlay)
    } else {
        with_system(history, overlay)
    }
}

/// What is sent differs from the conversation in its system message alone: every other message goes out as it
/// is, in its place.
pub proof fn only_the_system_message_changes(
    history: Seq<MessageView>,
    harness: Seq<char>,
    overlay: Seq<char>,
)
    ensures
        ({
            let sent = sent_history(history, harness, overlay);
            let lead = sent.len() - history.len();
            &&& lead == 0 || lead == 1
            &&& lead == 1 ==> sent[0].body == BodyView::System
            &&& forall|i: int|
                0 <= i < history.len() && !(i == 0 && opens_with_system(history))
                    ==> #[trigger] sent[lead + i] == history[i]
        }),
{
}

/// A conversation whose system message has another content.
fn replace_system(history: &Vec<Message>, content: String, has_system: bool) -> (r: Vec<Message>)
    requires
        has_system == opens_with_system(views(history@)),
    ensures
        views(r@) == with_system(views(history@), content@),
{
    let ghost all = views(history@);
    let mut out: Vec<Message> = copy_all(history);
    assert(out@.len() == views(out@).len());
    if has_system {
        let mut first: Message = out.remove(0);
        assert(views(history@)[0] == first@);
        first.content = content;
        out.insert(0, first);
        assert(views(out@) =~= with_system(all, content@)) by {
            assert forall|i: int| 1 <= i < all.len() implies (#[trigger] out@[i])@ == all[i] by {}
        }
    } else {
        let head: Message = Message::system(content.as_str());
        let ghost tail = views(out@);
        out.insert(0, head);
        assert(views(out@) =~= seq![head@] + tail);
    }
    out
}

/// What is sent of a conversation, which is never changed itself: its system message from three segments — the
/// built-in harness, the user's own instructions and the overlay.
pub fn compose_send_history<'a>(history: &'a Vec<Message>, harness: &str, overlay: &str) -> (r: Sent<
    'a,
>)
    ensures
        r.view() == sent_history(views(history@), harness@, overlay@),
        r is Borrowed <==> harness@.len() == 0 && overlay@.len() == 0,
        r matches Sent::Borrowed(v) ==> v == history,
{
    let has_system = history.len() > 0 && history[0].role() == Role::System;
    let ghost all = views(history@);
    proof {
        if history@.len() > 0 {
            assert(all[0] == history@[0]@);
        }
    }
    if harness.is_empty() {
        if overlay.is_empty() {
            return Sent::Borrowed(history);
        }
        let mut content: String = String::new();
        if has_system {
            content = history[0].content.clone();
            content.append("\n\n");
            content.append(overlay);
        } else {
            content.append(overlay);
            assert(content@ =~= overlay@);
        }
        return Sent::Owned(replace_system(history, content, has_system));
    }
    let mut content: String = own(harness);
    if has_system && !history[0].content.as_str().is_empty() {
        content.append("\n\n<instructions>\n");
        content.append(history[0].content.as_str());
        content.append("\n</instructions>");
    }
    if !overlay.is_empty() {
        content.append("\n\n");
        content.append(overlay);
    }
    Sent::Owned(replace_system(history, content, has_system))
}

} // verus!
