//! Skills: the roots they are discovered under, the validation of a `SKILL.md`, and the catalog of what was
//! found.

use vstd::prelude::*;
use vstd::string::*;
use vstd::utf8::encode_utf8;

use crate::app::paths::{is_under, parent, parent_of, under};
use crate::app::{join_path, path_join, DOT_DIR};
use crate::map::{views, Duplicate};
use crate::size::{bytes_add, bytes_at_most, bytes_in, bytes_of_ascii, size_within};
use crate::text::{
    begins, chars_of, debug_text, decimal, decimal_is_digits, decimal_of, digits_of_u64, ends, ends_with, find,
    first_occurrence, is_digit, lossy_text, own, parts_of, push_text, quoted, read_lossy,
    same, split, starts_with, strs, text_of,
};
use crate::yaml::{field_in, read, yaml_document, Node, Yaml};

verus! {

/// The file every skill directory must contain.
pub const SKILL_FILE_NAME: &'static str = "SKILL.md";

/// Maximum length of a skill name, in bytes.
pub const SKILL_NAME_MAX_LEN: usize = 64;

/// Maximum length of a skill description, in characters.
pub const SKILL_DESC_MAX_LEN: usize = 1024;

/// Byte cap of the catalog.
pub const SKILLS_CATALOG_CAP: usize = 32768;

/// The bytes of the catalog kept for its end: the note on what was left out, with a count of up to twenty
/// digits, and the closing tag.
pub const SKILLS_CATALOG_TAIL: usize = 101;

/// Byte cap of a single discovery read.
pub const SKILL_DISCOVERY_CAP: usize = 32768;

/// The catalog's leading instruction.
pub const SKILLS_CATALOG_INSTRUCTION: &'static str = "To use a skill, call the load_skill tool with the skill's name and follow the instructions it returns; read files the skill references by calling load_skill again with the \"file\" argument, and run its bundled scripts with the shell tool.";

/// One discovered skill.
pub struct Skill {
    /// The name (equals the directory name).
    pub name: String,
    /// The description.
    pub description: String,
    /// Absolute path of the `SKILL.md`.
    pub path: String,
}

/// What a [`Skill`] says.
pub struct SkillView {
    pub name: Seq<char>,
    pub description: Seq<char>,
    pub path: Seq<char>,
}

impl View for Skill {
    type V = SkillView;

    open spec fn view(&self) -> SkillView {
        SkillView { name: self.name@, description: self.description@, path: self.path@ }
    }
}

impl Duplicate for Skill {
    fn duplicate(&self) -> (r: Skill) {
        Skill {
            name: self.name.clone(),
            description: self.description.clone(),
            path: self.path.clone(),
        }
    }
}

/// The directory of a path: `.` for one with no directory above it.
pub open spec fn dir_of(path: Seq<char>) -> Seq<char> {
    match parent_of(path) {
        Some(p) => if p.len() > 0 {
            p
        } else {
            "."@
        },
        None => "."@,
    }
}

/// The directory of a path: `.` for one with no directory above it.
pub fn parent_dir(path: &str) -> (r: String)
    ensures
        r@ == dir_of(path@),
{
    match parent(path) {
        Some(p) => if p.as_str().is_empty() {
            own(".")
        } else {
            p
        },
        None => own("."),
    }
}

impl Skill {
    /// The skill's directory.
    pub fn dir(&self) -> (r: String)
        ensures
            r@ == dir_of(self@.path),
    {
        parent_dir(self.path.as_str())
    }
}

/// The `skills` directory inside `base` inside `dir`.
pub open spec fn skills_in(dir: Seq<char>, base: Seq<char>) -> Seq<char> {
    path_join(path_join(dir, base), "skills"@)
}

/// Where a skill was discovered, matched against the discovery roots in precedence order; its own directory
/// when it stands under none of them.
pub open spec fn source_tag(path: Seq<char>, root: Seq<char>, home: Option<Seq<char>>) -> Seq<
    char,
> {
    if under(path, skills_in(root, ".agents"@)) {
        "project"@
    } else if home is Some && under(path, skills_in(home->0, DOT_DIR@)) {
        "user"@
    } else if home is Some && under(path, skills_in(home->0, ".agents"@)) {
        "user (.agents)"@
    } else {
        dir_of(path)
    }
}

/// The `skills` directory inside `base` inside `dir`.
fn skills_dir(dir: &str, base: &str) -> (r: String)
    ensures
        r@ == skills_in(dir@, base@),
{
    join_path(join_path(dir, base).as_str(), "skills")
}

/// Where a skill was discovered.
pub fn skill_source_tag(path: &str, root: &str, home: Option<&str>) -> (r: String)
    ensures
        r@ == source_tag(
            path@,
            root@,
            match home {
                Some(h) => Some(h@),
                None => None,
            },
        ),
{
    if is_under(path, skills_dir(root, ".agents").as_str()) {
        return own("project");
    }
    if let Some(h) = home {
        if is_under(path, skills_dir(h, DOT_DIR).as_str()) {
            return own("user");
        }
        if is_under(path, skills_dir(h, ".agents").as_str()) {
            return own("user (.agents)");
        }
    }
    parent_dir(path)
}

/// The discovery roots, in precedence order.
pub open spec fn roots_of(root: Seq<char>, home: Option<Seq<char>>) -> Seq<Seq<char>> {
    match home {
        None => seq![skills_in(root, ".agents"@)],
        Some(h) => seq![skills_in(root, ".agents"@), skills_in(h, DOT_DIR@), skills_in(h, ".agents"@)],
    }
}

/// The discovery roots, in precedence order.
pub fn skill_roots(root: &str, home: Option<&str>) -> (r: Vec<String>)
    ensures
        strs(r@) == roots_of(
            root@,
            match home {
                Some(h) => Some(h@),
                None => None,
            },
        ),
{
    let mut dirs: Vec<String> = Vec::new();
    dirs.push(skills_dir(root, ".agents"));
    if let Some(h) = home {
        dirs.push(skills_dir(h, DOT_DIR));
        dirs.push(skills_dir(h, ".agents"));
    }
    assert(strs(dirs@) =~= roots_of(
        root@,
        match home {
            Some(h) => Some(h@),
            None => None,
        },
    ));
    dirs
}

/// Why a `SKILL.md` was rejected.
pub enum SkillError {
    /// The file does not start with `---`.
    MissingFrontmatter,
    /// No closing `---`.
    Unterminated,
    /// The frontmatter is not valid YAML.
    InvalidYaml(String),
    /// No `name` field.
    MissingName,
    /// The name is too long.
    NameTooLong,
    /// The name is not lowercase alphanumerics separated by single hyphens.
    InvalidName(String),
    /// The name differs from the directory name.
    NameMismatch(String, String),
    /// No `description` field.
    MissingDescription,
    /// The description is too long.
    DescriptionTooLong,
}

/// What a [`SkillError`] says.
pub enum SkillErrorView {
    MissingFrontmatter,
    Unterminated,
    InvalidYaml(Seq<char>),
    MissingName,
    NameTooLong,
    InvalidName(Seq<char>),
    NameMismatch(Seq<char>, Seq<char>),
    MissingDescription,
    DescriptionTooLong,
}

impl View for SkillError {
    type V = SkillErrorView;

    open spec fn view(&self) -> SkillErrorView {
        match *self {
            SkillError::MissingFrontmatter => SkillErrorView::MissingFrontmatter,
            SkillError::Unterminated => SkillErrorView::Unterminated,
            SkillError::InvalidYaml(e) => SkillErrorView::InvalidYaml(e@),
            SkillError::MissingName => SkillErrorView::MissingName,
            SkillError::NameTooLong => SkillErrorView::NameTooLong,
            SkillError::InvalidName(n) => SkillErrorView::InvalidName(n@),
            SkillError::NameMismatch(n, d) => SkillErrorView::NameMismatch(n@, d@),
            SkillError::MissingDescription => SkillErrorView::MissingDescription,
            SkillError::DescriptionTooLong => SkillErrorView::DescriptionTooLong,
        }
    }
}

/// The text of an error.
pub open spec fn skill_error_text(e: SkillErrorView) -> Seq<char> {
    match e {
        SkillErrorView::MissingFrontmatter => "missing YAML frontmatter (file must start with ---)"@,
        SkillErrorView::Unterminated => "unterminated YAML frontmatter (missing closing ---)"@,
        SkillErrorView::InvalidYaml(e) => "invalid frontmatter YAML: "@ + e,
        SkillErrorView::MissingName => "frontmatter is missing required field \"name\""@,
        SkillErrorView::NameTooLong => "name exceeds 64 characters"@,
        SkillErrorView::InvalidName(n) => "invalid name "@ + debug_text(n)
            + " (want lowercase alphanumerics separated by single hyphens)"@,
        SkillErrorView::NameMismatch(n, d) => "name "@ + debug_text(n)
            + " does not match directory name "@ + debug_text(d),
        SkillErrorView::MissingDescription => "frontmatter is missing required field \"description\""@,
        SkillErrorView::DescriptionTooLong => "description exceeds 1024 characters"@,
    }
}

impl SkillError {
    /// The text of the error.
    pub fn message(&self) -> (r: String)
        ensures
            r@ == skill_error_text(self@),
    {
        match self {
            SkillError::MissingFrontmatter => own(
                "missing YAML frontmatter (file must start with ---)",
            ),
            SkillError::Unterminated => own("unterminated YAML frontmatter (missing closing ---)"),
            SkillError::InvalidYaml(e) => {
                let mut m: String = own("invalid frontmatter YAML: ");
                m.append(e.as_str());
                m
            },
            SkillError::MissingName => own("frontmatter is missing required field \"name\""),
            SkillError::NameTooLong => own("name exceeds 64 characters"),
            SkillError::InvalidName(n) => {
                let mut m: String = own("invalid name ");
                m.append(quoted(n.as_str()).as_str());
                m.append(" (want lowercase alphanumerics separated by single hyphens)");
                m
            },
            SkillError::NameMismatch(n, d) => {
                let mut m: String = own("name ");
                m.append(quoted(n.as_str()).as_str());
                m.append(" does not match directory name ");
                m.append(quoted(d.as_str()).as_str());
                m
            },
            SkillError::MissingDescription => own(
                "frontmatter is missing required field \"description\"",
            ),
            SkillError::DescriptionTooLong => own("description exceeds 1024 characters"),
        }
    }
}

/// `s` with each carriage return before a newline left out.
pub open spec fn lf_only(s: Seq<char>) -> Seq<char>
    decreases s.len(),
{
    if s.len() == 0 {
        s
    } else if s.len() >= 2 && s[0] == '\r' && s[1] == '\n' {
        lf_only(s.skip(1))
    } else {
        s.take(1) + lf_only(s.skip(1))
    }
}

/// `s` with each carriage return before a newline left out.
fn drop_returns(s: &str) -> (r: String)
    ensures
        r@ == lf_only(s@),
{
    let v: Vec<char> = chars_of(s);
    let n: usize = v.len();
    let mut out: String = String::new();
    assert(v@.skip(0) =~= s@);
    assert(out@ + lf_only(v@.skip(0)) =~= lf_only(s@));
    for i in 0..n
        invariant
            n == v.len(),
            v@ == s@,
            out@ + lf_only(v@.skip(i as int)) == lf_only(s@),
    {
        let ghost rest = v@.skip(i as int);
        let ghost was = out@;
        assert(rest.skip(1) =~= v@.skip(i + 1));
        if !(v[i] == '\r' && i + 1 < n && v[i + 1] == '\n') {
            out.push(v[i]);
            assert(was + (rest.take(1) + lf_only(rest.skip(1))) =~= out@ + lf_only(
                v@.skip(i + 1),
            ));
        }
    }
    assert(v@.skip(n as int) =~= Seq::<char>::empty());
    assert(out@ =~= lf_only(s@));
    out
}

/// The frontmatter and the body of a text: the frontmatter opens with a line `---` at the start and closes
/// with the next one.
pub open spec fn frontmatter(text: Seq<char>) -> Result<(Seq<char>, Seq<char>), SkillErrorView> {
    let after = text.skip(3);
    let rest = if after.len() > 0 && after[0] == '\n' {
        after.skip(1)
    } else {
        after
    };
    if !begins(text, "---\n"@) && text != "---"@ {
        Err(SkillErrorView::MissingFrontmatter)
    } else {
        match first_occurrence(rest, "\n---\n"@, 0) {
            Some(i) => Ok((rest.take(i), rest.skip(i + 5))),
            None => if ends(rest, "\n---"@) {
                Ok((rest.take(rest.len() - 4), Seq::empty()))
            } else {
                Err(SkillErrorView::Unterminated)
            },
        }
    }
}

/// The result of splitting, as a mathematical one.
pub open spec fn split_view(r: Result<(String, String), SkillError>) -> Result<
    (Seq<char>, Seq<char>),
    SkillErrorView,
> {
    match r {
        Ok((a, b)) => Ok((a@, b@)),
        Err(e) => Err(e@),
    }
}

/// Splits the text of `data` into its frontmatter and its body.
pub fn split_frontmatter(data: &[u8]) -> (r: Result<(String, String), SkillError>)
    ensures
        split_view(r) == frontmatter(lf_only(lossy_text(data@))),
{
    split_text(read_lossy(data).as_str())
}

/// The frontmatter and the body of a text.
pub fn split_text(text: &str) -> (r: Result<(String, String), SkillError>)
    ensures
        split_view(r) == frontmatter(lf_only(text@)),
{
    let text: String = drop_returns(text);
    proof {
        reveal_strlit("---\n");
        reveal_strlit("---");
        reveal_strlit("\n---\n");
        reveal_strlit("\n---");
    }
    if !starts_with(text.as_str(), "---\n") && !same(text.as_str(), "---") {
        return Err(SkillError::MissingFrontmatter);
    }
    let v: Vec<char> = chars_of(text.as_str());
    let from: usize = if v.len() > 3 && v[3] == '\n' {
        4
    } else {
        3
    };
    let rest: String = text_of(&v, from, v.len());
    let ghost want = if from == 4 {
        text@.skip(3).skip(1)
    } else {
        text@.skip(3)
    };
    assert(rest@ =~= want);
    let w: Vec<char> = chars_of(rest.as_str());
    if let Some(i) = find(&w, &chars_of("\n---\n"), 0) {
        let front: String = text_of(&w, 0, i);
        let body: String = text_of(&w, i + 5, w.len());
        assert(front@ =~= rest@.take(i as int));
        assert(body@ =~= rest@.skip(i + 5));
        return Ok((front, body));
    }
    if ends_with(rest.as_str(), "\n---") {
        let front: String = text_of(&w, 0, w.len() - 4);
        assert(front@ =~= rest@.take(rest@.len() - 4));
        return Ok((front, String::new()));
    }
    Err(SkillError::Unterminated)
}

/// `s` without the newlines at its start.
pub open spec fn past_newlines(s: Seq<char>) -> Seq<char>
    decreases s.len(),
{
    if s.len() > 0 && s[0] == '\n' {
        past_newlines(s.skip(1))
    } else {
        s
    }
}

/// The instructions after the frontmatter.
pub fn skill_body(data: &[u8]) -> (r: Result<String, SkillError>)
    ensures
        match frontmatter(lf_only(lossy_text(data@))) {
            Ok((_, body)) => r matches Ok(t) && t@ == past_newlines(body),
            Err(e) => r matches Err(x) && x@ == e,
        },
{
    match split_frontmatter(data) {
        Ok((_, body)) => {
            let v: Vec<char> = chars_of(body.as_str());
            let mut i: usize = 0;
            assert(v@.skip(0) =~= body@);
            while i < v.len() && v[i] == '\n'
                invariant
                    i <= v.len(),
                    past_newlines(body@) == past_newlines(v@.skip(i as int)),
                ensures
                    i <= v.len(),
                    past_newlines(body@) == v@.skip(i as int),
                decreases v.len() - i,
            {
                assert(v@.skip(i as int).skip(1) =~= v@.skip(i + 1));
                i += 1;
            }
            let t: String = text_of(&v, i, v.len());
            assert(t@ =~= v@.skip(i as int));
            Ok(t)
        },
        Err(e) => Err(e),
    }
}

/// A scalar as text: a text, a number or a boolean; anything else reads as absent.
pub open spec fn scalar_node(n: Option<Node>) -> Seq<char> {
    match n {
        Some(Node::Text(t)) => t,
        Some(Node::Number(t)) => t,
        Some(Node::Bool(true)) => "true"@,
        Some(Node::Bool(false)) => "false"@,
        _ => Seq::empty(),
    }
}

/// A scalar field of a document as text.
fn scalar_field(doc: &Yaml, key: &str) -> (r: String)
    ensures
        r@ == scalar_node(field_in(doc@, key@)),
{
    match doc.field(key) {
        Some(Yaml::Text(t)) => t.clone(),
        Some(Yaml::Number(t)) => t.clone(),
        Some(Yaml::Bool(b)) => if *b {
            own("true")
        } else {
            own("false")
        },
        _ => String::new(),
    }
}

/// A part of a name: lowercase letters and digits, at least one.
pub open spec fn is_segment(s: Seq<char>) -> bool {
    s.len() > 0 && forall|i: int| 0 <= i < s.len() ==> ('a' <= #[trigger] s[i] <= 'z' || is_digit(s[i]))
}

/// Lowercase alphanumerics separated by single hyphens.
pub open spec fn name_is_valid(s: Seq<char>) -> bool {
    forall|i: int| 0 <= i < parts_of(s, '-').len() ==> is_segment(#[trigger] parts_of(s, '-')[i])
}

/// Whether `s` is lowercase alphanumerics separated by single hyphens.
pub fn valid_skill_name(s: &str) -> (r: bool)
    ensures
        r == name_is_valid(s@),
{
    let parts: Vec<String> = split(s, '-');
    let ghost all = parts_of(s@, '-');
    assert(all.len() == parts@.len());
    for i in 0..parts.len()
        invariant
            all == parts_of(s@, '-'),
            strs(parts@) == all,
            forall|k: int| 0 <= k < i ==> is_segment(#[trigger] all[k]),
    {
        let v: Vec<char> = chars_of(parts[i].as_str());
        assert(all[i as int] == v@);
        if v.len() == 0 {
            return false;
        }
        for k in 0..v.len()
            invariant
                all == parts_of(s@, '-'),
                i < all.len(),
                all[i as int] == v@,
                forall|j: int| 0 <= j < k ==> ('a' <= #[trigger] v@[j] <= 'z' || is_digit(v@[j])),
        {
            let c: char = v[k];
            if !(('a' <= c && c <= 'z') || ('0' <= c && c <= '9')) {
                assert(!is_segment(all[i as int]));
                return false;
            }
        }
        assert(is_segment(all[i as int]));
    }
    true
}

/// What a `SKILL.md` in the directory `dir_name` is: the skill, or the first rule it breaks.
pub open spec fn skill_of(text: Seq<char>, dir_name: Seq<char>, path: Seq<char>) -> Result<
    SkillView,
    SkillErrorView,
> {
    match frontmatter(text) {
        Err(e) => Err(e),
        Ok((front, _)) => match yaml_document(encode_utf8(front)) {
            Err(e) => Err(SkillErrorView::InvalidYaml(e)),
            Ok(doc) => described_skill(doc, dir_name, path),
        },
    }
}

/// What a frontmatter describes in the directory `dir_name`.
pub open spec fn described_skill(doc: Node, dir_name: Seq<char>, path: Seq<char>) -> Result<
    SkillView,
    SkillErrorView,
> {
    checked_skill(
        scalar_node(field_in(doc, "name"@)),
        scalar_node(field_in(doc, "description"@)),
        dir_name,
        path,
    )
}

/// What a name and a description in the directory `dir_name` make: the skill, or the first rule they break.
pub open spec fn checked_skill(
    name: Seq<char>,
    description: Seq<char>,
    dir_name: Seq<char>,
    path: Seq<char>,
) -> Result<SkillView, SkillErrorView> {
    if name.len() == 0 {
        Err(SkillErrorView::MissingName)
    } else if bytes_in(name) > SKILL_NAME_MAX_LEN {
        Err(SkillErrorView::NameTooLong)
    } else if !name_is_valid(name) {
        Err(SkillErrorView::InvalidName(name))
    } else if name != dir_name {
        Err(SkillErrorView::NameMismatch(name, dir_name))
    } else if description.len() == 0 {
        Err(SkillErrorView::MissingDescription)
    } else if description.len() > SKILL_DESC_MAX_LEN {
        Err(SkillErrorView::DescriptionTooLong)
    } else {
        Ok(SkillView { name, description, path })
    }
}

/// The result of a validation, as a mathematical one.
pub open spec fn skill_result(r: Result<Skill, SkillError>) -> Result<SkillView, SkillErrorView> {
    match r {
        Ok(s) => Ok(s@),
        Err(e) => Err(e@),
    }
}

/// Checks a name and a description that stand in the directory `dir_name`.
pub fn check_skill(name: String, description: String, dir_name: &str, path: &str) -> (r: Result<
    Skill,
    SkillError,
>)
    ensures
        skill_result(r) == checked_skill(name@, description@, dir_name@, path@),
{
    if name.as_str().is_empty() {
        return Err(SkillError::MissingName);
    }
    if size_within(name.as_str(), SKILL_NAME_MAX_LEN).is_none() {
        return Err(SkillError::NameTooLong);
    }
    if !valid_skill_name(name.as_str()) {
        return Err(SkillError::InvalidName(name));
    }
    if !same(name.as_str(), dir_name) {
        return Err(SkillError::NameMismatch(name, own(dir_name)));
    }
    if description.as_str().is_empty() {
        return Err(SkillError::MissingDescription);
    }
    if chars_of(description.as_str()).len() > SKILL_DESC_MAX_LEN {
        return Err(SkillError::DescriptionTooLong);
    }
    Ok(Skill { name, description, path: own(path) })
}

/// Validates a `SKILL.md`: frontmatter present, name valid and equal to `dir_name`, description present and
/// within the cap. `path` is the absolute path of the file.
pub fn parse_skill(data: &[u8], dir_name: &str, path: &str) -> (r: Result<Skill, SkillError>)
    ensures
        skill_result(r) == skill_of(lf_only(lossy_text(data@)), dir_name@, path@),
{
    match split_frontmatter(data) {
        Err(e) => Err(e),
        Ok((front, _)) => match read(front.as_str().as_bytes()) {
            Err(e) => Err(SkillError::InvalidYaml(e)),
            Ok(doc) => skill_in(&doc, dir_name, path),
        },
    }
}

/// The skill that a frontmatter describes in the directory `dir_name`.
pub fn skill_in(doc: &Yaml, dir_name: &str, path: &str) -> (r: Result<Skill, SkillError>)
    ensures
        skill_result(r) == described_skill(doc@, dir_name@, path@),
{
    check_skill(scalar_field(doc, "name"), scalar_field(doc, "description"), dir_name, path)
}

/// A `SKILL.md` that was found.
pub struct SkillFile {
    /// The name of the directory it stands in.
    pub dir_name: String,
    /// Its path.
    pub path: String,
    /// Its bytes, up to the discovery cap.
    pub data: Vec<u8>,
}

/// What one found file is.
pub open spec fn found_skill(f: SkillFile) -> Result<SkillView, SkillErrorView> {
    skill_of(lf_only(lossy_text(f.data@)), f.dir_name@, f.path@)
}

/// Whether a skill of the list has the name.
pub open spec fn is_named(skills: Seq<SkillView>, name: Seq<char>) -> bool {
    exists|i: int| 0 <= i < skills.len() && (#[trigger] skills[i]).name == name
}

/// The skills of the first `n` files: of each name the first.
pub open spec fn kept_skills(files: Seq<SkillFile>, n: int) -> Seq<SkillView>
    decreases n,
{
    if n <= 0 || n > files.len() {
        Seq::empty()
    } else {
        let kept = kept_skills(files, n - 1);
        match found_skill(files[n - 1]) {
            Ok(s) => if is_named(kept, s.name) {
                kept
            } else {
                kept.push(s)
            },
            Err(_) => kept,
        }
    }
}

/// The warnings about the first `n` files: one for each that is no skill.
pub open spec fn skipped_skills(files: Seq<SkillFile>, n: int) -> Seq<Seq<char>>
    decreases n,
{
    if n <= 0 || n > files.len() {
        Seq::empty()
    } else {
        let skipped = skipped_skills(files, n - 1);
        match found_skill(files[n - 1]) {
            Ok(_) => skipped,
            Err(e) => skipped.push(
                "skill "@ + files[n - 1].path@ + ": "@ + skill_error_text(e) + " (skipped)"@,
            ),
        }
    }
}

/// The skills among the files that were found, in the order of the roots; the first of a name wins, and a file
/// that is no skill is warned about.
pub fn discover_skills(files: &Vec<SkillFile>) -> (r: (Vec<Skill>, Vec<String>))
    ensures
        views(r.0@) == kept_skills(files@, files@.len() as int),
        strs(r.1@) == skipped_skills(files@, files@.len() as int),
{
    let mut skills: Vec<Skill> = Vec::new();
    let mut warnings: Vec<String> = Vec::new();
    assert(views(skills@) =~= Seq::<SkillView>::empty());
    assert(strs(warnings@) =~= Seq::<Seq<char>>::empty());
    for i in 0..files.len()
        invariant
            views(skills@) == kept_skills(files@, i as int),
            strs(warnings@) == skipped_skills(files@, i as int),
    {
        let f: &SkillFile = &files[i];
        match parse_skill(f.data.as_slice(), f.dir_name.as_str(), f.path.as_str()) {
            Ok(s) => {
                if !names(&skills, s.name.as_str()) {
                    let ghost was = views(skills@);
                    skills.push(s);
                    assert(views(skills@) =~= was.push(s@));
                }
            },
            Err(e) => {
                let mut m: String = own("skill ");
                m.append(f.path.as_str());
                m.append(": ");
                m.append(e.message().as_str());
                m.append(" (skipped)");
                push_text(&mut warnings, m);
            },
        }
    }
    (skills, warnings)
}

/// Whether a skill of the list has the name.
fn names(skills: &Vec<Skill>, name: &str) -> (r: bool)
    ensures
        r == is_named(views(skills@), name@),
{
    for i in 0..skills.len()
        invariant
            forall|k: int| 0 <= k < i ==> (#[trigger] views(skills@)[k]).name != name@,
    {
        if same(skills[i].name.as_str(), name) {
            assert(views(skills@)[i as int].name == name@);
            return true;
        }
    }
    false
}

/// No two discovered skills share a name.
pub proof fn discovered_names_differ(files: Seq<SkillFile>, n: int)
    requires
        0 <= n <= files.len(),
    ensures
        forall|i: int, j: int|
            0 <= i < j < kept_skills(files, n).len() ==> (#[trigger] kept_skills(files, n)[i]).name
                != (#[trigger] kept_skills(files, n)[j]).name,
    decreases n,
{
    if n > 0 {
        discovered_names_differ(files, n - 1);
        let kept = kept_skills(files, n - 1);
        let all = kept_skills(files, n);
        assert forall|i: int, j: int| 0 <= i < j < all.len() implies (#[trigger] all[i]).name != (
        #[trigger] all[j]).name by {
            assert(all[i] == kept[i]);
            if j < kept.len() {
                assert(all[j] == kept[j]);
            }
        }
    }
}

/// `s` with `&`, `<` and `>` escaped.
pub open spec fn escaped(s: Seq<char>) -> Seq<char>
    decreases s.len(),
{
    if s.len() == 0 {
        s
    } else {
        escaped(s.drop_last()) + escaped_char(s.last())
    }
}

/// One character escaped.
pub open spec fn escaped_char(c: char) -> Seq<char> {
    if c == '&' {
        "&amp;"@
    } else if c == '<' {
        "&lt;"@
    } else if c == '>' {
        "&gt;"@
    } else {
        seq![c]
    }
}

/// `s` with `&`, `<` and `>` escaped.
pub fn xml_escape(s: &str) -> (r: String)
    ensures
        r@ == escaped(s@),
{
    let v: Vec<char> = chars_of(s);
    let mut out: String = String::new();
    assert(v@.take(0) =~= Seq::<char>::empty());
    for i in 0..v.len()
        invariant
            v@ == s@,
            out@ == escaped(v@.take(i as int)),
    {
        let c: char = v[i];
        assert(v@.take(i + 1).drop_last() =~= v@.take(i as int));
        if c == '&' {
            out.append("&amp;");
        } else if c == '<' {
            out.append("&lt;");
        } else if c == '>' {
            out.append("&gt;");
        } else {
            let ghost was = out@;
            out.push(c);
            assert(out@ =~= was + seq![c]);
        }
    }
    assert(v@.take(v@.len() as int) =~= s@);
    out
}

/// Escaped text holds no angle bracket: it can neither open nor close a block around it.
pub proof fn escaped_text_has_no_brackets(s: Seq<char>)
    ensures
        !escaped(s).contains('<'),
        !escaped(s).contains('>'),
    decreases s.len(),
{
    reveal_strlit("&amp;");
    reveal_strlit("&lt;");
    reveal_strlit("&gt;");
    if s.len() > 0 {
        escaped_text_has_no_brackets(s.drop_last());
        let a = escaped(s.drop_last());
        let b = escaped_char(s.last());
        assert forall|i: int| 0 <= i < (a + b).len() implies (a + b)[i] != '<' && (a + b)[i] != '>' by {
            if i < a.len() {
                assert((a + b)[i] == a[i]);
                assert(a.contains(a[i]));
            } else {
                assert((a + b)[i] == b[i - a.len()]);
            }
        }
    }
}

/// The entry of one skill.
pub open spec fn catalog_entry(s: SkillView) -> Seq<char> {
    "<skill>\n<name>"@ + escaped(s.name) + "</name>\n<description>"@ + escaped(s.description)
        + "</description>\n</skill>\n"@
}

/// The opening of the catalog.
pub open spec fn catalog_head() -> Seq<char> {
    SKILLS_CATALOG_INSTRUCTION@ + "\n\n<available_skills>\n"@
}

/// The opening of the catalog with the entries of the first `n` skills.
pub open spec fn catalog_whole(skills: Seq<SkillView>, n: int) -> Seq<char>
    decreases n,
{
    if n <= 0 || n > skills.len() {
        catalog_head()
    } else {
        catalog_whole(skills, n - 1) + catalog_entry(skills[n - 1])
    }
}

/// The opening of the catalog with the entries of the first `n` skills that fit beside the note and the closing
/// tag, each tried in turn.
pub open spec fn catalog_body(skills: Seq<SkillView>, n: int) -> Seq<char>
    decreases n,
{
    if n <= 0 || n > skills.len() {
        catalog_head()
    } else {
        let body = catalog_body(skills, n - 1);
        let entry = catalog_entry(skills[n - 1]);
        if bytes_in(body) + bytes_in(entry) > SKILLS_CATALOG_CAP - SKILLS_CATALOG_TAIL {
            body
        } else {
            body + entry
        }
    }
}

/// How many of the first `n` skills did not fit.
pub open spec fn catalog_omitted(skills: Seq<SkillView>, n: int) -> nat
    decreases n,
{
    if n <= 0 || n > skills.len() {
        0
    } else {
        let body = catalog_body(skills, n - 1);
        let entry = catalog_entry(skills[n - 1]);
        if bytes_in(body) + bytes_in(entry) > SKILLS_CATALOG_CAP - SKILLS_CATALOG_TAIL {
            catalog_omitted(skills, n - 1) + 1
        } else {
            catalog_omitted(skills, n - 1)
        }
    }
}

/// The catalog: nothing without a skill; every entry and the closing tag where they fit; else the entries that
/// fit beside its end, a note on how many do not, and the closing tag.
pub open spec fn catalog(skills: Seq<SkillView>) -> Seq<char> {
    let n = skills.len() as int;
    let whole = catalog_whole(skills, n) + "</available_skills>"@;
    if n == 0 {
        Seq::empty()
    } else if bytes_in(whole) <= SKILLS_CATALOG_CAP {
        whole
    } else {
        catalog_body(skills, n) + "<note>"@ + decimal_of(catalog_omitted(skills, n))
            + " more skill(s) omitted: catalog size cap reached</note>\n"@ + "</available_skills>"@
    }
}

/// Where nothing was left out, every entry is there.
proof fn nothing_omitted(skills: Seq<SkillView>, n: int)
    ensures
        catalog_omitted(skills, n) == 0 ==> catalog_body(skills, n) == catalog_whole(skills, n),
    decreases n,
{
    if 0 < n <= skills.len() {
        nothing_omitted(skills, n - 1);
    }
}

/// A catalog has its note only where a skill is left out: one whose entries do not all fit omits at least one of
/// them.
pub proof fn a_note_counts_a_skill(skills: Seq<SkillView>)
    requires
        bytes_in(catalog_whole(skills, skills.len() as int) + "</available_skills>"@)
            > SKILLS_CATALOG_CAP,
    ensures
        catalog_omitted(skills, skills.len() as int) > 0,
{
    reveal_strlit("</available_skills>");
    let n = skills.len() as int;
    body_fits(skills, n);
    nothing_omitted(skills, n);
    bytes_of_ascii("</available_skills>"@);
    bytes_add(catalog_whole(skills, n), "</available_skills>"@);
}

/// The entries that were taken leave room for the end of the catalog.
proof fn body_fits(skills: Seq<SkillView>, n: int)
    ensures
        bytes_in(catalog_body(skills, n)) <= SKILLS_CATALOG_CAP - SKILLS_CATALOG_TAIL,
        catalog_omitted(skills, n) <= if n > 0 { n } else { 0 },
    decreases n,
{
    reveal_strlit(
        "To use a skill, call the load_skill tool with the skill's name and follow the instructions it returns; read files the skill references by calling load_skill again with the \"file\" argument, and run its bundled scripts with the shell tool.",
    );
    reveal_strlit("\n\n<available_skills>\n");
    bytes_at_most(catalog_head());
    if 0 < n <= skills.len() {
        body_fits(skills, n - 1);
        bytes_add(catalog_body(skills, n - 1), catalog_entry(skills[n - 1]));
    }
}

/// The catalog stays within its cap, note and closing tag included.
pub proof fn catalog_fits(skills: Seq<SkillView>)
    requires
        skills.len() <= u64::MAX,
    ensures
        bytes_in(catalog(skills)) <= SKILLS_CATALOG_CAP,
{
    reveal_strlit("<note>");
    reveal_strlit(" more skill(s) omitted: catalog size cap reached</note>\n");
    reveal_strlit("</available_skills>");
    let n = skills.len() as int;
    let body = catalog_body(skills, n);
    let omitted = catalog_omitted(skills, n);
    let note = "<note>"@ + decimal_of(omitted)
        + " more skill(s) omitted: catalog size cap reached</note>\n"@;
    body_fits(skills, n);
    bytes_of_ascii("</available_skills>"@);
    decimal_is_digits(omitted);
    digits_of_u64(omitted);
    bytes_of_ascii(note);
    bytes_add(body, note);
    bytes_add(body + note, "</available_skills>"@);
    assert(body + "<note>"@ + decimal_of(omitted)
        + " more skill(s) omitted: catalog size cap reached</note>\n"@ + "</available_skills>"@
        =~= body + note + "</available_skills>"@);
}

/// The entry of one skill.
fn entry_of(s: &Skill) -> (r: String)
    ensures
        r@ == catalog_entry(s@),
{
    let mut e: String = own("<skill>\n<name>");
    e.append(xml_escape(s.name.as_str()).as_str());
    e.append("</name>\n<description>");
    e.append(xml_escape(s.description.as_str()).as_str());
    e.append("</description>\n</skill>\n");
    e
}

/// The catalog of the skills.
pub fn skills_catalog(skills: &Vec<Skill>) -> (r: String)
    ensures
        r@ == catalog(views(skills@)),
        bytes_in(r@) <= SKILLS_CATALOG_CAP,
{
    let ghost all = views(skills@);
    proof {
        assert(all.len() == skills.len());
        catalog_fits(all);
    }
    if skills.len() == 0 {
        return String::new();
    }
    let mut b: String = own(SKILLS_CATALOG_INSTRUCTION);
    b.append("\n\n<available_skills>\n");
    let mut every: String = b.clone();
    for i in 0..skills.len()
        invariant
            all == views(skills@),
            every@ == catalog_whole(all, i as int),
    {
        assert(all[i as int] == skills@[i as int]@);
        every.append(entry_of(&skills[i]).as_str());
    }
    every.append("</available_skills>");
    if size_within(every.as_str(), SKILLS_CATALOG_CAP).is_some() {
        return every;
    }
    let mut omitted: usize = 0;
    for i in 0..skills.len()
        invariant
            all == views(skills@),
            b@ == catalog_body(all, i as int),
            omitted == catalog_omitted(all, i as int),
            omitted <= i,
    {
        let entry: String = entry_of(&skills[i]);
        assert(all[i as int] == skills@[i as int]@);
        let mut whole: String = b.clone();
        whole.append(entry.as_str());
        proof {
            bytes_add(b@, entry@);
        }
        if size_within(whole.as_str(), SKILLS_CATALOG_CAP - SKILLS_CATALOG_TAIL).is_none() {
            omitted += 1;
        } else {
            b = whole;
        }
    }
    b.append("<note>");
    b.append(decimal(omitted as u64).as_str());
    b.append(" more skill(s) omitted: catalog size cap reached</note>\n");
    b.append("</available_skills>");
    b
}

} // verus!
