//! YAML documents as plain trees.
//!
//! `serde_norway` reads and writes the text; the logic of this crate works on [`Yaml`].

use vstd::prelude::*;
use vstd::utf8::encode_utf8;

use crate::map::Duplicate;
use crate::text::{is_white, same};

verus! {

/// A YAML document, as mathematics: what the contracts speak of.
pub enum Node {
    Null,
    Bool(bool),
    Number(Seq<char>),
    Text(Seq<char>),
    List(Seq<Node>),
    Mapping(Seq<(Node, Node)>),
    Tagged(Seq<char>, Box<Node>),
}

/// A YAML document. A number is kept as the text it prints as.
pub enum Yaml {
    Null,
    Bool(bool),
    Number(String),
    Text(String),
    List(Vec<Yaml>),
    Mapping(Vec<(Yaml, Yaml)>),
    Tagged(String, Box<Yaml>),
}

impl View for Yaml {
    type V = Node;

    open spec fn view(&self) -> Node {
        yaml_view(*self)
    }
}

/// The tree a document is.
pub open spec fn yaml_view(y: Yaml) -> Node
    decreases y,
{
    match y {
        Yaml::Null => Node::Null,
        Yaml::Bool(b) => Node::Bool(b),
        Yaml::Number(t) => Node::Number(t@),
        Yaml::Text(t) => Node::Text(t@),
        Yaml::List(v) => Node::List(
            Seq::new(
                v@.len(),
                |i: int|
                    if 0 <= i < v@.len() {
                        yaml_view(v@[i])
                    } else {
                        Node::Null
                    },
            ),
        ),
        Yaml::Mapping(v) => Node::Mapping(
            Seq::new(
                v@.len(),
                |i: int|
                    if 0 <= i < v@.len() {
                        (yaml_view(v@[i].0), yaml_view(v@[i].1))
                    } else {
                        (Node::Null, Node::Null)
                    },
            ),
        ),
        Yaml::Tagged(t, b) => Node::Tagged(t@, Box::new(yaml_view(*b))),
    }
}

/// A tree without the tags around it.
pub open spec fn untagged(n: Node) -> Node
    decreases n,
{
    match n {
        Node::Tagged(_, inner) => untagged(*inner),
        _ => n,
    }
}

/// The text of a tree that is one, tags left aside.
pub open spec fn text_in(n: Node) -> Option<Seq<char>> {
    match untagged(n) {
        Node::Text(t) => Some(t),
        _ => None,
    }
}

/// The value of the first entry from `i` on whose key is the text `key`.
pub open spec fn entry_from(entries: Seq<(Node, Node)>, key: Seq<char>, i: int) -> Option<Node>
    decreases entries.len() - i,
{
    if i < 0 || i >= entries.len() {
        None
    } else if entries[i].0 == Node::Text(key) {
        Some(entries[i].1)
    } else {
        entry_from(entries, key, i + 1)
    }
}

/// The value a mapping has for the text `key`, tags around the mapping left aside.
pub open spec fn field_in(n: Node, key: Seq<char>) -> Option<Node> {
    match untagged(n) {
        Node::Mapping(entries) => entry_from(entries, key, 0),
        _ => None,
    }
}

impl Yaml {
    /// The tree without the tags around it.
    pub fn untag(&self) -> (r: &Yaml)
        ensures
            r@ == untagged(self@),
            !(r is Tagged),
        decreases self,
    {
        match self {
            Yaml::Tagged(_, inner) => inner.untag(),
            _ => self,
        }
    }

    /// The text of a tree that is one, tags left aside.
    pub fn as_text(&self) -> (r: Option<&String>)
        ensures
            match r {
                Some(t) => text_in(self@) == Some(t@),
                None => text_in(self@) is None,
            },
    {
        match self.untag() {
            Yaml::Text(t) => Some(t),
            _ => None,
        }
    }

    /// The value a mapping has for the text `key`, tags around the mapping left aside.
    pub fn field(&self, key: &str) -> (r: Option<&Yaml>)
        ensures
            match r {
                Some(y) => field_in(self@, key@) == Some(y@),
                None => field_in(self@, key@) is None,
            },
    {
        match self.untag() {
            Yaml::Mapping(entries) => {
                let ghost all = untagged(self@)->Mapping_0;
                for i in 0..entries.len()
                    invariant
                        untagged(self@) == Node::Mapping(all),
                        all.len() == entries@.len(),
                        forall|k: int|
                            0 <= k < all.len() ==> #[trigger] all[k] == (
                                entries@[k].0@,
                                entries@[k].1@,
                            ),
                        field_in(self@, key@) == entry_from(all, key@, i as int),
                {
                    assert(all[i as int] == (entries@[i as int].0@, entries@[i as int].1@));
                    if let Yaml::Text(t) = &entries[i].0 {
                        if same(t.as_str(), key) {
                            return Some(&entries[i].1);
                        }
                    }
                }
                None
            },
            _ => None,
        }
    }
}

/// What YAML 1.1 reads a word as where a truth value is wanted.
pub open spec fn truth_in(s: Seq<char>) -> Option<bool> {
    if seq!["y"@, "Y"@, "yes"@, "Yes"@, "YES"@, "on"@, "On"@, "ON"@, "true"@, "True"@, "TRUE"@].contains(
        s,
    ) {
        Some(true)
    } else if seq!["n"@, "N"@, "no"@, "No"@, "NO"@, "off"@, "Off"@, "OFF"@, "false"@, "False"@, "FALSE"@].contains(
        s,
    ) {
        Some(false)
    } else {
        None
    }
}

/// Whether a word is one of a list.
fn is_one_of(s: &str, list: &[&'static str]) -> (r: bool)
    ensures
        r == exists|i: int| 0 <= i < list@.len() && (#[trigger] list@[i])@ == s@,
{
    for i in 0..list.len()
        invariant
            forall|k: int| 0 <= k < i ==> (#[trigger] list@[k])@ != s@,
    {
        if same(s, list[i]) {
            return true;
        }
    }
    false
}

/// What YAML 1.1 reads a word as where a truth value is wanted.
pub fn spelled_bool(s: &str) -> (r: Option<bool>)
    ensures
        r == truth_in(s@),
{
    let yes: [&'static str; 11] = [
        "y", "Y", "yes", "Yes", "YES", "on", "On", "ON", "true", "True", "TRUE",
    ];
    let no: [&'static str; 11] = [
        "n", "N", "no", "No", "NO", "off", "Off", "OFF", "false", "False", "FALSE",
    ];
    let ghost said = seq!["y"@, "Y"@, "yes"@, "Yes"@, "YES"@, "on"@, "On"@, "ON"@, "true"@, "True"@, "TRUE"@];
    let ghost denied = seq!["n"@, "N"@, "no"@, "No"@, "NO"@, "off"@, "Off"@, "OFF"@, "false"@, "False"@, "FALSE"@];
    assert(forall|i: int| 0 <= i < 11 ==> (#[trigger] yes@[i])@ == said[i]);
    assert(forall|i: int| 0 <= i < 11 ==> (#[trigger] no@[i])@ == denied[i]);
    if is_one_of(s, yes.as_slice()) {
        let ghost i = choose|i: int| 0 <= i < 11 && (#[trigger] yes@[i])@ == s@;
        assert(said[i] == s@);
        return Some(true);
    }
    assert(!said.contains(s@)) by {
        if said.contains(s@) {
            let i = choose|i: int| 0 <= i < 11 && said[i] == s@;
            assert(yes@[i]@ == s@);
        }
    }
    if is_one_of(s, no.as_slice()) {
        let ghost i = choose|i: int| 0 <= i < 11 && (#[trigger] no@[i])@ == s@;
        assert(denied[i] == s@);
        return Some(false);
    }
    assert(!denied.contains(s@)) by {
        if denied.contains(s@) {
            let i = choose|i: int| 0 <= i < 11 && denied[i] == s@;
            assert(no@[i]@ == s@);
        }
    }
    None
}

/// `serde_norway::Value`: any YAML value.
#[verifier::external_type_specification]
#[verifier::external_body]
pub struct ExYamlValue(serde_norway::Value);

/// The tree that a value of `serde_norway` holds.
pub uninterp spec fn value_node(v: serde_norway::Value) -> Node;

/// What `serde_norway::from_slice` makes of a document: its tree, or the text of the error.
pub uninterp spec fn yaml_document(data: Seq<u8>) -> Result<Node, Seq<char>>;

/// One level of a `serde_norway::Value`.
pub enum YamlShape {
    Null,
    Bool(bool),
    Number(String),
    Text(String),
    List(Vec<serde_norway::Value>),
    Mapping(Vec<(serde_norway::Value, serde_norway::Value)>),
    Tagged(String, serde_norway::Value),
}

/// The tree of one level, over the trees of its parts.
pub open spec fn shape_node(s: YamlShape) -> Node {
    match s {
        YamlShape::Null => Node::Null,
        YamlShape::Bool(b) => Node::Bool(b),
        YamlShape::Number(t) => Node::Number(t@),
        YamlShape::Text(t) => Node::Text(t@),
        YamlShape::List(v) => Node::List(Seq::new(v@.len(), |i: int| value_node(v@[i]))),
        YamlShape::Mapping(v) => Node::Mapping(
            Seq::new(v@.len(), |i: int| (value_node(v@[i].0), value_node(v@[i].1))),
        ),
        YamlShape::Tagged(t, v) => Node::Tagged(t@, Box::new(value_node(v))),
    }
}

/// `serde_norway::from_slice` into a `serde_norway::Value`; the error is kept as its text.
#[verifier::external_body]
fn parse_value(data: &[u8]) -> (r: Result<serde_norway::Value, String>)
    ensures
        match r {
            Ok(v) => yaml_document(data@) == Ok::<Node, Seq<char>>(value_node(v)),
            Err(e) => yaml_document(data@) == Err::<Node, Seq<char>>(e@),
        },
{
    serde_norway::from_slice::<serde_norway::Value>(data).map_err(|e| e.to_string())
}

/// The variant of a `serde_norway::Value` with its fields; a number becomes the text it prints as, a
/// mapping the list of its entries in the order of the document.
#[verifier::external_body]
fn open_value(v: serde_norway::Value) -> (s: YamlShape)
    ensures
        value_node(v) == shape_node(s),
{
    match v {
        serde_norway::Value::Null => YamlShape::Null,
        serde_norway::Value::Bool(b) => YamlShape::Bool(b),
        serde_norway::Value::Number(n) => YamlShape::Number(n.to_string()),
        serde_norway::Value::String(t) => YamlShape::Text(t),
        serde_norway::Value::Sequence(v) => YamlShape::List(v),
        serde_norway::Value::Mapping(m) => YamlShape::Mapping(m.into_iter().collect()),
        serde_norway::Value::Tagged(t) => YamlShape::Tagged(t.tag.to_string(), t.value),
    }
}

/// The tree of a `serde_norway::Value`.
fn tree_of(v: serde_norway::Value) -> (y: Yaml)
    ensures
        y@ == value_node(v),
    decreases value_node(v),
{
    let ghost node = value_node(v);
    match open_value(v) {
        YamlShape::Null => Yaml::Null,
        YamlShape::Bool(b) => Yaml::Bool(b),
        YamlShape::Number(t) => Yaml::Number(t),
        YamlShape::Text(t) => Yaml::Text(t),
        YamlShape::List(items) => {
            let ghost all = items@;
            let mut rest: Vec<serde_norway::Value> = items;
            let mut out: Vec<Yaml> = Vec::new();
            while rest.len() > 0
                invariant
                    rest@.len() + out@.len() == all.len(),
                    rest@ == all.skip(out@.len() as int),
                    forall|i: int| 0 <= i < out@.len() ==> out@[i]@ == value_node(all[i]),
                    node == value_node(v),
                    node == Node::List(Seq::new(all.len(), |i: int| value_node(all[i]))),
                decreases rest@.len(),
            {
                let ghost k = out@.len() as int;
                assert(node->List_0[k] == value_node(all[k]));
                assert(decreases_to!(node->List_0 => node->List_0[k]));
                let item = rest.remove(0);
                out.push(tree_of(item));
                assert(rest@ =~= all.skip(k + 1));
            }
            let y = Yaml::List(out);
            assert(y@->List_0 =~= node->List_0);
            y
        },
        YamlShape::Mapping(items) => {
            let ghost all = items@;
            let mut rest: Vec<(serde_norway::Value, serde_norway::Value)> = items;
            let mut out: Vec<(Yaml, Yaml)> = Vec::new();
            while rest.len() > 0
                invariant
                    rest@.len() + out@.len() == all.len(),
                    rest@ == all.skip(out@.len() as int),
                    forall|i: int|
                        0 <= i < out@.len() ==> out@[i].0@ == value_node(all[i].0) && out@[i].1@
                            == value_node(all[i].1),
                    node == value_node(v),
                    node == Node::Mapping(
                        Seq::new(all.len(), |i: int| (value_node(all[i].0), value_node(all[i].1))),
                    ),
                decreases rest@.len(),
            {
                let ghost k = out@.len() as int;
                assert(node->Mapping_0[k] == (value_node(all[k].0), value_node(all[k].1)));
                assert(decreases_to!(node->Mapping_0 => node->Mapping_0[k]));
                assert(decreases_to!(node->Mapping_0[k] => node->Mapping_0[k].0));
                assert(decreases_to!(node->Mapping_0[k] => node->Mapping_0[k].1));
                let (key, value) = rest.remove(0);
                out.push((tree_of(key), tree_of(value)));
                assert(rest@ =~= all.skip(k + 1));
            }
            let y = Yaml::Mapping(out);
            assert(y@->Mapping_0 =~= node->Mapping_0);
            y
        },
        YamlShape::Tagged(t, inner) => {
            assert(*node->Tagged_1 == value_node(inner));
            Yaml::Tagged(t, Box::new(tree_of(inner)))
        },
    }
}

/// What `serde_norway::to_string` prints of a tree: its text, or the text of the error.
pub uninterp spec fn yaml_text(node: Node) -> Result<Seq<char>, Seq<char>>;

/// The `serde_norway::Value` of one level; the entries of a mapping keep their order, and its keys are texts,
/// no two of them alike. Numbers and tags are not built.
#[verifier::external_body]
fn make_value(s: YamlShape) -> (v: serde_norway::Value)
    requires
        !(s is Number) && !(s is Tagged),
        s matches YamlShape::Mapping(m) ==> forall|i: int|
            0 <= i < m@.len() ==> value_node((#[trigger] m@[i]).0) is Text,
        s matches YamlShape::Mapping(m) ==> forall|i: int, j: int|
            0 <= i < j < m@.len() ==> value_node(m@[i].0) != value_node(m@[j].0),
    ensures
        value_node(v) == shape_node(s),
{
    match s {
        YamlShape::Bool(b) => serde_norway::Value::Bool(b),
        YamlShape::Text(t) => serde_norway::Value::String(t),
        YamlShape::List(v) => serde_norway::Value::Sequence(v),
        YamlShape::Mapping(m) => serde_norway::Value::Mapping(m.into_iter().collect()),
        _ => serde_norway::Value::Null,
    }
}

/// The longest text, in characters, of which the printer is said anything.
pub const TEXT_LIMIT: usize = 0xff_ffff;

/// A tree without numbers and tags whose texts hold no newline.
pub open spec fn single_lined(n: Node) -> bool
    decreases n,
{
    match n {
        Node::Null => true,
        Node::Bool(_) => true,
        Node::Number(_) => false,
        Node::Text(t) => one_line(t),
        Node::List(s) => forall|i: int| 0 <= i < s.len() ==> single_lined(#[trigger] s[i]),
        Node::Mapping(s) => forall|i: int|
            0 <= i < s.len() ==> single_lined((#[trigger] s[i]).0) && single_lined(s[i].1),
        Node::Tagged(_, _) => false,
    }
}

/// A text that holds no newline.
pub open spec fn one_line(t: Seq<char>) -> bool {
    !t.contains('\n') && t.len() <= TEXT_LIMIT
}

/// A name of lower-case letters and underscores, with an underscore in it.
pub open spec fn is_word(t: Seq<char>) -> bool {
    &&& t.len() <= 128
    &&& t.contains('_')
    &&& forall|i: int| 0 <= i < t.len() ==> 'a' <= (#[trigger] t[i]) <= 'z' || t[i] == '_'
}

/// A mapping whose one key is the word `key` and whose value is a mapping with an entry, all of it
/// [`single_lined`].
pub open spec fn is_section(n: Node, key: Seq<char>) -> bool {
    &&& is_word(key)
    &&& single_lined(n)
    &&& n matches Node::Mapping(top)
    &&& top.len() == 1
    &&& top[0].0 == Node::Text(key)
    &&& top[0].1 matches Node::Mapping(inner)
    &&& inner.len() > 0
}

/// Whether the line of `t` that starts at `i` starts with a space and is not blank.
pub open spec fn inner_line(t: Seq<char>, i: int) -> bool {
    &&& t[i] == ' '
    &&& exists|j: int|
        i <= j < t.len() && !is_white(#[trigger] t[j]) && forall|k: int|
            i <= k < j ==> #[trigger] t[k] != '\n'
}

/// A text of one line `key:` and, after it, lines that each start with a space and are not blank, the last of
/// them closed like the others.
pub open spec fn is_layout(t: Seq<char>, key: Seq<char>) -> bool {
    &&& t.len() > key.len() + 2
    &&& t.take(key.len() as int + 2) == key + ":\n"@
    &&& t.last() == '\n'
    &&& forall|i: int|
        #![trigger inner_line(t, i)]
        key.len() + 2 <= i < t.len() && t[i - 1] == '\n' ==> inner_line(t, i)
}

/// A tree no deeper than `depth`, without numbers and tags, whose texts are [`unbroken`] and whose mappings
/// have texts for keys and name each once.
pub open spec fn readable(n: Node, depth: nat) -> bool
    decreases depth,
{
    depth > 0 && match n {
        Node::Null => true,
        Node::Bool(_) => true,
        Node::Number(_) => false,
        Node::Text(t) => unbroken(t),
        Node::List(s) => forall|i: int|
            0 <= i < s.len() ==> readable(#[trigger] s[i], (depth - 1) as nat),
        Node::Mapping(s) => {
            &&& forall|i: int|
                0 <= i < s.len() ==> ((#[trigger] s[i]).0 matches Node::Text(k) && unbroken(k))
                    && readable(s[i].1, (depth - 1) as nat)
            &&& forall|i: int, j: int|
                0 <= i < j < s.len() ==> (#[trigger] s[i]).0 != (#[trigger] s[j]).0
        },
        Node::Tagged(_, _) => false,
    }
}

/// A character that the printer writes as a line break: a newline, or one of the two separators of Unicode.
pub open spec fn is_line_break(c: char) -> bool {
    c == '\n' || c == '\u{2028}' || c == '\u{2029}'
}

/// A text that the printer writes without a line break in it.
pub open spec fn unbroken(t: Seq<char>) -> bool {
    &&& t.len() <= TEXT_LIMIT
    &&& forall|i: int| 0 <= i < t.len() ==> !is_line_break(#[trigger] t[i])
}

/// How deep a tree may be for the reader to be said to take back what was printed of it.
pub const READ_DEPTH: u64 = 16;

/// Whether `t`, where the tree is a section, is laid out as one.
pub open spec fn laid_out(n: Node, t: Seq<char>) -> bool {
    forall|key: Seq<char>| #[trigger] is_section(n, key) ==> is_layout(t, key)
}

/// Whether a [`readable`] tree is what `t` reads as.
pub open spec fn reads_back(n: Node, t: Seq<char>) -> bool {
    readable(n, READ_DEPTH as nat) ==> yaml_document(encode_utf8(t)) == Ok::<Node, Seq<char>>(n)
}

/// `serde_norway::to_string` of a `serde_norway::Value`; the error is kept as its text. Of the text two facts are
/// claimed: a one-key mapping over a mapping whose texts hold no newline is laid out as its key line and
/// indented lines, for the emitter breaks a line only before an entry, at the entry's indent, and at the end;
/// and of a shallow tree whose texts have no line break to write, `from_slice` reads back the tree that was
/// printed: a text with a character that cannot be shown is printed in double quotes, that character escaped.
#[verifier::external_body]
fn print_value(v: &serde_norway::Value) -> (r: Result<String, String>)
    ensures
        match r {
            Ok(t) => yaml_text(value_node(*v)) == Ok::<Seq<char>, Seq<char>>(t@),
            Err(e) => yaml_text(value_node(*v)) == Err::<Seq<char>, Seq<char>>(e@),
        },
        r matches Ok(t) ==> laid_out(value_node(*v), t@) && reads_back(value_node(*v), t@),
{
    serde_norway::to_string(v).map_err(|e| e.to_string())
}

/// A tree without numbers and tags whose mappings have texts for keys and name each once.
pub open spec fn plain(n: Node) -> bool
    decreases n,
{
    match n {
        Node::Null => true,
        Node::Bool(_) => true,
        Node::Number(_) => false,
        Node::Text(_) => true,
        Node::List(s) => forall|i: int| 0 <= i < s.len() ==> plain(#[trigger] s[i]),
        Node::Mapping(s) => {
            &&& forall|i: int|
                0 <= i < s.len() ==> (#[trigger] s[i]).0 is Text && plain(s[i].1)
            &&& forall|i: int, j: int|
                0 <= i < j < s.len() ==> (#[trigger] s[i]).0 != (#[trigger] s[j]).0
        },
        Node::Tagged(_, _) => false,
    }
}

/// The `serde_norway::Value` of a tree.
fn value_of(y: &Yaml) -> (v: serde_norway::Value)
    requires
        plain(y@),
    ensures
        value_node(v) == y@,
    decreases y,
{
    match y {
        Yaml::Bool(b) => make_value(YamlShape::Bool(*b)),
        Yaml::Text(t) => make_value(YamlShape::Text(t.clone())),
        Yaml::List(items) => {
            let mut out: Vec<serde_norway::Value> = Vec::new();
            for i in 0..items.len()
                invariant
                    y == Yaml::List(*items),
                    plain(y@),
                    out@.len() == i,
                    forall|k: int| 0 <= k < i ==> value_node(out@[k]) == items@[k]@,
            {
                assert(y@->List_0[i as int] == items@[i as int]@);
                out.push(value_of(&items[i]));
            }
            let s = YamlShape::List(out);
            assert(shape_node(s)->List_0 =~= y@->List_0);
            make_value(s)
        },
        Yaml::Mapping(items) => {
            let mut out: Vec<(serde_norway::Value, serde_norway::Value)> = Vec::new();
            for i in 0..items.len()
                invariant
                    y == Yaml::Mapping(*items),
                    plain(y@),
                    out@.len() == i,
                    forall|k: int|
                        0 <= k < i ==> value_node(out@[k].0) == items@[k].0@ && value_node(
                            out@[k].1,
                        ) == items@[k].1@,
            {
                assert(y@->Mapping_0[i as int] == (items@[i as int].0@, items@[i as int].1@));
                out.push((value_of(&items[i].0), value_of(&items[i].1)));
            }
            let s = YamlShape::Mapping(out);
            assert(shape_node(s)->Mapping_0 =~= y@->Mapping_0);
            assert forall|i: int, j: int| 0 <= i < j < out@.len() implies value_node(out@[i].0)
                != value_node(out@[j].0) by {
                assert(y@->Mapping_0[i].0 != y@->Mapping_0[j].0);
            }
            assert forall|i: int| 0 <= i < out@.len() implies value_node(
                (#[trigger] out@[i]).0,
            ) is Text by {
                assert(y@->Mapping_0[i].0 is Text);
            }
            make_value(s)
        },
        _ => make_value(YamlShape::Null),
    }
}

/// Prints one document.
pub fn print(y: &Yaml) -> (r: Result<String, String>)
    requires
        plain(y@),
    ensures
        match r {
            Ok(t) => yaml_text(y@) == Ok::<Seq<char>, Seq<char>>(t@),
            Err(e) => yaml_text(y@) == Err::<Seq<char>, Seq<char>>(e@),
        },
        r matches Ok(t) ==> laid_out(y@, t@) && reads_back(y@, t@),
{
    print_value(&value_of(y))
}

impl Duplicate for Yaml {
    fn duplicate(&self) -> (r: Yaml) {
        copy_yaml(self)
    }
}

/// A copy of a tree.
pub fn copy_yaml(y: &Yaml) -> (r: Yaml)
    ensures
        r@ == y@,
    decreases y,
{
    match y {
        Yaml::Null => Yaml::Null,
        Yaml::Bool(b) => Yaml::Bool(*b),
        Yaml::Number(t) => Yaml::Number(t.clone()),
        Yaml::Text(t) => Yaml::Text(t.clone()),
        Yaml::List(items) => {
            let mut out: Vec<Yaml> = Vec::new();
            for i in 0..items.len()
                invariant
                    y == Yaml::List(*items),
                    out@.len() == i,
                    forall|k: int| 0 <= k < i ==> out@[k]@ == items@[k]@,
            {
                assert(y->List_0 == *items);
                assert(decreases_to!(*items => items[i as int]));
                out.push(copy_yaml(&items[i]));
            }
            let r = Yaml::List(out);
            assert(r@->List_0 =~= y@->List_0);
            r
        },
        Yaml::Mapping(items) => {
            let mut out: Vec<(Yaml, Yaml)> = Vec::new();
            for i in 0..items.len()
                invariant
                    y == Yaml::Mapping(*items),
                    out@.len() == i,
                    forall|k: int|
                        0 <= k < i ==> out@[k].0@ == items@[k].0@ && out@[k].1@ == items@[k].1@,
            {
                assert(y->Mapping_0 == *items);
                assert(decreases_to!(*items => items[i as int]));
                assert(decreases_to!(items[i as int] => items[i as int].0));
                assert(decreases_to!(items[i as int] => items[i as int].1));
                out.push((copy_yaml(&items[i].0), copy_yaml(&items[i].1)));
            }
            let r = Yaml::Mapping(out);
            assert(r@->Mapping_0 =~= y@->Mapping_0);
            r
        },
        Yaml::Tagged(t, inner) => Yaml::Tagged(t.clone(), Box::new(copy_yaml(inner))),
    }
}

/// Reads one document.
pub fn read(data: &[u8]) -> (r: Result<Yaml, String>)
    ensures
        match r {
            Ok(y) => yaml_document(data@) == Ok::<Node, Seq<char>>(y@),
            Err(e) => yaml_document(data@) == Err::<Node, Seq<char>>(e@),
        },
{
    match parse_value(data) {
        Ok(v) => Ok(tree_of(v)),
        Err(e) => Err(e),
    }
}

} // verus!
