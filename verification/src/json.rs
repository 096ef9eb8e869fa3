//! JSON values as plain trees.
//!
//! `serde_json` reads and writes the text; the logic of this crate works on [`Json`].

use vstd::prelude::*;

use crate::map::{map_of, pairs_have_the_map, pairs_of, pairs_of_map, rising};
use crate::text::{decimal_of, same};

verus! {

/// A JSON value, as mathematics. The entries of an object stand in key order.
pub enum JsonNode {
    Null,
    Bool(bool),
    Number(Seq<char>),
    Text(Seq<char>),
    List(Seq<JsonNode>),
    Object(Seq<(Seq<char>, JsonNode)>),
}

/// A JSON value. A number is a count, or the text it prints as.
pub enum Json {
    Null,
    Bool(bool),
    Count(u64),
    Number(String),
    Text(String),
    List(Vec<Json>),
    Object(Vec<(String, Json)>),
}

impl View for Json {
    type V = JsonNode;

    open spec fn view(&self) -> JsonNode {
        json_view(*self)
    }
}

/// The tree a value is: of two entries with one key the later stands.
pub open spec fn json_view(j: Json) -> JsonNode
    decreases j,
{
    match j {
        Json::Null => JsonNode::Null,
        Json::Bool(b) => JsonNode::Bool(b),
        Json::Count(n) => JsonNode::Number(decimal_of(n as nat)),
        Json::Number(t) => JsonNode::Number(t@),
        Json::Text(t) => JsonNode::Text(t@),
        Json::List(v) => JsonNode::List(
            Seq::new(
                v@.len(),
                |i: int|
                    if 0 <= i < v@.len() {
                        json_view(v@[i])
                    } else {
                        JsonNode::Null
                    },
            ),
        ),
        Json::Object(v) => object_node(entry_views(v@)),
    }
}

/// The entries of an object, as trees.
pub open spec fn entry_views(v: Seq<(String, Json)>) -> Seq<(Seq<char>, JsonNode)>
    decreases v,
{
    Seq::new(
        v.len(),
        |i: int|
            if 0 <= i < v.len() {
                (v[i].0@, json_view(v[i].1))
            } else {
                (Seq::empty(), JsonNode::Null)
            },
    )
}

/// The object of a list of entries.
pub open spec fn object_node(entries: Seq<(Seq<char>, JsonNode)>) -> JsonNode {
    JsonNode::Object(pairs_of(map_of(entries)))
}

/// `serde_json::Value`: any JSON value.
#[verifier::external_type_specification]
#[verifier::external_body]
pub struct ExJsonValue(serde_json::Value);

/// The tree that a value of `serde_json` holds.
pub uninterp spec fn value_json(v: serde_json::Value) -> JsonNode;

/// What `serde_json::from_slice` makes of bytes; `None` when they are no JSON.
pub uninterp spec fn json_document(data: Seq<u8>) -> Option<JsonNode>;

/// What a value of `serde_json` prints as, on one line.
pub uninterp spec fn json_line_of(node: JsonNode) -> Seq<char>;

/// What `serde_json::to_string_pretty` prints of a value: its text, or the text of the error.
pub uninterp spec fn json_pretty_of(node: JsonNode) -> Result<Seq<char>, Seq<char>>;

/// One level of a `serde_json::Value`.
pub enum JsonShape {
    Null,
    Bool(bool),
    Count(u64),
    Number(String),
    Text(String),
    List(Vec<serde_json::Value>),
    Object(Vec<(String, serde_json::Value)>),
}

/// The entries of an object, over the trees of its values.
pub open spec fn entry_nodes(v: Seq<(String, serde_json::Value)>) -> Seq<(Seq<char>, JsonNode)> {
    Seq::new(v.len(), |i: int| (v[i].0@, value_json(v[i].1)))
}

/// The tree of one level, over the trees of its parts.
pub open spec fn shape_json(s: JsonShape) -> JsonNode {
    match s {
        JsonShape::Null => JsonNode::Null,
        JsonShape::Bool(b) => JsonNode::Bool(b),
        JsonShape::Count(n) => JsonNode::Number(decimal_of(n as nat)),
        JsonShape::Number(t) => JsonNode::Number(t@),
        JsonShape::Text(t) => JsonNode::Text(t@),
        JsonShape::List(v) => JsonNode::List(Seq::new(v@.len(), |i: int| value_json(v@[i]))),
        JsonShape::Object(v) => object_node(entry_nodes(v@)),
    }
}

/// `serde_json::from_slice` into a `serde_json::Value`; `None` for any error.
#[verifier::external_body]
fn parse_value(data: &[u8]) -> (r: Option<serde_json::Value>)
    ensures
        match r {
            Some(v) => json_document(data@) == Some(value_json(v)),
            None => json_document(data@) is None,
        },
{
    serde_json::from_slice::<serde_json::Value>(data).ok()
}

/// The variant of a `serde_json::Value` with its fields; a number becomes the text it prints as, an object the
/// list of its entries, which its map keeps in key order.
#[verifier::external_body]
fn open_value(v: serde_json::Value) -> (s: JsonShape)
    ensures
        value_json(v) == shape_json(s),
        s matches JsonShape::Object(e) ==> rising(entry_nodes(e@)),
{
    match v {
        serde_json::Value::Null => JsonShape::Null,
        serde_json::Value::Bool(b) => JsonShape::Bool(b),
        serde_json::Value::Number(n) => JsonShape::Number(n.to_string()),
        serde_json::Value::String(t) => JsonShape::Text(t),
        serde_json::Value::Array(v) => JsonShape::List(v),
        serde_json::Value::Object(m) => JsonShape::Object(m.into_iter().collect()),
    }
}

/// The `serde_json::Value` of one level; of two entries with one key the later stands, and a count prints as its
/// decimal digits. A number that is kept as text is not built.
#[verifier::external_body]
fn make_value(s: JsonShape) -> (v: serde_json::Value)
    requires
        !(s is Number),
    ensures
        value_json(v) == shape_json(s),
{
    match s {
        JsonShape::Bool(b) => serde_json::Value::Bool(b),
        JsonShape::Count(n) => serde_json::Value::from(n),
        JsonShape::Text(t) => serde_json::Value::String(t),
        JsonShape::List(v) => serde_json::Value::Array(v),
        JsonShape::Object(m) => serde_json::Value::Object(m.into_iter().collect()),
        _ => serde_json::Value::Null,
    }
}

/// `to_string` of a `serde_json::Value`: its text on one line.
#[verifier::external_body]
fn print_line(v: &serde_json::Value) -> (r: String)
    ensures
        r@ == json_line_of(value_json(*v)),
{
    v.to_string()
}

/// `serde_json::to_string_pretty` of a `serde_json::Value`; the error is kept as its text.
#[verifier::external_body]
fn print_pretty(v: &serde_json::Value) -> (r: Result<String, String>)
    ensures
        match r {
            Ok(t) => json_pretty_of(value_json(*v)) == Ok::<Seq<char>, Seq<char>>(t@),
            Err(e) => json_pretty_of(value_json(*v)) == Err::<Seq<char>, Seq<char>>(e@),
        },
{
    serde_json::to_string_pretty(v).map_err(|e| e.to_string())
}

/// The tree of a `serde_json::Value`.
fn tree_of(v: serde_json::Value) -> (j: Json)
    ensures
        j@ == value_json(v),
    decreases value_json(v),
{
    let ghost node = value_json(v);
    match open_value(v) {
        JsonShape::Null => Json::Null,
        JsonShape::Bool(b) => Json::Bool(b),
        JsonShape::Count(n) => Json::Count(n),
        JsonShape::Number(t) => Json::Number(t),
        JsonShape::Text(t) => Json::Text(t),
        JsonShape::List(items) => {
            let ghost all = items@;
            let mut rest: Vec<serde_json::Value> = items;
            let mut out: Vec<Json> = Vec::new();
            while rest.len() > 0
                invariant
                    rest@.len() + out@.len() == all.len(),
                    rest@ == all.skip(out@.len() as int),
                    forall|i: int| 0 <= i < out@.len() ==> out@[i]@ == value_json(all[i]),
                    node == value_json(v),
                    node == JsonNode::List(Seq::new(all.len(), |i: int| value_json(all[i]))),
                decreases rest@.len(),
            {
                let ghost k = out@.len() as int;
                assert(node->List_0[k] == value_json(all[k]));
                assert(decreases_to!(node->List_0 => node->List_0[k]));
                let item = rest.remove(0);
                out.push(tree_of(item));
                assert(rest@ =~= all.skip(k + 1));
            }
            let j = Json::List(out);
            assert(j@->List_0 =~= node->List_0);
            j
        },
        JsonShape::Object(items) => {
            let ghost all = items@;
            let ghost entries = entry_nodes(all);
            proof {
                pairs_of_map(entries);
            }
            let mut rest: Vec<(String, serde_json::Value)> = items;
            let mut out: Vec<(String, Json)> = Vec::new();
            while rest.len() > 0
                invariant
                    rest@.len() + out@.len() == all.len(),
                    rest@ == all.skip(out@.len() as int),
                    entries == entry_nodes(all),
                    forall|i: int|
                        0 <= i < out@.len() ==> (#[trigger] out@[i]).0@ == entries[i].0
                            && out@[i].1@ == entries[i].1,
                    node == value_json(v),
                    node == JsonNode::Object(entries),
                decreases rest@.len(),
            {
                let ghost k = out@.len() as int;
                assert(node->Object_0[k] == (all[k].0@, value_json(all[k].1)));
                assert(decreases_to!(node->Object_0 => node->Object_0[k]));
                assert(decreases_to!(node->Object_0[k] => node->Object_0[k].1));
                let (key, value) = rest.remove(0);
                out.push((key, tree_of(value)));
                assert(rest@ =~= all.skip(k + 1));
            }
            let j = Json::Object(out);
            proof {
                assert(entry_views(out@) =~= entries);
            }
            j
        },
    }
}

/// A tree without a number that is kept as text.
pub open spec fn buildable(j: Json) -> bool
    decreases j,
{
    match j {
        Json::Number(_) => false,
        Json::List(v) => forall|i: int| 0 <= i < v@.len() ==> buildable(#[trigger] v@[i]),
        Json::Object(v) => forall|i: int| 0 <= i < v@.len() ==> buildable((#[trigger] v@[i]).1),
        _ => true,
    }
}

/// The `serde_json::Value` of a tree.
fn value_of(j: &Json) -> (v: serde_json::Value)
    requires
        buildable(*j),
    ensures
        value_json(v) == j@,
    decreases j,
{
    match j {
        Json::Bool(b) => make_value(JsonShape::Bool(*b)),
        Json::Count(n) => make_value(JsonShape::Count(*n)),
        Json::Text(t) => make_value(JsonShape::Text(t.clone())),
        Json::List(items) => {
            let mut out: Vec<serde_json::Value> = Vec::new();
            for i in 0..items.len()
                invariant
                    j == Json::List(*items),
                    buildable(*j),
                    out@.len() == i,
                    forall|k: int| 0 <= k < i ==> value_json(out@[k]) == items@[k]@,
            {
                assert(j->List_0 == *items);
                assert(decreases_to!(*items => items[i as int]));
                out.push(value_of(&items[i]));
            }
            let s = JsonShape::List(out);
            assert(shape_json(s)->List_0 =~= j@->List_0);
            make_value(s)
        },
        Json::Object(items) => {
            let mut out: Vec<(String, serde_json::Value)> = Vec::new();
            for i in 0..items.len()
                invariant
                    j == Json::Object(*items),
                    buildable(*j),
                    out@.len() == i,
                    forall|k: int|
                        0 <= k < i ==> (#[trigger] out@[k]).0@ == items@[k].0@ && value_json(
                            out@[k].1,
                        ) == items@[k].1@,
            {
                assert(j->Object_0 == *items);
                assert(decreases_to!(*items => items[i as int]));
                assert(decreases_to!(items[i as int] => items[i as int].1));
                out.push((items[i].0.clone(), value_of(&items[i].1)));
            }
            let s = JsonShape::Object(out);
            proof {
                assert(entry_nodes(out@) =~= entry_views(items@));
            }
            make_value(s)
        },
        _ => make_value(JsonShape::Null),
    }
}

/// Reads one value; `None` when the bytes are no JSON.
pub fn read(data: &[u8]) -> (r: Option<Json>)
    ensures
        match r {
            Some(j) => json_document(data@) == Some(j@),
            None => json_document(data@) is None,
        },
{
    match parse_value(data) {
        Some(v) => Some(tree_of(v)),
        None => None,
    }
}

/// Prints a value on one line.
pub fn print(j: &Json) -> (r: String)
    requires
        buildable(*j),
    ensures
        r@ == json_line_of(j@),
{
    print_line(&value_of(j))
}

/// Prints a value over several lines.
pub fn pretty(j: &Json) -> (r: Result<String, String>)
    requires
        buildable(*j),
    ensures
        match r {
            Ok(t) => json_pretty_of(j@) == Ok::<Seq<char>, Seq<char>>(t@),
            Err(e) => json_pretty_of(j@) == Err::<Seq<char>, Seq<char>>(e@),
        },
{
    print_pretty(&value_of(j))
}

/// The value an object has for `key`.
pub open spec fn member(n: JsonNode, key: Seq<char>) -> Option<JsonNode> {
    match n {
        JsonNode::Object(entries) => if map_of(entries).contains_key(key) {
            Some(map_of(entries)[key])
        } else {
            None
        },
        _ => None,
    }
}

impl Json {
    /// The value an object has for `key`.
    pub fn field(&self, key: &str) -> (r: Option<&Json>)
        ensures
            match r {
                Some(j) => member(self@, key@) == Some(j@),
                None => member(self@, key@) is None,
            },
    {
        match self {
            Json::Object(items) => {
                let ghost all = entry_views(items@);
                proof {
                    pairs_have_the_map(all);
                    assert(all.take(all.len() as int) =~= all);
                }
                let mut k: usize = items.len();
                while k > 0
                    invariant
                        k <= items.len(),
                        all == entry_views(items@),
                        self@ == object_node(all),
                        map_of(pairs_of(map_of(all))) == map_of(all),
                        map_of(all).contains_key(key@) == map_of(all.take(k as int)).contains_key(
                            key@,
                        ),
                        map_of(all).contains_key(key@) ==> map_of(all)[key@] == map_of(
                            all.take(k as int),
                        )[key@],
                    decreases k,
                {
                    assert(all.take(k as int).drop_last() =~= all.take(k - 1));
                    assert(all[k - 1] == (items@[k - 1].0@, items@[k - 1].1@));
                    if same(items[k - 1].0.as_str(), key) {
                        return Some(&items[k - 1].1);
                    }
                    k -= 1;
                }
                assert(all.take(0) =~= Seq::<(Seq<char>, JsonNode)>::empty());
                None
            },
            _ => None,
        }
    }

    /// The text of a value that is one.
    pub fn as_text(&self) -> (r: Option<&String>)
        ensures
            match r {
                Some(t) => self@ == JsonNode::Text(t@),
                None => !(self@ is Text),
            },
    {
        match self {
            Json::Text(t) => Some(t),
            _ => None,
        }
    }
}

/// The text of a value that is one.
pub open spec fn text_of_node(n: Option<JsonNode>) -> Option<Seq<char>> {
    match n {
        Some(JsonNode::Text(t)) => Some(t),
        _ => None,
    }
}

/// The text at `outer.inner` of a value.
pub open spec fn nested_text(n: JsonNode, outer: Seq<char>, inner: Seq<char>) -> Option<Seq<char>> {
    match member(n, outer) {
        Some(m) => text_of_node(member(m, inner)),
        None => None,
    }
}

} // verus!
