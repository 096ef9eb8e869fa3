//! The background probe: a multiplexer that KNOWS its terminal background is asked before the terminal is. cmux
//! answers with a colour, whose brightness decides between dark and light.

use vstd::prelude::*;

use crate::app::env::var_of;
use crate::host::cmux::CMUX_ENV;
use crate::host::Probe;
use crate::json::{
    buildable, entry_views, json_document, json_line_of, nested_text, object_node, print, read,
    Json, JsonNode,
};
use crate::text::{chars_of, is_digit, own, strs};

verus! {

/// The value of a hexadecimal digit.
pub open spec fn hex_value(c: char) -> Option<int> {
    if is_digit(c) {
        Some(c as int - '0' as int)
    } else if 'a' <= c <= 'f' {
        Some(c as int - 'a' as int + 10)
    } else if 'A' <= c <= 'F' {
        Some(c as int - 'A' as int + 10)
    } else {
        None
    }
}

/// The channel that two digits write.
pub open spec fn channel(a: char, b: char) -> int {
    hex_value(a)->0 * 16 + hex_value(b)->0
}

/// Whether a text is `#` and six hexadecimal digits.
pub open spec fn is_color(s: Seq<char>) -> bool {
    &&& s.len() == 7
    &&& s[0] == '#'
    &&& forall|i: int| 1 <= i < 7 ==> hex_value(#[trigger] s[i]) is Some
}

/// Whether a colour is dark: its weighted brightness is below the middle.
pub open spec fn is_dark(s: Seq<char>) -> bool {
    (299 * channel(s[1], s[2]) + 587 * channel(s[3], s[4]) + 114 * channel(s[5], s[6])) / 1000 < 128
}

/// Whether `#RRGGBB` is dark; `None` for a text that is no colour.
pub open spec fn darkness(s: Seq<char>) -> Option<bool> {
    if is_color(s) {
        Some(is_dark(s))
    } else {
        None
    }
}

/// The value of a hexadecimal digit.
fn hex_digit(c: char) -> (r: Option<u32>)
    ensures
        match r {
            Some(n) => hex_value(c) == Some(n as int) && n < 16,
            None => hex_value(c) is None,
        },
{
    if '0' <= c && c <= '9' {
        Some(c as u32 - 48)
    } else if 'a' <= c && c <= 'f' {
        Some(c as u32 - 97 + 10)
    } else if 'A' <= c && c <= 'F' {
        Some(c as u32 - 65 + 10)
    } else {
        None
    }
}

/// Whether `#RRGGBB` is dark.
pub fn dark_hex(s: &str) -> (r: Option<bool>)
    ensures
        r == darkness(s@),
{
    let v: Vec<char> = chars_of(s);
    if v.len() != 7 || v[0] != '#' {
        return None;
    }
    let mut d: Vec<u32> = Vec::new();
    for i in 1..7
        invariant
            v@ == s@,
            v@.len() == 7,
            d@.len() == i - 1,
            forall|k: int|
                1 <= k < i ==> hex_value(#[trigger] s@[k]) == Some(d@[k - 1] as int) && d@[k - 1]
                    < 16,
    {
        match hex_digit(v[i]) {
            Some(n) => d.push(n),
            None => {
                assert(hex_value(s@[i as int]) is None);
                return None;
            },
        }
    }
    assert(hex_value(s@[1]) is Some && hex_value(s@[2]) is Some && hex_value(s@[3]) is Some
        && hex_value(s@[4]) is Some && hex_value(s@[5]) is Some && hex_value(s@[6]) is Some);
    let r: u32 = d[0] * 16 + d[1];
    let g: u32 = d[2] * 16 + d[3];
    let b: u32 = d[4] * 16 + d[5];
    assert(channel(s@[1], s@[2]) == r && channel(s@[3], s@[4]) == g && channel(s@[5], s@[6]) == b);
    Some((299 * r + 587 * g + 114 * b) / 1000 < 128)
}

/// What a reply of cmux says of the background: the darkness of the colour at
/// `render_grid.terminal_background`.
pub open spec fn reply_darkness(doc: Option<JsonNode>) -> Option<bool> {
    match doc {
        Some(n) => match nested_text(n, "render_grid"@, "terminal_background"@) {
            Some(hex) => darkness(hex),
            None => None,
        },
        None => None,
    }
}

/// What a reply of cmux says of the background; `None` when it says nothing.
pub fn parse_cmux_background(out: &[u8]) -> (r: Option<bool>)
    ensures
        r == reply_darkness(json_document(out@)),
{
    match read(out) {
        None => None,
        Some(doc) => background_in(&doc),
    }
}

/// What a document says of the background: whether the colour at `render_grid.terminal_background` is dark.
pub fn background_in(doc: &Json) -> (r: Option<bool>)
    ensures
        r == reply_darkness(Some(doc@)),
{
    match doc.field("render_grid") {
        None => None,
        Some(grid) => match grid.field("terminal_background") {
            None => None,
            Some(color) => match color.as_text() {
                None => None,
                Some(hex) => dark_hex(hex.as_str()),
            },
        },
    }
}

/// Whom the probe asks: the program that was found, about the surface; `None` outside cmux.
pub open spec fn query_target(probe: Probe) -> Option<(Seq<char>, Seq<char>)> {
    match (var_of(probe.env@, CMUX_ENV@), probe.cmux_path) {
        (Some(surface), Some(path)) => Some((path@, surface)),
        _ => None,
    }
}

/// What a reply that may be missing says of the background.
pub open spec fn answered(reply: Option<Vec<u8>>) -> Option<bool> {
    match reply {
        Some(bytes) => reply_darkness(json_document(bytes@)),
        None => None,
    }
}

/// The arguments that ask cmux for what a surface shows.
pub open spec fn query_words(surface: Seq<char>) -> Seq<Seq<char>> {
    seq![
        "rpc"@,
        "terminal.replay"@,
        json_line_of(object_node(seq![("terminal_id"@, JsonNode::Text(surface))])),
    ]
}

/// The arguments that ask cmux for what a surface shows.
pub fn query_argv(surface: &str) -> (r: Vec<String>)
    ensures
        strs(r@) == query_words(surface@),
{
    let mut fields: Vec<(String, Json)> = Vec::new();
    let id: Json = Json::Text(own(surface));
    assert(buildable(id));
    fields.push((own("terminal_id"), id));
    assert(entry_views(fields@) =~= seq![("terminal_id"@, JsonNode::Text(surface@))]);
    let params: Json = Json::Object(fields);
    let mut r: Vec<String> = Vec::new();
    r.push(own("rpc"));
    r.push(own("terminal.replay"));
    r.push(print(&params));
    assert(strs(r@) =~= query_words(surface@));
    r
}

/// The background of a surface, through `query`.
pub fn cmux_background<Q: Fn(&str, &str) -> Option<Vec<u8>>>(path: &str, surface: &str, query: &Q) ->
    (r: Option<bool>)
    requires
        query.requires((path, surface)),
    ensures
        exists|reply: Option<Vec<u8>>|
            query.ensures((path, surface), reply) && r == #[trigger] answered(reply),
{
    let reply: Option<Vec<u8>> = query(path, surface);
    let r: Option<bool> = match &reply {
        Some(bytes) => parse_cmux_background(bytes.as_slice()),
        None => None,
    };
    assert(r == answered(reply));
    r
}

/// The background, asked of cmux when the chat runs inside it and of `fallback` when cmux is not there or does
/// not know. The fallback does not run once cmux answered.
pub fn detect_background_with<Q: Fn(&str, &str) -> Option<Vec<u8>>, F: FnOnce() -> bool>(
    probe: &Probe,
    query: &Q,
    fallback: F,
) -> (r: bool)
    requires
        forall|p: &str, s: &str| query_target(*probe) == Some((p@, s@)) ==> query.requires((p, s)),
        query_target(*probe) is None ==> fallback.requires(()),
        forall|p: &str, s: &str, reply: Option<Vec<u8>>|
            query_target(*probe) == Some((p@, s@)) && #[trigger] query.ensures((p, s), reply)
                && answered(reply) is None ==> fallback.requires(()),
    ensures
        match query_target(*probe) {
            None => fallback.ensures((), r),
            Some((path, surface)) => exists|p: &str, s: &str, reply: Option<Vec<u8>>|
                #![trigger query.ensures((p, s), reply)]
                {
                    &&& p@ == path
                    &&& s@ == surface
                    &&& query.ensures((p, s), reply)
                    &&& match answered(reply) {
                        Some(dark) => r == dark,
                        None => fallback.ensures((), r),
                    }
                },
        },
{
    let surface: String = match probe.env.var(CMUX_ENV) {
        Some(s) => s,
        None => return fallback(),
    };
    match &probe.cmux_path {
        None => fallback(),
        Some(path) => {
            let p: &str = path.as_str();
            let s: &str = surface.as_str();
            match cmux_background(p, s, query) {
                Some(dark) => dark,
                None => fallback(),
            }
        },
    }
}

} // verus!
