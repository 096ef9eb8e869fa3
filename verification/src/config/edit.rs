//! The machine-managed `mcp_servers:` block: commands rewrite ONE top-level section of a config file and
//! leave every other character as it was written.
//!
//! The block is LOCATED by line: a top-level key is a line that starts at column 0 with `key:`, and its block
//! runs to the line before the next column-0 content. Only that range is replaced; when the document has no
//! such block, one is appended after a blank line.

use std::ops::Range;

use vstd::prelude::*;
use vstd::string::*;
use vstd::utf8::{decode_utf8, encode_utf8, valid_utf8};

use crate::config::rewrite::{later_servers_stand, layout_is_block, prints_a_block};
use crate::config::server::{
    block_kept, block_node, block_tree, one_line_servers, unbroken_servers, McpServerConfig, ServerView,
};
use crate::map::{pairs_of, StrMap};
use crate::text::{
    chars_of, first_at, first_at_is, is_white, own, read_utf8, text_of, trim_end, trimmed, utf8_fault,
    white,
};
use crate::yaml::{is_section, print, yaml_document, yaml_text, Node, Yaml};

verus! {

/// The position after the line that holds position `i`: after the next newline, or the end.
pub open spec fn line_end(s: Seq<char>, i: int) -> int
    decreases s.len() - i,
{
    if i < 0 || i >= s.len() {
        s.len() as int
    } else if s[i] == '\n' {
        i + 1
    } else {
        line_end(s, i + 1)
    }
}

/// `s` without the newlines and carriage returns at its end.
pub open spec fn chomped(s: Seq<char>) -> Seq<char>
    decreases s.len(),
{
    if s.len() > 0 && (s.last() == '\n' || s.last() == '\r') {
        chomped(s.drop_last())
    } else {
        s
    }
}

/// The line that starts at `i`.
pub open spec fn line_at(s: Seq<char>, i: int) -> Seq<char> {
    chomped(s.subrange(i, line_end(s, i)))
}

/// `key` without a pair of `q` around it.
pub open spec fn unquoted_by(key: Seq<char>, q: char) -> Option<Seq<char>> {
    if key.len() >= 2 && key[0] == q && key.last() == q {
        Some(key.subrange(1, key.len() - 1))
    } else {
        None
    }
}

/// `key` without the quotes around it.
pub open spec fn unquoted(key: Seq<char>) -> Seq<char> {
    match unquoted_by(key, '"') {
        Some(k) => k,
        None => match unquoted_by(key, '\'') {
            Some(k) => k,
            None => key,
        },
    }
}

/// The key of a `key:` line at column 0: plain or quoted, followed by a space, a tab, or the end of the line.
/// Directives, document markers, sequence items and comments are never keys.
pub open spec fn key_of(line: Seq<char>) -> Option<Seq<char>> {
    let colon = first_at(line, ':');
    if line.len() == 0 || is_white(line[0]) || seq!['#', '-', '%', '.', '[', '{'].contains(line[0])
        || colon == line.len() || (colon + 1 < line.len() && line[colon + 1] != ' ' && line[colon
        + 1] != '\t') {
        None
    } else {
        Some(unquoted(trim_end(line.take(colon))))
    }
}

/// A line whose first character is neither white space nor `#`: a top-level key, a document marker, a
/// directive.
pub open spec fn at_column_0(line: Seq<char>) -> bool {
    line.len() > 0 && !is_white(line[0]) && line[0] != '#'
}

/// A non-blank line that starts with a space or a tab: a nested value, or a comment inside the block.
pub open spec fn indented(line: Seq<char>) -> bool {
    line.len() > 0 && (line[0] == ' ' || line[0] == '\t') && trimmed(line).len() > 0
}

/// Where the first line from `i` on starts whose key is `key`.
pub open spec fn key_line(s: Seq<char>, key: Seq<char>, i: int) -> Option<int>
    decreases s.len() - i,
    when 0 <= i
    via key_line_decreases
{
    if i >= s.len() {
        None
    } else if key_of(line_at(s, i)) == Some(key) {
        Some(i)
    } else {
        key_line(s, key, line_end(s, i))
    }
}

#[via_fn]
proof fn key_line_decreases(s: Seq<char>, key: Seq<char>, i: int) {
    if 0 <= i < s.len() {
        line_end_advances(s, i);
    }
}

/// The end of the block whose lines go on at `i` and whose content so far ends at `end`: after the last
/// indented line before the next column-0 content.
pub open spec fn tail_end(s: Seq<char>, i: int, end: int) -> int
    decreases s.len() - i,
    when 0 <= i
    via tail_end_decreases
{
    if i >= s.len() || at_column_0(line_at(s, i)) {
        end
    } else if indented(line_at(s, i)) {
        tail_end(s, line_end(s, i), line_end(s, i))
    } else {
        tail_end(s, line_end(s, i), end)
    }
}

#[via_fn]
proof fn tail_end_decreases(s: Seq<char>, i: int, end: int) {
    if 0 <= i < s.len() {
        line_end_advances(s, i);
    }
}

/// The range of the top-level block `key`: from the start of its key line to the end of its last indented
/// line. Blank lines and column-0 comments AFTER the last indented line are not part of the block; BETWEEN two
/// indented lines they are.
pub open spec fn block_of(s: Seq<char>, key: Seq<char>) -> Option<(int, int)> {
    match key_line(s, key, 0) {
        None => None,
        Some(a) => Some((a, tail_end(s, line_end(s, a), line_end(s, a)))),
    }
}

/// A line ends after its start, within the text.
pub proof fn line_end_advances(s: Seq<char>, i: int)
    requires
        0 <= i < s.len(),
    ensures
        i < line_end(s, i) <= s.len(),
    decreases s.len() - i,
{
    if s[i] != '\n' {
        if i + 1 < s.len() {
            line_end_advances(s, i + 1);
        } else {
            assert(line_end(s, i + 1) == s.len());
        }
    }
}

/// The key line starts at or after `i`, within the text.
proof fn key_line_within(s: Seq<char>, key: Seq<char>, i: int)
    requires
        0 <= i,
    ensures
        key_line(s, key, i) matches Some(a) ==> i <= a < s.len(),
    decreases s.len() - i,
{
    if i < s.len() && key_of(line_at(s, i)) != Some(key) {
        line_end_advances(s, i);
        key_line_within(s, key, line_end(s, i));
    }
}

/// The block does not end before `end`, nor outside the text.
proof fn tail_end_within(s: Seq<char>, i: int, end: int)
    requires
        0 <= end <= i <= s.len(),
    ensures
        end <= tail_end(s, i, end) <= s.len(),
    decreases s.len() - i,
{
    if i < s.len() {
        line_end_advances(s, i);
        tail_end_within(s, line_end(s, i), line_end(s, i));
        tail_end_within(s, line_end(s, i), end);
    }
}

/// A block begins before it ends, within the text.
pub proof fn block_of_within(s: Seq<char>, key: Seq<char>)
    ensures
        block_of(s, key) matches Some((a, b)) ==> 0 <= a < b <= s.len(),
{
    key_line_within(s, key, 0);
    if let Some(a) = key_line(s, key, 0) {
        line_end_advances(s, a);
        tail_end_within(s, line_end(s, a), line_end(s, a));
    }
}

/// The end of the line that holds position `i`.
fn end_of_line(v: &Vec<char>, i: usize) -> (r: usize)
    requires
        i < v.len(),
    ensures
        r == line_end(v@, i as int),
        i < r <= v.len(),
{
    let mut k: usize = i;
    while k < v.len()
        invariant
            i <= k <= v.len(),
            line_end(v@, i as int) == line_end(v@, k as int),
        decreases v.len() - k,
    {
        if v[k] == '\n' {
            return k + 1;
        }
        k += 1;
    }
    k
}

/// The end of the line from `from` to `to` without its line terminators.
fn chomp(v: &Vec<char>, from: usize, to: usize) -> (r: usize)
    requires
        from <= to <= v.len(),
    ensures
        from <= r <= to,
        v@.subrange(from as int, r as int) == chomped(v@.subrange(from as int, to as int)),
{
    let mut k: usize = to;
    while from < k && (v[k - 1] == '\n' || v[k - 1] == '\r')
        invariant
            from <= k <= to <= v.len(),
            chomped(v@.subrange(from as int, to as int)) == chomped(
                v@.subrange(from as int, k as int),
            ),
        ensures
            from <= k <= to,
            chomped(v@.subrange(from as int, to as int)) == v@.subrange(from as int, k as int),
        decreases k,
    {
        assert(v@.subrange(from as int, k as int).drop_last() =~= v@.subrange(
            from as int,
            k - 1,
        ));
        k -= 1;
    }
    k
}

/// The line that starts at `i`, and where it ends.
fn read_line(v: &Vec<char>, i: usize) -> (r: (Vec<char>, usize))
    requires
        i < v.len(),
    ensures
        r.0@ == line_at(v@, i as int),
        r.1 == line_end(v@, i as int),
        i < r.1 <= v.len(),
{
    let end: usize = end_of_line(v, i);
    let stop: usize = chomp(v, i, end);
    (chars_of(text_of(v, i, stop).as_str()), end)
}

/// `key` without a pair of `q` around it.
fn strip_quotes(key: &Vec<char>, q: char) -> (r: Option<Vec<char>>)
    ensures
        match r {
            Some(k) => unquoted_by(key@, q) == Some(k@),
            None => unquoted_by(key@, q) is None,
        },
{
    let n: usize = key.len();
    if n >= 2 && key[0] == q && key[n - 1] == q {
        Some(chars_of(text_of(key, 1, n - 1).as_str()))
    } else {
        None
    }
}

/// The key of a `key:` line at column 0.
fn top_level_key(line: &Vec<char>) -> (r: Option<Vec<char>>)
    ensures
        match r {
            Some(k) => key_of(line@) == Some(k@),
            None => key_of(line@) is None,
        },
{
    if line.len() == 0 {
        return None;
    }
    let first: char = line[0];
    let ghost marks = seq!['#', '-', '%', '.', '[', '{'];
    proof {
        assert(marks[0] == '#' && marks[1] == '-' && marks[2] == '%' && marks[3] == '.' && marks[4]
            == '[' && marks[5] == '{');
    }
    if white(first) || first == '#' || first == '-' || first == '%' || first == '.' || first == '['
        || first == '{' {
        return None;
    }
    assert(!marks.contains(first));
    let mut colon: usize = 0;
    while colon < line.len() && line[colon] != ':'
        invariant
            colon <= line.len(),
            forall|j: int| 0 <= j < colon ==> line@[j] != ':',
        ensures
            colon <= line.len(),
            forall|j: int| 0 <= j < colon ==> line@[j] != ':',
            colon < line.len() ==> line@[colon as int] == ':',
        decreases line.len() - colon,
    {
        colon += 1;
    }
    proof {
        first_at_is(line@, ':', colon as int);
    }
    if colon == line.len() {
        return None;
    }
    if colon + 1 < line.len() && line[colon + 1] != ' ' && line[colon + 1] != '\t' {
        return None;
    }
    let mut k: usize = colon;
    assert(line@.subrange(0, colon as int) =~= line@.take(colon as int));
    while 0 < k && white(line[k - 1])
        invariant
            k <= colon < line.len(),
            trim_end(line@.take(colon as int)) == trim_end(line@.subrange(0, k as int)),
        ensures
            k <= colon,
            trim_end(line@.take(colon as int)) == line@.subrange(0, k as int),
        decreases k,
    {
        assert(line@.subrange(0, k as int).drop_last() =~= line@.subrange(0, k - 1));
        k -= 1;
    }
    let key: Vec<char> = chars_of(text_of(line, 0, k).as_str());
    match strip_quotes(&key, '"') {
        Some(inner) => Some(inner),
        None => match strip_quotes(&key, '\'') {
            Some(inner) => Some(inner),
            None => Some(key),
        },
    }
}

/// Whether a line holds content at column 0.
fn is_content_at_column_0(line: &Vec<char>) -> (r: bool)
    ensures
        r == at_column_0(line@),
{
    line.len() > 0 && !white(line[0]) && line[0] != '#'
}

/// Whether a line holds indented content.
fn is_indented_content(line: &Vec<char>) -> (r: bool)
    ensures
        r == indented(line@),
{
    if line.len() == 0 || (line[0] != ' ' && line[0] != '\t') {
        return false;
    }
    let all: String = text_of(line, 0, line.len());
    assert(all@ =~= line@);
    crate::text::trim(all.as_str()).as_str().is_empty() == false
}

/// Whether two texts hold the same characters.
fn same_chars(a: &Vec<char>, b: &Vec<char>) -> (r: bool)
    ensures
        r == (a@ == b@),
{
    if a.len() != b.len() {
        return false;
    }
    for i in 0..a.len()
        invariant
            a.len() == b.len(),
            forall|k: int| 0 <= k < i ==> a@[k] == b@[k],
    {
        if a[i] != b[i] {
            return false;
        }
    }
    assert(a@ =~= b@);
    true
}

/// The range of the top-level block `key`, in characters.
pub(crate) fn locate(v: &Vec<char>, key: &Vec<char>) -> (r: Option<(usize, usize)>)
    ensures
        match r {
            Some((a, b)) => block_of(v@, key@) == Some((a as int, b as int)) && a < b <= v.len(),
            None => block_of(v@, key@) is None,
        },
{
    let mut i: usize = 0;
    while i < v.len()
        invariant
            i <= v.len(),
            key_line(v@, key@, 0) == key_line(v@, key@, i as int),
        decreases v.len() - i,
    {
        let (line, next) = read_line(v, i);
        let found = match top_level_key(&line) {
            Some(k) => same_chars(&k, key),
            None => false,
        };
        if found {
            let start: usize = i;
            let mut end: usize = next;
            let mut j: usize = next;
            while j < v.len()
                invariant
                    start < end <= j <= v.len(),
                    tail_end(v@, next as int, next as int) == tail_end(v@, j as int, end as int),
                ensures
                    start < end <= v.len(),
                    tail_end(v@, next as int, next as int) == end,
                decreases v.len() - j,
            {
                let (inner, after) = read_line(v, j);
                if is_content_at_column_0(&inner) {
                    break;
                }
                if is_indented_content(&inner) {
                    end = after;
                }
                j = after;
            }
            return Some((start, end));
        }
        i = next;
    }
    None
}

/// The top-level key this module manages.
pub const MCP_SERVERS_KEY: &'static str = "mcp_servers";

/// `s` without the newlines at its end.
pub open spec fn without_newlines(s: Seq<char>) -> Seq<char>
    decreases s.len(),
{
    if s.len() > 0 && s.last() == '\n' {
        without_newlines(s.drop_last())
    } else {
        s
    }
}

/// `s` cut to end where its content does: its trailing newlines replaced by one, none when nothing is left.
pub open spec fn closed_up(s: Seq<char>) -> Seq<char> {
    let kept = without_newlines(s);
    if kept.len() == 0 {
        kept
    } else {
        kept.push('\n')
    }
}

/// `s` made to end with a blank line, when it is not empty.
pub open spec fn blank_line_after(s: Seq<char>) -> Seq<char> {
    let line = if s.len() > 0 && s.last() != '\n' {
        s.push('\n')
    } else {
        s
    };
    if s.len() == 0 || (line.len() >= 2 && line[line.len() - 2] == '\n') {
        line
    } else {
        line.push('\n')
    }
}

/// `text` with `block` in place of its top-level block `key`: replaced where it stands, appended after a
/// blank line where there is none, removed when `block` is empty — and then the blank line that separated a
/// block at the end of the file goes with it.
pub open spec fn replaced(text: Seq<char>, key: Seq<char>, block: Seq<char>) -> Seq<char> {
    match block_of(text, key) {
        Some((a, b)) => {
            let out = text.take(a) + block + text.skip(b);
            if block.len() == 0 && b == text.len() {
                closed_up(out)
            } else {
                out
            }
        },
        None => if block.len() == 0 {
            text
        } else {
            blank_line_after(text) + block
        },
    }
}

/// `text` with `block` in place of its top-level block `key`.
pub fn replace_block(text: &str, key: &str, block: &str) -> (r: String)
    ensures
        r@ == replaced(text@, key@, block@),
{
    let v: Vec<char> = chars_of(text);
    let empty = block.is_empty();
    match locate(&v, &chars_of(key)) {
        Some((a, b)) => {
            let mut out: String = text_of(&v, 0, a);
            out.append(block);
            out.append(text_of(&v, b, v.len()).as_str());
            assert(out@ =~= text@.take(a as int) + block@ + text@.skip(b as int));
            if empty && b == v.len() {
                let w: Vec<char> = chars_of(out.as_str());
                let mut k: usize = w.len();
                assert(w@.subrange(0, k as int) =~= w@);
                while 0 < k && w[k - 1] == '\n'
                    invariant
                        k <= w.len(),
                        without_newlines(w@) == without_newlines(w@.subrange(0, k as int)),
                    ensures
                        k <= w.len(),
                        without_newlines(w@) == w@.subrange(0, k as int),
                    decreases k,
                {
                    assert(w@.subrange(0, k as int).drop_last() =~= w@.subrange(0, k - 1));
                    k -= 1;
                }
                let mut cut: String = text_of(&w, 0, k);
                if k > 0 {
                    cut.push('\n');
                }
                return cut;
            }
            out
        },
        None => {
            let mut out: String = own(text);
            if empty {
                return out;
            }
            let n: usize = v.len();
            if n > 0 {
                let mut lines: Vec<char> = v;
                if lines[n - 1] != '\n' {
                    lines.push('\n');
                    out.push('\n');
                }
                let m: usize = lines.len();
                if !(m >= 2 && lines[m - 2] == '\n') {
                    out.push('\n');
                }
            }
            out.append(block);
            out
        },
    }
}

/// The byte range of the top-level block `key` in `text`, or `None` when no line at column 0 is `key:`.
pub fn locate_block(text: &str, key: &str) -> (r: Option<Range<usize>>)
    ensures
        match (r, block_of(text@, key@)) {
            (Some(range), Some((a, b))) => range.start == encode_utf8(text@.take(a)).len() as usize
                && range.end == encode_utf8(text@.take(b)).len() as usize,
            (None, None) => true,
            _ => false,
        },
{
    let v: Vec<char> = chars_of(text);
    match locate(&v, &chars_of(key)) {
        Some((a, b)) => {
            let start: String = text_of(&v, 0, a);
            let end: String = text_of(&v, 0, b);
            assert(start@ =~= text@.take(a as int));
            assert(end@ =~= text@.take(b as int));
            Some(Range { start: start.as_str().len(), end: end.as_str().len() })
        },
        None => None,
    }
}

/// `text` with its top-level `mcp_servers:` block replaced by `servers`; an error is the text of the failure to
/// print them.
pub open spec fn rewritten(text: Seq<char>, servers: Map<Seq<char>, ServerView>) -> Result<
    Seq<char>,
    Seq<char>,
> {
    if pairs_of(servers).len() == 0 {
        Ok(replaced(text, MCP_SERVERS_KEY@, Seq::empty()))
    } else {
        match yaml_text(block_node(servers)) {
            Ok(block) => Ok(replaced(text, MCP_SERVERS_KEY@, block)),
            Err(e) => Err(e),
        }
    }
}

/// `text` with its top-level `mcp_servers:` block replaced by `servers` — appended after one blank line when
/// the document has none, and REMOVED when `servers` is empty. Every character outside the block is returned
/// as it came in. An error is the text of the failure to print the entries. Servers whose texts hold no newline
/// print as one block, of which a later rewrite leaves nothing; and into an empty file those whose texts have no
/// line break to write are written as a document that reads back as them.
pub fn rewrite_mcp_servers(text: &str, servers: &StrMap<McpServerConfig>) -> (r: Result<
    String,
    EditError,
>)
    ensures
        match rewritten(text@, servers@) {
            Ok(out) => r matches Ok(t) && t@ == out,
            Err(e) => r matches Err(EditError::Serialize(m)) && m@ == e,
        },
        r is Ok && pairs_of(servers@).len() > 0 && one_line_servers(servers@) ==> prints_a_block(
            servers@,
        ),
        pairs_of(servers@).len() > 0 && one_line_servers(servers@) ==> (r matches Ok(t)
            ==> forall|later: Map<Seq<char>, ServerView>|
            pairs_of(later).len() > 0 && prints_a_block(later) ==> #[trigger] rewritten(t@, later)
                == rewritten(text@, later)),
        text@.len() == 0 && pairs_of(servers@).len() > 0 && unbroken_servers(servers@) ==> (
        r matches Ok(t) ==> yaml_document(encode_utf8(t@)) == Ok::<Node, Seq<char>>(
            block_node(servers@),
        )),
{
    if servers.len() == 0 {
        let none: String = String::new();
        return Ok(replace_block(text, MCP_SERVERS_KEY, none.as_str()));
    }
    let tree: Yaml = block_tree(servers);
    proof {
        block_kept(servers@);
    }
    match print(&tree) {
        Ok(block) => {
            proof {
                reveal_strlit("mcp_servers");
                if one_line_servers(servers@) {
                    assert(is_section(tree@, MCP_SERVERS_KEY@));
                    layout_is_block(block@, MCP_SERVERS_KEY@);
                    assert forall|later: Map<Seq<char>, ServerView>|
                        pairs_of(later).len() > 0 && prints_a_block(later) implies #[trigger] rewritten(
                        replaced(text@, MCP_SERVERS_KEY@, block@),
                        later,
                    ) == rewritten(text@, later) by {
                        later_servers_stand(text@, servers@, later);
                    }
                }
                if text@.len() == 0 {
                    assert(key_line(text@, MCP_SERVERS_KEY@, 0) is None);
                    assert(blank_line_after(text@) + block@ =~= block@);
                }
            }
            Ok(replace_block(text, MCP_SERVERS_KEY, block.as_str()))
        },
        Err(e) => Err(EditError::Serialize(e)),
    }
}

/// One config file as read for a rewrite: its text as found and its own `mcp_servers:` entries.
pub struct FileServers {
    /// The document, verbatim (`""` when the file does not exist yet).
    pub text: String,
    /// The `mcp_servers:` entries this ONE file declares.
    pub servers: StrMap<McpServerConfig>,
}

/// Why a rewrite could not happen: the file could not be read or written, or what it holds is not a config
/// that loads.
pub enum EditError {
    /// The file exists but could not be read.
    Read {
        /// The file as it was named.
        path: String,
        /// The text of the failure.
        source: String,
    },
    /// The document does not load: a YAML error, or a key of the wrong layer.
    Config {
        /// The file as it was named.
        path: String,
        /// The text of what is wrong inside it.
        source: String,
    },
    /// The write failed.
    Write {
        /// The file as it was named.
        path: String,
        /// The text of the failure.
        source: String,
    },
    /// The block could not be printed.
    Serialize(String),
}

impl EditError {
    /// The text of the error.
    pub open spec fn text(&self) -> Seq<char> {
        match *self {
            EditError::Read { path, source } => "config "@ + path@ + ": "@ + source@,
            EditError::Config { path, source } => "config "@ + path@ + ": "@ + source@,
            EditError::Write { path, source } => "config "@ + path@ + ": "@ + source@,
            EditError::Serialize(e) => "mcp_servers: "@ + e@,
        }
    }

    /// The text of the error.
    pub fn message(&self) -> (r: String)
        ensures
            r@ == self.text(),
    {
        match self {
            EditError::Read { path, source } | EditError::Config { path, source }
            | EditError::Write { path, source } => {
                let mut m: String = own("config ");
                m.append(path.as_str());
                m.append(": ");
                m.append(source.as_str());
                m
            },
            EditError::Serialize(e) => {
                let mut m: String = own("mcp_servers: ");
                m.append(e.as_str());
                m
            },
        }
    }
}

/// What reading one file gave.
pub enum ServersRead {
    /// There is no such file.
    Missing,
    /// The file could not be read, with the text of the failure.
    Failed(String),
    /// The bytes, and the servers they declare or the text of what is wrong inside.
    Bytes(Vec<u8>, Result<StrMap<McpServerConfig>, String>),
}

/// The servers of one file with its text, for a rewrite. A file that does not exist yet is empty; one that does
/// not load is not touched.
pub fn read_mcp_servers(path: &str, read: ServersRead) -> (r: Result<FileServers, EditError>)
    ensures
        match read {
            ServersRead::Missing => r matches Ok(f) && f.text@.len() == 0 && f.servers@
                == Map::<Seq<char>, ServerView>::empty(),
            ServersRead::Failed(e) => r matches Err(EditError::Read { path: p, source }) && p@
                == path@ && source@ == e@,
            ServersRead::Bytes(_, Err(e)) => r matches Err(EditError::Config { path: p, source })
                && p@ == path@ && source@ == e@,
            ServersRead::Bytes(data, Ok(servers)) => if valid_utf8(data@) {
                r matches Ok(f) && f.text@ == decode_utf8(data@) && f.servers@ == servers@
            } else {
                r matches Err(EditError::Config { path: p, source }) && p@ == path@ && source@
                    == utf8_fault(data@)
            },
        },
{
    match read {
        ServersRead::Missing => Ok(FileServers { text: String::new(), servers: StrMap::new() }),
        ServersRead::Failed(source) => Err(EditError::Read { path: own(path), source }),
        ServersRead::Bytes(data, decoded) => match decoded {
            Err(source) => Err(EditError::Config { path: own(path), source }),
            Ok(servers) => match read_utf8(data) {
                Ok(text) => Ok(FileServers { text, servers }),
                Err(source) => Err(EditError::Config { path: own(path), source }),
            },
        },
    }
}

/// Writes the servers of one file through `write`, which gets the whole new text and gives the text of a
/// failure.
pub fn write_mcp_servers<W: FnOnce(&String) -> Result<(), String>>(
    path: &str,
    text: &str,
    servers: &StrMap<McpServerConfig>,
    write: W,
) -> (r: Result<(), EditError>)
    requires
        forall|t: &String| rewritten(text@, servers@) == Ok::<Seq<char>, Seq<char>>(t@) ==> write.requires((t,)),
    ensures
        match rewritten(text@, servers@) {
            Err(e) => r matches Err(EditError::Serialize(m)) && m@ == e,
            Ok(out) => exists|t: &String, w: Result<(), String>|
                {
                    &&& t@ == out
                    &&& #[trigger] write.ensures((t,), w)
                    &&& match w {
                        Ok(_) => r is Ok,
                        Err(e) => r matches Err(EditError::Write { path: p, source }) && p@ == path@
                            && source@ == e@,
                    }
                },
        },
{
    let out: String = match rewrite_mcp_servers(text, servers) {
        Ok(out) => out,
        Err(e) => return Err(e),
    };
    match write(&out) {
        Ok(_) => Ok(()),
        Err(source) => Err(EditError::Write { path: own(path), source }),
    }
}

} // verus!
