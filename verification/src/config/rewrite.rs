//! What a rewrite of one top-level block keeps, and what a later rewrite finds of it.

use vstd::prelude::*;

use crate::config::edit::{
    block_of, block_of_within, blank_line_after, chomped, closed_up, indented, at_column_0, key_line,
    key_of, line_at, line_end, line_end_advances, replaced, rewritten, tail_end, unquoted,
    without_newlines, MCP_SERVERS_KEY,
};
use crate::config::server::{block_node, ServerView};
use crate::map::pairs_of;
use crate::text::{first_at_is, is_white, trim_end, trimmed};
use crate::yaml::{inner_line, is_layout, is_word, yaml_text};

verus! {

/// A text that is one block of `key`, from its key line to its last indented line, closed by a newline.
pub open spec fn is_block(key: Seq<char>, block: Seq<char>) -> bool {
    &&& block.len() > 0
    &&& block.last() == '\n'
    &&& block_of(block, key) == Some((0int, block.len() as int))
}

// ---------------------------------------------------------------- lines

/// A line goes to a newline, or to the end of the text.
proof fn line_end_closes(s: Seq<char>, i: int)
    requires
        0 <= i < s.len(),
    ensures
        i < line_end(s, i) <= s.len(),
        line_end(s, i) == s.len() || s[line_end(s, i) - 1] == '\n',
    decreases s.len() - i,
{
    if s[i] != '\n' {
        if i + 1 < s.len() {
            line_end_closes(s, i + 1);
        } else {
            assert(line_end(s, i + 1) == s.len());
        }
    }
}

/// Texts that agree from two positions on have the same line there.
proof fn same_line_after(s: Seq<char>, p: int, t: Seq<char>, q: int)
    requires
        0 <= p <= s.len(),
        0 <= q <= t.len(),
        s.skip(p) == t.skip(q),
    ensures
        line_end(s, p) - p == line_end(t, q) - q,
        line_at(s, p) == line_at(t, q),
    decreases s.len() - p,
{
    assert(s.skip(p).len() == s.len() - p);
    assert(t.skip(q).len() == t.len() - q);
    if p < s.len() {
        assert(s.skip(p)[0] == s[p]);
        assert(t.skip(q)[0] == t[q]);
        if s[p] != '\n' {
            assert(s.skip(p + 1) =~= s.skip(p).skip(1));
            assert(t.skip(q + 1) =~= t.skip(q).skip(1));
            same_line_after(s, p + 1, t, q + 1);
        }
        line_end_advances(s, p);
        line_end_advances(t, q);
        let n = line_end(s, p) - p;
        assert(s.subrange(p, p + n) =~= s.skip(p).take(n));
        assert(t.subrange(q, q + n) =~= t.skip(q).take(n));
    } else {
        assert(s.subrange(p, line_end(s, p)) =~= t.subrange(q, line_end(t, q)));
    }
}

/// Texts that agree up to a newline have the same lines up to there.
proof fn same_line_before(s: Seq<char>, t: Seq<char>, a: int, i: int)
    requires
        0 <= i < a <= s.len(),
        a <= t.len(),
        s.take(a) == t.take(a),
        t[a - 1] == '\n',
    ensures
        line_end(s, i) == line_end(t, i),
        i < line_end(t, i) <= a,
        line_at(s, i) == line_at(t, i),
    decreases a - i,
{
    assert(s.take(a)[i] == s[i] && t.take(a)[i] == t[i]);
    if t[i] != '\n' {
        assert(i < a - 1);
        same_line_before(s, t, a, i + 1);
    }
    let n = line_end(t, i);
    assert(s.subrange(i, n) =~= s.take(a).subrange(i, n));
    assert(t.subrange(i, n) =~= t.take(a).subrange(i, n));
}

/// A text that stands inside another, closed by a newline, has its lines there.
proof fn same_line_inside(s: Seq<char>, a: int, b: Seq<char>, i: int)
    requires
        0 <= a,
        a + b.len() <= s.len(),
        s.subrange(a, a + b.len()) == b,
        0 <= i < b.len(),
        b.last() == '\n',
    ensures
        line_end(s, a + i) == a + line_end(b, i),
        i < line_end(b, i) <= b.len(),
        line_at(s, a + i) == line_at(b, i),
    decreases b.len() - i,
{
    assert(s.subrange(a, a + b.len())[i] == s[a + i]);
    if b[i] != '\n' {
        assert(i < b.len() - 1);
        same_line_inside(s, a, b, i + 1);
    }
    let n = line_end(b, i);
    assert(s.subrange(a + i, a + n) =~= s.subrange(a, a + b.len()).subrange(i, n));
}

// ---------------------------------------------------------------- where a block begins

/// A key line begins at the start of a line.
proof fn key_line_begins_a_line(s: Seq<char>, key: Seq<char>, i: int)
    requires
        0 <= i <= s.len(),
        i == 0 || s[i - 1] == '\n' || i == s.len(),
    ensures
        key_line(s, key, i) matches Some(a) ==> i <= a < s.len() && (a == 0 || s[a - 1] == '\n'),
    decreases s.len() - i,
{
    if i < s.len() && key_of(line_at(s, i)) != Some(key) {
        line_end_closes(s, i);
        key_line_begins_a_line(s, key, line_end(s, i));
    }
}

/// The first key line stays the first when what follows it changes.
proof fn key_line_stays(s: Seq<char>, t: Seq<char>, key: Seq<char>, a: int, i: int)
    requires
        0 <= i <= a < s.len(),
        a <= t.len(),
        s.take(a) == t.take(a),
        a == 0 || t[a - 1] == '\n',
        key_line(t, key, i) == Some(a) || (key_line(t, key, i) is None && a == t.len()),
        key_of(line_at(s, a)) == Some(key),
    ensures
        key_line(s, key, i) == Some(a),
    decreases a - i,
{
    if i < a {
        same_line_before(s, t, a, i);
        key_line_stays(s, t, key, a, line_end(t, i));
    }
}

/// A newline at the end makes no key line.
proof fn newline_makes_no_key(t: Seq<char>, key: Seq<char>, i: int)
    requires
        0 <= i <= t.len(),
        key_line(t, key, i) is None,
    ensures
        key_line(t.push('\n'), key, i) is None,
    decreases t.len() - i,
{
    let u = t.push('\n');
    if i == t.len() {
        assert(u[i] == '\n');
        assert(line_end(u, i) == i + 1);
        assert(u.subrange(i, i + 1).drop_last() =~= Seq::<char>::empty());
        assert(line_at(u, i) =~= Seq::<char>::empty()) by {
            reveal_with_fuel(chomped, 2);
        }
        assert(key_line(u, key, i + 1) is None);
    } else {
        line_end_closes(t, i);
        line_of_pushed(t, i);
        let n = line_end(t, i);
        assert(key_line(t, key, n) is None);
        if line_end(u, i) == n {
            newline_makes_no_key(t, key, n);
        } else {
            assert(key_line(u, key, line_end(u, i)) is None);
        }
    }
}

/// A newline at the end changes no line but the last, and that only by its end.
proof fn line_of_pushed(t: Seq<char>, i: int)
    requires
        0 <= i < t.len(),
    ensures
        line_at(t.push('\n'), i) == line_at(t, i),
        line_end(t.push('\n'), i) == line_end(t, i) || (line_end(t, i) == t.len() && line_end(
            t.push('\n'),
            i,
        ) == t.len() + 1),
{
    let u = t.push('\n');
    line_end_of_pushed(t, i);
    line_end_advances(t, i);
    let n = line_end(t, i);
    if line_end(u, i) == n {
        assert(u.subrange(i, n) =~= t.subrange(i, n));
    } else {
        assert(u.subrange(i, n + 1).drop_last() =~= t.subrange(i, n));
        assert(u.subrange(i, n + 1).last() == '\n');
    }
}

/// Where a line ends after a newline joined the text.
proof fn line_end_of_pushed(t: Seq<char>, i: int)
    requires
        0 <= i < t.len(),
    ensures
        line_end(t.push('\n'), i) == line_end(t, i) || (line_end(t, i) == t.len() && line_end(
            t.push('\n'),
            i,
        ) == t.len() + 1),
    decreases t.len() - i,
{
    let u = t.push('\n');
    assert(u[i] == t[i]);
    if t[i] != '\n' {
        if i + 1 < t.len() {
            line_end_of_pushed(t, i + 1);
        } else {
            assert(u[i + 1] == '\n');
            assert(line_end(u, i + 1) == i + 2);
            assert(line_end(t, i + 1) == t.len());
        }
    }
}

// ---------------------------------------------------------------- where a block ends

/// Texts that agree from two positions on end a block at the same distance.
proof fn same_tail(s: Seq<char>, p: int, e: int, t: Seq<char>, q: int, f: int)
    requires
        0 <= p <= s.len(),
        0 <= q <= t.len(),
        s.skip(p) == t.skip(q),
        e - p == f - q,
    ensures
        tail_end(s, p, e) - p == tail_end(t, q, f) - q,
    decreases s.len() - p,
{
    assert(s.skip(p).len() == s.len() - p);
    assert(t.skip(q).len() == t.len() - q);
    if p < s.len() {
        same_line_after(s, p, t, q);
        line_end_advances(s, p);
        line_end_advances(t, q);
        let n = line_end(s, p) - p;
        assert(s.skip(p + n) =~= s.skip(p).skip(n));
        assert(t.skip(q + n) =~= t.skip(q).skip(n));
        same_tail(s, p + n, p + n, t, q + n, q + n);
        same_tail(s, p + n, e, t, q + n, f);
    }
}

/// Nothing after the end of a block belongs to it.
proof fn tail_stops(s: Seq<char>, i: int, e: int)
    requires
        0 <= e <= i <= s.len(),
        tail_end(s, e, e) == tail_end(s, i, e),
    ensures
        tail_end(s, tail_end(s, i, e), tail_end(s, i, e)) == tail_end(s, i, e),
    decreases s.len() - i,
{
    if i < s.len() && !at_column_0(line_at(s, i)) {
        line_end_advances(s, i);
        let n = line_end(s, i);
        if indented(line_at(s, i)) {
            tail_stops(s, n, n);
        } else {
            tail_stops(s, n, e);
        }
    }
}

/// A block that stands inside a text is passed as a whole.
proof fn tail_passes(s: Seq<char>, a: int, b: Seq<char>, i: int, e: int)
    requires
        0 <= a,
        a + b.len() <= s.len(),
        s.subrange(a, a + b.len()) == b,
        b.len() > 0,
        b.last() == '\n',
        0 <= e <= i <= b.len(),
        tail_end(b, i, e) == b.len(),
    ensures
        tail_end(s, a + i, a + e) == tail_end(s, a + b.len(), a + b.len()),
    decreases b.len() - i,
{
    if i < b.len() {
        same_line_inside(s, a, b, i);
        let n = line_end(b, i);
        if indented(line_at(b, i)) {
            tail_passes(s, a, b, n, n);
        } else {
            tail_passes(s, a, b, n, e);
        }
    }
}

// ---------------------------------------------------------------- laws

/// The text before the block that is written.
pub open spec fn lead_of(text: Seq<char>, key: Seq<char>) -> Seq<char> {
    match block_of(text, key) {
        Some((a, _)) => text.take(a),
        None => blank_line_after(text),
    }
}

/// The text after it.
pub open spec fn rest_of(text: Seq<char>, key: Seq<char>) -> Seq<char> {
    match block_of(text, key) {
        Some((_, b)) => text.skip(b),
        None => Seq::empty(),
    }
}

/// A rewrite keeps every character outside the block: what stood before it and what stood after it stand before
/// and after the new block.
pub proof fn rewrite_keeps_the_rest(text: Seq<char>, key: Seq<char>, block: Seq<char>)
    requires
        block.len() > 0,
    ensures
        replaced(text, key, block) == lead_of(text, key) + block + rest_of(text, key),
        block_of(text, key) matches Some((a, b)) ==> text == lead_of(text, key) + text.subrange(
            a,
            b,
        ) + rest_of(text, key),
        block_of(text, key) is None ==> lead_of(text, key).take(text.len() as int) == text,
{
    block_of_within(text, key);
    match block_of(text, key) {
        Some((a, b)) => {
            assert(text =~= text.take(a) + text.subrange(a, b) + text.skip(b));
        },
        None => {
            assert(blank_line_after(text) + block =~= blank_line_after(text) + block
                + Seq::<char>::empty());
            assert(blank_line_after(text).take(text.len() as int) =~= text);
        },
    }
}

/// A text that has no block has none after a blank line was added, and then ends with a newline.
proof fn blank_line_makes_no_key(text: Seq<char>, key: Seq<char>)
    requires
        key_line(text, key, 0) is None,
    ensures
        key_line(blank_line_after(text), key, 0) is None,
        blank_line_after(text).len() > 0 ==> blank_line_after(text).last() == '\n',
{
    newline_makes_no_key(text, key, 0);
    newline_makes_no_key(text.push('\n'), key, 0);
}

/// What a rewrite wrote is what the next one finds: the block of the new text is the one that was written.
pub proof fn written_block_is_found(text: Seq<char>, key: Seq<char>, block: Seq<char>)
    requires
        is_block(key, block),
    ensures
        ({
            let a = lead_of(text, key).len() as int;
            &&& block_of(replaced(text, key, block), key) == Some((a, a + block.len()))
            &&& replaced(text, key, block).subrange(a, a + block.len()) == block
        }),
{
    let lead = lead_of(text, key);
    let rest = rest_of(text, key);
    let a = lead.len() as int;
    let s = lead + block + rest;
    rewrite_keeps_the_rest(text, key, block);
    block_of_within(text, key);
    assert(s.take(a) =~= lead);
    assert(s.subrange(a, a + block.len()) =~= block);
    same_line_inside(s, a, block, 0);
    assert(key_of(line_at(s, a)) == Some(key)) by {
        assert(key_line(block, key, 0) == Some(0int));
        line_end_closes(block, 0);
        key_line_begins_a_line(block, key, line_end(block, 0));
    }
    match block_of(text, key) {
        Some((at, end)) => {
            key_line_begins_a_line(text, key, 0);
            assert(text.take(at) =~= s.take(a));
            key_line_stays(s, text, key, a, 0);
            let first = line_end(text, at);
            line_end_advances(text, at);
            tail_stops(text, first, first);
            assert(s.skip(a + block.len()) =~= text.skip(end));
            same_tail(s, a + block.len(), a + block.len(), text, end, end);
        },
        None => {
            blank_line_makes_no_key(text, key);
            assert(lead.take(a) =~= lead);
            key_line_stays(s, lead, key, a, 0);
            assert(a + block.len() == s.len());
        },
    }
    let l0 = line_end(block, 0);
    tail_passes(s, a, block, l0, l0);
}

/// Of two rewrites the later one stands, as if the earlier one had never been; so writing the same block twice is
/// writing it once.
pub proof fn later_rewrite_stands(
    text: Seq<char>,
    key: Seq<char>,
    first: Seq<char>,
    second: Seq<char>,
)
    requires
        is_block(key, first),
        is_block(key, second),
    ensures
        replaced(replaced(text, key, first), key, second) == replaced(text, key, second),
{
    let s = replaced(text, key, first);
    let a = lead_of(text, key).len() as int;
    written_block_is_found(text, key, first);
    rewrite_keeps_the_rest(text, key, first);
    rewrite_keeps_the_rest(text, key, second);
    assert(s.take(a) =~= lead_of(text, key));
    assert(s.skip(a + first.len()) =~= rest_of(text, key));
}

/// Newlines at the end do not matter to what is cut off there.
proof fn newline_is_cut(s: Seq<char>)
    ensures
        without_newlines(s.push('\n')) == without_newlines(s),
{
    assert(s.push('\n').drop_last() =~= s);
}

/// A block that was appended and removed again leaves the text as it was, up to the newlines at its end.
pub proof fn appended_block_can_be_removed(text: Seq<char>, key: Seq<char>, block: Seq<char>)
    requires
        block_of(text, key) is None,
        is_block(key, block),
    ensures
        replaced(replaced(text, key, block), key, Seq::empty()) == closed_up(text),
{
    let s = replaced(text, key, block);
    let lead = blank_line_after(text);
    written_block_is_found(text, key, block);
    rewrite_keeps_the_rest(text, key, block);
    let a = lead.len() as int;
    assert(s.take(a) + Seq::<char>::empty() + s.skip(a + block.len()) =~= lead);
    newline_is_cut(text);
    newline_is_cut(text.push('\n'));
}

// ---------------------------------------------------------------- the printed block

/// A line ends at the first newline from its start on.
proof fn line_end_is(s: Seq<char>, i: int, n: int)
    requires
        0 <= i < n <= s.len(),
        s[n - 1] == '\n',
        forall|k: int| i <= k < n - 1 ==> s[k] != '\n',
    ensures
        line_end(s, i) == n,
    decreases n - i,
{
    if i < n - 1 {
        line_end_is(s, i + 1, n);
    }
}

/// A character that is not white space stays when the ends of lines are taken off.
proof fn chomped_keeps(s: Seq<char>, j: int)
    requires
        0 <= j < s.len(),
        !is_white(s[j]),
    ensures
        j < chomped(s).len() <= s.len(),
        chomped(s) == s.take(chomped(s).len() as int),
    decreases s.len(),
{
    if s.last() == '\n' || s.last() == '\r' {
        assert(j < s.len() - 1);
        chomped_keeps(s.drop_last(), j);
        assert(s.drop_last().take(chomped(s).len() as int) =~= s.take(chomped(s).len() as int));
    } else {
        assert(s.take(s.len() as int) =~= s);
    }
}

/// A text with a character that is not white space has something left when it is trimmed at its end.
proof fn trim_end_keeps(s: Seq<char>, j: int)
    requires
        0 <= j < s.len(),
        !is_white(s[j]),
    ensures
        trim_end(s).len() > 0,
    decreases s.len(),
{
    if is_white(s.last()) {
        trim_end_keeps(s.drop_last(), j);
    }
}

/// A text with a character that is not white space has something left when it is trimmed.
proof fn trimmed_keeps(s: Seq<char>, j: int)
    requires
        0 <= j < s.len(),
        !is_white(s[j]),
    ensures
        trimmed(s).len() > 0,
    decreases s.len(),
{
    if is_white(s[0]) {
        assert(s.drop_first()[j - 1] == s[j]);
        trimmed_keeps(s.drop_first(), j - 1);
    } else {
        trim_end_keeps(s, j);
    }
}

/// An inner line is an indented line.
proof fn inner_line_is_indented(t: Seq<char>, i: int)
    requires
        0 <= i < t.len(),
        inner_line(t, i),
    ensures
        indented(line_at(t, i)),
        !at_column_0(line_at(t, i)),
{
    let j = choose|j: int|
        i <= j < t.len() && !is_white(#[trigger] t[j]) && forall|k: int|
            i <= k < j ==> #[trigger] t[k] != '\n';
    line_end_after(t, i, j);
    let line = t.subrange(i, line_end(t, i));
    assert(line[j - i] == t[j]);
    chomped_keeps(line, j - i);
    let bare = chomped(line);
    assert(bare[j - i] == t[j]);
    assert(bare[0] == line[0] == t[i]);
    trimmed_keeps(bare, j - i);
}

/// A line goes on past a position before which it holds no newline.
proof fn line_end_after(s: Seq<char>, i: int, j: int)
    requires
        0 <= i <= j < s.len(),
        forall|k: int| i <= k < j ==> #[trigger] s[k] != '\n',
        s[j] != '\n',
    ensures
        j < line_end(s, i) <= s.len(),
    decreases j - i,
{
    if i < j {
        assert(s[i] != '\n');
        line_end_after(s, i + 1, j);
    } else {
        line_end_closes(s, i);
    }
}

/// The block of a layout goes to its end.
proof fn layout_tail(t: Seq<char>, key: Seq<char>, i: int)
    requires
        is_layout(t, key),
        key.len() + 2 <= i <= t.len(),
        t[i - 1] == '\n',
    ensures
        tail_end(t, i, i) == t.len(),
    decreases t.len() - i,
{
    if i < t.len() {
        assert(inner_line(t, i));
        inner_line_is_indented(t, i);
        line_end_closes(t, i);
        layout_tail(t, key, line_end(t, i));
    }
}

/// A text that is laid out as a section is one block of its key.
pub proof fn layout_is_block(t: Seq<char>, key: Seq<char>)
    requires
        is_word(key),
        is_layout(t, key),
    ensures
        is_block(key, t),
{
    reveal_strlit(":\n");
    let n = key.len() as int;
    let head = key + ":\n"@;
    assert forall|k: int| 0 <= k < n + 2 implies t[k] == head[k] by {
        assert(t.take(n + 2)[k] == t[k]);
    }
    assert forall|k: int| 0 <= k < n implies t[k] == key[k] && t[k] != '\n' by {
        assert(head[k] == key[k]);
    }
    line_end_is(t, 0, n + 2);
    let line = t.subrange(0, n + 2);
    assert(line.drop_last() =~= key.push(':'));
    assert(line.last() == '\n');
    assert(chomped(line) == chomped(key.push(':')));
    let bare = key.push(':');
    assert(bare.last() == ':');
    assert(line_at(t, 0) == bare);
    first_at_is(bare, ':', n);
    assert(bare.take(n) =~= key);
    let u = choose|u: int| 0 <= u < key.len() && key[u] == '_';
    assert(key.len() > 0);
    assert(key[0] == bare[0]);
    assert(!is_white(key[0]) && !is_white(key.last()));
    assert(trim_end(key) == key);
    assert(unquoted(key) == key);
    assert(!seq!['#', '-', '%', '.', '[', '{'].contains(bare[0]));
    assert(key_of(bare) == Some(key));
    layout_tail(t, key, n + 2);
}

/// Servers that print as one block.
pub open spec fn prints_a_block(servers: Map<Seq<char>, ServerView>) -> bool {
    yaml_text(block_node(servers)) matches Ok(block) && is_block(MCP_SERVERS_KEY@, block)
}

/// Of two rewrites of the servers of a file the later one stands, as if the earlier one had never been.
pub proof fn later_servers_stand(
    text: Seq<char>,
    first: Map<Seq<char>, ServerView>,
    second: Map<Seq<char>, ServerView>,
)
    requires
        pairs_of(first).len() > 0,
        pairs_of(second).len() > 0,
        prints_a_block(first),
        prints_a_block(second),
    ensures
        rewritten(text, first) matches Ok(t) && rewritten(t, second) == rewritten(text, second),
{
    let a = yaml_text(block_node(first))->Ok_0;
    let b = yaml_text(block_node(second))->Ok_0;
    later_rewrite_stands(text, MCP_SERVERS_KEY@, a, b);
}

/// Servers that were added to a file without any and all removed again leave it as it was, up to the newlines
/// at its end.
pub proof fn added_servers_can_be_removed(
    text: Seq<char>,
    servers: Map<Seq<char>, ServerView>,
    none: Map<Seq<char>, ServerView>,
)
    requires
        block_of(text, MCP_SERVERS_KEY@) is None,
        pairs_of(servers).len() > 0,
        prints_a_block(servers),
        pairs_of(none).len() == 0,
    ensures
        rewritten(text, servers) matches Ok(t) && rewritten(t, none) == Ok::<
            Seq<char>,
            Seq<char>,
        >(closed_up(text)),
{
    let block = yaml_text(block_node(servers))->Ok_0;
    appended_block_can_be_removed(text, MCP_SERVERS_KEY@, block);
}

} // verus!
