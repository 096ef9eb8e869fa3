//! Paths, read by their parts: empty parts and `.` parts name nothing.

use vstd::prelude::*;
use vstd::string::*;

use crate::provider::opt_view;
use crate::text::{chars_of, own, parts_of, push_text, same, split, strs, text_of};

verus! {

// ---------------------------------------------------------------- parts

/// Whether a path starts at the root.
pub open spec fn rooted(path: Seq<char>) -> bool {
    path.len() > 0 && path[0] == '/'
}

/// Whether the first part of a path is `.`.
pub open spec fn dotted(path: Seq<char>) -> bool {
    path.len() > 0 && path[0] == '.' && (path.len() == 1 || path[1] == '/')
}

/// Whether a part names nothing.
pub open spec fn is_void(part: Seq<char>) -> bool {
    part.len() == 0 || part == "."@
}

/// The parts that name something, in order.
pub open spec fn named(parts: Seq<Seq<char>>) -> Seq<Seq<char>>
    decreases parts.len(),
{
    if parts.len() == 0 {
        Seq::empty()
    } else if is_void(parts.last()) {
        named(parts.drop_last())
    } else {
        named(parts.drop_last()).push(parts.last())
    }
}

/// The components of a path: `/` where it starts at the root, `.` where it starts with that part, and then the
/// parts that name something.
pub open spec fn components_of(path: Seq<char>) -> Seq<Seq<char>> {
    let names = named(parts_of(path, '/'));
    if rooted(path) {
        seq!["/"@] + names
    } else if dotted(path) {
        seq!["."@] + names
    } else {
        names
    }
}

/// Whether `path` is `base` or stands below it, component by component.
pub open spec fn under(path: Seq<char>, base: Seq<char>) -> bool {
    components_of(base).is_prefix_of(components_of(path))
}

/// Whether a path starts at the root.
fn is_rooted(path: &str) -> (r: bool)
    ensures
        r == rooted(path@),
{
    path.unicode_len() > 0 && path.get_char(0) == '/'
}

/// Whether the first part of a path is `.`.
fn is_dotted(path: &str) -> (r: bool)
    ensures
        r == dotted(path@),
{
    let n: usize = path.unicode_len();
    n > 0 && path.get_char(0) == '.' && (n == 1 || path.get_char(1) == '/')
}

/// The parts of a path that name something.
fn names(path: &str) -> (r: Vec<String>)
    ensures
        strs(r@) == named(parts_of(path@, '/')),
{
    let parts: Vec<String> = split(path, '/');
    let ghost all = strs(parts@);
    let mut r: Vec<String> = Vec::new();
    assert(strs(r@) =~= named(all.take(0)));
    for i in 0..parts.len()
        invariant
            all == strs(parts@),
            strs(r@) == named(all.take(i as int)),
    {
        assert(all.take(i + 1).drop_last() =~= all.take(i as int));
        assert(all.take(i + 1).last() == parts@[i as int]@);
        let part: &str = parts[i].as_str();
        if !part.is_empty() && !same(part, ".") {
            push_text(&mut r, own(part));
        }
    }
    assert(all.take(all.len() as int) =~= all);
    r
}

/// The components of a path.
pub fn components(path: &str) -> (r: Vec<String>)
    ensures
        strs(r@) == components_of(path@),
{
    let mut r: Vec<String> = Vec::new();
    if is_rooted(path) {
        r.push(own("/"));
    } else if is_dotted(path) {
        r.push(own("."));
    }
    let mut more: Vec<String> = names(path);
    let ghost lead = strs(r@);
    let ghost rest = strs(more@);
    r.append(&mut more);
    assert(strs(r@) =~= lead + rest);
    assert(strs(r@) =~= components_of(path@));
    r
}

/// Whether the texts of `a` are the first texts of `b`.
fn leads(a: &Vec<String>, b: &Vec<String>) -> (r: bool)
    ensures
        r == strs(a@).is_prefix_of(strs(b@)),
{
    if a.len() > b.len() {
        return false;
    }
    for i in 0..a.len()
        invariant
            a.len() <= b.len(),
            forall|k: int| 0 <= k < i ==> (#[trigger] strs(a@)[k]) == strs(b@)[k],
    {
        if !same(a[i].as_str(), b[i].as_str()) {
            assert(strs(a@)[i as int] != strs(b@)[i as int]);
            assert(strs(b@).subrange(0, a@.len() as int)[i as int] == strs(b@)[i as int]);
            return false;
        }
    }
    assert(strs(a@) =~= strs(b@).subrange(0, a@.len() as int));
    true
}

/// Whether `path` is `base` or stands below it.
pub fn is_under(path: &str, base: &str) -> (r: bool)
    ensures
        r == under(path@, base@),
{
    leads(&components(base), &components(path))
}

// ---------------------------------------------------------------- the directory above

/// How many characters a path starts with that belong to no part that can be taken off its end.
pub open spec fn lead_of(path: Seq<char>) -> int {
    if rooted(path) || dotted(path) {
        1
    } else {
        0
    }
}

/// Where the last part of the first `n` characters of a path starts.
pub open spec fn cut_at(path: Seq<char>, lead: int, n: int) -> int
    decreases n,
{
    if n <= lead || n <= 0 {
        lead
    } else if path[n - 1] == '/' {
        n
    } else {
        cut_at(path, lead, n - 1)
    }
}

/// Where the text before a part that starts at `k` ends: the separator goes with the part.
pub open spec fn before_part(lead: int, k: int) -> int {
    if k > lead {
        k - 1
    } else {
        lead
    }
}

/// The length of the first `n` characters of a path without the parts at their end that name nothing.
pub open spec fn bare_to(path: Seq<char>, lead: int, n: int) -> int
    decreases n,
    via bare_to_decreases
{
    let k = cut_at(path, lead, n);
    if n <= lead || n <= 0 || lead < 0 {
        n
    } else if k == n || (k == n - 1 && path[k] == '.') {
        bare_to(path, lead, before_part(lead, k))
    } else {
        n
    }
}

#[via_fn]
proof fn bare_to_decreases(path: Seq<char>, lead: int, n: int) {
    cut_bounds(path, lead, n);
}

/// A last part starts after the lead and no later than the end.
proof fn cut_bounds(path: Seq<char>, lead: int, n: int)
    ensures
        lead <= cut_at(path, lead, n),
        lead <= n ==> cut_at(path, lead, n) <= n,
    decreases n,
{
    if n > lead && n > 0 && path[n - 1] != '/' {
        cut_bounds(path, lead, n - 1);
    }
}

/// What is left of a path is no longer than it was.
proof fn bare_bounds(path: Seq<char>, lead: int, n: int)
    requires
        0 <= lead <= n,
    ensures
        lead <= bare_to(path, lead, n) <= n,
    decreases n,
{
    cut_bounds(path, lead, n);
    let k = cut_at(path, lead, n);
    if n > lead && (k == n || (k == n - 1 && path[k] == '.')) {
        bare_bounds(path, lead, before_part(lead, k));
    }
}

/// The path without its last component: none for the root and for the empty path, and the empty path for a
/// single relative component.
pub open spec fn parent_of(path: Seq<char>) -> Option<Seq<char>> {
    let lead = lead_of(path);
    let n = bare_to(path, lead, path.len() as int);
    if n > lead {
        Some(path.take(bare_to(path, lead, before_part(lead, cut_at(path, lead, n)))))
    } else if dotted(path) {
        Some(Seq::empty())
    } else {
        None
    }
}

/// The directory above a path has a shorter path.
pub proof fn parent_is_shorter(path: Seq<char>)
    ensures
        parent_of(path) matches Some(p) ==> p.len() < path.len(),
{
    let lead = lead_of(path);
    bare_bounds(path, lead, path.len() as int);
    let n = bare_to(path, lead, path.len() as int);
    cut_bounds(path, lead, n);
    if n > lead {
        bare_bounds(path, lead, before_part(lead, cut_at(path, lead, n)));
    }
}

/// Where the last part of the first `n` characters starts.
fn cut(v: &Vec<char>, lead: usize, n: usize) -> (r: usize)
    requires
        lead <= n <= v.len(),
    ensures
        r == cut_at(v@, lead as int, n as int),
        lead <= r <= n,
{
    let mut k: usize = n;
    while k > lead && v[k - 1] != '/'
        invariant
            lead <= k <= n <= v.len(),
            cut_at(v@, lead as int, n as int) == cut_at(v@, lead as int, k as int),
        decreases k,
    {
        k -= 1;
    }
    k
}

/// The length of the first `n` characters without the parts at their end that name nothing.
fn bare(v: &Vec<char>, lead: usize, n: usize) -> (r: usize)
    requires
        lead <= n <= v.len(),
    ensures
        r == bare_to(v@, lead as int, n as int),
        lead <= r <= n,
    decreases n,
{
    if n == lead {
        return n;
    }
    let k: usize = cut(v, lead, n);
    if k == n || (k == n - 1 && v[k] == '.') {
        let m: usize = if k > lead {
            k - 1
        } else {
            lead
        };
        return bare(v, lead, m);
    }
    n
}

/// The path without its last component.
pub fn parent(path: &str) -> (r: Option<String>)
    ensures
        opt_view(r) == parent_of(path@),
{
    let v: Vec<char> = chars_of(path);
    let dot: bool = is_dotted(path);
    let lead: usize = if is_rooted(path) || dot {
        1
    } else {
        0
    };
    let n: usize = bare(&v, lead, v.len());
    if n > lead {
        let k: usize = cut(&v, lead, n);
        let m: usize = bare(
            &v,
            lead,
            if k > lead {
                k - 1
            } else {
                lead
            },
        );
        let r: String = text_of(&v, 0, m);
        assert(r@ =~= path@.take(m as int));
        return Some(r);
    }
    if dot {
        let r: String = String::new();
        assert(r@ =~= Seq::<char>::empty());
        Some(r)
    } else {
        None
    }
}

// ---------------------------------------------------------------- the way down

/// The parts with each `..` taken together with the part before it; one that leads above the root is dropped.
pub open spec fn settled(names: Seq<Seq<char>>, from_root: bool) -> Seq<Seq<char>>
    decreases names.len(),
{
    if names.len() == 0 {
        Seq::empty()
    } else {
        let done = settled(names.drop_last(), from_root);
        if names.last() != ".."@ {
            done.push(names.last())
        } else if done.len() > 0 && done.last() != ".."@ {
            done.drop_last()
        } else if from_root {
            done
        } else {
            done.push(names.last())
        }
    }
}

/// The parts of a path, cleaned: nothing in them stands for the place before it.
pub open spec fn clean_parts(path: Seq<char>) -> Seq<Seq<char>> {
    settled(named(parts_of(path, '/')), rooted(path))
}

/// The parts that lead from `base` down to `path`; none when `path` does not stand below it.
pub open spec fn way_down(base: Seq<char>, path: Seq<char>) -> Option<Seq<Seq<char>>> {
    let b = clean_parts(base);
    let p = clean_parts(path);
    if rooted(base) == rooted(path) && b.is_prefix_of(p) && p.len() > b.len() && p[b.len() as int]
        != ".."@ {
        Some(p.skip(b.len() as int))
    } else {
        None
    }
}

/// The parts of a path, cleaned.
fn cleaned(path: &str) -> (r: Vec<String>)
    ensures
        strs(r@) == clean_parts(path@),
{
    let from_root: bool = is_rooted(path);
    let parts: Vec<String> = names(path);
    let ghost all = strs(parts@);
    let mut r: Vec<String> = Vec::new();
    assert(strs(r@) =~= settled(all.take(0), from_root));
    for i in 0..parts.len()
        invariant
            all == strs(parts@),
            strs(r@) == settled(all.take(i as int), from_root),
    {
        assert(all.take(i + 1).drop_last() =~= all.take(i as int));
        assert(all.take(i + 1).last() == parts@[i as int]@);
        let ghost was = strs(r@);
        let part: &str = parts[i].as_str();
        if !same(part, "..") {
            push_text(&mut r, own(part));
        } else {
            let n: usize = r.len();
            if n > 0 {
                assert(was.last() == r@[n - 1]@);
            }
            if n > 0 && !same(r[n - 1].as_str(), "..") {
                let _ = r.pop();
                assert(strs(r@) =~= was.drop_last());
            } else if !from_root {
                push_text(&mut r, own(part));
            }
        }
    }
    assert(all.take(all.len() as int) =~= all);
    r
}

/// The parts that lead from `base` down to `path`; `None` when `path` does not stand below it.
pub fn rel_down(base: &str, path: &str) -> (r: Option<Vec<String>>)
    ensures
        match r {
            Some(parts) => way_down(base@, path@) == Some(strs(parts@)),
            None => way_down(base@, path@) is None,
        },
{
    let b: Vec<String> = cleaned(base);
    let p: Vec<String> = cleaned(path);
    if is_rooted(base) != is_rooted(path) || !leads(&b, &p) || p.len() <= b.len() {
        return None;
    }
    assert(strs(p@)[b@.len() as int] == p@[b@.len() as int]@);
    if same(p[b.len()].as_str(), "..") {
        return None;
    }
    let mut r: Vec<String> = Vec::new();
    for i in b.len()..p.len()
        invariant
            b.len() <= i <= p.len(),
            strs(r@) == strs(p@).subrange(b@.len() as int, i as int),
    {
        push_text(&mut r, p[i].clone());
        assert(strs(r@) =~= strs(p@).subrange(b@.len() as int, i + 1));
    }
    assert(strs(r@) =~= strs(p@).skip(b@.len() as int));
    Some(r)
}

} // verus!
