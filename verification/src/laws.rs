//! What the operations on texts and paths keep: splitting and joining undo each other, numbers are told by their
//! digits, and names stand in their directories.

use vstd::prelude::*;
use vstd::string::*;

use crate::app::paths::{
    bare_to, before_part, clean_parts, components_of, cut_at, is_void, lead_of, named, parent_of,
    rooted, settled, under, way_down,
};
use crate::app::{cache_of, home_of, last_named, name_in, path_join, temp_of, Platform};
use crate::text::{
    begins, decimal_of, digit_of, first_at, first_at_bounds, first_at_is, first_occurrence,
    is_white, joined, occurs_at, parts_of, trim_end, trim_start, trimmed,
};

verus! {

// ---------------------------------------------------------------- texts

proof fn start_is_trimmed(s: Seq<char>)
    ensures
        ({
            let t = trim_start(s);
            let k = s.len() - t.len();
            &&& 0 <= k
            &&& t == s.skip(k)
            &&& t.len() > 0 ==> !is_white(t[0])
            &&& forall|i: int| 0 <= i < k ==> is_white(#[trigger] s[i])
        }),
    decreases s.len(),
{
    if s.len() > 0 && is_white(s[0]) {
        start_is_trimmed(s.drop_first());
        let t = trim_start(s);
        let k = s.len() - t.len();
        assert(t =~= s.skip(k));
        assert forall|i: int| 0 <= i < k implies is_white(#[trigger] s[i]) by {
            if i > 0 {
                assert(s.drop_first()[i - 1] == s[i]);
            }
        }
    } else {
        assert(s.skip(0) =~= s);
    }
}

proof fn end_is_trimmed(s: Seq<char>)
    ensures
        ({
            let t = trim_end(s);
            &&& t.len() <= s.len()
            &&& t == s.take(t.len() as int)
            &&& t.len() > 0 ==> !is_white(t.last())
            &&& forall|i: int| t.len() <= i < s.len() ==> is_white(#[trigger] s[i])
        }),
    decreases s.len(),
{
    if s.len() > 0 && is_white(s.last()) {
        end_is_trimmed(s.drop_last());
        let t = trim_end(s);
        assert(t =~= s.take(t.len() as int));
        assert forall|i: int| t.len() <= i < s.len() implies is_white(#[trigger] s[i]) by {
            if i < s.len() - 1 {
                assert(s.drop_last()[i] == s[i]);
            }
        }
    } else {
        assert(s.take(s.len() as int) =~= s);
    }
}

/// Trimming takes away white space, from both ends, and nothing else: what is left stands in the text as it was,
/// with white space alone around it, and neither begins nor ends with any.
pub proof fn trimming_takes_white_space_alone(s: Seq<char>)
    ensures
        ({
            let t = trimmed(s);
            &&& t.len() > 0 ==> !is_white(t[0]) && !is_white(t.last())
            &&& exists|i: int|
                0 <= i && i + t.len() <= s.len() && #[trigger] s.subrange(i, i + t.len()) == t && (
                forall|k: int| 0 <= k < i ==> is_white(#[trigger] s[k])) && (forall|k: int|
                    i + t.len() <= k < s.len() ==> is_white(#[trigger] s[k]))
        }),
{
    start_is_trimmed(s);
    let a = trim_start(s);
    end_is_trimmed(a);
    let t = trimmed(s);
    let i = s.len() - a.len();
    assert(s.subrange(i, i + t.len()) =~= t);
    assert forall|k: int| i + t.len() <= k < s.len() implies is_white(#[trigger] s[k]) by {
        assert(a[k - i] == s[k]);
    }
}

/// Two texts with a separator between them split into the parts of both.
pub proof fn parts_of_both(a: Seq<char>, c: char, b: Seq<char>)
    ensures
        parts_of(a.push(c) + b, c) == parts_of(a, c) + parts_of(b, c),
    decreases a.len(),
{
    let s = a.push(c) + b;
    let k = first_at(a, c);
    first_at_bounds(a, c);
    if k >= a.len() {
        first_at_is(s, c, a.len() as int);
        assert(s.take(a.len() as int) =~= a);
        assert(s.skip(a.len() as int + 1) =~= b);
    } else {
        first_at_is(s, c, k);
        let rest = a.skip(k + 1);
        parts_of_both(rest, c, b);
        assert(s.take(k) =~= a.take(k));
        assert(s.skip(k + 1) =~= rest.push(c) + b);
        assert(seq![a.take(k)] + (parts_of(rest, c) + parts_of(b, c)) =~= (seq![a.take(k)]
            + parts_of(rest, c)) + parts_of(b, c));
    }
}

proof fn join_first(x: Seq<char>, rest: Seq<Seq<char>>, sep: Seq<char>)
    requires
        rest.len() > 0,
    ensures
        joined(seq![x] + rest, sep) == x + sep + joined(rest, sep),
    decreases rest.len(),
{
    let all = seq![x] + rest;
    if rest.len() == 1 {
        assert(all.drop_last() =~= seq![x]);
        assert(all.last() == rest[0]);
        assert(joined(seq![x], sep) == x);
        assert(joined(rest, sep) == rest[0]);
        assert(joined(all, sep) == joined(all.drop_last(), sep) + sep + all.last());
    } else {
        join_first(x, rest.drop_last(), sep);
        assert(all.drop_last() =~= seq![x] + rest.drop_last());
        assert(all.last() == rest.last());
        assert(x + sep + joined(rest.drop_last(), sep) + sep + rest.last() =~= x + sep + (joined(
            rest.drop_last(),
            sep,
        ) + sep + rest.last()));
    }
}

/// Joining what was split gives the text back, and no part has the separator in it.
pub proof fn joining_undoes_splitting(s: Seq<char>, c: char)
    ensures
        parts_of(s, c).len() > 0,
        joined(parts_of(s, c), seq![c]) == s,
        forall|i: int| 0 <= i < parts_of(s, c).len() ==> !(#[trigger] parts_of(s, c)[i]).contains(c),
    decreases s.len(),
{
    let k = first_at(s, c);
    first_at_bounds(s, c);
    if k >= s.len() {
        assert(!s.contains(c));
    } else {
        let rest = s.skip(k + 1);
        joining_undoes_splitting(rest, c);
        join_first(s.take(k), parts_of(rest, c), seq![c]);
        assert(s.take(k) + seq![c] + rest =~= s);
        assert(!s.take(k).contains(c));
        assert forall|i: int| 0 <= i < parts_of(s, c).len() implies !(
        #[trigger] parts_of(s, c)[i]).contains(c) by {
            if i > 0 {
                assert(parts_of(s, c)[i] == parts_of(rest, c)[i - 1]);
            }
        }
    }
}

/// Texts are joined in order, with the separator between each two of them.
pub proof fn joining_keeps_the_order(parts: Seq<Seq<char>>, x: Seq<char>, sep: Seq<char>)
    ensures
        joined(Seq::empty(), sep).len() == 0,
        joined(seq![x], sep) == x,
        parts.len() > 0 ==> joined(parts.push(x), sep) == joined(parts, sep) + sep + x,
{
    assert(parts.push(x).drop_last() =~= parts);
}

/// The number that some digits are.
pub open spec fn number_of(digits: Seq<char>) -> nat
    decreases digits.len(),
{
    if digits.len() == 0 {
        0
    } else {
        10 * number_of(digits.drop_last()) + (digits.last() as nat - 48) as nat
    }
}

/// A number is told by its digits: read as a decimal number they are that number again.
pub proof fn digits_tell_the_number(n: nat)
    ensures
        number_of(decimal_of(n)) == n,
        decimal_of(n).len() > 0,
    decreases n,
{
    assert(forall|d: nat| d < 10 ==> (#[trigger] digit_of(d)) as nat == d + 48);
    if n >= 10 {
        digits_tell_the_number(n / 10);
        assert(decimal_of(n).drop_last() =~= decimal_of(n / 10));
        assert(decimal_of(n).last() == digit_of(n % 10));
    } else {
        assert(decimal_of(n).drop_last() =~= Seq::<char>::empty());
        assert(number_of(decimal_of(n).drop_last()) == 0);
        assert(decimal_of(n).last() == digit_of(n));
    }
}

/// The first occurrence of a text is one, and there is none before it; there is none at all only where the text
/// does not stand anywhere.
pub proof fn first_occurrences_are_first(s: Seq<char>, p: Seq<char>, i: int)
    requires
        0 <= i,
    ensures
        first_occurrence(s, p, i) matches Some(k) ==> i <= k && occurs_at(s, p, k) && forall|j: int|
            i <= j < k ==> !#[trigger] occurs_at(s, p, j),
        first_occurrence(s, p, i) is None ==> forall|j: int| i <= j ==> !#[trigger] occurs_at(s, p, j),
    decreases s.len() + 1 - i,
{
    if i <= s.len() && !occurs_at(s, p, i) {
        first_occurrences_are_first(s, p, i + 1);
    }
}

// ---------------------------------------------------------------- paths

/// A name that is not rooted stands behind its directory and one separator; a rooted one stands alone.
pub proof fn names_stand_in_their_directory(dir: Seq<char>, name: Seq<char>)
    ensures
        dir.len() > 0 && dir.last() != '/' && (name.len() == 0 || name[0] != '/') ==> path_join(
            dir,
            name,
        ) == dir.push('/') + name,
        dir.len() > 0 && dir.last() == '/' && (name.len() == 0 || name[0] != '/') ==> path_join(
            dir,
            name,
        ) == dir + name,
        dir.len() == 0 ==> path_join(dir, name) == name,
        name.len() > 0 && name[0] == '/' ==> path_join(dir, name) == name,
{
    reveal_strlit("/");
    if name.len() > 0 {
        assert(name.subrange(0, 1)[0] == name[0]);
        if name[0] == '/' {
            assert(name.subrange(0, 1) =~= "/"@);
        }
    }
    assert(dir + "/"@ + name =~= dir.push('/') + name);
}

/// Whether a text is one plain name of a path.
pub open spec fn is_plain(name: Seq<char>) -> bool {
    name.len() > 0 && !name.contains('/') && name != "."@ && name != ".."@
}

proof fn plain_parts(name: Seq<char>)
    requires
        is_plain(name),
    ensures
        parts_of(name, '/') == seq![name],
        !is_void(name),
{
    first_at_bounds(name, '/');
    if first_at(name, '/') < name.len() {
        assert(name.contains(name[first_at(name, '/')]));
    }
}

/// The file name of a path is its last name.
pub proof fn a_file_is_named_by_its_last_name(dir: Seq<char>, name: Seq<char>)
    requires
        is_plain(name),
    ensures
        name_in(dir.push('/') + name) == Some(name),
        name_in(name) == Some(name),
{
    plain_parts(name);
    parts_of_both(dir, '/', name);
    let parts = parts_of(dir.push('/') + name, '/');
    assert(parts.last() == name);
    assert(last_named(parts, parts.len() as int) == Some(name));
    assert(last_named(parts_of(name, '/'), 1) == Some(name));
}

proof fn named_both(a: Seq<Seq<char>>, b: Seq<Seq<char>>)
    ensures
        named(a + b) == named(a) + named(b),
    decreases b.len(),
{
    if b.len() == 0 {
        assert(a + b =~= a);
        assert(named(a) + named(b) =~= named(a));
    } else {
        named_both(a, b.drop_last());
        assert((a + b).drop_last() =~= a + b.drop_last());
        assert((a + b).last() == b.last());
        assert(named(a + b) =~= named(a) + named(b));
    }
}

proof fn named_plain(dir: Seq<char>, name: Seq<char>)
    requires
        is_plain(name),
    ensures
        named(parts_of(dir.push('/') + name, '/')) == named(parts_of(dir, '/')).push(name),
{
    plain_parts(name);
    parts_of_both(dir, '/', name);
    named_both(parts_of(dir, '/'), seq![name]);
    assert(seq![name].drop_last() =~= Seq::<Seq<char>>::empty());
    assert(named(seq![name].drop_last()) =~= Seq::<Seq<char>>::empty());
    assert(named(seq![name]) =~= seq![name]);
    assert(named(parts_of(dir, '/')) + seq![name] =~= named(parts_of(dir, '/')).push(name));
}

/// What stands in a directory is under it, and has one component more.
pub proof fn a_file_is_under_its_directory(dir: Seq<char>, name: Seq<char>)
    requires
        dir.len() > 0,
        is_plain(name),
    ensures
        under(dir.push('/') + name, dir),
        components_of(dir.push('/') + name) == components_of(dir).push(name),
        under(dir, dir),
{
    let path = dir.push('/') + name;
    named_plain(dir, name);
    assert(path[0] == dir[0]);
    if dir.len() == 1 {
        assert(path[1] == '/');
    } else {
        assert(path[1] == dir[1]);
    }
    assert(components_of(path) =~= components_of(dir).push(name));
}

/// The way down from a directory to what stands in it is its name.
pub proof fn the_way_down_is_the_name(dir: Seq<char>, name: Seq<char>)
    requires
        dir.len() > 0,
        is_plain(name),
    ensures
        way_down(dir, dir.push('/') + name) == Some(seq![name]),
        way_down(dir, dir) is None,
{
    let path = dir.push('/') + name;
    named_plain(dir, name);
    assert(path[0] == dir[0]);
    let names = named(parts_of(dir, '/'));
    assert(names.push(name).drop_last() =~= names);
    assert(settled(names.push(name), rooted(dir)) == settled(names, rooted(dir)).push(name));
    let b = clean_parts(dir);
    let p = clean_parts(path);
    assert(p == b.push(name));
    assert(p.skip(b.len() as int) =~= seq![name]);
}

proof fn cut_is(path: Seq<char>, lead: int, n: int, k: int)
    requires
        0 <= lead <= k <= n <= path.len(),
        k > lead ==> path[k - 1] == '/',
        forall|j: int| k <= j < n ==> path[j] != '/',
    ensures
        cut_at(path, lead, n) == k,
    decreases n,
{
    if n > k {
        cut_is(path, lead, n - 1, k);
    }
}

proof fn cut_within(path: Seq<char>, lead: int, n: int)
    requires
        0 <= lead <= n <= path.len(),
    ensures
        lead <= cut_at(path, lead, n) <= n,
    decreases n,
{
    if n > lead && n > 0 && path[n - 1] != '/' {
        cut_within(path, lead, n - 1);
    }
}

/// The parent of what stands in a directory is that directory.
pub proof fn the_parent_is_the_directory(dir: Seq<char>, name: Seq<char>)
    requires
        dir.len() > 1,
        dir.last() != '/',
        dir.last() != '.',
        is_plain(name),
    ensures
        parent_of(dir.push('/') + name) == Some(dir),
{
    reveal_strlit(".");
    let path = dir.push('/') + name;
    let n = path.len() as int;
    let d = dir.len() as int;
    let lead = lead_of(path);
    assert(path[0] == dir[0] && path[1] == dir[1]);
    assert forall|j: int| d + 1 <= j < n implies path[j] != '/' by {
        assert(name.contains(name[j - d - 1]));
    }
    cut_is(path, lead, n, d + 1);
    if n == d + 2 && path[d + 1] == '.' {
        assert(name =~= "."@);
    }
    assert(bare_to(path, lead, n) == n);
    assert(before_part(lead, d + 1) == d);
    assert(path[d - 1] == dir.last());
    cut_within(path, lead, d);
    let k = cut_at(path, lead, d);
    assert(k <= d - 1) by {
        if lead < d {
            cut_within(path, lead, d - 1);
        }
    }
    assert(bare_to(path, lead, d) == d);
    assert(path.take(d) =~= dir);
}

// ---------------------------------------------------------------- directories

/// A home that is empty is none.
pub proof fn an_empty_home_is_none(var: Option<Seq<char>>)
    ensures
        var matches Some(v) ==> (v.len() > 0 ==> home_of(var) == Some(v)),
        var matches Some(v) ==> (v.len() == 0 ==> home_of(var) is None),
        var is None ==> home_of(var) is None,
{
}

/// Caches stand in the home's own place for them: on a Mac in its library; on other systems where the variable
/// says, if it is rooted, and else in the home.
pub proof fn caches_stand_at_home(home: Seq<char>, xdg: Option<Seq<char>>)
    requires
        home.len() > 0,
        home.last() != '/',
    ensures
        cache_of(Platform::MacOs, Some(home), xdg) == Some(home + "/Library/Caches"@),
        xdg is None || xdg->0.len() == 0 || xdg->0[0] != '/' ==> cache_of(
            Platform::Unix,
            Some(home),
            xdg,
        ) == Some(home + "/.cache"@),
        xdg is Some && xdg->0.len() > 0 && xdg->0[0] == '/' ==> cache_of(
            Platform::Unix,
            Some(home),
            xdg,
        ) == xdg,
        cache_of(Platform::Other, Some(home), xdg) is None,
        temp_of(Platform::Unix, Some(home), home) == home,
        temp_of(Platform::Unix, None, home) == "/tmp"@,
        temp_of(Platform::Other, Some(home), xdg->0) == xdg->0,
{
    reveal_strlit("/");
    reveal_strlit("Library");
    reveal_strlit("Caches");
    reveal_strlit(".cache");
    reveal_strlit("/Library/Caches");
    reveal_strlit("/.cache");
    names_stand_in_their_directory(home, "Library"@);
    let lib = home.push('/') + "Library"@;
    assert(lib.last() == 'y');
    names_stand_in_their_directory(lib, "Caches"@);
    assert(lib.push('/') + "Caches"@ =~= home + "/Library/Caches"@);
    names_stand_in_their_directory(home, ".cache"@);
    assert(home.push('/') + ".cache"@ =~= home + "/.cache"@);
    if xdg is Some && xdg->0.len() > 0 {
        let x = xdg->0;
        assert(x.subrange(0, 1)[0] == x[0]);
        if x[0] == '/' {
            assert(x.subrange(0, 1) =~= "/"@);
        }
    }
}

} // verus!
