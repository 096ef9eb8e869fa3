//! A map with text keys, kept in key order.

use vstd::prelude::*;

use crate::text::{before, same, text_lt, text_lt_total, text_lt_transitive};

verus! {

/// The entries of a list, a later one replacing an earlier one of the same key.
pub open spec fn map_of<T>(pairs: Seq<(Seq<char>, T)>) -> Map<Seq<char>, T>
    decreases pairs.len(),
{
    if pairs.len() == 0 {
        Map::empty()
    } else {
        map_of(pairs.drop_last()).insert(pairs.last().0, pairs.last().1)
    }
}

/// Whether the keys rise from each entry to the next.
pub open spec fn rising<T>(pairs: Seq<(Seq<char>, T)>) -> bool {
    forall|i: int, j: int|
        0 <= i < j < pairs.len() ==> text_lt(#[trigger] pairs[i].0, #[trigger] pairs[j].0)
}

/// With rising keys the map holds each entry of the list, and no other.
pub proof fn map_of_rising<T>(pairs: Seq<(Seq<char>, T)>)
    requires
        rising(pairs),
    ensures
        forall|i: int|
            0 <= i < pairs.len() ==> map_of(pairs).contains_key(#[trigger] pairs[i].0) && map_of(
                pairs,
            )[pairs[i].0] == pairs[i].1,
        forall|k: Seq<char>| #[trigger]
            map_of(pairs).contains_key(k) ==> exists|i: int|
                0 <= i < pairs.len() && #[trigger] pairs[i].0 == k,
    decreases pairs.len(),
{
    if pairs.len() > 0 {
        let init = pairs.drop_last();
        map_of_rising(init);
        assert forall|i: int| 0 <= i < pairs.len() implies map_of(pairs).contains_key(
            #[trigger] pairs[i].0,
        ) && map_of(pairs)[pairs[i].0] == pairs[i].1 by {
            if i < init.len() {
                assert(init[i] == pairs[i]);
                text_lt_total(pairs[i].0, pairs.last().0);
            }
        }
        assert forall|k: Seq<char>| #[trigger] map_of(pairs).contains_key(k) implies exists|i: int|
            0 <= i < pairs.len() && #[trigger] pairs[i].0 == k by {
            if k == pairs.last().0 {
                assert(pairs[pairs.len() - 1].0 == k);
            } else {
                assert(map_of(init).contains_key(k));
                let i = choose|i: int| 0 <= i < init.len() && #[trigger] init[i].0 == k;
                assert(pairs[i].0 == k);
            }
        }
    }
}

/// With rising keys the list is determined by its map.
pub proof fn rising_is_canonical<T>(a: Seq<(Seq<char>, T)>, b: Seq<(Seq<char>, T)>)
    requires
        rising(a),
        rising(b),
        map_of(a) == map_of(b),
    ensures
        a == b,
    decreases a.len(),
{
    map_of_rising(a);
    map_of_rising(b);
    if a.len() == 0 {
        if b.len() > 0 {
            assert(map_of(b).contains_key(b[0].0));
        }
        assert(a =~= b);
    } else {
        assert(map_of(a).contains_key(a.last().0));
        let j = choose|j: int| 0 <= j < b.len() && #[trigger] b[j].0 == a.last().0;
        assert(map_of(b).contains_key(b.last().0));
        let i = choose|i: int| 0 <= i < a.len() && #[trigger] a[i].0 == b.last().0;
        if j < b.len() - 1 {
            text_lt_total(a.last().0, b.last().0);
            if i < a.len() - 1 {
                assert(text_lt(a[i].0, a[a.len() - 1].0));
            }
            assert(text_lt(b[j].0, b[b.len() - 1].0));
            assert(false);
        }
        assert(a.last() == b.last());
        let x = a.drop_last();
        let y = b.drop_last();
        assert(rising(x)) by {
            assert forall|p: int, q: int| 0 <= p < q < x.len() implies text_lt(
                #[trigger] x[p].0,
                #[trigger] x[q].0,
            ) by {
                assert(text_lt(a[p].0, a[q].0));
            }
        }
        assert(rising(y)) by {
            assert forall|p: int, q: int| 0 <= p < q < y.len() implies text_lt(
                #[trigger] y[p].0,
                #[trigger] y[q].0,
            ) by {
                assert(text_lt(b[p].0, b[q].0));
            }
        }
        map_of_rising(x);
        map_of_rising(y);
        let last = a.last().0;
        assert(!map_of(x).contains_key(last)) by {
            if map_of(x).contains_key(last) {
                let p = choose|p: int| 0 <= p < x.len() && #[trigger] x[p].0 == last;
                assert(text_lt(a[p].0, a[a.len() - 1].0));
                text_lt_total(last, last);
            }
        }
        assert(!map_of(y).contains_key(last)) by {
            if map_of(y).contains_key(last) {
                let p = choose|p: int| 0 <= p < y.len() && #[trigger] y[p].0 == last;
                assert(text_lt(b[p].0, b[b.len() - 1].0));
                text_lt_total(last, last);
            }
        }
        assert(map_of(x) =~= map_of(a).remove(last));
        assert(map_of(y) =~= map_of(b).remove(last));
        rising_is_canonical(x, y);
        assert(a =~= x.push(a.last()));
        assert(b =~= y.push(b.last()));
    }
}

/// A list with `entry` at `i`: in place of the entry there when `found`, before it otherwise.
spec fn placed<T>(was: Seq<(Seq<char>, T)>, i: int, found: bool, entry: (Seq<char>, T)) -> Seq<
    (Seq<char>, T),
> {
    if found {
        was.update(i, entry)
    } else {
        was.insert(i, entry)
    }
}

/// Where an entry belongs: after the smaller keys, before the greater ones.
spec fn fits<T>(was: Seq<(Seq<char>, T)>, i: int, found: bool, key: Seq<char>) -> bool {
    &&& 0 <= i <= was.len()
    &&& forall|j: int| 0 <= j < i ==> text_lt(#[trigger] was[j].0, key)
    &&& found ==> i < was.len() && was[i].0 == key
    &&& !found ==> forall|j: int| i <= j < was.len() ==> text_lt(key, #[trigger] was[j].0)
}

/// Keys still rise with an entry placed where it belongs.
proof fn placed_rises<T>(
    was: Seq<(Seq<char>, T)>,
    i: int,
    found: bool,
    entry: (Seq<char>, T),
)
    requires
        rising(was),
        fits(was, i, found, entry.0),
    ensures
        rising(placed(was, i, found, entry)),
{
    let all = placed(was, i, found, entry);
    let off: int = if found {
        0
    } else {
        1
    };
    assert forall|p: int, q: int| 0 <= p < q < all.len() implies text_lt(
        #[trigger] all[p].0,
        #[trigger] all[q].0,
    ) by {
        if p < i && q > i {
            assert(text_lt(was[p].0, was[q - off].0));
        } else if q < i {
            assert(text_lt(was[p].0, was[q].0));
        } else if p > i {
            assert(text_lt(was[p - off].0, was[q - off].0));
        } else if p == i {
            if found {
                assert(text_lt(was[p].0, was[q].0));
            } else {
                assert(text_lt(entry.0, was[q - 1].0));
            }
        }
    }
}

/// The map of a list with an entry placed where it belongs.
proof fn placed_inserts<T>(
    was: Seq<(Seq<char>, T)>,
    i: int,
    found: bool,
    entry: (Seq<char>, T),
)
    requires
        rising(was),
        fits(was, i, found, entry.0),
    ensures
        map_of(placed(was, i, found, entry)) == map_of(was).insert(entry.0, entry.1),
{
    let all = placed(was, i, found, entry);
    placed_rises(was, i, found, entry);
    map_of_rising(was);
    map_of_rising(all);
    let key = entry.0;
    let want = map_of(was).insert(key, entry.1);
    let off: int = if found {
        0
    } else {
        1
    };
    assert forall|x: Seq<char>| map_of(all).contains_key(x) implies want.contains_key(x) && map_of(
        all,
    )[x] == want[x] by {
        let p = choose|p: int| 0 <= p < all.len() && #[trigger] all[p].0 == x;
        text_lt_total(key, key);
        if p < i {
            assert(was[p] == all[p]);
        } else if p > i {
            assert(was[p - off] == all[p]);
            if !found {
                assert(text_lt(key, was[p - 1].0));
            } else {
                assert(text_lt(was[i].0, was[p].0));
            }
        }
    }
    assert forall|x: Seq<char>| want.contains_key(x) implies map_of(all).contains_key(x) by {
        if x == key {
            assert(all[i].0 == x);
        } else {
            let p = choose|p: int| 0 <= p < was.len() && #[trigger] was[p].0 == x;
            let q: int = if found || p < i {
                p
            } else {
                p + 1
            };
            assert(all[q].0 == x);
        }
    }
    assert(map_of(all) =~= want);
}

/// The map of a list without one of its entries.
proof fn dropped_removes<T>(was: Seq<(Seq<char>, T)>, i: int)
    requires
        rising(was),
        0 <= i < was.len(),
    ensures
        rising(was.remove(i)),
        map_of(was.remove(i)) == map_of(was).remove(was[i].0),
{
    let all = was.remove(i);
    let key = was[i].0;
    assert forall|p: int, q: int| 0 <= p < q < all.len() implies text_lt(
        #[trigger] all[p].0,
        #[trigger] all[q].0,
    ) by {
        let a: int = if p < i {
            p
        } else {
            p + 1
        };
        let b: int = if q < i {
            q
        } else {
            q + 1
        };
        assert(text_lt(was[a].0, was[b].0));
    }
    map_of_rising(was);
    map_of_rising(all);
    let want = map_of(was).remove(key);
    text_lt_total(key, key);
    assert forall|x: Seq<char>| #[trigger] map_of(all).contains_key(x) implies want.contains_key(x)
        && map_of(all)[x] == want[x] by {
        let p = choose|p: int| 0 <= p < all.len() && #[trigger] all[p].0 == x;
        let q: int = if p < i {
            p
        } else {
            p + 1
        };
        assert(was[q] == all[p]);
        assert(map_of(was).contains_key(was[q].0));
        if p < i {
            assert(text_lt(was[q].0, was[i].0));
        } else {
            assert(text_lt(was[i].0, was[q].0));
        }
    }
    assert forall|x: Seq<char>| #[trigger] want.contains_key(x) implies map_of(
        all,
    ).contains_key(x) by {
        assert(map_of(was).contains_key(x));
        let p = choose|p: int| 0 <= p < was.len() && #[trigger] was[p].0 == x;
        let q: int = if p < i {
            p
        } else {
            p - 1
        };
        assert(all[q] == was[p]);
        assert(map_of(all).contains_key(all[q].0));
    }
    assert(map_of(all).dom() =~= want.dom());
    assert(map_of(all) =~= want);
}

/// The list with rising keys whose map is `m`.
pub open spec fn pairs_of<T>(m: Map<Seq<char>, T>) -> Seq<(Seq<char>, T)> {
    choose|s: Seq<(Seq<char>, T)>| rising(s) && map_of(s) == m
}

/// A list with rising keys is the list of its map.
pub proof fn pairs_of_map<T>(s: Seq<(Seq<char>, T)>)
    requires
        rising(s),
    ensures
        pairs_of(map_of(s)) == s,
{
    rising_is_canonical(pairs_of(map_of(s)), s);
}

/// Where a key belongs in a list with rising keys.
proof fn place_exists<T>(s: Seq<(Seq<char>, T)>, key: Seq<char>) -> (r: (int, bool))
    requires
        rising(s),
    ensures
        fits(s, r.0, r.1, key),
    decreases s.len(),
{
    if s.len() == 0 {
        (0, false)
    } else {
        let init = s.drop_last();
        let last = s.last().0;
        text_lt_total(last, key);
        if last == key {
            (s.len() - 1, true)
        } else if text_lt(last, key) {
            assert forall|j: int| 0 <= j < s.len() implies text_lt(#[trigger] s[j].0, key) by {
                if j < s.len() - 1 {
                    assert(text_lt(s[j].0, s[s.len() - 1].0));
                    text_lt_transitive(s[j].0, last, key);
                }
            }
            (s.len() as int, false)
        } else {
            let (i, found) = place_exists(init, key);
            assert forall|j: int| 0 <= j < i implies text_lt(#[trigger] s[j].0, key) by {
                assert(init[j] == s[j]);
            }
            if !found {
                assert forall|j: int| i <= j < s.len() implies text_lt(key, #[trigger] s[j].0) by {
                    if j < s.len() - 1 {
                        assert(init[j] == s[j]);
                    }
                }
            }
            (i, found)
        }
    }
}

/// Every list has one with rising keys and the same map.
proof fn sorted_exists<T>(s: Seq<(Seq<char>, T)>) -> (r: Seq<(Seq<char>, T)>)
    ensures
        rising(r),
        map_of(r) == map_of(s),
    decreases s.len(),
{
    if s.len() == 0 {
        s
    } else {
        let init = sorted_exists(s.drop_last());
        let (i, found) = place_exists(init, s.last().0);
        placed_rises(init, i, found, s.last());
        placed_inserts(init, i, found, s.last());
        placed(init, i, found, s.last())
    }
}

/// The list with rising keys of a map has that map.
pub proof fn pairs_have_the_map<T>(s: Seq<(Seq<char>, T)>)
    ensures
        rising(pairs_of(map_of(s))),
        map_of(pairs_of(map_of(s))) == map_of(s),
{
    let r = sorted_exists(s);
    assert(rising(r) && map_of(r) == map_of(s));
}

/// Values that can be copied without a change of what they say.
pub trait Duplicate: View + Sized {
    /// A copy.
    fn duplicate(&self) -> (r: Self)
        ensures
            r@ == self@,
    ;
}

impl Duplicate for String {
    fn duplicate(&self) -> (r: Self) {
        self.clone()
    }
}

/// The views of a list of values.
pub open spec fn views<T: View>(v: Seq<T>) -> Seq<T::V> {
    Seq::new(v.len(), |i: int| v[i]@)
}

/// A copy of a list of values.
pub fn copy_all<T: Duplicate>(v: &Vec<T>) -> (r: Vec<T>)
    ensures
        views(r@) == views(v@),
{
    let mut r: Vec<T> = Vec::new();
    for i in 0..v.len()
        invariant
            r@.len() == i,
            forall|k: int| 0 <= k < i ==> (#[trigger] r@[k])@ == v@[k]@,
    {
        r.push(v[i].duplicate());
    }
    assert(views(r@) =~= views(v@));
    r
}

/// A map from texts to values; its entries are kept, and visited, in key order.
pub struct StrMap<V: View> {
    entries: Vec<(String, V)>,
}

impl<V: View> View for StrMap<V> {
    type V = Map<Seq<char>, V::V>;

    open spec fn view(&self) -> Map<Seq<char>, V::V> {
        map_of(self.pairs())
    }
}

impl<V: View> StrMap<V> {
    /// The entries in key order.
    pub closed spec fn pairs(&self) -> Seq<(Seq<char>, V::V)> {
        Seq::new(self.entries@.len(), |i: int| (self.entries@[i].0@, self.entries@[i].1@))
    }

    #[verifier::type_invariant]
    closed spec fn inv(&self) -> bool {
        rising(self.pairs())
    }

    /// The empty map.
    pub fn new() -> (r: Self)
        ensures
            r.pairs() == Seq::<(Seq<char>, V::V)>::empty(),
            r@ == Map::<Seq<char>, V::V>::empty(),
    {
        let r = StrMap { entries: Vec::new() };
        assert(r.pairs() =~= Seq::<(Seq<char>, V::V)>::empty());
        r
    }

    /// How many entries there are; their keys rise, and the map determines them.
    pub fn len(&self) -> (n: usize)
        ensures
            n == self.pairs().len(),
            rising(self.pairs()),
            self.pairs() == pairs_of(self@),
    {
        proof {
            use_type_invariant(self);
            pairs_of_map(self.pairs());
        }
        self.entries.len()
    }

    /// The key of the entry at `i`.
    pub fn key_at(&self, i: usize) -> (r: &String)
        requires
            i < self.pairs().len(),
        ensures
            r@ == self.pairs()[i as int].0,
    {
        &self.entries[i].0
    }

    /// The value of the entry at `i`.
    pub fn value_at(&self, i: usize) -> (r: &V)
        requires
            i < self.pairs().len(),
        ensures
            r@ == self.pairs()[i as int].1,
    {
        &self.entries[i].1
    }

    /// Where `k` stands, or where it would stand.
    fn place(&self, k: &str) -> (r: (usize, bool))
        ensures
            fits(self.pairs(), r.0 as int, r.1, k@),
    {
        proof {
            use_type_invariant(self);
        }
        let mut i: usize = 0;
        while i < self.entries.len() && before(self.entries[i].0.as_str(), k)
            invariant
                i <= self.entries.len(),
                forall|j: int| 0 <= j < i ==> text_lt(#[trigger] self.pairs()[j].0, k@),
            ensures
                i <= self.entries.len(),
                forall|j: int| 0 <= j < i ==> text_lt(#[trigger] self.pairs()[j].0, k@),
                i < self.entries.len() ==> !text_lt(self.pairs()[i as int].0, k@),
            decreases self.entries.len() - i,
        {
            i += 1;
        }
        let found = i < self.entries.len() && same(self.entries[i].0.as_str(), k);
        proof {
            if !found {
                assert forall|j: int| i <= j < self.pairs().len() implies text_lt(
                    k@,
                    #[trigger] self.pairs()[j].0,
                ) by {
                    text_lt_total(self.pairs()[i as int].0, k@);
                    if i < j {
                        text_lt_transitive(k@, self.pairs()[i as int].0, self.pairs()[j].0);
                    }
                }
            }
        }
        (i, found)
    }

    /// The value of `k`.
    pub fn get(&self, k: &str) -> (r: Option<&V>)
        ensures
            match r {
                Some(v) => self@.contains_key(k@) && v@ == self@[k@],
                None => !self@.contains_key(k@),
            },
    {
        let (i, found) = self.place(k);
        proof {
            use_type_invariant(self);
            map_of_rising(self.pairs());
            if !found && self@.contains_key(k@) {
                let j = choose|j: int|
                    0 <= j < self.pairs().len() && #[trigger] self.pairs()[j].0 == k@;
                text_lt_total(k@, k@);
            }
        }
        if found {
            Some(&self.entries[i].1)
        } else {
            None
        }
    }

    /// Whether there is an entry of `k`.
    pub fn contains_key(&self, k: &str) -> (r: bool)
        ensures
            r == self@.contains_key(k@),
    {
        self.get(k).is_some()
    }

    /// Makes `v` the value of `k`.
    pub fn insert(&mut self, k: String, v: V)
        ensures
            final(self)@ == old(self)@.insert(k@, v@),
    {
        let (i, found) = self.place(k.as_str());
        let ghost was = self.pairs();
        let ghost all = placed(was, i as int, found, (k@, v@));
        proof {
            use_type_invariant(&*self);
            placed_rises(was, i as int, found, (k@, v@));
            placed_inserts(was, i as int, found, (k@, v@));
        }
        let mut entries: Vec<(String, V)> = Vec::new();
        std::mem::swap(&mut entries, &mut self.entries);
        if found {
            entries.remove(i);
        }
        entries.insert(i, (k, v));
        assert forall|p: int, q: int| 0 <= p < q < entries@.len() implies text_lt(
            #[trigger] entries@[p].0@,
            #[trigger] entries@[q].0@,
        ) by {
            assert(all[p].0 == entries@[p].0@);
            assert(all[q].0 == entries@[q].0@);
        }
        self.entries = entries;
        assert(self.pairs() =~= all);
    }
}

impl<V: View> StrMap<V> {
    /// Takes the entry of `k` out.
    pub fn remove(&mut self, k: &str) -> (r: Option<V>)
        ensures
            final(self)@ == old(self)@.remove(k@),
            match r {
                Some(v) => old(self)@.contains_key(k@) && v@ == old(self)@[k@],
                None => !old(self)@.contains_key(k@),
            },
    {
        let (i, found) = self.place(k);
        let ghost was = self.pairs();
        proof {
            use_type_invariant(&*self);
            map_of_rising(was);
        }
        if !found {
            proof {
                if self@.contains_key(k@) {
                    let j = choose|j: int| 0 <= j < was.len() && #[trigger] was[j].0 == k@;
                    text_lt_total(k@, k@);
                }
                assert(self@.remove(k@) =~= self@);
            }
            return None;
        }
        proof {
            dropped_removes(was, i as int);
            assert(was[i as int].0 == k@);
        }
        let ghost all = was.remove(i as int);
        let mut entries: Vec<(String, V)> = Vec::new();
        std::mem::swap(&mut entries, &mut self.entries);
        let (_, v) = entries.remove(i);
        assert forall|p: int, q: int| 0 <= p < q < entries@.len() implies text_lt(
            #[trigger] entries@[p].0@,
            #[trigger] entries@[q].0@,
        ) by {
            assert(all[p].0 == entries@[p].0@);
            assert(all[q].0 == entries@[q].0@);
        }
        self.entries = entries;
        assert(self.pairs() =~= all);
        Some(v)
    }
}

impl<V: Duplicate> Duplicate for StrMap<V> {
    fn duplicate(&self) -> (r: StrMap<V>) {
        let mut entries: Vec<(String, V)> = Vec::new();
        proof {
            use_type_invariant(self);
        }
        for i in 0..self.entries.len()
            invariant
                entries@.len() == i,
                forall|k: int|
                    0 <= k < i ==> (#[trigger] entries@[k]).0@ == self.entries@[k].0@
                        && entries@[k].1@ == self.entries@[k].1@,
        {
            entries.push((self.entries[i].0.clone(), self.entries[i].1.duplicate()));
        }
        assert forall|p: int, q: int| 0 <= p < q < entries@.len() implies text_lt(
            #[trigger] entries@[p].0@,
            #[trigger] entries@[q].0@,
        ) by {
            assert(text_lt(self.pairs()[p].0, self.pairs()[q].0));
        }
        let r = StrMap { entries };
        assert(r.pairs() =~= self.pairs());
        r
    }
}

} // verus!
