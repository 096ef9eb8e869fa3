//! The size of a text in bytes of UTF-8, and cutting one to a size.

use vstd::prelude::*;
use vstd::utf8::*;

use crate::text::{chars_of, text_of};

verus! {

/// The bytes one character takes.
pub open spec fn width(c: char) -> nat {
    if c <= '\u{7f}' {
        1
    } else if c <= '\u{7ff}' {
        2
    } else if c <= '\u{ffff}' {
        3
    } else {
        4
    }
}

/// The bytes a text takes.
pub open spec fn bytes_in(s: Seq<char>) -> nat
    decreases s.len(),
{
    if s.len() == 0 {
        0
    } else {
        bytes_in(s.drop_last()) + width(s.last())
    }
}

/// The longest part from the start of `s` that takes no more than `cap` bytes.
pub open spec fn fitting(s: Seq<char>, cap: nat) -> Seq<char>
    decreases s.len(),
{
    if s.len() == 0 || bytes_in(s) <= cap {
        s
    } else {
        fitting(s.drop_last(), cap)
    }
}

/// The bytes of two texts in a row.
pub proof fn bytes_add(a: Seq<char>, b: Seq<char>)
    ensures
        bytes_in(a + b) == bytes_in(a) + bytes_in(b),
    decreases b.len(),
{
    if b.len() == 0 {
        assert(a + b =~= a);
    } else {
        assert((a + b).drop_last() =~= a + b.drop_last());
        bytes_add(a, b.drop_last());
    }
}

/// The size of one character.
proof fn one_char(c: char)
    ensures
        bytes_in(seq![c]) == width(c),
        encode_scalar(c as u32).len() == width(c),
{
    let one = seq![c];
    assert(one.drop_last() =~= Seq::<char>::empty());
    assert(one.last() == c);
    assert(bytes_in(one.drop_last()) == 0);
    assert(bytes_in(one) == bytes_in(one.drop_last()) + width(one.last()));
    char_is_scalar(c);
    let u = c as u32;
    if has_width_1_encoding(u) {
        assert(width(c) == 1);
    } else if has_width_2_encoding(u) {
        assert(width(c) == 2);
    } else if has_width_3_encoding(u) {
        assert(width(c) == 3);
    } else {
        assert(width(c) == 4);
    }
}

/// The size of a text is the length of its encoding.
pub proof fn bytes_are_encoded(s: Seq<char>)
    ensures
        encode_utf8(s).len() == bytes_in(s),
    decreases s.len(),
{
    if s.len() > 0 {
        let c = s[0];
        let rest = s.drop_first();
        bytes_are_encoded(rest);
        assert(s =~= seq![c] + rest);
        bytes_add(seq![c], rest);
        one_char(c);
    }
}

/// A shorter text takes no more bytes.
proof fn bytes_grow(s: Seq<char>, k: int)
    requires
        0 <= k <= s.len(),
    ensures
        bytes_in(s.take(k)) <= bytes_in(s),
        bytes_in(s.take(k)) + (s.len() - k) <= bytes_in(s),
{
    assert(s =~= s.take(k) + s.skip(k));
    bytes_add(s.take(k), s.skip(k));
    bytes_at_least(s.skip(k));
}

/// A text takes at most four bytes a character.
pub proof fn bytes_at_most(s: Seq<char>)
    ensures
        bytes_in(s) <= 4 * s.len(),
    decreases s.len(),
{
    if s.len() > 0 {
        bytes_at_most(s.drop_last());
    }
}

proof fn bytes_at_least(s: Seq<char>)
    ensures
        s.len() <= bytes_in(s),
    decreases s.len(),
{
    if s.len() > 0 {
        bytes_at_least(s.drop_last());
    }
}

/// A text of ASCII takes one byte a character.
pub proof fn bytes_of_ascii(s: Seq<char>)
    requires
        forall|i: int| 0 <= i < s.len() ==> (#[trigger] s[i]) <= '\u{7f}',
    ensures
        bytes_in(s) == s.len(),
    decreases s.len(),
{
    if s.len() > 0 {
        let t = s.drop_last();
        assert forall|i: int| 0 <= i < t.len() implies (#[trigger] t[i]) <= '\u{7f}' by {
            assert(t[i] == s[i]);
        }
        bytes_of_ascii(t);
    }
}

/// The cut of a text fits, and is a part of it.
pub proof fn fitting_fits(s: Seq<char>, cap: nat)
    ensures
        bytes_in(fitting(s, cap)) <= cap,
        fitting(s, cap).len() <= s.len(),
        fitting(s, cap) == s.take(fitting(s, cap).len() as int),
    decreases s.len(),
{
    if s.len() == 0 || bytes_in(s) <= cap {
        assert(s.take(s.len() as int) =~= s);
    } else {
        let t = s.drop_last();
        fitting_fits(t, cap);
        assert(t.take(fitting(t, cap).len() as int) =~= s.take(fitting(t, cap).len() as int));
    }
}

/// The cut ends where the next character would no longer fit.
proof fn fitting_is(s: Seq<char>, cap: nat, k: int)
    requires
        0 <= k <= s.len(),
        bytes_in(s.take(k)) <= cap,
        k < s.len() ==> bytes_in(s.take(k + 1)) > cap,
    ensures
        fitting(s, cap) == s.take(k),
    decreases s.len(),
{
    if k == s.len() {
        assert(s.take(k) =~= s);
    } else {
        bytes_grow(s, k + 1);
        let t = s.drop_last();
        assert(t.take(k) =~= s.take(k));
        if k < t.len() {
            assert(t.take(k + 1) =~= s.take(k + 1));
        }
        fitting_is(t, cap, k);
    }
}

/// The bytes one character takes.
fn char_width(c: char) -> (r: usize)
    ensures
        r == width(c),
{
    if c <= '\u{7f}' {
        1
    } else if c <= '\u{7ff}' {
        2
    } else if c <= '\u{ffff}' {
        3
    } else {
        4
    }
}

/// The bytes a text takes, when they are no more than `cap`.
pub fn size_within(s: &str, cap: usize) -> (r: Option<usize>)
    requires
        cap <= 0x7fff_ffff,
    ensures
        match r {
            Some(n) => n == bytes_in(s@) && n <= cap,
            None => bytes_in(s@) > cap,
        },
{
    let v: Vec<char> = chars_of(s);
    let mut n: usize = 0;
    for i in 0..v.len()
        invariant
            v@ == s@,
            cap <= 0x7fff_ffff,
            n == bytes_in(v@.take(i as int)),
            n <= cap,
    {
        assert(v@.take(i + 1).drop_last() =~= v@.take(i as int));
        n += char_width(v[i]);
        if n > cap {
            proof {
                bytes_grow(s@, i + 1);
            }
            return None;
        }
    }
    assert(v@.take(v@.len() as int) =~= s@);
    Some(n)
}

/// The longest part from the start of `s` that takes no more than `cap` bytes.
pub fn cut(s: &str, cap: usize) -> (r: String)
    requires
        cap <= 0x7fff_ffff,
    ensures
        r@ == fitting(s@, cap as nat),
{
    let v: Vec<char> = chars_of(s);
    let mut n: usize = 0;
    let mut i: usize = 0;
    while i < v.len()
        invariant
            i <= v.len(),
            v@ == s@,
            cap <= 0x7fff_ffff,
            n == bytes_in(v@.take(i as int)),
            n <= cap,
        ensures
            i <= v.len(),
            bytes_in(v@.take(i as int)) <= cap,
            i < v.len() ==> bytes_in(v@.take(i + 1)) > cap,
        decreases v.len() - i,
    {
        assert(v@.take(i + 1).drop_last() =~= v@.take(i as int));
        let w: usize = char_width(v[i]);
        if n + w > cap {
            break;
        }
        n += w;
        i += 1;
    }
    proof {
        fitting_is(s@, cap as nat, i as int);
    }
    let r: String = text_of(&v, 0, i);
    assert(r@ =~= s@.take(i as int));
    r
}

} // verus!
