//! The name of the temporary file that a file is written to before it takes its place.

use vstd::prelude::*;
use vstd::string::*;

use rand::RngCore;

use crate::app::{file_name, name_in};
use crate::text::{decimal, decimal_of, own};

verus! {

/// `rand::rng` and `RngCore::next_u32`: any number. Nothing is said of it, because it is a different one each
/// time.
#[verifier::external_body]
fn nonce() -> (r: u32) {
    rand::rng().next_u32()
}

/// The hexadecimal digit of a number below sixteen.
pub open spec fn hex_char(d: nat) -> char {
    "0123456789abcdef"@[d as int]
}

/// The last `k` hexadecimal digits of a number.
pub open spec fn hex_of(n: nat, k: nat) -> Seq<char>
    decreases k,
{
    if k == 0 {
        Seq::empty()
    } else {
        hex_of(n / 16, (k - 1) as nat).push(hex_char(n % 16))
    }
}

/// The hexadecimal digit of a number below sixteen.
fn hex_digit(d: u32) -> (r: char)
    requires
        d < 16,
    ensures
        r == hex_char(d as nat),
{
    proof {
        reveal_strlit("0123456789abcdef");
    }
    "0123456789abcdef".get_char(d as usize)
}

/// The last `k` hexadecimal digits of a number.
fn hex(n: u32, k: u32) -> (r: String)
    ensures
        r@ == hex_of(n as nat, k as nat),
    decreases k,
{
    if k == 0 {
        let r: String = String::new();
        assert(r@ =~= Seq::empty());
        return r;
    }
    let mut r: String = hex(n / 16, k - 1);
    r.push(hex_digit(n % 16));
    r
}

/// `.<name>.<pid>.<nonce>.tmp`: hidden, and unique per process and per call.
pub open spec fn temp_text(name: Seq<char>, pid: nat, nonce: nat) -> Seq<char> {
    "."@ + name + "."@ + decimal_of(pid) + "."@ + hex_of(nonce, 8) + ".tmp"@
}

/// The file name of a path; empty when it has none.
pub open spec fn name_or_empty(path: Seq<char>) -> Seq<char> {
    match name_in(path) {
        Some(n) => n,
        None => Seq::empty(),
    }
}

/// The name of a temporary file beside `path`, for a given nonce.
pub fn temp_name_with(path: &str, pid: u32, nonce: u32) -> (r: String)
    ensures
        r@ == temp_text(name_or_empty(path@), pid as nat, nonce as nat),
{
    let name: String = match file_name(path) {
        Some(n) => n,
        None => String::new(),
    };
    assert(name@ =~= name_or_empty(path@));
    let mut r: String = own(".");
    r.append(name.as_str());
    r.append(".");
    r.append(decimal(pid as u64).as_str());
    r.append(".");
    r.append(hex(nonce, 8).as_str());
    r.append(".tmp");
    r
}

/// The name of a fresh temporary file beside `path`.
pub fn temp_name(path: &str, pid: u32) -> (r: String)
    ensures
        exists|nonce: u32|
            r@ == #[trigger] temp_text(name_or_empty(path@), pid as nat, nonce as nat),
{
    temp_name_with(path, pid, nonce())
}

/// Two nonces give two names.
pub proof fn temp_names_differ(name: Seq<char>, pid: nat, a: u32, b: u32)
    requires
        a != b,
    ensures
        temp_text(name, pid, a as nat) != temp_text(name, pid, b as nat),
{
    let ha = hex_of(a as nat, 8);
    let hb = hex_of(b as nat, 8);
    hex_is_short(a as nat, 8);
    hex_is_short(b as nat, 8);
    let lead = "."@ + name + "."@ + decimal_of(pid) + "."@;
    let ta = temp_text(name, pid, a as nat);
    let tb = temp_text(name, pid, b as nat);
    assert(ta.subrange(lead.len() as int, (lead.len() + 8) as int) =~= ha);
    assert(tb.subrange(lead.len() as int, (lead.len() + 8) as int) =~= hb);
    if ta == tb {
        assert(pow16(8) == 0x1_0000_0000) by {
            reveal_with_fuel(pow16, 9);
        }
        hex_is_exact(a as nat, b as nat, 8);
    }
}

/// Sixteen to the power of `k`.
pub open spec fn pow16(k: nat) -> nat
    decreases k,
{
    if k == 0 {
        1
    } else {
        16 * pow16((k - 1) as nat)
    }
}

/// The last `k` digits are `k` characters.
proof fn hex_is_short(n: nat, k: nat)
    ensures
        hex_of(n, k).len() == k,
    decreases k,
{
    if k > 0 {
        hex_is_short(n / 16, (k - 1) as nat);
    }
}

/// Numbers that fit in `k` digits are told apart by them.
proof fn hex_is_exact(a: nat, b: nat, k: nat)
    requires
        a < pow16(k),
        b < pow16(k),
        hex_of(a, k) == hex_of(b, k),
    ensures
        a == b,
    decreases k,
{
    if k > 0 {
        let ka = (k - 1) as nat;
        assert(hex_of(a, k).drop_last() =~= hex_of(a / 16, ka));
        assert(hex_of(b, k).drop_last() =~= hex_of(b / 16, ka));
        hex_is_exact(a / 16, b / 16, ka);
        assert(hex_of(a, k).last() == hex_char(a % 16));
        assert(hex_of(b, k).last() == hex_char(b % 16));
        reveal_strlit("0123456789abcdef");
        let d = "0123456789abcdef"@;
        assert(d[0] == '0' && d[1] == '1' && d[2] == '2' && d[3] == '3' && d[4] == '4' && d[5] == '5'
            && d[6] == '6' && d[7] == '7' && d[8] == '8' && d[9] == '9' && d[10] == 'a' && d[11]
            == 'b' && d[12] == 'c' && d[13] == 'd' && d[14] == 'e' && d[15] == 'f');
    }
}

} // verus!
