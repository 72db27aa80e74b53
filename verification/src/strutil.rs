use vstd::prelude::*;

verus! {

/// Relies on std's `String::push`: appends exactly the one character to the
/// end of the string. vstd gives `push` no specification of its own.
#[verifier::external_body]
pub fn push_char(out: &mut String, c: char)
    ensures
        final(out)@ == old(out)@.push(c),
{
    out.push(c);
}

/// A copy of a byte vector that provably holds the same bytes.
pub fn clone_bytes(v: &Vec<u8>) -> (r: Vec<u8>)
    ensures
        r@ == v@,
{
    let r = v.clone();
    proof {
        assert(r@ =~= v@);
    }
    r
}

/// Character-by-character string equality, usable on arbitrary runtime
/// strings (string literals stay opaque to the solver until revealed).
pub fn str_eq(a: &str, b: &str) -> (r: bool)
    ensures
        r == (a@ == b@),
{
    let alen = a.unicode_len();
    let blen = b.unicode_len();
    if alen != blen {
        return false;
    }
    let mut i: usize = 0;
    while i < alen
        invariant
            i <= alen,
            alen == a@.len(),
            blen == b@.len(),
            alen == blen,
            forall|j: int| 0 <= j < i ==> a@[j] == b@[j],
        decreases alen - i,
    {
        if a.get_char(i) != b.get_char(i) {
            return false;
        }
        i = i + 1;
    }
    proof {
        assert(a@ =~= b@);
    }
    true
}

/// `p` occurs as a contiguous substring of `s`.
pub open spec fn contains_seq(s: Seq<char>, p: Seq<char>) -> bool {
    exists|k: int|
        0 <= k && k + p.len() <= s.len() && #[trigger] s.subrange(k, k + p.len() as int) == p
}

/// The window of `s` at `k` equals `p`.
fn window_eq(s: &str, p: &str, k: usize) -> (r: bool)
    requires
        k + p@.len() <= s@.len(),
    ensures
        r == (s@.subrange(k as int, k + p@.len() as int) == p@),
{
    let plen = p.unicode_len();
    let slen = s.unicode_len();
    let mut j: usize = 0;
    while j < plen
        invariant
            j <= plen,
            plen == p@.len(),
            slen == s@.len(),
            k + p@.len() <= s@.len(),
            forall|t: int| 0 <= t < j ==> s@[k + t] == p@[t],
        decreases plen - j,
    {
        if s.get_char(k + j) != p.get_char(j) {
            proof {
                assert(s@.subrange(k as int, k + p@.len() as int)[j as int] != p@[j as int]);
            }
            return false;
        }
        j = j + 1;
    }
    proof {
        assert(s@.subrange(k as int, k + p@.len() as int) =~= p@);
    }
    true
}

/// A window differing from `p` at one position differs as a whole.
pub proof fn lemma_window_ne(s: Seq<char>, p: Seq<char>, k: int, idx: int)
    requires
        0 <= idx < p.len(),
        0 <= k,
        k + p.len() <= s.len(),
        s[k + idx] != p[idx],
    ensures
        s.subrange(k, k + p.len() as int) != p,
{
    assert(s.subrange(k, k + p.len() as int)[idx] == s[k + idx]);
}

/// Substring search, the executable form of `contains_seq`.
pub fn str_contains(s: &str, p: &str) -> (r: bool)
    ensures
        r == contains_seq(s@, p@),
{
    let slen = s.unicode_len();
    let plen = p.unicode_len();
    if plen > slen {
        return false;
    }
    if plen == 0 {
        proof {
            assert(s@.subrange(0, 0 + p@.len() as int) =~= p@);
        }
        return true;
    }
    let mut k: usize = 0;
    while k <= slen - plen
        invariant
            1 <= plen <= slen,
            slen == s@.len(),
            plen == p@.len(),
            k <= slen - plen + 1,
            forall|t: int|
                0 <= t < k ==> #[trigger] s@.subrange(t, t + p@.len() as int) != p@,
        decreases slen - plen - k + 1,
    {
        if window_eq(s, p, k) {
            return true;
        }
        k = k + 1;
    }
    false
}

/// The decimal digit character for a value below ten.
pub open spec fn dec_digit(d: int) -> char
    recommends
        0 <= d < 10,
{
    ((('0' as int) + d) as u8) as char
}

/// The decimal rendering of a non-negative integer, no leading zeros.
pub open spec fn dec_str(n: int) -> Seq<char>
    recommends
        n >= 0,
    decreases n,
{
    if n < 10 {
        seq![dec_digit(n)]
    } else {
        dec_str(n / 10) + seq![dec_digit(n % 10)]
    }
}

/// The decimal rendering of a signed integer.
pub open spec fn dec_str_signed(n: int) -> Seq<char> {
    if n < 0 {
        seq!['-'] + dec_str(-n)
    } else {
        dec_str(n)
    }
}

/// Appends the decimal rendering of `n`.
pub fn dec_u64_into(n: u64, out: &mut String)
    ensures
        final(out)@ == old(out)@ + dec_str(n as int),
    decreases n,
{
    if n < 10 {
        push_char(out, (48 + n as u8) as char);
        proof {
            assert(out@ =~= old(out)@ + dec_str(n as int));
        }
    } else {
        dec_u64_into(n / 10, out);
        push_char(out, (48 + (n % 10) as u8) as char);
        proof {
            assert(out@ =~= old(out)@ + dec_str(n as int));
        }
    }
}

/// Appends the decimal rendering of `n`, with a leading minus when negative.
pub fn dec_i64_into(n: i64, out: &mut String)
    ensures
        final(out)@ == old(out)@ + dec_str_signed(n as int),
{
    if n < 0 {
        push_char(out, '-');
        let neg: i128 = n as i128;
        let mag128: i128 = 0 - neg;
        let mag: u64 = mag128 as u64;
        proof {
            assert(mag as int == -(n as int));
        }
        dec_u64_into(mag, out);
        proof {
            assert(out@ =~= old(out)@ + dec_str_signed(n as int));
        }
    } else {
        dec_u64_into(n as u64, out);
    }
}

} // verus!
