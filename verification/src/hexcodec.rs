use vstd::prelude::*;

verus! {

/// A hex digit in either case.
pub open spec fn is_hex_digit(c: char) -> bool {
    ('0' <= c && c <= '9') || ('a' <= c && c <= 'f') || ('A' <= c && c <= 'F')
}

/// Numeric value of one hex digit.
pub open spec fn hex_digit_val(c: char) -> u8
    recommends
        is_hex_digit(c),
{
    if '0' <= c && c <= '9' {
        (c as u8 - '0' as u8) as u8
    } else if 'a' <= c && c <= 'f' {
        (c as u8 - 'a' as u8 + 10) as u8
    } else {
        (c as u8 - 'A' as u8 + 10) as u8
    }
}

/// A valid hex string: even length, hex digits only.
pub open spec fn valid_hex(s: Seq<char>) -> bool {
    s.len() % 2 == 0 && forall|i: int| 0 <= i < s.len() ==> is_hex_digit(#[trigger] s[i])
}

/// The byte sequence a valid hex string denotes.
pub open spec fn hex_bytes(s: Seq<char>) -> Seq<u8>
    recommends
        valid_hex(s),
    decreases s.len(),
{
    if s.len() < 2 {
        Seq::empty()
    } else {
        seq![(hex_digit_val(s[0]) * 16 + hex_digit_val(s[1])) as u8] + hex_bytes(s.skip(2))
    }
}

/// The uppercase hex digit for a value below 16.
pub open spec fn upper_digit(v: u8) -> char
    recommends
        v < 16,
{
    if v < 10 {
        (('0' as u8 + v) as u8) as char
    } else {
        (('A' as u8 + (v - 10) as u8) as u8) as char
    }
}

/// Uppercase hex encoding of a byte sequence: two digits per byte.
pub open spec fn hex_upper(b: Seq<u8>) -> Seq<char>
    decreases b.len(),
{
    if b.len() == 0 {
        Seq::empty()
    } else {
        seq![upper_digit(b[0] / 16), upper_digit(b[0] % 16)] + hex_upper(b.skip(1))
    }
}

/// Executable test matching `is_hex_digit`.
pub fn is_hex_digit_exec(c: char) -> (r: bool)
    ensures
        r == is_hex_digit(c),
{
    let x = c as u32;
    (48 <= x && x <= 57) || (97 <= x && x <= 102) || (65 <= x && x <= 70)
}

/// Executable form of `hex_digit_val`.
fn hex_digit_val_exec(c: char) -> (v: u8)
    requires
        is_hex_digit(c),
    ensures
        v == hex_digit_val(c),
{
    let x = c as u32;
    if 48 <= x && x <= 57 {
        (x - 48) as u8
    } else if 97 <= x && x <= 102 {
        (x - 97 + 10) as u8
    } else {
        (x - 65 + 10) as u8
    }
}

/// Decodes a validated hex string, two digits per byte.
fn hex2bin_chars(s: &str) -> (r: Vec<u8>)
    requires
        valid_hex(s@),
    ensures
        r@ == hex_bytes(s@),
    decreases s@.len(),
{
    let n = s.unicode_len();
    if n < 2 {
        let r: Vec<u8> = Vec::new();
        proof {
            assert(r@ =~= hex_bytes(s@));
        }
        r
    } else {
        let c0 = s.get_char(0);
        let c1 = s.get_char(1);
        let b: u8 = hex_digit_val_exec(c0) * 16 + hex_digit_val_exec(c1);
        let rest = s.substring_char(2, n);
        proof {
            assert(rest@ =~= s@.skip(2));
            assert forall|i: int| 0 <= i < rest@.len() implies is_hex_digit(#[trigger] rest@[i]) by {
                assert(rest@[i] == s@[i + 2]);
            }
        }
        let mut v = hex2bin_chars(rest);
        v.insert(0, b);
        proof {
            assert(v@ =~= hex_bytes(s@));
        }
        v
    }
}

/// Decodes an ACVP hex string into bytes; odd length or a non-hex character
/// is rejected with the crate's invalid-hex error.
pub fn hex2bin(hex: &str) -> (r: crate::AcvpResult<Vec<u8>>)
    ensures
        valid_hex(hex@) ==> (r matches Ok(b) && b@ == hex_bytes(hex@)),
        !valid_hex(hex@) ==> (r matches Err(e) && e.code == -crate::EINVAL),
{
    let n = hex.unicode_len();
    if n % 2 != 0 {
        return Err(
            crate::AcvpError {
                code: -crate::EINVAL,
                message: String::from_str("Invalid hex string"),
            },
        );
    }
    let mut i: usize = 0;
    while i < n
        invariant
            i <= n,
            n == hex@.len(),
            forall|j: int| 0 <= j < i ==> is_hex_digit(#[trigger] hex@[j]),
        decreases n - i,
    {
        if !is_hex_digit_exec(hex.get_char(i)) {
            return Err(
                crate::AcvpError {
                    code: -crate::EINVAL,
                    message: String::from_str("Invalid hex string"),
                },
            );
        }
        i = i + 1;
    }
    Ok(hex2bin_chars(hex))
}

/// Executable form of `upper_digit`.
fn upper_digit_exec(v: u8) -> (c: char)
    requires
        v < 16,
    ensures
        c == upper_digit(v),
{
    if v < 10 {
        (48 + v) as char
    } else {
        (65 + (v - 10)) as char
    }
}

/// Appends the uppercase hex digits of `b[i..]`.
fn hex_encode_from(b: &Vec<u8>, i: usize, out: &mut String)
    requires
        i <= b@.len(),
    ensures
        final(out)@ == old(out)@ + hex_upper(b@.skip(i as int)),
    decreases b@.len() - i,
{
    if i < b.len() {
        let hi = b[i] / 16;
        let lo = b[i] % 16;
        crate::strutil::push_char(out, upper_digit_exec(hi));
        crate::strutil::push_char(out, upper_digit_exec(lo));
        hex_encode_from(b, i + 1, out);
        proof {
            assert(b@.skip(i as int).skip(1) =~= b@.skip(i + 1));
            assert(b@.skip(i as int)[0] == b@[i as int]);
            assert(final(out)@ =~= old(out)@ + hex_upper(b@.skip(i as int)));
        }
    } else {
        proof {
            assert(b@.skip(i as int) =~= Seq::<u8>::empty());
            assert(final(out)@ =~= old(out)@ + hex_upper(b@.skip(i as int)));
        }
    }
}

/// Encodes bytes as uppercase hex, two digits per byte.
pub fn hex_encode_upper(b: &Vec<u8>) -> (r: String)
    ensures
        r@ == hex_upper(b@),
{
    let mut out = String::new();
    hex_encode_from(b, 0, &mut out);
    proof {
        assert(b@.skip(0) =~= b@);
        assert(out@ =~= hex_upper(b@));
    }
    out
}

/// Helper facts: the uppercase encoding of any byte sequence is a valid hex
/// string, and decoding it gives the bytes back.
pub proof fn lemma_decode_of_encode(b: Seq<u8>)
    ensures
        valid_hex(hex_upper(b)),
        hex_bytes(hex_upper(b)) == b,
    decreases b.len(),
{
    if b.len() == 0 {
        assert(hex_bytes(hex_upper(b)) =~= b);
    } else {
        lemma_decode_of_encode(b.skip(1));
        let hd = seq![upper_digit(b[0] / 16), upper_digit(b[0] % 16)];
        let tl = hex_upper(b.skip(1));
        assert(hex_upper(b) == hd + tl);
        assert forall|i: int| 0 <= i < hex_upper(b).len() implies is_hex_digit(
            #[trigger] hex_upper(b)[i],
        ) by {
            if i >= 2 {
                assert(hex_upper(b)[i] == tl[i - 2]);
            }
        }
        assert((hd + tl).len() % 2 == 0);
        assert(hex_upper(b).skip(2) =~= tl);
        assert(hex_digit_val(upper_digit(b[0] / 16)) == b[0] / 16);
        assert(hex_digit_val(upper_digit(b[0] % 16)) == b[0] % 16);
        assert(hex_bytes(hex_upper(b)) =~= b);
    }
}

/// Round trip: decoding, re-encoding in uppercase, and decoding again gives
/// the same bytes as the first decode, for every valid hex string.
pub proof fn lemma_hex_round_trip(h: Seq<char>)
    requires
        valid_hex(h),
    ensures
        valid_hex(hex_upper(hex_bytes(h))),
        hex_bytes(hex_upper(hex_bytes(h))) == hex_bytes(h),
{
    lemma_decode_of_encode(hex_bytes(h));
}

} // verus!
