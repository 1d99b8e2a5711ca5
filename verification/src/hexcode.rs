//! Lowercase hex encoding of byte strings, and the inverse.
//!
//! The at-rest credential format stores the nonce and the ciphertext as hex
//! fields; decoding accepts either letter case, as the format's readers
//! always have.  Everything here works on ASCII bytes.

use vstd::prelude::*;

verus! {

/// The lowercase hex digit (as an ASCII byte) of a value below 16.
pub open spec fn hex_digit(n: u8) -> u8
    recommends
        n < 16,
{
    if n < 10 {
        (48 + n) as u8
    } else {
        (87 + n) as u8
    }
}

/// Whether `c` is an ASCII hex digit of either case.
pub open spec fn is_hex_digit(c: u8) -> bool {
    ||| 48 <= c <= 57
    ||| 65 <= c <= 70
    ||| 97 <= c <= 102
}

/// The value of an ASCII hex digit of either case.
pub open spec fn hex_val(c: u8) -> u8
    recommends
        is_hex_digit(c),
{
    if c <= 57 {
        (c - 48) as u8
    } else if c <= 70 {
        (c - 55) as u8
    } else {
        (c - 87) as u8
    }
}

/// The lowercase hex encoding of a byte string: two digits per byte,
/// high nibble first.
pub open spec fn hex_bytes_of(b: Seq<u8>) -> Seq<u8> {
    Seq::new(
        2 * b.len(),
        |i: int|
            if i % 2 == 0 {
                hex_digit(b[i / 2] / 16)
            } else {
                hex_digit(b[i / 2] % 16)
            },
    )
}

/// Whether `s` is a well-formed hex string: even length, digits only.
pub open spec fn hex_decodable(s: Seq<u8>) -> bool {
    &&& s.len() % 2 == 0
    &&& forall|k: int| 0 <= k < s.len() ==> is_hex_digit(#[trigger] s[k])
}

/// The bytes a well-formed hex string denotes.
pub open spec fn hex_decoded(s: Seq<u8>) -> Seq<u8>
    recommends
        hex_decodable(s),
{
    Seq::new(s.len() / 2, |i: int| (16 * hex_val(s[2 * i]) + hex_val(s[2 * i + 1])) as u8)
}

/// Encode a byte string as lowercase hex.
pub fn hex_encode(bytes: &[u8]) -> (r: Vec<u8>)
    ensures
        r@ == hex_bytes_of(bytes@),
{
    let n = bytes.len();
    let mut r: Vec<u8> = Vec::new();
    let mut i: usize = 0;
    while i < n
        invariant
            n == bytes@.len(),
            i <= n,
            r@.len() == 2 * i,
            forall|k: int| 0 <= k < 2 * i ==> r@[k] == hex_bytes_of(bytes@)[k],
        decreases n - i,
    {
        let b = bytes[i];
        let hi = b / 16;
        let lo = b % 16;
        let hi_digit: u8 = if hi < 10 {
            48 + hi
        } else {
            87 + hi
        };
        let lo_digit: u8 = if lo < 10 {
            48 + lo
        } else {
            87 + lo
        };
        r.push(hi_digit);
        r.push(lo_digit);
        i += 1;
    }
    proof {
        assert(r@ =~= hex_bytes_of(bytes@));
    }
    r
}

/// Decode a hex string of either case; `None` exactly on malformed input.
pub fn hex_decode(s: &[u8]) -> (r: Option<Vec<u8>>)
    ensures
        (r is Some) == hex_decodable(s@),
        r matches Some(v) ==> v@ == hex_decoded(s@),
{
    let n = s.len();
    if n % 2 != 0 {
        return None;
    }
    let mut r: Vec<u8> = Vec::new();
    let mut i: usize = 0;
    while i < n
        invariant
            n == s@.len(),
            n % 2 == 0,
            i <= n,
            i % 2 == 0,
            r@.len() == i / 2,
            forall|k: int| 0 <= k < i ==> is_hex_digit(#[trigger] s@[k]),
            forall|k: int| 0 <= k < i / 2 ==> r@[k] == hex_decoded(s@)[k],
        decreases n - i,
    {
        let c0 = s[i];
        let c1 = s[i + 1];
        let v0 = match hex_digit_value(c0) {
            Some(v) => v,
            None => {
                return None;
            },
        };
        let v1 = match hex_digit_value(c1) {
            Some(v) => v,
            None => {
                return None;
            },
        };
        r.push(16 * v0 + v1);
        i += 2;
    }
    proof {
        assert(r@ =~= hex_decoded(s@));
    }
    Some(r)
}

/// The value of one hex digit byte; `None` exactly on a non-digit.
fn hex_digit_value(c: u8) -> (r: Option<u8>)
    ensures
        (r is Some) == is_hex_digit(c),
        r matches Some(v) ==> v == hex_val(c) && v < 16,
{
    if 48 <= c && c <= 57 {
        Some(c - 48)
    } else if 65 <= c && c <= 70 {
        Some(c - 55)
    } else if 97 <= c && c <= 102 {
        Some(c - 87)
    } else {
        None
    }
}

/// Hex encoding is injective: decoding gives the bytes back, and every
/// output byte is a hex digit (in particular, never a field separator).
pub proof fn lemma_hex_round_trip(b: Seq<u8>)
    ensures
        hex_decodable(hex_bytes_of(b)),
        hex_decoded(hex_bytes_of(b)) =~= b,
{
    let h = hex_bytes_of(b);
    assert forall|k: int| 0 <= k < h.len() implies is_hex_digit(#[trigger] h[k]) by {
        let n = if k % 2 == 0 {
            b[k / 2] / 16
        } else {
            b[k / 2] % 16
        };
        assert(n < 16);
        assert(h[k] == hex_digit(n));
    }
    assert forall|i: int| 0 <= i < b.len() implies hex_decoded(h)[i] == b[i] by {
        assert((2 * i) % 2 == 0 && (2 * i + 1) % 2 == 1);
        assert((2 * i) / 2 == i && (2 * i + 1) / 2 == i);
        assert(h[2 * i] == hex_digit(b[i] / 16));
        assert(h[2 * i + 1] == hex_digit(b[i] % 16));
        assert(hex_val(hex_digit(b[i] / 16)) == b[i] / 16);
        assert(hex_val(hex_digit(b[i] % 16)) == b[i] % 16);
        assert(16 * (b[i] / 16) + b[i] % 16 == b[i]);
    }
}

} // verus!
