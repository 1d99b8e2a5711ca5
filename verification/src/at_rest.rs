//! The at-rest encoding of a machine-bound protected secret.
//!
//! The configuration file stores a protected password as the ASCII text
//! `v1$m$<hex nonce>$<hex ciphertext>`, bit-exact.  Rendering always emits
//! lowercase hex; parsing accepts either case, requires exactly four
//! `$`-separated fields, and requires the first two to be `v1` and `m`.

use vstd::prelude::*;
use vstd::slice::slice_subrange;
use crate::hexcode::{
    hex_bytes_of, hex_decodable, hex_decode, hex_decoded, hex_encode, is_hex_digit,
    lemma_hex_round_trip,
};
use crate::protection::LocalMachineDataProtection;

verus! {

/// The ASCII bytes of `v1$m$`: the version and machine-scope fields.
pub open spec fn at_rest_prefix() -> Seq<u8> {
    seq![118u8, 49u8, 36u8, 109u8, 36u8]
}

/// The ASCII byte of the field separator `$`.
pub open spec fn dollar() -> u8 {
    36u8
}

/// The at-rest bytes of a protection: prefix, hex nonce, separator,
/// hex ciphertext.
pub open spec fn at_rest_bytes(p: LocalMachineDataProtection) -> Seq<u8> {
    at_rest_prefix() + hex_bytes_of(p.nonce@) + seq![dollar()] + hex_bytes_of(p.secret@)
}

/// The first `$` at or after position `from`.
pub open spec fn find_dollar(s: Seq<u8>, from: int) -> Option<int>
    decreases s.len() - from,
{
    if from < 0 || from >= s.len() {
        None
    } else if s[from] == dollar() {
        Some(from)
    } else {
        find_dollar(s, from + 1)
    }
}

/// What parsing the at-rest bytes yields: the nonce and ciphertext bytes,
/// or nothing unless the input is the prefix, then exactly two hex fields
/// separated by one `$`.
pub open spec fn parse_at_rest(s: Seq<u8>) -> Option<(Seq<u8>, Seq<u8>)> {
    if s.len() < 5 || s.subrange(0, 5) != at_rest_prefix() {
        None
    } else {
        match find_dollar(s, 5) {
            Option::None => None,
            Option::Some(d) => {
                let h1 = s.subrange(5, d);
                let h2 = s.subrange(d + 1, s.len() as int);
                if find_dollar(s, d + 1) is Some {
                    None
                } else if hex_decodable(h1) && hex_decodable(h2) {
                    Some((hex_decoded(h1), hex_decoded(h2)))
                } else {
                    None
                }
            },
        }
    }
}

/// Append all of `src` to `dst`.
fn push_all(dst: &mut Vec<u8>, src: &[u8])
    ensures
        final(dst)@ == old(dst)@ + src@,
{
    let n = src.len();
    let mut i: usize = 0;
    while i < n
        invariant
            n == src@.len(),
            i <= n,
            dst@ == old(dst)@ + src@.subrange(0, i as int),
        decreases n - i,
    {
        dst.push(src[i]);
        proof {
            assert(old(dst)@ + src@.subrange(0, i as int) + seq![src@[i as int]] =~= old(dst)@
                + src@.subrange(0, i + 1));
        }
        i += 1;
    }
    proof {
        assert(old(dst)@ + src@.subrange(0, n as int) =~= old(dst)@ + src@);
    }
}

impl LocalMachineDataProtection {
    /// Render this protection in the at-rest format.
    pub fn to_at_rest(&self) -> (r: Vec<u8>)
        ensures
            r@ == at_rest_bytes(*self),
    {
        let mut r: Vec<u8> = Vec::new();
        // "v1$m$"
        r.push(118);
        r.push(49);
        r.push(36);
        r.push(109);
        r.push(36);
        proof {
            assert(r@ =~= at_rest_prefix());
        }
        let nonce_hex = hex_encode(self.nonce.as_slice());
        push_all(&mut r, nonce_hex.as_slice());
        r.push(36);
        let secret_hex = hex_encode(self.secret.as_slice());
        push_all(&mut r, secret_hex.as_slice());
        proof {
            assert(r@ =~= at_rest_bytes(*self));
        }
        r
    }

    /// Parse the at-rest format.  `None` exactly on text that no rendering
    /// (up to hex letter case) produces.
    pub fn from_at_rest(s: &[u8]) -> (r: Option<LocalMachineDataProtection>)
        ensures
            (r is Some) == (parse_at_rest(s@) is Some),
            r matches Some(p) ==> parse_at_rest(s@) == Some((p.nonce@, p.secret@)),
    {
        let n = s.len();
        if n < 5 || s[0] != 118 || s[1] != 49 || s[2] != 36 || s[3] != 109 || s[4] != 36 {
            proof {
                if s@.len() >= 5 {
                    assert(s@.subrange(0, 5) != at_rest_prefix() || s@.subrange(0, 5)
                        =~= at_rest_prefix());
                }
            }
            return None;
        }
        proof {
            assert(s@.subrange(0, 5) =~= at_rest_prefix());
        }
        let d = match find_separator(s, 5) {
            Some(d) => d,
            None => {
                return None;
            },
        };
        if let Some(_) = find_separator(s, d + 1) {
            return None;
        }
        let h1 = slice_subrange(s, 5, d);
        let h2 = slice_subrange(s, d + 1, n);
        let nonce = match hex_decode(h1) {
            Some(v) => v,
            None => {
                return None;
            },
        };
        let secret = match hex_decode(h2) {
            Some(v) => v,
            None => {
                return None;
            },
        };
        Some(LocalMachineDataProtection { nonce, secret })
    }
}

/// Find the first `$` at or after `from`, as [`find_dollar`] names it.
fn find_separator(s: &[u8], from: usize) -> (r: Option<usize>)
    requires
        from <= s@.len(),
    ensures
        match r {
            Option::Some(d) => find_dollar(s@, from as int) == Some(d as int) && from <= d
                < s@.len() && s@[d as int] == dollar(),
            Option::None => find_dollar(s@, from as int) is None,
        },
{
    let n = s.len();
    let mut i: usize = from;
    while i < n
        invariant
            n == s@.len(),
            from <= i <= n,
            find_dollar(s@, from as int) == find_dollar(s@, i as int),
        decreases n - i,
    {
        if s[i] == 36 {
            return Some(i);
        }
        i += 1;
    }
    None
}

/// Parsing inverts rendering: the at-rest bytes of any protection parse
/// back to exactly its nonce and ciphertext.
pub proof fn lemma_at_rest_round_trip(p: LocalMachineDataProtection)
    ensures
        parse_at_rest(at_rest_bytes(p)) == Some((p.nonce@, p.secret@)),
{
    let s = at_rest_bytes(p);
    let nh = hex_bytes_of(p.nonce@);
    let sh = hex_bytes_of(p.secret@);
    let d = 5 + nh.len() as int;
    lemma_hex_round_trip(p.nonce@);
    lemma_hex_round_trip(p.secret@);
    assert(s.subrange(0, 5) =~= at_rest_prefix());
    assert(s[d] == dollar());
    assert forall|k: int| 5 <= k < d implies s[k] != dollar() by {
        assert(s[k] == nh[k - 5]);
        assert(is_hex_digit(nh[k - 5]));
    }
    assert forall|k: int| d + 1 <= k < s.len() implies s[k] != dollar() by {
        assert(s[k] == sh[k - d - 1]);
        assert(is_hex_digit(sh[k - d - 1]));
    }
    lemma_find_dollar_clear_range(s, 5, d);
    assert(find_dollar(s, 5) == Some(d));
    lemma_find_dollar_clear_range(s, d + 1, s.len() as int);
    assert(find_dollar(s, d + 1) is None);
    assert(s.subrange(5, d) =~= nh);
    assert(s.subrange(d + 1, s.len() as int) =~= sh);
}

/// A protected secret survives the at-rest round trip: whatever parses
/// back from the rendered text carries the same nonce and ciphertext, so
/// unprotecting it under the same key still yields the protected plaintext.
pub proof fn lemma_at_rest_preserves_protection(
    key: Seq<u8>,
    plaintext: Seq<u8>,
    p: LocalMachineDataProtection,
    q: LocalMachineDataProtection,
)
    requires
        crate::protection::protects(key, plaintext, p),
        parse_at_rest(at_rest_bytes(p)) == Some((q.nonce@, q.secret@)),
    ensures
        crate::protection::unprotect_spec(key, q) == Some(plaintext),
{
    lemma_at_rest_round_trip(p);
}

/// Scanning for `$` skips any clear range: if no byte in `s[from..to]` is a
/// `$`, the search from `from` gives what it gives from `to`; in particular
/// it stops at `to` when a `$` stands there, and fails when `to` is the end.
proof fn lemma_find_dollar_clear_range(s: Seq<u8>, from: int, to: int)
    requires
        0 <= from <= to <= s.len(),
        forall|k: int| from <= k < to ==> s[k] != dollar(),
    ensures
        to < s.len() && s[to] == dollar() ==> find_dollar(s, from) == Some(to),
        to == s.len() ==> find_dollar(s, from) is None,
    decreases to - from,
{
    if from < to {
        lemma_find_dollar_clear_range(s, from + 1, to);
    }
}

} // verus!
