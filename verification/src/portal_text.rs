//! Recognition of the campus portal's fixed text shapes.
//!
//! The connectivity-check page, when intercepted by the portal, carries a
//! fixed redirect notice with an embedded link; the portal's info page
//! carries the client's portal-assigned IP inside a fixed quoted assignment.
//! Both shapes are "head, then any characters of one line, then tail".

use vstd::prelude::*;
use vstd::string::*;

verus! {

/// The notice text up to the embedded link target.
pub open spec fn marker_head() -> Seq<char> {
    "Authentication is required. Click <a href=\""@
}

/// The notice text after the embedded link target.
pub open spec fn marker_tail() -> Seq<char> {
    "\">here</a> to open the authentication page."@
}

/// The assignment that precedes the portal-assigned IP on the info page.
pub open spec fn ap_ip_head() -> Seq<char> {
    "v46ip='"@
}

/// Pattern `p` occurs in `s` at position `i`.
pub open spec fn matches_at(s: Seq<char>, p: Seq<char>, i: int) -> bool {
    &&& 0 <= i
    &&& i + p.len() <= s.len()
    &&& s.subrange(i, i + p.len()) == p
}

/// No line break anywhere in `s[from..to]`.
pub open spec fn line_clear(s: Seq<char>, from: int, to: int) -> bool {
    forall|k: int| from <= k < to ==> s[k] != '\n'
}

/// The authentication notice occurs with its head at `i` and its tail at
/// `j`, the embedded link target between them staying on one line.
pub open spec fn marker_match_at(s: Seq<char>, i: int, j: int) -> bool {
    &&& matches_at(s, marker_head(), i)
    &&& i + marker_head().len() <= j
    &&& matches_at(s, marker_tail(), j)
    &&& line_clear(s, i + marker_head().len(), j)
}

/// The page text carries the portal's authentication notice.
pub open spec fn marker_present(s: Seq<char>) -> bool {
    exists|i: int, j: int| marker_match_at(s, i, j)
}

/// The IP assignment occurs with its head at `i` and its closing quote at
/// `j`, the IP text between them staying on one line.
pub open spec fn ap_ip_match_at(s: Seq<char>, i: int, j: int) -> bool {
    &&& matches_at(s, ap_ip_head(), i)
    &&& i + ap_ip_head().len() <= j < s.len()
    &&& s[j] == '\''
    &&& line_clear(s, i + ap_ip_head().len(), j)
}

/// The page text carries the IP assignment.
pub open spec fn ap_ip_present(s: Seq<char>) -> bool {
    exists|i: int, j: int| ap_ip_match_at(s, i, j)
}

/// `ip` is the IP text the page yields: the text between the leftmost
/// completable assignment head and the nearest closing quote after it.
pub open spec fn ap_ip_extracted(s: Seq<char>, ip: Seq<char>) -> bool {
    exists|i: int, j: int|
        {
            &&& ap_ip_match_at(s, i, j)
            &&& ip == s.subrange(i + ap_ip_head().len(), j)
            &&& forall|i2: int, j2: int| ap_ip_match_at(s, i2, j2) ==> i <= i2
            &&& forall|j2: int| ap_ip_match_at(s, i, j2) ==> j <= j2
        }
}

/// Pattern comparison at a fixed position, character by character.
fn str_matches_at(s: &str, s_len: usize, p: &str, p_len: usize, i: usize) -> (r: bool)
    requires
        s_len == s@.len(),
        p_len == p@.len(),
        i + p_len <= s_len,
    ensures
        r == matches_at(s@, p@, i as int),
{
    let mut j: usize = 0;
    while j < p_len
        invariant
            s_len == s@.len(),
            p_len == p@.len(),
            i + p_len <= s_len,
            j <= p_len,
            forall|k: int| 0 <= k < j ==> s@[i + k] == p@[k],
        decreases p_len - j,
    {
        if s.get_char(i + j) != p.get_char(j) {
            proof {
                assert(s@.subrange(i as int, i + p@.len())[j as int] != p@[j as int]);
            }
            return false;
        }
        j += 1;
    }
    proof {
        assert(s@.subrange(i as int, i + p@.len()) =~= p@);
    }
    true
}

/// Whether the page text carries the portal's authentication notice:
/// the fixed head, then link-target characters on one line, then the
/// fixed tail.
pub fn contains_authentication_marker(body: &str) -> (r: bool)
    ensures
        r == marker_present(body@),
{
    let head = "Authentication is required. Click <a href=\"";
    let tail = "\">here</a> to open the authentication page.";
    proof {
        reveal_strlit("Authentication is required. Click <a href=\"");
        reveal_strlit("\">here</a> to open the authentication page.");
        assert(head@ =~= marker_head());
        assert(tail@ =~= marker_tail());
    }
    let n = body.unicode_len();
    let head_len = head.unicode_len();
    let tail_len = tail.unicode_len();
    let mut i: usize = 0;
    while i < n
        invariant
            n == body@.len(),
            head@ == marker_head(),
            tail@ == marker_tail(),
            head_len == marker_head().len(),
            tail_len == marker_tail().len(),
            0 < head_len,
            0 < tail_len,
            i <= n,
            forall|i2: int, j2: int| i2 < i ==> !marker_match_at(body@, i2, j2),
        decreases n - i,
    {
        if head_len <= n - i && str_matches_at(body, n, head, head_len, i) {
            let mut j: usize = i + head_len;
            while j < n
                invariant
                    n == body@.len(),
                    head@ == marker_head(),
                    tail@ == marker_tail(),
                    head_len == marker_head().len(),
                    tail_len == marker_tail().len(),
                    0 < tail_len,
                    i + head_len <= j <= n,
                    matches_at(body@, marker_head(), i as int),
                    line_clear(body@, i + head_len, j as int),
                    forall|j2: int| j2 < j ==> !marker_match_at(body@, i as int, j2),
                ensures
                    forall|j2: int| !marker_match_at(body@, i as int, j2),
                decreases n - j,
            {
                if tail_len <= n - j && str_matches_at(body, n, tail, tail_len, j) {
                    proof {
                        assert(marker_match_at(body@, i as int, j as int));
                    }
                    return true;
                }
                if body.get_char(j) == '\n' {
                    proof {
                        assert forall|j2: int| j2 > j implies !marker_match_at(
                            body@,
                            i as int,
                            j2,
                        ) by {
                            assert(body@[j as int] == '\n');
                            assert(!line_clear(body@, i + head_len, j2));
                        }
                    }
                    break;
                }
                j += 1;
            }
        }
        i += 1;
    }
    proof {
        assert(forall|i2: int, j2: int| !marker_match_at(body@, i2, j2));
    }
    false
}

/// The portal-assigned IP scraped from the info page: the text between the
/// fixed assignment head and the nearest closing quote on the same line, at
/// the leftmost position where the shape completes.
pub fn extract_ap_ip(body: &str) -> (r: Option<String>)
    ensures
        (r is Some) == ap_ip_present(body@),
        r matches Some(ip) ==> ap_ip_extracted(body@, ip@),
{
    let head = "v46ip='";
    proof {
        reveal_strlit("v46ip='");
        assert(head@ =~= ap_ip_head());
    }
    let n = body.unicode_len();
    let head_len = head.unicode_len();
    let mut i: usize = 0;
    while i < n
        invariant
            n == body@.len(),
            head@ == ap_ip_head(),
            head_len == ap_ip_head().len(),
            0 < head_len,
            i <= n,
            forall|i2: int, j2: int| i2 < i ==> !ap_ip_match_at(body@, i2, j2),
        decreases n - i,
    {
        if head_len <= n - i && str_matches_at(body, n, head, head_len, i) {
            let mut j: usize = i + head_len;
            while j < n
                invariant
                    n == body@.len(),
                    head@ == ap_ip_head(),
                    head_len == ap_ip_head().len(),
                    i + head_len <= j <= n,
                    matches_at(body@, ap_ip_head(), i as int),
                    line_clear(body@, i + head_len, j as int),
                    forall|i2: int, j2: int| i2 < i ==> !ap_ip_match_at(body@, i2, j2),
                    forall|j2: int| j2 < j ==> !ap_ip_match_at(body@, i as int, j2),
                ensures
                    forall|j2: int| !ap_ip_match_at(body@, i as int, j2),
                decreases n - j,
            {
                let c = body.get_char(j);
                if c == '\'' {
                    proof {
                        assert(ap_ip_match_at(body@, i as int, j as int));
                    }
                    let ip = String::from_str(body.substring_char(i + head_len, j));
                    return Some(ip);
                }
                if c == '\n' {
                    proof {
                        assert forall|j2: int| j2 > j implies !ap_ip_match_at(
                            body@,
                            i as int,
                            j2,
                        ) by {
                            assert(body@[j as int] == '\n');
                            assert(!line_clear(body@, i + head_len, j2));
                        }
                    }
                    break;
                }
                j += 1;
            }
        }
        i += 1;
    }
    proof {
        assert(forall|i2: int, j2: int| !ap_ip_match_at(body@, i2, j2));
    }
    None
}

} // verus!
