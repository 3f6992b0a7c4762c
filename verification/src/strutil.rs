//! Small verified string helpers shared across the crate.

use vstd::prelude::*;
use vstd::string::StringExecFns;

use crate::spec_route_id_transform;

verus! {

/// Compare two string slices by contents.
pub(crate) fn str_eq(a: &str, b: &str) -> (r: bool)
    ensures
        r == (a@ == b@),
{
    let sa = String::from_str(a);
    let sb = String::from_str(b);
    sa == sb
}

/// Whether a character counts as whitespace for identifier cleanup.
pub open spec fn sp_is_space(c: char) -> bool {
    c == ' ' || c == '\t' || c == '\n' || c == '\r'
}

/// `s` with leading whitespace dropped.
pub open spec fn sp_trim_start(s: Seq<char>) -> Seq<char>
    decreases s.len(),
{
    if s.len() > 0 && sp_is_space(s[0]) {
        sp_trim_start(s.drop_first())
    } else {
        s
    }
}

/// `s` with trailing whitespace dropped.
pub open spec fn sp_trim_end(s: Seq<char>) -> Seq<char>
    decreases s.len(),
{
    if s.len() > 0 && sp_is_space(s.last()) {
        sp_trim_end(s.drop_last())
    } else {
        s
    }
}

/// `s` with surrounding whitespace dropped.
pub open spec fn sp_trim(s: Seq<char>) -> Seq<char> {
    sp_trim_end(sp_trim_start(s))
}

proof fn lemma_trim_start_at(s: Seq<char>, k: int)
    requires
        0 <= k <= s.len(),
        forall|j: int| 0 <= j < k ==> sp_is_space(s[j]),
        k < s.len() ==> !sp_is_space(s[k]),
    ensures
        sp_trim_start(s) == s.subrange(k, s.len() as int),
    decreases k,
{
    if k == 0 {
        assert(s.subrange(0, s.len() as int) =~= s);
    } else {
        assert(sp_is_space(s[0]));
        let t = s.drop_first();
        assert(forall|j: int| 0 <= j < k - 1 ==> t[j] == s[j + 1] && sp_is_space(t[j]));
        lemma_trim_start_at(t, k - 1);
        assert(t.subrange(k - 1, t.len() as int) =~= s.subrange(k, s.len() as int));
    }
}

proof fn lemma_trim_end_at(s: Seq<char>, k: int)
    requires
        0 <= k <= s.len(),
        forall|j: int| k <= j < s.len() ==> sp_is_space(s[j]),
        k > 0 ==> !sp_is_space(s[k - 1]),
    ensures
        sp_trim_end(s) == s.subrange(0, k),
    decreases s.len() - k,
{
    if k == s.len() {
        assert(s.subrange(0, s.len() as int) =~= s);
    } else {
        assert(sp_is_space(s.last()));
        let t = s.drop_last();
        lemma_trim_end_at(t, k);
        assert(t.subrange(0, k) =~= s.subrange(0, k));
    }
}

fn is_space_char(c: char) -> (r: bool)
    ensures
        r == sp_is_space(c),
{
    c == ' ' || c == '\t' || c == '\n' || c == '\r'
}

/// Index of the first non-whitespace character at or after `i`.
fn skip_spaces_fwd(s: &str, i: usize) -> (r: usize)
    requires
        i <= s@.len(),
    ensures
        i <= r <= s@.len(),
        forall|j: int| i <= j < r ==> sp_is_space(s@[j]),
        r < s@.len() ==> !sp_is_space(s@[r as int]),
    decreases s@.len() - i,
{
    let n = s.unicode_len();
    if i == n {
        i
    } else {
        let c = s.get_char(i);
        if is_space_char(c) {
            skip_spaces_fwd(s, i + 1)
        } else {
            i
        }
    }
}

/// Index after the last non-whitespace character in `[lo, e)`.
fn skip_spaces_back(s: &str, lo: usize, e: usize) -> (r: usize)
    requires
        lo <= e <= s@.len(),
    ensures
        lo <= r <= e,
        forall|j: int| r <= j < e ==> sp_is_space(s@[j]),
        r > lo ==> !sp_is_space(s@[r - 1]),
    decreases e - lo,
{
    if e == lo {
        e
    } else {
        let c = s.get_char(e - 1);
        if is_space_char(c) {
            skip_spaces_back(s, lo, e - 1)
        } else {
            e
        }
    }
}

/// Drops surrounding whitespace.
pub fn trim_ws(s: &str) -> (r: String)
    ensures
        r@ == sp_trim(s@),
{
    let n = s.unicode_len();
    let a = skip_spaces_fwd(s, 0);
    let b = skip_spaces_back(s, a, n);
    proof {
        lemma_trim_start_at(s@, a as int);
        let mid = s@.subrange(a as int, s@.len() as int);
        assert(forall|j: int|
            (b - a) <= j < mid.len() ==> mid[j] == s@[j + a] && sp_is_space(mid[j]));
        assert(b > a ==> mid[b - a - 1] == s@[b - 1]);
        lemma_trim_end_at(mid, b - a);
        assert(mid.subrange(0, b - a) =~= s@.subrange(a as int, b as int));
    }
    let piece = s.substring_char(a, b);
    String::from_str(piece)
}

/// Trims a string; an all-whitespace or empty value becomes absent.
pub fn clean_opt_string(o: Option<String>) -> (r: Option<String>)
    ensures
        crate::feed::ov(r) == sp_clean_str(crate::feed::ov(o)),
{
    match o {
        None => None,
        Some(s) => {
            let t = trim_ws(s.as_str());
            if t.as_str().unicode_len() == 0 {
                None
            } else {
                Some(t)
            }
        },
    }
}

/// Spec of `clean_opt_string`.
pub open spec fn sp_clean_str(o: Option<Seq<char>>) -> Option<Seq<char>> {
    match o {
        None => None,
        Some(t) => if sp_trim(t).len() == 0 {
            None
        } else {
            Some(sp_trim(t))
        },
    }
}

/// Whether an interface name could belong to the private fleet network.
pub fn maybe_tailscale(s: &str) -> (r: bool)
    ensures
        r == (s@.len() >= 9 && s@.subrange(0, 9) == "tailscale"@),
{
    let n = s.unicode_len();
    if n < 9 {
        false
    } else {
        let prefix = s.substring_char(0, 9);
        str_eq(prefix, "tailscale")
    }
}

/// Canonicalise a route identifier for known multi-operator feeds.
pub fn route_id_transform(feed_id: &str, route_id: String) -> (r: String)
    ensures
        r@ == spec_route_id_transform(feed_id@, route_id@),
{
    if str_eq(feed_id, "f-mta~nyc~rt~lirr") {
        String::from_str("lirr").concat(route_id.as_str())
    } else if str_eq(feed_id, "f-mta~nyc~rt~mnr") {
        String::from_str("mnr").concat(route_id.as_str())
    } else {
        route_id
    }
}

} // verus!
