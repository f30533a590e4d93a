//! Extraction of repository identifiers from manifest text.
//!
//! An identifier is any substring of the form `github.com/<org>/<name>`,
//! where both segments are nonempty runs of ASCII alphanumerics,
//! underscore, dot, or hyphen. The text is scanned left to right; matches
//! do not overlap, every occurrence yields its own entry, and the order of
//! appearance is preserved.

use vstd::prelude::*;

verus! {

/// A repository identifier: the organization and name segments, as bytes.
pub struct RepoId {
    pub org: Vec<u8>,
    pub name: Vec<u8>,
}

impl View for RepoId {
    type V = (Seq<u8>, Seq<u8>);

    open spec fn view(&self) -> (Seq<u8>, Seq<u8>) {
        (self.org@, self.name@)
    }
}

/// Bytes allowed inside a segment: ASCII alphanumerics, `_`, `.`, `-`.
pub open spec fn is_seg_byte(b: u8) -> bool {
    ||| (97 <= b && b <= 122)
    ||| (65 <= b && b <= 90)
    ||| (48 <= b && b <= 57)
    ||| b == 95u8
    ||| b == 46u8
    ||| b == 45u8
}

/// A nonempty segment made only of allowed bytes.
pub open spec fn valid_segment(seg: Seq<u8>) -> bool {
    seg.len() > 0 && (forall|j: int| 0 <= j < seg.len() ==> is_seg_byte(seg[j]))
}

/// The fixed host prefix `github.com/` stands at position `i` of `s`.
pub open spec fn host_at(s: Seq<u8>, i: int) -> bool {
    &&& 0 <= i
    &&& i + 11 <= s.len()
    &&& s[i] == 103u8
    &&& s[i + 1] == 105u8
    &&& s[i + 2] == 116u8
    &&& s[i + 3] == 104u8
    &&& s[i + 4] == 117u8
    &&& s[i + 5] == 98u8
    &&& s[i + 6] == 46u8
    &&& s[i + 7] == 99u8
    &&& s[i + 8] == 111u8
    &&& s[i + 9] == 109u8
    &&& s[i + 10] == 47u8
}

/// The end of the run of allowed segment bytes starting at `k`: the first
/// position at or after `k` that is out of bounds or holds a byte outside
/// the segment alphabet.
pub open spec fn seg_end(s: Seq<u8>, k: int) -> int
    decreases s.len() - k,
{
    if k < 0 || k >= s.len() || !is_seg_byte(s[k]) {
        k
    } else {
        seg_end(s, k + 1)
    }
}

/// `seg_end` stays within bounds and delimits a maximal run of segment bytes.
pub proof fn lemma_seg_end(s: Seq<u8>, k: int)
    requires
        0 <= k <= s.len(),
    ensures
        k <= seg_end(s, k) <= s.len(),
        forall|j: int| k <= j < seg_end(s, k) ==> is_seg_byte(s[j]),
        seg_end(s, k) < s.len() ==> !is_seg_byte(s[seg_end(s, k)]),
    decreases s.len() - k,
{
    if k < s.len() && is_seg_byte(s[k]) {
        lemma_seg_end(s, k + 1);
    }
}

/// A full identifier match begins at position `i`: the host prefix,
/// a nonempty organization segment, a slash, a nonempty name segment.
pub open spec fn match_at(s: Seq<u8>, i: int) -> bool {
    &&& host_at(s, i)
    &&& seg_end(s, i + 11) > i + 11
    &&& seg_end(s, i + 11) < s.len()
    &&& s[seg_end(s, i + 11)] == 47u8
    &&& seg_end(s, seg_end(s, i + 11) + 1) > seg_end(s, i + 11) + 1
}

/// The organization segment of the match at `i`.
pub open spec fn match_org(s: Seq<u8>, i: int) -> Seq<u8> {
    s.subrange(i + 11, seg_end(s, i + 11))
}

/// The name segment of the match at `i`.
pub open spec fn match_name(s: Seq<u8>, i: int) -> Seq<u8> {
    s.subrange(seg_end(s, i + 11) + 1, seg_end(s, seg_end(s, i + 11) + 1))
}

/// The position just past the match at `i`; the scan resumes here.
pub open spec fn match_end(s: Seq<u8>, i: int) -> int {
    seg_end(s, seg_end(s, i + 11) + 1)
}

/// All identifiers found at or after position `i`, in order of appearance,
/// one entry per occurrence. At each position the scan either takes the
/// match that starts there and resumes past it, or moves one byte ahead.
pub open spec fn scan_from(s: Seq<u8>, i: int) -> Seq<(Seq<u8>, Seq<u8>)>
    decreases s.len() - i,
    via scan_from_decreases
{
    if i >= s.len() {
        Seq::empty()
    } else if match_at(s, i) {
        seq![(match_org(s, i), match_name(s, i))] + scan_from(s, match_end(s, i))
    } else {
        scan_from(s, i + 1)
    }
}

#[via_fn]
proof fn scan_from_decreases(s: Seq<u8>, i: int) {
    if i < s.len() && match_at(s, i) {
        lemma_seg_end(s, seg_end(s, i + 11) + 1);
        lemma_seg_end(s, i + 11);
    }
}

/// The identifiers of `v` are exactly the entries of `m`, in order.
pub open spec fn ids_match(v: Seq<RepoId>, m: Seq<(Seq<u8>, Seq<u8>)>) -> bool {
    &&& v.len() == m.len()
    &&& forall|k: int| 0 <= k < m.len() ==> #[trigger] v[k]@ == m[k]
}

/// Copies `s[a..b]` into a fresh vector.
pub(crate) fn bytes_range(s: &[u8], a: usize, b: usize) -> (r: Vec<u8>)
    requires
        a <= b <= s@.len(),
    ensures
        r@ == s@.subrange(a as int, b as int),
{
    let mut r: Vec<u8> = Vec::new();
    let mut t: usize = a;
    while t < b
        invariant
            a <= t <= b <= s@.len(),
            r@ == s@.subrange(a as int, t as int),
        decreases b - t,
    {
        r.push(s[t]);
        assert(s@.subrange(a as int, t + 1 as int) =~= s@.subrange(a as int, t as int).push(
            s@[t as int],
        ));
        t = t + 1;
    }
    r
}

/// Copies the bytes of `v` into a fresh vector.
pub(crate) fn copy_bytes(v: &Vec<u8>) -> (r: Vec<u8>)
    ensures
        r@ == v@,
{
    let r = bytes_range(v.as_slice(), 0, v.len());
    proof {
        assert(v@.subrange(0, v@.len() as int) =~= v@);
    }
    r
}

/// Finds the end of the run of segment bytes starting at `k`.
fn seg_run_end(s: &[u8], k: usize) -> (r: usize)
    requires
        k <= s@.len(),
    ensures
        r == seg_end(s@, k as int),
        k <= r <= s@.len(),
{
    let mut j: usize = k;
    while j < s.len() && (97 <= s[j] && s[j] <= 122 || 65 <= s[j] && s[j] <= 90 || 48 <= s[
        j
    ] && s[j] <= 57 || s[j] == 95u8 || s[j] == 46u8 || s[j] == 45u8)
        invariant
            k <= j <= s@.len(),
            seg_end(s@, k as int) == seg_end(s@, j as int),
        decreases s@.len() - j,
    {
        j = j + 1;
    }
    proof {
        lemma_seg_end(s@, k as int);
    }
    j
}

/// Tries to match a full identifier starting at position `i`. On success
/// returns the position of the slash between the segments and the position
/// just past the name segment.
fn try_match(s: &[u8], i: usize) -> (r: Option<(usize, usize)>)
    requires
        i < s@.len(),
    ensures
        r is None ==> !match_at(s@, i as int),
        r matches Some(jk) ==> match_at(s@, i as int) && jk.0 == seg_end(s@, i + 11) && jk.1
            == match_end(s@, i as int) && i + 11 < jk.0 && jk.0 + 1 < jk.1 && jk.1 <= s@.len(),
{
    if s.len() - i < 11 {
        return None;
    }
    if !(s[i] == 103u8 && s[i + 1] == 105u8 && s[i + 2] == 116u8 && s[i + 3] == 104u8 && s[i + 4]
        == 117u8 && s[i + 5] == 98u8 && s[i + 6] == 46u8 && s[i + 7] == 99u8 && s[i + 8] == 111u8
        && s[i + 9] == 109u8 && s[i + 10] == 47u8) {
        return None;
    }
    let j = seg_run_end(s, i + 11);
    if j == i + 11 {
        return None;
    }
    if j == s.len() {
        return None;
    }
    if s[j] != 47u8 {
        return None;
    }
    let k = seg_run_end(s, j + 1);
    if k == j + 1 {
        return None;
    }
    Some((j, k))
}

/// Extracts every repository identifier of the manifest text, in order of
/// appearance, one entry per occurrence. Both segments of every entry are
/// nonempty and hold only allowed segment bytes; text without a match
/// yields an empty result.
pub fn extract_github_repos(content: &[u8]) -> (r: Vec<RepoId>)
    ensures
        ids_match(r@, scan_from(content@, 0)),
        forall|k: int| 0 <= k < r@.len() ==> valid_segment((#[trigger] r@[k])@.0)
            && valid_segment(r@[k]@.1),
{
    let mut out: Vec<RepoId> = Vec::new();
    let mut i: usize = 0;
    let ghost mut processed: Seq<(Seq<u8>, Seq<u8>)> = Seq::empty();
    while i < content.len()
        invariant
            i <= content@.len(),
            ids_match(out@, processed),
            scan_from(content@, 0) == processed + scan_from(content@, i as int),
        decreases content@.len() - i,
    {
        match try_match(content, i) {
            Some((j, k)) => {
                let org = bytes_range(content, i + 11, j);
                let name = bytes_range(content, j + 1, k);
                proof {
                    assert(scan_from(content@, i as int) == seq![
                        (match_org(content@, i as int), match_name(content@, i as int)),
                    ] + scan_from(content@, k as int));
                    processed = processed + seq![(org@, name@)];
                    assert(scan_from(content@, 0) =~= processed + scan_from(
                        content@,
                        k as int,
                    ));
                }
                out.push(RepoId { org, name });
                i = k;
            },
            None => {
                proof {
                    assert(scan_from(content@, i as int) == scan_from(content@, i + 1));
                }
                i = i + 1;
            },
        }
    }
    proof {
        assert(scan_from(content@, i as int) =~= Seq::empty());
        assert(scan_from(content@, 0) =~= processed);
        lemma_scan_segments_valid(content@, 0);
        assert forall|k: int| 0 <= k < out@.len() implies valid_segment(
            (#[trigger] out@[k])@.0,
        ) && valid_segment(out@[k]@.1) by {
            assert(out@[k]@ == scan_from(content@, 0)[k]);
            assert(valid_segment((scan_from(content@, 0)[k]).0));
        }
    }
    out
}

/// Every entry of `m` has nonempty segments made only of allowed bytes.
pub open spec fn valid_entries(m: Seq<(Seq<u8>, Seq<u8>)>) -> bool {
    forall|k: int| 0 <= k < m.len() ==> valid_segment((#[trigger] m[k]).0) && valid_segment(
        m[k].1,
    )
}

/// Every identifier a scan produces has nonempty organization and name
/// segments made only of allowed segment bytes; no other substring ever
/// appears in the result.
pub proof fn lemma_scan_segments_valid(s: Seq<u8>, i: int)
    ensures
        valid_entries(scan_from(s, i)),
    decreases s.len() - i,
{
    if i >= s.len() {
        assert(valid_entries(scan_from(s, i)));
    } else if match_at(s, i) {
        lemma_seg_end(s, i + 11);
        lemma_seg_end(s, seg_end(s, i + 11) + 1);
        lemma_scan_segments_valid(s, match_end(s, i));
        assert(valid_segment(match_org(s, i)));
        assert(valid_segment(match_name(s, i)));
        assert forall|k: int| 0 <= k < scan_from(s, i).len() implies valid_segment(
            (#[trigger] scan_from(s, i)[k]).0,
        ) && valid_segment(scan_from(s, i)[k].1) by {
            if k == 0 {
                assert(scan_from(s, i)[0] == (match_org(s, i), match_name(s, i)));
            } else {
                assert(scan_from(s, i)[k] == scan_from(s, match_end(s, i))[k - 1]);
            }
        }
        assert(valid_entries(scan_from(s, i)));
    } else {
        lemma_scan_segments_valid(s, i + 1);
        assert forall|k: int| 0 <= k < scan_from(s, i).len() implies valid_segment(
            (#[trigger] scan_from(s, i)[k]).0,
        ) && valid_segment(scan_from(s, i)[k].1) by {
            assert(scan_from(s, i)[k] == scan_from(s, i + 1)[k]);
        }
        assert(valid_entries(scan_from(s, i)));
    }
}

} // verus!
