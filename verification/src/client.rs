//! The repository info client's computations: the request URLs for one
//! identifier, and the meaning of the two responses.
//!
//! The network calls themselves stay outside the library; callers hand in
//! each response's success flag and raw body. A repository without a
//! usable metadata response yields no info at all, while a failed
//! activity response only degrades the timestamp to the sentinel.

use vstd::prelude::*;

use crate::scanner::RepoId;
use crate::wrappers::{
    latest_commit_date_of, parse_latest_commit_date, parse_popularity, popularity_of,
};

verus! {

/// What the info client yields for one repository: the popularity count
/// and the latest activity timestamp, or the sentinel when none is known.
pub struct RepoInfo {
    pub popularity: u32,
    pub last_activity: Vec<u8>,
}

/// The sentinel that stands for a missing activity timestamp: `Unknown`.
pub open spec fn unknown_sentinel() -> Seq<u8> {
    seq![85u8, 110u8, 107u8, 110u8, 111u8, 119u8, 110u8]
}

/// Builds the sentinel timestamp value.
pub fn unknown_timestamp() -> (r: Vec<u8>)
    ensures
        r@ == unknown_sentinel(),
{
    let mut r: Vec<u8> = Vec::new();
    r.push(85);
    r.push(110);
    r.push(107);
    r.push(110);
    r.push(111);
    r.push(119);
    r.push(110);
    proof {
        assert(r@ =~= unknown_sentinel());
    }
    r
}

/// The fixed API root every request is addressed under:
/// `https://api.github.com/repos/`.
pub open spec fn api_root() -> Seq<u8> {
    seq![
        104u8, 116u8, 116u8, 112u8, 115u8, 58u8, 47u8, 47u8, 97u8, 112u8, 105u8, 46u8, 103u8,
        105u8, 116u8, 104u8, 117u8, 98u8, 46u8, 99u8, 111u8, 109u8, 47u8, 114u8, 101u8, 112u8,
        111u8, 115u8, 47u8,
    ]
}

/// The query that asks the activity endpoint for a single record:
/// `/commits?per_page=1`.
pub open spec fn commits_query() -> Seq<u8> {
    seq![
        47u8, 99u8, 111u8, 109u8, 109u8, 105u8, 116u8, 115u8, 63u8, 112u8, 101u8, 114u8, 95u8,
        112u8, 97u8, 103u8, 101u8, 61u8, 49u8,
    ]
}

/// Appends all of `src` to `dst`.
fn push_all(dst: &mut Vec<u8>, src: &[u8])
    ensures
        final(dst)@ == old(dst)@ + src@,
{
    let mut t: usize = 0;
    while t < src.len()
        invariant
            t <= src@.len(),
            dst@ == old(dst)@ + src@.subrange(0, t as int),
        decreases src@.len() - t,
    {
        dst.push(src[t]);
        assert(old(dst)@ + src@.subrange(0, t + 1 as int) =~= (old(dst)@ + src@.subrange(
            0,
            t as int,
        )).push(src@[t as int]));
        t = t + 1;
    }
    assert(src@.subrange(0, src@.len() as int) =~= src@);
}

/// Builds the API root bytes.
fn api_root_bytes() -> (r: Vec<u8>)
    ensures
        r@ == api_root(),
{
    let mut r: Vec<u8> = Vec::new();
    r.push(104);
    r.push(116);
    r.push(116);
    r.push(112);
    r.push(115);
    r.push(58);
    r.push(47);
    r.push(47);
    r.push(97);
    r.push(112);
    r.push(105);
    r.push(46);
    r.push(103);
    r.push(105);
    r.push(116);
    r.push(104);
    r.push(117);
    r.push(98);
    r.push(46);
    r.push(99);
    r.push(111);
    r.push(109);
    r.push(47);
    r.push(114);
    r.push(101);
    r.push(112);
    r.push(111);
    r.push(115);
    r.push(47);
    proof {
        assert(r@ =~= api_root());
    }
    r
}

/// The metadata URL of one repository: the API root, the organization, a
/// slash, the name.
pub fn metadata_url(id: &RepoId) -> (r: Vec<u8>)
    ensures
        r@ == api_root() + id.org@ + seq![47u8] + id.name@,
{
    let mut r = api_root_bytes();
    push_all(&mut r, id.org.as_slice());
    r.push(47);
    push_all(&mut r, id.name.as_slice());
    proof {
        assert(r@ =~= api_root() + id.org@ + seq![47u8] + id.name@);
    }
    r
}

/// The activity URL of one repository: its metadata URL followed by the
/// single-record query.
pub fn commits_url(id: &RepoId) -> (r: Vec<u8>)
    ensures
        r@ == api_root() + id.org@ + seq![47u8] + id.name@ + commits_query(),
{
    let mut r = metadata_url(id);
    let suffix = commits_query_bytes();
    push_all(&mut r, suffix.as_slice());
    r
}

/// Builds the single-record query bytes.
fn commits_query_bytes() -> (r: Vec<u8>)
    ensures
        r@ == commits_query(),
{
    let mut r: Vec<u8> = Vec::new();
    r.push(47);
    r.push(99);
    r.push(111);
    r.push(109);
    r.push(109);
    r.push(105);
    r.push(116);
    r.push(115);
    r.push(63);
    r.push(112);
    r.push(101);
    r.push(114);
    r.push(95);
    r.push(112);
    r.push(97);
    r.push(103);
    r.push(101);
    r.push(61);
    r.push(49);
    proof {
        assert(r@ =~= commits_query());
    }
    r
}

/// The metadata response's count: present exactly when the call succeeded
/// and its body denotes a count. Without one the repository is skipped.
pub fn interpret_metadata_response(success: bool, body: &[u8]) -> (r: Option<u32>)
    ensures
        success ==> r == popularity_of(body@),
        !success ==> r is None,
{
    if success {
        parse_popularity(body)
    } else {
        None
    }
}

/// The activity timestamp a response yields: the first record's timestamp
/// when the call succeeded and its body holds one, else the sentinel.
pub open spec fn commits_timestamp_spec(success: bool, body: Seq<u8>) -> Seq<u8> {
    if success {
        match latest_commit_date_of(body) {
            Some(d) => d,
            None => unknown_sentinel(),
        }
    } else {
        unknown_sentinel()
    }
}

/// Interprets the activity response. A failed call or a body without a
/// record degrades to the sentinel; it never drops the repository.
pub fn interpret_commits_response(success: bool, body: &[u8]) -> (r: Vec<u8>)
    ensures
        r@ == commits_timestamp_spec(success, body@),
{
    if success {
        match parse_latest_commit_date(body) {
            Some(d) => d,
            None => unknown_timestamp(),
        }
    } else {
        unknown_timestamp()
    }
}

} // verus!
