//! Calls into outside crates, each behind a small trusted function.
//!
//! Each result here is a pure function of the call's arguments, so it is
//! given a name (an uninterpreted spec function), and each trusted
//! function's contract ties its result to that name. Verified callers
//! state their own contracts over these names.

use vstd::prelude::*;

verus! {

/// The string-to-string object that a JSON text denotes, when it denotes
/// one: keys and values as byte sequences.
pub uninterp spec fn json_string_map_of(s: Seq<u8>) -> Option<Map<Seq<u8>, Seq<u8>>>;

/// Relies on serde_json::from_slice to parse a JSON object whose values
/// are all strings. The result depends on the input bytes alone; the
/// entries come back as key-value pairs in no promised order.
#[verifier::external_body]
pub(crate) fn parse_json_string_map(content: &[u8]) -> (r: Option<Vec<(Vec<u8>, Vec<u8>)>>)
    ensures
        r is Some <==> json_string_map_of(content@) is Some,
        r matches Some(v) ==> (forall|k: int|
            0 <= k < v@.len() ==> json_string_map_of(content@)->Some_0.contains_pair(
                (#[trigger] v@[k]).0@,
                v@[k].1@,
            )),
        r matches Some(v) ==> (forall|key: Seq<u8>|
            #[trigger] json_string_map_of(content@)->Some_0.contains_key(key) ==> exists|k: int|
                0 <= k < v@.len() && (#[trigger] v@[k]).0@ == key),
{
    match serde_json::from_slice::<std::collections::HashMap<String, String>>(content) {
        Ok(m) => Some(m.into_iter().map(|(k, v)| (k.into_bytes(), v.into_bytes())).collect()),
        Err(_) => None,
    }
}

/// The popularity count that a repository metadata body denotes, when it
/// denotes one.
pub uninterp spec fn popularity_of(body: Seq<u8>) -> Option<u32>;

/// Relies on serde_json (from_slice, Value::get, Value::as_u64) to parse
/// the metadata body and read its unsigned `stargazers_count` field. The
/// result depends on the body alone.
#[verifier::external_body]
pub(crate) fn parse_popularity(body: &[u8]) -> (r: Option<u32>)
    ensures
        r == popularity_of(body@),
{
    let v: serde_json::Value = match serde_json::from_slice(body) {
        Ok(v) => v,
        Err(_) => return None,
    };
    match v.get("stargazers_count") {
        Some(n) => match n.as_u64() {
            Some(n) => u32::try_from(n).ok(),
            None => None,
        },
        None => None,
    }
}

/// The timestamp string of the first record of an activity-list body,
/// when the body holds one.
pub uninterp spec fn latest_commit_date_of(body: Seq<u8>) -> Option<Seq<u8>>;

/// Relies on serde_json (from_slice, Value::get, Value::as_str) to parse
/// the activity body as a record list and read the first record's
/// `commit.committer.date` string. The result depends on the body alone.
#[verifier::external_body]
pub(crate) fn parse_latest_commit_date(body: &[u8]) -> (r: Option<Vec<u8>>)
    ensures
        r is Some <==> latest_commit_date_of(body@) is Some,
        r matches Some(d) ==> d@ == latest_commit_date_of(body@)->Some_0,
{
    let v: serde_json::Value = match serde_json::from_slice(body) {
        Ok(v) => v,
        Err(_) => return None,
    };
    v.get(0)
        .and_then(|c| c.get("commit"))
        .and_then(|c| c.get("committer"))
        .and_then(|c| c.get("date"))
        .and_then(|d| d.as_str())
        .map(|s| s.as_bytes().to_vec())
}

/// The epoch-seconds moment of an RFC 3339 timestamp, when the bytes
/// parse as one.
pub uninterp spec fn rfc3339_epoch_of(s: Seq<u8>) -> Option<i64>;

/// Relies on chrono::DateTime::parse_from_rfc3339 and its `timestamp`
/// accessor. The result depends on the input bytes alone.
#[verifier::external_body]
pub(crate) fn parse_rfc3339_epoch(s: &[u8]) -> (r: Option<i64>)
    ensures
        r == rfc3339_epoch_of(s@),
{
    let t = match std::str::from_utf8(s) {
        Ok(t) => t,
        Err(_) => return None,
    };
    match chrono::DateTime::parse_from_rfc3339(t) {
        Ok(d) => Some(d.timestamp()),
        Err(_) => None,
    }
}

} // verus!
