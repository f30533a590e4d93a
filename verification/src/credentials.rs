//! Loading of account credentials from a key-value configuration text.
//!
//! The configuration is a flat JSON object of string fields. Loading
//! succeeds exactly when the text parses as such an object and both the
//! `username` and `token` fields are present; the loaded values are the
//! fields' values.

use vstd::prelude::*;

use crate::scanner::copy_bytes;
use crate::wrappers::{json_string_map_of, parse_json_string_map};

verus! {

/// The account credentials: a username and its token, as bytes.
pub struct Credentials {
    pub username: Vec<u8>,
    pub token: Vec<u8>,
}

/// The bytes of the field name `username`.
pub open spec fn username_key() -> Seq<u8> {
    seq![117u8, 115u8, 101u8, 114u8, 110u8, 97u8, 109u8, 101u8]
}

/// The bytes of the field name `token`.
pub open spec fn token_key() -> Seq<u8> {
    seq![116u8, 111u8, 107u8, 101u8, 110u8]
}

/// Whether `k` spells `username`.
fn is_username_key(k: &Vec<u8>) -> (r: bool)
    ensures
        r == (k@ == username_key()),
{
    let r = k.len() == 8 && k[0] == 117 && k[1] == 115 && k[2] == 101 && k[3] == 114 && k[4]
        == 110 && k[5] == 97 && k[6] == 109 && k[7] == 101;
    proof {
        if r {
            assert(k@ =~= username_key());
        }
    }
    r
}

/// Whether `k` spells `token`.
fn is_token_key(k: &Vec<u8>) -> (r: bool)
    ensures
        r == (k@ == token_key()),
{
    let r = k.len() == 5 && k[0] == 116 && k[1] == 111 && k[2] == 107 && k[3] == 101 && k[4]
        == 110;
    proof {
        if r {
            assert(k@ =~= token_key());
        }
    }
    r
}

/// Loads the credentials held in the configuration text. The result is
/// present exactly when the text denotes a string-to-string object that
/// carries both the `username` and the `token` field, and then holds
/// those two fields' values; any other text yields nothing.
pub fn load_github_credentials(content: &[u8]) -> (r: Option<Credentials>)
    ensures
        json_string_map_of(content@) is None ==> r is None,
        json_string_map_of(content@) matches Some(m) ==> (if m.contains_key(username_key())
            && m.contains_key(token_key()) {
            r matches Some(c) && c.username@ == m[username_key()] && c.token@ == m[token_key()]
        } else {
            r is None
        }),
{
    let pairs = match parse_json_string_map(content) {
        Some(p) => p,
        None => {
            return None;
        },
    };
    let ghost m = json_string_map_of(content@)->Some_0;
    let mut username: Option<Vec<u8>> = None;
    let mut token: Option<Vec<u8>> = None;
    let mut idx: usize = 0;
    while idx < pairs.len()
        invariant
            idx <= pairs@.len(),
            forall|k: int|
                0 <= k < pairs@.len() ==> m.contains_pair((#[trigger] pairs@[k]).0@, pairs@[k].1@),
            username matches Some(v) ==> m.contains_pair(username_key(), v@),
            username is None ==> (forall|k: int|
                0 <= k < idx ==> (#[trigger] pairs@[k]).0@ != username_key()),
            token matches Some(v) ==> m.contains_pair(token_key(), v@),
            token is None ==> (forall|k: int|
                0 <= k < idx ==> (#[trigger] pairs@[k]).0@ != token_key()),
        decreases pairs@.len() - idx,
    {
        let pair = &pairs[idx];
        if username.is_none() && is_username_key(&pair.0) {
            username = Some(copy_bytes(&pair.1));
        }
        if token.is_none() && is_token_key(&pair.0) {
            token = Some(copy_bytes(&pair.1));
        }
        idx = idx + 1;
    }
    match (username, token) {
        (Some(u), Some(t)) => Some(Credentials { username: u, token: t }),
        _ => {
            proof {
                if m.contains_key(username_key()) && m.contains_key(token_key()) {
                    assert(exists|k: int|
                        0 <= k < pairs@.len() && (#[trigger] pairs@[k]).0@ == username_key());
                    assert(exists|k: int|
                        0 <= k < pairs@.len() && (#[trigger] pairs@[k]).0@ == token_key());
                }
            }
            None
        },
    }
}

} // verus!
