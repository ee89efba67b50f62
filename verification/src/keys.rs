//! The key and topic conventions of the shared store.
//!
//! A public session lives under its bare id, which also names its topic.
//! An owned session lives under `user:<user_id>:session:<session_id>`, with
//! the topic identical to the key; enumeration scans
//! `user:<user_id>:session:*` and strips the prefix to recover the bare
//! session id.  Credential material lives under fixed dotted keys.

use vstd::prelude::*;

use crate::text::{spec_has_prefix, strip_prefix};

verus! {

/// The key prefix of one user's sessions.
pub open spec fn spec_user_session_prefix(user_id: Seq<char>) -> Seq<char> {
    "user:"@ + user_id + ":session:"@
}

fn user_session_prefix(user_id: &str) -> (r: String)
    ensures
        r@ == spec_user_session_prefix(user_id@),
{
    let mut s = String::from_str("user:");
    s.append(user_id);
    s.append(":session:");
    proof {
        assert(s@ =~= spec_user_session_prefix(user_id@));
    }
    s
}

/// The store key (and topic) of one owned session.
pub open spec fn spec_user_session_key(user_id: Seq<char>, session_id: Seq<char>) -> Seq<char> {
    spec_user_session_prefix(user_id) + session_id
}

pub fn user_session_key(user_id: &str, session_id: &str) -> (r: String)
    ensures
        r@ == spec_user_session_key(user_id@, session_id@),
{
    let mut s = user_session_prefix(user_id);
    s.append(session_id);
    s
}

/// The scan pattern matching every session key of one user.
pub fn user_session_pattern(user_id: &str) -> (r: String)
    ensures
        r@ == spec_user_session_prefix(user_id@) + "*"@,
{
    let mut s = user_session_prefix(user_id);
    s.append("*");
    s
}

/// The store key of one user's record.
pub fn user_data_key(user_id: &str) -> (r: String)
    ensures
        r@ == "user:"@ + user_id@ + ":data"@,
{
    let mut s = String::from_str("user:");
    s.append(user_id);
    s.append(":data");
    proof {
        assert(s@ =~= "user:"@ + user_id@ + ":data"@);
    }
    s
}

pub fn rsa_private_pem_key() -> (r: String)
    ensures
        r@ == ".realtime-svg:rsa:private_pem"@,
{
    String::from_str(".realtime-svg:rsa:private_pem")
}

pub fn rsa_public_pem_key() -> (r: String)
    ensures
        r@ == ".realtime-svg:rsa:public_pem"@,
{
    String::from_str(".realtime-svg:rsa:public_pem")
}

pub fn password_salt_key() -> (r: String)
    ensures
        r@ == ".realtime-svg:password_salt"@,
{
    String::from_str(".realtime-svg:password_salt")
}

/// The bare session id an owned-session key carries for this user, if the
/// key is one of this user's.
pub open spec fn spec_session_id_of_key(key: Seq<char>, user_id: Seq<char>) -> Option<Seq<char>> {
    let pre = spec_user_session_prefix(user_id);
    if spec_has_prefix(key, pre) {
        Some(key.subrange(pre.len() as int, key.len() as int))
    } else {
        None
    }
}

pub fn session_id_of_key(key: &str, user_id: &str) -> (r: Option<String>)
    ensures
        match r {
            Some(sid) => spec_session_id_of_key(key@, user_id@) == Some(sid@),
            None => spec_session_id_of_key(key@, user_id@) is None,
        },
{
    let pre = user_session_prefix(user_id);
    let r = strip_prefix(key, pre.as_str());
    proof {
        if r is Some {
            assert(key@.subrange(pre@.len() as int, key@.len() as int) =~= r->Some_0@);
        }
    }
    r
}

/// The session ids recovered from a scanned key list, in scan order: one
/// per key carrying this user's prefix.
pub open spec fn spec_extract_session_ids(keys: Seq<Seq<char>>, user_id: Seq<char>) -> Seq<
    Seq<char>,
>
    decreases keys.len(),
{
    if keys.len() == 0 {
        Seq::empty()
    } else {
        let rest = spec_extract_session_ids(keys.drop_last(), user_id);
        match spec_session_id_of_key(keys.last(), user_id) {
            Some(sid) => rest.push(sid),
            None => rest,
        }
    }
}

pub fn extract_session_ids(keys: &Vec<String>, user_id: &str) -> (r: Vec<String>)
    ensures
        r.deep_view() == spec_extract_session_ids(keys.deep_view(), user_id@),
{
    let n = keys.len();
    let mut out: Vec<String> = Vec::new();
    let mut i: usize = 0;
    while i < n
        invariant
            i <= n,
            n == keys@.len(),
            out.deep_view() == spec_extract_session_ids(
                keys.deep_view().take(i as int),
                user_id@,
            ),
        decreases n - i,
    {
        let ghost pre = out.deep_view();
        match session_id_of_key(keys[i].as_str(), user_id) {
            Some(sid) => {
                out.push(sid);
            },
            None => {},
        }
        proof {
            let kv = keys.deep_view();
            assert(kv.take(i + 1).drop_last() =~= kv.take(i as int));
            assert(kv.take(i + 1).last() == kv[i as int]);
            assert(out.deep_view() =~= spec_extract_session_ids(kv.take(i + 1), user_id@));
        }
        i += 1;
    }
    proof {
        assert(keys.deep_view().take(n as int) =~= keys.deep_view());
    }
    out
}

/// Stripping recovers exactly what the key construction put in: the key of
/// `(user_id, session_id)` strips back to `session_id` for that user.
pub proof fn lemma_key_round_trip(user_id: Seq<char>, session_id: Seq<char>)
    ensures
        spec_session_id_of_key(spec_user_session_key(user_id, session_id), user_id) == Some(
            session_id,
        ),
{
    let pre = spec_user_session_prefix(user_id);
    let key = spec_user_session_key(user_id, session_id);
    assert(key.subrange(0, pre.len() as int) =~= pre);
    assert(key.subrange(pre.len() as int, key.len() as int) =~= session_id);
}

/// The enumeration law: the extracted list carries a session id exactly as
/// often as the scanned key list carries that id's key for this user, so
/// `list` returns exactly the ids of the keys the store still holds under
/// the user's prefix.
pub proof fn lemma_extract_exact(keys: Seq<Seq<char>>, user_id: Seq<char>, sid: Seq<char>)
    ensures
        spec_extract_session_ids(keys, user_id).contains(sid) <==> keys.contains(
            spec_user_session_key(user_id, sid),
        ),
    decreases keys.len(),
{
    lemma_key_round_trip(user_id, sid);
    if keys.len() > 0 {
        lemma_extract_exact(keys.drop_last(), user_id, sid);
        let rest = spec_extract_session_ids(keys.drop_last(), user_id);
        let whole = spec_extract_session_ids(keys, user_id);
        let key = spec_user_session_key(user_id, sid);
        // A key stripping to `sid` for this user is exactly `key`.
        if spec_session_id_of_key(keys.last(), user_id) == Some(sid) {
            let pre = spec_user_session_prefix(user_id);
            assert(keys.last() =~= pre + keys.last().subrange(
                pre.len() as int,
                keys.last().len() as int,
            ));
            assert(keys.last() == key);
        }
        if whole.contains(sid) {
            match spec_session_id_of_key(keys.last(), user_id) {
                Some(got) => {
                    if got == sid {
                        assert(keys.contains(key)) by {
                            assert(keys.last() == key);
                            assert(keys[keys.len() - 1] == key);
                        }
                    } else {
                        assert(rest.push(got)[whole.len() - 1] == got);
                        let j = choose|j: int| 0 <= j < whole.len() && whole[j] == sid;
                        assert(rest[j] == sid);
                        assert(rest.contains(sid));
                        let k = choose|k: int|
                            0 <= k < keys.drop_last().len() && keys.drop_last()[k] == key;
                        assert(keys[k] == key);
                    }
                },
                None => {
                    let k = choose|k: int|
                        0 <= k < keys.drop_last().len() && keys.drop_last()[k] == key;
                    assert(keys[k] == key);
                },
            }
        }
        if keys.contains(key) {
            let k = choose|k: int| 0 <= k < keys.len() && keys[k] == key;
            if k < keys.len() - 1 {
                assert(keys.drop_last()[k] == key);
                assert(keys.drop_last().contains(key));
                assert(rest.contains(sid));
                let j = choose|j: int| 0 <= j < rest.len() && rest[j] == sid;
                match spec_session_id_of_key(keys.last(), user_id) {
                    Some(got) => {
                        assert(whole[j] == sid);
                    },
                    None => {
                        assert(whole[j] == sid);
                    },
                }
            } else {
                assert(keys.last() == key);
                assert(spec_session_id_of_key(key, user_id) == Some(sid));
                assert(whole.last() == sid);
            }
        }
    }
}

} // verus!
