//! Identifiers made up locally: conversation ids and reference ids, each a
//! readable prefix followed by eight hex digits of a fresh UUID.

use vstd::prelude::*;
use vstd::string::{StrSliceExecFns, StringExecFns};
use crate::text::{lemma_signed_decimal_injective, push_char, push_signed_decimal, signed_decimal};

verus! {

pub open spec fn is_lower_hex(c: char) -> bool {
    ('0' <= c && c <= '9') || ('a' <= c && c <= 'f')
}

/// The hyphenated lower-case form of a UUID: 36 characters, hyphens at
/// positions 8, 13, 18 and 23, hex digits elsewhere.
pub open spec fn is_hyphenated_uuid(s: Seq<char>) -> bool {
    &&& s.len() == 36
    &&& forall|i: int|
        0 <= i < 36 ==> if i == 8 || i == 13 || i == 18 || i == 23 {
            #[trigger] s[i] == '-'
        } else {
            is_lower_hex(s[i])
        }
}

/// A token of eight lower-case hex digits.
pub open spec fn is_token(t: Seq<char>) -> bool {
    t.len() == 8 && forall|i: int| 0 <= i < 8 ==> is_lower_hex(#[trigger] t[i])
}

pub open spec fn conversation_id_of(timestamp: int, token: Seq<char>) -> Seq<char> {
    "CONV_"@ + signed_decimal(timestamp) + "_"@ + token
}

pub open spec fn reference_id_of(prefix: Seq<char>, token: Seq<char>) -> Seq<char> {
    prefix + "_"@ + token
}

/// What a generated conversation id is: `CONV_`, a Unix timestamp in
/// decimal, `_` and a token of eight hex digits.
pub open spec fn is_generated_conversation_id(s: Seq<char>) -> bool {
    exists|ts: i64, t: Seq<char>| is_token(t) && s == #[trigger] conversation_id_of(ts as int, t)
}

/// A conversation id determines the timestamp and the token it was built
/// from: ids built from different timestamps or different tokens differ.
pub proof fn lemma_conversation_id_injective(ts1: int, t1: Seq<char>, ts2: int, t2: Seq<char>)
    requires
        is_token(t1),
        is_token(t2),
        conversation_id_of(ts1, t1) == conversation_id_of(ts2, t2),
    ensures
        ts1 == ts2,
        t1 == t2,
{
    reveal_strlit("CONV_");
    reveal_strlit("_");
    let s = conversation_id_of(ts1, t1);
    let d1 = signed_decimal(ts1);
    let d2 = signed_decimal(ts2);
    assert(s =~= "CONV_"@ + d1 + "_"@ + t1);
    assert(s =~= "CONV_"@ + d2 + "_"@ + t2);
    assert(d1.len() == d2.len());
    assert(t1 =~= s.subrange(s.len() - 8, s.len() as int));
    assert(t2 =~= s.subrange(s.len() - 8, s.len() as int));
    assert(d1 =~= s.subrange(5, 5 + d1.len() as int));
    assert(d2 =~= s.subrange(5, 5 + d2.len() as int));
    lemma_signed_decimal_injective(ts1, ts2);
}

/// Every conversation id starts with `CONV_` and is not empty.
pub proof fn lemma_conversation_id_prefix(ts: int, t: Seq<char>)
    ensures
        conversation_id_of(ts, t).len() > 5,
        conversation_id_of(ts, t).subrange(0, 5) == "CONV_"@,
{
    reveal_strlit("CONV_");
    reveal_strlit("_");
    assert(conversation_id_of(ts, t).subrange(0, 5) =~= "CONV_"@);
}

/// Relies on `uuid::Uuid::new_v4` and its `Display` impl, which writes the
/// hyphenated lower-case form.
#[verifier::external_body]
fn fresh_uuid_text() -> (r: String)
    ensures
        is_hyphenated_uuid(r@),
{
    uuid::Uuid::new_v4().to_string()
}

/// Relies on `chrono::Local::now` and `DateTime::timestamp`: the current
/// time in seconds since the Unix epoch. `Utc::now`, which it reads, panics
/// on a clock before the epoch, so the value is never negative.
#[verifier::external_body]
fn unix_now() -> (r: i64)
    ensures
        r >= 0,
{
    chrono::Local::now().timestamp()
}

/// The first eight characters of a UUID's text.
pub fn token_of_uuid(uuid_text: &str) -> (r: String)
    requires
        uuid_text@.len() >= 8,
    ensures
        r@ == uuid_text@.take(8),
{
    let mut s = String::new();
    let mut i: usize = 0;
    while i < 8
        invariant
            0 <= i <= 8,
            uuid_text@.len() >= 8,
            s@ == uuid_text@.take(i as int),
        decreases 8 - i,
    {
        let c = uuid_text.get_char(i);
        push_char(&mut s, c);
        assert(uuid_text@.take(i as int + 1) =~= uuid_text@.take(i as int).push(c));
        i = i + 1;
    }
    s
}

/// A fresh token of eight hex digits.
pub fn fresh_token() -> (r: String)
    ensures
        is_token(r@),
{
    let u = fresh_uuid_text();
    let t = token_of_uuid(u.as_str());
    assert forall|i: int| 0 <= i < 8 implies is_lower_hex(#[trigger] t@[i]) by {
        assert(t@[i] == u@[i]);
    }
    t
}

/// `CONV_{timestamp}_{token}`.
pub fn conversation_id_from(timestamp: i64, token: &str) -> (r: String)
    ensures
        r@ == conversation_id_of(timestamp as int, token@),
{
    let mut s = String::from_str("CONV_");
    push_signed_decimal(&mut s, timestamp);
    s.append("_");
    s.append(token);
    s
}

/// A new conversation id from the current time and a fresh token.
pub fn generate_conversation_id() -> (r: String)
    ensures
        is_generated_conversation_id(r@),
{
    let ts = unix_now();
    let token = fresh_token();
    let r = conversation_id_from(ts, token.as_str());
    assert(is_token(token@) && r@ == conversation_id_of(ts as int, token@));
    r
}

/// The caller's conversation id when it is not empty, else a generated one.
pub fn resolve_conversation_id(given: &str) -> (r: String)
    ensures
        given@.len() > 0 ==> r@ == given@,
        given@.len() == 0 ==> is_generated_conversation_id(r@),
        r@.len() > 0,
{
    if given.unicode_len() == 0 {
        let r = generate_conversation_id();
        proof {
            let (ts, t) = choose|ts: i64, t: Seq<char>|
                is_token(t) && r@ == #[trigger] conversation_id_of(ts as int, t);
            lemma_conversation_id_prefix(ts as int, t);
        }
        r
    } else {
        String::from_str(given)
    }
}

/// `{prefix}_{token}`.
pub fn reference_id_from(prefix: &str, token: &str) -> (r: String)
    ensures
        r@ == reference_id_of(prefix@, token@),
{
    let mut s = String::from_str(prefix);
    s.append("_");
    s.append(token);
    s
}

/// A new reference id: the prefix, an underscore and a fresh token.
pub fn generate_reference_id(prefix: &str) -> (r: String)
    ensures
        exists|t: Seq<char>| is_token(t) && r@ == reference_id_of(prefix@, t),
{
    let token = fresh_token();
    reference_id_from(prefix, token.as_str())
}

} // verus!
