//! Bodies in the `application/x-www-form-urlencoded` format, read as the named
//! fields of a record.

use vstd::prelude::*;
use vstd::utf8::encode_utf8;
use crate::codec::{ascii_text, decode_query};
use crate::text::{last_value, pairs_view};

verus! {

#[verifier::external_type_specification]
#[verifier::external_body]
pub struct ExFormError(serde_urlencoded::de::Error);

/// The name-value pairs that `body` holds, in order, if it holds a form.
pub uninterp spec fn form_pairs_of(body: Seq<u8>) -> Option<Seq<(Seq<char>, Seq<char>)>>;

/// Relies on `serde_urlencoded::from_bytes` into a `Vec<(String, String)>`: the
/// pairs of the body in order, each name and value decoded; which pairs, or
/// whether it fails, depends on the bytes alone. The pairs come from
/// `form_urlencoded::parse`, which splits at `&` and skips empty pieces, splits a
/// piece at its first `=`, reads `+` as a space and `%` with two hexadecimal
/// digits as a byte; so where the body is ASCII and every name and value
/// decodes to UTF-8, the pairs are those that `decode_query` gives. Reading
/// pairs of strings out of those pieces does not fail.
#[verifier::external_body]
pub(crate) fn decode_form(body: &[u8]) -> (r: Result<Vec<(String, String)>, serde_urlencoded::de::Error>)
    ensures
        r matches Ok(v) ==> form_pairs_of(body@) == Some(pairs_view(v@)),
        ascii_text(body@) matches Some(t) ==> (decode_query(t) is Some ==> r is Ok),
        r matches Ok(v) ==> (ascii_text(body@) matches Some(t) ==> (decode_query(t) matches Some(p)
            ==> pairs_view(v@) == p)),
        r is Err ==> form_pairs_of(body@) is None,
{
    serde_urlencoded::from_bytes::<Vec<(String, String)>>(body)
}

/// The pairs that the query string `q` holds, if it holds a form.
pub open spec fn query_pairs_of(q: Seq<char>) -> Option<Seq<(Seq<char>, Seq<char>)>> {
    form_pairs_of(encode_utf8(q))
}

/// Reads the pairs out of the query string `q`.
pub fn query_pairs(q: &str) -> (r: Option<Vec<(String, String)>>)
    ensures
        match r {
            Some(v) => query_pairs_of(q@) == Some(pairs_view(v@)),
            None => query_pairs_of(q@) is None,
        },
        ascii_text(encode_utf8(q@)) matches Some(t) ==> (decode_query(t) matches Some(p) ==> (
        r matches Some(v) && pairs_view(v@) == p)),
{
    match decode_form(q.as_bytes()) {
        Ok(v) => Some(v),
        Err(_) => None,
    }
}

/// How many pairs are named `key`.
pub open spec fn key_count(pairs: Seq<(Seq<char>, Seq<char>)>, key: Seq<char>) -> nat
    decreases pairs.len(),
{
    if pairs.len() == 0 {
        0
    } else {
        key_count(pairs.drop_last(), key) + if pairs.last().0 == key {
            1nat
        } else {
            0nat
        }
    }
}

/// The value of the one pair named `key`; none where no pair or several are.
pub open spec fn unique_value(pairs: Seq<(Seq<char>, Seq<char>)>, key: Seq<char>) -> Option<Seq<char>> {
    if key_count(pairs, key) == 1 {
        last_value(pairs, key)
    } else {
        None
    }
}

/// How many pairs are named `key`, and the value of the last of them.
pub fn find_field<'a>(pairs: &'a Vec<(String, String)>, key: &str) -> (r: (usize, Option<&'a String>))
    ensures
        r.0 == key_count(pairs_view(pairs@), key@),
        match r.1 {
            Some(v) => last_value(pairs_view(pairs@), key@) == Some(v@),
            None => last_value(pairs_view(pairs@), key@) is None,
        },
{
    let ghost pv = pairs_view(pairs@);
    let mut count: usize = 0;
    let mut found: Option<usize> = None;
    let mut i: usize = 0;
    while i < pairs.len()
        invariant
            i <= pairs.len(),
            pv == pairs_view(pairs@),
            count == key_count(pv.take(i as int), key@),
            count <= i,
            match found {
                Some(j) => j < i && last_value(pv.take(i as int), key@) == Some(pv[j as int].1),
                None => last_value(pv.take(i as int), key@) is None,
            },
        decreases pairs.len() - i,
    {
        let ghost t = pv.take(i + 1);
        assert(t.drop_last() =~= pv.take(i as int));
        assert(t.last() == pv[i as int]);
        if crate::text::str_eq(pairs[i].0.as_str(), key) {
            count = count + 1;
            found = Some(i);
        }
        i = i + 1;
    }
    assert(pv.take(pairs.len() as int) =~= pv);
    match found {
        Some(j) => (count, Some(&pairs[j].1)),
        None => (count, None),
    }
}

/// The value of the one pair named `key`.
pub fn unique_field<'a>(pairs: &'a Vec<(String, String)>, key: &str) -> (r: Option<&'a String>)
    ensures
        match r {
            Some(v) => unique_value(pairs_view(pairs@), key@) == Some(v@),
            None => unique_value(pairs_view(pairs@), key@) is None,
        },
{
    let (count, last) = find_field(pairs, key);
    if count == 1 {
        last
    } else {
        None
    }
}

} // verus!
