//! Reading the failure body of the v1.1 API out of a JSON document.

use vstd::prelude::*;
use crate::json::{get_member, json_member, json_of, JsonValue};
use crate::objects::{ResponseBodyFail, ResponseBodyFailError};
use crate::text::{parse_i64, parse_i64_text};

verus! {

/// The code and message of one entry: an object with an integer `code` and a
/// string `message`.
pub open spec fn error_item_of(v: JsonValue) -> Option<(int, Seq<char>)> {
    match (json_member(v, "code"@), json_member(v, "message"@)) {
        (Some(JsonValue::Number(n)), Some(JsonValue::Str(m))) => match parse_i64(n@) {
            Some(c) => Some((c as int, m@)),
            None => None,
        },
        _ => None,
    }
}

/// The entries of `items`, if each of them is one.
pub open spec fn error_items_of(items: Seq<JsonValue>) -> Option<Seq<(int, Seq<char>)>>
    decreases items.len(),
{
    if items.len() == 0 {
        Some(seq![])
    } else {
        match (error_items_of(items.drop_last()), error_item_of(items.last())) {
            (Some(a), Some(b)) => Some(a.push(b)),
            _ => None,
        }
    }
}

/// The entries of a failure body: an object whose `errors` member is an array
/// of entries.
pub open spec fn envelope_of(v: JsonValue) -> Option<Seq<(int, Seq<char>)>> {
    match json_member(v, "errors"@) {
        Some(JsonValue::Array(items)) => error_items_of(items@),
        _ => None,
    }
}

/// The entries of the failure body that `body` holds, if it holds one.
pub open spec fn envelope_of_body(body: Seq<u8>) -> Option<Seq<(int, Seq<char>)>> {
    match json_of(body) {
        Some(v) => envelope_of(v),
        None => None,
    }
}

proof fn lemma_error_items_prefix(items: Seq<JsonValue>, k: int)
    requires
        0 <= k <= items.len(),
        error_items_of(items.take(k)) is None,
    ensures
        error_items_of(items) is None,
    decreases items.len() - k,
{
    if k < items.len() {
        assert(items.take(k + 1).drop_last() =~= items.take(k));
        lemma_error_items_prefix(items, k + 1);
    } else {
        assert(items.take(k) =~= items);
    }
}

fn error_item_from_json(v: &JsonValue) -> (r: Option<ResponseBodyFailError>)
    ensures
        match r {
            Some(e) => error_item_of(*v) == Some((e.code as int, e.message@)),
            None => error_item_of(*v) is None,
        },
{
    let code = match get_member(v, "code") {
        Some(JsonValue::Number(n)) => parse_i64_text(n.as_str()),
        _ => None,
    };
    let message = match get_member(v, "message") {
        Some(JsonValue::Str(m)) => Some(m.clone()),
        _ => None,
    };
    match (code, message) {
        (Some(code), Some(message)) => Some(ResponseBodyFailError { code, message }),
        _ => None,
    }
}

impl ResponseBodyFail {
    /// The failure body that the document `v` is, if it is one.
    pub fn from_json(v: &JsonValue) -> (r: Option<ResponseBodyFail>)
        ensures
            match r {
                Some(f) => envelope_of(*v) == Some(f.spec_errors()),
                None => envelope_of(*v) is None,
            },
    {
        match get_member(v, "errors") {
            Some(JsonValue::Array(items)) => {
                let mut errors: Vec<ResponseBodyFailError> = Vec::new();
                let mut i: usize = 0;
                assert(envelope_of(*v) == error_items_of(items@));
                while i < items.len()
                    invariant
                        i <= items.len(),
                        envelope_of(*v) == error_items_of(items@),
                        error_items_of(items@.take(i as int)) == Some(
                            errors@.map_values(
                                |e: ResponseBodyFailError| (e.code as int, e.message@),
                            ),
                        ),
                    decreases items.len() - i,
                {
                    let ghost t = items@.take(i + 1);
                    assert(t.drop_last() =~= items@.take(i as int));
                    assert(t.last() == items@[i as int]);
                    match error_item_from_json(&items[i]) {
                        Some(e) => {
                            errors.push(e);
                            assert(errors@.map_values(
                                |e: ResponseBodyFailError| (e.code as int, e.message@),
                            ) =~= pushed_entries(errors@));
                        },
                        None => {
                            proof {
                                lemma_error_items_prefix(items@, i + 1);
                            }
                            return None;
                        },
                    }
                    i = i + 1;
                }
                assert(items@.take(items.len() as int) =~= items@);
                Some(ResponseBodyFail { errors })
            },
            _ => None,
        }
    }
}

spec fn pushed_entries(errors: Seq<ResponseBodyFailError>) -> Seq<(int, Seq<char>)> {
    errors.drop_last().map_values(|e: ResponseBodyFailError| (e.code as int, e.message@)).push(
        (errors.last().code as int, errors.last().message@),
    )
}

} // verus!
