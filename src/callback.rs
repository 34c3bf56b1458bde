//! The query that the provider appends to the callback URL after the user has
//! authorized the application.

use vstd::prelude::*;
use crate::form::{query_pairs, query_pairs_of};
use crate::form::{unique_field, unique_value};

verus! {

/// The request token that was authorized, and the verifier that proves it.
#[derive(Debug, Clone)]
pub struct CallbackUrlQuery {
    pub oauth_token: String,
    pub oauth_verifier: String,
}

/// The token and verifier that the pairs of a callback query give, each
/// exactly once.
pub open spec fn callback_query_of(pairs: Seq<(Seq<char>, Seq<char>)>) -> Option<(Seq<char>, Seq<char>)> {
    match (unique_value(pairs, "oauth_token"@), unique_value(pairs, "oauth_verifier"@)) {
        (Some(t), Some(v)) => Some((t, v)),
        _ => None,
    }
}

/// The query of the URL `s`: none where `s` is not a URL, and an empty query
/// where the URL has none.
pub uninterp spec fn url_query_of(s: Seq<char>) -> Option<Option<Seq<char>>>;

/// Relies on `url::Url::parse` and `Url::query`: whether the text is a URL, and
/// its query, depend on the text alone.
#[verifier::external_body]
fn url_query(s: &str) -> (r: Result<Option<String>, url::ParseError>)
    ensures
        r matches Ok(q) ==> url_query_of(s@) == Some(
            match q {
                Some(x) => Some(x@),
                None => None::<Seq<char>>,
            },
        ),
        r is Err ==> url_query_of(s@) is None,
{
    Ok(url::Url::parse(s)?.query().map(|q| q.to_owned()))
}

/// The token and verifier that a callback query string gives.
pub open spec fn callback_of_query(q: Seq<char>) -> Option<(Seq<char>, Seq<char>)> {
    match query_pairs_of(q) {
        Some(p) => callback_query_of(p),
        None => None,
    }
}

/// The token and verifier that the callback URL `u` carries.
pub open spec fn callback_of_url(u: Seq<char>) -> Option<(Seq<char>, Seq<char>)> {
    match url_query_of(u) {
        Some(Some(q)) => callback_of_query(q),
        Some(None) => callback_of_query(seq![]),
        None => None,
    }
}

impl CallbackUrlQuery {
    /// Reads the query string of a callback URL.
    pub fn from_query_string(q: &str) -> (r: Option<CallbackUrlQuery>)
        ensures
            match r {
                Some(c) => callback_of_query(q@) == Some((c.oauth_token@, c.oauth_verifier@)),
                None => callback_of_query(q@) is None,
            },
    {
        match query_pairs(q) {
            Some(pairs) => {
                let token = unique_field(&pairs, "oauth_token");
                let verifier = unique_field(&pairs, "oauth_verifier");
                match (token, verifier) {
                    (Some(t), Some(v)) => Some(
                        CallbackUrlQuery { oauth_token: t.clone(), oauth_verifier: v.clone() },
                    ),
                    _ => None,
                }
            },
            None => None,
        }
    }

    /// Reads the callback URL that the user's browser was sent to.
    pub fn from_url(u: &str) -> (r: Option<CallbackUrlQuery>)
        ensures
            match r {
                Some(c) => callback_of_url(u@) == Some((c.oauth_token@, c.oauth_verifier@)),
                None => callback_of_url(u@) is None,
            },
    {
        match url_query(u) {
            Ok(Some(q)) => CallbackUrlQuery::from_query_string(q.as_str()),
            Ok(None) => {
                let empty = String::new();
                assert(empty@ =~= Seq::<char>::empty());
                CallbackUrlQuery::from_query_string(empty.as_str())
            },
            Err(_) => None,
        }
    }
}

} // verus!
