//! Pieces of the v2 API that the v1-style endpoints are built on: user and
//! tweet records, the problem-format failure body, and user lookup URLs.

use vstd::prelude::*;
use crate::json::{get_str_field, json_of, json_str_field, parse_json, JsonValue};
use crate::text::{decimal, u64_to_decimal};

verus! {

/// A user, with the fields that the library reads.
#[derive(Debug, Clone)]
pub struct User {
    pub id: Option<u64>,
    pub name: Option<String>,
    pub username: Option<String>,
    pub profile_image_url: Option<String>,
}

impl User {
    /// The user's handle.
    pub fn screen_name(&self) -> (r: Option<&String>)
        ensures
            match r {
                Some(s) => self.username matches Some(u) && s@ == u@,
                None => self.username is None,
            },
    {
        match &self.username {
            Some(u) => Some(u),
            None => None,
        }
    }
}

/// The body of a single-user lookup.
#[derive(Debug, Clone)]
pub struct SingleUserResponseBody {
    pub data: User,
}

/// The body of a multiple-user lookup.
#[derive(Debug, Clone)]
pub struct MultipleUsersResponseBody {
    pub data: Vec<User>,
}

/// The body of a created tweet.
#[derive(Debug, Clone)]
pub struct TweetsCreateResponseBody {
    pub data: TweetsCreateResponseBodyData,
}

#[derive(Debug, Clone)]
pub struct TweetsCreateResponseBodyData {
    pub id: u64,
    pub text: Option<String>,
}

/// A failure body in the problem format: a type URI, a title and a detail.
#[derive(Debug, Clone)]
pub struct ResponseBodyErrJson {
    pub problem_type: String,
    pub title: String,
    pub detail: String,
}

pub const URL_FOR_TWEETS_CREATE: &'static str = "https://api.twitter.com/2/tweets";

/// The type, title and detail that a problem document gives, each a string.
pub open spec fn problem_of(v: JsonValue) -> Option<(Seq<char>, Seq<char>, Seq<char>)> {
    match (json_str_field(v, "type"@), json_str_field(v, "title"@), json_str_field(v, "detail"@)) {
        (Some(t), Some(ti), Some(d)) => Some((t, ti, d)),
        _ => None,
    }
}

/// The problem that `body` holds, if it holds one.
pub open spec fn problem_of_body(body: Seq<u8>) -> Option<(Seq<char>, Seq<char>, Seq<char>)> {
    match json_of(body) {
        Some(v) => problem_of(v),
        None => None,
    }
}

impl ResponseBodyErrJson {
    pub open spec fn spec_fields(&self) -> (Seq<char>, Seq<char>, Seq<char>) {
        (self.problem_type@, self.title@, self.detail@)
    }

    /// The problem that the document `v` is, if it is one.
    pub fn from_json(v: &JsonValue) -> (r: Option<ResponseBodyErrJson>)
        ensures
            match r {
                Some(e) => problem_of(*v) == Some(e.spec_fields()),
                None => problem_of(*v) is None,
            },
    {
        match (get_str_field(v, "type"), get_str_field(v, "title"), get_str_field(v, "detail")) {
            (Some(problem_type), Some(title), Some(detail)) => Some(
                ResponseBodyErrJson { problem_type, title, detail },
            ),
            _ => None,
        }
    }
}

impl ResponseBodyErrJson {
    /// The problem that `body` holds, if it holds one.
    pub fn from_body(body: &[u8]) -> (r: Option<ResponseBodyErrJson>)
        ensures
            match r {
                Some(e) => problem_of_body(body@) == Some(e.spec_fields()),
                None => problem_of_body(body@) is None,
            },
    {
        match parse_json(body) {
            Ok(v) => ResponseBodyErrJson::from_json(&v),
            Err(_) => None,
        }
    }
}

/// The lookup URL of the user with the given id.
pub fn url_for_user_by_id(id: u64) -> (r: String)
    ensures
        r@ == "https://api.twitter.com/2/users/"@ + decimal(id as nat),
{
    let mut r = String::from_str("https://api.twitter.com/2/users/");
    let digits = u64_to_decimal(id);
    r.append(digits.as_str());
    r
}

/// The lookup URL of the user with the given handle.
pub fn url_for_user_by_username(username: &str) -> (r: String)
    ensures
        r@ == "https://api.twitter.com/2/users/by/username/"@ + username@,
{
    let mut r = String::from_str("https://api.twitter.com/2/users/by/username/");
    r.append(username);
    r
}

} // verus!
