//! The first step: obtaining a request token for a callback URL.

use vstd::prelude::*;
use crate::endpoints::common::{
    is_other_response, parse_other, sign_error, BodyError, EndpointError, EndpointRet,
};
use crate::form::{decode_form, form_pairs_of, unique_field, unique_value};
use crate::objects::{AuthenticationRequestToken, ConsumerKey};
use crate::signer::{authorization_prefix, sign_post_request, HttpMethod, HttpRequest};
use crate::text::{contains, last_value, pairs_view, parse_bool, parse_bool_text};

verus! {

pub const URL: &'static str = "https://api.twitter.com/oauth/request_token";

/// The request-token step: signed with the consumer secrets alone.
#[derive(Debug, Clone)]
pub struct RequestTokenEndpoint {
    pub consumer_key: ConsumerKey,
    pub oauth_callback: String,
    pub x_auth_access_type: Option<String>,
}

/// The parameters of the request-token step.
#[derive(Debug, Clone)]
pub struct RequestTokenRequestQuery {
    pub oauth_callback: String,
    pub x_auth_access_type: Option<String>,
}

/// The body of a successful request-token response.
#[derive(Debug, Clone)]
pub struct RequestTokenResponseBody {
    pub oauth_token: String,
    pub oauth_token_secret: String,
    pub oauth_callback_confirmed: bool,
}

impl RequestTokenRequestQuery {
    /// The parameters as pairs: the callback, then the access type if set.
    pub open spec fn spec_pairs(&self) -> Seq<(Seq<char>, Seq<char>)> {
        seq![("oauth_callback"@, self.oauth_callback@)] + match self.x_auth_access_type {
            Some(t) => seq![("x_auth_access_type"@, t@)],
            None => seq![],
        }
    }

    pub fn to_pairs(&self) -> (r: Vec<(String, String)>)
        ensures
            pairs_view(r@) == self.spec_pairs(),
    {
        let mut r: Vec<(String, String)> = Vec::new();
        r.push(("oauth_callback".to_owned(), self.oauth_callback.clone()));
        match &self.x_auth_access_type {
            Some(t) => r.push(("x_auth_access_type".to_owned(), t.clone())),
            None => {},
        }
        assert(pairs_view(r@) =~= self.spec_pairs());
        r
    }
}

impl RequestTokenResponseBody {
    pub open spec fn spec_fields(&self) -> (Seq<char>, Seq<char>, bool) {
        (self.oauth_token@, self.oauth_token_secret@, self.oauth_callback_confirmed)
    }

    /// The request token and its secret.
    pub fn authentication_request_token(&self) -> (r: AuthenticationRequestToken)
        ensures
            r.request_token@ == self.oauth_token@,
            r.secret@ == self.oauth_token_secret@,
    {
        AuthenticationRequestToken::new(self.oauth_token.as_str(), self.oauth_token_secret.as_str())
    }
}

/// The record that the pairs of a success body make: each field exactly once,
/// the confirmation `true` or `false`.
pub open spec fn request_token_body_of(pairs: Seq<(Seq<char>, Seq<char>)>) -> Option<
    (Seq<char>, Seq<char>, bool),
> {
    match (
        unique_value(pairs, "oauth_token"@),
        unique_value(pairs, "oauth_token_secret"@),
        unique_value(pairs, "oauth_callback_confirmed"@),
    ) {
        (Some(t), Some(s), Some(c)) => match parse_bool(c) {
            Some(b) => Some((t, s, b)),
            None => None,
        },
        _ => None,
    }
}

/// The record that a success body holds, if it holds one.
pub open spec fn request_token_body_of_bytes(body: Seq<u8>) -> Option<(Seq<char>, Seq<char>, bool)> {
    match form_pairs_of(body) {
        Some(p) => request_token_body_of(p),
        None => None,
    }
}

/// The record that the pairs of a success body make, in whatever order they come.
pub fn request_token_body_from_pairs(pairs: &Vec<(String, String)>) -> (r: Result<
    RequestTokenResponseBody,
    BodyError,
>)
    ensures
        match r {
            Ok(b) => request_token_body_of(pairs_view(pairs@)) == Some(b.spec_fields()),
            Err(_) => request_token_body_of(pairs_view(pairs@)) is None,
        },
{
    let token = match unique_field(pairs, "oauth_token") {
        Some(t) => t,
        None => return Err(BodyError::Field("oauth_token".to_owned())),
    };
    let secret = match unique_field(pairs, "oauth_token_secret") {
        Some(s) => s,
        None => return Err(BodyError::Field("oauth_token_secret".to_owned())),
    };
    let confirmed = match unique_field(pairs, "oauth_callback_confirmed") {
        Some(c) => match parse_bool_text(c.as_str()) {
            Some(b) => b,
            None => return Err(BodyError::Field("oauth_callback_confirmed".to_owned())),
        },
        None => return Err(BodyError::Field("oauth_callback_confirmed".to_owned())),
    };
    Ok(
        RequestTokenResponseBody {
            oauth_token: token.clone(),
            oauth_token_secret: secret.clone(),
            oauth_callback_confirmed: confirmed,
        },
    )
}

proof fn lemma_request_token_pairs(q: RequestTokenRequestQuery)
    ensures
        crate::signer::signable_pairs(q.spec_pairs()),
        last_value(q.spec_pairs(), "oauth_callback"@) == Some(q.oauth_callback@),
        crate::signer::plain_pairs(q.spec_pairs()) == match q.x_auth_access_type {
            Some(t) => seq![("x_auth_access_type"@, t@)],
            None => Seq::<(Seq<char>, Seq<char>)>::empty(),
        },
{
    reveal_strlit("oauth_callback");
    reveal_strlit("x_auth_access_type");
    reveal_strlit("oauth_");
    reveal_strlit("realm");
    let p = q.spec_pairs();
    let cb = seq![("oauth_callback"@, q.oauth_callback@)];
    assert("oauth_"@.is_prefix_of("oauth_callback"@));
    assert(!("oauth_"@.is_prefix_of("x_auth_access_type"@))) by {
        assert("x_auth_access_type"@[0] != "oauth_"@[0]);
    }
    assert("x_auth_access_type"@ != "oauth_callback"@) by {
        assert("x_auth_access_type"@.len() != "oauth_callback"@.len());
    }
    assert("x_auth_access_type"@ != "realm"@) by {
        assert("x_auth_access_type"@.len() != "realm"@.len());
    }
    assert(cb.drop_last() =~= Seq::<(Seq<char>, Seq<char>)>::empty());
    assert(cb.last() == ("oauth_callback"@, q.oauth_callback@));
    assert(crate::signer::is_oauth_key(cb.last().0));
    assert(crate::signer::plain_pairs(cb.drop_last()).len() == 0);
    assert(crate::signer::plain_pairs(cb) =~= Seq::<(Seq<char>, Seq<char>)>::empty());
    assert(last_value(cb, "oauth_callback"@) == Some(q.oauth_callback@));
    assert(crate::signer::is_signable_key("x_auth_access_type"@));
    assert(crate::signer::is_signable_key("oauth_callback"@));
    match q.x_auth_access_type {
        Some(t) => {
            assert(p.drop_last() =~= cb);
            assert(p.last() == ("x_auth_access_type"@, t@));
            assert(!crate::signer::is_oauth_key(p.last().0));
            assert(crate::signer::plain_pairs(p) =~= seq![("x_auth_access_type"@, t@)]);
        },
        None => {
            assert(p =~= cb);
        },
    }
}

impl RequestTokenEndpoint {
    pub fn new(consumer_key: ConsumerKey, oauth_callback: &str) -> (r: Self)
        ensures
            r.consumer_key == consumer_key,
            r.oauth_callback@ == oauth_callback@,
            r.x_auth_access_type is None,
    {
        RequestTokenEndpoint { consumer_key, oauth_callback: oauth_callback.to_owned(), x_auth_access_type: None }
    }

    pub fn with_x_auth_access_type(self, x_auth_access_type: &str) -> (r: Self)
        ensures
            r.consumer_key == self.consumer_key,
            r.oauth_callback == self.oauth_callback,
            r.x_auth_access_type matches Some(t) && t@ == x_auth_access_type@,
    {
        RequestTokenEndpoint { x_auth_access_type: Some(x_auth_access_type.to_owned()), ..self }
    }

    /// A signed `POST` to the request-token URL. The callback goes into the
    /// `Authorization` header, which begins with it and the consumer key; the
    /// access type, if set, is the only parameter left in the query. No token is
    /// sent: the request is signed with the consumer secrets alone.
    pub fn render_request(&self) -> (r: Result<HttpRequest, EndpointError>)
        ensures
            r is Ok,
            r matches Ok(req) ==> {
                &&& req.method == HttpMethod::Post
                &&& req.uri@ == match self.x_auth_access_type {
                    Some(t) => URL@ + seq!['?'] + crate::codec::pair_text(
                        ("x_auth_access_type"@, t@),
                    ),
                    None => URL@,
                }
                &&& (req.authorization matches Some(a) && authorization_prefix(
                    Some(self.oauth_callback@),
                    self.consumer_key.key@,
                ).is_prefix_of(a@) && !contains(a@, "oauth_token=\""@))
            },
    {
        let query = RequestTokenRequestQuery {
            oauth_callback: self.oauth_callback.clone(),
            x_auth_access_type: match &self.x_auth_access_type {
                Some(t) => Some(t.clone()),
                None => None,
            },
        };
        let pairs = query.to_pairs();
        let secrets = self.consumer_key.secrets();
        proof {
            lemma_request_token_pairs(query);
            if let Some(t) = &self.x_auth_access_type {
                let pp = seq![("x_auth_access_type"@, t@)];
                assert(pp.len() == 1);
                assert(crate::codec::query_string(pp) == crate::codec::pair_text(pp[0]));
            }
        }
        match sign_post_request(URL, &secrets, &pairs) {
            Ok(req) => Ok(req),
            Err(e) => Err(sign_error(e)),
        }
    }

    /// Reads a response: a form body for status 200, else a failure.
    pub fn parse_response(&self, status: u16, body: Vec<u8>) -> (r: Result<
        EndpointRet<RequestTokenResponseBody>,
        EndpointError,
    >)
        ensures
            status == 200 ==> match r {
                Ok(ret) => (ret matches EndpointRet::Success(b) && request_token_body_of_bytes(body@)
                    == Some(b.spec_fields())),
                Err(e) => e is DeResponseBodyOkFailed && request_token_body_of_bytes(body@) is None,
            },
            status != 200 ==> (r matches Ok(ret) && is_other_response(ret, status, body@)),
    {
        if status == 200 {
            match decode_form(body.as_slice()) {
                Ok(pairs) => match request_token_body_from_pairs(&pairs) {
                    Ok(b) => Ok(EndpointRet::Success(b)),
                    Err(e) => Err(EndpointError::DeResponseBodyOkFailed(e)),
                },
                Err(e) => Err(EndpointError::DeResponseBodyOkFailed(BodyError::Form(e))),
            }
        } else {
            Ok(parse_other(status, body))
        }
    }
}

} // verus!
