//! The third step: exchanging an authorized request token for an access token.

use vstd::prelude::*;
use crate::endpoints::common::{
    is_other_response, parse_other, sign_error, BodyError, EndpointError, EndpointRet,
};
use crate::form::{decode_form, form_pairs_of, unique_field, unique_value};
use crate::objects::{AuthenticationAccessToken, AuthenticationRequestToken, ConsumerKey};
use crate::signer::{authorization_prefix, header_param, sign_post_request, HttpMethod, HttpRequest};
use crate::text::{contains, last_value, pairs_view, parse_u64, parse_u64_text};

verus! {

pub const URL: &'static str = "https://api.twitter.com/oauth/access_token";

/// The access-token step: signed with the consumer secrets and the request token.
#[derive(Debug, Clone)]
pub struct AccessTokenEndpoint {
    pub consumer_key: ConsumerKey,
    pub authentication_request_token: AuthenticationRequestToken,
    pub oauth_verifier: String,
}

/// The parameters of the access-token step.
#[derive(Debug, Clone)]
pub struct AccessTokenRequestQuery {
    pub oauth_verifier: String,
}

/// The body of a successful access-token response.
#[derive(Debug, Clone)]
pub struct AccessTokenResponseBody {
    pub oauth_token: String,
    pub oauth_token_secret: String,
    pub user_id: u64,
    pub screen_name: String,
}

impl AccessTokenRequestQuery {
    pub open spec fn spec_pairs(&self) -> Seq<(Seq<char>, Seq<char>)> {
        seq![("oauth_verifier"@, self.oauth_verifier@)]
    }

    pub fn to_pairs(&self) -> (r: Vec<(String, String)>)
        ensures
            pairs_view(r@) == self.spec_pairs(),
    {
        let mut r: Vec<(String, String)> = Vec::new();
        r.push(("oauth_verifier".to_owned(), self.oauth_verifier.clone()));
        assert(pairs_view(r@) =~= self.spec_pairs());
        r
    }
}

impl AccessTokenResponseBody {
    pub open spec fn spec_fields(&self) -> (Seq<char>, Seq<char>, u64, Seq<char>) {
        (self.oauth_token@, self.oauth_token_secret@, self.user_id, self.screen_name@)
    }

    /// The access token and its secret.
    pub fn authentication_access_token(&self) -> (r: AuthenticationAccessToken)
        ensures
            r.access_token@ == self.oauth_token@,
            r.secret@ == self.oauth_token_secret@,
    {
        AuthenticationAccessToken::new(self.oauth_token.as_str(), self.oauth_token_secret.as_str())
    }
}

/// The record that the pairs of a success body make: each field exactly once,
/// the user id a decimal `u64`.
pub open spec fn access_token_body_of(pairs: Seq<(Seq<char>, Seq<char>)>) -> Option<
    (Seq<char>, Seq<char>, u64, Seq<char>),
> {
    match (
        unique_value(pairs, "oauth_token"@),
        unique_value(pairs, "oauth_token_secret"@),
        unique_value(pairs, "user_id"@),
        unique_value(pairs, "screen_name"@),
    ) {
        (Some(t), Some(s), Some(u), Some(n)) => match parse_u64(u) {
            Some(id) => Some((t, s, id, n)),
            None => None,
        },
        _ => None,
    }
}

/// The record that a success body holds, if it holds one.
pub open spec fn access_token_body_of_bytes(body: Seq<u8>) -> Option<
    (Seq<char>, Seq<char>, u64, Seq<char>),
> {
    match form_pairs_of(body) {
        Some(p) => access_token_body_of(p),
        None => None,
    }
}

/// The record that the pairs of a success body make, in whatever order they come.
pub fn access_token_body_from_pairs(pairs: &Vec<(String, String)>) -> (r: Result<
    AccessTokenResponseBody,
    BodyError,
>)
    ensures
        match r {
            Ok(b) => access_token_body_of(pairs_view(pairs@)) == Some(b.spec_fields()),
            Err(_) => access_token_body_of(pairs_view(pairs@)) is None,
        },
{
    let token = match unique_field(pairs, "oauth_token") {
        Some(t) => t,
        None => return Err(BodyError::Field("oauth_token".to_owned())),
    };
    let secret = match unique_field(pairs, "oauth_token_secret") {
        Some(s) => s,
        None => return Err(BodyError::Field("oauth_token_secret".to_owned())),
    };
    let user_id = match unique_field(pairs, "user_id") {
        Some(u) => match parse_u64_text(u.as_str()) {
            Some(id) => id,
            None => return Err(BodyError::Field("user_id".to_owned())),
        },
        None => return Err(BodyError::Field("user_id".to_owned())),
    };
    let screen_name = match unique_field(pairs, "screen_name") {
        Some(n) => n,
        None => return Err(BodyError::Field("screen_name".to_owned())),
    };
    Ok(
        AccessTokenResponseBody {
            oauth_token: token.clone(),
            oauth_token_secret: secret.clone(),
            user_id,
            screen_name: screen_name.clone(),
        },
    )
}

proof fn lemma_access_token_pairs(q: AccessTokenRequestQuery)
    ensures
        crate::signer::signable_pairs(q.spec_pairs()),
        last_value(q.spec_pairs(), "oauth_callback"@) is None,
        last_value(q.spec_pairs(), "oauth_verifier"@) == Some(q.oauth_verifier@),
        crate::signer::plain_pairs(q.spec_pairs()).len() == 0,
{
    reveal_strlit("oauth_callback");
    reveal_strlit("oauth_verifier");
    reveal_strlit("oauth_");
    let p = q.spec_pairs();
    assert("oauth_verifier"@ != "oauth_callback"@) by {
        assert("oauth_verifier"@[6] != "oauth_callback"@[6]);
    }
    assert("oauth_"@.is_prefix_of("oauth_verifier"@));
    assert(crate::signer::is_signable_key("oauth_verifier"@));
    assert(p.drop_last() =~= Seq::<(Seq<char>, Seq<char>)>::empty());
    assert(p.last() == ("oauth_verifier"@, q.oauth_verifier@));
    assert(last_value(p.drop_last(), "oauth_callback"@) is None);
    assert(crate::signer::is_oauth_key(p.last().0));
    assert(crate::signer::plain_pairs(p.drop_last()).len() == 0);
}

impl AccessTokenEndpoint {
    pub fn new(
        consumer_key: ConsumerKey,
        authentication_request_token: AuthenticationRequestToken,
        oauth_verifier: &str,
    ) -> (r: Self)
        ensures
            r.consumer_key == consumer_key,
            r.authentication_request_token == authentication_request_token,
            r.oauth_verifier@ == oauth_verifier@,
    {
        AccessTokenEndpoint {
            consumer_key,
            authentication_request_token,
            oauth_verifier: oauth_verifier.to_owned(),
        }
    }

    /// A signed `POST` to the access-token URL, with no query left: the
    /// `Authorization` header begins with the consumer key and carries the
    /// request token and the verifier.
    pub fn render_request(&self) -> (r: Result<HttpRequest, EndpointError>)
        ensures
            r is Ok,
            r matches Ok(req) ==> {
                &&& req.method == HttpMethod::Post
                &&& req.uri@ == URL@
                &&& (req.authorization matches Some(a) && {
                    &&& authorization_prefix(None, self.consumer_key.key@).is_prefix_of(a@)
                    &&& contains(
                        a@,
                        header_param("oauth_token"@, self.authentication_request_token.request_token@),
                    )
                    &&& contains(a@, header_param("oauth_verifier"@, self.oauth_verifier@))
                })
            },
    {
        let query = AccessTokenRequestQuery { oauth_verifier: self.oauth_verifier.clone() };
        let pairs = query.to_pairs();
        let secrets = self.consumer_key.secrets_with_request_token(&self.authentication_request_token);
        proof {
            lemma_access_token_pairs(query);
        }
        match sign_post_request(URL, &secrets, &pairs) {
            Ok(req) => Ok(req),
            Err(e) => Err(sign_error(e)),
        }
    }

    /// Reads a response: a form body for status 200, else a failure.
    pub fn parse_response(&self, status: u16, body: Vec<u8>) -> (r: Result<
        EndpointRet<AccessTokenResponseBody>,
        EndpointError,
    >)
        ensures
            status == 200 ==> match r {
                Ok(ret) => (ret matches EndpointRet::Success(b) && access_token_body_of_bytes(body@)
                    == Some(b.spec_fields())),
                Err(e) => e is DeResponseBodyOkFailed && access_token_body_of_bytes(body@) is None,
            },
            status != 200 ==> (r matches Ok(ret) && is_other_response(ret, status, body@)),
    {
        if status == 200 {
            match decode_form(body.as_slice()) {
                Ok(pairs) => match access_token_body_from_pairs(&pairs) {
                    Ok(b) => Ok(EndpointRet::Success(b)),
                    Err(e) => Err(EndpointError::DeResponseBodyOkFailed(e)),
                },
                Err(e) => Err(EndpointError::DeResponseBodyOkFailed(BodyError::Form(e))),
            }
        } else {
            Ok(parse_other(status, body))
        }
    }
}

} // verus!
