//! Revoking an access token.

use vstd::prelude::*;
use crate::endpoints::common::{
    is_other_response, parse_other, sign_error, BodyError, EndpointError, EndpointRet,
};
use crate::json::{get_str_field, json_of, json_str_field, parse_json};
use crate::objects::{AuthenticationAccessToken, ConsumerKey};
use crate::signer::{authorization_prefix, header_param, sign_post_request, HttpMethod, HttpRequest};
use crate::text::{contains, pairs_view};

verus! {

pub const URL: &'static str = "https://api.twitter.com/1.1/oauth/invalidate_token";

/// The invalidation step: signed with the consumer secrets and the access token.
#[derive(Debug, Clone)]
pub struct InvalidateTokenEndpoint {
    pub consumer_key: ConsumerKey,
    pub authentication_access_token: AuthenticationAccessToken,
}

/// The body of a successful invalidation: the token that was revoked.
#[derive(Debug, Clone)]
pub struct InvalidateTokenResponseBody {
    pub access_token: String,
}

/// The revoked token that a success body names: a JSON object with a string
/// member `access_token`.
pub open spec fn invalidate_body_of_bytes(body: Seq<u8>) -> Option<Seq<char>> {
    match json_of(body) {
        Some(v) => json_str_field(v, "access_token"@),
        None => None,
    }
}

impl InvalidateTokenEndpoint {
    pub fn new(
        consumer_key: ConsumerKey,
        authentication_access_token: AuthenticationAccessToken,
    ) -> (r: Self)
        ensures
            r.consumer_key == consumer_key,
            r.authentication_access_token == authentication_access_token,
    {
        InvalidateTokenEndpoint { consumer_key, authentication_access_token }
    }

    /// A signed `POST` to the invalidation URL, with no query: the
    /// `Authorization` header begins with the consumer key and carries the
    /// access token.
    pub fn render_request(&self) -> (r: Result<HttpRequest, EndpointError>)
        ensures
            r is Ok,
            r matches Ok(req) ==> {
                &&& req.method == HttpMethod::Post
                &&& req.uri@ == URL@
                &&& (req.authorization matches Some(a) && {
                    &&& authorization_prefix(None, self.consumer_key.key@).is_prefix_of(a@)
                    &&& contains(
                        a@,
                        header_param("oauth_token"@, self.authentication_access_token.access_token@),
                    )
                })
            },
    {
        let pairs: Vec<(String, String)> = Vec::new();
        let secrets = self.consumer_key.secrets_with_access_token(&self.authentication_access_token);
        assert(pairs_view(pairs@) =~= Seq::<(Seq<char>, Seq<char>)>::empty());
        match sign_post_request(URL, &secrets, &pairs) {
            Ok(req) => Ok(req),
            Err(e) => Err(sign_error(e)),
        }
    }

    /// Reads a response: a JSON body for status 200, else a failure.
    pub fn parse_response(&self, status: u16, body: Vec<u8>) -> (r: Result<
        EndpointRet<InvalidateTokenResponseBody>,
        EndpointError,
    >)
        ensures
            status == 200 ==> match r {
                Ok(ret) => (ret matches EndpointRet::Success(b) && invalidate_body_of_bytes(body@)
                    == Some(b.access_token@)),
                Err(e) => e is DeResponseBodyOkJsonFailed && invalidate_body_of_bytes(body@) is None,
            },
            status != 200 ==> (r matches Ok(ret) && is_other_response(ret, status, body@)),
    {
        if status == 200 {
            match parse_json(body.as_slice()) {
                Ok(v) => match get_str_field(&v, "access_token") {
                    Some(t) => Ok(EndpointRet::Success(InvalidateTokenResponseBody { access_token: t })),
                    None => Err(
                        EndpointError::DeResponseBodyOkJsonFailed(
                            BodyError::Field("access_token".to_owned()),
                        ),
                    ),
                },
                Err(e) => Err(EndpointError::DeResponseBodyOkJsonFailed(BodyError::Json(e))),
            }
        } else {
            Ok(parse_other(status, body))
        }
    }
}

} // verus!
