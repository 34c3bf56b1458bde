//! Credentials and the signing material composed from them.

use vstd::prelude::*;

verus! {

/// The key and secret that identify the registered application.
#[derive(Debug, Clone)]
pub struct ConsumerKey {
    pub key: String,
    pub secret: String,
}

/// A temporary credential issued by the request-token step.
#[derive(Debug, Clone)]
pub struct AuthenticationRequestToken {
    pub request_token: String,
    pub secret: String,
}

/// A durable credential issued by the access-token step.
#[derive(Debug, Clone)]
pub struct AuthenticationAccessToken {
    pub access_token: String,
    pub secret: String,
}

/// The secrets that sign one request: the consumer pair, and the token pair
/// where the protocol step calls for one.
#[derive(Debug, Clone)]
pub struct SigningSecrets {
    pub consumer_key: String,
    pub consumer_secret: String,
    pub token: Option<(String, String)>,
}

impl SigningSecrets {
    /// The consumer key, consumer secret and optional token pair as text.
    pub open spec fn spec_parts(&self) -> (Seq<char>, Seq<char>, Option<(Seq<char>, Seq<char>)>) {
        (
            self.consumer_key@,
            self.consumer_secret@,
            match self.token {
                Some((t, s)) => Some((t@, s@)),
                None => None,
            },
        )
    }
}

/// A failure body in the errors-array format of the v1.1 API.
#[derive(Debug, Clone)]
pub struct ResponseBodyFail {
    pub errors: Vec<ResponseBodyFailError>,
}

/// One entry of a failure body.
#[derive(Debug, Clone)]
pub struct ResponseBodyFailError {
    pub code: i64,
    pub message: String,
}

impl ResponseBodyFail {
    /// The code and message of each entry, in order.
    pub open spec fn spec_errors(&self) -> Seq<(int, Seq<char>)> {
        self.errors@.map_values(|e: ResponseBodyFailError| (e.code as int, e.message@))
    }
}

impl ConsumerKey {
    pub fn new(key: &str, secret: &str) -> (r: Self)
        ensures
            r.key@ == key@,
            r.secret@ == secret@,
    {
        ConsumerKey { key: key.to_owned(), secret: secret.to_owned() }
    }

    /// Signing material for a step that holds no token yet.
    pub fn secrets(&self) -> (r: SigningSecrets)
        ensures
            r.spec_parts() == (self.key@, self.secret@, None::<(Seq<char>, Seq<char>)>),
    {
        SigningSecrets {
            consumer_key: self.key.clone(),
            consumer_secret: self.secret.clone(),
            token: None,
        }
    }

    /// Signing material for the exchange of a request token.
    pub fn secrets_with_request_token(
        &self,
        authentication_request_token: &AuthenticationRequestToken,
    ) -> (r: SigningSecrets)
        ensures
            r.spec_parts() == (
                self.key@,
                self.secret@,
                Some(
                    (
                        authentication_request_token.request_token@,
                        authentication_request_token.secret@,
                    ),
                ),
            ),
    {
        SigningSecrets {
            consumer_key: self.key.clone(),
            consumer_secret: self.secret.clone(),
            token: Some(
                (
                    authentication_request_token.request_token.clone(),
                    authentication_request_token.secret.clone(),
                ),
            ),
        }
    }

    /// Signing material for a call made on behalf of a user.
    pub fn secrets_with_access_token(
        &self,
        authentication_access_token: &AuthenticationAccessToken,
    ) -> (r: SigningSecrets)
        ensures
            r.spec_parts() == (
                self.key@,
                self.secret@,
                Some(
                    (authentication_access_token.access_token@, authentication_access_token.secret@),
                ),
            ),
    {
        SigningSecrets {
            consumer_key: self.key.clone(),
            consumer_secret: self.secret.clone(),
            token: Some(
                (
                    authentication_access_token.access_token.clone(),
                    authentication_access_token.secret.clone(),
                ),
            ),
        }
    }
}

impl AuthenticationRequestToken {
    pub fn new(request_token: &str, secret: &str) -> (r: Self)
        ensures
            r.request_token@ == request_token@,
            r.secret@ == secret@,
    {
        AuthenticationRequestToken { request_token: request_token.to_owned(), secret: secret.to_owned() }
    }
}

impl AuthenticationAccessToken {
    pub fn new(access_token: &str, secret: &str) -> (r: Self)
        ensures
            r.access_token@ == access_token@,
            r.secret@ == secret@,
    {
        AuthenticationAccessToken { access_token: access_token.to_owned(), secret: secret.to_owned() }
    }
}

} // verus!
