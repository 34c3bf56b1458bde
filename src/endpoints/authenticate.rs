//! The sign-in variant of the authorization redirect: the same query at
//! another path.

use vstd::prelude::*;
use crate::endpoints::authorize::{
    redirect_url, render_redirect, AuthorizeEndpointError, AuthorizeRequestQuery,
};
use crate::signer::{HttpMethod, HttpRequest};

verus! {

pub const URL: &'static str = "https://api.twitter.com/oauth/authenticate";

pub type AuthenticateRequestQuery = AuthorizeRequestQuery;

pub type AuthenticateEndpointError = AuthorizeEndpointError;

/// The sign-in redirect.
#[derive(Debug, Clone)]
pub struct AuthenticateEndpoint {
    pub oauth_token: String,
    pub force_login: Option<bool>,
    pub screen_name: Option<String>,
}

impl AuthenticateEndpoint {
    pub fn new(oauth_token: &str) -> (r: Self)
        ensures
            r.oauth_token@ == oauth_token@,
            r.force_login is None,
            r.screen_name is None,
    {
        AuthenticateEndpoint { oauth_token: oauth_token.to_owned(), force_login: None, screen_name: None }
    }

    pub fn with_force_login(self, force_login: bool) -> (r: Self)
        ensures
            r.oauth_token == self.oauth_token,
            r.force_login == Some(force_login),
            r.screen_name == self.screen_name,
    {
        AuthenticateEndpoint { force_login: Some(force_login), ..self }
    }

    pub fn with_screen_name(self, screen_name: &str) -> (r: Self)
        ensures
            r.oauth_token == self.oauth_token,
            r.force_login == self.force_login,
            r.screen_name matches Some(s) && s@ == screen_name@,
    {
        AuthenticateEndpoint { screen_name: Some(screen_name.to_owned()), ..self }
    }

    pub open spec fn spec_fields(&self) -> (Seq<char>, Option<bool>, Option<Seq<char>>) {
        (
            self.oauth_token@,
            self.force_login,
            match self.screen_name {
                Some(s) => Some(s@),
                None => None,
            },
        )
    }

    /// An unsigned `GET` of the sign-in URL, with the token and the set options
    /// in the query in that order.
    pub fn render_request(&self) -> (r: Result<HttpRequest, AuthenticateEndpointError>)
        ensures
            r is Ok,
            r matches Ok(req) ==> {
                &&& req.method == HttpMethod::Get
                &&& req.uri@ == redirect_url(URL@, self.spec_fields())
                &&& req.authorization is None
            },
    {
        let q = AuthorizeRequestQuery {
            oauth_token: self.oauth_token.clone(),
            force_login: self.force_login,
            screen_name: match &self.screen_name {
                Some(s) => Some(s.clone()),
                None => None,
            },
        };
        render_redirect(URL, &q)
    }

    /// The URL to which the user is sent.
    pub fn authorization_url(&self) -> (r: Result<String, AuthenticateEndpointError>)
        ensures
            r is Ok,
            r matches Ok(u) ==> u@ == redirect_url(URL@, self.spec_fields()),
    {
        match self.render_request() {
            Ok(req) => Ok(req.uri),
            Err(e) => Err(e),
        }
    }
}

} // verus!
