//! Building a redirect URL from its parts.

use vstd::prelude::*;
use crate::endpoints::authenticate::AuthenticateEndpoint;
use crate::endpoints::authorize::{
    redirect_url, url_with_pairs, AuthorizeEndpoint, AuthorizeEndpointError, AuthorizeRequestQuery,
};

verus! {

/// The sign-in URL where `is_authenticate` holds, else the authorization URL,
/// for the token and the options given.
pub fn build_authorization_url(
    is_authenticate: bool,
    oauth_token: &str,
    force_login: Option<bool>,
    screen_name: Option<&str>,
) -> (r: Result<String, AuthorizeEndpointError>)
    ensures
        r matches Ok(u) && u@ == redirect_url(
            if is_authenticate {
                crate::endpoints::authenticate::URL@
            } else {
                crate::endpoints::authorize::URL@
            },
            (
                oauth_token@,
                force_login,
                match screen_name {
                    Some(s) => Some(s@),
                    None => None,
                },
            ),
        ),
{
    if is_authenticate {
        let mut ep = AuthenticateEndpoint::new(oauth_token);
        if let Some(f) = force_login {
            ep = ep.with_force_login(f);
        }
        if let Some(s) = screen_name {
            ep = ep.with_screen_name(s);
        }
        ep.authorization_url()
    } else {
        let mut ep = AuthorizeEndpoint::new(oauth_token);
        if let Some(f) = force_login {
            ep = ep.with_force_login(f);
        }
        if let Some(s) = screen_name {
            ep = ep.with_screen_name(s);
        }
        ep.authorization_url()
    }
}

/// The same URL as `build_authorization_url`, built by appending the pairs to
/// the parsed base URL.
pub fn build_authorization_url_inner(
    is_authenticate: bool,
    oauth_token: &str,
    force_login: Option<bool>,
    screen_name: Option<&str>,
) -> (r: Result<String, AuthorizeEndpointError>)
    ensures
        r matches Ok(u) && u@ == redirect_url(
            if is_authenticate {
                crate::endpoints::authenticate::URL@
            } else {
                crate::endpoints::authorize::URL@
            },
            (
                oauth_token@,
                force_login,
                match screen_name {
                    Some(s) => Some(s@),
                    None => None,
                },
            ),
        ),
{
    let query = AuthorizeRequestQuery {
        oauth_token: oauth_token.to_owned(),
        force_login,
        screen_name: match screen_name {
            Some(s) => Some(s.to_owned()),
            None => None,
        },
    };
    let base = if is_authenticate {
        crate::endpoints::authenticate::URL
    } else {
        crate::endpoints::authorize::URL
    };
    match url_with_pairs(base, &query.to_pairs()) {
        Ok(u) => Ok(u),
        Err(e) => Err(AuthorizeEndpointError::MakeRequestUrlFailed(e)),
    }
}

} // verus!
