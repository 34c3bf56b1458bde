//! The second step: the URL to which the user is sent to authorize the
//! application. It is neither signed nor sent by this library.

use vstd::prelude::*;
use vstd::utf8::encode_utf8;
use crate::codec::{ascii_text, decode_query, query_string};
use crate::form::{find_field, key_count, query_pairs, query_pairs_of, unique_field, unique_value};
use crate::signer::{HttpMethod, HttpRequest};
use crate::text::{last_value, pairs_view, parse_bool, parse_bool_text};

verus! {

#[verifier::external_type_specification]
#[verifier::external_body]
pub struct ExUrlParseError(url::ParseError);

pub const URL: &'static str = "https://api.twitter.com/oauth/authorize";

/// The authorization redirect.
#[derive(Debug, Clone)]
pub struct AuthorizeEndpoint {
    pub oauth_token: String,
    pub force_login: Option<bool>,
    pub screen_name: Option<String>,
}

/// The query of an authorization redirect.
#[derive(Debug, Clone)]
pub struct AuthorizeRequestQuery {
    pub oauth_token: String,
    pub force_login: Option<bool>,
    pub screen_name: Option<String>,
}

/// Why a redirect URL could not be built.
#[derive(Debug)]
pub enum AuthorizeEndpointError {
    MakeRequestUrlFailed(url::ParseError),
}

/// The words for a boolean.
pub open spec fn bool_text(b: bool) -> Seq<char> {
    if b {
        seq!['t', 'r', 'u', 'e']
    } else {
        seq!['f', 'a', 'l', 's', 'e']
    }
}

/// The redirect URLs; each is already in the form that URL parsing writes back.
pub open spec fn is_redirect_url(u: Seq<char>) -> bool {
    u == URL@ || u == crate::endpoints::authenticate::URL@
}

/// Relies on `url::Url::parse`, `Url::query_pairs_mut` and
/// `form_urlencoded::Serializer::extend_pairs`: a URL that has no query gets `?`
/// and then each pair as `name=value`, joined by `&`, each side written by
/// `form_urlencoded::byte_serialize` (letters, digits and `*-._` as they are, a
/// space as `+`, any other byte as `%` and two upper-case digits). Parsing
/// fails only on text that is not a URL, and the redirect URLs are URLs that
/// parsing writes back as they are.
#[verifier::external_body]
pub(crate) fn url_with_pairs(base: &str, pairs: &Vec<(String, String)>) -> (r: Result<
    String,
    url::ParseError,
>)
    ensures
        is_redirect_url(base@) ==> r is Ok,
        r matches Ok(u) ==> (is_redirect_url(base@) && pairs@.len() > 0 ==> u@ == base@ + seq!['?']
            + query_string(pairs_view(pairs@))),
{
    let mut url = url::Url::parse(base)?;
    url.query_pairs_mut().extend_pairs(pairs.iter());
    Ok(url.as_str().to_owned())
}

impl AuthorizeRequestQuery {
    /// The pairs of the query.
    pub open spec fn spec_pairs(&self) -> Seq<(Seq<char>, Seq<char>)> {
        authorize_pairs(self.spec_fields())
    }

    pub open spec fn spec_fields(&self) -> (Seq<char>, Option<bool>, Option<Seq<char>>) {
        (
            self.oauth_token@,
            self.force_login,
            match self.screen_name {
                Some(s) => Some(s@),
                None => None,
            },
        )
    }

    pub fn to_pairs(&self) -> (r: Vec<(String, String)>)
        ensures
            pairs_view(r@) == self.spec_pairs(),
    {
        let mut r: Vec<(String, String)> = Vec::new();
        r.push(("oauth_token".to_owned(), self.oauth_token.clone()));
        match self.force_login {
            Some(b) => {
                let word = if b {
                    "true".to_owned()
                } else {
                    "false".to_owned()
                };
                proof {
                    reveal_strlit("true");
                    reveal_strlit("false");
                }
                assert(word@ =~= bool_text(b));
                r.push(("force_login".to_owned(), word));
            },
            None => {},
        }
        match &self.screen_name {
            Some(s) => r.push(("screen_name".to_owned(), s.clone())),
            None => {},
        }
        assert(pairs_view(r@) =~= self.spec_pairs());
        r
    }

    /// Reads a query back from its pairs.
    pub fn from_pairs(pairs: &Vec<(String, String)>) -> (r: Option<AuthorizeRequestQuery>)
        ensures
            match r {
                Some(q) => authorize_query_of(pairs_view(pairs@)) == Some(q.spec_fields()),
                None => authorize_query_of(pairs_view(pairs@)) is None,
            },
    {
        let token = match unique_field(pairs, "oauth_token") {
            Some(t) => t.clone(),
            None => return None,
        };
        let (n, last) = find_field(pairs, "force_login");
        let force_login = if n == 0 {
            None
        } else if n == 1 {
            match last {
                Some(v) => match parse_bool_text(v.as_str()) {
                    Some(b) => Some(b),
                    None => return None,
                },
                None => return None,
            }
        } else {
            return None;
        };
        let (m, last) = find_field(pairs, "screen_name");
        let screen_name = if m == 0 {
            None
        } else if m == 1 {
            match last {
                Some(v) => Some(v.clone()),
                None => return None,
            }
        } else {
            return None;
        };
        Some(AuthorizeRequestQuery { oauth_token: token, force_login, screen_name })
    }

    /// Reads a query string back.
    pub fn from_query_string(q: &str) -> (r: Option<AuthorizeRequestQuery>)
        ensures
            match r {
                Some(x) => (query_pairs_of(q@) matches Some(p) && authorize_query_of(p) == Some(
                    x.spec_fields(),
                )),
                None => (query_pairs_of(q@) matches Some(p) ==> authorize_query_of(p) is None),
            },
            ascii_text(encode_utf8(q@)) matches Some(t) ==> (decode_query(t) matches Some(p) ==> (
            query_pairs_of(q@) == Some(p))),
    {
        match query_pairs(q) {
            Some(pairs) => AuthorizeRequestQuery::from_pairs(&pairs),
            None => None,
        }
    }
}

/// The pairs of a redirect query: the token, then the optional fields that are
/// set, in that order.
pub open spec fn authorize_pairs(fields: (Seq<char>, Option<bool>, Option<Seq<char>>)) -> Seq<
    (Seq<char>, Seq<char>),
> {
    seq![("oauth_token"@, fields.0)] + match fields.1 {
        Some(b) => seq![("force_login"@, bool_text(b))],
        None => seq![],
    } + match fields.2 {
        Some(s) => seq![("screen_name"@, s)],
        None => seq![],
    }
}

/// The fields that the pairs of a query give: the token exactly once, each
/// optional field at most once, the flag `true` or `false`.
pub open spec fn authorize_query_of(pairs: Seq<(Seq<char>, Seq<char>)>) -> Option<
    (Seq<char>, Option<bool>, Option<Seq<char>>),
> {
    let f = if key_count(pairs, "force_login"@) == 0 {
        Some(None::<bool>)
    } else if key_count(pairs, "force_login"@) == 1 {
        match last_value(pairs, "force_login"@) {
            Some(v) => match parse_bool(v) {
                Some(b) => Some(Some(b)),
                None => None,
            },
            None => None,
        }
    } else {
        None
    };
    let s = if key_count(pairs, "screen_name"@) == 0 {
        Some(None::<Seq<char>>)
    } else if key_count(pairs, "screen_name"@) == 1 {
        match last_value(pairs, "screen_name"@) {
            Some(v) => Some(Some(v)),
            None => None,
        }
    } else {
        None
    };
    match (unique_value(pairs, "oauth_token"@), f, s) {
        (Some(t), Some(f), Some(s)) => Some((t, f, s)),
        _ => None,
    }
}

/// The redirect URL at `base` for the given fields.
pub open spec fn redirect_url(base: Seq<char>, fields: (Seq<char>, Option<bool>, Option<Seq<char>>)) -> Seq<
    char,
> {
    base + seq!['?'] + query_string(authorize_pairs(fields))
}

/// Builds the redirect for `base` from the fields of `query`.
pub(crate) fn render_redirect(base: &str, query: &AuthorizeRequestQuery) -> (r: Result<
    HttpRequest,
    AuthorizeEndpointError,
>)
    requires
        is_redirect_url(base@),
    ensures
        r matches Ok(req) && req.method == HttpMethod::Get && req.uri@ == redirect_url(
            base@,
            query.spec_fields(),
        ) && req.authorization is None,
{
    let pairs = query.to_pairs();
    match url_with_pairs(base, &pairs) {
        Ok(uri) => Ok(HttpRequest { method: HttpMethod::Get, uri, authorization: None }),
        Err(e) => Err(AuthorizeEndpointError::MakeRequestUrlFailed(e)),
    }
}

impl AuthorizeEndpoint {
    pub fn new(oauth_token: &str) -> (r: Self)
        ensures
            r.oauth_token@ == oauth_token@,
            r.force_login is None,
            r.screen_name is None,
    {
        AuthorizeEndpoint { oauth_token: oauth_token.to_owned(), force_login: None, screen_name: None }
    }

    pub fn with_force_login(self, force_login: bool) -> (r: Self)
        ensures
            r.oauth_token == self.oauth_token,
            r.force_login == Some(force_login),
            r.screen_name == self.screen_name,
    {
        AuthorizeEndpoint { force_login: Some(force_login), ..self }
    }

    pub fn with_screen_name(self, screen_name: &str) -> (r: Self)
        ensures
            r.oauth_token == self.oauth_token,
            r.force_login == self.force_login,
            r.screen_name matches Some(s) && s@ == screen_name@,
    {
        AuthorizeEndpoint { screen_name: Some(screen_name.to_owned()), ..self }
    }

    /// The query that the endpoint's fields make.
    pub fn query(&self) -> (r: AuthorizeRequestQuery)
        ensures
            r.spec_fields() == self.spec_fields(),
    {
        AuthorizeRequestQuery {
            oauth_token: self.oauth_token.clone(),
            force_login: self.force_login,
            screen_name: match &self.screen_name {
                Some(s) => Some(s.clone()),
                None => None,
            },
        }
    }

    pub open spec fn spec_fields(&self) -> (Seq<char>, Option<bool>, Option<Seq<char>>) {
        (
            self.oauth_token@,
            self.force_login,
            match self.screen_name {
                Some(s) => Some(s@),
                None => None,
            },
        )
    }

    /// An unsigned `GET` of the authorization URL, with the token and the set
    /// options in the query in that order.
    pub fn render_request(&self) -> (r: Result<HttpRequest, AuthorizeEndpointError>)
        ensures
            r is Ok,
            r matches Ok(req) ==> {
                &&& req.method == HttpMethod::Get
                &&& req.uri@ == redirect_url(URL@, self.spec_fields())
                &&& req.authorization is None
            },
    {
        let q = self.query();
        render_redirect(URL, &q)
    }

    /// The URL to which the user is sent.
    pub fn authorization_url(&self) -> (r: Result<String, AuthorizeEndpointError>)
        ensures
            r is Ok,
            r matches Ok(u) ==> u@ == redirect_url(URL@, self.spec_fields()),
    {
        match self.render_request() {
            Ok(req) => Ok(req.uri),
            Err(e) => Err(e),
        }
    }
}

/// Reading back the query of a redirect URL gives the fields it was built
/// from: the names come in the order token, flag, screen name, and each value
/// decodes to the one given.
pub proof fn lemma_redirect_round_trip(fields: (Seq<char>, Option<bool>, Option<Seq<char>>))
    ensures
        redirect_url(URL@, fields) == URL@ + seq!['?'] + query_string(authorize_pairs(fields)),
        ascii_text(encode_utf8(query_string(authorize_pairs(fields)))) == Some(
            query_string(authorize_pairs(fields)),
        ),
        decode_query(query_string(authorize_pairs(fields))) == Some(authorize_pairs(fields)),
        authorize_query_of(authorize_pairs(fields)) == Some(fields),
{
    crate::codec::lemma_query_round_trip(authorize_pairs(fields));
    crate::codec::lemma_query_string_ascii(authorize_pairs(fields));
    reveal_strlit("oauth_token");
    reveal_strlit("force_login");
    reveal_strlit("screen_name");
    reveal_with_fuel(key_count, 4);
    reveal_with_fuel(last_value, 4);
    let t = "oauth_token"@;
    let f = "force_login"@;
    let n = "screen_name"@;
    assert(t != f && t != n && f != n) by {
        assert(t[0] != f[0] && t[0] != n[0] && f[0] != n[0]);
    }
    let p = authorize_pairs(fields);
    let base = seq![(t, fields.0)];
    assert(base.drop_last() =~= Seq::<(Seq<char>, Seq<char>)>::empty());
    match (fields.1, fields.2) {
        (Some(b), Some(s)) => {
            assert(p =~= seq![(t, fields.0), (f, bool_text(b)), (n, s)]);
            assert(p.drop_last() =~= seq![(t, fields.0), (f, bool_text(b))]);
            assert(p.drop_last().drop_last() =~= base);
            assert(parse_bool(bool_text(b)) == Some(b));
        },
        (Some(b), None) => {
            assert(p =~= seq![(t, fields.0), (f, bool_text(b))]);
            assert(p.drop_last() =~= base);
            assert(parse_bool(bool_text(b)) == Some(b));
        },
        (None, Some(s)) => {
            assert(p =~= seq![(t, fields.0), (n, s)]);
            assert(p.drop_last() =~= base);
        },
        (None, None) => {
            assert(p =~= base);
        },
    }
}

} // verus!
