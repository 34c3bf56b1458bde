//! Signing a draft request with the OAuth 1.0a HMAC-SHA1 scheme.
//!
//! The signature itself is computed by `reqwest_oauth1`; this module fixes what
//! is handed to it and states what every signed request it returns looks like.

use vstd::prelude::*;
use vstd::utf8::encode_utf8;
use crate::codec::query_string;
use crate::objects::SigningSecrets;
use crate::text::last_value;

verus! {

#[verifier::external_type_specification]
#[verifier::external_body]
pub struct ExSignerError(reqwest_oauth1::SignerError);

#[verifier::external_type_specification]
#[verifier::external_body]
pub struct ExReqwestError(reqwest::Error);

/// The HTTP methods that the endpoints use.
#[derive(Debug, Clone, Copy, PartialEq, Eq, Structural)]
pub enum HttpMethod {
    Get,
    Post,
}

/// A request ready to be sent: method, full URI and, for a signed request, the
/// value of its `Authorization` header. The body is always empty.
#[derive(Debug, Clone)]
pub struct HttpRequest {
    pub method: HttpMethod,
    pub uri: String,
    pub authorization: Option<String>,
}

/// Why the signer could not produce a request.
#[derive(Debug)]
pub enum SignError {
    /// An `oauth_*` parameter that the signer cannot take.
    Signer(reqwest_oauth1::SignerError),
    /// The signed request could not be assembled.
    Build(reqwest::Error),
}

/// Bytes that RFC 3986 leaves unreserved, which OAuth writes as they are.
pub open spec fn is_unreserved(b: u8) -> bool {
    (0x30 <= b <= 0x39) || (0x41 <= b <= 0x5a) || (0x61 <= b <= 0x7a) || b == 0x2d || b == 0x2e
        || b == 0x5f || b == 0x7e
}

pub open spec fn oauth_encode_bytes(bs: Seq<u8>) -> Seq<char>
    decreases bs.len(),
{
    if bs.len() == 0 {
        seq![]
    } else {
        let b = bs.last();
        oauth_encode_bytes(bs.drop_last()) + if is_unreserved(b) {
            seq![b as char]
        } else {
            seq!['%', crate::codec::hex_upper(b / 16), crate::codec::hex_upper(b % 16)]
        }
    }
}

/// The OAuth percent encoding of the UTF-8 bytes of `s`.
pub open spec fn oauth_encode(s: Seq<char>) -> Seq<char> {
    oauth_encode_bytes(encode_utf8(s))
}

/// One parameter of the `Authorization` header: `key="value",`.
pub open spec fn header_param(key: Seq<char>, value: Seq<char>) -> Seq<char> {
    key + seq!['=', '"'] + oauth_encode(value) + seq!['"', ',']
}

/// How every `Authorization` header that the signer writes begins: the scheme,
/// then the callback if there is one, then the consumer key.
pub open spec fn authorization_prefix(callback: Option<Seq<char>>, consumer_key: Seq<char>) -> Seq<
    char,
> {
    seq!['O', 'A', 'u', 't', 'h', ' '] + match callback {
        Some(c) => header_param("oauth_callback"@, c),
        None => seq![],
    } + header_param("oauth_consumer_key"@, consumer_key)
}

/// Names that the signer takes out of the query and into the header.
pub open spec fn is_oauth_key(k: Seq<char>) -> bool {
    "oauth_"@.is_prefix_of(k) || k == "realm"@
}

/// The pairs that stay in the query, in order.
pub open spec fn plain_pairs(pairs: Seq<(Seq<char>, Seq<char>)>) -> Seq<(Seq<char>, Seq<char>)>
    decreases pairs.len(),
{
    if pairs.len() == 0 {
        seq![]
    } else if is_oauth_key(pairs.last().0) {
        plain_pairs(pairs.drop_last())
    } else {
        plain_pairs(pairs.drop_last()).push(pairs.last())
    }
}

/// `url` followed by the query of the pairs that stay in it, if any.
pub open spec fn with_query(url: Seq<char>, pairs: Seq<(Seq<char>, Seq<char>)>) -> Seq<char> {
    if plain_pairs(pairs).len() == 0 {
        url
    } else {
        url + seq!['?'] + query_string(plain_pairs(pairs))
    }
}

/// Names that the signer takes from the query without complaint: names that
/// stay in the query, and the callback and verifier.
pub open spec fn is_signable_key(k: Seq<char>) -> bool {
    !is_oauth_key(k) || k == "oauth_callback"@ || k == "oauth_verifier"@
}

/// Every name of the query is one that the signer takes.
pub open spec fn signable_pairs(pairs: Seq<(Seq<char>, Seq<char>)>) -> bool {
    forall|i: int| 0 <= i < pairs.len() ==> is_signable_key(#[trigger] pairs[i].0)
}

/// The endpoint URLs that are signed; each is already in the form that URL
/// parsing writes back.
pub open spec fn is_signed_endpoint_url(url: Seq<char>) -> bool {
    url == crate::endpoints::request_token::URL@ || url == crate::endpoints::access_token::URL@
        || url == crate::endpoints::invalidate_token::URL@
}

/// Relies on `reqwest_oauth1`: `Secrets::new` and `Secrets::token` carry the
/// secrets; `Client::post`, `RequestBuilder::sign`, `RequestBuilder::query` and
/// `RequestBuilder::generate_signature` move the `oauth_*` and `realm` pairs of
/// the query into an `Authorization` header that `oauth1_request` writes as
/// `OAuth ` then `key="value",` for each of `oauth_callback`, `oauth_consumer_key`,
/// the nonce, method and timestamp, `oauth_token`, `oauth_verifier`, and last the
/// signature, every value percent encoded; the other pairs stay in the query in
/// order, form encoded by `serde_urlencoded`. Signing fails only on an
/// `oauth_*` name other than the callback, verifier, nonce, timestamp and
/// version, or on a bad timestamp or version value; `reqwest::RequestBuilder::build`
/// fails only where the URL does not parse or the header is not valid header
/// text, and every value in the header is percent encoded. An `oauth_token`
/// parameter is written only where the secrets hold a token; the realm, the one
/// value written unencoded, comes only from a `realm` name. The nonce, the timestamp
/// and so the signature differ from call to call. `reqwest::Client::new` panics
/// only where a TLS backend fails to start, and this crate builds `reqwest`
/// without one, or where the system resolver configuration cannot be read; no
/// argument decides either.
#[verifier::external_body]
fn sign_post(url: &str, secrets: &SigningSecrets, query: &Vec<(String, String)>) -> (r: Result<
    (String, String),
    SignError,
>)
    ensures
        is_signed_endpoint_url(url@) && signable_pairs(crate::text::pairs_view(query@)) ==> r is Ok,
        r matches Ok((uri, authorization)) ==> {
            &&& secrets.token is None && signable_pairs(crate::text::pairs_view(query@))
                ==> !crate::text::contains(authorization@, "oauth_token=\""@)
            &&& is_signed_endpoint_url(url@) ==> uri@ == with_query(
                url@,
                crate::text::pairs_view(query@),
            )
            &&& authorization_prefix(
                last_value(crate::text::pairs_view(query@), "oauth_callback"@),
                secrets.consumer_key@,
            ).is_prefix_of(authorization@)
            &&& secrets.token matches Some((t, _)) ==> crate::text::contains(
                authorization@,
                header_param("oauth_token"@, t@),
            )
            &&& last_value(crate::text::pairs_view(query@), "oauth_verifier"@) matches Some(v)
                ==> crate::text::contains(authorization@, header_param("oauth_verifier"@, v))
        },
{
    let s = reqwest_oauth1::Secrets::new(secrets.consumer_key.clone(), secrets.consumer_secret.clone());
    let s = match &secrets.token {
        Some((t, ts)) => s.token(t.clone(), ts.clone()),
        None => s,
    };
    let built = reqwest_oauth1::Client::new().post(url).sign(s).query(query).generate_signature()
        .map_err(SignError::Signer)?.build().map_err(SignError::Build)?;
    let auth = built.headers().get(reqwest::header::AUTHORIZATION);
    let auth = auth.map(|v| String::from_utf8_lossy(v.as_bytes()).into_owned());
    Ok((built.url().as_str().to_owned(), auth.unwrap_or_default()))
}

/// Signs a `POST` to `url` whose query holds `query`.
pub fn sign_post_request(url: &str, secrets: &SigningSecrets, query: &Vec<(String, String)>) -> (r:
    Result<HttpRequest, SignError>)
    ensures
        is_signed_endpoint_url(url@) && signable_pairs(crate::text::pairs_view(query@)) ==> r is Ok,
        r matches Ok(req) ==> {
            &&& req.method == HttpMethod::Post
            &&& secrets.token is None && signable_pairs(crate::text::pairs_view(query@)) ==> (
            req.authorization matches Some(a) && !crate::text::contains(a@, "oauth_token=\""@))
            &&& is_signed_endpoint_url(url@) ==> req.uri@ == with_query(
                url@,
                crate::text::pairs_view(query@),
            )
            &&& req.authorization matches Some(a) && {
                &&& authorization_prefix(
                    last_value(crate::text::pairs_view(query@), "oauth_callback"@),
                    secrets.consumer_key@,
                ).is_prefix_of(a@)
                &&& secrets.token matches Some((t, _)) ==> crate::text::contains(
                    a@,
                    header_param("oauth_token"@, t@),
                )
                &&& last_value(crate::text::pairs_view(query@), "oauth_verifier"@) matches Some(v)
                    ==> crate::text::contains(a@, header_param("oauth_verifier"@, v))
            }
        },
{
    match sign_post(url, secrets, query) {
        Ok((uri, authorization)) => Ok(
            HttpRequest { method: HttpMethod::Post, uri, authorization: Some(authorization) },
        ),
        Err(e) => Err(e),
    }
}

} // verus!
