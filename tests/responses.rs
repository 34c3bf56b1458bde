use oauth1_twitter::endpoints::access_token::{access_token_body_from_pairs, AccessTokenEndpoint};
use oauth1_twitter::endpoints::common::dispatch;
use oauth1_twitter::endpoints::request_token::RequestTokenEndpoint;
use oauth1_twitter::v1::dispatch_v2;
use oauth1_twitter::endpoints::{BodyError, EndpointError};
use oauth1_twitter::{AuthenticationRequestToken, ConsumerKey, EndpointRet};

fn request_token_ep() -> RequestTokenEndpoint {
    RequestTokenEndpoint::new(ConsumerKey::new("foo", "bar"), "http://cb.local/")
}

#[test]
fn other_response_keeps_raw_bytes() {
    let body = b"<html>Over capacity</html>".to_vec();
    match request_token_ep().parse_response(503, body.clone()).unwrap() {
        EndpointRet::Other((503, Err(raw))) => assert_eq!(raw, body),
        other => panic!("{other:?}"),
    }
    let body = br#"{"errors":[{"code":"x","message":"m"}]}"#.to_vec();
    match request_token_ep().parse_response(400, body.clone()).unwrap() {
        EndpointRet::Other((400, Err(raw))) => assert_eq!(raw, body),
        other => panic!("{other:?}"),
    }
}

#[test]
fn other_response_reads_every_entry() {
    let body = br#"{"errors":[{"code":32,"message":"Could not authenticate you."},{"code":-1,"message":"x","extra":true}]}"#.to_vec();
    match request_token_ep().parse_response(401, body).unwrap() {
        EndpointRet::Other((401, Ok(f))) => {
            assert_eq!(f.errors.len(), 2);
            assert_eq!(f.errors[0].code, 32);
            assert_eq!(f.errors[0].message, "Could not authenticate you.");
            assert_eq!(f.errors[1].code, -1);
        }
        other => panic!("{other:?}"),
    }
}

#[test]
fn success_body_errors() {
    let r = request_token_ep().parse_response(200, b"oauth_token=a&oauth_token_secret=b".to_vec());
    assert!(matches!(r, Err(EndpointError::DeResponseBodyOkFailed(BodyError::Field(f))) if f == "oauth_callback_confirmed"));
    let r = request_token_ep().parse_response(
        200,
        b"oauth_token=a&oauth_token=c&oauth_token_secret=b&oauth_callback_confirmed=true".to_vec(),
    );
    assert!(matches!(r, Err(EndpointError::DeResponseBodyOkFailed(BodyError::Field(f))) if f == "oauth_token"));
    let r = request_token_ep().parse_response(
        200,
        b"oauth_token=a&oauth_token_secret=b&oauth_callback_confirmed=yes".to_vec(),
    );
    assert!(r.is_err());
    let ep = AccessTokenEndpoint::new(
        ConsumerKey::new("foo", "bar"),
        AuthenticationRequestToken::new("aaa", "xxx"),
        "bbb",
    );
    let r = ep.parse_response(
        200,
        b"oauth_token=a&oauth_token_secret=b&user_id=x1&screen_name=n".to_vec(),
    );
    assert!(matches!(r, Err(EndpointError::DeResponseBodyOkFailed(BodyError::Field(f))) if f == "user_id"));
}

#[test]
fn success_body_decodes_escapes() {
    let r = request_token_ep()
        .parse_response(
            200,
            b"oauth_token=a%2Bb+c&oauth_token_secret=s&oauth_callback_confirmed=false&extra=1".to_vec(),
        )
        .unwrap();
    match r {
        EndpointRet::Success(b) => {
            assert_eq!(b.oauth_token, "a+b c");
            assert!(!b.oauth_callback_confirmed);
            assert_eq!(b.authentication_request_token().request_token, "a+b c");
        }
        other => panic!("{other:?}"),
    }
}

#[test]
fn signed_header_carries_token_and_escapes() {
    let req = AccessTokenEndpoint::new(
        ConsumerKey::new("k y", "bar"),
        AuthenticationRequestToken::new("tok/1", "xxx"),
        "v~1",
    )
    .render_request()
    .unwrap();
    let auth = req.authorization.unwrap();
    assert!(auth.starts_with(r#"OAuth oauth_consumer_key="k%20y","#));
    assert!(auth.contains(r#"oauth_token="tok%2F1","#));
    assert!(auth.contains(r#"oauth_verifier="v~1","#));
}

#[test]
fn dispatch_by_status() {
    assert_eq!(dispatch::<()>(202, 202, b"{}".to_vec()).unwrap(), b"{}".to_vec());
    match dispatch::<()>(400, 202, br#"{"errors":[{"code":324,"message":"bad media"}]}"#.to_vec()) {
        Err(EndpointRet::Other((400, Ok(f)))) => assert_eq!(f.errors[0].code, 324),
        other => panic!("{other:?}"),
    }
    match dispatch_v2::<()>(401, 201, br#"{"title":"Unauthorized","type":"about:blank","detail":"Unauthorized"}"#.to_vec()) {
        Err(EndpointRet::Other((401, Ok(f)))) => {
            assert_eq!(f.errors[0].code, 0);
            assert_eq!(f.errors[0].message, "Unauthorized");
        }
        other => panic!("{other:?}"),
    }
}

#[test]
fn request_token_header_carries_no_token() {
    let req = request_token_ep().render_request().unwrap();
    let auth = req.authorization.unwrap();
    assert!(auth.starts_with(r#"OAuth oauth_callback="http%3A%2F%2Fcb.local%2F",oauth_consumer_key="foo","#));
    assert!(!auth.contains(r#"oauth_token=""#));
}

#[test]
fn access_token_pairs_in_any_order() {
    let pairs = vec![
        ("screen_name".to_owned(), "twitterapi".to_owned()),
        ("user_id".to_owned(), "6253282".to_owned()),
        ("oauth_token_secret".to_owned(), "s".to_owned()),
        ("oauth_token".to_owned(), "t".to_owned()),
    ];
    let b = access_token_body_from_pairs(&pairs).unwrap();
    assert_eq!((b.oauth_token.as_str(), b.oauth_token_secret.as_str(), b.user_id, b.screen_name.as_str()), ("t", "s", 6253282, "twitterapi"));
}

#[test]
fn endpoint_ret_clones() {
    let ret: EndpointRet<u8> = EndpointRet::Other((418, Err(b"tea".to_vec())));
    match ret.clone() {
        EndpointRet::Other((418, Err(raw))) => assert_eq!(raw, b"tea".to_vec()),
        other => panic!("{other:?}"),
    }
}
