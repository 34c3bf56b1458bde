use oauth1_twitter::endpoints::access_token::AccessTokenEndpoint;
use oauth1_twitter::endpoints::authenticate::AuthenticateEndpoint;
use oauth1_twitter::endpoints::authorize::AuthorizeEndpoint;
use oauth1_twitter::endpoints::invalidate_token::InvalidateTokenEndpoint;
use oauth1_twitter::endpoints::request_token::RequestTokenEndpoint;
use oauth1_twitter::endpoints::EndpointRet;
use oauth1_twitter::{
    AuthenticationAccessToken, AuthenticationRequestToken, ConsumerKey, HttpMethod,
};

const REQUEST_TOKEN_BODY: &str = "oauth_token=zlgW3QAAAAAA2_NZAAABfxxxxxxk&oauth_token_secret=pBYEQzdbyMqIcyDzyn0X7LDxxxxxxxxx&oauth_callback_confirmed=true";
const REQUEST_TOKEN_400_BODY: &str =
    r#"{"errors":[{"code":215,"message":"Bad Authentication data."}]}"#;
const ACCESS_TOKEN_BODY: &str = "oauth_token=62532xx-eWudHldSbIaelX7swmsiHImEL4KinwaGloxxxxxx&oauth_token_secret=2EEfA6BG5ly3sR3XjE0IBSnlQu4ZrUzPiYxxxxxx&user_id=6253282&screen_name=twitterapi";
const INVALIDATE_BODY: &str = r#"{"access_token":"ACCESS_TOKEN"}"#;
const INVALIDATE_401_BODY: &str =
    r#"{"errors":[{"code":89,"message":"Invalid or expired token."}]}"#;

#[test]
fn request_token_test_render_request() {
    let req = RequestTokenEndpoint::new(
        ConsumerKey::new("foo", "bar"),
        "http://examplecallbackurl.local/auth.php",
    )
    .render_request()
    .unwrap();
    assert_eq!(req.method, HttpMethod::Post);
    assert_eq!(req.uri, "https://api.twitter.com/oauth/request_token");
    let req_header_authorization = req.authorization.unwrap();
    assert!(
        req_header_authorization.starts_with(r#"OAuth oauth_callback="http%3A%2F%2Fexamplecallbackurl.local%2Fauth.php",oauth_consumer_key="foo""#)
    );

    let req = RequestTokenEndpoint::new(
        ConsumerKey::new("foo", "bar"),
        "http://examplecallbackurl.local/auth.php",
    )
    .with_x_auth_access_type("write")
    .render_request()
    .unwrap();
    assert_eq!(req.method, HttpMethod::Post);
    assert_eq!(
        req.uri,
        "https://api.twitter.com/oauth/request_token?x_auth_access_type=write"
    );
    assert!(req
        .authorization
        .unwrap()
        .starts_with(r#"OAuth oauth_callback="http%3A%2F%2Fexamplecallbackurl.local%2Fauth.php",oauth_consumer_key="foo""#));
}

#[test]
fn request_token_test_parse_response() {
    let ret = RequestTokenEndpoint::new(
        ConsumerKey::new("foo", "bar"),
        "http://examplecallbackurl.local/auth.php",
    )
    .parse_response(200, REQUEST_TOKEN_BODY.as_bytes().to_owned())
    .unwrap();
    match &ret {
        EndpointRet::Success(body) => {
            assert_eq!(body.oauth_token, "zlgW3QAAAAAA2_NZAAABfxxxxxxk");
            assert_eq!(body.oauth_token_secret, "pBYEQzdbyMqIcyDzyn0X7LDxxxxxxxxx");
            assert!(body.oauth_callback_confirmed);
        }
        EndpointRet::Other(_) => panic!("{:?}", ret),
    }

    let ret = RequestTokenEndpoint::new(
        ConsumerKey::new("foo", "bar"),
        "http://examplecallbackurl.local/auth.php",
    )
    .parse_response(400, REQUEST_TOKEN_400_BODY.as_bytes().to_owned())
    .unwrap();
    match &ret {
        EndpointRet::Success(_) => {
            panic!("{:?}", ret)
        }
        EndpointRet::Other((status_code, body)) => {
            assert_eq!(status_code, &400);
            assert_eq!(
                body.as_ref().unwrap().errors.first().map(|x| x.code),
                Some(215)
            );
        }
    }
}

#[test]
fn access_token_test_render_request() {
    let req = AccessTokenEndpoint::new(
        ConsumerKey::new("foo", "bar"),
        AuthenticationRequestToken::new("aaa", "xxx"),
        "bbb",
    )
    .render_request()
    .unwrap();
    assert_eq!(req.method, HttpMethod::Post);
    assert_eq!(req.uri, "https://api.twitter.com/oauth/access_token");
    let req_header_authorization = req.authorization.unwrap();
    assert!(req_header_authorization.starts_with(r#"OAuth oauth_consumer_key="foo""#));
    assert!(req_header_authorization.contains(r#"oauth_verifier="bbb""#));
}

#[test]
fn access_token_test_parse_response() {
    let ret = AccessTokenEndpoint::new(
        ConsumerKey::new("foo", "bar"),
        AuthenticationRequestToken::new("aaa", "xxx"),
        "bbb",
    )
    .parse_response(200, ACCESS_TOKEN_BODY.as_bytes().to_owned())
    .unwrap();
    match &ret {
        EndpointRet::Success(body) => {
            assert_eq!(
                body.oauth_token,
                "62532xx-eWudHldSbIaelX7swmsiHImEL4KinwaGloxxxxxx"
            );
            assert_eq!(
                body.oauth_token_secret,
                "2EEfA6BG5ly3sR3XjE0IBSnlQu4ZrUzPiYxxxxxx"
            );
            assert_eq!(body.user_id, 6253282);
            assert_eq!(body.screen_name, "twitterapi");
        }
        EndpointRet::Other(_) => panic!("{ret:?}"),
    }
}

#[test]
fn invalidate_token_test_render_request() {
    let req = InvalidateTokenEndpoint::new(
        ConsumerKey::new("foo", "bar"),
        AuthenticationAccessToken::new("aaa", "xxx"),
    )
    .render_request()
    .unwrap();
    assert_eq!(req.method, HttpMethod::Post);
    assert_eq!(req.uri, "https://api.twitter.com/1.1/oauth/invalidate_token");
    let req_header_authorization = req.authorization.unwrap();
    assert!(req_header_authorization.starts_with(r#"OAuth oauth_consumer_key="foo""#));
}

#[test]
fn invalidate_token_test_parse_response() {
    let ret = InvalidateTokenEndpoint::new(
        ConsumerKey::new("foo", "bar"),
        AuthenticationAccessToken::new("aaa", "xxx"),
    )
    .parse_response(200, INVALIDATE_BODY.as_bytes().to_owned())
    .unwrap();
    match &ret {
        EndpointRet::Success(body) => {
            assert_eq!(body.access_token, "ACCESS_TOKEN");
        }
        EndpointRet::Other(_) => panic!("{ret:?}"),
    }

    let ret = InvalidateTokenEndpoint::new(
        ConsumerKey::new("foo", "bar"),
        AuthenticationAccessToken::new("aaa", "xxx"),
    )
    .parse_response(401, INVALIDATE_401_BODY.as_bytes().to_owned())
    .unwrap();
    match &ret {
        EndpointRet::Success(_) => {
            panic!("{ret:?}")
        }
        EndpointRet::Other((status_code, body)) => {
            assert_eq!(status_code, &401);
            assert_eq!(
                body.as_ref().unwrap().errors.first().map(|x| x.code),
                Some(89)
            );
        }
    }
}

#[test]
fn authorize_test_render_request() {
    let req = AuthorizeEndpoint::new("Z6eEdO8MOmk394WozF5oKyuAv855l4Mlqo7hxxxxxx")
        .render_request()
        .unwrap();
    assert_eq!(req.method, HttpMethod::Get);
    assert_eq!(req.uri, "https://api.twitter.com/oauth/authorize?oauth_token=Z6eEdO8MOmk394WozF5oKyuAv855l4Mlqo7hxxxxxx");

    let req = AuthorizeEndpoint::new("Z6eEdO8MOmk394WozF5oKyuAv855l4Mlqo7hxxxxxx")
        .with_force_login(true)
        .with_screen_name("xxx")
        .render_request()
        .unwrap();
    assert_eq!(req.method, HttpMethod::Get);
    assert_eq!(req.uri, "https://api.twitter.com/oauth/authorize?oauth_token=Z6eEdO8MOmk394WozF5oKyuAv855l4Mlqo7hxxxxxx&force_login=true&screen_name=xxx");
}

#[test]
fn authenticate_test_render_request() {
    let req = AuthenticateEndpoint::new("Z6eEdO8MOmk394WozF5oKyuAv855l4Mlqo7hxxxxxx")
        .render_request()
        .unwrap();
    assert_eq!(req.method, HttpMethod::Get);
    assert_eq!(req.uri, "https://api.twitter.com/oauth/authenticate?oauth_token=Z6eEdO8MOmk394WozF5oKyuAv855l4Mlqo7hxxxxxx");

    let req = AuthenticateEndpoint::new("Z6eEdO8MOmk394WozF5oKyuAv855l4Mlqo7hxxxxxx")
        .with_force_login(true)
        .with_screen_name("xxx")
        .render_request()
        .unwrap();
    assert_eq!(req.method, HttpMethod::Get);
    assert_eq!(req.uri, "https://api.twitter.com/oauth/authenticate?oauth_token=Z6eEdO8MOmk394WozF5oKyuAv855l4Mlqo7hxxxxxx&force_login=true&screen_name=xxx");
}
