use oauth1_twitter::endpoints::common::sign_error;
use oauth1_twitter::endpoints::invalidate_token::InvalidateTokenEndpoint;
use oauth1_twitter::endpoints::{BodyError, EndpointError};
use oauth1_twitter::flow::{FlowAbort, FlowAction, FlowEvent, FlowStage, ThreeLeggedFlow};
use oauth1_twitter::signer::{sign_post_request, SignError};
use oauth1_twitter::{AuthenticationAccessToken, ConsumerKey};

#[test]
fn signer_rejects_unknown_oauth_parameter() {
    let secrets = ConsumerKey::new("foo", "bar").secrets();
    let query = vec![("oauth_unknown".to_owned(), "x".to_owned())];
    let r = sign_post_request("https://api.twitter.com/oauth/request_token", &secrets, &query);
    match r {
        Err(e @ SignError::Signer(_)) => {
            assert!(matches!(sign_error(e), EndpointError::MakeReqwestRequestBuilderFailed(_)))
        }
        other => panic!("{other:?}"),
    }
}

#[test]
fn signer_rejects_unparseable_url() {
    let secrets = ConsumerKey::new("foo", "bar").secrets();
    let r = sign_post_request("not a url", &secrets, &Vec::new());
    match r {
        Err(e @ SignError::Build(_)) => {
            assert!(matches!(sign_error(e), EndpointError::MakeReqwestRequestFailed(_)))
        }
        other => panic!("{other:?}"),
    }
}

#[test]
fn signer_keeps_plain_pairs_in_query() {
    let secrets = ConsumerKey::new("foo", "bar").secrets();
    let query = vec![
        ("b".to_owned(), "x y".to_owned()),
        ("oauth_callback".to_owned(), "oob".to_owned()),
        ("a".to_owned(), "1/2".to_owned()),
    ];
    let req = sign_post_request("https://api.twitter.com/oauth/request_token", &secrets, &query).unwrap();
    assert_eq!(req.uri, "https://api.twitter.com/oauth/request_token?b=x+y&a=1%2F2");
    assert!(req.authorization.unwrap().starts_with(r#"OAuth oauth_callback="oob",oauth_consumer_key="foo","#));
}

#[test]
fn json_success_body_errors() {
    let ep = InvalidateTokenEndpoint::new(
        ConsumerKey::new("foo", "bar"),
        AuthenticationAccessToken::new("aaa", "xxx"),
    );
    let r = ep.parse_response(200, b"not json".to_vec());
    assert!(matches!(r, Err(EndpointError::DeResponseBodyOkJsonFailed(BodyError::Json(_)))));
    let r = ep.parse_response(200, br#"{"access_token":5}"#.to_vec());
    assert!(matches!(r, Err(EndpointError::DeResponseBodyOkJsonFailed(BodyError::Field(f))) if f == "access_token"));
}

#[test]
fn flow_request_failure_ends_handshake() {
    let mut flow = ThreeLeggedFlow::new(ConsumerKey::new("ck", "cs"), "oob", false);
    flow.step(FlowEvent::Begin);
    let action = flow.step(FlowEvent::RequestFailed("connection refused".to_owned()));
    match action {
        FlowAction::Abort(FlowStage::Start, FlowAbort::RequestFailed(reason)) => {
            assert_eq!(reason, "connection refused")
        }
        other => panic!("{other:?}"),
    }
    let action = flow.step(FlowEvent::Begin);
    assert!(matches!(action, FlowAction::Abort(FlowStage::Start, FlowAbort::UnexpectedEvent)));
}
