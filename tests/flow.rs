use oauth1_twitter::endpoints::access_token::AccessTokenResponseBody;
use oauth1_twitter::endpoints::invalidate_token::InvalidateTokenResponseBody;
use oauth1_twitter::endpoints::request_token::RequestTokenResponseBody;
use oauth1_twitter::flow::{
    FlowAbort, FlowAction, FlowEvent, FlowStage, FlowState, ProtocolViolation, ThreeLeggedFlow,
};
use oauth1_twitter::{ConsumerKey, EndpointRet};

fn request_token(confirmed: bool) -> RequestTokenResponseBody {
    RequestTokenResponseBody {
        oauth_token: "reqtok".to_owned(),
        oauth_token_secret: "reqsecret".to_owned(),
        oauth_callback_confirmed: confirmed,
    }
}

fn access_token() -> AccessTokenResponseBody {
    AccessTokenResponseBody {
        oauth_token: "acctok".to_owned(),
        oauth_token_secret: "accsecret".to_owned(),
        user_id: 6253282,
        screen_name: "twitterapi".to_owned(),
    }
}

fn started(invalidate: bool) -> ThreeLeggedFlow {
    let mut flow = ThreeLeggedFlow::new(ConsumerKey::new("ck", "cs"), "http://cb.local/auth", invalidate);
    match flow.step(FlowEvent::Begin) {
        FlowAction::SendRequestToken(ep) => {
            assert_eq!(ep.oauth_callback, "http://cb.local/auth");
            assert_eq!(ep.consumer_key.key, "ck");
        }
        other => panic!("{other:?}"),
    }
    flow
}

#[test]
fn flow_unconfirmed_callback_aborts_before_authorization() {
    let mut flow = started(false);
    let action = flow.step(FlowEvent::RequestTokenResponse(EndpointRet::Success(request_token(false))));
    match action {
        FlowAction::Abort(
            FlowStage::RequestTokenObtained,
            FlowAbort::ProtocolInvariantViolation(ProtocolViolation::CallbackNotConfirmed),
        ) => {}
        other => panic!("{other:?}"),
    }
    assert!(matches!(flow.state, FlowState::Aborted(_)));
    let action = flow.step(FlowEvent::Callback("http://cb.local/auth?oauth_token=reqtok&oauth_verifier=v".to_owned()));
    assert!(matches!(
        action,
        FlowAction::Abort(FlowStage::RequestTokenObtained, FlowAbort::UnexpectedEvent)
    ));
    assert!(matches!(flow.state, FlowState::Aborted(FlowStage::RequestTokenObtained)));
}

#[test]
fn flow_mismatched_callback_token_aborts() {
    let mut flow = started(false);
    let action = flow.step(FlowEvent::RequestTokenResponse(EndpointRet::Success(request_token(true))));
    match action {
        FlowAction::AwaitCallback(url) => {
            assert_eq!(url, "https://api.twitter.com/oauth/authenticate?oauth_token=reqtok")
        }
        other => panic!("{other:?}"),
    }
    let action = flow.step(FlowEvent::Callback(
        "http://cb.local/auth?oauth_token=othertok&oauth_verifier=ver".to_owned(),
    ));
    match action {
        FlowAction::Abort(
            FlowStage::CallbackReceived,
            FlowAbort::ProtocolInvariantViolation(ProtocolViolation::CallbackTokenMismatch),
        ) => {}
        other => panic!("{other:?}"),
    }
    assert!(matches!(flow.state, FlowState::Aborted(_)));
}

#[test]
fn flow_full_handshake_with_invalidation() {
    let mut flow = started(true);
    flow.step(FlowEvent::RequestTokenResponse(EndpointRet::Success(request_token(true))));
    match flow.step(FlowEvent::Callback(
        "http://cb.local/auth?oauth_token=reqtok&oauth_verifier=ver%2B1".to_owned(),
    )) {
        FlowAction::SendAccessToken(ep) => {
            assert_eq!(ep.authentication_request_token.request_token, "reqtok");
            assert_eq!(ep.authentication_request_token.secret, "reqsecret");
            assert_eq!(ep.oauth_verifier, "ver+1");
        }
        other => panic!("{other:?}"),
    }
    match flow.step(FlowEvent::AccessTokenResponse(EndpointRet::Success(access_token()))) {
        FlowAction::SendInvalidateToken(ep) => {
            assert_eq!(ep.authentication_access_token.access_token, "acctok");
        }
        other => panic!("{other:?}"),
    }
    let done = flow.step(FlowEvent::InvalidateTokenResponse(EndpointRet::Success(
        InvalidateTokenResponseBody { access_token: "acctok".to_owned() },
    )));
    match done {
        FlowAction::Finish(b) => assert_eq!(b.user_id, 6253282),
        other => panic!("{other:?}"),
    }
    assert!(matches!(flow.state, FlowState::Done));
}

#[test]
fn flow_rejected_request_token_reports_status_and_body() {
    let mut flow = started(false);
    let action = flow.step(FlowEvent::RequestTokenResponse(EndpointRet::Other((
        503,
        Err(b"busy".to_vec()),
    ))));
    match action {
        FlowAction::Abort(FlowStage::Start, FlowAbort::Rejected(503, Err(raw))) => {
            assert_eq!(raw, b"busy".to_vec())
        }
        other => panic!("{other:?}"),
    }
}

#[test]
fn flow_invalidated_token_must_match() {
    let mut flow = started(true);
    flow.step(FlowEvent::RequestTokenResponse(EndpointRet::Success(request_token(true))));
    flow.step(FlowEvent::Callback("http://cb.local/?oauth_token=reqtok&oauth_verifier=v".to_owned()));
    flow.step(FlowEvent::AccessTokenResponse(EndpointRet::Success(access_token())));
    let action = flow.step(FlowEvent::InvalidateTokenResponse(EndpointRet::Success(
        InvalidateTokenResponseBody { access_token: "other".to_owned() },
    )));
    assert!(matches!(
        action,
        FlowAction::Abort(
            FlowStage::AccessTokenObtained,
            FlowAbort::ProtocolInvariantViolation(ProtocolViolation::InvalidatedTokenMismatch)
        )
    ));
}

#[test]
fn flow_malformed_callback_and_timeout() {
    let mut flow = started(false);
    flow.step(FlowEvent::RequestTokenResponse(EndpointRet::Success(request_token(true))));
    let action = flow.step(FlowEvent::Callback("not a url".to_owned()));
    assert!(matches!(
        action,
        FlowAction::Abort(FlowStage::UserAuthorizedExternally, FlowAbort::MalformedCallback)
    ));

    let mut flow = started(false);
    flow.step(FlowEvent::RequestTokenResponse(EndpointRet::Success(request_token(true))));
    let action = flow.step(FlowEvent::CallbackTimedOut);
    assert!(matches!(
        action,
        FlowAction::Abort(FlowStage::UserAuthorizedExternally, FlowAbort::Timeout)
    ));
}

#[test]
fn flow_rejection_keeps_the_failure_body() {
    let mut flow = started(false);
    flow.step(FlowEvent::RequestTokenResponse(EndpointRet::Success(request_token(true))));
    flow.step(FlowEvent::Callback("http://cb.local/?oauth_token=reqtok&oauth_verifier=v".to_owned()));
    let body = oauth1_twitter::ResponseBodyFail {
        errors: vec![oauth1_twitter::ResponseBodyFailError { code: 89, message: "Invalid or expired token.".to_owned() }],
    };
    match flow.step(FlowEvent::AccessTokenResponse(EndpointRet::Other((401, Ok(body))))) {
        FlowAction::Abort(FlowStage::CallbackReceived, FlowAbort::Rejected(401, Ok(f))) => {
            assert_eq!(f.errors[0].code, 89)
        }
        other => panic!("{other:?}"),
    }
    assert!(matches!(flow.state, FlowState::Aborted(FlowStage::CallbackReceived)));
}
