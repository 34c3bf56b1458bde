//! The three-legged handshake as a state machine. The caller performs each
//! action (sends the request, shows the URL and waits for the callback) and
//! hands back what came of it; the machine decides what follows.

use vstd::prelude::*;
use crate::callback::{callback_of_url, CallbackUrlQuery};
use crate::endpoints::access_token::{AccessTokenEndpoint, AccessTokenResponseBody};
use crate::endpoints::authenticate::AuthenticateEndpoint;
use crate::endpoints::authorize::redirect_url;
use crate::endpoints::common::EndpointRet;
use crate::endpoints::invalidate_token::{InvalidateTokenEndpoint, InvalidateTokenResponseBody};
use crate::endpoints::request_token::{RequestTokenEndpoint, RequestTokenResponseBody};
use crate::objects::{ConsumerKey, ResponseBodyFail};

verus! {

/// How far a handshake got.
#[derive(Debug, Clone, Copy, PartialEq, Eq, Structural)]
pub enum FlowStage {
    Start,
    RequestTokenObtained,
    UserAuthorizedExternally,
    CallbackReceived,
    AccessTokenObtained,
    Done,
}

/// A broken rule of the protocol.
#[derive(Debug, Clone, Copy, PartialEq, Eq, Structural)]
pub enum ProtocolViolation {
    /// The provider did not confirm the callback URL.
    CallbackNotConfirmed,
    /// The callback names another request token than the one issued.
    CallbackTokenMismatch,
    /// The provider revoked another token than the one obtained.
    InvalidatedTokenMismatch,
}

/// Why a handshake was given up.
#[derive(Debug)]
pub enum FlowAbort {
    /// The provider answered with this status and failure body, or raw body.
    Rejected(u16, Result<ResponseBodyFail, Vec<u8>>),
    ProtocolInvariantViolation(ProtocolViolation),
    /// The callback URL carries no token and verifier.
    MalformedCallback,
    /// The user did not come back in time.
    Timeout,
    /// A request could not be signed or sent; the caller's description.
    RequestFailed(String),
    /// An event that the current state does not wait for.
    UnexpectedEvent,
}

/// What the caller hands back after an action.
#[derive(Debug)]
pub enum FlowEvent {
    Begin,
    RequestTokenResponse(EndpointRet<RequestTokenResponseBody>),
    /// The URL that the user's browser was sent back to.
    Callback(String),
    CallbackTimedOut,
    AccessTokenResponse(EndpointRet<AccessTokenResponseBody>),
    InvalidateTokenResponse(EndpointRet<InvalidateTokenResponseBody>),
    RequestFailed(String),
}

/// What the caller is to do next.
#[derive(Debug)]
pub enum FlowAction {
    SendRequestToken(RequestTokenEndpoint),
    /// Send the user to this URL and wait for the callback.
    AwaitCallback(String),
    SendAccessToken(AccessTokenEndpoint),
    SendInvalidateToken(InvalidateTokenEndpoint),
    /// The handshake succeeded with this grant.
    Finish(AccessTokenResponseBody),
    /// The handshake failed after reaching the given stage.
    Abort(FlowStage, FlowAbort),
}

/// Where a handshake stands.
#[derive(Debug)]
pub enum FlowState {
    Start,
    AwaitingRequestToken,
    AwaitingCallback(RequestTokenResponseBody),
    AwaitingAccessToken(RequestTokenResponseBody),
    AwaitingInvalidation(AccessTokenResponseBody),
    Done,
    /// Given up after reaching the stage.
    Aborted(FlowStage),
}

/// One handshake for one user: it owns its tokens and is never shared.
#[derive(Debug)]
pub struct ThreeLeggedFlow {
    pub consumer_key: ConsumerKey,
    pub callback_url: String,
    /// Whether to revoke the access token once obtained.
    pub invalidate: bool,
    pub state: FlowState,
}

/// The stage that a state has reached.
pub open spec fn stage_of(s: FlowState) -> FlowStage {
    match s {
        FlowState::Start => FlowStage::Start,
        FlowState::AwaitingRequestToken => FlowStage::Start,
        FlowState::AwaitingCallback(_) => FlowStage::RequestTokenObtained,
        FlowState::AwaitingAccessToken(_) => FlowStage::CallbackReceived,
        FlowState::AwaitingInvalidation(_) => FlowStage::AccessTokenObtained,
        FlowState::Done => FlowStage::Done,
        FlowState::Aborted(stage) => stage,
    }
}

/// Whether `state` waits for `event`.
pub open spec fn expects(state: FlowState, event: FlowEvent) -> bool {
    match (state, event) {
        (FlowState::Start, FlowEvent::Begin) => true,
        (FlowState::AwaitingRequestToken, FlowEvent::RequestTokenResponse(_)) => true,
        (FlowState::AwaitingCallback(_), FlowEvent::Callback(_)) => true,
        (FlowState::AwaitingCallback(_), FlowEvent::CallbackTimedOut) => true,
        (FlowState::AwaitingAccessToken(_), FlowEvent::AccessTokenResponse(_)) => true,
        (FlowState::AwaitingInvalidation(_), FlowEvent::InvalidateTokenResponse(_)) => true,
        _ => false,
    }
}

fn copy_consumer_key(k: &ConsumerKey) -> (r: ConsumerKey)
    ensures
        r.key@ == k.key@,
        r.secret@ == k.secret@,
{
    ConsumerKey::new(k.key.as_str(), k.secret.as_str())
}

impl ThreeLeggedFlow {
    /// A request token is held past its step only once its callback was
    /// confirmed.
    pub open spec fn wf(&self) -> bool {
        match self.state {
            FlowState::AwaitingCallback(rt) => rt.oauth_callback_confirmed,
            FlowState::AwaitingAccessToken(rt) => rt.oauth_callback_confirmed,
            _ => true,
        }
    }

    pub fn new(consumer_key: ConsumerKey, callback_url: &str, invalidate: bool) -> (r: Self)
        ensures
            r.consumer_key == consumer_key,
            r.callback_url@ == callback_url@,
            r.invalidate == invalidate,
            r.state is Start,
            r.wf(),
    {
        ThreeLeggedFlow {
            consumer_key,
            callback_url: callback_url.to_owned(),
            invalidate,
            state: FlowState::Start,
        }
    }

    /// Takes one event and says what to do next.
    ///
    /// A request token whose callback is not confirmed, or a callback that names
    /// another token than the one issued, ends the handshake; the access-token
    /// request is sent only from a callback that names the issued, confirmed
    /// token, and carries that token and the callback's verifier. An ended
    /// handshake stays ended.
    pub fn step(&mut self, event: FlowEvent) -> (action: FlowAction)
        requires
            old(self).wf(),
        ensures
            final(self).wf(),
            final(self).consumer_key == old(self).consumer_key,
            final(self).callback_url == old(self).callback_url,
            final(self).invalidate == old(self).invalidate,
            // Start.
            old(self).state is Start && event is Begin ==> {
                &&& action matches FlowAction::SendRequestToken(ep) && {
                    &&& ep.consumer_key.key@ == old(self).consumer_key.key@
                    &&& ep.consumer_key.secret@ == old(self).consumer_key.secret@
                    &&& ep.oauth_callback@ == old(self).callback_url@
                    &&& ep.x_auth_access_type is None
                }
                &&& final(self).state is AwaitingRequestToken
            },
            // The request token.
            old(self).state is AwaitingRequestToken ==> (event matches FlowEvent::RequestTokenResponse(ret) ==> match ret {
                EndpointRet::Other((status, body)) => (action matches FlowAction::Abort(
                    stage,
                    FlowAbort::Rejected(s, b),
                ) && b == body && stage == FlowStage::Start && s == status) && final(self).state is Aborted,
                EndpointRet::Success(b) => if !b.oauth_callback_confirmed {
                    &&& action matches FlowAction::Abort(
                        FlowStage::RequestTokenObtained,
                        FlowAbort::ProtocolInvariantViolation(
                            ProtocolViolation::CallbackNotConfirmed,
                        ),
                    )
                    &&& final(self).state is Aborted
                } else {
                    &&& action matches FlowAction::AwaitCallback(u) && u@ == redirect_url(
                        crate::endpoints::authenticate::URL@,
                        (b.oauth_token@, None, None),
                    )
                    &&& final(self).state == FlowState::AwaitingCallback(b)
                },
            }),
            // The callback.
            old(self).state matches FlowState::AwaitingCallback(rt) ==> (event matches FlowEvent::Callback(u) ==> match callback_of_url(u@) {
                None => (action matches FlowAction::Abort(
                    FlowStage::UserAuthorizedExternally,
                    FlowAbort::MalformedCallback,
                )) && final(self).state is Aborted,
                Some((token, verifier)) => if token != rt.oauth_token@ {
                    &&& action matches FlowAction::Abort(
                        FlowStage::CallbackReceived,
                        FlowAbort::ProtocolInvariantViolation(
                            ProtocolViolation::CallbackTokenMismatch,
                        ),
                    )
                    &&& final(self).state is Aborted
                } else {
                    &&& action matches FlowAction::SendAccessToken(ep) && {
                        &&& ep.consumer_key.key@ == old(self).consumer_key.key@
                        &&& ep.consumer_key.secret@ == old(self).consumer_key.secret@
                        &&& ep.authentication_request_token.request_token@ == rt.oauth_token@
                        &&& ep.authentication_request_token.secret@ == rt.oauth_token_secret@
                        &&& ep.oauth_verifier@ == verifier
                    }
                    &&& final(self).state == FlowState::AwaitingAccessToken(rt)
                },
            }),
            // The access token.
            old(self).state is AwaitingAccessToken ==> (event matches FlowEvent::AccessTokenResponse(ret) ==> match ret {
                EndpointRet::Other((status, body)) => (action matches FlowAction::Abort(
                    stage,
                    FlowAbort::Rejected(s, b),
                ) && b == body && stage == FlowStage::CallbackReceived && s == status) && final(self).state is Aborted,
                EndpointRet::Success(b) => if old(self).invalidate {
                    &&& action matches FlowAction::SendInvalidateToken(ep) && {
                        &&& ep.consumer_key.key@ == old(self).consumer_key.key@
                        &&& ep.consumer_key.secret@ == old(self).consumer_key.secret@
                        &&& ep.authentication_access_token.access_token@ == b.oauth_token@
                        &&& ep.authentication_access_token.secret@ == b.oauth_token_secret@
                    }
                    &&& final(self).state == FlowState::AwaitingInvalidation(b)
                } else {
                    &&& action == FlowAction::Finish(b)
                    &&& final(self).state is Done
                },
            }),
            // The revocation.
            old(self).state matches FlowState::AwaitingInvalidation(at) ==> (event matches FlowEvent::InvalidateTokenResponse(ret) ==> match ret {
                EndpointRet::Other((status, body)) => (action matches FlowAction::Abort(
                    stage,
                    FlowAbort::Rejected(s, b),
                ) && b == body && stage == FlowStage::AccessTokenObtained && s == status) && final(self).state is Aborted,
                EndpointRet::Success(b) => if b.access_token@ == at.oauth_token@ {
                    &&& action == FlowAction::Finish(at)
                    &&& final(self).state is Done
                } else {
                    &&& action matches FlowAction::Abort(
                        FlowStage::AccessTokenObtained,
                        FlowAbort::ProtocolInvariantViolation(
                            ProtocolViolation::InvalidatedTokenMismatch,
                        ),
                    )
                    &&& final(self).state is Aborted
                },
            }),
            // Only a matching callback leads to the access-token request.
            action is SendAccessToken ==> (old(self).state matches FlowState::AwaitingCallback(rt)
                && event matches FlowEvent::Callback(u) && callback_of_url(u@) matches Some(
                (token, _),
            ) && token == rt.oauth_token@ && rt.oauth_callback_confirmed),
            // The user did not come back in time.
            old(self).state is AwaitingCallback ==> (event is CallbackTimedOut ==> (action matches FlowAction::Abort(
                FlowStage::UserAuthorizedExternally,
                FlowAbort::Timeout,
            ))),
            // A request that could not be made ends the handshake where it stood.
            event matches FlowEvent::RequestFailed(m) ==> (action matches FlowAction::Abort(
                s,
                FlowAbort::RequestFailed(m2),
            ) && s == stage_of(old(self).state) && m2 == m),
            // Any other event that the state does not wait for ends it too.
            !expects(old(self).state, event) && !(event is RequestFailed) ==> (action matches FlowAction::Abort(
                s,
                FlowAbort::UnexpectedEvent,
            ) && s == stage_of(old(self).state)),
            // The handshake succeeds only with the grant of the access-token step,
            // after its revocation was confirmed where one was asked for.
            action matches FlowAction::Finish(b) ==> ((old(self).state is AwaitingAccessToken
                && !old(self).invalidate && event == FlowEvent::AccessTokenResponse(
                EndpointRet::Success(b),
            )) || (old(self).state == FlowState::AwaitingInvalidation(b) && (
            event matches FlowEvent::InvalidateTokenResponse(EndpointRet::Success(ib))
                && ib.access_token@ == b.oauth_token@))),
            // An ended handshake stays ended.
            old(self).state is Aborted ==> (action is Abort && final(self).state == old(self).state),
            // Every abort is remembered with the stage it reports.
            action matches FlowAction::Abort(stage, _) ==> final(self).state == FlowState::Aborted(
                stage,
            ),
    {
        let mut state = FlowState::Aborted(FlowStage::Start);
        std::mem::swap(&mut self.state, &mut state);
        match (state, event) {
            (FlowState::Start, FlowEvent::Begin) => {
                let ep = RequestTokenEndpoint::new(
                    copy_consumer_key(&self.consumer_key),
                    self.callback_url.as_str(),
                );
                self.state = FlowState::AwaitingRequestToken;
                FlowAction::SendRequestToken(ep)
            },
            (FlowState::AwaitingRequestToken, FlowEvent::RequestTokenResponse(ret)) => match ret {
                EndpointRet::Other((status, body)) => self.abort(
                    FlowStage::Start,
                    FlowAbort::Rejected(status, body),
                ),
                EndpointRet::Success(b) => {
                    if !b.oauth_callback_confirmed {
                        self.abort(
                            FlowStage::RequestTokenObtained,
                            FlowAbort::ProtocolInvariantViolation(
                                ProtocolViolation::CallbackNotConfirmed,
                            ),
                        )
                    } else {
                        let ep = AuthenticateEndpoint::new(b.oauth_token.as_str());
                        // Building the redirect URL always succeeds.
                        let u = match ep.authorization_url() {
                            Ok(u) => u,
                            Err(_) => {
                                proof {
                                    assert(false);
                                }
                                String::new()
                            },
                        };
                        self.state = FlowState::AwaitingCallback(b);
                        FlowAction::AwaitCallback(u)
                    }
                },
            },
            (FlowState::AwaitingCallback(rt), FlowEvent::Callback(u)) => {
                match CallbackUrlQuery::from_url(u.as_str()) {
                    None => self.abort(
                        FlowStage::UserAuthorizedExternally,
                        FlowAbort::MalformedCallback,
                    ),
                    Some(q) => {
                        if !crate::text::str_eq(q.oauth_token.as_str(), rt.oauth_token.as_str()) {
                            self.abort(
                                FlowStage::CallbackReceived,
                                FlowAbort::ProtocolInvariantViolation(
                                    ProtocolViolation::CallbackTokenMismatch,
                                ),
                            )
                        } else {
                            let ep = AccessTokenEndpoint::new(
                                copy_consumer_key(&self.consumer_key),
                                rt.authentication_request_token(),
                                q.oauth_verifier.as_str(),
                            );
                            self.state = FlowState::AwaitingAccessToken(rt);
                            FlowAction::SendAccessToken(ep)
                        }
                    },
                }
            },
            (FlowState::AwaitingCallback(_), FlowEvent::CallbackTimedOut) => self.abort(
                FlowStage::UserAuthorizedExternally,
                FlowAbort::Timeout,
            ),
            (FlowState::AwaitingAccessToken(_), FlowEvent::AccessTokenResponse(ret)) => match ret {
                EndpointRet::Other((status, body)) => self.abort(
                    FlowStage::CallbackReceived,
                    FlowAbort::Rejected(status, body),
                ),
                EndpointRet::Success(b) => {
                    if self.invalidate {
                        let ep = InvalidateTokenEndpoint::new(
                            copy_consumer_key(&self.consumer_key),
                            b.authentication_access_token(),
                        );
                        self.state = FlowState::AwaitingInvalidation(b);
                        FlowAction::SendInvalidateToken(ep)
                    } else {
                        self.state = FlowState::Done;
                        FlowAction::Finish(b)
                    }
                },
            },
            (FlowState::AwaitingInvalidation(at), FlowEvent::InvalidateTokenResponse(ret)) => match ret {
                EndpointRet::Other((status, body)) => self.abort(
                    FlowStage::AccessTokenObtained,
                    FlowAbort::Rejected(status, body),
                ),
                EndpointRet::Success(b) => {
                    if crate::text::str_eq(b.access_token.as_str(), at.oauth_token.as_str()) {
                        self.state = FlowState::Done;
                        FlowAction::Finish(at)
                    } else {
                        self.abort(
                            FlowStage::AccessTokenObtained,
                            FlowAbort::ProtocolInvariantViolation(
                                ProtocolViolation::InvalidatedTokenMismatch,
                            ),
                        )
                    }
                },
            },
            (state, FlowEvent::RequestFailed(reason)) => self.abort(
                stage_of_owned(&state),
                FlowAbort::RequestFailed(reason),
            ),
            (state, _) => self.abort(stage_of_owned(&state), FlowAbort::UnexpectedEvent),
        }
    }
}

impl ThreeLeggedFlow {
    fn abort(&mut self, stage: FlowStage, reason: FlowAbort) -> (action: FlowAction)
        ensures
            final(self).consumer_key == old(self).consumer_key,
            final(self).callback_url == old(self).callback_url,
            final(self).invalidate == old(self).invalidate,
            final(self).state == FlowState::Aborted(stage),
            action == FlowAction::Abort(stage, reason),
    {
        self.state = FlowState::Aborted(stage);
        FlowAction::Abort(stage, reason)
    }
}

fn stage_of_owned(s: &FlowState) -> (r: FlowStage)
    ensures
        r == stage_of(*s),
{
    match s {
        FlowState::Start => FlowStage::Start,
        FlowState::AwaitingRequestToken => FlowStage::Start,
        FlowState::AwaitingCallback(_) => FlowStage::RequestTokenObtained,
        FlowState::AwaitingAccessToken(_) => FlowStage::CallbackReceived,
        FlowState::AwaitingInvalidation(_) => FlowStage::AccessTokenObtained,
        FlowState::Done => FlowStage::Done,
        FlowState::Aborted(stage) => *stage,
    }
}

} // verus!
