//! The login: the steps from starting the callback receiver to a stored
//! token bundle, in their order.
//!
//! The caller does what each step asks for and reports back what happened;
//! what comes next is decided here.

use vstd::prelude::*;
use crate::auth::authorization_url_text;
use crate::auth::exchange_pairs;
use crate::auth::req_access_token;
use crate::auth::token_failed;
use crate::auth::token_from_response;
use crate::auth::token_outcome;
use crate::auth::AuthError;
use crate::auth::AuthErrorView;
use crate::auth::AuthorizationRequest;
use crate::auth::AuthorizationRequestView;
use crate::auth::AuthorizationResult;
use crate::auth::AuthorizationResultView;
use crate::auth::Grant;
use crate::auth::TokenBundle;
use crate::auth::TokenBundleView;
use crate::auth::TokenRequest;
use crate::auth::TokenRequestView;
use crate::form::form_text;

verus! {

/// How far a login has come.
#[derive(Clone, Copy, Debug, PartialEq, Eq, Structural)]
pub enum LoginState {
    /// Nothing has happened yet.
    Idle,
    /// The callback receiver is being started.
    Starting,
    /// The receiver listens, the browser is being opened.
    Opening,
    /// The browser is open; the one result of the receiver is awaited.
    Waiting,
    /// The code is being traded for tokens.
    Exchanging,
    /// The bundle is to be stored: the login has succeeded.
    Done,
    /// The login has failed.
    Failed,
}

/// What the caller reports.
#[derive(Debug, PartialEq, Eq)]
pub enum LoginEvent {
    /// The user asked to log in.
    Begin,
    /// The callback receiver listens.
    ReceiverReady,
    /// The browser has been sent to the authorization URL.
    BrowserOpened,
    /// The browser could not be opened.
    BrowserFailed,
    /// The receiver handed on its result.
    Callback(AuthorizationResult),
    /// The token endpoint answered at the time `now`.
    TokenResponse { status: u16, body: String, now: i64 },
    /// The token endpoint could not be reached.
    TransportFailed(String),
}

/// The mathematical value of a [`LoginEvent`].
pub enum LoginEventView {
    Begin,
    ReceiverReady,
    BrowserOpened,
    BrowserFailed,
    Callback(AuthorizationResultView),
    TokenResponse { status: u16, body: Seq<char>, now: i64 },
    TransportFailed(Seq<char>),
}

impl View for LoginEvent {
    type V = LoginEventView;

    open spec fn view(&self) -> LoginEventView {
        match self {
            LoginEvent::Begin => LoginEventView::Begin,
            LoginEvent::ReceiverReady => LoginEventView::ReceiverReady,
            LoginEvent::BrowserOpened => LoginEventView::BrowserOpened,
            LoginEvent::BrowserFailed => LoginEventView::BrowserFailed,
            LoginEvent::Callback(result) => LoginEventView::Callback(result@),
            LoginEvent::TokenResponse { status, body, now } => LoginEventView::TokenResponse {
                status: *status,
                body: body@,
                now: *now,
            },
            LoginEvent::TransportFailed(detail) => LoginEventView::TransportFailed(detail@),
        }
    }
}

/// What the caller is to do next.
#[derive(Debug, PartialEq, Eq)]
pub enum LoginAction {
    /// Start the callback receiver, and report when it listens.
    StartReceiver,
    /// Open this URL in the user's browser, and report whether that worked.
    OpenBrowser(String),
    /// Wait, without a time limit, for the one result of the receiver.
    AwaitCallback,
    /// Post this request to the token endpoint, and report the answer.
    Exchange(TokenRequest),
    /// Store this bundle: the user is logged in.
    Store(TokenBundle),
    /// Report this failure and end with a non-zero status.
    Fail(AuthError),
    /// The event does not belong here: nothing is to be done.
    Ignore,
}

/// The mathematical value of a [`LoginAction`].
pub enum LoginActionView {
    StartReceiver,
    OpenBrowser(Seq<char>),
    AwaitCallback,
    Exchange(TokenRequestView),
    Store(TokenBundleView),
    Fail(AuthErrorView),
    Ignore,
}

impl View for LoginAction {
    type V = LoginActionView;

    open spec fn view(&self) -> LoginActionView {
        match self {
            LoginAction::StartReceiver => LoginActionView::StartReceiver,
            LoginAction::OpenBrowser(url) => LoginActionView::OpenBrowser(url@),
            LoginAction::AwaitCallback => LoginActionView::AwaitCallback,
            LoginAction::Exchange(request) => LoginActionView::Exchange(request@),
            LoginAction::Store(bundle) => LoginActionView::Store(bundle@),
            LoginAction::Fail(e) => LoginActionView::Fail(e@),
            LoginAction::Ignore => LoginActionView::Ignore,
        }
    }
}

/// One step of a login: the state that follows, and what is to be done.
///
/// The receiver is started first and the browser is opened only once it
/// listens, so that no redirect can come before there is a listener. A
/// browser that does not open, a redirect without a code and a token
/// endpoint that refuses or cannot be reached each end the login. An event
/// that does not belong to the state changes nothing.
pub open spec fn login_step(
    client: AuthorizationRequestView,
    state: LoginState,
    event: LoginEventView,
) -> (LoginState, LoginActionView) {
    match (state, event) {
        (LoginState::Idle, LoginEventView::Begin) => (
            LoginState::Starting,
            LoginActionView::StartReceiver,
        ),
        (LoginState::Starting, LoginEventView::ReceiverReady) => (
            LoginState::Opening,
            LoginActionView::OpenBrowser(authorization_url_text(client)),
        ),
        (LoginState::Opening, LoginEventView::BrowserOpened) => (
            LoginState::Waiting,
            LoginActionView::AwaitCallback,
        ),
        (LoginState::Opening, LoginEventView::BrowserFailed) => (
            LoginState::Failed,
            LoginActionView::Fail(AuthErrorView::BrowserLaunchFailure),
        ),
        (LoginState::Waiting, LoginEventView::Callback(AuthorizationResultView::Code(code))) => (
            LoginState::Exchanging,
            LoginActionView::Exchange(
                TokenRequestView {
                    url: client.token_endpoint,
                    body: form_text(exchange_pairs(client, code)),
                },
            ),
        ),
        (LoginState::Waiting, LoginEventView::Callback(AuthorizationResultView::Error(reason))) => (
            LoginState::Failed,
            LoginActionView::Fail(AuthErrorView::CallbackDenied(reason)),
        ),
        (LoginState::Exchanging, LoginEventView::TokenResponse { status, body, now }) => {
            match token_outcome(Grant::AuthorizationCode, status, body, now) {
                Ok(bundle) => (LoginState::Done, LoginActionView::Store(bundle)),
                Err(e) => (LoginState::Failed, LoginActionView::Fail(e)),
            }
        },
        (LoginState::Exchanging, LoginEventView::TransportFailed(detail)) => (
            LoginState::Failed,
            LoginActionView::Fail(AuthErrorView::TokenExchangeFailure(detail)),
        ),
        _ => (state, LoginActionView::Ignore),
    }
}

/// Takes a login one step further.
pub fn login(client: &AuthorizationRequest, state: LoginState, event: LoginEvent) -> (r: (
    LoginState,
    LoginAction,
))
    ensures
        (r.0, r.1@) == login_step(client@, state, event@),
{
    match state {
        LoginState::Idle => match event {
            LoginEvent::Begin => (LoginState::Starting, LoginAction::StartReceiver),
            _ => (state, LoginAction::Ignore),
        },
        LoginState::Starting => match event {
            LoginEvent::ReceiverReady => (
                LoginState::Opening,
                LoginAction::OpenBrowser(client.authorization_url()),
            ),
            _ => (state, LoginAction::Ignore),
        },
        LoginState::Opening => match event {
            LoginEvent::BrowserOpened => (LoginState::Waiting, LoginAction::AwaitCallback),
            LoginEvent::BrowserFailed => (
                LoginState::Failed,
                LoginAction::Fail(AuthError::BrowserLaunchFailure),
            ),
            _ => (state, LoginAction::Ignore),
        },
        LoginState::Waiting => match event {
            LoginEvent::Callback(AuthorizationResult::Code(code)) => (
                LoginState::Exchanging,
                LoginAction::Exchange(req_access_token(client, code.as_str())),
            ),
            LoginEvent::Callback(AuthorizationResult::Error(reason)) => (
                LoginState::Failed,
                LoginAction::Fail(AuthError::CallbackDenied(reason)),
            ),
            _ => (state, LoginAction::Ignore),
        },
        LoginState::Exchanging => match event {
            LoginEvent::TokenResponse { status, body, now } => {
                match token_from_response(Grant::AuthorizationCode, status, body.as_str(), now) {
                    Ok(bundle) => (LoginState::Done, LoginAction::Store(bundle)),
                    Err(e) => (LoginState::Failed, LoginAction::Fail(e)),
                }
            },
            LoginEvent::TransportFailed(detail) => (
                LoginState::Failed,
                LoginAction::Fail(token_failed(Grant::AuthorizationCode, detail.as_str())),
            ),
            _ => (state, LoginAction::Ignore),
        },
        LoginState::Done => (state, LoginAction::Ignore),
        LoginState::Failed => (state, LoginAction::Ignore),
    }
}

/// The browser is opened in one situation only: right after the callback
/// receiver has reported that it listens.
pub proof fn lemma_receiver_before_browser(
    client: AuthorizationRequestView,
    state: LoginState,
    event: LoginEventView,
)
    requires
        login_step(client, state, event).1 is OpenBrowser,
    ensures
        state == LoginState::Starting,
        event == LoginEventView::ReceiverReady,
        login_step(client, state, event).1 == LoginActionView::OpenBrowser(
            authorization_url_text(client),
        ),
{
}

/// A login that has succeeded or failed stays as it is: nothing is tried
/// again within one invocation.
pub proof fn lemma_ends_are_final(client: AuthorizationRequestView, event: LoginEventView)
    ensures
        login_step(client, LoginState::Done, event) == (LoginState::Done, LoginActionView::Ignore),
        login_step(client, LoginState::Failed, event) == (
            LoginState::Failed,
            LoginActionView::Ignore,
        ),
{
}

/// A bundle is stored only as the answer to a token response, and a login
/// fails exactly where an action reports a failure.
pub proof fn lemma_outcomes(
    client: AuthorizationRequestView,
    state: LoginState,
    event: LoginEventView,
)
    ensures
        login_step(client, state, event).1 is Store ==> state == LoginState::Exchanging
            && login_step(client, state, event).0 == LoginState::Done,
        login_step(client, state, event).1 is Fail <==> state != LoginState::Failed && login_step(
            client,
            state,
            event,
        ).0 == LoginState::Failed,
{
}

} // verus!
