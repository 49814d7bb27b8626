use vstd::prelude::*;
use crate::decode::{api_error_of, error_from_response};
use crate::error::{ErrorView, WazuhError};
use crate::http::{
    bearer, bearer_header, is_success, is_success_status, HttpMethod, OutboundRequest, RawResponse,
    RequestView, ResponseView, UNAUTHORIZED,
};
use crate::json::{json_str_at, str_at};
use crate::text::opt_text;

verus! {

/// Padded standard base64 of the UTF-8 bytes of `s`.
pub uninterp spec fn base64_text(s: Seq<char>) -> Seq<char>;

/// Relies on base64's `Engine::encode` with the `STANDARD` engine: the padded
/// standard base64 of the UTF-8 bytes of `s`.
#[verifier::external_body]
fn base64_standard(s: &str) -> (r: String)
    ensures
        r@ == base64_text(s@),
{
    base64::Engine::encode(&base64::engine::general_purpose::STANDARD, s)
}

/// Path of the login endpoint, under the base URL.
pub open spec fn login_url(base: Seq<char>) -> Seq<char> {
    base + "/security/user/authenticate"@
}

/// Path of the endpoint that probes whether a token is still accepted.
pub open spec fn probe_url(base: Seq<char>) -> Seq<char> {
    base + "/security/user/authenticate/run_as"@
}

/// The `Authorization` value of HTTP Basic authentication, once
/// `username:password` has been encoded.
pub open spec fn basic_from_encoded(encoded: Seq<char>) -> Seq<char> {
    "Basic "@ + encoded
}

/// The `Authorization` value of HTTP Basic authentication.
pub open spec fn basic(username: Seq<char>, password: Seq<char>) -> Seq<char> {
    basic_from_encoded(base64_text(username + ":"@ + password))
}

/// The probe: a GET of the probe endpoint with the stored token.
pub open spec fn probe_request(base: Seq<char>, token: Seq<char>) -> RequestView {
    RequestView { method: HttpMethod::Get, url: probe_url(base), authorization: bearer(token), body: None }
}

/// The login: a POST to the login endpoint with the credentials.
pub open spec fn login_request(base: Seq<char>, username: Seq<char>, password: Seq<char>) -> RequestView {
    RequestView {
        method: HttpMethod::Post,
        url: login_url(base),
        authorization: basic(username, password),
        body: None,
    }
}

/// Where a login attempt stands.
#[derive(Debug, Clone, Copy, PartialEq, Eq, Structural)]
pub enum AuthPhase {
    /// The probe with the stored token is out.
    Probing,
    /// The login request is out.
    LoggingIn,
    /// An outcome has been given; no further event is taken.
    Finished,
}

/// What the caller must do next for a login attempt.
#[derive(Debug)]
pub enum AuthAction {
    /// Send this request and report its response or its failure.
    Send(OutboundRequest),
    /// The stored token is still accepted: leave it and succeed.
    KeepToken,
    /// Store this new token and succeed.
    StoreToken(String),
    /// Give up with this error; the stored token stays as it is.
    Fail(WazuhError),
}

pub ghost enum AuthActionView {
    Send(RequestView),
    KeepToken,
    StoreToken(Seq<char>),
    Fail(ErrorView),
}

impl View for AuthAction {
    type V = AuthActionView;

    open spec fn view(&self) -> AuthActionView {
        match self {
            AuthAction::Send(r) => AuthActionView::Send(r@),
            AuthAction::KeepToken => AuthActionView::KeepToken,
            AuthAction::StoreToken(t) => AuthActionView::StoreToken(t@),
            AuthAction::Fail(e) => AuthActionView::Fail(e@),
        }
    }
}

/// The decisions of one login attempt. It starts from a snapshot of the
/// stored credentials and token; the caller performs each request it asks
/// for, without holding the token store's lock, and feeds back the outcome.
pub struct Authenticator {
    base_url: String,
    username: Option<String>,
    password: Option<String>,
    phase: AuthPhase,
}

pub ghost struct AuthState {
    pub base_url: Seq<char>,
    pub username: Option<Seq<char>>,
    pub password: Option<Seq<char>>,
    pub phase: AuthPhase,
}

impl View for Authenticator {
    type V = AuthState;

    closed spec fn view(&self) -> AuthState {
        AuthState {
            base_url: self.base_url@,
            username: opt_text(self.username),
            password: opt_text(self.password),
            phase: self.phase,
        }
    }
}

/// Without a usable token: log in if both credentials are there, else fail
/// without any request.
pub open spec fn login_or_refuse(
    base: Seq<char>,
    username: Option<Seq<char>>,
    password: Option<Seq<char>>,
) -> (AuthPhase, AuthActionView) {
    match (username, password) {
        (Some(u), Some(p)) => (AuthPhase::LoggingIn, AuthActionView::Send(login_request(base, u, p))),
        _ => (
            AuthPhase::Finished,
            AuthActionView::Fail(ErrorView::Authentication("credentials required"@)),
        ),
    }
}

/// The first decision: probe a stored token, else go to login.
pub open spec fn auth_begin(
    base: Seq<char>,
    username: Option<Seq<char>>,
    password: Option<Seq<char>>,
    token: Option<Seq<char>>,
) -> (AuthPhase, AuthActionView) {
    match token {
        Some(t) => (AuthPhase::Probing, AuthActionView::Send(probe_request(base, t))),
        None => login_or_refuse(base, username, password),
    }
}

/// The outcome of a login response, once its token field has been read.
pub open spec fn login_outcome(r: ResponseView, token: Option<Seq<char>>) -> AuthActionView {
    if !is_success_status(r.status) {
        AuthActionView::Fail(api_error_of(r))
    } else {
        match token {
            Some(t) => AuthActionView::StoreToken(t),
            None => AuthActionView::Fail(ErrorView::Serialization("Failed to parse login response"@)),
        }
    }
}

/// The decision on a response: after the probe, keep the token unless it was
/// refused as unauthorized; after the login, store the issued token.
pub open spec fn auth_on_response(s: AuthState, r: ResponseView) -> (AuthPhase, AuthActionView) {
    if s.phase == AuthPhase::Probing {
        if r.status != UNAUTHORIZED {
            (AuthPhase::Finished, AuthActionView::KeepToken)
        } else {
            login_or_refuse(s.base_url, s.username, s.password)
        }
    } else {
        (AuthPhase::Finished, login_outcome(r, json_str_at(r.body, "/data/token"@)))
    }
}

/// With a stored token that the probe does not refuse as unauthorized, a
/// login attempt sends the probe alone, never the login request, and keeps
/// the stored token.
pub proof fn lemma_valid_token_probe_only(
    base_url: Seq<char>,
    username: Option<Seq<char>>,
    password: Option<Seq<char>>,
    token: Seq<char>,
    answer: ResponseView,
)
    requires
        answer.status != UNAUTHORIZED,
    ensures
        ({
            let (phase0, a0) = auth_begin(base_url, username, password, Some(token));
            let s0 = AuthState { base_url, username, password, phase: phase0 };
            let (phase1, a1) = auth_on_response(s0, answer);
            &&& a0 == AuthActionView::Send(probe_request(base_url, token))
            &&& probe_request(base_url, token).url != login_url(base_url)
            &&& phase1 == AuthPhase::Finished && a1 == AuthActionView::KeepToken
        }),
{
    reveal_strlit("/security/user/authenticate");
    reveal_strlit("/security/user/authenticate/run_as");
    assert(probe_url(base_url).len() != login_url(base_url).len());
}

/// The decision on a transport failure: the attempt fails with it.
pub open spec fn auth_abort(e: ErrorView) -> (AuthPhase, AuthActionView) {
    (AuthPhase::Finished, AuthActionView::Fail(e))
}

/// What the caller reports to a login attempt.
pub ghost enum AuthEvent {
    /// The answer to the request last sent.
    Answer(ResponseView),
    /// The transport failure of the request last sent.
    Broken(ErrorView),
}

/// The decision on one event.
pub open spec fn auth_step(s: AuthState, e: AuthEvent) -> (AuthPhase, AuthActionView) {
    match e {
        AuthEvent::Answer(r) => auth_on_response(s, r),
        AuthEvent::Broken(x) => auth_abort(x),
    }
}

/// The actions of a login attempt that takes `events` in turn from state
/// `s`, until it has finished.
pub open spec fn auth_trace(s: AuthState, events: Seq<AuthEvent>) -> Seq<AuthActionView>
    decreases events.len(),
{
    if events.len() == 0 || s.phase == AuthPhase::Finished {
        seq![]
    } else {
        let (p, a) = auth_step(s, events[0]);
        seq![a] + auth_trace(AuthState { phase: p, ..s }, events.subrange(1, events.len() as int))
    }
}

/// How many of `actions` send a request.
pub open spec fn auth_sends_in(actions: Seq<AuthActionView>) -> nat
    decreases actions.len(),
{
    if actions.len() == 0 {
        0
    } else {
        (if actions[0] is Send { 1nat } else { 0nat }) + auth_sends_in(actions.subrange(1, actions.len() as int))
    }
}

proof fn lemma_auth_sends_of_prefixed(a: AuthActionView, rest: Seq<AuthActionView>)
    ensures
        auth_sends_in(seq![a] + rest) == (if a is Send { 1nat } else { 0nat }) + auth_sends_in(rest),
{
    let t = seq![a] + rest;
    assert(t.subrange(1, t.len() as int) =~= rest);
}

proof fn lemma_auth_trace_bounded(s: AuthState, events: Seq<AuthEvent>)
    ensures
        auth_sends_in(auth_trace(s, events)) <= (if s.phase == AuthPhase::Probing { 1nat } else { 0nat }),
        s.phase == AuthPhase::LoggingIn ==> auth_sends_in(auth_trace(s, events)) == 0,
    decreases events.len(),
{
    if events.len() == 0 || s.phase == AuthPhase::Finished {
    } else {
        let (p, a) = auth_step(s, events[0]);
        let rest = events.subrange(1, events.len() as int);
        lemma_auth_trace_bounded(AuthState { phase: p, ..s }, rest);
        lemma_auth_sends_of_prefixed(a, auth_trace(AuthState { phase: p, ..s }, rest));
    }
}

/// Whatever the caller reports, a login attempt sends at most two requests:
/// the probe of a stored token, then the login itself; and once the login is
/// out it sends nothing more.
pub proof fn lemma_login_sends_at_most_twice(
    base_url: Seq<char>,
    username: Option<Seq<char>>,
    password: Option<Seq<char>>,
    token: Option<Seq<char>>,
    events: Seq<AuthEvent>,
)
    ensures
        ({
            let (phase0, a0) = auth_begin(base_url, username, password, token);
            let actions = seq![a0] + auth_trace(AuthState { base_url, username, password, phase: phase0 }, events);
            &&& auth_sends_in(actions) <= 2
            &&& token is None ==> auth_sends_in(actions) <= 1
        }),
{
    let (phase0, a0) = auth_begin(base_url, username, password, token);
    let s0 = AuthState { base_url, username, password, phase: phase0 };
    lemma_auth_trace_bounded(s0, events);
    lemma_auth_sends_of_prefixed(a0, auth_trace(s0, events));
}

/// The `Authorization` value of HTTP Basic authentication, from the encoded
/// credentials.
pub fn basic_header_from_encoded(encoded: &str) -> (r: String)
    ensures
        r@ == basic_from_encoded(encoded@),
{
    let mut s = String::from_str("Basic ");
    s.append(encoded);
    s
}

/// The `Authorization` value of HTTP Basic authentication.
pub fn basic_header(username: &str, password: &str) -> (r: String)
    ensures
        r@ == basic(username@, password@),
{
    let mut pair = String::from_str(username);
    pair.append(":");
    pair.append(password);
    let encoded = base64_standard(pair.as_str());
    basic_header_from_encoded(encoded.as_str())
}

/// The outcome of a login response, once its token field has been read.
pub fn login_outcome_from(r: RawResponse, token: Option<String>) -> (a: AuthAction)
    ensures
        a@ == login_outcome(r@, opt_text(token)),
{
    if !is_success(r.status) {
        AuthAction::Fail(error_from_response(r))
    } else {
        match token {
            Some(t) => AuthAction::StoreToken(t),
            None => AuthAction::Fail(
                WazuhError::SerializationError(String::from_str("Failed to parse login response")),
            ),
        }
    }
}

impl Authenticator {
    pub open spec fn is_finished(&self) -> bool {
        self@.phase == AuthPhase::Finished
    }

    /// Where the attempt stands.
    pub fn phase(&self) -> (r: AuthPhase)
        ensures
            r == self@.phase,
    {
        self.phase
    }

    fn begin_login(&mut self) -> (a: AuthAction)
        ensures
            ({
                let (phase, action) = login_or_refuse(
                    old(self)@.base_url,
                    old(self)@.username,
                    old(self)@.password,
                );
                final(self)@ == (AuthState { phase, ..old(self)@ }) && a@ == action
            }),
    {
        match (&self.username, &self.password) {
            (Some(u), Some(p)) => {
                let mut url = self.base_url.clone();
                url.append("/security/user/authenticate");
                let req = OutboundRequest {
                    method: HttpMethod::Post,
                    url,
                    authorization: basic_header(u.as_str(), p.as_str()),
                    body: None,
                };
                self.phase = AuthPhase::LoggingIn;
                AuthAction::Send(req)
            },
            _ => {
                self.phase = AuthPhase::Finished;
                AuthAction::Fail(
                    WazuhError::AuthenticationError(String::from_str("credentials required")),
                )
            },
        }
    }

    /// Starts a login attempt from the base URL and a snapshot of the stored
    /// credentials and token.
    pub fn begin(
        base_url: &str,
        username: Option<String>,
        password: Option<String>,
        token: Option<String>,
    ) -> (r: (Authenticator, AuthAction))
        ensures
            (r.0@.phase, r.1@) == auth_begin(base_url@, opt_text(username), opt_text(password), opt_text(token)),
            r.0@.base_url == base_url@,
            r.0@.username == opt_text(username),
            r.0@.password == opt_text(password),
    {
        let mut m = Authenticator {
            base_url: String::from_str(base_url),
            username,
            password,
            phase: AuthPhase::Probing,
        };
        match token {
            Some(t) => {
                let mut url = String::from_str(base_url);
                url.append("/security/user/authenticate/run_as");
                let req = OutboundRequest {
                    method: HttpMethod::Get,
                    url,
                    authorization: bearer_header(t.as_str()),
                    body: None,
                };
                (m, AuthAction::Send(req))
            },
            None => {
                let a = m.begin_login();
                (m, a)
            },
        }
    }

    /// Takes the response to the request last asked for.
    pub fn on_response(&mut self, r: RawResponse) -> (a: AuthAction)
        requires
            !old(self).is_finished(),
        ensures
            final(self)@ == (AuthState { phase: auth_on_response(old(self)@, r@).0, ..old(self)@ }),
            a@ == auth_on_response(old(self)@, r@).1,
    {
        if self.phase == AuthPhase::Probing {
            if r.status != UNAUTHORIZED {
                self.phase = AuthPhase::Finished;
                AuthAction::KeepToken
            } else {
                self.begin_login()
            }
        } else {
            self.phase = AuthPhase::Finished;
            let token = if is_success(r.status) {
                str_at(r.body.as_str(), "/data/token")
            } else {
                None
            };
            proof {
                if is_success_status(r.status) {
                    assert(opt_text(token) == json_str_at(r.body@, "/data/token"@));
                }
            }
            login_outcome_from(r, token)
        }
    }

    /// Takes a transport failure of the request last asked for: the attempt
    /// fails with it.
    pub fn on_failure(&mut self, e: WazuhError) -> (a: AuthAction)
        requires
            !old(self).is_finished(),
        ensures
            final(self)@ == (AuthState { phase: auth_abort(e@).0, ..old(self)@ }),
            a@ == auth_abort(e@).1,
    {
        self.phase = AuthPhase::Finished;
        AuthAction::Fail(e)
    }
}

} // verus!
