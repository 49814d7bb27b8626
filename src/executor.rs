use vstd::prelude::*;
use crate::error::{ErrorView, WazuhError};
use crate::http::{
    bearer, bearer_header, resolve_target, target_url, HttpMethod, OutboundRequest, RawResponse,
    RequestView, ResponseView, UNAUTHORIZED,
};
use crate::text::opt_text;

verus! {

/// Where one API call stands.
#[derive(Debug, Clone, Copy, PartialEq, Eq, Structural)]
pub enum ExecPhase {
    /// The first attempt is out.
    AwaitingFirst,
    /// The first attempt was refused as unauthorized; a login is running.
    AwaitingLogin,
    /// The one retry is out.
    AwaitingRetry,
    /// The call has its outcome; no further event is taken.
    Finished,
}

/// What the caller must do next for an API call.
#[derive(Debug)]
pub enum ExecAction {
    /// Send this request and report its response or its failure.
    Send(OutboundRequest),
    /// Run a login attempt, then report the token it left stored, or its
    /// error.
    Authenticate,
    /// The call is over, with this outcome.
    Finish(Result<RawResponse, WazuhError>),
}

pub ghost enum ExecActionView {
    Send(RequestView),
    Authenticate,
    Finish(Result<ResponseView, ErrorView>),
}

impl View for ExecAction {
    type V = ExecActionView;

    open spec fn view(&self) -> ExecActionView {
        match self {
            ExecAction::Send(r) => ExecActionView::Send(r@),
            ExecAction::Authenticate => ExecActionView::Authenticate,
            ExecAction::Finish(Ok(r)) => ExecActionView::Finish(Ok(r@)),
            ExecAction::Finish(Err(e)) => ExecActionView::Finish(Err(e@)),
        }
    }
}

/// The decisions of one API call: send with the stored token, and on an
/// unauthorized answer log in once and resend once.
pub struct Executor {
    method: HttpMethod,
    url: String,
    body: Option<String>,
    phase: ExecPhase,
}

pub ghost struct ExecState {
    pub method: HttpMethod,
    pub url: Seq<char>,
    pub body: Option<Seq<char>>,
    pub phase: ExecPhase,
}

impl View for Executor {
    type V = ExecState;

    closed spec fn view(&self) -> ExecState {
        ExecState { method: self.method, url: self.url@, body: opt_text(self.body), phase: self.phase }
    }
}

/// The request of a call, sent with `token`.
pub open spec fn call_request(
    method: HttpMethod,
    url: Seq<char>,
    body: Option<Seq<char>>,
    token: Seq<char>,
) -> RequestView {
    RequestView { method, url, authorization: bearer(token), body }
}

/// The first decision: without a stored token the call fails at once,
/// otherwise the request goes out.
pub open spec fn exec_begin(
    method: HttpMethod,
    url: Seq<char>,
    body: Option<Seq<char>>,
    token: Option<Seq<char>>,
) -> (ExecPhase, ExecActionView) {
    match token {
        Some(t) => (ExecPhase::AwaitingFirst, ExecActionView::Send(call_request(method, url, body, t))),
        None => (
            ExecPhase::Finished,
            ExecActionView::Finish(Err(ErrorView::Authentication("not authenticated"@))),
        ),
    }
}

/// The decision on a response: an unauthorized first answer starts a login;
/// any other answer, and any answer to the retry, is the outcome.
pub open spec fn exec_on_response(s: ExecState, r: ResponseView) -> (ExecPhase, ExecActionView) {
    if s.phase == ExecPhase::AwaitingFirst && r.status == UNAUTHORIZED {
        (ExecPhase::AwaitingLogin, ExecActionView::Authenticate)
    } else {
        (ExecPhase::Finished, ExecActionView::Finish(Ok(r)))
    }
}

/// The decision after a successful login: resend with the token now stored.
pub open spec fn exec_on_login(s: ExecState, token: Option<Seq<char>>) -> (ExecPhase, ExecActionView) {
    match token {
        Some(t) => (ExecPhase::AwaitingRetry, ExecActionView::Send(call_request(s.method, s.url, s.body, t))),
        None => (
            ExecPhase::Finished,
            ExecActionView::Finish(Err(ErrorView::Authentication("failed to get new token"@))),
        ),
    }
}

/// The decision on a transport failure, or on a failed login: the call fails
/// with that error.
pub open spec fn exec_abort(e: ErrorView) -> (ExecPhase, ExecActionView) {
    (ExecPhase::Finished, ExecActionView::Finish(Err(e)))
}

/// A call made while no token is stored fails with an authentication error
/// and sends nothing.
pub proof fn lemma_no_token_no_request(
    method: HttpMethod,
    base_url: Seq<char>,
    target: Seq<char>,
    body: Option<Seq<char>>,
)
    ensures
        ({
            let (phase, action) = exec_begin(method, target_url(base_url, target), body, None);
            &&& phase == ExecPhase::Finished
            &&& !(action is Send)
            &&& action == ExecActionView::Finish(Err(ErrorView::Authentication("not authenticated"@)))
        }),
{
}

/// When the first answer is unauthorized and the login then succeeds, the
/// call sends exactly two requests, the same request with the old token and
/// then with the new one, and its outcome is the second answer, whatever its
/// status; after that it takes no further event.
pub proof fn lemma_single_retry(
    method: HttpMethod,
    base_url: Seq<char>,
    target: Seq<char>,
    body: Option<Seq<char>>,
    token: Seq<char>,
    fresh: Seq<char>,
    first: ResponseView,
    second: ResponseView,
)
    requires
        first.status == UNAUTHORIZED,
    ensures
        ({
            let url = target_url(base_url, target);
            let (phase0, a0) = exec_begin(method, url, body, Some(token));
            let s0 = ExecState { method, url, body, phase: phase0 };
            let (phase1, a1) = exec_on_response(s0, first);
            let s1 = ExecState { phase: phase1, ..s0 };
            let (phase2, a2) = exec_on_login(s1, Some(fresh));
            let s2 = ExecState { phase: phase2, ..s1 };
            let (phase3, a3) = exec_on_response(s2, second);
            &&& a0 == ExecActionView::Send(call_request(method, url, body, token))
            &&& phase1 == ExecPhase::AwaitingLogin && a1 == ExecActionView::Authenticate
            &&& a2 == ExecActionView::Send(call_request(method, url, body, fresh))
            &&& phase2 == ExecPhase::AwaitingRetry
            &&& phase3 == ExecPhase::Finished && a3 == ExecActionView::Finish(Ok(second))
        }),
{
}

/// When the first answer is unauthorized and the login fails, the call
/// fails with the login's error and sends nothing more.
pub proof fn lemma_failed_login_stops(
    method: HttpMethod,
    base_url: Seq<char>,
    target: Seq<char>,
    body: Option<Seq<char>>,
    token: Seq<char>,
    first: ResponseView,
    e: ErrorView,
)
    requires
        first.status == UNAUTHORIZED,
    ensures
        ({
            let url = target_url(base_url, target);
            let (phase0, a0) = exec_begin(method, url, body, Some(token));
            let s0 = ExecState { method, url, body, phase: phase0 };
            let (phase1, a1) = exec_on_response(s0, first);
            let (phase2, a2) = exec_abort(e);
            &&& a0 == ExecActionView::Send(call_request(method, url, body, token))
            &&& phase1 == ExecPhase::AwaitingLogin && a1 == ExecActionView::Authenticate
            &&& phase2 == ExecPhase::Finished && a2 == ExecActionView::Finish(Err(e))
        }),
{
}

/// What the caller reports to a call.
pub ghost enum ExecEvent {
    /// The answer to the request last sent.
    Answer(ResponseView),
    /// The transport failure of the request last sent.
    Broken(ErrorView),
    /// A successful login, and the token then stored.
    LoggedIn(Option<Seq<char>>),
    /// A failed login.
    LoginFailed(ErrorView),
}

/// Whether a call in phase `p` takes the event `e`.
pub open spec fn exec_accepts(p: ExecPhase, e: ExecEvent) -> bool {
    match e {
        ExecEvent::Answer(_) | ExecEvent::Broken(_) => p == ExecPhase::AwaitingFirst || p
            == ExecPhase::AwaitingRetry,
        ExecEvent::LoggedIn(_) | ExecEvent::LoginFailed(_) => p == ExecPhase::AwaitingLogin,
    }
}

/// The decision on one event.
pub open spec fn exec_step(s: ExecState, e: ExecEvent) -> (ExecPhase, ExecActionView) {
    match e {
        ExecEvent::Answer(r) => exec_on_response(s, r),
        ExecEvent::Broken(x) => exec_abort(x),
        ExecEvent::LoggedIn(t) => exec_on_login(s, t),
        ExecEvent::LoginFailed(x) => exec_abort(x),
    }
}

/// The actions of a call that takes `events` in turn from state `s`, up to
/// the first event it does not take.
pub open spec fn exec_trace(s: ExecState, events: Seq<ExecEvent>) -> Seq<ExecActionView>
    decreases events.len(),
{
    if events.len() == 0 || !exec_accepts(s.phase, events[0]) {
        seq![]
    } else {
        let (p, a) = exec_step(s, events[0]);
        seq![a] + exec_trace(ExecState { phase: p, ..s }, events.subrange(1, events.len() as int))
    }
}

/// How many of `actions` send a request.
pub open spec fn sends_in(actions: Seq<ExecActionView>) -> nat
    decreases actions.len(),
{
    if actions.len() == 0 {
        0
    } else {
        (if actions[0] is Send { 1nat } else { 0nat }) + sends_in(actions.subrange(1, actions.len() as int))
    }
}

/// How many of `actions` ask for a login.
pub open spec fn logins_in(actions: Seq<ExecActionView>) -> nat
    decreases actions.len(),
{
    if actions.len() == 0 {
        0
    } else {
        (if actions[0] is Authenticate { 1nat } else { 0nat }) + logins_in(actions.subrange(1, actions.len() as int))
    }
}

/// How many more requests a call in phase `p` may still send.
pub open spec fn sends_left(p: ExecPhase) -> nat {
    if p == ExecPhase::AwaitingFirst || p == ExecPhase::AwaitingLogin {
        1
    } else {
        0
    }
}

proof fn lemma_counts_of_prefixed(a: ExecActionView, rest: Seq<ExecActionView>)
    ensures
        sends_in(seq![a] + rest) == (if a is Send { 1nat } else { 0nat }) + sends_in(rest),
        logins_in(seq![a] + rest) == (if a is Authenticate { 1nat } else { 0nat }) + logins_in(rest),
{
    let t = seq![a] + rest;
    assert(t.subrange(1, t.len() as int) =~= rest);
}

proof fn lemma_trace_bounded(s: ExecState, events: Seq<ExecEvent>)
    ensures
        sends_in(exec_trace(s, events)) <= sends_left(s.phase),
        logins_in(exec_trace(s, events)) <= (if s.phase == ExecPhase::AwaitingFirst { 1nat } else { 0nat }),
    decreases events.len(),
{
    if events.len() == 0 || !exec_accepts(s.phase, events[0]) {
    } else {
        let (p, a) = exec_step(s, events[0]);
        let rest = events.subrange(1, events.len() as int);
        lemma_trace_bounded(ExecState { phase: p, ..s }, rest);
        lemma_counts_of_prefixed(a, exec_trace(ExecState { phase: p, ..s }, rest));
    }
}

/// Whatever the caller reports, one call sends at most two requests (the
/// first and a single retry) and asks for at most one login: there is no
/// retry loop.
pub proof fn lemma_call_sends_at_most_twice(
    method: HttpMethod,
    url: Seq<char>,
    body: Option<Seq<char>>,
    token: Option<Seq<char>>,
    events: Seq<ExecEvent>,
)
    ensures
        ({
            let (phase0, a0) = exec_begin(method, url, body, token);
            let actions = seq![a0] + exec_trace(ExecState { method, url, body, phase: phase0 }, events);
            sends_in(actions) <= 2 && logins_in(actions) <= 1
        }),
{
    let (phase0, a0) = exec_begin(method, url, body, token);
    let s0 = ExecState { method, url, body, phase: phase0 };
    lemma_trace_bounded(s0, events);
    lemma_counts_of_prefixed(a0, exec_trace(s0, events));
}

impl Executor {
    pub open spec fn is_finished(&self) -> bool {
        self@.phase == ExecPhase::Finished
    }

    pub open spec fn awaits_response(&self) -> bool {
        self@.phase == ExecPhase::AwaitingFirst || self@.phase == ExecPhase::AwaitingRetry
    }

    pub open spec fn awaits_login(&self) -> bool {
        self@.phase == ExecPhase::AwaitingLogin
    }

    /// Where the call stands.
    pub fn phase(&self) -> (r: ExecPhase)
        ensures
            r == self@.phase,
    {
        self.phase
    }

    fn request_with(&self, token: &str) -> (r: OutboundRequest)
        ensures
            r@ == call_request(self@.method, self@.url, self@.body, token@),
    {
        OutboundRequest {
            method: self.method,
            url: self.url.clone(),
            authorization: bearer_header(token),
            body: self.body.clone(),
        }
    }

    /// Starts a call of `method` on `target` (a path under `base_url`, or an
    /// absolute URL), with an optional JSON body and the token read from the
    /// store.
    pub fn begin(
        method: HttpMethod,
        target: &str,
        body: Option<String>,
        base_url: &str,
        token: Option<String>,
    ) -> (r: (Executor, ExecAction))
        ensures
            r.0@.method == method,
            r.0@.url == target_url(base_url@, target@),
            r.0@.body == opt_text(body),
            (r.0@.phase, r.1@) == exec_begin(method, target_url(base_url@, target@), opt_text(body), opt_text(token)),
    {
        let url = resolve_target(base_url, target);
        let mut m = Executor { method, url, body, phase: ExecPhase::AwaitingFirst };
        match token {
            Some(t) => {
                let req = m.request_with(t.as_str());
                (m, ExecAction::Send(req))
            },
            None => {
                m.phase = ExecPhase::Finished;
                let e = WazuhError::AuthenticationError(String::from_str("not authenticated"));
                (m, ExecAction::Finish(Err(e)))
            },
        }
    }

    /// Takes the response to the request last sent.
    pub fn on_response(&mut self, r: RawResponse) -> (a: ExecAction)
        requires
            old(self).awaits_response(),
        ensures
            final(self)@ == (ExecState { phase: exec_on_response(old(self)@, r@).0, ..old(self)@ }),
            a@ == exec_on_response(old(self)@, r@).1,
    {
        if self.phase == ExecPhase::AwaitingFirst && r.status == UNAUTHORIZED {
            self.phase = ExecPhase::AwaitingLogin;
            ExecAction::Authenticate
        } else {
            self.phase = ExecPhase::Finished;
            ExecAction::Finish(Ok(r))
        }
    }

    /// Takes a transport failure of the request last sent: the call fails
    /// with it, and no login is tried.
    pub fn on_failure(&mut self, e: WazuhError) -> (a: ExecAction)
        requires
            old(self).awaits_response(),
        ensures
            final(self)@ == (ExecState { phase: exec_abort(e@).0, ..old(self)@ }),
            a@ == exec_abort(e@).1,
    {
        self.phase = ExecPhase::Finished;
        ExecAction::Finish(Err(e))
    }

    /// Takes the end of a successful login and the token then stored.
    pub fn on_login(&mut self, token: Option<String>) -> (a: ExecAction)
        requires
            old(self).awaits_login(),
        ensures
            final(self)@ == (ExecState { phase: exec_on_login(old(self)@, opt_text(token)).0, ..old(self)@ }),
            a@ == exec_on_login(old(self)@, opt_text(token)).1,
    {
        match token {
            Some(t) => {
                self.phase = ExecPhase::AwaitingRetry;
                ExecAction::Send(self.request_with(t.as_str()))
            },
            None => {
                self.phase = ExecPhase::Finished;
                let e = WazuhError::AuthenticationError(String::from_str("failed to get new token"));
                ExecAction::Finish(Err(e))
            },
        }
    }

    /// Takes the error of a failed login: the call fails with it and nothing
    /// is resent.
    pub fn on_login_failed(&mut self, e: WazuhError) -> (a: ExecAction)
        requires
            old(self).awaits_login(),
        ensures
            final(self)@ == (ExecState { phase: exec_abort(e@).0, ..old(self)@ }),
            a@ == exec_abort(e@).1,
    {
        self.phase = ExecPhase::Finished;
        ExecAction::Finish(Err(e))
    }
}

} // verus!
