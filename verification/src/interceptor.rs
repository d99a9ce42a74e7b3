//! The per-request decision: pass the request through, or answer it with a
//! redirect built from its path and the trigger header's value.

use vstd::prelude::*;
use crate::entries::{lacks, lemma_lookup_none_iff_lacks, lookup};
use crate::policy::{Policy, PolicyStore, PolicyView};
use crate::request::{
    header_views, lemma_without_lacks, lookup_or_empty, without, Header, HeaderSeq, RequestView,
    PATH_HEADER,
};
use crate::text::{
    contains, join, lemma_occurs_as_suffix, lemma_occurs_in_empty, occurs_in, text_of,
};

verus! {

/// The status of every redirect the filter sends.
pub const REDIRECT_STATUS: u16 = 302;

/// The response header that carries the redirect's target.
pub const LOCATION_HEADER: &'static str = "Location";

/// What the host does with the request after a callback.
#[derive(Debug, Clone, Copy, PartialEq, Eq, Structural)]
pub enum Action {
    /// Go on with the request.
    Continue,
    /// Stop: the request has been answered.
    Pause,
}

/// What a [`RedirectDecision`] says, as plain text.
pub enum DecisionView {
    PassThrough,
    Redirect { location: Seq<char>, status: u16 },
}

/// The filter's verdict on one request.
#[derive(Debug, PartialEq, Eq)]
pub enum RedirectDecision {
    /// The request goes on untouched.
    PassThrough,
    /// The request is answered with a redirect to `location`.
    Redirect { location: String, status: u16 },
}

impl View for RedirectDecision {
    type V = DecisionView;

    open spec fn view(&self) -> DecisionView {
        match self {
            RedirectDecision::PassThrough => DecisionView::PassThrough,
            RedirectDecision::Redirect { location, status } => DecisionView::Redirect {
                location: location@,
                status: *status,
            },
        }
    }
}

/// The verdict on a request that carries the trigger header with `value`
/// and has the path `path`. A path that already holds the value counts as
/// redirected and passes; any other is sent to the path with the value
/// appended as it stands.
pub open spec fn weigh(value: Seq<char>, path: Seq<char>) -> DecisionView {
    if occurs_in(value, path) {
        DecisionView::PassThrough
    } else {
        DecisionView::Redirect { location: path + value, status: REDIRECT_STATUS }
    }
}

/// The value of the request's trigger header: there is one where the policy
/// names a header and the request carries a header of that name.
pub open spec fn trigger_value(policy: PolicyView, headers: HeaderSeq) -> Option<Seq<char>> {
    if policy.is_inert() {
        None
    } else {
        lookup(headers, policy.trigger_header_name)
    }
}

/// The verdict of `policy` on a request with the headers `headers`. Only the
/// trigger header and `:path` are read.
pub open spec fn decision(policy: PolicyView, headers: HeaderSeq) -> DecisionView {
    match trigger_value(policy, headers) {
        None => DecisionView::PassThrough,
        Some(value) => weigh(value, lookup_or_empty(headers, PATH_HEADER@)),
    }
}

/// The signal that goes with a verdict.
pub open spec fn signal(verdict: DecisionView) -> Action {
    match verdict {
        DecisionView::PassThrough => Action::Continue,
        DecisionView::Redirect { .. } => Action::Pause,
    }
}

impl RedirectDecision {
    /// Weighs the trigger header's value against the request path.
    pub fn weigh(value: &str, path: &str) -> (verdict: RedirectDecision)
        ensures
            verdict@ == weigh(value@, path@),
    {
        if contains(path, value) {
            RedirectDecision::PassThrough
        } else {
            RedirectDecision::Redirect { location: join(path, value), status: REDIRECT_STATUS }
        }
    }

    /// The signal that goes with this verdict.
    pub fn signal(&self) -> (action: Action)
        ensures
            action == signal(self@),
    {
        match self {
            RedirectDecision::PassThrough => Action::Continue,
            RedirectDecision::Redirect { .. } => Action::Pause,
        }
    }
}

/// Reads the trigger header of a request under `policy`.
pub fn trigger_of(policy: &Policy, request: &RequestView) -> (value: Option<String>)
    ensures
        text_of(value) == trigger_value(policy@, request@),
{
    if policy.is_inert() {
        None
    } else {
        request.get_header(policy.trigger_header_name())
    }
}

/// Decides what becomes of a request under `policy`.
pub fn decide(policy: &Policy, request: &RequestView) -> (verdict: RedirectDecision)
    ensures
        verdict@ == decision(policy@, request@),
{
    match trigger_of(policy, request) {
        None => RedirectDecision::PassThrough,
        Some(value) => {
            let path = request.path();
            RedirectDecision::weigh(value.as_str(), path.as_str())
        },
    }
}

/// What a [`Response`] says, as plain text.
pub struct ResponseView {
    pub status: u16,
    pub headers: HeaderSeq,
    pub body: Option<Seq<u8>>,
}

/// A response that the filter asks the host to send.
#[derive(Debug, PartialEq, Eq)]
pub struct Response {
    pub status: u16,
    pub headers: Vec<Header>,
    pub body: Option<Vec<u8>>,
}

impl View for Response {
    type V = ResponseView;

    open spec fn view(&self) -> ResponseView {
        ResponseView {
            status: self.status,
            headers: header_views(self.headers@),
            body: match self.body {
                Some(bytes) => Some(bytes@),
                None => None,
            },
        }
    }
}

/// The redirect to `location`: one `Location` header and no body.
pub open spec fn redirect_response(location: Seq<char>, status: u16) -> ResponseView {
    ResponseView { status, headers: seq![(LOCATION_HEADER@, location)], body: None }
}

impl Response {
    /// Builds the redirect to `location`.
    pub fn redirect(location: String, status: u16) -> (response: Response)
        ensures
            response@ == redirect_response(location@, status),
    {
        let mut headers: Vec<Header> = Vec::new();
        headers.push(Header::new(LOCATION_HEADER.to_owned(), location));
        let response = Response { status, headers, body: None };
        assert(response@.headers =~= seq![(LOCATION_HEADER@, location@)]);
        response
    }
}

/// What an [`Outcome`] says, as plain text.
pub struct OutcomeView {
    pub action: Action,
    pub strip_header: Option<Seq<char>>,
    pub response: Option<ResponseView>,
}

/// What the host is asked to do after the request headers were inspected.
#[derive(Debug, PartialEq, Eq)]
pub struct Outcome {
    /// The signal for the host.
    pub action: Action,
    /// A header to take out of the request before it is forwarded.
    pub strip_header: Option<String>,
    /// A response to send in place of forwarding the request.
    pub response: Option<Response>,
}

impl View for Outcome {
    type V = OutcomeView;

    open spec fn view(&self) -> OutcomeView {
        OutcomeView {
            action: self.action,
            strip_header: text_of(self.strip_header),
            response: match self.response {
                Some(response) => Some(response@),
                None => None,
            },
        }
    }
}

/// An outcome that asks for nothing but the signal.
pub open spec fn quiet(action: Action) -> OutcomeView {
    OutcomeView { action, strip_header: None, response: None }
}

/// What a fresh verdict asks of the host. A pass asks for nothing. A
/// redirect takes the trigger header out of the request, sends the redirect
/// and halts the request.
pub open spec fn enactment(policy: PolicyView, verdict: DecisionView) -> OutcomeView {
    match verdict {
        DecisionView::PassThrough => quiet(Action::Continue),
        DecisionView::Redirect { location, status } => OutcomeView {
            action: Action::Pause,
            strip_header: Some(policy.trigger_header_name),
            response: Some(redirect_response(location, status)),
        },
    }
}

impl Outcome {
    /// An outcome that asks for nothing but the signal.
    pub fn quiet(action: Action) -> (outcome: Outcome)
        ensures
            outcome@ == quiet(action),
    {
        Outcome { action, strip_header: None, response: None }
    }

    /// What the host is asked to do for a fresh verdict under `policy`.
    pub fn enact(policy: &Policy, verdict: &RedirectDecision) -> (outcome: Outcome)
        ensures
            outcome@ == enactment(policy@, verdict@),
    {
        match verdict {
            RedirectDecision::PassThrough => Outcome::quiet(Action::Continue),
            RedirectDecision::Redirect { location, status } => Outcome {
                action: Action::Pause,
                strip_header: Some(policy.trigger_header_name().to_owned()),
                response: Some(Response::redirect(location.clone(), *status)),
            },
        }
    }
}

/// What an [`InterceptorState`] says, as plain text.
pub enum StateView {
    Inspecting,
    Done(DecisionView),
}

/// Where an interceptor stands with its request.
#[derive(Debug, PartialEq, Eq)]
pub enum InterceptorState {
    /// The request headers have not been seen yet.
    Inspecting,
    /// The verdict has been given and acted on.
    Done(RedirectDecision),
}

impl View for InterceptorState {
    type V = StateView;

    open spec fn view(&self) -> StateView {
        match self {
            InterceptorState::Inspecting => StateView::Inspecting,
            InterceptorState::Done(verdict) => StateView::Done(verdict@),
        }
    }
}

/// What a [`RequestInterceptor`] says, as plain text.
pub struct InterceptorView {
    pub policy: PolicyView,
    pub state: StateView,
}

/// One inspection of the request headers: the interceptor afterwards, and
/// what the host is asked to do. The first inspection gives the verdict and
/// enacts it. A later one keeps the verdict and repeats its signal, and asks
/// for nothing more.
pub open spec fn step(interceptor: InterceptorView, headers: HeaderSeq) -> (
    InterceptorView,
    OutcomeView,
) {
    match interceptor.state {
        StateView::Inspecting => {
            let verdict = decision(interceptor.policy, headers);
            (
                InterceptorView { policy: interceptor.policy, state: StateView::Done(verdict) },
                enactment(interceptor.policy, verdict),
            )
        },
        StateView::Done(verdict) => (interceptor, quiet(signal(verdict))),
    }
}

/// The interceptor that a new request gets.
pub open spec fn fresh(policy: PolicyView) -> InterceptorView {
    InterceptorView { policy, state: StateView::Inspecting }
}

/// The filter's handler for one request.
#[derive(Debug)]
pub struct RequestInterceptor {
    policy: Policy,
    state: InterceptorState,
}

impl View for RequestInterceptor {
    type V = InterceptorView;

    closed spec fn view(&self) -> InterceptorView {
        InterceptorView { policy: self.policy@, state: self.state@ }
    }
}

impl RequestInterceptor {
    /// A handler for a new request, with its own snapshot of the policy.
    pub fn new(policy: Policy) -> (interceptor: RequestInterceptor)
        ensures
            interceptor@ == fresh(policy@),
    {
        RequestInterceptor { policy, state: InterceptorState::Inspecting }
    }

    /// The policy that this request is judged by.
    pub fn policy(&self) -> (policy: &Policy)
        ensures
            policy@ == self@.policy,
    {
        &self.policy
    }

    /// Where the interceptor stands with its request.
    pub fn state(&self) -> (state: &InterceptorState)
        ensures
            state@ == self@.state,
    {
        &self.state
    }

    /// Inspects the request headers. Called at the point where the host has
    /// them.
    pub fn on_http_request_headers(&mut self, request: &RequestView) -> (outcome: Outcome)
        ensures
            (final(self)@, outcome@) == step(old(self)@, request@),
    {
        match &self.state {
            InterceptorState::Inspecting => {
                let verdict = decide(&self.policy, request);
                let outcome = Outcome::enact(&self.policy, &verdict);
                self.state = InterceptorState::Done(verdict);
                outcome
            },
            InterceptorState::Done(verdict) => Outcome::quiet(verdict.signal()),
        }
    }

    /// The request body passes untouched.
    pub fn on_http_request_body(&self, _body_size: usize, _end_of_stream: bool) -> (action: Action)
        ensures
            action == Action::Continue,
    {
        Action::Continue
    }

    /// The response headers pass untouched.
    pub fn on_http_response_headers(&self, _num_headers: usize, _end_of_stream: bool) -> (action:
        Action)
        ensures
            action == Action::Continue,
    {
        Action::Continue
    }

    /// The response body passes untouched.
    pub fn on_http_response_body(&self, _body_size: usize, _end_of_stream: bool) -> (action: Action)
        ensures
            action == Action::Continue,
    {
        Action::Continue
    }
}

impl PolicyStore {
    /// The handler for a new request. It gets a snapshot of the policy that
    /// is active now, and a later load does not reach it.
    pub fn create_http_context(&self) -> (interceptor: RequestInterceptor)
        ensures
            interceptor@ == fresh(self@),
    {
        RequestInterceptor::new(self.current())
    }
}

/// A request without the trigger header passes through: the host is told to
/// continue, no header is taken out and no response is sent.
pub proof fn lemma_no_trigger_passes_through(policy: PolicyView, headers: HeaderSeq)
    requires
        lacks(headers, policy.trigger_header_name),
    ensures
        decision(policy, headers) == DecisionView::PassThrough,
        step(fresh(policy), headers).1 == quiet(Action::Continue),
{
    lemma_lookup_none_iff_lacks(headers, policy.trigger_header_name);
}

/// Under a policy with an empty trigger name every request passes through,
/// whatever its headers.
pub proof fn lemma_inert_policy_passes_everything(policy: PolicyView, headers: HeaderSeq)
    requires
        policy.is_inert(),
    ensures
        decision(policy, headers) == DecisionView::PassThrough,
        step(fresh(policy), headers).1 == quiet(Action::Continue),
{
}

/// A request whose trigger header has a value that its path does not hold
/// is redirected to the path with the value appended. The host is told to
/// halt, to take the trigger header out of the request, and to send a 302
/// whose only header is `Location`. The request without that header has no
/// trigger left.
pub proof fn lemma_fresh_trigger_redirects(
    policy: PolicyView,
    headers: HeaderSeq,
    value: Seq<char>,
)
    requires
        trigger_value(policy, headers) == Some(value),
        !occurs_in(value, lookup_or_empty(headers, PATH_HEADER@)),
    ensures
        decision(policy, headers) == (DecisionView::Redirect {
            location: lookup_or_empty(headers, PATH_HEADER@) + value,
            status: 302,
        }),
        step(fresh(policy), headers).1 == (OutcomeView {
            action: Action::Pause,
            strip_header: Some(policy.trigger_header_name),
            response: Some(
                ResponseView {
                    status: 302,
                    headers: seq![
                        (LOCATION_HEADER@, lookup_or_empty(headers, PATH_HEADER@) + value),
                    ],
                    body: None,
                },
            ),
        }),
        trigger_value(policy, without(headers, policy.trigger_header_name)) is None,
{
    lemma_without_lacks(headers, policy.trigger_header_name);
    lemma_lookup_none_iff_lacks(
        without(headers, policy.trigger_header_name),
        policy.trigger_header_name,
    );
}

/// The loop guard: a request whose path already holds the trigger header's
/// value passes through.
pub proof fn lemma_path_with_value_passes_through(
    policy: PolicyView,
    headers: HeaderSeq,
    value: Seq<char>,
)
    requires
        trigger_value(policy, headers) == Some(value),
        occurs_in(value, lookup_or_empty(headers, PATH_HEADER@)),
    ensures
        decision(policy, headers) == DecisionView::PassThrough,
{
}

/// No request is redirected twice. Where a request was redirected and the
/// next one arrives at the redirect's target with the same trigger value, it
/// passes through.
pub proof fn lemma_redirect_target_passes_through(
    policy: PolicyView,
    first: HeaderSeq,
    second: HeaderSeq,
    location: Seq<char>,
    status: u16,
)
    requires
        decision(policy, first) == (DecisionView::Redirect { location, status }),
        trigger_value(policy, second) == trigger_value(policy, first),
        lookup(second, PATH_HEADER@) == Some(location),
    ensures
        decision(policy, second) == DecisionView::PassThrough,
{
    let value = trigger_value(policy, first)->Some_0;
    lemma_occurs_as_suffix(lookup_or_empty(first, PATH_HEADER@), value);
}

/// A request with the trigger header and without `:path` is weighed against
/// the empty path: where the header's value is not empty, the redirect goes
/// to the value itself.
pub proof fn lemma_missing_path_redirects_to_value(
    policy: PolicyView,
    headers: HeaderSeq,
    value: Seq<char>,
)
    requires
        trigger_value(policy, headers) == Some(value),
        lacks(headers, PATH_HEADER@),
        value.len() > 0,
    ensures
        decision(policy, headers) == (DecisionView::Redirect { location: value, status: 302 }),
{
    lemma_lookup_none_iff_lacks(headers, PATH_HEADER@);
    lemma_occurs_in_empty(value);
    assert(Seq::<char>::empty() + value =~= value);
}

/// The verdict reads the trigger header and `:path` and nothing else: two
/// requests that agree on these get the same verdict, whatever `host` and
/// the other headers say.
pub proof fn lemma_only_trigger_and_path_matter(
    policy: PolicyView,
    one: HeaderSeq,
    other: HeaderSeq,
)
    requires
        lookup(one, policy.trigger_header_name) == lookup(other, policy.trigger_header_name),
        lookup(one, PATH_HEADER@) == lookup(other, PATH_HEADER@),
    ensures
        decision(policy, one) == decision(policy, other),
{
}

/// Whatever an inspection asks the host to send is a bare redirect: status
/// 302, one header, called `Location`, and no body. It comes with the signal
/// to halt, and without a response the signal of a first inspection is to
/// continue.
pub proof fn lemma_response_is_bare_redirect(interceptor: InterceptorView, headers: HeaderSeq)
    ensures
        match step(interceptor, headers).1.response {
            Some(response) => {
                &&& response.status == 302
                &&& response.headers.len() == 1
                &&& response.headers[0].0 == LOCATION_HEADER@
                &&& response.body is None
                &&& step(interceptor, headers).1.action == Action::Pause
            },
            None => interceptor.state is Inspecting ==> step(interceptor, headers).1.action
                == Action::Continue,
        },
{
}

/// A request is answered at most once. After the first inspection the
/// verdict stands: a second inspection, whatever headers it is shown, keeps
/// the interceptor as it is, repeats the signal, and asks for no response
/// and no change to the request.
pub proof fn lemma_responds_at_most_once(policy: PolicyView, first: HeaderSeq, second: HeaderSeq)
    ensures
        ({
            let (inspected, outcome) = step(fresh(policy), first);
            let (again, repeated) = step(inspected, second);
            &&& inspected.state == StateView::Done(decision(policy, first))
            &&& again == inspected
            &&& repeated == quiet(outcome.action)
        }),
{
}

} // verus!
