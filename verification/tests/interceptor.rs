use http_redirect_header::interceptor::{
    decide, Action, InterceptorState, Outcome, RedirectDecision, RequestInterceptor, Response,
    LOCATION_HEADER, REDIRECT_STATUS,
};
use http_redirect_header::policy::{Policy, PolicyStore};
use http_redirect_header::request::{Header, RequestView};

fn promo() -> Policy {
    Policy::new("X-Promo".to_string())
}

fn request(headers: &[(&str, &str)]) -> RequestView {
    let mut view = RequestView::new();
    for (name, value) in headers {
        view.push_header(name.to_string(), value.to_string());
    }
    view
}

fn redirect(location: &str) -> RedirectDecision {
    RedirectDecision::Redirect { location: location.to_string(), status: 302 }
}

fn redirect_outcome(strip: &str, location: &str) -> Outcome {
    Outcome {
        action: Action::Pause,
        strip_header: Some(strip.to_string()),
        response: Some(Response {
            status: 302,
            headers: vec![Header::new("Location".to_string(), location.to_string())],
            body: None,
        }),
    }
}

#[test]
fn a_request_without_the_trigger_passes_through() {
    let view = request(&[("host", "shop.example"), (":path", "/checkout"), ("accept", "*/*")]);
    assert_eq!(decide(&promo(), &view), RedirectDecision::PassThrough);
    assert_eq!(decide(&promo(), &RequestView::new()), RedirectDecision::PassThrough);
}

#[test]
fn a_request_without_the_trigger_gets_no_response() {
    let view = request(&[("host", "shop.example"), (":path", "/checkout")]);
    let mut interceptor = RequestInterceptor::new(promo());
    let outcome = interceptor.on_http_request_headers(&view);
    assert_eq!(outcome, Outcome { action: Action::Continue, strip_header: None, response: None });
    assert_eq!(interceptor.state(), &InterceptorState::Done(RedirectDecision::PassThrough));
}

#[test]
fn a_fresh_trigger_redirects_to_path_and_value() {
    let view = request(&[("host", "shop.example"), (":path", "/checkout"), ("X-Promo", "/offer")]);
    assert_eq!(decide(&promo(), &view), redirect("/checkout/offer"));
}

#[test]
fn a_fresh_trigger_is_answered_and_stripped() {
    let mut view =
        request(&[("host", "shop.example"), (":path", "/checkout"), ("X-Promo", "/offer")]);
    let mut interceptor = RequestInterceptor::new(promo());
    let outcome = interceptor.on_http_request_headers(&view);
    assert_eq!(outcome, redirect_outcome("X-Promo", "/checkout/offer"));
    assert_eq!(interceptor.state(), &InterceptorState::Done(redirect("/checkout/offer")));
    let strip = outcome.strip_header.unwrap();
    view.remove_header(&strip);
    assert_eq!(view.get_header("X-Promo"), None);
    assert_eq!(decide(&promo(), &view), RedirectDecision::PassThrough);
}

#[test]
fn a_redirect_carries_one_location_header_and_no_body() {
    let view = request(&[(":path", "/checkout"), ("X-Promo", "/offer")]);
    let outcome = RequestInterceptor::new(promo()).on_http_request_headers(&view);
    let response = outcome.response.unwrap();
    assert_eq!(response.status, 302);
    assert_eq!(response.headers.len(), 1);
    assert_eq!(response.headers[0].name, "Location");
    assert_eq!(response.headers[0].value, "/checkout/offer");
    assert_eq!(response.body, None);
    assert_eq!(outcome.action, Action::Pause);
}

#[test]
fn a_path_that_holds_the_value_passes_through() {
    let view =
        request(&[("host", "shop.example"), (":path", "/checkout/offer"), ("X-Promo", "/offer")]);
    assert_eq!(decide(&promo(), &view), RedirectDecision::PassThrough);
    let mut interceptor = RequestInterceptor::new(promo());
    let outcome = interceptor.on_http_request_headers(&view);
    assert_eq!(outcome, Outcome { action: Action::Continue, strip_header: None, response: None });
}

#[test]
fn the_target_of_a_redirect_is_not_redirected_again() {
    let first = request(&[(":path", "/a/b"), ("X-Promo", "?promo=1")]);
    let location = match decide(&promo(), &first) {
        RedirectDecision::Redirect { location, .. } => location,
        RedirectDecision::PassThrough => panic!("the first request must be redirected"),
    };
    assert_eq!(location, "/a/b?promo=1");
    let second = request(&[(":path", &location), ("X-Promo", "?promo=1")]);
    assert_eq!(decide(&promo(), &second), RedirectDecision::PassThrough);
}

#[test]
fn a_path_that_holds_the_value_by_chance_passes_through() {
    let view = request(&[(":path", "/special/offers/list"), ("X-Promo", "/offer")]);
    assert_eq!(decide(&promo(), &view), RedirectDecision::PassThrough);
}

#[test]
fn a_missing_path_counts_as_empty() {
    let view = request(&[("X-Promo", "/offer")]);
    assert_eq!(decide(&promo(), &view), redirect("/offer"));
    let outcome = RequestInterceptor::new(promo()).on_http_request_headers(&view);
    assert_eq!(outcome, redirect_outcome("X-Promo", "/offer"));
}

#[test]
fn an_empty_trigger_value_passes_through() {
    let with_path = request(&[(":path", "/checkout"), ("X-Promo", "")]);
    assert_eq!(decide(&promo(), &with_path), RedirectDecision::PassThrough);
    let without_path = request(&[("X-Promo", "")]);
    assert_eq!(decide(&promo(), &without_path), RedirectDecision::PassThrough);
}

#[test]
fn the_host_does_not_change_the_verdict() {
    let one = request(&[("host", "shop.example"), (":path", "/checkout"), ("X-Promo", "/offer")]);
    let other = request(&[("host", "/offer"), (":path", "/checkout"), ("X-Promo", "/offer")]);
    let none = request(&[(":path", "/checkout"), ("X-Promo", "/offer")]);
    assert_eq!(decide(&promo(), &one), redirect("/checkout/offer"));
    assert_eq!(decide(&promo(), &other), redirect("/checkout/offer"));
    assert_eq!(decide(&promo(), &none), redirect("/checkout/offer"));
}

#[test]
fn path_and_value_are_joined_as_they_stand() {
    let view = request(&[(":path", "/checkout/"), ("X-Promo", "/offer now")]);
    assert_eq!(decide(&promo(), &view), redirect("/checkout//offer now"));
    let query = request(&[(":path", "/checkout?step=2"), ("X-Promo", "offer")]);
    assert_eq!(decide(&promo(), &query), redirect("/checkout?step=2offer"));
}

#[test]
fn the_first_trigger_header_counts() {
    let view = request(&[("X-Promo", "/first"), (":path", "/checkout"), ("X-Promo", "/second")]);
    assert_eq!(decide(&promo(), &view), redirect("/checkout/first"));
}

#[test]
fn the_trigger_name_is_compared_as_it_stands() {
    let view = request(&[(":path", "/checkout"), ("x-promo", "/offer")]);
    assert_eq!(decide(&promo(), &view), RedirectDecision::PassThrough);
}

#[test]
fn an_inert_policy_passes_everything() {
    let view = request(&[("", "/offer"), (":path", "/checkout"), ("X-Promo", "/offer")]);
    assert_eq!(decide(&Policy::inert(), &view), RedirectDecision::PassThrough);
    let outcome = RequestInterceptor::new(Policy::inert()).on_http_request_headers(&view);
    assert_eq!(outcome, Outcome { action: Action::Continue, strip_header: None, response: None });
}

#[test]
fn a_store_that_never_loaded_passes_everything() {
    let mut store = PolicyStore::new();
    assert!(store.load(b"{\"redirect_header_name\": 1}").is_err());
    let view = request(&[(":path", "/checkout"), ("X-Promo", "/offer")]);
    let mut interceptor = RequestInterceptor::new(store.current());
    assert_eq!(interceptor.on_http_request_headers(&view).action, Action::Continue);
}

#[test]
fn a_loaded_policy_drives_the_interceptor() {
    let mut store = PolicyStore::new();
    assert!(store.load(b"{\"redirect_header_name\": \"X-Promo\"}").is_ok());
    let view = request(&[(":path", "/checkout"), ("X-Promo", "/offer")]);
    let mut interceptor = RequestInterceptor::new(store.current());
    assert_eq!(interceptor.policy(), &promo());
    let outcome = interceptor.on_http_request_headers(&view);
    assert_eq!(outcome, redirect_outcome("X-Promo", "/checkout/offer"));
}

#[test]
fn a_store_makes_interceptors_with_its_active_policy() {
    let mut store = PolicyStore::new();
    let early = store.create_http_context();
    assert!(store.load(b"{\"redirect_header_name\": \"X-Promo\"}").is_ok());
    let late = store.create_http_context();
    assert_eq!(early.policy(), &Policy::inert());
    assert_eq!(early.state(), &InterceptorState::Inspecting);
    assert_eq!(late.policy(), &promo());
    assert_eq!(late.state(), &InterceptorState::Inspecting);
}

#[test]
fn a_new_interceptor_is_inspecting() {
    let interceptor = RequestInterceptor::new(promo());
    assert_eq!(interceptor.state(), &InterceptorState::Inspecting);
    assert_eq!(interceptor.policy(), &promo());
}

#[test]
fn a_redirect_is_sent_once() {
    let view = request(&[(":path", "/checkout"), ("X-Promo", "/offer")]);
    let mut interceptor = RequestInterceptor::new(promo());
    let first = interceptor.on_http_request_headers(&view);
    assert_eq!(first, redirect_outcome("X-Promo", "/checkout/offer"));
    let again = interceptor.on_http_request_headers(&view);
    assert_eq!(again, Outcome { action: Action::Pause, strip_header: None, response: None });
    assert_eq!(interceptor.state(), &InterceptorState::Done(redirect("/checkout/offer")));
}

#[test]
fn a_pass_stays_a_pass() {
    let quiet = request(&[(":path", "/checkout")]);
    let loud = request(&[(":path", "/checkout"), ("X-Promo", "/offer")]);
    let mut interceptor = RequestInterceptor::new(promo());
    assert_eq!(interceptor.on_http_request_headers(&quiet).action, Action::Continue);
    let again = interceptor.on_http_request_headers(&loud);
    assert_eq!(again, Outcome { action: Action::Continue, strip_header: None, response: None });
    assert_eq!(interceptor.state(), &InterceptorState::Done(RedirectDecision::PassThrough));
}

#[test]
fn the_other_phases_continue() {
    let view = request(&[(":path", "/checkout"), ("X-Promo", "/offer")]);
    let mut interceptor = RequestInterceptor::new(promo());
    assert_eq!(interceptor.on_http_request_body(10, false), Action::Continue);
    assert_eq!(interceptor.on_http_request_headers(&view).action, Action::Pause);
    assert_eq!(interceptor.on_http_request_body(0, true), Action::Continue);
    assert_eq!(interceptor.on_http_response_headers(3, false), Action::Continue);
    assert_eq!(interceptor.on_http_response_body(128, true), Action::Continue);
}

#[test]
fn weigh_applies_the_loop_guard() {
    assert_eq!(RedirectDecision::weigh("/offer", "/checkout"), redirect("/checkout/offer"));
    assert_eq!(RedirectDecision::weigh("/offer", "/checkout/offer"), RedirectDecision::PassThrough);
    assert_eq!(RedirectDecision::weigh("/offer", ""), redirect("/offer"));
    assert_eq!(RedirectDecision::weigh("", ""), RedirectDecision::PassThrough);
}

#[test]
fn a_verdict_has_its_signal() {
    assert_eq!(RedirectDecision::PassThrough.signal(), Action::Continue);
    assert_eq!(redirect("/checkout/offer").signal(), Action::Pause);
}

#[test]
fn a_redirect_response_is_a_bare_302() {
    let response = Response::redirect("/checkout/offer".to_string(), REDIRECT_STATUS);
    assert_eq!(
        response,
        Response {
            status: 302,
            headers: vec![Header::new(LOCATION_HEADER.to_string(), "/checkout/offer".to_string())],
            body: None,
        }
    );
    assert_eq!(LOCATION_HEADER, "Location");
    assert_eq!(REDIRECT_STATUS, 302);
}

#[test]
fn enact_turns_a_verdict_into_requests_to_the_host() {
    assert_eq!(
        Outcome::enact(&promo(), &RedirectDecision::PassThrough),
        Outcome::quiet(Action::Continue)
    );
    assert_eq!(
        Outcome::enact(&promo(), &redirect("/checkout/offer")),
        redirect_outcome("X-Promo", "/checkout/offer")
    );
}
