use http_redirect_header::request::{Header, RequestView, HOST_HEADER, PATH_HEADER};

fn header(name: &str, value: &str) -> Header {
    Header::new(name.to_string(), value.to_string())
}

fn request(headers: &[(&str, &str)]) -> RequestView {
    let mut view = RequestView::new();
    for (name, value) in headers {
        view.push_header(name.to_string(), value.to_string());
    }
    view
}

#[test]
fn a_new_request_has_no_headers() {
    let view = RequestView::new();
    assert_eq!(view.len(), 0);
    assert_eq!(view.get_header("host"), None);
    assert!(!view.has_header("host"));
}

#[test]
fn get_header_finds_a_header_by_name() {
    let view = request(&[("host", "shop.example"), (":path", "/checkout"), ("X-Promo", "/offer")]);
    assert_eq!(view.len(), 3);
    assert_eq!(view.get_header("X-Promo"), Some("/offer".to_string()));
    assert_eq!(view.get_header(":path"), Some("/checkout".to_string()));
    assert_eq!(view.get_header("accept"), None);
}

#[test]
fn get_header_takes_the_first_of_several() {
    let view = request(&[("X-Promo", "/first"), ("X-Promo", "/second")]);
    assert_eq!(view.get_header("X-Promo"), Some("/first".to_string()));
}

#[test]
fn get_header_compares_names_as_they_stand() {
    let view = request(&[("x-promo", "/offer")]);
    assert_eq!(view.get_header("X-Promo"), None);
    assert_eq!(view.get_header("x-promo"), Some("/offer".to_string()));
    assert_eq!(view.get_header("x-prom"), None);
}

#[test]
fn has_header_tells_presence() {
    let view = request(&[("host", "shop.example"), ("X-Promo", "")]);
    assert!(view.has_header("X-Promo"));
    assert!(!view.has_header("X-Other"));
}

#[test]
fn path_and_host_default_to_the_empty_text() {
    let bare = RequestView::new();
    assert_eq!(bare.path(), "");
    assert_eq!(bare.host(), "");
    let full = request(&[("host", "shop.example"), (":path", "/checkout")]);
    assert_eq!(full.path(), "/checkout");
    assert_eq!(full.host(), "shop.example");
}

#[test]
fn the_pseudo_header_names_are_the_usual_ones() {
    assert_eq!(PATH_HEADER, ":path");
    assert_eq!(HOST_HEADER, "host");
}

#[test]
fn from_headers_keeps_the_order() {
    let headers = vec![header("a", "1"), header("b", "2"), header("a", "3")];
    let view = RequestView::from_headers(headers);
    assert_eq!(view.len(), 3);
    assert_eq!(view.get_header("a"), Some("1".to_string()));
    assert_eq!(view, request(&[("a", "1"), ("b", "2"), ("a", "3")]));
}

#[test]
fn remove_header_takes_out_every_header_of_that_name() {
    let mut view = request(&[("X-Promo", "/a"), ("host", "h"), ("X-Promo", "/b"), (":path", "/p")]);
    view.remove_header("X-Promo");
    assert_eq!(view, request(&[("host", "h"), (":path", "/p")]));
    assert_eq!(view.get_header("X-Promo"), None);
    assert_eq!(view.get_header("host"), Some("h".to_string()));
    assert_eq!(view.get_header(":path"), Some("/p".to_string()));
}

#[test]
fn remove_header_leaves_a_request_without_it_alone() {
    let mut view = request(&[("host", "h"), (":path", "/p")]);
    view.remove_header("X-Promo");
    assert_eq!(view, request(&[("host", "h"), (":path", "/p")]));
}

#[test]
fn a_cloned_header_equals_the_one_it_was_made_from() {
    let first = header("X-Promo", "/offer");
    assert_eq!(first.clone(), first);
}
