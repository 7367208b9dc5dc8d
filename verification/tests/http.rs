use ntf::backend::http::Http;
use ntf::error::Error;
use ntf::exchange::{HttpOutcome, HttpRequest, Method, Payload};
use ntf::pairs::Pairs;

fn pairs(items: &[(&str, &str)]) -> Pairs {
    let mut p = Pairs::new();
    for (k, v) in items {
        p.insert(k, v);
    }
    p
}

fn listed(p: &Pairs) -> Vec<(String, String)> {
    let mut out = Vec::new();
    for i in 0..p.len() {
        out.push((p.name(i).to_string(), p.value(i).to_string()));
    }
    out
}

fn owned(items: &[(&str, &str)]) -> Vec<(String, String)> {
    items.iter().map(|(k, v)| (k.to_string(), v.to_string())).collect()
}

fn plain(url: &str) -> Http {
    Http { url: url.to_string(), method: None, headers: None, form: None, json: None, body: None }
}

fn planned(http: &Http, title: &str, message: &str) -> HttpRequest {
    match http.request(title, message) {
        Ok(request) => request,
        Err(e) => panic!("no request: {}", e.message()),
    }
}

#[test]
fn get_is_the_default_method_and_carries_nothing() {
    let http = plain("http://example.test/notify");
    let request = planned(&http, "t", "m");
    assert_eq!(request.method, Method::Get);
    assert_eq!(request.url, "http://example.test/notify");
    assert_eq!(request.headers.len(), 0);
    assert!(matches!(request.payload, Payload::Nothing));
}

#[test]
fn get_ignores_configured_payloads() {
    let mut http = plain("http://example.test/");
    http.method = Some("GET".to_string());
    http.form = Some(pairs(&[("a", "{title}")]));
    http.body = Some("{message}".to_string());
    let request = planned(&http, "t", "m");
    assert_eq!(request.method, Method::Get);
    assert!(matches!(request.payload, Payload::Nothing));
}

#[test]
fn url_placeholders_are_all_filled() {
    let http = plain("http://example.test/{title}/{message}?t={title}&m={message}");
    let request = planned(&http, "T", "M");
    assert_eq!(request.url, "http://example.test/T/M?t=T&m=M");
}

#[test]
fn headers_are_sent_as_configured() {
    let mut http = plain("http://example.test/");
    http.headers = Some(pairs(&[("X-Token", "abc"), ("Accept", "{title}")]));
    let request = planned(&http, "T", "M");
    assert_eq!(listed(&request.headers), owned(&[("X-Token", "abc"), ("Accept", "{title}")]));
}

#[test]
fn post_prefers_form_over_json_and_body() {
    let mut http = plain("http://example.test/");
    http.method = Some("POST".to_string());
    http.form = Some(pairs(&[("subject", "{title}"), ("text", "{message} / {message}")]));
    http.json = Some(pairs(&[("j", "{title}")]));
    http.body = Some("{title}".to_string());
    let request = planned(&http, "T", "M");
    assert_eq!(request.method, Method::Post);
    match request.payload {
        Payload::Form(fields) => {
            assert_eq!(listed(&fields), owned(&[("subject", "T"), ("text", "M / M")]));
        }
        _ => panic!("the form was not chosen"),
    }
}

#[test]
fn post_prefers_json_over_body() {
    let mut http = plain("http://example.test/");
    http.method = Some("POST".to_string());
    http.json = Some(pairs(&[("title", "{title}{title}"), ("fixed", "x")]));
    http.body = Some("{title}".to_string());
    let request = planned(&http, "T", "M");
    match request.payload {
        Payload::Json(fields) => {
            assert_eq!(listed(&fields), owned(&[("title", "TT"), ("fixed", "x")]));
        }
        _ => panic!("the JSON fields were not chosen"),
    }
}

#[test]
fn post_sends_the_body_where_nothing_else_is_configured() {
    let mut http = plain("http://example.test/");
    http.method = Some("POST".to_string());
    http.body = Some("{title}\n{message}\n{title}".to_string());
    let request = planned(&http, "T", "M");
    match request.payload {
        Payload::Text(text) => assert_eq!(text, "T\nM\nT"),
        _ => panic!("the body was not chosen"),
    }
}

#[test]
fn post_without_payload_fails() {
    let mut http = plain("http://example.test/");
    http.method = Some("POST".to_string());
    match http.request("t", "m") {
        Err(Error::MissingPayload) => {}
        _ => panic!("expected MissingPayload"),
    }
}

#[test]
fn other_methods_are_not_supported() {
    for name in ["PUT", "get", "post", "DELETE", "", "GET ", "not a method"] {
        let mut http = plain("http://example.test/");
        http.method = Some(name.to_string());
        http.body = Some("b".to_string());
        match http.request("t", "m") {
            Err(Error::UnsupportedMethod(method)) => assert_eq!(method, name),
            _ => panic!("expected UnsupportedMethod for {:?}", name),
        }
    }
}

#[test]
fn a_header_name_that_cannot_be_sent_fails() {
    let mut http = plain("http://example.test/");
    http.headers = Some(pairs(&[("Good", "1"), ("bad name", "2"), ("worse name", "3")]));
    match http.request("t", "m") {
        Err(Error::InvalidHeaders(name)) => assert_eq!(name, "bad name"),
        _ => panic!("expected InvalidHeaders"),
    }
    assert_eq!(http.refused_header(), Some("bad name".to_string()));
}

#[test]
fn a_header_value_that_cannot_be_sent_fails() {
    let mut http = plain("http://example.test/");
    http.headers = Some(pairs(&[("X-A", "fine\tvalue é"), ("X-B", "line\nbreak")]));
    match http.request("t", "m") {
        Err(Error::InvalidHeaders(name)) => assert_eq!(name, "X-B"),
        _ => panic!("expected InvalidHeaders"),
    }
    http.headers = Some(pairs(&[("X-A", "del\u{7f}")]));
    assert_eq!(http.refused_header(), Some("X-A".to_string()));
    http.headers = Some(pairs(&[("X-A", "fine\tvalue é")]));
    assert_eq!(http.refused_header(), None);
    http.headers = Some(pairs(&[("", "empty name")]));
    assert_eq!(http.refused_header(), Some(String::new()));
}

#[test]
fn headers_are_checked_before_the_method() {
    let mut http = plain("http://example.test/");
    http.method = Some("PUT".to_string());
    http.headers = Some(pairs(&[("bad name", "2")]));
    assert!(matches!(http.request("t", "m"), Err(Error::InvalidHeaders(_))));
}

#[test]
fn request_given_a_refused_header_fails_with_it() {
    let http = plain("http://example.test/");
    match http.request_given("t", "m", Some("X".to_string())) {
        Err(Error::InvalidHeaders(name)) => assert_eq!(name, "X"),
        _ => panic!("expected InvalidHeaders"),
    }
    assert!(http.request_given("t", "m", None).is_ok());
}

#[test]
fn reply_passes_the_body_on() {
    let http = plain("http://example.test/{title}");
    let request = planned(&http, "T", "M");
    match Http::reply(&request.url, HttpOutcome::Body("{\"errcode\":500}".to_string())) {
        Ok(body) => assert_eq!(body, "{\"errcode\":500}"),
        Err(_) => panic!("expected the body"),
    }
}

#[test]
fn reply_names_the_url_that_could_not_be_reached() {
    let http = plain("http://example.test/{title}");
    let request = planned(&http, "T", "M");
    match Http::reply(&request.url, HttpOutcome::Unreachable("dns error".to_string())) {
        Err(Error::RequestFailed(url, cause)) => {
            assert_eq!(url, "http://example.test/T");
            assert_eq!(cause, "dns error");
        }
        _ => panic!("expected RequestFailed"),
    }
}

#[test]
fn reply_reports_a_body_that_could_not_be_read() {
    let http = plain("http://example.test/");
    let request = planned(&http, "T", "M");
    match Http::reply(&request.url, HttpOutcome::Unreadable("reset".to_string())) {
        Err(Error::ResponseReadFailed(cause)) => assert_eq!(cause, "reset"),
        _ => panic!("expected ResponseReadFailed"),
    }
}
