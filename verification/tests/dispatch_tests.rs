use reqtui::app::App;
use reqtui::app::HttpMethod;
use reqtui::key_value::KeyValueEntries;
use reqtui::network::build_request;

fn table(rows: &[(&str, &str)]) -> KeyValueEntries {
    let mut t = KeyValueEntries::new();
    for (k, v) in rows {
        t.add_entry(k.to_string(), v.to_string());
    }
    t
}

#[test]
fn build_request_without_params_keeps_the_url() {
    let r = build_request(
        HttpMethod::GET,
        &"http://x/y".to_string(),
        &KeyValueEntries::new(),
        &KeyValueEntries::new(),
        &KeyValueEntries::new(),
        String::new(),
    );
    assert_eq!(r.method, HttpMethod::GET);
    assert_eq!(r.url, "http://x/y");
    assert!(r.headers.is_empty());
    assert!(r.body.is_none());
}

#[test]
fn build_request_appends_a_percent_encoded_query_string() {
    let params = table(&[("q", "a b"), ("lang", "en&fr")]);
    let r = build_request(
        HttpMethod::GET,
        &"http://x".to_string(),
        &KeyValueEntries::new(),
        &params,
        &KeyValueEntries::new(),
        String::new(),
    );
    assert_eq!(r.url, "http://x?q=a%20b&lang=en%26fr");
}

#[test]
fn build_request_skips_disabled_params() {
    let mut params = table(&[("a", "1"), ("b", "2")]);
    params.toggle_enabled(0);
    let r = build_request(
        HttpMethod::GET,
        &"http://x".to_string(),
        &KeyValueEntries::new(),
        &params,
        &KeyValueEntries::new(),
        String::new(),
    );
    assert_eq!(r.url, "http://x?b=2");
}

#[test]
fn build_request_trims_and_filters_header_rows() {
    let headers = table(&[(" X-Trim ", " v "), ("Bad Key", "v"), ("X-Keep", "ok")]);
    let r = build_request(
        HttpMethod::GET,
        &"http://x".to_string(),
        &headers,
        &KeyValueEntries::new(),
        &KeyValueEntries::new(),
        String::new(),
    );
    assert_eq!(
        r.headers,
        vec![
            ("X-Trim".to_string(), "v".to_string()),
            ("X-Keep".to_string(), "ok".to_string()),
        ]
    );
}

#[test]
fn non_blank_body_is_attached_blank_body_is_not() {
    let r = build_request(
        HttpMethod::POST,
        &"http://x".to_string(),
        &KeyValueEntries::new(),
        &KeyValueEntries::new(),
        &KeyValueEntries::new(),
        "{\"a\":1}".to_string(),
    );
    assert_eq!(r.body.as_deref(), Some("{\"a\":1}"));
    let r2 = build_request(
        HttpMethod::POST,
        &"http://x".to_string(),
        &KeyValueEntries::new(),
        &KeyValueEntries::new(),
        &KeyValueEntries::new(),
        "  \n ".to_string(),
    );
    assert!(r2.body.is_none());
}

#[test]
fn bearer_row_is_installed_verbatim_case_insensitively() {
    let auth = table(&[("BEARER", "token-123")]);
    let r = build_request(
        HttpMethod::GET,
        &"http://x".to_string(),
        &KeyValueEntries::new(),
        &KeyValueEntries::new(),
        &auth,
        String::new(),
    );
    assert_eq!(
        r.headers,
        vec![("Authorization".to_string(), "token-123".to_string())]
    );
}

#[test]
fn first_matching_auth_row_wins() {
    let auth = table(&[("Authorization", "first"), ("Bearer", "second")]);
    let r = build_request(
        HttpMethod::GET,
        &"http://x".to_string(),
        &KeyValueEntries::new(),
        &KeyValueEntries::new(),
        &auth,
        String::new(),
    );
    assert_eq!(r.headers, vec![("Authorization".to_string(), "first".to_string())]);
}

#[test]
fn api_key_row_is_used_when_no_bearer_row_exists() {
    let auth = table(&[("X-API-Key", "k-9")]);
    let r = build_request(
        HttpMethod::GET,
        &"http://x".to_string(),
        &KeyValueEntries::new(),
        &KeyValueEntries::new(),
        &auth,
        String::new(),
    );
    assert_eq!(r.headers, vec![("X-API-Key".to_string(), "k-9".to_string())]);
}

#[test]
fn username_and_password_become_a_basic_credential() {
    let auth = table(&[("username", "user"), ("password", "pass")]);
    let r = build_request(
        HttpMethod::GET,
        &"http://x".to_string(),
        &KeyValueEntries::new(),
        &KeyValueEntries::new(),
        &auth,
        String::new(),
    );
    assert_eq!(
        r.headers,
        vec![("Authorization".to_string(), "Basic dXNlcjpwYXNz".to_string())]
    );
}

#[test]
fn username_without_password_installs_no_auth_header() {
    let auth = table(&[("username", "user")]);
    let r = build_request(
        HttpMethod::GET,
        &"http://x".to_string(),
        &KeyValueEntries::new(),
        &KeyValueEntries::new(),
        &auth,
        String::new(),
    );
    assert!(r.headers.is_empty());
}

#[test]
fn auth_header_comes_after_plain_header_rows() {
    let headers = table(&[("X-First", "1")]);
    let auth = table(&[("Bearer", "t")]);
    let r = build_request(
        HttpMethod::GET,
        &"http://x".to_string(),
        &headers,
        &KeyValueEntries::new(),
        &auth,
        String::new(),
    );
    assert_eq!(
        r.headers,
        vec![
            ("X-First".to_string(), "1".to_string()),
            ("Authorization".to_string(), "t".to_string()),
        ]
    );
}

#[test]
fn begin_dispatch_pushes_history_and_shows_the_loading_sentinel() {
    let mut app = App::new();
    app.url_input = "http://x/y".to_string();
    app.set_body_text("{\"a\":1}");
    let req = app.begin_dispatch();
    assert_eq!(app.history.len(), 1);
    assert!(app.history_index.is_none());
    assert_eq!(app.response_text.as_deref(), Some("Loading..."));
    assert_eq!(req.url, "http://x/y");
    assert_eq!(req.body.as_deref(), Some("{\"a\":1}"));
}

#[test]
fn successful_outcome_sets_status_and_pretty_prints_json() {
    let mut app = App::new();
    app.complete_dispatch_success(200, "{\"b\":2}".to_string());
    assert_eq!(app.response_status, Some(200));
    assert_eq!(app.response_text.as_deref(), Some("{\n  \"b\": 2\n}"));
}

#[test]
fn successful_outcome_keeps_a_non_json_body_verbatim() {
    let mut app = App::new();
    app.complete_dispatch_success(204, "plain text".to_string());
    assert_eq!(app.response_status, Some(204));
    assert_eq!(app.response_text.as_deref(), Some("plain text"));
}

#[test]
fn failed_outcome_clears_status_and_prefixes_the_message() {
    let mut app = App::new();
    app.complete_dispatch_success(200, "{}".to_string());
    app.complete_dispatch_error("connection refused".to_string());
    assert!(app.response_status.is_none());
    assert_eq!(app.response_text.as_deref(), Some("Error: connection refused"));
}

#[test]
fn end_to_end_submission_reconciles_a_simulated_transport_success() {
    let mut app = App::new();
    app.url_input = "http://x/y".to_string();
    app.set_body_text("{\"a\":1}");
    app.validate_body();
    assert!(app.validation_error.is_none());
    assert_eq!(app.get_validation_status(), "Body (JSON) [valid]");

    let req = app.begin_dispatch();
    assert_eq!(app.history.len(), 1);
    assert_eq!(app.history[0].url, "http://x/y");
    assert_eq!(app.history[0].body, "{\"a\":1}");
    assert_eq!(app.history[0].method, app.method);
    assert_eq!(app.response_text.as_deref(), Some("Loading..."));
    assert_eq!(req.method, HttpMethod::GET);

    app.complete_dispatch_success(200, "{\"b\":2}".to_string());
    assert_eq!(app.response_status, Some(200));
    assert_eq!(app.response_text.as_deref(), Some("{\n  \"b\": 2\n}"));
}

#[test]
fn two_in_flight_dispatches_leave_two_history_entries_and_the_last_result() {
    let mut app = App::new();
    app.url_input = "http://one".to_string();
    let _req1 = app.begin_dispatch();
    app.url_input = "http://two".to_string();
    let _req2 = app.begin_dispatch();
    assert_eq!(app.history.len(), 2);
    assert_eq!(app.response_text.as_deref(), Some("Loading..."));

    app.complete_dispatch_success(200, "first result".to_string());
    app.complete_dispatch_success(500, "second result".to_string());
    assert_eq!(app.response_status, Some(500));
    assert_eq!(app.response_text.as_deref(), Some("second result"));
}
