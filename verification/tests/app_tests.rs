use reqtui::app::App;
use reqtui::app::FocusedPane;
use reqtui::app::HttpMethod;
use reqtui::app::InputMode;
use reqtui::app::RequestTab;

#[test]
fn new_app_starts_live_on_the_url_pane() {
    let app = App::new();
    assert!(app.running);
    assert_eq!(app.input_mode, InputMode::Normal);
    assert_eq!(app.focused_pane, FocusedPane::Url);
    assert_eq!(app.method, HttpMethod::GET);
    assert_eq!(app.url_input, "");
    assert_eq!(app.active_request_tab, RequestTab::Headers);
    assert!(app.response_text.is_none());
    assert!(app.response_status.is_none());
    assert!(app.history.is_empty());
    assert!(app.history_index.is_none());
    assert!(app.validation_error.is_none());
}

#[test]
fn method_names_spell_the_http_verbs() {
    assert_eq!(HttpMethod::GET.name(), "GET");
    assert_eq!(HttpMethod::POST.name(), "POST");
    assert_eq!(HttpMethod::PUT.name(), "PUT");
    assert_eq!(HttpMethod::DELETE.name(), "DELETE");
    assert_eq!(HttpMethod::PATCH.name(), "PATCH");
}

#[test]
fn next_method_cycles_through_all_five_and_returns() {
    let mut app = App::new();
    assert_eq!(app.method, HttpMethod::GET);
    app.next_method();
    assert_eq!(app.method, HttpMethod::POST);
    app.next_method();
    assert_eq!(app.method, HttpMethod::PUT);
    app.next_method();
    assert_eq!(app.method, HttpMethod::DELETE);
    app.next_method();
    assert_eq!(app.method, HttpMethod::PATCH);
    app.next_method();
    assert_eq!(app.method, HttpMethod::GET);
}

#[test]
fn prev_method_is_the_inverse_of_next_method() {
    let mut app = App::new();
    app.next_method();
    app.prev_method();
    assert_eq!(app.method, HttpMethod::GET);
    app.prev_method();
    assert_eq!(app.method, HttpMethod::PATCH);
    app.prev_method();
    app.prev_method();
    app.prev_method();
    app.prev_method();
    assert_eq!(app.method, HttpMethod::GET);
}

#[test]
fn tab_cycles_are_mutual_inverses() {
    let mut app = App::new();
    app.next_tab();
    assert_eq!(app.active_request_tab, RequestTab::Params);
    app.next_tab();
    assert_eq!(app.active_request_tab, RequestTab::Authorization);
    app.next_tab();
    assert_eq!(app.active_request_tab, RequestTab::Headers);
    app.prev_tab();
    assert_eq!(app.active_request_tab, RequestTab::Authorization);
    app.next_request_tab();
    assert_eq!(app.active_request_tab, RequestTab::Params);
    app.prev_request_tab();
    assert_eq!(app.active_request_tab, RequestTab::Authorization);
}

#[test]
fn body_text_set_get_round_trips_through_the_app() {
    let mut app = App::new();
    app.set_body_text("{\n  \"k\": true\n}");
    assert_eq!(app.get_body_text(), "{\n  \"k\": true\n}");
    app.set_body_text("");
    assert_eq!(app.get_body_text(), "");
}

#[test]
fn validate_empty_body_reports_nothing() {
    let mut app = App::new();
    app.set_body_text("");
    app.validate_body();
    assert!(app.validation_error.is_none());
}

#[test]
fn validate_whitespace_body_reports_nothing() {
    let mut app = App::new();
    app.set_body_text("   ");
    app.validate_body();
    assert!(app.validation_error.is_none());
}

#[test]
fn validate_well_formed_json_reports_nothing() {
    let mut app = App::new();
    app.set_body_text("{\"a\":1}");
    app.validate_body();
    assert!(app.validation_error.is_none());
}

#[test]
fn validate_malformed_json_reports_a_one_based_location() {
    let mut app = App::new();
    app.set_body_text("{\"a\":}");
    app.validate_body();
    let (line, col, msg) = app.validation_error.clone().expect("malformed JSON must be flagged");
    assert!(line >= 1);
    assert!(col >= 1);
    assert!(!msg.is_empty());
}

#[test]
fn validation_status_label_tracks_the_three_states() {
    let mut app = App::new();
    app.set_body_text("");
    app.validate_body();
    assert_eq!(app.get_validation_status(), "Body (JSON)");
    app.set_body_text("{\"a\":1}");
    app.validate_body();
    assert_eq!(app.get_validation_status(), "Body (JSON) [valid]");
    app.set_body_text("{\"a\":}");
    app.validate_body();
    let (line, col, _) = app.validation_error.clone().unwrap();
    assert_eq!(
        app.get_validation_status(),
        format!("Body (Error at line {}, col {})", line, col)
    );
}

#[test]
fn save_to_history_appends_and_returns_to_live() {
    let mut app = App::new();
    app.url_input = "http://one".to_string();
    app.save_to_history();
    assert_eq!(app.history.len(), 1);
    assert!(app.history_index.is_none());
    assert_eq!(app.history[0].url, "http://one");
    assert_eq!(app.history[0].method, HttpMethod::GET);
}

#[test]
fn history_browsing_walks_back_then_forward_then_clears() {
    let mut app = App::new();
    app.url_input = "http://one".to_string();
    app.set_body_text("{\"n\":1}");
    app.save_to_history();
    app.url_input = "http://two".to_string();
    app.set_body_text("{\"n\":2}");
    app.save_to_history();

    app.prev_history();
    assert_eq!(app.url_input, "http://two");
    assert_eq!(app.get_body_text(), "{\"n\":2}");
    assert_eq!(app.history_index, Some(1));

    app.prev_history();
    assert_eq!(app.url_input, "http://one");
    assert_eq!(app.get_body_text(), "{\"n\":1}");
    assert_eq!(app.history_index, Some(0));

    app.prev_history();
    assert_eq!(app.url_input, "http://one");
    assert_eq!(app.history_index, Some(0));

    app.next_history();
    assert_eq!(app.url_input, "http://two");
    assert_eq!(app.history_index, Some(1));

    app.next_history();
    assert!(app.history_index.is_none());
    assert_eq!(app.url_input, "http://two");
}

#[test]
fn history_browsing_on_an_empty_stack_is_a_noop() {
    let mut app = App::new();
    app.prev_history();
    app.next_history();
    assert!(app.history_index.is_none());
    assert!(app.history.is_empty());
}

#[test]
fn load_from_history_overwrites_fields_in_place() {
    let mut app = App::new();
    app.url_input = "http://one".to_string();
    app.headers.add_entry("X-A".to_string(), "1".to_string());
    app.save_to_history();
    app.url_input = "http://live-edit".to_string();
    app.headers.add_entry("X-B".to_string(), "2".to_string());
    app.load_from_history(0);
    assert_eq!(app.url_input, "http://one");
    assert_eq!(app.headers.entries.len(), 1);
    assert_eq!(app.history_index, Some(0));
    app.load_from_history(9);
    assert_eq!(app.url_input, "http://one");
}

#[test]
fn quit_only_clears_running() {
    let mut app = App::new();
    app.url_input = "kept".to_string();
    app.quit();
    assert!(!app.running);
    assert_eq!(app.url_input, "kept");
}

#[test]
fn pane_helpers_report_focus() {
    let mut app = App::new();
    assert!(!app.is_in_request_details());
    app.advance_pane();
    assert!(app.is_in_request_details());
    assert!(app.is_request_tab_active(&RequestTab::Headers));
    assert!(!app.is_request_tab_active(&RequestTab::Params));
    app.retreat_pane();
    assert_eq!(app.focused_pane, FocusedPane::Url);
}

#[test]
fn active_tab_accessors_follow_the_active_tab() {
    let mut app = App::new();
    app.get_active_tab_mut().add_entry("h".to_string(), "1".to_string());
    app.next_tab();
    app.get_active_request_entries().add_entry("p".to_string(), "2".to_string());
    assert_eq!(app.headers.entries.len(), 1);
    assert_eq!(app.params.entries.len(), 1);
    assert_eq!(app.authorization.entries.len(), 0);
}
