use reqtui::app::App;
use reqtui::app::FocusedPane;
use reqtui::app::HttpMethod;
use reqtui::app::InputMode;
use reqtui::app::RequestTab;
use reqtui::events::Key;
use reqtui::events::KeyInput;

fn key(k: Key) -> KeyInput {
    KeyInput { key: k, ctrl: false }
}

fn ctrl(k: Key) -> KeyInput {
    KeyInput { key: k, ctrl: true }
}

#[test]
fn q_quits_from_navigation_on_any_pane() {
    let mut app = App::new();
    app.handle_key(key(Key::Tab));
    app.handle_key(key(Key::Char('q')));
    assert!(!app.running);
}

#[test]
fn q_does_not_quit_while_editing() {
    let mut app = App::new();
    app.handle_key(key(Key::Char('i')));
    app.handle_key(key(Key::Char('q')));
    assert!(app.running);
    assert_eq!(app.url_input, "q");
}

#[test]
fn tab_cycles_the_five_panes_back_to_the_start() {
    let mut app = App::new();
    let mut seen = vec![app.focused_pane];
    for _ in 0..5 {
        app.handle_key(key(Key::Tab));
        seen.push(app.focused_pane);
    }
    assert_eq!(
        seen,
        vec![
            FocusedPane::Url,
            FocusedPane::RequestDetails,
            FocusedPane::Body,
            FocusedPane::Response,
            FocusedPane::Method,
            FocusedPane::Url,
        ]
    );
}

#[test]
fn space_and_arrows_cycle_the_method_on_the_method_pane() {
    let mut app = App::new();
    for _ in 0..4 {
        app.handle_key(key(Key::Tab));
    }
    assert_eq!(app.focused_pane, FocusedPane::Method);
    app.handle_key(key(Key::Char(' ')));
    assert_eq!(app.method, HttpMethod::POST);
    app.handle_key(key(Key::Right));
    assert_eq!(app.method, HttpMethod::PUT);
    app.handle_key(key(Key::Left));
    assert_eq!(app.method, HttpMethod::POST);
}

#[test]
fn arrows_cycle_tabs_on_the_request_details_pane() {
    let mut app = App::new();
    app.handle_key(key(Key::Tab));
    assert_eq!(app.focused_pane, FocusedPane::RequestDetails);
    app.handle_key(key(Key::Right));
    assert_eq!(app.active_request_tab, RequestTab::Params);
    app.handle_key(key(Key::Left));
    assert_eq!(app.active_request_tab, RequestTab::Headers);
}

#[test]
fn url_editing_appends_and_removes_characters() {
    let mut app = App::new();
    app.handle_key(key(Key::Char('i')));
    assert_eq!(app.input_mode, InputMode::Editing);
    for c in "http://xy".chars() {
        app.handle_key(key(Key::Char(c)));
    }
    app.handle_key(key(Key::Backspace));
    app.handle_key(key(Key::Esc));
    assert_eq!(app.input_mode, InputMode::Normal);
    assert_eq!(app.url_input, "http://x");
}

#[test]
fn key_value_editing_through_keystrokes() {
    let mut app = App::new();
    app.handle_key(key(Key::Tab));
    app.handle_key(key(Key::Char('i')));
    app.handle_key(key(Key::Char('X')));
    app.handle_key(key(Key::Tab));
    app.handle_key(key(Key::Char('7')));
    let t = &app.headers;
    assert_eq!(t.entries.len(), 1);
    assert_eq!(t.entries[0].key, "X");
    assert_eq!(t.entries[0].value, "7");
    app.handle_key(key(Key::Enter));
    assert_eq!(app.headers.focused_index, 1);
    app.handle_key(ctrl(Key::Char('d')));
    assert_eq!(app.headers.entries.len(), 1);
    app.handle_key(key(Key::Esc));
    assert_eq!(app.input_mode, InputMode::Normal);
}

#[test]
fn body_editing_validates_after_every_keystroke() {
    let mut app = App::new();
    app.handle_key(key(Key::Tab));
    app.handle_key(key(Key::Tab));
    assert_eq!(app.focused_pane, FocusedPane::Body);
    app.handle_key(key(Key::Char('i')));
    app.handle_key(key(Key::Char('{')));
    assert!(app.validation_error.is_some());
    app.handle_key(key(Key::Char('}')));
    assert!(app.validation_error.is_none());
    assert_eq!(app.get_body_text(), "{}");
}

#[test]
fn body_newlines_come_from_the_enter_key() {
    let mut app = App::new();
    app.handle_key(key(Key::Tab));
    app.handle_key(key(Key::Tab));
    app.handle_key(key(Key::Char('i')));
    app.handle_key(key(Key::Char('{')));
    app.handle_key(key(Key::Enter));
    app.handle_key(key(Key::Char('}')));
    assert_eq!(app.get_body_text(), "{\n}");
}

#[test]
fn enter_in_navigation_submits_from_any_pane() {
    let mut app = App::new();
    app.url_input = "http://x".to_string();
    let r = app.handle_key(key(Key::Enter));
    let req = r.expect("Enter in navigation mode must dispatch");
    assert_eq!(req.url, "http://x");
    assert_eq!(app.history.len(), 1);
    assert_eq!(app.response_text.as_deref(), Some("Loading..."));
}

#[test]
fn only_enter_in_navigation_dispatches() {
    let mut app = App::new();
    assert!(app.handle_key(key(Key::Tab)).is_none());
    assert!(app.handle_key(key(Key::Char('i'))).is_none());
    assert!(app.handle_key(key(Key::Enter)).is_none());
    assert!(app.handle_key(key(Key::Esc)).is_none());
}

#[test]
fn history_keys_browse_on_the_url_pane() {
    let mut app = App::new();
    app.url_input = "http://one".to_string();
    app.save_to_history();
    app.url_input = "http://two".to_string();
    app.save_to_history();
    app.url_input = "live".to_string();
    app.handle_key(key(Key::Up));
    assert_eq!(app.url_input, "http://two");
    app.handle_key(ctrl(Key::Char('p')));
    assert_eq!(app.url_input, "http://one");
    app.handle_key(ctrl(Key::Char('n')));
    assert_eq!(app.url_input, "http://two");
    app.handle_key(key(Key::Down));
    assert!(app.history_index.is_none());
}

#[test]
fn response_pane_scrolls_and_saturates_at_zero() {
    let mut app = App::new();
    for _ in 0..3 {
        app.handle_key(key(Key::Tab));
    }
    assert_eq!(app.focused_pane, FocusedPane::Response);
    app.handle_key(key(Key::Up));
    assert_eq!(app.response_scroll, 0);
    app.handle_key(key(Key::Down));
    app.handle_key(key(Key::Down));
    assert_eq!(app.response_scroll, 2);
    app.handle_key(key(Key::Up));
    assert_eq!(app.response_scroll, 1);
}

#[test]
fn table_cursor_moves_from_navigation_mode() {
    let mut app = App::new();
    app.headers.add_entry("a".to_string(), "1".to_string());
    app.headers.add_entry("b".to_string(), "2".to_string());
    app.handle_key(key(Key::Tab));
    app.handle_key(key(Key::Down));
    app.handle_key(key(Key::Down));
    assert_eq!(app.headers.focused_index, 2);
    app.handle_key(key(Key::Down));
    assert_eq!(app.headers.focused_index, 2);
    app.handle_key(key(Key::Up));
    assert_eq!(app.headers.focused_index, 1);
}
