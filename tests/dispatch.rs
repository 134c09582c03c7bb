use neoman::app::{App, KeyCode, KeyEvent, RequestMenu};
use neoman::focus::Selected;
use neoman::request::{build, descriptor_from, DispatchState, Dispatcher, Method, RequestError};
use neoman::text_field::{chars_of, InputMode, TextField};

fn key(code: KeyCode) -> KeyEvent {
    KeyEvent { code, ctrl: false }
}

fn ctrl(c: char) -> KeyEvent {
    KeyEvent { code: KeyCode::Char(c), ctrl: true }
}

#[test]
fn build_repairs_missing_scheme() {
    let d = build(Method::Get, "api.kanye.rest/?q=a", "").unwrap();
    assert_eq!(d.url, "https://api.kanye.rest/?q=a");
    assert_eq!(d.method, Method::Get);
    assert_eq!(d.body, "");
}

#[test]
fn build_keeps_absolute_url() {
    let d = build(Method::Post, "http://example.com/x", "{}").unwrap();
    assert_eq!(d.url, "http://example.com/x");
    assert_eq!(d.method, Method::Post);
    assert_eq!(d.body, "{}");
}

#[test]
fn build_rejects_unparsable_text() {
    assert!(matches!(build(Method::Get, "not a url with spaces", ""), Err(RequestError::Parse)));
}

#[test]
fn descriptor_from_resolved_url() {
    let d = descriptor_from(Method::Delete, Some(String::from("https://h/")), "b").unwrap();
    assert_eq!(d.url, "https://h/");
    assert_eq!(d.body, "b");
    assert!(matches!(descriptor_from(Method::Get, None, ""), Err(RequestError::Parse)));
}

#[test]
fn method_names_and_order() {
    let names: Vec<&str> = Method::all().into_iter().map(|m| m.name()).collect();
    assert_eq!(names, vec!["GET", "POST", "PUT", "DELETE", "PATCH", "HEAD", "OPTIONS"]);
}

#[test]
fn dispatcher_one_request_at_a_time() {
    let mut d = Dispatcher::new();
    assert!(d.fire(Method::Get, "http://a.b/", "").is_some());
    assert_eq!(d.state, DispatchState::InFlight);
    assert!(d.fire(Method::Get, "http://a.b/", "").is_none());
    assert_eq!(d.state, DispatchState::InFlight);
    d.complete(Ok(String::from("body")));
    assert_eq!(d.state, DispatchState::Idle);
    assert_eq!(d.last.as_ref().unwrap().as_ref().unwrap().body, "body");
    d.complete(Ok(String::from("late")));
    assert_eq!(d.last.as_ref().unwrap().as_ref().unwrap().body, "body");
}

#[test]
fn failing_transport_surfaces_error_and_loop_goes_on() {
    let mut app = App::new();
    app.selected = Selected::Urlbar;
    let req = app.handle_key_events(key(KeyCode::Char('o'))).unwrap();
    assert_eq!(req.url, "https://api.kanye.rest/?q=a");
    app.finish_request(Err(String::from("connection refused")));
    assert!(matches!(&app.dispatcher.last, Some(Err(RequestError::Transport(m))) if m == "connection refused"));
    assert_eq!(app.responsebar.body, "error: request failed: connection refused");
    assert!(app.running);
    assert_eq!(app.dispatcher.state, DispatchState::Idle);
    app.handle_key_events(key(KeyCode::Tab));
    assert_eq!(app.selected, Selected::RequestTab);
    assert!(app.running);
}

#[test]
fn response_body_is_shown() {
    let mut app = App::new();
    app.request().unwrap();
    app.finish_request(Ok(String::from("{\"quote\":\"hi\"}")));
    assert_eq!(app.responsebar.body, "{\"quote\":\"hi\"}");
}

#[test]
fn unparsable_url_shows_error() {
    let mut app = App::new();
    app.urlbar.field = TextField::new(chars_of("not a url with spaces"));
    assert_eq!(app.urlbar.field.mode, InputMode::Normal);
    assert!(app.handle_key_events(key(KeyCode::Char('o'))).is_none());
    assert!(matches!(app.dispatcher.last, Some(Err(RequestError::Parse))));
    assert_eq!(app.responsebar.body, "error: the URL could not be parsed");
    assert!(app.running);
}

#[test]
fn app_starts_as_described() {
    let app = App::new();
    assert!(app.running);
    assert_eq!(app.selected, Selected::Urlbar);
    assert_eq!(app.sidebar_size(), 25);
    let tabs: Vec<&str> = app.tabs.tabs.iter().map(|t| t.name.as_str()).collect();
    assert_eq!(tabs, vec!["a", "b", "d"]);
    assert_eq!(app.tabs.selected, 0);
    assert_eq!(app.urlbar.field.text_string(), "https://api.kanye.rest/?q=a");
    assert_eq!(app.urlbar.method, Method::Get);
    assert_eq!(app.sidebar.tree.selected(), Some(0));
    app.tick();
}

#[test]
fn toggle_sidebar_moves_focus_off_sidebar() {
    let mut app = App::new();
    app.selected = Selected::Sidebar;
    app.handle_key_events(ctrl('b'));
    assert_eq!(app.selected, Selected::Tabs);
    assert!(!app.settings.show_sidebar);
    assert_eq!(app.sidebar_size(), 0);
    app.toggle_sidebar();
    assert!(app.settings.show_sidebar);
    assert_eq!(app.selected, Selected::Tabs);
}

#[test]
fn quit_and_focus_keys() {
    let mut app = App::new();
    app.handle_key_events(ctrl(','));
    assert_eq!(app.selected, Selected::MethodBar);
    app.handle_key_events(ctrl(']'));
    assert_eq!(app.selected, Selected::Urlbar);
    app.handle_key_events(ctrl('C'));
    assert!(!app.running);
    let mut other = App::new();
    other.quit();
    assert!(!other.running);
}

#[test]
fn sidebar_opens_leaf_as_tab() {
    let mut app = App::new();
    app.selected = Selected::Sidebar;
    app.handle_key_events(key(KeyCode::Down));
    app.handle_key_events(key(KeyCode::Enter));
    assert!(app.sidebar.tree.expanded[1]);
    assert_eq!(app.selected, Selected::Sidebar);
    app.handle_key_events(key(KeyCode::Down));
    app.handle_key_events(key(KeyCode::Char('o')));
    assert_eq!(app.selected, Selected::Tabs);
    let tabs: Vec<&str> = app.tabs.tabs.iter().map(|t| t.name.as_str()).collect();
    assert_eq!(tabs, vec!["a", "b", "d", "c"]);
    assert_eq!(app.tabs.selected, 3);
    app.handle_key_events(key(KeyCode::Home));
    assert_eq!(app.tabs.selected, 0);
    app.handle_key_events(key(KeyCode::Right));
    assert_eq!(app.tabs.selected, 1);
}

#[test]
fn method_picker_commits_choice() {
    let mut app = App::new();
    app.selected = Selected::MethodBar;
    app.handle_key_events(key(KeyCode::Down));
    app.handle_key_events(key(KeyCode::Down));
    app.handle_key_events(key(KeyCode::Enter));
    assert_eq!(app.urlbar.method, Method::Put);
    assert_eq!(app.urlbar.method_label, "PUT");
    assert!(!app.urlbar.method_menu.is_open());
    app.handle_key_events(key(KeyCode::Char('k')));
    app.handle_key_events(key(KeyCode::Esc));
    assert_eq!(app.urlbar.method_menu.highlighted, 2);
    assert_eq!(app.urlbar.method, Method::Put);
}

#[test]
fn url_editing_through_keys() {
    let mut app = App::new();
    app.handle_key_events(key(KeyCode::Char('i')));
    app.handle_key_events(key(KeyCode::End));
    app.handle_key_events(key(KeyCode::Backspace));
    app.handle_key_events(key(KeyCode::Char('b')));
    app.handle_key_events(key(KeyCode::Left));
    app.handle_key_events(key(KeyCode::Delete));
    assert_eq!(app.urlbar.field.text_string(), "https://api.kanye.rest/?q=");
    app.handle_key_events(key(KeyCode::Enter));
    assert_eq!(app.urlbar.field.mode, InputMode::Normal);
}

#[test]
fn request_tab_keys() {
    let mut app = App::new();
    app.selected = Selected::RequestTab;
    app.handle_key_events(key(KeyCode::Char('l')));
    assert_eq!(app.requestbar.request_menu, RequestMenu::Headers);
    app.handle_key_events(key(KeyCode::Right));
    app.handle_key_events(key(KeyCode::Right));
    assert_eq!(app.requestbar.request_menu, RequestMenu::Body);
    app.handle_key_events(key(KeyCode::Left));
    assert_eq!(app.requestbar.request_menu, RequestMenu::Headers);
}

#[test]
fn build_returns_normalised_url() {
    let d = build(Method::Head, "HTTP://Example.COM", "").unwrap();
    assert_eq!(d.url, "http://example.com/");
    assert_eq!(d.method, Method::Head);
}

#[test]
fn plain_focus_keys_move_focus() {
    let mut app = App::new();
    app.handle_key_events(key(KeyCode::Char('.')));
    assert_eq!(app.selected, Selected::RequestTab);
    app.handle_key_events(key(KeyCode::Char(']')));
    assert_eq!(app.selected, Selected::Requestbar);
    app.handle_key_events(key(KeyCode::Char(',')));
    app.handle_key_events(key(KeyCode::Char('[')));
    assert_eq!(app.selected, Selected::Urlbar);
    // in editing mode the key is still a focus command, not text
    app.handle_key_events(key(KeyCode::Char('i')));
    app.handle_key_events(key(KeyCode::Char('.')));
    assert_eq!(app.selected, Selected::RequestTab);
    assert_eq!(app.urlbar.field.text_string(), "https://api.kanye.rest/?q=a");
}

#[test]
fn toggle_sidebar_twice_keeps_other_state() {
    let mut app = App::new();
    app.responsebar.body = String::from("kept");
    app.toggle_sidebar();
    app.toggle_sidebar();
    assert_eq!(app.sidebar_size(), 25);
    assert_eq!(app.responsebar.body, "kept");
    assert_eq!(app.selected, Selected::Urlbar);
    assert!(app.running);
}

#[test]
fn fresh_app_areas_are_empty() {
    let app = App::new();
    assert!(!app.settings.show_help);
    assert_eq!(app.urlbar.title, "https://api.kanye.rest/?q=a");
    assert_eq!(app.urlbar.field.cursor, 0);
    assert_eq!(app.urlbar.method_label, "GET");
    assert!(!app.urlbar.method_menu.is_open());
    assert_eq!(app.requestbar.body, "");
    assert_eq!(app.requestbar.request_menu, RequestMenu::Params);
    assert_eq!(app.responsebar.body, "");
    let labels: Vec<(&str, usize)> =
        app.sidebar.tree.nodes.iter().map(|n| (n.label.as_str(), n.depth)).collect();
    assert_eq!(
        labels,
        vec![("a", 0), ("b", 0), ("c", 1), ("d", 1), ("e", 2), ("f", 2), ("g", 1), ("d", 0)]
    );
    assert!(app.sidebar.tree.expanded.iter().all(|e| !e));
}
