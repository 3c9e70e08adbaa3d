use msn_host::label::{chat_window_label, chat_window_route, chat_window_title, main_window_label, normalize_chat_id};
use msn_host::notify::{
    action_data, clear_all_notifications, handle_notification_click, lex_less_eq,
    load_notification_settings, notification_body, notification_gate, notification_kind,
    permission_name, route_click, show_notification, show_notification_now, ActionData,
    ClickRoute, Gate, NotificationData, NotificationKind, NotificationSettings, PermissionState,
};
use msn_host::store::{load_window_state, save_window_state, str_equal, KeyValueStore};
use msn_host::tray::{decimal_text, tray_click_shows_main, tray_id, tray_menu, tray_tooltip, ButtonState, MenuEntry, MouseButton};
use msn_host::url::{check_url_scheme, has_prefix, parse_deep_link, UrlError};
use msn_host::windows::{close_decision, ChatWindowAction, CloseDecision, WindowTable, CHAT_HEIGHT, CHAT_MIN_HEIGHT, CHAT_MIN_WIDTH, CHAT_WIDTH};

fn settings() -> NotificationSettings {
    NotificationSettings::default()
}

fn data(id: &str, kind: &str, chat: Option<&str>) -> NotificationData {
    NotificationData {
        id: id.to_string(),
        title: "Alice".to_string(),
        body: "hello there".to_string(),
        chat_id: chat.map(|c| c.to_string()),
        sender_id: Some("alice".to_string()),
        notification_type: kind.to_string(),
        timestamp: 1_700_000_000,
    }
}

#[test]
fn label_replaces_unsafe_characters() {
    assert_eq!(normalize_chat_id("alice@example.com"), "alice-example-com");
    assert_eq!(normalize_chat_id("a b/c:d"), "a-b-c-d");
    assert_eq!(normalize_chat_id("Ok_id-09"), "Ok_id-09");
    assert_eq!(normalize_chat_id("caf\u{e9}"), "caf-");
    assert_eq!(normalize_chat_id(""), "");
    assert_eq!(chat_window_label("room#1"), "chat-room-1");
    assert_eq!(main_window_label(), "main");
}

#[test]
fn chat_window_title_and_route() {
    assert_eq!(chat_window_title("Bob"), "Chat with Bob");
    assert_eq!(chat_window_route("a b"), "/?chat=a b&window=chat");
}

#[test]
fn create_then_create_again_focuses() {
    let mut t = WindowTable::new();
    match t.create_chat_window("bob@x", "Bob") {
        ChatWindowAction::Create { spec } => {
            assert_eq!(spec.label, "chat-bob-x");
            assert_eq!(spec.title, "Chat with Bob");
            assert_eq!(spec.route, "/?chat=bob@x&window=chat");
            assert_eq!((spec.width, spec.height), (600, 500));
            assert_eq!((spec.min_width, spec.min_height), (400, 300));
            assert_eq!((CHAT_WIDTH, CHAT_HEIGHT, CHAT_MIN_WIDTH, CHAT_MIN_HEIGHT), (600, 500, 400, 300));
            assert!(spec.resizable && spec.centered);
        }
        ChatWindowAction::Focus { .. } => panic!("expected a new window"),
    }
    match t.create_chat_window("bob@x", "Bob") {
        ChatWindowAction::Focus { label } => assert_eq!(label, "chat-bob-x"),
        ChatWindowAction::Create { .. } => panic!("expected focus"),
    }
    // a different id that normalizes to the same label also finds the window
    assert!(matches!(t.create_chat_window("bob#x", "Bob"), ChatWindowAction::Focus { .. }));
}

#[test]
fn close_uses_the_same_label() {
    let mut t = WindowTable::new();
    t.create_chat_window("carol smith", "Carol");
    assert!(t.contains("chat-carol-smith"));
    assert_eq!(t.close_chat_window("carol smith"), Some("chat-carol-smith".to_string()));
    assert!(!t.contains("chat-carol-smith"));
    assert_eq!(t.close_chat_window("carol smith"), None);
}

#[test]
fn closing_main_hides_it() {
    let mut t = WindowTable::new();
    t.insert("main".to_string(), true);
    t.create_chat_window("x", "X");
    assert_eq!(t.request_close("main"), CloseDecision::HideInstead);
    assert!(t.contains("main"));
    assert_eq!(t.request_close("chat-x"), CloseDecision::Close);
    assert!(!t.contains("chat-x"));
    assert!(t.contains("main"));
    assert_eq!(close_decision("main"), CloseDecision::HideInstead);
    assert_eq!(close_decision("mainx"), CloseDecision::Close);
}

#[test]
fn minimize_and_restore() {
    let mut t = WindowTable::new();
    assert!(!t.restore_from_tray());
    t.insert("main".to_string(), true);
    assert!(t.minimize_to_tray("main"));
    assert!(t.restore_from_tray());
    assert!(!t.minimize_to_tray("other"));
}

#[test]
fn empty_store_gives_default_settings() {
    let s = load_notification_settings(None);
    assert!(s.enabled);
    assert!(s.sound_enabled);
    assert!(s.show_preview);
    assert!(s.suppress_when_focused);
    assert!(!s.quiet_hours_enabled);
    assert!(s.quiet_hours_start.is_none());
    assert!(s.quiet_hours_end.is_none());
    let mut stored = settings();
    stored.enabled = false;
    assert!(!load_notification_settings(Some(stored)).enabled);
}

#[test]
fn gate_checks_in_order() {
    let mut s = settings();
    assert_eq!(notification_gate(&s, false, "12:00"), Gate::Show);
    assert_eq!(notification_gate(&s, true, "12:00"), Gate::Focused);
    s.suppress_when_focused = false;
    assert_eq!(notification_gate(&s, true, "12:00"), Gate::Show);
    s.quiet_hours_enabled = true;
    s.quiet_hours_start = Some("22:00".to_string());
    assert_eq!(notification_gate(&s, false, "22:30"), Gate::Show);
    s.quiet_hours_end = Some("23:00".to_string());
    assert_eq!(notification_gate(&s, false, "22:30"), Gate::QuietHours);
    assert_eq!(notification_gate(&s, false, "22:00"), Gate::QuietHours);
    assert_eq!(notification_gate(&s, false, "23:00"), Gate::QuietHours);
    assert_eq!(notification_gate(&s, false, "23:01"), Gate::Show);
    assert_eq!(notification_gate(&s, false, "21:59"), Gate::Show);
    s.enabled = false;
    assert_eq!(notification_gate(&s, true, "22:30"), Gate::Disabled);
}

#[test]
fn quiet_hours_past_midnight_never_hold() {
    let mut s = settings();
    s.quiet_hours_enabled = true;
    s.quiet_hours_start = Some("22:00".to_string());
    s.quiet_hours_end = Some("08:00".to_string());
    assert_eq!(notification_gate(&s, false, "23:00"), Gate::Show);
    assert_eq!(notification_gate(&s, false, "07:00"), Gate::Show);
}

#[test]
fn lexical_order() {
    assert!(lex_less_eq("08:00", "22:00"));
    assert!(!lex_less_eq("22:00", "08:00"));
    assert!(lex_less_eq("22:00", "22:00"));
    assert!(lex_less_eq("", "a"));
    assert!(!lex_less_eq("ab", "a"));
    assert!(lex_less_eq("a", "ab"));
}

#[test]
fn show_stores_action_data() {
    let mut store = KeyValueStore::new();
    let d = data("n1", "message", Some("bob"));
    let shown = show_notification(&mut store, &settings(), false, "12:00", &d).unwrap();
    assert_eq!(shown.title, "Alice");
    assert_eq!(shown.body, "hello there");
    let a = store.get("n1").unwrap();
    assert_eq!(a.notification_id, "n1");
    assert_eq!(a.notification_type, "message");
    assert_eq!(a.chat_id.as_deref(), Some("bob"));
    assert_eq!(a.sender_id.as_deref(), Some("alice"));
}

#[test]
fn preview_off_hides_body() {
    let mut s = settings();
    s.show_preview = false;
    let d = data("n1", "message", None);
    assert_eq!(notification_body(&s, &d), "New message");
    assert_eq!(notification_body(&settings(), &d), "hello there");
}

#[test]
fn held_back_notification_leaves_store_alone() {
    let mut store = KeyValueStore::new();
    let d = data("n1", "message", Some("bob"));
    let mut off = settings();
    off.enabled = false;
    assert!(show_notification(&mut store, &off, false, "12:00", &d).is_none());
    assert!(show_notification(&mut store, &settings(), true, "12:00", &d).is_none());
    let mut quiet = settings();
    quiet.quiet_hours_enabled = true;
    quiet.quiet_hours_start = Some("00:00".to_string());
    quiet.quiet_hours_end = Some("23:59".to_string());
    assert!(show_notification(&mut store, &quiet, false, "12:00", &d).is_none());
    assert!(!store.contains("n1"));
    assert!(show_notification_now(&mut store, &off, false, &d).is_none());
    assert!(!store.contains("n1"));
}

#[test]
fn show_now_reads_the_clock() {
    let mut store = KeyValueStore::new();
    let d = data("n2", "group_invite", None);
    let shown = show_notification_now(&mut store, &settings(), false, &d);
    assert!(shown.is_some());
    assert!(store.contains("n2"));
}

#[test]
fn click_routes_and_forgets() {
    let mut store = KeyValueStore::new();
    let s = settings();
    show_notification(&mut store, &s, false, "12:00", &data("m", "message", Some("bob")));
    show_notification(&mut store, &s, false, "12:00", &data("c", "contact_request", None));
    show_notification(&mut store, &s, false, "12:00", &data("g", "group_invite", None));
    show_notification(&mut store, &s, false, "12:00", &data("u", "wave", None));
    show_notification(&mut store, &s, false, "12:00", &data("e", "message", None));
    match handle_notification_click(&mut store, "m") {
        Some(ClickRoute::OpenChat { chat_id }) => assert_eq!(chat_id, "bob"),
        _ => panic!("expected a chat"),
    }
    assert!(store.get("m").is_none());
    let c = handle_notification_click(&mut store, "c").unwrap();
    assert!(matches!(c, ClickRoute::ContactRequests));
    assert_eq!(c.event_name().as_deref(), Some("show-contact-requests"));
    let g = handle_notification_click(&mut store, "g").unwrap();
    assert_eq!(g.event_name().as_deref(), Some("show-group-invites"));
    assert!(matches!(handle_notification_click(&mut store, "u"), Some(ClickRoute::RestoreOnly)));
    assert!(matches!(handle_notification_click(&mut store, "e"), Some(ClickRoute::RestoreOnly)));
    assert!(handle_notification_click(&mut store, "m").is_none());
    assert!(!store.contains("c") && !store.contains("g") && !store.contains("u"));
}

#[test]
fn kinds_and_routes() {
    assert_eq!(notification_kind("message"), NotificationKind::Message);
    assert_eq!(notification_kind("contact_request"), NotificationKind::ContactRequest);
    assert_eq!(notification_kind("group_invite"), NotificationKind::GroupInvite);
    assert_eq!(notification_kind("Message"), NotificationKind::Unknown);
    let a: ActionData = action_data(&data("x", "message", Some("room")));
    assert!(matches!(route_click(&a), ClickRoute::OpenChat { .. }));
    assert!(ClickRoute::RestoreOnly.event_name().is_none());
}

#[test]
fn clear_forgets_everything() {
    let mut store = KeyValueStore::new();
    show_notification(&mut store, &settings(), false, "12:00", &data("a", "message", None));
    clear_all_notifications(&mut store);
    assert!(!store.contains("a"));
}

#[test]
fn permission_names() {
    assert_eq!(permission_name(PermissionState::Granted), "granted");
    assert_eq!(permission_name(PermissionState::Denied), "denied");
    assert_eq!(permission_name(PermissionState::Prompt), "prompt");
    assert_eq!(permission_name(PermissionState::PromptWithRationale), "prompt-with-rationale");
}

#[test]
fn tooltip_reflects_count() {
    assert_eq!(tray_tooltip(0), "MSN Messenger");
    assert_eq!(tray_tooltip(1), "MSN Messenger - 1 unread messages");
    assert_eq!(tray_tooltip(42), "MSN Messenger - 42 unread messages");
    assert_eq!(tray_tooltip(u32::MAX), "MSN Messenger - 4294967295 unread messages");
    assert_eq!(decimal_text(0), "0");
    assert_eq!(decimal_text(1009), "1009");
    assert_eq!(tray_id(), "main-tray");
}

#[test]
fn menu_layout() {
    let m = tray_menu();
    assert_eq!(m.len(), 5);
    let items: Vec<(String, String)> = m
        .iter()
        .filter_map(|e| match e {
            MenuEntry::Item { id, text } => Some((id.clone(), text.clone())),
            MenuEntry::Separator => None,
        })
        .collect();
    assert_eq!(
        items,
        vec![
            ("show".to_string(), "Show MSN Messenger".to_string()),
            ("hide".to_string(), "Hide to Tray".to_string()),
            ("quit".to_string(), "Quit".to_string()),
        ]
    );
    assert!(matches!(m[1], MenuEntry::Separator));
    assert!(matches!(m[3], MenuEntry::Separator));
}

#[test]
fn tray_left_release_shows_main() {
    assert!(tray_click_shows_main(MouseButton::Left, ButtonState::Up));
    assert!(!tray_click_shows_main(MouseButton::Left, ButtonState::Down));
    assert!(!tray_click_shows_main(MouseButton::Right, ButtonState::Up));
}

#[test]
fn open_url_checks_scheme() {
    assert_eq!(check_url_scheme("ftp://example.com"), Err(UrlError::InvalidScheme));
    assert_eq!(UrlError::InvalidScheme.message(), "Invalid URL scheme");
    assert_eq!(check_url_scheme("https://example.com"), Ok(()));
    assert_eq!(check_url_scheme("http://example.com"), Ok(()));
    assert_eq!(check_url_scheme("HTTPS://example.com"), Err(UrlError::InvalidScheme));
    assert_eq!(check_url_scheme("http:/x"), Err(UrlError::InvalidScheme));
    assert_eq!(check_url_scheme(""), Err(UrlError::InvalidScheme));
    assert!(has_prefix("abc", "ab"));
    assert!(!has_prefix("a", "ab"));
}

#[test]
fn deep_links() {
    assert_eq!(parse_deep_link("msn://chat/bob"), Some("bob".to_string()));
    assert_eq!(parse_deep_link("msn://chat/"), Some(String::new()));
    assert_eq!(parse_deep_link("msn://group/1"), None);
    assert_eq!(parse_deep_link("https://chat/bob"), None);
}

#[derive(Debug, Clone, PartialEq)]
struct Geometry {
    width: f64,
    height: f64,
    x: Option<f64>,
    y: Option<f64>,
    maximized: bool,
    minimized: bool,
}

#[test]
fn window_state_round_trip() {
    let mut store = KeyValueStore::new();
    let g = Geometry { width: 1200.0, height: 800.5, x: Some(10.0), y: None, maximized: true, minimized: false };
    assert!(load_window_state(&store, "main").is_none());
    save_window_state(&mut store, "main".to_string(), g.clone());
    assert_eq!(load_window_state(&store, "main"), Some(&g));
    let g2 = Geometry { width: 300.0, ..g.clone() };
    save_window_state(&mut store, "main".to_string(), g2.clone());
    assert_eq!(load_window_state(&store, "main"), Some(&g2));
    assert!(load_window_state(&store, "chat-x").is_none());
}

#[test]
fn store_set_get_delete() {
    let mut store: KeyValueStore<u32> = KeyValueStore::new();
    store.set("a".to_string(), 1);
    store.set("b".to_string(), 2);
    store.set("a".to_string(), 3);
    assert_eq!(store.get("a"), Some(&3));
    assert_eq!(store.get("b"), Some(&2));
    assert!(store.delete("a"));
    assert!(!store.delete("a"));
    assert_eq!(store.get("a"), None);
    assert_eq!(store.get("b"), Some(&2));
    assert!(str_equal("x", "x"));
    assert!(!str_equal("x", "y"));
}

#[test]
fn clock_time_lies_within_the_whole_day() {
    let mut store = KeyValueStore::new();
    let mut quiet = settings();
    quiet.quiet_hours_enabled = true;
    quiet.quiet_hours_start = Some("00:00".to_string());
    quiet.quiet_hours_end = Some("23:59".to_string());
    let d = data("n3", "message", None);
    assert!(show_notification_now(&mut store, &quiet, false, &d).is_none());
    assert!(!store.contains("n3"));
}
