use etcetera::app_strategy::{choose_app_strategy, AppStrategy, AppStrategyArgs};
use sechat_rs::app_state::{
    AppState, CurrentScreen, KeyCode, KeyEvent, Popup, PopupSize, UiAction, UiEvent,
};
use sechat_rs::log_box::{LogBox, LogWidgetEvent};
use sechat_rs::config::{Color, ColorPalette, Config, ConfigOptions, Style};
use sechat_rs::data::{
    NCReqDataMessage, NCReqDataMessageSystemMessage, NCReqDataMessageType, NCReqDataRoom,
    Reaction,
};
use sechat_rs::message::NCMessage;
use sechat_rs::notify::{NCNotify, NotifyTimeout, NotifyWrapper};
use sechat_rs::room::{MessageIdCheck, NCRoom, NCRoomTypes};
use sechat_rs::sorting::sort_by_display_name;
use sechat_rs::talk::{plan_initial_load, NCTalk, RoomGroup, RoomUpdateAction};

fn key(code: KeyCode) -> UiEvent {
    UiEvent::Key(KeyEvent { code, ctrl: false, shift: false, press: true })
}

fn room_data(token: &str, name: &str, roomtype: i32) -> NCReqDataRoom {
    NCReqDataRoom {
        token: token.to_string(),
        displayName: name.to_string(),
        roomtype,
        ..Default::default()
    }
}

#[test]
fn screens_and_popups() {
    let mut state = AppState::new(true);
    assert_eq!(state.current_screen, CurrentScreen::Reading);
    assert!(state.process_event(key(KeyCode::Char('e'))).is_empty());
    assert_eq!(state.current_screen, CurrentScreen::Editing);
    assert_eq!(state.process_event(key(KeyCode::Char('x'))), vec![UiAction::InputKey]);
    assert_eq!(
        state.process_event(key(KeyCode::Enter)),
        vec![UiAction::MarkCurrentAsRead, UiAction::SendMessage]
    );
    assert_eq!(state.current_screen, CurrentScreen::Reading);
    state.process_event(key(KeyCode::Char('q')));
    assert_eq!(state.popup, Some(Popup::Exit));
    assert_eq!(state.layout(false).popup_size, Some(PopupSize { width: 40, height: 3 }));
    assert!(state.process_event(key(KeyCode::Char('n'))).is_empty());
    assert_eq!(state.popup, None);
    state.process_event(key(KeyCode::Char('?')));
    assert_eq!(state.popup, Some(Popup::Help));
    state.process_event(key(KeyCode::Char('o')));
    assert_eq!(state.popup, None);
    assert_eq!(state.current_screen, CurrentScreen::Opening);
    assert!(state.layout(true).show_selector);
    assert_eq!(state.process_event(key(KeyCode::Enter)), vec![UiAction::SelectRoom]);
    assert_eq!(state.process_event(UiEvent::Click(3, 4)), vec![UiAction::ClickSelector(3, 4)]);
    state.process_event(key(KeyCode::Esc));
    assert_eq!(state.current_screen, CurrentScreen::Reading);
    assert_eq!(state.process_event(UiEvent::Click(1, 2)), vec![UiAction::ClickAt(1, 2)]);
    state.process_event(key(KeyCode::Char('q')));
    assert_eq!(
        state.process_event(key(KeyCode::Char('y'))),
        vec![UiAction::WriteLogFiles, UiAction::Exit]
    );
}

#[test]
fn sidebar_and_scrolling() {
    let mut state = AppState::new(false);
    assert!(!state.layout(true).show_users);
    state.process_event(key(KeyCode::Char('u')));
    assert!(state.layout(true).show_users);
    assert!(!state.layout(false).show_users);
    state.process_event(key(KeyCode::Char('u')));
    assert!(!state.user_sidebar_visible);
    assert_eq!(state.process_event(key(KeyCode::Down)), vec![UiAction::ScrollDown]);
    let released = UiEvent::Key(KeyEvent {
        code: KeyCode::Char('j'),
        ctrl: false,
        shift: false,
        press: false,
    });
    assert!(state.process_event(released).is_empty());
    let ctrl_c = UiEvent::Key(KeyEvent { code: KeyCode::Char('c'), ctrl: true, shift: false, press: true });
    state.process_event(ctrl_c);
    assert_eq!(state.popup, Some(Popup::Exit));
    assert_eq!(CurrentScreen::Editing.to_string(), "Editing");
    assert_eq!(Popup::Help.to_string(), "Help");
}

#[test]
fn message_kinds_and_names() {
    let comment = NCMessage::from(NCReqDataMessage {
        messageType: NCReqDataMessageType::Comment,
        actorDisplayName: "Bert".to_string(),
        ..Default::default()
    });
    assert_eq!(comment.get_name(), "Bert");
    assert!(comment.is_comment());
    let system = NCMessage::from(NCReqDataMessage {
        messageType: NCReqDataMessageType::System,
        systemMessage: NCReqDataMessageSystemMessage::Reaction,
        actorDisplayName: "Bert".to_string(),
        ..Default::default()
    });
    assert_eq!(system.get_name(), "System");
    assert!(system.is_reaction());
    assert!(!system.is_edit_note());
    let reacted = NCMessage::from(NCReqDataMessage {
        reactions: vec![
            Reaction { icon: "🎉".to_string(), count: 1 },
            Reaction { icon: "👍".to_string(), count: 12 },
        ],
        ..Default::default()
    });
    assert!(reacted.has_reactions());
    assert_eq!(reacted.get_reactions_str(), "('🎉' times 1), ('👍' times 12)");
    assert!(reacted.get_message_params().is_none());
    assert!(reacted.data().has_unique_keys());
    let doubled = NCReqDataMessage {
        reactions: vec![
            Reaction { icon: "👍".to_string(), count: 1 },
            Reaction { icon: "👍".to_string(), count: 2 },
        ],
        ..Default::default()
    };
    assert!(!doubled.has_unique_keys());
}

#[test]
fn api_names_round_trip() {
    assert_eq!(NCReqDataMessageType::from_api_str("comment"), Some(NCReqDataMessageType::Comment));
    assert_eq!(NCReqDataMessageType::from_api_str("bogus"), None);
    assert_eq!(NCReqDataMessageType::VoiceMessage.to_api_str(), "voice-message");
    let v = NCReqDataMessageSystemMessage::from_api_str("reaction");
    assert_eq!(v, NCReqDataMessageSystemMessage::Reaction);
    assert_eq!(v.to_api_str(), "reaction");
    assert_eq!(
        NCReqDataMessageSystemMessage::from_api_str("unknown thing"),
        NCReqDataMessageSystemMessage::Nomessage
    );
}

#[test]
fn room_kinds_and_updates() {
    assert_eq!(NCRoomTypes::from_i32(6), Some(NCRoomTypes::NoteToSelf));
    assert_eq!(NCRoomTypes::from_i32(9), None);
    let mut data = room_data("t", "General", 2);
    data.unreadMessages = 2;
    let mut room = NCRoom::new(data, Vec::new(), Vec::new()).unwrap();
    assert!(room.is_group());
    assert!(!room.is_dm());
    assert_eq!(room.mark_as_read(), None);
    assert_eq!(room.check_message_id(5), MessageIdCheck::NothingHeld);
    let fetched = vec![
        NCReqDataMessage { id: 4, ..Default::default() },
        NCReqDataMessage { id: 5, ..Default::default() },
    ];
    assert_eq!(room.apply_update(fetched, Vec::new()), Some(("General".to_string(), 2)));
    assert_eq!(room.get_messages().len(), 2);
    assert_eq!(room.mark_as_read(), Some(5));
    assert_eq!(room.check_message_id(7), MessageIdCheck::Newer);
    assert_eq!(room.check_message_id(5), MessageIdCheck::Same);
    assert_eq!(room.check_message_id(1), MessageIdCheck::Older);
    assert_eq!(room.apply_update(Vec::new(), Vec::new()), None);
    assert_eq!(room.get_unread(), 2);
}

#[test]
fn talk_insert_and_groups() {
    let mut talk = NCTalk::new(7);
    talk.insert_room(NCRoom::new(room_data("b", "Bravo", 2), Vec::new(), Vec::new()).unwrap());
    talk.insert_room(NCRoom::new(room_data("a", "Alpha", 1), Vec::new(), Vec::new()).unwrap());
    talk.insert_room(NCRoom::new(room_data("c", "Charlie", 3), Vec::new(), Vec::new()).unwrap());
    talk.insert_room(NCRoom::new(room_data("b", "Beta", 2), Vec::new(), Vec::new()).unwrap());
    assert_eq!(talk.rooms.len(), 3);
    assert_eq!(talk.get_room("b").get_display_name(), "Beta");
    assert_eq!(talk.get_room_by_displayname("Charlie"), "c");
    assert_eq!(talk.find_room("zzz"), None);
    assert_eq!(
        talk.get_group_keys_display_name_mapping(),
        vec![("b".to_string(), "Beta".to_string()), ("c".to_string(), "Charlie".to_string())]
    );
    assert_eq!(talk.get_dm_keys_display_name_mapping(), vec![("a".to_string(), "Alpha".to_string())]);
    assert!(talk.get_unread_rooms().is_empty());
    assert_eq!(talk.group_entries(RoomGroup::Direct).len(), 1);
    assert_eq!(talk.get_room_keys(), vec!["b", "a", "c"]);
}

#[test]
fn talk_update_actions() {
    let mut talk = NCTalk::new(0);
    let mut room = NCRoom::new(room_data("a", "Alpha", 2), Vec::new(), Vec::new()).unwrap();
    room.messages = vec![NCMessage::from(NCReqDataMessage { id: 3, ..Default::default() })];
    talk.insert_room(room);
    let mut report = room_data("a", "Alpha", 2);
    report.lastMessage.id = 9;
    assert_eq!(talk.room_update_action(&report, true), RoomUpdateAction::Update(0));
    assert_eq!(talk.room_update_action(&report, false), RoomUpdateAction::UpdateIfNewer(0, 9));
    assert_eq!(talk.room_update_action(&room_data("new", "New", 2), false), RoomUpdateAction::Create);
    let (token, last) = talk.begin_room_update(0, Some(report));
    assert_eq!(token, "a");
    assert_eq!(last, 3);
    let note = talk.finish_room_update(0, vec![NCReqDataMessage { id: 9, ..Default::default() }], Vec::new());
    assert_eq!(note, None);
    assert_eq!(talk.get_room("a").get_messages().len(), 2);
}

#[test]
fn initial_load_plan() {
    let response = vec![room_data("a", "A", 2), room_data("b", "B", 2), room_data("a", "A2", 2)];
    let stored = vec!["a".to_string(), "gone".to_string()];
    let plan = plan_initial_load(&response, &stored);
    assert_eq!(plan.stored.len(), 2);
    assert_eq!(plan.stored[0].upstream_index, Some(2));
    assert_eq!(plan.stored[1].upstream_index, None);
    assert_eq!(plan.fetch, vec![1]);
}

#[test]
fn sorting_by_name_is_stable() {
    let mut entries = vec![
        ("3".to_string(), "b".to_string()),
        ("1".to_string(), "a".to_string()),
        ("2".to_string(), "b".to_string()),
    ];
    sort_by_display_name(&mut entries);
    assert_eq!(
        entries,
        vec![
            ("1".to_string(), "a".to_string()),
            ("3".to_string(), "b".to_string()),
            ("2".to_string(), "b".to_string()),
        ]
    );
}

#[test]
fn notifications() {
    let mut config = Config::new(String::new());
    config.data.general.chat_server_name = "Cloud".to_string();
    config.data.notifications.timeout_ms = 500;
    let wrapper = NotifyWrapper::new(&config);
    assert!(!wrapper.is_persistent());
    let note = wrapper.maybe_notify_new_message(Some(("General".to_string(), 3))).unwrap();
    assert_eq!(note.summary, "Unread: General");
    assert_eq!(note.body, "You have 3 new Messages in General");
    assert_eq!(note.timeout, NotifyTimeout::Milliseconds(500));
    assert!(wrapper.maybe_notify_new_message(None).is_none());
    let notes = wrapper.maybe_notify_new_rooms(vec!["A".to_string(), "B".to_string()]);
    assert_eq!(notes.len(), 2);
    assert_eq!(notes[1].summary, "New Room: B");
    assert_eq!(notes[1].body, "You have been added to a new Room B");
    config.data.notifications.persistent = true;
    assert!(NotifyWrapper::new(&config).is_persistent());
    let notify = NCNotify::new(&config);
    let content = notify.new_room("X");
    assert_eq!(content.icon, "dialog-information");
    assert_eq!(content.app_name, "Cloud");
}

#[test]
fn themes_and_styles() {
    let mut config = Config::new("/data".to_string());
    let palette = ColorPalette {
        background: Color::Black,
        foreground: Color::White,
        ..ColorPalette::default()
    };
    config.set_theme(palette);
    assert_eq!(
        config.theme.default_style(),
        Style::new().fg(Color::White).bg(Color::Black)
    );
    assert!(config.theme.table_header_style().bold);
    assert_eq!(config.get_data_dir(), "/data");
    config.data.general.chat_server_name = "MyNCInstance".to_string();
    assert_eq!(config.get_server_data_dir(), "/data/MyNCInstance");
    assert_eq!(config.get_http_dump_dir(), None);
    config.data.general.dump_failed_requests_to_file = true;
    assert_eq!(config.get_http_dump_dir(), Some("/data".to_string()));
}

#[test]
fn update_data() {
    let mut conf = Config::default();
    conf.set_config_data(ConfigOptions::default());
    conf.set_data_dir(
        choose_app_strategy(AppStrategyArgs {
            top_level_domain: "org".to_string(),
            author: "emlix".to_string(),
            app_name: "sechat-rs".to_string(),
        })
        .unwrap()
        .data_dir()
        .to_string_lossy()
        .into_owned(),
    );
    assert!(std::path::Path::new(&conf.get_data_dir()).ends_with(".local/share/sechat-rs"));
    assert!(std::path::Path::new(&conf.get_server_data_dir()).ends_with(".local/share/sechat-rs"));
    assert!(conf.get_http_dump_dir().is_none());
    assert!(!conf.get_enable_mouse());
    assert!(!conf.get_enable_paste());
}

#[test]
fn log_view_keys() {
    let config = Config::new(String::new());
    let log_box = LogBox::new(&config);
    assert_eq!(log_box.handle_ui_event(KeyCode::Char('s')), Some(LogWidgetEvent::EscapeKey));
    assert_eq!(log_box.handle_ui_event(KeyCode::PageUp), Some(LogWidgetEvent::PrevPageKey));
    assert_eq!(log_box.handle_ui_event(KeyCode::Enter), None);
    assert!(log_box.help_lines(40).is_empty());
    assert_eq!(log_box.help_lines(41).len(), 3);
}

#[test]
fn default_config_uses_the_platform_data_dir() {
    let conf = Config::default();
    assert!(std::path::Path::new(&conf.get_data_dir()).ends_with(".local/share/sechat-rs"));
    assert!(!conf.get_enable_mouse());
    assert_eq!(conf.theme.default_style(), Style::new().fg(Color::Reset).bg(Color::Reset));
}

#[test]
fn literal_date_patterns_render_as_themselves() {
    let message = NCMessage::from(NCReqDataMessage { timestamp: 200_000, ..Default::default() });
    assert_eq!(message.get_date_str("date line"), Some("date line".to_string()));
    assert_eq!(message.get_date_str("%Y"), Some("1970".to_string()));
}

#[test]
fn fresh_configuration_is_empty_with_terminal_colours() {
    let config = Config::new("/d".to_string());
    let general = &config.data.general;
    assert!(general.chat_server_name.is_empty() && general.url.is_empty());
    assert!(general.user.is_empty() && general.app_pw.is_empty());
    assert!(!general.log_to_file && !general.dump_failed_requests_to_file);
    let notifications = &config.data.notifications;
    assert_eq!(notifications.timeout_ms, 0);
    assert!(!notifications.persistent && !notifications.silent);
    let ui = &config.data.ui;
    assert!(ui.default_room.is_empty() && ui.categories.is_empty());
    assert!(ui.categories_separator.is_empty() && ui.theme.is_empty() && ui.date_format.is_empty());
    assert!(!ui.user_sidebar_default && !ui.use_mouse && !ui.use_paste);
    assert_eq!(config.theme.data, ColorPalette::default());
    assert_eq!(config.theme.data.popup_border, Color::Reset);
    assert_eq!(config.theme.data.user_online, Color::Reset);
}
