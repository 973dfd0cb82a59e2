use sechat_rs::app_state::CurrentScreen;
use sechat_rs::chat_box::{ChatBox, RowKind};
use sechat_rs::chat_selector::{section, ChatSelector, SelectorError};
use sechat_rs::config::{Color, Config, Style};
use sechat_rs::data::{
    MessageParameter, NCReqDataMessage, NCReqDataMessageParameter, NCReqDataMessageSystemMessage,
    NCReqDataMessageType, NCReqDataParticipants, NCReqDataRoom, Reaction,
};
use sechat_rs::help_box::HelpBox;
use sechat_rs::message::NCMessage;
use sechat_rs::room::NCRoom;
use sechat_rs::talk::NCTalk;
use sechat_rs::title_bar::TitleBar;
use sechat_rs::user_styles::UserStyles;
use sechat_rs::users::Users;

fn comment(id: i32, author: &str, text: &str, timestamp: i64) -> NCMessage {
    NCMessage::from(NCReqDataMessage {
        id,
        message: text.to_string(),
        messageType: NCReqDataMessageType::Comment,
        actorDisplayName: author.to_string(),
        timestamp,
        ..Default::default()
    })
}

fn room(token: &str, name: &str, roomtype: i32, unread: i32) -> NCRoom {
    let data = NCReqDataRoom {
        token: token.to_string(),
        displayName: name.to_string(),
        roomtype,
        unreadMessages: unread,
        ..Default::default()
    };
    NCRoom::new(data, Vec::new(), Vec::new()).unwrap()
}

fn strings(list: &[&str]) -> Vec<String> {
    list.iter().map(|s| s.to_string()).collect()
}

#[test]
fn chat_rows_follow_dates_reactions_and_marker() {
    let config = Config::new(String::new());
    let chat = ChatBox::new(&config);
    let mut with_reaction = comment(2, "Stinko", "Bert", 200_000);
    with_reaction.0.reactions = vec![Reaction { icon: "👍".to_string(), count: 2 }];
    let hidden = NCMessage::from(NCReqDataMessage {
        id: 3,
        messageType: NCReqDataMessageType::System,
        systemMessage: NCReqDataMessageSystemMessage::Reaction,
        ..Default::default()
    });
    let messages = vec![comment(1, "Hundi", "Butz", 2000), with_reaction, hidden];
    let dates = strings(&["Thursday", "Saturday", ""]);
    let todays = strings(&["Saturday", "Saturday", ""]);
    let times = strings(&["01:33", "08:33", ""]);
    let rows = chat.build_rows(&messages, &dates, &todays, &times, "never", Some(2));
    let kinds: Vec<RowKind> = rows.iter().map(|r| r.kind).collect();
    assert_eq!(
        kinds,
        vec![
            RowKind::Date,
            RowKind::Message,
            RowKind::Date,
            RowKind::Message,
            RowKind::Reactions,
            RowKind::UnreadMarker,
        ]
    );
    assert_eq!(rows[0].message, strings(&["Thursday"]));
    assert_eq!(rows[1].time, "01:33");
    assert_eq!(rows[1].name, strings(&["Hundi"]));
    assert_eq!(rows[1].message, strings(&["Butz"]));
    assert_eq!(rows[1].height, 1);
    assert_eq!(rows[2].message, strings(&["Today! Saturday"]));
    assert_eq!(rows[4].message, strings(&["('👍' times 2)"]));
    assert_eq!(rows[5].message, strings(&["+++ LAST READ +++"]));
}

#[test]
fn same_day_gets_one_date_row() {
    let config = Config::new(String::new());
    let chat = ChatBox::new(&config);
    let messages = vec![comment(1, "A", "x", 10), comment(2, "B", "y", 20)];
    let dates = strings(&["Monday", "Monday"]);
    let todays = strings(&["Friday", "Friday"]);
    let times = strings(&["00:00", "00:00"]);
    let rows = chat.build_rows(&messages, &dates, &todays, &times, "Monday", None);
    let kinds: Vec<RowKind> = rows.iter().map(|r| r.kind).collect();
    assert_eq!(kinds, vec![RowKind::Message, RowKind::Message]);
}

#[test]
fn message_parameters_and_wrapping() {
    let config = Config::new(String::new());
    let chat = ChatBox::new(&config);
    let mut message = comment(1, "System", "{actor} joined\nsecond line here", 0);
    message.0.messageParameters = vec![MessageParameter {
        key: "actor".to_string(),
        value: NCReqDataMessageParameter {
            param_type: "user".to_string(),
            id: "bert".to_string(),
            name: "Bert".to_string(),
        },
    }];
    assert_eq!(chat.width, 10);
    assert_eq!(
        chat.format_message(&message),
        strings(&["{Bert}", "joined", "second", "line here"])
    );
}

#[test]
fn rows_grow_to_the_longer_column() {
    let config = Config::new(String::new());
    let chat = ChatBox::new(&config);
    let messages = vec![comment(1, "Somebody With A Very Long Name", "hi", 0)];
    let rows = chat.build_rows(
        &messages,
        &strings(&["d"]),
        &strings(&["e"]),
        &strings(&["00:00"]),
        "d",
        None,
    );
    assert_eq!(rows.len(), 1);
    assert_eq!(rows[0].name.len(), 2);
    assert_eq!(rows[0].name.join(" "), "Somebody With A Very Long Name");
    assert_eq!(rows[0].message, strings(&["hi"]));
    assert_eq!(rows[0].height, 2);
}

#[test]
fn update_messages_makes_date_and_message_rows() {
    let mut config = Config::new(String::new());
    config.data.ui.date_format = "%Y-%m-%d".to_string();
    let mut chat = ChatBox::new(&config);
    let mut talk_room = room("t", "General", 2, 0);
    talk_room.messages = vec![comment(1, "Hundi", "Butz", 2000), comment(2, "Stinko", "Bert", 200_000)];
    assert!(chat.update_messages(&talk_room));
    let kinds: Vec<RowKind> = chat.rows.iter().map(|r| r.kind).collect();
    assert_eq!(kinds, vec![RowKind::Date, RowKind::Message, RowKind::Date, RowKind::Message]);
    assert_eq!(chat.rows[1].time.len(), 5);
    chat.select_last_message();
    assert_eq!(chat.current_index, 3);
    chat.select_down();
    assert_eq!(chat.current_index, 3);
    chat.select_up();
    chat.select_up();
    assert_eq!(chat.current_index, 1);
}

#[test]
fn width_follows_the_view() {
    let config = Config::new(String::new());
    let mut chat = ChatBox::new(&config);
    let talk_room = room("t", "General", 2, 0);
    assert!(chat.set_width_and_update_if_change(40, &talk_room));
    assert_eq!(chat.width, 13);
    assert!(chat.set_width_and_update_if_change(30, &talk_room));
    assert_eq!(chat.width, 10);
}

#[test]
fn selection_on_empty_rows() {
    let config = Config::new(String::new());
    let mut chat = ChatBox::new(&config);
    chat.select_last_message();
    assert_eq!(chat.current_index, 0);
}

fn talk_with_rooms() -> NCTalk {
    let mut talk = NCTalk::new(0);
    talk.insert_room(room("g1", "Zeta", 2, 3));
    talk.insert_room(room("d1", "Butz", 1, 0));
    talk.insert_room(room("g2", "Alpha", 3, 1));
    talk
}

#[test]
fn title_bar_header_and_unread_list() {
    let config = Config::new(String::new());
    let talk = talk_with_rooms();
    let mut bar = TitleBar::new(CurrentScreen::Reading, "General".to_string(), &config);
    assert_eq!(bar.header(), "Current: ");
    bar.update(CurrentScreen::Reading, &talk, "d1");
    assert_eq!(bar.room, "Butz");
    assert_eq!(bar.mode, "Reading");
    assert_eq!(bar.header(), "Current: ");
    assert_eq!(bar.unread_rooms, "UNREAD: Alpha: 1, Zeta: 3");
    assert_eq!(bar.room_style(), bar.title_style);
    bar.update(CurrentScreen::Opening, &talk, "g1");
    assert_eq!(bar.header(), "Current(3): ");
    assert_eq!(bar.mode, "Opening");
}

#[test]
fn title_bar_status_of_direct_conversation() {
    let config = Config::new(String::new());
    let mut talk = NCTalk::new(0);
    let mut dm = room("d1", "Butz", 1, 0);
    dm.participants = vec![NCReqDataParticipants {
        displayName: "Butz".to_string(),
        status: Some("away".to_string()),
        statusIcon: Some("🌴".to_string()),
        statusMessage: Some("on holiday".to_string()),
        ..Default::default()
    }];
    talk.insert_room(dm);
    let mut bar = TitleBar::new(CurrentScreen::Reading, String::new(), &config);
    bar.update(CurrentScreen::Reading, &talk, "d1");
    assert_eq!(bar.status, Some("away".to_string()));
    assert_eq!(bar.status_suffix(), Some(" (🌴 on holiday)".to_string()));
    assert_eq!(bar.room_style(), bar.user_away_style);
    assert_eq!(bar.unread_rooms, "");
    assert_eq!(bar.unread_rooms_style(), None);
}

#[test]
fn users_are_sorted_and_styled() {
    let config = Config::new(String::new());
    let mut users = Users::new(&config);
    let mut talk_room = room("g", "Group", 2, 0);
    talk_room.participants = vec![
        NCReqDataParticipants {
            displayName: "Zed".to_string(),
            status: Some("online".to_string()),
            ..Default::default()
        },
        NCReqDataParticipants { displayName: "Anna".to_string(), ..Default::default() },
        NCReqDataParticipants {
            displayName: "Mia".to_string(),
            status: Some("weird".to_string()),
            ..Default::default()
        },
    ];
    users.update(&talk_room);
    let names: Vec<&str> = users.user_list.iter().map(|u| u.name.as_str()).collect();
    assert_eq!(names, vec!["Anna", "Mia", "Zed"]);
    assert_eq!(users.user_list[0].style, users.default_style);
    assert_eq!(users.user_list[1].style, users.default_style);
    assert_eq!(users.user_list[2].style, users.user_online_style);
    assert_eq!(users.selected, 0);
}

#[test]
fn selector_sections() {
    let config = Config::new(String::new());
    let talk = talk_with_rooms();
    let mut selector = ChatSelector::new(&talk, &config);
    let ids: Vec<&str> = selector.items.iter().map(|s| s.identifier.as_str()).collect();
    assert_eq!(ids, vec!["unread", "favorites", "direct", "group"]);
    let titles: Vec<&str> = selector.items.iter().map(|s| s.title.as_str()).collect();
    assert_eq!(titles, vec!["Unread Chats", "Favorite Chats", "DMs", "Group"]);
    assert_eq!(
        selector.items[0].entries,
        vec![("g2".to_string(), "Alpha".to_string()), ("g1".to_string(), "Zeta".to_string())]
    );
    assert!(selector.items[1].entries.is_empty());
    assert_eq!(selector.items[2].entries, vec![("d1".to_string(), "Butz".to_string())]);
    assert_eq!(selector.items[3].entries.len(), 2);
    assert!(selector.update(&talk).is_ok());
}

#[test]
fn duplicate_section_entries_are_refused() {
    let entries = vec![
        ("t".to_string(), "A".to_string()),
        ("t".to_string(), "B".to_string()),
    ];
    let refused = section("unread".to_string(), "Unread Chats".to_string(), entries);
    assert_eq!(refused.unwrap_err(), SelectorError::DuplicateIdentifier);
    let accepted = section(
        "group".to_string(),
        "Group".to_string(),
        vec![("a".to_string(), "A".to_string()), ("b".to_string(), "A".to_string())],
    );
    assert!(accepted.is_ok());
}

#[test]
fn help_table() {
    let config = Config::new(String::new());
    let help = HelpBox::new(&config);
    let rows = help.rows();
    assert_eq!(rows.len(), 8);
    assert_eq!(rows[0], ("q".to_string(), "quit".to_string(), "enter the quit screen.".to_string()));
    assert_eq!(
        help.header(),
        ("Key".to_string(), "Name".to_string(), "Behavior".to_string())
    );
}

#[test]
fn update() {
    let mut user_styles = UserStyles::new();
    let user_id_0 = "Terror";
    user_styles.update(user_id_0);
    let user_id_1 = "Licky";
    user_styles.update(user_id_1);

    assert_eq!(
        user_styles.get(user_id_0).unwrap(),
        *user_styles.styles.first().unwrap(),
    );
    assert_eq!(
        user_styles.get(user_id_1).unwrap(),
        *user_styles.styles.get(1).unwrap(),
    );
}

#[test]
fn user_styles_repeat_and_grow() {
    let mut styles = UserStyles::new();
    assert_eq!(styles.styles.len(), 50);
    styles.update("a");
    let before = styles.user_style_map.len();
    styles.update("a");
    assert_eq!(styles.user_style_map.len(), before);
    for i in 0..60 {
        styles.update(&format!("user{i}"));
    }
    assert_eq!(styles.styles_index, 61);
    assert_eq!(styles.styles.len(), 100);
    let style: Style = styles.get("user10").unwrap();
    assert!(matches!(style.fg, Some(Color::Rgb(_, _, _))));
    assert_eq!(styles.get("nobody"), None);
}

#[test]
fn date_rows_follow_the_rendered_pattern() {
    let mut config = Config::new(String::new());
    config.data.ui.date_format = "%%".to_string();
    let mut chat = ChatBox::new(&config);
    let mut talk_room = room("t", "General", 2, 0);
    talk_room.messages = vec![comment(1, "A", "x", 2000), comment(2, "B", "y", 200_000)];
    assert!(chat.update_messages(&talk_room));
    let kinds: Vec<RowKind> = chat.rows.iter().map(|r| r.kind).collect();
    assert_eq!(kinds, vec![RowKind::Message, RowKind::Message]);

    config.data.ui.date_format = "%Y".to_string();
    let mut chat = ChatBox::new(&config);
    assert!(chat.update_messages(&talk_room));
    let kinds: Vec<RowKind> = chat.rows.iter().map(|r| r.kind).collect();
    assert_eq!(kinds, vec![RowKind::Date, RowKind::Message, RowKind::Message]);
    assert_eq!(chat.rows[0].message, strings(&["1970"]));
}

#[test]
fn unread_marker_follows_last_read_message() {
    let config = Config::new(String::new());
    let mut chat = ChatBox::new(&config);
    let mut data = NCReqDataRoom {
        token: "t".to_string(),
        displayName: "General".to_string(),
        roomtype: 2,
        unreadMessages: 1,
        lastReadMessage: 1,
        ..Default::default()
    };
    let mut talk_room = NCRoom::new(data.clone(), Vec::new(), Vec::new()).unwrap();
    talk_room.messages = vec![comment(1, "A", "x", 2000), comment(2, "B", "y", 2100)];
    assert!(chat.update_messages(&talk_room));
    let kinds: Vec<RowKind> = chat.rows.iter().map(|r| r.kind).collect();
    assert_eq!(kinds, vec![RowKind::Message, RowKind::UnreadMarker, RowKind::Message]);

    data.unreadMessages = 0;
    talk_room.room_data = data;
    assert!(chat.update_messages(&talk_room));
    let kinds: Vec<RowKind> = chat.rows.iter().map(|r| r.kind).collect();
    assert_eq!(kinds, vec![RowKind::Message, RowKind::Message]);
}

#[test]
fn moving_up_then_down_returns() {
    let config = Config::new(String::new());
    let mut chat = ChatBox::new(&config);
    let mut talk_room = room("t", "General", 2, 0);
    talk_room.messages = vec![comment(1, "A", "x", 0), comment(2, "B", "y", 0), comment(3, "C", "z", 0)];
    assert!(chat.update_messages(&talk_room));
    assert_eq!(chat.rows.len(), 3);
    chat.current_index = 1;
    chat.select_up();
    chat.select_down();
    assert_eq!(chat.current_index, 1);
    chat.select_down();
    chat.select_up();
    assert_eq!(chat.current_index, 1);
    chat.current_index = 0;
    chat.select_up();
    assert_eq!(chat.current_index, 0);
}

#[test]
fn unreadable_date_pattern_gives_no_rows() {
    let mut config = Config::new(String::new());
    config.data.ui.date_format = "%Q".to_string();
    let mut chat = ChatBox::new(&config);
    let mut talk_room = room("t", "General", 2, 0);
    talk_room.messages = vec![comment(1, "A", "x", 2000)];
    assert!(!chat.update_messages(&talk_room));
    assert!(chat.rows.is_empty());
    assert!(!chat.set_width_and_update_if_change(60, &talk_room));
    assert!(chat.rows.is_empty());
    assert_eq!(
        talk_room.messages[0].get_date_str("%Q"),
        None
    );
    assert_eq!(talk_room.messages[0].get_date_str("day"), Some("day".to_string()));
}

#[test]
fn direct_and_group_listings_share_no_token() {
    let mut talk = NCTalk::new(0);
    for (token, name, kind) in [
        ("o", "One", 1),
        ("g", "Group", 2),
        ("p", "Public", 3),
        ("c", "Changes", 4),
        ("x", "Old", 5),
        ("n", "Notes", 6),
    ] {
        talk.insert_room(room(token, name, kind, 0));
    }
    let direct = talk.get_dm_keys_display_name_mapping();
    let groups = talk.get_group_keys_display_name_mapping();
    assert_eq!(
        direct,
        vec![
            ("c".to_string(), "Changes".to_string()),
            ("n".to_string(), "Notes".to_string()),
            ("o".to_string(), "One".to_string()),
        ]
    );
    assert_eq!(
        groups,
        vec![("g".to_string(), "Group".to_string()), ("p".to_string(), "Public".to_string())]
    );
    for (token, _) in &direct {
        assert!(groups.iter().all(|(other, _)| other != token));
    }
    assert!(direct.iter().chain(groups.iter()).all(|(token, _)| token != "x"));
}

#[test]
fn literal_date_pattern_shows_no_date_rows_and_rebuilds_alike() {
    let mut config = Config::new(String::new());
    config.data.ui.date_format = "day".to_string();
    let mut chat = ChatBox::new(&config);
    let mut talk_room = room("t", "General", 2, 0);
    talk_room.messages = vec![comment(1, "A", "x", 2000), comment(2, "B", "y", 200_000)];
    assert!(chat.update_messages(&talk_room));
    let kinds: Vec<RowKind> = chat.rows.iter().map(|r| r.kind).collect();
    assert_eq!(kinds, vec![RowKind::Message, RowKind::Message]);
    let first: Vec<(RowKind, Vec<String>, Vec<String>, usize)> =
        chat.rows.iter().map(|r| (r.kind, r.name.clone(), r.message.clone(), r.height)).collect();
    assert!(chat.update_messages(&talk_room));
    let second: Vec<(RowKind, Vec<String>, Vec<String>, usize)> =
        chat.rows.iter().map(|r| (r.kind, r.name.clone(), r.message.clone(), r.height)).collect();
    assert_eq!(first, second);
}
