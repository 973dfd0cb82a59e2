use sechat_rs::request::{
    basic_auth_value, chat_call, chat_status, dump_file_name, expected_status,
    fetch_chat_initial_result, fetch_chat_update_result, mark_chat_read_call, rooms_call,
    send_message_call, ApiRequest, ChatStatus, HttpMethod, NCRequest,
};
use sechat_rs::config::General;
use sechat_rs::data::NCReqDataMessage;
use sechat_rs::text::{
    compare_text, i32_to_decimal, join_strings, replace_all, split_at_newlines, text_eq,
    usize_to_decimal,
};

#[test]
fn decimal_rendering() {
    assert_eq!(usize_to_decimal(0), "0");
    assert_eq!(usize_to_decimal(1234567), "1234567");
    assert_eq!(i32_to_decimal(-42), "-42");
    assert_eq!(i32_to_decimal(i32::MIN), "-2147483648");
    assert_eq!(i32_to_decimal(i32::MAX), "2147483647");
}

#[test]
fn text_comparison() {
    assert!(text_eq("Bert", "Bert"));
    assert!(!text_eq("Bert", "Berta"));
    assert_eq!(compare_text("Anna", "Bert"), -1);
    assert_eq!(compare_text("Bert", "Bert"), 0);
    assert_eq!(compare_text("Berta", "Bert"), 1);
    assert_eq!(compare_text("", "a"), -1);
}

#[test]
fn joining() {
    let list = vec!["a".to_string(), "b".to_string(), "c".to_string()];
    assert_eq!(join_strings(&list, ", "), "a, b, c");
    assert_eq!(join_strings(&Vec::new(), ", "), "");
}

#[test]
fn replacing_like_std() {
    for (text, pattern, with) in [
        ("hello {actor}!", "actor", "Bert"),
        ("aaa", "aa", "b"),
        ("abc", "", "x"),
        ("", "", "x"),
        ("no match here", "zz", "y"),
        ("ümlaut ü", "ü", "ue"),
    ] {
        assert_eq!(replace_all(text, pattern, with), text.replace(pattern, with));
    }
    assert_eq!(replace_all("aaa", "aa", "b"), "ba");
    assert_eq!(replace_all("abc", "", "x"), "xaxbxcx");
}

#[test]
fn splitting_like_std() {
    for text in ["", "a", "a\nb", "a\n", "\n\n", "line one\nline two\nthree"] {
        let expected: Vec<String> = text.split('\n').map(|s| s.to_string()).collect();
        assert_eq!(split_at_newlines(text), expected);
        assert_eq!(split_at_newlines(text).join("\n"), text);
    }
}

#[test]
fn request_calls() {
    let call = send_message_call("https://cloud.example", "abc", "Hi".to_string());
    assert_eq!(call.method, HttpMethod::Post);
    assert_eq!(call.url, "https://cloud.example/ocs/v2.php/apps/spreed/api/v1/chat/abc");
    assert_eq!(call.params, vec![("message".to_string(), "Hi".to_string())]);

    let call = rooms_call("https://c", Some(1700000000));
    assert_eq!(call.method, HttpMethod::Get);
    assert_eq!(call.url, "https://c/ocs/v2.php/apps/spreed/api/v4/room");
    assert_eq!(call.params, vec![("modifiedSince".to_string(), "1700000000".to_string())]);
    assert!(rooms_call("https://c", None).params.is_empty());

    let call = chat_call("https://c", "tok", 200, None);
    assert_eq!(call.url, "https://c/ocs/v2.php/apps/spreed/api/v1/chat/tok");
    assert_eq!(
        call.params,
        vec![
            ("limit".to_string(), "200".to_string()),
            ("setReadMarker".to_string(), "0".to_string()),
            ("lookIntoFuture".to_string(), "0".to_string()),
        ]
    );
    let call = chat_call("https://c", "tok", 200, Some(17));
    assert_eq!(call.params.len(), 6);
    assert_eq!(call.params[3], ("lastKnownMessageId".to_string(), "17".to_string()));

    let call = mark_chat_read_call("https://c", "tok");
    assert_eq!(call.method, HttpMethod::Post);
    assert_eq!(call.url, "https://c/ocs/v2.php/apps/spreed/api/v1/chat/tok/read");
}

#[test]
fn chat_statuses() {
    assert_eq!(chat_status(200), ChatStatus::Messages);
    assert_eq!(chat_status(304), ChatStatus::NotModified);
    assert_eq!(chat_status(412), ChatStatus::RoomGone);
    assert_eq!(chat_status(500), ChatStatus::Failed);
    assert_eq!(expected_status(true), 201);
    assert_eq!(expected_status(false), 200);
}

#[test]
fn chat_fetch_results() {
    let msgs = vec![
        NCReqDataMessage { id: 3, ..Default::default() },
        NCReqDataMessage { id: 2, ..Default::default() },
        NCReqDataMessage { id: 1, ..Default::default() },
    ];
    let ids: Vec<i32> = fetch_chat_initial_result(Some(msgs)).unwrap().iter().map(|m| m.id).collect();
    assert_eq!(ids, vec![1, 2, 3]);
    assert_eq!(
        fetch_chat_initial_result(None).unwrap_err(),
        "Room disappeared, precondition not met error."
    );
    assert!(fetch_chat_update_result(None).is_err());
    let msgs = vec![NCReqDataMessage { id: 5, ..Default::default() }];
    assert_eq!(fetch_chat_update_result(Some(msgs)).unwrap()[0].id, 5);
}

#[test]
fn dump_names_and_authorization() {
    assert_eq!(dump_file_name("https://a/b/c"), "https:__a_b_c");
    assert_eq!(basic_auth_value("user", "pw"), "Basic dXNlcjpwdw==");
    let general = General {
        chat_server_name: "MyNCInstance".to_string(),
        url: "https://cloud.example".to_string(),
        user: "user".to_string(),
        app_pw: "pw".to_string(),
        log_to_file: false,
        dump_failed_requests_to_file: false,
    };
    let request = NCRequest::new(&general, Some("/tmp/dumps".to_string()));
    assert_eq!(request.base_url, "https://cloud.example");
    assert_eq!(request.authorization, "Basic dXNlcjpwdw==");
    assert_eq!(request.json_dump_path, Some("/tmp/dumps".to_string()));
}

#[test]
fn request_descriptions() {
    assert_eq!(ApiRequest::Empty.describe(), "Invalid");
    assert_eq!(ApiRequest::FetchRoomsUpdate(-5).describe(), "FetchRoomsUpdate -5");
    assert_eq!(
        ApiRequest::FetchChatUpdate("t".to_string(), 200, 12).describe(),
        "FetchChatUpdate t 200 12"
    );
    assert_eq!(ApiRequest::MarkChatRead("t".to_string(), 3).describe(), "MarkChatRead t");
}

#[test]
fn failed_answers_are_dumped_pretty() {
    let general = General {
        chat_server_name: String::new(),
        url: "https://c".to_string(),
        user: "u".to_string(),
        app_pw: "p".to_string(),
        log_to_file: false,
        dump_failed_requests_to_file: true,
    };
    let dumping = NCRequest::new(&general, Some("/tmp".to_string()));
    let (name, text) = dumping.dump_json_to_log("https://c/x", "{\"a\":[1,2]}").unwrap().unwrap();
    assert_eq!(name, "/tmp/https:__c_x");
    assert_eq!(text, "{\n  \"a\": [\n    1,\n    2\n  ]\n}");
    assert_eq!(
        dumping.dump_json_to_log("https://c/x", "not json"),
        Err(sechat_rs::request::DumpError::NotJson)
    );
    let nested = NCRequest::new(&general, Some("/var/dumps/".to_string()));
    let (path, _) = nested.dump_json_to_log("a/b", "[]").unwrap().unwrap();
    assert_eq!(path, "/var/dumps/a_b");
    let quiet = NCRequest::new(&general, None);
    assert_eq!(quiet.dump_json_to_log("https://c/x", "not json"), Ok(None));
}

#[test]
fn worker_rotation() {
    assert!(sechat_rs::request::should_rotate_workers(4));
    assert!(!sechat_rs::request::should_rotate_workers(5));
}

#[test]
fn every_request_carries_the_base_headers() {
    let general = General {
        chat_server_name: String::new(),
        url: "https://c".to_string(),
        user: "user".to_string(),
        app_pw: "pw".to_string(),
        log_to_file: false,
        dump_failed_requests_to_file: false,
    };
    let request = NCRequest::new(&general, None);
    assert_eq!(
        request.base_headers(),
        vec![
            ("OCS-APIRequest".to_string(), "true".to_string()),
            ("Accept".to_string(), "application/json".to_string()),
            ("Authorization".to_string(), "Basic dXNlcjpwdw==".to_string()),
        ]
    );
}

#[test]
fn time_stamp_headers_parse_as_i64() {
    use_parse(&[
        ("1700000000", Some(1700000000)),
        ("+5", Some(5)),
        ("-0", Some(0)),
        ("-9223372036854775808", Some(i64::MIN)),
        ("9223372036854775807", Some(i64::MAX)),
        ("9223372036854775808", None),
        ("-9223372036854775809", None),
        ("", None),
        ("-", None),
        ("+", None),
        ("1a", None),
        (" 1", None),
        ("--1", None),
    ]);
}

fn use_parse(cases: &[(&str, Option<i64>)]) {
    for (text, expected) in cases {
        assert_eq!(sechat_rs::text::parse_i64(text), *expected, "{text}");
        assert_eq!(text.parse::<i64>().ok(), *expected, "{text}");
    }
}
