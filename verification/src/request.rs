//! The requests this client sends to the Nextcloud Talk API: their
//! addresses and parameters, the authorization header, and how the server's
//! answers are read.
use base64::Engine;
use vstd::prelude::*;

use crate::config::{join_path, path_join, General};
use crate::data::{NCReqDataMessage, Token};
use crate::text::{i32_to_decimal, push_signed_decimal, signed_decimal};

verus! {

/// The HTTP method of a request.
#[derive(Debug, Clone, Copy, PartialEq, Eq, Structural)]
pub enum HttpMethod {
    Get,
    Post,
}

/// A request to the API: method, address and query parameters in order.
#[derive(Debug)]
pub struct ApiCall {
    pub method: HttpMethod,
    pub url: String,
    pub params: Vec<(String, String)>,
}

/// The character sequences of a parameter list.
pub open spec fn param_texts(params: Seq<(String, String)>) -> Seq<(Seq<char>, Seq<char>)> {
    params.map_values(|p: (String, String)| (p.0@, p.1@))
}

/// The path of the chat endpoint.
pub open spec fn chat_path() -> Seq<char> {
    "/ocs/v2.php/apps/spreed/api/v1/chat/"@
}

/// The path of the conversation endpoint.
pub open spec fn room_path() -> Seq<char> {
    "/ocs/v2.php/apps/spreed/api/v4/room"@
}

/// The path of the user autocompletion endpoint.
pub open spec fn autocomplete_path() -> Seq<char> {
    "/ocs/v2.php/core/autocomplete/get"@
}

/// What `BASE64_STANDARD.encode(text.as_bytes())` of the `base64` crate
/// returns for `text`.
pub uninterp spec fn base64_standard(text: Seq<char>) -> Seq<char>;

/// Calls `base64::Engine::encode` of `base64::prelude::BASE64_STANDARD` on
/// the UTF-8 bytes of `text`. The result is named `base64_standard`.
/// The crate panics only when the encoded length overflows `usize`, which
/// no string that fits in memory reaches.
#[verifier::external_body]
fn encode_base64(text: &str) -> (r: String)
    ensures
        r@ == base64_standard(text@),
{
    base64::prelude::BASE64_STANDARD.encode(text.as_bytes())
}

fn push_param(params: &mut Vec<(String, String)>, key: &str, value: String)
    ensures
        param_texts(final(params)@) == param_texts(old(params)@).push((key@, value@)),
{
    let k = String::from_str(key);
    params.push((k, value));
    assert(param_texts(params@) =~= param_texts(old(params)@).push((key@, value@)));
}

fn literal(s: &str) -> (r: String)
    ensures
        r@ == s@,
{
    String::from_str(s)
}

/// The request that posts `message` to the conversation `token`.
pub fn send_message_call(base_url: &str, token: &str, message: String) -> (r: ApiCall)
    ensures
        r.method == HttpMethod::Post,
        r.url@ == base_url@ + chat_path() + token@,
        param_texts(r.params@) == seq![("message"@, message@)],
{
    proof {
        reveal_strlit("/ocs/v2.php/apps/spreed/api/v1/chat/");
    }
    let mut url = String::from_str(base_url);
    url.append("/ocs/v2.php/apps/spreed/api/v1/chat/");
    url.append(token);
    let mut params: Vec<(String, String)> = Vec::new();
    push_param(&mut params, "message", message);
    assert(param_texts(params@) =~= seq![("message"@, message@)]);
    ApiCall { method: HttpMethod::Post, url, params }
}

/// The request that searches up to 200 users matching `name`.
pub fn autocomplete_users_call(base_url: &str, name: &str) -> (r: ApiCall)
    ensures
        r.method == HttpMethod::Get,
        r.url@ == base_url@ + autocomplete_path(),
        param_texts(r.params@) == seq![("limit"@, "200"@), ("search"@, name@)],
{
    proof {
        reveal_strlit("/ocs/v2.php/core/autocomplete/get");
    }
    let mut url = String::from_str(base_url);
    url.append("/ocs/v2.php/core/autocomplete/get");
    let mut params: Vec<(String, String)> = Vec::new();
    push_param(&mut params, "limit", literal("200"));
    push_param(&mut params, "search", String::from_str(name));
    assert(param_texts(params@) =~= seq![("limit"@, "200"@), ("search"@, name@)]);
    ApiCall { method: HttpMethod::Get, url, params }
}

/// The request for the participants of the conversation `token`, with
/// their status.
pub fn participants_call(base_url: &str, token: &str) -> (r: ApiCall)
    ensures
        r.method == HttpMethod::Get,
        r.url@ == base_url@ + room_path() + "/"@ + token@ + "/participants"@,
        param_texts(r.params@) == seq![("includeStatus"@, "true"@)],
{
    proof {
        reveal_strlit("/ocs/v2.php/apps/spreed/api/v4/room/");
        reveal_strlit("/ocs/v2.php/apps/spreed/api/v4/room");
        reveal_strlit("/");
    }
    let mut url = String::from_str(base_url);
    url.append("/ocs/v2.php/apps/spreed/api/v4/room/");
    url.append(token);
    url.append("/participants");
    let mut params: Vec<(String, String)> = Vec::new();
    push_param(&mut params, "includeStatus", literal("true"));
    assert(param_texts(params@) =~= seq![("includeStatus"@, "true"@)]);
    assert(url@ =~= base_url@ + room_path() + "/"@ + token@ + "/participants"@);
    ApiCall { method: HttpMethod::Get, url, params }
}

/// The request for the list of conversations: all of them, or those
/// modified since `last_timestamp`.
pub fn rooms_call(base_url: &str, last_timestamp: Option<i64>) -> (r: ApiCall)
    ensures
        r.method == HttpMethod::Get,
        r.url@ == base_url@ + room_path(),
        param_texts(r.params@) == (match last_timestamp {
            Some(t) => seq![("modifiedSince"@, signed_decimal(t as int))],
            None => Seq::<(Seq<char>, Seq<char>)>::empty(),
        }),
{
    proof {
        reveal_strlit("/ocs/v2.php/apps/spreed/api/v4/room");
    }
    let mut url = String::from_str(base_url);
    url.append("/ocs/v2.php/apps/spreed/api/v4/room");
    let mut params: Vec<(String, String)> = Vec::new();
    if let Some(t) = last_timestamp {
        let mut value = String::new();
        push_signed_decimal(&mut value, t);
        push_param(&mut params, "modifiedSince", value);
        assert(param_texts(params@) =~= seq![("modifiedSince"@, signed_decimal(t as int))]);
    } else {
        assert(param_texts(params@) =~= Seq::<(Seq<char>, Seq<char>)>::empty());
    }
    ApiCall { method: HttpMethod::Get, url, params }
}

/// The request for the messages of the conversation `token`: the newest
/// `max_message` ones, or, given the last known message, up to
/// `max_message` newer ones without waiting.
pub fn chat_call(base_url: &str, token: &str, max_message: i32, last_message: Option<i32>) -> (r:
    ApiCall)
    ensures
        r.method == HttpMethod::Get,
        r.url@ == base_url@ + chat_path() + token@,
        param_texts(r.params@) == (match last_message {
            Some(last) => seq![
                ("limit"@, signed_decimal(max_message as int)),
                ("setReadMarker"@, "0"@),
                ("lookIntoFuture"@, "1"@),
                ("lastKnownMessageId"@, signed_decimal(last as int)),
                ("timeout"@, "0"@),
                ("includeLastKnown"@, "0"@),
            ],
            None => seq![
                ("limit"@, signed_decimal(max_message as int)),
                ("setReadMarker"@, "0"@),
                ("lookIntoFuture"@, "0"@),
            ],
        }),
{
    proof {
        reveal_strlit("/ocs/v2.php/apps/spreed/api/v1/chat/");
    }
    let mut url = String::from_str(base_url);
    url.append("/ocs/v2.php/apps/spreed/api/v1/chat/");
    url.append(token);
    let mut params: Vec<(String, String)> = Vec::new();
    push_param(&mut params, "limit", i32_to_decimal(max_message));
    push_param(&mut params, "setReadMarker", literal("0"));
    match last_message {
        Some(last) => {
            push_param(&mut params, "lookIntoFuture", literal("1"));
            push_param(&mut params, "lastKnownMessageId", i32_to_decimal(last));
            push_param(&mut params, "timeout", literal("0"));
            push_param(&mut params, "includeLastKnown", literal("0"));
        },
        None => {
            push_param(&mut params, "lookIntoFuture", literal("0"));
        },
    }
    ApiCall { method: HttpMethod::Get, url, params }
}

/// The request that marks the conversation `token` as read.
pub fn mark_chat_read_call(base_url: &str, token: &str) -> (r: ApiCall)
    ensures
        r.method == HttpMethod::Post,
        r.url@ == base_url@ + chat_path() + token@ + "/read"@,
        r.params@.len() == 0,
{
    proof {
        reveal_strlit("/ocs/v2.php/apps/spreed/api/v1/chat/");
    }
    let mut url = String::from_str(base_url);
    url.append("/ocs/v2.php/apps/spreed/api/v1/chat/");
    url.append(token);
    url.append("/read");
    ApiCall { method: HttpMethod::Post, url, params: Vec::new() }
}

/// How an answer of the chat endpoint is read.
#[derive(Debug, Clone, Copy, PartialEq, Eq, Structural)]
pub enum ChatStatus {
    /// 200: the body holds the messages.
    Messages,
    /// 304: there are no new messages.
    NotModified,
    /// 412: the conversation no longer exists.
    RoomGone,
    /// Any other status is an error.
    Failed,
}

/// Reads the HTTP status of an answer of the chat endpoint.
pub fn chat_status(status: u16) -> (r: ChatStatus)
    ensures
        r == (if status == 200 {
            ChatStatus::Messages
        } else if status == 304 {
            ChatStatus::NotModified
        } else if status == 412 {
            ChatStatus::RoomGone
        } else {
            ChatStatus::Failed
        }),
{
    if status == 200 {
        ChatStatus::Messages
    } else if status == 304 {
        ChatStatus::NotModified
    } else if status == 412 {
        ChatStatus::RoomGone
    } else {
        ChatStatus::Failed
    }
}

/// The HTTP status by which the server accepts a request: 201 (created) for
/// a posted message, 200 for every other request.
pub fn expected_status(call_is_send_message: bool) -> (r: u16)
    ensures
        r == (if call_is_send_message { 201u16 } else { 200u16 }),
{
    if call_is_send_message {
        201
    } else {
        200
    }
}

/// The error reported when a conversation disappeared.
pub open spec fn room_gone_text() -> Seq<char> {
    "Room disappeared, precondition not met error."@
}

/// The messages of a first fetch of a conversation: the server sends them
/// newest first, and they are kept oldest first. `None` (the conversation
/// is gone) is an error.
pub fn fetch_chat_initial_result(response: Option<Vec<NCReqDataMessage>>) -> (r: Result<
    Vec<NCReqDataMessage>,
    String,
>)
    ensures
        response is None ==> (r matches Err(e) && e@ == room_gone_text()),
        response matches Some(v) ==> (r matches Ok(w) && w@ == v@.reverse()),
{
    proof {
        reveal_strlit("Room disappeared, precondition not met error.");
    }
    match response {
        Some(v) => Ok(reversed(v)),
        None => Err(String::from_str("Room disappeared, precondition not met error.")),
    }
}

/// The messages of a later fetch of a conversation, already oldest first.
/// `None` (the conversation is gone) is an error.
pub fn fetch_chat_update_result(response: Option<Vec<NCReqDataMessage>>) -> (r: Result<
    Vec<NCReqDataMessage>,
    String,
>)
    ensures
        response is None ==> (r matches Err(e) && e@ == room_gone_text()),
        response matches Some(v) ==> (r matches Ok(w) && w@ == v@),
{
    proof {
        reveal_strlit("Room disappeared, precondition not met error.");
    }
    match response {
        Some(v) => Ok(v),
        None => Err(String::from_str("Room disappeared, precondition not met error.")),
    }
}

/// The list in reverse order.
pub fn reversed<T>(v: Vec<T>) -> (r: Vec<T>)
    ensures
        r@ == v@.reverse(),
{
    let mut v = v;
    let ghost initial = v@;
    let n = v.len();
    let mut r: Vec<T> = Vec::new();
    while v.len() > 0
        invariant
            v@ == initial.take(v@.len() as int),
            r@.len() + v@.len() == n,
            n == initial.len(),
            forall|k: int| 0 <= k < r@.len() ==> #[trigger] r@[k] == initial[n - 1 - k],
        decreases v.len(),
    {
        let e = v.pop().unwrap();
        r.push(e);
    }
    assert(r@ =~= initial.reverse());
    r
}

/// The name of the file into which a failed answer from `url` is dumped:
/// the address with every '/' replaced by '_'.
pub open spec fn dump_file_name_of(url: Seq<char>) -> Seq<char> {
    url.map_values(|c: char| if c == '/' { '_' } else { c })
}

/// The name of the file into which a failed answer from `url` is dumped.
pub fn dump_file_name(url: &str) -> (r: String)
    ensures
        r@ == dump_file_name_of(url@),
{
    proof {
        reveal_strlit("_");
    }
    let mut r = String::new();
    let n = url.unicode_len();
    let mut i: usize = 0;
    while i < n
        invariant
            n == url@.len(),
            i <= n,
            r@ == dump_file_name_of(url@.take(i as int)),
        decreases n - i,
    {
        let c = url.get_char(i);
        if c == '/' {
            proof {
                reveal_strlit("_");
            }
            assert("_"@ =~= seq!['_']);
            r.append("_");
        } else {
            let single = url.substring_char(i, i + 1);
            assert(single@ =~= seq![c]);
            r.append(single);
        }
        assert(dump_file_name_of(url@.take(i + 1)) =~= dump_file_name_of(url@.take(i as int)).push(
            if c == '/' { '_' } else { c },
        ));
        i = i + 1;
    }
    assert(url@.take(n as int) =~= url@);
    r
}

/// The value of the `Authorization` header for the account: "Basic "
/// followed by the base64 encoding of "<user>:<password>".
pub fn basic_auth_value(user: &str, password: &str) -> (r: String)
    ensures
        r@ == "Basic "@ + base64_standard(user@ + ":"@ + password@),
{
    proof {
        reveal_strlit(":");
        reveal_strlit("Basic ");
    }
    let mut credentials = String::from_str(user);
    credentials.append(":");
    credentials.append(password);
    let encoded = encode_base64(credentials.as_str());
    let mut r = String::from_str("Basic ");
    r.append(encoded.as_str());
    r
}

/// What `jzon::stringify_pretty(jzon::parse(text)?, 2)` gives for `text`:
/// the JSON re-indented by two spaces, or `None` when `text` is no JSON.
pub uninterp spec fn jzon_pretty(text: Seq<char>) -> Option<Seq<char>>;

/// The text of an optional string.
pub open spec fn opt_text(o: Option<String>) -> Option<Seq<char>> {
    match o {
        Some(s) => Some(s@),
        None => None,
    }
}

/// Calls `jzon::parse` on `text` and, if it is JSON, `jzon::stringify_pretty`
/// with an indentation of two; `None` when `jzon` refuses the text. The
/// result depends on the text alone and is named `jzon_pretty`.
#[verifier::external_body]
fn pretty_json(text: &str) -> (r: Option<String>)
    ensures
        opt_text(r) == jzon_pretty(text@),
{
    match jzon::parse(text) {
        Ok(value) => Some(jzon::stringify_pretty(value, 2)),
        Err(_) => None,
    }
}

/// Why a failed answer could not be dumped.
#[derive(Debug, Clone, Copy, PartialEq, Eq, Structural)]
pub enum DumpError {
    /// The answer is no JSON.
    NotJson,
}

/// How many workers carry out requests.
pub const WORKER_COUNT: usize = 5;

/// How many queued requests are handed to a worker at once.
pub const REQUEST_BATCH: usize = 5;

/// The queue of requests moves on to the next worker when the first one
/// has fewer than this many free places.
pub const ROTATE_BELOW_CAPACITY: usize = 5;

/// Whether the dispatcher moves on to the next worker, given the free
/// places of the first one's queue.
pub fn should_rotate_workers(first_capacity: usize) -> (r: bool)
    ensures
        r == (first_capacity < ROTATE_BELOW_CAPACITY),
{
    first_capacity < ROTATE_BELOW_CAPACITY
}

/// What a client needs to talk to the server: its base address, the value
/// of the authorization header and, when failed answers are to be dumped,
/// the directory for them.
#[derive(Debug)]
pub struct NCRequest {
    pub base_url: String,
    pub authorization: String,
    pub json_dump_path: Option<String>,
}

impl NCRequest {
    /// The client settings for the account in `general`; failed answers are
    /// dumped into `dump_dir` when one is given.
    pub fn new(general: &General, dump_dir: Option<String>) -> (r: NCRequest)
        ensures
            r.base_url@ == general.url@,
            r.authorization@ == "Basic "@ + base64_standard(
                general.user@ + ":"@ + general.app_pw@,
            ),
            r.json_dump_path == dump_dir,
    {
        NCRequest {
            base_url: general.url.clone(),
            authorization: basic_auth_value(general.user.as_str(), general.app_pw.as_str()),
            json_dump_path: dump_dir,
        }
    }

    /// The headers sent with every request, in order: `OCS-APIRequest:
    /// true`, `Accept: application/json` and the authorization value.
    pub fn base_headers(&self) -> (r: Vec<(String, String)>)
        ensures
            param_texts(r@) == seq![
                ("OCS-APIRequest"@, "true"@),
                ("Accept"@, "application/json"@),
                ("Authorization"@, self.authorization@),
            ],
    {
        let mut headers: Vec<(String, String)> = Vec::new();
        push_param(&mut headers, "OCS-APIRequest", literal("true"));
        push_param(&mut headers, "Accept", literal("application/json"));
        push_param(&mut headers, "Authorization", self.authorization.clone());
        assert(param_texts(headers@) =~= seq![
            ("OCS-APIRequest"@, "true"@),
            ("Accept"@, "application/json"@),
            ("Authorization"@, self.authorization@),
        ]);
        headers
    }

    /// What a failed answer from `url` is dumped as, when dumping is on: the
    /// path of the dump file (the file name made of the address, inside the
    /// dump directory) and the answer re-indented; an error when the answer
    /// is no JSON; nothing when dumping is off.
    pub fn dump_json_to_log(&self, url: &str, text: &str) -> (r: Result<
        Option<(String, String)>,
        DumpError,
    >)
        ensures
            self.json_dump_path is None ==> r == Ok::<Option<(String, String)>, DumpError>(None),
            self.json_dump_path matches Some(dir) ==> match jzon_pretty(text@) {
                None => r == Err::<Option<(String, String)>, DumpError>(DumpError::NotJson),
                Some(p) => r matches Ok(Some(dump)) && dump.0@ == path_join(
                    dir@,
                    dump_file_name_of(url@),
                ) && dump.1@ == p,
            },
    {
        match &self.json_dump_path {
            None => Ok(None),
            Some(dir) => {
                let name = dump_file_name(url);
                let path = join_path(dir.as_str(), name.as_str());
                match pretty_json(text) {
                    Some(pretty) => Ok(Some((path, pretty))),
                    None => Err(DumpError::NotJson),
                }
            },
        }
    }
}

/// A request to the API as the worker queue carries it.
#[derive(Debug)]
pub enum ApiRequest {
    Empty,
    SendMessage(Token, String),
    FetchRoomsInitial,
    FetchRoomsUpdate(i64),
    FetchParticipants(Token),
    FetchChatInitial(Token, i32),
    FetchChatUpdate(Token, i32, i32),
    FetchAutocompleteUsers(String),
    MarkChatRead(Token, i32),
}

/// How a request is written in the log.
pub open spec fn request_description(req: ApiRequest) -> Seq<char> {
    match req {
        ApiRequest::Empty => "Invalid"@,
        ApiRequest::SendMessage(token, _) => "SendMessage "@ + token@,
        ApiRequest::FetchRoomsInitial => "FetchRoomsInitial"@,
        ApiRequest::FetchRoomsUpdate(t) => "FetchRoomsUpdate "@ + signed_decimal(t as int),
        ApiRequest::FetchParticipants(token) => "FetchParticipants "@ + token@,
        ApiRequest::FetchChatInitial(token, max) => "FetchChatInitial "@ + token@ + " "@
            + signed_decimal(max as int),
        ApiRequest::FetchChatUpdate(token, max, last) => "FetchChatUpdate "@ + token@ + " "@
            + signed_decimal(max as int) + " "@ + signed_decimal(last as int),
        ApiRequest::FetchAutocompleteUsers(name) => "FetchAutocompleteUsers "@ + name@,
        ApiRequest::MarkChatRead(token, _) => "MarkChatRead "@ + token@,
    }
}

impl ApiRequest {
    /// The text with which the request is logged.
    pub fn describe(&self) -> (r: String)
        ensures
            r@ == request_description(*self),
    {
        proof {
            reveal_strlit("Invalid");
            reveal_strlit("SendMessage ");
            reveal_strlit("FetchRoomsInitial");
            reveal_strlit("FetchRoomsUpdate ");
            reveal_strlit("FetchParticipants ");
            reveal_strlit("FetchChatInitial ");
            reveal_strlit("FetchChatUpdate ");
            reveal_strlit("FetchAutocompleteUsers ");
            reveal_strlit("MarkChatRead ");
            reveal_strlit(" ");
        }
        match self {
            ApiRequest::Empty => String::from_str("Invalid"),
            ApiRequest::SendMessage(token, _) => {
                let mut r = String::from_str("SendMessage ");
                r.append(token.as_str());
                r
            },
            ApiRequest::FetchRoomsInitial => String::from_str("FetchRoomsInitial"),
            ApiRequest::FetchRoomsUpdate(t) => {
                let mut r = String::from_str("FetchRoomsUpdate ");
                push_signed_decimal(&mut r, *t);
                r
            },
            ApiRequest::FetchParticipants(token) => {
                let mut r = String::from_str("FetchParticipants ");
                r.append(token.as_str());
                r
            },
            ApiRequest::FetchChatInitial(token, max) => {
                let mut r = String::from_str("FetchChatInitial ");
                r.append(token.as_str());
                r.append(" ");
                push_signed_decimal(&mut r, *max as i64);
                r
            },
            ApiRequest::FetchChatUpdate(token, max, last) => {
                let mut r = String::from_str("FetchChatUpdate ");
                r.append(token.as_str());
                r.append(" ");
                push_signed_decimal(&mut r, *max as i64);
                r.append(" ");
                push_signed_decimal(&mut r, *last as i64);
                r
            },
            ApiRequest::FetchAutocompleteUsers(name) => {
                let mut r = String::from_str("FetchAutocompleteUsers ");
                r.append(name.as_str());
                r
            },
            ApiRequest::MarkChatRead(token, _) => {
                let mut r = String::from_str("MarkChatRead ");
                r.append(token.as_str());
                r
            },
        }
    }
}

} // verus!
