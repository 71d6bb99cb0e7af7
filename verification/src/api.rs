//! The bot's side of the conversation with a OneBot v11 implementation:
//! connection settings, the choice of a request's `echo`, where an incoming
//! report goes, and what each answer means for the caller.
use vstd::prelude::*;
use crate::event::{
    EchoGetMsg, EchoGetMsgView, EchoGetStatus, EchoGetStatusView, EchoGetVersionInfo,
    EchoGetVersionInfoView, EchoLoginInfo, EchoLoginInfoView, Event, EventError, EventView,
    SendMsgEcho, SendMsgEchoView, spec_event_is_ok,
};
use crate::json::{get, json_get, opt_string_view, SpecJson, JsonValue, req_int, spec_parse_json};
use crate::text::{has_prefix, join2, starts_with, trim, trimmed, is_white, trim_start, trim_end};

verus! {

// ---------------------------------------------------------------------
// Connection settings.
// ---------------------------------------------------------------------

/// The address the bot connects to: `addr` itself where, trimmed, it
/// already begins with `scheme`; else `scheme` followed by `addr` trimmed.
pub open spec fn spec_complete_address(addr: Seq<char>, scheme: Seq<char>) -> Seq<char> {
    if starts_with(trim(addr), scheme) {
        addr
    } else {
        scheme + trim(addr)
    }
}

/// Completes `addr` with `scheme` (such as `ws://`).
pub fn complete_address(addr: &str, scheme: &str) -> (r: String)
    ensures
        r@ == spec_complete_address(addr@, scheme@),
{
    let t = trimmed(addr);
    if has_prefix(t, scheme) {
        String::from_str(addr)
    } else {
        join2(scheme, t)
    }
}

/// The `Authorization` header for `token`: `Bearer token`, unless the
/// token is blank.
pub fn auth_header(token: &str) -> (r: Option<String>)
    ensures
        trim(token@).len() == 0 ==> r is None,
        trim(token@).len() > 0 ==> (r matches Some(h) && h@ == "Bearer "@ + token@),
{
    let t = trimmed(token);
    if t.unicode_len() == 0 {
        None
    } else {
        Some(join2("Bearer ", token))
    }
}

/// The error `tungstenite::http::Uri` gives when reading `text` as a URI,
/// as its `Display` writes it; `None` where `text` reads as one.
pub uninterp spec fn spec_uri_error(text: Seq<char>) -> Option<Seq<char>>;

/// Reads `text` as a `tungstenite::http::Uri` (`str::parse`). Claimed: the
/// outcome, and the words of its error, are the named function of the
/// text.
#[verifier::external_body]
fn uri_error(text: &str) -> (r: Option<String>)
    ensures
        opt_string_view(r) == spec_uri_error(text@),
{
    match text.parse::<tungstenite::http::Uri>() {
        Ok(_) => None,
        Err(e) => Some(e.to_string()),
    }
}

/// The address a blocking WebSocket connection goes to: `url` itself where
/// it reads as a URI, else the error `Url格式错误`.
pub fn websocket_target(url: &str) -> (r: Result<String, String>)
    ensures
        (r is Ok) == (spec_uri_error(url@) is None),
        r matches Ok(u) ==> u@ == url@,
        r matches Err(m) ==> m@ == "Url格式错误"@,
{
    match uri_error(url) {
        None => Ok(String::from_str(url)),
        Some(_) => Err(String::from_str("Url格式错误")),
    }
}

/// The address a bot connects to: `addr` completed with `ws://`
/// (`complete_address`) where that reads as a URI, else the URI's error.
pub fn bot_target(addr: &str) -> (r: Result<String, String>)
    ensures
        (r is Ok) == (spec_uri_error(spec_complete_address(addr@, "ws://"@)) is None),
        r matches Ok(u) ==> u@ == spec_complete_address(addr@, "ws://"@),
        r matches Err(m) ==> Some(m@) == spec_uri_error(spec_complete_address(addr@, "ws://"@)),
{
    let a = complete_address(addr, "ws://");
    match uri_error(a.as_str()) {
        None => Ok(a),
        Some(e) => Err(e),
    }
}

proof fn lemma_trim_start_bounds(s: Seq<char>)
    ensures
        trim_start(s).len() > 0 ==> !is_white(trim_start(s)[0]),
        trim_start(s).len() <= s.len(),
        trim_start(s) == s.skip(s.len() - trim_start(s).len()),
    decreases s.len(),
{
    if s.len() > 0 && is_white(s[0]) {
        lemma_trim_start_bounds(s.drop_first());
        assert(s.drop_first().skip(s.drop_first().len() - trim_start(s).len()) =~= s.skip(
            s.len() - trim_start(s).len(),
        ));
    } else {
        assert(s.skip(0) =~= s);
    }
}

proof fn lemma_trim_end_bounds(s: Seq<char>)
    ensures
        trim_end(s).len() > 0 ==> !is_white(trim_end(s).last()),
        trim_end(s).len() <= s.len(),
        trim_end(s) == s.take(trim_end(s).len() as int),
    decreases s.len(),
{
    if s.len() > 0 && is_white(s.last()) {
        lemma_trim_end_bounds(s.drop_last());
        assert(s.drop_last().take(trim_end(s).len() as int) =~= s.take(trim_end(s).len() as int));
    } else {
        assert(s.take(s.len() as int) =~= s);
    }
}

proof fn lemma_trim_end_keeps_first(s: Seq<char>)
    requires
        s.len() > 0,
        !is_white(s[0]),
    ensures
        trim_end(s).len() > 0,
        trim_end(s)[0] == s[0],
    decreases s.len(),
{
    if is_white(s.last()) {
        lemma_trim_end_keeps_first(s.drop_last());
    }
}

/// Trimmed text neither begins nor ends with white space.
pub proof fn lemma_trim_edges(s: Seq<char>)
    ensures
        trim(s).len() > 0 ==> !is_white(trim(s)[0]) && !is_white(trim(s).last()),
{
    lemma_trim_start_bounds(s);
    lemma_trim_end_bounds(trim_start(s));
    if trim(s).len() > 0 {
        lemma_trim_end_keeps_first(trim_start(s));
    }
}

/// Text that neither begins nor ends with white space is its own trim.
pub proof fn lemma_trim_fixed(s: Seq<char>)
    requires
        s.len() > 0 ==> !is_white(s[0]) && !is_white(s.last()),
    ensures
        trim(s) == s,
{
}

/// Completing an address twice gives what completing it once gives, for
/// a scheme that neither begins nor ends with white space (such as `ws://`
/// and `http://`).
pub proof fn law_complete_address_idempotent(addr: Seq<char>, scheme: Seq<char>)
    requires
        scheme.len() > 0,
        !is_white(scheme[0]),
        !is_white(scheme.last()),
    ensures
        spec_complete_address(spec_complete_address(addr, scheme), scheme)
            == spec_complete_address(addr, scheme),
{
    if !starts_with(trim(addr), scheme) {
        let t = trim(addr);
        let c = scheme + t;
        lemma_trim_edges(addr);
        assert(c[0] == scheme[0]);
        if t.len() > 0 {
            assert(c.last() == t.last());
        } else {
            assert(c.last() == scheme.last());
        }
        lemma_trim_fixed(c);
        assert(c.take(scheme.len() as int) =~= scheme);
    }
}

// ---------------------------------------------------------------------
// The first message of a connection.
// ---------------------------------------------------------------------

/// The greeting refuses the connection: its `status` is `failed`.
pub open spec fn greeting_refused(v: SpecJson) -> bool {
    json_get(v, "status"@) == Some(SpecJson::Str("failed"@))
}

/// Reading the greeting is defined: a refusal carries a `message`, and
/// any other greeting a whole-number `self_id`.
pub open spec fn greeting_defined(v: SpecJson) -> bool {
    if greeting_refused(v) {
        json_get(v, "message"@) is Some
    } else {
        req_int(json_get(v, "self_id"@), i64::MIN as int, i64::MAX as int) is Some
    }
}

/// Whether reading the greeting `v` is defined.
pub fn greeting_is_defined(v: &JsonValue) -> (r: bool)
    ensures
        r == greeting_defined(v@),
{
    if is_refusal(v) {
        get(v, "message").is_some()
    } else {
        crate::json::read_int(get(v, "self_id"), i64::MIN, i64::MAX).is_some()
    }
}

fn is_refusal(v: &JsonValue) -> (r: bool)
    ensures
        r == greeting_refused(v@),
{
    match get(v, "status") {
        Some(JsonValue::Str(s)) => crate::json::same_text(s, "failed"),
        _ => false,
    }
}

/// What the first message of a connection says: the JSON text of its
/// `message` where it refuses the connection, else the bot's id
/// (`self_id`).
pub fn greeting(v: &JsonValue) -> (r: Result<i64, String>)
    requires
        greeting_defined(v@),
    ensures
        greeting_refused(v@) ==> (r matches Err(m) && m@ == crate::json::spec_json_text(
            json_get(v@, "message"@)->0,
        )),
        !greeting_refused(v@) ==> (r matches Ok(id) && req_int(
            json_get(v@, "self_id"@),
            i64::MIN as int,
            i64::MAX as int,
        ) == Some(id as int)),
{
    if is_refusal(v) {
        match get(v, "message") {
            Some(m) => Err(crate::json::json_to_string(m)),
            None => {
                proof {
                    assert(false);
                }
                Err(String::new())
            },
        }
    } else {
        match crate::json::read_int(get(v, "self_id"), i64::MIN, i64::MAX) {
            Some(id) => Ok(id),
            None => {
                proof {
                    assert(false);
                }
                Ok(0)
            },
        }
    }
}

// ---------------------------------------------------------------------
// Echoes.
// ---------------------------------------------------------------------

/// A random `u16` (`rand::random::<u16>()`). Nothing is claimed of it.
#[verifier::external_body]
fn random_u16() -> u16 {
    rand::random::<u16>()
}

/// Whether `x` is one of `xs`.
pub fn holds(xs: &Vec<u16>, x: u16) -> (r: bool)
    ensures
        r == xs@.contains(x),
{
    let mut i: usize = 0;
    while i < xs.len()
        invariant
            0 <= i <= xs.len(),
            forall|j: int| 0 <= j < i ==> xs@[j] != x,
        decreases xs.len() - i,
    {
        if xs[i] == x {
            assert(xs@[i as int] == x);
            return true;
        }
        i = i + 1;
    }
    false
}

/// The echo tried at step `j` after the random start `start`.
pub open spec fn probe(start: u16, j: int) -> u16 {
    ((start as int + j) % 65536) as u16
}

/// The first echo, from `start` upward (wrapping past 65535 to 0), that no
/// request waiting for an answer holds.
pub fn free_echo_from(in_use: &Vec<u16>, start: u16) -> (r: u16)
    requires
        exists|k: u16| !in_use@.contains(k),
    ensures
        !in_use@.contains(r),
        exists|j: int|
            0 <= j < 65536 && r == probe(start, j) && forall|i: int|
                0 <= i < j ==> in_use@.contains(#[trigger] probe(start, i)),
{
    let mut step: u32 = 0;
    while step < 65536
        invariant
            0 <= step <= 65536,
            forall|j: int|
                0 <= j < step ==> in_use@.contains(#[trigger] probe(start, j)),
        decreases 65536 - step,
    {
        let c: u16 = ((start as u32 + step) % 65536) as u16;
        assert(c == probe(start, step as int));
        if !holds(in_use, c) {
            return c;
        }
        step = step + 1;
    }
    proof {
        let k = choose|k: u16| !in_use@.contains(k);
        let j: int = (k as int - start as int + 65536) % 65536;
        assert(probe(start, j) == k);
    }
    0
}

/// An echo for a new request, not among those that requests waiting for
/// an answer hold: a random one, or the next free one after it.
pub fn random_echo(in_use: &Vec<u16>) -> (r: u16)
    requires
        exists|k: u16| !in_use@.contains(k),
    ensures
        !in_use@.contains(r),
{
    let start = random_u16();
    free_echo_from(in_use, start)
}

// ---------------------------------------------------------------------
// Incoming reports.
// ---------------------------------------------------------------------

/// Where an incoming report goes.
pub enum Incoming {
    /// The answer a waiting request is owed, under its echo.
    Answer { echo: u16, event: Event },
    /// An event for the bot's queue.
    Queue { event: Event },
    /// An answer that no request waits for.
    Drop,
}

/// The echo of an answer.
pub fn answer_echo(event: &Event) -> (r: Option<u16>)
    ensures
        match event {
            Event::EchoEvent { event } => r == Some(event.echo),
            _ => r is None,
        },
{
    match event {
        Event::EchoEvent { event } => Some(event.echo),
        _ => None,
    }
}

/// Where a sorted report goes: an answer goes to the request that waits
/// for its echo (`waiting`), or nowhere if none does; any other event,
/// `Error` events among them, goes to the queue.
pub fn route_incoming(event: Event, waiting: bool) -> (r: Incoming)
    ensures
        match event {
            Event::EchoEvent { event: a } => if waiting {
                r matches Incoming::Answer { echo, event: e } && echo == a.echo && e@
                    == EventView::EchoEvent(a@)
            } else {
                r is Drop
            },
            e => r matches Incoming::Queue { event } && event@ == e@,
        },
{
    match event {
        Event::EchoEvent { event } => if waiting {
            let echo = event.echo;
            Incoming::Answer { echo, event: Event::EchoEvent { event } }
        } else {
            Incoming::Drop
        },
        e => Incoming::Queue { event: e },
    }
}

// ---------------------------------------------------------------------
// Answers.
// ---------------------------------------------------------------------

/// Why a request failed.
#[derive(Debug)]
pub enum ApiError {
    /// The implementation or the bot reported a failure, in words.
    Failed(String),
    /// An event that is no answer came back.
    UnexpectedEvent(Event),
    /// The answer's data did not read as the expected record.
    InvalidData,
}

/// An event as its derived `Debug` writes it (`format!("{:?}", e)`).
/// Nothing is claimed of the text.
#[verifier::external_body]
fn debug_text(e: &Event) -> String {
    format!("{:?}", e)
}

impl ApiError {
    /// The words of the error: a failure's own words; for an event that
    /// is no answer, `错误的事件类型:` followed by the event as `Debug`
    /// writes it; for data that does not read, `响应数据无法解析`.
    pub fn to_string(&self) -> (r: String)
        ensures
            match self {
                ApiError::Failed(t) => r@ == t@,
                ApiError::UnexpectedEvent(_) => exists|d: Seq<char>| r@ == "错误的事件类型:"@ + d,
                ApiError::InvalidData => r@ == "响应数据无法解析"@,
            },
    {
        match self {
            ApiError::Failed(t) => t.clone(),
            ApiError::UnexpectedEvent(e) => {
                let d = debug_text(e);
                join2("错误的事件类型:", d.as_str())
            },
            ApiError::InvalidData => String::from_str("响应数据无法解析"),
        }
    }
}

/// A record that can be read out of an answer's data.
pub trait FromJson: Sized + View {
    spec fn spec_from_json(v: SpecJson) -> Option<<Self as View>::V>;

    fn from_json_value(v: &JsonValue) -> (r: Option<Self>)
        ensures
            match r {
                Some(x) => Self::spec_from_json(v@) == Some(x@),
                None => Self::spec_from_json(v@) is None,
            },
    ;
}

impl FromJson for SendMsgEcho {
    open spec fn spec_from_json(v: SpecJson) -> Option<SendMsgEchoView> {
        SendMsgEcho::spec_parse(v)
    }

    fn from_json_value(v: &JsonValue) -> (r: Option<SendMsgEcho>) {
        SendMsgEcho::from_json(v)
    }
}

impl FromJson for EchoGetMsg {
    open spec fn spec_from_json(v: SpecJson) -> Option<EchoGetMsgView> {
        EchoGetMsg::spec_parse(v)
    }

    fn from_json_value(v: &JsonValue) -> (r: Option<EchoGetMsg>) {
        EchoGetMsg::from_json(v)
    }
}

impl FromJson for EchoLoginInfo {
    open spec fn spec_from_json(v: SpecJson) -> Option<EchoLoginInfoView> {
        EchoLoginInfo::spec_parse(v)
    }

    fn from_json_value(v: &JsonValue) -> (r: Option<EchoLoginInfo>) {
        EchoLoginInfo::from_json(v)
    }
}

impl FromJson for EchoGetVersionInfo {
    open spec fn spec_from_json(v: SpecJson) -> Option<EchoGetVersionInfoView> {
        EchoGetVersionInfo::spec_parse(v)
    }

    fn from_json_value(v: &JsonValue) -> (r: Option<EchoGetVersionInfo>) {
        EchoGetVersionInfo::from_json(v)
    }
}

impl FromJson for EchoGetStatus {
    open spec fn spec_from_json(v: SpecJson) -> Option<EchoGetStatusView> {
        EchoGetStatus::spec_parse(v)
    }

    fn from_json_value(v: &JsonValue) -> (r: Option<EchoGetStatus>) {
        EchoGetStatus::from_json(v)
    }
}

/// An answer carries data.
pub open spec fn answer_has_data(e: EventView) -> bool {
    e matches EventView::EchoEvent(x) ==> x.data is Some
}

/// The data of an answer; an `Error` event is its message; any other
/// event is unexpected.
pub fn answer_data(event: Event) -> (r: Result<JsonValue, ApiError>)
    requires
        answer_has_data(event@),
    ensures
        match event@ {
            EventView::EchoEvent(x) => r matches Ok(d) && d@ == x.data->0,
            EventView::Error(m) => r matches Err(ApiError::Failed(t)) && t@ == m,
            e => r matches Err(ApiError::UnexpectedEvent(u)) && u@ == e,
        },
{
    match event {
        Event::EchoEvent { event } => match event.data {
            Some(d) => Ok(d),
            None => {
                proof {
                    assert(false);
                }
                Err(ApiError::InvalidData)
            },
        },
        Event::Error { msg } => Err(ApiError::Failed(msg)),
        e => Err(ApiError::UnexpectedEvent(e)),
    }
}

/// The data of an answer holds a `T`.
pub open spec fn answer_holds<T: FromJson>(e: EventView) -> bool {
    e matches EventView::EchoEvent(x) ==> x.data is Some && T::spec_from_json(x.data->0) is Some
}

/// The record an answer's data holds; an `Error` event is its message; any
/// other event is unexpected.
pub fn answer_record<T: FromJson>(event: Event) -> (r: Result<T, ApiError>)
    requires
        answer_holds::<T>(event@),
    ensures
        match event@ {
            EventView::EchoEvent(x) => r matches Ok(t) && T::spec_from_json(x.data->0) == Some(t@),
            EventView::Error(m) => r matches Err(ApiError::Failed(t)) && t@ == m,
            e => r matches Err(ApiError::UnexpectedEvent(u)) && u@ == e,
        },
{
    match event {
        Event::EchoEvent { event } => match &event.data {
            Some(d) => match T::from_json_value(d) {
                Some(t) => Ok(t),
                None => {
                    proof {
                        assert(false);
                    }
                    Err(ApiError::InvalidData)
                },
            },
            None => {
                proof {
                    assert(false);
                }
                Err(ApiError::InvalidData)
            },
        },
        Event::Error { msg } => Err(ApiError::Failed(msg)),
        e => Err(ApiError::UnexpectedEvent(e)),
    }
}

/// The answer to `get_status`: its data read as an [`EchoGetStatus`], or,
/// where it does not read, the failure `unread`: what serde says of
/// reading the data as the status, as its error's `Display` writes it.
pub fn answer_status(event: Event, unread: String) -> (r: Result<EchoGetStatus, ApiError>)
    requires
        answer_has_data(event@),
    ensures
        match event@ {
            EventView::EchoEvent(x) => match EchoGetStatus::spec_parse(x.data->0) {
                Some(s) => r matches Ok(t) && t@ == s,
                None => r matches Err(ApiError::Failed(t)) && t@ == unread@,
            },
            EventView::Error(m) => r matches Err(ApiError::Failed(t)) && t@ == m,
            e => r matches Err(ApiError::UnexpectedEvent(u)) && u@ == e,
        },
{
    match event {
        Event::EchoEvent { event } => match &event.data {
            Some(d) => match EchoGetStatus::from_json(d) {
                Some(t) => Ok(t),
                None => Err(ApiError::Failed(unread)),
            },
            None => {
                proof {
                    assert(false);
                }
                Err(ApiError::InvalidData)
            },
        },
        Event::Error { msg } => Err(ApiError::Failed(msg)),
        e => Err(ApiError::UnexpectedEvent(e)),
    }
}

/// The data of an answer holds a `yes` flag.
pub open spec fn answer_has_flag(e: EventView) -> bool {
    e matches EventView::EchoEvent(x) ==> x.data is Some && json_get(x.data->0, "yes"@) matches Some(
        SpecJson::Bool(_),
    )
}

/// The answer to `can_send_image` and `can_send_record`: the `yes` flag of
/// its data.
pub fn answer_flag(event: Event) -> (r: Result<bool, ApiError>)
    requires
        answer_has_flag(event@),
    ensures
        match event@ {
            EventView::EchoEvent(x) => r matches Ok(b) && json_get(x.data->0, "yes"@) == Some(
                SpecJson::Bool(b),
            ),
            EventView::Error(m) => r matches Err(ApiError::Failed(t)) && t@ == m,
            e => r matches Err(ApiError::UnexpectedEvent(u)) && u@ == e,
        },
{
    match event {
        Event::EchoEvent { event } => match &event.data {
            Some(d) => match get(d, "yes") {
                Some(JsonValue::Bool(b)) => Ok(*b),
                _ => {
                    proof {
                        assert(false);
                    }
                    Err(ApiError::InvalidData)
                },
            },
            None => {
                proof {
                    assert(false);
                }
                Err(ApiError::InvalidData)
            },
        },
        Event::Error { msg } => Err(ApiError::Failed(msg)),
        e => Err(ApiError::UnexpectedEvent(e)),
    }
}

/// The answer to a sent message: where the event reports success, the
/// record its data holds (as `answer_record` reads it); else the failure
/// `发送群聊消息失败`.
pub fn answer_sent(event: Event) -> (r: Result<SendMsgEcho, ApiError>)
    requires
        spec_event_is_ok(event@) ==> answer_holds::<SendMsgEcho>(event@),
    ensures
        !spec_event_is_ok(event@) ==> (r matches Err(ApiError::Failed(t)) && t@ == "发送群聊消息失败"@),
        spec_event_is_ok(event@) ==> match event@ {
            EventView::EchoEvent(x) => r matches Ok(t) && SendMsgEcho::spec_parse(x.data->0) == Some(
                t@,
            ),
            EventView::Error(m) => r matches Err(ApiError::Failed(t)) && t@ == m,
            e => r matches Err(ApiError::UnexpectedEvent(u)) && u@ == e,
        },
{
    if event.is_ok() {
        answer_record::<SendMsgEcho>(event)
    } else {
        Err(ApiError::Failed(String::from_str("发送群聊消息失败")))
    }
}

/// The answer to a recall of the message `message_id`: success where the
/// event reports it, else the failure `撤回消息[message_id]失败`.
pub fn answer_deleted(event: &Event, message_id: &str) -> (r: Result<(), ApiError>)
    ensures
        spec_event_is_ok(event@) ==> r is Ok,
        !spec_event_is_ok(event@) ==> (r matches Err(ApiError::Failed(t)) && t@ == "撤回消息["@
            + message_id@ + "]失败"@),
{
    if event.is_ok() {
        Ok(())
    } else {
        let mut t = join2("撤回消息[", message_id);
        t.append("]失败");
        Err(ApiError::Failed(t))
    }
}

/// Whether an answer carries data (`answer_has_data`).
pub fn has_data(event: &Event) -> (r: bool)
    ensures
        r == answer_has_data(event@),
{
    match event {
        Event::EchoEvent { event } => event.data.is_some(),
        _ => true,
    }
}

/// Whether an answer's data holds a `T` (`answer_holds`).
pub fn holds_record<T: FromJson>(event: &Event) -> (r: bool)
    ensures
        r == answer_holds::<T>(event@),
{
    match event {
        Event::EchoEvent { event } => match &event.data {
            Some(d) => T::from_json_value(d).is_some(),
            None => false,
        },
        _ => true,
    }
}

/// Whether an answer's data holds a `yes` flag (`answer_has_flag`).
pub fn has_flag(event: &Event) -> (r: bool)
    ensures
        r == answer_has_flag(event@),
{
    match event {
        Event::EchoEvent { event } => match &event.data {
            Some(d) => match get(d, "yes") {
                Some(JsonValue::Bool(_)) => true,
                _ => false,
            },
            None => false,
        },
        _ => true,
    }
}

} // verus!
