use onebot::api::{
    answer_data, answer_deleted, answer_flag, answer_record, answer_sent, answer_status, auth_header,
    complete_address, websocket_target, bot_target, greeting, greeting_is_defined, random_echo, free_echo_from, route_incoming, ApiError,
    Incoming,
};
use onebot::event::{EchoLoginInfo, Event, Record, SortStep};
use onebot::json::{parse_json, JsonValue};
use onebot::message::Message;
use onebot::request;

fn answer(data: &str, status: &str) -> Event {
    Event::read_document(&format!(
        r#"{{"status":"{status}","retcode":0,"data":{data},"message":"","wording":"","echo":1}}"#
    ))
    .unwrap()
}

#[test]
fn group_message_request_text() {
    let m = Message::new().text("hi");
    assert_eq!(
        request::send_group_msg(123, &m, 7),
        r#"{"action": "send_group_msg","params": {"group_id":123,"message":[{"data":{"text":"hi"},"type":"text"}]},"echo":7}"#
    );
    assert_eq!(
        request::send_private_msg(-4, &m, 0),
        r#"{"action": "send_private_msg","params": {"user_id":-4,"message":[{"data":{"text":"hi"},"type":"text"}]},"echo":0}"#
    );
}

#[test]
fn request_texts_keep_their_wire_form() {
    assert_eq!(request::delete_msg("55", 2), r#"{"action": "delete_msg","params": {"message_id":55},"echo":2}"#);
    assert_eq!(request::get_login_info(65535), r#"{"action": "get_login_info","echo":65535}"#);
    assert_eq!(request::send_like(1, 10), r#"{"action": "send_like","params": {"user_id":1,"times":10}}"#);
    assert_eq!(
        request::set_group_kick(1, 2, true),
        r#"{"action": "set_group_kick","params": {"group_id":1, "user_id":2,"reject_add_request":true}}"#
    );
    assert_eq!(
        request::set_group_card(1, 2, "c"),
        r#"{"action": "set_group_card","params": {"group_id":1,"user_id":2,"card":"c"}}"#
    );
    assert_eq!(
        request::set_group_add_request("f", "add", false, "no"),
        r#"{"action": "set_group_add_request","params": {"flag":"f","sub_type":"add","approve":false,"reason":"no"}}"#
    );
    assert_eq!(
        request::get_group_honor_info(9, "all", 3),
        r#"{"action": "get_group_honor_info","params": {"group_id":9,"type":"all"},"echo":3}"#
    );
    assert_eq!(
        request::get_record("a.amr", "mp3", 4),
        r#"{"action": "get_record","params": {"file":"a.amr","out_format":"mp3"},"echo":4}"#
    );
    assert_eq!(request::clean_cache(), r#"{"action": "clean_cache"}"#);
    assert_eq!(request::set_restart(0), r#"{"action": "set_restart","params": {"delay":0}}"#);
    assert_eq!(request::get_status(8), r#"{"action": "get_status","echo":8}"#);
}

#[test]
fn random_echo_avoids_echoes_in_use() {
    let in_use: Vec<u16> = (0..65535).collect();
    assert_eq!(random_echo(&in_use), 65535);
    let e = random_echo(&vec![1, 2, 3]);
    assert!(![1u16, 2, 3].contains(&e));
}

#[test]
fn answers_go_to_waiting_requests() {
    match route_incoming(answer("null", "ok"), true) {
        Incoming::Answer { echo, .. } => assert_eq!(echo, 1),
        _ => panic!("answer expected"),
    }
    assert!(matches!(route_incoming(answer("null", "ok"), false), Incoming::Drop));
    match route_incoming(Event::Error { msg: "x".to_string() }, true) {
        Incoming::Queue { event: Event::Error { msg } } => assert_eq!(msg, "x"),
        _ => panic!("error event expected"),
    }
}

#[test]
fn sorting_follows_the_readings() {
    let hb = r#"{"time":1,"self_id":2,"post_type":"meta_event","meta_event_type":"heartbeat","status":{"online":true},"interval":5}"#;
    match Event::from(hb, Record::Base, Ok(hb.to_string())) {
        SortStep::Read { record, quoted } => {
            assert_eq!(record, Record::Heartbeat);
            assert_eq!(quoted, Record::Heartbeat);
        }
        _ => panic!("a read expected"),
    }
    match Event::from(hb, Record::Heartbeat, Ok(hb.to_string())) {
        SortStep::Done { event: Event::HeartbeatEvent { event } } => assert_eq!(event.interval, 5),
        _ => panic!("a heartbeat expected"),
    }
    match Event::from(hb, Record::Heartbeat, Err("serde words".to_string())) {
        SortStep::Done { event: Event::Error { msg } } => assert_eq!(msg, "serde words"),
        _ => panic!("an error expected"),
    }
    let private = r#"{"post_type":"message","message_type":"private"}"#;
    match Event::from(private, Record::Base, Ok(private.to_string())) {
        SortStep::Read { record, quoted } => {
            assert_eq!(record, Record::PrivateMsg);
            assert_eq!(quoted, Record::GroupMsg);
        }
        _ => panic!("a read expected"),
    }
    let answer_text = r#"{"echo":3}"#;
    assert!(matches!(
        Event::from(answer_text, Record::Base, Ok(answer_text.to_string())),
        SortStep::Read { record: Record::Echo, .. }
    ));
    let notify = r#"{"post_type":"notice","notice_type":"notify","sub_type":"ban"}"#;
    match Event::from(notify, Record::Base, Ok(notify.to_string())) {
        SortStep::Done { event: Event::Error { msg } } => assert_eq!(msg, format!("获取事件类型失败:{notify}")),
        _ => panic!("an error expected"),
    }
    assert!(!Event::step_is_defined(Record::Base, &Ok(r#"{"post_type":"notice"}"#.to_string())));
    assert!(Event::step_is_defined(Record::Base, &Err(String::new())));
}

#[test]
fn answer_data_reads_data() {
    match answer_data(answer("[1]", "ok")) {
        Ok(JsonValue::Array(a)) => assert_eq!(a.len(), 1),
        _ => panic!("data expected"),
    }
    match answer_data(Event::Error { msg: "timeout".to_string() }) {
        Err(ApiError::Failed(m)) => assert_eq!(m, "timeout"),
        _ => panic!("failure expected"),
    }
    let other = Event::read_document(r#"{"time":1,"self_id":2,"post_type":"notice","group_id":3,"user_id":4,"notice_type":"group_admin","sub_type":"set"}"#).unwrap();
    assert!(matches!(answer_data(other), Err(ApiError::UnexpectedEvent(_))));
}

#[test]
fn answer_record_reads_a_record() {
    let r: Result<EchoLoginInfo, ApiError> = answer_record(answer(r#"{"user_id":5,"nickname":"bot"}"#, "ok"));
    let info = r.unwrap();
    assert_eq!(info.user_id, 5);
    assert_eq!(info.nickname, "bot");
}

#[test]
fn answer_status_reports_bad_data() {
    match answer_status(answer(r#"{"online":true}"#, "ok"), "missing field `good`".to_string()) {
        Err(ApiError::Failed(w)) => assert_eq!(w, "missing field `good`"),
        _ => panic!("failure expected"),
    }
    let s = answer_status(answer(r#"{"online":true,"good":false,"stat":{}}"#, "ok"), String::new()).unwrap();
    assert!(s.online && !s.good);
}

#[test]
fn answer_flag_reads_yes() {
    assert_eq!(answer_flag(answer(r#"{"yes":true}"#, "ok")).unwrap(), true);
    assert_eq!(answer_flag(answer(r#"{"yes":false}"#, "ok")).unwrap(), false);
}

#[test]
fn sent_and_deleted_follow_the_status() {
    assert_eq!(answer_sent(answer(r#"{"message_id":12}"#, "ok")).unwrap().message_id, 12);
    match answer_sent(answer("null", "failed")) {
        Err(ApiError::Failed(m)) => assert_eq!(m, "发送群聊消息失败"),
        _ => panic!("failure expected"),
    }
    assert!(answer_deleted(&answer("null", "ok"), "3").is_ok());
    match answer_deleted(&answer("null", "failed"), "3") {
        Err(ApiError::Failed(m)) => assert_eq!(m, "撤回消息[3]失败"),
        _ => panic!("failure expected"),
    }
}

#[test]
fn addresses_are_completed_once() {
    assert_eq!(complete_address(" 127.0.0.1:3001 ", "ws://"), "ws://127.0.0.1:3001");
    assert_eq!(complete_address(" ws://h:1", "ws://"), " ws://h:1");
    let once = complete_address("\th:2\n", "ws://");
    assert_eq!(complete_address(&once, "ws://"), once);
    assert_eq!(complete_address("h", "http://"), "http://h");
}

#[test]
fn blank_tokens_send_no_header() {
    assert_eq!(auth_header("  "), None);
    assert_eq!(auth_header(" t "), Some("Bearer  t ".to_string()));
}

#[test]
fn greeting_gives_the_id_or_the_refusal() {
    let ok = parse_json(r#"{"status":"ok","self_id":42}"#).unwrap();
    assert!(greeting_is_defined(&ok));
    assert_eq!(greeting(&ok), Ok(42));
    let no = parse_json(r#"{"status":"failed","message":"token"}"#).unwrap();
    assert_eq!(greeting(&no), Err("\"token\"".to_string()));
    let bad = parse_json(r#"{"status":"failed"}"#).unwrap();
    assert!(!greeting_is_defined(&bad));
}

#[test]
fn free_echo_is_the_first_free_one_from_the_start() {
    assert_eq!(free_echo_from(&vec![5, 6, 7], 5), 8);
    assert_eq!(free_echo_from(&vec![5, 6, 7], 3), 3);
    assert_eq!(free_echo_from(&vec![65535, 0], 65535), 1);
}

#[test]
fn text_parameters_are_json_strings() {
    let q = request::set_group_name(7, "a \"b\"\\c");
    assert_eq!(q, r#"{"action": "set_group_name","params": {"group_id":7,"group_name":"a \"b\"\\c"}}"#);
    let v = parse_json(&request::get_group_honor_info(9, "talkative", 3)).unwrap();
    match v {
        JsonValue::Object(_) => {}
        _ => panic!("not an object"),
    }
    assert!(parse_json(&request::set_group_card(1, 2, "it's \"x\"\n")).is_some());
}

#[test]
fn api_error_words() {
    assert_eq!(ApiError::Failed("boom".to_string()).to_string(), "boom");
    assert_eq!(ApiError::InvalidData.to_string(), "响应数据无法解析");
    let w = ApiError::UnexpectedEvent(Event::Error { msg: "m".to_string() }).to_string();
    assert!(w.starts_with("错误的事件类型:"));
    assert!(w.contains("Error"));
}

#[test]
fn connection_targets_are_read_as_uris() {
    assert_eq!(websocket_target("ws://127.0.0.1:3001"), Ok("ws://127.0.0.1:3001".to_string()));
    assert_eq!(websocket_target("ws://a b"), Err("Url格式错误".to_string()));
    assert_eq!(bot_target(" 127.0.0.1:3001 "), Ok("ws://127.0.0.1:3001".to_string()));
    let e = bot_target("h:1 2").unwrap_err();
    assert!(!e.is_empty());
}
