use onebot::event::{Event, EventError, GroupRole, MessageType, PostType, SubType};
use onebot::message::Message;

const GROUP: &str = r#"{"self_id":10,"user_id":20,"time":1700000000,"message_id":5,"message_seq":5,"real_id":5,"real_seq":"5","message_type":"group","sender":{"user_id":20,"nickname":"n","card":"","role":"member"},"raw_message":"hi","font":14,"sub_type":"normal","message":[{"type":"text","data":{"text":"hi"}}],"message_format":"array","post_type":"message","group_id":30,"raw":{}}"#;

#[test]
fn group_message_is_read() {
    match Event::read_document(GROUP) {
        Ok(Event::GroupMsgEvent { event }) => {
            assert_eq!(event.group_id, 30);
            assert_eq!(event.user_id, 20);
            assert_eq!(event.font, 14);
            assert_eq!(event.message_type, MessageType::Group);
            assert_eq!(event.post_type, PostType::Message);
            assert_eq!(event.sender.role, Some(GroupRole::Member));
            assert_eq!(event.sender.sex, None);
            assert_eq!(event.sender.card, Some(String::new()));
            assert_eq!(event.message_sent_type, None);
            assert_eq!(event.target_id, None);
            assert_eq!(event.get_first_text(), Some("hi".to_string()));
        }
        other => panic!("unexpected: {:?}", other),
    }
}

#[test]
fn message_sent_is_a_group_message() {
    let s = GROUP.replace(r#""post_type":"message""#, r#""post_type":"message_sent""#);
    match Event::read_document(&s) {
        Ok(Event::GroupMsgEvent { event }) => assert_eq!(event.post_type, PostType::MessageSent),
        other => panic!("unexpected: {:?}", other),
    }
}

#[test]
fn private_message_is_read() {
    let s = r#"{"self_id":1,"user_id":2,"time":3,"message_id":4,"message_seq":4,"real_id":4,"message_type":"private","sender":{"user_id":2,"nickname":"x"},"raw_message":"yo","font":0,"sub_type":"friend","message":"not an array","message_format":"array","post_type":"message"}"#;
    match Event::read_document(s) {
        Ok(Event::PrivateMsgEvent { event }) => {
            assert_eq!(event.message_type, "private");
            assert_eq!(event.message.msg.len(), 0);
        }
        other => panic!("unexpected: {:?}", other),
    }
}

#[test]
fn answer_is_read_before_anything_else() {
    let s = r#"{"status":"ok","retcode":0,"data":{"message_id":9},"message":"","wording":"","echo":77,"post_type":"message"}"#;
    match Event::read_document(s) {
        Ok(Event::EchoEvent { event }) => {
            assert_eq!(event.echo, 77);
            assert!(event.is_ok());
        }
        other => panic!("unexpected: {:?}", other),
    }
}

#[test]
fn failed_answer_is_not_ok() {
    let e = Event::read_document(r#"{"status":"failed","retcode":100,"data":null,"message":"m","wording":"w","echo":1}"#).unwrap();
    assert!(!e.is_ok());
    match e {
        Event::EchoEvent { event } => assert!(event.data.is_none()),
        _ => panic!("answer expected"),
    }
}

#[test]
fn answer_with_bad_echo_is_a_header_error() {
    assert_eq!(Event::read_document(r#"{"status":"ok","echo":70000}"#).err(), Some(EventError::Header));
}

#[test]
fn answer_missing_fields_is_an_echo_error() {
    assert_eq!(Event::read_document(r#"{"status":"ok","echo":3}"#).err(), Some(EventError::Echo));
}

#[test]
fn heartbeat_is_read() {
    let s = r#"{"time":1,"self_id":2,"post_type":"meta_event","meta_event_type":"heartbeat","status":{"online":true,"good":true},"interval":30000}"#;
    match Event::read_document(s) {
        Ok(Event::HeartbeatEvent { event }) => {
            assert_eq!(event.interval, 30000);
            assert!(event.is_online());
        }
        other => panic!("unexpected: {:?}", other),
    }
}

#[test]
fn lifecycle_with_unknown_sub_type_fails_at_the_header() {
    let s = r#"{"time":1,"self_id":2,"post_type":"meta_event","meta_event_type":"lifecycle","sub_type":"connect"}"#;
    assert_eq!(Event::read_document(s).err(), Some(EventError::Header));
}

#[test]
fn lifecycle_without_sub_type_fails_at_the_body() {
    let s = r#"{"time":1,"self_id":2,"post_type":"meta_event","meta_event_type":"lifecycle"}"#;
    assert_eq!(Event::read_document(s).err(), Some(EventError::Body));
}

#[test]
fn poke_and_title_are_read() {
    let poke = r#"{"time":1,"self_id":2,"post_type":"notice","group_id":3,"user_id":4,"notice_type":"notify","target_id":5,"raw_info":[1,"x"],"sub_type":"poke"}"#;
    match Event::read_document(poke) {
        Ok(Event::PokeEvent { event }) => {
            assert_eq!(event.target_id, 5);
            assert_eq!(event.raw_info.len(), 2);
            assert_eq!(event.sub_type, SubType::Poke);
        }
        other => panic!("unexpected: {:?}", other),
    }
    let title = r#"{"time":1,"self_id":2,"post_type":"notice","group_id":3,"user_id":4,"notice_type":"notify","sub_type":"title","title":"king"}"#;
    match Event::read_document(title) {
        Ok(Event::TitleEvent { event }) => assert_eq!(event.title, "king"),
        other => panic!("unexpected: {:?}", other),
    }
}

#[test]
fn other_notify_is_unknown() {
    let s = r#"{"time":1,"self_id":2,"post_type":"notice","notice_type":"notify","sub_type":"ban"}"#;
    assert_eq!(Event::read_document(s).err(), Some(EventError::UnknownNotify));
}

#[test]
fn notices_are_read() {
    let ban = r#"{"time":1,"self_id":2,"post_type":"notice","group_id":3,"user_id":4,"notice_type":"group_ban","operator_id":6,"duration":60,"sub_type":"ban"}"#;
    match Event::read_document(ban) {
        Ok(Event::GroupBanEvent { event }) => assert_eq!(event.duration, 60),
        other => panic!("unexpected: {:?}", other),
    }
    let admin = r#"{"time":1,"self_id":2,"post_type":"notice","group_id":3,"user_id":4,"notice_type":"group_admin","sub_type":"set"}"#;
    match Event::read_document(admin) {
        Ok(Event::GroupAdminEvent { event }) => assert_eq!(event.sub_type, SubType::SetOn),
        other => panic!("unexpected: {:?}", other),
    }
    let recall = r#"{"time":1,"self_id":2,"post_type":"notice","group_id":3,"user_id":4,"notice_type":"group_recall","operator_id":4,"message_id":99}"#;
    match Event::read_document(recall) {
        Ok(Event::GroupRecall { event }) => assert_eq!(event.message_id, 99),
        other => panic!("unexpected: {:?}", other),
    }
    let card = r#"{"time":1,"self_id":2,"post_type":"notice","group_id":3,"user_id":4,"notice_type":"group_card","card_new":"b","card_old":"a"}"#;
    match Event::read_document(card) {
        Ok(Event::GroupCard { event }) => assert_eq!(event.card_new, "b"),
        other => panic!("unexpected: {:?}", other),
    }
    let like = r#"{"time":1,"self_id":2,"post_type":"notice","group_id":3,"user_id":4,"notice_type":"group_msg_emoji_like","likes":[{"emoji_id":"76","count":2}]}"#;
    match Event::read_document(like) {
        Ok(Event::GroupMsgEmojiLikeEvent { event }) => {
            assert_eq!(event.likes.len(), 1);
            assert_eq!(event.likes[0].count, 2);
        }
        other => panic!("unexpected: {:?}", other),
    }
}

#[test]
fn enum_in_map_form_is_read() {
    let s = r#"{"time":1,"self_id":2,"post_type":{"notice":null},"group_id":3,"user_id":4,"notice_type":"group_admin","sub_type":"unset"}"#;
    match Event::read_document(s) {
        Ok(Event::GroupAdminEvent { event }) => assert_eq!(event.sub_type, SubType::UnSet),
        other => panic!("unexpected: {:?}", other),
    }
}

#[test]
fn record_in_array_form_is_read() {
    let s = r#"{"time":1,"self_id":2,"post_type":"notice","notice_type":"group_admin","sub_type":"set"}"#;
    assert!(Event::read_document(s).is_err());
    let arr = r#"[null,null,null,null,null,5,null]"#;
    assert_eq!(Event::read_document(arr).err(), Some(EventError::Echo));
}

#[test]
fn bad_json_is_a_syntax_error() {
    assert_eq!(Event::read_document("{").err(), Some(EventError::Syntax));
}

#[test]
fn missing_post_type_is_left_undefined() {
    assert!(Event::checked_read_document(r#"{"time":1}"#).is_none());
    assert!(Event::checked_read_document(r#"{"post_type":"notice"}"#).is_none());
    assert!(Event::checked_read_document("nonsense").is_some());
}

#[test]
fn answer_survives_to_string_and_from() {
    let s = r#"{"status":"ok","retcode":-3,"data":{"a":[1,2]},"message":"m","wording":"w","echo":65535}"#;
    let e = Event::read_document(s).unwrap();
    let t = e.to_string().unwrap();
    assert_eq!(t, r#"{"data":{"a":[1,2]},"echo":65535,"message":"m","retcode":-3,"status":"ok","wording":"w"}"#);
    let back = Event::read_document(&t).unwrap();
    assert_eq!(back.to_string().unwrap(), t);
}

#[test]
fn group_message_text_writes_message_as_a_string() {
    let e = Event::read_document(GROUP).unwrap();
    let t = e.to_string().unwrap();
    assert!(t.contains(r#""message":"[{\"data\":{\"text\":\"hi\"},\"type\":\"text\"}]""#));
    assert!(t.contains(r#""target_id":null"#));
    match Event::read_document(&t) {
        Ok(Event::GroupMsgEvent { event }) => assert_eq!(event.message.msg.len(), 0),
        other => panic!("unexpected: {:?}", other),
    }
}

#[test]
fn error_event_text_is_its_message() {
    let e = Event::Error { msg: "boom".to_string() };
    assert_eq!(e.to_string().unwrap(), "boom");
    assert!(e.is_ok());
}

#[test]
fn reply_message_answers_the_message() {
    let e = match Event::read_document(GROUP).unwrap() {
        Event::GroupMsgEvent { event } => event,
        _ => panic!(),
    };
    let r = e.reply_message(&Message::new().text("ok").record("x"));
    assert_eq!(r.to_string(), Message::new().reply("5").text("ok").to_string());
    assert!(e.get_reply().is_none());
    assert!(e.get_forward().is_none());
}

fn survives(s: &str) {
    let e = Event::read_document(s).unwrap();
    let t = e.to_string().unwrap();
    let back = Event::read_document(&t).unwrap();
    assert_eq!(format!("{:?}", back), format!("{:?}", e));
}

#[test]
fn notices_survive_to_string_and_from() {
    survives(r#"{"time":1,"self_id":2,"post_type":"notice","group_id":3,"user_id":4,"notice_type":"group_recall","operator_id":5,"message_id":6}"#);
    survives(r#"{"time":1,"self_id":2,"post_type":"notice","group_id":3,"user_id":4,"notice_type":"group_ban","operator_id":5,"duration":60,"sub_type":"ban"}"#);
    survives(r#"{"time":1,"self_id":2,"post_type":"notice","group_id":3,"user_id":4,"notice_type":"notify","sub_type":"poke","target_id":5,"raw_info":[{"a":1},"b"]}"#);
    survives(r#"{"time":1,"self_id":2,"post_type":"notice","group_id":3,"user_id":4,"notice_type":"group_msg_emoji_like","likes":[{"emoji_id":"76","count":2}]}"#);
}

#[test]
fn heartbeat_survives_to_string_and_from() {
    survives(r#"{"time":1,"self_id":2,"post_type":"meta_event","meta_event_type":"heartbeat","status":{"online":true,"good":true},"interval":5000}"#);
}

#[test]
fn empty_group_message_survives_to_string_and_from() {
    let s = GROUP.replace(r#""message":[{"type":"text","data":{"text":"hi"}}]"#, r#""message":[]"#);
    survives(&s);
}

#[test]
fn kind_names_read_back() {
    for k in [PostType::Message, PostType::MessageSent, PostType::Notice, PostType::MetaEvent] {
        assert_eq!(PostType::from_name(&k.name().to_string()), Some(k));
    }
    for k in [SubType::Poke, SubType::Title, SubType::Normal, SubType::Friend, SubType::Ban, SubType::LiftBan, SubType::SetOn, SubType::UnSet] {
        assert_eq!(SubType::from_name(&k.name().to_string()), Some(k));
    }
    for k in [GroupRole::Owner, GroupRole::Admin, GroupRole::Member] {
        assert_eq!(GroupRole::from_name(&k.name().to_string()), Some(k));
    }
    assert_eq!(SubType::SetOn.name(), "set");
    assert_eq!(PostType::from_name(&"Message".to_string()), None);
}
