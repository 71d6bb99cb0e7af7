use onebot::json::{parse_json, JsonValue};
use onebot::message::{array_to_string, Message};

fn msg_of(text: &str) -> Message {
    Message::from_json(parse_json(text).expect("valid JSON"))
}

#[test]
fn text_segment_is_written_as_json() {
    let m = Message::new().text("Hello, World!");
    assert_eq!(m.to_string(), r#"[{"data":{"text":"Hello, World!"},"type":"text"}]"#);
}

#[test]
fn builders_append_in_order() {
    let m = Message::new().at("10001").face(12).image("a.png").rps().reply("77").forward("88");
    assert_eq!(
        m.to_string(),
        r#"[{"data":{"qq":"10001"},"type":"at"},{"data":{"id":"12"},"type":"face"},{"data":{"file":"a.png"},"type":"image"},{"type":"rps"},{"data":{"id":"77"},"type":"reply"},{"data":{"id":"88"},"type":"forward"}]"#
    );
    assert_eq!(m.msg.len(), 6);
}

#[test]
fn record_and_video_use_file() {
    let m = Message::new().record("v.amr").video("c.mp4");
    assert_eq!(
        m.to_string(),
        r#"[{"data":{"file":"v.amr"},"type":"record"},{"data":{"file":"c.mp4"},"type":"video"}]"#
    );
}

#[test]
fn from_text_is_one_text_segment() {
    assert_eq!(Message::from("hi").to_string(), Message::new().text("hi").to_string());
}

#[test]
fn text_round_trips_through_json() {
    let m = Message::new().text("quote \" and \\ and 中文").at("1");
    let back = msg_of(&m.to_string());
    assert_eq!(back.to_string(), m.to_string());
}

#[test]
fn from_json_of_non_array_is_empty() {
    let m = msg_of(r#"{"type":"text"}"#);
    assert_eq!(m.msg.len(), 0);
    assert_eq!(m.to_string(), "[]");
}

#[test]
fn get_reply_takes_first_reply_id_as_json_text() {
    let m = msg_of(r#"[{"type":"text","data":{"text":"x"}},{"type":"reply","data":{"id":"42"}},{"type":"reply","data":{"id":"43"}}]"#);
    assert_eq!(m.get_reply().unwrap().id, "\"42\"");
    let n = msg_of(r#"[{"type":"reply","data":{"id":7}}]"#);
    assert_eq!(n.get_reply().unwrap().id, "7");
    assert!(msg_of(r#"[{"type":"reply","data":{}}]"#).get_reply().is_none());
}

#[test]
fn get_forward_needs_content_and_id() {
    let m = msg_of(r#"[{"type":"forward","data":{"id":"1"}},{"type":"reply","data":{"id":"3","content":[]}},{"type":"forward","data":{"id":"2","content":[1]}}]"#);
    let f = m.get_forward().unwrap();
    assert_eq!(f.id, "\"2\"");
    match f.content {
        JsonValue::Array(a) => assert_eq!(a.len(), 1),
        _ => panic!("content should be the array"),
    }
    assert!(msg_of(r#"[{"type":"reply","data":{"id":"2","content":[]}}]"#).get_forward().is_none());
}

#[test]
fn get_first_text_skips_other_segments() {
    let m = msg_of(r#"[{"type":"at","data":{"qq":"1"}},{"type":"text","data":{"text":"first"}},{"type":"text","data":{"text":"second"}}]"#);
    assert_eq!(m.get_first_text(), Some("first".to_string()));
    assert_eq!(Message::new().at("1").get_first_text(), None);
}

#[test]
fn push_keeps_text_image_at_and_face_only() {
    let mut m = Message::new().text("a");
    let other = Message::new().reply("9").text("b").record("r").face(1).image("i").at("2").rps();
    m.push(&other);
    assert_eq!(
        m.to_string(),
        Message::new().text("a").text("b").face(1).image("i").at("2").to_string()
    );
}

#[test]
fn index_gives_segment() {
    let m = Message::new().text("a").at("5");
    match m.index(1) {
        JsonValue::Object(e) => assert_eq!(e.len(), 2),
        _ => panic!("segment should be an object"),
    }
}

#[test]
fn to_vec_and_to_array_copy_segments() {
    let m = Message::new().text("a");
    assert_eq!(m.to_vec().len(), 1);
    match m.to_array() {
        JsonValue::Array(a) => assert_eq!(a.len(), 1),
        _ => panic!("array expected"),
    }
}

#[test]
fn array_to_string_renders_each_kind() {
    let v = match parse_json(r#"[{"type":"text","data":{"text":"hi "}},{"type":"image","data":{"file":"x"}},{"type":"mface","data":{"emoji_id":"1","emoji_package_id":"2","key":"k","summary":"[笑]","url":"u"}},{"type":"at","data":{"qq":"123","name":"bob"}},{"type":"reply","data":{"id":"1"}},{"type":"json","data":{"data":"{}"}},{"type":"forward","data":{"id":"1"}},{"type":"video","data":{"file":"v"}},{"type":"face","data":{"id":"1"}}]"#) {
        Some(JsonValue::Array(a)) => a,
        _ => panic!("array expected"),
    };
    assert_eq!(array_to_string(&v), "hi [图片][笑]@bob(123) {}[转发消息][视频]");
}

#[test]
fn appended_text_becomes_the_first_text() {
    let m = Message::new().at("1").image("a.png");
    assert_eq!(m.get_first_text(), None);
    assert_eq!(m.text("hello").get_first_text(), Some("hello".to_string()));
}
