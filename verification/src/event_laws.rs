//! What `Event::to_string` writes, `Event::read_document` reads back: for each kind
//! of report, the document serde writes for the record is `canonical` (so
//! serde_json reads its text back to it) and is sorted into the same event.
use vstd::prelude::*;
use crate::event::{
    event_record_json, likes_json, parse_likes, spec_event, BaseEvent, BaseEventView, EchoEvent,
    EchoEventView, EmojiLike, EmojiLikeView, EventError, EventView, GroupAdminEvent,
    GroupAdminEventView, GroupBanEvent, GroupBanEventView, GroupCard, GroupCardView,
    GroupMsgEmojiLikeEvent, GroupMsgEmojiLikeEventView, GroupMsgEvent, GroupMsgEventView,
    GroupRecall, GroupRecallView, GroupRole, HeartbeatEvent, HeartbeatEventView, LifecycleEvent,
    LifecycleEventView, MessageType, MetaEventType, MsgSender, MsgSenderView, NoticeType, PokeEvent,
    PokeEventView, PostType, PrivateMsgEvent, PrivateMsgEventView, SubType, TitleEvent,
    TitleEventView,
};
use crate::json::{
    canonical, entry_get, json_get, json_opt_any, json_opt_i32, json_opt_i64, json_opt_text, keys_sorted,
    nests_within, normal_form, spec_json_text, text_lt, SpecJson,
};

verus! {

/// A document of plain values, nested in nothing.
pub open spec fn flat(v: SpecJson) -> bool {
    match v {
        SpecJson::Null | SpecJson::Bool(_) | SpecJson::Int(_) | SpecJson::Str(_) => true,
        _ => false,
    }
}

/// A flat document is normal and nests in nothing.
proof fn lemma_flat(v: SpecJson)
    requires
        flat(v),
    ensures
        normal_form(v),
        forall|d: nat| nests_within(v, d),
{
}

/// An object with sorted keys whose values are each normal and nest
/// less than 127 deep is `canonical`.
proof fn lemma_object_canonical(e: Seq<(Seq<char>, SpecJson)>)
    requires
        keys_sorted(e),
        forall|i: int| 0 <= i < e.len() ==> normal_form(#[trigger] e[i].1) && nests_within(e[i].1, 126),
    ensures
        canonical(SpecJson::Object(e)),
{
}

/// An optional document as serde writes it.
proof fn lemma_opt_any(d: Option<SpecJson>)
    requires
        d matches Some(v) ==> normal_form(v) && nests_within(v, 126),
    ensures
        normal_form(json_opt_any(d)),
        nests_within(json_opt_any(d), 126),
{
}

/// An array of documents that each nest within 125.
proof fn lemma_list(a: Seq<SpecJson>)
    requires
        forall|i: int| 0 <= i < a.len() ==> normal_form(#[trigger] a[i]) && nests_within(a[i], 125),
    ensures
        normal_form(SpecJson::Array(a)),
        nests_within(SpecJson::Array(a), 126),
{
}

/// A list of reactions written by serde reads back unchanged.
proof fn lemma_likes(l: Seq<EmojiLikeView>)
    ensures
        likes_json(l).len() == l.len(),
        forall|i: int| 0 <= i < l.len() ==> #[trigger] likes_json(l)[i] == EmojiLike::spec_json(l[i]),
        normal_form(SpecJson::Array(likes_json(l))),
        nests_within(SpecJson::Array(likes_json(l)), 126),
        parse_likes(likes_json(l)) == Some(l),
    decreases l.len(),
{
    if l.len() > 0 {
        let p = l.drop_last();
        lemma_likes(p);
        lemma_emoji_like(l.last());
        assert(likes_json(l).drop_last() == likes_json(p));
        assert(l == p.push(l.last()));
        assert forall|i: int| 0 <= i < l.len() implies #[trigger] likes_json(l)[i] == EmojiLike::spec_json(l[i]) by {
            if i < p.len() {
                assert(l[i] == p[i]);
            }
        }
        assert forall|i: int| 0 <= i < l.len() implies normal_form(#[trigger] likes_json(l)[i]) && nests_within(likes_json(l)[i], 125) by {
            lemma_emoji_like(l[i]);
        }
    }
}

/// The name serde writes for a kind reads back as that kind, for every
/// kind of report field.
pub proof fn law_kind_names_round_trip()
    ensures
        forall|k: PostType| PostType::spec_from_name(#[trigger] k.spec_name()) == Some(k),
        forall|k: MessageType| MessageType::spec_from_name(#[trigger] k.spec_name()) == Some(k),
        forall|k: MetaEventType| MetaEventType::spec_from_name(#[trigger] k.spec_name()) == Some(k),
        forall|k: NoticeType| NoticeType::spec_from_name(#[trigger] k.spec_name()) == Some(k),
        forall|k: SubType| SubType::spec_from_name(#[trigger] k.spec_name()) == Some(k),
        forall|k: GroupRole| GroupRole::spec_from_name(#[trigger] k.spec_name()) == Some(k),
{
    reveal_strlit("message");
    reveal_strlit("message_sent");
    reveal_strlit("notice");
    reveal_strlit("meta_event");
    assert("message"@.len() == 7 && "message_sent"@.len() == 12 && "notice"@.len() == 6
        && "meta_event"@.len() == 10);
    reveal_strlit("group");
    reveal_strlit("private");
    assert("group"@.len() == 5 && "private"@.len() == 7);
    reveal_strlit("heartbeat");
    reveal_strlit("lifecycle");
    assert("heartbeat"@[0] != "lifecycle"@[0]);
    reveal_strlit("group_card");
    reveal_strlit("group_msg_emoji_like");
    reveal_strlit("notify");
    reveal_strlit("group_recall");
    reveal_strlit("group_ban");
    reveal_strlit("group_admin");
    assert("group_card"@.len() == 10 && "group_msg_emoji_like"@.len() == 20 && "notify"@.len() == 6
        && "group_recall"@.len() == 12 && "group_ban"@.len() == 9 && "group_admin"@.len() == 11);
    reveal_strlit("poke");
    reveal_strlit("title");
    reveal_strlit("normal");
    reveal_strlit("friend");
    reveal_strlit("ban");
    reveal_strlit("lift_ban");
    reveal_strlit("set");
    reveal_strlit("unset");
    assert("poke"@.len() == 4 && "title"@.len() == 5 && "normal"@.len() == 6 && "friend"@.len() == 6
        && "ban"@.len() == 3 && "lift_ban"@.len() == 8 && "set"@.len() == 3 && "unset"@.len() == 5);
    assert("title"@[0] != "unset"@[0] && "normal"@[0] != "friend"@[0] && "ban"@[0] != "set"@[0]);
    reveal_strlit("owner");
    reveal_strlit("admin");
    reveal_strlit("member");
    assert("owner"@.len() == 5 && "admin"@.len() == 5 && "member"@.len() == 6);
    assert("owner"@[0] != "admin"@[0]);
}

/// The events that survive being written out and read back: each kind
/// whose header fields name that kind (the ones `Event::read_document` sorts by),
/// whose `sub_type` where it is free text names a kind of sub type, whose
/// free documents are normal and nest less than 126 deep (items of a list
/// less than 125), whose answer data is not `null`, and, for chat messages,
/// whose message is empty: the record holds its message as JSON text,
/// which reads back as no segment at all. An `Error` has no record.
pub open spec fn round_trips(e: EventView) -> bool {
    match e {
        EventView::LifecycleEvent(x) => {
            &&& x.post_type == PostType::MetaEvent.spec_name()
            &&& x.meta_event_type == MetaEventType::Lifecycle.spec_name()
            &&& SubType::spec_from_name(x.sub_type) is Some
        },
        EventView::HeartbeatEvent(x) => {
            &&& x.post_type == PostType::MetaEvent.spec_name()
            &&& x.meta_event_type == MetaEventType::Heartbeat.spec_name()
            &&& normal_form(x.status)
            &&& nests_within(x.status, 126)
        },
        EventView::GroupMsgEvent(x) => {
            &&& x.message.len() == 0
            &&& (x.post_type == PostType::MessageSent || (x.post_type == PostType::Message
                && x.message_type == MessageType::Group))
            &&& SubType::spec_from_name(x.sub_type) is Some
            &&& normal_form(x.raw)
            &&& nests_within(x.raw, 126)
        },
        EventView::PrivateMsgEvent(x) => {
            &&& x.message.len() == 0
            &&& x.post_type == PostType::Message
            &&& x.message_type == MessageType::Private.spec_name()
            &&& SubType::spec_from_name(x.sub_type) is Some
        },
        EventView::GroupRecall(x) => {
            &&& x.post_type == PostType::Notice.spec_name()
            &&& x.notice_type == NoticeType::GroupRecall.spec_name()
        },
        EventView::EchoEvent(x) => x.data matches Some(d) ==> d != SpecJson::Null && normal_form(d)
            && nests_within(d, 126),
        EventView::GroupCard(x) => x.post_type == PostType::Notice && x.notice_type
            == NoticeType::GroupCard,
        EventView::GroupMsgEmojiLikeEvent(x) => x.post_type == PostType::Notice && x.notice_type
            == NoticeType::GroupMsgEmojiLike,
        EventView::PokeEvent(x) => {
            &&& x.post_type == PostType::Notice
            &&& x.notice_type == NoticeType::Notify
            &&& x.sub_type == SubType::Poke
            &&& forall|i: int| 0 <= i < x.raw_info.len() ==> normal_form(#[trigger] x.raw_info[i])
                && nests_within(x.raw_info[i], 125)
        },
        EventView::TitleEvent(x) => x.post_type == PostType::Notice && x.notice_type
            == NoticeType::Notify && x.sub_type == SubType::Title,
        EventView::GroupBanEvent(x) => x.post_type == PostType::Notice && x.notice_type
            == NoticeType::GroupBan,
        EventView::GroupAdminEvent(x) => x.post_type == PostType::Notice && x.notice_type
            == NoticeType::GroupAdmin,
        EventView::Error(_) => false,
    }
}

/// What `Event::to_string` writes for an event, `Event::read_document` reads back
/// as the same event: the record serde writes is `canonical`, so
/// serde_json reads its text back to it, and it is sorted into the event
/// it came from. This holds of the events of [`round_trips`]; the others
/// are changed on the way (a chat message loses its segments) or not
/// sorted back at all.
pub proof fn law_event_round_trip(e: EventView)
    requires
        round_trips(e),
    ensures
        event_record_json(e) is Some,
        canonical(event_record_json(e)->0),
        spec_event(event_record_json(e)->0) == Ok::<EventView, EventError>(e),
{
    match e {
        EventView::LifecycleEvent(x) => lemma_lifecycle_event_round_trip(x),
        EventView::HeartbeatEvent(x) => lemma_heartbeat_event_round_trip(x),
        EventView::GroupMsgEvent(x) => lemma_group_msg_event_round_trip(x),
        EventView::PrivateMsgEvent(x) => lemma_private_msg_event_round_trip(x),
        EventView::GroupRecall(x) => lemma_group_recall_round_trip(x),
        EventView::EchoEvent(x) => lemma_echo_event_round_trip(x),
        EventView::GroupCard(x) => lemma_group_card_round_trip(x),
        EventView::GroupMsgEmojiLikeEvent(x) => lemma_group_msg_emoji_like_event_round_trip(x),
        EventView::PokeEvent(x) => lemma_poke_event_round_trip(x),
        EventView::TitleEvent(x) => lemma_title_event_round_trip(x),
        EventView::GroupBanEvent(x) => lemma_group_ban_event_round_trip(x),
        EventView::GroupAdminEvent(x) => lemma_group_admin_event_round_trip(x),
        EventView::Error(_) => {},
    }
}

/// The keys of the records and of the header: their lengths, a character
/// that tells apart any two of one length, and the order serde sorts them in.
proof fn lemma_keys()
    ensures
        "age"@.len() == 3,
        "area"@.len() == 4,
        "card"@.len() == 4,
        "card_new"@.len() == 8,
        "card_old"@.len() == 8,
        "count"@.len() == 5,
        "data"@.len() == 4,
        "duration"@.len() == 8,
        "echo"@.len() == 4,
        "emoji_id"@.len() == 8,
        "font"@.len() == 4,
        "group_id"@.len() == 8,
        "interval"@.len() == 8,
        "level"@.len() == 5,
        "likes"@.len() == 5,
        "message"@.len() == 7,
        "message_format"@.len() == 14,
        "message_id"@.len() == 10,
        "message_sent_type"@.len() == 17,
        "message_seq"@.len() == 11,
        "message_type"@.len() == 12,
        "meta_event_type"@.len() == 15,
        "nickname"@.len() == 8,
        "notice_type"@.len() == 11,
        "operator_id"@.len() == 11,
        "post_type"@.len() == 9,
        "raw"@.len() == 3,
        "raw_info"@.len() == 8,
        "raw_message"@.len() == 11,
        "real_id"@.len() == 7,
        "real_seq"@.len() == 8,
        "retcode"@.len() == 7,
        "role"@.len() == 4,
        "self_id"@.len() == 7,
        "sender"@.len() == 6,
        "sex"@.len() == 3,
        "status"@.len() == 6,
        "sub_type"@.len() == 8,
        "target_id"@.len() == 9,
        "time"@.len() == 4,
        "title"@.len() == 5,
        "user_id"@.len() == 7,
        "wording"@.len() == 7,
        "age"@[0] != "raw"@[0],
        "age"@[0] != "sex"@[0],
        "area"@[0] != "card"@[0],
        "area"@[0] != "data"@[0],
        "area"@[0] != "echo"@[0],
        "area"@[0] != "font"@[0],
        "area"@[0] != "role"@[0],
        "area"@[0] != "time"@[0],
        "card"@[0] != "data"@[0],
        "card"@[0] != "echo"@[0],
        "card"@[0] != "font"@[0],
        "card"@[0] != "role"@[0],
        "card"@[0] != "time"@[0],
        "card_new"@[5] != "card_old"@[5],
        "card_new"@[0] != "duration"@[0],
        "card_new"@[0] != "emoji_id"@[0],
        "card_new"@[0] != "group_id"@[0],
        "card_new"@[0] != "interval"@[0],
        "card_new"@[0] != "nickname"@[0],
        "card_new"@[0] != "raw_info"@[0],
        "card_new"@[0] != "real_seq"@[0],
        "card_new"@[0] != "sub_type"@[0],
        "card_old"@[0] != "duration"@[0],
        "card_old"@[0] != "emoji_id"@[0],
        "card_old"@[0] != "group_id"@[0],
        "card_old"@[0] != "interval"@[0],
        "card_old"@[0] != "nickname"@[0],
        "card_old"@[0] != "raw_info"@[0],
        "card_old"@[0] != "real_seq"@[0],
        "card_old"@[0] != "sub_type"@[0],
        "count"@[0] != "level"@[0],
        "count"@[0] != "likes"@[0],
        "count"@[0] != "title"@[0],
        "data"@[0] != "echo"@[0],
        "data"@[0] != "font"@[0],
        "data"@[0] != "role"@[0],
        "data"@[0] != "time"@[0],
        "duration"@[0] != "emoji_id"@[0],
        "duration"@[0] != "group_id"@[0],
        "duration"@[0] != "interval"@[0],
        "duration"@[0] != "nickname"@[0],
        "duration"@[0] != "raw_info"@[0],
        "duration"@[0] != "real_seq"@[0],
        "duration"@[0] != "sub_type"@[0],
        "echo"@[0] != "font"@[0],
        "echo"@[0] != "role"@[0],
        "echo"@[0] != "time"@[0],
        "emoji_id"@[0] != "group_id"@[0],
        "emoji_id"@[0] != "interval"@[0],
        "emoji_id"@[0] != "nickname"@[0],
        "emoji_id"@[0] != "raw_info"@[0],
        "emoji_id"@[0] != "real_seq"@[0],
        "emoji_id"@[0] != "sub_type"@[0],
        "font"@[0] != "role"@[0],
        "font"@[0] != "time"@[0],
        "group_id"@[0] != "interval"@[0],
        "group_id"@[0] != "nickname"@[0],
        "group_id"@[0] != "raw_info"@[0],
        "group_id"@[0] != "real_seq"@[0],
        "group_id"@[0] != "sub_type"@[0],
        "interval"@[0] != "nickname"@[0],
        "interval"@[0] != "raw_info"@[0],
        "interval"@[0] != "real_seq"@[0],
        "interval"@[0] != "sub_type"@[0],
        "level"@[1] != "likes"@[1],
        "level"@[0] != "title"@[0],
        "likes"@[0] != "title"@[0],
        "message"@[0] != "real_id"@[0],
        "message"@[0] != "retcode"@[0],
        "message"@[0] != "self_id"@[0],
        "message"@[0] != "user_id"@[0],
        "message"@[0] != "wording"@[0],
        "message_seq"@[0] != "notice_type"@[0],
        "message_seq"@[0] != "operator_id"@[0],
        "message_seq"@[0] != "raw_message"@[0],
        "nickname"@[0] != "raw_info"@[0],
        "nickname"@[0] != "real_seq"@[0],
        "nickname"@[0] != "sub_type"@[0],
        "notice_type"@[0] != "operator_id"@[0],
        "notice_type"@[0] != "raw_message"@[0],
        "operator_id"@[0] != "raw_message"@[0],
        "post_type"@[0] != "target_id"@[0],
        "raw"@[0] != "sex"@[0],
        "raw_info"@[1] != "real_seq"@[1],
        "raw_info"@[0] != "sub_type"@[0],
        "real_id"@[2] != "retcode"@[2],
        "real_id"@[0] != "self_id"@[0],
        "real_id"@[0] != "user_id"@[0],
        "real_id"@[0] != "wording"@[0],
        "real_seq"@[0] != "sub_type"@[0],
        "retcode"@[0] != "self_id"@[0],
        "retcode"@[0] != "user_id"@[0],
        "retcode"@[0] != "wording"@[0],
        "role"@[0] != "time"@[0],
        "self_id"@[0] != "user_id"@[0],
        "self_id"@[0] != "wording"@[0],
        "sender"@[1] != "status"@[1],
        "user_id"@[0] != "wording"@[0],
        text_lt("meta_event_type"@, "post_type"@),
        text_lt("post_type"@, "self_id"@),
        text_lt("self_id"@, "sub_type"@),
        text_lt("sub_type"@, "time"@),
        text_lt("interval"@, "meta_event_type"@),
        text_lt("self_id"@, "status"@),
        text_lt("status"@, "time"@),
        text_lt("group_id"@, "message_id"@),
        text_lt("message_id"@, "notice_type"@),
        text_lt("notice_type"@, "operator_id"@),
        text_lt("operator_id"@, "post_type"@),
        text_lt("self_id"@, "time"@),
        text_lt("time"@, "user_id"@),
        text_lt("card_new"@, "card_old"@),
        text_lt("card_old"@, "group_id"@),
        text_lt("group_id"@, "notice_type"@),
        text_lt("notice_type"@, "post_type"@),
        text_lt("group_id"@, "likes"@),
        text_lt("likes"@, "notice_type"@),
        text_lt("post_type"@, "raw_info"@),
        text_lt("raw_info"@, "self_id"@),
        text_lt("sub_type"@, "target_id"@),
        text_lt("target_id"@, "time"@),
        text_lt("time"@, "title"@),
        text_lt("title"@, "user_id"@),
        text_lt("duration"@, "group_id"@),
        text_lt("data"@, "echo"@),
        text_lt("echo"@, "message"@),
        text_lt("message"@, "retcode"@),
        text_lt("retcode"@, "status"@),
        text_lt("status"@, "wording"@),
        text_lt("font"@, "group_id"@),
        text_lt("group_id"@, "message"@),
        text_lt("message"@, "message_format"@),
        text_lt("message_format"@, "message_id"@),
        text_lt("message_id"@, "message_sent_type"@),
        text_lt("message_sent_type"@, "message_seq"@),
        text_lt("message_seq"@, "message_type"@),
        text_lt("message_type"@, "post_type"@),
        text_lt("post_type"@, "raw"@),
        text_lt("raw"@, "raw_message"@),
        text_lt("raw_message"@, "real_id"@),
        text_lt("real_id"@, "real_seq"@),
        text_lt("real_seq"@, "self_id"@),
        text_lt("self_id"@, "sender"@),
        text_lt("sender"@, "sub_type"@),
        text_lt("font"@, "message"@),
        text_lt("message_id"@, "message_seq"@),
        text_lt("post_type"@, "raw_message"@),
        text_lt("real_id"@, "self_id"@),
        text_lt("count"@, "emoji_id"@),
        text_lt("age"@, "area"@),
        text_lt("area"@, "card"@),
        text_lt("card"@, "level"@),
        text_lt("level"@, "nickname"@),
        text_lt("nickname"@, "role"@),
        text_lt("role"@, "sex"@),
        text_lt("sex"@, "title"@),
{
    reveal_strlit("age");
    reveal_strlit("area");
    reveal_strlit("card");
    reveal_strlit("card_new");
    reveal_strlit("card_old");
    reveal_strlit("count");
    reveal_strlit("data");
    reveal_strlit("duration");
    reveal_strlit("echo");
    reveal_strlit("emoji_id");
    reveal_strlit("font");
    reveal_strlit("group_id");
    reveal_strlit("interval");
    reveal_strlit("level");
    reveal_strlit("likes");
    reveal_strlit("message");
    reveal_strlit("message_format");
    reveal_strlit("message_id");
    reveal_strlit("message_sent_type");
    reveal_strlit("message_seq");
    reveal_strlit("message_type");
    reveal_strlit("meta_event_type");
    reveal_strlit("nickname");
    reveal_strlit("notice_type");
    reveal_strlit("operator_id");
    reveal_strlit("post_type");
    reveal_strlit("raw");
    reveal_strlit("raw_info");
    reveal_strlit("raw_message");
    reveal_strlit("real_id");
    reveal_strlit("real_seq");
    reveal_strlit("retcode");
    reveal_strlit("role");
    reveal_strlit("self_id");
    reveal_strlit("sender");
    reveal_strlit("sex");
    reveal_strlit("status");
    reveal_strlit("sub_type");
    reveal_strlit("target_id");
    reveal_strlit("time");
    reveal_strlit("title");
    reveal_strlit("user_id");
    reveal_strlit("wording");
    reveal_with_fuel(text_lt, 20);
}

/// Where each field of an [`EmojiLike`] record stands in the document serde writes.
#[verifier::spinoff_prover]
proof fn lemma_emoji_like_fields(x: EmojiLikeView)
    ensures
        json_get(EmojiLike::spec_json(x), "count"@) == Some(SpecJson::Int(x.count as i64)),
        json_get(EmojiLike::spec_json(x), "emoji_id"@) == Some(SpecJson::Str(x.emoji_id)),
{
    lemma_keys();
    reveal_with_fuel(entry_get, 3);
}

/// An [`EmojiLike`] record written by serde reads back unchanged, and its document
/// is normal and nests within 125.
proof fn lemma_emoji_like(x: EmojiLikeView)
    ensures
        normal_form(EmojiLike::spec_json(x)),
        nests_within(EmojiLike::spec_json(x), 125),
        EmojiLike::spec_parse(EmojiLike::spec_json(x)) == Some(x),
{
    lemma_keys();
    let j = EmojiLike::spec_json(x);
    let e = match j {
        SpecJson::Object(e) => e,
        _ => Seq::empty(),
    };
    assert(keys_sorted(e));
    assert forall|i: int| 0 <= i < e.len() implies normal_form(#[trigger] e[i].1) && nests_within(e[i].1, 124) by {
        lemma_flat(e[i].1);
    }
    lemma_emoji_like_fields(x);
}

/// Where each field of a [`MsgSender`] record stands in the document serde writes.
#[verifier::spinoff_prover]
proof fn lemma_msg_sender_fields(x: MsgSenderView)
    ensures
        json_get(MsgSender::spec_json(x), "age"@) == Some(json_opt_i32(x.age)),
        json_get(MsgSender::spec_json(x), "area"@) == Some(json_opt_text(x.area)),
        json_get(MsgSender::spec_json(x), "card"@) == Some(json_opt_text(x.card)),
        json_get(MsgSender::spec_json(x), "level"@) == Some(json_opt_text(x.level)),
        json_get(MsgSender::spec_json(x), "nickname"@) == Some(SpecJson::Str(x.nickname)),
        json_get(MsgSender::spec_json(x), "role"@) == Some(GroupRole::spec_json_opt(x.role)),
        json_get(MsgSender::spec_json(x), "sex"@) == Some(json_opt_text(x.sex)),
        json_get(MsgSender::spec_json(x), "title"@) == Some(json_opt_text(x.title)),
        json_get(MsgSender::spec_json(x), "user_id"@) == Some(SpecJson::Int(x.user_id as i64)),
{
    lemma_keys();
    reveal_with_fuel(entry_get, 10);
}

/// A [`MsgSender`] record written by serde reads back unchanged, and its document
/// is normal and nests within 126.
proof fn lemma_msg_sender(x: MsgSenderView)
    ensures
        normal_form(MsgSender::spec_json(x)),
        nests_within(MsgSender::spec_json(x), 126),
        MsgSender::spec_parse(MsgSender::spec_json(x)) == Some(x),
{
    lemma_keys();
    law_kind_names_round_trip();
    let j = MsgSender::spec_json(x);
    let e = match j {
        SpecJson::Object(e) => e,
        _ => Seq::empty(),
    };
    assert(keys_sorted(e));
    assert forall|i: int| 0 <= i < e.len() implies normal_form(#[trigger] e[i].1) && nests_within(e[i].1, 125) by {
        lemma_flat(e[i].1);
    }
    lemma_msg_sender_fields(x);
}

/// Where each field of a [`LifecycleEvent`] record stands in the document serde writes.
#[verifier::spinoff_prover]
proof fn lemma_lifecycle_event_fields(x: LifecycleEventView)
    ensures
        json_get(LifecycleEvent::spec_json(x), "meta_event_type"@) == Some(SpecJson::Str(x.meta_event_type)),
        json_get(LifecycleEvent::spec_json(x), "post_type"@) == Some(SpecJson::Str(x.post_type)),
        json_get(LifecycleEvent::spec_json(x), "self_id"@) == Some(SpecJson::Int(x.self_id as i64)),
        json_get(LifecycleEvent::spec_json(x), "sub_type"@) == Some(SpecJson::Str(x.sub_type)),
        json_get(LifecycleEvent::spec_json(x), "time"@) == Some(SpecJson::Int(x.time as i64)),
        json_get(LifecycleEvent::spec_json(x), "message_type"@) is None,
        json_get(LifecycleEvent::spec_json(x), "notice_type"@) is None,
        json_get(LifecycleEvent::spec_json(x), "echo"@) is None,
        json_get(LifecycleEvent::spec_json(x), "data"@) is None,
{
    lemma_keys();
    reveal_with_fuel(entry_get, 6);
}

/// A [`LifecycleEvent`] written out is `canonical` and is sorted back into the same
/// event.
#[verifier::spinoff_prover]
proof fn lemma_lifecycle_event_round_trip(x: LifecycleEventView)
    requires
        x.post_type == PostType::MetaEvent.spec_name(),
        x.meta_event_type == MetaEventType::Lifecycle.spec_name(),
        SubType::spec_from_name(x.sub_type) is Some,
    ensures
        canonical(LifecycleEvent::spec_json(x)),
        spec_event(LifecycleEvent::spec_json(x)) == Ok::<EventView, EventError>(EventView::LifecycleEvent(x)),
{
    lemma_keys();
    law_kind_names_round_trip();
    let j = LifecycleEvent::spec_json(x);
    let e = match j {
        SpecJson::Object(e) => e,
        _ => Seq::empty(),
    };
    assert(keys_sorted(e));
    assert forall|i: int| 0 <= i < e.len() implies normal_form(#[trigger] e[i].1) && nests_within(e[i].1, 126) by {
        lemma_flat(e[i].1);
    }
    lemma_object_canonical(e);
    lemma_lifecycle_event_fields(x);
    assert(BaseEvent::spec_parse(j) == Some(BaseEventView { post_type: Some(PostType::MetaEvent), message_type: None, meta_event_type: Some(MetaEventType::Lifecycle), notice_type: None, sub_type: SubType::spec_from_name(x.sub_type), echo: None, data: None }));
    assert(LifecycleEvent::spec_parse(j) == Some(x));
}

/// Where each field of a [`HeartbeatEvent`] record stands in the document serde writes.
#[verifier::spinoff_prover]
proof fn lemma_heartbeat_event_fields(x: HeartbeatEventView)
    ensures
        json_get(HeartbeatEvent::spec_json(x), "interval"@) == Some(SpecJson::Int(x.interval as i64)),
        json_get(HeartbeatEvent::spec_json(x), "meta_event_type"@) == Some(SpecJson::Str(x.meta_event_type)),
        json_get(HeartbeatEvent::spec_json(x), "post_type"@) == Some(SpecJson::Str(x.post_type)),
        json_get(HeartbeatEvent::spec_json(x), "self_id"@) == Some(SpecJson::Int(x.self_id as i64)),
        json_get(HeartbeatEvent::spec_json(x), "status"@) == Some(x.status),
        json_get(HeartbeatEvent::spec_json(x), "time"@) == Some(SpecJson::Int(x.time as i64)),
        json_get(HeartbeatEvent::spec_json(x), "message_type"@) is None,
        json_get(HeartbeatEvent::spec_json(x), "notice_type"@) is None,
        json_get(HeartbeatEvent::spec_json(x), "sub_type"@) is None,
        json_get(HeartbeatEvent::spec_json(x), "echo"@) is None,
        json_get(HeartbeatEvent::spec_json(x), "data"@) is None,
{
    lemma_keys();
    reveal_with_fuel(entry_get, 7);
}

/// A [`HeartbeatEvent`] written out is `canonical` and is sorted back into the same
/// event.
#[verifier::spinoff_prover]
proof fn lemma_heartbeat_event_round_trip(x: HeartbeatEventView)
    requires
        x.post_type == PostType::MetaEvent.spec_name(),
        x.meta_event_type == MetaEventType::Heartbeat.spec_name(),
        normal_form(x.status),
        nests_within(x.status, 126),
    ensures
        canonical(HeartbeatEvent::spec_json(x)),
        spec_event(HeartbeatEvent::spec_json(x)) == Ok::<EventView, EventError>(EventView::HeartbeatEvent(x)),
{
    lemma_keys();
    law_kind_names_round_trip();
    let j = HeartbeatEvent::spec_json(x);
    let e = match j {
        SpecJson::Object(e) => e,
        _ => Seq::empty(),
    };
    assert(keys_sorted(e));
    assert forall|i: int| 0 <= i < e.len() implies normal_form(#[trigger] e[i].1) && nests_within(e[i].1, 126) by {
        if i != 4 {
            lemma_flat(e[i].1);
        }
    }
    lemma_object_canonical(e);
    lemma_heartbeat_event_fields(x);
    assert(BaseEvent::spec_parse(j) == Some(BaseEventView { post_type: Some(PostType::MetaEvent), message_type: None, meta_event_type: Some(MetaEventType::Heartbeat), notice_type: None, sub_type: None, echo: None, data: None }));
    assert(HeartbeatEvent::spec_parse(j) == Some(x));
}

/// Where each field of a [`GroupRecall`] record stands in the document serde writes.
#[verifier::spinoff_prover]
proof fn lemma_group_recall_fields(x: GroupRecallView)
    ensures
        json_get(GroupRecall::spec_json(x), "group_id"@) == Some(SpecJson::Int(x.group_id as i64)),
        json_get(GroupRecall::spec_json(x), "message_id"@) == Some(SpecJson::Int(x.message_id as i64)),
        json_get(GroupRecall::spec_json(x), "notice_type"@) == Some(SpecJson::Str(x.notice_type)),
        json_get(GroupRecall::spec_json(x), "operator_id"@) == Some(SpecJson::Int(x.operator_id as i64)),
        json_get(GroupRecall::spec_json(x), "post_type"@) == Some(SpecJson::Str(x.post_type)),
        json_get(GroupRecall::spec_json(x), "self_id"@) == Some(SpecJson::Int(x.self_id as i64)),
        json_get(GroupRecall::spec_json(x), "time"@) == Some(SpecJson::Int(x.time as i64)),
        json_get(GroupRecall::spec_json(x), "user_id"@) == Some(SpecJson::Int(x.user_id as i64)),
        json_get(GroupRecall::spec_json(x), "message_type"@) is None,
        json_get(GroupRecall::spec_json(x), "meta_event_type"@) is None,
        json_get(GroupRecall::spec_json(x), "sub_type"@) is None,
        json_get(GroupRecall::spec_json(x), "echo"@) is None,
        json_get(GroupRecall::spec_json(x), "data"@) is None,
{
    lemma_keys();
    reveal_with_fuel(entry_get, 9);
}

/// A [`GroupRecall`] written out is `canonical` and is sorted back into the same
/// event.
#[verifier::spinoff_prover]
proof fn lemma_group_recall_round_trip(x: GroupRecallView)
    requires
        x.post_type == PostType::Notice.spec_name(),
        x.notice_type == NoticeType::GroupRecall.spec_name(),
    ensures
        canonical(GroupRecall::spec_json(x)),
        spec_event(GroupRecall::spec_json(x)) == Ok::<EventView, EventError>(EventView::GroupRecall(x)),
{
    lemma_keys();
    law_kind_names_round_trip();
    let j = GroupRecall::spec_json(x);
    let e = match j {
        SpecJson::Object(e) => e,
        _ => Seq::empty(),
    };
    assert(keys_sorted(e));
    assert forall|i: int| 0 <= i < e.len() implies normal_form(#[trigger] e[i].1) && nests_within(e[i].1, 126) by {
        lemma_flat(e[i].1);
    }
    lemma_object_canonical(e);
    lemma_group_recall_fields(x);
    assert(BaseEvent::spec_parse(j) == Some(BaseEventView { post_type: Some(PostType::Notice), message_type: None, meta_event_type: None, notice_type: Some(NoticeType::GroupRecall), sub_type: None, echo: None, data: None }));
    assert(GroupRecall::spec_parse(j) == Some(x));
}

/// Where each field of a [`GroupCard`] record stands in the document serde writes.
#[verifier::spinoff_prover]
proof fn lemma_group_card_fields(x: GroupCardView)
    ensures
        json_get(GroupCard::spec_json(x), "card_new"@) == Some(SpecJson::Str(x.card_new)),
        json_get(GroupCard::spec_json(x), "card_old"@) == Some(SpecJson::Str(x.card_old)),
        json_get(GroupCard::spec_json(x), "group_id"@) == Some(SpecJson::Int(x.group_id as i64)),
        json_get(GroupCard::spec_json(x), "notice_type"@) == Some(SpecJson::Str(x.notice_type.spec_name())),
        json_get(GroupCard::spec_json(x), "post_type"@) == Some(SpecJson::Str(x.post_type.spec_name())),
        json_get(GroupCard::spec_json(x), "self_id"@) == Some(SpecJson::Int(x.self_id as i64)),
        json_get(GroupCard::spec_json(x), "time"@) == Some(SpecJson::Int(x.time as i64)),
        json_get(GroupCard::spec_json(x), "user_id"@) == Some(SpecJson::Int(x.user_id as i64)),
        json_get(GroupCard::spec_json(x), "message_type"@) is None,
        json_get(GroupCard::spec_json(x), "meta_event_type"@) is None,
        json_get(GroupCard::spec_json(x), "sub_type"@) is None,
        json_get(GroupCard::spec_json(x), "echo"@) is None,
        json_get(GroupCard::spec_json(x), "data"@) is None,
{
    lemma_keys();
    reveal_with_fuel(entry_get, 9);
}

/// A [`GroupCard`] written out is `canonical` and is sorted back into the same
/// event.
#[verifier::spinoff_prover]
proof fn lemma_group_card_round_trip(x: GroupCardView)
    requires
        x.post_type == PostType::Notice,
        x.notice_type == NoticeType::GroupCard,
    ensures
        canonical(GroupCard::spec_json(x)),
        spec_event(GroupCard::spec_json(x)) == Ok::<EventView, EventError>(EventView::GroupCard(x)),
{
    lemma_keys();
    law_kind_names_round_trip();
    let j = GroupCard::spec_json(x);
    let e = match j {
        SpecJson::Object(e) => e,
        _ => Seq::empty(),
    };
    assert(keys_sorted(e));
    assert forall|i: int| 0 <= i < e.len() implies normal_form(#[trigger] e[i].1) && nests_within(e[i].1, 126) by {
        lemma_flat(e[i].1);
    }
    lemma_object_canonical(e);
    lemma_group_card_fields(x);
    assert(BaseEvent::spec_parse(j) == Some(BaseEventView { post_type: Some(PostType::Notice), message_type: None, meta_event_type: None, notice_type: Some(NoticeType::GroupCard), sub_type: None, echo: None, data: None }));
    assert(GroupCard::spec_parse(j) == Some(x));
}

/// Where each field of a [`GroupMsgEmojiLikeEvent`] record stands in the document serde writes.
#[verifier::spinoff_prover]
proof fn lemma_group_msg_emoji_like_event_fields(x: GroupMsgEmojiLikeEventView)
    ensures
        json_get(GroupMsgEmojiLikeEvent::spec_json(x), "group_id"@) == Some(SpecJson::Int(x.group_id as i64)),
        json_get(GroupMsgEmojiLikeEvent::spec_json(x), "likes"@) == Some(SpecJson::Array(likes_json(x.likes))),
        json_get(GroupMsgEmojiLikeEvent::spec_json(x), "notice_type"@) == Some(SpecJson::Str(x.notice_type.spec_name())),
        json_get(GroupMsgEmojiLikeEvent::spec_json(x), "post_type"@) == Some(SpecJson::Str(x.post_type.spec_name())),
        json_get(GroupMsgEmojiLikeEvent::spec_json(x), "self_id"@) == Some(SpecJson::Int(x.self_id as i64)),
        json_get(GroupMsgEmojiLikeEvent::spec_json(x), "time"@) == Some(SpecJson::Int(x.time as i64)),
        json_get(GroupMsgEmojiLikeEvent::spec_json(x), "user_id"@) == Some(SpecJson::Int(x.user_id as i64)),
        json_get(GroupMsgEmojiLikeEvent::spec_json(x), "message_type"@) is None,
        json_get(GroupMsgEmojiLikeEvent::spec_json(x), "meta_event_type"@) is None,
        json_get(GroupMsgEmojiLikeEvent::spec_json(x), "sub_type"@) is None,
        json_get(GroupMsgEmojiLikeEvent::spec_json(x), "echo"@) is None,
        json_get(GroupMsgEmojiLikeEvent::spec_json(x), "data"@) is None,
{
    lemma_keys();
    reveal_with_fuel(entry_get, 8);
}

/// A [`GroupMsgEmojiLikeEvent`] written out is `canonical` and is sorted back into the same
/// event.
#[verifier::spinoff_prover]
proof fn lemma_group_msg_emoji_like_event_round_trip(x: GroupMsgEmojiLikeEventView)
    requires
        x.post_type == PostType::Notice,
        x.notice_type == NoticeType::GroupMsgEmojiLike,
    ensures
        canonical(GroupMsgEmojiLikeEvent::spec_json(x)),
        spec_event(GroupMsgEmojiLikeEvent::spec_json(x)) == Ok::<EventView, EventError>(EventView::GroupMsgEmojiLikeEvent(x)),
{
    lemma_keys();
    law_kind_names_round_trip();
    let j = GroupMsgEmojiLikeEvent::spec_json(x);
    let e = match j {
        SpecJson::Object(e) => e,
        _ => Seq::empty(),
    };
    assert(keys_sorted(e));
    lemma_likes(x.likes);
    assert forall|i: int| 0 <= i < e.len() implies normal_form(#[trigger] e[i].1) && nests_within(e[i].1, 126) by {
        if i != 1 {
            lemma_flat(e[i].1);
        }
    }
    lemma_object_canonical(e);
    lemma_group_msg_emoji_like_event_fields(x);
    assert(BaseEvent::spec_parse(j) == Some(BaseEventView { post_type: Some(PostType::Notice), message_type: None, meta_event_type: None, notice_type: Some(NoticeType::GroupMsgEmojiLike), sub_type: None, echo: None, data: None }));
    assert(GroupMsgEmojiLikeEvent::spec_parse(j) == Some(x));
}

/// Where each field of a [`PokeEvent`] record stands in the document serde writes.
#[verifier::spinoff_prover]
proof fn lemma_poke_event_fields(x: PokeEventView)
    ensures
        json_get(PokeEvent::spec_json(x), "group_id"@) == Some(SpecJson::Int(x.group_id as i64)),
        json_get(PokeEvent::spec_json(x), "notice_type"@) == Some(SpecJson::Str(x.notice_type.spec_name())),
        json_get(PokeEvent::spec_json(x), "post_type"@) == Some(SpecJson::Str(x.post_type.spec_name())),
        json_get(PokeEvent::spec_json(x), "raw_info"@) == Some(SpecJson::Array(x.raw_info)),
        json_get(PokeEvent::spec_json(x), "self_id"@) == Some(SpecJson::Int(x.self_id as i64)),
        json_get(PokeEvent::spec_json(x), "sub_type"@) == Some(SpecJson::Str(x.sub_type.spec_name())),
        json_get(PokeEvent::spec_json(x), "target_id"@) == Some(SpecJson::Int(x.target_id as i64)),
        json_get(PokeEvent::spec_json(x), "time"@) == Some(SpecJson::Int(x.time as i64)),
        json_get(PokeEvent::spec_json(x), "user_id"@) == Some(SpecJson::Int(x.user_id as i64)),
        json_get(PokeEvent::spec_json(x), "message_type"@) is None,
        json_get(PokeEvent::spec_json(x), "meta_event_type"@) is None,
        json_get(PokeEvent::spec_json(x), "echo"@) is None,
        json_get(PokeEvent::spec_json(x), "data"@) is None,
{
    lemma_keys();
    reveal_with_fuel(entry_get, 10);
}

/// A [`PokeEvent`] written out is `canonical` and is sorted back into the same
/// event.
#[verifier::spinoff_prover]
proof fn lemma_poke_event_round_trip(x: PokeEventView)
    requires
        x.post_type == PostType::Notice,
        x.notice_type == NoticeType::Notify,
        x.sub_type == SubType::Poke,
        forall|i: int| 0 <= i < x.raw_info.len() ==> normal_form(#[trigger] x.raw_info[i]) && nests_within(x.raw_info[i], 125),
    ensures
        canonical(PokeEvent::spec_json(x)),
        spec_event(PokeEvent::spec_json(x)) == Ok::<EventView, EventError>(EventView::PokeEvent(x)),
{
    lemma_keys();
    law_kind_names_round_trip();
    let j = PokeEvent::spec_json(x);
    let e = match j {
        SpecJson::Object(e) => e,
        _ => Seq::empty(),
    };
    assert(keys_sorted(e));
    lemma_list(x.raw_info);
    assert forall|i: int| 0 <= i < e.len() implies normal_form(#[trigger] e[i].1) && nests_within(e[i].1, 126) by {
        if i != 3 {
            lemma_flat(e[i].1);
        }
    }
    lemma_object_canonical(e);
    lemma_poke_event_fields(x);
    assert(BaseEvent::spec_parse(j) == Some(BaseEventView { post_type: Some(PostType::Notice), message_type: None, meta_event_type: None, notice_type: Some(NoticeType::Notify), sub_type: Some(SubType::Poke), echo: None, data: None }));
    assert(PokeEvent::spec_parse(j) == Some(x));
}

/// Where each field of a [`TitleEvent`] record stands in the document serde writes.
#[verifier::spinoff_prover]
proof fn lemma_title_event_fields(x: TitleEventView)
    ensures
        json_get(TitleEvent::spec_json(x), "group_id"@) == Some(SpecJson::Int(x.group_id as i64)),
        json_get(TitleEvent::spec_json(x), "notice_type"@) == Some(SpecJson::Str(x.notice_type.spec_name())),
        json_get(TitleEvent::spec_json(x), "post_type"@) == Some(SpecJson::Str(x.post_type.spec_name())),
        json_get(TitleEvent::spec_json(x), "self_id"@) == Some(SpecJson::Int(x.self_id as i64)),
        json_get(TitleEvent::spec_json(x), "sub_type"@) == Some(SpecJson::Str(x.sub_type.spec_name())),
        json_get(TitleEvent::spec_json(x), "time"@) == Some(SpecJson::Int(x.time as i64)),
        json_get(TitleEvent::spec_json(x), "title"@) == Some(SpecJson::Str(x.title)),
        json_get(TitleEvent::spec_json(x), "user_id"@) == Some(SpecJson::Int(x.user_id as i64)),
        json_get(TitleEvent::spec_json(x), "message_type"@) is None,
        json_get(TitleEvent::spec_json(x), "meta_event_type"@) is None,
        json_get(TitleEvent::spec_json(x), "echo"@) is None,
        json_get(TitleEvent::spec_json(x), "data"@) is None,
{
    lemma_keys();
    reveal_with_fuel(entry_get, 9);
}

/// A [`TitleEvent`] written out is `canonical` and is sorted back into the same
/// event.
#[verifier::spinoff_prover]
proof fn lemma_title_event_round_trip(x: TitleEventView)
    requires
        x.post_type == PostType::Notice,
        x.notice_type == NoticeType::Notify,
        x.sub_type == SubType::Title,
    ensures
        canonical(TitleEvent::spec_json(x)),
        spec_event(TitleEvent::spec_json(x)) == Ok::<EventView, EventError>(EventView::TitleEvent(x)),
{
    lemma_keys();
    law_kind_names_round_trip();
    let j = TitleEvent::spec_json(x);
    let e = match j {
        SpecJson::Object(e) => e,
        _ => Seq::empty(),
    };
    assert(keys_sorted(e));
    assert forall|i: int| 0 <= i < e.len() implies normal_form(#[trigger] e[i].1) && nests_within(e[i].1, 126) by {
        lemma_flat(e[i].1);
    }
    lemma_object_canonical(e);
    lemma_title_event_fields(x);
    assert(BaseEvent::spec_parse(j) == Some(BaseEventView { post_type: Some(PostType::Notice), message_type: None, meta_event_type: None, notice_type: Some(NoticeType::Notify), sub_type: Some(SubType::Title), echo: None, data: None }));
    assert(TitleEvent::spec_parse(j) == Some(x));
}

/// Where each field of a [`GroupBanEvent`] record stands in the document serde writes.
#[verifier::spinoff_prover]
proof fn lemma_group_ban_event_fields(x: GroupBanEventView)
    ensures
        json_get(GroupBanEvent::spec_json(x), "duration"@) == Some(SpecJson::Int(x.duration as i64)),
        json_get(GroupBanEvent::spec_json(x), "group_id"@) == Some(SpecJson::Int(x.group_id as i64)),
        json_get(GroupBanEvent::spec_json(x), "notice_type"@) == Some(SpecJson::Str(x.notice_type.spec_name())),
        json_get(GroupBanEvent::spec_json(x), "operator_id"@) == Some(SpecJson::Int(x.operator_id as i64)),
        json_get(GroupBanEvent::spec_json(x), "post_type"@) == Some(SpecJson::Str(x.post_type.spec_name())),
        json_get(GroupBanEvent::spec_json(x), "self_id"@) == Some(SpecJson::Int(x.self_id as i64)),
        json_get(GroupBanEvent::spec_json(x), "sub_type"@) == Some(SpecJson::Str(x.sub_type.spec_name())),
        json_get(GroupBanEvent::spec_json(x), "time"@) == Some(SpecJson::Int(x.time as i64)),
        json_get(GroupBanEvent::spec_json(x), "user_id"@) == Some(SpecJson::Int(x.user_id as i64)),
        json_get(GroupBanEvent::spec_json(x), "message_type"@) is None,
        json_get(GroupBanEvent::spec_json(x), "meta_event_type"@) is None,
        json_get(GroupBanEvent::spec_json(x), "echo"@) is None,
        json_get(GroupBanEvent::spec_json(x), "data"@) is None,
{
    lemma_keys();
    reveal_with_fuel(entry_get, 10);
}

/// A [`GroupBanEvent`] written out is `canonical` and is sorted back into the same
/// event.
#[verifier::spinoff_prover]
proof fn lemma_group_ban_event_round_trip(x: GroupBanEventView)
    requires
        x.post_type == PostType::Notice,
        x.notice_type == NoticeType::GroupBan,
    ensures
        canonical(GroupBanEvent::spec_json(x)),
        spec_event(GroupBanEvent::spec_json(x)) == Ok::<EventView, EventError>(EventView::GroupBanEvent(x)),
{
    lemma_keys();
    law_kind_names_round_trip();
    let j = GroupBanEvent::spec_json(x);
    let e = match j {
        SpecJson::Object(e) => e,
        _ => Seq::empty(),
    };
    assert(keys_sorted(e));
    assert forall|i: int| 0 <= i < e.len() implies normal_form(#[trigger] e[i].1) && nests_within(e[i].1, 126) by {
        lemma_flat(e[i].1);
    }
    lemma_object_canonical(e);
    lemma_group_ban_event_fields(x);
    assert(BaseEvent::spec_parse(j) == Some(BaseEventView { post_type: Some(PostType::Notice), message_type: None, meta_event_type: None, notice_type: Some(NoticeType::GroupBan), sub_type: Some(x.sub_type), echo: None, data: None }));
    assert(GroupBanEvent::spec_parse(j) == Some(x));
}

/// Where each field of a [`GroupAdminEvent`] record stands in the document serde writes.
#[verifier::spinoff_prover]
proof fn lemma_group_admin_event_fields(x: GroupAdminEventView)
    ensures
        json_get(GroupAdminEvent::spec_json(x), "group_id"@) == Some(SpecJson::Int(x.group_id as i64)),
        json_get(GroupAdminEvent::spec_json(x), "notice_type"@) == Some(SpecJson::Str(x.notice_type.spec_name())),
        json_get(GroupAdminEvent::spec_json(x), "post_type"@) == Some(SpecJson::Str(x.post_type.spec_name())),
        json_get(GroupAdminEvent::spec_json(x), "self_id"@) == Some(SpecJson::Int(x.self_id as i64)),
        json_get(GroupAdminEvent::spec_json(x), "sub_type"@) == Some(SpecJson::Str(x.sub_type.spec_name())),
        json_get(GroupAdminEvent::spec_json(x), "time"@) == Some(SpecJson::Int(x.time as i64)),
        json_get(GroupAdminEvent::spec_json(x), "user_id"@) == Some(SpecJson::Int(x.user_id as i64)),
        json_get(GroupAdminEvent::spec_json(x), "message_type"@) is None,
        json_get(GroupAdminEvent::spec_json(x), "meta_event_type"@) is None,
        json_get(GroupAdminEvent::spec_json(x), "echo"@) is None,
        json_get(GroupAdminEvent::spec_json(x), "data"@) is None,
{
    lemma_keys();
    reveal_with_fuel(entry_get, 8);
}

/// A [`GroupAdminEvent`] written out is `canonical` and is sorted back into the same
/// event.
#[verifier::spinoff_prover]
proof fn lemma_group_admin_event_round_trip(x: GroupAdminEventView)
    requires
        x.post_type == PostType::Notice,
        x.notice_type == NoticeType::GroupAdmin,
    ensures
        canonical(GroupAdminEvent::spec_json(x)),
        spec_event(GroupAdminEvent::spec_json(x)) == Ok::<EventView, EventError>(EventView::GroupAdminEvent(x)),
{
    lemma_keys();
    law_kind_names_round_trip();
    let j = GroupAdminEvent::spec_json(x);
    let e = match j {
        SpecJson::Object(e) => e,
        _ => Seq::empty(),
    };
    assert(keys_sorted(e));
    assert forall|i: int| 0 <= i < e.len() implies normal_form(#[trigger] e[i].1) && nests_within(e[i].1, 126) by {
        lemma_flat(e[i].1);
    }
    lemma_object_canonical(e);
    lemma_group_admin_event_fields(x);
    assert(BaseEvent::spec_parse(j) == Some(BaseEventView { post_type: Some(PostType::Notice), message_type: None, meta_event_type: None, notice_type: Some(NoticeType::GroupAdmin), sub_type: Some(x.sub_type), echo: None, data: None }));
    assert(GroupAdminEvent::spec_parse(j) == Some(x));
}

/// Where each field of an [`EchoEvent`] record stands in the document serde writes.
#[verifier::spinoff_prover]
proof fn lemma_echo_event_fields(x: EchoEventView)
    ensures
        json_get(EchoEvent::spec_json(x), "data"@) == Some(json_opt_any(x.data)),
        json_get(EchoEvent::spec_json(x), "echo"@) == Some(SpecJson::Int(x.echo as i64)),
        json_get(EchoEvent::spec_json(x), "message"@) == Some(SpecJson::Str(x.message)),
        json_get(EchoEvent::spec_json(x), "retcode"@) == Some(SpecJson::Int(x.retcode as i64)),
        json_get(EchoEvent::spec_json(x), "status"@) == Some(SpecJson::Str(x.status)),
        json_get(EchoEvent::spec_json(x), "wording"@) == Some(SpecJson::Str(x.wording)),
        json_get(EchoEvent::spec_json(x), "post_type"@) is None,
        json_get(EchoEvent::spec_json(x), "message_type"@) is None,
        json_get(EchoEvent::spec_json(x), "meta_event_type"@) is None,
        json_get(EchoEvent::spec_json(x), "notice_type"@) is None,
        json_get(EchoEvent::spec_json(x), "sub_type"@) is None,
{
    lemma_keys();
    reveal_with_fuel(entry_get, 7);
}

/// An [`EchoEvent`] written out is `canonical` and is sorted back into the same
/// event.
#[verifier::spinoff_prover]
proof fn lemma_echo_event_round_trip(x: EchoEventView)
    requires
        x.data matches Some(d) ==> d != SpecJson::Null && normal_form(d) && nests_within(d, 126),
    ensures
        canonical(EchoEvent::spec_json(x)),
        spec_event(EchoEvent::spec_json(x)) == Ok::<EventView, EventError>(EventView::EchoEvent(x)),
{
    lemma_keys();
    law_kind_names_round_trip();
    let j = EchoEvent::spec_json(x);
    let e = match j {
        SpecJson::Object(e) => e,
        _ => Seq::empty(),
    };
    assert(keys_sorted(e));
    lemma_opt_any(x.data);
    assert forall|i: int| 0 <= i < e.len() implies normal_form(#[trigger] e[i].1) && nests_within(e[i].1, 126) by {
        if i != 0 {
            lemma_flat(e[i].1);
        }
    }
    lemma_object_canonical(e);
    lemma_echo_event_fields(x);
    assert(BaseEvent::spec_parse(j) == Some(BaseEventView { post_type: None, message_type: None, meta_event_type: None, notice_type: None, sub_type: None, echo: Some(x.echo), data: x.data }));
    assert(EchoEvent::spec_parse(j) == Some(x));
}

/// Where each field of a [`GroupMsgEvent`] record stands in the document serde writes.
#[verifier::spinoff_prover]
proof fn lemma_group_msg_event_fields(x: GroupMsgEventView)
    ensures
        json_get(GroupMsgEvent::spec_json(x), "font"@) == Some(SpecJson::Int(x.font as i64)),
        json_get(GroupMsgEvent::spec_json(x), "group_id"@) == Some(SpecJson::Int(x.group_id as i64)),
        json_get(GroupMsgEvent::spec_json(x), "message"@) == Some(SpecJson::Str(spec_json_text(SpecJson::Array(x.message)))),
        json_get(GroupMsgEvent::spec_json(x), "message_format"@) == Some(SpecJson::Str(x.message_format)),
        json_get(GroupMsgEvent::spec_json(x), "message_id"@) == Some(SpecJson::Int(x.message_id as i64)),
        json_get(GroupMsgEvent::spec_json(x), "message_sent_type"@) == Some(json_opt_text(x.message_sent_type)),
        json_get(GroupMsgEvent::spec_json(x), "message_seq"@) == Some(SpecJson::Int(x.message_seq as i64)),
        json_get(GroupMsgEvent::spec_json(x), "message_type"@) == Some(SpecJson::Str(x.message_type.spec_name())),
        json_get(GroupMsgEvent::spec_json(x), "post_type"@) == Some(SpecJson::Str(x.post_type.spec_name())),
        json_get(GroupMsgEvent::spec_json(x), "raw"@) == Some(x.raw),
        json_get(GroupMsgEvent::spec_json(x), "raw_message"@) == Some(SpecJson::Str(x.raw_message)),
        json_get(GroupMsgEvent::spec_json(x), "real_id"@) == Some(SpecJson::Int(x.real_id as i64)),
        json_get(GroupMsgEvent::spec_json(x), "real_seq"@) == Some(SpecJson::Str(x.real_seq)),
        json_get(GroupMsgEvent::spec_json(x), "self_id"@) == Some(SpecJson::Int(x.self_id as i64)),
        json_get(GroupMsgEvent::spec_json(x), "sender"@) == Some(MsgSender::spec_json(x.sender)),
        json_get(GroupMsgEvent::spec_json(x), "sub_type"@) == Some(SpecJson::Str(x.sub_type)),
        json_get(GroupMsgEvent::spec_json(x), "target_id"@) == Some(json_opt_i64(x.target_id)),
        json_get(GroupMsgEvent::spec_json(x), "time"@) == Some(SpecJson::Int(x.time as i64)),
        json_get(GroupMsgEvent::spec_json(x), "user_id"@) == Some(SpecJson::Int(x.user_id as i64)),
        json_get(GroupMsgEvent::spec_json(x), "meta_event_type"@) is None,
        json_get(GroupMsgEvent::spec_json(x), "notice_type"@) is None,
        json_get(GroupMsgEvent::spec_json(x), "echo"@) is None,
        json_get(GroupMsgEvent::spec_json(x), "data"@) is None,
{
    lemma_keys();
    reveal_with_fuel(entry_get, 20);
}

/// A [`GroupMsgEvent`] written out is `canonical` and is sorted back into the same
/// event.
#[verifier::spinoff_prover]
proof fn lemma_group_msg_event_round_trip(x: GroupMsgEventView)
    requires
        x.message.len() == 0,
        x.post_type == PostType::MessageSent || (x.post_type == PostType::Message && x.message_type == MessageType::Group),
        SubType::spec_from_name(x.sub_type) is Some,
        normal_form(x.raw),
        nests_within(x.raw, 126),
    ensures
        canonical(GroupMsgEvent::spec_json(x)),
        spec_event(GroupMsgEvent::spec_json(x)) == Ok::<EventView, EventError>(EventView::GroupMsgEvent(x)),
{
    lemma_keys();
    law_kind_names_round_trip();
    let j = GroupMsgEvent::spec_json(x);
    let e = match j {
        SpecJson::Object(e) => e,
        _ => Seq::empty(),
    };
    assert(keys_sorted(e));
    lemma_msg_sender(x.sender);
    assert forall|i: int| 0 <= i < e.len() implies normal_form(#[trigger] e[i].1) && nests_within(e[i].1, 126) by {
        if i != 9 && i != 14 {
            lemma_flat(e[i].1);
        }
    }
    lemma_object_canonical(e);
    lemma_group_msg_event_fields(x);
    assert(BaseEvent::spec_parse(j) == Some(BaseEventView { post_type: Some(x.post_type), message_type: Some(x.message_type), meta_event_type: None, notice_type: None, sub_type: SubType::spec_from_name(x.sub_type), echo: None, data: None }));
    assert(x.message == Seq::<SpecJson>::empty());
    assert(GroupMsgEvent::spec_parse(j) == Some(x));
}

/// Where each field of a [`PrivateMsgEvent`] record stands in the document serde writes.
#[verifier::spinoff_prover]
proof fn lemma_private_msg_event_fields(x: PrivateMsgEventView)
    ensures
        json_get(PrivateMsgEvent::spec_json(x), "font"@) == Some(SpecJson::Int(x.font as i64)),
        json_get(PrivateMsgEvent::spec_json(x), "message"@) == Some(SpecJson::Str(spec_json_text(SpecJson::Array(x.message)))),
        json_get(PrivateMsgEvent::spec_json(x), "message_format"@) == Some(SpecJson::Str(x.message_format)),
        json_get(PrivateMsgEvent::spec_json(x), "message_id"@) == Some(SpecJson::Int(x.message_id as i64)),
        json_get(PrivateMsgEvent::spec_json(x), "message_seq"@) == Some(SpecJson::Int(x.message_seq as i64)),
        json_get(PrivateMsgEvent::spec_json(x), "message_type"@) == Some(SpecJson::Str(x.message_type)),
        json_get(PrivateMsgEvent::spec_json(x), "post_type"@) == Some(SpecJson::Str(x.post_type.spec_name())),
        json_get(PrivateMsgEvent::spec_json(x), "raw_message"@) == Some(SpecJson::Str(x.raw_message)),
        json_get(PrivateMsgEvent::spec_json(x), "real_id"@) == Some(SpecJson::Int(x.real_id as i64)),
        json_get(PrivateMsgEvent::spec_json(x), "self_id"@) == Some(SpecJson::Int(x.self_id as i64)),
        json_get(PrivateMsgEvent::spec_json(x), "sender"@) == Some(MsgSender::spec_json(x.sender)),
        json_get(PrivateMsgEvent::spec_json(x), "sub_type"@) == Some(SpecJson::Str(x.sub_type)),
        json_get(PrivateMsgEvent::spec_json(x), "time"@) == Some(SpecJson::Int(x.time as i64)),
        json_get(PrivateMsgEvent::spec_json(x), "user_id"@) == Some(SpecJson::Int(x.user_id as i64)),
        json_get(PrivateMsgEvent::spec_json(x), "meta_event_type"@) is None,
        json_get(PrivateMsgEvent::spec_json(x), "notice_type"@) is None,
        json_get(PrivateMsgEvent::spec_json(x), "echo"@) is None,
        json_get(PrivateMsgEvent::spec_json(x), "data"@) is None,
{
    lemma_keys();
    reveal_with_fuel(entry_get, 15);
}

/// A [`PrivateMsgEvent`] written out is `canonical` and is sorted back into the same
/// event.
#[verifier::spinoff_prover]
proof fn lemma_private_msg_event_round_trip(x: PrivateMsgEventView)
    requires
        x.message.len() == 0,
        x.post_type == PostType::Message,
        x.message_type == MessageType::Private.spec_name(),
        SubType::spec_from_name(x.sub_type) is Some,
    ensures
        canonical(PrivateMsgEvent::spec_json(x)),
        spec_event(PrivateMsgEvent::spec_json(x)) == Ok::<EventView, EventError>(EventView::PrivateMsgEvent(x)),
{
    lemma_keys();
    law_kind_names_round_trip();
    let j = PrivateMsgEvent::spec_json(x);
    let e = match j {
        SpecJson::Object(e) => e,
        _ => Seq::empty(),
    };
    assert(keys_sorted(e));
    lemma_msg_sender(x.sender);
    assert forall|i: int| 0 <= i < e.len() implies normal_form(#[trigger] e[i].1) && nests_within(e[i].1, 126) by {
        if i != 10 {
            lemma_flat(e[i].1);
        }
    }
    lemma_object_canonical(e);
    lemma_private_msg_event_fields(x);
    assert(BaseEvent::spec_parse(j) == Some(BaseEventView { post_type: Some(PostType::Message), message_type: Some(MessageType::Private), meta_event_type: None, notice_type: None, sub_type: SubType::spec_from_name(x.sub_type), echo: None, data: None }));
    assert(x.message == Seq::<SpecJson>::empty());
    assert(PrivateMsgEvent::spec_parse(j) == Some(x));
}


} // verus!
