//! The reports a OneBot v11 implementation pushes: their record types, how
//! each is read from a JSON document, and how a report is sorted into an
//! [`Event`].
use vstd::prelude::*;
use crate::json::{
    copy_items, field, field_of, is_shaped, model_entries, model_items, opt_any, opt_int,
    opt_json_view, opt_string_view, opt_text, opt_view, push_entry, push_item, read_any, read_bool, read_int,
    read_list, read_opt_any, read_opt_int, read_opt_text, read_text, read_variant_name, req_any,
    req_bool, req_int, req_list, req_text, same_text, shaped, spec_json_text, variant_name,
    JsonValue, SpecJson, json_opt_text, json_opt_i64, json_opt_i32, json_opt_any, opt_text_json,
    opt_i64_json, opt_i32_json, opt_any_json, get, json_get, json_to_string, parse_json,
    spec_parse_json, canonical,
};
use crate::message::{
    first_forward, first_reply, first_text, kept_segments, seg_type, segment_with, Forward, Message,
    Reply,
};
use crate::text::{i64_text, int_text, join2};

verus! {

/// The kind of report (`post_type`).
#[derive(Debug, Clone, Copy, PartialEq, Eq, Structural)]
pub enum PostType {
    Message,
    MessageSent,
    Notice,
    MetaEvent,
}

impl PostType {
    /// The name this kind has in JSON.
    pub open spec fn spec_name(self) -> Seq<char> {
        match self {
            PostType::Message => "message"@,
            PostType::MessageSent => "message_sent"@,
            PostType::Notice => "notice"@,
            PostType::MetaEvent => "meta_event"@,
        }
    }

    /// The kind named `n` in JSON.
    pub open spec fn spec_from_name(n: Seq<char>) -> Option<PostType> {
        if n == "message"@ {
            Some(PostType::Message)
        } else if n == "message_sent"@ {
            Some(PostType::MessageSent)
        } else if n == "notice"@ {
            Some(PostType::Notice)
        } else if n == "meta_event"@ {
            Some(PostType::MetaEvent)
        } else {
            None
        }
    }

    /// A required field holding this kind.
    pub open spec fn spec_read(f: Option<SpecJson>) -> Option<PostType> {
        match f {
            Some(x) => match variant_name(x) {
                Some(n) => PostType::spec_from_name(n),
                None => None,
            },
            None => None,
        }
    }

    /// An optional field holding this kind: missing and `null` read as `None`.
    pub open spec fn spec_read_opt(f: Option<SpecJson>) -> Option<Option<PostType>> {
        match f {
            None => Some(None),
            Some(SpecJson::Null) => Some(None),
            Some(x) => match PostType::spec_read(Some(x)) {
                Some(e) => Some(Some(e)),
                None => None,
            },
        }
    }

    /// The name this kind has in JSON.
    pub fn name(&self) -> (r: &'static str)
        ensures
            r@ == self.spec_name(),
    {
        match self {
            PostType::Message => "message",
            PostType::MessageSent => "message_sent",
            PostType::Notice => "notice",
            PostType::MetaEvent => "meta_event",
        }
    }

    /// The kind named `n` in JSON.
    pub fn from_name(n: &String) -> (r: Option<PostType>)
        ensures
            r == PostType::spec_from_name(n@),
    {
        if same_text(n, "message") {
            Some(PostType::Message)
        } else if same_text(n, "message_sent") {
            Some(PostType::MessageSent)
        } else if same_text(n, "notice") {
            Some(PostType::Notice)
        } else if same_text(n, "meta_event") {
            Some(PostType::MetaEvent)
        } else {
            None
        }
    }

    /// A required field holding this kind.
    pub fn read(f: Option<&JsonValue>) -> (r: Option<PostType>)
        ensures
            r == PostType::spec_read(opt_view(f)),
    {
        match f {
            Some(x) => match read_variant_name(x) {
                Some(n) => PostType::from_name(n),
                None => None,
            },
            None => None,
        }
    }

    /// An optional kind as serde writes it: its name, or `null`.
    pub open spec fn spec_json_opt(o: Option<PostType>) -> SpecJson {
        match o {
            Some(y) => SpecJson::Str(y.spec_name()),
            None => SpecJson::Null,
        }
    }

    /// An optional kind as serde writes it.
    pub fn json_opt(o: Option<PostType>) -> (r: JsonValue)
        ensures
            r@ == PostType::spec_json_opt(o),
    {
        match o {
            Some(y) => JsonValue::Str(String::from_str(y.name())),
            None => JsonValue::Null,
        }
    }

    /// An optional field holding this kind.
    pub fn read_opt(f: Option<&JsonValue>) -> (r: Option<Option<PostType>>)
        ensures
            r == PostType::spec_read_opt(opt_view(f)),
    {
        match f {
            None => Some(None),
            Some(JsonValue::Null) => Some(None),
            Some(x) => match PostType::read(Some(x)) {
                Some(e) => Some(Some(e)),
                None => None,
            },
        }
    }
}

/// The kind of chat a message belongs to.
#[derive(Debug, Clone, Copy, PartialEq, Eq, Structural)]
pub enum MessageType {
    Group,
    Private,
}

impl MessageType {
    /// The name this kind has in JSON.
    pub open spec fn spec_name(self) -> Seq<char> {
        match self {
            MessageType::Group => "group"@,
            MessageType::Private => "private"@,
        }
    }

    /// The kind named `n` in JSON.
    pub open spec fn spec_from_name(n: Seq<char>) -> Option<MessageType> {
        if n == "group"@ {
            Some(MessageType::Group)
        } else if n == "private"@ {
            Some(MessageType::Private)
        } else {
            None
        }
    }

    /// A required field holding this kind.
    pub open spec fn spec_read(f: Option<SpecJson>) -> Option<MessageType> {
        match f {
            Some(x) => match variant_name(x) {
                Some(n) => MessageType::spec_from_name(n),
                None => None,
            },
            None => None,
        }
    }

    /// An optional field holding this kind: missing and `null` read as `None`.
    pub open spec fn spec_read_opt(f: Option<SpecJson>) -> Option<Option<MessageType>> {
        match f {
            None => Some(None),
            Some(SpecJson::Null) => Some(None),
            Some(x) => match MessageType::spec_read(Some(x)) {
                Some(e) => Some(Some(e)),
                None => None,
            },
        }
    }

    /// The name this kind has in JSON.
    pub fn name(&self) -> (r: &'static str)
        ensures
            r@ == self.spec_name(),
    {
        match self {
            MessageType::Group => "group",
            MessageType::Private => "private",
        }
    }

    /// The kind named `n` in JSON.
    pub fn from_name(n: &String) -> (r: Option<MessageType>)
        ensures
            r == MessageType::spec_from_name(n@),
    {
        if same_text(n, "group") {
            Some(MessageType::Group)
        } else if same_text(n, "private") {
            Some(MessageType::Private)
        } else {
            None
        }
    }

    /// A required field holding this kind.
    pub fn read(f: Option<&JsonValue>) -> (r: Option<MessageType>)
        ensures
            r == MessageType::spec_read(opt_view(f)),
    {
        match f {
            Some(x) => match read_variant_name(x) {
                Some(n) => MessageType::from_name(n),
                None => None,
            },
            None => None,
        }
    }

    /// An optional kind as serde writes it: its name, or `null`.
    pub open spec fn spec_json_opt(o: Option<MessageType>) -> SpecJson {
        match o {
            Some(y) => SpecJson::Str(y.spec_name()),
            None => SpecJson::Null,
        }
    }

    /// An optional kind as serde writes it.
    pub fn json_opt(o: Option<MessageType>) -> (r: JsonValue)
        ensures
            r@ == MessageType::spec_json_opt(o),
    {
        match o {
            Some(y) => JsonValue::Str(String::from_str(y.name())),
            None => JsonValue::Null,
        }
    }

    /// An optional field holding this kind.
    pub fn read_opt(f: Option<&JsonValue>) -> (r: Option<Option<MessageType>>)
        ensures
            r == MessageType::spec_read_opt(opt_view(f)),
    {
        match f {
            None => Some(None),
            Some(JsonValue::Null) => Some(None),
            Some(x) => match MessageType::read(Some(x)) {
                Some(e) => Some(Some(e)),
                None => None,
            },
        }
    }
}

/// The kind of meta event.
#[derive(Debug, Clone, Copy, PartialEq, Eq, Structural)]
pub enum MetaEventType {
    Heartbeat,
    Lifecycle,
}

impl MetaEventType {
    /// The name this kind has in JSON.
    pub open spec fn spec_name(self) -> Seq<char> {
        match self {
            MetaEventType::Heartbeat => "heartbeat"@,
            MetaEventType::Lifecycle => "lifecycle"@,
        }
    }

    /// The kind named `n` in JSON.
    pub open spec fn spec_from_name(n: Seq<char>) -> Option<MetaEventType> {
        if n == "heartbeat"@ {
            Some(MetaEventType::Heartbeat)
        } else if n == "lifecycle"@ {
            Some(MetaEventType::Lifecycle)
        } else {
            None
        }
    }

    /// A required field holding this kind.
    pub open spec fn spec_read(f: Option<SpecJson>) -> Option<MetaEventType> {
        match f {
            Some(x) => match variant_name(x) {
                Some(n) => MetaEventType::spec_from_name(n),
                None => None,
            },
            None => None,
        }
    }

    /// An optional field holding this kind: missing and `null` read as `None`.
    pub open spec fn spec_read_opt(f: Option<SpecJson>) -> Option<Option<MetaEventType>> {
        match f {
            None => Some(None),
            Some(SpecJson::Null) => Some(None),
            Some(x) => match MetaEventType::spec_read(Some(x)) {
                Some(e) => Some(Some(e)),
                None => None,
            },
        }
    }

    /// The name this kind has in JSON.
    pub fn name(&self) -> (r: &'static str)
        ensures
            r@ == self.spec_name(),
    {
        match self {
            MetaEventType::Heartbeat => "heartbeat",
            MetaEventType::Lifecycle => "lifecycle",
        }
    }

    /// The kind named `n` in JSON.
    pub fn from_name(n: &String) -> (r: Option<MetaEventType>)
        ensures
            r == MetaEventType::spec_from_name(n@),
    {
        if same_text(n, "heartbeat") {
            Some(MetaEventType::Heartbeat)
        } else if same_text(n, "lifecycle") {
            Some(MetaEventType::Lifecycle)
        } else {
            None
        }
    }

    /// A required field holding this kind.
    pub fn read(f: Option<&JsonValue>) -> (r: Option<MetaEventType>)
        ensures
            r == MetaEventType::spec_read(opt_view(f)),
    {
        match f {
            Some(x) => match read_variant_name(x) {
                Some(n) => MetaEventType::from_name(n),
                None => None,
            },
            None => None,
        }
    }

    /// An optional kind as serde writes it: its name, or `null`.
    pub open spec fn spec_json_opt(o: Option<MetaEventType>) -> SpecJson {
        match o {
            Some(y) => SpecJson::Str(y.spec_name()),
            None => SpecJson::Null,
        }
    }

    /// An optional kind as serde writes it.
    pub fn json_opt(o: Option<MetaEventType>) -> (r: JsonValue)
        ensures
            r@ == MetaEventType::spec_json_opt(o),
    {
        match o {
            Some(y) => JsonValue::Str(String::from_str(y.name())),
            None => JsonValue::Null,
        }
    }

    /// An optional field holding this kind.
    pub fn read_opt(f: Option<&JsonValue>) -> (r: Option<Option<MetaEventType>>)
        ensures
            r == MetaEventType::spec_read_opt(opt_view(f)),
    {
        match f {
            None => Some(None),
            Some(JsonValue::Null) => Some(None),
            Some(x) => match MetaEventType::read(Some(x)) {
                Some(e) => Some(Some(e)),
                None => None,
            },
        }
    }
}

/// The kind of notice.
#[derive(Debug, Clone, Copy, PartialEq, Eq, Structural)]
pub enum NoticeType {
    GroupCard,
    GroupMsgEmojiLike,
    Notify,
    GroupRecall,
    GroupBan,
    GroupAdmin,
}

impl NoticeType {
    /// The name this kind has in JSON.
    pub open spec fn spec_name(self) -> Seq<char> {
        match self {
            NoticeType::GroupCard => "group_card"@,
            NoticeType::GroupMsgEmojiLike => "group_msg_emoji_like"@,
            NoticeType::Notify => "notify"@,
            NoticeType::GroupRecall => "group_recall"@,
            NoticeType::GroupBan => "group_ban"@,
            NoticeType::GroupAdmin => "group_admin"@,
        }
    }

    /// The kind named `n` in JSON.
    pub open spec fn spec_from_name(n: Seq<char>) -> Option<NoticeType> {
        if n == "group_card"@ {
            Some(NoticeType::GroupCard)
        } else if n == "group_msg_emoji_like"@ {
            Some(NoticeType::GroupMsgEmojiLike)
        } else if n == "notify"@ {
            Some(NoticeType::Notify)
        } else if n == "group_recall"@ {
            Some(NoticeType::GroupRecall)
        } else if n == "group_ban"@ {
            Some(NoticeType::GroupBan)
        } else if n == "group_admin"@ {
            Some(NoticeType::GroupAdmin)
        } else {
            None
        }
    }

    /// A required field holding this kind.
    pub open spec fn spec_read(f: Option<SpecJson>) -> Option<NoticeType> {
        match f {
            Some(x) => match variant_name(x) {
                Some(n) => NoticeType::spec_from_name(n),
                None => None,
            },
            None => None,
        }
    }

    /// An optional field holding this kind: missing and `null` read as `None`.
    pub open spec fn spec_read_opt(f: Option<SpecJson>) -> Option<Option<NoticeType>> {
        match f {
            None => Some(None),
            Some(SpecJson::Null) => Some(None),
            Some(x) => match NoticeType::spec_read(Some(x)) {
                Some(e) => Some(Some(e)),
                None => None,
            },
        }
    }

    /// The name this kind has in JSON.
    pub fn name(&self) -> (r: &'static str)
        ensures
            r@ == self.spec_name(),
    {
        match self {
            NoticeType::GroupCard => "group_card",
            NoticeType::GroupMsgEmojiLike => "group_msg_emoji_like",
            NoticeType::Notify => "notify",
            NoticeType::GroupRecall => "group_recall",
            NoticeType::GroupBan => "group_ban",
            NoticeType::GroupAdmin => "group_admin",
        }
    }

    /// The kind named `n` in JSON.
    pub fn from_name(n: &String) -> (r: Option<NoticeType>)
        ensures
            r == NoticeType::spec_from_name(n@),
    {
        if same_text(n, "group_card") {
            Some(NoticeType::GroupCard)
        } else if same_text(n, "group_msg_emoji_like") {
            Some(NoticeType::GroupMsgEmojiLike)
        } else if same_text(n, "notify") {
            Some(NoticeType::Notify)
        } else if same_text(n, "group_recall") {
            Some(NoticeType::GroupRecall)
        } else if same_text(n, "group_ban") {
            Some(NoticeType::GroupBan)
        } else if same_text(n, "group_admin") {
            Some(NoticeType::GroupAdmin)
        } else {
            None
        }
    }

    /// A required field holding this kind.
    pub fn read(f: Option<&JsonValue>) -> (r: Option<NoticeType>)
        ensures
            r == NoticeType::spec_read(opt_view(f)),
    {
        match f {
            Some(x) => match read_variant_name(x) {
                Some(n) => NoticeType::from_name(n),
                None => None,
            },
            None => None,
        }
    }

    /// An optional kind as serde writes it: its name, or `null`.
    pub open spec fn spec_json_opt(o: Option<NoticeType>) -> SpecJson {
        match o {
            Some(y) => SpecJson::Str(y.spec_name()),
            None => SpecJson::Null,
        }
    }

    /// An optional kind as serde writes it.
    pub fn json_opt(o: Option<NoticeType>) -> (r: JsonValue)
        ensures
            r@ == NoticeType::spec_json_opt(o),
    {
        match o {
            Some(y) => JsonValue::Str(String::from_str(y.name())),
            None => JsonValue::Null,
        }
    }

    /// An optional field holding this kind.
    pub fn read_opt(f: Option<&JsonValue>) -> (r: Option<Option<NoticeType>>)
        ensures
            r == NoticeType::spec_read_opt(opt_view(f)),
    {
        match f {
            None => Some(None),
            Some(JsonValue::Null) => Some(None),
            Some(x) => match NoticeType::read(Some(x)) {
                Some(e) => Some(Some(e)),
                None => None,
            },
        }
    }
}

/// The sub-kind of a notice.
#[derive(Debug, Clone, Copy, PartialEq, Eq, Structural)]
pub enum SubType {
    Poke,
    Title,
    Normal,
    Friend,
    Ban,
    LiftBan,
    SetOn,
    UnSet,
}

impl SubType {
    /// The name this kind has in JSON.
    pub open spec fn spec_name(self) -> Seq<char> {
        match self {
            SubType::Poke => "poke"@,
            SubType::Title => "title"@,
            SubType::Normal => "normal"@,
            SubType::Friend => "friend"@,
            SubType::Ban => "ban"@,
            SubType::LiftBan => "lift_ban"@,
            SubType::SetOn => "set"@,
            SubType::UnSet => "unset"@,
        }
    }

    /// The kind named `n` in JSON.
    pub open spec fn spec_from_name(n: Seq<char>) -> Option<SubType> {
        if n == "poke"@ {
            Some(SubType::Poke)
        } else if n == "title"@ {
            Some(SubType::Title)
        } else if n == "normal"@ {
            Some(SubType::Normal)
        } else if n == "friend"@ {
            Some(SubType::Friend)
        } else if n == "ban"@ {
            Some(SubType::Ban)
        } else if n == "lift_ban"@ {
            Some(SubType::LiftBan)
        } else if n == "set"@ {
            Some(SubType::SetOn)
        } else if n == "unset"@ {
            Some(SubType::UnSet)
        } else {
            None
        }
    }

    /// A required field holding this kind.
    pub open spec fn spec_read(f: Option<SpecJson>) -> Option<SubType> {
        match f {
            Some(x) => match variant_name(x) {
                Some(n) => SubType::spec_from_name(n),
                None => None,
            },
            None => None,
        }
    }

    /// An optional field holding this kind: missing and `null` read as `None`.
    pub open spec fn spec_read_opt(f: Option<SpecJson>) -> Option<Option<SubType>> {
        match f {
            None => Some(None),
            Some(SpecJson::Null) => Some(None),
            Some(x) => match SubType::spec_read(Some(x)) {
                Some(e) => Some(Some(e)),
                None => None,
            },
        }
    }

    /// The name this kind has in JSON.
    pub fn name(&self) -> (r: &'static str)
        ensures
            r@ == self.spec_name(),
    {
        match self {
            SubType::Poke => "poke",
            SubType::Title => "title",
            SubType::Normal => "normal",
            SubType::Friend => "friend",
            SubType::Ban => "ban",
            SubType::LiftBan => "lift_ban",
            SubType::SetOn => "set",
            SubType::UnSet => "unset",
        }
    }

    /// The kind named `n` in JSON.
    pub fn from_name(n: &String) -> (r: Option<SubType>)
        ensures
            r == SubType::spec_from_name(n@),
    {
        if same_text(n, "poke") {
            Some(SubType::Poke)
        } else if same_text(n, "title") {
            Some(SubType::Title)
        } else if same_text(n, "normal") {
            Some(SubType::Normal)
        } else if same_text(n, "friend") {
            Some(SubType::Friend)
        } else if same_text(n, "ban") {
            Some(SubType::Ban)
        } else if same_text(n, "lift_ban") {
            Some(SubType::LiftBan)
        } else if same_text(n, "set") {
            Some(SubType::SetOn)
        } else if same_text(n, "unset") {
            Some(SubType::UnSet)
        } else {
            None
        }
    }

    /// A required field holding this kind.
    pub fn read(f: Option<&JsonValue>) -> (r: Option<SubType>)
        ensures
            r == SubType::spec_read(opt_view(f)),
    {
        match f {
            Some(x) => match read_variant_name(x) {
                Some(n) => SubType::from_name(n),
                None => None,
            },
            None => None,
        }
    }

    /// An optional kind as serde writes it: its name, or `null`.
    pub open spec fn spec_json_opt(o: Option<SubType>) -> SpecJson {
        match o {
            Some(y) => SpecJson::Str(y.spec_name()),
            None => SpecJson::Null,
        }
    }

    /// An optional kind as serde writes it.
    pub fn json_opt(o: Option<SubType>) -> (r: JsonValue)
        ensures
            r@ == SubType::spec_json_opt(o),
    {
        match o {
            Some(y) => JsonValue::Str(String::from_str(y.name())),
            None => JsonValue::Null,
        }
    }

    /// An optional field holding this kind.
    pub fn read_opt(f: Option<&JsonValue>) -> (r: Option<Option<SubType>>)
        ensures
            r == SubType::spec_read_opt(opt_view(f)),
    {
        match f {
            None => Some(None),
            Some(JsonValue::Null) => Some(None),
            Some(x) => match SubType::read(Some(x)) {
                Some(e) => Some(Some(e)),
                None => None,
            },
        }
    }
}

/// A member's rank in a group.
#[derive(Debug, Clone, Copy, PartialEq, Eq, Structural)]
pub enum GroupRole {
    Owner,
    Admin,
    Member,
}

impl GroupRole {
    /// The name this kind has in JSON.
    pub open spec fn spec_name(self) -> Seq<char> {
        match self {
            GroupRole::Owner => "owner"@,
            GroupRole::Admin => "admin"@,
            GroupRole::Member => "member"@,
        }
    }

    /// The kind named `n` in JSON.
    pub open spec fn spec_from_name(n: Seq<char>) -> Option<GroupRole> {
        if n == "owner"@ {
            Some(GroupRole::Owner)
        } else if n == "admin"@ {
            Some(GroupRole::Admin)
        } else if n == "member"@ {
            Some(GroupRole::Member)
        } else {
            None
        }
    }

    /// A required field holding this kind.
    pub open spec fn spec_read(f: Option<SpecJson>) -> Option<GroupRole> {
        match f {
            Some(x) => match variant_name(x) {
                Some(n) => GroupRole::spec_from_name(n),
                None => None,
            },
            None => None,
        }
    }

    /// An optional field holding this kind: missing and `null` read as `None`.
    pub open spec fn spec_read_opt(f: Option<SpecJson>) -> Option<Option<GroupRole>> {
        match f {
            None => Some(None),
            Some(SpecJson::Null) => Some(None),
            Some(x) => match GroupRole::spec_read(Some(x)) {
                Some(e) => Some(Some(e)),
                None => None,
            },
        }
    }

    /// The name this kind has in JSON.
    pub fn name(&self) -> (r: &'static str)
        ensures
            r@ == self.spec_name(),
    {
        match self {
            GroupRole::Owner => "owner",
            GroupRole::Admin => "admin",
            GroupRole::Member => "member",
        }
    }

    /// The kind named `n` in JSON.
    pub fn from_name(n: &String) -> (r: Option<GroupRole>)
        ensures
            r == GroupRole::spec_from_name(n@),
    {
        if same_text(n, "owner") {
            Some(GroupRole::Owner)
        } else if same_text(n, "admin") {
            Some(GroupRole::Admin)
        } else if same_text(n, "member") {
            Some(GroupRole::Member)
        } else {
            None
        }
    }

    /// A required field holding this kind.
    pub fn read(f: Option<&JsonValue>) -> (r: Option<GroupRole>)
        ensures
            r == GroupRole::spec_read(opt_view(f)),
    {
        match f {
            Some(x) => match read_variant_name(x) {
                Some(n) => GroupRole::from_name(n),
                None => None,
            },
            None => None,
        }
    }

    /// An optional kind as serde writes it: its name, or `null`.
    pub open spec fn spec_json_opt(o: Option<GroupRole>) -> SpecJson {
        match o {
            Some(y) => SpecJson::Str(y.spec_name()),
            None => SpecJson::Null,
        }
    }

    /// An optional kind as serde writes it.
    pub fn json_opt(o: Option<GroupRole>) -> (r: JsonValue)
        ensures
            r@ == GroupRole::spec_json_opt(o),
    {
        match o {
            Some(y) => JsonValue::Str(String::from_str(y.name())),
            None => JsonValue::Null,
        }
    }

    /// An optional field holding this kind.
    pub fn read_opt(f: Option<&JsonValue>) -> (r: Option<Option<GroupRole>>)
        ensures
            r == GroupRole::spec_read_opt(opt_view(f)),
    {
        match f {
            None => Some(None),
            Some(JsonValue::Null) => Some(None),
            Some(x) => match GroupRole::read(Some(x)) {
                Some(e) => Some(Some(e)),
                None => None,
            },
        }
    }
}

/// A lifecycle meta event.
#[derive(Debug)]
pub struct LifecycleEvent {
    pub time: i64,
    pub self_id: i64,
    pub post_type: String,
    pub meta_event_type: String,
    pub sub_type: String,
}

/// The model of [`LifecycleEvent`].
pub struct LifecycleEventView {
    pub time: i64,
    pub self_id: i64,
    pub post_type: Seq<char>,
    pub meta_event_type: Seq<char>,
    pub sub_type: Seq<char>,
}

impl View for LifecycleEvent {
    type V = LifecycleEventView;

    open spec fn view(&self) -> LifecycleEventView {
        LifecycleEventView {
            time: self.time,
            self_id: self.self_id,
            post_type: self.post_type@,
            meta_event_type: self.meta_event_type@,
            sub_type: self.sub_type@,
        }
    }
}

impl LifecycleEvent {
    /// The record that `v` holds, read field by field as serde reads it;
    /// `None` where a field is missing or of the wrong kind.
    pub open spec fn spec_parse(v: SpecJson) -> Option<LifecycleEventView> {
        let f_time = req_int(field_of(v, "time"@, 0, 5), i64::MIN as int, i64::MAX as int);
        let f_self_id = req_int(field_of(v, "self_id"@, 1, 5), i64::MIN as int, i64::MAX as int);
        let f_post_type = req_text(field_of(v, "post_type"@, 2, 5));
        let f_meta_event_type = req_text(field_of(v, "meta_event_type"@, 3, 5));
        let f_sub_type = req_text(field_of(v, "sub_type"@, 4, 5));
        if shaped(v, 5) && f_time is Some && f_self_id is Some && f_post_type is Some && f_meta_event_type is Some && f_sub_type is Some {
            Some(LifecycleEventView {
                time: f_time->0 as i64,
                self_id: f_self_id->0 as i64,
                post_type: f_post_type->0,
                meta_event_type: f_meta_event_type->0,
                sub_type: f_sub_type->0,
            })
        } else {
            None
        }
    }

    /// The record that `v` holds, read field by field as serde reads it.
    pub fn from_json(v: &JsonValue) -> (r: Option<LifecycleEvent>)
        ensures
            match r {
                Some(e) => LifecycleEvent::spec_parse(v@) == Some(e@),
                None => LifecycleEvent::spec_parse(v@) is None,
            },
    {
        if !is_shaped(v, 5) {
            return None;
        }
        let f_time = match read_int(field(v, "time", 0, 5), i64::MIN as i64, i64::MAX as i64) {
            Some(y) => y,
            None => {
                return None;
            },
        };
        let f_self_id = match read_int(field(v, "self_id", 1, 5), i64::MIN as i64, i64::MAX as i64) {
            Some(y) => y,
            None => {
                return None;
            },
        };
        let f_post_type = match read_text(field(v, "post_type", 2, 5)) {
            Some(y) => y,
            None => {
                return None;
            },
        };
        let f_meta_event_type = match read_text(field(v, "meta_event_type", 3, 5)) {
            Some(y) => y,
            None => {
                return None;
            },
        };
        let f_sub_type = match read_text(field(v, "sub_type", 4, 5)) {
            Some(y) => y,
            None => {
                return None;
            },
        };
        Some(LifecycleEvent {
            time: f_time,
            self_id: f_self_id,
            post_type: f_post_type,
            meta_event_type: f_meta_event_type,
            sub_type: f_sub_type,
        })
    }

    /// The document serde writes for the record: an object with one
    /// entry per field, keys in sorted order.
    pub open spec fn spec_json(e: LifecycleEventView) -> SpecJson {
        SpecJson::Object(
            seq![
                ("meta_event_type"@, SpecJson::Str(e.meta_event_type)),
                ("post_type"@, SpecJson::Str(e.post_type)),
                ("self_id"@, SpecJson::Int(e.self_id as i64)),
                ("sub_type"@, SpecJson::Str(e.sub_type)),
                ("time"@, SpecJson::Int(e.time as i64)),
            ],
        )
    }

    /// The document serde writes for the record.
    pub fn to_json(&self) -> (r: JsonValue)
        ensures
            r@ == LifecycleEvent::spec_json(self@),
    {
        let mut e: Vec<(String, JsonValue)> = Vec::new();
        assert(model_entries(e@) =~= Seq::<(Seq<char>, SpecJson)>::empty());
        push_entry(&mut e, "meta_event_type", JsonValue::Str(self.meta_event_type.clone()));
        push_entry(&mut e, "post_type", JsonValue::Str(self.post_type.clone()));
        push_entry(&mut e, "self_id", JsonValue::Int(self.self_id as i64));
        push_entry(&mut e, "sub_type", JsonValue::Str(self.sub_type.clone()));
        push_entry(&mut e, "time", JsonValue::Int(self.time as i64));
        let ghost want = seq![
            ("meta_event_type"@, SpecJson::Str(self@.meta_event_type)),
            ("post_type"@, SpecJson::Str(self@.post_type)),
            ("self_id"@, SpecJson::Int(self@.self_id as i64)),
            ("sub_type"@, SpecJson::Str(self@.sub_type)),
            ("time"@, SpecJson::Int(self@.time as i64)),
        ];
        assert(model_entries(e@) =~= want);
        JsonValue::Object(e)
    }
}

/// A heartbeat meta event.
#[derive(Debug)]
pub struct HeartbeatEvent {
    pub time: i64,
    pub self_id: i64,
    pub post_type: String,
    pub meta_event_type: String,
    pub status: JsonValue,
    pub interval: i32,
}

/// The model of [`HeartbeatEvent`].
pub struct HeartbeatEventView {
    pub time: i64,
    pub self_id: i64,
    pub post_type: Seq<char>,
    pub meta_event_type: Seq<char>,
    pub status: SpecJson,
    pub interval: i32,
}

impl View for HeartbeatEvent {
    type V = HeartbeatEventView;

    open spec fn view(&self) -> HeartbeatEventView {
        HeartbeatEventView {
            time: self.time,
            self_id: self.self_id,
            post_type: self.post_type@,
            meta_event_type: self.meta_event_type@,
            status: self.status@,
            interval: self.interval,
        }
    }
}

impl HeartbeatEvent {
    /// The record that `v` holds, read field by field as serde reads it;
    /// `None` where a field is missing or of the wrong kind.
    pub open spec fn spec_parse(v: SpecJson) -> Option<HeartbeatEventView> {
        let f_time = req_int(field_of(v, "time"@, 0, 6), i64::MIN as int, i64::MAX as int);
        let f_self_id = req_int(field_of(v, "self_id"@, 1, 6), i64::MIN as int, i64::MAX as int);
        let f_post_type = req_text(field_of(v, "post_type"@, 2, 6));
        let f_meta_event_type = req_text(field_of(v, "meta_event_type"@, 3, 6));
        let f_status = req_any(field_of(v, "status"@, 4, 6));
        let f_interval = req_int(field_of(v, "interval"@, 5, 6), i32::MIN as int, i32::MAX as int);
        if shaped(v, 6) && f_time is Some && f_self_id is Some && f_post_type is Some && f_meta_event_type is Some && f_status is Some && f_interval is Some {
            Some(HeartbeatEventView {
                time: f_time->0 as i64,
                self_id: f_self_id->0 as i64,
                post_type: f_post_type->0,
                meta_event_type: f_meta_event_type->0,
                status: f_status->0,
                interval: f_interval->0 as i32,
            })
        } else {
            None
        }
    }

    /// The record that `v` holds, read field by field as serde reads it.
    pub fn from_json(v: &JsonValue) -> (r: Option<HeartbeatEvent>)
        ensures
            match r {
                Some(e) => HeartbeatEvent::spec_parse(v@) == Some(e@),
                None => HeartbeatEvent::spec_parse(v@) is None,
            },
    {
        if !is_shaped(v, 6) {
            return None;
        }
        let f_time = match read_int(field(v, "time", 0, 6), i64::MIN as i64, i64::MAX as i64) {
            Some(y) => y,
            None => {
                return None;
            },
        };
        let f_self_id = match read_int(field(v, "self_id", 1, 6), i64::MIN as i64, i64::MAX as i64) {
            Some(y) => y,
            None => {
                return None;
            },
        };
        let f_post_type = match read_text(field(v, "post_type", 2, 6)) {
            Some(y) => y,
            None => {
                return None;
            },
        };
        let f_meta_event_type = match read_text(field(v, "meta_event_type", 3, 6)) {
            Some(y) => y,
            None => {
                return None;
            },
        };
        let f_status = match read_any(field(v, "status", 4, 6)) {
            Some(y) => y,
            None => {
                return None;
            },
        };
        let f_interval = match read_int(field(v, "interval", 5, 6), i32::MIN as i64, i32::MAX as i64) {
            Some(y) => y as i32,
            None => {
                return None;
            },
        };
        Some(HeartbeatEvent {
            time: f_time,
            self_id: f_self_id,
            post_type: f_post_type,
            meta_event_type: f_meta_event_type,
            status: f_status,
            interval: f_interval,
        })
    }

    /// The document serde writes for the record: an object with one
    /// entry per field, keys in sorted order.
    pub open spec fn spec_json(e: HeartbeatEventView) -> SpecJson {
        SpecJson::Object(
            seq![
                ("interval"@, SpecJson::Int(e.interval as i64)),
                ("meta_event_type"@, SpecJson::Str(e.meta_event_type)),
                ("post_type"@, SpecJson::Str(e.post_type)),
                ("self_id"@, SpecJson::Int(e.self_id as i64)),
                ("status"@, e.status),
                ("time"@, SpecJson::Int(e.time as i64)),
            ],
        )
    }

    /// The document serde writes for the record.
    pub fn to_json(&self) -> (r: JsonValue)
        ensures
            r@ == HeartbeatEvent::spec_json(self@),
    {
        let mut e: Vec<(String, JsonValue)> = Vec::new();
        assert(model_entries(e@) =~= Seq::<(Seq<char>, SpecJson)>::empty());
        push_entry(&mut e, "interval", JsonValue::Int(self.interval as i64));
        push_entry(&mut e, "meta_event_type", JsonValue::Str(self.meta_event_type.clone()));
        push_entry(&mut e, "post_type", JsonValue::Str(self.post_type.clone()));
        push_entry(&mut e, "self_id", JsonValue::Int(self.self_id as i64));
        push_entry(&mut e, "status", self.status.copy());
        push_entry(&mut e, "time", JsonValue::Int(self.time as i64));
        let ghost want = seq![
            ("interval"@, SpecJson::Int(self@.interval as i64)),
            ("meta_event_type"@, SpecJson::Str(self@.meta_event_type)),
            ("post_type"@, SpecJson::Str(self@.post_type)),
            ("self_id"@, SpecJson::Int(self@.self_id as i64)),
            ("status"@, self@.status),
            ("time"@, SpecJson::Int(self@.time as i64)),
        ];
        assert(model_entries(e@) =~= want);
        JsonValue::Object(e)
    }
}

/// The sender of a chat message.
#[derive(Debug)]
pub struct MsgSender {
    pub user_id: i64,
    pub nickname: String,
    pub sex: Option<String>,
    pub age: Option<i32>,
    pub card: Option<String>,
    pub area: Option<String>,
    pub level: Option<String>,
    pub role: Option<GroupRole>,
    pub title: Option<String>,
}

/// The model of [`MsgSender`].
pub struct MsgSenderView {
    pub user_id: i64,
    pub nickname: Seq<char>,
    pub sex: Option<Seq<char>>,
    pub age: Option<i32>,
    pub card: Option<Seq<char>>,
    pub area: Option<Seq<char>>,
    pub level: Option<Seq<char>>,
    pub role: Option<GroupRole>,
    pub title: Option<Seq<char>>,
}

impl View for MsgSender {
    type V = MsgSenderView;

    open spec fn view(&self) -> MsgSenderView {
        MsgSenderView {
            user_id: self.user_id,
            nickname: self.nickname@,
            sex: opt_string_view(self.sex),
            age: self.age,
            card: opt_string_view(self.card),
            area: opt_string_view(self.area),
            level: opt_string_view(self.level),
            role: self.role,
            title: opt_string_view(self.title),
        }
    }
}

impl MsgSender {
    /// The record that `v` holds, read field by field as serde reads it;
    /// `None` where a field is missing or of the wrong kind.
    pub open spec fn spec_parse(v: SpecJson) -> Option<MsgSenderView> {
        let f_user_id = req_int(field_of(v, "user_id"@, 0, 9), i64::MIN as int, i64::MAX as int);
        let f_nickname = req_text(field_of(v, "nickname"@, 1, 9));
        let f_sex = opt_text(field_of(v, "sex"@, 2, 9));
        let f_age = opt_int(field_of(v, "age"@, 3, 9), i32::MIN as int, i32::MAX as int);
        let f_card = opt_text(field_of(v, "card"@, 4, 9));
        let f_area = opt_text(field_of(v, "area"@, 5, 9));
        let f_level = opt_text(field_of(v, "level"@, 6, 9));
        let f_role = GroupRole::spec_read_opt(field_of(v, "role"@, 7, 9));
        let f_title = opt_text(field_of(v, "title"@, 8, 9));
        if shaped(v, 9) && f_user_id is Some && f_nickname is Some && f_sex is Some && f_age is Some && f_card is Some && f_area is Some && f_level is Some && f_role is Some && f_title is Some {
            Some(MsgSenderView {
                user_id: f_user_id->0 as i64,
                nickname: f_nickname->0,
                sex: f_sex->0,
                age: match f_age->0 { Some(y) => Some(y as i32), None => None },
                card: f_card->0,
                area: f_area->0,
                level: f_level->0,
                role: f_role->0,
                title: f_title->0,
            })
        } else {
            None
        }
    }

    /// The record that `v` holds, read field by field as serde reads it.
    pub fn from_json(v: &JsonValue) -> (r: Option<MsgSender>)
        ensures
            match r {
                Some(e) => MsgSender::spec_parse(v@) == Some(e@),
                None => MsgSender::spec_parse(v@) is None,
            },
    {
        if !is_shaped(v, 9) {
            return None;
        }
        let f_user_id = match read_int(field(v, "user_id", 0, 9), i64::MIN as i64, i64::MAX as i64) {
            Some(y) => y,
            None => {
                return None;
            },
        };
        let f_nickname = match read_text(field(v, "nickname", 1, 9)) {
            Some(y) => y,
            None => {
                return None;
            },
        };
        let f_sex = match read_opt_text(field(v, "sex", 2, 9)) {
            Some(y) => y,
            None => {
                return None;
            },
        };
        let f_age = match read_opt_int(field(v, "age", 3, 9), i32::MIN as i64, i32::MAX as i64) {
            Some(y) => match y { Some(z) => Some(z as i32), None => None },
            None => {
                return None;
            },
        };
        let f_card = match read_opt_text(field(v, "card", 4, 9)) {
            Some(y) => y,
            None => {
                return None;
            },
        };
        let f_area = match read_opt_text(field(v, "area", 5, 9)) {
            Some(y) => y,
            None => {
                return None;
            },
        };
        let f_level = match read_opt_text(field(v, "level", 6, 9)) {
            Some(y) => y,
            None => {
                return None;
            },
        };
        let f_role = match GroupRole::read_opt(field(v, "role", 7, 9)) {
            Some(y) => y,
            None => {
                return None;
            },
        };
        let f_title = match read_opt_text(field(v, "title", 8, 9)) {
            Some(y) => y,
            None => {
                return None;
            },
        };
        Some(MsgSender {
            user_id: f_user_id,
            nickname: f_nickname,
            sex: f_sex,
            age: f_age,
            card: f_card,
            area: f_area,
            level: f_level,
            role: f_role,
            title: f_title,
        })
    }

    /// The document serde writes for the record: an object with one
    /// entry per field, keys in sorted order.
    pub open spec fn spec_json(e: MsgSenderView) -> SpecJson {
        SpecJson::Object(
            seq![
                ("age"@, json_opt_i32(e.age)),
                ("area"@, json_opt_text(e.area)),
                ("card"@, json_opt_text(e.card)),
                ("level"@, json_opt_text(e.level)),
                ("nickname"@, SpecJson::Str(e.nickname)),
                ("role"@, GroupRole::spec_json_opt(e.role)),
                ("sex"@, json_opt_text(e.sex)),
                ("title"@, json_opt_text(e.title)),
                ("user_id"@, SpecJson::Int(e.user_id as i64)),
            ],
        )
    }

    /// The document serde writes for the record.
    pub fn to_json(&self) -> (r: JsonValue)
        ensures
            r@ == MsgSender::spec_json(self@),
    {
        let mut e: Vec<(String, JsonValue)> = Vec::new();
        assert(model_entries(e@) =~= Seq::<(Seq<char>, SpecJson)>::empty());
        push_entry(&mut e, "age", opt_i32_json(self.age));
        push_entry(&mut e, "area", opt_text_json(&self.area));
        push_entry(&mut e, "card", opt_text_json(&self.card));
        push_entry(&mut e, "level", opt_text_json(&self.level));
        push_entry(&mut e, "nickname", JsonValue::Str(self.nickname.clone()));
        push_entry(&mut e, "role", GroupRole::json_opt(self.role));
        push_entry(&mut e, "sex", opt_text_json(&self.sex));
        push_entry(&mut e, "title", opt_text_json(&self.title));
        push_entry(&mut e, "user_id", JsonValue::Int(self.user_id as i64));
        let ghost want = seq![
            ("age"@, json_opt_i32(self@.age)),
            ("area"@, json_opt_text(self@.area)),
            ("card"@, json_opt_text(self@.card)),
            ("level"@, json_opt_text(self@.level)),
            ("nickname"@, SpecJson::Str(self@.nickname)),
            ("role"@, GroupRole::spec_json_opt(self@.role)),
            ("sex"@, json_opt_text(self@.sex)),
            ("title"@, json_opt_text(self@.title)),
            ("user_id"@, SpecJson::Int(self@.user_id as i64)),
        ];
        assert(model_entries(e@) =~= want);
        JsonValue::Object(e)
    }
}

/// A message in a group chat.
#[derive(Debug)]
pub struct GroupMsgEvent {
    pub self_id: i64,
    pub user_id: i64,
    pub time: i64,
    pub message_id: i64,
    pub message_seq: i64,
    pub real_id: i64,
    pub real_seq: String,
    pub message_type: MessageType,
    pub sender: MsgSender,
    pub raw_message: String,
    pub font: i16,
    pub sub_type: String,
    pub message: Message,
    pub message_format: String,
    pub post_type: PostType,
    pub message_sent_type: Option<String>,
    pub group_id: i64,
    pub target_id: Option<i64>,
    pub raw: JsonValue,
}

/// The model of [`GroupMsgEvent`].
pub struct GroupMsgEventView {
    pub self_id: i64,
    pub user_id: i64,
    pub time: i64,
    pub message_id: i64,
    pub message_seq: i64,
    pub real_id: i64,
    pub real_seq: Seq<char>,
    pub message_type: MessageType,
    pub sender: MsgSenderView,
    pub raw_message: Seq<char>,
    pub font: i16,
    pub sub_type: Seq<char>,
    pub message: Seq<SpecJson>,
    pub message_format: Seq<char>,
    pub post_type: PostType,
    pub message_sent_type: Option<Seq<char>>,
    pub group_id: i64,
    pub target_id: Option<i64>,
    pub raw: SpecJson,
}

impl View for GroupMsgEvent {
    type V = GroupMsgEventView;

    open spec fn view(&self) -> GroupMsgEventView {
        GroupMsgEventView {
            self_id: self.self_id,
            user_id: self.user_id,
            time: self.time,
            message_id: self.message_id,
            message_seq: self.message_seq,
            real_id: self.real_id,
            real_seq: self.real_seq@,
            message_type: self.message_type,
            sender: self.sender@,
            raw_message: self.raw_message@,
            font: self.font,
            sub_type: self.sub_type@,
            message: self.message@,
            message_format: self.message_format@,
            post_type: self.post_type,
            message_sent_type: opt_string_view(self.message_sent_type),
            group_id: self.group_id,
            target_id: self.target_id,
            raw: self.raw@,
        }
    }
}

impl GroupMsgEvent {
    /// The record that `v` holds, read field by field as serde reads it;
    /// `None` where a field is missing or of the wrong kind.
    pub open spec fn spec_parse(v: SpecJson) -> Option<GroupMsgEventView> {
        let f_self_id = req_int(field_of(v, "self_id"@, 0, 19), i64::MIN as int, i64::MAX as int);
        let f_user_id = req_int(field_of(v, "user_id"@, 1, 19), i64::MIN as int, i64::MAX as int);
        let f_time = req_int(field_of(v, "time"@, 2, 19), i64::MIN as int, i64::MAX as int);
        let f_message_id = req_int(field_of(v, "message_id"@, 3, 19), i64::MIN as int, i64::MAX as int);
        let f_message_seq = req_int(field_of(v, "message_seq"@, 4, 19), i64::MIN as int, i64::MAX as int);
        let f_real_id = req_int(field_of(v, "real_id"@, 5, 19), i64::MIN as int, i64::MAX as int);
        let f_real_seq = req_text(field_of(v, "real_seq"@, 6, 19));
        let f_message_type = MessageType::spec_read(field_of(v, "message_type"@, 7, 19));
        let f_sender = req_record_msg_sender(field_of(v, "sender"@, 8, 19));
        let f_raw_message = req_text(field_of(v, "raw_message"@, 9, 19));
        let f_font = req_int(field_of(v, "font"@, 10, 19), i16::MIN as int, i16::MAX as int);
        let f_sub_type = req_text(field_of(v, "sub_type"@, 11, 19));
        let f_message = req_message(field_of(v, "message"@, 12, 19));
        let f_message_format = req_text(field_of(v, "message_format"@, 13, 19));
        let f_post_type = PostType::spec_read(field_of(v, "post_type"@, 14, 19));
        let f_message_sent_type = opt_text(field_of(v, "message_sent_type"@, 15, 19));
        let f_group_id = req_int(field_of(v, "group_id"@, 16, 19), i64::MIN as int, i64::MAX as int);
        let f_target_id = opt_int(field_of(v, "target_id"@, 17, 19), i64::MIN as int, i64::MAX as int);
        let f_raw = req_any(field_of(v, "raw"@, 18, 19));
        if shaped(v, 19) && f_self_id is Some && f_user_id is Some && f_time is Some && f_message_id is Some && f_message_seq is Some && f_real_id is Some && f_real_seq is Some && f_message_type is Some && f_sender is Some && f_raw_message is Some && f_font is Some && f_sub_type is Some && f_message is Some && f_message_format is Some && f_post_type is Some && f_message_sent_type is Some && f_group_id is Some && f_target_id is Some && f_raw is Some {
            Some(GroupMsgEventView {
                self_id: f_self_id->0 as i64,
                user_id: f_user_id->0 as i64,
                time: f_time->0 as i64,
                message_id: f_message_id->0 as i64,
                message_seq: f_message_seq->0 as i64,
                real_id: f_real_id->0 as i64,
                real_seq: f_real_seq->0,
                message_type: f_message_type->0,
                sender: f_sender->0,
                raw_message: f_raw_message->0,
                font: f_font->0 as i16,
                sub_type: f_sub_type->0,
                message: f_message->0,
                message_format: f_message_format->0,
                post_type: f_post_type->0,
                message_sent_type: f_message_sent_type->0,
                group_id: f_group_id->0 as i64,
                target_id: match f_target_id->0 { Some(y) => Some(y as i64), None => None },
                raw: f_raw->0,
            })
        } else {
            None
        }
    }

    /// The record that `v` holds, read field by field as serde reads it.
    pub fn from_json(v: &JsonValue) -> (r: Option<GroupMsgEvent>)
        ensures
            match r {
                Some(e) => GroupMsgEvent::spec_parse(v@) == Some(e@),
                None => GroupMsgEvent::spec_parse(v@) is None,
            },
    {
        if !is_shaped(v, 19) {
            return None;
        }
        let f_self_id = match read_int(field(v, "self_id", 0, 19), i64::MIN as i64, i64::MAX as i64) {
            Some(y) => y,
            None => {
                return None;
            },
        };
        let f_user_id = match read_int(field(v, "user_id", 1, 19), i64::MIN as i64, i64::MAX as i64) {
            Some(y) => y,
            None => {
                return None;
            },
        };
        let f_time = match read_int(field(v, "time", 2, 19), i64::MIN as i64, i64::MAX as i64) {
            Some(y) => y,
            None => {
                return None;
            },
        };
        let f_message_id = match read_int(field(v, "message_id", 3, 19), i64::MIN as i64, i64::MAX as i64) {
            Some(y) => y,
            None => {
                return None;
            },
        };
        let f_message_seq = match read_int(field(v, "message_seq", 4, 19), i64::MIN as i64, i64::MAX as i64) {
            Some(y) => y,
            None => {
                return None;
            },
        };
        let f_real_id = match read_int(field(v, "real_id", 5, 19), i64::MIN as i64, i64::MAX as i64) {
            Some(y) => y,
            None => {
                return None;
            },
        };
        let f_real_seq = match read_text(field(v, "real_seq", 6, 19)) {
            Some(y) => y,
            None => {
                return None;
            },
        };
        let f_message_type = match MessageType::read(field(v, "message_type", 7, 19)) {
            Some(y) => y,
            None => {
                return None;
            },
        };
        let f_sender = match read_record_msg_sender(field(v, "sender", 8, 19)) {
            Some(y) => y,
            None => {
                return None;
            },
        };
        let f_raw_message = match read_text(field(v, "raw_message", 9, 19)) {
            Some(y) => y,
            None => {
                return None;
            },
        };
        let f_font = match read_int(field(v, "font", 10, 19), i16::MIN as i64, i16::MAX as i64) {
            Some(y) => y as i16,
            None => {
                return None;
            },
        };
        let f_sub_type = match read_text(field(v, "sub_type", 11, 19)) {
            Some(y) => y,
            None => {
                return None;
            },
        };
        let f_message = match read_message(field(v, "message", 12, 19)) {
            Some(y) => y,
            None => {
                return None;
            },
        };
        let f_message_format = match read_text(field(v, "message_format", 13, 19)) {
            Some(y) => y,
            None => {
                return None;
            },
        };
        let f_post_type = match PostType::read(field(v, "post_type", 14, 19)) {
            Some(y) => y,
            None => {
                return None;
            },
        };
        let f_message_sent_type = match read_opt_text(field(v, "message_sent_type", 15, 19)) {
            Some(y) => y,
            None => {
                return None;
            },
        };
        let f_group_id = match read_int(field(v, "group_id", 16, 19), i64::MIN as i64, i64::MAX as i64) {
            Some(y) => y,
            None => {
                return None;
            },
        };
        let f_target_id = match read_opt_int(field(v, "target_id", 17, 19), i64::MIN as i64, i64::MAX as i64) {
            Some(y) => y,
            None => {
                return None;
            },
        };
        let f_raw = match read_any(field(v, "raw", 18, 19)) {
            Some(y) => y,
            None => {
                return None;
            },
        };
        Some(GroupMsgEvent {
            self_id: f_self_id,
            user_id: f_user_id,
            time: f_time,
            message_id: f_message_id,
            message_seq: f_message_seq,
            real_id: f_real_id,
            real_seq: f_real_seq,
            message_type: f_message_type,
            sender: f_sender,
            raw_message: f_raw_message,
            font: f_font,
            sub_type: f_sub_type,
            message: f_message,
            message_format: f_message_format,
            post_type: f_post_type,
            message_sent_type: f_message_sent_type,
            group_id: f_group_id,
            target_id: f_target_id,
            raw: f_raw,
        })
    }

    /// The document serde writes for the record: an object with one
    /// entry per field, keys in sorted order.
    pub open spec fn spec_json(e: GroupMsgEventView) -> SpecJson {
        SpecJson::Object(
            seq![
                ("font"@, SpecJson::Int(e.font as i64)),
                ("group_id"@, SpecJson::Int(e.group_id as i64)),
                ("message"@, SpecJson::Str(spec_json_text(SpecJson::Array(e.message)))),
                ("message_format"@, SpecJson::Str(e.message_format)),
                ("message_id"@, SpecJson::Int(e.message_id as i64)),
                ("message_sent_type"@, json_opt_text(e.message_sent_type)),
                ("message_seq"@, SpecJson::Int(e.message_seq as i64)),
                ("message_type"@, SpecJson::Str(e.message_type.spec_name())),
                ("post_type"@, SpecJson::Str(e.post_type.spec_name())),
                ("raw"@, e.raw),
                ("raw_message"@, SpecJson::Str(e.raw_message)),
                ("real_id"@, SpecJson::Int(e.real_id as i64)),
                ("real_seq"@, SpecJson::Str(e.real_seq)),
                ("self_id"@, SpecJson::Int(e.self_id as i64)),
                ("sender"@, MsgSender::spec_json(e.sender)),
                ("sub_type"@, SpecJson::Str(e.sub_type)),
                ("target_id"@, json_opt_i64(e.target_id)),
                ("time"@, SpecJson::Int(e.time as i64)),
                ("user_id"@, SpecJson::Int(e.user_id as i64)),
            ],
        )
    }

    /// The document serde writes for the record.
    pub fn to_json(&self) -> (r: JsonValue)
        ensures
            r@ == GroupMsgEvent::spec_json(self@),
    {
        let mut e: Vec<(String, JsonValue)> = Vec::new();
        assert(model_entries(e@) =~= Seq::<(Seq<char>, SpecJson)>::empty());
        push_entry(&mut e, "font", JsonValue::Int(self.font as i64));
        push_entry(&mut e, "group_id", JsonValue::Int(self.group_id as i64));
        push_entry(&mut e, "message", JsonValue::Str(self.message.to_string()));
        push_entry(&mut e, "message_format", JsonValue::Str(self.message_format.clone()));
        push_entry(&mut e, "message_id", JsonValue::Int(self.message_id as i64));
        push_entry(&mut e, "message_sent_type", opt_text_json(&self.message_sent_type));
        push_entry(&mut e, "message_seq", JsonValue::Int(self.message_seq as i64));
        push_entry(&mut e, "message_type", JsonValue::Str(String::from_str(self.message_type.name())));
        push_entry(&mut e, "post_type", JsonValue::Str(String::from_str(self.post_type.name())));
        push_entry(&mut e, "raw", self.raw.copy());
        push_entry(&mut e, "raw_message", JsonValue::Str(self.raw_message.clone()));
        push_entry(&mut e, "real_id", JsonValue::Int(self.real_id as i64));
        push_entry(&mut e, "real_seq", JsonValue::Str(self.real_seq.clone()));
        push_entry(&mut e, "self_id", JsonValue::Int(self.self_id as i64));
        push_entry(&mut e, "sender", self.sender.to_json());
        push_entry(&mut e, "sub_type", JsonValue::Str(self.sub_type.clone()));
        push_entry(&mut e, "target_id", opt_i64_json(self.target_id));
        push_entry(&mut e, "time", JsonValue::Int(self.time as i64));
        push_entry(&mut e, "user_id", JsonValue::Int(self.user_id as i64));
        let ghost want = seq![
            ("font"@, SpecJson::Int(self@.font as i64)),
            ("group_id"@, SpecJson::Int(self@.group_id as i64)),
            ("message"@, SpecJson::Str(spec_json_text(SpecJson::Array(self@.message)))),
            ("message_format"@, SpecJson::Str(self@.message_format)),
            ("message_id"@, SpecJson::Int(self@.message_id as i64)),
            ("message_sent_type"@, json_opt_text(self@.message_sent_type)),
            ("message_seq"@, SpecJson::Int(self@.message_seq as i64)),
            ("message_type"@, SpecJson::Str(self@.message_type.spec_name())),
            ("post_type"@, SpecJson::Str(self@.post_type.spec_name())),
            ("raw"@, self@.raw),
            ("raw_message"@, SpecJson::Str(self@.raw_message)),
            ("real_id"@, SpecJson::Int(self@.real_id as i64)),
            ("real_seq"@, SpecJson::Str(self@.real_seq)),
            ("self_id"@, SpecJson::Int(self@.self_id as i64)),
            ("sender"@, MsgSender::spec_json(self@.sender)),
            ("sub_type"@, SpecJson::Str(self@.sub_type)),
            ("target_id"@, json_opt_i64(self@.target_id)),
            ("time"@, SpecJson::Int(self@.time as i64)),
            ("user_id"@, SpecJson::Int(self@.user_id as i64)),
        ];
        assert(model_entries(e@) =~= want);
        JsonValue::Object(e)
    }
}

/// A private chat message.
#[derive(Debug)]
pub struct PrivateMsgEvent {
    pub self_id: i64,
    pub user_id: i64,
    pub time: i64,
    pub message_id: i64,
    pub message_seq: i64,
    pub real_id: i64,
    pub message_type: String,
    pub sender: MsgSender,
    pub raw_message: String,
    pub font: i16,
    pub sub_type: String,
    pub message: Message,
    pub message_format: String,
    pub post_type: PostType,
}

/// The model of [`PrivateMsgEvent`].
pub struct PrivateMsgEventView {
    pub self_id: i64,
    pub user_id: i64,
    pub time: i64,
    pub message_id: i64,
    pub message_seq: i64,
    pub real_id: i64,
    pub message_type: Seq<char>,
    pub sender: MsgSenderView,
    pub raw_message: Seq<char>,
    pub font: i16,
    pub sub_type: Seq<char>,
    pub message: Seq<SpecJson>,
    pub message_format: Seq<char>,
    pub post_type: PostType,
}

impl View for PrivateMsgEvent {
    type V = PrivateMsgEventView;

    open spec fn view(&self) -> PrivateMsgEventView {
        PrivateMsgEventView {
            self_id: self.self_id,
            user_id: self.user_id,
            time: self.time,
            message_id: self.message_id,
            message_seq: self.message_seq,
            real_id: self.real_id,
            message_type: self.message_type@,
            sender: self.sender@,
            raw_message: self.raw_message@,
            font: self.font,
            sub_type: self.sub_type@,
            message: self.message@,
            message_format: self.message_format@,
            post_type: self.post_type,
        }
    }
}

impl PrivateMsgEvent {
    /// The record that `v` holds, read field by field as serde reads it;
    /// `None` where a field is missing or of the wrong kind.
    pub open spec fn spec_parse(v: SpecJson) -> Option<PrivateMsgEventView> {
        let f_self_id = req_int(field_of(v, "self_id"@, 0, 14), i64::MIN as int, i64::MAX as int);
        let f_user_id = req_int(field_of(v, "user_id"@, 1, 14), i64::MIN as int, i64::MAX as int);
        let f_time = req_int(field_of(v, "time"@, 2, 14), i64::MIN as int, i64::MAX as int);
        let f_message_id = req_int(field_of(v, "message_id"@, 3, 14), i64::MIN as int, i64::MAX as int);
        let f_message_seq = req_int(field_of(v, "message_seq"@, 4, 14), i64::MIN as int, i64::MAX as int);
        let f_real_id = req_int(field_of(v, "real_id"@, 5, 14), i64::MIN as int, i64::MAX as int);
        let f_message_type = req_text(field_of(v, "message_type"@, 6, 14));
        let f_sender = req_record_msg_sender(field_of(v, "sender"@, 7, 14));
        let f_raw_message = req_text(field_of(v, "raw_message"@, 8, 14));
        let f_font = req_int(field_of(v, "font"@, 9, 14), i16::MIN as int, i16::MAX as int);
        let f_sub_type = req_text(field_of(v, "sub_type"@, 10, 14));
        let f_message = req_message(field_of(v, "message"@, 11, 14));
        let f_message_format = req_text(field_of(v, "message_format"@, 12, 14));
        let f_post_type = PostType::spec_read(field_of(v, "post_type"@, 13, 14));
        if shaped(v, 14) && f_self_id is Some && f_user_id is Some && f_time is Some && f_message_id is Some && f_message_seq is Some && f_real_id is Some && f_message_type is Some && f_sender is Some && f_raw_message is Some && f_font is Some && f_sub_type is Some && f_message is Some && f_message_format is Some && f_post_type is Some {
            Some(PrivateMsgEventView {
                self_id: f_self_id->0 as i64,
                user_id: f_user_id->0 as i64,
                time: f_time->0 as i64,
                message_id: f_message_id->0 as i64,
                message_seq: f_message_seq->0 as i64,
                real_id: f_real_id->0 as i64,
                message_type: f_message_type->0,
                sender: f_sender->0,
                raw_message: f_raw_message->0,
                font: f_font->0 as i16,
                sub_type: f_sub_type->0,
                message: f_message->0,
                message_format: f_message_format->0,
                post_type: f_post_type->0,
            })
        } else {
            None
        }
    }

    /// The record that `v` holds, read field by field as serde reads it.
    pub fn from_json(v: &JsonValue) -> (r: Option<PrivateMsgEvent>)
        ensures
            match r {
                Some(e) => PrivateMsgEvent::spec_parse(v@) == Some(e@),
                None => PrivateMsgEvent::spec_parse(v@) is None,
            },
    {
        if !is_shaped(v, 14) {
            return None;
        }
        let f_self_id = match read_int(field(v, "self_id", 0, 14), i64::MIN as i64, i64::MAX as i64) {
            Some(y) => y,
            None => {
                return None;
            },
        };
        let f_user_id = match read_int(field(v, "user_id", 1, 14), i64::MIN as i64, i64::MAX as i64) {
            Some(y) => y,
            None => {
                return None;
            },
        };
        let f_time = match read_int(field(v, "time", 2, 14), i64::MIN as i64, i64::MAX as i64) {
            Some(y) => y,
            None => {
                return None;
            },
        };
        let f_message_id = match read_int(field(v, "message_id", 3, 14), i64::MIN as i64, i64::MAX as i64) {
            Some(y) => y,
            None => {
                return None;
            },
        };
        let f_message_seq = match read_int(field(v, "message_seq", 4, 14), i64::MIN as i64, i64::MAX as i64) {
            Some(y) => y,
            None => {
                return None;
            },
        };
        let f_real_id = match read_int(field(v, "real_id", 5, 14), i64::MIN as i64, i64::MAX as i64) {
            Some(y) => y,
            None => {
                return None;
            },
        };
        let f_message_type = match read_text(field(v, "message_type", 6, 14)) {
            Some(y) => y,
            None => {
                return None;
            },
        };
        let f_sender = match read_record_msg_sender(field(v, "sender", 7, 14)) {
            Some(y) => y,
            None => {
                return None;
            },
        };
        let f_raw_message = match read_text(field(v, "raw_message", 8, 14)) {
            Some(y) => y,
            None => {
                return None;
            },
        };
        let f_font = match read_int(field(v, "font", 9, 14), i16::MIN as i64, i16::MAX as i64) {
            Some(y) => y as i16,
            None => {
                return None;
            },
        };
        let f_sub_type = match read_text(field(v, "sub_type", 10, 14)) {
            Some(y) => y,
            None => {
                return None;
            },
        };
        let f_message = match read_message(field(v, "message", 11, 14)) {
            Some(y) => y,
            None => {
                return None;
            },
        };
        let f_message_format = match read_text(field(v, "message_format", 12, 14)) {
            Some(y) => y,
            None => {
                return None;
            },
        };
        let f_post_type = match PostType::read(field(v, "post_type", 13, 14)) {
            Some(y) => y,
            None => {
                return None;
            },
        };
        Some(PrivateMsgEvent {
            self_id: f_self_id,
            user_id: f_user_id,
            time: f_time,
            message_id: f_message_id,
            message_seq: f_message_seq,
            real_id: f_real_id,
            message_type: f_message_type,
            sender: f_sender,
            raw_message: f_raw_message,
            font: f_font,
            sub_type: f_sub_type,
            message: f_message,
            message_format: f_message_format,
            post_type: f_post_type,
        })
    }

    /// The document serde writes for the record: an object with one
    /// entry per field, keys in sorted order.
    pub open spec fn spec_json(e: PrivateMsgEventView) -> SpecJson {
        SpecJson::Object(
            seq![
                ("font"@, SpecJson::Int(e.font as i64)),
                ("message"@, SpecJson::Str(spec_json_text(SpecJson::Array(e.message)))),
                ("message_format"@, SpecJson::Str(e.message_format)),
                ("message_id"@, SpecJson::Int(e.message_id as i64)),
                ("message_seq"@, SpecJson::Int(e.message_seq as i64)),
                ("message_type"@, SpecJson::Str(e.message_type)),
                ("post_type"@, SpecJson::Str(e.post_type.spec_name())),
                ("raw_message"@, SpecJson::Str(e.raw_message)),
                ("real_id"@, SpecJson::Int(e.real_id as i64)),
                ("self_id"@, SpecJson::Int(e.self_id as i64)),
                ("sender"@, MsgSender::spec_json(e.sender)),
                ("sub_type"@, SpecJson::Str(e.sub_type)),
                ("time"@, SpecJson::Int(e.time as i64)),
                ("user_id"@, SpecJson::Int(e.user_id as i64)),
            ],
        )
    }

    /// The document serde writes for the record.
    pub fn to_json(&self) -> (r: JsonValue)
        ensures
            r@ == PrivateMsgEvent::spec_json(self@),
    {
        let mut e: Vec<(String, JsonValue)> = Vec::new();
        assert(model_entries(e@) =~= Seq::<(Seq<char>, SpecJson)>::empty());
        push_entry(&mut e, "font", JsonValue::Int(self.font as i64));
        push_entry(&mut e, "message", JsonValue::Str(self.message.to_string()));
        push_entry(&mut e, "message_format", JsonValue::Str(self.message_format.clone()));
        push_entry(&mut e, "message_id", JsonValue::Int(self.message_id as i64));
        push_entry(&mut e, "message_seq", JsonValue::Int(self.message_seq as i64));
        push_entry(&mut e, "message_type", JsonValue::Str(self.message_type.clone()));
        push_entry(&mut e, "post_type", JsonValue::Str(String::from_str(self.post_type.name())));
        push_entry(&mut e, "raw_message", JsonValue::Str(self.raw_message.clone()));
        push_entry(&mut e, "real_id", JsonValue::Int(self.real_id as i64));
        push_entry(&mut e, "self_id", JsonValue::Int(self.self_id as i64));
        push_entry(&mut e, "sender", self.sender.to_json());
        push_entry(&mut e, "sub_type", JsonValue::Str(self.sub_type.clone()));
        push_entry(&mut e, "time", JsonValue::Int(self.time as i64));
        push_entry(&mut e, "user_id", JsonValue::Int(self.user_id as i64));
        let ghost want = seq![
            ("font"@, SpecJson::Int(self@.font as i64)),
            ("message"@, SpecJson::Str(spec_json_text(SpecJson::Array(self@.message)))),
            ("message_format"@, SpecJson::Str(self@.message_format)),
            ("message_id"@, SpecJson::Int(self@.message_id as i64)),
            ("message_seq"@, SpecJson::Int(self@.message_seq as i64)),
            ("message_type"@, SpecJson::Str(self@.message_type)),
            ("post_type"@, SpecJson::Str(self@.post_type.spec_name())),
            ("raw_message"@, SpecJson::Str(self@.raw_message)),
            ("real_id"@, SpecJson::Int(self@.real_id as i64)),
            ("self_id"@, SpecJson::Int(self@.self_id as i64)),
            ("sender"@, MsgSender::spec_json(self@.sender)),
            ("sub_type"@, SpecJson::Str(self@.sub_type)),
            ("time"@, SpecJson::Int(self@.time as i64)),
            ("user_id"@, SpecJson::Int(self@.user_id as i64)),
        ];
        assert(model_entries(e@) =~= want);
        JsonValue::Object(e)
    }
}

/// The answer to a request that carried an `echo`.
#[derive(Debug)]
pub struct EchoEvent {
    pub status: String,
    pub retcode: i8,
    pub data: Option<JsonValue>,
    pub message: String,
    pub wording: String,
    pub echo: u16,
}

/// The model of [`EchoEvent`].
pub struct EchoEventView {
    pub status: Seq<char>,
    pub retcode: i8,
    pub data: Option<SpecJson>,
    pub message: Seq<char>,
    pub wording: Seq<char>,
    pub echo: u16,
}

impl View for EchoEvent {
    type V = EchoEventView;

    open spec fn view(&self) -> EchoEventView {
        EchoEventView {
            status: self.status@,
            retcode: self.retcode,
            data: opt_json_view(self.data),
            message: self.message@,
            wording: self.wording@,
            echo: self.echo,
        }
    }
}

impl EchoEvent {
    /// The record that `v` holds, read field by field as serde reads it;
    /// `None` where a field is missing or of the wrong kind.
    pub open spec fn spec_parse(v: SpecJson) -> Option<EchoEventView> {
        let f_status = req_text(field_of(v, "status"@, 0, 6));
        let f_retcode = req_int(field_of(v, "retcode"@, 1, 6), i8::MIN as int, i8::MAX as int);
        let f_data = opt_any(field_of(v, "data"@, 2, 6));
        let f_message = req_text(field_of(v, "message"@, 3, 6));
        let f_wording = req_text(field_of(v, "wording"@, 4, 6));
        let f_echo = req_int(field_of(v, "echo"@, 5, 6), 0 as int, 65535 as int);
        if shaped(v, 6) && f_status is Some && f_retcode is Some && f_data is Some && f_message is Some && f_wording is Some && f_echo is Some {
            Some(EchoEventView {
                status: f_status->0,
                retcode: f_retcode->0 as i8,
                data: f_data->0,
                message: f_message->0,
                wording: f_wording->0,
                echo: f_echo->0 as u16,
            })
        } else {
            None
        }
    }

    /// The record that `v` holds, read field by field as serde reads it.
    pub fn from_json(v: &JsonValue) -> (r: Option<EchoEvent>)
        ensures
            match r {
                Some(e) => EchoEvent::spec_parse(v@) == Some(e@),
                None => EchoEvent::spec_parse(v@) is None,
            },
    {
        if !is_shaped(v, 6) {
            return None;
        }
        let f_status = match read_text(field(v, "status", 0, 6)) {
            Some(y) => y,
            None => {
                return None;
            },
        };
        let f_retcode = match read_int(field(v, "retcode", 1, 6), i8::MIN as i64, i8::MAX as i64) {
            Some(y) => y as i8,
            None => {
                return None;
            },
        };
        let f_data = match read_opt_any(field(v, "data", 2, 6)) {
            Some(y) => y,
            None => {
                return None;
            },
        };
        let f_message = match read_text(field(v, "message", 3, 6)) {
            Some(y) => y,
            None => {
                return None;
            },
        };
        let f_wording = match read_text(field(v, "wording", 4, 6)) {
            Some(y) => y,
            None => {
                return None;
            },
        };
        let f_echo = match read_int(field(v, "echo", 5, 6), 0 as i64, 65535 as i64) {
            Some(y) => y as u16,
            None => {
                return None;
            },
        };
        Some(EchoEvent {
            status: f_status,
            retcode: f_retcode,
            data: f_data,
            message: f_message,
            wording: f_wording,
            echo: f_echo,
        })
    }

    /// The document serde writes for the record: an object with one
    /// entry per field, keys in sorted order.
    pub open spec fn spec_json(e: EchoEventView) -> SpecJson {
        SpecJson::Object(
            seq![
                ("data"@, json_opt_any(e.data)),
                ("echo"@, SpecJson::Int(e.echo as i64)),
                ("message"@, SpecJson::Str(e.message)),
                ("retcode"@, SpecJson::Int(e.retcode as i64)),
                ("status"@, SpecJson::Str(e.status)),
                ("wording"@, SpecJson::Str(e.wording)),
            ],
        )
    }

    /// The document serde writes for the record.
    pub fn to_json(&self) -> (r: JsonValue)
        ensures
            r@ == EchoEvent::spec_json(self@),
    {
        let mut e: Vec<(String, JsonValue)> = Vec::new();
        assert(model_entries(e@) =~= Seq::<(Seq<char>, SpecJson)>::empty());
        push_entry(&mut e, "data", opt_any_json(&self.data));
        push_entry(&mut e, "echo", JsonValue::Int(self.echo as i64));
        push_entry(&mut e, "message", JsonValue::Str(self.message.clone()));
        push_entry(&mut e, "retcode", JsonValue::Int(self.retcode as i64));
        push_entry(&mut e, "status", JsonValue::Str(self.status.clone()));
        push_entry(&mut e, "wording", JsonValue::Str(self.wording.clone()));
        let ghost want = seq![
            ("data"@, json_opt_any(self@.data)),
            ("echo"@, SpecJson::Int(self@.echo as i64)),
            ("message"@, SpecJson::Str(self@.message)),
            ("retcode"@, SpecJson::Int(self@.retcode as i64)),
            ("status"@, SpecJson::Str(self@.status)),
            ("wording"@, SpecJson::Str(self@.wording)),
        ];
        assert(model_entries(e@) =~= want);
        JsonValue::Object(e)
    }
}

/// The answer to a sent message.
#[derive(Debug)]
pub struct SendMsgEcho {
    pub message_id: i64,
}

/// The model of [`SendMsgEcho`].
pub struct SendMsgEchoView {
    pub message_id: i64,
}

impl View for SendMsgEcho {
    type V = SendMsgEchoView;

    open spec fn view(&self) -> SendMsgEchoView {
        SendMsgEchoView {
            message_id: self.message_id,
        }
    }
}

impl SendMsgEcho {
    /// The record that `v` holds, read field by field as serde reads it;
    /// `None` where a field is missing or of the wrong kind.
    pub open spec fn spec_parse(v: SpecJson) -> Option<SendMsgEchoView> {
        let f_message_id = req_int(field_of(v, "message_id"@, 0, 1), i64::MIN as int, i64::MAX as int);
        if shaped(v, 1) && f_message_id is Some {
            Some(SendMsgEchoView {
                message_id: f_message_id->0 as i64,
            })
        } else {
            None
        }
    }

    /// The record that `v` holds, read field by field as serde reads it.
    pub fn from_json(v: &JsonValue) -> (r: Option<SendMsgEcho>)
        ensures
            match r {
                Some(e) => SendMsgEcho::spec_parse(v@) == Some(e@),
                None => SendMsgEcho::spec_parse(v@) is None,
            },
    {
        if !is_shaped(v, 1) {
            return None;
        }
        let f_message_id = match read_int(field(v, "message_id", 0, 1), i64::MIN as i64, i64::MAX as i64) {
            Some(y) => y,
            None => {
                return None;
            },
        };
        Some(SendMsgEcho {
            message_id: f_message_id,
        })
    }
}

/// The answer to `get_status`.
#[derive(Debug)]
pub struct EchoGetStatus {
    pub online: bool,
    pub good: bool,
    pub stat: JsonValue,
}

/// The model of [`EchoGetStatus`].
pub struct EchoGetStatusView {
    pub online: bool,
    pub good: bool,
    pub stat: SpecJson,
}

impl View for EchoGetStatus {
    type V = EchoGetStatusView;

    open spec fn view(&self) -> EchoGetStatusView {
        EchoGetStatusView {
            online: self.online,
            good: self.good,
            stat: self.stat@,
        }
    }
}

impl EchoGetStatus {
    /// The record that `v` holds, read field by field as serde reads it;
    /// `None` where a field is missing or of the wrong kind.
    pub open spec fn spec_parse(v: SpecJson) -> Option<EchoGetStatusView> {
        let f_online = req_bool(field_of(v, "online"@, 0, 3));
        let f_good = req_bool(field_of(v, "good"@, 1, 3));
        let f_stat = req_any(field_of(v, "stat"@, 2, 3));
        if shaped(v, 3) && f_online is Some && f_good is Some && f_stat is Some {
            Some(EchoGetStatusView {
                online: f_online->0,
                good: f_good->0,
                stat: f_stat->0,
            })
        } else {
            None
        }
    }

    /// The record that `v` holds, read field by field as serde reads it.
    pub fn from_json(v: &JsonValue) -> (r: Option<EchoGetStatus>)
        ensures
            match r {
                Some(e) => EchoGetStatus::spec_parse(v@) == Some(e@),
                None => EchoGetStatus::spec_parse(v@) is None,
            },
    {
        if !is_shaped(v, 3) {
            return None;
        }
        let f_online = match read_bool(field(v, "online", 0, 3)) {
            Some(y) => y,
            None => {
                return None;
            },
        };
        let f_good = match read_bool(field(v, "good", 1, 3)) {
            Some(y) => y,
            None => {
                return None;
            },
        };
        let f_stat = match read_any(field(v, "stat", 2, 3)) {
            Some(y) => y,
            None => {
                return None;
            },
        };
        Some(EchoGetStatus {
            online: f_online,
            good: f_good,
            stat: f_stat,
        })
    }
}

/// The answer to `get_version_info`.
#[derive(Debug)]
pub struct EchoGetVersionInfo {
    pub app_name: String,
    pub protocol_version: String,
    pub app_version: String,
}

/// The model of [`EchoGetVersionInfo`].
pub struct EchoGetVersionInfoView {
    pub app_name: Seq<char>,
    pub protocol_version: Seq<char>,
    pub app_version: Seq<char>,
}

impl View for EchoGetVersionInfo {
    type V = EchoGetVersionInfoView;

    open spec fn view(&self) -> EchoGetVersionInfoView {
        EchoGetVersionInfoView {
            app_name: self.app_name@,
            protocol_version: self.protocol_version@,
            app_version: self.app_version@,
        }
    }
}

impl EchoGetVersionInfo {
    /// The record that `v` holds, read field by field as serde reads it;
    /// `None` where a field is missing or of the wrong kind.
    pub open spec fn spec_parse(v: SpecJson) -> Option<EchoGetVersionInfoView> {
        let f_app_name = req_text(field_of(v, "app_name"@, 0, 3));
        let f_protocol_version = req_text(field_of(v, "protocol_version"@, 1, 3));
        let f_app_version = req_text(field_of(v, "app_version"@, 2, 3));
        if shaped(v, 3) && f_app_name is Some && f_protocol_version is Some && f_app_version is Some {
            Some(EchoGetVersionInfoView {
                app_name: f_app_name->0,
                protocol_version: f_protocol_version->0,
                app_version: f_app_version->0,
            })
        } else {
            None
        }
    }

    /// The record that `v` holds, read field by field as serde reads it.
    pub fn from_json(v: &JsonValue) -> (r: Option<EchoGetVersionInfo>)
        ensures
            match r {
                Some(e) => EchoGetVersionInfo::spec_parse(v@) == Some(e@),
                None => EchoGetVersionInfo::spec_parse(v@) is None,
            },
    {
        if !is_shaped(v, 3) {
            return None;
        }
        let f_app_name = match read_text(field(v, "app_name", 0, 3)) {
            Some(y) => y,
            None => {
                return None;
            },
        };
        let f_protocol_version = match read_text(field(v, "protocol_version", 1, 3)) {
            Some(y) => y,
            None => {
                return None;
            },
        };
        let f_app_version = match read_text(field(v, "app_version", 2, 3)) {
            Some(y) => y,
            None => {
                return None;
            },
        };
        Some(EchoGetVersionInfo {
            app_name: f_app_name,
            protocol_version: f_protocol_version,
            app_version: f_app_version,
        })
    }
}

/// The answer to `get_login_info`.
#[derive(Debug)]
pub struct EchoLoginInfo {
    pub user_id: i64,
    pub nickname: String,
}

/// The model of [`EchoLoginInfo`].
pub struct EchoLoginInfoView {
    pub user_id: i64,
    pub nickname: Seq<char>,
}

impl View for EchoLoginInfo {
    type V = EchoLoginInfoView;

    open spec fn view(&self) -> EchoLoginInfoView {
        EchoLoginInfoView {
            user_id: self.user_id,
            nickname: self.nickname@,
        }
    }
}

impl EchoLoginInfo {
    /// The record that `v` holds, read field by field as serde reads it;
    /// `None` where a field is missing or of the wrong kind.
    pub open spec fn spec_parse(v: SpecJson) -> Option<EchoLoginInfoView> {
        let f_user_id = req_int(field_of(v, "user_id"@, 0, 2), i64::MIN as int, i64::MAX as int);
        let f_nickname = req_text(field_of(v, "nickname"@, 1, 2));
        if shaped(v, 2) && f_user_id is Some && f_nickname is Some {
            Some(EchoLoginInfoView {
                user_id: f_user_id->0 as i64,
                nickname: f_nickname->0,
            })
        } else {
            None
        }
    }

    /// The record that `v` holds, read field by field as serde reads it.
    pub fn from_json(v: &JsonValue) -> (r: Option<EchoLoginInfo>)
        ensures
            match r {
                Some(e) => EchoLoginInfo::spec_parse(v@) == Some(e@),
                None => EchoLoginInfo::spec_parse(v@) is None,
            },
    {
        if !is_shaped(v, 2) {
            return None;
        }
        let f_user_id = match read_int(field(v, "user_id", 0, 2), i64::MIN as i64, i64::MAX as i64) {
            Some(y) => y,
            None => {
                return None;
            },
        };
        let f_nickname = match read_text(field(v, "nickname", 1, 2)) {
            Some(y) => y,
            None => {
                return None;
            },
        };
        Some(EchoLoginInfo {
            user_id: f_user_id,
            nickname: f_nickname,
        })
    }
}

/// A message recalled in a group.
#[derive(Debug)]
pub struct GroupRecall {
    pub time: i64,
    pub self_id: i64,
    pub post_type: String,
    pub group_id: i64,
    pub user_id: i64,
    pub notice_type: String,
    pub operator_id: i64,
    pub message_id: i64,
}

/// The model of [`GroupRecall`].
pub struct GroupRecallView {
    pub time: i64,
    pub self_id: i64,
    pub post_type: Seq<char>,
    pub group_id: i64,
    pub user_id: i64,
    pub notice_type: Seq<char>,
    pub operator_id: i64,
    pub message_id: i64,
}

impl View for GroupRecall {
    type V = GroupRecallView;

    open spec fn view(&self) -> GroupRecallView {
        GroupRecallView {
            time: self.time,
            self_id: self.self_id,
            post_type: self.post_type@,
            group_id: self.group_id,
            user_id: self.user_id,
            notice_type: self.notice_type@,
            operator_id: self.operator_id,
            message_id: self.message_id,
        }
    }
}

impl GroupRecall {
    /// The record that `v` holds, read field by field as serde reads it;
    /// `None` where a field is missing or of the wrong kind.
    pub open spec fn spec_parse(v: SpecJson) -> Option<GroupRecallView> {
        let f_time = req_int(field_of(v, "time"@, 0, 8), i64::MIN as int, i64::MAX as int);
        let f_self_id = req_int(field_of(v, "self_id"@, 1, 8), i64::MIN as int, i64::MAX as int);
        let f_post_type = req_text(field_of(v, "post_type"@, 2, 8));
        let f_group_id = req_int(field_of(v, "group_id"@, 3, 8), i64::MIN as int, i64::MAX as int);
        let f_user_id = req_int(field_of(v, "user_id"@, 4, 8), i64::MIN as int, i64::MAX as int);
        let f_notice_type = req_text(field_of(v, "notice_type"@, 5, 8));
        let f_operator_id = req_int(field_of(v, "operator_id"@, 6, 8), i64::MIN as int, i64::MAX as int);
        let f_message_id = req_int(field_of(v, "message_id"@, 7, 8), i64::MIN as int, i64::MAX as int);
        if shaped(v, 8) && f_time is Some && f_self_id is Some && f_post_type is Some && f_group_id is Some && f_user_id is Some && f_notice_type is Some && f_operator_id is Some && f_message_id is Some {
            Some(GroupRecallView {
                time: f_time->0 as i64,
                self_id: f_self_id->0 as i64,
                post_type: f_post_type->0,
                group_id: f_group_id->0 as i64,
                user_id: f_user_id->0 as i64,
                notice_type: f_notice_type->0,
                operator_id: f_operator_id->0 as i64,
                message_id: f_message_id->0 as i64,
            })
        } else {
            None
        }
    }

    /// The record that `v` holds, read field by field as serde reads it.
    pub fn from_json(v: &JsonValue) -> (r: Option<GroupRecall>)
        ensures
            match r {
                Some(e) => GroupRecall::spec_parse(v@) == Some(e@),
                None => GroupRecall::spec_parse(v@) is None,
            },
    {
        if !is_shaped(v, 8) {
            return None;
        }
        let f_time = match read_int(field(v, "time", 0, 8), i64::MIN as i64, i64::MAX as i64) {
            Some(y) => y,
            None => {
                return None;
            },
        };
        let f_self_id = match read_int(field(v, "self_id", 1, 8), i64::MIN as i64, i64::MAX as i64) {
            Some(y) => y,
            None => {
                return None;
            },
        };
        let f_post_type = match read_text(field(v, "post_type", 2, 8)) {
            Some(y) => y,
            None => {
                return None;
            },
        };
        let f_group_id = match read_int(field(v, "group_id", 3, 8), i64::MIN as i64, i64::MAX as i64) {
            Some(y) => y,
            None => {
                return None;
            },
        };
        let f_user_id = match read_int(field(v, "user_id", 4, 8), i64::MIN as i64, i64::MAX as i64) {
            Some(y) => y,
            None => {
                return None;
            },
        };
        let f_notice_type = match read_text(field(v, "notice_type", 5, 8)) {
            Some(y) => y,
            None => {
                return None;
            },
        };
        let f_operator_id = match read_int(field(v, "operator_id", 6, 8), i64::MIN as i64, i64::MAX as i64) {
            Some(y) => y,
            None => {
                return None;
            },
        };
        let f_message_id = match read_int(field(v, "message_id", 7, 8), i64::MIN as i64, i64::MAX as i64) {
            Some(y) => y,
            None => {
                return None;
            },
        };
        Some(GroupRecall {
            time: f_time,
            self_id: f_self_id,
            post_type: f_post_type,
            group_id: f_group_id,
            user_id: f_user_id,
            notice_type: f_notice_type,
            operator_id: f_operator_id,
            message_id: f_message_id,
        })
    }

    /// The document serde writes for the record: an object with one
    /// entry per field, keys in sorted order.
    pub open spec fn spec_json(e: GroupRecallView) -> SpecJson {
        SpecJson::Object(
            seq![
                ("group_id"@, SpecJson::Int(e.group_id as i64)),
                ("message_id"@, SpecJson::Int(e.message_id as i64)),
                ("notice_type"@, SpecJson::Str(e.notice_type)),
                ("operator_id"@, SpecJson::Int(e.operator_id as i64)),
                ("post_type"@, SpecJson::Str(e.post_type)),
                ("self_id"@, SpecJson::Int(e.self_id as i64)),
                ("time"@, SpecJson::Int(e.time as i64)),
                ("user_id"@, SpecJson::Int(e.user_id as i64)),
            ],
        )
    }

    /// The document serde writes for the record.
    pub fn to_json(&self) -> (r: JsonValue)
        ensures
            r@ == GroupRecall::spec_json(self@),
    {
        let mut e: Vec<(String, JsonValue)> = Vec::new();
        assert(model_entries(e@) =~= Seq::<(Seq<char>, SpecJson)>::empty());
        push_entry(&mut e, "group_id", JsonValue::Int(self.group_id as i64));
        push_entry(&mut e, "message_id", JsonValue::Int(self.message_id as i64));
        push_entry(&mut e, "notice_type", JsonValue::Str(self.notice_type.clone()));
        push_entry(&mut e, "operator_id", JsonValue::Int(self.operator_id as i64));
        push_entry(&mut e, "post_type", JsonValue::Str(self.post_type.clone()));
        push_entry(&mut e, "self_id", JsonValue::Int(self.self_id as i64));
        push_entry(&mut e, "time", JsonValue::Int(self.time as i64));
        push_entry(&mut e, "user_id", JsonValue::Int(self.user_id as i64));
        let ghost want = seq![
            ("group_id"@, SpecJson::Int(self@.group_id as i64)),
            ("message_id"@, SpecJson::Int(self@.message_id as i64)),
            ("notice_type"@, SpecJson::Str(self@.notice_type)),
            ("operator_id"@, SpecJson::Int(self@.operator_id as i64)),
            ("post_type"@, SpecJson::Str(self@.post_type)),
            ("self_id"@, SpecJson::Int(self@.self_id as i64)),
            ("time"@, SpecJson::Int(self@.time as i64)),
            ("user_id"@, SpecJson::Int(self@.user_id as i64)),
        ];
        assert(model_entries(e@) =~= want);
        JsonValue::Object(e)
    }
}

/// The answer to `get_msg`.
#[derive(Debug)]
pub struct EchoGetMsg {
    pub time: i64,
    pub message_id: i64,
    pub message_type: MessageType,
    pub real_id: i64,
    pub sender: MsgSender,
    pub message: JsonValue,
}

/// The model of [`EchoGetMsg`].
pub struct EchoGetMsgView {
    pub time: i64,
    pub message_id: i64,
    pub message_type: MessageType,
    pub real_id: i64,
    pub sender: MsgSenderView,
    pub message: SpecJson,
}

impl View for EchoGetMsg {
    type V = EchoGetMsgView;

    open spec fn view(&self) -> EchoGetMsgView {
        EchoGetMsgView {
            time: self.time,
            message_id: self.message_id,
            message_type: self.message_type,
            real_id: self.real_id,
            sender: self.sender@,
            message: self.message@,
        }
    }
}

impl EchoGetMsg {
    /// The record that `v` holds, read field by field as serde reads it;
    /// `None` where a field is missing or of the wrong kind.
    pub open spec fn spec_parse(v: SpecJson) -> Option<EchoGetMsgView> {
        let f_time = req_int(field_of(v, "time"@, 0, 6), i64::MIN as int, i64::MAX as int);
        let f_message_id = req_int(field_of(v, "message_id"@, 1, 6), i64::MIN as int, i64::MAX as int);
        let f_message_type = MessageType::spec_read(field_of(v, "message_type"@, 2, 6));
        let f_real_id = req_int(field_of(v, "real_id"@, 3, 6), i64::MIN as int, i64::MAX as int);
        let f_sender = req_record_msg_sender(field_of(v, "sender"@, 4, 6));
        let f_message = req_any(field_of(v, "message"@, 5, 6));
        if shaped(v, 6) && f_time is Some && f_message_id is Some && f_message_type is Some && f_real_id is Some && f_sender is Some && f_message is Some {
            Some(EchoGetMsgView {
                time: f_time->0 as i64,
                message_id: f_message_id->0 as i64,
                message_type: f_message_type->0,
                real_id: f_real_id->0 as i64,
                sender: f_sender->0,
                message: f_message->0,
            })
        } else {
            None
        }
    }

    /// The record that `v` holds, read field by field as serde reads it.
    pub fn from_json(v: &JsonValue) -> (r: Option<EchoGetMsg>)
        ensures
            match r {
                Some(e) => EchoGetMsg::spec_parse(v@) == Some(e@),
                None => EchoGetMsg::spec_parse(v@) is None,
            },
    {
        if !is_shaped(v, 6) {
            return None;
        }
        let f_time = match read_int(field(v, "time", 0, 6), i64::MIN as i64, i64::MAX as i64) {
            Some(y) => y,
            None => {
                return None;
            },
        };
        let f_message_id = match read_int(field(v, "message_id", 1, 6), i64::MIN as i64, i64::MAX as i64) {
            Some(y) => y,
            None => {
                return None;
            },
        };
        let f_message_type = match MessageType::read(field(v, "message_type", 2, 6)) {
            Some(y) => y,
            None => {
                return None;
            },
        };
        let f_real_id = match read_int(field(v, "real_id", 3, 6), i64::MIN as i64, i64::MAX as i64) {
            Some(y) => y,
            None => {
                return None;
            },
        };
        let f_sender = match read_record_msg_sender(field(v, "sender", 4, 6)) {
            Some(y) => y,
            None => {
                return None;
            },
        };
        let f_message = match read_any(field(v, "message", 5, 6)) {
            Some(y) => y,
            None => {
                return None;
            },
        };
        Some(EchoGetMsg {
            time: f_time,
            message_id: f_message_id,
            message_type: f_message_type,
            real_id: f_real_id,
            sender: f_sender,
            message: f_message,
        })
    }
}

/// A member's group card changed.
#[derive(Debug)]
pub struct GroupCard {
    pub time: i64,
    pub self_id: i64,
    pub post_type: PostType,
    pub group_id: i64,
    pub user_id: i64,
    pub notice_type: NoticeType,
    pub card_new: String,
    pub card_old: String,
}

/// The model of [`GroupCard`].
pub struct GroupCardView {
    pub time: i64,
    pub self_id: i64,
    pub post_type: PostType,
    pub group_id: i64,
    pub user_id: i64,
    pub notice_type: NoticeType,
    pub card_new: Seq<char>,
    pub card_old: Seq<char>,
}

impl View for GroupCard {
    type V = GroupCardView;

    open spec fn view(&self) -> GroupCardView {
        GroupCardView {
            time: self.time,
            self_id: self.self_id,
            post_type: self.post_type,
            group_id: self.group_id,
            user_id: self.user_id,
            notice_type: self.notice_type,
            card_new: self.card_new@,
            card_old: self.card_old@,
        }
    }
}

impl GroupCard {
    /// The record that `v` holds, read field by field as serde reads it;
    /// `None` where a field is missing or of the wrong kind.
    pub open spec fn spec_parse(v: SpecJson) -> Option<GroupCardView> {
        let f_time = req_int(field_of(v, "time"@, 0, 8), i64::MIN as int, i64::MAX as int);
        let f_self_id = req_int(field_of(v, "self_id"@, 1, 8), i64::MIN as int, i64::MAX as int);
        let f_post_type = PostType::spec_read(field_of(v, "post_type"@, 2, 8));
        let f_group_id = req_int(field_of(v, "group_id"@, 3, 8), i64::MIN as int, i64::MAX as int);
        let f_user_id = req_int(field_of(v, "user_id"@, 4, 8), i64::MIN as int, i64::MAX as int);
        let f_notice_type = NoticeType::spec_read(field_of(v, "notice_type"@, 5, 8));
        let f_card_new = req_text(field_of(v, "card_new"@, 6, 8));
        let f_card_old = req_text(field_of(v, "card_old"@, 7, 8));
        if shaped(v, 8) && f_time is Some && f_self_id is Some && f_post_type is Some && f_group_id is Some && f_user_id is Some && f_notice_type is Some && f_card_new is Some && f_card_old is Some {
            Some(GroupCardView {
                time: f_time->0 as i64,
                self_id: f_self_id->0 as i64,
                post_type: f_post_type->0,
                group_id: f_group_id->0 as i64,
                user_id: f_user_id->0 as i64,
                notice_type: f_notice_type->0,
                card_new: f_card_new->0,
                card_old: f_card_old->0,
            })
        } else {
            None
        }
    }

    /// The record that `v` holds, read field by field as serde reads it.
    pub fn from_json(v: &JsonValue) -> (r: Option<GroupCard>)
        ensures
            match r {
                Some(e) => GroupCard::spec_parse(v@) == Some(e@),
                None => GroupCard::spec_parse(v@) is None,
            },
    {
        if !is_shaped(v, 8) {
            return None;
        }
        let f_time = match read_int(field(v, "time", 0, 8), i64::MIN as i64, i64::MAX as i64) {
            Some(y) => y,
            None => {
                return None;
            },
        };
        let f_self_id = match read_int(field(v, "self_id", 1, 8), i64::MIN as i64, i64::MAX as i64) {
            Some(y) => y,
            None => {
                return None;
            },
        };
        let f_post_type = match PostType::read(field(v, "post_type", 2, 8)) {
            Some(y) => y,
            None => {
                return None;
            },
        };
        let f_group_id = match read_int(field(v, "group_id", 3, 8), i64::MIN as i64, i64::MAX as i64) {
            Some(y) => y,
            None => {
                return None;
            },
        };
        let f_user_id = match read_int(field(v, "user_id", 4, 8), i64::MIN as i64, i64::MAX as i64) {
            Some(y) => y,
            None => {
                return None;
            },
        };
        let f_notice_type = match NoticeType::read(field(v, "notice_type", 5, 8)) {
            Some(y) => y,
            None => {
                return None;
            },
        };
        let f_card_new = match read_text(field(v, "card_new", 6, 8)) {
            Some(y) => y,
            None => {
                return None;
            },
        };
        let f_card_old = match read_text(field(v, "card_old", 7, 8)) {
            Some(y) => y,
            None => {
                return None;
            },
        };
        Some(GroupCard {
            time: f_time,
            self_id: f_self_id,
            post_type: f_post_type,
            group_id: f_group_id,
            user_id: f_user_id,
            notice_type: f_notice_type,
            card_new: f_card_new,
            card_old: f_card_old,
        })
    }

    /// The document serde writes for the record: an object with one
    /// entry per field, keys in sorted order.
    pub open spec fn spec_json(e: GroupCardView) -> SpecJson {
        SpecJson::Object(
            seq![
                ("card_new"@, SpecJson::Str(e.card_new)),
                ("card_old"@, SpecJson::Str(e.card_old)),
                ("group_id"@, SpecJson::Int(e.group_id as i64)),
                ("notice_type"@, SpecJson::Str(e.notice_type.spec_name())),
                ("post_type"@, SpecJson::Str(e.post_type.spec_name())),
                ("self_id"@, SpecJson::Int(e.self_id as i64)),
                ("time"@, SpecJson::Int(e.time as i64)),
                ("user_id"@, SpecJson::Int(e.user_id as i64)),
            ],
        )
    }

    /// The document serde writes for the record.
    pub fn to_json(&self) -> (r: JsonValue)
        ensures
            r@ == GroupCard::spec_json(self@),
    {
        let mut e: Vec<(String, JsonValue)> = Vec::new();
        assert(model_entries(e@) =~= Seq::<(Seq<char>, SpecJson)>::empty());
        push_entry(&mut e, "card_new", JsonValue::Str(self.card_new.clone()));
        push_entry(&mut e, "card_old", JsonValue::Str(self.card_old.clone()));
        push_entry(&mut e, "group_id", JsonValue::Int(self.group_id as i64));
        push_entry(&mut e, "notice_type", JsonValue::Str(String::from_str(self.notice_type.name())));
        push_entry(&mut e, "post_type", JsonValue::Str(String::from_str(self.post_type.name())));
        push_entry(&mut e, "self_id", JsonValue::Int(self.self_id as i64));
        push_entry(&mut e, "time", JsonValue::Int(self.time as i64));
        push_entry(&mut e, "user_id", JsonValue::Int(self.user_id as i64));
        let ghost want = seq![
            ("card_new"@, SpecJson::Str(self@.card_new)),
            ("card_old"@, SpecJson::Str(self@.card_old)),
            ("group_id"@, SpecJson::Int(self@.group_id as i64)),
            ("notice_type"@, SpecJson::Str(self@.notice_type.spec_name())),
            ("post_type"@, SpecJson::Str(self@.post_type.spec_name())),
            ("self_id"@, SpecJson::Int(self@.self_id as i64)),
            ("time"@, SpecJson::Int(self@.time as i64)),
            ("user_id"@, SpecJson::Int(self@.user_id as i64)),
        ];
        assert(model_entries(e@) =~= want);
        JsonValue::Object(e)
    }
}

/// One emoji reaction and its count.
#[derive(Debug)]
pub struct EmojiLike {
    pub emoji_id: String,
    pub count: i32,
}

/// The model of [`EmojiLike`].
pub struct EmojiLikeView {
    pub emoji_id: Seq<char>,
    pub count: i32,
}

impl View for EmojiLike {
    type V = EmojiLikeView;

    open spec fn view(&self) -> EmojiLikeView {
        EmojiLikeView {
            emoji_id: self.emoji_id@,
            count: self.count,
        }
    }
}

impl EmojiLike {
    /// The record that `v` holds, read field by field as serde reads it;
    /// `None` where a field is missing or of the wrong kind.
    pub open spec fn spec_parse(v: SpecJson) -> Option<EmojiLikeView> {
        let f_emoji_id = req_text(field_of(v, "emoji_id"@, 0, 2));
        let f_count = req_int(field_of(v, "count"@, 1, 2), i32::MIN as int, i32::MAX as int);
        if shaped(v, 2) && f_emoji_id is Some && f_count is Some {
            Some(EmojiLikeView {
                emoji_id: f_emoji_id->0,
                count: f_count->0 as i32,
            })
        } else {
            None
        }
    }

    /// The record that `v` holds, read field by field as serde reads it.
    pub fn from_json(v: &JsonValue) -> (r: Option<EmojiLike>)
        ensures
            match r {
                Some(e) => EmojiLike::spec_parse(v@) == Some(e@),
                None => EmojiLike::spec_parse(v@) is None,
            },
    {
        if !is_shaped(v, 2) {
            return None;
        }
        let f_emoji_id = match read_text(field(v, "emoji_id", 0, 2)) {
            Some(y) => y,
            None => {
                return None;
            },
        };
        let f_count = match read_int(field(v, "count", 1, 2), i32::MIN as i64, i32::MAX as i64) {
            Some(y) => y as i32,
            None => {
                return None;
            },
        };
        Some(EmojiLike {
            emoji_id: f_emoji_id,
            count: f_count,
        })
    }

    /// The document serde writes for the record: an object with one
    /// entry per field, keys in sorted order.
    pub open spec fn spec_json(e: EmojiLikeView) -> SpecJson {
        SpecJson::Object(
            seq![
                ("count"@, SpecJson::Int(e.count as i64)),
                ("emoji_id"@, SpecJson::Str(e.emoji_id)),
            ],
        )
    }

    /// The document serde writes for the record.
    pub fn to_json(&self) -> (r: JsonValue)
        ensures
            r@ == EmojiLike::spec_json(self@),
    {
        let mut e: Vec<(String, JsonValue)> = Vec::new();
        assert(model_entries(e@) =~= Seq::<(Seq<char>, SpecJson)>::empty());
        push_entry(&mut e, "count", JsonValue::Int(self.count as i64));
        push_entry(&mut e, "emoji_id", JsonValue::Str(self.emoji_id.clone()));
        let ghost want = seq![
            ("count"@, SpecJson::Int(self@.count as i64)),
            ("emoji_id"@, SpecJson::Str(self@.emoji_id)),
        ];
        assert(model_entries(e@) =~= want);
        JsonValue::Object(e)
    }
}

/// Emoji reactions to a group message.
#[derive(Debug)]
pub struct GroupMsgEmojiLikeEvent {
    pub time: i64,
    pub self_id: i64,
    pub post_type: PostType,
    pub group_id: i64,
    pub user_id: i64,
    pub notice_type: NoticeType,
    pub likes: Vec<EmojiLike>,
}

/// The model of [`GroupMsgEmojiLikeEvent`].
pub struct GroupMsgEmojiLikeEventView {
    pub time: i64,
    pub self_id: i64,
    pub post_type: PostType,
    pub group_id: i64,
    pub user_id: i64,
    pub notice_type: NoticeType,
    pub likes: Seq<EmojiLikeView>,
}

impl View for GroupMsgEmojiLikeEvent {
    type V = GroupMsgEmojiLikeEventView;

    open spec fn view(&self) -> GroupMsgEmojiLikeEventView {
        GroupMsgEmojiLikeEventView {
            time: self.time,
            self_id: self.self_id,
            post_type: self.post_type,
            group_id: self.group_id,
            user_id: self.user_id,
            notice_type: self.notice_type,
            likes: likes_view(self.likes@),
        }
    }
}

impl GroupMsgEmojiLikeEvent {
    /// The record that `v` holds, read field by field as serde reads it;
    /// `None` where a field is missing or of the wrong kind.
    pub open spec fn spec_parse(v: SpecJson) -> Option<GroupMsgEmojiLikeEventView> {
        let f_time = req_int(field_of(v, "time"@, 0, 7), i64::MIN as int, i64::MAX as int);
        let f_self_id = req_int(field_of(v, "self_id"@, 1, 7), i64::MIN as int, i64::MAX as int);
        let f_post_type = PostType::spec_read(field_of(v, "post_type"@, 2, 7));
        let f_group_id = req_int(field_of(v, "group_id"@, 3, 7), i64::MIN as int, i64::MAX as int);
        let f_user_id = req_int(field_of(v, "user_id"@, 4, 7), i64::MIN as int, i64::MAX as int);
        let f_notice_type = NoticeType::spec_read(field_of(v, "notice_type"@, 5, 7));
        let f_likes = req_likes(field_of(v, "likes"@, 6, 7));
        if shaped(v, 7) && f_time is Some && f_self_id is Some && f_post_type is Some && f_group_id is Some && f_user_id is Some && f_notice_type is Some && f_likes is Some {
            Some(GroupMsgEmojiLikeEventView {
                time: f_time->0 as i64,
                self_id: f_self_id->0 as i64,
                post_type: f_post_type->0,
                group_id: f_group_id->0 as i64,
                user_id: f_user_id->0 as i64,
                notice_type: f_notice_type->0,
                likes: f_likes->0,
            })
        } else {
            None
        }
    }

    /// The record that `v` holds, read field by field as serde reads it.
    pub fn from_json(v: &JsonValue) -> (r: Option<GroupMsgEmojiLikeEvent>)
        ensures
            match r {
                Some(e) => GroupMsgEmojiLikeEvent::spec_parse(v@) == Some(e@),
                None => GroupMsgEmojiLikeEvent::spec_parse(v@) is None,
            },
    {
        if !is_shaped(v, 7) {
            return None;
        }
        let f_time = match read_int(field(v, "time", 0, 7), i64::MIN as i64, i64::MAX as i64) {
            Some(y) => y,
            None => {
                return None;
            },
        };
        let f_self_id = match read_int(field(v, "self_id", 1, 7), i64::MIN as i64, i64::MAX as i64) {
            Some(y) => y,
            None => {
                return None;
            },
        };
        let f_post_type = match PostType::read(field(v, "post_type", 2, 7)) {
            Some(y) => y,
            None => {
                return None;
            },
        };
        let f_group_id = match read_int(field(v, "group_id", 3, 7), i64::MIN as i64, i64::MAX as i64) {
            Some(y) => y,
            None => {
                return None;
            },
        };
        let f_user_id = match read_int(field(v, "user_id", 4, 7), i64::MIN as i64, i64::MAX as i64) {
            Some(y) => y,
            None => {
                return None;
            },
        };
        let f_notice_type = match NoticeType::read(field(v, "notice_type", 5, 7)) {
            Some(y) => y,
            None => {
                return None;
            },
        };
        let f_likes = match read_likes(field(v, "likes", 6, 7)) {
            Some(y) => y,
            None => {
                return None;
            },
        };
        Some(GroupMsgEmojiLikeEvent {
            time: f_time,
            self_id: f_self_id,
            post_type: f_post_type,
            group_id: f_group_id,
            user_id: f_user_id,
            notice_type: f_notice_type,
            likes: f_likes,
        })
    }

    /// The document serde writes for the record: an object with one
    /// entry per field, keys in sorted order.
    pub open spec fn spec_json(e: GroupMsgEmojiLikeEventView) -> SpecJson {
        SpecJson::Object(
            seq![
                ("group_id"@, SpecJson::Int(e.group_id as i64)),
                ("likes"@, SpecJson::Array(likes_json(e.likes))),
                ("notice_type"@, SpecJson::Str(e.notice_type.spec_name())),
                ("post_type"@, SpecJson::Str(e.post_type.spec_name())),
                ("self_id"@, SpecJson::Int(e.self_id as i64)),
                ("time"@, SpecJson::Int(e.time as i64)),
                ("user_id"@, SpecJson::Int(e.user_id as i64)),
            ],
        )
    }

    /// The document serde writes for the record.
    pub fn to_json(&self) -> (r: JsonValue)
        ensures
            r@ == GroupMsgEmojiLikeEvent::spec_json(self@),
    {
        let mut e: Vec<(String, JsonValue)> = Vec::new();
        assert(model_entries(e@) =~= Seq::<(Seq<char>, SpecJson)>::empty());
        push_entry(&mut e, "group_id", JsonValue::Int(self.group_id as i64));
        push_entry(&mut e, "likes", likes_to_json(&self.likes));
        push_entry(&mut e, "notice_type", JsonValue::Str(String::from_str(self.notice_type.name())));
        push_entry(&mut e, "post_type", JsonValue::Str(String::from_str(self.post_type.name())));
        push_entry(&mut e, "self_id", JsonValue::Int(self.self_id as i64));
        push_entry(&mut e, "time", JsonValue::Int(self.time as i64));
        push_entry(&mut e, "user_id", JsonValue::Int(self.user_id as i64));
        let ghost want = seq![
            ("group_id"@, SpecJson::Int(self@.group_id as i64)),
            ("likes"@, SpecJson::Array(likes_json(self@.likes))),
            ("notice_type"@, SpecJson::Str(self@.notice_type.spec_name())),
            ("post_type"@, SpecJson::Str(self@.post_type.spec_name())),
            ("self_id"@, SpecJson::Int(self@.self_id as i64)),
            ("time"@, SpecJson::Int(self@.time as i64)),
            ("user_id"@, SpecJson::Int(self@.user_id as i64)),
        ];
        assert(model_entries(e@) =~= want);
        JsonValue::Object(e)
    }
}

/// A poke.
#[derive(Debug)]
pub struct PokeEvent {
    pub time: i64,
    pub self_id: i64,
    pub post_type: PostType,
    pub group_id: i64,
    pub user_id: i64,
    pub notice_type: NoticeType,
    pub target_id: i64,
    pub raw_info: Vec<JsonValue>,
    pub sub_type: SubType,
}

/// The model of [`PokeEvent`].
pub struct PokeEventView {
    pub time: i64,
    pub self_id: i64,
    pub post_type: PostType,
    pub group_id: i64,
    pub user_id: i64,
    pub notice_type: NoticeType,
    pub target_id: i64,
    pub raw_info: Seq<SpecJson>,
    pub sub_type: SubType,
}

impl View for PokeEvent {
    type V = PokeEventView;

    open spec fn view(&self) -> PokeEventView {
        PokeEventView {
            time: self.time,
            self_id: self.self_id,
            post_type: self.post_type,
            group_id: self.group_id,
            user_id: self.user_id,
            notice_type: self.notice_type,
            target_id: self.target_id,
            raw_info: model_items(self.raw_info@),
            sub_type: self.sub_type,
        }
    }
}

impl PokeEvent {
    /// The record that `v` holds, read field by field as serde reads it;
    /// `None` where a field is missing or of the wrong kind.
    pub open spec fn spec_parse(v: SpecJson) -> Option<PokeEventView> {
        let f_time = req_int(field_of(v, "time"@, 0, 9), i64::MIN as int, i64::MAX as int);
        let f_self_id = req_int(field_of(v, "self_id"@, 1, 9), i64::MIN as int, i64::MAX as int);
        let f_post_type = PostType::spec_read(field_of(v, "post_type"@, 2, 9));
        let f_group_id = req_int(field_of(v, "group_id"@, 3, 9), i64::MIN as int, i64::MAX as int);
        let f_user_id = req_int(field_of(v, "user_id"@, 4, 9), i64::MIN as int, i64::MAX as int);
        let f_notice_type = NoticeType::spec_read(field_of(v, "notice_type"@, 5, 9));
        let f_target_id = req_int(field_of(v, "target_id"@, 6, 9), i64::MIN as int, i64::MAX as int);
        let f_raw_info = req_list(field_of(v, "raw_info"@, 7, 9));
        let f_sub_type = SubType::spec_read(field_of(v, "sub_type"@, 8, 9));
        if shaped(v, 9) && f_time is Some && f_self_id is Some && f_post_type is Some && f_group_id is Some && f_user_id is Some && f_notice_type is Some && f_target_id is Some && f_raw_info is Some && f_sub_type is Some {
            Some(PokeEventView {
                time: f_time->0 as i64,
                self_id: f_self_id->0 as i64,
                post_type: f_post_type->0,
                group_id: f_group_id->0 as i64,
                user_id: f_user_id->0 as i64,
                notice_type: f_notice_type->0,
                target_id: f_target_id->0 as i64,
                raw_info: f_raw_info->0,
                sub_type: f_sub_type->0,
            })
        } else {
            None
        }
    }

    /// The record that `v` holds, read field by field as serde reads it.
    pub fn from_json(v: &JsonValue) -> (r: Option<PokeEvent>)
        ensures
            match r {
                Some(e) => PokeEvent::spec_parse(v@) == Some(e@),
                None => PokeEvent::spec_parse(v@) is None,
            },
    {
        if !is_shaped(v, 9) {
            return None;
        }
        let f_time = match read_int(field(v, "time", 0, 9), i64::MIN as i64, i64::MAX as i64) {
            Some(y) => y,
            None => {
                return None;
            },
        };
        let f_self_id = match read_int(field(v, "self_id", 1, 9), i64::MIN as i64, i64::MAX as i64) {
            Some(y) => y,
            None => {
                return None;
            },
        };
        let f_post_type = match PostType::read(field(v, "post_type", 2, 9)) {
            Some(y) => y,
            None => {
                return None;
            },
        };
        let f_group_id = match read_int(field(v, "group_id", 3, 9), i64::MIN as i64, i64::MAX as i64) {
            Some(y) => y,
            None => {
                return None;
            },
        };
        let f_user_id = match read_int(field(v, "user_id", 4, 9), i64::MIN as i64, i64::MAX as i64) {
            Some(y) => y,
            None => {
                return None;
            },
        };
        let f_notice_type = match NoticeType::read(field(v, "notice_type", 5, 9)) {
            Some(y) => y,
            None => {
                return None;
            },
        };
        let f_target_id = match read_int(field(v, "target_id", 6, 9), i64::MIN as i64, i64::MAX as i64) {
            Some(y) => y,
            None => {
                return None;
            },
        };
        let f_raw_info = match read_list(field(v, "raw_info", 7, 9)) {
            Some(y) => y,
            None => {
                return None;
            },
        };
        let f_sub_type = match SubType::read(field(v, "sub_type", 8, 9)) {
            Some(y) => y,
            None => {
                return None;
            },
        };
        Some(PokeEvent {
            time: f_time,
            self_id: f_self_id,
            post_type: f_post_type,
            group_id: f_group_id,
            user_id: f_user_id,
            notice_type: f_notice_type,
            target_id: f_target_id,
            raw_info: f_raw_info,
            sub_type: f_sub_type,
        })
    }

    /// The document serde writes for the record: an object with one
    /// entry per field, keys in sorted order.
    pub open spec fn spec_json(e: PokeEventView) -> SpecJson {
        SpecJson::Object(
            seq![
                ("group_id"@, SpecJson::Int(e.group_id as i64)),
                ("notice_type"@, SpecJson::Str(e.notice_type.spec_name())),
                ("post_type"@, SpecJson::Str(e.post_type.spec_name())),
                ("raw_info"@, SpecJson::Array(e.raw_info)),
                ("self_id"@, SpecJson::Int(e.self_id as i64)),
                ("sub_type"@, SpecJson::Str(e.sub_type.spec_name())),
                ("target_id"@, SpecJson::Int(e.target_id as i64)),
                ("time"@, SpecJson::Int(e.time as i64)),
                ("user_id"@, SpecJson::Int(e.user_id as i64)),
            ],
        )
    }

    /// The document serde writes for the record.
    pub fn to_json(&self) -> (r: JsonValue)
        ensures
            r@ == PokeEvent::spec_json(self@),
    {
        let mut e: Vec<(String, JsonValue)> = Vec::new();
        assert(model_entries(e@) =~= Seq::<(Seq<char>, SpecJson)>::empty());
        push_entry(&mut e, "group_id", JsonValue::Int(self.group_id as i64));
        push_entry(&mut e, "notice_type", JsonValue::Str(String::from_str(self.notice_type.name())));
        push_entry(&mut e, "post_type", JsonValue::Str(String::from_str(self.post_type.name())));
        push_entry(&mut e, "raw_info", JsonValue::Array(copy_items(&self.raw_info)));
        push_entry(&mut e, "self_id", JsonValue::Int(self.self_id as i64));
        push_entry(&mut e, "sub_type", JsonValue::Str(String::from_str(self.sub_type.name())));
        push_entry(&mut e, "target_id", JsonValue::Int(self.target_id as i64));
        push_entry(&mut e, "time", JsonValue::Int(self.time as i64));
        push_entry(&mut e, "user_id", JsonValue::Int(self.user_id as i64));
        let ghost want = seq![
            ("group_id"@, SpecJson::Int(self@.group_id as i64)),
            ("notice_type"@, SpecJson::Str(self@.notice_type.spec_name())),
            ("post_type"@, SpecJson::Str(self@.post_type.spec_name())),
            ("raw_info"@, SpecJson::Array(self@.raw_info)),
            ("self_id"@, SpecJson::Int(self@.self_id as i64)),
            ("sub_type"@, SpecJson::Str(self@.sub_type.spec_name())),
            ("target_id"@, SpecJson::Int(self@.target_id as i64)),
            ("time"@, SpecJson::Int(self@.time as i64)),
            ("user_id"@, SpecJson::Int(self@.user_id as i64)),
        ];
        assert(model_entries(e@) =~= want);
        JsonValue::Object(e)
    }
}

/// A special title granted.
#[derive(Debug)]
pub struct TitleEvent {
    pub time: i64,
    pub self_id: i64,
    pub post_type: PostType,
    pub group_id: i64,
    pub user_id: i64,
    pub notice_type: NoticeType,
    pub sub_type: SubType,
    pub title: String,
}

/// The model of [`TitleEvent`].
pub struct TitleEventView {
    pub time: i64,
    pub self_id: i64,
    pub post_type: PostType,
    pub group_id: i64,
    pub user_id: i64,
    pub notice_type: NoticeType,
    pub sub_type: SubType,
    pub title: Seq<char>,
}

impl View for TitleEvent {
    type V = TitleEventView;

    open spec fn view(&self) -> TitleEventView {
        TitleEventView {
            time: self.time,
            self_id: self.self_id,
            post_type: self.post_type,
            group_id: self.group_id,
            user_id: self.user_id,
            notice_type: self.notice_type,
            sub_type: self.sub_type,
            title: self.title@,
        }
    }
}

impl TitleEvent {
    /// The record that `v` holds, read field by field as serde reads it;
    /// `None` where a field is missing or of the wrong kind.
    pub open spec fn spec_parse(v: SpecJson) -> Option<TitleEventView> {
        let f_time = req_int(field_of(v, "time"@, 0, 8), i64::MIN as int, i64::MAX as int);
        let f_self_id = req_int(field_of(v, "self_id"@, 1, 8), i64::MIN as int, i64::MAX as int);
        let f_post_type = PostType::spec_read(field_of(v, "post_type"@, 2, 8));
        let f_group_id = req_int(field_of(v, "group_id"@, 3, 8), i64::MIN as int, i64::MAX as int);
        let f_user_id = req_int(field_of(v, "user_id"@, 4, 8), i64::MIN as int, i64::MAX as int);
        let f_notice_type = NoticeType::spec_read(field_of(v, "notice_type"@, 5, 8));
        let f_sub_type = SubType::spec_read(field_of(v, "sub_type"@, 6, 8));
        let f_title = req_text(field_of(v, "title"@, 7, 8));
        if shaped(v, 8) && f_time is Some && f_self_id is Some && f_post_type is Some && f_group_id is Some && f_user_id is Some && f_notice_type is Some && f_sub_type is Some && f_title is Some {
            Some(TitleEventView {
                time: f_time->0 as i64,
                self_id: f_self_id->0 as i64,
                post_type: f_post_type->0,
                group_id: f_group_id->0 as i64,
                user_id: f_user_id->0 as i64,
                notice_type: f_notice_type->0,
                sub_type: f_sub_type->0,
                title: f_title->0,
            })
        } else {
            None
        }
    }

    /// The record that `v` holds, read field by field as serde reads it.
    pub fn from_json(v: &JsonValue) -> (r: Option<TitleEvent>)
        ensures
            match r {
                Some(e) => TitleEvent::spec_parse(v@) == Some(e@),
                None => TitleEvent::spec_parse(v@) is None,
            },
    {
        if !is_shaped(v, 8) {
            return None;
        }
        let f_time = match read_int(field(v, "time", 0, 8), i64::MIN as i64, i64::MAX as i64) {
            Some(y) => y,
            None => {
                return None;
            },
        };
        let f_self_id = match read_int(field(v, "self_id", 1, 8), i64::MIN as i64, i64::MAX as i64) {
            Some(y) => y,
            None => {
                return None;
            },
        };
        let f_post_type = match PostType::read(field(v, "post_type", 2, 8)) {
            Some(y) => y,
            None => {
                return None;
            },
        };
        let f_group_id = match read_int(field(v, "group_id", 3, 8), i64::MIN as i64, i64::MAX as i64) {
            Some(y) => y,
            None => {
                return None;
            },
        };
        let f_user_id = match read_int(field(v, "user_id", 4, 8), i64::MIN as i64, i64::MAX as i64) {
            Some(y) => y,
            None => {
                return None;
            },
        };
        let f_notice_type = match NoticeType::read(field(v, "notice_type", 5, 8)) {
            Some(y) => y,
            None => {
                return None;
            },
        };
        let f_sub_type = match SubType::read(field(v, "sub_type", 6, 8)) {
            Some(y) => y,
            None => {
                return None;
            },
        };
        let f_title = match read_text(field(v, "title", 7, 8)) {
            Some(y) => y,
            None => {
                return None;
            },
        };
        Some(TitleEvent {
            time: f_time,
            self_id: f_self_id,
            post_type: f_post_type,
            group_id: f_group_id,
            user_id: f_user_id,
            notice_type: f_notice_type,
            sub_type: f_sub_type,
            title: f_title,
        })
    }

    /// The document serde writes for the record: an object with one
    /// entry per field, keys in sorted order.
    pub open spec fn spec_json(e: TitleEventView) -> SpecJson {
        SpecJson::Object(
            seq![
                ("group_id"@, SpecJson::Int(e.group_id as i64)),
                ("notice_type"@, SpecJson::Str(e.notice_type.spec_name())),
                ("post_type"@, SpecJson::Str(e.post_type.spec_name())),
                ("self_id"@, SpecJson::Int(e.self_id as i64)),
                ("sub_type"@, SpecJson::Str(e.sub_type.spec_name())),
                ("time"@, SpecJson::Int(e.time as i64)),
                ("title"@, SpecJson::Str(e.title)),
                ("user_id"@, SpecJson::Int(e.user_id as i64)),
            ],
        )
    }

    /// The document serde writes for the record.
    pub fn to_json(&self) -> (r: JsonValue)
        ensures
            r@ == TitleEvent::spec_json(self@),
    {
        let mut e: Vec<(String, JsonValue)> = Vec::new();
        assert(model_entries(e@) =~= Seq::<(Seq<char>, SpecJson)>::empty());
        push_entry(&mut e, "group_id", JsonValue::Int(self.group_id as i64));
        push_entry(&mut e, "notice_type", JsonValue::Str(String::from_str(self.notice_type.name())));
        push_entry(&mut e, "post_type", JsonValue::Str(String::from_str(self.post_type.name())));
        push_entry(&mut e, "self_id", JsonValue::Int(self.self_id as i64));
        push_entry(&mut e, "sub_type", JsonValue::Str(String::from_str(self.sub_type.name())));
        push_entry(&mut e, "time", JsonValue::Int(self.time as i64));
        push_entry(&mut e, "title", JsonValue::Str(self.title.clone()));
        push_entry(&mut e, "user_id", JsonValue::Int(self.user_id as i64));
        let ghost want = seq![
            ("group_id"@, SpecJson::Int(self@.group_id as i64)),
            ("notice_type"@, SpecJson::Str(self@.notice_type.spec_name())),
            ("post_type"@, SpecJson::Str(self@.post_type.spec_name())),
            ("self_id"@, SpecJson::Int(self@.self_id as i64)),
            ("sub_type"@, SpecJson::Str(self@.sub_type.spec_name())),
            ("time"@, SpecJson::Int(self@.time as i64)),
            ("title"@, SpecJson::Str(self@.title)),
            ("user_id"@, SpecJson::Int(self@.user_id as i64)),
        ];
        assert(model_entries(e@) =~= want);
        JsonValue::Object(e)
    }
}

/// A member muted or unmuted.
#[derive(Debug)]
pub struct GroupBanEvent {
    pub time: i64,
    pub self_id: i64,
    pub post_type: PostType,
    pub group_id: i64,
    pub user_id: i64,
    pub notice_type: NoticeType,
    pub operator_id: i64,
    pub duration: i64,
    pub sub_type: SubType,
}

/// The model of [`GroupBanEvent`].
pub struct GroupBanEventView {
    pub time: i64,
    pub self_id: i64,
    pub post_type: PostType,
    pub group_id: i64,
    pub user_id: i64,
    pub notice_type: NoticeType,
    pub operator_id: i64,
    pub duration: i64,
    pub sub_type: SubType,
}

impl View for GroupBanEvent {
    type V = GroupBanEventView;

    open spec fn view(&self) -> GroupBanEventView {
        GroupBanEventView {
            time: self.time,
            self_id: self.self_id,
            post_type: self.post_type,
            group_id: self.group_id,
            user_id: self.user_id,
            notice_type: self.notice_type,
            operator_id: self.operator_id,
            duration: self.duration,
            sub_type: self.sub_type,
        }
    }
}

impl GroupBanEvent {
    /// The record that `v` holds, read field by field as serde reads it;
    /// `None` where a field is missing or of the wrong kind.
    pub open spec fn spec_parse(v: SpecJson) -> Option<GroupBanEventView> {
        let f_time = req_int(field_of(v, "time"@, 0, 9), i64::MIN as int, i64::MAX as int);
        let f_self_id = req_int(field_of(v, "self_id"@, 1, 9), i64::MIN as int, i64::MAX as int);
        let f_post_type = PostType::spec_read(field_of(v, "post_type"@, 2, 9));
        let f_group_id = req_int(field_of(v, "group_id"@, 3, 9), i64::MIN as int, i64::MAX as int);
        let f_user_id = req_int(field_of(v, "user_id"@, 4, 9), i64::MIN as int, i64::MAX as int);
        let f_notice_type = NoticeType::spec_read(field_of(v, "notice_type"@, 5, 9));
        let f_operator_id = req_int(field_of(v, "operator_id"@, 6, 9), i64::MIN as int, i64::MAX as int);
        let f_duration = req_int(field_of(v, "duration"@, 7, 9), i64::MIN as int, i64::MAX as int);
        let f_sub_type = SubType::spec_read(field_of(v, "sub_type"@, 8, 9));
        if shaped(v, 9) && f_time is Some && f_self_id is Some && f_post_type is Some && f_group_id is Some && f_user_id is Some && f_notice_type is Some && f_operator_id is Some && f_duration is Some && f_sub_type is Some {
            Some(GroupBanEventView {
                time: f_time->0 as i64,
                self_id: f_self_id->0 as i64,
                post_type: f_post_type->0,
                group_id: f_group_id->0 as i64,
                user_id: f_user_id->0 as i64,
                notice_type: f_notice_type->0,
                operator_id: f_operator_id->0 as i64,
                duration: f_duration->0 as i64,
                sub_type: f_sub_type->0,
            })
        } else {
            None
        }
    }

    /// The record that `v` holds, read field by field as serde reads it.
    pub fn from_json(v: &JsonValue) -> (r: Option<GroupBanEvent>)
        ensures
            match r {
                Some(e) => GroupBanEvent::spec_parse(v@) == Some(e@),
                None => GroupBanEvent::spec_parse(v@) is None,
            },
    {
        if !is_shaped(v, 9) {
            return None;
        }
        let f_time = match read_int(field(v, "time", 0, 9), i64::MIN as i64, i64::MAX as i64) {
            Some(y) => y,
            None => {
                return None;
            },
        };
        let f_self_id = match read_int(field(v, "self_id", 1, 9), i64::MIN as i64, i64::MAX as i64) {
            Some(y) => y,
            None => {
                return None;
            },
        };
        let f_post_type = match PostType::read(field(v, "post_type", 2, 9)) {
            Some(y) => y,
            None => {
                return None;
            },
        };
        let f_group_id = match read_int(field(v, "group_id", 3, 9), i64::MIN as i64, i64::MAX as i64) {
            Some(y) => y,
            None => {
                return None;
            },
        };
        let f_user_id = match read_int(field(v, "user_id", 4, 9), i64::MIN as i64, i64::MAX as i64) {
            Some(y) => y,
            None => {
                return None;
            },
        };
        let f_notice_type = match NoticeType::read(field(v, "notice_type", 5, 9)) {
            Some(y) => y,
            None => {
                return None;
            },
        };
        let f_operator_id = match read_int(field(v, "operator_id", 6, 9), i64::MIN as i64, i64::MAX as i64) {
            Some(y) => y,
            None => {
                return None;
            },
        };
        let f_duration = match read_int(field(v, "duration", 7, 9), i64::MIN as i64, i64::MAX as i64) {
            Some(y) => y,
            None => {
                return None;
            },
        };
        let f_sub_type = match SubType::read(field(v, "sub_type", 8, 9)) {
            Some(y) => y,
            None => {
                return None;
            },
        };
        Some(GroupBanEvent {
            time: f_time,
            self_id: f_self_id,
            post_type: f_post_type,
            group_id: f_group_id,
            user_id: f_user_id,
            notice_type: f_notice_type,
            operator_id: f_operator_id,
            duration: f_duration,
            sub_type: f_sub_type,
        })
    }

    /// The document serde writes for the record: an object with one
    /// entry per field, keys in sorted order.
    pub open spec fn spec_json(e: GroupBanEventView) -> SpecJson {
        SpecJson::Object(
            seq![
                ("duration"@, SpecJson::Int(e.duration as i64)),
                ("group_id"@, SpecJson::Int(e.group_id as i64)),
                ("notice_type"@, SpecJson::Str(e.notice_type.spec_name())),
                ("operator_id"@, SpecJson::Int(e.operator_id as i64)),
                ("post_type"@, SpecJson::Str(e.post_type.spec_name())),
                ("self_id"@, SpecJson::Int(e.self_id as i64)),
                ("sub_type"@, SpecJson::Str(e.sub_type.spec_name())),
                ("time"@, SpecJson::Int(e.time as i64)),
                ("user_id"@, SpecJson::Int(e.user_id as i64)),
            ],
        )
    }

    /// The document serde writes for the record.
    pub fn to_json(&self) -> (r: JsonValue)
        ensures
            r@ == GroupBanEvent::spec_json(self@),
    {
        let mut e: Vec<(String, JsonValue)> = Vec::new();
        assert(model_entries(e@) =~= Seq::<(Seq<char>, SpecJson)>::empty());
        push_entry(&mut e, "duration", JsonValue::Int(self.duration as i64));
        push_entry(&mut e, "group_id", JsonValue::Int(self.group_id as i64));
        push_entry(&mut e, "notice_type", JsonValue::Str(String::from_str(self.notice_type.name())));
        push_entry(&mut e, "operator_id", JsonValue::Int(self.operator_id as i64));
        push_entry(&mut e, "post_type", JsonValue::Str(String::from_str(self.post_type.name())));
        push_entry(&mut e, "self_id", JsonValue::Int(self.self_id as i64));
        push_entry(&mut e, "sub_type", JsonValue::Str(String::from_str(self.sub_type.name())));
        push_entry(&mut e, "time", JsonValue::Int(self.time as i64));
        push_entry(&mut e, "user_id", JsonValue::Int(self.user_id as i64));
        let ghost want = seq![
            ("duration"@, SpecJson::Int(self@.duration as i64)),
            ("group_id"@, SpecJson::Int(self@.group_id as i64)),
            ("notice_type"@, SpecJson::Str(self@.notice_type.spec_name())),
            ("operator_id"@, SpecJson::Int(self@.operator_id as i64)),
            ("post_type"@, SpecJson::Str(self@.post_type.spec_name())),
            ("self_id"@, SpecJson::Int(self@.self_id as i64)),
            ("sub_type"@, SpecJson::Str(self@.sub_type.spec_name())),
            ("time"@, SpecJson::Int(self@.time as i64)),
            ("user_id"@, SpecJson::Int(self@.user_id as i64)),
        ];
        assert(model_entries(e@) =~= want);
        JsonValue::Object(e)
    }
}

/// A group administrator set or unset.
#[derive(Debug)]
pub struct GroupAdminEvent {
    pub time: i64,
    pub self_id: i64,
    pub post_type: PostType,
    pub group_id: i64,
    pub user_id: i64,
    pub notice_type: NoticeType,
    pub sub_type: SubType,
}

/// The model of [`GroupAdminEvent`].
pub struct GroupAdminEventView {
    pub time: i64,
    pub self_id: i64,
    pub post_type: PostType,
    pub group_id: i64,
    pub user_id: i64,
    pub notice_type: NoticeType,
    pub sub_type: SubType,
}

impl View for GroupAdminEvent {
    type V = GroupAdminEventView;

    open spec fn view(&self) -> GroupAdminEventView {
        GroupAdminEventView {
            time: self.time,
            self_id: self.self_id,
            post_type: self.post_type,
            group_id: self.group_id,
            user_id: self.user_id,
            notice_type: self.notice_type,
            sub_type: self.sub_type,
        }
    }
}

impl GroupAdminEvent {
    /// The record that `v` holds, read field by field as serde reads it;
    /// `None` where a field is missing or of the wrong kind.
    pub open spec fn spec_parse(v: SpecJson) -> Option<GroupAdminEventView> {
        let f_time = req_int(field_of(v, "time"@, 0, 7), i64::MIN as int, i64::MAX as int);
        let f_self_id = req_int(field_of(v, "self_id"@, 1, 7), i64::MIN as int, i64::MAX as int);
        let f_post_type = PostType::spec_read(field_of(v, "post_type"@, 2, 7));
        let f_group_id = req_int(field_of(v, "group_id"@, 3, 7), i64::MIN as int, i64::MAX as int);
        let f_user_id = req_int(field_of(v, "user_id"@, 4, 7), i64::MIN as int, i64::MAX as int);
        let f_notice_type = NoticeType::spec_read(field_of(v, "notice_type"@, 5, 7));
        let f_sub_type = SubType::spec_read(field_of(v, "sub_type"@, 6, 7));
        if shaped(v, 7) && f_time is Some && f_self_id is Some && f_post_type is Some && f_group_id is Some && f_user_id is Some && f_notice_type is Some && f_sub_type is Some {
            Some(GroupAdminEventView {
                time: f_time->0 as i64,
                self_id: f_self_id->0 as i64,
                post_type: f_post_type->0,
                group_id: f_group_id->0 as i64,
                user_id: f_user_id->0 as i64,
                notice_type: f_notice_type->0,
                sub_type: f_sub_type->0,
            })
        } else {
            None
        }
    }

    /// The record that `v` holds, read field by field as serde reads it.
    pub fn from_json(v: &JsonValue) -> (r: Option<GroupAdminEvent>)
        ensures
            match r {
                Some(e) => GroupAdminEvent::spec_parse(v@) == Some(e@),
                None => GroupAdminEvent::spec_parse(v@) is None,
            },
    {
        if !is_shaped(v, 7) {
            return None;
        }
        let f_time = match read_int(field(v, "time", 0, 7), i64::MIN as i64, i64::MAX as i64) {
            Some(y) => y,
            None => {
                return None;
            },
        };
        let f_self_id = match read_int(field(v, "self_id", 1, 7), i64::MIN as i64, i64::MAX as i64) {
            Some(y) => y,
            None => {
                return None;
            },
        };
        let f_post_type = match PostType::read(field(v, "post_type", 2, 7)) {
            Some(y) => y,
            None => {
                return None;
            },
        };
        let f_group_id = match read_int(field(v, "group_id", 3, 7), i64::MIN as i64, i64::MAX as i64) {
            Some(y) => y,
            None => {
                return None;
            },
        };
        let f_user_id = match read_int(field(v, "user_id", 4, 7), i64::MIN as i64, i64::MAX as i64) {
            Some(y) => y,
            None => {
                return None;
            },
        };
        let f_notice_type = match NoticeType::read(field(v, "notice_type", 5, 7)) {
            Some(y) => y,
            None => {
                return None;
            },
        };
        let f_sub_type = match SubType::read(field(v, "sub_type", 6, 7)) {
            Some(y) => y,
            None => {
                return None;
            },
        };
        Some(GroupAdminEvent {
            time: f_time,
            self_id: f_self_id,
            post_type: f_post_type,
            group_id: f_group_id,
            user_id: f_user_id,
            notice_type: f_notice_type,
            sub_type: f_sub_type,
        })
    }

    /// The document serde writes for the record: an object with one
    /// entry per field, keys in sorted order.
    pub open spec fn spec_json(e: GroupAdminEventView) -> SpecJson {
        SpecJson::Object(
            seq![
                ("group_id"@, SpecJson::Int(e.group_id as i64)),
                ("notice_type"@, SpecJson::Str(e.notice_type.spec_name())),
                ("post_type"@, SpecJson::Str(e.post_type.spec_name())),
                ("self_id"@, SpecJson::Int(e.self_id as i64)),
                ("sub_type"@, SpecJson::Str(e.sub_type.spec_name())),
                ("time"@, SpecJson::Int(e.time as i64)),
                ("user_id"@, SpecJson::Int(e.user_id as i64)),
            ],
        )
    }

    /// The document serde writes for the record.
    pub fn to_json(&self) -> (r: JsonValue)
        ensures
            r@ == GroupAdminEvent::spec_json(self@),
    {
        let mut e: Vec<(String, JsonValue)> = Vec::new();
        assert(model_entries(e@) =~= Seq::<(Seq<char>, SpecJson)>::empty());
        push_entry(&mut e, "group_id", JsonValue::Int(self.group_id as i64));
        push_entry(&mut e, "notice_type", JsonValue::Str(String::from_str(self.notice_type.name())));
        push_entry(&mut e, "post_type", JsonValue::Str(String::from_str(self.post_type.name())));
        push_entry(&mut e, "self_id", JsonValue::Int(self.self_id as i64));
        push_entry(&mut e, "sub_type", JsonValue::Str(String::from_str(self.sub_type.name())));
        push_entry(&mut e, "time", JsonValue::Int(self.time as i64));
        push_entry(&mut e, "user_id", JsonValue::Int(self.user_id as i64));
        let ghost want = seq![
            ("group_id"@, SpecJson::Int(self@.group_id as i64)),
            ("notice_type"@, SpecJson::Str(self@.notice_type.spec_name())),
            ("post_type"@, SpecJson::Str(self@.post_type.spec_name())),
            ("self_id"@, SpecJson::Int(self@.self_id as i64)),
            ("sub_type"@, SpecJson::Str(self@.sub_type.spec_name())),
            ("time"@, SpecJson::Int(self@.time as i64)),
            ("user_id"@, SpecJson::Int(self@.user_id as i64)),
        ];
        assert(model_entries(e@) =~= want);
        JsonValue::Object(e)
    }
}

/// The header fields every report is sorted by.
#[derive(Debug)]
pub struct BaseEvent {
    pub post_type: Option<PostType>,
    pub message_type: Option<MessageType>,
    pub meta_event_type: Option<MetaEventType>,
    pub notice_type: Option<NoticeType>,
    pub sub_type: Option<SubType>,
    pub echo: Option<u16>,
    pub data: Option<JsonValue>,
}

/// The model of [`BaseEvent`].
pub struct BaseEventView {
    pub post_type: Option<PostType>,
    pub message_type: Option<MessageType>,
    pub meta_event_type: Option<MetaEventType>,
    pub notice_type: Option<NoticeType>,
    pub sub_type: Option<SubType>,
    pub echo: Option<u16>,
    pub data: Option<SpecJson>,
}

impl View for BaseEvent {
    type V = BaseEventView;

    open spec fn view(&self) -> BaseEventView {
        BaseEventView {
            post_type: self.post_type,
            message_type: self.message_type,
            meta_event_type: self.meta_event_type,
            notice_type: self.notice_type,
            sub_type: self.sub_type,
            echo: self.echo,
            data: opt_json_view(self.data),
        }
    }
}

impl BaseEvent {
    /// The record that `v` holds, read field by field as serde reads it;
    /// `None` where a field is missing or of the wrong kind.
    pub open spec fn spec_parse(v: SpecJson) -> Option<BaseEventView> {
        let f_post_type = PostType::spec_read_opt(field_of(v, "post_type"@, 0, 7));
        let f_message_type = MessageType::spec_read_opt(field_of(v, "message_type"@, 1, 7));
        let f_meta_event_type = MetaEventType::spec_read_opt(field_of(v, "meta_event_type"@, 2, 7));
        let f_notice_type = NoticeType::spec_read_opt(field_of(v, "notice_type"@, 3, 7));
        let f_sub_type = SubType::spec_read_opt(field_of(v, "sub_type"@, 4, 7));
        let f_echo = opt_int(field_of(v, "echo"@, 5, 7), 0 as int, 65535 as int);
        let f_data = opt_any(field_of(v, "data"@, 6, 7));
        if shaped(v, 7) && f_post_type is Some && f_message_type is Some && f_meta_event_type is Some && f_notice_type is Some && f_sub_type is Some && f_echo is Some && f_data is Some {
            Some(BaseEventView {
                post_type: f_post_type->0,
                message_type: f_message_type->0,
                meta_event_type: f_meta_event_type->0,
                notice_type: f_notice_type->0,
                sub_type: f_sub_type->0,
                echo: match f_echo->0 { Some(y) => Some(y as u16), None => None },
                data: f_data->0,
            })
        } else {
            None
        }
    }

    /// The record that `v` holds, read field by field as serde reads it.
    pub fn from_json(v: &JsonValue) -> (r: Option<BaseEvent>)
        ensures
            match r {
                Some(e) => BaseEvent::spec_parse(v@) == Some(e@),
                None => BaseEvent::spec_parse(v@) is None,
            },
    {
        if !is_shaped(v, 7) {
            return None;
        }
        let f_post_type = match PostType::read_opt(field(v, "post_type", 0, 7)) {
            Some(y) => y,
            None => {
                return None;
            },
        };
        let f_message_type = match MessageType::read_opt(field(v, "message_type", 1, 7)) {
            Some(y) => y,
            None => {
                return None;
            },
        };
        let f_meta_event_type = match MetaEventType::read_opt(field(v, "meta_event_type", 2, 7)) {
            Some(y) => y,
            None => {
                return None;
            },
        };
        let f_notice_type = match NoticeType::read_opt(field(v, "notice_type", 3, 7)) {
            Some(y) => y,
            None => {
                return None;
            },
        };
        let f_sub_type = match SubType::read_opt(field(v, "sub_type", 4, 7)) {
            Some(y) => y,
            None => {
                return None;
            },
        };
        let f_echo = match read_opt_int(field(v, "echo", 5, 7), 0 as i64, 65535 as i64) {
            Some(y) => match y { Some(z) => Some(z as u16), None => None },
            None => {
                return None;
            },
        };
        let f_data = match read_opt_any(field(v, "data", 6, 7)) {
            Some(y) => y,
            None => {
                return None;
            },
        };
        Some(BaseEvent {
            post_type: f_post_type,
            message_type: f_message_type,
            meta_event_type: f_meta_event_type,
            notice_type: f_notice_type,
            sub_type: f_sub_type,
            echo: f_echo,
            data: f_data,
        })
    }
}

/// A notice report.
#[derive(Debug)]
pub struct NoticeEvent {
    pub time: i64,
    pub self_id: i64,
    pub post_type: PostType,
    pub notice_type: String,
    pub sub_type: String,
    pub target_id: i64,
    pub user_id: i64,
    pub group_id: i64,
    pub raw_info: JsonValue,
}

/// A group card change.
#[derive(Debug)]
pub struct ChangeGroupCard {
    pub time: i64,
    pub self_id: i64,
    pub post_type: String,
    pub group_id: i64,
    pub user_id: i64,
    pub notice_type: String,
    pub card_new: String,
    pub card_old: String,
}

/// A group administrator change.
#[derive(Debug)]
pub struct ChangeGroupAdmin {
    pub time: i64,
    pub self_id: i64,
    pub post_type: String,
    pub group_id: i64,
    pub user_id: i64,
    pub notice_type: String,
    pub sub_type: String,
}

/// The kind of a group message.
#[derive(Debug, Clone, Copy, PartialEq, Eq, Structural)]
pub enum GroupSubType {
    Normal,
    Anonymous,
    Notice,
}

/// The `message` field of a chat message: required; its items where it
/// holds an array, else no segment at all.
pub open spec fn req_message(f: Option<SpecJson>) -> Option<Seq<SpecJson>> {
    match f {
        Some(SpecJson::Array(a)) => Some(a),
        Some(_) => Some(Seq::empty()),
        None => None,
    }
}

fn read_message(f: Option<&JsonValue>) -> (r: Option<Message>)
    ensures
        match r {
            Some(m) => req_message(opt_view(f)) == Some(m@),
            None => req_message(opt_view(f)) is None,
        },
{
    match f {
        Some(x) => Some(Message::from_json(x.copy())),
        None => None,
    }
}

/// The `sender` field: a required [`MsgSender`] record.
pub open spec fn req_record_msg_sender(f: Option<SpecJson>) -> Option<MsgSenderView> {
    match f {
        Some(x) => MsgSender::spec_parse(x),
        None => None,
    }
}

fn read_record_msg_sender(f: Option<&JsonValue>) -> (r: Option<MsgSender>)
    ensures
        match r {
            Some(e) => req_record_msg_sender(opt_view(f)) == Some(e@),
            None => req_record_msg_sender(opt_view(f)) is None,
        },
{
    match f {
        Some(x) => MsgSender::from_json(x),
        None => None,
    }
}

/// The models of a list of reactions.
pub open spec fn likes_view(s: Seq<EmojiLike>) -> Seq<EmojiLikeView>
    decreases s.len(),
{
    if s.len() == 0 {
        Seq::empty()
    } else {
        likes_view(s.drop_last()).push(s.last()@)
    }
}

/// Each item of `s` read as an [`EmojiLike`]; `None` if any is not one.
pub open spec fn parse_likes(s: Seq<SpecJson>) -> Option<Seq<EmojiLikeView>>
    decreases s.len(),
{
    if s.len() == 0 {
        Some(Seq::empty())
    } else {
        match (parse_likes(s.drop_last()), EmojiLike::spec_parse(s.last())) {
            (Some(a), Some(b)) => Some(a.push(b)),
            _ => None,
        }
    }
}

/// The `likes` field: a required array of reactions.
pub open spec fn req_likes(f: Option<SpecJson>) -> Option<Seq<EmojiLikeView>> {
    match f {
        Some(SpecJson::Array(a)) => parse_likes(a),
        _ => None,
    }
}

/// The documents serde writes for a list of reactions.
pub open spec fn likes_json(s: Seq<EmojiLikeView>) -> Seq<SpecJson>
    decreases s.len(),
{
    if s.len() == 0 {
        Seq::empty()
    } else {
        likes_json(s.drop_last()).push(EmojiLike::spec_json(s.last()))
    }
}

proof fn lemma_parse_likes_prefix_none(s: Seq<SpecJson>, i: int)
    requires
        0 <= i <= s.len(),
        parse_likes(s.take(i)) is None,
    ensures
        parse_likes(s) is None,
    decreases s.len() - i,
{
    if i < s.len() {
        assert(s.take(i + 1).drop_last() =~= s.take(i));
        lemma_parse_likes_prefix_none(s, i + 1);
    } else {
        assert(s.take(i) =~= s);
    }
}

fn read_likes(f: Option<&JsonValue>) -> (r: Option<Vec<EmojiLike>>)
    ensures
        match r {
            Some(a) => req_likes(opt_view(f)) == Some(likes_view(a@)),
            None => req_likes(opt_view(f)) is None,
        },
{
    match f {
        Some(JsonValue::Array(items)) => {
            let ghost s = model_items(items@);
            proof {
                assert(opt_view(f) == Some(SpecJson::Array(s)));
                crate::json::lemma_model_items(items@);
                assert(s.take(0) =~= Seq::<SpecJson>::empty());
            }
            let mut out: Vec<EmojiLike> = Vec::new();
            let mut i: usize = 0;
            while i < items.len()
                invariant
                    opt_view(f) == Some(SpecJson::Array(s)),
                    s == model_items(items@),
                    s.len() == items@.len(),
                    forall|j: int| 0 <= j < s.len() ==> #[trigger] s[j] == items@[j]@,
                    0 <= i <= items.len(),
                    parse_likes(s.take(i as int)) == Some(likes_view(out@)),
                decreases items.len() - i,
            {
                proof {
                    assert(s.take(i + 1).drop_last() =~= s.take(i as int));
                    assert(s.take(i + 1).last() == s[i as int]);
                }
                match EmojiLike::from_json(&items[i]) {
                    Some(e) => {
                        let ghost before = out@;
                        out.push(e);
                        proof {
                            assert(out@.drop_last() =~= before);
                        }
                    },
                    None => {
                        proof {
                            assert(parse_likes(s.take(i + 1)) is None);
                            lemma_parse_likes_prefix_none(s, i + 1);
                            assert(parse_likes(s) is None);
                            assert(req_likes(opt_view(f)) is None);
                        }
                        return None;
                    },
                }
                i = i + 1;
            }
            proof {
                assert(s.take(s.len() as int) =~= s);
            }
            Some(out)
        },
        _ => None,
    }
}

fn likes_to_json(likes: &Vec<EmojiLike>) -> (r: JsonValue)
    ensures
        r@ == SpecJson::Array(likes_json(likes_view(likes@))),
{
    let mut out: Vec<JsonValue> = Vec::new();
    let mut i: usize = 0;
    while i < likes.len()
        invariant
            0 <= i <= likes.len(),
            model_items(out@) == likes_json(likes_view(likes@.take(i as int))),
        decreases likes.len() - i,
    {
        proof {
            assert(likes@.take(i + 1).drop_last() =~= likes@.take(i as int));
            assert(likes@.take(i + 1).last() == likes@[i as int]);
            let lv = likes_view(likes@.take(i as int));
            assert(lv.push(likes@[i as int]@).drop_last() =~= lv);
        }
        push_item(&mut out, likes[i].to_json());
        i = i + 1;
    }
    proof {
        assert(likes@.take(likes.len() as int) =~= likes@);
    }
    JsonValue::Array(out)
}

/// Why a report could not be read.
#[derive(Debug, Clone, Copy, PartialEq, Eq, Structural)]
pub enum EventError {
    /// The text is not JSON.
    Syntax,
    /// The header fields (`post_type`, `message_type`, `meta_event_type`,
    /// `notice_type`, `sub_type`, `echo`) do not read.
    Header,
    /// The report carries an `echo` but does not read as an [`EchoEvent`].
    Echo,
    /// The report does not read as the record its header names.
    Body,
    /// A `notify` notice whose `sub_type` is neither `poke` nor `title`.
    UnknownNotify,
}

/// A report pushed by the OneBot implementation.
#[derive(Debug)]
pub enum Event {
    LifecycleEvent { event: LifecycleEvent },
    HeartbeatEvent { event: HeartbeatEvent },
    GroupMsgEvent { event: GroupMsgEvent },
    PrivateMsgEvent { event: PrivateMsgEvent },
    GroupRecall { event: GroupRecall },
    EchoEvent { event: EchoEvent },
    GroupCard { event: GroupCard },
    GroupMsgEmojiLikeEvent { event: GroupMsgEmojiLikeEvent },
    PokeEvent { event: PokeEvent },
    TitleEvent { event: TitleEvent },
    GroupBanEvent { event: GroupBanEvent },
    GroupAdminEvent { event: GroupAdminEvent },
    Error { msg: String },
}

/// The model of an [`Event`].
pub enum EventView {
    LifecycleEvent(LifecycleEventView),
    HeartbeatEvent(HeartbeatEventView),
    GroupMsgEvent(GroupMsgEventView),
    PrivateMsgEvent(PrivateMsgEventView),
    GroupRecall(GroupRecallView),
    EchoEvent(EchoEventView),
    GroupCard(GroupCardView),
    GroupMsgEmojiLikeEvent(GroupMsgEmojiLikeEventView),
    PokeEvent(PokeEventView),
    TitleEvent(TitleEventView),
    GroupBanEvent(GroupBanEventView),
    GroupAdminEvent(GroupAdminEventView),
    Error(Seq<char>),
}

impl View for Event {
    type V = EventView;

    open spec fn view(&self) -> EventView {
        match self {
            Event::LifecycleEvent { event } => EventView::LifecycleEvent(event@),
            Event::HeartbeatEvent { event } => EventView::HeartbeatEvent(event@),
            Event::GroupMsgEvent { event } => EventView::GroupMsgEvent(event@),
            Event::PrivateMsgEvent { event } => EventView::PrivateMsgEvent(event@),
            Event::GroupRecall { event } => EventView::GroupRecall(event@),
            Event::EchoEvent { event } => EventView::EchoEvent(event@),
            Event::GroupCard { event } => EventView::GroupCard(event@),
            Event::GroupMsgEmojiLikeEvent { event } => EventView::GroupMsgEmojiLikeEvent(event@),
            Event::PokeEvent { event } => EventView::PokeEvent(event@),
            Event::TitleEvent { event } => EventView::TitleEvent(event@),
            Event::GroupBanEvent { event } => EventView::GroupBanEvent(event@),
            Event::GroupAdminEvent { event } => EventView::GroupAdminEvent(event@),
            Event::Error { msg } => EventView::Error(msg@),
        }
    }
}

pub open spec fn event_result_view(r: Result<Event, EventError>) -> Result<EventView, EventError> {
    match r {
        Ok(e) => Ok(e@),
        Err(x) => Err(x),
    }
}

/// The header of a report names what it is, so that sorting it never
/// reaches a missing header field: a report with an `echo` is an answer;
/// else `post_type` is there, with `message_type` for a message,
/// `notice_type` for a notice (and `sub_type` for a `notify` notice), and
/// `meta_event_type` for a meta event.
pub open spec fn header_complete(b: BaseEventView) -> bool {
    b.echo is Some || match b.post_type {
        None => false,
        Some(PostType::Message) => b.message_type is Some,
        Some(PostType::MessageSent) => true,
        Some(PostType::Notice) => b.notice_type is Some && (b.notice_type == Some(NoticeType::Notify)
            ==> b.sub_type is Some),
        Some(PostType::MetaEvent) => b.meta_event_type is Some,
    }
}

/// Sorting the document `v` into an event is defined: its header does not
/// read, or it reads and is complete.
pub open spec fn event_defined(v: SpecJson) -> bool {
    match BaseEvent::spec_parse(v) {
        None => true,
        Some(b) => header_complete(b),
    }
}

/// The event the document `v` holds.
pub open spec fn spec_event(v: SpecJson) -> Result<EventView, EventError> {
    match BaseEvent::spec_parse(v) {
        None => Err(EventError::Header),
        Some(b) => if b.echo is Some {
            match EchoEvent::spec_parse(v) {
                Some(e) => Ok(EventView::EchoEvent(e)),
                None => Err(EventError::Echo),
            }
        } else {
            match b.post_type->0 {
                PostType::Message => match b.message_type->0 {
                    MessageType::Group => match GroupMsgEvent::spec_parse(v) {
                        Some(e) => Ok(EventView::GroupMsgEvent(e)),
                        None => Err(EventError::Body),
                    },
                    MessageType::Private => match PrivateMsgEvent::spec_parse(v) {
                        Some(e) => Ok(EventView::PrivateMsgEvent(e)),
                        None => Err(EventError::Body),
                    },
                },
                PostType::MessageSent => match GroupMsgEvent::spec_parse(v) {
                    Some(e) => Ok(EventView::GroupMsgEvent(e)),
                    None => Err(EventError::Body),
                },
                PostType::Notice => match b.notice_type->0 {
                    NoticeType::GroupCard => match GroupCard::spec_parse(v) {
                        Some(e) => Ok(EventView::GroupCard(e)),
                        None => Err(EventError::Body),
                    },
                    NoticeType::GroupMsgEmojiLike => match GroupMsgEmojiLikeEvent::spec_parse(v) {
                        Some(e) => Ok(EventView::GroupMsgEmojiLikeEvent(e)),
                        None => Err(EventError::Body),
                    },
                    NoticeType::Notify => match b.sub_type->0 {
                        SubType::Poke => match PokeEvent::spec_parse(v) {
                            Some(e) => Ok(EventView::PokeEvent(e)),
                            None => Err(EventError::Body),
                        },
                        SubType::Title => match TitleEvent::spec_parse(v) {
                            Some(e) => Ok(EventView::TitleEvent(e)),
                            None => Err(EventError::Body),
                        },
                        _ => Err(EventError::UnknownNotify),
                    },
                    NoticeType::GroupRecall => match GroupRecall::spec_parse(v) {
                        Some(e) => Ok(EventView::GroupRecall(e)),
                        None => Err(EventError::Body),
                    },
                    NoticeType::GroupBan => match GroupBanEvent::spec_parse(v) {
                        Some(e) => Ok(EventView::GroupBanEvent(e)),
                        None => Err(EventError::Body),
                    },
                    NoticeType::GroupAdmin => match GroupAdminEvent::spec_parse(v) {
                        Some(e) => Ok(EventView::GroupAdminEvent(e)),
                        None => Err(EventError::Body),
                    },
                },
                PostType::MetaEvent => match b.meta_event_type->0 {
                    MetaEventType::Heartbeat => match HeartbeatEvent::spec_parse(v) {
                        Some(e) => Ok(EventView::HeartbeatEvent(e)),
                        None => Err(EventError::Body),
                    },
                    MetaEventType::Lifecycle => match LifecycleEvent::spec_parse(v) {
                        Some(e) => Ok(EventView::LifecycleEvent(e)),
                        None => Err(EventError::Body),
                    },
                },
            }
        },
    }
}

/// Reading the text `t` as an event is defined.
pub open spec fn event_text_defined(t: Seq<char>) -> bool {
    spec_parse_json(t) matches Some(v) ==> event_defined(v)
}

/// The event the text `t` holds.
pub open spec fn spec_event_text(t: Seq<char>) -> Result<EventView, EventError> {
    match spec_parse_json(t) {
        Some(v) => spec_event(v),
        None => Err(EventError::Syntax),
    }
}

/// The document serde writes for the record an event holds; `None` for an
/// `Error` event.
pub open spec fn event_record_json(e: EventView) -> Option<SpecJson> {
    match e {
        EventView::LifecycleEvent(x) => Some(LifecycleEvent::spec_json(x)),
        EventView::HeartbeatEvent(x) => Some(HeartbeatEvent::spec_json(x)),
        EventView::GroupMsgEvent(x) => Some(GroupMsgEvent::spec_json(x)),
        EventView::PrivateMsgEvent(x) => Some(PrivateMsgEvent::spec_json(x)),
        EventView::GroupRecall(x) => Some(GroupRecall::spec_json(x)),
        EventView::EchoEvent(x) => Some(EchoEvent::spec_json(x)),
        EventView::GroupCard(x) => Some(GroupCard::spec_json(x)),
        EventView::GroupMsgEmojiLikeEvent(x) => Some(GroupMsgEmojiLikeEvent::spec_json(x)),
        EventView::PokeEvent(x) => Some(PokeEvent::spec_json(x)),
        EventView::TitleEvent(x) => Some(TitleEvent::spec_json(x)),
        EventView::GroupBanEvent(x) => Some(GroupBanEvent::spec_json(x)),
        EventView::GroupAdminEvent(x) => Some(GroupAdminEvent::spec_json(x)),
        EventView::Error(_) => None,
    }
}

/// The text `Event::to_string` writes: the JSON of the record, or the
/// message of an `Error`.
pub open spec fn spec_event_json_text(e: EventView) -> Seq<char> {
    match event_record_json(e) {
        Some(j) => spec_json_text(j),
        None => match e {
            EventView::Error(m) => m,
            _ => Seq::empty(),
        },
    }
}

/// An answer reports success when its `status` is `ok`; every other
/// event counts as a success.
pub open spec fn spec_event_is_ok(e: EventView) -> bool {
    match e {
        EventView::EchoEvent(x) => x.status == "ok"@,
        _ => true,
    }
}

impl Event {
    /// Whether sorting `v` into an event is defined.
    pub fn is_defined(v: &JsonValue) -> (r: bool)
        ensures
            r == event_defined(v@),
    {
        match BaseEvent::from_json(v) {
            None => true,
            Some(b) => {
                if b.echo.is_some() {
                    true
                } else {
                    match b.post_type {
                        None => false,
                        Some(PostType::Message) => b.message_type.is_some(),
                        Some(PostType::MessageSent) => true,
                        Some(PostType::Notice) => match b.notice_type {
                            None => false,
                            Some(NoticeType::Notify) => b.sub_type.is_some(),
                            Some(_) => true,
                        },
                        Some(PostType::MetaEvent) => b.meta_event_type.is_some(),
                    }
                }
            },
        }
    }

    /// Sorts the document `v` into an event: an answer where it carries an
    /// `echo`, else the record its `post_type` (and the matching
    /// `message_type`, `notice_type`, `sub_type` or `meta_event_type`)
    /// names; a `message_sent` report is a group message.
    pub fn from_json(v: &JsonValue) -> (r: Result<Event, EventError>)
        requires
            event_defined(v@),
        ensures
            event_result_view(r) == spec_event(v@),
    {
        let b = match BaseEvent::from_json(v) {
            Some(b) => b,
            None => {
                return Err(EventError::Header);
            },
        };
        if b.echo.is_some() {
            return match EchoEvent::from_json(v) {
                Some(e) => Ok(Event::EchoEvent { event: e }),
                None => Err(EventError::Echo),
            };
        }
        match b.post_type {
            Some(PostType::Message) => match b.message_type {
                Some(MessageType::Group) => match GroupMsgEvent::from_json(v) {
                    Some(e) => Ok(Event::GroupMsgEvent { event: e }),
                    None => Err(EventError::Body),
                },
                Some(MessageType::Private) => match PrivateMsgEvent::from_json(v) {
                    Some(e) => Ok(Event::PrivateMsgEvent { event: e }),
                    None => Err(EventError::Body),
                },
                None => Err(EventError::Header),
            },
            Some(PostType::MessageSent) => match GroupMsgEvent::from_json(v) {
                Some(e) => Ok(Event::GroupMsgEvent { event: e }),
                None => Err(EventError::Body),
            },
            Some(PostType::Notice) => match b.notice_type {
                Some(NoticeType::GroupCard) => match GroupCard::from_json(v) {
                    Some(e) => Ok(Event::GroupCard { event: e }),
                    None => Err(EventError::Body),
                },
                Some(NoticeType::GroupMsgEmojiLike) => match GroupMsgEmojiLikeEvent::from_json(v) {
                    Some(e) => Ok(Event::GroupMsgEmojiLikeEvent { event: e }),
                    None => Err(EventError::Body),
                },
                Some(NoticeType::Notify) => match b.sub_type {
                    Some(SubType::Poke) => match PokeEvent::from_json(v) {
                        Some(e) => Ok(Event::PokeEvent { event: e }),
                        None => Err(EventError::Body),
                    },
                    Some(SubType::Title) => match TitleEvent::from_json(v) {
                        Some(e) => Ok(Event::TitleEvent { event: e }),
                        None => Err(EventError::Body),
                    },
                    Some(_) => Err(EventError::UnknownNotify),
                    None => Err(EventError::Header),
                },
                Some(NoticeType::GroupRecall) => match GroupRecall::from_json(v) {
                    Some(e) => Ok(Event::GroupRecall { event: e }),
                    None => Err(EventError::Body),
                },
                Some(NoticeType::GroupBan) => match GroupBanEvent::from_json(v) {
                    Some(e) => Ok(Event::GroupBanEvent { event: e }),
                    None => Err(EventError::Body),
                },
                Some(NoticeType::GroupAdmin) => match GroupAdminEvent::from_json(v) {
                    Some(e) => Ok(Event::GroupAdminEvent { event: e }),
                    None => Err(EventError::Body),
                },
                None => Err(EventError::Header),
            },
            Some(PostType::MetaEvent) => match b.meta_event_type {
                Some(MetaEventType::Heartbeat) => match HeartbeatEvent::from_json(v) {
                    Some(e) => Ok(Event::HeartbeatEvent { event: e }),
                    None => Err(EventError::Body),
                },
                Some(MetaEventType::Lifecycle) => match LifecycleEvent::from_json(v) {
                    Some(e) => Ok(Event::LifecycleEvent { event: e }),
                    None => Err(EventError::Body),
                },
                None => Err(EventError::Header),
            },
            None => Err(EventError::Header),
        }
    }

    /// Reads the report in the JSON document that the text `s` holds, as
    /// serde_json reads it into a `Value` (where a key repeats, the last
    /// copy counts). `Event::from` follows serde's typed readings instead.
    pub fn read_document(s: &str) -> (r: Result<Event, EventError>)
        requires
            event_text_defined(s@),
        ensures
            event_result_view(r) == spec_event_text(s@),
    {
        match parse_json(s) {
            Some(v) => Event::from_json(&v),
            None => Err(EventError::Syntax),
        }
    }

    /// Reads the report in the JSON document of `s` where that is defined;
    /// `None` where `Event::read_document` would meet an incomplete header.
    pub fn checked_read_document(s: &str) -> (r: Option<Result<Event, EventError>>)
        ensures
            r is None <==> !event_text_defined(s@),
            r matches Some(x) ==> event_result_view(x) == spec_event_text(s@),
    {
        let defined = match parse_json(s) {
            Some(v) => Event::is_defined(&v),
            None => true,
        };
        if defined {
            Some(Event::read_document(s))
        } else {
            None
        }
    }

    /// The event as JSON text: the record serde writes, or the message of
    /// an `Error`. Where the record's document is `canonical`, serde_json
    /// reads the text back to that document.
    pub fn to_string(&self) -> (r: Result<String, EventError>)
        ensures
            r matches Ok(t) && t@ == spec_event_json_text(self@),
            r matches Ok(t) && (event_record_json(self@) is Some && canonical(
                event_record_json(self@)->0,
            ) ==> spec_parse_json(t@) == event_record_json(self@)),
    {
        let t = match self {
            Event::LifecycleEvent { event } => json_to_string(&event.to_json()),
            Event::HeartbeatEvent { event } => json_to_string(&event.to_json()),
            Event::GroupMsgEvent { event } => json_to_string(&event.to_json()),
            Event::PrivateMsgEvent { event } => json_to_string(&event.to_json()),
            Event::GroupRecall { event } => json_to_string(&event.to_json()),
            Event::EchoEvent { event } => json_to_string(&event.to_json()),
            Event::GroupCard { event } => json_to_string(&event.to_json()),
            Event::GroupMsgEmojiLikeEvent { event } => json_to_string(&event.to_json()),
            Event::PokeEvent { event } => json_to_string(&event.to_json()),
            Event::TitleEvent { event } => json_to_string(&event.to_json()),
            Event::GroupBanEvent { event } => json_to_string(&event.to_json()),
            Event::GroupAdminEvent { event } => json_to_string(&event.to_json()),
            Event::Error { msg } => msg.clone(),
        };
        Ok(t)
    }

    /// Whether the event reports success: an answer whose `status` is `ok`,
    /// or any other event.
    pub fn is_ok(&self) -> (r: bool)
        ensures
            r == spec_event_is_ok(self@),
    {
        match self {
            Event::EchoEvent { event } => event.is_ok(),
            _ => true,
        }
    }
}

impl EchoEvent {
    /// Whether the answer reports success: its `status` is `ok`.
    pub fn is_ok(&self) -> (r: bool)
        ensures
            r == (self.status@ == "ok"@),
    {
        same_text(&self.status, "ok")
    }
}

impl HeartbeatEvent {
    /// Whether the heartbeat reports the bot online: `status.online`.
    pub fn is_online(&self) -> (r: bool)
        requires
            json_get(self.status@, "online"@) matches Some(SpecJson::Bool(_)),
        ensures
            json_get(self.status@, "online"@) == Some(SpecJson::Bool(r)),
    {
        match get(&self.status, "online") {
            Some(JsonValue::Bool(b)) => *b,
            _ => {
                proof {
                    assert(false);
                }
                false
            },
        }
    }
}

impl GroupMsgEvent {
    /// The message that answers this one with `msg`: a reply to it, then
    /// the segments of `msg` that `Message::push` carries over.
    pub fn reply_message(&self, msg: &Message) -> (r: Message)
        requires
            forall|i: int| 0 <= i < msg@.len() ==> (#[trigger] seg_type(msg@[i])) is Some,
        ensures
            r@ == seq![segment_with("reply"@, "id"@, int_text(self.message_id as int))]
                + kept_segments(msg@),
    {
        let id = i64_text(self.message_id);
        let mut m = Message::new().reply(id.as_str());
        m.push(msg);
        assert(Seq::<SpecJson>::empty().push(segment_with("reply"@, "id"@, id@)) =~= seq![segment_with("reply"@, "id"@, id@)]);
        m
    }

    /// The message this one replies to.
    pub fn get_reply(&self) -> (r: Option<Reply>)
        ensures
            r is Some <==> first_reply(self.message@) is Some,
            r matches Some(rep) ==> rep.id@ == spec_json_text(first_reply(self.message@)->0),
    {
        self.message.get_reply()
    }

    /// The message this one forwards.
    pub fn get_forward(&self) -> (r: Option<Forward>)
        ensures
            r is Some <==> first_forward(self.message@) is Some,
            r matches Some(f) ==> f.content@ == (first_forward(self.message@)->0).0 && f.id@
                == spec_json_text((first_forward(self.message@)->0).1),
    {
        self.message.get_forward()
    }

    /// The text of the first text segment.
    pub fn get_first_text(&self) -> (r: Option<String>)
        requires
            first_text(self.message@) matches Some(t) ==> t is Str,
        ensures
            r is Some <==> first_text(self.message@) is Some,
            r matches Some(t) ==> first_text(self.message@) == Some(SpecJson::Str(t@)),
    {
        self.message.get_first_text()
    }
}

/// The records serde reads a report as.
#[derive(Debug, Clone, Copy, PartialEq, Eq, Structural)]
pub enum Record {
    Base,
    Echo,
    Lifecycle,
    Heartbeat,
    GroupMsg,
    PrivateMsg,
    GroupRecall,
    GroupCard,
    GroupMsgEmojiLike,
    Poke,
    Title,
    GroupBan,
    GroupAdmin,
}

/// The next step of sorting a report.
pub enum SortStep {
    /// Read the report with serde as `record`; where that fails, the words
    /// of the failure are `{:?}` of its reading as `quoted`.
    Read { record: Record, quoted: Record },
    /// The report is this event.
    Done { event: Event },
}

/// The model of a [`SortStep`].
pub enum SortStepView {
    Read { record: Record, quoted: Record },
    Done { event: EventView },
}

impl View for SortStep {
    type V = SortStepView;

    open spec fn view(&self) -> SortStepView {
        match self {
            SortStep::Read { record, quoted } => SortStepView::Read { record: *record, quoted: *quoted },
            SortStep::Done { event } => SortStepView::Done { event: event@ },
        }
    }
}

/// The words of a report that cannot be sorted: `获取事件类型失败:` and the
/// text.
pub open spec fn unsorted_words(text: Seq<char>) -> Seq<char> {
    "获取事件类型失败:"@ + text
}

/// The step after the complete header `b` of the report `text`: an
/// answer is read as such; any other report by the kind its header names
/// (a private message quoting its reading as a group message where it
/// fails); a notify whose sub type has no record cannot be sorted.
pub open spec fn after_header(text: Seq<char>, b: BaseEventView) -> SortStepView {
    let read = |r: Record| SortStepView::Read { record: r, quoted: r };
    if b.echo is Some {
        read(Record::Echo)
    } else {
        match b.post_type->0 {
            PostType::Message => match b.message_type->0 {
                MessageType::Group => read(Record::GroupMsg),
                MessageType::Private => SortStepView::Read {
                    record: Record::PrivateMsg,
                    quoted: Record::GroupMsg,
                },
            },
            PostType::MessageSent => read(Record::GroupMsg),
            PostType::Notice => match b.notice_type->0 {
                NoticeType::GroupCard => read(Record::GroupCard),
                NoticeType::GroupMsgEmojiLike => read(Record::GroupMsgEmojiLike),
                NoticeType::Notify => match b.sub_type->0 {
                    SubType::Poke => read(Record::Poke),
                    SubType::Title => read(Record::Title),
                    _ => SortStepView::Done { event: EventView::Error(unsorted_words(text)) },
                },
                NoticeType::GroupRecall => read(Record::GroupRecall),
                NoticeType::GroupBan => read(Record::GroupBan),
                NoticeType::GroupAdmin => read(Record::GroupAdmin),
            },
            PostType::MetaEvent => match b.meta_event_type->0 {
                MetaEventType::Heartbeat => read(Record::Heartbeat),
                MetaEventType::Lifecycle => read(Record::Lifecycle),
            },
        }
    }
}

/// The event the document `v` holds as `record`, where it holds one.
pub open spec fn record_event(record: Record, v: SpecJson) -> Option<EventView> {
    match record {
        Record::Base => None,
        Record::Echo => match EchoEvent::spec_parse(v) {
            Some(x) => Some(EventView::EchoEvent(x)),
            None => None,
        },
        Record::Lifecycle => match LifecycleEvent::spec_parse(v) {
            Some(x) => Some(EventView::LifecycleEvent(x)),
            None => None,
        },
        Record::Heartbeat => match HeartbeatEvent::spec_parse(v) {
            Some(x) => Some(EventView::HeartbeatEvent(x)),
            None => None,
        },
        Record::GroupMsg => match GroupMsgEvent::spec_parse(v) {
            Some(x) => Some(EventView::GroupMsgEvent(x)),
            None => None,
        },
        Record::PrivateMsg => match PrivateMsgEvent::spec_parse(v) {
            Some(x) => Some(EventView::PrivateMsgEvent(x)),
            None => None,
        },
        Record::GroupRecall => match GroupRecall::spec_parse(v) {
            Some(x) => Some(EventView::GroupRecall(x)),
            None => None,
        },
        Record::GroupCard => match GroupCard::spec_parse(v) {
            Some(x) => Some(EventView::GroupCard(x)),
            None => None,
        },
        Record::GroupMsgEmojiLike => match GroupMsgEmojiLikeEvent::spec_parse(v) {
            Some(x) => Some(EventView::GroupMsgEmojiLikeEvent(x)),
            None => None,
        },
        Record::Poke => match PokeEvent::spec_parse(v) {
            Some(x) => Some(EventView::PokeEvent(x)),
            None => None,
        },
        Record::Title => match TitleEvent::spec_parse(v) {
            Some(x) => Some(EventView::TitleEvent(x)),
            None => None,
        },
        Record::GroupBan => match GroupBanEvent::spec_parse(v) {
            Some(x) => Some(EventView::GroupBanEvent(x)),
            None => None,
        },
        Record::GroupAdmin => match GroupAdminEvent::spec_parse(v) {
            Some(x) => Some(EventView::GroupAdminEvent(x)),
            None => None,
        },
    }
}

/// The step after serde read the report `text` as `record` and gave
/// `reading`: the record it read, written back out as JSON text by serde,
/// or the words of its failure. A failure is an `Error` event with those
/// words. A header that reads leads to `after_header`; a record that reads
/// is the event. Where the text serde wrote does not read back here, the
/// report cannot be sorted.
pub open spec fn spec_sort_step(text: Seq<char>, record: Record, reading: Result<Seq<char>, Seq<char>>) -> SortStepView {
    match reading {
        Err(w) => SortStepView::Done { event: EventView::Error(w) },
        Ok(t) => match spec_parse_json(t) {
            None => SortStepView::Done { event: EventView::Error(unsorted_words(text)) },
            Some(v) => if record == Record::Base {
                match BaseEvent::spec_parse(v) {
                    Some(b) => after_header(text, b),
                    None => SortStepView::Done { event: EventView::Error(unsorted_words(text)) },
                }
            } else {
                match record_event(record, v) {
                    Some(e) => SortStepView::Done { event: e },
                    None => SortStepView::Done { event: EventView::Error(unsorted_words(text)) },
                }
            },
        },
    }
}

/// A step is defined where a header serde read is complete: an incomplete
/// one names no kind to read the report as.
pub open spec fn step_defined(record: Record, reading: Result<Seq<char>, Seq<char>>) -> bool {
    record == Record::Base && reading is Ok ==> match spec_parse_json(reading->Ok_0) {
        Some(v) => match BaseEvent::spec_parse(v) {
            Some(b) => header_complete(b),
            None => true,
        },
        None => true,
    }
}

/// The model of a reading.
pub open spec fn reading_view(reading: Result<String, String>) -> Result<Seq<char>, Seq<char>> {
    match reading {
        Ok(t) => Ok(t@),
        Err(w) => Err(w@),
    }
}

impl Event {
    /// Whether the step after `reading` is defined (`step_defined`).
    pub fn step_is_defined(record: Record, reading: &Result<String, String>) -> (r: bool)
        ensures
            r == step_defined(record, reading_view(*reading)),
    {
        if record != Record::Base {
            return true;
        }
        match reading {
            Err(_) => true,
            Ok(t) => match parse_json(t.as_str()) {
                Some(v) => Event::is_defined(&v),
                None => true,
            },
        }
    }

    /// Sorts the report `text` one step on. Sorting begins with
    /// `SortStep::Read { record: Record::Base, quoted: Record::Base }`: the
    /// caller reads the text with serde as each step asks and hands back
    /// `reading` (the record serde read, written out again as JSON, or the
    /// words of its failure), until the step is `Done`.
    pub fn from(text: &str, record: Record, reading: Result<String, String>) -> (r: SortStep)
        requires
            step_defined(record, reading_view(reading)),
        ensures
            r@ == spec_sort_step(text@, record, reading_view(reading)),
    {
        let t = match reading {
            Err(w) => {
                return SortStep::Done { event: Event::Error { msg: w } };
            },
            Ok(t) => t,
        };
        let v = match parse_json(t.as_str()) {
            Some(v) => v,
            None => {
                return SortStep::Done { event: Event::Error { msg: join2("获取事件类型失败:", text) } };
            },
        };
        if record == Record::Base {
            return match BaseEvent::from_json(&v) {
                Some(b) => Event::after_header(text, &b),
                None => SortStep::Done { event: Event::Error { msg: join2("获取事件类型失败:", text) } },
            };
        }
        match Event::record_event(record, &v) {
            Some(e) => SortStep::Done { event: e },
            None => SortStep::Done { event: Event::Error { msg: join2("获取事件类型失败:", text) } },
        }
    }

    fn after_header(text: &str, b: &BaseEvent) -> (r: SortStep)
        requires
            header_complete(b@),
        ensures
            r@ == after_header(text@, b@),
    {
        if b.echo.is_some() {
            return SortStep::Read { record: Record::Echo, quoted: Record::Echo };
        }
        let record = match b.post_type {
            Some(PostType::Message) => match b.message_type {
                Some(MessageType::Private) => {
                    return SortStep::Read { record: Record::PrivateMsg, quoted: Record::GroupMsg };
                },
                _ => Record::GroupMsg,
            },
            Some(PostType::MessageSent) => Record::GroupMsg,
            Some(PostType::Notice) => match b.notice_type {
                Some(NoticeType::GroupCard) => Record::GroupCard,
                Some(NoticeType::GroupMsgEmojiLike) => Record::GroupMsgEmojiLike,
                Some(NoticeType::Notify) => match b.sub_type {
                    Some(SubType::Poke) => Record::Poke,
                    Some(SubType::Title) => Record::Title,
                    _ => {
                        return SortStep::Done {
                            event: Event::Error { msg: join2("获取事件类型失败:", text) },
                        };
                    },
                },
                Some(NoticeType::GroupRecall) => Record::GroupRecall,
                Some(NoticeType::GroupBan) => Record::GroupBan,
                _ => Record::GroupAdmin,
            },
            _ => match b.meta_event_type {
                Some(MetaEventType::Heartbeat) => Record::Heartbeat,
                _ => Record::Lifecycle,
            },
        };
        SortStep::Read { record, quoted: record }
    }

    fn record_event(record: Record, v: &JsonValue) -> (r: Option<Event>)
        ensures
            match r {
                Some(e) => record_event(record, v@) == Some(e@),
                None => record_event(record, v@) is None,
            },
    {
        match record {
            Record::Base => None,
            Record::Echo => match EchoEvent::from_json(v) {
                Some(x) => Some(Event::EchoEvent { event: x }),
                None => None,
            },
            Record::Lifecycle => match LifecycleEvent::from_json(v) {
                Some(x) => Some(Event::LifecycleEvent { event: x }),
                None => None,
            },
            Record::Heartbeat => match HeartbeatEvent::from_json(v) {
                Some(x) => Some(Event::HeartbeatEvent { event: x }),
                None => None,
            },
            Record::GroupMsg => match GroupMsgEvent::from_json(v) {
                Some(x) => Some(Event::GroupMsgEvent { event: x }),
                None => None,
            },
            Record::PrivateMsg => match PrivateMsgEvent::from_json(v) {
                Some(x) => Some(Event::PrivateMsgEvent { event: x }),
                None => None,
            },
            Record::GroupRecall => match GroupRecall::from_json(v) {
                Some(x) => Some(Event::GroupRecall { event: x }),
                None => None,
            },
            Record::GroupCard => match GroupCard::from_json(v) {
                Some(x) => Some(Event::GroupCard { event: x }),
                None => None,
            },
            Record::GroupMsgEmojiLike => match GroupMsgEmojiLikeEvent::from_json(v) {
                Some(x) => Some(Event::GroupMsgEmojiLikeEvent { event: x }),
                None => None,
            },
            Record::Poke => match PokeEvent::from_json(v) {
                Some(x) => Some(Event::PokeEvent { event: x }),
                None => None,
            },
            Record::Title => match TitleEvent::from_json(v) {
                Some(x) => Some(Event::TitleEvent { event: x }),
                None => None,
            },
            Record::GroupBan => match GroupBanEvent::from_json(v) {
                Some(x) => Some(Event::GroupBanEvent { event: x }),
                None => None,
            },
            Record::GroupAdmin => match GroupAdminEvent::from_json(v) {
                Some(x) => Some(Event::GroupAdminEvent { event: x }),
                None => None,
            },
        }
    }
}

/// Where serde's typed readings hand back the report's own text, sorting
/// it step by step gives the event its JSON document holds
/// (`Event::read_document`): the header names the record `spec_event`
/// reads, and that record reads as the same event; a notify whose sub type
/// has no record is left unsorted in both.
pub proof fn law_sorting_reads_the_document(t: Seq<char>, v: SpecJson)
    requires
        spec_parse_json(t) == Some(v),
        BaseEvent::spec_parse(v) matches Some(b) && header_complete(b),
    ensures
        match spec_sort_step(t, Record::Base, Ok(t)) {
            SortStepView::Read { record, quoted } => spec_event(v) matches Ok(e) ==> spec_sort_step(
                t,
                record,
                Ok(t),
            ) == (SortStepView::Done { event: e }),
            SortStepView::Done { event } => spec_event(v) == Err::<EventView, EventError>(
                EventError::UnknownNotify,
            ) && event == EventView::Error(unsorted_words(t)),
        },
{
}

} // verus!
