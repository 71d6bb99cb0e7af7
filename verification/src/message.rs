//! Chat messages in the OneBot v11 array form: a list of segments, each an
//! object `{"type": kind, "data": {...}}`.
use vstd::prelude::*;
use crate::json::{
    canonical, normal_form, nests_within, text_lt, spec_parse_json, field, field_of, is_shaped, read_any, read_text, req_any, req_text, shaped,
    copy_items, get, json_get, model_entries, json_to_string, model_items, model_of, lemma_model_items, push_entry,
    push_item, same_text, spec_json_text, JsonValue, SpecJson,
};
use crate::text::{nat_text, u64_text};

verus! {

/// The `data` and `type` of a message segment.
#[derive(Debug)]
pub struct MsgData {
    pub data: JsonValue,
    pub kind: String,
}

/// Data of a `text` segment.
#[derive(Debug)]
pub struct Text {
    pub text: String,
}

/// Data of an `image` segment.
#[derive(Debug)]
pub struct Image {
    pub file: String,
    pub file_id: String,
    pub file_size: String,
    pub sub_type: i8,
    pub url: String,
}

/// Data of an `mface` (sticker) segment.
#[derive(Debug)]
pub struct Mface {
    pub emoji_id: String,
    pub emoji_package_id: String,
    pub key: String,
    pub summary: String,
    pub url: String,
}

/// Data of an `at` segment.
#[derive(Debug)]
pub struct At {
    pub qq: String,
    pub name: String,
}

/// The message a `reply` segment answers.
#[derive(Debug)]
pub struct Reply {
    pub id: String,
}

/// Data of a `json` segment.
#[derive(Debug)]
pub struct Json {
    pub data: String,
}

/// A forwarded message.
#[derive(Debug)]
pub struct Forward {
    pub content: JsonValue,
    pub id: String,
}

/// Data of a `video` segment.
#[derive(Debug)]
pub struct Video {
    pub file: String,
    pub file_id: String,
    pub file_size: String,
    pub path: String,
    pub url: String,
}

/// A message as a list of segments.
///
/// ```text
/// let msg = Message::new().text("Hello, World!");
/// ```
#[derive(Debug)]
pub struct Message {
    pub msg: Vec<JsonValue>,
}

impl View for Message {
    type V = Seq<SpecJson>;

    open spec fn view(&self) -> Seq<SpecJson> {
        model_items(self.msg@)
    }
}

/// The segment `{"data": {key: value}, "type": kind}`.
pub open spec fn segment_with(kind: Seq<char>, key: Seq<char>, value: Seq<char>) -> SpecJson {
    SpecJson::Object(
        seq![
            ("data"@, SpecJson::Object(seq![(key, SpecJson::Str(value))])),
            ("type"@, SpecJson::Str(kind)),
        ],
    )
}

/// The segment `{"type": "rps"}`.
pub open spec fn rps_segment() -> SpecJson {
    SpecJson::Object(seq![("type"@, SpecJson::Str("rps"@))])
}

/// The kind of a segment, where its `type` is text.
pub open spec fn seg_type(v: SpecJson) -> Option<Seq<char>> {
    match json_get(v, "type"@) {
        Some(SpecJson::Str(t)) => Some(t),
        _ => None,
    }
}

/// The kinds of segment that `Message::push` carries over.
pub open spec fn kept_kind(t: Seq<char>) -> bool {
    t == "text"@ || t == "image"@ || t == "at"@ || t == "face"@
}

/// The segments of `s` whose kind is kept, in order.
pub open spec fn kept_segments(s: Seq<SpecJson>) -> Seq<SpecJson>
    decreases s.len(),
{
    if s.len() == 0 {
        Seq::empty()
    } else if kept_kind(seg_type(s.last())->0) {
        kept_segments(s.drop_last()).push(s.last())
    } else {
        kept_segments(s.drop_last())
    }
}

/// `v` is a segment whose type is exactly the text `kind`.
pub open spec fn is_kind(v: SpecJson, kind: Seq<char>) -> bool {
    json_get(v, "type"@) == Some(SpecJson::Str(kind))
}

/// The `data.id` of a `reply` segment.
pub open spec fn reply_id(v: SpecJson) -> Option<SpecJson> {
    if is_kind(v, "reply"@) && json_get(v, "data"@) is Some {
        json_get(json_get(v, "data"@)->0, "id"@)
    } else {
        None
    }
}

/// `data.content` and `data.id` of a segment whose type is `forward`,
/// where both are there.
pub open spec fn forward_parts(v: SpecJson) -> Option<(SpecJson, SpecJson)> {
    if is_kind(v, "forward"@) && json_get(v, "data"@) is Some {
        let d = json_get(v, "data"@)->0;
        if json_get(d, "content"@) is Some && json_get(d, "id"@) is Some {
            Some((json_get(d, "content"@)->0, json_get(d, "id"@)->0))
        } else {
            None
        }
    } else {
        None
    }
}

/// The `data.text` of a `text` segment.
pub open spec fn text_value(v: SpecJson) -> Option<SpecJson> {
    if is_kind(v, "text"@) && json_get(v, "data"@) is Some {
        json_get(json_get(v, "data"@)->0, "text"@)
    } else {
        None
    }
}

/// The first `reply_id` among the segments.
pub open spec fn first_reply(s: Seq<SpecJson>) -> Option<SpecJson>
    decreases s.len(),
{
    if s.len() == 0 {
        None
    } else if reply_id(s[0]) is Some {
        reply_id(s[0])
    } else {
        first_reply(s.drop_first())
    }
}

/// The first `forward_parts` among the segments.
pub open spec fn first_forward(s: Seq<SpecJson>) -> Option<(SpecJson, SpecJson)>
    decreases s.len(),
{
    if s.len() == 0 {
        None
    } else if forward_parts(s[0]) is Some {
        forward_parts(s[0])
    } else {
        first_forward(s.drop_first())
    }
}

/// The first `text_value` among the segments.
pub open spec fn first_text(s: Seq<SpecJson>) -> Option<SpecJson>
    decreases s.len(),
{
    if s.len() == 0 {
        None
    } else if text_value(s[0]) is Some {
        text_value(s[0])
    } else {
        first_text(s.drop_first())
    }
}

proof fn lemma_first_reply_skip(s: Seq<SpecJson>, i: int)
    requires
        0 <= i < s.len(),
    ensures
        first_reply(s.skip(i)) == if reply_id(s[i]) is Some {
            reply_id(s[i])
        } else {
            first_reply(s.skip(i + 1))
        },
{
    assert(s.skip(i).drop_first() =~= s.skip(i + 1));
}

proof fn lemma_first_forward_skip(s: Seq<SpecJson>, i: int)
    requires
        0 <= i < s.len(),
    ensures
        first_forward(s.skip(i)) == if forward_parts(s[i]) is Some {
            forward_parts(s[i])
        } else {
            first_forward(s.skip(i + 1))
        },
{
    assert(s.skip(i).drop_first() =~= s.skip(i + 1));
}

proof fn lemma_first_text_skip(s: Seq<SpecJson>, i: int)
    requires
        0 <= i < s.len(),
    ensures
        first_text(s.skip(i)) == if text_value(s[i]) is Some {
            text_value(s[i])
        } else {
            first_text(s.skip(i + 1))
        },
{
    assert(s.skip(i).drop_first() =~= s.skip(i + 1));
}

/// Builds the segment `{"data": {key: value}, "type": kind}`.
pub fn segment(kind: &str, key: &str, value: String) -> (r: JsonValue)
    ensures
        r@ == segment_with(kind@, key@, value@),
{
    let mut inner: Vec<(String, JsonValue)> = Vec::new();
    assert(model_entries(inner@) =~= Seq::<(Seq<char>, SpecJson)>::empty());
    push_entry(&mut inner, key, JsonValue::Str(value));
    assert(model_entries(inner@) =~= seq![(key@, SpecJson::Str(value@))]);
    let mut outer: Vec<(String, JsonValue)> = Vec::new();
    assert(model_entries(outer@) =~= Seq::<(Seq<char>, SpecJson)>::empty());
    let d = JsonValue::Object(inner);
    push_entry(&mut outer, "data", d);
    push_entry(&mut outer, "type", JsonValue::Str(String::from_str(kind)));
    assert(model_entries(outer@) =~= seq![
        ("data"@, SpecJson::Object(seq![(key@, SpecJson::Str(value@))])),
        ("type"@, SpecJson::Str(kind@)),
    ]);
    JsonValue::Object(outer)
}

impl<'a> From<&'a str> for Message {
    /// The message `value` as a single text segment.
    fn from(value: &'a str) -> (r: Message)
        ensures
            r@ == seq![segment_with("text"@, "text"@, value@)],
    {
        let r = Message::new().text(value);
        assert(r@ =~= seq![segment_with("text"@, "text"@, value@)]);
        r
    }
}

impl<'a> vstd::std_specs::convert::FromSpecImpl<&'a str> for Message {
    /// The contract of `from` is its own `ensures`, over the view.
    open spec fn obeys_from_spec() -> bool {
        false
    }

    closed spec fn from_spec(v: &'a str) -> Message {
        arbitrary()
    }
}

/// Whether `v` is a segment whose type is exactly the text `kind`.
fn has_kind(v: &JsonValue, kind: &str) -> (r: bool)
    ensures
        r == is_kind(v@, kind@),
{
    match get(v, "type") {
        Some(JsonValue::Str(t)) => same_text(t, kind),
        _ => false,
    }
}

impl Message {
    /// An empty message.
    pub fn new() -> (r: Message)
        ensures
            r@ == Seq::<SpecJson>::empty(),
    {
        Message { msg: Vec::new() }
    }

    fn with_segment(self, seg: JsonValue) -> (r: Message)
        ensures
            r@ == self@.push(seg@),
    {
        let mut m = self;
        push_item(&mut m.msg, seg);
        m
    }

    /// Appends a text segment.
    pub fn text(self, s: &str) -> (r: Message)
        ensures
            r@ == self@.push(segment_with("text"@, "text"@, s@)),
    {
        self.with_segment(segment("text", "text", String::from_str(s)))
    }

    /// Appends a face (emoji) segment.
    pub fn face(self, s: u32) -> (r: Message)
        ensures
            r@ == self@.push(segment_with("face"@, "id"@, nat_text(s as nat))),
    {
        self.with_segment(segment("face", "id", u64_text(s as u64)))
    }

    /// Appends an image segment.
    pub fn image(self, s: &str) -> (r: Message)
        ensures
            r@ == self@.push(segment_with("image"@, "file"@, s@)),
    {
        self.with_segment(segment("image", "file", String::from_str(s)))
    }

    /// Appends a voice segment.
    pub fn record(self, s: &str) -> (r: Message)
        ensures
            r@ == self@.push(segment_with("record"@, "file"@, s@)),
    {
        self.with_segment(segment("record", "file", String::from_str(s)))
    }

    /// Appends a video segment.
    pub fn video(self, s: &str) -> (r: Message)
        ensures
            r@ == self@.push(segment_with("video"@, "file"@, s@)),
    {
        self.with_segment(segment("video", "file", String::from_str(s)))
    }

    /// Appends a mention.
    pub fn at(self, s: &str) -> (r: Message)
        ensures
            r@ == self@.push(segment_with("at"@, "qq"@, s@)),
    {
        self.with_segment(segment("at", "qq", String::from_str(s)))
    }

    /// Appends a rock-paper-scissors segment.
    pub fn rps(self) -> (r: Message)
        ensures
            r@ == self@.push(rps_segment()),
    {
        let mut e: Vec<(String, JsonValue)> = Vec::new();
        assert(model_entries(e@) =~= Seq::<(Seq<char>, SpecJson)>::empty());
        push_entry(&mut e, "type", JsonValue::Str(String::from_str("rps")));
        assert(model_entries(e@) =~= seq![("type"@, SpecJson::Str("rps"@))]);
        let seg = JsonValue::Object(e);
        assert(seg@ =~= rps_segment());
        self.with_segment(seg)
    }

    /// Appends a reply to the message with id `s`.
    pub fn reply(self, s: &str) -> (r: Message)
        ensures
            r@ == self@.push(segment_with("reply"@, "id"@, s@)),
    {
        self.with_segment(segment("reply", "id", String::from_str(s)))
    }

    /// Appends a forward of the message with id `s`.
    pub fn forward(self, s: &str) -> (r: Message)
        ensures
            r@ == self@.push(segment_with("forward"@, "id"@, s@)),
    {
        self.with_segment(segment("forward", "id", String::from_str(s)))
    }

    /// The message as a JSON array, in text. Where the array is
    /// `canonical`, serde_json reads the text back to the same array.
    pub fn to_string(&self) -> (r: String)
        ensures
            r@ == spec_json_text(SpecJson::Array(self@)),
            canonical(SpecJson::Array(self@)) ==> spec_parse_json(r@) == Some(SpecJson::Array(self@)),
    {
        json_to_string(&JsonValue::Array(copy_items(&self.msg)))
    }

    /// A copy of the segments.
    pub fn to_vec(&self) -> (r: Vec<JsonValue>)
        ensures
            model_items(r@) == self@,
    {
        copy_items(&self.msg)
    }

    /// The message as a JSON array.
    pub fn to_array(&self) -> (r: JsonValue)
        ensures
            r@ == SpecJson::Array(self@),
    {
        JsonValue::Array(copy_items(&self.msg))
    }

    /// Segment number `index`.
    pub fn index(&self, index: usize) -> (r: &JsonValue)
        requires
            index < self@.len(),
        ensures
            r@ == self@[index as int],
    {
        proof {
            lemma_model_items(self.msg@);
        }
        &self.msg[index]
    }

    /// The message held by a JSON document: its items where it is an
    /// array, else no segment at all.
    pub fn from_json(v: JsonValue) -> (r: Message)
        ensures
            r@ == match v@ {
                SpecJson::Array(a) => a,
                _ => Seq::<SpecJson>::empty(),
            },
    {
        match v {
            JsonValue::Array(a) => Message { msg: a },
            _ => Message::new(),
        }
    }

    /// The message this one replies to: the JSON text of `data.id` of its
    /// first `reply` segment that has one.
    pub fn get_reply(&self) -> (r: Option<Reply>)
        ensures
            r is Some <==> first_reply(self@) is Some,
            r matches Some(rep) ==> rep.id@ == spec_json_text(first_reply(self@)->0),
    {
        let ghost s = self@;
        proof {
            lemma_model_items(self.msg@);
            assert(s.skip(0) =~= s);
        }
        let mut i: usize = 0;
        while i < self.msg.len()
            invariant
                s == self@,
                s.len() == self.msg@.len(),
                forall|j: int| 0 <= j < s.len() ==> #[trigger] s[j] == model_of(self.msg@[j]),
                0 <= i <= self.msg.len(),
                first_reply(s) == first_reply(s.skip(i as int)),
            decreases self.msg.len() - i,
        {
            proof {
                lemma_first_reply_skip(s, i as int);
            }
            let v = &self.msg[i];
            if has_kind(v, "reply") {
                if let Some(data) = get(v, "data") {
                    if let Some(id) = get(data, "id") {
                        return Some(Reply { id: json_to_string(id) });
                    }
                }
            }
            i = i + 1;
        }
        proof {
            assert(s.skip(i as int).len() == 0);
        }
        None
    }

    /// The forwarded message: `data.content` and the JSON text of `data.id`
    /// of the first segment whose type is `forward` and that has both.
    pub fn get_forward(&self) -> (r: Option<Forward>)
        ensures
            r is Some <==> first_forward(self@) is Some,
            r matches Some(f) ==> f.content@ == (first_forward(self@)->0).0 && f.id@
                == spec_json_text((first_forward(self@)->0).1),
    {
        let ghost s = self@;
        proof {
            lemma_model_items(self.msg@);
            assert(s.skip(0) =~= s);
        }
        let mut i: usize = 0;
        while i < self.msg.len()
            invariant
                s == self@,
                s.len() == self.msg@.len(),
                forall|j: int| 0 <= j < s.len() ==> #[trigger] s[j] == model_of(self.msg@[j]),
                0 <= i <= self.msg.len(),
                first_forward(s) == first_forward(s.skip(i as int)),
            decreases self.msg.len() - i,
        {
            proof {
                lemma_first_forward_skip(s, i as int);
            }
            let v = &self.msg[i];
            if has_kind(v, "forward") {
                if let Some(data) = get(v, "data") {
                    let content = get(data, "content");
                    let id = get(data, "id");
                    if let (Some(c), Some(d)) = (content, id) {
                        return Some(Forward { content: c.copy(), id: json_to_string(d) });
                    }
                }
            }
            i = i + 1;
        }
        proof {
            assert(s.skip(i as int).len() == 0);
        }
        None
    }

    /// The `data.text` of the first `text` segment that has one.
    pub fn get_first_text(&self) -> (r: Option<String>)
        requires
            first_text(self@) matches Some(t) ==> t is Str,
        ensures
            r is Some <==> first_text(self@) is Some,
            r matches Some(t) ==> first_text(self@) == Some(SpecJson::Str(t@)),
    {
        let ghost s = self@;
        proof {
            lemma_model_items(self.msg@);
            assert(s.skip(0) =~= s);
        }
        let mut i: usize = 0;
        while i < self.msg.len()
            invariant
                s == self@,
                s.len() == self.msg@.len(),
                forall|j: int| 0 <= j < s.len() ==> #[trigger] s[j] == model_of(self.msg@[j]),
                0 <= i <= self.msg.len(),
                first_text(s) == first_text(s.skip(i as int)),
                first_text(s) matches Some(t) ==> t is Str,
            decreases self.msg.len() - i,
        {
            proof {
                lemma_first_text_skip(s, i as int);
            }
            let v = &self.msg[i];
            if has_kind(v, "text") {
                if let Some(data) = get(v, "data") {
                    if let Some(t) = get(data, "text") {
                        match t {
                            JsonValue::Str(text) => {
                                return Some(text.clone());
                            },
                            _ => {
                                assert(false);
                            },
                        }
                    }
                }
            }
            i = i + 1;
        }
        proof {
            assert(s.skip(i as int).len() == 0);
        }
        None
    }

    /// Appends the `text`, `image`, `at` and `face` segments of `msg`, in
    /// order; other segments are left out.
    pub fn push(&mut self, msg: &Message)
        requires
            forall|i: int| 0 <= i < msg@.len() ==> (#[trigger] seg_type(msg@[i])) is Some,
        ensures
            final(self)@ == old(self)@ + kept_segments(msg@),
    {
        let ghost s = msg@;
        proof {
            lemma_model_items(msg.msg@);
            assert(old(self)@ + kept_segments(s.take(0)) =~= old(self)@);
        }
        let mut i: usize = 0;
        while i < msg.msg.len()
            invariant
                s == msg@,
                s.len() == msg.msg@.len(),
                forall|j: int| 0 <= j < s.len() ==> #[trigger] s[j] == model_of(msg.msg@[j]),
                forall|j: int| 0 <= j < s.len() ==> (#[trigger] seg_type(s[j])) is Some,
                0 <= i <= msg.msg.len(),
                self@ == old(self)@ + kept_segments(s.take(i as int)),
            decreases msg.msg.len() - i,
        {
            let m = &msg.msg[i];
            let keep = match get(m, "type") {
                Some(JsonValue::Str(t)) => same_text(t, "text") || same_text(t, "image")
                    || same_text(t, "at") || same_text(t, "face"),
                _ => false,
            };
            proof {
                assert(s.take(i + 1).drop_last() =~= s.take(i as int));
                assert(s.take(i + 1).last() == s[i as int]);
                assert(keep == kept_kind(seg_type(s[i as int])->0));
            }
            if keep {
                let c = m.copy();
                push_item(&mut self.msg, c);
                assert(self@ =~= old(self)@ + kept_segments(s.take(i + 1)));
            } else {
                assert(self@ =~= old(self)@ + kept_segments(s.take(i + 1)));
            }
            i = i + 1;
        }
        assert(s.take(s.len() as int) =~= s);
    }
}

// ---------------------------------------------------------------------
// Reading segment data, field by field as serde reads a struct.
// ---------------------------------------------------------------------

/// The `data` and `type` of a segment read as a [`MsgData`].
pub open spec fn msg_data_of(v: SpecJson) -> Option<(SpecJson, Seq<char>)> {
    let d = req_any(field_of(v, "data"@, 0, 2));
    let t = req_text(field_of(v, "type"@, 1, 2));
    if shaped(v, 2) && d is Some && t is Some {
        Some((d->0, t->0))
    } else {
        None
    }
}

/// The text of `data` read as a [`Text`].
pub open spec fn text_of(d: SpecJson) -> Option<Seq<char>> {
    if shaped(d, 1) {
        req_text(field_of(d, "text"@, 0, 1))
    } else {
        None
    }
}

/// The summary of `data` read as an [`Mface`].
pub open spec fn mface_summary(d: SpecJson) -> Option<Seq<char>> {
    if shaped(d, 5) && req_text(field_of(d, "emoji_id"@, 0, 5)) is Some && req_text(
        field_of(d, "emoji_package_id"@, 1, 5),
    ) is Some && req_text(field_of(d, "key"@, 2, 5)) is Some && req_text(
        field_of(d, "summary"@, 3, 5),
    ) is Some && req_text(field_of(d, "url"@, 4, 5)) is Some {
        req_text(field_of(d, "summary"@, 3, 5))
    } else {
        None
    }
}

/// `qq` and `name` of `data` read as an [`At`].
pub open spec fn at_of(d: SpecJson) -> Option<(Seq<char>, Seq<char>)> {
    let q = req_text(field_of(d, "qq"@, 0, 2));
    let n = req_text(field_of(d, "name"@, 1, 2));
    if shaped(d, 2) && q is Some && n is Some {
        Some((q->0, n->0))
    } else {
        None
    }
}

/// The data of `data` read as a [`Json`].
pub open spec fn json_data_of(d: SpecJson) -> Option<Seq<char>> {
    if shaped(d, 1) {
        req_text(field_of(d, "data"@, 0, 1))
    } else {
        None
    }
}

impl MsgData {
    /// The segment `v` read as a [`MsgData`].
    pub fn from_json(v: &JsonValue) -> (r: Option<MsgData>)
        ensures
            match r {
                Some(m) => msg_data_of(v@) == Some((m.data@, m.kind@)),
                None => msg_data_of(v@) is None,
            },
    {
        if !is_shaped(v, 2) {
            return None;
        }
        let data = match read_any(field(v, "data", 0, 2)) {
            Some(d) => d,
            None => {
                return None;
            },
        };
        let kind = match read_text(field(v, "type", 1, 2)) {
            Some(t) => t,
            None => {
                return None;
            },
        };
        Some(MsgData { data, kind })
    }
}

impl Text {
    /// `data` read as a [`Text`].
    pub fn from_json(d: &JsonValue) -> (r: Option<Text>)
        ensures
            match r {
                Some(t) => text_of(d@) == Some(t.text@),
                None => text_of(d@) is None,
            },
    {
        if !is_shaped(d, 1) {
            return None;
        }
        match read_text(field(d, "text", 0, 1)) {
            Some(text) => Some(Text { text }),
            None => None,
        }
    }
}

impl Mface {
    /// `data` read as an [`Mface`].
    pub fn from_json(d: &JsonValue) -> (r: Option<Mface>)
        ensures
            match r {
                Some(m) => mface_summary(d@) == Some(m.summary@),
                None => mface_summary(d@) is None,
            },
    {
        if !is_shaped(d, 5) {
            return None;
        }
        let emoji_id = match read_text(field(d, "emoji_id", 0, 5)) {
            Some(t) => t,
            None => {
                return None;
            },
        };
        let emoji_package_id = match read_text(field(d, "emoji_package_id", 1, 5)) {
            Some(t) => t,
            None => {
                return None;
            },
        };
        let key = match read_text(field(d, "key", 2, 5)) {
            Some(t) => t,
            None => {
                return None;
            },
        };
        let summary = match read_text(field(d, "summary", 3, 5)) {
            Some(t) => t,
            None => {
                return None;
            },
        };
        let url = match read_text(field(d, "url", 4, 5)) {
            Some(t) => t,
            None => {
                return None;
            },
        };
        Some(Mface { emoji_id, emoji_package_id, key, summary, url })
    }
}

impl At {
    /// `data` read as an [`At`].
    pub fn from_json(d: &JsonValue) -> (r: Option<At>)
        ensures
            match r {
                Some(a) => at_of(d@) == Some((a.qq@, a.name@)),
                None => at_of(d@) is None,
            },
    {
        if !is_shaped(d, 2) {
            return None;
        }
        let qq = match read_text(field(d, "qq", 0, 2)) {
            Some(t) => t,
            None => {
                return None;
            },
        };
        let name = match read_text(field(d, "name", 1, 2)) {
            Some(t) => t,
            None => {
                return None;
            },
        };
        Some(At { qq, name })
    }
}

impl Json {
    /// `data` read as a [`Json`].
    pub fn from_json(d: &JsonValue) -> (r: Option<Json>)
        ensures
            match r {
                Some(j) => json_data_of(d@) == Some(j.data@),
                None => json_data_of(d@) is None,
            },
    {
        if !is_shaped(d, 1) {
            return None;
        }
        match read_text(field(d, "data", 0, 1)) {
            Some(data) => Some(Json { data }),
            None => None,
        }
    }
}

/// The words a segment stands for in a plain-text rendering: its text, a
/// sticker's summary, `@name(qq) ` for a mention, the data of a `json`
/// segment, a bracketed placeholder for an image, forward or video, and
/// nothing for a reply or any other kind. `None` where the segment or its
/// data does not read as the record its kind calls for.
pub open spec fn segment_words(v: SpecJson) -> Option<Seq<char>> {
    match msg_data_of(v) {
        None => None,
        Some((d, t)) => if t == "text"@ {
            text_of(d)
        } else if t == "image"@ {
            Some("[图片]"@)
        } else if t == "mface"@ {
            mface_summary(d)
        } else if t == "at"@ {
            match at_of(d) {
                Some((q, n)) => Some("@"@ + n + "("@ + q + ") "@),
                None => None,
            }
        } else if t == "reply"@ {
            Some(Seq::empty())
        } else if t == "json"@ {
            json_data_of(d)
        } else if t == "forward"@ {
            Some("[转发消息]"@)
        } else if t == "video"@ {
            Some("[视频]"@)
        } else {
            Some(Seq::empty())
        },
    }
}

/// The words of the segments, one after another.
pub open spec fn words_of(s: Seq<SpecJson>) -> Seq<char>
    decreases s.len(),
{
    if s.len() == 0 {
        Seq::empty()
    } else {
        words_of(s.drop_last()) + segment_words(s.last())->0
    }
}

/// The words segment `v` stands for.
pub fn segment_to_words(v: &JsonValue) -> (r: Option<String>)
    ensures
        match r {
            Some(w) => segment_words(v@) == Some(w@),
            None => segment_words(v@) is None,
        },
{
    let m = match MsgData::from_json(v) {
        Some(m) => m,
        None => {
            return None;
        },
    };
    if same_text(&m.kind, "text") {
        match Text::from_json(&m.data) {
            Some(t) => Some(t.text),
            None => None,
        }
    } else if same_text(&m.kind, "image") {
        Some(String::from_str("[图片]"))
    } else if same_text(&m.kind, "mface") {
        match Mface::from_json(&m.data) {
            Some(f) => Some(f.summary),
            None => None,
        }
    } else if same_text(&m.kind, "at") {
        match At::from_json(&m.data) {
            Some(a) => {
                let mut w = String::from_str("@");
                w.append(a.name.as_str());
                w.append("(");
                w.append(a.qq.as_str());
                w.append(") ");
                Some(w)
            },
            None => None,
        }
    } else if same_text(&m.kind, "reply") {
        Some(String::new())
    } else if same_text(&m.kind, "json") {
        match Json::from_json(&m.data) {
            Some(j) => Some(j.data),
            None => None,
        }
    } else if same_text(&m.kind, "forward") {
        Some(String::from_str("[转发消息]"))
    } else if same_text(&m.kind, "video") {
        Some(String::from_str("[视频]"))
    } else {
        Some(String::new())
    }
}

/// The plain-text rendering of a message's segments.
pub fn array_to_string(array: &Vec<JsonValue>) -> (r: String)
    requires
        forall|i: int| 0 <= i < array@.len() ==> (#[trigger] segment_words(array@[i]@)) is Some,
    ensures
        r@ == words_of(model_items(array@)),
{
    let ghost s = model_items(array@);
    proof {
        lemma_model_items(array@);
        assert(s.take(0) =~= Seq::<SpecJson>::empty());
    }
    let mut out = String::new();
    let mut i: usize = 0;
    while i < array.len()
        invariant
            s == model_items(array@),
            s.len() == array@.len(),
            forall|j: int| 0 <= j < s.len() ==> #[trigger] s[j] == array@[j]@,
            forall|j: int| 0 <= j < array@.len() ==> (#[trigger] segment_words(array@[j]@)) is Some,
            0 <= i <= array.len(),
            out@ == words_of(s.take(i as int)),
        decreases array.len() - i,
    {
        proof {
            assert(s.take(i + 1).drop_last() =~= s.take(i as int));
            assert(s.take(i + 1).last() == s[i as int]);
        }
        match segment_to_words(&array[i]) {
            Some(w) => {
                out.append(w.as_str());
            },
            None => {
                proof {
                    assert(segment_words(array@[i as int]@) is Some);
                }
            },
        }
        i = i + 1;
    }
    proof {
        assert(s.take(s.len() as int) =~= s);
    }
    out
}

/// The segment `Message::text` appends holds `s` as its text.
proof fn lemma_text_segment(s: Seq<char>)
    ensures
        text_value(segment_with("text"@, "text"@, s)) == Some(SpecJson::Str(s)),
{
    reveal_strlit("data");
    reveal_strlit("type");
    reveal_strlit("text");
    assert("data"@[0] != "type"@[0]);
    assert("text"@.len() == 4);
    reveal_with_fuel(crate::json::entry_get, 3);
}

/// A message without a `text` segment has no first text, and appending a
/// text segment with `Message::text` makes that text its first.
pub proof fn law_first_text_appended(m: Seq<SpecJson>, s: Seq<char>)
    requires
        forall|i: int| 0 <= i < m.len() ==> !is_kind(#[trigger] m[i], "text"@),
    ensures
        first_text(m) is None,
        first_text(m.push(segment_with("text"@, "text"@, s))) == Some(SpecJson::Str(s)),
    decreases m.len(),
{
    let seg = segment_with("text"@, "text"@, s);
    if m.len() == 0 {
        lemma_text_segment(s);
        assert(m.push(seg).drop_first() =~= Seq::<SpecJson>::empty());
    } else {
        assert forall|i: int| 0 <= i < m.drop_first().len() implies !is_kind(
            #[trigger] m.drop_first()[i],
            "text"@,
        ) by {
            assert(m.drop_first()[i] == m[i + 1]);
        }
        law_first_text_appended(m.drop_first(), s);
        assert(!is_kind(m[0], "text"@));
        assert(m.push(seg)[0] == m[0]);
        assert(m.push(seg).drop_first() =~= m.drop_first().push(seg));
    }
}

/// `v` is a segment the builders of [`Message`] make.
pub open spec fn built_segment(v: SpecJson) -> bool {
    v == rps_segment() || exists|kind: Seq<char>, key: Seq<char>, value: Seq<char>|
        v == segment_with(kind, key, value)
}

/// The segments the builders make are `canonical` documents nested two
/// deep.
pub proof fn lemma_built_segment_canonical(v: SpecJson)
    requires
        built_segment(v),
    ensures
        normal_form(v),
        nests_within(v, 126),
{
    reveal_strlit("data");
    reveal_strlit("type");
    reveal_with_fuel(normal_form, 3);
    reveal_with_fuel(nests_within, 3);
    assert(text_lt("data"@, "type"@));
    if v != rps_segment() {
        let (kind, key, value) = choose|kind: Seq<char>, key: Seq<char>, value: Seq<char>|
            v == segment_with(kind, key, value);
        let inner = SpecJson::Object(seq![(key, SpecJson::Str(value))]);
        assert(normal_form(inner));
        assert(nests_within(inner, 125));
    }
}

/// A message made by the builders is `canonical`, so that, by
/// `Message::to_string`, serde_json reads its text back as the same
/// array, and `Message::from_json` of that array is the same message.
pub proof fn law_built_message_round_trip(m: Seq<SpecJson>)
    requires
        forall|i: int| 0 <= i < m.len() ==> built_segment(#[trigger] m[i]),
    ensures
        canonical(SpecJson::Array(m)),
{
    assert forall|i: int| 0 <= i < m.len() implies normal_form(#[trigger] m[i]) && nests_within(
        m[i],
        126,
    ) by {
        lemma_built_segment_canonical(m[i]);
    }
}

} // verus!
