//! JSON documents as plain values, and the readers that the event and
//! message formats are built from.
use vstd::prelude::*;

verus! {

/// The mathematical model of a JSON document ([`JsonValue`] viewed with `@`).
pub enum SpecJson {
    Null,
    Bool(bool),
    Int(i64),
    UInt(u64),
    Float(Seq<char>),
    Str(Seq<char>),
    Array(Seq<SpecJson>),
    Object(Seq<(Seq<char>, SpecJson)>),
}

/// A JSON document held as plain values.
///
/// Whole numbers that fit in `i64` are `Int`, larger ones `UInt`; any other
/// number keeps its decimal text in `Float`. An object keeps its entries in
/// order.
#[derive(Debug)]
pub enum JsonValue {
    Null,
    Bool(bool),
    Int(i64),
    UInt(u64),
    Float(String),
    Str(String),
    Array(Vec<JsonValue>),
    Object(Vec<(String, JsonValue)>),
}

pub open spec fn model_items(s: Seq<JsonValue>) -> Seq<SpecJson>
    decreases s,
{
    if s.len() == 0 {
        Seq::empty()
    } else {
        model_items(s.drop_last()).push(model_of(s.last()))
    }
}

pub open spec fn model_entries(s: Seq<(String, JsonValue)>) -> Seq<(Seq<char>, SpecJson)>
    decreases s,
{
    if s.len() == 0 {
        Seq::empty()
    } else {
        model_entries(s.drop_last()).push((s.last().0@, model_of(s.last().1)))
    }
}

pub open spec fn model_of(v: JsonValue) -> SpecJson
    decreases v,
{
    match v {
        JsonValue::Null => SpecJson::Null,
        JsonValue::Bool(b) => SpecJson::Bool(b),
        JsonValue::Int(i) => SpecJson::Int(i),
        JsonValue::UInt(u) => SpecJson::UInt(u),
        JsonValue::Float(t) => SpecJson::Float(t@),
        JsonValue::Str(s) => SpecJson::Str(s@),
        JsonValue::Array(a) => SpecJson::Array(model_items(a@)),
        JsonValue::Object(o) => SpecJson::Object(model_entries(o@)),
    }
}

impl View for JsonValue {
    type V = SpecJson;

    open spec fn view(&self) -> SpecJson {
        model_of(*self)
    }
}

pub proof fn lemma_model_items(s: Seq<JsonValue>)
    ensures
        model_items(s).len() == s.len(),
        forall|i: int| 0 <= i < s.len() ==> #[trigger] model_items(s)[i] == model_of(s[i]),
    decreases s.len(),
{
    if s.len() > 0 {
        lemma_model_items(s.drop_last());
    }
}

pub proof fn lemma_model_entries(s: Seq<(String, JsonValue)>)
    ensures
        model_entries(s).len() == s.len(),
        forall|i: int|
            0 <= i < s.len() ==> #[trigger] model_entries(s)[i] == (s[i].0@, model_of(s[i].1)),
    decreases s.len(),
{
    if s.len() > 0 {
        lemma_model_entries(s.drop_last());
    }
}

pub proof fn lemma_model_items_push(s: Seq<JsonValue>, x: JsonValue)
    ensures
        model_items(s.push(x)) == model_items(s).push(model_of(x)),
{
    assert(s.push(x).drop_last() =~= s);
}

pub proof fn lemma_model_entries_push(s: Seq<(String, JsonValue)>, x: (String, JsonValue))
    ensures
        model_entries(s.push(x)) == model_entries(s).push((x.0@, model_of(x.1))),
{
    assert(s.push(x).drop_last() =~= s);
}

/// The value stored under `key` in an object's entries: the first entry
/// with that key.
pub open spec fn entry_get(e: Seq<(Seq<char>, SpecJson)>, key: Seq<char>) -> Option<SpecJson>
    decreases e.len(),
{
    if e.len() == 0 {
        None
    } else if e[0].0 == key {
        Some(e[0].1)
    } else {
        entry_get(e.drop_first(), key)
    }
}

/// `v[key]` where `v` is an object; `None` for any other document.
pub open spec fn json_get(v: SpecJson, key: Seq<char>) -> Option<SpecJson> {
    match v {
        SpecJson::Object(e) => entry_get(e, key),
        _ => None,
    }
}

pub open spec fn opt_view(f: Option<&JsonValue>) -> Option<SpecJson> {
    match f {
        Some(x) => Some(x@),
        None => None,
    }
}

proof fn lemma_entry_get_skip(e: Seq<(Seq<char>, SpecJson)>, key: Seq<char>, i: int)
    requires
        0 <= i < e.len(),
    ensures
        entry_get(e.skip(i), key) == if e[i].0 == key {
            Some(e[i].1)
        } else {
            entry_get(e.skip(i + 1), key)
        },
{
    assert(e.skip(i).drop_first() =~= e.skip(i + 1));
}

/// The entry stored under `key`, as `json_get` defines it.
pub fn entries_lookup<'a>(entries: &'a Vec<(String, JsonValue)>, key: &str) -> (r: Option<&'a JsonValue>)
    ensures
        opt_view(r) == entry_get(model_entries(entries@), key@),
{
    let ghost me = model_entries(entries@);
    proof {
        lemma_model_entries(entries@);
        assert(me.skip(0) =~= me);
    }
    let k = String::from_str(key);
    let mut i: usize = 0;
    while i < entries.len()
        invariant
            0 <= i <= entries.len(),
            me == model_entries(entries@),
            me.len() == entries@.len(),
            k@ == key@,
            forall|j: int|
                0 <= j < entries@.len() ==> #[trigger] me[j] == (entries@[j].0@, model_of(entries@[j].1)),
            entry_get(me, key@) == entry_get(me.skip(i as int), key@),
        decreases entries.len() - i,
    {
        proof {
            lemma_entry_get_skip(me, key@, i as int);
        }
        if entries[i].0 == k {
            return Some(&entries[i].1);
        }
        i = i + 1;
    }
    proof {
        assert(me.skip(i as int).len() == 0);
    }
    None
}

/// `v[key]`, as `json_get` defines it.
pub fn get<'a>(v: &'a JsonValue, key: &str) -> (r: Option<&'a JsonValue>)
    ensures
        opt_view(r) == json_get(v@, key@),
{
    match v {
        JsonValue::Object(entries) => entries_lookup(entries, key),
        _ => None,
    }
}

impl JsonValue {
    /// A copy of the document.
    #[verifier::loop_isolation(false)]
    pub fn copy(&self) -> (r: JsonValue)
        ensures
            r@ == self@,
        decreases self,
    {
        match self {
            JsonValue::Null => JsonValue::Null,
            JsonValue::Bool(b) => JsonValue::Bool(*b),
            JsonValue::Int(i) => JsonValue::Int(*i),
            JsonValue::UInt(u) => JsonValue::UInt(*u),
            JsonValue::Float(t) => JsonValue::Float(t.clone()),
            JsonValue::Str(t) => JsonValue::Str(t.clone()),
            JsonValue::Array(a) => {
                let mut out: Vec<JsonValue> = Vec::new();
                let mut i: usize = 0;
                while i < a.len()
                    invariant
                        0 <= i <= a.len(),
                        out@.len() == i,
                        forall|j: int| 0 <= j < i ==> #[trigger] model_of(out@[j]) == model_of(a@[j]),
                    decreases a.len() - i,
                {
                    proof {
                        assert(decreases_to!(*self => a@[i as int]));
                    }
                    let c = a[i].copy();
                    out.push(c);
                    i = i + 1;
                }
                proof {
                    lemma_model_items(out@);
                    lemma_model_items(a@);
                    assert(model_items(out@) =~= model_items(a@));
                }
                JsonValue::Array(out)
            },
            JsonValue::Object(o) => {
                let mut out: Vec<(String, JsonValue)> = Vec::new();
                let mut i: usize = 0;
                while i < o.len()
                    invariant
                        0 <= i <= o.len(),
                        out@.len() == i,
                        forall|j: int|
                            0 <= j < i ==> #[trigger] out@[j].0@ == o@[j].0@ && model_of(out@[j].1)
                                == model_of(o@[j].1),
                    decreases o.len() - i,
                {
                    let k = o[i].0.clone();
                    proof {
                        assert(decreases_to!(*self => o@[i as int].1));
                    }
                    let c = o[i].1.copy();
                    out.push((k, c));
                    i = i + 1;
                }
                proof {
                    lemma_model_entries(out@);
                    lemma_model_entries(o@);
                    assert(model_entries(out@) =~= model_entries(o@));
                }
                JsonValue::Object(out)
            },
        }
    }
}

/// Copies of the documents, in order.
pub fn copy_items(a: &Vec<JsonValue>) -> (r: Vec<JsonValue>)
    ensures
        model_items(r@) == model_items(a@),
{
    let mut out: Vec<JsonValue> = Vec::new();
    let mut i: usize = 0;
    while i < a.len()
        invariant
            0 <= i <= a.len(),
            out@.len() == i,
            forall|j: int| 0 <= j < i ==> #[trigger] model_of(out@[j]) == model_of(a@[j]),
        decreases a.len() - i,
    {
        let c = a[i].copy();
        out.push(c);
        i = i + 1;
    }
    proof {
        lemma_model_items(out@);
        lemma_model_items(a@);
        assert(model_items(out@) =~= model_items(a@));
    }
    out
}

// ---------------------------------------------------------------------
// Fields of a record, as serde reads a struct out of a JSON document:
// from an object by key, or from an array that holds exactly one
// element per field, by position.
// ---------------------------------------------------------------------

/// `v` can hold a record of `n` fields.
pub open spec fn shaped(v: SpecJson, n: int) -> bool {
    match v {
        SpecJson::Object(_) => true,
        SpecJson::Array(a) => a.len() == n,
        _ => false,
    }
}

/// Field number `idx` (named `key`) of a record of `n` fields; `None` when
/// the field is missing.
pub open spec fn field_of(v: SpecJson, key: Seq<char>, idx: int, n: int) -> Option<SpecJson> {
    match v {
        SpecJson::Object(e) => entry_get(e, key),
        SpecJson::Array(a) => if a.len() == n && 0 <= idx < n {
            Some(a[idx])
        } else {
            None
        },
        _ => None,
    }
}

pub open spec fn as_int_in(x: SpecJson, lo: int, hi: int) -> Option<int> {
    match x {
        SpecJson::Int(i) => if lo <= i && i <= hi {
            Some(i as int)
        } else {
            None
        },
        SpecJson::UInt(u) => if lo <= u && u <= hi {
            Some(u as int)
        } else {
            None
        },
        _ => None,
    }
}

/// A required whole-number field within `lo..=hi`.
pub open spec fn req_int(f: Option<SpecJson>, lo: int, hi: int) -> Option<int> {
    match f {
        Some(x) => as_int_in(x, lo, hi),
        None => None,
    }
}

/// An optional whole-number field: missing and `null` read as `None`.
pub open spec fn opt_int(f: Option<SpecJson>, lo: int, hi: int) -> Option<Option<int>> {
    match f {
        None => Some(None),
        Some(SpecJson::Null) => Some(None),
        Some(x) => match as_int_in(x, lo, hi) {
            Some(y) => Some(Some(y)),
            None => None,
        },
    }
}

pub open spec fn req_text(f: Option<SpecJson>) -> Option<Seq<char>> {
    match f {
        Some(SpecJson::Str(s)) => Some(s),
        _ => None,
    }
}

pub open spec fn opt_text(f: Option<SpecJson>) -> Option<Option<Seq<char>>> {
    match f {
        None => Some(None),
        Some(SpecJson::Null) => Some(None),
        Some(SpecJson::Str(s)) => Some(Some(s)),
        _ => None,
    }
}

pub open spec fn req_bool(f: Option<SpecJson>) -> Option<bool> {
    match f {
        Some(SpecJson::Bool(b)) => Some(b),
        _ => None,
    }
}

/// A field that may hold any document, but must be present.
pub open spec fn req_any(f: Option<SpecJson>) -> Option<SpecJson> {
    f
}

/// A field that may hold any document; missing and `null` read as `None`.
pub open spec fn opt_any(f: Option<SpecJson>) -> Option<Option<SpecJson>> {
    match f {
        None => Some(None),
        Some(SpecJson::Null) => Some(None),
        Some(x) => Some(Some(x)),
    }
}

/// A field that must hold an array of documents.
pub open spec fn req_list(f: Option<SpecJson>) -> Option<Seq<SpecJson>> {
    match f {
        Some(SpecJson::Array(a)) => Some(a),
        _ => None,
    }
}

pub open spec fn opt_string_view(o: Option<String>) -> Option<Seq<char>> {
    match o {
        Some(s) => Some(s@),
        None => None,
    }
}

pub open spec fn opt_json_view(o: Option<JsonValue>) -> Option<SpecJson> {
    match o {
        Some(v) => Some(v@),
        None => None,
    }
}

pub open spec fn opt_int_view(o: Option<i64>) -> Option<int> {
    match o {
        Some(v) => Some(v as int),
        None => None,
    }
}

/// Whether `v` can hold a record of `n` fields.
pub fn is_shaped(v: &JsonValue, n: usize) -> (r: bool)
    ensures
        r == shaped(v@, n as int),
{
    match v {
        JsonValue::Object(_) => true,
        JsonValue::Array(a) => {
            proof {
                lemma_model_items(a@);
            }
            a.len() == n
        },
        _ => false,
    }
}

/// Field number `idx` (named `key`) of a record of `n` fields.
pub fn field<'a>(v: &'a JsonValue, key: &str, idx: usize, n: usize) -> (r: Option<&'a JsonValue>)
    ensures
        opt_view(r) == field_of(v@, key@, idx as int, n as int),
{
    match v {
        JsonValue::Object(entries) => entries_lookup(entries, key),
        JsonValue::Array(a) => {
            proof {
                lemma_model_items(a@);
            }
            if a.len() == n && idx < n {
                Some(&a[idx])
            } else {
                None
            }
        },
        _ => None,
    }
}

pub fn read_int(f: Option<&JsonValue>, lo: i64, hi: i64) -> (r: Option<i64>)
    ensures
        opt_int_view(r) == req_int(opt_view(f), lo as int, hi as int),
{
    match f {
        Some(JsonValue::Int(i)) => if lo <= *i && *i <= hi {
            Some(*i)
        } else {
            None
        },
        Some(JsonValue::UInt(u)) => if 0 <= hi && *u <= hi as u64 && (lo <= 0 || lo as u64 <= *u) {
            Some(*u as i64)
        } else {
            None
        },
        _ => None,
    }
}

pub fn read_opt_int(f: Option<&JsonValue>, lo: i64, hi: i64) -> (r: Option<Option<i64>>)
    ensures
        match r {
            Some(o) => opt_int(opt_view(f), lo as int, hi as int) == Some(opt_int_view(o)),
            None => opt_int(opt_view(f), lo as int, hi as int) is None,
        },
{
    match f {
        None => Some(None),
        Some(JsonValue::Null) => Some(None),
        Some(x) => match read_int(Some(x), lo, hi) {
            Some(y) => Some(Some(y)),
            None => None,
        },
    }
}

pub fn read_text(f: Option<&JsonValue>) -> (r: Option<String>)
    ensures
        opt_string_view(r) == req_text(opt_view(f)),
{
    match f {
        Some(JsonValue::Str(s)) => Some(s.clone()),
        _ => None,
    }
}

pub fn read_opt_text(f: Option<&JsonValue>) -> (r: Option<Option<String>>)
    ensures
        match r {
            Some(o) => opt_text(opt_view(f)) == Some(opt_string_view(o)),
            None => opt_text(opt_view(f)) is None,
        },
{
    match f {
        None => Some(None),
        Some(JsonValue::Null) => Some(None),
        Some(JsonValue::Str(s)) => Some(Some(s.clone())),
        _ => None,
    }
}

pub fn read_bool(f: Option<&JsonValue>) -> (r: Option<bool>)
    ensures
        r == req_bool(opt_view(f)),
{
    match f {
        Some(JsonValue::Bool(b)) => Some(*b),
        _ => None,
    }
}

pub fn read_any(f: Option<&JsonValue>) -> (r: Option<JsonValue>)
    ensures
        opt_json_view(r) == req_any(opt_view(f)),
{
    match f {
        Some(x) => Some(x.copy()),
        None => None,
    }
}

pub fn read_opt_any(f: Option<&JsonValue>) -> (r: Option<Option<JsonValue>>)
    ensures
        match r {
            Some(o) => opt_any(opt_view(f)) == Some(opt_json_view(o)),
            None => opt_any(opt_view(f)) is None,
        },
{
    match f {
        None => Some(None),
        Some(JsonValue::Null) => Some(None),
        Some(x) => Some(Some(x.copy())),
    }
}

pub fn read_list(f: Option<&JsonValue>) -> (r: Option<Vec<JsonValue>>)
    ensures
        match r {
            Some(a) => req_list(opt_view(f)) == Some(model_items(a@)),
            None => req_list(opt_view(f)) is None,
        },
{
    match f {
        Some(JsonValue::Array(a)) => Some(copy_items(a)),
        _ => None,
    }
}

// ---------------------------------------------------------------------
// Documents that serde_json writes and reads back unchanged.
// ---------------------------------------------------------------------

/// `a` sorts strictly before `b`, character by character.
pub open spec fn text_lt(a: Seq<char>, b: Seq<char>) -> bool
    decreases a.len(),
{
    if a.len() == 0 {
        b.len() > 0
    } else if b.len() == 0 {
        false
    } else if a[0] == b[0] {
        text_lt(a.drop_first(), b.drop_first())
    } else {
        (a[0] as int) < (b[0] as int)
    }
}

pub open spec fn keys_sorted(e: Seq<(Seq<char>, SpecJson)>) -> bool {
    forall|i: int| 0 <= i < e.len() - 1 ==> text_lt(#[trigger] e[i].0, e[i + 1].0)
}

/// No number is held as text, `UInt` only holds numbers above `i64::MAX`,
/// and every object lists its keys once each, in sorted order.
pub open spec fn normal_form(v: SpecJson) -> bool
    decreases v,
{
    match v {
        SpecJson::UInt(u) => u > i64::MAX,
        SpecJson::Float(_) => false,
        SpecJson::Array(a) => forall|i: int| 0 <= i < a.len() ==> normal_form(#[trigger] a[i]),
        SpecJson::Object(e) => keys_sorted(e) && forall|i: int|
            0 <= i < e.len() ==> normal_form(#[trigger] e[i].1),
        _ => true,
    }
}

/// Arrays and objects nest at most `d` deep.
pub open spec fn nests_within(v: SpecJson, d: nat) -> bool
    decreases v,
{
    match v {
        SpecJson::Array(a) => d > 0 && forall|i: int|
            0 <= i < a.len() ==> nests_within(#[trigger] a[i], (d - 1) as nat),
        SpecJson::Object(e) => d > 0 && forall|i: int|
            0 <= i < e.len() ==> nests_within(#[trigger] e[i].1, (d - 1) as nat),
        _ => true,
    }
}

/// A document that serde_json writes as text and reads back unchanged.
pub open spec fn canonical(v: SpecJson) -> bool {
    normal_form(v) && nests_within(v, 127)
}

// ---------------------------------------------------------------------
// JSON text, read and written by serde_json.
// ---------------------------------------------------------------------

#[verifier::external_type_specification]
#[verifier::external_body]
pub struct ExSerdeValue(serde_json::Value);

#[verifier::external_type_specification]
#[verifier::external_body]
pub struct ExSerdeNumber(serde_json::Number);

/// The document that serde_json reads from `text`, if `text` is JSON.
pub uninterp spec fn spec_parse_json(text: Seq<char>) -> Option<SpecJson>;

/// The compact JSON text that serde_json writes for a document.
pub uninterp spec fn spec_json_text(v: SpecJson) -> Seq<char>;

/// Reads JSON text with `serde_json::from_str::<serde_json::Value>`.
/// Claimed: the outcome is the named function of the text.
#[verifier::external_body]
pub fn parse_json(text: &str) -> (r: Option<JsonValue>)
    ensures
        opt_json_view(r) == spec_parse_json(text@),
{
    match serde_json::from_str::<serde_json::Value>(text) {
        Ok(v) => Some(from_serde(v)),
        Err(_) => None,
    }
}

/// Writes a document with `serde_json::Value`'s `Display` (compact JSON).
/// Claimed: the text is the named function of the document, and serde_json
/// reads the text back to the same document where the document is
/// `canonical` (objects are `BTreeMap`s, so keys come back sorted and
/// once each; whole numbers come back as written; nesting stays under
/// serde_json's limit of 128).
#[verifier::external_body]
pub fn json_to_string(v: &JsonValue) -> (r: String)
    ensures
        r@ == spec_json_text(v@),
        canonical(v@) ==> spec_parse_json(r@) == Some(v@),
{
    to_serde(v).to_string()
}

/// Moves a `serde_json::Value` into a [`JsonValue`], variant for variant.
#[verifier::external_body]
fn from_serde(v: serde_json::Value) -> JsonValue {
    match v {
        serde_json::Value::Null => JsonValue::Null,
        serde_json::Value::Bool(b) => JsonValue::Bool(b),
        serde_json::Value::Number(n) => number_from_serde(n),
        serde_json::Value::String(s) => JsonValue::Str(s),
        serde_json::Value::Array(a) => JsonValue::Array(a.into_iter().map(from_serde).collect()),
        serde_json::Value::Object(o) => JsonValue::Object(
            o.into_iter().map(|(k, x)| (k, from_serde(x))).collect(),
        ),
    }
}

/// Moves a `serde_json::Number` into a [`JsonValue`]: `i64` where it fits,
/// else `u64`, else its text.
#[verifier::external_body]
fn number_from_serde(n: serde_json::Number) -> JsonValue {
    match (n.as_i64(), n.as_u64()) {
        (Some(i), _) => JsonValue::Int(i),
        (None, Some(u)) => JsonValue::UInt(u),
        (None, None) => JsonValue::Float(n.to_string()),
    }
}

/// Reads the text of a number back into a `serde_json::Number`
/// (`FromStr`); text that is no number becomes `null`.
#[verifier::external_body]
fn number_to_serde(t: &String) -> serde_json::Value {
    match t.parse::<serde_json::Number>() {
        Ok(n) => serde_json::Value::Number(n),
        Err(_) => serde_json::Value::Null,
    }
}

/// Copies a [`JsonValue`] into a `serde_json::Value`, variant for variant.
#[verifier::external_body]
fn to_serde(v: &JsonValue) -> serde_json::Value {
    match v {
        JsonValue::Null => serde_json::Value::Null,
        JsonValue::Bool(b) => serde_json::Value::Bool(*b),
        JsonValue::Int(i) => serde_json::Value::from(*i),
        JsonValue::UInt(u) => serde_json::Value::from(*u),
        JsonValue::Float(t) => number_to_serde(t),
        JsonValue::Str(s) => serde_json::Value::String(s.clone()),
        JsonValue::Array(a) => serde_json::Value::Array(a.iter().map(to_serde).collect()),
        JsonValue::Object(o) => serde_json::Value::Object(
            o.iter().map(|(k, x)| (k.clone(), to_serde(x))).collect(),
        ),
    }
}

/// Appends an entry to an object under construction.
pub fn push_entry(e: &mut Vec<(String, JsonValue)>, key: &str, v: JsonValue)
    ensures
        model_entries(final(e)@) == model_entries(old(e)@).push((key@, v@)),
{
    let ghost before = e@;
    e.push((String::from_str(key), v));
    proof {
        lemma_model_entries_push(before, e@.last());
    }
}

/// Appends an item to an array under construction.
pub fn push_item(a: &mut Vec<JsonValue>, v: JsonValue)
    ensures
        model_items(final(a)@) == model_items(old(a)@).push(v@),
{
    let ghost before = a@;
    a.push(v);
    proof {
        lemma_model_items_push(before, a@.last());
    }
}

/// Whether `a` and `b` are the same text.
pub fn same_text(a: &String, b: &str) -> (r: bool)
    ensures
        r == (a@ == b@),
{
    *a == String::from_str(b)
}

/// The name of a unit enum variant as serde reads it from a document: the
/// text itself, or the key of an object whose single entry holds `null`.
pub open spec fn variant_name(x: SpecJson) -> Option<Seq<char>> {
    match x {
        SpecJson::Str(s) => Some(s),
        SpecJson::Object(e) => if e.len() == 1 && e[0].1 == SpecJson::Null {
            Some(e[0].0)
        } else {
            None
        },
        _ => None,
    }
}

/// The name of a unit enum variant held by `v`.
pub fn read_variant_name(v: &JsonValue) -> (r: Option<&String>)
    ensures
        match r {
            Some(n) => variant_name(v@) == Some(n@),
            None => variant_name(v@) is None,
        },
{
    match v {
        JsonValue::Str(s) => Some(s),
        JsonValue::Object(e) => {
            proof {
                lemma_model_entries(e@);
            }
            if e.len() == 1 {
                match &e[0].1 {
                    JsonValue::Null => Some(&e[0].0),
                    _ => None,
                }
            } else {
                None
            }
        },
        _ => None,
    }
}

/// An optional text as serde writes it: the text, or `null`.
pub open spec fn json_opt_text(o: Option<Seq<char>>) -> SpecJson {
    match o {
        Some(y) => SpecJson::Str(y),
        None => SpecJson::Null,
    }
}

/// An optional number as serde writes it: the number, or `null`.
pub open spec fn json_opt_i64(o: Option<i64>) -> SpecJson {
    match o {
        Some(y) => SpecJson::Int(y),
        None => SpecJson::Null,
    }
}

/// An optional number as serde writes it: the number, or `null`.
pub open spec fn json_opt_i32(o: Option<i32>) -> SpecJson {
    match o {
        Some(y) => SpecJson::Int(y as i64),
        None => SpecJson::Null,
    }
}

/// An optional document as serde writes it: the document, or `null`.
pub open spec fn json_opt_any(o: Option<SpecJson>) -> SpecJson {
    match o {
        Some(y) => y,
        None => SpecJson::Null,
    }
}

pub fn opt_text_json(o: &Option<String>) -> (r: JsonValue)
    ensures
        r@ == json_opt_text(opt_string_view(*o)),
{
    match o {
        Some(y) => JsonValue::Str(y.clone()),
        None => JsonValue::Null,
    }
}

pub fn opt_i64_json(o: Option<i64>) -> (r: JsonValue)
    ensures
        r@ == json_opt_i64(o),
{
    match o {
        Some(y) => JsonValue::Int(y),
        None => JsonValue::Null,
    }
}

pub fn opt_i32_json(o: Option<i32>) -> (r: JsonValue)
    ensures
        r@ == json_opt_i32(o),
{
    match o {
        Some(y) => JsonValue::Int(y as i64),
        None => JsonValue::Null,
    }
}

pub fn opt_any_json(o: &Option<JsonValue>) -> (r: JsonValue)
    ensures
        r@ == json_opt_any(opt_json_view(*o)),
{
    match o {
        Some(y) => y.copy(),
        None => JsonValue::Null,
    }
}

} // verus!
