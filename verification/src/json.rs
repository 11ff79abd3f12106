//! JSON documents as plain values, and the lists and maps that the
//! configuration directory's JSON files provide.
use vstd::prelude::*;
use crate::model::{lemma_present_step, present};

verus! {

/// A JSON value. Numbers are kept as their text; object members are held
/// in the order the parser gives them (serde_json gives them sorted by
/// name, a repeated name keeping its last value).
#[derive(Debug)]
pub enum JsonValue {
    Null,
    Bool(bool),
    Number(String),
    String(String),
    Array(Vec<JsonValue>),
    Object(Vec<JsonMember>),
}

/// A member of a JSON object.
#[derive(Debug)]
pub struct JsonMember {
    pub name: String,
    pub value: JsonValue,
}

/// What a JSON value holds, as mathematical values: texts as `Seq<char>`,
/// arrays as sequences, objects as sequences of (name, value) pairs.
pub enum JsonView {
    Null,
    Bool(bool),
    Number(Seq<char>),
    String(Seq<char>),
    Array(Seq<JsonView>),
    Object(Seq<(Seq<char>, JsonView)>),
}

/// The view of a JSON value.
pub open spec fn json_view(v: JsonValue) -> JsonView
    decreases v,
{
    match v {
        JsonValue::Null => JsonView::Null,
        JsonValue::Bool(b) => JsonView::Bool(b),
        JsonValue::Number(n) => JsonView::Number(n@),
        JsonValue::String(s) => JsonView::String(s@),
        JsonValue::Array(items) => JsonView::Array(
            Seq::new(
                items@.len(),
                |i: int|
                    if 0 <= i < items@.len() {
                        json_view(items@[i])
                    } else {
                        JsonView::Null
                    },
            ),
        ),
        JsonValue::Object(ms) => JsonView::Object(
            Seq::new(
                ms@.len(),
                |i: int|
                    if 0 <= i < ms@.len() {
                        (ms@[i].name@, json_view(ms@[i].value))
                    } else {
                        (Seq::empty(), JsonView::Null)
                    },
            ),
        ),
    }
}

impl DeepView for JsonValue {
    type V = JsonView;

    open spec fn deep_view(&self) -> JsonView {
        json_view(*self)
    }
}


/// The value of the first member of `members` named `key`.
pub open spec fn first_member(members: Seq<(Seq<char>, JsonView)>, key: Seq<char>) -> Option<
    JsonView,
>
    decreases members.len(),
{
    if members.len() == 0 {
        None
    } else if members[0].0 == key {
        Some(members[0].1)
    } else {
        first_member(members.drop_first(), key)
    }
}

/// The member `key` of `v` when `v` is an object that has one.
pub open spec fn member(v: JsonView, key: Seq<char>) -> Option<JsonView> {
    match v {
        JsonView::Object(ms) => first_member(ms, key),
        _ => None,
    }
}

/// The text of `v` when `v` is a string.
pub open spec fn string_of(v: JsonView) -> Option<Seq<char>> {
    match v {
        JsonView::String(s) => Some(s),
        _ => None,
    }
}

/// The strings of the array under `key` in the document `doc`; empty when
/// there is no document, no such member, or the member is not an array.
/// Elements that are not strings are skipped.
pub open spec fn listed_strings(doc: Option<JsonView>, key: Seq<char>) -> Seq<Seq<char>> {
    match doc {
        Some(d) => match member(d, key) {
            Some(JsonView::Array(items)) => present(items.map_values(|x: JsonView| string_of(x))),
            _ => Seq::empty(),
        },
        None => Seq::empty(),
    }
}

/// The member of an object as a (name, text) pair when its value is a string.
pub open spec fn string_member(m: (Seq<char>, JsonView)) -> Option<(Seq<char>, Seq<char>)> {
    match string_of(m.1) {
        Some(s) => Some((m.0, s)),
        None => None,
    }
}

/// The members with a string value of the object under `key` in the
/// document `doc`; empty when there is no document, no such member, or the
/// member is not an object.
pub open spec fn listed_members(doc: Option<JsonView>, key: Seq<char>) -> Seq<
    (Seq<char>, Seq<char>),
> {
    match doc {
        Some(d) => match member(d, key) {
            Some(JsonView::Object(ms)) => present(
                ms.map_values(|m: (Seq<char>, JsonView)| string_member(m)),
            ),
            _ => Seq::empty(),
        },
        None => Seq::empty(),
    }
}

/// The document that serde_json reads from `text`, or `None` where it
/// refuses the text.
pub uninterp spec fn serde_json_document(text: Seq<char>) -> Option<JsonView>;

/// The document that the text of a JSON file holds, `None` when there was
/// no text to read.
pub open spec fn document_of(text: Option<Seq<char>>) -> Option<JsonView> {
    match text {
        Some(t) => serde_json_document(t),
        None => None,
    }
}

#[verifier::external_type_specification]
#[verifier::external_body]
pub struct ExJsonDocument(serde_json::Value);

/// Converts a value that serde_json parsed into a `JsonValue`, variant for
/// variant; numbers become their text. It is called only inside
/// `parse_json_document`, whose contract covers the parse and this
/// conversion together; nothing is stated of it on its own.
#[verifier::external_body]
fn json_value_from(v: serde_json::Value) -> JsonValue {
    match v {
        serde_json::Value::Null => JsonValue::Null,
        serde_json::Value::Bool(b) => JsonValue::Bool(b),
        serde_json::Value::Number(n) => JsonValue::Number(n.to_string()),
        serde_json::Value::String(s) => JsonValue::String(s),
        serde_json::Value::Array(a) => JsonValue::Array(a.into_iter().map(json_value_from).collect()),
        serde_json::Value::Object(m) => JsonValue::Object(
            m.into_iter().map(|(name, x)| JsonMember { name, value: json_value_from(x) }).collect(),
        ),
    }
}

/// `serde_json::from_str::<serde_json::Value>`: parses `text` as one JSON
/// document. The contract claims only that the outcome, taken as a view, is
/// a function of the text alone (`serde_json_document`), `None` where
/// serde_json returns an error; which texts it accepts and what it reads
/// from them is serde_json's and is not stated here.
#[verifier::external_body]
pub(crate) fn parse_json_document(text: &str) -> (r: Option<JsonValue>)
    ensures
        r.deep_view() == serde_json_document(text@),
{
    serde_json::from_str::<serde_json::Value>(text).ok().map(json_value_from)
}

fn find_member<'a>(v: &'a JsonValue, key: &str) -> (r: Option<&'a JsonValue>)
    ensures
        match r {
            Some(x) => member(json_view(*v), key@) == Some(json_view(*x)),
            None => member(json_view(*v), key@) is None,
        },
{
    match v {
        JsonValue::Object(ms) => {
            let wanted = String::from_str(key);
            let ghost vm = match json_view(*v) {
                JsonView::Object(m) => m,
                _ => Seq::empty(),
            };
            let n = ms.len();
            assert(vm.skip(0) =~= vm);
            let mut i: usize = 0;
            while i < n
                invariant
                    n == ms@.len(),
                    n == vm.len(),
                    forall|j: int|
                        0 <= j < n ==> #[trigger] vm[j] == (ms@[j].name@, json_view(ms@[j].value)),
                    wanted@ == key@,
                    json_view(*v) == JsonView::Object(vm),
                    i <= n,
                    first_member(vm, key@) == first_member(vm.skip(i as int), key@),
                decreases n - i,
            {
                assert(vm.skip(i as int).drop_first() =~= vm.skip(i + 1));
                assert(vm.skip(i as int)[0] == vm[i as int]);
                if ms[i].name == wanted {
                    assert(vm.skip(i as int).len() > 0);
                    assert(first_member(vm.skip(i as int), key@) == Some(
                        json_view(ms@[i as int].value),
                    ));
                    return Some(&ms[i].value);
                }
                i = i + 1;
            }
            None
        },
        _ => None,
    }
}

/// The strings of the array under `key` in the parsed document `doc`
/// (`None` when there is no document).
pub fn list_from_document(doc: Option<&JsonValue>, key: &str) -> (r: Vec<String>)
    ensures
        r.deep_view() == listed_strings(
            match doc {
                Some(d) => Some(json_view(*d)),
                None => None,
            },
            key@,
        ),
{
    let d = match doc {
        Some(d) => d,
        None => return Vec::new(),
    };
    let items = match find_member(d, key) {
        Some(JsonValue::Array(items)) => items,
        _ => return Vec::new(),
    };
    let ghost vi = match json_view(JsonValue::Array(*items)) {
        JsonView::Array(a) => a,
        _ => Seq::empty(),
    };
    let ghost m = vi.map_values(|x: JsonView| string_of(x));
    let mut r: Vec<String> = Vec::new();
    let n = items.len();
    let mut i: usize = 0;
    while i < n
        invariant
            n == items@.len(),
            n == vi.len(),
            forall|j: int| 0 <= j < n ==> #[trigger] vi[j] == json_view(items@[j]),
            m == vi.map_values(|x: JsonView| string_of(x)),
            i <= n,
            r.deep_view() =~= present(m.take(i as int)),
        decreases n - i,
    {
        proof {
            lemma_present_step(m, i as int);
            assert(m[i as int] == string_of(json_view(items@[i as int])));
        }
        match &items[i] {
            JsonValue::String(s) => {
                r.push(s.clone());
            },
            _ => {},
        }
        i = i + 1;
    }
    assert(m.take(n as int) =~= m);
    r
}

/// The members with a string value of the object under `key` in the parsed
/// document `doc` (`None` when there is no document).
pub fn map_from_document(doc: Option<&JsonValue>, key: &str) -> (r: Vec<(String, String)>)
    ensures
        r.deep_view() == listed_members(
            match doc {
                Some(d) => Some(json_view(*d)),
                None => None,
            },
            key@,
        ),
{
    let d = match doc {
        Some(d) => d,
        None => return Vec::new(),
    };
    let ms = match find_member(d, key) {
        Some(JsonValue::Object(ms)) => ms,
        _ => return Vec::new(),
    };
    let ghost vm = match json_view(JsonValue::Object(*ms)) {
        JsonView::Object(a) => a,
        _ => Seq::empty(),
    };
    let ghost m = vm.map_values(|x: (Seq<char>, JsonView)| string_member(x));
    let mut r: Vec<(String, String)> = Vec::new();
    let n = ms.len();
    let mut i: usize = 0;
    while i < n
        invariant
            n == ms@.len(),
            n == vm.len(),
            forall|j: int|
                0 <= j < n ==> #[trigger] vm[j] == (ms@[j].name@, json_view(ms@[j].value)),
            m == vm.map_values(|x: (Seq<char>, JsonView)| string_member(x)),
            i <= n,
            r.deep_view() =~= present(m.take(i as int)),
        decreases n - i,
    {
        proof {
            lemma_present_step(m, i as int);
            assert(m[i as int] == string_member(vm[i as int]));
        }
        let mb = &ms[i];
        match &mb.value {
            JsonValue::String(s) => {
                r.push((mb.name.clone(), s.clone()));
            },
            _ => {},
        }
        i = i + 1;
    }
    assert(m.take(n as int) =~= m);
    r
}

/// The strings of the array under `key` in the JSON text `text` (`None`
/// when the file could not be read); empty when the text is not JSON, has
/// no such member, or the member is not an array.
pub fn load_list_from_json(text: Option<&str>, key: &str) -> (r: Vec<String>)
    ensures
        r.deep_view() == listed_strings(
            document_of(
                match text {
                    Some(t) => Some(t@),
                    None => None,
                },
            ),
            key@,
        ),
{
    match text {
        Some(t) => {
            let doc = parse_json_document(t);
            match &doc {
                Some(d) => list_from_document(Some(d), key),
                None => Vec::new(),
            }
        },
        None => Vec::new(),
    }
}

/// The members with a string value of the object under `key` in the JSON
/// text `text` (`None` when the file could not be read); empty when the
/// text is not JSON, has no such member, or the member is not an object.
pub fn load_map_from_json(text: Option<&str>, key: &str) -> (r: Vec<(String, String)>)
    ensures
        r.deep_view() == listed_members(
            document_of(
                match text {
                    Some(t) => Some(t@),
                    None => None,
                },
            ),
            key@,
        ),
{
    match text {
        Some(t) => {
            let doc = parse_json_document(t);
            match &doc {
                Some(d) => map_from_document(Some(d), key),
                None => Vec::new(),
            }
        },
        None => Vec::new(),
    }
}

} // verus!
