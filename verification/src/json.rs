//! A JSON document as plain data, and the lookups that webhook handling makes
//! in one.

use vstd::prelude::*;
use crate::text::str_eq;

verus! {

/// A JSON value. A number is held as the text that renders it; an object is
/// held as its members in order.
#[derive(Debug, PartialEq, Eq)]
pub enum Json {
    Null,
    Bool(bool),
    Number(String),
    Text(String),
    Array(Vec<Json>),
    Object(Vec<(String, Json)>),
}

/// A JSON value as mathematics.
pub enum JsonView {
    Null,
    Bool(bool),
    Number(Seq<char>),
    Text(Seq<char>),
    Array(Seq<JsonView>),
    Object(Seq<(Seq<char>, JsonView)>),
}

impl View for Json {
    type V = JsonView;

    open spec fn view(&self) -> JsonView
        decreases self,
    {
        match self {
            Json::Null => JsonView::Null,
            Json::Bool(b) => JsonView::Bool(*b),
            Json::Number(n) => JsonView::Number(n@),
            Json::Text(t) => JsonView::Text(t@),
            Json::Array(items) => JsonView::Array(
                Seq::new(
                    items@.len(),
                    |i: int|
                        if 0 <= i < items@.len() {
                            items@[i]@
                        } else {
                            JsonView::Null
                        },
                ),
            ),
            Json::Object(members) => JsonView::Object(
                Seq::new(
                    members@.len(),
                    |i: int|
                        (
                            members@[i].0@,
                            if 0 <= i < members@.len() {
                                members@[i].1@
                            } else {
                                JsonView::Null
                            },
                        ),
                ),
            ),
        }
    }
}

impl Clone for Json {
    #[verifier::loop_isolation(false)]
    fn clone(&self) -> (out: Self)
        ensures
            out@ == self@,
        decreases self,
    {
        match self {
            Json::Null => Json::Null,
            Json::Bool(b) => Json::Bool(*b),
            Json::Number(n) => Json::Number(n.clone()),
            Json::Text(t) => Json::Text(t.clone()),
            Json::Array(items) => {
                let mut out: Vec<Json> = Vec::new();
                let mut i: usize = 0;
                while i < items.len()
                    invariant
                        i <= items.len(),
                        out@.len() == i,
                        forall|k: int| 0 <= k < i ==> out@[k]@ == items@[k]@,
                    decreases items.len() - i,
                {
                    let item = items[i].clone();
                    out.push(item);
                    i += 1;
                }
                let copy = Json::Array(out);
                assert(copy@->Array_0 =~= self@->Array_0);
                copy
            },
            Json::Object(members) => {
                let mut out: Vec<(String, Json)> = Vec::new();
                let mut i: usize = 0;
                while i < members.len()
                    invariant
                        i <= members.len(),
                        out@.len() == i,
                        forall|k: int|
                            0 <= k < i ==> out@[k].0@ == members@[k].0@ && out@[k].1@
                                == members@[k].1@,
                    decreases members.len() - i,
                {
                    let item = members[i].1.clone();
                    out.push((members[i].0.clone(), item));
                    i += 1;
                }
                let copy = Json::Object(out);
                assert(copy@->Object_0 =~= self@->Object_0);
                copy
            },
        }
    }
}

/// The position of the first member named `key` at or after `from`.
pub open spec fn member_index(members: Seq<(Seq<char>, JsonView)>, key: Seq<char>, from: int) -> Option<int>
    decreases members.len() - from,
{
    if from < 0 || from >= members.len() {
        None
    } else if members[from].0 == key {
        Some(from)
    } else {
        member_index(members, key, from + 1)
    }
}

impl JsonView {
    /// The first member named `key` of an object; `None` for any other value
    /// and for an object without such a member.
    pub open spec fn member(self, key: Seq<char>) -> Option<JsonView> {
        match self {
            JsonView::Object(members) => match member_index(members, key, 0) {
                Some(i) => Some(members[i].1),
                None => None,
            },
            _ => None,
        }
    }
}

/// The view of an object holds the views of its members, in order.
pub proof fn lemma_object_view(members: Vec<(String, Json)>)
    ensures
        Json::Object(members)@ is Object,
        Json::Object(members)@->Object_0.len() == members@.len(),
        forall|i: int|
            0 <= i < members@.len() ==> (#[trigger] Json::Object(members)@->Object_0[i]) == (
                members@[i].0@,
                members@[i].1@,
            ),
{
}

/// The view of an array holds the views of its items, in order.
pub proof fn lemma_array_view(items: Vec<Json>)
    ensures
        Json::Array(items)@ is Array,
        Json::Array(items)@->Array_0.len() == items@.len(),
        forall|i: int|
            0 <= i < items@.len() ==> (#[trigger] Json::Array(items)@->Array_0[i]) == items@[i]@,
{
}

/// The view of an optional reference to a value.
pub open spec fn opt_json(value: Option<&Json>) -> Option<JsonView> {
    match value {
        Some(v) => Some(v@),
        None => None,
    }
}

impl Json {
    /// The first member named `key` of an object.
    #[verifier::loop_isolation(false)]
    pub fn get(&self, key: &str) -> (found: Option<&Json>)
        ensures
            opt_json(found) == self@.member(key@),
    {
        match self {
            Json::Object(members) => {
                let ghost pairs = self@->Object_0;
                proof {
                    lemma_object_view(*members);
                }
                let mut i: usize = 0;
                while i < members.len()
                    invariant
                        i <= members.len(),
                        member_index(pairs, key@, 0) == member_index(pairs, key@, i as int),
                    decreases members.len() - i,
                {
                    if str_eq(members[i].0.as_str(), key) {
                        return Some(&members[i].1);
                    }
                    i += 1;
                }
                None
            },
            _ => None,
        }
    }
}

/// What `serde_json::from_slice` reads from a text as a `serde_json::Value`;
/// `None` where it reports an error.
pub uninterp spec fn json_decoded(body: Seq<u8>) -> Option<JsonView>;

/// What `serde_urlencoded::from_bytes` reads from a form-encoded text as a
/// sequence of pairs of name and value, in the order of the text, or the
/// message of the error that it reports.
pub uninterp spec fn form_decoded(body: Seq<u8>) -> Result<Seq<(Seq<char>, Seq<char>)>, Seq<char>>;

/// `serde_json::Value`, the JSON value of the crate `serde_json`; nothing is
/// known of what one holds.
#[verifier::external_type_specification]
#[verifier::external_body]
pub struct ExJsonValue(serde_json::Value);

/// Turns a `serde_json::Value` into a `Json`, variant by variant; a number
/// becomes the text that `serde_json::Number` displays. Nothing is claimed of
/// the result here.
#[verifier::external_body]
fn json_from_value(value: &serde_json::Value) -> (out: Json) {
    match value {
        serde_json::Value::Null => Json::Null,
        serde_json::Value::Bool(b) => Json::Bool(*b),
        serde_json::Value::Number(n) => Json::Number(n.to_string()),
        serde_json::Value::String(s) => Json::Text(s.clone()),
        serde_json::Value::Array(items) => Json::Array(items.iter().map(json_from_value).collect()),
        serde_json::Value::Object(members) => Json::Object(
            members.iter().map(|(k, v)| (k.clone(), json_from_value(v))).collect(),
        ),
    }
}

/// Calls `serde_json::from_slice` for a `serde_json::Value`. The result
/// depends on the bytes alone; it is named, not described.
#[verifier::external_body]
pub(crate) fn decode_json(body: &[u8]) -> (out: Option<Json>)
    ensures
        opt_json_owned(out) == json_decoded(body@),
{
    serde_json::from_slice::<serde_json::Value>(body).ok().map(|v| json_from_value(&v))
}

/// Calls `serde_urlencoded::from_bytes` for a sequence of pairs. The result
/// depends on the bytes alone; it is named, not described.
#[verifier::external_body]
pub(crate) fn decode_form(body: &[u8]) -> (out: Result<Vec<(String, String)>, String>)
    ensures
        match out {
            Ok(pairs) => form_decoded(body@) == Ok::<Seq<(Seq<char>, Seq<char>)>, Seq<char>>(
                pair_views(pairs@),
            ),
            Err(message) => form_decoded(body@) == Err::<Seq<(Seq<char>, Seq<char>)>, Seq<char>>(
                message@,
            ),
        },
{
    serde_urlencoded::from_bytes::<Vec<(String, String)>>(body).map_err(|e| e.to_string())
}

/// The view of an optional value.
pub open spec fn opt_json_owned(value: Option<Json>) -> Option<JsonView> {
    match value {
        Some(v) => Some(v@),
        None => None,
    }
}

/// The views of pairs of texts, in order.
pub open spec fn pair_views(pairs: Seq<(String, String)>) -> Seq<(Seq<char>, Seq<char>)> {
    Seq::new(pairs.len(), |i: int| (pairs[i].0@, pairs[i].1@))
}

/// The object that stands for the pairs of a form: one text member for each
/// pair, the last pair first, so that a lookup finds for every name the value
/// of the last pair with that name.
pub open spec fn form_object(pairs: Seq<(Seq<char>, Seq<char>)>) -> JsonView {
    JsonView::Object(
        Seq::new(
            pairs.len(),
            |i: int| (pairs[pairs.len() - 1 - i].0, JsonView::Text(pairs[pairs.len() - 1 - i].1)),
        ),
    )
}

/// The value of the last pair named `key` among the first `upto` pairs.
pub open spec fn last_value(pairs: Seq<(Seq<char>, Seq<char>)>, key: Seq<char>, upto: int) -> Option<
    Seq<char>,
>
    decreases upto,
{
    if upto <= 0 || upto > pairs.len() {
        None
    } else if pairs[upto - 1].0 == key {
        Some(pairs[upto - 1].1)
    } else {
        last_value(pairs, key, upto - 1)
    }
}

/// The value of the last pair named `key`.
pub fn last_pair_value(pairs: &Vec<(String, String)>, key: &str) -> (found: Option<String>)
    ensures
        crate::models::opt_text(found) == last_value(pair_views(pairs@), key@, pairs@.len() as int),
{
    let mut i: usize = pairs.len();
    while i > 0
        invariant
            i <= pairs.len(),
            last_value(pair_views(pairs@), key@, pairs@.len() as int) == last_value(
                pair_views(pairs@),
                key@,
                i as int,
            ),
        decreases i,
    {
        if str_eq(pairs[i - 1].0.as_str(), key) {
            return Some(pairs[i - 1].1.clone());
        }
        i -= 1;
    }
    None
}

impl JsonView {
    /// The text of a scalar: a text itself, the rendering of a number, `true`
    /// or `false` for a boolean. Nothing for `null`, an array or an object.
    pub open spec fn scalar_text(self) -> Option<Seq<char>> {
        match self {
            JsonView::Text(t) => Some(t),
            JsonView::Number(n) => Some(n),
            JsonView::Bool(b) => Some(
                if b {
                    "true"@
                } else {
                    "false"@
                },
            ),
            _ => None,
        }
    }
}

impl Json {
    /// The text of a scalar value.
    pub fn to_text(&self) -> (text: Option<String>)
        ensures
            crate::models::opt_text(text) == self@.scalar_text(),
    {
        match self {
            Json::Text(t) => Some(t.clone()),
            Json::Number(n) => Some(n.clone()),
            Json::Bool(b) => Some(
                if *b {
                    "true".to_string()
                } else {
                    "false".to_string()
                },
            ),
            _ => None,
        }
    }

    /// The object that stands for the pairs of a form.
    pub fn from_pairs(pairs: &Vec<(String, String)>) -> (object: Json)
        ensures
            object@ == form_object(pair_views(pairs@)),
    {
        let mut members: Vec<(String, Json)> = Vec::new();
        let mut i: usize = pairs.len();
        while i > 0
            invariant
                i <= pairs.len(),
                members@.len() == pairs.len() - i,
                forall|k: int|
                    0 <= k < members@.len() ==> (#[trigger] members@[k]).0@ == pairs@[pairs.len()
                        - 1 - k].0@ && members@[k].1@ == JsonView::Text(
                        pairs@[pairs.len() - 1 - k].1@,
                    ),
            decreases i,
        {
            members.push((pairs[i - 1].0.clone(), Json::Text(pairs[i - 1].1.clone())));
            i -= 1;
        }
        let object = Json::Object(members);
        proof {
            lemma_object_view(members);
            assert(object@->Object_0 =~= form_object(pair_views(pairs@))->Object_0);
        }
        object
    }
}

} // verus!
