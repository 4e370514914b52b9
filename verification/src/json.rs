//! A plain model of JSON documents.
//!
//! Upstream responses arrive as JSON text.  Parsing is delegated to
//! `serde_json`; the parsed tree is carried over into [`JsonValue`], a
//! type of the library's own, so that every decision taken on the
//! document's shape is verified code.

use vstd::prelude::*;

verus! {

/// A parsed JSON document.
///
/// Objects keep their fields as a key/value list, ordered by key as
/// the parser hands them over.  Numbers outside the ranges the library
/// reads (in particular non-integers) are carried as [`JsonValue::Other`];
/// every decoder rejects that variant.
#[derive(Debug, PartialEq)]
pub enum JsonValue {
    Null,
    Bool(bool),
    UInt(u64),
    Int(i64),
    Str(String),
    Array(Vec<JsonValue>),
    Object(Vec<(String, JsonValue)>),
    Other,
}

/// The mathematical shape of a [`JsonValue`], with sequences in place
/// of vectors: what two structurally equal documents agree on.
pub enum JsonView {
    Null,
    Bool(bool),
    UInt(u64),
    Int(i64),
    Str(Seq<char>),
    Arr(Seq<JsonView>),
    Obj(Seq<(Seq<char>, JsonView)>),
    Other,
}

/// The shape of a document, forgetting how its vectors are allocated.
pub open spec fn json_view(v: JsonValue) -> JsonView
    decreases v,
{
    match v {
        JsonValue::Null => JsonView::Null,
        JsonValue::Bool(b) => JsonView::Bool(b),
        JsonValue::UInt(u) => JsonView::UInt(u),
        JsonValue::Int(i) => JsonView::Int(i),
        JsonValue::Str(s) => JsonView::Str(s@),
        JsonValue::Array(items) => JsonView::Arr(json_views(items@)),
        JsonValue::Object(fields) => JsonView::Obj(json_obj_views(fields@)),
        JsonValue::Other => JsonView::Other,
    }
}

/// The shapes of the elements of an array, in order.
pub open spec fn json_views(items: Seq<JsonValue>) -> Seq<JsonView>
    decreases items,
{
    if items.len() == 0 {
        Seq::empty()
    } else {
        json_views(items.drop_last()).push(json_view(items.last()))
    }
}

/// The shapes of the fields of an object, in order.
pub open spec fn json_obj_views(fields: Seq<(String, JsonValue)>) -> Seq<(Seq<char>, JsonView)>
    decreases fields,
{
    if fields.len() == 0 {
        Seq::empty()
    } else {
        json_obj_views(fields.drop_last()).push(
            (fields.last().0@, json_view(fields.last().1)),
        )
    }
}

/// Array views are element views.
pub proof fn lemma_json_views_index(items: Seq<JsonValue>)
    ensures
        json_views(items).len() == items.len(),
        forall|i: int| 0 <= i < items.len() ==> json_views(items)[i] == json_view(items[i]),
    decreases items,
{
    if items.len() > 0 {
        lemma_json_views_index(items.drop_last());
    }
}

/// Object views are field views.
pub proof fn lemma_json_obj_views_index(fields: Seq<(String, JsonValue)>)
    ensures
        json_obj_views(fields).len() == fields.len(),
        forall|i: int|
            0 <= i < fields.len() ==> json_obj_views(fields)[i] == (
                fields[i].0@,
                json_view(fields[i].1),
            ),
    decreases fields,
{
    if fields.len() > 0 {
        lemma_json_obj_views_index(fields.drop_last());
    }
}

#[verifier::external_type_specification]
#[verifier::external_body]
pub struct ExSerdeJsonValue(serde_json::Value);

/// Relies on the variants of `serde_json::Value` and on
/// `serde_json::Number::{as_u64, as_i64}`: each variant is moved into
/// the library's own form, field by field.
#[verifier::external_body]
fn from_serde_value(v: serde_json::Value) -> JsonValue {
    match v {
        serde_json::Value::Null => JsonValue::Null,
        serde_json::Value::Bool(b) => JsonValue::Bool(b),
        serde_json::Value::Number(n) => match (n.as_u64(), n.as_i64()) {
            (Some(u), _) => JsonValue::UInt(u),
            (None, Some(i)) => JsonValue::Int(i),
            _ => JsonValue::Other,
        },
        serde_json::Value::String(s) => JsonValue::Str(s),
        serde_json::Value::Array(a) => JsonValue::Array(a.into_iter().map(from_serde_value).collect()),
        serde_json::Value::Object(o) => JsonValue::Object(o.into_iter().map(|(k, m)| (k, from_serde_value(m))).collect()),
    }
}

/// The document that a given text parses to, or `None` where the text
/// is not valid JSON.
pub uninterp spec fn json_of(text: Seq<char>) -> Option<JsonValue>;

/// Relies on `serde_json::from_str::<serde_json::Value>`: the outcome
/// is a function of the input text alone (object fields are held in an
/// ordered map, so equal texts parse to equal documents), and it fails
/// exactly on texts that are not valid JSON.
#[verifier::external_body]
pub(crate) fn parse_json(text: &str) -> (parsed: Option<JsonValue>)
    ensures
        parsed == json_of(text@),
{
    match serde_json::from_str::<serde_json::Value>(text) {
        Ok(v) => Some(from_serde_value(v)),
        Err(_) => None,
    }
}

/// Character-for-character string equality.
pub fn str_eq(a: &str, b: &str) -> (r: bool)
    ensures
        r == (a@ == b@),
{
    let a_len = a.unicode_len();
    let b_len = b.unicode_len();
    if a_len != b_len {
        return false;
    }
    let mut i: usize = 0;
    while i < a_len
        invariant
            a_len == a@.len(),
            a_len == b@.len(),
            i <= a_len,
            forall|j: int| 0 <= j < i ==> a@[j] == b@[j],
        decreases a_len - i,
    {
        if a.get_char(i) != b.get_char(i) {
            return false;
        }
        i = i + 1;
    }
    proof {
        assert(a@ =~= b@);
    }
    true
}

/// The value of the first field named `key`, if any.
pub open spec fn obj_get(fields: Seq<(String, JsonValue)>, key: Seq<char>) -> Option<JsonValue>
    decreases fields.len(),
{
    if fields.len() == 0 {
        None
    } else if fields[0].0@ == key {
        Some(fields[0].1)
    } else {
        obj_get(fields.skip(1), key)
    }
}

/// Looks a field up by name in an object's field list.
pub fn get_field<'a>(fields: &'a Vec<(String, JsonValue)>, key: &str) -> (r: Option<
    &'a JsonValue,
>)
    ensures
        match r {
            Some(v) => obj_get(fields@, key@) == Some(*v),
            None => obj_get(fields@, key@) is None,
        },
{
    let mut i: usize = 0;
    proof {
        assert(fields@.skip(0) =~= fields@);
    }
    while i < fields.len()
        invariant
            i <= fields@.len(),
            obj_get(fields@, key@) == obj_get(fields@.skip(i as int), key@),
        decreases fields@.len() - i,
    {
        proof {
            assert(fields@.skip(i as int)[0] == fields@[i as int]);
            assert(fields@.skip(i as int).skip(1) =~= fields@.skip(i + 1));
        }
        if str_eq(fields[i].0.as_str(), key) {
            return Some(&fields[i].1);
        }
        i = i + 1;
    }
    None
}

/// A required string field.
pub open spec fn spec_field_string(fields: Seq<(String, JsonValue)>, key: Seq<char>) -> Option<
    String,
> {
    match obj_get(fields, key) {
        Some(JsonValue::Str(s)) => Some(s),
        _ => None,
    }
}

pub fn field_string(fields: &Vec<(String, JsonValue)>, key: &str) -> (r: Option<String>)
    ensures
        r == spec_field_string(fields@, key@),
{
    match get_field(fields, key) {
        Some(JsonValue::Str(s)) => Some(s.clone()),
        _ => None,
    }
}

/// An optional string field: absent or `null` decodes to `None`, a
/// string to `Some`, and any other shape is a decode failure.
pub open spec fn spec_field_opt_string(fields: Seq<(String, JsonValue)>, key: Seq<char>) -> Option<
    Option<String>,
> {
    match obj_get(fields, key) {
        None => Some(None),
        Some(JsonValue::Null) => Some(None),
        Some(JsonValue::Str(s)) => Some(Some(s)),
        Some(_) => None,
    }
}

pub fn field_opt_string(fields: &Vec<(String, JsonValue)>, key: &str) -> (r: Option<
    Option<String>,
>)
    ensures
        r == spec_field_opt_string(fields@, key@),
{
    match get_field(fields, key) {
        None => Some(None),
        Some(JsonValue::Null) => Some(None),
        Some(JsonValue::Str(s)) => Some(Some(s.clone())),
        Some(_) => None,
    }
}

/// A required non-negative integer field.
pub open spec fn spec_field_u64(fields: Seq<(String, JsonValue)>, key: Seq<char>) -> Option<u64> {
    match obj_get(fields, key) {
        Some(JsonValue::UInt(u)) => Some(u),
        _ => None,
    }
}

pub fn field_u64(fields: &Vec<(String, JsonValue)>, key: &str) -> (r: Option<u64>)
    ensures
        r == spec_field_u64(fields@, key@),
{
    match get_field(fields, key) {
        Some(JsonValue::UInt(u)) => Some(*u),
        _ => None,
    }
}

/// A required non-negative integer field that must fit in `usize`.
pub open spec fn spec_field_usize(fields: Seq<(String, JsonValue)>, key: Seq<char>) -> Option<
    usize,
> {
    match obj_get(fields, key) {
        Some(JsonValue::UInt(u)) => if u <= usize::MAX {
            Some(u as usize)
        } else {
            None
        },
        _ => None,
    }
}

pub fn field_usize(fields: &Vec<(String, JsonValue)>, key: &str) -> (r: Option<usize>)
    ensures
        r == spec_field_usize(fields@, key@),
{
    match get_field(fields, key) {
        Some(JsonValue::UInt(u)) => if *u <= usize::MAX as u64 {
            Some(*u as usize)
        } else {
            None
        },
        _ => None,
    }
}

/// An optional non-negative integer field: absent or `null` decodes
/// to `None`, an integer in range to `Some`.
pub open spec fn spec_field_opt_usize(fields: Seq<(String, JsonValue)>, key: Seq<char>) -> Option<
    Option<usize>,
> {
    match obj_get(fields, key) {
        None => Some(None),
        Some(JsonValue::Null) => Some(None),
        Some(JsonValue::UInt(u)) => if u <= usize::MAX {
            Some(Some(u as usize))
        } else {
            None
        },
        Some(_) => None,
    }
}

pub fn field_opt_usize(fields: &Vec<(String, JsonValue)>, key: &str) -> (r: Option<Option<usize>>)
    ensures
        r == spec_field_opt_usize(fields@, key@),
{
    match get_field(fields, key) {
        None => Some(None),
        Some(JsonValue::Null) => Some(None),
        Some(JsonValue::UInt(u)) => if *u <= usize::MAX as u64 {
            Some(Some(*u as usize))
        } else {
            None
        },
        Some(_) => None,
    }
}

/// A required optionally-negative integer field that must fit in `isize`.
pub open spec fn spec_field_isize(fields: Seq<(String, JsonValue)>, key: Seq<char>) -> Option<
    isize,
> {
    match obj_get(fields, key) {
        Some(JsonValue::UInt(u)) => if u <= isize::MAX {
            Some(u as isize)
        } else {
            None
        },
        Some(JsonValue::Int(i)) => if isize::MIN <= i <= isize::MAX {
            Some(i as isize)
        } else {
            None
        },
        _ => None,
    }
}

pub fn field_isize(fields: &Vec<(String, JsonValue)>, key: &str) -> (r: Option<isize>)
    ensures
        r == spec_field_isize(fields@, key@),
{
    match get_field(fields, key) {
        Some(JsonValue::UInt(u)) => if *u <= isize::MAX as u64 {
            Some(*u as isize)
        } else {
            None
        },
        Some(JsonValue::Int(i)) => if isize::MIN as i64 <= *i && *i <= isize::MAX as i64 {
            Some(*i as isize)
        } else {
            None
        },
        _ => None,
    }
}

/// A required boolean field.
pub open spec fn spec_field_bool(fields: Seq<(String, JsonValue)>, key: Seq<char>) -> Option<
    bool,
> {
    match obj_get(fields, key) {
        Some(JsonValue::Bool(b)) => Some(b),
        _ => None,
    }
}

pub fn field_bool(fields: &Vec<(String, JsonValue)>, key: &str) -> (r: Option<bool>)
    ensures
        r == spec_field_bool(fields@, key@),
{
    match get_field(fields, key) {
        Some(JsonValue::Bool(b)) => Some(*b),
        _ => None,
    }
}

/// Element-wise decoding of a JSON array: every element must decode,
/// and the results keep the array's order.
pub open spec fn spec_decode_seq<T>(
    items: Seq<JsonValue>,
    f: spec_fn(JsonValue) -> Option<T>,
) -> Option<Seq<T>>
    decreases items.len(),
{
    if items.len() == 0 {
        Some(Seq::empty())
    } else {
        match spec_decode_seq(items.drop_last(), f) {
            None => None,
            Some(r) => match f(items.last()) {
                None => None,
                Some(t) => Some(r.push(t)),
            },
        }
    }
}

/// One undecodable element fails the whole array.
pub proof fn lemma_decode_seq_fail<T>(
    items: Seq<JsonValue>,
    f: spec_fn(JsonValue) -> Option<T>,
    i: int,
)
    requires
        0 <= i < items.len(),
        f(items[i]) is None,
    ensures
        spec_decode_seq(items, f) is None,
    decreases items.len(),
{
    if i < items.len() - 1 {
        lemma_decode_seq_fail(items.drop_last(), f, i);
    }
}

/// A step of a decoding loop: extending the prefix by one decoded
/// element extends the decoded prefix.
pub proof fn lemma_decode_seq_step<T>(
    items: Seq<JsonValue>,
    f: spec_fn(JsonValue) -> Option<T>,
    i: int,
)
    requires
        0 <= i < items.len(),
    ensures
        spec_decode_seq(items.take(i + 1), f) == (match spec_decode_seq(items.take(i), f) {
            None => None,
            Some(r) => match f(items[i]) {
                None => None,
                Some(t) => Some(r.push(t)),
            },
        }),
{
    assert(items.take(i + 1).drop_last() =~= items.take(i));
    assert(items.take(i + 1).last() == items[i]);
}

/// The element decoder of an array of strings, as a spec value.
pub open spec fn string_decoder() -> spec_fn(JsonValue) -> Option<String> {
    |v: JsonValue|
        match v {
            JsonValue::Str(s) => Some(s),
            _ => None,
        }
}

/// Decodes an array whose elements must all be strings.
pub fn decode_strings(items: &Vec<JsonValue>) -> (r: Option<Vec<String>>)
    ensures
        match r {
            Some(out) => spec_decode_seq(items@, string_decoder()) == Some(out@),
            None => spec_decode_seq(items@, string_decoder()) is None,
        },
{
    let mut out: Vec<String> = Vec::new();
    let mut i: usize = 0;
    proof {
        assert(items@.take(0) =~= Seq::<JsonValue>::empty());
    }
    while i < items.len()
        invariant
            i <= items@.len(),
            spec_decode_seq(items@.take(i as int), string_decoder()) == Some(out@),
        decreases items@.len() - i,
    {
        match &items[i] {
            JsonValue::Str(s) => {
                out.push(s.clone());
            },
            _ => {
                proof {
                    lemma_decode_seq_fail(items@, string_decoder(), i as int);
                }
                return None;
            },
        }
        proof {
            lemma_decode_seq_step(items@, string_decoder(), i as int);
        }
        i = i + 1;
    }
    proof {
        assert(items@.take(items@.len() as int) =~= items@);
    }
    Some(out)
}

/// A required field holding an array of strings.
pub open spec fn spec_field_strings(fields: Seq<(String, JsonValue)>, key: Seq<char>) -> Option<
    Seq<String>,
> {
    match obj_get(fields, key) {
        Some(JsonValue::Array(items)) => spec_decode_seq(items@, string_decoder()),
        _ => None,
    }
}

pub fn field_strings(fields: &Vec<(String, JsonValue)>, key: &str) -> (r: Option<Vec<String>>)
    ensures
        match r {
            Some(out) => spec_field_strings(fields@, key@) == Some(out@),
            None => spec_field_strings(fields@, key@) is None,
        },
{
    match get_field(fields, key) {
        Some(JsonValue::Array(items)) => decode_strings(items),
        _ => None,
    }
}

/// A structural copy of a JSON document.
pub fn json_clone(v: &JsonValue) -> (r: JsonValue)
    ensures
        json_view(r) == json_view(*v),
    decreases *v,
{
    match v {
        JsonValue::Null => JsonValue::Null,
        JsonValue::Bool(b) => JsonValue::Bool(*b),
        JsonValue::UInt(u) => JsonValue::UInt(*u),
        JsonValue::Int(i) => JsonValue::Int(*i),
        JsonValue::Str(s) => JsonValue::Str(s.clone()),
        JsonValue::Other => JsonValue::Other,
        JsonValue::Array(items) => {
            let mut out: Vec<JsonValue> = Vec::new();
            let mut i: usize = 0;
            while i < items.len()
                invariant
                    *v == JsonValue::Array(*items),
                    i <= items@.len(),
                    out@.len() == i,
                    forall|j: int| 0 <= j < i ==> json_view(#[trigger] out@[j]) == json_view(
                        items@[j],
                    ),
                decreases items@.len() - i,
            {
                proof {
                    assert(*items == v->Array_0);
                    assert(decreases_to!(*v => v->Array_0));
                    assert(decreases_to!(*items => items@));
                    assert(decreases_to!(items@ => items@[i as int]));
                }
                out.push(json_clone(&items[i]));
                i = i + 1;
            }
            let r = JsonValue::Array(out);
            proof {
                lemma_json_views_index(out@);
                lemma_json_views_index(items@);
                assert(json_views(out@) =~= json_views(items@));
            }
            r
        },
        JsonValue::Object(fields) => {
            let mut out: Vec<(String, JsonValue)> = Vec::new();
            let mut i: usize = 0;
            while i < fields.len()
                invariant
                    *v == JsonValue::Object(*fields),
                    i <= fields@.len(),
                    out@.len() == i,
                    forall|j: int|
                        0 <= j < i ==> (#[trigger] out@[j]).0@ == fields@[j].0@ && json_view(
                            out@[j].1,
                        ) == json_view(fields@[j].1),
                decreases fields@.len() - i,
            {
                proof {
                    assert(*fields == v->Object_0);
                    assert(decreases_to!(*v => v->Object_0));
                    assert(decreases_to!(*fields => fields@));
                    assert(decreases_to!(fields@ => fields@[i as int]));
                    assert(decreases_to!(fields@[i as int] => fields@[i as int].1));
                }
                let entry = (fields[i].0.clone(), json_clone(&fields[i].1));
                out.push(entry);
                i = i + 1;
            }
            let r = JsonValue::Object(out);
            proof {
                lemma_json_obj_views_index(out@);
                lemma_json_obj_views_index(fields@);
                assert(json_obj_views(out@) =~= json_obj_views(fields@));
            }
            r
        },
    }
}

} // verus!
