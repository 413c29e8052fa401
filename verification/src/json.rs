//! The configuration document, a `serde_json::Value`, and the few operations the
//! settings logic performs on it: reading a setting by key, writing one, parsing
//! and printing the document.
use vstd::prelude::*;
use serde_json::Value;

verus! {

#[verifier::external_type_specification]
#[verifier::external_body]
pub struct ExJsonValue(serde_json::Value);

/// A JSON document as serde_json holds it: null, a boolean, a non-negative
/// integer within `u64`, a negative integer within `i64`, any other finite number
/// (by the bits of its `f64`), a string, an array, or an object.
pub enum JsonView {
    Null,
    Bool(bool),
    Unsigned(u64),
    Negative(i64),
    Float(u64),
    Str(Seq<char>),
    Array(Seq<JsonView>),
    Object(Map<Seq<char>, JsonView>),
}

/// What a key of the configuration document holds, as far as the settings logic
/// reads it: a string, a non-negative integer that fits in `u64`, a boolean, or
/// anything else (null, a negative or fractional number, an array, an object).
pub enum FieldView {
    Text(Seq<char>),
    Unsigned(u64),
    Flag(bool),
    Other,
}

/// The document a `Value` holds.
pub uninterp spec fn json_view(v: Value) -> JsonView;

/// What parsing `text` as JSON yields: `None` when serde_json refuses it, else
/// the document.
pub uninterp spec fn json_read(text: Seq<char>) -> Option<JsonView>;

/// The text `serde_json::to_string_pretty` prints for a document.
pub uninterp spec fn json_text(d: JsonView) -> Seq<char>;

/// Whether the document can be written to by key: it is an object, or null
/// (which becomes an empty object on the first write).
pub open spec fn keyed(d: JsonView) -> bool {
    d is Object || d is Null
}

/// The keys of the document and what each holds: those of an object, none for
/// any other document.
pub open spec fn obj_map(d: JsonView) -> Map<Seq<char>, JsonView> {
    match d {
        JsonView::Object(m) => m,
        _ => Map::empty(),
    }
}

/// How the settings logic reads a value.
pub open spec fn classify(x: JsonView) -> FieldView {
    match x {
        JsonView::Str(s) => FieldView::Text(s),
        JsonView::Unsigned(n) => FieldView::Unsigned(n),
        JsonView::Bool(b) => FieldView::Flag(b),
        _ => FieldView::Other,
    }
}

/// The keys of the document, each with what the settings logic reads there.
pub open spec fn doc_fields(d: JsonView) -> Map<Seq<char>, FieldView> {
    obj_map(d).map_values(|x: JsonView| classify(x))
}

/// The fields of the document a `Value` holds.
pub open spec fn json_fields(v: Value) -> Map<Seq<char>, FieldView> {
    doc_fields(json_view(v))
}

/// Whether the document a `Value` holds can be written to by key.
pub open spec fn json_keyed(v: Value) -> bool {
    keyed(json_view(v))
}

/// The document after `key` is set to `x` in a document that can be written to
/// by key.
pub open spec fn set_key(d: JsonView, key: Seq<char>, x: JsonView) -> JsonView {
    JsonView::Object(obj_map(d).insert(key, x))
}

/// The fields of an empty object.
pub open spec fn no_fields() -> Map<Seq<char>, FieldView> {
    Map::empty()
}

/// What the document holds at `key`.
pub open spec fn field_at(fields: Map<Seq<char>, FieldView>, key: Seq<char>) -> FieldView {
    if fields.dom().contains(key) {
        fields[key]
    } else {
        FieldView::Other
    }
}

/// `config[key].as_str()`.
pub open spec fn text_at(fields: Map<Seq<char>, FieldView>, key: Seq<char>) -> Option<Seq<char>> {
    match field_at(fields, key) {
        FieldView::Text(t) => Some(t),
        _ => None,
    }
}

/// `config[key].as_u64()`.
pub open spec fn unsigned_at(fields: Map<Seq<char>, FieldView>, key: Seq<char>) -> Option<u64> {
    match field_at(fields, key) {
        FieldView::Unsigned(n) => Some(n),
        _ => None,
    }
}

/// `config[key].as_bool()`.
pub open spec fn flag_at(fields: Map<Seq<char>, FieldView>, key: Seq<char>) -> Option<bool> {
    match field_at(fields, key) {
        FieldView::Flag(b) => Some(b),
        _ => None,
    }
}

/// The view of an optional string.
pub open spec fn opt_view(o: Option<String>) -> Option<Seq<char>> {
    match o {
        Some(s) => Some(s@),
        None => None,
    }
}

/// `config[key].as_str()` (serde_json's `Index` for `&str` then `Value::as_str`):
/// the string the document holds at `key`, or `None` when it holds no string
/// there. The result is copied into a `String`.
#[verifier::external_body]
pub(crate) fn json_get_text(config: &Value, key: &str) -> (r: Option<String>)
    ensures
        opt_view(r) == text_at(json_fields(*config), key@),
{
    config[key].as_str().map(|s| s.to_owned())
}

/// `config[key].as_u64()`: the integer the document holds at `key` when it is a
/// non-negative integer within `u64`, else `None`.
#[verifier::external_body]
pub(crate) fn json_get_unsigned(config: &Value, key: &str) -> (r: Option<u64>)
    ensures
        r == unsigned_at(json_fields(*config), key@),
{
    config[key].as_u64()
}

/// `config[key].as_bool()`: the boolean the document holds at `key`, else `None`.
#[verifier::external_body]
pub(crate) fn json_get_flag(config: &Value, key: &str) -> (r: Option<bool>)
    ensures
        r == flag_at(json_fields(*config), key@),
{
    config[key].as_bool()
}

/// `config[key] = Value::from(n)` for a `u8` (serde_json's `IndexMut` for `&str`,
/// which panics unless the document is an object or null, turns null into an
/// empty object, and inserts or replaces the key, leaving every other key as it
/// was). `Value::from(u8)` is a non-negative integer.
#[verifier::external_body]
pub(crate) fn json_set_u8(config: &mut Value, key: &str, n: u8)
    requires
        json_keyed(*old(config)),
    ensures
        json_view(*final(config)) == set_key(json_view(*old(config)), key@, JsonView::Unsigned(n as u64)),
{
    config[key] = Value::from(n);
}

/// `config[key] = Value::from(n)` for a `u64`; as for `json_set_u8`.
#[verifier::external_body]
pub(crate) fn json_set_u64(config: &mut Value, key: &str, n: u64)
    requires
        json_keyed(*old(config)),
    ensures
        json_view(*final(config)) == set_key(json_view(*old(config)), key@, JsonView::Unsigned(n)),
{
    config[key] = Value::from(n);
}

/// `config[key] = Value::from(b)` for a `bool`; as for `json_set_u8`.
#[verifier::external_body]
pub(crate) fn json_set_bool(config: &mut Value, key: &str, b: bool)
    requires
        json_keyed(*old(config)),
    ensures
        json_view(*final(config)) == set_key(json_view(*old(config)), key@, JsonView::Bool(b)),
{
    config[key] = Value::from(b);
}

/// `config[key] = Value::from(s.clone())` for a `String`; as for `json_set_u8`.
#[verifier::external_body]
pub(crate) fn json_set_text(config: &mut Value, key: &str, s: &String)
    requires
        json_keyed(*old(config)),
    ensures
        json_view(*final(config)) == set_key(json_view(*old(config)), key@, JsonView::Str(s@)),
{
    config[key] = Value::from(s.clone());
}

/// Whether the document is an object or null, told apart by its `Value`
/// variant: whether it can be written to by key.
#[verifier::external_body]
pub(crate) fn json_is_keyed(v: &Value) -> (r: bool)
    ensures
        r == keyed(json_view(*v)),
{
    match v {
        Value::Object(_) => true,
        Value::Null => true,
        _ => false,
    }
}

/// `serde_json::from_str::<Value>(text).ok()`: the parsed document, or `None`
/// when serde_json refuses the text. Which of the two, and what the document
/// holds, is named by `json_read` and not stated here.
#[verifier::external_body]
pub(crate) fn json_parse(text: &str) -> (r: Option<Value>)
    ensures
        match r {
            Some(v) => json_read(text@) == Some(json_view(v)),
            None => json_read(text@) is None,
        },
{
    serde_json::from_str::<Value>(text).ok()
}

/// `Value::Object(serde_json::Map::new())`: an empty object.
#[verifier::external_body]
pub(crate) fn json_empty_object() -> (r: Value)
    ensures
        json_view(r) == JsonView::Object(Map::empty()),
{
    Value::Object(serde_json::Map::new())
}

/// `serde_json::to_string_pretty(v)`, which cannot fail for a `Value` printed into
/// memory (keys are strings; the writer is a `Vec`): the text is the one named by
/// `json_text` for the document. When serde_json parses that text back (it
/// refuses documents nested too deeply), the document it gives has the same
/// keys, each read by the settings logic as the same string, integer, boolean or
/// other value, and can be written to by key exactly when `v` can: strings,
/// non-negative integers, booleans, null and objects are printed so that the
/// parser reads them back as such, and other numbers and arrays stay other.
/// Whether floating-point values come back with the very same bits, and whether
/// every printed text is accepted back, is not stated.
#[verifier::external_body]
pub(crate) fn json_pretty(v: &Value) -> (r: Option<String>)
    ensures
        r is Some,
        r is Some ==> r->0@ == json_text(json_view(*v)),
        r is Some ==> (json_read(r->0@) matches Some(w) ==> doc_fields(w) == json_fields(*v)
            && keyed(w) == json_keyed(*v)),
{
    serde_json::to_string_pretty(v).ok()
}

/// The configuration document read from the text of the configuration file:
/// the parsed document when there is a text and serde_json accepts it, else an
/// empty object.
pub fn load_config(text: Option<String>) -> (r: Value)
    ensures
        match text {
            Some(t) => match json_read(t@) {
                Some(d) => json_view(r) == d,
                None => json_view(r) == JsonView::Object(Map::empty()),
            },
            None => json_view(r) == JsonView::Object(Map::empty()),
        },
{
    match text {
        Some(t) => match json_parse(t.as_str()) {
            Some(v) => v,
            None => json_empty_object(),
        },
        None => json_empty_object(),
    }
}

} // verus!
