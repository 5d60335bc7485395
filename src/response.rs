use vstd::prelude::*;

use crate::error::LayoutError;
use crate::layout::{mode_of_name, LayoutMode};

verus! {

#[verifier::external_type_specification]
#[verifier::external_body]
pub struct ExJsonValue(serde_json::Value);

/// Whether `text` is one well-formed JSON document.
pub uninterp spec fn json_parses(text: Seq<char>) -> bool;

/// Whether the JSON document `text` is an object with a member named `key`.
pub uninterp spec fn json_has_member(text: Seq<char>, key: Seq<char>) -> bool;

/// The member `key` of the JSON document `text`, read as an integer that fits
/// in `u64`; `None` for any other JSON value.
pub uninterp spec fn json_u64_member(text: Seq<char>, key: Seq<char>) -> Option<u64>;

/// The member `key` of the JSON document `text`, read as a JSON string;
/// `None` for any other JSON value.
pub uninterp spec fn json_str_member(text: Seq<char>, key: Seq<char>) -> Option<Seq<char>>;

/// A decoded JSON document, with the text it was read from.
pub struct Json {
    value: serde_json::Value,
    pub text: Ghost<Seq<char>>,
}

/// A member of a decoded JSON object: the document it belongs to and its key.
pub struct JsonMember<'a> {
    value: &'a serde_json::Value,
    pub text: Ghost<Seq<char>>,
    pub key: Ghost<Seq<char>>,
}

/// The characters of an optional string.
pub open spec fn view_opt(o: Option<&str>) -> Option<Seq<char>> {
    match o {
        Some(t) => Some(t@),
        None => None,
    }
}

/// Relies on serde_json::from_str: reads `text` as one JSON document, and
/// fails exactly when it is not one.
#[verifier::external_body]
fn read_json(text: &str) -> (r: Option<Json>)
    ensures
        r is Some <==> json_parses(text@),
        r matches Some(j) ==> j.text@ == text@,
{
    match serde_json::from_str(text) {
        Ok(value) => Some(Json { value, text: Ghost(text@) }),
        Err(_) => None,
    }
}

/// Relies on serde_json::Value::get: the member of an object under `key`;
/// `None` for a missing key or a value that is not an object.
#[verifier::external_body]
fn member<'a>(j: &'a Json, key: &str) -> (r: Option<JsonMember<'a>>)
    ensures
        r is Some <==> json_has_member(j.text@, key@),
        r matches Some(m) ==> m.text@ == j.text@ && m.key@ == key@,
{
    match j.value.get(key) {
        Some(value) => Some(JsonMember { value, text: Ghost(j.text@), key: Ghost(key@) }),
        None => None,
    }
}

/// Relies on serde_json::Value::as_str: the text of a JSON string.
#[verifier::external_body]
fn as_text<'a>(m: &JsonMember<'a>) -> (r: Option<&'a str>)
    ensures
        view_opt(r) == json_str_member(m.text@, m.key@),
{
    m.value.as_str()
}

/// Relies on serde_json::Value::as_u64: a JSON integer that fits in `u64`.
#[verifier::external_body]
fn as_unsigned(m: &JsonMember) -> (r: Option<u64>)
    ensures
        r == json_u64_member(m.text@, m.key@),
{
    m.value.as_u64()
}

/// The integer member `key` of the document `text`, if it has one.
pub open spec fn u64_field(text: Seq<char>, key: Seq<char>) -> Option<u64> {
    if json_has_member(text, key) {
        json_u64_member(text, key)
    } else {
        None
    }
}

/// The string member `key` of the document `text`, if it has one.
pub open spec fn str_field(text: Seq<char>, key: Seq<char>) -> Option<Seq<char>> {
    if json_has_member(text, key) {
        json_str_member(text, key)
    } else {
        None
    }
}

/// The reply to a query of the active desktop. Only `layout` drives the
/// state; the other fields are read so that the whole schema is checked.
#[derive(Debug)]
pub struct SpaceResponse {
    pub id: u32,
    pub uuid: String,
    pub index: u32,
    pub layout: LayoutMode,
    pub label: String,
    pub display: u32,
}

/// A numeric field that is present and fits in `u32`.
pub open spec fn is_u32_field(n: Option<u64>) -> bool {
    n is Some && n.unwrap() <= u32::MAX
}

/// What the fields of a reply must hold for it to be accepted.
pub open spec fn fields_valid(
    id: Option<u64>,
    uuid: Option<Seq<char>>,
    index: Option<u64>,
    layout: Option<Seq<char>>,
    label: Option<Seq<char>>,
    display: Option<u64>,
) -> bool {
    &&& is_u32_field(id)
    &&& uuid is Some
    &&& is_u32_field(index)
    &&& layout is Some && mode_of_name(layout.unwrap()) is Some
    &&& label is Some
    &&& is_u32_field(display)
}

/// Builds a reply from the fields read out of it (`None`: missing or of the
/// wrong JSON type). Any missing field, a number out of range or an
/// unrecognized layout name is a parse failure.
pub fn space_from_fields(
    id: Option<u64>,
    uuid: Option<&str>,
    index: Option<u64>,
    layout: Option<&str>,
    label: Option<&str>,
    display: Option<u64>,
) -> (r: Result<SpaceResponse, LayoutError>)
    ensures
        r is Ok <==> fields_valid(id, view_opt(uuid), index, view_opt(layout), view_opt(label), display),
        r matches Ok(s) ==> {
            &&& s.id == id.unwrap()
            &&& s.uuid@ == uuid.unwrap()@
            &&& s.index == index.unwrap()
            &&& Some(s.layout) == mode_of_name(layout.unwrap()@)
            &&& s.label@ == label.unwrap()@
            &&& s.display == display.unwrap()
        },
        r matches Err(e) ==> e == LayoutError::Parse,
{
    let id = match id {
        Some(n) if n <= u32::MAX as u64 => n as u32,
        _ => return Err(LayoutError::Parse),
    };
    let uuid = match uuid {
        Some(t) => t.to_owned(),
        None => return Err(LayoutError::Parse),
    };
    let index = match index {
        Some(n) if n <= u32::MAX as u64 => n as u32,
        _ => return Err(LayoutError::Parse),
    };
    let layout = match layout {
        Some(t) => match LayoutMode::from_name(t) {
            Some(m) => m,
            None => return Err(LayoutError::Parse),
        },
        None => return Err(LayoutError::Parse),
    };
    let label = match label {
        Some(t) => t.to_owned(),
        None => return Err(LayoutError::Parse),
    };
    let display = match display {
        Some(n) if n <= u32::MAX as u64 => n as u32,
        _ => return Err(LayoutError::Parse),
    };
    Ok(SpaceResponse { id, uuid, index, layout, label, display })
}

fn text_member<'a>(j: &'a Json, key: &str) -> (r: Option<&'a str>)
    ensures
        view_opt(r) == str_field(j.text@, key@),
{
    match member(j, key) {
        Some(m) => as_text(&m),
        None => None,
    }
}

fn unsigned_member(j: &Json, key: &str) -> (r: Option<u64>)
    ensures
        r == u64_field(j.text@, key@),
{
    match member(j, key) {
        Some(m) => as_unsigned(&m),
        None => None,
    }
}

/// A reply that decodes: JSON whose members pass `fields_valid`.
pub open spec fn reply_valid(text: Seq<char>) -> bool {
    &&& json_parses(text)
    &&& fields_valid(
        u64_field(text, "id"@),
        str_field(text, "uuid"@),
        u64_field(text, "index"@),
        str_field(text, "type"@),
        str_field(text, "label"@),
        u64_field(text, "display"@),
    )
}

/// Decodes the control program's reply to a query of the active desktop:
/// a JSON object with `id`, `uuid`, `index`, `type`, `label` and `display`.
/// Text that is not JSON, or an object that `space_from_fields` refuses, is
/// a parse failure.
pub fn parse_space_response(text: &str) -> (r: Result<SpaceResponse, LayoutError>)
    ensures
        r is Ok <==> reply_valid(text@),
        r matches Ok(s) ==> {
            &&& s.id == u64_field(text@, "id"@).unwrap()
            &&& s.uuid@ == str_field(text@, "uuid"@).unwrap()
            &&& s.index == u64_field(text@, "index"@).unwrap()
            &&& Some(s.layout) == mode_of_name(str_field(text@, "type"@).unwrap())
            &&& s.label@ == str_field(text@, "label"@).unwrap()
            &&& s.display == u64_field(text@, "display"@).unwrap()
        },
        r matches Err(e) ==> e == LayoutError::Parse,
{
    let j = match read_json(text) {
        Some(j) => j,
        None => return Err(LayoutError::Parse),
    };
    space_from_fields(
        unsigned_member(&j, "id"),
        text_member(&j, "uuid"),
        unsigned_member(&j, "index"),
        text_member(&j, "type"),
        text_member(&j, "label"),
        unsigned_member(&j, "display"),
    )
}

/// The layout mode that a query reply reports.
pub fn layout_of_response(text: &str) -> (r: Result<LayoutMode, LayoutError>)
    ensures
        r is Ok <==> reply_valid(text@),
        r matches Ok(m) ==> Some(m) == mode_of_name(str_field(text@, "type"@).unwrap()),
        r matches Err(e) ==> e == LayoutError::Parse,
{
    match parse_space_response(text) {
        Ok(s) => Ok(s.layout),
        Err(e) => Err(e),
    }
}

} // verus!
