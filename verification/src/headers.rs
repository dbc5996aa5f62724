//! Header fields of a request, kept in the `http` crate's `HeaderMap`, and the
//! mathematical model the contracts of this crate use for them.

use hyper::header::{HeaderMap, HeaderValue};
use vstd::prelude::*;

verus! {

/// The `http` crate's multimap from field names to values.
#[verifier::external_type_specification]
#[verifier::external_body]
#[verifier::reject_recursive_types(T)]
pub struct ExHeaderMap<T>(hyper::header::HeaderMap<T>);

/// The `http` crate's validated field value.
#[verifier::external_type_specification]
#[verifier::external_body]
pub struct ExHeaderValue(hyper::header::HeaderValue);

/// What a header map holds: for each field name present (in lower case) the
/// values stored under it, in the order in which a lookup yields them.
pub uninterp spec fn header_fields(map: HeaderMap<HeaderValue>) -> Map<Seq<char>, Seq<Seq<u8>>>;

/// The bytes that a field value holds.
pub uninterp spec fn value_bytes(value: HeaderValue) -> Seq<u8>;

/// A field name this crate looks up: non-empty, short, made of lower-case
/// letters, digits and hyphens.
pub open spec fn is_field_name(name: Seq<char>) -> bool {
    &&& 0 < name.len() <= 64
    &&& forall|i: int|
        0 <= i < name.len() ==> {
            let c = #[trigger] name[i];
            ('a' <= c && c <= 'z') || ('0' <= c && c <= '9') || c == '-'
        }
}

/// A byte that `http` accepts inside a field value built from bytes.
pub open spec fn is_value_byte(b: u8) -> bool {
    (b >= 32 && b != 127) || b == 9
}

/// Bytes that `http` accepts as a field value.
pub open spec fn is_value_bytes(bytes: Seq<u8>) -> bool {
    forall|i: int| 0 <= i < bytes.len() ==> is_value_byte(#[trigger] bytes[i])
}

/// A character that `http` accepts inside a field value built from text:
/// any but the control characters, the tab excepted.
pub open spec fn is_value_char(c: char) -> bool {
    (' ' <= c && c != '\u{7f}') || c == '\t'
}

/// Text that `http` accepts as a field value.
pub open spec fn is_value_text(text: Seq<char>) -> bool {
    forall|i: int| 0 <= i < text.len() ==> is_value_char(#[trigger] text[i])
}

/// The bytes of a text: its UTF-8 encoding.
pub open spec fn text_bytes(text: Seq<char>) -> Seq<u8> {
    vstd::utf8::encode_utf8(text)
}

/// The text of bytes that are all ASCII.
pub open spec fn bytes_text(bytes: Seq<u8>) -> Seq<char> {
    Seq::new(bytes.len(), |i: int| bytes[i] as char)
}

/// Bytes that can be read back as field-value text.
pub open spec fn is_text_bytes(bytes: Seq<u8>) -> bool {
    forall|i: int|
        0 <= i < bytes.len() ==> {
            let b = #[trigger] bytes[i];
            (b >= 32 && b < 127) || b == 9
        }
}

/// The model of a header map's contents.
pub type Fields = Map<Seq<char>, Seq<Seq<u8>>>;

/// The values stored under `name`; none where the name is absent.
pub open spec fn values_of(fields: Fields, name: Seq<char>) -> Seq<Seq<u8>> {
    if fields.dom().contains(name) {
        fields[name]
    } else {
        Seq::empty()
    }
}

/// The byte strings of a vector of byte vectors.
pub open spec fn byte_rows(rows: Seq<Vec<u8>>) -> Seq<Seq<u8>> {
    Seq::new(rows.len(), |i: int| rows[i]@)
}

/// `HeaderMap::get_all`, each value handed out as its bytes (`HeaderValue::as_bytes`).
/// The contract claims that the values come in the order of the model and that
/// a name absent from the map yields none.
#[verifier::external_body]
pub(crate) fn field_values(map: &HeaderMap<HeaderValue>, name: &str) -> (values: Vec<Vec<u8>>)
    requires
        is_field_name(name@),
    ensures
        byte_rows(values@) == values_of(header_fields(*map), name@),
{
    map.get_all(name).iter().map(|value| value.as_bytes().to_vec()).collect()
}

/// `HeaderMap::get` followed by `HeaderValue::to_str` on what it found:
/// `None` where the name holds no value; otherwise the first value as text
/// where all its bytes are visible ASCII, spaces or tabs, and `Some(None)`
/// where they are not.
#[verifier::external_body]
pub(crate) fn first_field_text(map: &HeaderMap<HeaderValue>, name: &str) -> (text: Option<
    Option<String>,
>)
    requires
        is_field_name(name@),
    ensures
        text.is_none() <==> values_of(header_fields(*map), name@).len() == 0,
        match text {
            Some(Some(decoded)) => is_text_bytes(values_of(header_fields(*map), name@)[0])
                && decoded@ == bytes_text(values_of(header_fields(*map), name@)[0]),
            Some(None) => !is_text_bytes(values_of(header_fields(*map), name@)[0]),
            None => true,
        },
{
    map.get(name).map(|value| value.to_str().ok().map(String::from))
}

/// `StatusCode::NOT_FOUND` printed: the number and the canonical reason.
#[verifier::external_body]
pub(crate) fn not_found_text() -> (text: String)
    ensures
        text@ == "404 Not Found"@,
{
    hyper::StatusCode::NOT_FOUND.to_string()
}

/// `HeaderMap::remove`: every value stored under the name leaves the map,
/// nothing else changes.
#[verifier::external_body]
pub(crate) fn remove_field(map: &mut HeaderMap<HeaderValue>, name: &str)
    requires
        is_field_name(name@),
    ensures
        header_fields(*final(map)) == header_fields(*old(map)).remove(name@),
{
    map.remove(name);
}

/// `HeaderMap::try_insert`: on success the name holds exactly the one new
/// value; when the map cannot grow it is left as it was. Which of the two
/// happens is decided by the map's allocation and is not stated.
#[verifier::external_body]
pub(crate) fn insert_field(map: &mut HeaderMap<HeaderValue>, name: &'static str, value: HeaderValue) -> (stored: bool)
    requires
        is_field_name(name@),
    ensures
        stored ==> header_fields(*final(map)) == header_fields(*old(map)).insert(
            name@,
            seq![value_bytes(value)],
        ),
        !stored ==> header_fields(*final(map)) == header_fields(*old(map)),
{
    map.try_insert(name, value).is_ok()
}

/// `HeaderValue::from_str`: succeeds exactly on text without control
/// characters other than the tab (the crate tests each byte of the text as
/// `from_bytes` does, so characters beyond ASCII pass), and the value then
/// holds the text's bytes.
#[verifier::external_body]
pub(crate) fn value_from_text(text: &str) -> (value: Option<HeaderValue>)
    ensures
        value.is_some() <==> is_value_text(text@),
        value.is_some() ==> value_bytes(value.unwrap()) == text_bytes(text@),
{
    HeaderValue::from_str(text).ok()
}

/// `HeaderValue::try_from` on a byte vector: succeeds exactly when no byte is
/// a control character other than tab, and the value then holds those bytes.
#[verifier::external_body]
pub(crate) fn value_from_bytes(bytes: Vec<u8>) -> (value: Option<HeaderValue>)
    ensures
        value.is_some() <==> is_value_bytes(bytes@),
        value.is_some() ==> value_bytes(value.unwrap()) == bytes@,
{
    HeaderValue::try_from(bytes).ok()
}

} // verus!
