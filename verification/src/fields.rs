//! Reading the header fields of a request.
use http::header::{HeaderMap, HeaderValue, ToStrError};
use vstd::prelude::*;

verus! {

/// The header map type of the `http` crate.
#[verifier::external_type_specification]
#[verifier::external_body]
#[verifier::reject_recursive_types(T)]
pub struct ExHeaderMap<T>(http::header::HeaderMap<T>);

/// The type of a header field's value in the `http` crate.
#[verifier::external_type_specification]
#[verifier::external_body]
pub struct ExHeaderValue(http::header::HeaderValue);

/// What `HeaderValue::to_str` returns for a value that is not text.
#[verifier::external_type_specification]
#[verifier::external_body]
pub struct ExToStrError(http::header::ToStrError);

/// What a header map holds: under each field name, in lower case, the bytes of
/// that field's values in the order in which they came.
pub uninterp spec fn fields_in(headers: HeaderMap<HeaderValue>) -> Map<Seq<char>, Seq<Seq<u8>>>;

/// The bytes that a header value holds.
pub uninterp spec fn bytes_in(value: HeaderValue) -> Seq<u8>;

/// `c`, or its lower-case form where it is an ASCII letter.
pub open spec fn ascii_lower(c: char) -> char {
    if 'A' <= c && c <= 'Z' {
        (c as int + 32) as char
    } else {
        c
    }
}

/// A field name in the form in which a header map keeps it.
pub open spec fn field_name(name: Seq<char>) -> Seq<char> {
    Seq::new(name.len(), |i: int| ascii_lower(name[i]))
}

/// Whether all bytes are visible ASCII characters, spaces or tabs.
pub open spec fn is_visible_ascii(bytes: Seq<u8>) -> bool {
    forall|i: int| 0 <= i < bytes.len() ==> 32 <= #[trigger] bytes[i] < 127 || bytes[i] == 9
}

/// ASCII bytes as characters.
pub open spec fn ascii_text(bytes: Seq<u8>) -> Seq<char> {
    Seq::new(bytes.len(), |i: int| bytes[i] as char)
}

/// `HeaderMap::get` with a `&str` as the key: the first value of that field,
/// whatever the case in which the name is written.
#[verifier::external_body]
fn header_get<'a>(headers: &'a HeaderMap<HeaderValue>, name: &str) -> (value: Option<
    &'a HeaderValue,
>)
    ensures
        value is Some == fields_in(*headers).contains_key(field_name(name@)),
        value is Some ==> fields_in(*headers)[field_name(name@)].len() > 0 && bytes_in(*value->0)
            == fields_in(*headers)[field_name(name@)][0],
{
    headers.get(name)
}

/// `HeaderValue::to_str`: the value as text, where it holds nothing but visible
/// ASCII characters, spaces and tabs.
pub assume_specification[ HeaderValue::to_str ](value: &HeaderValue) -> (text: Result<
    &str,
    ToStrError,
>)
    ensures
        text is Ok == is_visible_ascii(bytes_in(*value)),
        text is Ok ==> text->Ok_0@ == ascii_text(bytes_in(*value)),
;

/// What a request says in one of its header fields.
pub enum Field {
    /// The request has no such field.
    Missing,
    /// The field's value is not text.
    Opaque,
    /// The field's value.
    Text(String),
}

/// What a request says in one of its header fields, as contracts speak of it.
pub enum FieldView {
    Missing,
    Opaque,
    Text(Seq<char>),
}

impl View for Field {
    type V = FieldView;

    open spec fn view(&self) -> FieldView {
        match self {
            Field::Missing => FieldView::Missing,
            Field::Opaque => FieldView::Opaque,
            Field::Text(text) => FieldView::Text(text@),
        }
    }
}

/// What the field `name` says where the header map holds `fields`: of several
/// values the first one counts.
pub open spec fn field_of(fields: Map<Seq<char>, Seq<Seq<u8>>>, name: Seq<char>) -> FieldView {
    let key = field_name(name);
    if !fields.contains_key(key) {
        FieldView::Missing
    } else if is_visible_ascii(fields[key][0]) {
        FieldView::Text(ascii_text(fields[key][0]))
    } else {
        FieldView::Opaque
    }
}

/// What a request says in the field `name`.
pub fn get_field(headers: &HeaderMap<HeaderValue>, name: &str) -> (field: Field)
    ensures
        field@ == field_of(fields_in(*headers), name@),
{
    match header_get(headers, name) {
        None => Field::Missing,
        Some(value) => match value.to_str() {
            Ok(text) => Field::Text(text.to_owned()),
            Err(_) => Field::Opaque,
        },
    }
}

} // verus!
