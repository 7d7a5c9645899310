//! Requests to send a frame to a client.
//!
//! Such a request goes through four steps. [`connection_id`] reads which client it is
//! for, [`MyState::on_send`] finds the client's sink, [`Delivery::compose`] makes a
//! frame of the request's body, and [`Delivery::conclude`] answers the request once
//! the frame has been sent.
use crate::body::{body_of, BodyError};
use crate::connections::{connection_under, Connection, ConnectionView};
use crate::fields::{field_of, fields_in, get_field, Field, FieldView};
use crate::ids::{id_of, id_text, id_to_string, parse_id};
use crate::message::{Message, MessageView};
use crate::reply::{rejection, Rejection, RejectionView, Status};
use crate::state::MyState;
use crate::text::text_of;
use crate::urls::{missing_error, missing_field};
use headers::ContentType;
use http::header::{HeaderMap, HeaderValue};
use std::string::FromUtf8Error;
use vstd::prelude::*;
use vstd::string::*;
use vstd::utf8::*;

verus! {

/// The header field for a connection's group.
pub const GROUP: &'static str = "ws-bridge-group";

/// The header field for the type of what is posted.
pub const CONTENT_TYPE: &'static str = "content-type";

/// The content type of a text frame.
pub const TEXT: &'static str = "text/plain;charset=UTF-8";

/// The content type of a binary frame.
pub const BINARY: &'static str = "application/octet-stream";

/// Why a text is not a content type.
#[verifier::external_type_specification]
#[verifier::external_body]
pub struct ExHeaderError(headers::Error);

/// Whether the content type `text` equals that of plain text in UTF-8, or `None`
/// where `text` is no content type.
pub uninterp spec fn equals_text_utf8(text: Seq<char>) -> Option<bool>;

/// What [`equals_text_utf8`] says, with the two content types that frames are
/// posted with told apart.
pub open spec fn reads_as_text(content_type: Seq<char>) -> Option<bool> {
    if content_type == TEXT@ {
        Some(true)
    } else if content_type == BINARY@ {
        Some(false)
    } else {
        equals_text_utf8(content_type)
    }
}

/// `ContentType`'s `FromStr`, and its `==` with `ContentType::text_utf8()`. The
/// content type `text/plain;charset=UTF-8` equals that one and
/// `application/octet-stream` does not. Which texts are content types, and which of
/// them are equal to it, is a function of the text that [`equals_text_utf8`] names.
#[verifier::external_body]
fn is_text_utf8(content_type: &str) -> (text: Result<bool, headers::Error>)
    ensures
        content_type@ == TEXT@ ==> text is Ok && text->Ok_0,
        content_type@ == BINARY@ ==> text is Ok && !text->Ok_0,
        match equals_text_utf8(content_type@) {
            Some(equal) => text is Ok && text->Ok_0 == equal,
            None => text is Err,
        },
{
    Ok(content_type.parse::<ContentType>()? == ContentType::text_utf8())
}

/// Why bytes are not UTF-8.
#[verifier::external_type_specification]
#[verifier::external_body]
pub struct ExFromUtf8Error(std::string::FromUtf8Error);

/// `String::from_utf8`: the text that the bytes encode, where they are UTF-8.
pub assume_specification[ String::from_utf8 ](bytes: Vec<u8>) -> (text: Result<
    String,
    FromUtf8Error,
>)
    ensures
        text is Ok == valid_utf8(bytes@),
        text is Ok ==> text->Ok_0@ == decode_utf8(bytes@),
;

/// The answer where the identifier in a request's path is none, because of `problem`.
pub open spec fn bad_id(problem: Seq<char>) -> RejectionView {
    rejection(Status::BadRequest, "Invalid URL: UUID parsing failed: "@ + problem)
}

/// The answer where a request has no content type.
pub open spec fn missing_content_type() -> RejectionView {
    rejection(Status::BadRequest, "Header of type `content-type` was missing"@)
}

/// The answer where the content type cannot be read.
pub open spec fn bad_content_type() -> RejectionView {
    rejection(Status::BadRequest, "invalid HTTP header (content-type)"@)
}

/// The answer where there is no connection `id`.
pub open spec fn unknown_connection(id: u128) -> RejectionView {
    rejection(Status::NotFound, "unknown connection id: "@ + id_text(id))
}

/// The answer where a request names another group than the connection's.
pub open spec fn wrong_group() -> RejectionView {
    rejection(Status::Forbidden, "access denied for group specified by \"ws-bridge-group\" header"@)
}

/// The answer where the body cannot be read.
pub open spec fn unreadable_body() -> RejectionView {
    rejection(Status::InternalServerError, "error reading body"@)
}

/// The answer where the body is to be text and is not.
pub open spec fn not_utf8() -> RejectionView {
    rejection(Status::BadRequest, "unable to parse body as UTF-8"@)
}

/// The answer where the frame could not be sent.
pub open spec fn connection_closed(id: u128) -> RejectionView {
    rejection(Status::NotFound, "connection "@ + id_text(id) + " has been closed"@)
}

/// Whether a request may send to a connection of the given group, and if not, what
/// it is answered. A connection without a group takes all requests.
pub open spec fn group_answer(group: Option<Seq<char>>, field: FieldView) -> Result<
    (),
    RejectionView,
> {
    match group {
        None => Ok(()),
        Some(group) => match field {
            FieldView::Missing => Err(missing_field(GROUP@)),
            FieldView::Opaque => Err(wrong_group()),
            FieldView::Text(text) => if text == group {
                Ok(())
            } else {
                Err(wrong_group())
            },
        },
    }
}

/// Whether a request may send to a connection of the given group.
pub fn check_group(group: &Option<String>, field: Field) -> (checked: Result<(), Rejection>)
    ensures
        match group_answer(text_of(*group), field@) {
            Ok(()) => checked is Ok,
            Err(rejection) => checked is Err && checked->Err_0@ == rejection,
        },
{
    match group {
        None => Ok(()),
        Some(group) => match field {
            Field::Missing => Err(missing_error(GROUP)),
            Field::Text(text) if text == *group => Ok(()),
            _ => Err(
                Rejection {
                    status: Status::Forbidden,
                    message:
                    "access denied for group specified by \"ws-bridge-group\" header".to_owned(),
                },
            ),
        },
    }
}

/// A frame on its way to a client.
#[derive(Debug)]
pub struct Delivery {
    /// The connection that it is for.
    pub id: u128,
    /// The sink to send it to. It is to be locked before the body is read.
    pub sink: u64,
    /// Whether it is a text frame.
    pub text: bool,
}

/// What comes of looking for a client's sink, as contracts speak of it.
pub open spec fn delivery_result(delivery: Result<Delivery, Rejection>) -> Result<
    Delivery,
    RejectionView,
> {
    match delivery {
        Ok(delivery) => Ok(delivery),
        Err(rejection) => Err(rejection@),
    }
}

/// What comes of reading an identifier, as contracts speak of it.
pub open spec fn id_result(id: Result<u128, Rejection>) -> Result<u128, RejectionView> {
    match id {
        Ok(id) => Ok(id),
        Err(rejection) => Err(rejection@),
    }
}

/// The connection that a request's path names, given what its last segment is parsed
/// to.
pub open spec fn named_connection(id: Result<u128, Seq<char>>) -> Result<u128, RejectionView> {
    match id {
        Ok(id) => Ok(id),
        Err(problem) => Err(bad_id(problem)),
    }
}

/// The connection that a request's path names, given what its last segment is parsed
/// to.
pub fn id_or_error(id: Result<u128, String>) -> (result: Result<u128, Rejection>)
    ensures
        id_result(result) == named_connection(
            match id {
                Ok(id) => Ok(id),
                Err(problem) => Err(problem@),
            },
        ),
{
    match id {
        Ok(id) => Ok(id),
        Err(problem) => Err(
            Rejection {
                status: Status::BadRequest,
                message: "Invalid URL: UUID parsing failed: ".to_owned().concat(problem.as_str()),
            },
        ),
    }
}

/// The connection that a request's path names in its last segment, or the answer
/// where it names none.
pub fn connection_id(segment: &str) -> (id: Result<u128, Rejection>)
    ensures
        id_result(id) == named_connection(id_of(segment@)),
{
    id_or_error(parse_id(segment))
}

/// Whether the content of a request is text, given what its content type comes to:
/// whether it is that of text, or `None` where it is none.
pub fn text_or_error(text: Option<bool>) -> (result: Result<bool, Rejection>)
    ensures
        text_result(result) == match text {
            Some(text) => Ok::<bool, RejectionView>(text),
            None => Err(bad_content_type()),
        },
{
    match text {
        Some(text) => Ok(text),
        None => Err(
            Rejection {
                status: Status::BadRequest,
                message: "invalid HTTP header (content-type)".to_owned(),
            },
        ),
    }
}

/// What comes of reading a content type, as contracts speak of it.
pub open spec fn text_result(text: Result<bool, Rejection>) -> Result<bool, RejectionView> {
    match text {
        Ok(text) => Ok(text),
        Err(rejection) => Err(rejection@),
    }
}

/// Whether the content of a request with the given content type is text, or the
/// answer where that cannot be told.
pub open spec fn is_text(content_type: FieldView) -> Result<bool, RejectionView> {
    match content_type {
        FieldView::Missing => Err(missing_content_type()),
        FieldView::Opaque => Err(bad_content_type()),
        FieldView::Text(content_type) => match reads_as_text(content_type) {
            Some(text) => Ok(text),
            None => Err(bad_content_type()),
        },
    }
}

/// Whether the content of a request with the given content type is text, or the
/// answer where that cannot be told.
pub fn content_type_is_text(content_type: Field) -> (text: Result<bool, Rejection>)
    ensures
        text_result(text) == is_text(content_type@),
        content_type matches Field::Text(value) ==> match equals_text_utf8(value@) {
            Some(equal) => text is Ok && text->Ok_0 == equal,
            None => text is Err,
        },
        content_type matches Field::Text(value) ==> value@ == "text/plain;charset=UTF-8"@
            ==> text is Ok && text->Ok_0,
        content_type matches Field::Text(value) ==> value@ == "application/octet-stream"@
            ==> text is Ok && !text->Ok_0,
        !(content_type is Text) ==> text is Err,
        text is Err ==> text->Err_0.status == Status::BadRequest,
{
    match content_type {
        Field::Missing => Err(
            Rejection {
                status: Status::BadRequest,
                message: "Header of type `content-type` was missing".to_owned(),
            },
        ),
        Field::Opaque => text_or_error(None),
        Field::Text(content_type) => match is_text_utf8(content_type.as_str()) {
            Ok(text) => text_or_error(Some(text)),
            Err(_) => text_or_error(None),
        },
    }
}

/// Where a frame for `id` goes, given whether it is text, the connection under
/// `id`, if there is one, and what the request says of the group.
pub open spec fn addressed(
    id: u128,
    text: Result<bool, RejectionView>,
    connection: Option<ConnectionView>,
    group: FieldView,
) -> Result<Delivery, RejectionView> {
    match text {
        Err(rejection) => Err(rejection),
        Ok(text) => match connection {
            None => Err(unknown_connection(id)),
            Some(connection) => match group_answer(connection.group, group) {
                Ok(()) => Ok(Delivery { id, sink: connection.sink, text }),
                Err(rejection) => Err(rejection),
            },
        },
    }
}

/// Where a frame for `id` goes, given whether it is text, the connection under
/// `id`, if there is one, and what the request says of the group.
pub fn address(
    id: u128,
    text: Result<bool, Rejection>,
    connection: Option<Connection>,
    group: Field,
) -> (delivery: Result<Delivery, Rejection>)
    ensures
        delivery_result(delivery) == addressed(
            id,
            text_result(text),
            match connection {
                Some(connection) => Some(connection@),
                None => None,
            },
            group@,
        ),
{
    match text {
        Err(rejection) => Err(rejection),
        Ok(text) => match connection {
            None => Err(
                Rejection {
                    status: Status::NotFound,
                    message: "unknown connection id: ".to_owned().concat(
                        id_to_string(id).as_str(),
                    ),
                },
            ),
            Some(connection) => match check_group(&connection.group, group) {
                Ok(()) => Ok(Delivery { id, sink: connection.sink, text }),
                Err(rejection) => Err(rejection),
            },
        },
    }
}

impl MyState {
    /// Begins to answer a request to send a frame to the client `id`: with where to
    /// send it, or with a rejection.
    pub fn on_send(&self, id: u128, headers: &HeaderMap<HeaderValue>) -> (delivery: Result<
        Delivery,
        Rejection,
    >)
        ensures
            delivery_result(delivery) == addressed(
                id,
                is_text(field_of(fields_in(*headers), CONTENT_TYPE@)),
                connection_under(self.sinks@, id),
                field_of(fields_in(*headers), GROUP@),
            ),
            delivery matches Ok(delivery) ==> {
                &&& delivery.id == id
                &&& self.sinks@.contains_key(id)
                &&& delivery.sink == self.sinks@[id].sink
                &&& field_of(fields_in(*headers), "content-type"@) matches FieldView::Text(value)
                    && equals_text_utf8(value) == Some(delivery.text)
                &&& self.sinks@[id].group matches Some(group) ==> field_of(
                    fields_in(*headers),
                    "ws-bridge-group"@,
                ) == FieldView::Text(group)
            },
            ({
                &&& self.sinks@.contains_key(id)
                &&& self.sinks@[id].group matches Some(group) ==> field_of(
                    fields_in(*headers),
                    "ws-bridge-group"@,
                ) == FieldView::Text(group)
                &&& field_of(fields_in(*headers), "content-type"@) matches FieldView::Text(value)
                    && equals_text_utf8(value) is Some
            }) ==> delivery is Ok,
    {
        address(
            id,
            content_type_is_text(get_field(headers, CONTENT_TYPE)),
            self.sinks.get(id),
            get_field(headers, GROUP),
        )
    }
}

/// The frame made of a request's body.
pub open spec fn composed(text: bool, body: Result<Seq<u8>, BodyError>) -> Result<
    MessageView,
    RejectionView,
> {
    match body {
        Err(_) => Err(unreadable_body()),
        Ok(bytes) => if !text {
            Ok(MessageView::Binary(bytes))
        } else if valid_utf8(bytes) {
            Ok(MessageView::Text(decode_utf8(bytes)))
        } else {
            Err(not_utf8())
        },
    }
}

/// What comes of making a frame, as contracts speak of it.
pub open spec fn message_result(message: Result<Message, Rejection>) -> Result<
    MessageView,
    RejectionView,
> {
    match message {
        Ok(message) => Ok(message@),
        Err(rejection) => Err(rejection@),
    }
}

/// What the request is answered in the end.
pub open spec fn concluded(id: u128, sent: bool) -> Result<Status, RejectionView> {
    if sent {
        Ok(Status::Success)
    } else {
        Err(connection_closed(id))
    }
}

impl Delivery {
    /// The frame to send, made of the request's body, or the answer where there is
    /// none.
    pub fn compose(&self, body: Result<Vec<u8>, BodyError>) -> (message: Result<
        Message,
        Rejection,
    >)
        ensures
            message_result(message) == composed(self.text, body_of(body)),
            message matches Ok(message) ==> body is Ok && match message {
                Message::Text(text) => self.text && encode_utf8(text@) == body->Ok_0@,
                Message::Binary(bytes) => !self.text && bytes@ == body->Ok_0@,
                _ => false,
            },
            body is Ok && (!self.text || valid_utf8(body->Ok_0@)) ==> message is Ok,
    {
        proof {
            if body is Ok && valid_utf8(body->Ok_0@) {
                decode_utf8_encode_utf8(body->Ok_0@);
            }
        }
        match body {
            Err(_) => Err(
                Rejection {
                    status: Status::InternalServerError,
                    message: "error reading body".to_owned(),
                },
            ),
            Ok(bytes) => if self.text {
                match String::from_utf8(bytes) {
                    Ok(text) => Ok(Message::Text(text)),
                    Err(_) => Err(
                        Rejection {
                            status: Status::BadRequest,
                            message: "unable to parse body as UTF-8".to_owned(),
                        },
                    ),
                }
            } else {
                Ok(Message::Binary(bytes))
            },
        }
    }

    /// The answer to the request, now that the frame was sent or could not be.
    pub fn conclude(&self, sent: bool) -> (answer: Result<Status, Rejection>)
        ensures
            match concluded(self.id, sent) {
                Ok(status) => answer is Ok && answer->Ok_0 == status,
                Err(rejection) => answer is Err && answer->Err_0@ == rejection,
            },
    {
        if sent {
            Ok(Status::Success)
        } else {
            Err(
                Rejection {
                    status: Status::NotFound,
                    message: "connection ".to_owned().concat(id_to_string(self.id).as_str()).concat(
                        " has been closed",
                    ),
                },
            )
        }
    }
}

} // verus!
