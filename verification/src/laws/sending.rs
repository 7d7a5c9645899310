//! What holds of requests to send a frame to a client.
use crate::body::{read_on, BodyError, ChunkView, ProgressView};
use crate::connections::{connection_under, no_connections, ConnectionView};
use crate::fields::FieldView;
use crate::ids::id_text;
use crate::message::MessageView;
use crate::reply::{RejectionView, Status};
use crate::send::{
    addressed, composed, concluded, equals_text_utf8, group_answer, is_text, named_connection,
    Delivery,
};
use vstd::prelude::*;
use vstd::utf8::*;

verus! {

/// The content of a request is text if and only if its content type equals that of
/// plain text in UTF-8, however that is written. The two content types that frames
/// are posted with are told apart, and a request without a content type that can be
/// read is a bad one.
pub proof fn law_content_type_decides(content_type: Seq<char>, text: bool)
    ensures
        is_text(FieldView::Text("text/plain;charset=UTF-8"@)) == Ok::<bool, RejectionView>(true),
        is_text(FieldView::Text("application/octet-stream"@)) == Ok::<bool, RejectionView>(false),
        equals_text_utf8(content_type) == Some(text) && (content_type
            == "text/plain;charset=UTF-8"@ ==> text) && (content_type
            == "application/octet-stream"@ ==> !text) ==> is_text(FieldView::Text(content_type))
            == Ok::<bool, RejectionView>(text),
        equals_text_utf8(content_type) is None && content_type != "text/plain;charset=UTF-8"@
            && content_type != "application/octet-stream"@ ==> is_text(
            FieldView::Text(content_type),
        ) == Err::<bool, RejectionView>(
            RejectionView {
                status: Status::BadRequest,
                message: "invalid HTTP header (content-type)"@,
            },
        ),
        is_text(FieldView::Missing) == Err::<bool, RejectionView>(
            RejectionView {
                status: Status::BadRequest,
                message: "Header of type `content-type` was missing"@,
            },
        ),
        is_text(FieldView::Opaque) == Err::<bool, RejectionView>(
            RejectionView {
                status: Status::BadRequest,
                message: "invalid HTTP header (content-type)"@,
            },
        ),
{
    reveal_strlit("text/plain;charset=UTF-8");
    reveal_strlit("application/octet-stream");
    assert("text/plain;charset=UTF-8"@[0] != "application/octet-stream"@[0]);
}

/// Two content types of which the same is known are treated the same.
pub proof fn law_equal_content_types_are_treated_alike(a: Seq<char>, b: Seq<char>)
    ensures
        a != "text/plain;charset=UTF-8"@ && a != "application/octet-stream"@ && b
            != "text/plain;charset=UTF-8"@ && b != "application/octet-stream"@
            && equals_text_utf8(a) == equals_text_utf8(b) ==> is_text(FieldView::Text(a))
            == is_text(FieldView::Text(b)),
{
}

/// A body that is to be text becomes the text that it encodes, and is turned down if
/// it encodes none. A body that is not becomes a binary frame with the same bytes,
/// whatever they are. Without a body there is no frame.
pub proof fn law_frame_holds_the_body(text: Seq<char>, bytes: Seq<u8>, is_text: bool)
    ensures
        composed(true, Ok(encode_utf8(text))) == Ok::<MessageView, RejectionView>(
            MessageView::Text(text),
        ),
        composed(true, Ok(bytes)) matches Ok(message) ==> message is Text && encode_utf8(
            message->Text_0,
        ) == bytes,
        composed(true, Ok(bytes)) is Ok <==> valid_utf8(bytes),
        composed(true, Ok(bytes)) matches Err(rejection) ==> rejection == (RejectionView {
            status: Status::BadRequest,
            message: "unable to parse body as UTF-8"@,
        }),
        composed(false, Ok(bytes)) == Ok::<MessageView, RejectionView>(MessageView::Binary(bytes)),
        composed(is_text, Err(BodyError)) == Err::<MessageView, RejectionView>(
            RejectionView {
                status: Status::InternalServerError,
                message: "error reading body"@,
            },
        ),
{
    encode_utf8_valid_utf8(text);
    encode_utf8_decode_utf8(text);
    if valid_utf8(bytes) {
        decode_utf8_encode_utf8(bytes);
    }
}

/// A request reaches the sink of the connection that it names and no other, as the
/// kind of frame that its content type asks for, if and only if there is such a
/// connection and the request repeats its group, where it has one. Otherwise it is
/// answered with the first thing that is wrong: its content type, the connection, the
/// group.
pub proof fn law_request_reaches_its_connection(
    sinks: Map<u128, ConnectionView>,
    id: u128,
    text: Result<bool, RejectionView>,
    group: FieldView,
)
    ensures
        addressed(id, text, connection_under(sinks, id), group) is Ok <==> text is Ok
            && sinks.contains_key(id) && (sinks[id].group is None || group == FieldView::Text(
            sinks[id].group->0,
        )),
        addressed(id, text, connection_under(sinks, id), group) matches Ok(delivery) ==> delivery
            == (Delivery { id, sink: sinks[id].sink, text: text->Ok_0 }),
        addressed(id, text, connection_under(sinks, id), group) matches Err(rejection)
            ==> rejection == if text is Err {
            text->Err_0
        } else if !sinks.contains_key(id) {
            RejectionView {
                status: Status::NotFound,
                message: "unknown connection id: "@ + id_text(id),
            }
        } else if group is Missing {
            RejectionView {
                status: Status::BadRequest,
                message: "missing required header: \""@ + "ws-bridge-group"@ + "\""@,
            }
        } else {
            RejectionView {
                status: Status::Forbidden,
                message: "access denied for group specified by \"ws-bridge-group\" header"@,
            }
        },
{
}

/// A connection without a group takes requests whatever they say of it, and one with a
/// group those that repeat it and no others.
pub proof fn law_group_is_repeated(group: Seq<char>, field: FieldView)
    ensures
        group_answer(None, field) is Ok,
        group_answer(Some(group), field) is Ok <==> field == FieldView::Text(group),
{
}

/// What one client sends as a frame, another gets as the same frame where it is posted
/// to that one's callback URL: text as text and bytes as bytes, to the sink of the
/// connection that is named.
pub proof fn law_what_is_sent_arrives(
    sinks: Map<u128, ConnectionView>,
    id: u128,
    message: MessageView,
)
    requires
        sinks.contains_key(id),
        sinks[id].group is None,
        message is Text || message is Binary,
    ensures
        ({
            let (content_type, body) = match message {
                MessageView::Text(text) => ("text/plain;charset=UTF-8"@, encode_utf8(text)),
                MessageView::Binary(bytes) => ("application/octet-stream"@, bytes),
                _ => (Seq::empty(), Seq::empty()),
            };
            addressed(
                id,
                is_text(FieldView::Text(content_type)),
                connection_under(sinks, id),
                FieldView::Missing,
            ) matches Ok(delivery) && delivery.sink == sinks[id].sink && composed(
                delivery.text,
                Ok(body),
            ) == Ok::<MessageView, RejectionView>(message)
        }),
{
    law_content_type_decides(Seq::empty(), true);
    match message {
        MessageView::Text(text) => law_frame_holds_the_body(text, Seq::empty(), true),
        _ => {},
    }
}

/// A request is answered with success if and only if its frame was sent, and
/// otherwise that the connection has been closed.
pub proof fn law_answer_says_whether_it_was_sent(id: u128)
    ensures
        concluded(id, true) == Ok::<Status, RejectionView>(Status::Success),
        concluded(id, false) == Err::<Status, RejectionView>(
            RejectionView {
                status: Status::NotFound,
                message: "connection "@ + id_text(id) + " has been closed"@,
            },
        ),
{
}

/// A request is for the connection whose identifier its path ends in, and a bad one,
/// with what is wrong, if that is no identifier.
pub proof fn law_path_names_the_connection(id: u128, problem: Seq<char>)
    ensures
        named_connection(Ok(id)) == Ok::<u128, RejectionView>(id),
        named_connection(Err(problem)) == Err::<u128, RejectionView>(
            RejectionView {
                status: Status::BadRequest,
                message: "Invalid URL: UUID parsing failed: "@ + problem,
            },
        ),
{
}

/// The numbers of the statuses are those of HTTP.
pub proof fn law_statuses_have_their_numbers()
    ensures
        Status::Success.spec_code() == 200,
        Status::BadRequest.spec_code() == 400,
        Status::Forbidden.spec_code() == 403,
        Status::NotFound.spec_code() == 404,
        Status::InternalServerError.spec_code() == 500,
{
}

/// The connection under an identifier is the one that was registered there last, and
/// there is none before one was registered or after it was forgotten.
pub proof fn law_last_registered_connection_counts(
    sinks: Map<u128, ConnectionView>,
    id: u128,
    connection: ConnectionView,
)
    ensures
        connection_under(no_connections(), id) is None,
        connection_under(sinks.insert(id, connection), id) == Some(connection),
        connection_under(sinks.remove(id), id) is None,
        connection_under(sinks, id) is Some <==> sinks.contains_key(id),
{
}

/// A body goes on with every chunk, which is put behind what was read before, and is
/// complete or broken only when it is said to be.
pub proof fn law_body_is_read_chunk_by_chunk(read: Seq<u8>, bytes: Seq<u8>)
    ensures
        read_on(read, ChunkView::Bytes(bytes)) == ProgressView::More(read + bytes),
        read_on(read, ChunkView::End) == ProgressView::Done(Ok(read)),
        read_on(read, ChunkView::Failed) == ProgressView::Done(Err(BodyError)),
{
}

} // verus!
