//! What contracts speak of is what the values hold.
use crate::body::{body_of, BodyError, Chunk, ChunkView, Progress, ProgressView};
use crate::connections::{entry_view, Connection};
use crate::fields::{Field, FieldView};
use crate::message::{Message, MessageView};
use crate::reply::{rejection, Rejection, RejectionView, Status};
use crate::router::Route;
use crate::send::{
    delivery_result, id_result, message_result, text_result, Delivery, BINARY, CONTENT_TYPE, GROUP,
    TEXT,
};
use crate::serve::{
    Action, ActionView, Event, EventView, Incoming, IncomingView, Post, ReceiveError, Step, StepView,
    SEND,
};
use crate::text::{text_of, texts};
use crate::urls::{
    url_result, urls_result, BackendUrl, BackendUrlView, ConnectQuery, Urls, UrlsView,
    ON_DISCONNECT, ON_FRAME,
};
use vstd::prelude::*;

verus! {

/// The names of the header fields and the content types that backends and clients rely
/// on.
pub proof fn law_names_are_kept()
    ensures
        SEND@ == "x-ws-proxy-send"@,
        ON_FRAME@ == "x-ws-proxy-on-frame"@,
        ON_DISCONNECT@ == "x-ws-proxy-on-disconnect"@,
        GROUP@ == "ws-bridge-group"@,
        CONTENT_TYPE@ == "content-type"@,
        TEXT@ == "text/plain;charset=UTF-8"@,
        BINARY@ == "application/octet-stream"@,
{
}

/// Strings are shown as their characters, one by one.
pub proof fn law_strings_are_shown(text: String, strings: Seq<String>)
    ensures
        text_of(Some(text)) == Some(text@),
        text_of(None) is None,
        texts(strings).len() == strings.len(),
        forall|i: int| 0 <= i < strings.len() ==> #[trigger] texts(strings)[i] == strings[i]@,
{
}

/// The URLs of a connection, and the query that asks for them, are shown as they are.
pub proof fn law_urls_are_shown(url: BackendUrl, urls: Urls, query: ConnectQuery)
    ensures
        url@.text == url.text@,
        url.host is None ==> url@.host is None,
        url.host matches Some(host) ==> url@.host == Some(host@),
        urls@.on_frame == urls.on_frame@,
        urls@.on_disconnect == urls.on_disconnect@,
        query.on_frame is None ==> query@.on_frame is None,
        query.on_frame matches Some(text) ==> query@.on_frame == Some(text@),
        query.on_disconnect is None ==> query@.on_disconnect is None,
        query.on_disconnect matches Some(text) ==> query@.on_disconnect == Some(text@),
{
}

/// Header fields, rejections and routes are shown as they are.
pub proof fn law_answers_are_shown(
    text: String,
    answer: Rejection,
    route: Route,
    status: Status,
    message: Seq<char>,
)
    ensures
        Field::Missing@ == FieldView::Missing,
        Field::Opaque@ == FieldView::Opaque,
        Field::Text(text)@ == FieldView::Text(text@),
        answer@.status == answer.status,
        answer@.message == answer.message@,
        rejection(status, message).status == status,
        rejection(status, message).message == message,
        route@.method == route.method,
        route@.path == route.path@,
        route@.handler == route.handler,
{
}

/// Results are shown as what they hold, and rejections never as anything else.
pub proof fn law_results_are_shown(
    answer: Rejection,
    url: BackendUrl,
    urls: Urls,
    id: u128,
    text: bool,
    delivery: Delivery,
    message: Message,
)
    ensures
        url_result(Ok(url)) == Ok::<BackendUrlView, RejectionView>(url@),
        url_result(Err(answer)) == Err::<BackendUrlView, RejectionView>(answer@),
        urls_result(Ok(urls)) == Ok::<UrlsView, RejectionView>(urls@),
        urls_result(Err(answer)) == Err::<UrlsView, RejectionView>(answer@),
        id_result(Ok(id)) == Ok::<u128, RejectionView>(id),
        id_result(Err(answer)) == Err::<u128, RejectionView>(answer@),
        text_result(Ok(text)) == Ok::<bool, RejectionView>(text),
        text_result(Err(answer)) == Err::<bool, RejectionView>(answer@),
        delivery_result(Ok(delivery)) == Ok::<Delivery, RejectionView>(delivery),
        delivery_result(Err(answer)) == Err::<Delivery, RejectionView>(answer@),
        message_result(Ok(message)) == Ok::<MessageView, RejectionView>(message@),
        message_result(Err(answer)) == Err::<MessageView, RejectionView>(answer@),
{
}

/// Connections are shown with their sink and their group.
pub proof fn law_connections_are_shown(connection: Connection, sink: u64, group: Option<String>)
    ensures
        connection@.sink == connection.sink,
        connection.group is None ==> connection@.group is None,
        connection.group matches Some(name) ==> connection@.group == Some(name@),
        entry_view((sink, group)) == (Connection { sink, group })@,
{
}

/// Frames, and the parts of a request's body, are shown as what they hold.
pub proof fn law_frames_are_shown(text: String, bytes: Vec<u8>)
    ensures
        Message::Text(text)@ == MessageView::Text(text@),
        Message::Binary(bytes)@ == MessageView::Binary(bytes@),
        Message::Ping(bytes)@ == MessageView::Ping(bytes@),
        Message::Pong(bytes)@ == MessageView::Pong(bytes@),
        Message::Close@ == MessageView::Close,
        Chunk::Bytes(bytes)@ == ChunkView::Bytes(bytes@),
        Chunk::End@ == ChunkView::End,
        Chunk::Failed@ == ChunkView::Failed,
        body_of(Ok(bytes)) == Ok::<Seq<u8>, BodyError>(bytes@),
        body_of(Err(BodyError)) == Err::<Seq<u8>, BodyError>(BodyError),
        Progress::More(bytes)@ == ProgressView::More(bytes@),
        Progress::Done(Ok(bytes))@ == ProgressView::Done(Ok(bytes@)),
        Progress::Done(Err(BodyError))@ == ProgressView::Done(Err(BodyError)),
{
}

/// What is posted is shown with its URL, all of its header fields in order, and its
/// content.
pub proof fn law_posts_are_shown(post: Post)
    ensures
        post@.url == post.url@,
        post@.fields.len() == post.fields@.len(),
        forall|i: int|
            0 <= i < post.fields@.len() ==> (#[trigger] post@.fields[i]).0 == post.fields@[i].0@
                && post@.fields[i].1 == post.fields@[i].1@,
        post.body is None ==> post@.body is None,
        post.body matches Some(bytes) ==> post@.body == Some(bytes@),
{
}

/// What a session is told and what it asks for is shown as what it is.
pub proof fn law_events_are_shown(
    message: Message,
    incoming: Incoming,
    answer: Option<u16>,
    closed: bool,
    post: Post,
    sink: u64,
    result: Result<(), ReceiveError>,
)
    ensures
        Incoming::Message(message)@ == IncomingView::Message(message@),
        Incoming::Ended@ == IncomingView::Ended,
        Incoming::Failed@ == IncomingView::Failed,
        Event::Received(incoming)@ == EventView::Received(incoming@),
        Event::Posted(answer)@ == EventView::Posted(answer),
        Event::Closed(closed)@ == EventView::Closed(closed),
        Event::Notified(answer)@ == EventView::Notified(answer),
        Action::Receive@ == ActionView::Receive,
        Action::Post(post)@ == ActionView::Post(post@),
        (Action::Close { sink, result })@ == (ActionView::Close { result }),
        Action::Notify(post)@ == ActionView::Notify(post@),
        Action::Finish@ == ActionView::Finish,
        Step::Next@ == StepView::Next,
        Step::Post(post)@ == StepView::Post(post@),
        Step::Return(result)@ == StepView::Return(result),
{
}

} // verus!
