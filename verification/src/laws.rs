//! What holds of the server as a whole.
use crate::config::callback_url;
use crate::connections::{connection_under, no_connections, ConnectionView};
use crate::fields::FieldView;
use crate::ids::{id_of, id_text, law_id_text_is_injective, law_id_text_is_parsed_back};
use crate::message::MessageView;
use crate::reply::{RejectionView, Status};
use crate::router::send_route;
use crate::send::{
    addressed, composed, is_text, named_connection, unknown_connection, Delivery, BINARY,
    CONTENT_TYPE, GROUP, TEXT,
};
use crate::serve::{
    opened, ActionView, EventView, IncomingView, Phase, PostView, ReceiveError,
    SessionView, StepView, SEND,
};
use crate::urls::{requested_urls, ConnectQueryView, UrlsView};
use vstd::prelude::*;
use vstd::utf8::*;

pub mod connecting;
pub mod sending;
pub mod serving;
pub mod shown;

verus! {

/// Different connections of a server have different callback URLs.
pub proof fn law_callback_urls_differ(base_url: Seq<char>, a: u128, b: u128)
    requires
        a != b,
    ensures
        callback_url(base_url, a) != callback_url(base_url, b),
{
    if callback_url(base_url, a) == callback_url(base_url, b) {
        let n = (base_url + "send/"@).len() as int;
        assert(callback_url(base_url, a).skip(n) =~= id_text(a));
        assert(callback_url(base_url, b).skip(n) =~= id_text(b));
        law_id_text_is_injective(a, b);
    }
}

/// Where the server's own URL ends in a slash, as a URL without a path does, the
/// path of a callback URL is that of the route for sending, with a parameter that
/// names the connection.
pub proof fn law_callback_url_leads_back(origin: Seq<char>, id: u128)
    ensures
        send_route().path == "/send/"@ + ":id"@,
        callback_url(origin + "/"@, id) == origin + ("/send/"@ + id_text(id)),
        named_connection(id_of(id_text(id))) == Ok::<u128, RejectionView>(id),
{
    reveal_strlit("/send/:id");
    reveal_strlit("/send/");
    reveal_strlit(":id");
    reveal_strlit("/");
    reveal_strlit("send/");
    assert("/send/:id"@ =~= "/send/"@ + ":id"@);
    assert("/send/"@ =~= "/"@ + "send/"@);
    assert(callback_url(origin + "/"@, id) =~= origin + ("/send/"@ + id_text(id)));
    law_id_text_is_parsed_back(id);
}

/// As long as a connection is registered, a request to its identifier reaches its
/// sink, if it has a content type and repeats the connection's group.
pub proof fn law_registered_connection_is_reached(
    sinks: Map<u128, ConnectionView>,
    id: u128,
    text: bool,
    group: FieldView,
)
    requires
        sinks.contains_key(id),
        sinks[id].group is None || group == FieldView::Text(sinks[id].group->0),
    ensures
        addressed(id, Ok(text), connection_under(sinks, id), group) == Ok::<
            Delivery,
            RejectionView,
        >(Delivery { id, sink: sinks[id].sink, text }),
{
}

/// A connection that has been opened can be reached at once, under the group that
/// its posts name.
pub proof fn law_opened_connection_is_reached(
    sinks: Map<u128, ConnectionView>,
    base_url: Seq<char>,
    group_by_host: bool,
    id: u128,
    urls: UrlsView,
    sink: u64,
    text: bool,
    group: FieldView,
)
    requires
        ({
            let session = opened(base_url, group_by_host, id, urls);
            session.group is None || group == FieldView::Text(session.group->0)
        }),
    ensures
        ({
            let session = opened(base_url, group_by_host, id, urls);
            let registered = sinks.insert(id, ConnectionView { sink, group: session.group });
            addressed(id, Ok(text), connection_under(registered, id), group) == Ok::<
                Delivery,
                RejectionView,
            >(Delivery { id, sink, text })
        }),
{
}

/// A connection that is not registered, or no longer, is answered as unknown,
/// whatever the request says.
pub proof fn law_forgotten_connection_is_unknown(
    sinks: Map<u128, ConnectionView>,
    id: u128,
    text: bool,
    group: FieldView,
)
    ensures
        addressed(id, Ok(text), connection_under(sinks.remove(id), id), group) == Err::<
            Delivery,
            RejectionView,
        >(unknown_connection(id)),
{
}

/// Opening or forgetting a connection changes nothing for any other one.
pub proof fn law_connections_do_not_interfere(
    sinks: Map<u128, ConnectionView>,
    id: u128,
    connection: ConnectionView,
    other: u128,
)
    requires
        other != id,
    ensures
        connection_under(sinks.insert(id, connection), other) == connection_under(sinks, other),
        connection_under(sinks.remove(id), other) == connection_under(sinks, other),
{
}

/// With grouping, a request that does not repeat the connection's group reaches no
/// sink.
pub proof fn law_group_is_required(
    id: u128,
    connection: ConnectionView,
    text: Result<bool, RejectionView>,
    group: FieldView,
)
    requires
        connection.group is Some,
        group != FieldView::Text(connection.group->0),
    ensures
        addressed(id, text, Some(connection), group) is Err,
{
}

/// Only URLs in which the allowlist finds a match are ever accepted.
pub proof fn law_only_allowed_urls(
    accepted: Set<Seq<char>>,
    query: ConnectQueryView,
    fields: Map<Seq<char>, Seq<Seq<u8>>>,
)
    ensures
        requested_urls(accepted, query, fields) matches Ok(urls) ==> accepted.contains(
            urls.on_frame.text,
        ) && accepted.contains(urls.on_disconnect.text),
{
}

/// An allowlist that finds a match nowhere turns every client down.
pub proof fn law_empty_allowlist_rejects_everything(
    query: ConnectQueryView,
    fields: Map<Seq<char>, Seq<Seq<u8>>>,
)
    ensures
        requested_urls(Set::empty(), query, fields) is Err,
{
}

/// A client that is turned down is told that its request is bad or forbidden.
pub proof fn law_connect_rejections(
    accepted: Set<Seq<char>>,
    query: ConnectQueryView,
    fields: Map<Seq<char>, Seq<Seq<u8>>>,
)
    ensures
        requested_urls(accepted, query, fields) matches Err(rejection) ==> rejection.status
            == Status::BadRequest || rejection.status == Status::Forbidden,
{
}

/// A client that names both URLs in its query is answered the same whatever its
/// header fields say.
pub proof fn law_query_goes_before_header(
    accepted: Set<Seq<char>>,
    query: ConnectQueryView,
    fields: Map<Seq<char>, Seq<Seq<u8>>>,
    others: Map<Seq<char>, Seq<Seq<u8>>>,
)
    requires
        query.on_frame is Some,
        query.on_disconnect is Some,
    ensures
        requested_urls(accepted, query, fields) == requested_urls(accepted, query, others),
{
}

/// What is posted for a frame makes the same frame again when it is posted to a
/// callback URL.
pub proof fn law_frames_are_echoed(session: SessionView, message: MessageView)
    requires
        message is Text || message is Binary,
    ensures
        session.received(IncomingView::Message(message)) matches StepView::Post(post) && {
            &&& post.fields.last().0 == CONTENT_TYPE@
            &&& is_text(FieldView::Text(post.fields.last().1)) is Ok
            &&& post.body is Some
            &&& composed(
                is_text(FieldView::Text(post.fields.last().1))->Ok_0,
                Ok(post.body->0),
            ) == Ok::<
                MessageView,
                RejectionView,
            >(message)
        },
{
    reveal_strlit("text/plain;charset=UTF-8");
    reveal_strlit("application/octet-stream");
    assert(TEXT@[0] != BINARY@[0]);
    match message {
        MessageView::Text(text) => {
            encode_utf8_valid_utf8(text);
            encode_utf8_decode_utf8(text);
        },
        _ => {},
    }
}

/// Whether each event is one that the session waits for when it happens.
pub open spec fn awaited(session: SessionView, events: Seq<EventView>) -> bool
    decreases events.len(),
{
    events.len() > 0 ==> session.awaits(events[0]) && awaited(
        session.after(events[0]).0,
        events.drop_first(),
    )
}

/// The session after `events`.
pub open spec fn session_after(session: SessionView, events: Seq<EventView>) -> SessionView
    decreases events.len(),
{
    if events.len() == 0 {
        session
    } else {
        session_after(session.after(events[0]).0, events.drop_first())
    }
}

/// What the session asks for in the course of `events`.
pub open spec fn actions_in(session: SessionView, events: Seq<EventView>) -> Seq<ActionView>
    decreases events.len(),
{
    if events.len() == 0 {
        Seq::empty()
    } else {
        seq![session.after(events[0]).1] + actions_in(
            session.after(events[0]).0,
            events.drop_first(),
        )
    }
}

/// The frames that are posted.
pub open spec fn posted(actions: Seq<ActionView>) -> Seq<PostView>
    decreases actions.len(),
{
    if actions.len() == 0 {
        Seq::empty()
    } else {
        (match actions[0] {
            ActionView::Post(post) => seq![post],
            _ => Seq::empty(),
        }) + posted(actions.drop_first())
    }
}

/// The news of the connection's end that is posted.
pub open spec fn notified(actions: Seq<ActionView>) -> Seq<PostView>
    decreases actions.len(),
{
    if actions.len() == 0 {
        Seq::empty()
    } else {
        (match actions[0] {
            ActionView::Notify(post) => seq![post],
            _ => Seq::empty(),
        }) + notified(actions.drop_first())
    }
}

/// The reasons for which the sink is closed.
pub open spec fn closed(actions: Seq<ActionView>) -> Seq<Result<(), ReceiveError>>
    decreases actions.len(),
{
    if actions.len() == 0 {
        Seq::empty()
    } else {
        (match actions[0] {
            ActionView::Close { result } => seq![result],
            _ => Seq::empty(),
        }) + closed(actions.drop_first())
    }
}

/// What the session asks for next, after `events` have happened one after another,
/// is what it asked for before and then what it asks for from there on.
proof fn lemma_one_after_another(session: SessionView, first: Seq<EventView>, later: Seq<EventView>)
    ensures
        awaited(session, first + later) == (awaited(session, first) && awaited(
            session_after(session, first),
            later,
        )),
        session_after(session, first + later) == session_after(
            session_after(session, first),
            later,
        ),
        actions_in(session, first + later) == actions_in(session, first) + actions_in(
            session_after(session, first),
            later,
        ),
    decreases first.len(),
{
    if first.len() == 0 {
        assert(first + later =~= later);
        assert(actions_in(session, first) + actions_in(session, later) =~= actions_in(
            session,
            later,
        ));
    } else {
        let next = session.after(first[0]).0;
        lemma_one_after_another(next, first.drop_first(), later);
        assert((first + later).drop_first() =~= first.drop_first() + later);
        assert((first + later)[0] == first[0]);
        assert(actions_in(session, first + later) =~= actions_in(session, first) + actions_in(
            session_after(session, first),
            later,
        ));
    }
}

proof fn lemma_split_actions(first: Seq<ActionView>, later: Seq<ActionView>)
    ensures
        posted(first + later) == posted(first) + posted(later),
        notified(first + later) == notified(first) + notified(later),
        closed(first + later) == closed(first) + closed(later),
    decreases first.len(),
{
    if first.len() == 0 {
        assert(first + later =~= later);
        assert(posted(first) + posted(later) =~= posted(later));
        assert(notified(first) + notified(later) =~= notified(later));
        assert(closed(first) + closed(later) =~= closed(later));
    } else {
        lemma_split_actions(first.drop_first(), later);
        assert((first + later).drop_first() =~= first.drop_first() + later);
        assert((first + later)[0] == first[0]);
        assert(posted(first + later) =~= posted(first) + posted(later));
        assert(notified(first + later) =~= notified(first) + notified(later));
        assert(closed(first + later) =~= closed(first) + closed(later));
    }
}

/// What happens where a client sends `messages` and the backend answers those with
/// content with the corresponding `statuses`.
pub open spec fn answered_messages(
    messages: Seq<MessageView>,
    statuses: Seq<u16>,
) -> Seq<EventView>
    decreases messages.len(),
{
    if messages.len() == 0 {
        Seq::empty()
    } else {
        (if messages[0] is Text || messages[0] is Binary {
            seq![
                EventView::Received(IncomingView::Message(messages[0])),
                EventView::Posted(Some(statuses[0])),
            ]
        } else {
            seq![EventView::Received(IncomingView::Message(messages[0]))]
        }) + answered_messages(messages.drop_first(), statuses.drop_first())
    }
}

/// Whether `statuses` has a status for each of `messages` that is not the status of an
/// error.
pub open spec fn all_accepted(messages: Seq<MessageView>, statuses: Seq<u16>) -> bool {
    &&& statuses.len() == messages.len()
    &&& forall|i: int|
        0 <= i < statuses.len() ==> #[trigger] statuses[i] < 400 || statuses[i] >= 600
}

/// The posts for the frames with content among `messages`, in their order.
pub open spec fn forwarded(session: SessionView, messages: Seq<MessageView>) -> Seq<PostView>
    decreases messages.len(),
{
    if messages.len() == 0 {
        Seq::empty()
    } else {
        (match messages[0] {
            MessageView::Text(text) => seq![session.frame_post(TEXT@, encode_utf8(text))],
            MessageView::Binary(bytes) => seq![session.frame_post(BINARY@, bytes)],
            _ => Seq::empty(),
        }) + forwarded(session, messages.drop_first())
    }
}

/// Every frame with content that a client sends is posted to its backend, once and
/// in order, as long as the backend accepts them and the client goes on.
pub proof fn law_frames_are_forwarded(
    session: SessionView,
    messages: Seq<MessageView>,
    statuses: Seq<u16>,
)
    requires
        session.phase == Phase::Receiving,
        !messages.contains(MessageView::Close),
        all_accepted(messages, statuses),
    ensures
        awaited(session, answered_messages(messages, statuses)),
        session_after(session, answered_messages(messages, statuses)) == session,
        posted(actions_in(session, answered_messages(messages, statuses))) == forwarded(
            session,
            messages,
        ),
        notified(actions_in(session, answered_messages(messages, statuses))) == Seq::<
            PostView,
        >::empty(),
        closed(actions_in(session, answered_messages(messages, statuses))) == Seq::<
            Result<(), ReceiveError>,
        >::empty(),
    decreases messages.len(),
{
    if messages.len() > 0 {
        let rest = messages.drop_first();
        assert forall|i: int| 0 <= i < rest.len() implies rest[i] != MessageView::Close by {
            assert(messages[i + 1] != MessageView::Close);
        }
        assert(messages[0] != MessageView::Close);
        let later = statuses.drop_first();
        law_frames_are_forwarded(session, rest, later);
        let first: Seq<EventView> = if messages[0] is Text || messages[0] is Binary {
            seq![
                EventView::Received(IncomingView::Message(messages[0])),
                EventView::Posted(Some(statuses[0])),
            ]
        } else {
            seq![EventView::Received(IncomingView::Message(messages[0]))]
        };
        lemma_one_after_another(session, first, answered_messages(rest, later));
        lemma_split_actions(
            actions_in(session, first),
            actions_in(session, answered_messages(rest, later)),
        );
        lemma_first_message(session, messages[0], statuses[0], first);
    }
}

proof fn lemma_first_message(
    session: SessionView,
    message: MessageView,
    status: u16,
    events: Seq<EventView>,
)
    requires
        session.phase == Phase::Receiving,
        message != MessageView::Close,
        status < 400 || status >= 600,
        events == if message is Text || message is Binary {
            seq![
                EventView::Received(IncomingView::Message(message)),
                EventView::Posted(Some(status)),
            ]
        } else {
            seq![EventView::Received(IncomingView::Message(message))]
        },
    ensures
        awaited(session, events),
        session_after(session, events) == session,
        posted(actions_in(session, events)) == (match message {
            MessageView::Text(text) => seq![session.frame_post(TEXT@, encode_utf8(text))],
            MessageView::Binary(bytes) => seq![session.frame_post(BINARY@, bytes)],
            _ => Seq::<PostView>::empty(),
        }),
        notified(actions_in(session, events)) == Seq::<PostView>::empty(),
        closed(actions_in(session, events)) == Seq::<Result<(), ReceiveError>>::empty(),
{
    reveal_with_fuel(awaited, 3);
    reveal_with_fuel(session_after, 3);
    reveal_with_fuel(actions_in, 3);
    reveal_with_fuel(posted, 3);
    reveal_with_fuel(notified, 3);
    reveal_with_fuel(closed, 3);
    let actions = actions_in(session, events);
    if message is Text || message is Binary {
        assert(actions =~= seq![
            session.after(events[0]).1,
            ActionView::Receive,
        ]);
        assert(posted(actions) =~= seq![actions[0]->Post_0]);
    } else {
        assert(actions =~= seq![ActionView::Receive]);
    }
    assert(notified(actions) =~= Seq::<PostView>::empty());
    assert(closed(actions) =~= Seq::<Result<(), ReceiveError>>::empty());
}

/// What happens where no more frames are taken from a client: the last thing that
/// was received, the end of the sink and the answer to the news of it.
pub open spec fn ending(last: IncomingView, close: bool, answer: Option<u16>) -> Seq<EventView> {
    seq![EventView::Received(last), EventView::Closed(close), EventView::Notified(answer)]
}

/// A connection from its beginning to its end: all frames with content are posted
/// in order, then the sink is closed, and then the backend is told of the end, no
/// matter whether the client closed the connection, left or could not be read from,
/// and whether the sink was closed without an error.
pub proof fn law_whole_connection(
    session: SessionView,
    messages: Seq<MessageView>,
    statuses: Seq<u16>,
    last: IncomingView,
    close: bool,
    answer: Option<u16>,
)
    requires
        session.phase == Phase::Receiving,
        !messages.contains(MessageView::Close),
        all_accepted(messages, statuses),
        last == IncomingView::Message(MessageView::Close) || last == IncomingView::Ended || last
            == IncomingView::Failed,
    ensures
        ({
            let events = answered_messages(messages, statuses) + ending(last, close, answer);
            let actions = actions_in(session, events);
            &&& awaited(session, events)
            &&& session_after(session, events).phase == Phase::Done
            &&& posted(actions) == forwarded(session, messages)
            &&& closed(actions) == seq![
                if last == IncomingView::Failed {
                    Err::<(), ReceiveError>(ReceiveError::Receiving)
                } else {
                    Ok(())
                },
            ]
            &&& notified(actions) == seq![session.disconnect_post()]
        }),
{
    let events = ending(last, close, answer);
    law_frames_are_forwarded(session, messages, statuses);
    lemma_one_after_another(session, answered_messages(messages, statuses), events);
    lemma_split_actions(
        actions_in(session, answered_messages(messages, statuses)),
        actions_in(session, events),
    );
    reveal_with_fuel(awaited, 4);
    reveal_with_fuel(session_after, 4);
    reveal_with_fuel(actions_in, 4);
    reveal_with_fuel(posted, 4);
    reveal_with_fuel(notified, 4);
    reveal_with_fuel(closed, 4);
    let actions = actions_in(session, events);
    assert(actions =~= seq![
        session.after(events[0]).1,
        ActionView::Notify(session.disconnect_post()),
        ActionView::Finish,
    ]);
    assert(posted(actions) =~= Seq::<PostView>::empty());
    assert(notified(actions) =~= seq![session.disconnect_post()]);
    assert(closed(actions) =~= seq![actions[0]->result]);
}

/// A frame that the backend does not accept, or that does not reach it, is the last
/// one: the connection is closed and the backend is told of the end.
pub proof fn law_refused_frame_ends_the_connection(
    session: SessionView,
    messages: Seq<MessageView>,
    statuses: Seq<u16>,
    refused: MessageView,
    refusal: Option<u16>,
    close: bool,
    answer: Option<u16>,
)
    requires
        session.phase == Phase::Receiving,
        !messages.contains(MessageView::Close),
        all_accepted(messages, statuses),
        refused is Text || refused is Binary,
        refusal matches Some(status) ==> 400 <= status < 600,
    ensures
        ({
            let events = answered_messages(messages, statuses) + seq![
                EventView::Received(IncomingView::Message(refused)),
                EventView::Posted(refusal),
                EventView::Closed(close),
                EventView::Notified(answer),
            ];
            let actions = actions_in(session, events);
            &&& awaited(session, events)
            &&& session_after(session, events).phase == Phase::Done
            &&& posted(actions) == forwarded(session, messages) + forwarded(session, seq![refused])
            &&& closed(actions) == seq![Err::<(), ReceiveError>(ReceiveError::Posting)]
            &&& notified(actions) == seq![session.disconnect_post()]
        }),
{
    let events = seq![
        EventView::Received(IncomingView::Message(refused)),
        EventView::Posted(refusal),
        EventView::Closed(close),
        EventView::Notified(answer),
    ];
    law_frames_are_forwarded(session, messages, statuses);
    lemma_one_after_another(session, answered_messages(messages, statuses), events);
    lemma_split_actions(
        actions_in(session, answered_messages(messages, statuses)),
        actions_in(session, events),
    );
    reveal_with_fuel(awaited, 5);
    reveal_with_fuel(session_after, 5);
    reveal_with_fuel(actions_in, 5);
    reveal_with_fuel(posted, 5);
    reveal_with_fuel(notified, 5);
    reveal_with_fuel(closed, 5);
    reveal_with_fuel(forwarded, 2);
    let actions = actions_in(session, events);
    assert(actions =~= seq![
        session.after(events[0]).1,
        ActionView::Close { result: Err(ReceiveError::Posting) },
        ActionView::Notify(session.disconnect_post()),
        ActionView::Finish,
    ]);
    assert(posted(actions) =~= forwarded(session, seq![refused]));
    assert(notified(actions) =~= seq![session.disconnect_post()]);
    assert(closed(actions) =~= seq![Err::<(), ReceiveError>(ReceiveError::Posting)]);
}

/// Once no more frames are taken from a client, nothing is posted for frames
/// any more, and the connection stays forgotten.
pub proof fn law_nothing_is_forwarded_after_the_end(session: SessionView, events: Seq<EventView>)
    requires
        !session.is_open(),
        awaited(session, events),
    ensures
        posted(actions_in(session, events)) == Seq::<PostView>::empty(),
        closed(actions_in(session, events)) == Seq::<Result<(), ReceiveError>>::empty(),
        !session_after(session, events).is_open(),
    decreases events.len(),
{
    if events.len() > 0 {
        let next = session.after(events[0]).0;
        law_nothing_is_forwarded_after_the_end(next, events.drop_first());
        let actions = actions_in(session, events);
        assert(actions.drop_first() =~= actions_in(next, events.drop_first()));
        assert(posted(actions) =~= Seq::<PostView>::empty());
        assert(closed(actions) =~= Seq::<Result<(), ReceiveError>>::empty());
    }
}

/// However a connection goes, it has been closed once and its backend has been told
/// of its end once when it is done, and not before the sink was closed.
pub proof fn law_end_is_told_once(session: SessionView, events: Seq<EventView>)
    requires
        session.is_open(),
        awaited(session, events),
    ensures
        ({
            let actions = actions_in(session, events);
            let phase = session_after(session, events).phase;
            &&& closed(actions).len() == if session_after(session, events).is_open() {
                0nat
            } else {
                1
            }
            &&& notified(actions) == if phase == Phase::Notifying || phase == Phase::Done {
                seq![session.disconnect_post()]
            } else {
                Seq::empty()
            }
        }),
    decreases events.len(),
{
    if events.len() > 0 {
        let next = session.after(events[0]).0;
        let rest = events.drop_first();
        let actions = actions_in(session, events);
        assert(actions.drop_first() =~= actions_in(next, rest));
        if next.is_open() {
            law_end_is_told_once(next, rest);
            assert(notified(actions) =~= notified(actions_in(next, rest)));
            assert(closed(actions) =~= closed(actions_in(next, rest)));
        } else {
            law_nothing_is_forwarded_after_the_end(next, rest);
            lemma_end_after_close(next, rest);
            assert(notified(actions) =~= notified(actions_in(next, rest)));
            assert(closed(actions) =~= seq![actions[0]->result]);
        }
    }
}

proof fn lemma_end_after_close(session: SessionView, events: Seq<EventView>)
    requires
        session.phase == Phase::Closing,
        awaited(session, events),
    ensures
        notified(actions_in(session, events)) == {
            let phase = session_after(session, events).phase;
            if phase == Phase::Notifying || phase == Phase::Done {
                seq![session.disconnect_post()]
            } else {
                Seq::empty()
            }
        },
{
    reveal_with_fuel(awaited, 4);
    reveal_with_fuel(session_after, 4);
    reveal_with_fuel(actions_in, 4);
    reveal_with_fuel(notified, 4);
    if events.len() > 2 {
        let last = events.drop_first().drop_first();
        assert(!session.after(events[0]).0.after(events.drop_first()[0]).0.awaits(last[0]));
    } else {
        let actions = actions_in(session, events);
        if events.len() == 1 {
            assert(actions =~= seq![ActionView::Notify(session.disconnect_post())]);
            assert(notified(actions) =~= seq![session.disconnect_post()]);
        } else if events.len() == 2 {
            assert(actions =~= seq![
                ActionView::Notify(session.disconnect_post()),
                ActionView::Finish,
            ]);
            assert(notified(actions) =~= seq![session.disconnect_post()]);
        }
    }
}

/// Everything that is posted for a connection goes to one of its two URLs and
/// carries its callback URL; frames go to the one and the news of the end to the
/// other.
pub proof fn law_posts_carry_the_callback_url(
    session: SessionView,
    events: Seq<EventView>,
    i: int,
)
    requires
        0 <= i < actions_in(session, events).len(),
    ensures
        actions_in(session, events)[i] matches ActionView::Post(post) ==> post.url
            == session.urls.on_frame.text && post.fields.contains((SEND@, session.send_url)),
        actions_in(session, events)[i] matches ActionView::Notify(post) ==> post.url
            == session.urls.on_disconnect.text && post.fields.contains((SEND@, session.send_url)),
    decreases events.len(),
{
    if i == 0 {
        match actions_in(session, events)[i] {
            ActionView::Post(post) => {
                assert(post.fields[0] == (SEND@, session.send_url));
            },
            ActionView::Notify(post) => {
                assert(post.fields[0] == (SEND@, session.send_url));
            },
            _ => {},
        }
    } else {
        law_posts_carry_the_callback_url(
            session.after(events[0]).0,
            events.drop_first(),
            i - 1,
        );
    }
}

/// With grouping, everything that is posted for a connection names its group: the
/// host of the URL that frames are posted to.
pub proof fn law_posts_name_the_group(
    base_url: Seq<char>,
    id: u128,
    urls: UrlsView,
    events: Seq<EventView>,
    i: int,
)
    requires
        urls.on_frame.host is Some,
        0 <= i < actions_in(opened(base_url, true, id, urls), events).len(),
    ensures
        match actions_in(opened(base_url, true, id, urls), events)[i] {
            ActionView::Post(post) => post.fields.contains((GROUP@, urls.on_frame.host->0)),
            ActionView::Notify(post) => post.fields.contains((GROUP@, urls.on_frame.host->0)),
            _ => true,
        },
{
    lemma_posts_name_the_group(opened(base_url, true, id, urls), events, i);
}

proof fn lemma_posts_name_the_group(session: SessionView, events: Seq<EventView>, i: int)
    requires
        session.group is Some,
        0 <= i < actions_in(session, events).len(),
    ensures
        match actions_in(session, events)[i] {
            ActionView::Post(post) => post.fields.contains((GROUP@, session.group->0)),
            ActionView::Notify(post) => post.fields.contains((GROUP@, session.group->0)),
            _ => true,
        },
    decreases events.len(),
{
    if i == 0 {
        match actions_in(session, events)[i] {
            ActionView::Post(post) => {
                assert(post.fields[1] == (GROUP@, session.group->0));
            },
            ActionView::Notify(post) => {
                assert(post.fields[1] == (GROUP@, session.group->0));
            },
            _ => {},
        }
    } else {
        lemma_posts_name_the_group(session.after(events[0]).0, events.drop_first(), i - 1);
    }
}

/// Whether the registered connections are those that are open among `sessions`,
/// under the groups that these name in their posts.
pub open spec fn in_step(
    sinks: Map<u128, ConnectionView>,
    sessions: Map<u128, SessionView>,
) -> bool {
    &&& forall|id: u128| #[trigger] sessions.contains_key(id) ==> sessions[id].id == id
    &&& forall|id: u128| #[trigger]
        sinks.contains_key(id) <==> sessions.contains_key(id) && sessions[id].is_open()
    &&& forall|id: u128| #[trigger]
        sinks.contains_key(id) ==> sinks[id].group == sessions[id].group
}

/// A server that has served nobody has no connection registered.
pub proof fn law_start_is_in_step()
    ensures
        in_step(no_connections(), Map::empty()),
{
}

/// The registered connections stay those that are open when a connection is opened
/// under an identifier that no open one has.
pub proof fn law_opening_keeps_in_step(
    sinks: Map<u128, ConnectionView>,
    sessions: Map<u128, SessionView>,
    base_url: Seq<char>,
    group_by_host: bool,
    id: u128,
    urls: UrlsView,
    sink: u64,
)
    requires
        in_step(sinks, sessions),
        !sinks.contains_key(id),
    ensures
        ({
            let session = opened(base_url, group_by_host, id, urls);
            in_step(
                sinks.insert(id, ConnectionView { sink, group: session.group }),
                sessions.insert(id, session),
            )
        }),
{
}

/// The registered connections stay those that are open whatever happens to one of
/// them, so that a connection can be sent to exactly as long as frames are taken
/// from its client.
pub proof fn law_stepping_keeps_in_step(
    sinks: Map<u128, ConnectionView>,
    sessions: Map<u128, SessionView>,
    id: u128,
    event: EventView,
)
    requires
        in_step(sinks, sessions),
        sessions.contains_key(id),
        sessions[id].awaits(event),
    ensures
        sessions[id].is_open() ==> sinks.contains_key(id),
        ({
            let (session, action) = sessions[id].after(event);
            in_step(
                if action is Close {
                    sinks.remove(id)
                } else {
                    sinks
                },
                sessions.insert(id, session),
            )
        }),
{
}

/// What a server knows of its connections.
pub struct ServerView {
    /// The registered connections.
    pub sinks: Map<u128, ConnectionView>,
    /// The sessions by identifier, those included that are done.
    pub sessions: Map<u128, SessionView>,
}

/// What can happen to a server.
pub enum Happening {
    /// A connection is opened, whose frames go to `sink`.
    Opened { id: u128, urls: UrlsView, sink: u64 },
    /// The session `id` is told what came of its last action.
    Told { id: u128, event: EventView },
}

impl Happening {
    /// Whether the connection `id` is opened.
    pub open spec fn opens(self, id: u128) -> bool {
        self matches Happening::Opened { id: opened_id, .. } && opened_id == id
    }
}

impl ServerView {
    /// Whether this can happen next: connections are opened under identifiers that
    /// no open connection has, and sessions are told what they wait for.
    pub open spec fn allows(self, happening: Happening) -> bool {
        match happening {
            Happening::Opened { id, .. } => !self.sinks.contains_key(id),
            Happening::Told { id, event } => self.sessions.contains_key(id)
                && self.sessions[id].awaits(event),
        }
    }

    /// The server once this has happened, where `base_url` is its own URL.
    pub open spec fn after(
        self,
        base_url: Seq<char>,
        group_by_host: bool,
        happening: Happening,
    ) -> ServerView {
        match happening {
            Happening::Opened { id, urls, sink } => {
                let session = opened(base_url, group_by_host, id, urls);
                ServerView {
                    sinks: self.sinks.insert(id, ConnectionView { sink, group: session.group }),
                    sessions: self.sessions.insert(id, session),
                }
            },
            Happening::Told { id, event } => {
                let (session, action) = self.sessions[id].after(event);
                ServerView {
                    sinks: if action is Close {
                        self.sinks.remove(id)
                    } else {
                        self.sinks
                    },
                    sessions: self.sessions.insert(id, session),
                }
            },
        }
    }
}

/// Whether all of `course` can happen to the server, one after another.
pub open spec fn can_happen(
    server: ServerView,
    base_url: Seq<char>,
    group_by_host: bool,
    course: Seq<Happening>,
) -> bool
    decreases course.len(),
{
    course.len() > 0 ==> server.allows(course[0]) && can_happen(
        server.after(base_url, group_by_host, course[0]),
        base_url,
        group_by_host,
        course.drop_first(),
    )
}

/// The server after all of `course` has happened.
pub open spec fn server_after(
    server: ServerView,
    base_url: Seq<char>,
    group_by_host: bool,
    course: Seq<Happening>,
) -> ServerView
    decreases course.len(),
{
    if course.len() == 0 {
        server
    } else {
        server_after(
            server.after(base_url, group_by_host, course[0]),
            base_url,
            group_by_host,
            course.drop_first(),
        )
    }
}

/// What the session `id` is told in the course of events.
pub open spec fn events_of(id: u128, course: Seq<Happening>) -> Seq<EventView>
    decreases course.len(),
{
    if course.len() == 0 {
        Seq::empty()
    } else {
        (match course[0] {
            Happening::Told { id: told, event } if told == id => seq![event],
            _ => Seq::empty(),
        }) + events_of(id, course.drop_first())
    }
}

/// The registered connections stay those that are open, under their groups, over every
/// course of events.
pub proof fn law_course_keeps_in_step(
    server: ServerView,
    base_url: Seq<char>,
    group_by_host: bool,
    course: Seq<Happening>,
)
    requires
        in_step(server.sinks, server.sessions),
        can_happen(server, base_url, group_by_host, course),
    ensures
        ({
            let later = server_after(server, base_url, group_by_host, course);
            in_step(later.sinks, later.sessions)
        }),
    decreases course.len(),
{
    if course.len() > 0 {
        lemma_happening_keeps_in_step(server, base_url, group_by_host, course[0]);
        law_course_keeps_in_step(
            server.after(base_url, group_by_host, course[0]),
            base_url,
            group_by_host,
            course.drop_first(),
        );
    }
}

proof fn lemma_happening_keeps_in_step(
    server: ServerView,
    base_url: Seq<char>,
    group_by_host: bool,
    happening: Happening,
)
    requires
        in_step(server.sinks, server.sessions),
        server.allows(happening),
    ensures
        ({
            let later = server.after(base_url, group_by_host, happening);
            in_step(later.sinks, later.sessions)
        }),
{
    match happening {
        Happening::Opened { id, urls, sink } => {
            law_opening_keeps_in_step(
                server.sinks,
                server.sessions,
                base_url,
                group_by_host,
                id,
                urls,
                sink,
            );
        },
        Happening::Told { id, event } => {
            law_stepping_keeps_in_step(server.sinks, server.sessions, id, event);
        },
    }
}

/// A connection stays registered with the sink and the group that it was opened with
/// for as long as it is open, and is not registered any more afterwards, whatever
/// happens to it and however many others are opened and end meanwhile, as long as none
/// of these gets its identifier. Its session goes by what it is told alone.
pub proof fn law_connection_stays_as_opened(
    server: ServerView,
    base_url: Seq<char>,
    group_by_host: bool,
    id: u128,
    urls: UrlsView,
    sink: u64,
    course: Seq<Happening>,
)
    requires
        in_step(server.sinks, server.sessions),
        can_happen(
            server,
            base_url,
            group_by_host,
            seq![Happening::Opened { id, urls, sink }] + course,
        ),
        forall|i: int| 0 <= i < course.len() ==> !(#[trigger] course[i]).opens(id),
    ensures
        ({
            let later = server_after(
                server,
                base_url,
                group_by_host,
                seq![Happening::Opened { id, urls, sink }] + course,
            );
            let first = opened(base_url, group_by_host, id, urls);
            let session = session_after(first, events_of(id, course));
            &&& awaited(first, events_of(id, course))
            &&& later.sessions.contains_key(id)
            &&& later.sessions[id] == session
            &&& session.group == first.group
            &&& connection_under(later.sinks, id) == if session.is_open() {
                Some(ConnectionView { sink, group: session.group })
            } else {
                None
            }
        }),
{
    let whole = seq![Happening::Opened { id, urls, sink }] + course;
    assert(whole[0] == Happening::Opened { id, urls, sink });
    assert(whole.drop_first() =~= course);
    let first = opened(base_url, group_by_host, id, urls);
    lemma_happening_keeps_in_step(server, base_url, group_by_host, whole[0]);
    lemma_stays_as_opened(
        server.after(base_url, group_by_host, whole[0]),
        base_url,
        group_by_host,
        first,
        sink,
        course,
    );
}

proof fn lemma_stays_as_opened(
    server: ServerView,
    base_url: Seq<char>,
    group_by_host: bool,
    session: SessionView,
    sink: u64,
    course: Seq<Happening>,
)
    requires
        in_step(server.sinks, server.sessions),
        can_happen(server, base_url, group_by_host, course),
        forall|i: int| 0 <= i < course.len() ==> !(#[trigger] course[i]).opens(session.id),
        server.sessions.contains_key(session.id),
        server.sessions[session.id] == session,
        session.is_open() ==> server.sinks[session.id].sink == sink,
    ensures
        ({
            let later = server_after(server, base_url, group_by_host, course);
            let events = events_of(session.id, course);
            let last = session_after(session, events);
            &&& awaited(session, events)
            &&& later.sessions.contains_key(session.id)
            &&& later.sessions[session.id] == last
            &&& last.group == session.group
            &&& connection_under(later.sinks, session.id) == if last.is_open() {
                Some(ConnectionView { sink, group: last.group })
            } else {
                None
            }
        }),
    decreases course.len(),
{
    let id = session.id;
    if course.len() > 0 {
        let happening = course[0];
        let rest = course.drop_first();
        let next = server.after(base_url, group_by_host, happening);
        lemma_happening_keeps_in_step(server, base_url, group_by_host, happening);
        assert(!course[0].opens(id));
        assert forall|i: int| 0 <= i < rest.len() implies !(#[trigger] rest[i]).opens(id) by {
            assert(!course[i + 1].opens(id));
        }
        lemma_stays_as_opened(next, base_url, group_by_host, next.sessions[id], sink, rest);
        let events = events_of(id, course);
        match happening {
            Happening::Told { id: told, event } if told == id => {
                assert(events[0] == event);
                assert(events.drop_first() =~= events_of(id, rest));
            },
            _ => {
                assert(events =~= events_of(id, rest));
            },
        }
    } else if session.is_open() {
        assert(server.sinks.contains_key(id));
    }
}

/// Whatever goes on at the server, as long as no other connection gets its identifier,
/// a request to a connection that repeats its group reaches the sink that the
/// connection was opened with while it is open, and is answered that there is no such
/// connection afterwards.
pub proof fn law_client_is_reached_while_open(
    server: ServerView,
    base_url: Seq<char>,
    group_by_host: bool,
    id: u128,
    urls: UrlsView,
    sink: u64,
    course: Seq<Happening>,
    text: bool,
    group: FieldView,
)
    requires
        in_step(server.sinks, server.sessions),
        can_happen(
            server,
            base_url,
            group_by_host,
            seq![Happening::Opened { id, urls, sink }] + course,
        ),
        forall|i: int| 0 <= i < course.len() ==> !(#[trigger] course[i]).opens(id),
        ({
            let session = opened(base_url, group_by_host, id, urls);
            session.group is None || group == FieldView::Text(session.group->0)
        }),
    ensures
        ({
            let later = server_after(
                server,
                base_url,
                group_by_host,
                seq![Happening::Opened { id, urls, sink }] + course,
            );
            addressed(id, Ok(text), connection_under(later.sinks, id), group)
                == if later.sessions[id].is_open() {
                Ok::<Delivery, RejectionView>(Delivery { id, sink, text })
            } else {
                Err(unknown_connection(id))
            }
        }),
{
    law_connection_stays_as_opened(server, base_url, group_by_host, id, urls, sink, course);
}

/// A connection that was accepted never makes the server post to a URL in which the
/// allowlist finds no match.
pub proof fn law_nothing_else_is_posted_to(
    accepted: Set<Seq<char>>,
    query: ConnectQueryView,
    fields: Map<Seq<char>, Seq<Seq<u8>>>,
    base_url: Seq<char>,
    group_by_host: bool,
    id: u128,
    events: Seq<EventView>,
    i: int,
)
    requires
        requested_urls(accepted, query, fields) is Ok,
        0 <= i < actions_in(
            opened(base_url, group_by_host, id, requested_urls(accepted, query, fields)->Ok_0),
            events,
        ).len(),
    ensures
        ({
            let urls = requested_urls(accepted, query, fields)->Ok_0;
            let session = opened(base_url, group_by_host, id, urls);
            match actions_in(session, events)[i] {
                ActionView::Post(post) => accepted.contains(post.url),
                ActionView::Notify(post) => accepted.contains(post.url),
                _ => true,
            }
        }),
{
    let urls = requested_urls(accepted, query, fields)->Ok_0;
    let session = opened(base_url, group_by_host, id, urls);
    law_only_allowed_urls(accepted, query, fields);
    law_posts_carry_the_callback_url(session, events, i);
}

} // verus!
