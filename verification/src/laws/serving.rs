//! What holds of a connection that is being served.
use crate::config::callback_url;
use crate::ids::{
    id_of, id_text, law_id_text_is_injective, law_id_text_is_one_segment,
    law_id_text_is_parsed_back,
};
use crate::laws::{actions_in, session_after};
use crate::message::MessageView;
use crate::reply::RejectionView;
use crate::send::named_connection;
use crate::serve::{
    is_accepted, opened, ActionView, EventView, IncomingView, Phase, PostView, ReceiveError,
    SessionView,
};
use crate::urls::UrlsView;
use vstd::prelude::*;
use vstd::utf8::*;

verus! {

/// A post is accepted if it is answered with a status below 400 or above 599, and
/// refused if it is answered with one of the others or not at all.
pub proof fn law_error_statuses_refuse(session: SessionView)
    ensures
        forall|status: u16| #[trigger] is_accepted(Some(status)) <==> status < 400 || status >= 600,
        !is_accepted(None),
        forall|status: u16|
            status < 400 ==> (#[trigger] session.after(EventView::Posted(Some(status)))).1
                == ActionView::Receive,
        forall|status: u16|
            status >= 600 ==> (#[trigger] session.after(EventView::Posted(Some(status)))).1
                == ActionView::Receive,
        forall|status: u16|
            400 <= status <= 599 ==> (#[trigger] session.after(EventView::Posted(Some(status)))).1
                == (ActionView::Close { result: Err(ReceiveError::Posting) }),
        session.after(EventView::Posted(None)).1 == (ActionView::Close {
            result: Err(ReceiveError::Posting),
        }),
{
}

/// A session takes over the connection's identifier and URLs as they are, begins by
/// receiving, and has a group only where connections are grouped. Its callback URL is
/// the server's own URL, `send/` and the identifier's text, whatever the settings and
/// the backend are.
pub proof fn law_session_is_opened_for_its_connection(
    base_url: Seq<char>,
    group_by_host: bool,
    id: u128,
    urls: UrlsView,
)
    ensures
        opened(base_url, group_by_host, id, urls).send_url == base_url + "send/"@ + id_text(id),
        callback_url(base_url, id) == base_url + "send/"@ + id_text(id),
        opened(base_url, group_by_host, id, urls).id == id,
        opened(base_url, group_by_host, id, urls).urls.on_frame == urls.on_frame,
        opened(base_url, group_by_host, id, urls).urls.on_disconnect == urls.on_disconnect,
        opened(base_url, group_by_host, id, urls).phase == Phase::Receiving,
        opened(base_url, false, id, urls).group is None,
        opened(base_url, true, id, urls).group == urls.on_frame.host,
{
}

/// The last segment of a connection's callback URL is parsed back to the connection's
/// identifier, and no other connection has the same callback URL, however either of
/// them was opened.
pub proof fn law_callback_url_names_its_connection(
    base_url: Seq<char>,
    group_by_host: bool,
    id: u128,
    urls: UrlsView,
    prefix: Seq<char>,
    segment: Seq<char>,
)
    ensures
        opened(base_url, group_by_host, id, urls).send_url == prefix + "/"@ + segment
            && !segment.contains('/') ==> named_connection(id_of(segment)) == Ok::<
            u128,
            RejectionView,
        >(id),
        exists|start: Seq<char>|
            opened(base_url, group_by_host, id, urls).send_url == #[trigger] (start + "/"@)
                + id_text(id),
        forall|grouped: bool, other: u128, others: UrlsView|
            other != id ==> (#[trigger] opened(base_url, grouped, other, others)).send_url
                != opened(base_url, group_by_host, id, urls).send_url,
{
    reveal_strlit("send/");
    reveal_strlit("send");
    reveal_strlit("/");
    let url = base_url + "send/"@ + id_text(id);
    law_id_text_is_one_segment(id);
    assert(url =~= base_url + "send"@ + "/"@ + id_text(id));
    if url == prefix + "/"@ + segment && !segment.contains('/') {
        let slash = base_url.len() as int + 4;
        assert(url[slash] == '/');
        assert(url[prefix.len() as int] == '/');
        if prefix.len() < slash {
            assert(segment[slash - prefix.len() - 1] == '/');
        }
        if slash < prefix.len() {
            assert(id_text(id)[prefix.len() - slash - 1] == '/');
        }
        assert(segment =~= url.skip(slash + 1));
        assert(id_text(id) =~= url.skip(slash + 1));
        law_id_text_is_parsed_back(id);
    }
    assert forall|grouped: bool, other: u128, others: UrlsView| other != id implies (
    #[trigger] opened(base_url, grouped, other, others)).send_url != opened(
        base_url,
        group_by_host,
        id,
        urls,
    ).send_url by {
        let another = opened(base_url, grouped, other, others).send_url;
        let n = base_url.len() as int + 5;
        assert(another.skip(n) =~= id_text(other));
        assert(url.skip(n) =~= id_text(id));
        if another == url {
            law_id_text_is_injective(other, id);
        }
    }
}

/// What a session asks for follows from what it was told last and from how it was
/// opened, and from nothing else. Text and binary frames are posted to the URL for
/// frames with their content and its type; the news of the end goes to the other URL
/// without any content. All of these carry the callback URL and, where connections
/// are grouped and the backend has a host name, the group, and no other fields.
pub proof fn law_what_a_session_asks_for(
    base_url: Seq<char>,
    group_by_host: bool,
    id: u128,
    urls: UrlsView,
    events: Seq<EventView>,
    i: int,
)
    requires
        0 <= i < events.len(),
    ensures
        ({
            let actions = actions_in(opened(base_url, group_by_host, id, urls), events);
            let callback = ("x-ws-proxy-send"@, base_url + "send/"@ + id_text(id));
            let fields = if group_by_host && urls.on_frame.host is Some {
                seq![callback, ("ws-bridge-group"@, urls.on_frame.host->0)]
            } else {
                seq![callback]
            };
            &&& actions.len() == events.len()
            &&& actions[i] == match events[i] {
                EventView::Received(IncomingView::Message(MessageView::Text(text))) =>
                    ActionView::Post(
                    PostView {
                        url: urls.on_frame.text,
                        fields: fields + seq![("content-type"@, "text/plain;charset=UTF-8"@)],
                        body: Some(encode_utf8(text)),
                    },
                ),
                EventView::Received(IncomingView::Message(MessageView::Binary(bytes))) =>
                    ActionView::Post(
                    PostView {
                        url: urls.on_frame.text,
                        fields: fields + seq![("content-type"@, "application/octet-stream"@)],
                        body: Some(bytes),
                    },
                ),
                EventView::Received(IncomingView::Message(MessageView::Ping(_))) =>
                    ActionView::Receive,
                EventView::Received(IncomingView::Message(MessageView::Pong(_))) =>
                    ActionView::Receive,
                EventView::Received(IncomingView::Message(MessageView::Close)) =>
                    ActionView::Close { result: Ok(()) },
                EventView::Received(IncomingView::Ended) => ActionView::Close { result: Ok(()) },
                EventView::Received(IncomingView::Failed) => ActionView::Close {
                    result: Err(ReceiveError::Receiving),
                },
                EventView::Posted(Some(status)) => if status < 400 || 599 < status {
                    ActionView::Receive
                } else {
                    ActionView::Close { result: Err(ReceiveError::Posting) }
                },
                EventView::Posted(None) => ActionView::Close { result: Err(ReceiveError::Posting) },
                EventView::Closed(_) => ActionView::Notify(
                    PostView { url: urls.on_disconnect.text, fields, body: None },
                ),
                EventView::Notified(_) => ActionView::Finish,
            }
        }),
{
    let session = opened(base_url, group_by_host, id, urls);
    let actions = actions_in(session, events);
    lemma_actions_by_event(session, session, events, i);
    let callback = ("x-ws-proxy-send"@, base_url + "send/"@ + id_text(id));
    let fields = if group_by_host && urls.on_frame.host is Some {
        seq![callback, ("ws-bridge-group"@, urls.on_frame.host->0)]
    } else {
        seq![callback]
    };
    assert(session.callback_fields() =~= fields);
    let text = ("content-type"@, "text/plain;charset=UTF-8"@);
    let binary = ("content-type"@, "application/octet-stream"@);
    assert(fields.push(text) =~= fields + seq![text]);
    assert(fields.push(binary) =~= fields + seq![binary]);
}

proof fn lemma_actions_by_event(
    first: SessionView,
    session: SessionView,
    events: Seq<EventView>,
    i: int,
)
    requires
        0 <= i < events.len(),
        session == first.in_phase(session.phase),
    ensures
        actions_in(session, events).len() == events.len(),
        actions_in(session, events)[i] == first.after(events[i]).1,
    decreases events.len(),
{
    let next = session.after(events[0]).0;
    let rest = events.drop_first();
    assert(next == first.in_phase(next.phase));
    lemma_same_posts(first, session);
    if rest.len() > 0 {
        lemma_actions_by_event(
            first,
            next,
            rest,
            if i > 0 {
                i - 1
            } else {
                0
            },
        );
    } else {
        assert(actions_in(next, rest).len() == 0);
    }
}

proof fn lemma_same_posts(first: SessionView, session: SessionView)
    requires
        session == first.in_phase(session.phase),
    ensures
        forall|event: EventView| (#[trigger] session.after(event)).1 == first.after(event).1,
{
    assert(session.callback_fields() == first.callback_fields());
}

/// A session waits for a frame, for the answer to a frame with content, for a frame
/// again as long as these are not refused, and then for the end of the sink, the
/// answer to the news of it, and nothing more. It keeps all else.
pub proof fn law_session_goes_on(session: SessionView, event: EventView)
    ensures
        ({
            let next = session.after(event).0;
            &&& next.id == session.id
            &&& next.urls == session.urls
            &&& next.send_url == session.send_url
            &&& next.group == session.group
            &&& next.phase == match event {
                EventView::Received(IncomingView::Message(MessageView::Text(_))) => Phase::Posting,
                EventView::Received(IncomingView::Message(MessageView::Binary(_))) =>
                    Phase::Posting,
                EventView::Received(IncomingView::Message(MessageView::Ping(_))) =>
                    Phase::Receiving,
                EventView::Received(IncomingView::Message(MessageView::Pong(_))) =>
                    Phase::Receiving,
                EventView::Received(_) => Phase::Closing,
                EventView::Posted(Some(status)) => if 400 <= status <= 599 {
                    Phase::Closing
                } else {
                    Phase::Receiving
                },
                EventView::Posted(None) => Phase::Closing,
                EventView::Closed(_) => Phase::Notifying,
                EventView::Notified(_) => Phase::Done,
            }
        }),
        session.awaits(event) <==> (event is Received && session.phase == Phase::Receiving
            || event is Posted && session.phase == Phase::Posting || event is Closed
            && session.phase == Phase::Closing || event is Notified && session.phase
            == Phase::Notifying),
        session.is_open() <==> session.phase != Phase::Closing && session.phase
            != Phase::Notifying && session.phase != Phase::Done,
{
}

/// As long as frames are taken and not refused, a session is after each of them as it
/// was before, so that the next frame is treated as the first one was.
pub proof fn law_accepted_frames_leave_no_trace(
    session: SessionView,
    message: MessageView,
    status: u16,
)
    requires
        session.phase == Phase::Receiving,
        message is Text || message is Binary,
        status < 400 || status > 599,
    ensures
        session_after(
            session,
            seq![
                EventView::Received(IncomingView::Message(message)),
                EventView::Posted(Some(status)),
            ],
        ) == session,
{
    reveal_with_fuel(session_after, 3);
}

} // verus!
