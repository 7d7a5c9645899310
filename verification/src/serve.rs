//! Serving a connection.
//!
//! A [`Session`] says what is to be done next for its connection. It is told by an
//! [`Event`] how that went, and then says what follows. Frames from the client are
//! posted one at a time, in the order in which they come. When there are no more,
//! the connection is forgotten, its sink is closed and the backend is told.
use crate::config::{callback_url, send_url};
use crate::connections::{Connection, ConnectionView, Connections};
use crate::ids::{id_text, is_random_id, new_id};
use crate::message::{Message, MessageView};
use crate::send::{BINARY, CONTENT_TYPE, GROUP, TEXT};
use crate::state::MyState;
use crate::text::text_of;
use crate::urls::{Urls, UrlsView};
use vstd::prelude::*;
use vstd::string::*;
use vstd::utf8::*;

verus! {

/// The header field for a connection's callback URL.
pub const SEND: &'static str = "x-ws-proxy-send";

/// A POST request to a backend.
#[derive(Debug)]
pub struct Post {
    pub url: String,
    /// Header fields, as names and values.
    pub fields: Vec<(String, String)>,
    pub body: Option<Vec<u8>>,
}

/// A POST request to a backend, as contracts speak of it.
pub struct PostView {
    pub url: Seq<char>,
    pub fields: Seq<(Seq<char>, Seq<char>)>,
    pub body: Option<Seq<u8>>,
}

impl View for Post {
    type V = PostView;

    open spec fn view(&self) -> PostView {
        PostView {
            url: self.url@,
            fields: self.fields@.map_values(|field: (String, String)| (field.0@, field.1@)),
            body: match self.body {
                Some(body) => Some(body@),
                None => None,
            },
        }
    }
}

/// What a session waits for.
#[derive(Clone, Copy, Debug, PartialEq, Eq, Structural)]
pub enum Phase {
    /// A frame from the client.
    Receiving,
    /// The answer to a frame that was posted.
    Posting,
    /// The end of the sink.
    Closing,
    /// The answer to the news that the connection has ended.
    Notifying,
    /// Nothing.
    Done,
}

/// A connection that is being served.
pub struct Session {
    id: u128,
    urls: Urls,
    send_url: String,
    group: Option<String>,
    phase: Phase,
}

/// A connection that is being served, as contracts speak of it.
pub struct SessionView {
    pub id: u128,
    pub urls: UrlsView,
    pub send_url: Seq<char>,
    pub group: Option<Seq<char>>,
    pub phase: Phase,
}

impl View for Session {
    type V = SessionView;

    closed spec fn view(&self) -> SessionView {
        SessionView {
            id: self.id,
            urls: self.urls@,
            send_url: self.send_url@,
            group: text_of(self.group),
            phase: self.phase,
        }
    }
}

/// What the client's side of the connection yields.
pub enum Incoming {
    Message(Message),
    /// There is nothing more to come.
    Ended,
    /// Reading from the client failed.
    Failed,
}

/// What the client's side of the connection yields, as contracts speak of it.
pub enum IncomingView {
    Message(MessageView),
    Ended,
    Failed,
}

impl View for Incoming {
    type V = IncomingView;

    open spec fn view(&self) -> IncomingView {
        match self {
            Incoming::Message(message) => IncomingView::Message(message@),
            Incoming::Ended => IncomingView::Ended,
            Incoming::Failed => IncomingView::Failed,
        }
    }
}

/// Why no more frames are taken from a client that has not closed the connection.
#[derive(Clone, Copy, Debug, PartialEq, Eq, Structural)]
pub enum ReceiveError {
    /// Reading from the client failed.
    Receiving,
    /// The backend could not be reached or did not accept a frame.
    Posting,
}

impl ReceiveError {
    /// What was being done when it went wrong.
    pub fn context(self, on_frame: &str) -> (context: String)
        ensures
            context@ == match self {
                ReceiveError::Receiving => "receiving from client"@,
                ReceiveError::Posting => "posting to "@ + on_frame@,
            },
    {
        match self {
            ReceiveError::Receiving => "receiving from client".to_owned(),
            ReceiveError::Posting => "posting to ".to_owned().concat(on_frame),
        }
    }
}

/// How a session goes on when it has received something.
pub enum Step {
    /// With the next frame.
    Next,
    /// By posting a frame.
    Post(Post),
    /// Not at all.
    Return(Result<(), ReceiveError>),
}

/// How a session goes on when it has received something, as contracts speak of it.
pub enum StepView {
    Next,
    Post(PostView),
    Return(Result<(), ReceiveError>),
}

impl View for Step {
    type V = StepView;

    open spec fn view(&self) -> StepView {
        match self {
            Step::Next => StepView::Next,
            Step::Post(post) => StepView::Post(post@),
            Step::Return(result) => StepView::Return(*result),
        }
    }
}

/// How something that a session asked for went.
pub enum Event {
    /// What was received from the client.
    Received(Incoming),
    /// The status that a frame was answered with, or `None` where there was no answer.
    Posted(Option<u16>),
    /// Whether the sink was closed without an error.
    Closed(bool),
    /// The status that the news of the end was answered with, or `None` where there
    /// was no answer.
    Notified(Option<u16>),
}

/// How something that a session asked for went, as contracts speak of it.
pub enum EventView {
    Received(IncomingView),
    Posted(Option<u16>),
    Closed(bool),
    Notified(Option<u16>),
}

impl View for Event {
    type V = EventView;

    open spec fn view(&self) -> EventView {
        match self {
            Event::Received(incoming) => EventView::Received(incoming@),
            Event::Posted(answer) => EventView::Posted(*answer),
            Event::Closed(closed) => EventView::Closed(*closed),
            Event::Notified(answer) => EventView::Notified(*answer),
        }
    }
}

/// Whether a backend has accepted a post: it answered, and not with the status of an
/// error.
pub open spec fn is_accepted(answer: Option<u16>) -> bool {
    answer matches Some(status) && !(400 <= status < 600)
}

/// Whether a backend has accepted a post.
pub fn post_accepted(answer: Option<u16>) -> (accepted: bool)
    ensures
        accepted == is_accepted(answer),
        answer matches Some(status) ==> (accepted <==> status <= 399 || 600 <= status),
        answer is None ==> !accepted,
{
    match answer {
        Some(status) => status < 400 || status >= 600,
        None => false,
    }
}

/// What a session asks for.
pub enum Action {
    /// Receive from the client.
    Receive,
    /// Post a frame.
    Post(Post),
    /// Close the sink. No more frames are taken from the client; `result` says why.
    Close { sink: u64, result: Result<(), ReceiveError> },
    /// Post the news that the connection has ended.
    Notify(Post),
    /// Nothing more.
    Finish,
}

/// What a session asks for, as contracts speak of it.
pub enum ActionView {
    Receive,
    Post(PostView),
    Close { result: Result<(), ReceiveError> },
    Notify(PostView),
    Finish,
}

impl View for Action {
    type V = ActionView;

    open spec fn view(&self) -> ActionView {
        match self {
            Action::Receive => ActionView::Receive,
            Action::Post(post) => ActionView::Post(post@),
            Action::Close { sink, result } => ActionView::Close { result: *result },
            Action::Notify(post) => ActionView::Notify(post@),
            Action::Finish => ActionView::Finish,
        }
    }
}

impl SessionView {
    /// The header fields of everything that is posted for the connection.
    pub open spec fn callback_fields(self) -> Seq<(Seq<char>, Seq<char>)> {
        match self.group {
            None => seq![(SEND@, self.send_url)],
            Some(group) => seq![(SEND@, self.send_url), (GROUP@, group)],
        }
    }

    /// The post for a frame with the given content.
    pub open spec fn frame_post(self, content_type: Seq<char>, body: Seq<u8>) -> PostView {
        PostView {
            url: self.urls.on_frame.text,
            fields: self.callback_fields().push((CONTENT_TYPE@, content_type)),
            body: Some(body),
        }
    }

    /// The post for the end of the connection.
    pub open spec fn disconnect_post(self) -> PostView {
        PostView {
            url: self.urls.on_disconnect.text,
            fields: self.callback_fields(),
            body: None,
        }
    }

    /// How the session goes on when it has received `incoming`: frames with content
    /// are posted, frames that keep the connection alive are passed over, and a
    /// closing frame ends it.
    pub open spec fn received(self, incoming: IncomingView) -> StepView {
        match incoming {
            IncomingView::Failed => StepView::Return(Err(ReceiveError::Receiving)),
            IncomingView::Ended => StepView::Return(Ok(())),
            IncomingView::Message(message) => match message {
                MessageView::Text(text) => StepView::Post(
                    self.frame_post(TEXT@, encode_utf8(text)),
                ),
                MessageView::Binary(bytes) => StepView::Post(self.frame_post(BINARY@, bytes)),
                MessageView::Ping(_) => StepView::Next,
                MessageView::Pong(_) => StepView::Next,
                MessageView::Close => StepView::Return(Ok(())),
            },
        }
    }

    /// Whether `event` is what the session waits for.
    pub open spec fn awaits(self, event: EventView) -> bool {
        match event {
            EventView::Received(_) => self.phase == Phase::Receiving,
            EventView::Posted(_) => self.phase == Phase::Posting,
            EventView::Closed(_) => self.phase == Phase::Closing,
            EventView::Notified(_) => self.phase == Phase::Notifying,
        }
    }

    /// Whether the connection is registered while the session is in this phase.
    pub open spec fn is_open(self) -> bool {
        self.phase == Phase::Receiving || self.phase == Phase::Posting
    }

    /// The session in another phase.
    pub open spec fn in_phase(self, phase: Phase) -> SessionView {
        SessionView { phase, ..self }
    }

    /// The session and what it asks for, once `event` has happened.
    pub open spec fn after(self, event: EventView) -> (SessionView, ActionView) {
        match event {
            EventView::Received(incoming) => match self.received(incoming) {
                StepView::Next => (self.in_phase(Phase::Receiving), ActionView::Receive),
                StepView::Post(post) => (self.in_phase(Phase::Posting), ActionView::Post(post)),
                StepView::Return(result) => (
                    self.in_phase(Phase::Closing),
                    ActionView::Close { result },
                ),
            },
            EventView::Posted(answer) => if is_accepted(answer) {
                (self.in_phase(Phase::Receiving), ActionView::Receive)
            } else {
                (
                    self.in_phase(Phase::Closing),
                    ActionView::Close { result: Err(ReceiveError::Posting) },
                )
            },
            EventView::Closed(_) => (
                self.in_phase(Phase::Notifying),
                ActionView::Notify(self.disconnect_post()),
            ),
            EventView::Notified(_) => (self.in_phase(Phase::Done), ActionView::Finish),
        }
    }
}

impl Session {
    /// The identifier of the connection.
    pub fn id(&self) -> (id: u128)
        ensures
            id == self@.id,
    {
        self.id
    }

    /// The callback URL of the connection.
    pub fn send_url(&self) -> (url: &str)
        ensures
            url@ == self@.send_url,
    {
        self.send_url.as_str()
    }

    /// The backend URLs of the connection.
    pub fn urls(&self) -> (urls: &Urls)
        ensures
            urls@ == self@.urls,
    {
        &self.urls
    }

    /// What the session waits for.
    pub fn phase(&self) -> (phase: Phase)
        ensures
            phase == self@.phase,
    {
        self.phase
    }

    /// Whether `event` is what the session waits for.
    pub fn awaits(&self, event: &Event) -> (awaited: bool)
        ensures
            awaited == self@.awaits(event@),
    {
        match event {
            Event::Received(_) => self.phase == Phase::Receiving,
            Event::Posted(_) => self.phase == Phase::Posting,
            Event::Closed(_) => self.phase == Phase::Closing,
            Event::Notified(_) => self.phase == Phase::Notifying,
        }
    }

    /// The header fields of everything that is posted for the connection.
    fn callback_fields(&self) -> (fields: Vec<(String, String)>)
        ensures
            fields@.map_values(|field: (String, String)| (field.0@, field.1@))
                == self@.callback_fields(),
    {
        let mut fields: Vec<(String, String)> = Vec::new();
        fields.push((SEND.to_owned(), self.send_url.clone()));
        match &self.group {
            Some(group) => fields.push((GROUP.to_owned(), group.clone())),
            None => {},
        }
        assert(fields@.map_values(|field: (String, String)| (field.0@, field.1@))
            =~= self@.callback_fields());
        fields
    }

    /// The post for a frame with the given content.
    fn frame_post(&self, content_type: &str, body: Vec<u8>) -> (post: Post)
        ensures
            post@ == self@.frame_post(content_type@, body@),
    {
        let mut fields = self.callback_fields();
        let ghost before = fields@;
        fields.push((CONTENT_TYPE.to_owned(), content_type.to_owned()));
        assert(fields@.map_values(|field: (String, String)| (field.0@, field.1@))
            =~= before.map_values(|field: (String, String)| (field.0@, field.1@)).push(
            (CONTENT_TYPE@, content_type@),
        ));
        Post { url: self.urls.on_frame.text.clone(), fields, body: Some(body) }
    }

    /// The post for the end of the connection.
    fn disconnect_post(&self) -> (post: Post)
        ensures
            post@ == self@.disconnect_post(),
    {
        Post {
            url: self.urls.on_disconnect.text.clone(),
            fields: self.callback_fields(),
            body: None,
        }
    }

    /// How the session goes on when it has received `incoming`.
    pub fn receive(&self, incoming: Incoming) -> (step: Step)
        ensures
            step@ == self@.received(incoming@),
    {
        match incoming {
            Incoming::Failed => Step::Return(Err(ReceiveError::Receiving)),
            Incoming::Ended => Step::Return(Ok(())),
            Incoming::Message(message) => match message {
                Message::Text(text) => Step::Post(
                    self.frame_post(TEXT, text.as_str().as_bytes_vec()),
                ),
                Message::Binary(bytes) => Step::Post(self.frame_post(BINARY, bytes)),
                Message::Ping(_) | Message::Pong(_) => Step::Next,
                Message::Close => Step::Return(Ok(())),
            },
        }
    }

    /// Forgets the connection and asks for its sink to be closed.
    fn close(&mut self, sinks: &mut Connections, result: Result<(), ReceiveError>) -> (action:
        Action)
        requires
            old(sinks)@.contains_key(old(self)@.id),
        ensures
            final(self)@ == old(self)@.in_phase(Phase::Closing),
            final(sinks)@ == old(sinks)@.remove(old(self)@.id),
            action == (Action::Close { sink: old(sinks)@[old(self)@.id].sink, result }),
    {
        let connection = sinks.remove(self.id).unwrap();
        self.phase = Phase::Closing;
        Action::Close { sink: connection.sink, result }
    }

    /// Takes note of `event` and says what follows. The connection is forgotten as
    /// soon as no more frames are taken from the client.
    pub fn step(&mut self, sinks: &mut Connections, event: Event) -> (action: Action)
        requires
            old(self)@.awaits(event@),
            old(self)@.is_open() ==> old(sinks)@.contains_key(old(self)@.id),
        ensures
            (final(self)@, action@) == old(self)@.after(event@),
            final(sinks)@ == if action@ is Close {
                old(sinks)@.remove(old(self)@.id)
            } else {
                old(sinks)@
            },
            action is Close ==> action->sink == old(sinks)@[old(self)@.id].sink,
            event matches Event::Posted(Some(status)) ==> match action {
                Action::Receive => status <= 399 || 600 <= status,
                Action::Close { result, .. } => 400 <= status <= 599 && result
                    == Err::<(), ReceiveError>(ReceiveError::Posting),
                _ => false,
            },
            event matches Event::Posted(None) ==> action is Close,
    {
        match event {
            Event::Received(incoming) => match self.receive(incoming) {
                Step::Next => Action::Receive,
                Step::Post(post) => {
                    self.phase = Phase::Posting;
                    Action::Post(post)
                },
                Step::Return(result) => self.close(sinks, result),
            },
            Event::Posted(answer) => if post_accepted(answer) {
                self.phase = Phase::Receiving;
                Action::Receive
            } else {
                self.close(sinks, Err(ReceiveError::Posting))
            },
            Event::Closed(_) => {
                self.phase = Phase::Notifying;
                Action::Notify(self.disconnect_post())
            },
            Event::Notified(_) => {
                self.phase = Phase::Done;
                Action::Finish
            },
        }
    }
}

/// A session that has just been opened.
pub open spec fn opened(
    base_url: Seq<char>,
    group_by_host: bool,
    id: u128,
    urls: UrlsView,
) -> SessionView {
    SessionView {
        id,
        urls,
        send_url: callback_url(base_url, id),
        group: if group_by_host {
            urls.on_frame.host
        } else {
            None
        },
        phase: Phase::Receiving,
    }
}

/// Registers the connection `id`, whose frames go to `sink`, and begins to serve
/// it.
pub fn open_session(
    sinks: &mut Connections,
    base_url: &str,
    group_by_host: bool,
    id: u128,
    urls: Urls,
    sink: u64,
) -> (session: Session)
    ensures
        session@ == opened(base_url@, group_by_host, id, urls@),
        session@.id == id,
        session@.urls == urls@,
        session@.send_url == base_url@ + "send/"@ + id_text(id),
        session@.group == if group_by_host {
            text_of(urls.on_frame.host)
        } else {
            None
        },
        session@.phase == Phase::Receiving,
        final(sinks)@ == old(sinks)@.insert(
            id,
            (ConnectionView { sink, group: session@.group }),
        ),
{
    let group = if group_by_host {
        urls.on_frame.host.clone()
    } else {
        None
    };
    sinks.insert(id, Connection { sink, group: group.clone() });
    Session { id, urls, send_url: send_url(base_url, id), group, phase: Phase::Receiving }
}

impl MyState {
    /// Registers a new connection, whose frames go to `sink`, under a random
    /// identifier, and begins to serve it. The first thing to do is to receive from
    /// the client. The server's own URL has to be known by then.
    pub fn serve(&mut self, urls: Urls, sink: u64) -> (served: (Session, Action))
        requires
            old(self).config.base_url() is Some,
        ensures
            final(self).config == old(self).config,
            is_random_id(served.0@.id),
            served.0@ == opened(
                old(self).config.base_url()->0,
                old(self).config.group_by_host,
                served.0@.id,
                urls@,
            ),
            served.0@.urls == urls@,
            served.0@.send_url == old(self).config.base_url()->0 + "send/"@ + id_text(
                served.0@.id,
            ),
            served.1 == Action::Receive,
            final(self).sinks@ == old(self).sinks@.insert(
                served.0@.id,
                (ConnectionView { sink, group: served.0@.group }),
            ),
    {
        let base_url = self.config.get_host_base_url().unwrap();
        let session = open_session(
            &mut self.sinks,
            base_url.as_str(),
            self.config.group_by_host,
            new_id(),
            urls,
            sink,
        );
        (session, Action::Receive)
    }

    /// Serves a new connection as [`MyState::serve`] does. Returns `None`, and
    /// registers nothing, while the server's own URL is not known.
    pub fn try_serve(&mut self, urls: Urls, sink: u64) -> (served: Option<(Session, Action)>)
        ensures
            final(self).config == old(self).config,
            served is Some == old(self).config.base_url() is Some,
            served is None ==> final(self).sinks@ == old(self).sinks@,
            served matches Some((session, action)) ==> {
                &&& is_random_id(session@.id)
                &&& session@ == opened(
                    old(self).config.base_url()->0,
                    old(self).config.group_by_host,
                    session@.id,
                    urls@,
                )
                &&& session@.urls == urls@
                &&& session@.send_url == old(self).config.base_url()->0 + "send/"@ + id_text(
                    session@.id,
                )
                &&& action == Action::Receive
                &&& final(self).sinks@ == old(self).sinks@.insert(
                    session@.id,
                    ConnectionView { sink, group: session@.group },
                )
            },
    {
        if self.config.get_host_base_url().is_some() {
            Some(self.serve(urls, sink))
        } else {
            None
        }
    }
}

} // verus!
