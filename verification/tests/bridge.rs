use headers::ContentType;
use http::header::{HeaderMap, HeaderValue};
use once_cell::sync::OnceCell;
use uuid::Uuid;
use websocket_bridge::allowlist::compile_allowlist;
use websocket_bridge::config::{BaseUrlError, Config};
use websocket_bridge::message::Message;
use websocket_bridge::reply::Status;
use websocket_bridge::router::{router, Handler, Method};
use websocket_bridge::send::connection_id;
use websocket_bridge::serve::{post_accepted, Action, Event, Incoming, Phase, Post, ReceiveError, Session};
use websocket_bridge::state::MyState;
use websocket_bridge::urls::{ConnectQuery, Urls};

const BACKEND: &str = "127.0.0.1:8081";
const PROXY: &str = "127.0.0.1:8080";

fn config(group_by_host: bool) -> Config {
    let allowlist = vec![format!("http://{}/.*", BACKEND.replace('.', "\\."))];
    Config::new(compile_allowlist(allowlist, &Vec::new()).ok().unwrap(), group_by_host)
}

fn query() -> ConnectQuery {
    ConnectQuery {
        on_frame: Some(format!("http://{BACKEND}/frame")),
        on_disconnect: Some(format!("http://{BACKEND}/disconnect")),
    }
}

fn started(group_by_host: bool) -> MyState {
    let mut state = router(config(group_by_host)).state;
    state.config.set_host_base_url(&format!("http://{PROXY}")).unwrap();
    state
}

fn urls(state: &MyState) -> Urls {
    state.on_connect(&query(), &HeaderMap::new()).unwrap_or_else(|e| panic!("{}", e.message))
}

fn field<'a>(post: &'a Post, name: &str) -> Option<&'a str> {
    post.fields.iter().find(|field| field.0 == name).map(|field| field.1.as_str())
}

fn typed(content_type: &'static str) -> HeaderMap {
    let mut headers = HeaderMap::new();
    headers.insert("content-type", HeaderValue::from_static(content_type));
    headers
}

fn received(state: &mut MyState, session: &mut Session, message: Message) -> Action {
    session.step(&mut state.sinks, Event::Received(Incoming::Message(message)))
}

#[test]
fn integration() {
    let mut state = router(config(false)).state;
    assert_eq!(state.config.set_host_base_url(&format!("http://{PROXY}")), Ok(()));

    let urls = urls(&state);
    let (mut session, action) = state.serve(urls, 17);
    assert!(matches!(action, Action::Receive));

    let my_send_url = match received(&mut state, &mut session, Message::Text("hello".to_owned())) {
        Action::Post(post) => {
            assert_eq!(post.url, format!("http://{BACKEND}/frame"));
            let content_type: ContentType = field(&post, "content-type").unwrap().parse().unwrap();
            assert_eq!(content_type, ContentType::text_utf8());
            assert_eq!(post.body.as_deref(), Some(&b"hello"[..]));
            let send_url = field(&post, "x-ws-proxy-send").unwrap().to_owned();
            assert!(send_url.starts_with(&format!("http://{PROXY}/send")));
            send_url
        }
        _ => panic!("expected a post"),
    };
    assert!(matches!(session.step(&mut state.sinks, Event::Posted(Some(200))), Action::Receive));

    let id = connection_id(my_send_url.rsplit('/').next().unwrap()).unwrap();
    let delivery = state
        .on_send(id, &typed("text/plain;charset=UTF-8"))
        .unwrap();
    assert_eq!(delivery.sink, 17);
    match delivery.compose(Ok(b"hola".to_vec())).unwrap() {
        Message::Text(text) => assert_eq!(text, "hola"),
        other => panic!("expected a text message but got {other:?}"),
    }
    assert_eq!(delivery.conclude(true).unwrap().code(), 200);

    match received(&mut state, &mut session, Message::Close) {
        Action::Close { sink, result } => assert_eq!((sink, result), (17, Ok(()))),
        _ => panic!("expected the sink to be closed"),
    }
    match session.step(&mut state.sinks, Event::Closed(true)) {
        Action::Notify(post) => {
            assert_eq!(post.url, format!("http://{BACKEND}/disconnect"));
            assert_eq!(field(&post, "x-ws-proxy-send"), Some(my_send_url.as_str()));
            assert!(post.body.is_none());
        }
        _ => panic!("expected the news of the end"),
    }
    assert!(matches!(session.step(&mut state.sinks, Event::Notified(Some(204))), Action::Finish));
    assert_eq!(session.phase(), Phase::Done);
}

#[test]
fn routes_and_cors() {
    let router = router(config(false));
    assert_eq!(router.routes.len(), 2);
    assert_eq!(router.routes[0].path, "/connect");
    assert_eq!(router.routes[0].method, Method::Get);
    assert_eq!(router.routes[0].handler, Handler::OnConnect);
    assert_eq!(router.routes[1].path, "/send/:id");
    assert_eq!(router.routes[1].method, Method::Post);
    assert_eq!(router.routes[1].handler, Handler::OnSend);
    assert_eq!(router.cors.allow_origin, "*");
    assert_eq!(router.cors.allow_methods, vec![Method::Get, Method::Post]);
}

#[test]
fn binary_frames_are_posted_as_they_are() {
    let mut state = started(false);
    let urls = urls(&state);
    let (mut session, _) = state.serve(urls, 1);
    match received(&mut state, &mut session, Message::Binary(vec![0, 255, 7])) {
        Action::Post(post) => {
            assert_eq!(field(&post, "content-type"), Some("application/octet-stream"));
            assert_eq!(post.body, Some(vec![0, 255, 7]));
            let delivery = state
                .on_send(session.id(), &typed("application/octet-stream"))
                .unwrap();
            match delivery.compose(Ok(post.body.unwrap())).unwrap() {
                Message::Binary(bytes) => assert_eq!(bytes, vec![0, 255, 7]),
                other => panic!("expected a binary message but got {other:?}"),
            }
        }
        _ => panic!("expected a post"),
    }
}

#[test]
fn text_frames_are_posted_in_utf8() {
    let mut state = started(false);
    let urls = urls(&state);
    let (mut session, _) = state.serve(urls, 1);
    match received(&mut state, &mut session, Message::Text("h\u{e9}".to_owned())) {
        Action::Post(post) => {
            assert_eq!(field(&post, "content-type"), Some("text/plain;charset=UTF-8"));
            assert_eq!(post.body, Some(vec![0x68, 0xc3, 0xa9]));
            assert_eq!(field(&post, "x-ws-proxy-send"), Some(session.send_url()));
        }
        _ => panic!("expected a post"),
    }
}

#[test]
fn pings_and_pongs_are_passed_over() {
    let mut state = started(false);
    let urls = urls(&state);
    let (mut session, _) = state.serve(urls, 1);
    assert!(matches!(received(&mut state, &mut session, Message::Ping(vec![1])), Action::Receive));
    assert!(matches!(received(&mut state, &mut session, Message::Pong(vec![])), Action::Receive));
    assert_eq!(session.phase(), Phase::Receiving);
}

#[test]
fn a_refused_frame_ends_the_connection() {
    let mut state = started(false);
    let urls = urls(&state);
    let (mut session, _) = state.serve(urls, 5);
    received(&mut state, &mut session, Message::Text("x".to_owned()));
    assert!(session.awaits(&Event::Posted(Some(500))));
    assert!(!session.awaits(&Event::Closed(true)));
    match session.step(&mut state.sinks, Event::Posted(Some(500))) {
        Action::Close { sink, result } => {
            assert_eq!((sink, result), (5, Err(ReceiveError::Posting)));
            assert_eq!(
                result.unwrap_err().context(&session.urls().on_frame.text),
                format!("posting to http://{BACKEND}/frame")
            );
        }
        _ => panic!("expected the sink to be closed"),
    }
    assert!(matches!(session.step(&mut state.sinks, Event::Closed(false)), Action::Notify(_)));
    assert!(matches!(session.step(&mut state.sinks, Event::Notified(None)), Action::Finish));
}

#[test]
fn an_unreachable_backend_ends_the_connection() {
    let mut state = started(false);
    let urls = urls(&state);
    let (mut session, _) = state.serve(urls, 5);
    received(&mut state, &mut session, Message::Binary(Vec::new()));
    match session.step(&mut state.sinks, Event::Posted(None)) {
        Action::Close { result, .. } => assert_eq!(result, Err(ReceiveError::Posting)),
        _ => panic!("expected the sink to be closed"),
    }
}

#[test]
fn posts_are_accepted_without_an_error_status() {
    assert!(post_accepted(Some(200)));
    assert!(post_accepted(Some(399)));
    assert!(!post_accepted(Some(400)));
    assert!(!post_accepted(Some(599)));
    assert!(post_accepted(Some(600)));
    assert!(!post_accepted(None));
}

#[test]
fn a_send_without_a_content_type_is_a_bad_request() {
    let state = started(false);
    let missing = state.on_send(1, &HeaderMap::new()).unwrap_err();
    assert_eq!(missing.status.code(), 400);
    assert_eq!(missing.message, "Header of type `content-type` was missing");
    let invalid = state.on_send(1, &typed("nonsense")).unwrap_err();
    assert_eq!(invalid.status.code(), 400);
    assert_eq!(invalid.message, "invalid HTTP header (content-type)");
}

#[test]
fn a_broken_client_ends_the_connection() {
    let mut state = started(false);
    let urls = urls(&state);
    let (mut session, _) = state.serve(urls, 5);
    match session.step(&mut state.sinks, Event::Received(Incoming::Failed)) {
        Action::Close { result, .. } => {
            assert_eq!(result, Err(ReceiveError::Receiving));
            assert_eq!(result.unwrap_err().context("u"), "receiving from client");
        }
        _ => panic!("expected the sink to be closed"),
    }
}

#[test]
fn a_client_that_leaves_ends_the_connection() {
    let mut state = started(false);
    let urls = urls(&state);
    let (mut session, _) = state.serve(urls, 5);
    match session.step(&mut state.sinks, Event::Received(Incoming::Ended)) {
        Action::Close { result, .. } => assert_eq!(result, Ok(())),
        _ => panic!("expected the sink to be closed"),
    }
}

#[test]
fn connections_do_not_interfere() {
    let mut state = started(false);
    let (first, second) = (urls(&state), urls(&state));
    let (mut one, _) = state.serve(first, 1);
    let (two, _) = state.serve(second, 2);
    assert_ne!(one.id(), two.id());
    assert_ne!(one.send_url(), two.send_url());

    received(&mut state, &mut one, Message::Close);
    let gone = state.on_send(one.id(), &typed("text/plain;charset=UTF-8")).unwrap_err();
    assert_eq!(gone.status, Status::NotFound);
    assert_eq!(
        gone.message,
        format!("unknown connection id: {}", Uuid::from_u128(one.id()))
    );
    let there = state.on_send(two.id(), &typed("text/plain;charset=UTF-8")).unwrap();
    assert_eq!(there.sink, 2);
}

#[test]
fn a_connection_stays_as_it_was_opened() {
    let mut state = started(true);
    let mut headers = typed("text/plain;charset=UTF-8");
    headers.insert("ws-bridge-group", HeaderValue::from_static("127.0.0.1"));
    let there = |state: &MyState, session: &Session, sink: u64| {
        let connection = state.sinks.get(session.id()).unwrap();
        assert_eq!(connection.sink, sink);
        assert_eq!(connection.group.as_deref(), Some("127.0.0.1"));
        assert_eq!(state.on_send(session.id(), &headers).unwrap().sink, sink);
    };
    let gone = |state: &MyState, session: &Session| {
        assert!(state.sinks.get(session.id()).is_none());
        let rejection = state.on_send(session.id(), &headers).unwrap_err();
        assert_eq!(rejection.status, Status::NotFound);
    };

    let before = urls(&state);
    let (mut other, _) = state.serve(before, 1);
    let own = urls(&state);
    let (mut session, _) = state.serve(own, 2);
    there(&state, &session, 2);

    received(&mut state, &mut session, Message::Text("one".to_owned()));
    there(&state, &session, 2);
    received(&mut state, &mut other, Message::Close);
    gone(&state, &other);
    there(&state, &session, 2);
    let after = urls(&state);
    let (mut third, _) = state.serve(after, 3);
    session.step(&mut state.sinks, Event::Posted(Some(200)));
    there(&state, &session, 2);
    received(&mut state, &mut third, Message::Binary(vec![3]));
    third.step(&mut state.sinks, Event::Posted(None));
    gone(&state, &third);
    there(&state, &session, 2);

    match received(&mut state, &mut session, Message::Close) {
        Action::Close { sink, .. } => assert_eq!(sink, 2),
        _ => panic!("expected the sink to be closed"),
    }
    gone(&state, &session);
    let late = urls(&state);
    let (fourth, _) = state.serve(late, 4);
    session.step(&mut state.sinks, Event::Closed(true));
    gone(&state, &session);
    session.step(&mut state.sinks, Event::Notified(Some(200)));
    gone(&state, &session);
    there(&state, &fourth, 4);
}

#[test]
fn identifiers_are_random_uuids() {
    let mut state = started(false);
    let urls = urls(&state);
    let (session, _) = state.serve(urls, 1);
    assert_eq!(Uuid::from_u128(session.id()).get_version_num(), 4);
    assert_eq!(
        session.send_url(),
        format!("http://{PROXY}/send/{}", Uuid::from_u128(session.id()))
    );
}

#[test]
fn nothing_is_served_before_the_base_url_is_known() {
    let mut state = router(config(false)).state;
    let urls = urls(&state);
    assert!(state.try_serve(urls, 1).is_none());
    assert!(state.config.get_host_base_url().is_none());
}

#[test]
fn a_connection_is_served_once_the_base_url_is_known() {
    let mut state = started(false);
    let urls = urls(&state);
    let (session, action) = state.try_serve(urls, 4).unwrap();
    assert!(matches!(action, Action::Receive));
    assert_eq!(state.sinks.get(session.id()).unwrap().sink, 4);
}

#[test]
fn a_base_url_given_from_the_start_is_used() {
    let mut config = config(false);
    config.host_base_url = OnceCell::from("https://bridge.example.com/".to_owned());
    let mut state = router(config).state;
    let urls = urls(&state);
    let (session, _) = state.serve(urls, 1);
    assert!(session.send_url().starts_with("https://bridge.example.com/send/"));
}

#[test]
fn base_url_is_set_once() {
    let mut config = config(false);
    assert_eq!(config.set_host_base_url("nowhere"), Err(BaseUrlError::Invalid));
    assert_eq!(config.set_host_base_url("https://bridge.example.com:9443"), Ok(()));
    assert_eq!(config.set_host_base_url("https://other.example.com"), Err(BaseUrlError::AlreadySet));
    assert_eq!(
        config.get_host_base_url().map(String::as_str),
        Some("https://bridge.example.com:9443/")
    );
}

#[test]
fn groups_are_sent_and_required() {
    let mut state = started(true);
    let urls = urls(&state);
    let (mut session, _) = state.serve(urls, 1);
    match received(&mut state, &mut session, Message::Text("x".to_owned())) {
        Action::Post(post) => assert_eq!(field(&post, "ws-bridge-group"), Some("127.0.0.1")),
        _ => panic!("expected a post"),
    }

    let mut headers = typed("text/plain;charset=UTF-8");
    let missing = state.on_send(session.id(), &headers).unwrap_err();
    assert_eq!(missing.status, Status::BadRequest);
    assert_eq!(missing.message, "missing required header: \"ws-bridge-group\"");

    headers.insert("ws-bridge-group", HeaderValue::from_static("example.com"));
    let wrong = state.on_send(session.id(), &headers).unwrap_err();
    assert_eq!(wrong.status, Status::Forbidden);
    assert_eq!(
        wrong.message,
        "access denied for group specified by \"ws-bridge-group\" header"
    );

    headers.insert("ws-bridge-group", HeaderValue::from_static("127.0.0.1"));
    assert_eq!(state.on_send(session.id(), &headers).unwrap().sink, 1);
}
