use websocket_bridge::body::{self, BodyError, Chunk, Progress};
use websocket_bridge::config::send_url;
use websocket_bridge::connections::{Connection, Connections};
use websocket_bridge::fields::Field;
use websocket_bridge::message::Message;
use websocket_bridge::reply::Status;
use websocket_bridge::send::{address, check_group, connection_id, content_type_is_text, text_or_error, Delivery};

const ID: u128 = 0x0123_4567_89ab_4def_8123_4567_89ab_cdef;

fn delivery(text: bool) -> Delivery {
    Delivery { id: ID, sink: 3, text }
}

#[test]
fn callback_url_of_a_connection() {
    assert_eq!(
        send_url("https://bridge.example.com/", ID),
        "https://bridge.example.com/send/01234567-89ab-4def-8123-456789abcdef"
    );
    assert_eq!(send_url("", 0), "send/00000000-0000-0000-0000-000000000000");
    assert_ne!(send_url("b", ID), send_url("b", ID + 1));
}

fn reads(content_type: &str) -> Option<bool> {
    content_type_is_text(Field::Text(content_type.to_owned())).ok()
}

#[test]
fn paths_name_connections() {
    assert_eq!(connection_id("01234567-89ab-4def-8123-456789abcdef").unwrap(), ID);
    assert_eq!(connection_id("0123456789AB4DEF8123456789ABCDEF").unwrap(), ID);
    let bad = connection_id("hello_world").unwrap_err();
    assert_eq!(bad.status.code(), 400);
    assert_eq!(
        bad.message,
        "Invalid URL: UUID parsing failed: invalid character: found `h` at 0"
    );
}

#[test]
fn content_types() {
    assert_eq!(reads("text/plain;charset=UTF-8"), Some(true));
    assert_eq!(reads("text/plain; charset=utf-8"), Some(true));
    assert_eq!(reads("application/octet-stream"), Some(false));
    assert_eq!(reads("text/plain"), Some(false));
    assert_eq!(reads("application/json"), Some(false));
    assert_eq!(reads("nonsense"), None);
    assert_eq!(
        content_type_is_text(Field::Missing).unwrap_err().message,
        "Header of type `content-type` was missing"
    );
    assert_eq!(
        content_type_is_text(Field::Opaque).unwrap_err().message,
        "invalid HTTP header (content-type)"
    );
}

#[test]
fn addresses() {
    let known = || Some(Connection { sink: 9, group: None });
    let found = address(ID, Ok(true), known(), Field::Missing).unwrap();
    assert_eq!((found.id, found.sink, found.text), (ID, 9, true));
    assert!(!address(ID, Ok(false), known(), Field::Opaque).unwrap().text);

    let unknown = address(ID, Ok(true), None, Field::Missing).unwrap_err();
    assert_eq!(unknown.status.code(), 404);
    assert_eq!(
        unknown.message,
        "unknown connection id: 01234567-89ab-4def-8123-456789abcdef"
    );

    let untyped = address(ID, text_or_error(None), known(), Field::Missing).unwrap_err();
    assert_eq!(untyped.status.code(), 400);
    assert_eq!(untyped.message, "invalid HTTP header (content-type)");
}

#[test]
fn groups() {
    let group = Some("a.example.com".to_owned());
    assert!(check_group(&None, Field::Missing).is_ok());
    assert!(check_group(&None, Field::Text("anything".to_owned())).is_ok());
    assert!(check_group(&group, Field::Text("a.example.com".to_owned())).is_ok());
    let wrong = check_group(&group, Field::Text("A.example.com".to_owned())).unwrap_err();
    assert_eq!(wrong.status, Status::Forbidden);
    assert_eq!(check_group(&group, Field::Opaque).unwrap_err().status, Status::Forbidden);
    assert_eq!(check_group(&group, Field::Missing).unwrap_err().status, Status::BadRequest);
}

#[test]
fn frames_are_made_of_bodies() {
    match delivery(true).compose(Ok(vec![0xc3, 0xa9])).unwrap() {
        Message::Text(text) => assert_eq!(text, "\u{e9}"),
        other => panic!("{other:?}"),
    }
    match delivery(false).compose(Ok(vec![0xff])).unwrap() {
        Message::Binary(bytes) => assert_eq!(bytes, vec![0xff]),
        other => panic!("{other:?}"),
    }
    let bad = delivery(true).compose(Ok(vec![0xff])).unwrap_err();
    assert_eq!((bad.status, bad.message.as_str()), (Status::BadRequest, "unable to parse body as UTF-8"));
    let unread = delivery(false).compose(Err(BodyError)).unwrap_err();
    assert_eq!((unread.status, unread.message.as_str()), (Status::InternalServerError, "error reading body"));
    assert_eq!(unread.status.code(), 500);
}

#[test]
fn answers_to_a_send() {
    assert_eq!(delivery(true).conclude(true).unwrap(), Status::Success);
    let closed = delivery(true).conclude(false).unwrap_err();
    assert_eq!(closed.status, Status::NotFound);
    assert_eq!(
        closed.message,
        "connection 01234567-89ab-4def-8123-456789abcdef has been closed"
    );
}

#[test]
fn bodies_are_put_together() {
    let mut read = Vec::new();
    for chunk in [b"ho".to_vec(), Vec::new(), b"la".to_vec()] {
        read = match body::concat(read, Chunk::Bytes(chunk)) {
            Progress::More(bytes) => bytes,
            Progress::Done(_) => panic!("the body goes on"),
        };
    }
    match body::concat(read, Chunk::End) {
        Progress::Done(body) => assert_eq!(body, Ok(b"hola".to_vec())),
        Progress::More(_) => panic!("the body is complete"),
    }
}

#[test]
fn a_broken_body_is_no_body() {
    match body::concat(b"ho".to_vec(), Chunk::Failed) {
        Progress::Done(body) => assert_eq!(body, Err(BodyError)),
        Progress::More(_) => panic!("the body is broken"),
    }
}

#[test]
fn connections_are_registered_and_forgotten() {
    let mut connections = Connections::new();
    assert!(connections.get(1).is_none());
    connections.insert(1, Connection { sink: 10, group: None });
    connections.insert(2, Connection { sink: 20, group: Some("g".to_owned()) });
    assert_eq!(connections.get(1).unwrap().sink, 10);
    assert_eq!(connections.get(2).unwrap().group.as_deref(), Some("g"));
    connections.insert(1, Connection { sink: 11, group: None });
    assert_eq!(connections.remove(1).unwrap().sink, 11);
    assert!(connections.remove(1).is_none());
    assert!(connections.get(1).is_none());
    assert_eq!(connections.get(2).unwrap().sink, 20);
}
