use repomon::{Branch, Category, Message, Remote};
use repomonc::endpoint::Endpoint;
use repomonc::error::Error;
use repomonc::udp::{connect, Action, Bytes, Envelope, Event, State};
use repomonc::wire::encode;
use std::collections::BTreeMap;

fn remote() -> Endpoint {
    Endpoint::V4 { host: 0x7f00_0001, port: 9000 }
}

fn sample(category: Category, text: &str) -> Message {
    let mut key = Branch::default();
    key.set_name("main".to_string());
    let mut origin = Remote::default();
    origin.set_name("origin".to_string());
    let mut texts = BTreeMap::new();
    texts.insert(origin, text.to_string());
    let mut messages = BTreeMap::new();
    messages.insert(key, texts);
    let mut message = Message::default();
    message.set_category(category);
    message.set_repo("relay".to_string());
    message.set_messages(messages);
    message
}

fn same(a: &Message, b: &Message) -> bool {
    a.uuid() == b.uuid()
        && a.category() == b.category()
        && a.repo() == b.repo()
        && a.messages() == b.messages()
}

#[test]
fn codec_decodes_a_payload_and_keeps_the_address() {
    let message = sample(Category::Ahead, "one ahead");
    let (addr, back) = Bytes.decode(&remote(), &encode(&message).bytes);
    assert_eq!(addr, remote());
    assert!(same(&back.unwrap(), &message));
}

#[test]
fn codec_gives_the_placeholder_for_a_malformed_payload() {
    let (addr, back) = Bytes.decode(&remote(), &[1, 2, 3]);
    assert_eq!(addr, remote());
    let back = back.unwrap();
    assert!(same(&back, &Message::default()));
    assert_eq!(back.uuid().to_string(), "00000000-0000-0000-0000-000000000000");
    assert_eq!(back.category(), &Category::Info);
    assert_eq!(back.repo(), "");
    assert!(back.messages().is_empty());
    assert_eq!(back.to_string(), "");
}

#[test]
fn codec_gives_no_message_for_an_empty_payload() {
    let (addr, back) = Bytes.decode(&remote(), &[]);
    assert_eq!(addr, remote());
    assert!(back.is_none());
}

#[test]
fn codec_appends_the_frame_and_hands_back_the_address() {
    let message = sample(Category::Behind, "two behind");
    let frame = encode(&message).bytes;
    let mut into = vec![5u8];
    let (addr, failure) = Bytes.encode((remote(), message), &mut into);
    assert_eq!(addr, remote());
    assert!(failure.is_none());
    let mut expected = vec![5u8];
    expected.extend(frame);
    assert_eq!(into, expected);
}

#[test]
fn session_binds_any_address_of_the_remote_family() {
    let v4 = connect(&remote());
    assert_eq!(v4.local(), Endpoint::V4 { host: 0, port: 0 });
    let v6 = connect(&Endpoint::V6 { host: 1, port: 9000, flowinfo: 0, scope_id: 0 });
    assert_eq!(
        v6.local(),
        Endpoint::V6 { host: 0, port: 0, flowinfo: 0, scope_id: 0 }
    );
    assert_eq!(v4.state(), State::Open { forwarding: true });
    assert_eq!(v4.remote(), remote());
}

#[test]
fn datagram_from_another_port_is_not_surfaced() {
    // The remote endpoint is 127.0.0.1:9000; the datagram comes from
    // 127.0.0.1:9001.
    let mut session = connect(&remote());
    let stranger = Endpoint::V4 { host: 0x7f00_0001, port: 9001 };
    let frame = encode(&sample(Category::Ahead, "not for you")).bytes;
    let mut surfaced = 0;
    if let Action::Deliver(_) = session.step(Event::Incoming(Envelope { peer: stranger, frame })) {
        surfaced += 1;
    }
    assert_eq!(surfaced, 0);
    assert_eq!(session.state(), State::Open { forwarding: true });
}

#[test]
fn datagrams_from_other_endpoints_are_dropped_whatever_they_hold() {
    let mut session = connect(&remote());
    let strangers = vec![
        Endpoint::V4 { host: 0x7f00_0001, port: 9001 },
        Endpoint::V4 { host: 0x7f00_0002, port: 9000 },
        Endpoint::V4 { host: 0, port: 0 },
        Endpoint::V6 { host: 0x7f00_0001, port: 9000, flowinfo: 0, scope_id: 0 },
    ];
    let payloads = vec![
        encode(&sample(Category::Ahead, "well formed")).bytes,
        encode(&Message::default()).bytes,
        vec![1, 2, 3],
        Vec::new(),
    ];
    for stranger in strangers.iter() {
        assert!(!session.accepts(stranger));
        for payload in payloads.iter() {
            let envelope = Envelope { peer: *stranger, frame: payload.clone() };
            assert!(matches!(session.step(Event::Incoming(envelope)), Action::Idle));
        }
    }
    assert!(session.accepts(&remote()));
}

#[test]
fn a_v6_remote_is_told_from_its_other_scopes() {
    let remote = Endpoint::V6 { host: 1, port: 9000, flowinfo: 0, scope_id: 2 };
    let mut session = connect(&remote);
    let frame = encode(&Message::default()).bytes;
    let other = Endpoint::V6 { host: 1, port: 9000, flowinfo: 0, scope_id: 3 };
    let envelope = Envelope { peer: other, frame: frame.clone() };
    assert!(matches!(session.step(Event::Incoming(envelope)), Action::Idle));
    let envelope = Envelope { peer: remote, frame };
    assert!(matches!(session.step(Event::Incoming(envelope)), Action::Deliver(_)));
}

#[test]
fn datagram_from_the_remote_is_delivered() {
    let mut session = connect(&remote());
    let message = sample(Category::UpToDate, "level");
    let envelope = Envelope { peer: remote(), frame: encode(&message).bytes };
    match session.step(Event::Incoming(envelope)) {
        Action::Deliver(back) => assert!(same(&back, &message)),
        other => panic!("not delivered: {:?}", other),
    }
}

#[test]
fn malformed_datagram_from_the_remote_gives_the_placeholder() {
    let mut session = connect(&remote());
    let envelope = Envelope { peer: remote(), frame: vec![1, 2, 3] };
    match session.step(Event::Incoming(envelope)) {
        Action::Deliver(back) => assert!(same(&back, &Message::default())),
        other => panic!("not delivered: {:?}", other),
    }
}

#[test]
fn empty_datagram_from_the_remote_gives_nothing() {
    let mut session = connect(&remote());
    let envelope = Envelope { peer: remote(), frame: Vec::new() };
    assert!(matches!(session.step(Event::Incoming(envelope)), Action::Idle));
}

#[test]
fn outgoing_message_goes_to_the_remote() {
    let mut session = connect(&remote());
    let message = sample(Category::Ahead, "outbound");
    let expected = encode(&message).bytes;
    match session.step(Event::Outgoing(message)) {
        Action::Send { envelope, failure } => {
            assert!(failure.is_none());
            assert_eq!(envelope.peer, remote());
            assert_eq!(envelope.frame, expected);
        }
        other => panic!("nothing sent: {:?}", other),
    }
}

#[test]
fn what_is_sent_comes_back_as_the_same_message() {
    let mut session = connect(&remote());
    let message = sample(Category::Behind, "echo");
    let envelope = match session.step(Event::Outgoing(message.clone())) {
        Action::Send { envelope, .. } => envelope,
        other => panic!("nothing sent: {:?}", other),
    };
    match session.step(Event::Incoming(envelope)) {
        Action::Deliver(back) => assert!(same(&back, &message)),
        other => panic!("not delivered: {:?}", other),
    }
}

#[test]
fn closed_input_stops_sending_and_not_receiving() {
    let mut session = connect(&remote());
    assert!(matches!(session.step(Event::InputClosed), Action::Idle));
    assert_eq!(session.state(), State::Open { forwarding: false });
    assert!(matches!(session.step(Event::Outgoing(Message::default())), Action::Idle));
    let envelope = Envelope { peer: remote(), frame: encode(&Message::default()).bytes };
    assert!(matches!(session.step(Event::Incoming(envelope)), Action::Deliver(_)));
}

#[test]
fn session_ends_with_the_socket_or_on_an_error() {
    let mut session = connect(&remote());
    assert!(matches!(session.step(Event::SocketClosed), Action::Close(Ok(()))));
    assert_eq!(session.state(), State::Closed);
    let mut session = connect(&remote());
    assert!(matches!(
        session.step(Event::WriteFailed),
        Action::Close(Err(Error::WriteFailure))
    ));
    let mut session = connect(&remote());
    assert!(matches!(
        session.step(Event::ReadFailed),
        Action::Close(Err(Error::ReadFailure))
    ));
    let envelope = Envelope { peer: remote(), frame: encode(&Message::default()).bytes };
    assert!(matches!(session.step(Event::Incoming(envelope)), Action::Idle));
    assert!(matches!(session.step(Event::Outgoing(Message::default())), Action::Idle));
    assert_eq!(session.state(), State::Closed);
}
