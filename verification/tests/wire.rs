use repomon::{Branch, Category, Message, Remote};
use repomonc::wire::{decode, encode, Decoded};
use std::collections::BTreeMap;

/// The frame of a message with the identifier
/// `b428b5d9-df19-5bb9-a1dc-115e071b836c`, the repository `repomon` and two
/// branches with two remotes each.
fn known_frame() -> Vec<u8> {
    vec![
        36, 0, 0, 0, 0, 0, 0, 0, 98, 52, 50, 56, 98, 53, 100, 57, 45, 100, 102, 49, 57, 45, 53, 98,
        98, 57, 45, 97, 49, 100, 99, 45, 49, 49, 53, 101, 48, 55, 49, 98, 56, 51, 54, 99, 0, 0, 0,
        0, 7, 0, 0, 0, 0, 0, 0, 0, 114, 101, 112, 111, 109, 111, 110, 2, 0, 0, 0, 0, 0, 0, 0, 12,
        0, 0, 0, 0, 0, 0, 0, 102, 101, 97, 116, 117, 114, 101, 47, 116, 101, 115, 116, 2, 0, 0, 0,
        0, 0, 0, 0, 49, 109, 2, 0, 0, 0, 0, 0, 0, 0, 6, 0, 0, 0, 0, 0, 0, 0, 111, 114, 105, 103,
        105, 110, 2, 0, 0, 0, 0, 0, 0, 0, 103, 104, 2, 0, 0, 0, 0, 0, 0, 0, 2, 0, 0, 0, 0, 0, 0, 0,
        103, 104, 0, 0, 0, 0, 0, 0, 0, 0, 48, 0, 0, 0, 0, 0, 0, 0, 89, 111, 117, 114, 32, 98, 114,
        97, 110, 99, 104, 32, 105, 115, 32, 117, 112, 32, 116, 111, 32, 100, 97, 116, 101, 32, 119,
        105, 116, 104, 32, 39, 103, 104, 47, 102, 101, 97, 116, 117, 114, 101, 47, 116, 101, 115,
        116, 39, 6, 0, 0, 0, 0, 0, 0, 0, 111, 114, 105, 103, 105, 110, 0, 0, 0, 0, 0, 0, 0, 0, 52,
        0, 0, 0, 0, 0, 0, 0, 89, 111, 117, 114, 32, 98, 114, 97, 110, 99, 104, 32, 105, 115, 32,
        117, 112, 32, 116, 111, 32, 100, 97, 116, 101, 32, 119, 105, 116, 104, 32, 39, 111, 114,
        105, 103, 105, 110, 47, 102, 101, 97, 116, 117, 114, 101, 47, 116, 101, 115, 116, 39, 6, 0,
        0, 0, 0, 0, 0, 0, 109, 97, 115, 116, 101, 114, 2, 0, 0, 0, 0, 0, 0, 0, 49, 109, 2, 0, 0, 0,
        0, 0, 0, 0, 6, 0, 0, 0, 0, 0, 0, 0, 111, 114, 105, 103, 105, 110, 2, 0, 0, 0, 0, 0, 0, 0,
        103, 104, 2, 0, 0, 0, 0, 0, 0, 0, 2, 0, 0, 0, 0, 0, 0, 0, 103, 104, 0, 0, 0, 0, 0, 0, 0, 0,
        42, 0, 0, 0, 0, 0, 0, 0, 89, 111, 117, 114, 32, 98, 114, 97, 110, 99, 104, 32, 105, 115,
        32, 117, 112, 32, 116, 111, 32, 100, 97, 116, 101, 32, 119, 105, 116, 104, 32, 39, 103,
        104, 47, 109, 97, 115, 116, 101, 114, 39, 6, 0, 0, 0, 0, 0, 0, 0, 111, 114, 105, 103, 105,
        110, 0, 0, 0, 0, 0, 0, 0, 0, 46, 0, 0, 0, 0, 0, 0, 0, 89, 111, 117, 114, 32, 98, 114, 97,
        110, 99, 104, 32, 105, 115, 32, 117, 112, 32, 116, 111, 32, 100, 97, 116, 101, 32, 119,
        105, 116, 104, 32, 39, 111, 114, 105, 103, 105, 110, 47, 109, 97, 115, 116, 101, 114, 39,
    ]
}

/// The frame of the default message: the nil identifier as text, the
/// category `Info`, an empty repository name and an empty map.
fn placeholder_frame() -> Vec<u8> {
    let mut frame = vec![36u8, 0, 0, 0, 0, 0, 0, 0];
    frame.extend("00000000-0000-0000-0000-000000000000".bytes());
    frame.extend(vec![0u8; 4]);
    frame.extend(vec![0u8; 8]);
    frame.extend(vec![0u8; 8]);
    frame
}

fn sample(category: Category, repo: &str, branch: &str, remote: &str, text: &str) -> Message {
    let mut key = Branch::default();
    key.set_name(branch.to_string());
    key.set_interval("1m".to_string());
    key.set_remotes(vec![remote.to_string()]);
    let mut origin = Remote::default();
    origin.set_name(remote.to_string());
    origin.set_url(format!("git@example.com:{}.git", repo));
    let mut texts = BTreeMap::new();
    texts.insert(origin, text.to_string());
    let mut messages = BTreeMap::new();
    messages.insert(key, texts);
    let mut message = Message::default();
    message.set_category(category);
    message.set_repo(repo.to_string());
    message.set_messages(messages);
    message
}

fn same(a: &Message, b: &Message) -> bool {
    a.uuid() == b.uuid()
        && a.category() == b.category()
        && a.repo() == b.repo()
        && a.messages() == b.messages()
}

fn decoded_message(bytes: &[u8]) -> Message {
    match decode(bytes) {
        Decoded::Message(message) => message,
        other => panic!("no message: {:?}", other),
    }
}

#[test]
fn default_message_survives_the_wire() {
    let message = Message::default();
    let frame = encode(&message);
    assert!(frame.failure.is_none());
    assert!(same(&decoded_message(&frame.bytes), &message));
}

#[test]
fn default_message_has_the_known_frame() {
    let frame = encode(&Message::default());
    assert!(frame.failure.is_none());
    assert_eq!(frame.bytes.len(), 64);
    assert_eq!(frame.bytes, placeholder_frame());
}

#[test]
fn every_category_survives_the_wire() {
    let categories = vec![
        Category::Info,
        Category::Ahead,
        Category::Behind,
        Category::UpToDate,
    ];
    for category in categories {
        let message = sample(category.clone(), "relay", "main", "origin", "one commit ahead");
        let frame = encode(&message);
        assert!(frame.failure.is_none());
        let back = decoded_message(&frame.bytes);
        assert_eq!(back.category(), &category);
        assert!(same(&back, &message));
    }
}

#[test]
fn encode_is_deterministic() {
    let message = sample(Category::Behind, "relay", "main", "origin", "two commits behind");
    let first = encode(&message);
    let second = encode(&message.clone());
    assert_eq!(first.bytes, second.bytes);
}

#[test]
fn different_messages_have_different_frames() {
    let ahead = sample(Category::Ahead, "relay", "main", "origin", "text");
    let behind = sample(Category::Behind, "relay", "main", "origin", "text");
    assert_ne!(encode(&ahead).bytes, encode(&behind).bytes);
}

#[test]
fn known_frame_decodes_to_its_fields() {
    let message = decoded_message(&known_frame());
    assert_eq!(
        message.uuid().to_string(),
        "b428b5d9-df19-5bb9-a1dc-115e071b836c"
    );
    assert_eq!(message.category(), &Category::Info);
    assert_eq!(message.repo(), "repomon");
    assert_eq!(message.messages().len(), 2);
    let branches: Vec<String> = message
        .messages()
        .keys()
        .map(|branch| branch.name().clone())
        .collect();
    assert_eq!(branches, vec!["feature/test".to_string(), "master".to_string()]);
}

#[test]
fn known_frame_is_encoded_again_byte_for_byte() {
    let message = decoded_message(&known_frame());
    let frame = encode(&message);
    assert!(frame.failure.is_none());
    assert_eq!(frame.bytes, known_frame());
}

#[test]
fn empty_buffer_gives_nothing() {
    assert!(matches!(decode(&[]), Decoded::Nothing));
    assert!(decode(&[]).message().is_none());
}

#[test]
fn malformed_buffer_gives_a_report_and_no_message() {
    match decode(&[1, 2, 3]) {
        Decoded::Malformed(error) => assert!(!error.report.is_empty()),
        other => panic!("not malformed: {:?}", other),
    }
    assert!(decode(&[1, 2, 3]).message().is_none());
}

#[test]
fn truncated_frame_is_malformed() {
    let mut frame = known_frame();
    frame.truncate(100);
    assert!(matches!(decode(&frame), Decoded::Malformed(_)));
}

#[test]
fn unknown_category_is_malformed() {
    let mut frame = placeholder_frame();
    frame[44] = 4;
    assert!(matches!(decode(&frame), Decoded::Malformed(_)));
    frame[44] = 3;
    assert_eq!(decoded_message(&frame).category(), &Category::UpToDate);
}

#[test]
fn a_single_zero_byte_is_malformed_not_nothing() {
    assert!(matches!(decode(&[0]), Decoded::Malformed(_)));
}

#[test]
fn decoded_message_is_handed_on() {
    let message = sample(Category::Ahead, "relay", "main", "origin", "text");
    let frame = encode(&message);
    let back = decode(&frame.bytes).message();
    assert!(back.is_some());
    assert!(same(&back.unwrap(), &message));
}
