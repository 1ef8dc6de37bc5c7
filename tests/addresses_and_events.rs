use kaonic::address::Address;
use kaonic::event::Event;
use kaonic::model::{
    Acknowledge, AcknowledgeKind, Broadcast, CallAnswer, CallAudioData, CallInvoke, CallReject,
    ChatCreate, Contact, ContactConnect, ContactData, FileChunk, FileStart, Message,
};

fn message(address: &str) -> Message {
    Message {
        id: "m1".to_string(),
        chat_id: "c1".to_string(),
        address: address.to_string(),
        timestamp: 1_700_000_000,
        text: "hello".to_string(),
    }
}

#[test]
fn address_hex_round_trip() {
    let mut bytes = [0u8; 16];
    for (i, b) in bytes.iter_mut().enumerate() {
        *b = (i as u8) * 17;
    }
    let a = Address { bytes };
    let text = a.to_hex();
    assert_eq!(text, "00112233445566778899aabbccddeeff");
    assert_eq!(Address::from_hex(&text), Some(a));
}

#[test]
fn address_reads_upper_case_and_ignores_tail() {
    let a = Address::from_hex("00112233445566778899AABBCCDDEEFF-tail").unwrap();
    assert_eq!(a.bytes[10], 0xaa);
    assert_eq!(a.bytes[15], 0xff);
}

#[test]
fn address_rejects_short_or_non_hex_text() {
    assert_eq!(Address::from_hex(""), None);
    assert_eq!(Address::from_hex("00112233445566778899aabbccddee"), None);
    assert_eq!(Address::from_hex("00112233445566778899aabbccddeeg0"), None);
    assert_eq!(Address::from_hex("zz112233445566778899aabbccddeeff"), None);
}

#[test]
fn empty_address_is_zero() {
    assert_eq!(Address::empty().bytes, [0u8; 16]);
    assert_eq!(Address::empty().to_hex(), "0".repeat(32));
}

#[test]
fn ids_and_ack_kinds_per_variant() {
    let contact = ContactData { name: "bob".to_string() };
    let cases: Vec<(Event, &str, AcknowledgeKind)> = vec![
        (
            Event::ContactFound(Contact { address: "addr".to_string(), contact: contact.clone() }),
            "addr",
            AcknowledgeKind::Generic,
        ),
        (Event::Message(message("x")), "m1", AcknowledgeKind::Message),
        (
            Event::Acknowledge(Acknowledge::new("a1".to_string(), AcknowledgeKind::FileChunk)),
            "a1",
            AcknowledgeKind::FileChunk,
        ),
        (
            Event::FileStart(FileStart {
                address: "x".to_string(),
                id: "fs".to_string(),
                file_id: "f".to_string(),
                chat_id: "c".to_string(),
                file_size: 10,
                file_name: "n".to_string(),
            }),
            "fs",
            AcknowledgeKind::FileStart,
        ),
        (
            Event::FileChunk(FileChunk {
                address: "x".to_string(),
                id: "fc".to_string(),
                file_id: "f".to_string(),
                chat_id: "c".to_string(),
                data: vec![1],
            }),
            "fc",
            AcknowledgeKind::FileChunk,
        ),
        (
            Event::ContactConnect(ContactConnect { address: "cc".to_string() }),
            "cc",
            AcknowledgeKind::Generic,
        ),
        (
            Event::ChatCreate(ChatCreate {
                address: "x".to_string(),
                chat_id: "chat".to_string(),
                chat_name: "n".to_string(),
            }),
            "chat",
            AcknowledgeKind::Chat,
        ),
        (
            Event::Broadcast(Broadcast {
                id: "b".to_string(),
                address: "x".to_string(),
                topic: "t".to_string(),
                data: vec![],
            }),
            "b",
            AcknowledgeKind::Generic,
        ),
        (
            Event::CallInvoke(CallInvoke {
                id: "ci".to_string(),
                address: "x".to_string(),
                call_id: "call".to_string(),
            }),
            "ci",
            AcknowledgeKind::CallInvoke,
        ),
        (
            Event::CallAnswer(CallAnswer {
                id: "ca".to_string(),
                call_id: "call".to_string(),
                address: "x".to_string(),
            }),
            "ca",
            AcknowledgeKind::CallAnswer,
        ),
        (
            Event::CallReject(CallReject {
                id: "cr".to_string(),
                call_id: "call".to_string(),
                address: "x".to_string(),
            }),
            "cr",
            AcknowledgeKind::CallReject,
        ),
        (
            Event::CallAudioData(CallAudioData {
                call_id: "call".to_string(),
                address: "x".to_string(),
                data: vec![1, 2],
            }),
            "call",
            AcknowledgeKind::Generic,
        ),
    ];
    for (event, id, kind) in cases {
        assert_eq!(event.to_id(), id);
        assert_eq!(event.to_ack_kind(), kind);
    }
}

#[test]
fn change_address_rewrites_only_the_address() {
    let a = Address { bytes: [0xab; 16] };
    let mut event = Event::Message(message("old"));
    event.change_address(&a);
    let mut expected = message(&"ab".repeat(16));
    expected.address = "ab".repeat(16);
    assert_eq!(event, Event::Message(expected));

    let ack = Event::Acknowledge(Acknowledge::new("k".to_string(), AcknowledgeKind::Message));
    let mut changed = ack.clone();
    changed.change_address(&a);
    assert_eq!(changed, ack);
}

#[test]
fn address_hash_reads_sender_or_falls_back_to_empty() {
    let text = "0123456789abcdef0123456789abcdef";
    let event = Event::Message(message(text));
    assert_eq!(event.address_hash(), Address::from_hex(text).unwrap());
    assert_eq!(event.address_hash().bytes[0], 0x01);

    let bad = Event::Message(message("not an address"));
    assert_eq!(bad.address_hash(), Address::empty());

    let broadcast = Event::Broadcast(Broadcast {
        id: "b".to_string(),
        address: text.to_string(),
        topic: "t".to_string(),
        data: vec![],
    });
    assert_eq!(broadcast.address_hash(), Address::empty());
}
