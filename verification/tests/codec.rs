use alglobo::control_message::ControlMessage;
use alglobo::event::Event;
use alglobo::transaction::AlgloboTransaction;
use alglobo::transaction_message::TransactionMessage;
use alglobo::wire::encode_frame;

#[test]
fn test_serialize() {
    let msg = TransactionMessage::Prepare {
        transaction: AlgloboTransaction {
            id: 1234,
            airline_price: 2,
            hotel_price: 3,
            client: "test-client".into(),
        },
    };

    assert_eq!(TransactionMessage::from_bytes(&msg.to_bytes()), msg);

    let msg = TransactionMessage::Commit {
        transaction_id: 99999,
    };
    assert_eq!(TransactionMessage::from_bytes(&msg.to_bytes()), msg);

    let msg = TransactionMessage::Abort {
        transaction_id: 1234556,
    };
    assert_eq!(TransactionMessage::from_bytes(&msg.to_bytes()), msg);

    let msg = TransactionMessage::Response { success: true };
    assert_eq!(TransactionMessage::from_bytes(&msg.to_bytes()), msg);
}

#[test]
fn transaction_round_trip_response_false() {
    let msg = TransactionMessage::Response { success: false };
    assert_eq!(TransactionMessage::from_bytes(&msg.to_bytes()), msg);
}

#[test]
fn transaction_round_trip_empty_client() {
    let msg = TransactionMessage::Prepare {
        transaction: AlgloboTransaction {
            id: 0,
            client: String::new(),
            hotel_price: 0,
            airline_price: 0,
        },
    };
    assert_eq!(TransactionMessage::from_bytes(&msg.to_bytes()), msg);
}

#[test]
fn transaction_round_trip_multibyte_client() {
    let msg = TransactionMessage::Prepare {
        transaction: AlgloboTransaction {
            id: u32::MAX,
            client: "josé-münchen-日本".into(),
            hotel_price: u32::MAX,
            airline_price: 7,
        },
    };
    assert_eq!(TransactionMessage::from_bytes(&msg.to_bytes()), msg);
}

#[test]
fn transaction_prepare_layout_is_fixed() {
    let msg = TransactionMessage::Prepare {
        transaction: AlgloboTransaction {
            id: 1,
            client: "ab".into(),
            hotel_price: 3,
            airline_price: 2,
        },
    };
    let bytes = msg.to_bytes();
    assert_eq!(
        bytes,
        vec![b'P', 1, 0, 0, 0, 2, 0, 0, 0, 3, 0, 0, 0, b'a', b'b']
    );
}

#[test]
fn transaction_unknown_opcode_is_malformed() {
    assert_eq!(TransactionMessage::try_from_bytes(&[b'Z', 1, 2, 3, 4]), None);
    assert_eq!(TransactionMessage::try_from_bytes(&[]), None);
    // a truncated Prepare payload is malformed, not a shorter message
    assert_eq!(TransactionMessage::try_from_bytes(&[b'P', 1, 0, 0, 0]), None);
    // Abort must carry exactly four id bytes
    assert_eq!(TransactionMessage::try_from_bytes(&[b'A', 1, 0, 0]), None);
    assert_eq!(TransactionMessage::try_from_bytes(&[b'A', 1, 0, 0, 0, 9]), None);
}

#[test]
fn transaction_try_from_bytes_accepts_well_formed() {
    let msg = TransactionMessage::Commit { transaction_id: 17 };
    assert_eq!(
        TransactionMessage::try_from_bytes(&msg.to_bytes()),
        Some(TransactionMessage::Commit { transaction_id: 17 })
    );
}

#[test]
fn control_round_trip_all_kinds() {
    let kinds = [
        ControlMessage::Okay,
        ControlMessage::Election,
        ControlMessage::Coordinator,
        ControlMessage::Ping,
        ControlMessage::Pong,
        ControlMessage::GracefulQuit,
    ];
    for (i, kind) in kinds.iter().enumerate() {
        let id = (i as u32) * 1000 + 1;
        let bytes = kind.to_bytes(id);
        assert_eq!(bytes.len(), ControlMessage::size_of());
        assert_eq!(ControlMessage::from_bytes(&bytes), (*kind, id));
    }
}

#[test]
fn control_datagram_layout_is_fixed() {
    assert_eq!(
        ControlMessage::Election.to_bytes(258),
        vec![b'E', 2, 1, 0, 0]
    );
}

#[test]
fn control_malformed_datagrams_are_rejected() {
    assert_eq!(ControlMessage::try_from_bytes(&[b'E', 1, 0, 0]), None);
    assert_eq!(ControlMessage::try_from_bytes(&[b'E', 1, 0, 0, 0, 0]), None);
    assert_eq!(ControlMessage::try_from_bytes(&[b'z', 1, 0, 0, 0]), None);
    assert_eq!(
        ControlMessage::try_from_bytes(&[b'Q', 9, 0, 0, 0]),
        Some((ControlMessage::GracefulQuit, 9))
    );
}

#[test]
fn event_round_trip_all_kinds() {
    let events = [
        Event::TxSuccess {
            entity: 2,
            duration_ms: 12345,
        },
        Event::TxFailure {
            entity: 1,
            reason: "connection reset".into(),
        },
        Event::PaymentSuccess { duration: 777 },
        Event::PaymentFailed {
            reason: "hotel rejected".into(),
        },
    ];
    for event in events {
        assert_eq!(Event::from_bytes(&event.to_bytes()), event);
    }
}

#[test]
fn event_malformed_payloads_are_rejected() {
    assert_eq!(Event::try_from_bytes(&[]), None);
    assert_eq!(Event::try_from_bytes(&[b'S', 1, 2, 3]), None);
    assert_eq!(Event::try_from_bytes(&[b'?', 1]), None);
}

#[test]
fn frame_prefixes_length_little_endian() {
    let framed = encode_frame(&[9, 8, 7]);
    assert_eq!(framed, vec![3, 0, 0, 0, 9, 8, 7]);
    let empty = encode_frame(&[]);
    assert_eq!(empty, vec![0, 0, 0, 0]);
}
