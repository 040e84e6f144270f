use alglobo::participant::{Airline, Bank, Hotel, ProtocolViolation};
use alglobo::transaction::AlgloboTransaction;
use alglobo::transaction_message::TransactionMessage;

fn record(id: u32, client: &str, hotel_price: u32, airline_price: u32) -> AlgloboTransaction {
    AlgloboTransaction {
        id,
        client: client.into(),
        hotel_price,
        airline_price,
    }
}

fn prepare(tx: AlgloboTransaction) -> TransactionMessage {
    TransactionMessage::Prepare { transaction: tx }
}

#[test]
fn prepare_idempotent_same_answer_one_entry() {
    let mut hotel = Hotel::new();
    let first = hotel.handle(prepare(record(5, "alice", 10, 20)));
    let second = hotel.handle(prepare(record(5, "alice", 10, 20)));
    assert_eq!(first, Ok(Some(true)));
    assert_eq!(second, first);
    assert_eq!(hotel.transaction_log.len(), 1);
}

#[test]
fn prepare_rejects_sentinel_client_without_logging() {
    let mut hotel = Hotel::new();
    assert_eq!(
        hotel.handle(prepare(record(1, "falla_hotel", 1, 1))),
        Ok(Some(false))
    );
    assert_eq!(hotel.transaction_log.len(), 0);

    let mut airline = Airline::new();
    assert_eq!(
        airline.handle(prepare(record(1, "falla_airline", 1, 1))),
        Ok(Some(false))
    );
    assert_eq!(airline.transaction_log.len(), 0);

    let mut bank = Bank::new();
    assert_eq!(
        bank.handle(prepare(record(1, "falla_banco", 1, 1))),
        Ok(Some(false))
    );
    assert_eq!(bank.transaction_log.len(), 0);
}

#[test]
fn sentinel_is_per_participant() {
    // The airline's sentinel is an ordinary client for the hotel.
    let mut hotel = Hotel::new();
    assert_eq!(
        hotel.handle(prepare(record(2, "falla_airline", 1, 1))),
        Ok(Some(true))
    );
}

#[test]
fn commit_applies_effect_exactly_once() {
    let mut hotel = Hotel::new();
    hotel.handle(prepare(record(9, "bob", 4, 6))).unwrap();
    hotel
        .handle(TransactionMessage::Commit { transaction_id: 9 })
        .unwrap();
    assert_eq!(hotel.reservations, 1);
    hotel
        .handle(TransactionMessage::Commit { transaction_id: 9 })
        .unwrap();
    assert_eq!(hotel.reservations, 1);
}

#[test]
fn commit_on_aborted_id_is_noop() {
    let mut hotel = Hotel::new();
    hotel.handle(prepare(record(3, "carol", 2, 2))).unwrap();
    hotel
        .handle(TransactionMessage::Abort { transaction_id: 3 })
        .unwrap();
    hotel
        .handle(TransactionMessage::Commit { transaction_id: 3 })
        .unwrap();
    assert_eq!(hotel.reservations, 0);
    assert_eq!(hotel.transaction_log.len(), 1);
}

#[test]
fn commit_on_unknown_id_is_noop() {
    let mut bank = Bank::new();
    assert_eq!(
        bank.handle(TransactionMessage::Commit { transaction_id: 42 }),
        Ok(Some(true))
    );
    assert_eq!(bank.hotel_account, 0);
    assert_eq!(bank.airline_account, 0);
    assert_eq!(bank.transaction_log.len(), 0);
}

#[test]
fn abort_closes_an_unknown_id() {
    let mut airline = Airline::new();
    assert_eq!(
        airline.handle(TransactionMessage::Abort { transaction_id: 8 }),
        Ok(Some(true))
    );
    assert!(airline.transaction_log.contains(8));
}

#[test]
fn bank_credits_both_accounts_once() {
    let mut bank = Bank::new();
    bank.handle(prepare(record(6, "dora", 30, 50))).unwrap();
    bank.handle(TransactionMessage::Commit { transaction_id: 6 })
        .unwrap();
    assert_eq!(bank.hotel_account, 30);
    assert_eq!(bank.airline_account, 50);
    bank.handle(TransactionMessage::Commit { transaction_id: 6 })
        .unwrap();
    assert_eq!(bank.hotel_account, 30);
    assert_eq!(bank.airline_account, 50);
}

#[test]
fn response_message_is_a_protocol_violation() {
    let mut hotel = Hotel::new();
    assert_eq!(
        hotel.handle(TransactionMessage::Response { success: true }),
        Err(ProtocolViolation)
    );
}
