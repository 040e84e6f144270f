use alglobo::participant::{Airline, Bank, Hotel};
use alglobo::transaction::AlgloboTransaction;
use alglobo::two_phase::{Entity, TxAction, TxOrchestrator, TxPhase};

fn record(id: u32, client: &str, hotel_price: u32, airline_price: u32) -> AlgloboTransaction {
    AlgloboTransaction {
        id,
        client: client.into(),
        hotel_price,
        airline_price,
    }
}

/// Drives one transaction against in-process participants, returning every
/// action the orchestrator performed and whether the transaction committed.
fn run(
    tx: AlgloboTransaction,
    hotel: &mut Hotel,
    airline: &mut Airline,
    bank: &mut Bank,
) -> (Vec<TxAction>, bool) {
    let mut orchestrator = TxOrchestrator::new(tx);
    let mut actions = Vec::new();
    while let Some(action) = orchestrator.next_action() {
        actions.push(action);
        match action {
            TxAction::Prepare(entity) => {
                let msg = orchestrator.message_for(action).unwrap();
                let answer = match entity {
                    Entity::Hotel => hotel.handle(msg),
                    Entity::Airline => airline.handle(msg),
                    Entity::Bank => bank.handle(msg),
                };
                orchestrator.on_prepare_answer(matches!(answer, Ok(Some(true))));
            }
            TxAction::Abort(entity) | TxAction::Commit(entity) => {
                let msg = orchestrator.message_for(action).unwrap();
                match entity {
                    Entity::Hotel => hotel.handle(msg),
                    Entity::Airline => airline.handle(msg),
                    Entity::Bank => bank.handle(msg),
                }
                .unwrap();
                orchestrator.advance();
            }
            TxAction::RecordSuccess | TxAction::RecordFailure => {
                orchestrator.advance();
            }
        }
    }
    let success = matches!(orchestrator.phase, TxPhase::Done { success: true });
    (actions, success)
}

#[test]
fn all_accept_commits_all_three() {
    let mut hotel = Hotel::new();
    let mut airline = Airline::new();
    let mut bank = Bank::new();
    let (actions, success) = run(record(7, "cliente", 10, 20), &mut hotel, &mut airline, &mut bank);
    assert_eq!(
        actions,
        vec![
            TxAction::Prepare(Entity::Hotel),
            TxAction::Prepare(Entity::Airline),
            TxAction::Prepare(Entity::Bank),
            TxAction::Commit(Entity::Hotel),
            TxAction::Commit(Entity::Airline),
            TxAction::Commit(Entity::Bank),
            TxAction::RecordSuccess,
        ]
    );
    assert!(success);
    assert!(!actions.iter().any(|a| matches!(a, TxAction::Abort(_))));
    assert_eq!(hotel.reservations, 1);
    assert_eq!(airline.reservations, 1);
    assert_eq!(bank.hotel_account, 10);
    assert_eq!(bank.airline_account, 20);
}

#[test]
fn airline_rejection_aborts_hotel_only() {
    let mut hotel = Hotel::new();
    let mut airline = Airline::new();
    let mut bank = Bank::new();
    let (actions, success) = run(
        record(9, "falla_airline", 5, 5),
        &mut hotel,
        &mut airline,
        &mut bank,
    );
    assert_eq!(
        actions,
        vec![
            TxAction::Prepare(Entity::Hotel),
            TxAction::Prepare(Entity::Airline),
            TxAction::Abort(Entity::Hotel),
            TxAction::RecordFailure,
        ]
    );
    assert!(!success);
    // the bank was never spoken to
    assert_eq!(bank.transaction_log.len(), 0);
    // the hotel's tentative acceptance was closed, nothing committed
    assert!(hotel.transaction_log.contains(9));
    assert_eq!(hotel.reservations, 0);
    assert_eq!(airline.reservations, 0);
}

#[test]
fn hotel_rejection_asks_nobody_else() {
    let mut hotel = Hotel::new();
    let mut airline = Airline::new();
    let mut bank = Bank::new();
    let (actions, success) = run(
        record(11, "falla_hotel", 5, 5),
        &mut hotel,
        &mut airline,
        &mut bank,
    );
    assert_eq!(
        actions,
        vec![TxAction::Prepare(Entity::Hotel), TxAction::RecordFailure]
    );
    assert!(!success);
    assert_eq!(airline.transaction_log.len(), 0);
    assert_eq!(bank.transaction_log.len(), 0);
}

#[test]
fn bank_rejection_aborts_hotel_and_airline() {
    let mut hotel = Hotel::new();
    let mut airline = Airline::new();
    let mut bank = Bank::new();
    let (actions, success) = run(
        record(13, "falla_banco", 5, 5),
        &mut hotel,
        &mut airline,
        &mut bank,
    );
    assert_eq!(
        actions,
        vec![
            TxAction::Prepare(Entity::Hotel),
            TxAction::Prepare(Entity::Airline),
            TxAction::Prepare(Entity::Bank),
            TxAction::Abort(Entity::Hotel),
            TxAction::Abort(Entity::Airline),
            TxAction::RecordFailure,
        ]
    );
    assert!(!success);
    assert_eq!(hotel.reservations, 0);
    assert_eq!(airline.reservations, 0);
    assert_eq!(bank.hotel_account, 0);
}

#[test]
fn retried_transaction_commits_once() {
    // The same transaction driven twice — as after a coordinator failover —
    // applies its effects exactly once.
    let mut hotel = Hotel::new();
    let mut airline = Airline::new();
    let mut bank = Bank::new();
    let (_, first) = run(record(21, "eve", 8, 9), &mut hotel, &mut airline, &mut bank);
    let (_, second) = run(record(21, "eve", 8, 9), &mut hotel, &mut airline, &mut bank);
    assert!(first && second);
    assert_eq!(hotel.reservations, 1);
    assert_eq!(bank.hotel_account, 8);
    assert_eq!(bank.airline_account, 9);
}
