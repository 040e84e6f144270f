//! Core of a distributed reservation system.
//!
//! A coordinator drives two-phase commit over three participant services
//! (hotel, airline, bank); coordinator replicas elect a single active leader
//! with the bully algorithm and detect its failure with periodic health
//! checks.  This crate holds the verified core: the wire codecs for the
//! transaction and election protocols, the participant transaction log and
//! its state machine, the two-phase-commit orchestration steps, the bully
//! election state machine, and the pending-payments queue.  Sockets, threads
//! and file persistence live outside the crate and drive these state
//! machines with plain values.

pub mod bully;
pub mod control_message;
pub mod event;
pub mod leader_election;
pub mod participant;
pub mod payments_queue;
pub mod queue;
pub mod replication;
pub mod stats;
pub mod transaction;
pub mod transaction_log;
pub mod transaction_message;
pub mod two_phase;
pub mod wire;
