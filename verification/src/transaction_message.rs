//! Wire format of the transaction control protocol.
//!
//! The coordinator and the participants exchange four message kinds over a
//! stream transport, each framed by a four-byte length prefix (see
//! [`crate::wire`]).  The payload starts with one opcode byte; `Prepare`
//! carries the whole transaction record, `Abort` and `Commit` carry the
//! transaction id, and `Response` carries one boolean byte.  A payload with
//! an unknown opcode or too few bytes is malformed and must be treated as
//! fatal for the connection, never coerced into a valid-looking message.

use crate::transaction::AlgloboTransaction;
use crate::wire::{decode_utf8_lossy, lemma_encode_utf8_injective, push_u32_le};
use vstd::bytes::{
    lemma_auto_spec_u32_to_from_le_bytes, spec_u32_from_le_bytes, spec_u32_to_le_bytes,
    u32_from_le_bytes,
};
use vstd::prelude::*;
use vstd::slice::slice_subrange;
use vstd::utf8::{encode_utf8, encode_utf8_valid_utf8, valid_utf8};

verus! {

/// One message of the transaction protocol.
#[derive(Debug, PartialEq, Eq)]
pub enum TransactionMessage {
    /// Ask a participant to tentatively accept the transaction.
    Prepare {
        /// The payment record to reserve.
        transaction: AlgloboTransaction,
    },
    /// Tell a participant to discard its tentative acceptance.
    Abort {
        /// Id of the transaction to abort.
        transaction_id: u32,
    },
    /// Tell a participant to finalize an accepted transaction.
    Commit {
        /// Id of the transaction to finalize.
        transaction_id: u32,
    },
    /// A participant's answer to `Prepare`.
    Response {
        /// True when the participant accepted.
        success: bool,
    },
}

/// Opcode byte of [`TransactionMessage::Prepare`]: ASCII `P`.
pub const OPCODE_TX_PREPARE: u8 = 80;

/// Opcode byte of [`TransactionMessage::Abort`]: ASCII `A`.
pub const OPCODE_TX_ABORT: u8 = 65;

/// Opcode byte of [`TransactionMessage::Commit`]: ASCII `C`.
pub const OPCODE_TX_COMMIT: u8 = 67;

/// Opcode byte of [`TransactionMessage::Response`]: ASCII `R`.
pub const OPCODE_TX_RESPONSE: u8 = 82;

/// Byte that encodes a successful response: ASCII `t`.
pub const RESPONSE_TRUE: u8 = 116;

/// Byte that encodes a rejecting response: ASCII `f`.
pub const RESPONSE_FALSE: u8 = 102;

impl TransactionMessage {
    /// Opcode byte that identifies this message on the wire.
    pub open spec fn spec_opcode(self) -> u8 {
        match self {
            TransactionMessage::Prepare { .. } => OPCODE_TX_PREPARE,
            TransactionMessage::Abort { .. } => OPCODE_TX_ABORT,
            TransactionMessage::Commit { .. } => OPCODE_TX_COMMIT,
            TransactionMessage::Response { .. } => OPCODE_TX_RESPONSE,
        }
    }

    /// The encoding of this message.
    pub open spec fn spec_to_bytes(self) -> Seq<u8> {
        match self {
            TransactionMessage::Prepare { transaction } => seq![OPCODE_TX_PREPARE]
                + spec_u32_to_le_bytes(transaction.id) + spec_u32_to_le_bytes(
                transaction.airline_price,
            ) + spec_u32_to_le_bytes(transaction.hotel_price) + encode_utf8(transaction.client@),
            TransactionMessage::Abort { transaction_id } => seq![OPCODE_TX_ABORT]
                + spec_u32_to_le_bytes(transaction_id),
            TransactionMessage::Commit { transaction_id } => seq![OPCODE_TX_COMMIT]
                + spec_u32_to_le_bytes(transaction_id),
            TransactionMessage::Response { success } => seq![
                OPCODE_TX_RESPONSE,
                if success {
                    RESPONSE_TRUE
                } else {
                    RESPONSE_FALSE
                },
            ],
        }
    }

    /// True when the bytes are a well-formed message payload: a known opcode
    /// followed by enough bytes for that message kind.
    pub open spec fn spec_frame_ok(bytes: Seq<u8>) -> bool {
        bytes.len() >= 1 && {
            ||| bytes[0] == OPCODE_TX_PREPARE && bytes.len() >= 13
            ||| (bytes[0] == OPCODE_TX_ABORT || bytes[0] == OPCODE_TX_COMMIT) && bytes.len() == 5
            ||| bytes[0] == OPCODE_TX_RESPONSE && bytes.len() >= 2
        }
    }

    /// True when the two messages hold the same values, comparing client
    /// strings by their characters.
    pub open spec fn eqv(self, other: Self) -> bool {
        match (self, other) {
            (
                TransactionMessage::Prepare { transaction: a },
                TransactionMessage::Prepare { transaction: b },
            ) => a.eqv(b),
            (
                TransactionMessage::Abort { transaction_id: a },
                TransactionMessage::Abort { transaction_id: b },
            ) => a == b,
            (
                TransactionMessage::Commit { transaction_id: a },
                TransactionMessage::Commit { transaction_id: b },
            ) => a == b,
            (
                TransactionMessage::Response { success: a },
                TransactionMessage::Response { success: b },
            ) => a == b,
            _ => false,
        }
    }

    /// Encodes the message.
    pub fn to_bytes(&self) -> (r: Vec<u8>)
        ensures
            r@ == self.spec_to_bytes(),
            Self::spec_frame_ok(r@),
    {
        match self {
            TransactionMessage::Prepare { transaction } => {
                let mut result: Vec<u8> = Vec::new();
                result.push(OPCODE_TX_PREPARE);
                push_u32_le(&mut result, transaction.id);
                push_u32_le(&mut result, transaction.airline_price);
                push_u32_le(&mut result, transaction.hotel_price);
                let client_bytes = transaction.client.as_str().as_bytes();
                result.extend_from_slice(client_bytes);
                proof {
                    lemma_auto_spec_u32_to_from_le_bytes();
                    assert(result@ =~= self.spec_to_bytes());
                }
                result
            },
            TransactionMessage::Abort { transaction_id } => {
                let mut result: Vec<u8> = Vec::new();
                result.push(OPCODE_TX_ABORT);
                push_u32_le(&mut result, *transaction_id);
                proof {
                    lemma_auto_spec_u32_to_from_le_bytes();
                    assert(result@ =~= self.spec_to_bytes());
                }
                result
            },
            TransactionMessage::Commit { transaction_id } => {
                let mut result: Vec<u8> = Vec::new();
                result.push(OPCODE_TX_COMMIT);
                push_u32_le(&mut result, *transaction_id);
                proof {
                    lemma_auto_spec_u32_to_from_le_bytes();
                    assert(result@ =~= self.spec_to_bytes());
                }
                result
            },
            TransactionMessage::Response { success } => {
                let mut result: Vec<u8> = Vec::new();
                result.push(OPCODE_TX_RESPONSE);
                result.push(if *success {
                    RESPONSE_TRUE
                } else {
                    RESPONSE_FALSE
                });
                proof {
                    assert(result@ =~= self.spec_to_bytes());
                }
                result
            },
        }
    }

    /// Decodes a well-formed message payload.
    ///
    /// Decoding inverts encoding: a payload produced by [`Self::to_bytes`]
    /// comes back as the message it was made from, for every message kind
    /// and every client string.  A `Prepare` payload whose client bytes are
    /// not valid UTF-8 still decodes (the client string is recovered
    /// lossily), and all its fixed-width fields are exact.
    pub fn from_bytes(bytes: &[u8]) -> (r: Self)
        requires
            Self::spec_frame_ok(bytes@),
        ensures
            r.spec_opcode() == bytes@[0],
            bytes@[0] == OPCODE_TX_PREPARE ==> (r matches TransactionMessage::Prepare {
                transaction,
            } && transaction.id == spec_u32_from_le_bytes(bytes@.subrange(1, 5))
                && transaction.airline_price == spec_u32_from_le_bytes(bytes@.subrange(5, 9))
                && transaction.hotel_price == spec_u32_from_le_bytes(bytes@.subrange(9, 13)) && (
            valid_utf8(bytes@.skip(13)) ==> encode_utf8(transaction.client@) == bytes@.skip(13))),
            bytes@[0] == OPCODE_TX_ABORT ==> r == (TransactionMessage::Abort {
                transaction_id: spec_u32_from_le_bytes(bytes@.subrange(1, 5)),
            }),
            bytes@[0] == OPCODE_TX_COMMIT ==> r == (TransactionMessage::Commit {
                transaction_id: spec_u32_from_le_bytes(bytes@.subrange(1, 5)),
            }),
            bytes@[0] == OPCODE_TX_RESPONSE ==> r == (TransactionMessage::Response {
                success: bytes@[1] == RESPONSE_TRUE,
            }),
            forall|m: TransactionMessage| bytes@ == m.spec_to_bytes() ==> r.eqv(m),
    {
        let opcode = bytes[0];
        let r = if opcode == OPCODE_TX_PREPARE {
            let id = u32_from_le_bytes(slice_subrange(bytes, 1, 5));
            let airline_price = u32_from_le_bytes(slice_subrange(bytes, 5, 9));
            let hotel_price = u32_from_le_bytes(slice_subrange(bytes, 9, 13));
            let client = decode_utf8_lossy(slice_subrange(bytes, 13, bytes.len()));
            TransactionMessage::Prepare {
                transaction: AlgloboTransaction { id, client, hotel_price, airline_price },
            }
        } else if opcode == OPCODE_TX_ABORT {
            TransactionMessage::Abort {
                transaction_id: u32_from_le_bytes(slice_subrange(bytes, 1, 5)),
            }
        } else if opcode == OPCODE_TX_COMMIT {
            TransactionMessage::Commit {
                transaction_id: u32_from_le_bytes(slice_subrange(bytes, 1, 5)),
            }
        } else {
            TransactionMessage::Response { success: bytes[1] == RESPONSE_TRUE }
        };
        proof {
            Self::lemma_decode_round_trip(bytes@, r);
        }
        r
    }

    /// Decoding a message's own encoding recovers it; stated over the exact
    /// field decodes that `from_bytes` establishes.
    proof fn lemma_decode_round_trip(bytes: Seq<u8>, r: Self)
        requires
            Self::spec_frame_ok(bytes),
            r.spec_opcode() == bytes[0],
            bytes[0] == OPCODE_TX_PREPARE ==> (r matches TransactionMessage::Prepare { transaction }
                && transaction.id == spec_u32_from_le_bytes(bytes.subrange(1, 5))
                && transaction.airline_price == spec_u32_from_le_bytes(bytes.subrange(5, 9))
                && transaction.hotel_price == spec_u32_from_le_bytes(bytes.subrange(9, 13)) && (
            valid_utf8(bytes.skip(13)) ==> encode_utf8(transaction.client@) == bytes.skip(13))),
            bytes[0] == OPCODE_TX_ABORT ==> r == (TransactionMessage::Abort {
                transaction_id: spec_u32_from_le_bytes(bytes.subrange(1, 5)),
            }),
            bytes[0] == OPCODE_TX_COMMIT ==> r == (TransactionMessage::Commit {
                transaction_id: spec_u32_from_le_bytes(bytes.subrange(1, 5)),
            }),
            bytes[0] == OPCODE_TX_RESPONSE ==> r == (TransactionMessage::Response {
                success: bytes[1] == RESPONSE_TRUE,
            }),
        ensures
            forall|m: TransactionMessage| bytes == m.spec_to_bytes() ==> r.eqv(m),
    {
        lemma_auto_spec_u32_to_from_le_bytes();
        assert forall|m: TransactionMessage| bytes == m.spec_to_bytes() implies r.eqv(m) by {
            match m {
                TransactionMessage::Prepare { transaction } => {
                    assert(bytes.subrange(1, 5) =~= spec_u32_to_le_bytes(transaction.id));
                    assert(bytes.subrange(5, 9) =~= spec_u32_to_le_bytes(transaction.airline_price));
                    assert(bytes.subrange(9, 13) =~= spec_u32_to_le_bytes(transaction.hotel_price));
                    assert(bytes.skip(13) =~= encode_utf8(transaction.client@));
                    broadcast use encode_utf8_valid_utf8;

                    let rt = r->Prepare_transaction;
                    lemma_encode_utf8_injective(rt.client@, transaction.client@);
                },
                TransactionMessage::Abort { transaction_id } => {
                    assert(bytes.subrange(1, 5) =~= spec_u32_to_le_bytes(transaction_id));
                },
                TransactionMessage::Commit { transaction_id } => {
                    assert(bytes.subrange(1, 5) =~= spec_u32_to_le_bytes(transaction_id));
                },
                TransactionMessage::Response { success } => {},
            }
        }
    }

    /// Decodes a message payload, or reports that it is malformed.
    ///
    /// Returns `None` exactly on the payloads that are not well formed:
    /// empty, an opcode no message uses, or too few bytes for the opcode.
    pub fn try_from_bytes(bytes: &[u8]) -> (r: Option<Self>)
        ensures
            r is Some <==> Self::spec_frame_ok(bytes@),
            r matches Some(m) ==> m.spec_opcode() == bytes@[0],
            forall|m: TransactionMessage|
                bytes@ == m.spec_to_bytes() ==> (r matches Some(d) && d.eqv(m)),
    {
        if bytes.len() == 0 {
            proof {
                Self::lemma_encoding_frame_ok();
            }
            return None;
        }
        let opcode = bytes[0];
        let ok = if opcode == OPCODE_TX_PREPARE {
            bytes.len() >= 13
        } else if opcode == OPCODE_TX_ABORT || opcode == OPCODE_TX_COMMIT {
            bytes.len() == 5
        } else if opcode == OPCODE_TX_RESPONSE {
            bytes.len() >= 2
        } else {
            false
        };
        proof {
            Self::lemma_encoding_frame_ok();
        }
        if ok {
            Some(Self::from_bytes(bytes))
        } else {
            None
        }
    }

    /// Every encoding that `spec_to_bytes` yields is a well-formed frame.
    proof fn lemma_encoding_frame_ok()
        ensures
            forall|m: TransactionMessage| #[trigger]
                Self::spec_frame_ok(m.spec_to_bytes()),
    {
        lemma_auto_spec_u32_to_from_le_bytes();
        assert forall|m: TransactionMessage| #[trigger]
            Self::spec_frame_ok(m.spec_to_bytes()) by {
            match m {
                TransactionMessage::Prepare { transaction } => {
                    assert(m.spec_to_bytes().len() >= 13);
                    assert(m.spec_to_bytes()[0] == OPCODE_TX_PREPARE);
                },
                TransactionMessage::Abort { transaction_id } => {
                    assert(m.spec_to_bytes().len() == 5);
                    assert(m.spec_to_bytes()[0] == OPCODE_TX_ABORT);
                },
                TransactionMessage::Commit { transaction_id } => {
                    assert(m.spec_to_bytes().len() == 5);
                    assert(m.spec_to_bytes()[0] == OPCODE_TX_COMMIT);
                },
                TransactionMessage::Response { success } => {
                    assert(m.spec_to_bytes().len() == 2);
                    assert(m.spec_to_bytes()[0] == OPCODE_TX_RESPONSE);
                },
            }
        }
    }
}

} // verus!
