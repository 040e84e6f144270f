//! Wire format of the statistics event protocol.
//!
//! The coordinator reports timing and failure events to the statistics
//! collector as fire-and-forget messages over a stream transport, framed
//! like the transaction protocol (see [`crate::wire`]).  Each payload starts
//! with one opcode byte; durations travel as four little-endian bytes and
//! failure reasons as UTF-8 text.

use crate::wire::{decode_utf8_lossy, lemma_encode_utf8_injective, push_u32_le};
use vstd::bytes::{
    lemma_auto_spec_u32_to_from_le_bytes, spec_u32_from_le_bytes, spec_u32_to_le_bytes,
    u32_from_le_bytes,
};
use vstd::prelude::*;
use vstd::slice::slice_subrange;
use vstd::utf8::{encode_utf8, encode_utf8_valid_utf8, valid_utf8};

verus! {

/// One statistics event.
#[derive(Debug, PartialEq, Eq)]
pub enum Event {
    /// One participant answered a transaction message, with its latency.
    TxSuccess {
        /// Which participant answered.
        entity: u8,
        /// How long the exchange took, in milliseconds.
        duration_ms: u32,
    },
    /// One participant failed a transaction message.
    TxFailure {
        /// Which participant failed.
        entity: u8,
        /// Why the exchange failed.
        reason: String,
    },
    /// A whole payment went through, with its end-to-end latency.
    PaymentSuccess {
        /// How long the payment took, in milliseconds.
        duration: u32,
    },
    /// A whole payment failed.
    PaymentFailed {
        /// Why the payment failed.
        reason: String,
    },
}

/// Opcode byte of [`Event::TxSuccess`]: ASCII `S`.
pub const OPCODE_EVENT_TX_SUCCESS: u8 = 83;

/// Opcode byte of [`Event::TxFailure`]: ASCII `F`.
pub const OPCODE_EVENT_TX_FAILURE: u8 = 70;

/// Opcode byte of [`Event::PaymentSuccess`]: ASCII `P`.
pub const OPCODE_EVENT_PAYMENT_SUCCESS: u8 = 80;

/// Opcode byte of [`Event::PaymentFailed`]: ASCII `X`.
pub const OPCODE_EVENT_PAYMENT_FAILED: u8 = 88;

impl Event {
    /// Opcode byte that identifies this event on the wire.
    pub open spec fn spec_opcode(self) -> u8 {
        match self {
            Event::TxSuccess { .. } => OPCODE_EVENT_TX_SUCCESS,
            Event::TxFailure { .. } => OPCODE_EVENT_TX_FAILURE,
            Event::PaymentSuccess { .. } => OPCODE_EVENT_PAYMENT_SUCCESS,
            Event::PaymentFailed { .. } => OPCODE_EVENT_PAYMENT_FAILED,
        }
    }

    /// The encoding of this event.
    pub open spec fn spec_to_bytes(self) -> Seq<u8> {
        match self {
            Event::TxSuccess { entity, duration_ms } => seq![OPCODE_EVENT_TX_SUCCESS, entity]
                + spec_u32_to_le_bytes(duration_ms),
            Event::TxFailure { entity, reason } => seq![OPCODE_EVENT_TX_FAILURE, entity]
                + encode_utf8(reason@),
            Event::PaymentSuccess { duration } => seq![OPCODE_EVENT_PAYMENT_SUCCESS]
                + spec_u32_to_le_bytes(duration),
            Event::PaymentFailed { reason } => seq![OPCODE_EVENT_PAYMENT_FAILED] + encode_utf8(
                reason@,
            ),
        }
    }

    /// True when the bytes are a well-formed event payload.
    pub open spec fn spec_frame_ok(bytes: Seq<u8>) -> bool {
        bytes.len() >= 1 && {
            ||| bytes[0] == OPCODE_EVENT_TX_SUCCESS && bytes.len() == 6
            ||| bytes[0] == OPCODE_EVENT_TX_FAILURE && bytes.len() >= 2
            ||| bytes[0] == OPCODE_EVENT_PAYMENT_SUCCESS && bytes.len() == 5
            ||| bytes[0] == OPCODE_EVENT_PAYMENT_FAILED
        }
    }

    /// True when the two events hold the same values, comparing reasons by
    /// their characters.
    pub open spec fn eqv(self, other: Self) -> bool {
        match (self, other) {
            (
                Event::TxSuccess { entity: e1, duration_ms: d1 },
                Event::TxSuccess { entity: e2, duration_ms: d2 },
            ) => e1 == e2 && d1 == d2,
            (
                Event::TxFailure { entity: e1, reason: r1 },
                Event::TxFailure { entity: e2, reason: r2 },
            ) => e1 == e2 && r1@ == r2@,
            (Event::PaymentSuccess { duration: d1 }, Event::PaymentSuccess { duration: d2 }) => d1
                == d2,
            (Event::PaymentFailed { reason: r1 }, Event::PaymentFailed { reason: r2 }) => r1@
                == r2@,
            _ => false,
        }
    }

    /// Encodes the event.
    pub fn to_bytes(&self) -> (r: Vec<u8>)
        ensures
            r@ == self.spec_to_bytes(),
            Self::spec_frame_ok(r@),
    {
        let result = match self {
            Event::TxSuccess { entity, duration_ms } => {
                let mut result: Vec<u8> = Vec::new();
                result.push(OPCODE_EVENT_TX_SUCCESS);
                result.push(*entity);
                push_u32_le(&mut result, *duration_ms);
                result
            },
            Event::TxFailure { entity, reason } => {
                let mut result: Vec<u8> = Vec::new();
                result.push(OPCODE_EVENT_TX_FAILURE);
                result.push(*entity);
                result.extend_from_slice(reason.as_str().as_bytes());
                result
            },
            Event::PaymentSuccess { duration } => {
                let mut result: Vec<u8> = Vec::new();
                result.push(OPCODE_EVENT_PAYMENT_SUCCESS);
                push_u32_le(&mut result, *duration);
                result
            },
            Event::PaymentFailed { reason } => {
                let mut result: Vec<u8> = Vec::new();
                result.push(OPCODE_EVENT_PAYMENT_FAILED);
                result.extend_from_slice(reason.as_str().as_bytes());
                result
            },
        };
        proof {
            lemma_auto_spec_u32_to_from_le_bytes();
            assert(result@ =~= self.spec_to_bytes());
        }
        result
    }

    /// Decodes a well-formed event payload.
    ///
    /// Decoding inverts encoding: a payload produced by [`Self::to_bytes`]
    /// comes back as the event it was made from, for every event kind and
    /// every reason string.
    pub fn from_bytes(bytes: &[u8]) -> (r: Self)
        requires
            Self::spec_frame_ok(bytes@),
        ensures
            r.spec_opcode() == bytes@[0],
            bytes@[0] == OPCODE_EVENT_TX_SUCCESS ==> r == (Event::TxSuccess {
                entity: bytes@[1],
                duration_ms: spec_u32_from_le_bytes(bytes@.subrange(2, 6)),
            }),
            bytes@[0] == OPCODE_EVENT_TX_FAILURE ==> (r matches Event::TxFailure { entity, reason }
                && entity == bytes@[1] && (valid_utf8(bytes@.skip(2)) ==> encode_utf8(reason@)
                == bytes@.skip(2))),
            bytes@[0] == OPCODE_EVENT_PAYMENT_SUCCESS ==> r == (Event::PaymentSuccess {
                duration: spec_u32_from_le_bytes(bytes@.subrange(1, 5)),
            }),
            bytes@[0] == OPCODE_EVENT_PAYMENT_FAILED ==> (r matches Event::PaymentFailed { reason }
                && (valid_utf8(bytes@.skip(1)) ==> encode_utf8(reason@) == bytes@.skip(1))),
            forall|m: Event| bytes@ == m.spec_to_bytes() ==> r.eqv(m),
    {
        let opcode = bytes[0];
        let r = if opcode == OPCODE_EVENT_TX_SUCCESS {
            let entity = bytes[1];
            let duration_ms = u32_from_le_bytes(slice_subrange(bytes, 2, 6));
            Event::TxSuccess { entity, duration_ms }
        } else if opcode == OPCODE_EVENT_TX_FAILURE {
            let entity = bytes[1];
            let reason = decode_utf8_lossy(slice_subrange(bytes, 2, bytes.len()));
            Event::TxFailure { entity, reason }
        } else if opcode == OPCODE_EVENT_PAYMENT_SUCCESS {
            let duration = u32_from_le_bytes(slice_subrange(bytes, 1, 5));
            Event::PaymentSuccess { duration }
        } else {
            let reason = decode_utf8_lossy(slice_subrange(bytes, 1, bytes.len()));
            Event::PaymentFailed { reason }
        };
        proof {
            lemma_auto_spec_u32_to_from_le_bytes();
            assert forall|m: Event| bytes@ == m.spec_to_bytes() implies r.eqv(m) by {
                broadcast use encode_utf8_valid_utf8;

                match m {
                    Event::TxSuccess { entity, duration_ms } => {
                        assert(bytes@.subrange(2, 6) =~= spec_u32_to_le_bytes(duration_ms));
                    },
                    Event::TxFailure { entity, reason } => {
                        assert(bytes@.skip(2) =~= encode_utf8(reason@));
                        let rr = r->TxFailure_reason;
                        lemma_encode_utf8_injective(rr@, reason@);
                    },
                    Event::PaymentSuccess { duration } => {
                        assert(bytes@.subrange(1, 5) =~= spec_u32_to_le_bytes(duration));
                    },
                    Event::PaymentFailed { reason } => {
                        assert(bytes@.skip(1) =~= encode_utf8(reason@));
                        let rr = r->PaymentFailed_reason;
                        lemma_encode_utf8_injective(rr@, reason@);
                    },
                }
            }
        }
        r
    }

    /// Decodes an event payload, or reports that it is malformed.
    ///
    /// Returns `None` exactly on the payloads that are not well formed.
    pub fn try_from_bytes(bytes: &[u8]) -> (r: Option<Self>)
        ensures
            r is Some <==> Self::spec_frame_ok(bytes@),
            r matches Some(m) ==> m.spec_opcode() == bytes@[0],
            forall|m: Event| bytes@ == m.spec_to_bytes() ==> (r matches Some(d) && d.eqv(m)),
    {
        let ok = if bytes.len() == 0 {
            false
        } else {
            let opcode = bytes[0];
            if opcode == OPCODE_EVENT_TX_SUCCESS {
                bytes.len() == 6
            } else if opcode == OPCODE_EVENT_TX_FAILURE {
                bytes.len() >= 2
            } else if opcode == OPCODE_EVENT_PAYMENT_SUCCESS {
                bytes.len() == 5
            } else {
                opcode == OPCODE_EVENT_PAYMENT_FAILED
            }
        };
        let r = if ok {
            Some(Self::from_bytes(bytes))
        } else {
            None
        };
        proof {
            Self::lemma_encoding_frame_ok();
            assert forall|m: Event| bytes@ == m.spec_to_bytes() implies (r matches Some(d)
                && d.eqv(m)) by {
                assert(Self::spec_frame_ok(m.spec_to_bytes()));
            }
        }
        r
    }

    /// Every encoding that `spec_to_bytes` yields is a well-formed frame.
    proof fn lemma_encoding_frame_ok()
        ensures
            forall|m: Event| #[trigger] Self::spec_frame_ok(m.spec_to_bytes()),
    {
        lemma_auto_spec_u32_to_from_le_bytes();
        assert forall|m: Event| #[trigger] Self::spec_frame_ok(m.spec_to_bytes()) by {
            match m {
                Event::TxSuccess { entity, duration_ms } => {
                    assert(m.spec_to_bytes().len() == 6);
                    assert(m.spec_to_bytes()[0] == OPCODE_EVENT_TX_SUCCESS);
                },
                Event::TxFailure { entity, reason } => {
                    assert(m.spec_to_bytes().len() >= 2);
                    assert(m.spec_to_bytes()[0] == OPCODE_EVENT_TX_FAILURE);
                },
                Event::PaymentSuccess { duration } => {
                    assert(m.spec_to_bytes().len() == 5);
                    assert(m.spec_to_bytes()[0] == OPCODE_EVENT_PAYMENT_SUCCESS);
                },
                Event::PaymentFailed { reason } => {
                    assert(m.spec_to_bytes()[0] == OPCODE_EVENT_PAYMENT_FAILED);
                },
            }
        }
    }
}

} // verus!
