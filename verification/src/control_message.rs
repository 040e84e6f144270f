//! Wire format of the election control protocol.
//!
//! Every control message travels as a fixed five-byte datagram: one opcode
//! byte followed by the sender's peer id as a four-byte little-endian
//! integer.  A datagram of the wrong size or with an unknown opcode is
//! malformed; the decoder never turns it into a valid-looking message.

use vstd::bytes::{
    lemma_auto_spec_u32_to_from_le_bytes, spec_u32_from_le_bytes, spec_u32_to_le_bytes,
    u32_from_le_bytes, u32_to_le_bytes,
};
use vstd::prelude::*;
use vstd::slice::slice_subrange;

verus! {

/// Identifier of one coordinator replica.
///
/// Replica ids live in the fixed range `MIN_PEER_ID ..= MAX_PEER_ID` of
/// [`crate::bully`]; each id maps to one fixed network address, so there is
/// no discovery protocol.
pub type PeerId = u32;

/// One message of the election control protocol.
#[derive(Clone, Copy, Debug, PartialEq, Eq, Structural)]
pub enum ControlMessage {
    /// Veto sent to a lower-id peer that started an election.
    Okay,
    /// Request to start an election, sent to every higher-id peer.
    Election,
    /// Announcement by the winner of an election.
    Coordinator,
    /// Health-check request sent to the current leader.
    Ping,
    /// Health-check response.
    Pong,
    /// There is no more work to do: every replica must stop.
    GracefulQuit,
}

/// Opcode byte of [`ControlMessage::Okay`]: ASCII `O`.
pub const OPCODE_OKAY: u8 = 79;

/// Opcode byte of [`ControlMessage::Election`]: ASCII `E`.
pub const OPCODE_ELECTION: u8 = 69;

/// Opcode byte of [`ControlMessage::Coordinator`]: ASCII `C`.
pub const OPCODE_COORDINATOR: u8 = 67;

/// Opcode byte of [`ControlMessage::Ping`]: ASCII `P`.
pub const OPCODE_PING: u8 = 80;

/// Opcode byte of [`ControlMessage::Pong`]: ASCII `p`.
pub const OPCODE_PONG: u8 = 112;

/// Opcode byte of [`ControlMessage::GracefulQuit`]: ASCII `Q`.
pub const OPCODE_GRACEFUL_QUIT: u8 = 81;

/// Number of bytes of one encoded control message.
pub const CONTROL_MESSAGE_SIZE: usize = 5;

impl ControlMessage {
    /// Opcode byte that identifies this message on the wire.
    pub open spec fn spec_opcode(self) -> u8 {
        match self {
            ControlMessage::Okay => OPCODE_OKAY,
            ControlMessage::Election => OPCODE_ELECTION,
            ControlMessage::Coordinator => OPCODE_COORDINATOR,
            ControlMessage::Ping => OPCODE_PING,
            ControlMessage::Pong => OPCODE_PONG,
            ControlMessage::GracefulQuit => OPCODE_GRACEFUL_QUIT,
        }
    }

    /// True when the byte is the opcode of some control message.
    pub open spec fn spec_is_opcode(b: u8) -> bool {
        b == OPCODE_OKAY || b == OPCODE_ELECTION || b == OPCODE_COORDINATOR || b == OPCODE_PING || b == OPCODE_PONG || b == OPCODE_GRACEFUL_QUIT
    }

    /// The control message whose opcode is the given byte.
    pub open spec fn spec_message_of(b: u8) -> ControlMessage
        recommends
            Self::spec_is_opcode(b),
    {
        if b == OPCODE_OKAY {
            ControlMessage::Okay
        } else if b == OPCODE_ELECTION {
            ControlMessage::Election
        } else if b == OPCODE_COORDINATOR {
            ControlMessage::Coordinator
        } else if b == OPCODE_PING {
            ControlMessage::Ping
        } else if b == OPCODE_PONG {
            ControlMessage::Pong
        } else {
            ControlMessage::GracefulQuit
        }
    }

    /// The encoding of this message with the given sender id.
    pub open spec fn spec_to_bytes(self, id: PeerId) -> Seq<u8> {
        seq![self.spec_opcode()] + spec_u32_to_le_bytes(id)
    }

    /// True when the bytes are a well-formed control datagram.
    pub open spec fn spec_frame_ok(data: Seq<u8>) -> bool {
        data.len() == CONTROL_MESSAGE_SIZE && Self::spec_is_opcode(data[0])
    }

    /// The message and sender id encoded by a well-formed datagram.
    pub open spec fn spec_from_bytes(data: Seq<u8>) -> (ControlMessage, PeerId)
        recommends
            Self::spec_frame_ok(data),
    {
        (Self::spec_message_of(data[0]), spec_u32_from_le_bytes(data.subrange(1, 5)))
    }

    /// Encodes the message with the sender's id.
    pub fn to_bytes(self, id: PeerId) -> (r: Vec<u8>)
        ensures
            r@ == self.spec_to_bytes(id),
            r@.len() == CONTROL_MESSAGE_SIZE,
    {
        let opcode: u8 = match self {
            ControlMessage::Okay => OPCODE_OKAY,
            ControlMessage::Election => OPCODE_ELECTION,
            ControlMessage::Coordinator => OPCODE_COORDINATOR,
            ControlMessage::Ping => OPCODE_PING,
            ControlMessage::Pong => OPCODE_PONG,
            ControlMessage::GracefulQuit => OPCODE_GRACEFUL_QUIT,
        };
        let mut result: Vec<u8> = Vec::new();
        result.push(opcode);
        let mut id_bytes = u32_to_le_bytes(id);
        result.append(&mut id_bytes);
        proof {
            lemma_auto_spec_u32_to_from_le_bytes();
            assert(result@ =~= seq![self.spec_opcode()] + spec_u32_to_le_bytes(id));
        }
        result
    }

    /// Decodes a well-formed datagram.
    ///
    /// Decoding inverts encoding exactly: a datagram produced by
    /// [`Self::to_bytes`] comes back as the message and id it was made from.
    pub fn from_bytes(data: &[u8]) -> (r: (ControlMessage, PeerId))
        requires
            Self::spec_frame_ok(data@),
        ensures
            r == Self::spec_from_bytes(data@),
            forall|m: ControlMessage, id: PeerId| data@ == m.spec_to_bytes(id) ==> r == (m, id),
    {
        let opcode = data[0];
        let message = if opcode == OPCODE_OKAY {
            ControlMessage::Okay
        } else if opcode == OPCODE_ELECTION {
            ControlMessage::Election
        } else if opcode == OPCODE_COORDINATOR {
            ControlMessage::Coordinator
        } else if opcode == OPCODE_PING {
            ControlMessage::Ping
        } else if opcode == OPCODE_PONG {
            ControlMessage::Pong
        } else {
            ControlMessage::GracefulQuit
        };
        let id = u32_from_le_bytes(slice_subrange(data, 1, 5));
        proof {
            lemma_auto_spec_u32_to_from_le_bytes();
            assert forall|m: ControlMessage, i: PeerId|
                data@ == m.spec_to_bytes(i) implies (message, id) == (m, i) by {
                assert(data@.subrange(1, 5) =~= spec_u32_to_le_bytes(i));
            }
        }
        (message, id)
    }

    /// Decodes a datagram, or reports that it is malformed.
    ///
    /// Returns `None` exactly on the datagrams that are not well formed:
    /// wrong size, or an opcode no control message uses.
    pub fn try_from_bytes(data: &[u8]) -> (r: Option<(ControlMessage, PeerId)>)
        ensures
            r is Some <==> Self::spec_frame_ok(data@),
            r is Some ==> r->Some_0 == Self::spec_from_bytes(data@),
            forall|m: ControlMessage, id: PeerId|
                data@ == m.spec_to_bytes(id) ==> r == Some((m, id)),
    {
        let r = if data.len() != CONTROL_MESSAGE_SIZE {
            None
        } else {
            let opcode = data[0];
            if opcode == OPCODE_OKAY || opcode == OPCODE_ELECTION || opcode == OPCODE_COORDINATOR
                || opcode == OPCODE_PING || opcode == OPCODE_PONG
                || opcode == OPCODE_GRACEFUL_QUIT {
                Some(Self::from_bytes(data))
            } else {
                None
            }
        };
        proof {
            lemma_auto_spec_u32_to_from_le_bytes();
            assert forall|m: ControlMessage, id: PeerId|
                data@ == m.spec_to_bytes(id) implies r == Some((m, id)) by {
                assert(Self::spec_is_opcode(m.spec_to_bytes(id)[0]));
            }
        }
        r
    }

    /// Number of bytes of one encoded control message: the opcode byte plus
    /// the four id bytes.
    pub fn size_of() -> (r: usize)
        ensures
            r == CONTROL_MESSAGE_SIZE,
    {
        CONTROL_MESSAGE_SIZE
    }
}

} // verus!
