use super::transaction_request::{ABORT_BYTE, COMMIT_BYTE, PREPARE_BYTE};
use super::transaction_response::ACCEPT_BYTE;
use crate::alglobo::transaction_state::TransactionState;
use crate::candidates::election_message::ElectionMessage;
use vstd::prelude::*;

verus! {

/// First byte of a service's answer to the coordinator: `R`.
pub const RESPONSE_BYTE: u8 = 0x52;

/// First byte of a snapshot that the leader sends to the other replicas: `L`.
pub const LOG_BYTE: u8 = 0x4c;

/// First byte of a request to run a booking again: `T`.
pub const RETRY_BYTE: u8 = 0x54;

/// Whether a byte is one of the three tags.
pub open spec fn is_tag(byte: u8) -> bool {
    byte == RESPONSE_BYTE || byte == LOG_BYTE || byte == RETRY_BYTE
}

/// The three tags differ from each other, and no tag is the opcode of a
/// request or of an answer, the code of a state or a frame of the election.
pub proof fn tags_stand_apart(byte: u8)
    requires
        is_tag(byte),
    ensures
        RESPONSE_BYTE != LOG_BYTE && LOG_BYTE != RETRY_BYTE && RESPONSE_BYTE != RETRY_BYTE,
        byte != PREPARE_BYTE && byte != ABORT_BYTE && byte != COMMIT_BYTE && byte != ACCEPT_BYTE,
        !TransactionState::spec_is_byte_code(byte),
        !ElectionMessage::spec_is_code(byte),
{
}

} // verus!
