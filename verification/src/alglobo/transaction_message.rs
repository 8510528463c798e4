use crate::transaction_messages::big_endian::{be_bytes, push_word};
use crate::transaction_messages::transaction_request::{ABORT_BYTE, PREPARE_BYTE};
use vstd::prelude::*;

verus! {

/// The two requests that open and undo a booking, without the envelope's tag.
pub struct TransactionMessage;

impl TransactionMessage {
    /// An opcode, then the identifier and the bits of the fee.
    pub open spec fn spec_message(opcode: u8, id: u64, fee: u64) -> Seq<u8> {
        seq![opcode] + be_bytes(id) + be_bytes(fee)
    }

    pub fn prepare(id: u64, fee: u64) -> (message: Vec<u8>)
        ensures
            message@ == Self::spec_message(PREPARE_BYTE, id, fee),
    {
        let mut message: Vec<u8> = Vec::new();
        message.push(PREPARE_BYTE);
        TransactionMessage::add_id_and_fee_to_message(&mut message, id, fee);
        message
    }

    pub fn abort(id: u64, fee: u64) -> (message: Vec<u8>)
        ensures
            message@ == Self::spec_message(ABORT_BYTE, id, fee),
    {
        let mut message: Vec<u8> = Vec::new();
        message.push(ABORT_BYTE);
        TransactionMessage::add_id_and_fee_to_message(&mut message, id, fee);
        message
    }

    fn add_id_and_fee_to_message(message: &mut Vec<u8>, id: u64, fee: u64)
        ensures
            final(message)@ == old(message)@ + be_bytes(id) + be_bytes(fee),
    {
        push_word(message, id);
        push_word(message, fee);
    }
}

} // verus!
