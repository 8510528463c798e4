use super::big_endian::{be_bytes, push_word};
use super::transaction_code::TransactionCode;
use vstd::prelude::*;

verus! {

/// `P`
pub const PREPARE_BYTE: u8 = 0x50;

/// `A`
pub const ABORT_BYTE: u8 = 0x41;

/// `C`
pub const COMMIT_BYTE: u8 = 0x43;

/// Number of bytes of a request.
pub const REQUEST_SIZE: usize = 17;

/// What the coordinator sends to a service: an opcode, the booking's
/// identifier and the bits of the fee.
pub struct TransactionRequest;

impl TransactionRequest {
    /// The codes that a request can carry.
    pub open spec fn spec_is_request(code: TransactionCode) -> bool {
        code != TransactionCode::Accept
    }

    /// The opcode of a request; `Accept` has none.
    pub open spec fn spec_map_transaction_code(code: TransactionCode) -> u8 {
        match code {
            TransactionCode::Prepare => PREPARE_BYTE,
            TransactionCode::Abort => ABORT_BYTE,
            _ => COMMIT_BYTE,
        }
    }

    pub open spec fn spec_build(code: TransactionCode, id: u64, fee: u64) -> Seq<u8> {
        seq![Self::spec_map_transaction_code(code)] + be_bytes(id) + be_bytes(fee)
    }

    pub fn size() -> (size: usize)
        ensures
            size == REQUEST_SIZE,
            forall|code: TransactionCode, id: u64, fee: u64|
                #[trigger] Self::spec_build(code, id, fee).len() == size,
    {
        REQUEST_SIZE
    }

    pub fn build(code: TransactionCode, id: u64, fee: u64) -> (message: Vec<u8>)
        requires
            Self::spec_is_request(code),
        ensures
            message@ == Self::spec_build(code, id, fee),
            message@.len() == REQUEST_SIZE,
    {
        let opcode = TransactionRequest::map_transaction_code(code);
        let mut message: Vec<u8> = Vec::new();
        message.push(opcode);
        push_word(&mut message, id);
        push_word(&mut message, fee);
        assert(message@ =~= Self::spec_build(code, id, fee));
        message
    }

    #[verifier::when_used_as_spec(spec_is_request)]
    pub fn is_request(code: TransactionCode) -> (known: bool)
        ensures
            known == Self::spec_is_request(code),
    {
        match code {
            TransactionCode::Accept => false,
            _ => true,
        }
    }

    #[verifier::when_used_as_spec(spec_map_transaction_code)]
    pub fn map_transaction_code(code: TransactionCode) -> (byte: u8)
        requires
            Self::spec_is_request(code),
        ensures
            byte == Self::spec_map_transaction_code(code),
    {
        match code {
            TransactionCode::Prepare => PREPARE_BYTE,
            TransactionCode::Abort => ABORT_BYTE,
            _ => COMMIT_BYTE,
        }
    }
}

} // verus!
