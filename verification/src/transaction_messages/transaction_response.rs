use super::big_endian::{be_bytes, be_word_at, push_word, read_word, word_after_prefix};
use super::transaction_code::TransactionCode;
use super::types::RESPONSE_BYTE;
use vstd::prelude::*;

verus! {

/// `o`
pub const ACCEPT_BYTE: u8 = 0x6f;

/// `A`
pub const ABORT_BYTE: u8 = 0x41;

/// `C`
pub const COMMIT_BYTE: u8 = 0x43;

/// Number of bytes of an answer before padding.
pub const RESPONSE_SIZE: usize = 10;

/// What a service answers: the tag, an opcode and the booking's identifier.
pub struct TransactionResponse;

impl TransactionResponse {
    /// The codes that an answer can carry.
    pub open spec fn spec_is_response(code: TransactionCode) -> bool {
        code != TransactionCode::Prepare
    }

    /// The opcode of an answer; `Prepare` has none.
    pub open spec fn spec_map_transaction_code(code: TransactionCode) -> u8 {
        match code {
            TransactionCode::Accept => ACCEPT_BYTE,
            TransactionCode::Abort => ABORT_BYTE,
            _ => COMMIT_BYTE,
        }
    }

    /// Whether a byte is the opcode of an answer: one of `o`, `A`, `C`.
    pub open spec fn spec_is_code(byte: u8) -> bool {
        byte == ACCEPT_BYTE || byte == ABORT_BYTE || byte == COMMIT_BYTE
    }

    /// The code that an opcode stands for; `Accept` is the value on other bytes.
    pub open spec fn spec_transaction_code(byte: u8) -> TransactionCode {
        if byte == ABORT_BYTE {
            TransactionCode::Abort
        } else if byte == COMMIT_BYTE {
            TransactionCode::Commit
        } else {
            TransactionCode::Accept
        }
    }

    pub open spec fn spec_build(code: TransactionCode, id: u64) -> Seq<u8> {
        seq![RESPONSE_BYTE, Self::spec_map_transaction_code(code)] + be_bytes(id)
    }

    /// Whether `message` can be read as an answer: long enough, with a known opcode.
    pub open spec fn spec_is_well_formed(message: Seq<u8>) -> bool {
        message.len() >= RESPONSE_SIZE && Self::spec_is_code(message[1])
    }

    /// The code and the identifier that an answer carries.
    pub open spec fn spec_parse(message: Seq<u8>) -> (TransactionCode, u64) {
        (Self::spec_transaction_code(message[1]), be_word_at(message, 2))
    }

    pub fn size() -> (size: usize)
        ensures
            size == RESPONSE_SIZE,
            forall|code: TransactionCode, id: u64| #[trigger]
                Self::spec_build(code, id).len() == size,
    {
        RESPONSE_SIZE
    }

    pub fn build(code: TransactionCode, id: u64) -> (message: Vec<u8>)
        requires
            Self::spec_is_response(code),
        ensures
            message@ == Self::spec_build(code, id),
            message@.len() == RESPONSE_SIZE,
    {
        let mut message: Vec<u8> = Vec::new();
        message.push(RESPONSE_BYTE);
        message.push(TransactionResponse::map_transaction_code(code));
        push_word(&mut message, id);
        assert(message@ =~= Self::spec_build(code, id));
        message
    }

    #[verifier::when_used_as_spec(spec_is_code)]
    pub fn is_code(byte: u8) -> (known: bool)
        ensures
            known == Self::spec_is_code(byte),
    {
        byte == ACCEPT_BYTE || byte == ABORT_BYTE || byte == COMMIT_BYTE
    }

    #[verifier::when_used_as_spec(spec_transaction_code)]
    pub fn transaction_code(code: u8) -> (transaction_code: TransactionCode)
        requires
            Self::spec_is_code(code),
        ensures
            transaction_code == Self::spec_transaction_code(code),
            Self::spec_is_response(transaction_code),
            Self::spec_map_transaction_code(transaction_code) == code,
    {
        if code == ACCEPT_BYTE {
            TransactionCode::Accept
        } else if code == ABORT_BYTE {
            TransactionCode::Abort
        } else {
            TransactionCode::Commit
        }
    }

    #[verifier::when_used_as_spec(spec_map_transaction_code)]
    pub fn map_transaction_code(code: TransactionCode) -> (byte: u8)
        requires
            Self::spec_is_response(code),
        ensures
            byte == Self::spec_map_transaction_code(code),
            Self::spec_is_code(byte),
            Self::spec_transaction_code(byte) == code,
    {
        match code {
            TransactionCode::Accept => ACCEPT_BYTE,
            TransactionCode::Abort => ABORT_BYTE,
            _ => COMMIT_BYTE,
        }
    }

    pub fn is_well_formed(message: &[u8]) -> (well_formed: bool)
        ensures
            well_formed == Self::spec_is_well_formed(message@),
    {
        message.len() >= RESPONSE_SIZE && TransactionResponse::is_code(message[1])
    }

    pub fn parse(message: &[u8]) -> (parsed: (TransactionCode, u64))
        requires
            Self::spec_is_well_formed(message@),
        ensures
            parsed == Self::spec_parse(message@),
    {
        let code = TransactionResponse::transaction_code(message[1]);
        let id = read_word(message, 2);
        (code, id)
    }

    /// The three answers and the bytes `o`, `A`, `C` correspond one to one.
    pub proof fn code_mapping_is_one_to_one(a: TransactionCode, b: TransactionCode, byte: u8)
        requires
            Self::spec_is_response(a),
            Self::spec_is_response(b),
        ensures
            Self::spec_is_code(Self::spec_map_transaction_code(a)),
            Self::spec_transaction_code(Self::spec_map_transaction_code(a)) == a,
            Self::spec_map_transaction_code(a) == Self::spec_map_transaction_code(b) ==> a == b,
            Self::spec_is_code(byte) ==> Self::spec_is_response(Self::spec_transaction_code(byte))
                && Self::spec_map_transaction_code(Self::spec_transaction_code(byte)) == byte,
    {
    }

    /// An answer that was built, padded or not, is read back as what it was built from.
    pub proof fn parse_inverts_build(code: TransactionCode, id: u64, padding: Seq<u8>)
        requires
            Self::spec_is_response(code),
        ensures
            Self::spec_is_well_formed(Self::spec_build(code, id) + padding),
            Self::spec_parse(Self::spec_build(code, id) + padding) == (code, id),
    {
        let head = seq![RESPONSE_BYTE, Self::spec_map_transaction_code(code)];
        word_after_prefix(head, id, padding);
        assert(Self::spec_build(code, id) + padding =~= head + be_bytes(id) + padding);
    }
}

} // verus!
