use super::election_code::ElectionCode;
use vstd::prelude::*;

verus! {

/// `v`
pub const ALIVE_BYTE: u8 = 0x76;

/// `e`
pub const ELECTION_BYTE: u8 = 0x65;

/// `l`
pub const LEADER_BYTE: u8 = 0x6c;

/// `f`
pub const FIRST_BYTE: u8 = 0x66;

/// The one-byte frames of the election.
pub struct ElectionMessage;

impl ElectionMessage {
    /// The byte that stands for a code.
    pub open spec fn spec_map_code(code: ElectionCode) -> u8 {
        match code {
            ElectionCode::Alive => ALIVE_BYTE,
            ElectionCode::Election => ELECTION_BYTE,
            ElectionCode::Leader => LEADER_BYTE,
            ElectionCode::First => FIRST_BYTE,
        }
    }

    /// Whether a byte stands for some code: one of `v`, `e`, `l`, `f`.
    pub open spec fn spec_is_code(byte: u8) -> bool {
        byte == ALIVE_BYTE || byte == ELECTION_BYTE || byte == LEADER_BYTE || byte == FIRST_BYTE
    }

    /// The code a byte stands for; `Alive` is the value on bytes that stand for none.
    pub open spec fn spec_code(byte: u8) -> ElectionCode {
        if byte == ELECTION_BYTE {
            ElectionCode::Election
        } else if byte == LEADER_BYTE {
            ElectionCode::Leader
        } else if byte == FIRST_BYTE {
            ElectionCode::First
        } else {
            ElectionCode::Alive
        }
    }

    /// The frame that carries a code.
    pub open spec fn spec_build(code: ElectionCode) -> Seq<u8> {
        seq![Self::spec_map_code(code)]
    }

    pub fn size() -> (size: usize)
        ensures
            size == 1,
            forall|code: ElectionCode| Self::spec_build(code).len() == size,
    {
        1
    }

    pub fn build(code: ElectionCode) -> (message: Vec<u8>)
        ensures
            message@ == Self::spec_build(code),
    {
        let byte = ElectionMessage::map_code(code);
        let mut message: Vec<u8> = Vec::new();
        message.push(byte);
        assert(message@ =~= Self::spec_build(code));
        message
    }

    #[verifier::when_used_as_spec(spec_is_code)]
    pub fn is_code(byte: u8) -> (known: bool)
        ensures
            known == Self::spec_is_code(byte),
    {
        byte == ALIVE_BYTE || byte == ELECTION_BYTE || byte == LEADER_BYTE || byte == FIRST_BYTE
    }

    #[verifier::when_used_as_spec(spec_code)]
    pub fn code(code: u8) -> (election_code: ElectionCode)
        requires
            Self::spec_is_code(code),
        ensures
            election_code == Self::spec_code(code),
            Self::spec_map_code(election_code) == code,
    {
        if code == ALIVE_BYTE {
            ElectionCode::Alive
        } else if code == ELECTION_BYTE {
            ElectionCode::Election
        } else if code == LEADER_BYTE {
            ElectionCode::Leader
        } else {
            ElectionCode::First
        }
    }

    #[verifier::when_used_as_spec(spec_map_code)]
    pub fn map_code(code: ElectionCode) -> (byte: u8)
        ensures
            byte == Self::spec_map_code(code),
            Self::spec_is_code(byte),
            Self::spec_code(byte) == code,
    {
        match code {
            ElectionCode::Alive => ALIVE_BYTE,
            ElectionCode::Election => ELECTION_BYTE,
            ElectionCode::Leader => LEADER_BYTE,
            ElectionCode::First => FIRST_BYTE,
        }
    }
}

} // verus!
