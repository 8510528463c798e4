use vstd::prelude::*;
use vstd::string::*;

verus! {

/// `W`
pub const WAITING_BYTE: u8 = 0x57;

/// `O`
pub const ACCEPTED_BYTE: u8 = 0x4f;

/// `A`
pub const ABORTED_BYTE: u8 = 0x41;

/// `C`
pub const COMMITED_BYTE: u8 = 0x43;

/// Where one service stands within a booking.
#[derive(PartialEq, Eq, Structural, Hash, Clone, Copy, Debug)]
pub enum TransactionState {
    Waiting,
    Accepted,
    Aborted,
    Commited,
}

impl TransactionState {
    /// The byte that stands for a state on the wire.
    pub open spec fn spec_byte_code(&self) -> u8 {
        match *self {
            TransactionState::Waiting => WAITING_BYTE,
            TransactionState::Accepted => ACCEPTED_BYTE,
            TransactionState::Aborted => ABORTED_BYTE,
            TransactionState::Commited => COMMITED_BYTE,
        }
    }

    /// Whether a byte stands for some state: one of `W`, `O`, `A`, `C`.
    pub open spec fn spec_is_byte_code(byte: u8) -> bool {
        byte == WAITING_BYTE || byte == ACCEPTED_BYTE || byte == ABORTED_BYTE || byte == COMMITED_BYTE
    }

    /// The state a byte stands for; `Waiting` is the value on bytes that stand for none.
    pub open spec fn spec_from_byte(byte: u8) -> TransactionState {
        if byte == ACCEPTED_BYTE {
            TransactionState::Accepted
        } else if byte == ABORTED_BYTE {
            TransactionState::Aborted
        } else if byte == COMMITED_BYTE {
            TransactionState::Commited
        } else {
            TransactionState::Waiting
        }
    }

    /// The label used in traces and records.
    pub open spec fn spec_label(&self) -> Seq<char> {
        match *self {
            TransactionState::Waiting => "EN ESPERA"@,
            TransactionState::Accepted => "ACEPTADO"@,
            TransactionState::Aborted => "ABORTADO"@,
            TransactionState::Commited => "COMMITEADO"@,
        }
    }

    #[verifier::when_used_as_spec(spec_byte_code)]
    pub fn byte_code(&self) -> (byte: u8)
        ensures
            byte == self.spec_byte_code(),
            Self::spec_is_byte_code(byte),
            Self::spec_from_byte(byte) == *self,
    {
        match *self {
            TransactionState::Waiting => WAITING_BYTE,
            TransactionState::Accepted => ACCEPTED_BYTE,
            TransactionState::Aborted => ABORTED_BYTE,
            TransactionState::Commited => COMMITED_BYTE,
        }
    }

    #[verifier::when_used_as_spec(spec_is_byte_code)]
    pub fn is_byte_code(byte: u8) -> (known: bool)
        ensures
            known == Self::spec_is_byte_code(byte),
            known <==> exists|state: TransactionState| state.spec_byte_code() == byte,
    {
        proof {
            if Self::spec_is_byte_code(byte) {
                assert(Self::spec_from_byte(byte).spec_byte_code() == byte);
            }
        }
        byte == WAITING_BYTE || byte == ACCEPTED_BYTE || byte == ABORTED_BYTE || byte == COMMITED_BYTE
    }

    #[verifier::when_used_as_spec(spec_from_byte)]
    pub fn from_byte(byte: u8) -> (state: TransactionState)
        requires
            Self::spec_is_byte_code(byte),
        ensures
            state == Self::spec_from_byte(byte),
            state.spec_byte_code() == byte,
    {
        if byte == WAITING_BYTE {
            TransactionState::Waiting
        } else if byte == ACCEPTED_BYTE {
            TransactionState::Accepted
        } else if byte == ABORTED_BYTE {
            TransactionState::Aborted
        } else {
            TransactionState::Commited
        }
    }

    pub fn label(&self) -> (text: String)
        ensures
            text@ == self.spec_label(),
    {
        match *self {
            TransactionState::Waiting => String::from_str("EN ESPERA"),
            TransactionState::Accepted => String::from_str("ACEPTADO"),
            TransactionState::Aborted => String::from_str("ABORTADO"),
            TransactionState::Commited => String::from_str("COMMITEADO"),
        }
    }

    /// States and their bytes correspond one to one: decoding undoes encoding,
    /// and two states with the same byte are the same state.
    pub proof fn byte_code_is_injective(a: TransactionState, b: TransactionState)
        ensures
            Self::spec_is_byte_code(a.spec_byte_code()),
            Self::spec_from_byte(a.spec_byte_code()) == a,
            a.spec_byte_code() == b.spec_byte_code() ==> a == b,
    {
    }

    /// Every byte among `W`, `O`, `A`, `C` is the code of the state it decodes to.
    pub proof fn from_byte_is_inverse(byte: u8)
        requires
            Self::spec_is_byte_code(byte),
        ensures
            Self::spec_from_byte(byte).spec_byte_code() == byte,
    {
    }
}

} // verus!
