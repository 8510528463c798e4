use vstd::prelude::*;
use vstd::string::*;

verus! {

/// `A`
pub const AIRLINE_BYTE: u8 = 0x41;

/// `H`
pub const HOTEL_BYTE: u8 = 0x48;

/// `B`
pub const BANK_BYTE: u8 = 0x42;

/// The three services that take part in every booking.
#[derive(PartialEq, Eq, Structural, Hash, Clone, Copy, Debug)]
pub enum ServiceName {
    Airline,
    Hotel,
    Bank,
}

impl ServiceName {
    pub open spec fn spec_byte_code(&self) -> u8 {
        match *self {
            ServiceName::Airline => AIRLINE_BYTE,
            ServiceName::Hotel => HOTEL_BYTE,
            ServiceName::Bank => BANK_BYTE,
        }
    }

    pub open spec fn spec_string_name(&self) -> Seq<char> {
        match *self {
            ServiceName::Airline => "Airline"@,
            ServiceName::Hotel => "Hotel"@,
            ServiceName::Bank => "Bank"@,
        }
    }

    #[verifier::when_used_as_spec(spec_byte_code)]
    pub fn byte_code(&self) -> (byte: u8)
        ensures
            byte == self.spec_byte_code(),
    {
        match *self {
            ServiceName::Airline => AIRLINE_BYTE,
            ServiceName::Hotel => HOTEL_BYTE,
            ServiceName::Bank => BANK_BYTE,
        }
    }

    pub fn string_name(&self) -> (name: String)
        ensures
            name@ == self.spec_string_name(),
    {
        match *self {
            ServiceName::Airline => String::from_str("Airline"),
            ServiceName::Hotel => String::from_str("Hotel"),
            ServiceName::Bank => String::from_str("Bank"),
        }
    }

    /// No two services share a byte or a name.
    pub proof fn names_are_distinct(a: ServiceName, b: ServiceName)
        ensures
            a.spec_byte_code() == b.spec_byte_code() ==> a == b,
            a.spec_string_name() == b.spec_string_name() ==> a == b,
    {
        reveal_strlit("Airline");
        reveal_strlit("Hotel");
        reveal_strlit("Bank");
        if a != b && a.spec_string_name() == b.spec_string_name() {
            assert(a.spec_string_name().len() == b.spec_string_name().len());
        }
    }
}

} // verus!
