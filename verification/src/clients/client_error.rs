use vstd::prelude::*;
use vstd::string::*;

verus! {

/// What can go wrong between a client and its peer.
#[derive(PartialEq, Eq, Structural, Clone, Copy, Debug)]
pub enum ClientError {
    ZeroBytes,
    Timeout,
}

impl ClientError {
    pub open spec fn spec_label(&self) -> Seq<char> {
        match *self {
            ClientError::ZeroBytes => "Cero bytes transmitidos"@,
            ClientError::Timeout => "Timeout"@,
        }
    }

    pub fn label(&self) -> (text: String)
        ensures
            text@ == self.spec_label(),
    {
        match *self {
            ClientError::ZeroBytes => String::from_str("Cero bytes transmitidos"),
            ClientError::Timeout => String::from_str("Timeout"),
        }
    }
}

} // verus!
