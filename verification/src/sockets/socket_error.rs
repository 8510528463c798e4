use vstd::prelude::*;
use vstd::string::*;

verus! {

/// What can go wrong on a datagram endpoint.
#[derive(PartialEq, Eq, Structural, Clone, Copy, Debug)]
pub enum SocketError {
    CloneFailed,
    Timeout,
    ZeroBytes,
}

impl SocketError {
    pub open spec fn spec_label(&self) -> Seq<char> {
        match *self {
            SocketError::CloneFailed => "Clonar un socket no deberia fallar"@,
            SocketError::Timeout => "Timeout"@,
            SocketError::ZeroBytes => "Cero bytes transmitidos"@,
        }
    }

    pub fn label(&self) -> (text: String)
        ensures
            text@ == self.spec_label(),
    {
        match *self {
            SocketError::CloneFailed => String::from_str("Clonar un socket no deberia fallar"),
            SocketError::Timeout => String::from_str("Timeout"),
            SocketError::ZeroBytes => String::from_str("Cero bytes transmitidos"),
        }
    }
}

} // verus!
