use vstd::prelude::*;
use vstd::string::*;

verus! {

/// What the coordinator asks of a service, and what a service answers.
#[derive(PartialEq, Eq, Structural, Clone, Copy, Debug)]
pub enum TransactionCode {
    Prepare,
    Abort,
    Accept,
    Commit,
}

impl TransactionCode {
    pub open spec fn spec_label(&self) -> Seq<char> {
        match *self {
            TransactionCode::Prepare => "PREPARAR"@,
            TransactionCode::Abort => "ABORTAR"@,
            TransactionCode::Accept => "ACEPTAR"@,
            TransactionCode::Commit => "COMMIT"@,
        }
    }

    pub fn label(&self) -> (text: String)
        ensures
            text@ == self.spec_label(),
    {
        match *self {
            TransactionCode::Prepare => String::from_str("PREPARAR"),
            TransactionCode::Abort => String::from_str("ABORTAR"),
            TransactionCode::Accept => String::from_str("ACEPTAR"),
            TransactionCode::Commit => String::from_str("COMMIT"),
        }
    }
}

} // verus!
