use vstd::prelude::*;
use vstd::string::*;

verus! {

/// Why an answer from a service was not applied, or a wait ended early.
#[derive(PartialEq, Eq, Structural, Clone, Copy, Debug)]
pub enum TransactionError {
    /// No booking is being processed.
    NoCurrent,
    /// A phase ran out of time.
    Timeout,
    /// The answer belongs to another booking than the current one.
    WrongId,
}

impl TransactionError {
    pub open spec fn spec_label(&self) -> Seq<char> {
        match *self {
            TransactionError::NoCurrent => "No hay transaccion siendo procesada"@,
            TransactionError::Timeout => "Timeout en transaccion"@,
            TransactionError::WrongId => "No es la transaccion actual"@,
        }
    }

    pub fn label(&self) -> (text: String)
        ensures
            text@ == self.spec_label(),
    {
        match *self {
            TransactionError::NoCurrent => String::from_str("No hay transaccion siendo procesada"),
            TransactionError::Timeout => String::from_str("Timeout en transaccion"),
            TransactionError::WrongId => String::from_str("No es la transaccion actual"),
        }
    }
}

} // verus!
