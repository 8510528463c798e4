use vstd::prelude::*;
use vstd::string::*;

verus! {

/// What a replica says to another during an election.
#[derive(PartialEq, Eq, Structural, Clone, Copy, Debug)]
pub enum ElectionCode {
    Alive,
    Election,
    Leader,
    First,
}

impl ElectionCode {
    pub open spec fn spec_label(&self) -> Seq<char> {
        match *self {
            ElectionCode::Alive => "VIVO"@,
            ElectionCode::Election => "ELECCION"@,
            ElectionCode::Leader => "LIDER"@,
            ElectionCode::First => "PRIMERA"@,
        }
    }

    pub fn label(&self) -> (text: String)
        ensures
            text@ == self.spec_label(),
    {
        match *self {
            ElectionCode::Alive => String::from_str("VIVO"),
            ElectionCode::Election => String::from_str("ELECCION"),
            ElectionCode::Leader => String::from_str("LIDER"),
            ElectionCode::First => String::from_str("PRIMERA"),
        }
    }
}

} // verus!
