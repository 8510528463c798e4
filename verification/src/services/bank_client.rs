use super::common_client::{answer_steady, spec_answer_steady, spec_is_request, Answer};
use vstd::prelude::*;

verus! {

/// A service that accepts every booking it is asked to prepare.
pub struct Bank;

impl Bank {
    pub fn new() -> (service: Self)
        ensures
            service == Bank,
    {
        Bank
    }

    pub fn answer_message(&mut self, vector: &[u8]) -> (answer: Answer)
        requires
            spec_is_request(vector@),
        ensures
            (answer.response@, answer.fee_change) == spec_answer_steady(vector@),
    {
        answer_steady(vector)
    }
}

} // verus!
