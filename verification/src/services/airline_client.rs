use super::common_client::{
    answer_flaky, draw, spec_answer_flaky, spec_is_request, Answer,
};
use super::constants::DRAW_BOUND;
use std::collections::HashMap;
use vstd::prelude::*;

verus! {

broadcast use vstd::std_specs::hash::group_hash_axioms;

/// A service that refuses by chance some of the bookings it is asked to
/// prepare, and remembers which bookings it was asked about.
pub struct Airline {
    old_responses: HashMap<u64, bool>,
}

impl View for Airline {
    type V = Map<u64, bool>;

    closed spec fn view(&self) -> Map<u64, bool> {
        self.old_responses@
    }
}

impl Airline {
    pub fn new() -> (service: Self)
        ensures
            service@ == Map::<u64, bool>::empty(),
    {
        Airline { old_responses: HashMap::new() }
    }

    /// Answers a request, given the number drawn for it.
    pub fn answer_drawn(&mut self, vector: &[u8], draw: u32) -> (answer: Answer)
        requires
            spec_is_request(vector@),
        ensures
            (final(self)@, answer.response@, answer.fee_change) == spec_answer_flaky(
                old(self)@,
                vector@,
                draw,
            ),
    {
        answer_flaky(&mut self.old_responses, vector, draw)
    }

    /// Answers a request: draws a number, and answers as for that number.
    pub fn answer_message(&mut self, vector: &[u8]) -> (answer: Answer)
        requires
            spec_is_request(vector@),
        ensures
            exists|draw: u32|
                draw < DRAW_BOUND && (final(self)@, answer.response@, answer.fee_change)
                    == #[trigger] spec_answer_flaky(old(self)@, vector@, draw),
    {
        let drawn = draw();
        self.answer_drawn(vector, drawn)
    }
}

} // verus!
