use super::constants::{DRAW_BOUND, PERCENTAGE_ERROR};
use crate::transaction_messages::big_endian::{be_word_at, read_word};
use crate::transaction_messages::transaction_code::TransactionCode;
use crate::transaction_messages::transaction_info::TransactionInfo;
use crate::transaction_messages::transaction_request::{ABORT_BYTE, PREPARE_BYTE, REQUEST_SIZE};
use crate::transaction_messages::transaction_response::TransactionResponse;
use rand::Rng;
use std::collections::HashMap;
use vstd::prelude::*;

verus! {

broadcast use vstd::std_specs::hash::group_hash_axioms;

/// What an answer does to the sum of the fees that a service has charged. A
/// fee is held as the 64 bits that encode it.
#[derive(PartialEq, Eq, Structural, Clone, Copy, Debug)]
pub enum FeeChange {
    Keep,
    Add(u64),
    Subtract(u64),
}

/// What a service does with a request: the frame it answers with, and what
/// becomes of the sum of its fees.
pub struct Answer {
    pub response: Vec<u8>,
    pub fee_change: FeeChange,
}

/// Whether `vector` can be read as a request: it holds an identifier, and a fee
/// too unless it asks to prepare.
pub open spec fn spec_is_request(vector: Seq<u8>) -> bool {
    vector.len() >= 9 && (vector[0] != PREPARE_BYTE ==> vector.len() == REQUEST_SIZE)
}

/// The frame that answers the booking `id` with `code`.
pub open spec fn spec_response(code: TransactionCode, id: u64) -> Seq<u8> {
    TransactionInfo::spec_add_padding(TransactionResponse::spec_build(code, id))
}

/// What a service that never refuses does with a request. It accepts what it is
/// asked to prepare, gives back the fee of what it is asked to abort, and
/// charges the fee of anything else.
pub open spec fn spec_answer_steady(vector: Seq<u8>) -> (Seq<u8>, FeeChange) {
    let id = be_word_at(vector, 1);
    if vector[0] == PREPARE_BYTE {
        (spec_response(TransactionCode::Accept, id), FeeChange::Keep)
    } else if vector[0] == ABORT_BYTE {
        (spec_response(TransactionCode::Abort, id), FeeChange::Subtract(be_word_at(vector, 9)))
    } else {
        (spec_response(TransactionCode::Commit, id), FeeChange::Add(be_word_at(vector, 9)))
    }
}

/// What a service that refuses by chance does with a request, given the
/// bookings `old_responses` that it was asked to prepare before and the number
/// `draw` that it drew. A booking that it has seen before it accepts; a new one
/// it refuses when the number is below `PERCENTAGE_ERROR`, and remembers either
/// way. Other requests it treats as a service that never refuses does.
pub open spec fn spec_answer_flaky(old_responses: Map<u64, bool>, vector: Seq<u8>, draw: u32) -> (
    Map<u64, bool>,
    Seq<u8>,
    FeeChange,
) {
    let id = be_word_at(vector, 1);
    if vector[0] == PREPARE_BYTE && !old_responses.dom().contains(id) {
        if draw < PERCENTAGE_ERROR {
            (
                old_responses.insert(id, false),
                spec_response(TransactionCode::Abort, id),
                FeeChange::Keep,
            )
        } else {
            (
                old_responses.insert(id, true),
                spec_response(TransactionCode::Accept, id),
                FeeChange::Keep,
            )
        }
    } else {
        (old_responses, spec_answer_steady(vector).0, spec_answer_steady(vector).1)
    }
}

/// Draws a number with `rand::Rng::gen_range`, on the range from zero up to
/// `bound`, from the generator that `rand::thread_rng` hands out. All that is
/// claimed of the number is that it lies in the range asked for.
#[verifier::external_body]
fn draw_below(bound: u32) -> (draw: u32)
    requires
        bound > 0,
    ensures
        draw < bound,
{
    rand::thread_rng().gen_range(0..bound)
}

/// The number that a service draws for a booking.
pub fn draw() -> (draw: u32)
    ensures
        draw < DRAW_BOUND,
{
    draw_below(DRAW_BOUND)
}

pub fn is_request(vector: &[u8]) -> (known: bool)
    ensures
        known == spec_is_request(vector@),
{
    vector.len() >= 9 && (vector[0] == PREPARE_BYTE || vector.len() == REQUEST_SIZE)
}

/// The frame that answers the booking `id` with `code`.
pub fn response(code: TransactionCode, id: u64) -> (response: Vec<u8>)
    requires
        TransactionResponse::spec_is_response(code),
    ensures
        response@ == spec_response(code, id),
{
    let mut response = TransactionResponse::build(code, id);
    TransactionInfo::add_padding(&mut response);
    response
}

pub fn answer_steady(vector: &[u8]) -> (answer: Answer)
    requires
        spec_is_request(vector@),
    ensures
        (answer.response@, answer.fee_change) == spec_answer_steady(vector@),
{
    let code = vector[0];
    let transaction_id = read_word(vector, 1);
    if code == PREPARE_BYTE {
        Answer {
            response: response(TransactionCode::Accept, transaction_id),
            fee_change: FeeChange::Keep,
        }
    } else if code == ABORT_BYTE {
        Answer {
            response: response(TransactionCode::Abort, transaction_id),
            fee_change: FeeChange::Subtract(read_word(vector, 9)),
        }
    } else {
        Answer {
            response: response(TransactionCode::Commit, transaction_id),
            fee_change: FeeChange::Add(read_word(vector, 9)),
        }
    }
}

pub fn answer_flaky(old_responses: &mut HashMap<u64, bool>, vector: &[u8], draw: u32) -> (answer:
    Answer)
    requires
        spec_is_request(vector@),
    ensures
        (final(old_responses)@, answer.response@, answer.fee_change) == spec_answer_flaky(
            old(old_responses)@,
            vector@,
            draw,
        ),
{
    let code = vector[0];
    let transaction_id = read_word(vector, 1);
    if code == PREPARE_BYTE && !old_responses.contains_key(&transaction_id) {
        if draw < PERCENTAGE_ERROR {
            old_responses.insert(transaction_id, false);
            Answer {
                response: response(TransactionCode::Abort, transaction_id),
                fee_change: FeeChange::Keep,
            }
        } else {
            old_responses.insert(transaction_id, true);
            Answer {
                response: response(TransactionCode::Accept, transaction_id),
                fee_change: FeeChange::Keep,
            }
        }
    } else {
        answer_steady(vector)
    }
}

} // verus!
