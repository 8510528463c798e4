use super::big_endian::{be_bytes, be_word_at, push_word, read_word, word_after_prefix};
use super::transaction_info::{TransactionInfo, INFO_SIZE};
use super::types::RETRY_BYTE;
use crate::alglobo::transaction::Transaction;
use crate::alglobo::transactionable::TransactionView;
use vstd::prelude::*;

verus! {

/// Number of bytes of a retry before padding.
pub const RETRY_SIZE: usize = 33;

/// The request to run a booking again: the tag, the identifier, then the fees
/// of Airline, Hotel and Bank.
pub struct TransactionRetry;

impl TransactionRetry {
    pub open spec fn spec_build(id: u64, airline_fee: u64, hotel_fee: u64, bank_fee: u64) -> Seq<
        u8,
    > {
        seq![RETRY_BYTE] + be_bytes(id) + be_bytes(airline_fee) + be_bytes(hotel_fee) + be_bytes(
            bank_fee,
        )
    }

    /// Whether `array` can be read as a retry: long enough.
    pub open spec fn spec_is_well_formed(array: Seq<u8>) -> bool {
        array.len() >= RETRY_SIZE
    }

    /// The booking that a retry asks for: every service waiting, with the fees given.
    pub open spec fn spec_new_transaction(array: Seq<u8>) -> TransactionView {
        TransactionView::fresh(
            be_word_at(array, 1),
            be_word_at(array, 9),
            be_word_at(array, 17),
            be_word_at(array, 25),
        )
    }

    pub fn size() -> (size: usize)
        ensures
            size == RETRY_SIZE,
            forall|id: u64, airline_fee: u64, hotel_fee: u64, bank_fee: u64| #[trigger]
                Self::spec_build(id, airline_fee, hotel_fee, bank_fee).len() == size,
    {
        RETRY_SIZE
    }

    pub fn build(id: u64, airline_fee: u64, hotel_fee: u64, bank_fee: u64) -> (message: Vec<u8>)
        ensures
            message@ == Self::spec_build(id, airline_fee, hotel_fee, bank_fee),
            message@.len() == RETRY_SIZE,
    {
        let mut message: Vec<u8> = Vec::new();
        message.push(RETRY_BYTE);
        push_word(&mut message, id);
        push_word(&mut message, airline_fee);
        push_word(&mut message, hotel_fee);
        push_word(&mut message, bank_fee);
        assert(message@ =~= Self::spec_build(id, airline_fee, hotel_fee, bank_fee));
        message
    }

    pub fn is_well_formed(array: &[u8]) -> (well_formed: bool)
        ensures
            well_formed == Self::spec_is_well_formed(array@),
    {
        array.len() >= RETRY_SIZE
    }

    pub fn new_transaction(array: &[u8]) -> (transaction: Transaction)
        requires
            Self::spec_is_well_formed(array@),
        ensures
            transaction@ == Self::spec_new_transaction(array@),
    {
        let id = read_word(array, 1);
        let airline_fee = read_word(array, 9);
        let hotel_fee = read_word(array, 17);
        let bank_fee = read_word(array, 25);
        Transaction::new(id, airline_fee, hotel_fee, bank_fee)
    }

    /// A retry that was built from a booking is read back as a booking with the
    /// same identifier and fees in which every service is waiting.
    pub proof fn new_transaction_inverts_build(transaction: TransactionView)
        ensures
            transaction.retry().len() == INFO_SIZE,
            Self::spec_is_well_formed(transaction.retry()),
            Self::spec_new_transaction(transaction.retry()) == TransactionView::fresh(
                transaction.id,
                transaction.airline.1,
                transaction.hotel.1,
                transaction.bank.1,
            ),
    {
        let id = transaction.id;
        let airline_fee = transaction.airline.1;
        let hotel_fee = transaction.hotel.1;
        let bank_fee = transaction.bank.1;
        let built = Self::spec_build(id, airline_fee, hotel_fee, bank_fee);
        let message = transaction.retry();
        let padding = Seq::new((INFO_SIZE - built.len()) as nat, |i: int| 0u8);
        assert(message == built + padding);
        let head1 = seq![RETRY_BYTE];
        let tail1 = be_bytes(airline_fee) + be_bytes(hotel_fee) + be_bytes(bank_fee) + padding;
        assert(message =~= head1 + be_bytes(id) + tail1);
        word_after_prefix(head1, id, tail1);
        let head2 = head1 + be_bytes(id);
        let tail2 = be_bytes(hotel_fee) + be_bytes(bank_fee) + padding;
        assert(message =~= head2 + be_bytes(airline_fee) + tail2);
        word_after_prefix(head2, airline_fee, tail2);
        let head3 = head2 + be_bytes(airline_fee);
        let tail3 = be_bytes(bank_fee) + padding;
        assert(message =~= head3 + be_bytes(hotel_fee) + tail3);
        word_after_prefix(head3, hotel_fee, tail3);
        let head4 = head3 + be_bytes(hotel_fee);
        assert(message =~= head4 + be_bytes(bank_fee) + padding);
        word_after_prefix(head4, bank_fee, padding);
    }
}

} // verus!
