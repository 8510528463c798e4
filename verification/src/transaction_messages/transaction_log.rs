use super::big_endian::{be_bytes, be_word_at, push_word, read_word, word_after_prefix};
use super::transaction_info::{TransactionInfo, INFO_SIZE};
use super::types::LOG_BYTE;
use crate::alglobo::transaction::Transaction;
use crate::alglobo::transaction_state::TransactionState;
use crate::alglobo::transactionable::TransactionView;
use vstd::prelude::*;

verus! {

/// Number of bytes of a snapshot.
pub const LOG_SIZE: usize = 36;

/// The snapshot of a booking that the leader sends to the other replicas: the
/// tag, the identifier, then state and fee of Airline, Hotel and Bank.
pub struct TransactionLog;

impl TransactionLog {
    pub open spec fn spec_row(info: (TransactionState, u64)) -> Seq<u8> {
        seq![info.0.spec_byte_code()] + be_bytes(info.1)
    }

    pub open spec fn spec_build(
        id: u64,
        airline_info: (TransactionState, u64),
        hotel_info: (TransactionState, u64),
        bank_info: (TransactionState, u64),
    ) -> Seq<u8> {
        seq![LOG_BYTE] + be_bytes(id) + Self::spec_row(airline_info) + Self::spec_row(hotel_info)
            + Self::spec_row(bank_info)
    }

    /// Whether `message` can be read as a snapshot: long enough, with a known byte
    /// where each state stands.
    pub open spec fn spec_is_well_formed(message: Seq<u8>) -> bool {
        &&& message.len() >= LOG_SIZE
        &&& TransactionState::spec_is_byte_code(message[9])
        &&& TransactionState::spec_is_byte_code(message[18])
        &&& TransactionState::spec_is_byte_code(message[27])
    }

    /// The booking that a snapshot holds.
    pub open spec fn spec_new_transaction(message: Seq<u8>) -> TransactionView {
        TransactionView {
            id: be_word_at(message, 1),
            airline: (TransactionState::spec_from_byte(message[9]), be_word_at(message, 10)),
            hotel: (TransactionState::spec_from_byte(message[18]), be_word_at(message, 19)),
            bank: (TransactionState::spec_from_byte(message[27]), be_word_at(message, 28)),
        }
    }

    pub fn size() -> (size: usize)
        ensures
            size == LOG_SIZE,
            forall|
                id: u64,
                airline: (TransactionState, u64),
                hotel: (TransactionState, u64),
                bank: (TransactionState, u64),
            | #[trigger] Self::spec_build(id, airline, hotel, bank).len() == size,
    {
        LOG_SIZE
    }

    pub fn build(
        id: u64,
        airline_info: (TransactionState, u64),
        hotel_info: (TransactionState, u64),
        bank_info: (TransactionState, u64),
    ) -> (message: Vec<u8>)
        ensures
            message@ == Self::spec_build(id, airline_info, hotel_info, bank_info),
            message@.len() == LOG_SIZE,
    {
        let mut message: Vec<u8> = Vec::new();
        message.push(LOG_BYTE);
        push_word(&mut message, id);
        message.push(airline_info.0.byte_code());
        push_word(&mut message, airline_info.1);
        message.push(hotel_info.0.byte_code());
        push_word(&mut message, hotel_info.1);
        message.push(bank_info.0.byte_code());
        push_word(&mut message, bank_info.1);
        assert(message@ =~= Self::spec_build(id, airline_info, hotel_info, bank_info));
        message
    }

    pub fn is_well_formed(message: &[u8]) -> (well_formed: bool)
        ensures
            well_formed == Self::spec_is_well_formed(message@),
    {
        message.len() >= LOG_SIZE && TransactionState::is_byte_code(message[9])
            && TransactionState::is_byte_code(message[18]) && TransactionState::is_byte_code(
            message[27],
        )
    }

    pub fn new_transaction(message: &[u8]) -> (transaction: Transaction)
        requires
            Self::spec_is_well_formed(message@),
        ensures
            transaction@ == Self::spec_new_transaction(message@),
    {
        let id = read_word(message, 1);
        let airline = (TransactionState::from_byte(message[9]), read_word(message, 10));
        let hotel = (TransactionState::from_byte(message[18]), read_word(message, 19));
        let bank = (TransactionState::from_byte(message[27]), read_word(message, 28));
        Transaction::with_rows(id, airline, hotel, bank)
    }

    /// A snapshot that was built is read back as the booking it was built from:
    /// the identifier and the state and fee of each service.
    pub proof fn new_transaction_inverts_build(transaction: TransactionView)
        ensures
            transaction.log() == Self::spec_build(
                transaction.id,
                transaction.airline,
                transaction.hotel,
                transaction.bank,
            ),
            transaction.log().len() == INFO_SIZE,
            Self::spec_is_well_formed(transaction.log()),
            Self::spec_new_transaction(transaction.log()) == transaction,
    {
        let id = transaction.id;
        let airline = transaction.airline;
        let hotel = transaction.hotel;
        let bank = transaction.bank;
        let message = Self::spec_build(id, airline, hotel, bank);
        assert(message.len() == INFO_SIZE);
        assert(TransactionInfo::spec_add_padding(message) == message);
        let empty = Seq::<u8>::empty();
        let head1 = seq![LOG_BYTE];
        let tail1 = Self::spec_row(airline) + Self::spec_row(hotel) + Self::spec_row(bank);
        assert(message =~= head1 + be_bytes(id) + tail1);
        word_after_prefix(head1, id, tail1);
        let head2 = head1 + be_bytes(id) + seq![airline.0.spec_byte_code()];
        let tail2 = Self::spec_row(hotel) + Self::spec_row(bank);
        assert(message =~= head2 + be_bytes(airline.1) + tail2);
        word_after_prefix(head2, airline.1, tail2);
        let head3 = head2 + be_bytes(airline.1) + seq![hotel.0.spec_byte_code()];
        let tail3 = Self::spec_row(bank);
        assert(message =~= head3 + be_bytes(hotel.1) + tail3);
        word_after_prefix(head3, hotel.1, tail3);
        let head4 = head3 + be_bytes(hotel.1) + seq![bank.0.spec_byte_code()];
        assert(message =~= head4 + be_bytes(bank.1) + empty);
        word_after_prefix(head4, bank.1, empty);
        assert(message[9] == airline.0.spec_byte_code());
        assert(message[18] == hotel.0.spec_byte_code());
        assert(message[27] == bank.0.spec_byte_code());
        TransactionState::byte_code_is_injective(airline.0, airline.0);
        TransactionState::byte_code_is_injective(hotel.0, hotel.0);
        TransactionState::byte_code_is_injective(bank.0, bank.0);
    }
}

} // verus!
