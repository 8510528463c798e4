use super::transaction_state::TransactionState;
use super::transactionable::{TransactionView, Transactionable};
use crate::services::service_fees::ServiceFees;
use crate::services::service_name::ServiceName;
use crate::text::decimal_string;
use crate::transaction_messages::transaction_info::TransactionInfo;
use crate::transaction_messages::transaction_log::TransactionLog;
use crate::transaction_messages::transaction_retry::TransactionRetry;
use vstd::prelude::*;
use vstd::string::*;

verus! {

/// A booking: an identifier and, for each of the three services, its state and
/// the bits of its fee.
#[derive(PartialEq, Eq, Clone, Copy, Debug)]
pub struct Transaction {
    id: u64,
    airline: (TransactionState, u64),
    hotel: (TransactionState, u64),
    bank: (TransactionState, u64),
}

impl View for Transaction {
    type V = TransactionView;

    closed spec fn view(&self) -> TransactionView {
        TransactionView { id: self.id, airline: self.airline, hotel: self.hotel, bank: self.bank }
    }
}

impl Transaction {
    /// A booking that no service has answered yet.
    pub fn new(id: u64, airline_fee: u64, hotel_fee: u64, bank_fee: u64) -> (transaction: Self)
        ensures
            transaction@ == TransactionView::fresh(id, airline_fee, hotel_fee, bank_fee),
    {
        Transaction {
            id,
            airline: (TransactionState::Waiting, airline_fee),
            hotel: (TransactionState::Waiting, hotel_fee),
            bank: (TransactionState::Waiting, bank_fee),
        }
    }

    /// A booking with the state and fee of each service given.
    pub fn with_rows(
        id: u64,
        airline: (TransactionState, u64),
        hotel: (TransactionState, u64),
        bank: (TransactionState, u64),
    ) -> (transaction: Self)
        ensures
            transaction@ == (TransactionView { id, airline, hotel, bank }),
    {
        Transaction { id, airline, hotel, bank }
    }

    /// The state of one service.
    pub fn state(&self, name: ServiceName) -> (state: TransactionState)
        ensures
            state == self@.state(name),
    {
        match name {
            ServiceName::Airline => self.airline.0,
            ServiceName::Hotel => self.hotel.0,
            ServiceName::Bank => self.bank.0,
        }
    }

    fn admits(target: TransactionState, source: TransactionState) -> (admitted: bool)
        ensures
            admitted == TransactionView::admits(target, source),
    {
        match target {
            TransactionState::Waiting => false,
            TransactionState::Accepted => source == TransactionState::Waiting,
            TransactionState::Aborted => source == TransactionState::Waiting || source
                == TransactionState::Accepted,
            TransactionState::Commited => source == TransactionState::Accepted,
        }
    }

    fn update_state(&mut self, name: ServiceName, state: TransactionState, opt_fee: Option<u64>) -> (is_valid: bool)
        ensures
            is_valid == old(self)@.permits(name, state, opt_fee),
            final(self)@ == old(self)@.moved(name, state, opt_fee),
    {
        let service = match name {
            ServiceName::Airline => self.airline,
            ServiceName::Hotel => self.hotel,
            ServiceName::Bank => self.bank,
        };
        let (is_valid, fee) = match opt_fee {
            Some(fee) => (true, fee),
            None => (Self::admits(state, service.0), service.1),
        };
        if is_valid {
            match name {
                ServiceName::Airline => {
                    self.airline = (state, fee);
                },
                ServiceName::Hotel => {
                    self.hotel = (state, fee);
                },
                ServiceName::Bank => {
                    self.bank = (state, fee);
                },
            }
        }
        is_valid
    }

    fn is_state(&self, state: TransactionState) -> (all: bool)
        ensures
            all == self@.is_state(state),
            all == self@.all_three(state),
    {
        proof {
            self@.unanimity(state);
        }
        self.airline.0 == state && self.hotel.0 == state && self.bank.0 == state
    }

    fn fee_if(keep: bool, fee: u64) -> (entry: Option<u64>)
        ensures
            entry == (if keep {
                Some(fee)
            } else {
                None
            }),
    {
        if keep {
            Some(fee)
        } else {
            None
        }
    }

    fn push_field(text: &mut String, include_states: bool, state: TransactionState, fee: &str)
        ensures
            final(text)@ == old(text)@ + TransactionView::field(include_states, state, fee@),
    {
        if include_states {
            text.append(",");
            let label = state.label();
            text.append(label.as_str());
        }
        text.append(",");
        text.append(fee);
        assert(text@ =~= old(text)@ + TransactionView::field(include_states, state, fee@));
    }
}

impl Transactionable for Transaction {
    open spec fn model(&self) -> TransactionView {
        self@
    }

    fn get_id(&self) -> (id: u64) {
        self.id
    }

    fn set_id(&mut self, id: u64) -> (done: bool) {
        self.id = id;
        true
    }

    fn wait(&mut self, name: ServiceName, opt_fee: Option<u64>) -> (done: bool) {
        self.update_state(name, TransactionState::Waiting, opt_fee)
    }

    fn accept(&mut self, name: ServiceName, opt_fee: Option<u64>) -> (done: bool) {
        self.update_state(name, TransactionState::Accepted, opt_fee)
    }

    fn abort(&mut self, name: ServiceName, opt_fee: Option<u64>) -> (done: bool) {
        self.update_state(name, TransactionState::Aborted, opt_fee)
    }

    fn commit(&mut self, name: ServiceName, opt_fee: Option<u64>) -> (done: bool) {
        self.update_state(name, TransactionState::Commited, opt_fee)
    }

    fn waiting_services(&self) -> (fees: ServiceFees) {
        let fees = ServiceFees {
            airline: Self::fee_if(self.airline.0 == TransactionState::Waiting, self.airline.1),
            hotel: Self::fee_if(self.hotel.0 == TransactionState::Waiting, self.hotel.1),
            bank: Self::fee_if(self.bank.0 == TransactionState::Waiting, self.bank.1),
        };
        assert(fees@ =~= self@.waiting_services());
        fees
    }

    fn not_aborted_services(&self) -> (fees: ServiceFees) {
        let fees = ServiceFees {
            airline: Self::fee_if(
                self.airline.0 == TransactionState::Waiting || self.airline.0
                    == TransactionState::Accepted,
                self.airline.1,
            ),
            hotel: Self::fee_if(
                self.hotel.0 == TransactionState::Waiting || self.hotel.0
                    == TransactionState::Accepted,
                self.hotel.1,
            ),
            bank: Self::fee_if(
                self.bank.0 == TransactionState::Waiting || self.bank.0
                    == TransactionState::Accepted,
                self.bank.1,
            ),
        };
        assert(fees@ =~= self@.not_aborted_services());
        fees
    }

    fn accepted_services(&self) -> (fees: ServiceFees) {
        let fees = ServiceFees {
            airline: Self::fee_if(self.airline.0 == TransactionState::Accepted, self.airline.1),
            hotel: Self::fee_if(self.hotel.0 == TransactionState::Accepted, self.hotel.1),
            bank: Self::fee_if(self.bank.0 == TransactionState::Accepted, self.bank.1),
        };
        assert(fees@ =~= self@.accepted_services());
        fees
    }

    fn all_services(&self) -> (fees: ServiceFees) {
        let fees = ServiceFees {
            airline: Some(self.airline.1),
            hotel: Some(self.hotel.1),
            bank: Some(self.bank.1),
        };
        assert(fees@ =~= self@.all_services());
        fees
    }

    fn is_any_waiting(&self) -> (any: bool) {
        proof {
            self@.unanimity(TransactionState::Waiting);
        }
        self.airline.0 == TransactionState::Waiting || self.hotel.0 == TransactionState::Waiting
            || self.bank.0 == TransactionState::Waiting
    }

    fn is_accepted(&self) -> (all: bool) {
        self.is_state(TransactionState::Accepted)
    }

    fn is_aborted(&self) -> (all: bool) {
        self.is_state(TransactionState::Aborted)
    }

    fn is_commited(&self) -> (all: bool) {
        self.is_state(TransactionState::Commited)
    }

    fn log(&self) -> (message: Vec<u8>) {
        let mut log = TransactionLog::build(self.id, self.airline, self.hotel, self.bank);
        TransactionInfo::add_padding(&mut log);
        log
    }

    fn retry(&self) -> (message: Vec<u8>) {
        let mut retry = TransactionRetry::build(self.id, self.airline.1, self.hotel.1, self.bank.1);
        TransactionInfo::add_padding(&mut retry);
        retry
    }

    fn representation(
        &self,
        include_states: bool,
        airline_fee: &str,
        hotel_fee: &str,
        bank_fee: &str,
    ) -> (text: String) {
        let mut text = decimal_string(self.id);
        Self::push_field(&mut text, include_states, self.airline.0, airline_fee);
        Self::push_field(&mut text, include_states, self.hotel.0, hotel_fee);
        Self::push_field(&mut text, include_states, self.bank.0, bank_fee);
        text
    }
}

} // verus!
