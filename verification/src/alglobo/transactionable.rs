use super::transaction_state::TransactionState;
use crate::services::service_fees::ServiceFees;
use crate::services::service_name::ServiceName;
use crate::text::decimal;
use crate::transaction_messages::transaction_info::TransactionInfo;
use crate::transaction_messages::transaction_log::TransactionLog;
use crate::transaction_messages::transaction_retry::TransactionRetry;
use vstd::prelude::*;

verus! {

/// What a booking is: its identifier and, for each of the three services,
/// the state the service is in and the bits of its fee.
pub struct TransactionView {
    pub id: u64,
    pub airline: (TransactionState, u64),
    pub hotel: (TransactionState, u64),
    pub bank: (TransactionState, u64),
}

impl TransactionView {
    /// A booking that no service has answered yet.
    pub open spec fn fresh(id: u64, airline_fee: u64, hotel_fee: u64, bank_fee: u64) -> Self {
        TransactionView {
            id,
            airline: (TransactionState::Waiting, airline_fee),
            hotel: (TransactionState::Waiting, hotel_fee),
            bank: (TransactionState::Waiting, bank_fee),
        }
    }

    pub open spec fn row(self, name: ServiceName) -> (TransactionState, u64) {
        match name {
            ServiceName::Airline => self.airline,
            ServiceName::Hotel => self.hotel,
            ServiceName::Bank => self.bank,
        }
    }

    pub open spec fn state(self, name: ServiceName) -> TransactionState {
        self.row(name).0
    }

    pub open spec fn fee(self, name: ServiceName) -> u64 {
        self.row(name).1
    }

    pub open spec fn with_row(self, name: ServiceName, row: (TransactionState, u64)) -> Self {
        match name {
            ServiceName::Airline => TransactionView { airline: row, ..self },
            ServiceName::Hotel => TransactionView { hotel: row, ..self },
            ServiceName::Bank => TransactionView { bank: row, ..self },
        }
    }

    /// The transition matrix: whether a service in state `source` may move to `target`
    /// when no fee comes with the request.
    pub open spec fn admits(target: TransactionState, source: TransactionState) -> bool {
        match target {
            TransactionState::Waiting => false,
            TransactionState::Accepted => source == TransactionState::Waiting,
            TransactionState::Aborted => source == TransactionState::Waiting || source
                == TransactionState::Accepted,
            TransactionState::Commited => source == TransactionState::Accepted,
        }
    }

    /// Whether moving `name` to `target` takes effect: always when a fee comes with
    /// the request, else when the matrix admits it.
    pub open spec fn permits(
        self,
        name: ServiceName,
        target: TransactionState,
        opt_fee: Option<u64>,
    ) -> bool {
        opt_fee is Some || Self::admits(target, self.state(name))
    }

    /// The booking after a request to move `name` to `target`: unchanged when the
    /// request takes no effect; else the service is in `target`, with the fee that
    /// came with the request if one did.
    pub open spec fn moved(
        self,
        name: ServiceName,
        target: TransactionState,
        opt_fee: Option<u64>,
    ) -> Self {
        if self.permits(name, target, opt_fee) {
            self.with_row(
                name,
                (
                    target,
                    match opt_fee {
                        Some(fee) => fee,
                        None => self.fee(name),
                    },
                ),
            )
        } else {
            self
        }
    }

    /// Airline, Hotel and Bank are in `state`, each of them.
    pub open spec fn all_three(self, state: TransactionState) -> bool {
        self.airline.0 == state && self.hotel.0 == state && self.bank.0 == state
    }

    /// Neither Airline nor Hotel nor Bank is in `state`.
    pub open spec fn none_is(self, state: TransactionState) -> bool {
        self.airline.0 != state && self.hotel.0 != state && self.bank.0 != state
    }

    /// Every service is in `state`.
    pub open spec fn is_state(self, state: TransactionState) -> bool {
        forall|name: ServiceName| #[trigger] self.state(name) == state
    }

    pub open spec fn is_any_waiting(self) -> bool {
        exists|name: ServiceName| #[trigger] self.state(name) == TransactionState::Waiting
    }

    pub open spec fn waiting_services(self) -> Map<ServiceName, u64> {
        Map::new(
            |name: ServiceName| self.state(name) == TransactionState::Waiting,
            |name: ServiceName| self.fee(name),
        )
    }

    pub open spec fn accepted_services(self) -> Map<ServiceName, u64> {
        Map::new(
            |name: ServiceName| self.state(name) == TransactionState::Accepted,
            |name: ServiceName| self.fee(name),
        )
    }

    pub open spec fn not_aborted_services(self) -> Map<ServiceName, u64> {
        Map::new(
            |name: ServiceName|
                self.state(name) == TransactionState::Waiting || self.state(name)
                    == TransactionState::Accepted,
            |name: ServiceName| self.fee(name),
        )
    }

    pub open spec fn all_services(self) -> Map<ServiceName, u64> {
        Map::new(|name: ServiceName| true, |name: ServiceName| self.fee(name))
    }

    /// The snapshot that replicas exchange.
    pub open spec fn log(self) -> Seq<u8> {
        TransactionInfo::spec_add_padding(
            TransactionLog::spec_build(self.id, self.airline, self.hotel, self.bank),
        )
    }

    /// The request to run the booking again.
    pub open spec fn retry(self) -> Seq<u8> {
        TransactionInfo::spec_add_padding(
            TransactionRetry::spec_build(self.id, self.airline.1, self.hotel.1, self.bank.1),
        )
    }

    /// One service in a record: a comma and the state's label if states are wanted,
    /// then a comma and the fee as the caller wrote it.
    pub open spec fn field(include_states: bool, state: TransactionState, fee: Seq<char>) -> Seq<
        char,
    > {
        if include_states {
            ","@ + state.spec_label() + ","@ + fee
        } else {
            ","@ + fee
        }
    }

    /// The record of a booking: the identifier in base ten, then the services in
    /// the order Airline, Hotel, Bank.
    pub open spec fn representation(
        self,
        include_states: bool,
        airline_fee: Seq<char>,
        hotel_fee: Seq<char>,
        bank_fee: Seq<char>,
    ) -> Seq<char> {
        decimal(self.id as nat) + Self::field(include_states, self.airline.0, airline_fee)
            + Self::field(include_states, self.hotel.0, hotel_fee) + Self::field(
            include_states,
            self.bank.0,
            bank_fee,
        )
    }

    /// All services are in a state exactly when each of the three is.
    pub proof fn unanimity(self, state: TransactionState)
        ensures
            self.is_state(state) <==> self.all_three(state),
            self.is_any_waiting() <==> !self.none_is(TransactionState::Waiting),
    {
        if self.is_state(state) {
            assert(self.state(ServiceName::Airline) == state);
            assert(self.state(ServiceName::Hotel) == state);
            assert(self.state(ServiceName::Bank) == state);
        }
        if self.airline.0 == TransactionState::Waiting {
            assert(self.state(ServiceName::Airline) == TransactionState::Waiting);
        }
        if self.hotel.0 == TransactionState::Waiting {
            assert(self.state(ServiceName::Hotel) == TransactionState::Waiting);
        }
        if self.bank.0 == TransactionState::Waiting {
            assert(self.state(ServiceName::Bank) == TransactionState::Waiting);
        }
    }

    /// A service that was waiting and accepts is no longer among the waiting
    /// services, and is among the accepted ones, with the fee it then has.
    pub proof fn accept_leaves_waiting(self, name: ServiceName, opt_fee: Option<u64>)
        requires
            self.state(name) == TransactionState::Waiting,
        ensures
            self.permits(name, TransactionState::Accepted, opt_fee),
            !self.moved(name, TransactionState::Accepted, opt_fee).waiting_services().dom().contains(
                name,
            ),
            self.moved(name, TransactionState::Accepted, opt_fee).accepted_services().dom().contains(
                name,
            ),
            forall|other: ServiceName|
                other != name ==> self.moved(name, TransactionState::Accepted, opt_fee).row(other)
                    == self.row(other),
    {
    }

    /// A service that was waiting or accepted and is aborted is no longer among the
    /// services that are not aborted.
    pub proof fn abort_leaves_not_aborted(self, name: ServiceName, opt_fee: Option<u64>)
        requires
            self.state(name) == TransactionState::Waiting || self.state(name)
                == TransactionState::Accepted,
        ensures
            self.permits(name, TransactionState::Aborted, opt_fee),
            self.moved(name, TransactionState::Aborted, opt_fee).state(name)
                == TransactionState::Aborted,
            !self.moved(
                name,
                TransactionState::Aborted,
                opt_fee,
            ).not_aborted_services().dom().contains(name),
            forall|other: ServiceName|
                other != name ==> self.moved(name, TransactionState::Aborted, opt_fee).row(other)
                    == self.row(other),
    {
    }

    /// No request changes the identifier or the set of services, and a request
    /// without a fee never changes a fee.
    pub proof fn moves_keep_the_rest(
        self,
        name: ServiceName,
        target: TransactionState,
        opt_fee: Option<u64>,
    )
        ensures
            self.moved(name, target, opt_fee).id == self.id,
            self.moved(name, target, opt_fee).all_services().dom() == self.all_services().dom(),
            forall|other: ServiceName|
                other != name ==> self.moved(name, target, opt_fee).row(other) == self.row(other),
            opt_fee is None ==> self.moved(name, target, opt_fee).all_services()
                == self.all_services(),
            self.moved(name, target, opt_fee).state(name) == target || self.moved(
                name,
                target,
                opt_fee,
            ) == self,
    {
        let after = self.moved(name, target, opt_fee);
        assert(after.all_services().dom() =~= self.all_services().dom());
        if opt_fee is None {
            assert(after.all_services() =~= self.all_services());
        }
    }
}

/// What the manager and the receiver need of a booking.
pub trait Transactionable {
    /// The booking that this value stands for.
    spec fn model(&self) -> TransactionView;

    fn get_id(&self) -> (id: u64)
        ensures
            id == self.model().id,
    ;

    fn set_id(&mut self, id: u64) -> (done: bool)
        ensures
            done,
            final(self).model() == (TransactionView { id, ..old(self).model() }),
    ;

    fn wait(&mut self, name: ServiceName, opt_fee: Option<u64>) -> (done: bool)
        ensures
            done == old(self).model().permits(name, TransactionState::Waiting, opt_fee),
            final(self).model() == old(self).model().moved(
                name,
                TransactionState::Waiting,
                opt_fee,
            ),
    ;

    fn accept(&mut self, name: ServiceName, opt_fee: Option<u64>) -> (done: bool)
        ensures
            done == old(self).model().permits(name, TransactionState::Accepted, opt_fee),
            final(self).model() == old(self).model().moved(
                name,
                TransactionState::Accepted,
                opt_fee,
            ),
    ;

    fn abort(&mut self, name: ServiceName, opt_fee: Option<u64>) -> (done: bool)
        ensures
            done == old(self).model().permits(name, TransactionState::Aborted, opt_fee),
            final(self).model() == old(self).model().moved(
                name,
                TransactionState::Aborted,
                opt_fee,
            ),
    ;

    fn commit(&mut self, name: ServiceName, opt_fee: Option<u64>) -> (done: bool)
        ensures
            done == old(self).model().permits(name, TransactionState::Commited, opt_fee),
            final(self).model() == old(self).model().moved(
                name,
                TransactionState::Commited,
                opt_fee,
            ),
    ;

    fn waiting_services(&self) -> (fees: ServiceFees)
        ensures
            fees@ == self.model().waiting_services(),
    ;

    fn not_aborted_services(&self) -> (fees: ServiceFees)
        ensures
            fees@ == self.model().not_aborted_services(),
    ;

    fn accepted_services(&self) -> (fees: ServiceFees)
        ensures
            fees@ == self.model().accepted_services(),
    ;

    fn all_services(&self) -> (fees: ServiceFees)
        ensures
            fees@ == self.model().all_services(),
    ;

    fn is_any_waiting(&self) -> (any: bool)
        ensures
            any == self.model().is_any_waiting(),
            any == !self.model().none_is(TransactionState::Waiting),
    ;

    fn is_accepted(&self) -> (all: bool)
        ensures
            all == self.model().is_state(TransactionState::Accepted),
            all == self.model().all_three(TransactionState::Accepted),
    ;

    fn is_aborted(&self) -> (all: bool)
        ensures
            all == self.model().is_state(TransactionState::Aborted),
            all == self.model().all_three(TransactionState::Aborted),
    ;

    fn is_commited(&self) -> (all: bool)
        ensures
            all == self.model().is_state(TransactionState::Commited),
            all == self.model().all_three(TransactionState::Commited),
    ;

    fn log(&self) -> (message: Vec<u8>)
        ensures
            message@ == self.model().log(),
    ;

    fn retry(&self) -> (message: Vec<u8>)
        ensures
            message@ == self.model().retry(),
    ;

    fn representation(
        &self,
        include_states: bool,
        airline_fee: &str,
        hotel_fee: &str,
        bank_fee: &str,
    ) -> (text: String)
        ensures
            text@ == self.model().representation(
                include_states,
                airline_fee@,
                hotel_fee@,
                bank_fee@,
            ),
    ;
}

} // verus!
