use super::transaction::Transaction;
use super::transaction_error::TransactionError;
use super::transaction_state::TransactionState;
use super::transactionable::{TransactionView, Transactionable};
use crate::candidates::constants::DEFAULT_IP;
use crate::services::service_addrs::ServiceAddrs;
use crate::services::service_fees::ServiceFees;
use crate::services::service_name::ServiceName;
use crate::sockets::datagram::Datagram;
use crate::text::{decimal, decimal_string, filter_push};
use crate::transaction_messages::transaction_code::TransactionCode;
use crate::transaction_messages::transaction_request::TransactionRequest;
use vstd::prelude::*;
use vstd::string::*;

verus! {

/// Where the leader stands with the current booking.
#[derive(PartialEq, Eq, Structural, Clone, Copy, Debug)]
pub enum Phase {
    /// The services are asked to prepare.
    Preparing,
    /// Every service accepted; the services are asked to commit.
    Committing,
    /// Not every service accepted; the services are asked to abort.
    Aborting,
    /// Every service aborted, and the booking went on record.
    Persisted,
    /// Every service committed.
    Done,
}

impl Phase {
    /// Whether requests are still sent in this phase.
    pub open spec fn is_active(self) -> bool {
        self == Phase::Preparing || self == Phase::Committing || self == Phase::Aborting
    }

    /// What the services are asked in this phase.
    pub open spec fn code(self) -> TransactionCode {
        match self {
            Phase::Committing => TransactionCode::Commit,
            Phase::Aborting => TransactionCode::Abort,
            _ => TransactionCode::Prepare,
        }
    }

    /// The services that are asked in this phase, each with its fee.
    pub open spec fn services(self, transaction: TransactionView) -> Map<ServiceName, u64> {
        match self {
            Phase::Preparing => transaction.waiting_services(),
            Phase::Committing => transaction.accepted_services(),
            Phase::Aborting => transaction.not_aborted_services(),
            _ => Map::empty(),
        }
    }

    /// Whether the leader goes on waiting for answers in this phase.
    pub open spec fn must_wait(self, transaction: TransactionView) -> bool {
        match self {
            Phase::Preparing => transaction.is_any_waiting(),
            Phase::Committing => !transaction.is_state(TransactionState::Commited),
            Phase::Aborting => !transaction.is_state(TransactionState::Aborted),
            _ => false,
        }
    }

    /// The phase that follows once the wait is over, whether the answers came
    /// or the time ran out. Preparing leads to committing on unanimous consent
    /// and to aborting otherwise; committing and aborting are repeated until
    /// every service has answered.
    pub open spec fn next(self, transaction: TransactionView) -> Phase {
        match self {
            Phase::Preparing => if transaction.is_state(TransactionState::Accepted)
                || transaction.is_state(TransactionState::Commited) {
                Phase::Committing
            } else {
                Phase::Aborting
            },
            Phase::Committing => if transaction.is_state(TransactionState::Commited) {
                Phase::Done
            } else {
                Phase::Committing
            },
            Phase::Aborting => if transaction.is_state(TransactionState::Aborted) {
                Phase::Persisted
            } else {
                Phase::Aborting
            },
            Phase::Persisted => Phase::Persisted,
            Phase::Done => Phase::Done,
        }
    }

    /// A booking that is being committed is never aborted, and one that is being
    /// aborted is never committed.
    pub proof fn no_way_back(self, transaction: TransactionView)
        ensures
            self == Phase::Committing ==> self.next(transaction) == Phase::Committing || self.next(
                transaction,
            ) == Phase::Done,
            self == Phase::Aborting ==> self.next(transaction) == Phase::Aborting || self.next(
                transaction,
            ) == Phase::Persisted,
            !self.is_active() ==> self.next(transaction) == self,
    {
    }

    /// A booking is done only when every service has committed, and goes on
    /// record only when every service has aborted.
    pub proof fn ends_are_unanimous(self, transaction: TransactionView)
        requires
            self.is_active(),
        ensures
            self.next(transaction) == Phase::Done ==> transaction.is_state(
                TransactionState::Commited,
            ),
            self.next(transaction) == Phase::Persisted ==> transaction.is_state(
                TransactionState::Aborted,
            ),
            self.next(transaction) == Phase::Committing && self == Phase::Preparing
                ==> !transaction.is_any_waiting(),
    {
        if self.next(transaction) == Phase::Committing && self == Phase::Preparing {
            transaction.unanimity(TransactionState::Accepted);
            transaction.unanimity(TransactionState::Commited);
        }
    }

    /// When the wait ended because the answers came, committing and aborting are
    /// over.
    pub proof fn answered_phases_end(self, transaction: TransactionView)
        requires
            !self.must_wait(transaction),
        ensures
            self == Phase::Committing ==> self.next(transaction) == Phase::Done,
            self == Phase::Aborting ==> self.next(transaction) == Phase::Persisted,
    {
    }
}

/// What the leader is configured with.
pub struct ManagerView {
    pub my_port: u64,
    pub services_addrs: Map<ServiceName, Seq<char>>,
    pub replicas_addrs: Seq<Seq<char>>,
    /// Whether aborted bookings go on record.
    pub persist: bool,
}

impl ManagerView {
    /// The address of this replica among the replicas.
    pub open spec fn my_addr(self) -> Seq<char> {
        DEFAULT_IP@ + decimal(self.my_port as nat)
    }

    /// The request `code` for the booking `id`, on its way to a service.
    pub open spec fn request(self, code: TransactionCode, id: u64, entry: (ServiceName, u64)) -> (
        Seq<char>,
        Seq<u8>,
    ) {
        (self.services_addrs[entry.0], TransactionRequest::spec_build(code, id, entry.1))
    }

    /// One request to each of `services`, in their order.
    pub open spec fn send_messages(
        self,
        code: TransactionCode,
        id: u64,
        services: Seq<(ServiceName, u64)>,
    ) -> Seq<(Seq<char>, Seq<u8>)> {
        services.map_values(|entry: (ServiceName, u64)| self.request(code, id, entry))
    }

    /// The requests of a phase: one to each service that the phase asks, in the
    /// order Airline, Hotel, Bank.
    pub open spec fn requests(self, phase: Phase, transaction: TransactionView) -> Seq<
        (Seq<char>, Seq<u8>),
    > {
        self.send_messages(
            phase.code(),
            transaction.id,
            ServiceFees::ordered(phase.services(transaction)),
        )
    }

    /// The snapshot of the booking on its way to every replica but this one.
    pub open spec fn send_transaction_logs(self, transaction: TransactionView) -> Seq<
        (Seq<char>, Seq<u8>),
    > {
        self.replicas_addrs.filter(|addr: Seq<char>| addr != self.my_addr()).map_values(
            |addr: Seq<char>| (addr, transaction.log()),
        )
    }

    /// The line that puts an aborted booking on record, if records are kept.
    pub open spec fn persist_aborted(
        self,
        transaction: TransactionView,
        airline_fee: Seq<char>,
        hotel_fee: Seq<char>,
        bank_fee: Seq<char>,
    ) -> Option<Seq<char>> {
        if self.persist {
            Some(transaction.representation(false, airline_fee, hotel_fee, bank_fee) + "\n"@)
        } else {
            None
        }
    }
}

/// What the leader does when the wait of a phase is over.
pub struct PhaseReport {
    /// The snapshots to send, in order.
    pub logs: Vec<Datagram>,
    /// The line to append to the record of aborted bookings, if any.
    pub record: Option<String>,
    /// The phase that follows.
    pub next: Phase,
}

/// Drives a booking through the two phases of the commit.
pub struct TransactionManager {
    my_port: u64,
    services_addrs: ServiceAddrs,
    replicas_addrs: Vec<String>,
    persist: bool,
}

impl View for TransactionManager {
    type V = ManagerView;

    closed spec fn view(&self) -> ManagerView {
        ManagerView {
            my_port: self.my_port,
            services_addrs: self.services_addrs@,
            replicas_addrs: Self::addrs_view(self.replicas_addrs@),
            persist: self.persist,
        }
    }
}

impl TransactionManager {
    pub open spec fn addrs_view(addrs: Seq<String>) -> Seq<Seq<char>> {
        addrs.map_values(|addr: String| addr@)
    }

    pub open spec fn text_view(text: Option<String>) -> Option<Seq<char>> {
        match text {
            Some(text) => Some(text@),
            None => None,
        }
    }

    pub fn new(
        my_port: u64,
        services_addrs: ServiceAddrs,
        replicas_addrs: Vec<String>,
        persist: bool,
    ) -> (manager: Self)
        ensures
            manager@ == (ManagerView {
                my_port,
                services_addrs: services_addrs@,
                replicas_addrs: Self::addrs_view(replicas_addrs@),
                persist,
            }),
    {
        TransactionManager { my_port, services_addrs, replicas_addrs, persist }
    }

    /// Makes `transaction` the current booking.
    pub fn update_current(current: &mut Option<Transaction>, transaction: Transaction)
        ensures
            *final(current) == Some(transaction),
    {
        *current = Some(transaction);
    }

    /// The phase in which every booking starts.
    pub fn first_phase() -> (phase: Phase)
        ensures
            phase == Phase::Preparing,
    {
        Phase::Preparing
    }

    pub fn send_messages(&self, code: TransactionCode, id: u64, services_info: &ServiceFees) -> (requests:
        Vec<Datagram>)
        requires
            TransactionRequest::spec_is_request(code),
        ensures
            Datagram::views(requests@) == self@.send_messages(
                code,
                id,
                ServiceFees::ordered(services_info@),
            ),
    {
        let entries = services_info.to_vec();
        let mut requests: Vec<Datagram> = Vec::new();
        let mut index: usize = 0;
        while index < entries.len()
            invariant
                index <= entries.len(),
                requests@.len() == index,
                TransactionRequest::spec_is_request(code),
                forall|i: int|
                    0 <= i < index ==> (#[trigger] requests@[i])@ == self@.request(
                        code,
                        id,
                        entries@[i],
                    ),
            decreases entries.len() - index,
        {
            let (name, fee) = entries[index];
            let request = Datagram::new(
                self.services_addrs.get(name),
                TransactionRequest::build(code, id, fee),
            );
            requests.push(request);
            index = index + 1;
        }
        assert(Datagram::views(requests@) =~= self@.send_messages(code, id, entries@));
        requests
    }

    /// The requests to prepare: one to each waiting service.
    pub fn prepare(&self, transaction: &Transaction) -> (requests: Vec<Datagram>)
        ensures
            Datagram::views(requests@) == self@.requests(Phase::Preparing, transaction@),
    {
        let waiting_services = transaction.waiting_services();
        self.send_messages(TransactionCode::Prepare, transaction.get_id(), &waiting_services)
    }

    /// The requests to abort: one to each service that has not aborted.
    pub fn abort(&self, transaction: &Transaction) -> (requests: Vec<Datagram>)
        ensures
            Datagram::views(requests@) == self@.requests(Phase::Aborting, transaction@),
    {
        let all_services = transaction.not_aborted_services();
        self.send_messages(TransactionCode::Abort, transaction.get_id(), &all_services)
    }

    /// The requests to commit: one to each service that has accepted.
    pub fn commit(&self, transaction: &Transaction) -> (requests: Vec<Datagram>)
        ensures
            Datagram::views(requests@) == self@.requests(Phase::Committing, transaction@),
    {
        let all_services = transaction.accepted_services();
        self.send_messages(TransactionCode::Commit, transaction.get_id(), &all_services)
    }

    /// The requests with which a phase begins.
    pub fn requests(&self, phase: Phase, transaction: &Transaction) -> (requests: Vec<Datagram>)
        ensures
            Datagram::views(requests@) == self@.requests(phase, transaction@),
    {
        match phase {
            Phase::Preparing => self.prepare(transaction),
            Phase::Committing => self.commit(transaction),
            Phase::Aborting => self.abort(transaction),
            _ => {
                let requests: Vec<Datagram> = Vec::new();
                assert(ServiceFees::ordered(phase.services(transaction@)) =~= Seq::empty());
                assert(Datagram::views(requests@) =~= self@.requests(phase, transaction@));
                requests
            },
        }
    }

    /// Whether the leader goes on waiting for answers.
    pub fn must_wait(phase: Phase, transaction: &Transaction) -> (waits: bool)
        ensures
            waits == phase.must_wait(transaction@),
    {
        match phase {
            Phase::Preparing => transaction.is_any_waiting(),
            Phase::Committing => !transaction.is_commited(),
            Phase::Aborting => !transaction.is_aborted(),
            _ => false,
        }
    }

    /// How the wait of a phase ended, given the booking as it is afterwards: in
    /// time, or with answers missing.
    pub fn wait_update(phase: Phase, transaction: &Transaction) -> (report: Result<
        (),
        TransactionError,
    >)
        ensures
            report == (if phase.must_wait(transaction@) {
                Err::<(), TransactionError>(TransactionError::Timeout)
            } else {
                Ok::<(), TransactionError>(())
            }),
    {
        if Self::must_wait(phase, transaction) {
            Err(TransactionError::Timeout)
        } else {
            Ok(())
        }
    }

    /// The phase that follows once the wait is over.
    pub fn next_phase(phase: Phase, transaction: &Transaction) -> (next: Phase)
        ensures
            next == phase.next(transaction@),
    {
        match phase {
            Phase::Preparing => if transaction.is_accepted() || transaction.is_commited() {
                Phase::Committing
            } else {
                Phase::Aborting
            },
            Phase::Committing => if transaction.is_commited() {
                Phase::Done
            } else {
                Phase::Committing
            },
            Phase::Aborting => if transaction.is_aborted() {
                Phase::Persisted
            } else {
                Phase::Aborting
            },
            Phase::Persisted => Phase::Persisted,
            Phase::Done => Phase::Done,
        }
    }

    /// The snapshot of the booking, on its way to every replica but this one.
    pub fn send_transaction_logs(&self, transaction: &Transaction) -> (logs: Vec<Datagram>)
        ensures
            Datagram::views(logs@) == self@.send_transaction_logs(transaction@),
    {
        let transaction_log = transaction.log();
        let mut my_addr = String::from_str(DEFAULT_IP);
        let port = decimal_string(self.my_port);
        my_addr.append(port.as_str());
        let ghost others = |addr: Seq<char>| addr != self@.my_addr();
        let ghost with_log = |addr: Seq<char>| (addr, transaction@.log());
        let ghost replicas = self@.replicas_addrs;
        let mut logs: Vec<Datagram> = Vec::new();
        let mut index: usize = 0;
        assert(replicas.take(0).filter(others) =~= Seq::empty()) by {
            reveal(Seq::filter);
        }
        assert(Datagram::views(logs@) =~= replicas.take(0).filter(others).map_values(with_log));
        while index < self.replicas_addrs.len()
            invariant
                index <= self.replicas_addrs.len(),
                replicas == self@.replicas_addrs,
                replicas.len() == self.replicas_addrs.len(),
                my_addr@ == self@.my_addr(),
                transaction_log@ == transaction@.log(),
                others == |addr: Seq<char>| addr != self@.my_addr(),
                with_log == |addr: Seq<char>| (addr, transaction@.log()),
                Datagram::views(logs@) == replicas.take(index as int).filter(others).map_values(
                    with_log,
                ),
            decreases self.replicas_addrs.len() - index,
        {
            let ghost before = replicas.take(index as int);
            proof {
                assert(replicas.take(index + 1) =~= before.push(replicas[index as int]));
                filter_push(before, others, replicas[index as int]);
                assert(replicas[index as int] == self.replicas_addrs@[index as int]@);
            }
            if self.replicas_addrs[index] != my_addr {
                let log = Datagram::new(self.replicas_addrs[index].clone(), transaction_log.clone());
                let ghost sent = logs@;
                logs.push(log);
                assert(Datagram::views(logs@) =~= Datagram::views(sent).push(log@));
                assert(before.filter(others).push(replicas[index as int]).map_values(with_log)
                    =~= before.filter(others).map_values(with_log).push(log@));
            }
            index = index + 1;
        }
        assert(replicas.take(index as int) =~= replicas);
        logs
    }

    /// The line that puts an aborted booking on record, if records are kept. The
    /// fees stand in it as the caller wrote them.
    pub fn persist_aborted(
        &self,
        transaction: &Transaction,
        airline_fee: &str,
        hotel_fee: &str,
        bank_fee: &str,
    ) -> (record: Option<String>)
        ensures
            Self::text_view(record) == self@.persist_aborted(
                transaction@,
                airline_fee@,
                hotel_fee@,
                bank_fee@,
            ),
    {
        if self.persist {
            let mut representation = transaction.representation(
                false,
                airline_fee,
                hotel_fee,
                bank_fee,
            );
            representation.append("\n");
            Some(representation)
        } else {
            None
        }
    }

    /// What to do when the wait of `phase` is over, given the booking as it is
    /// then: the snapshots to send, the phase that follows, and the line to put
    /// on record when the booking has just been aborted by every service.
    pub fn process(
        &self,
        phase: Phase,
        transaction: &Transaction,
        airline_fee: &str,
        hotel_fee: &str,
        bank_fee: &str,
    ) -> (report: PhaseReport)
        ensures
            report.next == phase.next(transaction@),
            Datagram::views(report.logs@) == (if phase.is_active() {
                self@.send_transaction_logs(transaction@)
            } else {
                Seq::empty()
            }),
            Self::text_view(report.record) == (if phase == Phase::Aborting && phase.next(
                transaction@,
            ) == Phase::Persisted {
                self@.persist_aborted(transaction@, airline_fee@, hotel_fee@, bank_fee@)
            } else {
                None
            }),
    {
        let next = Self::next_phase(phase, transaction);
        let logs = match phase {
            Phase::Preparing | Phase::Committing | Phase::Aborting => self.send_transaction_logs(
                transaction,
            ),
            _ => {
                let logs: Vec<Datagram> = Vec::new();
                assert(Datagram::views(logs@) =~= Seq::empty());
                logs
            },
        };
        let record = match (phase, next) {
            (Phase::Aborting, Phase::Persisted) => self.persist_aborted(
                transaction,
                airline_fee,
                hotel_fee,
                bank_fee,
            ),
            _ => None,
        };
        PhaseReport { logs, record, next }
    }

    /// The leader's next move in driving the bookings of a file, and of the
    /// retries that follow it.
    #[verifier::when_used_as_spec(spec_run)]
    pub fn run(state: RunState, event: RunEvent) -> (next: (RunState, RunAction))
        ensures
            next == Self::spec_run(state, event),
    {
        match (state, event) {
            (RunState::Resuming, RunEvent::Processed(id)) => (
                RunState::Reading { start_line: id },
                RunAction::Read,
            ),
            (RunState::Reading { start_line }, RunEvent::Booking(Some(transaction))) => {
                if transaction.get_id() > start_line {
                    (state, RunAction::Process(Some(transaction)))
                } else {
                    (state, RunAction::Read)
                }
            },
            (RunState::Reading { start_line }, RunEvent::Booking(None)) => (state, RunAction::Read),
            (RunState::Reading { start_line }, RunEvent::Processed(_)) => (state, RunAction::Read),
            (RunState::Reading { start_line }, RunEvent::EndOfFile) => (
                RunState::Idle,
                RunAction::AwaitRetry,
            ),
            (RunState::Reading { start_line }, RunEvent::FileOpenFailed) => (
                RunState::Finished,
                RunAction::Abandon,
            ),
            (RunState::Idle, RunEvent::Woken) => (RunState::Idle, RunAction::Process(None)),
            (RunState::Idle, RunEvent::Processed(_)) => (RunState::Idle, RunAction::AwaitRetry),
            (RunState::Idle, RunEvent::TimedOut) => (RunState::Finished, RunAction::Finish),
            _ => (state, RunAction::Nothing),
        }
    }

    /// The state in which a leader starts, and its first move: the booking that
    /// is current, if a snapshot left one, is driven to its end before the file
    /// is read.
    pub fn start_run() -> (first: (RunState, RunAction))
        ensures
            first == (RunState::Resuming, RunAction::Process(None)),
    {
        (RunState::Resuming, RunAction::Process(None))
    }

    pub open spec fn spec_run(state: RunState, event: RunEvent) -> (RunState, RunAction) {
        match (state, event) {
            (RunState::Resuming, RunEvent::Processed(id)) => (
                RunState::Reading { start_line: id },
                RunAction::Read,
            ),
            (RunState::Reading { start_line }, RunEvent::Booking(Some(transaction))) => {
                if transaction@.id > start_line {
                    (state, RunAction::Process(Some(transaction)))
                } else {
                    (state, RunAction::Read)
                }
            },
            (RunState::Reading { start_line }, RunEvent::Booking(None)) => (state, RunAction::Read),
            (RunState::Reading { start_line }, RunEvent::Processed(_)) => (state, RunAction::Read),
            (RunState::Reading { start_line }, RunEvent::EndOfFile) => (
                RunState::Idle,
                RunAction::AwaitRetry,
            ),
            (RunState::Reading { start_line }, RunEvent::FileOpenFailed) => (
                RunState::Finished,
                RunAction::Abandon,
            ),
            (RunState::Idle, RunEvent::Woken) => (RunState::Idle, RunAction::Process(None)),
            (RunState::Idle, RunEvent::Processed(_)) => (RunState::Idle, RunAction::AwaitRetry),
            (RunState::Idle, RunEvent::TimedOut) => (RunState::Finished, RunAction::Finish),
            _ => (state, RunAction::Nothing),
        }
    }

    /// A booking read from the file is driven only if its identifier is above
    /// that of the booking with which the leader started; the leader finishes
    /// only when it was idle and no retry came in time.
    pub proof fn run_skips_what_was_done(state: RunState, event: RunEvent)
        ensures
            Self::spec_run(state, event).1 matches RunAction::Process(Some(transaction))
                ==> state matches RunState::Reading { start_line } && event == RunEvent::Booking(
                Some(transaction),
            ) && transaction@.id > start_line,
            Self::spec_run(state, event).1 == RunAction::Finish ==> state == RunState::Idle
                && event == RunEvent::TimedOut,
            state == RunState::Finished ==> Self::spec_run(state, event) == (
                RunState::Finished,
                RunAction::Nothing,
            ),
    {
    }
}

/// Where the leader stands in driving the bookings of a file.
#[derive(Clone, Copy, Debug)]
pub enum RunState {
    /// The booking that was current when the leader started is being driven.
    Resuming,
    /// The file is being read; `start_line` is the identifier of the booking with
    /// which the leader started.
    Reading { start_line: u64 },
    /// The file is exhausted; retries are waited for and driven.
    Idle,
    /// Nothing is left to do.
    Finished,
}

/// What happened since the leader's last move.
#[derive(Clone, Copy, Debug)]
pub enum RunEvent {
    /// A booking was driven to its end; its identifier.
    Processed(u64),
    /// The file gave a line: a booking, or nothing where the line held none.
    Booking(Option<Transaction>),
    /// The file gave no more lines.
    EndOfFile,
    /// The file could not be opened.
    FileOpenFailed,
    /// A retry was admitted while the leader was idle.
    Woken,
    /// No retry was admitted in time.
    TimedOut,
}

/// What the leader does next.
#[derive(Clone, Copy, Debug)]
pub enum RunAction {
    /// Drive a booking to its end: the one given, after a pause, made current; or
    /// the current one.
    Process(Option<Transaction>),
    /// Read the next line of the file.
    Read,
    /// Declare the leader idle and wait for a retry.
    AwaitRetry,
    /// Raise the flag that says the leader is finished.
    Finish,
    /// Report that the file of bookings is missing, and give up.
    Abandon,
    /// Nothing: the event was not expected.
    Nothing,
}

} // verus!
