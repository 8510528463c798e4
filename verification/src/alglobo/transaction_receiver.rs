use super::transaction::Transaction;
use super::transaction_error::TransactionError;
use super::transaction_state::TransactionState;
use super::transactionable::{TransactionView, Transactionable};
use crate::services::service_addrs::ServiceAddrs;
use crate::services::service_name::ServiceName;
use crate::sockets::socket_error::SocketError;
use crate::transaction_messages::transaction_code::TransactionCode;
use crate::transaction_messages::transaction_log::TransactionLog;
use crate::transaction_messages::transaction_response::TransactionResponse;
use crate::transaction_messages::transaction_retry::TransactionRetry;
use crate::transaction_messages::types::{LOG_BYTE, RESPONSE_BYTE, RETRY_BYTE};
use vstd::prelude::*;

verus! {

/// Whom to wake after a frame was taken in.
#[derive(PartialEq, Eq, Structural, Clone, Copy, Debug)]
pub enum Signal {
    /// Nobody: nothing changed.
    Nobody,
    /// Whoever waits for the current booking to change.
    Transaction,
    /// Whoever waits for the leader to stop being idle.
    Ended,
}

/// Takes in the frames that reach a replica: answers of the services,
/// snapshots from the leader and requests to run a booking again.
pub struct TransactionReceiver {
    services_addrs: ServiceAddrs,
}

impl View for TransactionReceiver {
    type V = ServiceAddrs;

    closed spec fn view(&self) -> ServiceAddrs {
        self.services_addrs
    }
}

impl TransactionReceiver {
    /// What the slot of the current booking holds.
    pub open spec fn current_view(current: Option<Transaction>) -> Option<TransactionView> {
        match current {
            Some(transaction) => Some(transaction@),
            None => None,
        }
    }

    /// The state that an answer asks for.
    pub open spec fn target(code: TransactionCode) -> TransactionState {
        match code {
            TransactionCode::Accept => TransactionState::Accepted,
            TransactionCode::Abort => TransactionState::Aborted,
            _ => TransactionState::Commited,
        }
    }

    /// The booking after the answer `code` of `service`, and what is reported.
    /// With no current booking, or one with another identifier, nothing changes.
    pub open spec fn spec_process_response(
        current: Option<TransactionView>,
        code: TransactionCode,
        id: u64,
        service: ServiceName,
    ) -> (Option<TransactionView>, Result<(), TransactionError>) {
        match current {
            None => (current, Err(TransactionError::NoCurrent)),
            Some(transaction) => if id != transaction.id {
                (current, Err(TransactionError::WrongId))
            } else if code == TransactionCode::Prepare {
                (current, Ok(()))
            } else {
                (Some(transaction.moved(service, Self::target(code), None)), Ok(()))
            },
        }
    }

    /// Whether a retry is admitted: the leader is idle, and the booking asked
    /// for is newer than the current one, if there is one.
    pub open spec fn spec_admits_retry(
        current: Option<TransactionView>,
        ended: bool,
        id: u64,
    ) -> bool {
        ended && match current {
            Some(transaction) => transaction.id < id,
            None => true,
        }
    }

    /// Whether the frame `message` that came from `addr` can be taken in: it
    /// starts with a known tag and is well formed for it, and an answer comes
    /// from the address of a service.
    pub open spec fn spec_is_acceptable(&self, message: Seq<u8>, addr: Seq<char>) -> bool {
        message.len() > 0 && if message[0] == RESPONSE_BYTE {
            TransactionResponse::spec_is_well_formed(message) && self@.spec_service_of(addr)
                is Some
        } else if message[0] == LOG_BYTE {
            TransactionLog::spec_is_well_formed(message)
        } else if message[0] == RETRY_BYTE {
            TransactionRetry::spec_is_well_formed(message)
        } else {
            false
        }
    }

    /// The slot, the idle flag and the report after the frame `message` from `addr`.
    pub open spec fn spec_recv(
        &self,
        current: Option<TransactionView>,
        ended: bool,
        message: Seq<u8>,
        addr: Seq<char>,
    ) -> (Option<TransactionView>, bool, Result<Signal, TransactionError>) {
        if message[0] == RESPONSE_BYTE {
            let (code, id) = TransactionResponse::spec_parse(message);
            let (after, report) = Self::spec_process_response(
                current,
                code,
                id,
                self@.spec_service_of(addr)->0,
            );
            (
                after,
                ended,
                match report {
                    Ok(_) => Ok(Signal::Transaction),
                    Err(error) => Err(error),
                },
            )
        } else if message[0] == LOG_BYTE {
            (Some(TransactionLog::spec_new_transaction(message)), ended, Ok(Signal::Transaction))
        } else {
            let retry = TransactionRetry::spec_new_transaction(message);
            if Self::spec_admits_retry(current, ended, retry.id) {
                (Some(retry), false, Ok(Signal::Ended))
            } else {
                (current, ended, Ok(Signal::Nobody))
            }
        }
    }

    pub fn new(services_addrs: ServiceAddrs) -> (receiver: Self)
        ensures
            receiver@ == services_addrs,
    {
        TransactionReceiver { services_addrs }
    }

    pub fn is_acceptable(&self, message: &[u8], addr: &str) -> (acceptable: bool)
        ensures
            acceptable == self.spec_is_acceptable(message@, addr@),
    {
        if message.len() == 0 {
            false
        } else if message[0] == RESPONSE_BYTE {
            TransactionResponse::is_well_formed(message) && self.services_addrs.service_of(
                addr,
            ).is_some()
        } else if message[0] == LOG_BYTE {
            TransactionLog::is_well_formed(message)
        } else if message[0] == RETRY_BYTE {
            TransactionRetry::is_well_formed(message)
        } else {
            false
        }
    }

    /// Applies the answer of a service to the current booking.
    pub fn process_response(
        &self,
        current: &mut Option<Transaction>,
        response: &[u8],
        addr: &str,
    ) -> (report: Result<(), TransactionError>)
        requires
            TransactionResponse::spec_is_well_formed(response@),
            self@.spec_service_of(addr@) is Some,
        ensures
            Self::current_view(*final(current)) == Self::spec_process_response(
                Self::current_view(*old(current)),
                TransactionResponse::spec_parse(response@).0,
                TransactionResponse::spec_parse(response@).1,
                self@.spec_service_of(addr@)->0,
            ).0,
            report == Self::spec_process_response(
                Self::current_view(*old(current)),
                TransactionResponse::spec_parse(response@).0,
                TransactionResponse::spec_parse(response@).1,
                self@.spec_service_of(addr@)->0,
            ).1,
    {
        let (transaction_code, transaction_id) = TransactionResponse::parse(response);
        let service_name = match self.services_addrs.service_of(addr) {
            Some(name) => name,
            None => ServiceName::Airline,
        };
        let mut transaction = match *current {
            Some(transaction) => transaction,
            None => {
                return Err(TransactionError::NoCurrent);
            },
        };
        if transaction_id != transaction.get_id() {
            return Err(TransactionError::WrongId);
        }
        match transaction_code {
            TransactionCode::Accept => {
                transaction.accept(service_name, None);
            },
            TransactionCode::Abort => {
                transaction.abort(service_name, None);
            },
            TransactionCode::Commit => {
                transaction.commit(service_name, None);
            },
            TransactionCode::Prepare => {},
        }
        *current = Some(transaction);
        Ok(())
    }

    /// Replaces the current booking by the one that a snapshot holds.
    pub fn process_log(&self, current: &mut Option<Transaction>, message: &[u8])
        requires
            TransactionLog::spec_is_well_formed(message@),
        ensures
            Self::current_view(*final(current)) == Some(
                TransactionLog::spec_new_transaction(message@),
            ),
    {
        let new_transaction = TransactionLog::new_transaction(message);
        *current = Some(new_transaction);
    }

    /// Takes a request to run a booking again, and says whether it was admitted.
    /// An admitted one becomes the current booking, with every service waiting,
    /// and the leader is no longer idle. A denied one changes nothing.
    pub fn process_retry(
        &self,
        current: &mut Option<Transaction>,
        ended: &mut bool,
        message: &[u8],
    ) -> (admitted: bool)
        requires
            TransactionRetry::spec_is_well_formed(message@),
        ensures
            admitted == Self::spec_admits_retry(
                Self::current_view(*old(current)),
                *old(ended),
                TransactionRetry::spec_new_transaction(message@).id,
            ),
            admitted ==> Self::current_view(*final(current)) == Some(
                TransactionRetry::spec_new_transaction(message@),
            ) && !*final(ended),
            !admitted ==> *final(current) == *old(current) && *final(ended) == *old(ended),
    {
        let new_transaction = TransactionRetry::new_transaction(message);
        if !*ended {
            return false;
        }
        if let Some(transaction) = current {
            let curr_id = transaction.get_id();
            let new_id = new_transaction.get_id();
            if curr_id >= new_id {
                return false;
            }
        }
        *current = Some(new_transaction);
        *ended = false;
        true
    }

    /// Takes in what a read of the socket gave: nothing if the time ran out,
    /// else the frame by its tag.
    pub fn recv(
        &self,
        current: &mut Option<Transaction>,
        ended: &mut bool,
        received: Result<(Vec<u8>, String), SocketError>,
    ) -> (report: Result<Signal, TransactionError>)
        requires
            match received {
                Ok((message, addr)) => self.spec_is_acceptable(message@, addr@),
                Err(error) => error == SocketError::Timeout,
            },
        ensures
            match received {
                Ok((message, addr)) => {
                    let after = self.spec_recv(
                        Self::current_view(*old(current)),
                        *old(ended),
                        message@,
                        addr@,
                    );
                    &&& Self::current_view(*final(current)) == after.0
                    &&& *final(ended) == after.1
                    &&& report == after.2
                },
                Err(_) => *final(current) == *old(current) && *final(ended) == *old(ended)
                    && report == Ok::<Signal, TransactionError>(Signal::Nobody),
            },
    {
        let (message, addr) = match received {
            Ok(value) => value,
            Err(_) => {
                return Ok(Signal::Nobody);
            },
        };
        let info_type = message[0];
        if info_type == RESPONSE_BYTE {
            match self.process_response(current, message.as_slice(), addr.as_str()) {
                Ok(_) => Ok(Signal::Transaction),
                Err(error) => Err(error),
            }
        } else if info_type == LOG_BYTE {
            self.process_log(current, message.as_slice());
            Ok(Signal::Transaction)
        } else {
            if self.process_retry(current, ended, message.as_slice()) {
                Ok(Signal::Ended)
            } else {
                Ok(Signal::Nobody)
            }
        }
    }
}

} // verus!
