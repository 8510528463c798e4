use tp::alglobo::transaction::Transaction;
use tp::alglobo::transaction_error::TransactionError;
use tp::alglobo::transaction_manager::{Phase, RunAction, RunEvent, RunState, TransactionManager};
use tp::alglobo::transaction_receiver::TransactionReceiver;
use tp::alglobo::transaction_state::TransactionState;
use tp::alglobo::transactionable::Transactionable;
use tp::services::service_addrs::ServiceAddrs;
use tp::services::service_fees::ServiceFees;
use tp::services::service_name::ServiceName;
use tp::sockets::datagram::Datagram;
use tp::transaction_messages::transaction_code::TransactionCode;
use tp::transaction_messages::transaction_info::TransactionInfo;
use tp::transaction_messages::transaction_log::TransactionLog;
use tp::transaction_messages::transaction_request::TransactionRequest;
use tp::transaction_messages::transaction_response::TransactionResponse;

const AIRLINE_ADDR: &str = "127.0.0.1:49156";
const HOTEL_ADDR: &str = "127.0.0.1:49157";
const BANK_ADDR: &str = "127.0.0.1:49158";

fn bits(fee: f64) -> u64 {
    fee.to_bits()
}

fn addrs() -> ServiceAddrs {
    ServiceAddrs::new(AIRLINE_ADDR, HOTEL_ADDR, BANK_ADDR)
}

fn manager(my_port: u64, replicas: &[&str], persist: bool) -> TransactionManager {
    TransactionManager::new(
        my_port,
        addrs(),
        replicas.iter().map(|addr| addr.to_string()).collect(),
        persist,
    )
}

fn request(addr: &str, code: TransactionCode, id: u64, fee: f64) -> Datagram {
    Datagram::new(addr.to_string(), TransactionRequest::build(code, id, bits(fee)))
}

fn answer(current: &mut Option<Transaction>, code: TransactionCode, id: u64, addr: &str) {
    let receiver = TransactionReceiver::new(addrs());
    let mut response = TransactionResponse::build(code, id);
    TransactionInfo::add_padding(&mut response);
    assert_eq!(receiver.process_response(current, &response, addr), Ok(()));
}

fn matches_process(action: RunAction, expected: Option<Transaction>) -> bool {
    match action {
        RunAction::Process(transaction) => transaction == expected,
        _ => false,
    }
}

#[test]
fn process_transaction_should_send_msg_prepare_to_all_services_in_transaction() {
    let transaction_id = 0;
    let transaction = Transaction::new(transaction_id, bits(100.0), bits(200.0), bits(300.0));
    let waiting_services = transaction.waiting_services();

    let manager = manager(0, &[], false);
    let mut current = None;
    TransactionManager::update_current(&mut current, transaction);
    let sent = manager.prepare(&current.unwrap());

    assert_eq!(sent.len(), waiting_services.len());
    assert_eq!(
        sent,
        vec![
            request(AIRLINE_ADDR, TransactionCode::Prepare, transaction_id, 100.0),
            request(HOTEL_ADDR, TransactionCode::Prepare, transaction_id, 200.0),
            request(BANK_ADDR, TransactionCode::Prepare, transaction_id, 300.0),
        ]
    );
}

#[test]
fn process_transaction_should_send_msg_abort_to_all_services_if_any_service_does_not_respond_to_prepare_msg(
) {
    let transaction_id = 1;
    let transaction = Transaction::new(transaction_id, bits(100.0), bits(200.0), bits(300.0));
    let manager = manager(0, &[], false);

    assert_eq!(manager.prepare(&transaction).len(), 3);
    // nobody answers: the wait ends with services still waiting
    assert!(TransactionManager::must_wait(Phase::Preparing, &transaction));
    assert_eq!(
        TransactionManager::wait_update(Phase::Preparing, &transaction),
        Err(TransactionError::Timeout)
    );
    let report = manager.process(Phase::Preparing, &transaction, "100", "200", "300");
    assert_eq!(report.next, Phase::Aborting);
    assert_eq!(
        manager.abort(&transaction),
        vec![
            request(AIRLINE_ADDR, TransactionCode::Abort, transaction_id, 100.0),
            request(HOTEL_ADDR, TransactionCode::Abort, transaction_id, 200.0),
            request(BANK_ADDR, TransactionCode::Abort, transaction_id, 300.0),
        ]
    );
}

#[test]
fn process_transaction_should_send_msg_commit_to_all_services_if_all_services_responded_with_accept_msg(
) {
    let transaction_id = 1;
    let mut current = Some(Transaction::new(transaction_id, bits(100.0), bits(200.0), bits(300.0)));
    let manager = manager(0, &[], false);

    assert_eq!(manager.requests(Phase::Preparing, &current.unwrap()).len(), 3);
    answer(&mut current, TransactionCode::Accept, transaction_id, AIRLINE_ADDR);
    answer(&mut current, TransactionCode::Accept, transaction_id, HOTEL_ADDR);
    assert!(TransactionManager::must_wait(Phase::Preparing, &current.unwrap()));
    answer(&mut current, TransactionCode::Accept, transaction_id, BANK_ADDR);
    assert!(!TransactionManager::must_wait(Phase::Preparing, &current.unwrap()));
    assert_eq!(TransactionManager::wait_update(Phase::Preparing, &current.unwrap()), Ok(()));

    let transaction = current.unwrap();
    assert_eq!(TransactionManager::next_phase(Phase::Preparing, &transaction), Phase::Committing);
    assert_eq!(
        manager.commit(&transaction),
        vec![
            request(AIRLINE_ADDR, TransactionCode::Commit, transaction_id, 100.0),
            request(HOTEL_ADDR, TransactionCode::Commit, transaction_id, 200.0),
            request(BANK_ADDR, TransactionCode::Commit, transaction_id, 300.0),
        ]
    );
}

#[test]
fn it_should_send_log_after_prepare_phase() {
    let replicas_addrs = ["127.0.0.1:49159", "127.0.0.1:49160", "127.0.0.1:49161"];
    let transaction_id = 1;
    let mut current = Some(Transaction::new(transaction_id, bits(100.0), bits(200.0), bits(300.0)));
    let manager = manager(0, &replicas_addrs, false);

    assert_eq!(manager.prepare(&current.unwrap()).len(), 3);
    answer(&mut current, TransactionCode::Accept, transaction_id, AIRLINE_ADDR);
    answer(&mut current, TransactionCode::Accept, transaction_id, HOTEL_ADDR);
    answer(&mut current, TransactionCode::Accept, transaction_id, BANK_ADDR);

    let mut log_msg = TransactionLog::build(
        transaction_id,
        (TransactionState::Accepted, bits(100.0)),
        (TransactionState::Accepted, bits(200.0)),
        (TransactionState::Accepted, bits(300.0)),
    );
    TransactionInfo::add_padding(&mut log_msg);

    let report = manager.process(Phase::Preparing, &current.unwrap(), "100", "200", "300");
    assert_eq!(
        report.logs,
        replicas_addrs
            .iter()
            .map(|addr| Datagram::new(addr.to_string(), log_msg.clone()))
            .collect::<Vec<Datagram>>()
    );
    assert_eq!(report.next, Phase::Committing);
    assert_eq!(report.record, None);
}

#[test]
fn it_should_send_log_after_abort_phase() {
    let replicas_addrs = ["127.0.0.1:49159", "127.0.0.1:49160", "127.0.0.1:49161"];
    let transaction_id = 1;
    let mut current = Some(Transaction::new(transaction_id, bits(100.0), bits(200.0), bits(300.0)));
    let manager = manager(0, &replicas_addrs, false);

    answer(&mut current, TransactionCode::Abort, transaction_id, AIRLINE_ADDR);
    answer(&mut current, TransactionCode::Abort, transaction_id, HOTEL_ADDR);
    answer(&mut current, TransactionCode::Abort, transaction_id, BANK_ADDR);

    let mut log_msg = TransactionLog::build(
        transaction_id,
        (TransactionState::Aborted, bits(100.0)),
        (TransactionState::Aborted, bits(200.0)),
        (TransactionState::Aborted, bits(300.0)),
    );
    TransactionInfo::add_padding(&mut log_msg);

    let report = manager.process(Phase::Aborting, &current.unwrap(), "100", "200", "300");
    assert_eq!(report.logs.len(), 3);
    assert!(report.logs.iter().all(|log| log.payload == log_msg));
    assert_eq!(report.next, Phase::Persisted);
    assert_eq!(report.record, None);
}

#[test]
fn it_should_send_log_after_commit_phase() {
    let replicas_addrs = ["127.0.0.1:49159", "127.0.0.1:49160", "127.0.0.1:49161"];
    let transaction_id = 1;
    let mut current = Some(Transaction::new(transaction_id, bits(100.0), bits(200.0), bits(300.0)));
    let manager = manager(0, &replicas_addrs, false);

    for addr in [AIRLINE_ADDR, HOTEL_ADDR, BANK_ADDR] {
        answer(&mut current, TransactionCode::Accept, transaction_id, addr);
    }
    for addr in [AIRLINE_ADDR, HOTEL_ADDR, BANK_ADDR] {
        answer(&mut current, TransactionCode::Commit, transaction_id, addr);
    }

    let mut log_msg = TransactionLog::build(
        transaction_id,
        (TransactionState::Commited, bits(100.0)),
        (TransactionState::Commited, bits(200.0)),
        (TransactionState::Commited, bits(300.0)),
    );
    TransactionInfo::add_padding(&mut log_msg);

    let report = manager.process(Phase::Committing, &current.unwrap(), "100", "200", "300");
    assert_eq!(report.logs.len(), 3);
    assert!(report.logs.iter().all(|log| log.payload == log_msg));
    assert_eq!(report.next, Phase::Done);
}

#[test]
fn all_accept_then_commit_succeeds() {
    let replicas = ["127.0.0.1:49152", "127.0.0.1:49153"];
    let manager = manager(49152, &replicas, true);
    let mut current = None;
    TransactionManager::update_current(
        &mut current,
        Transaction::new(1, bits(100.0), bits(200.0), bits(300.0)),
    );
    let mut phase = TransactionManager::first_phase();
    let mut requests = 0;
    let mut logs = 0;
    let mut records = 0;

    assert_eq!(phase, Phase::Preparing);
    requests += manager.requests(phase, &current.unwrap()).len();
    for addr in [AIRLINE_ADDR, HOTEL_ADDR, BANK_ADDR] {
        answer(&mut current, TransactionCode::Accept, 1, addr);
    }
    let report = manager.process(phase, &current.unwrap(), "100", "200", "300");
    logs += report.logs.len();
    records += report.record.iter().count();
    phase = report.next;

    assert_eq!(phase, Phase::Committing);
    requests += manager.requests(phase, &current.unwrap()).len();
    for addr in [AIRLINE_ADDR, HOTEL_ADDR, BANK_ADDR] {
        answer(&mut current, TransactionCode::Commit, 1, addr);
    }
    let report = manager.process(phase, &current.unwrap(), "100", "200", "300");
    assert_eq!(report.logs[0].addr, "127.0.0.1:49153");
    logs += report.logs.len();
    records += report.record.iter().count();
    phase = report.next;

    assert_eq!(phase, Phase::Done);
    assert_eq!(requests, 6);
    assert_eq!(logs, 2);
    assert_eq!(records, 0);
    assert!(current.unwrap().is_commited());
    assert!(manager.requests(phase, &current.unwrap()).is_empty());
    assert!(manager.process(phase, &current.unwrap(), "", "", "").logs.is_empty());
}

#[test]
fn airline_aborts_during_prepare() {
    let manager = manager(49152, &["127.0.0.1:49152", "127.0.0.1:49153"], true);
    let mut current = Some(Transaction::new(2, bits(100.0), bits(200.0), bits(300.0)));

    assert_eq!(manager.prepare(&current.unwrap()).len(), 3);
    answer(&mut current, TransactionCode::Abort, 2, AIRLINE_ADDR);
    answer(&mut current, TransactionCode::Accept, 2, HOTEL_ADDR);
    answer(&mut current, TransactionCode::Accept, 2, BANK_ADDR);
    assert!(!TransactionManager::must_wait(Phase::Preparing, &current.unwrap()));
    assert!(!current.unwrap().is_accepted());

    let report = manager.process(Phase::Preparing, &current.unwrap(), "100", "200", "300");
    assert_eq!(report.logs.len(), 1);
    assert_eq!(report.record, None);
    assert_eq!(report.next, Phase::Aborting);

    assert_eq!(
        manager.abort(&current.unwrap()),
        vec![
            request(HOTEL_ADDR, TransactionCode::Abort, 2, 200.0),
            request(BANK_ADDR, TransactionCode::Abort, 2, 300.0),
        ]
    );
    answer(&mut current, TransactionCode::Abort, 2, HOTEL_ADDR);
    assert!(TransactionManager::must_wait(Phase::Aborting, &current.unwrap()));
    answer(&mut current, TransactionCode::Abort, 2, BANK_ADDR);
    assert!(!TransactionManager::must_wait(Phase::Aborting, &current.unwrap()));

    let report = manager.process(Phase::Aborting, &current.unwrap(), "100", "200", "300");
    assert_eq!(report.logs.len(), 1);
    assert_eq!(report.record, Some("2,100,200,300\n".to_string()));
    assert_eq!(report.next, Phase::Persisted);
}

#[test]
fn timeout_on_prepare_falls_through_to_abort_and_abort_is_repeated() {
    let manager = manager(1, &[], true);
    let mut current = Some(Transaction::new(3, bits(1.0), bits(2.0), bits(3.0)));

    assert!(TransactionManager::must_wait(Phase::Preparing, &current.unwrap()));
    let report = manager.process(Phase::Preparing, &current.unwrap(), "1", "2", "3");
    assert_eq!(report.next, Phase::Aborting);
    assert_eq!(manager.requests(Phase::Aborting, &current.unwrap()).len(), 3);

    answer(&mut current, TransactionCode::Abort, 3, HOTEL_ADDR);
    let report = manager.process(Phase::Aborting, &current.unwrap(), "1", "2", "3");
    assert_eq!(report.next, Phase::Aborting);
    assert_eq!(report.record, None);
    assert_eq!(
        TransactionManager::wait_update(Phase::Aborting, &current.unwrap()),
        Err(TransactionError::Timeout)
    );
    assert_eq!(manager.requests(Phase::Aborting, &current.unwrap()).len(), 2);

    answer(&mut current, TransactionCode::Abort, 3, AIRLINE_ADDR);
    answer(&mut current, TransactionCode::Abort, 3, BANK_ADDR);
    let report = manager.process(Phase::Aborting, &current.unwrap(), "1", "2", "3");
    assert_eq!(report.next, Phase::Persisted);
    assert_eq!(report.record, Some("3,1,2,3\n".to_string()));
    assert_eq!(manager.process(Phase::Persisted, &current.unwrap(), "1", "2", "3").record, None);
}

#[test]
fn commit_is_repeated_until_everyone_has_committed() {
    let manager = manager(1, &[], false);
    let mut current = Some(Transaction::with_rows(
        9,
        (TransactionState::Accepted, 1),
        (TransactionState::Accepted, 2),
        (TransactionState::Accepted, 3),
    ));
    answer(&mut current, TransactionCode::Commit, 9, BANK_ADDR);
    assert_eq!(TransactionManager::next_phase(Phase::Committing, &current.unwrap()), Phase::Committing);
    assert_eq!(
        manager.commit(&current.unwrap()),
        vec![
            Datagram::new(AIRLINE_ADDR.to_string(), TransactionRequest::build(TransactionCode::Commit, 9, 1)),
            Datagram::new(HOTEL_ADDR.to_string(), TransactionRequest::build(TransactionCode::Commit, 9, 2)),
        ]
    );
}

#[test]
fn a_committed_transaction_goes_through_commit_again() {
    let committed = Transaction::with_rows(
        9,
        (TransactionState::Commited, 1),
        (TransactionState::Commited, 2),
        (TransactionState::Commited, 3),
    );
    assert!(!TransactionManager::must_wait(Phase::Preparing, &committed));
    assert_eq!(TransactionManager::next_phase(Phase::Preparing, &committed), Phase::Committing);
    assert_eq!(TransactionManager::next_phase(Phase::Committing, &committed), Phase::Done);
    assert_eq!(TransactionManager::next_phase(Phase::Done, &committed), Phase::Done);
}

#[test]
fn logs_go_to_every_replica_but_this_one() {
    let replicas = ["127.0.0.1:49152", "127.0.0.1:49153", "127.0.0.1:49154", "127.0.0.1:49153"];
    let manager = manager(49153, &replicas, false);
    let transaction = Transaction::new(4, 5, 6, 7);
    let logs = manager.send_transaction_logs(&transaction);
    assert_eq!(
        logs,
        vec![
            Datagram::new("127.0.0.1:49152".to_string(), transaction.log()),
            Datagram::new("127.0.0.1:49154".to_string(), transaction.log()),
        ]
    );
}

#[test]
fn aborted_transactions_are_on_record_only_where_records_are_kept() {
    let transaction = Transaction::new(2, 0, 0, 0);
    assert_eq!(
        manager(1, &[], true).persist_aborted(&transaction, "100", "200", "300"),
        Some("2,100,200,300\n".to_string())
    );
    assert_eq!(manager(1, &[], false).persist_aborted(&transaction, "100", "200", "300"), None);
}

#[test]
fn send_messages_asks_the_services_given() {
    let manager = manager(1, &[], false);
    let mut services = ServiceFees::new();
    services.insert(ServiceName::Bank, 9);
    assert_eq!(
        manager.send_messages(TransactionCode::Commit, 4, &services),
        vec![Datagram::new(
            BANK_ADDR.to_string(),
            TransactionRequest::build(TransactionCode::Commit, 4, 9)
        )]
    );
    assert!(manager.send_messages(TransactionCode::Prepare, 4, &ServiceFees::new()).is_empty());
}

#[test]
fn run_reads_the_file_after_what_was_in_progress_and_then_waits_for_retries() {
    let (state, action) = TransactionManager::start_run();
    assert!(matches_process(action, None));

    let (state, action) = TransactionManager::run(state, RunEvent::Processed(2));
    assert!(matches!(state, RunState::Reading { start_line: 2 }));
    assert!(matches!(action, RunAction::Read));

    let old = Transaction::new(2, 0, 0, 0);
    let (state, action) = TransactionManager::run(state, RunEvent::Booking(Some(old)));
    assert!(matches!(action, RunAction::Read));

    let (state, action) = TransactionManager::run(state, RunEvent::Booking(None));
    assert!(matches!(action, RunAction::Read));

    let new = Transaction::new(3, 0, 0, 0);
    let (state, action) = TransactionManager::run(state, RunEvent::Booking(Some(new)));
    assert!(matches_process(action, Some(new)));

    let (state, action) = TransactionManager::run(state, RunEvent::Processed(3));
    assert!(matches!(state, RunState::Reading { start_line: 2 }));
    assert!(matches!(action, RunAction::Read));

    let (state, action) = TransactionManager::run(state, RunEvent::EndOfFile);
    assert!(matches!(state, RunState::Idle));
    assert!(matches!(action, RunAction::AwaitRetry));

    let (state, action) = TransactionManager::run(state, RunEvent::Woken);
    assert!(matches_process(action, None));

    let (state, action) = TransactionManager::run(state, RunEvent::Processed(10));
    assert!(matches!(state, RunState::Idle));
    assert!(matches!(action, RunAction::AwaitRetry));

    let (state, action) = TransactionManager::run(state, RunEvent::TimedOut);
    assert!(matches!(state, RunState::Finished));
    assert!(matches!(action, RunAction::Finish));

    let (state, action) = TransactionManager::run(state, RunEvent::Woken);
    assert!(matches!(state, RunState::Finished));
    assert!(matches!(action, RunAction::Nothing));
}

#[test]
fn run_gives_up_when_the_file_cannot_be_opened() {
    let (state, action) =
        TransactionManager::run(RunState::Reading { start_line: 0 }, RunEvent::FileOpenFailed);
    assert!(matches!(state, RunState::Finished));
    assert!(matches!(action, RunAction::Abandon));
}
