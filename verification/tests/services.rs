use tp::alglobo::transaction::Transaction;
use tp::alglobo::transactionable::Transactionable;
use tp::retry::transaction_retrier::TransactionRetrier;
use tp::services::airline_client::Airline;
use tp::services::bank_client::Bank;
use tp::services::common_client::{draw, is_request, FeeChange};
use tp::services::hotel_client::Hotel;
use tp::sockets::datagram::Datagram;
use tp::transaction_messages::transaction_code::TransactionCode;
use tp::transaction_messages::transaction_info::TransactionInfo;
use tp::transaction_messages::transaction_request::TransactionRequest;
use tp::transaction_messages::transaction_response::TransactionResponse;
use tp::transaction_messages::transaction_retry::TransactionRetry;

fn bits(fee: f64) -> u64 {
    fee.to_bits()
}

fn apply(sum: f64, change: FeeChange) -> f64 {
    match change {
        FeeChange::Keep => sum,
        FeeChange::Add(fee) => sum + f64::from_bits(fee),
        FeeChange::Subtract(fee) => sum - f64::from_bits(fee),
    }
}

fn response(code: TransactionCode, id: u64) -> Vec<u8> {
    let mut response = TransactionResponse::build(code, id);
    TransactionInfo::add_padding(&mut response);
    response
}

#[test]
fn it_should_send_message_transaction_retry_to_all_alglobo_replicas() {
    let replicas_addrs = vec![
        "127.0.0.1:49152".to_string(),
        "127.0.0.1:49353".to_string(),
        "127.0.0.1:49354".to_string(),
    ];

    let mut message = TransactionRetry::build(0, bits(100.0), bits(200.0), bits(300.0));
    TransactionInfo::add_padding(&mut message);

    let retrier = TransactionRetrier::new(replicas_addrs.clone());
    let transaction = Transaction::new(0, bits(100.0), bits(200.0), bits(300.0));
    assert_eq!(transaction.retry(), message);

    let sent = retrier.process(&transaction);
    assert_eq!(sent.len(), 3);
    assert_eq!(
        sent,
        replicas_addrs
            .iter()
            .map(|addr| Datagram::new(addr.clone(), message.clone()))
            .collect::<Vec<Datagram>>()
    );
}

#[test]
fn airline_client_it_should_return_accept_when_receives_prepare() {
    let transaction_id = 0;
    let first_msg = TransactionRequest::build(TransactionCode::Prepare, transaction_id, bits(100.0));
    assert_eq!(first_msg.len(), TransactionRequest::size());

    let mut airline = Airline::new();
    let answer = airline.answer_drawn(&first_msg, 9);
    assert_eq!(answer.response, response(TransactionCode::Accept, transaction_id));
    assert_eq!(answer.fee_change, FeeChange::Keep);
}

#[test]
fn airline_client_it_should_return_accept_when_receives_abort() {
    let transaction_id = 0;
    let first_msg = TransactionRequest::build(TransactionCode::Abort, transaction_id, bits(100.0));

    let mut airline = Airline::new();
    let answer = airline.answer_message(&first_msg);
    assert_eq!(answer.response, response(TransactionCode::Abort, transaction_id));
    assert_eq!(apply(0.0, answer.fee_change), -100.0);
}

#[test]
fn airline_client_it_should_return_accept_when_receives_commit() {
    let transaction_id = 0;
    let first_msg = TransactionRequest::build(TransactionCode::Commit, transaction_id, bits(100.0));

    let mut airline = Airline::new();
    let answer = airline.answer_message(&first_msg);
    assert_eq!(answer.response, response(TransactionCode::Commit, transaction_id));
}

#[test]
fn airline_client_it_should_change_fee_when_receives_commit() {
    let transaction_id = 0;
    let first_msg = TransactionRequest::build(TransactionCode::Commit, transaction_id, bits(100.0));

    let mut airline = Airline::new();
    let answer = airline.answer_message(&first_msg);
    assert_eq!(apply(0.0, answer.fee_change), 100.0)
}

#[test]
fn hotel_client_it_should_return_accept_when_receives_prepare() {
    let transaction_id = 0;
    let first_msg = TransactionRequest::build(TransactionCode::Prepare, transaction_id, bits(100.0));

    let mut hotel = Hotel::new();
    let answer = hotel.answer_drawn(&first_msg, 2);
    assert_eq!(answer.response, response(TransactionCode::Accept, transaction_id));
    assert_eq!(answer.fee_change, FeeChange::Keep);
}

#[test]
fn hotel_client_it_should_return_accept_when_receives_abort() {
    let transaction_id = 0;
    let first_msg = TransactionRequest::build(TransactionCode::Abort, transaction_id, bits(100.0));

    let mut hotel = Hotel::new();
    let answer = hotel.answer_message(&first_msg);
    assert_eq!(answer.response, response(TransactionCode::Abort, transaction_id));
    assert_eq!(apply(0.0, answer.fee_change), -100.0);
}

#[test]
fn hotel_client_it_should_return_accept_when_receives_commit() {
    let transaction_id = 0;
    let first_msg = TransactionRequest::build(TransactionCode::Commit, transaction_id, bits(100.0));

    let mut hotel = Hotel::new();
    let answer = hotel.answer_message(&first_msg);
    assert_eq!(answer.response, response(TransactionCode::Commit, transaction_id));
}

#[test]
fn hotel_client_it_should_change_fee_when_receives_commit() {
    let transaction_id = 0;
    let first_msg = TransactionRequest::build(TransactionCode::Commit, transaction_id, bits(100.0));

    let mut hotel = Hotel::new();
    let answer = hotel.answer_message(&first_msg);
    assert_eq!(apply(0.0, answer.fee_change), 100.0)
}

#[test]
fn bank_client_it_should_return_accept_when_receives_prepare() {
    let transaction_id = 0;
    let first_msg = TransactionRequest::build(TransactionCode::Prepare, transaction_id, bits(100.0));

    let mut bank = Bank::new();
    let answer = bank.answer_message(&first_msg);
    assert_eq!(answer.response, response(TransactionCode::Accept, transaction_id));
    assert_eq!(answer.fee_change, FeeChange::Keep);
}

#[test]
fn bank_client_it_should_return_accept_when_receives_abort() {
    let transaction_id = 0;
    let first_msg = TransactionRequest::build(TransactionCode::Abort, transaction_id, bits(100.0));

    let mut bank = Bank::new();
    let answer = bank.answer_message(&first_msg);
    assert_eq!(answer.response, response(TransactionCode::Abort, transaction_id));
    assert_eq!(apply(0.0, answer.fee_change), -100.0);
}

#[test]
fn bank_client_it_should_return_accept_when_receives_commit() {
    let transaction_id = 0;
    let first_msg = TransactionRequest::build(TransactionCode::Commit, transaction_id, bits(100.0));

    let mut bank = Bank::new();
    let answer = bank.answer_message(&first_msg);
    assert_eq!(answer.response, response(TransactionCode::Commit, transaction_id));
}

#[test]
fn bank_client_it_should_change_fee_when_receives_commit() {
    let transaction_id = 0;
    let first_msg = TransactionRequest::build(TransactionCode::Commit, transaction_id, bits(100.0));

    let mut bank = Bank::new();
    let answer = bank.answer_message(&first_msg);
    assert_eq!(apply(0.0, answer.fee_change), 100.0)
}

#[test]
fn a_low_draw_refuses_a_new_booking_and_a_known_booking_is_accepted() {
    let prepare = TransactionRequest::build(TransactionCode::Prepare, 7, bits(1.0));
    let mut airline = Airline::new();
    let answer = airline.answer_drawn(&prepare, 1);
    assert_eq!(answer.response, response(TransactionCode::Abort, 7));
    assert_eq!(answer.fee_change, FeeChange::Keep);
    // asked again, whatever is drawn
    let answer = airline.answer_drawn(&prepare, 0);
    assert_eq!(answer.response, response(TransactionCode::Accept, 7));

    let other = TransactionRequest::build(TransactionCode::Prepare, 8, bits(1.0));
    assert_eq!(airline.answer_drawn(&other, 2).response, response(TransactionCode::Accept, 8));
    assert_eq!(airline.answer_drawn(&other, 0).response, response(TransactionCode::Accept, 8));
}

#[test]
fn a_prepare_is_answered_with_accept_or_abort() {
    for id in 0..50u64 {
        let prepare = TransactionRequest::build(TransactionCode::Prepare, id, bits(1.0));
        let mut hotel = Hotel::new();
        let answer = hotel.answer_message(&prepare);
        assert!(
            answer.response == response(TransactionCode::Accept, id)
                || answer.response == response(TransactionCode::Abort, id)
        );
        assert_eq!(answer.fee_change, FeeChange::Keep);
    }
}

#[test]
fn draws_stay_below_ten() {
    for _ in 0..1000 {
        assert!(draw() < 10);
    }
}

#[test]
fn requests_need_an_identifier_and_a_fee_unless_they_prepare() {
    assert!(is_request(&TransactionRequest::build(TransactionCode::Abort, 1, 2)));
    assert!(is_request(&[b'P', 0, 0, 0, 0, 0, 0, 0, 1]));
    assert!(!is_request(&[b'A', 0, 0, 0, 0, 0, 0, 0, 1]));
    assert!(!is_request(&[b'P', 0, 0]));
    assert!(!is_request(&[]));
}
