pub mod transaction;
pub mod transaction_error;
pub mod transaction_manager;
pub mod transaction_message;
pub mod transaction_receiver;
pub mod transaction_state;
pub mod transactionable;
