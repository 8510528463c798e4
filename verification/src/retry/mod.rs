pub mod transaction_retrier;
