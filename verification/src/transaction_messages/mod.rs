pub mod big_endian;
pub mod transaction_code;
pub mod transaction_info;
pub mod transaction_log;
pub mod transaction_request;
pub mod transaction_response;
pub mod transaction_retry;
pub mod types;
