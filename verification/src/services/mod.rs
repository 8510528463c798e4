pub mod airline_client;
pub mod bank_client;
pub mod common_client;
pub mod constants;
pub mod hotel_client;
pub mod service_addrs;
pub mod service_fees;
pub mod service_name;
