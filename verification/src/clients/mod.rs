pub mod client;
pub mod client_error;
