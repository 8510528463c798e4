pub mod candidate;
pub mod constants;
pub mod election_code;
pub mod election_message;
pub mod leader;
