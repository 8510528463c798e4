//! Coordinator logic for two-phase commit over three booking services:
//! the booking entity, the wire frames, and the decision functions of the
//! manager, the receiver and the leader election.

pub mod alglobo;
pub mod candidates;
pub mod clients;
pub mod file_reader;
pub mod retry;
pub mod services;
pub mod sockets;
pub mod text;
pub mod transaction_messages;
