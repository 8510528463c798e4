use vstd::prelude::*;

verus! {

/// The host that every replica and service runs on, ready for a port to follow.
pub const DEFAULT_IP: &'static str = "127.0.0.1:";

pub const AIRLINE_ADDR: &'static str = "127.0.0.1:59353";

pub const HOTEL_ADDR: &'static str = "127.0.0.1:59354";

pub const BANK_ADDR: &'static str = "127.0.0.1:59355";

pub const TRANSACTION_FILE: &'static str = "data/data.csv";

pub const ABORT_FILE: &'static str = "data/abortadas.csv";

/// The ports on which replicas exchange bookings: from the first up to, not
/// including, the last.
pub const FIRST_PORT_DATA: u64 = 49152;

pub const LAST_PORT_DATA: u64 = 49155;

/// The ports on which replicas hold elections: from the first up to, not
/// including, the last.
pub const FIRST_PORT_INFO: u64 = 49354;

pub const LAST_PORT_INFO: u64 = 49356;

/// The replica that is configured first listens on this port.
pub const SEED_PORT: u64 = 49353;

/// Milliseconds between two bookings read from the file.
pub const SLEEP_MANAGER: u64 = 1000;

/// Milliseconds that an idle leader waits for a retry before it finishes.
pub const END_TIMEOUT: u64 = 10000;

/// Milliseconds that a phase of a booking may take.
pub const PHASE_TIMEOUT: u64 = 10000;

/// Milliseconds that a replica waits for the leader to answer a probe.
pub const PROBE_TIMEOUT: u64 = 1000;

/// Milliseconds that a replica waits for a frame after the leader answered, and
/// for the announcement of a leader after it lost an election.
pub const ANNOUNCE_TIMEOUT: u64 = 10000;

/// Milliseconds that a replica waits for a rival to answer during an election.
pub const ELECTION_TIMEOUT: u64 = 100;

} // verus!
