pub mod datagram;
pub mod socket_error;
