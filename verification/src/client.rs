//! The client side of a connection.

pub mod in_flight_requests;
pub mod pending;
