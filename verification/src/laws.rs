//! What the operations achieve on a host, whatever the engine answers.
//!
//! A run of an operation is the sequence of responses that its driver hands
//! back, together with the hosts that the requests lead through: each request
//! that the operation makes is performed on the host as it is then, and the
//! response leads to the next request.

pub mod deploy;
pub mod list;
pub mod remove;
pub mod restart;
pub mod stop;
pub mod update;
