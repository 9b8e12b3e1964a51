//! The operations on the instance, one module each.

pub mod deploy;
pub mod doctor;
pub mod list;
pub mod remove;
pub mod restart;
pub mod stop;
pub mod update;
