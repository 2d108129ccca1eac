//! The record types of the network model.

pub mod current_limits;
pub mod line;
pub mod network;
pub mod substation;
pub mod temporary_limit;
