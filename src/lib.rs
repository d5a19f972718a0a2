//! Gatekeeper for delegated trial keys: policy evaluation, usage accounting
//! and assembly of the unsigned transaction handed to a signing service.

pub mod action;
pub mod policy;
pub mod usage;
pub mod contract;
pub mod laws;
