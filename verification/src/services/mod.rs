//! The payroll engine and the clients it speaks through.

pub mod email;
pub mod monnify;
pub mod orchestrator;
pub mod payroll;
