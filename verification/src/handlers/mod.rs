//! The rules behind the requests: what is admitted, what is refused and why.

pub mod employee;
pub mod organization;
pub mod payroll;
