//! Payroll calculation and payroll-run orchestration with machine-checked contracts.
//!
//! The crate holds the rules of a payroll system: how a payslip is computed from a
//! salary, its adjustments and the statutory rates, how a payroll run moves through
//! its life cycle, when a disbursement is attempted and how its outcome is booked.
//! Everything that touches a database, a network or a clock is left to the caller.

pub mod auth;
pub mod config;
pub mod decimal;
pub mod errors;
pub mod handlers;
pub mod models;
pub mod services;
pub mod text;
