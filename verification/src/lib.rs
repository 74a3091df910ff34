//! Chilean national identifier numbers (RUT): validation, parsing,
//! formatting and generation.

pub mod component;
pub mod decimal;
pub mod digit;
pub mod error;
pub mod order;
pub mod random;
pub mod rut;
pub mod text;

pub use digit::VerificationDigit;
pub use error::Error;
pub use rut::{Format, Num, Rut, MAX_NUM, MIN_NUM};
