//! Power-Time services.

pub mod sysm;
pub mod user;
