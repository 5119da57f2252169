//! The local speech service: how it is reached, started and waited for, and how
//! its replies become audio or errors.

pub mod engine;
pub mod external;
