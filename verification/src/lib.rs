//! Authentication core of a community platform: one-time passcodes, password
//! credentials, signed session tokens and the registration and login flows
//! built on them.

pub mod auth;
pub mod clock;
pub mod error;
pub mod text;
pub mod utils;
