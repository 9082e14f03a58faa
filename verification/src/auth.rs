//! Authentication: one-time passcodes, password credentials, session tokens
//! and the flows that combine them.

pub mod api;
pub mod header;
pub mod jwt;
pub mod models;
pub mod otp;
pub mod password;
pub mod req;
