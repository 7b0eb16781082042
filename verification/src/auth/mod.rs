//! Sign-in sessions and account deletion.
pub mod session;
pub mod account;
