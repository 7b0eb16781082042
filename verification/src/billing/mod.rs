//! Subscription billing.
pub mod webhook;
pub mod internal;
pub mod checkout;
pub mod quota;
pub mod ownership;
