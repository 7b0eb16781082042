//! Administration: blocked destinations, user moderation and account operations.
pub mod blacklist;
pub mod block_flow;
pub mod users;
pub mod ops;
