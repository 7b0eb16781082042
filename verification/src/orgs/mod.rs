//! Organizations: roles, membership, invitations, settings and deletion.
pub mod roles;
pub mod invitations;
pub mod manage;
pub mod delete_flow;
pub mod settings;
