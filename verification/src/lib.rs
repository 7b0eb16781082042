//! Verified core of a self-hostable URL shortener: query parsing, tier gating,
//! link rules, billing state handling and organization permissions.

pub mod text;
pub mod query;
pub mod tier;
pub mod clock;
pub mod secrets;
pub mod settings;
pub mod analytics;
pub mod billing;
pub mod links;
pub mod orgs;
pub mod admin;
pub mod auth;
pub mod keys;
pub mod domains;
pub mod reports;
pub mod router;
pub mod notifications;
