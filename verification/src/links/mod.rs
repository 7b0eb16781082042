//! Short links: creation rules, bulk import, redirects, updates, listing and export.
pub mod status;
pub mod record;
pub mod create;
pub mod create_flow;
pub mod import;
pub mod import_flow;
pub mod redirect;
pub mod list;
pub mod update;
pub mod export;
