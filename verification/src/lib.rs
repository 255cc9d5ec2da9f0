//! Verified core of a role-based access and master-data service: request
//! validation, the decisions of the domain services (groups, items, menus,
//! menu permissions, authorization), the SQL text of the dynamic queries,
//! cache keys and audit records.  The HTTP layer and the database driver live
//! in the companion application crate.
pub mod text;
pub mod sql;
pub mod errors;
pub mod validation;
pub mod audit;
pub mod cache;
pub mod clock;
pub mod json;
pub mod master_data;

pub mod menus;
pub mod menu_permissions;
pub mod authorization;
