//! Master data: groups of reference items, and the items of a group.
pub mod groups;
pub mod items;
