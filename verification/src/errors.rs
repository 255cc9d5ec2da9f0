//! The errors that the domain services report, with the messages that the
//! HTTP layer shows to clients.
use vstd::prelude::*;
use crate::text::{decimal, u64_to_decimal, copy_string};

verus! {

/// Why a service operation failed.
#[derive(Debug, Clone, PartialEq)]
pub enum ServiceError {
    /// A group with the requested code exists already.
    GroupCodeExists,
    /// No live group has this code.
    GroupNotFound { code: String },
    /// The group still holds items.
    GroupHasItems { code: String, item_count: u64 },
    /// An item with the requested code exists already in the group.
    ItemCodeExists,
    /// A parent was given for an item of a flat group.
    GroupNotHierarchical { code: String },
    /// The item does not exist or belongs to another group.
    ItemNotFound,
    /// The item still has child items.
    ItemHasChildren { code: String, child_count: u64 },
    /// A menu with the requested name exists already.
    MenuNameExists,
    /// No menu has this id.
    MenuNotFound,
    /// No user has this id.
    UserNotFound,
    /// The data store failed; the text is its message.
    Store { message: String },
    /// The system clock gave no usable time to stamp a record with.
    ClockUnavailable,
}

/// The message shown for `e`.
pub open spec fn error_text(e: ServiceError) -> Seq<char> {
    match e {
        ServiceError::GroupCodeExists => "Group code already exists"@,
        ServiceError::GroupNotFound { code } => "Master data group '"@ + code@ + "' not found"@,
        ServiceError::GroupHasItems { code, item_count } => "Cannot delete group '"@ + code@
            + "': it still has "@ + decimal(item_count as nat) + " item(s)"@,
        ServiceError::ItemCodeExists => "Item code already exists in this group"@,
        ServiceError::GroupNotHierarchical { code } => "Group '"@ + code@
            + "' is not hierarchical; parent_id is not allowed"@,
        ServiceError::ItemNotFound => "Item not found in this group"@,
        ServiceError::ItemHasChildren { code, child_count } => "Cannot delete item '"@ + code@
            + "': it still has "@ + decimal(child_count as nat) + " child item(s)"@,
        ServiceError::MenuNameExists => "Name code already exists"@,
        ServiceError::MenuNotFound => "Menu not found"@,
        ServiceError::UserNotFound => "User not found"@,
        ServiceError::Store { message } => message@,
        ServiceError::ClockUnavailable => "System clock is unavailable"@,
    }
}

impl ServiceError {
    /// The message shown to clients for this error.
    pub fn message(&self) -> (s: String)
        ensures
            s@ == error_text(*self),
    {
        match self {
            ServiceError::GroupCodeExists => String::from_str("Group code already exists"),
            ServiceError::GroupNotFound { code } => {
                let s = String::from_str("Master data group '");
                let s = s.concat(code.as_str());
                s.concat("' not found")
            },
            ServiceError::GroupHasItems { code, item_count } => {
                let s = String::from_str("Cannot delete group '");
                let s = s.concat(code.as_str());
                let s = s.concat("': it still has ");
                let n = u64_to_decimal(*item_count);
                let s = s.concat(n.as_str());
                s.concat(" item(s)")
            },
            ServiceError::ItemCodeExists => String::from_str("Item code already exists in this group"),
            ServiceError::GroupNotHierarchical { code } => {
                let s = String::from_str("Group '");
                let s = s.concat(code.as_str());
                s.concat("' is not hierarchical; parent_id is not allowed")
            },
            ServiceError::ItemNotFound => String::from_str("Item not found in this group"),
            ServiceError::ItemHasChildren { code, child_count } => {
                let s = String::from_str("Cannot delete item '");
                let s = s.concat(code.as_str());
                let s = s.concat("': it still has ");
                let n = u64_to_decimal(*child_count);
                let s = s.concat(n.as_str());
                s.concat(" child item(s)")
            },
            ServiceError::MenuNameExists => String::from_str("Name code already exists"),
            ServiceError::MenuNotFound => String::from_str("Menu not found"),
            ServiceError::UserNotFound => String::from_str("User not found"),
            ServiceError::Store { message } => copy_string(message),
            ServiceError::ClockUnavailable => String::from_str("System clock is unavailable"),
        }
    }
}

} // verus!
