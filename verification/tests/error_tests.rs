use clean_api::errors::ServiceError;

#[test]
fn messages_of_each_error() {
    assert_eq!(ServiceError::GroupCodeExists.message(), "Group code already exists");
    assert_eq!(
        ServiceError::GroupNotFound { code: "GENDER".into() }.message(),
        "Master data group 'GENDER' not found"
    );
    assert_eq!(
        ServiceError::GroupHasItems { code: "GENDER".into(), item_count: 3 }.message(),
        "Cannot delete group 'GENDER': it still has 3 item(s)"
    );
    assert_eq!(ServiceError::ItemCodeExists.message(), "Item code already exists in this group");
    assert_eq!(
        ServiceError::GroupNotHierarchical { code: "GENDER".into() }.message(),
        "Group 'GENDER' is not hierarchical; parent_id is not allowed"
    );
    assert_eq!(ServiceError::ItemNotFound.message(), "Item not found in this group");
    assert_eq!(
        ServiceError::ItemHasChildren { code: "JKT".into(), child_count: 12 }.message(),
        "Cannot delete item 'JKT': it still has 12 child item(s)"
    );
    assert_eq!(ServiceError::MenuNameExists.message(), "Name code already exists");
    assert_eq!(ServiceError::MenuNotFound.message(), "Menu not found");
    assert_eq!(ServiceError::UserNotFound.message(), "User not found");
    assert_eq!(ServiceError::Store { message: "connection refused".into() }.message(), "connection refused");
    assert_eq!(ServiceError::ClockUnavailable.message(), "System clock is unavailable");
}
