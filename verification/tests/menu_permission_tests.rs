use clean_api::audit::{AuditValue, MetadataEntry};
use clean_api::errors::ServiceError;
use clean_api::menu_permissions::{
    complete_assign, complete_revoke, permission_responses, AssignMenuPermissionRequest,
    DefaultMenuPermissionService, MenuPermission, MenuPermissionResponse,
};

#[test]
fn assignment_needs_a_permission() {
    assert_eq!(AssignMenuPermissionRequest::required_fields(), vec!["permission_ids"]);
    assert!(AssignMenuPermissionRequest { permission_ids: vec![1] }.validate().is_ok());
    let v = AssignMenuPermissionRequest { permission_ids: vec![] }.validate().unwrap_err();
    assert_eq!(v.len(), 1);
    assert_eq!(v[0].field, "permission_ids");
    assert_eq!(v[0].message, None);
}

#[test]
fn assignment_audit() {
    let req = AssignMenuPermissionRequest { permission_ids: vec![4, 2] };
    let a = complete_assign(3, &req, &Ok(()), Some(1), Some("::1".into()), None);
    assert_eq!(a.action, "menu_permission.assigned");
    assert_eq!(a.entity_type.as_deref(), Some("role"));
    assert_eq!(a.entity_id.as_deref(), Some("3"));
    assert!(a.is_success);
    assert_eq!(
        a.metadata,
        Some(vec![
            MetadataEntry { key: "permission_ids".into(), value: AuditValue::U64List(vec![4, 2]) },
            MetadataEntry { key: "error".into(), value: AuditValue::Null },
        ])
    );
    let failed = complete_assign(3, &req, &Err(ServiceError::Store { message: "duplicate".into() }), None, None, None);
    assert!(!failed.is_success);
    assert_eq!(failed.metadata.unwrap()[1].value, AuditValue::Text("duplicate".into()));
}

#[test]
fn revocation_audit() {
    let a = complete_revoke(3, 9, &Ok(()), None, None, Some("ua".into()));
    assert_eq!(a.action, "menu_permission.revoked");
    assert_eq!(a.entity_id.as_deref(), Some("role:3 permission:9"));
    assert_eq!(a.metadata, None);
    assert_eq!(a.user_agent.as_deref(), Some("ua"));
    let failed = complete_revoke(3, 9, &Err(ServiceError::Store { message: "gone".into() }), None, None, None);
    assert_eq!(failed.metadata, Some(vec![MetadataEntry { key: "error".into(), value: AuditValue::Text("gone".into()) }]));
}

#[test]
fn listing_keeps_stored_order() {
    let r = permission_responses(vec![
        MenuPermission { menu_id: 3, permission_id: 1 },
        MenuPermission { menu_id: 3, permission_id: 7 },
    ]);
    assert_eq!(
        r,
        vec![
            MenuPermissionResponse { menu_id: 3, permission_id: 1 },
            MenuPermissionResponse { menu_id: 3, permission_id: 7 },
        ]
    );
    assert!(permission_responses(vec![]).is_empty());
}

#[test]
fn menu_permission_service_holds_its_parts() {
    let s = DefaultMenuPermissionService::new("repo", "audit");
    assert_eq!(s.repository, "repo");
    assert_eq!(s.audit_log_service, "audit");
}
