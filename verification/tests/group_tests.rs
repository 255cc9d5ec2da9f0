use clean_api::audit::{AuditValue, CacheInvalidation, MetadataEntry};
use clean_api::cache::CacheRead;
use clean_api::errors::ServiceError;
use clean_api::master_data::groups::{
    apply_group_update, complete_create_group, complete_delete_group, complete_update_group,
    count_groups_query, found_group, group_cache_key, group_filter, group_list_response,
    list_groups_query, make_new_group, map_group, plan_create_group, plan_delete_group,
    plan_update_group, plan_create_group_at, plan_update_group_at, group_read,
    CreateMasterDataGroupRequest, DefaultMasterDataGroupService,
    ListMasterDataGroupRequest, MasterDataGroup, MasterDataGroupFilter,
    UpdateMasterDataGroupRequest, GROUP_COUNT_SQL, GROUP_LIST_SQL,
};
use clean_api::sql::SqlValue;

fn group() -> MasterDataGroup {
    MasterDataGroup {
        id: 4,
        code: "GENDER".into(),
        name: "Gender".into(),
        description: Some("People".into()),
        is_hierarchical: false,
        is_active: true,
        created_at: 100,
        updated_at: 200,
    }
}

fn create_request() -> CreateMasterDataGroupRequest {
    CreateMasterDataGroupRequest {
        code: "GENDER".into(),
        name: "Gender".into(),
        description: None,
        is_hierarchical: None,
    }
}

fn meta(key: &str, value: AuditValue) -> MetadataEntry {
    MetadataEntry { key: key.into(), value }
}

#[test]
fn create_request_rules() {
    assert_eq!(CreateMasterDataGroupRequest::required_fields(), vec!["code", "name"]);
    assert!(create_request().validate().is_ok());
    let mut bad = create_request();
    bad.code = String::new();
    bad.name = "n".repeat(151);
    bad.description = Some("d".repeat(256));
    let v = bad.validate().unwrap_err();
    let fields: Vec<&str> = v.iter().map(|x| x.field.as_str()).collect();
    assert_eq!(fields, vec!["code", "name", "description"]);
    assert_eq!(v[0].message.as_deref(), Some("Code must be between 1 and 50 characters"));
    assert_eq!(v[1].message.as_deref(), Some("Name must be between 1 and 150 characters"));
    assert_eq!(v[2].message.as_deref(), Some("Description must not exceed 255 characters"));
    let mut edge = create_request();
    edge.code = "é".repeat(50);
    edge.description = Some(String::new());
    assert!(edge.validate().is_ok());
}

#[test]
fn update_request_rules() {
    assert!(UpdateMasterDataGroupRequest::required_fields().is_empty());
    let empty = UpdateMasterDataGroupRequest { name: None, description: None, is_hierarchical: None, is_active: None };
    assert!(empty.validate().is_ok());
    let bad = UpdateMasterDataGroupRequest { name: Some(String::new()), ..empty };
    let v = bad.validate().unwrap_err();
    assert_eq!(v.len(), 1);
    assert_eq!(v[0].field, "name");
}

#[test]
fn cache_key_of_group() {
    assert_eq!(group_cache_key("GENDER"), "master_data_group:code:GENDER");
}

#[test]
fn creation_refused_when_code_taken() {
    assert_eq!(plan_create_group(&create_request(), true), Err(ServiceError::GroupCodeExists));
}

#[test]
fn creation_builds_flat_active_group() {
    let g = plan_create_group(&create_request(), false).unwrap();
    assert_eq!(g.id, 0);
    assert_eq!(g.code, "GENDER");
    assert!(!g.is_hierarchical);
    assert!(g.is_active);
    assert_eq!(g.created_at, g.updated_at);
    assert!(g.created_at > 0);
    let mut req = create_request();
    req.is_hierarchical = Some(true);
    req.description = Some("d".into());
    let g = make_new_group(&req, 55);
    assert!(g.is_hierarchical);
    assert_eq!(g.description.as_deref(), Some("d"));
    assert_eq!((g.created_at, g.updated_at), (55, 55));
}

#[test]
fn lookup_reports_missing_group() {
    assert_eq!(
        found_group("X", None),
        Err(ServiceError::GroupNotFound { code: "X".into() })
    );
    assert_eq!(found_group("GENDER", Some(group())), Ok(group()));
}

#[test]
fn update_replaces_given_fields_only() {
    let req = UpdateMasterDataGroupRequest {
        name: Some("Sex".into()),
        description: None,
        is_hierarchical: None,
        is_active: Some(false),
    };
    let g = apply_group_update(group(), &req, 999);
    assert_eq!(g.name, "Sex");
    assert_eq!(g.description.as_deref(), Some("People"));
    assert!(!g.is_hierarchical);
    assert!(!g.is_active);
    assert_eq!((g.created_at, g.updated_at), (100, 999));
    assert_eq!(g.code, "GENDER");
    let again = apply_group_update(g.clone(), &req, 999);
    assert_eq!(again, g);
    let empty = UpdateMasterDataGroupRequest { name: None, description: None, is_hierarchical: None, is_active: None };
    let same = apply_group_update(group(), &empty, 300);
    assert_eq!(same, MasterDataGroup { updated_at: 300, ..group() });
    let stamped = plan_update_group(group(), &empty).unwrap();
    assert_eq!(stamped, MasterDataGroup { updated_at: stamped.updated_at, ..group() });
}

#[test]
fn deletion_refused_while_items_remain() {
    assert_eq!(
        plan_delete_group("GENDER", &group(), 2),
        Err(ServiceError::GroupHasItems { code: "GENDER".into(), item_count: 2 })
    );
    assert_eq!(plan_delete_group("GENDER", &group(), 0), Ok(4));
}

#[test]
fn deletion_refusal_names_the_requested_code() {
    let refused = plan_delete_group("gender", &group(), 3);
    assert_eq!(refused, Err(ServiceError::GroupHasItems { code: "gender".into(), item_count: 3 }));
    assert_eq!(
        refused.unwrap_err().message(),
        "Cannot delete group 'gender': it still has 3 item(s)"
    );
}

#[test]
fn response_copies_group() {
    let r = map_group(group());
    assert_eq!(r.id, 4);
    assert_eq!(r.code, "GENDER");
    assert_eq!(r.description.as_deref(), Some("People"));
    assert_eq!((r.created_at, r.updated_at), (100, 200));
}

#[test]
fn audit_of_creation() {
    let ok = complete_create_group(&create_request(), &Ok(17), Some(1), Some("10.0.0.1".into()), Some("curl".into()));
    assert_eq!(ok.invalidate, CacheInvalidation::Nothing);
    let a = ok.audit;
    assert_eq!(a.action, "master_data_group.created");
    assert_eq!(a.entity_type.as_deref(), Some("master_data_group"));
    assert_eq!(a.entity_id.as_deref(), Some("17"));
    assert!(a.is_success);
    assert_eq!(a.actor_id, Some(1));
    assert_eq!(a.actor_email, None);
    assert_eq!(a.ip_address.as_deref(), Some("10.0.0.1"));
    assert_eq!(a.user_agent.as_deref(), Some("curl"));
    assert_eq!(
        a.metadata,
        Some(vec![
            meta("code", AuditValue::Text("GENDER".into())),
            meta("name", AuditValue::Text("Gender".into())),
            meta("error", AuditValue::Null),
        ])
    );
    let failed = complete_create_group(&create_request(), &Err(ServiceError::GroupCodeExists), None, None, None).audit;
    assert!(!failed.is_success);
    assert_eq!(failed.entity_id, None);
    assert_eq!(
        failed.metadata.unwrap()[2],
        meta("error", AuditValue::Text("Group code already exists".into()))
    );
}

#[test]
fn audit_and_cache_of_update() {
    let req = UpdateMasterDataGroupRequest { name: Some("Sex".into()), description: None, is_hierarchical: None, is_active: None };
    let ok = complete_update_group("GENDER", &req, &Ok(()), Some(2), None, None);
    assert_eq!(ok.invalidate, CacheInvalidation::Key("master_data_group:code:GENDER".into()));
    assert_eq!(ok.audit.action, "master_data_group.updated");
    assert_eq!(ok.audit.entity_id.as_deref(), Some("GENDER"));
    assert_eq!(
        ok.audit.metadata,
        Some(vec![
            meta("name", AuditValue::Text("Sex".into())),
            meta("is_active", AuditValue::Null),
            meta("error", AuditValue::Null),
        ])
    );
    let failed = complete_update_group("GENDER", &req, &Err(ServiceError::GroupNotFound { code: "GENDER".into() }), None, None, None);
    assert_eq!(failed.invalidate, CacheInvalidation::Nothing);
    assert!(!failed.audit.is_success);
}

#[test]
fn audit_and_cache_of_deletion() {
    let ok = complete_delete_group("GENDER", &Ok(()), Some(3), None, None);
    assert_eq!(ok.invalidate, CacheInvalidation::Key("master_data_group:code:GENDER".into()));
    assert_eq!(ok.audit.action, "master_data_group.deleted");
    assert_eq!(ok.audit.metadata, None);
    let err = ServiceError::GroupHasItems { code: "GENDER".into(), item_count: 1 };
    let failed = complete_delete_group("GENDER", &Err(err), Some(3), None, None);
    assert_eq!(failed.invalidate, CacheInvalidation::Nothing);
    assert_eq!(
        failed.audit.metadata,
        Some(vec![meta("error", AuditValue::Text("Cannot delete group 'GENDER': it still has 1 item(s)".into()))])
    );
}

#[test]
fn group_filter_defaults() {
    let f = group_filter(ListMasterDataGroupRequest { page: None, page_size: None, search: None, sort_by: None, sort_type: None });
    assert_eq!(
        f,
        MasterDataGroupFilter { page: 1, page_size: 10, search: None, sort_by: "created_at".into(), sort_type: "DESC".into() }
    );
    let f = group_filter(ListMasterDataGroupRequest { page: Some(2), page_size: Some(5), search: Some("g".into()), sort_by: Some("name".into()), sort_type: Some("asc".into()) });
    assert_eq!((f.page, f.page_size, f.search.as_deref(), f.sort_by.as_str(), f.sort_type.as_str()), (2, 5, Some("g"), "name", "asc"));
}

#[test]
fn list_query_without_search() {
    let f = MasterDataGroupFilter { page: 1, page_size: 10, search: None, sort_by: "created_at".into(), sort_type: "DESC".into() };
    let q = list_groups_query(&f);
    assert_eq!(
        q.sql(),
        "\n            SELECT id, code, name, description, is_hierarchical, is_active, created_at, updated_at\n            FROM master_data_groups\n            WHERE delete_marker IS NULL\n             ORDER BY created_at DESC LIMIT ? OFFSET ?"
    );
    assert_eq!(q.binds(), &vec![SqlValue::I64(10), SqlValue::I64(0)]);
}

#[test]
fn list_query_with_search_and_sort() {
    let f = MasterDataGroupFilter { page: 3, page_size: 5, search: Some("gen".into()), sort_by: "code".into(), sort_type: "Asc".into() };
    let q = list_groups_query(&f);
    assert_eq!(
        q.sql(),
        format!("{GROUP_LIST_SQL} AND (code LIKE ? OR name LIKE ?) ORDER BY code ASC LIMIT ? OFFSET ?")
    );
    assert_eq!(
        q.binds(),
        &vec![
            SqlValue::Text("%gen%".into()),
            SqlValue::Text("%gen%".into()),
            SqlValue::I64(5),
            SqlValue::I64(10),
        ]
    );
    let c = count_groups_query(&f);
    assert_eq!(c.sql(), format!("{GROUP_COUNT_SQL} AND (code LIKE ? OR name LIKE ?)"));
    assert_eq!(c.binds(), &q.binds()[..2].to_vec());
}

#[test]
fn unknown_sort_column_and_blank_search_are_ignored() {
    let f = MasterDataGroupFilter { page: 1, page_size: 10, search: Some("   ".into()), sort_by: "name; DROP TABLE x".into(), sort_type: "sideways".into() };
    let q = list_groups_query(&f);
    assert_eq!(q.sql(), format!("{GROUP_LIST_SQL} ORDER BY created_at DESC LIMIT ? OFFSET ?"));
    assert_eq!(q.bind_count(), 2);
    let c = count_groups_query(&f);
    assert_eq!(c.sql(), GROUP_COUNT_SQL);
    assert_eq!(c.bind_count(), 0);
}

#[test]
fn search_text_never_enters_sql() {
    let mk = |s: &str| MasterDataGroupFilter { page: 1, page_size: 10, search: Some(s.into()), sort_by: "name".into(), sort_type: "ASC".into() };
    assert_eq!(list_groups_query(&mk("a")).sql(), list_groups_query(&mk("' OR 1=1 --")).sql());
}

#[test]
fn list_response_keeps_order() {
    let mut second = group();
    second.id = 9;
    second.code = "B".into();
    let f = MasterDataGroupFilter { page: 2, page_size: 2, search: None, sort_by: "code".into(), sort_type: "ASC".into() };
    let r = group_list_response(vec![group(), second], &f, 7);
    assert_eq!(r.items.iter().map(|g| g.id).collect::<Vec<_>>(), vec![4, 9]);
    assert_eq!((r.page, r.page_size, r.total), (2, 2, 7));
}

#[test]
fn group_service_holds_its_parts() {
    let s = DefaultMasterDataGroupService::new(1u8, 2u16, 3u32, 4u64);
    assert_eq!((s.repository, s.item_repository, s.cache, s.audit_log_service), (1, 2, 3, 4));
}

#[test]
fn group_plans_at_a_clock_reading() {
    assert_eq!(plan_create_group_at(&create_request(), true, Some(5)), Err(ServiceError::GroupCodeExists));
    assert_eq!(plan_create_group_at(&create_request(), false, None), Err(ServiceError::ClockUnavailable));
    assert_eq!(plan_create_group_at(&create_request(), false, Some(5)), Ok(make_new_group(&create_request(), 5)));
    let empty = UpdateMasterDataGroupRequest { name: None, description: None, is_hierarchical: None, is_active: None };
    assert_eq!(plan_update_group_at(group(), &empty, None), Err(ServiceError::ClockUnavailable));
    assert_eq!(plan_update_group_at(group(), &empty, Some(700)), Ok(MasterDataGroup { updated_at: 700, ..group() }));
}

#[test]
fn group_read_through_cache() {
    assert_eq!(group_read("GENDER", Some(group())), CacheRead::Hit(group()));
    assert_eq!(
        group_read("GENDER", None),
        CacheRead::Miss { key: "master_data_group:code:GENDER".into(), ttl_secs: 300 }
    );
}
