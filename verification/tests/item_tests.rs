use clean_api::audit::{AuditValue, CacheInvalidation, MetadataEntry};
use clean_api::cache::CacheRead;
use clean_api::errors::ServiceError;
use clean_api::master_data::groups::MasterDataGroup;
use clean_api::master_data::items::{
    apply_item_update, complete_create_item, complete_delete_item, complete_update_item,
    count_items_query, item_filter, item_in_group, item_list_response, list_items_query,
    list_options_query, map_item, map_option, option_list_response, options_cache_key,
    options_invalidation_prefix, plan_create_item, plan_delete_item, plan_update_item,
    plan_create_item_at, plan_update_item_at, options_read, make_new_item,
    CreateMasterDataItemRequest, DefaultMasterDataItemsService, ListMasterDataItemRequest,
    MasterDataItem, MasterDataItemFilter, UpdateMasterDataItemRequest, ITEM_COUNT_SQL,
    ITEM_LIST_SQL, OPTION_LIST_SQL,
};
use clean_api::sql::SqlValue;
use serde_json::Value;

fn group(hierarchical: bool) -> MasterDataGroup {
    MasterDataGroup {
        id: 2,
        code: "CITY".into(),
        name: "City".into(),
        description: None,
        is_hierarchical: hierarchical,
        is_active: true,
        created_at: 1,
        updated_at: 1,
    }
}

fn item() -> MasterDataItem {
    MasterDataItem {
        id: 30,
        group_id: 2,
        parent_id: None,
        code: "JKT".into(),
        name: "Jakarta".into(),
        metadata: Some(Value::String("capital".into())),
        sort_order: 4,
        is_active: true,
        created_at: 10,
        updated_at: 20,
    }
}

fn create_request(parent_id: Option<u64>) -> CreateMasterDataItemRequest {
    CreateMasterDataItemRequest {
        parent_id,
        code: "BDG".into(),
        name: "Bandung".into(),
        metadata: Some(Value::Bool(true)),
        sort_order: None,
        is_active: None,
    }
}

fn empty_update() -> UpdateMasterDataItemRequest {
    UpdateMasterDataItemRequest { parent_id: None, name: None, metadata: None, sort_order: None, is_active: None }
}

fn meta(key: &str, value: AuditValue) -> MetadataEntry {
    MetadataEntry { key: key.into(), value }
}

#[test]
fn item_request_rules() {
    assert_eq!(CreateMasterDataItemRequest::required_fields(), vec!["code", "name"]);
    assert!(create_request(None).validate().is_ok());
    let mut bad = create_request(None);
    bad.code = "c".repeat(101);
    let v = bad.validate().unwrap_err();
    assert_eq!(v.len(), 1);
    assert_eq!(v[0].field, "code");
    assert_eq!(v[0].message.as_deref(), Some("Code must be between 1 and 100 characters"));
    assert!(UpdateMasterDataItemRequest::required_fields().is_empty());
    let bad = UpdateMasterDataItemRequest { name: Some("n".repeat(256)), ..empty_update() };
    assert_eq!(bad.validate().unwrap_err()[0].message.as_deref(), Some("Name must be between 1 and 255 characters"));
    assert!(empty_update().validate().is_ok());
}

#[test]
fn creation_checks_code_then_hierarchy() {
    assert_eq!(plan_create_item(&group(false), &create_request(Some(1)), true), Err(ServiceError::ItemCodeExists));
    assert_eq!(
        plan_create_item(&group(false), &create_request(Some(1)), false),
        Err(ServiceError::GroupNotHierarchical { code: "CITY".into() })
    );
    let i = plan_create_item(&group(true), &create_request(Some(1)), false).unwrap();
    assert_eq!(i.parent_id, Some(1));
    assert_eq!(i.group_id, 2);
    assert_eq!(i.id, 0);
    assert_eq!(i.sort_order, 0);
    assert!(i.is_active);
    assert_eq!(i.metadata, Some(Value::Bool(true)));
    assert_eq!(i.created_at, i.updated_at);
    let flat = plan_create_item(&group(false), &create_request(None), false).unwrap();
    assert_eq!(flat.parent_id, None);
}

#[test]
fn items_of_other_groups_are_not_found() {
    let mut other = item();
    other.group_id = 99;
    assert_eq!(item_in_group(&group(true), Some(other.clone())), Err(ServiceError::ItemNotFound));
    assert_eq!(item_in_group(&group(true), None), Err(ServiceError::ItemNotFound));
    assert_eq!(item_in_group(&group(true), Some(item())), Ok(item()));
    assert_eq!(plan_update_item(&group(true), Some(other), &empty_update()), Err(ServiceError::ItemNotFound));
}

#[test]
fn update_replaces_parent_and_given_fields() {
    let mut with_parent = item();
    with_parent.parent_id = Some(8);
    let req = UpdateMasterDataItemRequest { name: Some("DKI".into()), ..empty_update() };
    let u = apply_item_update(with_parent, &req, 77);
    assert_eq!(u.parent_id, None);
    assert_eq!(u.name, "DKI");
    assert_eq!(u.metadata, Some(Value::String("capital".into())));
    assert_eq!(u.sort_order, 4);
    assert_eq!((u.created_at, u.updated_at), (10, 77));
    assert_eq!(apply_item_update(u.clone(), &req, 77), u);
    let flat = plan_update_item(&group(false), Some(item()), &UpdateMasterDataItemRequest { parent_id: Some(3), ..empty_update() });
    assert_eq!(flat, Err(ServiceError::GroupNotHierarchical { code: "CITY".into() }));
    let ok = plan_update_item(&group(false), Some(item()), &UpdateMasterDataItemRequest { sort_order: Some(9), ..empty_update() }).unwrap();
    assert_eq!(ok.sort_order, 9);
}

#[test]
fn deletion_refused_while_children_remain() {
    assert_eq!(
        plan_delete_item(&item(), 5),
        Err(ServiceError::ItemHasChildren { code: "JKT".into(), child_count: 5 })
    );
    assert_eq!(plan_delete_item(&item(), 0), Ok(30));
}

#[test]
fn responses_and_options() {
    let r = map_item(item());
    assert_eq!((r.id, r.group_id, r.code.as_str(), r.sort_order), (30, 2, "JKT", 4));
    let o = map_option(item());
    assert_eq!((o.id, o.code.as_str(), o.name.as_str(), o.parent_id), (30, "JKT", "Jakarta", None));
    let mut second = item();
    second.id = 31;
    let list = option_list_response(vec![item(), second.clone()]);
    assert_eq!(list.items.iter().map(|o| o.id).collect::<Vec<_>>(), vec![30, 31]);
    let f = item_filter(&group(true), ListMasterDataItemRequest { parent_id: None, only_root: None, search: None, is_active: None, page: None, page_size: None, sort_by: None, sort_type: None });
    let page = item_list_response(vec![second, item()], &f, 2);
    assert_eq!(page.items.iter().map(|o| o.id).collect::<Vec<_>>(), vec![31, 30]);
    assert_eq!((page.page, page.page_size, page.total), (1, 10, 2));
}

#[test]
fn option_cache_keys() {
    assert_eq!(options_cache_key("CITY", None, false), "master_data:options:CITY:none:false");
    assert_eq!(options_cache_key("CITY", Some(12), true), "master_data:options:CITY:12:true");
    let prefix = options_invalidation_prefix("CITY");
    assert_eq!(prefix, "master_data:options:CITY:");
    assert!(options_cache_key("CITY", Some(0), false).starts_with(&prefix));
}

#[test]
fn item_filter_defaults() {
    let f = item_filter(&group(true), ListMasterDataItemRequest { parent_id: Some(3), only_root: None, search: None, is_active: Some(true), page: None, page_size: None, sort_by: None, sort_type: None });
    assert_eq!(
        f,
        MasterDataItemFilter {
            group_id: 2,
            parent_id: Some(3),
            only_root: false,
            search: None,
            is_active: Some(true),
            page: 1,
            page_size: 10,
            sort_by: "sort_order".into(),
            sort_type: "ASC".into(),
        }
    );
}

fn filter() -> MasterDataItemFilter {
    MasterDataItemFilter {
        group_id: 2,
        parent_id: Some(3),
        only_root: false,
        search: Some("ja".into()),
        is_active: Some(false),
        page: 2,
        page_size: 25,
        sort_by: "sort_order".into(),
        sort_type: "ASC".into(),
    }
}

#[test]
fn list_query_with_every_condition() {
    let q = list_items_query(&filter());
    assert_eq!(
        q.sql(),
        format!("{ITEM_LIST_SQL}? AND parent_id = ? AND is_active = ? AND (code LIKE ? OR name LIKE ?) ORDER BY sort_order ASC LIMIT ? OFFSET ?")
    );
    assert_eq!(
        q.binds(),
        &vec![
            SqlValue::U64(2),
            SqlValue::U64(3),
            SqlValue::Bool(false),
            SqlValue::Text("%ja%".into()),
            SqlValue::Text("%ja%".into()),
            SqlValue::I64(25),
            SqlValue::I64(25),
        ]
    );
    let c = count_items_query(&filter());
    assert_eq!(c.sql(), format!("{ITEM_COUNT_SQL}? AND parent_id = ? AND is_active = ? AND (code LIKE ? OR name LIKE ?)"));
    assert_eq!(c.binds(), &q.binds()[..5].to_vec());
}

#[test]
fn top_level_takes_precedence_over_parent() {
    let mut f = filter();
    f.only_root = true;
    f.search = None;
    f.is_active = None;
    f.sort_by = "weird".into();
    f.sort_type = "desc".into();
    let q = list_items_query(&f);
    assert_eq!(q.sql(), format!("{ITEM_LIST_SQL}? AND parent_id IS NULL ORDER BY created_at DESC LIMIT ? OFFSET ?"));
    assert_eq!(q.binds(), &vec![SqlValue::U64(2), SqlValue::I64(25), SqlValue::I64(25)]);
}

#[test]
fn option_queries() {
    let q = list_options_query(2, Some(7), false);
    assert_eq!(q.sql(), format!("{OPTION_LIST_SQL}? AND parent_id = ? ORDER BY sort_order ASC, name ASC"));
    assert_eq!(q.binds(), &vec![SqlValue::U64(2), SqlValue::U64(7)]);
    let root = list_options_query(2, Some(7), true);
    assert_eq!(root.sql(), format!("{OPTION_LIST_SQL}? AND parent_id IS NULL ORDER BY sort_order ASC, name ASC"));
    assert_eq!(root.binds(), &vec![SqlValue::U64(2)]);
    let all = list_options_query(2, None, false);
    assert_eq!(all.sql(), format!("{OPTION_LIST_SQL}? ORDER BY sort_order ASC, name ASC"));
}

#[test]
fn audits_and_option_invalidation() {
    let created = complete_create_item("CITY", &create_request(None), &Ok(41), Some(1), None, None);
    assert_eq!(created.invalidate, CacheInvalidation::Prefix("master_data:options:CITY:".into()));
    assert_eq!(created.audit.action, "master_data_item.created");
    assert_eq!(created.audit.entity_type.as_deref(), Some("master_data_item"));
    assert_eq!(created.audit.entity_id.as_deref(), Some("41"));
    assert_eq!(
        created.audit.metadata,
        Some(vec![
            meta("group_code", AuditValue::Text("CITY".into())),
            meta("code", AuditValue::Text("BDG".into())),
            meta("name", AuditValue::Text("Bandung".into())),
            meta("error", AuditValue::Null),
        ])
    );
    let failed = complete_create_item("CITY", &create_request(None), &Err(ServiceError::ItemCodeExists), None, None, None);
    assert_eq!(failed.invalidate, CacheInvalidation::Nothing);
    assert_eq!(failed.audit.entity_id, None);

    let req = UpdateMasterDataItemRequest { is_active: Some(false), ..empty_update() };
    let updated = complete_update_item("CITY", 30, &req, &Ok(()), None, None, None);
    assert_eq!(updated.audit.entity_id.as_deref(), Some("30"));
    assert_eq!(
        updated.audit.metadata,
        Some(vec![
            meta("group_code", AuditValue::Text("CITY".into())),
            meta("name", AuditValue::Null),
            meta("is_active", AuditValue::Bool(false)),
            meta("error", AuditValue::Null),
        ])
    );
    let deleted = complete_delete_item("CITY", 30, &Ok(()), None, None, None);
    assert_eq!(deleted.audit.metadata, None);
    assert_eq!(deleted.audit.action, "master_data_item.deleted");
    let refused = complete_delete_item("CITY", 30, &Err(ServiceError::ItemNotFound), None, None, None);
    assert_eq!(refused.invalidate, CacheInvalidation::Nothing);
    assert_eq!(
        refused.audit.metadata,
        Some(vec![
            meta("group_code", AuditValue::Text("CITY".into())),
            meta("error", AuditValue::Text("Item not found in this group".into())),
        ])
    );
}

#[test]
fn item_service_holds_its_parts() {
    let s = DefaultMasterDataItemsService::new("r", "g", "c", "a");
    assert_eq!((s.repository, s.repository_group, s.cache, s.audit_log_service), ("r", "g", "c", "a"));
}

#[test]
fn option_invalidation_never_drops_group_entries() {
    let prefix = options_invalidation_prefix("master_data_group");
    let key = clean_api::master_data::groups::group_cache_key("master_data_group");
    assert!(!key.starts_with(&prefix));
}

#[test]
fn item_search_text_never_enters_sql() {
    let mut a = filter();
    let mut b = filter();
    a.search = Some("x".into());
    b.search = Some("') OR 1=1 --".into());
    assert_eq!(list_items_query(&a).sql(), list_items_query(&b).sql());
    assert_eq!(count_items_query(&a).sql(), count_items_query(&b).sql());
}

#[test]
fn item_plans_at_a_clock_reading() {
    assert_eq!(plan_create_item_at(&group(true), &create_request(Some(1)), true, None), Err(ServiceError::ItemCodeExists));
    assert_eq!(
        plan_create_item_at(&group(false), &create_request(Some(1)), false, None),
        Err(ServiceError::GroupNotHierarchical { code: group(false).code })
    );
    assert_eq!(plan_create_item_at(&group(true), &create_request(Some(1)), false, None), Err(ServiceError::ClockUnavailable));
    assert_eq!(
        plan_create_item_at(&group(true), &create_request(Some(1)), false, Some(42)),
        Ok(make_new_item(&group(true), &create_request(Some(1)), 42))
    );
    assert_eq!(plan_update_item_at(&group(true), None, &empty_update(), Some(1)), Err(ServiceError::ItemNotFound));
    assert_eq!(plan_update_item_at(&group(true), Some(item()), &empty_update(), None), Err(ServiceError::ClockUnavailable));
    let u = plan_update_item_at(&group(true), Some(item()), &empty_update(), Some(77)).unwrap();
    assert_eq!((u.id, u.updated_at, u.created_at), (30, 77, 10));
}

#[test]
fn options_read_through_cache() {
    let cached = option_list_response(vec![]);
    assert_eq!(options_read("CITY", Some(3), false, Some(cached.clone())), CacheRead::Hit(cached));
    assert_eq!(
        options_read("CITY", None, true, None),
        CacheRead::Miss { key: "master_data:options:CITY:none:true".into(), ttl_secs: 180 }
    );
}
