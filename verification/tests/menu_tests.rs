use clean_api::audit::{AuditValue, CacheInvalidation, MetadataEntry};
use clean_api::errors::ServiceError;
use clean_api::menus::{
    apply_menu_update, complete_create_menu, complete_delete_menu, complete_update_menu,
    count_menus_query, find_menu_response, found_menu, list_menus_query, make_new_menu,
    map_response, menu_filter, menu_list_response, plan_create_menu, plan_update_menu,
    plan_create_menu_at, plan_update_menu_at,
    CreateMenuRequest, DefaultMenuService, GetMenuRequest, ListMenuRequest, Menu, MenuFilter,
    UpdateMenuRequest, MENU_COUNT_SQL, MENU_LIST_SQL,
};
use clean_api::sql::SqlValue;

fn menu() -> Menu {
    Menu {
        id: 5,
        parent_id: Some(1),
        name: "Users".into(),
        icon: Some("user".into()),
        path: "/users".into(),
        sort_order: 3,
        is_active: true,
        created_at: 11,
        updated_at: 12,
    }
}

fn create_request() -> CreateMenuRequest {
    CreateMenuRequest { parent_id: None, name: "Roles".into(), icon: None, path: "/roles".into(), sort_order: None, is_active: None }
}

fn empty_update() -> UpdateMenuRequest {
    UpdateMenuRequest { parent_id: None, name: None, icon: None, path: None, sort_order: None, is_active: None }
}

#[test]
fn menu_request_rules() {
    assert_eq!(CreateMenuRequest::required_fields(), vec!["name", "path"]);
    assert!(UpdateMenuRequest::required_fields().is_empty());
    assert!(create_request().validate().is_ok());
    let bad = CreateMenuRequest { name: "ab".into(), icon: Some("x".into()), path: "/".into(), ..create_request() };
    let v = bad.validate().unwrap_err();
    assert_eq!(v.iter().map(|x| x.field.as_str()).collect::<Vec<_>>(), vec!["name", "icon", "path"]);
    assert!(v.iter().all(|x| x.message.is_none()));
    let bad_update = UpdateMenuRequest { path: Some("p".repeat(51)), ..empty_update() };
    assert_eq!(bad_update.validate().unwrap_err()[0].field, "path");
    assert!(empty_update().validate().is_ok());
}

#[test]
fn creation_refused_when_name_taken() {
    assert_eq!(plan_create_menu(&create_request(), true), Err(ServiceError::MenuNameExists));
    let m = plan_create_menu(&create_request(), false).unwrap();
    assert_eq!((m.id, m.name.as_str(), m.path.as_str(), m.sort_order, m.is_active), (0, "Roles", "/roles", 0, true));
    assert_eq!(m.created_at, m.updated_at);
    let fixed = make_new_menu(&CreateMenuRequest { sort_order: Some(2), is_active: Some(false), ..create_request() }, 9);
    assert_eq!((fixed.sort_order, fixed.is_active, fixed.created_at), (2, false, 9));
}

#[test]
fn update_overwrites_parent_icon_and_sort_order() {
    let u = apply_menu_update(menu(), &UpdateMenuRequest { name: Some("People".into()), ..empty_update() }, 50);
    assert_eq!(u.name, "People");
    assert_eq!(u.parent_id, None);
    assert_eq!(u.icon, None);
    assert_eq!(u.path, "/users");
    assert_eq!(u.sort_order, 0);
    assert!(u.is_active);
    assert_eq!((u.created_at, u.updated_at), (11, 50));
    assert_eq!(plan_update_menu(None, &empty_update()), Err(ServiceError::MenuNotFound));
    let stamped = plan_update_menu(Some(menu()), &UpdateMenuRequest { sort_order: Some(3), parent_id: Some(1), icon: Some("user".into()), ..empty_update() }).unwrap();
    assert_eq!(stamped, Menu { updated_at: stamped.updated_at, ..menu() });
}

#[test]
fn lookups_and_responses() {
    assert_eq!(found_menu(None), Err(ServiceError::MenuNotFound));
    let r = find_menu_response(Some(menu())).unwrap();
    assert_eq!((r.id, r.name.as_str(), r.path.as_str(), r.created_at), (5, "Users", "/users", 11));
    assert_eq!(find_menu_response(None).unwrap_err().message(), "Menu not found");
    let direct = map_response(menu());
    assert_eq!(direct, r);
    assert_eq!(GetMenuRequest { id: 4 }.id, 4);
}

#[test]
fn menu_filter_defaults() {
    let f = menu_filter(ListMenuRequest { page: None, page_size: None, search: None, sort_by: None, sort_type: None });
    assert_eq!(f, MenuFilter { page: 1, page_size: 10, search: None, sort_by: "created_at".into(), sort_type: "DESC".into() });
}

#[test]
fn list_query_orders_and_pages() {
    let f = MenuFilter { page: 2, page_size: 10, search: None, sort_by: "name".into(), sort_type: "asc".into() };
    let q = list_menus_query(&f);
    assert_eq!(q.sql(), format!("{MENU_LIST_SQL} ORDER BY name ASC LIMIT ? OFFSET ?"));
    assert_eq!(q.binds(), &vec![SqlValue::I64(10), SqlValue::I64(10)]);
    let other = MenuFilter { sort_by: "path".into(), ..f };
    assert_eq!(list_menus_query(&other).sql(), format!("{MENU_LIST_SQL} ORDER BY id ASC LIMIT ? OFFSET ?"));
}

#[test]
fn search_condition_matches_name_or_path() {
    let f = MenuFilter { page: 1, page_size: 10, search: Some("us".into()), sort_by: "id".into(), sort_type: "DESC".into() };
    let q = list_menus_query(&f);
    assert_eq!(q.sql(), format!("{MENU_LIST_SQL} AND (name LIKE ? OR path LIKE ?) ORDER BY id DESC LIMIT ? OFFSET ?"));
    let c = count_menus_query(&f);
    assert_eq!(c.sql(), format!("{MENU_COUNT_SQL} AND (name LIKE ? OR path LIKE ?)"));
    assert_eq!(c.binds(), &vec![SqlValue::Text("%us%".into()), SqlValue::Text("%us%".into())]);
}

#[test]
fn menu_page_response() {
    let mut second = menu();
    second.id = 6;
    let f = MenuFilter { page: 1, page_size: 10, search: None, sort_by: "id".into(), sort_type: "DESC".into() };
    let r = menu_list_response(vec![second, menu()], &f, 2);
    assert_eq!(r.items.iter().map(|m| m.id).collect::<Vec<_>>(), vec![6, 5]);
    assert_eq!(r.total, 2);
}

#[test]
fn menu_audits() {
    let c = complete_create_menu(&create_request(), &Ok(8), Some(1), None, None);
    assert_eq!(c.invalidate, CacheInvalidation::Nothing);
    assert_eq!(c.audit.action, "menu.created");
    assert_eq!(c.audit.entity_type.as_deref(), Some("menu"));
    assert_eq!(c.audit.entity_id.as_deref(), Some("8"));
    assert_eq!(
        c.audit.metadata,
        Some(vec![
            MetadataEntry { key: "name".into(), value: AuditValue::Text("Roles".into()) },
            MetadataEntry { key: "error".into(), value: AuditValue::Null },
        ])
    );
    let u = complete_update_menu(5, &UpdateMenuRequest { is_active: Some(true), ..empty_update() }, &Err(ServiceError::MenuNotFound), None, None, None);
    assert!(!u.audit.is_success);
    assert_eq!(u.audit.entity_id.as_deref(), Some("5"));
    assert_eq!(
        u.audit.metadata,
        Some(vec![
            MetadataEntry { key: "name".into(), value: AuditValue::Null },
            MetadataEntry { key: "is_active".into(), value: AuditValue::Bool(true) },
            MetadataEntry { key: "error".into(), value: AuditValue::Text("Menu not found".into()) },
        ])
    );
    let d = complete_delete_menu(5, &Ok(()), None, None, None);
    assert_eq!(d.audit.action, "menu.deleted");
    assert_eq!(d.audit.metadata, None);
}

#[test]
fn menu_service_holds_its_parts() {
    let s = DefaultMenuService::new(7u8, 8u8);
    assert_eq!((s.repository, s.audit_log_service), (7, 8));
}

#[test]
fn menu_update_applied_twice_is_applied_once() {
    let req = UpdateMenuRequest { path: Some("/people".into()), is_active: Some(false), ..empty_update() };
    let once = apply_menu_update(menu(), &req, 70);
    assert_eq!(apply_menu_update(once.clone(), &req, 70), once);
}

#[test]
fn menu_search_text_never_enters_sql() {
    let mk = |s: &str| MenuFilter { page: 1, page_size: 10, search: Some(s.into()), sort_by: "name".into(), sort_type: "ASC".into() };
    assert_eq!(list_menus_query(&mk("a")).sql(), list_menus_query(&mk("b'; --")).sql());
}

#[test]
fn menu_plans_at_a_clock_reading() {
    assert_eq!(plan_create_menu_at(&create_request(), true, Some(1)), Err(ServiceError::MenuNameExists));
    assert_eq!(plan_create_menu_at(&create_request(), false, None), Err(ServiceError::ClockUnavailable));
    assert_eq!(plan_create_menu_at(&create_request(), false, Some(9)), Ok(make_new_menu(&create_request(), 9)));
    assert_eq!(plan_update_menu_at(None, &empty_update(), Some(9)), Err(ServiceError::MenuNotFound));
    assert_eq!(plan_update_menu_at(Some(menu()), &empty_update(), None), Err(ServiceError::ClockUnavailable));
    assert_eq!(plan_update_menu_at(Some(menu()), &empty_update(), Some(60)), Ok(apply_menu_update(menu(), &empty_update(), 60)));
}
