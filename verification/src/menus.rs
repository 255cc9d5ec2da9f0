//! Navigation menus: validation of requests, the decisions of the menu
//! service, the list and count queries, and audit records.
use vstd::prelude::*;
use crate::audit::{
    WriteCompletion, CacheInvalidation, Invalidation, MetaValue, AuditRecord, audit_record,
    make_record, entry, metadata1, metadata2, metadata3, error_value, error_meta, opt_text_value,
    opt_text_meta, opt_bool_value, opt_bool_meta, AuditValue,
};
use crate::clock::now_micros;
use crate::errors::{ServiceError, error_text};
use crate::sql::{
    SqlQuery, SqlValue, SqlArg, no_placeholder, like_pattern, make_like_pattern, sort_direction,
    choose_sort_direction, active_search, search_is_active, page_args, order_page_text,
    page_in_range, push_order_and_page,
};
use crate::text::{copy_string, copy_opt_string, opt_text, str_eq, u64_to_decimal, decimal};
use crate::validation::{
    FieldViolation, Violation, violations_of, length_rule, opt_length_rule, check_text_length,
    check_opt_text_length, into_result,
};

verus! {

/// Audit action of a menu creation.
pub const MENU_CREATED: &'static str = "menu.created";

/// Audit action of a menu update.
pub const MENU_UPDATED: &'static str = "menu.updated";

/// Audit action of a menu deletion.
pub const MENU_DELETED: &'static str = "menu.deleted";

/// The audit entity type of menus.
pub const MENU_ENTITY: &'static str = "menu";

/// A stored menu entry.  Times are microseconds since the Unix epoch, UTC.
#[derive(Debug, Clone, PartialEq)]
pub struct Menu {
    pub id: u64,
    pub parent_id: Option<u64>,
    pub name: String,
    pub icon: Option<String>,
    pub path: String,
    pub sort_order: i32,
    pub is_active: bool,
    pub created_at: i64,
    pub updated_at: i64,
}

/// The mathematical form of a menu entry.
pub struct MenuView {
    pub id: u64,
    pub parent_id: Option<u64>,
    pub name: Seq<char>,
    pub icon: Option<Seq<char>>,
    pub path: Seq<char>,
    pub sort_order: i32,
    pub is_active: bool,
    pub created_at: i64,
    pub updated_at: i64,
}

impl View for Menu {
    type V = MenuView;

    open spec fn view(&self) -> MenuView {
        MenuView {
            id: self.id,
            parent_id: self.parent_id,
            name: self.name@,
            icon: opt_text(self.icon),
            path: self.path@,
            sort_order: self.sort_order,
            is_active: self.is_active,
            created_at: self.created_at,
            updated_at: self.updated_at,
        }
    }
}

/// A menu entry as returned to clients.
#[derive(Debug, Clone, PartialEq)]
pub struct MenuResponse {
    pub id: u64,
    pub parent_id: Option<u64>,
    pub name: String,
    pub icon: Option<String>,
    pub path: String,
    pub sort_order: i32,
    pub is_active: bool,
    pub created_at: i64,
}

/// One page of menu entries.
#[derive(Debug, Clone, PartialEq)]
pub struct MenuListResponse {
    pub items: Vec<MenuResponse>,
    pub page: u64,
    pub page_size: u64,
    pub total: u64,
}

/// A request to create a menu entry.
#[derive(Debug, Clone, PartialEq)]
pub struct CreateMenuRequest {
    pub parent_id: Option<u64>,
    pub name: String,
    pub icon: Option<String>,
    pub path: String,
    pub sort_order: Option<i32>,
    pub is_active: Option<bool>,
}

/// A request to change a menu entry.  Parent and icon are always replaced by
/// the ones given (none when absent) and an absent sort order resets it to
/// 0; absent name, path and activity keep their value.
#[derive(Debug, Clone, PartialEq)]
pub struct UpdateMenuRequest {
    pub parent_id: Option<u64>,
    pub name: Option<String>,
    pub icon: Option<String>,
    pub path: Option<String>,
    pub sort_order: Option<i32>,
    pub is_active: Option<bool>,
}

/// A request for one menu entry.
#[derive(Debug, Clone, PartialEq)]
pub struct GetMenuRequest {
    pub id: u64,
}

/// A request for one page of menu entries.
#[derive(Debug, Clone, PartialEq)]
pub struct ListMenuRequest {
    pub page: Option<u64>,
    pub page_size: Option<u64>,
    pub search: Option<String>,
    pub sort_by: Option<String>,
    pub sort_type: Option<String>,
}

/// The selection of a menu list.
#[derive(Debug, Clone, PartialEq)]
pub struct MenuFilter {
    pub page: u64,
    pub page_size: u64,
    pub search: Option<String>,
    pub sort_by: String,
    pub sort_type: String,
}


/// The menu service over a menu store and an audit log.
pub struct DefaultMenuService<R, A> {
    pub repository: R,
    pub audit_log_service: A,
}

impl<R, A> DefaultMenuService<R, A> {
    /// A service over `repository` that records to `audit_log_service`.
    pub fn new(repository: R, audit_log_service: A) -> (s: Self)
        ensures
            s.repository == repository,
            s.audit_log_service == audit_log_service,
    {
        DefaultMenuService { repository, audit_log_service }
    }
}

/// The length rules of a menu creation, in field order; no message is
/// configured.
pub open spec fn create_menu_violations(r: CreateMenuRequest) -> Seq<Violation> {
    length_rule("name"@, r.name@.len(), 3, 50, None) + opt_length_rule(
        "icon"@,
        opt_text(r.icon),
        3,
        100,
        None,
    ) + length_rule("path"@, r.path@.len(), 3, 50, None)
}

/// The length rules of a menu update, in field order.
pub open spec fn update_menu_violations(r: UpdateMenuRequest) -> Seq<Violation> {
    opt_length_rule("name"@, opt_text(r.name), 3, 50, None) + opt_length_rule(
        "icon"@,
        opt_text(r.icon),
        3,
        100,
        None,
    ) + opt_length_rule("path"@, opt_text(r.path), 3, 50, None)
}

impl CreateMenuRequest {
    /// The fields that the request body must carry.
    pub fn required_fields() -> (f: Vec<&'static str>)
        ensures
            f@.len() == 2,
            f@[0]@ == "name"@,
            f@[1]@ == "path"@,
    {
        let mut f = Vec::new();
        f.push("name");
        f.push("path");
        f
    }

    /// Checks the length rules; `Err` lists every broken rule.
    pub fn validate(&self) -> (r: Result<(), Vec<FieldViolation>>)
        ensures
            r is Ok <==> create_menu_violations(*self).len() == 0,
            r matches Err(v) ==> violations_of(v@) == create_menu_violations(*self),
    {
        let mut out: Vec<FieldViolation> = Vec::new();
        assert(violations_of(out@) =~= Seq::<Violation>::empty());
        check_text_length(&mut out, "name", self.name.as_str(), 3, 50, None);
        check_opt_text_length(&mut out, "icon", &self.icon, 3, 100, None);
        check_text_length(&mut out, "path", self.path.as_str(), 3, 50, None);
        assert(violations_of(out@) =~= create_menu_violations(*self));
        into_result(out)
    }
}

impl UpdateMenuRequest {
    /// The fields that the request body must carry: none.
    pub fn required_fields() -> (f: Vec<&'static str>)
        ensures
            f@.len() == 0,
    {
        Vec::new()
    }

    /// Checks the length rules; `Err` lists every broken rule.
    pub fn validate(&self) -> (r: Result<(), Vec<FieldViolation>>)
        ensures
            r is Ok <==> update_menu_violations(*self).len() == 0,
            r matches Err(v) ==> violations_of(v@) == update_menu_violations(*self),
    {
        let mut out: Vec<FieldViolation> = Vec::new();
        assert(violations_of(out@) =~= Seq::<Violation>::empty());
        check_opt_text_length(&mut out, "name", &self.name, 3, 50, None);
        check_opt_text_length(&mut out, "icon", &self.icon, 3, 100, None);
        check_opt_text_length(&mut out, "path", &self.path, 3, 50, None);
        assert(violations_of(out@) =~= update_menu_violations(*self));
        into_result(out)
    }
}

/// The menu entry that a creation request asks for, created at `now`: not
/// yet stored (id 0), sort order 0 and active unless given.
pub open spec fn new_menu(r: CreateMenuRequest, now: i64) -> MenuView {
    MenuView {
        id: 0,
        parent_id: r.parent_id,
        name: r.name@,
        icon: opt_text(r.icon),
        path: r.path@,
        sort_order: match r.sort_order {
            Some(s) => s,
            None => 0,
        },
        is_active: match r.is_active {
            Some(b) => b,
            None => true,
        },
        created_at: now,
        updated_at: now,
    }
}

/// The menu entry that a creation request asks for, created at `now`.
pub fn make_new_menu(request: &CreateMenuRequest, now: i64) -> (m: Menu)
    ensures
        m@ == new_menu(*request, now),
{
    Menu {
        id: 0,
        parent_id: request.parent_id,
        name: copy_string(&request.name),
        icon: copy_opt_string(&request.icon),
        path: copy_string(&request.path),
        sort_order: match request.sort_order {
            Some(s) => s,
            None => 0,
        },
        is_active: match request.is_active {
            Some(b) => b,
            None => true,
        },
        created_at: now,
        updated_at: now,
    }
}

/// Decides a menu creation from whether the store holds the name already
/// and the clock reading `now`: a taken name is refused, then a missing
/// reading; otherwise the entry to insert, stamped with `now`.
pub fn plan_create_menu_at(request: &CreateMenuRequest, name_exists: bool, now: Option<i64>) -> (r:
    Result<Menu, ServiceError>)
    ensures
        name_exists ==> r == Err::<Menu, ServiceError>(ServiceError::MenuNameExists),
        !name_exists && now is None ==> r == Err::<Menu, ServiceError>(
            ServiceError::ClockUnavailable,
        ),
        !name_exists && now is Some ==> (r matches Ok(m) && m@ == new_menu(*request, now->0)),
{
    if name_exists {
        return Err(ServiceError::MenuNameExists);
    }
    match now {
        Some(t) => Ok(make_new_menu(request, t)),
        None => Err(ServiceError::ClockUnavailable),
    }
}

/// Decides a menu creation once the store has said whether the name is
/// taken, at the current time: what `plan_create_menu_at` decides for the
/// clock's reading.
pub fn plan_create_menu(request: &CreateMenuRequest, name_exists: bool) -> (r: Result<Menu, ServiceError>)
    ensures
        name_exists ==> r == Err::<Menu, ServiceError>(ServiceError::MenuNameExists),
        !name_exists ==> (r is Ok || r == Err::<Menu, ServiceError>(
            ServiceError::ClockUnavailable,
        )),
        r matches Ok(m) ==> m@ == new_menu(*request, m.created_at) && m.created_at >= 0,
{
    plan_create_menu_at(request, name_exists, now_micros())
}

/// The menu entry that a lookup found, or `MenuNotFound`.
pub fn found_menu(found: Option<Menu>) -> (r: Result<Menu, ServiceError>)
    ensures
        match found {
            Some(m) => r == Ok::<Menu, ServiceError>(m),
            None => r == Err::<Menu, ServiceError>(ServiceError::MenuNotFound),
        },
{
    match found {
        Some(m) => Ok(m),
        None => Err(ServiceError::MenuNotFound),
    }
}

/// `m` changed by an update request at `now`.
pub open spec fn updated_menu(m: MenuView, r: UpdateMenuRequest, now: i64) -> MenuView {
    MenuView {
        id: m.id,
        parent_id: r.parent_id,
        name: match r.name {
            Some(n) => n@,
            None => m.name,
        },
        icon: opt_text(r.icon),
        path: match r.path {
            Some(p) => p@,
            None => m.path,
        },
        sort_order: match r.sort_order {
            Some(s) => s,
            None => 0,
        },
        is_active: match r.is_active {
            Some(b) => b,
            None => m.is_active,
        },
        created_at: m.created_at,
        updated_at: now,
    }
}

/// Applies an update request to a menu entry at `now`.
pub fn apply_menu_update(menu: Menu, request: &UpdateMenuRequest, now: i64) -> (r: Menu)
    ensures
        r@ == updated_menu(menu@, *request, now),
{
    let Menu { id, parent_id: _, name, icon: _, path, sort_order: _, is_active, created_at, updated_at: _ } = menu;
    Menu {
        id,
        parent_id: request.parent_id,
        name: match &request.name {
            Some(n) => copy_string(n),
            None => name,
        },
        icon: copy_opt_string(&request.icon),
        path: match &request.path {
            Some(p) => copy_string(p),
            None => path,
        },
        sort_order: match request.sort_order {
            Some(s) => s,
            None => 0,
        },
        is_active: match request.is_active {
            Some(b) => b,
            None => is_active,
        },
        created_at,
        updated_at: now,
    }
}

/// Decides a menu update once the entry has been looked up, at the clock
/// reading `now`: a missing entry is refused, then a missing reading;
/// otherwise the entry to store, stamped with `now`.
pub fn plan_update_menu_at(found: Option<Menu>, request: &UpdateMenuRequest, now: Option<i64>) -> (r:
    Result<Menu, ServiceError>)
    ensures
        match found {
            Some(m) => match now {
                Some(t) => r matches Ok(u) && u@ == updated_menu(m@, *request, t),
                None => r == Err::<Menu, ServiceError>(ServiceError::ClockUnavailable),
            },
            None => r == Err::<Menu, ServiceError>(ServiceError::MenuNotFound),
        },
{
    match found {
        Some(m) => match now {
            Some(t) => Ok(apply_menu_update(m, request, t)),
            None => Err(ServiceError::ClockUnavailable),
        },
        None => Err(ServiceError::MenuNotFound),
    }
}

/// Decides a menu update once the entry has been looked up, at the current
/// time: what `plan_update_menu_at` decides for the clock's reading.
pub fn plan_update_menu(found: Option<Menu>, request: &UpdateMenuRequest) -> (r: Result<Menu, ServiceError>)
    ensures
        match found {
            Some(m) => {
                ||| r matches Ok(u) && u@ == updated_menu(m@, *request, u.updated_at)
                    && u.updated_at >= 0
                ||| r == Err::<Menu, ServiceError>(ServiceError::ClockUnavailable)
            },
            None => r == Err::<Menu, ServiceError>(ServiceError::MenuNotFound),
        },
{
    plan_update_menu_at(found, request, now_micros())
}

/// The fields of a menu entry that clients see: all but the update time.
pub open spec fn menu_response_matches(r: MenuResponse, m: MenuView) -> bool {
    &&& r.id == m.id
    &&& r.parent_id == m.parent_id
    &&& r.name@ == m.name
    &&& opt_text(r.icon) == m.icon
    &&& r.path@ == m.path
    &&& r.sort_order == m.sort_order
    &&& r.is_active == m.is_active
    &&& r.created_at == m.created_at
}

/// A menu entry as returned to clients.
pub fn map_response(menu: Menu) -> (r: MenuResponse)
    ensures
        menu_response_matches(r, menu@),
{
    MenuResponse {
        id: menu.id,
        parent_id: menu.parent_id,
        name: menu.name,
        icon: menu.icon,
        path: menu.path,
        sort_order: menu.sort_order,
        is_active: menu.is_active,
        created_at: menu.created_at,
    }
}

/// The menu entry that a lookup found, as returned to clients, or
/// `MenuNotFound`.
pub fn find_menu_response(found: Option<Menu>) -> (r: Result<MenuResponse, ServiceError>)
    ensures
        match found {
            Some(m) => r matches Ok(resp) && menu_response_matches(resp, m@),
            None => r == Err::<MenuResponse, ServiceError>(ServiceError::MenuNotFound),
        },
{
    match found_menu(found) {
        Ok(m) => Ok(map_response(m)),
        Err(e) => Err(e),
    }
}

/// The filter that a list request asks for: page 1 and 10 rows unless given,
/// newest first unless a sort is given.
pub fn menu_filter(request: ListMenuRequest) -> (f: MenuFilter)
    ensures
        f.page == (match request.page {
            Some(p) => p,
            None => 1,
        }),
        f.page_size == (match request.page_size {
            Some(p) => p,
            None => 10,
        }),
        opt_text(f.search) == opt_text(request.search),
        f.sort_by@ == (match request.sort_by {
            Some(s) => s@,
            None => "created_at"@,
        }),
        f.sort_type@ == (match request.sort_type {
            Some(s) => s@,
            None => "DESC"@,
        }),
{
    let ListMenuRequest { page, page_size, search, sort_by, sort_type } = request;
    MenuFilter {
        page: match page {
            Some(p) => p,
            None => 1,
        },
        page_size: match page_size {
            Some(p) => p,
            None => 10,
        },
        search,
        sort_by: match sort_by {
            Some(s) => s,
            None => String::from_str("created_at"),
        },
        sort_type: match sort_type {
            Some(s) => s,
            None => String::from_str("DESC"),
        },
    }
}

/// The menu list query before its conditions.
pub const MENU_LIST_SQL: &'static str = "\n        SELECT\n            id,\n            parent_id,\n            name,\n            icon,\n            path,\n            sort_order,\n            is_active,\n            created_at,\n            updated_at\n        FROM menus\n        WHERE 1 = 1\n        ";

/// The menu count query before its conditions.
pub const MENU_COUNT_SQL: &'static str = "SELECT COUNT(*) FROM menus WHERE 1 = 1";

/// The search condition on menus: the name or the path contains the text,
/// ` AND (name LIKE ? OR path LIKE ?)`.
pub open spec fn menu_search_text(search: Option<Seq<char>>) -> Seq<char> {
    if active_search(search) {
        " AND (name LIKE "@ + seq!['?'] + " OR path LIKE "@ + seq!['?'] + ")"@
    } else {
        Seq::empty()
    }
}

/// The values bound by the search condition on menus.
pub open spec fn menu_search_args(search: Option<Seq<char>>) -> Seq<SqlArg> {
    match search {
        Some(s) => if active_search(search) {
            seq![SqlArg::Text(like_pattern(s)), SqlArg::Text(like_pattern(s))]
        } else {
            Seq::empty()
        },
        None => Seq::empty(),
    }
}

fn push_menu_search(q: &mut SqlQuery, search: &Option<String>)
    ensures
        final(q).text() == old(q).text() + menu_search_text(opt_text(*search)),
        final(q).args() == old(q).args() + menu_search_args(opt_text(*search)),
        old(q).well_formed() ==> final(q).well_formed(),
{
    let ghost t0 = q.text();
    let ghost a0 = q.args();
    if search_is_active(search) {
        proof {
            reveal_strlit(" AND (name LIKE ");
            reveal_strlit(" OR path LIKE ");
            reveal_strlit(")");
        }
        match search {
            Some(s) => {
                q.push(" AND (name LIKE ");
                q.push_bind(SqlValue::Text(make_like_pattern(s.as_str())));
                q.push(" OR path LIKE ");
                q.push_bind(SqlValue::Text(make_like_pattern(s.as_str())));
                q.push(")");
            },
            None => {},
        }
    }
    assert(q.text() =~= t0 + menu_search_text(opt_text(*search)));
    assert(q.args() =~= a0 + menu_search_args(opt_text(*search)));
}

/// The column that a menu list is sorted by: `name` or `created_at` when
/// asked for exactly, the id otherwise.
pub open spec fn menu_sort_column(sort_by: Seq<char>) -> Seq<char> {
    if sort_by == "name"@ {
        "name"@
    } else if sort_by == "created_at"@ {
        "created_at"@
    } else {
        "id"@
    }
}

fn choose_menu_sort_column(sort_by: &str) -> (c: &'static str)
    ensures
        c@ == menu_sort_column(sort_by@),
        no_placeholder(c@),
{
    proof {
        reveal_strlit("name");
        reveal_strlit("created_at");
        reveal_strlit("id");
    }
    if str_eq(sort_by, "name") {
        "name"
    } else if str_eq(sort_by, "created_at") {
        "created_at"
    } else {
        "id"
    }
}

/// The text of the query for one page of menu entries.
pub open spec fn list_menus_text(f: MenuFilter) -> Seq<char> {
    MENU_LIST_SQL@ + menu_search_text(opt_text(f.search)) + order_page_text(
        menu_sort_column(f.sort_by@),
        sort_direction(f.sort_type@),
    )
}

/// The values bound by the query for one page of menu entries.
pub open spec fn list_menus_args(f: MenuFilter) -> Seq<SqlArg> {
    menu_search_args(opt_text(f.search)) + page_args(f.page, f.page_size)
}

/// The query for one page of menu entries.
pub fn list_menus_query(filter: &MenuFilter) -> (q: SqlQuery)
    requires
        page_in_range(filter.page, filter.page_size),
    ensures
        q.text() == list_menus_text(*filter),
        q.args() == list_menus_args(*filter),
        q.well_formed(),
{
    proof {
        reveal_strlit("\n        SELECT\n            id,\n            parent_id,\n            name,\n            icon,\n            path,\n            sort_order,\n            is_active,\n            created_at,\n            updated_at\n        FROM menus\n        WHERE 1 = 1\n        ");
    }
    let mut q = SqlQuery::new(MENU_LIST_SQL);
    push_menu_search(&mut q, &filter.search);
    let column = choose_menu_sort_column(filter.sort_by.as_str());
    let direction = choose_sort_direction(filter.sort_type.as_str());
    push_order_and_page(&mut q, column, direction, filter.page, filter.page_size);
    assert(q.text() =~= list_menus_text(*filter));
    assert(q.args() =~= list_menus_args(*filter));
    q
}

/// The text of the query counting the menu entries that a filter selects.
pub open spec fn count_menus_text(f: MenuFilter) -> Seq<char> {
    MENU_COUNT_SQL@ + menu_search_text(opt_text(f.search))
}

/// The values bound by the query counting the menu entries that a filter
/// selects.
pub open spec fn count_menus_args(f: MenuFilter) -> Seq<SqlArg> {
    menu_search_args(opt_text(f.search))
}

/// The query counting the menu entries that a filter selects, over all
/// pages.
pub fn count_menus_query(filter: &MenuFilter) -> (q: SqlQuery)
    ensures
        q.text() == count_menus_text(*filter),
        q.args() == count_menus_args(*filter),
        q.well_formed(),
{
    proof {
        reveal_strlit("SELECT COUNT(*) FROM menus WHERE 1 = 1");
    }
    let mut q = SqlQuery::new(MENU_COUNT_SQL);
    push_menu_search(&mut q, &filter.search);
    assert(q.args() =~= menu_search_args(opt_text(filter.search)));
    q
}

/// The page of menu entries returned for `filter`, holding `menus` as
/// responses, in order, and the total count.
pub fn menu_list_response(menus: Vec<Menu>, filter: &MenuFilter, total: u64) -> (r: MenuListResponse)
    ensures
        r.items@.len() == menus@.len(),
        forall|i: int| 0 <= i < menus@.len() ==> menu_response_matches(#[trigger] r.items@[i], menus@[i]@),
        r.page == filter.page,
        r.page_size == filter.page_size,
        r.total == total,
{
    let mut out: Vec<MenuResponse> = Vec::new();
    let mut rest = menus;
    let ghost orig = rest@;
    while rest.len() > 0
        invariant
            out@.len() + rest@.len() == orig.len(),
            rest@ == orig.skip(out@.len() as int),
            forall|i: int| 0 <= i < out@.len() ==> menu_response_matches(#[trigger] out@[i], orig[i]@),
        decreases rest@.len(),
    {
        let ghost k = out@.len() as int;
        let m = rest.remove(0);
        assert(m == orig[k]);
        out.push(map_response(m));
        assert(rest@ =~= orig.skip(out@.len() as int));
    }
    MenuListResponse { items: out, page: filter.page, page_size: filter.page_size, total }
}

/// The record of a menu creation that ended with `result`.
pub open spec fn create_menu_audit(
    request: CreateMenuRequest,
    result: Result<u64, ServiceError>,
    actor_id: Option<u64>,
    ip_address: Option<Seq<char>>,
    user_agent: Option<Seq<char>>,
) -> AuditRecord {
    audit_record(
        actor_id,
        MENU_CREATED@,
        MENU_ENTITY@,
        match result {
            Ok(id) => Some(decimal(id as nat)),
            Err(_) => None,
        },
        result is Ok,
        ip_address,
        user_agent,
        Some(seq![("name"@, MetaValue::Text(request.name@)), ("error"@, error_meta(result))]),
    )
}

/// What a finished menu creation asks: no cache change, and its audit
/// record.
pub fn complete_create_menu(
    request: &CreateMenuRequest,
    result: &Result<u64, ServiceError>,
    actor_id: Option<u64>,
    ip_address: Option<String>,
    user_agent: Option<String>,
) -> (c: WriteCompletion)
    ensures
        c.invalidate@ == Invalidation::Nothing,
        c.audit@ == create_menu_audit(
            *request,
            *result,
            actor_id,
            opt_text(ip_address),
            opt_text(user_agent),
        ),
{
    let entity_id = match result {
        Ok(id) => Some(u64_to_decimal(*id)),
        Err(_) => None,
    };
    let meta = metadata2(
        entry("name", AuditValue::Text(copy_string(&request.name))),
        entry("error", error_value(result)),
    );
    let audit = make_record(
        actor_id,
        MENU_CREATED,
        MENU_ENTITY,
        entity_id,
        result.is_ok(),
        ip_address,
        user_agent,
        Some(meta),
    );
    WriteCompletion { invalidate: CacheInvalidation::Nothing, audit }
}

/// The record of an update of menu entry `id` that ended with `result`.
pub open spec fn update_menu_audit(
    id: u64,
    request: UpdateMenuRequest,
    result: Result<(), ServiceError>,
    actor_id: Option<u64>,
    ip_address: Option<Seq<char>>,
    user_agent: Option<Seq<char>>,
) -> AuditRecord {
    audit_record(
        actor_id,
        MENU_UPDATED@,
        MENU_ENTITY@,
        Some(decimal(id as nat)),
        result is Ok,
        ip_address,
        user_agent,
        Some(
            seq![
                ("name"@, opt_text_meta(opt_text(request.name))),
                ("is_active"@, opt_bool_meta(request.is_active)),
                ("error"@, error_meta(result)),
            ],
        ),
    )
}

/// What a finished update of menu entry `id` asks: no cache change, and its
/// audit record.
pub fn complete_update_menu(
    id: u64,
    request: &UpdateMenuRequest,
    result: &Result<(), ServiceError>,
    actor_id: Option<u64>,
    ip_address: Option<String>,
    user_agent: Option<String>,
) -> (c: WriteCompletion)
    ensures
        c.invalidate@ == Invalidation::Nothing,
        c.audit@ == update_menu_audit(
            id,
            *request,
            *result,
            actor_id,
            opt_text(ip_address),
            opt_text(user_agent),
        ),
{
    let meta = metadata3(
        entry("name", opt_text_value(&request.name)),
        entry("is_active", opt_bool_value(request.is_active)),
        entry("error", error_value(result)),
    );
    let audit = make_record(
        actor_id,
        MENU_UPDATED,
        MENU_ENTITY,
        Some(u64_to_decimal(id)),
        result.is_ok(),
        ip_address,
        user_agent,
        Some(meta),
    );
    WriteCompletion { invalidate: CacheInvalidation::Nothing, audit }
}

/// The record of a deletion of menu entry `id` that ended with `result`:
/// only a failure carries metadata.
pub open spec fn delete_menu_audit(
    id: u64,
    result: Result<(), ServiceError>,
    actor_id: Option<u64>,
    ip_address: Option<Seq<char>>,
    user_agent: Option<Seq<char>>,
) -> AuditRecord {
    audit_record(
        actor_id,
        MENU_DELETED@,
        MENU_ENTITY@,
        Some(decimal(id as nat)),
        result is Ok,
        ip_address,
        user_agent,
        match result {
            Ok(_) => None,
            Err(e) => Some(seq![("error"@, MetaValue::Text(error_text(e)))]),
        },
    )
}

/// What a finished deletion of menu entry `id` asks: no cache change, and
/// its audit record.
pub fn complete_delete_menu(
    id: u64,
    result: &Result<(), ServiceError>,
    actor_id: Option<u64>,
    ip_address: Option<String>,
    user_agent: Option<String>,
) -> (c: WriteCompletion)
    ensures
        c.invalidate@ == Invalidation::Nothing,
        c.audit@ == delete_menu_audit(
            id,
            *result,
            actor_id,
            opt_text(ip_address),
            opt_text(user_agent),
        ),
{
    let meta = match result {
        Ok(_) => None,
        Err(e) => Some(metadata1(entry("error", AuditValue::Text(e.message())))),
    };
    let audit = make_record(
        actor_id,
        MENU_DELETED,
        MENU_ENTITY,
        Some(u64_to_decimal(id)),
        result.is_ok(),
        ip_address,
        user_agent,
        meta,
    );
    WriteCompletion { invalidate: CacheInvalidation::Nothing, audit }
}


/// The sort column of a menu list is always one of `name`, `created_at` and
/// `id`, and the search text never enters the query text.
pub proof fn lemma_menu_list_text_fixed(f1: MenuFilter, f2: MenuFilter)
    requires
        f1.sort_by@ == f2.sort_by@,
        f1.sort_type@ == f2.sort_type@,
        active_search(opt_text(f1.search)) == active_search(opt_text(f2.search)),
    ensures
        list_menus_text(f1) == list_menus_text(f2),
        count_menus_text(f1) == count_menus_text(f2),
        ({
            let c = menu_sort_column(f1.sort_by@);
            c == "name"@ || c == "created_at"@ || c == "id"@
        }),
{
}

/// The count of a menu list is taken over the same condition and values as
/// its pages.
pub proof fn lemma_menu_count_matches_list(f: MenuFilter)
    ensures
        ({
            let w = menu_search_text(opt_text(f.search));
            &&& count_menus_text(f) == MENU_COUNT_SQL@ + w
            &&& list_menus_text(f) == MENU_LIST_SQL@ + w + order_page_text(
                menu_sort_column(f.sort_by@),
                sort_direction(f.sort_type@),
            )
            &&& list_menus_args(f) == count_menus_args(f) + page_args(f.page, f.page_size)
        }),
{
}

/// Applying the same update twice at the same time gives what applying it
/// once gives; an update without sort order leaves the entry at sort order
/// 0.
pub proof fn lemma_menu_update_idempotent(m: MenuView, r: UpdateMenuRequest, now: i64)
    ensures
        updated_menu(updated_menu(m, r, now), r, now) == updated_menu(m, r, now),
        r.sort_order is None ==> updated_menu(m, r, now).sort_order == 0,
{
}

/// The audit record of every menu write reports whether it succeeded.
pub proof fn lemma_menu_writes_logged(
    id: u64,
    create: CreateMenuRequest,
    update: UpdateMenuRequest,
    created: Result<u64, ServiceError>,
    result: Result<(), ServiceError>,
    actor_id: Option<u64>,
    ip_address: Option<Seq<char>>,
    user_agent: Option<Seq<char>>,
)
    ensures
        create_menu_audit(create, created, actor_id, ip_address, user_agent).is_success
            == created is Ok,
        update_menu_audit(id, update, result, actor_id, ip_address, user_agent).is_success
            == result is Ok,
        delete_menu_audit(id, result, actor_id, ip_address, user_agent).is_success
            == result is Ok,
{
}

/// A menu list is sorted by the column that the filter names when it names
/// `name` or `created_at` exactly, and by id otherwise, in the direction
/// that the filter asks for; sorting comes after the search and before the
/// page.
pub proof fn lemma_menu_list_sorted_as_asked(f: MenuFilter)
    ensures
        ({
            let column = if f.sort_by@ == "name"@ || f.sort_by@ == "created_at"@ {
                f.sort_by@
            } else {
                "id"@
            };
            list_menus_text(f) == MENU_LIST_SQL@ + menu_search_text(opt_text(f.search)) + " ORDER BY "@
                + column + " "@ + sort_direction(f.sort_type@) + " LIMIT "@ + seq!['?']
                + " OFFSET "@ + seq!['?']
        }),
        f.sort_by@ == "created_at"@ ==> menu_sort_column(f.sort_by@) == "created_at"@,
        f.sort_by@ == "name"@ ==> menu_sort_column(f.sort_by@) == "name"@,
{
    let column = if f.sort_by@ == "name"@ || f.sort_by@ == "created_at"@ {
        f.sort_by@
    } else {
        "id"@
    };
    assert(menu_sort_column(f.sort_by@) == column);
    assert(list_menus_text(f) =~= MENU_LIST_SQL@ + menu_search_text(opt_text(f.search)) + " ORDER BY "@
        + column + " "@ + sort_direction(f.sort_type@) + " LIMIT "@ + seq!['?'] + " OFFSET "@
        + seq!['?']);
}

/// A new menu entry carries every field of its creation request: parent,
/// name, icon and path as given, the sort order and active flag as given or
/// 0 and active when left out; it is not yet stored (id 0), and created and
/// updated at `now`.
pub proof fn lemma_new_menu_fields(r: CreateMenuRequest, now: i64)
    ensures
        ({
            let m = new_menu(r, now);
            &&& m.id == 0
            &&& m.parent_id == r.parent_id
            &&& m.name == r.name@
            &&& m.icon == opt_text(r.icon)
            &&& m.path == r.path@
            &&& (r.sort_order matches Some(s) ==> m.sort_order == s)
            &&& (r.sort_order is None ==> m.sort_order == 0)
            &&& (r.is_active matches Some(b) ==> m.is_active == b)
            &&& (r.is_active is None ==> m.is_active)
            &&& m.created_at == now
            &&& m.updated_at == now
        }),
{
}

/// A menu update: name, path and active flag take the requested value when
/// given and keep the stored value when left out; parent, icon and sort
/// order are replaced by the request's (a parent or icon left out is
/// cleared, a sort order left out becomes 0); the id and creation time
/// never change, and the update time becomes `now`.
pub proof fn lemma_menu_update_fields(m: MenuView, r: UpdateMenuRequest, now: i64)
    ensures
        ({
            let u = updated_menu(m, r, now);
            &&& u.id == m.id
            &&& u.created_at == m.created_at
            &&& u.updated_at == now
            &&& u.parent_id == r.parent_id
            &&& u.icon == opt_text(r.icon)
            &&& (r.name matches Some(n) ==> u.name == n@)
            &&& (r.name is None ==> u.name == m.name)
            &&& (r.path matches Some(p) ==> u.path == p@)
            &&& (r.path is None ==> u.path == m.path)
            &&& (r.sort_order matches Some(s) ==> u.sort_order == s)
            &&& (r.sort_order is None ==> u.sort_order == 0)
            &&& (r.is_active matches Some(b) ==> u.is_active == b)
            &&& (r.is_active is None ==> u.is_active == m.is_active)
        }),
{
}

} // verus!
