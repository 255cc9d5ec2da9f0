//! Items of master-data groups: validation of requests, the decisions of the
//! item service, the list, count and option queries, cache keys and audit
//! records.
use vstd::prelude::*;
use crate::audit::{
    WriteCompletion, CacheInvalidation, Invalidation, MetaValue, AuditRecord, audit_record,
    make_record, entry, metadata2, metadata4, error_value, error_meta, opt_text_value,
    opt_text_meta, opt_bool_value, opt_bool_meta, AuditValue,
};
use crate::cache::{CacheRead, read_through};
use crate::clock::now_micros;
use crate::errors::{ServiceError, error_text};
use crate::json::clone_opt_json;
use serde_json::Value;
use crate::master_data::groups::{
    MasterDataGroup, GroupView, MasterDataOptionResponse, MasterDataOptionListResponse, group_key,
};
use crate::sql::{
    SqlQuery, SqlValue, SqlArg, no_placeholder, sort_direction, choose_sort_direction,
    page_args, order_page_text, page_in_range, push_order_and_page, code_name_search_text,
    code_name_search_args, push_code_name_search, active_search,
};
use crate::text::{
    copy_string, copy_opt_string, opt_text, str_eq, u64_to_decimal, decimal, bool_text,
    bool_to_text,
};
use crate::validation::{
    FieldViolation, Violation, violations_of, length_rule, opt_length_rule, check_text_length,
    check_opt_text_length, into_result,
};

verus! {

/// How long a list of options stays in the cache, in seconds.
pub const MASTER_DATA_OPTIONS_TTL_SECS: u64 = 180;

/// Audit action of an item creation.
pub const MASTER_DATA_ITEM_CREATED: &'static str = "master_data_item.created";

/// Audit action of an item update.
pub const MASTER_DATA_ITEM_UPDATED: &'static str = "master_data_item.updated";

/// Audit action of an item deletion.
pub const MASTER_DATA_ITEM_DELETED: &'static str = "master_data_item.deleted";

/// The audit entity type of items.
pub const ITEM_ENTITY: &'static str = "master_data_item";

/// A stored item.  Times are microseconds since the Unix epoch, UTC.
#[derive(Debug, Clone, PartialEq)]
pub struct MasterDataItem {
    pub id: u64,
    pub group_id: u64,
    pub parent_id: Option<u64>,
    pub code: String,
    pub name: String,
    pub metadata: Option<Value>,
    pub sort_order: i32,
    pub is_active: bool,
    pub created_at: i64,
    pub updated_at: i64,
}

/// The mathematical form of an item, and of its response.
pub struct ItemView {
    pub id: u64,
    pub group_id: u64,
    pub parent_id: Option<u64>,
    pub code: Seq<char>,
    pub name: Seq<char>,
    pub metadata: Option<Value>,
    pub sort_order: i32,
    pub is_active: bool,
    pub created_at: i64,
    pub updated_at: i64,
}

impl View for MasterDataItem {
    type V = ItemView;

    open spec fn view(&self) -> ItemView {
        ItemView {
            id: self.id,
            group_id: self.group_id,
            parent_id: self.parent_id,
            code: self.code@,
            name: self.name@,
            metadata: self.metadata,
            sort_order: self.sort_order,
            is_active: self.is_active,
            created_at: self.created_at,
            updated_at: self.updated_at,
        }
    }
}

/// An item as returned to clients.
#[derive(Debug, Clone, PartialEq)]
pub struct MasterDataItemResponse {
    pub id: u64,
    pub group_id: u64,
    pub parent_id: Option<u64>,
    pub code: String,
    pub name: String,
    pub metadata: Option<Value>,
    pub sort_order: i32,
    pub is_active: bool,
    pub created_at: i64,
    pub updated_at: i64,
}

impl View for MasterDataItemResponse {
    type V = ItemView;

    open spec fn view(&self) -> ItemView {
        ItemView {
            id: self.id,
            group_id: self.group_id,
            parent_id: self.parent_id,
            code: self.code@,
            name: self.name@,
            metadata: self.metadata,
            sort_order: self.sort_order,
            is_active: self.is_active,
            created_at: self.created_at,
            updated_at: self.updated_at,
        }
    }
}

/// One page of items.
#[derive(Debug, Clone, PartialEq)]
pub struct MasterDataItemListResponse {
    pub items: Vec<MasterDataItemResponse>,
    pub page: u64,
    pub page_size: u64,
    pub total: u64,
}

/// A request to create an item in a group.
#[derive(Debug, Clone, PartialEq)]
pub struct CreateMasterDataItemRequest {
    pub parent_id: Option<u64>,
    pub code: String,
    pub name: String,
    pub metadata: Option<Value>,
    pub sort_order: Option<i32>,
    pub is_active: Option<bool>,
}

/// A request to change an item.  The parent is always replaced by the one
/// given (none when absent); other absent fields keep their value.
#[derive(Debug, Clone, PartialEq)]
pub struct UpdateMasterDataItemRequest {
    pub parent_id: Option<u64>,
    pub name: Option<String>,
    pub metadata: Option<Value>,
    pub sort_order: Option<i32>,
    pub is_active: Option<bool>,
}

/// A request for one page of the items of a group.
#[derive(Debug, Clone, PartialEq)]
pub struct ListMasterDataItemRequest {
    pub parent_id: Option<u64>,
    pub only_root: Option<bool>,
    pub search: Option<String>,
    pub is_active: Option<bool>,
    pub page: Option<u64>,
    pub page_size: Option<u64>,
    pub sort_by: Option<String>,
    pub sort_type: Option<String>,
}

/// A request for the selectable items of a group.
#[derive(Debug, Clone, PartialEq)]
pub struct MasterDataOptionsQuery {
    pub parent_id: Option<u64>,
    pub only_root: Option<bool>,
}

/// The selection of an item list.
#[derive(Debug, Clone, PartialEq)]
pub struct MasterDataItemFilter {
    pub group_id: u64,
    /// Only the children of this item (for cascading selections).
    pub parent_id: Option<u64>,
    /// Only top-level items (without a parent); takes precedence over
    /// `parent_id`.
    pub only_root: bool,
    pub search: Option<String>,
    pub is_active: Option<bool>,
    pub page: u64,
    pub page_size: u64,
    pub sort_by: String,
    pub sort_type: String,
}


/// The item service over an item store, a group store, a cache and an audit
/// log.
pub struct DefaultMasterDataItemsService<R, G, C, A> {
    pub repository: R,
    pub repository_group: G,
    pub cache: C,
    pub audit_log_service: A,
}

impl<R, G, C, A> DefaultMasterDataItemsService<R, G, C, A> {
    /// A service over the given stores, cache and audit log.
    pub fn new(repository: R, repository_group: G, cache: C, audit_log_service: A) -> (s: Self)
        ensures
            s.repository == repository,
            s.repository_group == repository_group,
            s.cache == cache,
            s.audit_log_service == audit_log_service,
    {
        DefaultMasterDataItemsService { repository, repository_group, cache, audit_log_service }
    }
}

/// The length rules of an item creation, in field order.
pub open spec fn create_item_violations(r: CreateMasterDataItemRequest) -> Seq<Violation> {
    length_rule("code"@, r.code@.len(), 1, 100, Some("Code must be between 1 and 100 characters"@))
        + length_rule(
        "name"@,
        r.name@.len(),
        1,
        255,
        Some("Name must be between 1 and 255 characters"@),
    )
}

/// The length rules of an item update.
pub open spec fn update_item_violations(r: UpdateMasterDataItemRequest) -> Seq<Violation> {
    opt_length_rule(
        "name"@,
        opt_text(r.name),
        1,
        255,
        Some("Name must be between 1 and 255 characters"@),
    )
}

impl CreateMasterDataItemRequest {
    /// The fields that the request body must carry.
    pub fn required_fields() -> (f: Vec<&'static str>)
        ensures
            f@.len() == 2,
            f@[0]@ == "code"@,
            f@[1]@ == "name"@,
    {
        let mut f = Vec::new();
        f.push("code");
        f.push("name");
        f
    }

    /// Checks the length rules; `Err` lists every broken rule.
    pub fn validate(&self) -> (r: Result<(), Vec<FieldViolation>>)
        ensures
            r is Ok <==> create_item_violations(*self).len() == 0,
            r matches Err(v) ==> violations_of(v@) == create_item_violations(*self),
    {
        let mut out: Vec<FieldViolation> = Vec::new();
        assert(violations_of(out@) =~= Seq::<Violation>::empty());
        check_text_length(&mut out, "code", self.code.as_str(), 1, 100, Some("Code must be between 1 and 100 characters"));
        check_text_length(&mut out, "name", self.name.as_str(), 1, 255, Some("Name must be between 1 and 255 characters"));
        assert(violations_of(out@) =~= create_item_violations(*self));
        into_result(out)
    }
}

impl UpdateMasterDataItemRequest {
    /// The fields that the request body must carry: none.
    pub fn required_fields() -> (f: Vec<&'static str>)
        ensures
            f@.len() == 0,
    {
        Vec::new()
    }

    /// Checks the length rules; `Err` lists every broken rule.
    pub fn validate(&self) -> (r: Result<(), Vec<FieldViolation>>)
        ensures
            r is Ok <==> update_item_violations(*self).len() == 0,
            r matches Err(v) ==> violations_of(v@) == update_item_violations(*self),
    {
        let mut out: Vec<FieldViolation> = Vec::new();
        assert(violations_of(out@) =~= Seq::<Violation>::empty());
        check_opt_text_length(&mut out, "name", &self.name, 1, 255, Some("Name must be between 1 and 255 characters"));
        assert(violations_of(out@) =~= update_item_violations(*self));
        into_result(out)
    }
}

/// The item that a creation request asks for in group `g`, created at `now`:
/// not yet stored (id 0), sort order 0 and active unless given.
pub open spec fn new_item(g: GroupView, r: CreateMasterDataItemRequest, now: i64) -> ItemView {
    ItemView {
        id: 0,
        group_id: g.id,
        parent_id: r.parent_id,
        code: r.code@,
        name: r.name@,
        metadata: r.metadata,
        sort_order: match r.sort_order {
            Some(s) => s,
            None => 0,
        },
        is_active: match r.is_active {
            Some(b) => b,
            None => true,
        },
        created_at: now,
        updated_at: now,
    }
}

/// The item that a creation request asks for in `group`, created at `now`.
pub fn make_new_item(group: &MasterDataGroup, request: &CreateMasterDataItemRequest, now: i64) -> (i: MasterDataItem)
    ensures
        i@ == new_item(group@, *request, now),
{
    MasterDataItem {
        id: 0,
        group_id: group.id,
        parent_id: request.parent_id,
        code: copy_string(&request.code),
        name: copy_string(&request.name),
        metadata: clone_opt_json(&request.metadata),
        sort_order: match request.sort_order {
            Some(s) => s,
            None => 0,
        },
        is_active: match request.is_active {
            Some(b) => b,
            None => true,
        },
        created_at: now,
        updated_at: now,
    }
}

/// Whether a group refuses an item with parent `parent_id`: a flat group
/// takes no parents.
pub open spec fn parent_refused(g: GroupView, parent_id: Option<u64>) -> bool {
    !g.is_hierarchical && parent_id is Some
}

/// Decides an item creation in `group` from whether the store holds the
/// code in the group already and the clock reading `now`: a taken code is
/// refused first, then a parent in a flat group, then a missing reading;
/// otherwise the item to insert, stamped with `now`.
pub fn plan_create_item_at(
    group: &MasterDataGroup,
    request: &CreateMasterDataItemRequest,
    code_exists: bool,
    now: Option<i64>,
) -> (r: Result<MasterDataItem, ServiceError>)
    ensures
        code_exists ==> r == Err::<MasterDataItem, ServiceError>(ServiceError::ItemCodeExists),
        !code_exists && parent_refused(group@, request.parent_id) ==> (r matches Err(
            ServiceError::GroupNotHierarchical { code },
        ) && code@ == group.code@),
        !code_exists && !parent_refused(group@, request.parent_id) && now is None ==> r == Err::<
            MasterDataItem,
            ServiceError,
        >(ServiceError::ClockUnavailable),
        !code_exists && !parent_refused(group@, request.parent_id) && now is Some ==> (r matches Ok(
            i,
        ) && i@ == new_item(group@, *request, now->0)),
{
    if code_exists {
        return Err(ServiceError::ItemCodeExists);
    }
    if !group.is_hierarchical && request.parent_id.is_some() {
        return Err(ServiceError::GroupNotHierarchical { code: copy_string(&group.code) });
    }
    match now {
        Some(t) => Ok(make_new_item(group, request, t)),
        None => Err(ServiceError::ClockUnavailable),
    }
}

/// Decides an item creation in `group` once the store has said whether the
/// code is taken in the group, at the current time: what
/// `plan_create_item_at` decides for the clock's reading.
pub fn plan_create_item(group: &MasterDataGroup, request: &CreateMasterDataItemRequest, code_exists: bool) -> (r: Result<MasterDataItem, ServiceError>)
    ensures
        code_exists ==> r == Err::<MasterDataItem, ServiceError>(ServiceError::ItemCodeExists),
        !code_exists && parent_refused(group@, request.parent_id) ==> (r matches Err(
            ServiceError::GroupNotHierarchical { code },
        ) && code@ == group.code@),
        !code_exists && !parent_refused(group@, request.parent_id) ==> (r is Ok || r == Err::<
            MasterDataItem,
            ServiceError,
        >(ServiceError::ClockUnavailable)),
        r matches Ok(i) ==> i@ == new_item(group@, *request, i.created_at) && i.created_at >= 0,
{
    plan_create_item_at(group, request, code_exists, now_micros())
}

/// The item that a lookup by id found, if it belongs to `group`; otherwise
/// `ItemNotFound`.
pub fn item_in_group(group: &MasterDataGroup, found: Option<MasterDataItem>) -> (r: Result<MasterDataItem, ServiceError>)
    ensures
        match found {
            Some(i) => if i.group_id == group.id {
                r == Ok::<MasterDataItem, ServiceError>(i)
            } else {
                r == Err::<MasterDataItem, ServiceError>(ServiceError::ItemNotFound)
            },
            None => r == Err::<MasterDataItem, ServiceError>(ServiceError::ItemNotFound),
        },
{
    match found {
        Some(i) => if i.group_id == group.id {
            Ok(i)
        } else {
            Err(ServiceError::ItemNotFound)
        },
        None => Err(ServiceError::ItemNotFound),
    }
}

/// `i` changed by an update request at `now`: the parent is replaced by the
/// requested one; each other field given replaces the stored one.
pub open spec fn updated_item(i: ItemView, r: UpdateMasterDataItemRequest, now: i64) -> ItemView {
    ItemView {
        id: i.id,
        group_id: i.group_id,
        parent_id: r.parent_id,
        code: i.code,
        name: match r.name {
            Some(n) => n@,
            None => i.name,
        },
        metadata: match r.metadata {
            Some(m) => Some(m),
            None => i.metadata,
        },
        sort_order: match r.sort_order {
            Some(s) => s,
            None => i.sort_order,
        },
        is_active: match r.is_active {
            Some(b) => b,
            None => i.is_active,
        },
        created_at: i.created_at,
        updated_at: now,
    }
}

/// Applies an update request to an item at `now`.
pub fn apply_item_update(item: MasterDataItem, request: &UpdateMasterDataItemRequest, now: i64) -> (r: MasterDataItem)
    ensures
        r@ == updated_item(item@, *request, now),
{
    let MasterDataItem { id, group_id, parent_id: _, code, name, metadata, sort_order, is_active, created_at, updated_at: _ } = item;
    MasterDataItem {
        id,
        group_id,
        parent_id: request.parent_id,
        code,
        name: match &request.name {
            Some(n) => copy_string(n),
            None => name,
        },
        metadata: match &request.metadata {
            Some(_) => clone_opt_json(&request.metadata),
            None => metadata,
        },
        sort_order: match request.sort_order {
            Some(s) => s,
            None => sort_order,
        },
        is_active: match request.is_active {
            Some(b) => b,
            None => is_active,
        },
        created_at,
        updated_at: now,
    }
}

/// Decides an item update in `group` once the item has been looked up, at
/// the clock reading `now`: an item missing or of another group is refused
/// first, then a parent in a flat group, then a missing reading; otherwise
/// the item to store, stamped with `now`.
pub fn plan_update_item_at(
    group: &MasterDataGroup,
    found: Option<MasterDataItem>,
    request: &UpdateMasterDataItemRequest,
    now: Option<i64>,
) -> (r: Result<MasterDataItem, ServiceError>)
    ensures
        match found {
            Some(i) => if i.group_id != group.id {
                r == Err::<MasterDataItem, ServiceError>(ServiceError::ItemNotFound)
            } else if parent_refused(group@, request.parent_id) {
                r matches Err(ServiceError::GroupNotHierarchical { code }) && code@ == group.code@
            } else {
                match now {
                    Some(t) => r matches Ok(u) && u@ == updated_item(i@, *request, t),
                    None => r == Err::<MasterDataItem, ServiceError>(ServiceError::ClockUnavailable),
                }
            },
            None => r == Err::<MasterDataItem, ServiceError>(ServiceError::ItemNotFound),
        },
{
    let item = match item_in_group(group, found) {
        Ok(i) => i,
        Err(e) => return Err(e),
    };
    if !group.is_hierarchical && request.parent_id.is_some() {
        return Err(ServiceError::GroupNotHierarchical { code: copy_string(&group.code) });
    }
    match now {
        Some(t) => Ok(apply_item_update(item, request, t)),
        None => Err(ServiceError::ClockUnavailable),
    }
}

/// Decides an item update in `group` once the item has been looked up, at
/// the current time: what `plan_update_item_at` decides for the clock's
/// reading.
pub fn plan_update_item(group: &MasterDataGroup, found: Option<MasterDataItem>, request: &UpdateMasterDataItemRequest) -> (r: Result<MasterDataItem, ServiceError>)
    ensures
        match found {
            Some(i) => if i.group_id != group.id {
                r == Err::<MasterDataItem, ServiceError>(ServiceError::ItemNotFound)
            } else if parent_refused(group@, request.parent_id) {
                r matches Err(ServiceError::GroupNotHierarchical { code }) && code@ == group.code@
            } else {
                ||| r matches Ok(u) && u@ == updated_item(i@, *request, u.updated_at)
                    && u.updated_at >= 0
                ||| r == Err::<MasterDataItem, ServiceError>(ServiceError::ClockUnavailable)
            },
            None => r == Err::<MasterDataItem, ServiceError>(ServiceError::ItemNotFound),
        },
{
    plan_update_item_at(group, found, request, now_micros())
}

/// Decides an item deletion once its live children have been counted: an
/// item with children is kept; otherwise the id to delete.
pub fn plan_delete_item(item: &MasterDataItem, child_count: u64) -> (r: Result<u64, ServiceError>)
    ensures
        r is Err <==> child_count > 0,
        r matches Ok(id) ==> id == item.id,
        r matches Err(e) ==> (e matches ServiceError::ItemHasChildren { code, child_count: n }
            && code@ == item.code@ && n == child_count),
{
    if child_count > 0 {
        return Err(ServiceError::ItemHasChildren { code: copy_string(&item.code), child_count });
    }
    Ok(item.id)
}

/// An item as returned to clients.
pub fn map_item(item: MasterDataItem) -> (r: MasterDataItemResponse)
    ensures
        r@ == item@,
{
    MasterDataItemResponse {
        id: item.id,
        group_id: item.group_id,
        parent_id: item.parent_id,
        code: item.code,
        name: item.name,
        metadata: item.metadata,
        sort_order: item.sort_order,
        is_active: item.is_active,
        created_at: item.created_at,
        updated_at: item.updated_at,
    }
}

/// An item as a selectable option.
pub fn map_option(item: MasterDataItem) -> (r: MasterDataOptionResponse)
    ensures
        r.id == item.id,
        r.code@ == item.code@,
        r.name@ == item.name@,
        r.parent_id == item.parent_id,
{
    MasterDataOptionResponse { id: item.id, code: item.code, name: item.name, parent_id: item.parent_id }
}

/// The filter that a list request asks for in `group`: all items unless a
/// parent or the top level is asked for, page 1 and 10 rows unless given,
/// by sort order ascending unless a sort is given.
pub fn item_filter(group: &MasterDataGroup, request: ListMasterDataItemRequest) -> (f: MasterDataItemFilter)
    ensures
        f.group_id == group.id,
        f.parent_id == request.parent_id,
        f.only_root == (match request.only_root {
            Some(b) => b,
            None => false,
        }),
        opt_text(f.search) == opt_text(request.search),
        f.is_active == request.is_active,
        f.page == (match request.page {
            Some(p) => p,
            None => 1,
        }),
        f.page_size == (match request.page_size {
            Some(p) => p,
            None => 10,
        }),
        f.sort_by@ == (match request.sort_by {
            Some(s) => s@,
            None => "sort_order"@,
        }),
        f.sort_type@ == (match request.sort_type {
            Some(s) => s@,
            None => "ASC"@,
        }),
{
    let ListMasterDataItemRequest { parent_id, only_root, search, is_active, page, page_size, sort_by, sort_type } = request;
    MasterDataItemFilter {
        group_id: group.id,
        parent_id,
        only_root: match only_root {
            Some(b) => b,
            None => false,
        },
        search,
        is_active,
        page: match page {
            Some(p) => p,
            None => 1,
        },
        page_size: match page_size {
            Some(p) => p,
            None => 10,
        },
        sort_by: match sort_by {
            Some(s) => s,
            None => String::from_str("sort_order"),
        },
        sort_type: match sort_type {
            Some(s) => s,
            None => String::from_str("ASC"),
        },
    }
}

/// The text of the parent part of an option key: the parent's id, or
/// `none`.
pub open spec fn parent_key_text(parent_id: Option<u64>) -> Seq<char> {
    match parent_id {
        Some(p) => decimal(p as nat),
        None => "none"@,
    }
}

/// The prefix shared by the cache keys of all option lists of a group.
pub open spec fn options_prefix(group_code: Seq<char>) -> Seq<char> {
    "master_data:options:"@ + group_code + ":"@
}

/// The cache key of the options of a group for a parent and level choice.
pub open spec fn options_key(group_code: Seq<char>, parent_id: Option<u64>, only_root: bool) -> Seq<char> {
    options_prefix(group_code) + parent_key_text(parent_id) + ":"@ + bool_text(only_root)
}

/// The prefix shared by the cache keys of all option lists of a group.
pub fn options_invalidation_prefix(group_code: &str) -> (p: String)
    ensures
        p@ == options_prefix(group_code@),
{
    String::from_str("master_data:options:").concat(group_code).concat(":")
}

/// The cache key of the options of a group for a parent and level choice.
pub fn options_cache_key(group_code: &str, parent_id: Option<u64>, only_root: bool) -> (k: String)
    ensures
        k@ == options_key(group_code@, parent_id, only_root),
{
    let parent = match parent_id {
        Some(p) => u64_to_decimal(p),
        None => String::from_str("none"),
    };
    let flag = bool_to_text(only_root);
    let k = options_invalidation_prefix(group_code);
    let k = k.concat(parent.as_str());
    let k = k.concat(":");
    k.concat(flag.as_str())
}

/// The step a lookup of the options of a group for a parent and level
/// choice takes once the cache has answered with `cached`: a cached list is
/// used as it is; otherwise the list is loaded from the store and cached
/// under its key for `MASTER_DATA_OPTIONS_TTL_SECS` seconds.
pub fn options_read(
    group_code: &str,
    parent_id: Option<u64>,
    only_root: bool,
    cached: Option<MasterDataOptionListResponse>,
) -> (r: CacheRead<MasterDataOptionListResponse>)
    ensures
        match cached {
            Some(o) => r == CacheRead::<MasterDataOptionListResponse>::Hit(o),
            None => r matches CacheRead::Miss { key, ttl_secs } && key@ == options_key(
                group_code@,
                parent_id,
                only_root,
            ) && ttl_secs == MASTER_DATA_OPTIONS_TTL_SECS,
        },
{
    read_through(options_cache_key(group_code, parent_id, only_root), MASTER_DATA_OPTIONS_TTL_SECS, cached)
}

/// Every cached option list of a group lies under the prefix that item
/// writes invalidate, whatever its parent and level choice.
pub proof fn lemma_options_keys_under_prefix(group_code: Seq<char>, parent_id: Option<u64>, only_root: bool)
    ensures
        options_prefix(group_code).is_prefix_of(options_key(group_code, parent_id, only_root)),
{
    let p = options_prefix(group_code);
    let k = options_key(group_code, parent_id, only_root);
    assert(k =~= p + (parent_key_text(parent_id) + ":"@ + bool_text(only_root)));
    assert(k.subrange(0, p.len() as int) =~= p);
}

/// The item list query before its conditions.
pub const ITEM_LIST_SQL: &'static str = "\n            SELECT id, group_id, parent_id, code, name, metadata, sort_order, is_active, created_at, updated_at\n            FROM master_data_items\n            WHERE delete_marker IS NULL AND group_id =\n            ";

/// The item count query before its conditions.
pub const ITEM_COUNT_SQL: &'static str = "SELECT COUNT(*) FROM master_data_items WHERE delete_marker IS NULL AND group_id = ";

/// The option list query before its conditions.
pub const OPTION_LIST_SQL: &'static str = "\n            SELECT id, group_id, parent_id, code, name, metadata, sort_order, is_active, created_at, updated_at\n            FROM master_data_items\n            WHERE delete_marker IS NULL AND is_active = TRUE AND group_id =\n            ";

/// The condition on the parent: top level only, or the children of one
/// item, or none.
pub open spec fn parent_text(only_root: bool, parent_id: Option<u64>) -> Seq<char> {
    if only_root {
        " AND parent_id IS NULL"@
    } else if parent_id is Some {
        " AND parent_id = "@ + seq!['?']
    } else {
        Seq::empty()
    }
}

/// The values bound by the condition on the parent.
pub open spec fn parent_args(only_root: bool, parent_id: Option<u64>) -> Seq<SqlArg> {
    if only_root {
        Seq::empty()
    } else {
        match parent_id {
            Some(p) => seq![SqlArg::U64(p)],
            None => Seq::empty(),
        }
    }
}

fn push_parent_condition(q: &mut SqlQuery, only_root: bool, parent_id: Option<u64>)
    ensures
        final(q).text() == old(q).text() + parent_text(only_root, parent_id),
        final(q).args() == old(q).args() + parent_args(only_root, parent_id),
        old(q).well_formed() ==> final(q).well_formed(),
{
    proof {
        reveal_strlit(" AND parent_id IS NULL");
        reveal_strlit(" AND parent_id = ");
    }
    let ghost t0 = q.text();
    let ghost a0 = q.args();
    if only_root {
        q.push(" AND parent_id IS NULL");
    } else {
        match parent_id {
            Some(p) => {
                q.push(" AND parent_id = ");
                q.push_bind(SqlValue::U64(p));
            },
            None => {},
        }
    }
    assert(q.text() =~= t0 + parent_text(only_root, parent_id));
    assert(q.args() =~= a0 + parent_args(only_root, parent_id));
}

/// The condition of an item filter after the group: parent, activity, then
/// search.
pub open spec fn item_filter_text(f: MasterDataItemFilter) -> Seq<char> {
    parent_text(f.only_root, f.parent_id) + (if f.is_active is Some {
        " AND is_active = "@ + seq!['?']
    } else {
        Seq::empty()
    }) + code_name_search_text(opt_text(f.search))
}

/// The values bound by the condition of an item filter after the group.
pub open spec fn item_filter_args(f: MasterDataItemFilter) -> Seq<SqlArg> {
    parent_args(f.only_root, f.parent_id) + (match f.is_active {
        Some(b) => seq![SqlArg::Bool(b)],
        None => Seq::empty(),
    }) + code_name_search_args(opt_text(f.search))
}

/// Appends the conditions of an item filter after the group.
pub fn push_item_filters(q: &mut SqlQuery, filter: &MasterDataItemFilter)
    ensures
        final(q).text() == old(q).text() + item_filter_text(*filter),
        final(q).args() == old(q).args() + item_filter_args(*filter),
        old(q).well_formed() ==> final(q).well_formed(),
{
    proof {
        reveal_strlit(" AND is_active = ");
    }
    let ghost t0 = q.text();
    let ghost a0 = q.args();
    push_parent_condition(q, filter.only_root, filter.parent_id);
    let ghost t1 = q.text();
    let ghost a1 = q.args();
    match filter.is_active {
        Some(b) => {
            q.push(" AND is_active = ");
            q.push_bind(SqlValue::Bool(b));
        },
        None => {},
    }
    let ghost t2 = q.text();
    let ghost a2 = q.args();
    push_code_name_search(q, &filter.search);
    assert(q.text() =~= t0 + item_filter_text(*filter));
    assert(q.args() =~= a0 + item_filter_args(*filter));
}

/// The column that an item list is sorted by: `code`, `name` or
/// `sort_order` when asked for exactly, the creation time otherwise.
pub open spec fn item_sort_column(sort_by: Seq<char>) -> Seq<char> {
    if sort_by == "code"@ {
        "code"@
    } else if sort_by == "name"@ {
        "name"@
    } else if sort_by == "sort_order"@ {
        "sort_order"@
    } else {
        "created_at"@
    }
}

fn choose_item_sort_column(sort_by: &str) -> (c: &'static str)
    ensures
        c@ == item_sort_column(sort_by@),
        no_placeholder(c@),
{
    proof {
        reveal_strlit("code");
        reveal_strlit("name");
        reveal_strlit("sort_order");
        reveal_strlit("created_at");
    }
    if str_eq(sort_by, "code") {
        "code"
    } else if str_eq(sort_by, "name") {
        "name"
    } else if str_eq(sort_by, "sort_order") {
        "sort_order"
    } else {
        "created_at"
    }
}

/// The text of the query for one page of items.
pub open spec fn list_items_text(f: MasterDataItemFilter) -> Seq<char> {
    ITEM_LIST_SQL@ + seq!['?'] + item_filter_text(f) + order_page_text(
        item_sort_column(f.sort_by@),
        sort_direction(f.sort_type@),
    )
}

/// The values bound by the query for one page of items.
pub open spec fn list_items_args(f: MasterDataItemFilter) -> Seq<SqlArg> {
    seq![SqlArg::U64(f.group_id)] + item_filter_args(f) + page_args(f.page, f.page_size)
}

/// The query for one page of the live items of a group.
pub fn list_items_query(filter: &MasterDataItemFilter) -> (q: SqlQuery)
    requires
        page_in_range(filter.page, filter.page_size),
    ensures
        q.text() == list_items_text(*filter),
        q.args() == list_items_args(*filter),
        q.well_formed(),
{
    proof {
        reveal_strlit("\n            SELECT id, group_id, parent_id, code, name, metadata, sort_order, is_active, created_at, updated_at\n            FROM master_data_items\n            WHERE delete_marker IS NULL AND group_id =\n            ");
    }
    let mut q = SqlQuery::new(ITEM_LIST_SQL);
    q.push_bind(SqlValue::U64(filter.group_id));
    push_item_filters(&mut q, filter);
    let column = choose_item_sort_column(filter.sort_by.as_str());
    let direction = choose_sort_direction(filter.sort_type.as_str());
    push_order_and_page(&mut q, column, direction, filter.page, filter.page_size);
    assert(q.text() =~= list_items_text(*filter));
    assert(q.args() =~= list_items_args(*filter));
    q
}

/// The text of the query counting the items that a filter selects.
pub open spec fn count_items_text(f: MasterDataItemFilter) -> Seq<char> {
    ITEM_COUNT_SQL@ + seq!['?'] + item_filter_text(f)
}

/// The values bound by the query counting the items that a filter selects.
pub open spec fn count_items_args(f: MasterDataItemFilter) -> Seq<SqlArg> {
    seq![SqlArg::U64(f.group_id)] + item_filter_args(f)
}

/// The query counting the live items that a filter selects, over all pages.
pub fn count_items_query(filter: &MasterDataItemFilter) -> (q: SqlQuery)
    ensures
        q.text() == count_items_text(*filter),
        q.args() == count_items_args(*filter),
        q.well_formed(),
{
    proof {
        reveal_strlit("SELECT COUNT(*) FROM master_data_items WHERE delete_marker IS NULL AND group_id = ");
    }
    let mut q = SqlQuery::new(ITEM_COUNT_SQL);
    q.push_bind(SqlValue::U64(filter.group_id));
    push_item_filters(&mut q, filter);
    assert(q.args() =~= seq![SqlArg::U64(filter.group_id)] + item_filter_args(*filter));
    q
}

/// The text of the query for the options of a group.
pub open spec fn list_options_text(only_root: bool, parent_id: Option<u64>) -> Seq<char> {
    OPTION_LIST_SQL@ + seq!['?'] + parent_text(only_root, parent_id)
        + " ORDER BY sort_order ASC, name ASC"@
}

/// The query for the live, active items of a group offered as options, in
/// sort order then by name.
pub fn list_options_query(group_id: u64, parent_id: Option<u64>, only_root: bool) -> (q: SqlQuery)
    ensures
        q.text() == list_options_text(only_root, parent_id),
        q.args() == seq![SqlArg::U64(group_id)] + parent_args(only_root, parent_id),
        q.well_formed(),
{
    proof {
        reveal_strlit("\n            SELECT id, group_id, parent_id, code, name, metadata, sort_order, is_active, created_at, updated_at\n            FROM master_data_items\n            WHERE delete_marker IS NULL AND is_active = TRUE AND group_id =\n            ");
        reveal_strlit(" ORDER BY sort_order ASC, name ASC");
    }
    let mut q = SqlQuery::new(OPTION_LIST_SQL);
    q.push_bind(SqlValue::U64(group_id));
    push_parent_condition(&mut q, only_root, parent_id);
    q.push(" ORDER BY sort_order ASC, name ASC");
    assert(q.text() =~= list_options_text(only_root, parent_id));
    assert(q.args() =~= seq![SqlArg::U64(group_id)] + parent_args(only_root, parent_id));
    q
}

/// The page of items returned for `filter`, holding `items` as responses,
/// in order, and the total count.
pub fn item_list_response(items: Vec<MasterDataItem>, filter: &MasterDataItemFilter, total: u64) -> (r: MasterDataItemListResponse)
    ensures
        r.items@.len() == items@.len(),
        forall|i: int| 0 <= i < items@.len() ==> #[trigger] r.items@[i]@ == items@[i]@,
        r.page == filter.page,
        r.page_size == filter.page_size,
        r.total == total,
{
    let mut out: Vec<MasterDataItemResponse> = Vec::new();
    let mut rest = items;
    let ghost orig = rest@;
    while rest.len() > 0
        invariant
            out@.len() + rest@.len() == orig.len(),
            rest@ == orig.skip(out@.len() as int),
            forall|i: int| 0 <= i < out@.len() ==> #[trigger] out@[i]@ == orig[i]@,
        decreases rest@.len(),
    {
        let ghost k = out@.len() as int;
        let it = rest.remove(0);
        assert(it == orig[k]);
        out.push(map_item(it));
        assert(rest@ =~= orig.skip(out@.len() as int));
    }
    MasterDataItemListResponse { items: out, page: filter.page, page_size: filter.page_size, total }
}

/// The options returned for a group: `items` as options, in order.
pub fn option_list_response(items: Vec<MasterDataItem>) -> (r: MasterDataOptionListResponse)
    ensures
        r.items@.len() == items@.len(),
        forall|i: int| 0 <= i < items@.len() ==> {
            &&& #[trigger] r.items@[i].id == items@[i].id
            &&& r.items@[i].code@ == items@[i].code@
            &&& r.items@[i].name@ == items@[i].name@
            &&& r.items@[i].parent_id == items@[i].parent_id
        },
{
    let mut out: Vec<MasterDataOptionResponse> = Vec::new();
    let mut rest = items;
    let ghost orig = rest@;
    while rest.len() > 0
        invariant
            out@.len() + rest@.len() == orig.len(),
            rest@ == orig.skip(out@.len() as int),
            forall|i: int| 0 <= i < out@.len() ==> {
                &&& #[trigger] out@[i].id == orig[i].id
                &&& out@[i].code@ == orig[i].code@
                &&& out@[i].name@ == orig[i].name@
                &&& out@[i].parent_id == orig[i].parent_id
            },
        decreases rest@.len(),
    {
        let ghost k = out@.len() as int;
        let it = rest.remove(0);
        assert(it == orig[k]);
        out.push(map_option(it));
        assert(rest@ =~= orig.skip(out@.len() as int));
    }
    MasterDataOptionListResponse { items: out }
}

/// The cache entries dropped after an item write in group `group_code` that
/// ended with `ok`: all the group's option lists on success, none on
/// failure.
pub open spec fn options_invalidation(group_code: Seq<char>, ok: bool) -> Invalidation {
    if ok {
        Invalidation::Prefix(options_prefix(group_code))
    } else {
        Invalidation::Nothing
    }
}

fn invalidate_options_if(group_code: &str, ok: bool) -> (c: CacheInvalidation)
    ensures
        c@ == options_invalidation(group_code@, ok),
{
    if ok {
        CacheInvalidation::Prefix(options_invalidation_prefix(group_code))
    } else {
        CacheInvalidation::Nothing
    }
}

/// The record of an item creation in group `group_code` that ended with
/// `result`.
pub open spec fn create_item_audit(
    group_code: Seq<char>,
    request: CreateMasterDataItemRequest,
    result: Result<u64, ServiceError>,
    actor_id: Option<u64>,
    ip_address: Option<Seq<char>>,
    user_agent: Option<Seq<char>>,
) -> AuditRecord {
    audit_record(
        actor_id,
        MASTER_DATA_ITEM_CREATED@,
        ITEM_ENTITY@,
        match result {
            Ok(id) => Some(decimal(id as nat)),
            Err(_) => None,
        },
        result is Ok,
        ip_address,
        user_agent,
        Some(
            seq![
                ("group_code"@, MetaValue::Text(group_code)),
                ("code"@, MetaValue::Text(request.code@)),
                ("name"@, MetaValue::Text(request.name@)),
                ("error"@, error_meta(result)),
            ],
        ),
    )
}

/// What a finished item creation in group `group_code` asks: on success the
/// group's option lists are dropped; and its audit record.
pub fn complete_create_item(
    group_code: &str,
    request: &CreateMasterDataItemRequest,
    result: &Result<u64, ServiceError>,
    actor_id: Option<u64>,
    ip_address: Option<String>,
    user_agent: Option<String>,
) -> (c: WriteCompletion)
    ensures
        c.invalidate@ == options_invalidation(group_code@, result is Ok),
        c.audit@ == create_item_audit(
            group_code@,
            *request,
            *result,
            actor_id,
            opt_text(ip_address),
            opt_text(user_agent),
        ),
{
    let entity_id = match result {
        Ok(id) => Some(u64_to_decimal(*id)),
        Err(_) => None,
    };
    let meta = metadata4(
        entry("group_code", AuditValue::Text(String::from_str(group_code))),
        entry("code", AuditValue::Text(copy_string(&request.code))),
        entry("name", AuditValue::Text(copy_string(&request.name))),
        entry("error", error_value(result)),
    );
    let audit = make_record(
        actor_id,
        MASTER_DATA_ITEM_CREATED,
        ITEM_ENTITY,
        entity_id,
        result.is_ok(),
        ip_address,
        user_agent,
        Some(meta),
    );
    WriteCompletion { invalidate: invalidate_options_if(group_code, result.is_ok()), audit }
}

/// The record of an update of item `item_id` in group `group_code` that
/// ended with `result`.
pub open spec fn update_item_audit(
    group_code: Seq<char>,
    item_id: u64,
    request: UpdateMasterDataItemRequest,
    result: Result<(), ServiceError>,
    actor_id: Option<u64>,
    ip_address: Option<Seq<char>>,
    user_agent: Option<Seq<char>>,
) -> AuditRecord {
    audit_record(
        actor_id,
        MASTER_DATA_ITEM_UPDATED@,
        ITEM_ENTITY@,
        Some(decimal(item_id as nat)),
        result is Ok,
        ip_address,
        user_agent,
        Some(
            seq![
                ("group_code"@, MetaValue::Text(group_code)),
                ("name"@, opt_text_meta(opt_text(request.name))),
                ("is_active"@, opt_bool_meta(request.is_active)),
                ("error"@, error_meta(result)),
            ],
        ),
    )
}

/// What a finished update of item `item_id` in group `group_code` asks: on
/// success the group's option lists are dropped; and its audit record.
pub fn complete_update_item(
    group_code: &str,
    item_id: u64,
    request: &UpdateMasterDataItemRequest,
    result: &Result<(), ServiceError>,
    actor_id: Option<u64>,
    ip_address: Option<String>,
    user_agent: Option<String>,
) -> (c: WriteCompletion)
    ensures
        c.invalidate@ == options_invalidation(group_code@, result is Ok),
        c.audit@ == update_item_audit(
            group_code@,
            item_id,
            *request,
            *result,
            actor_id,
            opt_text(ip_address),
            opt_text(user_agent),
        ),
{
    let meta = metadata4(
        entry("group_code", AuditValue::Text(String::from_str(group_code))),
        entry("name", opt_text_value(&request.name)),
        entry("is_active", opt_bool_value(request.is_active)),
        entry("error", error_value(result)),
    );
    let audit = make_record(
        actor_id,
        MASTER_DATA_ITEM_UPDATED,
        ITEM_ENTITY,
        Some(u64_to_decimal(item_id)),
        result.is_ok(),
        ip_address,
        user_agent,
        Some(meta),
    );
    WriteCompletion { invalidate: invalidate_options_if(group_code, result.is_ok()), audit }
}

/// The record of a deletion of item `item_id` in group `group_code` that
/// ended with `result`: only a failure carries metadata.
pub open spec fn delete_item_audit(
    group_code: Seq<char>,
    item_id: u64,
    result: Result<(), ServiceError>,
    actor_id: Option<u64>,
    ip_address: Option<Seq<char>>,
    user_agent: Option<Seq<char>>,
) -> AuditRecord {
    audit_record(
        actor_id,
        MASTER_DATA_ITEM_DELETED@,
        ITEM_ENTITY@,
        Some(decimal(item_id as nat)),
        result is Ok,
        ip_address,
        user_agent,
        match result {
            Ok(_) => None,
            Err(e) => Some(
                seq![
                    ("group_code"@, MetaValue::Text(group_code)),
                    ("error"@, MetaValue::Text(error_text(e))),
                ],
            ),
        },
    )
}

/// What a finished deletion of item `item_id` in group `group_code` asks: on
/// success the group's option lists are dropped; and its audit record.
pub fn complete_delete_item(
    group_code: &str,
    item_id: u64,
    result: &Result<(), ServiceError>,
    actor_id: Option<u64>,
    ip_address: Option<String>,
    user_agent: Option<String>,
) -> (c: WriteCompletion)
    ensures
        c.invalidate@ == options_invalidation(group_code@, result is Ok),
        c.audit@ == delete_item_audit(
            group_code@,
            item_id,
            *result,
            actor_id,
            opt_text(ip_address),
            opt_text(user_agent),
        ),
{
    let meta = match result {
        Ok(_) => None,
        Err(e) => Some(
            metadata2(
                entry("group_code", AuditValue::Text(String::from_str(group_code))),
                entry("error", AuditValue::Text(e.message())),
            ),
        ),
    };
    let audit = make_record(
        actor_id,
        MASTER_DATA_ITEM_DELETED,
        ITEM_ENTITY,
        Some(u64_to_decimal(item_id)),
        result.is_ok(),
        ip_address,
        user_agent,
        meta,
    );
    WriteCompletion { invalidate: invalidate_options_if(group_code, result.is_ok()), audit }
}


/// The sort column of an item list is always one of `code`, `name`,
/// `sort_order` and `created_at`, and the search text never enters the
/// query text: two filters that differ only in their search text, both
/// active or both inactive, give the same text.
pub proof fn lemma_item_list_text_fixed(f1: MasterDataItemFilter, f2: MasterDataItemFilter)
    requires
        f1.sort_by@ == f2.sort_by@,
        f1.sort_type@ == f2.sort_type@,
        f1.only_root == f2.only_root,
        f1.parent_id is Some == f2.parent_id is Some,
        f1.is_active is Some == f2.is_active is Some,
        active_search(opt_text(f1.search)) == active_search(opt_text(f2.search)),
    ensures
        list_items_text(f1) == list_items_text(f2),
        count_items_text(f1) == count_items_text(f2),
        ({
            let c = item_sort_column(f1.sort_by@);
            c == "code"@ || c == "name"@ || c == "sort_order"@ || c == "created_at"@
        }),
{
}

/// The count of an item list is taken over the same condition and values
/// as its pages.
pub proof fn lemma_item_count_matches_list(f: MasterDataItemFilter)
    ensures
        ({
            let w = seq!['?'] + item_filter_text(f);
            &&& count_items_text(f) == ITEM_COUNT_SQL@ + w
            &&& list_items_text(f) == ITEM_LIST_SQL@ + w + order_page_text(
                item_sort_column(f.sort_by@),
                sort_direction(f.sort_type@),
            )
            &&& list_items_args(f) == count_items_args(f) + page_args(f.page, f.page_size)
        }),
{
    assert(ITEM_LIST_SQL@ + seq!['?'] + item_filter_text(f) =~= ITEM_LIST_SQL@ + (seq!['?'] + item_filter_text(f)));
    assert(ITEM_COUNT_SQL@ + seq!['?'] + item_filter_text(f) =~= ITEM_COUNT_SQL@ + (seq!['?'] + item_filter_text(f)));
}

/// A flat group never holds an item with a parent: whenever creating or
/// updating an item is allowed, the group is hierarchical or the item has
/// no parent.
pub proof fn lemma_flat_groups_have_no_parents(
    g: GroupView,
    i: ItemView,
    create: CreateMasterDataItemRequest,
    update: UpdateMasterDataItemRequest,
    now: i64,
)
    ensures
        !parent_refused(g, create.parent_id) ==> (g.is_hierarchical || new_item(
            g,
            create,
            now,
        ).parent_id is None),
        !parent_refused(g, update.parent_id) ==> (g.is_hierarchical || updated_item(
            i,
            update,
            now,
        ).parent_id is None),
        new_item(g, create, now).group_id == g.id,
        updated_item(i, update, now).group_id == i.group_id,
{
}

/// Applying the same update twice at the same time gives what applying it
/// once gives.
pub proof fn lemma_item_update_idempotent(i: ItemView, r: UpdateMasterDataItemRequest, now: i64)
    ensures
        updated_item(updated_item(i, r, now), r, now) == updated_item(i, r, now),
{
}

/// An item write that succeeds drops every cached option list of its group
/// and nothing on failure; the audit record of every item write reports
/// whether it succeeded.
pub proof fn lemma_item_writes_keep_cache_and_log(
    group_code: Seq<char>,
    item_id: u64,
    create: CreateMasterDataItemRequest,
    update: UpdateMasterDataItemRequest,
    created: Result<u64, ServiceError>,
    result: Result<(), ServiceError>,
    parent_id: Option<u64>,
    only_root: bool,
    actor_id: Option<u64>,
    ip_address: Option<Seq<char>>,
    user_agent: Option<Seq<char>>,
)
    ensures
        options_invalidation(group_code, true) == Invalidation::Prefix(options_prefix(group_code)),
        options_prefix(group_code).is_prefix_of(options_key(group_code, parent_id, only_root)),
        options_invalidation(group_code, false) == Invalidation::Nothing,
        create_item_audit(group_code, create, created, actor_id, ip_address, user_agent).is_success
            == created is Ok,
        update_item_audit(group_code, item_id, update, result, actor_id, ip_address, user_agent).is_success
            == result is Ok,
        delete_item_audit(group_code, item_id, result, actor_id, ip_address, user_agent).is_success
            == result is Ok,
{
    lemma_options_keys_under_prefix(group_code, parent_id, only_root);
}


/// Dropping the option lists of a group never drops a cached group: no
/// group key starts with an option prefix.
pub proof fn lemma_option_invalidation_spares_groups(group_code: Seq<char>, code: Seq<char>)
    ensures
        !options_prefix(group_code).is_prefix_of(group_key(code)),
{
    reveal_strlit("master_data:options:");
    reveal_strlit("master_data_group:code:");
    let p = options_prefix(group_code);
    let k = group_key(code);
    assert(p[11] == ':');
    assert(k[11] == '_');
    if p.is_prefix_of(k) {
        assert(k.subrange(0, p.len() as int)[11] == p[11]);
    }
}

/// An item list is sorted by the column that the filter names when it names
/// `code`, `name` or `sort_order` exactly, and by creation time otherwise,
/// in the direction that the filter asks for; sorting comes after the
/// group's conditions and before the page.
pub proof fn lemma_item_list_sorted_as_asked(f: MasterDataItemFilter)
    ensures
        ({
            let column = if f.sort_by@ == "code"@ || f.sort_by@ == "name"@ || f.sort_by@
                == "sort_order"@ {
                f.sort_by@
            } else {
                "created_at"@
            };
            list_items_text(f) == ITEM_LIST_SQL@ + seq!['?'] + item_filter_text(f) + " ORDER BY "@
                + column + " "@ + sort_direction(f.sort_type@) + " LIMIT "@ + seq!['?']
                + " OFFSET "@ + seq!['?']
        }),
        f.sort_by@ == "name"@ ==> item_sort_column(f.sort_by@) == "name"@,
{
    let column = if f.sort_by@ == "code"@ || f.sort_by@ == "name"@ || f.sort_by@ == "sort_order"@ {
        f.sort_by@
    } else {
        "created_at"@
    };
    assert(item_sort_column(f.sort_by@) == column);
    assert(list_items_text(f) =~= ITEM_LIST_SQL@ + seq!['?'] + item_filter_text(f) + " ORDER BY "@
        + column + " "@ + sort_direction(f.sort_type@) + " LIMIT "@ + seq!['?'] + " OFFSET "@
        + seq!['?']);
}

/// A new item carries every field of its creation request: parent, code,
/// name and metadata as given, the sort order and active flag as given or
/// 0 and active when left out; it belongs to the group it is created in, is
/// not yet stored (id 0), and is created and updated at `now`.
pub proof fn lemma_new_item_fields(g: GroupView, r: CreateMasterDataItemRequest, now: i64)
    ensures
        ({
            let i = new_item(g, r, now);
            &&& i.id == 0
            &&& i.group_id == g.id
            &&& i.parent_id == r.parent_id
            &&& i.code == r.code@
            &&& i.name == r.name@
            &&& i.metadata == r.metadata
            &&& (r.sort_order matches Some(s) ==> i.sort_order == s)
            &&& (r.sort_order is None ==> i.sort_order == 0)
            &&& (r.is_active matches Some(b) ==> i.is_active == b)
            &&& (r.is_active is None ==> i.is_active)
            &&& i.created_at == now
            &&& i.updated_at == now
        }),
{
}

/// An item update changes only what the request gives: each of name,
/// metadata, sort order and active flag takes the requested value when
/// given and keeps the stored value when left out; the parent always takes
/// the requested one (none moves the item to the top level); id, group,
/// code and creation time never change, and the update time becomes `now`.
pub proof fn lemma_item_update_fields(i: ItemView, r: UpdateMasterDataItemRequest, now: i64)
    ensures
        ({
            let u = updated_item(i, r, now);
            &&& u.id == i.id
            &&& u.group_id == i.group_id
            &&& u.code == i.code
            &&& u.created_at == i.created_at
            &&& u.updated_at == now
            &&& u.parent_id == r.parent_id
            &&& (r.name matches Some(n) ==> u.name == n@)
            &&& (r.name is None ==> u.name == i.name)
            &&& (r.metadata matches Some(m) ==> u.metadata == Some(m))
            &&& (r.metadata is None ==> u.metadata == i.metadata)
            &&& (r.sort_order matches Some(s) ==> u.sort_order == s)
            &&& (r.sort_order is None ==> u.sort_order == i.sort_order)
            &&& (r.is_active matches Some(b) ==> u.is_active == b)
            &&& (r.is_active is None ==> u.is_active == i.is_active)
        }),
{
}

} // verus!
