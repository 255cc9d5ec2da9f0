//! Master-data groups: validation of requests, the decisions of the group
//! service, the list and count queries, cache keys and audit records.
use vstd::prelude::*;
use crate::audit::{
    WriteCompletion, CacheInvalidation, Invalidation, MetaValue, AuditRecord, audit_record,
    make_record, entry, metadata1, metadata3, error_value, error_meta, opt_text_value,
    opt_text_meta, opt_bool_value, opt_bool_meta, AuditValue,
};
use crate::cache::{CacheRead, read_through};
use crate::clock::now_micros;
use crate::errors::{ServiceError, error_text};
use crate::sql::{
    SqlQuery, SqlValue, SqlArg, no_placeholder, like_pattern, make_like_pattern, sort_direction,
    choose_sort_direction, active_search, search_is_active, page_args, order_page_text,
    page_in_range, push_order_and_page, code_name_search_text, code_name_search_args,
    push_code_name_search,
};
use crate::text::{copy_string, copy_opt_string, opt_text, str_eq, u64_to_decimal, decimal};
use crate::validation::{
    FieldViolation, Violation, violations_of, length_rule, opt_length_rule, check_text_length,
    check_opt_text_length, into_result,
};

verus! {

/// How long a group read from the store stays in the cache, in seconds.
pub const MASTER_DATA_GROUP_TTL_SECS: u64 = 300;

/// Audit action of a group creation.
pub const MASTER_DATA_GROUP_CREATED: &'static str = "master_data_group.created";

/// Audit action of a group update.
pub const MASTER_DATA_GROUP_UPDATED: &'static str = "master_data_group.updated";

/// Audit action of a group deletion.
pub const MASTER_DATA_GROUP_DELETED: &'static str = "master_data_group.deleted";

/// The audit entity type of groups.
pub const GROUP_ENTITY: &'static str = "master_data_group";

/// A stored group.  Times are microseconds since the Unix epoch, UTC.
#[derive(Debug, Clone, PartialEq)]
pub struct MasterDataGroup {
    pub id: u64,
    pub code: String,
    pub name: String,
    pub description: Option<String>,
    pub is_hierarchical: bool,
    pub is_active: bool,
    pub created_at: i64,
    pub updated_at: i64,
}

/// The mathematical form of a group, and of its response.
pub struct GroupView {
    pub id: u64,
    pub code: Seq<char>,
    pub name: Seq<char>,
    pub description: Option<Seq<char>>,
    pub is_hierarchical: bool,
    pub is_active: bool,
    pub created_at: i64,
    pub updated_at: i64,
}

impl View for MasterDataGroup {
    type V = GroupView;

    open spec fn view(&self) -> GroupView {
        GroupView {
            id: self.id,
            code: self.code@,
            name: self.name@,
            description: opt_text(self.description),
            is_hierarchical: self.is_hierarchical,
            is_active: self.is_active,
            created_at: self.created_at,
            updated_at: self.updated_at,
        }
    }
}

/// A group as returned to clients.
#[derive(Debug, Clone, PartialEq)]
pub struct MasterDataGroupResponse {
    pub id: u64,
    pub code: String,
    pub name: String,
    pub description: Option<String>,
    pub is_hierarchical: bool,
    pub is_active: bool,
    pub created_at: i64,
    pub updated_at: i64,
}

impl View for MasterDataGroupResponse {
    type V = GroupView;

    open spec fn view(&self) -> GroupView {
        GroupView {
            id: self.id,
            code: self.code@,
            name: self.name@,
            description: opt_text(self.description),
            is_hierarchical: self.is_hierarchical,
            is_active: self.is_active,
            created_at: self.created_at,
            updated_at: self.updated_at,
        }
    }
}

/// One page of groups.
#[derive(Debug, Clone, PartialEq)]
pub struct MasterDataGroupListResponse {
    pub items: Vec<MasterDataGroupResponse>,
    pub page: u64,
    pub page_size: u64,
    pub total: u64,
}

/// One selectable item of a group.
#[derive(Debug, Clone, PartialEq)]
pub struct MasterDataOptionResponse {
    pub id: u64,
    pub code: String,
    pub name: String,
    pub parent_id: Option<u64>,
}

/// The selectable items of a group.
#[derive(Debug, Clone, PartialEq)]
pub struct MasterDataOptionListResponse {
    pub items: Vec<MasterDataOptionResponse>,
}

/// A request to create a group.
#[derive(Debug, Clone, PartialEq)]
pub struct CreateMasterDataGroupRequest {
    pub code: String,
    pub name: String,
    pub description: Option<String>,
    pub is_hierarchical: Option<bool>,
}

/// A request to change a group; absent fields keep their value.
#[derive(Debug, Clone, PartialEq)]
pub struct UpdateMasterDataGroupRequest {
    pub name: Option<String>,
    pub description: Option<String>,
    pub is_hierarchical: Option<bool>,
    pub is_active: Option<bool>,
}

/// A request for one page of groups.
#[derive(Debug, Clone, PartialEq)]
pub struct ListMasterDataGroupRequest {
    pub page: Option<u64>,
    pub page_size: Option<u64>,
    pub search: Option<String>,
    pub sort_by: Option<String>,
    pub sort_type: Option<String>,
}

/// The selection of a group list: page, optional search text, sort column
/// and direction as requested.
#[derive(Debug, Clone, PartialEq)]
pub struct MasterDataGroupFilter {
    pub page: u64,
    pub page_size: u64,
    pub search: Option<String>,
    pub sort_by: String,
    pub sort_type: String,
}


/// The group service over a group store, an item store, a cache and an
/// audit log.
pub struct DefaultMasterDataGroupService<R, I, C, A> {
    pub repository: R,
    pub item_repository: I,
    pub cache: C,
    pub audit_log_service: A,
}

impl<R, I, C, A> DefaultMasterDataGroupService<R, I, C, A> {
    /// A service over the given stores, cache and audit log.
    pub fn new(repository: R, item_repository: I, cache: C, audit_log_service: A) -> (s: Self)
        ensures
            s.repository == repository,
            s.item_repository == item_repository,
            s.cache == cache,
            s.audit_log_service == audit_log_service,
    {
        DefaultMasterDataGroupService { repository, item_repository, cache, audit_log_service }
    }
}

/// The length rules of a group creation, in field order.
pub open spec fn create_group_violations(r: CreateMasterDataGroupRequest) -> Seq<Violation> {
    length_rule("code"@, r.code@.len(), 1, 50, Some("Code must be between 1 and 50 characters"@))
        + length_rule(
        "name"@,
        r.name@.len(),
        1,
        150,
        Some("Name must be between 1 and 150 characters"@),
    ) + opt_length_rule(
        "description"@,
        opt_text(r.description),
        0,
        255,
        Some("Description must not exceed 255 characters"@),
    )
}

/// The length rules of a group update, in field order.
pub open spec fn update_group_violations(r: UpdateMasterDataGroupRequest) -> Seq<Violation> {
    opt_length_rule(
        "name"@,
        opt_text(r.name),
        1,
        150,
        Some("Name must be between 1 and 150 characters"@),
    ) + opt_length_rule(
        "description"@,
        opt_text(r.description),
        0,
        255,
        Some("Description must not exceed 255 characters"@),
    )
}

impl CreateMasterDataGroupRequest {
    /// The fields that the request body must carry.
    pub fn required_fields() -> (f: Vec<&'static str>)
        ensures
            f@.len() == 2,
            f@[0]@ == "code"@,
            f@[1]@ == "name"@,
    {
        let mut f = Vec::new();
        f.push("code");
        f.push("name");
        f
    }

    /// Checks the length rules; `Err` lists every broken rule.
    pub fn validate(&self) -> (r: Result<(), Vec<FieldViolation>>)
        ensures
            r is Ok <==> create_group_violations(*self).len() == 0,
            r matches Err(v) ==> violations_of(v@) == create_group_violations(*self),
    {
        let mut out: Vec<FieldViolation> = Vec::new();
        assert(violations_of(out@) =~= Seq::<Violation>::empty());
        check_text_length(&mut out, "code", self.code.as_str(), 1, 50, Some("Code must be between 1 and 50 characters"));
        check_text_length(&mut out, "name", self.name.as_str(), 1, 150, Some("Name must be between 1 and 150 characters"));
        check_opt_text_length(&mut out, "description", &self.description, 0, 255, Some("Description must not exceed 255 characters"));
        assert(violations_of(out@) =~= create_group_violations(*self));
        into_result(out)
    }
}

impl UpdateMasterDataGroupRequest {
    /// The fields that the request body must carry: none.
    pub fn required_fields() -> (f: Vec<&'static str>)
        ensures
            f@.len() == 0,
    {
        Vec::new()
    }

    /// Checks the length rules; `Err` lists every broken rule.
    pub fn validate(&self) -> (r: Result<(), Vec<FieldViolation>>)
        ensures
            r is Ok <==> update_group_violations(*self).len() == 0,
            r matches Err(v) ==> violations_of(v@) == update_group_violations(*self),
    {
        let mut out: Vec<FieldViolation> = Vec::new();
        assert(violations_of(out@) =~= Seq::<Violation>::empty());
        check_opt_text_length(&mut out, "name", &self.name, 1, 150, Some("Name must be between 1 and 150 characters"));
        check_opt_text_length(&mut out, "description", &self.description, 0, 255, Some("Description must not exceed 255 characters"));
        assert(violations_of(out@) =~= update_group_violations(*self));
        into_result(out)
    }
}

/// The cache key of the group with code `code`.
pub open spec fn group_key(code: Seq<char>) -> Seq<char> {
    "master_data_group:code:"@ + code
}

/// The cache key of the group with code `code`.
pub fn group_cache_key(code: &str) -> (k: String)
    ensures
        k@ == group_key(code@),
{
    String::from_str("master_data_group:code:").concat(code)
}

/// The step a lookup of the group with code `code` takes once the cache has
/// answered with `cached`: a cached group is used as it is; otherwise the
/// group is loaded from the store and, when found, cached under its key for
/// `MASTER_DATA_GROUP_TTL_SECS` seconds.
pub fn group_read(code: &str, cached: Option<MasterDataGroup>) -> (r: CacheRead<MasterDataGroup>)
    ensures
        match cached {
            Some(g) => r == CacheRead::<MasterDataGroup>::Hit(g),
            None => r matches CacheRead::Miss { key, ttl_secs } && key@ == group_key(code@)
                && ttl_secs == MASTER_DATA_GROUP_TTL_SECS,
        },
{
    read_through(group_cache_key(code), MASTER_DATA_GROUP_TTL_SECS, cached)
}

/// The group that a creation request asks for, created at `now`: not yet
/// stored (id 0), active, flat unless requested otherwise.
pub open spec fn new_group(r: CreateMasterDataGroupRequest, now: i64) -> GroupView {
    GroupView {
        id: 0,
        code: r.code@,
        name: r.name@,
        description: opt_text(r.description),
        is_hierarchical: match r.is_hierarchical {
            Some(b) => b,
            None => false,
        },
        is_active: true,
        created_at: now,
        updated_at: now,
    }
}

/// The group that a creation request asks for, created at `now`.
pub fn make_new_group(request: &CreateMasterDataGroupRequest, now: i64) -> (g: MasterDataGroup)
    ensures
        g@ == new_group(*request, now),
{
    MasterDataGroup {
        id: 0,
        code: copy_string(&request.code),
        name: copy_string(&request.name),
        description: copy_opt_string(&request.description),
        is_hierarchical: match request.is_hierarchical {
            Some(b) => b,
            None => false,
        },
        is_active: true,
        created_at: now,
        updated_at: now,
    }
}

/// Decides a group creation from whether the store holds the code already
/// and the clock reading `now`: a taken code is refused, then a missing
/// reading; otherwise the group to insert, stamped with `now`.
pub fn plan_create_group_at(
    request: &CreateMasterDataGroupRequest,
    code_exists: bool,
    now: Option<i64>,
) -> (r: Result<MasterDataGroup, ServiceError>)
    ensures
        code_exists ==> r == Err::<MasterDataGroup, ServiceError>(ServiceError::GroupCodeExists),
        !code_exists && now is None ==> r == Err::<MasterDataGroup, ServiceError>(
            ServiceError::ClockUnavailable,
        ),
        !code_exists && now is Some ==> (r matches Ok(g) && g@ == new_group(*request, now->0)),
{
    if code_exists {
        return Err(ServiceError::GroupCodeExists);
    }
    match now {
        Some(t) => Ok(make_new_group(request, t)),
        None => Err(ServiceError::ClockUnavailable),
    }
}

/// Decides a group creation once the store has said whether the code is
/// taken, at the current time: what `plan_create_group_at` decides for the
/// clock's reading, which is `None` when the clock gives no usable time.
pub fn plan_create_group(request: &CreateMasterDataGroupRequest, code_exists: bool) -> (r: Result<
    MasterDataGroup,
    ServiceError,
>)
    ensures
        code_exists ==> r == Err::<MasterDataGroup, ServiceError>(ServiceError::GroupCodeExists),
        !code_exists ==> (r is Ok || r == Err::<MasterDataGroup, ServiceError>(
            ServiceError::ClockUnavailable,
        )),
        r matches Ok(g) ==> g@ == new_group(*request, g.created_at) && g.created_at >= 0,
{
    plan_create_group_at(request, code_exists, now_micros())
}

/// The group that a lookup by `code` found, or `GroupNotFound`.
pub fn found_group(code: &str, found: Option<MasterDataGroup>) -> (r: Result<
    MasterDataGroup,
    ServiceError,
>)
    ensures
        match found {
            Some(g) => r == Ok::<MasterDataGroup, ServiceError>(g),
            None => r matches Err(ServiceError::GroupNotFound { code: c }) && c@ == code@,
        },
{
    match found {
        Some(g) => Ok(g),
        None => Err(ServiceError::GroupNotFound { code: String::from_str(code) }),
    }
}

/// `g` changed by an update request at `now`: each field given replaces the
/// stored one, the others stay.
pub open spec fn updated_group(g: GroupView, r: UpdateMasterDataGroupRequest, now: i64) -> GroupView {
    GroupView {
        id: g.id,
        code: g.code,
        name: match r.name {
            Some(n) => n@,
            None => g.name,
        },
        description: match r.description {
            Some(d) => Some(d@),
            None => g.description,
        },
        is_hierarchical: match r.is_hierarchical {
            Some(b) => b,
            None => g.is_hierarchical,
        },
        is_active: match r.is_active {
            Some(b) => b,
            None => g.is_active,
        },
        created_at: g.created_at,
        updated_at: now,
    }
}

/// Applies an update request to a group at `now`.
pub fn apply_group_update(group: MasterDataGroup, request: &UpdateMasterDataGroupRequest, now: i64) -> (g: MasterDataGroup)
    ensures
        g@ == updated_group(group@, *request, now),
{
    let MasterDataGroup { id, code, name, description, is_hierarchical, is_active, created_at, updated_at: _ } = group;
    MasterDataGroup {
        id,
        code,
        name: match &request.name {
            Some(n) => copy_string(n),
            None => name,
        },
        description: match &request.description {
            Some(d) => Some(copy_string(d)),
            None => description,
        },
        is_hierarchical: match request.is_hierarchical {
            Some(b) => b,
            None => is_hierarchical,
        },
        is_active: match request.is_active {
            Some(b) => b,
            None => is_active,
        },
        created_at,
        updated_at: now,
    }
}

/// Decides a group update once the group has been found, at the clock
/// reading `now`: the group to store, stamped with `now`, or
/// `ClockUnavailable` for a missing reading.
pub fn plan_update_group_at(
    group: MasterDataGroup,
    request: &UpdateMasterDataGroupRequest,
    now: Option<i64>,
) -> (r: Result<MasterDataGroup, ServiceError>)
    ensures
        now is None ==> r == Err::<MasterDataGroup, ServiceError>(ServiceError::ClockUnavailable),
        now is Some ==> (r matches Ok(g) && g@ == updated_group(group@, *request, now->0)),
{
    match now {
        Some(t) => Ok(apply_group_update(group, request, t)),
        None => Err(ServiceError::ClockUnavailable),
    }
}

/// Decides a group update once the group has been found, at the current
/// time: what `plan_update_group_at` decides for the clock's reading.
pub fn plan_update_group(group: MasterDataGroup, request: &UpdateMasterDataGroupRequest) -> (r:
    Result<MasterDataGroup, ServiceError>)
    ensures
        r is Ok || r == Err::<MasterDataGroup, ServiceError>(ServiceError::ClockUnavailable),
        r matches Ok(g) ==> g@ == updated_group(group@, *request, g.updated_at) && g.updated_at
            >= 0,
{
    plan_update_group_at(group, request, now_micros())
}

/// Decides a group deletion once the group found for `code` has had its
/// live items counted: a group that still holds items is kept, and the
/// refusal names the code that was asked for; otherwise the id to delete.
pub fn plan_delete_group(code: &str, group: &MasterDataGroup, item_count: u64) -> (r: Result<
    u64,
    ServiceError,
>)
    ensures
        r is Err <==> item_count > 0,
        r matches Ok(id) ==> id == group.id,
        r matches Err(e) ==> (e matches ServiceError::GroupHasItems { code: c, item_count: n }
            && c@ == code@ && n == item_count),
{
    if item_count > 0 {
        return Err(ServiceError::GroupHasItems { code: String::from_str(code), item_count });
    }
    Ok(group.id)
}

/// A group as returned to clients.
pub fn map_group(group: MasterDataGroup) -> (r: MasterDataGroupResponse)
    ensures
        r@ == group@,
{
    MasterDataGroupResponse {
        id: group.id,
        code: group.code,
        name: group.name,
        description: group.description,
        is_hierarchical: group.is_hierarchical,
        is_active: group.is_active,
        created_at: group.created_at,
        updated_at: group.updated_at,
    }
}

/// The record of a group creation that ended with `result`.
pub open spec fn create_group_audit(
    request: CreateMasterDataGroupRequest,
    result: Result<u64, ServiceError>,
    actor_id: Option<u64>,
    ip_address: Option<Seq<char>>,
    user_agent: Option<Seq<char>>,
) -> AuditRecord {
    audit_record(
        actor_id,
        MASTER_DATA_GROUP_CREATED@,
        GROUP_ENTITY@,
        match result {
            Ok(id) => Some(decimal(id as nat)),
            Err(_) => None,
        },
        result is Ok,
        ip_address,
        user_agent,
        Some(
            seq![
                ("code"@, MetaValue::Text(request.code@)),
                ("name"@, MetaValue::Text(request.name@)),
                ("error"@, error_meta(result)),
            ],
        ),
    )
}

/// What a finished group creation asks: no cache change, and its audit
/// record.
pub fn complete_create_group(
    request: &CreateMasterDataGroupRequest,
    result: &Result<u64, ServiceError>,
    actor_id: Option<u64>,
    ip_address: Option<String>,
    user_agent: Option<String>,
) -> (c: WriteCompletion)
    ensures
        c.invalidate@ == Invalidation::Nothing,
        c.audit@ == create_group_audit(
            *request,
            *result,
            actor_id,
            opt_text(ip_address),
            opt_text(user_agent),
        ),
{
    let entity_id = match result {
        Ok(id) => Some(u64_to_decimal(*id)),
        Err(_) => None,
    };
    let meta = metadata3(
        entry("code", AuditValue::Text(copy_string(&request.code))),
        entry("name", AuditValue::Text(copy_string(&request.name))),
        entry("error", error_value(result)),
    );
    let audit = make_record(
        actor_id,
        MASTER_DATA_GROUP_CREATED,
        GROUP_ENTITY,
        entity_id,
        result.is_ok(),
        ip_address,
        user_agent,
        Some(meta),
    );
    WriteCompletion { invalidate: CacheInvalidation::Nothing, audit }
}

/// The cache entry dropped after a write to the group `code` that ended with
/// `ok`: the group's entry on success, none on failure.
pub open spec fn group_invalidation(code: Seq<char>, ok: bool) -> Invalidation {
    if ok {
        Invalidation::Key(group_key(code))
    } else {
        Invalidation::Nothing
    }
}

fn invalidate_group_if(code: &str, ok: bool) -> (c: CacheInvalidation)
    ensures
        c@ == group_invalidation(code@, ok),
{
    if ok {
        CacheInvalidation::Key(group_cache_key(code))
    } else {
        CacheInvalidation::Nothing
    }
}

/// The record of an update of group `code` that ended with `result`.
pub open spec fn update_group_audit(
    code: Seq<char>,
    request: UpdateMasterDataGroupRequest,
    result: Result<(), ServiceError>,
    actor_id: Option<u64>,
    ip_address: Option<Seq<char>>,
    user_agent: Option<Seq<char>>,
) -> AuditRecord {
    audit_record(
        actor_id,
        MASTER_DATA_GROUP_UPDATED@,
        GROUP_ENTITY@,
        Some(code),
        result is Ok,
        ip_address,
        user_agent,
        Some(
            seq![
                ("name"@, opt_text_meta(opt_text(request.name))),
                ("is_active"@, opt_bool_meta(request.is_active)),
                ("error"@, error_meta(result)),
            ],
        ),
    )
}

/// What a finished update of group `code` asks: on success the group's cache
/// entry is dropped; and its audit record.
pub fn complete_update_group(
    code: &str,
    request: &UpdateMasterDataGroupRequest,
    result: &Result<(), ServiceError>,
    actor_id: Option<u64>,
    ip_address: Option<String>,
    user_agent: Option<String>,
) -> (c: WriteCompletion)
    ensures
        c.invalidate@ == group_invalidation(code@, result is Ok),
        c.audit@ == update_group_audit(
            code@,
            *request,
            *result,
            actor_id,
            opt_text(ip_address),
            opt_text(user_agent),
        ),
{
    let meta = metadata3(
        entry("name", opt_text_value(&request.name)),
        entry("is_active", opt_bool_value(request.is_active)),
        entry("error", error_value(result)),
    );
    let audit = make_record(
        actor_id,
        MASTER_DATA_GROUP_UPDATED,
        GROUP_ENTITY,
        Some(String::from_str(code)),
        result.is_ok(),
        ip_address,
        user_agent,
        Some(meta),
    );
    WriteCompletion { invalidate: invalidate_group_if(code, result.is_ok()), audit }
}

/// The record of a deletion of group `code` that ended with `result`: only
/// a failure carries metadata, its error.
pub open spec fn delete_group_audit(
    code: Seq<char>,
    result: Result<(), ServiceError>,
    actor_id: Option<u64>,
    ip_address: Option<Seq<char>>,
    user_agent: Option<Seq<char>>,
) -> AuditRecord {
    audit_record(
        actor_id,
        MASTER_DATA_GROUP_DELETED@,
        GROUP_ENTITY@,
        Some(code),
        result is Ok,
        ip_address,
        user_agent,
        match result {
            Ok(_) => None,
            Err(e) => Some(seq![("error"@, MetaValue::Text(error_text(e)))]),
        },
    )
}

/// What a finished deletion of group `code` asks: on success the group's
/// cache entry is dropped; and its audit record.
pub fn complete_delete_group(
    code: &str,
    result: &Result<(), ServiceError>,
    actor_id: Option<u64>,
    ip_address: Option<String>,
    user_agent: Option<String>,
) -> (c: WriteCompletion)
    ensures
        c.invalidate@ == group_invalidation(code@, result is Ok),
        c.audit@ == delete_group_audit(
            code@,
            *result,
            actor_id,
            opt_text(ip_address),
            opt_text(user_agent),
        ),
{
    let meta = match result {
        Ok(_) => None,
        Err(e) => Some(metadata1(entry("error", AuditValue::Text(e.message())))),
    };
    let audit = make_record(
        actor_id,
        MASTER_DATA_GROUP_DELETED,
        GROUP_ENTITY,
        Some(String::from_str(code)),
        result.is_ok(),
        ip_address,
        user_agent,
        meta,
    );
    WriteCompletion { invalidate: invalidate_group_if(code, result.is_ok()), audit }
}

/// The filter that a list request asks for: page 1 and 10 rows unless given,
/// newest first unless a sort is given.
pub fn group_filter(request: ListMasterDataGroupRequest) -> (f: MasterDataGroupFilter)
    ensures
        f.page == (match request.page {
            Some(p) => p,
            None => 1,
        }),
        f.page_size == (match request.page_size {
            Some(p) => p,
            None => 10,
        }),
        opt_text(f.search) == opt_text(request.search),
        f.sort_by@ == (match request.sort_by {
            Some(s) => s@,
            None => "created_at"@,
        }),
        f.sort_type@ == (match request.sort_type {
            Some(s) => s@,
            None => "DESC"@,
        }),
{
    let ListMasterDataGroupRequest { page, page_size, search, sort_by, sort_type } = request;
    MasterDataGroupFilter {
        page: match page {
            Some(p) => p,
            None => 1,
        },
        page_size: match page_size {
            Some(p) => p,
            None => 10,
        },
        search,
        sort_by: match sort_by {
            Some(s) => s,
            None => String::from_str("created_at"),
        },
        sort_type: match sort_type {
            Some(s) => s,
            None => String::from_str("DESC"),
        },
    }
}

/// The start of the group list query.
pub const GROUP_LIST_SQL: &'static str = "\n            SELECT id, code, name, description, is_hierarchical, is_active, created_at, updated_at\n            FROM master_data_groups\n            WHERE delete_marker IS NULL\n            ";

/// The start of the group count query.
pub const GROUP_COUNT_SQL: &'static str = "SELECT COUNT(*) FROM master_data_groups WHERE delete_marker IS NULL";

/// Appends the search condition on groups (code or name contains the text),
/// if the search text is active.
pub fn push_group_search(q: &mut SqlQuery, search: &Option<String>)
    ensures
        final(q).text() == old(q).text() + code_name_search_text(opt_text(*search)),
        final(q).args() == old(q).args() + code_name_search_args(opt_text(*search)),
        old(q).well_formed() ==> final(q).well_formed(),
{
    push_code_name_search(q, search)
}

/// The column that a group list is sorted by: `code` or `name` when asked
/// for exactly, the creation time otherwise.
pub open spec fn group_sort_column(sort_by: Seq<char>) -> Seq<char> {
    if sort_by == "code"@ {
        "code"@
    } else if sort_by == "name"@ {
        "name"@
    } else {
        "created_at"@
    }
}

fn choose_group_sort_column(sort_by: &str) -> (c: &'static str)
    ensures
        c@ == group_sort_column(sort_by@),
        no_placeholder(c@),
{
    proof {
        reveal_strlit("code");
        reveal_strlit("name");
        reveal_strlit("created_at");
    }
    if str_eq(sort_by, "code") {
        "code"
    } else if str_eq(sort_by, "name") {
        "name"
    } else {
        "created_at"
    }
}

/// The text of the query for one page of groups.
pub open spec fn list_groups_text(f: MasterDataGroupFilter) -> Seq<char> {
    GROUP_LIST_SQL@ + code_name_search_text(opt_text(f.search)) + order_page_text(
        group_sort_column(f.sort_by@),
        sort_direction(f.sort_type@),
    )
}

/// The values bound by the query for one page of groups.
pub open spec fn list_groups_args(f: MasterDataGroupFilter) -> Seq<SqlArg> {
    code_name_search_args(opt_text(f.search)) + page_args(f.page, f.page_size)
}

/// The query for one page of live groups.
pub fn list_groups_query(filter: &MasterDataGroupFilter) -> (q: SqlQuery)
    requires
        page_in_range(filter.page, filter.page_size),
    ensures
        q.text() == list_groups_text(*filter),
        q.args() == list_groups_args(*filter),
        q.well_formed(),
{
    proof {
        reveal_strlit("\n            SELECT id, code, name, description, is_hierarchical, is_active, created_at, updated_at\n            FROM master_data_groups\n            WHERE delete_marker IS NULL\n            ");
    }
    let mut q = SqlQuery::new(GROUP_LIST_SQL);
    push_group_search(&mut q, &filter.search);
    let column = choose_group_sort_column(filter.sort_by.as_str());
    let direction = choose_sort_direction(filter.sort_type.as_str());
    push_order_and_page(&mut q, column, direction, filter.page, filter.page_size);
    assert(q.text() =~= list_groups_text(*filter));
    assert(q.args() =~= list_groups_args(*filter));
    q
}

/// The text of the query counting the groups that a filter selects.
pub open spec fn count_groups_text(f: MasterDataGroupFilter) -> Seq<char> {
    GROUP_COUNT_SQL@ + code_name_search_text(opt_text(f.search))
}

/// The values bound by the query counting the groups that a filter selects.
pub open spec fn count_groups_args(f: MasterDataGroupFilter) -> Seq<SqlArg> {
    code_name_search_args(opt_text(f.search))
}

/// The query counting the live groups that a filter selects, over all pages.
pub fn count_groups_query(filter: &MasterDataGroupFilter) -> (q: SqlQuery)
    ensures
        q.text() == count_groups_text(*filter),
        q.args() == count_groups_args(*filter),
        q.well_formed(),
{
    proof {
        reveal_strlit("SELECT COUNT(*) FROM master_data_groups WHERE delete_marker IS NULL");
    }
    let mut q = SqlQuery::new(GROUP_COUNT_SQL);
    push_group_search(&mut q, &filter.search);
    assert(q.args() =~= code_name_search_args(opt_text(filter.search)));
    q
}

/// The page of groups returned for `filter`, holding `groups` as responses,
/// in order, and the total count.
pub fn group_list_response(groups: Vec<MasterDataGroup>, filter: &MasterDataGroupFilter, total: u64) -> (r: MasterDataGroupListResponse)
    ensures
        r.items@.len() == groups@.len(),
        forall|i: int| 0 <= i < groups@.len() ==> #[trigger] r.items@[i]@ == groups@[i]@,
        r.page == filter.page,
        r.page_size == filter.page_size,
        r.total == total,
{
    let mut items: Vec<MasterDataGroupResponse> = Vec::new();
    let mut rest = groups;
    let ghost orig = rest@;
    while rest.len() > 0
        invariant
            items@.len() + rest@.len() == orig.len(),
            rest@ == orig.skip(items@.len() as int),
            forall|i: int| 0 <= i < items@.len() ==> #[trigger] items@[i]@ == orig[i]@,
        decreases rest@.len(),
    {
        let ghost k = items@.len() as int;
        let g = rest.remove(0);
        assert(g == orig[k]);
        items.push(map_group(g));
        assert(rest@ =~= orig.skip(items@.len() as int));
    }
    MasterDataGroupListResponse { items, page: filter.page, page_size: filter.page_size, total }
}


/// The sort column of a group list is always one of `code`, `name` and
/// `created_at`, and the search text never enters the query text: two
/// filters that differ only in their search text, both active or both
/// inactive, give the same text.
pub proof fn lemma_group_list_text_fixed(f1: MasterDataGroupFilter, f2: MasterDataGroupFilter)
    requires
        f1.sort_by@ == f2.sort_by@,
        f1.sort_type@ == f2.sort_type@,
        active_search(opt_text(f1.search)) == active_search(opt_text(f2.search)),
    ensures
        list_groups_text(f1) == list_groups_text(f2),
        ({
            let c = group_sort_column(f1.sort_by@);
            c == "code"@ || c == "name"@ || c == "created_at"@
        }),
{
}

/// The count of a group list is taken over the same condition and values
/// as its pages: both queries share the text after their start and the
/// values before the paging values.
pub proof fn lemma_group_count_matches_list(f: MasterDataGroupFilter)
    ensures
        ({
            let w = code_name_search_text(opt_text(f.search));
            &&& count_groups_text(f) == GROUP_COUNT_SQL@ + w
            &&& list_groups_text(f) == GROUP_LIST_SQL@ + w + order_page_text(
                group_sort_column(f.sort_by@),
                sort_direction(f.sort_type@),
            )
            &&& list_groups_args(f) == count_groups_args(f) + page_args(f.page, f.page_size)
        }),
{
}

/// An update request with no field leaves a group as it was, but for its
/// update time.
pub proof fn lemma_empty_group_update(g: GroupView, now: i64)
    ensures
        updated_group(
            g,
            UpdateMasterDataGroupRequest {
                name: None,
                description: None,
                is_hierarchical: None,
                is_active: None,
            },
            now,
        ) == (GroupView { updated_at: now, ..g }),
{
}

/// Applying the same update twice at the same time gives what applying it
/// once gives.
pub proof fn lemma_group_update_idempotent(g: GroupView, r: UpdateMasterDataGroupRequest, now: i64)
    ensures
        updated_group(updated_group(g, r, now), r, now) == updated_group(g, r, now),
{
}

/// A write to a group that succeeds drops exactly the cache entry under
/// which the group is kept; a failed one drops nothing.  The audit record
/// of every group write reports whether it succeeded.
pub proof fn lemma_group_writes_keep_cache_and_log(
    code: Seq<char>,
    create: CreateMasterDataGroupRequest,
    update: UpdateMasterDataGroupRequest,
    created: Result<u64, ServiceError>,
    result: Result<(), ServiceError>,
    actor_id: Option<u64>,
    ip_address: Option<Seq<char>>,
    user_agent: Option<Seq<char>>,
)
    ensures
        group_invalidation(code, true) == Invalidation::Key(group_key(code)),
        group_invalidation(code, false) == Invalidation::Nothing,
        create_group_audit(create, created, actor_id, ip_address, user_agent).is_success
            == created is Ok,
        update_group_audit(code, update, result, actor_id, ip_address, user_agent).is_success
            == result is Ok,
        delete_group_audit(code, result, actor_id, ip_address, user_agent).is_success
            == result is Ok,
        create_group_audit(create, created, actor_id, ip_address, user_agent).actor_id == actor_id,
        update_group_audit(code, update, result, actor_id, ip_address, user_agent).entity_id
            == Some(code),
        delete_group_audit(code, result, actor_id, ip_address, user_agent).entity_id
            == Some(code),
{
}

/// A group list is sorted by the column that the filter names when it names
/// `code` or `name` exactly, and by creation time otherwise, in the
/// direction that the filter asks for; sorting comes after the search and
/// before the page.
pub proof fn lemma_group_list_sorted_as_asked(f: MasterDataGroupFilter)
    ensures
        ({
            let column = if f.sort_by@ == "code"@ || f.sort_by@ == "name"@ {
                f.sort_by@
            } else {
                "created_at"@
            };
            list_groups_text(f) == GROUP_LIST_SQL@ + code_name_search_text(opt_text(f.search))
                + " ORDER BY "@ + column + " "@ + sort_direction(f.sort_type@) + " LIMIT "@
                + seq!['?'] + " OFFSET "@ + seq!['?']
        }),
        f.sort_by@ == "name"@ ==> group_sort_column(f.sort_by@) == "name"@,
{
    let column = if f.sort_by@ == "code"@ || f.sort_by@ == "name"@ {
        f.sort_by@
    } else {
        "created_at"@
    };
    assert(group_sort_column(f.sort_by@) == column);
    assert(list_groups_text(f) =~= GROUP_LIST_SQL@ + code_name_search_text(opt_text(f.search))
        + " ORDER BY "@ + column + " "@ + sort_direction(f.sort_type@) + " LIMIT "@ + seq!['?']
        + " OFFSET "@ + seq!['?']);
}

/// A new group carries every field of its creation request: code, name and
/// description as given, hierarchical only when asked; it is active, not yet
/// stored (id 0), and created and updated at `now`.
pub proof fn lemma_new_group_fields(r: CreateMasterDataGroupRequest, now: i64)
    ensures
        ({
            let g = new_group(r, now);
            &&& g.id == 0
            &&& g.code == r.code@
            &&& g.name == r.name@
            &&& g.description == opt_text(r.description)
            &&& (r.is_hierarchical matches Some(b) ==> g.is_hierarchical == b)
            &&& (r.is_hierarchical is None ==> !g.is_hierarchical)
            &&& g.is_active
            &&& g.created_at == now
            &&& g.updated_at == now
        }),
{
}

/// A group update changes only what the request gives: each of name,
/// description, hierarchy and active flag takes the requested value when
/// given and keeps the stored value when left out; id, code and creation
/// time never change, and the update time becomes `now`.
pub proof fn lemma_group_update_fields(g: GroupView, r: UpdateMasterDataGroupRequest, now: i64)
    ensures
        ({
            let u = updated_group(g, r, now);
            &&& u.id == g.id
            &&& u.code == g.code
            &&& u.created_at == g.created_at
            &&& u.updated_at == now
            &&& (r.name matches Some(n) ==> u.name == n@)
            &&& (r.name is None ==> u.name == g.name)
            &&& (r.description matches Some(d) ==> u.description == Some(d@))
            &&& (r.description is None ==> u.description == g.description)
            &&& (r.is_hierarchical matches Some(b) ==> u.is_hierarchical == b)
            &&& (r.is_hierarchical is None ==> u.is_hierarchical == g.is_hierarchical)
            &&& (r.is_active matches Some(b) ==> u.is_active == b)
            &&& (r.is_active is None ==> u.is_active == g.is_active)
        }),
{
}

} // verus!
