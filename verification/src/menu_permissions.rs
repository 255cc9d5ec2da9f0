//! Links between menu entries and permissions: validation of assignment
//! requests, the service's audit records and responses.
use vstd::prelude::*;
use crate::audit::{
    RecordAuditLogInput, MetaValue, AuditRecord, audit_record, make_record, entry, metadata1,
    metadata2, error_value, error_meta, AuditValue,
};
use crate::errors::{ServiceError, error_text};
use crate::text::{u64_to_decimal, decimal};
use crate::validation::{FieldViolation, Violation, violations_of, length_rule, check_length, into_result};

verus! {

/// Audit action of a permission assignment to a menu entry.
pub const MENU_PERMISSION_ASSIGNED: &'static str = "menu_permission.assigned";

/// Audit action of a permission revocation from a menu entry.
pub const MENU_PERMISSION_REVOKED: &'static str = "menu_permission.revoked";

/// The audit entity type under which menu permission changes are recorded.
pub const MENU_PERMISSION_ENTITY: &'static str = "role";

/// A request to link permissions to a menu entry.
#[derive(Debug, Clone, PartialEq)]
pub struct AssignMenuPermissionRequest {
    pub permission_ids: Vec<u64>,
}

/// A stored link between a menu entry and a permission.
#[derive(Debug, Clone, PartialEq)]
pub struct MenuPermission {
    pub menu_id: u64,
    pub permission_id: u64,
}

/// A link between a menu entry and a permission, as returned to clients.
#[derive(Debug, Clone, PartialEq)]
pub struct MenuPermissionResponse {
    pub menu_id: u64,
    pub permission_id: u64,
}

/// The length rule of an assignment: at least one permission.
pub open spec fn assign_violations(r: AssignMenuPermissionRequest) -> Seq<Violation> {
    length_rule("permission_ids"@, r.permission_ids@.len(), 1, usize::MAX as nat, None)
}

impl AssignMenuPermissionRequest {
    /// The fields that the request body must carry.
    pub fn required_fields() -> (f: Vec<&'static str>)
        ensures
            f@.len() == 1,
            f@[0]@ == "permission_ids"@,
    {
        let mut f = Vec::new();
        f.push("permission_ids");
        f
    }

    /// Checks the length rule; `Err` names the broken rule.
    pub fn validate(&self) -> (r: Result<(), Vec<FieldViolation>>)
        ensures
            r is Ok <==> self.permission_ids@.len() >= 1,
            r matches Err(v) ==> violations_of(v@) == assign_violations(*self),
    {
        let mut out: Vec<FieldViolation> = Vec::new();
        assert(violations_of(out@) =~= Seq::<Violation>::empty());
        check_length(&mut out, "permission_ids", self.permission_ids.len(), 1, usize::MAX, None);
        assert(violations_of(out@) =~= assign_violations(*self));
        into_result(out)
    }
}

/// The menu permission service over a store of links and an audit log.
pub struct DefaultMenuPermissionService<R, A> {
    pub repository: R,
    pub audit_log_service: A,
}

impl<R, A> DefaultMenuPermissionService<R, A> {
    /// A service over `repository` that records to `audit_log_service`.
    pub fn new(repository: R, audit_log_service: A) -> (s: Self)
        ensures
            s.repository == repository,
            s.audit_log_service == audit_log_service,
    {
        DefaultMenuPermissionService { repository, audit_log_service }
    }
}

/// The record of an assignment of permissions to menu entry `menu_id` that
/// ended with `result`.
pub open spec fn assign_audit(
    menu_id: u64,
    request: AssignMenuPermissionRequest,
    result: Result<(), ServiceError>,
    actor_id: Option<u64>,
    ip_address: Option<Seq<char>>,
    user_agent: Option<Seq<char>>,
) -> AuditRecord {
    audit_record(
        actor_id,
        MENU_PERMISSION_ASSIGNED@,
        MENU_PERMISSION_ENTITY@,
        Some(decimal(menu_id as nat)),
        result is Ok,
        ip_address,
        user_agent,
        Some(
            seq![
                ("permission_ids"@, MetaValue::U64List(request.permission_ids@)),
                ("error"@, error_meta(result)),
            ],
        ),
    )
}

fn copy_ids(v: &Vec<u64>) -> (r: Vec<u64>)
    ensures
        r@ == v@,
{
    let mut r: Vec<u64> = Vec::new();
    let mut i: usize = 0;
    while i < v.len()
        invariant
            i <= v@.len(),
            r@ == v@.take(i as int),
        decreases v@.len() - i,
    {
        r.push(v[i]);
        i = i + 1;
        assert(r@ =~= v@.take(i as int));
    }
    assert(v@.take(v@.len() as int) =~= v@);
    r
}

/// The audit record of a finished assignment of permissions to menu entry
/// `menu_id`.
pub fn complete_assign(
    menu_id: u64,
    request: &AssignMenuPermissionRequest,
    result: &Result<(), ServiceError>,
    actor_id: Option<u64>,
    ip_address: Option<String>,
    user_agent: Option<String>,
) -> (r: RecordAuditLogInput)
    ensures
        r@ == assign_audit(
            menu_id,
            *request,
            *result,
            actor_id,
            crate::text::opt_text(ip_address),
            crate::text::opt_text(user_agent),
        ),
{
    let meta = metadata2(
        entry("permission_ids", AuditValue::U64List(copy_ids(&request.permission_ids))),
        entry("error", error_value(result)),
    );
    make_record(
        actor_id,
        MENU_PERMISSION_ASSIGNED,
        MENU_PERMISSION_ENTITY,
        Some(u64_to_decimal(menu_id)),
        result.is_ok(),
        ip_address,
        user_agent,
        Some(meta),
    )
}

/// The entity id recorded for a revocation: `role:<menu> permission:<id>`.
pub open spec fn revoke_entity(menu_id: u64, permission_id: u64) -> Seq<char> {
    "role:"@ + decimal(menu_id as nat) + " permission:"@ + decimal(permission_id as nat)
}

/// The record of a revocation of permission `permission_id` from menu entry
/// `menu_id` that ended with `result`: only a failure carries metadata.
pub open spec fn revoke_audit(
    menu_id: u64,
    permission_id: u64,
    result: Result<(), ServiceError>,
    actor_id: Option<u64>,
    ip_address: Option<Seq<char>>,
    user_agent: Option<Seq<char>>,
) -> AuditRecord {
    audit_record(
        actor_id,
        MENU_PERMISSION_REVOKED@,
        MENU_PERMISSION_ENTITY@,
        Some(revoke_entity(menu_id, permission_id)),
        result is Ok,
        ip_address,
        user_agent,
        match result {
            Ok(_) => None,
            Err(e) => Some(seq![("error"@, MetaValue::Text(error_text(e)))]),
        },
    )
}

/// The audit record of a finished revocation of permission `permission_id`
/// from menu entry `menu_id`.
pub fn complete_revoke(
    menu_id: u64,
    permission_id: u64,
    result: &Result<(), ServiceError>,
    actor_id: Option<u64>,
    ip_address: Option<String>,
    user_agent: Option<String>,
) -> (r: RecordAuditLogInput)
    ensures
        r@ == revoke_audit(
            menu_id,
            permission_id,
            *result,
            actor_id,
            crate::text::opt_text(ip_address),
            crate::text::opt_text(user_agent),
        ),
{
    let id = String::from_str("role:");
    let m = u64_to_decimal(menu_id);
    let id = id.concat(m.as_str());
    let id = id.concat(" permission:");
    let p = u64_to_decimal(permission_id);
    let id = id.concat(p.as_str());
    let meta = match result {
        Ok(_) => None,
        Err(e) => Some(metadata1(entry("error", AuditValue::Text(e.message())))),
    };
    make_record(
        actor_id,
        MENU_PERMISSION_REVOKED,
        MENU_PERMISSION_ENTITY,
        Some(id),
        result.is_ok(),
        ip_address,
        user_agent,
        meta,
    )
}

/// The links of a menu entry as returned to clients, in the stored order.
pub fn permission_responses(items: Vec<MenuPermission>) -> (r: Vec<MenuPermissionResponse>)
    ensures
        r@.len() == items@.len(),
        forall|i: int| 0 <= i < items@.len() ==> {
            &&& #[trigger] r@[i].menu_id == items@[i].menu_id
            &&& r@[i].permission_id == items@[i].permission_id
        },
{
    let mut out: Vec<MenuPermissionResponse> = Vec::new();
    let mut i: usize = 0;
    while i < items.len()
        invariant
            i <= items@.len(),
            out@.len() == i,
            forall|j: int| 0 <= j < i ==> {
                &&& #[trigger] out@[j].menu_id == items@[j].menu_id
                &&& out@[j].permission_id == items@[j].permission_id
            },
        decreases items@.len() - i,
    {
        out.push(MenuPermissionResponse { menu_id: items[i].menu_id, permission_id: items[i].permission_id });
        i = i + 1;
    }
    out
}

} // verus!
