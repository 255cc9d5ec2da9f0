//! Authorization: the profile and access rights of a user, built from the
//! user, the user's roles and the roles' permissions.
use vstd::prelude::*;
use crate::errors::ServiceError;
use crate::menus::{Menu, MenuView};
use crate::sql::{SqlQuery, SqlValue, SqlArg, no_placeholder};
use crate::text::opt_text;

verus! {

/// The fields of a stored user that authorization reads.
#[derive(Debug, Clone, PartialEq)]
pub struct User {
    pub id: u64,
    pub username: String,
    pub fullname: String,
}

/// The fields of a stored role that authorization reads.
#[derive(Debug, Clone, PartialEq)]
pub struct Role {
    pub id: u64,
    pub code: String,
}

/// The fields of a stored permission that authorization reads.
#[derive(Debug, Clone, PartialEq)]
pub struct Permission {
    pub id: u64,
    pub code: String,
}

/// A request for the access rights of a user.
#[derive(Debug, Clone, PartialEq)]
pub struct AuthorizeRequest {
    pub user_id: u64,
}

/// A menu entry as part of a user's access rights.
#[derive(Debug, Clone, PartialEq)]
pub struct MenuContext {
    pub id: u64,
    pub parent_id: Option<u64>,
    pub name: String,
    pub path: Option<String>,
    pub icon: Option<String>,
    pub sort_order: i32,
}

/// The profile and access rights of a user: role codes, permission codes
/// and menu entries.
#[derive(Debug, Clone, PartialEq)]
pub struct PermissionContext {
    pub user_id: u64,
    pub username: String,
    pub fullname: String,
    pub roles: Vec<String>,
    pub permissions: Vec<String>,
    pub menus: Vec<MenuContext>,
}

/// The answer to an authorization request.
#[derive(Debug, Clone, PartialEq)]
pub struct AuthorizeResponse {
    pub context: PermissionContext,
}

/// The current user as returned to clients.
#[derive(Debug, Clone, PartialEq)]
pub struct CurrentUser {
    pub id: u64,
    pub username: String,
    pub fullname: String,
    pub roles: Vec<String>,
    pub permissions: Vec<String>,
    pub menus: Vec<MenuContext>,
}


/// The authorization service over a store of users, roles and permissions.
pub struct DefaultAuthorizationService<R> {
    pub repository: R,
}

impl<R> DefaultAuthorizationService<R> {
    /// A service over `repository`.
    pub fn new(repository: R) -> (s: Self)
        ensures
            s.repository == repository,
    {
        DefaultAuthorizationService { repository }
    }
}

/// The texts of a list of strings.
pub open spec fn texts(v: Seq<String>) -> Seq<Seq<char>> {
    v.map_values(|s: String| s@)
}

/// The codes of a list of roles, in order.
pub open spec fn role_codes(v: Seq<Role>) -> Seq<Seq<char>> {
    v.map_values(|r: Role| r.code@)
}

/// The codes of a list of permissions, in order.
pub open spec fn permission_codes(v: Seq<Permission>) -> Seq<Seq<char>> {
    v.map_values(|p: Permission| p.code@)
}

/// The user that a lookup found, or `UserNotFound`.
pub fn found_user(found: Option<User>) -> (r: Result<User, ServiceError>)
    ensures
        match found {
            Some(u) => r == Ok::<User, ServiceError>(u),
            None => r == Err::<User, ServiceError>(ServiceError::UserNotFound),
        },
{
    match found {
        Some(u) => Ok(u),
        None => Err(ServiceError::UserNotFound),
    }
}

/// The ids of a list of roles, in order.
pub fn role_ids(roles: &Vec<Role>) -> (ids: Vec<u64>)
    ensures
        ids@ == roles@.map_values(|r: Role| r.id),
{
    let mut ids: Vec<u64> = Vec::new();
    let mut i: usize = 0;
    while i < roles.len()
        invariant
            i <= roles@.len(),
            ids@ == roles@.take(i as int).map_values(|r: Role| r.id),
        decreases roles@.len() - i,
    {
        ids.push(roles[i].id);
        i = i + 1;
        assert(ids@ =~= roles@.take(i as int).map_values(|r: Role| r.id));
    }
    assert(roles@.take(roles@.len() as int) =~= roles@);
    ids
}

/// The part of the permission query before the role placeholders.
pub const PERMISSIONS_SQL_HEAD: &'static str = "\n            SELECT DISTINCT\n                p.id,\n                p.code,\n                p.name,\n                p.resource,\n                p.action,\n                p.description,\n                p.is_active,\n                p.created_at,\n                p.updated_at\n            FROM role_permissions rp\n            INNER JOIN permissions p\n                ON p.id = rp.permission_id\n            WHERE rp.role_id IN (";

/// The part of the permission query after the role placeholders.
pub const PERMISSIONS_SQL_TAIL: &'static str = ")\n            ORDER BY p.code\n            ";

/// `n` placeholders separated by commas.
pub open spec fn placeholder_list(n: nat) -> Seq<char>
    decreases n,
{
    if n == 0 {
        Seq::empty()
    } else if n == 1 {
        seq!['?']
    } else {
        placeholder_list((n - 1) as nat) + seq![',', '?']
    }
}

/// The ids bound to a query, in order.
pub open spec fn id_args(ids: Seq<u64>) -> Seq<SqlArg> {
    ids.map_values(|id: u64| SqlArg::U64(id))
}

/// The query `head`, one placeholder per role id, then `tail`, with the ids
/// bound in order; none for an empty set of roles, which reach nothing.
fn role_list_query(head: &'static str, role_ids: &Vec<u64>, tail: &'static str) -> (q: Option<
    SqlQuery,
>)
    requires
        no_placeholder(head@),
        no_placeholder(tail@),
    ensures
        q is None <==> role_ids@.len() == 0,
        q matches Some(q) ==> {
            &&& q.text() == head@ + placeholder_list(role_ids@.len()) + tail@
            &&& q.args() == id_args(role_ids@)
            &&& q.well_formed()
        },
{
    if role_ids.len() == 0 {
        return None;
    }
    proof {
        reveal_strlit(",");
    }
    let mut q = SqlQuery::new(head);
    let n: usize = role_ids.len();
    let mut i: usize = 0;
    while i < n
        invariant
            n == role_ids@.len(),
            i <= n,
            q.text() == head@ + placeholder_list(i as nat),
            q.args() == id_args(role_ids@.take(i as int)),
            q.well_formed(),
            no_placeholder(tail@),
        decreases n - i,
    {
        proof {
            reveal_strlit(",");
        }
        if i > 0 {
            q.push(",");
        }
        proof {
            assert(role_ids@.take(i + 1) =~= role_ids@.take(i as int).push(role_ids@[i as int]));
            role_ids@.take(i as int).lemma_push_map_commute(|id: u64| SqlArg::U64(id), role_ids@[i as int]);
            if i == 0 {
                assert(placeholder_list(1) == seq!['?']);
            } else {
                assert(placeholder_list((i + 1) as nat) == placeholder_list(i as nat) + seq![',', '?']);
            }
        }
        q.push_bind(SqlValue::U64(role_ids[i]));
        i = i + 1;
        assert(q.text() =~= head@ + placeholder_list(i as nat));
        assert(q.args() =~= id_args(role_ids@.take(i as int)));
    }
    q.push(tail);
    assert(role_ids@.take(n as int) =~= role_ids@);
    Some(q)
}

/// The query for the distinct permissions of a set of roles, ordered by
/// code; no query for an empty set of roles, whose permissions are none.
pub fn permissions_query(role_ids: &Vec<u64>) -> (q: Option<SqlQuery>)
    ensures
        q is None <==> role_ids@.len() == 0,
        q matches Some(q) ==> {
            &&& q.text() == PERMISSIONS_SQL_HEAD@ + placeholder_list(role_ids@.len())
                + PERMISSIONS_SQL_TAIL@
            &&& q.args() == id_args(role_ids@)
            &&& q.well_formed()
        },
{
    proof {
        reveal_strlit("\n            SELECT DISTINCT\n                p.id,\n                p.code,\n                p.name,\n                p.resource,\n                p.action,\n                p.description,\n                p.is_active,\n                p.created_at,\n                p.updated_at\n            FROM role_permissions rp\n            INNER JOIN permissions p\n                ON p.id = rp.permission_id\n            WHERE rp.role_id IN (");
        reveal_strlit(")\n            ORDER BY p.code\n            ");
    }
    role_list_query(PERMISSIONS_SQL_HEAD, role_ids, PERMISSIONS_SQL_TAIL)
}

/// The part of the menu query before the role placeholders.
pub const MENUS_SQL_HEAD: &'static str = "\n            SELECT DISTINCT\n                m.id,\n                m.parent_id,\n                m.name,\n                m.icon,\n                m.path,\n                m.sort_order,\n                m.is_active,\n                m.created_at,\n                m.updated_at\n            FROM menus m\n            INNER JOIN menu_permissions mp\n                ON mp.menu_id = m.id\n            INNER JOIN role_permissions rp\n                ON rp.permission_id = mp.permission_id\n            WHERE rp.role_id IN (";

/// The part of the menu query after the role placeholders.
pub const MENUS_SQL_TAIL: &'static str = ")\n            ORDER BY m.sort_order, m.id\n            ";

/// The query for the distinct menu entries that a set of roles reaches
/// through its permissions, in sort order; no query for an empty set of
/// roles, which reach no entry.
pub fn menus_query(role_ids: &Vec<u64>) -> (q: Option<SqlQuery>)
    ensures
        q is None <==> role_ids@.len() == 0,
        q matches Some(q) ==> {
            &&& q.text() == MENUS_SQL_HEAD@ + placeholder_list(role_ids@.len()) + MENUS_SQL_TAIL@
            &&& q.args() == id_args(role_ids@)
            &&& q.well_formed()
        },
{
    proof {
        reveal_strlit("\n            SELECT DISTINCT\n                m.id,\n                m.parent_id,\n                m.name,\n                m.icon,\n                m.path,\n                m.sort_order,\n                m.is_active,\n                m.created_at,\n                m.updated_at\n            FROM menus m\n            INNER JOIN menu_permissions mp\n                ON mp.menu_id = m.id\n            INNER JOIN role_permissions rp\n                ON rp.permission_id = mp.permission_id\n            WHERE rp.role_id IN (");
        reveal_strlit(")\n            ORDER BY m.sort_order, m.id\n            ");
    }
    role_list_query(MENUS_SQL_HEAD, role_ids, MENUS_SQL_TAIL)
}

fn role_code_list(roles: Vec<Role>) -> (r: Vec<String>)
    ensures
        texts(r@) == role_codes(roles@),
{
    let mut out: Vec<String> = Vec::new();
    let mut rest = roles;
    let ghost orig = rest@;
    while rest.len() > 0
        invariant
            out@.len() + rest@.len() == orig.len(),
            rest@ == orig.skip(out@.len() as int),
            texts(out@) == role_codes(orig.take(out@.len() as int)),
        decreases rest@.len(),
    {
        let ghost k = out@.len() as int;
        let role = rest.remove(0);
        assert(role == orig[k]);
        let ghost before = out@;
        out.push(role.code);
        assert(rest@ =~= orig.skip(out@.len() as int));
        proof {
            assert(orig.take(k + 1) =~= orig.take(k).push(orig[k]));
            orig.take(k).lemma_push_map_commute(|r: Role| r.code@, orig[k]);
            before.lemma_push_map_commute(|s: String| s@, role.code);
        }
        assert(texts(out@) =~= role_codes(orig.take(out@.len() as int)));
    }
    assert(orig.take(orig.len() as int) =~= orig);
    out
}

fn permission_code_list(permissions: Vec<Permission>) -> (r: Vec<String>)
    ensures
        texts(r@) == permission_codes(permissions@),
{
    let mut out: Vec<String> = Vec::new();
    let mut rest = permissions;
    let ghost orig = rest@;
    while rest.len() > 0
        invariant
            out@.len() + rest@.len() == orig.len(),
            rest@ == orig.skip(out@.len() as int),
            texts(out@) == permission_codes(orig.take(out@.len() as int)),
        decreases rest@.len(),
    {
        let ghost k = out@.len() as int;
        let p = rest.remove(0);
        assert(p == orig[k]);
        let ghost before = out@;
        out.push(p.code);
        assert(rest@ =~= orig.skip(out@.len() as int));
        proof {
            assert(orig.take(k + 1) =~= orig.take(k).push(orig[k]));
            orig.take(k).lemma_push_map_commute(|x: Permission| x.code@, orig[k]);
            before.lemma_push_map_commute(|s: String| s@, p.code);
        }
        assert(texts(out@) =~= permission_codes(orig.take(out@.len() as int)));
    }
    assert(orig.take(orig.len() as int) =~= orig);
    out
}

/// Whether `c` describes the menu entry `m`: the same id, parent, name,
/// icon and sort order, and its path.
pub open spec fn menu_context_of(c: MenuContext, m: MenuView) -> bool {
    &&& c.id == m.id
    &&& c.parent_id == m.parent_id
    &&& c.name@ == m.name
    &&& opt_text(c.path) == Some(m.path)
    &&& opt_text(c.icon) == m.icon
    &&& c.sort_order == m.sort_order
}

/// The menu entry as part of a user's access rights.
pub fn menu_context(menu: Menu) -> (c: MenuContext)
    ensures
        menu_context_of(c, menu@),
{
    let Menu { id, parent_id, name, icon, path, sort_order, is_active: _, created_at: _, updated_at: _ } = menu;
    MenuContext { id, parent_id, name, path: Some(path), icon, sort_order }
}

/// Whether `cs` describes the entries of `menus` one for one, in order.
pub open spec fn menu_contexts_of(cs: Seq<MenuContext>, menus: Seq<Menu>) -> bool {
    &&& cs.len() == menus.len()
    &&& forall|i: int| 0 <= i < cs.len() ==> menu_context_of(#[trigger] cs[i], menus[i]@)
}

fn menu_context_list(menus: Vec<Menu>) -> (r: Vec<MenuContext>)
    ensures
        menu_contexts_of(r@, menus@),
{
    let mut out: Vec<MenuContext> = Vec::new();
    let mut rest = menus;
    let ghost orig = rest@;
    while rest.len() > 0
        invariant
            out@.len() + rest@.len() == orig.len(),
            rest@ == orig.skip(out@.len() as int),
            menu_contexts_of(out@, orig.take(out@.len() as int)),
        decreases rest@.len(),
    {
        let ghost k = out@.len() as int;
        let m = rest.remove(0);
        assert(m == orig[k]);
        out.push(menu_context(m));
        assert(rest@ =~= orig.skip(out@.len() as int));
        assert(orig.take(k + 1)[k] == orig[k]);
    }
    assert(orig.take(orig.len() as int) =~= orig);
    out
}

/// Whether `c` gives the access rights of `user` with `roles`,
/// `permissions` and `menus`, each in the order given.
pub open spec fn context_of(
    c: PermissionContext,
    user: User,
    roles: Seq<Role>,
    permissions: Seq<Permission>,
    menus: Seq<Menu>,
) -> bool {
    &&& c.user_id == user.id
    &&& c.username@ == user.username@
    &&& c.fullname@ == user.fullname@
    &&& texts(c.roles@) == role_codes(roles)
    &&& texts(c.permissions@) == permission_codes(permissions)
    &&& menu_contexts_of(c.menus@, menus)
}

/// The access rights of `user`, from the user's roles, the roles'
/// permissions and the menu entries that those permissions open.
pub fn authorize_response(
    user: User,
    roles: Vec<Role>,
    permissions: Vec<Permission>,
    menus: Vec<Menu>,
) -> (r: AuthorizeResponse)
    ensures
        context_of(r.context, user, roles@, permissions@, menus@),
{
    let User { id, username, fullname } = user;
    AuthorizeResponse {
        context: PermissionContext {
            user_id: id,
            username,
            fullname,
            roles: role_code_list(roles),
            permissions: permission_code_list(permissions),
            menus: menu_context_list(menus),
        },
    }
}

/// The current user that an authorization answer describes.
pub fn current_user_from(response: AuthorizeResponse) -> (u: CurrentUser)
    ensures
        u.id == response.context.user_id,
        u.username == response.context.username,
        u.fullname == response.context.fullname,
        u.roles == response.context.roles,
        u.permissions == response.context.permissions,
        u.menus == response.context.menus,
{
    let PermissionContext { user_id, username, fullname, roles, permissions, menus } = response.context;
    CurrentUser { id: user_id, username, fullname, roles, permissions, menus }
}

/// Whether `u` is the current user that the access rights `c` describe:
/// every field copied.
pub open spec fn current_user_of(u: CurrentUser, c: PermissionContext) -> bool {
    &&& u.id == c.user_id
    &&& u.username == c.username
    &&& u.fullname == c.fullname
    &&& u.roles == c.roles
    &&& u.permissions == c.permissions
    &&& u.menus == c.menus
}

/// The current user from the outcome of authorizing them: it succeeds
/// exactly when authorization did, with every field of the access rights
/// copied; a refusal is passed on unchanged.
pub fn current_user_result(r: Result<AuthorizeResponse, ServiceError>) -> (u: Result<
    CurrentUser,
    ServiceError,
>)
    ensures
        u is Ok <==> r is Ok,
        r matches Err(e) ==> u == Err::<CurrentUser, ServiceError>(e),
        r matches Ok(a) ==> (u matches Ok(c) && current_user_of(c, a.context)),
{
    match r {
        Ok(a) => Ok(current_user_from(a)),
        Err(e) => Err(e),
    }
}

} // verus!
