# clean_api

The domain core of a REST service for role-based access control and master
data (groups of reference items, their items, navigation menus, the links
between menus and permissions, and the access rights of the current user),
written in Verus and proved against its contracts.

## Layout

- `src/` — the verified library.
  - `text.rs`: decimal rendering, Unicode white space, ASCII case-insensitive
    and exact comparison.
  - `sql.rs`: SQL statements as text plus bound values; paging, sorting and
    search helpers. Every statement built here has exactly one `?` per bound
    value, and user text only ever travels as a bound value.
  - `errors.rs`: the service errors and their messages.
  - `validation.rs`: length rules on request fields.
  - `audit.rs`: audit records and what a finished write asks of the cache.
  - `cache.rs`: reads through the cache (use what it holds, or load and fill).
  - `clock.rs`, `json.rs`: the current time and opaque JSON documents.
  - `master_data/groups.rs`, `master_data/items.rs`, `menus.rs`,
    `menu_permissions.rs`, `authorization.rs`: requests, entities and
    responses of each domain, the decisions of its service (what to insert,
    update or delete, which error to report), its dynamic queries, cache keys,
    audit records, and the laws that tie them together.
- `tests/` — tests of the library on concrete values.
- `app/` — the asynchronous part: MySQL repositories (sqlx), the services that
  gather what the store and the cache say, call the library's decisions and
  perform what they ask, and the JSON shapes of requests and responses.
