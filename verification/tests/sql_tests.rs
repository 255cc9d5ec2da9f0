use clean_api::sql::{choose_sort_direction, make_like_pattern, push_order_and_page, SqlQuery, SqlValue};

#[test]
fn push_and_bind_build_text_and_values() {
    let mut q = SqlQuery::new("SELECT 1 WHERE a = ");
    q.push_bind(SqlValue::U64(5));
    q.push(" AND b = ");
    q.push_bind(SqlValue::Text("x".to_string()));
    assert_eq!(q.sql(), "SELECT 1 WHERE a = ? AND b = ?");
    assert_eq!(q.bind_count(), 2);
    assert_eq!(q.binds(), &vec![SqlValue::U64(5), SqlValue::Text("x".to_string())]);
}

#[test]
fn like_pattern_wraps_text() {
    assert_eq!(make_like_pattern("ab"), "%ab%");
    assert_eq!(make_like_pattern(""), "%%");
}

#[test]
fn sort_direction_is_ascending_only_for_asc() {
    assert_eq!(choose_sort_direction("asc"), "ASC");
    assert_eq!(choose_sort_direction("ASC"), "ASC");
    assert_eq!(choose_sort_direction("DESC"), "DESC");
    assert_eq!(choose_sort_direction("ascending"), "DESC");
    assert_eq!(choose_sort_direction(""), "DESC");
}

#[test]
fn paging_binds_size_and_offset() {
    let mut q = SqlQuery::new("SELECT x FROM t");
    push_order_and_page(&mut q, "name", "ASC", 3, 20);
    assert_eq!(q.sql(), "SELECT x FROM t ORDER BY name ASC LIMIT ? OFFSET ?");
    assert_eq!(q.binds(), &vec![SqlValue::I64(20), SqlValue::I64(40)]);

    let mut first = SqlQuery::new("SELECT x FROM t");
    push_order_and_page(&mut first, "id", "DESC", 1, 10);
    assert_eq!(first.binds(), &vec![SqlValue::I64(10), SqlValue::I64(0)]);
}

#[test]
fn consecutive_pages_are_adjacent() {
    let offset = |page: u64, size: u64| {
        let mut q = SqlQuery::new("s");
        push_order_and_page(&mut q, "id", "ASC", page, size);
        match &q.binds()[1] {
            SqlValue::I64(v) => *v,
            _ => panic!("offset is not an integer"),
        }
    };
    assert_eq!(offset(5, 7), offset(4, 7) + 7);
}
