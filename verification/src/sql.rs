//! SQL statements as text plus the values bound to their `?` placeholders,
//! built the way a MySQL query builder builds them: pushing text appends it,
//! pushing a bound value appends one `?` and records the value.
use vstd::prelude::*;
use crate::text::{opt_text, eq_ignore_ascii_case, eq_ignore_ascii_case_text, is_blank, is_blank_text, ascii_lower};

verus! {

/// A value bound to a placeholder.
#[derive(Debug, Clone, PartialEq)]
pub enum SqlValue {
    U64(u64),
    I64(i64),
    Bool(bool),
    Text(String),
}

/// The mathematical form of a bound value.
pub enum SqlArg {
    U64(u64),
    I64(i64),
    Bool(bool),
    Text(Seq<char>),
}

impl View for SqlValue {
    type V = SqlArg;

    open spec fn view(&self) -> SqlArg {
        match self {
            SqlValue::U64(v) => SqlArg::U64(*v),
            SqlValue::I64(v) => SqlArg::I64(*v),
            SqlValue::Bool(v) => SqlArg::Bool(*v),
            SqlValue::Text(s) => SqlArg::Text(s@),
        }
    }
}

/// Whether `s` contains no `?`, so that it can be pushed as plain SQL text.
pub open spec fn no_placeholder(s: Seq<char>) -> bool {
    forall|i: int| 0 <= i < s.len() ==> s[i] != '?'
}

/// The number of `?` placeholders in `s`.
pub open spec fn placeholder_count(s: Seq<char>) -> nat
    decreases s.len(),
{
    if s.len() == 0 {
        0
    } else {
        placeholder_count(s.drop_last()) + if s.last() == '?' { 1nat } else { 0nat }
    }
}

proof fn lemma_count_concat(a: Seq<char>, b: Seq<char>)
    ensures
        placeholder_count(a + b) == placeholder_count(a) + placeholder_count(b),
    decreases b.len(),
{
    if b.len() == 0 {
        assert(a + b =~= a);
    } else {
        assert((a + b).drop_last() =~= a + b.drop_last());
        lemma_count_concat(a, b.drop_last());
    }
}

proof fn lemma_count_plain(s: Seq<char>)
    requires
        no_placeholder(s),
    ensures
        placeholder_count(s) == 0,
    decreases s.len(),
{
    if s.len() > 0 {
        lemma_count_plain(s.drop_last());
    }
}

/// An SQL statement under construction: its text and the values bound to
/// its placeholders, in order.
pub struct SqlQuery {
    sql: String,
    binds: Vec<SqlValue>,
}

impl SqlQuery {
    /// The statement text.
    pub closed spec fn text(&self) -> Seq<char> {
        self.sql@
    }

    /// The bound values, in placeholder order.
    pub closed spec fn args(&self) -> Seq<SqlArg> {
        self.binds@.map_values(|v: SqlValue| v@)
    }

    /// The statement has exactly one placeholder per bound value.
    pub open spec fn well_formed(&self) -> bool {
        placeholder_count(self.text()) == self.args().len()
    }

    /// Starts a statement with the text `init`.
    pub fn new(init: &str) -> (q: SqlQuery)
        requires
            no_placeholder(init@),
        ensures
            q.text() == init@,
            q.args() == Seq::<SqlArg>::empty(),
            q.well_formed(),
    {
        proof {
            lemma_count_plain(init@);
        }
        let q = SqlQuery { sql: String::from_str(init), binds: Vec::new() };
        assert(q.args() =~= Seq::<SqlArg>::empty());
        q
    }

    /// Appends plain SQL text.
    pub fn push(&mut self, s: &str)
        requires
            no_placeholder(s@),
        ensures
            final(self).text() == old(self).text() + s@,
            final(self).args() == old(self).args(),
            old(self).well_formed() ==> final(self).well_formed(),
    {
        proof {
            lemma_count_plain(s@);
            lemma_count_concat(self.sql@, s@);
        }
        self.sql.append(s);
    }

    /// Appends a placeholder and binds `v` to it.
    pub fn push_bind(&mut self, v: SqlValue)
        ensures
            final(self).text() == old(self).text() + seq!['?'],
            final(self).args() == old(self).args().push(v@),
            old(self).well_formed() ==> final(self).well_formed(),
    {
        proof {
            reveal_strlit("?");
            lemma_count_concat(self.sql@, seq!['?']);
            assert(seq!['?'].drop_last() =~= Seq::<char>::empty());
            assert(placeholder_count(Seq::<char>::empty()) == 0);
            assert(placeholder_count(seq!['?']) == 1);
            assert("?"@ =~= seq!['?']);
        }
        self.sql.append("?");
        let ghost old_binds = self.binds@;
        self.binds.push(v);
        proof {
            assert(old_binds.push(v).map_values(|x: SqlValue| x@) =~= old_binds.map_values(
                |x: SqlValue| x@,
            ).push(v@));
        }
    }

    /// The statement text.
    pub fn sql(&self) -> (s: &str)
        ensures
            s@ == self.text(),
    {
        self.sql.as_str()
    }

    /// The number of bound values.
    pub fn bind_count(&self) -> (n: usize)
        ensures
            n == self.args().len(),
    {
        self.binds.len()
    }

    /// The bound values, in placeholder order.
    pub fn binds(&self) -> (b: &Vec<SqlValue>)
        ensures
            b@.map_values(|v: SqlValue| v@) == self.args(),
    {
        &self.binds
    }
}

/// The `LIKE` pattern that matches any text containing `s`.
pub open spec fn like_pattern(s: Seq<char>) -> Seq<char> {
    "%"@ + s + "%"@
}

/// Builds the `LIKE` pattern `%s%`.
pub fn make_like_pattern(s: &str) -> (p: String)
    ensures
        p@ == like_pattern(s@),
{
    let p = String::from_str("%");
    let p = p.concat(s);
    p.concat("%")
}

/// The sort direction requested by `sort_type`: ascending when it reads
/// `ASC` in any letter case, descending otherwise.
pub open spec fn sort_direction(sort_type: Seq<char>) -> Seq<char> {
    if eq_ignore_ascii_case_text(sort_type, "ASC"@) {
        "ASC"@
    } else {
        "DESC"@
    }
}

/// The sort direction requested by `sort_type`.
pub fn choose_sort_direction(sort_type: &str) -> (d: &'static str)
    ensures
        d@ == sort_direction(sort_type@),
        no_placeholder(d@),
{
    proof {
        reveal_strlit("ASC");
        reveal_strlit("DESC");
    }
    if eq_ignore_ascii_case(sort_type, "ASC") {
        "ASC"
    } else {
        "DESC"
    }
}

/// Whether a search text takes part in a query: present and not blank.
pub open spec fn active_search(search: Option<Seq<char>>) -> bool {
    match search {
        Some(s) => !is_blank_text(s),
        None => false,
    }
}

/// Whether a search text takes part in a query.
pub fn search_is_active(search: &Option<String>) -> (b: bool)
    ensures
        b == active_search(match search {
            Some(s) => Some(s@),
            None => None,
        }),
{
    match search {
        Some(s) => !is_blank(s.as_str()),
        None => false,
    }
}

/// The values bound by `LIMIT ? OFFSET ?` for a page: the page size, then
/// the number of rows before the page.
pub open spec fn page_args(page: u64, page_size: u64) -> Seq<SqlArg> {
    seq![SqlArg::I64(page_size as i64), SqlArg::I64(((page - 1) * page_size) as i64)]
}

/// The text of the ordering and paging tail of a list query.
pub open spec fn order_page_text(column: Seq<char>, direction: Seq<char>) -> Seq<char> {
    " ORDER BY "@ + column + " "@ + direction + " LIMIT "@ + seq!['?'] + " OFFSET "@ + seq!['?']
}

/// Whether the rows before a page can be counted in 64 bits; the first page
/// is page 1.
pub open spec fn page_in_range(page: u64, page_size: u64) -> bool {
    page >= 1 && (page - 1) * page_size <= u64::MAX
}

/// Appends ` ORDER BY column direction LIMIT ? OFFSET ?` and binds the page
/// size and the number of rows before the page.
pub fn push_order_and_page(
    q: &mut SqlQuery,
    column: &str,
    direction: &str,
    page: u64,
    page_size: u64,
)
    requires
        no_placeholder(column@),
        no_placeholder(direction@),
        page_in_range(page, page_size),
    ensures
        final(q).text() == old(q).text() + order_page_text(column@, direction@),
        final(q).args() == old(q).args() + page_args(page, page_size),
        old(q).well_formed() ==> final(q).well_formed(),
{
    proof {
        reveal_strlit(" ORDER BY ");
        reveal_strlit(" ");
        reveal_strlit(" LIMIT ");
        reveal_strlit(" OFFSET ");
    }
    let ghost t0 = q.text();
    let ghost a0 = q.args();
    q.push(" ORDER BY ");
    q.push(column);
    q.push(" ");
    q.push(direction);
    q.push(" LIMIT ");
    q.push_bind(SqlValue::I64(page_size as i64));
    q.push(" OFFSET ");
    let offset: u64 = (page - 1) * page_size;
    q.push_bind(SqlValue::I64(offset as i64));
    assert(q.text() =~= t0 + order_page_text(column@, direction@));
    assert(q.args() =~= a0 + page_args(page, page_size));
}

/// The search condition on code and name: either contains the text.
pub open spec fn code_name_search_text(search: Option<Seq<char>>) -> Seq<char> {
    if active_search(search) {
        " AND (code LIKE "@ + seq!['?'] + " OR name LIKE "@ + seq!['?'] + ")"@
    } else {
        Seq::empty()
    }
}

/// The values bound by the search condition on code and name.
pub open spec fn code_name_search_args(search: Option<Seq<char>>) -> Seq<SqlArg> {
    match search {
        Some(s) => if active_search(search) {
            seq![SqlArg::Text(like_pattern(s)), SqlArg::Text(like_pattern(s))]
        } else {
            Seq::empty()
        },
        None => Seq::empty(),
    }
}

/// Appends the search condition on code and name, if the search text is
/// active.
pub fn push_code_name_search(q: &mut SqlQuery, search: &Option<String>)
    ensures
        final(q).text() == old(q).text() + code_name_search_text(opt_text(*search)),
        final(q).args() == old(q).args() + code_name_search_args(opt_text(*search)),
        old(q).well_formed() ==> final(q).well_formed(),
{
    let ghost t0 = q.text();
    let ghost a0 = q.args();
    if search_is_active(search) {
        proof {
            reveal_strlit(" AND (code LIKE ");
            reveal_strlit(" OR name LIKE ");
            reveal_strlit(")");
        }
        match search {
            Some(s) => {
                q.push(" AND (code LIKE ");
                q.push_bind(SqlValue::Text(make_like_pattern(s.as_str())));
                q.push(" OR name LIKE ");
                q.push_bind(SqlValue::Text(make_like_pattern(s.as_str())));
                q.push(")");
            },
            None => {},
        }
        assert(q.text() =~= t0 + code_name_search_text(opt_text(*search)));
        assert(q.args() =~= a0 + code_name_search_args(opt_text(*search)));
    } else {
        assert(q.text() =~= t0 + code_name_search_text(opt_text(*search)));
        assert(q.args() =~= a0 + code_name_search_args(opt_text(*search)));
    }
}


/// Consecutive pages are adjacent: the rows before page `page + 1` are the
/// rows before page `page` and the `page_size` rows of that page.
pub proof fn lemma_pages_adjacent(page: u64, page_size: u64)
    requires
        page >= 1,
    ensures
        (page + 1 - 1) * page_size == (page - 1) * page_size + page_size,
{
    assert((page + 1 - 1) * page_size == (page - 1) * page_size + page_size) by (nonlinear_arith);
}

/// A list is sorted ascending exactly when its sort type reads `ASC` in any
/// letter case, and descending for everything else: `ASC` and `asc` ask for
/// ascending order, while `DESC`, `desc`, the empty text and any text not
/// three characters long ask for descending order.
pub proof fn lemma_sort_direction_cases(t: Seq<char>)
    ensures
        sort_direction(t) == "ASC"@ || sort_direction(t) == "DESC"@,
        t == "ASC"@ ==> sort_direction(t) == "ASC"@,
        t == "asc"@ ==> sort_direction(t) == "ASC"@,
        t.len() != 3 ==> sort_direction(t) == "DESC"@,
        t == "DESC"@ ==> sort_direction(t) == "DESC"@,
        t == "desc"@ ==> sort_direction(t) == "DESC"@,
{
    reveal_strlit("ASC");
    reveal_strlit("asc");
    reveal_strlit("DESC");
    reveal_strlit("desc");
    if t == "asc"@ {
        assert(ascii_lower(t[0]) == ascii_lower("ASC"@[0]));
        assert(ascii_lower(t[1]) == ascii_lower("ASC"@[1]));
        assert(ascii_lower(t[2]) == ascii_lower("ASC"@[2]));
        assert(eq_ignore_ascii_case_text(t, "ASC"@));
    }
}

} // verus!
