//! Searching the skills on offer.

use vstd::prelude::*;
use crate::models::F64Bits;

verus! {

/// A search of the skills: a text to look for in titles and descriptions, a
/// category, and price bounds (`None` where the request gives none, or gives a
/// bound that is not a number).
#[derive(Clone, Debug, PartialEq, Eq)]
pub struct SearchQuery {
    pub q: Option<String>,
    pub category: Option<String>,
    pub min_price: Option<F64Bits>,
    pub max_price: Option<F64Bits>,
}

/// A value bound to a placeholder of a statement.
#[derive(Clone, Debug, PartialEq, Eq)]
pub enum SqlArg {
    Text(String),
    Real(F64Bits),
}

/// A bound value, as the mathematical text or number it stands for.
pub enum SqlArgView {
    Text(Seq<char>),
    Real(F64Bits),
}

/// What a bound value stands for.
pub open spec fn arg_view(a: SqlArg) -> SqlArgView {
    match a {
        SqlArg::Text(s) => SqlArgView::Text(s@),
        SqlArg::Real(x) => SqlArgView::Real(x),
    }
}

/// A SQL statement with `?` placeholders and the values bound to them, in order.
#[derive(Clone, Debug, PartialEq, Eq)]
pub struct Statement {
    pub sql: String,
    pub args: Vec<SqlArg>,
}

/// The text searched for: the `q` parameter, empty when absent.
pub open spec fn search_term(query: SearchQuery) -> Seq<char> {
    match query.q {
        Some(q) => q@,
        None => Seq::empty(),
    }
}

/// The statement of a search: every column of the skills, the conditions that
/// apply in the order text, category, lowest price, highest price, and at most
/// 50 results. Which conditions apply is all it depends on.
pub open spec fn spec_search_sql(has_term: bool, has_category: bool, has_min: bool, has_max: bool) -> Seq<char> {
    "SELECT id, agent_id, title, description, category, price, created_at, updated_at FROM skills WHERE 1=1"@
        + (if has_term { " AND (title LIKE ? OR description LIKE ?)"@ } else { Seq::empty() })
        + (if has_category { " AND category = ?"@ } else { Seq::empty() })
        + (if has_min { " AND price >= ?"@ } else { Seq::empty() })
        + (if has_max { " AND price <= ?"@ } else { Seq::empty() })
        + " LIMIT 50"@
}

/// The pattern that finds `term` anywhere in a text.
pub open spec fn like_pattern(term: Seq<char>) -> Seq<char> {
    seq!['%'] + term + seq!['%']
}

/// The values bound to the placeholders of a search, in order.
pub open spec fn spec_search_args(query: SearchQuery) -> Seq<SqlArgView> {
    (if search_term(query).len() > 0 {
        seq![
            SqlArgView::Text(like_pattern(search_term(query))),
            SqlArgView::Text(like_pattern(search_term(query))),
        ]
    } else {
        Seq::empty()
    }) + (match query.category {
        Some(c) => seq![SqlArgView::Text(c@)],
        None => Seq::empty(),
    }) + (match query.min_price {
        Some(m) => seq![SqlArgView::Real(m)],
        None => Seq::empty(),
    }) + (match query.max_price {
        Some(m) => seq![SqlArgView::Real(m)],
        None => Seq::empty(),
    })
}

/// The statement of the search `query`, with the request's texts bound to
/// placeholders.
pub fn search_statement(query: &SearchQuery) -> (st: Statement)
    ensures
        st.sql@ == spec_search_sql(
            search_term(*query).len() > 0,
            query.category is Some,
            query.min_price is Some,
            query.max_price is Some,
        ),
        st.args@.map_values(|a: SqlArg| arg_view(a)) == spec_search_args(*query),
{
    let mut sql = "SELECT id, agent_id, title, description, category, price, created_at, updated_at FROM skills WHERE 1=1".to_string();
    let mut args: Vec<SqlArg> = Vec::new();
    let ghost sql0 = sql@;
    let mut has_term = false;
    match &query.q {
        Some(term) => {
            if !term.as_str().is_empty() {
                has_term = true;
                sql.append(" AND (title LIKE ? OR description LIKE ?)");
                let mut pattern = "%".to_string();
                pattern.append(term.as_str());
                pattern.append("%");
                proof {
                    reveal_strlit("%");
                }
                let pattern2 = pattern.clone();
                assert(pattern@ == like_pattern(term@));
                args.push(SqlArg::Text(pattern));
                args.push(SqlArg::Text(pattern2));
            }
        },
        None => {},
    }
    assert(has_term == (search_term(*query).len() > 0));
    let ghost sql1 = sql@;
    let ghost args1 = args@;
    match &query.category {
        Some(c) => {
            sql.append(" AND category = ?");
            args.push(SqlArg::Text(c.clone()));
        },
        None => {},
    }
    let ghost sql2 = sql@;
    let ghost args2 = args@;
    match &query.min_price {
        Some(m) => {
            sql.append(" AND price >= ?");
            args.push(SqlArg::Real(*m));
        },
        None => {},
    }
    let ghost sql3 = sql@;
    let ghost args3 = args@;
    match &query.max_price {
        Some(m) => {
            sql.append(" AND price <= ?");
            args.push(SqlArg::Real(*m));
        },
        None => {},
    }
    sql.append(" LIMIT 50");
    assert(sql@ =~= spec_search_sql(
        has_term,
        query.category is Some,
        query.min_price is Some,
        query.max_price is Some,
    ));
    assert(args@.map_values(|a: SqlArg| arg_view(a)) =~= spec_search_args(*query));
    Statement { sql, args }
}

/// The text of a search statement never holds what the request asked for: two
/// searches that use the same kinds of conditions send the same statement, and
/// their texts reach the store only as bound values.
pub proof fn lemma_search_text_is_fixed_by_its_conditions(a: SearchQuery, b: SearchQuery)
    requires
        (search_term(a).len() > 0) == (search_term(b).len() > 0),
        a.category is Some == b.category is Some,
        a.min_price is Some == b.min_price is Some,
        a.max_price is Some == b.max_price is Some,
    ensures
        spec_search_sql(
            search_term(a).len() > 0,
            a.category is Some,
            a.min_price is Some,
            a.max_price is Some,
        ) == spec_search_sql(
            search_term(b).len() > 0,
            b.category is Some,
            b.min_price is Some,
            b.max_price is Some,
        ),
{
}

/// `t` occurs in `s` (as a run of consecutive characters).
pub open spec fn occurs_in(t: Seq<char>, s: Seq<char>) -> bool {
    exists|i: int| 0 <= i && i + t.len() <= s.len() && #[trigger] s.subrange(i, i + t.len()) == t
}

/// Each filter a search asks for restricts its statement, whatever else it
/// asks: with a text, the statement matches it in titles and descriptions;
/// with a category, it holds `AND category = ?`; with a lowest or highest
/// price, `AND price >= ?` or `AND price <= ?`. Every statement keeps at most
/// 50 results.
pub proof fn lemma_each_filter_restricts(has_term: bool, has_category: bool, has_min: bool, has_max: bool)
    ensures
        has_term ==> occurs_in(
            " AND (title LIKE ? OR description LIKE ?)"@,
            spec_search_sql(has_term, has_category, has_min, has_max),
        ),
        has_category ==> occurs_in(" AND category = ?"@, spec_search_sql(has_term, has_category, has_min, has_max)),
        has_min ==> occurs_in(" AND price >= ?"@, spec_search_sql(has_term, has_category, has_min, has_max)),
        has_max ==> occurs_in(" AND price <= ?"@, spec_search_sql(has_term, has_category, has_min, has_max)),
        occurs_in(" LIMIT 50"@, spec_search_sql(has_term, has_category, has_min, has_max)),
{
    let a = "SELECT id, agent_id, title, description, category, price, created_at, updated_at FROM skills WHERE 1=1"@;
    let b = if has_term { " AND (title LIKE ? OR description LIKE ?)"@ } else { Seq::<char>::empty() };
    let c = if has_category { " AND category = ?"@ } else { Seq::<char>::empty() };
    let d = if has_min { " AND price >= ?"@ } else { Seq::<char>::empty() };
    let e = if has_max { " AND price <= ?"@ } else { Seq::<char>::empty() };
    let f = " LIMIT 50"@;
    let sql = spec_search_sql(has_term, has_category, has_min, has_max);
    assert(sql == a + b + c + d + e + f);
    let i1 = a.len() as int;
    let i2 = i1 + b.len();
    let i3 = i2 + c.len();
    let i4 = i3 + d.len();
    let i5 = i4 + e.len();
    assert(sql.subrange(i1, i1 + b.len()) =~= b);
    assert(sql.subrange(i2, i2 + c.len()) =~= c);
    assert(sql.subrange(i3, i3 + d.len()) =~= d);
    assert(sql.subrange(i4, i4 + e.len()) =~= e);
    assert(sql.subrange(i5, i5 + f.len()) =~= f);
}

/// Asking for one more filter inserts that filter's condition, and only it,
/// into the statement: the statement without the filter is the statement with
/// it, less the condition. So a condition is in a statement exactly when its
/// filter was asked for.
pub proof fn lemma_a_filter_adds_only_its_condition(has_term: bool, has_category: bool, has_min: bool, has_max: bool)
    ensures
        exists|pre: Seq<char>, post: Seq<char>|
            spec_search_sql(true, has_category, has_min, has_max) == pre + " AND (title LIKE ? OR description LIKE ?)"@ + post
                && #[trigger] spec_search_sql(false, has_category, has_min, has_max) == pre + post,
        exists|pre: Seq<char>, post: Seq<char>|
            spec_search_sql(has_term, true, has_min, has_max) == pre + " AND category = ?"@ + post
                && #[trigger] spec_search_sql(has_term, false, has_min, has_max) == pre + post,
        exists|pre: Seq<char>, post: Seq<char>|
            spec_search_sql(has_term, has_category, true, has_max) == pre + " AND price >= ?"@ + post
                && #[trigger] spec_search_sql(has_term, has_category, false, has_max) == pre + post,
        exists|pre: Seq<char>, post: Seq<char>|
            spec_search_sql(has_term, has_category, has_min, true) == pre + " AND price <= ?"@ + post
                && #[trigger] spec_search_sql(has_term, has_category, has_min, false) == pre + post,
        " AND (title LIKE ? OR description LIKE ?)"@.len() > 0,
        " AND category = ?"@.len() > 0,
        " AND price >= ?"@.len() > 0,
        " AND price <= ?"@.len() > 0,
{
    reveal_strlit(" AND (title LIKE ? OR description LIKE ?)");
    reveal_strlit(" AND category = ?");
    reveal_strlit(" AND price >= ?");
    reveal_strlit(" AND price <= ?");
    let a = "SELECT id, agent_id, title, description, category, price, created_at, updated_at FROM skills WHERE 1=1"@;
    let tq = " AND (title LIKE ? OR description LIKE ?)"@;
    let cq = " AND category = ?"@;
    let lq = " AND price >= ?"@;
    let hq = " AND price <= ?"@;
    let b = if has_term { tq } else { Seq::<char>::empty() };
    let c = if has_category { cq } else { Seq::<char>::empty() };
    let d = if has_min { lq } else { Seq::<char>::empty() };
    let e = if has_max { hq } else { Seq::<char>::empty() };
    let f = " LIMIT 50"@;
    assert(spec_search_sql(true, has_category, has_min, has_max) =~= a + tq + (c + d + e + f));
    assert(spec_search_sql(false, has_category, has_min, has_max) =~= a + (c + d + e + f));
    assert(spec_search_sql(has_term, true, has_min, has_max) =~= (a + b) + cq + (d + e + f));
    assert(spec_search_sql(has_term, false, has_min, has_max) =~= (a + b) + (d + e + f));
    assert(spec_search_sql(has_term, has_category, true, has_max) =~= (a + b + c) + lq + (e + f));
    assert(spec_search_sql(has_term, has_category, false, has_max) =~= (a + b + c) + (e + f));
    assert(spec_search_sql(has_term, has_category, has_min, true) =~= (a + b + c + d) + hq + f);
    assert(spec_search_sql(has_term, has_category, has_min, false) =~= (a + b + c + d) + f);
}

/// The values bound to a search follow its placeholders: the text's pattern
/// twice when there is a text, then the category when there is one, then the
/// lowest and the highest price when there are.
pub proof fn lemma_values_follow_the_filters(query: SearchQuery)
    ensures
        ({
            let t = if search_term(query).len() > 0 { 2int } else { 0int };
            let c = if query.category is Some { 1int } else { 0int };
            let m = if query.min_price is Some { 1int } else { 0int };
            let x = if query.max_price is Some { 1int } else { 0int };
            let args = spec_search_args(query);
            &&& args.len() == t + c + m + x
            &&& search_term(query).len() > 0 ==> args[0] == SqlArgView::Text(like_pattern(search_term(query)))
                && args[1] == SqlArgView::Text(like_pattern(search_term(query)))
            &&& query.category matches Some(cat) ==> args[t] == SqlArgView::Text(cat@)
            &&& query.min_price matches Some(lo) ==> args[t + c] == SqlArgView::Real(lo)
            &&& query.max_price matches Some(hi) ==> args[t + c + m] == SqlArgView::Real(hi)
        }),
{
}

} // verus!
