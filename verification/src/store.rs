//! Statements for the content store: the text of a query and the values of
//! its numbered placeholders. The library builds them; running them is left
//! to the caller.

use vstd::prelude::*;

verus! {

/// The mathematical value of an [`SqlValue`].
pub enum SqlValueView {
    Text(Seq<char>),
    Integer(int),
    Boolean(bool),
}

/// A value for one placeholder of a statement.
#[derive(Clone, Debug, PartialEq, Eq)]
pub enum SqlValue {
    Text(String),
    Integer(u64),
    Boolean(bool),
}

impl View for SqlValue {
    type V = SqlValueView;

    open spec fn view(&self) -> SqlValueView {
        match self {
            SqlValue::Text(text) => SqlValueView::Text(text@),
            SqlValue::Integer(n) => SqlValueView::Integer(*n as int),
            SqlValue::Boolean(b) => SqlValueView::Boolean(*b),
        }
    }
}

impl DeepView for SqlValue {
    type V = SqlValueView;

    open spec fn deep_view(&self) -> SqlValueView {
        self@
    }
}

/// The mathematical value of a [`Statement`].
pub struct StatementView {
    pub sql: Seq<char>,
    pub params: Seq<SqlValueView>,
}

/// A statement and the values of its placeholders `?1`, `?2`, ... in order.
#[derive(Clone, Debug, PartialEq, Eq)]
pub struct Statement {
    pub sql: String,
    pub params: Vec<SqlValue>,
}

impl View for Statement {
    type V = StatementView;

    open spec fn view(&self) -> StatementView {
        StatementView { sql: self.sql@, params: self.params.deep_view() }
    }
}

impl DeepView for Statement {
    type V = StatementView;

    open spec fn deep_view(&self) -> StatementView {
        self@
    }
}

/// Selects the page with the id `?1`.
pub const PAGE_BY_ID: &'static str = "SELECT * FROM page WHERE id = ?1";

/// Selects the post with the slug `?1`.
pub const POST_BY_SLUG: &'static str = "SELECT * FROM post WHERE slug = ?1";

/// A statement with one text placeholder.
pub open spec fn one_text(sql: Seq<char>, value: Seq<char>) -> StatementView {
    StatementView { sql, params: seq![SqlValueView::Text(value)] }
}

/// A statement with two text placeholders.
pub open spec fn two_texts(sql: Seq<char>, first: Seq<char>, second: Seq<char>) -> StatementView {
    StatementView { sql, params: seq![SqlValueView::Text(first), SqlValueView::Text(second)] }
}

/// A statement with one text placeholder.
pub fn with_text(sql: &str, value: &str) -> (r: Statement)
    ensures
        r@ == one_text(sql@, value@),
{
    let mut params: Vec<SqlValue> = Vec::new();
    params.push(SqlValue::Text(value.to_owned()));
    let r = Statement { sql: sql.to_owned(), params };
    assert(r@.params =~= one_text(sql@, value@).params);
    r
}

/// A statement with two text placeholders.
pub fn with_two_texts(sql: &str, first: &str, second: &str) -> (r: Statement)
    ensures
        r@ == two_texts(sql@, first@, second@),
{
    let mut params: Vec<SqlValue> = Vec::new();
    params.push(SqlValue::Text(first.to_owned()));
    params.push(SqlValue::Text(second.to_owned()));
    let r = Statement { sql: sql.to_owned(), params };
    assert(r@.params =~= two_texts(sql@, first@, second@).params);
    r
}

/// The lookup of the page with the given id.
pub fn page_lookup(id: &str) -> (r: Statement)
    ensures
        r@ == one_text(PAGE_BY_ID@, id@),
{
    with_text(PAGE_BY_ID, id)
}

/// The lookup of the post with the given slug.
pub fn post_lookup(slug: &str) -> (r: Statement)
    ensures
        r@ == one_text(POST_BY_SLUG@, slug@),
{
    with_text(POST_BY_SLUG, slug)
}

} // verus!
