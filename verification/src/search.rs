//! The post listing: which rows to fetch for a page of results, and the
//! links to the pages before and after it.
//!
//! A page shows up to eight posts. One row more is fetched than a page
//! advances by, and a full fetch is the sign that a next page exists.

use vstd::prelude::*;
use vstd::string::StringExecFns;
use crate::models::{PostContent, PostSearchResult, SearchParams};
use crate::store::{SqlValue, SqlValueView, Statement, StatementView};
use crate::text::{decimal, decimal_text, text_of};

verus! {

/// The number of rows by which one page advances.
pub const PAGE_SIZE: u64 = 8;

/// The number of rows that are fetched for one page.
pub const FETCH_LIMIT: usize = 9;

/// Selects the published posts with the tag `?1`, newest first, skipping
/// `?2` rows.
pub const POSTS_BY_TAG: &'static str =
    "SELECT slug, tag, title FROM post WHERE published = TRUE AND tag = ?1 ORDER BY timestamp DESC LIMIT 9 OFFSET ?2";

/// Selects the published posts, newest first, skipping `?1` rows.
pub const POSTS: &'static str =
    "SELECT slug, tag, title FROM post WHERE published = TRUE ORDER BY timestamp DESC LIMIT 9 OFFSET ?1";

/// The page that a request asks for; the first page has number 0.
pub open spec fn page_number(page: Option<u32>) -> nat {
    match page {
        Some(n) => n as nat,
        None => 0,
    }
}

/// The number of rows that lie before the requested page.
pub open spec fn rows_before(page: Option<u32>) -> nat {
    page_number(page) * 8
}

/// The link to page `number` of the listing for `tag`. Page 0 is linked
/// without a page number.
pub open spec fn page_link(tag: Option<Seq<char>>, number: nat) -> Seq<char> {
    match tag {
        Some(t) => if number == 0 {
            "/?tag="@ + t
        } else {
            "/?tag="@ + t + "&page="@ + decimal(number)
        },
        None => if number == 0 {
            "/"@
        } else {
            "/?page="@ + decimal(number)
        },
    }
}

/// The link to the page before the requested one. There is none where the
/// request names no page, or names page 0.
pub open spec fn prev_link(tag: Option<Seq<char>>, page: Option<u32>) -> Option<Seq<char>> {
    match page {
        Some(n) if n >= 1 => Some(page_link(tag, (n - 1) as nat)),
        _ => None,
    }
}

/// The link to the page after the requested one, given how many rows were
/// fetched. There is one where the request names a page and the fetch came
/// back full.
pub open spec fn next_link(tag: Option<Seq<char>>, page: Option<u32>, fetched: nat) -> Option<
    Seq<char>,
> {
    match page {
        Some(n) if fetched == 9 => Some(page_link(tag, (n + 1) as nat)),
        _ => None,
    }
}

/// The number of rows that lie before the requested page.
pub fn skip(params: &SearchParams) -> (r: u64)
    ensures
        r == rows_before(params.page),
{
    match params.page {
        Some(n) => (n as u64) * PAGE_SIZE,
        None => 0,
    }
}

/// The statement that fetches the rows of the requested page: the posts
/// with the requested tag, or all posts where none is requested, from the
/// first row of the page on.
pub open spec fn search_plan(tag: Option<Seq<char>>, page: Option<u32>) -> StatementView {
    match tag {
        Some(t) => StatementView {
            sql: POSTS_BY_TAG@,
            params: seq![SqlValueView::Text(t), SqlValueView::Integer(rows_before(page) as int)],
        },
        None => StatementView {
            sql: POSTS@,
            params: seq![SqlValueView::Integer(rows_before(page) as int)],
        },
    }
}

/// The statement that fetches the rows of the requested page.
pub fn search_statement(params: &SearchParams) -> (r: Statement)
    ensures
        r@ == search_plan(text_of(params.tag), params.page),
{
    let offset: u64 = skip(params);
    let mut values: Vec<SqlValue> = Vec::new();
    match &params.tag {
        Some(tag) => {
            values.push(SqlValue::Text(tag.clone()));
            values.push(SqlValue::Integer(offset));
            let r = Statement { sql: POSTS_BY_TAG.to_owned(), params: values };
            assert(r@.params =~= search_plan(text_of(params.tag), params.page).params);
            r
        },
        None => {
            values.push(SqlValue::Integer(offset));
            let r = Statement { sql: POSTS.to_owned(), params: values };
            assert(r@.params =~= search_plan(text_of(params.tag), params.page).params);
            r
        },
    }
}

/// Writes the link to page `number` of the listing for `tag`.
pub fn page_link_text(tag: &Option<String>, number: u64) -> (r: String)
    ensures
        r@ == page_link(text_of(*tag), number as nat),
{
    match tag {
        Some(t) => {
            let mut r = String::from_str("/?tag=");
            r.append(t.as_str());
            if number != 0 {
                r.append("&page=");
                r.append(decimal_text(number).as_str());
            }
            r
        },
        None => {
            if number == 0 {
                String::from_str("/")
            } else {
                let mut r = String::from_str("/?page=");
                r.append(decimal_text(number).as_str());
                r
            }
        },
    }
}

/// What the listing template is rendered with: the fetched posts and the
/// links to the neighbouring pages.
pub fn search_content(params: &SearchParams, posts: Vec<PostSearchResult>) -> (r: PostContent)
    ensures
        r.posts == posts,
        text_of(r.prev) == prev_link(text_of(params.tag), params.page),
        text_of(r.next) == next_link(text_of(params.tag), params.page, posts@.len()),
{
    let mut prev: Option<String> = None;
    let mut next: Option<String> = None;
    match params.page {
        Some(n) => {
            if n >= 1 {
                prev = Some(page_link_text(&params.tag, (n - 1) as u64));
            }
            if posts.len() == FETCH_LIMIT {
                next = Some(page_link_text(&params.tag, n as u64 + 1));
            }
        },
        None => {},
    }
    PostContent { posts, prev, next }
}

} // verus!
