use whynotblog::models::{PostSearchResult, SearchParams};
use whynotblog::search::{
    page_link_text, search_content, search_statement, skip, FETCH_LIMIT, PAGE_SIZE, POSTS,
    POSTS_BY_TAG,
};
use whynotblog::store::SqlValue;

fn params(tag: Option<&str>, page: Option<u32>) -> SearchParams {
    SearchParams { tag: tag.map(|t| t.to_string()), page }
}

fn posts(n: usize) -> Vec<PostSearchResult> {
    (0..n)
        .map(|i| PostSearchResult {
            slug: format!("slug-{}", i),
            title: format!("Title {}", i),
            tag: "t".to_string(),
        })
        .collect()
}

#[test]
fn skip_is_eight_rows_for_each_page() {
    assert_eq!(skip(&params(None, None)), 0);
    assert_eq!(skip(&params(None, Some(0))), 0);
    assert_eq!(skip(&params(None, Some(1))), 8);
    assert_eq!(skip(&params(Some("rust"), Some(3))), 24);
    assert_eq!(skip(&params(None, Some(u32::MAX))), 34359738360);
    assert_eq!(PAGE_SIZE, 8);
    assert_eq!(FETCH_LIMIT, 9);
}

#[test]
fn statement_without_tag() {
    let s = search_statement(&params(None, Some(2)));
    assert_eq!(s.sql, POSTS);
    assert_eq!(s.params, vec![SqlValue::Integer(16)]);
    assert_eq!(
        s.sql,
        "SELECT slug, tag, title FROM post WHERE published = TRUE ORDER BY timestamp DESC LIMIT 9 OFFSET ?1"
    );
}

#[test]
fn statement_with_tag() {
    let s = search_statement(&params(Some("rust"), None));
    assert_eq!(s.sql, POSTS_BY_TAG);
    assert_eq!(s.params, vec![SqlValue::Text("rust".to_string()), SqlValue::Integer(0)]);
    assert_eq!(
        s.sql,
        "SELECT slug, tag, title FROM post WHERE published = TRUE AND tag = ?1 ORDER BY timestamp DESC LIMIT 9 OFFSET ?2"
    );
}

#[test]
fn page_links() {
    assert_eq!(page_link_text(&None, 0), "/");
    assert_eq!(page_link_text(&None, 1), "/?page=1");
    assert_eq!(page_link_text(&None, 12), "/?page=12");
    assert_eq!(page_link_text(&Some("rust".to_string()), 0), "/?tag=rust");
    assert_eq!(page_link_text(&Some("rust".to_string()), 3), "/?tag=rust&page=3");
}

#[test]
fn no_links_without_a_page_number() {
    let c = search_content(&params(None, None), posts(9));
    assert_eq!(c.prev, None);
    assert_eq!(c.next, None);
    assert_eq!(c.posts.len(), 9);
    let c = search_content(&params(Some("rust"), None), posts(9));
    assert_eq!(c.prev, None);
    assert_eq!(c.next, None);
}

#[test]
fn first_page_has_no_previous_page() {
    let c = search_content(&params(None, Some(0)), posts(9));
    assert_eq!(c.prev, None);
    assert_eq!(c.next, Some("/?page=1".to_string()));
}

#[test]
fn second_page_links_back_to_the_plain_listing() {
    let c = search_content(&params(None, Some(1)), posts(3));
    assert_eq!(c.prev, Some("/".to_string()));
    assert_eq!(c.next, None);
    let c = search_content(&params(Some("rust"), Some(1)), posts(9));
    assert_eq!(c.prev, Some("/?tag=rust".to_string()));
    assert_eq!(c.next, Some("/?tag=rust&page=2".to_string()));
}

#[test]
fn later_pages_link_to_both_neighbours() {
    let c = search_content(&params(None, Some(5)), posts(9));
    assert_eq!(c.prev, Some("/?page=4".to_string()));
    assert_eq!(c.next, Some("/?page=6".to_string()));
    let c = search_content(&params(Some("a b"), Some(10)), posts(9));
    assert_eq!(c.prev, Some("/?tag=a b&page=9".to_string()));
    assert_eq!(c.next, Some("/?tag=a b&page=11".to_string()));
}

#[test]
fn next_link_needs_a_full_fetch() {
    for n in [0usize, 1, 8, 10] {
        let c = search_content(&params(None, Some(2)), posts(n));
        assert_eq!(c.next, None);
        assert_eq!(c.prev, Some("/?page=1".to_string()));
        assert_eq!(c.posts.len(), n);
    }
}

#[test]
fn posts_are_handed_on_unchanged() {
    let given = posts(4);
    let c = search_content(&params(None, Some(0)), given.clone());
    assert_eq!(c.posts, given);
}

#[test]
fn last_page_number_has_a_next_link() {
    let c = search_content(&params(None, Some(u32::MAX)), posts(9));
    assert_eq!(c.prev, Some("/?page=4294967294".to_string()));
    assert_eq!(c.next, Some("/?page=4294967296".to_string()));
}
