use whynotblog::pattern::Segment;
use whynotblog::table::{ResolutionKind, RouteEntry, RouteSource, RouteTable, TableError};

fn posts_then_catchall() -> RouteTable {
    RouteTable::new(vec![
        RouteEntry::new("/post/:slug", ResolutionKind::Post, None),
        RouteEntry::new("/:catchall", ResolutionKind::Page, None),
    ])
}

#[test]
fn dispatch_prefers_the_earlier_entry() {
    let table = posts_then_catchall();
    let r = table.resolve("/post/x").expect("a route matches");
    assert_eq!(r.kind, ResolutionKind::Post);
    assert_eq!(r.index, 0);
    assert_eq!(r.params.get("slug").map(|s| s.as_str()), Some("x"));
    assert_eq!(r.params.len(), 1);
}

#[test]
fn later_entry_serves_what_the_earlier_does_not_match() {
    let table = posts_then_catchall();
    let r = table.resolve("/about").expect("the catch-all matches");
    assert_eq!(r.kind, ResolutionKind::Page);
    assert_eq!(r.index, 1);
    assert_eq!(r.params.get("catchall").map(|s| s.as_str()), Some("about"));
}

#[test]
fn no_entry_matches() {
    let table = posts_then_catchall();
    assert!(table.resolve("/a/b/c").is_none());
    assert!(RouteTable::new(Vec::new()).resolve("/").is_none());
}

#[test]
fn order_decides_between_two_matching_entries() {
    let first_page = RouteTable::new(vec![
        RouteEntry::new("/:any", ResolutionKind::Page, None),
        RouteEntry::new("/:other", ResolutionKind::Post, None),
    ]);
    assert_eq!(first_page.resolve("/x").expect("match").kind, ResolutionKind::Page);
    let first_post = RouteTable::new(vec![
        RouteEntry::new("/:other", ResolutionKind::Post, None),
        RouteEntry::new("/:any", ResolutionKind::Page, None),
    ]);
    assert_eq!(first_post.resolve("/x").expect("match").kind, ResolutionKind::Post);
}

#[test]
fn catchall_listed_first_shadows_the_specific_route() {
    let table = RouteTable::new(vec![
        RouteEntry::new("/:a/:b", ResolutionKind::Page, None),
        RouteEntry::new("/post/:slug", ResolutionKind::Post, None),
    ]);
    let r = table.resolve("/post/x").expect("match");
    assert_eq!(r.index, 0);
    assert_eq!(r.kind, ResolutionKind::Page);
}

#[test]
fn fixed_id_travels_with_the_resolution() {
    let table = RouteTable::new(vec![
        RouteEntry::new("/about", ResolutionKind::Page, Some("about-us".to_string())),
        RouteEntry::new("/page/:id", ResolutionKind::Page, None),
    ]);
    let r = table.resolve("/about").expect("match");
    assert_eq!(r.fixed_id, Some("about-us".to_string()));
    assert!(r.params.is_empty());
    let r = table.resolve("/page/home").expect("match");
    assert_eq!(r.fixed_id, None);
    assert_eq!(r.index, 1);
}

#[test]
fn table_exposes_its_entries_in_order() {
    let table = posts_then_catchall();
    assert_eq!(table.len(), 2);
    let first = table.entry(0).expect("first");
    assert_eq!(first.kind(), ResolutionKind::Post);
    assert_eq!(first.fixed_id(), &None);
    assert_eq!(first.pattern().len(), 2);
    assert_eq!(first.pattern().segment(1), Some(&Segment::Parameter("slug".to_string())));
    assert_eq!(table.entry(1).expect("second").kind(), ResolutionKind::Page);
    assert!(table.entry(2).is_none());
}

#[test]
fn site_table_has_the_three_routes() {
    let table = RouteTable::site();
    assert_eq!(table.len(), 3);
    assert_eq!(table.resolve("/").expect("root").kind, ResolutionKind::Search);
    let page = table.resolve("/page/home").expect("page");
    assert_eq!(page.kind, ResolutionKind::Page);
    assert_eq!(page.params.get("id").map(|s| s.as_str()), Some("home"));
    let post = table.resolve("/post/david").expect("post");
    assert_eq!(post.kind, ResolutionKind::Post);
    assert_eq!(post.params.get("slug").map(|s| s.as_str()), Some("david"));
    assert!(table.resolve("/assets/site.css").is_none());
    assert!(table.resolve("/page").is_none());
}

#[test]
fn kinds_are_read_from_their_tags() {
    assert_eq!(ResolutionKind::from_tag("page"), Some(ResolutionKind::Page));
    assert_eq!(ResolutionKind::from_tag("post"), Some(ResolutionKind::Post));
    assert_eq!(ResolutionKind::from_tag("search"), Some(ResolutionKind::Search));
    assert_eq!(ResolutionKind::from_tag("Page"), None);
    assert_eq!(ResolutionKind::from_tag(""), None);
    assert_eq!(ResolutionKind::from_tag("pages"), None);
}

#[test]
fn kinds_name_their_templates() {
    assert_eq!(ResolutionKind::Page.template(), "page");
    assert_eq!(ResolutionKind::Post.template(), "post");
    assert_eq!(ResolutionKind::Search.template(), "search");
}

fn source(pattern: &str, kind: &str, fixed_id: Option<&str>) -> RouteSource {
    RouteSource {
        pattern: pattern.to_string(),
        kind: kind.to_string(),
        fixed_id: fixed_id.map(|s| s.to_string()),
    }
}

#[test]
fn load_keeps_order_and_metadata() {
    let table = RouteTable::load(&vec![
        source("/post/:slug", "post", None),
        source("/about", "page", Some("about-us")),
        source("/", "search", None),
    ])
    .expect("every entry is well formed");
    assert_eq!(table.len(), 3);
    assert_eq!(table.entry(0).expect("entry").kind(), ResolutionKind::Post);
    assert_eq!(table.entry(1).expect("entry").fixed_id(), &Some("about-us".to_string()));
    assert_eq!(table.resolve("/").expect("match").index, 2);
    assert_eq!(table.resolve("/post/x").expect("match").kind, ResolutionKind::Post);
}

#[test]
fn load_fails_on_the_first_malformed_entry() {
    let r = RouteTable::load(&vec![
        source("/", "search", None),
        source("/x", "feed", None),
        source("/y", "", None),
    ]);
    assert_eq!(r.err(), Some(TableError::UnknownKind { index: 1 }));
}

#[test]
fn load_of_nothing_is_the_empty_table() {
    let table = RouteTable::load(&Vec::new()).expect("nothing is malformed");
    assert_eq!(table.len(), 0);
}
