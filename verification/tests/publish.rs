use whynotblog::models::PageData;
use whynotblog::publish::{
    all_pages, content_update, home_page, page_line, page_set, post_set, source_file,
    source_update, ContentKind, ALL_PAGES, PAGE_REPLACE, PAGE_SET, PAGE_UPDATE,
    POST_SET_PUBLISHED, POST_SET_TAG, POST_SET_TITLE, POST_UPDATE,
};
use whynotblog::store::{SqlValue, Statement};

fn text(s: &str) -> SqlValue {
    SqlValue::Text(s.to_string())
}

#[test]
fn source_file_defaults_by_kind() {
    assert_eq!(source_file(ContentKind::Page, "home", &None), "pages/home.md");
    assert_eq!(source_file(ContentKind::Post, "hello", &None), "posts/hello.md");
    assert_eq!(source_file(ContentKind::Page, "", &None), "pages/.md");
}

#[test]
fn source_file_prefers_the_given_file() {
    let given = Some("drafts/x.md".to_string());
    assert_eq!(source_file(ContentKind::Page, "home", &given), "drafts/x.md");
    assert_eq!(source_file(ContentKind::Post, "home", &given), "drafts/x.md");
}

#[test]
fn page_set_statement() {
    let s = page_set("home", "Home");
    assert_eq!(s.sql, PAGE_SET);
    assert_eq!(s.params, vec![text("home"), text("Home")]);
    assert!(s.sql.starts_with("INSERT INTO page (id, title) VALUES (?1, ?2);"));
    assert!(s.sql.ends_with("ON CONFLICT(id) DO UPDATE SET title = ?2"));
}

#[test]
fn content_update_statements() {
    let s = content_update(ContentKind::Page, "home", "<p>x</p>");
    assert_eq!(s.sql, "UPDATE page SET content = ?2 WHERE id = ?1;");
    assert_eq!(s.sql, PAGE_UPDATE);
    assert_eq!(s.params, vec![text("home"), text("<p>x</p>")]);
    let s = content_update(ContentKind::Post, "hello", "<p>y</p>");
    assert_eq!(s.sql, "UPDATE post SET content = ?2 WHERE slug = ?1;");
    assert_eq!(s.sql, POST_UPDATE);
    assert_eq!(s.params, vec![text("hello"), text("<p>y</p>")]);
}

#[test]
fn source_update_stores_rendered_html() {
    let s = source_update(ContentKind::Page, "home", "# Hello\n\nSome *text*.\n");
    assert_eq!(s.sql, PAGE_UPDATE);
    assert_eq!(
        s.params,
        vec![text("home"), text("<h1>Hello</h1>\n<p>Some <em>text</em>.</p>\n")]
    );
}

#[test]
fn source_update_renders_lists_and_code() {
    let markdown = "\nhello\n=====\n\n* alpha\n* beta\n";
    let s = source_update(ContentKind::Post, "p", markdown);
    assert_eq!(s.sql, POST_UPDATE);
    assert_eq!(
        s.params,
        vec![text("p"), text("<h1>hello</h1>\n<ul>\n<li>alpha</li>\n<li>beta</li>\n</ul>\n")]
    );
    let s = source_update(ContentKind::Post, "p", "\n```js\nlet d = 123;\n```");
    assert_eq!(
        s.params[1],
        text("<pre><code class=\"language-js\">let d = 123;\n</code></pre>\n")
    );
}

#[test]
fn source_update_is_repeatable() {
    let a = source_update(ContentKind::Page, "n", "a **b** c");
    let b = source_update(ContentKind::Page, "n", "a **b** c");
    assert_eq!(a, b);
}

#[test]
fn post_set_with_nothing_given_is_empty() {
    assert_eq!(post_set("p", &None, &None, None, 1700000000), Vec::<Statement>::new());
}

#[test]
fn post_set_runs_title_tag_publication_in_order() {
    let plan = post_set(
        "p",
        &Some("Title".to_string()),
        &Some("rust".to_string()),
        Some(true),
        1700000000,
    );
    assert_eq!(plan.len(), 3);
    assert_eq!(plan[0].sql, POST_SET_TITLE);
    assert_eq!(plan[0].params, vec![text("p"), text("Title")]);
    assert_eq!(plan[1].sql, POST_SET_TAG);
    assert_eq!(plan[1].sql, "UPDATE post SET tag = ?2 WHERE slug = ?1;");
    assert_eq!(plan[1].params, vec![text("p"), text("rust")]);
    assert_eq!(plan[2].sql, POST_SET_PUBLISHED);
    assert_eq!(plan[2].sql, "UPDATE post SET published = ?2, timestamp = ?3 WHERE slug = ?1;");
    assert_eq!(
        plan[2].params,
        vec![text("p"), SqlValue::Boolean(true), SqlValue::Integer(1700000000)]
    );
}

#[test]
fn withdrawn_post_gets_time_zero() {
    let plan = post_set("p", &None, &None, Some(false), 1700000000);
    assert_eq!(plan.len(), 1);
    assert_eq!(
        plan[0].params,
        vec![text("p"), SqlValue::Boolean(false), SqlValue::Integer(0)]
    );
}

#[test]
fn post_set_skips_what_is_not_given() {
    let plan = post_set("p", &None, &Some("rust".to_string()), None, 5);
    assert_eq!(plan.len(), 1);
    assert_eq!(plan[0].sql, POST_SET_TAG);
    let plan = post_set("p", &Some("T".to_string()), &None, Some(true), 5);
    assert_eq!(plan.len(), 2);
    assert_eq!(plan[0].sql, POST_SET_TITLE);
    assert!(plan[0].sql.starts_with("INSERT INTO post (slug, title) VALUES (?1, ?2)\n"));
    assert!(plan[0].sql.ends_with("ON CONFLICT(slug) DO UPDATE SET title = ?2;"));
    assert_eq!(plan[1].sql, POST_SET_PUBLISHED);
}

#[test]
fn home_page_statement() {
    let s = home_page();
    assert_eq!(s.sql, PAGE_REPLACE);
    assert_eq!(s.params, vec![text("home"), text(""), text("<h1>Hello, World!</h1>")]);
}

#[test]
fn all_pages_statement() {
    let s = all_pages();
    assert_eq!(s.sql, ALL_PAGES);
    assert_eq!(s.sql, "SELECT * FROM page");
    assert!(s.params.is_empty());
}

#[test]
fn page_line_is_id_and_content() {
    let page = PageData {
        id: "home".to_string(),
        title: None,
        content: "<p>hi</p>".to_string(),
    };
    assert_eq!(page_line(&page), "home <p>hi</p>");
}
